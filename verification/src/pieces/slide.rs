use vstd::prelude::*;
use crate::board::{Board, Grid, cell, in_bounds, occupant};
use crate::pieces::piece::{Piece, Team, held_by};
use crate::pieces::squares::{keeps_prefix, magnitude, push_new};

verus! {

/// The sign of `x`: -1, 0 or 1.
pub open spec fn sign(x: int) -> int {
    if x > 0 {
        1
    } else if x < 0 {
        -1
    } else {
        0
    }
}

/// `j` steps taken in the direction `s`, where `s` is a sign.
pub open spec fn stride(s: int, j: int) -> int {
    if s > 0 {
        j
    } else if s < 0 {
        -j
    } else {
        0
    }
}

/// The number of steps between `origin` and `dest` along a rank, a file or a diagonal.
pub open spec fn distance(origin: (usize, usize), dest: (usize, usize)) -> int {
    let dr = magnitude(dest.0 - origin.0);
    let dc = magnitude(dest.1 - origin.1);
    if dr >= dc {
        dr
    } else {
        dc
    }
}

/// What stands `j` steps from `origin` on the ray of direction (`sr`, `sc`).
pub open spec fn ray_cell(g: Grid, origin: (usize, usize), sr: int, sc: int, j: int) -> Option<Piece> {
    cell(g, origin.0 + stride(sr, j), origin.1 + stride(sc, j))
}

/// `dest` is the square `k` steps from `origin` on the ray of direction (`sr`, `sc`).
pub open spec fn is_ray_step(
    origin: (usize, usize),
    sr: int,
    sc: int,
    k: int,
    dest: (usize, usize),
) -> bool {
    &&& k >= 1
    &&& dest.0 == origin.0 + stride(sr, k)
    &&& dest.1 == origin.1 + stride(sc, k)
}

/// (`sr`, `sc`) is one of the four directions of a sliding piece: the four
/// diagonals if `diagonal`, else the four directions along a rank or a file.
pub open spec fn is_direction(diagonal: bool, sr: int, sc: int) -> bool {
    &&& -1 <= sr <= 1
    &&& -1 <= sc <= 1
    &&& if diagonal {
        sr != 0 && sc != 0
    } else {
        (sr == 0) != (sc == 0)
    }
}

/// `dest` lies on the ray that leaves `origin` in the direction (`sr`, `sc`).
pub open spec fn on_ray(origin: (usize, usize), sr: int, sc: int, dest: (usize, usize)) -> bool {
    &&& sign(dest.0 - origin.0) == sr
    &&& sign(dest.1 - origin.1) == sc
    &&& (sr != 0 && sc != 0 ==> magnitude(dest.0 - origin.0) == magnitude(dest.1 - origin.1))
    &&& (sr != 0 || sc != 0)
}

/// `dest` differs from `origin` and shares a diagonal with it (if `diagonal`),
/// or a rank or a file (if not).
pub open spec fn aligned(diagonal: bool, origin: (usize, usize), dest: (usize, usize)) -> bool {
    let dr = dest.0 - origin.0;
    let dc = dest.1 - origin.1;
    if diagonal {
        magnitude(dr) == magnitude(dc) && dr != 0
    } else {
        (dr == 0) != (dc == 0)
    }
}

/// Every square strictly between `origin` and `dest` is empty.
pub open spec fn path_clear(g: Grid, origin: (usize, usize), dest: (usize, usize)) -> bool {
    forall|j: int|
        1 <= j < distance(origin, dest) ==> (#[trigger] ray_cell(
            g,
            origin,
            sign(dest.0 - origin.0),
            sign(dest.1 - origin.1),
            j,
        )) is None
}

/// `dest` can be reached from `origin` and taken by a piece of `team`: the
/// squares between them are empty and `dest` holds no piece of `team`.
pub open spec fn reachable(g: Grid, team: Team, origin: (usize, usize), dest: (usize, usize)) -> bool {
    &&& in_bounds(dest)
    &&& path_clear(g, origin, dest)
    &&& !held_by(occupant(g, dest), team)
}

/// Whether a sliding piece of `team` on `origin` may move to `dest`.
pub open spec fn slide_legal(
    g: Grid,
    team: Team,
    diagonal: bool,
    origin: (usize, usize),
    dest: (usize, usize),
) -> bool {
    &&& in_bounds(origin)
    &&& aligned(diagonal, origin, dest)
    &&& reachable(g, team, origin, dest)
}

/// From the index `from` on, the squares of `list` come in the order of
/// their distance from `origin`, the nearest first.
pub open spec fn nearest_first(origin: (usize, usize), list: Seq<(usize, usize)>, from: int) -> bool {
    forall|a: int, b: int|
        from <= a < b < list.len() ==> distance(origin, #[trigger] list[a]) < distance(
            origin,
            #[trigger] list[b],
        )
}

/// Walks the ray that leaves `origin` in the direction (`sr`, `sc`), one
/// step at a time, and appends each square a piece of `team` may move to,
/// the nearest first: the empty squares up to the first occupant or the
/// edge, and that occupant's square if it is of the other team.
pub fn walk_ray(
    board: &Board,
    team: Team,
    origin: (usize, usize),
    sr: i8,
    sc: i8,
    out: &mut Vec<(usize, usize)>,
)
    requires
        in_bounds(origin),
        -1 <= sr <= 1,
        -1 <= sc <= 1,
        sr != 0 || sc != 0,
        old(out)@.no_duplicates(),
        forall|d: (usize, usize)| #[trigger]
            old(out)@.contains(d) ==> !on_ray(origin, sr as int, sc as int, d),
    ensures
        keeps_prefix(old(out)@, final(out)@),
        nearest_first(origin, final(out)@, old(out)@.len() as int),
        final(out)@.no_duplicates(),
        forall|d: (usize, usize)|
            #[trigger] final(out)@.contains(d) <==> old(out)@.contains(d) || (on_ray(
                origin,
                sr as int,
                sc as int,
                d,
            ) && reachable(board@, team, origin, d)),
{
    let ghost g = board@;
    let ghost before = out@;
    let mut r: usize = origin.0;
    let mut c: usize = origin.1;
    let ghost mut i: int = 0;
    loop
        invariant
            in_bounds(origin),
            -1 <= sr <= 1,
            -1 <= sc <= 1,
            sr != 0 || sc != 0,
            g == board@,
            before == old(out)@,
            keeps_prefix(before, out@),
            nearest_first(origin, out@, before.len() as int),
            forall|a: int|
                before.len() <= a < out@.len() ==> distance(origin, #[trigger] out@[a]) <= i,
            0 <= i <= 7,
            r < 8,
            c < 8,
            r == origin.0 + stride(sr as int, i),
            c == origin.1 + stride(sc as int, i),
            forall|j: int|
                1 <= j <= i ==> (#[trigger] ray_cell(g, origin, sr as int, sc as int, j)) is None,
            out@.no_duplicates(),
            forall|d: (usize, usize)|
                #[trigger] out@.contains(d) <==> before.contains(d) || (on_ray(
                    origin,
                    sr as int,
                    sc as int,
                    d,
                ) && in_bounds(d) && distance(origin, d) <= i),
            forall|d: (usize, usize)| #[trigger]
                before.contains(d) ==> !on_ray(origin, sr as int, sc as int, d),
        decreases 8 - i,
    {
        if (sr < 0 && r == 0) || (sr > 0 && r == 7) || (sc < 0 && c == 0) || (sc > 0 && c == 7) {
            proof {
                assert forall|d: (usize, usize)|
                    #[trigger] out@.contains(d) <==> before.contains(d) || (on_ray(
                        origin,
                        sr as int,
                        sc as int,
                        d,
                    ) && reachable(g, team, origin, d)) by {
                    if on_ray(origin, sr as int, sc as int, d) && in_bounds(d) {
                        lemma_clear_prefix(g, team, origin, sr as int, sc as int, i, d);
                    }
                }
            }
            return ;
        }
        if sr > 0 {
            r = r + 1;
        } else if sr < 0 {
            r = r - 1;
        }
        if sc > 0 {
            c = c + 1;
        } else if sc < 0 {
            c = c - 1;
        }
        proof {
            i = i + 1;
        }
        let here = board.get((r, c));
        assert(here == ray_cell(g, origin, sr as int, sc as int, i));
        let ghost mid = out@;
        proof {
            assert(on_ray(origin, sr as int, sc as int, (r, c)));
            assert(distance(origin, (r, c)) == i);
            assert(!mid.contains((r, c)));
        }
        match here {
            Some(p) => {
                if p.team() != team {
                    push_new(out, (r, c));
                }
                proof {
                    assert forall|d: (usize, usize)|
                        #[trigger] out@.contains(d) <==> before.contains(d) || (on_ray(
                            origin,
                            sr as int,
                            sc as int,
                            d,
                        ) && reachable(g, team, origin, d)) by {
                        if on_ray(origin, sr as int, sc as int, d) && in_bounds(d) {
                            if distance(origin, d) < i {
                                lemma_clear_prefix(
                                    g,
                                    team,
                                    origin,
                                    sr as int,
                                    sc as int,
                                    i - 1,
                                    d,
                                );
                            } else if distance(origin, d) == i {
                                assert(d == (r, c));
                                assert(path_clear(g, origin, d));
                            } else {
                                assert(ray_cell(g, origin, sr as int, sc as int, i) is Some);
                                assert(!path_clear(g, origin, d));
                            }
                        }
                    }
                }
                return ;
            },
            None => {
                push_new(out, (r, c));
                proof {
                    assert forall|d: (usize, usize)|
                        #[trigger] out@.contains(d) <==> before.contains(d) || (on_ray(
                            origin,
                            sr as int,
                            sc as int,
                            d,
                        ) && in_bounds(d) && distance(origin, d) <= i) by {
                        if on_ray(origin, sr as int, sc as int, d) && in_bounds(d) && distance(
                            origin,
                            d,
                        ) == i {
                            assert(d == (r, c));
                        }
                    }
                }
            },
        }
    }
}

/// On a ray whose first `i` squares are empty, every square of the board at
/// most `i` steps away can be reached. A square of the ray lies as many
/// steps from the origin as its distance says.
proof fn lemma_clear_prefix(
    g: Grid,
    team: Team,
    origin: (usize, usize),
    sr: int,
    sc: int,
    i: int,
    d: (usize, usize),
)
    requires
        in_bounds(origin),
        in_bounds(d),
        on_ray(origin, sr, sc, d),
        0 <= i <= 7,
        forall|j: int| 1 <= j <= i ==> (#[trigger] ray_cell(g, origin, sr, sc, j)) is None,
    ensures
        distance(origin, d) <= i ==> reachable(g, team, origin, d),
        distance(origin, d) >= 1,
        d.0 == origin.0 + stride(sr, distance(origin, d)),
        d.1 == origin.1 + stride(sc, distance(origin, d)),
{
    let k = distance(origin, d);
    if k <= i {
        assert(occupant(g, d) == ray_cell(g, origin, sr, sc, k));
        assert(path_clear(g, origin, d));
    }
}

} // verus!
