//! Assigning each cell a representative field of view by majority vote over
//! its assigned transcripts' fields of view.

use vstd::prelude::*;

verus! {

/// The cell-assignment sentinel for a transcript assigned to no cell.
pub const BACKGROUND_CELL: u32 = u32::MAX;

/// The vote sentinel for a cell with no assigned transcripts.
pub const UNASSIGNED_FOV: u32 = u32::MAX;

/// How many of the first `n` transcripts are assigned to `cell` and imaged in
/// `fov`.
pub open spec fn vote_count_upto(
    cells: Seq<u32>,
    fovs: Seq<u32>,
    cell: u32,
    fov: u32,
    n: int,
) -> nat
    decreases n,
{
    if n <= 0 {
        0
    } else {
        vote_count_upto(cells, fovs, cell, fov, n - 1) + if cells[n - 1] == cell && fovs[n - 1]
            == fov {
            1nat
        } else {
            0nat
        }
    }
}

/// How many transcripts are assigned to `cell` and imaged in `fov`.
pub open spec fn vote_count(cells: Seq<u32>, fovs: Seq<u32>, cell: u32, fov: u32) -> nat {
    vote_count_upto(cells, fovs, cell, fov, cells.len() as int)
}

proof fn lemma_vote_count_upto_bound(cells: Seq<u32>, fovs: Seq<u32>, cell: u32, fov: u32, n: int)
    requires
        n >= 0,
    ensures
        vote_count_upto(cells, fovs, cell, fov, n) <= n,
    decreases n,
{
    if n > 0 {
        lemma_vote_count_upto_bound(cells, fovs, cell, fov, n - 1);
    }
}

/// `w` is the vote result for `cell`: the sentinel when no transcript is
/// assigned to it, otherwise the field of view with strictly the highest
/// count, ties broken by the lowest index.
pub open spec fn fov_winner(
    cells: Seq<u32>,
    fovs: Seq<u32>,
    nfovs: nat,
    cell: u32,
    w: u32,
) -> bool {
    if forall|f: u32| f < nfovs ==> #[trigger] vote_count(cells, fovs, cell, f) == 0 {
        w == UNASSIGNED_FOV
    } else {
        &&& w < nfovs
        &&& vote_count(cells, fovs, cell, w) > 0
        &&& forall|f: u32|
            f < w ==> #[trigger] vote_count(cells, fovs, cell, f) < vote_count(
                cells,
                fovs,
                cell,
                w,
            )
        &&& forall|f: u32|
            w <= f < nfovs ==> #[trigger] vote_count(cells, fovs, cell, f) <= vote_count(
                cells,
                fovs,
                cell,
                w,
            )
    }
}

/// The vote is deterministic: the winner predicate admits exactly one
/// result per cell, so any two tallies of the same assignments agree.
pub proof fn lemma_fov_winner_unique(
    cells: Seq<u32>,
    fovs: Seq<u32>,
    nfovs: nat,
    cell: u32,
    w1: u32,
    w2: u32,
)
    requires
        fov_winner(cells, fovs, nfovs, cell, w1),
        fov_winner(cells, fovs, nfovs, cell, w2),
    ensures
        w1 == w2,
{
    if exists|f: u32| f < nfovs && #[trigger] vote_count(cells, fovs, cell, f) != 0 {
        let f = choose|f: u32| f < nfovs && #[trigger] vote_count(cells, fovs, cell, f) != 0;
        assert(vote_count(cells, fovs, cell, f) != 0);
        if w1 < w2 {
            assert(vote_count(cells, fovs, cell, w1) < vote_count(cells, fovs, cell, w2));
            assert(vote_count(cells, fovs, cell, w2) <= vote_count(cells, fovs, cell, w1));
        } else if w2 < w1 {
            assert(vote_count(cells, fovs, cell, w2) < vote_count(cells, fovs, cell, w1));
            assert(vote_count(cells, fovs, cell, w1) <= vote_count(cells, fovs, cell, w2));
        }
    }
}

/// Tallies, for each cell, the fields of view of the transcripts assigned to
/// it, and returns each cell's winning field of view — strictly highest
/// count, ties to the lowest index — or the sentinel for a cell with no
/// assigned transcripts.
pub fn cell_fov_vote(
    ncells: usize,
    nfovs: usize,
    cell_assignments: &Vec<u32>,
    fovs: &Vec<u32>,
) -> (r: Vec<u32>)
    requires
        fovs@.len() == cell_assignments@.len(),
        forall|i: int|
            0 <= i < cell_assignments@.len() ==> cell_assignments@[i] == BACKGROUND_CELL || (
            cell_assignments@[i] as int) < ncells as int,
        forall|i: int|
            0 <= i < cell_assignments@.len() ==> cell_assignments@[i] != BACKGROUND_CELL ==> (
            fovs@[i] as int) < nfovs as int,
        ncells <= u32::MAX as usize,
        nfovs < u32::MAX as usize,
    ensures
        r@.len() == ncells,
        forall|c: int|
            0 <= c < ncells ==> #[trigger] fov_winner(
                cell_assignments@,
                fovs@,
                nfovs as nat,
                c as u32,
                r@[c],
            ),
{
    let mut counts: Vec<Vec<usize>> = Vec::new();
    let mut c: usize = 0;
    while c < ncells
        invariant
            c <= ncells,
            counts@.len() == c,
            forall|a: int| 0 <= a < c ==> counts@[a]@ =~= Seq::new(nfovs as nat, |b: int| 0usize),
        decreases ncells - c,
    {
        let row: Vec<usize> = vec![0usize; nfovs];
        counts.push(row);
        c += 1;
    }
    assert(forall|a: int, b: int|
        0 <= a < ncells && 0 <= b < nfovs ==> counts@[a]@[b] == vote_count_upto(
            cell_assignments@,
            fovs@,
            a as u32,
            b as u32,
            0,
        ));

    let n = cell_assignments.len();
    let mut i: usize = 0;
    while i < n
        invariant
            i <= n,
            n == cell_assignments@.len(),
            n == fovs@.len(),
            ncells <= u32::MAX as usize,
            nfovs < u32::MAX as usize,
            counts@.len() == ncells,
            forall|a: int| 0 <= a < ncells ==> counts@[a]@.len() == nfovs,
            forall|j: int|
                0 <= j < n ==> cell_assignments@[j] == BACKGROUND_CELL || (cell_assignments@[j]
                    as int) < ncells as int,
            forall|j: int|
                0 <= j < n ==> cell_assignments@[j] != BACKGROUND_CELL ==> (fovs@[j] as int)
                    < nfovs as int,
            forall|a: int, b: int|
                0 <= a < ncells && 0 <= b < nfovs ==> counts@[a]@[b] == vote_count_upto(
                    cell_assignments@,
                    fovs@,
                    a as u32,
                    b as u32,
                    i as int,
                ),
        decreases n - i,
    {
        let ghost prev = counts@;
        let cell = cell_assignments[i];
        let fov = fovs[i];
        if cell != BACKGROUND_CELL {
            let ci = cell as usize;
            let fi = fov as usize;
            let cur = counts[ci][fi];
            proof {
                lemma_vote_count_upto_bound(
                    cell_assignments@,
                    fovs@,
                    cell,
                    fov,
                    i as int,
                );
            }
            counts[ci][fi] = cur + 1;
            assert(counts@[ci as int]@ =~= prev[ci as int]@.update(fi as int, (cur + 1) as usize));
        }
        proof {
            assert forall|a: int, b: int|
                0 <= a < ncells && 0 <= b < nfovs implies counts@[a]@[b] == vote_count_upto(
                cell_assignments@,
                fovs@,
                a as u32,
                b as u32,
                i + 1,
            ) by {
                assert(vote_count_upto(cell_assignments@, fovs@, a as u32, b as u32, i + 1)
                    == vote_count_upto(cell_assignments@, fovs@, a as u32, b as u32, i as int)
                    + if cell_assignments@[i as int] == a as u32 && fovs@[i as int] == b as u32 {
                    1nat
                } else {
                    0nat
                });
            }
        }
        i += 1;
    }

    let mut r: Vec<u32> = Vec::new();
    let mut c: usize = 0;
    while c < ncells
        invariant
            c <= ncells,
            ncells <= u32::MAX as usize,
            nfovs < u32::MAX as usize,
            counts@.len() == ncells,
            forall|a: int| 0 <= a < ncells ==> counts@[a]@.len() == nfovs,
            forall|a: int, b: int|
                0 <= a < ncells && 0 <= b < nfovs ==> counts@[a]@[b] == vote_count(
                    cell_assignments@,
                    fovs@,
                    a as u32,
                    b as u32,
                ),
            r@.len() == c,
            forall|a: int|
                0 <= a < c ==> #[trigger] fov_winner(
                    cell_assignments@,
                    fovs@,
                    nfovs as nat,
                    a as u32,
                    r@[a],
                ),
        decreases ncells - c,
    {
        let mut winner: u32 = UNASSIGNED_FOV;
        let mut winner_count: usize = 0;
        let mut f: usize = 0;
        while f < nfovs
            invariant
                f <= nfovs,
                c < ncells,
                ncells <= u32::MAX as usize,
                nfovs < u32::MAX as usize,
                counts@.len() == ncells,
                forall|a: int| 0 <= a < ncells ==> counts@[a]@.len() == nfovs,
                forall|a: int, b: int|
                    0 <= a < ncells && 0 <= b < nfovs ==> counts@[a]@[b] == vote_count(
                        cell_assignments@,
                        fovs@,
                        a as u32,
                        b as u32,
                    ),
                winner_count == 0 ==> winner == UNASSIGNED_FOV && forall|g: u32|
                    g < f ==> #[trigger] vote_count(cell_assignments@, fovs@, c as u32, g) == 0,
                winner_count > 0 ==> {
                    &&& (winner as int) < f as int
                    &&& vote_count(cell_assignments@, fovs@, c as u32, winner) == winner_count
                    &&& forall|g: u32|
                        g < winner ==> #[trigger] vote_count(cell_assignments@, fovs@, c as u32, g)
                            < winner_count
                    &&& forall|g: u32|
                        winner <= g < f ==> #[trigger] vote_count(
                            cell_assignments@,
                            fovs@,
                            c as u32,
                            g,
                        ) <= winner_count
                },
            decreases nfovs - f,
        {
            let count = counts[c][f];
            if count > winner_count {
                winner_count = count;
                winner = f as u32;
            }
            f += 1;
        }
        r.push(winner);
        assert(fov_winner(cell_assignments@, fovs@, nfovs as nat, c as u32, winner));
        c += 1;
    }
    r
}

} // verus!
