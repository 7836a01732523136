//! Table assemblers: one per output artifact, each building the artifact's
//! schema and column batch from already-final analysis data. The column
//! meaning, order and nullability of each artifact is pinned here.

use vstd::prelude::*;

use crate::num::dec_chars;
use crate::table::{col_len, ColView, Column, Table};
use crate::vote::{cell_fov_vote, fov_winner, UNASSIGNED_FOV};

verus! {

/// The per-gene count table: one unsigned-32 column per gene, named by the
/// gene; row r of input row g becomes entry r of column g.
pub fn counts_table(gene_names: &Vec<String>, counts: &Vec<Vec<u32>>) -> (t: Table)
    requires
        counts@.len() == gene_names@.len(),
        forall|i: int, j: int|
            0 <= i < counts@.len() && 0 <= j < counts@.len() ==> counts@[i]@.len()
                == counts@[j]@.len(),
    ensures
        t.wf(),
        t@ =~= Seq::new(
            gene_names@.len(),
            |i: int| (gene_names@[i]@, ColView::U32(counts@[i]@)),
        ),
{
    let mut t = Table::new();
    let mut i: usize = 0;
    while i < counts.len()
        invariant
            i <= counts@.len(),
            counts@.len() == gene_names@.len(),
            forall|a: int, b: int|
                0 <= a < counts@.len() && 0 <= b < counts@.len() ==> counts@[a]@.len()
                    == counts@[b]@.len(),
            t.wf(),
            t@ =~= Seq::new(i as nat, |j: int| (gene_names@[j]@, ColView::U32(counts@[j]@))),
            i > 0 ==> t.spec_rows() == counts@[0]@.len(),
        decreases counts@.len() - i,
    {
        let col = Column::U32(copy_u32s(&counts[i]));
        assert(t@.len() == i as nat && t@.len() == t.cols@.len());
        if i > 0 {
            assert(col_len(col@) == counts@[0]@.len());
        }
        t.push(gene_names[i].clone(), col);
        i += 1;
    }
    t
}

/// A table of one float column per gene, named by the gene, the values given
/// as bit patterns. Shared shape of the expected-counts and rates artifacts.
fn f32_gene_matrix_table(gene_names: &Vec<String>, rows_bits: &Vec<Vec<u32>>) -> (t: Table)
    requires
        rows_bits@.len() == gene_names@.len(),
        forall|i: int, j: int|
            0 <= i < rows_bits@.len() && 0 <= j < rows_bits@.len() ==> rows_bits@[i]@.len()
                == rows_bits@[j]@.len(),
    ensures
        t.wf(),
        t@ =~= Seq::new(
            gene_names@.len(),
            |i: int| (gene_names@[i]@, ColView::F32Bits(rows_bits@[i]@)),
        ),
{
    let mut t = Table::new();
    let mut i: usize = 0;
    while i < rows_bits.len()
        invariant
            i <= rows_bits@.len(),
            rows_bits@.len() == gene_names@.len(),
            forall|a: int, b: int|
                0 <= a < rows_bits@.len() && 0 <= b < rows_bits@.len() ==> rows_bits@[a]@.len()
                    == rows_bits@[b]@.len(),
            t.wf(),
            t@ =~= Seq::new(i as nat, |j: int| (gene_names@[j]@, ColView::F32Bits(rows_bits@[j]@))),
            i > 0 ==> t.spec_rows() == rows_bits@[0]@.len(),
        decreases rows_bits@.len() - i,
    {
        let col = Column::F32Bits(copy_u32s(&rows_bits[i]));
        assert(t@.len() == i as nat && t@.len() == t.cols@.len());
        if i > 0 {
            assert(col_len(col@) == rows_bits@[0]@.len());
        }
        t.push(gene_names[i].clone(), col);
        i += 1;
    }
    t
}

/// The expected-counts table: one float32 column per gene.
pub fn expected_counts_table(gene_names: &Vec<String>, ecounts_bits: &Vec<Vec<u32>>) -> (t: Table)
    requires
        ecounts_bits@.len() == gene_names@.len(),
        forall|i: int, j: int|
            0 <= i < ecounts_bits@.len() && 0 <= j < ecounts_bits@.len() ==> ecounts_bits@[i]@.len()
                == ecounts_bits@[j]@.len(),
    ensures
        t.wf(),
        t@ =~= Seq::new(
            gene_names@.len(),
            |i: int| (gene_names@[i]@, ColView::F32Bits(ecounts_bits@[i]@)),
        ),
{
    f32_gene_matrix_table(gene_names, ecounts_bits)
}

/// The fitted-rates table: one float32 column per gene.
pub fn rates_table(gene_names: &Vec<String>, rates_bits: &Vec<Vec<u32>>) -> (t: Table)
    requires
        rates_bits@.len() == gene_names@.len(),
        forall|i: int, j: int|
            0 <= i < rates_bits@.len() && 0 <= j < rates_bits@.len() ==> rates_bits@[i]@.len()
                == rates_bits@[j]@.len(),
    ensures
        t.wf(),
        t@ =~= Seq::new(
            gene_names@.len(),
            |i: int| (gene_names@[i]@, ColView::F32Bits(rates_bits@[i]@)),
        ),
{
    f32_gene_matrix_table(gene_names, rates_bits)
}

/// The name of the shape column of mixture component `i`.
pub open spec fn alpha_name(i: nat) -> Seq<char> {
    "\u{3b1}_"@ + dec_chars(i)
}

/// The name of the derived scale column of mixture component `i`.
pub open spec fn beta_name(i: nat) -> Seq<char> {
    "\u{3b2}_"@ + dec_chars(i)
}

/// The component-parameters table: one row per gene, a text `gene` column,
/// then per mixture component a shape and a scale float column, the values
/// given as bit patterns.
pub fn component_params_table(
    gene_names: &Vec<String>,
    alpha_bits: &Vec<Vec<u32>>,
    beta_bits: &Vec<Vec<u32>>,
) -> (t: Table)
    requires
        alpha_bits@.len() == beta_bits@.len(),
        forall|i: int| 0 <= i < alpha_bits@.len() ==> alpha_bits@[i]@.len() == gene_names@.len(),
        forall|i: int| 0 <= i < beta_bits@.len() ==> beta_bits@[i]@.len() == gene_names@.len(),
    ensures
        t.wf(),
        t@ =~= seq![("gene"@, ColView::Utf8(gene_names.deep_view()))] + Seq::new(
            2 * alpha_bits@.len(),
            |k: int|
                if k % 2 == 0 {
                    (alpha_name((k / 2) as nat), ColView::F32Bits(alpha_bits@[k / 2]@))
                } else {
                    (beta_name((k / 2) as nat), ColView::F32Bits(beta_bits@[k / 2]@))
                },
        ),
{
    let mut t = Table::new();
    assert(t@.len() == 0 && t@.len() == t.cols@.len());
    t.push(String::from_str("gene"), Column::Utf8(clone_strings(gene_names)));
    let ghost head = seq![("gene"@, ColView::Utf8(gene_names.deep_view()))];
    let mut i: usize = 0;
    while i < alpha_bits.len()
        invariant
            i <= alpha_bits@.len(),
            alpha_bits@.len() == beta_bits@.len(),
            forall|a: int|
                0 <= a < alpha_bits@.len() ==> alpha_bits@[a]@.len() == gene_names@.len(),
            forall|a: int| 0 <= a < beta_bits@.len() ==> beta_bits@[a]@.len() == gene_names@.len(),
            head == seq![("gene"@, ColView::Utf8(gene_names.deep_view()))],
            t.wf(),
            t.spec_rows() == gene_names@.len(),
            t@ =~= head + Seq::new(
                2 * i as nat,
                |k: int|
                    if k % 2 == 0 {
                        (alpha_name((k / 2) as nat), ColView::F32Bits(alpha_bits@[k / 2]@))
                    } else {
                        (beta_name((k / 2) as nat), ColView::F32Bits(beta_bits@[k / 2]@))
                    },
            ),
        decreases alpha_bits@.len() - i,
    {
        assert(t@.len() == 1 + 2 * i as nat && t@.len() == t.cols@.len());
        let mut an = String::from_str("\u{3b1}_");
        let digits = crate::num::u64_dec_string(i as u64);
        an.append(digits.as_str());
        t.push(an, Column::F32Bits(copy_u32s(&alpha_bits[i])));
        let mut bn = String::from_str("\u{3b2}_");
        bn.append(digits.as_str());
        t.push(bn, Column::F32Bits(copy_u32s(&beta_bits[i])));
        i += 1;
    }
    t
}

/// Copies an unsigned-32 list element by element.
fn copy_u32s(v: &Vec<u32>) -> (r: Vec<u32>)
    ensures
        r@ =~= v@,
{
    let mut r: Vec<u32> = Vec::new();
    let mut i: usize = 0;
    while i < v.len()
        invariant
            i <= v@.len(),
            r@ =~= v@.take(i as int),
        decreases v@.len() - i,
    {
        r.push(v[i]);
        i += 1;
    }
    r
}

/// Clones a string list element by element.
fn clone_strings(v: &Vec<String>) -> (r: Vec<String>)
    ensures
        r.deep_view() =~= v.deep_view(),
        r@.len() == v@.len(),
{
    let mut r: Vec<String> = Vec::new();
    let mut i: usize = 0;
    while i < v.len()
        invariant
            i <= v@.len(),
            r@.len() == i,
            forall|j: int| 0 <= j < i ==> r@[j]@ == v@[j]@,
        decreases v@.len() - i,
    {
        r.push(v[i].clone());
        i += 1;
    }
    r
}

} // verus!

verus! {

/// Copies an unsigned-16 list element by element.
fn copy_u16s(v: &Vec<u16>) -> (r: Vec<u16>)
    ensures
        r@ =~= v@,
{
    let mut r: Vec<u16> = Vec::new();
    let mut i: usize = 0;
    while i < v.len()
        invariant
            i <= v@.len(),
            r@ =~= v@.take(i as int),
        decreases v@.len() - i,
    {
        r.push(v[i]);
        i += 1;
    }
    r
}

/// Copies an unsigned-64 list element by element.
fn copy_u64s(v: &Vec<u64>) -> (r: Vec<u64>)
    ensures
        r@ =~= v@,
{
    let mut r: Vec<u64> = Vec::new();
    let mut i: usize = 0;
    while i < v.len()
        invariant
            i <= v@.len(),
            r@ =~= v@.take(i as int),
        decreases v@.len() - i,
    {
        r.push(v[i]);
        i += 1;
    }
    r
}

/// The cell ids 0, 1, ..., n-1.
fn index_range_u32(n: usize) -> (r: Vec<u32>)
    requires
        n <= u32::MAX as usize,
    ensures
        r@ =~= Seq::new(n as nat, |i: int| i as u32),
{
    let mut r: Vec<u32> = Vec::new();
    let mut i: usize = 0;
    while i < n
        invariant
            i <= n,
            n <= u32::MAX as usize,
            r@ =~= Seq::new(i as nat, |j: int| j as u32),
        decreases n - i,
    {
        r.push(i as u32);
        i += 1;
    }
    r
}

/// The nullable fov-name column: a name where a vote was cast, null where
/// the vote is the sentinel.
fn fov_name_column(votes: &Vec<u32>, fov_names: &Vec<String>) -> (r: Vec<Option<String>>)
    requires
        forall|c: int|
            0 <= c < votes@.len() ==> votes@[c] == UNASSIGNED_FOV || (votes@[c] as int)
                < fov_names@.len(),
    ensures
        r.deep_view() =~= Seq::new(
            votes@.len(),
            |c: int|
                if votes@[c] == UNASSIGNED_FOV {
                    None
                } else {
                    Some(fov_names.deep_view()[votes@[c] as int])
                },
        ),
{
    let mut r: Vec<Option<String>> = Vec::new();
    let mut i: usize = 0;
    while i < votes.len()
        invariant
            i <= votes@.len(),
            forall|c: int|
                0 <= c < votes@.len() ==> votes@[c] == UNASSIGNED_FOV || (votes@[c] as int)
                    < fov_names@.len(),
            r.deep_view() =~= Seq::new(
                i as nat,
                |c: int|
                    if votes@[c] == UNASSIGNED_FOV {
                        None
                    } else {
                        Some(fov_names.deep_view()[votes@[c] as int])
                    },
            ),
        decreases votes@.len() - i,
    {
        let v = votes[i];
        let ghost prev = r.deep_view();
        let elem: Option<String> = if v == UNASSIGNED_FOV {
            None
        } else {
            Some(fov_names[v as usize].clone())
        };
        let ghost ed = elem.deep_view();
        proof {
            if v != UNASSIGNED_FOV {
                assert(ed == Some(fov_names.deep_view()[v as int]));
            }
        }
        r.push(elem);
        proof {
            assert(r.deep_view() =~= prev.push(ed));
            assert(r.deep_view() =~= Seq::new(
                (i + 1) as nat,
                |c: int|
                    if votes@[c] == UNASSIGNED_FOV {
                        None
                    } else {
                        Some(fov_names.deep_view()[votes@[c] as int])
                    },
            ));
        }
        i += 1;
    }
    r
}

/// The cell-metadata table: one row per cell — the cell id, its centroid,
/// its voted field of view (null when no vote could be cast), its cluster,
/// volume and population. Float inputs arrive as bit patterns.
pub fn cell_metadata_table(
    centroid_x_bits: &Vec<u32>,
    centroid_y_bits: &Vec<u32>,
    centroid_z_bits: &Vec<u32>,
    cell_assignments: &Vec<u32>,
    fovs: &Vec<u32>,
    fov_names: &Vec<String>,
    clusters: &Vec<u16>,
    volume_bits: &Vec<u32>,
    populations: &Vec<u64>,
) -> (res: (Table, Vec<u32>))
    requires
        centroid_y_bits@.len() == centroid_x_bits@.len(),
        centroid_z_bits@.len() == centroid_x_bits@.len(),
        clusters@.len() == centroid_x_bits@.len(),
        volume_bits@.len() == centroid_x_bits@.len(),
        populations@.len() == centroid_x_bits@.len(),
        fovs@.len() == cell_assignments@.len(),
        forall|i: int|
            0 <= i < cell_assignments@.len() ==> cell_assignments@[i]
                == crate::vote::BACKGROUND_CELL || (cell_assignments@[i] as int)
                < centroid_x_bits@.len() as int,
        forall|i: int|
            0 <= i < cell_assignments@.len() ==> cell_assignments@[i]
                != crate::vote::BACKGROUND_CELL ==> (fovs@[i] as int) < fov_names@.len() as int,
        centroid_x_bits@.len() <= u32::MAX as usize,
        fov_names@.len() < u32::MAX as usize,
    ensures
        res.0.wf(),
        res.1@.len() == centroid_x_bits@.len(),
        forall|c: int|
            0 <= c < res.1@.len() ==> #[trigger] fov_winner(
                cell_assignments@,
                fovs@,
                fov_names@.len() as nat,
                c as u32,
                res.1@[c],
            ),
        res.0@ =~= seq![
            ("cell"@, ColView::U32(Seq::new(centroid_x_bits@.len(), |i: int| i as u32))),
            ("centroid_x"@, ColView::F32Bits(centroid_x_bits@)),
            ("centroid_y"@, ColView::F32Bits(centroid_y_bits@)),
            ("centroid_z"@, ColView::F32Bits(centroid_z_bits@)),
            (
                "fov"@,
                ColView::OptUtf8(
                    Seq::new(
                        centroid_x_bits@.len(),
                        |c: int|
                            if res.1@[c] == UNASSIGNED_FOV {
                                None
                            } else {
                                Some(fov_names.deep_view()[res.1@[c] as int])
                            },
                    ),
                ),
            ),
            ("cluster"@, ColView::U16(clusters@)),
            ("volume"@, ColView::F32Bits(volume_bits@)),
            ("population"@, ColView::U64(populations@)),
        ],
{
    let ncells = centroid_x_bits.len();
    let votes = cell_fov_vote(ncells, fov_names.len(), cell_assignments, fovs);
    assert forall|c: int| 0 <= c < votes@.len() implies votes@[c] == UNASSIGNED_FOV || (
    votes@[c] as int) < fov_names@.len() by {
        assert(fov_winner(cell_assignments@, fovs@, fov_names@.len() as nat, c as u32, votes@[c]));
    }
    let fov_col = fov_name_column(&votes, fov_names);
    let mut t = Table::new();
    t.push(String::from_str("cell"), Column::U32(index_range_u32(ncells)));
    t.push(String::from_str("centroid_x"), Column::F32Bits(copy_u32s(centroid_x_bits)));
    t.push(String::from_str("centroid_y"), Column::F32Bits(copy_u32s(centroid_y_bits)));
    t.push(String::from_str("centroid_z"), Column::F32Bits(copy_u32s(centroid_z_bits)));
    t.push(String::from_str("fov"), Column::OptUtf8(fov_col));
    t.push(String::from_str("cluster"), Column::U16(copy_u16s(clusters)));
    t.push(String::from_str("volume"), Column::F32Bits(copy_u32s(volume_bits)));
    t.push(String::from_str("population"), Column::U64(copy_u64s(populations)));
    proof {
        assert(t@ =~= seq![
            ("cell"@, ColView::U32(Seq::new(centroid_x_bits@.len(), |i: int| i as u32))),
            ("centroid_x"@, ColView::F32Bits(centroid_x_bits@)),
            ("centroid_y"@, ColView::F32Bits(centroid_y_bits@)),
            ("centroid_z"@, ColView::F32Bits(centroid_z_bits@)),
            (
                "fov"@,
                ColView::OptUtf8(
                    Seq::new(
                        centroid_x_bits@.len(),
                        |c: int|
                            if votes@[c] == UNASSIGNED_FOV {
                                None
                            } else {
                                Some(fov_names.deep_view()[votes@[c] as int])
                            },
                    ),
                ),
            ),
            ("cluster"@, ColView::U16(clusters@)),
            ("volume"@, ColView::F32Bits(volume_bits@)),
            ("population"@, ColView::U64(populations@)),
        ]);
    }
    (t, votes)
}

} // verus!

verus! {

/// The per-transcript discrete state the upstream model assigns: properly
/// assigned to a cell, background noise, or confusion.
#[derive(Copy, Clone, Debug, PartialEq, Eq, Structural)]
pub enum TranscriptState {
    Foreground,
    Background,
    Confusion,
}

/// Looks each id up in a name list.
fn lookup_names(ids: &Vec<u32>, names: &Vec<String>) -> (r: Vec<String>)
    requires
        forall|i: int| 0 <= i < ids@.len() ==> (ids@[i] as int) < names@.len(),
    ensures
        r.deep_view() =~= Seq::new(ids@.len(), |i: int| names.deep_view()[ids@[i] as int]),
        r@.len() == ids@.len(),
{
    let mut r: Vec<String> = Vec::new();
    let mut i: usize = 0;
    while i < ids.len()
        invariant
            i <= ids@.len(),
            forall|j: int| 0 <= j < ids@.len() ==> (ids@[j] as int) < names@.len(),
            r@.len() == i,
            r.deep_view() =~= Seq::new(i as nat, |j: int| names.deep_view()[ids@[j] as int]),
        decreases ids@.len() - i,
    {
        let ghost prev = r.deep_view();
        let name = names[ids[i] as usize].clone();
        let ghost nd = name.deep_view();
        r.push(name);
        proof {
            assert(r.deep_view() =~= prev.push(nd));
            assert(r.deep_view() =~= Seq::new(
                (i + 1) as nat,
                |j: int| names.deep_view()[ids@[j] as int],
            ));
        }
        i += 1;
    }
    r
}

/// The 0/1 column marking the transcripts in state `which`.
fn state_flags(states: &Vec<TranscriptState>, which: TranscriptState) -> (r: Vec<u8>)
    ensures
        r@ =~= Seq::new(
            states@.len(),
            |i: int|
                if states@[i] == which {
                    1u8
                } else {
                    0u8
                },
        ),
{
    let mut r: Vec<u8> = Vec::new();
    let mut i: usize = 0;
    while i < states.len()
        invariant
            i <= states@.len(),
            r@ =~= Seq::new(
                i as nat,
                |j: int|
                    if states@[j] == which {
                        1u8
                    } else {
                        0u8
                    },
            ),
        decreases states@.len() - i,
    {
        if states[i] == which {
            r.push(1);
        } else {
            r.push(0);
        }
        i += 1;
    }
    r
}

/// The transcript-metadata table: one row per transcript — id, corrected and
/// observed positions, gene and fov names, cell assignment (sentinel for
/// background), assignment probability, and 0/1 background and confusion
/// flags. Float inputs arrive as bit patterns.
pub fn transcript_metadata_table(
    transcript_ids: &Vec<u64>,
    x_bits: &Vec<u32>,
    y_bits: &Vec<u32>,
    z_bits: &Vec<u32>,
    observed_x_bits: &Vec<u32>,
    observed_y_bits: &Vec<u32>,
    observed_z_bits: &Vec<u32>,
    gene_ids: &Vec<u32>,
    gene_names: &Vec<String>,
    fovs: &Vec<u32>,
    fov_names: &Vec<String>,
    cell_assignments: &Vec<u32>,
    probability_bits: &Vec<u32>,
    states: &Vec<TranscriptState>,
) -> (t: Table)
    requires
        x_bits@.len() == transcript_ids@.len(),
        y_bits@.len() == transcript_ids@.len(),
        z_bits@.len() == transcript_ids@.len(),
        observed_x_bits@.len() == transcript_ids@.len(),
        observed_y_bits@.len() == transcript_ids@.len(),
        observed_z_bits@.len() == transcript_ids@.len(),
        gene_ids@.len() == transcript_ids@.len(),
        fovs@.len() == transcript_ids@.len(),
        cell_assignments@.len() == transcript_ids@.len(),
        probability_bits@.len() == transcript_ids@.len(),
        states@.len() == transcript_ids@.len(),
        forall|i: int| 0 <= i < gene_ids@.len() ==> (gene_ids@[i] as int) < gene_names@.len(),
        forall|i: int| 0 <= i < fovs@.len() ==> (fovs@[i] as int) < fov_names@.len(),
    ensures
        t.wf(),
        t@ =~= seq![
            ("transcript_id"@, ColView::U64(transcript_ids@)),
            ("x"@, ColView::F32Bits(x_bits@)),
            ("y"@, ColView::F32Bits(y_bits@)),
            ("z"@, ColView::F32Bits(z_bits@)),
            ("observed_x"@, ColView::F32Bits(observed_x_bits@)),
            ("observed_y"@, ColView::F32Bits(observed_y_bits@)),
            ("observed_z"@, ColView::F32Bits(observed_z_bits@)),
            (
                "gene"@,
                ColView::Utf8(
                    Seq::new(gene_ids@.len(), |i: int| gene_names.deep_view()[gene_ids@[i] as int]),
                ),
            ),
            (
                "fov"@,
                ColView::Utf8(
                    Seq::new(fovs@.len(), |i: int| fov_names.deep_view()[fovs@[i] as int]),
                ),
            ),
            ("assignment"@, ColView::U32(cell_assignments@)),
            ("probability"@, ColView::F32Bits(probability_bits@)),
            (
                "background"@,
                ColView::U8(
                    Seq::new(
                        states@.len(),
                        |i: int|
                            if states@[i] == TranscriptState::Background {
                                1u8
                            } else {
                                0u8
                            },
                    ),
                ),
            ),
            (
                "confusion"@,
                ColView::U8(
                    Seq::new(
                        states@.len(),
                        |i: int|
                            if states@[i] == TranscriptState::Confusion {
                                1u8
                            } else {
                                0u8
                            },
                    ),
                ),
            ),
        ],
{
    let mut t = Table::new();
    t.push(String::from_str("transcript_id"), Column::U64(copy_u64s(transcript_ids)));
    t.push(String::from_str("x"), Column::F32Bits(copy_u32s(x_bits)));
    t.push(String::from_str("y"), Column::F32Bits(copy_u32s(y_bits)));
    t.push(String::from_str("z"), Column::F32Bits(copy_u32s(z_bits)));
    t.push(String::from_str("observed_x"), Column::F32Bits(copy_u32s(observed_x_bits)));
    t.push(String::from_str("observed_y"), Column::F32Bits(copy_u32s(observed_y_bits)));
    t.push(String::from_str("observed_z"), Column::F32Bits(copy_u32s(observed_z_bits)));
    t.push(String::from_str("gene"), Column::Utf8(lookup_names(gene_ids, gene_names)));
    t.push(String::from_str("fov"), Column::Utf8(lookup_names(fovs, fov_names)));
    t.push(String::from_str("assignment"), Column::U32(copy_u32s(cell_assignments)));
    t.push(String::from_str("probability"), Column::F32Bits(copy_u32s(probability_bits)));
    t.push(
        String::from_str("background"),
        Column::U8(state_flags(states, TranscriptState::Background)),
    );
    t.push(
        String::from_str("confusion"),
        Column::U8(state_flags(states, TranscriptState::Confusion)),
    );
    t
}

} // verus!

verus! {

/// The sum of an unsigned-32 sequence, as a mathematical integer.
pub open spec fn u32_sum(s: Seq<u32>) -> int
    decreases s.len(),
{
    if s.len() == 0 {
        0
    } else {
        u32_sum(s.drop_last()) + s.last()
    }
}

proof fn lemma_u32_sum_bound(s: Seq<u32>)
    ensures
        0 <= u32_sum(s) <= s.len() * (u32::MAX as int),
    decreases s.len(),
{
    if s.len() > 0 {
        lemma_u32_sum_bound(s.drop_last());
        assert((s.len() - 1) * (u32::MAX as int) + (u32::MAX as int) == s.len() * (
        u32::MAX as int)) by (nonlinear_arith);
    }
}

/// Sums one count row into a 64-bit total.
fn row_total(row: &Vec<u32>) -> (r: u64)
    requires
        row@.len() <= u32::MAX as usize,
    ensures
        r as int == u32_sum(row@),
{
    let mut acc: u64 = 0;
    let mut i: usize = 0;
    while i < row.len()
        invariant
            i <= row@.len(),
            row@.len() <= u32::MAX as usize,
            acc as int == u32_sum(row@.take(i as int)),
        decreases row@.len() - i,
    {
        proof {
            lemma_u32_sum_bound(row@.take(i as int));
            assert((i as int) * (u32::MAX as int) + (u32::MAX as int) <= (u32::MAX as int) * (
            u32::MAX as int)) by (nonlinear_arith)
                requires
                    0 <= i as int,
                    i as int + 1 <= u32::MAX as int,
            ;
        }
        acc = acc + row[i] as u64;
        proof {
            assert(row@.take(i + 1).drop_last() =~= row@.take(i as int));
            assert(row@.take(i + 1).last() == row@[i as int]);
        }
        i += 1;
    }
    proof {
        assert(row@.take(row@.len() as int) =~= row@);
    }
    acc
}

/// The name of the dispersion column of component `i`.
pub open spec fn dispersion_name(i: nat) -> Seq<char> {
    "dispersion_"@ + dec_chars(i)
}

/// The name of the mean-rate column of component `i`.
pub open spec fn rate_name(i: nat) -> Seq<char> {
    "\u{3bb}_"@ + dec_chars(i)
}

/// The name of the background-rate column of layer `i`.
pub open spec fn background_rate_name(i: nat) -> Seq<char> {
    "\u{3bb}_bg_"@ + dec_chars(i)
}

/// The gene-metadata table: one row per gene — name, total observed count
/// (summed over fields of view), expected assigned count, then per mixture
/// component a dispersion and a mean-rate column, then per layer a
/// background-rate column. Float inputs arrive as bit patterns.
pub fn gene_metadata_table(
    gene_names: &Vec<String>,
    total_counts: &Vec<Vec<u32>>,
    expected_assigned_bits: &Vec<u32>,
    dispersion_bits: &Vec<Vec<u32>>,
    rate_bits: &Vec<Vec<u32>>,
    background_rate_bits: &Vec<Vec<u32>>,
) -> (t: Table)
    requires
        total_counts@.len() == gene_names@.len(),
        expected_assigned_bits@.len() == gene_names@.len(),
        forall|i: int| 0 <= i < total_counts@.len() ==> total_counts@[i]@.len() <= u32::MAX as usize,
        forall|i: int|
            0 <= i < dispersion_bits@.len() ==> dispersion_bits@[i]@.len() == gene_names@.len(),
        forall|i: int| 0 <= i < rate_bits@.len() ==> rate_bits@[i]@.len() == gene_names@.len(),
        forall|i: int|
            0 <= i < background_rate_bits@.len() ==> background_rate_bits@[i]@.len()
                == gene_names@.len(),
    ensures
        t.wf(),
        t@ =~= seq![
            ("gene"@, ColView::Utf8(gene_names.deep_view())),
            (
                "total_count"@,
                ColView::U64(
                    Seq::new(gene_names@.len(), |g: int| u32_sum(total_counts@[g]@) as u64),
                ),
            ),
            ("expected_assigned_count"@, ColView::F32Bits(expected_assigned_bits@)),
        ] + Seq::new(
            dispersion_bits@.len(),
            |i: int| (dispersion_name(i as nat), ColView::F32Bits(dispersion_bits@[i]@)),
        ) + Seq::new(
            rate_bits@.len(),
            |i: int| (rate_name(i as nat), ColView::F32Bits(rate_bits@[i]@)),
        ) + Seq::new(
            background_rate_bits@.len(),
            |i: int| (background_rate_name(i as nat), ColView::F32Bits(background_rate_bits@[i]@)),
        ),
{
    let ngenes = gene_names.len();
    let mut totals: Vec<u64> = Vec::new();
    let mut g: usize = 0;
    while g < total_counts.len()
        invariant
            g <= total_counts@.len(),
            forall|i: int|
                0 <= i < total_counts@.len() ==> total_counts@[i]@.len() <= u32::MAX as usize,
            totals@ =~= Seq::new(g as nat, |i: int| u32_sum(total_counts@[i]@) as u64),
        decreases total_counts@.len() - g,
    {
        proof {
            lemma_u32_sum_bound(total_counts@[g as int]@);
        }
        totals.push(row_total(&total_counts[g]));
        g += 1;
    }

    let mut t = Table::new();
    t.push(String::from_str("gene"), Column::Utf8(clone_strings(gene_names)));
    t.push(String::from_str("total_count"), Column::U64(totals));
    t.push(
        String::from_str("expected_assigned_count"),
        Column::F32Bits(copy_u32s(expected_assigned_bits)),
    );
    let ghost head = seq![
        ("gene"@, ColView::Utf8(gene_names.deep_view())),
        (
            "total_count"@,
            ColView::U64(Seq::new(gene_names@.len(), |g: int| u32_sum(total_counts@[g]@) as u64)),
        ),
        ("expected_assigned_count"@, ColView::F32Bits(expected_assigned_bits@)),
    ];
    assert(t@ =~= head);

    let mut i: usize = 0;
    while i < dispersion_bits.len()
        invariant
            i <= dispersion_bits@.len(),
            forall|a: int|
                0 <= a < dispersion_bits@.len() ==> dispersion_bits@[a]@.len()
                    == gene_names@.len(),
            head == seq![
                ("gene"@, ColView::Utf8(gene_names.deep_view())),
                (
                    "total_count"@,
                    ColView::U64(
                        Seq::new(gene_names@.len(), |g: int| u32_sum(total_counts@[g]@) as u64),
                    ),
                ),
                ("expected_assigned_count"@, ColView::F32Bits(expected_assigned_bits@)),
            ],
            t.wf(),
            t.spec_rows() == gene_names@.len(),
            t@ =~= head + Seq::new(
                i as nat,
                |a: int| (dispersion_name(a as nat), ColView::F32Bits(dispersion_bits@[a]@)),
            ),
        decreases dispersion_bits@.len() - i,
    {
        let mut n = String::from_str("dispersion_");
        let digits = crate::num::u64_dec_string(i as u64);
        n.append(digits.as_str());
        t.push(n, Column::F32Bits(copy_u32s(&dispersion_bits[i])));
        i += 1;
    }
    let ghost head2 = head + Seq::new(
        dispersion_bits@.len(),
        |a: int| (dispersion_name(a as nat), ColView::F32Bits(dispersion_bits@[a]@)),
    );
    assert(t@ =~= head2);

    let mut i: usize = 0;
    while i < rate_bits.len()
        invariant
            i <= rate_bits@.len(),
            forall|a: int| 0 <= a < rate_bits@.len() ==> rate_bits@[a]@.len() == gene_names@.len(),
            head2 == head + Seq::new(
                dispersion_bits@.len(),
                |a: int| (dispersion_name(a as nat), ColView::F32Bits(dispersion_bits@[a]@)),
            ),
            t.wf(),
            t.spec_rows() == gene_names@.len(),
            t@ =~= head2 + Seq::new(
                i as nat,
                |a: int| (rate_name(a as nat), ColView::F32Bits(rate_bits@[a]@)),
            ),
        decreases rate_bits@.len() - i,
    {
        let mut n = String::from_str("\u{3bb}_");
        let digits = crate::num::u64_dec_string(i as u64);
        n.append(digits.as_str());
        t.push(n, Column::F32Bits(copy_u32s(&rate_bits[i])));
        i += 1;
    }
    let ghost head3 = head2 + Seq::new(
        rate_bits@.len(),
        |a: int| (rate_name(a as nat), ColView::F32Bits(rate_bits@[a]@)),
    );
    assert(t@ =~= head3);

    let mut i: usize = 0;
    while i < background_rate_bits.len()
        invariant
            i <= background_rate_bits@.len(),
            forall|a: int|
                0 <= a < background_rate_bits@.len() ==> background_rate_bits@[a]@.len()
                    == gene_names@.len(),
            head3 == head2 + Seq::new(
                rate_bits@.len(),
                |a: int| (rate_name(a as nat), ColView::F32Bits(rate_bits@[a]@)),
            ),
            t.wf(),
            t.spec_rows() == gene_names@.len(),
            t@ =~= head3 + Seq::new(
                i as nat,
                |a: int| (background_rate_name(a as nat), ColView::F32Bits(
                    background_rate_bits@[a]@,
                )),
            ),
        decreases background_rate_bits@.len() - i,
    {
        let mut n = String::from_str("\u{3bb}_bg_");
        let digits = crate::num::u64_dec_string(i as u64);
        n.append(digits.as_str());
        t.push(n, Column::F32Bits(copy_u32s(&background_rate_bits[i])));
        i += 1;
    }
    proof {
        assert(t@ =~= head3 + Seq::new(
            background_rate_bits@.len(),
            |a: int| (background_rate_name(a as nat), ColView::F32Bits(
                background_rate_bits@[a]@,
            )),
        ));
    }
    t
}

/// One voxel row: the owning cell and the voxel's axis-aligned bounding box,
/// the box ordinates as single-precision bit patterns.
pub struct Voxel {
    pub cell: u32,
    pub x0: u32,
    pub y0: u32,
    pub z0: u32,
    pub x1: u32,
    pub y1: u32,
    pub z1: u32,
}

/// The voxel table: one row per voxel — owning cell id and bounding box.
pub fn voxels_table(voxels: &Vec<Voxel>) -> (t: Table)
    ensures
        t.wf(),
        t@ =~= seq![
            ("cell"@, ColView::U32(Seq::new(voxels@.len(), |i: int| voxels@[i].cell))),
            ("x0"@, ColView::F32Bits(Seq::new(voxels@.len(), |i: int| voxels@[i].x0))),
            ("y0"@, ColView::F32Bits(Seq::new(voxels@.len(), |i: int| voxels@[i].y0))),
            ("z0"@, ColView::F32Bits(Seq::new(voxels@.len(), |i: int| voxels@[i].z0))),
            ("x1"@, ColView::F32Bits(Seq::new(voxels@.len(), |i: int| voxels@[i].x1))),
            ("y1"@, ColView::F32Bits(Seq::new(voxels@.len(), |i: int| voxels@[i].y1))),
            ("z1"@, ColView::F32Bits(Seq::new(voxels@.len(), |i: int| voxels@[i].z1))),
        ],
{
    let mut cells: Vec<u32> = Vec::new();
    let mut x0s: Vec<u32> = Vec::new();
    let mut y0s: Vec<u32> = Vec::new();
    let mut z0s: Vec<u32> = Vec::new();
    let mut x1s: Vec<u32> = Vec::new();
    let mut y1s: Vec<u32> = Vec::new();
    let mut z1s: Vec<u32> = Vec::new();
    let mut i: usize = 0;
    while i < voxels.len()
        invariant
            i <= voxels@.len(),
            cells@ =~= Seq::new(i as nat, |j: int| voxels@[j].cell),
            x0s@ =~= Seq::new(i as nat, |j: int| voxels@[j].x0),
            y0s@ =~= Seq::new(i as nat, |j: int| voxels@[j].y0),
            z0s@ =~= Seq::new(i as nat, |j: int| voxels@[j].z0),
            x1s@ =~= Seq::new(i as nat, |j: int| voxels@[j].x1),
            y1s@ =~= Seq::new(i as nat, |j: int| voxels@[j].y1),
            z1s@ =~= Seq::new(i as nat, |j: int| voxels@[j].z1),
        decreases voxels@.len() - i,
    {
        cells.push(voxels[i].cell);
        x0s.push(voxels[i].x0);
        y0s.push(voxels[i].y0);
        z0s.push(voxels[i].z0);
        x1s.push(voxels[i].x1);
        y1s.push(voxels[i].y1);
        z1s.push(voxels[i].z1);
        i += 1;
    }
    let mut t = Table::new();
    t.push(String::from_str("cell"), Column::U32(cells));
    t.push(String::from_str("x0"), Column::F32Bits(x0s));
    t.push(String::from_str("y0"), Column::F32Bits(y0s));
    t.push(String::from_str("z0"), Column::F32Bits(z0s));
    t.push(String::from_str("x1"), Column::F32Bits(x1s));
    t.push(String::from_str("y1"), Column::F32Bits(y1s));
    t.push(String::from_str("z1"), Column::F32Bits(z1s));
    t
}

} // verus!
