//! The logical table model: an ordered list of named, typed columns, all of
//! one row count. Float-valued columns carry IEEE-754 single-precision bit
//! patterns, so that the verified core never manipulates floating point; the
//! codec wrappers reinterpret the bits when handing columns to the writer.

use vstd::prelude::*;

verus! {

/// The mathematical value of one column: the element sequence, tagged by
/// primitive type. Text columns may be nullable (`OptUtf8`); a float column
/// is the sequence of its values' bit patterns.
pub enum ColView {
    U8(Seq<u8>),
    U16(Seq<u16>),
    U32(Seq<u32>),
    U64(Seq<u64>),
    F32Bits(Seq<u32>),
    Utf8(Seq<Seq<char>>),
    OptUtf8(Seq<Option<Seq<char>>>),
}

/// One column of a batch: a homogeneous array of a primitive type.
/// `F32Bits` holds single-precision values as their bit patterns.
pub enum Column {
    U8(Vec<u8>),
    U16(Vec<u16>),
    U32(Vec<u32>),
    U64(Vec<u64>),
    F32Bits(Vec<u32>),
    Utf8(Vec<String>),
    OptUtf8(Vec<Option<String>>),
}

impl View for Column {
    type V = ColView;

    open spec fn view(&self) -> ColView {
        match self {
            Column::U8(v) => ColView::U8(v@),
            Column::U16(v) => ColView::U16(v@),
            Column::U32(v) => ColView::U32(v@),
            Column::U64(v) => ColView::U64(v@),
            Column::F32Bits(v) => ColView::F32Bits(v@),
            Column::Utf8(v) => ColView::Utf8(v.deep_view()),
            Column::OptUtf8(v) => ColView::OptUtf8(v.deep_view()),
        }
    }
}

/// The number of rows a column holds.
pub open spec fn col_len(c: ColView) -> nat {
    match c {
        ColView::U8(v) => v.len(),
        ColView::U16(v) => v.len(),
        ColView::U32(v) => v.len(),
        ColView::U64(v) => v.len(),
        ColView::F32Bits(v) => v.len(),
        ColView::Utf8(v) => v.len(),
        ColView::OptUtf8(v) => v.len(),
    }
}

/// A logical table: column names paired one-for-one with columns.
pub struct Table {
    pub names: Vec<String>,
    pub cols: Vec<Column>,
}

impl View for Table {
    /// A table is modelled as the ordered sequence of its (name, column
    /// value) pairs.
    type V = Seq<(Seq<char>, ColView)>;

    open spec fn view(&self) -> Seq<(Seq<char>, ColView)> {
        Seq::new(self.cols@.len(), |i: int| (self.names@[i]@, self.cols@[i]@))
    }
}

impl Table {
    /// Well-formed: one name per column and one shared row count.
    pub open spec fn wf(&self) -> bool {
        &&& self.names@.len() == self.cols@.len()
        &&& forall|i: int|
            0 <= i < self.cols@.len() ==> col_len(self.cols@[i]@) == self.spec_rows()
    }

    /// The row count (of the first column; `wf` makes them all agree).
    pub open spec fn spec_rows(&self) -> nat {
        if self.cols@.len() == 0 {
            0
        } else {
            col_len(self.cols@[0]@)
        }
    }

    /// The empty table: no columns, no rows.
    pub fn new() -> (t: Table)
        ensures
            t.wf(),
            t@ =~= Seq::<(Seq<char>, ColView)>::empty(),
            t.cols@.len() == 0,
    {
        Table { names: Vec::new(), cols: Vec::new() }
    }

    /// Appends a named column, which must match the table's row count.
    pub fn push(&mut self, name: String, col: Column)
        requires
            old(self).wf(),
            old(self).cols@.len() > 0 ==> col_len(col@) == old(self).spec_rows(),
        ensures
            final(self).wf(),
            final(self)@ =~= old(self)@.push((name@, col@)),
            final(self).spec_rows() == col_len(col@),
            final(self).cols@.len() == old(self).cols@.len() + 1,
    {
        self.names.push(name);
        self.cols.push(col);
    }
}

} // verus!
