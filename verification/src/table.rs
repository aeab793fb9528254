//! A minimal tabular container: an ordered collection of named columns,
//! each column a homogeneous sequence of primitive values.
//!
//! Floating-point cells are represented by the bit pattern of an IEEE-754
//! double, so that the table can be reasoned about as plain integers.

use vstd::prelude::*;

verus! {

/// The cells of one column; every cell of a column has the same type.
#[derive(Debug)]
pub enum ColumnData {
    /// IEEE-754 double cells, each carried as its bit pattern.
    Float64 { bits: Vec<u64> },
    /// Signed integer cells.
    Int64 { ints: Vec<i64> },
    /// Text cells.
    Utf8 { strings: Vec<String> },
}

/// A named column.
#[derive(Debug)]
pub struct Column {
    pub name: String,
    pub data: ColumnData,
}

/// An ordered collection of named columns.
#[derive(Debug)]
pub struct Table {
    pub columns: Vec<Column>,
}

/// Mathematical model of the cells of one column.
#[verifier::ext_equal]
pub enum ColumnDataView {
    Float64(Seq<u64>),
    Int64(Seq<i64>),
    Utf8(Seq<Seq<char>>),
}

/// Mathematical model of a named column.
#[verifier::ext_equal]
pub struct ColumnView {
    pub name: Seq<char>,
    pub data: ColumnDataView,
}

impl ColumnDataView {
    /// Number of cells.
    pub open spec fn len(&self) -> nat {
        match *self {
            ColumnDataView::Float64(s) => s.len(),
            ColumnDataView::Int64(s) => s.len(),
            ColumnDataView::Utf8(s) => s.len(),
        }
    }
}

impl View for ColumnData {
    type V = ColumnDataView;

    open spec fn view(&self) -> ColumnDataView {
        match self {
            ColumnData::Float64 { bits } => ColumnDataView::Float64(bits@),
            ColumnData::Int64 { ints } => ColumnDataView::Int64(ints@),
            ColumnData::Utf8 { strings } => ColumnDataView::Utf8(
                strings@.map_values(|s: String| s@),
            ),
        }
    }
}

impl View for Column {
    type V = ColumnView;

    open spec fn view(&self) -> ColumnView {
        ColumnView { name: self.name@, data: self.data@ }
    }
}

impl View for Table {
    type V = Seq<ColumnView>;

    open spec fn view(&self) -> Seq<ColumnView> {
        self.columns@.map_values(|c: Column| c@)
    }
}

impl Table {
    /// A table is well formed when every column has the same number of rows
    /// and no two columns share a name.
    pub open spec fn wf(&self) -> bool {
        &&& forall|i: int, j: int|
            0 <= i < self@.len() && 0 <= j < self@.len() ==> (#[trigger] self@[i].data.len())
                == (#[trigger] self@[j].data.len())
        &&& forall|i: int, j: int|
            0 <= i < self@.len() && 0 <= j < self@.len() && i != j ==> (#[trigger] self@[i].name)
                != (#[trigger] self@[j].name)
    }

    /// Number of columns.
    pub fn column_count(&self) -> (n: usize)
        ensures
            n == self@.len(),
    {
        self.columns.len()
    }
}

/// The first column of `cols` named `name`, if any.
pub open spec fn find_column(cols: Seq<ColumnView>, name: Seq<char>) -> Option<ColumnView>
    decreases cols.len(),
{
    if cols.len() == 0 {
        None
    } else if cols[0].name == name {
        Some(cols[0])
    } else {
        find_column(cols.skip(1), name)
    }
}

} // verus!
