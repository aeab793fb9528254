//! The rolling-return computation: validation, windowing and assembly of
//! the output table.

use vstd::prelude::*;

use crate::float_bits::percent_return;
use crate::float_bits::percent_return_bits;
use crate::table::Column;
use crate::table::ColumnData;
use crate::table::ColumnDataView;
use crate::table::ColumnView;
use crate::table::Table;
use crate::table::find_column;
use crate::text::dec_rep;
use crate::text::make_output_name;
use crate::text::output_name;
use crate::text::push_decimal;

verus! {

/// Why a request was rejected.
#[derive(Debug)]
pub enum RollingError {
    /// No column of the table bears the requested name.
    ColumnNotFound { column: String },
    /// The named column exists but does not hold floating-point data.
    TypeMismatch { column: String },
    /// The named column has fewer rows than the requested window length.
    InsufficientData { required: usize, actual: usize },
}

/// Mathematical model of a rejection.
#[verifier::ext_equal]
pub enum RollingErrorView {
    ColumnNotFound { column: Seq<char> },
    TypeMismatch { column: Seq<char> },
    InsufficientData { required: nat, actual: nat },
}

impl View for RollingError {
    type V = RollingErrorView;

    open spec fn view(&self) -> RollingErrorView {
        match self {
            RollingError::ColumnNotFound { column } => RollingErrorView::ColumnNotFound {
                column: column@,
            },
            RollingError::TypeMismatch { column } => RollingErrorView::TypeMismatch {
                column: column@,
            },
            RollingError::InsufficientData { required, actual } => (
            RollingErrorView::InsufficientData {
                required: *required as nat,
                actual: *actual as nat,
            }),
        }
    }
}

impl RollingErrorView {
    /// The human-readable description of a rejection: it names the offending
    /// column, or reports both the required minimum and the actual row count.
    pub open spec fn message_view(self) -> Seq<char> {
        match self {
            RollingErrorView::ColumnNotFound { column } => "Column '"@ + column + "' not found"@,
            RollingErrorView::TypeMismatch { column } => "Column '"@ + column
                + "' must be numeric"@,
            RollingErrorView::InsufficientData { required, actual } => (
            "Not enough data points. Need at least "@ + dec_rep(required) + " prices, got "@
                + dec_rep(actual)),
        }
    }
}

impl RollingError {
    /// Renders the human-readable description of the rejection.
    pub fn message(&self) -> (s: String)
        ensures
            s@ == self@.message_view(),
    {
        match self {
            RollingError::ColumnNotFound { column } => {
                let mut s = String::from_str("Column '");
                s.append(column.as_str());
                s.append("' not found");
                proof {
                    assert(s@ =~= self@.message_view());
                }
                s
            },
            RollingError::TypeMismatch { column } => {
                let mut s = String::from_str("Column '");
                s.append(column.as_str());
                s.append("' must be numeric");
                proof {
                    assert(s@ =~= self@.message_view());
                }
                s
            },
            RollingError::InsufficientData { required, actual } => {
                let mut s = String::from_str("Not enough data points. Need at least ");
                push_decimal(&mut s, *required);
                s.append(" prices, got ");
                push_decimal(&mut s, *actual);
                proof {
                    assert(s@ =~= self@.message_view());
                }
                s
            },
        }
    }
}

/// The returns of every window of `k` consecutive cells: value `i` is the
/// percentage return from cell `i` to cell `i + k - 1`.
pub open spec fn returns_seq(bits: Seq<u64>, k: nat) -> Seq<u64>
    recommends
        1 <= k <= bits.len(),
{
    Seq::new(
        (bits.len() - k + 1) as nat,
        |i: int| percent_return_bits(bits[i], bits[i + k - 1]),
    )
}

/// What the computation yields on a table with the given columns: either
/// the single output column, or the rejection, exactly as the row of
/// checks of [`calculate_rolling_returns`] decides them.
pub open spec fn rolling_returns_spec(
    cols: Seq<ColumnView>,
    column: Seq<char>,
    k: usize,
) -> Result<ColumnView, RollingErrorView> {
    match find_column(cols, column) {
        Option::None => Result::Err(RollingErrorView::ColumnNotFound { column }),
        Option::Some(c) => match c.data {
            ColumnDataView::Float64(bits) => if bits.len() < k {
                Result::Err(
                    RollingErrorView::InsufficientData { required: k as nat, actual: bits.len() },
                )
            } else {
                Result::Ok(
                    ColumnView {
                        name: output_name(column, k as nat),
                        data: ColumnDataView::Float64(returns_seq(bits, k as nat)),
                    },
                )
            },
            _ => Result::Err(RollingErrorView::TypeMismatch { column }),
        },
    }
}

/// Model of a computation's outcome: the columns of the fresh table, or
/// the rejection.
pub open spec fn result_view(r: Result<Table, RollingError>) -> Result<
    Seq<ColumnView>,
    RollingErrorView,
> {
    match r {
        Result::Ok(t) => Result::Ok(t@),
        Result::Err(e) => Result::Err(e@),
    }
}

/// The full contract of [`calculate_rolling_returns`]: on success the fresh
/// table holds exactly the one column that [`rolling_returns_spec`] yields,
/// and each rejection comes exactly on the inputs on which that
/// specification yields it.
pub open spec fn calculate_post(
    cols: Seq<ColumnView>,
    column: Seq<char>,
    k: usize,
    r: Result<Seq<ColumnView>, RollingErrorView>,
) -> bool {
    match rolling_returns_spec(cols, column, k) {
        Result::Ok(cv) => r == Result::Ok::<Seq<ColumnView>, RollingErrorView>(seq![cv]),
        Result::Err(ev) => r == Result::Err::<Seq<ColumnView>, RollingErrorView>(ev),
    }
}

proof fn lemma_find_column_skip(cols: Seq<ColumnView>, name: Seq<char>, j: int)
    requires
        0 <= j <= cols.len(),
        forall|m: int| 0 <= m < j ==> (#[trigger] cols[m].name) != name,
    ensures
        find_column(cols, name) == find_column(cols.skip(j), name),
    decreases j,
{
    if j == 0 {
        assert(cols.skip(0) =~= cols);
    } else {
        lemma_find_column_skip(cols, name, j - 1);
        assert(cols.skip(j - 1)[0] == cols[j - 1]);
        assert(find_column(cols.skip(j - 1), name) == find_column(
            cols.skip(j - 1).skip(1),
            name,
        ));
        assert(cols.skip(j - 1).skip(1) =~= cols.skip(j));
    }
}

/// Index of the first column named `column`, if any.
fn find_column_index(table: &Table, column: &str) -> (r: Option<usize>)
    ensures
        match r {
            Option::Some(j) => j < table@.len() && find_column(table@, column@)
                == Option::Some(table@[j as int]),
            Option::None => find_column(table@, column@) is None,
        },
{
    let needle = String::from_str(column);
    let n = table.columns.len();
    let mut j: usize = 0;
    while j < n
        invariant
            n == table@.len(),
            j <= n,
            needle@ == column@,
            forall|m: int| 0 <= m < j ==> (#[trigger] table@[m].name) != column@,
        decreases n - j,
    {
        if table.columns[j].name.eq(&needle) {
            proof {
                lemma_find_column_skip(table@, column@, j as int);
                assert(table@.skip(j as int)[0] == table@[j as int]);
            }
            return Option::Some(j);
        }
        j += 1;
    }
    proof {
        lemma_find_column_skip(table@, column@, n as int);
    }
    Option::None
}

/// Computes the rolling `k`-row percentage returns of the named column.
///
/// On success the result is a fresh table holding exactly one column,
/// named `"<column>_return_<k>_day"`, whose row `i` is the return
/// `(cell[i + k - 1] - cell[i]) / cell[i]` of the window starting at input
/// row `i`; it has one row per window, that is `rows - k + 1`. The input
/// table is only read. A missing column, a column that is not
/// floating-point, and a column with fewer than `k` rows are each
/// rejected, in that order of checking.
pub fn calculate_rolling_returns(table: &Table, column: &str, k: usize) -> (result: Result<
    Table,
    RollingError,
>)
    requires
        1 <= k,
    ensures
        calculate_post(table@, column@, k, result_view(result)),
        result matches Result::Ok(out) ==> out.wf(),
{
    let j = match find_column_index(table, column) {
        Option::None => {
            return Result::Err(RollingError::ColumnNotFound { column: String::from_str(column) });
        },
        Option::Some(j) => j,
    };
    let col = &table.columns[j];
    let bits = match &col.data {
        ColumnData::Float64 { bits } => bits,
        _ => {
            return Result::Err(RollingError::TypeMismatch { column: String::from_str(column) });
        },
    };
    let n = bits.len();
    if n < k {
        return Result::Err(RollingError::InsufficientData { required: k, actual: n });
    }
    let out_len = n - k + 1;
    let mut rets: Vec<u64> = Vec::new();
    let mut i: usize = 0;
    while i < out_len
        invariant
            1 <= k <= n,
            n == bits@.len(),
            out_len == n - k + 1,
            i <= out_len,
            rets@.len() == i,
            forall|m: int| 0 <= m < i ==> (#[trigger] rets@[m]) == percent_return_bits(
                bits@[m],
                bits@[m + k - 1],
            ),
        decreases out_len - i,
    {
        let start = bits[i];
        let end = bits[i + k - 1];
        let r = percent_return(start, end);
        rets.push(r);
        i += 1;
    }
    proof {
        assert(rets@ =~= returns_seq(bits@, k as nat));
    }
    let name = make_output_name(column, k);
    let mut columns: Vec<Column> = Vec::new();
    columns.push(Column { name, data: ColumnData::Float64 { bits: rets } });
    let out = Table { columns };
    proof {
        assert(out@ =~~= seq![
            ColumnView {
                name: output_name(column@, k as nat),
                data: ColumnDataView::Float64(returns_seq(bits@, k as nat)),
            },
        ]);
    }
    Result::Ok(out)
}

/// For every valid input — the column is found, holds floating-point data,
/// and has at least `k >= 1` rows — the output has exactly
/// `rows - k + 1` rows.
pub proof fn lemma_output_row_count(
    cols: Seq<ColumnView>,
    column: Seq<char>,
    k: usize,
    c: ColumnView,
    bits: Seq<u64>,
)
    requires
        1 <= k,
        find_column(cols, column) == Option::Some(c),
        c.data == ColumnDataView::Float64(bits),
        k <= bits.len(),
    ensures
        rolling_returns_spec(cols, column, k) matches Result::Ok(out) && out.data.len()
            == bits.len() - k + 1,
{
}

/// When `k` equals the row count exactly, the output has exactly one row.
pub proof fn lemma_single_window(
    cols: Seq<ColumnView>,
    column: Seq<char>,
    k: usize,
    c: ColumnView,
    bits: Seq<u64>,
)
    requires
        1 <= k,
        find_column(cols, column) == Option::Some(c),
        c.data == ColumnDataView::Float64(bits),
        k == bits.len(),
    ensures
        rolling_returns_spec(cols, column, k) matches Result::Ok(out) && out.data.len() == 1,
{
}

/// For every valid input, output row `i` is the percentage return from
/// input cell `i` to input cell `i + k - 1`.
pub proof fn lemma_output_values(
    cols: Seq<ColumnView>,
    column: Seq<char>,
    k: usize,
    c: ColumnView,
    bits: Seq<u64>,
)
    requires
        1 <= k,
        find_column(cols, column) == Option::Some(c),
        c.data == ColumnDataView::Float64(bits),
        k <= bits.len(),
    ensures
        rolling_returns_spec(cols, column, k) matches Result::Ok(out) && out.data
            matches ColumnDataView::Float64(vals) && forall|i: int|
            0 <= i < vals.len() ==> (#[trigger] vals[i]) == percent_return_bits(
                bits[i],
                bits[i + k - 1],
            ),
{
}

/// For every valid input, the output column is named
/// `"<column>_return_<k>_day"`.
pub proof fn lemma_output_column_name(
    cols: Seq<ColumnView>,
    column: Seq<char>,
    k: usize,
    c: ColumnView,
    bits: Seq<u64>,
)
    requires
        1 <= k,
        find_column(cols, column) == Option::Some(c),
        c.data == ColumnDataView::Float64(bits),
        k <= bits.len(),
    ensures
        rolling_returns_spec(cols, column, k) matches Result::Ok(out) && out.name == column
            + "_return_"@ + dec_rep(k as nat) + "_day"@,
{
}

/// The computation is deterministic: two outcomes of identical inputs that
/// both meet the contract of [`calculate_rolling_returns`] are identical,
/// bit for bit — so calling the function twice on the same input yields
/// bit-identical output tables.
pub proof fn lemma_deterministic(
    cols: Seq<ColumnView>,
    column: Seq<char>,
    k: usize,
    r1: Result<Seq<ColumnView>, RollingErrorView>,
    r2: Result<Seq<ColumnView>, RollingErrorView>,
)
    requires
        calculate_post(cols, column, k, r1),
        calculate_post(cols, column, k, r2),
    ensures
        r1 == r2,
{
}

/// A column with fewer rows than `k` is rejected as `InsufficientData`,
/// carrying both the required minimum `k` and the actual row count.
pub proof fn lemma_insufficient_data(
    cols: Seq<ColumnView>,
    column: Seq<char>,
    k: usize,
    c: ColumnView,
    bits: Seq<u64>,
)
    requires
        find_column(cols, column) == Option::Some(c),
        c.data == ColumnDataView::Float64(bits),
        bits.len() < k,
    ensures
        rolling_returns_spec(cols, column, k) == Result::Err::<ColumnView, _>(
            RollingErrorView::InsufficientData { required: k as nat, actual: bits.len() },
        ),
{
}

/// A name that no column bears is rejected as `ColumnNotFound`, naming
/// that column.
pub proof fn lemma_column_not_found(cols: Seq<ColumnView>, column: Seq<char>, k: usize)
    requires
        find_column(cols, column) is None,
    ensures
        rolling_returns_spec(cols, column, k) == Result::Err::<ColumnView, _>(
            RollingErrorView::ColumnNotFound { column },
        ),
{
}

/// A column that exists but does not hold floating-point data is rejected
/// as `TypeMismatch`, whatever its row count.
pub proof fn lemma_type_mismatch(
    cols: Seq<ColumnView>,
    column: Seq<char>,
    k: usize,
    c: ColumnView,
)
    requires
        find_column(cols, column) == Option::Some(c),
        !(c.data matches ColumnDataView::Float64(_)),
    ensures
        rolling_returns_spec(cols, column, k) == Result::Err::<ColumnView, _>(
            RollingErrorView::TypeMismatch { column },
        ),
{
}

} // verus!
