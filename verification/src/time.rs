//! The `time` function of the expression language: a date or time as
//! milliseconds since the UNIX epoch.
use vstd::prelude::*;

verus! {

/// Milliseconds in a day.
pub const MS_PER_DAY: i64 = 86_400_000;

/// A column of one of the types that `time` accepts; `None` is a null.
pub enum TimeColumn {
    /// Timestamps in milliseconds since the epoch.
    TimestampMillis(Vec<Option<i64>>),
    /// Dates as days since the epoch.
    Date32(Vec<Option<i32>>),
    /// Dates as milliseconds since the epoch.
    Date64(Vec<Option<i64>>),
    /// Plain integers, taken as milliseconds since the epoch.
    Int64(Vec<Option<i64>>),
}

/// The milliseconds since the epoch of a day count.
pub open spec fn day_millis(days: i32) -> int {
    days * MS_PER_DAY
}

/// What `time` gives for a column: days become milliseconds, every other
/// accepted type is already in milliseconds; nulls stay null.
pub open spec fn time_values(col: TimeColumn) -> Seq<Option<int>> {
    match col {
        TimeColumn::TimestampMillis(v) => Seq::new(v@.len(), |i: int| match v@[i] { Some(x) => Some(x as int), None => None }),
        TimeColumn::Date32(v) => Seq::new(v@.len(), |i: int| match v@[i] { Some(d) => Some(day_millis(d)), None => None }),
        TimeColumn::Date64(v) => Seq::new(v@.len(), |i: int| match v@[i] { Some(x) => Some(x as int), None => None }),
        TimeColumn::Int64(v) => Seq::new(v@.len(), |i: int| match v@[i] { Some(x) => Some(x as int), None => None }),
    }
}

/// The values of a column of milliseconds, as integers.
pub open spec fn millis_view(v: Seq<Option<i64>>) -> Seq<Option<int>> {
    Seq::new(v.len(), |i: int| match v[i] { Some(x) => Some(x as int), None => None })
}

/// The milliseconds since the epoch of `days` days after it.
pub fn date32_to_millis(days: i32) -> (ms: i64)
    ensures
        ms == day_millis(days),
{
    assert(-2147483648 * 86400000 <= days * 86400000 <= 2147483647 * 86400000) by (nonlinear_arith)
        requires -2147483648 <= days <= 2147483647;
    (days as i64) * MS_PER_DAY
}

fn copy_millis(v: &Vec<Option<i64>>) -> (res: Vec<Option<i64>>)
    ensures
        millis_view(res@) == millis_view(v@),
{
    let mut res: Vec<Option<i64>> = Vec::new();
    let mut i: usize = 0;
    while i < v.len()
        invariant
            i <= v@.len(),
            res@.len() == i,
            forall|j: int| 0 <= j < i ==> #[trigger] res@[j] == v@[j],
        decreases v@.len() - i,
    {
        res.push(v[i]);
        i = i + 1;
    }
    assert(res@ =~= v@);
    res
}

/// Evaluates `time` on a column: the result holds, for each row, its
/// milliseconds since the epoch, or a null where the row is null.
pub fn time_column(col: &TimeColumn) -> (res: Vec<Option<i64>>)
    ensures
        millis_view(res@) == time_values(*col),
{
    match col {
        TimeColumn::TimestampMillis(v) => {
            let res = copy_millis(v);
            assert(millis_view(v@) =~= time_values(*col));
            res
        },
        TimeColumn::Date64(v) => {
            let res = copy_millis(v);
            assert(millis_view(v@) =~= time_values(*col));
            res
        },
        TimeColumn::Int64(v) => {
            let res = copy_millis(v);
            assert(millis_view(v@) =~= time_values(*col));
            res
        },
        TimeColumn::Date32(v) => {
            let mut res: Vec<Option<i64>> = Vec::new();
            let mut i: usize = 0;
            while i < v.len()
                invariant
                    i <= v@.len(),
                    res@.len() == i,
                    forall|j: int| 0 <= j < i ==> #[trigger] millis_view(res@)[j] == match v@[j] {
                        Some(d) => Some(day_millis(d)),
                        None => None,
                    },
                decreases v@.len() - i,
            {
                let ghost before = res@;
                match v[i] {
                    Some(d) => res.push(Some(date32_to_millis(d))),
                    None => res.push(None),
                }
                assert forall|j: int| 0 <= j < i + 1 implies #[trigger] millis_view(res@)[j] == match v@[j] {
                    Some(d) => Some(day_millis(d)),
                    None => None,
                } by {
                    if j < i {
                        assert(res@[j] == before[j]);
                        assert(millis_view(before)[j] == millis_view(res@)[j]);
                    }
                }
                i = i + 1;
            }
            assert(millis_view(res@) =~= time_values(*col));
            res
        },
    }
}

} // verus!
