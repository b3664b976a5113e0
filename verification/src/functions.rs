//! The functions that DataFusion's SQL dialect is given beyond the base dialect.
use vstd::prelude::*;
use crate::joinagg::contains_string;
use crate::text::views;

verus! {

/// The functions that DataFusion evaluates beyond those of the base dialect.
pub open spec fn datafusion_extra_functions() -> Seq<Seq<char>> {
    seq![
        "isnan"@, "isfinite"@,
        "datetime_components"@, "vg_time"@,
        "year"@, "month"@, "quarter"@, "date"@, "dayofyear"@, "day"@,
        "hours"@, "minutes"@, "seconds"@, "milliseconds"@,
        "timeunit_start"@, "timeunit_end"@,
        "vg_timeformat"@, "vg_datetime_to_millis"@,
        "pow"@,
    ]
}

/// `set` with `name` added at the end, unless it is in it already.
pub open spec fn insert(set: Seq<Seq<char>>, name: Seq<char>) -> Seq<Seq<char>> {
    if set.contains(name) { set } else { set.push(name) }
}

/// `set` with each of `names` inserted in turn.
pub open spec fn insert_all(set: Seq<Seq<char>>, names: Seq<Seq<char>>) -> Seq<Seq<char>>
    decreases names.len(),
{
    if names.len() == 0 {
        set
    } else {
        insert(insert_all(set, names.drop_last()), names.last())
    }
}

/// Adds the function `name` to `functions` unless it is there already.
pub fn insert_function(functions: &mut Vec<String>, name: &str)
    ensures
        views(final(functions)@) == insert(views(old(functions)@), name@),
{
    let s = name.to_string();
    if !contains_string(functions, &s) {
        let ghost before = views(functions@);
        functions.push(s);
        assert(views(functions@) =~= before.push(name@));
    }
}

/// The functions of DataFusion's dialect: those of the base dialect, then
/// each DataFusion function that the base dialect lacks, in a fixed order.
pub fn make_datafusion_dialect(base_functions: Vec<String>) -> (functions: Vec<String>)
    ensures
        views(functions@) == insert_all(views(base_functions@), datafusion_extra_functions()),
{
    let mut f = base_functions;
    let ghost base = views(f@);
    insert_function(&mut f, "isnan");
    insert_function(&mut f, "isfinite");
    // datetime
    insert_function(&mut f, "datetime_components");
    insert_function(&mut f, "vg_time");
    // date parts
    insert_function(&mut f, "year");
    insert_function(&mut f, "month");
    insert_function(&mut f, "quarter");
    insert_function(&mut f, "date");
    insert_function(&mut f, "dayofyear");
    insert_function(&mut f, "day");
    insert_function(&mut f, "hours");
    insert_function(&mut f, "minutes");
    insert_function(&mut f, "seconds");
    insert_function(&mut f, "milliseconds");
    // timeunit transform
    insert_function(&mut f, "timeunit_start");
    insert_function(&mut f, "timeunit_end");
    // timeformat
    insert_function(&mut f, "vg_timeformat");
    insert_function(&mut f, "vg_datetime_to_millis");
    // math
    insert_function(&mut f, "pow");
    proof {
        reveal_with_fuel(insert_all, 20);
        let e = datafusion_extra_functions();
        assert(e.take(19) =~= e);
        assert forall|k: int| 0 < k <= 19 implies #[trigger] e.take(k).drop_last() =~= e.take(k - 1) by {}
    }
    f
}

} // verus!
