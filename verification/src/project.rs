//! The project transform: keeps the named fields that the frame has.
use vstd::prelude::*;
use crate::fold::{quote_all, quoted_all};
use crate::frame::{chain_step, frame_result_matches, parent_of, SqlDataFrame};
use crate::joinagg::contains_string;
use crate::ops::select_sql;
use crate::parse::SqlError;
use crate::schema::{field_names, names_of, select_named, select_named_fields};
use crate::text::views;

verus! {

/// Whether `c` may follow a backslash in an escaped field name.
pub open spec fn is_escapable(c: char) -> bool {
    c == '.' || c == '[' || c == ']'
}

/// Whether the character at `i` of `s` is an escaping backslash: a backslash
/// directly before `.`, `[` or `]`.
pub open spec fn escapes_next(s: Seq<char>, i: int) -> bool {
    s[i] == '\\' && i + 1 < s.len() && is_escapable(s[i + 1])
}

/// The first `n` characters of `s` without their escaping backslashes.
pub open spec fn unescaped_prefix(s: Seq<char>, n: nat) -> Seq<char>
    decreases n,
{
    if n == 0 {
        Seq::empty()
    } else {
        unescaped_prefix(s, (n - 1) as nat) + if escapes_next(s, n - 1) {
            Seq::<char>::empty()
        } else {
            seq![s[n - 1]]
        }
    }
}

/// The field name written `s`, without its escaping backslashes.
pub open spec fn unescaped(s: Seq<char>) -> Seq<char> {
    unescaped_prefix(s, s.len())
}

/// The unescaped names among `fields` that are columns of `columns`, in the
/// order of `fields`.
pub open spec fn project_fields(fields: Seq<Seq<char>>, columns: Seq<Seq<char>>) -> Seq<Seq<char>>
    decreases fields.len(),
{
    if fields.len() == 0 {
        Seq::empty()
    } else {
        project_fields(fields.drop_last(), columns) + if columns.contains(unescaped(fields.last())) {
            seq![unescaped(fields.last())]
        } else {
            Seq::<Seq<char>>::empty()
        }
    }
}

/// Removes the escaping backslashes of a field name: a backslash directly
/// before `.`, `[` or `]` is dropped, every other character is kept.
pub fn unescape_field(field: &str) -> (res: String)
    ensures
        res@ == unescaped(field@),
{
    let n = field.unicode_len();
    let mut res = String::new();
    let mut i: usize = 0;
    while i < n
        invariant
            n == field@.len(),
            i <= n,
            res@ == unescaped_prefix(field@, i as nat),
        decreases n - i,
    {
        let c = field.get_char(i);
        let mut drop = false;
        if c == '\\' && i + 1 < n {
            let next = field.get_char(i + 1);
            drop = next == '.' || next == '[' || next == ']';
        }
        assert(drop == escapes_next(field@, i as int));
        if !drop {
            res.append(field.substring_char(i, i + 1));
        }
        assert(res@ =~= unescaped_prefix(field@, (i + 1) as nat));
        i = i + 1;
    }
    res
}

/// The project transform of a data flow specification.
pub struct Project {
    /// The fields to keep, escaped as in field references.
    pub fields: Vec<String>,
}

impl Project {
    /// Keeps the columns named by the transform's fields, in the order of the
    /// fields; a field that names no column of the frame is skipped. Kept
    /// columns keep their types and become nullable.
    pub fn eval(&self, dataframe: &SqlDataFrame) -> (res: Result<SqlDataFrame, SqlError>)
        ensures
            frame_result_matches(res, chain_step(
                dataframe@,
                select_sql(
                    parent_of(dataframe@),
                    quoted_all(dataframe@.dialect, project_fields(views(self.fields@), names_of(dataframe@.columns))),
                ),
                select_named(dataframe@.columns, project_fields(views(self.fields@), names_of(dataframe@.columns))),
            )),
    {
        let all_fields = field_names(dataframe.schema());
        let ghost fields = views(self.fields@);
        let mut select_fields: Vec<String> = Vec::new();
        let mut i: usize = 0;
        while i < self.fields.len()
            invariant
                i <= self.fields@.len(),
                fields == views(self.fields@),
                views(all_fields@) == names_of(dataframe@.columns),
                views(select_fields@) == project_fields(fields.take(i as int), names_of(dataframe@.columns)),
            decreases self.fields@.len() - i,
        {
            let field = unescape_field(self.fields[i].as_str());
            proof {
                assert(fields.take(i + 1).drop_last() =~= fields.take(i as int));
                assert(fields.take(i + 1).last() == self.fields@[i as int]@);
            }
            let ghost before = views(select_fields@);
            if contains_string(&all_fields, &field) {
                let ghost f = field@;
                select_fields.push(field);
                assert(views(select_fields@) =~= before + seq![f]);
            } else {
                assert(before + Seq::<Seq<char>>::empty() =~= before);
            }
            i = i + 1;
        }
        assert(fields.take(self.fields@.len() as int) =~= fields);
        let items = quote_all(dataframe.dialect(), &select_fields);
        let columns = select_named_fields(dataframe.schema(), &select_fields);
        dataframe.select_items(&items, columns)
    }
}

} // verus!
