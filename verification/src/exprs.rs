//! Expressions as the query builder receives them: already compiled to SQL
//! text, together with the column each one contributes to a result.
use vstd::prelude::*;
use crate::schema::{fields_view, nullable_field, DataType, Field, FieldView};
use crate::text::views;

verus! {

/// The columns an expression contributes to the result of a selection.
#[derive(Debug)]
pub enum ColumnSpec {
    /// `*`: every column of the input.
    Wildcard,
    /// One column of this name (the expression's display name).
    Named(String),
}

/// An expression compiled to SQL text.
#[derive(Debug)]
pub struct CompiledExpr {
    /// The expression as a SQL expression.
    pub sql: String,
    /// The expression as an item of a select list (with its alias, if any).
    pub item: String,
    /// The columns it contributes to a result.
    pub output: ColumnSpec,
    /// The data type of the expression's value (for a named column).
    pub data_type: DataType,
}

impl View for ColumnSpec {
    type V = Option<Seq<char>>;

    open spec fn view(&self) -> Option<Seq<char>> {
        match self {
            ColumnSpec::Wildcard => None,
            ColumnSpec::Named(n) => Some(n@),
        }
    }
}

/// The select-list texts of a list of expressions.
pub open spec fn items_of(exprs: Seq<CompiledExpr>) -> Seq<Seq<char>> {
    Seq::new(exprs.len(), |i: int| exprs[i].item@)
}

/// The SQL texts of a list of expressions.
pub open spec fn sqls_of(exprs: Seq<CompiledExpr>) -> Seq<Seq<char>> {
    Seq::new(exprs.len(), |i: int| exprs[i].sql@)
}

/// The name of a contribution: `*` for the wildcard.
pub open spec fn display_name(o: Option<Seq<char>>) -> Seq<char> {
    match o {
        None => "*"@,
        Some(n) => n,
    }
}

/// The columns of a selection of `exprs` from a frame with columns
/// `columns`: each wildcard keeps all of them as they are, each other
/// expression gives one nullable column of its display name and type.
pub open spec fn output_fields(columns: Seq<FieldView>, exprs: Seq<CompiledExpr>) -> Seq<FieldView>
    decreases exprs.len(),
{
    if exprs.len() == 0 {
        Seq::empty()
    } else {
        output_fields(columns, exprs.drop_last()) + match exprs.last().output {
            ColumnSpec::Wildcard => columns,
            ColumnSpec::Named(n) => seq![nullable_field(n@, exprs.last().data_type)],
        }
    }
}

/// Copies a list of strings.
pub fn clone_strings(v: &Vec<String>) -> (res: Vec<String>)
    ensures
        views(res@) == views(v@),
{
    let mut res: Vec<String> = Vec::new();
    let mut i: usize = 0;
    while i < v.len()
        invariant
            i <= v@.len(),
            res@.len() == i,
            forall|j: int| 0 <= j < i ==> #[trigger] res@[j]@ == v@[j]@,
        decreases v@.len() - i,
    {
        res.push(v[i].clone());
        i = i + 1;
    }
    assert(views(res@) =~= views(v@));
    res
}

/// The select-list texts of `exprs`.
pub fn items(exprs: &Vec<CompiledExpr>) -> (res: Vec<String>)
    ensures
        views(res@) == items_of(exprs@),
{
    let mut res: Vec<String> = Vec::new();
    let mut i: usize = 0;
    while i < exprs.len()
        invariant
            i <= exprs@.len(),
            res@.len() == i,
            forall|j: int| 0 <= j < i ==> #[trigger] res@[j]@ == exprs@[j].item@,
        decreases exprs@.len() - i,
    {
        res.push(exprs[i].item.clone());
        i = i + 1;
    }
    assert(views(res@) =~= items_of(exprs@));
    res
}

/// The SQL texts of `exprs`.
pub fn sqls(exprs: &Vec<CompiledExpr>) -> (res: Vec<String>)
    ensures
        views(res@) == sqls_of(exprs@),
{
    let mut res: Vec<String> = Vec::new();
    let mut i: usize = 0;
    while i < exprs.len()
        invariant
            i <= exprs@.len(),
            res@.len() == i,
            forall|j: int| 0 <= j < i ==> #[trigger] res@[j]@ == exprs@[j].sql@,
        decreases exprs@.len() - i,
    {
        res.push(exprs[i].sql.clone());
        i = i + 1;
    }
    assert(views(res@) =~= sqls_of(exprs@));
    res
}

/// The columns of a selection of `exprs` from a frame with the given
/// columns: each wildcard keeps all of them as they are, each other
/// expression gives one nullable column of its display name and type.
pub fn make_new_schema_from_exprs(columns: &Vec<Field>, exprs: &Vec<CompiledExpr>) -> (res: Vec<Field>)
    ensures
        fields_view(res@) == output_fields(fields_view(columns@), exprs@),
{
    let mut res: Vec<Field> = Vec::new();
    let mut i: usize = 0;
    while i < exprs.len()
        invariant
            i <= exprs@.len(),
            fields_view(res@) == output_fields(fields_view(columns@), exprs@.take(i as int)),
        decreases exprs@.len() - i,
    {
        let ghost before = fields_view(res@);
        assert(res@.len() == before.len());
        proof {
            assert(exprs@.take(i + 1).drop_last() =~= exprs@.take(i as int));
            assert(exprs@.take(i + 1).last() == exprs@[i as int]);
        }
        match &exprs[i].output {
            ColumnSpec::Wildcard => {
                let mut j: usize = 0;
                while j < columns.len()
                    invariant
                        j <= columns@.len(),
                        res@.len() == before.len() + j,
                        forall|k: int| 0 <= k < before.len() ==> #[trigger] res@[k]@ == before[k],
                        forall|k: int| 0 <= k < j ==> #[trigger] res@[before.len() + k]@ == columns@[k]@,
                    decreases columns@.len() - j,
                {
                    res.push(columns[j].copy());
                    j = j + 1;
                }
                assert forall|k: int| 0 <= k < res@.len() implies #[trigger] fields_view(res@)[k] == (before + fields_view(columns@))[k] by {
                    if k >= before.len() {
                        let m = k - before.len();
                        assert(res@[before.len() + m]@ == columns@[m]@);
                    }
                }
                assert(fields_view(res@) =~= before + fields_view(columns@));
            },
            ColumnSpec::Named(n) => {
                res.push(Field { name: n.clone(), data_type: exprs[i].data_type, nullable: true });
                assert(fields_view(res@) =~= before + seq![nullable_field(n@, exprs@[i as int].data_type)]);
            },
        }
        i = i + 1;
    }
    assert(exprs@.take(exprs@.len() as int) =~= exprs@);
    res
}

} // verus!
