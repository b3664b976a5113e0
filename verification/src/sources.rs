//! Data frames that start from a table of a connection or from literal values.
use vstd::prelude::*;
use crate::dialect::{append_quoted_ident, quoted_ident, Dialect, ValuesMode};
use crate::frame::{frame_result_matches, FrameView, SqlDataFrame, StepError};
use crate::parse::{parse_sql_query, query_outcome, QueryOutcome, SqlError};
use crate::render::{aliased, aliased_expr};
use crate::schema::{copy_fields, field_names, fields_view, names_of, Field, FieldView};
use crate::text::{append_decimal, decimal, join, join_strings, views};

verus! {

/// The name and columns of a table of a connection.
#[derive(Debug)]
pub struct TableSchema {
    pub name: String,
    pub columns: Vec<Field>,
}

/// The first frame of a chain: the single query that `sql` parses to.
pub open spec fn first_step(d: Dialect, conn_id: Seq<char>, prefix: Seq<char>, columns: Seq<FieldView>, sql: Seq<char>) -> Result<FrameView, StepError> {
    match query_outcome(d.parser_dialect, sql) {
        QueryOutcome::Query(t) => Ok(FrameView { prefix, columns, queries: seq![t], dialect: d, conn_id }),
        QueryOutcome::ParseFailure => Err(StepError::Parse),
        QueryOutcome::Empty => Err(StepError::Empty),
        QueryOutcome::NotQuery => Err(StepError::NotQuery),
        QueryOutcome::TooDeep => Err(StepError::TooDeep),
    }
}

/// `select "c1", "c2", ... from <table>`: every column in double quotes.
pub open spec fn table_select_sql(table: Seq<char>, columns: Seq<Seq<char>>) -> Seq<char> {
    "select "@ + join(Seq::new(columns.len(), |i: int| "\""@ + columns[i] + "\""@), ", "@) + " from "@ + table
}

/// One row of literal values as a select of aliased items:
/// `SELECT v1 AS "c1", v2 AS "c2", ...`
pub open spec fn union_row_sql(d: Dialect, columns: Seq<Seq<char>>, row: Seq<Seq<char>>) -> Seq<char> {
    "SELECT "@ + join(Seq::new(columns.len(), |c: int| aliased(row[c], columns[c], d.quote_style)), ", "@)
}

/// One row of a `VALUES` list: `(v1, v2, ...)`, or `ROW(v1, v2, ...)`.
pub open spec fn values_row_sql(explicit_row: bool, row: Seq<Seq<char>>) -> Seq<char> {
    (if explicit_row { "ROW"@ } else { Seq::empty() }) + "("@ + join(row, ", "@) + ")"@
}

/// `VALUES (...), (...), ...`
pub open spec fn values_sql(explicit_row: bool, rows: Seq<Seq<Seq<char>>>) -> Seq<char> {
    "VALUES "@ + join(Seq::new(rows.len(), |r: int| values_row_sql(explicit_row, rows[r])), ", "@)
}

/// The SQL text of a table of literal values, in the dialect's way.
pub open spec fn values_table_sql(d: Dialect, columns: Seq<Seq<char>>, rows: Seq<Seq<Seq<char>>>) -> Seq<char> {
    match d.values_mode {
        ValuesMode::SelectUnion =>
            join(Seq::new(rows.len(), |r: int| union_row_sql(d, columns, rows[r])), " UNION ALL "@),
        ValuesMode::ValuesWithSubqueryColumnAliases { explicit_row } =>
            "SELECT * FROM ("@ + values_sql(explicit_row, rows) + ") AS "@ + quoted_ident("_values"@, d.quote_style)
                + if columns.len() == 0 { Seq::empty() } else {
                    " ("@ + join(Seq::new(columns.len(), |c: int| quoted_ident(columns[c], d.quote_style)), ", "@) + ")"@
                },
        ValuesMode::ValuesWithSelectColumnAliases { explicit_row, column_prefix, base_index } =>
            "SELECT "@ + join(Seq::new(columns.len(), |c: int| aliased(
                quoted_ident(column_prefix@ + decimal((c + base_index) as nat), d.quote_style),
                columns[c],
                d.quote_style,
            )), ", "@) + " FROM ("@ + values_sql(explicit_row, rows) + ")"@,
    }
}

/// The cells of a list of rows.
pub open spec fn rows_view(rows: Seq<Vec<String>>) -> Seq<Seq<Seq<char>>> {
    Seq::new(rows.len(), |r: int| views(rows[r]@))
}

/// One row of literal values as a select of aliased items.
fn union_row(d: &Dialect, columns: &Vec<String>, row: &Vec<String>) -> (res: String)
    requires
        row@.len() == columns@.len(),
    ensures
        res@ == union_row_sql(*d, views(columns@), views(row@)),
{
    let mut items: Vec<String> = Vec::new();
    let mut c: usize = 0;
    while c < columns.len()
        invariant
            c <= columns@.len(),
            row@.len() == columns@.len(),
            items@.len() == c,
            forall|j: int| 0 <= j < c ==> #[trigger] items@[j]@ == aliased(row@[j]@, columns@[j]@, d.quote_style),
        decreases columns@.len() - c,
    {
        items.push(aliased_expr(row[c].as_str(), columns[c].as_str(), d.quote_style));
        c = c + 1;
    }
    let mut res = String::new();
    res.append("SELECT ");
    let csv = join_strings(&items, ", ");
    res.append(csv.as_str());
    assert(views(items@) =~= Seq::new(views(columns@).len(), |c: int| aliased(views(row@)[c], views(columns@)[c], d.quote_style)));
    assert(res@ =~= union_row_sql(*d, views(columns@), views(row@)));
    res
}

/// `VALUES (...), (...), ...`
fn values_list(explicit_row: bool, rows: &Vec<Vec<String>>) -> (res: String)
    ensures
        res@ == values_sql(explicit_row, rows_view(rows@)),
{
    let mut list: Vec<String> = Vec::new();
    let mut r: usize = 0;
    while r < rows.len()
        invariant
            r <= rows@.len(),
            list@.len() == r,
            forall|j: int| 0 <= j < r ==> #[trigger] list@[j]@ == values_row_sql(explicit_row, views(rows@[j]@)),
        decreases rows@.len() - r,
    {
        let mut row = String::new();
        if explicit_row {
            row.append("ROW");
        }
        row.append("(");
        let csv = join_strings(&rows[r], ", ");
        row.append(csv.as_str());
        row.append(")");
        assert(row@ =~= values_row_sql(explicit_row, views(rows@[r as int]@)));
        list.push(row);
        r = r + 1;
    }
    let mut res = String::new();
    res.append("VALUES ");
    let csv = join_strings(&list, ", ");
    res.append(csv.as_str());
    assert(views(list@) =~= Seq::new(rows_view(rows@).len(), |r: int| values_row_sql(explicit_row, rows_view(rows@)[r])));
    assert(res@ =~= values_sql(explicit_row, rows_view(rows@)));
    res
}

/// The SQL text of a table of literal values, in the dialect's way.
fn values_table(d: &Dialect, columns: &Vec<String>, rows: &Vec<Vec<String>>) -> (res: String)
    requires
        forall|r: int| 0 <= r < rows@.len() ==> #[trigger] rows@[r]@.len() == columns@.len(),
        d.values_mode matches ValuesMode::ValuesWithSelectColumnAliases { base_index, .. } ==>
            columns@.len() + base_index <= usize::MAX,
    ensures
        res@ == values_table_sql(*d, views(columns@), rows_view(rows@)),
{
    match &d.values_mode {
        ValuesMode::SelectUnion => {
            let mut selects: Vec<String> = Vec::new();
            let mut r: usize = 0;
            while r < rows.len()
                invariant
                    r <= rows@.len(),
                    forall|r: int| 0 <= r < rows@.len() ==> #[trigger] rows@[r]@.len() == columns@.len(),
                    selects@.len() == r,
                    forall|j: int| 0 <= j < r ==> #[trigger] selects@[j]@ == union_row_sql(*d, views(columns@), views(rows@[j]@)),
                decreases rows@.len() - r,
            {
                selects.push(union_row(d, columns, &rows[r]));
                r = r + 1;
            }
            assert(views(selects@) =~= Seq::new(rows_view(rows@).len(), |r: int| union_row_sql(*d, views(columns@), rows_view(rows@)[r])));
            join_strings(&selects, " UNION ALL ")
        },
        ValuesMode::ValuesWithSubqueryColumnAliases { explicit_row } => {
            let mut res = String::new();
            res.append("SELECT * FROM (");
            let values = values_list(*explicit_row, rows);
            res.append(values.as_str());
            res.append(") AS ");
            append_quoted_ident(&mut res, "_values", d.quote_style);
            if columns.len() > 0 {
                let mut quoted: Vec<String> = Vec::new();
                let mut c: usize = 0;
                while c < columns.len()
                    invariant
                        c <= columns@.len(),
                        quoted@.len() == c,
                        forall|j: int| 0 <= j < c ==> #[trigger] quoted@[j]@ == quoted_ident(columns@[j]@, d.quote_style),
                    decreases columns@.len() - c,
                {
                    quoted.push(crate::dialect::quote_ident(columns[c].as_str(), d.quote_style));
                    c = c + 1;
                }
                res.append(" (");
                let csv = join_strings(&quoted, ", ");
                res.append(csv.as_str());
                res.append(")");
                assert(views(quoted@) =~= Seq::new(views(columns@).len(), |c: int| quoted_ident(views(columns@)[c], d.quote_style)));
            }
            assert(res@ =~= values_table_sql(*d, views(columns@), rows_view(rows@)));
            res
        },
        ValuesMode::ValuesWithSelectColumnAliases { explicit_row, column_prefix, base_index } => {
            let mut items: Vec<String> = Vec::new();
            let mut c: usize = 0;
            while c < columns.len()
                invariant
                    c <= columns@.len(),
                    columns@.len() + *base_index <= usize::MAX,
                    items@.len() == c,
                    forall|j: int| 0 <= j < c ==> #[trigger] items@[j]@ == aliased(
                        quoted_ident(column_prefix@ + decimal((j + *base_index) as nat), d.quote_style),
                        columns@[j]@,
                        d.quote_style,
                    ),
                decreases columns@.len() - c,
            {
                let mut name = column_prefix.clone();
                append_decimal(&mut name, (c + *base_index) as u64);
                let mut item = crate::dialect::quote_ident(name.as_str(), d.quote_style);
                item.append(" AS ");
                append_quoted_ident(&mut item, columns[c].as_str(), d.quote_style);
                items.push(item);
                c = c + 1;
            }
            let mut res = String::new();
            res.append("SELECT ");
            let csv = join_strings(&items, ", ");
            res.append(csv.as_str());
            res.append(" FROM (");
            let values = values_list(*explicit_row, rows);
            res.append(values.as_str());
            res.append(")");
            assert(views(items@) =~= Seq::new(views(columns@).len(), |c: int| aliased(
                quoted_ident(column_prefix@ + decimal((c + *base_index) as nat), d.quote_style),
                views(columns@)[c],
                d.quote_style,
            )));
            assert(res@ =~= values_table_sql(*d, views(columns@), rows_view(rows@)));
            res
        },
    }
}

/// Whether the dialect writes literal tables with `VALUES`, which the query
/// tree holds as written, without parsing.
pub open spec fn writes_values(d: Dialect) -> bool {
    !(d.values_mode is SelectUnion)
}

impl SqlDataFrame {
    /// A frame of literal values: `columns` is the table's schema and each
    /// row holds the SQL literal of each of its cells. Its queries are named
    /// `values0`, `values1`, ... With `VALUES` the text is the frame's query
    /// as it is; a union of selects is parsed.
    pub fn from_values(conn_id: &str, dialect: Dialect, columns: &Vec<Field>, rows: &Vec<Vec<String>>) -> (res: Result<SqlDataFrame, SqlError>)
        requires
            forall|r: int| 0 <= r < rows@.len() ==> #[trigger] rows@[r]@.len() == columns@.len(),
            dialect.values_mode matches ValuesMode::ValuesWithSelectColumnAliases { base_index, .. } ==>
                columns@.len() + base_index <= usize::MAX,
        ensures
            ({
                let sql = values_table_sql(dialect, names_of(fields_view(columns@)), rows_view(rows@));
                if writes_values(dialect) {
                    res matches Ok(df) && df@ == (FrameView {
                        prefix: "values"@,
                        columns: fields_view(columns@),
                        queries: seq![sql],
                        dialect: dialect,
                        conn_id: conn_id@,
                    })
                } else {
                    frame_result_matches(res, first_step(dialect, conn_id@, "values"@, fields_view(columns@), sql))
                }
            }),
    {
        let names = field_names(columns);
        let sql = values_table(&dialect, &names, rows);
        let query = match dialect.values_mode {
            ValuesMode::SelectUnion => parse_sql_query(sql.as_str(), dialect.parser_dialect)?,
            _ => sql,
        };
        Ok(SqlDataFrame::from_query("values".to_string(), copy_fields(columns), query, dialect, conn_id.to_string()))
    }

    /// A frame that reads every column of table `table` of a connection whose
    /// tables are `tables` (no two with the same name); its queries are named
    /// after the table and its columns are the table's.
    pub fn try_new(conn_id: &str, dialect: Dialect, tables: &Vec<TableSchema>, table: &str) -> (res: Result<SqlDataFrame, SqlError>)
        requires
            forall|i: int, j: int| 0 <= i < j < tables@.len() ==> tables@[i].name@ != tables@[j].name@,
        ensures
            (forall|i: int| 0 <= i < tables@.len() ==> tables@[i].name@ != table@) ==> (
                res matches Err(SqlError::MissingTable(m)) && m@ == "Connection has no table named "@ + table@),
            forall|i: int| 0 <= i < tables@.len() && tables@[i].name@ == table@ ==> frame_result_matches(res, first_step(
                dialect,
                conn_id@,
                table@ + "_"@,
                fields_view(tables@[i].columns@),
                table_select_sql(table@, names_of(fields_view(tables@[i].columns@))),
            )),
    {
        let table_name = table.to_string();
        assert(table_name@ == table@);
        let mut k: usize = 0;
        while k < tables.len()
            invariant
                k <= tables@.len(),
                forall|j: int| 0 <= j < k ==> tables@[j].name@ != table@,
                table_name@ == table@,
            ensures
                k <= tables@.len(),
                forall|j: int| 0 <= j < k ==> tables@[j].name@ != table@,
                k < tables@.len() ==> tables@[k as int].name@ == table@,
            decreases tables@.len() - k,
        {
            if tables[k].name == table_name {
                break;
            }
            k = k + 1;
        }
        if k == tables.len() {
            let mut m = String::new();
            m.append("Connection has no table named ");
            m.append(table);
            return Err(SqlError::MissingTable(m));
        }
        let schema = &tables[k];
        let column_names = field_names(&schema.columns);
        let mut quoted: Vec<String> = Vec::new();
        let mut i: usize = 0;
        while i < column_names.len()
            invariant
                i <= column_names@.len(),
                quoted@.len() == i,
                forall|j: int| 0 <= j < i ==> #[trigger] quoted@[j]@ == "\""@ + column_names@[j]@ + "\""@,
            decreases column_names@.len() - i,
        {
            let mut q = String::new();
            q.append("\"");
            q.append(column_names[i].as_str());
            q.append("\"");
            quoted.push(q);
            i = i + 1;
        }
        let mut sql = String::new();
        sql.append("select ");
        let csv = join_strings(&quoted, ", ");
        sql.append(csv.as_str());
        sql.append(" from ");
        sql.append(table);
        assert(views(quoted@) =~= Seq::new(views(column_names@).len(), |i: int| "\""@ + views(column_names@)[i] + "\""@));
        assert(sql@ =~= table_select_sql(table@, views(column_names@)));
        let query = parse_sql_query(sql.as_str(), dialect.parser_dialect)?;
        let mut prefix = String::new();
        prefix.append(table);
        prefix.append("_");
        let columns = copy_fields(&schema.columns);
        Ok(SqlDataFrame::from_query(prefix, columns, query, dialect, conn_id.to_string()))
    }
}

} // verus!
