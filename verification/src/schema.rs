//! The schema of a data frame: each column's name, data type and whether it
//! may hold nulls.
use vstd::prelude::*;

verus! {

/// The data type of a column.
#[derive(Clone, Copy, Debug, PartialEq, Eq, Structural)]
pub enum DataType {
    Null,
    Boolean,
    Int8,
    Int16,
    Int32,
    Int64,
    UInt8,
    UInt16,
    UInt32,
    UInt64,
    Float16,
    Float32,
    Float64,
    Utf8,
    LargeUtf8,
    Date32,
    Date64,
    TimestampSecond,
    TimestampMillisecond,
    TimestampMicrosecond,
    TimestampNanosecond,
    /// Any type that the query builder does not tell apart.
    Other,
}

/// A column of a schema.
#[derive(Debug)]
pub struct Field {
    pub name: String,
    pub data_type: DataType,
    pub nullable: bool,
}

/// The value of a column: its name, data type and nullability.
pub struct FieldView {
    pub name: Seq<char>,
    pub data_type: DataType,
    pub nullable: bool,
}

impl View for Field {
    type V = FieldView;

    open spec fn view(&self) -> FieldView {
        FieldView { name: self.name@, data_type: self.data_type, nullable: self.nullable }
    }
}

/// The values of a list of columns.
pub open spec fn fields_view(v: Seq<Field>) -> Seq<FieldView> {
    Seq::new(v.len(), |i: int| v[i]@)
}

/// The names of a list of columns.
pub open spec fn names_of(cols: Seq<FieldView>) -> Seq<Seq<char>> {
    Seq::new(cols.len(), |i: int| cols[i].name)
}

/// A nullable column of the given name and type.
pub open spec fn nullable_field(name: Seq<char>, data_type: DataType) -> FieldView {
    FieldView { name, data_type, nullable: true }
}

/// The columns, each made nullable: what a selection of plain column
/// references gives.
pub open spec fn all_nullable(cols: Seq<FieldView>) -> Seq<FieldView> {
    Seq::new(cols.len(), |i: int| nullable_field(cols[i].name, cols[i].data_type))
}

/// The type of the first column named `name`, or `Null` where there is none.
pub open spec fn type_of(cols: Seq<FieldView>, name: Seq<char>) -> DataType
    decreases cols.len(),
{
    if cols.len() == 0 {
        DataType::Null
    } else if cols[0].name == name {
        cols[0].data_type
    } else {
        type_of(cols.drop_first(), name)
    }
}

/// The columns whose names are not among `names`, in order.
pub open spec fn fields_without(cols: Seq<FieldView>, names: Seq<Seq<char>>) -> Seq<FieldView>
    decreases cols.len(),
{
    if cols.len() == 0 {
        Seq::empty()
    } else {
        fields_without(cols.drop_last(), names) + if names.contains(cols.last().name) {
            Seq::<FieldView>::empty()
        } else {
            seq![cols.last()]
        }
    }
}

impl Field {
    /// A copy of this column.
    pub fn copy(&self) -> (res: Field)
        ensures
            res@ == self@,
    {
        Field { name: self.name.clone(), data_type: self.data_type, nullable: self.nullable }
    }
}

/// A copy of a list of columns.
pub fn copy_fields(v: &Vec<Field>) -> (res: Vec<Field>)
    ensures
        fields_view(res@) == fields_view(v@),
{
    let mut res: Vec<Field> = Vec::new();
    let mut i: usize = 0;
    while i < v.len()
        invariant
            i <= v@.len(),
            res@.len() == i,
            forall|j: int| 0 <= j < i ==> #[trigger] res@[j]@ == v@[j]@,
        decreases v@.len() - i,
    {
        res.push(v[i].copy());
        i = i + 1;
    }
    assert(fields_view(res@) =~= fields_view(v@));
    res
}

/// The columns, each made nullable.
pub fn make_nullable(v: &Vec<Field>) -> (res: Vec<Field>)
    ensures
        fields_view(res@) == all_nullable(fields_view(v@)),
{
    let mut res: Vec<Field> = Vec::new();
    let mut i: usize = 0;
    while i < v.len()
        invariant
            i <= v@.len(),
            res@.len() == i,
            forall|j: int| 0 <= j < i ==> #[trigger] res@[j]@ == nullable_field(v@[j].name@, v@[j].data_type),
        decreases v@.len() - i,
    {
        res.push(Field { name: v[i].name.clone(), data_type: v[i].data_type, nullable: true });
        i = i + 1;
    }
    assert(fields_view(res@) =~= all_nullable(fields_view(v@)));
    res
}

/// The names of the columns.
pub fn field_names(v: &Vec<Field>) -> (res: Vec<String>)
    ensures
        crate::text::views(res@) == names_of(fields_view(v@)),
{
    let mut res: Vec<String> = Vec::new();
    let mut i: usize = 0;
    while i < v.len()
        invariant
            i <= v@.len(),
            res@.len() == i,
            forall|j: int| 0 <= j < i ==> #[trigger] res@[j]@ == v@[j].name@,
        decreases v@.len() - i,
    {
        res.push(v[i].name.clone());
        i = i + 1;
    }
    assert(crate::text::views(res@) =~= names_of(fields_view(v@)));
    res
}

/// The type of the first column named `name`, or `Null` where there is none.
pub fn lookup_type(v: &Vec<Field>, name: &str) -> (t: DataType)
    ensures
        t == type_of(fields_view(v@), name@),
{
    let target = name.to_string();
    let mut i: usize = 0;
    assert(fields_view(v@).subrange(0, v@.len() as int) =~= fields_view(v@));
    while i < v.len()
        invariant
            i <= v@.len(),
            target@ == name@,
            type_of(fields_view(v@).subrange(i as int, v@.len() as int), name@) == type_of(fields_view(v@), name@),
        decreases v@.len() - i,
    {
        let ghost rest = fields_view(v@).subrange(i as int, v@.len() as int);
        assert(rest.drop_first() =~= fields_view(v@).subrange(i + 1, v@.len() as int));
        if v[i].name == target {
            return v[i].data_type;
        }
        i = i + 1;
    }
    assert(fields_view(v@).subrange(i as int, v@.len() as int).len() == 0);
    DataType::Null
}

/// The columns whose names are not among `names`, in order.
pub fn fields_without_names(v: &Vec<Field>, names: &Vec<String>) -> (res: Vec<Field>)
    ensures
        fields_view(res@) == fields_without(fields_view(v@), crate::text::views(names@)),
{
    let mut res: Vec<Field> = Vec::new();
    let mut i: usize = 0;
    let ghost all = fields_view(v@);
    while i < v.len()
        invariant
            i <= v@.len(),
            all == fields_view(v@),
            fields_view(res@) == fields_without(all.take(i as int), crate::text::views(names@)),
        decreases v@.len() - i,
    {
        let ghost before = fields_view(res@);
        proof {
            assert(all.take(i + 1).drop_last() =~= all.take(i as int));
            assert(all.take(i + 1).last() == v@[i as int]@);
        }
        if !crate::joinagg::contains_string(names, &v[i].name) {
            res.push(v[i].copy());
            assert(fields_view(res@) =~= before + seq![v@[i as int]@]);
        } else {
            assert(fields_view(res@) =~= before + Seq::<FieldView>::empty());
        }
        i = i + 1;
    }
    assert(all.take(v@.len() as int) =~= all);
    res
}

/// The columns of a selection of the named columns of `cols`, each nullable
/// and of the type of the first column of its name.
pub open spec fn select_named(cols: Seq<FieldView>, names: Seq<Seq<char>>) -> Seq<FieldView> {
    Seq::new(names.len(), |k: int| nullable_field(names[k], type_of(cols, names[k])))
}

/// The columns of a selection of the named columns of `cols`.
pub fn select_named_fields(cols: &Vec<Field>, names: &Vec<String>) -> (res: Vec<Field>)
    ensures
        fields_view(res@) == select_named(fields_view(cols@), crate::text::views(names@)),
{
    let mut res: Vec<Field> = Vec::new();
    let mut i: usize = 0;
    while i < names.len()
        invariant
            i <= names@.len(),
            res@.len() == i,
            forall|j: int| 0 <= j < i ==> #[trigger] res@[j]@ == nullable_field(names@[j]@, type_of(fields_view(cols@), names@[j]@)),
        decreases names@.len() - i,
    {
        let t = lookup_type(cols, names[i].as_str());
        res.push(Field { name: names[i].clone(), data_type: t, nullable: true });
        i = i + 1;
    }
    assert(fields_view(res@) =~= select_named(fields_view(cols@), crate::text::views(names@)));
    res
}

} // verus!
