//! Column descriptions of the rows the grid source produces.

use vstd::prelude::*;

verus! {

/// The type of a column.
#[derive(Debug, PartialEq)]
pub enum ColumnType {
    /// A timestamp with millisecond precision.
    TimestampMillisecond,
    /// A value column, typed by the expression engine; holds the engine's name
    /// for the type.
    Derived(String),
}

/// One column of a schema.
#[derive(Debug, PartialEq)]
pub struct Field {
    pub name: String,
    pub data_type: ColumnType,
    pub nullable: bool,
}

/// An ordered list of columns.
#[derive(Debug, PartialEq)]
pub struct Schema {
    pub fields: Vec<Field>,
}

/// `f` is the non-nullable millisecond timestamp column called `name`.
pub open spec fn is_time_index_field(f: Field, name: Seq<char>) -> bool {
    &&& f.name@ == name
    &&& f.data_type is TimestampMillisecond
    &&& !f.nullable
}

/// `f` is the nullable value column called `name`, of the type named `ty`.
pub open spec fn is_value_field(f: Field, name: Seq<char>, ty: Seq<char>) -> bool {
    &&& f.name@ == name
    &&& f.data_type is Derived
    &&& f.data_type->Derived_0@ == ty
    &&& f.nullable
}

/// `s` holds the timestamp column called `ts` and nothing else.
pub open spec fn is_ts_only_schema(s: Schema, ts: Seq<char>) -> bool {
    &&& s.fields@.len() == 1
    &&& is_time_index_field(s.fields@[0], ts)
}

/// `s` is the result schema: the timestamp column called `ts`, followed, when
/// `value` gives a column name and a type name, by that nullable value column.
pub open spec fn is_result_schema(s: Schema, ts: Seq<char>, value: Option<(Seq<char>, Seq<char>)>) -> bool {
    match value {
        None => is_ts_only_schema(s, ts),
        Some((name, ty)) => {
            &&& s.fields@.len() == 2
            &&& is_time_index_field(s.fields@[0], ts)
            &&& is_value_field(s.fields@[1], name, ty)
        },
    }
}

impl ColumnType {
    /// A copy of this column type.
    pub fn duplicate(&self) -> (r: ColumnType)
        ensures
            r == *self,
    {
        match self {
            ColumnType::TimestampMillisecond => ColumnType::TimestampMillisecond,
            ColumnType::Derived(name) => ColumnType::Derived(name.clone()),
        }
    }
}

impl Field {
    /// A copy of this column.
    pub fn duplicate(&self) -> (r: Field)
        ensures
            r == *self,
    {
        Field { name: self.name.clone(), data_type: self.data_type.duplicate(), nullable: self.nullable }
    }
}

impl Schema {
    /// A copy of this schema.
    pub fn duplicate(&self) -> (r: Schema)
        ensures
            r.fields@ == self.fields@,
    {
        let mut fields: Vec<Field> = Vec::new();
        let mut i: usize = 0;
        while i < self.fields.len()
            invariant
                i <= self.fields@.len(),
                fields@ == self.fields@.subrange(0, i as int),
            decreases self.fields@.len() - i,
        {
            fields.push(self.fields[i].duplicate());
            i = i + 1;
            assert(fields@ =~= self.fields@.subrange(0, i as int));
        }
        assert(fields@ =~= self.fields@);
        Schema { fields }
    }

    /// Number of columns.
    pub fn num_fields(&self) -> (r: usize)
        ensures
            r == self.fields@.len(),
    {
        self.fields.len()
    }

    /// Names of the columns, in order.
    pub fn field_names(&self) -> (r: Vec<String>)
        ensures
            r@.len() == self.fields@.len(),
            forall|i: int| 0 <= i < r@.len() ==> #[trigger] r@[i]@ == self.fields@[i].name@,
    {
        let mut names: Vec<String> = Vec::new();
        let mut i: usize = 0;
        while i < self.fields.len()
            invariant
                i <= self.fields@.len(),
                names@.len() == i,
                forall|j: int| 0 <= j < i ==> #[trigger] names@[j]@ == self.fields@[j].name@,
            decreases self.fields@.len() - i,
        {
            names.push(self.fields[i].name.clone());
            i = i + 1;
        }
        names
    }
}

/// The non-nullable millisecond timestamp column called `column_name`.
pub fn time_index_field(column_name: &str) -> (r: Field)
    ensures
        is_time_index_field(r, column_name@),
{
    Field { name: column_name.to_string(), data_type: ColumnType::TimestampMillisecond, nullable: false }
}

/// The schema that holds only the millisecond timestamp column called
/// `column_name`; expressions are evaluated against it.
pub fn build_ts_only_schema(column_name: &str) -> (r: Schema)
    ensures
        is_ts_only_schema(r, column_name@),
{
    let fields = vec![time_index_field(column_name)];
    Schema { fields }
}

/// The result schema: the timestamp column called `time_index_column_name`,
/// then, when `value_type` names the type an expression produces, the nullable
/// value column called `field_column_name` of that type.
pub fn build_result_schema(
    time_index_column_name: &str,
    field_column_name: &str,
    value_type: Option<&str>,
) -> (r: Schema)
    ensures
        is_result_schema(
            r,
            time_index_column_name@,
            match value_type {
                None => None,
                Some(ty) => Some((field_column_name@, ty@)),
            },
        ),
{
    let mut fields = vec![time_index_field(time_index_column_name)];
    match value_type {
        None => {},
        Some(ty) => {
            fields.push(
                Field {
                    name: field_column_name.to_string(),
                    data_type: ColumnType::Derived(ty.to_string()),
                    nullable: true,
                },
            );
        },
    }
    Schema { fields }
}

} // verus!
