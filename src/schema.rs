//! Fields and schemas: the shape of a table.
use vstd::prelude::*;

verus! {

/// The value types a column can hold.
#[derive(Clone, Copy, Debug, PartialEq, Eq, Structural)]
pub enum DataType {
    Int64,
    Utf8,
}

/// The name under which a data type is shown.
pub open spec fn type_label(t: DataType) -> Seq<char> {
    match t {
        DataType::Int64 => "Int64"@,
        DataType::Utf8 => "Utf8"@,
    }
}

/// Relies on arrow's `Display` for `arrow::datatypes::DataType`, which writes
/// `Int64` and `Utf8` for those two types.
#[verifier::external_body]
pub(crate) fn arrow_type_label(t: DataType) -> (r: String)
    ensures
        r@ == type_label(t),
{
    let a = match t {
        DataType::Int64 => arrow::datatypes::DataType::Int64,
        DataType::Utf8 => arrow::datatypes::DataType::Utf8,
    };
    a.to_string()
}

/// What a field describes: a name, a value type and whether values may be absent.
pub struct FieldView {
    pub name: Seq<char>,
    pub data_type: DataType,
    pub nullable: bool,
}

/// A named, typed column descriptor.
#[derive(Clone, Debug)]
pub struct Field {
    name: String,
    data_type: DataType,
    nullable: bool,
}

impl View for Field {
    type V = FieldView;

    closed spec fn view(&self) -> FieldView {
        FieldView { name: self.name@, data_type: self.data_type, nullable: self.nullable }
    }
}

/// Makes a field; its name must not be empty.
pub fn define_field(name: &str, data_type: DataType, nullable: bool) -> (f: Field)
    requires
        name@.len() > 0,
    ensures
        f@ == (FieldView { name: name@, data_type, nullable }),
{
    Field { name: name.to_owned(), data_type, nullable }
}

impl Field {
    pub fn name(&self) -> (r: &str)
        ensures
            r@ == self@.name,
    {
        self.name.as_str()
    }

    pub fn data_type(&self) -> (r: DataType)
        ensures
            r == self@.data_type,
    {
        self.data_type
    }

    pub fn is_nullable(&self) -> (r: bool)
        ensures
            r == self@.nullable,
    {
        self.nullable
    }
}

/// The views of a sequence of fields.
pub open spec fn fields_view(fields: Seq<Field>) -> Seq<FieldView> {
    fields.map_values(|f: Field| f@)
}

/// An ordered sequence of fields.
#[derive(Clone, Debug)]
pub struct Schema {
    fields: Vec<Field>,
}

impl View for Schema {
    type V = Seq<FieldView>;

    closed spec fn view(&self) -> Seq<FieldView> {
        fields_view(self.fields@)
    }
}

/// Makes a schema of the given fields, in order; names may repeat.
pub fn build_schema(fields: Vec<Field>) -> (s: Schema)
    ensures
        s@ == fields_view(fields@),
{
    Schema { fields }
}

impl Schema {
    pub fn num_fields(&self) -> (r: usize)
        ensures
            r == self@.len(),
    {
        self.fields.len()
    }

    pub fn field(&self, i: usize) -> (r: &Field)
        requires
            i < self@.len(),
        ensures
            r@ == self@[i as int],
    {
        &self.fields[i]
    }
}

} // verus!
