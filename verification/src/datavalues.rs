//! Column types, fields, scalar values and columns.

use vstd::prelude::*;
use vstd::string::*;
use crate::error::ErrorCode;
use crate::error::ErrorKind;

verus! {

/// The type of the values of one column.
#[derive(Clone, Copy, Debug, PartialEq, Eq, Structural)]
pub enum DataType {
    Boolean,
    UInt8,
    UInt16,
    UInt32,
    UInt64,
    Int8,
    Int16,
    Int32,
    Int64,
    String,
}

impl DataType {
    /// The width in bytes of a value of this type where every value has the
    /// same width, and nothing for strings.
    pub open spec fn spec_numeric_byte_size(self) -> Option<nat> {
        match self {
            DataType::Boolean | DataType::UInt8 | DataType::Int8 => Some(1),
            DataType::UInt16 | DataType::Int16 => Some(2),
            DataType::UInt32 | DataType::Int32 => Some(4),
            DataType::UInt64 | DataType::Int64 => Some(8),
            DataType::String => None,
        }
    }

    /// The width in bytes of a fixed-width type; `None` for strings.
    pub fn numeric_byte_size(self) -> (size: Option<usize>)
        ensures
            size is Some == self.spec_numeric_byte_size() is Some,
            size matches Some(n) ==> self.spec_numeric_byte_size() == Some(n as nat),
    {
        match self {
            DataType::Boolean | DataType::UInt8 | DataType::Int8 => Some(1),
            DataType::UInt16 | DataType::Int16 => Some(2),
            DataType::UInt32 | DataType::Int32 => Some(4),
            DataType::UInt64 | DataType::Int64 => Some(8),
            DataType::String => None,
        }
    }

    /// Whether this is the string type.
    pub fn is_string(self) -> (b: bool)
        ensures
            b == (self == DataType::String),
    {
        match self {
            DataType::String => true,
            _ => false,
        }
    }
}

/// A named, typed column of a schema.
#[derive(Debug)]
pub struct DataField {
    pub name: String,
    pub data_type: DataType,
}

impl Clone for DataField {
    fn clone(&self) -> (r: Self)
        ensures
            r == *self,
    {
        DataField { name: self.name.clone(), data_type: self.data_type }
    }
}

impl DataField {
    /// The field called `name` that holds values of `data_type`.
    pub fn new(name: &str, data_type: DataType) -> (f: DataField)
        ensures
            f.name@ == name@,
            f.data_type == data_type,
    {
        DataField { name: String::from_str(name), data_type }
    }

    /// The field's name.
    pub fn name(&self) -> (n: &str)
        ensures
            n@ == self.name@,
    {
        self.name.as_str()
    }

    /// The field's type.
    pub fn data_type(&self) -> (t: DataType)
        ensures
            t == self.data_type,
    {
        self.data_type
    }
}

/// A copy of a list of fields: the same fields in the same order.
pub fn clone_fields(fields: &Vec<DataField>) -> (copy: Vec<DataField>)
    ensures
        copy@ == fields@,
{
    let mut copy: Vec<DataField> = Vec::new();
    let mut i: usize = 0;
    while i < fields.len()
        invariant
            i <= fields.len(),
            copy@ == fields@.subrange(0, i as int),
        decreases fields.len() - i,
    {
        copy.push(fields[i].clone());
        i += 1;
    }
    assert(fields@.subrange(0, fields.len() as int) == fields@);
    copy
}

/// An ordered list of fields.
#[derive(Debug)]
pub struct DataSchema {
    pub fields: Vec<DataField>,
}

impl View for DataSchema {
    type V = Seq<DataField>;

    open spec fn view(&self) -> Seq<DataField> {
        self.fields@
    }
}

impl Clone for DataSchema {
    fn clone(&self) -> (r: Self)
        ensures
            r@ == self@,
    {
        DataSchema { fields: clone_fields(&self.fields) }
    }
}

impl DataSchema {
    /// The schema made of `fields`, in their order.
    pub fn new(fields: Vec<DataField>) -> (s: DataSchema)
        ensures
            s@ == fields@,
    {
        DataSchema { fields }
    }

    /// The number of fields.
    pub fn num_fields(&self) -> (n: usize)
        ensures
            n == self@.len(),
    {
        self.fields.len()
    }
}

/// One value of a column.
#[derive(Debug)]
pub enum Scalar {
    Boolean(bool),
    UInt8(u8),
    UInt16(u16),
    UInt32(u32),
    UInt64(u64),
    Int8(i8),
    Int16(i16),
    Int32(i32),
    Int64(i64),
    String(Vec<u8>),
}

/// What a [`Scalar`] stands for: a truth value, an integer or a byte string.
pub enum Value {
    Boolean(bool),
    Integer(int),
    Bytes(Seq<u8>),
}

impl View for Scalar {
    type V = Value;

    open spec fn view(&self) -> Value {
        match self {
            Scalar::Boolean(b) => Value::Boolean(*b),
            Scalar::UInt8(n) => Value::Integer(*n as int),
            Scalar::UInt16(n) => Value::Integer(*n as int),
            Scalar::UInt32(n) => Value::Integer(*n as int),
            Scalar::UInt64(n) => Value::Integer(*n as int),
            Scalar::Int8(n) => Value::Integer(*n as int),
            Scalar::Int16(n) => Value::Integer(*n as int),
            Scalar::Int32(n) => Value::Integer(*n as int),
            Scalar::Int64(n) => Value::Integer(*n as int),
            Scalar::String(s) => Value::Bytes(s@),
        }
    }
}

impl Scalar {
    /// The type this value belongs to.
    pub open spec fn spec_data_type(&self) -> DataType {
        match self {
            Scalar::Boolean(_) => DataType::Boolean,
            Scalar::UInt8(_) => DataType::UInt8,
            Scalar::UInt16(_) => DataType::UInt16,
            Scalar::UInt32(_) => DataType::UInt32,
            Scalar::UInt64(_) => DataType::UInt64,
            Scalar::Int8(_) => DataType::Int8,
            Scalar::Int16(_) => DataType::Int16,
            Scalar::Int32(_) => DataType::Int32,
            Scalar::Int64(_) => DataType::Int64,
            Scalar::String(_) => DataType::String,
        }
    }

    /// The type this value belongs to.
    pub fn data_type(&self) -> (t: DataType)
        ensures
            t == self.spec_data_type(),
    {
        match self {
            Scalar::Boolean(_) => DataType::Boolean,
            Scalar::UInt8(_) => DataType::UInt8,
            Scalar::UInt16(_) => DataType::UInt16,
            Scalar::UInt32(_) => DataType::UInt32,
            Scalar::UInt64(_) => DataType::UInt64,
            Scalar::Int8(_) => DataType::Int8,
            Scalar::Int16(_) => DataType::Int16,
            Scalar::Int32(_) => DataType::Int32,
            Scalar::Int64(_) => DataType::Int64,
            Scalar::String(_) => DataType::String,
        }
    }
}

impl Clone for Scalar {
    fn clone(&self) -> (r: Self)
        ensures
            r@ == self@,
            r.spec_data_type() == self.spec_data_type(),
    {
        match self {
            Scalar::Boolean(b) => Scalar::Boolean(*b),
            Scalar::UInt8(n) => Scalar::UInt8(*n),
            Scalar::UInt16(n) => Scalar::UInt16(*n),
            Scalar::UInt32(n) => Scalar::UInt32(*n),
            Scalar::UInt64(n) => Scalar::UInt64(*n),
            Scalar::Int8(n) => Scalar::Int8(*n),
            Scalar::Int16(n) => Scalar::Int16(*n),
            Scalar::Int32(n) => Scalar::Int32(*n),
            Scalar::Int64(n) => Scalar::Int64(*n),
            Scalar::String(s) => Scalar::String(s.clone()),
        }
    }
}

/// The types and values of a list of scalars, in order.
pub open spec fn typed_values(scalars: Seq<Scalar>) -> Seq<(DataType, Value)> {
    scalars.map_values(|s: Scalar| (s.spec_data_type(), s@))
}

/// A copy of a list of scalars: the same types and values in the same order.
pub fn clone_scalars(scalars: &Vec<Scalar>) -> (copy: Vec<Scalar>)
    ensures
        typed_values(copy@) == typed_values(scalars@),
{
    let mut copy: Vec<Scalar> = Vec::new();
    let mut i: usize = 0;
    while i < scalars.len()
        invariant
            i <= scalars.len(),
            copy@.len() == i,
            forall|k: int|
                0 <= k < i ==> (#[trigger] copy@[k])@ == scalars@[k]@ && copy@[k].spec_data_type()
                    == scalars@[k].spec_data_type(),
        decreases scalars.len() - i,
    {
        copy.push(scalars[i].clone());
        i += 1;
    }
    assert(typed_values(copy@) =~= typed_values(scalars@));
    copy
}

/// The values of a list of scalars, in order.
pub open spec fn values_of(scalars: Seq<Scalar>) -> Seq<Value> {
    scalars.map_values(|s: Scalar| s@)
}

/// Whether every scalar of the list has type `data_type`.
pub open spec fn all_of_type(scalars: Seq<Scalar>, data_type: DataType) -> bool {
    forall|i: int| 0 <= i < scalars.len() ==> (#[trigger] scalars[i]).spec_data_type() == data_type
}

/// A typed column: every value in it has the column's type.
#[derive(Debug)]
pub struct Column {
    data_type: DataType,
    values: Vec<Scalar>,
}

/// The mathematical content of a [`Column`]: its type and its values in row
/// order.
pub struct ColumnView {
    pub data_type: DataType,
    pub values: Seq<Value>,
}

impl View for Column {
    type V = ColumnView;

    closed spec fn view(&self) -> ColumnView {
        ColumnView { data_type: self.data_type, values: values_of(self.values@) }
    }
}

impl Column {
    #[verifier::type_invariant]
    spec fn typed(&self) -> bool {
        all_of_type(self.values@, self.data_type)
    }

    /// An empty column of `data_type`.
    pub fn new(data_type: DataType) -> (c: Column)
        ensures
            c@.data_type == data_type,
            c@.values == Seq::<Value>::empty(),
    {
        let c = Column { data_type, values: Vec::new() };
        assert(values_of(c.values@) =~= Seq::<Value>::empty());
        c
    }

    /// The column's type.
    pub fn data_type(&self) -> (t: DataType)
        ensures
            t == self@.data_type,
    {
        self.data_type
    }

    /// The number of rows.
    pub fn len(&self) -> (n: usize)
        ensures
            n == self@.values.len(),
    {
        self.values.len()
    }

    /// The value at `row`, if there is one.
    pub fn get(&self, row: usize) -> (v: Option<&Scalar>)
        ensures
            v is Some == (row < self@.values.len()),
            v matches Some(s) ==> s@ == self@.values[row as int] && s.spec_data_type()
                == self@.data_type,
    {
        proof {
            use_type_invariant(self);
        }
        if row < self.values.len() {
            Some(&self.values[row])
        } else {
            None
        }
    }

    /// Appends `value` as the last row. A value of another type is refused with
    /// a `SchemaError`, and the column stays as it was.
    pub fn append_value(&mut self, value: Scalar) -> (r: Result<(), ErrorCode>)
        ensures
            final(self)@.data_type == old(self)@.data_type,
            value.spec_data_type() == old(self)@.data_type ==> r is Ok && final(self)@.values == old(
                self,
            )@.values.push(value@),
            value.spec_data_type() != old(self)@.data_type ==> r is Err && r->Err_0.kind
                == ErrorKind::SchemaError && final(self)@ == old(self)@,
    {
        proof {
            use_type_invariant(&*self);
        }
        if value.data_type() == self.data_type {
            let mut values: Vec<Scalar> = Vec::new();
            core::mem::swap(&mut values, &mut self.values);
            values.push(value);
            core::mem::swap(&mut values, &mut self.values);
            assert(values_of(self.values@) =~= values_of(old(self).values@).push(value@));
            Ok(())
        } else {
            Err(ErrorCode::create(ErrorKind::SchemaError, "value does not have the column's type"))
        }
    }
}

/// What the columns `columns` hold.
pub open spec fn columns_view(columns: Seq<Column>) -> Seq<ColumnView> {
    Seq::new(columns.len(), |j: int| columns[j]@)
}

/// Whether all of `columns` have `rows` rows.
pub open spec fn all_of_length(columns: Seq<ColumnView>, rows: nat) -> bool {
    forall|j: int| 0 <= j < columns.len() ==> (#[trigger] columns[j]).values.len() == rows
}

/// A batch of rows, held column by column: every column has as many values
/// as the block has rows.
#[derive(Debug)]
pub struct DataBlock {
    columns: Vec<Column>,
    num_rows: usize,
}

/// The mathematical content of a [`DataBlock`]: its columns, in order, and
/// the number of its rows.
pub struct DataBlockView {
    pub columns: Seq<ColumnView>,
    pub num_rows: nat,
}

impl View for DataBlock {
    type V = DataBlockView;

    closed spec fn view(&self) -> DataBlockView {
        DataBlockView { columns: columns_view(self.columns@), num_rows: self.num_rows as nat }
    }
}

/// The number of rows of a block made of `columns`: the length of the first
/// column, and none without columns.
pub open spec fn rows_of(columns: Seq<ColumnView>) -> nat {
    if columns.len() == 0 {
        0
    } else {
        columns[0].values.len()
    }
}

impl DataBlock {
    #[verifier::type_invariant]
    spec fn rectangular(&self) -> bool {
        all_of_length(columns_view(self.columns@), self.num_rows as nat)
    }

    /// The block without columns and without rows.
    pub fn empty() -> (block: DataBlock)
        ensures
            block@.columns == Seq::<ColumnView>::empty(),
            block@.num_rows == 0,
    {
        let block = DataBlock { columns: Vec::new(), num_rows: 0 };
        assert(block@.columns =~= Seq::<ColumnView>::empty());
        block
    }

    /// The block made of `columns`, which has as many rows as each of them.
    /// Columns of different lengths make no block: that is a `SchemaError`.
    pub fn create(columns: Vec<Column>) -> (r: Result<DataBlock, ErrorCode>)
        ensures
            match r {
                Ok(block) => block@.columns == columns_view(columns@) && block@.num_rows
                    == rows_of(columns_view(columns@)) && all_of_length(
                    block@.columns,
                    block@.num_rows,
                ),
                Err(e) => e.kind == ErrorKind::SchemaError && e.message@
                    == "the columns of a block must have the same number of rows"@
                    && !all_of_length(columns_view(columns@), rows_of(columns_view(columns@))),
            },
    {
        if columns.len() == 0 {
            let block = DataBlock { columns, num_rows: 0 };
            return Ok(block);
        }
        let num_rows = columns[0].len();
        let mut j: usize = 1;
        while j < columns.len()
            invariant
                1 <= j <= columns@.len(),
                num_rows == columns@[0]@.values.len(),
                forall|k: int| 0 <= k < j ==> (#[trigger] columns@[k])@.values.len() == num_rows,
            decreases columns@.len() - j,
        {
            if columns[j].len() != num_rows {
                proof {
                    assert(columns_view(columns@)[j as int].values.len() != num_rows);
                }
                return Err(
                    ErrorCode::create(
                        ErrorKind::SchemaError,
                        "the columns of a block must have the same number of rows",
                    ),
                );
            }
            j += 1;
        }
        let block = DataBlock { columns, num_rows };
        Ok(block)
    }

    /// The number of rows.
    pub fn num_rows(&self) -> (n: usize)
        ensures
            n == self@.num_rows,
            all_of_length(self@.columns, n as nat),
    {
        proof {
            use_type_invariant(self);
        }
        self.num_rows
    }

    /// The number of columns.
    pub fn num_columns(&self) -> (n: usize)
        ensures
            n == self@.columns.len(),
    {
        self.columns.len()
    }

    /// The column at `index`, if there is one.
    pub fn column(&self, index: usize) -> (c: Option<&Column>)
        ensures
            c is Some == (index < self@.columns.len()),
            c matches Some(column) ==> column@ == self@.columns[index as int]
                && column@.values.len() == self@.num_rows,
    {
        proof {
            use_type_invariant(self);
        }
        if index < self.columns.len() {
            Some(&self.columns[index])
        } else {
            None
        }
    }
}

} // verus!
