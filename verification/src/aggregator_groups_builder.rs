//! Builders that collect the keys of the groups of an aggregation and, at the
//! end, turn them back into one column for each group field.
//!
//! A key is the values of the group fields of one group, one after the other
//! in field order, each in the binary form of its type.

use vstd::prelude::*;
use crate::datavalues::clone_fields;
use crate::datavalues::columns_view;
use crate::datavalues::Column;
use crate::datavalues::ColumnView;
use crate::datavalues::DataField;
use crate::datavalues::DataType;
use crate::datavalues::Scalar;
use crate::datavalues::Value;
use crate::deserializer::de_binary;
use crate::deserializer::decode_field;
use crate::deserializer::lemma_uvarint_bound;
use vstd::arithmetic::power2::lemma2_to64;
use crate::deserializer::le_bytes;
use crate::deserializer::le_value;
use crate::deserializer::lemma_le_round_trip;
use crate::deserializer::write_le;
use crate::error::ErrorCode;
use crate::error::ErrorKind;

verus! {

/// What an aggregation is set up with, as far as the builders read it.
#[derive(Debug)]
pub struct AggregatorParams {
    pub group_data_fields: Vec<DataField>,
}

/// Where in `key` the value of the group field `j` starts: behind the values
/// of the fields before it. Nothing where one of those cannot be read.
pub open spec fn field_offset(fields: Seq<DataField>, key: Seq<u8>, j: nat) -> Option<nat>
    decreases j,
{
    if j == 0 {
        Some(0)
    } else {
        match field_offset(fields, key, (j - 1) as nat) {
            Some(offset) => match decode_field(
                fields[j - 1].data_type,
                key.skip(offset as int),
            ) {
                Some((_, len)) => Some(offset + len),
                None => None,
            },
            None => None,
        }
    }
}

/// The value of the group field `j` in `key`. Nothing where it, or one before
/// it, cannot be read.
pub open spec fn field_value(fields: Seq<DataField>, key: Seq<u8>, j: nat) -> Option<Value> {
    match field_offset(fields, key, j) {
        Some(offset) => match decode_field(fields[j as int].data_type, key.skip(offset as int)) {
            Some((value, _)) => Some(value),
            None => None,
        },
        None => None,
    }
}

/// Whether every key holds a value for every group field.
pub open spec fn keys_decode(fields: Seq<DataField>, keys: Seq<Seq<u8>>) -> bool {
    forall|i: int, j: int|
        0 <= i < keys.len() && 0 <= j < fields.len() ==> (#[trigger] field_value(
            fields,
            keys[i],
            j as nat,
        )) is Some
}

/// The column of the group field `j`: for each key, in order, the value of
/// the field in it.
pub open spec fn group_column(fields: Seq<DataField>, keys: Seq<Seq<u8>>, j: int) -> ColumnView {
    ColumnView {
        data_type: fields[j].data_type,
        values: Seq::new(keys.len(), |i: int| field_value(fields, keys[i], j as nat)->0),
    }
}

/// The columns of all group fields, in field order.
pub open spec fn group_columns(fields: Seq<DataField>, keys: Seq<Seq<u8>>) -> Seq<ColumnView> {
    Seq::new(fields.len(), |j: int| group_column(fields, keys, j))
}

/// The string column whose values are the keys themselves.
pub open spec fn keys_as_strings(keys: Seq<Seq<u8>>) -> ColumnView {
    ColumnView {
        data_type: DataType::String,
        values: Seq::new(keys.len(), |i: int| Value::Bytes(keys[i])),
    }
}

/// The bytes of each of `keys`.
pub open spec fn key_bytes(keys: Seq<&[u8]>) -> Seq<Seq<u8>> {
    Seq::new(keys.len(), |i: int| keys[i]@)
}

/// Whether `r` is a list of columns that hold `expected`.
pub open spec fn is_columns(r: Result<Vec<Column>, ErrorCode>, expected: Seq<ColumnView>) -> bool {
    r matches Ok(columns) && columns_view(columns@) == expected
}

/// Whether `r` is the error for a key that does not hold all fields: an
/// `InputError` that says so.
pub open spec fn is_key_error(r: Result<Vec<Column>, ErrorCode>) -> bool {
    r matches Err(e) && e.kind == ErrorKind::InputError && e.message@
        == "group key ends before its last field"@
}

/// Whether `r` is the error for a string among the fields of fixed-width
/// keys: a `SchemaError` that says so.
pub open spec fn is_string_field_error(r: Result<Vec<Column>, ErrorCode>) -> bool {
    r matches Err(e) && e.kind == ErrorKind::SchemaError && e.message@
        == "a string cannot be a field of a fixed-width group key"@
}

/// Whether one of `fields` is a string field.
pub open spec fn has_string_field(fields: Seq<DataField>) -> bool {
    exists|j: int| 0 <= j < fields.len() && (#[trigger] fields[j]).data_type == DataType::String
}

/// A value takes no more bytes than there are.
pub proof fn lemma_decode_field_len(data_type: DataType, bytes: Seq<u8>)
    ensures
        decode_field(data_type, bytes) matches Some((_, len)) ==> len <= bytes.len(),
{
    lemma_uvarint_bound(bytes);
}

/// Reads the columns of `fields` out of `keys`.
///
/// Where every key holds a value for every field, the result is the columns
/// of the fields. Otherwise it is an `InputError`.
pub fn deserialize_group_columns(keys: &Vec<&[u8]>, fields: &Vec<DataField>) -> (r: Result<
    Vec<Column>,
    ErrorCode,
>)
    ensures
        keys_decode(fields@, key_bytes(keys@)) ==> is_columns(
            r,
            group_columns(fields@, key_bytes(keys@)),
        ),
        !keys_decode(fields@, key_bytes(keys@)) ==> is_key_error(r),
{
    let ghost all = key_bytes(keys@);
    let rows = keys.len();
    let mut cursors: Vec<usize> = Vec::new();
    let mut i: usize = 0;
    while i < rows
        invariant
            i <= rows,
            rows == keys@.len(),
            cursors@.len() == i,
            forall|k: int| 0 <= k < i ==> cursors@[k] == 0,
        decreases rows - i,
    {
        cursors.push(0);
        i += 1;
    }
    let mut res: Vec<Column> = Vec::new();
    let mut j: usize = 0;
    while j < fields.len()
        invariant
            j <= fields@.len(),
            rows == keys@.len(),
            all == key_bytes(keys@),
            cursors@.len() == rows,
            forall|k: int|
                0 <= k < rows ==> cursors@[k] <= keys@[k]@.len() && field_offset(
                    fields@,
                    #[trigger] all[k],
                    j as nat,
                ) == Some(cursors@[k] as nat),
            forall|k: int, f: int|
                0 <= k < rows && 0 <= f < j ==> (#[trigger] field_value(fields@, all[k], f as nat))
                    is Some,
            res@.len() == j,
            forall|f: int| 0 <= f < j ==> (#[trigger] res@[f])@ == group_column(fields@, all, f),
        decreases fields@.len() - j,
    {
        let data_type = fields[j].data_type();
        let mut column = Column::new(data_type);
        let mut i: usize = 0;
        while i < rows
            invariant
                i <= rows,
                j < fields@.len(),
                rows == keys@.len(),
                all == key_bytes(keys@),
                cursors@.len() == rows,
                data_type == fields@[j as int].data_type,
                forall|k: int|
                    0 <= k < i ==> cursors@[k] <= keys@[k]@.len() && field_offset(
                        fields@,
                        #[trigger] all[k],
                        (j + 1) as nat,
                    ) == Some(cursors@[k] as nat),
                forall|k: int|
                    i <= k < rows ==> cursors@[k] <= keys@[k]@.len() && field_offset(
                        fields@,
                        #[trigger] all[k],
                        j as nat,
                    ) == Some(cursors@[k] as nat),
                forall|k: int, f: int|
                    0 <= k < rows && 0 <= f < j ==> (#[trigger] field_value(
                        fields@,
                        all[k],
                        f as nat,
                    )) is Some,
                forall|k: int|
                    0 <= k < i ==> (#[trigger] field_value(fields@, all[k], j as nat)) is Some,
                column@.data_type == data_type,
                column@.values.len() == i,
                forall|k: int|
                    0 <= k < i ==> #[trigger] column@.values[k] == field_value(
                        fields@,
                        all[k],
                        j as nat,
                    )->0,
            decreases rows - i,
        {
            let key: &[u8] = keys[i];
            assert(all[i as int] == key@);
            proof {
                lemma_decode_field_len(data_type, key@.skip(cursors@[i as int] as int));
            }
            match de_binary(data_type, key, cursors[i]) {
                Err(e) => {
                    assert(field_value(fields@, all[i as int], j as nat) is None);
                    return Err(e);
                },
                Ok((scalar, next)) => {
                    match column.append_value(scalar) {
                        Ok(()) => {},
                        Err(e) => {
                            return Err(e);
                        },
                    }
                    cursors.set(i, next);
                },
            }
            i += 1;
        }
        proof {
            assert(column@.values =~= group_column(fields@, all, j as int).values);
        }
        res.push(column);
        j += 1;
    }
    proof {
        assert(columns_view(res@) =~= group_columns(fields@, all));
    }
    Ok(res)
}

/// Collects the keys of groups and turns them back into columns.
pub trait GroupColumnsBuilder: Sized {
    /// A key.
    type T;

    /// The keys that were appended, in order.
    spec fn keys(&self) -> Seq<Self::T>;

    /// The group fields.
    spec fn groups_fields(&self) -> Seq<DataField>;

    /// Appends the key of one more group.
    fn append_value(&mut self, v: Self::T)
        ensures
            final(self).keys() == old(self).keys().push(v),
            final(self).groups_fields() == old(self).groups_fields(),
    ;

    /// The columns of the group fields, in field order, with one row for each
    /// key that was appended.
    fn finish(self) -> Result<Vec<Column>, ErrorCode>;
}

/// A builder for keys that are byte strings of any length.
pub struct SerializedKeysGroupColumnsBuilder<'a> {
    data: Vec<&'a [u8]>,
    groups_fields: Vec<DataField>,
}

impl<'a> SerializedKeysGroupColumnsBuilder<'a> {
    /// A builder without keys for the group fields of `params`, with room for
    /// `capacity` keys.
    pub fn create(capacity: usize, params: &AggregatorParams) -> (builder: Self)
        ensures
            builder.keys() == Seq::<&'a [u8]>::empty(),
            builder.groups_fields() == params.group_data_fields@,
    {
        Self {
            data: Vec::with_capacity(capacity),
            groups_fields: clone_fields(&params.group_data_fields),
        }
    }

    /// Whether the keys are the values of the only group field, a string
    /// field, as they are.
    pub open spec fn keys_are_strings(fields: Seq<DataField>) -> bool {
        fields.len() == 1 && fields[0].data_type == DataType::String
    }
}

impl<'a> GroupColumnsBuilder for SerializedKeysGroupColumnsBuilder<'a> {
    type T = &'a [u8];

    closed spec fn keys(&self) -> Seq<&'a [u8]> {
        self.data@
    }

    closed spec fn groups_fields(&self) -> Seq<DataField> {
        self.groups_fields@
    }

    fn append_value(&mut self, v: &'a [u8]) {
        self.data.push(v);
    }

    /// With one group field that is a string field, the keys are its values.
    /// Otherwise each key holds the values of the group fields one after the
    /// other, and a key that does not is an `InputError`.
    fn finish(self) -> (r: Result<Vec<Column>, ErrorCode>)
        ensures
            Self::keys_are_strings(self.groups_fields()) ==> is_columns(
                r,
                seq![keys_as_strings(key_bytes(self.keys()))],
            ),
            !Self::keys_are_strings(self.groups_fields()) && keys_decode(
                self.groups_fields(),
                key_bytes(self.keys()),
            ) ==> is_columns(r, group_columns(self.groups_fields(), key_bytes(self.keys()))),
            !Self::keys_are_strings(self.groups_fields()) && !keys_decode(
                self.groups_fields(),
                key_bytes(self.keys()),
            ) ==> is_key_error(r),
    {
        let rows = self.data.len();
        if self.groups_fields.len() == 1 && self.groups_fields[0].data_type().is_string() {
            let mut column = Column::new(DataType::String);
            let mut i: usize = 0;
            while i < rows
                invariant
                    i <= rows,
                    rows == self.data@.len(),
                    column@.data_type == DataType::String,
                    column@.values.len() == i,
                    forall|k: int|
                        0 <= k < i ==> #[trigger] column@.values[k] == Value::Bytes(
                            self.data@[k]@,
                        ),
                decreases rows - i,
            {
                let key: &[u8] = self.data[i];
                let value = vstd::slice::slice_to_vec(key);
                match column.append_value(Scalar::String(value)) {
                    Ok(()) => {},
                    Err(e) => {
                        return Err(e);
                    },
                }
                i += 1;
            }
            let mut res: Vec<Column> = Vec::new();
            res.push(column);
            proof {
                assert(column@.values =~= keys_as_strings(key_bytes(self.data@)).values);
                assert(columns_view(res@) =~= seq![keys_as_strings(key_bytes(self.data@))]);
            }
            return Ok(res);
        }
        deserialize_group_columns(&self.data, &self.groups_fields)
    }
}

/// A key of a fixed width: an unsigned integer, which holds the values of the
/// group fields in its bytes, the least significant byte first.
pub trait FixedKey: Copy {
    /// The bytes of the key, the least significant first.
    spec fn spec_bytes(self) -> Seq<u8>;

    /// The bytes of the key, the least significant first.
    fn bytes(self) -> (bytes: Vec<u8>)
        ensures
            bytes@ == self.spec_bytes(),
    ;
}

impl FixedKey for u8 {
    open spec fn spec_bytes(self) -> Seq<u8> {
        le_bytes(self as nat, 1)
    }

    fn bytes(self) -> (bytes: Vec<u8>) {
        write_le(self as u64, 1)
    }
}

impl FixedKey for u16 {
    open spec fn spec_bytes(self) -> Seq<u8> {
        le_bytes(self as nat, 2)
    }

    fn bytes(self) -> (bytes: Vec<u8>) {
        write_le(self as u64, 2)
    }
}

impl FixedKey for u32 {
    open spec fn spec_bytes(self) -> Seq<u8> {
        le_bytes(self as nat, 4)
    }

    fn bytes(self) -> (bytes: Vec<u8>) {
        write_le(self as u64, 4)
    }
}

impl FixedKey for u64 {
    open spec fn spec_bytes(self) -> Seq<u8> {
        le_bytes(self as nat, 8)
    }

    fn bytes(self) -> (bytes: Vec<u8>) {
        write_le(self, 8)
    }
}

/// The bytes of a fixed-width key read back to the key: nothing of a key is
/// lost on the way into its bytes.
pub proof fn lemma_fixed_key_reads_back(k8: u8, k16: u16, k32: u32, k64: u64)
    ensures
        k8.spec_bytes().len() == 1 && le_value(k8.spec_bytes()) == k8,
        k16.spec_bytes().len() == 2 && le_value(k16.spec_bytes()) == k16,
        k32.spec_bytes().len() == 4 && le_value(k32.spec_bytes()) == k32,
        k64.spec_bytes().len() == 8 && le_value(k64.spec_bytes()) == k64,
{
    lemma2_to64();
    lemma_le_round_trip(k8 as nat, 1);
    lemma_le_round_trip(k16 as nat, 2);
    lemma_le_round_trip(k32 as nat, 4);
    lemma_le_round_trip(k64 as nat, 8);
}

/// The bytes of each of `keys`.
pub open spec fn fixed_key_bytes<T: FixedKey>(keys: Seq<T>) -> Seq<Seq<u8>> {
    Seq::new(keys.len(), |i: int| keys[i].spec_bytes())
}

/// A builder for keys of a fixed width, which hold values of fixed-width
/// types only.
pub struct FixedKeysGroupColumnsBuilder<T> {
    data: Vec<T>,
    groups_fields: Vec<DataField>,
}

impl<T: FixedKey> FixedKeysGroupColumnsBuilder<T> {
    /// A builder without keys for the group fields of `params`, with room for
    /// `capacity` keys.
    pub fn create(capacity: usize, params: &AggregatorParams) -> (builder: Self)
        ensures
            builder.keys() == Seq::<T>::empty(),
            builder.groups_fields() == params.group_data_fields@,
    {
        Self {
            data: Vec::with_capacity(capacity),
            groups_fields: clone_fields(&params.group_data_fields),
        }
    }
}

/// Whether one of `fields` is a string field.
fn any_string_field(fields: &Vec<DataField>) -> (found: bool)
    ensures
        found == has_string_field(fields@),
{
    let mut j: usize = 0;
    while j < fields.len()
        invariant
            j <= fields@.len(),
            forall|f: int| 0 <= f < j ==> (#[trigger] fields@[f]).data_type != DataType::String,
        decreases fields@.len() - j,
    {
        if fields[j].data_type().is_string() {
            return true;
        }
        j += 1;
    }
    false
}

impl<T: FixedKey> GroupColumnsBuilder for FixedKeysGroupColumnsBuilder<T> {
    type T = T;

    closed spec fn keys(&self) -> Seq<T> {
        self.data@
    }

    closed spec fn groups_fields(&self) -> Seq<DataField> {
        self.groups_fields@
    }

    fn append_value(&mut self, v: T) {
        self.data.push(v);
    }

    /// A string among the group fields is a `SchemaError`: a string has no
    /// fixed width. Otherwise the bytes of each key hold the values of the
    /// group fields one after the other, and a key that is too narrow for them
    /// is an `InputError`.
    fn finish(self) -> (r: Result<Vec<Column>, ErrorCode>)
        ensures
            has_string_field(self.groups_fields()) ==> is_string_field_error(r),
            !has_string_field(self.groups_fields()) && keys_decode(
                self.groups_fields(),
                fixed_key_bytes(self.keys()),
            ) ==> is_columns(r, group_columns(self.groups_fields(), fixed_key_bytes(self.keys()))),
            !has_string_field(self.groups_fields()) && !keys_decode(
                self.groups_fields(),
                fixed_key_bytes(self.keys()),
            ) ==> is_key_error(r),
    {
        if any_string_field(&self.groups_fields) {
            return Err(
                ErrorCode::create(
                    ErrorKind::SchemaError,
                    "a string cannot be a field of a fixed-width group key",
                ),
            );
        }
        let rows = self.data.len();
        let mut owned: Vec<Vec<u8>> = Vec::new();
        let mut i: usize = 0;
        while i < rows
            invariant
                i <= rows,
                rows == self.data@.len(),
                owned@.len() == i,
                forall|k: int| 0 <= k < i ==> (#[trigger] owned@[k])@ == self.data@[k].spec_bytes(),
            decreases rows - i,
        {
            owned.push(self.data[i].bytes());
            i += 1;
        }
        let mut keys: Vec<&[u8]> = Vec::new();
        let mut i: usize = 0;
        while i < rows
            invariant
                i <= rows,
                rows == self.data@.len(),
                owned@.len() == rows,
                keys@.len() == i,
                forall|k: int| 0 <= k < i ==> (#[trigger] keys@[k])@ == owned@[k]@,
            decreases rows - i,
        {
            keys.push(owned[i].as_slice());
            i += 1;
        }
        proof {
            assert(key_bytes(keys@) =~= fixed_key_bytes(self.data@));
        }
        deserialize_group_columns(&keys, &self.groups_fields)
    }
}

} // verus!
