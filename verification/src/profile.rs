//! The dialect as data: the descriptors of messages and fields, the order
//! of fields on the wire, and the extra byte that a message's schema gives
//! the checksum of its frames.

use crate::framing::{crc16_mcrf4xx, mcrf4xx};
use vstd::prelude::*;
use vstd::utf8::encode_utf8;

verus! {

/// A scalar type of the dialect.
#[derive(Clone, Copy, Debug, PartialEq, Eq)]
pub enum MavScalar {
    UInt8MavlinkVersion,
    Char,
    UInt8,
    Int8,
    UInt16,
    Int16,
    UInt32,
    Int32,
    UInt64,
    Int64,
    Float,
    Double,
}

impl MavScalar {
    /// The number of bytes of a value on the wire.
    pub open spec fn spec_size(self) -> nat {
        match self {
            MavScalar::UInt8MavlinkVersion | MavScalar::Char | MavScalar::UInt8 | MavScalar::Int8 => 1,
            MavScalar::UInt16 | MavScalar::Int16 => 2,
            MavScalar::UInt32 | MavScalar::Int32 | MavScalar::Float => 4,
            MavScalar::UInt64 | MavScalar::Int64 | MavScalar::Double => 8,
        }
    }

    /// The number of bytes of a value on the wire.
    pub fn size(&self) -> (n: usize)
        ensures
            n == self.spec_size(),
    {
        match self {
            MavScalar::UInt8MavlinkVersion | MavScalar::Char | MavScalar::UInt8 | MavScalar::Int8 => 1,
            MavScalar::UInt16 | MavScalar::Int16 => 2,
            MavScalar::UInt32 | MavScalar::Int32 | MavScalar::Float => 4,
            MavScalar::UInt64 | MavScalar::Int64 | MavScalar::Double => 8,
        }
    }

    /// The name of the type in the dialect's schema. The version byte is a
    /// `uint8_t` there.
    pub open spec fn spec_primitive_type(self) -> Seq<char> {
        match self {
            MavScalar::UInt8MavlinkVersion => "uint8_t"@,
            MavScalar::Char => "char"@,
            MavScalar::UInt8 => "uint8_t"@,
            MavScalar::Int8 => "int8_t"@,
            MavScalar::UInt16 => "uint16_t"@,
            MavScalar::Int16 => "int16_t"@,
            MavScalar::UInt32 => "uint32_t"@,
            MavScalar::Int32 => "int32_t"@,
            MavScalar::UInt64 => "uint64_t"@,
            MavScalar::Int64 => "int64_t"@,
            MavScalar::Float => "float"@,
            MavScalar::Double => "double"@,
        }
    }

    /// The name of the type in the dialect's schema.
    pub fn primitive_type(&self) -> (name: &'static str)
        ensures
            name@ == self.spec_primitive_type(),
    {
        match self {
            MavScalar::UInt8MavlinkVersion => "uint8_t",
            MavScalar::Char => "char",
            MavScalar::UInt8 => "uint8_t",
            MavScalar::Int8 => "int8_t",
            MavScalar::UInt16 => "uint16_t",
            MavScalar::Int16 => "int16_t",
            MavScalar::UInt32 => "uint32_t",
            MavScalar::Int32 => "int32_t",
            MavScalar::UInt64 => "uint64_t",
            MavScalar::Int64 => "int64_t",
            MavScalar::Float => "float",
            MavScalar::Double => "double",
        }
    }
}

/// The type of a field: a scalar, or an array of scalars of a fixed length.
#[derive(Clone, Copy, Debug, PartialEq, Eq)]
pub enum MavType {
    Scalar(MavScalar),
    Array(MavScalar, usize),
}

impl MavType {
    /// The scalar of the type: of an array, that of its elements.
    pub open spec fn spec_scalar(self) -> MavScalar {
        match self {
            MavType::Scalar(t) => t,
            MavType::Array(t, _) => t,
        }
    }

    /// The scalar of the type: of an array, that of its elements.
    pub fn scalar(&self) -> (t: MavScalar)
        ensures
            t == self.spec_scalar(),
    {
        match self {
            MavType::Scalar(t) => *t,
            MavType::Array(t, _) => *t,
        }
    }

    /// The size that places a field on the wire: that of its scalar.
    pub open spec fn order_size(self) -> nat {
        self.spec_scalar().spec_size()
    }
}

/// A field of a message, as the dialect declares it.
#[derive(Debug, PartialEq, Eq)]
pub struct MavField {
    pub name: String,
    pub mavtype: MavType,
}

/// A message of the dialect, with its fields in the order of declaration.
#[derive(Debug, PartialEq, Eq)]
pub struct MavMessage {
    pub id: u8,
    pub name: String,
    pub fields: Vec<MavField>,
}

/// The fields of `fields` whose scalars have `size` bytes, in their order.
pub open spec fn of_size(fields: Seq<MavField>, size: nat) -> Seq<MavField>
    decreases fields.len(),
{
    if fields.len() == 0 {
        Seq::empty()
    } else if fields.last().mavtype.order_size() == size {
        of_size(fields.drop_last(), size).push(fields.last())
    } else {
        of_size(fields.drop_last(), size)
    }
}

/// The fields in wire order: largest scalars first, and fields of one size
/// in the order of declaration.
pub open spec fn wire_ordered(fields: Seq<MavField>) -> Seq<MavField> {
    of_size(fields, 8) + of_size(fields, 4) + of_size(fields, 2) + of_size(fields, 1)
}

/// What a field gives the schema text: the name of its scalar, a space, its
/// own name, a space, and for an array one byte with its length.
pub open spec fn field_text(field: MavField) -> Seq<u8> {
    let named = encode_utf8(field.mavtype.spec_scalar().spec_primitive_type()) + seq![0x20u8]
        + encode_utf8(field.name@) + seq![0x20u8];
    match field.mavtype {
        MavType::Scalar(_) => named,
        MavType::Array(_, n) => named + seq![n as u8],
    }
}

/// What the fields give the schema text, one after another.
pub open spec fn fields_text(fields: Seq<MavField>) -> Seq<u8>
    decreases fields.len(),
{
    if fields.len() == 0 {
        Seq::empty()
    } else {
        fields_text(fields.drop_last()) + field_text(fields.last())
    }
}

/// The schema text of a message: its name, a space, and its fields in wire
/// order.
pub open spec fn schema_text(msg: MavMessage) -> Seq<u8> {
    encode_utf8(msg.name@) + seq![0x20u8] + fields_text(wire_ordered(msg.fields@))
}

/// The byte that a checksum folds to: its low byte, exclusive-or its high
/// byte.
pub open spec fn spec_fold(crc: u16) -> u8 {
    ((crc & 0xFF) ^ (crc >> 8)) as u8
}

/// Folds a checksum to one byte.
pub fn fold(crc: u16) -> (byte: u8)
    ensures
        byte == spec_fold(crc),
{
    assert((crc & 0xFF) ^ (crc >> 8) <= 0xFF) by (bit_vector);
    ((crc & 0xFF) ^ (crc >> 8)) as u8
}

/// Appends bytes.
fn append(out: &mut Vec<u8>, bytes: &[u8])
    ensures
        final(out)@ == old(out)@ + bytes@,
{
    out.extend_from_slice(bytes);
    assert(out@ =~= old(out)@ + bytes@);
}

/// Appends the fields of `fields` whose scalars have `size` bytes.
fn collect(fields: &Vec<MavField>, size: usize, out: &mut Vec<MavField>)
    ensures
        final(out)@ == old(out)@ + of_size(fields@, size as nat),
{
    let n = fields.len();
    let mut i: usize = 0;
    assert(fields@.take(0) =~= Seq::<MavField>::empty());
    assert(out@ =~= old(out)@ + of_size(fields@.take(0), size as nat));
    while i < n
        invariant
            i <= n,
            n == fields@.len(),
            out@ == old(out)@ + of_size(fields@.take(i as int), size as nat),
        decreases n - i,
    {
        let ghost before = of_size(fields@.take(i as int), size as nat);
        assert(fields@.take(i + 1).drop_last() =~= fields@.take(i as int));
        if fields[i].mavtype.scalar().size() == size {
            let field = MavField { name: fields[i].name.clone(), mavtype: fields[i].mavtype };
            out.push(field);
            assert(out@ =~= old(out)@ + before.push(fields@[i as int]));
        }
        i += 1;
    }
    assert(fields@.take(n as int) =~= fields@);
}

/// The fields in wire order.
pub fn wire_order(fields: &Vec<MavField>) -> (ordered: Vec<MavField>)
    ensures
        ordered@ == wire_ordered(fields@),
{
    let mut ordered: Vec<MavField> = Vec::new();
    collect(fields, 8, &mut ordered);
    assert(ordered@ =~= of_size(fields@, 8));
    collect(fields, 4, &mut ordered);
    collect(fields, 2, &mut ordered);
    collect(fields, 1, &mut ordered);
    ordered
}

/// The extra byte of a message: the checksum of its schema text, folded.
/// A change to the name, to a field's name or type, to an array's length
/// or to the order on the wire changes the text.
pub fn extra_crc(msg: &MavMessage) -> (byte: u8)
    ensures
        byte == spec_fold(crc16_mcrf4xx(schema_text(*msg))),
{
    let mut text: Vec<u8> = Vec::new();
    append(&mut text, msg.name.as_str().as_bytes());
    text.push(0x20);
    let ordered = wire_order(&msg.fields);
    let ghost head = text@;
    let n = ordered.len();
    let mut i: usize = 0;
    assert(ordered@.take(0) =~= Seq::<MavField>::empty());
    assert(text@ =~= head + fields_text(ordered@.take(0)));
    while i < n
        invariant
            i <= n,
            n == ordered@.len(),
            text@ == head + fields_text(ordered@.take(i as int)),
        decreases n - i,
    {
        let ghost before = fields_text(ordered@.take(i as int));
        assert(ordered@.take(i + 1).drop_last() =~= ordered@.take(i as int));
        let field = &ordered[i];
        append(&mut text, field.mavtype.scalar().primitive_type().as_bytes());
        text.push(0x20);
        append(&mut text, field.name.as_str().as_bytes());
        text.push(0x20);
        match field.mavtype {
            MavType::Array(_, size) => {
                text.push(size as u8);
            },
            MavType::Scalar(_) => {},
        }
        assert(text@ =~= head + (before + field_text(*field)));
        i += 1;
    }
    assert(ordered@.take(n as int) =~= ordered@);
    assert(head =~= encode_utf8(msg.name@) + seq![0x20u8]);
    fold(mcrf4xx(text.as_slice()))
}

} // verus!
