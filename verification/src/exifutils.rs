//! Reading an image file directory: the table of tagged values that TIFF
//! and the maker notes of cameras are made of.
//!
//! A directory starts with a 16-bit count of its entries. Each entry has 12
//! bytes: tag, type code, number of values, and either the values
//! themselves, where they fit in 4 bytes, or the offset at which they
//! stand. Only values that stand in the entry are read; of the others the
//! type, the count and the offset are kept.

use std::collections::HashMap;
use vstd::prelude::*;
use crate::text::{index_of_from, pieces_from};

verus! {

broadcast use vstd::std_specs::hash::group_hash_axioms;

/// What can be wrong with the bytes of a directory.
#[derive(Debug, Copy, Clone, PartialEq, Eq, Structural)]
pub enum ExifError {
    /// The bytes end before the count of entries.
    TruncatedIfdCount,
    /// The bytes end before the last entry.
    TruncatedIfd,
    /// The values of an entry have more bytes than can be addressed.
    InvalidEntryCount,
    /// The values of an entry lie outside the bytes.
    TruncatedFieldValue,
    /// A value that should be an unsigned number is of another type.
    NotUnsignedInteger,
}

/// The directory that a tag belongs to.
#[derive(Debug, Copy, Clone, PartialEq, Eq, Structural)]
pub enum Context {
    Tiff,
    Exif,
    Gps,
    Interop,
}

/// An unsigned fraction.
#[derive(Debug, Copy, Clone, PartialEq, Eq, Structural)]
pub struct Rational {
    pub num: u32,
    pub denom: u32,
}

/// A signed fraction.
#[derive(Debug, Copy, Clone, PartialEq, Eq, Structural)]
pub struct SRational {
    pub num: i32,
    pub denom: i32,
}

/// The values of one entry.
#[derive(Debug, Clone, PartialEq, Eq)]
pub enum Value {
    Byte(Vec<u8>),
    /// Strings of bytes; each ended at a zero byte.
    Ascii(Vec<Vec<u8>>),
    Short(Vec<u16>),
    Long(Vec<u32>),
    Rational(Vec<Rational>),
    SByte(Vec<i8>),
    /// Bytes of unknown meaning, and the offset they stand at.
    Undefined(Vec<u8>, u32),
    SShort(Vec<i16>),
    SLong(Vec<i32>),
    SRational(Vec<SRational>),
    /// Single-precision numbers, as their bits.
    Float(Vec<u32>),
    /// Double-precision numbers, as their bits.
    Double(Vec<u64>),
    /// Values that were not read: type code, count and offset.
    Unknown(u16, u32, u32),
}

/// The mathematical value of a `Value`.
pub enum ValueView {
    Byte(Seq<u8>),
    Ascii(Seq<Seq<u8>>),
    Short(Seq<u16>),
    Long(Seq<u32>),
    Rational(Seq<Rational>),
    SByte(Seq<i8>),
    Undefined(Seq<u8>, u32),
    SShort(Seq<i16>),
    SLong(Seq<i32>),
    SRational(Seq<SRational>),
    Float(Seq<u32>),
    Double(Seq<u64>),
    Unknown(u16, u32, u32),
}

/// The values of a list of byte strings.
pub open spec fn byte_strings(strings: Seq<Vec<u8>>) -> Seq<Seq<u8>> {
    strings.map_values(|s: Vec<u8>| s@)
}

impl View for Value {
    type V = ValueView;

    open spec fn view(&self) -> ValueView {
        match self {
            Value::Byte(v) => ValueView::Byte(v@),
            Value::Ascii(v) => ValueView::Ascii(byte_strings(v@)),
            Value::Short(v) => ValueView::Short(v@),
            Value::Long(v) => ValueView::Long(v@),
            Value::Rational(v) => ValueView::Rational(v@),
            Value::SByte(v) => ValueView::SByte(v@),
            Value::Undefined(v, at) => ValueView::Undefined(v@, *at),
            Value::SShort(v) => ValueView::SShort(v@),
            Value::SLong(v) => ValueView::SLong(v@),
            Value::SRational(v) => ValueView::SRational(v@),
            Value::Float(v) => ValueView::Float(v@),
            Value::Double(v) => ValueView::Double(v@),
            Value::Unknown(typ, count, at) => ValueView::Unknown(*typ, *count, *at),
        }
    }
}

/// One entry of a directory.
#[derive(Debug, Clone, PartialEq, Eq)]
pub struct Field {
    pub context: Context,
    pub tag: u16,
    /// The number of the directory that the entry belongs to.
    pub ifd_num: u16,
    pub value: Value,
}

/// The mathematical value of a `Field`.
pub struct FieldView {
    pub context: Context,
    pub tag: u16,
    pub ifd_num: u16,
    pub value: ValueView,
}

impl View for Field {
    type V = FieldView;

    open spec fn view(&self) -> FieldView {
        FieldView {
            context: self.context,
            tag: self.tag,
            ifd_num: self.ifd_num,
            value: self.value@,
        }
    }
}

/// The byte order of the numbers in a directory.
pub trait Endian {
    /// The 16-bit number that stands at `from`.
    spec fn u16_at(buf: Seq<u8>, from: int) -> u16;

    /// The 32-bit number that stands at `from`.
    spec fn u32_at(buf: Seq<u8>, from: int) -> u32;

    /// The 64-bit number that stands at `from`.
    spec fn u64_at(buf: Seq<u8>, from: int) -> u64;

    fn loadu16(buf: &[u8], from: usize) -> (n: u16)
        requires
            from + 2 <= buf.len(),
        ensures
            n == Self::u16_at(buf@, from as int),
    ;

    fn loadu32(buf: &[u8], from: usize) -> (n: u32)
        requires
            from + 4 <= buf.len(),
        ensures
            n == Self::u32_at(buf@, from as int),
    ;

    fn loadu64(buf: &[u8], from: usize) -> (n: u64)
        requires
            from + 8 <= buf.len(),
        ensures
            n == Self::u64_at(buf@, from as int),
    ;
}

/// Least significant byte first.
#[derive(Debug, Clone, Copy)]
pub struct LittleEndian;

impl Endian for LittleEndian {
    open spec fn u16_at(buf: Seq<u8>, from: int) -> u16 {
        (buf[from] + 0x100 * buf[from + 1]) as u16
    }

    open spec fn u32_at(buf: Seq<u8>, from: int) -> u32 {
        (buf[from] + 0x100 * buf[from + 1] + 0x1_0000 * buf[from + 2] + 0x100_0000 * buf[from
            + 3]) as u32
    }

    open spec fn u64_at(buf: Seq<u8>, from: int) -> u64 {
        (Self::u32_at(buf, from) + 0x1_0000_0000 * Self::u32_at(buf, from + 4)) as u64
    }

    fn loadu16(buf: &[u8], from: usize) -> (n: u16) {
        let low = buf[from] as u16;
        let high = buf[from + 1] as u16;
        low + 0x100 * high
    }

    fn loadu32(buf: &[u8], from: usize) -> (n: u32) {
        let b0 = buf[from] as u32;
        let b1 = buf[from + 1] as u32;
        let b2 = buf[from + 2] as u32;
        let b3 = buf[from + 3] as u32;
        b0 + 0x100 * b1 + 0x1_0000 * b2 + 0x100_0000 * b3
    }

    fn loadu64(buf: &[u8], from: usize) -> (n: u64) {
        let low = Self::loadu32(buf, from) as u64;
        let high = Self::loadu32(buf, from + 4) as u64;
        low + 0x1_0000_0000 * high
    }
}

/// An 8-bit pattern read as a signed number.
pub open spec fn signed8(x: u8) -> i8 {
    if x < 0x80 {
        x as i8
    } else {
        (x - 0x100) as i8
    }
}

/// A 16-bit pattern read as a signed number.
pub open spec fn signed16(x: u16) -> i16 {
    if x < 0x8000 {
        x as i16
    } else {
        (x - 0x1_0000) as i16
    }
}

/// A 32-bit pattern read as a signed number.
pub open spec fn signed32(x: u32) -> i32 {
    if x < 0x8000_0000 {
        x as i32
    } else {
        (x - 0x1_0000_0000) as i32
    }
}

fn cast_signed8(x: u8) -> (y: i8)
    ensures
        y == signed8(x),
{
    if x < 0x80 {
        x as i8
    } else {
        (x as i16 - 0x100) as i8
    }
}

fn cast_signed16(x: u16) -> (y: i16)
    ensures
        y == signed16(x),
{
    if x < 0x8000 {
        x as i16
    } else {
        (x as i32 - 0x1_0000) as i16
    }
}

fn cast_signed32(x: u32) -> (y: i32)
    ensures
        y == signed32(x),
{
    if x < 0x8000_0000 {
        x as i32
    } else {
        (x as i64 - 0x1_0000_0000) as i32
    }
}

/// The number of bytes of one value of a type; 0 for an unknown type.
pub open spec fn unit_length(typecode: u16) -> nat {
    if typecode == 1 || typecode == 2 || typecode == 6 || typecode == 7 {
        1
    } else if typecode == 3 || typecode == 8 {
        2
    } else if typecode == 4 || typecode == 9 || typecode == 11 {
        4
    } else if typecode == 5 || typecode == 10 || typecode == 12 {
        8
    } else {
        0
    }
}

/// An offset as a 32-bit number; the largest such number where it does not
/// fit.
pub open spec fn offset32(offset: int) -> u32 {
    if offset <= u32::MAX {
        offset as u32
    } else {
        u32::MAX
    }
}

/// The byte strings of an ASCII value: the bytes cut at every zero byte,
/// without the last piece where that is empty.
pub open spec fn ascii_strings(bytes: Seq<u8>) -> Seq<Seq<u8>> {
    let pieces = pieces_from(bytes, 0u8, 0);
    if pieces.len() > 0 && pieces[pieces.len() - 1].len() == 0 {
        pieces.subrange(0, pieces.len() - 1)
    } else {
        pieces
    }
}

/// The value of `count` values of a type that stand at `offset`.
pub open spec fn parsed_value<E: Endian>(typecode: u16, data: Seq<u8>, offset: int, count: nat)
    -> ValueView {
    if typecode == 1 {
        ValueView::Byte(data.subrange(offset, offset + count))
    } else if typecode == 2 {
        ValueView::Ascii(ascii_strings(data.subrange(offset, offset + count)))
    } else if typecode == 3 {
        ValueView::Short(Seq::new(count, |i: int| E::u16_at(data, offset + i * 2)))
    } else if typecode == 4 {
        ValueView::Long(Seq::new(count, |i: int| E::u32_at(data, offset + i * 4)))
    } else if typecode == 5 {
        ValueView::Rational(
            Seq::new(
                count,
                |i: int|
                    Rational {
                        num: E::u32_at(data, offset + i * 8),
                        denom: E::u32_at(data, offset + i * 8 + 4),
                    },
            ),
        )
    } else if typecode == 6 {
        ValueView::SByte(Seq::new(count, |i: int| signed8(data[offset + i])))
    } else if typecode == 7 {
        ValueView::Undefined(data.subrange(offset, offset + count), offset32(offset))
    } else if typecode == 8 {
        ValueView::SShort(Seq::new(count, |i: int| signed16(E::u16_at(data, offset + i * 2))))
    } else if typecode == 9 {
        ValueView::SLong(Seq::new(count, |i: int| signed32(E::u32_at(data, offset + i * 4))))
    } else if typecode == 10 {
        ValueView::SRational(
            Seq::new(
                count,
                |i: int|
                    SRational {
                        num: signed32(E::u32_at(data, offset + i * 8)),
                        denom: signed32(E::u32_at(data, offset + i * 8 + 4)),
                    },
            ),
        )
    } else if typecode == 11 {
        ValueView::Float(Seq::new(count, |i: int| E::u32_at(data, offset + i * 4)))
    } else if typecode == 12 {
        ValueView::Double(Seq::new(count, |i: int| E::u64_at(data, offset + i * 8)))
    } else {
        ValueView::Unknown(typecode, count as u32, offset32(offset))
    }
}

/// The number of bytes of one value of a type.
pub fn get_type_info(typecode: u16) -> (length: usize)
    ensures
        length == unit_length(typecode),
{
    if typecode == 1 || typecode == 2 || typecode == 6 || typecode == 7 {
        1
    } else if typecode == 3 || typecode == 8 {
        2
    } else if typecode == 4 || typecode == 9 || typecode == 11 {
        4
    } else if typecode == 5 || typecode == 10 || typecode == 12 {
        8
    } else {
        0
    }
}

fn clip_offset(offset: usize) -> (at: u32)
    ensures
        at == offset32(offset as int),
{
    if offset <= 0xffff_ffff {
        offset as u32
    } else {
        0xffff_ffff
    }
}

fn copy_bytes(data: &[u8], offset: usize, count: usize) -> (bytes: Vec<u8>)
    requires
        offset + count <= data.len(),
    ensures
        bytes@ == data@.subrange(offset as int, offset + count),
{
    let mut bytes: Vec<u8> = Vec::new();
    let mut i: usize = 0;
    while i < count
        invariant
            i <= count,
            offset + count <= data.len(),
            bytes@ == data@.subrange(offset as int, offset + i),
        decreases count - i,
    {
        bytes.push(data[offset + i]);
        i += 1;
    }
    bytes
}

fn find_zero(bytes: &[u8], from: usize) -> (at: usize)
    requires
        from <= bytes.len(),
    ensures
        at == index_of_from(bytes@, 0u8, from as int),
        from <= at <= bytes.len(),
{
    let mut i: usize = from;
    while i < bytes.len() && bytes[i] != 0
        invariant
            from <= i <= bytes.len(),
            index_of_from(bytes@, 0u8, from as int) == index_of_from(bytes@, 0u8, i as int),
        decreases bytes.len() - i,
    {
        i += 1;
    }
    i
}

fn split_zero(bytes: &[u8]) -> (pieces: Vec<Vec<u8>>)
    ensures
        byte_strings(pieces@) == pieces_from(bytes@, 0u8, 0),
{
    let mut pieces: Vec<Vec<u8>> = Vec::new();
    let mut pos: usize = 0;
    loop
        invariant
            pos <= bytes.len(),
            byte_strings(pieces@) + pieces_from(bytes@, 0u8, pos as int) == pieces_from(
                bytes@,
                0u8,
                0,
            ),
        decreases bytes.len() - pos,
    {
        let at = find_zero(bytes, pos);
        pieces.push(copy_bytes(bytes, pos, at - pos));
        if at >= bytes.len() {
            return pieces;
        }
        pos = at + 1;
    }
}

fn parse_byte(data: &[u8], offset: usize, count: usize) -> (value: Value)
    requires
        offset + count <= data.len(),
    ensures
        value@ == ValueView::Byte(data@.subrange(offset as int, offset + count)),
{
    Value::Byte(copy_bytes(data, offset, count))
}

fn parse_ascii(data: &[u8], offset: usize, count: usize) -> (value: Value)
    requires
        offset + count <= data.len(),
    ensures
        value@ == ValueView::Ascii(ascii_strings(data@.subrange(offset as int, offset + count))),
{
    let bytes = copy_bytes(data, offset, count);
    let mut strings = split_zero(bytes.as_slice());
    let n = strings.len();
    if n > 0 && strings[n - 1].len() == 0 {
        let ghost before = byte_strings(strings@);
        strings.pop();
        assert(byte_strings(strings@) == before.subrange(0, n - 1));
    }
    Value::Ascii(strings)
}

fn parse_short<E: Endian>(data: &[u8], offset: usize, count: usize) -> (value: Value)
    requires
        offset + count * 2 <= data.len(),
    ensures
        value@ == ValueView::Short(
            Seq::new(count as nat, |i: int| E::u16_at(data@, offset + i * 2)),
        ),
{
    let mut val: Vec<u16> = Vec::new();
    let mut i: usize = 0;
    while i < count
        invariant
            i <= count,
            offset + count * 2 <= data.len(),
            val@.len() == i,
            forall|j: int| 0 <= j < i ==> val@[j] == E::u16_at(data@, offset + j * 2),
        decreases count - i,
    {
        val.push(E::loadu16(data, offset + i * 2));
        i += 1;
    }
    assert(val@ =~= Seq::new(count as nat, |i: int| E::u16_at(data@, offset + i * 2)));
    Value::Short(val)
}

fn parse_long<E: Endian>(data: &[u8], offset: usize, count: usize) -> (value: Value)
    requires
        offset + count * 4 <= data.len(),
    ensures
        value@ == ValueView::Long(
            Seq::new(count as nat, |i: int| E::u32_at(data@, offset + i * 4)),
        ),
{
    let mut val: Vec<u32> = Vec::new();
    let mut i: usize = 0;
    while i < count
        invariant
            i <= count,
            offset + count * 4 <= data.len(),
            val@.len() == i,
            forall|j: int| 0 <= j < i ==> val@[j] == E::u32_at(data@, offset + j * 4),
        decreases count - i,
    {
        val.push(E::loadu32(data, offset + i * 4));
        i += 1;
    }
    assert(val@ =~= Seq::new(count as nat, |i: int| E::u32_at(data@, offset + i * 4)));
    Value::Long(val)
}

fn parse_rational<E: Endian>(data: &[u8], offset: usize, count: usize) -> (value: Value)
    requires
        offset + count * 8 <= data.len(),
    ensures
        value@ == ValueView::Rational(
            Seq::new(
                count as nat,
                |i: int|
                    Rational {
                        num: E::u32_at(data@, offset + i * 8),
                        denom: E::u32_at(data@, offset + i * 8 + 4),
                    },
            ),
        ),
{
    let mut val: Vec<Rational> = Vec::new();
    let mut i: usize = 0;
    while i < count
        invariant
            i <= count,
            offset + count * 8 <= data.len(),
            val@.len() == i,
            forall|j: int|
                0 <= j < i ==> val@[j] == (Rational {
                    num: E::u32_at(data@, offset + j * 8),
                    denom: E::u32_at(data@, offset + j * 8 + 4),
                }),
        decreases count - i,
    {
        val.push(
            Rational {
                num: E::loadu32(data, offset + i * 8),
                denom: E::loadu32(data, offset + i * 8 + 4),
            },
        );
        i += 1;
    }
    assert(val@ =~= Seq::new(
        count as nat,
        |i: int|
            Rational {
                num: E::u32_at(data@, offset + i * 8),
                denom: E::u32_at(data@, offset + i * 8 + 4),
            },
    ));
    Value::Rational(val)
}

fn parse_sbyte(data: &[u8], offset: usize, count: usize) -> (value: Value)
    requires
        offset + count <= data.len(),
    ensures
        value@ == ValueView::SByte(Seq::new(count as nat, |i: int| signed8(data@[offset + i]))),
{
    let mut val: Vec<i8> = Vec::new();
    let mut i: usize = 0;
    while i < count
        invariant
            i <= count,
            offset + count <= data.len(),
            val@.len() == i,
            forall|j: int| 0 <= j < i ==> val@[j] == signed8(data@[offset + j]),
        decreases count - i,
    {
        val.push(cast_signed8(data[offset + i]));
        i += 1;
    }
    assert(val@ =~= Seq::new(count as nat, |i: int| signed8(data@[offset + i])));
    Value::SByte(val)
}

fn parse_undefined(data: &[u8], offset: usize, count: usize) -> (value: Value)
    requires
        offset + count <= data.len(),
    ensures
        value@ == ValueView::Undefined(
            data@.subrange(offset as int, offset + count),
            offset32(offset as int),
        ),
{
    Value::Undefined(copy_bytes(data, offset, count), clip_offset(offset))
}

fn parse_sshort<E: Endian>(data: &[u8], offset: usize, count: usize) -> (value: Value)
    requires
        offset + count * 2 <= data.len(),
    ensures
        value@ == ValueView::SShort(
            Seq::new(count as nat, |i: int| signed16(E::u16_at(data@, offset + i * 2))),
        ),
{
    let mut val: Vec<i16> = Vec::new();
    let mut i: usize = 0;
    while i < count
        invariant
            i <= count,
            offset + count * 2 <= data.len(),
            val@.len() == i,
            forall|j: int| 0 <= j < i ==> val@[j] == signed16(E::u16_at(data@, offset + j * 2)),
        decreases count - i,
    {
        val.push(cast_signed16(E::loadu16(data, offset + i * 2)));
        i += 1;
    }
    assert(val@ =~= Seq::new(count as nat, |i: int| signed16(E::u16_at(data@, offset + i * 2))));
    Value::SShort(val)
}

fn parse_slong<E: Endian>(data: &[u8], offset: usize, count: usize) -> (value: Value)
    requires
        offset + count * 4 <= data.len(),
    ensures
        value@ == ValueView::SLong(
            Seq::new(count as nat, |i: int| signed32(E::u32_at(data@, offset + i * 4))),
        ),
{
    let mut val: Vec<i32> = Vec::new();
    let mut i: usize = 0;
    while i < count
        invariant
            i <= count,
            offset + count * 4 <= data.len(),
            val@.len() == i,
            forall|j: int| 0 <= j < i ==> val@[j] == signed32(E::u32_at(data@, offset + j * 4)),
        decreases count - i,
    {
        val.push(cast_signed32(E::loadu32(data, offset + i * 4)));
        i += 1;
    }
    assert(val@ =~= Seq::new(count as nat, |i: int| signed32(E::u32_at(data@, offset + i * 4))));
    Value::SLong(val)
}

fn parse_srational<E: Endian>(data: &[u8], offset: usize, count: usize) -> (value: Value)
    requires
        offset + count * 8 <= data.len(),
    ensures
        value@ == ValueView::SRational(
            Seq::new(
                count as nat,
                |i: int|
                    SRational {
                        num: signed32(E::u32_at(data@, offset + i * 8)),
                        denom: signed32(E::u32_at(data@, offset + i * 8 + 4)),
                    },
            ),
        ),
{
    let mut val: Vec<SRational> = Vec::new();
    let mut i: usize = 0;
    while i < count
        invariant
            i <= count,
            offset + count * 8 <= data.len(),
            val@.len() == i,
            forall|j: int|
                0 <= j < i ==> val@[j] == (SRational {
                    num: signed32(E::u32_at(data@, offset + j * 8)),
                    denom: signed32(E::u32_at(data@, offset + j * 8 + 4)),
                }),
        decreases count - i,
    {
        val.push(
            SRational {
                num: cast_signed32(E::loadu32(data, offset + i * 8)),
                denom: cast_signed32(E::loadu32(data, offset + i * 8 + 4)),
            },
        );
        i += 1;
    }
    assert(val@ =~= Seq::new(
        count as nat,
        |i: int|
            SRational {
                num: signed32(E::u32_at(data@, offset + i * 8)),
                denom: signed32(E::u32_at(data@, offset + i * 8 + 4)),
            },
    ));
    Value::SRational(val)
}

fn parse_float<E: Endian>(data: &[u8], offset: usize, count: usize) -> (value: Value)
    requires
        offset + count * 4 <= data.len(),
    ensures
        value@ == ValueView::Float(
            Seq::new(count as nat, |i: int| E::u32_at(data@, offset + i * 4)),
        ),
{
    let mut val: Vec<u32> = Vec::new();
    let mut i: usize = 0;
    while i < count
        invariant
            i <= count,
            offset + count * 4 <= data.len(),
            val@.len() == i,
            forall|j: int| 0 <= j < i ==> val@[j] == E::u32_at(data@, offset + j * 4),
        decreases count - i,
    {
        val.push(E::loadu32(data, offset + i * 4));
        i += 1;
    }
    assert(val@ =~= Seq::new(count as nat, |i: int| E::u32_at(data@, offset + i * 4)));
    Value::Float(val)
}

fn parse_double<E: Endian>(data: &[u8], offset: usize, count: usize) -> (value: Value)
    requires
        offset + count * 8 <= data.len(),
    ensures
        value@ == ValueView::Double(
            Seq::new(count as nat, |i: int| E::u64_at(data@, offset + i * 8)),
        ),
{
    let mut val: Vec<u64> = Vec::new();
    let mut i: usize = 0;
    while i < count
        invariant
            i <= count,
            offset + count * 8 <= data.len(),
            val@.len() == i,
            forall|j: int| 0 <= j < i ==> val@[j] == E::u64_at(data@, offset + j * 8),
        decreases count - i,
    {
        val.push(E::loadu64(data, offset + i * 8));
        i += 1;
    }
    assert(val@ =~= Seq::new(count as nat, |i: int| E::u64_at(data@, offset + i * 8)));
    Value::Double(val)
}

/// Reads `count` values of a type at `offset`. Of values of an unknown
/// type only the type code, the count and the offset are kept.
pub fn parse_value<E: Endian>(typecode: u16, data: &[u8], offset: usize, count: u32) -> (value:
    Value)
    requires
        offset + unit_length(typecode) * count <= data.len(),
        offset <= data.len(),
    ensures
        value@ == parsed_value::<E>(typecode, data@, offset as int, count as nat),
{
    let unit = get_type_info(typecode);
    if unit == 0 {
        return Value::Unknown(typecode, count, clip_offset(offset));
    }
    assert(count <= unit_length(typecode) * count) by (nonlinear_arith)
        requires
            unit_length(typecode) >= 1,
    ;
    let n = count as usize;
    if typecode == 1 {
        parse_byte(data, offset, n)
    } else if typecode == 2 {
        parse_ascii(data, offset, n)
    } else if typecode == 3 {
        parse_short::<E>(data, offset, n)
    } else if typecode == 4 {
        parse_long::<E>(data, offset, n)
    } else if typecode == 5 {
        parse_rational::<E>(data, offset, n)
    } else if typecode == 6 {
        parse_sbyte(data, offset, n)
    } else if typecode == 7 {
        parse_undefined(data, offset, n)
    } else if typecode == 8 {
        parse_sshort::<E>(data, offset, n)
    } else if typecode == 9 {
        parse_slong::<E>(data, offset, n)
    } else if typecode == 10 {
        parse_srational::<E>(data, offset, n)
    } else if typecode == 11 {
        parse_float::<E>(data, offset, n)
    } else {
        parse_double::<E>(data, offset, n)
    }
}

/// What one entry of a directory holds: its tag and its value. Values of
/// at most 4 bytes are read from the entry. Of longer values only type,
/// count and offset are kept, after a check that they lie within the data.
pub open spec fn ifd_entry<E: Endian>(data: Seq<u8>, offset: int) -> Result<
    (u16, ValueView),
    ExifError,
> {
    let tag = E::u16_at(data, offset);
    let typ = E::u16_at(data, offset + 2);
    let count = E::u32_at(data, offset + 4);
    let length = unit_length(typ) * count;
    if length > usize::MAX {
        Err(ExifError::InvalidEntryCount)
    } else if length <= 4 {
        Ok((tag, parsed_value::<E>(typ, data, offset + 8, count as nat)))
    } else {
        let at = E::u32_at(data, offset + 8);
        if data.len() < at || data.len() - at < length {
            Err(ExifError::TruncatedFieldValue)
        } else {
            Ok((tag, ValueView::Unknown(typ, count, at)))
        }
    }
}

/// The tags that point to another directory. Their entries are left out.
pub open spec fn is_pointer_tag(context: Context, tag: u16) -> bool {
    ||| context == Context::Tiff && (tag == 0x8769 || tag == 0x8825)
    ||| context == Context::Exif && tag == 0xa005
}

/// The fields of the first `k` entries of a directory whose entries start
/// at `first`, by tag. An entry that cannot be read is passed over. Of two
/// entries with the same tag the later one stays.
pub open spec fn fields_upto<E: Endian>(
    data: Seq<u8>,
    first: int,
    context: Context,
    ifd_num: u16,
    k: nat,
) -> Map<u16, FieldView>
    decreases k,
{
    if k == 0 {
        Map::empty()
    } else {
        let before = fields_upto::<E>(data, first, context, ifd_num, (k - 1) as nat);
        match ifd_entry::<E>(data, first + 12 * (k - 1)) {
            Ok((tag, value)) => if is_pointer_tag(context, tag) {
                before
            } else {
                before.insert(tag, FieldView { context, tag, ifd_num, value })
            },
            Err(_) => before,
        }
    }
}

/// The fields of the directory that starts at `offset`, by tag. The count
/// of entries is read least significant byte first, whatever the byte
/// order of the entries.
pub open spec fn ifd<E: Endian>(data: Seq<u8>, offset: int, context: Context, ifd_num: u16)
    -> Result<Map<u16, FieldView>, ExifError> {
    if data.len() < offset || data.len() - offset < 2 {
        Err(ExifError::TruncatedIfdCount)
    } else {
        let count = LittleEndian::u16_at(data, offset);
        if data.len() - (offset + 2) < 12 * count {
            Err(ExifError::TruncatedIfd)
        } else {
            Ok(fields_upto::<E>(data, offset + 2, context, ifd_num, count as nat))
        }
    }
}

/// The values of the fields of a map.
pub open spec fn field_views(fields: Map<u16, Field>) -> Map<u16, FieldView> {
    fields.map_values(|f: Field| f@)
}

fn value_length(unit: usize, count: u32) -> (length: u64)
    requires
        unit <= 8,
    ensures
        length == unit * count,
{
    assert(unit * count <= 8 * 0xffff_ffff) by (nonlinear_arith)
        requires
            0 <= unit <= 8,
            0 <= count <= 0xffff_ffff,
    ;
    (unit as u64) * (count as u64)
}

/// Reads the entry of 12 bytes that starts at `offset`.
pub fn parse_ifd_entry<E: Endian>(data: &[u8], offset: usize) -> (entry: Result<
    (u16, Value),
    ExifError,
>)
    requires
        offset + 12 <= data.len(),
    ensures
        match entry {
            Ok((tag, value)) => ifd_entry::<E>(data@, offset as int) == Ok::<
                (u16, ValueView),
                ExifError,
            >((tag, value@)),
            Err(e) => ifd_entry::<E>(data@, offset as int) == Err::<(u16, ValueView), ExifError>(
                e,
            ),
        },
{
    let tag = E::loadu16(data, offset);
    let typ = E::loadu16(data, offset + 2);
    let count = E::loadu32(data, offset + 4);
    let at = offset + 8;
    let unit = get_type_info(typ);
    let length = value_length(unit, count);
    if length > usize::MAX as u64 {
        return Err(ExifError::InvalidEntryCount);
    }
    if length <= 4 {
        Ok((tag, parse_value::<E>(typ, data, at, count)))
    } else {
        let ofs = E::loadu32(data, at);
        if (data.len() as u64) < ofs as u64 || ((data.len() as u64) - (ofs as u64)) < length {
            return Err(ExifError::TruncatedFieldValue);
        }
        Ok((tag, Value::Unknown(typ, count, ofs)))
    }
}

fn pointer_tag(context: Context, tag: u16) -> (pointer: bool)
    ensures
        pointer == is_pointer_tag(context, tag),
{
    match context {
        Context::Tiff => tag == 0x8769 || tag == 0x8825,
        Context::Exif => tag == 0xa005,
        _ => false,
    }
}

/// Reads the directory that starts at `offset`.
pub fn parse_ifd<E: Endian>(data: &[u8], offset: usize, ctx: Context, ifd_num: u16) -> (fields:
    Result<HashMap<u16, Field>, ExifError>)
    ensures
        match fields {
            Ok(found) => ifd::<E>(data@, offset as int, ctx, ifd_num) == Ok::<
                Map<u16, FieldView>,
                ExifError,
            >(field_views(found@)),
            Err(e) => ifd::<E>(data@, offset as int, ctx, ifd_num) == Err::<
                Map<u16, FieldView>,
                ExifError,
            >(e),
        },
{
    if data.len() < offset || data.len() - offset < 2 {
        return Err(ExifError::TruncatedIfdCount);
    }
    let count = LittleEndian::loadu16(data, offset) as usize;
    let first = offset + 2;
    if (data.len() - first) / 12 < count {
        return Err(ExifError::TruncatedIfd);
    }
    let mut fields: HashMap<u16, Field> = HashMap::new();
    let mut k: usize = 0;
    while k < count
        invariant
            k <= count,
            first == offset + 2,
            first + 12 * count <= data.len(),
            field_views(fields@) == fields_upto::<E>(data@, first as int, ctx, ifd_num, k as nat),
        decreases count - k,
    {
        let entry = parse_ifd_entry::<E>(data, first + 12 * k);
        match entry {
            Ok((tag, value)) => {
                if !pointer_tag(ctx, tag) {
                    let field = Field { context: ctx, tag, ifd_num, value };
                    fields.insert(tag, field);
                }
            },
            Err(_) => {},
        }
        k += 1;
    }
    Ok(fields)
}

} // verus!
