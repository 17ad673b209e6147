//! QUIC variable-length integers, in their shortest form only.

use vstd::prelude::*;

verus! {

/// The largest value that a QUIC variable-length integer carries.
pub const MAX_VARINT: u64 = 0x3fff_ffff_ffff_ffff;

/// The most bytes that one variable-length integer takes.
pub const MAX_VARINT_BYTES: usize = 8;

/// Why a value has no encoding.
#[derive(Debug, Clone, Copy, PartialEq, Eq, Structural)]
pub enum VarIntEncodeError {
    OutOfRange(u64),
}

/// Why bytes do not start with a variable-length integer.
#[derive(Debug, Clone, Copy, PartialEq, Eq, Structural)]
pub enum VarIntDecodeError {
    /// Fewer bytes are there than the integer takes.
    Incomplete { needed: usize, available: usize },
    /// A shorter encoding of the same value exists.
    NonMinimal,
}

/// The value of a byte string read with its most significant byte first.
pub open spec fn be_value(bytes: Seq<u8>) -> nat
    decreases bytes.len(),
{
    if bytes.len() == 0 {
        0
    } else {
        be_value(bytes.drop_last()) * 256 + bytes.last() as nat
    }
}

/// The `width` low bytes of a value, most significant byte first.
pub open spec fn be_bytes(value: nat, width: nat) -> Seq<u8>
    decreases width,
{
    if width == 0 {
        Seq::empty()
    } else {
        be_bytes(value / 256, (width - 1) as nat).push((value % 256) as u8)
    }
}

/// The number of bytes of the shortest encoding of `value`.
pub open spec fn varint_len(value: nat) -> nat {
    if value < 0x40 {
        1
    } else if value < 0x4000 {
        2
    } else if value < 0x4000_0000 {
        4
    } else {
        8
    }
}

/// The two length bits that an encoding of `width` bytes carries on top of its value.
pub open spec fn length_tag(width: nat) -> nat {
    if width == 1 {
        0
    } else if width == 2 {
        0x4000
    } else if width == 4 {
        0x8000_0000
    } else {
        0xc000_0000_0000_0000
    }
}

/// The width that the two top bits of a first byte announce.
pub open spec fn announced_len(first: u8) -> nat {
    if first < 0x40 {
        1
    } else if first < 0x80 {
        2
    } else if first < 0xc0 {
        4
    } else {
        8
    }
}

/// The encoding of `value`.
#[verifier::opaque]
pub open spec fn varint_bytes(value: nat) -> Seq<u8> {
    be_bytes(value + length_tag(varint_len(value)), varint_len(value))
}

/// What the front of `input` holds: a value with the bytes it took, or why there is none.
#[verifier::opaque]
pub open spec fn parse_varint(input: Seq<u8>) -> Result<(u64, usize), VarIntDecodeError> {
    if input.len() == 0 {
        Err(VarIntDecodeError::Incomplete { needed: 1, available: 0 })
    } else {
        let width = announced_len(input[0]);
        if input.len() < width {
            Err(
                VarIntDecodeError::Incomplete {
                    needed: width as usize,
                    available: input.len() as usize,
                },
            )
        } else {
            let value = be_value(input.take(width as int)) - length_tag(width);
            if varint_len(value as nat) != width {
                Err(VarIntDecodeError::NonMinimal)
            } else {
                Ok((value as u64, width as usize))
            }
        }
    }
}

pub proof fn lemma_be_bytes_len(value: nat, width: nat)
    ensures
        be_bytes(value, width).len() == width,
    decreases width,
{
    if width > 0 {
        lemma_be_bytes_len(value / 256, (width - 1) as nat);
    }
}

/// `256` to the power of `width`.
pub open spec fn byte_space(width: nat) -> nat
    decreases width,
{
    if width == 0 {
        1
    } else {
        256 * byte_space((width - 1) as nat)
    }
}

/// Reading back the bytes of a value that fits gives the value.
pub proof fn lemma_be_round_trip(value: nat, width: nat)
    requires
        value < byte_space(width),
    ensures
        be_value(be_bytes(value, width)) == value,
    decreases width,
{
    if width > 0 {
        let shorter = (width - 1) as nat;
        assert(value / 256 < byte_space(shorter)) by (nonlinear_arith)
            requires
                value < 256 * byte_space(shorter),
        ;
        lemma_be_round_trip(value / 256, shorter);
        let bytes = be_bytes(value, width);
        assert(bytes.drop_last() =~= be_bytes(value / 256, shorter));
        assert(bytes.last() as nat == value % 256);
    }
}

/// Writing out the value of a byte string gives the byte string.
pub proof fn lemma_be_canonical(bytes: Seq<u8>)
    ensures
        be_value(bytes) < byte_space(bytes.len()),
        be_bytes(be_value(bytes), bytes.len()) == bytes,
    decreases bytes.len(),
{
    if bytes.len() > 0 {
        let front = bytes.drop_last();
        lemma_be_canonical(front);
        let value = be_value(bytes);
        assert(value / 256 == be_value(front));
        assert(value % 256 == bytes.last() as nat);
        assert(value < 256 * byte_space(front.len()));
        assert(be_bytes(value, bytes.len()) =~= bytes);
    } else {
        assert(be_bytes(0, 0) =~= bytes);
    }
}

/// The value of a byte string in terms of its first byte and the rest.
proof fn lemma_be_first(bytes: Seq<u8>)
    requires
        bytes.len() > 0,
    ensures
        be_value(bytes) == bytes[0] * byte_space((bytes.len() - 1) as nat) + be_value(
            bytes.drop_first(),
        ),
    decreases bytes.len(),
{
    if bytes.len() == 1 {
        assert(bytes.drop_last() =~= Seq::empty());
        assert(bytes.drop_first() =~= Seq::empty());
        assert(be_value(bytes.drop_last()) == 0);
        assert(byte_space(0) == 1);
        assert(be_value(bytes) == bytes[0] as nat);
        assert(bytes[0] * byte_space(0) == bytes[0]) by (nonlinear_arith)
            requires
                byte_space(0) == 1,
        ;
    } else {
        let front = bytes.drop_last();
        let rest = bytes.drop_first();
        lemma_be_first(front);
        assert(front.drop_first() =~= rest.drop_last());
        let space = byte_space((front.len() - 1) as nat) as int;
        let first = bytes[0] as int;
        assert(byte_space((bytes.len() - 1) as nat) == 256 * space);
        assert((first * space) * 256 == first * (256 * space)) by (nonlinear_arith);
        assert(front[0] == bytes[0]);
        let low = be_value(rest.drop_last()) as int;
        assert(be_value(front) == first * space + low);
        assert(be_value(rest) == low * 256 + bytes.last());
    }
}

proof fn lemma_byte_spaces()
    ensures
        byte_space(0) == 1,
        byte_space(1) == 0x100,
        byte_space(2) == 0x1_0000,
        byte_space(3) == 0x100_0000,
        byte_space(4) == 0x1_0000_0000,
        byte_space(7) == 0x100_0000_0000_0000,
        byte_space(8) == 0x1_0000_0000_0000_0000,
{
    reveal_with_fuel(byte_space, 9);
}

/// Where the value of a string lies, given the width that its first byte announces.
proof fn lemma_tagged_range(bytes: Seq<u8>)
    requires
        bytes.len() > 0,
        bytes.len() == announced_len(bytes[0]),
    ensures
        bytes.len() == 1 ==> be_value(bytes) < 0x40,
        bytes.len() == 2 ==> 0x4000 <= be_value(bytes) < 0x8000,
        bytes.len() == 4 ==> 0x8000_0000 <= be_value(bytes) < 0xc000_0000,
        bytes.len() == 8 ==> 0xc000_0000_0000_0000 <= be_value(bytes) < 0x1_0000_0000_0000_0000,
{
    lemma_be_first(bytes);
    lemma_be_canonical(bytes.drop_first());
    lemma_byte_spaces();
    let first = bytes[0] as int;
    let low = be_value(bytes.drop_first()) as int;
    if bytes.len() == 1 {
        assert(be_value(bytes) == first * 1 + low);
    } else if bytes.len() == 2 {
        assert(be_value(bytes) == first * 0x100 + low);
    } else if bytes.len() == 4 {
        assert(be_value(bytes) == first * 0x100_0000 + low);
    } else {
        assert(be_value(bytes) == first * 0x100_0000_0000_0000 + low);
    }
}

/// The first byte of a tagged encoding announces its width.
pub proof fn lemma_announces(value: nat)
    requires
        value <= MAX_VARINT,
    ensures
        varint_bytes(value).len() == varint_len(value),
        announced_len(varint_bytes(value)[0]) == varint_len(value),
        be_value(varint_bytes(value)) == value + length_tag(varint_len(value)),
{
    reveal(varint_bytes);
    let width = varint_len(value);
    let tagged = value + length_tag(width);
    lemma_byte_spaces();
    lemma_be_bytes_len(tagged, width);
    lemma_be_round_trip(tagged, width);
    let bytes = varint_bytes(value);
    lemma_be_first(bytes);
    lemma_be_canonical(bytes.drop_first());
    let first = bytes[0] as int;
    let space = byte_space((width - 1) as nat) as int;
    let low = be_value(bytes.drop_first()) as int;
    assert(tagged == first * space + low);
    assert(low < space);
    if width == 1 {
        assert(tagged == first * 1 + low);
    } else if width == 2 {
        assert(tagged == first * 0x100 + low);
        assert(0x40 <= first < 0x80);
    } else if width == 4 {
        assert(tagged == first * 0x100_0000 + low);
        assert(0x80 <= first < 0xc0);
    } else {
        assert(tagged == first * 0x100_0000_0000_0000 + low);
        assert(0xc0 <= first);
    }
}

/// Decoding what was encoded gives the value back and consumes exactly its bytes,
/// whatever follows them.
pub proof fn law_varint_round_trip(value: u64, rest: Seq<u8>)
    requires
        value <= MAX_VARINT,
    ensures
        parse_varint(varint_bytes(value as nat) + rest) == Ok::<_, VarIntDecodeError>(
            (value, varint_len(value as nat) as usize),
        ),
{
    reveal(parse_varint);
    let bytes = varint_bytes(value as nat);
    let input = bytes + rest;
    lemma_announces(value as nat);
    assert(input[0] == bytes[0]);
    assert(input.take(bytes.len() as int) =~= bytes);
}

/// Only the shortest encoding decodes: what was consumed is the encoding of the value.
pub proof fn law_varint_canonical(input: Seq<u8>)
    ensures
        parse_varint(input) matches Ok((value, used)) ==> {
            &&& value <= MAX_VARINT
            &&& used == varint_len(value as nat)
            &&& used <= input.len()
            &&& input.take(used as int) == varint_bytes(value as nat)
        },
{
    reveal(parse_varint);
    reveal(varint_bytes);
    if parse_varint(input) is Ok {
        let width = announced_len(input[0]);
        let bytes = input.take(width as int);
        assert(bytes[0] == input[0]);
        lemma_tagged_range(bytes);
        lemma_be_canonical(bytes);
    }
}

/// No encoding is the start of another.
pub proof fn law_varint_prefix_free(left: u64, right: u64, rest: Seq<u8>)
    requires
        left <= MAX_VARINT,
        right <= MAX_VARINT,
        varint_bytes(left as nat) + rest == varint_bytes(right as nat),
    ensures
        left == right,
        rest.len() == 0,
{
    law_varint_round_trip(left, rest);
    law_varint_round_trip(right, Seq::empty());
    assert(varint_bytes(right as nat) + Seq::empty() =~= varint_bytes(right as nat));
    lemma_announces(left as nat);
    lemma_announces(right as nat);
}

/// A variable-length integer in its shortest form, held without allocation.
#[derive(Debug, Clone, Copy)]
pub struct EncodedVarInt {
    bytes: [u8; 8],
    len: usize,
}

impl EncodedVarInt {
    /// The bytes to put on the wire.
    pub closed spec fn view(&self) -> Seq<u8> {
        self.bytes@.take(self.len as int)
    }

    #[verifier::type_invariant]
    spec fn wf(&self) -> bool {
        1 <= self.len <= 8
    }

    pub fn len(&self) -> (len: usize)
        ensures
            len == self@.len(),
            1 <= len <= 8,
    {
        proof {
            use_type_invariant(self);
        }
        self.len
    }

    pub fn as_slice(&self) -> (bytes: &[u8])
        ensures
            bytes@ == self@,
    {
        proof {
            use_type_invariant(self);
        }
        vstd::slice::slice_subrange(self.bytes.as_slice(), 0, self.len)
    }
}

/// Encodes `value` in its shortest form.
pub fn encode_varint(value: u64) -> (encoded: Result<EncodedVarInt, VarIntEncodeError>)
    ensures
        value <= MAX_VARINT ==> encoded is Ok,
        value > MAX_VARINT ==> encoded == Err::<EncodedVarInt, _>(
            VarIntEncodeError::OutOfRange(value),
        ),
        encoded matches Ok(bytes) ==> bytes@ == varint_bytes(value as nat),
{
    if value > MAX_VARINT {
        return Err(VarIntEncodeError::OutOfRange(value));
    }
    let (len, tagged): (usize, u64) = if value < 0x40 {
        (1, value)
    } else if value < 0x4000 {
        (2, value + 0x4000)
    } else if value < 0x4000_0000 {
        (4, value + 0x8000_0000)
    } else {
        (8, value + 0xc000_0000_0000_0000)
    };
    let mut bytes: [u8; 8] = [0; 8];
    let mut left: usize = len;
    let mut high: u64 = tagged;
    proof {
        reveal(varint_bytes);
        lemma_be_bytes_len(tagged as nat, len as nat);
    }
    while left > 0
        invariant
            left <= len <= 8,
            be_bytes(high as nat, left as nat) + bytes@.subrange(left as int, len as int)
                == be_bytes(tagged as nat, len as nat),
        decreases left,
    {
        let ghost before = bytes@.subrange(left as int, len as int);
        left = left - 1;
        bytes[left] = (high % 256) as u8;
        proof {
            let front = be_bytes((high / 256) as nat, left as nat);
            assert(be_bytes(high as nat, (left + 1) as nat) == front.push((high % 256) as u8));
            assert(front.push((high % 256) as u8) + before =~= front + bytes@.subrange(
                left as int,
                len as int,
            ));
        }
        high = high / 256;
    }
    proof {
        assert(bytes@.take(len as int) =~= be_bytes(high as nat, 0) + bytes@.subrange(
            0,
            len as int,
        ));
    }
    Ok(EncodedVarInt { bytes, len })
}

/// Reads the variable-length integer at the front of `input`: its value and its width.
pub fn decode_varint(input: &[u8]) -> (decoded: Result<(u64, usize), VarIntDecodeError>)
    ensures
        decoded == parse_varint(input@),
{
    proof {
        reveal(parse_varint);
    }
    if input.len() == 0 {
        return Err(VarIntDecodeError::Incomplete { needed: 1, available: 0 });
    }
    let first: u8 = input[0];
    let width: usize = announced_width(first);
    if input.len() < width {
        return Err(VarIntDecodeError::Incomplete { needed: width, available: input.len() });
    }
    let mut value: u64 = 0;
    let mut index: usize = 0;
    proof {
        lemma_byte_spaces();
        assert(input@.take(0) =~= Seq::empty());
    }
    while index < width
        invariant
            index <= width <= 8,
            width <= input@.len(),
            value == be_value(input@.take(index as int)),
        decreases width - index,
    {
        proof {
            let next = input@.take(index + 1);
            assert(next.drop_last() =~= input@.take(index as int));
            lemma_be_canonical(next);
            lemma_space_fits((index + 1) as nat);
        }
        value = value * 256 + input[index] as u64;
        index = index + 1;
    }
    proof {
        lemma_tagged_range(input@.take(width as int));
    }
    let value: u64 = value - tag_of(width);
    if shortest_len(value) != width {
        return Err(VarIntDecodeError::NonMinimal);
    }
    Ok((value, width))
}

proof fn lemma_space_fits(width: nat)
    requires
        width <= 8,
    ensures
        byte_space(width) <= 0x1_0000_0000_0000_0000,
{
    reveal_with_fuel(byte_space, 9);
}

/// The integer at the front of `input` and what follows it.
pub open spec fn split_varint(input: Seq<u8>) -> Result<(u64, Seq<u8>), VarIntDecodeError> {
    match parse_varint(input) {
        Ok((value, used)) => Ok((value, input.skip(used as int))),
        Err(error) => Err(error),
    }
}

/// Reads the integer at `offset`: its value and the offset behind it.
pub fn read_varint(input: &[u8], offset: usize) -> (read: Result<(u64, usize), VarIntDecodeError>)
    requires
        offset <= input@.len(),
    ensures
        match split_varint(input@.skip(offset as int)) {
            Ok((value, rest)) => read matches Ok((found, next)) && found == value && offset < next
                <= input@.len() && input@.skip(next as int) == rest && value <= MAX_VARINT,
            Err(error) => read == Err::<(u64, usize), _>(error),
        },
{
    let rest = vstd::slice::slice_subrange(input, offset, input.len());
    proof {
        assert(rest@ =~= input@.skip(offset as int));
        law_varint_canonical(rest@);
    }
    match decode_varint(rest) {
        Ok((value, used)) => {
            proof {
                assert(input@.skip(offset + used) =~= rest@.skip(used as int));
            }
            Ok((value, offset + used))
        },
        Err(error) => Err(error),
    }
}

/// An integer that was just written reads back, and leaves what follows it.
pub proof fn lemma_split_written(value: u64, rest: Seq<u8>)
    requires
        value <= MAX_VARINT,
    ensures
        split_varint(varint_bytes(value as nat) + rest) == Ok::<_, VarIntDecodeError>(
            (value, rest),
        ),
        varint_bytes(value as nat).len() == varint_len(value as nat),
{
    law_varint_round_trip(value, rest);
    lemma_announces(value as nat);
    let input = varint_bytes(value as nat) + rest;
    assert(input.skip(varint_len(value as nat) as int) =~= rest);
}

/// An integer that was read is its encoding, followed by the rest.
pub proof fn lemma_split_read(input: Seq<u8>)
    ensures
        split_varint(input) matches Ok((value, rest)) ==> {
            &&& value <= MAX_VARINT
            &&& input == varint_bytes(value as nat) + rest
            &&& rest.len() < input.len()
        },
{
    law_varint_canonical(input);
    if let Ok((value, used)) = parse_varint(input) {
        assert(input =~= input.take(used as int) + input.skip(used as int));
    }
}

/// Up to `N` bytes, held without allocation.
#[derive(Debug, Clone, Copy)]
pub struct FixedBytes<const N: usize> {
    bytes: [u8; N],
    len: usize,
}

impl<const N: usize> FixedBytes<N> {
    #[verifier::type_invariant]
    spec fn wf(&self) -> bool {
        self.len <= N
    }

    /// The bytes that were written.
    pub closed spec fn view(&self) -> Seq<u8> {
        self.bytes@.take(self.len as int)
    }

    pub fn new() -> (buffer: Self)
        ensures
            buffer@ == Seq::<u8>::empty(),
    {
        let buffer = FixedBytes { bytes: [0; N], len: 0 };
        proof {
            assert(buffer@ =~= Seq::<u8>::empty());
        }
        buffer
    }

    pub fn as_slice(&self) -> (bytes: &[u8])
        ensures
            bytes@ == self@,
            bytes@.len() <= N,
    {
        proof {
            use_type_invariant(self);
        }
        vstd::slice::slice_subrange(self.bytes.as_slice(), 0, self.len)
    }

    /// The bytes followed by one more.
    pub fn with_byte(self, value: u8) -> (longer: Self)
        requires
            self@.len() < N,
        ensures
            longer@ == self@.push(value),
    {
        proof {
            use_type_invariant(&self);
        }
        let mut bytes: [u8; N] = self.bytes;
        let len: usize = self.len;
        bytes[len] = value;
        let longer = FixedBytes { bytes, len: len + 1 };
        proof {
            assert(longer@ =~= self@.push(value));
        }
        longer
    }

    /// The bytes followed by the encoding of an integer.
    pub fn with_varint(self, value: u64) -> (longer: Self)
        requires
            value <= MAX_VARINT,
            self@.len() + varint_len(value as nat) <= N,
        ensures
            longer@ == self@ + varint_bytes(value as nat),
            varint_bytes(value as nat).len() == varint_len(value as nat),
    {
        proof {
            use_type_invariant(&self);
            lemma_announces(value as nat);
        }
        let encoded = match encode_varint(value) {
            Ok(encoded) => encoded,
            Err(_) => return self,
        };
        let count: usize = encoded.len();
        let source: &[u8] = encoded.as_slice();
        let start: usize = self.len;
        let mut bytes: [u8; N] = self.bytes;
        let mut index: usize = 0;
        while index < count
            invariant
                index <= count,
                start + count <= N,
                source@.len() == count,
                bytes@.len() == N,
                bytes@.take(start as int) == self@,
                bytes@.subrange(start as int, start + index) == source@.take(index as int),
            decreases count - index,
        {
            bytes[start + index] = source[index];
            proof {
                assert(bytes@.take(start as int) =~= self@);
                assert(bytes@.subrange(start as int, start + index + 1) =~= source@.take(
                    index + 1,
                ));
            }
            index = index + 1;
        }
        let longer = FixedBytes { bytes, len: start + count };
        proof {
            assert(source@.take(count as int) =~= source@);
            assert(longer@ =~= self@ + source@);
        }
        longer
    }
}

/// The width that the first byte of an encoding announces.
pub fn announced_width(first: u8) -> (width: usize)
    ensures
        width == announced_len(first),
{
    if first < 0x40 {
        1
    } else if first < 0x80 {
        2
    } else if first < 0xc0 {
        4
    } else {
        8
    }
}

fn tag_of(width: usize) -> (tag: u64)
    ensures
        tag == length_tag(width as nat),
{
    if width == 1 {
        0
    } else if width == 2 {
        0x4000
    } else if width == 4 {
        0x8000_0000
    } else {
        0xc000_0000_0000_0000
    }
}

fn shortest_len(value: u64) -> (len: usize)
    ensures
        len == varint_len(value as nat),
{
    if value < 0x40 {
        1
    } else if value < 0x4000 {
        2
    } else if value < 0x4000_0000 {
        4
    } else {
        8
    }
}

/// What an encoding looks like: one, two, four or eight bytes, of which the two top bits of
/// the first tell the number, and the others the value, most significant first.
pub proof fn law_varint_layout(value: u64)
    requires
        value <= MAX_VARINT,
    ensures
        ({
            let bytes = varint_bytes(value as nat);
            &&& value < 64 ==> bytes.len() == 1 && bytes[0] == value
            &&& 64 <= value < 16_384 ==> {
                &&& bytes.len() == 2
                &&& bytes[0] * 256 + bytes[1] == 0x4000 + value
            }
            &&& 16_384 <= value < 0x4000_0000 ==> {
                &&& bytes.len() == 4
                &&& bytes[0] * 0x100_0000 + bytes[1] * 0x1_0000 + bytes[2] * 256 + bytes[3]
                    == 0x8000_0000 + value
            }
            &&& value >= 0x4000_0000 ==> {
                &&& bytes.len() == 8
                &&& bytes[0] * 0x100_0000_0000_0000 + bytes[1] * 0x1_0000_0000_0000 + bytes[2]
                    * 0x100_0000_0000 + bytes[3] * 0x1_0000_0000 + bytes[4] * 0x100_0000
                    + bytes[5] * 0x1_0000 + bytes[6] * 256 + bytes[7] == 0xc000_0000_0000_0000
                    + value
            }
        }),
{
    let bytes = varint_bytes(value as nat);
    lemma_announces(value as nat);
    reveal_with_fuel(be_value, 9);
    assert(be_value(bytes) == value + length_tag(varint_len(value as nat)));
}

/// What is missing is told by number: the first byte announces how many there have to be.
/// Where they are there, nothing is said to be missing.
pub proof fn law_missing_bytes_are_told(input: Seq<u8>)
    requires
        input.len() <= usize::MAX,
    ensures
        input.len() == 0 ==> parse_varint(input) == Err::<(u64, usize), _>(
            (VarIntDecodeError::Incomplete { needed: 1, available: 0 }),
        ),
        input.len() > 0 ==> {
            let needed = if input[0] < 64 {
                1
            } else if input[0] < 128 {
                2
            } else if input[0] < 192 {
                4
            } else {
                8int
            };
            &&& input.len() < needed ==> parse_varint(input) == Err::<(u64, usize), _>(
                (VarIntDecodeError::Incomplete {
                    needed: needed as usize,
                    available: input.len() as usize,
                }),
            )
            &&& input.len() >= needed ==> parse_varint(input) is Ok || parse_varint(input) == Err::<
                (u64, usize),
                _,
            >(VarIntDecodeError::NonMinimal)
        },
{
    reveal(parse_varint);
}

} // verus!
