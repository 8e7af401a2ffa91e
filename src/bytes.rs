use vstd::prelude::*;

verus! {

/// A byte that is a printable ASCII character, space through tilde.
pub open spec fn is_printable(b: u8) -> bool {
    0x20 <= b && b <= 0x7e
}

/// The big-endian integer whose four bytes are `b`.
pub open spec fn pack(b: Seq<u8>) -> int {
    b[0] * 0x1000000 + b[1] * 0x10000 + b[2] * 0x100 + b[3]
}

/// The four big-endian bytes of `v`, most significant first.
pub open spec fn unpack(v: u32) -> Seq<u8> {
    seq![
        (v / 0x1000000) as u8,
        (v / 0x10000 % 0x100) as u8,
        (v / 0x100 % 0x100) as u8,
        (v % 0x100) as u8,
    ]
}

/// Byte `i` and everything after it are zero.
pub open spec fn zero_from(b: Seq<u8>, i: int) -> bool {
    forall|j: int| i <= j < b.len() ==> b[j] == 0
}

/// Four bytes that make a code: each is printable, except zeros that run on
/// to the last byte.
pub open spec fn valid_bytes(b: Seq<u8>) -> bool {
    &&& b.len() == 4
    &&& forall|i: int|
        0 <= i < 4 ==> if #[trigger] b[i] == 0 {
            zero_from(b, i)
        } else {
            is_printable(b[i])
        }
}

/// The bytes with their trailing run of zeros turned into spaces.
pub open spec fn pad_zero_tail(b: Seq<u8>) -> Seq<u8> {
    Seq::new(b.len(), |i: int| if zero_from(b, i) { 0x20u8 } else { b[i] })
}

/// A value whose four bytes are all printable.
pub open spec fn is_code(v: u32) -> bool {
    forall|i: int| 0 <= i < 4 ==> is_printable(#[trigger] unpack(v)[i])
}

/// The characters that the bytes of `v` stand for, one per byte.
pub open spec fn code_text(v: u32) -> Seq<char> {
    unpack(v).map_values(|b: u8| b as char)
}

/// `a` comes before `b` when both are read byte by byte from the start.
pub open spec fn lex_less(a: Seq<u8>, b: Seq<u8>) -> bool {
    exists|k: int|
        0 <= k < a.len() && k < b.len() && a.take(k) == b.take(k) && #[trigger] a[k] < b[k]
}

/// Unpacking a packed sequence of four bytes gives the bytes back.
pub proof fn lemma_unpack_pack(b: Seq<u8>)
    requires
        b.len() == 4,
    ensures
        0 <= pack(b) <= u32::MAX,
        unpack(pack(b) as u32) == b,
{
    let v = pack(b);
    assert(0 <= v <= u32::MAX);
    let x = v as u32;
    assert(x / 0x1000000 == b[0]);
    assert(x / 0x10000 % 0x100 == b[1]);
    assert(x / 0x100 % 0x100 == b[2]);
    assert(x % 0x100 == b[3]);
    assert(unpack(x) =~= b);
}

/// Packing the bytes of a value gives the value back.
pub proof fn lemma_pack_unpack(v: u32)
    ensures
        pack(unpack(v)) == v,
{
}

/// Packs four bytes into a big-endian integer.
pub fn pack_bytes(b: [u8; 4]) -> (v: u32)
    ensures
        v == pack(b@),
{
    (b[0] as u32) * 0x1000000 + (b[1] as u32) * 0x10000 + (b[2] as u32) * 0x100 + (b[3] as u32)
}

/// Splits a value into its four big-endian bytes.
pub fn unpack_value(v: u32) -> (b: [u8; 4])
    ensures
        b@ == unpack(v),
{
    let b = [
        (v / 0x1000000) as u8,
        (v / 0x10000 % 0x100) as u8,
        (v / 0x100 % 0x100) as u8,
        (v % 0x100) as u8,
    ];
    assert(b@ =~= unpack(v));
    b
}

/// Four printable bytes are valid and need no padding.
pub proof fn lemma_printable_bytes(b: Seq<u8>)
    requires
        b.len() == 4,
        forall|i: int| 0 <= i < 4 ==> is_printable(#[trigger] b[i]),
    ensures
        valid_bytes(b),
        pad_zero_tail(b) == b,
{
    assert(b[3] != 0);
    assert forall|i: int| 0 <= i < 4 implies !zero_from(b, i) by {
        assert(b[3] != 0);
    }
    assert(pad_zero_tail(b) =~= b);
}

} // verus!
