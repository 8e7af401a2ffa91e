use vstd::prelude::*;

use core::cmp::Ordering;
use vstd::string::{is_ascii, is_ascii_spec_bytes, StringSliceAdditionalSpecFns};

use crate::bytes::{
    code_text, is_code, is_printable, lemma_printable_bytes, lemma_unpack_pack, pack, pack_bytes,
    pad_zero_tail, unpack, unpack_value, valid_bytes, zero_from,
};
use crate::error::FccConversionError;

verus! {

/// A four-character code: a `u32` whose four big-endian bytes are printable
/// ASCII characters, read from the most significant byte.
#[derive(Debug, Clone, Copy, PartialEq, Eq, Structural, Ord, Hash)]
pub struct FourCharCode(u32);

impl View for FourCharCode {
    type V = u32;

    closed spec fn view(&self) -> u32 {
        self.0
    }
}

/// What a checked construction from four bytes gives.
pub open spec fn bytes_outcome(b: Seq<u8>) -> Result<u32, FccConversionError> {
    if valid_bytes(b) {
        Ok(pack(pad_zero_tail(b)) as u32)
    } else {
        Err(FccConversionError::InvalidChar)
    }
}

/// What a checked construction from a byte slice of any length gives.
pub open spec fn slice_outcome(b: Seq<u8>) -> Result<u32, FccConversionError> {
    if b.len() < 4 {
        Err(FccConversionError::TooShort)
    } else if b.len() > 4 {
        Err(FccConversionError::TooLong)
    } else {
        bytes_outcome(b)
    }
}

/// The value of a code inside a result, the error as it is.
pub open spec fn result_view(r: Result<FourCharCode, FccConversionError>) -> Result<
    u32,
    FccConversionError,
> {
    match r {
        Ok(c) => Ok(c@),
        Err(e) => Err(e),
    }
}

/// The value with the run of zero bytes at its end turned into spaces.
pub open spec fn normalized(v: u32) -> u32 {
    pack(pad_zero_tail(unpack(v))) as u32
}

/// Padding valid bytes leaves four printable bytes that pack into a code.
pub proof fn lemma_padded_is_code(b: Seq<u8>)
    requires
        valid_bytes(b),
    ensures
        0 <= pack(pad_zero_tail(b)) <= u32::MAX,
        unpack(pack(pad_zero_tail(b)) as u32) == pad_zero_tail(b),
        is_code(pack(pad_zero_tail(b)) as u32),
{
    let p = pad_zero_tail(b);
    lemma_unpack_pack(p);
    assert forall|i: int| 0 <= i < 4 implies is_printable(#[trigger] p[i]) by {
        if b[i] == 0 {
        } else {
            assert(!zero_from(b, i));
        }
    }
}

/// Checks four bytes from the last to the first; zeros at the end become
/// spaces, and the result is their big-endian packing.
fn from_bytes(bytes: [u8; 4]) -> (r: Result<FourCharCode, FccConversionError>)
    ensures
        result_view(r) == bytes_outcome(bytes@),
        r is Ok ==> is_code(r->Ok_0@),
{
    let ghost orig = bytes@;
    let mut work = bytes;
    let mut null_streak = true;
    let mut i: usize = 4;
    while i > 0
        invariant
            i <= 4,
            work@.len() == 4,
            orig == bytes@,
            orig.len() == 4,
            null_streak == zero_from(orig, i as int),
            forall|j: int| 0 <= j < i ==> work@[j] == orig[j],
            forall|j: int| i <= j < 4 ==> work@[j] == #[trigger] pad_zero_tail(orig)[j],
            forall|j: int|
                i <= j < 4 ==> if #[trigger] orig[j] == 0 {
                    zero_from(orig, j)
                } else {
                    is_printable(orig[j])
                },
        decreases i,
    {
        i -= 1;
        let mut c = work[i];
        if c == 0 {
            if null_streak {
                c = 0x20;
                work[i] = c;
            } else {
                assert(!zero_from(orig, i as int)) by {
                    if zero_from(orig, i as int) {
                        assert(zero_from(orig, i + 1));
                    }
                }
                assert(orig[i as int] == 0);
                assert(!valid_bytes(orig));
                return Err(FccConversionError::InvalidChar);
            }
        } else {
            assert(orig[i as int] != 0);
            assert(!zero_from(orig, i as int));
            null_streak = false;
        }
        if c <= 0x1f || c >= 0x7f {
            assert(orig[i as int] != 0);
            assert(!valid_bytes(orig));
            return Err(FccConversionError::InvalidChar);
        }
    }
    assert(valid_bytes(orig));
    assert(work@ =~= pad_zero_tail(orig));
    proof {
        lemma_padded_is_code(orig);
    }
    Ok(FourCharCode(pack_bytes(work)))
}

/// The ordering of two values as integers.
pub open spec fn int_order(a: u32, b: u32) -> Ordering {
    if a < b {
        Ordering::Less
    } else if a == b {
        Ordering::Equal
    } else {
        Ordering::Greater
    }
}

/// Orders two values as integers.
fn compare(a: u32, b: u32) -> (r: Ordering)
    ensures
        r == int_order(a, b),
{
    if a < b {
        Ordering::Less
    } else if a == b {
        Ordering::Equal
    } else {
        Ordering::Greater
    }
}

impl PartialOrd for FourCharCode {
    fn partial_cmp(&self, other: &FourCharCode) -> (r: Option<Ordering>)
        ensures
            r == Some(int_order(self@, other@)),
    {
        Some(compare(self.0, other.0))
    }
}

impl vstd::std_specs::cmp::PartialOrdSpecImpl for FourCharCode {
    open spec fn obeys_partial_cmp_spec() -> bool {
        true
    }

    open spec fn partial_cmp_spec(&self, other: &FourCharCode) -> Option<Ordering> {
        Some(int_order(self@, other@))
    }
}

/// Turns the run of zero bytes at the end of a value into spaces, scanning
/// from the last byte until the first non-zero one.
fn normalize_value(value: u32) -> (r: u32)
    ensures
        r == normalized(value),
{
    let ghost orig = unpack(value);
    let mut bytes = unpack_value(value);
    let mut i: usize = 4;
    while i > 0
        invariant
            i <= 4,
            bytes@.len() == 4,
            orig == unpack(value),
            orig.len() == 4,
            zero_from(orig, i as int),
            forall|j: int| 0 <= j < i ==> bytes@[j] == orig[j],
            forall|j: int| i <= j < 4 ==> bytes@[j] == #[trigger] pad_zero_tail(orig)[j],
        decreases i,
    {
        if bytes[i - 1] != 0 {
            assert forall|j: int| 0 <= j < i implies !zero_from(orig, j) by {
                assert(orig[i - 1] != 0);
            }
            assert(bytes@ =~= pad_zero_tail(orig));
            proof {
                lemma_unpack_pack(pad_zero_tail(orig));
            }
            return pack_bytes(bytes);
        }
        i -= 1;
        bytes[i] = 0x20;
    }
    assert(bytes@ =~= pad_zero_tail(orig));
    proof {
        lemma_unpack_pack(pad_zero_tail(orig));
    }
    pack_bytes(bytes)
}

/// Relies on String::push: the character is appended at the end.
#[verifier::external_body]
fn push_char(s: &mut String, c: char)
    ensures
        final(s)@ == old(s)@.push(c),
{
    s.push(c);
}

/// Four spaces, the code a default value holds.
pub const SPACES: u32 = 0x20202020;

impl FourCharCode {
    /// The code whose big-endian bytes are those of `value`, checked as
    /// [`FourCharCode::from_array`] checks them.
    pub fn new(value: u32) -> (r: Result<FourCharCode, FccConversionError>)
        ensures
            result_view(r) == bytes_outcome(unpack(value)),
            r is Ok ==> is_code(r->Ok_0@),
    {
        from_bytes(unpack_value(value))
    }

    /// The code holding `value` with its trailing zero bytes made spaces,
    /// without a check: the caller guarantees that those bytes are valid.
    pub fn new_unchecked(value: u32) -> (r: FourCharCode)
        requires
            valid_bytes(unpack(value)),
        ensures
            r@ == normalized(value),
            bytes_outcome(unpack(value)) == Ok::<u32, FccConversionError>(r@),
            is_code(r@),
    {
        proof {
            lemma_padded_is_code(unpack(value));
        }
        FourCharCode(normalize_value(value))
    }

    /// The code made of four bytes, zeros at the end read as spaces.
    pub fn from_array(value: [u8; 4]) -> (r: Result<FourCharCode, FccConversionError>)
        ensures
            result_view(r) == bytes_outcome(value@),
            r is Ok ==> is_code(r->Ok_0@),
    {
        from_bytes(value)
    }

    /// The code made of a slice that must hold exactly four bytes.
    pub fn from_slice(value: &[u8]) -> (r: Result<FourCharCode, FccConversionError>)
        ensures
            result_view(r) == slice_outcome(value@),
            r is Ok ==> is_code(r->Ok_0@),
    {
        if value.len() < 4 {
            return Err(FccConversionError::TooShort);
        } else if value.len() > 4 {
            return Err(FccConversionError::TooLong);
        }
        let b = [value[0], value[1], value[2], value[3]];
        assert(b@ =~= value@);
        from_bytes(b)
    }

    /// The code made of the UTF-8 bytes of `value`.
    pub fn from_str(value: &str) -> (r: Result<FourCharCode, FccConversionError>)
        ensures
            result_view(r) == slice_outcome(value.spec_bytes()),
            r is Ok ==> is_code(r->Ok_0@),
    {
        FourCharCode::from_slice(value.as_bytes())
    }

    /// The packed big-endian value.
    pub fn to_u32(&self) -> (r: u32)
        ensures
            r == self@,
    {
        self.0
    }

    /// Turns the run of zero bytes at the end of the value into spaces.
    pub fn normalize(&mut self)
        ensures
            final(self)@ == normalized(old(self)@),
    {
        self.0 = normalize_value(self.0);
    }

    /// The four characters of the code, from the most significant byte.
    pub fn to_string(&self) -> (r: String)
        ensures
            r@ == code_text(self@),
    {
        let b = unpack_value(self.0);
        let mut s = String::new();
        push_char(&mut s, b[0] as char);
        push_char(&mut s, b[1] as char);
        push_char(&mut s, b[2] as char);
        push_char(&mut s, b[3] as char);
        assert(s@ =~= code_text(self@));
        s
    }
}

impl Default for FourCharCode {
    fn default() -> (r: FourCharCode)
        ensures
            r@ == SPACES,
    {
        let spaces = "    ";
        proof {
            reveal_strlit("    ");
            assert(is_ascii(spaces));
            is_ascii_spec_bytes(spaces);
            let b = spaces.spec_bytes();
            assert(b =~= seq![0x20u8, 0x20, 0x20, 0x20]);
            lemma_printable_bytes(b);
        }
        four_char_code(spaces)
    }
}

/// The code spelled by a literal that is known to be valid, such as
/// `four_char_code("hex_")`; a caller must show that the literal is four
/// bytes of a valid code before the call can stand.
pub fn four_char_code(literal: &str) -> (r: FourCharCode)
    requires
        slice_outcome(literal.spec_bytes()) is Ok,
    ensures
        slice_outcome(literal.spec_bytes()) == Ok::<u32, FccConversionError>(r@),
        is_code(r@),
{
    FourCharCode::from_str(literal).unwrap()
}

/// A code equals another representation when that one converts, by the
/// checked path, to the same value.
pub open spec fn same_code(v: u32, o: Result<u32, FccConversionError>) -> bool {
    o == Ok::<u32, FccConversionError>(v)
}

/// A code is ordered against another representation only when that one
/// converts, and then as integers.
pub open spec fn order_against(v: u32, o: Result<u32, FccConversionError>) -> Option<Ordering> {
    match o {
        Ok(w) => Some(int_order(v, w)),
        Err(_) => None,
    }
}

impl FourCharCode {
    /// Whether the other side converted, and to this code.
    fn eq_checked(&self, other: Result<FourCharCode, FccConversionError>) -> (r: bool)
        ensures
            r == same_code(self@, result_view(other)),
    {
        match other {
            Ok(c) => self.0 == c.0,
            Err(_) => false,
        }
    }

    /// How this code orders against the other side, if that converted.
    fn cmp_checked(&self, other: Result<FourCharCode, FccConversionError>) -> (r: Option<Ordering>)
        ensures
            r == order_against(self@, result_view(other)),
    {
        match other {
            Ok(c) => Some(compare(self.0, c.0)),
            Err(_) => None,
        }
    }
}

impl PartialEq<u32> for FourCharCode {
    fn eq(&self, other: &u32) -> (r: bool)
        ensures
            r == same_code(self@, bytes_outcome(unpack(*other))),
    {
        self.eq_checked(FourCharCode::new(*other))
    }
}

impl vstd::std_specs::cmp::PartialEqSpecImpl<u32> for FourCharCode {
    open spec fn obeys_eq_spec() -> bool {
        true
    }

    open spec fn eq_spec(&self, other: &u32) -> bool {
        same_code(self@, bytes_outcome(unpack(*other)))
    }
}

impl PartialOrd<u32> for FourCharCode {
    fn partial_cmp(&self, other: &u32) -> (r: Option<Ordering>)
        ensures
            r == order_against(self@, bytes_outcome(unpack(*other))),
    {
        self.cmp_checked(FourCharCode::new(*other))
    }
}

impl vstd::std_specs::cmp::PartialOrdSpecImpl<u32> for FourCharCode {
    open spec fn obeys_partial_cmp_spec() -> bool {
        true
    }

    open spec fn partial_cmp_spec(&self, other: &u32) -> Option<Ordering> {
        order_against(self@, bytes_outcome(unpack(*other)))
    }
}

impl PartialEq<[u8; 4]> for FourCharCode {
    fn eq(&self, other: &[u8; 4]) -> (r: bool)
        ensures
            r == same_code(self@, bytes_outcome(other@)),
    {
        self.eq_checked(FourCharCode::from_array(*other))
    }
}

impl vstd::std_specs::cmp::PartialEqSpecImpl<[u8; 4]> for FourCharCode {
    open spec fn obeys_eq_spec() -> bool {
        true
    }

    open spec fn eq_spec(&self, other: &[u8; 4]) -> bool {
        same_code(self@, bytes_outcome(other@))
    }
}

impl PartialOrd<[u8; 4]> for FourCharCode {
    fn partial_cmp(&self, other: &[u8; 4]) -> (r: Option<Ordering>)
        ensures
            r == order_against(self@, bytes_outcome(other@)),
    {
        self.cmp_checked(FourCharCode::from_array(*other))
    }
}

impl vstd::std_specs::cmp::PartialOrdSpecImpl<[u8; 4]> for FourCharCode {
    open spec fn obeys_partial_cmp_spec() -> bool {
        true
    }

    open spec fn partial_cmp_spec(&self, other: &[u8; 4]) -> Option<Ordering> {
        order_against(self@, bytes_outcome(other@))
    }
}

impl PartialEq<[u8]> for FourCharCode {
    fn eq(&self, other: &[u8]) -> (r: bool)
        ensures
            r == same_code(self@, slice_outcome(other@)),
    {
        self.eq_checked(FourCharCode::from_slice(other))
    }
}

impl vstd::std_specs::cmp::PartialEqSpecImpl<[u8]> for FourCharCode {
    open spec fn obeys_eq_spec() -> bool {
        true
    }

    open spec fn eq_spec(&self, other: &[u8]) -> bool {
        same_code(self@, slice_outcome(other@))
    }
}

impl PartialOrd<[u8]> for FourCharCode {
    fn partial_cmp(&self, other: &[u8]) -> (r: Option<Ordering>)
        ensures
            r == order_against(self@, slice_outcome(other@)),
    {
        self.cmp_checked(FourCharCode::from_slice(other))
    }
}

impl vstd::std_specs::cmp::PartialOrdSpecImpl<[u8]> for FourCharCode {
    open spec fn obeys_partial_cmp_spec() -> bool {
        true
    }

    open spec fn partial_cmp_spec(&self, other: &[u8]) -> Option<Ordering> {
        order_against(self@, slice_outcome(other@))
    }
}

impl PartialEq<&[u8]> for FourCharCode {
    fn eq(&self, other: &&[u8]) -> (r: bool)
        ensures
            r == same_code(self@, slice_outcome(other@)),
    {
        self.eq_checked(FourCharCode::from_slice(*other))
    }
}

impl vstd::std_specs::cmp::PartialEqSpecImpl<&[u8]> for FourCharCode {
    open spec fn obeys_eq_spec() -> bool {
        true
    }

    open spec fn eq_spec(&self, other: &&[u8]) -> bool {
        same_code(self@, slice_outcome(other@))
    }
}

impl PartialOrd<&[u8]> for FourCharCode {
    fn partial_cmp(&self, other: &&[u8]) -> (r: Option<Ordering>)
        ensures
            r == order_against(self@, slice_outcome(other@)),
    {
        self.cmp_checked(FourCharCode::from_slice(*other))
    }
}

impl vstd::std_specs::cmp::PartialOrdSpecImpl<&[u8]> for FourCharCode {
    open spec fn obeys_partial_cmp_spec() -> bool {
        true
    }

    open spec fn partial_cmp_spec(&self, other: &&[u8]) -> Option<Ordering> {
        order_against(self@, slice_outcome(other@))
    }
}

impl PartialEq<str> for FourCharCode {
    fn eq(&self, other: &str) -> (r: bool)
        ensures
            r == same_code(self@, slice_outcome(other.spec_bytes())),
    {
        self.eq_checked(FourCharCode::from_str(other))
    }
}

impl vstd::std_specs::cmp::PartialEqSpecImpl<str> for FourCharCode {
    open spec fn obeys_eq_spec() -> bool {
        true
    }

    open spec fn eq_spec(&self, other: &str) -> bool {
        same_code(self@, slice_outcome(other.spec_bytes()))
    }
}

impl PartialOrd<str> for FourCharCode {
    fn partial_cmp(&self, other: &str) -> (r: Option<Ordering>)
        ensures
            r == order_against(self@, slice_outcome(other.spec_bytes())),
    {
        self.cmp_checked(FourCharCode::from_str(other))
    }
}

impl vstd::std_specs::cmp::PartialOrdSpecImpl<str> for FourCharCode {
    open spec fn obeys_partial_cmp_spec() -> bool {
        true
    }

    open spec fn partial_cmp_spec(&self, other: &str) -> Option<Ordering> {
        order_against(self@, slice_outcome(other.spec_bytes()))
    }
}

impl PartialEq<&str> for FourCharCode {
    fn eq(&self, other: &&str) -> (r: bool)
        ensures
            r == same_code(self@, slice_outcome(other.spec_bytes())),
    {
        self.eq_checked(FourCharCode::from_str(*other))
    }
}

impl vstd::std_specs::cmp::PartialEqSpecImpl<&str> for FourCharCode {
    open spec fn obeys_eq_spec() -> bool {
        true
    }

    open spec fn eq_spec(&self, other: &&str) -> bool {
        same_code(self@, slice_outcome(other.spec_bytes()))
    }
}

impl PartialOrd<&str> for FourCharCode {
    fn partial_cmp(&self, other: &&str) -> (r: Option<Ordering>)
        ensures
            r == order_against(self@, slice_outcome(other.spec_bytes())),
    {
        self.cmp_checked(FourCharCode::from_str(*other))
    }
}

impl vstd::std_specs::cmp::PartialOrdSpecImpl<&str> for FourCharCode {
    open spec fn obeys_partial_cmp_spec() -> bool {
        true
    }

    open spec fn partial_cmp_spec(&self, other: &&str) -> Option<Ordering> {
        order_against(self@, slice_outcome(other.spec_bytes()))
    }
}

impl From<FourCharCode> for u32 {
    fn from(value: FourCharCode) -> (r: u32)
        ensures
            r == value@,
    {
        value.0
    }
}

impl vstd::std_specs::convert::FromSpecImpl<FourCharCode> for u32 {
    open spec fn obeys_from_spec() -> bool {
        true
    }

    open spec fn from_spec(value: FourCharCode) -> u32 {
        value@
    }
}

} // verus!
