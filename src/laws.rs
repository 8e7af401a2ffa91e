use vstd::prelude::*;

use core::cmp::Ordering;
use vstd::std_specs::cmp::{PartialEqSpec, PartialOrdSpec};
use vstd::string::{is_ascii, is_ascii_spec_bytes, StringSliceAdditionalSpecFns};

use crate::bytes::{
    code_text, is_code, is_printable, lemma_pack_unpack, lemma_printable_bytes, lex_less, pack,
    unpack,
};
use crate::code::{bytes_outcome, slice_outcome, FourCharCode};
use crate::error::FccConversionError;
use crate::format::{
    ascii_bytes, first_unprintable, format_outcome, is_code_char, lemma_first_unprintable,
};

verus! {

/// Four printable bytes always make a code, and its value is their
/// big-endian packing.
pub proof fn lemma_printable_bytes_accepted(b: Seq<u8>)
    requires
        b.len() == 4,
        forall|i: int| 0 <= i < 4 ==> is_printable(#[trigger] b[i]),
    ensures
        bytes_outcome(b) == Ok::<u32, FccConversionError>(pack(b) as u32),
{
    lemma_printable_bytes(b);
}

/// Text whose UTF-8 form is not four bytes long is refused for its length
/// alone: shorter is `TooShort`, longer is `TooLong`.
pub proof fn lemma_wrong_length(s: &str)
    requires
        s.spec_bytes().len() != 4,
    ensures
        s.spec_bytes().len() < 4 ==> slice_outcome(s.spec_bytes())
            == Err::<u32, FccConversionError>(FccConversionError::TooShort),
        s.spec_bytes().len() > 4 ==> slice_outcome(s.spec_bytes())
            == Err::<u32, FccConversionError>(FccConversionError::TooLong),
{
}

/// The text of a code reads back as the same code.
pub proof fn lemma_text_round_trip(c: FourCharCode, s: &str)
    requires
        is_code(c@),
        s@ == code_text(c@),
    ensures
        slice_outcome(s.spec_bytes()) == Ok::<u32, FccConversionError>(c@),
{
    let b = unpack(c@);
    assert(is_ascii(s)) by {
        assert forall|i: int| 0 <= i < s@.len() implies '\0' <= #[trigger] s@[i] <= '\u{7f}' by {
            assert(is_printable(b[i]));
        }
    }
    is_ascii_spec_bytes(s);
    assert(s.spec_bytes() =~= b);
    lemma_printable_bytes(b);
    lemma_pack_unpack(c@);
}

/// For four bytes, the larger packing is exactly the later one in byte-wise
/// lexicographic order.
pub proof fn lemma_pack_order(a: Seq<u8>, b: Seq<u8>)
    requires
        a.len() == 4,
        b.len() == 4,
    ensures
        pack(a) < pack(b) <==> lex_less(a, b),
{
    if lex_less(a, b) {
        let k = choose|k: int|
            0 <= k < a.len() && k < b.len() && a.take(k) == b.take(k) && #[trigger] a[k] < b[k];
        assert forall|j: int| 0 <= j < k implies a[j] == b[j] by {
            assert(a.take(k)[j] == b.take(k)[j]);
        }
    }
    if pack(a) < pack(b) {
        if a[0] != b[0] {
            assert(a.take(0) =~= b.take(0));
            assert(a[0] < b[0]);
        } else if a[1] != b[1] {
            assert(a.take(1) =~= b.take(1));
            assert(a[1] < b[1]);
        } else if a[2] != b[2] {
            assert(a.take(2) =~= b.take(2));
            assert(a[2] < b[2]);
        } else {
            assert(a.take(3) =~= b.take(3));
            assert(a[3] < b[3]);
        }
    }
}

/// Codes are ordered as their integers, and so as their four bytes read
/// lexicographically.
pub proof fn lemma_order(c1: FourCharCode, c2: FourCharCode)
    ensures
        c1.partial_cmp_spec(&c2) == Some(Ordering::Less) <==> c1@ < c2@,
        c1@ < c2@ <==> lex_less(unpack(c1@), unpack(c2@)),
{
    lemma_pack_unpack(c1@);
    lemma_pack_unpack(c2@);
    lemma_pack_order(unpack(c1@), unpack(c2@));
}

/// A byte slice that does not convert to a code is never equal to one, and
/// is not ordered against it.
pub proof fn lemma_unconvertible_slice(c: FourCharCode, other: &[u8])
    requires
        slice_outcome(other@) is Err,
    ensures
        !c.eq_spec(other),
        c.partial_cmp_spec(other) is None,
{
}

/// Text that does not convert to a code is never equal to one, and is not
/// ordered against it.
pub proof fn lemma_unconvertible_text(c: FourCharCode, other: &str)
    requires
        slice_outcome(other.spec_bytes()) is Err,
    ensures
        !c.eq_spec(other),
        c.partial_cmp_spec(other) is None,
{
}

/// Building a code character by character gives what reading the same four
/// printable characters as text gives.
pub proof fn lemma_format_matches_text(s: &str)
    requires
        s@.len() == 4,
        forall|i: int| 0 <= i < 4 ==> is_code_char(#[trigger] s@[i]),
    ensures
        format_outcome(s@) == slice_outcome(s.spec_bytes()),
{
    lemma_first_unprintable(s@);
    assert(first_unprintable(s@) == 4) by {
        if first_unprintable(s@) < 4 {
            assert(is_code_char(s@[first_unprintable(s@) as int]));
        }
    }
    assert(is_ascii(s));
    is_ascii_spec_bytes(s);
    let b = ascii_bytes(s@);
    assert(s.spec_bytes() =~= b);
    assert forall|i: int| 0 <= i < 4 implies is_printable(#[trigger] b[i]) by {
        assert(is_code_char(s@[i]));
    }
    lemma_printable_bytes(b);
}

} // verus!
