use vstd::prelude::*;

use crate::bytes::{is_code, is_printable, lemma_printable_bytes, lemma_unpack_pack, pack};
use crate::code::{normalized, result_view, FourCharCode};
use crate::error::FccConversionError;
use vstd::string::StrSliceExecFns;

verus! {

/// A character that can stand in a code: ASCII, and not a control character.
pub open spec fn is_code_char(c: char) -> bool {
    ' ' <= c && c <= '~'
}

/// The bytes of characters that are all ASCII.
pub open spec fn ascii_bytes(s: Seq<char>) -> Seq<u8> {
    s.map_values(|c: char| c as u8)
}

/// The index of the first character of `s` that cannot stand in a code, or
/// the length of `s` when there is none.
pub open spec fn first_unprintable(s: Seq<char>) -> nat
    decreases s.len(),
{
    if s.len() == 0 {
        0
    } else if !is_code_char(s[0]) {
        0
    } else {
        1 + first_unprintable(s.drop_first())
    }
}

/// Writing `s` into a buffer with `room` free places, character by character
/// and stopping at the first failure: how many characters are taken, and the
/// error that stops the writing, if any.
pub open spec fn stream_stop(s: Seq<char>, room: nat) -> (nat, Option<FccConversionError>) {
    let f = first_unprintable(s);
    if f < s.len() && f <= room {
        (f, Some(FccConversionError::InvalidChar))
    } else if s.len() > room {
        (room, Some(FccConversionError::TooLong))
    } else {
        (s.len(), None)
    }
}

/// What building a code from the characters of `s` gives: the first
/// character that cannot stand in a code, or a fifth character, stops it; fewer
/// than four characters are too short.
pub open spec fn format_outcome(s: Seq<char>) -> Result<u32, FccConversionError> {
    let f = first_unprintable(s);
    if f < s.len() && f <= 4 {
        Err(FccConversionError::InvalidChar)
    } else if s.len() > 4 {
        Err(FccConversionError::TooLong)
    } else if s.len() < 4 {
        Err(FccConversionError::TooShort)
    } else {
        Ok(pack(ascii_bytes(s)) as u32)
    }
}

/// The characters before `first_unprintable(s)` can stand in a code, and the
/// one at that index, if any, cannot.
pub proof fn lemma_first_unprintable(s: Seq<char>)
    ensures
        first_unprintable(s) <= s.len(),
        forall|j: int| 0 <= j < first_unprintable(s) ==> is_code_char(#[trigger] s[j]),
        first_unprintable(s) < s.len() ==> !is_code_char(s[first_unprintable(s) as int]),
    decreases s.len(),
{
    if s.len() > 0 && is_code_char(s[0]) {
        lemma_first_unprintable(s.drop_first());
        assert forall|j: int| 0 <= j < first_unprintable(s) implies is_code_char(
            #[trigger] s[j],
        ) by {
            if j > 0 {
                assert(s[j] == s.drop_first()[j - 1]);
            }
        }
    }
}

/// A buffer of at most four printable bytes, filled one character at a time.
pub struct FccBuf {
    buf: [u8; 4],
    len: usize,
}

impl View for FccBuf {
    type V = Seq<u8>;

    closed spec fn view(&self) -> Seq<u8> {
        self.buf@.take(self.len as int)
    }
}

impl FccBuf {
    #[verifier::type_invariant]
    closed spec fn inv(&self) -> bool {
        &&& self.len <= 4
        &&& forall|i: int| 0 <= i < self.len ==> is_printable(#[trigger] self.buf@[i])
    }

    /// An empty buffer.
    pub fn new() -> (r: FccBuf)
        ensures
            r@ == Seq::<u8>::empty(),
    {
        let r = FccBuf { buf: [0; 4], len: 0 };
        assert(r@ =~= Seq::<u8>::empty());
        r
    }

    /// Appends one character; fails, and leaves the buffer as it was, when
    /// the character cannot stand in a code or the buffer is full.
    pub fn write_char(&mut self, c: char) -> (r: Result<(), FccConversionError>)
        ensures
            !is_code_char(c) ==> r == Err::<(), FccConversionError>(FccConversionError::InvalidChar)
                && final(self)@ == old(self)@,
            is_code_char(c) && old(self)@.len() == 4 ==> r == Err::<(), FccConversionError>(
                FccConversionError::TooLong,
            ) && final(self)@ == old(self)@,
            is_code_char(c) && old(self)@.len() < 4 ==> r is Ok && final(self)@ == old(self)@.push(
                c as u8,
            ),
    {
        proof {
            use_type_invariant(&*self);
        }
        if !(' ' <= c && c <= '~') {
            Err(FccConversionError::InvalidChar)
        } else if self.len == 4 {
            Err(FccConversionError::TooLong)
        } else {
            let mut buf = self.buf;
            buf[self.len] = c as u8;
            let next = FccBuf { buf, len: self.len + 1 };
            assert(next@ =~= old(self)@.push(c as u8));
            *self = next;
            Ok(())
        }
    }

    /// Appends the characters of `s` one by one, stopping at the first that
    /// fails.
    pub fn write_str(&mut self, s: &str) -> (r: Result<(), FccConversionError>)
        ensures
            ({
                let (n, e) = stream_stop(s@, (4 - old(self)@.len()) as nat);
                &&& final(self)@ == old(self)@ + ascii_bytes(s@.take(n as int))
                &&& r == match e {
                    Some(e) => Err(e),
                    None => Ok::<(), FccConversionError>(()),
                }
            }),
    {
        proof {
            use_type_invariant(&*self);
            lemma_first_unprintable(s@);
        }
        let ghost start = self@;
        let ghost room = (4 - start.len()) as nat;
        let n = s.unicode_len();
        let mut i: usize = 0;
        while i < n
            invariant
                n == s@.len(),
                i <= n,
                start == old(self)@,
                start.len() <= 4,
                room == 4 - start.len(),
                i <= first_unprintable(s@),
                i <= room,
                self@ == start + ascii_bytes(s@.take(i as int)),
                first_unprintable(s@) <= s@.len(),
                forall|j: int| 0 <= j < first_unprintable(s@) ==> is_code_char(#[trigger] s@[j]),
                first_unprintable(s@) < s@.len() ==> !is_code_char(
                    s@[first_unprintable(s@) as int],
                ),
            decreases n - i,
        {
            let c = s.get_char(i);
            proof {
                use_type_invariant(&*self);
            }
            assert(self@.len() == start.len() + i);
            match self.write_char(c) {
                Err(e) => {
                    proof {
                        if is_code_char(c) {
                            assert(i != first_unprintable(s@));
                            assert(i == room);
                        } else {
                            assert(i == first_unprintable(s@));
                        }
                    }
                    return Err(e);
                },
                Ok(()) => {},
            }
            assert(s@.take(i + 1) =~= s@.take(i as int).push(c));
            assert(ascii_bytes(s@.take(i + 1)) =~= ascii_bytes(s@.take(i as int)).push(c as u8));
            i += 1;
        }
        assert(s@.take(n as int) =~= s@);
        Ok(())
    }

    /// The code in the buffer, or `TooShort` when it holds fewer than four
    /// bytes.
    pub fn finish(&self) -> (r: Result<FourCharCode, FccConversionError>)
        ensures
            self@.len() < 4 ==> r == Err::<FourCharCode, FccConversionError>(
                FccConversionError::TooShort,
            ),
            self@.len() == 4 ==> result_view(r) == Ok::<u32, FccConversionError>(
                pack(self@) as u32,
            ),
            r is Ok ==> is_code(r->Ok_0@),
    {
        proof {
            use_type_invariant(self);
        }
        if self.len != 4 {
            return Err(FccConversionError::TooShort);
        }
        assert(self.buf@ =~= self@);
        let v = crate::bytes::pack_bytes(self.buf);
        proof {
            lemma_printable_bytes(self.buf@);
            lemma_unpack_pack(self.buf@);
        }
        assert(normalized(v) == v);
        Ok(FourCharCode::new_unchecked(v))
    }
}

/// Builds a code from text one character at a time, as formatting writes it:
/// fails with `InvalidChar` at the first character that is not printable
/// ASCII, with `TooLong` at a fifth character, and with `TooShort` when fewer
/// than four were written.
pub fn fcc_format(text: &str) -> (r: Result<FourCharCode, FccConversionError>)
    ensures
        result_view(r) == format_outcome(text@),
        r is Ok ==> is_code(r->Ok_0@),
{
    let mut buf = FccBuf::new();
    match buf.write_str(text) {
        Err(e) => {
            return Err(e);
        },
        Ok(()) => {},
    }
    assert(text@.take(text@.len() as int) =~= text@);
    buf.finish()
}

} // verus!
