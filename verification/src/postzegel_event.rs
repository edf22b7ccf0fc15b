//! The earlier form of the postzegel event: the same nine-byte code,
//! checked byte by byte against the letter and digit ranges, and displayed
//! character by character.

use vstd::prelude::*;
use crate::postzegel::{code_chars, is_code_byte, is_valid_code, CODE_LEN};
use crate::text::push_char;

verus! {

/// Whether `c` may appear in a postzegel code: it lies in `a..=z`,
/// `A..=Z` or `0..=9`.
pub fn is_valid_code_byte(c: u8) -> (r: bool)
    ensures
        r == is_code_byte(c),
{
    if c >= 0x61 && c <= 0x7a {
        return true;
    }
    if c >= 0x41 && c <= 0x5a {
        return true;
    }
    if c >= 0x30 && c <= 0x39 {
        return true;
    }
    false
}

/// One scanned postzegel: its code, which is always alphanumeric.
#[derive(Debug)]
pub struct PostzegelEvent {
    code: [u8; 9],
}

impl View for PostzegelEvent {
    type V = Seq<u8>;

    closed spec fn view(&self) -> Seq<u8> {
        self.code@
    }
}

impl PostzegelEvent {
    #[verifier::type_invariant]
    spec fn code_is_valid(self) -> bool {
        is_valid_code(self.code@)
    }

    /// The event for `code`; every byte must be an ASCII letter or digit.
    pub fn new(code: [u8; 9]) -> (e: PostzegelEvent)
        requires
            is_valid_code(code@),
        ensures
            e@ == code@,
    {
        PostzegelEvent { code }
    }

    /// The event for `code` if every byte is an ASCII letter or digit,
    /// else `None`.
    pub fn try_new(code: [u8; 9]) -> (r: Option<PostzegelEvent>)
        ensures
            r is Some <==> is_valid_code(code@),
            r matches Some(e) ==> e@ == code@,
    {
        let mut i: usize = 0;
        while i < CODE_LEN
            invariant
                i <= CODE_LEN,
                code@.len() == CODE_LEN,
                forall|j: int| 0 <= j < i ==> #[trigger] is_code_byte(code@[j]),
            decreases CODE_LEN - i,
        {
            if !is_valid_code_byte(code[i]) {
                assert(!is_code_byte(code@[i as int]));
                return None;
            }
            i = i + 1;
        }
        Some(PostzegelEvent { code })
    }

    /// The event as it is displayed: its code, one character per byte.
    pub fn to_display_string(&self) -> (s: String)
        ensures
            s@ == code_chars(self@),
            is_valid_code(self@),
    {
        proof {
            use_type_invariant(self);
        }
        let mut s = String::new();
        for i in 0..CODE_LEN
            invariant
                self.code@.len() == CODE_LEN,
                s@ == code_chars(self.code@.take(i as int)),
        {
            let c: u8 = self.code[i];
            push_char(&mut s, c as char);
            proof {
                assert(self.code@.take(i + 1) == self.code@.take(i as int).push(c));
            }
        }
        proof {
            assert(self.code@.take(CODE_LEN as int) == self.code@);
        }
        s
    }
}

} // verus!
