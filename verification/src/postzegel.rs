//! Postzegel codes: nine ASCII alphanumeric bytes, as read by a scanner.

use vstd::prelude::*;
use crate::text::push_char;

verus! {

/// The number of bytes in a postzegel code.
pub const CODE_LEN: usize = 9;

/// A byte that may appear in a postzegel code: `a..=z`, `A..=Z` or `0..=9`.
pub open spec fn is_code_byte(c: u8) -> bool {
    ||| 0x61 <= c <= 0x7a
    ||| 0x41 <= c <= 0x5a
    ||| 0x30 <= c <= 0x39
}

/// Every byte of `code` may appear in a postzegel code.
pub open spec fn is_valid_code(code: Seq<u8>) -> bool {
    forall|i: int| 0 <= i < code.len() ==> #[trigger] is_code_byte(code[i])
}

/// The characters that a code reads as, one per byte.
pub open spec fn code_chars(code: Seq<u8>) -> Seq<char> {
    code.map_values(|b: u8| b as char)
}

/// `u8::is_ascii_lowercase`: std documents it as "checks if the value is an
/// ASCII lowercase character: U+0061 'a' ..= U+007A 'z'".
pub assume_specification[ <u8>::is_ascii_lowercase ](c: &u8) -> (r: bool)
    ensures
        r == (0x61 <= *c <= 0x7a),
;

/// `u8::is_ascii_uppercase`: std documents it as "checks if the value is an
/// ASCII uppercase character: U+0041 'A' ..= U+005A 'Z'".
pub assume_specification[ <u8>::is_ascii_uppercase ](c: &u8) -> (r: bool)
    ensures
        r == (0x41 <= *c <= 0x5a),
;

/// `u8::is_ascii_digit`: std documents it as "checks if the value is an
/// ASCII decimal digit: U+0030 '0' ..= U+0039 '9'".
pub assume_specification[ <u8>::is_ascii_digit ](c: &u8) -> (r: bool)
    ensures
        r == (0x30 <= *c <= 0x39),
;

/// Whether `c` may appear in a postzegel code (ASCII letter or digit).
pub fn is_valid_code_byte(c: u8) -> (r: bool)
    ensures
        r == is_code_byte(c),
{
    if c.is_ascii_lowercase() {
        return true;
    }
    if c.is_ascii_uppercase() {
        return true;
    }
    if c.is_ascii_digit() {
        return true;
    }
    false
}

/// One scanned postzegel: its code, which is always alphanumeric.
#[derive(Clone, Copy, Debug)]
pub struct PostzegelEvent {
    code: [u8; 9],
}

impl View for PostzegelEvent {
    type V = Seq<u8>;

    closed spec fn view(&self) -> Seq<u8> {
        self.code@
    }
}

impl PostzegelEvent {
    #[verifier::type_invariant]
    spec fn code_is_valid(self) -> bool {
        is_valid_code(self.code@)
    }

    /// The event for `code`; every byte must be an ASCII letter or digit.
    pub fn new(code: [u8; 9]) -> (e: PostzegelEvent)
        requires
            is_valid_code(code@),
        ensures
            e@ == code@,
    {
        PostzegelEvent { code }
    }

    /// The event for `code` if every byte is an ASCII letter or digit,
    /// else `None`.
    pub fn try_new(code: [u8; 9]) -> (r: Option<PostzegelEvent>)
        ensures
            r is Some <==> is_valid_code(code@),
            r matches Some(e) ==> e@ == code@,
    {
        let mut i: usize = 0;
        while i < CODE_LEN
            invariant
                i <= CODE_LEN,
                code@.len() == CODE_LEN,
                forall|j: int| 0 <= j < i ==> #[trigger] is_code_byte(code@[j]),
            decreases CODE_LEN - i,
        {
            if !is_valid_code_byte(code[i]) {
                assert(!is_code_byte(code@[i as int]));
                return None;
            }
            i = i + 1;
        }
        Some(PostzegelEvent { code })
    }

    /// The code as text, one character per byte.
    pub fn code_str(&self) -> (s: String)
        ensures
            s@ == code_chars(self@),
            s@.len() == CODE_LEN,
            is_valid_code(self@),
    {
        proof {
            use_type_invariant(self);
        }
        let mut s = String::new();
        let mut i: usize = 0;
        while i < CODE_LEN
            invariant
                i <= CODE_LEN,
                self.code@.len() == CODE_LEN,
                s@ == code_chars(self.code@.take(i as int)),
            decreases CODE_LEN - i,
        {
            let b: u8 = self.code[i];
            push_char(&mut s, b as char);
            proof {
                assert(self.code@.take(i + 1) == self.code@.take(i as int).push(b));
            }
            i = i + 1;
        }
        proof {
            assert(self.code@.take(CODE_LEN as int) == self.code@);
        }
        s
    }
}

} // verus!
