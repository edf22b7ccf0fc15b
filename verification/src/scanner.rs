//! Events of the mock scanner, which stands in for a real code scanner.

use vstd::prelude::*;
use crate::postzegel::{is_valid_code, PostzegelEvent};

verus! {

/// The ASCII byte of decimal digit `d` (0 to 9).
pub open spec fn digit_byte(d: int) -> u8 {
    (0x30 + d) as u8
}

/// The code that mock scanner `name` sends as its `seq`-th event: the last
/// digit of its name, five zeros, an `x`, and the last two digits of `seq`.
pub open spec fn mock_code(name: u32, seq: u64) -> Seq<u8> {
    seq![
        digit_byte((name % 10) as int),
        0x30u8,
        0x30u8,
        0x30u8,
        0x30u8,
        0x30u8,
        0x78u8,
        digit_byte(((seq / 10) % 10) as int),
        digit_byte((seq % 10) as int),
    ]
}

/// A mock code reads as its scanner and sequence number: its first byte is
/// the decimal digit of `name % 10`, then come five `0`s and an `x`, and its
/// last two bytes are the two decimal digits of `seq % 100`, tens first.
/// So two events of one scanner have the same code exactly when their
/// sequence numbers agree modulo 100.
pub proof fn lemma_mock_code_reads_name_and_seq(name: u32, seq: u64)
    ensures
        mock_code(name, seq).len() == 9,
        forall|i: int|
            0 <= i < 9 && i != 6 ==> 0x30 <= #[trigger] mock_code(name, seq)[i] <= 0x39,
        mock_code(name, seq)[0] - 0x30 == name % 10,
        forall|i: int| 1 <= i < 6 ==> #[trigger] mock_code(name, seq)[i] == 0x30,
        mock_code(name, seq)[6] == 0x78,
        (mock_code(name, seq)[7] - 0x30) * 10 + (mock_code(name, seq)[8] - 0x30) == seq % 100,
{
    let x = seq as int;
    vstd::arithmetic::div_mod::lemma_mod_breakdown(x, 10, 10);
    assert(x % (10int * 10int) == 10 * ((x / 10) % 10) + x % 10);
    assert(10int * 10 == 100);
    let c = mock_code(name, seq);
    assert(c[7] == 0x30 + (x / 10) % 10);
    assert(c[8] == 0x30 + x % 10);
}

/// Two events of the same mock scanner have the same code exactly when
/// their sequence numbers agree modulo 100.
pub proof fn lemma_mock_codes_repeat_every_hundred(name: u32, seq1: u64, seq2: u64)
    ensures
        (mock_code(name, seq1) == mock_code(name, seq2)) <==> (seq1 % 100 == seq2 % 100),
{
    lemma_mock_code_reads_name_and_seq(name, seq1);
    lemma_mock_code_reads_name_and_seq(name, seq2);
    let c1 = mock_code(name, seq1);
    let c2 = mock_code(name, seq2);
    if seq1 % 100 == seq2 % 100 {
        assert((seq1 / 10) % 10 == (seq2 / 10) % 10) by {
            let x1 = seq1 as int;
            let x2 = seq2 as int;
            vstd::arithmetic::div_mod::lemma_mod_breakdown(x1, 10, 10);
            vstd::arithmetic::div_mod::lemma_mod_breakdown(x2, 10, 10);
            assert(10int * 10 == 100);
        }
        assert(seq1 % 10 == seq2 % 10) by {
            let x1 = seq1 as int;
            let x2 = seq2 as int;
            vstd::arithmetic::div_mod::lemma_mod_breakdown(x1, 10, 10);
            vstd::arithmetic::div_mod::lemma_mod_breakdown(x2, 10, 10);
            assert(10int * 10 == 100);
        }
        assert(c1 =~= c2);
    } else {
        if c1 == c2 {
            assert(c1[7] == c2[7] && c1[8] == c2[8]);
        }
    }
}

/// The `seq`-th event of mock scanner `name` (see `mock_code`); it is
/// always a valid event.
pub fn mock_event(name: u32, seq: u64) -> (e: PostzegelEvent)
    ensures
        e@ == mock_code(name, seq),
        is_valid_code(mock_code(name, seq)),
        e@[0] - 0x30 == name % 10,
        (e@[7] - 0x30) * 10 + (e@[8] - 0x30) == seq % 100,
        e@[6] == 0x78,
{
    proof {
        lemma_mock_code_reads_name_and_seq(name, seq);
    }
    let code: [u8; 9] = [
        0x30u8 + (name % 10) as u8,
        0x30u8,
        0x30u8,
        0x30u8,
        0x30u8,
        0x30u8,
        0x78u8,
        0x30u8 + ((seq / 10) % 10) as u8,
        0x30u8 + (seq % 10) as u8,
    ];
    proof {
        assert(code@ =~= mock_code(name, seq));
    }
    PostzegelEvent::new(code)
}

} // verus!
