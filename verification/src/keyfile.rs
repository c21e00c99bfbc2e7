//! Parsing of the wallet key file: a JSON array of unsigned bytes.
//!
//! The accepted texts are exactly those matching the JSON grammar for an
//! array of integers in `0..=255`: optional whitespace, `[`, a
//! comma-separated list of numbers (each `0` or a digit string without a
//! leading zero), `]`, optional trailing whitespace. The grammar is stated
//! as a character-by-character transition function, and the parser is
//! proved to return exactly the bytes that the grammar assigns to the text.

use vstd::prelude::*;
use crate::numio::{digit_val, is_digit};

verus! {

/// Whether `c` is JSON whitespace.
pub open spec fn is_json_ws(c: char) -> bool {
    c == ' ' || c == '\t' || c == '\n' || c == '\r'
}

/// The scanner's state while reading a key file, with the bytes
/// accumulated so far.
pub enum KeyScan {
    /// Nothing but whitespace seen yet; the opening bracket is still owed.
    Start,
    /// The opening bracket was read; a first number or `]` may follow.
    Open,
    /// Inside a number: bytes read before it, its value so far, and
    /// whether its first digit was a zero (a zero may not be followed by
    /// further digits).
    Num { acc: Seq<u8>, cur: int, lead_zero: bool },
    /// A number was just closed by whitespace; `,` or `]` may follow.
    AfterNum { acc: Seq<u8> },
    /// A comma was read; another number is owed.
    AfterComma { acc: Seq<u8> },
    /// The closing bracket was read; only whitespace may follow.
    Closed { acc: Seq<u8> },
    /// The text left the grammar.
    Bad,
}

/// One step of the key-file grammar.
pub open spec fn kf_step(st: KeyScan, c: char) -> KeyScan {
    match st {
        KeyScan::Start => {
            if is_json_ws(c) {
                KeyScan::Start
            } else if c == '[' {
                KeyScan::Open
            } else {
                KeyScan::Bad
            }
        },
        KeyScan::Open => {
            if is_json_ws(c) {
                KeyScan::Open
            } else if c == ']' {
                KeyScan::Closed { acc: Seq::empty() }
            } else if is_digit(c) {
                KeyScan::Num { acc: Seq::empty(), cur: digit_val(c), lead_zero: c == '0' }
            } else {
                KeyScan::Bad
            }
        },
        KeyScan::Num { acc, cur, lead_zero } => {
            if is_digit(c) {
                if lead_zero || cur * 10 + digit_val(c) > 255 {
                    KeyScan::Bad
                } else {
                    KeyScan::Num { acc, cur: cur * 10 + digit_val(c), lead_zero: false }
                }
            } else if is_json_ws(c) {
                KeyScan::AfterNum { acc: acc.push(cur as u8) }
            } else if c == ',' {
                KeyScan::AfterComma { acc: acc.push(cur as u8) }
            } else if c == ']' {
                KeyScan::Closed { acc: acc.push(cur as u8) }
            } else {
                KeyScan::Bad
            }
        },
        KeyScan::AfterNum { acc } => {
            if is_json_ws(c) {
                KeyScan::AfterNum { acc }
            } else if c == ',' {
                KeyScan::AfterComma { acc }
            } else if c == ']' {
                KeyScan::Closed { acc }
            } else {
                KeyScan::Bad
            }
        },
        KeyScan::AfterComma { acc } => {
            if is_json_ws(c) {
                KeyScan::AfterComma { acc }
            } else if is_digit(c) {
                KeyScan::Num { acc, cur: digit_val(c), lead_zero: c == '0' }
            } else {
                KeyScan::Bad
            }
        },
        KeyScan::Closed { acc } => {
            if is_json_ws(c) {
                KeyScan::Closed { acc }
            } else {
                KeyScan::Bad
            }
        },
        KeyScan::Bad => KeyScan::Bad,
    }
}

/// The scanner state after reading all of `s`.
pub open spec fn kf_run(s: Seq<char>) -> KeyScan
    decreases s.len(),
{
    if s.len() == 0 {
        KeyScan::Start
    } else {
        kf_step(kf_run(s.drop_last()), s.last())
    }
}

/// The bytes that the key-file grammar assigns to `s`, if `s` is a
/// well-formed JSON array of bytes.
pub open spec fn key_bytes_of(s: Seq<char>) -> Option<Seq<u8>> {
    match kf_run(s) {
        KeyScan::Closed { acc } => Some(acc),
        _ => None,
    }
}

/// Once the scanner has left the grammar it never recovers.
proof fn lemma_bad_absorbing(s: Seq<char>, i: int)
    requires
        0 <= i <= s.len(),
        kf_run(s.take(i)) is Bad,
    ensures
        kf_run(s) is Bad,
    decreases s.len() - i,
{
    if i == s.len() {
        assert(s.take(i) =~= s);
    } else {
        assert(s.take(i + 1).drop_last() =~= s.take(i));
        assert(s.take(i + 1).last() == s[i]);
        lemma_bad_absorbing(s, i + 1);
    }
}

/// The executable scanner state: the tag of `KeyScan`, with the
/// accumulated bytes kept in a separate vector.
#[derive(Clone, Copy)]
enum ScanState {
    Start,
    Open,
    Num { cur: u16, lead_zero: bool },
    AfterNum,
    AfterComma,
    Closed,
}

/// What the executable state, together with the accumulated bytes, stands
/// for.
spec fn abs_state(st: ScanState, acc: Seq<u8>) -> KeyScan {
    match st {
        ScanState::Start => KeyScan::Start,
        ScanState::Open => KeyScan::Open,
        ScanState::Num { cur, lead_zero } => KeyScan::Num {
            acc,
            cur: cur as int,
            lead_zero,
        },
        ScanState::AfterNum => KeyScan::AfterNum { acc },
        ScanState::AfterComma => KeyScan::AfterComma { acc },
        ScanState::Closed => KeyScan::Closed { acc },
    }
}

/// Whether `c` is JSON whitespace, as executable code.
fn ws_char(c: char) -> (r: bool)
    ensures
        r == is_json_ws(c),
{
    c == ' ' || c == '\t' || c == '\n' || c == '\r'
}

/// Parses a key file. Returns the byte array exactly when the text is a
/// well-formed JSON array of integers in `0..=255`; returns `None`
/// otherwise.
pub fn parse_key_json(s: &str) -> (r: Option<Vec<u8>>)
    ensures
        match r {
            Some(v) => key_bytes_of(s@) == Some(v@),
            None => key_bytes_of(s@) is None,
        },
{
    let n = s.unicode_len();
    let mut st = ScanState::Start;
    let mut acc: Vec<u8> = Vec::new();
    let mut i: usize = 0;
    while i < n
        invariant
            n == s@.len(),
            0 <= i <= n,
            abs_state(st, acc@) == kf_run(s@.take(i as int)),
            st matches ScanState::Num { cur, lead_zero } ==> cur <= 255,
            st is Start || st is Open ==> acc@ == Seq::<u8>::empty(),
        decreases n - i,
    {
        let c = s.get_char(i);
        proof {
            assert(s@.take(i as int + 1).drop_last() =~= s@.take(i as int));
            assert(s@.take(i as int + 1).last() == s@[i as int]);
        }
        let digit = c >= '0' && c <= '9';
        match st {
            ScanState::Start => {
                if ws_char(c) {
                    // stay
                } else if c == '[' {
                    st = ScanState::Open;
                } else {
                    proof {
                        lemma_bad_absorbing(s@, i as int + 1);
                    }
                    return None;
                }
            },
            ScanState::Open => {
                if ws_char(c) {
                    // stay
                } else if c == ']' {
                    st = ScanState::Closed;
                } else if digit {
                    let d = (c as u32 - '0' as u32) as u16;
                    st = ScanState::Num { cur: d, lead_zero: c == '0' };
                } else {
                    proof {
                        lemma_bad_absorbing(s@, i as int + 1);
                    }
                    return None;
                }
            },
            ScanState::Num { cur, lead_zero } => {
                if digit {
                    let d = (c as u32 - '0' as u32) as u16;
                    if lead_zero || cur * 10 + d > 255 {
                        proof {
                            lemma_bad_absorbing(s@, i as int + 1);
                        }
                        return None;
                    }
                    st = ScanState::Num { cur: cur * 10 + d, lead_zero: false };
                } else if ws_char(c) {
                    acc.push(cur as u8);
                    st = ScanState::AfterNum;
                } else if c == ',' {
                    acc.push(cur as u8);
                    st = ScanState::AfterComma;
                } else if c == ']' {
                    acc.push(cur as u8);
                    st = ScanState::Closed;
                } else {
                    proof {
                        lemma_bad_absorbing(s@, i as int + 1);
                    }
                    return None;
                }
            },
            ScanState::AfterNum => {
                if ws_char(c) {
                    // stay
                } else if c == ',' {
                    st = ScanState::AfterComma;
                } else if c == ']' {
                    st = ScanState::Closed;
                } else {
                    proof {
                        lemma_bad_absorbing(s@, i as int + 1);
                    }
                    return None;
                }
            },
            ScanState::AfterComma => {
                if ws_char(c) {
                    // stay
                } else if digit {
                    let d = (c as u32 - '0' as u32) as u16;
                    st = ScanState::Num { cur: d, lead_zero: c == '0' };
                } else {
                    proof {
                        lemma_bad_absorbing(s@, i as int + 1);
                    }
                    return None;
                }
            },
            ScanState::Closed => {
                if ws_char(c) {
                    // stay
                } else {
                    proof {
                        lemma_bad_absorbing(s@, i as int + 1);
                    }
                    return None;
                }
            },
        }
        i = i + 1;
    }
    proof {
        assert(s@.take(n as int) =~= s@);
    }
    match st {
        ScanState::Closed => Some(acc),
        _ => None,
    }
}

}
