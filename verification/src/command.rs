//! The one-byte remote command protocol.
//!
//! Commands arrive as small byte payloads from the network or the terminal.
//! The first byte selects the operation; the delayed-start command may carry
//! an ASCII decimal delay, in minutes, in the remaining bytes.  A malformed
//! or out-of-range payload parses to nothing and is dropped by the caller;
//! it is never fatal to the ingestion loop.

use vstd::prelude::*;

verus! {

/// The command bytes and the ASCII characters that make up a delay payload.
pub const BYTE_ACTIVATE: u8 = 97;
pub const BYTE_INACTIVATE: u8 = 105;
pub const BYTE_TOGGLE_READY: u8 = 114;
pub const BYTE_TOGGLE_ACTIVE: u8 = 116;
pub const BYTE_SHUTDOWN: u8 = 115;
pub const BYTE_DELAYED: u8 = 100;
pub const BYTE_PLUS: u8 = 43;
pub const BYTE_MINUS: u8 = 45;
pub const BYTE_ZERO: u8 = 48;
pub const BYTE_NINE: u8 = 57;

/// Brew duration for a plain `activate` command, in milliseconds.
pub const QUICK_BREW_MS: u64 = 2 * 1000;

/// Brew duration for a bare delayed start, in milliseconds.
pub const DEFAULT_DELAYED_BREW_MS: u64 = 45 * 60 * 1000;

/// Delay of a bare delayed start, in minutes from now.
pub const DEFAULT_DELAY_MINUTES: i64 = 5;

/// Brew duration for a delayed start with an explicit delay, in milliseconds.
pub const LONG_DELAYED_BREW_MS: u64 = 90 * 60 * 1000;

/// A decoded command, with its payload resolved to plain values.  The delay
/// of a delayed start is relative, in minutes; the caller turns it into the
/// absolute activation time, since only the caller knows the clock.
#[derive(Clone, Copy, Debug, PartialEq, Eq, Structural)]
pub enum Command {
    Activate { brew_ms: u64 },
    Inactivate,
    ActivateDelayed { brew_ms: u64, delay_minutes: i64 },
    ToggleReady,
    ToggleActive,
    Shutdown,
}

/// An ASCII decimal digit.
pub open spec fn is_digit_byte(b: u8) -> bool {
    BYTE_ZERO <= b && b <= BYTE_NINE
}

pub open spec fn all_digit_bytes(s: Seq<u8>) -> bool {
    forall|i: int| 0 <= i < s.len() ==> is_digit_byte(#[trigger] s[i])
}

/// The number a sequence of decimal digits denotes, most significant first.
pub open spec fn digits_value(s: Seq<u8>) -> int
    decreases s.len(),
{
    if s.len() == 0 {
        0
    } else {
        digits_value(s.drop_last()) * 10 + (s.last() - BYTE_ZERO)
    }
}

/// The reading of a whole payload as a signed decimal: an optional sign,
/// then at least one digit, all within `i64`.  Anything else reads as
/// nothing.
pub open spec fn parse_i64_spec(s: Seq<u8>) -> Option<i64> {
    if s.len() == 0 {
        None
    } else {
        let neg = s[0] == BYTE_MINUS;
        let digits = if s[0] == BYTE_MINUS || s[0] == BYTE_PLUS {
            s.subrange(1, s.len() as int)
        } else {
            s
        };
        if digits.len() == 0 || !all_digit_bytes(digits) {
            None
        } else if neg {
            if -digits_value(digits) >= i64::MIN {
                Some((-digits_value(digits)) as i64)
            } else {
                None
            }
        } else {
            if digits_value(digits) <= i64::MAX {
                Some(digits_value(digits) as i64)
            } else {
                None
            }
        }
    }
}

/// What a payload decodes to.  The first byte selects the operation; extra
/// bytes are ignored except after `d`, where they carry the delay.
pub open spec fn parse_command_spec(s: Seq<u8>) -> Option<Command> {
    if s.len() == 0 {
        None
    } else if s[0] == BYTE_ACTIVATE {
        Some(Command::Activate { brew_ms: QUICK_BREW_MS })
    } else if s[0] == BYTE_INACTIVATE {
        Some(Command::Inactivate)
    } else if s[0] == BYTE_TOGGLE_READY {
        Some(Command::ToggleReady)
    } else if s[0] == BYTE_TOGGLE_ACTIVE {
        Some(Command::ToggleActive)
    } else if s[0] == BYTE_SHUTDOWN {
        Some(Command::Shutdown)
    } else if s[0] == BYTE_DELAYED {
        if s.len() == 1 {
            Some(
                Command::ActivateDelayed {
                    brew_ms: DEFAULT_DELAYED_BREW_MS,
                    delay_minutes: DEFAULT_DELAY_MINUTES,
                },
            )
        } else {
            match parse_i64_spec(s.subrange(1, s.len() as int)) {
                Some(n) => Some(
                    Command::ActivateDelayed { brew_ms: LONG_DELAYED_BREW_MS, delay_minutes: n },
                ),
                None => None,
            }
        }
    } else {
        None
    }
}

proof fn lemma_digits_value_nonneg(s: Seq<u8>)
    requires
        all_digit_bytes(s),
    ensures
        digits_value(s) >= 0,
    decreases s.len(),
{
    if s.len() > 0 {
        assert(all_digit_bytes(s.drop_last())) by {
            assert(forall|i: int|
                0 <= i < s.len() - 1 ==> s.drop_last()[i] == #[trigger] s[i]);
        }
        lemma_digits_value_nonneg(s.drop_last());
    }
}

/// Reading more digits never shrinks the value: the value of a digit string
/// is at least the value of any of its prefixes.
proof fn lemma_digits_value_prefix(s: Seq<u8>, k: int)
    requires
        all_digit_bytes(s),
        0 <= k <= s.len(),
    ensures
        digits_value(s) >= digits_value(s.subrange(0, k)),
    decreases s.len() - k,
{
    if k == s.len() {
        assert(s.subrange(0, k) =~= s);
    } else {
        lemma_digits_value_prefix(s, k + 1);
        assert(s.subrange(0, k + 1).drop_last() =~= s.subrange(0, k));
        assert(all_digit_bytes(s.subrange(0, k))) by {
            assert(forall|i: int|
                0 <= i < k ==> s.subrange(0, k)[i] == #[trigger] s[i]);
        }
        lemma_digits_value_nonneg(s.subrange(0, k));
        assert(digits_value(s.subrange(0, k + 1)) == digits_value(s.subrange(0, k)) * 10 + (
        s[k] - BYTE_ZERO));
    }
}

/// Reads the digits of `s` from `start` on as a decimal magnitude.  Reads as
/// nothing when a byte is no digit or the magnitude does not even fit the
/// accumulator; the caller folds both into the signed range check.
fn parse_magnitude(s: &[u8], start: usize) -> (r: Option<u64>)
    requires
        start < s@.len(),
    ensures
        match r {
            Some(v) => {
                &&& all_digit_bytes(s@.subrange(start as int, s@.len() as int))
                &&& v == digits_value(s@.subrange(start as int, s@.len() as int))
            },
            None => {
                ||| !all_digit_bytes(s@.subrange(start as int, s@.len() as int))
                ||| digits_value(s@.subrange(start as int, s@.len() as int)) > u64::MAX
            },
        },
{
    let ghost digits = s@.subrange(start as int, s@.len() as int);
    let mut acc: u64 = 0;
    let mut i: usize = start;
    while i < s.len()
        invariant
            start <= i <= s@.len(),
            start < s@.len(),
            digits == s@.subrange(start as int, s@.len() as int),
            forall|j: int| start <= j < i ==> is_digit_byte(#[trigger] s@[j]),
            acc == digits_value(s@.subrange(start as int, i as int)),
        decreases s@.len() - i,
    {
        let b = s[i];
        proof {
            assert(s@.subrange(start as int, i as int + 1).drop_last() =~= s@.subrange(
                start as int,
                i as int,
            ));
        }
        if b < BYTE_ZERO || b > BYTE_NINE {
            proof {
                assert(s@.subrange(start as int, s@.len() as int)[i - start] == s@[i as int]);
            }
            return None;
        }
        let step = match acc.checked_mul(10) {
            Some(x) => x.checked_add((b - BYTE_ZERO) as u64),
            None => None,
        };
        match step {
            Some(next) => {
                acc = next;
            }
            None => {
                proof {
                    let scanned = s@.subrange(start as int, i as int + 1);
                    assert(digits_value(scanned) > u64::MAX);
                    if all_digit_bytes(digits) {
                        assert(scanned =~= digits.subrange(0, i - start + 1));
                        lemma_digits_value_prefix(digits, i - start + 1);
                    }
                }
                return None;
            }
        }
        i += 1;
    }
    proof {
        assert(s@.subrange(start as int, i as int) =~= digits);
        assert(all_digit_bytes(digits)) by {
            assert(forall|k: int|
                0 <= k < digits.len() ==> #[trigger] digits[k] == s@[k + start]);
        }
    }
    Some(acc)
}

/// Reads a whole payload as a signed decimal, exactly as
/// [`parse_i64_spec`] describes: an optional `+` or `-`, then at least one
/// digit, all within `i64`; anything else is rejected.
fn parse_i64(s: &[u8]) -> (r: Option<i64>)
    ensures
        r == parse_i64_spec(s@),
{
    if s.len() == 0 {
        return None;
    }
    let signed = s[0] == BYTE_MINUS || s[0] == BYTE_PLUS;
    let neg = s[0] == BYTE_MINUS;
    let start: usize = if signed {
        1
    } else {
        0
    };
    if s.len() == start {
        return None;
    }
    let ghost digits = if signed {
        s@.subrange(1, s@.len() as int)
    } else {
        s@
    };
    proof {
        assert(s@.subrange(start as int, s@.len() as int) =~= digits);
    }
    let magnitude = match parse_magnitude(s, start) {
        Some(v) => v,
        None => {
            proof {
                if all_digit_bytes(digits) {
                    lemma_digits_value_nonneg(digits);
                }
            }
            return None;
        }
    };
    if neg {
        // the one magnitude beyond i64::MAX that still negates into range
        if magnitude == i64::MAX as u64 + 1 {
            Some(i64::MIN)
        } else if magnitude <= i64::MAX as u64 {
            Some(-(magnitude as i64))
        } else {
            None
        }
    } else {
        if magnitude <= i64::MAX as u64 {
            Some(magnitude as i64)
        } else {
            None
        }
    }
}

/// Decodes one command payload, exactly as [`parse_command_spec`]
/// describes.  A payload that decodes to nothing is malformed and must be
/// dropped, not acted on.
pub fn parse_command(payload: &[u8]) -> (cmd: Option<Command>)
    ensures
        cmd == parse_command_spec(payload@),
{
    if payload.len() == 0 {
        return None;
    }
    let b = payload[0];
    if b == BYTE_ACTIVATE {
        Some(Command::Activate { brew_ms: QUICK_BREW_MS })
    } else if b == BYTE_INACTIVATE {
        Some(Command::Inactivate)
    } else if b == BYTE_TOGGLE_READY {
        Some(Command::ToggleReady)
    } else if b == BYTE_TOGGLE_ACTIVE {
        Some(Command::ToggleActive)
    } else if b == BYTE_SHUTDOWN {
        Some(Command::Shutdown)
    } else if b == BYTE_DELAYED {
        if payload.len() == 1 {
            Some(
                Command::ActivateDelayed {
                    brew_ms: DEFAULT_DELAYED_BREW_MS,
                    delay_minutes: DEFAULT_DELAY_MINUTES,
                },
            )
        } else {
            let tail = &payload[1..payload.len()];
            match parse_i64(tail) {
                Some(n) => Some(
                    Command::ActivateDelayed { brew_ms: LONG_DELAYED_BREW_MS, delay_minutes: n },
                ),
                None => None,
            }
        }
    } else {
        None
    }
}

} // verus!
