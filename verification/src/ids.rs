//! Numeric interpretation of cue identifiers.
//!
//! A cue id is free text that *may* denote an unsigned integer; when it does,
//! the list can auto-assign fresh ids past it. The accepted shape mirrors
//! `u64` parsing in Rust: an optional leading `+`, then one or more decimal
//! digits, and the value must fit in a `u64`.

use vstd::prelude::*;

verus! {

/// Whether `c` is a decimal digit.
pub open spec fn is_digit(c: char) -> bool {
    48 <= c as u32 && c as u32 <= 57
}

/// The numeric value of the digit `c`.
pub open spec fn digit_val(c: char) -> nat {
    (c as u32 - 48) as nat
}

/// Whether every character of `s` is a decimal digit.
pub open spec fn all_digits(s: Seq<char>) -> bool {
    forall|i: int| 0 <= i < s.len() ==> is_digit(#[trigger] s[i])
}

/// The value of a digit string, most significant digit first.
pub open spec fn digits_val(s: Seq<char>) -> nat
    decreases s.len(),
{
    if s.len() == 0 {
        0
    } else {
        digits_val(s.drop_last()) * 10 + digit_val(s.last())
    }
}

/// The digits of a numeric id: all of `s`, past a single leading `+` if one
/// is there.
pub open spec fn id_digits(s: Seq<char>) -> Seq<char> {
    if s.len() > 0 && s[0] == '+' {
        s.drop_first()
    } else {
        s
    }
}

/// The numeric value of an id, when it has one: at least one digit after the
/// optional sign, nothing but digits, and a value that fits in a `u64`.
pub open spec fn spec_id_num(s: Seq<char>) -> Option<u64> {
    let t = id_digits(s);
    if t.len() > 0 && all_digits(t) && digits_val(t) <= u64::MAX {
        Some(digits_val(t) as u64)
    } else {
        None
    }
}

/// A longer digit string never has a smaller value.
proof fn lemma_digits_val_mono(t: Seq<char>, k: int, j: int)
    requires
        0 <= k <= j <= t.len(),
    ensures
        digits_val(t.take(k)) <= digits_val(t.take(j)),
    decreases j - k,
{
    if k < j {
        lemma_digits_val_mono(t, k, j - 1);
        assert(t.take(j).drop_last() =~= t.take(j - 1));
        assert(t.take(j).last() == t[j - 1]);
        assert(digits_val(t.take(j - 1)) * 10 >= digits_val(t.take(j - 1)));
    }
}

/// Parse the digit part of an id. `first` is the first character past the
/// optional sign; `bytes` holds the whole id and the digits start at `from`.
fn parse_digits(bytes: &[u8], from: usize, Ghost(s): Ghost<Seq<char>>, Ghost(t): Ghost<Seq<char>>) -> (r: Option<u64>)
    requires
        vstd::utf8::is_ascii_chars(s),
        bytes@ == Seq::new(s.len(), |i: int| s[i] as u8),
        t == s.skip(from as int),
        from <= s.len(),
    ensures
        r == (if t.len() > 0 && all_digits(t) && digits_val(t) <= u64::MAX {
            Some(digits_val(t) as u64)
        } else {
            None::<u64>
        }),
{
    proof {
        assert forall|i: int| 0 <= i < s.len() implies (#[trigger] (s[i] as u8)) as u32 == s[i]
            as u32 by {
            assert(s[i] <= '\u{7f}');
        }
    }
    if from == bytes.len() {
        assert(t.len() == 0);
        return None;
    }
    let mut acc: u64 = 0;
    let mut i: usize = from;
    loop
        invariant
            vstd::utf8::is_ascii_chars(s),
            bytes@ == Seq::new(s.len(), |i: int| s[i] as u8),
            t == s.skip(from as int),
            from <= i <= s.len(),
            from < s.len(),
            all_digits(t.take(i - from)),
            acc == digits_val(t.take(i - from)),
            forall|j: int| 0 <= j < s.len() ==> (#[trigger] (s[j] as u8)) as u32 == s[j] as u32,
        decreases s.len() - i,
    {
        if i == bytes.len() {
            assert(t.take(i - from) =~= t);
            return Some(acc);
        }
        let b: u8 = bytes[i];
        proof {
            assert(b == s[i as int] as u8);
            assert(t[i - from] == s[i as int]);
        }
        if b < 48 || 57 < b {
            assert(!is_digit(t[i - from]));
            return None;
        }
        let d: u64 = (b - 48) as u64;
        proof {
            assert(is_digit(t[i - from]));
            assert(d == digit_val(t[i - from]));
            assert(t.take(i - from + 1).drop_last() =~= t.take(i - from));
            assert(t.take(i - from + 1).last() == t[i - from]);
        }
        let shifted: Option<u64> = match acc.checked_mul(10) {
            Some(x) => x.checked_add(d),
            None => None,
        };
        match shifted {
            Some(x) => {
                acc = x;
            },
            None => {
                proof {
                    assert(digits_val(t.take(i - from + 1)) > u64::MAX);
                    lemma_digits_val_mono(t, i - from + 1, t.len() as int);
                    assert(t.take(t.len() as int) =~= t);
                }
                return None;
            },
        }
        i = i + 1;
    }
}

/// Parse `s` as a numeric id: an optional `+`, then decimal digits that fit
/// in a `u64`. Anything else has no numeric value.
pub fn parse_id_num(s: &str) -> (r: Option<u64>)
    ensures
        r == spec_id_num(s@),
{
    if !s.is_ascii() {
        proof {
            let t = id_digits(s@);
            assert(!vstd::utf8::is_ascii_chars(s@));
            assert(exists|i: int| 0 <= i < s@.len() && !('\0' <= #[trigger] s@[i] <= '\u{7f}'));
            let i: int = choose|i: int| 0 <= i < s@.len() && !('\0' <= #[trigger] s@[i] <= '\u{7f}');
            let c: char = s@[i];
            assert(!('\0' <= c <= '\u{7f}'));
            lemma_non_ascii_char(c);
            assert(!is_digit(s@[i]));
            assert(s@[i] != '+');
            if s@.len() > 0 && s@[0] == '+' {
                assert(i >= 1);
                assert(t[i - 1] == s@[i]);
                assert(!all_digits(t));
            } else {
                assert(t[i] == s@[i]);
                assert(!all_digits(t));
            }
        }
        return None;
    }
    let bytes = s.as_bytes();
    proof {
        vstd::string::is_ascii_spec_bytes(s);
        assert(bytes@ =~= Seq::new(s@.len(), |i: int| s@[i] as u8));
    }
    if bytes.len() == 0 {
        return None;
    }
    let b0: u8 = bytes[0];
    proof {
        assert forall|i: int| 0 <= i < s@.len() implies (#[trigger] (s@[i] as u8)) as u32 == s@[i]
            as u32 by {
            assert(s@[i] <= '\u{7f}');
        }
        assert(b0 == s@[0] as u8);
    }
    if b0 == 43 {
        proof {
            assert(s@[0] as u32 == 43);
            assert('+' as u32 == 43);
            vstd::utf8::char_u32_cast(s@[0], 43);
            vstd::utf8::char_u32_cast('+', 43);
            assert(s@[0] == '+');
            assert(id_digits(s@) == s@.skip(1));
        }
        parse_digits(bytes, 1, Ghost(s@), Ghost(s@.skip(1)))
    } else {
        proof {
            assert(s@[0] as u32 != 43);
            assert(s@[0] != '+');
            assert(id_digits(s@) == s@);
            assert(s@.skip(0) =~= s@);
        }
        parse_digits(bytes, 0, Ghost(s@), Ghost(s@))
    }
}

/// A character outside the ASCII range is neither a digit nor a sign.
proof fn lemma_non_ascii_char(c: char)
    requires
        !('\0' <= c <= '\u{7f}'),
    ensures
        c as u32 > 127,
        !is_digit(c),
        c != '+',
{
    vstd::utf8::char_is_scalar(c);
    assert(c as nat > 127);
}

} // verus!
