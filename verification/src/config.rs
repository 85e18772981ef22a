use vstd::prelude::*;
use vstd::string::StrSliceExecFns;

verus! {

/// The default timeout in seconds advertised to user functions.
pub const DEFAULT_TIMEOUT: usize = 180;

/// The default memory limit; `0` indicates that no limit was provided.
pub const DEFAULT_MEMORY_LIMIT: usize = 0;

/// True when `c` is an ASCII decimal digit.
pub open spec fn is_digit(c: char) -> bool {
    '0' as int <= c as int && c as int <= '9' as int
}

/// The numeric value of a decimal digit.
pub open spec fn digit_value(c: char) -> int {
    c as int - '0' as int
}

/// True when every character of `s` is a decimal digit.
pub open spec fn all_digits(s: Seq<char>) -> bool {
    forall|i: int| 0 <= i < s.len() ==> is_digit(s[i])
}

/// The value of a sequence of decimal digits, most significant first.
pub open spec fn dec_value(s: Seq<char>) -> int
    decreases s.len(),
{
    if s.len() == 0 {
        0
    } else {
        dec_value(s.drop_last()) * 10 + digit_value(s.last())
    }
}

/// The digit portion of a numeric literal: an optional single leading `+`
/// sign is accepted and is not part of the value.
pub open spec fn digits_part(s: Seq<char>) -> Seq<char> {
    if s.len() > 0 && s[0] == '+' {
        s.drop_first()
    } else {
        s
    }
}

/// True when `s` is a decimal literal that a `usize` configuration value
/// accepts: an optional leading `+`, then at least one digit, with a value
/// that fits the type.
pub open spec fn is_usize_literal(s: Seq<char>) -> bool {
    &&& digits_part(s).len() > 0
    &&& all_digits(digits_part(s))
    &&& dec_value(digits_part(s)) <= usize::MAX
}

/// The view of an optional borrowed string.
pub open spec fn opt_text(s: Option<&str>) -> Option<Seq<char>> {
    match s {
        Some(t) => Some(t@),
        None => None,
    }
}

/// The numeric value an optional configuration string denotes: an absent or
/// malformed value silently falls back to the given default.
pub open spec fn config_value_of(s: Option<Seq<char>>, default: usize) -> int {
    match s {
        Some(t) => if is_usize_literal(t) {
            dec_value(digits_part(t))
        } else {
            default as int
        },
        None => default as int,
    }
}

proof fn lemma_dec_value_nonneg(s: Seq<char>)
    requires
        all_digits(s),
    ensures
        dec_value(s) >= 0,
    decreases s.len(),
{
    if s.len() > 0 {
        assert(all_digits(s.drop_last()));
        lemma_dec_value_nonneg(s.drop_last());
    }
}

/// A prefix of a digit string never exceeds the whole string's value.
proof fn lemma_dec_value_prefix_le(s: Seq<char>, k: int)
    requires
        all_digits(s),
        0 <= k <= s.len(),
    ensures
        dec_value(s.subrange(0, k)) <= dec_value(s),
    decreases s.len() - k,
{
    if k == s.len() {
        assert(s.subrange(0, k) =~= s);
    } else {
        let shorter = s.subrange(0, k);
        let longer = s.subrange(0, k + 1);
        assert(longer.drop_last() =~= shorter);
        lemma_dec_value_nonneg(shorter);
        assert(dec_value(longer) == dec_value(shorter) * 10 + digit_value(s[k]));
        lemma_dec_value_prefix_le(s, k + 1);
    }
}

/// Parses a decimal `usize` literal — the only numeric form configuration
/// accepts: an optional leading `+`, then decimal digits. Returns `None`
/// for the empty string, for any other character, and for a value that
/// does not fit the type.
pub fn parse_usize(s: &str) -> (r: Option<usize>)
    ensures
        r is Some <==> is_usize_literal(s@),
        r matches Some(v) ==> v == dec_value(digits_part(s@)),
{
    let n = s.unicode_len();
    let mut i: usize = 0;
    if n > 0 && s.get_char(0) == '+' {
        i = 1;
    }
    proof {
        assert(digits_part(s@) =~= s@.subrange(i as int, n as int));
    }
    if i == n {
        return None;
    }
    let mut value: usize = 0;
    let mut j: usize = i;
    while j < n
        invariant
            i <= j <= n,
            n == s@.len(),
            digits_part(s@) =~= s@.subrange(i as int, n as int),
            all_digits(s@.subrange(i as int, j as int)),
            value == dec_value(s@.subrange(i as int, j as int)),
        decreases n - j,
    {
        let c = s.get_char(j);
        let cv = c as u32;
        if cv < '0' as u32 || cv > '9' as u32 {
            proof {
                assert(s@.subrange(i as int, n as int)[j - i] == s@[j as int]);
            }
            return None;
        }
        let d = (cv - '0' as u32) as usize;
        let ghost prefix = s@.subrange(i as int, j as int);
        let ghost extended = s@.subrange(i as int, (j + 1) as int);
        proof {
            assert(extended.drop_last() =~= prefix);
            assert(dec_value(extended) == dec_value(prefix) * 10 + digit_value(s@[j as int]));
        }
        let next = match value.checked_mul(10) {
            Some(v10) => v10.checked_add(d),
            None => None,
        };
        match next {
            Some(v) => {
                value = v;
            }
            None => {
                proof {
                    if is_usize_literal(s@) {
                        assert(extended =~= digits_part(s@).subrange(0, (j + 1 - i) as int));
                        lemma_dec_value_prefix_le(digits_part(s@), (j + 1 - i) as int);
                    }
                }
                return None;
            }
        }
        j = j + 1;
    }
    proof {
        assert(s@.subrange(i as int, j as int) =~= digits_part(s@));
    }
    Some(value)
}

/// The numeric value of an optional configuration string, as the runtime
/// reads one: absent or malformed values silently fall back to `default`
/// rather than failing startup.
pub fn config_value(s: Option<&str>, default: usize) -> (r: usize)
    ensures
        r == config_value_of(opt_text(s), default),
{
    match s {
        Some(t) => match parse_usize(t) {
            Some(v) => v,
            None => default,
        },
        None => default,
    }
}

} // verus!
