//! Parsing of permission mode strings.
//!
//! A mode string is read first as an octal number (an optional '+' sign
//! followed by octal digits, the value fitting in 32 unsigned bits; a
//! '-' sign is not accepted for an unsigned value); failing that, as a
//! sequence of symbolic mode characters, each contributing a fixed set
//! of permission bits. The parsed bits either replace the current mode
//! or, when the string begins with '+', are added to it.

use vstd::prelude::*;

verus! {

/// Whether a character is an octal digit.
pub open spec fn is_octal_digit(c: char) -> bool {
    '0' as u32 <= c as u32 && c as u32 <= '7' as u32
}

/// Numeric value of an octal digit character.
pub open spec fn octal_digit_value(c: char) -> int {
    c as u32 - '0' as u32
}

/// Whether every character of a sequence is an octal digit.
pub open spec fn all_octal_digits(s: Seq<char>) -> bool {
    forall|i: int| 0 <= i < s.len() ==> is_octal_digit(s[i])
}

/// Value of a sequence of octal digits, most significant digit first.
pub open spec fn octal_value(s: Seq<char>) -> int
    decreases s.len(),
{
    if s.len() == 0 {
        0
    } else {
        octal_value(s.drop_last()) * 8 + octal_digit_value(s.last())
    }
}

/// The digits of a mode string, after an optional leading '+' sign.
pub open spec fn octal_digits_part(s: Seq<char>) -> Seq<char> {
    if s.len() > 0 && s[0] == '+' {
        s.drop_first()
    } else {
        s
    }
}

/// Whether a mode string is a well-formed octal number for a 32-bit
/// unsigned value: an optional '+' sign, then at least one octal digit,
/// the value in range. A '-' sign makes the string invalid as octal.
pub open spec fn octal_ok(s: Seq<char>) -> bool {
    let d = octal_digits_part(s);
    &&& d.len() > 0
    &&& all_octal_digits(d)
    &&& octal_value(d) <= u32::MAX
}

/// The value of a sequence of octal digits is never negative.
proof fn lemma_octal_value_nonneg(s: Seq<char>)
    requires
        all_octal_digits(s),
    ensures
        octal_value(s) >= 0,
    decreases s.len(),
{
    if s.len() > 0 {
        assert(all_octal_digits(s.drop_last()));
        lemma_octal_value_nonneg(s.drop_last());
    }
}

/// Dropping trailing digits never increases the value.
proof fn lemma_octal_prefix_le(s: Seq<char>, i: int)
    requires
        all_octal_digits(s),
        0 <= i <= s.len(),
    ensures
        octal_value(s.subrange(0, i)) <= octal_value(s),
    decreases s.len() - i,
{
    if i == s.len() {
        assert(s.subrange(0, i) =~= s);
    } else {
        let t = s.subrange(0, i + 1);
        assert(t.drop_last() =~= s.subrange(0, i));
        assert(all_octal_digits(s.subrange(0, i)));
        assert(is_octal_digit(t.last()));
        lemma_octal_value_nonneg(s.subrange(0, i));
        assert(octal_value(s.subrange(0, i)) <= octal_value(t));
        lemma_octal_prefix_le(s, i + 1);
    }
}

/// Parse a string as an octal number: an optional '+' sign, then one or
/// more octal digits; the value must fit in 32 unsigned bits. A '-'
/// sign is rejected, as it is for an unsigned target.
pub fn parse_octal(s: &str) -> (r: Option<u32>)
    ensures
        octal_ok(s@) ==> r == Some(octal_value(octal_digits_part(s@)) as u32),
        !octal_ok(s@) ==> r is None,
{
    let n = s.unicode_len();
    if n == 0 {
        return None;
    }
    let c0 = s.get_char(0);
    if c0 == '-' {
        proof {
            assert(octal_digits_part(s@) == s@);
            assert(!is_octal_digit(s@[0]));
        }
        return None;
    }
    let start: usize = if c0 == '+' {
        1
    } else {
        0
    };
    if start == n {
        return None;
    }
    proof {
        assert(octal_digits_part(s@) =~= s@.subrange(start as int, n as int));
    }
    let ghost part = s@.subrange(start as int, n as int);
    let mut acc: u32 = 0;
    let mut i: usize = start;
    while i < n
        invariant
            n == s@.len(),
            start <= i <= n,
            start < n,
            start == 0 || start == 1,
            part == s@.subrange(start as int, n as int),
            part == octal_digits_part(s@),
            all_octal_digits(s@.subrange(start as int, i as int)),
            acc == octal_value(s@.subrange(start as int, i as int)),
        decreases n - i,
    {
        let ghost pre = s@.subrange(start as int, i as int);
        let c = s.get_char(i);
        let cv = c as u32;
        if cv < '0' as u32 || cv > '7' as u32 {
            proof {
                assert(!is_octal_digit(part[i - start]));
            }
            return None;
        }
        let d = cv - '0' as u32;
        let ghost post = s@.subrange(start as int, i + 1 as int);
        proof {
            assert(post.drop_last() =~= pre);
            assert(post =~= part.subrange(0, i + 1 - start));
            assert(octal_value(post) == acc * 8 + d);
        }
        if acc > (u32::MAX - d) / 8 {
            proof {
                assert(acc * 8 + d > u32::MAX);
                if octal_ok(s@) {
                    lemma_octal_prefix_le(part, i + 1 - start);
                    assert(octal_value(part) >= octal_value(post));
                }
            }
            return None;
        }
        proof {
            assert(acc * 8 + d <= u32::MAX);
        }
        acc = acc * 8 + d;
        i += 1;
    }
    proof {
        assert(s@.subrange(start as int, i as int) =~= part);
    }
    Some(acc)
}

/// Whether a character is one of the accepted symbolic mode characters.
pub open spec fn is_mode_char(c: char) -> bool {
    ||| c == '+'
    ||| c == '-'
    ||| c == 'u'
    ||| c == 'g'
    ||| c == 'o'
    ||| c == 'a'
    ||| c == 'r'
    ||| c == 'w'
    ||| c == 'x'
}

/// The permission bits a symbolic mode character contributes.
pub open spec fn mode_char_bits(c: char) -> u32 {
    if c == 'u' {
        0o700u32
    } else if c == 'g' {
        0o070u32
    } else if c == 'o' {
        0o007u32
    } else if c == 'a' {
        0o777u32
    } else if c == 'r' {
        0o444u32
    } else if c == 'w' {
        0o200u32
    } else if c == 'x' {
        0o111u32
    } else {
        0u32
    }
}

/// Whether every character of a sequence is a symbolic mode character.
pub open spec fn all_mode_chars(s: Seq<char>) -> bool {
    forall|i: int| 0 <= i < s.len() ==> is_mode_char(s[i])
}

/// The union of the permission bits of a sequence of mode characters.
pub open spec fn mode_bits(s: Seq<char>) -> u32
    decreases s.len(),
{
    if s.len() == 0 {
        0u32
    } else {
        mode_bits(s.drop_last()) | mode_char_bits(s.last())
    }
}

/// Parse a string of symbolic mode characters into permission bits;
/// any other character makes the whole string invalid.
pub fn parse_symbolic(s: &str) -> (r: Option<u32>)
    ensures
        all_mode_chars(s@) ==> r == Some(mode_bits(s@)),
        !all_mode_chars(s@) ==> r is None,
{
    let n = s.unicode_len();
    let mut acc: u32 = 0;
    let mut i: usize = 0;
    while i < n
        invariant
            n == s@.len(),
            i <= n,
            all_mode_chars(s@.subrange(0, i as int)),
            acc == mode_bits(s@.subrange(0, i as int)),
        decreases n - i,
    {
        let ghost pre = s@.subrange(0, i as int);
        let c = s.get_char(i);
        let b: u32 = if c == '+' || c == '-' {
            0
        } else if c == 'u' {
            0o700
        } else if c == 'g' {
            0o070
        } else if c == 'o' {
            0o007
        } else if c == 'a' {
            0o777
        } else if c == 'r' {
            0o444
        } else if c == 'w' {
            0o200
        } else if c == 'x' {
            0o111
        } else {
            proof {
                assert(!is_mode_char(s@[i as int]));
            }
            return None;
        };
        proof {
            let post = s@.subrange(0, i + 1 as int);
            assert(post.drop_last() =~= pre);
            assert(mode_bits(post) == acc | b);
        }
        acc = acc | b;
        i += 1;
    }
    proof {
        assert(s@.subrange(0, i as int) =~= s@);
    }
    Some(acc)
}

/// What a mode string parses to: octal if well formed as octal, else
/// symbolic if every character is a mode character, else nothing.
pub open spec fn spec_parse_mode(s: Seq<char>) -> Option<u32> {
    if octal_ok(s) {
        Some(octal_value(octal_digits_part(s)) as u32)
    } else if all_mode_chars(s) {
        Some(mode_bits(s))
    } else {
        None
    }
}

/// Parse a permission mode string, first as octal, else symbolically.
pub fn parse_mode(s: &str) -> (r: Option<u32>)
    ensures
        r == spec_parse_mode(s@),
{
    match parse_octal(s) {
        Some(v) => Some(v),
        None => parse_symbolic(s),
    }
}

/// The mode that results from applying parsed permission bits to the
/// current mode: added to it when the string begins with '+', replacing
/// it otherwise.
pub open spec fn spec_apply_mode(s: Seq<char>, parsed: u32, current: u32) -> u32
    recommends
        s.len() > 0,
{
    if s[0] == '+' {
        current | parsed
    } else {
        parsed
    }
}

/// Apply parsed permission bits to the current mode according to the
/// first character of the mode string.
pub fn apply_mode(s: &str, parsed: u32, current: u32) -> (r: u32)
    requires
        s@.len() > 0,
    ensures
        r == spec_apply_mode(s@, parsed, current),
{
    if s.get_char(0) == '+' {
        current | parsed
    } else {
        parsed
    }
}

} // verus!
