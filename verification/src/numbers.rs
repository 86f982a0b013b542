use vstd::prelude::*;
use vstd::string::StrSliceExecFns;

verus! {

pub open spec fn is_digit(c: char) -> bool {
    '0' <= c && c <= '9'
}

pub open spec fn digit_val(c: char) -> int {
    c as int - '0' as int
}

pub open spec fn all_digits(s: Seq<char>) -> bool {
    forall|i: int| 0 <= i < s.len() ==> is_digit(#[trigger] s[i])
}

/// The numeric value of a string of decimal digits.
pub open spec fn digits_val(s: Seq<char>) -> int
    decreases s.len(),
{
    if s.len() == 0 {
        0
    } else {
        digits_val(s.drop_last()) * 10 + digit_val(s.last())
    }
}

pub proof fn lemma_digits_val_nonneg(s: Seq<char>)
    requires
        all_digits(s),
    ensures
        digits_val(s) >= 0,
    decreases s.len(),
{
    if s.len() > 0 {
        assert(all_digits(s.drop_last()));
        lemma_digits_val_nonneg(s.drop_last());
    }
}

/// Reading further digits never lowers the value already read.
pub proof fn lemma_digits_val_take_monotone(s: Seq<char>, j: int)
    requires
        all_digits(s),
        0 <= j <= s.len(),
    ensures
        digits_val(s) >= digits_val(s.take(j)),
    decreases s.len() - j,
{
    if j == s.len() {
        assert(s.take(j) =~= s);
    } else {
        lemma_digits_val_take_monotone(s, j + 1);
        assert(s.take(j + 1).drop_last() =~= s.take(j));
        assert(all_digits(s.take(j)));
        lemma_digits_val_nonneg(s.take(j));
        assert(digits_val(s.take(j + 1)) == digits_val(s.take(j)) * 10 + digit_val(s[j]));
    }
}

/// How `str::parse::<i32>` reads a string: an optional sign, then one
/// or more decimal digits, the whole string; the value must fit `i32`.
pub open spec fn spec_parse_i32(s: Seq<char>) -> Option<i32> {
    let digits = if s.len() > 0 && (s[0] == '-' || s[0] == '+') {
        s.drop_first()
    } else {
        s
    };
    let neg = s.len() > 0 && s[0] == '-';
    if digits.len() == 0 || !all_digits(digits) {
        None
    } else if neg {
        if -digits_val(digits) >= i32::MIN {
            Some((-digits_val(digits)) as i32)
        } else {
            None
        }
    } else {
        if digits_val(digits) <= i32::MAX {
            Some(digits_val(digits) as i32)
        } else {
            None
        }
    }
}

/// How JSON spells an integer: an optional minus sign, then either a
/// single zero or a nonzero digit followed by digits; the value must
/// fit `i32`.  This is the shape the remote uses for source ids keying
/// the sources mapping.
pub open spec fn spec_parse_json_key_i32(s: Seq<char>) -> Option<i32> {
    let neg = s.len() > 0 && s[0] == '-';
    let digits = if neg {
        s.drop_first()
    } else {
        s
    };
    if digits.len() == 0 || !all_digits(digits) || (digits[0] == '0' && digits.len() > 1) {
        None
    } else if neg {
        if -digits_val(digits) >= i32::MIN {
            Some((-digits_val(digits)) as i32)
        } else {
            None
        }
    } else {
        if digits_val(digits) <= i32::MAX {
            Some(digits_val(digits) as i32)
        } else {
            None
        }
    }
}

/// Reads the digits of `s` from position `from` to the end, stopping as
/// soon as the value can no longer name an `i32`.
fn parse_digits(s: &str, from: usize) -> (r: Option<i64>)
    requires
        from <= s@.len(),
    ensures
        match r {
            Some(v) => {
                &&& s@.len() > from
                &&& all_digits(s@.skip(from as int))
                &&& v == digits_val(s@.skip(from as int))
                &&& 0 <= v <= 2147483648
            },
            None => s@.len() == from || !all_digits(s@.skip(from as int)) || digits_val(
                s@.skip(from as int),
            ) > 2147483648,
        },
{
    let ghost digits = s@.skip(from as int);
    let n = s.unicode_len();
    if n == from {
        return None;
    }
    let mut acc: i64 = 0;
    let mut i: usize = from;
    proof {
        assert(s@.subrange(from as int, from as int) =~= Seq::<char>::empty());
    }
    while i < n
        invariant
            from <= i <= n,
            n == s@.len(),
            n > from,
            digits == s@.skip(from as int),
            all_digits(s@.subrange(from as int, i as int)),
            acc == digits_val(s@.subrange(from as int, i as int)),
            0 <= acc <= 2147483648,
        decreases n - i,
    {
        let c = s.get_char(i);
        if c < '0' || c > '9' {
            proof {
                assert(digits[i - from] == s@[i as int]);
                assert(!all_digits(digits));
            }
            return None;
        }
        let d: i64 = (c as u32 - 48) as i64;
        proof {
            assert(s@.subrange(from as int, i + 1).drop_last() =~= s@.subrange(
                from as int,
                i as int,
            ));
            assert(s@.subrange(from as int, i + 1).last() == s@[i as int]);
        }
        acc = acc * 10 + d;
        i += 1;
        proof {
            assert(acc == digits_val(s@.subrange(from as int, i as int)));
        }
        if acc > 2147483648 {
            proof {
                if all_digits(digits) {
                    assert(digits.take(i - from) =~= s@.subrange(from as int, i as int));
                    lemma_digits_val_take_monotone(digits, i - from);
                }
            }
            return None;
        }
    }
    proof {
        assert(s@.subrange(from as int, n as int) =~= digits);
    }
    Some(acc)
}

/// Reads a whole string as an `i32` the way `str::parse` does.
pub fn parse_i32(s: &str) -> (r: Option<i32>)
    ensures
        r == spec_parse_i32(s@),
{
    let n = s.unicode_len();
    if n == 0 {
        return None;
    }
    let c0 = s.get_char(0);
    let signed: bool = c0 == '-' || c0 == '+';
    let start: usize = if signed {
        1
    } else {
        0
    };
    let ghost digits = if signed {
        s@.drop_first()
    } else {
        s@
    };
    proof {
        if signed {
            assert(s@.skip(1) =~= s@.drop_first());
        } else {
            assert(s@.skip(0) =~= s@);
        }
    }
    match parse_digits(s, start) {
        None => None,
        Some(v) => {
            if c0 == '-' {
                Some((-v) as i32)
            } else if v <= 2147483647 {
                Some(v as i32)
            } else {
                None
            }
        },
    }
}

/// Reads a whole string as an `i32` the way a JSON integer key is read.
pub fn parse_json_key_i32(s: &str) -> (r: Option<i32>)
    ensures
        r == spec_parse_json_key_i32(s@),
{
    let n = s.unicode_len();
    if n == 0 {
        return None;
    }
    let c0 = s.get_char(0);
    let neg: bool = c0 == '-';
    let start: usize = if neg {
        1
    } else {
        0
    };
    let ghost digits = if neg {
        s@.drop_first()
    } else {
        s@
    };
    proof {
        if neg {
            assert(s@.skip(1) =~= s@.drop_first());
        } else {
            assert(s@.skip(0) =~= s@);
        }
    }
    if n > start + 1 && s.get_char(start) == '0' {
        proof {
            assert(digits[0] == s@[start as int]);
        }
        return None;
    }
    match parse_digits(s, start) {
        None => None,
        Some(v) => {
            proof {
                assert(digits[0] == s@[start as int]);
            }
            if neg {
                Some((-v) as i32)
            } else if v <= 2147483647 {
                Some(v as i32)
            } else {
                None
            }
        },
    }
}

} // verus!
