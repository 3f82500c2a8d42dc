//! Verified decimal text: parsing signed 32-bit integers from response
//! bodies, and rendering unsigned integers into request envelopes.

use vstd::prelude::*;
use crate::error::Error;

verus! {

// ---------------------------------------------------------------------------
// Specification of decimal digit strings
// ---------------------------------------------------------------------------

pub open spec fn is_digit(c: char) -> bool {
    48 <= c as u32 <= 57
}

pub open spec fn digit_val(c: char) -> int {
    c as u32 - 48
}

pub open spec fn all_digits(s: Seq<char>) -> bool {
    forall|i: int| 0 <= i < s.len() ==> is_digit(#[trigger] s[i])
}

/// Value of a digit string, most significant digit first.
pub open spec fn digits_val(s: Seq<char>) -> int
    decreases s.len(),
{
    if s.len() == 0 {
        0
    } else {
        digits_val(s.drop_last()) * 10 + digit_val(s.last())
    }
}

pub proof fn lemma_digits_val_nonneg(s: Seq<char>)
    requires
        all_digits(s),
    ensures
        digits_val(s) >= 0,
    decreases s.len(),
{
    if s.len() > 0 {
        lemma_digits_val_nonneg(s.drop_last());
    }
}

/// What `str::parse::<i32>` accepts: an optional sign followed by at least
/// one digit, with the value in range; anything else is rejected.
pub open spec fn spec_parse_i32(s: Seq<char>) -> Option<i32> {
    let signed = s.len() > 0 && (s[0] == '-' || s[0] == '+');
    let neg = s.len() > 0 && s[0] == '-';
    let ds = if signed {
        s.skip(1)
    } else {
        s
    };
    if ds.len() == 0 || !all_digits(ds) {
        None
    } else {
        let v = if neg {
            -digits_val(ds)
        } else {
            digits_val(ds)
        };
        if i32::MIN <= v <= i32::MAX {
            Some(v as i32)
        } else {
            None
        }
    }
}

// ---------------------------------------------------------------------------
// Executable parsing
// ---------------------------------------------------------------------------

/// Parse a whole body as a signed 32-bit integer, exactly as
/// `str::parse::<i32>` would decide it.
pub fn parse_i32(s: &str) -> (r: Result<i32, Error>)
    ensures
        match spec_parse_i32(s@) {
            Some(v) => r == Ok::<i32, Error>(v),
            None => r matches Err(e) && e is Decode,
        },
{
    let n = s.unicode_len();
    let mut idx: usize = 0;
    let mut neg: bool = false;
    if n > 0 {
        let c0 = s.get_char(0);
        if c0 == '-' {
            neg = true;
            idx = 1;
        } else if c0 == '+' {
            idx = 1;
        }
    }
    if idx >= n {
        return Err(Error::Decode(String::from_str("not an integer")));
    }
    let ghost ds = if idx == 1 {
        s@.skip(1)
    } else {
        s@
    };
    let mut acc: u64 = 0;
    let mut over: bool = false;
    let mut i: usize = idx;
    proof {
        assert(ds =~= s@.subrange(idx as int, n as int));
        assert(s@.subrange(idx as int, idx as int) =~= Seq::<char>::empty());
    }
    while i < n
        invariant
            n == s@.len(),
            idx <= i <= n,
            idx < n,
            idx == 0 || idx == 1,
            neg == (s@.len() > 0 && s@[0] == '-'),
            (idx == 1) == (s@.len() > 0 && (s@[0] == '-' || s@[0] == '+')),
            ds =~= s@.subrange(idx as int, n as int),
            all_digits(s@.subrange(idx as int, i as int)),
            !over ==> acc == digits_val(s@.subrange(idx as int, i as int)) && acc <= u32::MAX,
            over ==> digits_val(s@.subrange(idx as int, i as int)) > u32::MAX,
        decreases n - i,
    {
        let c = s.get_char(i);
        let cu = c as u32;
        let ghost pre = s@.subrange(idx as int, i as int);
        let ghost ext = s@.subrange(idx as int, i + 1 as int);
        proof {
            assert(ext.drop_last() =~= pre);
            assert(ext.last() == s@[i as int]);
        }
        if cu < 48 || cu > 57 {
            proof {
                assert(ds[i - idx] == s@[i as int]);
                assert(!all_digits(ds));
                if idx == 1 {
                    assert(s@.skip(1) =~= ds);
                }
                assert(spec_parse_i32(s@) is None);
            }
            return Err(Error::Decode(String::from_str("not an integer")));
        }
        let d = (cu - 48) as u64;
        if !over {
            let newacc = acc * 10 + d;
            if newacc > u32::MAX as u64 {
                over = true;
            } else {
                acc = newacc;
            }
            proof {
                assert(digits_val(ext) == digits_val(pre) * 10 + digit_val(s@[i as int]));
            }
        } else {
            proof {
                lemma_digits_val_nonneg(pre);
                assert(digits_val(ext) == digits_val(pre) * 10 + digit_val(s@[i as int]));
                assert(digits_val(pre) * 10 > u32::MAX * 10) by (nonlinear_arith)
                    requires
                        digits_val(pre) > u32::MAX,
                ;
            }
        }
        proof {
            assert forall|j: int| 0 <= j < ext.len() implies is_digit(ext[j]) by {
                if j < ext.len() - 1 {
                    assert(ext[j] == pre[j]);
                }
            }
        }
        i = i + 1;
    }
    proof {
        assert(s@.subrange(idx as int, n as int) =~= ds);
        assert(all_digits(ds));
        assert(ds.len() > 0);
    }
    if over {
        proof {
            lemma_digits_val_nonneg(ds);
        }
        return Err(Error::Decode(String::from_str("integer out of range")));
    }
    if neg {
        if acc <= 2147483648u64 {
            let v: i64 = -(acc as i64);
            Ok(v as i32)
        } else {
            Err(Error::Decode(String::from_str("integer out of range")))
        }
    } else {
        if acc <= 2147483647u64 {
            Ok(acc as i32)
        } else {
            Err(Error::Decode(String::from_str("integer out of range")))
        }
    }
}

// ---------------------------------------------------------------------------
// Rendering unsigned integers
// ---------------------------------------------------------------------------

pub open spec fn digit_char(d: int) -> char {
    if d == 0 {
        '0'
    } else if d == 1 {
        '1'
    } else if d == 2 {
        '2'
    } else if d == 3 {
        '3'
    } else if d == 4 {
        '4'
    } else if d == 5 {
        '5'
    } else if d == 6 {
        '6'
    } else if d == 7 {
        '7'
    } else if d == 8 {
        '8'
    } else {
        '9'
    }
}

/// Decimal rendering of a non-negative integer, without sign or padding.
pub open spec fn spec_u32_digits(n: int) -> Seq<char>
    decreases n,
    via spec_u32_digits_decreases
{
    if n < 10 {
        seq![digit_char(n)]
    } else {
        spec_u32_digits(n / 10) + seq![digit_char(n % 10)]
    }
}

#[via_fn]
proof fn spec_u32_digits_decreases(n: int) {
    if n >= 10 {
        assert(0 < n / 10 < n) by (nonlinear_arith)
            requires
                n >= 10,
        ;
    }
}

/// Append the decimal rendering of `n` to `out`.
pub fn push_u32_digits(out: &mut String, n: u32)
    ensures
        final(out)@ == old(out)@ + spec_u32_digits(n as int),
    decreases n,
{
    if n >= 10 {
        proof {
            assert(0 < n / 10 < n) by (nonlinear_arith)
                requires
                    n >= 10,
            ;
        }
        push_u32_digits(out, n / 10);
    }
    let d = n % 10;
    let ds: &str = if d == 0 {
        "0"
    } else if d == 1 {
        "1"
    } else if d == 2 {
        "2"
    } else if d == 3 {
        "3"
    } else if d == 4 {
        "4"
    } else if d == 5 {
        "5"
    } else if d == 6 {
        "6"
    } else if d == 7 {
        "7"
    } else if d == 8 {
        "8"
    } else {
        "9"
    };
    proof {
        reveal_strlit("0");
        reveal_strlit("1");
        reveal_strlit("2");
        reveal_strlit("3");
        reveal_strlit("4");
        reveal_strlit("5");
        reveal_strlit("6");
        reveal_strlit("7");
        reveal_strlit("8");
        reveal_strlit("9");
        assert(ds@ =~= seq![digit_char(n as int % 10)]);
        if n < 10 {
            assert(spec_u32_digits(n as int) =~= seq![digit_char(n as int)]);
        }
    }
    out.append(ds);
}

} // verus!

