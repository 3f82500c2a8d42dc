//! Exact decimal numerals, carried as validated text.
//!
//! Several tabular columns of the service hold decimal numbers whose
//! precision must not be disturbed (prices, ratios, volumes). The core never
//! computes with them, so the library carries each one as its text, behind
//! an invariant that the text really is a decimal numeral: an optional sign,
//! an integer part, an optional fraction, an optional exponent. A malformed
//! cell is a decode error, as it is for every other mismatched column.

use vstd::prelude::*;
use crate::error::Error;
use crate::num::is_digit;

verus! {

pub open spec fn is_sign(c: char) -> bool {
    c == '+' || c == '-'
}

/// First position at or after `p` that does not hold a digit.
pub open spec fn digits_end(s: Seq<char>, p: int) -> int
    decreases s.len() - p,
{
    if p < s.len() && is_digit(s[p]) {
        digits_end(s, p + 1)
    } else {
        p
    }
}

pub proof fn lemma_digits_end_of(s: Seq<char>, p: int, m: int)
    requires
        0 <= p <= m <= s.len(),
        forall|j: int| p <= j < m ==> is_digit(s[j]),
        m < s.len() ==> !is_digit(s[m]),
    ensures
        digits_end(s, p) == m,
    decreases s.len() - p,
{
    if p < s.len() && is_digit(s[p]) {
        lemma_digits_end_of(s, p + 1, m);
    }
}

/// Position after the exponent part starting at `p2`, or `-1` if the text
/// from `p2` on is not an optional exponent reaching the end.
pub open spec fn exp_end(s: Seq<char>, p2: int) -> int {
    if p2 == s.len() {
        p2
    } else if s[p2] == 'e' || s[p2] == 'E' {
        let pm = if p2 + 1 < s.len() && is_sign(s[p2 + 1]) {
            p2 + 2
        } else {
            p2 + 1
        };
        let pe = digits_end(s, pm);
        if pe > pm && pe == s.len() {
            pe
        } else {
            -1
        }
    } else {
        -1
    }
}

/// `s` is a decimal numeral: `[+-] digits [. digits] [(e|E) [+-] digits]`,
/// with at least one digit in every part that is present.
pub open spec fn spec_decimal(s: Seq<char>) -> bool {
    let p0: int = if s.len() > 0 && is_sign(s[0]) {
        1
    } else {
        0
    };
    let p1 = digits_end(s, p0);
    let p2: int = if p1 < s.len() && s[p1] == '.' {
        let pf = digits_end(s, p1 + 1);
        if pf > p1 + 1 {
            pf
        } else {
            -1
        }
    } else {
        p1
    };
    p1 > p0 && p2 >= 0 && exp_end(s, p2) == s.len() && s.len() > 0
}

/// One decimal numeral, validated on construction.
#[derive(Debug, PartialEq)]
pub struct Decimal {
    text: String,
}

impl Decimal {
    /// The numeral's text.
    pub closed spec fn spec_text(&self) -> Seq<char> {
        self.text@
    }

    #[verifier::type_invariant]
    closed spec fn type_inv(&self) -> bool {
        spec_decimal(self.text@)
    }

    /// Read the numeral back as text; every value of this type holds a
    /// well-formed numeral.
    pub fn as_text(&self) -> (r: &str)
        ensures
            r@ == self.spec_text(),
            spec_decimal(self.spec_text()),
    {
        proof {
            use_type_invariant(self);
        }
        self.text.as_str()
    }

    /// Scan digits from `p`; returns the first non-digit position.
    fn scan_digits(s: &str, p: usize) -> (r: usize)
        requires
            p <= s@.len(),
        ensures
            r == digits_end(s@, p as int),
            p <= r <= s@.len(),
    {
        let n = s.unicode_len();
        let mut i: usize = p;
        while i < n
            invariant
                n == s@.len(),
                p <= i <= n,
                forall|j: int| p <= j < i ==> is_digit(s@[j]),
            decreases n - i,
        {
            let c = s.get_char(i);
            let cu = c as u32;
            if cu < 48 || cu > 57 {
                proof {
                    lemma_digits_end_of(s@, p as int, i as int);
                }
                return i;
            }
            i = i + 1;
        }
        proof {
            lemma_digits_end_of(s@, p as int, n as int);
        }
        n
    }

    /// Validate `s` as a decimal numeral.
    pub fn parse(s: &str) -> (r: Result<Decimal, Error>)
        ensures
            r is Ok <==> spec_decimal(s@),
            (r matches Ok(d) ==> d.spec_text() == s@),
            (r matches Err(e) ==> e is Decode),
    {
        let n = s.unicode_len();
        let err_msg = "not a decimal numeral";
        if n == 0 {
            return Err(Error::Decode(String::from_str(err_msg)));
        }
        let c0 = s.get_char(0);
        let p0: usize = if c0 == '+' || c0 == '-' {
            1
        } else {
            0
        };
        let p1 = Self::scan_digits(s, p0);
        if p1 == p0 {
            return Err(Error::Decode(String::from_str(err_msg)));
        }
        let p2: usize = if p1 < n && s.get_char(p1) == '.' {
            let pf = Self::scan_digits(s, p1 + 1);
            if pf == p1 + 1 {
                return Err(Error::Decode(String::from_str(err_msg)));
            }
            pf
        } else {
            p1
        };
        if p2 == n {
            return Ok(Decimal { text: s.to_owned() });
        }
        let ce = s.get_char(p2);
        if ce != 'e' && ce != 'E' {
            return Err(Error::Decode(String::from_str(err_msg)));
        }
        let pm: usize = if p2 + 1 < n {
            let cm = s.get_char(p2 + 1);
            if cm == '+' || cm == '-' {
                p2 + 2
            } else {
                p2 + 1
            }
        } else {
            p2 + 1
        };
        let pe = Self::scan_digits(s, pm);
        if pe > pm && pe == n {
            Ok(Decimal { text: s.to_owned() })
        } else {
            Err(Error::Decode(String::from_str(err_msg)))
        }
    }
}

} // verus!
