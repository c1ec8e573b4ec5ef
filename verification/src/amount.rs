//! A 256-bit unsigned token amount, held as four 64-bit limbs, with a
//! verified decimal parser and formatter.
//!
//! Amounts arrive as decimal strings; an input that is not a nonempty string
//! of ASCII digits, or that denotes a number of 256 bits or more, is rejected
//! as a parse error rather than a fault. Formatting is canonical: no leading
//! zeros, and zero prints as "0". Parsing a valid string and formatting the
//! result yields a numerically equal string.

use crate::errors::PipelineError;
use vstd::prelude::*;
use vstd::string::StrSliceExecFns;

verus! {

/// True of the ten ASCII digit characters.
pub open spec fn is_dec_digit(c: char) -> bool {
    '0' <= c && c <= '9'
}

/// The numeric value of one ASCII digit character.
pub open spec fn digit_val(c: char) -> nat {
    (c as u32 - 48) as nat
}

/// The digit character of one value below ten.
pub open spec fn digit_char(d: nat) -> char {
    if d == 0 {
        '0'
    } else if d == 1 {
        '1'
    } else if d == 2 {
        '2'
    } else if d == 3 {
        '3'
    } else if d == 4 {
        '4'
    } else if d == 5 {
        '5'
    } else if d == 6 {
        '6'
    } else if d == 7 {
        '7'
    } else if d == 8 {
        '8'
    } else {
        '9'
    }
}

/// The number denoted by a sequence of ASCII digits, most significant first.
pub open spec fn dec_value(s: Seq<char>) -> nat
    decreases s.len(),
{
    if s.len() == 0 {
        0
    } else {
        dec_value(s.drop_last()) * 10 + digit_val(s.last())
    }
}

/// A well-formed decimal amount string: nonempty, ASCII digits only.
pub open spec fn is_dec_string(s: Seq<char>) -> bool {
    s.len() > 0 && (forall|i: int| 0 <= i < s.len() ==> is_dec_digit(s[i]))
}

/// The canonical digits of a number: empty for zero, no leading zero
/// otherwise.
pub open spec fn dec_digits_of(n: nat) -> Seq<char>
    decreases n,
{
    if n == 0 {
        Seq::empty()
    } else {
        dec_digits_of(n / 10).push(digit_char(n % 10))
    }
}

/// The canonical decimal string of a number; zero prints as "0".
pub open spec fn dec_string_of(n: nat) -> Seq<char> {
    if n == 0 {
        seq!['0']
    } else {
        dec_digits_of(n)
    }
}

/// The first number too large for 256 bits.
pub open spec fn amount_bound() -> nat {
    0x1_0000_0000_0000_0000_0000_0000_0000_0000_0000_0000_0000_0000_0000_0000_0000_0000nat
}

proof fn lemma_digit_char_val(d: nat)
    requires
        d < 10,
    ensures
        digit_val(digit_char(d)) == d,
        is_dec_digit(digit_char(d)),
        d != 0 ==> digit_char(d) != '0',
{
}

proof fn lemma_dec_digits_of_value(n: nat)
    ensures
        dec_value(dec_digits_of(n)) == n,
        forall|i: int|
            0 <= i < dec_digits_of(n).len() ==> is_dec_digit(#[trigger] dec_digits_of(n)[i]),
        n > 0 ==> dec_digits_of(n).len() > 0,
        n > 0 ==> dec_digits_of(n)[0] != '0',
    decreases n,
{
    if n > 0 {
        lemma_dec_digits_of_value(n / 10);
        lemma_digit_char_val(n % 10);
        let tail = dec_digits_of(n / 10);
        let whole = dec_digits_of(n);
        assert(whole =~= tail.push(digit_char(n % 10)));
        assert(whole.drop_last() =~= tail);
        assert(dec_value(whole) == dec_value(tail) * 10 + digit_val(digit_char(n % 10)));
        if n / 10 == 0 {
            assert(whole[0] == digit_char(n % 10));
            assert(n % 10 == n);
        } else {
            assert(whole[0] == tail[0]);
        }
    }
}

/// Formatting is exact and canonical: the canonical decimal string of a
/// number denotes that number, is a well-formed decimal string, and has no
/// leading zero unless the number is zero itself.
pub proof fn lemma_dec_string_of_value(n: nat)
    ensures
        dec_value(dec_string_of(n)) == n,
        is_dec_string(dec_string_of(n)),
        n > 0 ==> dec_string_of(n)[0] != '0',
{
    if n == 0 {
        let s = seq!['0'];
        assert(s.drop_last() =~= Seq::<char>::empty());
        assert(dec_value(s) == dec_value(Seq::<char>::empty()) * 10 + digit_val('0'));
    } else {
        lemma_dec_digits_of_value(n);
    }
}

/// Round trip of the amount encoding: for a valid decimal string whose value
/// fits in 256 bits, parsing it and formatting the parsed value reproduces a
/// numerically equal decimal string.
pub proof fn lemma_parse_format_round_trip(s: Seq<char>)
    requires
        is_dec_string(s),
        dec_value(s) < amount_bound(),
    ensures
        dec_value(dec_string_of(dec_value(s))) == dec_value(s),
        is_dec_string(dec_string_of(dec_value(s))),
{
    lemma_dec_string_of_value(dec_value(s));
}

proof fn lemma_dec_value_step(s: Seq<char>, j: int)
    requires
        0 <= j < s.len(),
    ensures
        dec_value(s.take(j + 1)) == dec_value(s.take(j)) * 10 + digit_val(s[j]),
{
    assert(s.take(j + 1).drop_last() =~= s.take(j));
    assert(s.take(j + 1).last() == s[j]);
}

proof fn lemma_dec_value_take_le(s: Seq<char>, j: int)
    requires
        0 <= j <= s.len(),
    ensures
        dec_value(s.take(j)) <= dec_value(s),
    decreases s.len() - j,
{
    if j == s.len() {
        assert(s.take(j) =~= s);
    } else {
        lemma_dec_value_step(s, j);
        lemma_dec_value_take_le(s, j + 1);
    }
}

/// Two to the sixty-fourth, the weight of one limb.
pub const LIMB_BOUND: u128 = 0x1_0000_0000_0000_0000;

/// An unsigned 256-bit token amount: `w0` is the least significant limb.
#[derive(Clone, Copy, Debug, PartialEq, Eq, Structural)]
pub struct Amount {
    pub w0: u64,
    pub w1: u64,
    pub w2: u64,
    pub w3: u64,
}

impl Amount {
    /// The number this amount stands for.
    pub open spec fn value(self) -> nat {
        self.w0 as nat + self.w1 as nat * 0x1_0000_0000_0000_0000nat + self.w2 as nat
            * 0x1_0000_0000_0000_0000_0000_0000_0000_0000nat + self.w3 as nat
            * 0x1_0000_0000_0000_0000_0000_0000_0000_0000_0000_0000_0000_0000nat
    }

    /// True exactly of the zero amount.
    pub fn is_zero(&self) -> (r: bool)
        ensures
            r <==> self.value() == 0,
    {
        self.w0 == 0 && self.w1 == 0 && self.w2 == 0 && self.w3 == 0
    }

    /// Multiplies by ten and adds one digit, or reports that the result
    /// would not fit in 256 bits.
    fn mul10_add(self, d: u64) -> (r: Option<Amount>)
        requires
            d < 10,
        ensures
            r matches Some(b) ==> b.value() == self.value() * 10 + d,
            r is None ==> self.value() * 10 + d >= amount_bound(),
    {
        let p0: u128 = (self.w0 as u128) * 10 + (d as u128);
        let n0: u64 = (p0 % LIMB_BOUND) as u64;
        let c0: u64 = (p0 / LIMB_BOUND) as u64;
        let p1: u128 = (self.w1 as u128) * 10 + (c0 as u128);
        let n1: u64 = (p1 % LIMB_BOUND) as u64;
        let c1: u64 = (p1 / LIMB_BOUND) as u64;
        let p2: u128 = (self.w2 as u128) * 10 + (c1 as u128);
        let n2: u64 = (p2 % LIMB_BOUND) as u64;
        let c2: u64 = (p2 / LIMB_BOUND) as u64;
        let p3: u128 = (self.w3 as u128) * 10 + (c2 as u128);
        let n3: u64 = (p3 % LIMB_BOUND) as u64;
        let c3: u64 = (p3 / LIMB_BOUND) as u64;
        let out = Amount { w0: n0, w1: n1, w2: n2, w3: n3 };
        proof {
            assert(p0 == c0 * LIMB_BOUND + n0);
            assert(p1 == c1 * LIMB_BOUND + n1);
            assert(p2 == c2 * LIMB_BOUND + n2);
            assert(p3 == c3 * LIMB_BOUND + n3);
            assert(out.value() + c3 * amount_bound() == self.value() * 10 + d);
        }
        if c3 != 0 {
            None
        } else {
            Some(out)
        }
    }

    /// Divides by ten, returning the quotient and the remainder digit.
    fn div10(self) -> (r: (Amount, u64))
        ensures
            r.1 < 10,
            self.value() == r.0.value() * 10 + r.1,
            self.value() > 0 ==> r.0.value() < self.value(),
    {
        let c3: u128 = self.w3 as u128;
        let q3: u64 = (c3 / 10) as u64;
        let r3: u128 = c3 % 10;
        let c2: u128 = r3 * LIMB_BOUND + (self.w2 as u128);
        let q2: u64 = (c2 / 10) as u64;
        let r2: u128 = c2 % 10;
        let c1: u128 = r2 * LIMB_BOUND + (self.w1 as u128);
        let q1: u64 = (c1 / 10) as u64;
        let r1: u128 = c1 % 10;
        let c0: u128 = r1 * LIMB_BOUND + (self.w0 as u128);
        let q0: u64 = (c0 / 10) as u64;
        let r0: u128 = c0 % 10;
        let q = Amount { w0: q0, w1: q1, w2: q2, w3: q3 };
        proof {
            assert(c3 == q3 * 10 + r3);
            assert(c2 == q2 * 10 + r2);
            assert(c1 == q1 * 10 + r1);
            assert(c0 == q0 * 10 + r0);
            assert(self.value() == q.value() * 10 + r0);
        }
        (q, r0 as u64)
    }

    /// Formats this amount as its canonical decimal string.
    pub fn to_dec_string(&self) -> (r: String)
        ensures
            r@ == dec_string_of(self.value()),
    {
        if self.is_zero() {
            let r = "0".to_owned();
            proof {
                reveal_strlit("0");
                assert(r@ =~= dec_string_of(0));
            }
            return r;
        }
        let mut digits: Vec<char> = Vec::new();
        let mut cur: Amount = *self;
        proof {
            assert(dec_digits_of(cur.value()) + digits@.reverse() =~= dec_digits_of(
                self.value(),
            ));
        }
        while !cur.is_zero()
            invariant
                dec_digits_of(self.value()) == dec_digits_of(cur.value()) + digits@.reverse(),
            decreases cur.value(),
        {
            let ghost vc: nat = cur.value();
            let ghost old_digits: Seq<char> = digits@;
            let (q, rem) = cur.div10();
            let ch = digit_to_char(rem);
            digits.push(ch);
            proof {
                assert(q.value() == vc / 10 && rem as nat == vc % 10);
                assert(dec_digits_of(vc) == dec_digits_of(vc / 10).push(digit_char(vc % 10)));
                assert(digits@.reverse() =~= seq![ch] + old_digits.reverse());
                assert(dec_digits_of(q.value()) + digits@.reverse() =~= dec_digits_of(
                    self.value(),
                ));
            }
            cur = q;
        }
        proof {
            assert(dec_digits_of(cur.value()) =~= Seq::<char>::empty());
            assert(digits@.reverse() =~= dec_digits_of(self.value()));
        }
        let mut out = String::new();
        let mut i: usize = digits.len();
        while i > 0
            invariant
                i <= digits@.len(),
                digits@.reverse() == dec_digits_of(self.value()),
                out@ == digits@.reverse().take(digits@.len() - i),
            decreases i,
        {
            let ghost old_out: Seq<char> = out@;
            i = i - 1;
            push_char(&mut out, digits[i]);
            proof {
                let k: int = digits@.len() - i - 1;
                assert(digits@.reverse()[k] == digits@[i as int]);
                assert(out@ =~= digits@.reverse().take(k + 1));
            }
        }
        proof {
            assert(out@ =~= digits@.reverse());
        }
        out
    }
}

/// The exec counterpart of `digit_char`.
fn digit_to_char(d: u64) -> (c: char)
    requires
        d < 10,
    ensures
        c == digit_char(d as nat),
{
    if d == 0 {
        '0'
    } else if d == 1 {
        '1'
    } else if d == 2 {
        '2'
    } else if d == 3 {
        '3'
    } else if d == 4 {
        '4'
    } else if d == 5 {
        '5'
    } else if d == 6 {
        '6'
    } else if d == 7 {
        '7'
    } else if d == 8 {
        '8'
    } else {
        '9'
    }
}

/// Relies on String::push: appends exactly one character.
#[verifier::external_body]
fn push_char(s: &mut String, c: char)
    ensures
        final(s)@ == old(s)@.push(c),
{
    s.push(c);
}

/// Parses a decimal amount string into a 256-bit amount.
///
/// Succeeds exactly on nonempty all-digit strings whose value fits in 256
/// bits; anything else is a parse error, never a fault.
pub fn parse_amount(s: &str) -> (r: Result<Amount, PipelineError>)
    ensures
        r is Ok <==> is_dec_string(s@) && dec_value(s@) < amount_bound(),
        r matches Ok(a) ==> a.value() == dec_value(s@),
        !is_dec_string(s@) ==> (r matches Err(e) && e matches PipelineError::ParseError(m)
            && m@ == "amount is not a decimal string"@),
        is_dec_string(s@) && dec_value(s@) >= amount_bound() ==> (r matches Err(e)
            && e matches PipelineError::ParseError(m) && m@
            == "amount does not fit in 256 bits"@),
{
    let n = s.unicode_len();
    if n == 0 {
        return Err(PipelineError::ParseError("amount is not a decimal string".to_owned()));
    }
    let mut i: usize = 0;
    while i < n
        invariant
            i <= n,
            n == s@.len(),
            forall|j: int| 0 <= j < i ==> is_dec_digit(s@[j]),
        decreases n - i,
    {
        let c = s.get_char(i);
        if c < '0' || c > '9' {
            return Err(PipelineError::ParseError("amount is not a decimal string".to_owned()));
        }
        i = i + 1;
    }
    let mut a = Amount { w0: 0, w1: 0, w2: 0, w3: 0 };
    let mut k: usize = 0;
    while k < n
        invariant
            k <= n,
            n == s@.len(),
            is_dec_string(s@),
            a.value() == dec_value(s@.take(k as int)),
        decreases n - k,
    {
        let c = s.get_char(k);
        let d: u64 = ((c as u32) - 48) as u64;
        proof {
            assert(is_dec_digit(s@[k as int]));
            assert(d == digit_val(s@[k as int]));
            lemma_dec_value_step(s@, k as int);
        }
        match a.mul10_add(d) {
            Some(next) => {
                a = next;
            },
            None => {
                proof {
                    lemma_dec_value_take_le(s@, k as int + 1);
                }
                return Err(
                    PipelineError::ParseError("amount does not fit in 256 bits".to_owned()),
                );
            },
        }
        k = k + 1;
    }
    proof {
        assert(s@.take(n as int) =~= s@);
    }
    Ok(a)
}

} // verus!
