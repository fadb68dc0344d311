//! Unbounded unsigned integers, as token amounts are on chain: a list of
//! 32-bit digits, least significant first, with no trailing zero digit.
use vstd::prelude::*;

verus! {

/// The base of the digits.
pub open spec fn digit_base() -> nat {
    4294967296
}

/// `digit_base()` to the power `n`.
pub open spec fn base_pow(n: nat) -> nat
    decreases n,
{
    if n == 0 {
        1
    } else {
        digit_base() * base_pow((n - 1) as nat)
    }
}

/// The digit of `digits` at position `i`, zero past the end.
pub open spec fn digit(digits: Seq<u32>, i: int) -> nat {
    if 0 <= i < digits.len() {
        digits[i] as nat
    } else {
        0
    }
}

/// The value of the first `n` digits of `digits`.
pub open spec fn value_upto(digits: Seq<u32>, n: nat) -> nat
    decreases n,
{
    if n == 0 {
        0
    } else {
        value_upto(digits, (n - 1) as nat) + digit(digits, n - 1) * base_pow((n - 1) as nat)
    }
}

/// The value of `digits`, least significant first.
pub open spec fn digits_value(digits: Seq<u32>) -> nat {
    value_upto(digits, digits.len())
}

/// An unbounded unsigned integer.
#[derive(Debug, PartialEq, Eq)]
pub struct BigUint {
    digits: Vec<u32>,
}

impl View for BigUint {
    type V = nat;

    closed spec fn view(&self) -> nat {
        digits_value(self.digits@)
    }
}

proof fn lemma_base_pow_positive(n: nat)
    ensures
        base_pow(n) >= 1,
    decreases n,
{
    if n > 0 {
        lemma_base_pow_positive((n - 1) as nat);
        assert(digit_base() * base_pow((n - 1) as nat) >= base_pow((n - 1) as nat)) by (nonlinear_arith)
            requires
                base_pow((n - 1) as nat) >= 1,
        ;
    }
}

/// The first `n` digits are worth less than `base_pow(n)`.
proof fn lemma_value_upto_bound(digits: Seq<u32>, n: nat)
    ensures
        value_upto(digits, n) < base_pow(n),
    decreases n,
{
    if n > 0 {
        let m = (n - 1) as nat;
        lemma_value_upto_bound(digits, m);
        let d = digit(digits, m as int);
        let p = base_pow(m);
        let v = value_upto(digits, m);
        assert(d < digit_base());
        assert(v + d * p < digit_base() * p) by (nonlinear_arith)
            requires
                v < p,
                d < digit_base(),
                digit_base() == 4294967296,
        ;
    }
}

/// Digits past the end count as zero.
proof fn lemma_value_upto_past_end(digits: Seq<u32>, n: nat)
    requires
        n >= digits.len(),
    ensures
        value_upto(digits, n) == digits_value(digits),
    decreases n,
{
    if n > digits.len() {
        lemma_value_upto_past_end(digits, (n - 1) as nat);
        assert(digit(digits, n - 1) == 0);
        assert(value_upto(digits, n) == value_upto(digits, (n - 1) as nat) + 0 * base_pow((n - 1) as nat));
    }
}

/// The first `n` digits of two lists that agree on them are worth the same.
proof fn lemma_value_upto_same_prefix(a: Seq<u32>, b: Seq<u32>, n: nat)
    requires
        forall|i: int| 0 <= i < n ==> digit(a, i) == digit(b, i),
    ensures
        value_upto(a, n) == value_upto(b, n),
    decreases n,
{
    if n > 0 {
        lemma_value_upto_same_prefix(a, b, (n - 1) as nat);
    }
}

/// Dropping a trailing zero digit changes no value.
proof fn lemma_drop_trailing_zero(digits: Seq<u32>)
    requires
        digits.len() > 0,
        digits.last() == 0,
    ensures
        digits_value(digits.drop_last()) == digits_value(digits),
{
    let m = (digits.len() - 1) as nat;
    let shorter = digits.drop_last();
    lemma_value_upto_same_prefix(digits, shorter, m);
    assert(digit(digits, m as int) == 0);
    assert(value_upto(digits, m + 1) == value_upto(digits, m) + 0 * base_pow(m));
}

/// The digit at `i`, zero past the end.
fn digit_at(digits: &Vec<u32>, i: usize) -> (res: u32)
    ensures
        res as nat == digit(digits@, i as int),
{
    if i < digits.len() {
        digits[i]
    } else {
        0
    }
}

/// `digits` without its trailing zero digits, which changes no value.
fn trimmed(digits: Vec<u32>) -> (res: Vec<u32>)
    ensures
        digits_value(res@) == digits_value(digits@),
        res.len() == 0 || res@.last() != 0,
{
    let mut res = digits;
    while res.len() > 0 && res[res.len() - 1] == 0
        invariant
            digits_value(res@) == digits_value(digits@),
        decreases res.len(),
    {
        let ghost before = res@;
        res.pop();
        proof {
            lemma_drop_trailing_zero(before);
        }
    }
    res
}

impl BigUint {
    /// Whether there is no trailing zero digit.
    pub closed spec fn is_trimmed(&self) -> bool {
        self.digits.len() == 0 || self.digits@.last() != 0
    }

    /// Zero.
    pub fn zero() -> (res: Self)
        ensures
            res@ == 0,
    {
        BigUint { digits: Vec::new() }
    }

    /// The number whose digits, least significant first, are `digits`.
    pub fn from_u32_digits(digits: Vec<u32>) -> (res: Self)
        ensures
            res@ == digits_value(digits@),
            res.is_trimmed(),
    {
        BigUint { digits: trimmed(digits) }
    }

    /// The digits of this number, least significant first, without trailing
    /// zero digits.
    pub fn to_u32_digits(&self) -> (res: Vec<u32>)
        ensures
            digits_value(res@) == self@,
    {
        let mut res: Vec<u32> = Vec::new();
        let mut i: usize = 0;
        while i < self.digits.len()
            invariant
                i <= self.digits.len(),
                res@ == self.digits@.subrange(0, i as int),
            decreases self.digits.len() - i,
        {
            res.push(self.digits[i]);
            i = i + 1;
        }
        assert(res@ =~= self.digits@);
        res
    }

    /// The number `value`.
    pub fn from_u128(value: u128) -> (res: Self)
        ensures
            res@ == value as nat,
            res.is_trimmed(),
    {
        let d0 = (value % 4294967296) as u32;
        let v1 = value / 4294967296;
        let d1 = (v1 % 4294967296) as u32;
        let v2 = v1 / 4294967296;
        let d2 = (v2 % 4294967296) as u32;
        let d3 = (v2 / 4294967296) as u32;
        let mut digits: Vec<u32> = Vec::new();
        digits.push(d0);
        digits.push(d1);
        digits.push(d2);
        digits.push(d3);
        proof {
            assert(v2 / 4294967296 < 4294967296);
            assert(base_pow(0) == 1);
            assert(base_pow(1) == digit_base() * base_pow(0));
            assert(base_pow(1) == 4294967296);
            assert(base_pow(2) == digit_base() * base_pow(1));
            assert(base_pow(2) == 4294967296 * 4294967296);
            assert(base_pow(3) == digit_base() * base_pow(2));
            assert(base_pow(3) == 4294967296 * (4294967296 * 4294967296));
            let s = digits@;
            assert(digit(s, 0) == d0 && digit(s, 1) == d1 && digit(s, 2) == d2 && digit(s, 3) == d3);
            assert(value_upto(s, 0) == 0);
            assert(value_upto(s, 1) == d0);
            assert(value_upto(s, 2) == d0 + d1 * 4294967296);
            assert(value_upto(s, 3) == d0 + d1 * 4294967296 + d2 * (4294967296 * 4294967296));
            assert(digits_value(digits@) == d0 + d1 * 4294967296 + d2 * (4294967296 * 4294967296)
                + d3 * (4294967296 * (4294967296 * 4294967296)));
            assert(value == d0 + 4294967296 * (d1 + 4294967296 * (d2 + 4294967296 * d3))) by (nonlinear_arith)
                requires
                    d0 == value % 4294967296,
                    v1 == value / 4294967296,
                    d1 == v1 % 4294967296,
                    v2 == v1 / 4294967296,
                    d2 == v2 % 4294967296,
                    d3 == v2 / 4294967296,
            ;
            assert(d0 + 4294967296 * (d1 + 4294967296 * (d2 + 4294967296 * d3)) == d0 + d1 * 4294967296
                + d2 * (4294967296 * 4294967296) + d3 * (4294967296 * (4294967296 * 4294967296)))
                by (nonlinear_arith);
        }
        BigUint { digits: trimmed(digits) }
    }

    /// A copy of this number.
    pub fn duplicate(&self) -> (res: Self)
        ensures
            res@ == self@,
    {
        BigUint { digits: self.to_u32_digits() }
    }

    /// The digits of `self - other` when `other` is not larger, and whether
    /// the subtraction borrowed past the last digit (that is, `self < other`).
    fn sub_with_borrow(&self, other: &Self) -> (res: (Vec<u32>, bool))
        ensures
            res.1 <==> self@ < other@,
            !res.1 ==> digits_value(res.0@) == self@ - other@,
    {
        let n: usize = if self.digits.len() >= other.digits.len() {
            self.digits.len()
        } else {
            other.digits.len()
        };
        let mut res: Vec<u32> = Vec::new();
        let mut borrow: u64 = 0;
        let mut i: usize = 0;
        while i < n
            invariant
                i <= n,
                n >= self.digits.len(),
                n >= other.digits.len(),
                res.len() == i,
                borrow <= 1,
                value_upto(res@, i as nat) + value_upto(other.digits@, i as nat) == value_upto(
                    self.digits@,
                    i as nat,
                ) + borrow * base_pow(i as nat),
            decreases n - i,
        {
            let a = digit_at(&self.digits, i) as u64;
            let b = digit_at(&other.digits, i) as u64;
            let (d, next_borrow): (u64, u64) = if a >= b + borrow {
                (a - b - borrow, 0)
            } else {
                (a + 4294967296 - b - borrow, 1)
            };
            let ghost before = res@;
            res.push(d as u32);
            proof {
                let p = base_pow(i as nat);
                lemma_value_upto_same_prefix(before, res@, i as nat);
                assert(digit(res@, i as int) == d);
                assert(d + b + borrow == a + next_borrow * digit_base());
                assert(d * p + b * p + borrow * p == a * p + next_borrow * (digit_base() * p))
                    by (nonlinear_arith)
                    requires
                        d + b + borrow == a + next_borrow * digit_base(),
                ;
            }
            borrow = next_borrow;
            i = i + 1;
        }
        proof {
            lemma_value_upto_past_end(self.digits@, n as nat);
            lemma_value_upto_past_end(other.digits@, n as nat);
            lemma_value_upto_bound(res@, n as nat);
        }
        (res, borrow == 1)
    }

    /// Whether `self <= other`.
    pub fn le(&self, other: &Self) -> (res: bool)
        ensures
            res <==> self@ <= other@,
    {
        let (_, borrow) = other.sub_with_borrow(self);
        !borrow
    }

    /// Whether this number is zero.
    pub fn is_zero(&self) -> (res: bool)
        ensures
            res <==> self@ == 0,
    {
        self.le(&BigUint::zero())
    }

    /// `self - other`; `other` must not be larger.
    pub fn sub(&self, other: &Self) -> (res: Self)
        requires
            other@ <= self@,
        ensures
            res@ == self@ - other@,
            res.is_trimmed(),
    {
        let (digits, _) = self.sub_with_borrow(other);
        BigUint { digits: trimmed(digits) }
    }

    /// Half of this number, rounded down.
    pub fn half(&self) -> (res: Self)
        ensures
            res@ == self@ / 2,
            res.is_trimmed(),
    {
        let n = self.digits.len();
        let mut res: Vec<u32> = Vec::new();
        let mut i: usize = 0;
        assert(value_upto(res@, 0) == 0 && value_upto(self.digits@, 0) == 0 && base_pow(0) == 1);
        while i < n
            invariant
                i <= n,
                n == self.digits.len(),
                res.len() == i,
                2 * value_upto(res@, i as nat) + digit(self.digits@, 0) % 2 == value_upto(
                    self.digits@,
                    i as nat,
                ) + (digit(self.digits@, i as int) % 2) * base_pow(i as nat),
            decreases n - i,
        {
            let a = self.digits[i];
            let next = digit_at(&self.digits, i + 1);
            let d: u32 = a / 2 + (next % 2) * 2147483648;
            let ghost before = res@;
            res.push(d);
            proof {
                let p = base_pow(i as nat);
                lemma_value_upto_same_prefix(before, res@, i as nat);
                assert(digit(res@, i as int) == d);
                assert(2 * d + a % 2 == a + (next % 2) * digit_base());
                let r = value_upto(before, i as nat);
                let v = value_upto(self.digits@, i as nat);
                let c = digit(self.digits@, 0) % 2;
                assert(2 * (r + d * p) + c == v + a * p + ((next % 2) as nat) * (digit_base() * p))
                    by (nonlinear_arith)
                    requires
                        2 * r + c == v + (a % 2) * p,
                        2 * d + a % 2 == a + (next % 2) * digit_base(),
                ;
            }
            i = i + 1;
        }
        proof {
            lemma_value_upto_past_end(self.digits@, n as nat);
            assert(digit(self.digits@, n as int) == 0);
            assert((digit(self.digits@, n as int) % 2) * base_pow(n as nat) == 0);
            let r = value_upto(res@, n as nat);
            let c = digit(self.digits@, 0) % 2;
            assert(2 * r + c == self@);
            assert(r == self@ / 2);
            assert(digits_value(res@) == r);
        }
        BigUint { digits: trimmed(res) }
    }
}

} // verus!
