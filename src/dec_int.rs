//! Integers written out in decimal, for path components such as
//! `/proc/self/fd/<fd>`.
use vstd::prelude::*;
use vstd::slice::slice_subrange;

verus! {

/// The decimal digits of `n`, most significant first, with no leading zero.
pub open spec fn digits(n: nat) -> Seq<u8>
    decreases n,
{
    if n < 10 {
        seq![(48 + n) as u8]
    } else {
        digits(n / 10).push((48 + n % 10) as u8)
    }
}

/// The decimal text of `i`: a `-` where it is negative, then its digits.
pub open spec fn decimal(i: int) -> Seq<u8> {
    if i < 0 {
        seq![45u8] + digits((-i) as nat)
    } else {
        digits(i as nat)
    }
}

/// Relies on `itoa::Buffer::format`: the decimal text of an integer.
#[verifier::external_body]
fn format_decimal(i: i64) -> (r: Vec<u8>)
    ensures
        r@ == decimal(i as int),
{
    itoa::Buffer::new().format(i).as_bytes().to_vec()
}

/// A number below `10^k` has at most `k` digits.
proof fn lemma_digits_len(n: nat, k: nat, bound: nat)
    requires
        1 <= k,
        n < bound,
        bound == pow10(k),
    ensures
        digits(n).len() <= k,
    decreases n,
{
    if n >= 10 {
        assert(k >= 2) by {
            if k == 1 {
                assert(pow10(1) == 10 * pow10(0));
            }
        }
        let b = pow10((k - 1) as nat);
        assert(bound == 10 * b);
        assert(n / 10 < b) by (nonlinear_arith)
            requires
                n < 10 * b,
        ;
        lemma_digits_len(n / 10, (k - 1) as nat, b);
    }
}

/// `10^k`.
pub open spec fn pow10(k: nat) -> nat
    decreases k,
{
    if k == 0 {
        1
    } else {
        10 * pow10((k - 1) as nat)
    }
}

/// An integer written out in decimal, held without allocation.
#[derive(Clone, Copy, Debug)]
pub struct DecInt {
    buf: [u8; 20],
    len: usize,
}

impl View for DecInt {
    type V = Seq<u8>;

    closed spec fn view(&self) -> Seq<u8> {
        self.buf@.subrange(0, self.len as int)
    }
}

impl DecInt {
    #[verifier::type_invariant]
    spec fn fits(&self) -> bool {
        self.len <= 20
    }

    /// Writes out `i` in decimal.
    pub fn new(i: i64) -> (r: DecInt)
        ensures
            r@ == decimal(i as int),
    {
        let text = format_decimal(i);
        proof {
            reveal_with_fuel(pow10, 20);
            let m: int = if i < 0 { -(i as int) } else { i as int };
            assert(m < pow10(19));
            lemma_digits_len(m as nat, 19, pow10(19));
        }
        let mut buf: [u8; 20] = [0u8; 20];
        let mut k: usize = 0;
        while k < text.len()
            invariant
                text@.len() <= 20,
                0 <= k <= text@.len(),
                buf@.len() == 20,
                forall|j: int| 0 <= j < k ==> buf@[j] == text@[j],
            decreases text@.len() - k,
        {
            buf[k] = text[k];
            k = k + 1;
        }
        let r = DecInt { buf, len: text.len() };
        assert(r@ =~= text@);
        r
    }

    /// Writes out the raw number of a file descriptor in decimal.
    pub fn from_fd(fd: i32) -> (r: DecInt)
        ensures
            r@ == decimal(fd as int),
    {
        DecInt::new(fd as i64)
    }

    /// Returns the decimal text.
    pub fn as_bytes(&self) -> (r: &[u8])
        ensures
            r@ == self@,
    {
        proof {
            use_type_invariant(self);
        }
        slice_subrange(self.buf.as_slice(), 0, self.len)
    }
}

} // verus!
