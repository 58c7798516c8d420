//! The radix-2 Cooley-Tukey transform.
//!
//! `fft_spec` is the mathematical model: a signal of length zero or one is
//! returned unchanged; any other signal is zero-padded to the next power of
//! two, split into even- and odd-indexed halves, and the recursively
//! transformed halves are recombined butterfly by butterfly with twiddle
//! factors `e^(-2*pi*i*k/n)`. The executable `fft` returns exactly
//! `fft_spec` of its input.

use vstd::prelude::*;
use crate::complex::{Complex, c_add, c_sub, c_mul};
use crate::float_bits::{mul_bits, div_bits, cos_bits, sin_bits, usize_to_bits};
use crate::float_bits::{f64_mul, f64_div, f64_cos, f64_sin, f64_from_usize};

verus! {

/// IEEE-754 binary64 bit pattern of -2.0.
pub const NEG_TWO_BITS: u64 = 0xC000_0000_0000_0000;

/// IEEE-754 binary64 bit pattern of the double nearest to pi.
pub const PI_BITS: u64 = 0x4009_21FB_5444_2D18;

/// The zero sample appended when a signal is padded.
pub open spec fn c_zero() -> Complex {
    Complex { real: 0, imag: 0 }
}

/// Whether `n` is a power of two.
pub open spec fn is_pow2(n: nat) -> bool
    decreases n,
{
    if n == 0 {
        false
    } else if n == 1 {
        true
    } else {
        n % 2 == 0 && is_pow2(n / 2)
    }
}

/// The smallest power of two that is at least `n` (and at least 1).
pub open spec fn next_pow2(n: nat) -> nat
    decreases n,
{
    if n <= 1 {
        1
    } else {
        2 * next_pow2((n + 1) / 2)
    }
}

/// `s` extended to length `n` with zero samples.
pub open spec fn pad_to(s: Seq<Complex>, n: nat) -> Seq<Complex> {
    s + Seq::new((n - s.len()) as nat, |i: int| c_zero())
}

/// The even-indexed samples of `s`.
pub open spec fn evens(s: Seq<Complex>) -> Seq<Complex> {
    Seq::new(((s.len() + 1) / 2) as nat, |i: int| s[2 * i])
}

/// The odd-indexed samples of `s`.
pub open spec fn odds(s: Seq<Complex>) -> Seq<Complex> {
    Seq::new((s.len() / 2) as nat, |i: int| s[2 * i + 1])
}

/// The twiddle factor `e^(-2*pi*i*k/n)`: cosine and sine of the angle
/// `-2.0 * pi * k / n`, each operation an IEEE-754 binary64 step.
pub open spec fn twiddle(k: int, n: int) -> Complex {
    let angle = div_bits(
        mul_bits(mul_bits(NEG_TWO_BITS, PI_BITS), usize_to_bits(k as usize)),
        usize_to_bits(n as usize),
    );
    Complex { real: cos_bits(angle), imag: sin_bits(angle) }
}

/// The butterfly step: bin `k` of the combined transform is
/// `e[k] + w_k * o[k]`, and bin `k + h` is `e[k] - w_k * o[k]`, where
/// `h` is the half length and `w_k` the twiddle factor for the full length.
pub open spec fn combine(e: Seq<Complex>, o: Seq<Complex>) -> Seq<Complex> {
    let h = e.len() as int;
    Seq::new((2 * h) as nat, |i: int| (
        if i < h {
            c_add(e[i], c_mul(twiddle(i, 2 * h), o[i]))
        } else {
            c_sub(e[i - h], c_mul(twiddle(i - h, 2 * h), o[i - h]))
        }
    ))
}

/// The transform of a signal whose length is a power of two (or zero):
/// the identity on short signals, otherwise the butterfly combination of
/// the transformed even- and odd-indexed halves.
pub open spec fn fft_pow2(s: Seq<Complex>) -> Seq<Complex>
    decreases s.len(),
{
    if s.len() <= 1 {
        s
    } else {
        combine(fft_pow2(evens(s)), fft_pow2(odds(s)))
    }
}

/// The transform of an arbitrary signal: signals of length zero or one are
/// returned unchanged, any other signal is first zero-padded to the next
/// power of two.
pub open spec fn fft_spec(s: Seq<Complex>) -> Seq<Complex> {
    if s.len() <= 1 {
        s
    } else {
        fft_pow2(pad_to(s, next_pow2(s.len())))
    }
}

/// `next_pow2(n)` is a power of two, at least `n`, and (for `n >= 2`)
/// at most `2 * (n - 1)`.
pub proof fn lemma_next_pow2_bounds(n: nat)
    ensures
        is_pow2(next_pow2(n)),
        next_pow2(n) >= n,
        n >= 2 ==> next_pow2(n) <= 2 * (n - 1),
    decreases n,
{
    if n <= 1 {
    } else {
        let m = (n + 1) / 2;
        lemma_next_pow2_bounds(m);
        assert(2 * m <= n + 1);
        assert(2 * m >= n);
    }
}

/// A power of two is its own next power of two.
pub proof fn lemma_next_pow2_of_pow2(n: nat)
    requires
        is_pow2(n),
    ensures
        next_pow2(n) == n,
    decreases n,
{
    if n <= 1 {
    } else {
        assert(n % 2 == 0);
        assert((n + 1) / 2 == n / 2);
        lemma_next_pow2_of_pow2(n / 2);
    }
}

/// No power of two lies strictly between a power of two and its double.
pub proof fn lemma_pow2_double_le(a: nat, b: nat)
    requires
        is_pow2(a),
        is_pow2(b),
        a < b,
    ensures
        2 * a <= b,
    decreases b,
{
    if a == 1 {
        assert(b >= 2);
    } else {
        assert(a >= 2 && b >= 2);
        lemma_pow2_double_le(a / 2, b / 2);
    }
}

/// `next_pow2(n)` is minimal: no smaller power of two reaches `n`.
pub proof fn lemma_next_pow2_min(n: nat, m: nat)
    requires
        is_pow2(m),
        m >= n,
    ensures
        next_pow2(n) <= m,
    decreases n,
{
    if n <= 1 {
    } else {
        assert(m >= 2);
        assert(is_pow2(m / 2));
        lemma_next_pow2_min((n + 1) / 2, m / 2);
    }
}

/// The transform of a signal whose length is a power of two keeps its length.
pub proof fn lemma_fft_pow2_len(s: Seq<Complex>)
    requires
        is_pow2(s.len()),
    ensures
        fft_pow2(s).len() == s.len(),
    decreases s.len(),
{
    if s.len() <= 1 {
    } else {
        assert(s.len() % 2 == 0);
        assert(evens(s).len() == s.len() / 2);
        assert(odds(s).len() == s.len() / 2);
        assert(is_pow2(s.len() / 2));
        lemma_fft_pow2_len(evens(s));
        lemma_fft_pow2_len(odds(s));
    }
}

/// On a signal whose length is already a power of two, padding changes
/// nothing and the two spec functions agree.
pub proof fn lemma_fft_spec_on_pow2(s: Seq<Complex>)
    requires
        is_pow2(s.len()),
    ensures
        fft_spec(s) == fft_pow2(s),
{
    if s.len() <= 1 {
    } else {
        lemma_next_pow2_of_pow2(s.len());
        assert(pad_to(s, s.len()) =~= s);
    }
}

/// Length law: a signal of length zero or one keeps its length, and any
/// other signal is transformed to the next power of two in length.
pub proof fn lemma_transform_length(s: Seq<Complex>)
    ensures
        s.len() <= 1 ==> fft_spec(s).len() == s.len(),
        s.len() >= 2 ==> fft_spec(s).len() == next_pow2(s.len()),
{
    if s.len() >= 2 {
        lemma_next_pow2_bounds(s.len());
        assert(pad_to(s, next_pow2(s.len())).len() == next_pow2(s.len()));
        lemma_fft_pow2_len(pad_to(s, next_pow2(s.len())));
    }
}

/// Identity law: the empty signal and any single-sample signal are
/// returned unchanged by the transform.
pub proof fn lemma_transform_identity_short(s: Seq<Complex>)
    requires
        s.len() <= 1,
    ensures
        fft_spec(s) == s,
{
}

/// The twiddle factor for bin `k` of a transform of working length `n`:
/// cosine and sine of `-2.0 * pi * k / n`.
fn twiddle_factor(k: usize, n: usize) -> (w: Complex)
    ensures
        w == twiddle(k as int, n as int),
{
    let kf = f64_from_usize(k);
    let nf = f64_from_usize(n);
    let angle = f64_div(f64_mul(f64_mul(NEG_TWO_BITS, PI_BITS), kf), nf);
    Complex { real: f64_cos(angle), imag: f64_sin(angle) }
}

/// Computes the discrete Fourier transform of `x` with the recursive
/// radix-2 Cooley-Tukey algorithm. A signal of length zero or one is copied
/// unchanged; any other signal is zero-padded to the next power of two, so
/// the output length is that power of two. The result is exactly
/// `fft_spec` of the input. The one precondition leaves room for the
/// padded length: the input may not be longer than half of `usize::MAX`.
#[verifier::loop_isolation(false)]
pub fn fft(x: &Vec<Complex>) -> (r: Vec<Complex>)
    requires
        x@.len() <= usize::MAX / 2,
    ensures
        r@ == fft_spec(x@),
        r@.len() == (if x@.len() <= 1 { x@.len() } else { next_pow2(x@.len()) }),
    decreases x@.len(),
{
    proof {
        lemma_transform_length(x@);
    }
    let n0 = x.len();

    let mut input: Vec<Complex> = Vec::new();
    let mut i: usize = 0;
    while i < n0
        invariant
            i <= n0,
            input@ == x@.subrange(0, i as int),
        decreases n0 - i,
    {
        input.push(x[i]);
        i = i + 1;
    }
    assert(input@ == x@);
    if n0 <= 1 {
        return input;
    }

    proof {
        lemma_next_pow2_bounds(n0 as nat);
    }
    let mut np: usize = 1;
    while np < n0
        invariant
            1 <= np,
            is_pow2(np as nat),
            np <= next_pow2(n0 as nat),
        decreases 2 * n0 - np,
    {
        proof {
            lemma_pow2_double_le(np as nat, next_pow2(n0 as nat));
        }
        np = np * 2;
    }
    proof {
        lemma_next_pow2_min(n0 as nat, np as nat);
        assert(np == next_pow2(n0 as nat));
        assert(pad_to(x@, x@.len()) =~= x@);
    }

    while input.len() < np
        invariant
            x@.len() <= input@.len() <= np,
            input@ == pad_to(x@, input@.len()),
        decreases np - input@.len(),
    {
        input.push(Complex::new(0, 0));
    }

    let h = np / 2;
    proof {
        assert(np % 2 == 0);
        assert((np + 1) / 2 == np / 2);
    }
    let mut even: Vec<Complex> = Vec::new();
    let mut odd: Vec<Complex> = Vec::new();
    let mut k: usize = 0;
    while k < h
        invariant
            k <= h,
            even@.len() == k,
            odd@.len() == k,
            forall|j: int| 0 <= j < k ==> even@[j] == input@[2 * j],
            forall|j: int| 0 <= j < k ==> odd@[j] == input@[2 * j + 1],
        decreases h - k,
    {
        even.push(input[2 * k]);
        odd.push(input[2 * k + 1]);
        k = k + 1;
    }
    proof {
        assert(even@ =~= evens(input@));
        assert(odd@ =~= odds(input@));
        assert(is_pow2(h as nat));
        assert(h < x@.len());
    }

    let even_fft = fft(&even);
    let odd_fft = fft(&odd);
    proof {
        lemma_fft_spec_on_pow2(even@);
        lemma_fft_spec_on_pow2(odd@);
        lemma_fft_pow2_len(even@);
        lemma_fft_pow2_len(odd@);
    }

    let mut t: Vec<Complex> = Vec::new();
    let mut k: usize = 0;
    while k < h
        invariant
            k <= h,
            t@.len() == k,
            forall|j: int| 0 <= j < k ==> t@[j] == c_mul(twiddle(j, np as int), odd_fft@[j]),
        decreases h - k,
    {
        let w = twiddle_factor(k, np);
        t.push(w.multiply(&odd_fft[k]));
        k = k + 1;
    }

    let mut result: Vec<Complex> = Vec::new();
    let mut k: usize = 0;
    while k < h
        invariant
            k <= h,
            result@.len() == k,
            forall|j: int| 0 <= j < k ==> result@[j] == c_add(even_fft@[j], t@[j]),
        decreases h - k,
    {
        result.push(even_fft[k].add(&t[k]));
        k = k + 1;
    }
    let mut k: usize = 0;
    while k < h
        invariant
            k <= h,
            result@.len() == h + k,
            forall|j: int| 0 <= j < h ==> result@[j] == c_add(even_fft@[j], t@[j]),
            forall|j: int| 0 <= j < k ==> result@[h + j] == c_sub(even_fft@[j], t@[j]),
        decreases h - k,
    {
        result.push(even_fft[k].subtract(&t[k]));
        k = k + 1;
    }

    proof {
        assert(result@ =~= combine(even_fft@, odd_fft@));
        assert(fft_pow2(input@) == combine(fft_pow2(evens(input@)), fft_pow2(odds(input@))));
    }
    result
}

} // verus!

