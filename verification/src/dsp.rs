use vstd::prelude::*;

verus! {

/// A spectrum with its two halves swapped, so that the zero-frequency bin
/// that an FFT puts first lands in the middle.
pub open spec fn fft_shifted<T>(s: Seq<T>) -> Seq<T> {
    s.subrange((s.len() / 2) as int, s.len() as int) + s.subrange(0, (s.len() / 2) as int)
}

/// Swap the first and second halves of an FFT output so that DC is centered.
///
/// The length must be even: the two halves are copied onto each other.
pub fn fft_shift<T: Copy>(values: &[T]) -> (shifted: Vec<T>)
    requires
        values@.len() % 2 == 0,
    ensures
        shifted@ == fft_shifted(values@),
{
    let n = values.len();
    let half = n / 2;
    let mut shifted: Vec<T> = Vec::new();
    let mut i: usize = half;
    while i < n
        invariant
            half == n / 2,
            n == values@.len(),
            half <= i <= n,
            shifted@ == values@.subrange(half as int, i as int),
        decreases n - i,
    {
        shifted.push(values[i]);
        i += 1;
        assert(shifted@ =~= values@.subrange(half as int, i as int));
    }
    let mut j: usize = 0;
    while j < half
        invariant
            half == n / 2,
            n == values@.len(),
            j <= half,
            shifted@ == values@.subrange(half as int, n as int) + values@.subrange(0, j as int),
        decreases half - j,
    {
        shifted.push(values[j]);
        j += 1;
        assert(shifted@ =~= values@.subrange(half as int, n as int) + values@.subrange(
            0,
            j as int,
        ));
    }
    shifted
}

/// Shifting twice gives the spectrum back.
pub proof fn lemma_fft_shift_involution<T>(s: Seq<T>)
    requires
        s.len() % 2 == 0,
    ensures
        fft_shifted(fft_shifted(s)) == s,
{
    let t = fft_shifted(s);
    assert(t.len() == s.len());
    assert(fft_shifted(t) =~= s);
}

/// After the shift the zero-frequency bin stands at the middle index, and
/// every bin `k` of the first half stands `len / 2` places further on.
pub proof fn lemma_fft_shift_centers_dc<T>(s: Seq<T>, k: int)
    requires
        s.len() % 2 == 0,
        0 <= k < s.len() / 2,
    ensures
        fft_shifted(s).len() == s.len(),
        fft_shifted(s)[s.len() / 2 + k] == s[k],
        fft_shifted(s)[k] == s[s.len() / 2 + k],
{
}

/// How many samples decimation by `factor` keeps of `n`: those at the
/// indices `0, factor, 2 * factor, ...` below `n`.
pub open spec fn decimated_len(n: nat, factor: nat) -> nat
    recommends
        factor > 0,
{
    ((n + factor - 1) as nat / factor) as nat
}

/// Every `factor`-th sample of `s`, starting with the first.
pub open spec fn decimated<T>(s: Seq<T>, factor: nat) -> Seq<T>
    recommends
        factor > 0,
{
    Seq::new(decimated_len(s.len(), factor), |k: int| s[k * factor])
}

proof fn lemma_decimated_len_step(k: nat, factor: nat, n: nat)
    requires
        factor > 0,
        k * factor < n,
        n <= (k + 1) * factor,
    ensures
        decimated_len(n, factor) == k + 1,
{
    let q = (n + factor - 1) as nat;
    assert(q == k * factor + factor + (n - k * factor - 1)) by (nonlinear_arith)
        requires
            q == (n + factor - 1) as nat,
            k * factor < n,
    ;
    assert((k * factor + factor) == (k + 1) * factor) by (nonlinear_arith);
    let r = (n - k * factor - 1) as nat;
    assert(r < factor) by (nonlinear_arith)
        requires
            r == (n - k * factor - 1) as nat,
            n <= (k + 1) * factor,
            k * factor < n,
    ;
    vstd::arithmetic::div_mod::lemma_fundamental_div_mod_converse(
        q as int,
        factor as int,
        (k + 1) as int,
        r as int,
    );
}

/// Keep every `factor`-th sample (the first, then every `factor`-th one after
/// it), as the decimators do after their anti-aliasing filter.
pub fn decimate<T: Copy>(input: &[T], factor: usize) -> (out: Vec<T>)
    requires
        factor > 0,
    ensures
        out@ == decimated(input@, factor as nat),
{
    let n = input.len();
    let mut out: Vec<T> = Vec::new();
    if n == 0 {
        assert(decimated_len(0, factor as nat) == 0) by (nonlinear_arith)
            requires
                factor > 0,
        ;
        assert(out@ =~= decimated(input@, factor as nat));
        return out;
    }
    let mut i: usize = 0;
    let ghost mut k: nat = 0;
    loop
        invariant_except_break
            n == input@.len(),
            factor > 0,
            i == k * factor,
            i < n,
            out@.len() == k,
            forall|j: int| 0 <= j < k ==> #[trigger] out@[j] == input@[j * factor],
        ensures
            out@.len() == decimated_len(n as nat, factor as nat),
            forall|j: int| 0 <= j < out@.len() ==> #[trigger] out@[j] == input@[j * factor],
        decreases n - i,
    {
        out.push(input[i]);
        assert(out@[k as int] == input@[k * factor]);
        if factor >= n - i {
            proof {
                assert(n <= (k + 1) * factor) by (nonlinear_arith)
                    requires
                        i == k * factor,
                        factor >= n - i,
                ;
                lemma_decimated_len_step(k, factor as nat, n as nat);
            }
            break;
        }
        i += factor;
        proof {
            assert(i == (k + 1) * factor) by (nonlinear_arith)
                requires
                    i == k * factor + factor,
            ;
            k = k + 1;
        }
    }
    assert(out@ =~= decimated(input@, factor as nat));
    out
}

/// Decimation by `factor` keeps exactly the samples at the indices
/// `k * factor` below the length, in order: sample `k` of the output is
/// sample `k * factor` of the input.
pub proof fn lemma_decimated_indices<T>(s: Seq<T>, factor: nat, k: int)
    requires
        factor > 0,
        0 <= k,
    ensures
        k < decimated(s, factor).len() <==> k * factor < s.len(),
        k < decimated(s, factor).len() ==> decimated(s, factor)[k] == s[k * factor],
{
    let n = s.len();
    let q = ((n + factor - 1) as nat / factor) as nat;
    vstd::arithmetic::div_mod::lemma_fundamental_div_mod((n + factor - 1) as int, factor as int);
    let r = ((n + factor - 1) as int) % (factor as int);
    assert(0 <= r < factor);
    assert((n + factor - 1) as int == factor * q + r);
    if k < q {
        assert(k + 1 <= q);
        assert((k + 1) * factor <= q * factor) by (nonlinear_arith)
            requires
                k + 1 <= q,
                factor > 0,
        ;
        assert(k * factor + factor == (k + 1) * factor) by (nonlinear_arith);
        assert(q * factor == factor * q) by (nonlinear_arith);
    } else {
        assert(q <= k);
        assert(q * factor <= k * factor) by (nonlinear_arith)
            requires
                q <= k,
                factor > 0,
        ;
        assert(q * factor == factor * q) by (nonlinear_arith);
    }
}

/// When the length is a multiple of the factor, decimation keeps exactly
/// `length / factor` samples.
pub proof fn lemma_decimated_len_exact(n: nat, factor: nat, k: nat)
    requires
        factor > 0,
        n == k * factor,
    ensures
        decimated_len(n, factor) == k,
{
    if k == 0 {
        assert(decimated_len(0, factor) == 0) by (nonlinear_arith)
            requires
                factor > 0,
        ;
    } else {
        let k1 = (k - 1) as nat;
        assert(k1 * factor < n && n <= (k1 + 1) * factor) by (nonlinear_arith)
            requires
                n == k * factor,
                k1 == k - 1,
                factor > 0,
                k > 0,
        ;
        lemma_decimated_len_step(k1, factor, n);
    }
}

/// Decimating by one keeps every sample.
pub proof fn lemma_decimate_by_one<T>(s: Seq<T>)
    ensures
        decimated(s, 1) == s,
{
    assert(decimated(s, 1) =~= s);
}

/// The last `len` samples pushed into a delay line, newest first; before the
/// line is full, the fill value stands for the samples not yet seen.
pub struct DelayLine<T> {
    samples: Vec<T>,
    next: usize,
}

impl<T: Copy> DelayLine<T> {
    /// Where the sample `i` places behind the newest one is kept.
    spec fn slot(&self, i: int) -> int {
        if i < self.next {
            self.next - 1 - i
        } else {
            self.next + self.samples@.len() - 1 - i
        }
    }

    /// The delay line's internal consistency.
    pub closed spec fn wf(&self) -> bool {
        ||| self.samples@.len() == 0 && self.next == 0
        ||| self.next < self.samples@.len()
    }

    /// A delay line of `len` samples, all set to `fill`.
    pub fn new(len: usize, fill: T) -> (d: Self)
        ensures
            d.wf(),
            d@ == Seq::new(len as nat, |i: int| fill),
    {
        let mut samples: Vec<T> = Vec::new();
        let mut i: usize = 0;
        while i < len
            invariant
                i <= len,
                samples@ == Seq::new(i as nat, |j: int| fill),
            decreases len - i,
        {
            samples.push(fill);
            i += 1;
            assert(samples@ =~= Seq::new(i as nat, |j: int| fill));
        }
        let d = DelayLine { samples, next: 0 };
        assert(d@ =~= Seq::new(len as nat, |i: int| fill));
        d
    }

    /// The number of samples the line holds.
    pub fn len(&self) -> (n: usize)
        ensures
            n == self@.len(),
    {
        self.samples.len()
    }

    /// Push a new sample; the oldest one drops out.
    pub fn push(&mut self, sample: T)
        requires
            old(self).wf(),
            old(self)@.len() > 0,
        ensures
            final(self).wf(),
            final(self)@ == seq![sample] + old(self)@.subrange(0, old(self)@.len() - 1),
    {
        let ghost before = self@;
        let n = self.samples.len();
        self.samples.set(self.next, sample);
        if self.next + 1 == n {
            self.next = 0;
        } else {
            self.next = self.next + 1;
        }
        assert(self@ =~= seq![sample] + before.subrange(0, before.len() - 1));
    }

    /// The sample pushed `i` pushes ago (0 is the newest one).
    pub fn tap(&self, i: usize) -> (x: T)
        requires
            self.wf(),
            i < self@.len(),
        ensures
            x == self@[i as int],
    {
        if i < self.next {
            self.samples[self.next - 1 - i]
        } else {
            self.samples[self.next + (self.samples.len() - 1 - i)]
        }
    }
}

/// The contents of a delay line, newest first, after pushing the samples of
/// `s` in order into a line that held `h`.
pub open spec fn pushed_all<T>(h: Seq<T>, s: Seq<T>) -> Seq<T>
    decreases s.len(),
{
    if s.len() == 0 {
        h
    } else {
        let before = pushed_all(h, s.drop_last());
        seq![s.last()] + before.subrange(0, before.len() - 1)
    }
}

/// After any run of pushes, a delay line of length `L` holds the last `L`
/// samples pushed, newest first, and the oldest contents it held before
/// where fewer than `L` were pushed: tap `i` is the sample pushed `i`
/// pushes ago.
pub proof fn lemma_delay_line_history<T>(h: Seq<T>, s: Seq<T>, i: int)
    requires
        h.len() > 0,
        0 <= i < h.len(),
    ensures
        pushed_all(h, s).len() == h.len(),
        pushed_all(h, s)[i] == if i < s.len() {
            s[s.len() - 1 - i]
        } else {
            h[i - s.len()]
        },
    decreases s.len(),
{
    if s.len() > 0 {
        let t = s.drop_last();
        lemma_delay_line_history(h, t, 0);
        if i > 0 {
            lemma_delay_line_history(h, t, i - 1);
        }
    }
}

impl<T: Copy> View for DelayLine<T> {
    type V = Seq<T>;

    closed spec fn view(&self) -> Seq<T> {
        Seq::new(self.samples@.len(), |i: int| self.samples@[self.slot(i)])
    }
}

} // verus!
