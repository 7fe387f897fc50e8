use vstd::prelude::*;

verus! {

/// How one output sample of a linear resampling is made: from the source
/// samples at `lo` and `hi`, with the weight `frac_num / frac_den` on `hi`.
#[derive(Clone, Copy, Debug, PartialEq, Eq, Structural)]
pub struct InterpStep {
    pub lo: usize,
    pub hi: usize,
    pub frac_num: u64,
    pub frac_den: u64,
}

/// Number of samples that `len` samples at `old_rate` become at `new_rate`:
/// `ceil(len * new_rate / old_rate)`.
pub open spec fn resampled_len(len: nat, old_rate: nat, new_rate: nat) -> nat {
    ((len * new_rate + old_rate - 1) / (old_rate as int)) as nat
}

/// The step for output index `i`: the source position is
/// `i * old_rate / new_rate`; its floor and the next index (held to the last
/// sample) are blended by the fractional part.
pub open spec fn step_of(i: nat, len: nat, old_rate: nat, new_rate: nat) -> InterpStep {
    let lo: int = (i * old_rate) as int / (new_rate as int);
    InterpStep {
        lo: lo as usize,
        hi: (if lo + 1 < len { lo + 1 } else { len - 1 }) as usize,
        frac_num: ((i * old_rate) as int % (new_rate as int)) as u64,
        frac_den: new_rate as u64,
    }
}

/// `out` is `input` resampled from `old_rate` to `new_rate`, each output
/// sample being what `blend` made of its step.
pub open spec fn is_resampling<T, F: Fn(T, T, InterpStep) -> T>(
    input: Seq<T>,
    old_rate: nat,
    new_rate: nat,
    blend: F,
    out: Seq<T>,
) -> bool {
    &&& out.len() == resampled_len(input.len(), old_rate, new_rate)
    &&& forall|i: int|
        0 <= i < out.len() ==> {
            let s = #[trigger] step_of(i as nat, input.len(), old_rate, new_rate);
            blend.ensures((input[s.lo as int], input[s.hi as int], s), out[i])
        }
}

proof fn lemma_step_in_range(i: nat, len: nat, old_rate: nat, new_rate: nat)
    requires
        old_rate > 0,
        new_rate > 0,
        i < resampled_len(len, old_rate, new_rate),
    ensures
        ({
            let s = step_of(i, len, old_rate, new_rate);
            &&& len > 0
            &&& (i * old_rate) as int / (new_rate as int) < len
            &&& s.lo < len
            &&& s.hi < len
            &&& s.frac_num < new_rate
        }),
{
    let o: int = old_rate as int;
    let n: int = (len * new_rate) as int;
    let q: int = (n + o - 1) / o;
    let ii: int = i as int;
    assert(ii * o < n) by (nonlinear_arith)
        requires
            ii < q,
            q == (n + o - 1) / o,
            o > 0,
            n >= 0,
    {
        assert(ii + 1 <= q);
        assert((ii + 1) * o <= q * o);
        assert(q * o <= n + o - 1);
    }
    let l: int = len as int;
    let w: int = new_rate as int;
    assert(l > 0) by (nonlinear_arith)
        requires
            ii * o < l * w,
            ii >= 0,
            o > 0,
            w > 0,
    {
    }
    assert((ii * o) / w < l) by (nonlinear_arith)
        requires
            ii * o < l * w,
            w > 0,
    {
        assert(((ii * o) / w) * w <= ii * o);
    }
}

proof fn lemma_wide_product(a: nat, b: nat)
    requires
        a <= usize::MAX,
        b <= u32::MAX,
    ensures
        a * b + u32::MAX <= u128::MAX,
{
    assert(a * b <= 0xffff_ffff_ffff_ffff * 0xffff_ffff) by (nonlinear_arith)
        requires
            a <= 0xffff_ffff_ffff_ffff,
            b <= 0xffff_ffff,
    {
    }
}

/// The step for output index `i` of `len` samples resampled from `old_rate`
/// to `new_rate`.
pub fn interp_step(i: usize, len: usize, old_rate: u32, new_rate: u32) -> (r: InterpStep)
    requires
        old_rate > 0,
        new_rate > 0,
        i < resampled_len(len as nat, old_rate as nat, new_rate as nat),
    ensures
        r == step_of(i as nat, len as nat, old_rate as nat, new_rate as nat),
        r.lo < len,
        r.hi < len,
        r.frac_num < new_rate,
{
    proof {
        lemma_step_in_range(i as nat, len as nat, old_rate as nat, new_rate as nat);
    }
    let i_wide: u128 = i as u128;
    let old_wide: u128 = old_rate as u128;
    proof {
        lemma_wide_product(i as nat, old_rate as nat);
    }
    let pos: u128 = i_wide * old_wide;
    let lo128: u128 = pos / new_rate as u128;
    let frac: u128 = pos % new_rate as u128;
    let lo: usize = lo128 as usize;
    let hi: usize = if lo < len - 1 { lo + 1 } else { len - 1 };
    InterpStep { lo, hi, frac_num: frac as u64, frac_den: new_rate as u64 }
}

/// Number of output samples: `ceil(len * new_rate / old_rate)`.
pub fn output_len(len: usize, old_rate: u32, new_rate: u32) -> (r: u128)
    requires
        old_rate > 0,
    ensures
        r == resampled_len(len as nat, old_rate as nat, new_rate as nat),
{
    let len_wide: u128 = len as u128;
    let new_wide: u128 = new_rate as u128;
    proof {
        lemma_wide_product(len as nat, new_rate as nat);
    }
    let n: u128 = len_wide * new_wide;
    (n + old_rate as u128 - 1) / old_rate as u128
}

/// Linear resampling of `input` from `old_rate` to `new_rate`, with no
/// anti-aliasing filter. Equal rates give the input back unchanged; otherwise
/// each output sample is `blend` of the two source samples around its source
/// position and of the fractional weight.
pub fn resample_linear<T: Copy, F: Fn(T, T, InterpStep) -> T>(
    input: &[T],
    old_rate: u32,
    new_rate: u32,
    blend: F,
) -> (r: Vec<T>)
    requires
        old_rate > 0,
        new_rate > 0,
        resampled_len(input@.len(), old_rate as nat, new_rate as nat) <= usize::MAX,
        forall|a: T, b: T, s: InterpStep| #[trigger] blend.requires((a, b, s)),
    ensures
        old_rate == new_rate ==> r@ == input@,
        old_rate != new_rate ==> is_resampling(input@, old_rate as nat, new_rate as nat, blend, r@),
{
    if old_rate == new_rate {
        return vstd::slice::slice_to_vec(input);
    }
    let n = output_len(input.len(), old_rate, new_rate) as usize;
    let mut out: Vec<T> = Vec::with_capacity(n);
    let mut i: usize = 0;
    while i < n
        invariant
            n == resampled_len(input@.len(), old_rate as nat, new_rate as nat),
            old_rate > 0,
            new_rate > 0,
            i <= n,
            out@.len() == i,
            forall|a: T, b: T, s: InterpStep| #[trigger] blend.requires((a, b, s)),
            forall|j: int|
                0 <= j < i ==> {
                    let s = #[trigger] step_of(j as nat, input@.len(), old_rate as nat, new_rate as nat);
                    blend.ensures((input@[s.lo as int], input@[s.hi as int], s), out@[j])
                },
        decreases n - i,
    {
        let s = interp_step(i, input.len(), old_rate, new_rate);
        let v = blend(input[s.lo], input[s.hi], s);
        out.push(v);
        i = i + 1;
    }
    out
}

/// Resampling to twice the rate lands every even output index exactly on a
/// source sample: with a blend that gives its first sample back at weight
/// zero (as linear interpolation does), output `2k` is input `k`.
pub proof fn lemma_doubling_keeps_even_samples<T, F: Fn(T, T, InterpStep) -> T>(
    input: Seq<T>,
    old_rate: nat,
    blend: F,
    out: Seq<T>,
    k: nat,
)
    requires
        old_rate > 0,
        input.len() <= usize::MAX,
        is_resampling(input, old_rate, 2 * old_rate, blend, out),
        2 * k < out.len(),
        forall|a: T, b: T, s: InterpStep, v: T|
            s.frac_num == 0 && #[trigger] blend.ensures((a, b, s), v) ==> v == a,
    ensures
        out[2 * k as int] == input[k as int],
{
    let s = step_of(2 * k, input.len(), old_rate, 2 * old_rate);
    assert(blend.ensures((input[s.lo as int], input[s.hi as int], s), out[2 * k as int]));
    let p: int = (2 * k * old_rate) as int;
    let d: int = (2 * old_rate) as int;
    assert(p == (k as int) * d) by (nonlinear_arith)
        requires
            p == 2 * k * old_rate,
            d == 2 * old_rate,
    {
    }
    assert(p / d == k && p % d == 0) by (nonlinear_arith)
        requires
            p == (k as int) * d,
            d > 0,
            k >= 0,
    {
    }
    lemma_step_in_range(2 * k, input.len(), old_rate, 2 * old_rate);
    assert(s.frac_num == 0);
    assert(s.lo == k);
}

/// Number of frames of `channels` samples in `len` interleaved samples, a
/// last, shorter frame included.
pub open spec fn frame_count(len: nat, channels: nat) -> nat {
    len / channels + if len % channels == 0 { 0nat } else { 1nat }
}

proof fn lemma_frame_start(j: nat, len: nat, channels: nat)
    requires
        channels > 0,
        j < frame_count(len, channels),
    ensures
        j * channels < len,
{
    let q = len / channels;
    let m = len % channels;
    assert(len == q * channels + m) by (nonlinear_arith)
        requires
            channels > 0,
            q == len / channels,
            m == len % channels,
    {
    }
    if m == 0 {
        assert(j * channels < len) by (nonlinear_arith)
            requires
                j < q,
                len == q * channels,
                channels > 0,
        {
            assert((j + 1) * channels <= q * channels);
        }
    } else {
        assert(j * channels < len) by (nonlinear_arith)
            requires
                j <= q,
                len == q * channels + m,
                m > 0,
        {
            assert(j * channels <= q * channels);
        }
    }
}

/// Keeps the first channel of interleaved frames of `channels` samples each
/// (a last, shorter frame included).
pub fn downmix_first_channel<T: Copy>(interleaved: &[T], channels: usize) -> (r: Vec<T>)
    requires
        channels > 0,
    ensures
        r@.len() == frame_count(interleaved@.len(), channels as nat),
        forall|j: int| 0 <= j < r@.len() ==> #[trigger] r@[j] == interleaved@[j * channels],
{
    let len = interleaved.len();
    let frames: usize = if len % channels == 0 {
        len / channels
    } else {
        assert(len / channels < len) by (nonlinear_arith)
            requires
                channels > 0,
                len % channels != 0,
        {
        }
        len / channels + 1
    };
    let mut out: Vec<T> = Vec::new();
    let mut j: usize = 0;
    while j < frames
        invariant
            channels > 0,
            len == interleaved@.len(),
            frames == frame_count(len as nat, channels as nat),
            j <= frames,
            out@.len() == j,
            forall|x: int| 0 <= x < j ==> #[trigger] out@[x] == interleaved@[x * channels],
        decreases frames - j,
    {
        proof {
            lemma_frame_start(j as nat, len as nat, channels as nat);
        }
        let k: usize = j * channels;
        out.push(interleaved[k]);
        j = j + 1;
    }
    out
}

/// What the packet reader reports while a file is decoded.
#[derive(Clone, Copy, Debug, PartialEq, Eq, Structural)]
pub enum DecodeEvent {
    /// A packet of this track was read.
    Packet(u32),
    /// The packet just read decoded.
    Decoded,
    /// The packet just read failed to decode.
    DecodeFailed,
    /// No packet is left (or the reader failed).
    Exhausted,
}

/// What the decoder does next.
#[derive(Clone, Copy, Debug, PartialEq, Eq, Structural)]
pub enum DecodeAction {
    /// Decode the packet.
    Decode,
    /// Drop the packet, which belongs to another track.
    Skip,
    /// Append the decoded frame's first channel and read on.
    Append,
    /// End the decode with what was gathered.
    Stop,
}

/// The decode policy: only packets of the primary track are decoded, and
/// the first packet that fails to decode ends the decode, so no audio after
/// it is silently dropped from the middle.
pub fn decode_step(primary_track: u32, event: DecodeEvent) -> (r: DecodeAction)
    ensures
        event matches DecodeEvent::Packet(t) ==> r == (if t == primary_track {
            DecodeAction::Decode
        } else {
            DecodeAction::Skip
        }),
        event == DecodeEvent::Decoded ==> r == DecodeAction::Append,
        event == DecodeEvent::DecodeFailed ==> r == DecodeAction::Stop,
        event == DecodeEvent::Exhausted ==> r == DecodeAction::Stop,
{
    match event {
        DecodeEvent::Packet(t) => if t == primary_track {
            DecodeAction::Decode
        } else {
            DecodeAction::Skip
        },
        DecodeEvent::Decoded => DecodeAction::Append,
        DecodeEvent::DecodeFailed => DecodeAction::Stop,
        DecodeEvent::Exhausted => DecodeAction::Stop,
    }
}

} // verus!
