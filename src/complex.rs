use vstd::prelude::*;

verus! {

/// A complex sample as the native transform reads and writes it: two IEEE-754
/// binary32 values, real part first, each held as its bit pattern.
///
/// The native code reads buffers of these as interleaved floats, so a sample
/// is eight bytes long and four-byte aligned.
#[derive(Debug, Clone, Copy, PartialEq, Eq, Structural)]
pub struct FFTSComplex {
    pub re: u32,
    pub im: u32,
}

/// Bit pattern of the binary32 value `+0.0`.
pub const ZERO_BITS: u32 = 0;

/// The sample `(+0.0, +0.0)`.
pub open spec fn zero_sample() -> FFTSComplex {
    FFTSComplex { re: ZERO_BITS, im: ZERO_BITS }
}

/// One sample per real value, with a `+0.0` imaginary part.
pub open spec fn from_real_seq(values: Seq<u32>) -> Seq<FFTSComplex> {
    values.map_values(|x: u32| FFTSComplex { re: x, im: ZERO_BITS })
}

/// The real part of each sample.
pub open spec fn to_real_seq(complex: Seq<FFTSComplex>) -> Seq<u32> {
    complex.map_values(|c: FFTSComplex| c.re)
}

/// `len` samples, all `(+0.0, +0.0)`.
pub open spec fn zeros(len: nat) -> Seq<FFTSComplex> {
    Seq::new(len, |i: int| zero_sample())
}

impl FFTSComplex {
    /// The sample `(+0.0, +0.0)`.
    pub fn zero() -> (r: Self)
        ensures
            r == zero_sample(),
    {
        FFTSComplex { re: ZERO_BITS, im: ZERO_BITS }
    }

    /// Converts real values to samples whose imaginary parts are `+0.0`.
    pub fn vec_from_real(values: &[u32]) -> (r: Vec<Self>)
        ensures
            r@ == from_real_seq(values@),
    {
        let mut ret: Vec<FFTSComplex> = Vec::with_capacity(values.len());
        let mut i: usize = 0;
        while i < values.len()
            invariant
                i <= values@.len(),
                ret@ == from_real_seq(values@.take(i as int)),
            decreases values@.len() - i,
        {
            ret.push(FFTSComplex { re: values[i], im: ZERO_BITS });
            i = i + 1;
            assert(ret@ =~= from_real_seq(values@.take(i as int)));
        }
        assert(values@.take(i as int) =~= values@);
        ret
    }

    /// Takes the real part of each sample, dropping the imaginary parts.
    pub fn vec_to_real(complex: &[Self]) -> (r: Vec<u32>)
        ensures
            r@ == to_real_seq(complex@),
    {
        let mut ret: Vec<u32> = Vec::with_capacity(complex.len());
        let mut i: usize = 0;
        while i < complex.len()
            invariant
                i <= complex@.len(),
                ret@ == to_real_seq(complex@.take(i as int)),
            decreases complex@.len() - i,
        {
            ret.push(complex[i].re);
            i = i + 1;
            assert(ret@ =~= to_real_seq(complex@.take(i as int)));
        }
        assert(complex@.take(i as int) =~= complex@);
        ret
    }

    /// A buffer of `len` samples, each `(+0.0, +0.0)`, for the native code to
    /// write into.
    pub fn zeroed(len: usize) -> (r: Vec<Self>)
        ensures
            r@ == zeros(len as nat),
    {
        let mut ret: Vec<FFTSComplex> = Vec::with_capacity(len);
        let mut i: usize = 0;
        while i < len
            invariant
                i <= len,
                ret@ == zeros(i as nat),
            decreases len - i,
        {
            ret.push(FFTSComplex::zero());
            i = i + 1;
            assert(ret@ =~= zeros(i as nat));
        }
        ret
    }
}

/// Turning real values into samples and taking the real parts back gives the
/// values unchanged, element for element and with the same length.
pub proof fn lemma_real_round_trip(v: Seq<u32>)
    ensures
        to_real_seq(from_real_seq(v)) == v,
        from_real_seq(v).len() == v.len(),
{
    assert(to_real_seq(from_real_seq(v)) =~= v);
}

} // verus!
