pub mod complex;

pub use crate::complex::FFTSComplex;
use crate::complex::zeros;
use vstd::prelude::*;

verus! {

/// The native library's mode flag for a forward transform.
pub const FFTS_FORWARD: i32 = -1;

/// The native library's mode flag for a backward transform.
pub const FFTS_BACKWARD: i32 = 1;

/// Direction of the transform, fixed when a plan is made.
#[derive(Debug, Clone, Copy, PartialEq, Eq, Structural)]
pub enum FFTSDirection {
    Forward,
    Backward,
}

impl FFTSDirection {
    /// The native mode flag that stands for this direction.
    pub open spec fn spec_flag(self) -> i32 {
        match self {
            FFTSDirection::Forward => FFTS_FORWARD,
            FFTSDirection::Backward => FFTS_BACKWARD,
        }
    }

    /// The native mode flag that stands for this direction.
    pub fn flag(&self) -> (r: i32)
        ensures
            r == self.spec_flag(),
    {
        match self {
            FFTSDirection::Forward => FFTS_FORWARD,
            FFTSDirection::Backward => FFTS_BACKWARD,
        }
    }
}

/// Why a plan could not be made or used.
#[derive(Debug, Clone, Copy, PartialEq, Eq, Structural)]
pub enum FFTSError {
    /// The native library handed back no plan for the dimensions and
    /// direction, or the dimensions describe no transform it can hold.
    PlanInitializationFailed,
    /// The number of dimensions is zero or does not fit the native rank.
    InvalidRank,
    /// An input buffer's length differs from the plan's transform length.
    LengthMismatch,
}

/// The text that describes each error.
pub open spec fn error_message(e: FFTSError) -> Seq<char> {
    match e {
        FFTSError::PlanInitializationFailed => "ffts nullptr error"@,
        FFTSError::InvalidRank => "ffts invalid rank"@,
        FFTSError::LengthMismatch => "ffts buffer length mismatch"@,
    }
}

impl FFTSError {
    /// A short text that describes the error.
    pub fn description(&self) -> (r: &'static str)
        ensures
            r@ == error_message(*self),
    {
        match self {
            FFTSError::PlanInitializationFailed => "ffts nullptr error",
            FFTSError::InvalidRank => "ffts invalid rank",
            FFTSError::LengthMismatch => "ffts buffer length mismatch",
        }
    }
}

/// What a plan of transform length `len` hands out for an input buffer: a
/// fresh output buffer of zero samples when the lengths agree.
pub open spec fn output_outcome(len: int, input: Seq<FFTSComplex>) -> Result<
    Seq<FFTSComplex>,
    FFTSError,
> {
    if input.len() == len {
        Ok(zeros(input.len()))
    } else {
        Err(FFTSError::LengthMismatch)
    }
}

/// Product of the dimensions: the number of samples a transform reads.
pub open spec fn dims_product(dims: Seq<usize>) -> int
    decreases dims.len(),
{
    if dims.len() == 0 {
        1
    } else {
        dims_product(dims.drop_last()) * dims.last()
    }
}

/// The rank of `dims` is at least one and fits the native rank, an `i32`.
pub open spec fn rank_valid(dims: Seq<usize>) -> bool {
    1 <= dims.len() <= i32::MAX
}

/// Each dimension is positive and the transform length fits a buffer length.
pub open spec fn dims_supported(dims: Seq<usize>) -> bool {
    &&& forall|i: int| 0 <= i < dims.len() ==> dims[i] > 0
    &&& dims_product(dims) <= usize::MAX
}

/// What making a plan over `dims` gives: the rank is checked first, then the
/// dimensions.
pub open spec fn plan_outcome(dims: Seq<usize>) -> Result<(), FFTSError> {
    if !rank_valid(dims) {
        Err(FFTSError::InvalidRank)
    } else if !dims_supported(dims) {
        Err(FFTSError::PlanInitializationFailed)
    } else {
        Ok(())
    }
}

/// The product of positive dimensions is positive.
proof fn lemma_product_positive(dims: Seq<usize>)
    requires
        forall|i: int| 0 <= i < dims.len() ==> dims[i] > 0,
    ensures
        dims_product(dims) >= 1,
    decreases dims.len(),
{
    if dims.len() > 0 {
        let rest = dims.drop_last();
        lemma_product_positive(rest);
        let a = dims_product(rest);
        let b = dims.last() as int;
        assert(a * b >= 1) by (nonlinear_arith)
            requires
                a >= 1,
                b >= 1,
        ;
    }
}

/// Over positive dimensions, no prefix has a larger product than the whole.
proof fn lemma_prefix_product_bounded(dims: Seq<usize>, i: int)
    requires
        0 <= i <= dims.len(),
        forall|j: int| 0 <= j < dims.len() ==> dims[j] > 0,
    ensures
        dims_product(dims.take(i)) <= dims_product(dims),
    decreases dims.len(),
{
    if i == dims.len() {
        assert(dims.take(i) =~= dims);
    } else {
        let rest = dims.drop_last();
        assert(dims.take(i) =~= rest.take(i));
        lemma_prefix_product_bounded(rest, i);
        lemma_product_positive(rest);
        let a = dims_product(rest);
        let b = dims.last() as int;
        assert(a <= a * b) by (nonlinear_arith)
            requires
                a >= 1,
                b >= 1,
        ;
    }
}

/// Extending a prefix by one dimension multiplies its product by that dimension.
proof fn lemma_prefix_product_step(dims: Seq<usize>, i: int)
    requires
        0 <= i < dims.len(),
    ensures
        dims_product(dims.take(i + 1)) == dims_product(dims.take(i)) * dims[i],
{
    assert(dims.take(i + 1).drop_last() =~= dims.take(i));
}

/// A transform configuration: its dimensions, in order, and its direction.
///
/// The native plan made from it is owned by whoever made the native call;
/// this value says what that plan was made for and checks buffers against it.
#[derive(Debug)]
pub struct FFTSPlan {
    dims: Vec<usize>,
    len: usize,
    direction: FFTSDirection,
}

impl FFTSPlan {
    #[verifier::type_invariant]
    spec fn inv(&self) -> bool {
        &&& rank_valid(self.dims@)
        &&& dims_supported(self.dims@)
        &&& self.len == dims_product(self.dims@)
    }

    /// The dimensions the plan was made for, outermost first.
    pub closed spec fn spec_dims(&self) -> Seq<usize> {
        self.dims@
    }

    /// The direction the plan was made for.
    pub closed spec fn spec_direction(&self) -> FFTSDirection {
        self.direction
    }

    /// Checks `dims` and makes a plan over them.
    fn from_dims(dims: Vec<usize>, direction: FFTSDirection) -> (r: Result<FFTSPlan, FFTSError>)
        ensures
            match r {
                Ok(p) => plan_outcome(dims@) is Ok && p.spec_dims() == dims@
                    && p.spec_direction() == direction,
                Err(e) => plan_outcome(dims@) == Err::<(), FFTSError>(e),
            },
    {
        if dims.len() == 0 || dims.len() > i32::MAX as usize {
            return Err(FFTSError::InvalidRank);
        }
        let mut i: usize = 0;
        while i < dims.len()
            invariant
                i <= dims@.len(),
                rank_valid(dims@),
                forall|j: int| 0 <= j < i ==> dims@[j] > 0,
            decreases dims@.len() - i,
        {
            if dims[i] == 0 {
                assert(!dims_supported(dims@));
                return Err(FFTSError::PlanInitializationFailed);
            }
            i = i + 1;
        }
        let mut len: usize = 1;
        let mut k: usize = 0;
        while k < dims.len()
            invariant
                k <= dims@.len(),
                rank_valid(dims@),
                forall|j: int| 0 <= j < dims@.len() ==> dims@[j] > 0,
                len == dims_product(dims@.take(k as int)),
            decreases dims@.len() - k,
        {
            proof {
                lemma_prefix_product_step(dims@, k as int);
            }
            match len.checked_mul(dims[k]) {
                Some(next) => {
                    len = next;
                },
                None => {
                    proof {
                        lemma_prefix_product_bounded(dims@, k + 1);
                        assert(dims_product(dims@) > usize::MAX);
                    }
                    return Err(FFTSError::PlanInitializationFailed);
                },
            }
            k = k + 1;
        }
        assert(dims@.take(k as int) =~= dims@);
        Ok(FFTSPlan { dims, len, direction })
    }

    /// Makes a one-dimensional plan of length `n`.
    pub fn new_1d(n: usize, direction: FFTSDirection) -> (r: Result<FFTSPlan, FFTSError>)
        ensures
            match r {
                Ok(p) => plan_outcome(seq![n]) is Ok && p.spec_dims() == seq![n]
                    && p.spec_direction() == direction,
                Err(e) => plan_outcome(seq![n]) == Err::<(), FFTSError>(e),
            },
    {
        let dims: Vec<usize> = vec![n];
        assert(dims@ =~= seq![n]);
        FFTSPlan::from_dims(dims, direction)
    }

    /// Makes a two-dimensional plan of `n1` rows of `n2` samples.
    pub fn new_2d(n1: usize, n2: usize, direction: FFTSDirection) -> (r: Result<FFTSPlan, FFTSError>)
        ensures
            match r {
                Ok(p) => plan_outcome(seq![n1, n2]) is Ok && p.spec_dims() == seq![n1, n2]
                    && p.spec_direction() == direction,
                Err(e) => plan_outcome(seq![n1, n2]) == Err::<(), FFTSError>(e),
            },
    {
        let dims: Vec<usize> = vec![n1, n2];
        assert(dims@ =~= seq![n1, n2]);
        FFTSPlan::from_dims(dims, direction)
    }

    /// Makes a plan over the dimensions `ns`, outermost first; its rank is
    /// `ns.len()`. The dimensions are left as they were.
    pub fn new_nd(ns: &mut [usize], direction: FFTSDirection) -> (r: Result<FFTSPlan, FFTSError>)
        ensures
            final(ns)@ == old(ns)@,
            match r {
                Ok(p) => plan_outcome(old(ns)@) is Ok && p.spec_dims() == old(ns)@
                    && p.spec_direction() == direction,
                Err(e) => plan_outcome(old(ns)@) == Err::<(), FFTSError>(e),
            },
    {
        let mut dims: Vec<usize> = Vec::with_capacity(ns.len());
        let mut i: usize = 0;
        while i < ns.len()
            invariant
                i <= ns@.len(),
                ns@ == old(ns)@,
                dims@ == ns@.take(i as int),
            decreases ns@.len() - i,
        {
            dims.push(ns[i]);
            i = i + 1;
            assert(dims@ =~= ns@.take(i as int));
        }
        assert(ns@.take(i as int) =~= ns@);
        FFTSPlan::from_dims(dims, direction)
    }

    /// The number of samples one transform reads and writes.
    pub open spec fn spec_len(&self) -> int {
        dims_product(self.spec_dims())
    }

    /// Whether the native library's answer to a plan request is a plan:
    /// a null handle is a failure, never a usable plan.
    pub fn check_native_init(handle_is_null: bool) -> (r: Result<(), FFTSError>)
        ensures
            handle_is_null ==> r == Err::<(), FFTSError>(FFTSError::PlanInitializationFailed),
            !handle_is_null ==> r is Ok,
    {
        if handle_is_null {
            Err(FFTSError::PlanInitializationFailed)
        } else {
            Ok(())
        }
    }

    /// Checks `input` against the plan's transform length and hands out the
    /// buffer the native transform writes into: as many `(+0.0, +0.0)` samples
    /// as `input` holds. The plan is not changed.
    pub fn output_for(&self, input: &[FFTSComplex]) -> (r: Result<Vec<FFTSComplex>, FFTSError>)
        ensures
            match r {
                Ok(out) => output_outcome(self.spec_len(), input@) == Ok::<
                    Seq<FFTSComplex>,
                    FFTSError,
                >(out@),
                Err(e) => output_outcome(self.spec_len(), input@) == Err::<
                    Seq<FFTSComplex>,
                    FFTSError,
                >(e),
            },
    {
        proof {
            use_type_invariant(self);
        }
        if input.len() != self.len {
            return Err(FFTSError::LengthMismatch);
        }
        Ok(FFTSComplex::zeroed(input.len()))
    }

    /// The number of samples one transform reads and writes.
    pub fn len(&self) -> (r: usize)
        ensures
            r == self.spec_len(),
    {
        proof {
            use_type_invariant(self);
        }
        self.len
    }

    /// The rank, as the native library takes it.
    pub fn rank(&self) -> (r: i32)
        ensures
            r == self.spec_dims().len(),
            r >= 1,
    {
        proof {
            use_type_invariant(self);
        }
        self.dims.len() as i32
    }

    /// The dimensions, outermost first.
    pub fn dims(&self) -> (r: &[usize])
        ensures
            r@ == self.spec_dims(),
    {
        self.dims.as_slice()
    }

    /// The direction the plan was made for.
    pub fn direction(&self) -> (r: FFTSDirection)
        ensures
            r == self.spec_direction(),
    {
        self.direction
    }

    /// The native mode flag of the plan's direction.
    pub fn flag(&self) -> (r: i32)
        ensures
            r == self.spec_direction().spec_flag(),
    {
        self.direction.flag()
    }
}

/// An invalid rank (none, or more than the native rank can hold) is refused
/// with a typed error before the native library is asked, so no plan exists.
pub proof fn lemma_invalid_rank_refused(dims: Seq<usize>)
    requires
        dims.len() == 0 || dims.len() > i32::MAX,
    ensures
        plan_outcome(dims) == Err::<(), FFTSError>(FFTSError::InvalidRank),
{
}

/// A plan serves any number of executions: each input buffer of the plan's
/// length gets its own fresh output buffer of that length, whatever earlier
/// inputs held, and each of another length is refused.
pub proof fn lemma_plan_reuse(p: &FFTSPlan, first: Seq<FFTSComplex>, second: Seq<FFTSComplex>)
    ensures
        first.len() == p.spec_len() ==> output_outcome(p.spec_len(), first) == Ok::<
            Seq<FFTSComplex>,
            FFTSError,
        >(zeros(first.len())),
        second.len() == p.spec_len() ==> output_outcome(p.spec_len(), second) == Ok::<
            Seq<FFTSComplex>,
            FFTSError,
        >(zeros(second.len())),
        first.len() == second.len() ==> output_outcome(p.spec_len(), first) == output_outcome(
            p.spec_len(),
            second,
        ),
        first.len() != p.spec_len() ==> output_outcome(p.spec_len(), first) == Err::<
            Seq<FFTSComplex>,
            FFTSError,
        >(FFTSError::LengthMismatch),
{
}

} // verus!
