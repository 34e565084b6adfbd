use vstd::prelude::*;

verus! {

/// Largest value of the foreign interface's signed size integer (a C `int`).
pub const FOREIGN_INT_MAX: i32 = 2147483647;

/// Why an array cannot be handed to the foreign routines as it stands.
#[derive(Clone, Copy, Debug, PartialEq, Eq, Structural)]
pub enum BlasError {
    /// Some axis length or stride does not fit the foreign integer.
    RangeLimited,
    /// The innermost axis of a matrix is not unit-stride.
    IncompatibleLayout,
}

/// The shape and strides of an array, one entry per axis, strides in elements.
pub struct Layout {
    pub shape: Vec<usize>,
    pub strides: Vec<isize>,
}

/// Product of a sequence of axis lengths.
pub open spec fn product(s: Seq<usize>) -> int
    decreases s.len(),
{
    if s.len() == 0 {
        1
    } else {
        s[0] as int * product(s.skip(1))
    }
}

/// Strides of a dense row-major array of the given shape.
pub open spec fn standard_stride(shape: Seq<usize>, i: int) -> int {
    product(shape.subrange(i + 1, shape.len() as int))
}

pub open spec fn fits_foreign_len(v: usize) -> bool {
    v <= FOREIGN_INT_MAX
}

pub open spec fn fits_foreign_stride(v: isize) -> bool {
    -FOREIGN_INT_MAX <= v <= FOREIGN_INT_MAX
}

impl Layout {
    pub open spec fn rank(&self) -> nat {
        self.shape@.len()
    }

    /// One stride per axis.
    pub open spec fn wf(&self) -> bool {
        self.shape@.len() == self.strides@.len()
    }

    /// Every axis length and every stride magnitude fits the foreign integer.
    pub open spec fn fits_foreign(&self) -> bool {
        forall|i: int|
            0 <= i < self.rank() ==> fits_foreign_len(#[trigger] self.shape@[i])
                && fits_foreign_stride(self.strides@[i])
    }

    /// The innermost axis has unit stride or at most one element.
    pub open spec fn inner_contiguous(&self) -> bool {
        self.rank() == 0 || self.shape@.last() <= 1 || self.strides@.last() == 1
    }

    /// Dense row-major order: empty, or every axis longer than one has the
    /// stride that the product of the later axis lengths gives.
    pub open spec fn standard(&self) -> bool {
        (exists|i: int| 0 <= i < self.rank() && #[trigger] self.shape@[i] == 0)
        || (forall|i: int|
            0 <= i < self.rank() && #[trigger] self.shape@[i] != 1
                ==> self.strides@[i] as int == standard_stride(self.shape@, i))
    }

    /// What a read-only or read-write view must satisfy: every value fits,
    /// and a view of rank two or more has a contiguous innermost axis.
    pub open spec fn view_result(&self) -> Result<(), BlasError> {
        if !self.fits_foreign() {
            Err(BlasError::RangeLimited)
        } else if self.rank() > 1 && !self.inner_contiguous() {
            Err(BlasError::IncompatibleLayout)
        } else {
            Ok(())
        }
    }

    /// Whether making an owned array ready for the foreign routines copies it:
    /// a matrix whose innermost axis is not contiguous, or any array of higher
    /// rank, unless it is already in the standard layout.
    pub open spec fn needs_copy(&self) -> bool {
        ((self.rank() == 2 && !self.inner_contiguous()) || self.rank() > 2) && !self.standard()
    }

    pub fn new(shape: Vec<usize>, strides: Vec<isize>) -> (r: Layout)
        requires
            shape@.len() == strides@.len(),
        ensures
            r.shape@ == shape@,
            r.strides@ == strides@,
            r.wf(),
    {
        Layout { shape, strides }
    }

    /// Checks every axis length and stride against the foreign integer's range.
    pub fn size_check(&self) -> (r: Result<(), BlasError>)
        requires
            self.wf(),
        ensures
            r == (if self.fits_foreign() { Ok::<(), BlasError>(()) } else { Err(BlasError::RangeLimited) }),
    {
        let max_len: usize = FOREIGN_INT_MAX as usize;
        let max_stride: isize = FOREIGN_INT_MAX as isize;
        assert(max_len == FOREIGN_INT_MAX && max_stride == FOREIGN_INT_MAX);
        let n = self.shape.len();
        let mut i: usize = 0;
        while i < n
            invariant
                self.wf(),
                n == self.rank(),
                i <= n,
                max_len == FOREIGN_INT_MAX,
                max_stride == FOREIGN_INT_MAX,
                forall|j: int|
                    0 <= j < i ==> fits_foreign_len(#[trigger] self.shape@[j])
                        && fits_foreign_stride(self.strides@[j]),
            decreases n - i,
        {
            let dim = self.shape[i];
            let stride = self.strides[i];
            if dim > max_len || stride > max_stride || stride < -max_stride {
                return Err(BlasError::RangeLimited);
            }
            assert forall|j: int| 0 <= j < i + 1 implies fits_foreign_len(#[trigger] self.shape@[j])
                && fits_foreign_stride(self.strides@[j]) by {
                if j == i {
                    assert(dim <= max_len && -max_stride <= stride <= max_stride);
                }
            }
            i += 1;
        }
        Ok(())
    }

    /// Returns `Err(IncompatibleLayout)` unless the innermost axis is contiguous.
    pub fn contiguous_check(&self) -> (r: Result<(), BlasError>)
        requires
            self.wf(),
        ensures
            r == (if self.inner_contiguous() { Ok::<(), BlasError>(()) } else { Err(BlasError::IncompatibleLayout) }),
    {
        if is_inner_contiguous(self) {
            Ok(())
        } else {
            Err(BlasError::IncompatibleLayout)
        }
    }

    /// The checks a view passes before it is wrapped: range first, then, for
    /// rank two or more, contiguity of the innermost axis.
    pub fn view_check(&self) -> (r: Result<(), BlasError>)
        requires
            self.wf(),
        ensures
            r == self.view_result(),
    {
        match self.size_check() {
            Err(e) => Err(e),
            Ok(()) => {
                if self.shape.len() > 1 {
                    self.contiguous_check()
                } else {
                    Ok(())
                }
            },
        }
    }

    /// Whether the array this layout describes is in dense row-major order.
    pub fn is_standard_layout(&self) -> (r: bool)
        requires
            self.wf(),
        ensures
            r == self.standard(),
    {
        let n = self.shape.len();
        let mut i: usize = 0;
        while i < n
            invariant
                n == self.rank(),
                i <= n,
                forall|j: int| 0 <= j < i ==> #[trigger] self.shape@[j] != 0,
            decreases n - i,
        {
            if self.shape[i] == 0 {
                return true;
            }
            i += 1;
        }
        let mut contig: usize = 1;
        let mut big: bool = false;
        let mut k: usize = n;
        while k > 0
            invariant
                self.wf(),
                n == self.rank(),
                k <= n,
                forall|j: int| 0 <= j < n ==> #[trigger] self.shape@[j] != 0,
                big ==> product(self.shape@.subrange(k as int, n as int)) > usize::MAX,
                !big ==> contig == product(self.shape@.subrange(k as int, n as int)),
                forall|j: int|
                    k <= j < n && #[trigger] self.shape@[j] != 1
                        ==> self.strides@[j] as int == standard_stride(self.shape@, j),
            decreases k,
        {
            k -= 1;
            let d = self.shape[k];
            proof {
                lemma_product_step(self.shape@, k as int);
            }
            if d != 1 {
                let s = self.strides[k];
                if big || s < 0 || s as usize != contig {
                    assert(self.strides@[k as int] as int != standard_stride(self.shape@, k as int));
                    return false;
                }
            }
            if !big {
                match contig.checked_mul(d) {
                    Some(c) => {
                        contig = c;
                    },
                    None => {
                        big = true;
                    },
                }
            } else {
                proof {
                    let p = product(self.shape@.subrange(k + 1, n as int));
                    assert(d as int * p >= p) by (nonlinear_arith)
                        requires
                            d >= 1,
                            p >= 0;
                }
            }
        }
        true
    }
}

/// Products of axis lengths are never negative.
proof fn lemma_product_nonneg(s: Seq<usize>)
    ensures
        product(s) >= 0,
    decreases s.len(),
{
    if s.len() > 0 {
        lemma_product_nonneg(s.skip(1));
        let p = product(s.skip(1));
        let h = s[0] as int;
        assert(h * p >= 0) by (nonlinear_arith)
            requires
                h >= 0,
                p >= 0;
    }
}

proof fn lemma_product_step(s: Seq<usize>, k: int)
    requires
        0 <= k < s.len(),
    ensures
        product(s.subrange(k, s.len() as int)) == s[k] as int * product(s.subrange(k + 1, s.len() as int)),
        product(s.subrange(k + 1, s.len() as int)) >= 0,
{
    assert(s.subrange(k, s.len() as int).skip(1) =~= s.subrange(k + 1, s.len() as int));
    lemma_product_nonneg(s.subrange(k + 1, s.len() as int));
}

/// Whether the innermost axis is contiguous: true for rank zero, for an
/// innermost axis of at most one element, and for unit innermost stride.
pub fn is_inner_contiguous(l: &Layout) -> (r: bool)
    requires
        l.wf(),
    ensures
        r == l.inner_contiguous(),
{
    let n = l.shape.len();
    if n == 0 {
        return true;
    }
    l.shape[n - 1] <= 1 || l.strides[n - 1] == 1
}

} // verus!
