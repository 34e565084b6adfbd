use vstd::prelude::*;
use crate::layout::{fits_foreign_len, fits_foreign_stride, standard_stride, BlasError, Layout, FOREIGN_INT_MAX};

verus! {

/// A scalar or a vector whose lengths and strides fit the foreign integer is
/// accepted as a view, read-only or read-write, whatever its stride; the
/// descriptor's length and increment are then its shape and stride.
pub proof fn lemma_low_rank_views_accepted(l: Layout)
    requires
        l.wf(),
        l.rank() <= 1,
        l.fits_foreign(),
    ensures
        l.view_result() == Ok::<(), BlasError>(()),
{
}

/// A matrix whose innermost axis holds more than one element at a stride
/// other than one is refused as a view with `IncompatibleLayout`, and making
/// it ready copies it unless it is already in the standard layout.
pub proof fn lemma_strided_matrix_refused(l: Layout)
    requires
        l.wf(),
        l.rank() == 2,
        l.fits_foreign(),
        l.shape@[1] > 1,
        l.strides@[1] != 1,
    ensures
        l.view_result() == Err::<(), BlasError>(BlasError::IncompatibleLayout),
        l.needs_copy() == !l.standard(),
{
}

/// An array in the standard layout with no empty axis has a unit-stride
/// innermost axis (or one of length one), so once its values fit it is
/// accepted as a view: what the copy made when an array is readied passes.
pub proof fn lemma_standard_layout_accepted(l: Layout)
    requires
        l.wf(),
        l.standard(),
        l.fits_foreign(),
        forall|i: int| 0 <= i < l.rank() ==> #[trigger] l.shape@[i] > 0,
    ensures
        l.inner_contiguous(),
        l.view_result() == Ok::<(), BlasError>(()),
{
    if l.rank() > 0 {
        let n = l.rank() as int;
        assert(l.shape@[n - 1] > 0);
        assert(l.shape@.subrange(n, n).len() == 0);
        if l.shape@[n - 1] != 1 {
            assert(l.strides@[n - 1] as int == standard_stride(l.shape@, n - 1));
        }
    }
}

/// Making an array that is already in the standard layout ready never copies it.
pub proof fn lemma_standard_layout_not_copied(l: Layout)
    requires
        l.wf(),
        l.standard(),
    ensures
        !l.needs_copy(),
{
}

/// A length or stride outside the foreign integer's range makes every entry
/// point fail with `RangeLimited`, the one that readies an owned array
/// included, which decides so before any copy.
pub proof fn lemma_out_of_range_refused(l: Layout, i: int)
    requires
        l.wf(),
        0 <= i < l.rank(),
        l.shape@[i] > FOREIGN_INT_MAX || l.strides@[i] > FOREIGN_INT_MAX
            || l.strides@[i] < -FOREIGN_INT_MAX,
    ensures
        l.view_result() == Err::<(), BlasError>(BlasError::RangeLimited),
        !l.fits_foreign(),
{
    assert(!(fits_foreign_len(l.shape@[i]) && fits_foreign_stride(l.strides@[i])));
}

} // verus!
