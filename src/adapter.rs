use vstd::prelude::*;
use crate::layout::{fits_foreign_len, fits_foreign_stride, is_inner_contiguous, BlasError, Layout};

verus! {

/// A read-only view, with its layout, that the foreign routines can take as a
/// vector (rank one) or a matrix (rank two). It exists only once the layout
/// has passed the range check and, for rank two or more, the contiguity check.
pub struct BlasArrayView<V> {
    view: V,
    checked: CheckedLayout,
}

/// A read-write view, with its layout, that the foreign routines can take as
/// a vector or a matrix and write through. Same checks as `BlasArrayView`.
pub struct BlasArrayViewMut<V> {
    view: V,
    checked: CheckedLayout,
}

/// A layout that has passed the range check and, for rank two or more, the
/// contiguity check; the casts to the foreign integer below rely on it.
pub struct CheckedLayout {
    layout: Layout,
}

impl CheckedLayout {
    #[verifier::type_invariant]
    spec fn inv(&self) -> bool {
        self.layout.wf() && self.layout.view_result() is Ok
    }

    pub closed spec fn spec_layout(&self) -> Layout {
        self.layout
    }

    pub fn layout(&self) -> (r: &Layout)
        ensures
            *r == self.spec_layout(),
            r.wf(),
            r.view_result() is Ok,
    {
        proof {
            use_type_invariant(self);
        }
        &self.layout
    }

    fn vector_len(&self) -> (r: i32)
        requires
            self.layout.rank() == 1,
        ensures
            r as int == self.layout.shape@[0],
    {
        proof {
            use_type_invariant(self);
        }
        assert(fits_foreign_len(self.layout.shape@[0]) && fits_foreign_stride(self.layout.strides@[0]));
        self.layout.shape[0] as i32
    }

    fn vector_inc(&self) -> (r: i32)
        requires
            self.layout.rank() == 1,
        ensures
            r as int == self.layout.strides@[0],
    {
        proof {
            use_type_invariant(self);
        }
        assert(fits_foreign_len(self.layout.shape@[0]) && fits_foreign_stride(self.layout.strides@[0]));
        self.layout.strides[0] as i32
    }

    fn matrix_rows(&self) -> (r: i32)
        requires
            self.layout.rank() == 2,
        ensures
            r as int == self.layout.shape@[0],
    {
        proof {
            use_type_invariant(self);
        }
        assert(fits_foreign_len(self.layout.shape@[0]) && fits_foreign_stride(self.layout.strides@[0]));
        self.layout.shape[0] as i32
    }

    fn matrix_cols(&self) -> (r: i32)
        requires
            self.layout.rank() == 2,
        ensures
            r as int == self.layout.shape@[1],
    {
        proof {
            use_type_invariant(self);
        }
        assert(fits_foreign_len(self.layout.shape@[1]) && fits_foreign_stride(self.layout.strides@[1]));
        self.layout.shape[1] as i32
    }

    fn matrix_lead_dim(&self) -> (r: i32)
        requires
            self.layout.rank() == 2,
        ensures
            r as int == self.layout.strides@[0],
            self.layout.shape@[1] <= 1 || self.layout.strides@[1] == 1,
    {
        proof {
            use_type_invariant(self);
        }
        assert(fits_foreign_len(self.layout.shape@[0]) && fits_foreign_stride(self.layout.strides@[0]));
        self.layout.strides[0] as i32
    }
}

impl<V> BlasArrayView<V> {
    /// The layout the view was checked with.
    pub closed spec fn spec_layout(&self) -> Layout {
        self.checked.layout
    }

    pub closed spec fn spec_view(&self) -> V {
        self.view
    }

    pub fn layout(&self) -> (r: &Layout)
        ensures
            *r == self.spec_layout(),
            r.wf(),
            r.view_result() is Ok,
    {
        self.checked.layout()
    }

    /// The wrapped view, for reading its base pointer.
    pub fn view(&self) -> (r: &V)
        ensures
            *r == self.spec_view(),
    {
        &self.view
    }

    /// Vector length: the length of the only axis.
    pub fn len(&self) -> (r: i32)
        requires
            self.spec_layout().rank() == 1,
        ensures
            r as int == self.spec_layout().shape@[0],
    {
        self.checked.vector_len()
    }

    /// Vector increment: the stride of the only axis.
    pub fn inc(&self) -> (r: i32)
        requires
            self.spec_layout().rank() == 1,
        ensures
            r as int == self.spec_layout().strides@[0],
    {
        self.checked.vector_inc()
    }

    /// Matrix rows: the length of the outer axis.
    pub fn rows(&self) -> (r: i32)
        requires
            self.spec_layout().rank() == 2,
        ensures
            r as int == self.spec_layout().shape@[0],
    {
        self.checked.matrix_rows()
    }

    /// Matrix columns: the length of the inner axis.
    pub fn cols(&self) -> (r: i32)
        requires
            self.spec_layout().rank() == 2,
        ensures
            r as int == self.spec_layout().shape@[1],
    {
        self.checked.matrix_cols()
    }

    /// Leading dimension: the stride between consecutive rows. The columns of
    /// a row are adjacent, or a row holds at most one element.
    pub fn lead_dim(&self) -> (r: i32)
        requires
            self.spec_layout().rank() == 2,
        ensures
            r as int == self.spec_layout().strides@[0],
            self.spec_layout().shape@[1] <= 1 || self.spec_layout().strides@[1] == 1,
    {
        self.checked.matrix_lead_dim()
    }
}

impl<V> BlasArrayViewMut<V> {
    /// The layout the view was checked with.
    pub closed spec fn spec_layout(&self) -> Layout {
        self.checked.layout
    }

    pub closed spec fn spec_view(&self) -> V {
        self.view
    }

    pub fn layout(&self) -> (r: &Layout)
        ensures
            *r == self.spec_layout(),
            r.wf(),
            r.view_result() is Ok,
    {
        self.checked.layout()
    }

    /// The wrapped view, for reading its base pointer.
    pub fn view(&self) -> (r: &V)
        ensures
            *r == self.spec_view(),
    {
        &self.view
    }

    /// The wrapped view, for writing through its base pointer.
    pub fn view_mut(&mut self) -> (r: &mut V)
        ensures
            *r == old(self).spec_view(),
    {
        &mut self.view
    }

    /// Vector length: the length of the only axis.
    pub fn len(&self) -> (r: i32)
        requires
            self.spec_layout().rank() == 1,
        ensures
            r as int == self.spec_layout().shape@[0],
    {
        self.checked.vector_len()
    }

    /// Vector increment: the stride of the only axis.
    pub fn inc(&self) -> (r: i32)
        requires
            self.spec_layout().rank() == 1,
        ensures
            r as int == self.spec_layout().strides@[0],
    {
        self.checked.vector_inc()
    }

    /// Matrix rows: the length of the outer axis.
    pub fn rows(&self) -> (r: i32)
        requires
            self.spec_layout().rank() == 2,
        ensures
            r as int == self.spec_layout().shape@[0],
    {
        self.checked.matrix_rows()
    }

    /// Matrix columns: the length of the inner axis.
    pub fn cols(&self) -> (r: i32)
        requires
            self.spec_layout().rank() == 2,
        ensures
            r as int == self.spec_layout().shape@[1],
    {
        self.checked.matrix_cols()
    }

    /// Leading dimension: the stride between consecutive rows. The columns of
    /// a row are adjacent, or a row holds at most one element.
    pub fn lead_dim(&self) -> (r: i32)
        requires
            self.spec_layout().rank() == 2,
        ensures
            r as int == self.spec_layout().strides@[0],
            self.spec_layout().shape@[1] <= 1 || self.spec_layout().strides@[1] == 1,
    {
        self.checked.matrix_lead_dim()
    }
}

/// Wraps a read-only view whose layout is `layout` once that layout passes
/// the range check and, for rank two or more, the contiguity check.
pub fn into_blas_view<V>(view: V, layout: Layout) -> (r: Result<BlasArrayView<V>, BlasError>)
    requires
        layout.wf(),
    ensures
        match r {
            Ok(b) => layout.view_result() is Ok && b.spec_layout() == layout && b.spec_view() == view,
            Err(e) => layout.view_result() == Err::<(), BlasError>(e),
        },
{
    match layout.view_check() {
        Ok(()) => Ok(BlasArrayView { view, checked: CheckedLayout { layout } }),
        Err(e) => Err(e),
    }
}

/// Wraps a read-write view whose layout is `layout`, with the checks of
/// `into_blas_view`.
pub fn into_blas_view_mut<V>(view: V, layout: Layout) -> (r: Result<BlasArrayViewMut<V>, BlasError>)
    requires
        layout.wf(),
    ensures
        match r {
            Ok(b) => layout.view_result() is Ok && b.spec_layout() == layout && b.spec_view() == view,
            Err(e) => layout.view_result() == Err::<(), BlasError>(e),
        },
{
    match layout.view_check() {
        Ok(()) => Ok(BlasArrayViewMut { view, checked: CheckedLayout { layout } }),
        Err(e) => Err(e),
    }
}

/// What making an owned array ready for the foreign routines takes, decided
/// from its layout before anything is copied: `Err(RangeLimited)` if a value
/// does not fit, else whether the array must first be copied into the
/// standard layout.
pub fn blas_plan(l: &Layout) -> (r: Result<bool, BlasError>)
    requires
        l.wf(),
    ensures
        r == (if !l.fits_foreign() { Err::<bool, BlasError>(BlasError::RangeLimited) } else { Ok(l.needs_copy()) }),
{
    match l.size_check() {
        Err(e) => Err(e),
        Ok(()) => {
            let n = l.shape.len();
            if (n == 2 && !is_inner_contiguous(l)) || n > 2 {
                Ok(!l.is_standard_layout())
            } else {
                Ok(false)
            }
        },
    }
}

} // verus!
