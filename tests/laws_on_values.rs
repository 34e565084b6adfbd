use ndarray_rblas::adapter::blas_plan;
use ndarray_rblas::layout::{BlasError, Layout, FOREIGN_INT_MAX};

fn layout(shape: &[usize], strides: &[isize]) -> Layout {
    Layout::new(shape.to_vec(), strides.to_vec())
}

#[test]
fn low_rank_views_accepted_whatever_the_stride() {
    for stride in [-7isize, 0, 1, 5, FOREIGN_INT_MAX as isize] {
        let l = layout(&[9], &[stride]);
        assert_eq!(l.view_check(), Ok(()));
        assert_eq!(blas_plan(&l), Ok(false));
    }
}

#[test]
fn strided_matrix_refused_and_planned_for_copy() {
    let l = layout(&[4, 3], &[1, 4]);
    assert_eq!(l.view_check(), Err(BlasError::IncompatibleLayout));
    assert_eq!(blas_plan(&l), Ok(true));
}

#[test]
fn standard_layout_is_accepted() {
    let l = layout(&[2, 3, 4], &[12, 4, 1]);
    assert!(l.is_standard_layout());
    assert_eq!(l.view_check(), Ok(()));
    assert_eq!(blas_plan(&l), Ok(false));
}
