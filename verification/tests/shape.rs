use primitiv::shape::Shape;
use primitiv::tensor::{repeat, Tensor};

#[test]
fn size_is_the_product_of_the_extents() {
    assert_eq!(Shape::new(vec![2, 3]).size(), Some(6));
    assert_eq!(Shape::new(vec![7]).size(), Some(7));
    assert_eq!(Shape::new(vec![2, 3, 4, 5]).size(), Some(120));
    assert_eq!(Shape::new(vec![1, 1, 1]).size(), Some(1));
}

#[test]
fn a_shape_without_axes_has_one_element() {
    assert_eq!(Shape::new(vec![]).size(), Some(1));
    assert!(Shape::new(vec![]).holds(1));
    assert!(!Shape::new(vec![]).holds(0));
}

#[test]
fn an_axis_of_extent_zero_leaves_no_element() {
    assert_eq!(Shape::new(vec![0]).size(), Some(0));
    assert_eq!(Shape::new(vec![4, 0, 2]).size(), Some(0));
    assert_eq!(
        Shape::new(vec![u32::MAX, u32::MAX, u32::MAX, 0]).size(),
        Some(0)
    );
    assert_eq!(
        Shape::new(vec![0, u32::MAX, u32::MAX, u32::MAX]).size(),
        Some(0)
    );
}

#[test]
fn a_size_beyond_usize_is_none() {
    let huge = Shape::new(vec![u32::MAX, u32::MAX, u32::MAX]);
    assert_eq!(huge.size(), None);
    assert!(!huge.holds(0));
    assert!(!huge.holds(usize::MAX));
}

#[test]
fn the_largest_size_that_fits_is_kept() {
    let shape = Shape::new(vec![u32::MAX]);
    assert_eq!(shape.size(), Some(u32::MAX as usize));
}

#[test]
fn holds_compares_with_the_element_count() {
    let shape = Shape::new(vec![2, 3]);
    assert!(shape.holds(6));
    assert!(!shape.holds(5));
    assert!(!shape.holds(7));
    assert!(!shape.holds(0));
}

#[test]
fn shapes_compare_by_their_extents() {
    let shape = Shape::new(vec![2, 3]);
    assert!(shape.same_as(&Shape::new(vec![2, 3])));
    assert!(!shape.same_as(&Shape::new(vec![3, 2])));
    assert!(!shape.same_as(&Shape::new(vec![2, 3, 1])));
    assert!(!shape.same_as(&Shape::new(vec![6])));
    assert!(Shape::new(vec![]).same_as(&Shape::new(vec![])));
    assert_eq!(shape.dims(), &vec![2, 3]);
    assert!(shape.duplicate().same_as(&shape));
}

#[test]
fn repeat_gives_the_value_that_many_times() {
    assert_eq!(repeat(0, 5), Vec::<u32>::new());
    assert_eq!(repeat(3, 5), vec![5, 5, 5]);
    assert_eq!(repeat(2, 1.5f32.to_bits()), vec![0x3fc0_0000, 0x3fc0_0000]);
}

#[test]
fn a_tensor_keeps_shape_and_values() {
    let tensor = Tensor::new(Shape::new(vec![2, 2]), vec![1, 2, 3, 4]);
    assert_eq!(tensor.shape().dims(), &vec![2, 2]);
    assert_eq!(tensor.values(), &vec![1, 2, 3, 4]);
    let copy = tensor.duplicate();
    assert_eq!(copy.shape().dims(), &vec![2, 2]);
    assert_eq!(copy.values(), &vec![1, 2, 3, 4]);
}

#[test]
fn a_zeroed_tensor_holds_zeros() {
    let tensor = Tensor::zeroed(Shape::new(vec![3]), 3);
    assert_eq!(tensor.values(), &vec![0, 0, 0]);
    assert!(tensor.values().iter().all(|bits| f32::from_bits(*bits) == 0.0));
    assert_eq!(Tensor::zeroed(Shape::new(vec![0]), 0).values().len(), 0);
}
