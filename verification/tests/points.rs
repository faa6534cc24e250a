use banana_lib::size_2d::{PointIterRowMajor, Size2d};
use banana_lib::vec2::{IVec2, UVec2};

#[test]
fn row_major_walk_of_three_by_two() {
    let it = PointIterRowMajor::new(UVec2::new(3, 2));
    let expected = vec![
        IVec2::new(0, 0),
        IVec2::new(1, 0),
        IVec2::new(2, 0),
        IVec2::new(0, 1),
        IVec2::new(1, 1),
        IVec2::new(2, 1),
    ];
    assert_eq!(it.to_vec(), expected);
    assert_eq!(UVec2::new(3, 2).count(), 6);
}
