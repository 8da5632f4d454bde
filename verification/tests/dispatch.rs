use brush_kernel::dispatch::{calc_cube_count, CubeCount, CubeDim};

#[test]
fn one_axis_rounds_up() {
    assert_eq!(calc_cube_count([10u32], [8, 1, 1]), CubeCount::Static(2, 1, 1));
}

#[test]
fn two_axes_divide_evenly() {
    assert_eq!(calc_cube_count([16u32, 16], [8, 8, 1]), CubeCount::Static(2, 2, 1));
}

#[test]
fn no_axis_launches_one_group_each() {
    let sizes: [u32; 0] = [];
    assert_eq!(calc_cube_count(sizes, [8, 8, 8]), CubeCount::Static(1, 1, 1));
}

#[test]
fn thousand_threads_in_groups_of_256() {
    assert_eq!(calc_cube_count([1000u32], [256, 1, 1]), CubeCount::Static(4, 1, 1));
}

#[test]
fn zero_work_still_launches_one_group() {
    assert_eq!(calc_cube_count([0u32, 0, 0], [8, 8, 8]), CubeCount::Static(1, 1, 1));
    assert_eq!(calc_cube_count([0u32, 17], [4, 4, 4]), CubeCount::Static(1, 5, 1));
}

#[test]
fn three_axes_each_by_its_own_group_size() {
    assert_eq!(calc_cube_count([7u32, 64, 65], [7, 16, 16]), CubeCount::Static(1, 4, 5));
}

#[test]
fn sizes_beyond_the_third_are_ignored() {
    assert_eq!(calc_cube_count([9u32, 9, 9, 1000], [3, 3, 3]), CubeCount::Static(3, 3, 3));
}

#[test]
fn largest_work_size_does_not_overflow() {
    assert_eq!(
        calc_cube_count([u32::MAX, u32::MAX, u32::MAX], [1, 2, u32::MAX]),
        CubeCount::Static(u32::MAX, 2147483648, 1)
    );
    assert_eq!(calc_cube_count([u32::MAX], [u32::MAX - 1, 1, 1]), CubeCount::Static(2, 1, 1));
}

#[test]
fn group_size_above_work_size_gives_one() {
    assert_eq!(calc_cube_count([3u32, 5], [256, 256, 256]), CubeCount::Static(1, 1, 1));
}

#[test]
fn counts_cover_the_work_with_the_fewest_groups() {
    for total in 0u32..200 {
        for group in 1u32..20 {
            match calc_cube_count([total], [group, 1, 1]) {
                CubeCount::Static(x, 1, 1) => {
                    assert!(x >= 1);
                    assert!(x as u64 * group as u64 >= total as u64);
                    if total > 0 {
                        assert!((x as u64 - 1) * (group as u64) < total as u64);
                    }
                }
                other => panic!("unexpected count {:?}", other),
            }
        }
    }
}

#[test]
fn cube_dim_compares_by_fields() {
    assert_eq!(CubeDim { x: 1, y: 2, z: 3 }, CubeDim { x: 1, y: 2, z: 3 });
    assert_ne!(CubeDim { x: 1, y: 2, z: 3 }, CubeDim { x: 1, y: 2, z: 4 });
}
