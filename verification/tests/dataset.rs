use brush_kernel::dataset::{
    assign_split, select_frames, select_points_file, select_view_files, PointsFile, Split,
    ViewFiles,
};

#[test]
fn binary_model_is_preferred() {
    let expected = ViewFiles {
        binary: true,
        cameras: "sparse/0/cameras.bin",
        images: "sparse/0/images.bin",
    };
    assert_eq!(select_view_files(true, true), Some(expected));
    assert_eq!(select_view_files(true, false), Some(expected));
}

#[test]
fn text_model_is_taken_when_alone() {
    assert_eq!(
        select_view_files(false, true),
        Some(ViewFiles {
            binary: false,
            cameras: "sparse/0/cameras.txt",
            images: "sparse/0/images.txt",
        })
    );
}

#[test]
fn archive_without_cameras_holds_no_model() {
    assert_eq!(select_view_files(false, false), None);
    assert_eq!(select_points_file(false, false), None);
}

#[test]
fn points_follow_the_encoding_of_the_model() {
    assert_eq!(
        select_points_file(true, false),
        Some(PointsFile { binary: true, points: "sparse/0/points3D.bin" })
    );
    assert_eq!(
        select_points_file(true, true),
        Some(PointsFile { binary: true, points: "sparse/0/points3D.bin" })
    );
    assert_eq!(
        select_points_file(false, true),
        Some(PointsFile { binary: false, points: "sparse/0/points3D.txt" })
    );
}

#[test]
fn frames_come_in_ascending_id_order() {
    assert_eq!(select_frames(vec![5, 3, 9, 1], None), vec![1, 3, 5, 9]);
    assert_eq!(select_frames(vec![2, -7, 2, 0], None), vec![-7, 0, 2, 2]);
    assert_eq!(select_frames(vec![], None), Vec::<i32>::new());
}

#[test]
fn frame_limit_keeps_the_lowest_ids() {
    assert_eq!(select_frames(vec![5, 3, 9, 1], Some(2)), vec![1, 3]);
    assert_eq!(select_frames(vec![5, 3, 9, 1], Some(0)), Vec::<i32>::new());
    assert_eq!(select_frames(vec![5, 3, 9, 1], Some(4)), vec![1, 3, 5, 9]);
    assert_eq!(select_frames(vec![5, 3, 9, 1], Some(100)), vec![1, 3, 5, 9]);
    assert_eq!(select_frames(vec![5, 3, 9, 1], Some(usize::MAX)), vec![1, 3, 5, 9]);
}

#[test]
fn every_nth_view_is_held_back() {
    let splits: Vec<Split> = (0..7).map(|index| assign_split(index, Some(3))).collect();
    assert_eq!(
        splits,
        vec![
            Split::Eval,
            Split::Train,
            Split::Train,
            Split::Eval,
            Split::Train,
            Split::Train,
            Split::Eval
        ]
    );
}

#[test]
fn period_of_one_holds_back_everything() {
    for index in 0..5 {
        assert_eq!(assign_split(index, Some(1)), Split::Eval);
    }
}

#[test]
fn without_a_period_every_view_trains() {
    for index in 0..5 {
        assert_eq!(assign_split(index, None), Split::Train);
    }
}
