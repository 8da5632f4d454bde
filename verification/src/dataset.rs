//! Decisions taken while a COLMAP scene is loaded from an archive.
//!
//! Reading the archive, decoding images and building cameras is the
//! caller's part. What is decided here is which model files to read, which
//! frames to load and in what order, and which frames are held back for
//! evaluation.

use vstd::prelude::*;

verus! {

/// The files of a COLMAP model that describe its views.
#[derive(Clone, Copy, Debug, PartialEq, Eq)]
pub struct ViewFiles {
    /// Whether the files use the binary encoding.
    pub binary: bool,
    /// The path of the camera list inside the archive.
    pub cameras: &'static str,
    /// The path of the image list inside the archive.
    pub images: &'static str,
}

/// The file of a COLMAP model that holds its point cloud.
#[derive(Clone, Copy, Debug, PartialEq, Eq)]
pub struct PointsFile {
    /// Whether the file uses the binary encoding.
    pub binary: bool,
    /// The path of the point list inside the archive.
    pub points: &'static str,
}

/// Picks the model files to read the views from. The binary camera list is
/// preferred; the text one is taken when only that is present; without
/// either the archive holds no COLMAP model.
pub fn select_view_files(has_binary_cameras: bool, has_text_cameras: bool) -> (files: Option<
    ViewFiles,
>)
    ensures
        files is Some <==> has_binary_cameras || has_text_cameras,
        files matches Some(f) ==> f.binary == has_binary_cameras,
        files matches Some(f) ==> f.cameras@ == (if has_binary_cameras {
            "sparse/0/cameras.bin"@
        } else {
            "sparse/0/cameras.txt"@
        }),
        files matches Some(f) ==> f.images@ == (if has_binary_cameras {
            "sparse/0/images.bin"@
        } else {
            "sparse/0/images.txt"@
        }),
{
    if has_binary_cameras {
        Some(
            ViewFiles {
                binary: true,
                cameras: "sparse/0/cameras.bin",
                images: "sparse/0/images.bin",
            },
        )
    } else if has_text_cameras {
        Some(
            ViewFiles {
                binary: false,
                cameras: "sparse/0/cameras.txt",
                images: "sparse/0/images.txt",
            },
        )
    } else {
        None
    }
}

/// Picks the file to read the initial point cloud from. The binary point
/// list is preferred; a model whose camera list is in text form has its
/// points in text form too.
pub fn select_points_file(has_binary_points: bool, has_text_cameras: bool) -> (file: Option<
    PointsFile,
>)
    ensures
        file is Some <==> has_binary_points || has_text_cameras,
        file matches Some(f) ==> f.binary == has_binary_points,
        file matches Some(f) ==> f.points@ == (if has_binary_points {
            "sparse/0/points3D.bin"@
        } else {
            "sparse/0/points3D.txt"@
        }),
{
    if has_binary_points {
        Some(PointsFile { binary: true, points: "sparse/0/points3D.bin" })
    } else if has_text_cameras {
        Some(PointsFile { binary: false, points: "sparse/0/points3D.txt" })
    } else {
        None
    }
}

/// Whether a sequence of image ids never goes down.
pub open spec fn ascending(ids: Seq<i32>) -> bool {
    forall|i: int, j: int| 0 <= i <= j < ids.len() ==> ids[i] <= ids[j]
}

/// The number of frames loaded out of `available` under a limit.
pub open spec fn frame_count(available: nat, max_frames: Option<usize>) -> nat {
    match max_frames {
        Some(limit) => if limit as nat <= available {
            limit as nat
        } else {
            available
        },
        None => available,
    }
}

/// Whether `frames` are the first frames of `ids` put in ascending order, as
/// many as the limit allows.
pub open spec fn frames_of(ids: Seq<i32>, max_frames: Option<usize>, frames: Seq<i32>) -> bool {
    exists|ordered: Seq<i32>|
        ascending(ordered) && #[trigger] ordered.to_multiset() == ids.to_multiset() && frames
            == ordered.take(frame_count(ids.len(), max_frames) as int)
}

/// Calls `<[i32]>::sort`, which std documents to put the slice in ascending
/// order. A sort moves items and neither adds nor drops one.
#[verifier::external_body]
fn sort_ids(ids: &mut Vec<i32>)
    ensures
        ascending(final(ids)@),
        final(ids)@.to_multiset() == old(ids)@.to_multiset(),
{
    ids.sort();
}

/// The frames to load, by image id: all ids in ascending order, cut off
/// after `max_frames` of them where a limit is given.
pub fn select_frames(ids: Vec<i32>, max_frames: Option<usize>) -> (frames: Vec<i32>)
    ensures
        frames_of(ids@, max_frames, frames@),
        ascending(frames@),
        frames@.len() == frame_count(ids@.len(), max_frames),
{
    let mut frames: Vec<i32> = ids;
    sort_ids(&mut frames);
    let ghost ordered = frames@;
    proof {
        ordered.to_multiset_ensures();
        ids@.to_multiset_ensures();
    }
    match max_frames {
        Some(limit) => {
            if limit <= frames.len() {
                frames.truncate(limit);
            }
        },
        None => {},
    }
    assert(frames@ =~= ordered.take(frame_count(ids@.len(), max_frames) as int));
    frames
}

/// The part of a dataset a view belongs to.
#[derive(Clone, Copy, Debug, PartialEq, Eq, Structural)]
pub enum Split {
    Train,
    Eval,
}

/// The part that the view at position `index` of the stream goes to. With
/// an evaluation period, every view whose position is a multiple of the
/// period is held back for evaluation; all others train.
pub fn assign_split(index: usize, eval_split_every: Option<usize>) -> (split: Split)
    requires
        eval_split_every != Some(0usize),
    ensures
        split == Split::Eval <==> (eval_split_every matches Some(period) && index % period == 0),
{
    match eval_split_every {
        Some(period) => {
            if index % period == 0 {
                Split::Eval
            } else {
                Split::Train
            }
        },
        None => Split::Train,
    }
}

} // verus!
