use chainner_ext::image::{Image, Size};
use chainner_ext::palette::ExtractionError;
use chainner_ext::snap::{compare_snapshot, get_snap_path, SnapshotAction};
use chainner_ext::util::image::{from_const, from_const_cow, from_image, from_image_cow, ImageCow};

#[test]
fn from_const_with_and_without_out() {
    let a = from_const(Size::new(2, 1), 7u8, None);
    assert_eq!(a.data(), &[7, 7][..]);
    let b = from_const(Size::new(2, 1), 3u8, Some(a));
    assert_eq!(b.data(), &[3, 3][..]);
}

#[test]
fn from_image_copies() {
    let src = Image::new(Size::new(3, 1), vec![1u8, 2, 3]);
    let a = from_image(&src, None);
    assert_eq!(a.data(), src.data());
    let out = Image::new(Size::new(3, 1), vec![0u8, 0, 0]);
    let b = from_image(&src, Some(out));
    assert_eq!(b.data(), src.data());
}

#[test]
fn cow_variants_borrow_or_own() {
    let mut out = Image::new(Size::new(2, 1), vec![0u8, 0]);
    {
        let cow = from_const_cow(Size::new(2, 1), 9u8, Some(&mut out));
        assert!(matches!(cow, ImageCow::Borrowed(_)));
        assert_eq!(cow.data(), &[9, 9][..]);
    }
    assert_eq!(out.data(), &[9, 9][..]);
    let owned = from_const_cow(Size::new(1, 1), 4u8, None);
    assert!(matches!(owned, ImageCow::Owned(_)));
    assert_eq!(owned.image().data(), &[4][..]);

    let src = Image::new(Size::new(2, 1), vec![5u8, 6]);
    {
        let mut cow = from_image_cow(&src, Some(&mut out));
        assert_eq!(cow.image().data(), &[5, 6][..]);
        cow.image_mut().data_mut()[0] = 1;
    }
    assert_eq!(out.data(), &[1, 6][..]);
    let owned = from_image_cow(&src, None);
    assert_eq!(owned.data(), &[5, 6][..]);
}

#[test]
fn snapshot_path_and_decision() {
    assert_eq!(get_snap_path("abc"), "__snapshots/abc.png");
    assert_eq!(compare_snapshot(None, &[1, 2], false), SnapshotAction::Write);
    assert_eq!(compare_snapshot(Some(&[1, 2]), &[1, 2], false), SnapshotAction::Keep);
    assert_eq!(compare_snapshot(Some(&[1, 3]), &[1, 2], false), SnapshotAction::Changed);
    assert_eq!(compare_snapshot(Some(&[1]), &[1, 2], true), SnapshotAction::Write);
}

#[test]
fn extraction_error_compares() {
    let e = ExtractionError::TooManyColors { max_colors: 2, actual_colors: 3 };
    assert_eq!(e.clone(), e);
    assert_ne!(e, ExtractionError::UnsupportedChannels { channels: 5 });
}
