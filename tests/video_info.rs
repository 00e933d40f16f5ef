use gst_binding::{Fraction, VideoColorRange, VideoColorimetry, VideoInfo, VideoInfoNative};

const FORMAT_I420: i32 = 2;
const MULTIVIEW_MODE_NONE: i32 = -1;
const MULTIVIEW_MODE_SIDE_BY_SIDE: i32 = 3;

/// An I420 description with the plane layout of 320x240 (three planes, the
/// chroma planes at half resolution), at the given dimensions.
fn i420_defaults(width: i32, height: i32) -> VideoInfoNative {
    VideoInfoNative {
        format: FORMAT_I420,
        n_planes: 3,
        width,
        height,
        interlace_mode: 0,
        flags: 0,
        size: 320 * 240 + 2 * 160 * 120,
        views: 1,
        chroma_site: 2,
        colorimetry: VideoColorimetry::new(VideoColorRange::Range16235, 4, 5, 2),
        par: Fraction::new(1, 1),
        fps: Fraction::new(0, 1),
        offset: vec![0, 320 * 240, 320 * 240 + 160 * 120, 0],
        stride: vec![320, 160, 160, 0],
        multiview_mode: MULTIVIEW_MODE_NONE,
        multiview_flags: 0,
        field_order: 0,
    }
}

fn defaults() -> Option<VideoInfo> {
    VideoInfo::from_native(&i420_defaults(320, 240))
}

#[test]
fn test_new() {
    let info = VideoInfo::new(FORMAT_I420, 320, 240).build(defaults()).unwrap();
    assert_eq!(info.format(), FORMAT_I420);
    assert_eq!(info.width(), 320);
    assert_eq!(info.height(), 240);
    assert_eq!(info.size(), 320 * 240 + 2 * 160 * 120);
    assert_eq!(info.multiview_mode(), MULTIVIEW_MODE_NONE);
    assert_eq!(&info.offset(), &[0, 320 * 240, 320 * 240 + 160 * 120]);
    assert_eq!(&info.stride(), &[320, 160, 160]);

    let offsets = [0, 640 * 240 + 16, 640 * 240 + 16 + 320 * 120 + 16];
    let strides = [640, 320, 320];
    let info = VideoInfo::new(FORMAT_I420, 320, 240)
        .offset(&offsets)
        .stride(&strides)
        .size(640 * 240 + 16 + 320 * 120 + 16 + 320 * 120 + 16)
        .multiview_mode(MULTIVIEW_MODE_SIDE_BY_SIDE)
        .build(defaults())
        .unwrap();
    assert_eq!(info.format(), FORMAT_I420);
    assert_eq!(info.width(), 320);
    assert_eq!(info.height(), 240);
    assert_eq!(
        info.size(),
        640 * 240 + 16 + 320 * 120 + 16 + 320 * 120 + 16
    );
    assert_eq!(info.multiview_mode(), MULTIVIEW_MODE_SIDE_BY_SIDE);
    assert_eq!(
        &info.offset(),
        &[0, 640 * 240 + 16, 640 * 240 + 16 + 320 * 120 + 16]
    );
    assert_eq!(&info.stride(), &[640, 320, 320]);
}

#[test]
fn planar_420_layout_is_kept() {
    let info = VideoInfo::new(FORMAT_I420, 320, 240).build(defaults()).unwrap();
    assert_eq!(info.size(), 115200);
    assert_eq!(info.offset(), &[0, 76800, 96000]);
    assert_eq!(info.stride(), &[320, 160, 160]);
    assert_eq!(info.n_planes(), 3);
    assert_eq!(info.par(), Fraction::new(1, 1));
    assert_eq!(info.views(), 1);
}

#[test]
fn overrides_replace_defaults() {
    let c = VideoColorimetry::new(VideoColorRange::Range0255, 1, 1, 1);
    let info = VideoInfo::new(FORMAT_I420, 320, 240)
        .interlace_mode(1)
        .flags(3)
        .views(2)
        .chroma_site(4)
        .colorimetry(&c)
        .par(Fraction::new(4, 3))
        .fps(Fraction::new(30, 1))
        .multiview_flags(9)
        .field_order(1)
        .build(defaults())
        .unwrap();
    assert_eq!(info.interlace_mode(), 1);
    assert_eq!(info.flags(), 3);
    assert_eq!(info.views(), 2);
    assert_eq!(info.chroma_site(), 4);
    assert_eq!(info.colorimetry(), c);
    assert_eq!(info.par(), Fraction::new(4, 3));
    assert_eq!(info.fps(), Fraction::new(30, 1));
    assert_eq!(info.multiview_flags(), 9);
    assert_eq!(info.field_order(), 1);
    assert_eq!(info.size(), 115200);
}

#[test]
fn build_order_does_not_matter() {
    let offsets = [0, 100, 200];
    let strides = [640, 320, 320];
    let a = VideoInfo::new(FORMAT_I420, 320, 240)
        .offset(&offsets)
        .stride(&strides)
        .build(defaults())
        .unwrap();
    let b = VideoInfo::new(FORMAT_I420, 320, 240)
        .stride(&strides)
        .offset(&offsets)
        .build(defaults())
        .unwrap();
    assert!(a == b);
}

#[test]
fn last_write_wins() {
    let first = [1, 2, 3];
    let second = [0, 10, 20];
    let info = VideoInfo::new(FORMAT_I420, 320, 240)
        .offset(&first)
        .size(1)
        .offset(&second)
        .size(2)
        .build(defaults())
        .unwrap();
    assert_eq!(info.offset(), &[0, 10, 20]);
    assert_eq!(info.size(), 2);
}

#[test]
fn offset_of_wrong_length_is_rejected() {
    let offsets = [0, 76800];
    let r = VideoInfo::new(FORMAT_I420, 320, 240).offset(&offsets).build(defaults());
    assert!(r.is_none());
    let offsets = [0, 1, 2, 3];
    let r = VideoInfo::new(FORMAT_I420, 320, 240).offset(&offsets).build(defaults());
    assert!(r.is_none());
}

#[test]
fn stride_of_wrong_length_is_rejected() {
    let strides = [320, 160];
    let r = VideoInfo::new(FORMAT_I420, 320, 240).stride(&strides).build(defaults());
    assert!(r.is_none());
}

#[test]
fn empty_dimension_is_rejected() {
    let zero_width = VideoInfo::from_native(&i420_defaults(0, 240));
    assert!(VideoInfo::new(FORMAT_I420, 0, 240).build(zero_width).is_none());
    let zero_height = VideoInfo::from_native(&i420_defaults(320, 0));
    assert!(VideoInfo::new(FORMAT_I420, 320, 0).build(zero_height).is_none());
}

#[test]
fn unknown_format_is_rejected() {
    assert!(VideoInfo::new(-5, 320, 240).build(None).is_none());
}

#[test]
fn native_structure_round_trip() {
    let info = VideoInfo::new(FORMAT_I420, 320, 240)
        .fps(Fraction::new(30, 1))
        .build(defaults())
        .unwrap();
    let native = info.to_native();
    assert_eq!(native.n_planes, 3);
    assert_eq!(native.offset, vec![0, 76800, 96000]);
    let back = VideoInfo::from_native(&native).unwrap();
    assert!(back == info);
}

#[test]
fn invalid_native_structures_are_refused() {
    let mut n = i420_defaults(320, 240);
    n.n_planes = 0;
    assert!(VideoInfo::from_native(&n).is_none());
    let mut n = i420_defaults(320, 240);
    n.n_planes = 5;
    assert!(VideoInfo::from_native(&n).is_none());
    let mut n = i420_defaults(320, 240);
    n.offset = vec![0, 1];
    assert!(VideoInfo::from_native(&n).is_none());
    let mut n = i420_defaults(320, 240);
    n.stride = vec![320];
    assert!(VideoInfo::from_native(&n).is_none());
    assert!(VideoInfo::from_native(&i420_defaults(-1, 240)).is_none());
    assert!(VideoInfo::from_native(&i420_defaults(320, -1)).is_none());
}

#[test]
fn native_arrays_are_cut_to_plane_count() {
    let info = VideoInfo::from_native(&i420_defaults(320, 240)).unwrap();
    assert_eq!(info.offset().len(), 3);
    assert_eq!(info.stride().len(), 3);
}

#[test]
fn equality_compares_fields() {
    let a = VideoInfo::new(FORMAT_I420, 320, 240).build(defaults()).unwrap();
    let b = VideoInfo::new(FORMAT_I420, 320, 240).views(2).build(defaults()).unwrap();
    let strides = [320, 160, 161];
    let c = VideoInfo::new(FORMAT_I420, 320, 240).stride(&strides).build(defaults()).unwrap();
    assert!(a == a);
    assert!(!(a == b));
    assert!(!(a == c));
}

#[test]
fn builder_keeps_mandatory_fields() {
    let b = VideoInfo::new(FORMAT_I420, 320, 240);
    assert_eq!(b.format(), FORMAT_I420);
    assert_eq!(b.width(), 320);
    assert_eq!(b.height(), 240);
}

#[test]
fn clone_is_equal() {
    let offsets = [0, 100, 200];
    let a = VideoInfo::new(FORMAT_I420, 320, 240).offset(&offsets).build(defaults()).unwrap();
    let b = a.clone();
    assert!(a == b);
    assert_eq!(b.offset(), &[0, 100, 200]);
}

#[test]
fn defaults_for_another_video_are_rejected() {
    assert!(VideoInfo::new(FORMAT_I420, 640, 240).build(defaults()).is_none());
    assert!(VideoInfo::new(FORMAT_I420, 320, 480).build(defaults()).is_none());
    assert!(VideoInfo::new(FORMAT_I420 + 1, 320, 240).build(defaults()).is_none());
}

#[test]
fn repeated_setters_in_any_order() {
    let offsets = [0, 100, 200];
    let a = VideoInfo::new(FORMAT_I420, 320, 240)
        .size(5)
        .offset(&offsets)
        .size(7)
        .build(defaults())
        .unwrap();
    let b = VideoInfo::new(FORMAT_I420, 320, 240)
        .offset(&offsets)
        .size(7)
        .build(defaults())
        .unwrap();
    assert!(a == b);
    assert_eq!(a.size(), 7);
}
