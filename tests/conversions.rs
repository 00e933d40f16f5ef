use gst_binding::{
    bool_result, declared_len_u16, declared_len_u8, render_rectangle_result,
    ConversionBoundsError, VideoColorRange, VideoColorimetry,
};

#[test]
fn known_ranges_round_trip() {
    for r in [
        VideoColorRange::Unknown,
        VideoColorRange::Range0255,
        VideoColorRange::Range16235,
        VideoColorRange::__Unknown(3),
        VideoColorRange::__Unknown(-7),
    ] {
        assert_eq!(VideoColorRange::from_glib(r.to_glib()), r);
    }
}

#[test]
fn range_codes() {
    assert_eq!(VideoColorRange::Unknown.to_glib(), 0);
    assert_eq!(VideoColorRange::Range0255.to_glib(), 1);
    assert_eq!(VideoColorRange::Range16235.to_glib(), 2);
    assert_eq!(VideoColorRange::from_glib(1), VideoColorRange::Range0255);
}

#[test]
fn unknown_range_codes_are_kept() {
    assert_eq!(VideoColorRange::from_glib(3), VideoColorRange::__Unknown(3));
    assert_eq!(VideoColorRange::from_glib(-1), VideoColorRange::__Unknown(-1));
    assert_eq!(
        VideoColorRange::from_glib(i32::MAX),
        VideoColorRange::__Unknown(i32::MAX)
    );
    assert_eq!(VideoColorRange::from_glib(i32::MIN).to_glib(), i32::MIN);
}

#[test]
fn colorimetry_codes_round_trip() {
    let c = VideoColorimetry::new(VideoColorRange::Range16235, 3, 5, 1);
    assert_eq!(c.to_glib(), (2, 3, 5, 1));
    let (r, m, t, p) = c.to_glib();
    assert_eq!(VideoColorimetry::from_glib(r, m, t, p), c);
    let d = VideoColorimetry::from_glib(9, 0, 0, 0);
    assert_eq!(d.range(), VideoColorRange::__Unknown(9));
    assert!(d != c);
}

#[test]
fn colorimetry_equality_follows_codes() {
    let a = VideoColorimetry::new(VideoColorRange::Unknown, 1, 1, 1);
    let b = VideoColorimetry::new(VideoColorRange::__Unknown(0), 1, 1, 1);
    assert_eq!(a, b);
    assert_eq!(b.range(), VideoColorRange::Unknown);
    let c = VideoColorimetry::new(VideoColorRange::Range0255, 1, 1, 1);
    assert!(a != c);
    assert_eq!(a, VideoColorimetry::from_glib(0, 1, 1, 1));
}

#[test]
fn byte_lengths() {
    assert_eq!(declared_len_u8(&[]), Ok(0));
    assert_eq!(declared_len_u8(&[7u8; 255]), Ok(255));
    assert_eq!(
        declared_len_u8(&[7u8; 256]),
        Err(ConversionBoundsError { len: 256, max: 255 })
    );
    assert_eq!(declared_len_u16(&vec![0u8; 65535]), Ok(65535));
    assert_eq!(
        declared_len_u16(&vec![0u8; 65536]),
        Err(ConversionBoundsError { len: 65536, max: 65535 })
    );
    assert_eq!(declared_len_u16(&[1, 2, 3]), Ok(3));
}

#[test]
fn native_failures_carry_reason() {
    assert!(render_rectangle_result(true).is_ok());
    let e = render_rectangle_result(false).unwrap_err();
    assert_eq!(e.message, "Failed to set render rectangle");
    assert!(bool_result(true, "x").is_ok());
    assert_eq!(bool_result(false, "no window").unwrap_err().message, "no window");
}
