use vstd::prelude::*;

verus! {

/// Native code of `GST_VIDEO_COLOR_RANGE_UNKNOWN`.
pub const COLOR_RANGE_UNKNOWN: i32 = 0;

/// Native code of `GST_VIDEO_COLOR_RANGE_0_255`.
pub const COLOR_RANGE_0_255: i32 = 1;

/// Native code of `GST_VIDEO_COLOR_RANGE_16_235`.
pub const COLOR_RANGE_16_235: i32 = 2;

/// Range of the colour components. A native code that this library does not
/// know is kept in `__Unknown`, so that no code is lost.
#[derive(Clone, Copy, Debug, PartialEq, Eq, Hash, Structural)]
pub enum VideoColorRange {
    Unknown,
    Range0255,
    Range16235,
    __Unknown(i32),
}

/// The native code of a colour range.
pub open spec fn range_to_native(r: VideoColorRange) -> i32 {
    match r {
        VideoColorRange::Unknown => COLOR_RANGE_UNKNOWN,
        VideoColorRange::Range0255 => COLOR_RANGE_0_255,
        VideoColorRange::Range16235 => COLOR_RANGE_16_235,
        VideoColorRange::__Unknown(v) => v,
    }
}

/// The colour range of a native code.
pub open spec fn range_from_native(v: i32) -> VideoColorRange {
    if v == COLOR_RANGE_UNKNOWN {
        VideoColorRange::Unknown
    } else if v == COLOR_RANGE_0_255 {
        VideoColorRange::Range0255
    } else if v == COLOR_RANGE_16_235 {
        VideoColorRange::Range16235
    } else {
        VideoColorRange::__Unknown(v)
    }
}

/// A code that has a named variant.
pub open spec fn is_known_range_code(v: i32) -> bool {
    COLOR_RANGE_UNKNOWN <= v <= COLOR_RANGE_16_235
}

/// A value that the conversion from native codes can produce: the catch-all
/// variant never carries a code that has a named variant.
pub open spec fn range_is_canonical(r: VideoColorRange) -> bool {
    match r {
        VideoColorRange::__Unknown(v) => !is_known_range_code(v),
        _ => true,
    }
}

impl VideoColorRange {
    /// The native code of this range.
    pub fn to_glib(&self) -> (r: i32)
        ensures
            r == range_to_native(*self),
    {
        match *self {
            VideoColorRange::Unknown => COLOR_RANGE_UNKNOWN,
            VideoColorRange::Range0255 => COLOR_RANGE_0_255,
            VideoColorRange::Range16235 => COLOR_RANGE_16_235,
            VideoColorRange::__Unknown(value) => value,
        }
    }

    /// The range of a native code; total, codes without a named variant are
    /// kept in `__Unknown`.
    pub fn from_glib(value: i32) -> (r: VideoColorRange)
        ensures
            r == range_from_native(value),
            range_is_canonical(r),
    {
        match value {
            0 => VideoColorRange::Unknown,
            1 => VideoColorRange::Range0255,
            2 => VideoColorRange::Range16235,
            value => VideoColorRange::__Unknown(value),
        }
    }
}

/// Every named range, and every catch-all value that carries an unnamed code,
/// comes back unchanged from its native code.
pub proof fn lemma_range_round_trip(r: VideoColorRange)
    requires
        range_is_canonical(r),
    ensures
        range_from_native(range_to_native(r)) == r,
{
}

/// A native code comes back unchanged from its range, for every code.
pub proof fn lemma_range_code_round_trip(v: i32)
    ensures
        range_to_native(range_from_native(v)) == v,
{
}

/// A code outside the named ones is carried by the catch-all variant.
pub proof fn lemma_unknown_range_code(v: i32)
    requires
        !is_known_range_code(v),
    ensures
        range_from_native(v) == VideoColorRange::__Unknown(v),
{
}

/// Colorimetry of a video, held as the native layer holds it: the native codes
/// of its colour range, colour matrix, transfer function and primaries. Two
/// values are equal exactly when their four codes are.
#[derive(Clone, Copy, Debug, PartialEq, Eq, Hash, Structural)]
pub struct VideoColorimetry {
    pub range: i32,
    pub matrix: i32,
    pub transfer: i32,
    pub primaries: i32,
}

impl VideoColorimetry {
    /// The colorimetry of this range (stored as its native code) and these
    /// native codes.
    pub fn new(range: VideoColorRange, matrix: i32, transfer: i32, primaries: i32) -> (r: Self)
        ensures
            r == colorimetry_from_native(range_to_native(range), matrix, transfer, primaries),
    {
        VideoColorimetry { range: range.to_glib(), matrix, transfer, primaries }
    }

    /// The colorimetry that the four native codes describe.
    pub fn from_glib(range: i32, matrix: i32, transfer: i32, primaries: i32) -> (r: Self)
        ensures
            r == colorimetry_from_native(range, matrix, transfer, primaries),
    {
        VideoColorimetry { range, matrix, transfer, primaries }
    }

    /// The four native codes: range, matrix, transfer function, primaries.
    pub fn to_glib(&self) -> (r: (i32, i32, i32, i32))
        ensures
            r == colorimetry_to_native(*self),
    {
        (self.range, self.matrix, self.transfer, self.primaries)
    }

    /// The colour range; a code without a named variant comes back in the
    /// catch-all variant.
    pub fn range(&self) -> (r: VideoColorRange)
        ensures
            r == range_from_native(self.range),
    {
        VideoColorRange::from_glib(self.range)
    }
}

pub open spec fn colorimetry_to_native(c: VideoColorimetry) -> (i32, i32, i32, i32) {
    (c.range, c.matrix, c.transfer, c.primaries)
}

pub open spec fn colorimetry_from_native(
    range: i32,
    matrix: i32,
    transfer: i32,
    primaries: i32,
) -> VideoColorimetry {
    VideoColorimetry { range, matrix, transfer, primaries }
}

/// A colorimetry is rebuilt unchanged from its four native codes.
pub proof fn lemma_colorimetry_round_trip(c: VideoColorimetry)
    ensures
        ({
            let codes = colorimetry_to_native(c);
            colorimetry_from_native(codes.0, codes.1, codes.2, codes.3) == c
        }),
{
}

/// Two colorimetries are equal exactly when their native codes are; in
/// particular two built by `new` are equal exactly when their ranges have the
/// same native code and the other three codes agree.
pub proof fn lemma_colorimetry_equal_iff_codes(a: VideoColorimetry, b: VideoColorimetry)
    ensures
        (a == b) <==> (colorimetry_to_native(a) == colorimetry_to_native(b)),
{
}

} // verus!
