use vstd::prelude::*;
use vstd::slice::slice_to_vec;

use crate::color::VideoColorimetry;

verus! {

/// The most planes a video frame has.
pub const VIDEO_MAX_PLANES: usize = 4;

/// A fraction as the native layer stores it: numerator and denominator, not
/// reduced.
#[derive(Clone, Copy, Debug, PartialEq, Eq, Hash, Structural)]
pub struct Fraction {
    pub numer: i32,
    pub denom: i32,
}

impl Fraction {
    pub fn new(numer: i32, denom: i32) -> (r: Fraction)
        ensures
            r == (Fraction { numer, denom }),
    {
        Fraction { numer, denom }
    }
}

/// The mathematical model of a `VideoInfo`: one entry in `offset` and in
/// `stride` for each plane of the format.
pub struct VideoInfoView {
    pub format: i32,
    pub width: u32,
    pub height: u32,
    pub interlace_mode: i32,
    pub flags: u32,
    pub size: usize,
    pub views: u32,
    pub chroma_site: u32,
    pub colorimetry: VideoColorimetry,
    pub par: Fraction,
    pub fps: Fraction,
    pub offset: Seq<usize>,
    pub stride: Seq<i32>,
    pub multiview_mode: i32,
    pub multiview_flags: u32,
    pub field_order: i32,
}

impl VideoInfoView {
    /// The plane count, which the format fixes.
    pub open spec fn n_planes(self) -> nat {
        self.offset.len()
    }

    /// What every `VideoInfo` satisfies: as many strides as offsets, between
    /// one and `VIDEO_MAX_PLANES` planes, dimensions that fit the native
    /// signed fields.
    pub open spec fn wf(self) -> bool {
        &&& self.stride.len() == self.offset.len()
        &&& 1 <= self.offset.len() <= VIDEO_MAX_PLANES
        &&& self.width <= i32::MAX
        &&& self.height <= i32::MAX
    }
}

/// Description of a video frame: format, dimensions, and the layout of its
/// planes. A finished value: nothing changes it after construction.
pub struct VideoInfo {
    format: i32,
    width: u32,
    height: u32,
    interlace_mode: i32,
    flags: u32,
    size: usize,
    views: u32,
    chroma_site: u32,
    colorimetry: VideoColorimetry,
    par: Fraction,
    fps: Fraction,
    offset: Vec<usize>,
    stride: Vec<i32>,
    multiview_mode: i32,
    multiview_flags: u32,
    field_order: i32,
}

impl View for VideoInfo {
    type V = VideoInfoView;

    closed spec fn view(&self) -> VideoInfoView {
        VideoInfoView {
            format: self.format,
            width: self.width,
            height: self.height,
            interlace_mode: self.interlace_mode,
            flags: self.flags,
            size: self.size,
            views: self.views,
            chroma_site: self.chroma_site,
            colorimetry: self.colorimetry,
            par: self.par,
            fps: self.fps,
            offset: self.offset@,
            stride: self.stride@,
            multiview_mode: self.multiview_mode,
            multiview_flags: self.multiview_flags,
            field_order: self.field_order,
        }
    }
}

/// A video description as the native structure holds it. The native arrays of
/// offsets and strides may be longer than the plane count; only the first
/// `n_planes` entries mean anything.
pub struct VideoInfoNative {
    pub format: i32,
    pub n_planes: u32,
    pub width: i32,
    pub height: i32,
    pub interlace_mode: i32,
    pub flags: u32,
    pub size: usize,
    pub views: u32,
    pub chroma_site: u32,
    pub colorimetry: VideoColorimetry,
    pub par: Fraction,
    pub fps: Fraction,
    pub offset: Vec<usize>,
    pub stride: Vec<i32>,
    pub multiview_mode: i32,
    pub multiview_flags: u32,
    pub field_order: i32,
}

/// A native structure that describes a video: a plane count that a format can
/// have, arrays that hold an entry for each plane, dimensions that are not
/// negative.
pub open spec fn native_is_valid(n: &VideoInfoNative) -> bool {
    &&& 1 <= n.n_planes <= VIDEO_MAX_PLANES
    &&& n.n_planes <= n.offset@.len()
    &&& n.n_planes <= n.stride@.len()
    &&& n.width >= 0
    &&& n.height >= 0
}

/// The video that a valid native structure describes.
pub open spec fn native_view(n: &VideoInfoNative) -> VideoInfoView {
    VideoInfoView {
        format: n.format,
        width: n.width as u32,
        height: n.height as u32,
        interlace_mode: n.interlace_mode,
        flags: n.flags,
        size: n.size,
        views: n.views,
        chroma_site: n.chroma_site,
        colorimetry: n.colorimetry,
        par: n.par,
        fps: n.fps,
        offset: n.offset@.subrange(0, n.n_planes as int),
        stride: n.stride@.subrange(0, n.n_planes as int),
        multiview_mode: n.multiview_mode,
        multiview_flags: n.multiview_flags,
        field_order: n.field_order,
    }
}

/// `n` holds `v` with exactly one offset and one stride for each plane.
pub open spec fn native_describes(n: &VideoInfoNative, v: VideoInfoView) -> bool {
    &&& n.format == v.format
    &&& n.n_planes == v.n_planes()
    &&& n.width == v.width as i32
    &&& n.height == v.height as i32
    &&& n.interlace_mode == v.interlace_mode
    &&& n.flags == v.flags
    &&& n.size == v.size
    &&& n.views == v.views
    &&& n.chroma_site == v.chroma_site
    &&& n.colorimetry == v.colorimetry
    &&& n.par == v.par
    &&& n.fps == v.fps
    &&& n.offset@ == v.offset
    &&& n.stride@ == v.stride
    &&& n.multiview_mode == v.multiview_mode
    &&& n.multiview_flags == v.multiview_flags
    &&& n.field_order == v.field_order
}

/// The first `n` entries of `v`.
fn prefix<T: Copy>(v: &Vec<T>, n: usize) -> (r: Vec<T>)
    requires
        n <= v@.len(),
    ensures
        r@ == v@.subrange(0, n as int),
{
    let mut r: Vec<T> = Vec::new();
    let mut i: usize = 0;
    while i < n
        invariant
            n <= v@.len(),
            i <= n,
            r@ == v@.subrange(0, i as int),
        decreases n - i,
    {
        r.push(v[i]);
        i = i + 1;
    }
    r
}

fn offsets_equal(a: &Vec<usize>, b: &Vec<usize>) -> (r: bool)
    ensures
        r == (a@ == b@),
{
    if a.len() != b.len() {
        return false;
    }
    let mut i: usize = 0;
    while i < a.len()
        invariant
            a@.len() == b@.len(),
            i <= a@.len(),
            forall|j: int| 0 <= j < i ==> a@[j] == b@[j],
        decreases a@.len() - i,
    {
        if a[i] != b[i] {
            return false;
        }
        i = i + 1;
    }
    assert(a@ =~= b@);
    true
}

fn strides_equal(a: &Vec<i32>, b: &Vec<i32>) -> (r: bool)
    ensures
        r == (a@ == b@),
{
    if a.len() != b.len() {
        return false;
    }
    let mut i: usize = 0;
    while i < a.len()
        invariant
            a@.len() == b@.len(),
            i <= a@.len(),
            forall|j: int| 0 <= j < i ==> a@[j] == b@[j],
        decreases a@.len() - i,
    {
        if a[i] != b[i] {
            return false;
        }
        i = i + 1;
    }
    assert(a@ =~= b@);
    true
}

impl VideoInfo {
    #[verifier::type_invariant]
    spec fn inv(&self) -> bool {
        self@.wf()
    }

    /// The video that a native structure describes; `None` where the
    /// structure is not valid.
    pub fn from_native(n: &VideoInfoNative) -> (r: Option<VideoInfo>)
        ensures
            r is Some <==> native_is_valid(n),
            r is Some ==> r->0@ == native_view(n),
    {
        if n.n_planes < 1 || n.n_planes as usize > VIDEO_MAX_PLANES || n.n_planes as usize
            > n.offset.len() || n.n_planes as usize > n.stride.len() || n.width < 0 || n.height
            < 0 {
            return None;
        }
        let planes = n.n_planes as usize;
        Some(
            VideoInfo {
                format: n.format,
                width: n.width as u32,
                height: n.height as u32,
                interlace_mode: n.interlace_mode,
                flags: n.flags,
                size: n.size,
                views: n.views,
                chroma_site: n.chroma_site,
                colorimetry: n.colorimetry,
                par: n.par,
                fps: n.fps,
                offset: prefix(&n.offset, planes),
                stride: prefix(&n.stride, planes),
                multiview_mode: n.multiview_mode,
                multiview_flags: n.multiview_flags,
                field_order: n.field_order,
            },
        )
    }

    /// The native structure that holds this video.
    pub fn to_native(&self) -> (r: VideoInfoNative)
        ensures
            native_describes(&r, self@),
            self@.wf(),
    {
        proof {
            use_type_invariant(self);
        }
        VideoInfoNative {
            format: self.format,
            n_planes: self.offset.len() as u32,
            width: self.width as i32,
            height: self.height as i32,
            interlace_mode: self.interlace_mode,
            flags: self.flags,
            size: self.size,
            views: self.views,
            chroma_site: self.chroma_site,
            colorimetry: self.colorimetry,
            par: self.par,
            fps: self.fps,
            offset: slice_to_vec(self.offset.as_slice()),
            stride: slice_to_vec(self.stride.as_slice()),
            multiview_mode: self.multiview_mode,
            multiview_flags: self.multiview_flags,
            field_order: self.field_order,
        }
    }

    /// Native code of the video format.
    pub fn format(&self) -> (r: i32)
        ensures
            r == self@.format,
    {
        self.format
    }

    /// Number of planes of the format.
    pub fn n_planes(&self) -> (r: usize)
        ensures
            r == self@.n_planes(),
    {
        self.offset.len()
    }

    pub fn width(&self) -> (r: u32)
        ensures
            r == self@.width,
    {
        self.width
    }

    pub fn height(&self) -> (r: u32)
        ensures
            r == self@.height,
    {
        self.height
    }

    pub fn interlace_mode(&self) -> (r: i32)
        ensures
            r == self@.interlace_mode,
    {
        self.interlace_mode
    }

    pub fn flags(&self) -> (r: u32)
        ensures
            r == self@.flags,
    {
        self.flags
    }

    /// Size of one frame in bytes.
    pub fn size(&self) -> (r: usize)
        ensures
            r == self@.size,
    {
        self.size
    }

    pub fn views(&self) -> (r: u32)
        ensures
            r == self@.views,
    {
        self.views
    }

    pub fn chroma_site(&self) -> (r: u32)
        ensures
            r == self@.chroma_site,
    {
        self.chroma_site
    }

    pub fn colorimetry(&self) -> (r: VideoColorimetry)
        ensures
            r == self@.colorimetry,
    {
        self.colorimetry
    }

    /// Pixel aspect ratio.
    pub fn par(&self) -> (r: Fraction)
        ensures
            r == self@.par,
    {
        self.par
    }

    /// Frame rate.
    pub fn fps(&self) -> (r: Fraction)
        ensures
            r == self@.fps,
    {
        self.fps
    }

    /// Offset of each plane in a frame, one for each plane.
    pub fn offset(&self) -> (r: &[usize])
        ensures
            r@ == self@.offset,
    {
        self.offset.as_slice()
    }

    /// Stride of each plane, one for each plane.
    pub fn stride(&self) -> (r: &[i32])
        ensures
            r@ == self@.stride,
    {
        self.stride.as_slice()
    }

    pub fn multiview_mode(&self) -> (r: i32)
        ensures
            r == self@.multiview_mode,
    {
        self.multiview_mode
    }

    pub fn multiview_flags(&self) -> (r: u32)
        ensures
            r == self@.multiview_flags,
    {
        self.multiview_flags
    }

    pub fn field_order(&self) -> (r: i32)
        ensures
            r == self@.field_order,
    {
        self.field_order
    }
}

impl Clone for VideoInfo {
    fn clone(&self) -> (r: VideoInfo)
        ensures
            r@ == self@,
    {
        proof {
            use_type_invariant(self);
        }
        VideoInfo {
            format: self.format,
            width: self.width,
            height: self.height,
            interlace_mode: self.interlace_mode,
            flags: self.flags,
            size: self.size,
            views: self.views,
            chroma_site: self.chroma_site,
            colorimetry: self.colorimetry,
            par: self.par,
            fps: self.fps,
            offset: slice_to_vec(self.offset.as_slice()),
            stride: slice_to_vec(self.stride.as_slice()),
            multiview_mode: self.multiview_mode,
            multiview_flags: self.multiview_flags,
            field_order: self.field_order,
        }
    }
}

/// Two descriptions are equal when every field is, the per-plane arrays
/// included.
impl PartialEq for VideoInfo {
    fn eq(&self, other: &VideoInfo) -> (r: bool) {
        self.format == other.format && self.width == other.width && self.height == other.height
            && self.interlace_mode == other.interlace_mode && self.flags == other.flags
            && self.size == other.size && self.views == other.views && self.chroma_site
            == other.chroma_site && self.colorimetry == other.colorimetry && self.par == other.par
            && self.fps == other.fps && self.multiview_mode == other.multiview_mode
            && self.multiview_flags == other.multiview_flags && self.field_order
            == other.field_order && offsets_equal(&self.offset, &other.offset) && strides_equal(
            &self.stride,
            &other.stride,
        )
    }
}

impl vstd::std_specs::cmp::PartialEqSpecImpl for VideoInfo {
    open spec fn obeys_eq_spec() -> bool {
        true
    }

    open spec fn eq_spec(&self, other: &VideoInfo) -> bool {
        self@ == other@
    }
}

/// The mathematical model of a `VideoInfoBuilder`: the mandatory format and
/// dimensions, and each optional field either unset or set to a value.
pub struct VideoInfoBuilderView {
    pub format: i32,
    pub width: u32,
    pub height: u32,
    pub interlace_mode: Option<i32>,
    pub flags: Option<u32>,
    pub size: Option<usize>,
    pub views: Option<u32>,
    pub chroma_site: Option<u32>,
    pub colorimetry: Option<VideoColorimetry>,
    pub par: Option<Fraction>,
    pub fps: Option<Fraction>,
    pub offset: Option<Seq<usize>>,
    pub stride: Option<Seq<i32>>,
    pub multiview_mode: Option<i32>,
    pub multiview_flags: Option<u32>,
    pub field_order: Option<i32>,
}

impl VideoInfoBuilderView {
    /// A staging value with every optional field unset.
    pub open spec fn initial(format: i32, width: u32, height: u32) -> Self {
        VideoInfoBuilderView {
            format,
            width,
            height,
            interlace_mode: None,
            flags: None,
            size: None,
            views: None,
            chroma_site: None,
            colorimetry: None,
            par: None,
            fps: None,
            offset: None,
            stride: None,
            multiview_mode: None,
            multiview_flags: None,
            field_order: None,
        }
    }

    pub open spec fn with_interlace_mode(self, v: i32) -> Self {
        VideoInfoBuilderView { interlace_mode: Some(v), ..self }
    }

    pub open spec fn with_flags(self, v: u32) -> Self {
        VideoInfoBuilderView { flags: Some(v), ..self }
    }

    pub open spec fn with_size(self, v: usize) -> Self {
        VideoInfoBuilderView { size: Some(v), ..self }
    }

    pub open spec fn with_views(self, v: u32) -> Self {
        VideoInfoBuilderView { views: Some(v), ..self }
    }

    pub open spec fn with_chroma_site(self, v: u32) -> Self {
        VideoInfoBuilderView { chroma_site: Some(v), ..self }
    }

    pub open spec fn with_colorimetry(self, v: VideoColorimetry) -> Self {
        VideoInfoBuilderView { colorimetry: Some(v), ..self }
    }

    pub open spec fn with_par(self, v: Fraction) -> Self {
        VideoInfoBuilderView { par: Some(v), ..self }
    }

    pub open spec fn with_fps(self, v: Fraction) -> Self {
        VideoInfoBuilderView { fps: Some(v), ..self }
    }

    pub open spec fn with_offset(self, v: Seq<usize>) -> Self {
        VideoInfoBuilderView { offset: Some(v), ..self }
    }

    pub open spec fn with_stride(self, v: Seq<i32>) -> Self {
        VideoInfoBuilderView { stride: Some(v), ..self }
    }

    pub open spec fn with_multiview_mode(self, v: i32) -> Self {
        VideoInfoBuilderView { multiview_mode: Some(v), ..self }
    }

    pub open spec fn with_multiview_flags(self, v: u32) -> Self {
        VideoInfoBuilderView { multiview_flags: Some(v), ..self }
    }

    pub open spec fn with_field_order(self, v: i32) -> Self {
        VideoInfoBuilderView { field_order: Some(v), ..self }
    }

    /// The set arrays have one entry for each of the `n` planes.
    pub open spec fn arrays_fit(self, n: nat) -> bool {
        &&& (self.offset is Some ==> self.offset->0.len() == n)
        &&& (self.stride is Some ==> self.stride->0.len() == n)
    }
}

/// The value of an optional field: the one set, else the default.
pub open spec fn set_or<T>(o: Option<T>, default: T) -> T {
    match o {
        Some(v) => v,
        None => default,
    }
}

/// The defaults `d` with every field that `b` sets replaced by its value.
pub open spec fn apply_overrides(b: VideoInfoBuilderView, d: VideoInfoView) -> VideoInfoView {
    VideoInfoView {
        format: d.format,
        width: d.width,
        height: d.height,
        interlace_mode: set_or(b.interlace_mode, d.interlace_mode),
        flags: set_or(b.flags, d.flags),
        size: set_or(b.size, d.size),
        views: set_or(b.views, d.views),
        chroma_site: set_or(b.chroma_site, d.chroma_site),
        colorimetry: set_or(b.colorimetry, d.colorimetry),
        par: set_or(b.par, d.par),
        fps: set_or(b.fps, d.fps),
        offset: set_or(b.offset, d.offset),
        stride: set_or(b.stride, d.stride),
        multiview_mode: set_or(b.multiview_mode, d.multiview_mode),
        multiview_flags: set_or(b.multiview_flags, d.multiview_flags),
        field_order: set_or(b.field_order, d.field_order),
    }
}

/// What building `b` on the defaults `d` gives: nothing without defaults, with
/// defaults for another format or size, with an empty dimension, or with an
/// offset or stride array whose length is not the plane count; else the
/// defaults with the overrides applied.
pub open spec fn build_result(b: VideoInfoBuilderView, d: Option<VideoInfoView>) -> Option<
    VideoInfoView,
> {
    match d {
        None => None,
        Some(d) => if d.format == b.format && d.width == b.width && d.height == b.height && b.width
            > 0 && b.height > 0 && b.arrays_fit(d.n_planes()) {
            Some(apply_overrides(b, d))
        } else {
            None
        },
    }
}

pub open spec fn info_view(o: Option<VideoInfo>) -> Option<VideoInfoView> {
    match o {
        Some(i) => Some(i@),
        None => None,
    }
}

/// Staging value for a `VideoInfo`: the format and dimensions, and optional
/// overrides of what the native layer computes from them. Each setter consumes
/// the builder and returns it; setting a field again replaces its value.
pub struct VideoInfoBuilder {
    format: i32,
    width: u32,
    height: u32,
    interlace_mode: Option<i32>,
    flags: Option<u32>,
    size: Option<usize>,
    views: Option<u32>,
    chroma_site: Option<u32>,
    colorimetry: Option<VideoColorimetry>,
    par: Option<Fraction>,
    fps: Option<Fraction>,
    offset: Option<Vec<usize>>,
    stride: Option<Vec<i32>>,
    multiview_mode: Option<i32>,
    multiview_flags: Option<u32>,
    field_order: Option<i32>,
}

impl View for VideoInfoBuilder {
    type V = VideoInfoBuilderView;

    closed spec fn view(&self) -> VideoInfoBuilderView {
        VideoInfoBuilderView {
            format: self.format,
            width: self.width,
            height: self.height,
            interlace_mode: self.interlace_mode,
            flags: self.flags,
            size: self.size,
            views: self.views,
            chroma_site: self.chroma_site,
            colorimetry: self.colorimetry,
            par: self.par,
            fps: self.fps,
            offset: match self.offset {
                Some(v) => Some(v@),
                None => None,
            },
            stride: match self.stride {
                Some(v) => Some(v@),
                None => None,
            },
            multiview_mode: self.multiview_mode,
            multiview_flags: self.multiview_flags,
            field_order: self.field_order,
        }
    }
}

impl VideoInfoBuilder {
    /// Checks the staging value against `defaults`, what the native layer
    /// computed for this format and these dimensions (`None` where it rejected
    /// them), and gives the finished value: the defaults with every field set
    /// here replacing its default. Nothing where the defaults are for another
    /// format or size, a dimension is zero, or a set offset or stride array
    /// does not have one entry for each plane.
    pub fn build(self, defaults: Option<VideoInfo>) -> (r: Option<VideoInfo>)
        ensures
            info_view(r) == build_result(self@, info_view(defaults)),
    {
        let d = match defaults {
            None => return None,
            Some(d) => d,
        };
        proof {
            use_type_invariant(&d);
        }
        let VideoInfoBuilder {
            format,
            width,
            height,
            interlace_mode,
            flags,
            size,
            views,
            chroma_site,
            colorimetry,
            par,
            fps,
            offset,
            stride,
            multiview_mode,
            multiview_flags,
            field_order,
        } = self;
        let VideoInfo {
            format: d_format,
            width: d_width,
            height: d_height,
            interlace_mode: d_interlace_mode,
            flags: d_flags,
            size: d_size,
            views: d_views,
            chroma_site: d_chroma_site,
            colorimetry: d_colorimetry,
            par: d_par,
            fps: d_fps,
            offset: d_offset,
            stride: d_stride,
            multiview_mode: d_multiview_mode,
            multiview_flags: d_multiview_flags,
            field_order: d_field_order,
        } = d;
        if d_format != format || d_width != width || d_height != height || width == 0 || height
            == 0 {
            return None;
        }
        let n_planes = d_offset.len();
        let offset = match offset {
            Some(o) => {
                if o.len() != n_planes {
                    return None;
                }
                o
            },
            None => d_offset,
        };
        let stride = match stride {
            Some(s) => {
                if s.len() != n_planes {
                    return None;
                }
                s
            },
            None => d_stride,
        };
        Some(
            VideoInfo {
                format: d_format,
                width: d_width,
                height: d_height,
                interlace_mode: unwrap_or(interlace_mode, d_interlace_mode),
                flags: unwrap_or(flags, d_flags),
                size: unwrap_or(size, d_size),
                views: unwrap_or(views, d_views),
                chroma_site: unwrap_or(chroma_site, d_chroma_site),
                colorimetry: unwrap_or(colorimetry, d_colorimetry),
                par: unwrap_or(par, d_par),
                fps: unwrap_or(fps, d_fps),
                offset,
                stride,
                multiview_mode: unwrap_or(multiview_mode, d_multiview_mode),
                multiview_flags: unwrap_or(multiview_flags, d_multiview_flags),
                field_order: unwrap_or(field_order, d_field_order),
            },
        )
    }

    pub fn interlace_mode(self, interlace_mode: i32) -> (r: VideoInfoBuilder)
        ensures
            r@ == self@.with_interlace_mode(interlace_mode),
    {
        VideoInfoBuilder { interlace_mode: Some(interlace_mode), ..self }
    }

    pub fn flags(self, flags: u32) -> (r: VideoInfoBuilder)
        ensures
            r@ == self@.with_flags(flags),
    {
        VideoInfoBuilder { flags: Some(flags), ..self }
    }

    /// Frame size in bytes.
    pub fn size(self, size: usize) -> (r: VideoInfoBuilder)
        ensures
            r@ == self@.with_size(size),
    {
        VideoInfoBuilder { size: Some(size), ..self }
    }

    pub fn views(self, views: u32) -> (r: VideoInfoBuilder)
        ensures
            r@ == self@.with_views(views),
    {
        VideoInfoBuilder { views: Some(views), ..self }
    }

    pub fn chroma_site(self, chroma_site: u32) -> (r: VideoInfoBuilder)
        ensures
            r@ == self@.with_chroma_site(chroma_site),
    {
        VideoInfoBuilder { chroma_site: Some(chroma_site), ..self }
    }

    pub fn colorimetry(self, colorimetry: &VideoColorimetry) -> (r: VideoInfoBuilder)
        ensures
            r@ == self@.with_colorimetry(*colorimetry),
    {
        VideoInfoBuilder { colorimetry: Some(*colorimetry), ..self }
    }

    /// Pixel aspect ratio.
    pub fn par(self, par: Fraction) -> (r: VideoInfoBuilder)
        ensures
            r@ == self@.with_par(par),
    {
        VideoInfoBuilder { par: Some(par), ..self }
    }

    /// Frame rate.
    pub fn fps(self, fps: Fraction) -> (r: VideoInfoBuilder)
        ensures
            r@ == self@.with_fps(fps),
    {
        VideoInfoBuilder { fps: Some(fps), ..self }
    }

    pub fn multiview_mode(self, multiview_mode: i32) -> (r: VideoInfoBuilder)
        ensures
            r@ == self@.with_multiview_mode(multiview_mode),
    {
        VideoInfoBuilder { multiview_mode: Some(multiview_mode), ..self }
    }

    pub fn multiview_flags(self, multiview_flags: u32) -> (r: VideoInfoBuilder)
        ensures
            r@ == self@.with_multiview_flags(multiview_flags),
    {
        VideoInfoBuilder { multiview_flags: Some(multiview_flags), ..self }
    }

    pub fn field_order(self, field_order: i32) -> (r: VideoInfoBuilder)
        ensures
            r@ == self@.with_field_order(field_order),
    {
        VideoInfoBuilder { field_order: Some(field_order), ..self }
    }

    /// Offset of each plane; `build` wants one for each plane of the format.
    pub fn offset(self, offset: &[usize]) -> (r: VideoInfoBuilder)
        ensures
            r@ == self@.with_offset(offset@),
    {
        VideoInfoBuilder { offset: Some(slice_to_vec(offset)), ..self }
    }

    /// Stride of each plane; `build` wants one for each plane of the format.
    pub fn stride(self, stride: &[i32]) -> (r: VideoInfoBuilder)
        ensures
            r@ == self@.with_stride(stride@),
    {
        VideoInfoBuilder { stride: Some(slice_to_vec(stride)), ..self }
    }
}

impl VideoInfo {
    /// Starts a staging value for a video of this format (its native code)
    /// and these dimensions, with no field overridden.
    pub fn new(format: i32, width: u32, height: u32) -> (r: VideoInfoBuilder)
        ensures
            r@ == VideoInfoBuilderView::initial(format, width, height),
    {
        VideoInfoBuilder {
            format,
            width,
            height,
            interlace_mode: None,
            flags: None,
            size: None,
            views: None,
            chroma_site: None,
            colorimetry: None,
            par: None,
            fps: None,
            offset: None,
            stride: None,
            multiview_mode: None,
            multiview_flags: None,
            field_order: None,
        }
    }
}

impl VideoInfoBuilder {
    /// Native code of the format that the defaults are computed for.
    pub fn format(&self) -> (r: i32)
        ensures
            r == self@.format,
    {
        self.format
    }

    pub fn width(&self) -> (r: u32)
        ensures
            r == self@.width,
    {
        self.width
    }

    pub fn height(&self) -> (r: u32)
        ensures
            r == self@.height,
    {
        self.height
    }
}

fn unwrap_or<T>(o: Option<T>, default: T) -> (r: T)
    ensures
        r == set_or(o, default),
{
    match o {
        Some(v) => v,
        None => default,
    }
}

/// One optional field of a staging value together with a value for it.
pub enum BuilderField {
    InterlaceMode(i32),
    Flags(u32),
    Size(usize),
    Views(u32),
    ChromaSite(u32),
    Colorimetry(VideoColorimetry),
    Par(Fraction),
    Fps(Fraction),
    Offset(Seq<usize>),
    Stride(Seq<i32>),
    MultiviewMode(i32),
    MultiviewFlags(u32),
    FieldOrder(i32),
}

impl BuilderField {
    /// Which field is set.
    pub open spec fn slot(self) -> int {
        match self {
            BuilderField::InterlaceMode(_) => 0,
            BuilderField::Flags(_) => 1,
            BuilderField::Size(_) => 2,
            BuilderField::Views(_) => 3,
            BuilderField::ChromaSite(_) => 4,
            BuilderField::Colorimetry(_) => 5,
            BuilderField::Par(_) => 6,
            BuilderField::Fps(_) => 7,
            BuilderField::Offset(_) => 8,
            BuilderField::Stride(_) => 9,
            BuilderField::MultiviewMode(_) => 10,
            BuilderField::MultiviewFlags(_) => 11,
            BuilderField::FieldOrder(_) => 12,
        }
    }
}

impl VideoInfoBuilderView {
    /// The staging value after the setter of `f`'s field is called with
    /// `f`'s value.
    pub open spec fn with_field(self, f: BuilderField) -> Self {
        match f {
            BuilderField::InterlaceMode(v) => self.with_interlace_mode(v),
            BuilderField::Flags(v) => self.with_flags(v),
            BuilderField::Size(v) => self.with_size(v),
            BuilderField::Views(v) => self.with_views(v),
            BuilderField::ChromaSite(v) => self.with_chroma_site(v),
            BuilderField::Colorimetry(v) => self.with_colorimetry(v),
            BuilderField::Par(v) => self.with_par(v),
            BuilderField::Fps(v) => self.with_fps(v),
            BuilderField::Offset(v) => self.with_offset(v),
            BuilderField::Stride(v) => self.with_stride(v),
            BuilderField::MultiviewMode(v) => self.with_multiview_mode(v),
            BuilderField::MultiviewFlags(v) => self.with_multiview_flags(v),
            BuilderField::FieldOrder(v) => self.with_field_order(v),
        }
    }
}

/// Setting two different fields in either order gives the same finished
/// value.
pub proof fn lemma_build_setters_commute(
    b: VideoInfoBuilderView,
    x: BuilderField,
    y: BuilderField,
    defaults: Option<VideoInfoView>,
)
    requires
        x.slot() != y.slot(),
    ensures
        build_result(b.with_field(x).with_field(y), defaults) == build_result(
            b.with_field(y).with_field(x),
            defaults,
        ),
{
    assert(b.with_field(x).with_field(y) == b.with_field(y).with_field(x));
}

/// Of two values set one after the other for the same field, the later one
/// is the one that counts.
pub proof fn lemma_build_last_write_wins(
    b: VideoInfoBuilderView,
    x: BuilderField,
    y: BuilderField,
    defaults: Option<VideoInfoView>,
)
    requires
        x.slot() == y.slot(),
    ensures
        build_result(b.with_field(x).with_field(y), defaults) == build_result(
            b.with_field(y),
            defaults,
        ),
{
    assert(b.with_field(x).with_field(y) == b.with_field(y));
}

/// The staging value after the setters of `fields` are called in order.
pub open spec fn with_fields(b: VideoInfoBuilderView, fields: Seq<BuilderField>) -> VideoInfoBuilderView
    decreases fields.len(),
{
    if fields.len() == 0 {
        b
    } else {
        with_fields(b, fields.drop_last()).with_field(fields.last())
    }
}

/// The last of `fields` that sets the field numbered `slot`, if any does.
pub open spec fn last_set(fields: Seq<BuilderField>, slot: int) -> Option<BuilderField>
    decreases fields.len(),
{
    if fields.len() == 0 {
        None
    } else if fields.last().slot() == slot {
        Some(fields.last())
    } else {
        last_set(fields.drop_last(), slot)
    }
}

/// What the staging value holds in the field numbered `slot`.
pub open spec fn slot_value(b: VideoInfoBuilderView, slot: int) -> Option<BuilderField> {
    if slot == 0 {
        match b.interlace_mode { Some(v) => Some(BuilderField::InterlaceMode(v)), None => None }
    } else if slot == 1 {
        match b.flags { Some(v) => Some(BuilderField::Flags(v)), None => None }
    } else if slot == 2 {
        match b.size { Some(v) => Some(BuilderField::Size(v)), None => None }
    } else if slot == 3 {
        match b.views { Some(v) => Some(BuilderField::Views(v)), None => None }
    } else if slot == 4 {
        match b.chroma_site { Some(v) => Some(BuilderField::ChromaSite(v)), None => None }
    } else if slot == 5 {
        match b.colorimetry { Some(v) => Some(BuilderField::Colorimetry(v)), None => None }
    } else if slot == 6 {
        match b.par { Some(v) => Some(BuilderField::Par(v)), None => None }
    } else if slot == 7 {
        match b.fps { Some(v) => Some(BuilderField::Fps(v)), None => None }
    } else if slot == 8 {
        match b.offset { Some(v) => Some(BuilderField::Offset(v)), None => None }
    } else if slot == 9 {
        match b.stride { Some(v) => Some(BuilderField::Stride(v)), None => None }
    } else if slot == 10 {
        match b.multiview_mode { Some(v) => Some(BuilderField::MultiviewMode(v)), None => None }
    } else if slot == 11 {
        match b.multiview_flags { Some(v) => Some(BuilderField::MultiviewFlags(v)), None => None }
    } else if slot == 12 {
        match b.field_order { Some(v) => Some(BuilderField::FieldOrder(v)), None => None }
    } else {
        None
    }
}

proof fn lemma_slot_value_with_field(b: VideoInfoBuilderView, f: BuilderField, slot: int)
    ensures
        slot_value(b.with_field(f), slot) == (if f.slot() == slot {
            Some(f)
        } else {
            slot_value(b, slot)
        }),
        b.with_field(f).format == b.format,
        b.with_field(f).width == b.width,
        b.with_field(f).height == b.height,
{
}

proof fn lemma_slot_value_with_fields(b: VideoInfoBuilderView, fields: Seq<BuilderField>, slot: int)
    ensures
        slot_value(with_fields(b, fields), slot) == (match last_set(fields, slot) {
            Some(f) => Some(f),
            None => slot_value(b, slot),
        }),
        with_fields(b, fields).format == b.format,
        with_fields(b, fields).width == b.width,
        with_fields(b, fields).height == b.height,
    decreases fields.len(),
{
    if fields.len() > 0 {
        lemma_slot_value_with_fields(b, fields.drop_last(), slot);
        lemma_slot_value_with_field(with_fields(b, fields.drop_last()), fields.last(), slot);
    }
}

proof fn lemma_builder_equal_by_slots(x: VideoInfoBuilderView, y: VideoInfoBuilderView)
    requires
        x.format == y.format,
        x.width == y.width,
        x.height == y.height,
        forall|slot: int| 0 <= slot < 13 ==> slot_value(x, slot) == slot_value(y, slot),
    ensures
        x == y,
{
    assert(slot_value(x, 0) == slot_value(y, 0));
    assert(slot_value(x, 1) == slot_value(y, 1));
    assert(slot_value(x, 2) == slot_value(y, 2));
    assert(slot_value(x, 3) == slot_value(y, 3));
    assert(slot_value(x, 4) == slot_value(y, 4));
    assert(slot_value(x, 5) == slot_value(y, 5));
    assert(slot_value(x, 6) == slot_value(y, 6));
    assert(slot_value(x, 7) == slot_value(y, 7));
    assert(slot_value(x, 8) == slot_value(y, 8));
    assert(slot_value(x, 9) == slot_value(y, 9));
    assert(slot_value(x, 10) == slot_value(y, 10));
    assert(slot_value(x, 11) == slot_value(y, 11));
    assert(slot_value(x, 12) == slot_value(y, 12));
}

/// Two sequences of setter calls on the same staging value, in any order and
/// with repeats, that leave each field with the same last value (or both
/// leave it unset) give the same staging value, and so the same finished
/// value.
pub proof fn lemma_build_any_order(
    b: VideoInfoBuilderView,
    first: Seq<BuilderField>,
    second: Seq<BuilderField>,
    defaults: Option<VideoInfoView>,
)
    requires
        forall|slot: int| 0 <= slot < 13 ==> last_set(first, slot) == last_set(second, slot),
    ensures
        with_fields(b, first) == with_fields(b, second),
        build_result(with_fields(b, first), defaults) == build_result(
            with_fields(b, second),
            defaults,
        ),
{
    assert forall|slot: int| 0 <= slot < 13 implies slot_value(with_fields(b, first), slot)
        == slot_value(with_fields(b, second), slot) by {
        lemma_slot_value_with_fields(b, first, slot);
        lemma_slot_value_with_fields(b, second, slot);
    }
    lemma_slot_value_with_fields(b, first, 0);
    lemma_slot_value_with_fields(b, second, 0);
    lemma_builder_equal_by_slots(with_fields(b, first), with_fields(b, second));
}

/// Setting the offsets and the strides in either order gives the same
/// finished value.
pub proof fn lemma_build_offset_stride_commute(
    b: VideoInfoBuilderView,
    offset: Seq<usize>,
    stride: Seq<i32>,
    defaults: Option<VideoInfoView>,
)
    ensures
        build_result(b.with_offset(offset).with_stride(stride), defaults) == build_result(
            b.with_stride(stride).with_offset(offset),
            defaults,
        ),
{
    lemma_build_setters_commute(b, BuilderField::Offset(offset), BuilderField::Stride(stride), defaults);
}

/// An offset or stride array that does not have one entry for each plane of
/// the defaults makes the build fail, whatever else is set.
pub proof fn lemma_build_rejects_wrong_length(
    b: VideoInfoBuilderView,
    offset: Seq<usize>,
    stride: Seq<i32>,
    defaults: VideoInfoView,
)
    ensures
        offset.len() != defaults.n_planes() ==> build_result(b.with_offset(offset), Some(defaults))
            is None,
        stride.len() != defaults.n_planes() ==> build_result(b.with_stride(stride), Some(defaults))
            is None,
{
}

/// A video rebuilt from the native structure that holds it is equal to it.
pub proof fn lemma_native_round_trip(info: VideoInfoView, n: &VideoInfoNative)
    requires
        info.wf(),
        native_describes(n, info),
    ensures
        native_is_valid(n),
        native_view(n) == info,
{
    assert(n.offset@.subrange(0, n.n_planes as int) =~= info.offset);
    assert(n.stride@.subrange(0, n.n_planes as int) =~= info.stride);
}

} // verus!
