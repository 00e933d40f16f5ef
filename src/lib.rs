//! Verified value layer for video descriptions and native-boundary
//! conversions: colour ranges and colorimetry as native codes, a staged
//! builder for video descriptions that validates per-plane arrays against the
//! format's plane count, checked buffer-length conversions, and the custody
//! rules for native handles (which call copies or releases a value).
use vstd::prelude::*;

pub mod boundary;
pub mod color;
pub mod handle;
pub mod video_info;

pub use boundary::{
    bool_result, declared_len_u16, declared_len_u8, render_rectangle_result, BoolError,
    ConversionBoundsError,
};
pub use color::{VideoColorRange, VideoColorimetry};
pub use handle::{
    Custody, Handle, HandleDescriptor, HandleKind, InitializationError, NativeCall, NullHandle,
};
pub use video_info::{Fraction, VideoInfo, VideoInfoBuilder, VideoInfoNative};

verus! {

} // verus!
