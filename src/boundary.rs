use vstd::prelude::*;

verus! {

/// A buffer too long for the native integer field that declares its length.
#[derive(Clone, Copy, Debug, PartialEq, Eq, Hash, Structural)]
pub struct ConversionBoundsError {
    /// Length of the buffer.
    pub len: usize,
    /// Largest length that the native field holds.
    pub max: usize,
}

/// The native length of a buffer of `len` bytes in a field that holds up to
/// `max`: the length itself, or the error; never a truncated length.
pub open spec fn declared_len(len: nat, max: nat) -> Result<nat, ConversionBoundsError> {
    if len <= max {
        Ok(len)
    } else {
        Err(ConversionBoundsError { len: len as usize, max: max as usize })
    }
}

/// Length of `data` for a native 8-bit length field (a security parameter
/// value, random bytes, a key's SPI).
pub fn declared_len_u8(data: &[u8]) -> (r: Result<u8, ConversionBoundsError>)
    ensures
        match declared_len(data@.len(), u8::MAX as nat) {
            Ok(n) => r == Ok::<u8, ConversionBoundsError>(n as u8),
            Err(e) => r == Err::<u8, ConversionBoundsError>(e),
        },
{
    let len = data.len();
    if len <= u8::MAX as usize {
        Ok(len as u8)
    } else {
        Err(ConversionBoundsError { len, max: u8::MAX as usize })
    }
}

/// Length of `data` for a native 16-bit length field (key data, salt,
/// public-key envelope data).
pub fn declared_len_u16(data: &[u8]) -> (r: Result<u16, ConversionBoundsError>)
    ensures
        match declared_len(data@.len(), u16::MAX as nat) {
            Ok(n) => r == Ok::<u16, ConversionBoundsError>(n as u16),
            Err(e) => r == Err::<u16, ConversionBoundsError>(e),
        },
{
    let len = data.len();
    if len <= u16::MAX as usize {
        Ok(len as u16)
    } else {
        Err(ConversionBoundsError { len, max: u16::MAX as usize })
    }
}

/// A native operation that reported failure, with the reason.
#[derive(Clone, Debug)]
pub struct BoolError {
    pub message: String,
}

/// The result of a native operation that reports success as a boolean:
/// `Ok` on success, else the error carrying `message`.
pub fn bool_result(ok: bool, message: &str) -> (r: Result<(), BoolError>)
    ensures
        r is Ok <==> ok,
        r is Err ==> r->Err_0.message@ == message@,
{
    if ok {
        Ok(())
    } else {
        Err(BoolError { message: message.to_owned() })
    }
}

/// Reason given when the native layer refuses a render rectangle.
pub const RENDER_RECTANGLE_FAILURE: &'static str = "Failed to set render rectangle";

/// The result of setting an overlay's render rectangle, from the native
/// layer's answer.
pub fn render_rectangle_result(ok: bool) -> (r: Result<(), BoolError>)
    ensures
        r is Ok <==> ok,
        r is Err ==> r->Err_0.message@ == RENDER_RECTANGLE_FAILURE@,
{
    bool_result(ok, RENDER_RECTANGLE_FAILURE)
}

} // verus!
