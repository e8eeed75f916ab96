use vstd::prelude::*;

use crate::framebuffer::FramebufferStatus;
use crate::shader::ShaderStage;
use crate::texture::Dimension;

verus! {

/// Error kinds that the driver's global error flag reports.
#[derive(Debug, Clone, Copy, PartialEq, Eq, Structural)]
pub enum GlError {
    InvalidEnum,
    InvalidValue,
    InvalidOperation,
    StackOverflow,
    StackUnderflow,
    OutOfMemory,
    InvalidFramebufferOperation,
    ContextLost,
    /// A code the driver reported that is none of the above.
    Unknown(u32),
}

impl GlError {
    /// Whether the error leaves the context unusable for every later call.
    pub open spec fn spec_is_fatal(self) -> bool {
        self == GlError::ContextLost
    }

    pub fn is_fatal(&self) -> (r: bool)
        ensures
            r == self.spec_is_fatal(),
    {
        match self {
            GlError::ContextLost => true,
            _ => false,
        }
    }
}

/// Everything that can go wrong in this library.
#[derive(Debug, Clone)]
pub enum Error {
    /// The driver's error flag was set after a call.
    Driver(GlError),
    /// A shader did not compile; `log` is the compiler's diagnostic text.
    Compile { stage: ShaderStage, log: String },
    /// A program did not link; `log` is the linker's diagnostic text.
    Link { log: String },
    /// A program did not pass validation; `log` is the driver's diagnostic text.
    Validate { log: String },
    /// The driver handed out the reserved identifier `0` for a new object.
    NullHandle,
    /// Buffers of zero-sized elements have no indexing.
    ZeroSizedElement,
    /// A byte count is not a whole number of elements.
    PartialElement { len: usize, element_size: usize },
    /// A texture extent or sample count of zero.
    ZeroExtent,
    /// Empty data where some is required.
    EmptyData,
    /// Data length does not match the extents it is meant to fill.
    DataLength { expected: usize, actual: usize },
    /// Pixel data that is not a whole number of rows of `row_len` bytes.
    NotRectangular { row_len: usize, len: usize },
    /// A range or rectangle that does not lie within the object.
    OutOfBounds,
    /// A mipmap level the texture does not have.
    MipmapLevel { level: usize, levels: usize },
    /// A texture whose dimensionality the operation does not take.
    UnsupportedDimension(Dimension),
    /// A texture whose format the operation does not take.
    UnsupportedFormat,
    /// A framebuffer whose status is not complete.
    Incomplete(FramebufferStatus),
    /// An indexed draw on a vertex array without an element buffer.
    MissingElementBuffer,
    /// A uniform location used with a program it does not belong to.
    ForeignLocation { location_program: u32, program: u32 },
    /// A named item the program does not have.
    NotFound,
    /// A uniform value whose shape the driver has no setter for.
    UnsupportedUniform,
    /// A buffer of a kind the operation does not take.
    WrongBufferKind,
    /// A texture unit beyond the driver's maximum.
    TextureUnit { unit: u32, max: u32 },
}

/// An owned copy of `data`.
pub fn copy_bytes(data: &[u8]) -> (r: Vec<u8>)
    ensures
        r@ == data@,
{
    let mut out: Vec<u8> = Vec::with_capacity(data.len());
    let mut i: usize = 0;
    while i < data.len()
        invariant
            i <= data.len(),
            out@ == data@.take(i as int),
        decreases data.len() - i,
    {
        out.push(data[i]);
        i = i + 1;
        assert(out@ =~= data@.take(i as int));
    }
    assert(data@.take(data@.len() as int) =~= data@);
    out
}

/// The outcome of a driver call whose value is `ret`, given the error flag polled right after it.
pub open spec fn spec_error_guard<T>(ret: T, polled: Option<GlError>) -> Result<T, Error> {
    match polled {
        None => Ok(ret),
        Some(e) => Err(Error::Driver(e)),
    }
}

/// Turns the driver's error flag, polled right after a call, into the call's outcome.
pub fn gl_error_guard<T>(ret: T, polled: Option<GlError>) -> (r: Result<T, Error>)
    ensures
        r == spec_error_guard(ret, polled),
{
    match polled {
        None => Ok(ret),
        Some(e) => Err(Error::Driver(e)),
    }
}

} // verus!
