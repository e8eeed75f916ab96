use vstd::prelude::*;

use crate::base::BindingPoint;
use crate::buffer::{BufferKind, BufferUsageHint};
use crate::framebuffer::{Attachment, Blend, BlendFunction, Capability, DepthTestFunction, Rect};
use crate::program::UniformValue;
use crate::vertex::{AttribType, DrawMode, IndexType};
use crate::texture::{TexParam, TexTarget, TextureFormat};

verus! {

/// One driver call, decided by the library and run by the code that owns the driver context.
///
/// Object identifiers are raw driver handles; `0` stands for "no object".
#[derive(Debug)]
pub enum GlCall {
    /// Make `id` current at `point` (`0` clears the binding point).
    Bind { point: BindingPoint, id: u32 },
    /// Compile `source` into the shader object `id`.
    CompileShader { id: u32, source: String },
    DeleteShader { id: u32 },
    AttachShader { program: u32, shader: u32 },
    LinkProgram { program: u32 },
    DeleteProgram { id: u32 },
    /// Write `value` into uniform `location` of the current program.
    SetUniform { location: u32, value: UniformValue },
    /// Bind `size` bytes from `offset` of uniform buffer `buffer` to block binding `binding`.
    BindBufferRange { binding: u32, buffer: u32, offset: usize, size: usize },
    /// Connect uniform block `block_index` of `program` to block binding `binding`.
    UniformBlockBinding { program: u32, block_index: u32, binding: u32 },
    /// Replace the whole store of the buffer current at `kind`.
    BufferData { kind: BufferKind, bytes: Vec<u8>, usage: BufferUsageHint },
    /// Map `size` bytes from `offset` of the buffer current at `kind` for reading.
    MapRead { kind: BufferKind, offset: usize, size: usize },
    /// Write `bytes` at `offset` into the buffer current at `kind`, through a mapping.
    WriteRange { kind: BufferKind, offset: usize, bytes: Vec<u8> },
    Unmap { kind: BufferKind },
    DeleteBuffer { id: u32 },
    /// Allocate level 0 of the texture current at `target`, filled with `bytes` when given.
    TexImage2D { target: TexTarget, format: TextureFormat, width: u32, height: u32, data: Option<Vec<u8>> },
    /// Allocate the multisampled store of the texture current at `target`.
    TexImage2DMultisample { target: TexTarget, samples: u32, format: TextureFormat, width: u32, height: u32 },
    /// Replace a rectangle of mipmap `level` of the texture current at `target`.
    TexSubImage2D {
        target: TexTarget,
        level: usize,
        x_offset: i32,
        y_offset: i32,
        sub_width: i32,
        sub_height: i32,
        format: TextureFormat,
        bytes: Vec<u8>,
    },
    GenerateMipmap { target: TexTarget },
    TexParameter { target: TexTarget, param: TexParam },
    /// Read mipmap `level` of the texture current at `target`.
    GetTexImage { target: TexTarget, level: usize, format: TextureFormat },
    /// Read one pixel of the current read framebuffer.
    ReadPixels { x: u32, y: u32, format: TextureFormat },
    /// Select texture unit `unit` for the following texture bindings.
    ActiveTexture { unit: u32 },
    DeleteTexture { id: u32 },
    /// Attach level 0 of `texture` to `attachment` of the current framebuffer.
    FramebufferTexture { attachment: Attachment, texture: u32 },
    /// Attach level 0 of `texture`, bound at `target`, through the attach call of that
    /// target's dimensionality.
    FramebufferTextureTarget { attachment: Attachment, target: TexTarget, texture: u32 },
    /// Select the color attachments drawn into.
    DrawBuffers { slots: Vec<u32> },
    Clear { color: bool, depth: bool, stencil: bool },
    DeleteFramebuffer { id: u32 },
    SetCapability { capability: Capability, enabled: bool },
    DepthFunc { depth_test: DepthTestFunction },
    BlendFunc { src_factor: Blend, dst_factor: Blend },
    BlendEquation { equation: BlendFunction },
    Viewport { rect: Rect },
    Scissor { rect: Rect },
    DrawArrays { mode: DrawMode, first: i32, count: i32 },
    /// Draw `count` indices of `index_type`, from byte `offset` of the element buffer.
    DrawElements { mode: DrawMode, count: i32, index_type: IndexType, byte_offset: u64 },
    /// Describe attribute `index` of the current vertex array.
    VertexAttribPointer {
        index: u32,
        components: usize,
        attrib_type: AttribType,
        normalized: bool,
        stride: usize,
        offset: usize,
    },
    EnableVertexAttribArray { index: u32 },
    DisableVertexAttribArray { index: u32 },
    DeleteVertexArray { id: u32 },
}

} // verus!
