//! The closed set of command values the core addresses to the rendering
//! backend.
//!
//! Mutation commands are fire-and-forget; the variants under "queries" pair
//! with a reply the host environment obtains from the backend and hands back
//! to the caller. Floating-point payloads are carried as IEEE-754 bit
//! patterns in `u32`.

use vstd::prelude::*;

verus! {

/// How a framebuffer bind addresses its target: the context's default
/// framebuffer or an explicitly created object.
#[derive(Clone, Copy, Debug, PartialEq, Eq)]
pub enum FramebufferBinding {
    Default,
    Explicit(u32),
}

/// Alpha-channel conversion requested for a pixel upload.
#[derive(Clone, Copy, Debug, PartialEq, Eq)]
pub enum AlphaTreatment {
    Premultiply,
    Unmultiply,
}

/// Row-order conversion requested for a pixel upload.
#[derive(Clone, Copy, Debug, PartialEq, Eq)]
pub enum YAxisTreatment {
    AsIs,
    Flipped,
}

/// Channel layout of a decoded pixel source.
#[derive(Clone, Copy, Debug, PartialEq, Eq)]
pub enum SourcePixelFormat {
    Rgba8,
    Bgra8,
}

/// One backend-bound operation, validated and immutable.
#[derive(Clone, Debug, PartialEq)]
pub enum WebGLCommand {
    // Object lifecycle.
    CreateBuffer(u32),
    CreateFramebuffer(u32),
    CreateRenderbuffer(u32),
    CreateTexture(u32),
    CreateProgram(u32),
    CreateShader(u32, u32),
    CreateVertexArray(u32),
    DeleteBuffer(u32),
    DeleteFramebuffer(u32),
    DeleteRenderbuffer(u32),
    DeleteTexture(u32),
    DeleteProgram(u32),
    DeleteShader(u32),
    DeleteVertexArray(u32),
    // Binding.
    ActiveTexture(u32),
    BindBuffer(u32, Option<u32>),
    BindFramebuffer(u32, FramebufferBinding),
    BindRenderbuffer(u32, Option<u32>),
    BindTexture(u32, Option<u32>),
    BindVertexArray(Option<u32>),
    UseProgram(Option<u32>),
    // Context-wide state.
    BlendColor(u32, u32, u32, u32),
    BlendEquation(u32),
    BlendEquationSeparate(u32, u32),
    BlendFunc(u32, u32),
    BlendFuncSeparate(u32, u32, u32, u32),
    ClearColor(u32, u32, u32, u32),
    ClearDepth(u32),
    ClearStencil(i32),
    ColorMask(bool, bool, bool, bool),
    CullFace(u32),
    FrontFace(u32),
    DepthFunc(u32),
    DepthMask(bool),
    DepthRange(u32, u32),
    Enable(u32),
    Disable(u32),
    Hint(u32, u32),
    LineWidth(u32),
    PolygonOffset(u32, u32),
    SampleCoverage(u32, bool),
    Scissor(i32, i32, u32, u32),
    SetViewport(i32, i32, i32, i32),
    StencilFunc(u32, i32, u32),
    StencilFuncSeparate(u32, u32, i32, u32),
    StencilMask(u32),
    StencilMaskSeparate(u32, u32),
    StencilOp(u32, u32, u32),
    StencilOpSeparate(u32, u32, u32, u32),
    Clear(u32),
    InitializeFramebuffer { color: bool, depth: bool, stencil: bool },
    Flush,
    // Draws.
    DrawArrays { mode: u32, first: i32, count: i32 },
    DrawArraysInstanced { mode: u32, first: i32, count: i32, primcount: i32 },
    DrawElements { mode: u32, count: i32, type_: u32, offset: u32 },
    DrawElementsInstanced { mode: u32, count: i32, type_: u32, offset: u32, primcount: i32 },
    // Vertex attributes.
    VertexAttrib(u32, u32, u32, u32, u32),
    VertexAttribDivisor { index: u32, divisor: u32 },
    EnableVertexAttribArray(u32),
    DisableVertexAttribArray(u32),
    VertexAttribPointer(u32, u32, u32, bool, u32, u32),
    // Buffer contents.
    BufferData(u32, Vec<u8>, u32),
    BufferSubData(u32, usize, Vec<u8>),
    // Texture contents and parameters.
    TexImage2D {
        target: u32,
        level: u32,
        effective_internal_format: u32,
        width: u32,
        height: u32,
        format: u32,
        data_type: u32,
        effective_data_type: u32,
        unpacking_alignment: u32,
        alpha_treatment: Option<AlphaTreatment>,
        y_axis_treatment: YAxisTreatment,
        pixel_format: Option<SourcePixelFormat>,
        data: Vec<u8>,
    },
    TexSubImage2D {
        target: u32,
        level: u32,
        xoffset: i32,
        yoffset: i32,
        width: u32,
        height: u32,
        format: u32,
        data_type: u32,
        effective_data_type: u32,
        unpacking_alignment: u32,
        alpha_treatment: Option<AlphaTreatment>,
        y_axis_treatment: YAxisTreatment,
        pixel_format: Option<SourcePixelFormat>,
        data: Vec<u8>,
    },
    CopyTexImage2D(u32, u32, u32, i32, i32, u32, u32),
    CopyTexSubImage2D(u32, u32, i32, i32, i32, i32, u32, u32),
    TexParameteri(u32, u32, i32),
    TexParameterf(u32, u32, u32),
    GenerateMipmap(u32),
    // Framebuffer and renderbuffer structure.
    RenderbufferStorage(u32, u32, i32, i32),
    FramebufferRenderbuffer(u32, u32, u32, Option<u32>),
    FramebufferTexture2D(u32, u32, u32, Option<u32>, i32),
    // Shaders and programs.
    CompileShader(u32),
    AttachShader(u32, u32),
    DetachShader(u32, u32),
    BindAttribLocation(u32, u32, String),
    LinkProgram(u32),
    ValidateProgram(u32),
    // Uniform uploads.
    Uniform1f(i32, u32),
    Uniform1fv(i32, Vec<u32>),
    Uniform1i(i32, i32),
    Uniform1iv(i32, Vec<i32>),
    Uniform2f(i32, u32, u32),
    Uniform2fv(i32, Vec<u32>),
    Uniform2i(i32, i32, i32),
    Uniform2iv(i32, Vec<i32>),
    Uniform3f(i32, u32, u32, u32),
    Uniform3fv(i32, Vec<u32>),
    Uniform3i(i32, i32, i32, i32),
    Uniform3iv(i32, Vec<i32>),
    Uniform4f(i32, u32, u32, u32, u32),
    Uniform4fv(i32, Vec<u32>),
    Uniform4i(i32, i32, i32, i32, i32),
    Uniform4iv(i32, Vec<i32>),
    UniformMatrix2fv(i32, Vec<u32>),
    UniformMatrix3fv(i32, Vec<u32>),
    UniformMatrix4fv(i32, Vec<u32>),
    // Queries: the host obtains a typed reply from the backend.
    Finish,
    DrawingBufferWidth,
    DrawingBufferHeight,
    GetContextAttributes,
    GetExtensions,
    GetParameter(u32),
    GetTexParameter(u32, u32),
    GetProgramValidateStatus(u32),
    GetShaderPrecisionFormat(u32, u32),
    GetFramebufferAttachmentParameter(u32, u32, u32),
    GetRenderbufferParameter(u32, u32),
    GetCurrentVertexAttrib(u32),
    GetUniform(u32, i32, u32),
    ReadPixels { x: u32, y: u32, width: u32, height: u32, format: u32, pixel_type: u32 },
    // Surface management.
    Resize(u32, u32),
}

} // verus!
