//! The vocabulary of the command stream.
//!
//! Every operation of the renderer ends up as a [`Command`]: one request to
//! the graphics backend, written down instead of carried out. Whoever owns the
//! graphics context plays the stream back in order. Handles in a command are
//! the ones the [`crate::device::Device`] gave out; `0` names "no object".

use vstd::prelude::*;
use crate::math::{MatrixValue, Scalar, Vector2, Vector3};

verus! {

/// The kinds of backend objects a handle can stand for.
#[derive(Clone, Copy, Debug, PartialEq, Eq)]
pub enum ObjectKind {
    Buffer,
    VertexArray,
    Texture,
    Framebuffer,
    Renderbuffer,
    VertexShader,
    FragmentShader,
    GeometryShader,
    Program,
}

/// The programmable stages a shader can be written for.
#[derive(Clone, Copy, Debug, PartialEq, Eq)]
pub enum ShaderStage {
    Vertex,
    Fragment,
    Geometry,
}

impl ShaderStage {
    /// The kind of object that a shader of this stage is.
    pub open spec fn spec_kind(self) -> ObjectKind {
        match self {
            ShaderStage::Vertex => ObjectKind::VertexShader,
            ShaderStage::Fragment => ObjectKind::FragmentShader,
            ShaderStage::Geometry => ObjectKind::GeometryShader,
        }
    }

    #[verifier::when_used_as_spec(spec_kind)]
    pub fn kind(self) -> (kind: ObjectKind)
        ensures
            kind == self.kind(),
    {
        match self {
            ShaderStage::Vertex => ObjectKind::VertexShader,
            ShaderStage::Fragment => ObjectKind::FragmentShader,
            ShaderStage::Geometry => ObjectKind::GeometryShader,
        }
    }
}

#[derive(Clone, Copy, Debug, PartialEq, Eq)]
pub enum BufferTarget {
    /// Vertex attribute data.
    Array,
    /// Triangle indices.
    ElementArray,
}

/// How often a buffer's contents are expected to change.
#[derive(Clone, Copy, Debug, PartialEq, Eq)]
pub enum BufferUsage {
    StaticDraw,
    DynamicDraw,
}

/// One of the texture units whose bindings the renderer uses.
#[derive(Clone, Copy, Debug, PartialEq, Eq)]
pub enum TextureUnit {
    Unit0,
    Unit1,
    Unit2,
    Unit3,
}

#[derive(Clone, Copy, Debug, PartialEq, Eq)]
pub enum TextureTarget {
    Texture2D,
    CubeMap,
}

/// Where an image specification lands: the bound 2-D texture, or face
/// `0..6` of the bound cube map, counted from positive x.
#[derive(Clone, Copy, Debug, PartialEq, Eq)]
pub enum ImageTarget {
    Texture2D,
    CubeFace { face: u32 },
}

#[derive(Clone, Copy, Debug, PartialEq, Eq)]
pub enum TextureParameter {
    WrapS,
    WrapT,
    WrapR,
    MinFilter,
    MagFilter,
}

#[derive(Clone, Copy, Debug, PartialEq, Eq)]
pub enum TextureSetting {
    Repeat,
    ClampToEdge,
    Linear,
    Nearest,
}

/// Storage format of a texture image.
#[derive(Clone, Copy, Debug, PartialEq, Eq)]
pub enum InternalFormat {
    /// Four 8-bit channels.
    Rgba,
    /// Four 16-bit real channels.
    Rgba16,
    DepthComponent,
}

/// Channel layout of the pixel data handed over with an image.
#[derive(Clone, Copy, Debug, PartialEq, Eq)]
pub enum PixelFormat {
    Rgba,
    DepthComponent,
}

/// Component type of the pixel data handed over with an image.
#[derive(Clone, Copy, Debug, PartialEq, Eq)]
pub enum PixelType {
    UnsignedByte,
    Real,
}

/// The attachment points of a framebuffer that the renderer uses.
#[derive(Clone, Copy, Debug, PartialEq, Eq)]
pub enum Attachment {
    Color0,
    Color1,
    Color2,
    Depth,
    DepthStencil,
}

#[derive(Clone, Copy, Debug, PartialEq, Eq)]
pub enum Capability {
    DepthTest,
    CullFace,
    Blend,
}

#[derive(Clone, Copy, Debug, PartialEq, Eq)]
pub enum Face {
    Front,
    Back,
}

#[derive(Clone, Copy, Debug, PartialEq, Eq)]
pub enum BlendFactor {
    Zero,
    One,
}

/// One request to the backend, without its bulk data.
///
/// Uniform operations name the program in which the location of the uniform
/// is looked up; the value itself goes to whichever program is in use when the
/// command is carried out, and a name the program does not have is skipped in
/// silence.
#[allow(inconsistent_fields)]
#[derive(Clone, Copy, Debug, PartialEq, Eq)]
pub enum Op {
    /// Bring a fresh object of `kind` into being under handle `id`.
    Create { kind: ObjectKind, id: u32 },
    /// Release the object of `kind` behind handle `id`.
    Delete { kind: ObjectKind, id: u32 },
    BindBuffer { target: BufferTarget, id: u32 },
    /// Replace the store of the buffer bound to `target` with the words of
    /// the payload.
    BufferData { target: BufferTarget, usage: BufferUsage },
    BindVertexArray { id: u32 },
    /// Describe attribute `index` as `size` reals, `stride` bytes apart,
    /// starting `offset` bytes into each record, not normalized.
    VertexAttribPointer { index: u32, size: u32, stride: usize, offset: usize },
    EnableVertexAttribArray { index: u32 },
    ActiveTexture { unit: TextureUnit },
    BindTexture { target: TextureTarget, id: u32 },
    TexParameter { target: TextureTarget, parameter: TextureParameter, value: TextureSetting },
    /// Respecify level 0 of the image at `target`. Pixel data, if any, is the
    /// byte payload; without a payload the contents are left undefined.
    TexImage2D {
        target: ImageTarget,
        internal_format: InternalFormat,
        width: u32,
        height: u32,
        format: PixelFormat,
        data_type: PixelType,
    },
    GenerateMipmap { target: TextureTarget },
    BindFramebuffer { id: u32 },
    /// Attach level 0 of a 2-D texture to the bound framebuffer.
    FramebufferTexture2D { attachment: Attachment, texture: u32 },
    /// Attach level 0 of a layered texture to the bound framebuffer.
    FramebufferTexture { attachment: Attachment, texture: u32 },
    /// Attach a renderbuffer to the bound framebuffer.
    FramebufferRenderbuffer { attachment: Attachment, renderbuffer: u32 },
    /// Write fragment colours to none of the colour attachments.
    DrawBufferNone,
    /// Read colours from none of the colour attachments.
    ReadBufferNone,
    /// Write fragment outputs `0..count` to colour attachments `0..count`.
    DrawBuffers { count: u32 },
    /// Ask the backend whether the bound framebuffer is complete. The answer
    /// is judged by [`crate::buffers::framebuffer_status`].
    CheckFramebufferStatus,
    BindRenderbuffer { id: u32 },
    /// Give the bound renderbuffer a combined 24-bit depth, 8-bit stencil
    /// store of the given size.
    RenderbufferStorage { width: u32, height: u32 },
    /// Set the source text of a shader to the text payload.
    ShaderSource { shader: u32 },
    CompileShader { shader: u32 },
    /// Ask the backend for the compile status and log of a shader. The answer
    /// is judged by [`crate::shaders::compile_outcome`].
    CheckCompileStatus { shader: u32 },
    AttachShader { program: u32, shader: u32 },
    LinkProgram { program: u32 },
    /// Ask the backend for the link status and log of a program. The answer is
    /// judged by [`crate::shaders::link_outcome`].
    CheckLinkStatus { program: u32 },
    DetachShader { program: u32, shader: u32 },
    UseProgram { id: u32 },
    /// Set the integer or sampler uniform named by the text payload.
    Uniform1i { program: u32, value: i32 },
    /// Set the real uniform named by the text payload.
    Uniform1f { program: u32, value: Scalar },
    Uniform2f { program: u32, value: Vector2 },
    Uniform3f { program: u32, value: Vector3 },
    UniformMatrix4 { program: u32, value: MatrixValue },
    /// Set the viewport to the rectangle of the given size at the origin.
    Viewport { width: u32, height: u32 },
    ClearColor { red: Scalar, green: Scalar, blue: Scalar, alpha: Scalar },
    Clear { color: bool, depth: bool },
    Enable { capability: Capability },
    Disable { capability: Capability },
    BlendFunc { source: BlendFactor, destination: BlendFactor },
    CullFace { face: Face },
    /// Draw `count` indices of the bound index buffer as a triangle list,
    /// starting at its first index.
    DrawElements { count: usize },
}

/// The bulk data that goes with an operation.
#[derive(Clone, Debug, PartialEq, Eq)]
pub enum Payload {
    Nothing,
    /// 4-byte words: vertex records or indices.
    Words(Vec<u32>),
    /// Raw bytes: pixel data.
    Bytes(Vec<u8>),
    /// A uniform's name or a shader's source.
    Text(String),
}

/// What a [`Payload`] holds, as mathematical sequences.
pub enum PayloadView {
    Nothing,
    Words(Seq<u32>),
    Bytes(Seq<u8>),
    Text(Seq<char>),
}

impl PayloadView {
    /// Number of 4-byte words in the payload; `0` if it holds no words.
    pub open spec fn words(self) -> nat {
        match self {
            PayloadView::Words(w) => w.len(),
            _ => 0,
        }
    }
}

impl Payload {
    /// Number of 4-byte words in the payload; `0` if it holds no words.
    pub fn words(&self) -> (n: usize)
        ensures
            n == self@.words(),
    {
        match self {
            Payload::Words(w) => w.len(),
            _ => 0,
        }
    }
}

impl View for Payload {
    type V = PayloadView;

    open spec fn view(&self) -> PayloadView {
        match self {
            Payload::Nothing => PayloadView::Nothing,
            Payload::Words(w) => PayloadView::Words(w@),
            Payload::Bytes(b) => PayloadView::Bytes(b@),
            Payload::Text(t) => PayloadView::Text(t@),
        }
    }
}

/// One entry of the command stream.
#[derive(Clone, Debug, PartialEq, Eq)]
pub struct Command {
    pub op: Op,
    pub payload: Payload,
}

/// A [`Command`] as a mathematical value.
pub struct CommandView {
    pub op: Op,
    pub payload: PayloadView,
}

impl View for Command {
    type V = CommandView;

    open spec fn view(&self) -> CommandView {
        CommandView { op: self.op, payload: self.payload@ }
    }
}

/// The command `op` without bulk data.
pub open spec fn plain(op: Op) -> CommandView {
    CommandView { op, payload: PayloadView::Nothing }
}

/// The command `op` that carries `words`.
pub open spec fn with_words(op: Op, words: Seq<u32>) -> CommandView {
    CommandView { op, payload: PayloadView::Words(words) }
}

/// The command `op` that carries `bytes`.
pub open spec fn with_bytes(op: Op, bytes: Seq<u8>) -> CommandView {
    CommandView { op, payload: PayloadView::Bytes(bytes) }
}

/// The command `op` that carries `text`.
pub open spec fn with_text(op: Op, text: Seq<char>) -> CommandView {
    CommandView { op, payload: PayloadView::Text(text) }
}

/// The views of the commands of `queue`, in order.
pub open spec fn views(queue: Seq<Command>) -> Seq<CommandView> {
    Seq::new(queue.len(), |i: int| queue[i]@)
}

} // verus!
