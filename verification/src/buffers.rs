//! Owners of backend objects: one wrapper type per kind of object, each
//! holding exactly one handle.
//!
//! A wrapper is created through the device, cannot be copied, and is given up
//! with `release`, which unbinds and deletes. Every other operation records
//! the backend request it stands for.

use vstd::prelude::*;
use crate::command::{
    plain, with_bytes, with_words, Attachment, BufferTarget, BufferUsage, CommandView, ImageTarget,
    InternalFormat, ObjectKind, Op, Payload, PixelFormat, PixelType, TextureParameter,
    TextureSetting, TextureTarget,
};
use crate::device::{appends, appends_one, lemma_appends, Device};
use crate::math::{Vector2, Vector3};
use crate::state::{object_at, released, replaced, Bindings, Object};

verus! {

/// Bytes in one word of vertex or index data.
pub const WORD_BYTES: usize = 4;

/// Words in one vertex record.
pub const VERTEX_WORDS: usize = 11;

/// Bytes from one vertex record to the next.
pub const VERTEX_STRIDE: usize = 44;

/// One vertex: position, tint, normal and texture coordinate.
pub type Vertex = (Vector3, Vector3, Vector3, Vector2);

/// The eleven words of one vertex record, in the order the attribute layout
/// expects: position, tint, normal, texture coordinate.
pub open spec fn vertex_words(v: Vertex) -> Seq<u32> {
    seq![
        v.0.x.bits,
        v.0.y.bits,
        v.0.z.bits,
        v.1.x.bits,
        v.1.y.bits,
        v.1.z.bits,
        v.2.x.bits,
        v.2.y.bits,
        v.2.z.bits,
        v.3.x.bits,
        v.3.y.bits,
    ]
}

/// The records of `vertices`, one after the other.
pub open spec fn interleaved(vertices: Seq<Vertex>) -> Seq<u32>
    decreases vertices.len(),
{
    if vertices.len() == 0 {
        Seq::empty()
    } else {
        interleaved(vertices.drop_last()) + vertex_words(vertices.last())
    }
}

/// Interleaving yields eleven words per vertex, and word `k` of vertex `i`
/// sits at position `11 * i + k`.
pub proof fn lemma_interleaved_layout(vertices: Seq<Vertex>)
    ensures
        interleaved(vertices).len() == VERTEX_WORDS * vertices.len(),
        forall|i: int, k: int|
            0 <= i < vertices.len() && 0 <= k < VERTEX_WORDS ==> interleaved(vertices)[VERTEX_WORDS
                * i + k] == #[trigger] vertex_words(vertices[i])[k],
    decreases vertices.len(),
{
    if vertices.len() > 0 {
        let front = vertices.drop_last();
        lemma_interleaved_layout(front);
        assert forall|i: int, k: int|
            0 <= i < vertices.len() && 0 <= k < VERTEX_WORDS implies interleaved(
            vertices,
        )[VERTEX_WORDS * i + k] == #[trigger] vertex_words(vertices[i])[k] by {
            if i < front.len() {
                assert(front[i] == vertices[i]);
            }
        }
    }
}

/// The words of `vertices` as they are uploaded.
pub fn interleave(vertices: &Vec<Vertex>) -> (words: Vec<u32>)
    ensures
        words@ == interleaved(vertices@),
{
    let mut words: Vec<u32> = Vec::new();
    let mut i: usize = 0;
    while i < vertices.len()
        invariant
            i <= vertices.len(),
            words@ == interleaved(vertices@.take(i as int)),
        decreases vertices.len() - i,
    {
        let v: Vertex = vertices[i];
        let ghost before = words@;
        words.push(v.0.x.bits);
        words.push(v.0.y.bits);
        words.push(v.0.z.bits);
        words.push(v.1.x.bits);
        words.push(v.1.y.bits);
        words.push(v.1.z.bits);
        words.push(v.2.x.bits);
        words.push(v.2.y.bits);
        words.push(v.2.z.bits);
        words.push(v.3.x.bits);
        words.push(v.3.y.bits);
        proof {
            let next = vertices@.take(i + 1);
            assert(next.drop_last() =~= vertices@.take(i as int));
            assert(next.last() == v);
            assert(words@ =~= before + vertex_words(v));
        }
        i += 1;
    }
    assert(vertices@.take(i as int) =~= vertices@);
    words
}

/// A copy of `data`.
pub fn copied<T: Copy>(data: &Vec<T>) -> (copy: Vec<T>)
    ensures
        copy@ == data@,
{
    let mut copy: Vec<T> = Vec::new();
    let mut i: usize = 0;
    while i < data.len()
        invariant
            i <= data.len(),
            copy@ == data@.take(i as int),
        decreases data.len() - i,
    {
        copy.push(data[i]);
        assert(copy@ =~= data@.take(i + 1));
        i += 1;
    }
    assert(data@.take(i as int) =~= data@);
    copy
}

/// Owner of one buffer that holds vertex records.
#[derive(Debug)]
pub struct VertexBuffer {
    id: u32,
}

impl VertexBuffer {
    /// The handle this wrapper owns.
    pub closed spec fn spec_id(&self) -> u32 {
        self.id
    }

    /// The handle this wrapper owns.
    #[verifier::when_used_as_spec(spec_id)]
    pub fn id(&self) -> (id: u32)
        ensures
            id == self.id(),
    {
        self.id
    }

    /// The commands of [`VertexBuffer::release`].
    pub open spec fn release_commands(id: u32) -> Seq<CommandView> {
        seq![plain(Op::BindBuffer { target: BufferTarget::Array, id: 0 })].push(
            plain(Op::Delete { kind: ObjectKind::Buffer, id }),
        )
    }

    /// The commands of [`VertexBuffer::set`].
    pub open spec fn set_commands(id: u32, data: Seq<Vertex>) -> Seq<CommandView> {
        seq![plain(Op::BindBuffer { target: BufferTarget::Array, id })].push(
            with_words(
                Op::BufferData { target: BufferTarget::Array, usage: BufferUsage::DynamicDraw },
                interleaved(data),
            ),
        )
    }

    /// Creates the object and takes ownership of it.
    pub fn new(dev: &mut Device) -> (created: VertexBuffer)
        requires
            old(dev)@.room(1),
        ensures
            created.id() == old(dev)@.next_handle(),
            created.id() >= 1,
            final(dev)@.state.objects == old(dev)@.state.objects.push(
                Object::fresh(ObjectKind::Buffer),
            ),
            final(dev)@.state.bind == old(dev)@.state.bind,
            appends_one(
                old(dev)@,
                final(dev)@,
                plain(Op::Create { kind: ObjectKind::Buffer, id: created.id() }),
            ),
    {
        let id: u32 = dev.create(ObjectKind::Buffer);
        VertexBuffer { id }
    }

    /// Makes the object current on its binding point.
    pub fn bind(&self, dev: &mut Device)
        ensures
            appends_one(
                old(dev)@,
                final(dev)@,
                plain(Op::BindBuffer { target: BufferTarget::Array, id: self.id() }),
            ),
    {
        dev.submit(Op::BindBuffer { target: BufferTarget::Array, id: self.id }, Payload::Nothing);
    }

    /// Leaves its binding point without an object.
    pub fn unbind(&self, dev: &mut Device)
        ensures
            appends_one(
                old(dev)@,
                final(dev)@,
                plain(Op::BindBuffer { target: BufferTarget::Array, id: 0 }),
            ),
    {
        dev.submit(Op::BindBuffer { target: BufferTarget::Array, id: 0 }, Payload::Nothing);
    }

    /// Deletes the object. The wrapper stays, of a handle that stands for
    /// nothing any more.
    pub fn delete(&self, dev: &mut Device)
        ensures
            appends_one(
                old(dev)@,
                final(dev)@,
                plain(Op::Delete { kind: ObjectKind::Buffer, id: self.id() }),
            ),
    {
        dev.submit(Op::Delete { kind: ObjectKind::Buffer, id: self.id }, Payload::Nothing);
    }

    /// Gives the object up: unbinds, then deletes. The wrapper is consumed,
    /// so the handle cannot be released a second time through it.
    pub fn release(self, dev: &mut Device)
        ensures
            appends(old(dev)@, final(dev)@, Self::release_commands(self.id())),
            !final(dev)@.state.has(ObjectKind::Buffer, self.id()),
            final(dev)@.state.objects.len() == old(dev)@.state.objects.len(),
            final(dev)@.state.objects == released(
                old(dev)@.state.objects,
                ObjectKind::Buffer,
                self.id(),
            ),
            final(dev)@.state.draws == old(dev)@.state.draws,
    {
        self.unbind(dev);
        self.delete(dev);
        proof {
            lemma_appends(old(dev)@, dev@, Self::release_commands(self.id()));
        }
    }

    /// Replaces the store of whichever buffer is bound for vertex data with
    /// the records of `data`, as data that may be regenerated.
    pub fn data(&self, dev: &mut Device, data: &Vec<Vertex>)
        ensures
            appends_one(
                old(dev)@,
                final(dev)@,
                with_words(
                    Op::BufferData { target: BufferTarget::Array, usage: BufferUsage::DynamicDraw },
                    interleaved(data@),
                ),
            ),
            interleaved(data@).len() <= usize::MAX,
    {
        let words: Vec<u32> = interleave(data);
        assert(words.len() <= usize::MAX);
        dev.submit(
            Op::BufferData { target: BufferTarget::Array, usage: BufferUsage::DynamicDraw },
            Payload::Words(words),
        );
    }

    /// Binds this buffer and uploads `data` into it. If the handle is a live
    /// buffer of `dev`, its store then holds eleven words for each vertex.
    pub fn set(&self, dev: &mut Device, data: &Vec<Vertex>)
        ensures
            appends(old(dev)@, final(dev)@, Self::set_commands(self.id(), data@)),
            final(dev)@.state.bind == (Bindings {
                array_buffer: self.id(),
                ..old(dev)@.state.bind
            }),
            final(dev)@.state.objects == if old(dev)@.state.has(ObjectKind::Buffer, self.id()) {
                replaced(
                    old(dev)@.state.objects,
                    self.id(),
                    Object::Buffer {
                        words: (VERTEX_WORDS * data.len()) as usize,
                        usage: BufferUsage::DynamicDraw,
                    },
                )
            } else {
                old(dev)@.state.objects
            },
            VERTEX_WORDS * data.len() <= usize::MAX,
            final(dev)@.state.draws == old(dev)@.state.draws,
    {
        self.bind(dev);
        self.data(dev, data);
        proof {
            lemma_interleaved_layout(data@);
            lemma_appends(old(dev)@, dev@, Self::set_commands(self.id(), data@));
        }
    }
}

/// Owner of one buffer that holds triangle indices.
#[derive(Debug)]
pub struct IndexBuffer {
    id: u32,
}

impl IndexBuffer {
    /// The handle this wrapper owns.
    pub closed spec fn spec_id(&self) -> u32 {
        self.id
    }

    /// The handle this wrapper owns.
    #[verifier::when_used_as_spec(spec_id)]
    pub fn id(&self) -> (id: u32)
        ensures
            id == self.id(),
    {
        self.id
    }

    /// The commands of [`IndexBuffer::release`].
    pub open spec fn release_commands(id: u32) -> Seq<CommandView> {
        seq![plain(Op::BindBuffer { target: BufferTarget::ElementArray, id: 0 })].push(
            plain(Op::Delete { kind: ObjectKind::Buffer, id }),
        )
    }

    /// The commands of [`IndexBuffer::set`].
    pub open spec fn set_commands(id: u32, data: Seq<u32>) -> Seq<CommandView> {
        seq![plain(Op::BindBuffer { target: BufferTarget::ElementArray, id })].push(
            with_words(
                Op::BufferData {
                    target: BufferTarget::ElementArray,
                    usage: BufferUsage::StaticDraw,
                },
                data,
            ),
        )
    }

    /// Creates the object and takes ownership of it.
    pub fn new(dev: &mut Device) -> (created: IndexBuffer)
        requires
            old(dev)@.room(1),
        ensures
            created.id() == old(dev)@.next_handle(),
            created.id() >= 1,
            final(dev)@.state.objects == old(dev)@.state.objects.push(
                Object::fresh(ObjectKind::Buffer),
            ),
            final(dev)@.state.bind == old(dev)@.state.bind,
            appends_one(
                old(dev)@,
                final(dev)@,
                plain(Op::Create { kind: ObjectKind::Buffer, id: created.id() }),
            ),
    {
        let id: u32 = dev.create(ObjectKind::Buffer);
        IndexBuffer { id }
    }

    /// Makes the object current on its binding point.
    pub fn bind(&self, dev: &mut Device)
        ensures
            appends_one(
                old(dev)@,
                final(dev)@,
                plain(Op::BindBuffer { target: BufferTarget::ElementArray, id: self.id() }),
            ),
    {
        dev.submit(
            Op::BindBuffer { target: BufferTarget::ElementArray, id: self.id },
            Payload::Nothing,
        );
    }

    /// Leaves its binding point without an object.
    pub fn unbind(&self, dev: &mut Device)
        ensures
            appends_one(
                old(dev)@,
                final(dev)@,
                plain(Op::BindBuffer { target: BufferTarget::ElementArray, id: 0 }),
            ),
    {
        dev.submit(Op::BindBuffer { target: BufferTarget::ElementArray, id: 0 }, Payload::Nothing);
    }

    /// Deletes the object. The wrapper stays, of a handle that stands for
    /// nothing any more.
    pub fn delete(&self, dev: &mut Device)
        ensures
            appends_one(
                old(dev)@,
                final(dev)@,
                plain(Op::Delete { kind: ObjectKind::Buffer, id: self.id() }),
            ),
    {
        dev.submit(Op::Delete { kind: ObjectKind::Buffer, id: self.id }, Payload::Nothing);
    }

    /// Gives the object up: unbinds, then deletes. The wrapper is consumed,
    /// so the handle cannot be released a second time through it.
    pub fn release(self, dev: &mut Device)
        ensures
            appends(old(dev)@, final(dev)@, Self::release_commands(self.id())),
            !final(dev)@.state.has(ObjectKind::Buffer, self.id()),
            final(dev)@.state.objects.len() == old(dev)@.state.objects.len(),
            final(dev)@.state.objects == released(
                old(dev)@.state.objects,
                ObjectKind::Buffer,
                self.id(),
            ),
            final(dev)@.state.draws == old(dev)@.state.draws,
    {
        self.unbind(dev);
        self.delete(dev);
        proof {
            lemma_appends(old(dev)@, dev@, Self::release_commands(self.id()));
        }
    }

    /// Replaces the store of whichever buffer is bound for index data with
    /// `data`, as data that is written once.
    pub fn data(&self, dev: &mut Device, data: &Vec<u32>)
        ensures
            appends_one(
                old(dev)@,
                final(dev)@,
                with_words(
                    Op::BufferData {
                        target: BufferTarget::ElementArray,
                        usage: BufferUsage::StaticDraw,
                    },
                    data@,
                ),
            ),
    {
        let words: Vec<u32> = copied(data);
        dev.submit(
            Op::BufferData { target: BufferTarget::ElementArray, usage: BufferUsage::StaticDraw },
            Payload::Words(words),
        );
    }

    /// Binds this buffer and uploads `data` into it. If the handle is a live
    /// buffer of `dev`, its store then holds one word for each index.
    pub fn set(&self, dev: &mut Device, data: &Vec<u32>)
        ensures
            appends(old(dev)@, final(dev)@, Self::set_commands(self.id(), data@)),
            final(dev)@.state.bind == (Bindings {
                element_buffer: self.id(),
                ..old(dev)@.state.bind
            }),
            final(dev)@.state.objects == if old(dev)@.state.has(ObjectKind::Buffer, self.id()) {
                replaced(
                    old(dev)@.state.objects,
                    self.id(),
                    Object::Buffer { words: data.len(), usage: BufferUsage::StaticDraw },
                )
            } else {
                old(dev)@.state.objects
            },
            final(dev)@.state.draws == old(dev)@.state.draws,
    {
        self.bind(dev);
        self.data(dev, data);
        proof {
            lemma_appends(old(dev)@, dev@, Self::set_commands(self.id(), data@));
        }
    }
}

/// Number of reals in attribute `index` of the vertex record: three for
/// position, tint and normal, two for the texture coordinate.
pub open spec fn attribute_size(index: u32) -> u32 {
    if index == 3 {
        2
    } else {
        3
    }
}

/// Byte offset of attribute `index` within the vertex record.
pub open spec fn attribute_offset(index: u32) -> usize {
    (3 * index * WORD_BYTES) as usize
}

/// The command that describes attribute `index` of the vertex record.
pub open spec fn attribute_pointer(index: u32) -> CommandView {
    plain(
        Op::VertexAttribPointer {
            index,
            size: attribute_size(index),
            stride: VERTEX_STRIDE,
            offset: attribute_offset(index),
        },
    )
}

/// The command that switches attribute `index` on.
pub open spec fn attribute_enable(index: u32) -> CommandView {
    plain(Op::EnableVertexAttribArray { index })
}

/// The four attributes tile the vertex record: the first starts at byte 0,
/// each next one starts where the one before ends, and the last ends at the
/// stride.
pub proof fn lemma_attributes_tile_record()
    ensures
        attribute_offset(0) == 0,
        forall|index: u32|
            index < 3 ==> #[trigger] attribute_offset(index) + attribute_size(index) * WORD_BYTES
                == attribute_offset((index + 1) as u32),
        attribute_offset(3) + attribute_size(3) * WORD_BYTES == VERTEX_STRIDE,
        VERTEX_STRIDE == VERTEX_WORDS * WORD_BYTES,
{
}

/// Owner of one vertex array: the description of how vertex records are read.
#[derive(Debug)]
pub struct VertexArrayBuffer {
    id: u32,
}

impl VertexArrayBuffer {
    /// The handle this wrapper owns.
    pub closed spec fn spec_id(&self) -> u32 {
        self.id
    }

    /// The handle this wrapper owns.
    #[verifier::when_used_as_spec(spec_id)]
    pub fn id(&self) -> (id: u32)
        ensures
            id == self.id(),
    {
        self.id
    }

    /// The commands of [`VertexArrayBuffer::release`].
    pub open spec fn release_commands(id: u32) -> Seq<CommandView> {
        seq![plain(Op::BindVertexArray { id: 0 })].push(
            plain(Op::Delete { kind: ObjectKind::VertexArray, id }),
        )
    }

    /// The commands of the attribute layout: for each of the four attributes,
    /// its description and then its activation.
    pub open spec fn setup_commands() -> Seq<CommandView> {
        seq![attribute_pointer(0)].push(attribute_enable(0)).push(attribute_pointer(1)).push(
            attribute_enable(1),
        ).push(attribute_pointer(2)).push(attribute_enable(2)).push(attribute_pointer(3)).push(
            attribute_enable(3),
        )
    }

    /// The commands of [`VertexArrayBuffer::set`].
    pub open spec fn set_commands(id: u32) -> Seq<CommandView> {
        seq![plain(Op::BindVertexArray { id })] + Self::setup_commands()
    }

    /// Creates the object and takes ownership of it.
    pub fn new(dev: &mut Device) -> (created: VertexArrayBuffer)
        requires
            old(dev)@.room(1),
        ensures
            created.id() == old(dev)@.next_handle(),
            created.id() >= 1,
            final(dev)@.state.objects == old(dev)@.state.objects.push(
                Object::fresh(ObjectKind::VertexArray),
            ),
            final(dev)@.state.bind == old(dev)@.state.bind,
            appends_one(
                old(dev)@,
                final(dev)@,
                plain(Op::Create { kind: ObjectKind::VertexArray, id: created.id() }),
            ),
    {
        let id: u32 = dev.create(ObjectKind::VertexArray);
        VertexArrayBuffer { id }
    }

    /// Makes the object current on its binding point.
    pub fn bind(&self, dev: &mut Device)
        ensures
            appends_one(old(dev)@, final(dev)@, plain(Op::BindVertexArray { id: self.id() })),
    {
        dev.submit(Op::BindVertexArray { id: self.id }, Payload::Nothing);
    }

    /// Leaves its binding point without an object.
    pub fn unbind(&self, dev: &mut Device)
        ensures
            appends_one(old(dev)@, final(dev)@, plain(Op::BindVertexArray { id: 0 })),
    {
        dev.submit(Op::BindVertexArray { id: 0 }, Payload::Nothing);
    }

    /// Deletes the object. The wrapper stays, of a handle that stands for
    /// nothing any more.
    pub fn delete(&self, dev: &mut Device)
        ensures
            appends_one(
                old(dev)@,
                final(dev)@,
                plain(Op::Delete { kind: ObjectKind::VertexArray, id: self.id() }),
            ),
    {
        dev.submit(Op::Delete { kind: ObjectKind::VertexArray, id: self.id }, Payload::Nothing);
    }

    /// Gives the object up: unbinds, then deletes. The wrapper is consumed,
    /// so the handle cannot be released a second time through it.
    pub fn release(self, dev: &mut Device)
        ensures
            appends(old(dev)@, final(dev)@, Self::release_commands(self.id())),
            !final(dev)@.state.has(ObjectKind::VertexArray, self.id()),
            final(dev)@.state.objects.len() == old(dev)@.state.objects.len(),
            final(dev)@.state.objects == released(
                old(dev)@.state.objects,
                ObjectKind::VertexArray,
                self.id(),
            ),
            final(dev)@.state.draws == old(dev)@.state.draws,
    {
        self.unbind(dev);
        self.delete(dev);
        proof {
            lemma_appends(old(dev)@, dev@, Self::release_commands(self.id()));
        }
    }

    fn setup(&self, dev: &mut Device)
        ensures
            appends(old(dev)@, final(dev)@, Self::setup_commands()),
            final(dev)@.state == old(dev)@.state,
    {
        dev.submit(
            Op::VertexAttribPointer { index: 0, size: 3, stride: VERTEX_STRIDE, offset: 0 },
            Payload::Nothing,
        );
        dev.submit(Op::EnableVertexAttribArray { index: 0 }, Payload::Nothing);
        dev.submit(
            Op::VertexAttribPointer {
                index: 1,
                size: 3,
                stride: VERTEX_STRIDE,
                offset: 3 * WORD_BYTES,
            },
            Payload::Nothing,
        );
        dev.submit(Op::EnableVertexAttribArray { index: 1 }, Payload::Nothing);
        dev.submit(
            Op::VertexAttribPointer {
                index: 2,
                size: 3,
                stride: VERTEX_STRIDE,
                offset: 6 * WORD_BYTES,
            },
            Payload::Nothing,
        );
        dev.submit(Op::EnableVertexAttribArray { index: 2 }, Payload::Nothing);
        dev.submit(
            Op::VertexAttribPointer {
                index: 3,
                size: 2,
                stride: VERTEX_STRIDE,
                offset: 9 * WORD_BYTES,
            },
            Payload::Nothing,
        );
        dev.submit(Op::EnableVertexAttribArray { index: 3 }, Payload::Nothing);
        proof {
            lemma_appends(old(dev)@, dev@, Self::setup_commands());
        }
    }

    /// Binds this vertex array and describes the vertex record to it.
    pub fn set(&self, dev: &mut Device)
        ensures
            appends(old(dev)@, final(dev)@, Self::set_commands(self.id())),
            final(dev)@.state.objects == old(dev)@.state.objects,
            final(dev)@.state.bind == (Bindings {
                vertex_array: self.id(),
                ..old(dev)@.state.bind
            }),
            final(dev)@.state.draws == old(dev)@.state.draws,
    {
        self.bind(dev);
        self.setup(dev);
        proof {
            lemma_appends(old(dev)@, dev@, Self::set_commands(self.id()));
        }
    }
}

/// Why pixel data was turned away.
#[derive(Clone, Copy, Debug, PartialEq, Eq)]
pub enum TextureError {
    /// The data does not hold four bytes for each pixel of the stated size.
    PixelCount,
}

/// An image of `width` by `height` pixels of four bytes each, with its rows
/// in reverse order: byte `k` of row `r` of the result is byte `k` of row
/// `height - 1 - r` of `pixels`.
pub open spec fn flipped_rows(width: nat, height: nat, pixels: Seq<u8>) -> Seq<u8> {
    let row = 4 * width as int;
    Seq::new(4 * width * height, |i: int| pixels[(height - 1 - i / row) * row + i % row])
}

/// Reverses the order of the rows of an 8-bit RGBA image that has at least
/// one pixel.
///
/// This is `image::imageops::flip_vertical`, on an `image::RgbaImage` made
/// from the pixels by `from_raw` and turned back into bytes by `into_raw`.
/// Not proved but taken from that crate's source: `from_raw` accepts data
/// that holds at least four bytes for each pixel; the flip writes the pixel
/// at `(x, y)` to `(x, height - 1 - y)` of an image of the same size; and an
/// image keeps its pixels row by row, four bytes each.
#[verifier::external_body]
fn flip_vertical(width: u32, height: u32, pixels: Vec<u8>) -> (flipped: Option<Vec<u8>>)
    ensures
        width >= 1 && height >= 1 && pixels@.len() == 4 * width * height ==> flipped is Some
            && flipped->Some_0@ == flipped_rows(width as nat, height as nat, pixels@),
{
    match image::RgbaImage::from_raw(width, height, pixels) {
        Some(upright) => Some(image::imageops::flip_vertical(&upright).into_raw()),
        None => None,
    }
}

/// The command that sets one sampling parameter on the 2-D target.
pub open spec fn texture_parameter(
    parameter: TextureParameter,
    value: TextureSetting,
) -> CommandView {
    plain(Op::TexParameter { target: TextureTarget::Texture2D, parameter, value })
}

/// The specification of a 2-D RGBA image of `size`, stored as `format`, whose
/// pixel data has components of `data_type`.
pub open spec fn color_image(format: InternalFormat, size: (u32, u32), data_type: PixelType) -> Op {
    Op::TexImage2D {
        target: ImageTarget::Texture2D,
        internal_format: format,
        width: size.0,
        height: size.1,
        format: PixelFormat::Rgba,
        data_type,
    }
}

/// The specification of a depth image of `size` at `target`.
pub open spec fn depth_image(target: ImageTarget, size: (u32, u32)) -> Op {
    Op::TexImage2D {
        target,
        internal_format: InternalFormat::DepthComponent,
        width: size.0,
        height: size.1,
        format: PixelFormat::DepthComponent,
        data_type: PixelType::Real,
    }
}

/// Owner of one 2-D texture.
#[derive(Debug)]
pub struct Texture {
    id: u32,
}

impl Texture {
    /// The handle this wrapper owns.
    pub closed spec fn spec_id(&self) -> u32 {
        self.id
    }

    /// The handle this wrapper owns.
    #[verifier::when_used_as_spec(spec_id)]
    pub fn id(&self) -> (id: u32)
        ensures
            id == self.id(),
    {
        self.id
    }

    /// The commands of [`Texture::release`].
    pub open spec fn release_commands(id: u32) -> Seq<CommandView> {
        seq![plain(Op::BindTexture { target: TextureTarget::Texture2D, id: 0 })].push(
            plain(Op::Delete { kind: ObjectKind::Texture, id }),
        )
    }

    /// The commands that set wrapping in both directions to `wrap` and both
    /// filters to linear, on the 2-D target.
    pub open spec fn sampling_commands(wrap: TextureSetting) -> Seq<CommandView> {
        seq![texture_parameter(TextureParameter::WrapS, wrap)].push(
            texture_parameter(TextureParameter::WrapT, wrap),
        ).push(texture_parameter(TextureParameter::MinFilter, TextureSetting::Linear)).push(
            texture_parameter(TextureParameter::MagFilter, TextureSetting::Linear),
        )
    }

    /// The commands of [`Texture::load`] when it succeeds with `pixels` as
    /// the data handed to the backend.
    pub open spec fn load_commands(id: u32, width: u32, height: u32, pixels: Seq<u8>) -> Seq<
        CommandView,
    > {
        (seq![plain(Op::BindTexture { target: TextureTarget::Texture2D, id })]
            + Self::sampling_commands(TextureSetting::Repeat)).push(
            with_bytes(
                color_image(InternalFormat::Rgba, (width, height), PixelType::UnsignedByte),
                pixels,
            ),
        ).push(plain(Op::GenerateMipmap { target: TextureTarget::Texture2D }))
    }

    /// The commands of [`Texture::make_empty`].
    pub open spec fn make_empty_commands(id: u32, size: (u32, u32)) -> Seq<CommandView> {
        (seq![plain(Op::BindTexture { target: TextureTarget::Texture2D, id })]
            + Self::sampling_commands(TextureSetting::Repeat)).push(
            plain(color_image(InternalFormat::Rgba16, size, PixelType::Real)),
        ).push(plain(Op::GenerateMipmap { target: TextureTarget::Texture2D }))
    }

    /// The commands of [`Texture::make_empty_depth_buffer`].
    pub open spec fn make_empty_depth_buffer_commands(id: u32, size: (u32, u32)) -> Seq<
        CommandView,
    > {
        (seq![plain(Op::BindTexture { target: TextureTarget::Texture2D, id })]
            + Self::sampling_commands(TextureSetting::ClampToEdge)).push(
            plain(depth_image(ImageTarget::Texture2D, size)),
        )
    }

    /// What becomes of the objects when an image of `size` and `format` is
    /// specified for this texture while it is bound.
    pub open spec fn sized(
        id: u32,
        objects: Seq<Object>,
        size: (u32, u32),
        format: InternalFormat,
    ) -> Seq<Object> {
        if object_at(objects, id).kind() == Some(ObjectKind::Texture) {
            replaced(
                objects,
                id,
                Object::Texture { width: size.0, height: size.1, format },
            )
        } else {
            objects
        }
    }

    /// Creates the object and takes ownership of it.
    pub fn new(dev: &mut Device) -> (created: Texture)
        requires
            old(dev)@.room(1),
        ensures
            created.id() == old(dev)@.next_handle(),
            created.id() >= 1,
            final(dev)@.state.objects == old(dev)@.state.objects.push(
                Object::fresh(ObjectKind::Texture),
            ),
            final(dev)@.state.bind == old(dev)@.state.bind,
            appends_one(
                old(dev)@,
                final(dev)@,
                plain(Op::Create { kind: ObjectKind::Texture, id: created.id() }),
            ),
    {
        let id: u32 = dev.create(ObjectKind::Texture);
        Texture { id }
    }

    /// Makes the object current on its binding point.
    pub fn bind(&self, dev: &mut Device)
        ensures
            appends_one(
                old(dev)@,
                final(dev)@,
                plain(Op::BindTexture { target: TextureTarget::Texture2D, id: self.id() }),
            ),
    {
        dev.submit(
            Op::BindTexture { target: TextureTarget::Texture2D, id: self.id },
            Payload::Nothing,
        );
    }

    /// Leaves its binding point without an object.
    pub fn unbind(&self, dev: &mut Device)
        ensures
            appends_one(
                old(dev)@,
                final(dev)@,
                plain(Op::BindTexture { target: TextureTarget::Texture2D, id: 0 }),
            ),
    {
        dev.submit(Op::BindTexture { target: TextureTarget::Texture2D, id: 0 }, Payload::Nothing);
    }

    /// Deletes the object. The wrapper stays, of a handle that stands for
    /// nothing any more.
    pub fn delete(&self, dev: &mut Device)
        ensures
            appends_one(
                old(dev)@,
                final(dev)@,
                plain(Op::Delete { kind: ObjectKind::Texture, id: self.id() }),
            ),
    {
        dev.submit(Op::Delete { kind: ObjectKind::Texture, id: self.id }, Payload::Nothing);
    }

    /// Gives the object up: unbinds, then deletes. The wrapper is consumed,
    /// so the handle cannot be released a second time through it.
    pub fn release(self, dev: &mut Device)
        ensures
            appends(old(dev)@, final(dev)@, Self::release_commands(self.id())),
            !final(dev)@.state.has(ObjectKind::Texture, self.id()),
            final(dev)@.state.objects.len() == old(dev)@.state.objects.len(),
            final(dev)@.state.objects == released(
                old(dev)@.state.objects,
                ObjectKind::Texture,
                self.id(),
            ),
            final(dev)@.state.draws == old(dev)@.state.draws,
    {
        self.unbind(dev);
        self.delete(dev);
        proof {
            lemma_appends(old(dev)@, dev@, Self::release_commands(self.id()));
        }
    }

    fn sampling(dev: &mut Device, wrap: TextureSetting)
        ensures
            appends(old(dev)@, final(dev)@, Self::sampling_commands(wrap)),
            final(dev)@.state == old(dev)@.state,
    {
        dev.submit(
            Op::TexParameter {
                target: TextureTarget::Texture2D,
                parameter: TextureParameter::WrapS,
                value: wrap,
            },
            Payload::Nothing,
        );
        dev.submit(
            Op::TexParameter {
                target: TextureTarget::Texture2D,
                parameter: TextureParameter::WrapT,
                value: wrap,
            },
            Payload::Nothing,
        );
        dev.submit(
            Op::TexParameter {
                target: TextureTarget::Texture2D,
                parameter: TextureParameter::MinFilter,
                value: TextureSetting::Linear,
            },
            Payload::Nothing,
        );
        dev.submit(
            Op::TexParameter {
                target: TextureTarget::Texture2D,
                parameter: TextureParameter::MagFilter,
                value: TextureSetting::Linear,
            },
            Payload::Nothing,
        );
        proof {
            lemma_appends(old(dev)@, dev@, Self::sampling_commands(wrap));
        }
    }

    /// Makes this texture a repeating, linearly filtered 8-bit RGBA image
    /// from decoded pixels, and builds its mipmaps.
    ///
    /// `pixels` holds the image row by row from the top, four bytes per
    /// pixel. The backend counts rows from the bottom, so the rows are handed
    /// over in reverse order. Data that does not hold exactly four bytes for
    /// each pixel of the stated size is turned away, and nothing is
    /// recorded.
    pub fn load(&self, dev: &mut Device, width: u32, height: u32, pixels: Vec<u8>) -> (loaded:
        Result<(), TextureError>)
        ensures
            loaded is Ok <==> pixels@.len() == 4 * width * height,
            loaded is Ok ==> appends(
                old(dev)@,
                final(dev)@,
                Self::load_commands(
                    self.id(),
                    width,
                    height,
                    flipped_rows(width as nat, height as nat, pixels@),
                ),
            ),
            loaded is Ok ==> final(dev)@.state.objects == Self::sized(
                self.id(),
                old(dev)@.state.objects,
                (width, height),
                InternalFormat::Rgba,
            ),
            loaded is Ok ==> final(dev)@.state.bind == old(dev)@.state.bind.bind_texture(
                TextureTarget::Texture2D,
                self.id(),
            ),
            loaded is Err ==> loaded == Err::<(), TextureError>(TextureError::PixelCount),
            loaded is Err ==> *final(dev) == *old(dev),
            final(dev)@.state.draws == old(dev)@.state.draws,
    {
        assert(width * height <= 0xFFFF_FFFF * 0xFFFF_FFFF) by (nonlinear_arith)
            requires
                width <= 0xFFFF_FFFF,
                height <= 0xFFFF_FFFF,
        ;
        assert(4 * (width * height) == 4 * width * height) by (nonlinear_arith);
        let area: u64 = (width as u64) * (height as u64);
        if pixels.len() % 4 != 0 || (pixels.len() / 4) as u64 != area {
            return Err(TextureError::PixelCount);
        }
        let ghost upright = pixels@;
        let flipped: Vec<u8> = if width == 0 || height == 0 {
            assert(4 * width * height == 0) by (nonlinear_arith)
                requires
                    width == 0 || height == 0,
            ;
            assert(upright =~= flipped_rows(width as nat, height as nat, upright));
            pixels
        } else {
            match flip_vertical(width, height, pixels) {
                Some(flipped) => flipped,
                None => {
                    return Err(TextureError::PixelCount);
                },
            }
        };
        self.bind(dev);
        Self::sampling(dev, TextureSetting::Repeat);
        dev.submit(
            Op::TexImage2D {
                target: ImageTarget::Texture2D,
                internal_format: InternalFormat::Rgba,
                width,
                height,
                format: PixelFormat::Rgba,
                data_type: PixelType::UnsignedByte,
            },
            Payload::Bytes(flipped),
        );
        dev.submit(Op::GenerateMipmap { target: TextureTarget::Texture2D }, Payload::Nothing);
        proof {
            lemma_appends(
                old(dev)@,
                dev@,
                Self::load_commands(
                    self.id(),
                    width,
                    height,
                    flipped_rows(width as nat, height as nat, upright),
                ),
            );
        }
        Ok(())
    }

    /// Makes this texture a repeating, linearly filtered RGBA image of 16-bit
    /// reals, of the given size and with undefined contents, and builds its
    /// mipmaps. Such an image holds values beyond the range of a display, as
    /// light that is added up needs.
    pub fn make_empty(&self, dev: &mut Device, size: (u32, u32))
        ensures
            appends(old(dev)@, final(dev)@, Self::make_empty_commands(self.id(), size)),
            final(dev)@.state.objects == Self::sized(self.id(), old(dev)@.state.objects,
                size,
                InternalFormat::Rgba16,
            ),
            final(dev)@.state.bind == old(dev)@.state.bind.bind_texture(
                TextureTarget::Texture2D,
                self.id(),
            ),
            final(dev)@.state.draws == old(dev)@.state.draws,
    {
        self.bind(dev);
        Self::sampling(dev, TextureSetting::Repeat);
        dev.submit(
            Op::TexImage2D {
                target: ImageTarget::Texture2D,
                internal_format: InternalFormat::Rgba16,
                width: size.0,
                height: size.1,
                format: PixelFormat::Rgba,
                data_type: PixelType::Real,
            },
            Payload::Nothing,
        );
        dev.submit(Op::GenerateMipmap { target: TextureTarget::Texture2D }, Payload::Nothing);
        proof {
            lemma_appends(old(dev)@, dev@, Self::make_empty_commands(self.id(), size));
        }
    }

    /// Makes this texture an edge-clamped, linearly filtered depth image of
    /// the given size with undefined contents.
    pub fn make_empty_depth_buffer(&self, dev: &mut Device, size: (u32, u32))
        ensures
            appends(
                old(dev)@,
                final(dev)@,
                Self::make_empty_depth_buffer_commands(self.id(), size),
            ),
            final(dev)@.state.objects == Self::sized(self.id(), old(dev)@.state.objects,
                size,
                InternalFormat::DepthComponent,
            ),
            final(dev)@.state.bind == old(dev)@.state.bind.bind_texture(
                TextureTarget::Texture2D,
                self.id(),
            ),
            final(dev)@.state.draws == old(dev)@.state.draws,
    {
        self.bind(dev);
        Self::sampling(dev, TextureSetting::ClampToEdge);
        dev.submit(
            Op::TexImage2D {
                target: ImageTarget::Texture2D,
                internal_format: InternalFormat::DepthComponent,
                width: size.0,
                height: size.1,
                format: PixelFormat::DepthComponent,
                data_type: PixelType::Real,
            },
            Payload::Nothing,
        );
        proof {
            lemma_appends(old(dev)@, dev@, Self::make_empty_depth_buffer_commands(self.id(), size));
        }
    }
}

/// Owner of one cube-map texture.
#[derive(Debug)]
pub struct Cubemap {
    id: u32,
}

impl Cubemap {
    /// The handle this wrapper owns.
    pub closed spec fn spec_id(&self) -> u32 {
        self.id
    }

    /// The handle this wrapper owns.
    #[verifier::when_used_as_spec(spec_id)]
    pub fn id(&self) -> (id: u32)
        ensures
            id == self.id(),
    {
        self.id
    }

    /// The commands of [`Cubemap::release`].
    pub open spec fn release_commands(id: u32) -> Seq<CommandView> {
        seq![plain(Op::BindTexture { target: TextureTarget::CubeMap, id: 0 })].push(
            plain(Op::Delete { kind: ObjectKind::Texture, id }),
        )
    }

    /// The image specifications of the first `n` faces, counted from
    /// positive x.
    pub open spec fn face_commands(size: (u32, u32), n: nat) -> Seq<CommandView>
        decreases n,
    {
        if n == 0 {
            Seq::empty()
        } else {
            Self::face_commands(size, (n - 1) as nat).push(
                plain(depth_image(ImageTarget::CubeFace { face: (n - 1) as u32 }, size)),
            )
        }
    }

    /// The commands of [`Cubemap::make_empty_depth_buffer`].
    pub open spec fn make_empty_depth_buffer_commands(id: u32, size: (u32, u32)) -> Seq<
        CommandView,
    > {
        (seq![plain(Op::BindTexture { target: TextureTarget::CubeMap, id })]
            + Self::face_commands(size, 6)).push(
            texture_parameter(TextureParameter::WrapS, TextureSetting::ClampToEdge),
        ).push(texture_parameter(TextureParameter::WrapT, TextureSetting::ClampToEdge)).push(
            texture_parameter(TextureParameter::WrapR, TextureSetting::ClampToEdge),
        ).push(texture_parameter(TextureParameter::MinFilter, TextureSetting::Nearest)).push(
            texture_parameter(TextureParameter::MagFilter, TextureSetting::Nearest),
        )
    }

    /// What becomes of the objects when depth faces of `size` are specified
    /// for this cube map while it is bound.
    pub open spec fn sized(id: u32, objects: Seq<Object>, size: (u32, u32)) -> Seq<Object> {
        if object_at(objects, id).kind() == Some(ObjectKind::Texture) {
            replaced(
                objects,
                id,
                Object::Texture {
                    width: size.0,
                    height: size.1,
                    format: InternalFormat::DepthComponent,
                },
            )
        } else {
            objects
        }
    }

    /// Creates the object and takes ownership of it.
    pub fn new(dev: &mut Device) -> (created: Cubemap)
        requires
            old(dev)@.room(1),
        ensures
            created.id() == old(dev)@.next_handle(),
            created.id() >= 1,
            final(dev)@.state.objects == old(dev)@.state.objects.push(
                Object::fresh(ObjectKind::Texture),
            ),
            final(dev)@.state.bind == old(dev)@.state.bind,
            appends_one(
                old(dev)@,
                final(dev)@,
                plain(Op::Create { kind: ObjectKind::Texture, id: created.id() }),
            ),
    {
        let id: u32 = dev.create(ObjectKind::Texture);
        Cubemap { id }
    }

    /// Makes the object current on its binding point.
    pub fn bind(&self, dev: &mut Device)
        ensures
            appends_one(
                old(dev)@,
                final(dev)@,
                plain(Op::BindTexture { target: TextureTarget::CubeMap, id: self.id() }),
            ),
    {
        dev.submit(
            Op::BindTexture { target: TextureTarget::CubeMap, id: self.id },
            Payload::Nothing,
        );
    }

    /// Leaves its binding point without an object.
    pub fn unbind(&self, dev: &mut Device)
        ensures
            appends_one(
                old(dev)@,
                final(dev)@,
                plain(Op::BindTexture { target: TextureTarget::CubeMap, id: 0 }),
            ),
    {
        dev.submit(Op::BindTexture { target: TextureTarget::CubeMap, id: 0 }, Payload::Nothing);
    }

    /// Deletes the object. The wrapper stays, of a handle that stands for
    /// nothing any more.
    pub fn delete(&self, dev: &mut Device)
        ensures
            appends_one(
                old(dev)@,
                final(dev)@,
                plain(Op::Delete { kind: ObjectKind::Texture, id: self.id() }),
            ),
    {
        dev.submit(Op::Delete { kind: ObjectKind::Texture, id: self.id }, Payload::Nothing);
    }

    /// Gives the object up: unbinds, then deletes. The wrapper is consumed,
    /// so the handle cannot be released a second time through it.
    pub fn release(self, dev: &mut Device)
        ensures
            appends(old(dev)@, final(dev)@, Self::release_commands(self.id())),
            !final(dev)@.state.has(ObjectKind::Texture, self.id()),
            final(dev)@.state.objects.len() == old(dev)@.state.objects.len(),
            final(dev)@.state.objects == released(
                old(dev)@.state.objects,
                ObjectKind::Texture,
                self.id(),
            ),
            final(dev)@.state.draws == old(dev)@.state.draws,
    {
        self.unbind(dev);
        self.delete(dev);
        proof {
            lemma_appends(old(dev)@, dev@, Self::release_commands(self.id()));
        }
    }

    /// Gives each of the six faces a depth image of the given size with
    /// undefined contents, then asks for edge clamping and nearest filtering
    /// on the 2-D target.
    pub fn make_empty_depth_buffer(&self, dev: &mut Device, size: (u32, u32))
        ensures
            appends(
                old(dev)@,
                final(dev)@,
                Self::make_empty_depth_buffer_commands(self.id(), size),
            ),
            final(dev)@.state.objects == Self::sized(self.id(), old(dev)@.state.objects, size),
            final(dev)@.state.bind == (Bindings { cube_map: self.id(), ..old(dev)@.state.bind }),
            final(dev)@.state.draws == old(dev)@.state.draws,
    {
        self.bind(dev);
        let ghost bound = seq![
            plain(Op::BindTexture { target: TextureTarget::CubeMap, id: self.id() }),
        ];
        assert(bound + Self::face_commands(size, 0) =~= bound);
        let mut face: u32 = 0;
        while face < 6
            invariant
                face <= 6,
                dev@.extends(old(dev)@, bound + Self::face_commands(size, face as nat)),
                dev@.state.bind == (Bindings { cube_map: self.id(), ..old(dev)@.state.bind }),
                dev@.state.draws == old(dev)@.state.draws,
                dev@.state.objects == if face == 0 {
                    old(dev)@.state.objects
                } else {
                    Self::sized(self.id(), old(dev)@.state.objects, size)
                },
            decreases 6 - face,
        {
            let ghost before = Self::face_commands(size, face as nat);
            dev.submit(
                Op::TexImage2D {
                    target: ImageTarget::CubeFace { face },
                    internal_format: InternalFormat::DepthComponent,
                    width: size.0,
                    height: size.1,
                    format: PixelFormat::DepthComponent,
                    data_type: PixelType::Real,
                },
                Payload::Nothing,
            );
            proof {
                let image = plain(depth_image(ImageTarget::CubeFace { face }, size));
                assert((bound + before).push(image) =~= bound + before.push(image));
                assert(dev@.state.objects =~= Self::sized(
                    self.id(),
                    old(dev)@.state.objects,
                    size,
                ));
            }
            face += 1;
        }
        dev.submit(
            Op::TexParameter {
                target: TextureTarget::Texture2D,
                parameter: TextureParameter::WrapS,
                value: TextureSetting::ClampToEdge,
            },
            Payload::Nothing,
        );
        dev.submit(
            Op::TexParameter {
                target: TextureTarget::Texture2D,
                parameter: TextureParameter::WrapT,
                value: TextureSetting::ClampToEdge,
            },
            Payload::Nothing,
        );
        dev.submit(
            Op::TexParameter {
                target: TextureTarget::Texture2D,
                parameter: TextureParameter::WrapR,
                value: TextureSetting::ClampToEdge,
            },
            Payload::Nothing,
        );
        dev.submit(
            Op::TexParameter {
                target: TextureTarget::Texture2D,
                parameter: TextureParameter::MinFilter,
                value: TextureSetting::Nearest,
            },
            Payload::Nothing,
        );
        dev.submit(
            Op::TexParameter {
                target: TextureTarget::Texture2D,
                parameter: TextureParameter::MagFilter,
                value: TextureSetting::Nearest,
            },
            Payload::Nothing,
        );
        proof {
            lemma_appends(old(dev)@, dev@, Self::make_empty_depth_buffer_commands(self.id(), size));
        }
    }
}

/// The objects after `name` has been attached at `point` of framebuffer
/// `framebuffer`; unchanged if that handle is no live framebuffer.
pub open spec fn attached_at(
    objects: Seq<Object>,
    framebuffer: u32,
    point: Attachment,
    name: u32,
) -> Seq<Object> {
    replaced(objects, framebuffer, object_at(objects, framebuffer).attach(point, name))
}

/// Owner of one framebuffer.
#[derive(Debug)]
pub struct FrameBuffer {
    id: u32,
}

impl FrameBuffer {
    /// The handle this wrapper owns.
    pub closed spec fn spec_id(&self) -> u32 {
        self.id
    }

    /// The handle this wrapper owns.
    #[verifier::when_used_as_spec(spec_id)]
    pub fn id(&self) -> (id: u32)
        ensures
            id == self.id(),
    {
        self.id
    }

    /// The commands of [`FrameBuffer::release`].
    pub open spec fn release_commands(id: u32) -> Seq<CommandView> {
        seq![plain(Op::BindFramebuffer { id: 0 })].push(
            plain(Op::Delete { kind: ObjectKind::Framebuffer, id }),
        )
    }

    /// The commands of [`FrameBuffer::load`].
    pub open spec fn load_commands(texture: u32) -> Seq<CommandView> {
        seq![plain(Op::BindTexture { target: TextureTarget::Texture2D, id: texture })].push(
            plain(Op::FramebufferTexture2D { attachment: Attachment::Color0, texture }),
        )
    }

    /// The commands of [`FrameBuffer::load_depth_texture`].
    pub open spec fn load_depth_texture_commands(id: u32, texture: u32) -> Seq<CommandView> {
        seq![plain(Op::BindTexture { target: TextureTarget::Texture2D, id: texture })].push(
            plain(Op::BindFramebuffer { id }),
        ).push(plain(Op::FramebufferTexture2D { attachment: Attachment::Depth, texture })).push(
            plain(Op::DrawBufferNone),
        ).push(plain(Op::ReadBufferNone)).push(plain(Op::BindFramebuffer { id: 0 }))
    }

    /// The commands of [`FrameBuffer::load_depth_cubemap`].
    pub open spec fn load_depth_cubemap_commands(id: u32, cubemap: u32) -> Seq<CommandView> {
        seq![plain(Op::BindTexture { target: TextureTarget::CubeMap, id: cubemap })].push(
            plain(Op::BindFramebuffer { id }),
        ).push(
            plain(Op::FramebufferTexture { attachment: Attachment::Depth, texture: cubemap }),
        ).push(plain(Op::DrawBufferNone)).push(plain(Op::ReadBufferNone)).push(
            plain(Op::BindFramebuffer { id: 0 }),
        )
    }

    /// Creates the object and takes ownership of it.
    pub fn new(dev: &mut Device) -> (created: FrameBuffer)
        requires
            old(dev)@.room(1),
        ensures
            created.id() == old(dev)@.next_handle(),
            created.id() >= 1,
            final(dev)@.state.objects == old(dev)@.state.objects.push(
                Object::fresh(ObjectKind::Framebuffer),
            ),
            final(dev)@.state.bind == old(dev)@.state.bind,
            appends_one(
                old(dev)@,
                final(dev)@,
                plain(Op::Create { kind: ObjectKind::Framebuffer, id: created.id() }),
            ),
    {
        let id: u32 = dev.create(ObjectKind::Framebuffer);
        FrameBuffer { id }
    }

    /// Makes the object current on its binding point.
    pub fn bind(&self, dev: &mut Device)
        ensures
            appends_one(old(dev)@, final(dev)@, plain(Op::BindFramebuffer { id: self.id() })),
    {
        dev.submit(Op::BindFramebuffer { id: self.id }, Payload::Nothing);
    }

    /// Leaves its binding point without an object.
    pub fn unbind(&self, dev: &mut Device)
        ensures
            appends_one(old(dev)@, final(dev)@, plain(Op::BindFramebuffer { id: 0 })),
    {
        dev.submit(Op::BindFramebuffer { id: 0 }, Payload::Nothing);
    }

    /// Deletes the object. The wrapper stays, of a handle that stands for
    /// nothing any more.
    pub fn delete(&self, dev: &mut Device)
        ensures
            appends_one(
                old(dev)@,
                final(dev)@,
                plain(Op::Delete { kind: ObjectKind::Framebuffer, id: self.id() }),
            ),
    {
        dev.submit(Op::Delete { kind: ObjectKind::Framebuffer, id: self.id }, Payload::Nothing);
    }

    /// Gives the object up: unbinds, then deletes. The wrapper is consumed,
    /// so the handle cannot be released a second time through it.
    pub fn release(self, dev: &mut Device)
        ensures
            appends(old(dev)@, final(dev)@, Self::release_commands(self.id())),
            !final(dev)@.state.has(ObjectKind::Framebuffer, self.id()),
            final(dev)@.state.objects.len() == old(dev)@.state.objects.len(),
            final(dev)@.state.objects == released(
                old(dev)@.state.objects,
                ObjectKind::Framebuffer,
                self.id(),
            ),
            final(dev)@.state.draws == old(dev)@.state.draws,
    {
        self.unbind(dev);
        self.delete(dev);
        proof {
            lemma_appends(old(dev)@, dev@, Self::release_commands(self.id()));
        }
    }

    /// Binds `texture` and attaches it as the first colour target of
    /// whichever framebuffer is bound.
    pub fn load(&self, dev: &mut Device, texture: &Texture)
        ensures
            appends(old(dev)@, final(dev)@, Self::load_commands(texture.id())),
            final(dev)@.state.objects == attached_at(
                old(dev)@.state.objects,
                old(dev)@.state.bind.framebuffer,
                Attachment::Color0,
                texture.id(),
            ),
            final(dev)@.state.bind == old(dev)@.state.bind.bind_texture(
                TextureTarget::Texture2D,
                texture.id(),
            ),
            final(dev)@.state.draws == old(dev)@.state.draws,
    {
        dev.submit(
            Op::BindTexture { target: TextureTarget::Texture2D, id: texture.id() },
            Payload::Nothing,
        );
        dev.submit(
            Op::FramebufferTexture2D { attachment: Attachment::Color0, texture: texture.id() },
            Payload::Nothing,
        );
        proof {
            lemma_appends(old(dev)@, dev@, Self::load_commands(texture.id()));
        }
    }

    /// Makes `texture` the depth target of this framebuffer and switches its
    /// colour output and input off. Leaves no framebuffer bound.
    pub fn load_depth_texture(&self, dev: &mut Device, texture: &Texture)
        ensures
            appends(
                old(dev)@,
                final(dev)@,
                Self::load_depth_texture_commands(self.id(), texture.id()),
            ),
            final(dev)@.state.objects == attached_at(
                old(dev)@.state.objects,
                self.id(),
                Attachment::Depth,
                texture.id(),
            ),
            final(dev)@.state.bind == (Bindings {
                framebuffer: 0,
                ..old(dev)@.state.bind.bind_texture(TextureTarget::Texture2D, texture.id())
            }),
            final(dev)@.state.draws == old(dev)@.state.draws,
    {
        texture.bind(dev);
        self.bind(dev);
        dev.submit(
            Op::FramebufferTexture2D { attachment: Attachment::Depth, texture: texture.id() },
            Payload::Nothing,
        );
        dev.submit(Op::DrawBufferNone, Payload::Nothing);
        dev.submit(Op::ReadBufferNone, Payload::Nothing);
        self.unbind(dev);
        proof {
            lemma_appends(
                old(dev)@,
                dev@,
                Self::load_depth_texture_commands(self.id(), texture.id()),
            );
        }
    }

    /// Makes `cubemap` the layered depth target of this framebuffer and
    /// switches its colour output and input off. Leaves no framebuffer bound.
    pub fn load_depth_cubemap(&self, dev: &mut Device, cubemap: &Cubemap)
        ensures
            appends(
                old(dev)@,
                final(dev)@,
                Self::load_depth_cubemap_commands(self.id(), cubemap.id()),
            ),
            final(dev)@.state.objects == attached_at(
                old(dev)@.state.objects,
                self.id(),
                Attachment::Depth,
                cubemap.id(),
            ),
            final(dev)@.state.bind == (Bindings {
                framebuffer: 0,
                cube_map: cubemap.id(),
                ..old(dev)@.state.bind
            }),
            final(dev)@.state.draws == old(dev)@.state.draws,
    {
        cubemap.bind(dev);
        self.bind(dev);
        dev.submit(
            Op::FramebufferTexture { attachment: Attachment::Depth, texture: cubemap.id() },
            Payload::Nothing,
        );
        dev.submit(Op::DrawBufferNone, Payload::Nothing);
        dev.submit(Op::ReadBufferNone, Payload::Nothing);
        self.unbind(dev);
        proof {
            lemma_appends(
                old(dev)@,
                dev@,
                Self::load_depth_cubemap_commands(self.id(), cubemap.id()),
            );
        }
    }
}

/// The status with which a backend reports a complete framebuffer.
pub const FRAMEBUFFER_COMPLETE: u32 = 0x8CD5;

/// Judges the backend's answer to a completeness check: any status but
/// [`FRAMEBUFFER_COMPLETE`] is a construction error.
pub fn framebuffer_status(status: u32) -> (checked: Result<(), String>)
    ensures
        checked is Ok <==> status == FRAMEBUFFER_COMPLETE,
        checked is Err ==> checked->Err_0@ == "ERROR::FRAMEBUFFER:: Framebuffer is not complete!"@,
{
    if status != FRAMEBUFFER_COMPLETE {
        return Err(String::from_str("ERROR::FRAMEBUFFER:: Framebuffer is not complete!"));
    }
    Ok(())
}

/// Owner of one renderbuffer.
#[derive(Debug)]
pub struct RenderBuffer {
    id: u32,
}

impl RenderBuffer {
    /// The handle this wrapper owns.
    pub closed spec fn spec_id(&self) -> u32 {
        self.id
    }

    /// The handle this wrapper owns.
    #[verifier::when_used_as_spec(spec_id)]
    pub fn id(&self) -> (id: u32)
        ensures
            id == self.id(),
    {
        self.id
    }

    /// The commands of [`RenderBuffer::release`].
    pub open spec fn release_commands(id: u32) -> Seq<CommandView> {
        seq![plain(Op::BindRenderbuffer { id: 0 })].push(
            plain(Op::Delete { kind: ObjectKind::Renderbuffer, id }),
        )
    }

    /// The commands of [`RenderBuffer::load`].
    pub open spec fn load_commands(id: u32, framebuffer: u32, size: (u32, u32)) -> Seq<
        CommandView,
    > {
        seq![plain(Op::BindFramebuffer { id: framebuffer })].push(
            plain(Op::BindRenderbuffer { id }),
        ).push(plain(Op::RenderbufferStorage { width: size.0, height: size.1 })).push(
            plain(
                Op::FramebufferRenderbuffer {
                    attachment: Attachment::DepthStencil,
                    renderbuffer: id,
                },
            ),
        ).push(plain(Op::CheckFramebufferStatus))
    }

    /// What becomes of the objects when this renderbuffer is given a store
    /// of `size` while it is bound.
    pub open spec fn sized(id: u32, objects: Seq<Object>, size: (u32, u32)) -> Seq<Object> {
        if object_at(objects, id).kind() == Some(ObjectKind::Renderbuffer) {
            replaced(objects, id, Object::Renderbuffer { width: size.0, height: size.1 })
        } else {
            objects
        }
    }

    /// Creates the object and takes ownership of it.
    pub fn new(dev: &mut Device) -> (created: RenderBuffer)
        requires
            old(dev)@.room(1),
        ensures
            created.id() == old(dev)@.next_handle(),
            created.id() >= 1,
            final(dev)@.state.objects == old(dev)@.state.objects.push(
                Object::fresh(ObjectKind::Renderbuffer),
            ),
            final(dev)@.state.bind == old(dev)@.state.bind,
            appends_one(
                old(dev)@,
                final(dev)@,
                plain(Op::Create { kind: ObjectKind::Renderbuffer, id: created.id() }),
            ),
    {
        let id: u32 = dev.create(ObjectKind::Renderbuffer);
        RenderBuffer { id }
    }

    /// Makes the object current on its binding point.
    pub fn bind(&self, dev: &mut Device)
        ensures
            appends_one(old(dev)@, final(dev)@, plain(Op::BindRenderbuffer { id: self.id() })),
    {
        dev.submit(Op::BindRenderbuffer { id: self.id }, Payload::Nothing);
    }

    /// Leaves its binding point without an object.
    pub fn unbind(&self, dev: &mut Device)
        ensures
            appends_one(old(dev)@, final(dev)@, plain(Op::BindRenderbuffer { id: 0 })),
    {
        dev.submit(Op::BindRenderbuffer { id: 0 }, Payload::Nothing);
    }

    /// Deletes the object. The wrapper stays, of a handle that stands for
    /// nothing any more.
    pub fn delete(&self, dev: &mut Device)
        ensures
            appends_one(
                old(dev)@,
                final(dev)@,
                plain(Op::Delete { kind: ObjectKind::Renderbuffer, id: self.id() }),
            ),
    {
        dev.submit(Op::Delete { kind: ObjectKind::Renderbuffer, id: self.id }, Payload::Nothing);
    }

    /// Gives the object up: unbinds, then deletes. The wrapper is consumed,
    /// so the handle cannot be released a second time through it.
    pub fn release(self, dev: &mut Device)
        ensures
            appends(old(dev)@, final(dev)@, Self::release_commands(self.id())),
            !final(dev)@.state.has(ObjectKind::Renderbuffer, self.id()),
            final(dev)@.state.objects.len() == old(dev)@.state.objects.len(),
            final(dev)@.state.objects == released(
                old(dev)@.state.objects,
                ObjectKind::Renderbuffer,
                self.id(),
            ),
            final(dev)@.state.draws == old(dev)@.state.draws,
    {
        self.unbind(dev);
        self.delete(dev);
        proof {
            lemma_appends(old(dev)@, dev@, Self::release_commands(self.id()));
        }
    }

    /// Gives this renderbuffer a depth-and-stencil store of the given size,
    /// attaches it to `framebuffer`, and asks whether the framebuffer is now
    /// complete. Both stay bound. The answer to the question comes from the
    /// backend and is to be handed to [`framebuffer_status`].
    pub fn load(&self, dev: &mut Device, framebuffer: &FrameBuffer, size: (u32, u32))
        ensures
            appends(old(dev)@, final(dev)@, Self::load_commands(self.id(), framebuffer.id(), size)),
            final(dev)@.state.objects == attached_at(
                Self::sized(self.id(), old(dev)@.state.objects, size),
                framebuffer.id(),
                Attachment::DepthStencil,
                self.id(),
            ),
            final(dev)@.state.bind == (Bindings {
                framebuffer: framebuffer.id(),
                renderbuffer: self.id(),
                ..old(dev)@.state.bind
            }),
            final(dev)@.state.draws == old(dev)@.state.draws,
    {
        framebuffer.bind(dev);
        self.bind(dev);
        dev.submit(
            Op::RenderbufferStorage { width: size.0, height: size.1 },
            Payload::Nothing,
        );
        dev.submit(
            Op::FramebufferRenderbuffer {
                attachment: Attachment::DepthStencil,
                renderbuffer: self.id(),
            },
            Payload::Nothing,
        );
        dev.submit(Op::CheckFramebufferStatus, Payload::Nothing);
        proof {
            lemma_appends(old(dev)@, dev@, Self::load_commands(self.id(), framebuffer.id(), size));
        }
    }
}

/// Anything that can be made current on its own binding point, so that a
/// pass can treat its inputs alike.
pub trait ModelTexture {
    /// The command that makes the object current.
    spec fn bind_command(&self) -> CommandView;

    fn bind_texture(&self, dev: &mut Device)
        ensures
            appends_one(old(dev)@, final(dev)@, self.bind_command()),
    ;
}

impl ModelTexture for Texture {
    open spec fn bind_command(&self) -> CommandView {
        plain(Op::BindTexture { target: TextureTarget::Texture2D, id: self.id() })
    }

    fn bind_texture(&self, dev: &mut Device) {
        self.bind(dev);
    }
}

impl ModelTexture for Cubemap {
    open spec fn bind_command(&self) -> CommandView {
        plain(Op::BindTexture { target: TextureTarget::CubeMap, id: self.id() })
    }

    fn bind_texture(&self, dev: &mut Device) {
        self.bind(dev);
    }
}

impl ModelTexture for FrameBuffer {
    open spec fn bind_command(&self) -> CommandView {
        plain(Op::BindFramebuffer { id: self.id() })
    }

    fn bind_texture(&self, dev: &mut Device) {
        self.bind(dev);
    }
}

impl ModelTexture for RenderBuffer {
    open spec fn bind_command(&self) -> CommandView {
        plain(Op::BindRenderbuffer { id: self.id() })
    }

    fn bind_texture(&self, dev: &mut Device) {
        self.bind(dev);
    }
}

} // verus!
