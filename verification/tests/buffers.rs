use amtf_engine::buffers::{
    copied, framebuffer_status, interleave, Cubemap, FrameBuffer, IndexBuffer, ModelTexture,
    RenderBuffer, Texture, TextureError, Vertex, VertexArrayBuffer, VertexBuffer,
    FRAMEBUFFER_COMPLETE, VERTEX_STRIDE, VERTEX_WORDS, WORD_BYTES,
};
use amtf_engine::command::{
    Attachment, BufferTarget, BufferUsage, Capability, Command, Face, ImageTarget, InternalFormat,
    ObjectKind, Op, Payload, PixelFormat, PixelType, TextureParameter, TextureSetting,
    TextureTarget, TextureUnit,
};
use amtf_engine::device::Device;
use amtf_engine::math::{Scalar, Vector2, Vector3};
use amtf_engine::state::Object;

fn plain(op: Op) -> Command {
    Command { op, payload: Payload::Nothing }
}

fn scalar(value: f32) -> Scalar {
    Scalar::from_bits(value.to_bits())
}

fn vertex(seed: f32) -> Vertex {
    (
        Vector3::new(scalar(seed), scalar(seed + 1.0), scalar(seed + 2.0)),
        Vector3::new(scalar(seed + 3.0), scalar(seed + 4.0), scalar(seed + 5.0)),
        Vector3::new(scalar(seed + 6.0), scalar(seed + 7.0), scalar(seed + 8.0)),
        Vector2::new(scalar(seed + 9.0), scalar(seed + 10.0)),
    )
}

fn parameter(parameter: TextureParameter, value: TextureSetting) -> Command {
    plain(Op::TexParameter { target: TextureTarget::Texture2D, parameter, value })
}

#[test]
fn record_layout_constants() {
    assert_eq!(WORD_BYTES, 4);
    assert_eq!(VERTEX_WORDS, 11);
    assert_eq!(VERTEX_STRIDE, 44);
    assert_eq!(VERTEX_STRIDE, VERTEX_WORDS * WORD_BYTES);
}

#[test]
fn interleave_lays_out_eleven_words_per_vertex() {
    let words = interleave(&vec![vertex(0.0), vertex(100.0)]);
    assert_eq!(words.len(), 22);
    let numbers: Vec<f32> = words.iter().map(|word| f32::from_bits(*word)).collect();
    let expected: Vec<f32> =
        (0..11).map(|k| k as f32).chain((0..11).map(|k| 100.0 + k as f32)).collect();
    assert_eq!(numbers, expected);
}

#[test]
fn interleave_of_nothing_is_empty() {
    assert_eq!(interleave(&Vec::new()), Vec::<u32>::new());
}

#[test]
fn handles_are_given_out_in_order_of_creation() {
    let mut dev = Device::new();
    assert_eq!(dev.handles(), 0);
    let vbo = VertexBuffer::new(&mut dev);
    let ibo = IndexBuffer::new(&mut dev);
    let vao = VertexArrayBuffer::new(&mut dev);
    let texture = Texture::new(&mut dev);
    let cubemap = Cubemap::new(&mut dev);
    let framebuffer = FrameBuffer::new(&mut dev);
    let renderbuffer = RenderBuffer::new(&mut dev);
    assert_eq!(
        (
            vbo.id(),
            ibo.id(),
            vao.id(),
            texture.id(),
            cubemap.id(),
            framebuffer.id(),
            renderbuffer.id()
        ),
        (1, 2, 3, 4, 5, 6, 7)
    );
    assert_eq!(dev.handles(), 7);
    assert_eq!(
        dev.commands(),
        &vec![
            plain(Op::Create { kind: ObjectKind::Buffer, id: 1 }),
            plain(Op::Create { kind: ObjectKind::Buffer, id: 2 }),
            plain(Op::Create { kind: ObjectKind::VertexArray, id: 3 }),
            plain(Op::Create { kind: ObjectKind::Texture, id: 4 }),
            plain(Op::Create { kind: ObjectKind::Texture, id: 5 }),
            plain(Op::Create { kind: ObjectKind::Framebuffer, id: 6 }),
            plain(Op::Create { kind: ObjectKind::Renderbuffer, id: 7 }),
        ]
    );
    assert_eq!(dev.object(1), Object::Buffer { words: 0, usage: BufferUsage::StaticDraw });
    assert_eq!(dev.object(3), Object::VertexArray);
    assert_eq!(dev.object(7), Object::Renderbuffer { width: 0, height: 0 });
    assert_eq!(dev.object(8), Object::Released);
    assert_eq!(dev.object(0), Object::Released);
}

#[test]
fn vertex_buffer_set_binds_then_uploads_as_dynamic_data() {
    let mut dev = Device::new();
    let vbo = VertexBuffer::new(&mut dev);
    dev.take_commands();
    let data = vec![vertex(0.0), vertex(1.0), vertex(2.0)];
    vbo.set(&mut dev, &data);
    assert_eq!(
        dev.commands(),
        &vec![
            plain(Op::BindBuffer { target: BufferTarget::Array, id: 1 }),
            Command {
                op: Op::BufferData { target: BufferTarget::Array, usage: BufferUsage::DynamicDraw },
                payload: Payload::Words(interleave(&data)),
            },
        ]
    );
    assert_eq!(dev.object(1), Object::Buffer { words: 33, usage: BufferUsage::DynamicDraw });
    assert_eq!(dev.bindings().array_buffer, 1);
}

#[test]
fn index_buffer_set_binds_then_uploads_as_static_data() {
    let mut dev = Device::new();
    let ibo = IndexBuffer::new(&mut dev);
    dev.take_commands();
    ibo.set(&mut dev, &vec![0, 1, 2, 1, 2, 3]);
    assert_eq!(
        dev.commands(),
        &vec![
            plain(Op::BindBuffer { target: BufferTarget::ElementArray, id: 1 }),
            Command {
                op: Op::BufferData {
                    target: BufferTarget::ElementArray,
                    usage: BufferUsage::StaticDraw,
                },
                payload: Payload::Words(vec![0, 1, 2, 1, 2, 3]),
            },
        ]
    );
    assert_eq!(dev.object(1), Object::Buffer { words: 6, usage: BufferUsage::StaticDraw });
    assert_eq!(dev.bindings().element_buffer, 1);
}

#[test]
fn upload_goes_to_the_buffer_that_is_bound() {
    let mut dev = Device::new();
    let first = VertexBuffer::new(&mut dev);
    let second = VertexBuffer::new(&mut dev);
    first.bind(&mut dev);
    second.data(&mut dev, &vec![vertex(0.0)]);
    assert_eq!(
        dev.object(first.id()),
        Object::Buffer { words: 11, usage: BufferUsage::DynamicDraw }
    );
    assert_eq!(
        dev.object(second.id()),
        Object::Buffer { words: 0, usage: BufferUsage::StaticDraw }
    );
}

#[test]
fn upload_with_nothing_bound_changes_no_buffer() {
    let mut dev = Device::new();
    let ibo = IndexBuffer::new(&mut dev);
    ibo.data(&mut dev, &vec![1, 2, 3]);
    assert_eq!(dev.object(ibo.id()), Object::Buffer { words: 0, usage: BufferUsage::StaticDraw });
    ibo.bind(&mut dev);
    ibo.unbind(&mut dev);
    ibo.data(&mut dev, &vec![1, 2, 3]);
    assert_eq!(dev.object(ibo.id()), Object::Buffer { words: 0, usage: BufferUsage::StaticDraw });
}

#[test]
fn vertex_array_set_describes_four_attributes() {
    let mut dev = Device::new();
    let vao = VertexArrayBuffer::new(&mut dev);
    dev.take_commands();
    vao.set(&mut dev);
    let pointer = |index: u32, size: u32, offset: usize| {
        plain(Op::VertexAttribPointer { index, size, stride: 44, offset })
    };
    let enable = |index: u32| plain(Op::EnableVertexAttribArray { index });
    assert_eq!(
        dev.commands(),
        &vec![
            plain(Op::BindVertexArray { id: 1 }),
            pointer(0, 3, 0),
            enable(0),
            pointer(1, 3, 12),
            enable(1),
            pointer(2, 3, 24),
            enable(2),
            pointer(3, 2, 36),
            enable(3),
        ]
    );
    assert_eq!(dev.bindings().vertex_array, 1);
}

#[test]
fn release_unbinds_then_deletes() {
    let mut dev = Device::new();
    let vbo = VertexBuffer::new(&mut dev);
    let texture = Texture::new(&mut dev);
    let framebuffer = FrameBuffer::new(&mut dev);
    dev.take_commands();
    vbo.release(&mut dev);
    texture.release(&mut dev);
    framebuffer.release(&mut dev);
    assert_eq!(
        dev.commands(),
        &vec![
            plain(Op::BindBuffer { target: BufferTarget::Array, id: 0 }),
            plain(Op::Delete { kind: ObjectKind::Buffer, id: 1 }),
            plain(Op::BindTexture { target: TextureTarget::Texture2D, id: 0 }),
            plain(Op::Delete { kind: ObjectKind::Texture, id: 2 }),
            plain(Op::BindFramebuffer { id: 0 }),
            plain(Op::Delete { kind: ObjectKind::Framebuffer, id: 3 }),
        ]
    );
    assert_eq!(dev.object(1), Object::Released);
    assert_eq!(dev.object(2), Object::Released);
    assert_eq!(dev.object(3), Object::Released);
    assert_eq!(dev.handles(), 3);
}

#[test]
fn a_released_handle_is_never_given_out_again() {
    let mut dev = Device::new();
    let first = Texture::new(&mut dev);
    first.release(&mut dev);
    let second = Texture::new(&mut dev);
    assert_eq!(second.id(), 2);
    assert_eq!(dev.object(1), Object::Released);
}

#[test]
fn deleting_under_the_wrong_kind_changes_nothing() {
    let mut dev = Device::new();
    let texture = Texture::new(&mut dev);
    dev.submit(Op::Delete { kind: ObjectKind::Buffer, id: texture.id() }, Payload::Nothing);
    assert_eq!(
        dev.object(texture.id()),
        Object::Texture { width: 0, height: 0, format: InternalFormat::Rgba }
    );
}

#[test]
fn make_empty_gives_a_repeating_image_of_reals_with_mipmaps() {
    let mut dev = Device::new();
    let texture = Texture::new(&mut dev);
    dev.take_commands();
    texture.make_empty(&mut dev, (640, 480));
    assert_eq!(
        dev.commands(),
        &vec![
            plain(Op::BindTexture { target: TextureTarget::Texture2D, id: 1 }),
            parameter(TextureParameter::WrapS, TextureSetting::Repeat),
            parameter(TextureParameter::WrapT, TextureSetting::Repeat),
            parameter(TextureParameter::MinFilter, TextureSetting::Linear),
            parameter(TextureParameter::MagFilter, TextureSetting::Linear),
            plain(Op::TexImage2D {
                target: ImageTarget::Texture2D,
                internal_format: InternalFormat::Rgba16,
                width: 640,
                height: 480,
                format: PixelFormat::Rgba,
                data_type: PixelType::Real,
            }),
            plain(Op::GenerateMipmap { target: TextureTarget::Texture2D }),
        ]
    );
    assert_eq!(
        dev.object(1),
        Object::Texture { width: 640, height: 480, format: InternalFormat::Rgba16 }
    );
}

#[test]
fn make_empty_depth_buffer_gives_a_clamped_depth_image() {
    let mut dev = Device::new();
    let texture = Texture::new(&mut dev);
    dev.take_commands();
    texture.make_empty_depth_buffer(&mut dev, (4096, 4096));
    assert_eq!(
        dev.commands(),
        &vec![
            plain(Op::BindTexture { target: TextureTarget::Texture2D, id: 1 }),
            parameter(TextureParameter::WrapS, TextureSetting::ClampToEdge),
            parameter(TextureParameter::WrapT, TextureSetting::ClampToEdge),
            parameter(TextureParameter::MinFilter, TextureSetting::Linear),
            parameter(TextureParameter::MagFilter, TextureSetting::Linear),
            plain(Op::TexImage2D {
                target: ImageTarget::Texture2D,
                internal_format: InternalFormat::DepthComponent,
                width: 4096,
                height: 4096,
                format: PixelFormat::DepthComponent,
                data_type: PixelType::Real,
            }),
        ]
    );
    assert_eq!(
        dev.object(1),
        Object::Texture { width: 4096, height: 4096, format: InternalFormat::DepthComponent }
    );
}

#[test]
fn image_lands_in_the_texture_of_the_active_unit() {
    let mut dev = Device::new();
    let first = Texture::new(&mut dev);
    let second = Texture::new(&mut dev);
    first.bind(&mut dev);
    dev.submit(Op::ActiveTexture { unit: TextureUnit::Unit1 }, Payload::Nothing);
    second.make_empty(&mut dev, (8, 4));
    assert_eq!(dev.bindings().texture0, first.id());
    assert_eq!(dev.bindings().texture1, second.id());
    assert_eq!(
        dev.object(first.id()),
        Object::Texture { width: 0, height: 0, format: InternalFormat::Rgba }
    );
    assert_eq!(
        dev.object(second.id()),
        Object::Texture { width: 8, height: 4, format: InternalFormat::Rgba16 }
    );
}

#[test]
fn load_hands_the_rows_over_from_the_bottom_up() {
    let mut dev = Device::new();
    let texture = Texture::new(&mut dev);
    dev.take_commands();
    let top_down: Vec<u8> = (1..=24).collect();
    assert_eq!(texture.load(&mut dev, 2, 3, top_down), Ok(()));
    let bottom_up: Vec<u8> = (17..=24).chain(9..=16).chain(1..=8).collect();
    assert_eq!(
        dev.commands(),
        &vec![
            plain(Op::BindTexture { target: TextureTarget::Texture2D, id: 1 }),
            parameter(TextureParameter::WrapS, TextureSetting::Repeat),
            parameter(TextureParameter::WrapT, TextureSetting::Repeat),
            parameter(TextureParameter::MinFilter, TextureSetting::Linear),
            parameter(TextureParameter::MagFilter, TextureSetting::Linear),
            Command {
                op: Op::TexImage2D {
                    target: ImageTarget::Texture2D,
                    internal_format: InternalFormat::Rgba,
                    width: 2,
                    height: 3,
                    format: PixelFormat::Rgba,
                    data_type: PixelType::UnsignedByte,
                },
                payload: Payload::Bytes(bottom_up),
            },
            plain(Op::GenerateMipmap { target: TextureTarget::Texture2D }),
        ]
    );
    assert_eq!(
        dev.object(1),
        Object::Texture { width: 2, height: 3, format: InternalFormat::Rgba }
    );
}

#[test]
fn load_of_a_single_row_keeps_it() {
    let mut dev = Device::new();
    let texture = Texture::new(&mut dev);
    assert_eq!(texture.load(&mut dev, 2, 1, vec![1, 2, 3, 4, 5, 6, 7, 8]), Ok(()));
    let image = &dev.commands()[6];
    assert_eq!(image.payload, Payload::Bytes(vec![1, 2, 3, 4, 5, 6, 7, 8]));
}

#[test]
fn load_of_an_image_without_pixels() {
    let mut dev = Device::new();
    let texture = Texture::new(&mut dev);
    assert_eq!(texture.load(&mut dev, 0, 5, Vec::new()), Ok(()));
    assert_eq!(dev.commands()[6].payload, Payload::Bytes(Vec::new()));
}

#[test]
fn load_turns_away_data_of_the_wrong_length() {
    let mut dev = Device::new();
    let texture = Texture::new(&mut dev);
    dev.take_commands();
    assert_eq!(texture.load(&mut dev, 2, 2, vec![0; 15]), Err(TextureError::PixelCount));
    assert_eq!(texture.load(&mut dev, 2, 2, vec![0; 17]), Err(TextureError::PixelCount));
    assert_eq!(texture.load(&mut dev, 2, 2, vec![0; 20]), Err(TextureError::PixelCount));
    assert_eq!(
        texture.load(&mut dev, u32::MAX, u32::MAX, vec![0; 4]),
        Err(TextureError::PixelCount)
    );
    assert!(dev.commands().is_empty());
    assert_eq!(
        dev.object(1),
        Object::Texture { width: 0, height: 0, format: InternalFormat::Rgba }
    );
}

#[test]
fn cubemap_depth_buffer_specifies_six_faces() {
    let mut dev = Device::new();
    let cubemap = Cubemap::new(&mut dev);
    dev.take_commands();
    cubemap.make_empty_depth_buffer(&mut dev, (512, 512));
    let face = |face: u32| {
        plain(Op::TexImage2D {
            target: ImageTarget::CubeFace { face },
            internal_format: InternalFormat::DepthComponent,
            width: 512,
            height: 512,
            format: PixelFormat::DepthComponent,
            data_type: PixelType::Real,
        })
    };
    assert_eq!(
        dev.commands(),
        &vec![
            plain(Op::BindTexture { target: TextureTarget::CubeMap, id: 1 }),
            face(0),
            face(1),
            face(2),
            face(3),
            face(4),
            face(5),
            parameter(TextureParameter::WrapS, TextureSetting::ClampToEdge),
            parameter(TextureParameter::WrapT, TextureSetting::ClampToEdge),
            parameter(TextureParameter::WrapR, TextureSetting::ClampToEdge),
            parameter(TextureParameter::MinFilter, TextureSetting::Nearest),
            parameter(TextureParameter::MagFilter, TextureSetting::Nearest),
        ]
    );
    assert_eq!(
        dev.object(1),
        Object::Texture { width: 512, height: 512, format: InternalFormat::DepthComponent }
    );
    assert_eq!(dev.bindings().cube_map, 1);
}

#[test]
fn framebuffer_load_attaches_to_whatever_is_bound() {
    let mut dev = Device::new();
    let bound = FrameBuffer::new(&mut dev);
    let other = FrameBuffer::new(&mut dev);
    let texture = Texture::new(&mut dev);
    bound.bind(&mut dev);
    dev.take_commands();
    other.load(&mut dev, &texture);
    assert_eq!(
        dev.commands(),
        &vec![
            plain(Op::BindTexture { target: TextureTarget::Texture2D, id: 3 }),
            plain(Op::FramebufferTexture2D { attachment: Attachment::Color0, texture: 3 }),
        ]
    );
    assert_eq!(
        dev.object(bound.id()),
        Object::Framebuffer { color0: 3, color1: 0, color2: 0, depth: 0, depth_stencil: 0 }
    );
    assert_eq!(
        dev.object(other.id()),
        Object::Framebuffer { color0: 0, color1: 0, color2: 0, depth: 0, depth_stencil: 0 }
    );
}

#[test]
fn load_depth_texture_makes_a_depth_only_framebuffer() {
    let mut dev = Device::new();
    let framebuffer = FrameBuffer::new(&mut dev);
    let texture = Texture::new(&mut dev);
    dev.take_commands();
    framebuffer.load_depth_texture(&mut dev, &texture);
    assert_eq!(
        dev.commands(),
        &vec![
            plain(Op::BindTexture { target: TextureTarget::Texture2D, id: 2 }),
            plain(Op::BindFramebuffer { id: 1 }),
            plain(Op::FramebufferTexture2D { attachment: Attachment::Depth, texture: 2 }),
            plain(Op::DrawBufferNone),
            plain(Op::ReadBufferNone),
            plain(Op::BindFramebuffer { id: 0 }),
        ]
    );
    assert_eq!(
        dev.object(1),
        Object::Framebuffer { color0: 0, color1: 0, color2: 0, depth: 2, depth_stencil: 0 }
    );
    assert_eq!(dev.bindings().framebuffer, 0);
}

#[test]
fn load_depth_cubemap_attaches_the_layered_texture() {
    let mut dev = Device::new();
    let framebuffer = FrameBuffer::new(&mut dev);
    let cubemap = Cubemap::new(&mut dev);
    dev.take_commands();
    framebuffer.load_depth_cubemap(&mut dev, &cubemap);
    assert_eq!(
        dev.commands(),
        &vec![
            plain(Op::BindTexture { target: TextureTarget::CubeMap, id: 2 }),
            plain(Op::BindFramebuffer { id: 1 }),
            plain(Op::FramebufferTexture { attachment: Attachment::Depth, texture: 2 }),
            plain(Op::DrawBufferNone),
            plain(Op::ReadBufferNone),
            plain(Op::BindFramebuffer { id: 0 }),
        ]
    );
    assert_eq!(
        dev.object(1),
        Object::Framebuffer { color0: 0, color1: 0, color2: 0, depth: 2, depth_stencil: 0 }
    );
}

#[test]
fn renderbuffer_load_stores_attaches_and_asks_for_completeness() {
    let mut dev = Device::new();
    let framebuffer = FrameBuffer::new(&mut dev);
    let renderbuffer = RenderBuffer::new(&mut dev);
    dev.take_commands();
    renderbuffer.load(&mut dev, &framebuffer, (800, 600));
    assert_eq!(
        dev.commands(),
        &vec![
            plain(Op::BindFramebuffer { id: 1 }),
            plain(Op::BindRenderbuffer { id: 2 }),
            plain(Op::RenderbufferStorage { width: 800, height: 600 }),
            plain(Op::FramebufferRenderbuffer {
                attachment: Attachment::DepthStencil,
                renderbuffer: 2
            }),
            plain(Op::CheckFramebufferStatus),
        ]
    );
    assert_eq!(dev.object(2), Object::Renderbuffer { width: 800, height: 600 });
    assert_eq!(
        dev.object(1),
        Object::Framebuffer { color0: 0, color1: 0, color2: 0, depth: 0, depth_stencil: 2 }
    );
    assert_eq!(dev.bindings().framebuffer, 1);
    assert_eq!(dev.bindings().renderbuffer, 2);
}

#[test]
fn only_the_complete_status_passes() {
    assert_eq!(FRAMEBUFFER_COMPLETE, 0x8CD5);
    assert_eq!(framebuffer_status(FRAMEBUFFER_COMPLETE), Ok(()));
    let incomplete = Err("ERROR::FRAMEBUFFER:: Framebuffer is not complete!".to_owned());
    assert_eq!(framebuffer_status(0), incomplete);
    assert_eq!(framebuffer_status(0x8CD6), incomplete);
    assert_eq!(framebuffer_status(u32::MAX), incomplete);
}

#[test]
fn bind_texture_binds_each_kind_to_its_own_target() {
    let mut dev = Device::new();
    let texture = Texture::new(&mut dev);
    let cubemap = Cubemap::new(&mut dev);
    let framebuffer = FrameBuffer::new(&mut dev);
    let renderbuffer = RenderBuffer::new(&mut dev);
    dev.take_commands();
    texture.bind_texture(&mut dev);
    cubemap.bind_texture(&mut dev);
    framebuffer.bind_texture(&mut dev);
    renderbuffer.bind_texture(&mut dev);
    assert_eq!(
        dev.commands(),
        &vec![
            plain(Op::BindTexture { target: TextureTarget::Texture2D, id: 1 }),
            plain(Op::BindTexture { target: TextureTarget::CubeMap, id: 2 }),
            plain(Op::BindFramebuffer { id: 3 }),
            plain(Op::BindRenderbuffer { id: 4 }),
        ]
    );
}

#[test]
fn taking_the_commands_empties_the_queue_and_keeps_the_model() {
    let mut dev = Device::new();
    let texture = Texture::new(&mut dev);
    texture.make_empty(&mut dev, (2, 2));
    let taken = dev.take_commands();
    assert_eq!(taken.len(), 8);
    assert!(dev.commands().is_empty());
    assert_eq!(
        dev.object(1),
        Object::Texture { width: 2, height: 2, format: InternalFormat::Rgba16 }
    );
    assert_eq!(dev.bindings().texture0, 1);
    assert_eq!(dev.handles(), 1);
}

#[test]
fn room_for_handles() {
    let dev = Device::new();
    assert!(dev.has_room(0));
    assert!(dev.has_room(7));
    assert!(dev.has_room(u32::MAX));
    let mut dev = Device::new();
    let _ = Texture::new(&mut dev);
    assert!(dev.has_room(u32::MAX - 1));
    assert!(!dev.has_room(u32::MAX));
}

#[test]
fn every_kind_of_owner_binds_unbinds_and_deletes_on_its_own_target() {
    let mut dev = Device::new();
    let ibo = IndexBuffer::new(&mut dev);
    let vao = VertexArrayBuffer::new(&mut dev);
    let cubemap = Cubemap::new(&mut dev);
    let renderbuffer = RenderBuffer::new(&mut dev);
    let vbo = VertexBuffer::new(&mut dev);
    dev.take_commands();
    ibo.bind(&mut dev);
    ibo.unbind(&mut dev);
    ibo.delete(&mut dev);
    vao.bind(&mut dev);
    vao.unbind(&mut dev);
    vao.delete(&mut dev);
    cubemap.bind(&mut dev);
    cubemap.unbind(&mut dev);
    cubemap.delete(&mut dev);
    renderbuffer.bind(&mut dev);
    renderbuffer.unbind(&mut dev);
    renderbuffer.delete(&mut dev);
    vbo.bind(&mut dev);
    vbo.unbind(&mut dev);
    vbo.delete(&mut dev);
    assert_eq!(
        dev.commands(),
        &vec![
            plain(Op::BindBuffer { target: BufferTarget::ElementArray, id: 1 }),
            plain(Op::BindBuffer { target: BufferTarget::ElementArray, id: 0 }),
            plain(Op::Delete { kind: ObjectKind::Buffer, id: 1 }),
            plain(Op::BindVertexArray { id: 2 }),
            plain(Op::BindVertexArray { id: 0 }),
            plain(Op::Delete { kind: ObjectKind::VertexArray, id: 2 }),
            plain(Op::BindTexture { target: TextureTarget::CubeMap, id: 3 }),
            plain(Op::BindTexture { target: TextureTarget::CubeMap, id: 0 }),
            plain(Op::Delete { kind: ObjectKind::Texture, id: 3 }),
            plain(Op::BindRenderbuffer { id: 4 }),
            plain(Op::BindRenderbuffer { id: 0 }),
            plain(Op::Delete { kind: ObjectKind::Renderbuffer, id: 4 }),
            plain(Op::BindBuffer { target: BufferTarget::Array, id: 5 }),
            plain(Op::BindBuffer { target: BufferTarget::Array, id: 0 }),
            plain(Op::Delete { kind: ObjectKind::Buffer, id: 5 }),
        ]
    );
    assert!((1..=5).all(|id| dev.object(id) == Object::Released));
}

#[test]
fn the_other_owners_release_by_unbinding_then_deleting_too() {
    let mut dev = Device::new();
    let ibo = IndexBuffer::new(&mut dev);
    let vao = VertexArrayBuffer::new(&mut dev);
    let cubemap = Cubemap::new(&mut dev);
    let renderbuffer = RenderBuffer::new(&mut dev);
    dev.take_commands();
    ibo.release(&mut dev);
    vao.release(&mut dev);
    cubemap.release(&mut dev);
    renderbuffer.release(&mut dev);
    assert_eq!(
        dev.commands(),
        &vec![
            plain(Op::BindBuffer { target: BufferTarget::ElementArray, id: 0 }),
            plain(Op::Delete { kind: ObjectKind::Buffer, id: 1 }),
            plain(Op::BindVertexArray { id: 0 }),
            plain(Op::Delete { kind: ObjectKind::VertexArray, id: 2 }),
            plain(Op::BindTexture { target: TextureTarget::CubeMap, id: 0 }),
            plain(Op::Delete { kind: ObjectKind::Texture, id: 3 }),
            plain(Op::BindRenderbuffer { id: 0 }),
            plain(Op::Delete { kind: ObjectKind::Renderbuffer, id: 4 }),
        ]
    );
}

#[test]
fn deleting_twice_changes_nothing_the_second_time() {
    let mut dev = Device::new();
    let texture = Texture::new(&mut dev);
    texture.delete(&mut dev);
    assert_eq!(dev.object(1), Object::Released);
    texture.delete(&mut dev);
    assert_eq!(dev.object(1), Object::Released);
    assert_eq!(dev.commands().len(), 3);
}

#[test]
fn create_gives_out_the_next_handle_and_records_it() {
    let mut dev = Device::new();
    assert_eq!(dev.create(ObjectKind::Renderbuffer), 1);
    assert_eq!(dev.create(ObjectKind::Program), 2);
    assert_eq!(
        dev.commands(),
        &vec![
            plain(Op::Create { kind: ObjectKind::Renderbuffer, id: 1 }),
            plain(Op::Create { kind: ObjectKind::Program, id: 2 }),
        ]
    );
    assert_eq!(dev.object(2), Object::Program);
}

#[test]
fn a_creation_out_of_turn_is_recorded_and_makes_no_object() {
    let mut dev = Device::new();
    dev.submit(Op::Create { kind: ObjectKind::Texture, id: 5 }, Payload::Nothing);
    dev.submit(Op::Create { kind: ObjectKind::Texture, id: 0 }, Payload::Nothing);
    assert_eq!(dev.handles(), 0);
    assert_eq!(dev.commands().len(), 2);
    dev.submit(Op::Create { kind: ObjectKind::Texture, id: 1 }, Payload::Nothing);
    assert_eq!(dev.handles(), 1);
}

#[test]
fn a_payload_counts_its_words() {
    assert_eq!(Payload::Nothing.words(), 0);
    assert_eq!(Payload::Words(vec![1, 2, 3]).words(), 3);
    assert_eq!(Payload::Bytes(vec![1, 2, 3, 4]).words(), 0);
    assert_eq!(Payload::Text("four".to_owned()).words(), 0);
}

#[test]
fn a_copy_holds_what_was_copied() {
    assert_eq!(copied(&vec![3u32, 1, 2]), vec![3, 1, 2]);
    assert_eq!(copied(&Vec::<u32>::new()), Vec::<u32>::new());
    assert_eq!(copied(&vec![vertex(1.0), vertex(2.0)]), vec![vertex(1.0), vertex(2.0)]);
}

#[test]
fn switches_and_viewport_are_followed() {
    let mut dev = Device::new();
    let fresh = dev.bindings();
    assert!(!fresh.depth_test && !fresh.cull_face && !fresh.blend);
    assert_eq!((fresh.viewport_width, fresh.viewport_height), (0, 0));
    dev.submit(Op::Enable { capability: Capability::Blend }, Payload::Nothing);
    dev.submit(Op::Viewport { width: 640, height: 480 }, Payload::Nothing);
    dev.submit(Op::CullFace { face: Face::Front }, Payload::Nothing);
    let bindings = dev.bindings();
    assert!(bindings.blend && !bindings.depth_test);
    assert_eq!((bindings.viewport_width, bindings.viewport_height), (640, 480));
    assert_eq!(bindings.culled_face, Face::Front);
    dev.submit(Op::Disable { capability: Capability::Blend }, Payload::Nothing);
    assert!(!dev.bindings().blend);
}
