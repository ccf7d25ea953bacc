use amtf_engine::buffers::{framebuffer_status, FRAMEBUFFER_COMPLETE};
use amtf_engine::command::{
    Attachment, Command, ImageTarget, InternalFormat, ObjectKind, Op, Payload, PixelFormat,
    PixelType, TextureParameter, TextureSetting, TextureTarget,
};
use amtf_engine::device::Device;
use amtf_engine::frame::RenderTargets;
use amtf_engine::state::Object;
use amtf_engine::targets::{
    create_framebuffer, create_framebuffer_depth_cubemap, create_framebuffer_depthbuffer,
    create_gbuffer, remake_framebuffer, remake_gbuffer,
};

fn plain(op: Op) -> Command {
    Command { op, payload: Payload::Nothing }
}

fn image(format: InternalFormat, width: u32, height: u32, data_type: PixelType) -> Command {
    plain(Op::TexImage2D {
        target: ImageTarget::Texture2D,
        internal_format: format,
        width,
        height,
        format: PixelFormat::Rgba,
        data_type,
    })
}

fn bind(id: u32) -> Command {
    plain(Op::BindTexture { target: TextureTarget::Texture2D, id })
}

fn nearest(parameter: TextureParameter) -> Command {
    plain(Op::TexParameter {
        target: TextureTarget::Texture2D,
        parameter,
        value: TextureSetting::Nearest,
    })
}

fn texture(width: u32, height: u32, format: InternalFormat) -> Object {
    Object::Texture { width, height, format }
}

#[test]
fn gbuffer_has_three_colour_targets_and_a_depth_stencil_store() {
    let mut dev = Device::new();
    let (g_position, g_normal, g_albedo_spec, gbuffer, g_render_buffer) =
        create_gbuffer(&mut dev, (800, 600));
    assert_eq!(
        (gbuffer.id(), g_position.id(), g_normal.id(), g_albedo_spec.id(), g_render_buffer.id()),
        (1, 2, 3, 4, 5)
    );
    let target = |id: u32, format: InternalFormat, attachment: Attachment| {
        vec![
            plain(Op::Create { kind: ObjectKind::Texture, id }),
            bind(id),
            image(format, 800, 600, PixelType::Real),
            nearest(TextureParameter::MinFilter),
            nearest(TextureParameter::MagFilter),
            plain(Op::FramebufferTexture2D { attachment, texture: id }),
        ]
    };
    let mut expected = vec![
        plain(Op::Create { kind: ObjectKind::Framebuffer, id: 1 }),
        plain(Op::BindFramebuffer { id: 1 }),
    ];
    expected.extend(target(2, InternalFormat::Rgba16, Attachment::Color0));
    expected.extend(target(3, InternalFormat::Rgba16, Attachment::Color1));
    expected.extend(target(4, InternalFormat::Rgba, Attachment::Color2));
    expected.extend(vec![
        plain(Op::DrawBuffers { count: 3 }),
        plain(Op::Create { kind: ObjectKind::Renderbuffer, id: 5 }),
        plain(Op::BindFramebuffer { id: 1 }),
        plain(Op::BindRenderbuffer { id: 5 }),
        plain(Op::RenderbufferStorage { width: 800, height: 600 }),
        plain(Op::FramebufferRenderbuffer {
            attachment: Attachment::DepthStencil,
            renderbuffer: 5,
        }),
        plain(Op::CheckFramebufferStatus),
    ]);
    assert_eq!(dev.commands(), &expected);
    assert_eq!(
        dev.object(1),
        Object::Framebuffer { color0: 2, color1: 3, color2: 4, depth: 0, depth_stencil: 5 }
    );
    assert_eq!(dev.object(2), texture(800, 600, InternalFormat::Rgba16));
    assert_eq!(dev.object(3), texture(800, 600, InternalFormat::Rgba16));
    assert_eq!(dev.object(4), texture(800, 600, InternalFormat::Rgba));
    assert_eq!(dev.object(5), Object::Renderbuffer { width: 800, height: 600 });
    assert_eq!(dev.bindings().framebuffer, 1);
}

#[test]
fn resizing_the_gbuffer_keeps_every_handle_and_attachment() {
    let mut dev = Device::new();
    let (g_position, g_normal, g_albedo_spec, gbuffer, g_render_buffer) =
        create_gbuffer(&mut dev, (800, 600));
    let handles =
        (gbuffer.id(), g_position.id(), g_normal.id(), g_albedo_spec.id(), g_render_buffer.id());
    let attachments = dev.object(gbuffer.id());
    dev.take_commands();
    remake_gbuffer(
        &mut dev,
        &gbuffer,
        &g_position,
        &g_normal,
        &g_albedo_spec,
        &g_render_buffer,
        (1920, 1080),
    );
    assert_eq!(
        (gbuffer.id(), g_position.id(), g_normal.id(), g_albedo_spec.id(), g_render_buffer.id()),
        handles
    );
    assert_eq!(dev.object(gbuffer.id()), attachments);
    assert_eq!(dev.object(g_position.id()), texture(1920, 1080, InternalFormat::Rgba16));
    assert_eq!(dev.object(g_normal.id()), texture(1920, 1080, InternalFormat::Rgba16));
    assert_eq!(dev.object(g_albedo_spec.id()), texture(1920, 1080, InternalFormat::Rgba));
    assert_eq!(
        dev.object(g_render_buffer.id()),
        Object::Renderbuffer { width: 1920, height: 1080 }
    );
    assert_eq!(dev.handles(), 5);
    assert_eq!(
        dev.commands(),
        &vec![
            plain(Op::BindFramebuffer { id: 1 }),
            bind(2),
            image(InternalFormat::Rgba16, 1920, 1080, PixelType::Real),
            bind(3),
            image(InternalFormat::Rgba16, 1920, 1080, PixelType::Real),
            bind(4),
            image(InternalFormat::Rgba, 1920, 1080, PixelType::Real),
            plain(Op::BindRenderbuffer { id: 5 }),
            plain(Op::RenderbufferStorage { width: 1920, height: 1080 }),
        ]
    );
    // The verdict on completeness is the backend's; a complete status passes.
    assert_eq!(framebuffer_status(FRAMEBUFFER_COMPLETE), Ok(()));
}

#[test]
fn resizing_creates_and_deletes_nothing() {
    let mut dev = Device::new();
    let (g_position, g_normal, g_albedo_spec, gbuffer, g_render_buffer) =
        create_gbuffer(&mut dev, (800, 600));
    dev.take_commands();
    remake_gbuffer(
        &mut dev,
        &gbuffer,
        &g_position,
        &g_normal,
        &g_albedo_spec,
        &g_render_buffer,
        (1920, 1080),
    );
    for command in dev.commands() {
        assert!(!matches!(command.op, Op::Create { .. } | Op::Delete { .. }));
        assert!(!matches!(
            command.op,
            Op::FramebufferTexture2D { .. } | Op::FramebufferRenderbuffer { .. }
        ));
    }
}

#[test]
fn colour_target_is_a_framebuffer_with_one_empty_texture_of_reals() {
    let mut dev = Device::new();
    let (light_texture, light_buffer) = create_framebuffer(&mut dev, (800, 600));
    assert_eq!((light_buffer.id(), light_texture.id()), (1, 2));
    assert_eq!(dev.commands().len(), 12);
    assert_eq!(dev.commands()[0], plain(Op::Create { kind: ObjectKind::Framebuffer, id: 1 }));
    assert_eq!(dev.commands()[1], plain(Op::BindFramebuffer { id: 1 }));
    assert_eq!(dev.commands()[2], plain(Op::Create { kind: ObjectKind::Texture, id: 2 }));
    assert_eq!(dev.commands()[8], image(InternalFormat::Rgba16, 800, 600, PixelType::Real));
    assert_eq!(
        dev.commands()[11],
        plain(Op::FramebufferTexture2D { attachment: Attachment::Color0, texture: 2 })
    );
    assert_eq!(
        dev.object(1),
        Object::Framebuffer { color0: 2, color1: 0, color2: 0, depth: 0, depth_stencil: 0 }
    );
    assert_eq!(dev.object(2), texture(800, 600, InternalFormat::Rgba16));
    assert_eq!(dev.bindings().framebuffer, 1);
}

#[test]
fn resizing_a_colour_target_respecifies_its_image() {
    let mut dev = Device::new();
    let (light_texture, light_buffer) = create_framebuffer(&mut dev, (800, 600));
    dev.take_commands();
    remake_framebuffer(&mut dev, &light_buffer, &light_texture, (1920, 1080));
    assert_eq!(
        dev.commands(),
        &vec![
            plain(Op::BindFramebuffer { id: 1 }),
            bind(2),
            image(InternalFormat::Rgba16, 1920, 1080, PixelType::Real),
        ]
    );
    assert_eq!(dev.object(2), texture(1920, 1080, InternalFormat::Rgba16));
    assert_eq!(
        dev.object(1),
        Object::Framebuffer { color0: 2, color1: 0, color2: 0, depth: 0, depth_stencil: 0 }
    );
}

#[test]
fn shadow_map_is_a_depth_only_framebuffer() {
    let mut dev = Device::new();
    let (shadow_texture, shadow_framebuffer) =
        create_framebuffer_depthbuffer(&mut dev, (4096, 4096));
    assert_eq!((shadow_framebuffer.id(), shadow_texture.id()), (1, 2));
    assert_eq!(dev.commands().len(), 14);
    assert_eq!(dev.commands()[0], plain(Op::Create { kind: ObjectKind::Framebuffer, id: 1 }));
    assert_eq!(dev.commands()[1], plain(Op::Create { kind: ObjectKind::Texture, id: 2 }));
    assert_eq!(dev.commands()[11], plain(Op::DrawBufferNone));
    assert_eq!(dev.commands()[12], plain(Op::ReadBufferNone));
    assert_eq!(dev.commands()[13], plain(Op::BindFramebuffer { id: 0 }));
    assert_eq!(
        dev.object(1),
        Object::Framebuffer { color0: 0, color1: 0, color2: 0, depth: 2, depth_stencil: 0 }
    );
    assert_eq!(dev.object(2), texture(4096, 4096, InternalFormat::DepthComponent));
    assert_eq!(dev.bindings().framebuffer, 0);
}

#[test]
fn omnidirectional_shadow_map_has_a_cube_of_depth_images() {
    let mut dev = Device::new();
    let (cubemap, framebuffer) = create_framebuffer_depth_cubemap(&mut dev, (256, 256));
    assert_eq!((framebuffer.id(), cubemap.id()), (1, 2));
    assert_eq!(dev.commands().len(), 2 + 12 + 6);
    assert_eq!(
        dev.commands()[16],
        plain(Op::FramebufferTexture { attachment: Attachment::Depth, texture: 2 })
    );
    assert_eq!(
        dev.object(1),
        Object::Framebuffer { color0: 0, color1: 0, color2: 0, depth: 2, depth_stencil: 0 }
    );
    assert_eq!(dev.object(2), texture(256, 256, InternalFormat::DepthComponent));
}

#[test]
fn render_targets_follow_the_surface() {
    let mut dev = Device::new();
    let mut targets = RenderTargets::new(&mut dev, (800, 600));
    assert_eq!(targets.size, (800, 600));
    assert_eq!(dev.handles(), 7);
    let handles = (
        targets.gbuffer.id(),
        targets.g_position.id(),
        targets.g_normal.id(),
        targets.g_albedo_spec.id(),
        targets.g_render_buffer.id(),
        targets.light_buffer.id(),
        targets.light_texture.id(),
    );
    assert_eq!(handles, (1, 2, 3, 4, 5, 6, 7));
    dev.take_commands();

    targets.resize(&mut dev, (800, 600));
    assert!(dev.commands().is_empty());

    targets.resize(&mut dev, (1920, 1080));
    assert_eq!(targets.size, (1920, 1080));
    assert_eq!(dev.commands().len(), 9 + 3);
    assert_eq!(
        (
            targets.gbuffer.id(),
            targets.g_position.id(),
            targets.g_normal.id(),
            targets.g_albedo_spec.id(),
            targets.g_render_buffer.id(),
            targets.light_buffer.id(),
            targets.light_texture.id(),
        ),
        handles
    );
    assert_eq!(dev.handles(), 7);
    assert_eq!(dev.object(2), texture(1920, 1080, InternalFormat::Rgba16));
    assert_eq!(dev.object(4), texture(1920, 1080, InternalFormat::Rgba));
    assert_eq!(dev.object(5), Object::Renderbuffer { width: 1920, height: 1080 });
    assert_eq!(dev.object(7), texture(1920, 1080, InternalFormat::Rgba16));
    assert_eq!(
        dev.object(1),
        Object::Framebuffer { color0: 2, color1: 3, color2: 4, depth: 0, depth_stencil: 5 }
    );
    assert_eq!(
        dev.object(6),
        Object::Framebuffer { color0: 7, color1: 0, color2: 0, depth: 0, depth_stencil: 0 }
    );
}

#[test]
fn a_change_of_height_alone_is_a_resize() {
    let mut dev = Device::new();
    let mut targets = RenderTargets::new(&mut dev, (800, 600));
    dev.take_commands();
    targets.resize(&mut dev, (800, 601));
    assert_eq!(dev.commands().len(), 12);
    assert_eq!(dev.object(2), texture(800, 601, InternalFormat::Rgba16));
}
