//! Render targets: the G-buffer, the light accumulation buffer and the shadow
//! maps, and how they follow the size of the output surface.
//!
//! A target is made once. When the surface changes size its images are
//! specified anew under the same handles; no framebuffer is ever destroyed
//! and made again, so whatever refers to an attachment stays valid.

use vstd::prelude::*;
use crate::buffers::{color_image, Cubemap, FrameBuffer, RenderBuffer, Texture};
use crate::command::{
    plain, Attachment, CommandView, ImageTarget, InternalFormat, ObjectKind, Op, Payload,
    PixelFormat, PixelType, TextureParameter, TextureSetting, TextureTarget,
};
use crate::device::{appends, lemma_appends, Device};
use crate::state::{keeps, GlState, Object};

verus! {

/// Whether `framebuffer` is a colour target in `s` in which light can be
/// added up: a live framebuffer whose one attachment is the live RGBA texture
/// `texture` of 16-bit reals and of `size`, as its first colour target.
pub open spec fn is_color_target(
    s: GlState,
    framebuffer: u32,
    texture: u32,
    size: (u32, u32),
) -> bool {
    &&& s.object(framebuffer) == (Object::Framebuffer {
        color0: texture,
        color1: 0,
        color2: 0,
        depth: 0,
        depth_stencil: 0,
    })
    &&& s.object(texture) == (Object::Texture {
        width: size.0,
        height: size.1,
        format: InternalFormat::Rgba16,
    })
}

/// Whether `framebuffer` is a shadow map in `s`: a live framebuffer whose
/// depth attachment is the live depth texture `texture` of `size`.
pub open spec fn is_depth_target(
    s: GlState,
    framebuffer: u32,
    texture: u32,
    size: (u32, u32),
) -> bool {
    &&& s.has(ObjectKind::Framebuffer, framebuffer)
    &&& s.attached(framebuffer, Attachment::Depth) == texture
    &&& s.object(texture) == (Object::Texture {
        width: size.0,
        height: size.1,
        format: InternalFormat::DepthComponent,
    })
}

/// Whether `gbuffer` is a G-buffer in `s`: a live framebuffer whose three
/// colour attachments are, in order, the world position and the normal as
/// 16-bit real RGBA and albedo with specular intensity as 8-bit RGBA, and
/// whose depth-and-stencil attachment is a renderbuffer, all of `size`.
pub open spec fn is_gbuffer(
    s: GlState,
    gbuffer: u32,
    position: u32,
    normal: u32,
    albedo_spec: u32,
    depth: u32,
    size: (u32, u32),
) -> bool {
    &&& s.has(ObjectKind::Framebuffer, gbuffer)
    &&& s.attached(gbuffer, Attachment::Color0) == position
    &&& s.attached(gbuffer, Attachment::Color1) == normal
    &&& s.attached(gbuffer, Attachment::Color2) == albedo_spec
    &&& s.attached(gbuffer, Attachment::DepthStencil) == depth
    &&& s.object(position) == (Object::Texture {
        width: size.0,
        height: size.1,
        format: InternalFormat::Rgba16,
    })
    &&& s.object(normal) == (Object::Texture {
        width: size.0,
        height: size.1,
        format: InternalFormat::Rgba16,
    })
    &&& s.object(albedo_spec) == (Object::Texture {
        width: size.0,
        height: size.1,
        format: InternalFormat::Rgba,
    })
    &&& s.object(depth) == (Object::Renderbuffer { width: size.0, height: size.1 })
}

/// The commands of [`remake_framebuffer`].
pub open spec fn remake_framebuffer_commands(
    framebuffer: u32,
    texture: u32,
    size: (u32, u32),
) -> Seq<CommandView> {
    seq![plain(Op::BindFramebuffer { id: framebuffer })].push(
        plain(Op::BindTexture { target: TextureTarget::Texture2D, id: texture }),
    ).push(plain(color_image(InternalFormat::Rgba16, size, PixelType::Real)))
}

/// Gives the colour image of a target made by [`create_framebuffer`] a new
/// size, under the same handles.
pub fn remake_framebuffer(
    dev: &mut Device,
    framebuffer: &FrameBuffer,
    texture: &Texture,
    size: (u32, u32),
)
    ensures
        appends(
            old(dev)@,
            final(dev)@,
            remake_framebuffer_commands(framebuffer.id(), texture.id(), size),
        ),
        forall|was: (u32, u32)|
            #![trigger is_color_target(old(dev)@.state, framebuffer.id(), texture.id(), was)]
            is_color_target(old(dev)@.state, framebuffer.id(), texture.id(), was)
                ==> is_color_target(final(dev)@.state, framebuffer.id(), texture.id(), size),
        final(dev)@.state.objects.len() == old(dev)@.state.objects.len(),
        final(dev)@.state.bind.blend == old(dev)@.state.bind.blend,
        forall|id: u32|
            id != texture.id() ==> #[trigger] final(dev)@.state.object(id) == old(
                dev,
            )@.state.object(id),
        final(dev)@.state.draws == old(dev)@.state.draws,
{
    framebuffer.bind(dev);
    texture.bind(dev);
    dev.submit(
        Op::TexImage2D {
            target: ImageTarget::Texture2D,
            internal_format: InternalFormat::Rgba16,
            width: size.0,
            height: size.1,
            format: PixelFormat::Rgba,
            data_type: PixelType::Real,
        },
        Payload::Nothing,
    );
    proof {
        lemma_appends(
            old(dev)@,
            dev@,
            remake_framebuffer_commands(framebuffer.id(), texture.id(), size),
        );
    }
}

/// The commands of [`create_framebuffer`] when the next free handle is
/// `first`: the framebuffer gets `first`, its texture `first + 1`.
pub open spec fn create_framebuffer_commands(first: u32, size: (u32, u32)) -> Seq<CommandView> {
    seq![plain(Op::Create { kind: ObjectKind::Framebuffer, id: first })].push(
        plain(Op::BindFramebuffer { id: first }),
    ).push(plain(Op::Create { kind: ObjectKind::Texture, id: (first + 1) as u32 }))
        + Texture::make_empty_commands((first + 1) as u32, size) + FrameBuffer::load_commands(
        (first + 1) as u32,
    )
}

/// Makes a colour target of the given size in which light can be added up:
/// a framebuffer, left bound, with one empty RGBA texture of 16-bit reals as
/// its first colour attachment.
pub fn create_framebuffer(dev: &mut Device, size: (u32, u32)) -> (target: (Texture, FrameBuffer))
    requires
        old(dev)@.room(2),
    ensures
        target.1.id() == old(dev)@.next_handle(),
        target.0.id() == old(dev)@.next_handle() + 1,
        appends(
            old(dev)@,
            final(dev)@,
            create_framebuffer_commands(old(dev)@.next_handle(), size),
        ),
        final(dev)@.state.objects.len() == old(dev)@.state.objects.len() + 2,
        keeps(final(dev)@.state, old(dev)@.state),
        is_color_target(final(dev)@.state, target.1.id(), target.0.id(), size),
        final(dev)@.state.bind.framebuffer == target.1.id(),
        final(dev)@.state.draws == old(dev)@.state.draws,
{
    let framebuffer: FrameBuffer = FrameBuffer::new(dev);
    framebuffer.bind(dev);
    let texture: Texture = Texture::new(dev);
    texture.make_empty(dev, size);
    framebuffer.load(dev, &texture);
    proof {
        lemma_appends(
            old(dev)@,
            dev@,
            create_framebuffer_commands(old(dev)@.next_handle(), size),
        );
    }
    (texture, framebuffer)
}

/// The specification of one image of the G-buffer.
pub open spec fn gbuffer_image(format: InternalFormat, size: (u32, u32)) -> CommandView {
    plain(color_image(format, size, PixelType::Real))
}

/// The commands of [`remake_gbuffer`].
pub open spec fn remake_gbuffer_commands(
    gbuffer: u32,
    position: u32,
    normal: u32,
    albedo_spec: u32,
    depth: u32,
    size: (u32, u32),
) -> Seq<CommandView> {
    seq![plain(Op::BindFramebuffer { id: gbuffer })].push(
        plain(Op::BindTexture { target: TextureTarget::Texture2D, id: position }),
    ).push(gbuffer_image(InternalFormat::Rgba16, size)).push(
        plain(Op::BindTexture { target: TextureTarget::Texture2D, id: normal }),
    ).push(gbuffer_image(InternalFormat::Rgba16, size)).push(
        plain(Op::BindTexture { target: TextureTarget::Texture2D, id: albedo_spec }),
    ).push(gbuffer_image(InternalFormat::Rgba, size)).push(
        plain(Op::BindRenderbuffer { id: depth }),
    ).push(plain(Op::RenderbufferStorage { width: size.0, height: size.1 }))
}

/// Gives every image of a G-buffer a new size, in place: each store is
/// specified anew under its own handle, and no attachment is touched.
///
/// Whatever was a G-buffer of these five handles before is one of the new
/// size afterwards. Whether the backend finds the framebuffer complete is
/// its own verdict and not asked for here.
pub fn remake_gbuffer(
    dev: &mut Device,
    gbuffer: &FrameBuffer,
    g_position: &Texture,
    g_normal: &Texture,
    g_albedo_spec: &Texture,
    g_render_buffer: &RenderBuffer,
    size: (u32, u32),
)
    ensures
        appends(
            old(dev)@,
            final(dev)@,
            remake_gbuffer_commands(
                gbuffer.id(),
                g_position.id(),
                g_normal.id(),
                g_albedo_spec.id(),
                g_render_buffer.id(),
                size,
            ),
        ),
        forall|was: (u32, u32)|
            #![trigger is_gbuffer(
                old(dev)@.state,
                gbuffer.id(),
                g_position.id(),
                g_normal.id(),
                g_albedo_spec.id(),
                g_render_buffer.id(),
                was,
            )]
            is_gbuffer(
                old(dev)@.state,
                gbuffer.id(),
                g_position.id(),
                g_normal.id(),
                g_albedo_spec.id(),
                g_render_buffer.id(),
                was,
            ) ==> is_gbuffer(
                final(dev)@.state,
                gbuffer.id(),
                g_position.id(),
                g_normal.id(),
                g_albedo_spec.id(),
                g_render_buffer.id(),
                size,
            ),
        final(dev)@.state.objects.len() == old(dev)@.state.objects.len(),
        final(dev)@.state.bind.blend == old(dev)@.state.bind.blend,
        forall|id: u32|
            id != g_position.id() && id != g_normal.id() && id != g_albedo_spec.id() && id
                != g_render_buffer.id() ==> #[trigger] final(dev)@.state.object(id) == old(
                dev,
            )@.state.object(id),
        final(dev)@.state.draws == old(dev)@.state.draws,
{
    gbuffer.bind(dev);
    g_position.bind(dev);
    dev.submit(
        Op::TexImage2D {
            target: ImageTarget::Texture2D,
            internal_format: InternalFormat::Rgba16,
            width: size.0,
            height: size.1,
            format: PixelFormat::Rgba,
            data_type: PixelType::Real,
        },
        Payload::Nothing,
    );
    g_normal.bind(dev);
    dev.submit(
        Op::TexImage2D {
            target: ImageTarget::Texture2D,
            internal_format: InternalFormat::Rgba16,
            width: size.0,
            height: size.1,
            format: PixelFormat::Rgba,
            data_type: PixelType::Real,
        },
        Payload::Nothing,
    );
    g_albedo_spec.bind(dev);
    dev.submit(
        Op::TexImage2D {
            target: ImageTarget::Texture2D,
            internal_format: InternalFormat::Rgba,
            width: size.0,
            height: size.1,
            format: PixelFormat::Rgba,
            data_type: PixelType::Real,
        },
        Payload::Nothing,
    );
    g_render_buffer.bind(dev);
    dev.submit(Op::RenderbufferStorage { width: size.0, height: size.1 }, Payload::Nothing);
    proof {
        lemma_appends(
            old(dev)@,
            dev@,
            remake_gbuffer_commands(
                gbuffer.id(),
                g_position.id(),
                g_normal.id(),
                g_albedo_spec.id(),
                g_render_buffer.id(),
                size,
            ),
        );
    }
}

/// The commands that create texture `id`, give it an image of `format` and
/// `size` with nearest filtering, and attach it at `point` of the bound
/// framebuffer.
pub open spec fn gbuffer_target_commands(
    id: u32,
    format: InternalFormat,
    size: (u32, u32),
    point: Attachment,
) -> Seq<CommandView> {
    seq![plain(Op::Create { kind: ObjectKind::Texture, id })].push(
        plain(Op::BindTexture { target: TextureTarget::Texture2D, id }),
    ).push(gbuffer_image(format, size)).push(
        plain(
            Op::TexParameter {
                target: TextureTarget::Texture2D,
                parameter: TextureParameter::MinFilter,
                value: TextureSetting::Nearest,
            },
        ),
    ).push(
        plain(
            Op::TexParameter {
                target: TextureTarget::Texture2D,
                parameter: TextureParameter::MagFilter,
                value: TextureSetting::Nearest,
            },
        ),
    ).push(plain(Op::FramebufferTexture2D { attachment: point, texture: id }))
}

fn gbuffer_target(
    dev: &mut Device,
    Ghost(gbuffer): Ghost<u32>,
    format: InternalFormat,
    size: (u32, u32),
    point: Attachment,
) -> (texture: Texture)
    requires
        old(dev)@.room(1),
        old(dev)@.state.bind.framebuffer == gbuffer,
        old(dev)@.state.has(ObjectKind::Framebuffer, gbuffer),
        point is Color0 || point is Color1 || point is Color2,
    ensures
        texture.id() == old(dev)@.next_handle(),
        appends(
            old(dev)@,
            final(dev)@,
            gbuffer_target_commands(texture.id(), format, size, point),
        ),
        final(dev)@.state.objects.len() == old(dev)@.state.objects.len() + 1,
        final(dev)@.state.bind.framebuffer == gbuffer,
        final(dev)@.state.object(texture.id()) == (Object::Texture {
            width: size.0,
            height: size.1,
            format,
        }),
        final(dev)@.state.object(gbuffer) == old(dev)@.state.object(gbuffer).attach(
            point,
            texture.id(),
        ),
        forall|id: u32|
            id != gbuffer && old(dev)@.state.issued(id) ==> #[trigger] final(dev)@.state.object(id)
                == old(dev)@.state.object(id),
        final(dev)@.state.draws == old(dev)@.state.draws,
{
    let texture: Texture = Texture::new(dev);
    texture.bind(dev);
    dev.submit(
        Op::TexImage2D {
            target: ImageTarget::Texture2D,
            internal_format: format,
            width: size.0,
            height: size.1,
            format: PixelFormat::Rgba,
            data_type: PixelType::Real,
        },
        Payload::Nothing,
    );
    dev.submit(
        Op::TexParameter {
            target: TextureTarget::Texture2D,
            parameter: TextureParameter::MinFilter,
            value: TextureSetting::Nearest,
        },
        Payload::Nothing,
    );
    dev.submit(
        Op::TexParameter {
            target: TextureTarget::Texture2D,
            parameter: TextureParameter::MagFilter,
            value: TextureSetting::Nearest,
        },
        Payload::Nothing,
    );
    dev.submit(
        Op::FramebufferTexture2D { attachment: point, texture: texture.id() },
        Payload::Nothing,
    );
    proof {
        lemma_appends(
            old(dev)@,
            dev@,
            gbuffer_target_commands(texture.id(), format, size, point),
        );
    }
    texture
}

/// The commands of [`create_gbuffer`] when the next free handle is `first`:
/// the framebuffer gets `first`, the three textures the next three handles
/// and the renderbuffer `first + 4`.
pub open spec fn create_gbuffer_commands(first: u32, size: (u32, u32)) -> Seq<CommandView> {
    (seq![plain(Op::Create { kind: ObjectKind::Framebuffer, id: first })].push(
        plain(Op::BindFramebuffer { id: first }),
    ) + gbuffer_target_commands(
        (first + 1) as u32,
        InternalFormat::Rgba16,
        size,
        Attachment::Color0,
    ) + gbuffer_target_commands(
        (first + 2) as u32,
        InternalFormat::Rgba16,
        size,
        Attachment::Color1,
    ) + gbuffer_target_commands(
        (first + 3) as u32,
        InternalFormat::Rgba,
        size,
        Attachment::Color2,
    )).push(plain(Op::DrawBuffers { count: 3 })).push(
        plain(Op::Create { kind: ObjectKind::Renderbuffer, id: (first + 4) as u32 }),
    ) + RenderBuffer::load_commands((first + 4) as u32, first, size)
}

/// Makes a G-buffer of the given size and leaves it bound: one framebuffer
/// with three colour targets, declared as its three draw targets, and a
/// depth-and-stencil renderbuffer. Returned are position, normal and
/// albedo textures, the framebuffer and the renderbuffer.
///
/// The last command asks the backend whether the framebuffer is complete;
/// the answer is to be handed to [`crate::buffers::framebuffer_status`], and
/// an error there is fatal.
pub fn create_gbuffer(dev: &mut Device, size: (u32, u32)) -> (made: (
    Texture,
    Texture,
    Texture,
    FrameBuffer,
    RenderBuffer,
))
    requires
        old(dev)@.room(5),
    ensures
        made.3.id() == old(dev)@.next_handle(),
        made.0.id() == old(dev)@.next_handle() + 1,
        made.1.id() == old(dev)@.next_handle() + 2,
        made.2.id() == old(dev)@.next_handle() + 3,
        made.4.id() == old(dev)@.next_handle() + 4,
        appends(old(dev)@, final(dev)@, create_gbuffer_commands(old(dev)@.next_handle(), size)),
        final(dev)@.state.objects.len() == old(dev)@.state.objects.len() + 5,
        keeps(final(dev)@.state, old(dev)@.state),
        is_gbuffer(
            final(dev)@.state,
            made.3.id(),
            made.0.id(),
            made.1.id(),
            made.2.id(),
            made.4.id(),
            size,
        ),
        final(dev)@.state.bind.framebuffer == made.3.id(),
        final(dev)@.state.draws == old(dev)@.state.draws,
{
    let gbuffer: FrameBuffer = FrameBuffer::new(dev);
    gbuffer.bind(dev);
    let g_position: Texture = gbuffer_target(
        dev,
        Ghost(gbuffer.id()),
        InternalFormat::Rgba16,
        size,
        Attachment::Color0,
    );
    let g_normal: Texture = gbuffer_target(
        dev,
        Ghost(gbuffer.id()),
        InternalFormat::Rgba16,
        size,
        Attachment::Color1,
    );
    let g_albedo_spec: Texture = gbuffer_target(
        dev,
        Ghost(gbuffer.id()),
        InternalFormat::Rgba,
        size,
        Attachment::Color2,
    );
    dev.submit(Op::DrawBuffers { count: 3 }, Payload::Nothing);
    let ghost targeted = dev@.state;
    proof {
        assert(targeted.objects.len() == old(dev)@.state.objects.len() + 4);
        assert(targeted.attached(gbuffer.id(), Attachment::Color0) == g_position.id());
        assert(targeted.attached(gbuffer.id(), Attachment::Color1) == g_normal.id());
        assert(targeted.attached(gbuffer.id(), Attachment::Color2) == g_albedo_spec.id());
        assert(targeted.object(g_position.id()) is Texture);
        assert(targeted.object(g_normal.id()) is Texture);
        assert(targeted.object(g_albedo_spec.id()) is Texture);
        assert(forall|id: u32|
            old(dev)@.state.issued(id) ==> #[trigger] targeted.object(id) == old(
                dev,
            )@.state.object(id));
    }
    let g_render_buffer: RenderBuffer = RenderBuffer::new(dev);
    let ghost stored = dev@.state;
    proof {
        assert(forall|id: u32|
            targeted.issued(id) ==> #[trigger] stored.object(id) == targeted.object(id));
        assert(stored.object(g_render_buffer.id()) == Object::fresh(ObjectKind::Renderbuffer));
    }
    g_render_buffer.load(dev, &gbuffer, size);
    proof {
        let done = dev@.state;
        assert(forall|id: u32|
            id != gbuffer.id() && id != g_render_buffer.id() ==> #[trigger] done.object(id)
                == stored.object(id));
        assert(done.object(g_render_buffer.id()) == (Object::Renderbuffer {
            width: size.0,
            height: size.1,
        }));
        assert(done.object(gbuffer.id()) == stored.object(gbuffer.id()).attach(
            Attachment::DepthStencil,
            g_render_buffer.id(),
        ));
        lemma_appends(old(dev)@, dev@, create_gbuffer_commands(old(dev)@.next_handle(), size));
    }
    (g_position, g_normal, g_albedo_spec, gbuffer, g_render_buffer)
}

/// The commands of [`create_framebuffer_depthbuffer`] when the next free
/// handle is `first`: the framebuffer gets `first`, its texture `first + 1`.
pub open spec fn create_framebuffer_depthbuffer_commands(first: u32, size: (u32, u32)) -> Seq<
    CommandView,
> {
    seq![plain(Op::Create { kind: ObjectKind::Framebuffer, id: first })].push(
        plain(Op::Create { kind: ObjectKind::Texture, id: (first + 1) as u32 }),
    ) + Texture::make_empty_depth_buffer_commands((first + 1) as u32, size)
        + FrameBuffer::load_depth_texture_commands(first, (first + 1) as u32)
}

/// Makes a shadow map of the given size: a framebuffer without colour
/// output whose depth target is an empty depth texture. No framebuffer is
/// left bound.
pub fn create_framebuffer_depthbuffer(dev: &mut Device, size: (u32, u32)) -> (target: (
    Texture,
    FrameBuffer,
))
    requires
        old(dev)@.room(2),
    ensures
        target.1.id() == old(dev)@.next_handle(),
        target.0.id() == old(dev)@.next_handle() + 1,
        appends(
            old(dev)@,
            final(dev)@,
            create_framebuffer_depthbuffer_commands(old(dev)@.next_handle(), size),
        ),
        final(dev)@.state.objects.len() == old(dev)@.state.objects.len() + 2,
        keeps(final(dev)@.state, old(dev)@.state),
        is_depth_target(final(dev)@.state, target.1.id(), target.0.id(), size),
        final(dev)@.state.bind.framebuffer == 0,
        final(dev)@.state.draws == old(dev)@.state.draws,
{
    let framebuffer: FrameBuffer = FrameBuffer::new(dev);
    let texture: Texture = Texture::new(dev);
    texture.make_empty_depth_buffer(dev, size);
    framebuffer.load_depth_texture(dev, &texture);
    proof {
        lemma_appends(
            old(dev)@,
            dev@,
            create_framebuffer_depthbuffer_commands(old(dev)@.next_handle(), size),
        );
    }
    (texture, framebuffer)
}

/// The commands of [`create_framebuffer_depth_cubemap`] when the next free
/// handle is `first`: the framebuffer gets `first`, its cube map
/// `first + 1`.
pub open spec fn create_framebuffer_depth_cubemap_commands(first: u32, size: (u32, u32)) -> Seq<
    CommandView,
> {
    seq![plain(Op::Create { kind: ObjectKind::Framebuffer, id: first })].push(
        plain(Op::Create { kind: ObjectKind::Texture, id: (first + 1) as u32 }),
    ) + Cubemap::make_empty_depth_buffer_commands((first + 1) as u32, size)
        + FrameBuffer::load_depth_cubemap_commands(first, (first + 1) as u32)
}

/// Makes an omnidirectional shadow map of the given face size: a framebuffer
/// without colour output whose depth target is a cube map of empty depth
/// images. No framebuffer is left bound.
pub fn create_framebuffer_depth_cubemap(dev: &mut Device, size: (u32, u32)) -> (target: (
    Cubemap,
    FrameBuffer,
))
    requires
        old(dev)@.room(2),
    ensures
        target.1.id() == old(dev)@.next_handle(),
        target.0.id() == old(dev)@.next_handle() + 1,
        appends(
            old(dev)@,
            final(dev)@,
            create_framebuffer_depth_cubemap_commands(old(dev)@.next_handle(), size),
        ),
        final(dev)@.state.objects.len() == old(dev)@.state.objects.len() + 2,
        keeps(final(dev)@.state, old(dev)@.state),
        is_depth_target(final(dev)@.state, target.1.id(), target.0.id(), size),
        final(dev)@.state.bind.framebuffer == 0,
        final(dev)@.state.draws == old(dev)@.state.draws,
{
    let framebuffer: FrameBuffer = FrameBuffer::new(dev);
    let cubemap: Cubemap = Cubemap::new(dev);
    cubemap.make_empty_depth_buffer(dev, size);
    framebuffer.load_depth_cubemap(dev, &cubemap);
    proof {
        lemma_appends(
            old(dev)@,
            dev@,
            create_framebuffer_depth_cubemap_commands(old(dev)@.next_handle(), size),
        );
    }
    (cubemap, framebuffer)
}

} // verus!
