//! One frame from start to end, and the render targets it draws into.

use vstd::prelude::*;
use crate::buffers::{FrameBuffer, RenderBuffer, Texture};
use crate::command::{
    plain, Attachment, BlendFactor, Capability, CommandView, Face, ObjectKind, Op, Payload,
};
use crate::device::{appends, lemma_appends, lemma_appends_nothing, Device};
use crate::globals::Globals;
use crate::math::{Scalar, Vector3, ONE, ONE_TENTH};
use crate::models::{
    lemma_settling_is_idempotent, DirectionalLight, Model, PointLight, Sight, SpotLight,
};
use crate::passes::{
    clear_commands, custom_draws_made, draw_directional_lighting_pass,
    draw_directional_lighting_pass_commands, draw_final_pass, draw_final_pass_commands,
    draw_point_lighting_pass, draw_point_lighting_pass_commands, draw_scene, draw_scene_commands,
    draw_scene_light_points, draw_scene_light_points_commands, draw_spot_lighting_pass,
    draw_spot_lighting_pass_commands, flat_commands, kept_to_pass, lemma_add_assoc,
    lemma_add_empty, lemma_custom_draws_keep_to_the_pass, looked, marker_after,
    marker_draws_made, mesh_draws_made,
};
use crate::shaders::Program;
use crate::state::{
    drew, keeps, lemma_drew_on, lemma_drew_one, lemma_drew_these, Bindings, Draw, GlState,
};
use crate::targets::{
    create_framebuffer, create_framebuffer_commands, create_gbuffer, create_gbuffer_commands,
    is_color_target, is_gbuffer, remake_framebuffer, remake_framebuffer_commands, remake_gbuffer,
    remake_gbuffer_commands,
};

verus! {

/// The render targets whose size follows the output surface: the G-buffer
/// and the buffer in which lighting is accumulated.
#[derive(Debug)]
pub struct RenderTargets {
    pub g_position: Texture,
    pub g_normal: Texture,
    pub g_albedo_spec: Texture,
    pub gbuffer: FrameBuffer,
    pub g_render_buffer: RenderBuffer,
    pub light_texture: Texture,
    pub light_buffer: FrameBuffer,
    /// The size all images were last given.
    pub size: (u32, u32),
}

impl RenderTargets {
    /// Whether in `s` the targets are what they were made as, at their
    /// current size: every attachment in its place, every image of the
    /// format and size it should have, and the accumulation texture none of
    /// the G-buffer's.
    pub open spec fn intact(&self, s: GlState) -> bool {
        &&& is_gbuffer(
            s,
            self.gbuffer.id(),
            self.g_position.id(),
            self.g_normal.id(),
            self.g_albedo_spec.id(),
            self.g_render_buffer.id(),
            self.size,
        )
        &&& is_color_target(s, self.light_buffer.id(), self.light_texture.id(), self.size)
        &&& self.light_texture.id() != self.g_position.id()
        &&& self.light_texture.id() != self.g_normal.id()
    }

    /// The commands of [`RenderTargets::new`] when the next free handle is
    /// `first`.
    pub open spec fn new_commands(first: u32, size: (u32, u32)) -> Seq<CommandView> {
        create_gbuffer_commands(first, size) + create_framebuffer_commands(
            (first + 5) as u32,
            size,
        )
    }

    /// Makes the G-buffer and then the accumulation buffer, both of the
    /// given size. The accumulation buffer is left bound.
    pub fn new(dev: &mut Device, size: (u32, u32)) -> (targets: RenderTargets)
        requires
            old(dev)@.room(7),
        ensures
            targets.gbuffer.id() == old(dev)@.next_handle(),
            targets.g_position.id() == old(dev)@.next_handle() + 1,
            targets.g_normal.id() == old(dev)@.next_handle() + 2,
            targets.g_albedo_spec.id() == old(dev)@.next_handle() + 3,
            targets.g_render_buffer.id() == old(dev)@.next_handle() + 4,
            targets.light_buffer.id() == old(dev)@.next_handle() + 5,
            targets.light_texture.id() == old(dev)@.next_handle() + 6,
            targets.size == size,
            appends(
                old(dev)@,
                final(dev)@,
                Self::new_commands(old(dev)@.next_handle(), size),
            ),
            final(dev)@.state.objects.len() == old(dev)@.state.objects.len() + 7,
            keeps(final(dev)@.state, old(dev)@.state),
            targets.intact(final(dev)@.state),
            final(dev)@.state.draws == old(dev)@.state.draws,
    {
        let (g_position, g_normal, g_albedo_spec, gbuffer, g_render_buffer) = create_gbuffer(
            dev,
            size,
        );
        let ghost made = dev@.state;
        let (light_texture, light_buffer) = create_framebuffer(dev, size);
        proof {
            assert(made.issued(gbuffer.id()));
            assert(made.issued(g_position.id()));
            assert(made.issued(g_normal.id()));
            assert(made.issued(g_albedo_spec.id()));
            assert(made.issued(g_render_buffer.id()));
            assert forall|id: u32| old(dev)@.state.issued(id) implies #[trigger] dev@.state.object(
                id,
            ) == old(dev)@.state.object(id) by {
                assert(made.object(id) == old(dev)@.state.object(id));
            }
            lemma_appends(old(dev)@, dev@, Self::new_commands(old(dev)@.next_handle(), size));
        }
        RenderTargets {
            g_position,
            g_normal,
            g_albedo_spec,
            gbuffer,
            g_render_buffer,
            light_texture,
            light_buffer,
            size,
        }
    }

    /// The commands of [`RenderTargets::resize`]: none if the size stays,
    /// else those that remake the G-buffer and then the accumulation
    /// buffer.
    pub open spec fn resize_commands(&self, size: (u32, u32)) -> Seq<CommandView> {
        if self.size == size {
            Seq::empty()
        } else {
            remake_gbuffer_commands(
                self.gbuffer.id(),
                self.g_position.id(),
                self.g_normal.id(),
                self.g_albedo_spec.id(),
                self.g_render_buffer.id(),
                size,
            ) + remake_framebuffer_commands(
                self.light_buffer.id(),
                self.light_texture.id(),
                size,
            )
        }
    }

    /// Follows the output surface: if its size differs from the targets',
    /// every image is given the new size in place.
    ///
    /// No handle changes and no attachment is touched, so targets that were
    /// intact are intact at the new size.
    pub fn resize(&mut self, dev: &mut Device, size: (u32, u32))
        ensures
            appends(old(dev)@, final(dev)@, old(self).resize_commands(size)),
            *final(self) == (RenderTargets { size, ..*old(self) }),
            old(self).intact(old(dev)@.state) ==> final(self).intact(final(dev)@.state),
            final(dev)@.state.objects.len() == old(dev)@.state.objects.len(),
            final(dev)@.state.draws == old(dev)@.state.draws,
            final(dev)@.state.bind.blend == old(dev)@.state.bind.blend,
    {
        if self.size.0 != size.0 || self.size.1 != size.1 {
            proof {
                if self.intact(dev@.state) {
                    assert(is_gbuffer(
                        dev@.state,
                        self.gbuffer.id(),
                        self.g_position.id(),
                        self.g_normal.id(),
                        self.g_albedo_spec.id(),
                        self.g_render_buffer.id(),
                        self.size,
                    ));
                }
            }
            remake_gbuffer(
                dev,
                &self.gbuffer,
                &self.g_position,
                &self.g_normal,
                &self.g_albedo_spec,
                &self.g_render_buffer,
                size,
            );
            let ghost remade = dev@.state;
            proof {
                if self.intact(old(dev)@.state) {
                    assert(remade.object(self.light_buffer.id()) == old(dev)@.state.object(
                        self.light_buffer.id(),
                    ));
                    assert(is_color_target(
                        remade,
                        self.light_buffer.id(),
                        self.light_texture.id(),
                        self.size,
                    ));
                }
            }
            remake_framebuffer(dev, &self.light_buffer, &self.light_texture, size);
            proof {
                lemma_appends(old(dev)@, dev@, self.resize_commands(size));
            }
            self.size = size;
        } else {
            proof {
                lemma_appends_nothing(dev@);
            }
        }
    }
}

impl RenderTargets {
    /// The commands of [`RenderTargets::release`].
    pub open spec fn release_commands(&self) -> Seq<CommandView> {
        Texture::release_commands(self.g_position.id()) + Texture::release_commands(
            self.g_normal.id(),
        ) + Texture::release_commands(self.g_albedo_spec.id()) + FrameBuffer::release_commands(
            self.gbuffer.id(),
        ) + RenderBuffer::release_commands(self.g_render_buffer.id()) + Texture::release_commands(
            self.light_texture.id(),
        ) + FrameBuffer::release_commands(self.light_buffer.id())
    }

    /// Gives the targets up: releases the three textures of the G-buffer,
    /// its framebuffer and its renderbuffer, then the accumulation texture
    /// and its framebuffer. The targets are consumed.
    pub fn release(self, dev: &mut Device)
        ensures
            appends(old(dev)@, final(dev)@, self.release_commands()),
            final(dev)@.state.objects.len() == old(dev)@.state.objects.len(),
            !final(dev)@.state.has(ObjectKind::Framebuffer, self.gbuffer.id()),
            !final(dev)@.state.has(ObjectKind::Framebuffer, self.light_buffer.id()),
            final(dev)@.state.draws == old(dev)@.state.draws,
    {
        let ghost released = self.release_commands();
        let RenderTargets {
            g_position,
            g_normal,
            g_albedo_spec,
            gbuffer,
            g_render_buffer,
            light_texture,
            light_buffer,
            ..
        } = self;
        g_position.release(dev);
        g_normal.release(dev);
        g_albedo_spec.release(dev);
        gbuffer.release(dev);
        g_render_buffer.release(dev);
        light_texture.release(dev);
        light_buffer.release(dev);
        proof {
            lemma_appends(old(dev)@, dev@, released);
        }
    }
}

/// The programs of the passes that do not draw with a mesh's own program.
/// The final pass draws with the program of the screen quad.
#[derive(Debug)]
pub struct Programs {
    pub depth_only_shader: Program,
    pub point_lighting_pass: Program,
    pub directional_lighting_pass: Program,
    pub spot_lighting_pass: Program,
}

impl Programs {
    /// The commands of [`Programs::release`].
    pub open spec fn release_commands(&self) -> Seq<CommandView> {
        seq![plain(Op::Delete { kind: ObjectKind::Program, id: self.depth_only_shader.id() })].push(
            plain(Op::Delete { kind: ObjectKind::Program, id: self.point_lighting_pass.id() }),
        ).push(
            plain(
                Op::Delete { kind: ObjectKind::Program, id: self.directional_lighting_pass.id() },
            ),
        ).push(plain(Op::Delete { kind: ObjectKind::Program, id: self.spot_lighting_pass.id() }))
    }

    /// Gives the four programs up, in the order in which they are stored.
    /// The programs are consumed.
    pub fn release(self, dev: &mut Device)
        ensures
            appends(old(dev)@, final(dev)@, self.release_commands()),
            final(dev)@.state.objects.len() == old(dev)@.state.objects.len(),
            final(dev)@.state.draws == old(dev)@.state.draws,
    {
        let ghost released = self.release_commands();
        let Programs {
            depth_only_shader,
            point_lighting_pass,
            directional_lighting_pass,
            spot_lighting_pass,
        } = self;
        depth_only_shader.release(dev);
        point_lighting_pass.release(dev);
        directional_lighting_pass.release(dev);
        spot_lighting_pass.release(dev);
        proof {
            lemma_appends(old(dev)@, dev@, released);
        }
    }
}

/// The lights of a scene. Within each kind, the order of storage is the
/// order of rendering.
#[derive(Debug)]
pub struct Lights {
    pub directional_lights: Vec<DirectionalLight>,
    pub spot_lights: Vec<SpotLight>,
    pub point_lights: Vec<PointLight>,
}

impl Lights {
    /// Whether `after` holds these lights after every shadow caster has had
    /// its shadow pass for a camera at `viewer`: the same lights in the
    /// same order, each shadow caster with its light-space matrices set
    /// anew.
    pub open spec fn is_cast_as(self, after: Lights, viewer: Vector3) -> bool {
        &&& after.point_lights@ == self.point_lights@
        &&& after.directional_lights@.len() == self.directional_lights@.len()
        &&& after.spot_lights@.len() == self.spot_lights@.len()
        &&& forall|i: int|
            0 <= i < self.directional_lights@.len() ==> #[trigger] after.directional_lights@[i]
                == self.directional_lights@[i].cast(viewer)
        &&& forall|i: int|
            0 <= i < self.spot_lights@.len() ==> #[trigger] after.spot_lights@[i]
                == self.spot_lights@[i].cast()
    }

    /// Number of lights of all kinds.
    pub open spec fn count(self) -> nat {
        self.directional_lights@.len() + self.spot_lights@.len() + self.point_lights@.len()
    }
}

/// What holds of every draw of a shadow pass through `program`: the program
/// is in use, depth test and culling are on, and front faces are culled.
pub open spec fn shadow_discipline(program: u32) -> spec_fn(Draw) -> bool {
    |d: Draw|
        {
            &&& d.bind.program == program
            &&& d.bind.depth_test
            &&& d.bind.cull_face
            &&& d.bind.culled_face == Face::Front
        }
}

/// What holds of every draw of the geometry pass: it goes to the G-buffer,
/// at the size of the output surface, with depth test and culling on and
/// back faces culled. Blending is as the frame found it, `blending`: a frame
/// leaves it off, and so finds it off unless someone switched it on in
/// between.
pub open spec fn geometry_discipline(gbuffer: u32, size: (u32, u32), blending: bool) -> spec_fn(
    Draw,
) -> bool {
    |d: Draw|
        {
            &&& d.bind.framebuffer == gbuffer
            &&& d.bind.viewport_width == size.0
            &&& d.bind.viewport_height == size.1
            &&& d.bind.depth_test
            &&& d.bind.cull_face
            &&& d.bind.culled_face == Face::Back
            &&& d.bind.blend == blending
        }
}

/// Whether `bind` is set for accumulating light in `light_buffer`: the
/// buffer bound, blending on and additive, depth test and culling off.
pub open spec fn accumulating(bind: Bindings, light_buffer: u32) -> bool {
    &&& bind.framebuffer == light_buffer
    &&& bind.blend
    &&& bind.blend_source == BlendFactor::One
    &&& bind.blend_destination == BlendFactor::One
    &&& !bind.depth_test
    &&& !bind.cull_face
}

/// Whether a draw is one of the screen quad with the three images of the
/// G-buffer at units 0, 1 and 2.
pub open spec fn full_screen(d: Draw, with: Shared) -> bool {
    &&& d == with.screen_model.draw(d.bind)
    &&& d.bind.vertex_array == with.screen_model.vao.id()
    &&& d.bind.element_buffer == with.screen_model.ibo.id()
    &&& d.bind.texture0 == with.g_position
    &&& d.bind.texture1 == with.g_normal
    &&& d.bind.texture2 == with.g_albedo_spec
}

/// What holds of every draw of a lighting pass: it is a full-screen draw
/// that adds to the accumulation buffer, without depth test or culling.
pub open spec fn lighting_discipline(with: Shared, light_buffer: u32) -> spec_fn(Draw) -> bool {
    |d: Draw| full_screen(d, with) && accumulating(d.bind, light_buffer)
}

/// What holds of the draw of the final pass: it is a full-screen draw to the
/// screen with the composite program, the accumulated light at unit 3,
/// without blending, depth test or culling.
pub open spec fn final_discipline(with: Shared, light_texture: u32) -> spec_fn(Draw) -> bool {
    |d: Draw|
        {
            &&& full_screen(d, with)
            &&& d.bind.framebuffer == 0
            &&& d.bind.program == with.screen_model.shader_program.id()
            &&& d.bind.texture3 == light_texture
            &&& !d.bind.blend
            &&& !d.bind.depth_test
            &&& !d.bind.cull_face
        }
}

/// What holds of every draw of the marker pass: it draws the marker to the
/// screen with the marker's own program, with depth test and culling on and
/// without blending.
pub open spec fn marker_discipline(marker: Model) -> spec_fn(Draw) -> bool {
    |d: Draw|
        {
            &&& d == marker.draw(d.bind)
            &&& d.bind.framebuffer == 0
            &&& d.bind.program == marker.shader_program.id()
            &&& d.bind.vertex_array == marker.vao.id()
            &&& d.bind.depth_test
            &&& d.bind.cull_face
            &&& !d.bind.blend
        }
}

/// A lighting pass does not read what it writes: for intact targets, none of
/// the three images that a lighting draw samples at units 0, 1 and 2 is
/// attached to the framebuffer that the draw goes to, at any attachment
/// point.
pub proof fn lemma_lighting_reads_no_target(
    targets: RenderTargets,
    globals: Globals,
    s: GlState,
    d: Draw,
    point: Attachment,
)
    requires
        targets.intact(s),
        lighting_discipline(shared(globals, targets), targets.light_buffer.id())(d),
    ensures
        s.attached(d.bind.framebuffer, point) != d.bind.texture0,
        s.attached(d.bind.framebuffer, point) != d.bind.texture1,
        s.attached(d.bind.framebuffer, point) != d.bind.texture2,
        d.bind.texture0 != 0 && d.bind.texture1 != 0 && d.bind.texture2 != 0,
{
}

/// Neither does the final pass: it draws to the screen, to which nothing is
/// attached, and samples four live textures of intact targets.
pub proof fn lemma_final_pass_reads_no_target(
    targets: RenderTargets,
    globals: Globals,
    s: GlState,
    d: Draw,
    point: Attachment,
)
    requires
        targets.intact(s),
        final_discipline(shared(globals, targets), targets.light_texture.id())(d),
    ensures
        s.attached(d.bind.framebuffer, point) == 0,
        d.bind.texture0 != 0 && d.bind.texture1 != 0 && d.bind.texture2 != 0 && d.bind.texture3
            != 0,
{
}

/// The shadow passes of the first `n` directional lights, in order.
pub open spec fn directional_shadows(
    globals: Globals,
    lights: Seq<DirectionalLight>,
    n: nat,
    program: u32,
) -> Seq<CommandView>
    decreases n,
{
    if n == 0 {
        Seq::empty()
    } else {
        directional_shadows(globals, lights, (n - 1) as nat, program) + lights[n
            - 1].render_commands(globals, program)
    }
}

/// The shadow passes of the first `n` spot lights, in order.
pub open spec fn spot_shadows(
    globals: Globals,
    lights: Seq<SpotLight>,
    n: nat,
    program: u32,
) -> Seq<CommandView>
    decreases n,
{
    if n == 0 {
        Seq::empty()
    } else {
        spot_shadows(globals, lights, (n - 1) as nat, program) + lights[n - 1].render_commands(
            globals,
            program,
        )
    }
}

/// The draws of one shadow pass keep the discipline of shadow passes.
pub proof fn lemma_shadow_pass_keeps_discipline(
    pre: GlState,
    post: GlState,
    models: Seq<Model>,
    program: u32,
    bind: Bindings,
)
    requires
        post.draws == pre.draws + custom_draws_made(models, models.len(), program, true, bind),
    ensures
        drew(pre, post, shadow_discipline(program)),
        crate::passes::custom_bindings_after(models, models.len(), program, true, bind).blend
            == bind.blend,
{
    let made = custom_draws_made(models, models.len(), program, true, bind);
    lemma_custom_draws_keep_to_the_pass(models, models.len(), program, true, bind);
    assert forall|i: int| 0 <= i < made.len() implies shadow_discipline(program)(
        #[trigger] made[i],
    ) by {
        assert(kept_to_pass(made[i].bind, program, Face::Front, bind));
    }
    lemma_drew_these(pre, post, made, shadow_discipline(program));
}

/// The commands of [`shadow_passes`].
pub open spec fn shadow_passes_commands(globals: Globals, lights: Lights, program: u32) -> Seq<
    CommandView,
> {
    directional_shadows(
        globals,
        lights.directional_lights@,
        lights.directional_lights@.len(),
        program,
    ) + spot_shadows(globals, lights.spot_lights@, lights.spot_lights@.len(), program)
}

/// First stage of a frame: the shadow pass of every directional light, then
/// of every spot light. Point lights cast no shadows.
pub fn shadow_passes(
    dev: &mut Device,
    globals: &Globals,
    lights: &mut Lights,
    depth_only_shader: &Program,
)
    ensures
        appends(
            old(dev)@,
            final(dev)@,
            shadow_passes_commands(*globals, *old(lights), depth_only_shader.id()),
        ),
        final(dev)@.state.objects == old(dev)@.state.objects,
        old(lights).is_cast_as(*final(lights), globals.cam.position),
        drew(old(dev)@.state, final(dev)@.state, shadow_discipline(depth_only_shader.id())),
        final(dev)@.state.bind.blend == old(dev)@.state.bind.blend,
{
    let ghost program = depth_only_shader.id();
    let ghost before = *lights;
    proof {
        lemma_appends_nothing(dev@);
    }
    let mut i: usize = 0;
    while i < lights.directional_lights.len()
        invariant
            i <= lights.directional_lights.len(),
            program == depth_only_shader.id(),
            before == *old(lights),
            lights.spot_lights == before.spot_lights,
            lights.point_lights == before.point_lights,
            lights.directional_lights@.len() == before.directional_lights@.len(),
            forall|k: int|
                0 <= k < i ==> #[trigger] lights.directional_lights@[k]
                    == before.directional_lights@[k].cast(globals.cam.position),
            forall|k: int|
                i <= k < before.directional_lights@.len()
                    ==> #[trigger] lights.directional_lights@[k] == before.directional_lights@[k],
            dev@.extends(
                old(dev)@,
                directional_shadows(*globals, before.directional_lights@, i as nat, program),
            ),
            dev@.state.objects == old(dev)@.state.objects,
            drew(old(dev)@.state, dev@.state, shadow_discipline(program)),
            dev@.state.bind.blend == old(dev)@.state.bind.blend,
        decreases lights.directional_lights.len() - i,
    {
        let ghost reached = dev@.state;
        let ghost light = lights.directional_lights@[i as int];
        lights.directional_lights[i].render(dev, globals, depth_only_shader);
        proof {
            lemma_shadow_pass_keeps_discipline(
                reached,
                dev@.state,
                globals.models@,
                program,
                crate::models::shadow_bindings(
                    light.resolution,
                    light.shadow_framebuffer.id(),
                    reached.bind,
                ),
            );
            lemma_drew_on(old(dev)@.state, reached, dev@.state, shadow_discipline(program));
        }
        i += 1;
    }
    let ghost directional = directional_shadows(
        *globals,
        before.directional_lights@,
        before.directional_lights@.len(),
        program,
    );
    let ghost directed = lights.directional_lights;
    proof {
        lemma_add_empty(directional);
    }
    let mut j: usize = 0;
    while j < lights.spot_lights.len()
        invariant
            j <= lights.spot_lights.len(),
            program == depth_only_shader.id(),
            before == *old(lights),
            lights.directional_lights == directed,
            lights.point_lights == before.point_lights,
            lights.spot_lights@.len() == before.spot_lights@.len(),
            forall|k: int|
                0 <= k < j ==> #[trigger] lights.spot_lights@[k] == before.spot_lights@[k].cast(),
            forall|k: int|
                j <= k < before.spot_lights@.len() ==> #[trigger] lights.spot_lights@[k]
                    == before.spot_lights@[k],
            dev@.extends(
                old(dev)@,
                directional + spot_shadows(*globals, before.spot_lights@, j as nat, program),
            ),
            dev@.state.objects == old(dev)@.state.objects,
            drew(old(dev)@.state, dev@.state, shadow_discipline(program)),
            dev@.state.bind.blend == old(dev)@.state.bind.blend,
        decreases lights.spot_lights.len() - j,
    {
        let ghost reached = dev@.state;
        let ghost light = lights.spot_lights@[j as int];
        lights.spot_lights[j].render(dev, globals, depth_only_shader);
        proof {
            lemma_shadow_pass_keeps_discipline(
                reached,
                dev@.state,
                globals.models@,
                program,
                crate::models::shadow_bindings(
                    light.resolution,
                    light.shadow_framebuffer.id(),
                    reached.bind,
                ),
            );
            lemma_drew_on(old(dev)@.state, reached, dev@.state, shadow_discipline(program));
            lemma_add_assoc(
                directional,
                spot_shadows(*globals, before.spot_lights@, j as nat, program),
                before.spot_lights@[j as int].render_commands(*globals, program),
            );
        }
        j += 1;
    }
    proof {
        lemma_appends(old(dev)@, dev@, shadow_passes_commands(*globals, before, program));
    }
}

/// The commands of [`geometry_pass`].
pub open spec fn geometry_pass_commands(globals: Globals, gbuffer: u32) -> Seq<CommandView> {
    (seq![plain(Op::Viewport { width: globals.size.0, height: globals.size.1 })].push(
        plain(Op::BindFramebuffer { id: gbuffer }),
    ) + draw_scene_commands(
        globals.models@,
        globals.screen_size,
        globals.cam.sight().projection,
        globals.cam.sight().view,
    )).push(plain(Op::BindFramebuffer { id: 0 }))
}

/// Second stage of a frame: with the viewport at the size of the output
/// surface, draws the scene as the camera sees it into the G-buffer, and
/// unbinds it.
pub fn geometry_pass(dev: &mut Device, globals: &mut Globals, targets: &RenderTargets)
    ensures
        appends(
            old(dev)@,
            final(dev)@,
            geometry_pass_commands(*old(globals), targets.gbuffer.id()),
        ),
        final(dev)@.state.objects == old(dev)@.state.objects,
        final(dev)@.state.bind.framebuffer == 0,
        final(dev)@.state.bind.blend == old(dev)@.state.bind.blend,
        *final(globals) == looked(*old(globals)),
        drew(
            old(dev)@.state,
            final(dev)@.state,
            geometry_discipline(
                targets.gbuffer.id(),
                old(globals).size,
                old(dev)@.state.bind.blend,
            ),
        ),
        final(dev)@.state.draws.len() == old(dev)@.state.draws.len() + old(globals).models@.len(),
{
    dev.submit(Op::Viewport { width: globals.size.0, height: globals.size.1 }, Payload::Nothing);
    targets.gbuffer.bind(dev);
    let sight: Sight = globals.cam.look();
    let ghost bound = dev@.state;
    draw_scene(dev, globals, sight.projection, sight.view);
    targets.gbuffer.unbind(dev);
    proof {
        lemma_drew_these(
            old(dev)@.state,
            dev@.state,
            mesh_draws_made(globals.models@, Face::Back, bound.bind),
            geometry_discipline(targets.gbuffer.id(), globals.size, bound.bind.blend),
        );
        lemma_appends(
            old(dev)@,
            dev@,
            geometry_pass_commands(*old(globals), targets.gbuffer.id()),
        );
    }
}

/// The commands with which lighting accumulation starts: the accumulation
/// buffer bound and its colour cleared to dark grey, depth test and culling
/// off, blending on and additive.
pub open spec fn accumulation_commands(light_buffer: u32) -> Seq<CommandView> {
    (seq![plain(Op::BindFramebuffer { id: light_buffer })] + clear_commands(
        ONE_TENTH,
        ONE_TENTH,
        ONE_TENTH,
        false,
    ) + flat_commands()).push(plain(Op::Enable { capability: Capability::Blend })).push(
        plain(Op::BlendFunc { source: BlendFactor::One, destination: BlendFactor::One }),
    )
}

/// What every lighting pass of a frame has in common: the screen quad, what
/// the camera hands over, and the three images of the G-buffer.
pub struct Shared {
    pub screen_model: Model,
    pub sight: Sight,
    pub g_position: u32,
    pub g_normal: u32,
    pub g_albedo_spec: u32,
}

/// What the lighting passes of a frame share, for the given scene and
/// targets.
pub open spec fn shared(globals: Globals, targets: RenderTargets) -> Shared {
    Shared {
        screen_model: globals.screen_model,
        sight: globals.cam.sight(),
        g_position: targets.g_position.id(),
        g_normal: targets.g_normal.id(),
        g_albedo_spec: targets.g_albedo_spec.id(),
    }
}

/// The lighting pass of one point light within a frame.
pub open spec fn point_pass(with: Shared, program: u32, light: PointLight) -> Seq<CommandView> {
    draw_point_lighting_pass_commands(
        with.screen_model,
        with.sight,
        program,
        with.g_position,
        with.g_normal,
        with.g_albedo_spec,
        light,
    )
}

/// The lighting pass of one directional light within a frame.
pub open spec fn directional_pass(with: Shared, program: u32, light: DirectionalLight) -> Seq<
    CommandView,
> {
    draw_directional_lighting_pass_commands(
        with.screen_model,
        with.sight,
        program,
        with.g_position,
        with.g_normal,
        with.g_albedo_spec,
        light,
    )
}

/// The lighting pass of one spot light within a frame.
pub open spec fn spot_pass(with: Shared, program: u32, light: SpotLight) -> Seq<CommandView> {
    draw_spot_lighting_pass_commands(
        with.screen_model,
        with.sight,
        program,
        with.g_position,
        with.g_normal,
        with.g_albedo_spec,
        light,
    )
}

/// The lighting passes of the first `n` point lights, in order.
pub open spec fn point_passes(with: Shared, program: u32, lights: Seq<PointLight>, n: nat) -> Seq<
    CommandView,
>
    decreases n,
{
    if n == 0 {
        Seq::empty()
    } else {
        point_passes(with, program, lights, (n - 1) as nat) + point_pass(
            with,
            program,
            lights[n - 1],
        )
    }
}

/// The lighting passes of the first `n` directional lights, in order.
pub open spec fn directional_passes(
    with: Shared,
    program: u32,
    lights: Seq<DirectionalLight>,
    n: nat,
) -> Seq<CommandView>
    decreases n,
{
    if n == 0 {
        Seq::empty()
    } else {
        directional_passes(with, program, lights, (n - 1) as nat) + directional_pass(
            with,
            program,
            lights[n - 1],
        )
    }
}

/// The lighting passes of the first `n` spot lights, in order.
pub open spec fn spot_passes(with: Shared, program: u32, lights: Seq<SpotLight>, n: nat) -> Seq<
    CommandView,
>
    decreases n,
{
    if n == 0 {
        Seq::empty()
    } else {
        spot_passes(with, program, lights, (n - 1) as nat) + spot_pass(
            with,
            program,
            lights[n - 1],
        )
    }
}

/// The commands of [`lighting_passes`].
pub open spec fn lighting_passes_commands(
    with: Shared,
    light_buffer: u32,
    programs: Programs,
    lights: Lights,
) -> Seq<CommandView> {
    (accumulation_commands(light_buffer) + point_passes(
        with,
        programs.point_lighting_pass.id(),
        lights.point_lights@,
        lights.point_lights@.len(),
    ) + directional_passes(
        with,
        programs.directional_lighting_pass.id(),
        lights.directional_lights@,
        lights.directional_lights@.len(),
    ) + spot_passes(
        with,
        programs.spot_lighting_pass.id(),
        lights.spot_lights@,
        lights.spot_lights@.len(),
    )).push(plain(Op::BindFramebuffer { id: 0 }))
}

fn begin_accumulation(dev: &mut Device, light_buffer: &FrameBuffer)
    ensures
        appends(old(dev)@, final(dev)@, accumulation_commands(light_buffer.id())),
        final(dev)@.state.objects == old(dev)@.state.objects,
        final(dev)@.state.bind == (Bindings {
            framebuffer: light_buffer.id(),
            depth_test: false,
            cull_face: false,
            blend: true,
            blend_source: BlendFactor::One,
            blend_destination: BlendFactor::One,
            ..old(dev)@.state.bind
        }),
        final(dev)@.state.draws == old(dev)@.state.draws,
{
    light_buffer.bind(dev);
    dev.submit(
        Op::ClearColor {
            red: Scalar { bits: ONE_TENTH },
            green: Scalar { bits: ONE_TENTH },
            blue: Scalar { bits: ONE_TENTH },
            alpha: Scalar { bits: ONE },
        },
        Payload::Nothing,
    );
    dev.submit(Op::Clear { color: true, depth: false }, Payload::Nothing);
    dev.submit(Op::Disable { capability: Capability::DepthTest }, Payload::Nothing);
    dev.submit(Op::Disable { capability: Capability::CullFace }, Payload::Nothing);
    dev.submit(Op::Enable { capability: Capability::Blend }, Payload::Nothing);
    dev.submit(
        Op::BlendFunc { source: BlendFactor::One, destination: BlendFactor::One },
        Payload::Nothing,
    );
    proof {
        let bound = seq![plain(Op::BindFramebuffer { id: light_buffer.id() })];
        let cleared = clear_commands(ONE_TENTH, ONE_TENTH, ONE_TENTH, false);
        assert(bound + cleared + flat_commands() =~= bound.push(cleared[0]).push(cleared[1]).push(
            flat_commands()[0],
        ).push(flat_commands()[1]));
        lemma_appends(old(dev)@, dev@, accumulation_commands(light_buffer.id()));
    }
}

/// The scene after lighting passes for `lights`: its camera settled if
/// there was any light to look at the scene for.
pub open spec fn lit(globals: Globals, lights: Lights) -> Globals {
    if lights.count() > 0 {
        looked(globals)
    } else {
        globals
    }
}

/// Third stage of a frame: into the cleared accumulation buffer, with
/// additive blending and without depth test, one full-screen pass for each
/// point light, then each directional light, then each spot light; and the
/// buffer is unbound.
pub fn lighting_passes(
    dev: &mut Device,
    globals: &mut Globals,
    targets: &RenderTargets,
    programs: &Programs,
    lights: &Lights,
)
    ensures
        appends(
            old(dev)@,
            final(dev)@,
            lighting_passes_commands(
                shared(*old(globals), *targets),
                targets.light_buffer.id(),
                *programs,
                *lights,
            ),
        ),
        final(dev)@.state.objects == old(dev)@.state.objects,
        accumulating(
            Bindings { framebuffer: targets.light_buffer.id(), ..final(dev)@.state.bind },
            targets.light_buffer.id(),
        ),
        final(dev)@.state.bind.framebuffer == 0,
        *final(globals) == lit(*old(globals), *lights),
        drew(
            old(dev)@.state,
            final(dev)@.state,
            lighting_discipline(shared(*old(globals), *targets), targets.light_buffer.id()),
        ),
        final(dev)@.state.draws.len() == old(dev)@.state.draws.len() + lights.count(),
{
    let ghost with = shared(*globals, *targets);
    let ghost discipline = lighting_discipline(with, targets.light_buffer.id());
    proof {
        lemma_settling_is_idempotent(globals.cam);
    }
    begin_accumulation(dev, &targets.light_buffer);
    let ghost begun = accumulation_commands(targets.light_buffer.id());
    proof {
        lemma_add_empty(begun);
        assert(drew(old(dev)@.state, dev@.state, discipline));
    }
    let mut i: usize = 0;
    while i < lights.point_lights.len()
        invariant
            i <= lights.point_lights.len(),
            with == shared(*old(globals), *targets),
            with == shared(looked(*old(globals)), *targets),
            looked(looked(*old(globals))) == looked(*old(globals)),
            *globals == if i == 0 {
                *old(globals)
            } else {
                looked(*old(globals))
            },
            dev@.extends(
                old(dev)@,
                begun + point_passes(
                    with,
                    programs.point_lighting_pass.id(),
                    lights.point_lights@,
                    i as nat,
                ),
            ),
            dev@.state.objects == old(dev)@.state.objects,
            discipline == lighting_discipline(with, targets.light_buffer.id()),
            accumulating(dev@.state.bind, targets.light_buffer.id()),
            drew(old(dev)@.state, dev@.state, discipline),
            dev@.state.draws.len() == old(dev)@.state.draws.len() + i,
        decreases lights.point_lights.len() - i,
    {
        let ghost reached = dev@.state;
        draw_point_lighting_pass(
            dev,
            globals,
            &programs.point_lighting_pass,
            &targets.g_position,
            &targets.g_normal,
            &targets.g_albedo_spec,
            &lights.point_lights[i],
        );
        proof {
            lemma_drew_one(
                reached,
                dev@.state,
                with.screen_model.draw(dev@.state.bind),
                discipline,
            );
            lemma_drew_on(old(dev)@.state, reached, dev@.state, discipline);
            lemma_add_assoc(
                begun,
                point_passes(
                    with,
                    programs.point_lighting_pass.id(),
                    lights.point_lights@,
                    i as nat,
                ),
                point_pass(with, programs.point_lighting_pass.id(), lights.point_lights@[i as int]),
            );
        }
        i += 1;
    }
    let ghost pointed = begun + point_passes(
        with,
        programs.point_lighting_pass.id(),
        lights.point_lights@,
        lights.point_lights@.len(),
    );
    proof {
        lemma_add_empty(pointed);
    }
    let mut j: usize = 0;
    while j < lights.directional_lights.len()
        invariant
            j <= lights.directional_lights.len(),
            with == shared(*old(globals), *targets),
            with == shared(looked(*old(globals)), *targets),
            looked(looked(*old(globals))) == looked(*old(globals)),
            *globals == if lights.point_lights@.len() + j == 0 {
                *old(globals)
            } else {
                looked(*old(globals))
            },
            dev@.extends(
                old(dev)@,
                pointed + directional_passes(
                    with,
                    programs.directional_lighting_pass.id(),
                    lights.directional_lights@,
                    j as nat,
                ),
            ),
            dev@.state.objects == old(dev)@.state.objects,
            discipline == lighting_discipline(with, targets.light_buffer.id()),
            accumulating(dev@.state.bind, targets.light_buffer.id()),
            drew(old(dev)@.state, dev@.state, discipline),
            dev@.state.draws.len() == old(dev)@.state.draws.len() + lights.point_lights@.len()
                + j,
        decreases lights.directional_lights.len() - j,
    {
        let ghost reached = dev@.state;
        draw_directional_lighting_pass(
            dev,
            globals,
            &programs.directional_lighting_pass,
            &targets.g_position,
            &targets.g_normal,
            &targets.g_albedo_spec,
            &lights.directional_lights[j],
        );
        proof {
            lemma_drew_one(
                reached,
                dev@.state,
                with.screen_model.draw(dev@.state.bind),
                discipline,
            );
            lemma_drew_on(old(dev)@.state, reached, dev@.state, discipline);
            lemma_add_assoc(
                pointed,
                directional_passes(
                    with,
                    programs.directional_lighting_pass.id(),
                    lights.directional_lights@,
                    j as nat,
                ),
                directional_pass(
                    with,
                    programs.directional_lighting_pass.id(),
                    lights.directional_lights@[j as int],
                ),
            );
        }
        j += 1;
    }
    let ghost directed = pointed + directional_passes(
        with,
        programs.directional_lighting_pass.id(),
        lights.directional_lights@,
        lights.directional_lights@.len(),
    );
    proof {
        lemma_add_empty(directed);
    }
    let mut k: usize = 0;
    while k < lights.spot_lights.len()
        invariant
            k <= lights.spot_lights.len(),
            with == shared(*old(globals), *targets),
            with == shared(looked(*old(globals)), *targets),
            looked(looked(*old(globals))) == looked(*old(globals)),
            *globals == if lights.point_lights@.len() + lights.directional_lights@.len() + k
                == 0 {
                *old(globals)
            } else {
                looked(*old(globals))
            },
            dev@.extends(
                old(dev)@,
                directed + spot_passes(
                    with,
                    programs.spot_lighting_pass.id(),
                    lights.spot_lights@,
                    k as nat,
                ),
            ),
            dev@.state.objects == old(dev)@.state.objects,
            discipline == lighting_discipline(with, targets.light_buffer.id()),
            accumulating(dev@.state.bind, targets.light_buffer.id()),
            drew(old(dev)@.state, dev@.state, discipline),
            dev@.state.draws.len() == old(dev)@.state.draws.len() + lights.point_lights@.len()
                + lights.directional_lights@.len() + k,
        decreases lights.spot_lights.len() - k,
    {
        let ghost reached = dev@.state;
        draw_spot_lighting_pass(
            dev,
            globals,
            &programs.spot_lighting_pass,
            &targets.g_position,
            &targets.g_normal,
            &targets.g_albedo_spec,
            &lights.spot_lights[k],
        );
        proof {
            lemma_drew_one(
                reached,
                dev@.state,
                with.screen_model.draw(dev@.state.bind),
                discipline,
            );
            lemma_drew_on(old(dev)@.state, reached, dev@.state, discipline);
            lemma_add_assoc(
                directed,
                spot_passes(with, programs.spot_lighting_pass.id(), lights.spot_lights@, k as nat),
                spot_pass(with, programs.spot_lighting_pass.id(), lights.spot_lights@[k as int]),
            );
        }
        k += 1;
    }
    targets.light_buffer.unbind(dev);
    proof {
        lemma_appends(
            old(dev)@,
            dev@,
            lighting_passes_commands(with, targets.light_buffer.id(), *programs, *lights),
        );
    }
}

/// Whether the draws of `post` since `pre` are those of one frame: five
/// runs of draws one after the other, each under the discipline of its
/// stage. There are as many geometry draws as the scene has meshes, as many
/// lighting draws as there are lights, one final draw, and as many marker
/// draws as there are point and spot lights.
pub open spec fn frame_drawn(
    pre: GlState,
    post: GlState,
    globals: Globals,
    targets: RenderTargets,
    programs: Programs,
    lights: Lights,
) -> bool {
    let with = shared(globals, targets);
    exists|shadowed: GlState, filled: GlState, lit: GlState, composed: GlState|
        #![trigger
            drew(pre, shadowed, shadow_discipline(programs.depth_only_shader.id())),
            drew(
                shadowed,
                filled,
                geometry_discipline(targets.gbuffer.id(), globals.size, pre.bind.blend),
            ),
            drew(filled, lit, lighting_discipline(with, targets.light_buffer.id())),
            drew(lit, composed, final_discipline(with, targets.light_texture.id())),
        ]
        {
            &&& drew(pre, shadowed, shadow_discipline(programs.depth_only_shader.id()))
            &&& drew(
                shadowed,
                filled,
                geometry_discipline(targets.gbuffer.id(), globals.size, pre.bind.blend),
            )
            &&& filled.draws.len() == shadowed.draws.len() + globals.models@.len()
            &&& drew(filled, lit, lighting_discipline(with, targets.light_buffer.id()))
            &&& lit.draws.len() == filled.draws.len() + lights.count()
            &&& drew(lit, composed, final_discipline(with, targets.light_texture.id()))
            &&& composed.draws.len() == lit.draws.len() + 1
            &&& drew(composed, post, marker_discipline(globals.light_model))
            &&& post.draws.len() == composed.draws.len() + lights.point_lights@.len()
                + lights.spot_lights@.len()
        }
}

/// The commands of [`render_frame`], stage by stage: shadow passes,
/// geometry pass, lighting passes with the light-space matrices that the
/// shadow passes have set, blending off and the final pass, light markers.
pub open spec fn render_frame_commands(
    globals: Globals,
    targets: RenderTargets,
    programs: Programs,
    lights: Lights,
    cast: Lights,
) -> Seq<CommandView> {
    (shadow_passes_commands(globals, lights, programs.depth_only_shader.id())
        + geometry_pass_commands(globals, targets.gbuffer.id()) + lighting_passes_commands(
        shared(globals, targets),
        targets.light_buffer.id(),
        programs,
        cast,
    )).push(plain(Op::Disable { capability: Capability::Blend })) + draw_final_pass_commands(
        globals.screen_model,
        globals.cam.sight(),
        targets.g_position.id(),
        targets.g_normal.id(),
        targets.g_albedo_spec.id(),
        targets.light_texture.id(),
    ) + draw_scene_light_points_commands(
        globals.light_model,
        globals.cam.sight(),
        cast.point_lights@,
        cast.spot_lights@,
    )
}

/// Records one frame. The passes run in this order and no other: every
/// shadow pass; the geometry pass into the G-buffer; the lighting passes
/// into the accumulation buffer; the final pass, with blending off, to
/// whatever framebuffer was bound last, which is the screen; the light
/// markers on top.
///
/// Every draw of the frame happens under the bindings and switches of its
/// stage, see [`frame_drawn`]. No object is created, released or respecified
/// by a frame, and the frame ends with the screen as the bound framebuffer
/// and blending off. Of the scene, the camera is settled and the light
/// marker moves; of the lights, every shadow caster has its light-space
/// matrices set anew.
pub fn render_frame(
    dev: &mut Device,
    globals: &mut Globals,
    targets: &RenderTargets,
    programs: &Programs,
    lights: &mut Lights,
)
    ensures
        appends(
            old(dev)@,
            final(dev)@,
            render_frame_commands(
                *old(globals),
                *targets,
                *programs,
                *old(lights),
                *final(lights),
            ),
        ),
        final(dev)@.state.objects == old(dev)@.state.objects,
        final(dev)@.state.bind.framebuffer == 0,
        !final(dev)@.state.bind.blend,
        old(lights).is_cast_as(*final(lights), old(globals).cam.position),
        *final(globals) == (Globals {
            light_model: marker_after(
                old(globals).light_model,
                final(lights).point_lights@,
                final(lights).spot_lights@,
            ),
            ..looked(*old(globals))
        }),
        frame_drawn(
            old(dev)@.state,
            final(dev)@.state,
            *old(globals),
            *targets,
            *programs,
            *final(lights),
        ),
{
    let ghost with = shared(*globals, *targets);
    proof {
        lemma_settling_is_idempotent(globals.cam);
    }
    shadow_passes(dev, globals, lights, &programs.depth_only_shader);
    let ghost shadowed = dev@.state;
    geometry_pass(dev, globals, targets);
    let ghost filled = dev@.state;
    lighting_passes(dev, globals, targets, programs, lights);
    let ghost lit = dev@.state;
    dev.submit(Op::Disable { capability: Capability::Blend }, Payload::Nothing);
    let ghost unblended = dev@.state;
    draw_final_pass(
        dev,
        globals,
        &targets.g_position,
        &targets.g_normal,
        &targets.g_albedo_spec,
        &targets.light_texture,
    );
    let ghost composed = dev@.state;
    draw_scene_light_points(dev, globals, &lights.point_lights, &lights.spot_lights);
    proof {
        lemma_drew_one(
            lit,
            composed,
            with.screen_model.draw(composed.bind),
            final_discipline(with, targets.light_texture.id()),
        );
        let markers = marker_draws_made(
            old(globals).light_model,
            lights.point_lights@.len() + lights.spot_lights@.len(),
            composed.bind,
        );
        assert forall|i: int| 0 <= i < markers.len() implies marker_discipline(
            old(globals).light_model,
        )(#[trigger] markers[i]) by {}
        lemma_drew_these(
            composed,
            dev@.state,
            markers,
            marker_discipline(old(globals).light_model),
        );
        assert(drew(old(dev)@.state, shadowed, shadow_discipline(programs.depth_only_shader.id())));
        assert(drew(
            shadowed,
            filled,
            geometry_discipline(
                targets.gbuffer.id(),
                old(globals).size,
                old(dev)@.state.bind.blend,
            ),
        ));
        assert(drew(filled, lit, lighting_discipline(with, targets.light_buffer.id())));
        lemma_appends(
            old(dev)@,
            dev@,
            render_frame_commands(*old(globals), *targets, *programs, *old(lights), *lights),
        );
    }
}

/// The draws of a frame stay those of a frame when counted from an earlier
/// state that had drawn as much and had blending set alike.
pub proof fn lemma_frame_drawn_from(
    earlier: GlState,
    pre: GlState,
    post: GlState,
    globals: Globals,
    targets: RenderTargets,
    programs: Programs,
    lights: Lights,
)
    requires
        earlier.draws == pre.draws,
        earlier.bind.blend == pre.bind.blend,
        frame_drawn(pre, post, globals, targets, programs, lights),
    ensures
        frame_drawn(earlier, post, globals, targets, programs, lights),
{
    let with = shared(globals, targets);
    let (shadowed, filled, lit, composed) = choose|
        shadowed: GlState,
        filled: GlState,
        lit: GlState,
        composed: GlState,
    |
        #![trigger
            drew(pre, shadowed, shadow_discipline(programs.depth_only_shader.id())),
            drew(
                shadowed,
                filled,
                geometry_discipline(targets.gbuffer.id(), globals.size, pre.bind.blend),
            ),
            drew(filled, lit, lighting_discipline(with, targets.light_buffer.id())),
            drew(lit, composed, final_discipline(with, targets.light_texture.id())),
        ]
        {
            &&& drew(pre, shadowed, shadow_discipline(programs.depth_only_shader.id()))
            &&& drew(
                shadowed,
                filled,
                geometry_discipline(targets.gbuffer.id(), globals.size, pre.bind.blend),
            )
            &&& filled.draws.len() == shadowed.draws.len() + globals.models@.len()
            &&& drew(filled, lit, lighting_discipline(with, targets.light_buffer.id()))
            &&& lit.draws.len() == filled.draws.len() + lights.count()
            &&& drew(lit, composed, final_discipline(with, targets.light_texture.id()))
            &&& composed.draws.len() == lit.draws.len() + 1
            &&& drew(composed, post, marker_discipline(globals.light_model))
            &&& post.draws.len() == composed.draws.len() + lights.point_lights@.len()
                + lights.spot_lights@.len()
        };
    assert(drew(earlier, shadowed, shadow_discipline(programs.depth_only_shader.id())));
}

/// The commands of [`run_frame`]: those that let the targets follow the
/// output surface, if it has changed size, and then the frame.
pub open spec fn run_frame_commands(
    globals: Globals,
    targets: RenderTargets,
    programs: Programs,
    lights: Lights,
    cast: Lights,
) -> Seq<CommandView> {
    targets.resize_commands(globals.size) + render_frame_commands(
        globals,
        RenderTargets { size: globals.size, ..targets },
        programs,
        lights,
        cast,
    )
}

/// One turn of the render loop: lets the render targets follow the size of
/// the output surface, in place and before any pass runs, and then records
/// the frame.
///
/// Targets that were intact are intact afterwards, at the size of the
/// surface, under the handles they had.
pub fn run_frame(
    dev: &mut Device,
    globals: &mut Globals,
    targets: &mut RenderTargets,
    programs: &Programs,
    lights: &mut Lights,
)
    ensures
        appends(
            old(dev)@,
            final(dev)@,
            run_frame_commands(
                *old(globals),
                *old(targets),
                *programs,
                *old(lights),
                *final(lights),
            ),
        ),
        *final(targets) == (RenderTargets { size: old(globals).size, ..*old(targets) }),
        old(targets).intact(old(dev)@.state) ==> final(targets).intact(final(dev)@.state),
        final(dev)@.state.objects.len() == old(dev)@.state.objects.len(),
        final(dev)@.state.bind.framebuffer == 0,
        !final(dev)@.state.bind.blend,
        old(lights).is_cast_as(*final(lights), old(globals).cam.position),
        *final(globals) == (Globals {
            light_model: marker_after(
                old(globals).light_model,
                final(lights).point_lights@,
                final(lights).spot_lights@,
            ),
            ..looked(*old(globals))
        }),
        frame_drawn(
            old(dev)@.state,
            final(dev)@.state,
            *old(globals),
            *final(targets),
            *programs,
            *final(lights),
        ),
{
    targets.resize(dev, globals.size);
    let ghost resized = dev@.state;
    render_frame(dev, globals, targets, programs, lights);
    proof {
        assert(resized.draws == old(dev)@.state.draws);
        assert(resized.bind.blend == old(dev)@.state.bind.blend);
        lemma_frame_drawn_from(
            old(dev)@.state,
            resized,
            dev@.state,
            *old(globals),
            *targets,
            *programs,
            *lights,
        );
    }
    proof {
        lemma_appends(
            old(dev)@,
            dev@,
            run_frame_commands(*old(globals), *old(targets), *programs, *old(lights), *lights),
        );
    }
}

} // verus!
