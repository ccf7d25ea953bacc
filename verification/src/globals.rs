//! The scene: everything a frame needs besides its render targets.

use vstd::prelude::*;
use crate::buffers::Vertex;
use crate::command::CommandView;
use crate::device::{appends, lemma_appends, lemma_appends_nothing, Device};
use crate::math::{Scalar, Vector2, Vector3, MINUS_ONE, ONE, ZERO};
use crate::models::{Camera, Model};
use crate::state::keeps;

verus! {

/// Bit pattern of `7.0`, the movement speed a scene starts with.
pub const SEVEN: u32 = 0x40E0_0000;

/// The one root of the scene, handed by reference to every pass.
#[derive(Debug)]
pub struct Globals {
    /// Size of the output surface in pixels, as the window reports it.
    pub size: (u32, u32),
    /// The same size as reals, as the shading programs take it.
    pub screen_size: Vector2,
    pub movement_speed: Scalar,
    pub look_sensitivity: Scalar,
    pub mouse_look_sensitivity: Scalar,
    /// Whether the pointer is to be captured while the window has focus.
    pub should_grab_mouse: bool,
    pub cam: Camera,
    pub models: Vec<Model>,
    /// The quad that covers the screen, drawn by every full-screen pass.
    pub screen_model: Model,
    /// The marker drawn at the position of every light.
    pub light_model: Model,
}

/// The corner of the screen quad at `(x, y)`, at depth -1, with texture
/// coordinate `(u, v)`, without tint or normal.
pub open spec fn quad_corner(x: u32, y: u32, u: u32, v: u32) -> Vertex {
    (
        Vector3 { x: Scalar { bits: x }, y: Scalar { bits: y }, z: Scalar { bits: MINUS_ONE } },
        Vector3::spec_zero(),
        Vector3::spec_zero(),
        Vector2 { x: Scalar { bits: u }, y: Scalar { bits: v } },
    )
}

/// The four corners of the screen quad: bottom left, top left, bottom right,
/// top right, in clip space.
pub open spec fn screen_quad_vertices() -> Seq<Vertex> {
    seq![quad_corner(MINUS_ONE, MINUS_ONE, ZERO, ZERO)].push(
        quad_corner(MINUS_ONE, ONE, ZERO, ONE),
    ).push(quad_corner(ONE, MINUS_ONE, ONE, ZERO)).push(quad_corner(ONE, ONE, ONE, ONE))
}

/// The two triangles of the screen quad.
pub open spec fn screen_quad_indices() -> Seq<u32> {
    seq![0u32].push(1).push(2).push(1).push(2).push(3)
}

fn corner(x: u32, y: u32, u: u32, v: u32) -> (vertex: Vertex)
    ensures
        vertex == quad_corner(x, y, u, v),
{
    (
        Vector3 { x: Scalar { bits: x }, y: Scalar { bits: y }, z: Scalar { bits: MINUS_ONE } },
        Vector3::zero(),
        Vector3::zero(),
        Vector2 { x: Scalar { bits: u }, y: Scalar { bits: v } },
    )
}

/// The commands of [`Globals::new`] when the next free handle is `first`.
pub open spec fn new_commands(first: u32, vert: Seq<char>, frag: Seq<char>) -> Seq<CommandView> {
    Model::new_commands(first, vert, frag) + Model::upload_commands(
        first,
        (first + 1) as u32,
        (first + 2) as u32,
        screen_quad_vertices(),
        screen_quad_indices(),
    )
}

impl Globals {
    /// Puts a scene together from its camera, its meshes and its light
    /// marker, and makes and uploads the screen quad, whose program is built
    /// from the two source texts of the final pass.
    ///
    /// `size` is the size of the output surface, `screen_size` the same
    /// size as reals. Movement speed starts at 7, both sensitivities at 1,
    /// and the pointer is to be captured.
    pub fn new(
        dev: &mut Device,
        size: (u32, u32),
        screen_size: Vector2,
        cam: Camera,
        models: Vec<Model>,
        light_model: Model,
        final_vert_shader_text: &str,
        final_frag_shader_text: &str,
    ) -> (globals: Globals)
        requires
            old(dev)@.room(7),
        ensures
            globals.size == size,
            globals.screen_size == screen_size,
            globals.movement_speed == (Scalar { bits: SEVEN }),
            globals.look_sensitivity == (Scalar { bits: ONE }),
            globals.mouse_look_sensitivity == (Scalar { bits: ONE }),
            globals.should_grab_mouse,
            globals.cam == cam,
            globals.models == models,
            globals.light_model == light_model,
            globals.screen_model.vertices@ == screen_quad_vertices(),
            globals.screen_model.indices@ == screen_quad_indices(),
            globals.screen_model.name@ == "Screen Model"@,
            globals.screen_model.placed_as_new(),
            globals.screen_model.vbo.id() == old(dev)@.next_handle(),
            globals.screen_model.vao.id() == old(dev)@.next_handle() + 1,
            globals.screen_model.ibo.id() == old(dev)@.next_handle() + 2,
            globals.screen_model.shader_program.id() == old(dev)@.next_handle() + 5,
            globals.screen_model.diffuse_texture.id() == old(dev)@.next_handle() + 6,
            appends(
                old(dev)@,
                final(dev)@,
                new_commands(
                    old(dev)@.next_handle(),
                    final_vert_shader_text@,
                    final_frag_shader_text@,
                ),
            ),
            final(dev)@.state.objects.len() == old(dev)@.state.objects.len() + 7,
            keeps(final(dev)@.state, old(dev)@.state),
            globals.screen_model.resident(final(dev)@.state),
            globals.screen_model.spec_uploaded_vertex_count(final(dev)@.state) == 4,
            globals.screen_model.spec_uploaded_index_count(final(dev)@.state) == 6,
            final(dev)@.state.draws == old(dev)@.state.draws,
    {
        let mut screen_model_vertices: Vec<Vertex> = Vec::new();
        screen_model_vertices.push(corner(MINUS_ONE, MINUS_ONE, ZERO, ZERO));
        screen_model_vertices.push(corner(MINUS_ONE, ONE, ZERO, ONE));
        screen_model_vertices.push(corner(ONE, MINUS_ONE, ONE, ZERO));
        screen_model_vertices.push(corner(ONE, ONE, ONE, ONE));
        let mut screen_model_indices: Vec<u32> = Vec::new();
        screen_model_indices.push(0);
        screen_model_indices.push(1);
        screen_model_indices.push(2);
        screen_model_indices.push(1);
        screen_model_indices.push(2);
        screen_model_indices.push(3);
        let screen_model: Model = Model::new(
            dev,
            &screen_model_vertices,
            &screen_model_indices,
            final_vert_shader_text,
            final_frag_shader_text,
            String::from_str("Screen Model"),
        );
        let ghost made = dev@.state;
        screen_model.start(dev);
        proof {
            assert(screen_model.vertices@ =~= screen_quad_vertices());
            assert(screen_model.indices@ =~= screen_quad_indices());
            assert forall|id: u32| old(dev)@.state.issued(id) implies #[trigger] dev@.state.object(
                id,
            ) == old(dev)@.state.object(id) by {
                assert(made.object(id) == old(dev)@.state.object(id));
            }
            lemma_appends(
                old(dev)@,
                dev@,
                new_commands(
                    old(dev)@.next_handle(),
                    final_vert_shader_text@,
                    final_frag_shader_text@,
                ),
            );
        }
        Globals {
            size,
            screen_size,
            movement_speed: Scalar { bits: SEVEN },
            look_sensitivity: Scalar { bits: ONE },
            mouse_look_sensitivity: Scalar { bits: ONE },
            should_grab_mouse: true,
            cam,
            models,
            screen_model,
            light_model,
        }
    }
}

/// The releases of the first `n` of `models`, in order.
pub open spec fn models_release_commands(models: Seq<Model>, n: nat) -> Seq<CommandView>
    decreases n,
{
    if n == 0 {
        Seq::empty()
    } else {
        models_release_commands(models, (n - 1) as nat) + models[n - 1].release_commands()
    }
}

impl Globals {
    /// The commands of [`Globals::release`].
    pub open spec fn release_commands(&self) -> Seq<CommandView> {
        models_release_commands(self.models@, self.models@.len())
            + self.screen_model.release_commands() + self.light_model.release_commands()
    }

    /// Tears the scene down: releases every mesh in the order in which they
    /// are stored, then the screen quad, then the light marker. The scene is
    /// consumed.
    pub fn release(self, dev: &mut Device)
        ensures
            appends(old(dev)@, final(dev)@, self.release_commands()),
            final(dev)@.state.objects.len() == old(dev)@.state.objects.len(),
            final(dev)@.state.draws == old(dev)@.state.draws,
    {
        let ghost released = self.release_commands();
        let ghost all = self.models@;
        let Globals { models, screen_model, light_model, .. } = self;
        let mut models = models;
        proof {
            lemma_appends_nothing(dev@);
        }
        let ghost mut done: nat = 0;
        while models.len() > 0
            invariant
                done + models@.len() == all.len(),
                models@ == all.skip(done as int),
                dev@.extends(old(dev)@, models_release_commands(all, done)),
                dev@.state.objects.len() == old(dev)@.state.objects.len(),
                dev@.state.draws == old(dev)@.state.draws,
            decreases models.len(),
        {
            let model: Model = models.remove(0);
            assert(model == all[done as int]);
            model.release(dev);
            proof {
                assert(models@ =~= all.skip(done as int + 1));
                done = done + 1;
            }
        }
        screen_model.release(dev);
        light_model.release(dev);
        proof {
            lemma_appends(old(dev)@, dev@, released);
        }
    }
}

} // verus!
