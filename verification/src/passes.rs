//! The passes of a frame, each as the commands it records.
//!
//! A frame runs its passes in one fixed order: the shadow passes, the
//! geometry pass into the G-buffer, one full-screen lighting pass per light
//! into the accumulation buffer, the final pass to the screen, and the light
//! markers. Within a pass, lights and meshes are taken in the order in which
//! they are stored.

use vstd::prelude::*;
use crate::buffers::{ModelTexture, Texture};
use crate::command::{
    plain, with_text, BufferTarget, Capability, CommandView, Face, Op, Payload, TextureTarget,
    TextureUnit,
};
use crate::device::{appends, lemma_appends, Device};
use crate::globals::Globals;
use crate::math::{MatrixValue, Outlook, Projection, Rotation, Scalar, Vector2, Vector3, ONE, ZERO};
use crate::models::{
    lemma_settling_is_idempotent, DirectionalLight, Model, PointLight, Sight, SpotLight,
};
use crate::shaders::{light_commands, Program};
use crate::state::{Bindings, Draw};

verus! {

/// Concatenation is associative.
pub proof fn lemma_add_assoc(a: Seq<CommandView>, b: Seq<CommandView>, c: Seq<CommandView>)
    ensures
        (a + b) + c == a + (b + c),
{
    assert((a + b) + c =~= a + (b + c));
}

/// Nothing appended is nothing changed.
pub proof fn lemma_add_empty(a: Seq<CommandView>)
    ensures
        a + Seq::<CommandView>::empty() == a,
{
    assert(a + Seq::<CommandView>::empty() =~= a);
}

/// The commands that clear the bound framebuffer to the given colour,
/// which is opaque.
pub open spec fn clear_commands(red: u32, green: u32, blue: u32, depth: bool) -> Seq<CommandView> {
    seq![
        plain(
            Op::ClearColor {
                red: Scalar { bits: red },
                green: Scalar { bits: green },
                blue: Scalar { bits: blue },
                alpha: Scalar { bits: ONE },
            },
        ),
    ].push(plain(Op::Clear { color: true, depth }))
}

fn clear(dev: &mut Device, red: u32, green: u32, blue: u32, depth: bool)
    ensures
        appends(old(dev)@, final(dev)@, clear_commands(red, green, blue, depth)),
        final(dev)@.state == old(dev)@.state,
{
    dev.submit(
        Op::ClearColor {
            red: Scalar { bits: red },
            green: Scalar { bits: green },
            blue: Scalar { bits: blue },
            alpha: Scalar { bits: ONE },
        },
        Payload::Nothing,
    );
    dev.submit(Op::Clear { color: true, depth }, Payload::Nothing);
    proof {
        lemma_appends(old(dev)@, dev@, clear_commands(red, green, blue, depth));
    }
}

/// `bind` with depth test and face culling on.
pub open spec fn solid_bindings(bind: Bindings) -> Bindings {
    Bindings { depth_test: true, cull_face: true, ..bind }
}

/// `bind` with depth test and face culling off.
pub open spec fn flat_bindings(bind: Bindings) -> Bindings {
    Bindings { depth_test: false, cull_face: false, ..bind }
}

/// The commands that switch depth test and face culling on.
pub open spec fn solid_commands() -> Seq<CommandView> {
    seq![plain(Op::Enable { capability: Capability::DepthTest })].push(
        plain(Op::Enable { capability: Capability::CullFace }),
    )
}

/// The commands that switch depth test and face culling off.
pub open spec fn flat_commands() -> Seq<CommandView> {
    seq![plain(Op::Disable { capability: Capability::DepthTest })].push(
        plain(Op::Disable { capability: Capability::CullFace }),
    )
}

fn solid(dev: &mut Device)
    ensures
        appends(old(dev)@, final(dev)@, solid_commands()),
        final(dev)@.state.objects == old(dev)@.state.objects,
        final(dev)@.state.bind == solid_bindings(old(dev)@.state.bind),
        final(dev)@.state.draws == old(dev)@.state.draws,
{
    dev.submit(Op::Enable { capability: Capability::DepthTest }, Payload::Nothing);
    dev.submit(Op::Enable { capability: Capability::CullFace }, Payload::Nothing);
    proof {
        lemma_appends(old(dev)@, dev@, solid_commands());
    }
}

fn flat(dev: &mut Device)
    ensures
        appends(old(dev)@, final(dev)@, flat_commands()),
        final(dev)@.state.objects == old(dev)@.state.objects,
        final(dev)@.state.bind == flat_bindings(old(dev)@.state.bind),
        final(dev)@.state.draws == old(dev)@.state.draws,
{
    dev.submit(Op::Disable { capability: Capability::DepthTest }, Payload::Nothing);
    dev.submit(Op::Disable { capability: Capability::CullFace }, Payload::Nothing);
    proof {
        lemma_appends(old(dev)@, dev@, flat_commands());
    }
}

/// The commands that draw one mesh in the geometry pass: back faces culled,
/// the mesh made current with its own program, then drawn lit if it takes
/// part in shadows and fullbright if not.
pub open spec fn geometry_commands(
    model: Model,
    screen_size: Vector2,
    view_matrix: MatrixValue,
    projection_matrix: MatrixValue,
) -> Seq<CommandView> {
    seq![plain(Op::CullFace { face: Face::Back })] + model.start_render_commands(
        model.shader_program.id(),
    ) + if model.render_shadows {
        model.render_commands(screen_size, view_matrix, projection_matrix)
    } else {
        model.render_fullbright_commands(screen_size, view_matrix, projection_matrix)
    }
}

/// The bindings under which a mesh is drawn with `program`, `culled` faces
/// culled, where `bind` held before: the program in use and the mesh bound.
pub open spec fn mesh_bindings(
    model: Model,
    program: u32,
    culled: Face,
    bind: Bindings,
) -> Bindings {
    model.bound(Bindings { program, culled_face: culled, ..bind })
}

/// The draws of a pass over all of `models` that began under `bind`: every
/// mesh once, in order, with its own program, `culled` faces culled, depth
/// test and culling on.
pub open spec fn mesh_draws_made(models: Seq<Model>, culled: Face, bind: Bindings) -> Seq<Draw> {
    Seq::new(
        models.len(),
        |k: int|
            models[k].draw(
                mesh_bindings(
                    models[k],
                    models[k].shader_program.id(),
                    culled,
                    solid_bindings(bind),
                ),
            ),
    )
}

/// The bindings after the first `n` of `models` were drawn with `culled`
/// faces culled: those of the last draw, or `bind` with depth test and
/// culling on if there was none.
pub open spec fn bindings_after(
    models: Seq<Model>,
    n: nat,
    culled: Face,
    bind: Bindings,
) -> Bindings {
    if n == 0 {
        solid_bindings(bind)
    } else {
        mesh_bindings(
            models[n - 1],
            models[n - 1].shader_program.id(),
            culled,
            solid_bindings(bind),
        )
    }
}

fn draw_geometry(
    dev: &mut Device,
    model: &Model,
    screen_size: Vector2,
    view_matrix: MatrixValue,
    projection_matrix: MatrixValue,
)
    ensures
        appends(
            old(dev)@,
            final(dev)@,
            geometry_commands(*model, screen_size, view_matrix, projection_matrix),
        ),
        final(dev)@.state.objects == old(dev)@.state.objects,
        final(dev)@.state.bind == mesh_bindings(
            *model,
            model.shader_program.id(),
            Face::Back,
            old(dev)@.state.bind,
        ),
        final(dev)@.state.draws == old(dev)@.state.draws.push(model.draw(final(dev)@.state.bind)),
{
    dev.submit(Op::CullFace { face: Face::Back }, Payload::Nothing);
    model.start_render(dev);
    if model.render_shadows {
        model.render(dev, screen_size, view_matrix, projection_matrix);
    } else {
        model.render_fullbright(dev, screen_size, view_matrix, projection_matrix);
    }
    proof {
        lemma_appends(
            old(dev)@,
            dev@,
            geometry_commands(*model, screen_size, view_matrix, projection_matrix),
        );
    }
}

/// The geometry draws of the first `n` of `models`, in order.
pub open spec fn geometry_draws(
    models: Seq<Model>,
    n: nat,
    screen_size: Vector2,
    view_matrix: MatrixValue,
    projection_matrix: MatrixValue,
) -> Seq<CommandView>
    decreases n,
{
    if n == 0 {
        Seq::empty()
    } else {
        geometry_draws(models, (n - 1) as nat, screen_size, view_matrix, projection_matrix)
            + geometry_commands(models[n - 1], screen_size, view_matrix, projection_matrix)
    }
}

/// The commands of [`draw_scene`].
pub open spec fn draw_scene_commands(
    models: Seq<Model>,
    screen_size: Vector2,
    projection_matrix: MatrixValue,
    view_matrix: MatrixValue,
) -> Seq<CommandView> {
    clear_commands(ZERO, ZERO, ZERO, true) + solid_commands() + geometry_draws(
        models,
        models.len(),
        screen_size,
        view_matrix,
        projection_matrix,
    )
}

/// The geometry pass: clears colour and depth of the bound framebuffer to
/// black, switches depth test and back-face culling on, and draws every
/// mesh of the scene in order, shadow-casting ones lit, the others
/// fullbright.
///
/// Every mesh is drawn exactly once, into the framebuffer that was bound
/// when the pass began, with its own program in use and its own buffers and
/// texture bound.
pub fn draw_scene(
    dev: &mut Device,
    globals: &Globals,
    projection_matrix: MatrixValue,
    view_matrix: MatrixValue,
)
    ensures
        appends(
            old(dev)@,
            final(dev)@,
            draw_scene_commands(
                globals.models@,
                globals.screen_size,
                projection_matrix,
                view_matrix,
            ),
        ),
        final(dev)@.state.objects == old(dev)@.state.objects,
        final(dev)@.state.bind == bindings_after(
            globals.models@,
            globals.models@.len(),
            Face::Back,
            old(dev)@.state.bind,
        ),
        final(dev)@.state.draws == old(dev)@.state.draws + mesh_draws_made(
            globals.models@,
            Face::Back,
            old(dev)@.state.bind,
        ),
{
    let screen_size: Vector2 = globals.screen_size;
    clear(dev, ZERO, ZERO, ZERO, true);
    solid(dev);
    let ghost prelude = clear_commands(ZERO, ZERO, ZERO, true) + solid_commands();
    let ghost start = old(dev)@.state.bind;
    proof {
        lemma_add_empty(prelude);
        assert(dev@.state.draws =~= old(dev)@.state.draws + mesh_draws_made(
            globals.models@.take(0),
            Face::Back,
            start,
        ));
    }
    let mut i: usize = 0;
    while i < globals.models.len()
        invariant
            i <= globals.models.len(),
            screen_size == globals.screen_size,
            start == old(dev)@.state.bind,
            dev@.extends(
                old(dev)@,
                prelude + geometry_draws(
                    globals.models@,
                    i as nat,
                    screen_size,
                    view_matrix,
                    projection_matrix,
                ),
            ),
            dev@.state.objects == old(dev)@.state.objects,
            dev@.state.bind == bindings_after(globals.models@, i as nat, Face::Back, start),
            dev@.state.draws == old(dev)@.state.draws + mesh_draws_made(
                globals.models@.take(i as int),
                Face::Back,
                start,
            ),
        decreases globals.models.len() - i,
    {
        draw_geometry(dev, &globals.models[i], screen_size, view_matrix, projection_matrix);
        proof {
            lemma_add_assoc(
                prelude,
                geometry_draws(
                    globals.models@,
                    i as nat,
                    screen_size,
                    view_matrix,
                    projection_matrix,
                ),
                geometry_commands(
                    globals.models@[i as int],
                    screen_size,
                    view_matrix,
                    projection_matrix,
                ),
            );
            assert(dev@.state.draws =~= old(dev)@.state.draws + mesh_draws_made(
                globals.models@.take(i + 1),
                Face::Back,
                start,
            ));
        }
        i += 1;
    }
    proof {
        assert(globals.models@.take(i as int) =~= globals.models@);
        lemma_appends(
            old(dev)@,
            dev@,
            draw_scene_commands(
                globals.models@,
                globals.screen_size,
                projection_matrix,
                view_matrix,
            ),
        );
    }
}

/// The commands that draw one mesh in a plain shadow pass: front faces
/// culled, the mesh made current with its own program and drawn fullbright
/// for a screen of no size.
pub open spec fn shadow_commands(
    model: Model,
    view_matrix: MatrixValue,
    projection_matrix: MatrixValue,
) -> Seq<CommandView> {
    seq![plain(Op::CullFace { face: Face::Front })] + model.start_render_commands(
        model.shader_program.id(),
    ) + model.render_fullbright_commands(Vector2::zero(), view_matrix, projection_matrix)
}

fn draw_shadow(
    dev: &mut Device,
    model: &Model,
    view_matrix: MatrixValue,
    projection_matrix: MatrixValue,
)
    ensures
        appends(
            old(dev)@,
            final(dev)@,
            shadow_commands(*model, view_matrix, projection_matrix),
        ),
        final(dev)@.state.objects == old(dev)@.state.objects,
        final(dev)@.state.bind == mesh_bindings(
            *model,
            model.shader_program.id(),
            Face::Front,
            old(dev)@.state.bind,
        ),
        final(dev)@.state.draws == old(dev)@.state.draws.push(model.draw(final(dev)@.state.bind)),
{
    dev.submit(Op::CullFace { face: Face::Front }, Payload::Nothing);
    model.start_render(dev);
    model.render_fullbright(dev, Vector2::zero(), view_matrix, projection_matrix);
    proof {
        lemma_appends(old(dev)@, dev@, shadow_commands(*model, view_matrix, projection_matrix));
    }
}

/// The shadow draws of the first `n` of `models`, in order.
pub open spec fn shadow_draws(
    models: Seq<Model>,
    n: nat,
    view_matrix: MatrixValue,
    projection_matrix: MatrixValue,
) -> Seq<CommandView>
    decreases n,
{
    if n == 0 {
        Seq::empty()
    } else {
        shadow_draws(models, (n - 1) as nat, view_matrix, projection_matrix) + shadow_commands(
            models[n - 1],
            view_matrix,
            projection_matrix,
        )
    }
}

/// The commands of [`draw_scene_shadows`].
pub open spec fn draw_scene_shadows_commands(
    models: Seq<Model>,
    projection_matrix: MatrixValue,
    view_matrix: MatrixValue,
) -> Seq<CommandView> {
    solid_commands() + clear_commands(ZERO, ZERO, ZERO, true) + shadow_draws(
        models,
        models.len(),
        view_matrix,
        projection_matrix,
    )
}

/// A shadow pass through the meshes' own programs: switches depth test and
/// culling on, clears to black, and draws every mesh fullbright with its
/// front faces culled.
///
/// Every mesh is drawn exactly once, into the framebuffer that was bound
/// when the pass began.
pub fn draw_scene_shadows(
    dev: &mut Device,
    globals: &Globals,
    projection_matrix: MatrixValue,
    view_matrix: MatrixValue,
)
    ensures
        appends(
            old(dev)@,
            final(dev)@,
            draw_scene_shadows_commands(globals.models@, projection_matrix, view_matrix),
        ),
        final(dev)@.state.objects == old(dev)@.state.objects,
        final(dev)@.state.bind == bindings_after(
            globals.models@,
            globals.models@.len(),
            Face::Front,
            old(dev)@.state.bind,
        ),
        final(dev)@.state.draws == old(dev)@.state.draws + mesh_draws_made(
            globals.models@,
            Face::Front,
            old(dev)@.state.bind,
        ),
{
    solid(dev);
    clear(dev, ZERO, ZERO, ZERO, true);
    let ghost prelude = solid_commands() + clear_commands(ZERO, ZERO, ZERO, true);
    let ghost start = old(dev)@.state.bind;
    proof {
        lemma_add_empty(prelude);
        assert(dev@.state.draws =~= old(dev)@.state.draws + mesh_draws_made(
            globals.models@.take(0),
            Face::Front,
            start,
        ));
    }
    let mut i: usize = 0;
    while i < globals.models.len()
        invariant
            i <= globals.models.len(),
            start == old(dev)@.state.bind,
            dev@.extends(
                old(dev)@,
                prelude + shadow_draws(globals.models@, i as nat, view_matrix, projection_matrix),
            ),
            dev@.state.objects == old(dev)@.state.objects,
            dev@.state.bind == bindings_after(globals.models@, i as nat, Face::Front, start),
            dev@.state.draws == old(dev)@.state.draws + mesh_draws_made(
                globals.models@.take(i as int),
                Face::Front,
                start,
            ),
        decreases globals.models.len() - i,
    {
        draw_shadow(dev, &globals.models[i], view_matrix, projection_matrix);
        proof {
            lemma_add_assoc(
                prelude,
                shadow_draws(globals.models@, i as nat, view_matrix, projection_matrix),
                shadow_commands(globals.models@[i as int], view_matrix, projection_matrix),
            );
            assert(dev@.state.draws =~= old(dev)@.state.draws + mesh_draws_made(
                globals.models@.take(i + 1),
                Face::Front,
                start,
            ));
        }
        i += 1;
    }
    proof {
        assert(globals.models@.take(i as int) =~= globals.models@);
        lemma_appends(
            old(dev)@,
            dev@,
            draw_scene_shadows_commands(globals.models@, projection_matrix, view_matrix),
        );
    }
}

/// Whether a mesh is drawn in a pass that is, or is not, restricted to
/// shadow casters.
pub open spec fn takes_part(model: Model, is_render_shadows: bool) -> bool {
    !is_render_shadows || model.render_shadows
}

/// The commands that draw one mesh through `program`: nothing if the pass
/// is restricted to shadow casters and the mesh is none; else front faces
/// culled, the mesh made current with `program`, the screen size looked up
/// in the mesh's own program, and the draw.
pub open spec fn custom_commands(
    model: Model,
    screen_size: Vector2,
    view_matrix: MatrixValue,
    projection_matrix: MatrixValue,
    program: u32,
    is_render_shadows: bool,
) -> Seq<CommandView> {
    if takes_part(model, is_render_shadows) {
        (seq![plain(Op::CullFace { face: Face::Front })] + model.start_render_commands(
            program,
        )).push(
            with_text(
                Op::Uniform1f { program: model.shader_program.id(), value: screen_size.x },
                "uSize.x"@,
            ),
        ).push(
            with_text(
                Op::Uniform1f { program: model.shader_program.id(), value: screen_size.y },
                "uSize.y"@,
            ),
        ) + model.render_custom_shader_program_commands(view_matrix, projection_matrix, program)
    } else {
        Seq::empty()
    }
}

/// The draws through `program` of the first `n` of `models` in a pass that
/// began under `bind`: every mesh that takes part once, in order, with
/// `program` in use, its front faces culled, depth test and culling on.
pub open spec fn custom_draws_made(
    models: Seq<Model>,
    n: nat,
    program: u32,
    is_render_shadows: bool,
    bind: Bindings,
) -> Seq<Draw>
    decreases n,
{
    if n == 0 {
        Seq::empty()
    } else {
        let before = custom_draws_made(models, (n - 1) as nat, program, is_render_shadows, bind);
        if takes_part(models[n - 1], is_render_shadows) {
            before.push(
                models[n - 1].draw(
                    mesh_bindings(models[n - 1], program, Face::Front, solid_bindings(bind)),
                ),
            )
        } else {
            before
        }
    }
}

/// The bindings after the first `n` of `models` were gone through in a pass
/// through `program` that began under `bind`: those of the last draw, or
/// `bind` with depth test and culling on if nothing was drawn.
pub open spec fn custom_bindings_after(
    models: Seq<Model>,
    n: nat,
    program: u32,
    is_render_shadows: bool,
    bind: Bindings,
) -> Bindings
    decreases n,
{
    if n == 0 {
        solid_bindings(bind)
    } else if takes_part(models[n - 1], is_render_shadows) {
        mesh_bindings(models[n - 1], program, Face::Front, solid_bindings(bind))
    } else {
        custom_bindings_after(models, (n - 1) as nat, program, is_render_shadows, bind)
    }
}

/// Whatever a pass through `program` draws, it draws with `program` in use,
/// front faces culled, depth test and culling on, and with every binding
/// that a mesh does not bring along as it was when the pass began; and the
/// pass ends under such bindings too.
pub proof fn lemma_custom_draws_keep_to_the_pass(
    models: Seq<Model>,
    n: nat,
    program: u32,
    is_render_shadows: bool,
    bind: Bindings,
)
    requires
        n <= models.len(),
    ensures
        forall|i: int|
            0 <= i < custom_draws_made(models, n, program, is_render_shadows, bind).len()
                ==> kept_to_pass(
                (#[trigger] custom_draws_made(models, n, program, is_render_shadows, bind)[i]).bind,
                program,
                Face::Front,
                bind,
            ),
        custom_draws_made(models, n, program, is_render_shadows, bind).len() <= n,
        custom_draws_made(models, n, program, is_render_shadows, bind).len() == 0
            ==> custom_bindings_after(models, n, program, is_render_shadows, bind)
            == solid_bindings(bind),
        custom_draws_made(models, n, program, is_render_shadows, bind).len() > 0
            ==> custom_bindings_after(models, n, program, is_render_shadows, bind)
            == custom_draws_made(models, n, program, is_render_shadows, bind).last().bind,
    decreases n,
{
    if n > 0 {
        lemma_custom_draws_keep_to_the_pass(
            models,
            (n - 1) as nat,
            program,
            is_render_shadows,
            bind,
        );
    }
}

/// Whether `drawn` are bindings under which a pass that began under `bind`
/// draws a mesh with `program` and `culled` faces culled: depth test and
/// culling on, and everything that a mesh does not bring along as in `bind`.
pub open spec fn kept_to_pass(drawn: Bindings, program: u32, culled: Face, bind: Bindings) -> bool {
    drawn == (Bindings {
        array_buffer: drawn.array_buffer,
        element_buffer: drawn.element_buffer,
        vertex_array: drawn.vertex_array,
        texture0: drawn.texture0,
        active_unit: TextureUnit::Unit0,
        program,
        culled_face: culled,
        ..solid_bindings(bind)
    })
}

fn draw_custom(
    dev: &mut Device,
    model: &Model,
    screen_size: Vector2,
    view_matrix: MatrixValue,
    projection_matrix: MatrixValue,
    shader_program: &Program,
    is_render_shadows: bool,
)
    ensures
        appends(
            old(dev)@,
            final(dev)@,
            custom_commands(
                *model,
                screen_size,
                view_matrix,
                projection_matrix,
                shader_program.id(),
                is_render_shadows,
            ),
        ),
        final(dev)@.state.objects == old(dev)@.state.objects,
        final(dev)@.state.bind == if takes_part(*model, is_render_shadows) {
            mesh_bindings(*model, shader_program.id(), Face::Front, old(dev)@.state.bind)
        } else {
            old(dev)@.state.bind
        },
        final(dev)@.state.draws == if takes_part(*model, is_render_shadows) {
            old(dev)@.state.draws.push(model.draw(final(dev)@.state.bind))
        } else {
            old(dev)@.state.draws
        },
{
    if (is_render_shadows && model.render_shadows) || !is_render_shadows {
        dev.submit(Op::CullFace { face: Face::Front }, Payload::Nothing);
        model.start_render_custom_shader_program(dev, shader_program);
        model.shader_program.set_float(dev, "uSize.x", screen_size.x);
        model.shader_program.set_float(dev, "uSize.y", screen_size.y);
        model.render_custom_shader_program(dev, view_matrix, projection_matrix, shader_program);
        proof {
            lemma_appends(
                old(dev)@,
                dev@,
                custom_commands(
                    *model,
                    screen_size,
                    view_matrix,
                    projection_matrix,
                    shader_program.id(),
                    is_render_shadows,
                ),
            );
        }
    } else {
        proof {
            crate::device::lemma_appends_nothing(dev@);
        }
    }
}

/// The draws through `program` of the first `n` of `models`, in order.
pub open spec fn custom_draws(
    models: Seq<Model>,
    n: nat,
    screen_size: Vector2,
    view_matrix: MatrixValue,
    projection_matrix: MatrixValue,
    program: u32,
    is_render_shadows: bool,
) -> Seq<CommandView>
    decreases n,
{
    if n == 0 {
        Seq::empty()
    } else {
        custom_draws(
            models,
            (n - 1) as nat,
            screen_size,
            view_matrix,
            projection_matrix,
            program,
            is_render_shadows,
        ) + custom_commands(
            models[n - 1],
            screen_size,
            view_matrix,
            projection_matrix,
            program,
            is_render_shadows,
        )
    }
}

/// The commands of [`draw_scene_custom_shader_program`].
pub open spec fn draw_scene_custom_shader_program_commands(
    models: Seq<Model>,
    screen_size: Vector2,
    projection_matrix: MatrixValue,
    view_matrix: MatrixValue,
    program: u32,
    is_render_shadows: bool,
) -> Seq<CommandView> {
    solid_commands() + clear_commands(ZERO, ZERO, ZERO, true) + custom_draws(
        models,
        models.len(),
        screen_size,
        view_matrix,
        projection_matrix,
        program,
        is_render_shadows,
    )
}

/// Draws the scene through one program in place of the meshes' own, as a
/// depth-only shadow pass does: switches depth test and culling on, clears
/// to black, and draws with front faces culled every mesh, or, if
/// `is_render_shadows`, every mesh that casts shadows.
///
/// Every mesh that takes part is drawn exactly once, into the framebuffer
/// that was bound when the pass began, with `shader_program` in use.
pub fn draw_scene_custom_shader_program(
    dev: &mut Device,
    globals: &Globals,
    projection_matrix: MatrixValue,
    view_matrix: MatrixValue,
    shader_program: &Program,
    is_render_shadows: bool,
)
    ensures
        appends(
            old(dev)@,
            final(dev)@,
            draw_scene_custom_shader_program_commands(
                globals.models@,
                globals.screen_size,
                projection_matrix,
                view_matrix,
                shader_program.id(),
                is_render_shadows,
            ),
        ),
        final(dev)@.state.objects == old(dev)@.state.objects,
        final(dev)@.state.bind == custom_bindings_after(
            globals.models@,
            globals.models@.len(),
            shader_program.id(),
            is_render_shadows,
            old(dev)@.state.bind,
        ),
        final(dev)@.state.draws == old(dev)@.state.draws + custom_draws_made(
            globals.models@,
            globals.models@.len(),
            shader_program.id(),
            is_render_shadows,
            old(dev)@.state.bind,
        ),
{
    let screen_size: Vector2 = globals.screen_size;
    solid(dev);
    clear(dev, ZERO, ZERO, ZERO, true);
    let ghost prelude = solid_commands() + clear_commands(ZERO, ZERO, ZERO, true);
    let ghost start = old(dev)@.state.bind;
    let ghost program = shader_program.id();
    proof {
        lemma_add_empty(prelude);
        assert(dev@.state.draws =~= old(dev)@.state.draws + custom_draws_made(
            globals.models@,
            0,
            program,
            is_render_shadows,
            start,
        ));
    }
    let mut i: usize = 0;
    while i < globals.models.len()
        invariant
            i <= globals.models.len(),
            screen_size == globals.screen_size,
            start == old(dev)@.state.bind,
            program == shader_program.id(),
            dev@.extends(
                old(dev)@,
                prelude + custom_draws(
                    globals.models@,
                    i as nat,
                    screen_size,
                    view_matrix,
                    projection_matrix,
                    program,
                    is_render_shadows,
                ),
            ),
            dev@.state.objects == old(dev)@.state.objects,
            dev@.state.bind == custom_bindings_after(
                globals.models@,
                i as nat,
                program,
                is_render_shadows,
                start,
            ),
            dev@.state.draws == old(dev)@.state.draws + custom_draws_made(
                globals.models@,
                i as nat,
                program,
                is_render_shadows,
                start,
            ),
        decreases globals.models.len() - i,
    {
        proof {
            lemma_custom_draws_keep_to_the_pass(
                globals.models@,
                i as nat,
                program,
                is_render_shadows,
                start,
            );
        }
        draw_custom(
            dev,
            &globals.models[i],
            screen_size,
            view_matrix,
            projection_matrix,
            shader_program,
            is_render_shadows,
        );
        proof {
            lemma_add_assoc(
                prelude,
                custom_draws(
                    globals.models@,
                    i as nat,
                    screen_size,
                    view_matrix,
                    projection_matrix,
                    program,
                    is_render_shadows,
                ),
                custom_commands(
                    globals.models@[i as int],
                    screen_size,
                    view_matrix,
                    projection_matrix,
                    program,
                    is_render_shadows,
                ),
            );
            assert(dev@.state.draws =~= old(dev)@.state.draws + custom_draws_made(
                globals.models@,
                (i + 1) as nat,
                program,
                is_render_shadows,
                start,
            ));
        }
        i += 1;
    }
    proof {
        lemma_appends(
            old(dev)@,
            dev@,
            draw_scene_custom_shader_program_commands(
                globals.models@,
                globals.screen_size,
                projection_matrix,
                view_matrix,
                program,
                is_render_shadows,
            ),
        );
    }
}

/// The commands that make `texture` the 2-D texture of `unit`, and `unit`
/// the active one.
pub open spec fn sample_commands(unit: TextureUnit, texture: u32) -> Seq<CommandView> {
    seq![plain(Op::ActiveTexture { unit })].push(
        plain(Op::BindTexture { target: TextureTarget::Texture2D, id: texture }),
    )
}

/// `bind` after `texture` was made the 2-D texture of `unit`, and `unit`
/// the active one.
pub open spec fn sampled(bind: Bindings, unit: TextureUnit, texture: u32) -> Bindings {
    (Bindings { active_unit: unit, ..bind }).bind_texture(TextureTarget::Texture2D, texture)
}

fn sample(dev: &mut Device, unit: TextureUnit, texture: &Texture)
    ensures
        appends(old(dev)@, final(dev)@, sample_commands(unit, texture.id())),
        final(dev)@.state.objects == old(dev)@.state.objects,
        final(dev)@.state.bind == sampled(old(dev)@.state.bind, unit, texture.id()),
        final(dev)@.state.draws == old(dev)@.state.draws,
{
    dev.submit(Op::ActiveTexture { unit }, Payload::Nothing);
    texture.bind_texture(dev);
    proof {
        lemma_appends(old(dev)@, dev@, sample_commands(unit, texture.id()));
    }
}

/// The commands with which a full-screen pass takes up its work: `program`
/// in use, the screen quad's vertex buffer bound, and the three images of
/// the G-buffer at units 0, 1 and 2.
pub open spec fn inputs_commands(
    program: u32,
    screen_model: Model,
    g_position: u32,
    g_normal: u32,
    g_albedo_spec: u32,
) -> Seq<CommandView> {
    seq![plain(Op::UseProgram { id: program })].push(
        plain(Op::BindBuffer { target: BufferTarget::Array, id: screen_model.vbo.id() }),
    ) + sample_commands(TextureUnit::Unit0, g_position) + sample_commands(
        TextureUnit::Unit1,
        g_normal,
    ) + sample_commands(TextureUnit::Unit2, g_albedo_spec)
}

fn take_inputs(
    dev: &mut Device,
    shader_program: &Program,
    screen_model: &Model,
    g_position: &Texture,
    g_normal: &Texture,
    g_albedo_spec: &Texture,
)
    ensures
        appends(
            old(dev)@,
            final(dev)@,
            inputs_commands(
                shader_program.id(),
                *screen_model,
                g_position.id(),
                g_normal.id(),
                g_albedo_spec.id(),
            ),
        ),
        final(dev)@.state.objects == old(dev)@.state.objects,
        final(dev)@.state.bind == (Bindings {
            program: shader_program.id(),
            array_buffer: screen_model.vbo.id(),
            active_unit: TextureUnit::Unit2,
            texture0: g_position.id(),
            texture1: g_normal.id(),
            texture2: g_albedo_spec.id(),
            ..old(dev)@.state.bind
        }),
        final(dev)@.state.draws == old(dev)@.state.draws,
{
    shader_program.set(dev);
    screen_model.vbo.bind(dev);
    sample(dev, TextureUnit::Unit0, g_position);
    sample(dev, TextureUnit::Unit1, g_normal);
    sample(dev, TextureUnit::Unit2, g_albedo_spec);
    proof {
        lemma_appends(
            old(dev)@,
            dev@,
            inputs_commands(
                shader_program.id(),
                *screen_model,
                g_position.id(),
                g_normal.id(),
                g_albedo_spec.id(),
            ),
        );
    }
}

/// The commands that tell `program` at which units the three images of the
/// G-buffer are.
pub open spec fn samplers_commands(program: u32) -> Seq<CommandView> {
    seq![with_text(Op::Uniform1i { program, value: 0 }, "gPosition"@)].push(
        with_text(Op::Uniform1i { program, value: 1 }, "gNormal"@),
    ).push(with_text(Op::Uniform1i { program, value: 2 }, "gAlbedoSpec"@))
}

fn name_samplers(dev: &mut Device, shader_program: &Program)
    ensures
        appends(old(dev)@, final(dev)@, samplers_commands(shader_program.id())),
        final(dev)@.state == old(dev)@.state,
{
    shader_program.set_int(dev, "gPosition", 0);
    shader_program.set_int(dev, "gNormal", 1);
    shader_program.set_int(dev, "gAlbedoSpec", 2);
    proof {
        lemma_appends(old(dev)@, dev@, samplers_commands(shader_program.id()));
    }
}

/// The commands that hand the camera position to `program` and bind the
/// screen quad's vertex array and index buffer.
pub open spec fn quad_commands(program: u32, view_position: Vector3, screen_model: Model) -> Seq<
    CommandView,
> {
    seq![with_text(Op::Uniform3f { program, value: view_position }, "viewPos"@)].push(
        plain(Op::BindVertexArray { id: screen_model.vao.id() }),
    ).push(plain(Op::BindBuffer { target: BufferTarget::ElementArray, id: screen_model.ibo.id() }))
}

fn ready_quad(
    dev: &mut Device,
    shader_program: &Program,
    view_position: Vector3,
    screen_model: &Model,
)
    ensures
        appends(
            old(dev)@,
            final(dev)@,
            quad_commands(shader_program.id(), view_position, *screen_model),
        ),
        final(dev)@.state.objects == old(dev)@.state.objects,
        final(dev)@.state.bind == (Bindings {
            vertex_array: screen_model.vao.id(),
            element_buffer: screen_model.ibo.id(),
            ..old(dev)@.state.bind
        }),
        final(dev)@.state.draws == old(dev)@.state.draws,
{
    shader_program.set_vector3(dev, "viewPos", view_position);
    screen_model.vao.bind(dev);
    screen_model.ibo.bind(dev);
    proof {
        lemma_appends(
            old(dev)@,
            dev@,
            quad_commands(shader_program.id(), view_position, *screen_model),
        );
    }
}

/// The bindings under which a full-screen pass draws the screen quad with
/// `program`, where `bind` held before: the quad bound, and the three images
/// of the G-buffer at units 0, 1 and 2.
pub open spec fn lighting_bindings(
    screen_model: Model,
    program: u32,
    g_position: u32,
    g_normal: u32,
    g_albedo_spec: u32,
    bind: Bindings,
) -> Bindings {
    Bindings {
        program,
        array_buffer: screen_model.vbo.id(),
        vertex_array: screen_model.vao.id(),
        element_buffer: screen_model.ibo.id(),
        active_unit: TextureUnit::Unit2,
        texture0: g_position,
        texture1: g_normal,
        texture2: g_albedo_spec,
        ..bind
    }
}

/// The bindings under which a full-screen pass draws that has a fourth
/// input at unit 3 besides the G-buffer.
pub open spec fn shadowed_lighting_bindings(
    screen_model: Model,
    program: u32,
    g_position: u32,
    g_normal: u32,
    g_albedo_spec: u32,
    fourth: u32,
    bind: Bindings,
) -> Bindings {
    Bindings {
        active_unit: TextureUnit::Unit3,
        texture3: fourth,
        ..lighting_bindings(screen_model, program, g_position, g_normal, g_albedo_spec, bind)
    }
}

/// The draw of the screen quad that ends every full-screen pass: fullbright,
/// for a screen of no size, seen as the camera sees, with uniforms looked up
/// in the quad's own program.
pub open spec fn quad_draw_commands(screen_model: Model, sight: Sight) -> Seq<CommandView> {
    screen_model.render_fullbright_commands(Vector2::zero(), sight.view, sight.projection)
}

/// The scene after a pass has looked through its camera.
pub open spec fn looked(globals: Globals) -> Globals {
    Globals { cam: globals.cam.settled(), ..globals }
}

fn draw_quad(dev: &mut Device, globals: &mut Globals)
    ensures
        appends(
            old(dev)@,
            final(dev)@,
            quad_draw_commands(old(globals).screen_model, old(globals).cam.sight()),
        ),
        final(dev)@.state == old(dev)@.state.drawn(
            old(globals).screen_model.indices@.len() as usize,
        ),
        *final(globals) == looked(*old(globals)),
{
    let sight: Sight = globals.cam.look();
    globals.screen_model.render_fullbright(dev, Vector2::zero(), sight.view, sight.projection);
}

/// The commands of [`draw_point_lighting_pass`].
pub open spec fn draw_point_lighting_pass_commands(
    screen_model: Model,
    sight: Sight,
    program: u32,
    g_position: u32,
    g_normal: u32,
    g_albedo_spec: u32,
    point_light: PointLight,
) -> Seq<CommandView> {
    inputs_commands(program, screen_model, g_position, g_normal, g_albedo_spec)
        + samplers_commands(program) + quad_commands(program, sight.position, screen_model)
        + light_commands(
        program,
        "light"@,
        point_light.info.color,
        point_light.info.radius,
        point_light.position,
    ) + quad_draw_commands(screen_model, sight)
}

/// The lighting pass of one point light: takes the G-buffer as input, hands
/// the light to `shader_program`, and draws the screen quad as the camera
/// sees.
pub fn draw_point_lighting_pass(
    dev: &mut Device,
    globals: &mut Globals,
    shader_program: &Program,
    g_position: &Texture,
    g_normal: &Texture,
    g_albedo_spec: &Texture,
    point_light: &PointLight,
)
    ensures
        appends(
            old(dev)@,
            final(dev)@,
            draw_point_lighting_pass_commands(
                old(globals).screen_model,
                old(globals).cam.sight(),
                shader_program.id(),
                g_position.id(),
                g_normal.id(),
                g_albedo_spec.id(),
                *point_light,
            ),
        ),
        final(dev)@.state.objects == old(dev)@.state.objects,
        final(dev)@.state.bind == lighting_bindings(
            old(globals).screen_model,
            shader_program.id(),
            g_position.id(),
            g_normal.id(),
            g_albedo_spec.id(),
            old(dev)@.state.bind,
        ),
        final(dev)@.state.draws == old(dev)@.state.draws.push(
            old(globals).screen_model.draw(final(dev)@.state.bind),
        ),
        *final(globals) == looked(*old(globals)),
{
    take_inputs(dev, shader_program, &globals.screen_model, g_position, g_normal, g_albedo_spec);
    name_samplers(dev, shader_program);
    ready_quad(dev, shader_program, globals.cam.position, &globals.screen_model);
    shader_program.set_point_light_info(dev, "light", point_light.info, point_light.position);
    draw_quad(dev, globals);
    proof {
        lemma_appends(
            old(dev)@,
            dev@,
            draw_point_lighting_pass_commands(
                old(globals).screen_model,
                old(globals).cam.sight(),
                shader_program.id(),
                g_position.id(),
                g_normal.id(),
                g_albedo_spec.id(),
                *point_light,
            ),
        );
    }
}

/// The commands that hand a shadow-casting light to `program`: position,
/// direction, the light-space matrix as the product of projection and view,
/// and colour.
pub open spec fn caster_commands(
    program: u32,
    position: Vector3,
    direction: Vector3,
    light_projection: Projection,
    light_view: Outlook,
    color: Vector3,
) -> Seq<CommandView> {
    seq![with_text(Op::Uniform3f { program, value: position }, "light.Position"@)].push(
        with_text(Op::Uniform3f { program, value: direction }, "light.Direction"@),
    ).push(
        with_text(
            Op::UniformMatrix4 {
                program,
                value: MatrixValue::LightSpace { projection: light_projection, view: light_view },
            },
            "lightSpaceMatrix"@,
        ),
    ).push(with_text(Op::Uniform3f { program, value: color }, "light.Color"@))
}

fn hand_caster(
    dev: &mut Device,
    shader_program: &Program,
    position: Vector3,
    direction: Vector3,
    light_projection: Projection,
    light_view: Outlook,
    color: Vector3,
)
    ensures
        appends(
            old(dev)@,
            final(dev)@,
            caster_commands(
                shader_program.id(),
                position,
                direction,
                light_projection,
                light_view,
                color,
            ),
        ),
        final(dev)@.state == old(dev)@.state,
{
    shader_program.set_vector3(dev, "light.Position", position);
    shader_program.set_vector3(dev, "light.Direction", direction);
    shader_program.set_matrix4_float(
        dev,
        "lightSpaceMatrix",
        MatrixValue::LightSpace { projection: light_projection, view: light_view },
    );
    shader_program.set_vector3(dev, "light.Color", color);
    proof {
        lemma_appends(
            old(dev)@,
            dev@,
            caster_commands(
                shader_program.id(),
                position,
                direction,
                light_projection,
                light_view,
                color,
            ),
        );
    }
}

/// The commands with which the lighting pass of a shadow-casting light
/// starts: the inputs of any full-screen pass, the shadow map at unit 3,
/// the four units named, the camera position, and the quad bound.
pub open spec fn shadowed_inputs_commands(
    screen_model: Model,
    view_position: Vector3,
    program: u32,
    g_position: u32,
    g_normal: u32,
    g_albedo_spec: u32,
    shadow_texture: u32,
) -> Seq<CommandView> {
    (inputs_commands(program, screen_model, g_position, g_normal, g_albedo_spec)
        + sample_commands(TextureUnit::Unit3, shadow_texture) + samplers_commands(program)).push(
        with_text(Op::Uniform1i { program, value: 3 }, "shadowMap"@),
    ) + quad_commands(program, view_position, screen_model)
}

fn take_shadowed_inputs(
    dev: &mut Device,
    globals: &Globals,
    shader_program: &Program,
    g_position: &Texture,
    g_normal: &Texture,
    g_albedo_spec: &Texture,
    shadow_texture: &Texture,
)
    ensures
        appends(
            old(dev)@,
            final(dev)@,
            shadowed_inputs_commands(
                globals.screen_model,
                globals.cam.position,
                shader_program.id(),
                g_position.id(),
                g_normal.id(),
                g_albedo_spec.id(),
                shadow_texture.id(),
            ),
        ),
        final(dev)@.state.objects == old(dev)@.state.objects,
        final(dev)@.state.bind == shadowed_lighting_bindings(
            globals.screen_model,
            shader_program.id(),
            g_position.id(),
            g_normal.id(),
            g_albedo_spec.id(),
            shadow_texture.id(),
            old(dev)@.state.bind,
        ),
        final(dev)@.state.draws == old(dev)@.state.draws,
{
    take_inputs(dev, shader_program, &globals.screen_model, g_position, g_normal, g_albedo_spec);
    sample(dev, TextureUnit::Unit3, shadow_texture);
    name_samplers(dev, shader_program);
    shader_program.set_int(dev, "shadowMap", 3);
    ready_quad(dev, shader_program, globals.cam.position, &globals.screen_model);
    proof {
        lemma_appends(
            old(dev)@,
            dev@,
            shadowed_inputs_commands(
                globals.screen_model,
                globals.cam.position,
                shader_program.id(),
                g_position.id(),
                g_normal.id(),
                g_albedo_spec.id(),
                shadow_texture.id(),
            ),
        );
    }
}

/// The commands of [`draw_directional_lighting_pass`].
pub open spec fn draw_directional_lighting_pass_commands(
    screen_model: Model,
    sight: Sight,
    program: u32,
    g_position: u32,
    g_normal: u32,
    g_albedo_spec: u32,
    directional_light: DirectionalLight,
) -> Seq<CommandView> {
    shadowed_inputs_commands(
        screen_model,
        sight.position,
        program,
        g_position,
        g_normal,
        g_albedo_spec,
        directional_light.shadow_texture.id(),
    ) + caster_commands(
        program,
        directional_light.position,
        directional_light.direction,
        directional_light.light_projection,
        directional_light.light_view,
        directional_light.info.color,
    ) + quad_draw_commands(screen_model, sight)
}

/// The lighting pass of one directional light: takes the G-buffer and the
/// light's shadow map as input, hands the light and its light-space matrix
/// to `shader_program`, and draws the screen quad as the camera sees.
pub fn draw_directional_lighting_pass(
    dev: &mut Device,
    globals: &mut Globals,
    shader_program: &Program,
    g_position: &Texture,
    g_normal: &Texture,
    g_albedo_spec: &Texture,
    directional_light: &DirectionalLight,
)
    ensures
        appends(
            old(dev)@,
            final(dev)@,
            draw_directional_lighting_pass_commands(
                old(globals).screen_model,
                old(globals).cam.sight(),
                shader_program.id(),
                g_position.id(),
                g_normal.id(),
                g_albedo_spec.id(),
                *directional_light,
            ),
        ),
        final(dev)@.state.objects == old(dev)@.state.objects,
        final(dev)@.state.bind == shadowed_lighting_bindings(
            old(globals).screen_model,
            shader_program.id(),
            g_position.id(),
            g_normal.id(),
            g_albedo_spec.id(),
            directional_light.shadow_texture.id(),
            old(dev)@.state.bind,
        ),
        final(dev)@.state.draws == old(dev)@.state.draws.push(
            old(globals).screen_model.draw(final(dev)@.state.bind),
        ),
        *final(globals) == looked(*old(globals)),
{
    take_shadowed_inputs(
        dev,
        globals,
        shader_program,
        g_position,
        g_normal,
        g_albedo_spec,
        &directional_light.shadow_texture,
    );
    hand_caster(
        dev,
        shader_program,
        directional_light.position,
        directional_light.direction,
        directional_light.light_projection,
        directional_light.light_view,
        directional_light.info.color,
    );
    draw_quad(dev, globals);
    proof {
        lemma_appends(
            old(dev)@,
            dev@,
            draw_directional_lighting_pass_commands(
                old(globals).screen_model,
                old(globals).cam.sight(),
                shader_program.id(),
                g_position.id(),
                g_normal.id(),
                g_albedo_spec.id(),
                *directional_light,
            ),
        );
    }
}

/// The commands of [`draw_spot_lighting_pass`].
pub open spec fn draw_spot_lighting_pass_commands(
    screen_model: Model,
    sight: Sight,
    program: u32,
    g_position: u32,
    g_normal: u32,
    g_albedo_spec: u32,
    spot_light: SpotLight,
) -> Seq<CommandView> {
    (shadowed_inputs_commands(
        screen_model,
        sight.position,
        program,
        g_position,
        g_normal,
        g_albedo_spec,
        spot_light.shadow_texture.id(),
    ) + caster_commands(
        program,
        spot_light.position,
        spot_light.direction,
        spot_light.light_projection,
        spot_light.light_view,
        spot_light.info.color,
    )).push(
        with_text(Op::Uniform1f { program, value: spot_light.info.radius }, "light.Radius"@),
    ).push(with_text(Op::Uniform1f { program, value: spot_light.horizontal_fov }, "light.Fov"@))
        + quad_draw_commands(screen_model, sight)
}

/// The lighting pass of one spot light: as for a directional light, and
/// radius and field of view of the cone on top.
pub fn draw_spot_lighting_pass(
    dev: &mut Device,
    globals: &mut Globals,
    shader_program: &Program,
    g_position: &Texture,
    g_normal: &Texture,
    g_albedo_spec: &Texture,
    spot_light: &SpotLight,
)
    ensures
        appends(
            old(dev)@,
            final(dev)@,
            draw_spot_lighting_pass_commands(
                old(globals).screen_model,
                old(globals).cam.sight(),
                shader_program.id(),
                g_position.id(),
                g_normal.id(),
                g_albedo_spec.id(),
                *spot_light,
            ),
        ),
        final(dev)@.state.objects == old(dev)@.state.objects,
        final(dev)@.state.bind == shadowed_lighting_bindings(
            old(globals).screen_model,
            shader_program.id(),
            g_position.id(),
            g_normal.id(),
            g_albedo_spec.id(),
            spot_light.shadow_texture.id(),
            old(dev)@.state.bind,
        ),
        final(dev)@.state.draws == old(dev)@.state.draws.push(
            old(globals).screen_model.draw(final(dev)@.state.bind),
        ),
        *final(globals) == looked(*old(globals)),
{
    take_shadowed_inputs(
        dev,
        globals,
        shader_program,
        g_position,
        g_normal,
        g_albedo_spec,
        &spot_light.shadow_texture,
    );
    hand_caster(
        dev,
        shader_program,
        spot_light.position,
        spot_light.direction,
        spot_light.light_projection,
        spot_light.light_view,
        spot_light.info.color,
    );
    shader_program.set_float(dev, "light.Radius", spot_light.info.radius);
    shader_program.set_float(dev, "light.Fov", spot_light.horizontal_fov);
    draw_quad(dev, globals);
    proof {
        lemma_appends(
            old(dev)@,
            dev@,
            draw_spot_lighting_pass_commands(
                old(globals).screen_model,
                old(globals).cam.sight(),
                shader_program.id(),
                g_position.id(),
                g_normal.id(),
                g_albedo_spec.id(),
                *spot_light,
            ),
        );
    }
}

/// The commands of [`draw_final_pass`].
pub open spec fn draw_final_pass_commands(
    screen_model: Model,
    sight: Sight,
    g_position: u32,
    g_normal: u32,
    g_albedo_spec: u32,
    g_lighting: u32,
) -> Seq<CommandView> {
    let program = screen_model.shader_program.id();
    ((seq![plain(Op::UseProgram { id: program })] + clear_commands(ONE, ONE, ONE, true)
        + flat_commands()).push(
        plain(Op::BindBuffer { target: BufferTarget::Array, id: screen_model.vbo.id() }),
    ) + sample_commands(TextureUnit::Unit0, g_position) + sample_commands(
        TextureUnit::Unit1,
        g_normal,
    ) + sample_commands(TextureUnit::Unit2, g_albedo_spec) + sample_commands(
        TextureUnit::Unit3,
        g_lighting,
    ) + samplers_commands(program)).push(
        with_text(Op::Uniform1i { program, value: 3 }, "gLighting"@),
    ) + quad_commands(program, sight.position, screen_model) + quad_draw_commands(
        screen_model,
        sight,
    )
}

/// The final pass: with the program of the screen quad, which is the
/// composite program, clears the bound framebuffer to white, switches depth
/// test and culling off, takes the G-buffer and the accumulated lighting as
/// input, and draws the screen quad.
pub fn draw_final_pass(
    dev: &mut Device,
    globals: &mut Globals,
    g_position: &Texture,
    g_normal: &Texture,
    g_albedo_spec: &Texture,
    g_lighting: &Texture,
)
    ensures
        appends(
            old(dev)@,
            final(dev)@,
            draw_final_pass_commands(
                old(globals).screen_model,
                old(globals).cam.sight(),
                g_position.id(),
                g_normal.id(),
                g_albedo_spec.id(),
                g_lighting.id(),
            ),
        ),
        final(dev)@.state.objects == old(dev)@.state.objects,
        final(dev)@.state.bind == shadowed_lighting_bindings(
            old(globals).screen_model,
            old(globals).screen_model.shader_program.id(),
            g_position.id(),
            g_normal.id(),
            g_albedo_spec.id(),
            g_lighting.id(),
            flat_bindings(old(dev)@.state.bind),
        ),
        final(dev)@.state.draws == old(dev)@.state.draws.push(
            old(globals).screen_model.draw(final(dev)@.state.bind),
        ),
        *final(globals) == looked(*old(globals)),
{
    globals.screen_model.shader_program.set(dev);
    clear(dev, ONE, ONE, ONE, true);
    flat(dev);
    globals.screen_model.vbo.bind(dev);
    sample(dev, TextureUnit::Unit0, g_position);
    sample(dev, TextureUnit::Unit1, g_normal);
    sample(dev, TextureUnit::Unit2, g_albedo_spec);
    sample(dev, TextureUnit::Unit3, g_lighting);
    name_samplers(dev, &globals.screen_model.shader_program);
    globals.screen_model.shader_program.set_int(dev, "gLighting", 3);
    ready_quad(
        dev,
        &globals.screen_model.shader_program,
        globals.cam.position,
        &globals.screen_model,
    );
    draw_quad(dev, globals);
    proof {
        lemma_appends(
            old(dev)@,
            dev@,
            draw_final_pass_commands(
                old(globals).screen_model,
                old(globals).cam.sight(),
                g_position.id(),
                g_normal.id(),
                g_albedo_spec.id(),
                g_lighting.id(),
            ),
        );
    }
}

/// `marker` moved to `position`.
pub open spec fn moved(marker: Model, position: Vector3) -> Model {
    Model { position, ..marker }
}

/// `marker` moved to `position` and turned to look along `direction`, the
/// world's up axis upwards.
pub open spec fn turned(marker: Model, position: Vector3, direction: Vector3) -> Model {
    Model {
        position,
        rotation: Rotation::Facing { direction, up: Vector3::spec_unit_y() },
        ..marker
    }
}

/// The commands that draw a marker where it stands: made current with its
/// own program and drawn fullbright for a screen of no size, as the camera
/// sees.
pub open spec fn marker_commands(marker: Model, sight: Sight) -> Seq<CommandView> {
    marker.start_render_commands(marker.shader_program.id())
        + marker.render_fullbright_commands(Vector2::zero(), sight.view, sight.projection)
}

/// The bindings under which the marker is drawn, where `bind` held before:
/// its own program in use and the marker bound.
pub open spec fn marker_bindings(marker: Model, bind: Bindings) -> Bindings {
    marker.bound(Bindings { program: marker.shader_program.id(), ..bind })
}

fn draw_marker(dev: &mut Device, globals: &mut Globals)
    ensures
        appends(
            old(dev)@,
            final(dev)@,
            marker_commands(old(globals).light_model, old(globals).cam.sight()),
        ),
        final(dev)@.state.objects == old(dev)@.state.objects,
        final(dev)@.state.bind == marker_bindings(old(globals).light_model, old(dev)@.state.bind),
        final(dev)@.state.draws == old(dev)@.state.draws.push(
            old(globals).light_model.draw(final(dev)@.state.bind),
        ),
        *final(globals) == looked(*old(globals)),
{
    globals.light_model.start_render(dev);
    let sight: Sight = globals.cam.look();
    globals.light_model.render_fullbright(dev, Vector2::zero(), sight.view, sight.projection);
    proof {
        lemma_appends(
            old(dev)@,
            dev@,
            marker_commands(old(globals).light_model, old(globals).cam.sight()),
        );
    }
}

/// The marker draws for the first `n` of `point_lights`, in order.
pub open spec fn point_markers(
    marker: Model,
    sight: Sight,
    point_lights: Seq<PointLight>,
    n: nat,
) -> Seq<CommandView>
    decreases n,
{
    if n == 0 {
        Seq::empty()
    } else {
        point_markers(marker, sight, point_lights, (n - 1) as nat) + marker_commands(
            moved(marker, point_lights[n - 1].position),
            sight,
        )
    }
}

/// The marker draws for the first `n` of `spot_lights`, in order.
pub open spec fn spot_markers(
    marker: Model,
    sight: Sight,
    spot_lights: Seq<SpotLight>,
    n: nat,
) -> Seq<CommandView>
    decreases n,
{
    if n == 0 {
        Seq::empty()
    } else {
        spot_markers(marker, sight, spot_lights, (n - 1) as nat) + marker_commands(
            turned(marker, spot_lights[n - 1].position, spot_lights[n - 1].direction),
            sight,
        )
    }
}

/// The marker as the pass leaves it: where the last light stood that was
/// marked, turned as the last spot light pointed.
pub open spec fn marker_after(
    marker: Model,
    point_lights: Seq<PointLight>,
    spot_lights: Seq<SpotLight>,
) -> Model {
    if spot_lights.len() > 0 {
        turned(marker, spot_lights.last().position, spot_lights.last().direction)
    } else if point_lights.len() > 0 {
        moved(marker, point_lights.last().position)
    } else {
        marker
    }
}

/// The camera as the marker pass leaves it: settled if any marker was
/// drawn.
pub open spec fn camera_after(
    globals: Globals,
    point_lights: Seq<PointLight>,
    spot_lights: Seq<SpotLight>,
) -> crate::models::Camera {
    if point_lights.len() + spot_lights.len() > 0 {
        globals.cam.settled()
    } else {
        globals.cam
    }
}

/// The draws of a marker pass that began under `bind`: the marker `n`
/// times, with its own program, depth test and culling on.
pub open spec fn marker_draws_made(marker: Model, n: nat, bind: Bindings) -> Seq<Draw> {
    Seq::new(n, |k: int| marker.draw(marker_bindings(marker, solid_bindings(bind))))
}

/// The commands of [`draw_scene_light_points`].
pub open spec fn draw_scene_light_points_commands(
    marker: Model,
    sight: Sight,
    point_lights: Seq<PointLight>,
    spot_lights: Seq<SpotLight>,
) -> Seq<CommandView> {
    solid_commands() + point_markers(marker, sight, point_lights, point_lights.len())
        + spot_markers(marker, sight, spot_lights, spot_lights.len())
}

/// The light-marker pass: with depth test and culling on, draws the scene's
/// marker mesh at the position of every point light, then at the position
/// of every spot light and turned along its direction.
pub fn draw_scene_light_points(
    dev: &mut Device,
    globals: &mut Globals,
    point_lights: &Vec<PointLight>,
    spot_lights: &Vec<SpotLight>,
)
    ensures
        appends(
            old(dev)@,
            final(dev)@,
            draw_scene_light_points_commands(
                old(globals).light_model,
                old(globals).cam.sight(),
                point_lights@,
                spot_lights@,
            ),
        ),
        final(dev)@.state.objects == old(dev)@.state.objects,
        final(dev)@.state.bind == if point_lights@.len() + spot_lights@.len() == 0 {
            solid_bindings(old(dev)@.state.bind)
        } else {
            marker_bindings(old(globals).light_model, solid_bindings(old(dev)@.state.bind))
        },
        final(dev)@.state.draws == old(dev)@.state.draws + marker_draws_made(
            old(globals).light_model,
            point_lights@.len() + spot_lights@.len(),
            old(dev)@.state.bind,
        ),
        *final(globals) == (Globals {
            light_model: marker_after(old(globals).light_model, point_lights@, spot_lights@),
            cam: camera_after(*old(globals), point_lights@, spot_lights@),
            ..*old(globals)
        }),
{
    let ghost marker = globals.light_model;
    let ghost sight = globals.cam.sight();
    proof {
        lemma_settling_is_idempotent(globals.cam);
    }
    solid(dev);
    let ghost prelude = solid_commands();
    proof {
        lemma_add_empty(prelude);
        assert(dev@.state.draws =~= old(dev)@.state.draws + marker_draws_made(
            marker,
            0,
            old(dev)@.state.bind,
        ));
    }
    let mut i: usize = 0;
    while i < point_lights.len()
        invariant
            i <= point_lights.len(),
            dev@.extends(
                old(dev)@,
                prelude + point_markers(marker, sight, point_lights@, i as nat),
            ),
            dev@.state.objects == old(dev)@.state.objects,
            dev@.state.bind == if i == 0 {
                solid_bindings(old(dev)@.state.bind)
            } else {
                marker_bindings(marker, solid_bindings(old(dev)@.state.bind))
            },
            dev@.state.draws == old(dev)@.state.draws + marker_draws_made(
                marker,
                i as nat,
                old(dev)@.state.bind,
            ),
            *globals == (Globals {
                light_model: if i == 0 {
                    marker
                } else {
                    moved(marker, point_lights@[i - 1].position)
                },
                cam: if i == 0 {
                    old(globals).cam
                } else {
                    old(globals).cam.settled()
                },
                ..*old(globals)
            }),
            marker == old(globals).light_model,
            sight == old(globals).cam.sight(),
            sight == old(globals).cam.settled().sight(),
            old(globals).cam.settled().settled() == old(globals).cam.settled(),
        decreases point_lights.len() - i,
    {
        globals.light_model.position = point_lights[i].position;
        assert(globals.light_model == moved(marker, point_lights@[i as int].position));
        draw_marker(dev, globals);
        proof {
            assert(dev@.state.draws =~= old(dev)@.state.draws + marker_draws_made(
                marker,
                (i + 1) as nat,
                old(dev)@.state.bind,
            ));
            lemma_add_assoc(
                prelude,
                point_markers(marker, sight, point_lights@, i as nat),
                marker_commands(moved(marker, point_lights@[i as int].position), sight),
            );
        }
        i += 1;
    }
    let ghost pointed = prelude + point_markers(marker, sight, point_lights@, point_lights@.len());
    let ghost between = *globals;
    proof {
        lemma_add_empty(pointed);
    }
    let mut j: usize = 0;
    while j < spot_lights.len()
        invariant
            j <= spot_lights.len(),
            dev@.extends(old(dev)@, pointed + spot_markers(marker, sight, spot_lights@, j as nat)),
            dev@.state.objects == old(dev)@.state.objects,
            dev@.state.bind == if point_lights@.len() + j == 0 {
                solid_bindings(old(dev)@.state.bind)
            } else {
                marker_bindings(marker, solid_bindings(old(dev)@.state.bind))
            },
            dev@.state.draws == old(dev)@.state.draws + marker_draws_made(
                marker,
                point_lights@.len() + j as nat,
                old(dev)@.state.bind,
            ),
            *globals == (Globals {
                light_model: if j == 0 {
                    between.light_model
                } else {
                    turned(marker, spot_lights@[j - 1].position, spot_lights@[j - 1].direction)
                },
                cam: if j == 0 {
                    between.cam
                } else {
                    old(globals).cam.settled()
                },
                ..*old(globals)
            }),
            marker == old(globals).light_model,
            sight == old(globals).cam.sight(),
            sight == old(globals).cam.settled().sight(),
            old(globals).cam.settled().settled() == old(globals).cam.settled(),
            between.light_model == if point_lights@.len() == 0 {
                marker
            } else {
                moved(marker, point_lights@.last().position)
            },
            between.cam == if point_lights@.len() == 0 {
                old(globals).cam
            } else {
                old(globals).cam.settled()
            },
        decreases spot_lights.len() - j,
    {
        globals.light_model.position = spot_lights[j].position;
        globals.light_model.rotation = Rotation::Facing {
            direction: spot_lights[j].direction,
            up: Vector3::unit_y(),
        };
        assert(globals.light_model == turned(
            marker,
            spot_lights@[j as int].position,
            spot_lights@[j as int].direction,
        ));
        draw_marker(dev, globals);
        proof {
            assert(dev@.state.draws =~= old(dev)@.state.draws + marker_draws_made(
                marker,
                point_lights@.len() + (j + 1) as nat,
                old(dev)@.state.bind,
            ));
            lemma_add_assoc(
                pointed,
                spot_markers(marker, sight, spot_lights@, j as nat),
                marker_commands(
                    turned(
                        marker,
                        spot_lights@[j as int].position,
                        spot_lights@[j as int].direction,
                    ),
                    sight,
                ),
            );
        }
        j += 1;
    }
    proof {
        lemma_appends(
            old(dev)@,
            dev@,
            draw_scene_light_points_commands(marker, sight, point_lights@, spot_lights@),
        );
    }
}

} // verus!
