use amtf_engine::buffers::Vertex;
use amtf_engine::command::{BlendFactor, Command, Face, Op, Payload, TextureUnit};
use amtf_engine::device::Device;
use amtf_engine::frame::{
    geometry_pass, lighting_passes, render_frame, run_frame, shadow_passes, Lights, Programs,
    RenderTargets,
};
use amtf_engine::globals::Globals;
use amtf_engine::math::{
    Angle, Matrix4, MatrixValue, Outlook, Projection, Ratio, Rotation, Scalar, Standpoint,
    Vector2, Vector3,
};
use amtf_engine::models::{Camera, DirectionalLight, Model, PointLight, SpotLight};
use amtf_engine::passes::{
    draw_final_pass, draw_point_lighting_pass, draw_scene, draw_scene_custom_shader_program,
    draw_scene_light_points, draw_scene_shadows, draw_spot_lighting_pass,
};
use amtf_engine::shaders::create_program;
use amtf_engine::state::Bindings;

fn scalar(value: f32) -> Scalar {
    Scalar::from_bits(value.to_bits())
}

fn vector(x: f32, y: f32, z: f32) -> Vector3 {
    Vector3::new(scalar(x), scalar(y), scalar(z))
}

fn matrix(seed: f32) -> MatrixValue {
    let mut cells = [0u32; 16];
    for (k, cell) in cells.iter_mut().enumerate() {
        *cell = (seed + k as f32).to_bits();
    }
    MatrixValue::Given(Matrix4 { cells })
}

fn corner(x: f32, y: f32, z: f32) -> Vertex {
    (vector(x, y, z), vector(1.0, 1.0, 1.0), vector(0.0, 1.0, 0.0), Vector2::zero())
}

fn mesh(dev: &mut Device, name: &str, triangles: u32) -> Model {
    let vertices = vec![corner(0.0, 0.0, 0.0), corner(1.0, 0.0, 0.0), corner(0.0, 1.0, 0.0)];
    let indices: Vec<u32> = (0..triangles).flat_map(|_| vec![0, 1, 2]).collect();
    let model = Model::new(dev, &vertices, &indices, "vertex", "fragment", name.to_owned());
    model.start(dev);
    model
}

struct Stage {
    dev: Device,
    globals: Globals,
    targets: RenderTargets,
    programs: Programs,
    lights: Lights,
}

/// A scene of one cube, with the given lights, all set up and the queue
/// emptied.
fn stage(directional: usize, spot: usize, point: usize) -> Stage {
    let mut dev = Device::new();
    let cube = mesh(&mut dev, "Cube", 12);
    let light_model = mesh(&mut dev, "Light", 1);
    let mut cam = Camera::new(scalar(1.5), scalar(1.0), scalar(0.1), scalar(100.0));
    cam.position = vector(3.0, 4.0, 5.0);
    let globals = Globals::new(
        &mut dev,
        (800, 600),
        Vector2::new(scalar(800.0), scalar(600.0)),
        cam,
        vec![cube],
        light_model,
        "final v",
        "final f",
    );
    let targets = RenderTargets::new(&mut dev, (800, 600));
    let programs = Programs {
        depth_only_shader: create_program(&mut dev, "depth v", "depth f"),
        point_lighting_pass: create_program(&mut dev, "point v", "point f"),
        directional_lighting_pass: create_program(&mut dev, "directional v", "directional f"),
        spot_lighting_pass: create_program(&mut dev, "spot v", "spot f"),
    };
    let mut lights = Lights {
        directional_lights: Vec::new(),
        spot_lights: Vec::new(),
        point_lights: Vec::new(),
    };
    for _ in 0..directional {
        lights.directional_lights.push(DirectionalLight::new(&mut dev, (4096, 4096)));
    }
    for k in 0..spot {
        let mut light = SpotLight::new(&mut dev, (2048, 1024), scalar(1.5));
        light.position = vector(k as f32, 3.0, 0.0);
        light.direction = vector(0.0, 0.0, -1.0);
        lights.spot_lights.push(light);
    }
    for k in 0..point {
        let mut light = PointLight::new();
        light.position = vector(0.0, k as f32, 0.0);
        lights.point_lights.push(light);
    }
    dev.take_commands();
    Stage { dev, globals, targets, programs, lights }
}

/// The bindings and switches under which each draw of `commands` happens,
/// found by playing the commands through a device of their own.
fn draws(before: Bindings, commands: &Vec<Command>) -> Vec<(usize, Bindings)> {
    let mut replay = Device::new();
    replay.submit(Op::BindFramebuffer { id: before.framebuffer }, Payload::Nothing);
    let mut found = Vec::new();
    for command in commands {
        replay.submit(command.op, command.payload.clone());
        if let Op::DrawElements { count } = command.op {
            found.push((count, replay.bindings()));
        }
    }
    found
}

#[test]
fn a_frame_runs_shadow_geometry_lighting_and_final_pass_in_that_order() {
    let mut stage = stage(1, 0, 0);
    let before = stage.dev.bindings();
    render_frame(
        &mut stage.dev,
        &mut stage.globals,
        &stage.targets,
        &stage.programs,
        &mut stage.lights,
    );
    let commands = stage.dev.commands();
    let bound: Vec<u32> = commands
        .iter()
        .filter_map(|command| match command.op {
            Op::BindFramebuffer { id } => Some(id),
            _ => None,
        })
        .collect();
    let shadow_map = stage.lights.directional_lights[0].shadow_framebuffer.id();
    let gbuffer = stage.targets.gbuffer.id();
    let light_buffer = stage.targets.light_buffer.id();
    assert_eq!(bound, vec![shadow_map, 0, gbuffer, 0, light_buffer, 0]);

    let draws = draws(before, commands);
    assert_eq!(draws.len(), 4);
    let cube = &stage.globals.models[0];
    let quad = &stage.globals.screen_model;

    // Shadow pass: the cube, depth only, into the shadow map, front faces culled.
    let (count, shadow) = draws[0];
    assert_eq!(count, 36);
    assert_eq!(shadow.framebuffer, shadow_map);
    assert_eq!(shadow.program, stage.programs.depth_only_shader.id());
    assert_eq!((shadow.viewport_width, shadow.viewport_height), (4096, 4096));
    let cast = &stage.lights.directional_lights[0];
    assert_eq!(
        uniform_at(commands, "projection", 0),
        &Op::UniformMatrix4 {
            program: stage.programs.depth_only_shader.id(),
            value: MatrixValue::Projection(cast.light_projection),
        }
    );
    assert_eq!(
        uniform_at(commands, "view", 0),
        &Op::UniformMatrix4 {
            program: stage.programs.depth_only_shader.id(),
            value: MatrixValue::View(cast.light_view),
        }
    );
    assert!(shadow.depth_test && shadow.cull_face);
    assert_eq!(shadow.culled_face, Face::Front);

    // Geometry pass: the cube with its own program into the G-buffer.
    let (count, geometry) = draws[1];
    assert_eq!(count, 36);
    assert_eq!(geometry.framebuffer, gbuffer);
    assert_eq!(geometry.program, cube.shader_program.id());
    assert_eq!((geometry.viewport_width, geometry.viewport_height), (800, 600));
    assert!(geometry.depth_test && geometry.cull_face && !geometry.blend);
    assert_eq!(geometry.culled_face, Face::Back);
    assert_eq!(geometry.vertex_array, cube.vao.id());
    assert_eq!(geometry.texture0, cube.diffuse_texture.id());

    // Lighting pass: the screen quad into the accumulation buffer, added up.
    let (count, lighting) = draws[2];
    assert_eq!(count, 6);
    assert_eq!(lighting.framebuffer, light_buffer);
    assert_eq!(lighting.program, stage.programs.directional_lighting_pass.id());
    assert!(lighting.blend && !lighting.depth_test && !lighting.cull_face);
    assert_eq!(
        (lighting.blend_source, lighting.blend_destination),
        (BlendFactor::One, BlendFactor::One)
    );
    assert_eq!(lighting.vertex_array, quad.vao.id());
    assert_eq!(lighting.texture0, stage.targets.g_position.id());
    assert_eq!(lighting.texture1, stage.targets.g_normal.id());
    assert_eq!(lighting.texture2, stage.targets.g_albedo_spec.id());
    assert_eq!(lighting.texture3, stage.lights.directional_lights[0].shadow_texture.id());

    // Final pass: the screen quad to the screen, blending off.
    let (count, last) = draws[3];
    assert_eq!(count, 6);
    assert_eq!(last.framebuffer, 0);
    assert_eq!(last.program, quad.shader_program.id());
    assert!(!last.blend && !last.depth_test && !last.cull_face);
    assert_eq!(last.texture3, stage.targets.light_texture.id());
    assert_eq!(last.active_unit, TextureUnit::Unit3);

    assert_eq!(stage.dev.bindings().framebuffer, 0);
}

#[test]
fn a_frame_creates_and_releases_nothing() {
    let mut stage = stage(2, 1, 3);
    let handles = stage.dev.handles();
    let objects: Vec<_> = (1..=handles as u32).map(|id| stage.dev.object(id)).collect();
    render_frame(
        &mut stage.dev,
        &mut stage.globals,
        &stage.targets,
        &stage.programs,
        &mut stage.lights,
    );
    assert_eq!(stage.dev.handles(), handles);
    assert_eq!((1..=handles as u32).map(|id| stage.dev.object(id)).collect::<Vec<_>>(), objects);
    for command in stage.dev.commands() {
        assert!(!matches!(command.op, Op::Create { .. } | Op::Delete { .. }));
    }
}

#[test]
fn lights_are_rendered_in_the_order_in_which_they_are_stored() {
    let mut stage = stage(2, 2, 2);
    let before = stage.dev.bindings();
    render_frame(
        &mut stage.dev,
        &mut stage.globals,
        &stage.targets,
        &stage.programs,
        &mut stage.lights,
    );
    let draws = draws(before, stage.dev.commands());
    let framebuffers: Vec<u32> = draws.iter().map(|(_, bindings)| bindings.framebuffer).collect();
    let programs: Vec<u32> = draws.iter().map(|(_, bindings)| bindings.program).collect();
    let shadow = |light: usize, spot: bool| {
        if spot {
            stage.lights.spot_lights[light].shadow_framebuffer.id()
        } else {
            stage.lights.directional_lights[light].shadow_framebuffer.id()
        }
    };
    let light_buffer = stage.targets.light_buffer.id();
    assert_eq!(
        framebuffers,
        vec![
            shadow(0, false),
            shadow(1, false),
            shadow(0, true),
            shadow(1, true),
            stage.targets.gbuffer.id(),
            light_buffer,
            light_buffer,
            light_buffer,
            light_buffer,
            light_buffer,
            light_buffer,
            0,
            0,
            0,
            0,
            0,
        ]
    );
    let depth_only = stage.programs.depth_only_shader.id();
    let point = stage.programs.point_lighting_pass.id();
    let directional = stage.programs.directional_lighting_pass.id();
    let spot = stage.programs.spot_lighting_pass.id();
    let marker = stage.globals.light_model.shader_program.id();
    assert_eq!(
        programs,
        vec![
            depth_only,
            depth_only,
            depth_only,
            depth_only,
            stage.globals.models[0].shader_program.id(),
            point,
            point,
            directional,
            directional,
            spot,
            spot,
            stage.globals.screen_model.shader_program.id(),
            marker,
            marker,
            marker,
            marker,
        ]
    );
    // The shadow map sampled by each lighting pass is that of its own light.
    let sampled: Vec<u32> = draws[7..11].iter().map(|(_, bindings)| bindings.texture3).collect();
    assert_eq!(
        sampled,
        vec![
            stage.lights.directional_lights[0].shadow_texture.id(),
            stage.lights.directional_lights[1].shadow_texture.id(),
            stage.lights.spot_lights[0].shadow_texture.id(),
            stage.lights.spot_lights[1].shadow_texture.id(),
        ]
    );
}

#[test]
fn the_stages_of_a_frame_are_its_commands() {
    let mut whole = stage(1, 1, 1);
    render_frame(
        &mut whole.dev,
        &mut whole.globals,
        &whole.targets,
        &whole.programs,
        &mut whole.lights,
    );
    let mut parts = stage(1, 1, 1);
    shadow_passes(
        &mut parts.dev,
        &parts.globals,
        &mut parts.lights,
        &parts.programs.depth_only_shader,
    );
    geometry_pass(&mut parts.dev, &mut parts.globals, &parts.targets);
    lighting_passes(
        &mut parts.dev,
        &mut parts.globals,
        &parts.targets,
        &parts.programs,
        &parts.lights,
    );
    parts.dev.submit(
        Op::Disable { capability: amtf_engine::command::Capability::Blend },
        Payload::Nothing,
    );
    draw_final_pass(
        &mut parts.dev,
        &mut parts.globals,
        &parts.targets.g_position,
        &parts.targets.g_normal,
        &parts.targets.g_albedo_spec,
        &parts.targets.light_texture,
    );
    draw_scene_light_points(
        &mut parts.dev,
        &mut parts.globals,
        &parts.lights.point_lights,
        &parts.lights.spot_lights,
    );
    assert_eq!(whole.dev.commands(), parts.dev.commands());
    assert_eq!(whole.dev.bindings(), parts.dev.bindings());
}

#[test]
fn a_shadow_pass_leaves_out_what_casts_no_shadow() {
    let mut stage = stage(1, 0, 0);
    let glass = {
        let mut glass = mesh(&mut stage.dev, "Glass", 2);
        glass.render_shadows = false;
        glass
    };
    stage.globals.models.push(glass);
    stage.dev.take_commands();
    let before = stage.dev.bindings();
    stage.lights.directional_lights[0].render(
        &mut stage.dev,
        &stage.globals,
        &stage.programs.depth_only_shader,
    );
    let counts: Vec<usize> =
        draws(before, stage.dev.commands()).iter().map(|(count, _)| *count).collect();
    assert_eq!(counts, vec![36]);

    stage.dev.take_commands();
    draw_scene_custom_shader_program(
        &mut stage.dev,
        &stage.globals,
        matrix(0.0),
        matrix(1.0),
        &stage.programs.depth_only_shader,
        false,
    );
    let counts: Vec<usize> =
        draws(before, stage.dev.commands()).iter().map(|(count, _)| *count).collect();
    assert_eq!(counts, vec![36, 6]);
}

#[test]
fn the_geometry_pass_draws_shadow_casters_lit_and_the_rest_fullbright() {
    let mut stage = stage(0, 0, 0);
    let mut glass = mesh(&mut stage.dev, "Glass", 2);
    glass.render_shadows = false;
    stage.globals.models.push(glass);
    stage.dev.take_commands();
    draw_scene(&mut stage.dev, &stage.globals, matrix(100.0), matrix(0.0));
    let fullbright: Vec<i32> = stage
        .dev
        .commands()
        .iter()
        .filter_map(|command| match (&command.op, &command.payload) {
            (Op::Uniform1i { value, .. }, Payload::Text(name)) if name == "renderFullbright" => {
                Some(*value)
            }
            _ => None,
        })
        .collect();
    assert_eq!(fullbright, vec![0, 1]);
    let first = &stage.dev.commands()[0];
    assert_eq!(
        first.op,
        Op::ClearColor {
            red: scalar(0.0),
            green: scalar(0.0),
            blue: scalar(0.0),
            alpha: scalar(1.0),
        }
    );
    assert_eq!(stage.dev.commands()[1].op, Op::Clear { color: true, depth: true });
}

#[test]
fn the_plain_shadow_pass_draws_everything_fullbright_with_front_faces_culled() {
    let mut stage = stage(0, 0, 0);
    let before = stage.dev.bindings();
    draw_scene_shadows(&mut stage.dev, &stage.globals, matrix(100.0), matrix(0.0));
    let draws = draws(before, stage.dev.commands());
    assert_eq!(draws.len(), 1);
    assert_eq!(draws[0].1.culled_face, Face::Front);
    assert_eq!(draws[0].1.program, stage.globals.models[0].shader_program.id());
}

#[test]
fn the_accumulation_buffer_is_cleared_to_dark_grey_without_its_depth() {
    let mut stage = stage(0, 0, 0);
    lighting_passes(
        &mut stage.dev,
        &mut stage.globals,
        &stage.targets,
        &stage.programs,
        &stage.lights,
    );
    let ops: Vec<Op> = stage.dev.commands().iter().map(|command| command.op).collect();
    let grey = scalar(0.1);
    assert_eq!(
        ops,
        vec![
            Op::BindFramebuffer { id: stage.targets.light_buffer.id() },
            Op::ClearColor { red: grey, green: grey, blue: grey, alpha: scalar(1.0) },
            Op::Clear { color: true, depth: false },
            Op::Disable { capability: amtf_engine::command::Capability::DepthTest },
            Op::Disable { capability: amtf_engine::command::Capability::CullFace },
            Op::Enable { capability: amtf_engine::command::Capability::Blend },
            Op::BlendFunc { source: BlendFactor::One, destination: BlendFactor::One },
            Op::BindFramebuffer { id: 0 },
        ]
    );
}

fn uniform_at<'a>(commands: &'a Vec<Command>, name: &str, occurrence: usize) -> &'a Op {
    let found: Vec<&Command> = commands
        .iter()
        .filter(|command| command.payload == Payload::Text(name.to_owned()))
        .collect();
    &found[occurrence].op
}

fn uniform<'a>(commands: &'a Vec<Command>, name: &str) -> &'a Op {
    let found: Vec<&Command> = commands
        .iter()
        .filter(|command| command.payload == Payload::Text(name.to_owned()))
        .collect();
    assert_eq!(found.len(), 1, "uniform {}", name);
    &found[0].op
}

#[test]
fn a_spot_lighting_pass_hands_over_the_light_and_its_light_space_matrix() {
    let mut stage = stage(0, 1, 0);
    let program = stage.programs.spot_lighting_pass.id();
    stage.globals.cam.position = vector(9.0, 8.0, 7.0);
    draw_spot_lighting_pass(
        &mut stage.dev,
        &mut stage.globals,
        &stage.programs.spot_lighting_pass,
        &stage.targets.g_position,
        &stage.targets.g_normal,
        &stage.targets.g_albedo_spec,
        &stage.lights.spot_lights[0],
    );
    let commands = stage.dev.commands();
    assert_eq!(uniform(commands, "gPosition"), &Op::Uniform1i { program, value: 0 });
    assert_eq!(uniform(commands, "gNormal"), &Op::Uniform1i { program, value: 1 });
    assert_eq!(uniform(commands, "gAlbedoSpec"), &Op::Uniform1i { program, value: 2 });
    assert_eq!(uniform(commands, "shadowMap"), &Op::Uniform1i { program, value: 3 });
    assert_eq!(
        uniform(commands, "viewPos"),
        &Op::Uniform3f { program, value: vector(9.0, 8.0, 7.0) }
    );
    let quad_program = stage.globals.screen_model.shader_program.id();
    assert_eq!(
        uniform(commands, "view"),
        &Op::UniformMatrix4 {
            program: quad_program,
            value: MatrixValue::View(Outlook::InverseOf(amtf_engine::math::Transform {
                position: vector(9.0, 8.0, 7.0),
                rotation: Rotation::YawPitch { yaw: scalar(0.0), pitch: scalar(0.0) },
                scale: vector(1.0, 1.0, 1.0),
            })),
        }
    );
    assert_eq!(
        uniform(commands, "projection"),
        &Op::UniformMatrix4 {
            program: quad_program,
            value: MatrixValue::Projection(Projection::Perspective {
                fovy: Angle::Given(scalar(1.0)),
                aspect: Ratio::Given(scalar(1.5)),
                near: scalar(0.1),
                far: scalar(100.0),
            }),
        }
    );
    assert_eq!(
        uniform(commands, "light.Position"),
        &Op::Uniform3f { program, value: vector(0.0, 3.0, 0.0) }
    );
    assert_eq!(
        uniform(commands, "light.Direction"),
        &Op::Uniform3f { program, value: vector(0.0, 0.0, -1.0) }
    );
    assert_eq!(
        uniform(commands, "lightSpaceMatrix"),
        &Op::UniformMatrix4 {
            program,
            value: MatrixValue::LightSpace {
                projection: stage.lights.spot_lights[0].light_projection,
                view: stage.lights.spot_lights[0].light_view,
            },
        }
    );
    assert_eq!(uniform(commands, "light.Radius"), &Op::Uniform1f { program, value: scalar(10.0) });
    assert_eq!(uniform(commands, "light.Fov"), &Op::Uniform1f { program, value: scalar(1.5) });
    // The quad is drawn through its own program's names.
    let quad = stage.globals.screen_model.shader_program.id();
    assert_eq!(uniform(commands, "renderFullbright"), &Op::Uniform1i { program: quad, value: 1 });
    assert_eq!(commands.last().map(|command| command.op), Some(Op::DrawElements { count: 6 }));
}

#[test]
fn a_point_lighting_pass_samples_no_shadow_map() {
    let mut stage = stage(0, 0, 1);
    let before = stage.dev.bindings();
    draw_point_lighting_pass(
        &mut stage.dev,
        &mut stage.globals,
        &stage.programs.point_lighting_pass,
        &stage.targets.g_position,
        &stage.targets.g_normal,
        &stage.targets.g_albedo_spec,
        &stage.lights.point_lights[0],
    );
    let commands = stage.dev.commands();
    assert!(commands
        .iter()
        .all(|command| command.op != Op::ActiveTexture { unit: TextureUnit::Unit3 }));
    let program = stage.programs.point_lighting_pass.id();
    assert_eq!(uniform(commands, "light.Radius"), &Op::Uniform1f { program, value: scalar(10.0) });
    assert_eq!(draws(before, commands).len(), 1);
}

#[test]
fn markers_are_put_where_the_lights_are() {
    let mut stage = stage(0, 2, 2);
    let start = stage.globals.light_model.rotation;
    draw_scene_light_points(
        &mut stage.dev,
        &mut stage.globals,
        &stage.lights.point_lights,
        &stage.lights.spot_lights,
    );
    let placed: Vec<(Vector3, Rotation)> = stage
        .dev
        .commands()
        .iter()
        .filter_map(|command| match command.op {
            Op::UniformMatrix4 { value: MatrixValue::OfTransform(transform), .. } => {
                Some((transform.position, transform.rotation))
            }
            _ => None,
        })
        .collect();
    let facing =
        Rotation::Facing { direction: vector(0.0, 0.0, -1.0), up: vector(0.0, 1.0, 0.0) };
    assert_eq!(
        placed,
        vec![
            (vector(0.0, 0.0, 0.0), start),
            (vector(0.0, 1.0, 0.0), start),
            (vector(0.0, 3.0, 0.0), facing),
            (vector(1.0, 3.0, 0.0), facing),
        ]
    );
    assert_eq!(stage.globals.light_model.position, vector(1.0, 3.0, 0.0));
    assert_eq!(stage.globals.light_model.rotation, facing);
    assert!(stage.dev.bindings().depth_test && stage.dev.bindings().cull_face);
}

#[test]
fn a_scene_without_lights_leaves_the_marker_alone() {
    let mut stage = stage(0, 0, 0);
    let position = stage.globals.light_model.position;
    let rotation = stage.globals.light_model.rotation;
    draw_scene_light_points(
        &mut stage.dev,
        &mut stage.globals,
        &stage.lights.point_lights,
        &stage.lights.spot_lights,
    );
    assert_eq!(stage.dev.commands().len(), 2);
    assert_eq!(stage.globals.light_model.position, position);
    assert_eq!(stage.globals.light_model.rotation, rotation);
}

#[test]
fn a_scene_starts_with_its_screen_quad_uploaded() {
    let stage = stage(0, 0, 0);
    let quad = &stage.globals.screen_model;
    assert_eq!(quad.name, "Screen Model");
    assert_eq!(quad.indices, vec![0, 1, 2, 1, 2, 3]);
    let corners: Vec<(f32, f32, f32, f32, f32)> = quad
        .vertices
        .iter()
        .map(|vertex| {
            let part = |scalar: Scalar| f32::from_bits(scalar.to_bits());
            (
                part(vertex.0.x),
                part(vertex.0.y),
                part(vertex.0.z),
                part(vertex.3.x),
                part(vertex.3.y),
            )
        })
        .collect();
    assert_eq!(
        corners,
        vec![
            (-1.0, -1.0, -1.0, 0.0, 0.0),
            (-1.0, 1.0, -1.0, 0.0, 1.0),
            (1.0, -1.0, -1.0, 1.0, 0.0),
            (1.0, 1.0, -1.0, 1.0, 1.0),
        ]
    );
    assert!(quad.vertices.iter().all(|vertex| vertex.1 == Vector3::zero()));
    assert!(quad.vertices.iter().all(|vertex| vertex.2 == Vector3::zero()));
    assert_eq!(quad.uploaded_vertex_count(&stage.dev), 4);
    assert_eq!(quad.uploaded_index_count(&stage.dev), 6);
    assert_eq!(stage.globals.movement_speed, scalar(7.0));
    assert_eq!(stage.globals.look_sensitivity, scalar(1.0));
    assert_eq!(stage.globals.mouse_look_sensitivity, scalar(1.0));
    assert!(stage.globals.should_grab_mouse);
}

#[test]
fn the_capture_key_flips_the_capture_and_skips_the_next_offset() {
    let mut stage = stage(0, 0, 0);
    let mut pointer = amtf_engine::input::Pointer::new();
    pointer.toggle(&mut stage.globals);
    assert!(!stage.globals.should_grab_mouse);
    assert!(pointer.reset_mouse);
    pointer.toggle(&mut stage.globals);
    assert!(stage.globals.should_grab_mouse);
    assert_eq!(
        pointer.step(stage.globals.should_grab_mouse, true),
        amtf_engine::input::PointerAction::Capture { read_delta: false }
    );
}

#[test]
fn a_directional_shadow_pass_looks_from_behind_the_camera_along_the_light() {
    let mut stage = stage(1, 0, 0);
    stage.lights.directional_lights[0].direction = vector(0.6, -0.8, 0.0);
    stage.globals.cam.position = vector(10.5, 2.0, -3.25);
    stage.lights.directional_lights[0].render(
        &mut stage.dev,
        &stage.globals,
        &stage.programs.depth_only_shader,
    );
    let light = &stage.lights.directional_lights[0];
    assert_eq!(
        light.light_projection,
        Projection::Orthographic {
            left: scalar(-100.0),
            right: scalar(100.0),
            bottom: scalar(-100.0),
            top: scalar(100.0),
            near: scalar(0.01),
            far: scalar(200.0),
        }
    );
    assert_eq!(
        light.light_view,
        Outlook::Along {
            eye: Standpoint::Behind {
                viewer: vector(10.5, 2.0, -3.25),
                direction: vector(0.6, -0.8, 0.0),
                far_plane: scalar(200.0),
            },
            direction: vector(0.6, -0.8, 0.0),
            up: vector(0.0, 1.0, 0.0),
        }
    );
    // The position shown to the shading programs is not the derived one.
    assert_eq!(light.position, vector(0.0, 0.0, 0.0));
}

#[test]
fn a_spot_shadow_pass_looks_from_the_light_through_its_cone() {
    let mut stage = stage(0, 1, 0);
    stage.lights.spot_lights[0].info.radius = scalar(25.0);
    stage.lights.spot_lights[0].render(
        &mut stage.dev,
        &stage.globals,
        &stage.programs.depth_only_shader,
    );
    let light = &stage.lights.spot_lights[0];
    assert_eq!(
        light.light_projection,
        Projection::Perspective {
            fovy: Angle::Scaled { angle: scalar(1.5), numerator: 1024, denominator: 2048 },
            aspect: Ratio::Of { width: 2048, height: 1024 },
            near: scalar(0.01),
            far: scalar(25.0),
        }
    );
    assert_eq!(
        light.light_view,
        Outlook::Along {
            eye: Standpoint::At(vector(0.0, 3.0, 0.0)),
            direction: vector(0.0, 0.0, -1.0),
            up: vector(0.0, 1.0, 0.0),
        }
    );
    let ops: Vec<Op> = stage.dev.commands().iter().map(|command| command.op).collect();
    assert_eq!(ops[0], Op::Viewport { width: 2048, height: 1024 });
    assert_eq!(ops[1], Op::BindFramebuffer { id: light.shadow_framebuffer.id() });
    assert_eq!(ops.last(), Some(&Op::BindFramebuffer { id: 0 }));
}

fn number(scalar: Scalar) -> f32 {
    f32::from_bits(scalar.to_bits())
}

fn point(vector: Vector3) -> cgmath::Point3<f32> {
    cgmath::Point3::new(number(vector.x), number(vector.y), number(vector.z))
}

fn arrow(vector: Vector3) -> cgmath::Vector3<f32> {
    cgmath::Vector3::new(number(vector.x), number(vector.y), number(vector.z))
}

/// The matrix of an outlook along a direction, as a backend works it out.
fn view_matrix(outlook: Outlook) -> cgmath::Matrix4<f32> {
    match outlook {
        Outlook::Along { eye, direction, up } => {
            let eye = match eye {
                Standpoint::At(position) => point(position),
                Standpoint::Behind { viewer, direction, far_plane } => {
                    let derived = arrow(viewer) - arrow(direction) * number(far_plane) / 2.0;
                    cgmath::Point3::new(derived.x.round(), derived.y.round(), derived.z.round())
                }
            };
            cgmath::Matrix4::look_at_rh(eye, eye + arrow(direction), arrow(up))
        }
        other => panic!("no such outlook in this test: {:?}", other),
    }
}

#[test]
fn the_light_view_of_a_light_that_shines_straight_down_looks_straight_down() {
    let mut stage = stage(1, 0, 0);
    stage.lights.directional_lights[0].render(
        &mut stage.dev,
        &stage.globals,
        &stage.programs.depth_only_shader,
    );
    let light = &stage.lights.directional_lights[0];
    assert_eq!(light.direction, vector(0.0, -1.0, 0.0));
    let view = view_matrix(light.light_view);
    // A view looks along its negative z axis: the forward axis is minus the
    // third row of the rotation.
    let forward = -cgmath::Vector3::new(view.x.z, view.y.z, view.z.z);
    let direction = cgmath::InnerSpace::normalize(arrow(light.direction));
    assert!((forward.x - direction.x).abs() <= 1e-5);
    assert!((forward.y - direction.y).abs() <= 1e-5);
    assert!((forward.z - direction.z).abs() <= 1e-5);
}

#[test]
fn the_light_view_keeps_to_whole_coordinates() {
    let mut stage = stage(1, 0, 0);
    stage.lights.directional_lights[0].direction = vector(0.6, -0.8, 0.0);
    stage.globals.cam.position = vector(10.4, 2.0, -3.25);
    stage.lights.directional_lights[0].render(
        &mut stage.dev,
        &stage.globals,
        &stage.programs.depth_only_shader,
    );
    match stage.lights.directional_lights[0].light_view {
        Outlook::Along { eye: Standpoint::Behind { viewer, direction, far_plane }, .. } => {
            let derived = arrow(viewer) - arrow(direction) * number(far_plane) / 2.0;
            assert_eq!(
                (derived.x.round(), derived.y.round(), derived.z.round()),
                (-50.0, 82.0, -3.0)
            );
        }
        other => panic!("the shadow pass looks from elsewhere: {:?}", other),
    }
}

#[test]
fn a_frame_settles_the_camera_and_sets_the_light_space_matrices() {
    let mut stage = stage(1, 1, 0);
    stage.globals.cam.camera_rotation = Vector2::new(scalar(1.0), scalar(-7.0));
    let first_projection = stage.lights.directional_lights[0].light_projection;
    render_frame(
        &mut stage.dev,
        &mut stage.globals,
        &stage.targets,
        &stage.programs,
        &mut stage.lights,
    );
    assert_eq!(
        stage.globals.cam.camera_rotation,
        Vector2::new(scalar(1.0), scalar(-(90.0f32.to_radians())))
    );
    assert_ne!(stage.lights.directional_lights[0].light_projection, first_projection);
    // The lighting pass samples with the matrices that the shadow pass set.
    let program = stage.programs.directional_lighting_pass.id();
    let light = &stage.lights.directional_lights[0];
    assert_eq!(
        uniform_at(stage.dev.commands(), "lightSpaceMatrix", 0),
        &Op::UniformMatrix4 {
            program,
            value: MatrixValue::LightSpace {
                projection: light.light_projection,
                view: light.light_view,
            },
        }
    );
}

#[test]
fn a_turn_of_the_loop_resizes_before_any_pass_runs() {
    let mut stage = stage(1, 0, 0);
    stage.globals.size = (1920, 1080);
    stage.globals.screen_size = Vector2::new(scalar(1920.0), scalar(1080.0));
    run_frame(
        &mut stage.dev,
        &mut stage.globals,
        &mut stage.targets,
        &stage.programs,
        &mut stage.lights,
    );
    assert_eq!(stage.targets.size, (1920, 1080));
    let ops: Vec<Op> = stage.dev.commands().iter().map(|command| command.op).collect();
    let last_respecified = ops
        .iter()
        .rposition(|op| matches!(op, Op::TexImage2D { .. } | Op::RenderbufferStorage { .. }))
        .unwrap();
    let first_draw = ops.iter().position(|op| matches!(op, Op::DrawElements { .. })).unwrap();
    assert_eq!(last_respecified, 11);
    assert!(last_respecified < first_draw);
    assert_eq!(
        stage.dev.object(stage.targets.g_position.id()),
        amtf_engine::state::Object::Texture {
            width: 1920,
            height: 1080,
            format: amtf_engine::command::InternalFormat::Rgba16,
        }
    );
    assert!(ops.contains(&Op::Viewport { width: 1920, height: 1080 }));

    // The next turn at the same size respecifies nothing.
    stage.dev.take_commands();
    run_frame(
        &mut stage.dev,
        &mut stage.globals,
        &mut stage.targets,
        &stage.programs,
        &mut stage.lights,
    );
    assert!(stage
        .dev
        .commands()
        .iter()
        .all(|command| !matches!(command.op, Op::TexImage2D { .. })));
}
