use amtf_engine::buffers::Vertex;
use amtf_engine::command::{BufferTarget, Command, ObjectKind, Op, Payload, TextureTarget};
use amtf_engine::device::Device;
use amtf_engine::frame::{Programs, RenderTargets};
use amtf_engine::globals::Globals;
use amtf_engine::math::{Scalar, Vector2, Vector3};
use amtf_engine::models::{Camera, DirectionalLight, Model, SpotLight};
use amtf_engine::shaders::create_program;
use amtf_engine::state::Object;

fn plain(op: Op) -> Command {
    Command { op, payload: Payload::Nothing }
}

fn scalar(value: f32) -> Scalar {
    Scalar::from_bits(value.to_bits())
}

fn corner(x: f32, y: f32) -> Vertex {
    let nothing = Vector3::zero();
    (Vector3::new(scalar(x), scalar(y), scalar(0.0)), nothing, nothing, Vector2::zero())
}

fn triangle(dev: &mut Device, name: &str) -> Model {
    let vertices = vec![corner(0.0, 0.0), corner(1.0, 0.0), corner(0.0, 1.0)];
    let model = Model::new(dev, &vertices, &vec![0, 1, 2], "vertex", "fragment", name.to_owned());
    model.start(dev);
    model
}

fn model_release(first: u32) -> Vec<Command> {
    vec![
        plain(Op::BindBuffer { target: BufferTarget::Array, id: 0 }),
        plain(Op::Delete { kind: ObjectKind::Buffer, id: first }),
        plain(Op::BindVertexArray { id: 0 }),
        plain(Op::Delete { kind: ObjectKind::VertexArray, id: first + 1 }),
        plain(Op::BindBuffer { target: BufferTarget::ElementArray, id: 0 }),
        plain(Op::Delete { kind: ObjectKind::Buffer, id: first + 2 }),
        plain(Op::Delete { kind: ObjectKind::Program, id: first + 5 }),
        plain(Op::BindTexture { target: TextureTarget::Texture2D, id: 0 }),
        plain(Op::Delete { kind: ObjectKind::Texture, id: first + 6 }),
    ]
}

fn all_released(dev: &Device) -> bool {
    (1..=dev.handles() as u32).all(|id| dev.object(id) == Object::Released)
}

#[test]
fn releasing_a_model_releases_its_five_objects_in_order() {
    let mut dev = Device::new();
    let model = triangle(&mut dev, "Triangle");
    dev.take_commands();
    model.release(&mut dev);
    assert_eq!(dev.commands(), &model_release(1));
    assert!(all_released(&dev));
    assert_eq!(dev.handles(), 7);
}

#[test]
fn releasing_a_light_releases_its_shadow_map() {
    let mut dev = Device::new();
    let directional = DirectionalLight::new(&mut dev, (64, 64));
    let spot = SpotLight::new(&mut dev, (64, 64), scalar(1.0));
    dev.take_commands();
    directional.release(&mut dev);
    spot.release(&mut dev);
    assert_eq!(
        dev.commands(),
        &vec![
            plain(Op::BindTexture { target: TextureTarget::Texture2D, id: 0 }),
            plain(Op::Delete { kind: ObjectKind::Texture, id: 2 }),
            plain(Op::BindFramebuffer { id: 0 }),
            plain(Op::Delete { kind: ObjectKind::Framebuffer, id: 1 }),
            plain(Op::BindTexture { target: TextureTarget::Texture2D, id: 0 }),
            plain(Op::Delete { kind: ObjectKind::Texture, id: 4 }),
            plain(Op::BindFramebuffer { id: 0 }),
            plain(Op::Delete { kind: ObjectKind::Framebuffer, id: 3 }),
        ]
    );
    assert!(all_released(&dev));
}

#[test]
fn releasing_the_render_targets_releases_seven_objects() {
    let mut dev = Device::new();
    let targets = RenderTargets::new(&mut dev, (800, 600));
    dev.take_commands();
    targets.release(&mut dev);
    let deleted: Vec<(ObjectKind, u32)> = dev
        .commands()
        .iter()
        .filter_map(|command| match command.op {
            Op::Delete { kind, id } => Some((kind, id)),
            _ => None,
        })
        .collect();
    assert_eq!(
        deleted,
        vec![
            (ObjectKind::Texture, 2),
            (ObjectKind::Texture, 3),
            (ObjectKind::Texture, 4),
            (ObjectKind::Framebuffer, 1),
            (ObjectKind::Renderbuffer, 5),
            (ObjectKind::Texture, 7),
            (ObjectKind::Framebuffer, 6),
        ]
    );
    assert_eq!(dev.commands().len(), 14);
    assert!(all_released(&dev));
}

#[test]
fn releasing_the_programs_deletes_all_four() {
    let mut dev = Device::new();
    let programs = Programs {
        depth_only_shader: create_program(&mut dev, "a", "b"),
        point_lighting_pass: create_program(&mut dev, "c", "d"),
        directional_lighting_pass: create_program(&mut dev, "e", "f"),
        spot_lighting_pass: create_program(&mut dev, "g", "h"),
    };
    dev.take_commands();
    programs.release(&mut dev);
    assert_eq!(
        dev.commands(),
        &vec![
            plain(Op::Delete { kind: ObjectKind::Program, id: 3 }),
            plain(Op::Delete { kind: ObjectKind::Program, id: 6 }),
            plain(Op::Delete { kind: ObjectKind::Program, id: 9 }),
            plain(Op::Delete { kind: ObjectKind::Program, id: 12 }),
        ]
    );
    assert!(all_released(&dev));
}

#[test]
fn tearing_a_scene_down_releases_meshes_quad_and_marker_in_order() {
    let mut dev = Device::new();
    let first = triangle(&mut dev, "First");
    let second = triangle(&mut dev, "Second");
    let marker = triangle(&mut dev, "Marker");
    let cam = Camera::new(scalar(1.0), scalar(1.0), scalar(0.1), scalar(100.0));
    let globals = Globals::new(
        &mut dev,
        (800, 600),
        Vector2::new(scalar(800.0), scalar(600.0)),
        cam,
        vec![first, second],
        marker,
        "final v",
        "final f",
    );
    dev.take_commands();
    globals.release(&mut dev);
    let mut expected = model_release(1);
    expected.extend(model_release(8));
    expected.extend(model_release(22));
    expected.extend(model_release(15));
    assert_eq!(dev.commands(), &expected);
    assert!(all_released(&dev));
    assert_eq!(dev.handles(), 28);
}

#[test]
fn an_empty_scene_releases_only_quad_and_marker() {
    let mut dev = Device::new();
    let marker = triangle(&mut dev, "Marker");
    let cam = Camera::new(scalar(1.0), scalar(1.0), scalar(0.1), scalar(100.0));
    let globals = Globals::new(
        &mut dev,
        (1, 1),
        Vector2::new(scalar(1.0), scalar(1.0)),
        cam,
        Vec::new(),
        marker,
        "final v",
        "final f",
    );
    dev.take_commands();
    globals.release(&mut dev);
    let mut expected = model_release(8);
    expected.extend(model_release(1));
    assert_eq!(dev.commands(), &expected);
}
