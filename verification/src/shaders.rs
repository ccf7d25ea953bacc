//! Shaders and the programs linked from them.
//!
//! Compiling and linking are requests like any other: they are recorded, and
//! the backend's verdict arrives when the stream is played back. The verdict
//! is judged by [`compile_outcome`] and [`link_outcome`]; [`Shader::checked`]
//! and [`Program::checked`] take it and release what was not built, so that
//! no object outlives its failure. Uniforms are set by name on every call;
//! nothing is cached between calls.

use vstd::prelude::*;
use vstd::string::StringExecFns;
use crate::command::{plain, with_text, CommandView, ObjectKind, Op, Payload, ShaderStage};
use crate::device::{appends, appends_one, lemma_appends, Device};
use crate::material_structs::{MaterialInfo, PointLightInfo, SpotLightInfo};
use crate::math::{MatrixValue, Scalar, Vector2, Vector3};
use crate::state::{keeps, released, Object};

verus! {

/// Why a program could not be built. Either way the text is the backend's
/// own diagnostic.
#[derive(Clone, Debug, PartialEq, Eq)]
pub enum ShaderError {
    Compile { log: String },
    Link { log: String },
}

/// Judges the backend's answer to a compile-status check: a status of zero
/// is a failure that carries the log.
pub fn compile_outcome(status: i32, log: String) -> (outcome: Result<(), ShaderError>)
    ensures
        outcome is Ok <==> status != 0,
        outcome is Err ==> outcome->Err_0 == (ShaderError::Compile { log }),
{
    if status == 0 {
        return Err(ShaderError::Compile { log });
    }
    Ok(())
}

/// Judges the backend's answer to a link-status check: a status of zero is a
/// failure that carries the log.
pub fn link_outcome(status: i32, log: String) -> (outcome: Result<(), ShaderError>)
    ensures
        outcome is Ok <==> status != 0,
        outcome is Err ==> outcome->Err_0 == (ShaderError::Link { log }),
{
    if status == 0 {
        return Err(ShaderError::Link { log });
    }
    Ok(())
}

/// Whether every one of `outcomes` is a success.
pub open spec fn all_passed(outcomes: Seq<Result<(), ShaderError>>) -> bool {
    forall|i: int| 0 <= i < outcomes.len() ==> (#[trigger] outcomes[i]) is Ok
}

/// Whether the outcome at place `i` is the first failure among `outcomes`.
pub open spec fn fails_first_at(outcomes: Seq<Result<(), ShaderError>>, i: int) -> bool {
    &&& 0 <= i < outcomes.len()
    &&& outcomes[i] is Err
    &&& forall|k: int| 0 <= k < i ==> (#[trigger] outcomes[k]) is Ok
}

/// Owner of one shader object.
#[derive(Debug)]
pub struct Shader {
    id: u32,
    stage: ShaderStage,
}

impl Shader {
    /// The handle this wrapper owns.
    pub closed spec fn spec_id(&self) -> u32 {
        self.id
    }

    /// The handle this wrapper owns.
    #[verifier::when_used_as_spec(spec_id)]
    pub fn id(&self) -> (id: u32)
        ensures
            id == self.id(),
    {
        self.id
    }

    /// The stage this shader was written for.
    pub closed spec fn spec_stage(&self) -> ShaderStage {
        self.stage
    }

    /// The stage this shader was written for.
    #[verifier::when_used_as_spec(spec_stage)]
    pub fn stage(&self) -> (stage: ShaderStage)
        ensures
            stage == self.stage(),
    {
        self.stage
    }

    /// The commands of [`Shader::from_source`] that creates shader `id`.
    pub open spec fn from_source_commands(id: u32, source: Seq<char>, kind: ShaderStage) -> Seq<
        CommandView,
    > {
        seq![plain(Op::Create { kind: kind.kind(), id })].push(
            with_text(Op::ShaderSource { shader: id }, source),
        ).push(plain(Op::CompileShader { shader: id })).push(
            plain(Op::CheckCompileStatus { shader: id }),
        )
    }

    /// Creates a shader for stage `kind`, gives it `source` and has it
    /// compiled, then asks how the compilation went. The answer comes from
    /// the backend and is to be handed to [`Shader::checked`], which releases
    /// a shader that did not compile.
    pub fn from_source(dev: &mut Device, source: &str, kind: ShaderStage) -> (shader: Shader)
        requires
            old(dev)@.room(1),
        ensures
            shader.id() == old(dev)@.next_handle(),
            shader.stage() == kind,
            appends(
                old(dev)@,
                final(dev)@,
                Self::from_source_commands(shader.id(), source@, kind),
            ),
            final(dev)@.state.objects == old(dev)@.state.objects.push(Object::fresh(kind.kind())),
            final(dev)@.state.bind == old(dev)@.state.bind,
            final(dev)@.state.draws == old(dev)@.state.draws,
    {
        let id: u32 = dev.create(kind.kind());
        dev.submit(Op::ShaderSource { shader: id }, Payload::Text(String::from_str(source)));
        dev.submit(Op::CompileShader { shader: id }, Payload::Nothing);
        dev.submit(Op::CheckCompileStatus { shader: id }, Payload::Nothing);
        proof {
            lemma_appends(old(dev)@, dev@, Self::from_source_commands(id, source@, kind));
        }
        Shader { id, stage: kind }
    }

    /// Settles the backend's answer to the compile check of this shader. A
    /// status of zero is a failure: the shader is released, and the error
    /// carries the log. On any other status the shader is handed back and
    /// nothing is recorded.
    pub fn checked(self, dev: &mut Device, status: i32, log: String) -> (outcome: Result<
        Shader,
        ShaderError,
    >)
        ensures
            status != 0 ==> outcome == Ok::<Shader, ShaderError>(self) && final(dev)@ == old(
                dev,
            )@,
            status == 0 ==> outcome == Err::<Shader, ShaderError>(ShaderError::Compile { log })
                && appends_one(
                old(dev)@,
                final(dev)@,
                plain(Op::Delete { kind: self.stage().kind(), id: self.id() }),
            ) && !final(dev)@.state.has(self.stage().kind(), self.id()),
    {
        match compile_outcome(status, log) {
            Ok(()) => Ok(self),
            Err(error) => {
                self.release(dev);
                Err(error)
            },
        }
    }

    /// Deletes the object. The wrapper stays, of a handle that stands for
    /// nothing any more.
    pub fn delete(&self, dev: &mut Device)
        ensures
            appends_one(
                old(dev)@,
                final(dev)@,
                plain(Op::Delete { kind: self.stage().kind(), id: self.id() }),
            ),
    {
        dev.submit(Op::Delete { kind: self.stage.kind(), id: self.id }, Payload::Nothing);
    }

    /// Gives the shader up. The wrapper is consumed, so the handle cannot be
    /// released a second time through it.
    pub fn release(self, dev: &mut Device)
        ensures
            appends_one(
                old(dev)@,
                final(dev)@,
                plain(Op::Delete { kind: self.stage().kind(), id: self.id() }),
            ),
            !final(dev)@.state.has(self.stage().kind(), self.id()),
    {
        self.delete(dev);
    }
}

/// Handle and stage of each of `shaders`, in order.
pub open spec fn described(shaders: Seq<Shader>) -> Seq<(u32, ShaderStage)> {
    Seq::new(shaders.len(), |i: int| (shaders[i].id(), shaders[i].stage()))
}

/// The attachments of the first `n` of `shaders` to `program`, in order.
pub open spec fn attach_commands(program: u32, shaders: Seq<(u32, ShaderStage)>, n: nat) -> Seq<
    CommandView,
>
    decreases n,
{
    if n == 0 {
        Seq::empty()
    } else {
        attach_commands(program, shaders, (n - 1) as nat).push(
            plain(Op::AttachShader { program, shader: shaders[n - 1].0 }),
        )
    }
}

/// The detachments of the first `n` of `shaders` from `program`, in order.
pub open spec fn detach_commands(program: u32, shaders: Seq<(u32, ShaderStage)>, n: nat) -> Seq<
    CommandView,
>
    decreases n,
{
    if n == 0 {
        Seq::empty()
    } else {
        detach_commands(program, shaders, (n - 1) as nat).push(
            plain(Op::DetachShader { program, shader: shaders[n - 1].0 }),
        )
    }
}

/// The deletions of the first `n` of `shaders`, in order.
pub open spec fn delete_commands(shaders: Seq<(u32, ShaderStage)>, n: nat) -> Seq<CommandView>
    decreases n,
{
    if n == 0 {
        Seq::empty()
    } else {
        delete_commands(shaders, (n - 1) as nat).push(
            plain(Op::Delete { kind: shaders[n - 1].1.kind(), id: shaders[n - 1].0 }),
        )
    }
}

/// The commands that set colour, radius and position of the light struct
/// `name` of `program`.
pub open spec fn light_commands(
    program: u32,
    name: Seq<char>,
    color: Vector3,
    radius: Scalar,
    position: Vector3,
) -> Seq<CommandView> {
    seq![with_text(Op::Uniform3f { program, value: color }, name + ".Color"@)].push(
        with_text(Op::Uniform1f { program, value: radius }, name + ".Radius"@),
    ).push(with_text(Op::Uniform3f { program, value: position }, name + ".Position"@))
}

/// The commands that set the four fields of the material struct `name` of
/// `program`.
pub open spec fn material_commands(program: u32, name: Seq<char>, value: MaterialInfo) -> Seq<
    CommandView,
> {
    seq![with_text(Op::Uniform3f { program, value: value.ambient }, name + ".ambient"@)].push(
        with_text(Op::Uniform3f { program, value: value.diffuse }, name + ".diffuse"@),
    ).push(with_text(Op::Uniform1f { program, value: value.specular }, name + ".specular"@)).push(
        with_text(Op::Uniform1f { program, value: value.shininess }, name + ".shininess"@),
    )
}

/// Owner of one linked program.
#[derive(Debug)]
pub struct Program {
    id: u32,
}

impl Program {
    /// The handle this wrapper owns.
    pub closed spec fn spec_id(&self) -> u32 {
        self.id
    }

    /// The handle this wrapper owns.
    #[verifier::when_used_as_spec(spec_id)]
    pub fn id(&self) -> (id: u32)
        ensures
            id == self.id(),
    {
        self.id
    }

    /// The commands of [`Program::from_shaders`] that creates program `id`.
    pub open spec fn from_shaders_commands(id: u32, shaders: Seq<(u32, ShaderStage)>) -> Seq<
        CommandView,
    > {
        (seq![plain(Op::Create { kind: ObjectKind::Program, id })] + attach_commands(
            id,
            shaders,
            shaders.len(),
        )).push(plain(Op::LinkProgram { program: id })).push(
            plain(Op::CheckLinkStatus { program: id }),
        ) + detach_commands(id, shaders, shaders.len())
    }

    /// Creates a program, attaches `shaders` in order, has it linked, asks
    /// how the linking went, and detaches the shaders again. The answer comes
    /// from the backend; judged by [`link_outcome`] it is to be handed to
    /// [`Program::checked`], which releases a program that did not link.
    pub fn from_shaders(dev: &mut Device, shaders: &Vec<Shader>) -> (program: Program)
        requires
            old(dev)@.room(1),
        ensures
            program.id() == old(dev)@.next_handle(),
            appends(
                old(dev)@,
                final(dev)@,
                Self::from_shaders_commands(program.id(), described(shaders@)),
            ),
            final(dev)@.state.objects == old(dev)@.state.objects.push(
                Object::fresh(ObjectKind::Program),
            ),
            final(dev)@.state.bind == old(dev)@.state.bind,
            final(dev)@.state.draws == old(dev)@.state.draws,
    {
        let ghost parts = described(shaders@);
        let id: u32 = dev.create(ObjectKind::Program);
        let ghost created = seq![plain(Op::Create { kind: ObjectKind::Program, id })];
        let ghost after_create = dev@.state;
        assert(created + attach_commands(id, parts, 0) =~= created);
        let mut i: usize = 0;
        while i < shaders.len()
            invariant
                i <= shaders.len(),
                parts == described(shaders@),
                dev@.extends(old(dev)@, created + attach_commands(id, parts, i as nat)),
                dev@.state == after_create,
            decreases shaders.len() - i,
        {
            let ghost before = attach_commands(id, parts, i as nat);
            dev.submit(Op::AttachShader { program: id, shader: shaders[i].id() }, Payload::Nothing);
            proof {
                let attach = plain(Op::AttachShader { program: id, shader: parts[i as int].0 });
                assert((created + before).push(attach) =~= created + before.push(attach));
            }
            i += 1;
        }
        dev.submit(Op::LinkProgram { program: id }, Payload::Nothing);
        dev.submit(Op::CheckLinkStatus { program: id }, Payload::Nothing);
        let ghost linked = (created + attach_commands(id, parts, parts.len())).push(
            plain(Op::LinkProgram { program: id }),
        ).push(plain(Op::CheckLinkStatus { program: id }));
        assert(linked + detach_commands(id, parts, 0) =~= linked);
        let mut j: usize = 0;
        while j < shaders.len()
            invariant
                j <= shaders.len(),
                parts == described(shaders@),
                dev@.extends(old(dev)@, linked + detach_commands(id, parts, j as nat)),
                dev@.state == after_create,
            decreases shaders.len() - j,
        {
            let ghost before = detach_commands(id, parts, j as nat);
            dev.submit(Op::DetachShader { program: id, shader: shaders[j].id() }, Payload::Nothing);
            proof {
                let detach = plain(Op::DetachShader { program: id, shader: parts[j as int].0 });
                assert((linked + before).push(detach) =~= linked + before.push(detach));
            }
            j += 1;
        }
        proof {
            lemma_appends(old(dev)@, dev@, Self::from_shaders_commands(id, parts));
        }
        Program { id }
    }

    /// Makes this program the one in use.
    pub fn set(&self, dev: &mut Device)
        ensures
            appends_one(old(dev)@, final(dev)@, plain(Op::UseProgram { id: self.id() })),
    {
        dev.submit(Op::UseProgram { id: self.id }, Payload::Nothing);
    }

    /// Sets the uniform `name` to 1 for true and 0 for false.
    pub fn set_bool(&self, dev: &mut Device, name: &str, value: bool)
        ensures
            appends_one(
                old(dev)@,
                final(dev)@,
                with_text(
                    Op::Uniform1i { program: self.id(), value: if value { 1i32 } else { 0i32 } },
                    name@,
                ),
            ),
    {
        let number: i32 = if value { 1 } else { 0 };
        dev.submit(
            Op::Uniform1i { program: self.id, value: number },
            Payload::Text(String::from_str(name)),
        );
    }

    /// Sets the integer or sampler uniform `name`.
    pub fn set_int(&self, dev: &mut Device, name: &str, value: i32)
        ensures
            appends_one(
                old(dev)@,
                final(dev)@,
                with_text(Op::Uniform1i { program: self.id(), value }, name@),
            ),
    {
        dev.submit(
            Op::Uniform1i { program: self.id, value },
            Payload::Text(String::from_str(name)),
        );
    }

    /// Sets the real uniform `name`.
    pub fn set_float(&self, dev: &mut Device, name: &str, value: Scalar)
        ensures
            appends_one(
                old(dev)@,
                final(dev)@,
                with_text(Op::Uniform1f { program: self.id(), value }, name@),
            ),
    {
        dev.submit(
            Op::Uniform1f { program: self.id, value },
            Payload::Text(String::from_str(name)),
        );
    }

    /// Sets the matrix uniform `name`.
    pub fn set_matrix4_float(&self, dev: &mut Device, name: &str, value: MatrixValue)
        ensures
            appends_one(
                old(dev)@,
                final(dev)@,
                with_text(Op::UniformMatrix4 { program: self.id(), value }, name@),
            ),
    {
        dev.submit(
            Op::UniformMatrix4 { program: self.id, value },
            Payload::Text(String::from_str(name)),
        );
    }

    /// Sets the three-component uniform `name`.
    pub fn set_vector3(&self, dev: &mut Device, name: &str, value: Vector3)
        ensures
            appends_one(
                old(dev)@,
                final(dev)@,
                with_text(Op::Uniform3f { program: self.id(), value }, name@),
            ),
    {
        dev.submit(
            Op::Uniform3f { program: self.id, value },
            Payload::Text(String::from_str(name)),
        );
    }

    /// Sets the two-component uniform `name`.
    pub fn set_vector2(&self, dev: &mut Device, name: &str, value: Vector2)
        ensures
            appends_one(
                old(dev)@,
                final(dev)@,
                with_text(Op::Uniform2f { program: self.id(), value }, name@),
            ),
    {
        dev.submit(
            Op::Uniform2f { program: self.id, value },
            Payload::Text(String::from_str(name)),
        );
    }

    /// Sets the four fields of the material struct `name`.
    pub fn set_material_info(&self, dev: &mut Device, name: &str, value: MaterialInfo)
        ensures
            appends(old(dev)@, final(dev)@, material_commands(self.id(), name@, value)),
            final(dev)@.state == old(dev)@.state,
    {
        self.set_vector3(dev, String::from_str(name).concat(".ambient").as_str(), value.ambient);
        self.set_vector3(dev, String::from_str(name).concat(".diffuse").as_str(), value.diffuse);
        self.set_float(dev, String::from_str(name).concat(".specular").as_str(), value.specular);
        self.set_float(dev, String::from_str(name).concat(".shininess").as_str(), value.shininess);
        proof {
            lemma_appends(old(dev)@, dev@, material_commands(self.id(), name@, value));
        }
    }

    /// Sets colour, radius and position of the point-light struct `name`.
    pub fn set_point_light_info(
        &self,
        dev: &mut Device,
        name: &str,
        value: PointLightInfo,
        position: Vector3,
    )
        ensures
            appends(
                old(dev)@,
                final(dev)@,
                light_commands(self.id(), name@, value.color, value.radius, position),
            ),
            final(dev)@.state == old(dev)@.state,
    {
        self.set_vector3(dev, String::from_str(name).concat(".Color").as_str(), value.color);
        self.set_float(dev, String::from_str(name).concat(".Radius").as_str(), value.radius);
        self.set_vector3(dev, String::from_str(name).concat(".Position").as_str(), position);
        proof {
            lemma_appends(
                old(dev)@,
                dev@,
                light_commands(self.id(), name@, value.color, value.radius, position),
            );
        }
    }

    /// Sets colour, radius and position of the spot-light struct `name`.
    pub fn set_spot_light_info(
        &self,
        dev: &mut Device,
        name: &str,
        value: SpotLightInfo,
        position: Vector3,
    )
        ensures
            appends(
                old(dev)@,
                final(dev)@,
                light_commands(self.id(), name@, value.color, value.radius, position),
            ),
            final(dev)@.state == old(dev)@.state,
    {
        self.set_vector3(dev, String::from_str(name).concat(".Color").as_str(), value.color);
        self.set_float(dev, String::from_str(name).concat(".Radius").as_str(), value.radius);
        self.set_vector3(dev, String::from_str(name).concat(".Position").as_str(), position);
        proof {
            lemma_appends(
                old(dev)@,
                dev@,
                light_commands(self.id(), name@, value.color, value.radius, position),
            );
        }
    }

    /// Settles the backend's answers to the checks that building this
    /// program recorded: `outcomes` holds them in the order of the checks,
    /// each as [`compile_outcome`] or [`link_outcome`] judged it. Where all
    /// passed, the program is handed back and nothing is recorded. Otherwise
    /// the program is released, and the first failure is the error.
    pub fn checked(self, dev: &mut Device, outcomes: Vec<Result<(), ShaderError>>) -> (outcome:
        Result<Program, ShaderError>)
        ensures
            all_passed(outcomes@) ==> outcome == Ok::<Program, ShaderError>(self) && final(dev)@
                == old(dev)@,
            forall|i: int|
                #[trigger] fails_first_at(outcomes@, i) ==> outcome == Err::<
                    Program,
                    ShaderError,
                >(outcomes@[i]->Err_0),
            !all_passed(outcomes@) ==> appends_one(
                old(dev)@,
                final(dev)@,
                plain(Op::Delete { kind: ObjectKind::Program, id: self.id() }),
            ) && !final(dev)@.state.has(ObjectKind::Program, self.id())
                && final(dev)@.state.objects == released(
                old(dev)@.state.objects,
                ObjectKind::Program,
                self.id(),
            ),
    {
        let mut rest: Vec<Result<(), ShaderError>> = outcomes;
        let mut failure: Option<ShaderError> = None;
        while rest.len() > 0
            invariant
                rest@.len() <= outcomes@.len(),
                rest@ == outcomes@.take(rest@.len() as int),
                failure is None <==> forall|k: int|
                    rest@.len() <= k < outcomes@.len() ==> (#[trigger] outcomes@[k]) is Ok,
                forall|i: int|
                    rest@.len() <= i < outcomes@.len() && (#[trigger] outcomes@[i]) is Err && (
                    forall|k: int| rest@.len() <= k < i ==> (#[trigger] outcomes@[k]) is Ok)
                        ==> failure == Some(outcomes@[i]->Err_0),
            decreases rest.len(),
        {
            let ghost place = rest@.len() - 1;
            let last: Option<Result<(), ShaderError>> = rest.pop();
            assert(last == Some(outcomes@[place]));
            match last {
                Some(Err(error)) => {
                    failure = Some(error);
                },
                _ => {},
            }
        }
        match failure {
            None => Ok(self),
            Some(error) => {
                self.release(dev);
                Err(error)
            },
        }
    }

    /// Gives the program up. The wrapper is consumed, so the handle cannot
    /// be released a second time through it.
    pub fn release(self, dev: &mut Device)
        ensures
            appends_one(
                old(dev)@,
                final(dev)@,
                plain(Op::Delete { kind: ObjectKind::Program, id: self.id() }),
            ),
            !final(dev)@.state.has(ObjectKind::Program, self.id()),
            final(dev)@.state.objects.len() == old(dev)@.state.objects.len(),
            final(dev)@.state.objects == released(
                old(dev)@.state.objects,
                ObjectKind::Program,
                self.id(),
            ),
    {
        dev.submit(Op::Delete { kind: ObjectKind::Program, id: self.id }, Payload::Nothing);
    }
}

/// The commands that link `shaders` into program `id` and then delete them,
/// in order.
pub open spec fn build_program_commands(id: u32, shaders: Seq<(u32, ShaderStage)>) -> Seq<
    CommandView,
> {
    Program::from_shaders_commands(id, shaders) + delete_commands(shaders, shaders.len())
}

/// Whether `id` is the handle of one of `shaders`.
pub open spec fn mentions(shaders: Seq<(u32, ShaderStage)>, id: u32) -> bool {
    exists|i: int| 0 <= i < shaders.len() && (#[trigger] shaders[i]).0 == id
}

/// Links `shaders` into a program and deletes them, in order.
fn build_program(dev: &mut Device, shaders: Vec<Shader>) -> (program: Program)
    requires
        old(dev)@.room(1),
    ensures
        program.id() == old(dev)@.next_handle(),
        appends(old(dev)@, final(dev)@, build_program_commands(program.id(), described(shaders@))),
        final(dev)@.state.objects.len() == old(dev)@.state.objects.len() + 1,
        final(dev)@.state.has(ObjectKind::Program, program.id()),
        final(dev)@.state.bind == old(dev)@.state.bind,
        forall|id: u32|
            old(dev)@.state.issued(id) && !mentions(described(shaders@), id)
                ==> #[trigger] final(dev)@.state.object(id) == old(dev)@.state.object(id),
        final(dev)@.state.draws == old(dev)@.state.draws,
{
    let ghost parts = described(shaders@);
    let program: Program = Program::from_shaders(dev, &shaders);
    let ghost linked = Program::from_shaders_commands(program.id(), parts);
    let ghost after_link = dev@.state;
    assert(linked + delete_commands(parts, 0) =~= linked);
    let mut i: usize = 0;
    while i < shaders.len()
        invariant
            i <= shaders.len(),
            parts == described(shaders@),
            dev@.extends(old(dev)@, linked + delete_commands(parts, i as nat)),
            dev@.state.objects.len() == after_link.objects.len(),
            dev@.state.has(ObjectKind::Program, program.id()),
            dev@.state.bind == after_link.bind,
            dev@.state.draws == after_link.draws,
            forall|id: u32|
                old(dev)@.state.issued(id) && !mentions(parts, id) ==> #[trigger] dev@.state.object(
                    id,
                ) == old(dev)@.state.object(id),
        decreases shaders.len() - i,
    {
        let ghost before = delete_commands(parts, i as nat);
        let ghost reached = dev@.state;
        shaders[i].delete(dev);
        proof {
            let delete = plain(
                Op::Delete { kind: parts[i as int].1.kind(), id: parts[i as int].0 },
            );
            assert((linked + before).push(delete) =~= linked + before.push(delete));
            assert forall|id: u32|
                old(dev)@.state.issued(id) && !mentions(parts, id) implies #[trigger] dev@
                    .state.object(id) == old(dev)@.state.object(id) by {
                assert(parts[i as int].0 != id);
                assert(dev@.state.object(id) == reached.object(id));
            }
        }
        i += 1;
    }
    proof {
        lemma_appends(old(dev)@, dev@, build_program_commands(program.id(), parts));
    }
    program
}

/// Handle and stage of a vertex and a fragment shader created one after the
/// other, the first under handle `first`.
pub open spec fn shader_pair(first: u32) -> Seq<(u32, ShaderStage)> {
    seq![(first, ShaderStage::Vertex)].push(((first + 1) as u32, ShaderStage::Fragment))
}

/// Handle and stage of a vertex, a fragment and a geometry shader created
/// one after the other, the first under handle `first`.
pub open spec fn shader_triple(first: u32) -> Seq<(u32, ShaderStage)> {
    shader_pair(first).push(((first + 2) as u32, ShaderStage::Geometry))
}

/// The commands of [`create_program`] when the next free handle is `first`.
pub open spec fn create_program_commands(first: u32, vert: Seq<char>, frag: Seq<char>) -> Seq<
    CommandView,
> {
    Shader::from_source_commands(first, vert, ShaderStage::Vertex) + Shader::from_source_commands(
        (first + 1) as u32,
        frag,
        ShaderStage::Fragment,
    ) + build_program_commands((first + 2) as u32, shader_pair(first))
}

/// Compiles a vertex and a fragment shader from their source texts, links
/// them into a program, and deletes the two shaders. The program's handle is
/// the third one given out. The answers to the two compile checks and the
/// link check, in this order, are to be handed to [`Program::checked`].
pub fn create_program(dev: &mut Device, vert_shader_text: &str, frag_shader_text: &str) -> (program:
    Program)
    requires
        old(dev)@.room(3),
    ensures
        program.id() == old(dev)@.next_handle() + 2,
        appends(
            old(dev)@,
            final(dev)@,
            create_program_commands(
                old(dev)@.next_handle(),
                vert_shader_text@,
                frag_shader_text@,
            ),
        ),
        final(dev)@.state.objects.len() == old(dev)@.state.objects.len() + 3,
        final(dev)@.state.has(ObjectKind::Program, program.id()),
        final(dev)@.state.bind == old(dev)@.state.bind,
        keeps(final(dev)@.state, old(dev)@.state),
        final(dev)@.state.draws == old(dev)@.state.draws,
{
    let vert_shader: Shader = Shader::from_source(dev, vert_shader_text, ShaderStage::Vertex);
    let frag_shader: Shader = Shader::from_source(dev, frag_shader_text, ShaderStage::Fragment);
    let mut shaders: Vec<Shader> = Vec::new();
    shaders.push(vert_shader);
    shaders.push(frag_shader);
    assert(described(shaders@) =~= shader_pair(old(dev)@.next_handle()));
    let program: Program = build_program(dev, shaders);
    proof {
        lemma_appends(
            old(dev)@,
            dev@,
            create_program_commands(old(dev)@.next_handle(), vert_shader_text@, frag_shader_text@),
        );
    }
    program
}

/// The commands of [`create_program_with_geometry_shader`] when the next
/// free handle is `first`.
pub open spec fn create_program_with_geometry_shader_commands(
    first: u32,
    vert: Seq<char>,
    frag: Seq<char>,
    geom: Seq<char>,
) -> Seq<CommandView> {
    Shader::from_source_commands(first, vert, ShaderStage::Vertex) + Shader::from_source_commands(
        (first + 1) as u32,
        frag,
        ShaderStage::Fragment,
    ) + Shader::from_source_commands((first + 2) as u32, geom, ShaderStage::Geometry)
        + build_program_commands((first + 3) as u32, shader_triple(first))
}

/// Compiles a vertex, a fragment and a geometry shader from their source
/// texts, links them into a program, and deletes the three shaders. The
/// program's handle is the fourth one given out. The answers to the three
/// compile checks and the link check, in this order, are to be handed to
/// [`Program::checked`].
pub fn create_program_with_geometry_shader(
    dev: &mut Device,
    vert_shader_text: &str,
    frag_shader_text: &str,
    geom_shader_text: &str,
) -> (program: Program)
    requires
        old(dev)@.room(4),
    ensures
        program.id() == old(dev)@.next_handle() + 3,
        appends(
            old(dev)@,
            final(dev)@,
            create_program_with_geometry_shader_commands(
                old(dev)@.next_handle(),
                vert_shader_text@,
                frag_shader_text@,
                geom_shader_text@,
            ),
        ),
        final(dev)@.state.objects.len() == old(dev)@.state.objects.len() + 4,
        final(dev)@.state.has(ObjectKind::Program, program.id()),
        final(dev)@.state.bind == old(dev)@.state.bind,
        keeps(final(dev)@.state, old(dev)@.state),
        final(dev)@.state.draws == old(dev)@.state.draws,
{
    let vert_shader: Shader = Shader::from_source(dev, vert_shader_text, ShaderStage::Vertex);
    let frag_shader: Shader = Shader::from_source(dev, frag_shader_text, ShaderStage::Fragment);
    let geom_shader: Shader = Shader::from_source(dev, geom_shader_text, ShaderStage::Geometry);
    let mut shaders: Vec<Shader> = Vec::new();
    shaders.push(vert_shader);
    shaders.push(frag_shader);
    shaders.push(geom_shader);
    assert(described(shaders@) =~= shader_triple(old(dev)@.next_handle()));
    let program: Program = build_program(dev, shaders);
    proof {
        lemma_appends(
            old(dev)@,
            dev@,
            create_program_with_geometry_shader_commands(
                old(dev)@.next_handle(),
                vert_shader_text@,
                frag_shader_text@,
                geom_shader_text@,
            ),
        );
    }
    program
}

} // verus!
