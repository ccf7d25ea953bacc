//! A model of the backend: what exists behind each handle, what is bound
//! where, and how one command changes that.
//!
//! The model follows the command stream and nothing else. It knows the
//! storage that objects were given, the attachments of framebuffers, the
//! current bindings and switches, and under which bindings each draw
//! happened; it does not know pixel contents or whether the backend accepted
//! a command. A command that names a handle of the wrong kind, or needs a
//! binding that is not there, leaves the model as it was.

use vstd::prelude::*;
use crate::command::{
    Attachment, BlendFactor, BufferTarget, BufferUsage, Capability, CommandView, Face, ImageTarget,
    InternalFormat, ObjectKind, Op, TextureTarget, TextureUnit,
};

verus! {

/// What the model knows of the object behind one handle.
#[derive(Clone, Copy, Debug, PartialEq, Eq)]
pub enum Object {
    /// A buffer whose store holds `words` 4-byte words.
    Buffer { words: usize, usage: BufferUsage },
    VertexArray,
    /// A texture whose level 0 has the given size and format.
    Texture { width: u32, height: u32, format: InternalFormat },
    /// A framebuffer and the handle attached at each point (`0`: nothing).
    Framebuffer { color0: u32, color1: u32, color2: u32, depth: u32, depth_stencil: u32 },
    /// A renderbuffer whose store has the given size.
    Renderbuffer { width: u32, height: u32 },
    VertexShader,
    FragmentShader,
    GeometryShader,
    Program,
    /// The handle was given out once and its object has been released.
    Released,
}

impl Object {
    /// The kind of a live object; `None` for a released one.
    pub open spec fn kind(self) -> Option<ObjectKind> {
        match self {
            Object::Buffer { .. } => Some(ObjectKind::Buffer),
            Object::VertexArray => Some(ObjectKind::VertexArray),
            Object::Texture { .. } => Some(ObjectKind::Texture),
            Object::Framebuffer { .. } => Some(ObjectKind::Framebuffer),
            Object::Renderbuffer { .. } => Some(ObjectKind::Renderbuffer),
            Object::VertexShader => Some(ObjectKind::VertexShader),
            Object::FragmentShader => Some(ObjectKind::FragmentShader),
            Object::GeometryShader => Some(ObjectKind::GeometryShader),
            Object::Program => Some(ObjectKind::Program),
            Object::Released => None,
        }
    }

    /// The object of `kind` as it is right after creation: no storage, no
    /// attachments.
    pub open spec fn fresh(kind: ObjectKind) -> Object {
        match kind {
            ObjectKind::Buffer => Object::Buffer { words: 0, usage: BufferUsage::StaticDraw },
            ObjectKind::VertexArray => Object::VertexArray,
            ObjectKind::Texture => Object::Texture {
                width: 0,
                height: 0,
                format: InternalFormat::Rgba,
            },
            ObjectKind::Framebuffer => Object::Framebuffer {
                color0: 0,
                color1: 0,
                color2: 0,
                depth: 0,
                depth_stencil: 0,
            },
            ObjectKind::Renderbuffer => Object::Renderbuffer { width: 0, height: 0 },
            ObjectKind::VertexShader => Object::VertexShader,
            ObjectKind::FragmentShader => Object::FragmentShader,
            ObjectKind::GeometryShader => Object::GeometryShader,
            ObjectKind::Program => Object::Program,
        }
    }

    /// This framebuffer with `name` attached at `point`; any other object
    /// unchanged.
    pub open spec fn attach(self, point: Attachment, name: u32) -> Object {
        match self {
            Object::Framebuffer { color0, color1, color2, depth, depth_stencil } => match point {
                Attachment::Color0 => Object::Framebuffer {
                    color0: name,
                    color1,
                    color2,
                    depth,
                    depth_stencil,
                },
                Attachment::Color1 => Object::Framebuffer {
                    color0,
                    color1: name,
                    color2,
                    depth,
                    depth_stencil,
                },
                Attachment::Color2 => Object::Framebuffer {
                    color0,
                    color1,
                    color2: name,
                    depth,
                    depth_stencil,
                },
                Attachment::Depth => Object::Framebuffer {
                    color0,
                    color1,
                    color2,
                    depth: name,
                    depth_stencil,
                },
                Attachment::DepthStencil => Object::Framebuffer {
                    color0,
                    color1,
                    color2,
                    depth,
                    depth_stencil: name,
                },
            },
            other => other,
        }
    }

    /// The handle attached to this framebuffer at `point`; `0` for any other
    /// object.
    pub open spec fn attached(self, point: Attachment) -> u32 {
        match self {
            Object::Framebuffer { color0, color1, color2, depth, depth_stencil } => match point {
                Attachment::Color0 => color0,
                Attachment::Color1 => color1,
                Attachment::Color2 => color2,
                Attachment::Depth => depth,
                Attachment::DepthStencil => depth_stencil,
            },
            _ => 0,
        }
    }
}

/// The names bound to each target, and the switches of the fixed pipeline.
#[derive(Clone, Copy, Debug, PartialEq, Eq)]
pub struct Bindings {
    pub array_buffer: u32,
    pub element_buffer: u32,
    pub vertex_array: u32,
    pub active_unit: TextureUnit,
    /// The 2-D texture bound at each unit.
    pub texture0: u32,
    pub texture1: u32,
    pub texture2: u32,
    pub texture3: u32,
    pub cube_map: u32,
    pub framebuffer: u32,
    pub renderbuffer: u32,
    pub program: u32,
    pub depth_test: bool,
    pub cull_face: bool,
    pub blend: bool,
    pub culled_face: Face,
    pub blend_source: BlendFactor,
    pub blend_destination: BlendFactor,
    pub viewport_width: u32,
    pub viewport_height: u32,
}

impl Bindings {
    /// Nothing bound, every switch off, the defaults of a fresh context.
    pub open spec fn initial() -> Bindings {
        Bindings {
            array_buffer: 0,
            element_buffer: 0,
            vertex_array: 0,
            active_unit: TextureUnit::Unit0,
            texture0: 0,
            texture1: 0,
            texture2: 0,
            texture3: 0,
            cube_map: 0,
            framebuffer: 0,
            renderbuffer: 0,
            program: 0,
            depth_test: false,
            cull_face: false,
            blend: false,
            culled_face: Face::Back,
            blend_source: BlendFactor::One,
            blend_destination: BlendFactor::Zero,
            viewport_width: 0,
            viewport_height: 0,
        }
    }

    /// The buffer bound to `target`.
    pub open spec fn buffer(self, target: BufferTarget) -> u32 {
        match target {
            BufferTarget::Array => self.array_buffer,
            BufferTarget::ElementArray => self.element_buffer,
        }
    }

    /// These bindings with buffer `id` bound to `target`.
    pub open spec fn bind_buffer(self, target: BufferTarget, id: u32) -> Bindings {
        match target {
            BufferTarget::Array => Bindings { array_buffer: id, ..self },
            BufferTarget::ElementArray => Bindings { element_buffer: id, ..self },
        }
    }

    /// The 2-D texture bound at `unit`.
    pub open spec fn texture_at(self, unit: TextureUnit) -> u32 {
        match unit {
            TextureUnit::Unit0 => self.texture0,
            TextureUnit::Unit1 => self.texture1,
            TextureUnit::Unit2 => self.texture2,
            TextureUnit::Unit3 => self.texture3,
        }
    }

    /// The 2-D texture bound at the active unit.
    pub open spec fn texture(self) -> u32 {
        self.texture_at(self.active_unit)
    }

    /// These bindings with texture `id` bound to `target`: for the 2-D
    /// target, at the active unit.
    pub open spec fn bind_texture(self, target: TextureTarget, id: u32) -> Bindings {
        match target {
            TextureTarget::CubeMap => Bindings { cube_map: id, ..self },
            TextureTarget::Texture2D => match self.active_unit {
                TextureUnit::Unit0 => Bindings { texture0: id, ..self },
                TextureUnit::Unit1 => Bindings { texture1: id, ..self },
                TextureUnit::Unit2 => Bindings { texture2: id, ..self },
                TextureUnit::Unit3 => Bindings { texture3: id, ..self },
            },
        }
    }

    /// The texture that an image specification at `target` lands in.
    pub open spec fn image_texture(self, target: ImageTarget) -> u32 {
        match target {
            ImageTarget::Texture2D => self.texture(),
            ImageTarget::CubeFace { .. } => self.cube_map,
        }
    }

    /// These bindings with `capability` switched on or off.
    pub open spec fn switch(self, capability: Capability, on: bool) -> Bindings {
        match capability {
            Capability::DepthTest => Bindings { depth_test: on, ..self },
            Capability::CullFace => Bindings { cull_face: on, ..self },
            Capability::Blend => Bindings { blend: on, ..self },
        }
    }
}

/// The object behind `id` in a table where handle `h` is entry `h - 1`;
/// `Released` for a handle outside the table.
pub open spec fn object_at(objects: Seq<Object>, id: u32) -> Object {
    if 1 <= id <= objects.len() {
        objects[id - 1]
    } else {
        Object::Released
    }
}

/// The table with `object` behind `id`, if `id` is in the table.
pub open spec fn replaced(objects: Seq<Object>, id: u32, object: Object) -> Seq<Object> {
    if 1 <= id <= objects.len() {
        objects.update(id - 1, object)
    } else {
        objects
    }
}

/// The table after the object of `kind` behind `id` has been released;
/// unchanged if no live object of that kind stands behind `id`.
pub open spec fn released(objects: Seq<Object>, kind: ObjectKind, id: u32) -> Seq<Object> {
    if object_at(objects, id).kind() == Some(kind) {
        replaced(objects, id, Object::Released)
    } else {
        objects
    }
}

/// One draw as the model saw it: how many indices were drawn, and under
/// which bindings and switches.
pub struct Draw {
    pub count: usize,
    pub bind: Bindings,
}

/// The modelled backend at one moment.
pub struct GlState {
    /// The object behind each handle given out so far: handle `h` is entry
    /// `h - 1`.
    pub objects: Seq<Object>,
    pub bind: Bindings,
    /// Every draw so far, oldest first.
    pub draws: Seq<Draw>,
}

impl GlState {
    /// No handle given out, nothing bound.
    pub open spec fn initial() -> GlState {
        GlState { objects: Seq::empty(), bind: Bindings::initial(), draws: Seq::empty() }
    }

    /// Whether `id` is a handle that has been given out.
    pub open spec fn issued(self, id: u32) -> bool {
        1 <= id <= self.objects.len()
    }

    /// The object behind `id`; `Released` for a handle never given out.
    pub open spec fn object(self, id: u32) -> Object {
        object_at(self.objects, id)
    }

    /// Whether a live object of `kind` stands behind `id`.
    pub open spec fn has(self, kind: ObjectKind, id: u32) -> bool {
        self.object(id).kind() == Some(kind)
    }

    /// This state after one more draw of `count` indices under its current
    /// bindings.
    pub open spec fn drawn(self, count: usize) -> GlState {
        GlState { draws: self.draws.push(Draw { count, bind: self.bind }), ..self }
    }

    /// This state with `object` behind `id`, if `id` has been given out.
    pub open spec fn put(self, id: u32, object: Object) -> GlState {
        GlState { objects: replaced(self.objects, id, object), ..self }
    }

    /// Number of 4-byte words in the store of buffer `id`; `0` if `id` is no
    /// live buffer.
    pub open spec fn buffer_words(self, id: u32) -> nat {
        match self.object(id) {
            Object::Buffer { words, .. } => words as nat,
            _ => 0,
        }
    }

    /// The handle attached to framebuffer `id` at `point`; `0` if there is
    /// none or `id` is no live framebuffer.
    pub open spec fn attached(self, id: u32, point: Attachment) -> u32 {
        self.object(id).attached(point)
    }
}

/// Whether in `s` every object that `before` knew is as `before` knew it.
pub open spec fn keeps(s: GlState, before: GlState) -> bool {
    &&& before.objects.len() <= s.objects.len()
    &&& forall|id: u32| before.issued(id) ==> #[trigger] s.object(id) == before.object(id)
}

/// The bindings and switches after the backend has carried out `op`.
pub open spec fn next_bindings(bind: Bindings, op: Op) -> Bindings {
    match op {
        Op::BindBuffer { target, id } => bind.bind_buffer(target, id),
        Op::BindVertexArray { id } => Bindings { vertex_array: id, ..bind },
        Op::ActiveTexture { unit } => Bindings { active_unit: unit, ..bind },
        Op::BindTexture { target, id } => bind.bind_texture(target, id),
        Op::BindFramebuffer { id } => Bindings { framebuffer: id, ..bind },
        Op::BindRenderbuffer { id } => Bindings { renderbuffer: id, ..bind },
        Op::UseProgram { id } => Bindings { program: id, ..bind },
        Op::Viewport { width, height } => Bindings {
            viewport_width: width,
            viewport_height: height,
            ..bind
        },
        Op::Enable { capability } => bind.switch(capability, true),
        Op::Disable { capability } => bind.switch(capability, false),
        Op::BlendFunc { source, destination } => Bindings {
            blend_source: source,
            blend_destination: destination,
            ..bind
        },
        Op::CullFace { face } => Bindings { culled_face: face, ..bind },
        _ => bind,
    }
}

/// Whether a live object of `kind` stands behind `id` in the table.
pub open spec fn holds(objects: Seq<Object>, kind: ObjectKind, id: u32) -> bool {
    object_at(objects, id).kind() == Some(kind)
}

/// The objects after the backend has carried out `c` on `objects` under the
/// bindings `bind`.
pub open spec fn next_objects(objects: Seq<Object>, bind: Bindings, c: CommandView) -> Seq<
    Object,
> {
    match c.op {
        Op::Create { kind, id } => if id == objects.len() + 1 {
            objects.push(Object::fresh(kind))
        } else {
            objects
        },
        Op::Delete { kind, id } => released(objects, kind, id),
        Op::BufferData { target, usage } => {
            let id = bind.buffer(target);
            if holds(objects, ObjectKind::Buffer, id) {
                replaced(objects, id, Object::Buffer { words: c.payload.words() as usize, usage })
            } else {
                objects
            }
        },
        Op::TexImage2D { target, internal_format, width, height, .. } => {
            let id = bind.image_texture(target);
            if holds(objects, ObjectKind::Texture, id) {
                replaced(objects, id, Object::Texture { width, height, format: internal_format })
            } else {
                objects
            }
        },
        Op::FramebufferTexture2D { attachment, texture } => replaced(
            objects,
            bind.framebuffer,
            object_at(objects, bind.framebuffer).attach(attachment, texture),
        ),
        Op::FramebufferTexture { attachment, texture } => replaced(
            objects,
            bind.framebuffer,
            object_at(objects, bind.framebuffer).attach(attachment, texture),
        ),
        Op::FramebufferRenderbuffer { attachment, renderbuffer } => replaced(
            objects,
            bind.framebuffer,
            object_at(objects, bind.framebuffer).attach(attachment, renderbuffer),
        ),
        Op::RenderbufferStorage { width, height } => if holds(
            objects,
            ObjectKind::Renderbuffer,
            bind.renderbuffer,
        ) {
            replaced(objects, bind.renderbuffer, Object::Renderbuffer { width, height })
        } else {
            objects
        },
        _ => objects,
    }
}

/// The draws after the backend has carried out `op` in state `s`: a draw is
/// noted with the bindings under which it happens.
pub open spec fn next_draws(s: GlState, op: Op) -> Seq<Draw> {
    match op {
        Op::DrawElements { count } => s.draws.push(Draw { count, bind: s.bind }),
        _ => s.draws,
    }
}

/// The state after the backend has carried out `c` in state `s`.
pub open spec fn step(s: GlState, c: CommandView) -> GlState {
    GlState {
        objects: next_objects(s.objects, s.bind, c),
        bind: next_bindings(s.bind, c.op),
        draws: next_draws(s, c.op),
    }
}

/// The state after the backend has carried out `cmds`, first to last, from
/// state `s`.
pub open spec fn run(s: GlState, cmds: Seq<CommandView>) -> GlState
    decreases cmds.len(),
{
    if cmds.len() == 0 {
        s
    } else {
        step(run(s, cmds.drop_last()), cmds.last())
    }
}

/// Running one more command is one more step.
pub proof fn lemma_run_push(s: GlState, cmds: Seq<CommandView>, c: CommandView)
    ensures
        run(s, cmds.push(c)) == step(run(s, cmds), c),
{
    assert(cmds.push(c).drop_last() =~= cmds);
}

/// Running a single command is one step.
pub proof fn lemma_run_one(s: GlState, c: CommandView)
    ensures
        run(s, seq![c]) == step(s, c),
{
    assert(seq![c].drop_last() =~= Seq::<CommandView>::empty());
    assert(run(s, Seq::<CommandView>::empty()) == s);
}

/// Running a concatenation is running its parts in turn.
pub proof fn lemma_run_add(s: GlState, a: Seq<CommandView>, b: Seq<CommandView>)
    ensures
        run(s, a + b) == run(run(s, a), b),
    decreases b.len(),
{
    if b.len() == 0 {
        assert(a + b =~= a);
    } else {
        lemma_run_add(s, a, b.drop_last());
        assert((a + b).drop_last() =~= a + b.drop_last());
        assert((a + b).last() == b.last());
    }
}

/// Whether `after` has every handle of `before`, each still standing for an
/// object of the kind it stood for or for nothing any more: no handle is
/// taken back, none is given to an object of another kind, and a released
/// one stays released.
pub open spec fn ages(before: GlState, after: GlState) -> bool {
    &&& before.objects.len() <= after.objects.len()
    &&& forall|id: u32|
        #![trigger after.object(id)]
        before.issued(id) ==> after.object(id).kind() == before.object(id).kind()
            || after.object(id) == Object::Released
}

/// One command ages the model.
pub proof fn lemma_step_ages(s: GlState, c: CommandView)
    ensures
        ages(s, step(s, c)),
{
    let t = step(s, c);
    assert forall|id: u32| s.issued(id) implies (#[trigger] t.object(id)).kind() == s.object(
        id,
    ).kind() || t.object(id) == Object::Released by {}
}

/// Whatever is recorded, handles are never reused: every handle keeps
/// standing for an object of its kind until that object is released, and for
/// nothing ever after.
pub proof fn lemma_run_ages(s: GlState, cmds: Seq<CommandView>)
    ensures
        ages(s, run(s, cmds)),
    decreases cmds.len(),
{
    if cmds.len() > 0 {
        let before = run(s, cmds.drop_last());
        lemma_run_ages(s, cmds.drop_last());
        lemma_step_ages(before, cmds.last());
        let after = run(s, cmds);
        assert forall|id: u32| s.issued(id) implies (#[trigger] after.object(id)).kind()
            == s.object(id).kind() || after.object(id) == Object::Released by {
            assert(before.issued(id));
            assert(before.object(id).kind() == s.object(id).kind() || before.object(id)
                == Object::Released);
        }
    }
}

/// Whether `post` has drawn what `pre` had drawn and since then only draws
/// that are `ok`.
pub open spec fn drew(pre: GlState, post: GlState, ok: spec_fn(Draw) -> bool) -> bool {
    &&& pre.draws.len() <= post.draws.len()
    &&& forall|i: int| 0 <= i < pre.draws.len() ==> #[trigger] post.draws[i] == pre.draws[i]
    &&& forall|i: int| pre.draws.len() <= i < post.draws.len() ==> ok(#[trigger] post.draws[i])
}

/// A state that has drawn `made` on top of what another had drawn has drawn
/// only draws that are `ok` since, if all of `made` are.
pub proof fn lemma_drew_these(
    pre: GlState,
    post: GlState,
    made: Seq<Draw>,
    ok: spec_fn(Draw) -> bool,
)
    requires
        post.draws == pre.draws + made,
        forall|i: int| 0 <= i < made.len() ==> ok(#[trigger] made[i]),
    ensures
        drew(pre, post, ok),
        post.draws.len() == pre.draws.len() + made.len(),
{
    assert forall|i: int| pre.draws.len() <= i < post.draws.len() implies ok(
        #[trigger] post.draws[i],
    ) by {
        assert(post.draws[i] == made[i - pre.draws.len()]);
    }
}

/// A state that has drawn once more than another has drawn only a draw that
/// is `ok` since, if that draw is.
pub proof fn lemma_drew_one(pre: GlState, post: GlState, made: Draw, ok: spec_fn(Draw) -> bool)
    requires
        post.draws == pre.draws.push(made),
        ok(made),
    ensures
        drew(pre, post, ok),
        post.draws.len() == pre.draws.len() + 1,
{
}

/// Draws that are all `ok`, followed by draws that are all `ok`, are draws
/// that are all `ok`.
pub proof fn lemma_drew_on(a: GlState, b: GlState, c: GlState, ok: spec_fn(Draw) -> bool)
    requires
        drew(a, b, ok),
        drew(b, c, ok),
    ensures
        drew(a, c, ok),
{
}

} // verus!
