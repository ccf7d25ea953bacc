//! The recording device: a command queue and the model of the backend that
//! the queue has been driving.
//!
//! Nothing here talks to a graphics driver. Each request is appended to the
//! queue and applied to the model in the same breath, so that the model always
//! shows the backend as it will be once the queue has been played back. The
//! device also gives out the handles: `1`, `2`, `3`, ... in order of creation,
//! one numbering for all kinds of object.

use vstd::prelude::*;
use crate::command::{
    plain, views, Attachment, BlendFactor, BufferTarget, BufferUsage, Capability, Command,
    CommandView, Face, ImageTarget, InternalFormat, ObjectKind, Op, Payload, PayloadView,
    TextureTarget, TextureUnit,
};
use crate::state::{
    lemma_run_add, lemma_run_one, lemma_run_push, next_bindings, next_draws, next_objects,
    object_at, replaced, run, step, Bindings, Draw, GlState, Object,
};

verus! {

/// A [`Device`] as a mathematical value: the commands waiting to be played
/// back, and the modelled backend after all of them.
pub struct Snapshot {
    pub queue: Seq<CommandView>,
    pub state: GlState,
}

impl Snapshot {
    /// This snapshot is `pre` after exactly the commands `cmds` were
    /// recorded.
    #[verifier::opaque]
    pub open spec fn extends(self, pre: Snapshot, cmds: Seq<CommandView>) -> bool {
        &&& self.queue == pre.queue + cmds
        &&& self.state == run(pre.state, cmds)
    }

    /// Whether `n` more handles can be given out.
    pub open spec fn room(self, n: nat) -> bool {
        self.state.objects.len() + n <= u32::MAX
    }

    /// The handle that the next creation gives out.
    pub open spec fn next_handle(self) -> u32 {
        (self.state.objects.len() + 1) as u32
    }
}

/// `post` is `pre` after exactly `cmds` were recorded; and so whatever `pre`
/// extends, `post` extends by `cmds` more.
pub open spec fn appends(pre: Snapshot, post: Snapshot, cmds: Seq<CommandView>) -> bool {
    &&& post.extends(pre, cmds)
    &&& forall|origin: Snapshot, before: Seq<CommandView>| #[trigger]
        pre.extends(origin, before) ==> post.extends(origin, before + cmds)
}

/// `post` is `pre` after exactly the one command `cmd` was recorded.
pub open spec fn appends_one(pre: Snapshot, post: Snapshot, cmd: CommandView) -> bool {
    &&& post.queue == pre.queue.push(cmd)
    &&& post.state == step(pre.state, cmd)
    &&& post.extends(pre, seq![cmd])
    &&& forall|origin: Snapshot, before: Seq<CommandView>| #[trigger]
        pre.extends(origin, before) ==> post.extends(origin, before.push(cmd))
}

/// What it means for one snapshot to extend another: the queue has grown by
/// the commands, and the model has run them.
pub proof fn lemma_extends(post: Snapshot, pre: Snapshot, cmds: Seq<CommandView>)
    ensures
        post.extends(pre, cmds) <==> (post.queue == pre.queue + cmds && post.state == run(
            pre.state,
            cmds,
        )),
{
    reveal(Snapshot::extends);
}

/// Recording is transitive.
pub proof fn lemma_extends_trans(
    a: Snapshot,
    b: Snapshot,
    c: Snapshot,
    first: Seq<CommandView>,
    second: Seq<CommandView>,
)
    requires
        b.extends(a, first),
        c.extends(b, second),
    ensures
        c.extends(a, first + second),
{
    lemma_extends(b, a, first);
    lemma_extends(c, b, second);
    lemma_extends(c, a, first + second);
    lemma_run_add(a.state, first, second);
    assert(c.queue =~= a.queue + (first + second));
}

/// What [`appends`] adds to [`Snapshot::extends`] follows from it.
pub proof fn lemma_appends(pre: Snapshot, post: Snapshot, cmds: Seq<CommandView>)
    requires
        post.extends(pre, cmds),
    ensures
        appends(pre, post, cmds),
{
    assert forall|origin: Snapshot, before: Seq<CommandView>| #[trigger]
        pre.extends(origin, before) implies post.extends(origin, before + cmds) by {
        lemma_extends_trans(origin, pre, post, before, cmds);
    }
}

/// Recording nothing changes nothing.
pub proof fn lemma_appends_nothing(pre: Snapshot)
    ensures
        appends(pre, pre, Seq::empty()),
{
    lemma_extends(pre, pre, Seq::empty());
    assert(pre.queue =~= pre.queue + Seq::<CommandView>::empty());
    lemma_appends(pre, pre, Seq::empty());
}

/// The recording device.
pub struct Device {
    queue: Vec<Command>,
    objects: Vec<Object>,
    bind: Bindings,
    draws: Ghost<Seq<Draw>>,
}

impl View for Device {
    type V = Snapshot;

    closed spec fn view(&self) -> Snapshot {
        Snapshot {
            queue: views(self.queue@),
            state: GlState { objects: self.objects@, bind: self.bind, draws: self.draws@ },
        }
    }
}

fn fresh(kind: ObjectKind) -> (object: Object)
    ensures
        object == Object::fresh(kind),
{
    match kind {
        ObjectKind::Buffer => Object::Buffer { words: 0, usage: BufferUsage::StaticDraw },
        ObjectKind::VertexArray => Object::VertexArray,
        ObjectKind::Texture => Object::Texture {
            width: 0,
            height: 0,
            format: InternalFormat::Rgba,
        },
        ObjectKind::Framebuffer => Object::Framebuffer {
            color0: 0,
            color1: 0,
            color2: 0,
            depth: 0,
            depth_stencil: 0,
        },
        ObjectKind::Renderbuffer => Object::Renderbuffer { width: 0, height: 0 },
        ObjectKind::VertexShader => Object::VertexShader,
        ObjectKind::FragmentShader => Object::FragmentShader,
        ObjectKind::GeometryShader => Object::GeometryShader,
        ObjectKind::Program => Object::Program,
    }
}

fn has_kind(object: Object, kind: ObjectKind) -> (yes: bool)
    ensures
        yes == (object.kind() == Some(kind)),
{
    match (object, kind) {
        (Object::Buffer { .. }, ObjectKind::Buffer) => true,
        (Object::VertexArray, ObjectKind::VertexArray) => true,
        (Object::Texture { .. }, ObjectKind::Texture) => true,
        (Object::Framebuffer { .. }, ObjectKind::Framebuffer) => true,
        (Object::Renderbuffer { .. }, ObjectKind::Renderbuffer) => true,
        (Object::VertexShader, ObjectKind::VertexShader) => true,
        (Object::FragmentShader, ObjectKind::FragmentShader) => true,
        (Object::GeometryShader, ObjectKind::GeometryShader) => true,
        (Object::Program, ObjectKind::Program) => true,
        _ => false,
    }
}

fn attach(object: Object, point: Attachment, name: u32) -> (attached: Object)
    ensures
        attached == object.attach(point, name),
{
    match object {
        Object::Framebuffer { color0, color1, color2, depth, depth_stencil } => match point {
            Attachment::Color0 => Object::Framebuffer {
                color0: name,
                color1,
                color2,
                depth,
                depth_stencil,
            },
            Attachment::Color1 => Object::Framebuffer {
                color0,
                color1: name,
                color2,
                depth,
                depth_stencil,
            },
            Attachment::Color2 => Object::Framebuffer {
                color0,
                color1,
                color2: name,
                depth,
                depth_stencil,
            },
            Attachment::Depth => Object::Framebuffer {
                color0,
                color1,
                color2,
                depth: name,
                depth_stencil,
            },
            Attachment::DepthStencil => Object::Framebuffer {
                color0,
                color1,
                color2,
                depth,
                depth_stencil: name,
            },
        },
        other => other,
    }
}

fn put(objects: &mut Vec<Object>, id: u32, object: Object)
    ensures
        final(objects)@ == replaced(old(objects)@, id, object),
{
    if id >= 1 && ((id - 1) as usize) < objects.len() {
        objects.set((id - 1) as usize, object);
    }
}

fn lookup(objects: &Vec<Object>, id: u32) -> (object: Object)
    ensures
        object == object_at(objects@, id),
{
    if id >= 1 && ((id - 1) as usize) < objects.len() {
        objects[(id - 1) as usize]
    } else {
        Object::Released
    }
}

fn advance_bindings(bind: Bindings, op: Op) -> (next: Bindings)
    ensures
        next == next_bindings(bind, op),
{
    let mut next: Bindings = bind;
    match op {
        Op::BindBuffer { target, id } => match target {
            BufferTarget::Array => {
                next.array_buffer = id;
            },
            BufferTarget::ElementArray => {
                next.element_buffer = id;
            },
        },
        Op::BindVertexArray { id } => {
            next.vertex_array = id;
        },
        Op::ActiveTexture { unit } => {
            next.active_unit = unit;
        },
        Op::BindTexture { target, id } => match target {
            TextureTarget::CubeMap => {
                next.cube_map = id;
            },
            TextureTarget::Texture2D => match bind.active_unit {
                TextureUnit::Unit0 => {
                    next.texture0 = id;
                },
                TextureUnit::Unit1 => {
                    next.texture1 = id;
                },
                TextureUnit::Unit2 => {
                    next.texture2 = id;
                },
                TextureUnit::Unit3 => {
                    next.texture3 = id;
                },
            },
        },
        Op::BindFramebuffer { id } => {
            next.framebuffer = id;
        },
        Op::BindRenderbuffer { id } => {
            next.renderbuffer = id;
        },
        Op::UseProgram { id } => {
            next.program = id;
        },
        Op::Viewport { width, height } => {
            next.viewport_width = width;
            next.viewport_height = height;
        },
        Op::Enable { capability } => match capability {
            Capability::DepthTest => {
                next.depth_test = true;
            },
            Capability::CullFace => {
                next.cull_face = true;
            },
            Capability::Blend => {
                next.blend = true;
            },
        },
        Op::Disable { capability } => match capability {
            Capability::DepthTest => {
                next.depth_test = false;
            },
            Capability::CullFace => {
                next.cull_face = false;
            },
            Capability::Blend => {
                next.blend = false;
            },
        },
        Op::BlendFunc { source, destination } => {
            next.blend_source = source;
            next.blend_destination = destination;
        },
        Op::CullFace { face } => {
            next.culled_face = face;
        },
        _ => {},
    }
    next
}

fn image_texture(bind: Bindings, target: ImageTarget) -> (id: u32)
    ensures
        id == bind.image_texture(target),
{
    match target {
        ImageTarget::Texture2D => match bind.active_unit {
            TextureUnit::Unit0 => bind.texture0,
            TextureUnit::Unit1 => bind.texture1,
            TextureUnit::Unit2 => bind.texture2,
            TextureUnit::Unit3 => bind.texture3,
        },
        ImageTarget::CubeFace { .. } => bind.cube_map,
    }
}

fn advance_objects(
    objects: &mut Vec<Object>,
    bind: Bindings,
    op: Op,
    words: usize,
    Ghost(payload): Ghost<PayloadView>,
)
    requires
        payload.words() == words,
    ensures
        final(objects)@ == next_objects(old(objects)@, bind, CommandView { op, payload }),
{
    match op {
        Op::Create { kind, id } => {
            if id >= 1 && (id - 1) as usize == objects.len() {
                objects.push(fresh(kind));
            }
        },
        Op::Delete { kind, id } => {
            if has_kind(lookup(objects, id), kind) {
                put(objects, id, Object::Released);
            }
        },
        Op::BufferData { target, usage } => {
            let id: u32 = match target {
                BufferTarget::Array => bind.array_buffer,
                BufferTarget::ElementArray => bind.element_buffer,
            };
            if has_kind(lookup(objects, id), ObjectKind::Buffer) {
                put(objects, id, Object::Buffer { words, usage });
            }
        },
        Op::TexImage2D { target, internal_format, width, height, .. } => {
            let id: u32 = image_texture(bind, target);
            if has_kind(lookup(objects, id), ObjectKind::Texture) {
                put(objects, id, Object::Texture { width, height, format: internal_format });
            }
        },
        Op::FramebufferTexture2D { attachment, texture } => {
            let object: Object = lookup(objects, bind.framebuffer);
            put(objects, bind.framebuffer, attach(object, attachment, texture));
        },
        Op::FramebufferTexture { attachment, texture } => {
            let object: Object = lookup(objects, bind.framebuffer);
            put(objects, bind.framebuffer, attach(object, attachment, texture));
        },
        Op::FramebufferRenderbuffer { attachment, renderbuffer } => {
            let object: Object = lookup(objects, bind.framebuffer);
            put(objects, bind.framebuffer, attach(object, attachment, renderbuffer));
        },
        Op::RenderbufferStorage { width, height } => {
            if has_kind(lookup(objects, bind.renderbuffer), ObjectKind::Renderbuffer) {
                put(objects, bind.renderbuffer, Object::Renderbuffer { width, height });
            }
        },
        _ => {},
    }
}

impl Device {
    /// A device with an empty queue, no handle given out and nothing bound.
    pub fn new() -> (dev: Device)
        ensures
            dev@.queue == Seq::<CommandView>::empty(),
            dev@.state == GlState::initial(),
    {
        let dev = Device {
            queue: Vec::new(),
            objects: Vec::new(),
            draws: Ghost(Seq::empty()),
            bind: Bindings {
                array_buffer: 0,
                element_buffer: 0,
                vertex_array: 0,
                active_unit: TextureUnit::Unit0,
                texture0: 0,
                texture1: 0,
                texture2: 0,
                texture3: 0,
                cube_map: 0,
                framebuffer: 0,
                renderbuffer: 0,
                program: 0,
                depth_test: false,
                cull_face: false,
                blend: false,
                culled_face: Face::Back,
                blend_source: BlendFactor::One,
                blend_destination: BlendFactor::Zero,
                viewport_width: 0,
                viewport_height: 0,
            },
        };
        assert(dev@.queue =~= Seq::<CommandView>::empty());
        dev
    }

    /// The object behind `id` in the model.
    pub fn object(&self, id: u32) -> (object: Object)
        ensures
            object == self@.state.object(id),
    {
        lookup(&self.objects, id)
    }

    /// The bindings and switches of the model.
    pub fn bindings(&self) -> (bind: Bindings)
        ensures
            bind == self@.state.bind,
    {
        self.bind
    }

    /// Number of handles given out so far.
    pub fn handles(&self) -> (n: usize)
        ensures
            n == self@.state.objects.len(),
    {
        self.objects.len()
    }

    /// Whether `n` more handles can be given out.
    pub fn has_room(&self, n: u32) -> (yes: bool)
        ensures
            yes == self@.room(n as nat),
    {
        let issued: usize = self.objects.len();
        issued <= u32::MAX as usize && n <= u32::MAX - (issued as u32)
    }

    /// The commands recorded and not yet taken.
    pub fn commands(&self) -> (queue: &Vec<Command>)
        ensures
            views(queue@) == self@.queue,
    {
        &self.queue
    }

    /// Hands over the recorded commands for playback and leaves the queue
    /// empty. The model is untouched: it already shows the backend as it
    /// will be after the playback.
    pub fn take_commands(&mut self) -> (queue: Vec<Command>)
        ensures
            views(queue@) == old(self)@.queue,
            final(self)@.queue == Seq::<CommandView>::empty(),
            final(self)@.state == old(self)@.state,
    {
        let mut queue: Vec<Command> = Vec::new();
        std::mem::swap(&mut self.queue, &mut queue);
        assert(self@.queue =~= Seq::<CommandView>::empty());
        queue
    }

    /// Records one command and applies it to the model.
    pub fn submit(&mut self, op: Op, payload: Payload)
        ensures
            appends_one(old(self)@, final(self)@, CommandView { op, payload: payload@ }),
    {
        let ghost pre = self@;
        let ghost cmd = CommandView { op, payload: payload@ };
        let words: usize = payload.words();
        advance_objects(&mut self.objects, self.bind, op, words, Ghost(payload@));
        self.draws = Ghost(next_draws(pre.state, op));
        self.bind = advance_bindings(self.bind, op);
        assert(self@.state == step(pre.state, cmd));
        self.queue.push(Command { op, payload });
        proof {
            reveal(Snapshot::extends);
            assert(self@.queue =~= pre.queue.push(cmd));
            lemma_run_one(pre.state, cmd);
            assert(pre.queue.push(cmd) =~= pre.queue + seq![cmd]);
            assert forall|origin: Snapshot, before: Seq<CommandView>| #[trigger]
                pre.extends(origin, before) implies self@.extends(origin, before.push(cmd)) by {
                lemma_run_push(origin.state, before, cmd);
                assert(self@.queue =~= origin.queue + before.push(cmd));
            }
        }
    }

    /// Records the creation of an object of `kind` and returns its handle.
    pub fn create(&mut self, kind: ObjectKind) -> (id: u32)
        requires
            old(self)@.room(1),
        ensures
            id == old(self)@.next_handle(),
            id >= 1,
            final(self)@.state.objects == old(self)@.state.objects.push(Object::fresh(kind)),
            final(self)@.state.bind == old(self)@.state.bind,
            appends_one(old(self)@, final(self)@, plain(Op::Create { kind, id })),
    {
        let id: u32 = (self.objects.len() + 1) as u32;
        self.submit(Op::Create { kind, id }, Payload::Nothing);
        id
    }
}

} // verus!
