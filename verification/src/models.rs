//! The things a scene is made of: meshes with their transform and material,
//! the camera, and the three kinds of light.

use vstd::prelude::*;
use crate::buffers::{
    copied, FrameBuffer, IndexBuffer, ModelTexture, Texture, Vertex, VertexArrayBuffer,
    VertexBuffer, VERTEX_WORDS,
};
use crate::command::{
    plain, with_text, BufferTarget, BufferUsage, CommandView, ObjectKind, Op, Payload, TextureUnit,
};
use crate::device::{appends, lemma_appends, Device};
use crate::material_structs::{DirectionalLightInfo, MaterialInfo, PointLightInfo, SpotLightInfo};
use crate::math::{
    Angle, MatrixValue, Outlook, Projection, Quaternion, Ratio, Rotation, Scalar, Standpoint,
    Transform, Vector2, Vector3, HALF, HUNDRED, MINUS_HUNDRED, MINUS_ONE, MINUS_TEN, ONE,
    ONE_HUNDREDTH, ONE_TENTH, QUARTER_TURN, TEN, THIRTY_TWO, TWO_HUNDRED, ZERO,
};
use crate::globals::Globals;
use crate::passes::{
    custom_bindings_after, custom_draws_made, draw_scene_custom_shader_program,
    draw_scene_custom_shader_program_commands,
};
use crate::shaders::{
    create_program, create_program_commands, light_commands, material_commands, Program,
};
use crate::targets::{
    create_framebuffer_depthbuffer, create_framebuffer_depthbuffer_commands, is_depth_target,
};
use crate::state::{keeps, object_at, replaced, Bindings, Draw, GlState, Object};

verus! {

/// The objects after buffer `id` has been given a store of `words` words;
/// unchanged if `id` is no live buffer.
pub open spec fn stored(objects: Seq<Object>, id: u32, words: usize, usage: BufferUsage) -> Seq<
    Object,
> {
    if object_at(objects, id).kind() == Some(ObjectKind::Buffer) {
        replaced(objects, id, Object::Buffer { words, usage })
    } else {
        objects
    }
}

/// A mesh with everything needed to draw it.
#[derive(Debug)]
pub struct Model {
    pub vbo: VertexBuffer,
    pub vao: VertexArrayBuffer,
    pub ibo: IndexBuffer,
    pub shader_program: Program,
    pub diffuse_texture: Texture,
    pub vertices: Vec<Vertex>,
    /// A triangle list: three indices per face.
    pub indices: Vec<u32>,
    pub position: Vector3,
    pub rotation: Rotation,
    pub scale: Vector3,
    pub material_info: MaterialInfo,
    pub name: String,
    /// Whether the mesh is lit and casts shadows, or is drawn fullbright.
    pub render_shadows: bool,
}

impl Model {
    /// Position, rotation and scale as one value.
    pub open spec fn spec_transform(&self) -> Transform {
        Transform { position: self.position, rotation: self.rotation, scale: self.scale }
    }

    #[verifier::when_used_as_spec(spec_transform)]
    pub fn transform(&self) -> (transform: Transform)
        ensures
            transform == self.transform(),
    {
        Transform { position: self.position, rotation: self.rotation, scale: self.scale }
    }

    /// Whether vertex buffer and index buffer are two different live
    /// buffers in `s`.
    pub open spec fn has_buffers(&self, s: GlState) -> bool {
        &&& s.has(ObjectKind::Buffer, self.vbo.id())
        &&& s.has(ObjectKind::Buffer, self.ibo.id())
        &&& self.vbo.id() != self.ibo.id()
    }

    /// Whether the model's five handles are live objects of the right kinds
    /// in `s`, the two buffers being different ones.
    pub open spec fn resident(&self, s: GlState) -> bool {
        &&& self.has_buffers(s)
        &&& s.has(ObjectKind::VertexArray, self.vao.id())
        &&& s.has(ObjectKind::Program, self.shader_program.id())
        &&& s.has(ObjectKind::Texture, self.diffuse_texture.id())
    }

    /// Whether the mesh is uploaded in `s`: the vertex buffer holds one
    /// record for each vertex, the index buffer one word for each index.
    pub open spec fn uploaded(&self, s: GlState) -> bool {
        &&& s.buffer_words(self.vbo.id()) == VERTEX_WORDS * self.vertices@.len()
        &&& s.buffer_words(self.ibo.id()) == self.indices@.len()
    }

    /// Number of whole vertex records in the store of the vertex buffer.
    pub open spec fn spec_uploaded_vertex_count(&self, s: GlState) -> nat {
        s.buffer_words(self.vbo.id()) / (VERTEX_WORDS as nat)
    }

    /// Number of indices in the store of the index buffer.
    pub open spec fn spec_uploaded_index_count(&self, s: GlState) -> nat {
        s.buffer_words(self.ibo.id())
    }

    /// Reads back how many vertex records the vertex buffer holds.
    pub fn uploaded_vertex_count(&self, dev: &Device) -> (count: usize)
        ensures
            count == self.spec_uploaded_vertex_count(dev@.state),
    {
        match dev.object(self.vbo.id()) {
            Object::Buffer { words, .. } => words / VERTEX_WORDS,
            _ => 0,
        }
    }

    /// Reads back how many indices the index buffer holds.
    pub fn uploaded_index_count(&self, dev: &Device) -> (count: usize)
        ensures
            count == self.spec_uploaded_index_count(dev@.state),
    {
        match dev.object(self.ibo.id()) {
            Object::Buffer { words, .. } => words,
            _ => 0,
        }
    }

    /// Whether the model stands as a new one does: at the origin, unrotated,
    /// unscaled, white, half specular, lit.
    pub open spec fn placed_as_new(&self) -> bool {
        &&& self.position == Vector3::spec_zero()
        &&& self.rotation == Rotation::Quaternion(Quaternion::spec_zero())
        &&& self.scale == Vector3::spec_splat(ONE)
        &&& self.material_info == (MaterialInfo {
            ambient: Vector3::spec_splat(ONE),
            diffuse: Vector3::spec_splat(ONE),
            specular: Scalar { bits: HALF },
            shininess: Scalar { bits: THIRTY_TWO },
        })
        &&& self.render_shadows
    }

    /// The commands of [`Model::new`] when the next free handle is `first`.
    pub open spec fn new_commands(first: u32, vert: Seq<char>, frag: Seq<char>) -> Seq<
        CommandView,
    > {
        seq![plain(Op::Create { kind: ObjectKind::Buffer, id: first })].push(
            plain(Op::Create { kind: ObjectKind::VertexArray, id: (first + 1) as u32 }),
        ).push(plain(Op::Create { kind: ObjectKind::Buffer, id: (first + 2) as u32 }))
            + create_program_commands((first + 3) as u32, vert, frag).push(
            plain(Op::Create { kind: ObjectKind::Texture, id: (first + 6) as u32 }),
        )
    }

    /// Creates the backend objects of a mesh, in the order vertex buffer,
    /// vertex array, index buffer, program, texture, and a model around
    /// them: at the origin, unrotated, unscaled, white, half specular, lit.
    /// Nothing is uploaded yet.
    pub fn new(
        dev: &mut Device,
        vertices: &Vec<Vertex>,
        indices: &Vec<u32>,
        vert_shader_text: &str,
        frag_shader_text: &str,
        name: String,
    ) -> (model: Model)
        requires
            old(dev)@.room(7),
        ensures
            model.vbo.id() == old(dev)@.next_handle(),
            model.vao.id() == old(dev)@.next_handle() + 1,
            model.ibo.id() == old(dev)@.next_handle() + 2,
            model.shader_program.id() == old(dev)@.next_handle() + 5,
            model.diffuse_texture.id() == old(dev)@.next_handle() + 6,
            model.vertices@ == vertices@,
            model.indices@ == indices@,
            model.placed_as_new(),
            model.name == name,
            appends(
                old(dev)@,
                final(dev)@,
                Self::new_commands(old(dev)@.next_handle(), vert_shader_text@, frag_shader_text@),
            ),
            final(dev)@.state.objects.len() == old(dev)@.state.objects.len() + 7,
            final(dev)@.state.bind == old(dev)@.state.bind,
            keeps(final(dev)@.state, old(dev)@.state),
            model.resident(final(dev)@.state),
            final(dev)@.state.draws == old(dev)@.state.draws,
    {
        let vbo: VertexBuffer = VertexBuffer::new(dev);
        let vao: VertexArrayBuffer = VertexArrayBuffer::new(dev);
        let ibo: IndexBuffer = IndexBuffer::new(dev);
        let ghost made = dev@.state;
        proof {
            assert(made.has(ObjectKind::Buffer, vbo.id()));
            assert(made.has(ObjectKind::VertexArray, vao.id()));
            assert(made.has(ObjectKind::Buffer, ibo.id()));
            assert(keeps(made, old(dev)@.state));
        }
        let shader_program: Program = create_program(dev, vert_shader_text, frag_shader_text);
        let ghost linked = dev@.state;
        proof {
            assert(linked.object(vbo.id()) == made.object(vbo.id()));
            assert(linked.object(vao.id()) == made.object(vao.id()));
            assert(linked.object(ibo.id()) == made.object(ibo.id()));
        }
        let diffuse_texture: Texture = Texture::new(dev);
        proof {
            let done = dev@.state;
            assert(forall|id: u32|
                linked.issued(id) ==> #[trigger] done.object(id) == linked.object(id));
            assert(done.has(ObjectKind::Texture, diffuse_texture.id()));
            assert forall|id: u32| old(dev)@.state.issued(id) implies #[trigger] done.object(id)
                == old(dev)@.state.object(id) by {
                assert(made.object(id) == old(dev)@.state.object(id));
                assert(linked.object(id) == made.object(id));
            }
            lemma_appends(
                old(dev)@,
                dev@,
                Self::new_commands(old(dev)@.next_handle(), vert_shader_text@, frag_shader_text@),
            );
        }
        Model {
            vbo,
            vao,
            ibo,
            shader_program,
            diffuse_texture,
            vertices: copied(vertices),
            indices: copied(indices),
            position: Vector3::zero(),
            rotation: Rotation::Quaternion(Quaternion::zero()),
            scale: Vector3::splat(ONE),
            material_info: MaterialInfo {
                ambient: Vector3::splat(ONE),
                diffuse: Vector3::splat(ONE),
                specular: Scalar { bits: HALF },
                shininess: Scalar { bits: THIRTY_TWO },
            },
            name,
            render_shadows: true,
        }
    }

    /// The commands that upload a mesh: vertex records into `vbo`, the
    /// attribute layout into `vao`, indices into `ibo`.
    pub open spec fn upload_commands(
        vbo: u32,
        vao: u32,
        ibo: u32,
        vertices: Seq<Vertex>,
        indices: Seq<u32>,
    ) -> Seq<CommandView> {
        VertexBuffer::set_commands(vbo, vertices) + VertexArrayBuffer::set_commands(vao)
            + IndexBuffer::set_commands(ibo, indices)
    }

    /// The commands of [`Model::start`].
    pub open spec fn start_commands(&self) -> Seq<CommandView> {
        Self::upload_commands(
            self.vbo.id(),
            self.vao.id(),
            self.ibo.id(),
            self.vertices@,
            self.indices@,
        )
    }

    /// The modelled backend after [`Model::start`] in state `s`: both stores
    /// replaced, and the model's three objects bound.
    pub open spec fn started(&self, s: GlState) -> GlState {
        GlState {
            objects: stored(
                stored(
                    s.objects,
                    self.vbo.id(),
                    (VERTEX_WORDS * self.vertices@.len()) as usize,
                    BufferUsage::DynamicDraw,
                ),
                self.ibo.id(),
                self.indices@.len() as usize,
                BufferUsage::StaticDraw,
            ),
            bind: Bindings {
                array_buffer: self.vbo.id(),
                vertex_array: self.vao.id(),
                element_buffer: self.ibo.id(),
                ..s.bind
            },
            draws: s.draws,
        }
    }

    /// Uploads the mesh: the vertex records, the attribute layout and the
    /// indices, each in full.
    ///
    /// A model whose buffers are live is uploaded afterwards, whether it was
    /// before or not: a read-back of the vertex count then gives the length
    /// of the vertex list, and one of the index count the length of the index
    /// list.
    pub fn start(&self, dev: &mut Device)
        ensures
            appends(old(dev)@, final(dev)@, self.start_commands()),
            final(dev)@.state == self.started(old(dev)@.state),
            self.has_buffers(old(dev)@.state) ==> {
                &&& self.has_buffers(final(dev)@.state)
                &&& self.uploaded(final(dev)@.state)
                &&& self.spec_uploaded_vertex_count(final(dev)@.state) == self.vertices@.len()
                &&& self.spec_uploaded_index_count(final(dev)@.state) == self.indices@.len()
            },
            self.resident(old(dev)@.state) ==> self.resident(final(dev)@.state),
    {
        self.vbo.set(dev, &self.vertices);
        self.vao.set(dev);
        self.ibo.set(dev, &self.indices);
        proof {
            lemma_appends(old(dev)@, dev@, self.start_commands());
            assert(dev@.state.objects =~= self.started(old(dev)@.state).objects);
            if self.has_buffers(old(dev)@.state) {
                let words = VERTEX_WORDS * self.vertices@.len();
                assert(dev@.state.buffer_words(self.vbo.id()) == words);
                assert(words / (VERTEX_WORDS as int) == self.vertices@.len());
            }
        }
    }

    /// The commands that bind a mesh for drawing: vertex buffer, diffuse
    /// texture at unit 0, vertex array, index buffer.
    pub open spec fn bind_commands(&self) -> Seq<CommandView> {
        seq![plain(Op::BindBuffer { target: BufferTarget::Array, id: self.vbo.id() })].push(
            plain(Op::ActiveTexture { unit: TextureUnit::Unit0 }),
        ).push(self.diffuse_texture.bind_command()).push(
            plain(Op::BindVertexArray { id: self.vao.id() }),
        ).push(plain(Op::BindBuffer { target: BufferTarget::ElementArray, id: self.ibo.id() }))
    }

    /// The commands that make a mesh current for drawing with `program`.
    pub open spec fn start_render_commands(&self, program: u32) -> Seq<CommandView> {
        seq![plain(Op::UseProgram { id: program })] + self.bind_commands()
    }

    /// The bindings after a mesh was bound for drawing.
    pub open spec fn bound(&self, bind: Bindings) -> Bindings {
        Bindings {
            array_buffer: self.vbo.id(),
            active_unit: TextureUnit::Unit0,
            texture0: self.diffuse_texture.id(),
            vertex_array: self.vao.id(),
            element_buffer: self.ibo.id(),
            ..bind
        }
    }

    fn bind_mesh(&self, dev: &mut Device)
        ensures
            appends(old(dev)@, final(dev)@, self.bind_commands()),
            final(dev)@.state.objects == old(dev)@.state.objects,
            final(dev)@.state.bind == self.bound(old(dev)@.state.bind),
            final(dev)@.state.draws == old(dev)@.state.draws,
    {
        self.vbo.bind(dev);
        dev.submit(Op::ActiveTexture { unit: TextureUnit::Unit0 }, Payload::Nothing);
        self.diffuse_texture.bind_texture(dev);
        self.vao.bind(dev);
        self.ibo.bind(dev);
        proof {
            lemma_appends(old(dev)@, dev@, self.bind_commands());
        }
    }

    /// Makes the mesh current for drawing with its own program: program in
    /// use, vertex buffer bound, diffuse texture bound at unit 0, vertex
    /// array and index buffer bound.
    pub fn start_render(&self, dev: &mut Device)
        ensures
            appends(
                old(dev)@,
                final(dev)@,
                self.start_render_commands(self.shader_program.id()),
            ),
            final(dev)@.state.objects == old(dev)@.state.objects,
            final(dev)@.state.bind == self.bound(
                Bindings { program: self.shader_program.id(), ..old(dev)@.state.bind },
            ),
            final(dev)@.state.draws == old(dev)@.state.draws,
    {
        self.shader_program.set(dev);
        self.bind_mesh(dev);
        proof {
            lemma_appends(
                old(dev)@,
                dev@,
                self.start_render_commands(self.shader_program.id()),
            );
        }
    }

    /// Makes the mesh current for drawing with `shader_program` in place of
    /// its own. Of the model's own bindings only the diffuse texture is
    /// touched.
    pub fn start_render_custom_shader_program(&self, dev: &mut Device, shader_program: &Program)
        ensures
            appends(old(dev)@, final(dev)@, self.start_render_commands(shader_program.id())),
            final(dev)@.state.objects == old(dev)@.state.objects,
            final(dev)@.state.bind == self.bound(
                Bindings { program: shader_program.id(), ..old(dev)@.state.bind },
            ),
            final(dev)@.state.draws == old(dev)@.state.draws,
    {
        shader_program.set(dev);
        self.bind_mesh(dev);
        proof {
            lemma_appends(old(dev)@, dev@, self.start_render_commands(shader_program.id()));
        }
    }

    /// The commands that hand the three matrices of a draw to `program`:
    /// the model matrix of `transform`, then view and projection.
    pub open spec fn matrix_commands(
        program: u32,
        transform: Transform,
        view_matrix: MatrixValue,
        projection_matrix: MatrixValue,
    ) -> Seq<CommandView> {
        seq![
            with_text(
                Op::UniformMatrix4 { program, value: MatrixValue::OfTransform(transform) },
                "model"@,
            ),
        ].push(with_text(Op::UniformMatrix4 { program, value: view_matrix }, "view"@)).push(
            with_text(Op::UniformMatrix4 { program, value: projection_matrix }, "projection"@),
        )
    }

    fn set_matrices(
        &self,
        dev: &mut Device,
        program: &Program,
        view_matrix: MatrixValue,
        projection_matrix: MatrixValue,
    )
        ensures
            appends(
                old(dev)@,
                final(dev)@,
                Self::matrix_commands(
                    program.id(),
                    self.transform(),
                    view_matrix,
                    projection_matrix,
                ),
            ),
            final(dev)@.state == old(dev)@.state,
    {
        program.set_matrix4_float(dev, "model", MatrixValue::OfTransform(self.transform()));
        program.set_matrix4_float(dev, "view", view_matrix);
        program.set_matrix4_float(dev, "projection", projection_matrix);
        proof {
            lemma_appends(
                old(dev)@,
                dev@,
                Self::matrix_commands(
                    program.id(),
                    self.transform(),
                    view_matrix,
                    projection_matrix,
                ),
            );
        }
    }

    /// The draw of the whole index list.
    pub open spec fn draw_command(&self) -> CommandView {
        plain(Op::DrawElements { count: self.indices@.len() as usize })
    }

    /// The draw of the whole index list as the model of the backend notes
    /// it when it happens under `bind`.
    pub open spec fn draw(&self, bind: Bindings) -> Draw {
        Draw { count: self.indices@.len() as usize, bind }
    }

    /// The commands of [`Model::render`].
    pub open spec fn render_commands(
        &self,
        screen_size: Vector2,
        view_matrix: MatrixValue,
        projection_matrix: MatrixValue,
    ) -> Seq<CommandView> {
        let program = self.shader_program.id();
        Self::matrix_commands(program, self.transform(), view_matrix, projection_matrix).push(
            with_text(Op::Uniform1i { program, value: 0 }, "renderFullbright"@),
        ).push(with_text(Op::Uniform1i { program, value: 1 }, "texture1"@)).push(
            with_text(Op::Uniform1i { program, value: 2 }, "texture2"@),
        ).push(with_text(Op::Uniform1i { program, value: 3 }, "texture3"@)).push(
            with_text(Op::Uniform1f { program, value: screen_size.x }, "uWidth"@),
        ).push(with_text(Op::Uniform1f { program, value: screen_size.y }, "uHeight"@)).push(
            self.draw_command(),
        )
    }

    /// Draws the mesh lit: sets the model matrix of the mesh's transform,
    /// view and projection, switches fullbright off, names the texture
    /// units, hands over the screen size, and issues one indexed draw over
    /// the whole index list. Uniforms are looked up in the mesh's own
    /// program.
    pub fn render(
        &self,
        dev: &mut Device,
        screen_size: Vector2,
        view_matrix: MatrixValue,
        projection_matrix: MatrixValue,
    )
        ensures
            appends(
                old(dev)@,
                final(dev)@,
                self.render_commands(screen_size, view_matrix, projection_matrix),
            ),
            final(dev)@.state == old(dev)@.state.drawn(self.indices@.len() as usize),
    {
        self.set_matrices(dev, &self.shader_program, view_matrix, projection_matrix);
        self.shader_program.set_bool(dev, "renderFullbright", false);
        self.shader_program.set_int(dev, "texture1", 1);
        self.shader_program.set_int(dev, "texture2", 2);
        self.shader_program.set_int(dev, "texture3", 3);
        self.shader_program.set_float(dev, "uWidth", screen_size.x);
        self.shader_program.set_float(dev, "uHeight", screen_size.y);
        dev.submit(Op::DrawElements { count: self.indices.len() }, Payload::Nothing);
        proof {
            lemma_appends(
                old(dev)@,
                dev@,
                self.render_commands(screen_size, view_matrix, projection_matrix),
            );
        }
    }

    /// The commands of [`Model::render_fullbright`].
    pub open spec fn render_fullbright_commands(
        &self,
        screen_size: Vector2,
        view_matrix: MatrixValue,
        projection_matrix: MatrixValue,
    ) -> Seq<CommandView> {
        let program = self.shader_program.id();
        Self::matrix_commands(program, self.transform(), view_matrix, projection_matrix).push(
            with_text(Op::Uniform1i { program, value: 1 }, "renderFullbright"@),
        ).push(with_text(Op::Uniform1f { program, value: screen_size.x }, "uWidth"@)).push(
            with_text(Op::Uniform1f { program, value: screen_size.y }, "uHeight"@),
        ).push(self.draw_command())
    }

    /// Draws the mesh unlit: as [`Model::render`], but with fullbright
    /// switched on and without naming texture units.
    pub fn render_fullbright(
        &self,
        dev: &mut Device,
        screen_size: Vector2,
        view_matrix: MatrixValue,
        projection_matrix: MatrixValue,
    )
        ensures
            appends(
                old(dev)@,
                final(dev)@,
                self.render_fullbright_commands(screen_size, view_matrix, projection_matrix),
            ),
            final(dev)@.state == old(dev)@.state.drawn(self.indices@.len() as usize),
    {
        self.set_matrices(dev, &self.shader_program, view_matrix, projection_matrix);
        self.shader_program.set_bool(dev, "renderFullbright", true);
        self.shader_program.set_float(dev, "uWidth", screen_size.x);
        self.shader_program.set_float(dev, "uHeight", screen_size.y);
        dev.submit(Op::DrawElements { count: self.indices.len() }, Payload::Nothing);
        proof {
            lemma_appends(
                old(dev)@,
                dev@,
                self.render_fullbright_commands(screen_size, view_matrix, projection_matrix),
            );
        }
    }

    /// The commands of [`Model::render_custom_shader_program`].
    pub open spec fn render_custom_shader_program_commands(
        &self,
        view_matrix: MatrixValue,
        projection_matrix: MatrixValue,
        program: u32,
    ) -> Seq<CommandView> {
        Self::matrix_commands(program, self.transform(), view_matrix, projection_matrix).push(
            self.draw_command(),
        )
    }

    /// Draws the mesh through `shader_program`: sets the three matrices
    /// there and issues one indexed draw over the whole index list.
    pub fn render_custom_shader_program(
        &self,
        dev: &mut Device,
        view_matrix: MatrixValue,
        projection_matrix: MatrixValue,
        shader_program: &Program,
    )
        ensures
            appends(
                old(dev)@,
                final(dev)@,
                self.render_custom_shader_program_commands(
                    view_matrix,
                    projection_matrix,
                    shader_program.id(),
                ),
            ),
            final(dev)@.state == old(dev)@.state.drawn(self.indices@.len() as usize),
    {
        self.set_matrices(dev, shader_program, view_matrix, projection_matrix);
        dev.submit(Op::DrawElements { count: self.indices.len() }, Payload::Nothing);
        proof {
            lemma_appends(
                old(dev)@,
                dev@,
                self.render_custom_shader_program_commands(
                    view_matrix,
                    projection_matrix,
                    shader_program.id(),
                ),
            );
        }
    }

    /// The commands of [`Model::set_light_render_info`].
    pub open spec fn light_render_info_commands(
        &self,
        light_position: Vector3,
        view_position: Vector3,
        light: PointLightInfo,
    ) -> Seq<CommandView> {
        (light_commands(
            self.shader_program.id(),
            "pointLights[0]"@,
            light.color,
            light.radius,
            light_position,
        ).push(
            with_text(
                Op::Uniform3f { program: self.shader_program.id(), value: view_position },
                "viewPos"@,
            ),
        )) + material_commands(self.shader_program.id(), "material"@, self.material_info)
    }

    /// Hands one point light, the camera position and the mesh's material
    /// to the mesh's program.
    pub fn set_light_render_info(
        &self,
        dev: &mut Device,
        light_position: Vector3,
        cam: &Camera,
        light: PointLightInfo,
    )
        ensures
            appends(
                old(dev)@,
                final(dev)@,
                self.light_render_info_commands(light_position, cam.position, light),
            ),
            final(dev)@.state == old(dev)@.state,
    {
        self.shader_program.set_point_light_info(dev, "pointLights[0]", light, light_position);
        self.shader_program.set_vector3(dev, "viewPos", cam.position);
        self.shader_program.set_material_info(dev, "material", self.material_info);
        proof {
            lemma_appends(
                old(dev)@,
                dev@,
                self.light_render_info_commands(light_position, cam.position, light),
            );
        }
    }
}

/// The numbers of one mesh as a scene file holds them: flat lists, three
/// reals per position, tint and normal, two per texture coordinate, and
/// three indices per triangle. A mesh without tints has an empty tint list.
#[derive(Debug, Clone, PartialEq, Eq)]
pub struct Mesh {
    pub positions: Vec<Scalar>,
    pub vertex_color: Vec<Scalar>,
    pub normals: Vec<Scalar>,
    pub texcoords: Vec<Scalar>,
    pub indices: Vec<u32>,
}

impl Mesh {
    /// Number of vertices: one for every three position reals.
    pub open spec fn vertex_count(&self) -> nat {
        self.positions@.len() / 3
    }

    /// Whether the lists fit together: the index list is made of triangles,
    /// positions and tints of triples, texture coordinates of pairs, every
    /// vertex has a normal and a texture coordinate, and a tint if any
    /// vertex has one, and every index names a vertex of the mesh.
    pub open spec fn spec_well_formed(&self) -> bool {
        &&& self.indices@.len() % 3 == 0
        &&& self.positions@.len() % 3 == 0
        &&& self.vertex_color@.len() % 3 == 0
        &&& self.texcoords@.len() % 2 == 0
        &&& self.normals@.len() >= 3 * self.vertex_count()
        &&& self.texcoords@.len() >= 2 * self.vertex_count()
        &&& (self.vertex_color@.len() == 0 || self.vertex_color@.len() >= 3 * self.vertex_count())
        &&& forall|k: int|
            0 <= k < self.indices@.len() ==> (#[trigger] self.indices@[k]) < self.vertex_count()
    }

    /// Whether the lists fit together, see [`Self::spec_well_formed`].
    #[verifier::when_used_as_spec(spec_well_formed)]
    pub fn well_formed(&self) -> (yes: bool)
        ensures
            yes == self.well_formed(),
    {
        let count: usize = self.positions.len() / 3;
        let lists_fit: bool = self.indices.len() % 3 == 0 && self.positions.len() % 3 == 0
            && self.vertex_color.len() % 3 == 0 && self.texcoords.len() % 2 == 0
            && self.normals.len() / 3 >= count && self.texcoords.len() / 2 >= count && (
        self.vertex_color.len() == 0 || self.vertex_color.len() / 3 >= count);
        if !lists_fit {
            return false;
        }
        let mut k: usize = 0;
        while k < self.indices.len()
            invariant
                k <= self.indices@.len(),
                count == self.vertex_count(),
                forall|a: int| 0 <= a < k ==> (#[trigger] self.indices@[a]) < count,
            decreases self.indices.len() - k,
        {
            if self.indices[k] as usize >= count {
                return false;
            }
            k += 1;
        }
        true
    }

    /// Vertex `v` of the mesh: its position, its tint or white if the mesh
    /// has no tints, its normal and its texture coordinate.
    pub open spec fn vertex(&self, v: int) -> Vertex {
        (
            Vector3 {
                x: self.positions@[3 * v],
                y: self.positions@[3 * v + 1],
                z: self.positions@[3 * v + 2],
            },
            if self.vertex_color@.len() != 0 {
                Vector3 {
                    x: self.vertex_color@[3 * v],
                    y: self.vertex_color@[3 * v + 1],
                    z: self.vertex_color@[3 * v + 2],
                }
            } else {
                Vector3::spec_splat(ONE)
            },
            Vector3 {
                x: self.normals@[3 * v],
                y: self.normals@[3 * v + 1],
                z: self.normals@[3 * v + 2],
            },
            Vector2 { x: self.texcoords@[2 * v], y: self.texcoords@[2 * v + 1] },
        )
    }

    /// The vertices of the mesh, in order.
    pub open spec fn vertices(&self) -> Seq<Vertex> {
        Seq::new(self.vertex_count(), |v: int| self.vertex(v))
    }

    /// The indices of the mesh as they count in a list that holds `before`
    /// vertices ahead of the mesh's own: each moved up by `before`.
    pub open spec fn indices_after(&self, before: nat) -> Seq<u32> {
        Seq::new(self.indices@.len(), |k: int| (self.indices@[k] + before) as u32)
    }

    /// Appends the vertices and the indices of the mesh to two growing
    /// lists. The indices are moved up by the number of vertices that the
    /// list holds already, so that each names in the list the vertex that it
    /// named in the mesh.
    ///
    /// The list must be able to take the vertices of the mesh and still
    /// number every vertex with 32 bits.
    pub fn append_to(&self, vertices: &mut Vec<Vertex>, indices: &mut Vec<u32>)
        requires
            self.well_formed(),
            old(vertices)@.len() + self.vertex_count() <= u32::MAX,
        ensures
            final(vertices)@ == old(vertices)@ + self.vertices(),
            final(indices)@ == old(indices)@ + self.indices_after(old(vertices)@.len()),
            forall|k: int|
                old(indices)@.len() <= k < final(indices)@.len() ==> old(vertices)@.len()
                    <= #[trigger] final(indices)@[k] < final(vertices)@.len(),
    {
        let before: usize = vertices.len();
        let ghost moved = self.indices_after(before as nat);
        let mut i: usize = 0;
        while i < self.indices.len()
            invariant
                self.well_formed(),
                before + self.vertex_count() <= u32::MAX,
                moved == self.indices_after(before as nat),
                i <= self.indices@.len(),
                indices@ == old(indices)@ + moved.take(i as int),
            decreases self.indices.len() - i,
        {
            assert(self.indices@[i as int] < self.vertex_count());
            indices.push(self.indices[i] + before as u32);
            assert(indices@ =~= old(indices)@ + moved.take(i + 1));
            i += 1;
        }
        assert(moved.take(i as int) =~= moved);
        let count: usize = self.positions.len() / 3;
        let tinted: bool = self.vertex_color.len() != 0;
        let mut v: usize = 0;
        while v < count
            invariant
                self.well_formed(),
                count == self.vertex_count(),
                3 * count <= usize::MAX,
                tinted == (self.vertex_color@.len() != 0),
                v <= count,
                vertices@ == old(vertices)@ + self.vertices().take(v as int),
            decreases count - v,
        {
            assert(3 * v + 2 < self.positions@.len() && 3 * v + 2 < self.normals@.len() && 2 * v + 1
                < self.texcoords@.len());
            assert(tinted ==> 3 * v + 2 < self.vertex_color@.len());
            let tint: Vector3 = if tinted {
                Vector3 {
                    x: self.vertex_color[3 * v],
                    y: self.vertex_color[3 * v + 1],
                    z: self.vertex_color[3 * v + 2],
                }
            } else {
                Vector3::splat(ONE)
            };
            vertices.push(
                (
                    Vector3 {
                        x: self.positions[3 * v],
                        y: self.positions[3 * v + 1],
                        z: self.positions[3 * v + 2],
                    },
                    tint,
                    Vector3 {
                        x: self.normals[3 * v],
                        y: self.normals[3 * v + 1],
                        z: self.normals[3 * v + 2],
                    },
                    Vector2 { x: self.texcoords[2 * v], y: self.texcoords[2 * v + 1] },
                ),
            );
            assert(vertices@ =~= old(vertices)@ + self.vertices().take(v + 1));
            v += 1;
        }
        assert(self.vertices().take(v as int) =~= self.vertices());
    }
}

/// The vertices of the first `n` of `meshes`, one mesh after the other.
pub open spec fn gathered_vertices(meshes: Seq<Mesh>, n: nat) -> Seq<Vertex>
    decreases n,
{
    if n == 0 {
        Seq::empty()
    } else {
        gathered_vertices(meshes, (n - 1) as nat) + meshes[n - 1].vertices()
    }
}

/// The indices of the first `n` of `meshes`, one mesh after the other, each
/// mesh's indices moved up by the number of vertices of the meshes before
/// it.
pub open spec fn gathered_indices(meshes: Seq<Mesh>, n: nat) -> Seq<u32>
    decreases n,
{
    if n == 0 {
        Seq::empty()
    } else {
        gathered_indices(meshes, (n - 1) as nat) + meshes[n - 1].indices_after(
            gathered_vertices(meshes, (n - 1) as nat).len(),
        )
    }
}

/// Whether `meshes` can be merged into one mesh: each is well formed, and
/// together they have no more vertices than 32 bits can number.
pub open spec fn spec_mergeable(meshes: Seq<Mesh>) -> bool {
    &&& forall|i: int| 0 <= i < meshes.len() ==> (#[trigger] meshes[i]).well_formed()
    &&& gathered_vertices(meshes, meshes.len()).len() <= u32::MAX
}

/// The vertex list grows with every mesh that is gathered.
pub proof fn lemma_gathered_vertices_grow(meshes: Seq<Mesh>, a: nat, b: nat)
    requires
        a <= b <= meshes.len(),
    ensures
        gathered_vertices(meshes, a).len() <= gathered_vertices(meshes, b).len(),
    decreases b,
{
    if a < b {
        lemma_gathered_vertices_grow(meshes, a, (b - 1) as nat);
    }
}

/// In what is gathered from meshes that can be merged, every index names a
/// vertex of its own mesh: the indices taken from mesh `m` lie at or above
/// the number of vertices of the meshes before `m`, and below the number of
/// vertices up to and with `m`. So every index is below the number of
/// vertices gathered.
pub proof fn lemma_gathered_indices_name_vertices(meshes: Seq<Mesh>, n: nat)
    requires
        n <= meshes.len(),
        spec_mergeable(meshes),
    ensures
        forall|k: int|
            0 <= k < gathered_indices(meshes, n).len() ==> (#[trigger] gathered_indices(
                meshes,
                n,
            )[k]) < gathered_vertices(meshes, n).len(),
        n > 0 ==> forall|k: int|
            gathered_indices(meshes, (n - 1) as nat).len() <= k < gathered_indices(meshes, n).len()
                ==> gathered_vertices(meshes, (n - 1) as nat).len() <= (#[trigger] gathered_indices(
                meshes,
                n,
            )[k]),
    decreases n,
{
    if n > 0 {
        let m = (n - 1) as nat;
        lemma_gathered_indices_name_vertices(meshes, m);
        lemma_gathered_vertices_grow(meshes, n, meshes.len());
        let before = gathered_vertices(meshes, m).len();
        let mesh = meshes[m as int];
        assert(mesh.well_formed());
        assert forall|k: int| 0 <= k < gathered_indices(meshes, n).len() implies (
        #[trigger] gathered_indices(meshes, n)[k]) < gathered_vertices(meshes, n).len() by {
            let own = k - gathered_indices(meshes, m).len();
            if own >= 0 {
                assert(mesh.indices@[own] < mesh.vertex_count());
            }
        }
        assert forall|k: int|
            gathered_indices(meshes, m).len() <= k < gathered_indices(
                meshes,
                n,
            ).len() implies before <= (#[trigger] gathered_indices(meshes, n)[k]) by {
            let own = k - gathered_indices(meshes, m).len();
            assert(mesh.indices@[own] < mesh.vertex_count());
        }
    }
}

/// Whether `meshes` can be merged into one mesh, see [`spec_mergeable`].
pub fn mergeable(meshes: &Vec<Mesh>) -> (yes: bool)
    ensures
        yes == spec_mergeable(meshes@),
{
    let mut total: usize = 0;
    let mut i: usize = 0;
    while i < meshes.len()
        invariant
            i <= meshes@.len(),
            total == gathered_vertices(meshes@, i as nat).len(),
            total <= u32::MAX,
            forall|k: int| 0 <= k < i ==> (#[trigger] meshes@[k]).well_formed(),
        decreases meshes.len() - i,
    {
        if !meshes[i].well_formed() {
            return false;
        }
        let count: usize = meshes[i].positions.len() / 3;
        if total > u32::MAX as usize || count > u32::MAX as usize - total {
            proof {
                lemma_gathered_vertices_grow(meshes@, (i + 1) as nat, meshes@.len());
            }
            return false;
        }
        total = total + count;
        i += 1;
    }
    true
}

impl Model {
    /// The commands of [`Model::from_obj_file`] when the next free handle
    /// is `first`.
    pub open spec fn from_obj_file_commands(
        first: u32,
        vert: Seq<char>,
        frag: Seq<char>,
        vertices: Seq<Vertex>,
        indices: Seq<u32>,
    ) -> Seq<CommandView> {
        Self::new_commands(first, vert, frag) + Texture::release_commands((first + 6) as u32)
            + Self::upload_commands(
            first,
            (first + 1) as u32,
            (first + 2) as u32,
            vertices,
            indices,
        )
    }

    /// Makes a model of what a scene file held: the vertices of all its
    /// meshes, one mesh after the other, one triangle list over them, and its
    /// diffuse texture, already loaded. Every triangle keeps to the vertices
    /// of the mesh it came from: its indices are moved up by the number of
    /// vertices of the meshes before. The texture that every new model is
    /// made with is released in favour of the given one, and the mesh is
    /// uploaded.
    pub fn from_obj_file(
        dev: &mut Device,
        meshes: &Vec<Mesh>,
        texture: Texture,
        name: String,
        vert_shader_text: &str,
        frag_shader_text: &str,
    ) -> (model: Model)
        requires
            old(dev)@.room(7),
            spec_mergeable(meshes@),
        ensures
            model.vertices@ == gathered_vertices(meshes@, meshes@.len()),
            model.indices@ == gathered_indices(meshes@, meshes@.len()),
            forall|k: int|
                0 <= k < model.indices@.len() ==> (#[trigger] model.indices@[k])
                    < model.vertices@.len(),
            model.diffuse_texture == texture,
            model.name == name,
            model.placed_as_new(),
            model.vbo.id() == old(dev)@.next_handle(),
            model.vao.id() == old(dev)@.next_handle() + 1,
            model.ibo.id() == old(dev)@.next_handle() + 2,
            model.shader_program.id() == old(dev)@.next_handle() + 5,
            appends(
                old(dev)@,
                final(dev)@,
                Self::from_obj_file_commands(
                    old(dev)@.next_handle(),
                    vert_shader_text@,
                    frag_shader_text@,
                    model.vertices@,
                    model.indices@,
                ),
            ),
            final(dev)@.state.objects.len() == old(dev)@.state.objects.len() + 7,
            model.spec_uploaded_vertex_count(final(dev)@.state) == model.vertices@.len(),
            model.spec_uploaded_index_count(final(dev)@.state) == model.indices@.len(),
            final(dev)@.state.draws == old(dev)@.state.draws,
    {
        let mut vertices: Vec<Vertex> = Vec::new();
        let mut indices: Vec<u32> = Vec::new();
        let mut i: usize = 0;
        while i < meshes.len()
            invariant
                i <= meshes@.len(),
                spec_mergeable(meshes@),
                vertices@ == gathered_vertices(meshes@, i as nat),
                indices@ == gathered_indices(meshes@, i as nat),
            decreases meshes.len() - i,
        {
            proof {
                lemma_gathered_vertices_grow(meshes@, (i + 1) as nat, meshes@.len());
            }
            meshes[i].append_to(&mut vertices, &mut indices);
            i += 1;
        }
        proof {
            lemma_gathered_indices_name_vertices(meshes@, meshes@.len());
        }
        let mut model: Model = Model::new(
            dev,
            &vertices,
            &indices,
            vert_shader_text,
            frag_shader_text,
            name,
        );
        let ghost made = dev@.state;
        proof {
            assert(model.has_buffers(made));
        }
        let mut texture = texture;
        std::mem::swap(&mut model.diffuse_texture, &mut texture);
        texture.release(dev);
        let ghost released = dev@.state;
        proof {
            assert(released.object(model.vbo.id()) == made.object(model.vbo.id()));
            assert(released.object(model.ibo.id()) == made.object(model.ibo.id()));
        }
        proof {
            assert(model.has_buffers(released));
        }
        model.start(dev);
        proof {
            assert(dev@.state.objects.len() == released.objects.len());
            lemma_appends(
                old(dev)@,
                dev@,
                Self::from_obj_file_commands(
                    old(dev)@.next_handle(),
                    vert_shader_text@,
                    frag_shader_text@,
                    model.vertices@,
                    model.indices@,
                ),
            );
        }
        model
    }
}

/// The commands that give up a shadow map: the release of its depth
/// texture, then of its framebuffer.
pub open spec fn shadow_map_release_commands(texture: u32, framebuffer: u32) -> Seq<CommandView> {
    Texture::release_commands(texture) + FrameBuffer::release_commands(framebuffer)
}

impl Model {
    /// The commands of [`Model::release`].
    pub open spec fn release_commands(&self) -> Seq<CommandView> {
        (VertexBuffer::release_commands(self.vbo.id()) + VertexArrayBuffer::release_commands(
            self.vao.id(),
        ) + IndexBuffer::release_commands(self.ibo.id())).push(
            plain(Op::Delete { kind: ObjectKind::Program, id: self.shader_program.id() }),
        ) + Texture::release_commands(self.diffuse_texture.id())
    }

    /// Whether none of the model's five handles stands for a live object of
    /// its kind in `s`.
    pub open spec fn gone(&self, s: GlState) -> bool {
        &&& !s.has(ObjectKind::Buffer, self.vbo.id())
        &&& !s.has(ObjectKind::VertexArray, self.vao.id())
        &&& !s.has(ObjectKind::Buffer, self.ibo.id())
        &&& !s.has(ObjectKind::Program, self.shader_program.id())
        &&& !s.has(ObjectKind::Texture, self.diffuse_texture.id())
    }

    /// Gives the model up at the end of its scene: releases vertex buffer,
    /// vertex array, index buffer, program and texture, in that order. The
    /// model is consumed, so none of its handles can be released a second
    /// time through it.
    pub fn release(self, dev: &mut Device)
        ensures
            appends(old(dev)@, final(dev)@, self.release_commands()),
            self.gone(final(dev)@.state),
            final(dev)@.state.objects.len() == old(dev)@.state.objects.len(),
            final(dev)@.state.draws == old(dev)@.state.draws,
    {
        let ghost released = self.release_commands();
        let Model { vbo, vao, ibo, shader_program, diffuse_texture, .. } = self;
        vbo.release(dev);
        vao.release(dev);
        ibo.release(dev);
        shader_program.release(dev);
        diffuse_texture.release(dev);
        proof {
            lemma_appends(old(dev)@, dev@, released);
        }
    }
}

/// Starting a model twice leaves the backend as starting it once: the second
/// upload replaces both stores by stores of the same size, so neither the
/// vertex count nor the index count changes.
pub proof fn lemma_start_is_idempotent(model: Model, s: GlState)
    ensures
        model.started(model.started(s)) == model.started(s),
        model.spec_uploaded_index_count(model.started(model.started(s)))
            == model.spec_uploaded_index_count(model.started(s)),
        model.spec_uploaded_vertex_count(model.started(model.started(s)))
            == model.spec_uploaded_vertex_count(model.started(s)),
{
    assert(model.started(model.started(s)).objects =~= model.started(s).objects);
}

/// The perspective through which a camera looks.
#[derive(Debug, Clone, Copy, PartialEq, Eq)]
pub struct PerspectiveFov {
    /// Vertical field of view, in radians.
    pub fovy: Scalar,
    pub aspect: Scalar,
    pub near: Scalar,
    pub far: Scalar,
}

/// The viewer. `camera_rotation` holds yaw in `x` and pitch in `y`, both in
/// radians.
#[derive(Debug, Clone, Copy, PartialEq, Eq)]
pub struct Camera {
    pub projection_matrix: PerspectiveFov,
    pub position: Vector3,
    pub rotation: Rotation,
    pub scale: Vector3,
    pub camera_rotation: Vector2,
}

impl Camera {
    /// A camera at the origin that looks straight ahead.
    pub fn new(aspect_ratio: Scalar, fovy: Scalar, near: Scalar, far: Scalar) -> (cam: Camera)
        ensures
            cam == (Camera {
                projection_matrix: PerspectiveFov { fovy, aspect: aspect_ratio, near, far },
                position: Vector3::zero(),
                rotation: Rotation::Quaternion(Quaternion::zero()),
                scale: Vector3::splat(ONE),
                camera_rotation: Vector2::zero(),
            }),
    {
        Camera {
            projection_matrix: PerspectiveFov { fovy, aspect: aspect_ratio, near, far },
            position: Vector3::zero(),
            rotation: Rotation::Quaternion(Quaternion::zero()),
            scale: Vector3::splat(ONE),
            camera_rotation: Vector2::zero(),
        }
    }

    /// Whether the pitch is a number of at most a quarter turn up or down.
    pub open spec fn pitch_is_held(&self) -> bool {
        self.camera_rotation.y.within(QUARTER_TURN)
    }

    /// The camera with its pitch held within a quarter turn up or down, and
    /// yaw and pitch made its rotation.
    pub open spec fn settled(self) -> Camera {
        let pitch = self.camera_rotation.y.spec_clamp(QUARTER_TURN);
        Camera {
            camera_rotation: Vector2 { x: self.camera_rotation.x, y: pitch },
            rotation: Rotation::YawPitch { yaw: self.camera_rotation.x, pitch },
            ..self
        }
    }

    /// Position, rotation and scale as one value.
    pub open spec fn transform(self) -> Transform {
        Transform { position: self.position, rotation: self.rotation, scale: self.scale }
    }

    /// Holds the pitch within a quarter turn up or down, makes yaw and
    /// pitch the camera's rotation, and returns the camera's transform. The
    /// view matrix is the inverse of that transform's matrix.
    ///
    /// However the pitch was set before, it does not exceed a quarter turn
    /// afterwards. A pitch within the limit, and one that is no number, are
    /// left as they are.
    pub fn view_transform(&mut self) -> (transform: Transform)
        ensures
            *final(self) == old(self).settled(),
            transform == final(self).transform(),
            final(self).pitch_is_held() || old(self).camera_rotation.y.is_nan(),
            old(self).pitch_is_held() ==> final(self).camera_rotation == old(self).camera_rotation,
    {
        self.camera_rotation.y = self.camera_rotation.y.clamp(QUARTER_TURN);
        self.rotation = Rotation::YawPitch {
            yaw: self.camera_rotation.x,
            pitch: self.camera_rotation.y,
        };
        Transform { position: self.position, rotation: self.rotation, scale: self.scale }
    }

    /// Turns the camera to the given yaw, in `x`, and pitch, in `y`, and
    /// holds the pitch within a quarter turn up or down. This is how an
    /// update from the keys or the pointer sets the camera's direction:
    /// whatever it asks for, the pitch does not exceed a quarter turn
    /// afterwards, unless it is no number.
    pub fn turn(&mut self, rotation: Vector2)
        ensures
            *final(self) == (Camera {
                camera_rotation: Vector2 {
                    x: rotation.x,
                    y: rotation.y.spec_clamp(QUARTER_TURN),
                },
                ..*old(self)
            }),
            final(self).pitch_is_held() || rotation.y.is_nan(),
            rotation.y.within(QUARTER_TURN) ==> final(self).camera_rotation == rotation,
            final(self).settled().camera_rotation == final(self).camera_rotation,
    {
        self.camera_rotation = Vector2 { x: rotation.x, y: rotation.y.clamp(QUARTER_TURN) };
    }

    /// What the camera hands to a pass, see [`Sight`].
    pub open spec fn sight(self) -> Sight {
        Sight {
            position: self.position,
            view: MatrixValue::View(Outlook::InverseOf(self.settled().transform())),
            projection: MatrixValue::Projection(
                Projection::Perspective {
                    fovy: Angle::Given(self.projection_matrix.fovy),
                    aspect: Ratio::Given(self.projection_matrix.aspect),
                    near: self.projection_matrix.near,
                    far: self.projection_matrix.far,
                },
            ),
        }
    }

    /// Settles the camera as [`Camera::view_transform`] does and returns
    /// what it hands to a pass.
    pub fn look(&mut self) -> (sight: Sight)
        ensures
            *final(self) == old(self).settled(),
            sight == old(self).sight(),
            sight == final(self).sight(),
    {
        let projection: MatrixValue = MatrixValue::Projection(
            Projection::Perspective {
                fovy: Angle::Given(self.projection_matrix.fovy),
                aspect: Ratio::Given(self.projection_matrix.aspect),
                near: self.projection_matrix.near,
                far: self.projection_matrix.far,
            },
        );
        let transform: Transform = self.view_transform();
        proof {
            lemma_settling_is_idempotent(*old(self));
        }
        Sight {
            position: self.position,
            view: MatrixValue::View(Outlook::InverseOf(transform)),
            projection,
        }
    }
}

/// What a camera hands to a pass: where it stands, its view as the inverse
/// of its settled transform, and its perspective projection.
#[derive(Debug, Clone, Copy, PartialEq, Eq)]
pub struct Sight {
    pub position: Vector3,
    pub view: MatrixValue,
    pub projection: MatrixValue,
}

/// A settled camera stays as it is when settled again, its pitch is held
/// unless it is no number, and settling changes nothing of what the camera
/// hands to a pass.
pub proof fn lemma_settling_is_idempotent(cam: Camera)
    ensures
        cam.settled().settled() == cam.settled(),
        cam.settled().pitch_is_held() || cam.camera_rotation.y.is_nan(),
        cam.settled().sight() == cam.sight(),
{
}

/// A light that shines from one point in all directions. It has no shadow
/// map.
#[derive(Debug, Clone, Copy, PartialEq, Eq)]
pub struct PointLight {
    pub position: Vector3,
    pub info: PointLightInfo,
}

impl PointLight {
    /// A white point light of radius 10 at the origin.
    pub fn new() -> (light: PointLight)
        ensures
            light == (PointLight {
                position: Vector3::zero(),
                info: PointLightInfo { color: Vector3::splat(ONE), radius: Scalar { bits: TEN } },
            }),
    {
        PointLight {
            position: Vector3::zero(),
            info: PointLightInfo { color: Vector3::splat(ONE), radius: Scalar { bits: TEN } },
        }
    }
}

/// Bit pattern of `0.01`, the near plane of every shadow pass.
pub const SHADOW_NEAR: u32 = ONE_HUNDREDTH;

/// Bit pattern of `200.0`, the far plane of a directional shadow pass.
pub const SHADOW_FAR: u32 = TWO_HUNDRED;

/// The direction straight down, in which a new light shines.
pub open spec fn straight_down() -> Vector3 {
    Vector3 { x: Scalar { bits: ZERO }, y: Scalar { bits: MINUS_ONE }, z: Scalar { bits: ZERO } }
}

/// The view from the origin along `direction`, the world's up axis
/// upwards, with which a new light starts.
pub open spec fn view_from_origin(direction: Vector3) -> Outlook {
    Outlook::Along {
        eye: Standpoint::At(Vector3::spec_zero()),
        direction,
        up: Vector3::spec_unit_y(),
    }
}

/// The bindings under which a shadow pass begins that was started under
/// `bind`: the viewport at the shadow map's resolution and the shadow map
/// bound.
pub open spec fn shadow_bindings(
    resolution: (u32, u32),
    framebuffer: u32,
    bind: Bindings,
) -> Bindings {
    Bindings {
        viewport_width: resolution.0,
        viewport_height: resolution.1,
        framebuffer,
        ..bind
    }
}

/// The commands of a shadow pass into `framebuffer` at `resolution`, whose
/// depth-only draws of the scene are `draws`.
pub open spec fn shadow_pass_commands(
    resolution: (u32, u32),
    framebuffer: u32,
    draws: Seq<CommandView>,
) -> Seq<CommandView> {
    (seq![plain(Op::Viewport { width: resolution.0, height: resolution.1 })].push(
        plain(Op::BindFramebuffer { id: framebuffer }),
    ) + draws).push(plain(Op::BindFramebuffer { id: 0 }))
}

/// A light that shines along one direction from infinitely far away, with
/// its shadow map. `direction` is kept at unit length by whoever changes it.
/// `position` is shown to the shading programs as it is; the place from
/// which the shadow map is rendered is derived anew in every shadow pass.
#[derive(Debug)]
pub struct DirectionalLight {
    pub position: Vector3,
    pub direction: Vector3,
    pub info: DirectionalLightInfo,
    pub shadow_texture: Texture,
    pub shadow_framebuffer: FrameBuffer,
    pub resolution: (u32, u32),
    pub light_projection: Projection,
    pub light_view: Outlook,
}

impl DirectionalLight {
    /// The projection of a new light: the box 10 to each side, from 0.1 to
    /// 100 deep.
    pub open spec fn first_projection() -> Projection {
        Projection::Orthographic {
            left: Scalar { bits: MINUS_TEN },
            right: Scalar { bits: TEN },
            bottom: Scalar { bits: MINUS_TEN },
            top: Scalar { bits: TEN },
            near: Scalar { bits: ONE_TENTH },
            far: Scalar { bits: HUNDRED },
        }
    }

    /// The projection of every shadow pass: the box half the far plane's
    /// distance to each side, from the near plane to the far plane deep.
    pub open spec fn shadow_projection() -> Projection {
        Projection::Orthographic {
            left: Scalar { bits: MINUS_HUNDRED },
            right: Scalar { bits: HUNDRED },
            bottom: Scalar { bits: MINUS_HUNDRED },
            top: Scalar { bits: HUNDRED },
            near: Scalar { bits: SHADOW_NEAR },
            far: Scalar { bits: SHADOW_FAR },
        }
    }

    /// The view of a shadow pass for a camera at `viewer`: along the light's
    /// direction and the world's up axis upwards, from half the far plane's
    /// distance behind the camera, on whole coordinates.
    pub open spec fn shadow_view(&self, viewer: Vector3) -> Outlook {
        Outlook::Along {
            eye: Standpoint::Behind {
                viewer,
                direction: self.direction,
                far_plane: Scalar { bits: SHADOW_FAR },
            },
            direction: self.direction,
            up: Vector3::spec_unit_y(),
        }
    }

    /// The light after a shadow pass for a camera at `viewer`.
    pub open spec fn cast(self, viewer: Vector3) -> DirectionalLight {
        DirectionalLight {
            light_projection: Self::shadow_projection(),
            light_view: self.shadow_view(viewer),
            ..self
        }
    }

    /// A white light at the origin that shines straight down, with a fresh
    /// shadow map of the given resolution: the framebuffer under the next
    /// free handle, its depth texture under the one after.
    pub fn new(dev: &mut Device, shadow_resolution: (u32, u32)) -> (light: DirectionalLight)
        requires
            old(dev)@.room(2),
        ensures
            light.shadow_framebuffer.id() == old(dev)@.next_handle(),
            light.shadow_texture.id() == old(dev)@.next_handle() + 1,
            light.position == Vector3::zero(),
            light.direction == straight_down(),
            light.info == (DirectionalLightInfo { color: Vector3::splat(ONE) }),
            light.resolution == shadow_resolution,
            light.light_projection == Self::first_projection(),
            light.light_view == view_from_origin(straight_down()),
            appends(
                old(dev)@,
                final(dev)@,
                create_framebuffer_depthbuffer_commands(old(dev)@.next_handle(), shadow_resolution),
            ),
            final(dev)@.state.objects.len() == old(dev)@.state.objects.len() + 2,
            keeps(final(dev)@.state, old(dev)@.state),
            is_depth_target(
                final(dev)@.state,
                light.shadow_framebuffer.id(),
                light.shadow_texture.id(),
                shadow_resolution,
            ),
            final(dev)@.state.draws == old(dev)@.state.draws,
    {
        let direction: Vector3 = Vector3 {
            x: Scalar { bits: ZERO },
            y: Scalar { bits: MINUS_ONE },
            z: Scalar { bits: ZERO },
        };
        let (shadow_texture, shadow_framebuffer) = create_framebuffer_depthbuffer(
            dev,
            shadow_resolution,
        );
        DirectionalLight {
            position: Vector3::zero(),
            direction,
            info: DirectionalLightInfo { color: Vector3::splat(ONE) },
            shadow_texture,
            shadow_framebuffer,
            resolution: shadow_resolution,
            light_projection: Projection::Orthographic {
                left: Scalar { bits: MINUS_TEN },
                right: Scalar { bits: TEN },
                bottom: Scalar { bits: MINUS_TEN },
                top: Scalar { bits: TEN },
                near: Scalar { bits: ONE_TENTH },
                far: Scalar { bits: HUNDRED },
            },
            light_view: Outlook::Along {
                eye: Standpoint::At(Vector3::zero()),
                direction,
                up: Vector3::unit_y(),
            },
        }
    }

    /// The commands of [`DirectionalLight::render`].
    pub open spec fn render_commands(&self, globals: Globals, program: u32) -> Seq<CommandView> {
        shadow_pass_commands(
            self.resolution,
            self.shadow_framebuffer.id(),
            draw_scene_custom_shader_program_commands(
                globals.models@,
                globals.screen_size,
                MatrixValue::Projection(Self::shadow_projection()),
                MatrixValue::View(self.shadow_view(globals.cam.position)),
                program,
                true,
            ),
        )
    }

    /// The shadow pass. Sets the light-space projection and view anew from
    /// where the camera stands now, then renders the shadow-casting meshes
    /// of the scene, depth only, into the light's shadow map at its
    /// resolution, and leaves no framebuffer bound.
    pub fn render(&mut self, dev: &mut Device, globals: &Globals, depth_only_shader: &Program)
        ensures
            *final(self) == old(self).cast(globals.cam.position),
            appends(
                old(dev)@,
                final(dev)@,
                old(self).render_commands(*globals, depth_only_shader.id()),
            ),
            final(dev)@.state.objects == old(dev)@.state.objects,
            final(dev)@.state.bind == (Bindings {
                framebuffer: 0,
                ..custom_bindings_after(
                    globals.models@,
                    globals.models@.len(),
                    depth_only_shader.id(),
                    true,
                    shadow_bindings(
                        old(self).resolution,
                        old(self).shadow_framebuffer.id(),
                        old(dev)@.state.bind,
                    ),
                )
            }),
            final(dev)@.state.draws == old(dev)@.state.draws + custom_draws_made(
                globals.models@,
                globals.models@.len(),
                depth_only_shader.id(),
                true,
                shadow_bindings(
                    old(self).resolution,
                    old(self).shadow_framebuffer.id(),
                    old(dev)@.state.bind,
                ),
            ),
    {
        let light_projection: Projection = Projection::Orthographic {
            left: Scalar { bits: MINUS_HUNDRED },
            right: Scalar { bits: HUNDRED },
            bottom: Scalar { bits: MINUS_HUNDRED },
            top: Scalar { bits: HUNDRED },
            near: Scalar { bits: SHADOW_NEAR },
            far: Scalar { bits: SHADOW_FAR },
        };
        let light_view: Outlook = Outlook::Along {
            eye: Standpoint::Behind {
                viewer: globals.cam.position,
                direction: self.direction,
                far_plane: Scalar { bits: SHADOW_FAR },
            },
            direction: self.direction,
            up: Vector3::unit_y(),
        };
        self.light_projection = light_projection;
        self.light_view = light_view;
        dev.submit(
            Op::Viewport { width: self.resolution.0, height: self.resolution.1 },
            Payload::Nothing,
        );
        self.shadow_framebuffer.bind(dev);
        draw_scene_custom_shader_program(
            dev,
            globals,
            MatrixValue::Projection(light_projection),
            MatrixValue::View(light_view),
            depth_only_shader,
            true,
        );
        self.shadow_framebuffer.unbind(dev);
        proof {
            lemma_appends(
                old(dev)@,
                dev@,
                old(self).render_commands(*globals, depth_only_shader.id()),
            );
        }
    }

    /// Gives the light's shadow map up: releases its depth texture, then
    /// its framebuffer. The light is consumed.
    pub fn release(self, dev: &mut Device)
        ensures
            appends(
                old(dev)@,
                final(dev)@,
                shadow_map_release_commands(
                    self.shadow_texture.id(),
                    self.shadow_framebuffer.id(),
                ),
            ),
            !final(dev)@.state.has(ObjectKind::Texture, self.shadow_texture.id()),
            !final(dev)@.state.has(ObjectKind::Framebuffer, self.shadow_framebuffer.id()),
            final(dev)@.state.objects.len() == old(dev)@.state.objects.len(),
            final(dev)@.state.draws == old(dev)@.state.draws,
    {
        let ghost released = shadow_map_release_commands(
            self.shadow_texture.id(),
            self.shadow_framebuffer.id(),
        );
        let DirectionalLight { shadow_texture, shadow_framebuffer, .. } = self;
        shadow_texture.release(dev);
        shadow_framebuffer.release(dev);
        proof {
            lemma_appends(old(dev)@, dev@, released);
        }
    }
}

/// A light that shines from one point into a cone, with its shadow map.
/// `direction` is kept at unit length by whoever changes it.
#[derive(Debug)]
pub struct SpotLight {
    pub position: Vector3,
    pub direction: Vector3,
    /// Opening angle of the cone, in radians.
    pub horizontal_fov: Scalar,
    pub info: SpotLightInfo,
    pub shadow_texture: Texture,
    pub shadow_framebuffer: FrameBuffer,
    pub resolution: (u32, u32),
    pub light_projection: Projection,
    pub light_view: Outlook,
}

impl SpotLight {
    /// The projection of a new light: the frustum whose vertical field of
    /// view fits the cone on the shadow map, from the shadow near plane to
    /// the light's radius deep.
    pub open spec fn first_projection(
        resolution: (u32, u32),
        horizontal_fov: Scalar,
    ) -> Projection {
        Projection::Perspective {
            fovy: Angle::Fitted {
                horizontal: horizontal_fov,
                width: resolution.0,
                height: resolution.1,
            },
            aspect: Ratio::Of { width: resolution.0, height: resolution.1 },
            near: Scalar { bits: SHADOW_NEAR },
            far: Scalar { bits: TEN },
        }
    }

    /// The projection of a shadow pass: the frustum whose vertical field of
    /// view is the cone's angle scaled by the shadow map's height over its
    /// width, from the shadow near plane to the light's radius deep.
    pub open spec fn shadow_projection(&self) -> Projection {
        Projection::Perspective {
            fovy: Angle::Scaled {
                angle: self.horizontal_fov,
                numerator: self.resolution.1,
                denominator: self.resolution.0,
            },
            aspect: Ratio::Of { width: self.resolution.0, height: self.resolution.1 },
            near: Scalar { bits: SHADOW_NEAR },
            far: self.info.radius,
        }
    }

    /// The view of a shadow pass: from the light's position along its
    /// direction, the world's up axis upwards.
    pub open spec fn shadow_view(&self) -> Outlook {
        Outlook::Along {
            eye: Standpoint::At(self.position),
            direction: self.direction,
            up: Vector3::spec_unit_y(),
        }
    }

    /// The light after a shadow pass.
    pub open spec fn cast(self) -> SpotLight {
        SpotLight {
            light_projection: self.shadow_projection(),
            light_view: self.shadow_view(),
            ..self
        }
    }

    /// A white light of radius 10 at the origin that shines straight down,
    /// with a fresh shadow map of the given resolution: the framebuffer
    /// under the next free handle, its depth texture under the one after.
    pub fn new(dev: &mut Device, shadow_resolution: (u32, u32), horizontal_fov: Scalar) -> (light:
        SpotLight)
        requires
            old(dev)@.room(2),
        ensures
            light.shadow_framebuffer.id() == old(dev)@.next_handle(),
            light.shadow_texture.id() == old(dev)@.next_handle() + 1,
            light.position == Vector3::zero(),
            light.direction == straight_down(),
            light.horizontal_fov == horizontal_fov,
            light.info == (SpotLightInfo {
                color: Vector3::splat(ONE),
                radius: Scalar { bits: TEN },
            }),
            light.resolution == shadow_resolution,
            light.light_projection == Self::first_projection(shadow_resolution, horizontal_fov),
            light.light_view == view_from_origin(straight_down()),
            appends(
                old(dev)@,
                final(dev)@,
                create_framebuffer_depthbuffer_commands(old(dev)@.next_handle(), shadow_resolution),
            ),
            final(dev)@.state.objects.len() == old(dev)@.state.objects.len() + 2,
            keeps(final(dev)@.state, old(dev)@.state),
            is_depth_target(
                final(dev)@.state,
                light.shadow_framebuffer.id(),
                light.shadow_texture.id(),
                shadow_resolution,
            ),
            final(dev)@.state.draws == old(dev)@.state.draws,
    {
        let direction: Vector3 = Vector3 {
            x: Scalar { bits: ZERO },
            y: Scalar { bits: MINUS_ONE },
            z: Scalar { bits: ZERO },
        };
        let info: SpotLightInfo = SpotLightInfo {
            color: Vector3::splat(ONE),
            radius: Scalar { bits: TEN },
        };
        let (shadow_texture, shadow_framebuffer) = create_framebuffer_depthbuffer(
            dev,
            shadow_resolution,
        );
        SpotLight {
            position: Vector3::zero(),
            direction,
            horizontal_fov,
            info,
            shadow_texture,
            shadow_framebuffer,
            resolution: shadow_resolution,
            light_projection: Projection::Perspective {
                fovy: Angle::Fitted {
                    horizontal: horizontal_fov,
                    width: shadow_resolution.0,
                    height: shadow_resolution.1,
                },
                aspect: Ratio::Of { width: shadow_resolution.0, height: shadow_resolution.1 },
                near: Scalar { bits: SHADOW_NEAR },
                far: info.radius,
            },
            light_view: Outlook::Along {
                eye: Standpoint::At(Vector3::zero()),
                direction,
                up: Vector3::unit_y(),
            },
        }
    }

    /// The commands of [`SpotLight::render`].
    pub open spec fn render_commands(&self, globals: Globals, program: u32) -> Seq<CommandView> {
        shadow_pass_commands(
            self.resolution,
            self.shadow_framebuffer.id(),
            draw_scene_custom_shader_program_commands(
                globals.models@,
                globals.screen_size,
                MatrixValue::Projection(self.shadow_projection()),
                MatrixValue::View(self.shadow_view()),
                program,
                true,
            ),
        )
    }

    /// The shadow pass. Sets the light-space projection and view anew from
    /// the light's cone, position and direction, then renders the
    /// shadow-casting meshes of the scene, depth only, into the light's
    /// shadow map at its resolution, and leaves no framebuffer bound.
    pub fn render(&mut self, dev: &mut Device, globals: &Globals, depth_only_shader: &Program)
        ensures
            *final(self) == old(self).cast(),
            appends(
                old(dev)@,
                final(dev)@,
                old(self).render_commands(*globals, depth_only_shader.id()),
            ),
            final(dev)@.state.objects == old(dev)@.state.objects,
            final(dev)@.state.bind == (Bindings {
                framebuffer: 0,
                ..custom_bindings_after(
                    globals.models@,
                    globals.models@.len(),
                    depth_only_shader.id(),
                    true,
                    shadow_bindings(
                        old(self).resolution,
                        old(self).shadow_framebuffer.id(),
                        old(dev)@.state.bind,
                    ),
                )
            }),
            final(dev)@.state.draws == old(dev)@.state.draws + custom_draws_made(
                globals.models@,
                globals.models@.len(),
                depth_only_shader.id(),
                true,
                shadow_bindings(
                    old(self).resolution,
                    old(self).shadow_framebuffer.id(),
                    old(dev)@.state.bind,
                ),
            ),
    {
        let light_projection: Projection = Projection::Perspective {
            fovy: Angle::Scaled {
                angle: self.horizontal_fov,
                numerator: self.resolution.1,
                denominator: self.resolution.0,
            },
            aspect: Ratio::Of { width: self.resolution.0, height: self.resolution.1 },
            near: Scalar { bits: SHADOW_NEAR },
            far: self.info.radius,
        };
        let light_view: Outlook = Outlook::Along {
            eye: Standpoint::At(self.position),
            direction: self.direction,
            up: Vector3::unit_y(),
        };
        self.light_projection = light_projection;
        self.light_view = light_view;
        dev.submit(
            Op::Viewport { width: self.resolution.0, height: self.resolution.1 },
            Payload::Nothing,
        );
        self.shadow_framebuffer.bind(dev);
        draw_scene_custom_shader_program(
            dev,
            globals,
            MatrixValue::Projection(light_projection),
            MatrixValue::View(light_view),
            depth_only_shader,
            true,
        );
        self.shadow_framebuffer.unbind(dev);
        proof {
            lemma_appends(
                old(dev)@,
                dev@,
                old(self).render_commands(*globals, depth_only_shader.id()),
            );
        }
    }
    /// Gives the light's shadow map up: releases its depth texture, then
    /// its framebuffer. The light is consumed.
    pub fn release(self, dev: &mut Device)
        ensures
            appends(
                old(dev)@,
                final(dev)@,
                shadow_map_release_commands(
                    self.shadow_texture.id(),
                    self.shadow_framebuffer.id(),
                ),
            ),
            !final(dev)@.state.has(ObjectKind::Texture, self.shadow_texture.id()),
            !final(dev)@.state.has(ObjectKind::Framebuffer, self.shadow_framebuffer.id()),
            final(dev)@.state.objects.len() == old(dev)@.state.objects.len(),
            final(dev)@.state.draws == old(dev)@.state.draws,
    {
        let ghost released = shadow_map_release_commands(
            self.shadow_texture.id(),
            self.shadow_framebuffer.id(),
        );
        let SpotLight { shadow_texture, shadow_framebuffer, .. } = self;
        shadow_texture.release(dev);
        shadow_framebuffer.release(dev);
        proof {
            lemma_appends(old(dev)@, dev@, released);
        }
    }
}

} // verus!
