//! Meshes: a vertex buffer, an index buffer and the vertex array that ties
//! a layout to them, created and released as one unit.

use vstd::prelude::*;
use vstd::string::*;
use core::marker::PhantomData;
use crate::command::{
    views, Attribute, BufferTarget, Command, CommandView, Handle, ObjectKind, Reply,
};
use crate::context::{
    lemma_release_commands, lemma_released_once, lemma_releases_concat, lemma_run_concat,
    lemma_run_inert, lemma_run_keeps_live, lemma_run_push, released_by, Batch, ContextState,
    GraphicsContext,
};
use crate::progress::{Progress, Turn, Verdict};

verus! {

/// A vertex shape: a type that can describe how its attributes lie in
/// memory.
pub trait Vertex: Sized {
    /// The attribute slots of one vertex, in the order they are declared to
    /// the driver.
    fn define_vertex_attrib_pointers() -> Vec<Attribute>;
}

/// The handle of the vertex array named `array`.
pub open spec fn array_handle(array: u32) -> Handle {
    Handle { kind: ObjectKind::VertexArray, id: array }
}

/// The handle of the buffer named `buffer`.
pub open spec fn buffer_handle(buffer: u32) -> Handle {
    Handle { kind: ObjectKind::Buffer, id: buffer }
}

/// What a [`VertexArray`] stands for in specifications.
pub struct Mesh {
    /// The name of the vertex array; zero if there is none.
    pub array: u32,
    /// The name of the vertex buffer; zero if there is none.
    pub vertices: u32,
    /// The name of the index buffer; zero if there is none.
    pub indices: u32,
    /// How many indices the mesh was created from.
    pub count: usize,
}

impl Mesh {
    /// Whether the mesh has all three of its objects.
    pub open spec fn is_complete(self) -> bool {
        self.array != 0 && self.vertices != 0 && self.indices != 0 && self.vertices
            != self.indices
    }

    /// The three names of the mesh, each with its kind.
    pub open spec fn handles(self) -> Set<Handle> {
        set![array_handle(self.array), buffer_handle(self.vertices), buffer_handle(self.indices)]
    }

    /// The commands that release the mesh: one deletion for each of its
    /// three names that is live when its turn comes.
    pub open spec fn release_commands(self, context: ContextState) -> Seq<CommandView> {
        let without_array = context.release(array_handle(self.array));
        let without_vertices = without_array.release(buffer_handle(self.vertices));
        context.release_commands(array_handle(self.array)) + without_array.release_commands(
            buffer_handle(self.vertices),
        ) + without_vertices.release_commands(buffer_handle(self.indices))
    }

    /// The commands that make the mesh the one to draw from.
    pub open spec fn select_commands(self) -> Seq<CommandView> {
        seq![
            CommandView::BindVertexArray { array: self.array },
            CommandView::BindBuffer { target: BufferTarget::Indices, buffer: self.indices },
        ]
    }
}

/// What a mesh is created from: the sizes of its two uploads and the layout
/// of its vertices.
pub struct MeshPlan {
    /// The size of the vertex data in bytes.
    pub vertex_bytes: usize,
    /// The size of the index data in bytes.
    pub index_bytes: usize,
    /// The number of indices.
    pub count: usize,
    /// The attribute slots of one vertex.
    pub layout: Vec<Attribute>,
}

/// The commands that declare a layout: for each attribute in turn, its slot
/// is enabled and its place in the vertex is described.
pub open spec fn layout_commands(layout: Seq<Attribute>) -> Seq<CommandView> {
    Seq::new(
        2 * layout.len(),
        |i: int|
            if i % 2 == 0 {
                CommandView::EnableVertexAttribArray { index: layout[i / 2].index }
            } else {
                CommandView::VertexAttribPointer { attribute: layout[i / 2] }
            },
    )
}

/// The commands that fill a mesh whose three objects exist: bind the vertex
/// array; bind the vertex buffer and upload the vertices; bind the index
/// buffer and upload the indices; declare the layout while the vertex array
/// is bound, which ties it to the vertex buffer; unbind everything.
pub open spec fn setup_commands(plan: MeshPlan, array: u32, vertices: u32, indices: u32) -> Seq<
    CommandView,
> {
    seq![
        CommandView::BindVertexArray { array },
        CommandView::BindBuffer { target: BufferTarget::Vertices, buffer: vertices },
        CommandView::BufferData { target: BufferTarget::Vertices, bytes: plan.vertex_bytes },
        CommandView::BindBuffer { target: BufferTarget::Indices, buffer: indices },
        CommandView::BufferData { target: BufferTarget::Indices, bytes: plan.index_bytes },
    ] + layout_commands(plan.layout@) + seq![
        CommandView::BindVertexArray { array: 0 },
        CommandView::BindBuffer { target: BufferTarget::Vertices, buffer: 0 },
        CommandView::BindBuffer { target: BufferTarget::Indices, buffer: 0 },
    ]
}

/// The line printed when the driver issues no usable name for one of the
/// objects of a mesh.
pub open spec fn no_object_line() -> Seq<char> {
    "FAILED TO CREATE MESH. <no object>"@
}

/// How far the creation of a mesh has come.
pub enum MeshPhase {
    /// Nothing was sent yet.
    Start,
    /// The vertex array was asked for; its name is awaited.
    Array,
    /// The vertex buffer was asked for; its name is awaited.
    Vertices { array: u32 },
    /// The index buffer was asked for; its name is awaited.
    Indices { array: u32, vertices: u32 },
}

/// The creation of a mesh, between two turns.
pub struct MeshBuild<V: Vertex> {
    pub plan: MeshPlan,
    pub phase: MeshPhase,
    pub marker: PhantomData<V>,
}

/// An owned mesh of vertices of shape `V`. Where one of its three names is
/// zero, the creation ended early and the mesh owns only the others.
pub struct VertexArray<V: Vertex> {
    vao: u32,
    vbo: u32,
    ibo: u32,
    count: usize,
    marker: PhantomData<V>,
}

impl<V: Vertex> View for VertexArray<V> {
    type V = Mesh;

    closed spec fn view(&self) -> Mesh {
        Mesh { array: self.vao, vertices: self.vbo, indices: self.ibo, count: self.count }
    }
}

impl<V: Vertex> MeshBuild<V> {
    /// Whether the last name can be adopted and the mesh completed with it:
    /// the two names that came before are still live, and the new one names
    /// something that is not.
    pub open spec fn completes(context: ContextState, array: u32, vertices: u32, indices: u32)
        -> bool {
        &&& array != 0
        &&& vertices != 0
        &&& context.live.contains(array_handle(array))
        &&& context.live.contains(buffer_handle(vertices))
        &&& context.adoptable(buffer_handle(indices))
    }

    /// What the next turn amounts to, given the state of the context and
    /// the reply to the turn before. The three objects are asked for one
    /// after the other, each adopted as its name arrives. With all three,
    /// the mesh is filled; where a name cannot be adopted, a line that says
    /// so is printed and the creation ends at once with the mesh as far as
    /// it has come.
    pub open spec fn step(self, context: ContextState, reply: Reply) -> Turn<MeshBuild<V>, Mesh> {
        let count = self.plan.count;
        match self.phase {
            MeshPhase::Start => Turn {
                adopted: None,
                commands: seq![CommandView::GenVertexArray],
                context,
                verdict: Verdict::Continue(MeshBuild { phase: MeshPhase::Array, ..self }),
            },
            MeshPhase::Array => {
                let array = reply.spec_handle();
                if context.adoptable(array_handle(array)) {
                    Turn {
                        adopted: Some(array_handle(array)),
                        commands: seq![CommandView::GenBuffer],
                        context: context.adopt(array_handle(array)),
                        verdict: Verdict::Continue(
                            MeshBuild { phase: MeshPhase::Vertices { array }, ..self },
                        ),
                    }
                } else {
                    Turn {
                        adopted: None,
                        commands: seq![CommandView::Print { line: no_object_line() }],
                        context,
                        verdict: Verdict::Finish(
                            Mesh { array: 0, vertices: 0, indices: 0, count },
                        ),
                    }
                }
            },
            MeshPhase::Vertices { array } => {
                let vertices = reply.spec_handle();
                if context.adoptable(buffer_handle(vertices)) {
                    Turn {
                        adopted: Some(buffer_handle(vertices)),
                        commands: seq![CommandView::GenBuffer],
                        context: context.adopt(buffer_handle(vertices)),
                        verdict: Verdict::Continue(
                            MeshBuild { phase: MeshPhase::Indices { array, vertices }, ..self },
                        ),
                    }
                } else {
                    Turn {
                        adopted: None,
                        commands: seq![CommandView::Print { line: no_object_line() }],
                        context,
                        verdict: Verdict::Finish(Mesh { array, vertices: 0, indices: 0, count }),
                    }
                }
            },
            MeshPhase::Indices { array, vertices } => {
                let indices = reply.spec_handle();
                if Self::completes(context, array, vertices, indices) {
                    Turn {
                        adopted: Some(buffer_handle(indices)),
                        commands: setup_commands(self.plan, array, vertices, indices),
                        context: ContextState {
                            live: context.live.insert(buffer_handle(indices)),
                            array: 0,
                            vertices: 0,
                            indices: 0,
                            ..context
                        },
                        verdict: Verdict::Finish(Mesh { array, vertices, indices, count }),
                    }
                } else {
                    Turn {
                        adopted: None,
                        commands: seq![CommandView::Print { line: no_object_line() }],
                        context,
                        verdict: Verdict::Finish(Mesh { array, vertices, indices: 0, count }),
                    }
                }
            },
        }
    }

    /// Whether `progress` is what `turn` hands to the shell: the same
    /// commands, and the same end, with the mesh wrapped in its owner.
    pub open spec fn yields(
        progress: Progress<MeshBuild<V>, VertexArray<V>>,
        turn: Turn<MeshBuild<V>, Mesh>,
    ) -> bool {
        &&& views(progress.commands()) == turn.commands
        &&& match progress {
            Progress::Continue { machine, commands } => turn.verdict == Verdict::Continue::<
                MeshBuild<V>,
                Mesh,
            >(machine),
            Progress::Finish { commands, outcome } => turn.verdict == Verdict::Finish::<
                MeshBuild<V>,
                Mesh,
            >(outcome@),
        }
    }

    /// The creation of a mesh from uploads of the given sizes and vertices
    /// of the given layout, with nothing sent yet.
    pub fn new(vertex_bytes: usize, index_bytes: usize, count: usize, layout: Vec<Attribute>) -> (build:
        MeshBuild<V>)
        ensures
            build.plan.vertex_bytes == vertex_bytes,
            build.plan.index_bytes == index_bytes,
            build.plan.count == count,
            build.plan.layout == layout,
            build.phase == MeshPhase::Start,
    {
        MeshBuild {
            plan: MeshPlan { vertex_bytes, index_bytes, count, layout },
            phase: MeshPhase::Start,
            marker: PhantomData,
        }
    }

    /// Prints that a name could not be adopted.
    fn give_up(context: &mut GraphicsContext) -> (commands: Vec<Command>)
        ensures
            views(commands@) == seq![CommandView::Print { line: no_object_line() }],
            old(context)@.releases_only_live(views(commands@)),
            final(context)@ == old(context)@.run(views(commands@)),
            final(context)@ == old(context)@,
    {
        let mut batch = Batch::begin(context);
        batch.issue(
            context,
            Command::Print { line: String::from_str("FAILED TO CREATE MESH. <no object>") },
        );
        proof {
            assert(batch.issued() =~= seq![CommandView::Print { line: no_object_line() }]);
        }
        batch.commands
    }

    /// Issues the commands that fill the mesh.
    fn fill(
        plan: &MeshPlan,
        context: &mut GraphicsContext,
        array: u32,
        vertices: u32,
        indices: u32,
    ) -> (commands: Vec<Command>)
        ensures
            views(commands@) == setup_commands(*plan, array, vertices, indices),
            old(context)@.releases_only_live(views(commands@)),
            final(context)@ == old(context)@.run(views(commands@)),
            final(context)@ == (ContextState {
                array: 0,
                vertices: 0,
                indices: 0,
                ..old(context)@
            }),
    {
        let mut batch = Batch::begin(context);
        batch.issue(context, Command::BindVertexArray { array });
        batch.issue(context, Command::BindBuffer { target: BufferTarget::Vertices, buffer: vertices });
        batch.issue(
            context,
            Command::BufferData { target: BufferTarget::Vertices, bytes: plan.vertex_bytes },
        );
        batch.issue(context, Command::BindBuffer { target: BufferTarget::Indices, buffer: indices });
        batch.issue(
            context,
            Command::BufferData { target: BufferTarget::Indices, bytes: plan.index_bytes },
        );
        let ghost head = batch.issued();
        let ghost bound = context@;
        let mut at: usize = 0;
        proof {
            assert(head =~= head + layout_commands(plan.layout@.subrange(0, 0)));
        }
        while at < plan.layout.len()
            invariant
                at <= plan.layout@.len(),
                batch.tracks(context@),
                batch.start@ == old(context)@,
                context@ == bound,
                batch.issued() == head + layout_commands(plan.layout@.subrange(0, at as int)),
            decreases plan.layout@.len() - at,
        {
            let attribute = plan.layout[at];
            let ghost done = plan.layout@.subrange(0, at as int);
            batch.issue(context, Command::EnableVertexAttribArray { index: attribute.index });
            batch.issue(context, Command::VertexAttribPointer { attribute });
            proof {
                let more = plan.layout@.subrange(0, at + 1);
                assert(layout_commands(more) =~= layout_commands(done).push(
                    CommandView::EnableVertexAttribArray { index: attribute.index },
                ).push(CommandView::VertexAttribPointer { attribute }));
                assert(batch.issued() =~= head + layout_commands(more));
            }
            at += 1;
        }
        proof {
            assert(plan.layout@.subrange(0, at as int) =~= plan.layout@);
        }
        batch.issue(context, Command::BindVertexArray { array: 0 });
        batch.issue(context, Command::BindBuffer { target: BufferTarget::Vertices, buffer: 0 });
        batch.issue(context, Command::BindBuffer { target: BufferTarget::Indices, buffer: 0 });
        proof {
            assert(batch.issued() =~= setup_commands(*plan, array, vertices, indices));
        }
        batch.commands
    }

    /// Takes the next turn of the creation.
    ///
    /// The first turn takes any reply; each later one takes the answer to
    /// the last command of the turn before.
    pub fn advance(self, context: &mut GraphicsContext, reply: &Reply) -> (progress: Progress<
        MeshBuild<V>,
        VertexArray<V>,
    >)
        requires
            old(context)@.loaded,
        ensures
            Self::yields(progress, self.step(old(context)@, *reply)),
            final(context)@ == self.step(old(context)@, *reply).context,
            old(context)@.accounts_for(self.step(old(context)@, *reply)),
            final(context)@.loaded,
    {
        let ghost turn = self.step(context@, *reply);
        let count = self.plan.count;
        match self.phase {
            MeshPhase::Start => {
                let mut batch = Batch::begin(context);
                batch.issue(context, Command::GenVertexArray);
                proof {
                    assert(batch.issued() =~= turn.commands);
                }
                Progress::Continue {
                    machine: MeshBuild { plan: self.plan, phase: MeshPhase::Array, marker: self.marker },
                    commands: batch.commands,
                }
            },
            MeshPhase::Array => {
                let array = reply.handle();
                if context.adopt(Handle { kind: ObjectKind::VertexArray, id: array }) {
                    let mut batch = Batch::begin(context);
                    batch.issue(context, Command::GenBuffer);
                    proof {
                        assert(batch.issued() =~= turn.commands);
                    }
                    Progress::Continue {
                        machine: MeshBuild {
                            plan: self.plan,
                            phase: MeshPhase::Vertices { array },
                            marker: self.marker,
                        },
                        commands: batch.commands,
                    }
                } else {
                    Progress::Finish {
                        commands: Self::give_up(context),
                        outcome: VertexArray { vao: 0, vbo: 0, ibo: 0, count, marker: PhantomData },
                    }
                }
            },
            MeshPhase::Vertices { array } => {
                let vertices = reply.handle();
                if context.adopt(Handle { kind: ObjectKind::Buffer, id: vertices }) {
                    let mut batch = Batch::begin(context);
                    batch.issue(context, Command::GenBuffer);
                    proof {
                        assert(batch.issued() =~= turn.commands);
                    }
                    Progress::Continue {
                        machine: MeshBuild {
                            plan: self.plan,
                            phase: MeshPhase::Indices { array, vertices },
                            marker: self.marker,
                        },
                        commands: batch.commands,
                    }
                } else {
                    Progress::Finish {
                        commands: Self::give_up(context),
                        outcome: VertexArray {
                            vao: array,
                            vbo: 0,
                            ibo: 0,
                            count,
                            marker: PhantomData,
                        },
                    }
                }
            },
            MeshPhase::Indices { array, vertices } => {
                let indices = reply.handle();
                if array != 0 && vertices != 0 && context.owns(
                    Handle { kind: ObjectKind::VertexArray, id: array },
                ) && context.owns(Handle { kind: ObjectKind::Buffer, id: vertices })
                    && context.adopt(Handle { kind: ObjectKind::Buffer, id: indices }) {
                    let commands = Self::fill(&self.plan, context, array, vertices, indices);
                    Progress::Finish {
                        commands,
                        outcome: VertexArray {
                            vao: array,
                            vbo: vertices,
                            ibo: indices,
                            count,
                            marker: PhantomData,
                        },
                    }
                } else {
                    Progress::Finish {
                        commands: Self::give_up(context),
                        outcome: VertexArray {
                            vao: array,
                            vbo: vertices,
                            ibo: 0,
                            count,
                            marker: PhantomData,
                        },
                    }
                }
            },
        }
    }
}

impl<V: Vertex> VertexArray<V> {
    /// Begins the creation of a mesh from `vertices` and `indices`. Either
    /// may be empty: the mesh then holds a buffer of no bytes. `None` if
    /// the size of an upload in bytes is more than an address can hold,
    /// which is so for no sequence that lies in memory.
    pub fn create(vertices: &[V], indices: &[u32]) -> (build: Option<MeshBuild<V>>)
        ensures
            build is Some <==> vertices@.len() * vstd::layout::size_of::<V>() <= usize::MAX
                && indices@.len() * 4 <= usize::MAX,
            build matches Some(begun) ==> {
                &&& begun.plan.vertex_bytes == vertices@.len() * vstd::layout::size_of::<V>()
                &&& begun.plan.index_bytes == indices@.len() * 4
                &&& begun.plan.count == indices@.len()
                &&& begun.phase == MeshPhase::Start
            },
    {
        match (vertices.len().checked_mul(core::mem::size_of::<V>()), indices.len().checked_mul(4)) {
            (Some(vertex_bytes), Some(index_bytes)) => Some(
                MeshBuild::new(
                    vertex_bytes,
                    index_bytes,
                    indices.len(),
                    V::define_vertex_attrib_pointers(),
                ),
            ),
            _ => None,
        }
    }

    /// The name of the vertex array; zero if the mesh has none.
    pub fn array(&self) -> (array: u32)
        ensures
            array == self@.array,
    {
        self.vao
    }

    /// The name of the vertex buffer; zero if the mesh has none.
    pub fn vertex_buffer(&self) -> (buffer: u32)
        ensures
            buffer == self@.vertices,
    {
        self.vbo
    }

    /// The name of the index buffer; zero if the mesh has none.
    pub fn index_buffer(&self) -> (buffer: u32)
        ensures
            buffer == self@.indices,
    {
        self.ibo
    }

    /// How many indices the mesh was created from.
    pub fn index_count(&self) -> (count: usize)
        ensures
            count == self@.count,
    {
        self.count
    }

    /// Whether the mesh has all three of its objects.
    pub fn is_complete(&self) -> (complete: bool)
        ensures
            complete == self@.is_complete(),
    {
        self.vao != 0 && self.vbo != 0 && self.ibo != 0 && self.vbo != self.ibo
    }

    /// Makes this mesh the one to draw from: binds its vertex array and its
    /// index buffer. The vertex buffer is not bound; the layout recorded in
    /// the vertex array refers to it.
    pub fn select(&self, context: &mut GraphicsContext) -> (commands: Vec<Command>)
        requires
            old(context)@.loaded,
        ensures
            views(commands@) == self@.select_commands(),
            final(context)@ == old(context)@.run(views(commands@)),
            final(context)@ == (ContextState {
                array: self@.array,
                indices: self@.indices,
                ..old(context)@
            }),
    {
        let mut batch = Batch::begin(context);
        batch.issue(context, Command::BindVertexArray { array: self.vao });
        batch.issue(context, Command::BindBuffer { target: BufferTarget::Indices, buffer: self.ibo });
        proof {
            assert(batch.issued() =~= self@.select_commands());
        }
        batch.commands
    }

    /// Gives the mesh up: releases each of its three names that is live,
    /// once, in the order vertex array, vertex buffer, index buffer.
    pub fn destroy(self, context: &mut GraphicsContext) -> (commands: Vec<Command>)
        ensures
            views(commands@) == self@.release_commands(old(context)@),
            old(context)@.releases_only_live(views(commands@)),
            final(context)@ == old(context)@.run(views(commands@)),
            final(context)@ == old(context)@.release(array_handle(self@.array)).release(
                buffer_handle(self@.vertices),
            ).release(buffer_handle(self@.indices)),
    {
        let ghost before = context@;
        let mut batch = Batch::begin(context);
        batch.release(context, Handle { kind: ObjectKind::VertexArray, id: self.vao });
        let ghost second = context@;
        batch.release(context, Handle { kind: ObjectKind::Buffer, id: self.vbo });
        let ghost third = context@;
        batch.release(context, Handle { kind: ObjectKind::Buffer, id: self.ibo });
        proof {
            let first_commands = before.release_commands(array_handle(self@.array));
            let second_commands = second.release_commands(buffer_handle(self@.vertices));
            lemma_release_commands(before, array_handle(self@.array));
            lemma_release_commands(second, buffer_handle(self@.vertices));
            assert(before.run(first_commands) == second);
            assert(second.run(second_commands) == third);
            assert(batch.issued() =~= self@.release_commands(before));
        }
        batch.commands
    }
}

/// The commands that declare a layout release nothing.
proof fn lemma_setup_releases_nothing(plan: MeshPlan, array: u32, vertices: u32, indices: u32)
    ensures
        forall|i: int|
            0 <= i < setup_commands(plan, array, vertices, indices).len() ==> released_by(
                #[trigger] setup_commands(plan, array, vertices, indices)[i],
            ) is None,
{
}

/// Filling a mesh leaves nothing bound and changes nothing else.
pub proof fn lemma_setup(
    context: ContextState,
    plan: MeshPlan,
    array: u32,
    vertices: u32,
    indices: u32,
)
    ensures
        context.run(setup_commands(plan, array, vertices, indices)) == (ContextState {
            array: 0,
            vertices: 0,
            indices: 0,
            ..context
        }),
        context.releases_only_live(setup_commands(plan, array, vertices, indices)),
{
    let none = Seq::<CommandView>::empty();
    let bind_array = CommandView::BindVertexArray { array };
    let bind_vertices = CommandView::BindBuffer { target: BufferTarget::Vertices, buffer: vertices };
    let load_vertices = CommandView::BufferData {
        target: BufferTarget::Vertices,
        bytes: plan.vertex_bytes,
    };
    let bind_indices = CommandView::BindBuffer { target: BufferTarget::Indices, buffer: indices };
    let load_indices = CommandView::BufferData {
        target: BufferTarget::Indices,
        bytes: plan.index_bytes,
    };
    let s1 = none.push(bind_array);
    let s2 = s1.push(bind_vertices);
    let s3 = s2.push(load_vertices);
    let s4 = s3.push(bind_indices);
    let head = s4.push(load_indices);
    lemma_run_push(context, none, bind_array);
    lemma_run_push(context, s1, bind_vertices);
    lemma_run_push(context, s2, load_vertices);
    lemma_run_push(context, s3, bind_indices);
    lemma_run_push(context, s4, load_indices);
    let declared = layout_commands(plan.layout@);
    lemma_run_inert(context.run(head), declared);
    let free_array = CommandView::BindVertexArray { array: 0 };
    let free_vertices = CommandView::BindBuffer { target: BufferTarget::Vertices, buffer: 0 };
    let free_indices = CommandView::BindBuffer { target: BufferTarget::Indices, buffer: 0 };
    let bound = context.run(head);
    let t1 = none.push(free_array);
    let t2 = t1.push(free_vertices);
    let tail = t2.push(free_indices);
    lemma_run_push(bound, none, free_array);
    lemma_run_push(bound, t1, free_vertices);
    lemma_run_push(bound, t2, free_indices);
    lemma_run_concat(context, head, declared);
    lemma_run_concat(context, head + declared, tail);
    assert(setup_commands(plan, array, vertices, indices) =~= head + declared + tail);
    lemma_setup_releases_nothing(plan, array, vertices, indices);
    lemma_run_keeps_live(context, setup_commands(plan, array, vertices, indices));
}

/// Every turn of the creation of a mesh is sound: whatever the state and
/// the reply, the turn adopts only a name that is new, releases nothing,
/// and leaves the state that its adoption and its commands lead to.
pub proof fn lemma_mesh_turn<V: Vertex>(build: MeshBuild<V>, context: ContextState, reply: Reply)
    ensures
        context.accounts_for(build.step(context, reply)),
{
    let turn = build.step(context, reply);
    let start = match turn.adopted {
        Some(handle) => context.adopt(handle),
        None => context,
    };
    match build.phase {
        MeshPhase::Indices { array, vertices } => {
            if MeshBuild::<V>::completes(context, array, vertices, reply.spec_handle()) {
                lemma_setup(start, build.plan, array, vertices, reply.spec_handle());
            } else {
                lemma_run_inert(start, turn.commands);
                lemma_run_keeps_live(start, turn.commands);
            }
        },
        _ => {
            lemma_run_inert(start, turn.commands);
            lemma_run_keeps_live(start, turn.commands);
        },
    }
}

/// A mesh lives from its creation to its destruction and leaves nothing
/// behind: for every state, every plan and every three names that the
/// driver may issue for new objects, the creation takes four turns, asks
/// for the three objects and fills them, and ends with a whole mesh of
/// three distinct named objects, which are live and are all that has become
/// live; nothing is left bound. Giving the mesh up then issues the three
/// deletions, after which the live objects are those from before the
/// creation.
pub proof fn lemma_mesh_lifecycle<V: Vertex>(
    context: ContextState,
    build: MeshBuild<V>,
    array: u32,
    vertices: u32,
    indices: u32,
)
    requires
        build.phase is Start,
        context.adoptable(array_handle(array)),
        context.adoptable(buffer_handle(vertices)),
        context.adoptable(buffer_handle(indices)),
        vertices != indices,
    ensures
        ({
            let first = build.step(context, Reply::Nothing);
            let second = first.verdict->Continue_0.step(first.context, Reply::Handle(array));
            let third = second.verdict->Continue_0.step(second.context, Reply::Handle(vertices));
            let fourth = third.verdict->Continue_0.step(third.context, Reply::Handle(indices));
            let created = fourth.context;
            let mesh = Mesh { array, vertices, indices, count: build.plan.count };
            let destroyed = created.run(mesh.release_commands(created));
            &&& first.verdict is Continue
            &&& second.verdict is Continue
            &&& third.verdict is Continue
            &&& fourth.verdict == Verdict::<MeshBuild<V>, Mesh>::Finish(mesh)
            &&& first.commands + second.commands + third.commands + fourth.commands == seq![
                CommandView::GenVertexArray,
                CommandView::GenBuffer,
                CommandView::GenBuffer,
            ] + setup_commands(build.plan, array, vertices, indices)
            &&& mesh.is_complete()
            &&& mesh.handles().finite()
            &&& mesh.handles().len() == 3
            &&& created == (ContextState {
                live: context.live.union(mesh.handles()),
                array: 0,
                vertices: 0,
                indices: 0,
                ..context
            })
            &&& mesh.release_commands(created) == seq![
                CommandView::DeleteVertexArray { array },
                CommandView::DeleteBuffer { buffer: vertices },
                CommandView::DeleteBuffer { buffer: indices },
            ]
            &&& destroyed == (ContextState { live: context.live, ..created })
        }),
{
    let first = build.step(context, Reply::Nothing);
    let second = first.verdict->Continue_0.step(first.context, Reply::Handle(array));
    let third = second.verdict->Continue_0.step(second.context, Reply::Handle(vertices));
    let fourth = third.verdict->Continue_0.step(third.context, Reply::Handle(indices));
    let created = fourth.context;
    assert(MeshBuild::<V>::completes(third.context, array, vertices, indices));
    let mesh = Mesh { array, vertices, indices, count: build.plan.count };
    assert(mesh.handles() =~= Set::<Handle>::empty().insert(array_handle(array)).insert(
        buffer_handle(vertices),
    ).insert(buffer_handle(indices)));
    assert(created.live =~= context.live.union(mesh.handles()));
    assert(first.commands + second.commands + third.commands + fourth.commands =~= seq![
        CommandView::GenVertexArray,
        CommandView::GenBuffer,
        CommandView::GenBuffer,
    ] + setup_commands(build.plan, array, vertices, indices));
    lemma_released_mesh(mesh, created);
    assert(mesh.handles().subset_of(created.live));
    assert(created.live.difference(mesh.handles()) =~= context.live);
    lemma_run_keeps_bindings(created, mesh.release_commands(created));
}

/// Deletions change nothing but what is live.
proof fn lemma_run_keeps_bindings(context: ContextState, commands: Seq<CommandView>)
    requires
        forall|i: int| 0 <= i < commands.len() ==> released_by(#[trigger] commands[i]) is Some,
    ensures
        context.run(commands) == (ContextState { live: context.run(commands).live, ..context }),
    decreases commands.len(),
{
    if commands.len() > 0 {
        lemma_run_keeps_bindings(context, commands.drop_last());
        assert(released_by(commands[commands.len() - 1]) is Some);
    }
}

/// A mesh that was created whole owns exactly three objects, each with a
/// name and each live: whatever the state before and whatever name the
/// driver issues last, the creation ends with a mesh, the mesh is whole
/// exactly if the last name could be adopted while the first two were live,
/// and a whole mesh has three distinct handles, none of them zero, all of
/// them live once it is created, the last one newly so. A creation that
/// does not end with a whole mesh changes nothing in its last turn.
pub proof fn lemma_created_mesh<V: Vertex>(build: MeshBuild<V>, context: ContextState, reply: Reply)
    requires
        build.phase is Indices,
    ensures
        ({
            let turn = build.step(context, reply);
            let mesh = turn.verdict->Finish_0;
            &&& turn.verdict is Finish
            &&& mesh.is_complete() <==> MeshBuild::<V>::completes(
                context,
                build.phase->Indices_array,
                build.phase->Indices_vertices,
                reply.spec_handle(),
            )
            &&& mesh.is_complete() ==> {
                &&& mesh.handles().finite()
                &&& mesh.handles().len() == 3
                &&& forall|handle: Handle| #[trigger]
                    mesh.handles().contains(handle) ==> handle.id != 0
                        && turn.context.live.contains(handle)
                &&& turn.context.live == context.live.insert(buffer_handle(reply.spec_handle()))
                &&& !context.live.contains(buffer_handle(reply.spec_handle()))
            }
            &&& !mesh.is_complete() ==> turn.context == context
        }),
{
    let turn = build.step(context, reply);
    let mesh = turn.verdict->Finish_0;
    let array = build.phase->Indices_array;
    let vertices = build.phase->Indices_vertices;
    let indices = reply.spec_handle();
    if MeshBuild::<V>::completes(context, array, vertices, indices) {
        assert(mesh.handles() =~= Set::<Handle>::empty().insert(array_handle(array)).insert(
            buffer_handle(vertices),
        ).insert(buffer_handle(indices)));
    }
}

/// A mesh that is given up leaves nothing behind: whatever the state and
/// whatever the mesh, whole or not, once the commands that release it are
/// carried out none of its names is live, everything else that was live
/// still is, each command released something that was live, and no object
/// was released twice. If the mesh is whole and all its objects are live,
/// the commands are the three deletions, in the order vertex array, vertex
/// buffer, index buffer.
pub proof fn lemma_released_mesh(mesh: Mesh, context: ContextState)
    ensures
        ({
            let commands = mesh.release_commands(context);
            let released = context.run(commands);
            &&& released.live == context.live.difference(mesh.handles())
            &&& forall|handle: Handle| #[trigger]
                mesh.handles().contains(handle) ==> !released.live.contains(handle)
            &&& context.releases_only_live(commands)
            &&& forall|first: int, second: int|
                0 <= first < second < commands.len() ==> released_by(commands[first])
                    != released_by(commands[second])
            &&& mesh.is_complete() && mesh.handles().subset_of(context.live) ==> commands == seq![
                CommandView::DeleteVertexArray { array: mesh.array },
                CommandView::DeleteBuffer { buffer: mesh.vertices },
                CommandView::DeleteBuffer { buffer: mesh.indices },
            ]
        }),
{
    let array = array_handle(mesh.array);
    let vertices = buffer_handle(mesh.vertices);
    let indices = buffer_handle(mesh.indices);
    let first = context.release_commands(array);
    let second = context.run(first).release_commands(vertices);
    let third = context.run(first).run(second).release_commands(indices);
    let commands = mesh.release_commands(context);
    lemma_release_commands(context, array);
    lemma_release_commands(context.run(first), vertices);
    lemma_release_commands(context.run(first).run(second), indices);
    lemma_run_concat(context, first, second);
    lemma_run_concat(context, first + second, third);
    lemma_releases_concat(context, first, second);
    lemma_releases_concat(context, first + second, third);
    assert(context.run(commands).live =~= context.live.difference(mesh.handles()));
    assert forall|one: int, other: int| 0 <= one < other < commands.len() implies released_by(
        commands[one],
    ) != released_by(commands[other]) by {
        assert(released_by(commands[one]) is Some);
        lemma_released_once(context, commands, one, other);
    }
    if mesh.is_complete() && mesh.handles().subset_of(context.live) {
        assert(mesh.handles().contains(array));
        assert(mesh.handles().contains(vertices));
        assert(mesh.handles().contains(indices));
        assert(commands =~= seq![
            CommandView::DeleteVertexArray { array: mesh.array },
            CommandView::DeleteBuffer { buffer: mesh.vertices },
            CommandView::DeleteBuffer { buffer: mesh.indices },
        ]);
    }
}

} // verus!
