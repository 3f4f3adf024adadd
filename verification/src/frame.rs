//! The frame driver: what is drawn, frame after frame, until the user asks
//! for the window to be closed.

use vstd::prelude::*;
use crate::command::{lemma_views_concat, views, Command, CommandView, Reply};
use crate::context::{
    lemma_run_concat, lemma_run_inert, lemma_run_keeps_live, lemma_run_push, Batch, ContextState,
    GraphicsContext,
};
use crate::progress::{Progress, Turn, Verdict};
use crate::shader::{Shader, Uniform};
use crate::vertex::{Vertex, VertexArray};
use crate::window::{reinterpret, Window};

verus! {

/// What is drawn and where: a window, the mesh and the program to draw it
/// with, and the two uniforms of the program that are fed the size of the
/// framebuffer.
pub struct Scene<V: Vertex> {
    pub window: Window,
    pub mesh: VertexArray<V>,
    pub shader: Shader,
    pub width: Uniform,
    pub height: Uniform,
}

/// What the frame driver waits for.
pub enum FramePhase {
    /// Nothing was sent yet.
    Start,
    /// Whether the window is to be closed.
    Polled,
    /// The size of the framebuffer.
    Measured,
}

/// The drawing of a scene, between two turns.
pub struct FrameLoop<V: Vertex> {
    pub scene: Scene<V>,
    pub phase: FramePhase,
}

impl<V: Vertex> Scene<V> {
    /// Whether the scene can be drawn: its mesh is whole and its program
    /// was built.
    pub open spec fn drawable(self) -> bool {
        self.mesh@.is_complete() && self.shader.is_ready()
    }

    /// The commands of one frame on a framebuffer of the given size: the
    /// frame is begun, the two uniforms are fed the width and the height,
    /// the mesh is drawn, and the frame is ended.
    pub open spec fn frame_commands(self, width: i32, height: i32) -> Seq<CommandView> {
        Window::clear_commands(width, height) + Uniform::set_commands(
            self.width@,
            reinterpret(width),
        ) + Uniform::set_commands(self.height@, reinterpret(height)) + Window::draw_commands(
            self.mesh@,
            self.shader.spec_handle(),
        ) + Window::swap_commands(self.window.spec_id())
    }
}

impl<V: Vertex> FrameLoop<V> {
    /// What the next turn amounts to, given the state of the context and
    /// the reply to the turn before. The driver asks whether the window is
    /// to be closed; if so, it ends and hands the scene back; if not, it
    /// asks for the size of the framebuffer, draws one frame of that size,
    /// which leaves the mesh bound and the program in use, and asks again.
    pub open spec fn step(self, context: ContextState, reply: Reply) -> Turn<
        FrameLoop<V>,
        Scene<V>,
    > {
        let window = self.scene.window.spec_id();
        match self.phase {
            FramePhase::Start => Turn {
                adopted: None,
                commands: seq![CommandView::ShouldClose { window }],
                context,
                verdict: Verdict::Continue(FrameLoop { phase: FramePhase::Polled, ..self }),
            },
            FramePhase::Polled => if reply.spec_status() {
                Turn {
                    adopted: None,
                    commands: Seq::empty(),
                    context,
                    verdict: Verdict::Finish(self.scene),
                }
            } else {
                Turn {
                    adopted: None,
                    commands: seq![CommandView::GetFramebufferSize { window }],
                    context,
                    verdict: Verdict::Continue(FrameLoop { phase: FramePhase::Measured, ..self }),
                }
            },
            FramePhase::Measured => Turn {
                adopted: None,
                commands: self.scene.frame_commands(reply.spec_size().0, reply.spec_size().1).push(
                    CommandView::ShouldClose { window },
                ),
                context: ContextState {
                    array: self.scene.mesh@.array,
                    indices: self.scene.mesh@.indices,
                    program: self.scene.shader.spec_handle(),
                    ..context
                },
                verdict: Verdict::Continue(FrameLoop { phase: FramePhase::Polled, ..self }),
            },
        }
    }

    /// The driver of `scene`, with nothing sent yet.
    pub fn new(scene: Scene<V>) -> (driver: FrameLoop<V>)
        ensures
            driver.scene == scene,
            driver.phase == FramePhase::Start,
    {
        FrameLoop { scene, phase: FramePhase::Start }
    }

    /// Takes the next turn of the driver.
    ///
    /// The first turn takes any reply; each later one takes the answer to
    /// the last command of the turn before. When a frame was drawn, the
    /// mesh of the scene is bound and its program is in use; nothing is
    /// created and nothing released.
    pub fn advance(self, context: &mut GraphicsContext, reply: &Reply) -> (progress: Progress<
        FrameLoop<V>,
        Scene<V>,
    >)
        requires
            old(context)@.loaded,
            self.scene.drawable(),
        ensures
            progress.carries_out(self.step(old(context)@, *reply)),
            final(context)@ == self.step(old(context)@, *reply).context,
            old(context)@.accounts_for(self.step(old(context)@, *reply)),
            final(context)@.loaded,
    {
        let ghost turn = self.step(context@, *reply);
        let ghost before = context@;
        let FrameLoop { scene, phase } = self;
        let window = scene.window.id();
        match phase {
            FramePhase::Start => {
                let mut batch = Batch::begin(context);
                batch.issue(context, scene.window.close_query());
                proof {
                    assert(batch.issued() =~= turn.commands);
                }
                Progress::Continue {
                    machine: FrameLoop { scene, phase: FramePhase::Polled },
                    commands: batch.commands,
                }
            },
            FramePhase::Polled => {
                let mut batch = Batch::begin(context);
                if scene.window.should_close(reply) {
                    Progress::Finish { commands: batch.commands, outcome: scene }
                } else {
                    batch.issue(context, scene.window.size_query());
                    proof {
                        assert(batch.issued() =~= turn.commands);
                    }
                    Progress::Continue {
                        machine: FrameLoop { scene, phase: FramePhase::Measured },
                        commands: batch.commands,
                    }
                }
            },
            FramePhase::Measured => {
                let mut scene = scene;
                let framebuffer = reply.size();
                let size = scene.window.size(framebuffer);
                let mut commands = scene.window.clear(context, framebuffer);
                let ghost cleared = views(commands@);
                let mut more = scene.width.set(context, size.0);
                let ghost widened = views(more@);
                proof {
                    lemma_views_concat(commands@, more@);
                    lemma_run_concat(before, cleared, widened);
                }
                commands.append(&mut more);
                let mut more = scene.height.set(context, size.1);
                let ghost heightened = views(more@);
                proof {
                    lemma_views_concat(commands@, more@);
                    lemma_run_concat(before, cleared + widened, heightened);
                }
                commands.append(&mut more);
                let mut more = scene.window.draw(context, &scene.mesh, &scene.shader);
                let ghost drawn = views(more@);
                proof {
                    lemma_views_concat(commands@, more@);
                    lemma_run_concat(before, cleared + widened + heightened, drawn);
                }
                commands.append(&mut more);
                let mut more = scene.window.swap();
                let ghost swapped = views(more@);
                proof {
                    lemma_views_concat(commands@, more@);
                    lemma_inert(context@, swapped);
                    lemma_run_concat(before, cleared + widened + heightened + drawn, swapped);
                }
                commands.append(&mut more);
                let ghost frame = views(commands@);
                proof {
                    lemma_run_push(
                        before,
                        frame,
                        CommandView::ShouldClose { window },
                    );
                }
                let query = scene.window.close_query();
                proof {
                    lemma_run_keeps_live(before, turn.commands);
                    crate::command::lemma_views_push(commands@, query);
                }
                commands.push(query);
                Progress::Continue {
                    machine: FrameLoop { scene, phase: FramePhase::Polled },
                    commands,
                }
            },
        }
    }
}

/// Every turn of the frame driver is sound: whatever the state and the
/// reply, the turn adopts and releases nothing and leaves the state that
/// its commands lead to.
pub proof fn lemma_frame_turn<V: Vertex>(driver: FrameLoop<V>, context: ContextState, reply: Reply)
    ensures
        context.accounts_for(driver.step(context, reply)),
{
    let turn = driver.step(context, reply);
    match driver.phase {
        FramePhase::Measured => {
            let size = reply.spec_size();
            let frame = driver.scene.frame_commands(size.0, size.1);
            lemma_frame_draws_once(context, driver.scene, size.0, size.1);
            lemma_run_push(
                context,
                frame,
                CommandView::ShouldClose { window: driver.scene.window.spec_id() },
            );
            lemma_run_keeps_live(context, turn.commands);
        },
        _ => {
            lemma_run_inert(context, turn.commands);
            lemma_run_keeps_live(context, turn.commands);
        },
    }
}

/// A frame draws once, with everything in place: whatever the state, the
/// scene and the size of the framebuffer, exactly one command of a frame is
/// a draw; it draws all the indices of the mesh, and when its turn comes
/// the vertex array and the index buffer of the mesh are bound and the
/// program of the scene is in use, with both uniforms fed before it.
pub proof fn lemma_frame_draws_once<V: Vertex>(
    context: ContextState,
    scene: Scene<V>,
    width: i32,
    height: i32,
)
    ensures
        ({
            let commands = scene.frame_commands(width, height);
            let ready = context.run(commands.subrange(0, 9));
            &&& commands.len() == 12
            &&& commands[9] == (CommandView::DrawTriangles { count: scene.mesh@.count })
            &&& forall|i: int| 0 <= i < 12 && i != 9 ==> !(#[trigger] commands[i] is DrawTriangles)
            &&& commands[3] == (CommandView::SetUniform {
                location: scene.width@.location,
                kind: scene.width@.kind,
                bits: reinterpret(width),
            })
            &&& commands[5] == (CommandView::SetUniform {
                location: scene.height@.location,
                kind: scene.height@.kind,
                bits: reinterpret(height),
            })
            &&& ready == (ContextState {
                array: scene.mesh@.array,
                indices: scene.mesh@.indices,
                program: scene.shader.spec_handle(),
                ..context
            })
            &&& context.run(commands) == ready
        }),
{
    let commands = scene.frame_commands(width, height);
    let none = Seq::<CommandView>::empty();
    let s1 = none.push(commands[0]);
    let s2 = s1.push(commands[1]);
    let s3 = s2.push(commands[2]);
    let s4 = s3.push(commands[3]);
    let s5 = s4.push(commands[4]);
    let s6 = s5.push(commands[5]);
    let s7 = s6.push(commands[6]);
    let s8 = s7.push(commands[7]);
    let s9 = s8.push(commands[8]);
    let s10 = s9.push(commands[9]);
    let s11 = s10.push(commands[10]);
    let s12 = s11.push(commands[11]);
    lemma_run_push(context, none, commands[0]);
    lemma_run_push(context, s1, commands[1]);
    lemma_run_push(context, s2, commands[2]);
    lemma_run_push(context, s3, commands[3]);
    lemma_run_push(context, s4, commands[4]);
    lemma_run_push(context, s5, commands[5]);
    lemma_run_push(context, s6, commands[6]);
    lemma_run_push(context, s7, commands[7]);
    lemma_run_push(context, s8, commands[8]);
    lemma_run_push(context, s9, commands[9]);
    lemma_run_push(context, s10, commands[10]);
    lemma_run_push(context, s11, commands[11]);
    assert(commands.subrange(0, 9) =~= s9);
    assert(commands =~= s12);
}

/// The commands that end a frame leave the context as it is.
proof fn lemma_inert(context: ContextState, commands: Seq<CommandView>)
    requires
        exists|window: u32| commands == Window::swap_commands(window),
    ensures
        context.run(commands) == context,
{
    let window = choose|window: u32| commands == Window::swap_commands(window);
    let none = Seq::<CommandView>::empty();
    let swapped = none.push(CommandView::SwapBuffers { window });
    lemma_run_push(context, none, CommandView::SwapBuffers { window });
    lemma_run_push(context, swapped, CommandView::PollEvents);
    assert(commands =~= swapped.push(CommandView::PollEvents));
}

} // verus!
