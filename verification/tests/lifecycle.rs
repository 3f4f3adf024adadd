//! The operations of the core, carried out against a driver that only
//! keeps books.

use gpu_harness::command::{
    Attribute, BufferTarget, Command, ComponentKind, Handle, Hint, ObjectKind, Reply, StageKind,
    UniformKind,
};
use gpu_harness::context::GraphicsContext;
use gpu_harness::frame::{FrameLoop, FramePhase, Scene};
use gpu_harness::progress::Progress;
use gpu_harness::shader::{ProgramBuild, Shader, StageBuild, StageError, Uniform, UniformLookup};
use gpu_harness::util::{enable_debug_callback, version_query, version_string};
use gpu_harness::vertex::{MeshBuild, Vertex, VertexArray};
use gpu_harness::window::{Window, WindowBuild};

/// A driver that hands out names, remembers what it was told and answers
/// the way it was set up to.
struct Driver {
    /// The name the next object gets.
    next: u32,
    /// Names to hand out before counting on from `next`.
    names: Vec<u32>,
    /// The kinds of stage whose sources are rejected.
    rejected: Vec<StageKind>,
    /// The kind of each stage that was created.
    stages: Vec<(u32, StageKind)>,
    /// The log of a rejected stage.
    log: Vec<u8>,
    /// The uniforms of every program.
    uniforms: Vec<(String, i32)>,
    /// Whether a window can be created.
    windows: bool,
    /// The size of every framebuffer.
    framebuffer: (i32, i32),
    /// How many times the window is still said to stay open.
    frames: u32,
    /// Every command, in the order it came.
    performed: Vec<Command>,
    /// What was handed out and not deleted.
    live: Vec<Handle>,
    /// Every deletion of something that was not live.
    stray: Vec<Handle>,
}

impl Driver {
    fn new() -> Driver {
        Driver {
            next: 1,
            names: Vec::new(),
            rejected: Vec::new(),
            stages: Vec::new(),
            log: Vec::new(),
            uniforms: vec![(String::from("u_width"), 0), (String::from("u_height"), 1)],
            windows: true,
            framebuffer: (1280, 720),
            frames: 0,
            performed: Vec::new(),
            live: Vec::new(),
            stray: Vec::new(),
        }
    }

    fn name(&mut self, kind: ObjectKind) -> Reply {
        let id = if self.names.is_empty() {
            self.next += 1;
            self.next - 1
        } else {
            self.names.remove(0)
        };
        if id != 0 {
            self.live.push(Handle { kind, id });
        }
        Reply::Handle(id)
    }

    fn delete(&mut self, kind: ObjectKind, id: u32) -> Reply {
        let handle = Handle { kind, id };
        match self.live.iter().position(|held| *held == handle) {
            Some(at) => {
                self.live.remove(at);
            },
            None => self.stray.push(handle),
        }
        Reply::Nothing
    }

    fn perform(&mut self, command: &Command) -> Reply {
        self.performed.push(command.clone());
        match command {
            Command::CreateShader { kind } => {
                let reply = self.name(ObjectKind::Stage);
                if let Reply::Handle(id) = reply {
                    self.stages.push((id, *kind));
                }
                reply
            },
            Command::GetCompileStatus { stage } => {
                let kind = self.stages.iter().find(|held| held.0 == *stage).map(|held| held.1);
                Reply::Status(
                    match kind {
                        Some(kind) => !self.rejected.contains(&kind),
                        None => false,
                    },
                )
            },
            Command::GetInfoLogLength { .. } => Reply::Length(self.log.len() as i32),
            Command::GetInfoLog { capacity, .. } => {
                let mut log = self.log.clone();
                log.truncate(*capacity as usize);
                Reply::Bytes(log)
            },
            Command::CreateProgram => self.name(ObjectKind::Program),
            Command::GenVertexArray => self.name(ObjectKind::VertexArray),
            Command::GenBuffer => self.name(ObjectKind::Buffer),
            Command::DeleteShader { stage } => self.delete(ObjectKind::Stage, *stage),
            Command::DeleteProgram { program } => self.delete(ObjectKind::Program, *program),
            Command::DeleteBuffer { buffer } => self.delete(ObjectKind::Buffer, *buffer),
            Command::DeleteVertexArray { array } => self.delete(ObjectKind::VertexArray, *array),
            Command::GetUniformLocation { name, .. } => Reply::Location(
                match self.uniforms.iter().find(|held| held.0 == *name) {
                    Some(held) => held.1,
                    None => -1,
                },
            ),
            Command::GetVersion => Reply::Bytes(b"4.4.0 Bookkeeper\0".to_vec()),
            Command::CreateWindow { .. } => Reply::Handle(if self.windows { 7 } else { 0 }),
            Command::GetFramebufferSize { .. } => Reply::Size(self.framebuffer.0, self.framebuffer.1),
            Command::ShouldClose { .. } => {
                if self.frames == 0 {
                    Reply::Status(true)
                } else {
                    self.frames -= 1;
                    Reply::Status(false)
                }
            },
            _ => Reply::Nothing,
        }
    }

    fn carry_out(&mut self, commands: &[Command]) -> Reply {
        let mut reply = Reply::Nothing;
        for command in commands {
            reply = self.perform(command);
        }
        reply
    }

    fn count(&self, wanted: impl Fn(&Command) -> bool) -> usize {
        self.performed.iter().filter(|command| wanted(command)).count()
    }
}

/// An operation that proceeds in turns.
trait Machine: Sized {
    type Outcome;

    fn turn(self, context: &mut GraphicsContext, reply: &Reply) -> Progress<Self, Self::Outcome>;
}

impl Machine for StageBuild {
    type Outcome = Result<u32, StageError>;

    fn turn(self, context: &mut GraphicsContext, reply: &Reply) -> Progress<Self, Self::Outcome> {
        self.advance(context, reply)
    }
}

impl Machine for ProgramBuild {
    type Outcome = Shader;

    fn turn(self, context: &mut GraphicsContext, reply: &Reply) -> Progress<Self, Self::Outcome> {
        self.advance(context, reply)
    }
}

impl Machine for UniformLookup {
    type Outcome = Option<Uniform>;

    fn turn(self, context: &mut GraphicsContext, reply: &Reply) -> Progress<Self, Self::Outcome> {
        self.advance(context, reply)
    }
}

impl<V: Vertex> Machine for MeshBuild<V> {
    type Outcome = VertexArray<V>;

    fn turn(self, context: &mut GraphicsContext, reply: &Reply) -> Progress<Self, Self::Outcome> {
        self.advance(context, reply)
    }
}

impl<V: Vertex> Machine for FrameLoop<V> {
    type Outcome = Scene<V>;

    fn turn(self, context: &mut GraphicsContext, reply: &Reply) -> Progress<Self, Self::Outcome> {
        self.advance(context, reply)
    }
}

impl Machine for WindowBuild {
    type Outcome = Option<Window>;

    fn turn(self, context: &mut GraphicsContext, reply: &Reply) -> Progress<Self, Self::Outcome> {
        self.advance(context, reply)
    }
}

/// Takes the turns of `machine` until it is over, with `driver` carrying
/// out each batch.
fn drive<M: Machine>(driver: &mut Driver, context: &mut GraphicsContext, machine: M) -> M::Outcome {
    let mut machine = machine;
    let mut reply = Reply::Nothing;
    loop {
        match machine.turn(context, &reply) {
            Progress::Continue { machine: next, commands } => {
                reply = driver.carry_out(&commands);
                machine = next;
            },
            Progress::Finish { commands, outcome } => {
                driver.carry_out(&commands);
                return outcome;
            },
        }
    }
}

/// A driver and a context with one window open.
fn opened() -> (Driver, GraphicsContext, Window) {
    let mut driver = Driver::new();
    let mut context = GraphicsContext::new();
    let build = Window::builder().title("Rust OpenGL Test").resolution(1280, 720).build();
    let window = drive(&mut driver, &mut context, build).expect("a window");
    (driver, context, window)
}

#[allow(dead_code)]
struct Vec2 {
    x: f32,
    y: f32,
}

impl Vertex for Vec2 {
    fn define_vertex_attrib_pointers() -> Vec<Attribute> {
        vec![
            Attribute {
                index: 0,
                components: 2,
                kind: ComponentKind::Float,
                normalized: false,
                stride: 8,
                offset: 0,
            },
        ]
    }
}

fn quad() -> [Vec2; 4] {
    [
        Vec2 { x: -1.0, y: -1.0 },
        Vec2 { x: 1.0, y: -1.0 },
        Vec2 { x: 1.0, y: 1.0 },
        Vec2 { x: -1.0, y: 1.0 },
    ]
}

const VERT: &str = "#version 440 core\nvoid main() { gl_Position = vec4(0.0); }\n";

const FRAG: &str = "#version 440 core\nout vec4 color;\nvoid main() { color = vec4(1.0); }\n";

fn stage(id: u32) -> Handle {
    Handle { kind: ObjectKind::Stage, id }
}

fn program(id: u32) -> Handle {
    Handle { kind: ObjectKind::Program, id }
}

fn buffer(id: u32) -> Handle {
    Handle { kind: ObjectKind::Buffer, id }
}

fn array(id: u32) -> Handle {
    Handle { kind: ObjectKind::VertexArray, id }
}

#[test]
fn a_fresh_context_is_not_current_and_owns_nothing() {
    let context = GraphicsContext::new();
    assert!(!context.is_current());
    assert_eq!(context.program_in_use(), 0);
    assert_eq!(context.bound_array(), 0);
    assert_eq!(context.bound_buffer(BufferTarget::Vertices), 0);
    assert_eq!(context.bound_buffer(BufferTarget::Indices), 0);
    assert!(!context.owns(program(1)));
    assert!(!context.owns(program(0)));
}

#[test]
fn the_first_window_asks_for_hints_window_and_function_table() {
    let (driver, context, window) = opened();
    assert_eq!(window.id(), 7);
    assert!(context.is_current());
    assert_eq!(
        driver.performed,
        vec![
            Command::WindowHint { hint: Hint::Resizable(true) },
            Command::WindowHint { hint: Hint::ContextVersionMajor(4) },
            Command::WindowHint { hint: Hint::ContextVersionMinor(4) },
            Command::WindowHint { hint: Hint::CoreProfile },
            Command::CreateWindow {
                width: 1280,
                height: 720,
                title: String::from("Rust OpenGL Test"),
            },
            Command::DefaultWindowHints,
            Command::MakeCurrent { window: 7 },
            Command::SetSwapInterval { interval: 1 },
            Command::LoadFunctionTable { window: 7 },
        ]
    );
}

#[test]
fn a_builder_that_was_told_nothing_asks_for_the_defaults() {
    let mut driver = Driver::new();
    let mut context = GraphicsContext::new();
    let window = drive(&mut driver, &mut context, Window::builder().build());
    assert!(window.is_some());
    assert_eq!(driver.performed[0], Command::WindowHint { hint: Hint::Resizable(true) });
    assert_eq!(
        driver.performed[4],
        Command::CreateWindow { width: 160, height: 144, title: String::from("GuLag Window") }
    );
}

#[test]
fn a_builder_keeps_what_it_was_told_last() {
    let mut driver = Driver::new();
    let mut context = GraphicsContext::new();
    let build = Window::builder()
        .resizable(false)
        .title("first")
        .resolution(320, 200)
        .title("second")
        .resolution(640, 480)
        .build();
    drive(&mut driver, &mut context, build);
    assert_eq!(driver.performed[0], Command::WindowHint { hint: Hint::Resizable(false) });
    assert_eq!(
        driver.performed[4],
        Command::CreateWindow { width: 640, height: 480, title: String::from("second") }
    );
}

#[test]
fn two_windows_load_the_function_table_once() {
    let (mut driver, mut context, _first) = opened();
    let second = drive(&mut driver, &mut context, Window::builder().build());
    assert!(second.is_some());
    assert_eq!(driver.count(|command| matches!(command, Command::LoadFunctionTable { .. })), 1);
    assert_eq!(driver.count(|command| matches!(command, Command::MakeCurrent { .. })), 1);
    assert_eq!(driver.count(|command| matches!(command, Command::SetSwapInterval { .. })), 1);
    assert_eq!(driver.count(|command| matches!(command, Command::CreateWindow { .. })), 2);
    assert_eq!(driver.count(|command| matches!(command, Command::DefaultWindowHints)), 2);
    assert_eq!(driver.performed.last(), Some(&Command::DefaultWindowHints));
}

#[test]
fn a_window_that_cannot_be_created_leaves_the_context_as_it_was() {
    let mut driver = Driver::new();
    driver.windows = false;
    let mut context = GraphicsContext::new();
    let window = drive(&mut driver, &mut context, Window::builder().build());
    assert!(window.is_none());
    assert!(!context.is_current());
    assert_eq!(driver.performed.len(), 5);
    assert_eq!(driver.count(|command| matches!(command, Command::LoadFunctionTable { .. })), 0);
    driver.windows = true;
    let window = drive(&mut driver, &mut context, Window::builder().build());
    assert!(window.is_some());
    assert!(context.is_current());
    assert_eq!(driver.count(|command| matches!(command, Command::LoadFunctionTable { .. })), 1);
}

#[test]
fn a_stage_that_compiles_is_owned() {
    let (mut driver, mut context, _window) = opened();
    let before = driver.performed.len();
    let outcome = drive(&mut driver, &mut context, Shader::compile(StageKind::Vertex, VERT));
    assert_eq!(outcome, Ok(1));
    assert!(context.owns(stage(1)));
    assert_eq!(
        driver.performed[before..],
        [
            Command::CreateShader { kind: StageKind::Vertex },
            Command::ShaderSource { stage: 1, source: String::from(VERT) },
            Command::CompileShader { stage: 1 },
            Command::GetCompileStatus { stage: 1 },
        ]
    );
}

#[test]
fn a_stage_with_a_syntax_error_fails_and_its_log_is_printed_as_it_stands() {
    let (mut driver, mut context, _window) = opened();
    driver.rejected = vec![StageKind::Vertex];
    driver.log = b"0:1(1): error: syntax error, unexpected IDENTIFIER\n\0".to_vec();
    let before = driver.performed.len();
    let outcome = drive(
        &mut driver,
        &mut context,
        Shader::compile(StageKind::Vertex, "this is not a shader"),
    );
    assert_eq!(outcome, Err(StageError::Rejected));
    assert!(!context.owns(stage(1)));
    assert!(driver.live.is_empty());
    assert!(driver.stray.is_empty());
    assert_eq!(
        driver.performed[before..],
        [
            Command::CreateShader { kind: StageKind::Vertex },
            Command::ShaderSource { stage: 1, source: String::from("this is not a shader") },
            Command::CompileShader { stage: 1 },
            Command::GetCompileStatus { stage: 1 },
            Command::GetInfoLogLength { stage: 1 },
            Command::GetInfoLog { stage: 1, capacity: 52 },
            Command::Print {
                line: String::from(
                    "FAILED TO COMPILE. 0:1(1): error: syntax error, unexpected IDENTIFIER\n",
                ),
            },
            Command::DeleteShader { stage: 1 },
        ]
    );
}

#[test]
fn a_log_that_is_not_text_is_said_to_be_so() {
    let mut context = GraphicsContext::new();
    let mut driver = Driver::new();
    drive(&mut driver, &mut context, Window::builder().build());
    let progress = (StageBuild::Logged { stage: 9 }).advance(
        &mut context,
        &Reply::Bytes(vec![0xff, 0xfe, 0]),
    );
    match progress {
        Progress::Finish { commands, outcome } => {
            assert_eq!(outcome, Err(StageError::Rejected));
            assert_eq!(
                commands,
                vec![Command::Print { line: String::from("FAILED TO COMPILE. <log is not UTF-8>") }]
            );
        },
        Progress::Continue { .. } => panic!("the compilation goes on"),
    }
}

#[test]
fn a_negative_log_length_asks_for_no_room() {
    let mut context = GraphicsContext::new();
    let mut driver = Driver::new();
    drive(&mut driver, &mut context, Window::builder().build());
    let progress = (StageBuild::Measured { stage: 3 }).advance(&mut context, &Reply::Length(-5));
    match progress {
        Progress::Continue { commands, .. } => {
            assert_eq!(commands, vec![Command::GetInfoLog { stage: 3, capacity: 0 }]);
        },
        Progress::Finish { .. } => panic!("the compilation is over"),
    }
    let progress = (StageBuild::Measured { stage: 3 }).advance(&mut context, &Reply::Length(17));
    match progress {
        Progress::Continue { commands, .. } => {
            assert_eq!(commands, vec![Command::GetInfoLog { stage: 3, capacity: 17 }]);
        },
        Progress::Finish { .. } => panic!("the compilation is over"),
    }
}

#[test]
fn a_source_with_a_zero_character_is_refused_before_anything_is_sent() {
    let (mut driver, mut context, _window) = opened();
    let before = driver.performed.len();
    let outcome = drive(
        &mut driver,
        &mut context,
        Shader::compile(StageKind::Fragment, "void main() {\0}"),
    );
    assert_eq!(outcome, Err(StageError::Terminator));
    assert_eq!(
        driver.performed[before..],
        [Command::Print { line: String::from("FAILED TO COMPILE. <source holds a zero byte>") }]
    );
}

#[test]
fn a_stage_without_a_name_fails() {
    let (mut driver, mut context, _window) = opened();
    driver.names = vec![0];
    let outcome = drive(&mut driver, &mut context, Shader::compile(StageKind::Vertex, VERT));
    assert_eq!(outcome, Err(StageError::NoObject));
    let sent = driver.performed.len();
    assert_eq!(
        driver.performed[sent - 2..],
        [
            Command::CreateShader { kind: StageKind::Vertex },
            Command::Print { line: String::from("FAILED TO COMPILE. <no stage object>") },
        ]
    );
}

#[test]
fn a_stage_with_a_name_in_use_fails() {
    let (mut driver, mut context, _window) = opened();
    driver.names = vec![4, 4];
    assert_eq!(drive(&mut driver, &mut context, Shader::compile(StageKind::Vertex, VERT)), Ok(4));
    assert_eq!(
        drive(&mut driver, &mut context, Shader::compile(StageKind::Fragment, FRAG)),
        Err(StageError::NoObject)
    );
    assert!(context.owns(stage(4)));
}

#[test]
fn linking_and_selecting_leaves_the_program_in_use() {
    let (mut driver, mut context, _window) = opened();
    let before = driver.performed.len();
    let shader = drive(&mut driver, &mut context, Shader::simple(VERT, FRAG));
    assert_eq!(shader.handle(), 3);
    assert!(context.owns(program(3)));
    assert!(!context.owns(stage(1)));
    assert!(!context.owns(stage(2)));
    assert_eq!(driver.live, vec![program(3)]);
    assert!(driver.stray.is_empty());
    assert_eq!(
        driver.performed[before..],
        [
            Command::CreateShader { kind: StageKind::Vertex },
            Command::ShaderSource { stage: 1, source: String::from(VERT) },
            Command::CompileShader { stage: 1 },
            Command::GetCompileStatus { stage: 1 },
            Command::CreateShader { kind: StageKind::Fragment },
            Command::ShaderSource { stage: 2, source: String::from(FRAG) },
            Command::CompileShader { stage: 2 },
            Command::GetCompileStatus { stage: 2 },
            Command::CreateProgram,
            Command::AttachShader { program: 3, stage: 1 },
            Command::AttachShader { program: 3, stage: 2 },
            Command::LinkProgram { program: 3 },
            Command::ValidateProgram { program: 3 },
            Command::DeleteShader { stage: 1 },
            Command::DeleteShader { stage: 2 },
        ]
    );
    assert_eq!(context.program_in_use(), 0);
    let commands = shader.select(&mut context);
    assert_eq!(commands, vec![Command::UseProgram { program: 3 }]);
    assert_eq!(context.program_in_use(), 3);
}

#[test]
fn selecting_another_program_replaces_the_one_in_use() {
    let (mut driver, mut context, _window) = opened();
    let first = drive(&mut driver, &mut context, Shader::simple(VERT, FRAG));
    let second = drive(&mut driver, &mut context, Shader::simple(VERT, FRAG));
    assert_ne!(first.handle(), second.handle());
    first.select(&mut context);
    assert_eq!(context.program_in_use(), first.handle());
    second.select(&mut context);
    assert_eq!(context.program_in_use(), second.handle());
}

#[test]
fn a_program_whose_vertex_stage_fails_is_not_linked_and_leaks_nothing() {
    let (mut driver, mut context, _window) = opened();
    driver.rejected = vec![StageKind::Vertex];
    driver.log = b"bad vertex stage\0".to_vec();
    let shader = drive(&mut driver, &mut context, Shader::simple("oops", FRAG));
    assert_eq!(shader.handle(), 0);
    assert!(driver.live.is_empty());
    assert!(driver.stray.is_empty());
    assert_eq!(driver.count(|command| matches!(command, Command::CreateProgram)), 0);
    assert_eq!(driver.count(|command| matches!(command, Command::LinkProgram { .. })), 0);
    assert_eq!(
        driver.count(
            |command| *command == Command::Print {
                line: String::from("FAILED TO COMPILE. bad vertex stage"),
            },
        ),
        1
    );
    assert_eq!(driver.count(|command| matches!(command, Command::DeleteShader { .. })), 2);
}

#[test]
fn a_program_whose_fragment_stage_fails_releases_the_vertex_stage() {
    let (mut driver, mut context, _window) = opened();
    driver.rejected = vec![StageKind::Fragment];
    let shader = drive(&mut driver, &mut context, Shader::simple(VERT, "oops"));
    assert_eq!(shader.handle(), 0);
    assert!(driver.live.is_empty());
    assert!(driver.stray.is_empty());
    assert!(!context.owns(stage(1)));
    assert!(!context.owns(stage(2)));
    assert_eq!(driver.performed.last(), Some(&Command::DeleteShader { stage: 1 }));
}

#[test]
fn a_program_whose_sources_hold_zero_characters_sends_nothing_to_the_driver() {
    let (mut driver, mut context, _window) = opened();
    let before = driver.performed.len();
    let shader = drive(&mut driver, &mut context, Shader::simple("a\0b", "c\0d"));
    assert_eq!(shader.handle(), 0);
    assert_eq!(
        driver.performed[before..],
        [
            Command::Print { line: String::from("FAILED TO COMPILE. <source holds a zero byte>") },
            Command::Print { line: String::from("FAILED TO COMPILE. <source holds a zero byte>") },
        ]
    );
}

#[test]
fn a_program_without_a_name_releases_both_stages() {
    let (mut driver, mut context, _window) = opened();
    driver.names = vec![1, 2, 0];
    let shader = drive(&mut driver, &mut context, Shader::simple(VERT, FRAG));
    assert_eq!(shader.handle(), 0);
    assert!(driver.live.is_empty());
    assert!(driver.stray.is_empty());
    assert_eq!(driver.count(|command| matches!(command, Command::AttachShader { .. })), 0);
    let sent = driver.performed.len();
    assert_eq!(
        driver.performed[sent - 4..],
        [
            Command::CreateProgram,
            Command::Print { line: String::from("FAILED TO LINK. <no program object>") },
            Command::DeleteShader { stage: 1 },
            Command::DeleteShader { stage: 2 },
        ]
    );
}

#[test]
fn destroying_a_program_releases_it_once() {
    let (mut driver, mut context, _window) = opened();
    let shader = drive(&mut driver, &mut context, Shader::simple(VERT, FRAG));
    let commands = shader.destroy(&mut context);
    assert_eq!(commands, vec![Command::DeleteProgram { program: 3 }]);
    driver.carry_out(&commands);
    assert!(!context.owns(program(3)));
    assert!(driver.live.is_empty());
    assert!(driver.stray.is_empty());
}

#[test]
fn destroying_a_program_that_failed_releases_nothing() {
    let (mut driver, mut context, _window) = opened();
    driver.rejected = vec![StageKind::Vertex, StageKind::Fragment];
    let shader = drive(&mut driver, &mut context, Shader::simple(VERT, FRAG));
    assert_eq!(shader.handle(), 0);
    let commands = shader.destroy(&mut context);
    assert!(commands.is_empty());
    assert!(driver.stray.is_empty());
}

#[test]
fn a_uniform_of_the_program_is_found() {
    let (mut driver, mut context, _window) = opened();
    let shader = drive(&mut driver, &mut context, Shader::simple(VERT, FRAG));
    let slot = drive(&mut driver, &mut context, shader.uniform(UniformKind::Unsigned, "u_height"))
        .expect("a slot");
    assert_eq!(slot.location(), 1);
    assert_eq!(slot.program(), 3);
    assert_eq!(slot.kind(), UniformKind::Unsigned);
    assert_eq!(
        driver.performed.last(),
        Some(&Command::GetUniformLocation { program: 3, name: String::from("u_height") })
    );
}

#[test]
fn a_uniform_the_program_does_not_have_is_absent() {
    let (mut driver, mut context, _window) = opened();
    let shader = drive(&mut driver, &mut context, Shader::simple(VERT, FRAG));
    let slot = drive(
        &mut driver,
        &mut context,
        shader.uniform(UniformKind::Unsigned, "nonexistent_uniform"),
    );
    assert!(slot.is_none());
}

#[test]
fn a_location_below_zero_is_no_location() {
    let mut context = GraphicsContext::new();
    let mut driver = Driver::new();
    drive(&mut driver, &mut context, Window::builder().build());
    for location in [-1, -2, i32::MIN] {
        let asked = UniformLookup::Asked { program: 3, kind: UniformKind::Float };
        match asked.advance(&mut context, &Reply::Location(location)) {
            Progress::Finish { commands, outcome } => {
                assert!(commands.is_empty());
                assert!(outcome.is_none());
            },
            Progress::Continue { .. } => panic!("the lookup goes on"),
        }
    }
    let asked = UniformLookup::Asked { program: 3, kind: UniformKind::Float };
    match asked.advance(&mut context, &Reply::Nothing) {
        Progress::Finish { outcome, .. } => assert!(outcome.is_none()),
        Progress::Continue { .. } => panic!("the lookup goes on"),
    }
    let asked = UniformLookup::Asked { program: 3, kind: UniformKind::Float };
    match asked.advance(&mut context, &Reply::Location(0)) {
        Progress::Finish { outcome, .. } => assert_eq!(outcome.expect("a slot").location(), 0),
        Progress::Continue { .. } => panic!("the lookup goes on"),
    }
}

#[test]
fn a_uniform_name_with_a_zero_character_is_absent_and_not_asked_for() {
    let (mut driver, mut context, _window) = opened();
    let shader = drive(&mut driver, &mut context, Shader::simple(VERT, FRAG));
    let before = driver.performed.len();
    let slot = drive(&mut driver, &mut context, shader.uniform(UniformKind::Unsigned, "u_\0width"));
    assert!(slot.is_none());
    assert_eq!(driver.performed.len(), before);
}

#[test]
fn setting_a_uniform_selects_its_program_first() {
    let (mut driver, mut context, _window) = opened();
    let first = drive(&mut driver, &mut context, Shader::simple(VERT, FRAG));
    let second = drive(&mut driver, &mut context, Shader::simple(VERT, FRAG));
    let width = drive(&mut driver, &mut context, first.uniform(UniformKind::Unsigned, "u_width"))
        .expect("a slot");
    let scale = drive(&mut driver, &mut context, first.uniform(UniformKind::Float, "u_height"))
        .expect("a slot");
    second.select(&mut context);
    assert_eq!(context.program_in_use(), second.handle());
    assert_eq!(
        width.set(&mut context, 1280),
        vec![
            Command::UseProgram { program: first.handle() },
            Command::SetUniform { location: 0, kind: UniformKind::Unsigned, bits: 1280 },
        ]
    );
    assert_eq!(context.program_in_use(), first.handle());
    assert_eq!(
        scale.set(&mut context, 1.5f32.to_bits()),
        vec![
            Command::UseProgram { program: first.handle() },
            Command::SetUniform { location: 1, kind: UniformKind::Float, bits: 0x3fc0_0000 },
        ]
    );
}

#[test]
fn a_mesh_owns_three_distinct_objects_until_it_is_destroyed() {
    let (mut driver, mut context, _window) = opened();
    let vertices = quad();
    let indices = [0u32, 1, 2, 2, 3, 0];
    let before = driver.performed.len();
    let mesh = drive(
        &mut driver,
        &mut context,
        VertexArray::create(&vertices, &indices).expect("a mesh"),
    );
    assert!(mesh.is_complete());
    assert_eq!((mesh.array(), mesh.vertex_buffer(), mesh.index_buffer()), (1, 2, 3));
    assert_eq!(mesh.index_count(), 6);
    assert!(context.owns(array(1)));
    assert!(context.owns(buffer(2)));
    assert!(context.owns(buffer(3)));
    assert_eq!(driver.live, vec![array(1), buffer(2), buffer(3)]);
    assert_eq!(
        driver.performed[before..],
        [
            Command::GenVertexArray,
            Command::GenBuffer,
            Command::GenBuffer,
            Command::BindVertexArray { array: 1 },
            Command::BindBuffer { target: BufferTarget::Vertices, buffer: 2 },
            Command::BufferData { target: BufferTarget::Vertices, bytes: 32 },
            Command::BindBuffer { target: BufferTarget::Indices, buffer: 3 },
            Command::BufferData { target: BufferTarget::Indices, bytes: 24 },
            Command::EnableVertexAttribArray { index: 0 },
            Command::VertexAttribPointer {
                attribute: Attribute {
                    index: 0,
                    components: 2,
                    kind: ComponentKind::Float,
                    normalized: false,
                    stride: 8,
                    offset: 0,
                },
            },
            Command::BindVertexArray { array: 0 },
            Command::BindBuffer { target: BufferTarget::Vertices, buffer: 0 },
            Command::BindBuffer { target: BufferTarget::Indices, buffer: 0 },
        ]
    );
    assert_eq!(context.bound_array(), 0);
    assert_eq!(context.bound_buffer(BufferTarget::Vertices), 0);
    assert_eq!(context.bound_buffer(BufferTarget::Indices), 0);
    let commands = mesh.destroy(&mut context);
    assert_eq!(
        commands,
        vec![
            Command::DeleteVertexArray { array: 1 },
            Command::DeleteBuffer { buffer: 2 },
            Command::DeleteBuffer { buffer: 3 },
        ]
    );
    driver.carry_out(&commands);
    assert!(!context.owns(array(1)));
    assert!(!context.owns(buffer(2)));
    assert!(!context.owns(buffer(3)));
    assert!(driver.live.is_empty());
    assert!(driver.stray.is_empty());
}

#[test]
fn names_of_different_kinds_may_coincide() {
    let (mut driver, mut context, _window) = opened();
    driver.names = vec![5, 5, 6];
    let mesh = drive(
        &mut driver,
        &mut context,
        VertexArray::<Vec2>::create(&quad(), &[0, 1, 2]).expect("a mesh"),
    );
    assert!(mesh.is_complete());
    assert_eq!((mesh.array(), mesh.vertex_buffer(), mesh.index_buffer()), (5, 5, 6));
    assert!(context.owns(array(5)));
    assert!(context.owns(buffer(5)));
    assert!(context.owns(buffer(6)));
    driver.carry_out(&mesh.destroy(&mut context));
    assert!(driver.live.is_empty());
    assert!(driver.stray.is_empty());
}

#[test]
fn a_mesh_of_nothing_holds_buffers_of_no_bytes() {
    let (mut driver, mut context, _window) = opened();
    let vertices: [Vec2; 0] = [];
    let indices: [u32; 0] = [];
    let mesh = drive(
        &mut driver,
        &mut context,
        VertexArray::create(&vertices, &indices).expect("a mesh"),
    );
    assert!(mesh.is_complete());
    assert_eq!(mesh.index_count(), 0);
    assert_eq!(
        driver.count(
            |command| *command == Command::BufferData { target: BufferTarget::Vertices, bytes: 0 },
        ),
        1
    );
    assert_eq!(
        driver.count(
            |command| *command == Command::BufferData { target: BufferTarget::Indices, bytes: 0 },
        ),
        1
    );
}

#[test]
fn a_mesh_that_fails_on_its_first_name_owns_nothing() {
    let (mut driver, mut context, _window) = opened();
    driver.names = vec![0];
    let before = driver.performed.len();
    let mesh = drive(
        &mut driver,
        &mut context,
        VertexArray::<Vec2>::create(&quad(), &[0, 1, 2]).expect("a mesh"),
    );
    assert!(!mesh.is_complete());
    assert_eq!((mesh.array(), mesh.vertex_buffer(), mesh.index_buffer()), (0, 0, 0));
    assert_eq!(
        driver.performed[before..],
        [
            Command::GenVertexArray,
            Command::Print { line: String::from("FAILED TO CREATE MESH. <no object>") },
        ]
    );
    assert!(mesh.destroy(&mut context).is_empty());
}

#[test]
fn a_mesh_that_fails_partway_releases_what_it_has_once() {
    let (mut driver, mut context, _window) = opened();
    driver.names = vec![1, 2, 2];
    let before = driver.performed.len();
    let mesh = drive(
        &mut driver,
        &mut context,
        VertexArray::<Vec2>::create(&quad(), &[0, 1, 2]).expect("a mesh"),
    );
    assert!(!mesh.is_complete());
    assert_eq!((mesh.array(), mesh.vertex_buffer(), mesh.index_buffer()), (1, 2, 0));
    assert_eq!(
        driver.performed[before..],
        [
            Command::GenVertexArray,
            Command::GenBuffer,
            Command::GenBuffer,
            Command::Print { line: String::from("FAILED TO CREATE MESH. <no object>") },
        ]
    );
    let commands = mesh.destroy(&mut context);
    assert_eq!(
        commands,
        vec![Command::DeleteVertexArray { array: 1 }, Command::DeleteBuffer { buffer: 2 }]
    );
    assert!(!context.owns(array(1)));
    assert!(!context.owns(buffer(2)));
}

#[test]
fn a_mesh_that_fails_on_its_second_name_keeps_its_array_until_destroyed() {
    let (mut driver, mut context, _window) = opened();
    driver.names = vec![4, 0];
    let mesh = drive(
        &mut driver,
        &mut context,
        VertexArray::<Vec2>::create(&quad(), &[0, 1, 2]).expect("a mesh"),
    );
    assert_eq!((mesh.array(), mesh.vertex_buffer(), mesh.index_buffer()), (4, 0, 0));
    assert!(context.owns(array(4)));
    assert_eq!(mesh.destroy(&mut context), vec![Command::DeleteVertexArray { array: 4 }]);
    assert!(!context.owns(array(4)));
}

#[test]
fn a_layout_of_several_attributes_is_declared_in_order() {
    let (_driver, mut context, _window) = opened();
    let position = Attribute {
        index: 0,
        components: 3,
        kind: ComponentKind::Float,
        normalized: false,
        stride: 16,
        offset: 0,
    };
    let colour = Attribute {
        index: 1,
        components: 4,
        kind: ComponentKind::UnsignedInt,
        normalized: true,
        stride: 16,
        offset: 12,
    };
    let build = MeshBuild::<Vec2>::new(48, 12, 3, vec![position, colour]);
    let build = match build.advance(&mut context, &Reply::Nothing) {
        Progress::Continue { machine, .. } => machine,
        Progress::Finish { .. } => panic!("over at once"),
    };
    let build = match build.advance(&mut context, &Reply::Handle(1)) {
        Progress::Continue { machine, .. } => machine,
        Progress::Finish { .. } => panic!("over after one name"),
    };
    let build = match build.advance(&mut context, &Reply::Handle(1)) {
        Progress::Continue { machine, .. } => machine,
        Progress::Finish { .. } => panic!("over after two names"),
    };
    match build.advance(&mut context, &Reply::Handle(2)) {
        Progress::Finish { commands, outcome } => {
            assert!(outcome.is_complete());
            assert_eq!(
                commands[2..9],
                [
                    Command::BufferData { target: BufferTarget::Vertices, bytes: 48 },
                    Command::BindBuffer { target: BufferTarget::Indices, buffer: 2 },
                    Command::BufferData { target: BufferTarget::Indices, bytes: 12 },
                    Command::EnableVertexAttribArray { index: 0 },
                    Command::VertexAttribPointer { attribute: position },
                    Command::EnableVertexAttribArray { index: 1 },
                    Command::VertexAttribPointer { attribute: colour },
                ]
            );
            assert_eq!(commands.len(), 12);
        },
        Progress::Continue { .. } => panic!("not over after three names"),
    }
}

#[test]
fn selecting_a_mesh_binds_its_array_and_its_indices() {
    let (mut driver, mut context, _window) = opened();
    let mesh = drive(
        &mut driver,
        &mut context,
        VertexArray::<Vec2>::create(&quad(), &[0, 1, 2]).expect("a mesh"),
    );
    assert_eq!(
        mesh.select(&mut context),
        vec![
            Command::BindVertexArray { array: 1 },
            Command::BindBuffer { target: BufferTarget::Indices, buffer: 3 },
        ]
    );
    assert_eq!(context.bound_array(), 1);
    assert_eq!(context.bound_buffer(BufferTarget::Indices), 3);
    assert_eq!(context.bound_buffer(BufferTarget::Vertices), 0);
}

#[test]
fn the_first_frame_draws_six_indices_once() {
    let (mut driver, mut context, mut window) = opened();
    let shader = drive(&mut driver, &mut context, Shader::simple(VERT, FRAG));
    let width = drive(&mut driver, &mut context, shader.uniform(UniformKind::Unsigned, "u_width"))
        .expect("a slot");
    let height = drive(
        &mut driver,
        &mut context,
        shader.uniform(UniformKind::Unsigned, "u_height"),
    ).expect("a slot");
    let mesh = drive(
        &mut driver,
        &mut context,
        VertexArray::create(&quad(), &[0, 1, 2, 2, 3, 0]).expect("a mesh"),
    );
    let before = driver.performed.len();
    let framebuffer = (1280, 720);
    driver.carry_out(&window.clear(&mut context, framebuffer));
    let size = window.size(framebuffer);
    assert_eq!(size, (1280, 720));
    driver.carry_out(&width.set(&mut context, size.0));
    driver.carry_out(&height.set(&mut context, size.1));
    driver.carry_out(&window.draw(&mut context, &mesh, &shader));
    driver.carry_out(&window.swap());
    assert_eq!(
        driver.performed[before..],
        [
            Command::Viewport { width: 1280, height: 720 },
            Command::ClearColorBuffer,
            Command::UseProgram { program: 3 },
            Command::SetUniform { location: 0, kind: UniformKind::Unsigned, bits: 1280 },
            Command::UseProgram { program: 3 },
            Command::SetUniform { location: 1, kind: UniformKind::Unsigned, bits: 720 },
            Command::BindVertexArray { array: 4 },
            Command::BindBuffer { target: BufferTarget::Indices, buffer: 6 },
            Command::UseProgram { program: 3 },
            Command::DrawTriangles { count: 6 },
            Command::SwapBuffers { window: 7 },
            Command::PollEvents,
        ]
    );
    assert_eq!(driver.count(|command| matches!(command, Command::DrawTriangles { .. })), 1);
    assert_eq!(context.program_in_use(), 3);
    assert_eq!(context.bound_array(), 4);
    assert_eq!(context.bound_buffer(BufferTarget::Indices), 6);
}

/// A scene of a quad, on a driver with one window open.
fn staged() -> (Driver, GraphicsContext, Scene<Vec2>) {
    let (mut driver, mut context, window) = opened();
    let shader = drive(&mut driver, &mut context, Shader::simple(VERT, FRAG));
    let width = drive(&mut driver, &mut context, shader.uniform(UniformKind::Unsigned, "u_width"))
        .expect("a slot");
    let height = drive(
        &mut driver,
        &mut context,
        shader.uniform(UniformKind::Unsigned, "u_height"),
    ).expect("a slot");
    let mesh = drive(
        &mut driver,
        &mut context,
        VertexArray::create(&quad(), &[0, 1, 2, 2, 3, 0]).expect("a mesh"),
    );
    (driver, context, Scene { window, mesh, shader, width, height })
}

#[test]
fn the_frame_driver_draws_until_the_window_is_closed() {
    let (mut driver, mut context, scene) = staged();
    driver.frames = 3;
    let before = driver.performed.len();
    let scene = drive(&mut driver, &mut context, FrameLoop::new(scene));
    assert_eq!(driver.count(|command| matches!(command, Command::DrawTriangles { .. })), 3);
    assert_eq!(driver.count(|command| matches!(command, Command::SwapBuffers { .. })), 3);
    assert_eq!(driver.count(|command| matches!(command, Command::PollEvents)), 3);
    assert_eq!(driver.count(|command| matches!(command, Command::ShouldClose { .. })), 4);
    assert_eq!(driver.count(|command| matches!(command, Command::GetFramebufferSize { .. })), 3);
    assert_eq!(
        driver.performed[before..before + 15],
        [
            Command::ShouldClose { window: 7 },
            Command::GetFramebufferSize { window: 7 },
            Command::Viewport { width: 1280, height: 720 },
            Command::ClearColorBuffer,
            Command::UseProgram { program: 3 },
            Command::SetUniform { location: 0, kind: UniformKind::Unsigned, bits: 1280 },
            Command::UseProgram { program: 3 },
            Command::SetUniform { location: 1, kind: UniformKind::Unsigned, bits: 720 },
            Command::BindVertexArray { array: 4 },
            Command::BindBuffer { target: BufferTarget::Indices, buffer: 6 },
            Command::UseProgram { program: 3 },
            Command::DrawTriangles { count: 6 },
            Command::SwapBuffers { window: 7 },
            Command::PollEvents,
            Command::ShouldClose { window: 7 },
        ]
    );
    assert_eq!(driver.performed.len(), before + 1 + 3 * 14);
    assert_eq!(context.program_in_use(), 3);
    assert_eq!(context.bound_array(), 4);
    assert_eq!(scene.window.id(), 7);
    assert_eq!(scene.shader.handle(), 3);
    driver.carry_out(&scene.mesh.destroy(&mut context));
    driver.carry_out(&scene.shader.destroy(&mut context));
    assert!(driver.live.is_empty());
    assert!(driver.stray.is_empty());
}

#[test]
fn the_frame_driver_draws_nothing_for_a_window_that_is_closed_at_once() {
    let (mut driver, mut context, scene) = staged();
    let before = driver.performed.len();
    drive(&mut driver, &mut context, FrameLoop::new(scene));
    assert_eq!(driver.performed[before..], [Command::ShouldClose { window: 7 }]);
}

#[test]
fn a_frame_follows_the_size_of_the_framebuffer() {
    let (_driver, mut context, scene) = staged();
    let measured = FrameLoop { scene, phase: FramePhase::Measured };
    match measured.advance(&mut context, &Reply::Size(2560, 1440)) {
        Progress::Continue { machine, commands } => {
            assert!(matches!(machine.phase, FramePhase::Polled));
            assert_eq!(commands[0], Command::Viewport { width: 2560, height: 1440 });
            assert_eq!(
                commands[3],
                Command::SetUniform { location: 0, kind: UniformKind::Unsigned, bits: 2560 }
            );
            assert_eq!(
                commands[5],
                Command::SetUniform { location: 1, kind: UniformKind::Unsigned, bits: 1440 }
            );
            assert_eq!(commands.len(), 13);
        },
        Progress::Finish { .. } => panic!("the driver is over"),
    }
}

#[test]
fn a_window_that_is_destroyed_leaves_the_context_current() {
    let (mut driver, mut context, first) = opened();
    assert_eq!(first.destroy(), vec![Command::DestroyWindow { window: 7 }]);
    assert!(context.is_current());
    let second = drive(&mut driver, &mut context, Window::builder().build());
    assert!(second.is_some());
    assert_eq!(driver.count(|command| matches!(command, Command::LoadFunctionTable { .. })), 1);
}

#[test]
fn a_window_is_asked_about_by_its_name() {
    let (_driver, _context, window) = opened();
    assert_eq!(window.close_query(), Command::ShouldClose { window: 7 });
    assert_eq!(window.size_query(), Command::GetFramebufferSize { window: 7 });
    assert!(window.should_close(&Reply::Status(true)));
    assert!(!window.should_close(&Reply::Status(false)));
    assert!(!window.should_close(&Reply::Nothing));
}

#[test]
fn a_size_keeps_its_bit_pattern() {
    let (_driver, _context, window) = opened();
    assert_eq!(window.size((0, 0)), (0, 0));
    assert_eq!(window.size((2560, 1440)), (2560, 1440));
    assert_eq!(window.size((i32::MAX, 1)), (2147483647, 1));
    assert_eq!(window.size((-1, i32::MIN)), (4294967295, 2147483648));
}

#[test]
fn the_debug_reporter_is_switched_on_with_two_commands() {
    let (_driver, mut context, _window) = opened();
    assert_eq!(
        enable_debug_callback(&mut context),
        vec![Command::EnableDebugOutput, Command::InstallDebugCallback]
    );
}

#[test]
fn the_version_is_the_text_before_the_terminator() {
    let mut driver = Driver::new();
    assert_eq!(version_query(), Command::GetVersion);
    let reply = driver.perform(&version_query());
    assert_eq!(version_string(&reply), Some(String::from("4.4.0 Bookkeeper")));
    assert_eq!(version_string(&Reply::Bytes(vec![0xc3, 0x28])), None);
    assert_eq!(version_string(&Reply::Nothing), Some(String::new()));
}

#[test]
fn a_reply_of_another_kind_carries_the_sentinel() {
    assert_eq!(Reply::Status(true).handle(), 0);
    assert_eq!(Reply::Handle(9).handle(), 9);
    assert!(!Reply::Handle(1).status());
    assert!(Reply::Status(true).status());
    assert_eq!(Reply::Nothing.length(), 0);
    assert_eq!(Reply::Length(12).length(), 12);
    assert_eq!(Reply::Nothing.location(), -1);
    assert_eq!(Reply::Location(4).location(), 4);
    assert_eq!(Reply::Nothing.size(), (0, 0));
    assert_eq!(Reply::Size(3, 4).size(), (3, 4));
    assert!(Reply::Nothing.bytes().is_empty());
    assert_eq!(Reply::Bytes(vec![1, 2]).bytes(), [1, 2]);
}
