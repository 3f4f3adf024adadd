//! The vocabulary shared by the verified core and the shell that talks to
//! the graphics driver and the windowing backend.
//!
//! The core never touches the driver. Every operation decides which
//! [`Command`]s have to be carried out and in which order; the shell performs
//! them one after the other and hands the driver's answer to the last one
//! back as a [`Reply`].

use vstd::prelude::*;

verus! {

/// The two kinds of shader stage that a program is linked from.
#[derive(Clone, Copy, PartialEq, Eq, Structural, Debug)]
pub enum StageKind {
    Vertex,
    Fragment,
}

/// The two binding points for buffer objects that a mesh uses.
#[derive(Clone, Copy, PartialEq, Eq, Structural, Debug)]
pub enum BufferTarget {
    /// Vertex data (the driver's array-buffer binding).
    Vertices,
    /// Index data (the driver's element-array-buffer binding).
    Indices,
}

/// The kinds of driver object that the core keeps track of.
#[derive(Clone, Copy, PartialEq, Eq, Structural, Debug)]
pub enum ObjectKind {
    Stage,
    Program,
    Buffer,
    VertexArray,
}

/// A driver-issued name together with the kind of object it names. Names of
/// different kinds live in different name spaces, so only the pair
/// identifies an object.
#[derive(Clone, Copy, PartialEq, Eq, Structural, Debug)]
pub struct Handle {
    pub kind: ObjectKind,
    pub id: u32,
}

/// The scalar types a uniform slot can be declared with.
#[derive(Clone, Copy, PartialEq, Eq, Structural, Debug)]
pub enum UniformKind {
    /// An unsigned 32-bit integer.
    Unsigned,
    /// A 32-bit IEEE 754 number, carried as its bit pattern.
    Float,
}

/// The component types of a vertex attribute.
#[derive(Clone, Copy, PartialEq, Eq, Structural, Debug)]
pub enum ComponentKind {
    Float,
    UnsignedInt,
    Int,
}

/// One attribute slot of a vertex layout.
#[derive(Clone, Copy, PartialEq, Eq, Structural, Debug)]
pub struct Attribute {
    /// The attribute index the vertex stage reads from.
    pub index: u32,
    /// How many components the attribute has.
    pub components: i32,
    /// The type of each component.
    pub kind: ComponentKind,
    /// Whether integer data is normalised on fetch.
    pub normalized: bool,
    /// The distance in bytes between two consecutive vertices.
    pub stride: i32,
    /// The offset in bytes of the attribute within a vertex.
    pub offset: usize,
}

/// A hint that shapes the next window to be created.
#[derive(Clone, Copy, PartialEq, Eq, Structural, Debug)]
pub enum Hint {
    Resizable(bool),
    ContextVersionMajor(u32),
    ContextVersionMinor(u32),
    CoreProfile,
}

/// One request to the graphics driver, the windowing backend or the console.
#[allow(inconsistent_fields)]
#[derive(Clone, PartialEq, Eq, Debug)]
pub enum Command {
    CreateShader { kind: StageKind },
    ShaderSource { stage: u32, source: String },
    CompileShader { stage: u32 },
    /// Answered with [`Reply::Status`].
    GetCompileStatus { stage: u32 },
    /// Answered with [`Reply::Length`].
    GetInfoLogLength { stage: u32 },
    /// Answered with [`Reply::Bytes`]: at most `capacity` bytes of log.
    GetInfoLog { stage: u32, capacity: i32 },
    DeleteShader { stage: u32 },
    /// Answered with [`Reply::Handle`].
    CreateProgram,
    AttachShader { program: u32, stage: u32 },
    LinkProgram { program: u32 },
    ValidateProgram { program: u32 },
    DeleteProgram { program: u32 },
    UseProgram { program: u32 },
    /// Answered with [`Reply::Location`].
    GetUniformLocation { program: u32, name: String },
    /// Uploads one scalar to the program in use. `bits` is the value itself
    /// for [`UniformKind::Unsigned`] and the bit pattern for
    /// [`UniformKind::Float`].
    SetUniform { location: i32, kind: UniformKind, bits: u32 },
    /// Answered with [`Reply::Handle`].
    GenVertexArray,
    /// Answered with [`Reply::Handle`].
    GenBuffer,
    BindVertexArray { array: u32 },
    BindBuffer { target: BufferTarget, buffer: u32 },
    /// Uploads `bytes` bytes of static data to the buffer bound to `target`.
    /// The data is the sequence the mesh is being created from: the vertices
    /// for [`BufferTarget::Vertices`], the indices for
    /// [`BufferTarget::Indices`].
    BufferData { target: BufferTarget, bytes: usize },
    EnableVertexAttribArray { index: u32 },
    VertexAttribPointer { attribute: Attribute },
    DeleteVertexArray { array: u32 },
    DeleteBuffer { buffer: u32 },
    /// Sets the viewport to the rectangle from (0, 0) to (`width`, `height`).
    Viewport { width: i32, height: i32 },
    ClearColorBuffer,
    /// Draws `count` indices of the bound index buffer, read as unsigned
    /// 32-bit integers, as a list of triangles.
    DrawTriangles { count: usize },
    EnableDebugOutput,
    InstallDebugCallback,
    /// Answered with [`Reply::Bytes`].
    GetVersion,
    /// Writes one line to the console.
    Print { line: String },
    WindowHint { hint: Hint },
    /// Answered with [`Reply::Handle`]: the shell's name for the new window,
    /// or zero if none could be created.
    CreateWindow { width: u32, height: u32, title: String },
    DefaultWindowHints,
    MakeCurrent { window: u32 },
    SetSwapInterval { interval: u32 },
    /// Resolves the driver's function addresses through `window`'s context.
    LoadFunctionTable { window: u32 },
    SwapBuffers { window: u32 },
    PollEvents,
    /// Answered with [`Reply::Size`].
    GetFramebufferSize { window: u32 },
    /// Answered with [`Reply::Status`]: whether the user asked for the
    /// window to be closed.
    ShouldClose { window: u32 },
    /// Closes the window. The backend and the function table stay.
    DestroyWindow { window: u32 },
}

/// What a [`Command`] is in specifications: the same request with its text
/// as a sequence of characters.
#[allow(inconsistent_fields)]
pub enum CommandView {
    CreateShader { kind: StageKind },
    ShaderSource { stage: u32, source: Seq<char> },
    CompileShader { stage: u32 },
    GetCompileStatus { stage: u32 },
    GetInfoLogLength { stage: u32 },
    GetInfoLog { stage: u32, capacity: i32 },
    DeleteShader { stage: u32 },
    CreateProgram,
    AttachShader { program: u32, stage: u32 },
    LinkProgram { program: u32 },
    ValidateProgram { program: u32 },
    DeleteProgram { program: u32 },
    UseProgram { program: u32 },
    GetUniformLocation { program: u32, name: Seq<char> },
    SetUniform { location: i32, kind: UniformKind, bits: u32 },
    GenVertexArray,
    GenBuffer,
    BindVertexArray { array: u32 },
    BindBuffer { target: BufferTarget, buffer: u32 },
    BufferData { target: BufferTarget, bytes: usize },
    EnableVertexAttribArray { index: u32 },
    VertexAttribPointer { attribute: Attribute },
    DeleteVertexArray { array: u32 },
    DeleteBuffer { buffer: u32 },
    Viewport { width: i32, height: i32 },
    ClearColorBuffer,
    DrawTriangles { count: usize },
    EnableDebugOutput,
    InstallDebugCallback,
    GetVersion,
    Print { line: Seq<char> },
    WindowHint { hint: Hint },
    CreateWindow { width: u32, height: u32, title: Seq<char> },
    DefaultWindowHints,
    MakeCurrent { window: u32 },
    SetSwapInterval { interval: u32 },
    LoadFunctionTable { window: u32 },
    SwapBuffers { window: u32 },
    PollEvents,
    GetFramebufferSize { window: u32 },
    ShouldClose { window: u32 },
    DestroyWindow { window: u32 },
}

impl View for Command {
    type V = CommandView;

    open spec fn view(&self) -> CommandView {
        match *self {
            Command::CreateShader { kind } => CommandView::CreateShader { kind },
            Command::ShaderSource { stage, source } => CommandView::ShaderSource {
                stage,
                source: source@,
            },
            Command::CompileShader { stage } => CommandView::CompileShader { stage },
            Command::GetCompileStatus { stage } => CommandView::GetCompileStatus { stage },
            Command::GetInfoLogLength { stage } => CommandView::GetInfoLogLength { stage },
            Command::GetInfoLog { stage, capacity } => CommandView::GetInfoLog { stage, capacity },
            Command::DeleteShader { stage } => CommandView::DeleteShader { stage },
            Command::CreateProgram => CommandView::CreateProgram,
            Command::AttachShader { program, stage } => CommandView::AttachShader {
                program,
                stage,
            },
            Command::LinkProgram { program } => CommandView::LinkProgram { program },
            Command::ValidateProgram { program } => CommandView::ValidateProgram { program },
            Command::DeleteProgram { program } => CommandView::DeleteProgram { program },
            Command::UseProgram { program } => CommandView::UseProgram { program },
            Command::GetUniformLocation { program, name } => CommandView::GetUniformLocation {
                program,
                name: name@,
            },
            Command::SetUniform { location, kind, bits } => CommandView::SetUniform {
                location,
                kind,
                bits,
            },
            Command::GenVertexArray => CommandView::GenVertexArray,
            Command::GenBuffer => CommandView::GenBuffer,
            Command::BindVertexArray { array } => CommandView::BindVertexArray { array },
            Command::BindBuffer { target, buffer } => CommandView::BindBuffer { target, buffer },
            Command::BufferData { target, bytes } => CommandView::BufferData { target, bytes },
            Command::EnableVertexAttribArray { index } => CommandView::EnableVertexAttribArray {
                index,
            },
            Command::VertexAttribPointer { attribute } => CommandView::VertexAttribPointer {
                attribute,
            },
            Command::DeleteVertexArray { array } => CommandView::DeleteVertexArray { array },
            Command::DeleteBuffer { buffer } => CommandView::DeleteBuffer { buffer },
            Command::Viewport { width, height } => CommandView::Viewport { width, height },
            Command::ClearColorBuffer => CommandView::ClearColorBuffer,
            Command::DrawTriangles { count } => CommandView::DrawTriangles { count },
            Command::EnableDebugOutput => CommandView::EnableDebugOutput,
            Command::InstallDebugCallback => CommandView::InstallDebugCallback,
            Command::GetVersion => CommandView::GetVersion,
            Command::Print { line } => CommandView::Print { line: line@ },
            Command::WindowHint { hint } => CommandView::WindowHint { hint },
            Command::CreateWindow { width, height, title } => CommandView::CreateWindow {
                width,
                height,
                title: title@,
            },
            Command::DefaultWindowHints => CommandView::DefaultWindowHints,
            Command::MakeCurrent { window } => CommandView::MakeCurrent { window },
            Command::SetSwapInterval { interval } => CommandView::SetSwapInterval { interval },
            Command::LoadFunctionTable { window } => CommandView::LoadFunctionTable { window },
            Command::SwapBuffers { window } => CommandView::SwapBuffers { window },
            Command::PollEvents => CommandView::PollEvents,
            Command::GetFramebufferSize { window } => CommandView::GetFramebufferSize { window },
            Command::ShouldClose { window } => CommandView::ShouldClose { window },
            Command::DestroyWindow { window } => CommandView::DestroyWindow { window },
        }
    }
}

/// The views of a batch of commands, in order.
pub open spec fn views(commands: Seq<Command>) -> Seq<CommandView> {
    Seq::new(commands.len(), |i: int| commands[i]@)
}

/// Appending a command to a batch appends its view to the batch's views.
pub proof fn lemma_views_push(commands: Seq<Command>, command: Command)
    ensures
        views(commands.push(command)) == views(commands).push(command@),
{
    assert(views(commands.push(command)) =~= views(commands).push(command@));
}

/// The views of two batches, one after the other, are the views of their
/// concatenation.
pub proof fn lemma_views_concat(first: Seq<Command>, second: Seq<Command>)
    ensures
        views(first + second) == views(first) + views(second),
{
    assert(views(first + second) =~= views(first) + views(second));
}

/// What the shell hands back after it has carried out a batch of commands:
/// the answer to the last one.
#[derive(Clone, PartialEq, Eq, Debug)]
pub enum Reply {
    /// The last command has no answer, or no command was carried out.
    Nothing,
    /// The name of a newly created object; zero if none was created.
    Handle(u32),
    /// The outcome of a status query.
    Status(bool),
    /// The outcome of a length query.
    Length(i32),
    /// Text that the driver wrote into a buffer, as raw bytes.
    Bytes(Vec<u8>),
    /// The outcome of a uniform lookup.
    Location(i32),
    /// The width and the height of a framebuffer.
    Size(i32, i32),
}

impl Reply {
    /// The handle that the reply carries; zero, the name of no object, where
    /// it carries none.
    pub open spec fn spec_handle(&self) -> u32 {
        match *self {
            Reply::Handle(id) => id,
            _ => 0,
        }
    }

    /// The status that the reply carries; failure where it carries none.
    pub open spec fn spec_status(&self) -> bool {
        match *self {
            Reply::Status(ok) => ok,
            _ => false,
        }
    }

    /// The length that the reply carries; zero where it carries none.
    pub open spec fn spec_length(&self) -> i32 {
        match *self {
            Reply::Length(length) => length,
            _ => 0,
        }
    }

    /// The uniform location that the reply carries; -1, the location of no
    /// uniform, where it carries none.
    pub open spec fn spec_location(&self) -> i32 {
        match *self {
            Reply::Location(location) => location,
            _ => -1i32,
        }
    }

    /// The size that the reply carries; nothing by nothing where it carries
    /// none.
    pub open spec fn spec_size(&self) -> (i32, i32) {
        match *self {
            Reply::Size(width, height) => (width, height),
            _ => (0i32, 0i32),
        }
    }

    /// The bytes that the reply carries; none where it carries none.
    pub open spec fn spec_bytes(&self) -> Seq<u8> {
        match *self {
            Reply::Bytes(bytes) => bytes@,
            _ => Seq::empty(),
        }
    }

    /// The handle that the reply carries; zero, the name of no object, where
    /// it carries none.
    #[verifier::when_used_as_spec(spec_handle)]
    pub fn handle(&self) -> (id: u32)
        ensures
            id == self.spec_handle(),
    {
        match self {
            Reply::Handle(id) => *id,
            _ => 0,
        }
    }

    /// The status that the reply carries; failure where it carries none.
    #[verifier::when_used_as_spec(spec_status)]
    pub fn status(&self) -> (ok: bool)
        ensures
            ok == self.spec_status(),
    {
        match self {
            Reply::Status(ok) => *ok,
            _ => false,
        }
    }

    /// The uniform location that the reply carries; -1, the location of no
    /// uniform, where it carries none.
    #[verifier::when_used_as_spec(spec_location)]
    pub fn location(&self) -> (location: i32)
        ensures
            location == self.spec_location(),
    {
        match self {
            Reply::Location(location) => *location,
            _ => -1,
        }
    }

    /// The size that the reply carries; nothing by nothing where it carries
    /// none.
    #[verifier::when_used_as_spec(spec_size)]
    pub fn size(&self) -> (size: (i32, i32))
        ensures
            size == self.spec_size(),
    {
        match self {
            Reply::Size(width, height) => (*width, *height),
            _ => (0, 0),
        }
    }

    /// The bytes that the reply carries; none where it carries none.
    pub fn bytes(&self) -> (bytes: &[u8])
        ensures
            bytes@ == self.spec_bytes(),
    {
        match self {
            Reply::Bytes(bytes) => bytes.as_slice(),
            _ => &[],
        }
    }

    /// The length that the reply carries; zero where it carries none.
    #[verifier::when_used_as_spec(spec_length)]
    pub fn length(&self) -> (length: i32)
        ensures
            length == self.spec_length(),
    {
        match self {
            Reply::Length(length) => *length,
            _ => 0,
        }
    }
}

} // verus!
