//! The vocabulary spoken between this library and whoever holds the graphics
//! context and the file system.
//!
//! The library never touches the GPU or the disk itself. Every operation hands
//! out a batch of [`Command`]s; the caller carries them out in order and brings
//! back the [`Reply`] of the last one. What the library promises is stated over
//! these values, so the exact sequence of graphics calls is part of each contract.

use vstd::prelude::*;

verus! {

/// The two programmable stages that make up a program.
#[derive(Clone, Copy, Debug, PartialEq, Eq, Structural)]
pub enum Stage {
    Vertex,
    Fragment,
}

/// The binding points a buffer object can be attached to.
#[derive(Clone, Copy, Debug, PartialEq, Eq, Structural)]
pub enum BufferTarget {
    /// Vertex attribute data.
    Array,
    /// Element indices; the binding is recorded in the bound vertex array.
    ElementArray,
}

/// The value that stands for "no object" wherever a handle is bound.
pub const NONE: u32 = 0;

/// The status value with which the driver reports a successful compile or link.
pub const STATUS_OK: i32 = 1;

/// The location with which the driver reports an unknown uniform name.
pub const NO_LOCATION: i32 = -1;

/// The number of bytes of diagnostics asked of the driver.
pub const LOG_CAPACITY: i32 = 512;

/// One unit of outside work.
///
/// Floating-point payloads travel as their IEEE-754 bit patterns.
#[derive(Clone, Debug, PartialEq, Eq)]
pub enum Command {
    /// Read a whole file as text. Answered by `Reply::Text` or `Reply::Unreadable`.
    ReadFile { path: String },
    /// Create a shader object for a stage. Answered by `Reply::Handle`.
    CreateShader { stage: Stage },
    /// Replace the source text of a shader object.
    ShaderSource { shader: u32, source: String },
    CompileShader { shader: u32 },
    /// Query the compile status. Answered by `Reply::Status`.
    GetCompileStatus { shader: u32 },
    /// Fetch at most `capacity` bytes of compiler diagnostics. Answered by `Reply::Log`.
    GetShaderInfoLog { shader: u32, capacity: i32 },
    /// Create an empty program object. Answered by `Reply::Handle`.
    CreateProgram,
    AttachShader { program: u32, shader: u32 },
    LinkProgram { program: u32 },
    /// Query the link status. Answered by `Reply::Status`.
    GetLinkStatus { program: u32 },
    /// Fetch at most `capacity` bytes of linker diagnostics. Answered by `Reply::Log`.
    GetProgramInfoLog { program: u32, capacity: i32 },
    DeleteShader { shader: u32 },
    DeleteProgram { program: u32 },
    /// Make a program current; `NONE` unbinds.
    UseProgram { program: u32 },
    /// Resolve a uniform name. Answered by `Reply::Location`.
    GetUniformLocation { program: u32, name: String },
    /// Set a four-component float uniform of the current program.
    Uniform4f { location: i32, v0: u32, v1: u32, v2: u32, v3: u32 },
    /// Generate one vertex array object. Answered by `Reply::Handle`.
    GenVertexArray,
    /// Generate one buffer object. Answered by `Reply::Handle`.
    GenBuffer,
    BindVertexArray { array: u32 },
    BindBuffer { target: BufferTarget, buffer: u32 },
    /// Upload `data` (`size` bytes) to the buffer bound at `target`, for static drawing.
    BufferData { target: BufferTarget, size: isize, data: Vec<u32> },
    /// Describe attribute `index` as `components` floats per vertex, not normalized,
    /// `stride` bytes apart, starting at offset 0 of the bound array buffer.
    VertexAttribPointer { index: u32, components: i32, stride: i32 },
    EnableVertexAttribArray { index: u32 },
    /// Draw triangles from `count` unsigned 32-bit indices of the bound element buffer.
    DrawElements { count: i32 },
    /// Draw triangles from `count` consecutive vertices starting at `first`.
    DrawArrays { first: i32, count: i32 },
}

/// What a [`Command`] means, with text and data as mathematical sequences.
pub enum CommandView {
    ReadFile { path: Seq<char> },
    CreateShader { stage: Stage },
    ShaderSource { shader: u32, source: Seq<char> },
    CompileShader { shader: u32 },
    GetCompileStatus { shader: u32 },
    GetShaderInfoLog { shader: u32, capacity: i32 },
    CreateProgram,
    AttachShader { program: u32, shader: u32 },
    LinkProgram { program: u32 },
    GetLinkStatus { program: u32 },
    GetProgramInfoLog { program: u32, capacity: i32 },
    DeleteShader { shader: u32 },
    DeleteProgram { program: u32 },
    UseProgram { program: u32 },
    GetUniformLocation { program: u32, name: Seq<char> },
    Uniform4f { location: i32, v0: u32, v1: u32, v2: u32, v3: u32 },
    GenVertexArray,
    GenBuffer,
    BindVertexArray { array: u32 },
    BindBuffer { target: BufferTarget, buffer: u32 },
    BufferData { target: BufferTarget, size: int, data: Seq<u32> },
    VertexAttribPointer { index: u32, components: i32, stride: i32 },
    EnableVertexAttribArray { index: u32 },
    DrawElements { count: i32 },
    DrawArrays { first: i32, count: i32 },
}

impl View for Command {
    type V = CommandView;

    open spec fn view(&self) -> CommandView {
        match *self {
            Command::ReadFile { path } => CommandView::ReadFile { path: path@ },
            Command::CreateShader { stage } => CommandView::CreateShader { stage },
            Command::ShaderSource { shader, source } => CommandView::ShaderSource {
                shader,
                source: source@,
            },
            Command::CompileShader { shader } => CommandView::CompileShader { shader },
            Command::GetCompileStatus { shader } => CommandView::GetCompileStatus { shader },
            Command::GetShaderInfoLog { shader, capacity } => CommandView::GetShaderInfoLog {
                shader,
                capacity,
            },
            Command::CreateProgram => CommandView::CreateProgram,
            Command::AttachShader { program, shader } => CommandView::AttachShader {
                program,
                shader,
            },
            Command::LinkProgram { program } => CommandView::LinkProgram { program },
            Command::GetLinkStatus { program } => CommandView::GetLinkStatus { program },
            Command::GetProgramInfoLog { program, capacity } => CommandView::GetProgramInfoLog {
                program,
                capacity,
            },
            Command::DeleteShader { shader } => CommandView::DeleteShader { shader },
            Command::DeleteProgram { program } => CommandView::DeleteProgram { program },
            Command::UseProgram { program } => CommandView::UseProgram { program },
            Command::GetUniformLocation { program, name } => CommandView::GetUniformLocation {
                program,
                name: name@,
            },
            Command::Uniform4f { location, v0, v1, v2, v3 } => CommandView::Uniform4f {
                location,
                v0,
                v1,
                v2,
                v3,
            },
            Command::GenVertexArray => CommandView::GenVertexArray,
            Command::GenBuffer => CommandView::GenBuffer,
            Command::BindVertexArray { array } => CommandView::BindVertexArray { array },
            Command::BindBuffer { target, buffer } => CommandView::BindBuffer { target, buffer },
            Command::BufferData { target, size, data } => CommandView::BufferData {
                target,
                size: size as int,
                data: data@,
            },
            Command::VertexAttribPointer { index, components, stride } => {
                CommandView::VertexAttribPointer { index, components, stride }
            },
            Command::EnableVertexAttribArray { index } => CommandView::EnableVertexAttribArray {
                index,
            },
            Command::DrawElements { count } => CommandView::DrawElements { count },
            Command::DrawArrays { first, count } => CommandView::DrawArrays { first, count },
        }
    }
}

/// The meaning of a batch: the meaning of each command, in order.
pub open spec fn views(commands: Seq<Command>) -> Seq<CommandView> {
    commands.map_values(|c: Command| c@)
}

/// The meaning of two batches in a row is the meaning of the first followed by
/// the meaning of the second.
pub proof fn lemma_views_add(first: Seq<Command>, second: Seq<Command>)
    ensures
        views(first + second) == views(first) + views(second),
{
    assert(views(first + second) =~= views(first) + views(second));
}

/// The meaning of a batch with one more command is the meaning of the batch
/// with the meaning of that command at its end.
pub proof fn lemma_views_push(commands: Seq<Command>, last: Command)
    ensures
        views(commands.push(last)) == views(commands).push(last@),
{
    assert(views(commands.push(last)) =~= views(commands).push(last@));
}

/// What came back from the last command of a batch.
#[derive(Clone, Debug, PartialEq, Eq)]
pub enum Reply {
    /// The command has no answer.
    Nothing,
    /// The text of a file.
    Text(String),
    /// The file could not be read.
    Unreadable,
    /// The name of a freshly created object.
    Handle(u32),
    /// A compile or link status.
    Status(i32),
    /// Raw diagnostics, as many bytes as the driver filled in.
    Log(Vec<u8>),
    /// A uniform location.
    Location(i32),
}

/// What a [`Reply`] means.
pub enum ReplyView {
    Nothing,
    Text(Seq<char>),
    Unreadable,
    Handle(u32),
    Status(i32),
    Log(Seq<u8>),
    Location(i32),
}

impl ReplyView {
    /// The text that was read, if the reply carries one.
    pub open spec fn text(self) -> Option<Seq<char>> {
        match self {
            ReplyView::Text(text) => Some(text),
            _ => None,
        }
    }

    /// The object that was created; `NONE` if the reply names none.
    pub open spec fn handle(self) -> u32 {
        match self {
            ReplyView::Handle(handle) => handle,
            _ => NONE,
        }
    }

    /// Whether the reply reports success. Only the status `STATUS_OK` does.
    pub open spec fn succeeded(self) -> bool {
        self == ReplyView::Status(STATUS_OK)
    }

    /// The diagnostics that were fetched; empty if the reply carries none.
    pub open spec fn log(self) -> Seq<u8> {
        match self {
            ReplyView::Log(bytes) => bytes,
            _ => Seq::empty(),
        }
    }

    /// The location that was resolved; `NO_LOCATION` if the reply carries none.
    pub open spec fn location(self) -> i32 {
        match self {
            ReplyView::Location(location) => location,
            _ => NO_LOCATION,
        }
    }
}

impl View for Reply {
    type V = ReplyView;

    open spec fn view(&self) -> ReplyView {
        match *self {
            Reply::Nothing => ReplyView::Nothing,
            Reply::Text(text) => ReplyView::Text(text@),
            Reply::Unreadable => ReplyView::Unreadable,
            Reply::Handle(handle) => ReplyView::Handle(handle),
            Reply::Status(status) => ReplyView::Status(status),
            Reply::Log(bytes) => ReplyView::Log(bytes@),
            Reply::Location(location) => ReplyView::Location(location),
        }
    }
}

impl Reply {
    /// Takes the text out of the reply.
    pub fn into_text(self) -> (text: Option<String>)
        ensures
            match text {
                Some(t) => self@.text() == Some(t@),
                None => self@.text().is_none(),
            },
    {
        match self {
            Reply::Text(text) => Some(text),
            _ => None,
        }
    }

    /// The object named by the reply.
    pub fn handle(&self) -> (handle: u32)
        ensures
            handle == self@.handle(),
    {
        match self {
            Reply::Handle(handle) => *handle,
            _ => NONE,
        }
    }

    /// Whether the reply reports a successful compile or link.
    pub fn succeeded(&self) -> (ok: bool)
        ensures
            ok == self@.succeeded(),
    {
        match self {
            Reply::Status(status) => *status == STATUS_OK,
            _ => false,
        }
    }

    /// The location named by the reply.
    pub fn location(&self) -> (location: i32)
        ensures
            location == self@.location(),
    {
        match self {
            Reply::Location(location) => *location,
            _ => NO_LOCATION,
        }
    }

    /// Takes the diagnostics out of the reply.
    pub fn into_log(self) -> (bytes: Vec<u8>)
        ensures
            bytes@ == self@.log(),
    {
        match self {
            Reply::Log(bytes) => bytes,
            _ => Vec::new(),
        }
    }
}

} // verus!
