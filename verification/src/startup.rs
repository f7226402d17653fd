//! What can go wrong while the viewer is set up, and how a failure is reported.

use vstd::prelude::*;

verus! {

/// A part of the host environment that the viewer needs.
#[derive(Clone, Copy, Debug, PartialEq, Eq, Structural)]
pub enum Environment {
    Window,
    Document,
    /// The page element that the viewer draws into.
    Canvas,
    /// That element being a canvas.
    CanvasElement,
    /// The canvas's WebGL2 context.
    Context,
}

/// A GPU object that the viewer creates.
#[derive(Clone, Copy, Debug, PartialEq, Eq, Structural)]
pub enum Resource {
    VertexBuffer,
    VertexArray,
    Shader,
    Program,
}

/// A step that hands source code to the driver.
#[derive(Clone, Copy, Debug, PartialEq, Eq, Structural)]
pub enum Stage {
    /// Compiling a shader.
    Shader,
    /// Linking a program.
    Program,
}

/// Why the viewer could not start. Every failure is fatal and is reported once,
/// to whoever constructs the viewer.
#[derive(Debug, PartialEq, Eq)]
pub enum InitError {
    /// The host lacks something that the viewer needs.
    EnvironmentMissing(Environment),
    /// The GPU did not hand out an object.
    CreationFailed(Resource),
    /// A shader did not compile or a program did not link. The driver's log is
    /// kept where the driver gave one.
    BuildFailed(Stage, Option<String>),
    /// The host did not accept a timer.
    TimerRegistration,
}

impl Environment {
    pub open spec fn text(self) -> Seq<char> {
        match self {
            Environment::Window => "Window not found"@,
            Environment::Document => "Document not found"@,
            Environment::Canvas => "Canvas not found"@,
            Environment::CanvasElement => "Canvas isn't canvas"@,
            Environment::Context => "Couldn't get WebGL2 context"@,
        }
    }
}

impl Resource {
    pub open spec fn text(self) -> Seq<char> {
        match self {
            Resource::VertexBuffer => "Couldn't create VBO"@,
            Resource::VertexArray => "Couldn't create VAO"@,
            Resource::Shader => "Couldn't create shader object"@,
            Resource::Program => "Couldn't create program object"@,
        }
    }
}

impl Stage {
    /// What is reported when the driver gives no log.
    pub open spec fn text(self) -> Seq<char> {
        match self {
            Stage::Shader => "Unknown error occurred when creating shader"@,
            Stage::Program => "Unknown error occurred when creating program"@,
        }
    }
}

impl InitError {
    /// The message of this error: a fixed sentence, or the driver's log where a
    /// build failed and the driver gave one.
    pub open spec fn text(self) -> Seq<char> {
        match self {
            InitError::EnvironmentMissing(part) => part.text(),
            InitError::CreationFailed(resource) => resource.text(),
            InitError::BuildFailed(stage, Some(log)) => log@,
            InitError::BuildFailed(stage, None) => stage.text(),
            InitError::TimerRegistration => "Couldn't register timer"@,
        }
    }

    /// Gives the message of this error.
    pub fn message(&self) -> (message: String)
        ensures
            message@ == self.text(),
    {
        match self {
            InitError::EnvironmentMissing(Environment::Window) => "Window not found".to_owned(),
            InitError::EnvironmentMissing(Environment::Document) => "Document not found".to_owned(),
            InitError::EnvironmentMissing(Environment::Canvas) => "Canvas not found".to_owned(),
            InitError::EnvironmentMissing(Environment::CanvasElement) => {
                "Canvas isn't canvas".to_owned()
            },
            InitError::EnvironmentMissing(Environment::Context) => {
                "Couldn't get WebGL2 context".to_owned()
            },
            InitError::CreationFailed(Resource::VertexBuffer) => "Couldn't create VBO".to_owned(),
            InitError::CreationFailed(Resource::VertexArray) => "Couldn't create VAO".to_owned(),
            InitError::CreationFailed(Resource::Shader) => {
                "Couldn't create shader object".to_owned()
            },
            InitError::CreationFailed(Resource::Program) => {
                "Couldn't create program object".to_owned()
            },
            InitError::BuildFailed(_, Some(log)) => log.clone(),
            InitError::BuildFailed(Stage::Shader, None) => {
                "Unknown error occurred when creating shader".to_owned()
            },
            InitError::BuildFailed(Stage::Program, None) => {
                "Unknown error occurred when creating program".to_owned()
            },
            InitError::TimerRegistration => "Couldn't register timer".to_owned(),
        }
    }
}

/// Whether a build status, as the driver reports it, means success: only a
/// status that is present and true does.
pub open spec fn succeeded(status: Option<bool>) -> bool {
    status == Some(true)
}

/// Judges a compile or link step by the status that the driver reports. Where it
/// failed, the caller fetches the driver's log and reports `InitError::BuildFailed`.
pub fn build_succeeded(status: Option<bool>) -> (ok: bool)
    ensures
        ok == succeeded(status),
{
    match status {
        Some(ok) => ok,
        None => false,
    }
}

} // verus!
