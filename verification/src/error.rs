//! The ways in which building a program or a geometry can fail.

use crate::command::Stage;
use vstd::prelude::*;
use vstd::string::*;

verus! {

/// A failure reported to the caller. None of them leaves a half-built object behind.
#[derive(Clone, Debug, PartialEq, Eq)]
pub enum Error {
    /// A stage did not compile; `log` holds the compiler's diagnostics.
    Compile { stage: Stage, log: String },
    /// The stages compiled but did not link; `log` holds the linker's diagnostics.
    Link { log: String },
    /// A geometry was built without vertex data.
    MissingVertices,
    /// The current program has no uniform of this name.
    UniformNotFound { name: String },
    /// A source file could not be read.
    FileRead { path: String },
}

/// What an [`Error`] means.
pub enum ErrorView {
    Compile { stage: Stage, log: Seq<char> },
    Link { log: Seq<char> },
    MissingVertices,
    UniformNotFound { name: Seq<char> },
    FileRead { path: Seq<char> },
}

impl View for Error {
    type V = ErrorView;

    open spec fn view(&self) -> ErrorView {
        match *self {
            Error::Compile { stage, log } => ErrorView::Compile { stage, log: log@ },
            Error::Link { log } => ErrorView::Link { log: log@ },
            Error::MissingVertices => ErrorView::MissingVertices,
            Error::UniformNotFound { name } => ErrorView::UniformNotFound { name: name@ },
            Error::FileRead { path } => ErrorView::FileRead { path: path@ },
        }
    }
}

impl ErrorView {
    /// The line that introduces the failure, before any detail.
    pub open spec fn headline(self) -> Seq<char> {
        match self {
            ErrorView::Compile { stage: Stage::Vertex, .. } =>
                "ERROR::SHADER::VERTEX::COMPILATION_FAILED\n"@,
            ErrorView::Compile { stage: Stage::Fragment, .. } =>
                "ERROR::SHADER::FRAGMENT::COMPILATION_FAILED\n"@,
            ErrorView::Link { .. } => "ERROR::SHADER::PROGRAM::COMPILATION_FAILED\n"@,
            ErrorView::MissingVertices => "No vertices supplied"@,
            ErrorView::UniformNotFound { .. } => "Cannot find location "@,
            ErrorView::FileRead { .. } => "Could not read file "@,
        }
    }

    /// The detail that the failure carries.
    pub open spec fn detail(self) -> Seq<char> {
        match self {
            ErrorView::Compile { log, .. } => log,
            ErrorView::Link { log } => log,
            ErrorView::MissingVertices => Seq::empty(),
            ErrorView::UniformNotFound { name } => name,
            ErrorView::FileRead { path } => path,
        }
    }

    /// What follows the detail.
    pub open spec fn tail(self) -> Seq<char> {
        match self {
            ErrorView::UniformNotFound { .. } => " in current shader"@,
            _ => Seq::empty(),
        }
    }

    /// The whole message.
    pub open spec fn message(self) -> Seq<char> {
        self.headline() + self.detail() + self.tail()
    }
}

impl Error {
    /// The failure as one text, fit for a log or a console.
    pub fn message(&self) -> (text: String)
        ensures
            text@ == self@.message(),
    {
        match self {
            Error::Compile { stage: Stage::Vertex, log } => {
                let text = String::from_str("ERROR::SHADER::VERTEX::COMPILATION_FAILED\n");
                let text = text.concat(log.as_str());
                assert(text@ =~= self@.message());
                text
            },
            Error::Compile { stage: Stage::Fragment, log } => {
                let text = String::from_str("ERROR::SHADER::FRAGMENT::COMPILATION_FAILED\n");
                let text = text.concat(log.as_str());
                assert(text@ =~= self@.message());
                text
            },
            Error::Link { log } => {
                let text = String::from_str("ERROR::SHADER::PROGRAM::COMPILATION_FAILED\n");
                let text = text.concat(log.as_str());
                assert(text@ =~= self@.message());
                text
            },
            Error::MissingVertices => {
                let text = String::from_str("No vertices supplied");
                assert(text@ =~= self@.message());
                text
            },
            Error::UniformNotFound { name } => {
                let text = String::from_str("Cannot find location ");
                let text = text.concat(name.as_str());
                let text = text.concat(" in current shader");
                assert(text@ =~= self@.message());
                text
            },
            Error::FileRead { path } => {
                let text = String::from_str("Could not read file ");
                let text = text.concat(path.as_str());
                assert(text@ =~= self@.message());
                text
            },
        }
    }
}

} // verus!
