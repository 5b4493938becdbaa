//! Where the application keeps its documents, and the failures of reading
//! and writing them. The reading and writing itself is the caller's.

use vstd::prelude::*;
use vstd::string::StringExecFns;

verus! {

/// A document that the application keeps on disk.
#[derive(Debug, Clone, Copy, PartialEq, Eq, Structural)]
pub enum Document {
    /// The configuration values, under the user's configuration directory.
    Config,
    /// The recently opened projects, under the user's configuration
    /// directory.
    Projects,
    /// The memory notes of a project, under the project's own directory.
    Memory,
}

/// Why a document could not be read or written.
#[derive(Debug, Clone, PartialEq, Eq)]
pub enum StoreError {
    /// The user has no configuration directory.
    NoConfigDir,
    /// The project's path names nothing that exists; holds the path.
    MissingProject(String),
    /// The document's directory could not be created.
    CreateDir { document: Document, cause: String },
    /// The document could not be read.
    Read { document: Document, cause: String },
    /// The document's text could not be parsed.
    Parse { document: Document, cause: String },
    /// The document could not be turned into text.
    Serialize { document: Document, cause: String },
    /// The document could not be written.
    Write { document: Document, cause: String },
}

impl Document {
    /// The name of the directory that holds the document: for the
    /// configuration and the projects a directory under the user's
    /// configuration directory, for the memory one under the project.
    pub open spec fn spec_directory(self) -> Seq<char> {
        match self {
            Document::Config => "roura-agent"@,
            Document::Projects => "roura-agent"@,
            Document::Memory => ".roura"@,
        }
    }

    /// The name of the document's file.
    pub open spec fn spec_file(self) -> Seq<char> {
        match self {
            Document::Config => "config.json"@,
            Document::Projects => "recent_projects.json"@,
            Document::Memory => "memory.json"@,
        }
    }

    /// The word for the document in messages.
    pub open spec fn spec_noun(self) -> Seq<char> {
        match self {
            Document::Config => "config"@,
            Document::Projects => "projects"@,
            Document::Memory => "memory"@,
        }
    }

    /// The word for the document's directory in messages.
    pub open spec fn spec_directory_noun(self) -> Seq<char> {
        match self {
            Document::Config => "config"@,
            Document::Projects => "config"@,
            Document::Memory => "memory"@,
        }
    }

    /// The name of the directory that holds the document.
    pub fn directory(&self) -> (name: &'static str)
        ensures
            name@ == self.spec_directory(),
    {
        match self {
            Document::Config => "roura-agent",
            Document::Projects => "roura-agent",
            Document::Memory => ".roura",
        }
    }

    /// The name of the document's file.
    pub fn file(&self) -> (name: &'static str)
        ensures
            name@ == self.spec_file(),
    {
        match self {
            Document::Config => "config.json",
            Document::Projects => "recent_projects.json",
            Document::Memory => "memory.json",
        }
    }

    fn noun(&self) -> (word: &'static str)
        ensures
            word@ == self.spec_noun(),
    {
        match self {
            Document::Config => "config",
            Document::Projects => "projects",
            Document::Memory => "memory",
        }
    }

    fn directory_noun(&self) -> (word: &'static str)
        ensures
            word@ == self.spec_directory_noun(),
    {
        match self {
            Document::Config => "config",
            Document::Projects => "config",
            Document::Memory => "memory",
        }
    }
}

/// The message of a failed step on a document: the step, the document's
/// word, and the cause after a colon.
pub open spec fn step_message(verb: Seq<char>, noun: Seq<char>, cause: Seq<char>) -> Seq<char> {
    "Failed to "@ + verb + " "@ + noun + ": "@ + cause
}

fn build_step_message(verb: &str, noun: &str, cause: &str) -> (text: String)
    ensures
        text@ == step_message(verb@, noun@, cause@),
{
    let mut text = String::from_str("Failed to ");
    text.append(verb);
    text.append(" ");
    text.append(noun);
    text.append(": ");
    text.append(cause);
    text
}

impl StoreError {
    /// The text that describes this failure.
    pub open spec fn spec_message(self) -> Seq<char> {
        match self {
            StoreError::NoConfigDir => "Could not find config directory"@,
            StoreError::MissingProject(path) => "Project path does not exist: "@ + path@,
            StoreError::CreateDir { document, cause } => "Failed to create "@
                + document.spec_directory_noun() + " directory: "@ + cause@,
            StoreError::Read { document, cause } => step_message(
                "read"@,
                document.spec_noun(),
                cause@,
            ),
            StoreError::Parse { document, cause } => step_message(
                "parse"@,
                document.spec_noun(),
                cause@,
            ),
            StoreError::Serialize { document, cause } => step_message(
                "serialize"@,
                document.spec_noun(),
                cause@,
            ),
            StoreError::Write { document, cause } => step_message(
                "write"@,
                document.spec_noun(),
                cause@,
            ),
        }
    }

    /// Renders the failure as a descriptive message.
    pub fn message(&self) -> (text: String)
        ensures
            text@ == self.spec_message(),
    {
        match self {
            StoreError::NoConfigDir => String::from_str("Could not find config directory"),
            StoreError::MissingProject(path) => String::from_str(
                "Project path does not exist: ",
            ).concat(path.as_str()),
            StoreError::CreateDir { document, cause } => {
                let mut text = String::from_str("Failed to create ");
                text.append(document.directory_noun());
                text.append(" directory: ");
                text.append(cause.as_str());
                text
            },
            StoreError::Read { document, cause } => build_step_message(
                "read",
                document.noun(),
                cause.as_str(),
            ),
            StoreError::Parse { document, cause } => build_step_message(
                "parse",
                document.noun(),
                cause.as_str(),
            ),
            StoreError::Serialize { document, cause } => build_step_message(
                "serialize",
                document.noun(),
                cause.as_str(),
            ),
            StoreError::Write { document, cause } => build_step_message(
                "write",
                document.noun(),
                cause.as_str(),
            ),
        }
    }
}

} // verus!
