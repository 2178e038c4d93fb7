//! What the caller found in the place of a file.

use vstd::prelude::*;

verus! {

/// A file as it was found: missing, there but not readable as text, or read.
#[derive(Debug, PartialEq, Eq)]
pub enum FileSnapshot {
    /// Nothing exists at the path.
    Absent,
    /// Something exists at the path, and reading it as text failed; `detail`
    /// holds the operating system's words.
    Unreadable { detail: String },
    /// The file's whole text.
    Content { text: String },
}

/// What a file snapshot holds.
pub enum FileText {
    Absent,
    Unreadable { detail: Seq<char> },
    Content { text: Seq<char> },
}

impl View for FileSnapshot {
    type V = FileText;

    open spec fn view(&self) -> FileText {
        match self {
            FileSnapshot::Absent => FileText::Absent,
            FileSnapshot::Unreadable { detail } => FileText::Unreadable { detail: detail@ },
            FileSnapshot::Content { text } => FileText::Content { text: text@ },
        }
    }
}

/// What a row of file snapshots holds.
pub open spec fn files_text(files: Seq<FileSnapshot>) -> Seq<FileText> {
    Seq::new(files.len(), |i: int| files[i]@)
}

} // verus!
