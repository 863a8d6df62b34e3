//! What can go wrong in a run.

use vstd::prelude::*;

verus! {

/// A [`ProcessError`] as text.
pub enum ProcessErrorView {
    NotFound(Seq<char>),
    NotADirectory(Seq<char>),
    ValidationFailed(Seq<Seq<char>>),
    IoError(Seq<char>),
    ItemProcessingError(Seq<char>),
}

/// The failures of a run. The first two and `IoError` concern a directory
/// and end the run; the other two concern single items and are collected.
#[derive(Debug, PartialEq, Eq)]
pub enum ProcessError {
    /// The input directory, named here, does not exist.
    NotFound(String),
    /// The input path, named here, exists and is no directory.
    NotADirectory(String),
    /// Inputs are missing: the input paths of all of them, in discovery order.
    ValidationFailed(Vec<String>),
    /// The file system refused an operation: its message.
    IoError(String),
    /// The transformation of one item failed: the item's name.
    ItemProcessingError(String),
}

/// The strings of a sequence, each as text.
pub open spec fn texts(strings: Seq<String>) -> Seq<Seq<char>> {
    strings.map_values(|s: String| s@)
}

impl View for ProcessError {
    type V = ProcessErrorView;

    open spec fn view(&self) -> ProcessErrorView {
        match *self {
            ProcessError::NotFound(p) => ProcessErrorView::NotFound(p@),
            ProcessError::NotADirectory(p) => ProcessErrorView::NotADirectory(p@),
            ProcessError::ValidationFailed(ps) => ProcessErrorView::ValidationFailed(texts(ps@)),
            ProcessError::IoError(m) => ProcessErrorView::IoError(m@),
            ProcessError::ItemProcessingError(n) => ProcessErrorView::ItemProcessingError(n@),
        }
    }
}

/// The texts of a sequence in one line, with a comma and a blank between
/// each two of them.
pub open spec fn listed(parts: Seq<Seq<char>>) -> Seq<char>
    decreases parts.len(),
{
    if parts.len() == 0 {
        Seq::empty()
    } else if parts.len() == 1 {
        parts[0]
    } else {
        listed(parts.drop_last()) + ", "@ + parts.last()
    }
}

/// What a failure says to the user: what went wrong, a colon, and the path,
/// the paths, the message or the name that the failure carries.
pub open spec fn message_of(error: ProcessErrorView) -> Seq<char> {
    match error {
        ProcessErrorView::NotFound(path) => "input directory not found: "@ + path,
        ProcessErrorView::NotADirectory(path) => "not a directory: "@ + path,
        ProcessErrorView::ValidationFailed(paths) => "missing inputs: "@ + listed(paths),
        ProcessErrorView::IoError(message) => "file system error: "@ + message,
        ProcessErrorView::ItemProcessingError(name) => "item could not be processed: "@ + name,
    }
}

/// The strings of a vector in one line, with a comma and a blank between
/// each two of them.
pub fn list_line(parts: &Vec<String>) -> (line: String)
    ensures
        line@ == listed(texts(parts@)),
{
    let mut line = String::new();
    let mut i: usize = 0;
    while i < parts.len()
        invariant
            0 <= i <= parts.len(),
            line@ == listed(texts(parts@).take(i as int)),
        decreases parts.len() - i,
    {
        proof {
            let sofar = texts(parts@).take(i as int);
            let next = texts(parts@).take(i + 1);
            assert(next.drop_last() =~= sofar);
            assert(next.last() == parts@[i as int]@);
            if i == 0 {
                assert(Seq::<char>::empty() + parts@[0]@ =~= parts@[0]@);
            }
        }
        if i > 0 {
            line.append(", ");
        }
        line.append(parts[i].as_str());
        i = i + 1;
    }
    assert(texts(parts@).take(i as int) =~= texts(parts@));
    line
}

impl ProcessError {
    /// What the failure says to the user.
    pub fn message(&self) -> (text: String)
        ensures
            text@ == message_of(self@),
    {
        match self {
            ProcessError::NotFound(path) => {
                let mut text = String::from_str("input directory not found: ");
                text.append(path.as_str());
                text
            },
            ProcessError::NotADirectory(path) => {
                let mut text = String::from_str("not a directory: ");
                text.append(path.as_str());
                text
            },
            ProcessError::ValidationFailed(paths) => {
                let mut text = String::from_str("missing inputs: ");
                let line = list_line(paths);
                text.append(line.as_str());
                text
            },
            ProcessError::IoError(message) => {
                let mut text = String::from_str("file system error: ");
                text.append(message.as_str());
                text
            },
            ProcessError::ItemProcessingError(name) => {
                let mut text = String::from_str("item could not be processed: ");
                text.append(name.as_str());
                text
            },
        }
    }

    /// Whether the failure ends the run: one that concerns a directory does,
    /// one that concerns a single item does not.
    pub open spec fn fatal(self) -> bool {
        !(self is ValidationFailed || self is ItemProcessingError)
    }

    /// Whether the failure ends the run.
    pub fn is_fatal(&self) -> (b: bool)
        ensures
            b == self.fatal(),
    {
        match self {
            ProcessError::ValidationFailed(_) => false,
            ProcessError::ItemProcessingError(_) => false,
            _ => true,
        }
    }
}

} // verus!
