//! Steps on the file system, planned here and carried out by the caller, and
//! a model of what they do to the files.

use crate::text::{chars_of, last_index_of_char};
use vstd::prelude::*;

verus! {

/// One step on the file system.
#[derive(Clone, Debug, PartialEq, Eq)]
pub enum FsStep {
    /// Create the directory and every missing directory above it.
    CreateDirAll { path: String },
    /// Move the file at `from` to `to`.
    Rename { from: String, to: String },
    /// Append `text` to the file at `path`, which is created if missing.
    Append { path: String, text: String },
}

/// A step as a specification sees it.
pub enum FsStepView {
    CreateDirAll { path: Seq<char> },
    Rename { from: Seq<char>, to: Seq<char> },
    Append { path: Seq<char>, text: Seq<char> },
}

impl View for FsStep {
    type V = FsStepView;

    open spec fn view(&self) -> FsStepView {
        match self {
            FsStep::CreateDirAll { path } => FsStepView::CreateDirAll { path: path@ },
            FsStep::Rename { from, to } => FsStepView::Rename { from: from@, to: to@ },
            FsStep::Append { path, text } => FsStepView::Append { path: path@, text: text@ },
        }
    }
}

impl DeepView for FsStep {
    type V = FsStepView;

    open spec fn deep_view(&self) -> FsStepView {
        self@
    }
}

/// The files of a model file system: the text of each file by its path.
pub type Files = Map<Seq<char>, Seq<char>>;

/// The files after `step`, or `None` where the step fails: a file that is
/// not there cannot be moved.
pub open spec fn run_step(files: Files, step: FsStepView) -> Option<Files> {
    match step {
        FsStepView::CreateDirAll { path } => Some(files),
        FsStepView::Rename { from, to } => if files.contains_key(from) {
            Some(files.remove(from).insert(to, files[from]))
        } else {
            None
        },
        FsStepView::Append { path, text } => if files.contains_key(path) {
            Some(files.insert(path, files[path] + text))
        } else {
            Some(files.insert(path, text))
        },
    }
}

/// The files after `steps`, taken in order; `None` where one of them fails.
pub open spec fn run_steps(files: Files, steps: Seq<FsStepView>) -> Option<Files>
    decreases steps.len(),
{
    if steps.len() == 0 {
        Some(files)
    } else {
        match run_step(files, steps[0]) {
            Some(next) => run_steps(next, steps.drop_first()),
            None => None,
        }
    }
}

/// The directory of `path`: what stands before its last `/`; empty where it
/// has none.
pub open spec fn parent_dir(path: Seq<char>) -> Seq<char> {
    match last_index_of_char(path, '/', path.len() as int) {
        Some(at) => path.subrange(0, at),
        None => Seq::empty(),
    }
}

/// The directory of `path`.
pub fn parent_of(path: &str) -> (dir: String)
    ensures
        dir@ == parent_dir(path@),
{
    let chars = chars_of(path);
    let mut upto: usize = chars.len();
    while upto > 0
        invariant
            upto <= chars.len(),
            chars@ == path@,
            last_index_of_char(path@, '/', path@.len() as int) == last_index_of_char(
                path@,
                '/',
                upto as int,
            ),
        decreases upto,
    {
        if chars[upto - 1] == '/' {
            return String::from_str(path.substring_char(0, upto - 1));
        }
        upto -= 1;
    }
    String::new()
}

} // verus!
