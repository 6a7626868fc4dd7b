//! The verified core of a console that curates a task plan, generates a
//! checklist from it with background workers, and follows a batch run.
use vstd::prelude::*;

/// Text as character sequences: trimming, lines, splitting, joining.
pub mod text;
/// Plan and checklist tasks, and their views.
pub mod model;
/// Free text that becomes tasks.
pub mod request;
/// Merging the results of a checklist fan-out.
pub mod fanout;
/// The console's focus and overlay state machine and its job slots.
pub mod console;
/// Prompts for the worker tool and the reading of its answers.
pub mod prompt;
/// Project paths, configuration choices and run planning.
pub mod project;
/// Console questions and their answers.
pub mod question;

verus! {

} // verus!
