//! The action contract: every unit of system mutation can describe itself,
//! apply itself, and undo itself, and is wrapped in a persisted
//! completed/not-completed marker so re-execution is idempotent.

use vstd::prelude::*;

verus! {

/// A stable identifier naming an action variant; used for tracing and as the
/// discriminator when a persisted action tree is reloaded.
#[derive(Clone, Debug, PartialEq)]
pub struct ActionTag {
    pub name: String,
}

/// Pure presentation data: a one-line synopsis paired with the ordered list
/// of step explanations an `execute` or `revert` pass will carry out. Not
/// used for control flow.
#[derive(Clone, Debug, PartialEq)]
pub struct ActionDescription {
    pub description: String,
    pub explanation: Vec<String>,
}

/// Spec-level image of an `ActionDescription`.
#[verifier::ext_equal]
pub struct DescriptionModel {
    pub synopsis: Seq<char>,
    pub explanation: Seq<Seq<char>>,
}

impl ActionDescription {
    pub open spec fn model(&self) -> DescriptionModel {
        DescriptionModel { synopsis: self.description@, explanation: self.explanation.deep_view() }
    }

    pub fn new(description: String, explanation: Vec<String>) -> (r: ActionDescription)
        ensures
            r.model() == (DescriptionModel {
                synopsis: description@,
                explanation: explanation.deep_view(),
            }),
    {
        ActionDescription { description, explanation }
    }
}

/// Why an `execute` or `revert` step failed: an I/O failure on a specific
/// path (with the underlying cause), or a control command that could not be
/// run or exited non-zero (with its captured output). A child action's
/// failure is propagated unchanged, not wrapped a second time.
#[derive(Clone, Debug, PartialEq)]
pub enum ActionError {
    /// Opening or creating the file at `path` failed.
    Open { path: String, cause: String },
    /// Writing to the already opened file at `path` failed.
    Write { path: String, cause: String },
    /// An init-system control command failed to spawn or exited non-zero.
    Command { program: String, args: Vec<String>, output: String },
}

/// The outcome a driver reports for a requested descriptor write: which of
/// the two file operations failed, with the underlying cause.
#[derive(Clone, Debug, PartialEq)]
pub enum FileWriteError {
    Open { cause: String },
    Write { cause: String },
}

/// A file write an action asks its driver to perform: create or truncate
/// `path` and write `contents` to it.
#[derive(Clone, Debug, PartialEq)]
pub struct FileWrite {
    pub path: String,
    pub contents: Vec<u8>,
}

/// A command an action asks its driver to run, with captured output.
#[derive(Clone, Debug, PartialEq)]
pub struct CommandRun {
    pub program: String,
    pub args: Vec<String>,
}

/// First step of `try_execute`: either the wrapper is already complete and
/// nothing may be touched, or the descriptor write to perform next.
#[derive(Clone, Debug, PartialEq)]
pub enum ExecuteStart {
    AlreadyComplete,
    WriteDescriptor(FileWrite),
}

/// First step of `try_revert`: either the wrapper was never completed and
/// nothing may be touched, or the unregistration command to run next.
#[derive(Clone, Debug, PartialEq)]
pub enum RevertStart {
    AlreadyReverted,
    Unregister(CommandRun),
}

/// An action decorated with a persisted completed marker. The marker flips
/// false to true only on a successful execute and true to false only on a
/// successful revert, so a resumed install never repeats an applied step.
#[derive(Clone, Debug, PartialEq)]
pub struct StatefulAction<A> {
    pub action: A,
    pub completed: bool,
}

impl<A> StatefulAction<A> {
    /// Wrap a freshly planned action: nothing has run yet.
    pub fn uncompleted(action: A) -> (r: StatefulAction<A>)
        ensures
            r.action == action,
            !r.completed,
    {
        StatefulAction { action, completed: false }
    }
}

/// The contract every action variant implements: a constant tag, a synopsis
/// computed from the action's resolved parameters, and dry-run previews that
/// enumerate exactly the side effects `execute` and `revert` will cause.
pub trait Action: Sized {
    /// The tag's characters.
    spec fn spec_tag() -> Seq<char>;

    /// The synopsis's characters, as a function of the resolved parameters.
    spec fn spec_synopsis(&self) -> Seq<char>;

    /// What `execute_description` must report, entry by entry.
    spec fn spec_execute_description(&self) -> Seq<DescriptionModel>;

    /// What `revert_description` must report, entry by entry.
    spec fn spec_revert_description(&self) -> Seq<DescriptionModel>;

    /// Constant identifier of this action variant; no side effects.
    fn action_tag() -> (r: ActionTag)
        ensures
            r.name@ == Self::spec_tag(),
    ;

    /// One-line human description of what this action does.
    fn tracing_synopsis(&self) -> (r: String)
        ensures
            r@ == self.spec_synopsis(),
    ;

    /// Dry-run preview of `execute`; performs no mutation.
    fn execute_description(&self) -> (r: Vec<ActionDescription>)
        ensures
            r@.len() == self.spec_execute_description().len(),
            forall|i: int|
                0 <= i < r@.len() ==> (#[trigger] r@[i]).model()
                    == self.spec_execute_description()[i],
    ;

    /// Dry-run preview of `revert`; performs no mutation.
    fn revert_description(&self) -> (r: Vec<ActionDescription>)
        ensures
            r@.len() == self.spec_revert_description().len(),
            forall|i: int|
                0 <= i < r@.len() ==> (#[trigger] r@[i]).model()
                    == self.spec_revert_description()[i],
    ;
}

} // verus!
