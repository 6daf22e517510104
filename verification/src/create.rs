//! Creating a branch: the questions to ask for what was not given, the name
//! of the branch, and what is to be written once it exists.

use vstd::prelude::*;
use vstd::string::*;
use crate::codec::{encode, encode_spec, encoded_parts};
use crate::error::{GwfError, GwfErrorView};
use crate::finish::{commit_message_spec, finish_spec, pending_file_spec};
use crate::store::{
    lemma_text_of_contents, put, record_contents_spec, record_name_spec, single_line, PendingReadView,
    PendingWrite,
};
use crate::text::{contains, contains_text, trim, trim_spec};

verus! {

/// The commit types that the conventional-commit vocabulary knows, in the
/// order in which they are offered.
pub open spec fn conventional_types_spec() -> Seq<Seq<char>> {
    seq![
        "feat"@,
        "fix"@,
        "docs"@,
        "style"@,
        "refactor"@,
        "perf"@,
        "test"@,
        "build"@,
        "ci"@,
        "chore"@,
    ]
}

/// The known commit types, in the order in which they are offered. They are
/// advice: any text is accepted as a type.
pub fn conventional_types() -> (types: Vec<&'static str>)
    ensures
        types@.len() == conventional_types_spec().len(),
        forall|i: int| 0 <= i < types@.len() ==> (#[trigger] types@[i])@ == conventional_types_spec()[i],
{
    vec!["feat", "fix", "docs", "style", "refactor", "perf", "test", "build", "ci", "chore"]
}

/// How a question is put to the user.
#[derive(Debug, Clone, Copy, PartialEq, Eq, Structural)]
pub enum PromptKind {
    /// A selection among the known commit types.
    Choice,
    /// A line of free text.
    Text,
}

/// A prompt asks for the commit type where it holds the words
/// "type of the commit".
pub open spec fn asks_for_type(prompt: Seq<char>) -> bool {
    contains_text(prompt, "type of the commit"@)
}

/// How to put a prompt: as a choice among the known types where it asks for
/// the commit type, as a line of text otherwise.
pub fn prompt_kind(prompt: &str) -> (kind: PromptKind)
    ensures
        kind == if asks_for_type(prompt@) { PromptKind::Choice } else { PromptKind::Text },
{
    if contains(prompt, "type of the commit") {
        PromptKind::Choice
    } else {
        PromptKind::Text
    }
}

/// What the user answered.
#[derive(Debug, Clone, PartialEq, Eq)]
pub enum PromptReply {
    /// The place of the chosen commit type among the known ones.
    Selection(usize),
    /// The line that was typed.
    Line(String),
}

/// The mathematical value of a `PromptReply`.
pub enum PromptReplyView {
    Selection(int),
    Line(Seq<char>),
}

impl View for PromptReply {
    type V = PromptReplyView;

    open spec fn view(&self) -> PromptReplyView {
        match self {
            PromptReply::Selection(at) => PromptReplyView::Selection(*at as int),
            PromptReply::Line(line) => PromptReplyView::Line(line@),
        }
    }
}

/// The answer that a reply to a prompt stands for. A typed line counts
/// without the white space around it, for any prompt. A selection counts for
/// a prompt that asks for the commit type, and stands for the known type at
/// that place; any other selection stands for nothing.
pub open spec fn prompt_user_spec(prompt: Seq<char>, reply: PromptReplyView) -> Option<Seq<char>> {
    match reply {
        PromptReplyView::Line(line) => Some(trim_spec(line)),
        PromptReplyView::Selection(at) => if asks_for_type(prompt) && 0 <= at
            < conventional_types_spec().len() {
            Some(conventional_types_spec()[at])
        } else {
            None
        },
    }
}

/// Turns the reply to a prompt into the answer it stands for.
pub fn prompt_user(prompt: &str, reply: PromptReply) -> (answer: Option<String>)
    ensures
        match prompt_user_spec(prompt@, reply@) {
            Some(text) => answer matches Some(given) && given@ == text,
            None => answer is None,
        },
{
    match reply {
        PromptReply::Line(line) => Some(trim(line.as_str())),
        PromptReply::Selection(at) => {
            let types = conventional_types();
            match prompt_kind(prompt) {
                PromptKind::Choice => if at < types.len() {
                    Some(String::from_str(types[at]))
                } else {
                    None
                },
                PromptKind::Text => None,
            }
        },
    }
}

/// The value for a field of the new branch: what was given on the command
/// line, or else the answer to the prompt.
pub fn field_value(given: Option<String>, answer: Option<String>) -> (value: Option<String>)
    ensures
        value == if given is Some { given } else { answer },
{
    match given {
        Some(text) => Some(text),
        None => answer,
    }
}

/// All that creating a branch takes, once the repository is open.
#[derive(Debug, Clone, PartialEq, Eq)]
pub struct NewBranch {
    /// The name of the branch to create from the current `HEAD` commit.
    pub name: String,
    /// The reference that `HEAD` is to point at afterwards.
    pub head_ref: String,
    /// The write that keeps the message until the branch is finished.
    pub write: PendingWrite,
    /// The line that reports the new branch.
    pub report: String,
}

/// Plans a new branch for a commit type, a scope and a message: its name is
/// the encoded one, `HEAD` moves to it, and the message is kept in the store
/// under the branch's name. Finishing on that branch reads the file that was
/// written, and for a message of one line it gives the conventional commit
/// message of the slugs of type and scope and of the message as it was given.
pub fn new_branch(commit_type: &str, scope: &str, message: &str) -> (plan: NewBranch)
    ensures
        plan.name@ == encode_spec(commit_type@, scope@, message@),
        plan.head_ref@ == "refs/heads/"@ + plan.name@,
        plan.write.file_name@ == record_name_spec(plan.name@),
        plan.write.contents@ == record_contents_spec(message@),
        plan.report@ == "Branch created and checked out: "@ + plan.name@,
        pending_file_spec(Some(plan.name@)) == Ok::<Seq<char>, GwfErrorView>(plan.write.file_name@),
        single_line(message@) ==> finish_spec(
            Some(plan.name@),
            PendingReadView::Found(plan.write.contents@),
        ) == Ok::<Seq<char>, GwfErrorView>(
            commit_message_spec(encoded_parts(commit_type@, scope@, message@), message@),
        ),
{
    proof {
        if single_line(message@) {
            lemma_text_of_contents(message@);
        }
    }
    let name = encode(commit_type, scope, message);
    let mut head_ref = String::from_str("refs/heads/");
    head_ref.append(name.as_str());
    let write = put(name.as_str(), message);
    let mut report = String::from_str("Branch created and checked out: ");
    report.append(name.as_str());
    NewBranch { name, head_ref, write, report }
}

/// A step of a workflow that asks the repository for something.
#[derive(Debug, Clone, Copy, PartialEq, Eq, Structural)]
pub enum RepoStep {
    /// Opening the repository at the working directory.
    Open,
    /// Resolving the commit that `HEAD` points at.
    ResolveHead,
    /// Creating the branch.
    CreateBranch,
}

/// Why the repository refused a step.
#[derive(Debug, Clone, Copy, PartialEq, Eq, Structural)]
pub enum RepoFault {
    /// What was asked for does not exist.
    NotFound,
    /// `HEAD` points at a branch that has no commit.
    Unborn,
    /// What was to be created exists.
    Exists,
    /// Anything else.
    Other,
}

/// The failure that a refused step means for the workflow, where it has a
/// name of its own: no repository on opening, no commit yet on resolving
/// `HEAD`, a branch of that name on creating it.
pub open spec fn repo_error_spec(step: RepoStep, fault: RepoFault) -> Option<GwfErrorView> {
    match (step, fault) {
        (RepoStep::Open, RepoFault::NotFound) => Some(GwfErrorView::RepositoryNotFound),
        (RepoStep::ResolveHead, RepoFault::Unborn) => Some(GwfErrorView::NoCommitsYet),
        (RepoStep::CreateBranch, RepoFault::Exists) => Some(GwfErrorView::BranchAlreadyExists),
        _ => None,
    }
}

/// Names the failure of a step that the repository refused. Where it gives
/// nothing, the repository's own error is the one to report.
pub fn repo_error(step: RepoStep, fault: RepoFault) -> (named: Option<GwfError>)
    ensures
        match repo_error_spec(step, fault) {
            Some(e) => named matches Some(found) && found@ == e,
            None => named is None,
        },
{
    match step {
        RepoStep::Open => match fault {
            RepoFault::NotFound => Some(GwfError::RepositoryNotFound),
            _ => None,
        },
        RepoStep::ResolveHead => match fault {
            RepoFault::Unborn => Some(GwfError::NoCommitsYet),
            _ => None,
        },
        RepoStep::CreateBranch => match fault {
            RepoFault::Exists => Some(GwfError::BranchAlreadyExists),
            _ => None,
        },
    }
}

} // verus!
