//! Finishing a branch: the commit message that the branch name and the
//! pending message give, and the step that may follow the commit.

use vstd::prelude::*;
use vstd::string::*;
use crate::codec::{decode, decode_spec, segments, BranchParts, BranchPartsView};
use crate::error::{GwfError, GwfErrorView};
use crate::store::{
    get, get_spec, pending_text, pending_text_spec, record_name, record_name_spec, PendingRead,
    PendingReadView,
};

verus! {

/// The name of the configuration file, at the repository's root or in the
/// store's directory.
pub const CONFIG_FILE: &'static str = "gwf.toml";

/// The conventional commit message for the parts of a branch name and a
/// text: `type: text`, or `type(scope): text` where there is a scope.
pub open spec fn commit_message_spec(parts: BranchPartsView, text: Seq<char>) -> Seq<char> {
    if parts.scope.len() == 0 {
        parts.commit_type + seq![':', ' '] + text
    } else {
        parts.commit_type + seq!['('] + parts.scope + seq![')', ':', ' '] + text
    }
}

/// Builds the conventional commit message for the parts of a branch name and
/// a text.
pub fn commit_message(parts: &BranchParts, text: &str) -> (message: String)
    ensures
        message@ == commit_message_spec(parts@, text@),
{
    proof {
        reveal_strlit(": ");
        reveal_strlit("(");
        reveal_strlit("): ");
        assert(": "@ =~= seq![':', ' ']);
        assert("("@ =~= seq!['(']);
        assert("): "@ =~= seq![')', ':', ' ']);
    }
    let mut message = String::from_str(parts.commit_type.as_str());
    if parts.scope.as_str().is_empty() {
        message.append(": ");
    } else {
        message.append("(");
        message.append(parts.scope.as_str());
        message.append("): ");
    }
    message.append(text);
    message
}

/// The commit message that finishing gives, or why it fails. Without a
/// current branch it fails as `DetachedHead`; with a name that does not decode,
/// as `InvalidBranchFormat`; without a stored message, as the store says.
/// Otherwise the message is built from the name's type and scope and from the
/// stored text without the line feeds at its end.
pub open spec fn finish_spec(branch: Option<Seq<char>>, read: PendingReadView) -> Result<
    Seq<char>,
    GwfErrorView,
> {
    match branch {
        None => Err(GwfErrorView::DetachedHead),
        Some(name) => match decode_spec(name) {
            None => Err(GwfErrorView::InvalidBranchFormat(name)),
            Some(parts) => match get_spec(read) {
                Err(reason) => Err(reason),
                Ok(contents) => Ok(commit_message_spec(parts, pending_text_spec(contents))),
            },
        },
    }
}

/// The parts of the current branch's name: `DetachedHead` where `HEAD` is on
/// no branch, `InvalidBranchFormat` where the name does not decode.
pub fn current_parts(branch: Option<&str>) -> (decoded: Result<BranchParts, GwfError>)
    ensures
        match branch {
            None => decoded matches Err(e) && e@ == GwfErrorView::DetachedHead,
            Some(name) => match decode_spec(name@) {
                Some(parts) => decoded matches Ok(found) && found@ == parts,
                None => decoded matches Err(e) && e@ == GwfErrorView::InvalidBranchFormat(name@),
            },
        },
{
    match branch {
        None => Err(GwfError::DetachedHead),
        Some(name) => decode(name),
    }
}

/// The file of the store that finishing reads: the one kept under the
/// current branch's own name. There is none to read where `HEAD` is on no
/// branch, or on one whose name does not decode.
pub open spec fn pending_file_spec(branch: Option<Seq<char>>) -> Result<Seq<char>, GwfErrorView> {
    match branch {
        None => Err(GwfErrorView::DetachedHead),
        Some(name) => match decode_spec(name) {
            None => Err(GwfErrorView::InvalidBranchFormat(name)),
            Some(_) => Ok(record_name_spec(name)),
        },
    }
}

/// Names the file of the store to read before finishing, or says why
/// finishing fails before any file is read.
pub fn pending_file(branch: Option<&str>) -> (file: Result<String, GwfError>)
    ensures
        match pending_file_spec(
            match branch {
                Some(name) => Some(name@),
                None => None,
            },
        ) {
            Ok(name) => file matches Ok(found) && found@ == name,
            Err(reason) => file matches Err(e) && e@ == reason,
        },
{
    match current_parts(branch) {
        Err(e) => Err(e),
        Ok(_) => match branch {
            Some(name) => Ok(record_name(name)),
            None => Err(GwfError::DetachedHead),
        },
    }
}

/// Decides the commit message on finishing: from the short name of the
/// current branch, if `HEAD` is on one, and from what reading that branch's
/// file in the store gave.
pub fn finish(branch: Option<&str>, read: PendingRead) -> (message: Result<String, GwfError>)
    ensures
        match finish_spec(
            match branch {
                Some(name) => Some(name@),
                None => None,
            },
            read@,
        ) {
            Ok(text) => message matches Ok(built) && built@ == text,
            Err(reason) => message matches Err(e) && e@ == reason,
        },
{
    let parts = match current_parts(branch) {
        Ok(parts) => parts,
        Err(e) => {
            return Err(e);
        },
    };
    let contents = match get(read) {
        Ok(contents) => contents,
        Err(e) => {
            return Err(e);
        },
    };
    let text = pending_text(contents.as_str());
    Ok(commit_message(&parts, text.as_str()))
}

/// On a branch whose name has two segments, a stored message gives the commit
/// message `type: text`.
pub proof fn lemma_finish_without_scope(name: Seq<char>, contents: Seq<char>)
    requires
        segments(name).len() == 2,
    ensures
        finish_spec(Some(name), PendingReadView::Found(contents)) == Ok::<Seq<char>, GwfErrorView>(
            segments(name)[0] + seq![':', ' '] + pending_text_spec(contents),
        ),
{
}

/// On a branch whose name has three segments, the second of them not empty, a
/// stored message gives the commit message `type(scope): text`.
pub proof fn lemma_finish_with_scope(name: Seq<char>, contents: Seq<char>)
    requires
        segments(name).len() == 3,
        segments(name)[1].len() > 0,
    ensures
        finish_spec(Some(name), PendingReadView::Found(contents)) == Ok::<Seq<char>, GwfErrorView>(
            segments(name)[0] + seq!['('] + segments(name)[1] + seq![')', ':', ' '] + pending_text_spec(
                contents,
            ),
        ),
{
}

/// On a branch whose name decodes, finishing without a stored message fails
/// with `NotFound`.
pub proof fn lemma_finish_not_found(name: Seq<char>)
    requires
        decode_spec(name) is Some,
    ensures
        finish_spec(Some(name), PendingReadView::Missing) == Err::<Seq<char>, GwfErrorView>(
            GwfErrorView::NotFound,
        ),
{
}

/// On a branch whose name has neither two nor three segments, finishing fails
/// with `InvalidBranchFormat`, whatever the store holds.
pub proof fn lemma_finish_invalid_name(name: Seq<char>, read: PendingReadView)
    requires
        segments(name).len() != 2,
        segments(name).len() != 3,
    ensures
        finish_spec(Some(name), read) == Err::<Seq<char>, GwfErrorView>(
            GwfErrorView::InvalidBranchFormat(name),
        ),
{
}

/// The post-commit configuration: the command to run, through a shell, after
/// a commit was made.
#[derive(Debug, Clone, PartialEq, Eq)]
pub struct Config {
    post_commit_command: String,
}

impl View for Config {
    type V = Seq<char>;

    closed spec fn view(&self) -> Seq<char> {
        self.post_commit_command@
    }
}

impl Config {
    /// A configuration with the given post-commit command.
    pub fn new(post_commit_command: String) -> (config: Config)
        ensures
            config@ == post_commit_command@,
    {
        Config { post_commit_command }
    }

    /// The command to run after a commit.
    pub fn post_commit_command(&self) -> (command: &str)
        ensures
            command@ == self@,
    {
        self.post_commit_command.as_str()
    }
}

/// What came of looking for a configuration file at one place.
#[derive(Debug, Clone, PartialEq, Eq)]
pub enum ConfigProbe {
    /// There is no file.
    Absent,
    /// There is a file, and it could not be read.
    Unreadable,
    /// The file was read, and it does not hold a post-commit command.
    Unparseable,
    /// The file holds this configuration.
    Parsed(Config),
}

/// The mathematical value of a `ConfigProbe`.
pub enum ConfigProbeView {
    Absent,
    Unreadable,
    Unparseable,
    Parsed(Seq<char>),
}

impl View for ConfigProbe {
    type V = ConfigProbeView;

    open spec fn view(&self) -> ConfigProbeView {
        match self {
            ConfigProbe::Absent => ConfigProbeView::Absent,
            ConfigProbe::Unreadable => ConfigProbeView::Unreadable,
            ConfigProbe::Unparseable => ConfigProbeView::Unparseable,
            ConfigProbe::Parsed(config) => ConfigProbeView::Parsed(config@),
        }
    }
}

/// What a place gives: its configuration, nothing where there is no file,
/// `ConfigUnreadable` where the file cannot be read or parsed.
pub open spec fn probe_config_spec(probe: ConfigProbeView) -> Result<Option<Seq<char>>, GwfErrorView> {
    match probe {
        ConfigProbeView::Absent => Ok(None),
        ConfigProbeView::Parsed(command) => Ok(Some(command)),
        _ => Err(GwfErrorView::ConfigUnreadable),
    }
}

/// The command that finishing is to run: the repository's own file decides
/// wherever it exists, the user's file otherwise, and a file that cannot be
/// read or parsed counts as no configuration.
pub open spec fn load_config_spec(local: ConfigProbeView, global: ConfigProbeView) -> Option<Seq<char>> {
    let chosen = if local is Absent { global } else { local };
    match probe_config_spec(chosen) {
        Ok(found) => found,
        Err(_) => None,
    }
}

/// Reads what one place gives.
pub fn probe_config(probe: ConfigProbe) -> (found: Result<Option<Config>, GwfError>)
    ensures
        match probe_config_spec(probe@) {
            Ok(Some(command)) => found matches Ok(Some(config)) && config@ == command,
            Ok(None) => found matches Ok(None),
            Err(reason) => found matches Err(e) && e@ == reason,
        },
{
    match probe {
        ConfigProbe::Absent => Ok(None),
        ConfigProbe::Parsed(config) => Ok(Some(config)),
        ConfigProbe::Unreadable => Err(GwfError::ConfigUnreadable),
        ConfigProbe::Unparseable => Err(GwfError::ConfigUnreadable),
    }
}

/// Loads the post-commit configuration from what the two places gave: the
/// repository's root first, the store's directory second. That there is none,
/// or none that can be used, is no failure.
pub fn load_config(local: ConfigProbe, global: ConfigProbe) -> (config: Option<Config>)
    ensures
        match load_config_spec(local@, global@) {
            Some(command) => config matches Some(found) && found@ == command,
            None => config is None,
        },
        local@ is Absent && global@ is Absent ==> config is None,
{
    let chosen = match local {
        ConfigProbe::Absent => global,
        other => other,
    };
    match probe_config(chosen) {
        Ok(found) => found,
        Err(_) => None,
    }
}

/// What the post-commit command left behind.
#[derive(Debug, Clone, PartialEq, Eq)]
pub struct CommandOutput {
    /// What it wrote to its standard output.
    pub stdout: String,
    /// What it wrote to its standard error.
    pub stderr: String,
    /// Whether it ended successfully.
    pub success: bool,
    /// Its exit code, where it has one.
    pub code: Option<i32>,
}

/// What to report of the post-commit command.
#[derive(Debug, Clone, PartialEq, Eq)]
pub struct PostCommitReport {
    /// Its standard output, where it wrote any.
    pub output: Option<String>,
    /// Its standard error, where it wrote any.
    pub errors: Option<String>,
    /// The failure to report, where it did not end successfully. The commit
    /// stands either way.
    pub failure: Option<GwfError>,
}

/// The exit code to report for a command that failed: its own, or -1 where
/// it has none.
pub open spec fn reported_code(code: Option<i32>) -> i32 {
    match code {
        Some(n) => n,
        None => -1i32,
    }
}

/// Says what to report of the post-commit command: each stream that is not
/// empty, and the failure with its exit code where the command did not end
/// successfully.
pub fn post_commit_report(result: CommandOutput) -> (report: PostCommitReport)
    ensures
        match report.output {
            Some(text) => result.stdout@.len() > 0 && text@ == result.stdout@,
            None => result.stdout@.len() == 0,
        },
        match report.errors {
            Some(text) => result.stderr@.len() > 0 && text@ == result.stderr@,
            None => result.stderr@.len() == 0,
        },
        match report.failure {
            Some(e) => !result.success && e@ == GwfErrorView::PostCommitCommandFailed(
                reported_code(result.code),
            ),
            None => result.success,
        },
{
    let failure = if result.success {
        None
    } else {
        Some(
            GwfError::PostCommitCommandFailed(
                match result.code {
                    Some(n) => n,
                    None => -1i32,
                },
            ),
        )
    };
    let output = if result.stdout.as_str().is_empty() {
        None
    } else {
        Some(result.stdout)
    };
    let errors = if result.stderr.as_str().is_empty() {
        None
    } else {
        Some(result.stderr)
    };
    PostCommitReport { output, errors, failure }
}

} // verus!
