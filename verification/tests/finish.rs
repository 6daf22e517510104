use gwf::codec::BranchParts;
use gwf::create::new_branch;
use gwf::error::GwfError;
use gwf::finish::{
    commit_message, current_parts, finish, load_config, pending_file, post_commit_report,
    probe_config, CommandOutput, Config, ConfigProbe, PostCommitReport, CONFIG_FILE,
};
use gwf::store::PendingRead;

fn found(contents: &str) -> PendingRead {
    PendingRead::Found(contents.to_string())
}

fn parsed(command: &str) -> ConfigProbe {
    ConfigProbe::Parsed(Config::new(command.to_string()))
}

fn output(stdout: &str, stderr: &str, success: bool, code: Option<i32>) -> CommandOutput {
    CommandOutput { stdout: stdout.to_string(), stderr: stderr.to_string(), success, code }
}

#[test]
fn commit_message_without_scope() {
    let parts = BranchParts {
        commit_type: "chore".to_string(),
        scope: String::new(),
        message: "cleanup".to_string(),
    };
    assert_eq!(commit_message(&parts, "cleanup"), "chore: cleanup");
}

#[test]
fn commit_message_with_scope() {
    let parts = BranchParts {
        commit_type: "feat".to_string(),
        scope: "api".to_string(),
        message: "add-login".to_string(),
    };
    assert_eq!(commit_message(&parts, "add login"), "feat(api): add login");
}

#[test]
fn finish_on_two_segments() {
    assert_eq!(finish(Some("fix/typo"), found("Fix a typo\n")), Ok("fix: Fix a typo".to_string()));
}

#[test]
fn finish_on_three_segments() {
    assert_eq!(
        finish(Some("fix/docs/typo"), found("Fix a typo\n")),
        Ok("fix(docs): Fix a typo".to_string())
    );
}

#[test]
fn finish_on_three_segments_with_an_empty_scope() {
    assert_eq!(finish(Some("fix//typo"), found("Fix a typo\n")), Ok("fix: Fix a typo".to_string()));
}

#[test]
fn finish_uses_the_stored_text_not_the_slug() {
    assert_eq!(
        finish(Some("feat/ui/add-button"), found("Add the BIG red button!\n")),
        Ok("feat(ui): Add the BIG red button!".to_string())
    );
}

#[test]
fn finish_without_a_pending_message_is_not_found() {
    assert_eq!(finish(Some("feat/api/add-login"), PendingRead::Missing), Err(GwfError::NotFound));
}

#[test]
fn finish_on_a_failed_read_is_an_io_error() {
    assert_eq!(
        finish(Some("feat/api/add-login"), PendingRead::Failed("disk on fire".to_string())),
        Err(GwfError::Io("disk on fire".to_string()))
    );
}

#[test]
fn finish_on_main_is_an_invalid_branch_format() {
    assert_eq!(
        finish(Some("main"), found("text\n")),
        Err(GwfError::InvalidBranchFormat("main".to_string()))
    );
}

#[test]
fn finish_on_four_segments_is_an_invalid_branch_format() {
    assert_eq!(
        finish(Some("a/b/c/d"), found("text\n")),
        Err(GwfError::InvalidBranchFormat("a/b/c/d".to_string()))
    );
}

#[test]
fn invalid_branch_format_comes_before_not_found() {
    assert_eq!(
        finish(Some("main"), PendingRead::Missing),
        Err(GwfError::InvalidBranchFormat("main".to_string()))
    );
}

#[test]
fn finish_off_a_branch_is_a_detached_head() {
    assert_eq!(finish(None, found("text\n")), Err(GwfError::DetachedHead));
    assert_eq!(finish(None, PendingRead::Missing), Err(GwfError::DetachedHead));
}

#[test]
fn current_parts_of_a_branch() {
    assert_eq!(
        current_parts(Some("feat/api/add-login")),
        Ok(BranchParts {
            commit_type: "feat".to_string(),
            scope: "api".to_string(),
            message: "add-login".to_string(),
        })
    );
    assert_eq!(current_parts(None), Err(GwfError::DetachedHead));
    assert_eq!(
        current_parts(Some("main")),
        Err(GwfError::InvalidBranchFormat("main".to_string()))
    );
}

#[test]
fn pending_file_is_kept_under_the_branch_name() {
    assert_eq!(pending_file(Some("feat/api/add-login")), Ok("feat-api-add-login".to_string()));
    assert_eq!(pending_file(Some("chore/cleanup")), Ok("chore-cleanup".to_string()));
}

#[test]
fn pending_file_of_no_branch_or_a_bad_name() {
    assert_eq!(pending_file(None), Err(GwfError::DetachedHead));
    assert_eq!(pending_file(Some("main")), Err(GwfError::InvalidBranchFormat("main".to_string())));
}

#[test]
fn create_then_finish_reads_the_file_that_was_written() {
    let plan = new_branch("feat", "api", "add login");
    assert_eq!(pending_file(Some(&plan.name)), Ok(plan.write.file_name));
}

#[test]
fn create_then_finish_with_scope() {
    let plan = new_branch("feat", "api", "add login");
    assert_eq!(plan.name, "feat/api/add-login");
    assert_eq!(plan.write.contents, "add login\n");
    let message = finish(Some(&plan.name), PendingRead::Found(plan.write.contents));
    assert_eq!(message, Ok("feat(api): add login".to_string()));
}

#[test]
fn create_then_finish_without_scope() {
    let plan = new_branch("chore", "", "cleanup");
    assert_eq!(plan.name, "chore/cleanup");
    let message = finish(Some(&plan.name), PendingRead::Found(plan.write.contents));
    assert_eq!(message, Ok("chore: cleanup".to_string()));
}

#[test]
fn config_file_name() {
    assert_eq!(CONFIG_FILE, "gwf.toml");
}

#[test]
fn config_keeps_its_command() {
    let config = Config::new("cargo test".to_string());
    assert_eq!(config.post_commit_command(), "cargo test");
}

#[test]
fn no_config_at_either_place_means_no_post_commit_step() {
    assert_eq!(load_config(ConfigProbe::Absent, ConfigProbe::Absent), None);
}

#[test]
fn local_config_wins_over_the_global_one() {
    assert_eq!(
        load_config(parsed("make local"), parsed("make global")),
        Some(Config::new("make local".to_string()))
    );
}

#[test]
fn global_config_is_used_where_there_is_no_local_one() {
    assert_eq!(
        load_config(ConfigProbe::Absent, parsed("make global")),
        Some(Config::new("make global".to_string()))
    );
}

#[test]
fn local_config_that_cannot_be_used_is_no_config() {
    assert_eq!(load_config(ConfigProbe::Unreadable, parsed("make global")), None);
    assert_eq!(load_config(ConfigProbe::Unparseable, parsed("make global")), None);
}

#[test]
fn global_config_that_cannot_be_used_is_no_config() {
    assert_eq!(load_config(ConfigProbe::Absent, ConfigProbe::Unreadable), None);
    assert_eq!(load_config(ConfigProbe::Absent, ConfigProbe::Unparseable), None);
}

#[test]
fn probe_config_names_what_is_swallowed() {
    assert_eq!(probe_config(ConfigProbe::Absent), Ok(None));
    assert_eq!(probe_config(parsed("x")), Ok(Some(Config::new("x".to_string()))));
    assert_eq!(probe_config(ConfigProbe::Unreadable), Err(GwfError::ConfigUnreadable));
    assert_eq!(probe_config(ConfigProbe::Unparseable), Err(GwfError::ConfigUnreadable));
}

#[test]
fn report_of_a_quiet_success() {
    assert_eq!(
        post_commit_report(output("", "", true, Some(0))),
        PostCommitReport { output: None, errors: None, failure: None }
    );
}

#[test]
fn report_carries_each_stream_that_is_not_empty() {
    assert_eq!(
        post_commit_report(output("built\n", "warning\n", true, Some(0))),
        PostCommitReport {
            output: Some("built\n".to_string()),
            errors: Some("warning\n".to_string()),
            failure: None,
        }
    );
    assert_eq!(
        post_commit_report(output("built\n", "", true, Some(0))),
        PostCommitReport { output: Some("built\n".to_string()), errors: None, failure: None }
    );
}

#[test]
fn report_of_a_failure_carries_the_exit_code() {
    assert_eq!(
        post_commit_report(output("", "boom", false, Some(3))),
        PostCommitReport {
            output: None,
            errors: Some("boom".to_string()),
            failure: Some(GwfError::PostCommitCommandFailed(3)),
        }
    );
}

#[test]
fn report_of_a_failure_without_exit_code() {
    assert_eq!(
        post_commit_report(output("", "", false, None)),
        PostCommitReport {
            output: None,
            errors: None,
            failure: Some(GwfError::PostCommitCommandFailed(-1)),
        }
    );
}
