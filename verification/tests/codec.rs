use gwf::codec::{decode, encode, join_segments, split_segments, BranchParts};
use gwf::error::GwfError;

fn parts(commit_type: &str, scope: &str, message: &str) -> BranchParts {
    BranchParts {
        commit_type: commit_type.to_string(),
        scope: scope.to_string(),
        message: message.to_string(),
    }
}

#[test]
fn encode_with_scope_has_three_segments() {
    assert_eq!(encode("feat", "api", "add login"), "feat/api/add-login");
}

#[test]
fn encode_without_scope_has_two_segments() {
    assert_eq!(encode("chore", "", "cleanup"), "chore/cleanup");
}

#[test]
fn encode_slugifies_each_component() {
    assert_eq!(encode("Feat!", "My API", "  Add   Login!! "), "feat/my-api/add-login");
    assert_eq!(encode("fix", "ui/ux", "a/b"), "fix/ui-ux/a-b");
}

#[test]
fn encode_transliterates_non_ascii_text() {
    assert_eq!(encode("docs", "", "Æúű--cool?"), "docs/aeuu-cool");
}

#[test]
fn encode_is_deterministic() {
    let first = encode("feat", "api", "add login");
    let second = encode("feat", "api", "add login");
    assert_eq!(first, second);
}

#[test]
fn encode_keeps_a_scope_whose_slug_is_empty() {
    let name = encode("feat", "!!!", "x");
    assert_eq!(name, "feat//x");
    assert_eq!(split_segments(&name).len(), 3);
    assert_eq!(decode(&name), Ok(parts("feat", "", "x")));
}

#[test]
fn encode_of_empty_type_still_has_two_segments() {
    assert_eq!(encode("", "", "cleanup"), "/cleanup");
    assert_eq!(decode("/cleanup"), Ok(parts("", "", "cleanup")));
}

#[test]
fn decode_two_segments() {
    assert_eq!(decode("chore/cleanup"), Ok(parts("chore", "", "cleanup")));
}

#[test]
fn decode_three_segments() {
    assert_eq!(decode("feat/api/add-login"), Ok(parts("feat", "api", "add-login")));
}

#[test]
fn decode_accepts_any_text_as_type() {
    assert_eq!(decode("Whatever/It Is"), Ok(parts("Whatever", "", "It Is")));
}

#[test]
fn decode_rejects_one_segment() {
    assert_eq!(decode("main"), Err(GwfError::InvalidBranchFormat("main".to_string())));
}

#[test]
fn decode_rejects_the_empty_name() {
    assert_eq!(decode(""), Err(GwfError::InvalidBranchFormat(String::new())));
}

#[test]
fn decode_rejects_four_segments() {
    assert_eq!(decode("a/b/c/d"), Err(GwfError::InvalidBranchFormat("a/b/c/d".to_string())));
}

#[test]
fn decode_rejects_many_segments() {
    assert_eq!(
        decode("a/b/c/d/e/f"),
        Err(GwfError::InvalidBranchFormat("a/b/c/d/e/f".to_string()))
    );
    assert_eq!(decode("///"), Err(GwfError::InvalidBranchFormat("///".to_string())));
}

#[test]
fn decode_of_encode_gives_the_slugs_back() {
    let with_scope = decode(&encode("Feat", "Web UI", "Add the login page"));
    assert_eq!(with_scope, Ok(parts("feat", "web-ui", "add-the-login-page")));
    let without_scope = decode(&encode("Bug Fix", "", "Crash on start"));
    assert_eq!(without_scope, Ok(parts("bug-fix", "", "crash-on-start")));
}

#[test]
fn segment_count_follows_the_scope() {
    assert_eq!(split_segments(&encode("feat", "api", "add login")).len(), 3);
    assert_eq!(split_segments(&encode("feat", "", "add login")).len(), 2);
}

#[test]
fn split_segments_keeps_empty_pieces() {
    assert_eq!(split_segments("a//b"), vec!["a", "", "b"]);
    assert_eq!(split_segments(""), vec![""]);
    assert_eq!(split_segments("/"), vec!["", ""]);
    assert_eq!(split_segments("a/"), vec!["a", ""]);
    assert_eq!(split_segments("/a"), vec!["", "a"]);
    assert_eq!(split_segments("plain"), vec!["plain"]);
}

#[test]
fn split_segments_counts_characters_not_bytes() {
    assert_eq!(split_segments("é/ü/ß"), vec!["é", "ü", "ß"]);
}

#[test]
fn join_segments_with_and_without_scope() {
    assert_eq!(join_segments("feat", Some("api"), "add-login"), "feat/api/add-login");
    assert_eq!(join_segments("feat", None, "add-login"), "feat/add-login");
    assert_eq!(join_segments("feat", Some(""), "x"), "feat//x");
}
