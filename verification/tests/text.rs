use gwf::error::GwfError;
use gwf::text::{chars_of, contains, decimal, trim};

#[test]
fn chars_of_a_text() {
    assert_eq!(chars_of("aé/"), vec!['a', 'é', '/']);
    assert_eq!(chars_of(""), Vec::<char>::new());
}

#[test]
fn contains_finds_a_needle_anywhere() {
    assert!(contains("Enter the type of the commit", "type of the commit"));
    assert!(contains("type of the commit, please", "type of the commit"));
    assert!(contains("abc", "b"));
    assert!(contains("abc", "abc"));
    assert!(contains("aab", "ab"));
}

#[test]
fn contains_the_empty_needle() {
    assert!(contains("abc", ""));
    assert!(contains("", ""));
}

#[test]
fn contains_misses_what_is_not_there() {
    assert!(!contains("abc", "abcd"));
    assert!(!contains("abc", "ac"));
    assert!(!contains("", "a"));
    assert!(!contains("type of the commi", "type of the commit"));
}

#[test]
fn contains_agrees_with_std() {
    let hays = ["", "a", "ab", "aab", "abab", "ääb", "type of"];
    let needles = ["", "a", "b", "ab", "ba", "äb", "of", "abc"];
    for hay in hays {
        for needle in needles {
            assert_eq!(contains(hay, needle), hay.contains(needle));
        }
    }
}

#[test]
fn trim_removes_white_space_at_both_ends() {
    assert_eq!(trim("  add login \n"), "add login");
    assert_eq!(trim("\t\r\nx"), "x");
    assert_eq!(trim("x"), "x");
    assert_eq!(trim(""), "");
    assert_eq!(trim(" \n\t "), "");
}

#[test]
fn trim_keeps_inner_white_space() {
    assert_eq!(trim(" a  b\tc "), "a  b\tc");
}

#[test]
fn trim_knows_unicode_white_space() {
    assert_eq!(trim("\u{2003}wide\u{00A0}"), "wide");
    assert_eq!(trim("\u{200B}narrow"), "\u{200B}narrow");
}

#[test]
fn trim_agrees_with_std() {
    let texts = ["", " ", "a", " a", "a ", " a b ", "\u{3000}é \u{1680}", "\n\nx\n\n"];
    for text in texts {
        assert_eq!(trim(text), text.trim());
    }
}

#[test]
fn decimal_of_small_numbers() {
    assert_eq!(decimal(0), "0");
    assert_eq!(decimal(7), "7");
    assert_eq!(decimal(10), "10");
    assert_eq!(decimal(127), "127");
    assert_eq!(decimal(-1), "-1");
    assert_eq!(decimal(-120), "-120");
}

#[test]
fn decimal_of_the_extremes() {
    assert_eq!(decimal(i32::MAX), "2147483647");
    assert_eq!(decimal(i32::MIN), "-2147483648");
}

#[test]
fn describe_each_failure() {
    assert_eq!(
        GwfError::RepositoryNotFound.describe(),
        "Could not find a repository at the working directory"
    );
    assert_eq!(GwfError::NoCommitsYet.describe(), "The repository has no commits yet");
    assert_eq!(GwfError::DetachedHead.describe(), "Could not get current branch name");
    assert_eq!(
        GwfError::InvalidBranchFormat("main".to_string()).describe(),
        "Invalid branch name format. Expected: type/scope/message or type/message, got: main"
    );
    assert_eq!(GwfError::BranchAlreadyExists.describe(), "A branch of this name exists already");
    assert_eq!(
        GwfError::NotFound.describe(),
        "No pending commit message is stored for the current branch"
    );
    assert_eq!(
        GwfError::Io("permission denied".to_string()).describe(),
        "File system error: permission denied"
    );
    assert_eq!(GwfError::ConfigUnreadable.describe(), "Could not read the configuration");
    assert_eq!(
        GwfError::PostCommitCommandFailed(-1).describe(),
        "Post-commit command failed with exit code: -1"
    );
    assert_eq!(
        GwfError::PostCommitCommandFailed(101).describe(),
        "Post-commit command failed with exit code: 101"
    );
}
