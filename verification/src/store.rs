//! The side-message store: one file per branch, outside the repository, that
//! keeps the commit message until the branch is finished. The library says
//! which file and what it holds; reading and writing are the caller's.

use vstd::prelude::*;
use vstd::string::*;
use crate::error::{GwfError, GwfErrorView};
use crate::slugs::{is_slug, slug_of, slugify};

verus! {

/// The directory, below the user's home, that holds the pending messages.
pub const STORE_DIR: &'static str = ".gwf";

/// The name of a branch's file in the store: the slug of the branch name.
pub open spec fn record_name_spec(branch: Seq<char>) -> Seq<char> {
    slug_of(branch)
}

/// What a branch's file holds: the message and a line feed.
pub open spec fn record_contents_spec(text: Seq<char>) -> Seq<char> {
    text.push('\n')
}

/// The number of line feeds that `contents` ends with.
pub open spec fn trailing_line_feeds(contents: Seq<char>) -> nat
    decreases contents.len(),
{
    if contents.len() > 0 && contents.last() == '\n' {
        1 + trailing_line_feeds(contents.drop_last())
    } else {
        0
    }
}

/// The message in what a file holds: the contents without the line feeds
/// they end with.
pub open spec fn pending_text_spec(contents: Seq<char>) -> Seq<char> {
    contents.take(contents.len() - trailing_line_feeds(contents))
}

/// A text of one line: it holds no line feed.
pub open spec fn single_line(text: Seq<char>) -> bool {
    forall|i: int| 0 <= i < text.len() ==> #[trigger] text[i] != '\n'
}

/// The name of the file that keeps the pending message of `branch`.
pub fn record_name(branch: &str) -> (name: String)
    ensures
        name@ == record_name_spec(branch@),
        is_slug(name@),
{
    slugify(branch)
}

/// What to write into a branch's file for a message: the message followed by
/// a line feed.
pub fn record_contents(text: &str) -> (contents: String)
    ensures
        contents@ == record_contents_spec(text@),
{
    proof {
        reveal_strlit("\n");
        assert(text@ + "\n"@ =~= text@.push('\n'));
    }
    let mut contents = String::from_str(text);
    contents.append("\n");
    contents
}

/// The line feeds a text ends with are no more than its characters, and they
/// are line feeds; what stands before them is none.
proof fn lemma_trailing_line_feeds(contents: Seq<char>)
    ensures
        trailing_line_feeds(contents) <= contents.len(),
        forall|k: int|
            contents.len() - trailing_line_feeds(contents) <= k < contents.len()
                ==> #[trigger] contents[k] == '\n',
        trailing_line_feeds(contents) < contents.len() ==> contents[contents.len() - trailing_line_feeds(
            contents,
        ) - 1] != '\n',
    decreases contents.len(),
{
    if contents.len() > 0 && contents.last() == '\n' {
        let rest = contents.drop_last();
        lemma_trailing_line_feeds(rest);
        assert forall|k: int|
            contents.len() - trailing_line_feeds(contents) <= k < contents.len()
            implies #[trigger] contents[k] == '\n' by {
            if k < contents.len() - 1 {
                assert(rest[k] == contents[k]);
            }
        }
        if trailing_line_feeds(contents) < contents.len() {
            assert(rest[rest.len() - trailing_line_feeds(rest) - 1] == contents[contents.len()
                - trailing_line_feeds(contents) - 1]);
        }
    }
}

/// A run of line feeds up to the end of a text, after a character that is
/// none, is all the line feeds the text ends with.
proof fn lemma_trailing_line_feeds_is(contents: Seq<char>, n: int)
    requires
        0 <= n <= contents.len(),
        forall|k: int| contents.len() - n <= k < contents.len() ==> #[trigger] contents[k] == '\n',
        n < contents.len() ==> contents[contents.len() - n - 1] != '\n',
    ensures
        trailing_line_feeds(contents) == n,
    decreases n,
{
    if n > 0 {
        let rest = contents.drop_last();
        assert forall|k: int| rest.len() - (n - 1) <= k < rest.len()
            implies #[trigger] rest[k] == '\n' by {
            assert(rest[k] == contents[k]);
        }
        if n - 1 < rest.len() {
            assert(rest[rest.len() - (n - 1) - 1] == contents[contents.len() - n - 1]);
        }
        lemma_trailing_line_feeds_is(rest, n - 1);
    }
}

/// The message in what a branch's file holds: the contents without the line
/// feeds they end with.
pub fn pending_text(contents: &str) -> (text: String)
    ensures
        text@ == pending_text_spec(contents@),
{
    let n: usize = contents.unicode_len();
    let mut to: usize = n;
    while to > 0 && contents.get_char(to - 1) == '\n'
        invariant
            n == contents@.len(),
            to <= n,
            forall|k: int| to <= k < n ==> #[trigger] contents@[k] == '\n',
        decreases to,
    {
        to -= 1;
    }
    proof {
        lemma_trailing_line_feeds_is(contents@, n - to);
        assert(contents@.take(to as int) =~= contents@.subrange(0, to as int));
    }
    String::from_str(contents.substring_char(0, to))
}

/// The message in a file's contents is the contents up to the line feeds
/// they end with, and does not end with a line feed itself.
pub proof fn lemma_pending_text(contents: Seq<char>)
    ensures
        pending_text_spec(contents).len() <= contents.len(),
        pending_text_spec(contents) == contents.take(pending_text_spec(contents).len() as int),
        forall|k: int|
            pending_text_spec(contents).len() <= k < contents.len() ==> #[trigger] contents[k] == '\n',
        pending_text_spec(contents).len() > 0 ==> pending_text_spec(contents).last() != '\n',
{
    lemma_trailing_line_feeds(contents);
}

/// What is written for a message of one line reads back as that message.
pub proof fn lemma_text_of_contents(text: Seq<char>)
    requires
        single_line(text),
    ensures
        pending_text_spec(record_contents_spec(text)) == text,
{
    let contents = record_contents_spec(text);
    if text.len() > 0 {
        assert(contents[contents.len() - 2] == text[text.len() - 1]);
    }
    lemma_trailing_line_feeds_is(contents, 1);
    assert(contents.take(contents.len() - 1) =~= text);
}

/// A write that the store asks for: the file's name within the store's
/// directory, and all that the file is to hold.
#[derive(Debug, Clone, PartialEq, Eq)]
pub struct PendingWrite {
    pub file_name: String,
    pub contents: String,
}

/// What came of reading a branch's file.
#[derive(Debug, Clone, PartialEq, Eq)]
pub enum PendingRead {
    /// The file was read; carries all that it holds.
    Found(String),
    /// There is no such file.
    Missing,
    /// The read failed otherwise; carries what the file system reported.
    Failed(String),
}

/// The mathematical value of a `PendingRead`.
pub enum PendingReadView {
    Found(Seq<char>),
    Missing,
    Failed(Seq<char>),
}

impl View for PendingRead {
    type V = PendingReadView;

    open spec fn view(&self) -> PendingReadView {
        match self {
            PendingRead::Found(contents) => PendingReadView::Found(contents@),
            PendingRead::Missing => PendingReadView::Missing,
            PendingRead::Failed(detail) => PendingReadView::Failed(detail@),
        }
    }
}

/// What `get` answers for a read: the file's contents, `NotFound` where there
/// is no file, `Io` where the read failed.
pub open spec fn get_spec(read: PendingReadView) -> Result<Seq<char>, GwfErrorView> {
    match read {
        PendingReadView::Found(contents) => Ok(contents),
        PendingReadView::Missing => Err(GwfErrorView::NotFound),
        PendingReadView::Failed(detail) => Err(GwfErrorView::Io(detail)),
    }
}

/// Stores a message for a branch: says which file to write, replacing what it
/// held, and with what.
pub fn put(branch: &str, text: &str) -> (write: PendingWrite)
    ensures
        write.file_name@ == record_name_spec(branch@),
        is_slug(write.file_name@),
        write.contents@ == record_contents_spec(text@),
{
    PendingWrite { file_name: record_name(branch), contents: record_contents(text) }
}

/// Looks a branch's message up in what reading its file gave: the stored
/// text, line feed included, or the reason why there is none.
pub fn get(read: PendingRead) -> (found: Result<String, GwfError>)
    ensures
        match get_spec(read@) {
            Ok(contents) => found matches Ok(text) && text@ == contents,
            Err(reason) => found matches Err(e) && e@ == reason,
        },
{
    match read {
        PendingRead::Found(contents) => Ok(contents),
        PendingRead::Missing => Err(GwfError::NotFound),
        PendingRead::Failed(detail) => Err(GwfError::Io(detail)),
    }
}

/// The store's directory as a value: what each file in it holds, by name.
pub type Files = Map<Seq<char>, Seq<char>>;

/// The directory after the write that `put` asks for.
pub open spec fn files_after_put(files: Files, branch: Seq<char>, text: Seq<char>) -> Files {
    files.insert(record_name_spec(branch), record_contents_spec(text))
}

/// What reading a branch's file gives in a directory that can be read.
pub open spec fn read_in(files: Files, branch: Seq<char>) -> PendingReadView {
    if files.contains_key(record_name_spec(branch)) {
        PendingReadView::Found(files[record_name_spec(branch)])
    } else {
        PendingReadView::Missing
    }
}

/// After a message of one line was put for a branch, getting it gives that
/// message, but for the line feed at its end.
pub proof fn lemma_get_after_put(files: Files, branch: Seq<char>, text: Seq<char>)
    requires
        single_line(text),
    ensures
        get_spec(read_in(files_after_put(files, branch, text), branch)) == Ok::<Seq<char>, GwfErrorView>(
            record_contents_spec(text),
        ),
        pending_text_spec(record_contents_spec(text)) == text,
{
    lemma_text_of_contents(text);
}

/// A second put for a branch replaces what the first stored: the directory is
/// as if the first had not been, and getting gives the second text only.
pub proof fn lemma_put_overwrites(files: Files, branch: Seq<char>, first: Seq<char>, second: Seq<char>)
    ensures
        files_after_put(files_after_put(files, branch, first), branch, second) == files_after_put(
            files,
            branch,
            second,
        ),
        get_spec(
            read_in(files_after_put(files_after_put(files, branch, first), branch, second), branch),
        ) == Ok::<Seq<char>, GwfErrorView>(record_contents_spec(second)),
{
    assert(files_after_put(files_after_put(files, branch, first), branch, second) =~= files_after_put(
        files,
        branch,
        second,
    ));
}

/// Where no file is kept for a branch, getting its message fails with
/// `NotFound`.
pub proof fn lemma_get_missing(files: Files, branch: Seq<char>)
    requires
        !files.contains_key(record_name_spec(branch)),
    ensures
        get_spec(read_in(files, branch)) == Err::<Seq<char>, GwfErrorView>(GwfErrorView::NotFound),
{
}

} // verus!
