//! The branch naming codec: a commit type, an optional scope and a message
//! become the segments of a branch name, and a branch name is taken apart
//! into them again.

use vstd::prelude::*;
use vstd::string::*;
use crate::error::{GwfError, GwfErrorView};
use crate::slugs::{is_slug, slug_of, slugify};

verus! {

/// The character that separates the segments of a branch name.
pub open spec fn is_separator(c: char) -> bool {
    c == '/'
}

/// No separator occurs in `s`.
pub open spec fn separator_free(s: Seq<char>) -> bool {
    forall|i: int| 0 <= i < s.len() ==> !is_separator(#[trigger] s[i])
}

/// The place of the first separator of `s`, or the length of `s` where it has
/// none.
#[verifier::opaque]
pub open spec fn first_separator(s: Seq<char>) -> int {
    if separator_free(s) {
        s.len() as int
    } else {
        choose|i: int| 0 <= i < s.len() && is_separator(s[i]) && separator_free(s.take(i))
    }
}

/// The segments of `s`: the pieces between its separators, in order. A text
/// without a separator is one segment, the empty text too.
pub open spec fn segments(s: Seq<char>) -> Seq<Seq<char>>
    decreases s.len(),
{
    let i = first_separator(s);
    if 0 <= i < s.len() {
        seq![s.take(i)] + segments(s.skip(i + 1))
    } else {
        seq![s]
    }
}

/// The views of a sequence of strings.
pub open spec fn texts(strings: Seq<String>) -> Seq<Seq<char>> {
    strings.map_values(|s: String| s@)
}

/// In a text whose first separator stands at `i`, that is where
/// `first_separator` finds it.
pub proof fn lemma_first_separator(s: Seq<char>, i: int)
    requires
        0 <= i < s.len(),
        is_separator(s[i]),
        forall|k: int| 0 <= k < i ==> !is_separator(#[trigger] s[k]),
    ensures
        first_separator(s) == i,
{
    reveal(first_separator);
    assert(!separator_free(s));
    assert(separator_free(s.take(i)));
    let j: int = first_separator(s);
    assert(0 <= j < s.len() && is_separator(s[j]) && separator_free(s.take(j)));
    if j < i {
        assert(!is_separator(s[j]));
    }
    if i < j {
        assert(s.take(j)[i] == s[i]);
    }
}

/// A text whose first separator stands at `i` splits into what is before it
/// and the segments of what is after it.
pub proof fn lemma_segments_split(s: Seq<char>, i: int)
    requires
        0 <= i < s.len(),
        is_separator(s[i]),
        forall|k: int| 0 <= k < i ==> !is_separator(#[trigger] s[k]),
    ensures
        segments(s) == seq![s.take(i)] + segments(s.skip(i + 1)),
{
    lemma_first_separator(s, i);
}

/// A text without a separator is its own single segment.
pub proof fn lemma_segments_single(s: Seq<char>)
    requires
        separator_free(s),
    ensures
        segments(s) == seq![s],
{
    reveal(first_separator);
}

/// Before a separator at `n`, or at `n`, stands a first one.
proof fn lemma_has_first_separator(s: Seq<char>, n: int) -> (i: int)
    requires
        0 <= n < s.len(),
        is_separator(s[n]),
    ensures
        0 <= i <= n,
        is_separator(s[i]),
        forall|k: int| 0 <= k < i ==> !is_separator(#[trigger] s[k]),
    decreases n,
{
    if forall|k: int| 0 <= k < n ==> !is_separator(#[trigger] s[k]) {
        n
    } else {
        let earlier: int = choose|k: int| 0 <= k < n && is_separator(#[trigger] s[k]);
        lemma_has_first_separator(s, earlier)
    }
}

/// Where `first_separator` points: at a separator with none before it, or
/// past the end of a text that has none.
pub proof fn lemma_first_separator_found(s: Seq<char>)
    ensures
        0 <= first_separator(s) <= s.len(),
        forall|k: int| 0 <= k < first_separator(s) ==> !is_separator(#[trigger] s[k]),
        first_separator(s) < s.len() ==> is_separator(s[first_separator(s)]),
        first_separator(s) == s.len() <==> separator_free(s),
{
    if separator_free(s) {
        assert(first_separator(s) == s.len()) by {
            reveal(first_separator);
        }
    } else {
        let n: int = choose|n: int| 0 <= n < s.len() && is_separator(#[trigger] s[n]);
        let i: int = lemma_has_first_separator(s, n);
        lemma_first_separator(s, i);
    }
}

/// No segment holds a separator.
pub proof fn lemma_segments_separator_free(s: Seq<char>)
    ensures
        forall|k: int| 0 <= k < segments(s).len() ==> separator_free(#[trigger] segments(s)[k]),
    decreases s.len(),
{
    lemma_first_separator_found(s);
    let i: int = first_separator(s);
    if i < s.len() {
        let head = s.take(i);
        let rest = s.skip(i + 1);
        lemma_segments_separator_free(rest);
        assert(segments(s) == seq![head] + segments(rest));
        assert forall|k: int| 0 <= k < segments(s).len() implies separator_free(
            #[trigger] segments(s)[k],
        ) by {
            if k > 0 {
                assert(segments(s)[k] == segments(rest)[k - 1]);
            } else {
                assert(segments(s)[0] == head);
            }
        }
    } else {
        assert(segments(s) == seq![s]);
    }
}

proof fn lemma_texts_push(strings: Seq<String>, last: String)
    ensures
        texts(strings.push(last)) == texts(strings) + seq![last@],
{
    assert(texts(strings.push(last)) =~= texts(strings) + seq![last@]);
}

/// Splits a text at each `/`.
pub fn split_segments(s: &str) -> (parts: Vec<String>)
    ensures
        texts(parts@) == segments(s@),
{
    let n: usize = s.unicode_len();
    let mut parts: Vec<String> = Vec::new();
    let mut start: usize = 0;
    let mut i: usize = 0;
    proof {
        assert(s@.skip(0) =~= s@);
        assert(texts(parts@) =~= Seq::<Seq<char>>::empty());
        assert(Seq::<Seq<char>>::empty() + segments(s@) =~= segments(s@));
    }
    while i < n
        invariant
            n == s@.len(),
            start <= i <= n,
            forall|k: int| start <= k < i ==> !is_separator(#[trigger] s@[k]),
            segments(s@) == texts(parts@) + segments(s@.skip(start as int)),
        decreases n - i,
    {
        let c = s.get_char(i);
        if c == '/' {
            let piece = String::from_str(s.substring_char(start, i));
            proof {
                let rest = s@.skip(start as int);
                assert forall|k: int| 0 <= k < i - start implies !is_separator(#[trigger] rest[k]) by {
                    assert(rest[k] == s@[start + k]);
                }
                lemma_segments_split(rest, i - start);
                assert(rest.take(i - start) =~= piece@);
                assert(rest.skip(i - start + 1) =~= s@.skip(i + 1));
                lemma_texts_push(parts@, piece);
                let tail = segments(s@.skip(i + 1));
                assert(texts(parts@) + (seq![piece@] + tail) =~= (texts(parts@) + seq![piece@])
                    + tail);
            }
            parts.push(piece);
            start = i + 1;
        }
        i += 1;
    }
    let piece = String::from_str(s.substring_char(start, n));
    proof {
        let rest = s@.skip(start as int);
        assert forall|k: int| 0 <= k < rest.len() implies !is_separator(#[trigger] rest[k]) by {
            assert(rest[k] == s@[start + k]);
        }
        lemma_segments_single(rest);
        assert(rest =~= piece@);
        lemma_texts_push(parts@, piece);
    }
    parts.push(piece);
    parts
}

/// What a branch name says: the commit type, the scope (empty where the name
/// has none) and the slug of the message.
#[derive(Debug, Clone, PartialEq, Eq)]
pub struct BranchParts {
    pub commit_type: String,
    pub scope: String,
    pub message: String,
}

/// The mathematical value of a `BranchParts`.
pub struct BranchPartsView {
    pub commit_type: Seq<char>,
    pub scope: Seq<char>,
    pub message: Seq<char>,
}

impl View for BranchParts {
    type V = BranchPartsView;

    open spec fn view(&self) -> BranchPartsView {
        BranchPartsView {
            commit_type: self.commit_type@,
            scope: self.scope@,
            message: self.message@,
        }
    }
}

/// What a branch name decodes to: with two segments a type and a message,
/// with three a type, a scope and a message, with any other number nothing.
pub open spec fn decode_spec(name: Seq<char>) -> Option<BranchPartsView> {
    let parts = segments(name);
    if parts.len() == 2 {
        Some(BranchPartsView { commit_type: parts[0], scope: Seq::empty(), message: parts[1] })
    } else if parts.len() == 3 {
        Some(BranchPartsView { commit_type: parts[0], scope: parts[1], message: parts[2] })
    } else {
        None
    }
}

/// Takes a branch name apart. A name of two or three segments decodes; any
/// other is refused as `InvalidBranchFormat`, which carries the name.
pub fn decode(name: &str) -> (decoded: Result<BranchParts, GwfError>)
    ensures
        match decode_spec(name@) {
            Some(parts) => decoded matches Ok(found) && found@ == parts,
            None => decoded matches Err(e) && e@ == GwfErrorView::InvalidBranchFormat(name@),
        },
{
    let parts = split_segments(name);
    assert(parts@.len() == segments(name@).len());
    assert(forall|i: int| 0 <= i < parts@.len() ==> (#[trigger] parts@[i])@ == texts(parts@)[i]);
    if parts.len() == 2 {
        Ok(BranchParts {
            commit_type: parts[0].clone(),
            scope: String::new(),
            message: parts[1].clone(),
        })
    } else if parts.len() == 3 {
        Ok(BranchParts {
            commit_type: parts[0].clone(),
            scope: parts[1].clone(),
            message: parts[2].clone(),
        })
    } else {
        Err(GwfError::InvalidBranchFormat(String::from_str(name)))
    }
}

/// Segments joined by `/`: two of them where there is no scope, else three.
pub open spec fn join_spec(
    commit_type: Seq<char>,
    scope: Option<Seq<char>>,
    message: Seq<char>,
) -> Seq<char> {
    match scope {
        None => commit_type + seq!['/'] + message,
        Some(middle) => commit_type + seq!['/'] + middle + seq!['/'] + message,
    }
}

/// Joins segments into a branch name.
pub fn join_segments(commit_type: &str, scope: Option<&str>, message: &str) -> (name: String)
    ensures
        name@ == join_spec(
            commit_type@,
            match scope {
                Some(middle) => Some(middle@),
                None => None,
            },
            message@,
        ),
{
    proof {
        reveal_strlit("/");
        assert("/"@ =~= seq!['/']);
    }
    let mut name = String::from_str(commit_type);
    name.append("/");
    match scope {
        Some(middle) => {
            name.append(middle);
            name.append("/");
        },
        None => {},
    }
    name.append(message);
    name
}

/// The branch name for a commit type, a scope and a message: the slug of
/// each, joined by `/`, the scope left out where it is empty.
pub open spec fn encode_spec(commit_type: Seq<char>, scope: Seq<char>, message: Seq<char>) -> Seq<char> {
    join_spec(
        slug_of(commit_type),
        if scope.len() == 0 { None } else { Some(slug_of(scope)) },
        slug_of(message),
    )
}

/// What decoding an encoded name gives: the slugs, and an empty scope where
/// none was given.
pub open spec fn encoded_parts(
    commit_type: Seq<char>,
    scope: Seq<char>,
    message: Seq<char>,
) -> BranchPartsView {
    BranchPartsView {
        commit_type: slug_of(commit_type),
        scope: if scope.len() == 0 { Seq::empty() } else { slug_of(scope) },
        message: slug_of(message),
    }
}

/// Joined segments that hold no separator are the segments of the name:
/// splitting undoes joining.
pub proof fn lemma_segments_of_join(
    commit_type: Seq<char>,
    scope: Option<Seq<char>>,
    message: Seq<char>,
)
    requires
        separator_free(commit_type),
        scope matches Some(middle) ==> separator_free(middle),
        separator_free(message),
    ensures
        segments(join_spec(commit_type, scope, message)) == match scope {
            Some(middle) => seq![commit_type, middle, message],
            None => seq![commit_type, message],
        },
{
    let name = join_spec(commit_type, scope, message);
    let n: int = commit_type.len() as int;
    lemma_segments_split(name, n);
    assert(name.take(n) =~= commit_type);
    lemma_segments_single(message);
    match scope {
        Some(middle) => {
            let rest = middle + seq!['/'] + message;
            assert(name.skip(n + 1) =~= rest);
            let m: int = middle.len() as int;
            lemma_segments_split(rest, m);
            assert(rest.take(m) =~= middle);
            assert(rest.skip(m + 1) =~= message);
            assert(seq![commit_type] + (seq![middle] + seq![message]) =~= seq![
                commit_type,
                middle,
                message,
            ]);
        },
        None => {
            assert(name.skip(n + 1) =~= message);
            assert(seq![commit_type] + seq![message] =~= seq![commit_type, message]);
        },
    }
}

/// Decoding a name joined from separator-free segments gives the segments
/// back, with an empty scope where none was joined in.
pub proof fn lemma_decode_of_join(
    commit_type: Seq<char>,
    scope: Option<Seq<char>>,
    message: Seq<char>,
)
    requires
        separator_free(commit_type),
        scope matches Some(middle) ==> separator_free(middle),
        separator_free(message),
    ensures
        decode_spec(join_spec(commit_type, scope, message)) == Some(
            BranchPartsView {
                commit_type,
                scope: match scope {
                    Some(middle) => middle,
                    None => Seq::empty(),
                },
                message,
            },
        ),
{
    lemma_segments_of_join(commit_type, scope, message);
}

/// Builds the branch name for a commit type, a scope and a message. The name
/// has two segments where the scope is empty and three otherwise, and it
/// decodes to the slugs of the type and of the scope.
pub fn encode(commit_type: &str, scope: &str, message: &str) -> (name: String)
    ensures
        name@ == encode_spec(commit_type@, scope@, message@),
        is_slug(slug_of(commit_type@)),
        scope@.len() > 0 ==> is_slug(slug_of(scope@)),
        is_slug(slug_of(message@)),
        segments(name@).len() == (if scope@.len() == 0 { 2nat } else { 3nat }),
        decode_spec(name@) == Some(encoded_parts(commit_type@, scope@, message@)),
{
    let type_slug = slugify(commit_type);
    let message_slug = slugify(message);
    if scope.is_empty() {
        proof {
            lemma_segments_of_join(type_slug@, None, message_slug@);
        }
        join_segments(type_slug.as_str(), None, message_slug.as_str())
    } else {
        let scope_slug = slugify(scope);
        proof {
            lemma_segments_of_join(type_slug@, Some(scope_slug@), message_slug@);
        }
        join_segments(type_slug.as_str(), Some(scope_slug.as_str()), message_slug.as_str())
    }
}

/// Equal inputs encode to equal names.
pub proof fn lemma_encode_deterministic(
    type_a: Seq<char>,
    scope_a: Seq<char>,
    message_a: Seq<char>,
    type_b: Seq<char>,
    scope_b: Seq<char>,
    message_b: Seq<char>,
)
    requires
        type_a == type_b,
        scope_a == scope_b,
        message_a == message_b,
    ensures
        encode_spec(type_a, scope_a, message_a) == encode_spec(type_b, scope_b, message_b),
{
}

/// Every text has at least one segment.
pub proof fn lemma_segments_nonempty(s: Seq<char>)
    ensures
        segments(s).len() >= 1,
{
}

/// A name whose number of segments is neither two nor three does not decode.
pub proof fn lemma_decode_rejects(name: Seq<char>)
    requires
        segments(name).len() != 2,
        segments(name).len() != 3,
    ensures
        decode_spec(name) is None,
{
}

} // verus!
