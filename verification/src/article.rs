//! The article data model: drafts as submitted by clients, persisted
//! articles with their assigned ids, and the classified failure outcomes.

use vstd::prelude::*;
use vstd::string::StrSliceExecFns;

verus! {

/// A classified, caller-visible error outcome. The boundary layer maps these
/// to transport representations; the service itself never panics.
pub enum Failure {
    /// A required field was missing or blank; the message names the field.
    ValidationFailed(String),
    /// No row exists for the requested id.
    NotFound,
    /// The storage layer reported an error; the message carries its cause.
    StorageFailed(String),
}

/// The mathematical value of a draft: every field as a plain sequence.
pub ghost struct DraftView {
    pub title: Seq<char>,
    pub notebook: Seq<char>,
    pub tags: Seq<Seq<char>>,
    pub content: Seq<char>,
}

/// A new article as submitted by a client, not yet persisted: it has no id.
pub struct ArticleDraft {
    pub title: String,
    pub notebook: String,
    pub tags: Vec<String>,
    pub content: String,
}

impl View for ArticleDraft {
    type V = DraftView;

    open spec fn view(&self) -> DraftView {
        DraftView {
            title: self.title@,
            notebook: self.notebook@,
            tags: self.tags@.map_values(|t: String| t@),
            content: self.content@,
        }
    }
}

/// The mathematical value of a persisted article.
pub ghost struct ArticleView {
    pub id: int,
    pub title: Seq<char>,
    pub notebook: Seq<char>,
    pub tags: Seq<Seq<char>>,
    pub content: Seq<char>,
}

/// A persisted article: a draft's fields plus the id storage assigned to it.
pub struct Article {
    pub id: i32,
    pub title: String,
    pub notebook: String,
    pub tags: Vec<String>,
    pub content: String,
}

impl View for Article {
    type V = ArticleView;

    open spec fn view(&self) -> ArticleView {
        ArticleView {
            id: self.id as int,
            title: self.title@,
            notebook: self.notebook@,
            tags: self.tags@.map_values(|t: String| t@),
            content: self.content@,
        }
    }
}

/// The article that persisting draft `d` under id `id` produces.
pub open spec fn draft_with_id(d: DraftView, id: int) -> ArticleView {
    ArticleView { id: id, title: d.title, notebook: d.notebook, tags: d.tags, content: d.content }
}

/// The blank characters that trimming removes: the Unicode White_Space set.
pub open spec fn is_space_char(c: char) -> bool {
    ||| c == '\t'
    ||| c == '\n'
    ||| c == '\u{000B}'
    ||| c == '\u{000C}'
    ||| c == '\r'
    ||| c == ' '
    ||| c == '\u{0085}'
    ||| c == '\u{00A0}'
    ||| c == '\u{1680}'
    ||| c == '\u{2000}'
    ||| c == '\u{2001}'
    ||| c == '\u{2002}'
    ||| c == '\u{2003}'
    ||| c == '\u{2004}'
    ||| c == '\u{2005}'
    ||| c == '\u{2006}'
    ||| c == '\u{2007}'
    ||| c == '\u{2008}'
    ||| c == '\u{2009}'
    ||| c == '\u{200A}'
    ||| c == '\u{2028}'
    ||| c == '\u{2029}'
    ||| c == '\u{202F}'
    ||| c == '\u{205F}'
    ||| c == '\u{3000}'
}

/// Whether `c` is one of the blank characters that trimming removes.
pub fn char_is_space(c: char) -> (r: bool)
    ensures
        r == is_space_char(c),
{
    match c {
        '\t' | '\n' | '\u{000B}' | '\u{000C}' | '\r' | ' ' => true,
        '\u{0085}' | '\u{00A0}' | '\u{1680}' => true,
        '\u{2000}' | '\u{2001}' | '\u{2002}' | '\u{2003}' | '\u{2004}' | '\u{2005}' => true,
        '\u{2006}' | '\u{2007}' | '\u{2008}' | '\u{2009}' | '\u{200A}' => true,
        '\u{2028}' | '\u{2029}' | '\u{202F}' | '\u{205F}' | '\u{3000}' => true,
        _ => false,
    }
}

/// A string survives trimming exactly when some character of it is not blank.
pub open spec fn has_ink(s: Seq<char>) -> bool {
    exists|i: int| 0 <= i < s.len() && !is_space_char(s[i])
}

/// A draft may be persisted when its title and its notebook name are both
/// non-empty after trimming; tags and content may be empty.
pub open spec fn draft_valid(d: DraftView) -> bool {
    has_ink(d.title) && has_ink(d.notebook)
}

/// The cause reported for the first required field found blank.
pub open spec fn validation_message(d: DraftView) -> Seq<char> {
    if !has_ink(d.title) {
        "title must not be empty"@
    } else {
        "notebook must not be empty"@
    }
}

/// Whether `s` still holds a character once trimmed of blanks.
pub fn str_has_ink(s: &str) -> (r: bool)
    ensures
        r == has_ink(s@),
{
    let n: usize = s.unicode_len();
    let mut k: usize = 0;
    while k < n
        invariant
            0 <= k <= n,
            n == s@.len(),
            forall|j: int| 0 <= j < k ==> is_space_char(s@[j]),
        decreases n - k,
    {
        let c: char = s.get_char(k);
        if !char_is_space(c) {
            return true;
        }
        k = k + 1;
    }
    false
}

/// Checks the precondition for persisting a draft: title and notebook must be
/// non-empty after trimming. Returns the classified failure for the first
/// blank required field, and succeeds exactly on valid drafts.
pub fn validate_draft(d: &ArticleDraft) -> (r: Result<(), Failure>)
    ensures
        r is Ok <==> draft_valid(d@),
        !draft_valid(d@) ==> (r matches Err(f) && f matches Failure::ValidationFailed(m)
            && m@ == validation_message(d@)),
{
    if !str_has_ink(d.title.as_str()) {
        Err(Failure::ValidationFailed("title must not be empty".to_owned()))
    } else if !str_has_ink(d.notebook.as_str()) {
        Err(Failure::ValidationFailed("notebook must not be empty".to_owned()))
    } else {
        Ok(())
    }
}

/// Copies a tag list; the copy holds the same strings in the same order.
fn clone_tags(tags: &Vec<String>) -> (r: Vec<String>)
    ensures
        r@ == tags@,
{
    let mut r: Vec<String> = Vec::new();
    let mut k: usize = 0;
    while k < tags.len()
        invariant
            0 <= k <= tags@.len(),
            r@ =~= tags@.subrange(0, k as int),
        decreases tags@.len() - k,
    {
        r.push(tags[k].clone());
        k = k + 1;
    }
    proof {
        assert(r@ =~= tags@);
    }
    r
}

impl Clone for Article {
    /// A copy equal to the original in every field.
    fn clone(&self) -> (r: Self)
        ensures
            r@ == self@,
    {
        Article {
            id: self.id,
            title: self.title.clone(),
            notebook: self.notebook.clone(),
            tags: clone_tags(&self.tags),
            content: self.content.clone(),
        }
    }
}

/// Explicit field-by-field mapping from a storage row, decoded into plain
/// values, to the article it represents.
pub fn article_from_row(
    id: i32,
    title: String,
    notebook: String,
    tags: Vec<String>,
    content: String,
) -> (a: Article)
    ensures
        a@ == (ArticleView {
            id: id as int,
            title: title@,
            notebook: notebook@,
            tags: tags@.map_values(|t: String| t@),
            content: content@,
        }),
{
    Article { id, title, notebook, tags, content }
}

} // verus!
