//! The article table: a model of the durable store with its id-assignment
//! invariant, and the two service operations that reach it, create and
//! get-by-id.

use vstd::prelude::*;
use crate::article::{Article, ArticleDraft, ArticleView, Failure};
use crate::article::{draft_valid, draft_with_id, validation_message, validate_draft};

verus! {

/// Scans `s` for the first article with the given id, starting at position `k`.
pub open spec fn find_from(s: Seq<ArticleView>, id: int, k: int) -> Option<ArticleView>
    decreases s.len() - k,
{
    if k < 0 || k >= s.len() {
        None
    } else if s[k].id == id {
        Some(s[k])
    } else {
        find_from(s, id, k + 1)
    }
}

/// The first article in `s` whose id is `id`, if any.
pub open spec fn find_article(s: Seq<ArticleView>, id: int) -> Option<ArticleView> {
    find_from(s, id, 0)
}

/// The articles table: rows in insertion order, and the next id the store
/// will assign. Ids are assigned by the store as a strictly increasing
/// sequence starting at 1, so every stored id is unique and immutable.
pub struct ArticleStore {
    pub rows: Vec<Article>,
    pub next_id: i32,
}

impl ArticleStore {
    /// The stored articles, as mathematical values, in insertion order.
    pub open spec fn articles(&self) -> Seq<ArticleView> {
        self.rows@.map_values(|a: Article| a@)
    }

    /// The id the next successful create will assign.
    pub open spec fn next(&self) -> int {
        self.next_id as int
    }

    /// Well-formedness: ids start at 1, grow strictly with insertion order,
    /// and every stored id lies below the next id to be assigned.
    pub open spec fn wf(&self) -> bool {
        &&& 1 <= self.next()
        &&& forall|i: int| 0 <= i < self.articles().len()
            ==> 1 <= #[trigger] self.articles()[i].id < self.next()
        &&& forall|i: int, j: int| 0 <= i < j < self.articles().len()
            ==> #[trigger] self.articles()[i].id < #[trigger] self.articles()[j].id
    }

    /// An empty, migrated store: no rows, ids to be assigned from 1 on.
    pub fn new() -> (s: Self)
        ensures
            s.wf(),
            s.articles() == Seq::<ArticleView>::empty(),
            s.next() == 1,
    {
        let s = ArticleStore { rows: Vec::new(), next_id: 1 };
        proof {
            assert(s.articles() =~= Seq::<ArticleView>::empty());
        }
        s
    }

    /// The number of stored rows.
    pub fn len(&self) -> (n: usize)
        ensures
            n == self.articles().len(),
    {
        self.rows.len()
    }

    /// Persists a valid draft as exactly one new row and returns the stored
    /// article with its assigned id; rejects a draft whose title or notebook
    /// is blank, and fails when the id space is exhausted. On any failure the
    /// store is unchanged: no partial row is left behind.
    pub fn create(&mut self, draft: ArticleDraft) -> (r: Result<Article, Failure>)
        requires
            old(self).wf(),
        ensures
            final(self).wf(),
            !draft_valid(draft@) ==> {
                &&& final(self).articles() == old(self).articles()
                &&& final(self).next() == old(self).next()
                &&& r matches Err(f) && f matches Failure::ValidationFailed(m)
                    && m@ == validation_message(draft@)
            },
            draft_valid(draft@) && old(self).next() == i32::MAX ==> {
                &&& final(self).articles() == old(self).articles()
                &&& final(self).next() == old(self).next()
                &&& r matches Err(f) && f matches Failure::StorageFailed(m)
                    && m@ == "article id space exhausted"@
            },
            draft_valid(draft@) && old(self).next() < i32::MAX ==> {
                &&& r matches Ok(a) && a@ == draft_with_id(draft@, old(self).next())
                &&& final(self).articles() == old(self).articles().push(
                    draft_with_id(draft@, old(self).next()))
                &&& final(self).next() == old(self).next() + 1
            },
    {
        match validate_draft(&draft) {
            Err(f) => Err(f),
            Ok(()) => {
                if self.next_id == i32::MAX {
                    Err(Failure::StorageFailed("article id space exhausted".to_owned()))
                } else {
                    let id = self.next_id;
                    let stored = Article {
                        id,
                        title: draft.title,
                        notebook: draft.notebook,
                        tags: draft.tags,
                        content: draft.content,
                    };
                    let returned = stored.clone();
                    self.rows.push(stored);
                    self.next_id = id + 1;
                    proof {
                        assert(self.articles() =~= old(self).articles().push(
                            draft_with_id(draft@, old(self).next())));
                    }
                    Ok(returned)
                }
            },
        }
    }

    /// Looks up the article stored under `id`. Returns the matching article,
    /// equal in every field to what was stored, or `NotFound` when no row
    /// matches; it never fabricates a zero-valued article.
    pub fn get_by_id(&self, id: i32) -> (r: Result<Article, Failure>)
        ensures
            match find_article(self.articles(), id as int) {
                Some(v) => r matches Ok(a) && a@ == v,
                None => r == Err::<Article, Failure>(Failure::NotFound),
            },
    {
        let n = self.rows.len();
        let mut k: usize = 0;
        while k < n
            invariant
                0 <= k <= n,
                n == self.articles().len(),
                find_article(self.articles(), id as int)
                    == find_from(self.articles(), id as int, k as int),
            decreases n - k,
        {
            if self.rows[k].id == id {
                return Ok(self.rows[k].clone());
            }
            k = k + 1;
        }
        Err(Failure::NotFound)
    }
}

proof fn lemma_find_from_no_match(s: Seq<ArticleView>, id: int, k: int)
    requires
        0 <= k <= s.len(),
        forall|j: int| k <= j < s.len() ==> #[trigger] s[j].id != id,
    ensures
        find_from(s, id, k) is None,
    decreases s.len() - k,
{
    if k < s.len() {
        lemma_find_from_no_match(s, id, k + 1);
    }
}

proof fn lemma_find_from_push(pre: Seq<ArticleView>, a: ArticleView, k: int)
    requires
        0 <= k <= pre.len(),
        forall|i: int| 0 <= i < pre.len() ==> #[trigger] pre[i].id != a.id,
    ensures
        find_from(pre.push(a), a.id, k) == Some(a),
    decreases pre.len() - k,
{
    let t = pre.push(a);
    if k == pre.len() {
        assert(t[k] == a);
    } else {
        assert(t[k] == pre[k]);
        lemma_find_from_push(pre, a, k + 1);
    }
}

proof fn lemma_find_from_found(s: Seq<ArticleView>, id: int, k: int)
    requires
        0 <= k,
    ensures
        find_from(s, id, k) matches Some(v)
            ==> v.id == id && exists|i: int| k <= i < s.len() && s[i] == v,
    decreases s.len() - k,
{
    if k < s.len() && s[k].id != id {
        lemma_find_from_found(s, id, k + 1);
    }
}

/// Law: an article appended to a well-formed store under the id the store
/// was about to assign is found by that id, equal in every field. This is
/// the shape a successful `create` leaves behind — it appends
/// `draft_with_id(draft@, old(self).next())` — so, with the contract of
/// `get_by_id` (which returns what `find_article` finds), a create followed
/// by a lookup of the assigned id returns exactly the created article.
pub proof fn lemma_create_then_get(pre: &ArticleStore, a: ArticleView)
    requires
        pre.wf(),
        a.id == pre.next(),
    ensures
        find_article(pre.articles().push(a), a.id) == Some(a),
{
    lemma_find_from_push(pre.articles(), a, 0);
}

/// Law: a well-formed store never holds the same id twice; every article's
/// id is its own. Since `create` keeps well-formedness and assigns ids from
/// a strictly growing counter, no create ever reuses an id already assigned.
pub proof fn lemma_ids_unique(s: &ArticleStore, i: int, j: int)
    requires
        s.wf(),
        0 <= i < s.articles().len(),
        0 <= j < s.articles().len(),
        i != j,
    ensures
        s.articles()[i].id != s.articles()[j].id,
{
}

/// Law: the id a well-formed store will assign next is held by no stored
/// article, so the article a create returns never collides with one that
/// already exists.
pub proof fn lemma_next_id_fresh(s: &ArticleStore, i: int)
    requires
        s.wf(),
        0 <= i < s.articles().len(),
    ensures
        s.articles()[i].id != s.next(),
{
}

/// Law: when no stored article bears the requested id, the lookup finds
/// none, so `get_by_id` returns `NotFound` — never a fabricated article.
pub proof fn lemma_absent_id_not_found(s: Seq<ArticleView>, id: int)
    requires
        forall|i: int| 0 <= i < s.len() ==> #[trigger] s[i].id != id,
    ensures
        find_article(s, id) is None,
{
    lemma_find_from_no_match(s, id, 0);
}

/// Law: whatever the lookup finds was stored: it bears the requested id and
/// is one of the rows, so `get_by_id` can only ever return an article that
/// some create persisted.
pub proof fn lemma_found_is_stored(s: Seq<ArticleView>, id: int)
    ensures
        find_article(s, id) matches Some(v)
            ==> v.id == id && exists|i: int| 0 <= i < s.len() && s[i] == v,
{
    lemma_find_from_found(s, id, 0);
}

} // verus!
