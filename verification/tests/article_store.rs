use kbrust::article::article_from_row;
use kbrust::boundary::{failure_message, failure_status, hello_world, list_articles};
use kbrust::{Article, ArticleDraft, ArticleStore, Failure};

fn draft(title: &str, notebook: &str, tags: &[&str], content: &str) -> ArticleDraft {
    ArticleDraft {
        title: title.to_owned(),
        notebook: notebook.to_owned(),
        tags: tags.iter().map(|t| t.to_string()).collect(),
        content: content.to_owned(),
    }
}

#[test]
fn test_add_article() {
    let mut store = ArticleStore::new();
    let resp = store.create(draft(
        "Test Article",
        "Test Notebook",
        &["test", "rust"],
        "This is a test article.",
    ));
    assert!(resp.is_ok(), "Expected successful response, got {:?}", resp.is_err());
}

#[test]
fn create_then_get_returns_equal_article() {
    let mut store = ArticleStore::new();
    let created = store
        .create(draft("T", "N", &["a", "b"], "C"))
        .unwrap_or_else(|_| panic!("create failed"));
    let fetched = store
        .get_by_id(created.id)
        .unwrap_or_else(|_| panic!("get failed"));
    assert_eq!(fetched.id, created.id);
    assert_eq!(fetched.title, created.title);
    assert_eq!(fetched.notebook, created.notebook);
    assert_eq!(fetched.tags, created.tags);
    assert_eq!(fetched.content, created.content);
}

#[test]
fn create_assigns_fresh_increasing_ids() {
    let mut store = ArticleStore::new();
    let a = store.create(draft("first", "nb", &[], "")).unwrap_or_else(|_| panic!());
    let b = store.create(draft("second", "nb", &[], "")).unwrap_or_else(|_| panic!());
    let c = store.create(draft("third", "other", &["x"], "y")).unwrap_or_else(|_| panic!());
    assert_eq!(a.id, 1);
    assert_eq!(b.id, 2);
    assert_eq!(c.id, 3);
    assert!(a.id != b.id && b.id != c.id && a.id != c.id);
}

#[test]
fn get_missing_id_returns_not_found() {
    let mut store = ArticleStore::new();
    match store.get_by_id(999999) {
        Err(Failure::NotFound) => {}
        _ => panic!("expected NotFound on an empty store"),
    }
    store.create(draft("T", "N", &[], "")).unwrap_or_else(|_| panic!());
    match store.get_by_id(999999) {
        Err(Failure::NotFound) => {}
        _ => panic!("expected NotFound for an id no row matches"),
    }
}

#[test]
fn empty_title_is_rejected_without_insert() {
    let mut store = ArticleStore::new();
    let before = store.len();
    match store.create(draft("", "Notebook", &["t"], "body")) {
        Err(Failure::ValidationFailed(msg)) => {
            assert_eq!(msg, "title must not be empty");
        }
        _ => panic!("expected ValidationFailed for an empty title"),
    }
    assert_eq!(store.len(), before);
}

#[test]
fn blank_title_is_rejected_without_insert() {
    let mut store = ArticleStore::new();
    let before = store.len();
    match store.create(draft(" \t\r\n ", "Notebook", &[], "")) {
        Err(Failure::ValidationFailed(msg)) => {
            assert_eq!(msg, "title must not be empty");
        }
        _ => panic!("expected ValidationFailed for a blank title"),
    }
    assert_eq!(store.len(), before);
}

#[test]
fn unicode_blank_title_is_rejected_without_insert() {
    let mut store = ArticleStore::new();
    let before = store.len();
    // Form feed, vertical tab, NEL, NBSP, en quad, line separator,
    // ideographic space: all removed by trimming, so the title is blank.
    let blanks = "\u{000C}\u{000B}\u{0085}\u{00A0}\u{2000}\u{2028}\u{3000}";
    assert!(blanks.trim().is_empty());
    match store.create(draft(blanks, "Notebook", &[], "")) {
        Err(Failure::ValidationFailed(msg)) => {
            assert_eq!(msg, "title must not be empty");
        }
        _ => panic!("expected ValidationFailed for a title blank after trimming"),
    }
    assert_eq!(store.len(), before);
}

#[test]
fn title_with_ink_among_blanks_is_accepted() {
    let mut store = ArticleStore::new();
    let created = store
        .create(draft("\u{2003}x\u{00A0}", "N", &[], ""))
        .unwrap_or_else(|_| panic!("expected a trimmed-non-empty title to be accepted"));
    assert_eq!(created.title, "\u{2003}x\u{00A0}");
}

#[test]
fn empty_notebook_is_rejected_without_insert() {
    let mut store = ArticleStore::new();
    let before = store.len();
    match store.create(draft("Title", "", &[], "")) {
        Err(Failure::ValidationFailed(msg)) => {
            assert_eq!(msg, "notebook must not be empty");
        }
        _ => panic!("expected ValidationFailed for an empty notebook"),
    }
    assert_eq!(store.len(), before);
}

#[test]
fn blank_notebook_is_rejected_without_insert() {
    let mut store = ArticleStore::new();
    let before = store.len();
    match store.create(draft("Title", "\u{000C}\u{202F}", &[], "")) {
        Err(Failure::ValidationFailed(msg)) => {
            assert_eq!(msg, "notebook must not be empty");
        }
        _ => panic!("expected ValidationFailed for a notebook blank after trimming"),
    }
    assert_eq!(store.len(), before);
}

#[test]
fn exhausted_id_space_is_a_storage_failure() {
    let mut store = ArticleStore { rows: Vec::new(), next_id: i32::MAX };
    let before = store.len();
    match store.create(draft("Title", "Notebook", &[], "")) {
        Err(Failure::StorageFailed(msg)) => {
            assert_eq!(msg, "article id space exhausted");
        }
        _ => panic!("expected StorageFailed when no id is left"),
    }
    assert_eq!(store.len(), before);
}

#[test]
fn tags_keep_their_order() {
    let mut store = ArticleStore::new();
    let created = store
        .create(draft("T", "N", &["a", "b"], "C"))
        .unwrap_or_else(|_| panic!("create failed"));
    assert_eq!(created.tags, vec!["a".to_string(), "b".to_string()]);
    let fetched = store.get_by_id(created.id).unwrap_or_else(|_| panic!("get failed"));
    assert_eq!(fetched.tags, vec!["a".to_string(), "b".to_string()]);
}

#[test]
fn empty_tags_and_content_are_allowed() {
    let mut store = ArticleStore::new();
    let created = store.create(draft("T", "N", &[], "")).unwrap_or_else(|_| panic!());
    assert!(created.tags.is_empty());
    assert_eq!(created.content, "");
}

#[test]
fn every_failure_maps_to_status_400_with_a_cause() {
    let failures = vec![
        Failure::ValidationFailed("title must not be empty".to_owned()),
        Failure::NotFound,
        Failure::StorageFailed("connection reset".to_owned()),
    ];
    for f in failures.iter() {
        assert_eq!(failure_status(f), 400);
        assert!(!failure_message(f).is_empty());
    }
    assert_eq!(failure_message(&Failure::NotFound), "no article found for the requested id");
    assert_eq!(
        failure_message(&Failure::StorageFailed("connection reset".to_owned())),
        "connection reset"
    );
}

#[test]
fn list_is_the_documented_placeholder() {
    assert_eq!(list_articles(), "Article list not yet implemented.");
    let mut store = ArticleStore::new();
    store.create(draft("T", "N", &[], "")).unwrap_or_else(|_| panic!());
    assert_eq!(list_articles(), "Article list not yet implemented.");
}

#[test]
fn greeting_is_fixed() {
    assert_eq!(hello_world(), "Hello, world!");
}

#[test]
fn row_mapping_is_field_by_field() {
    let a: Article = article_from_row(
        7,
        "t".to_owned(),
        "n".to_owned(),
        vec!["x".to_owned(), "y".to_owned()],
        "c".to_owned(),
    );
    assert_eq!(a.id, 7);
    assert_eq!(a.title, "t");
    assert_eq!(a.notebook, "n");
    assert_eq!(a.tags, vec!["x".to_owned(), "y".to_owned()]);
    assert_eq!(a.content, "c");
}

#[test]
fn cloned_article_is_equal_in_every_field() {
    let a = article_from_row(
        3,
        "t".to_owned(),
        "n".to_owned(),
        vec!["x".to_owned()],
        "c".to_owned(),
    );
    let b = a.clone();
    assert_eq!(b.id, a.id);
    assert_eq!(b.title, a.title);
    assert_eq!(b.notebook, a.notebook);
    assert_eq!(b.tags, a.tags);
    assert_eq!(b.content, a.content);
}
