//! A small knowledge-base article store: validated article records, id
//! assignment, and lookup by id, with the transport layer kept outside.

pub mod article;
pub mod boundary;
pub mod store;

pub use article::Article;
pub use article::ArticleDraft;
pub use article::Failure;
pub use store::ArticleStore;
