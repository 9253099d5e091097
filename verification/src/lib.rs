//! A paste-sharing backend.
//!
//! A paste is a text stored under the digest of its content, and a slug that
//! names it: a short string bound to the digest and to an edit code, the
//! secret that authorizes changing or removing the slug.
//!
//! - [`validators`]: the format rules for slugs, edit codes and documents.
//! - [`codec`]: the binary layout of stored values, with the law that what
//!   is written reads back as itself.
//! - [`db`]: the store, over two namespaces of a `sled` database, and the
//!   model of what it holds.
//! - [`errors`]: faults of the store, and how a client sees them.
//! - [`services`]: the paste service, creating and editing a paste under
//!   the format rules and the edit code, and rendering markdown to sanitized
//!   HTML.
//! - [`markdown`]: the parser, the highlighter and the sanitizer behind the
//!   rendering, and the rule that picks out fenced code blocks.
//! - [`routes`]: what each endpoint does with a request: the checks, and
//!   create, edit, delete and read, with the outcome of each stated over the
//!   model of the store, and what holds of a store that only they wrote to.

pub mod codec;
pub mod db;
pub mod errors;
pub mod markdown;
pub mod routes;
pub mod services;
pub mod validators;
