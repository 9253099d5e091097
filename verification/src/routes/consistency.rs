//! What holds of a store that only the paste service has written to, before
//! and after every request.

use vstd::prelude::*;
use crate::codec::FromIVec;
use crate::db::{
    content_hash, slug_key, DocumentRecord, DocumentRecordView, SlugRecord, SlugRecordView,
    StoreView, Timestamp,
};
use crate::routes::api::{delete_outcome, read_outcome, Failure, JsonErrorResponse};
use crate::services::{
    create_outcome, edit_outcome, is_generated_slug, lemma_generated_slug_is_valid, paste_stored,
    storable,
};
use crate::validators::valid_slug;

verus! {

/// Every bound slug keeps the slug format.
pub open spec fn slugs_valid(store: StoreView) -> bool {
    forall|key: Seq<u8>| #[trigger]
        store.slugs.contains_key(key) ==> exists|slug: Seq<char>|
            valid_slug(slug) && #[trigger] slug_key(slug) == key
}

/// Every bound slug has a record that can be read, and the document that
/// the record names is stored.
pub open spec fn slugs_resolve(store: StoreView) -> bool {
    forall|key: Seq<u8>| #[trigger]
        store.slugs.contains_key(key) ==> {
            &&& SlugRecord::decoding(store.slugs[key]) is Ok
            &&& store.documents.contains_key(
                SlugRecord::decoding(store.slugs[key])->Ok_0.document_hash,
            )
        }
}

/// Every stored document can be read, and is stored under the digest of its
/// content.
pub open spec fn documents_addressed(store: StoreView) -> bool {
    forall|hash: Seq<u8>| #[trigger]
        store.documents.contains_key(hash) ==> {
            &&& DocumentRecord::decoding(store.documents[hash]) is Ok
            &&& content_hash(DocumentRecord::decoding(store.documents[hash])->Ok_0.content) == hash
        }
}

/// The store is one that the paste service leaves behind.
pub open spec fn consistent(store: StoreView) -> bool {
    &&& slugs_valid(store)
    &&& slugs_resolve(store)
    &&& documents_addressed(store)
}

/// A store that holds nothing is consistent.
pub proof fn lemma_empty_store_is_consistent()
    ensures
        consistent(StoreView { documents: Map::empty(), slugs: Map::empty() }),
{
}

/// Storing a paste under a slug that keeps the slug format, or that is bound
/// already, leaves a consistent store consistent.
pub proof fn lemma_paste_stored_keeps_consistent(
    store: StoreView,
    slug: Seq<char>,
    edit_code: Seq<char>,
    content: Seq<char>,
    created: Timestamp,
)
    requires
        consistent(store),
        valid_slug(slug) || store.slugs.contains_key(slug_key(slug)),
        storable(edit_code, content),
    ensures
        consistent(paste_stored(store, slug, edit_code, content, created)),
{
    DocumentRecord::lemma_round_trip(DocumentRecordView { content, created });
    SlugRecord::lemma_round_trip(
        SlugRecordView { document_hash: content_hash(content), edit_code },
    );
}

/// Creating a paste leaves a consistent store consistent, and the slug that
/// it binds keeps the slug format.
pub proof fn lemma_create_keeps_consistent(
    before: StoreView,
    custom_slug: Option<Seq<char>>,
    custom_edit_code: Option<Seq<char>>,
    content: Seq<char>,
    generated_slug: Seq<char>,
    generated_edit_code: Seq<char>,
    created: Timestamp,
    r: Result<(Seq<char>, Seq<char>), JsonErrorResponse>,
    after: StoreView,
)
    requires
        create_outcome(
            before,
            custom_slug,
            custom_edit_code,
            content,
            generated_slug,
            generated_edit_code,
            created,
            r,
            after,
        ),
        is_generated_slug(generated_slug),
        consistent(before),
        r is Ok,
    ensures
        consistent(after),
        valid_slug(r->Ok_0.0),
{
    if custom_slug is None {
        lemma_generated_slug_is_valid(generated_slug);
    }
    lemma_paste_stored_keeps_consistent(before, r->Ok_0.0, r->Ok_0.1, content, created);
}

/// Editing a paste leaves a consistent store consistent.
pub proof fn lemma_edit_keeps_consistent(
    before: StoreView,
    slug: Seq<char>,
    edit_code: Seq<char>,
    content: Seq<char>,
    created: Timestamp,
    r: Result<(), JsonErrorResponse>,
    after: StoreView,
)
    requires
        edit_outcome(before, slug, edit_code, content, created, r, after),
        consistent(before),
        r is Ok,
    ensures
        consistent(after),
{
    lemma_paste_stored_keeps_consistent(before, slug, edit_code, content, created);
}

/// Deleting a paste leaves a consistent store consistent.
pub proof fn lemma_delete_keeps_consistent(
    before: StoreView,
    slug: Seq<char>,
    edit_code: Seq<char>,
    r: Result<(), JsonErrorResponse>,
    after: StoreView,
)
    requires
        delete_outcome(before, slug, edit_code, r, after),
        consistent(before),
        r is Ok,
    ensures
        consistent(after),
{
}

/// In a consistent store a slug reads as a document, or is not bound:
/// reading never finds a slug without its document, nor bytes that cannot
/// be read.
pub proof fn lemma_consistent_store_reads(store: StoreView, slug: Seq<char>)
    requires
        consistent(store),
    ensures
        read_outcome(store, slug) is Ok || read_outcome(store, slug) == Err::<
            DocumentRecordView,
            Failure,
        >(Failure::SlugNotFound),
        read_outcome(store, slug) is Ok <==> store.slugs.contains_key(slug_key(slug)),
{
}

} // verus!
