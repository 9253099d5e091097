//! What each endpoint does with its request: the checks on formats, on
//! what the store holds and on the edit code, and creating, editing,
//! deleting and reading a paste, with each error as a client is to see it.

use vstd::prelude::*;
use vstd::std_specs::convert::FromSpecImpl;
use crate::codec::{DecodeError, FromIVec};
use crate::db::{
    content_hash, option_view, slug_key, Database, DocumentHash, DocumentRecord, DocumentRecordView,
    SlugRecord, SlugRecordView, StoreView, Timestamp,
};
use crate::errors::{StoreError, INTERNAL_SERVER_ERROR};
use crate::services::{
    create_failure, create_outcome, create_paste, created_view, edit_outcome, edit_paste,
    is_generated_edit_code, is_generated_slug, is_pretty_rendering, markdown_to_html_pretty,
    paste_stored, slug_unavailable, storable,
};
use crate::validators::{
    is_invalid_document, is_invalid_edit_code, is_invalid_slug, valid_document, valid_edit_code,
    valid_slug,
};

verus! {

/// HTTP status of a request that breaks a format rule.
pub const BAD_REQUEST: u16 = 400;

/// HTTP status of a request with the wrong edit code.
pub const FORBIDDEN: u16 = 403;

/// HTTP status of a request for a slug or a document that is not stored.
pub const NOT_FOUND: u16 = 404;

/// HTTP status of a request for a slug that is taken.
pub const CONFLICT: u16 = 409;

/// Why a request is not carried out.
#[derive(Debug, Clone, Copy, PartialEq, Eq, Structural)]
pub enum Failure {
    /// The slug breaks the slug format.
    InvalidSlug,
    /// The edit code breaks the edit code format.
    InvalidEditCode,
    /// The document is too large.
    InvalidDocument,
    /// The slug is bound already.
    SlugTaken,
    /// The slug is not bound.
    SlugNotFound,
    /// The slug is bound to a document that is not stored.
    DocumentNotFound,
    /// The edit code is not the one of the slug.
    Forbidden,
    /// The store failed, or holds bytes that cannot be read back.
    Internal,
}

impl Failure {
    /// The HTTP status that reports the failure.
    pub open spec fn spec_status(self) -> u16 {
        match self {
            Failure::InvalidSlug | Failure::InvalidEditCode | Failure::InvalidDocument => BAD_REQUEST,
            Failure::SlugTaken => CONFLICT,
            Failure::SlugNotFound | Failure::DocumentNotFound => NOT_FOUND,
            Failure::Forbidden => FORBIDDEN,
            Failure::Internal => INTERNAL_SERVER_ERROR,
        }
    }

    /// The message that reports the failure.
    pub open spec fn spec_message(self) -> Seq<char> {
        match self {
            Failure::InvalidSlug => "slug must be between 4 and 32 characters and ascii alphanumeric"@,
            Failure::InvalidEditCode => "edit code must be between 4 and 32 characters and valid ascii"@,
            Failure::InvalidDocument => "document must be 200,000 or less bytes"@,
            Failure::SlugTaken => "specified slug is taken"@,
            Failure::SlugNotFound => "the requested slug was not found"@,
            Failure::DocumentNotFound => "the requested document was not found"@,
            Failure::Forbidden => "You do not have permission to edit this document"@,
            Failure::Internal => "internal server error"@,
        }
    }

    /// The HTTP status that reports the failure.
    pub fn status(self) -> (status: u16)
        ensures
            status == self.spec_status(),
    {
        match self {
            Failure::InvalidSlug | Failure::InvalidEditCode | Failure::InvalidDocument => BAD_REQUEST,
            Failure::SlugTaken => CONFLICT,
            Failure::SlugNotFound | Failure::DocumentNotFound => NOT_FOUND,
            Failure::Forbidden => FORBIDDEN,
            Failure::Internal => INTERNAL_SERVER_ERROR,
        }
    }

    /// The message that reports the failure.
    pub fn message(self) -> (message: String)
        ensures
            message@ == self.spec_message(),
    {
        match self {
            Failure::InvalidSlug => "slug must be between 4 and 32 characters and ascii alphanumeric".to_owned(),
            Failure::InvalidEditCode => "edit code must be between 4 and 32 characters and valid ascii".to_owned(),
            Failure::InvalidDocument => "document must be 200,000 or less bytes".to_owned(),
            Failure::SlugTaken => "specified slug is taken".to_owned(),
            Failure::SlugNotFound => "the requested slug was not found".to_owned(),
            Failure::DocumentNotFound => "the requested document was not found".to_owned(),
            Failure::Forbidden => "You do not have permission to edit this document".to_owned(),
            Failure::Internal => "internal server error".to_owned(),
        }
    }
}

/// The body of an error response.
#[derive(Debug, Clone)]
pub struct JsonError {
    pub message: String,
}

/// An error response: its HTTP status and its message, and, where a fault
/// of the store is behind it, that fault. The fault is for the log: it is
/// no part of what the client is sent.
#[derive(Debug)]
pub struct JsonErrorResponse(pub u16, pub String, pub Option<StoreError>);

impl JsonErrorResponse {
    /// The response carries the status and the message of `failure`.
    pub open spec fn reports(&self, failure: Failure) -> bool {
        self.0 == failure.spec_status() && self.1@ == failure.spec_message()
    }

    /// The response that reports `failure`, with no fault behind it.
    pub fn new(failure: Failure) -> (response: JsonErrorResponse)
        ensures
            response.reports(failure),
            response.2 is None,
    {
        JsonErrorResponse(failure.status(), failure.message(), None)
    }

    /// The status of the response, and the body that carries its message.
    pub fn into_response(self) -> (parts: (u16, JsonError))
        ensures
            parts.0 == self.0,
            parts.1.message@ == self.1@,
    {
        (self.0, JsonError { message: self.1 })
    }
}

impl FromSpecImpl<StoreError> for JsonErrorResponse {
    open spec fn obeys_from_spec() -> bool {
        false
    }

    open spec fn from_spec(e: StoreError) -> JsonErrorResponse {
        arbitrary()
    }
}

impl From<StoreError> for JsonErrorResponse {
    /// A fault in the store is reported as an internal error, with nothing
    /// of the fault in the message; the fault itself is kept for the log.
    fn from(e: StoreError) -> (response: JsonErrorResponse)
        ensures
            response.reports(Failure::Internal),
            response.2 == Some(e),
    {
        JsonErrorResponse(Failure::Internal.status(), Failure::Internal.message(), Some(e))
    }
}

/// A request to create a paste.
#[derive(Debug)]
pub struct CreatePaste {
    pub custom_slug: Option<String>,
    pub edit_code: Option<String>,
    pub content: String,
}

/// The slug and the edit code of a paste that was created.
#[derive(Debug)]
pub struct CreatePasteResponse {
    pub slug: String,
    pub edit_code: String,
}

/// A request to replace the document of a slug.
#[derive(Debug)]
pub struct EditPaste {
    pub edit_code: String,
    pub content: String,
}

/// The answer to an edit that was carried out.
#[derive(Debug)]
pub struct EditPasteResponse {}

/// A request to delete a slug.
#[derive(Debug)]
pub struct DeletePaste {
    pub edit_code: String,
}

/// The answer to a deletion that was carried out.
#[derive(Debug)]
pub struct DeletePasteResponse {}

/// The document of a slug: its text, and when it was first stored.
#[derive(Debug)]
pub struct GetPasteResponse {
    pub contents: String,
    pub created: Timestamp,
}

impl View for GetPasteResponse {
    type V = DocumentRecordView;

    open spec fn view(&self) -> DocumentRecordView {
        DocumentRecordView { content: self.contents@, created: self.created }
    }
}

/// Accepts a slug that keeps the slug format.
pub fn check_slug_format(slug: &str) -> (r: Result<(), JsonErrorResponse>)
    ensures
        match r {
            Ok(()) => valid_slug(slug@),
            Err(e) => !valid_slug(slug@) && e.reports(Failure::InvalidSlug) && e.2 is None,
        },
{
    if is_invalid_slug(slug) {
        return Err(JsonErrorResponse::new(Failure::InvalidSlug));
    }
    Ok(())
}

/// Accepts an edit code that keeps the edit code format.
pub fn check_edit_code_format(edit_code: &str) -> (r: Result<(), JsonErrorResponse>)
    ensures
        match r {
            Ok(()) => valid_edit_code(edit_code@),
            Err(e) => !valid_edit_code(edit_code@) && e.reports(Failure::InvalidEditCode) && e.2
                is None,
        },
{
    if is_invalid_edit_code(edit_code) {
        return Err(JsonErrorResponse::new(Failure::InvalidEditCode));
    }
    Ok(())
}

/// Accepts a document that is not too large.
pub fn check_document(contents: &str) -> (r: Result<(), JsonErrorResponse>)
    ensures
        match r {
            Ok(()) => valid_document(contents@),
            Err(e) => !valid_document(contents@) && e.reports(Failure::InvalidDocument) && e.2
                is None,
        },
{
    if is_invalid_document(contents) {
        return Err(JsonErrorResponse::new(Failure::InvalidDocument));
    }
    Ok(())
}

/// The record of `slug` in a store that answers every call.
pub open spec fn slug_lookup(store: StoreView, slug: Seq<char>) -> Result<SlugRecordView, Failure> {
    match store.slug(slug) {
        Ok(Some(record)) => Ok(record),
        Ok(None) => Err(Failure::SlugNotFound),
        Err(_) => Err(Failure::Internal),
    }
}

/// The document under `hash` in a store that answers every call.
pub open spec fn document_lookup(store: StoreView, hash: Seq<u8>) -> Result<
    DocumentRecordView,
    Failure,
> {
    match store.document(hash) {
        Ok(Some(record)) => Ok(record),
        Ok(None) => Err(Failure::DocumentNotFound),
        Err(_) => Err(Failure::Internal),
    }
}

/// Why `edit_code` gives no right to change `slug`, if it gives none: the
/// slug is not bound, or its edit code is another string.
pub open spec fn access_failure(store: StoreView, slug: Seq<char>, edit_code: Seq<char>) -> Option<
    Failure,
> {
    match slug_lookup(store, slug) {
        Ok(record) => if record.edit_code == edit_code {
            None
        } else {
            Some(Failure::Forbidden)
        },
        Err(failure) => Some(failure),
    }
}

/// What reading `slug` gives in a store that answers every call.
pub open spec fn read_outcome(store: StoreView, slug: Seq<char>) -> Result<
    DocumentRecordView,
    Failure,
> {
    match slug_lookup(store, slug) {
        Ok(record) => document_lookup(store, record.document_hash),
        Err(failure) => Err(failure),
    }
}

/// The fault for which the record of `slug` cannot be read, if it cannot.
pub open spec fn slug_fault(store: StoreView, slug: Seq<char>) -> Option<DecodeError> {
    match store.slug(slug) {
        Err(fault) => Some(fault),
        Ok(_) => None,
    }
}

/// The fault for which `slug` cannot be read, if it cannot: that of its
/// record, or else that of the document that the record names.
pub open spec fn read_fault(store: StoreView, slug: Seq<char>) -> Option<DecodeError> {
    match store.slug(slug) {
        Err(fault) => Some(fault),
        Ok(Some(record)) => match store.document(record.document_hash) {
            Err(fault) => Some(fault),
            Ok(_) => None,
        },
        Ok(None) => None,
    }
}

/// Why reading `slug` gives no document, if it gives none.
pub open spec fn read_failure(store: StoreView, slug: Seq<char>) -> Option<Failure> {
    match read_outcome(store, slug) {
        Ok(_) => None,
        Err(failure) => Some(failure),
    }
}

/// How a request that was not carried out is reported, where a store that
/// answers every call refuses it for `failure`, and stored bytes that
/// cannot be read fail with `fault`.
///
/// An error that carries no fault reports exactly `failure`, which is no
/// internal one. An error that carries a decoding fault carries `fault`,
/// and an error that carries a fault of the storage engine came of that
/// fault: both report an internal error.
pub open spec fn reports_refusal(
    e: JsonErrorResponse,
    failure: Option<Failure>,
    fault: Option<DecodeError>,
) -> bool {
    match e.2 {
        None => failure is Some && failure != Some(Failure::Internal) && e.reports(failure->0),
        Some(StoreError::Encoding(found)) => {
            &&& failure == Some(Failure::Internal)
            &&& fault == Some(found)
            &&& e.reports(Failure::Internal)
        },
        Some(StoreError::Sled(_)) => e.reports(Failure::Internal),
    }
}

/// What a lookup found; where it found nothing, the error that reports
/// `missing`; where the lookup failed, the internal error that carries its
/// fault.
pub fn require_found<T>(lookup: Result<Option<T>, StoreError>, missing: Failure) -> (r: Result<
    T,
    JsonErrorResponse,
>)
    ensures
        match lookup {
            Ok(Some(value)) => r == Ok::<T, JsonErrorResponse>(value),
            Ok(None) => r is Err && r->Err_0.reports(missing) && r->Err_0.2 is None,
            Err(fault) => r is Err && r->Err_0.reports(Failure::Internal) && r->Err_0.2 == Some(
                fault,
            ),
        },
{
    match lookup {
        Ok(Some(value)) => Ok(value),
        Ok(None) => Err(JsonErrorResponse::new(missing)),
        Err(fault) => Err(JsonErrorResponse::from(fault)),
    }
}

/// Accepts a lookup that found the slug free; where it found a record, the
/// error that reports the slug as taken; where the lookup failed, the
/// internal error that carries its fault.
pub fn require_free(lookup: Result<Option<SlugRecord>, StoreError>) -> (r: Result<
    (),
    JsonErrorResponse,
>)
    ensures
        match lookup {
            Ok(None) => r is Ok,
            Ok(Some(_)) => r is Err && r->Err_0.reports(Failure::SlugTaken) && r->Err_0.2 is None,
            Err(fault) => r is Err && r->Err_0.reports(Failure::Internal) && r->Err_0.2 == Some(
                fault,
            ),
        },
{
    match lookup {
        Ok(None) => Ok(()),
        Ok(Some(_)) => Err(JsonErrorResponse::new(Failure::SlugTaken)),
        Err(fault) => Err(JsonErrorResponse::from(fault)),
    }
}

/// The record that `slug` is bound to.
pub fn check_slug_exists(db: &Database, slug: &str) -> (r: Result<SlugRecord, JsonErrorResponse>)
    ensures
        match r {
            Ok(record) => db@.slug(slug@) == Ok::<Option<SlugRecordView>, DecodeError>(
                Some(record@),
            ),
            Err(e) => match e.2 {
                None => db@.slug(slug@) == Ok::<Option<SlugRecordView>, DecodeError>(None)
                    && e.reports(Failure::SlugNotFound),
                Some(StoreError::Encoding(fault)) => db@.slug(slug@) == Err::<
                    Option<SlugRecordView>,
                    DecodeError,
                >(fault) && e.reports(Failure::Internal),
                Some(StoreError::Sled(_)) => e.reports(Failure::Internal),
            },
        },
{
    require_found(db.get_slug(slug), Failure::SlugNotFound)
}

/// The document stored under `hash`.
pub fn check_document_exists(db: &Database, hash: &DocumentHash) -> (r: Result<
    DocumentRecord,
    JsonErrorResponse,
>)
    ensures
        match r {
            Ok(record) => db@.document(hash@) == Ok::<Option<DocumentRecordView>, DecodeError>(
                Some(record@),
            ),
            Err(e) => match e.2 {
                None => db@.document(hash@) == Ok::<Option<DocumentRecordView>, DecodeError>(None)
                    && e.reports(Failure::DocumentNotFound),
                Some(StoreError::Encoding(fault)) => db@.document(hash@) == Err::<
                    Option<DocumentRecordView>,
                    DecodeError,
                >(fault) && e.reports(Failure::Internal),
                Some(StoreError::Sled(_)) => e.reports(Failure::Internal),
            },
        },
{
    require_found(db.get_document(hash), Failure::DocumentNotFound)
}

/// Accepts `edit_code` if it is, character for character, the edit code of
/// `record`.
pub fn check_edit_code(record: &SlugRecord, edit_code: &str) -> (r: Result<(), JsonErrorResponse>)
    ensures
        match r {
            Ok(()) => record@.edit_code == edit_code@,
            Err(e) => record@.edit_code != edit_code@ && e.reports(Failure::Forbidden) && e.2
                is None,
        },
{
    let supplied = edit_code.to_owned();
    if record.edit_code == supplied {
        Ok(())
    } else {
        Err(JsonErrorResponse::new(Failure::Forbidden))
    }
}

/// Accepts `edit_code` if `slug` is bound and `edit_code` is its edit code.
pub fn check_slug_access(db: &Database, slug: &str, edit_code: &str) -> (r: Result<
    (),
    JsonErrorResponse,
>)
    ensures
        match r {
            Ok(()) => access_failure(db@, slug@, edit_code@) is None,
            Err(e) => reports_refusal(
                e,
                access_failure(db@, slug@, edit_code@),
                slug_fault(db@, slug@),
            ),
        },
{
    let record = match check_slug_exists(db, slug) {
        Ok(record) => record,
        Err(e) => { return Err(e); },
    };
    check_edit_code(&record, edit_code)
}

impl View for CreatePasteResponse {
    type V = (Seq<char>, Seq<char>);

    open spec fn view(&self) -> (Seq<char>, Seq<char>) {
        (self.slug@, self.edit_code@)
    }
}

/// What a handler returned, as what the service speaks of: the view of the
/// response, or the error.
pub open spec fn response_view<T: View>(r: Result<T, JsonErrorResponse>) -> Result<
    T::V,
    JsonErrorResponse,
> {
    match r {
        Ok(response) => Ok(response@),
        Err(e) => Err(e),
    }
}

/// Whether a handler carried its request out, or the error.
pub open spec fn carried_out<T>(r: Result<T, JsonErrorResponse>) -> Result<(), JsonErrorResponse> {
    match r {
        Ok(_) => Ok(()),
        Err(e) => Err(e),
    }
}

/// The characters of a string that a request may leave out.
fn as_candidate(field: &Option<String>) -> (candidate: Option<&str>)
    ensures
        option_view(candidate) == option_view(*field),
{
    match field {
        Some(given) => Some(given.as_str()),
        None => None,
    }
}

/// Creates a paste: under the slug and the edit code of the request, or,
/// where it gives none, under a random slug of 8 characters and a random
/// edit code of 16.
pub fn create_paste_handler(db: &mut Database, request: &CreatePaste) -> (r: Result<
    CreatePasteResponse,
    JsonErrorResponse,
>)
    ensures
        exists|generated_slug: Seq<char>, generated_edit_code: Seq<char>, created: Timestamp|
            {
                &&& is_generated_slug(generated_slug)
                &&& is_generated_edit_code(generated_edit_code)
                &&& #[trigger] create_outcome(
                    old(db)@,
                    option_view(request.custom_slug),
                    option_view(request.edit_code),
                    request.content@,
                    generated_slug,
                    generated_edit_code,
                    created,
                    response_view(r),
                    final(db)@,
                )
            },
{
    let created = create_paste(
        db,
        as_candidate(&request.custom_slug),
        as_candidate(&request.edit_code),
        request.content.as_str(),
    );
    let r = match created {
        Ok((slug, edit_code)) => Ok(CreatePasteResponse { slug, edit_code }),
        Err(e) => Err(e),
    };
    assert(response_view(r) == created_view(created));
    r
}

/// Replaces the document of `slug`, if the request carries its edit code.
pub fn edit_paste_handler(db: &mut Database, slug: &str, request: &EditPaste) -> (r: Result<
    EditPasteResponse,
    JsonErrorResponse,
>)
    ensures
        exists|created: Timestamp| #[trigger]
            edit_outcome(
                old(db)@,
                slug@,
                request.edit_code@,
                request.content@,
                created,
                carried_out(r),
                final(db)@,
            ),
{
    let edited = edit_paste(db, slug, request.edit_code.as_str(), request.content.as_str());
    let ghost created = choose|created: Timestamp|
        edit_outcome(
            old(db)@,
            slug@,
            request.edit_code@,
            request.content@,
            created,
            edited,
            db@,
        );
    let r = match edited {
        Ok(()) => Ok(EditPasteResponse {  }),
        Err(e) => Err(e),
    };
    assert(edit_outcome(
        old(db)@,
        slug@,
        request.edit_code@,
        request.content@,
        created,
        carried_out(r),
        db@,
    ));
    r
}

/// How deleting a paste ends.
///
/// It is carried out only where `edit_code` is the edit code of `slug`, and
/// then the slug is unbound and every document is stored as before. Where
/// it is refused the store is unchanged, and the error reports the refusal,
/// or a fault of the storage engine that it carries. Where nothing refuses
/// it and it fails, a fault of the storage engine cut it short, and the
/// documents are stored as before.
pub open spec fn delete_outcome(
    before: StoreView,
    slug: Seq<char>,
    edit_code: Seq<char>,
    r: Result<(), JsonErrorResponse>,
    after: StoreView,
) -> bool {
    let failure = access_failure(before, slug, edit_code);
    match r {
        Ok(()) => failure is None && after == before.without_slug(slug),
        Err(e) => {
            &&& reports_refusal(e, failure, slug_fault(before, slug))
            &&& failure is Some ==> after == before
            &&& failure is None ==> after.documents == before.documents
        },
    }
}

/// Unbinds `slug`, if the request carries its edit code. The document that
/// it named stays stored.
pub fn delete_paste_handler(db: &mut Database, slug: &str, request: &DeletePaste) -> (r: Result<
    DeletePasteResponse,
    JsonErrorResponse,
>)
    ensures
        delete_outcome(old(db)@, slug@, request.edit_code@, carried_out(r), final(db)@),
{
    match check_slug_access(db, slug, request.edit_code.as_str()) {
        Ok(()) => {},
        Err(e) => { return Err(e); },
    }
    match db.remove_slug(slug) {
        Ok(_) => Ok(DeletePasteResponse {  }),
        Err(e) => Err(JsonErrorResponse::from(e)),
    }
}

/// The document that `slug` names.
pub fn get_paste_handler(db: &Database, slug: &str) -> (r: Result<
    GetPasteResponse,
    JsonErrorResponse,
>)
    ensures
        match r {
            Ok(response) => read_outcome(db@, slug@) == Ok::<DocumentRecordView, Failure>(
                response@,
            ),
            Err(e) => reports_refusal(e, read_failure(db@, slug@), read_fault(db@, slug@)),
        },
{
    let slug_record = match check_slug_exists(db, slug) {
        Ok(record) => record,
        Err(e) => { return Err(e); },
    };
    let document = match check_document_exists(db, &slug_record.document_hash) {
        Ok(record) => record,
        Err(e) => { return Err(e); },
    };
    Ok(GetPasteResponse { contents: document.content, created: document.created })
}

/// The document of a slug, rendered.
#[derive(Debug)]
pub struct GetPasteHtmlResponse {
    pub html: String,
}

/// A request to render markdown.
#[derive(Debug)]
pub struct RenderMarkdown {
    pub content: String,
}

/// Markdown, rendered.
#[derive(Debug)]
pub struct RenderMarkdownResponse {
    pub html: String,
}

/// The document that `slug` names, rendered to sanitized HTML with its
/// fenced code blocks highlighted.
pub fn get_paste_html_handler(db: &Database, slug: &str) -> (r: Result<
    GetPasteHtmlResponse,
    JsonErrorResponse,
>)
    ensures
        match r {
            Ok(response) => read_outcome(db@, slug@) is Ok && is_pretty_rendering(
                read_outcome(db@, slug@)->Ok_0.content,
                response.html@,
            ),
            Err(e) => reports_refusal(e, read_failure(db@, slug@), read_fault(db@, slug@)),
        },
{
    match get_paste_handler(db, slug) {
        Ok(paste) => Ok(
            GetPasteHtmlResponse { html: markdown_to_html_pretty(paste.contents.as_str()) },
        ),
        Err(e) => Err(e),
    }
}

/// Renders the markdown of the request to sanitized HTML with its fenced
/// code blocks highlighted, if it is not too large.
pub fn render_markdown_handler(request: &RenderMarkdown) -> (r: Result<
    RenderMarkdownResponse,
    JsonErrorResponse,
>)
    ensures
        match r {
            Ok(response) => valid_document(request.content@) && is_pretty_rendering(
                request.content@,
                response.html@,
            ),
            Err(e) => !valid_document(request.content@) && e.reports(Failure::InvalidDocument)
                && e.2 is None,
        },
{
    match check_document(request.content.as_str()) {
        Ok(()) => {},
        Err(e) => { return Err(e); },
    }
    Ok(RenderMarkdownResponse { html: markdown_to_html_pretty(request.content.as_str()) })
}

/// The store holds no other text than `content` under the digest of
/// `content`.
pub open spec fn digest_names(store: StoreView, content: Seq<char>) -> bool {
    store.documents.contains_key(content_hash(content)) ==> {
        &&& store.document(content_hash(content)) is Ok
        &&& store.document(content_hash(content))->Ok_0 is Some
        &&& store.document(content_hash(content))->Ok_0->0.content == content
    }
}

/// After a paste was stored, its slug is bound to the digest of its content
/// and to its edit code, and reading the slug gives the content.
pub proof fn lemma_stored_paste_reads_back(
    store: StoreView,
    slug: Seq<char>,
    edit_code: Seq<char>,
    content: Seq<char>,
    created: Timestamp,
)
    requires
        storable(edit_code, content),
        digest_names(store, content),
    ensures
        slug_lookup(paste_stored(store, slug, edit_code, content, created), slug) == Ok::<
            SlugRecordView,
            Failure,
        >(SlugRecordView { document_hash: content_hash(content), edit_code }),
        slug_unavailable(paste_stored(store, slug, edit_code, content, created), slug) == Some(
            Failure::SlugTaken,
        ),
        read_outcome(paste_stored(store, slug, edit_code, content, created), slug) is Ok,
        read_outcome(paste_stored(store, slug, edit_code, content, created), slug)->Ok_0.content
            == content,
{
    SlugRecord::lemma_round_trip(
        SlugRecordView { document_hash: content_hash(content), edit_code },
    );
    DocumentRecord::lemma_round_trip(DocumentRecordView { content, created });
}

/// Slug uniqueness: once a paste was created, no request creates a paste
/// under the same slug. A request that names the slug is refused because
/// the slug is taken, unless its document or the slug itself is refused
/// first; so is a request for which the same slug is generated.
pub proof fn lemma_created_slug_is_taken(
    before: StoreView,
    custom_slug: Option<Seq<char>>,
    custom_edit_code: Option<Seq<char>>,
    content: Seq<char>,
    generated_slug: Seq<char>,
    generated_edit_code: Seq<char>,
    created: Timestamp,
    r: Result<(Seq<char>, Seq<char>), JsonErrorResponse>,
    after: StoreView,
    next_edit_code: Option<Seq<char>>,
    next_content: Seq<char>,
    next_generated_slug: Seq<char>,
)
    requires
        create_outcome(
            before,
            custom_slug,
            custom_edit_code,
            content,
            generated_slug,
            generated_edit_code,
            created,
            r,
            after,
        ),
        r is Ok,
    ensures
        create_failure(after, Some(r->Ok_0.0), next_edit_code, next_content, next_generated_slug)
            is Some,
        custom_slug is Some && valid_document(next_content) ==> create_failure(
            after,
            Some(r->Ok_0.0),
            next_edit_code,
            next_content,
            next_generated_slug,
        ) == Some(Failure::SlugTaken),
        valid_document(next_content) ==> create_failure(
            after,
            None,
            next_edit_code,
            next_content,
            r->Ok_0.0,
        ) == Some(Failure::SlugTaken),
{
    SlugRecord::lemma_round_trip(
        SlugRecordView { document_hash: content_hash(content), edit_code: r->Ok_0.1 },
    );
}

/// A creation that is carried out binds a slug that was not bound, and
/// touches no other slug.
pub proof fn lemma_create_binds_a_free_slug(
    before: StoreView,
    custom_slug: Option<Seq<char>>,
    custom_edit_code: Option<Seq<char>>,
    content: Seq<char>,
    generated_slug: Seq<char>,
    generated_edit_code: Seq<char>,
    created: Timestamp,
    r: Result<(Seq<char>, Seq<char>), JsonErrorResponse>,
    after: StoreView,
)
    requires
        create_outcome(
            before,
            custom_slug,
            custom_edit_code,
            content,
            generated_slug,
            generated_edit_code,
            created,
            r,
            after,
        ),
        r is Ok,
    ensures
        !before.slugs.contains_key(slug_key(r->Ok_0.0)),
        after.slugs.contains_key(slug_key(r->Ok_0.0)),
        after.slugs.remove(slug_key(r->Ok_0.0)) == before.slugs,
        valid_document(content),
        custom_slug is Some ==> valid_slug(r->Ok_0.0),
        custom_edit_code is Some ==> valid_edit_code(r->Ok_0.1),
{
}

/// Authorization: an edit with an edit code that is not the one of the slug
/// is refused and changes nothing. The error reports the refusal, unless a
/// fault of the storage engine kept the slug from being read.
pub proof fn lemma_wrong_edit_code_changes_nothing(
    before: StoreView,
    slug: Seq<char>,
    edit_code: Seq<char>,
    content: Seq<char>,
    created: Timestamp,
    r: Result<(), JsonErrorResponse>,
    after: StoreView,
)
    requires
        edit_outcome(before, slug, edit_code, content, created, r, after),
        slug_lookup(before, slug) is Ok,
        slug_lookup(before, slug)->Ok_0.edit_code != edit_code,
    ensures
        r is Err,
        after == before,
        slug_lookup(after, slug) == slug_lookup(before, slug),
        r->Err_0.2 is None ==> r->Err_0.reports(Failure::Forbidden),
        r->Err_0.2 is Some ==> r->Err_0.2->0 is Sled && r->Err_0.reports(Failure::Internal),
{
}

/// An edit of a slug that is not bound is refused and changes nothing: no
/// edit binds a slug.
pub proof fn lemma_edit_of_unbound_slug_changes_nothing(
    before: StoreView,
    slug: Seq<char>,
    edit_code: Seq<char>,
    content: Seq<char>,
    created: Timestamp,
    r: Result<(), JsonErrorResponse>,
    after: StoreView,
)
    requires
        edit_outcome(before, slug, edit_code, content, created, r, after),
        !before.slugs.contains_key(slug_key(slug)),
    ensures
        r is Err,
        after == before,
        r->Err_0.2 is None ==> r->Err_0.reports(Failure::SlugNotFound),
        r->Err_0.2 is Some ==> r->Err_0.2->0 is Sled && r->Err_0.reports(Failure::Internal),
{
}

/// Edit indirection: an edit that is carried out makes the slug read as the
/// new content, keeps its edit code, and removes or rewrites no stored
/// document, so the document that the slug named before is still stored
/// under its digest.
pub proof fn lemma_edit_redirects_slug(
    before: StoreView,
    slug: Seq<char>,
    edit_code: Seq<char>,
    content: Seq<char>,
    created: Timestamp,
    r: Result<(), JsonErrorResponse>,
    after: StoreView,
)
    requires
        edit_outcome(before, slug, edit_code, content, created, r, after),
        r is Ok,
        digest_names(before, content),
    ensures
        read_outcome(after, slug) is Ok,
        read_outcome(after, slug)->Ok_0.content == content,
        slug_lookup(after, slug)->Ok_0.edit_code == slug_lookup(before, slug)->Ok_0.edit_code,
        forall|hash: Seq<u8>| #[trigger]
            before.documents.contains_key(hash) ==> after.documents.contains_key(hash)
                && after.documents[hash] == before.documents[hash],
{
    lemma_stored_paste_reads_back(before, slug, edit_code, content, created);
}

/// A paste that was created reads back as the content of the request, and
/// the edit code that was returned gives access to it.
pub proof fn lemma_created_paste_reads_back(
    before: StoreView,
    custom_slug: Option<Seq<char>>,
    custom_edit_code: Option<Seq<char>>,
    content: Seq<char>,
    generated_slug: Seq<char>,
    generated_edit_code: Seq<char>,
    created: Timestamp,
    r: Result<(Seq<char>, Seq<char>), JsonErrorResponse>,
    after: StoreView,
)
    requires
        create_outcome(
            before,
            custom_slug,
            custom_edit_code,
            content,
            generated_slug,
            generated_edit_code,
            created,
            r,
            after,
        ),
        r is Ok,
        digest_names(before, content),
    ensures
        read_outcome(after, r->Ok_0.0) is Ok,
        read_outcome(after, r->Ok_0.0)->Ok_0.content == content,
        access_failure(after, r->Ok_0.0, r->Ok_0.1) is None,
        forall|hash: Seq<u8>| #[trigger]
            before.documents.contains_key(hash) ==> after.documents.contains_key(hash)
                && after.documents[hash] == before.documents[hash],
{
    lemma_stored_paste_reads_back(before, r->Ok_0.0, r->Ok_0.1, content, created);
}

/// After a paste was deleted, reading its slug finds no slug, and every
/// document is stored as before.
pub proof fn lemma_deleted_slug_is_not_found(
    before: StoreView,
    slug: Seq<char>,
    edit_code: Seq<char>,
    r: Result<(), JsonErrorResponse>,
    after: StoreView,
)
    requires
        delete_outcome(before, slug, edit_code, r, after),
        r is Ok,
    ensures
        read_outcome(after, slug) == Err::<DocumentRecordView, Failure>(Failure::SlugNotFound),
        after.documents == before.documents,
{
}

} // verus!
