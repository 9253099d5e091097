//! Storing a paste, and rendering markdown to HTML that is safe to serve.

use vstd::prelude::*;
use vstd::string::*;
use crate::codec::fits_string_field;
use vstd::utf8::is_ascii_chars;
use crate::db::{
    content_hash, option_view, Database, DocumentRecord, DocumentRecordView, SlugRecord,
    SlugRecordView, StoreView, Timestamp, HASH_LEN,
};
use crate::errors::StoreError;
use crate::routes::api::{
    access_failure, check_document, check_edit_code_format, check_slug_access,
    check_slug_format, reports_refusal, require_free, slug_fault, Failure, JsonErrorResponse,
};
use crate::validators::{valid_document, valid_edit_code, valid_slug};
use crate::markdown::{
    clone_event, event_kind, event_kind_of, events_html, fenced_code_pieces,
    find_syntax_by_extension, find_syntax_by_name, find_theme, highlighted_html,
    highlighted_html_for_string, html_event, html_event_of, kind_views, load_syntaxes,
    load_themes, markdown_events, name_views, parse_markdown, piece_views, pieces_of,
    render_events, sanitize, sanitized_html, syntax_by_extension, syntax_by_name, text_event,
    text_event_of, theme_by_name, EventKind, Piece, PieceView,
};

verus! {

/// `chrono::Utc::now`: the time on the system clock, as seconds since the
/// Unix epoch and nanoseconds into the second. Nothing is claimed of it.
#[verifier::external_body]
pub(crate) fn now() -> Timestamp {
    let time = chrono::Utc::now();
    Timestamp { seconds: time.timestamp(), nanoseconds: time.timestamp_subsec_nanos() }
}

/// The store after a paste was written: the document offered to the
/// document namespace, and `slug` bound to its digest and `edit_code`.
pub open spec fn paste_stored(
    store: StoreView,
    slug: Seq<char>,
    edit_code: Seq<char>,
    content: Seq<char>,
    created: Timestamp,
) -> StoreView {
    store.with_document(DocumentRecordView { content, created }).with_slug(
        slug,
        SlugRecordView { document_hash: content_hash(content), edit_code },
    )
}

/// The strings of a paste fit in their fields, and the digest of its
/// content has the length of a digest: what holds of every paste that was
/// written from values in memory.
pub open spec fn storable(edit_code: Seq<char>, content: Seq<char>) -> bool {
    &&& fits_string_field(edit_code)
    &&& fits_string_field(content)
    &&& content_hash(content).len() == HASH_LEN
}

/// How the write of a paste ends. When it succeeds the paste is stored.
/// When the record that the slug had before cannot be read back, the paste
/// is stored all the same and that fault is returned. After a fault of the
/// storage engine either the slug namespace is as it was, or the document
/// namespace is as the paste leaves it.
pub open spec fn paste_written(
    before: StoreView,
    slug: Seq<char>,
    edit_code: Seq<char>,
    content: Seq<char>,
    created: Timestamp,
    r: Result<(), StoreError>,
    after: StoreView,
) -> bool {
    match r {
        Ok(()) => {
            &&& storable(edit_code, content)
            &&& after == paste_stored(before, slug, edit_code, content, created)
        },
        Err(StoreError::Encoding(_)) => {
            &&& storable(edit_code, content)
            &&& after == paste_stored(before, slug, edit_code, content, created)
            &&& before.slug(slug) is Err
        },
        Err(StoreError::Sled(_)) => write_cut_short(before, content, created, after),
    }
}

/// What is known of the store after a fault of the storage engine cut the
/// write of a paste short: the fault came before the slug namespace was
/// touched, or after the document was offered to the document namespace.
pub open spec fn write_cut_short(
    before: StoreView,
    content: Seq<char>,
    created: Timestamp,
    after: StoreView,
) -> bool {
    ||| after.slugs == before.slugs
    ||| after.documents == before.with_document(DocumentRecordView { content, created }).documents
}

/// Writes a paste whose document, if it is new, is dated `created`: stores
/// `content`, then binds `slug` to it and to `edit_code`.
fn write_paste(db: &mut Database, slug: &str, edit_code: &str, content: &str, created: Timestamp) -> (r:
    Result<(), StoreError>)
    ensures
        paste_written(old(db)@, slug@, edit_code@, content@, created, r, final(db)@),
{
    let document = DocumentRecord { content: content.to_owned(), created };
    let hash = match db.insert_document(&document) {
        Ok(hash) => hash,
        Err(e) => { return Err(e); },
    };
    let record = SlugRecord { document_hash: hash, edit_code: edit_code.to_owned() };
    match db.insert_slug(slug, &record) {
        Ok(_) => Ok(()),
        Err(e) => Err(e),
    }
}

/// The characters of a generated slug: the ASCII digits and letters.
pub const SLUG_ALPHABET: [char; 62] = [
    '0', '1', '2', '3', '4', '5', '6', '7', '8', '9', 'a', 'b', 'c', 'd', 'e', 'f', 'g', 'h', 'i',
    'j', 'k', 'l', 'm', 'n', 'o', 'p', 'q', 'r', 's', 't', 'u', 'v', 'w', 'x', 'y', 'z', 'A', 'B',
    'C', 'D', 'E', 'F', 'G', 'H', 'I', 'J', 'K', 'L', 'M', 'N', 'O', 'P', 'Q', 'R', 'S', 'T', 'U',
    'V', 'W', 'X', 'Y', 'Z',
];

/// The characters of a generated edit code: `_`, `-`, and the ASCII digits
/// and letters.
pub const EDIT_CODE_ALPHABET: [char; 64] = [
    '_', '-', '0', '1', '2', '3', '4', '5', '6', '7', '8', '9', 'a', 'b', 'c', 'd', 'e', 'f', 'g',
    'h', 'i', 'j', 'k', 'l', 'm', 'n', 'o', 'p', 'q', 'r', 's', 't', 'u', 'v', 'w', 'x', 'y', 'z',
    'A', 'B', 'C', 'D', 'E', 'F', 'G', 'H', 'I', 'J', 'K', 'L', 'M', 'N', 'O', 'P', 'Q', 'R', 'S',
    'T', 'U', 'V', 'W', 'X', 'Y', 'Z',
];

/// Length of a generated slug.
pub const GENERATED_SLUG_LEN: usize = 8;

/// Length of a generated edit code.
pub const GENERATED_EDIT_CODE_LEN: usize = 16;

/// A string of `size` characters, each taken from `alphabet`.
pub open spec fn is_generated_id(id: Seq<char>, alphabet: Seq<char>, size: nat) -> bool {
    &&& id.len() == size
    &&& forall|i: int| 0 <= i < id.len() ==> alphabet.contains(#[trigger] id[i])
}

/// A string that can be a generated slug.
pub open spec fn is_generated_slug(slug: Seq<char>) -> bool {
    is_generated_id(slug, SLUG_ALPHABET@, GENERATED_SLUG_LEN as nat)
}

/// A string that can be a generated edit code.
pub open spec fn is_generated_edit_code(edit_code: Seq<char>) -> bool {
    is_generated_id(edit_code, EDIT_CODE_ALPHABET@, GENERATED_EDIT_CODE_LEN as nat)
}

/// `nanoid::format` with the default random source: a random string of
/// `size` characters, each taken from `alphabet`. The alphabet is ASCII, is
/// not empty and has at most 255 characters.
#[verifier::external_body]
fn random_id(alphabet: &[char], size: usize) -> (id: String)
    requires
        0 < alphabet@.len() < 256,
        is_ascii_chars(alphabet@),
        0 < size < 256,
    ensures
        is_generated_id(id@, alphabet@, size as nat),
{
    nanoid::format(nanoid::rngs::default, alphabet, size)
}

/// Every generated slug keeps the slug format.
pub proof fn lemma_generated_slug_is_valid(slug: Seq<char>)
    requires
        is_generated_slug(slug),
    ensures
        valid_slug(slug),
{
}

/// Every generated edit code keeps the edit code format.
pub proof fn lemma_generated_edit_code_is_valid(edit_code: Seq<char>)
    requires
        is_generated_edit_code(edit_code),
    ensures
        valid_edit_code(edit_code),
{
}

/// The candidate that the request gives, or else the generated one.
pub open spec fn resolved(candidate: Option<Seq<char>>, generated: Seq<char>) -> Seq<char> {
    match candidate {
        Some(given) => given,
        None => generated,
    }
}

/// Why `slug` cannot be bound anew, if it cannot: it is bound already, or
/// what is stored under it cannot be read.
pub open spec fn slug_unavailable(store: StoreView, slug: Seq<char>) -> Option<Failure> {
    match store.slug(slug) {
        Ok(None) => None,
        Ok(Some(_)) => Some(Failure::SlugTaken),
        Err(_) => Some(Failure::Internal),
    }
}

/// Why a paste is not created, if it is not, in a store that answers every
/// call. The document is checked first, then the slug, given or generated,
/// then the edit code.
pub open spec fn create_failure(
    store: StoreView,
    custom_slug: Option<Seq<char>>,
    edit_code: Option<Seq<char>>,
    content: Seq<char>,
    generated_slug: Seq<char>,
) -> Option<Failure> {
    if !valid_document(content) {
        Some(Failure::InvalidDocument)
    } else if custom_slug is Some && !valid_slug(custom_slug->0) {
        Some(Failure::InvalidSlug)
    } else if slug_unavailable(store, resolved(custom_slug, generated_slug)) is Some {
        slug_unavailable(store, resolved(custom_slug, generated_slug))
    } else if edit_code is Some && !valid_edit_code(edit_code->0) {
        Some(Failure::InvalidEditCode)
    } else {
        None
    }
}

/// The slug and the edit code that a creation returned, as characters.
pub open spec fn created_view(r: Result<(String, String), JsonErrorResponse>) -> Result<
    (Seq<char>, Seq<char>),
    JsonErrorResponse,
> {
    match r {
        Ok((slug, edit_code)) => Ok((slug@, edit_code@)),
        Err(e) => Err(e),
    }
}

/// How creating a paste ends, given the identifiers that were generated for
/// it and the time.
///
/// It is carried out only where nothing refuses it, and then the paste is
/// stored under the resolved slug and edit code, which are returned. Where
/// it is refused the store is unchanged, and the error reports the refusal,
/// or a fault of the storage engine that it carries; a document or a slug
/// that breaks its format is refused before the store is asked anything, so
/// that refusal is always the one reported. Where nothing refuses it and it
/// fails, a fault of the storage engine cut the write short.
pub open spec fn create_outcome(
    before: StoreView,
    custom_slug: Option<Seq<char>>,
    custom_edit_code: Option<Seq<char>>,
    content: Seq<char>,
    generated_slug: Seq<char>,
    generated_edit_code: Seq<char>,
    created: Timestamp,
    r: Result<(Seq<char>, Seq<char>), JsonErrorResponse>,
    after: StoreView,
) -> bool {
    let slug = resolved(custom_slug, generated_slug);
    let edit_code = resolved(custom_edit_code, generated_edit_code);
    let failure = create_failure(before, custom_slug, custom_edit_code, content, generated_slug);
    match r {
        Ok((bound_slug, bound_edit_code)) => {
            &&& failure is None
            &&& bound_slug == slug
            &&& bound_edit_code == edit_code
            &&& storable(edit_code, content)
            &&& after == paste_stored(before, slug, edit_code, content, created)
        },
        Err(e) => {
            &&& reports_refusal(e, failure, slug_fault(before, slug))
            &&& failure == Some(Failure::InvalidDocument) || failure == Some(Failure::InvalidSlug)
                ==> e.2 is None
            &&& failure is Some ==> after == before
            &&& failure is None ==> write_cut_short(before, content, created, after)
        },
    }
}

/// Creates a paste with `generated_slug` and `generated_edit_code` standing
/// in for the candidates that are not given, dated `created` if its
/// document is new. The document is checked first, then the slug, which
/// has to be free, then the edit code; only then is anything written.
pub fn create_paste_with(
    db: &mut Database,
    candidate_slug: Option<&str>,
    candidate_edit_code: Option<&str>,
    content: &str,
    generated_slug: String,
    generated_edit_code: String,
    created: Timestamp,
) -> (r: Result<(String, String), JsonErrorResponse>)
    ensures
        create_outcome(
            old(db)@,
            option_view(candidate_slug),
            option_view(candidate_edit_code),
            content@,
            generated_slug@,
            generated_edit_code@,
            created,
            created_view(r),
            final(db)@,
        ),
{
    match check_document(content) {
        Ok(()) => {},
        Err(e) => { return Err(e); },
    }
    let slug: String = match candidate_slug {
        Some(custom) => {
            match check_slug_format(custom) {
                Ok(()) => {},
                Err(e) => { return Err(e); },
            }
            custom.to_owned()
        },
        None => generated_slug,
    };
    match require_free(db.get_slug(slug.as_str())) {
        Ok(()) => {},
        Err(e) => { return Err(e); },
    }
    let edit_code: String = match candidate_edit_code {
        Some(custom) => {
            match check_edit_code_format(custom) {
                Ok(()) => {},
                Err(e) => { return Err(e); },
            }
            custom.to_owned()
        },
        None => generated_edit_code,
    };
    match write_paste(db, slug.as_str(), edit_code.as_str(), content, created) {
        Ok(()) => Ok((slug, edit_code)),
        Err(e) => Err(JsonErrorResponse::from(e)),
    }
}

/// Creates a paste and returns its slug and its edit code: the candidates
/// where they are given, and else a random slug of 8 ASCII letters and
/// digits and a random edit code of 16 URL-safe characters.
pub fn create_paste(
    db: &mut Database,
    candidate_slug: Option<&str>,
    candidate_edit_code: Option<&str>,
    content: &str,
) -> (r: Result<(String, String), JsonErrorResponse>)
    ensures
        exists|generated_slug: Seq<char>, generated_edit_code: Seq<char>, created: Timestamp|
            {
                &&& is_generated_slug(generated_slug)
                &&& is_generated_edit_code(generated_edit_code)
                &&& #[trigger] create_outcome(
                    old(db)@,
                    option_view(candidate_slug),
                    option_view(candidate_edit_code),
                    content@,
                    generated_slug,
                    generated_edit_code,
                    created,
                    created_view(r),
                    final(db)@,
                )
            },
{
    let generated_slug = random_id(SLUG_ALPHABET.as_slice(), GENERATED_SLUG_LEN);
    let generated_edit_code = random_id(EDIT_CODE_ALPHABET.as_slice(), GENERATED_EDIT_CODE_LEN);
    let created = now();
    create_paste_with(
        db,
        candidate_slug,
        candidate_edit_code,
        content,
        generated_slug,
        generated_edit_code,
        created,
    )
}

/// How editing a paste ends.
///
/// It is carried out only where `edit_code` is the edit code of `slug`, and
/// then the new document is stored and the slug bound to it, with the edit
/// code it had. Where it is refused the store is unchanged, and the error
/// reports the refusal, or a fault of the storage engine that it carries.
/// Where nothing refuses it and it fails, a fault of the storage engine cut
/// the write short.
pub open spec fn edit_outcome(
    before: StoreView,
    slug: Seq<char>,
    edit_code: Seq<char>,
    content: Seq<char>,
    created: Timestamp,
    r: Result<(), JsonErrorResponse>,
    after: StoreView,
) -> bool {
    let failure = access_failure(before, slug, edit_code);
    match r {
        Ok(()) => {
            &&& failure is None
            &&& storable(edit_code, content)
            &&& after == paste_stored(before, slug, edit_code, content, created)
        },
        Err(e) => {
            &&& reports_refusal(e, failure, slug_fault(before, slug))
            &&& failure is Some ==> after == before
            &&& failure is None ==> write_cut_short(before, content, created, after)
        },
    }
}

/// Replaces the document of `slug` by `content`, dated `created` if it is
/// new, if `slug` is bound and `edit_code` is its edit code. Nothing is
/// written before that is settled. The document that `slug` named before
/// stays stored.
pub fn edit_paste_at(
    db: &mut Database,
    slug: &str,
    edit_code: &str,
    content: &str,
    created: Timestamp,
) -> (r: Result<(), JsonErrorResponse>)
    ensures
        edit_outcome(old(db)@, slug@, edit_code@, content@, created, r, final(db)@),
{
    match check_slug_access(db, slug, edit_code) {
        Ok(()) => {},
        Err(e) => { return Err(e); },
    }
    match write_paste(db, slug, edit_code, content, created) {
        Ok(()) => Ok(()),
        Err(e) => Err(JsonErrorResponse::from(e)),
    }
}

/// Replaces the document of `slug` by `content`, dated now if it is new, if
/// `slug` is bound and `edit_code` is its edit code.
pub fn edit_paste(db: &mut Database, slug: &str, edit_code: &str, content: &str) -> (r: Result<
    (),
    JsonErrorResponse,
>)
    ensures
        exists|created: Timestamp| #[trigger]
            edit_outcome(old(db)@, slug@, edit_code@, content@, created, r, final(db)@),
{
    edit_paste_at(db, slug, edit_code, content, now())
}

/// The attributes that the sanitizer leaves on every tag.
pub const GENERIC_ATTRIBUTES: [&'static str; 3] = ["id", "name", "class"];

/// The extensions of the markdown parser that are switched on, one bit
/// each: all that it has, which are tables, footnotes in the older syntax,
/// strikethrough, task lists, smart punctuation, heading attributes, and
/// the two kinds of metadata block.
pub const MARKDOWN_EXTENSIONS: u32 = 0x3fe;

/// `rel` is none of the attributes that the sanitizer leaves on every tag.
proof fn lemma_generic_attributes_leave_rel_out()
    ensures
        forall|i: int|
            0 <= i < GENERIC_ATTRIBUTES@.len() ==> (#[trigger] GENERIC_ATTRIBUTES@[i])@ != "rel"@,
{
    reveal_strlit("id");
    reveal_strlit("name");
    reveal_strlit("class");
    reveal_strlit("rel");
    assert(GENERIC_ATTRIBUTES@[0]@.len() == 2);
    assert(GENERIC_ATTRIBUTES@[1]@.len() == 4);
    assert(GENERIC_ATTRIBUTES@[2]@.len() == 5);
    assert("rel"@.len() == 3);
}

/// The HTML that is served for `unsafe_html`: what the sanitizer leaves of
/// it when `id`, `name` and `class` are the attributes allowed on every
/// tag.
pub open spec fn safe_html(unsafe_html: Seq<char>) -> Seq<char> {
    sanitized_html(unsafe_html, name_views(GENERIC_ATTRIBUTES@))
}

/// Renders markdown to sanitized HTML, without highlighting: the source is
/// parsed, the events are written out as HTML, and the HTML is sanitized.
pub fn markdown_to_html(markdown_src: &str) -> (html: String)
    ensures
        html@ == safe_html(events_html(markdown_events(markdown_src@, MARKDOWN_EXTENSIONS))),
{
    let events = parse_markdown(markdown_src, MARKDOWN_EXTENSIONS);
    let unsafe_html = render_events(events);
    proof {
        lemma_generic_attributes_leave_rel_out();
    }
    sanitize(unsafe_html.as_str(), &GENERIC_ATTRIBUTES)
}

/// Name of the grammar that leaves text as it is.
pub const PLAIN_TEXT_SYNTAX: &'static str = "Plain Text";

/// Name of the theme that colours highlighted code.
pub const HIGHLIGHT_THEME: &'static str = "InspiredGitHub";

/// The grammar for a fence with the label `label`: the grammar that `set`
/// keeps under that label as a file extension, and the plain text grammar
/// where it keeps none.
pub open spec fn fence_syntax(set: syntect::parsing::SyntaxSet, label: Seq<char>) -> Option<
    syntect::parsing::SyntaxReference,
> {
    match syntax_by_extension(set, label) {
        Some(syntax) => Some(syntax),
        None => syntax_by_name(set, PLAIN_TEXT_SYNTAX@),
    }
}

/// The event that stands for a fenced code block: its text highlighted, as
/// one pre-rendered fragment; its text as it is where the highlighter has
/// no grammar or theme for it, or fails.
pub open spec fn block_event(
    set: syntect::parsing::SyntaxSet,
    themes: syntect::highlighting::ThemeSet,
    label: Seq<char>,
    text: Seq<char>,
) -> pulldown_cmark::Event<'static> {
    match (fence_syntax(set, label), theme_by_name(themes, HIGHLIGHT_THEME@)) {
        (Some(syntax), Some(theme)) => match highlighted_html(text, set, syntax, theme) {
            Some(html) => html_event_of(html),
            None => text_event_of(text),
        },
        _ => text_event_of(text),
    }
}

/// The event that the rendered document holds for `piece`: the parser event
/// itself where the piece is an event, and the event that stands for the
/// block where it is a fenced code block.
pub open spec fn piece_event(
    piece: PieceView,
    parsed: Seq<pulldown_cmark::Event<'static>>,
    set: syntect::parsing::SyntaxSet,
    themes: syntect::highlighting::ThemeSet,
) -> pulldown_cmark::Event<'static> {
    match piece {
        PieceView::Event(index) => parsed[index as int],
        PieceView::Code { label, text } => block_event(set, themes, label, text),
    }
}

/// The events of `source` with each fenced code block replaced by one
/// event, and every other event as the parser gave it.
pub open spec fn highlighted_events(
    source: Seq<char>,
    set: syntect::parsing::SyntaxSet,
    themes: syntect::highlighting::ThemeSet,
) -> Seq<pulldown_cmark::Event<'static>> {
    let parsed = markdown_events(source, MARKDOWN_EXTENSIONS);
    let pieces = pieces_of(
        parsed.map_values(|event: pulldown_cmark::Event<'static>| event_kind_of(event)),
    );
    Seq::new(pieces.len(), |k: int| piece_event(pieces[k], parsed, set, themes))
}

/// `html` is the sanitized rendering of `source` with its fenced code
/// blocks highlighted, for the grammars and themes that the highlighter
/// ships with.
pub open spec fn is_pretty_rendering(source: Seq<char>, html: Seq<char>) -> bool {
    exists|set: syntect::parsing::SyntaxSet, themes: syntect::highlighting::ThemeSet|
        html == safe_html(events_html(#[trigger] highlighted_events(source, set, themes)))
}

/// The event that stands for a fenced code block with the label `label` and
/// the text `text`.
fn highlighted_block(
    label: &str,
    text: String,
    syntaxes: &syntect::parsing::SyntaxSet,
    themes: &syntect::highlighting::ThemeSet,
) -> (event: pulldown_cmark::Event<'static>)
    ensures
        event == block_event(*syntaxes, *themes, label@, text@),
{
    let syntax = match find_syntax_by_extension(syntaxes, label) {
        Some(syntax) => Some(syntax),
        None => find_syntax_by_name(syntaxes, PLAIN_TEXT_SYNTAX),
    };
    let theme = find_theme(themes, HIGHLIGHT_THEME);
    match (syntax, theme) {
        (Some(syntax), Some(theme)) => {
            match highlighted_html_for_string(text.as_str(), syntaxes, syntax, theme) {
                Some(html) => html_event(html),
                None => text_event(text),
            }
        },
        _ => text_event(text),
    }
}

/// Renders markdown to sanitized HTML with its fenced code blocks
/// highlighted: the source is parsed, each fenced code block is replaced by
/// its highlighted form, the events are written out as HTML, and the HTML is
/// sanitized.
pub fn markdown_to_html_pretty(markdown_src: &str) -> (html: String)
    ensures
        is_pretty_rendering(markdown_src@, html@),
{
    let events = parse_markdown(markdown_src, MARKDOWN_EXTENSIONS);
    let mut kinds: Vec<EventKind> = Vec::new();
    let mut i: usize = 0;
    while i < events.len()
        invariant
            0 <= i <= events@.len(),
            kinds@.len() == i,
            forall|k: int| 0 <= k < i ==> (#[trigger] kinds@[k])@ == event_kind_of(events@[k]),
        decreases events@.len() - i,
    {
        kinds.push(event_kind(&events[i]));
        i += 1;
    }
    assert(kind_views(kinds@) =~= events@.map_values(
        |event: pulldown_cmark::Event<'static>| event_kind_of(event),
    ));
    let pieces = fenced_code_pieces(&kinds);
    let syntaxes = load_syntaxes();
    let themes = load_themes();
    let mut shown: Vec<pulldown_cmark::Event> = Vec::new();
    let mut j: usize = 0;
    while j < pieces.len()
        invariant
            0 <= j <= pieces@.len(),
            shown@.len() == j,
            kinds@.len() == events@.len(),
            forall|k: int|
                0 <= k < pieces@.len() ==> (#[trigger] pieces@[k] matches Piece::Event(index)
                    ==> index < kinds@.len()),
            forall|k: int|
                0 <= k < j ==> #[trigger] shown@[k] == piece_event(
                    piece_views(pieces@)[k],
                    events@,
                    syntaxes,
                    themes,
                ),
        decreases pieces@.len() - j,
    {
        let event = match &pieces[j] {
            Piece::Event(index) => clone_event(&events[*index]),
            Piece::Code { label, text } => highlighted_block(
                label.as_str(),
                text.clone(),
                &syntaxes,
                &themes,
            ),
        };
        shown.push(event);
        j += 1;
    }
    assert(shown@ =~= highlighted_events(markdown_src@, syntaxes, themes));
    let unsafe_html = render_events(shown);
    proof {
        lemma_generic_attributes_leave_rel_out();
    }
    sanitize(unsafe_html.as_str(), &GENERIC_ATTRIBUTES)
}

} // verus!
