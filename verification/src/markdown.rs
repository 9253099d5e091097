//! The pieces of the rendering pipeline: the markdown parser, the syntax
//! highlighter and the sanitizer, and the rule that picks out fenced code
//! blocks for highlighting.

use vstd::prelude::*;
use vstd::string::*;

verus! {

/// `pulldown_cmark::Event`: one event of a parsed markdown document.
/// Nothing of it is read here but through `event_kind`.
#[verifier::external_type_specification]
#[verifier::external_body]
pub struct ExEvent<'a>(pulldown_cmark::Event<'a>);

/// `syntect::parsing::SyntaxSet`: a set of grammars. Nothing of it is read
/// here.
#[verifier::external_type_specification]
#[verifier::external_body]
pub struct ExSyntaxSet(syntect::parsing::SyntaxSet);

/// `syntect::parsing::SyntaxReference`: one grammar of a set. Nothing of it
/// is read here.
#[verifier::external_type_specification]
#[verifier::external_body]
pub struct ExSyntaxReference(syntect::parsing::SyntaxReference);

/// `syntect::highlighting::ThemeSet`: a set of themes. Nothing of it is
/// read here.
#[verifier::external_type_specification]
#[verifier::external_body]
pub struct ExThemeSet(syntect::highlighting::ThemeSet);

/// `syntect::highlighting::Theme`: one theme of a set. Nothing of it is
/// read here.
#[verifier::external_type_specification]
#[verifier::external_body]
pub struct ExTheme(syntect::highlighting::Theme);

/// The events that the markdown parser reads from `source`, with the
/// extensions switched on whose bits are set in `extensions`.
pub uninterp spec fn markdown_events(source: Seq<char>, extensions: u32) -> Seq<
    pulldown_cmark::Event<'static>,
>;

/// The HTML that the markdown renderer writes for `events`.
pub uninterp spec fn events_html(events: Seq<pulldown_cmark::Event<'static>>) -> Seq<char>;

/// What the sanitizer leaves of `html`, with its default allow-list of
/// tags and with `generic_attributes` as the attributes that are allowed on
/// every tag.
pub uninterp spec fn sanitized_html(html: Seq<char>, generic_attributes: Seq<Seq<char>>) -> Seq<
    char,
>;

/// The names in `names`, each as its characters.
pub open spec fn name_views(names: Seq<&'static str>) -> Seq<Seq<char>> {
    names.map_values(|name: &'static str| name@)
}

/// `pulldown_cmark::Parser::new_ext`, run to its end, with the options
/// whose bits are set in `extensions`: the events of `source`, which depend
/// on `source` and `extensions` alone.
#[verifier::external_body]
pub(crate) fn parse_markdown<'a>(source: &'a str, extensions: u32) -> (events: Vec<
    pulldown_cmark::Event<'a>,
>)
    ensures
        events@ == markdown_events(source@, extensions),
{
    let options = pulldown_cmark::Options::from_bits_truncate(extensions);
    pulldown_cmark::Parser::new_ext(source, options).collect()
}

/// `pulldown_cmark::html::push_html` into an empty string: the HTML of
/// `events`, which depends on `events` alone.
#[verifier::external_body]
pub(crate) fn render_events<'a>(events: Vec<pulldown_cmark::Event<'a>>) -> (html: String)
    ensures
        html@ == events_html(events@),
{
    let mut html = String::new();
    pulldown_cmark::html::push_html(&mut html, events.into_iter());
    html
}

/// `ammonia::Builder::clean`, on the default builder with
/// `generic_attributes` as the attributes allowed on every tag: the
/// sanitized form of `html`, which depends on `html` and on those attributes
/// alone. `rel` is none of the attributes: the default builder sets the
/// `rel` of links itself, and refuses to run where `rel` is allowed on
/// every tag.
#[verifier::external_body]
pub(crate) fn sanitize(html: &str, generic_attributes: &[&'static str; 3]) -> (clean: String)
    requires
        forall|i: int|
            0 <= i < generic_attributes@.len() ==> (#[trigger] generic_attributes@[i])@ != "rel"@,
    ensures
        clean@ == sanitized_html(html@, name_views(generic_attributes@)),
{
    ammonia::Builder::default()
        .generic_attributes(generic_attributes.iter().copied().collect())
        .clean(html)
        .to_string()
}

/// What the pipeline reads of a parser event.
#[derive(Debug, PartialEq, Eq)]
pub enum EventKind {
    /// The start of a fenced code block, with the label of its fence.
    FencedCodeStart(String),
    /// The end of a code block.
    CodeBlockEnd,
    /// A run of text.
    Text(String),
    /// Any other event.
    Other,
}

/// What an `EventKind` holds.
pub ghost enum EventKindView {
    FencedCodeStart(Seq<char>),
    CodeBlockEnd,
    Text(Seq<char>),
    Other,
}

impl View for EventKind {
    type V = EventKindView;

    open spec fn view(&self) -> EventKindView {
        match self {
            EventKind::FencedCodeStart(label) => EventKindView::FencedCodeStart(label@),
            EventKind::CodeBlockEnd => EventKindView::CodeBlockEnd,
            EventKind::Text(text) => EventKindView::Text(text@),
            EventKind::Other => EventKindView::Other,
        }
    }
}

/// One item of the rendered document.
#[derive(Debug, PartialEq, Eq)]
pub enum Piece {
    /// The parser event at this index, unchanged.
    Event(usize),
    /// A fenced code block to highlight: the label of its fence, and its
    /// text.
    Code { label: String, text: String },
}

/// What a `Piece` holds.
pub ghost enum PieceView {
    Event(usize),
    Code { label: Seq<char>, text: Seq<char> },
}

impl View for Piece {
    type V = PieceView;

    open spec fn view(&self) -> PieceView {
        match self {
            Piece::Event(index) => PieceView::Event(*index),
            Piece::Code { label, text } => PieceView::Code { label: label@, text: text@ },
        }
    }
}

/// A fenced code block that has started and not ended: the label of its
/// fence, and the text read so far.
pub ghost struct OpenBlock {
    pub label: Seq<char>,
    pub text: Seq<char>,
}

/// The open block after an event of the kind `kind`.
pub open spec fn block_after(block: Option<OpenBlock>, kind: EventKindView) -> Option<OpenBlock> {
    match kind {
        EventKindView::FencedCodeStart(label) => Some(OpenBlock { label, text: Seq::empty() }),
        EventKindView::CodeBlockEnd => None,
        EventKindView::Text(text) => match block {
            Some(open) => Some(OpenBlock { label: open.label, text: open.text + text }),
            None => None,
        },
        EventKindView::Other => block,
    }
}

/// The piece that the event at `index`, of the kind `kind`, adds to the
/// document. The start of a fenced block and the text inside it add none;
/// its end adds the whole block; every other event adds itself.
pub open spec fn piece_at(block: Option<OpenBlock>, kind: EventKindView, index: usize) -> Option<
    PieceView,
> {
    match kind {
        EventKindView::FencedCodeStart(_) => None,
        EventKindView::CodeBlockEnd => match block {
            Some(open) => Some(PieceView::Code { label: open.label, text: open.text }),
            None => Some(PieceView::Event(index)),
        },
        EventKindView::Text(_) => match block {
            Some(_) => None,
            None => Some(PieceView::Event(index)),
        },
        EventKindView::Other => Some(PieceView::Event(index)),
    }
}

/// The block that is open after the events `kinds`.
pub open spec fn open_block(kinds: Seq<EventKindView>) -> Option<OpenBlock>
    decreases kinds.len(),
{
    if kinds.len() == 0 {
        None
    } else {
        block_after(open_block(kinds.drop_last()), kinds.last())
    }
}

/// The pieces of the document whose events have the kinds `kinds`.
pub open spec fn pieces_of(kinds: Seq<EventKindView>) -> Seq<PieceView>
    decreases kinds.len(),
{
    if kinds.len() == 0 {
        Seq::empty()
    } else {
        let before = pieces_of(kinds.drop_last());
        match piece_at(
            open_block(kinds.drop_last()),
            kinds.last(),
            (kinds.len() - 1) as usize,
        ) {
            Some(piece) => before.push(piece),
            None => before,
        }
    }
}

/// The views of `kinds`.
pub open spec fn kind_views(kinds: Seq<EventKind>) -> Seq<EventKindView> {
    kinds.map_values(|kind: EventKind| kind@)
}

/// The views of `pieces`.
pub open spec fn piece_views(pieces: Seq<Piece>) -> Seq<PieceView> {
    pieces.map_values(|piece: Piece| piece@)
}

/// Picks out the fenced code blocks of a document: each becomes one piece
/// that holds its label and all of its text, and every event outside a
/// fenced block becomes a piece of its own.
pub fn fenced_code_pieces(kinds: &Vec<EventKind>) -> (pieces: Vec<Piece>)
    ensures
        piece_views(pieces@) == pieces_of(kind_views(kinds@)),
        forall|j: int|
            0 <= j < pieces@.len() ==> (#[trigger] pieces@[j] matches Piece::Event(index)
                ==> index < kinds@.len()),
{
    let mut pieces: Vec<Piece> = Vec::new();
    let mut open: bool = false;
    let mut label: String = String::new();
    let mut text: String = String::new();
    let mut i: usize = 0;
    while i < kinds.len()
        invariant
            0 <= i <= kinds@.len(),
            piece_views(pieces@) == pieces_of(kind_views(kinds@).take(i as int)),
            open_block(kind_views(kinds@).take(i as int)) == (if open {
                Some(OpenBlock { label: label@, text: text@ })
            } else {
                None
            }),
            forall|j: int|
                0 <= j < pieces@.len() ==> (#[trigger] pieces@[j] matches Piece::Event(index)
                    ==> index < kinds@.len()),
        decreases kinds@.len() - i,
    {
        assert(kind_views(kinds@).take(i + 1).drop_last() =~= kind_views(kinds@).take(i as int));
        match &kinds[i] {
            EventKind::FencedCodeStart(fence) => {
                open = true;
                label = fence.clone();
                text = String::new();
            },
            EventKind::CodeBlockEnd => {
                if open {
                    pieces.push(Piece::Code { label: label.clone(), text: text.clone() });
                    open = false;
                } else {
                    pieces.push(Piece::Event(i));
                }
            },
            EventKind::Text(run) => {
                if open {
                    text.append(run.as_str());
                } else {
                    pieces.push(Piece::Event(i));
                }
            },
            EventKind::Other => {
                pieces.push(Piece::Event(i));
            },
        }
        i += 1;
    }
    assert(kind_views(kinds@).take(i as int) =~= kind_views(kinds@));
    pieces
}

/// What the pipeline reads of `event`.
pub uninterp spec fn event_kind_of(event: pulldown_cmark::Event<'static>) -> EventKindView;

/// The event that carries `html` as a pre-rendered fragment.
pub uninterp spec fn html_event_of(html: Seq<char>) -> pulldown_cmark::Event<'static>;

/// The event that carries `text` as plain text.
pub uninterp spec fn text_event_of(text: Seq<char>) -> pulldown_cmark::Event<'static>;

/// What `syntect::parsing::SyntaxSet::find_syntax_by_extension` finds in
/// `set` for `extension`.
pub uninterp spec fn syntax_by_extension(
    set: syntect::parsing::SyntaxSet,
    extension: Seq<char>,
) -> Option<syntect::parsing::SyntaxReference>;

/// What `syntect::parsing::SyntaxSet::find_syntax_by_name` finds in `set`
/// for `name`.
pub uninterp spec fn syntax_by_name(set: syntect::parsing::SyntaxSet, name: Seq<char>) -> Option<
    syntect::parsing::SyntaxReference,
>;

/// The theme that `themes` holds under `name`.
pub uninterp spec fn theme_by_name(themes: syntect::highlighting::ThemeSet, name: Seq<char>) -> Option<
    syntect::highlighting::Theme,
>;

/// What `syntect::html::highlighted_html_for_string` makes of `code` with
/// a grammar of `set` and a theme: an HTML fragment, or nothing where it
/// reports an error.
pub uninterp spec fn highlighted_html(
    code: Seq<char>,
    set: syntect::parsing::SyntaxSet,
    syntax: syntect::parsing::SyntaxReference,
    theme: syntect::highlighting::Theme,
) -> Option<Seq<char>>;

/// Whether `syntax` is a grammar that a lookup in `set` finds.
pub open spec fn is_syntax_of(
    syntax: syntect::parsing::SyntaxReference,
    set: syntect::parsing::SyntaxSet,
) -> bool {
    ||| exists|extension: Seq<char>| syntax_by_extension(set, extension) == Some(syntax)
    ||| exists|name: Seq<char>| syntax_by_name(set, name) == Some(syntax)
}

/// Tells the variants of `pulldown_cmark::Event` apart: the start of a
/// fenced code block with the label of its fence, the end of a code block, a
/// run of text with its characters, or anything else.
#[verifier::external_body]
pub(crate) fn event_kind<'a>(event: &pulldown_cmark::Event<'a>) -> (kind: EventKind)
    ensures
        kind@ == event_kind_of(*event),
{
    match event {
        pulldown_cmark::Event::Start(
            pulldown_cmark::Tag::CodeBlock(pulldown_cmark::CodeBlockKind::Fenced(label)),
        ) => EventKind::FencedCodeStart(label.to_string()),
        pulldown_cmark::Event::End(pulldown_cmark::TagEnd::CodeBlock) => EventKind::CodeBlockEnd,
        pulldown_cmark::Event::Text(text) => EventKind::Text(text.to_string()),
        _ => EventKind::Other,
    }
}

/// `Clone::clone` of `pulldown_cmark::Event`: the same event.
#[verifier::external_body]
pub(crate) fn clone_event<'a>(event: &pulldown_cmark::Event<'a>) -> (copy: pulldown_cmark::Event<
    'a,
>)
    ensures
        copy == *event,
{
    event.clone()
}

/// `pulldown_cmark::Event::Html`: the event that carries `html` as a
/// pre-rendered fragment.
#[verifier::external_body]
pub(crate) fn html_event(html: String) -> (event: pulldown_cmark::Event<'static>)
    ensures
        event == html_event_of(html@),
{
    pulldown_cmark::Event::Html(html.into())
}

/// `pulldown_cmark::Event::Text`: the event that carries `text` as plain
/// text.
#[verifier::external_body]
pub(crate) fn text_event(text: String) -> (event: pulldown_cmark::Event<'static>)
    ensures
        event == text_event_of(text@),
{
    pulldown_cmark::Event::Text(text.into())
}

/// `syntect::parsing::SyntaxSet::load_defaults_newlines`: the grammars that
/// the highlighter ships with.
#[verifier::external_body]
pub(crate) fn load_syntaxes() -> syntect::parsing::SyntaxSet {
    syntect::parsing::SyntaxSet::load_defaults_newlines()
}

/// `syntect::highlighting::ThemeSet::load_defaults`: the themes that the
/// highlighter ships with.
#[verifier::external_body]
pub(crate) fn load_themes() -> syntect::highlighting::ThemeSet {
    syntect::highlighting::ThemeSet::load_defaults()
}

/// `syntect::parsing::SyntaxSet::find_syntax_by_extension`: a grammar of
/// `set` for files with the extension `extension`, if it has one; which
/// one depends on `set` and `extension` alone.
#[verifier::external_body]
pub(crate) fn find_syntax_by_extension<'a>(
    set: &'a syntect::parsing::SyntaxSet,
    extension: &str,
) -> (found: Option<&'a syntect::parsing::SyntaxReference>)
    ensures
        match found {
            Some(syntax) => syntax_by_extension(*set, extension@) == Some(*syntax),
            None => syntax_by_extension(*set, extension@) is None,
        },
{
    set.find_syntax_by_extension(extension)
}

/// `syntect::parsing::SyntaxSet::find_syntax_by_name`: the grammar of `set`
/// that is called `name`, if it has one; which one depends on `set` and
/// `name` alone.
#[verifier::external_body]
pub(crate) fn find_syntax_by_name<'a>(set: &'a syntect::parsing::SyntaxSet, name: &str) -> (found:
    Option<&'a syntect::parsing::SyntaxReference>)
    ensures
        match found {
            Some(syntax) => syntax_by_name(*set, name@) == Some(*syntax),
            None => syntax_by_name(*set, name@) is None,
        },
{
    set.find_syntax_by_name(name)
}

/// The theme of `themes` that is called `name`, if it has one: a lookup in
/// the public map of `syntect::highlighting::ThemeSet`.
#[verifier::external_body]
pub(crate) fn find_theme<'a>(themes: &'a syntect::highlighting::ThemeSet, name: &str) -> (found:
    Option<&'a syntect::highlighting::Theme>)
    ensures
        match found {
            Some(theme) => theme_by_name(*themes, name@) == Some(*theme),
            None => theme_by_name(*themes, name@) is None,
        },
{
    themes.themes.get(name)
}

/// `syntect::html::highlighted_html_for_string`: `code` as an HTML fragment
/// coloured by `syntax` and `theme`, or `None` where the highlighter
/// reports an error; the fragment depends on the arguments alone. `syntax`
/// has to come from `set`.
#[verifier::external_body]
pub(crate) fn highlighted_html_for_string(
    code: &str,
    set: &syntect::parsing::SyntaxSet,
    syntax: &syntect::parsing::SyntaxReference,
    theme: &syntect::highlighting::Theme,
) -> (html: Option<String>)
    requires
        is_syntax_of(*syntax, *set),
    ensures
        match html {
            Some(fragment) => highlighted_html(code@, *set, *syntax, *theme) == Some(fragment@),
            None => highlighted_html(code@, *set, *syntax, *theme) is None,
        },
{
    syntect::html::highlighted_html_for_string(code, set, syntax, theme).ok()
}

} // verus!
