//! Reading the pages of a dump's XML, one event at a time.
//!
//! A reader of the XML (outside this library) hands each event to a
//! [`PageParser`], which answers with what to do next: go on reading, take a
//! finished [`Page`], report an error, or stop at the end of the input.

use vstd::prelude::*;
use vstd::utf8::{decode_utf8, valid_utf8};
use crate::dump::types::{rfc3339_instant, timestamp_of, CategoryName, Page, Revision, Timestamp};
use crate::error::WikiError;
use crate::order::strictly_sorted;
use crate::patterns::{opt_string_view, regex_compiles};
use crate::text::{parse_u64, parse_u64_spec, str_eq};
use crate::util::fmt::{base36_le_bytes, sha1_bytes_from_le, Sha1Hash};
use crate::wikitext::{category_views, parse_categories, wikitext_categories, CATEGORY_PATTERN};

verus! {

/// What `quick_xml::escape::unescape` gives for a text: the text with its
/// XML entity and character references replaced, or `None` where a
/// reference is malformed or unknown.
pub uninterp spec fn xml_unescaped(raw: Seq<char>) -> Option<Seq<char>>;

/// Calls `std::str::from_utf8`: `Some` exactly when the bytes are valid
/// UTF-8, holding the characters that they encode.
#[verifier::external_body]
fn utf8_decode(bytes: &[u8]) -> (r: Option<String>)
    ensures
        r is Some <==> valid_utf8(bytes@),
        r matches Some(s) ==> s@ == decode_utf8(bytes@),
{
    match std::str::from_utf8(bytes) {
        Ok(s) => Some(s.to_owned()),
        Err(_) => None,
    }
}

/// Calls `quick_xml::escape::unescape`; its result is named by
/// [`xml_unescaped`].
#[verifier::external_body]
fn xml_unescape(raw: &str) -> (r: Option<String>)
    ensures
        opt_string_view(r) == xml_unescaped(raw@),
{
    match quick_xml::escape::unescape(raw) {
        Ok(s) => Some(s.into_owned()),
        Err(_) => None,
    }
}

/// The value of a text event's raw bytes: decoded from UTF-8, then
/// unescaped; `None` when either step fails.
pub open spec fn text_value(raw: Seq<u8>) -> Option<Seq<char>> {
    if valid_utf8(raw) {
        xml_unescaped(decode_utf8(raw))
    } else {
        None
    }
}

/// One event of a dump's XML, as the reader reports it.
#[derive(Debug)]
pub enum XmlEvent {
    /// An element starts; its name.
    Start(String),
    /// An element ends; its name.
    End(String),
    /// Text between tags: its raw bytes, still escaped.
    Text(Vec<u8>),
    /// The end of the input.
    Eof,
    /// Any other event: comments, CDATA, empty elements, declarations.
    Other,
}

/// Which text element of a page the parser is reading.
#[derive(Clone, Copy, Debug, PartialEq, Eq, Structural)]
pub enum TextField {
    /// `<title>` of the page.
    Title,
    /// `<ns>` of the page: its namespace ID.
    Ns,
    /// `<id>` of the page.
    Id,
    /// `<id>` inside `<revision>`.
    RevisionId,
    /// `<parentid>` inside `<revision>`.
    RevisionParentId,
    /// `<timestamp>` inside `<revision>`.
    RevisionTimestamp,
    /// `<text>` inside `<revision>`.
    RevisionText,
    /// `<sha1>` inside `<revision>`: the hash of the text, in base 36.
    RevisionSha1,
}

/// The fields of a page read so far.
#[derive(Debug)]
pub struct PageFields {
    pub title: Option<String>,
    pub ns_id: Option<u64>,
    pub id: Option<u64>,
    pub revision: Option<Revision>,
}

/// The fields of a revision read so far.
#[derive(Debug)]
pub struct RevisionFields {
    pub id: Option<u64>,
    pub parent_id: Option<u64>,
    pub timestamp: Option<Timestamp>,
    pub text: Option<String>,
    pub sha1: Option<Sha1Hash>,
}

/// Where the parser is in the XML.
#[derive(Debug)]
pub enum ParserState {
    /// Outside any `<page>`.
    Outside,
    /// Inside a `<page>`, outside its children.
    InPage { page: PageFields },
    /// Inside the `<revision>` of a page.
    InRevision { page: PageFields, revision: RevisionFields },
    /// Inside a text element of a page or of its revision; the text seen
    /// last.
    InText { page: PageFields, revision: Option<RevisionFields>, field: TextField, text: String },
}

/// What the reader is to do after an event.
#[derive(Debug)]
pub enum ParseAction {
    /// Read the next event.
    Continue,
    /// A page is complete.
    Emit(Page),
    /// The page being read is in error; it is dropped, and reading goes on
    /// outside any page.
    Fail(WikiError),
    /// The input has ended.
    Finished,
}

/// A revision as the contracts see it.
pub struct RevisionView {
    pub id: u64,
    pub parent_id: Option<u64>,
    pub timestamp: Option<Timestamp>,
    pub text: Option<Seq<char>>,
    pub sha1: Option<Seq<u8>>,
}

/// A page as the contracts see it (its revision's categories aside).
pub struct PageView {
    pub ns_id: u64,
    pub id: u64,
    pub title: Seq<char>,
    pub revision: Option<RevisionView>,
}

/// The fields of a page read so far, as the contracts see them.
pub struct PageFieldsView {
    pub title: Option<Seq<char>>,
    pub ns_id: Option<u64>,
    pub id: Option<u64>,
    pub revision: Option<RevisionView>,
}

/// The fields of a revision read so far, as the contracts see them.
pub struct RevisionFieldsView {
    pub id: Option<u64>,
    pub parent_id: Option<u64>,
    pub timestamp: Option<Timestamp>,
    pub text: Option<Seq<char>>,
    pub sha1: Option<Seq<u8>>,
}

/// Where the parser is, as the contracts see it.
pub enum ParserView {
    Outside,
    InPage(PageFieldsView),
    InRevision(PageFieldsView, RevisionFieldsView),
    InText(PageFieldsView, Option<RevisionFieldsView>, TextField, Seq<char>),
}

/// An event as the contracts see it.
pub enum EventView {
    Start(Seq<char>),
    End(Seq<char>),
    Text(Seq<u8>),
    Eof,
    Other,
}

/// An action as the contracts see it.
pub enum ActionView {
    Continue,
    Emit(PageView),
    Fail(WikiError),
    Finished,
}

/// The bytes of an optional hash.
pub open spec fn opt_sha1_view(h: Option<Sha1Hash>) -> Option<Seq<u8>> {
    match h {
        Some(x) => Some(x.0@),
        None => None,
    }
}

pub open spec fn revision_view(r: Revision) -> RevisionView {
    RevisionView {
        id: r.id,
        parent_id: r.parent_id,
        timestamp: r.timestamp,
        text: opt_string_view(r.text),
        sha1: opt_sha1_view(r.sha1),
    }
}

pub open spec fn page_view(p: Page) -> PageView {
    PageView {
        ns_id: p.ns_id,
        id: p.id,
        title: p.title@,
        revision: match p.revision {
            Some(r) => Some(revision_view(r)),
            None => None,
        },
    }
}

pub open spec fn page_fields_view(p: PageFields) -> PageFieldsView {
    PageFieldsView {
        title: opt_string_view(p.title),
        ns_id: p.ns_id,
        id: p.id,
        revision: match p.revision {
            Some(r) => Some(revision_view(r)),
            None => None,
        },
    }
}

pub open spec fn revision_fields_view(r: RevisionFields) -> RevisionFieldsView {
    RevisionFieldsView {
        id: r.id,
        parent_id: r.parent_id,
        timestamp: r.timestamp,
        text: opt_string_view(r.text),
        sha1: opt_sha1_view(r.sha1),
    }
}

pub open spec fn state_view(s: ParserState) -> ParserView {
    match s {
        ParserState::Outside => ParserView::Outside,
        ParserState::InPage { page } => ParserView::InPage(page_fields_view(page)),
        ParserState::InRevision { page, revision } => ParserView::InRevision(
            page_fields_view(page),
            revision_fields_view(revision),
        ),
        ParserState::InText { page, revision, field, text } => ParserView::InText(
            page_fields_view(page),
            match revision {
                Some(r) => Some(revision_fields_view(r)),
                None => None,
            },
            field,
            text@,
        ),
    }
}

pub open spec fn event_view(e: XmlEvent) -> EventView {
    match e {
        XmlEvent::Start(n) => EventView::Start(n@),
        XmlEvent::End(n) => EventView::End(n@),
        XmlEvent::Text(b) => EventView::Text(b@),
        XmlEvent::Eof => EventView::Eof,
        XmlEvent::Other => EventView::Other,
    }
}

pub open spec fn action_view(a: ParseAction) -> ActionView {
    match a {
        ParseAction::Continue => ActionView::Continue,
        ParseAction::Emit(p) => ActionView::Emit(page_view(p)),
        ParseAction::Fail(e) => ActionView::Fail(e),
        ParseAction::Finished => ActionView::Finished,
    }
}

/// Whether a revision's categories are those of its text: the distinct
/// names of its category links, sorted (none without text, or should the
/// category pattern fail to compile).
pub open spec fn categories_fit(text: Option<Seq<char>>, categories: Seq<Seq<char>>) -> bool {
    match text {
        Some(t) => if regex_compiles(CATEGORY_PATTERN@) {
            strictly_sorted(categories) && categories.to_set() == wikitext_categories(t)
        } else {
            categories.len() == 0
        },
        None => categories.len() == 0,
    }
}

/// Whether a page's revision, if it has one, has the categories of its
/// text.
pub open spec fn revision_categories_fit(revision: Option<Revision>) -> bool {
    match revision {
        Some(r) => categories_fit(opt_string_view(r.text), category_views(r.categories@)),
        None => true,
    }
}

/// The name of the XML element that holds a text field.
pub open spec fn field_element(f: TextField) -> Seq<char> {
    match f {
        TextField::Title => "title"@,
        TextField::Ns => "ns"@,
        TextField::Id => "id"@,
        TextField::RevisionId => "id"@,
        TextField::RevisionParentId => "parentid"@,
        TextField::RevisionTimestamp => "timestamp"@,
        TextField::RevisionText => "text"@,
        TextField::RevisionSha1 => "sha1"@,
    }
}

/// Whether a text field belongs to the revision.
pub open spec fn is_revision_field(f: TextField) -> bool {
    !(f is Title || f is Ns || f is Id)
}

pub open spec fn empty_page_fields() -> PageFieldsView {
    PageFieldsView { title: None, ns_id: None, id: None, revision: None }
}

pub open spec fn empty_revision_fields() -> RevisionFieldsView {
    RevisionFieldsView { id: None, parent_id: None, timestamp: None, text: None, sha1: None }
}

/// `</page>`: the page is complete when it has a title, an ID and a
/// namespace (checked in that order).
pub open spec fn finish_page(p: PageFieldsView) -> (ParserView, ActionView) {
    match (p.title, p.id, p.ns_id) {
        (None, _, _) => (ParserView::Outside, ActionView::Fail(WikiError::PageTitleMissing)),
        (Some(_), None, _) => (ParserView::Outside, ActionView::Fail(WikiError::PageIdMissing)),
        (Some(_), Some(_), None) => (ParserView::Outside, ActionView::Fail(WikiError::PageNsMissing)),
        (Some(title), Some(id), Some(ns_id)) => (
            ParserView::Outside,
            ActionView::Emit(PageView { ns_id, id, title, revision: p.revision }),
        ),
    }
}

/// `</revision>`: the revision is complete when it has an ID; it replaces
/// any earlier revision of the page.
pub open spec fn finish_revision(p: PageFieldsView, r: RevisionFieldsView) -> (ParserView, ActionView) {
    match r.id {
        None => (ParserView::Outside, ActionView::Fail(WikiError::RevisionIdMissing)),
        Some(id) => (
            ParserView::InPage(
                PageFieldsView {
                    revision: Some(
                        RevisionView {
                            id,
                            parent_id: r.parent_id,
                            timestamp: r.timestamp,
                            text: r.text,
                            sha1: r.sha1,
                        },
                    ),
                    ..p
                },
            ),
            ActionView::Continue,
        ),
    }
}

/// The end of a revision's `<sha1>`: the hash read from base 36, or the
/// error that reading it gives.
pub open spec fn sha1_text_step(
    p: PageFieldsView,
    rv: RevisionFieldsView,
    t: Seq<char>,
) -> (ParserView, ActionView) {
    match base36_le_bytes(t) {
        None => (ParserView::Outside, ActionView::Fail(WikiError::Sha1Base36)),
        Some(le) => match sha1_bytes_from_le(le) {
            None => (ParserView::Outside, ActionView::Fail(WikiError::Sha1TooLarge)),
            Some(b) => (
                ParserView::InRevision(p, RevisionFieldsView { sha1: Some(b), ..rv }),
                ActionView::Continue,
            ),
        },
    }
}

/// The end of a text element: its last text sets the field; numbers must
/// parse as decimal `u64`s.
pub open spec fn finish_text(
    p: PageFieldsView,
    r: Option<RevisionFieldsView>,
    f: TextField,
    t: Seq<char>,
) -> (ParserView, ActionView) {
    let rv = match r {
        Some(x) => x,
        None => empty_revision_fields(),
    };
    match f {
        TextField::Title => (
            ParserView::InPage(PageFieldsView { title: Some(t), ..p }),
            ActionView::Continue,
        ),
        TextField::Ns => match parse_u64_spec(t) {
            Some(v) => (ParserView::InPage(PageFieldsView { ns_id: Some(v), ..p }), ActionView::Continue),
            None => (ParserView::Outside, ActionView::Fail(WikiError::ParseInt)),
        },
        TextField::Id => match parse_u64_spec(t) {
            Some(v) => (ParserView::InPage(PageFieldsView { id: Some(v), ..p }), ActionView::Continue),
            None => (ParserView::Outside, ActionView::Fail(WikiError::ParseInt)),
        },
        TextField::RevisionId => match parse_u64_spec(t) {
            Some(v) => (
                ParserView::InRevision(p, RevisionFieldsView { id: Some(v), ..rv }),
                ActionView::Continue,
            ),
            None => (ParserView::Outside, ActionView::Fail(WikiError::ParseInt)),
        },
        TextField::RevisionParentId => match parse_u64_spec(t) {
            Some(v) => (
                ParserView::InRevision(p, RevisionFieldsView { parent_id: Some(v), ..rv }),
                ActionView::Continue,
            ),
            None => (ParserView::Outside, ActionView::Fail(WikiError::ParseInt)),
        },
        TextField::RevisionTimestamp => match timestamp_of(rfc3339_instant(t)) {
            Some(ts) => (
                ParserView::InRevision(p, RevisionFieldsView { timestamp: Some(ts), ..rv }),
                ActionView::Continue,
            ),
            None => (ParserView::Outside, ActionView::Fail(WikiError::Timestamp)),
        },
        TextField::RevisionText => (
            ParserView::InRevision(p, RevisionFieldsView { text: Some(t), ..rv }),
            ActionView::Continue,
        ),
        TextField::RevisionSha1 => sha1_text_step(p, rv, t),
    }
}

/// The text of a text element after a `Text` event whose value (decoded
/// and unescaped) is `value`: the value replaces the text seen before; a
/// text that cannot be read fails the page.
pub open spec fn text_step(s: ParserView, value: Option<Seq<char>>) -> (ParserView, ActionView) {
    match s {
        ParserView::InText(p, r, f, _) => match value {
            Some(v) => (ParserView::InText(p, r, f, v), ActionView::Continue),
            None => (ParserView::Outside, ActionView::Fail(WikiError::XmlText)),
        },
        _ => (s, ActionView::Continue),
    }
}

/// How the parser answers one event.
pub open spec fn step_spec(s: ParserView, e: EventView) -> (ParserView, ActionView) {
    match s {
        ParserView::Outside => match e {
            EventView::Start(n) => if n == "page"@ {
                (ParserView::InPage(empty_page_fields()), ActionView::Continue)
            } else {
                (s, ActionView::Continue)
            },
            EventView::Eof => (s, ActionView::Finished),
            _ => (s, ActionView::Continue),
        },
        ParserView::InPage(p) => match e {
            EventView::Start(n) => if n == "title"@ {
                (ParserView::InText(p, None, TextField::Title, seq![]), ActionView::Continue)
            } else if n == "ns"@ {
                (ParserView::InText(p, None, TextField::Ns, seq![]), ActionView::Continue)
            } else if n == "id"@ {
                (ParserView::InText(p, None, TextField::Id, seq![]), ActionView::Continue)
            } else if n == "revision"@ {
                (ParserView::InRevision(p, empty_revision_fields()), ActionView::Continue)
            } else {
                (s, ActionView::Continue)
            },
            EventView::End(n) => if n == "page"@ {
                finish_page(p)
            } else {
                (s, ActionView::Continue)
            },
            _ => (s, ActionView::Continue),
        },
        ParserView::InRevision(p, r) => match e {
            EventView::Start(n) => if n == "id"@ && r.id is None {
                (ParserView::InText(p, Some(r), TextField::RevisionId, seq![]), ActionView::Continue)
            } else if n == "parentid"@ && r.parent_id is None {
                (
                    ParserView::InText(p, Some(r), TextField::RevisionParentId, seq![]),
                    ActionView::Continue,
                )
            } else if n == "timestamp"@ && r.timestamp is None {
                (
                    ParserView::InText(p, Some(r), TextField::RevisionTimestamp, seq![]),
                    ActionView::Continue,
                )
            } else if n == "text"@ {
                (
                    ParserView::InText(p, Some(r), TextField::RevisionText, seq![]),
                    ActionView::Continue,
                )
            } else if n == "sha1"@ {
                (
                    ParserView::InText(p, Some(r), TextField::RevisionSha1, seq![]),
                    ActionView::Continue,
                )
            } else {
                (s, ActionView::Continue)
            },
            EventView::End(n) => if n == "revision"@ {
                finish_revision(p, r)
            } else {
                (s, ActionView::Continue)
            },
            _ => (s, ActionView::Continue),
        },
        ParserView::InText(p, r, f, t) => match e {
            EventView::Text(raw) => text_step(s, text_value(raw)),
            EventView::End(n) => if n == field_element(f) {
                finish_text(p, r, f, t)
            } else {
                (s, ActionView::Continue)
            },
            _ => (s, ActionView::Continue),
        },
    }
}

/// Whether the fields of a page are consistent: a finished revision has
/// the categories of its text.
pub open spec fn page_fields_wf(p: PageFields) -> bool {
    revision_categories_fit(p.revision)
}

/// Whether a parser state is consistent: pages hold consistent fields, and
/// a text element has a revision under way exactly when it belongs to the
/// revision.
pub open spec fn state_wf(s: ParserState) -> bool {
    match s {
        ParserState::Outside => true,
        ParserState::InPage { page } => page_fields_wf(page),
        ParserState::InRevision { page, .. } => page_fields_wf(page),
        ParserState::InText { page, revision, field, .. } => page_fields_wf(page) && (
        is_revision_field(field) <==> revision is Some),
    }
}

/// Reads the pages of a dump's XML from its events.
pub struct PageParser {
    state: ParserState,
}

impl View for PageParser {
    type V = ParserView;

    closed spec fn view(&self) -> ParserView {
        state_view(self.state)
    }
}

impl PageParser {
    #[verifier::type_invariant]
    closed spec fn wf(self) -> bool {
        state_wf(self.state)
    }

    /// A parser outside any page.
    pub fn new() -> (r: PageParser)
        ensures
            r@ == ParserView::Outside,
    {
        PageParser { state: ParserState::Outside }
    }

    /// Drops the page being read, if any: reading goes on outside any page.
    pub fn reset(&mut self)
        ensures
            final(self)@ == ParserView::Outside,
    {
        self.state = ParserState::Outside;
    }

    /// Answers one event: the parser moves as [`step_spec`] says, and a page
    /// that it hands out has the categories of its revision's text.
    pub fn step(&mut self, event: XmlEvent) -> (a: ParseAction)
        ensures
            (final(self)@, action_view(a)) == step_spec(old(self)@, event_view(event)),
            a matches ParseAction::Emit(p) ==> revision_categories_fit(p.revision),
    {
        proof {
            use_type_invariant(&*self);
        }
        match event {
            XmlEvent::Text(raw) => {
                let value = match utf8_decode(raw.as_slice()) {
                    Some(s) => xml_unescape(s.as_str()),
                    None => None,
                };
                self.step_text(value)
            },
            other => {
                let mut state = ParserState::Outside;
                std::mem::swap(&mut state, &mut self.state);
                let (next, action) = step_state(state, other);
                self.state = next;
                action
            },
        }
    }

    /// Answers a `Text` event, given its value (decoded and unescaped, or
    /// `None` when it could not be): the parser moves as [`text_step`] says.
    pub fn step_text(&mut self, value: Option<String>) -> (a: ParseAction)
        ensures
            (final(self)@, action_view(a)) == text_step(old(self)@, opt_string_view(value)),
            a is Continue || a is Fail,
    {
        proof {
            use_type_invariant(&*self);
        }
        let mut state = ParserState::Outside;
        std::mem::swap(&mut state, &mut self.state);
        match state {
            ParserState::InText { page, revision, field, text } => match value {
                Some(v) => {
                    self.state = ParserState::InText { page, revision, field, text: v };
                    ParseAction::Continue
                },
                None => ParseAction::Fail(WikiError::XmlText),
            },
            other => {
                self.state = other;
                ParseAction::Continue
            },
        }
    }
}

fn empty_fields() -> (r: PageFields)
    ensures
        page_fields_view(r) == empty_page_fields(),
        page_fields_wf(r),
{
    PageFields { title: None, ns_id: None, id: None, revision: None }
}

fn in_text(page: PageFields, revision: Option<RevisionFields>, field: TextField) -> (r: ParserState)
    ensures
        r matches ParserState::InText { page: p2, revision: r2, field: f2, text: t2 } && p2 == page
            && r2 == revision && f2 == field && t2@ == Seq::<char>::empty(),
{
    ParserState::InText { page, revision, field, text: String::new() }
}

/// How the parser answers an event other than `Text`.
fn step_state(state: ParserState, event: XmlEvent) -> (r: (ParserState, ParseAction))
    requires
        state_wf(state),
        !(event is Text),
    ensures
        state_wf(r.0),
        (state_view(r.0), action_view(r.1)) == step_spec(state_view(state), event_view(event)),
        r.1 matches ParseAction::Emit(p) ==> revision_categories_fit(p.revision),
{
    match state {
        ParserState::Outside => match event {
            XmlEvent::Start(n) => {
                if str_eq(n.as_str(), "page") {
                    (ParserState::InPage { page: empty_fields() }, ParseAction::Continue)
                } else {
                    (ParserState::Outside, ParseAction::Continue)
                }
            },
            XmlEvent::Eof => (ParserState::Outside, ParseAction::Finished),
            _ => (ParserState::Outside, ParseAction::Continue),
        },
        ParserState::InPage { page } => match event {
            XmlEvent::Start(n) => {
                if str_eq(n.as_str(), "title") {
                    (in_text(page, None, TextField::Title), ParseAction::Continue)
                } else if str_eq(n.as_str(), "ns") {
                    (in_text(page, None, TextField::Ns), ParseAction::Continue)
                } else if str_eq(n.as_str(), "id") {
                    (in_text(page, None, TextField::Id), ParseAction::Continue)
                } else if str_eq(n.as_str(), "revision") {
                    (
                        ParserState::InRevision { page, revision: empty_revision() },
                        ParseAction::Continue,
                    )
                } else {
                    (ParserState::InPage { page }, ParseAction::Continue)
                }
            },
            XmlEvent::End(n) => {
                if str_eq(n.as_str(), "page") {
                    finish_page_exec(page)
                } else {
                    (ParserState::InPage { page }, ParseAction::Continue)
                }
            },
            _ => (ParserState::InPage { page }, ParseAction::Continue),
        },
        ParserState::InRevision { page, revision } => match event {
            XmlEvent::Start(n) => {
                if str_eq(n.as_str(), "id") && revision.id.is_none() {
                    (in_text(page, Some(revision), TextField::RevisionId), ParseAction::Continue)
                } else if str_eq(n.as_str(), "parentid") && revision.parent_id.is_none() {
                    (in_text(page, Some(revision), TextField::RevisionParentId), ParseAction::Continue)
                } else if str_eq(n.as_str(), "timestamp") && revision.timestamp.is_none() {
                    (in_text(page, Some(revision), TextField::RevisionTimestamp), ParseAction::Continue)
                } else if str_eq(n.as_str(), "text") {
                    (in_text(page, Some(revision), TextField::RevisionText), ParseAction::Continue)
                } else if str_eq(n.as_str(), "sha1") {
                    (in_text(page, Some(revision), TextField::RevisionSha1), ParseAction::Continue)
                } else {
                    (ParserState::InRevision { page, revision }, ParseAction::Continue)
                }
            },
            XmlEvent::End(n) => {
                if str_eq(n.as_str(), "revision") {
                    finish_revision_exec(page, revision)
                } else {
                    (ParserState::InRevision { page, revision }, ParseAction::Continue)
                }
            },
            _ => (ParserState::InRevision { page, revision }, ParseAction::Continue),
        },
        ParserState::InText { page, revision, field, text } => match event {
            XmlEvent::End(n) => {
                let name = match field {
                    TextField::Title => "title",
                    TextField::Ns => "ns",
                    TextField::Id => "id",
                    TextField::RevisionId => "id",
                    TextField::RevisionParentId => "parentid",
                    TextField::RevisionTimestamp => "timestamp",
                    TextField::RevisionText => "text",
                    TextField::RevisionSha1 => "sha1",
                };
                if str_eq(n.as_str(), name) {
                    finish_text_exec(page, revision, field, text)
                } else {
                    (ParserState::InText { page, revision, field, text }, ParseAction::Continue)
                }
            },
            _ => (ParserState::InText { page, revision, field, text }, ParseAction::Continue),
        },
    }
}

fn finish_page_exec(page: PageFields) -> (r: (ParserState, ParseAction))
    requires
        page_fields_wf(page),
    ensures
        state_wf(r.0),
        (state_view(r.0), action_view(r.1)) == finish_page(page_fields_view(page)),
        r.1 matches ParseAction::Emit(p) ==> revision_categories_fit(p.revision),
{
    match (page.title, page.id, page.ns_id) {
        (None, _, _) => (ParserState::Outside, ParseAction::Fail(WikiError::PageTitleMissing)),
        (Some(_), None, _) => (ParserState::Outside, ParseAction::Fail(WikiError::PageIdMissing)),
        (Some(_), Some(_), None) => (ParserState::Outside, ParseAction::Fail(WikiError::PageNsMissing)),
        (Some(title), Some(id), Some(ns_id)) => (
            ParserState::Outside,
            ParseAction::Emit(Page { ns_id, id, title, revision: page.revision }),
        ),
    }
}

fn finish_revision_exec(page: PageFields, revision: RevisionFields) -> (r: (ParserState, ParseAction))
    requires
        page_fields_wf(page),
    ensures
        state_wf(r.0),
        (state_view(r.0), action_view(r.1)) == finish_revision(
            page_fields_view(page),
            revision_fields_view(revision),
        ),
{
    match revision.id {
        None => (ParserState::Outside, ParseAction::Fail(WikiError::RevisionIdMissing)),
        Some(id) => {
            let categories: Vec<CategoryName> = match &revision.text {
                None => Vec::new(),
                Some(t) => parse_categories(t.as_str()),
            };
            let rev = Revision {
                id,
                parent_id: revision.parent_id,
                timestamp: revision.timestamp,
                text: revision.text,
                categories,
                sha1: revision.sha1,
            };
            (
                ParserState::InPage {
                    page: PageFields {
                        title: page.title,
                        ns_id: page.ns_id,
                        id: page.id,
                        revision: Some(rev),
                    },
                },
                ParseAction::Continue,
            )
        },
    }
}

fn finish_text_exec(
    page: PageFields,
    revision: Option<RevisionFields>,
    field: TextField,
    text: String,
) -> (r: (ParserState, ParseAction))
    requires
        page_fields_wf(page),
        is_revision_field(field) <==> revision is Some,
    ensures
        state_wf(r.0),
        (state_view(r.0), action_view(r.1)) == finish_text(
            page_fields_view(page),
            match revision {
                Some(x) => Some(revision_fields_view(x)),
                None => None,
            },
            field,
            text@,
        ),
{
    match field {
        TextField::Title => (
            ParserState::InPage {
                page: PageFields { title: Some(text), ns_id: page.ns_id, id: page.id, revision: page.revision },
            },
            ParseAction::Continue,
        ),
        TextField::Ns => match parse_u64(text.as_str()) {
            Some(v) => (
                ParserState::InPage {
                    page: PageFields { title: page.title, ns_id: Some(v), id: page.id, revision: page.revision },
                },
                ParseAction::Continue,
            ),
            None => (ParserState::Outside, ParseAction::Fail(WikiError::ParseInt)),
        },
        TextField::Id => match parse_u64(text.as_str()) {
            Some(v) => (
                ParserState::InPage {
                    page: PageFields { title: page.title, ns_id: page.ns_id, id: Some(v), revision: page.revision },
                },
                ParseAction::Continue,
            ),
            None => (ParserState::Outside, ParseAction::Fail(WikiError::ParseInt)),
        },
        _ => {
            let rv = match revision {
                Some(x) => x,
                None => empty_revision(),
            };
            finish_revision_text(page, rv, field, text)
        },
    }
}

fn empty_revision() -> (r: RevisionFields)
    ensures
        revision_fields_view(r) == empty_revision_fields(),
{
    RevisionFields { id: None, parent_id: None, timestamp: None, text: None, sha1: None }
}

fn finish_revision_text(
    page: PageFields,
    rv: RevisionFields,
    field: TextField,
    text: String,
) -> (r: (ParserState, ParseAction))
    requires
        page_fields_wf(page),
        is_revision_field(field),
    ensures
        state_wf(r.0),
        (state_view(r.0), action_view(r.1)) == finish_text(
            page_fields_view(page),
            Some(revision_fields_view(rv)),
            field,
            text@,
        ),
{
    let RevisionFields { id, parent_id, timestamp, text: old_text, sha1 } = rv;
    match field {
        TextField::RevisionId => match parse_u64(text.as_str()) {
            Some(v) => (
                ParserState::InRevision {
                    page,
                    revision: RevisionFields { id: Some(v), parent_id, timestamp, text: old_text, sha1 },
                },
                ParseAction::Continue,
            ),
            None => (ParserState::Outside, ParseAction::Fail(WikiError::ParseInt)),
        },
        TextField::RevisionParentId => match parse_u64(text.as_str()) {
            Some(v) => (
                ParserState::InRevision {
                    page,
                    revision: RevisionFields { id, parent_id: Some(v), timestamp, text: old_text, sha1 },
                },
                ParseAction::Continue,
            ),
            None => (ParserState::Outside, ParseAction::Fail(WikiError::ParseInt)),
        },
        TextField::RevisionTimestamp => match Timestamp::parse_rfc3339(text.as_str()) {
            Some(ts) => (
                ParserState::InRevision {
                    page,
                    revision: RevisionFields { id, parent_id, timestamp: Some(ts), text: old_text, sha1 },
                },
                ParseAction::Continue,
            ),
            None => (ParserState::Outside, ParseAction::Fail(WikiError::Timestamp)),
        },
        TextField::RevisionText => (
            ParserState::InRevision {
                page,
                revision: RevisionFields { id, parent_id, timestamp, text: Some(text), sha1 },
            },
            ParseAction::Continue,
        ),
        _ => match Sha1Hash::from_base36_str(text.as_str()) {
            Ok(h) => (
                ParserState::InRevision {
                    page,
                    revision: RevisionFields { id, parent_id, timestamp, text: old_text, sha1: Some(h) },
                },
                ParseAction::Continue,
            ),
            Err(e) => (ParserState::Outside, ParseAction::Fail(e)),
        },
    }
}

/// A page handed out, or a page failed, leaves the parser outside any
/// page: the next page starts afresh.
pub proof fn lemma_emit_or_fail_leaves_page(s: ParserView, e: EventView)
    ensures
        step_spec(s, e).1 is Emit || step_spec(s, e).1 is Fail ==> step_spec(s, e).0 is Outside,
{
}

/// The parser reports the end of the input only outside any page, at the
/// end of the input, and stays where it is.
pub proof fn lemma_finished_only_at_top_level_eof(s: ParserView, e: EventView)
    ensures
        step_spec(s, e).1 is Finished ==> s is Outside && e is Eof && step_spec(s, e).0 is Outside,
{
}

/// Outside any page, every event but the start of a `<page>` and the end
/// of the input is skipped.
pub proof fn lemma_outside_skips_other_events(e: EventView)
    requires
        !(e matches EventView::Start(n) && n == "page"@),
        !(e is Eof),
    ensures
        step_spec(ParserView::Outside, e) == (ParserView::Outside, ActionView::Continue),
{
}

/// A page is handed out only at the end of a `<page>` element, and with
/// the title, ID and namespace read for it.
pub proof fn lemma_emit_only_at_page_end(s: ParserView, e: EventView)
    ensures
        step_spec(s, e).1 matches ActionView::Emit(page) ==> {
            &&& s matches ParserView::InPage(p)
            &&& e matches EventView::End(n) && n == "page"@
            &&& p.title == Some(page.title)
            &&& p.id == Some(page.id)
            &&& p.ns_id == Some(page.ns_id)
            &&& p.revision == page.revision
        },
{
}

/// The fields of the revision under way, if the parser is inside one.
pub open spec fn revision_under_way(s: ParserView) -> Option<RevisionFieldsView> {
    match s {
        ParserView::InRevision(_, r) => Some(r),
        ParserView::InText(_, r, _, _) => r,
        _ => None,
    }
}

/// A revision's parent ID is the number of the first `<parentid>` read
/// inside it, and none when it holds no `<parentid>`:
/// - a `<revision>` starts with no parent ID;
/// - a `<parentid>` is read only while none has been read;
/// - while a revision is under way, only the end of a `<parentid>` changes
///   its parent ID, to the number written in it;
/// - a finished revision keeps the parent ID read, none included, and the
///   page holds it.
pub proof fn lemma_revision_parent_id_from_first_parentid(
    p: PageFieldsView,
    r: RevisionFieldsView,
    s: ParserView,
    e: EventView,
)
    ensures
        step_spec(ParserView::InPage(p), EventView::Start("revision"@)).0 matches ParserView::InRevision(
            _,
            r0,
        ) && r0.parent_id is None,
        (step_spec(ParserView::InRevision(p, r), EventView::Start("parentid"@)).0 matches ParserView::InText(
            _,
            _,
            f,
            _,
        ) && f is RevisionParentId) == (r.parent_id is None),
        ({
            let r1 = revision_under_way(s);
            let r2 = revision_under_way(step_spec(s, e).0);
            r1 is Some && r2 is Some && r2->0.parent_id != r1->0.parent_id ==> (s matches ParserView::InText(
                _,
                _,
                f,
                t,
            ) && f is RevisionParentId && e == EventView::End("parentid"@) && r2->0.parent_id
                == parse_u64_spec(t))
        }),
        r.id is Some ==> (step_spec(ParserView::InRevision(p, r), EventView::End("revision"@)).0 matches ParserView::InPage(
            p2,
        ) && p2.revision matches Some(rv) && rv.parent_id == r.parent_id && rv.id == r.id->0),
{
    reveal_strlit("revision");
    reveal_strlit("parentid");
    reveal_strlit("id");
    reveal_strlit("timestamp");
    reveal_strlit("text");
    reveal_strlit("sha1");
    reveal_strlit("page");
    reveal_strlit("title");
    reveal_strlit("ns");
    assert("parentid"@.len() != "id"@.len());
    assert("parentid"@[0] != "revision"@[0]);
}

} // verus!
