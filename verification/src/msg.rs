use vstd::prelude::*;

use crate::ast::Ast;
use crate::contents::Contents;
use crate::language::Language;
use crate::region::Region;

verus! {

/// A message between tools: which process sent it, its request number, its
/// kind, where it came from, what it carries, the regions of a source text it
/// is about, that text's language, a syntax tree, and when it was sent.
#[derive(Debug, PartialEq, Eq)]
pub struct Msg {
    pub process: String,
    pub request_number: u64,
    pub kind: String,
    pub origin: Option<String>,
    pub contents: Option<Contents>,
    pub regions: Vec<Region>,
    pub language: Option<Language>,
    pub ast: Option<Ast>,
    pub sent_at: u64,
}

/// The mathematical value of a [`Msg`]: its texts as characters, its regions
/// as a sequence, and its other parts as they are.
pub struct MsgView {
    pub process: Seq<char>,
    pub request_number: u64,
    pub kind: Seq<char>,
    pub origin: Option<Seq<char>>,
    pub contents: Option<Contents>,
    pub regions: Seq<Region>,
    pub language: Option<Language>,
    pub ast: Option<Ast>,
    pub sent_at: u64,
}

/// The characters of an optional string.
pub open spec fn optional_string_view(s: Option<String>) -> Option<Seq<char>> {
    match s {
        None => None,
        Some(s) => Some(s@),
    }
}

/// The characters of an optional borrowed string.
pub open spec fn optional_str_view(s: Option<&str>) -> Option<Seq<char>> {
    match s {
        None => None,
        Some(s) => Some(s@),
    }
}

/// Whether `r` borrows what `o` holds: both absent, or `r` borrows the very
/// value that `o` holds.
pub open spec fn borrows_from<T>(r: Option<&T>, o: Option<T>) -> bool {
    match (r, o) {
        (None, None) => true,
        (Some(a), Some(b)) => *a == b,
        _ => false,
    }
}

impl View for Msg {
    type V = MsgView;

    open spec fn view(&self) -> MsgView {
        MsgView {
            process: self.process@,
            request_number: self.request_number,
            kind: self.kind@,
            origin: optional_string_view(self.origin),
            contents: self.contents,
            regions: self.regions@,
            language: self.language,
            ast: self.ast,
            sent_at: self.sent_at,
        }
    }
}

impl MsgView {
    /// The message a fresh one starts as: empty texts, zero numbers and no
    /// optional part.
    pub open spec fn empty() -> MsgView {
        MsgView {
            process: Seq::empty(),
            request_number: 0,
            kind: Seq::empty(),
            origin: None,
            contents: None,
            regions: Seq::empty(),
            language: None,
            ast: None,
            sent_at: 0,
        }
    }

    pub open spec fn with_process(self, process: Seq<char>) -> MsgView {
        MsgView { process, ..self }
    }

    pub open spec fn with_request_number(self, request_number: u64) -> MsgView {
        MsgView { request_number, ..self }
    }

    pub open spec fn with_kind(self, kind: Seq<char>) -> MsgView {
        MsgView { kind, ..self }
    }

    pub open spec fn with_origin(self, origin: Option<Seq<char>>) -> MsgView {
        MsgView { origin, ..self }
    }

    pub open spec fn with_contents(self, contents: Option<Contents>) -> MsgView {
        MsgView { contents, ..self }
    }

    pub open spec fn with_regions(self, regions: Seq<Region>) -> MsgView {
        MsgView { regions, ..self }
    }

    pub open spec fn with_language(self, language: Option<Language>) -> MsgView {
        MsgView { language, ..self }
    }

    pub open spec fn with_ast(self, ast: Option<Ast>) -> MsgView {
        MsgView { ast, ..self }
    }
}

/// Makes a message with empty texts, zero numbers and no optional part.
pub fn msg_new() -> (msg: Msg)
    ensures
        msg@ == MsgView::empty(),
{
    Msg {
        process: String::new(),
        request_number: 0,
        kind: String::new(),
        origin: None,
        contents: None,
        regions: Vec::new(),
        language: None,
        ast: None,
        sent_at: 0,
    }
}

/// Sets the process of `msg` to `process`.
pub fn msg_set_process(msg: &mut Msg, process: &str)
    ensures
        final(msg)@ == old(msg)@.with_process(process@),
{
    msg.process = process.to_owned();
}

/// The process of `msg`.
pub fn msg_get_process(msg: &Msg) -> (process: &str)
    ensures
        process@ == msg@.process,
{
    msg.process.as_str()
}

/// Sets the request number of `msg` to `reqno`.
pub fn msg_set_request_number(msg: &mut Msg, reqno: u64)
    ensures
        final(msg)@ == old(msg)@.with_request_number(reqno),
{
    msg.request_number = reqno;
}

/// The request number of `msg`.
pub fn msg_get_request_number(msg: &Msg) -> (reqno: u64)
    ensures
        reqno == msg@.request_number,
{
    msg.request_number
}

/// Sets the kind of `msg` to `kind`.
pub fn msg_set_kind(msg: &mut Msg, kind: &str)
    ensures
        final(msg)@ == old(msg)@.with_kind(kind@),
{
    msg.kind = kind.to_owned();
}

/// The kind of `msg`.
pub fn msg_get_kind(msg: &Msg) -> (kind: &str)
    ensures
        kind@ == msg@.kind,
{
    msg.kind.as_str()
}

/// Sets the origin of `msg` to `origin`; `None` removes it.
pub fn msg_set_origin(msg: &mut Msg, origin: Option<&str>)
    ensures
        final(msg)@ == old(msg)@.with_origin(optional_str_view(origin)),
{
    msg.origin = match origin {
        None => None,
        Some(o) => Some(o.to_owned()),
    };
}

/// The origin of `msg`, if it has one.
pub fn msg_get_origin(msg: &Msg) -> (origin: Option<&str>)
    ensures
        optional_str_view(origin) == msg@.origin,
{
    match &msg.origin {
        None => None,
        Some(o) => Some(o.as_str()),
    }
}

/// Sets the contents of `msg` to `contents`; `None` removes them.
pub fn msg_set_contents(msg: &mut Msg, contents: Option<Contents>)
    ensures
        final(msg)@ == old(msg)@.with_contents(contents),
{
    msg.contents = contents;
}

/// The contents of `msg`, if it has any.
pub fn msg_get_contents(msg: &Msg) -> (contents: Option<&Contents>)
    ensures
        borrows_from(contents, msg@.contents),
{
    msg.contents.as_ref()
}

/// Adds `region` as the last region of `msg`.
pub fn msg_add_region(msg: &mut Msg, region: Region)
    ensures
        final(msg)@ == old(msg)@.with_regions(old(msg)@.regions.push(region)),
{
    msg.regions.push(region);
}

/// Removes all regions of `msg`.
pub fn msg_clear_regions(msg: &mut Msg)
    ensures
        final(msg)@ == old(msg)@.with_regions(Seq::empty()),
{
    msg.regions.clear();
}

/// The region of `msg` at `index`.
pub fn msg_get_region(msg: &Msg, index: u64) -> (region: &Region)
    requires
        index < msg@.regions.len(),
    ensures
        *region == msg@.regions[index as int],
{
    let count: usize = msg.regions.len();
    assert(index < count);
    let i: usize = index as usize;
    &msg.regions[i]
}

/// The number of regions of `msg`.
pub fn msg_count_regions(msg: &Msg) -> (count: u64)
    ensures
        count == msg@.regions.len(),
{
    msg.regions.len() as u64
}

/// Sets the language of `msg` to `language`; `None` removes it.
pub fn msg_set_language(msg: &mut Msg, language: Option<Language>)
    ensures
        final(msg)@ == old(msg)@.with_language(language),
{
    msg.language = language;
}

/// The language of `msg`, if it has one.
pub fn msg_get_language(msg: &Msg) -> (language: Option<&Language>)
    ensures
        borrows_from(language, msg@.language),
{
    msg.language.as_ref()
}

/// Sets the syntax tree of `msg` to `ast`; `None` removes it.
pub fn msg_set_ast(msg: &mut Msg, ast: Option<Ast>)
    ensures
        final(msg)@ == old(msg)@.with_ast(ast),
{
    msg.ast = ast;
}

/// The syntax tree of `msg`, if it has one.
pub fn msg_get_ast(msg: &Msg) -> (ast: Option<&Ast>)
    ensures
        borrows_from(ast, msg@.ast),
{
    msg.ast.as_ref()
}

/// When `msg` was sent.
pub fn msg_get_sent_at(msg: &Msg) -> (sent_at: u64)
    ensures
        sent_at == msg@.sent_at,
{
    msg.sent_at
}

/// What a setter of a message writes, the matching getter gives back.
pub proof fn law_msg_read_gives_back_write(
    m: MsgView,
    process: Seq<char>,
    reqno: u64,
    kind: Seq<char>,
    origin: Option<Seq<char>>,
    contents: Option<Contents>,
    language: Option<Language>,
    ast: Option<Ast>,
)
    ensures
        m.with_process(process).process == process,
        m.with_request_number(reqno).request_number == reqno,
        m.with_kind(kind).kind == kind,
        m.with_origin(origin).origin == origin,
        m.with_contents(contents).contents == contents,
        m.with_language(language).language == language,
        m.with_ast(ast).ast == ast,
{
}

/// Of two writes to the same part of a message, the last one wins, and
/// writing back what a part holds changes nothing.
pub proof fn law_msg_last_write_wins(
    m: MsgView,
    p1: Seq<char>,
    p2: Seq<char>,
    n1: u64,
    n2: u64,
    k1: Seq<char>,
    k2: Seq<char>,
    o1: Option<Seq<char>>,
    o2: Option<Seq<char>>,
)
    ensures
        m.with_process(p1).with_process(p2) == m.with_process(p2),
        m.with_request_number(n1).with_request_number(n2) == m.with_request_number(n2),
        m.with_kind(k1).with_kind(k2) == m.with_kind(k2),
        m.with_origin(o1).with_origin(o2) == m.with_origin(o2),
        m.with_process(m.process) == m,
        m.with_request_number(m.request_number) == m,
        m.with_kind(m.kind) == m,
        m.with_origin(m.origin) == m,
        m.with_contents(m.contents) == m,
        m.with_language(m.language) == m,
        m.with_ast(m.ast) == m,
{
}

/// The parts of a message that its setters write.
pub enum MsgPart {
    Process,
    RequestNumber,
    Kind,
    Origin,
    Contents,
    Regions,
    Language,
    Ast,
}

/// Whether `a` and `b` agree on every part but `part`, and on when they were
/// sent.
pub open spec fn agree_except(a: MsgView, b: MsgView, part: MsgPart) -> bool {
    &&& (part !is Process ==> a.process == b.process)
    &&& (part !is RequestNumber ==> a.request_number == b.request_number)
    &&& (part !is Kind ==> a.kind == b.kind)
    &&& (part !is Origin ==> a.origin == b.origin)
    &&& (part !is Contents ==> a.contents == b.contents)
    &&& (part !is Regions ==> a.regions == b.regions)
    &&& (part !is Language ==> a.language == b.language)
    &&& (part !is Ast ==> a.ast == b.ast)
    &&& a.sent_at == b.sent_at
}

/// A write to one part of a message leaves every other part as it was, and
/// no write changes when the message was sent. Writes to two different parts
/// may come in either order.
pub proof fn law_msg_write_keeps_other_parts(
    m: MsgView,
    process: Seq<char>,
    reqno: u64,
    kind: Seq<char>,
    origin: Option<Seq<char>>,
    contents: Option<Contents>,
    regions: Seq<Region>,
    language: Option<Language>,
    ast: Option<Ast>,
)
    ensures
        agree_except(m.with_process(process), m, MsgPart::Process),
        agree_except(m.with_request_number(reqno), m, MsgPart::RequestNumber),
        agree_except(m.with_kind(kind), m, MsgPart::Kind),
        agree_except(m.with_origin(origin), m, MsgPart::Origin),
        agree_except(m.with_contents(contents), m, MsgPart::Contents),
        agree_except(m.with_regions(regions), m, MsgPart::Regions),
        agree_except(m.with_language(language), m, MsgPart::Language),
        agree_except(m.with_ast(ast), m, MsgPart::Ast),
        m.with_process(process).with_kind(kind) == m.with_kind(kind).with_process(process),
        m.with_origin(origin).with_contents(contents) == m.with_contents(contents).with_origin(
            origin,
        ),
        m.with_language(language).with_ast(ast) == m.with_ast(ast).with_language(language),
        m.with_request_number(reqno).with_regions(regions) == m.with_regions(
            regions,
        ).with_request_number(reqno),
{
}

/// After a region is added, there is one region more, the last one is the
/// added region and the ones before it are unchanged; after the regions are
/// cleared there is none, whatever was added before.
pub proof fn law_msg_regions(m: MsgView, r: Region)
    ensures
        m.with_regions(m.regions.push(r)).regions.len() == m.regions.len() + 1,
        m.with_regions(m.regions.push(r)).regions[m.regions.len() as int] == r,
        forall|i: int|
            0 <= i < m.regions.len() ==> #[trigger] m.with_regions(m.regions.push(r)).regions[i]
                == m.regions[i],
        m.with_regions(Seq::empty()).regions.len() == 0,
        m.with_regions(m.regions.push(r)).with_regions(Seq::empty()) == m.with_regions(
            Seq::empty(),
        ),
{
}

/// A fresh message has no origin, no contents (which count as empty), no
/// region, no language and no syntax tree.
pub proof fn law_msg_new()
    ensures
        MsgView::empty().origin is None,
        crate::contents::spec_optional_is_empty(
            match MsgView::empty().contents {
                None => None,
                Some(c) => Some(c@),
            },
        ),
        MsgView::empty().regions.len() == 0,
        MsgView::empty().language is None,
        MsgView::empty().ast is None,
{
}

} // verus!
