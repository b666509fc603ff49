use vstd::prelude::*;

use quick_xml::events::Event;
use quick_xml::Reader;
use std::io::Cursor;
use std::io::Read;
use zip::ZipArchive;

use crate::errors::ExtractError;
use crate::text::string_from_chars;

verus! {

#[verifier::external_type_specification]
#[verifier::external_body]
#[verifier::reject_recursive_types(R)]
pub struct ExXmlReader<R>(Reader<R>);

#[verifier::external_type_specification]
#[verifier::external_body]
#[verifier::reject_recursive_types(R)]
pub struct ExZipArchive<R>(ZipArchive<R>);

#[verifier::external_type_specification]
#[verifier::external_body]
#[verifier::reject_recursive_types(T)]
pub struct ExCursor<T>(Cursor<T>);

/// What the DOCX body reading makes of one XML event.
pub enum DocxToken {
    /// A start tag, by its local name.
    Start(Vec<u8>),
    /// An end tag, by its local name.
    End(Vec<u8>),
    /// Decoded text.
    Text(String),
    /// Text that could not be decoded, with the error's message.
    UndecodableText(String),
    /// The end of the document.
    Eof,
    /// Any other event (empty elements, comments, CDATA, declarations, references, ...).
    Other,
    /// The XML reader failed, with the error's message.
    Failed(String),
}

/// An XML event as plain values: local names of tags, decoded text (or the
/// decoding error's message), the reader error's message, and the kinds of the
/// other events.
pub enum XmlEventView {
    Start(Seq<u8>),
    End(Seq<u8>),
    Text(Seq<char>),
    UndecodableText(Seq<char>),
    Eof,
    Other,
    Failed(Seq<char>),
}

/// The plain view of a token.
pub open spec fn token_view(token: DocxToken) -> XmlEventView {
    match token {
        DocxToken::Start(name) => XmlEventView::Start(name@),
        DocxToken::End(name) => XmlEventView::End(name@),
        DocxToken::Text(text) => XmlEventView::Text(text@),
        DocxToken::UndecodableText(message) => XmlEventView::UndecodableText(message@),
        DocxToken::Eof => XmlEventView::Eof,
        DocxToken::Other => XmlEventView::Other,
        DocxToken::Failed(message) => XmlEventView::Failed(message@),
    }
}

/// The event with this index (counting from 0) that a `quick_xml` reader over
/// `xml` yields, with text events kept whole (`trim_text(false)`, which is also
/// the reader's default configuration).
pub uninterp spec fn xml_event_at(xml: Seq<char>, index: nat) -> XmlEventView;

/// The event ends the reading of a document: its end, or a reader failure.
pub open spec fn is_final_event(event: XmlEventView) -> bool {
    event is Eof || event is Failed
}

/// A `quick_xml` reader over a text, with the number of events taken from it.
pub struct XmlEventReader<'a> {
    reader: Reader<&'a [u8]>,
    xml: &'a str,
    taken: Ghost<nat>,
}

impl<'a> XmlEventReader<'a> {
    /// The text read.
    pub closed spec fn source(&self) -> Seq<char> {
        self.xml@
    }

    /// The number of events taken so far.
    pub closed spec fn taken(&self) -> nat {
        self.taken@
    }

    /// Among the first `bound + 1` events of the text there is a final one.
    pub open spec fn final_event_within(&self, bound: nat) -> bool {
        exists|i: nat| i <= bound && is_final_event(xml_event_at(self.source(), i))
    }
}

/// Calls `quick_xml::Reader::from_str`: a reader over `xml` that has yielded no
/// event. Outside markup the reader consumes at least one input byte for each
/// event other than `Eof` and failures (with the default configuration no
/// event is synthesized without input), so among the first `xml.len() + 1`
/// events (`len` in bytes) there is a final one.
#[verifier::external_body]
fn xml_event_reader<'a>(xml: &'a str) -> (r: XmlEventReader<'a>)
    ensures
        r.source() == xml@,
        r.taken() == 0,
        r.final_event_within(vstd::utf8::encode_utf8(r.source()).len()),
{
    XmlEventReader { reader: Reader::from_str(xml), xml, taken: Ghost(0) }
}

/// Calls `Config::trim_text(false)` on the reader's configuration: text events
/// keep their surrounding white space.
#[verifier::external_body]
fn xml_keep_text_whitespace(events: &mut XmlEventReader)
    ensures
        final(events).source() == old(events).source(),
        final(events).taken() == old(events).taken(),
{
    events.reader.config_mut().trim_text(false);
}

/// Calls `quick_xml::Reader::read_event` and converts the event: tags by their
/// `local_name`, text by `BytesText::decode`, errors by their `Display` text. The
/// result is the next event of the text.
#[verifier::external_body]
fn xml_next_token(events: &mut XmlEventReader) -> (token: DocxToken)
    ensures
        token_view(token) == xml_event_at(old(events).source(), old(events).taken()),
        final(events).source() == old(events).source(),
        final(events).taken() == old(events).taken() + 1,
{
    let token = match events.reader.read_event() {
        Ok(Event::Start(e)) => DocxToken::Start(e.local_name().as_ref().to_vec()),
        Ok(Event::End(e)) => DocxToken::End(e.local_name().as_ref().to_vec()),
        Ok(Event::Text(e)) => match e.decode() {
            Ok(text) => DocxToken::Text(text.into_owned()),
            Err(error) => DocxToken::UndecodableText(error.to_string()),
        },
        Ok(Event::Eof) => DocxToken::Eof,
        Ok(_) => DocxToken::Other,
        Err(error) => DocxToken::Failed(error.to_string()),
    };
    events.taken = Ghost(events.taken@ + 1);
    token
}

/// What `zip::ZipArchive::new` gives over `data`: `None` when it opens the
/// archive, else the `Display` text of its error.
pub uninterp spec fn zip_open_error(data: Seq<u8>) -> Option<Seq<char>>;

/// What reading one member of a zip archive as text gives.
pub enum ZipMemberContent {
    /// `ZipArchive::by_name` fails: no such member, or it cannot be opened.
    Missing,
    /// `Read::read_to_string` fails on the member (damaged data, or not UTF-8),
    /// with the `Display` text of its error.
    Unreadable(Seq<char>),
    /// The member's text.
    Text(Seq<char>),
}

/// What the archive in `data` gives for the member `name`, read as text.
pub uninterp spec fn zip_member_content(data: Seq<u8>, name: Seq<char>) -> ZipMemberContent;

/// A zip archive opened over bytes in memory.
pub struct ZipReader<'a> {
    archive: ZipArchive<Cursor<&'a [u8]>>,
    data: Ghost<Seq<u8>>,
}

impl<'a> ZipReader<'a> {
    /// The bytes of the archive.
    pub closed spec fn data(&self) -> Seq<u8> {
        self.data@
    }
}

/// Calls `zip::ZipArchive::new` over a cursor on `data`, or gives the error's
/// `Display` text. The crate's reading code has no `unwrap` or `panic!` outside
/// its tests.
#[verifier::external_body]
fn zip_open<'a>(data: &'a [u8]) -> (r: Result<ZipReader<'a>, String>)
    ensures
        r is Ok <==> zip_open_error(data@) is None,
        r matches Ok(z) ==> z.data() == data@,
        r matches Err(message) ==> zip_open_error(data@) == Some(message@),
{
    match ZipArchive::new(Cursor::new(data)) {
        Ok(archive) => Ok(ZipReader { archive, data: Ghost(data@) }),
        Err(error) => Err(error.to_string()),
    }
}

/// What reading one member of a zip archive as text gave.
pub enum ZipMemberText {
    Text(String),
    Missing,
    /// With the error's `Display` text.
    Unreadable(String),
}

pub open spec fn member_text_view(m: ZipMemberText) -> ZipMemberContent {
    match m {
        ZipMemberText::Text(t) => ZipMemberContent::Text(t@),
        ZipMemberText::Missing => ZipMemberContent::Missing,
        ZipMemberText::Unreadable(message) => ZipMemberContent::Unreadable(message@),
    }
}

/// Calls `zip::ZipArchive::by_name` and then `Read::read_to_string` on the member.
/// The member (`zip::read::ZipFile`) borrows the archive and is bounded by
/// `std::io::Read`, an outside trait that a type declaration here cannot name,
/// so the two calls stand together.
#[verifier::external_body]
fn zip_member_text(zip: &mut ZipReader, name: &str) -> (r: ZipMemberText)
    ensures
        member_text_view(r) == zip_member_content(old(zip).data(), name@),
        final(zip).data() == old(zip).data(),
{
    let mut member = match zip.archive.by_name(name) {
        Ok(member) => member,
        Err(_) => return ZipMemberText::Missing,
    };
    let mut text = String::new();
    match member.read_to_string(&mut text) {
        Ok(_) => ZipMemberText::Text(text),
        Err(error) => ZipMemberText::Unreadable(error.to_string()),
    }
}

} // verus!

verus! {

/// The local name `t` (a text run).
pub open spec fn is_text_name(name: Seq<u8>) -> bool {
    name == seq![116u8]
}

/// The local name `p` (a paragraph).
pub open spec fn is_paragraph_name(name: Seq<u8>) -> bool {
    name == seq![112u8]
}

/// Where the reading stands after one token.
pub enum DocxStep {
    /// Reading goes on with this text so far and this "inside a text run" flag.
    Next(Seq<char>, bool),
    /// Reading is over with this outcome.
    Done(Result<Seq<char>, ExtractError>),
}

/// One step of the DOCX body reading, from the text so far and whether a text
/// run is open: a start tag opens a text run exactly when it is `t`, and a `p`
/// start tag adds a line break unless nothing has been read yet; a `t` end tag
/// closes the text run; text inside a text run is appended, other text is
/// skipped; the end of the document gives the text; a reader failure, or text
/// inside a run that cannot be decoded, is an error.
pub open spec fn docx_step(out: Seq<char>, inside: bool, token: DocxToken) -> DocxStep {
    match token {
        DocxToken::Start(name) => {
            let out2 = if is_paragraph_name(name@) && out.len() > 0 {
                out.push('\n')
            } else {
                out
            };
            DocxStep::Next(out2, is_text_name(name@))
        },
        DocxToken::End(name) => DocxStep::Next(out, if is_text_name(name@) { false } else { inside }),
        DocxToken::Text(text) => DocxStep::Next(if inside { out + text@ } else { out }, inside),
        DocxToken::UndecodableText(message) => if inside {
            DocxStep::Done(Err(ExtractError::DocxTextDecode(message)))
        } else {
            DocxStep::Next(out, inside)
        },
        DocxToken::Eof => DocxStep::Done(Ok(out)),
        DocxToken::Other => DocxStep::Next(out, inside),
        DocxToken::Failed(message) => DocxStep::Done(Err(ExtractError::DocxInvalidXml(message))),
    }
}

/// The outcome of reading `tokens` from the given text and flag; a token list
/// that ends without `Eof` gives the text so far.
pub open spec fn docx_fold(out: Seq<char>, inside: bool, tokens: Seq<DocxToken>) -> Result<
    Seq<char>,
    ExtractError,
>
    decreases tokens.len(),
{
    if tokens.len() == 0 {
        Ok(out)
    } else {
        match docx_step(out, inside, tokens[0]) {
            DocxStep::Next(out2, inside2) => docx_fold(out2, inside2, tokens.drop_first()),
            DocxStep::Done(result) => result,
        }
    }
}

/// The text of a DOCX body given as its tokens.
pub open spec fn docx_text(tokens: Seq<DocxToken>) -> Result<Seq<char>, ExtractError> {
    docx_fold(Seq::empty(), false, tokens)
}

/// The view of a text outcome.
pub open spec fn text_result_view(r: Result<String, ExtractError>) -> Result<Seq<char>, ExtractError> {
    match r {
        Ok(s) => Ok(s@),
        Err(e) => Err(e),
    }
}

proof fn lemma_docx_fold_cons(out: Seq<char>, inside: bool, token: DocxToken, rest: Seq<DocxToken>)
    ensures
        docx_fold(out, inside, seq![token] + rest) == match docx_step(out, inside, token) {
            DocxStep::Next(out2, inside2) => docx_fold(out2, inside2, rest),
            DocxStep::Done(result) => result,
        },
{
    let all = seq![token] + rest;
    assert(all[0] == token);
    assert(all.drop_first() == rest);
}

fn bytes_are(name: &Vec<u8>, c: u8) -> (r: bool)
    ensures
        r == (name@ == seq![c]),
{
    let r = name.len() == 1 && name[0] == c;
    proof {
        if name@.len() == 1 && name@[0] == c {
            assert(name@ == seq![c]);
        }
    }
    r
}

/// Applies one token to the text read so far; `Some` when reading is over.
fn docx_apply(out: &mut Vec<char>, inside: &mut bool, token: DocxToken) -> (r: Option<Result<String, ExtractError>>)
    ensures
        match docx_step(old(out)@, *old(inside), token) {
            DocxStep::Next(out2, inside2) => r is None && final(out)@ == out2 && *final(inside) == inside2,
            DocxStep::Done(result) => r is Some && text_result_view(r->0) == result,
        },
{
    match token {
        DocxToken::Start(name) => {
            if bytes_are(&name, 112u8) && out.len() > 0 {
                out.push('\n');
            }
            *inside = bytes_are(&name, 116u8);
            None
        },
        DocxToken::End(name) => {
            if bytes_are(&name, 116u8) {
                *inside = false;
            }
            None
        },
        DocxToken::Text(text) => {
            if *inside {
                let n = text.unicode_len();
                let mut i: usize = 0;
                let ghost start = out@;
                while i < n
                    invariant
                        n == text@.len(),
                        i <= n,
                        out@ == start + text@.take(i as int),
                    decreases n - i,
                {
                    out.push(text.as_str().get_char(i));
                    assert(text@.take((i + 1) as int) == text@.take(i as int).push(text@[i as int]));
                    i = i + 1;
                }
                assert(text@.take(n as int) == text@);
            }
            None
        },
        DocxToken::UndecodableText(message) => {
            if *inside {
                Some(Err(ExtractError::DocxTextDecode(message)))
            } else {
                None
            }
        },
        DocxToken::Eof => Some(Ok(string_from_chars(out.as_slice()))),
        DocxToken::Other => None,
        DocxToken::Failed(message) => Some(Err(ExtractError::DocxInvalidXml(message))),
    }
}

/// The text of a DOCX body given as its tokens: text runs (`t` elements) in
/// order, with a line break before each paragraph (`p` element) after the first
/// text, up to the end of the document.
pub fn docx_text_from_tokens(tokens: Vec<DocxToken>) -> (r: Result<String, ExtractError>)
    ensures
        text_result_view(r) == docx_text(tokens@),
{
    let mut out: Vec<char> = Vec::new();
    let mut inside = false;
    let mut rest = tokens;
    while rest.len() > 0
        invariant
            docx_text(tokens@) == docx_fold(out@, inside, rest@),
        decreases rest@.len(),
    {
        let ghost before = rest@;
        let token = rest.remove(0);
        proof {
            assert(before == seq![token] + rest@);
            lemma_docx_fold_cons(out@, inside, token, rest@);
        }
        match docx_apply(&mut out, &mut inside, token) {
            Some(result) => {
                return result;
            },
            None => {},
        }
    }
    Ok(string_from_chars(out.as_slice()))
}

} // verus!

verus! {

/// How reading a DOCX body ends: with its text, with text inside a run that
/// cannot be decoded, or with invalid XML (with the error's message); or not
/// within the events looked at.
pub enum DocxEnd {
    Text(Seq<char>),
    Undecodable(Seq<char>),
    Invalid(Seq<char>),
    Unfinished,
}

/// Where the reading stands after one event.
pub enum DocxViewStep {
    Next(Seq<char>, bool),
    Done(DocxEnd),
}

/// One step of the DOCX body reading over an event, as `docx_step` takes it
/// over a token.
pub open spec fn docx_view_step(out: Seq<char>, inside: bool, event: XmlEventView) -> DocxViewStep {
    match event {
        XmlEventView::Start(name) => {
            let out2 = if is_paragraph_name(name) && out.len() > 0 {
                out.push('\n')
            } else {
                out
            };
            DocxViewStep::Next(out2, is_text_name(name))
        },
        XmlEventView::End(name) => DocxViewStep::Next(out, if is_text_name(name) { false } else { inside }),
        XmlEventView::Text(text) => DocxViewStep::Next(if inside { out + text } else { out }, inside),
        XmlEventView::UndecodableText(message) => if inside {
            DocxViewStep::Done(DocxEnd::Undecodable(message))
        } else {
            DocxViewStep::Next(out, inside)
        },
        XmlEventView::Eof => DocxViewStep::Done(DocxEnd::Text(out)),
        XmlEventView::Other => DocxViewStep::Next(out, inside),
        XmlEventView::Failed(message) => DocxViewStep::Done(DocxEnd::Invalid(message)),
    }
}

/// Reads the events of `xml` from `index` on, at most up to `bound`.
pub open spec fn docx_read_from(xml: Seq<char>, index: nat, out: Seq<char>, inside: bool, bound: nat) -> DocxEnd
    decreases bound - index,
{
    if index >= bound {
        DocxEnd::Unfinished
    } else {
        match docx_view_step(out, inside, xml_event_at(xml, index)) {
            DocxViewStep::Next(out2, inside2) => docx_read_from(xml, index + 1, out2, inside2, bound),
            DocxViewStep::Done(end) => end,
        }
    }
}

/// How reading the DOCX body `xml` ends, over the events `quick_xml` yields
/// for it (a final event comes within one more event than the body has bytes).
pub open spec fn docx_xml_end(xml: Seq<char>) -> DocxEnd {
    docx_read_from(xml, 0, Seq::empty(), false, vstd::utf8::encode_utf8(xml).len() + 1)
}

/// `r` is the outcome for the reading end `end`.
pub open spec fn docx_end_matches(r: Result<Seq<char>, ExtractError>, end: DocxEnd) -> bool {
    match end {
        DocxEnd::Text(text) => r == Ok::<Seq<char>, ExtractError>(text),
        DocxEnd::Undecodable(message) => match r {
            Err(ExtractError::DocxTextDecode(m)) => m@ == message,
            _ => false,
        },
        DocxEnd::Invalid(message) => match r {
            Err(ExtractError::DocxInvalidXml(m)) => m@ == message,
            _ => false,
        },
        DocxEnd::Unfinished => false,
    }
}

proof fn lemma_token_step(out: Seq<char>, inside: bool, token: DocxToken)
    ensures
        match docx_step(out, inside, token) {
            DocxStep::Next(o, n) => docx_view_step(out, inside, token_view(token)) == DocxViewStep::Next(o, n),
            DocxStep::Done(r) => docx_view_step(out, inside, token_view(token)) matches DocxViewStep::Done(end)
                && docx_end_matches(r, end),
        },
{
}

/// Reads the text of a DOCX body (`word/document.xml`) with `quick_xml`: the
/// text runs (`t` elements) in order, with a line break before each paragraph
/// (`p` start tag) once some text was read, up to the end of the document; a
/// reader failure, or undecodable text inside a run, is an error.
pub fn extract_docx_xml(xml: &str) -> (r: Result<String, ExtractError>)
    ensures
        docx_end_matches(text_result_view(r), docx_xml_end(xml@)),
{
    let mut events = xml_event_reader(xml);
    xml_keep_text_whitespace(&mut events);
    let ghost size: nat = vstd::utf8::encode_utf8(xml@).len();
    let ghost bound: nat = size + 1;
    let ghost last: nat = choose|i: nat| i <= size && is_final_event(xml_event_at(xml@, i));
    let mut out: Vec<char> = Vec::new();
    let mut inside = false;
    loop
        invariant
            events.source() == xml@,
            events.taken() <= last,
            last < bound,
            last <= size,
            bound == size + 1,
            size == vstd::utf8::encode_utf8(xml@).len(),
            is_final_event(xml_event_at(xml@, last)),
            docx_xml_end(xml@) == docx_read_from(xml@, events.taken(), out@, inside, bound),
        decreases last - events.taken(),
    {
        let ghost index = events.taken();
        let ghost old_out = out@;
        let ghost old_inside = inside;
        let token = xml_next_token(&mut events);
        proof {
            lemma_token_step(old_out, old_inside, token);
        }
        match docx_apply(&mut out, &mut inside, token) {
            Some(result) => {
                return result;
            },
            None => {
                proof {
                    if index == last {
                        assert(is_final_event(xml_event_at(xml@, index)));
                    }
                }
            },
        }
    }
}

/// The bytes start with `PK`, the signature of a zip archive.
pub open spec fn docx_signature(data: Seq<u8>) -> bool {
    data.len() >= 2 && data[0] == 0x50 && data[1] == 0x4b
}

/// What reading a `.docx` file gives: a signature error unless the bytes start
/// with `PK`; an archive error with `zip`'s message when it cannot open them; a
/// missing-body error when the archive has no readable `word/document.xml`; an
/// encoding error with the reader's message when that member cannot be read as
/// text; otherwise what reading the member as a DOCX body gives.
pub open spec fn docx_outcome(data: Seq<u8>, r: Result<Seq<char>, ExtractError>) -> bool {
    if !docx_signature(data) {
        r == Err::<Seq<char>, ExtractError>(ExtractError::DocxSignatureMismatch)
    } else {
        match zip_open_error(data) {
            Some(message) => match r {
                Err(ExtractError::DocxUnreadable(m)) => m@ == message,
                _ => false,
            },
            None => match zip_member_content(data, "word/document.xml"@) {
                ZipMemberContent::Missing => r == Err::<Seq<char>, ExtractError>(ExtractError::DocxMissingBody),
                ZipMemberContent::Unreadable(message) => match r {
                    Err(ExtractError::DocxBodyNotUtf8(m)) => m@ == message,
                    _ => false,
                },
                ZipMemberContent::Text(xml) => docx_end_matches(r, docx_xml_end(xml)),
            },
        }
    }
}

/// Extracts the text of a `.docx` file: the zip archive's `word/document.xml`
/// read by `extract_docx_xml`.
pub fn extract_docx(data: &[u8]) -> (r: Result<String, ExtractError>)
    ensures
        docx_outcome(data@, text_result_view(r)),
{
    if !(data.len() >= 2 && data[0] == 0x50 && data[1] == 0x4b) {
        return Err(ExtractError::DocxSignatureMismatch);
    }
    let mut zip = match zip_open(data) {
        Ok(zip) => zip,
        Err(message) => {
            return Err(ExtractError::DocxUnreadable(message));
        },
    };
    let xml = match zip_member_text(&mut zip, "word/document.xml") {
        ZipMemberText::Text(xml) => xml,
        ZipMemberText::Missing => {
            return Err(ExtractError::DocxMissingBody);
        },
        ZipMemberText::Unreadable(message) => {
            return Err(ExtractError::DocxBodyNotUtf8(message));
        },
    };
    extract_docx_xml(xml.as_str())
}

} // verus!
