use vstd::prelude::*;

use crate::document_types::{
    is_supported_extension, is_supported_text_document, supported_document_path,
    supported_extension_matches,
};
use crate::docx::{docx_outcome, extract_docx, text_result_view};
use crate::errors::ExtractError;
use crate::fingerprint::{content_fingerprint, fingerprint_of};
use crate::path_names::{extension_or_empty, path_extension, text_or_empty};
use crate::text::{
    ascii_lower, ascii_lowercase_chars, chars_equal, is_white_space, lemma_trim_has_no_outer_white_space,
    trim, trim_white_space, utf16_decoding, utf16_to_string,
    utf8_to_string,
};

verus! {

/// Resource limits of text extraction.
#[derive(Debug, Clone, Copy)]
pub struct ExtractionLimits {
    /// The most characters an extracted text may have.
    pub max_characters: usize,
}

impl Default for ExtractionLimits {
    /// At most 100 000 characters.
    fn default() -> (r: Self)
        ensures
            r.max_characters == 100_000,
    {
        ExtractionLimits { max_characters: 100_000 }
    }
}

/// The text extracted from a document.
#[derive(Debug)]
pub struct ExtractedDocument {
    /// The path the text was read from.
    pub source_path: String,
    /// The text, trimmed.
    pub text: String,
    /// Lowercase hexadecimal SHA-256 digest of the file's bytes.
    pub content_fingerprint: String,
}

/// Decodes UTF-8 bytes.
pub open spec fn utf8_outcome(data: Seq<u8>) -> Result<Seq<char>, ExtractError> {
    if vstd::utf8::valid_utf8(data) {
        Ok(vstd::utf8::decode_utf8(data))
    } else {
        Err(ExtractError::NotUtf8Text)
    }
}

/// The UTF-16 code units of `data`, two bytes each, in the given byte order.
pub open spec fn utf16_units(data: Seq<u8>, little_endian: bool) -> Seq<u16> {
    Seq::new(
        data.len() / 2,
        |i: int|
            if little_endian {
                (data[2 * i] + 256 * data[2 * i + 1]) as u16
            } else {
                (256 * data[2 * i] + data[2 * i + 1]) as u16
            },
    )
}

/// Decodes UTF-16 bytes of the given byte order.
pub open spec fn utf16_outcome(data: Seq<u8>, little_endian: bool) -> Result<Seq<char>, ExtractError> {
    if data.len() % 2 != 0 {
        Err(ExtractError::OddUtf16Length)
    } else {
        match utf16_decoding(utf16_units(data, little_endian)) {
            Some(text) => Ok(text),
            None => Err(ExtractError::NotUtf16Text),
        }
    }
}

/// Decodes a text file: a UTF-8 byte order mark is dropped before UTF-8
/// decoding, a UTF-16 byte order mark (`FF FE` little endian, `FE FF` big
/// endian) selects UTF-16, anything else is UTF-8.
pub open spec fn text_outcome(data: Seq<u8>) -> Result<Seq<char>, ExtractError> {
    if data.len() >= 3 && data[0] == 0xef && data[1] == 0xbb && data[2] == 0xbf {
        utf8_outcome(data.skip(3))
    } else if data.len() >= 2 && data[0] == 0xff && data[1] == 0xfe {
        utf16_outcome(data.skip(2), true)
    } else if data.len() >= 2 && data[0] == 0xfe && data[1] == 0xff {
        utf16_outcome(data.skip(2), false)
    } else {
        utf8_outcome(data)
    }
}

fn decode_utf8_bytes(data: &[u8]) -> (r: Result<String, ExtractError>)
    ensures
        text_result_view(r) == utf8_outcome(data@),
{
    let mut owned: Vec<u8> = Vec::new();
    let mut i: usize = 0;
    while i < data.len()
        invariant
            i <= data@.len(),
            owned@ == data@.take(i as int),
        decreases data@.len() - i,
    {
        owned.push(data[i]);
        assert(data@.take((i + 1) as int) == data@.take(i as int).push(data@[i as int]));
        i = i + 1;
    }
    assert(data@.take(data@.len() as int) == data@);
    match utf8_to_string(owned) {
        Some(text) => Ok(text),
        None => Err(ExtractError::NotUtf8Text),
    }
}

/// Decodes UTF-16 text in the given byte order.
pub fn decode_utf16(data: &[u8], little_endian: bool) -> (r: Result<String, ExtractError>)
    ensures
        text_result_view(r) == utf16_outcome(data@, little_endian),
{
    if data.len() % 2 != 0 {
        return Err(ExtractError::OddUtf16Length);
    }
    let count = data.len() / 2;
    let mut units: Vec<u16> = Vec::new();
    let mut i: usize = 0;
    while i < count
        invariant
            count == data@.len() / 2,
            data@.len() % 2 == 0,
            data@.len() <= usize::MAX,
            i <= count,
            units@ == utf16_units(data@, little_endian).take(i as int),
        decreases count - i,
    {
        let first = data[2 * i] as u16;
        let second = data[2 * i + 1] as u16;
        let unit: u16 = if little_endian {
            first + 256 * second
        } else {
            256 * first + second
        };
        units.push(unit);
        assert(units@ == utf16_units(data@, little_endian).take((i + 1) as int));
        i = i + 1;
    }
    assert(units@ == utf16_units(data@, little_endian));
    match utf16_to_string(units.as_slice()) {
        Some(text) => Ok(text),
        None => Err(ExtractError::NotUtf16Text),
    }
}

/// Decodes the bytes of a text file, by their byte order mark.
pub fn decode_text(data: &[u8]) -> (r: Result<String, ExtractError>)
    ensures
        text_result_view(r) == text_outcome(data@),
{
    let n = data.len();
    if n >= 3 && data[0] == 0xef && data[1] == 0xbb && data[2] == 0xbf {
        let rest = &data[3..n];
        assert(rest@ == data@.skip(3));
        return decode_utf8_bytes(rest);
    }
    if n >= 2 && data[0] == 0xff && data[1] == 0xfe {
        let rest = &data[2..n];
        assert(rest@ == data@.skip(2));
        return decode_utf16(rest, true);
    }
    if n >= 2 && data[0] == 0xfe && data[1] == 0xff {
        let rest = &data[2..n];
        assert(rest@ == data@.skip(2));
        return decode_utf16(rest, false);
    }
    decode_utf8_bytes(data)
}

/// UTF-8 with a byte order mark decodes back to the text that was encoded.
pub proof fn lemma_utf8_with_mark_round_trip(text: Seq<char>)
    ensures
        text_outcome(seq![0xefu8, 0xbbu8, 0xbfu8] + vstd::utf8::encode_utf8(text)) == Ok::<Seq<char>, ExtractError>(text),
{
    broadcast use vstd::utf8::encode_utf8_valid_utf8, vstd::utf8::encode_utf8_decode_utf8;

    let bytes = vstd::utf8::encode_utf8(text);
    assert((seq![0xefu8, 0xbbu8, 0xbfu8] + bytes).skip(3) =~= bytes);
}

/// UTF-8 without a byte order mark decodes back to the text that was encoded,
/// unless the text itself starts with U+FEFF, which is then read as the mark.
pub proof fn lemma_utf8_round_trip(text: Seq<char>)
    requires
        text.len() == 0 || text[0] != '\u{feff}',
    ensures
        text_outcome(vstd::utf8::encode_utf8(text)) == Ok::<Seq<char>, ExtractError>(text),
{
    broadcast use vstd::utf8::encode_utf8_valid_utf8, vstd::utf8::encode_utf8_decode_utf8;

    let bytes = vstd::utf8::encode_utf8(text);
    if text.len() > 0 {
        vstd::utf8::encode_utf8_first_scalar(text);
        assert(bytes.len() >= 1);
        assert(bytes[0] <= 0xf7);
        if bytes.len() >= 3 && bytes[0] == 0xef && bytes[1] == 0xbb && bytes[2] == 0xbf {
            let b0: u8 = bytes[0];
            let b1: u8 = bytes[1];
            let b2: u8 = bytes[2];
            assert(((((b0 & 0x0f) as u32) << 12) | (((b1 & 0x3f) as u32) << 6) | ((b2 & 0x3f) as u32)) == 0xfeffu32) by (bit_vector)
                requires
                    b0 == 0xef,
                    b1 == 0xbb,
                    b2 == 0xbf,
            ;
            assert(text[0] as u32 == 0xfeffu32);
            vstd::utf8::char_u32_cast(text[0], 0xfeffu32);
            assert(text[0] == '\u{feff}');
        }
    }
}

/// The UTF-16 code units of a text: one unit for a character below U+10000,
/// a surrogate pair for one above.
pub open spec fn utf16_encode(text: Seq<char>) -> Seq<u16>
    decreases text.len(),
{
    if text.len() == 0 {
        Seq::empty()
    } else {
        let c: u32 = text[0] as u32;
        let first: Seq<u16> = if c < 0x10000 {
            seq![c as u16]
        } else {
            seq![(0xd800 + (c - 0x10000) / 0x400) as u16, (0xdc00 + (c - 0x10000) % 0x400) as u16]
        };
        first + utf16_encode(text.drop_first())
    }
}

/// UTF-16 code units written as bytes, two per unit, in the given byte order.
pub open spec fn utf16_bytes(units: Seq<u16>, little_endian: bool) -> Seq<u8> {
    Seq::new(
        2 * units.len(),
        |i: int|
            {
                let unit: u16 = units[i / 2];
                let high: bool = if little_endian { i % 2 == 1 } else { i % 2 == 0 };
                if high { (unit / 256) as u8 } else { (unit % 256) as u8 }
            },
    )
}

proof fn lemma_utf16_units_of_bytes(units: Seq<u16>, little_endian: bool)
    ensures
        utf16_units(utf16_bytes(units, little_endian), little_endian) == units,
{
    let bytes = utf16_bytes(units, little_endian);
    assert forall|i: int| 0 <= i < units.len() implies #[trigger] utf16_units(bytes, little_endian)[i] == units[i] by {
        let u: u16 = units[i];
        assert((2 * i) / 2 == i);
        assert((2 * i + 1) / 2 == i);
        assert((2 * i) % 2 == 0);
        assert((2 * i + 1) % 2 == 1);
        assert(u % 256 + 256 * (u / 256) == u);
    }
    assert(utf16_units(bytes, little_endian) =~= units);
}

proof fn lemma_utf16_decoding_of_encode(text: Seq<char>)
    ensures
        utf16_decoding(utf16_encode(text)) == Some(text),
    decreases text.len(),
{
    if text.len() > 0 {
        let units = utf16_encode(text);
        let rest = utf16_encode(text.drop_first());
        lemma_utf16_decoding_of_encode(text.drop_first());
        let ch: char = text[0];
        let c: u32 = ch as u32;
        vstd::utf8::char_is_scalar(ch);
        vstd::utf8::char_u32_cast(ch, c);
        if c < 0x10000 {
            assert(units.drop_first() =~= rest);
            assert(units[0] == c as u16);
            assert(!(0xd800 <= c <= 0xdfff));
            assert(units[0] as char == ch);
            assert(seq![units[0] as char] + text.drop_first() =~= text);
        } else {
            assert(units.subrange(2, units.len() as int) =~= rest);
            let high: u16 = units[0];
            let low: u16 = units[1];
            assert(0x10000 <= c <= 0x10ffff);
            assert(high == 0xd800 + (c - 0x10000) / 0x400);
            assert(low == 0xdc00 + (c - 0x10000) % 0x400);
            assert(0x10000 + (high - 0xd800) * 0x400 + (low - 0xdc00) == c);
            assert((0x10000 + (high - 0xd800) * 0x400 + (low - 0xdc00)) as char == ch);
            assert(seq![ch] + text.drop_first() =~= text);
        }
    }
}

/// UTF-16 with a byte order mark, little endian (`FF FE`) or big endian
/// (`FE FF`), decodes back to the text that was encoded.
pub proof fn lemma_utf16_with_mark_round_trip(text: Seq<char>)
    ensures
        text_outcome(seq![0xffu8, 0xfeu8] + utf16_bytes(utf16_encode(text), true)) == Ok::<Seq<char>, ExtractError>(text),
        text_outcome(seq![0xfeu8, 0xffu8] + utf16_bytes(utf16_encode(text), false)) == Ok::<Seq<char>, ExtractError>(text),
{
    lemma_utf16_decoding_of_encode(text);
    lemma_utf16_units_of_bytes(utf16_encode(text), true);
    lemma_utf16_units_of_bytes(utf16_encode(text), false);
    assert((seq![0xffu8, 0xfeu8] + utf16_bytes(utf16_encode(text), true)).skip(2) =~= utf16_bytes(utf16_encode(text), true));
    assert((seq![0xfeu8, 0xffu8] + utf16_bytes(utf16_encode(text), false)).skip(2) =~= utf16_bytes(utf16_encode(text), false));
}

} // verus!

verus! {

/// The bytes start with `%PDF-`.
pub open spec fn pdf_signature(data: Seq<u8>) -> bool {
    &&& data.len() >= 5
    &&& data[0] == 0x25
    &&& data[1] == 0x50
    &&& data[2] == 0x44
    &&& data[3] == 0x46
    &&& data[4] == 0x2d
}

/// What reading a `.pdf` file gives from what `pdf_extract::extract_text_from_mem`
/// gave for its bytes (`pdf_text`, present exactly for a `%PDF-` signature):
/// a signature error unless the bytes start with `%PDF-`; otherwise that text,
/// or an unreadable-PDF error with the reader's message.
pub open spec fn pdf_outcome(data: Seq<u8>, pdf_text: Option<Result<String, String>>) -> Result<
    Seq<char>,
    ExtractError,
> {
    if !pdf_signature(data) {
        Err(ExtractError::PdfSignatureMismatch)
    } else {
        match pdf_text {
            Some(Ok(text)) => Ok(text@),
            Some(Err(message)) => Err(ExtractError::PdfUnreadable(message)),
            None => Err(ExtractError::PdfSignatureMismatch),
        }
    }
}

/// Whether the bytes start with `%PDF-`, so that the PDF reader is to be
/// called on them.
pub fn has_pdf_signature(data: &[u8]) -> (r: bool)
    ensures
        r == pdf_signature(data@),
{
    data.len() >= 5 && data[0] == 0x25 && data[1] == 0x50 && data[2] == 0x44 && data[3] == 0x46
        && data[4] == 0x2d
}

/// Extracts the text of a `.pdf` file, given what the PDF reader
/// (`pdf_extract::extract_text_from_mem`, which can panic on damaged files and
/// is therefore called by the caller) gave for its bytes when they carry the
/// PDF signature.
pub fn extract_pdf(data: &[u8], pdf_text: Option<Result<String, String>>) -> (r: Result<String, ExtractError>)
    requires
        pdf_text is Some <==> pdf_signature(data@),
    ensures
        text_result_view(r) == pdf_outcome(data@, pdf_text),
{
    if !has_pdf_signature(data) {
        return Err(ExtractError::PdfSignatureMismatch);
    }
    match pdf_text {
        Some(Ok(text)) => Ok(text),
        Some(Err(message)) => Err(ExtractError::PdfUnreadable(message)),
        None => Err(ExtractError::PdfSignatureMismatch),
    }
}

/// The final text from an extracted body: trimmed, and refused when it is then
/// empty or longer than `max_characters` characters.
pub open spec fn finish_outcome(body: Result<Seq<char>, ExtractError>, max_characters: usize) -> Result<
    Seq<char>,
    ExtractError,
> {
    match body {
        Err(e) => Err(e),
        Ok(text) => {
            let t = trim(text);
            if t.len() == 0 {
                Err(ExtractError::EmptyText)
            } else if t.len() > max_characters {
                Err(ExtractError::TooLong)
            } else {
                Ok(t)
            }
        },
    }
}

/// Trims an extracted body and holds it to the limits.
pub fn finish_text(body: Result<String, ExtractError>, limits: ExtractionLimits) -> (r: Result<String, ExtractError>)
    ensures
        text_result_view(r) == finish_outcome(text_result_view(body), limits.max_characters),
        r matches Ok(t) ==> 0 < t@.len() <= limits.max_characters && !is_white_space(t@[0])
            && !is_white_space(t@.last()),
{
    let text = match body {
        Ok(text) => text,
        Err(e) => {
            return Err(e);
        },
    };
    let ghost body_text = text@;
    let text = trim_white_space(text.as_str());
    proof {
        lemma_trim_has_no_outer_white_space(body_text);
    }
    if text.as_str().unicode_len() == 0 {
        return Err(ExtractError::EmptyText);
    }
    if text.as_str().unicode_len() > limits.max_characters {
        return Err(ExtractError::TooLong);
    }
    Ok(text)
}

/// How a document's body is read.
#[derive(Debug, Clone, Copy, PartialEq, Eq, Structural)]
pub enum DocumentFormat {
    /// Decoded as text.
    Text,
    Pdf,
    Docx,
    Unsupported,
}

/// The format of the document at `path`, by its lowercased extension: the
/// source-like and text extensions are text, `pdf` and `docx` have their own
/// readers, and any other supported document (a build file name) is text.
pub open spec fn format_of(path: Seq<char>) -> DocumentFormat {
    let ext = ascii_lower(text_or_empty(path_extension(path)));
    if is_supported_extension(ext) && ext != "pdf"@ && ext != "docx"@ {
        DocumentFormat::Text
    } else if ext == "pdf"@ {
        DocumentFormat::Pdf
    } else if ext == "docx"@ {
        DocumentFormat::Docx
    } else if supported_document_path(path) {
        DocumentFormat::Text
    } else {
        DocumentFormat::Unsupported
    }
}

/// The format of the document at `path`.
pub fn document_format(path: &str) -> (r: DocumentFormat)
    ensures
        r == format_of(path@),
{
    let ext_text = extension_or_empty(path);
    let ext = ascii_lowercase_chars(ext_text.as_str());
    let is_pdf = chars_equal(ext.as_slice(), "pdf");
    let is_docx = chars_equal(ext.as_slice(), "docx");
    if supported_extension_matches(&ext) && !is_pdf && !is_docx {
        DocumentFormat::Text
    } else if is_pdf {
        DocumentFormat::Pdf
    } else if is_docx {
        DocumentFormat::Docx
    } else if is_supported_text_document(path) {
        DocumentFormat::Text
    } else {
        DocumentFormat::Unsupported
    }
}

/// Exactly the supported documents have a reader: a `pdf` or `docx` extension
/// (in any ASCII case) selects its own reader, and every other supported
/// document (any other supported extension, or a build file name) is decoded
/// as text.
pub proof fn lemma_supported_documents_have_a_reader(path: Seq<char>)
    ensures
        supported_document_path(path) <==> format_of(path) != DocumentFormat::Unsupported,
        ascii_lower(text_or_empty(path_extension(path))) == "pdf"@ ==> format_of(path) == DocumentFormat::Pdf,
        ascii_lower(text_or_empty(path_extension(path))) == "docx"@ ==> format_of(path) == DocumentFormat::Docx,
        supported_document_path(path) && ascii_lower(text_or_empty(path_extension(path))) != "pdf"@
            && ascii_lower(text_or_empty(path_extension(path))) != "docx"@ ==> format_of(path) == DocumentFormat::Text,
{
    reveal_strlit("pdf");
    reveal_strlit("docx");
    assert("pdf"@.len() == 3 && "docx"@.len() == 4);
}

/// Whether extracting the document at `path` calls the PDF reader on `data`:
/// a PDF document whose bytes carry the PDF signature.
pub open spec fn needs_pdf_text(path: Seq<char>, data: Seq<u8>) -> bool {
    format_of(path) == DocumentFormat::Pdf && pdf_signature(data)
}

/// Whether extracting the document at `source_path` needs what the PDF reader
/// gives for `data`.
pub fn pdf_text_needed(source_path: &str, data: &[u8]) -> (r: bool)
    ensures
        r == needs_pdf_text(source_path@, data@),
{
    document_format(source_path) == DocumentFormat::Pdf && has_pdf_signature(data)
}

/// `r` is the extraction result for `outcome`, with the given path and the
/// fingerprint of `data` on success.
pub open spec fn document_matches(
    r: Result<ExtractedDocument, ExtractError>,
    outcome: Result<Seq<char>, ExtractError>,
    path: Seq<char>,
    data: Seq<u8>,
) -> bool {
    match r {
        Ok(doc) => {
            &&& outcome == Ok::<Seq<char>, ExtractError>(doc.text@)
            &&& doc.source_path@ == path
            &&& doc.content_fingerprint@ == fingerprint_of(data)
        },
        Err(e) => outcome == Err::<Seq<char>, ExtractError>(e),
    }
}

/// Extracts the text of the document at `source_path` from its bytes `data`:
/// the body is read by the document's format, then trimmed and held to the
/// limits; on success the document carries the path and the fingerprint of the
/// bytes.
pub fn extract_document_from_bytes(
    source_path: &str,
    data: &[u8],
    limits: ExtractionLimits,
    pdf_text: Option<Result<String, String>>,
) -> (r: Result<ExtractedDocument, ExtractError>)
    requires
        pdf_text is Some <==> needs_pdf_text(source_path@, data@),
    ensures
        r matches Ok(doc) ==> 0 < doc.text@.len() <= limits.max_characters
            && !is_white_space(doc.text@[0]) && !is_white_space(doc.text@.last())
            && doc.content_fingerprint@.len() == 64,
        format_of(source_path@) == DocumentFormat::Text ==> document_matches(
            r,
            finish_outcome(text_outcome(data@), limits.max_characters),
            source_path@,
            data@,
        ),
        format_of(source_path@) == DocumentFormat::Unsupported ==> r matches Err(
            ExtractError::UnsupportedFormat,
        ),
        format_of(source_path@) == DocumentFormat::Pdf ==> document_matches(
            r,
            finish_outcome(pdf_outcome(data@, pdf_text), limits.max_characters),
            source_path@,
            data@,
        ),
        format_of(source_path@) == DocumentFormat::Docx ==> exists|body: Result<Seq<char>, ExtractError>|
            docx_outcome(data@, body) && document_matches(
                r,
                finish_outcome(body, limits.max_characters),
                source_path@,
                data@,
            ),
{
    let fingerprint = content_fingerprint(data);
    let format = document_format(source_path);
    let body = match format {
        DocumentFormat::Text => decode_text(data),
        DocumentFormat::Pdf => extract_pdf(data, pdf_text),
        DocumentFormat::Docx => extract_docx(data),
        DocumentFormat::Unsupported => {
            return Err(ExtractError::UnsupportedFormat);
        },
    };
    let ghost body_view = text_result_view(body);
    let text = finish_text(body, limits);
    match text {
        Ok(text) => Ok(
            ExtractedDocument {
                source_path: source_path.to_owned(),
                text,
                content_fingerprint: fingerprint,
            },
        ),
        Err(e) => Err(e),
    }
}

} // verus!
