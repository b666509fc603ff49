use vstd::prelude::*;

verus! {

/// Why a document's text could not be extracted.
#[derive(Debug, PartialEq, Eq)]
pub enum ExtractError {
    /// The bytes are not valid UTF-8 text.
    NotUtf8Text,
    /// A UTF-16 text has an odd number of bytes.
    OddUtf16Length,
    /// The bytes are not valid UTF-16 text.
    NotUtf16Text,
    /// A `.pdf` file does not start with `%PDF-`.
    PdfSignatureMismatch,
    /// The PDF is encrypted, damaged or its text cannot be extracted.
    PdfUnreadable(String),
    /// A `.docx` file does not start with `PK`.
    DocxSignatureMismatch,
    /// The DOCX archive cannot be opened.
    DocxUnreadable(String),
    /// The DOCX archive has no `word/document.xml`.
    DocxMissingBody,
    /// `word/document.xml` is not UTF-8 text.
    DocxBodyNotUtf8(String),
    /// A text run of the body cannot be decoded.
    DocxTextDecode(String),
    /// The body is not well-formed XML.
    DocxInvalidXml(String),
    /// The file's format is not one the extractor reads.
    UnsupportedFormat,
    /// The extracted text is empty once trimmed.
    EmptyText,
    /// The extracted text is longer than the limit allows.
    TooLong,
}

} // verus!
