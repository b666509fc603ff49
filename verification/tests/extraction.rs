use std::io::Write;

use knowledge_index::docx::{docx_text_from_tokens, extract_docx, extract_docx_xml, DocxToken};
use knowledge_index::errors::ExtractError;
use knowledge_index::text::trim_white_space;
use knowledge_index::extraction::{
    decode_text, decode_utf16, document_format, extract_document_from_bytes, extract_pdf,
    has_pdf_signature, pdf_text_needed,
    finish_text, DocumentFormat, ExtractionLimits,
};

fn docx_with(members: &[(&str, &str)]) -> Vec<u8> {
    let mut cursor = std::io::Cursor::new(Vec::new());
    {
        let mut writer = zip::ZipWriter::new(&mut cursor);
        for (name, content) in members {
            writer
                .start_file(*name, zip::write::SimpleFileOptions::default())
                .unwrap();
            writer.write_all(content.as_bytes()).unwrap();
        }
        writer.finish().unwrap();
    }
    cursor.into_inner()
}

const BODY: &str = r#"<?xml version="1.0" encoding="UTF-8"?><w:document xmlns:w="http://schemas.openxmlformats.org/wordprocessingml/2006/main"><w:body><w:p><w:r><w:t>Hello</w:t></w:r><w:r><w:t xml:space="preserve"> there</w:t></w:r></w:p><w:p/><w:p><w:r><w:t>World</w:t></w:r></w:p></w:body></w:document>"#;

#[test]
fn default_limit_is_one_hundred_thousand_characters() {
    assert_eq!(ExtractionLimits::default().max_characters, 100_000);
}

#[test]
fn utf8_text_decodes_with_or_without_byte_order_mark() {
    assert_eq!(decode_text("héllo".as_bytes()).unwrap(), "héllo");
    assert_eq!(decode_text(b"\xef\xbb\xbfhi").unwrap(), "hi");
    assert_eq!(decode_text(b"").unwrap(), "");
    assert_eq!(decode_text(b"\xff\xff\xff"), Err(ExtractError::NotUtf8Text));
    assert_eq!(decode_text(b"\xef\xbb\xbf\xc3"), Err(ExtractError::NotUtf8Text));
}

#[test]
fn encoded_text_decodes_back_under_each_byte_order_mark() {
    for text in ["", "plain", "héllo 世界 \u{1F600}", "a\u{feff}b"] {
        let mut utf8 = vec![0xefu8, 0xbb, 0xbf];
        utf8.extend_from_slice(text.as_bytes());
        assert_eq!(decode_text(&utf8).unwrap(), text);
        assert_eq!(decode_text(text.as_bytes()).unwrap(), text);
        let mut little = vec![0xffu8, 0xfe];
        let mut big = vec![0xfeu8, 0xff];
        for unit in text.encode_utf16() {
            little.extend_from_slice(&unit.to_le_bytes());
            big.extend_from_slice(&unit.to_be_bytes());
        }
        assert_eq!(decode_text(&little).unwrap(), text);
        assert_eq!(decode_text(&big).unwrap(), text);
    }
    // Without a mark, a leading U+FEFF is read as the mark and dropped.
    assert_eq!(decode_text("\u{feff}x".as_bytes()).unwrap(), "x");
}

#[test]
fn utf16_text_decodes_by_its_byte_order_mark() {
    assert_eq!(decode_text(b"\xff\xfeh\x00i\x00").unwrap(), "hi");
    assert_eq!(decode_text(b"\xfe\xff\x00h\x00i").unwrap(), "hi");
    assert_eq!(decode_text(b"\xff\xfe\x3d\xd8\x00\xde").unwrap(), "\u{1F600}");
    assert_eq!(decode_text(b"\xff\xfeh\x00i"), Err(ExtractError::OddUtf16Length));
    assert_eq!(decode_text(b"\xff\xfe\x00\xd8"), Err(ExtractError::NotUtf16Text));
    assert_eq!(decode_utf16(b"\xdc\x00", false).unwrap_err(), ExtractError::NotUtf16Text);
}

#[test]
fn text_documents_are_trimmed_and_fingerprinted() {
    let doc = extract_document_from_bytes("notes/a.md", b"  hello \n", ExtractionLimits::default(), None)
        .unwrap();
    assert_eq!(doc.text, "hello");
    assert_eq!(doc.source_path, "notes/a.md");
    assert_eq!(
        doc.content_fingerprint,
        "6721bb9a07782a75279eab37e6adf926a57235790f81d8503407ee4d24f0a798"
    );
    let doc = extract_document_from_bytes("Dockerfile", b"FROM rust", ExtractionLimits::default(), None).unwrap();
    assert_eq!(doc.text, "FROM rust");
}

#[test]
fn empty_long_and_unknown_documents_are_refused() {
    let limits = ExtractionLimits { max_characters: 3 };
    assert_eq!(
        extract_document_from_bytes("a.txt", b" \n\t ", limits, None).unwrap_err(),
        ExtractError::EmptyText
    );
    assert_eq!(
        extract_document_from_bytes("a.txt", b"abcd", limits, None).unwrap_err(),
        ExtractError::TooLong
    );
    assert_eq!(extract_document_from_bytes("a.txt", b" abc ", limits, None).unwrap().text, "abc");
    assert_eq!(
        extract_document_from_bytes("a.png", b"abc", limits, None).unwrap_err(),
        ExtractError::UnsupportedFormat
    );
    assert_eq!(
        extract_document_from_bytes("a.txt", b"\xff", limits, None).unwrap_err(),
        ExtractError::NotUtf8Text
    );
}

#[test]
fn trimming_uses_unicode_white_space() {
    let limits = ExtractionLimits::default();
    assert_eq!(
        finish_text(Ok("\u{3000}\u{a0} text\u{2029}".to_string()), limits).unwrap(),
        "text"
    );
    assert_eq!(finish_text(Err(ExtractError::NotUtf8Text), limits), Err(ExtractError::NotUtf8Text));
}

#[test]
fn formats_follow_the_extension() {
    assert_eq!(document_format("a.TXT"), DocumentFormat::Text);
    assert_eq!(document_format("a.Pdf"), DocumentFormat::Pdf);
    assert_eq!(document_format("a.docx"), DocumentFormat::Docx);
    assert_eq!(document_format("Makefile"), DocumentFormat::Text);
    assert_eq!(document_format("a.exe"), DocumentFormat::Unsupported);
}

fn read_pdf(data: &[u8]) -> Result<String, String> {
    pdf_extract::extract_text_from_mem(data).map_err(|error| error.to_string())
}

#[test]
fn pdf_needs_its_signature() {
    assert!(!has_pdf_signature(b"hello"));
    assert!(has_pdf_signature(b"%PDF-1.7"));
    assert_eq!(extract_pdf(b"hello", None).unwrap_err(), ExtractError::PdfSignatureMismatch);
    let broken = b"%PDF-1.7 broken";
    assert!(matches!(extract_pdf(broken, Some(read_pdf(broken))), Err(ExtractError::PdfUnreadable(_))));
    assert!(!pdf_text_needed("a.pdf", b"not a pdf"));
    assert!(pdf_text_needed("a.PDF", broken));
    assert!(!pdf_text_needed("a.txt", broken));
    assert_eq!(
        extract_document_from_bytes("a.pdf", b"not a pdf", ExtractionLimits::default(), None).unwrap_err(),
        ExtractError::PdfSignatureMismatch
    );
}

#[test]
fn pdf_reader_text_is_trimmed_and_limited() {
    let data = b"%PDF-1.7";
    let doc = extract_document_from_bytes(
        "scan.pdf",
        data,
        ExtractionLimits::default(),
        Some(Ok("  page one \n".to_string())),
    )
    .unwrap();
    assert_eq!(doc.text, "page one");
    assert_eq!(
        extract_document_from_bytes("scan.pdf", data, ExtractionLimits::default(), Some(Err("bad".into())))
            .unwrap_err(),
        ExtractError::PdfUnreadable("bad".into())
    );
}

#[test]
fn docx_paragraphs_become_lines() {
    let data = docx_with(&[("word/document.xml", BODY)]);
    assert_eq!(extract_docx(&data).unwrap(), "Hello there\nWorld");
    let doc = extract_document_from_bytes("letter.DOCX", &data, ExtractionLimits::default(), None).unwrap();
    assert_eq!(doc.text, "Hello there\nWorld");
}

#[test]
fn docx_failures_are_reported() {
    assert_eq!(extract_docx(b"hello").unwrap_err(), ExtractError::DocxSignatureMismatch);
    assert!(matches!(extract_docx(b"PK not a zip"), Err(ExtractError::DocxUnreadable(_))));
    let data = docx_with(&[("word/other.xml", BODY)]);
    assert_eq!(extract_docx(&data).unwrap_err(), ExtractError::DocxMissingBody);
    assert!(matches!(extract_docx_xml("<w:t>a</w:x>"), Err(ExtractError::DocxInvalidXml(_))));
}

#[test]
fn docx_xml_keeps_only_text_runs() {
    assert_eq!(extract_docx_xml("<p><t>a</t>skip<t> b </t></p><p><t>c</t></p>").unwrap(), "a b \nc");
    assert_eq!(extract_docx_xml("").unwrap(), "");
    assert_eq!(
        extract_docx_xml(
            "<w:body><w:p><w:pPr>x</w:pPr><w:r><w:t>Hello</w:t></w:r></w:p><w:p><w:r><w:t>Wor</w:t><w:t>ld</w:t></w:r></w:p></w:body>"
        )
        .unwrap(),
        "Hello\nWorld"
    );
    assert!(matches!(extract_docx_xml("<t>a &bogus b</t>"), Err(ExtractError::DocxInvalidXml(_))));
}

#[test]
fn docx_tokens_give_text() {
    let tokens = vec![
        DocxToken::Start(b"p".to_vec()),
        DocxToken::Start(b"t".to_vec()),
        DocxToken::Text("one".into()),
        DocxToken::End(b"t".to_vec()),
        DocxToken::Text("ignored".into()),
        DocxToken::Start(b"p".to_vec()),
        DocxToken::Start(b"t".to_vec()),
        DocxToken::Text("two".into()),
        DocxToken::Eof,
        DocxToken::Text("after".into()),
    ];
    assert_eq!(docx_text_from_tokens(tokens).unwrap(), "one\ntwo");
    let failing = vec![
        DocxToken::Start(b"t".to_vec()),
        DocxToken::UndecodableText("bad".into()),
    ];
    assert_eq!(
        docx_text_from_tokens(failing).unwrap_err(),
        ExtractError::DocxTextDecode("bad".into())
    );
    assert_eq!(
        docx_text_from_tokens(vec![DocxToken::UndecodableText("x".into()), DocxToken::Eof]).unwrap(),
        ""
    );
    assert_eq!(
        docx_text_from_tokens(vec![DocxToken::Failed("broken".into())]).unwrap_err(),
        ExtractError::DocxInvalidXml("broken".into())
    );
}

#[test]
fn white_space_trimming_matches_str_trim() {
    for text in ["", "   ", "\u{3000} a b\t\n", "x", "\u{85}\u{a0}mid dle\u{2029}", "\u{200b}kept\u{200b}"] {
        assert_eq!(trim_white_space(text), text.trim());
    }
}

fn quick_xml_error(xml: &str) -> String {
    let mut reader = quick_xml::Reader::from_str(xml);
    reader.config_mut().trim_text(false);
    loop {
        match reader.read_event() {
            Ok(quick_xml::events::Event::Eof) => panic!("no reader error"),
            Ok(_) => {}
            Err(error) => return error.to_string(),
        }
    }
}

#[test]
fn docx_errors_carry_the_readers_messages() {
    let xml = "<w:body><w:p><w:t>x</w:p></w:body>";
    assert_eq!(extract_docx_xml(xml), Err(ExtractError::DocxInvalidXml(quick_xml_error(xml))));
    let data: &[u8] = b"PK not a zip";
    let zip_message = match zip::ZipArchive::new(std::io::Cursor::new(data)) {
        Ok(_) => panic!("opened"),
        Err(error) => error.to_string(),
    };
    assert_eq!(extract_docx(data), Err(ExtractError::DocxUnreadable(zip_message)));
}
