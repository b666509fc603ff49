use knowledge_index::document_types::{
    document_language, is_supported_name_and_extension, is_supported_text_document,
    language_for_name_and_extension,
};

#[test]
fn build_files_are_supported_whatever_their_case() {
    assert!(is_supported_text_document("project/Dockerfile"));
    assert!(is_supported_text_document("project/MAKEFILE"));
    assert!(is_supported_text_document("project/CMakeLists.txt"));
    assert!(is_supported_name_and_extension("Dockerfile", ""));
}

#[test]
fn supported_extensions_ignore_ascii_case() {
    assert!(is_supported_text_document("notes/README.MD"));
    assert!(is_supported_text_document("src/main.rs"));
    assert!(is_supported_text_document("report.PDF"));
    assert!(is_supported_text_document("letter.docx"));
    assert!(is_supported_text_document("config/app.properties"));
    assert!(is_supported_name_and_extension("x.Yml", "Yml"));
}

#[test]
fn other_files_are_not_supported() {
    assert!(!is_supported_text_document("photo.png"));
    assert!(!is_supported_text_document("archive.tar.gz"));
    assert!(!is_supported_text_document(".bashrc"));
    assert!(!is_supported_text_document("notes/README"));
    assert!(!is_supported_text_document(""));
    assert!(!is_supported_name_and_extension("photo.png", "png"));
}

#[test]
fn languages_follow_name_and_extension() {
    assert_eq!(document_language("build/Dockerfile"), Some("Dockerfile"));
    assert_eq!(document_language("Makefile"), Some("Makefile"));
    assert_eq!(document_language("cmakelists.TXT"), Some("CMake"));
    assert_eq!(document_language("a.txt"), Some("Plain text"));
    assert_eq!(document_language("a.md"), Some("Markdown"));
    assert_eq!(document_language("a.pdf"), Some("PDF"));
    assert_eq!(document_language("a.docx"), Some("DOCX"));
    assert_eq!(document_language("a.H"), Some("C"));
    assert_eq!(document_language("a.hpp"), Some("C++"));
    assert_eq!(document_language("a.cs"), Some("C#"));
    assert_eq!(document_language("a.kts"), Some("Kotlin"));
    assert_eq!(document_language("a.pyw"), Some("Python"));
    assert_eq!(document_language("a.mjs"), Some("JavaScript"));
    assert_eq!(document_language("a.tsx"), Some("TypeScript"));
    assert_eq!(document_language("a.R"), Some("R"));
    assert_eq!(document_language("a.fish"), Some("Shell"));
    assert_eq!(document_language("a.ps1"), Some("PowerShell"));
    assert_eq!(document_language("a.htm"), Some("HTML"));
    assert_eq!(document_language("a.less"), Some("CSS"));
    assert_eq!(document_language("a.jsonc"), Some("JSON"));
    assert_eq!(document_language("a.yml"), Some("YAML"));
    assert_eq!(document_language("a.toml"), Some("TOML"));
    assert_eq!(document_language("a.xml"), Some("XML"));
    assert_eq!(document_language("a.conf"), Some("Configuration"));
    assert_eq!(document_language("a.png"), None);
    assert_eq!(language_for_name_and_extension("Main.JAVA", "JAVA"), Some("Java"));
}

#[test]
fn a_language_is_known_exactly_for_supported_documents() {
    let paths = [
        "a.txt", "b.MD", "Dockerfile", "Makefile", "CMakeLists.txt", "c.png", "d", ".e", "f.tar.gz",
        "g.Rs", "h.sql", "i.swift", "j.dart", "k.lua", "l.rb", "m.php", "n.go", "o.ini", "p.",
    ];
    for path in paths {
        assert_eq!(document_language(path).is_some(), is_supported_text_document(path), "{path}");
    }
}
