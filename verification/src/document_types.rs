use vstd::prelude::*;

use crate::path_names::{extension_or_empty, file_name_or_empty, path_extension, path_file_name, text_or_empty};
use crate::text::{ascii_lower, ascii_lowercase_chars, chars_equal};

verus! {

/// Lowercased file names that mark a text document whatever their extension.
pub open spec fn is_build_file_name(name: Seq<char>) -> bool {
    ||| name == "dockerfile"@
    ||| name == "makefile"@
    ||| name == "cmakelists.txt"@
}

/// Lowercased extensions of the text documents the extractor reads.
pub open spec fn is_supported_extension(ext: Seq<char>) -> bool {
    ||| ext == "txt"@
    ||| ext == "md"@
    ||| ext == "pdf"@
    ||| ext == "docx"@
    ||| ext == "c"@
    ||| ext == "h"@
    ||| ext == "cc"@
    ||| ext == "cpp"@
    ||| ext == "cxx"@
    ||| ext == "hpp"@
    ||| ext == "hxx"@
    ||| ext == "cs"@
    ||| ext == "java"@
    ||| ext == "kt"@
    ||| ext == "kts"@
    ||| ext == "go"@
    ||| ext == "rs"@
    ||| ext == "py"@
    ||| ext == "pyw"@
    ||| ext == "js"@
    ||| ext == "jsx"@
    ||| ext == "mjs"@
    ||| ext == "cjs"@
    ||| ext == "ts"@
    ||| ext == "tsx"@
    ||| ext == "php"@
    ||| ext == "rb"@
    ||| ext == "swift"@
    ||| ext == "dart"@
    ||| ext == "lua"@
    ||| ext == "r"@
    ||| ext == "sh"@
    ||| ext == "bash"@
    ||| ext == "zsh"@
    ||| ext == "fish"@
    ||| ext == "ps1"@
    ||| ext == "sql"@
    ||| ext == "html"@
    ||| ext == "htm"@
    ||| ext == "css"@
    ||| ext == "scss"@
    ||| ext == "less"@
    ||| ext == "json"@
    ||| ext == "jsonc"@
    ||| ext == "yaml"@
    ||| ext == "yml"@
    ||| ext == "toml"@
    ||| ext == "xml"@
    ||| ext == "ini"@
    ||| ext == "conf"@
    ||| ext == "properties"@
}

/// Whether a file with this (not yet lowercased) name and extension is a
/// supported text document.
pub open spec fn supported_name_and_extension(name: Seq<char>, ext: Seq<char>) -> bool {
    is_build_file_name(ascii_lower(name)) || is_supported_extension(ascii_lower(ext))
}

/// Whether the document at `path` is a supported text document.
pub open spec fn supported_document_path(path: Seq<char>) -> bool {
    supported_name_and_extension(
        text_or_empty(path_file_name(path)),
        text_or_empty(path_extension(path)),
    )
}

/// The display language of a document, from its lowercased file name and extension.
pub open spec fn language_of(name: Seq<char>, ext: Seq<char>) -> Option<Seq<char>> {
    if name == "dockerfile"@ {
        Some("Dockerfile"@)
    } else if name == "makefile"@ {
        Some("Makefile"@)
    } else if name == "cmakelists.txt"@ {
        Some("CMake"@)
    } else if ext == "txt"@ {
        Some("Plain text"@)
    } else if ext == "md"@ {
        Some("Markdown"@)
    } else if ext == "pdf"@ {
        Some("PDF"@)
    } else if ext == "docx"@ {
        Some("DOCX"@)
    } else if ext == "c"@ || ext == "h"@ {
        Some("C"@)
    } else if ext == "cc"@ || ext == "cpp"@ || ext == "cxx"@ || ext == "hpp"@ || ext == "hxx"@ {
        Some("C++"@)
    } else if ext == "cs"@ {
        Some("C#"@)
    } else if ext == "java"@ {
        Some("Java"@)
    } else if ext == "kt"@ || ext == "kts"@ {
        Some("Kotlin"@)
    } else if ext == "go"@ {
        Some("Go"@)
    } else if ext == "rs"@ {
        Some("Rust"@)
    } else if ext == "py"@ || ext == "pyw"@ {
        Some("Python"@)
    } else if ext == "js"@ || ext == "jsx"@ || ext == "mjs"@ || ext == "cjs"@ {
        Some("JavaScript"@)
    } else if ext == "ts"@ || ext == "tsx"@ {
        Some("TypeScript"@)
    } else if ext == "php"@ {
        Some("PHP"@)
    } else if ext == "rb"@ {
        Some("Ruby"@)
    } else if ext == "swift"@ {
        Some("Swift"@)
    } else if ext == "dart"@ {
        Some("Dart"@)
    } else if ext == "lua"@ {
        Some("Lua"@)
    } else if ext == "r"@ {
        Some("R"@)
    } else if ext == "sh"@ || ext == "bash"@ || ext == "zsh"@ || ext == "fish"@ {
        Some("Shell"@)
    } else if ext == "ps1"@ {
        Some("PowerShell"@)
    } else if ext == "sql"@ {
        Some("SQL"@)
    } else if ext == "html"@ || ext == "htm"@ {
        Some("HTML"@)
    } else if ext == "css"@ || ext == "scss"@ || ext == "less"@ {
        Some("CSS"@)
    } else if ext == "json"@ || ext == "jsonc"@ {
        Some("JSON"@)
    } else if ext == "yaml"@ || ext == "yml"@ {
        Some("YAML"@)
    } else if ext == "toml"@ {
        Some("TOML"@)
    } else if ext == "xml"@ {
        Some("XML"@)
    } else if ext == "ini"@ || ext == "conf"@ || ext == "properties"@ {
        Some("Configuration"@)
    } else {
        None
    }
}

/// The display language for a (not yet lowercased) name and extension.
pub open spec fn language_of_name_and_extension(name: Seq<char>, ext: Seq<char>) -> Option<Seq<char>> {
    language_of(ascii_lower(name), ascii_lower(ext))
}

/// The display language of the document at `path`.
pub open spec fn document_language_of_path(path: Seq<char>) -> Option<Seq<char>> {
    language_of_name_and_extension(
        text_or_empty(path_file_name(path)),
        text_or_empty(path_extension(path)),
    )
}

/// The view of an optional string slice.
pub open spec fn str_option_view(o: Option<&str>) -> Option<Seq<char>> {
    match o {
        Some(s) => Some(s@),
        None => None,
    }
}

fn build_file_name_matches(name: &Vec<char>) -> (r: bool)
    ensures
        r == is_build_file_name(name@),
{
    chars_equal(name.as_slice(), "dockerfile") || chars_equal(name.as_slice(), "makefile")
        || chars_equal(name.as_slice(), "cmakelists.txt")
}

pub(crate) fn supported_extension_matches(ext: &Vec<char>) -> (r: bool)
    ensures
        r == is_supported_extension(ext@),
{
    let e = ext.as_slice();
    chars_equal(e, "txt")
        || chars_equal(e, "md")
        || chars_equal(e, "pdf")
        || chars_equal(e, "docx")
        || chars_equal(e, "c")
        || chars_equal(e, "h")
        || chars_equal(e, "cc")
        || chars_equal(e, "cpp")
        || chars_equal(e, "cxx")
        || chars_equal(e, "hpp")
        || chars_equal(e, "hxx")
        || chars_equal(e, "cs")
        || chars_equal(e, "java")
        || chars_equal(e, "kt")
        || chars_equal(e, "kts")
        || chars_equal(e, "go")
        || chars_equal(e, "rs")
        || chars_equal(e, "py")
        || chars_equal(e, "pyw")
        || chars_equal(e, "js")
        || chars_equal(e, "jsx")
        || chars_equal(e, "mjs")
        || chars_equal(e, "cjs")
        || chars_equal(e, "ts")
        || chars_equal(e, "tsx")
        || chars_equal(e, "php")
        || chars_equal(e, "rb")
        || chars_equal(e, "swift")
        || chars_equal(e, "dart")
        || chars_equal(e, "lua")
        || chars_equal(e, "r")
        || chars_equal(e, "sh")
        || chars_equal(e, "bash")
        || chars_equal(e, "zsh")
        || chars_equal(e, "fish")
        || chars_equal(e, "ps1")
        || chars_equal(e, "sql")
        || chars_equal(e, "html")
        || chars_equal(e, "htm")
        || chars_equal(e, "css")
        || chars_equal(e, "scss")
        || chars_equal(e, "less")
        || chars_equal(e, "json")
        || chars_equal(e, "jsonc")
        || chars_equal(e, "yaml")
        || chars_equal(e, "yml")
        || chars_equal(e, "toml")
        || chars_equal(e, "xml")
        || chars_equal(e, "ini")
        || chars_equal(e, "conf")
        || chars_equal(e, "properties")
}

/// Whether a file with the given name and extension (both as the path gives
/// them, before lowercasing) is a supported text document: a build file name
/// (`Dockerfile`, `Makefile`, `CMakeLists.txt`) or one of the supported extensions,
/// compared without regard to ASCII case.
pub fn is_supported_name_and_extension(file_name: &str, extension: &str) -> (r: bool)
    ensures
        r == supported_name_and_extension(file_name@, extension@),
{
    let name = ascii_lowercase_chars(file_name);
    if build_file_name_matches(&name) {
        return true;
    }
    let ext = ascii_lowercase_chars(extension);
    supported_extension_matches(&ext)
}

/// Whether the document at `path` is a text document that the extractor supports.
pub fn is_supported_text_document(path: &str) -> (r: bool)
    ensures
        r == supported_document_path(path@),
{
    let name = file_name_or_empty(path);
    let ext = extension_or_empty(path);
    is_supported_name_and_extension(name.as_str(), ext.as_str())
}

fn language_lookup(name: &Vec<char>, ext: &Vec<char>) -> (r: Option<&'static str>)
    ensures
        str_option_view(r) == language_of(name@, ext@),
{
    let n = name.as_slice();
    let e = ext.as_slice();
    if chars_equal(n, "dockerfile") {
        Some("Dockerfile")
    } else if chars_equal(n, "makefile") {
        Some("Makefile")
    } else if chars_equal(n, "cmakelists.txt") {
        Some("CMake")
    } else if chars_equal(e, "txt") {
        Some("Plain text")
    } else if chars_equal(e, "md") {
        Some("Markdown")
    } else if chars_equal(e, "pdf") {
        Some("PDF")
    } else if chars_equal(e, "docx") {
        Some("DOCX")
    } else if chars_equal(e, "c") || chars_equal(e, "h") {
        Some("C")
    } else if chars_equal(e, "cc") || chars_equal(e, "cpp") || chars_equal(e, "cxx") || chars_equal(e, "hpp") || chars_equal(e, "hxx") {
        Some("C++")
    } else if chars_equal(e, "cs") {
        Some("C#")
    } else if chars_equal(e, "java") {
        Some("Java")
    } else if chars_equal(e, "kt") || chars_equal(e, "kts") {
        Some("Kotlin")
    } else if chars_equal(e, "go") {
        Some("Go")
    } else if chars_equal(e, "rs") {
        Some("Rust")
    } else if chars_equal(e, "py") || chars_equal(e, "pyw") {
        Some("Python")
    } else if chars_equal(e, "js") || chars_equal(e, "jsx") || chars_equal(e, "mjs") || chars_equal(e, "cjs") {
        Some("JavaScript")
    } else if chars_equal(e, "ts") || chars_equal(e, "tsx") {
        Some("TypeScript")
    } else if chars_equal(e, "php") {
        Some("PHP")
    } else if chars_equal(e, "rb") {
        Some("Ruby")
    } else if chars_equal(e, "swift") {
        Some("Swift")
    } else if chars_equal(e, "dart") {
        Some("Dart")
    } else if chars_equal(e, "lua") {
        Some("Lua")
    } else if chars_equal(e, "r") {
        Some("R")
    } else if chars_equal(e, "sh") || chars_equal(e, "bash") || chars_equal(e, "zsh") || chars_equal(e, "fish") {
        Some("Shell")
    } else if chars_equal(e, "ps1") {
        Some("PowerShell")
    } else if chars_equal(e, "sql") {
        Some("SQL")
    } else if chars_equal(e, "html") || chars_equal(e, "htm") {
        Some("HTML")
    } else if chars_equal(e, "css") || chars_equal(e, "scss") || chars_equal(e, "less") {
        Some("CSS")
    } else if chars_equal(e, "json") || chars_equal(e, "jsonc") {
        Some("JSON")
    } else if chars_equal(e, "yaml") || chars_equal(e, "yml") {
        Some("YAML")
    } else if chars_equal(e, "toml") {
        Some("TOML")
    } else if chars_equal(e, "xml") {
        Some("XML")
    } else if chars_equal(e, "ini") || chars_equal(e, "conf") || chars_equal(e, "properties") {
        Some("Configuration")
    } else {
        None
    }
}

/// The display language for a file with the given name and extension (both as
/// the path gives them), compared without regard to ASCII case.
pub fn language_for_name_and_extension(file_name: &str, extension: &str) -> (r: Option<&'static str>)
    ensures
        str_option_view(r) == language_of_name_and_extension(file_name@, extension@),
{
    let name = ascii_lowercase_chars(file_name);
    let ext = ascii_lowercase_chars(extension);
    language_lookup(&name, &ext)
}

/// The display language of the document at `path`, or `None` for a file that
/// is not a supported text document.
pub fn document_language(path: &str) -> (r: Option<&'static str>)
    ensures
        str_option_view(r) == document_language_of_path(path@),
{
    let name = file_name_or_empty(path);
    let ext = extension_or_empty(path);
    language_for_name_and_extension(name.as_str(), ext.as_str())
}

/// Whether a file is supported, and its language, depend on its name and
/// extension only up to ASCII case.
pub proof fn lemma_ascii_case_does_not_matter(name1: Seq<char>, ext1: Seq<char>, name2: Seq<char>, ext2: Seq<char>)
    requires
        ascii_lower(name1) == ascii_lower(name2),
        ascii_lower(ext1) == ascii_lower(ext2),
    ensures
        supported_name_and_extension(name1, ext1) == supported_name_and_extension(name2, ext2),
        language_of_name_and_extension(name1, ext1) == language_of_name_and_extension(name2, ext2),
{
}

/// Two paths whose file names and extensions differ only in ASCII case are
/// both supported or both not, with the same language.
pub proof fn lemma_paths_differing_in_case(path1: Seq<char>, path2: Seq<char>)
    requires
        ascii_lower(text_or_empty(path_file_name(path1))) == ascii_lower(text_or_empty(path_file_name(path2))),
        ascii_lower(text_or_empty(path_extension(path1))) == ascii_lower(text_or_empty(path_extension(path2))),
    ensures
        supported_document_path(path1) == supported_document_path(path2),
        document_language_of_path(path1) == document_language_of_path(path2),
{
}

/// A document has a display language exactly when it is a supported text document.
pub proof fn lemma_language_known_iff_supported(path: Seq<char>)
    ensures
        document_language_of_path(path) is Some <==> supported_document_path(path),
{
}

/// The documented table of supported documents and their display languages:
/// a file whose name is not a build file name is supported, with the listed
/// language, when its extension is one of these, in any ASCII case.
pub proof fn lemma_documented_languages(name: Seq<char>, ext: Seq<char>)
    requires
        !is_build_file_name(ascii_lower(name)),
    ensures
        ascii_lower(ext) == "txt"@ ==> supported_name_and_extension(name, ext)
            && language_of_name_and_extension(name, ext) == Some("Plain text"@),
        ascii_lower(ext) == "md"@ ==> supported_name_and_extension(name, ext)
            && language_of_name_and_extension(name, ext) == Some("Markdown"@),
        ascii_lower(ext) == "pdf"@ ==> supported_name_and_extension(name, ext)
            && language_of_name_and_extension(name, ext) == Some("PDF"@),
        ascii_lower(ext) == "docx"@ ==> supported_name_and_extension(name, ext)
            && language_of_name_and_extension(name, ext) == Some("DOCX"@),
        ascii_lower(ext) == "c"@ ==> supported_name_and_extension(name, ext)
            && language_of_name_and_extension(name, ext) == Some("C"@),
        ascii_lower(ext) == "h"@ ==> supported_name_and_extension(name, ext)
            && language_of_name_and_extension(name, ext) == Some("C"@),
        ascii_lower(ext) == "cc"@ ==> supported_name_and_extension(name, ext)
            && language_of_name_and_extension(name, ext) == Some("C++"@),
        ascii_lower(ext) == "cpp"@ ==> supported_name_and_extension(name, ext)
            && language_of_name_and_extension(name, ext) == Some("C++"@),
        ascii_lower(ext) == "cxx"@ ==> supported_name_and_extension(name, ext)
            && language_of_name_and_extension(name, ext) == Some("C++"@),
        ascii_lower(ext) == "hpp"@ ==> supported_name_and_extension(name, ext)
            && language_of_name_and_extension(name, ext) == Some("C++"@),
        ascii_lower(ext) == "hxx"@ ==> supported_name_and_extension(name, ext)
            && language_of_name_and_extension(name, ext) == Some("C++"@),
        ascii_lower(ext) == "cs"@ ==> supported_name_and_extension(name, ext)
            && language_of_name_and_extension(name, ext) == Some("C#"@),
        ascii_lower(ext) == "java"@ ==> supported_name_and_extension(name, ext)
            && language_of_name_and_extension(name, ext) == Some("Java"@),
        ascii_lower(ext) == "kt"@ ==> supported_name_and_extension(name, ext)
            && language_of_name_and_extension(name, ext) == Some("Kotlin"@),
        ascii_lower(ext) == "kts"@ ==> supported_name_and_extension(name, ext)
            && language_of_name_and_extension(name, ext) == Some("Kotlin"@),
        ascii_lower(ext) == "go"@ ==> supported_name_and_extension(name, ext)
            && language_of_name_and_extension(name, ext) == Some("Go"@),
        ascii_lower(ext) == "rs"@ ==> supported_name_and_extension(name, ext)
            && language_of_name_and_extension(name, ext) == Some("Rust"@),
        ascii_lower(ext) == "py"@ ==> supported_name_and_extension(name, ext)
            && language_of_name_and_extension(name, ext) == Some("Python"@),
        ascii_lower(ext) == "pyw"@ ==> supported_name_and_extension(name, ext)
            && language_of_name_and_extension(name, ext) == Some("Python"@),
        ascii_lower(ext) == "js"@ ==> supported_name_and_extension(name, ext)
            && language_of_name_and_extension(name, ext) == Some("JavaScript"@),
        ascii_lower(ext) == "jsx"@ ==> supported_name_and_extension(name, ext)
            && language_of_name_and_extension(name, ext) == Some("JavaScript"@),
        ascii_lower(ext) == "mjs"@ ==> supported_name_and_extension(name, ext)
            && language_of_name_and_extension(name, ext) == Some("JavaScript"@),
        ascii_lower(ext) == "cjs"@ ==> supported_name_and_extension(name, ext)
            && language_of_name_and_extension(name, ext) == Some("JavaScript"@),
        ascii_lower(ext) == "ts"@ ==> supported_name_and_extension(name, ext)
            && language_of_name_and_extension(name, ext) == Some("TypeScript"@),
        ascii_lower(ext) == "tsx"@ ==> supported_name_and_extension(name, ext)
            && language_of_name_and_extension(name, ext) == Some("TypeScript"@),
        ascii_lower(ext) == "php"@ ==> supported_name_and_extension(name, ext)
            && language_of_name_and_extension(name, ext) == Some("PHP"@),
        ascii_lower(ext) == "rb"@ ==> supported_name_and_extension(name, ext)
            && language_of_name_and_extension(name, ext) == Some("Ruby"@),
        ascii_lower(ext) == "swift"@ ==> supported_name_and_extension(name, ext)
            && language_of_name_and_extension(name, ext) == Some("Swift"@),
        ascii_lower(ext) == "dart"@ ==> supported_name_and_extension(name, ext)
            && language_of_name_and_extension(name, ext) == Some("Dart"@),
        ascii_lower(ext) == "lua"@ ==> supported_name_and_extension(name, ext)
            && language_of_name_and_extension(name, ext) == Some("Lua"@),
        ascii_lower(ext) == "r"@ ==> supported_name_and_extension(name, ext)
            && language_of_name_and_extension(name, ext) == Some("R"@),
        ascii_lower(ext) == "sh"@ ==> supported_name_and_extension(name, ext)
            && language_of_name_and_extension(name, ext) == Some("Shell"@),
        ascii_lower(ext) == "bash"@ ==> supported_name_and_extension(name, ext)
            && language_of_name_and_extension(name, ext) == Some("Shell"@),
        ascii_lower(ext) == "zsh"@ ==> supported_name_and_extension(name, ext)
            && language_of_name_and_extension(name, ext) == Some("Shell"@),
        ascii_lower(ext) == "fish"@ ==> supported_name_and_extension(name, ext)
            && language_of_name_and_extension(name, ext) == Some("Shell"@),
        ascii_lower(ext) == "ps1"@ ==> supported_name_and_extension(name, ext)
            && language_of_name_and_extension(name, ext) == Some("PowerShell"@),
        ascii_lower(ext) == "sql"@ ==> supported_name_and_extension(name, ext)
            && language_of_name_and_extension(name, ext) == Some("SQL"@),
        ascii_lower(ext) == "html"@ ==> supported_name_and_extension(name, ext)
            && language_of_name_and_extension(name, ext) == Some("HTML"@),
        ascii_lower(ext) == "htm"@ ==> supported_name_and_extension(name, ext)
            && language_of_name_and_extension(name, ext) == Some("HTML"@),
        ascii_lower(ext) == "css"@ ==> supported_name_and_extension(name, ext)
            && language_of_name_and_extension(name, ext) == Some("CSS"@),
        ascii_lower(ext) == "scss"@ ==> supported_name_and_extension(name, ext)
            && language_of_name_and_extension(name, ext) == Some("CSS"@),
        ascii_lower(ext) == "less"@ ==> supported_name_and_extension(name, ext)
            && language_of_name_and_extension(name, ext) == Some("CSS"@),
        ascii_lower(ext) == "json"@ ==> supported_name_and_extension(name, ext)
            && language_of_name_and_extension(name, ext) == Some("JSON"@),
        ascii_lower(ext) == "jsonc"@ ==> supported_name_and_extension(name, ext)
            && language_of_name_and_extension(name, ext) == Some("JSON"@),
        ascii_lower(ext) == "yaml"@ ==> supported_name_and_extension(name, ext)
            && language_of_name_and_extension(name, ext) == Some("YAML"@),
        ascii_lower(ext) == "yml"@ ==> supported_name_and_extension(name, ext)
            && language_of_name_and_extension(name, ext) == Some("YAML"@),
        ascii_lower(ext) == "toml"@ ==> supported_name_and_extension(name, ext)
            && language_of_name_and_extension(name, ext) == Some("TOML"@),
        ascii_lower(ext) == "xml"@ ==> supported_name_and_extension(name, ext)
            && language_of_name_and_extension(name, ext) == Some("XML"@),
        ascii_lower(ext) == "ini"@ ==> supported_name_and_extension(name, ext)
            && language_of_name_and_extension(name, ext) == Some("Configuration"@),
        ascii_lower(ext) == "conf"@ ==> supported_name_and_extension(name, ext)
            && language_of_name_and_extension(name, ext) == Some("Configuration"@),
        ascii_lower(ext) == "properties"@ ==> supported_name_and_extension(name, ext)
            && language_of_name_and_extension(name, ext) == Some("Configuration"@),
{
    reveal_strlit("C");
    assert("C"@ =~= seq!['C']);
    reveal_strlit("C#");
    assert("C#"@ =~= seq!['C', '#']);
    reveal_strlit("C++");
    assert("C++"@ =~= seq!['C', '+', '+']);
    reveal_strlit("CSS");
    assert("CSS"@ =~= seq!['C', 'S', 'S']);
    reveal_strlit("Configuration");
    assert("Configuration"@ =~= seq!['C', 'o', 'n', 'f', 'i', 'g', 'u', 'r', 'a', 't', 'i', 'o', 'n']);
    reveal_strlit("DOCX");
    assert("DOCX"@ =~= seq!['D', 'O', 'C', 'X']);
    reveal_strlit("Dart");
    assert("Dart"@ =~= seq!['D', 'a', 'r', 't']);
    reveal_strlit("Go");
    assert("Go"@ =~= seq!['G', 'o']);
    reveal_strlit("HTML");
    assert("HTML"@ =~= seq!['H', 'T', 'M', 'L']);
    reveal_strlit("JSON");
    assert("JSON"@ =~= seq!['J', 'S', 'O', 'N']);
    reveal_strlit("Java");
    assert("Java"@ =~= seq!['J', 'a', 'v', 'a']);
    reveal_strlit("JavaScript");
    assert("JavaScript"@ =~= seq!['J', 'a', 'v', 'a', 'S', 'c', 'r', 'i', 'p', 't']);
    reveal_strlit("Kotlin");
    assert("Kotlin"@ =~= seq!['K', 'o', 't', 'l', 'i', 'n']);
    reveal_strlit("Lua");
    assert("Lua"@ =~= seq!['L', 'u', 'a']);
    reveal_strlit("Markdown");
    assert("Markdown"@ =~= seq!['M', 'a', 'r', 'k', 'd', 'o', 'w', 'n']);
    reveal_strlit("PDF");
    assert("PDF"@ =~= seq!['P', 'D', 'F']);
    reveal_strlit("PHP");
    assert("PHP"@ =~= seq!['P', 'H', 'P']);
    reveal_strlit("Plain text");
    assert("Plain text"@ =~= seq!['P', 'l', 'a', 'i', 'n', ' ', 't', 'e', 'x', 't']);
    reveal_strlit("PowerShell");
    assert("PowerShell"@ =~= seq!['P', 'o', 'w', 'e', 'r', 'S', 'h', 'e', 'l', 'l']);
    reveal_strlit("Python");
    assert("Python"@ =~= seq!['P', 'y', 't', 'h', 'o', 'n']);
    reveal_strlit("R");
    assert("R"@ =~= seq!['R']);
    reveal_strlit("Ruby");
    assert("Ruby"@ =~= seq!['R', 'u', 'b', 'y']);
    reveal_strlit("Rust");
    assert("Rust"@ =~= seq!['R', 'u', 's', 't']);
    reveal_strlit("SQL");
    assert("SQL"@ =~= seq!['S', 'Q', 'L']);
    reveal_strlit("Shell");
    assert("Shell"@ =~= seq!['S', 'h', 'e', 'l', 'l']);
    reveal_strlit("Swift");
    assert("Swift"@ =~= seq!['S', 'w', 'i', 'f', 't']);
    reveal_strlit("TOML");
    assert("TOML"@ =~= seq!['T', 'O', 'M', 'L']);
    reveal_strlit("TypeScript");
    assert("TypeScript"@ =~= seq!['T', 'y', 'p', 'e', 'S', 'c', 'r', 'i', 'p', 't']);
    reveal_strlit("XML");
    assert("XML"@ =~= seq!['X', 'M', 'L']);
    reveal_strlit("YAML");
    assert("YAML"@ =~= seq!['Y', 'A', 'M', 'L']);
    reveal_strlit("bash");
    assert("bash"@ =~= seq!['b', 'a', 's', 'h']);
    reveal_strlit("c");
    assert("c"@ =~= seq!['c']);
    reveal_strlit("cc");
    assert("cc"@ =~= seq!['c', 'c']);
    reveal_strlit("cjs");
    assert("cjs"@ =~= seq!['c', 'j', 's']);
    reveal_strlit("cmakelists.txt");
    assert("cmakelists.txt"@ =~= seq!['c', 'm', 'a', 'k', 'e', 'l', 'i', 's', 't', 's', '.', 't', 'x', 't']);
    reveal_strlit("conf");
    assert("conf"@ =~= seq!['c', 'o', 'n', 'f']);
    reveal_strlit("cpp");
    assert("cpp"@ =~= seq!['c', 'p', 'p']);
    reveal_strlit("cs");
    assert("cs"@ =~= seq!['c', 's']);
    reveal_strlit("css");
    assert("css"@ =~= seq!['c', 's', 's']);
    reveal_strlit("cxx");
    assert("cxx"@ =~= seq!['c', 'x', 'x']);
    reveal_strlit("dart");
    assert("dart"@ =~= seq!['d', 'a', 'r', 't']);
    reveal_strlit("dockerfile");
    assert("dockerfile"@ =~= seq!['d', 'o', 'c', 'k', 'e', 'r', 'f', 'i', 'l', 'e']);
    reveal_strlit("docx");
    assert("docx"@ =~= seq!['d', 'o', 'c', 'x']);
    reveal_strlit("fish");
    assert("fish"@ =~= seq!['f', 'i', 's', 'h']);
    reveal_strlit("go");
    assert("go"@ =~= seq!['g', 'o']);
    reveal_strlit("h");
    assert("h"@ =~= seq!['h']);
    reveal_strlit("hpp");
    assert("hpp"@ =~= seq!['h', 'p', 'p']);
    reveal_strlit("htm");
    assert("htm"@ =~= seq!['h', 't', 'm']);
    reveal_strlit("html");
    assert("html"@ =~= seq!['h', 't', 'm', 'l']);
    reveal_strlit("hxx");
    assert("hxx"@ =~= seq!['h', 'x', 'x']);
    reveal_strlit("ini");
    assert("ini"@ =~= seq!['i', 'n', 'i']);
    reveal_strlit("java");
    assert("java"@ =~= seq!['j', 'a', 'v', 'a']);
    reveal_strlit("js");
    assert("js"@ =~= seq!['j', 's']);
    reveal_strlit("json");
    assert("json"@ =~= seq!['j', 's', 'o', 'n']);
    reveal_strlit("jsonc");
    assert("jsonc"@ =~= seq!['j', 's', 'o', 'n', 'c']);
    reveal_strlit("jsx");
    assert("jsx"@ =~= seq!['j', 's', 'x']);
    reveal_strlit("kt");
    assert("kt"@ =~= seq!['k', 't']);
    reveal_strlit("kts");
    assert("kts"@ =~= seq!['k', 't', 's']);
    reveal_strlit("less");
    assert("less"@ =~= seq!['l', 'e', 's', 's']);
    reveal_strlit("lua");
    assert("lua"@ =~= seq!['l', 'u', 'a']);
    reveal_strlit("makefile");
    assert("makefile"@ =~= seq!['m', 'a', 'k', 'e', 'f', 'i', 'l', 'e']);
    reveal_strlit("md");
    assert("md"@ =~= seq!['m', 'd']);
    reveal_strlit("mjs");
    assert("mjs"@ =~= seq!['m', 'j', 's']);
    reveal_strlit("pdf");
    assert("pdf"@ =~= seq!['p', 'd', 'f']);
    reveal_strlit("php");
    assert("php"@ =~= seq!['p', 'h', 'p']);
    reveal_strlit("properties");
    assert("properties"@ =~= seq!['p', 'r', 'o', 'p', 'e', 'r', 't', 'i', 'e', 's']);
    reveal_strlit("ps1");
    assert("ps1"@ =~= seq!['p', 's', '1']);
    reveal_strlit("py");
    assert("py"@ =~= seq!['p', 'y']);
    reveal_strlit("pyw");
    assert("pyw"@ =~= seq!['p', 'y', 'w']);
    reveal_strlit("r");
    assert("r"@ =~= seq!['r']);
    assert("r"@[0] != "c"@[0] && "r"@[0] != "h"@[0]);
    reveal_strlit("rb");
    assert("rb"@ =~= seq!['r', 'b']);
    reveal_strlit("rs");
    assert("rs"@ =~= seq!['r', 's']);
    reveal_strlit("scss");
    assert("scss"@ =~= seq!['s', 'c', 's', 's']);
    reveal_strlit("sh");
    assert("sh"@ =~= seq!['s', 'h']);
    reveal_strlit("sql");
    assert("sql"@ =~= seq!['s', 'q', 'l']);
    reveal_strlit("swift");
    assert("swift"@ =~= seq!['s', 'w', 'i', 'f', 't']);
    reveal_strlit("toml");
    assert("toml"@ =~= seq!['t', 'o', 'm', 'l']);
    reveal_strlit("ts");
    assert("ts"@ =~= seq!['t', 's']);
    reveal_strlit("tsx");
    assert("tsx"@ =~= seq!['t', 's', 'x']);
    reveal_strlit("txt");
    assert("txt"@ =~= seq!['t', 'x', 't']);
    reveal_strlit("xml");
    assert("xml"@ =~= seq!['x', 'm', 'l']);
    reveal_strlit("yaml");
    assert("yaml"@ =~= seq!['y', 'a', 'm', 'l']);
    reveal_strlit("yml");
    assert("yml"@ =~= seq!['y', 'm', 'l']);
    reveal_strlit("zsh");
    assert("zsh"@ =~= seq!['z', 's', 'h']);
}

/// The build file names are supported documents whatever their extension, in
/// any ASCII case: `Dockerfile`, `Makefile` and `CMakeLists.txt`, with the
/// languages Dockerfile, Makefile and CMake.
pub proof fn lemma_build_files_are_documents(name: Seq<char>, ext: Seq<char>)
    ensures
        ascii_lower(name) == "dockerfile"@ ==> supported_name_and_extension(name, ext)
            && language_of_name_and_extension(name, ext) == Some("Dockerfile"@),
        ascii_lower(name) == "makefile"@ ==> supported_name_and_extension(name, ext)
            && language_of_name_and_extension(name, ext) == Some("Makefile"@),
        ascii_lower(name) == "cmakelists.txt"@ ==> supported_name_and_extension(name, ext)
            && language_of_name_and_extension(name, ext) == Some("CMake"@),
{
    reveal_strlit("dockerfile");
    assert("dockerfile"@ =~= seq!['d', 'o', 'c', 'k', 'e', 'r', 'f', 'i', 'l', 'e']);
    reveal_strlit("makefile");
    assert("makefile"@ =~= seq!['m', 'a', 'k', 'e', 'f', 'i', 'l', 'e']);
    reveal_strlit("cmakelists.txt");
    assert("cmakelists.txt"@ =~= seq!['c', 'm', 'a', 'k', 'e', 'l', 'i', 's', 't', 's', '.', 't', 'x', 't']);
}

/// Outside the documented table nothing is supported: a file whose name is
/// not a build file name and whose extension, in any ASCII case, is none of
/// the documented ones is not a supported document and has no language.
pub proof fn lemma_undocumented_files_are_unsupported(name: Seq<char>, ext: Seq<char>)
    requires
        !is_build_file_name(ascii_lower(name)),
        ascii_lower(ext) != "txt"@,
        ascii_lower(ext) != "md"@,
        ascii_lower(ext) != "pdf"@,
        ascii_lower(ext) != "docx"@,
        ascii_lower(ext) != "c"@,
        ascii_lower(ext) != "h"@,
        ascii_lower(ext) != "cc"@,
        ascii_lower(ext) != "cpp"@,
        ascii_lower(ext) != "cxx"@,
        ascii_lower(ext) != "hpp"@,
        ascii_lower(ext) != "hxx"@,
        ascii_lower(ext) != "cs"@,
        ascii_lower(ext) != "java"@,
        ascii_lower(ext) != "kt"@,
        ascii_lower(ext) != "kts"@,
        ascii_lower(ext) != "go"@,
        ascii_lower(ext) != "rs"@,
        ascii_lower(ext) != "py"@,
        ascii_lower(ext) != "pyw"@,
        ascii_lower(ext) != "js"@,
        ascii_lower(ext) != "jsx"@,
        ascii_lower(ext) != "mjs"@,
        ascii_lower(ext) != "cjs"@,
        ascii_lower(ext) != "ts"@,
        ascii_lower(ext) != "tsx"@,
        ascii_lower(ext) != "php"@,
        ascii_lower(ext) != "rb"@,
        ascii_lower(ext) != "swift"@,
        ascii_lower(ext) != "dart"@,
        ascii_lower(ext) != "lua"@,
        ascii_lower(ext) != "r"@,
        ascii_lower(ext) != "sh"@,
        ascii_lower(ext) != "bash"@,
        ascii_lower(ext) != "zsh"@,
        ascii_lower(ext) != "fish"@,
        ascii_lower(ext) != "ps1"@,
        ascii_lower(ext) != "sql"@,
        ascii_lower(ext) != "html"@,
        ascii_lower(ext) != "htm"@,
        ascii_lower(ext) != "css"@,
        ascii_lower(ext) != "scss"@,
        ascii_lower(ext) != "less"@,
        ascii_lower(ext) != "json"@,
        ascii_lower(ext) != "jsonc"@,
        ascii_lower(ext) != "yaml"@,
        ascii_lower(ext) != "yml"@,
        ascii_lower(ext) != "toml"@,
        ascii_lower(ext) != "xml"@,
        ascii_lower(ext) != "ini"@,
        ascii_lower(ext) != "conf"@,
        ascii_lower(ext) != "properties"@,
    ensures
        !supported_name_and_extension(name, ext),
        language_of_name_and_extension(name, ext) is None,
{
}

} // verus!
