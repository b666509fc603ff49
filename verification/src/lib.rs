pub mod text;
pub mod path_names;
pub mod document_types;
pub mod fingerprint;
pub mod errors;
pub mod docx;
pub mod extraction;
pub mod index;
pub mod path_match;
pub mod search;
pub mod review;
