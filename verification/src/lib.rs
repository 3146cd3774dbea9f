//! Core logic of the HushReader desktop shell: text decoding, URL and
//! configuration building, JSON reply interpretation and the download
//! back-end's lifecycle state, each with a verified contract.

pub mod text;
pub mod paths;
pub mod json;
pub mod decode;
pub mod urlencode;
pub mod requests;
pub mod config;
pub mod backend;
pub mod probe;
pub mod shell;
pub mod pidfile;
