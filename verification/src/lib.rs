//! Inspecting and rebuilding ZIP archives whose member filenames were written
//! in legacy code pages, so that they can be re-emitted with UTF-8 filenames.
//!
//! The container metadata (headers, central directory, end-of-directory
//! records, filename fields and selected extra fields) is parsed and
//! rewritten; the compressed payload bytes are never touched and are carried
//! through as references into the source archive.

pub mod compatibility;
pub mod crc32;
pub mod inspect;
pub mod os_metadata;
pub mod parse;
pub mod rebuild;
pub mod textenc;
