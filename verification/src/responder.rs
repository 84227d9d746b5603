//! Building the reply for a request from what the file store returned.
//!
//! File reads happen outside this crate; their outcome is handed in as a
//! `Result`. A successful text read becomes the HTML-wrapped page, a
//! successful raw read becomes the bytes unchanged, and a failed read
//! becomes an error reply with its status code, so one failed request never
//! takes the serving loop down.

use vstd::prelude::*;

use crate::page::base_name;
use crate::page::base_name_of;
use crate::page::build_text_page;
use crate::page::page_of;

verus! {

/// Why a file read failed: the file is absent, the read itself failed, or
/// the bytes are not valid text.
pub enum FileReadError {
    NotFound,
    Io,
    InvalidEncoding,
}

/// An outbound reply: raw file bytes with the transport's default content
/// type, an HTML page served as `text/html; charset=utf-8`, or an error
/// reply carrying its HTTP status code.
pub enum Reply {
    Raw(Vec<u8>),
    Page(String),
    Failure(u16),
}

/// The status code of a failed read: 404 for an absent file, 500 for a
/// read or encoding failure.
pub open spec fn status_of(e: FileReadError) -> u16 {
    match e {
        FileReadError::NotFound => 404,
        FileReadError::Io => 500,
        FileReadError::InvalidEncoding => 500,
    }
}

/// The reply for a text-file request: on a successful read, the HTML page
/// wrapping the escaped content, titled with the file's base name; on a
/// failed read, the error reply with the failure's status code.
pub fn reply_for_text(filename: &str, outcome: Result<String, FileReadError>) -> (r: Reply)
    ensures
        outcome matches Ok(content) ==> (r matches Reply::Page(p) && p@ == page_of(
            base_name_of(filename@),
            content@,
        )),
        outcome matches Err(e) ==> r == Reply::Failure(status_of(e)),
{
    match outcome {
        Ok(content) => Reply::Page(build_text_page(base_name(filename), content.as_str())),
        Err(FileReadError::NotFound) => Reply::Failure(404),
        Err(FileReadError::Io) => Reply::Failure(500),
        Err(FileReadError::InvalidEncoding) => Reply::Failure(500),
    }
}

/// The reply for a raw-file request: on a successful read, the file's
/// bytes unchanged; on a failed read, the error reply with the failure's
/// status code.
pub fn reply_for_raw(outcome: Result<Vec<u8>, FileReadError>) -> (r: Reply)
    ensures
        outcome matches Ok(bytes) ==> (r matches Reply::Raw(b) && b@ == bytes@),
        outcome matches Err(e) ==> r == Reply::Failure(status_of(e)),
{
    match outcome {
        Ok(bytes) => Reply::Raw(bytes),
        Err(FileReadError::NotFound) => Reply::Failure(404),
        Err(FileReadError::Io) => Reply::Failure(500),
        Err(FileReadError::InvalidEncoding) => Reply::Failure(500),
    }
}

} // verus!
