//! Core logic of a small static-file HTTP server.
//!
//! The server serves files from a working directory. A request for the root
//! path first passes a freshness gate: a report file (`index.html`) is
//! regenerated by an external command when it is missing or older than 60
//! seconds. Requests for `.txt` files are wrapped in an HTML page with the
//! file content escaped; every other file is served as raw bytes.
//!
//! This crate holds the decision and construction logic, verified: freshness,
//! routing, page building and reply selection. Listening, file reads and the
//! external command live with the caller, which hands their outcomes in as
//! plain values.

pub mod escape;
pub mod freshness;
pub mod page;
pub mod responder;
pub mod router;

pub use freshness::is_file_older_than_60_seconds;
pub use freshness::needs_regeneration;
pub use page::base_name;
pub use page::build_text_page;
pub use responder::FileReadError;
pub use responder::Reply;
pub use responder::reply_for_raw;
pub use responder::reply_for_text;
pub use router::Route;
pub use router::route;
