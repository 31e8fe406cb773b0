//! Core of a single-route audio gateway: given an opaque identifier, the
//! gateway resolves a stored upstream URL through a datastore lookup, fetches
//! the audio bytes from that URL, and relays them to the caller, mapping
//! every failure to a fixed JSON error reply.
//!
//! This crate holds the decision pipeline — query construction, outcome
//! classification, and the mapping from each outcome to the terminal HTTP
//! reply — with its behaviour verified. The surrounding process (the HTTP
//! server, the datastore driver, the HTTP client) performs the I/O and feeds
//! its outcomes into these functions.

mod handler;
mod lookup;
mod record;

pub use handler::FetchOutcome;
pub use handler::HttpReply;
pub use handler::ReplyBody;
pub use handler::Step;
pub use handler::audio_content_type;
pub use handler::buffering_failed_text;
pub use handler::fetch_failed_text;
pub use handler::handle_fetch;
pub use handler::handle_lookup;
pub use handler::is_audio_reply;
pub use handler::is_buffering_failed_reply;
pub use handler::is_fetch_failed_reply;
pub use handler::is_not_found_reply;
pub use handler::json_content_type;
pub use handler::not_found_text;
pub use handler::status_is_success;
pub use lookup::LookupOutcome;
pub use lookup::LookupQuery;
pub use lookup::lemma_statement_independent_of_identifier;
pub use lookup::lookup_query;
pub use lookup::lookup_statement_text;
pub use lookup::statement_for;
pub use record::AudioRecord;
