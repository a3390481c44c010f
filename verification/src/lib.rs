//! Typed handles for host-owned binary objects (blobs and named files),
//! together with a cancellation-safe, exactly-once read pipeline.
//!
//! The host runtime owns the actual byte storage, the file reader and the
//! event dispatch; this crate models what the logic reads from those
//! capabilities as plain values, and proves the rules that govern them:
//! safe numeric bridging into the host's double-precision domain, byte-range
//! slicing with metadata reconstruction, snapshot semantics for file
//! collections, and the read engine's state machine with its teardown order.

pub mod callbacks;
mod blob;
mod file_list;
mod file_reader;
mod safe_int;

pub use blob::media_type_parses;
pub use blob::Blob;
pub use blob::BlobContents;
pub use blob::BlobLike;
pub use blob::File;
pub use blob::MimeParseError;
pub use file_list::FileList;
pub use file_reader::coerce_raw;
pub use file_reader::count_deliveries;
pub use file_reader::delivers;
pub use file_reader::event_delivers;
pub use file_reader::lemma_at_most_once_delivery;
pub use file_reader::lemma_at_most_one_delivery_ever;
pub use file_reader::lemma_no_delivery_once_settled;
pub use file_reader::next_state;
pub use file_reader::EngineEvent;
pub use file_reader::lemma_no_delivery_after_teardown;
pub use file_reader::lemma_terminal_states_stable;
pub use file_reader::loadend_next;
pub use file_reader::raw_matches_mode;
pub use file_reader::read_to_array_buffer;
pub use file_reader::read_to_data_url;
pub use file_reader::read_to_string;
pub use file_reader::teardown_next;
pub use file_reader::FileReadError;
pub use file_reader::FileReader;
pub use file_reader::RawValue;
pub use file_reader::ReadMode;
pub use file_reader::ReadValue;
pub use file_reader::ReaderState;
pub use file_reader::TeardownStep;
pub use safe_int::from_u128;
pub use safe_int::from_u64;
pub use safe_int::fits_safe_double;
pub use safe_int::lemma_precision_loss_refused;
pub use safe_int::lemma_safe_round_trip;
pub use safe_int::spec_to_safe;
pub use safe_int::PrecisionLossError;
pub use safe_int::SafeDouble;
pub use safe_int::MAX_SAFE_INTEGER;
