//! The callback-style entry points to the asynchronous read engine: start a
//! read against any blob-like object and hold the returned handle until the
//! outcome is delivered — or drop it to cancel.

pub use crate::file_reader::read_to_array_buffer;
pub use crate::file_reader::read_to_data_url;
pub use crate::file_reader::read_to_string;
pub use crate::file_reader::FileReader;
