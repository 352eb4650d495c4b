//! A fixed-capacity byte buffer with independent read and write cursors and
//! bounds-checked little-endian accessors.

mod buffer;
mod error;
mod laws;
mod le;

pub use buffer::{BufferModel, ByteBuffer};
pub use error::Error;
pub use le::{le_bytes_u16, le_bytes_u32, le_value_u16, le_value_u32};
pub use laws::{
    lemma_empty_access, lemma_u16_round_trip, lemma_u32_round_trip, lemma_write_read_round_trip,
};
