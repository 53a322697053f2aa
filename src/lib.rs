//! An audio sink that collects interleaved 16-bit stereo PCM in memory and,
//! when the session ends, describes how the buffer is to be encoded to a file
//! and which tags are to be written into it.
pub mod file_sink;
pub mod laws;

pub use file_sink::{
    edits_of, Encoding, FileSink, FileType, FinishPlan, SinkError, TagEdit, TagPlan, TagScheme,
    TrackMetadata, FLAC_COMPRESSION_LEVEL, OUTPUT_BITS_PER_SAMPLE, OUTPUT_CHANNELS,
};
