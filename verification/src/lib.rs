//! Verified core of a live audio capture tool: a capture buffer that
//! accumulates sample blocks in arrival order, and a container writer that
//! serializes the accumulated samples into a RIFF/WAVE file image whose
//! header length fields are proved consistent with the data that follows.
//!
//! Device I/O, signal handling and the actual file write live outside this
//! library; they hand plain values in and take the finished byte image out.

pub mod buffer;
pub mod format;
pub mod reader;
pub mod sample;
pub mod writer;

pub use buffer::CaptureBuffer;
pub use format::StreamFormat;
pub use reader::{parse_wav, ContainerError};
pub use sample::SampleBlock;
pub use writer::{encode_wav, finalize_image};
