//! Character-set conversion around a stateful conversion engine.
//!
//! The engine itself (opening a handle, converting a window of bytes, closing the
//! handle) and the byte source are outside work. This library holds everything that is
//! decided around them: how an engine call is shaped and read back, how the output of a
//! bulk conversion grows, and how a streaming reader buffers, retries and drains.

pub mod bulk;
pub mod codec;
pub mod converter;
pub mod encodable;
pub mod fill_buffer;
pub mod laws;
pub mod reader;
pub mod status;

pub use bulk::{convert_bytes, BulkConversion, BulkError, BulkStep};
pub use converter::{CallShape, ConfigurationError, Converter, EngineFailure, INVALID_DESCRIPTOR};
pub use encodable::{decoded_text, IconvDecodable, IconvEncodable};
pub use fill_buffer::{FillBuffer, BUFFER_SIZE};
pub use reader::{IconvReader, Phase, ReadError, ReadStep, SourceSignal, SourceStop, SCRATCH_SIZE};
pub use status::{classify_code, ConversionResult, ConversionStatus};
