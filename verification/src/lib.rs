//! A typed model of the Linux video streaming interface.
//!
//! The heart of the crate is the streaming buffer-queue engine: a pool of
//! kernel-backed buffers that cycle between the driver and the application
//! while a capture or output stream runs.  The pool's bookkeeping — which
//! slot is owned by the driver, which sits in the ready queue, which is held
//! by the application — is implemented and verified here; the raw device
//! calls that carry its decisions to a driver are left to the embedding
//! program.

pub mod buffer;
pub mod enums;
pub mod extras;
pub mod fourcc;
pub mod pool;
pub mod stream;
pub mod structs;
pub mod types;
pub mod utils;

pub use buffer::{Buffer, BufferM, BufferSlot, MemRegion, TimeCode, TimeVal};
pub use enums::{ColorSpace, CtrlType, FrmIvalType, FrmSizeType, HsvEncoding, Quantization, XferFunc, YcbcrEncoding};
pub use fourcc::{DcvFormat, FourCc};
pub use pool::QueueData;
pub use stream::{Stream, StreamAction, StreamEvent};
pub use structs::{
    Area, Capability, CaptureParm, EnumCursor, Fract, FrmSizeData, FrmSizeEnum, FrmSizeIter,
    FrmSizeStepwise, OutputParm, PixFormat, Rect, StreamParm, VersionTriple,
};
pub use types::{BufferFlag, BufferType, CapabilityFlag, ContentType, Direction, Field, Memory};
pub use utils::{Error, ErrorKind};
