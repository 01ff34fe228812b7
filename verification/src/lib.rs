//! The host side of a vision inference engine that is reached through a C
//! interface: the rules by which values cross that boundary, and the record the
//! host keeps of one engine context. Nothing here calls the engine. Each
//! operation takes what the engine answered and says what follows from it.

pub mod context;
pub mod error;
pub mod labels;
pub mod laws;
pub mod marshal;
pub mod output;
pub mod parameter;

pub use context::{Context, ContextView, Event};
pub use error::{Error, ErrorView, Status};
pub use labels::{LabelScan, LabelScanView};
pub use marshal::NativeString;
pub use parameter::{ArrayParameter, TextParameter};
