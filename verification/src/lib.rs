//! Driver core for the Phytium DDMA engine: one controller, eight transfer
//! channels.
//!
//! The core never touches the bus itself. It works on an image of the
//! register block and appends every register store it decides on, in program
//! order, to a journal of [`BusOp`]s that the platform layer drains and
//! performs. All register-level decisions, bit layouts and orderings live
//! here and are proved against their contracts.

pub mod buffer;
pub mod bus;
pub mod chan;
pub mod ddma;
pub mod field;
pub mod irq;
pub mod laws;
pub mod peripheral_ids;
pub mod reg;
pub mod types;

pub use buffer::DmaBuffer;
pub use bus::BusOp;
pub use chan::{Channel, ChannelConfig};
pub use ddma::DDMA;
pub use field::{Field, FieldValue};
pub use irq::{CompletedChannels, IrqHandler};
pub use reg::{DdmaRegister, DmaChannelRegisters};
pub use types::{DmaChannelConfig, DmaDirection, DmaTransfer};
