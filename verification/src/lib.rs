//! A normalized inventory of a machine's hardware, and a snapshot of what
//! changes in it from moment to moment.
//!
//! The library reads nothing itself. It is handed what was read of the
//! machine: a sample of the metrics source, the text of kernel files and of
//! tool listings, or the records of the management interface. Of these it
//! makes the inventory. A source that is missing never makes it fail: the
//! part that the source would give stands at its default.
//!
//! - [`text`], [`decimal`], [`units`], [`records`]: texts, numbers and sizes
//!   as the sources write them.
//! - [`cpu`], [`memory`], [`graphics`], [`storage`], [`network`], [`audio`],
//!   [`peripherals`], [`optical`], [`system`], [`thermal`]: one part of the
//!   inventory each, with the readers of its sources.
//! - [`management`]: the same parts from the records of the management
//!   interface.
//! - [`platform`]: for each part the source that the platform offers.
//! - [`snapshot`]: the full and the live snapshot.

pub mod audio;
pub mod cpu;
pub mod decimal;
pub mod graphics;
pub mod management;
pub mod memory;
pub mod network;
pub mod optical;
pub mod peripherals;
pub mod platform;
pub mod records;
pub mod snapshot;
pub mod storage;
pub mod system;
pub mod text;
pub mod thermal;
pub mod units;
