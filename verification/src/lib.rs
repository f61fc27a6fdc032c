//! Run-time ownership tracking for memory that the processor shares with a
//! direct-memory-access engine, and the decisions of the serial driver that
//! uses it.

pub mod dma;
pub mod spi;
