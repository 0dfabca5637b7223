//! A monitor's core: picking the transactions of a block that call one
//! contract, decoding their call data against a registry of known
//! functions, and deciding what is reported and when.
pub mod abi;
pub mod chain;
pub mod pipeline;
pub mod report;
