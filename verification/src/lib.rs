//! Execution substrate of a coverage-guided kernel fuzzer: the framed
//! coverage-channel protocol, the lock-step agent/monitor discipline, the
//! guest virtual-machine lifecycle, and the command descriptors used to
//! drive a guest remotely.
pub mod cli;
pub mod codec;
pub mod exec;
pub mod guest;
pub mod stats;
pub mod text;
