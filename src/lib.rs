//! Translation of one system-call ABI (the guest's) into another (the host's)
//! for a traced process: call numbers, open flags, path schemes, stat layouts,
//! staging of translated data in the guest's stack, and the decoding of calls
//! for the trace log.
pub mod abi;
pub mod flags;
pub mod path;
pub mod bytes;
pub mod stat;
pub mod regs;
pub mod wait;
pub mod translate;
pub mod fmt;
pub mod debug;
pub mod record;
