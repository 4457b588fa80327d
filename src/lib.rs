//! Desktop frame capture over an output-duplication API, modelled as a
//! verified protocol: the library decides every step of a capture and packs
//! the mapped pixels, while the caller performs the platform calls.
pub mod executor;
pub mod vision;
