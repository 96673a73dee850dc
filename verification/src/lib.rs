//! Hardware-rooted attestation for TDX confidential virtual machines with a
//! virtual TPM.
//!
//! The crate verifies the logic of one attestation variant: assembling an
//! evidence bundle whose three artifacts are all bound to one caller-supplied
//! challenge, extending a numbered register of the firmware measurement
//! chain, interpreting the platform-detection probe, and encoding the bundle
//! for transport. The quoting primitives themselves (virtual TPM, hypervisor
//! report device, quoting service) are blocking external I/O: an unverified
//! driver performs those calls and feeds their outcomes back into the
//! verified protocol as events.

pub mod assembler;
pub mod codec;
pub mod detector;
pub mod extender;
pub mod facade;
pub mod types;

pub use detector::detect_platform;
pub use detector::detect_tee_type;
pub use facade::AzTdxVtpmAttester;
pub use types::TeeType;
