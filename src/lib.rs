//! Probes of OpenGL driver defects, as verified descriptions: what each probe
//! sets up, which configurations are refused before anything reaches the
//! driver, what a conforming driver must hand back, and how a readback is
//! judged. Issuing the commands is left to the caller.

pub mod extensions;
pub mod oracle;
pub mod swizzle;
pub mod texel;
pub mod upload;
pub mod upload_probe;
