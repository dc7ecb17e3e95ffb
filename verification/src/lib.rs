//! Kernel bookkeeping for a Metal compute backend: which Metal library each
//! kernel family lives in, where its precompiled `.metallib` file is found,
//! and the caches of loaded libraries and compute pipelines.
pub mod source;
pub mod text;
pub mod kernel;
pub mod device;
pub mod options;

pub use device::{CompileRetry, MetalDeviceType, RetryDecision};
pub use kernel::{KernelDevice, KernelName, Kernels};
pub use options::CompileSettings;
pub use source::Source;
