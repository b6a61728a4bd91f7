//! Discovery and introspection of the GPIO character device of a
//! Raspberry Pi: the request codes of the kernel's chardev interface, the
//! chip descriptor, the decoding of its NUL-padded buffers, and the scan
//! that picks the SoC's pin controller among the `gpiochipN` nodes.

pub mod gpio;
pub mod ioctl;
pub mod sys;
pub mod text;
