//! A verified emulator core for a small 15-bit virtual machine: ring
//! arithmetic, registers, operand decoding, loading a program image and the
//! fetch-decode-execute step.
pub mod error;
pub mod image;
pub mod machine;
pub mod num;
pub mod register;
pub mod value;
pub mod vm;
