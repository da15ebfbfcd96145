//! Reader and disassembler for compiled SourcePawn containers (SMX).
//!
//! A container is a sectioned binary image. [`headers::SMXHeader`] validates
//! the fixed header, expands the compressed tail and lists the sections;
//! [`sections`] and [`rtti`] decode the individual tables; [`v1disassembler`]
//! decodes the bytecode of one procedure; [`file::SMXFile`] ties them together.

pub mod bytes;
pub mod debuginfo;
pub mod errors;
pub mod file;
pub mod headers;
pub mod leb128;
pub mod rows;
pub mod rtti;
pub mod sections;
pub mod text;
pub mod typetext;
pub mod v1disassembler;
pub mod v1opcodes;
pub mod v1types;
