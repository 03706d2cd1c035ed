//! An x86-64 instruction encoder and Mach-O 64-bit object writer.
//!
//! The crate encodes symbolic instructions (registers, immediates, memory
//! references) into their canonical byte sequences, gathers the encoded
//! bytes, symbols and relocations into an in-memory object, and serializes
//! that object as a relocatable Mach-O file image.

pub mod bytecode;
pub mod bytes;
pub mod endian;
pub mod header;
pub mod instruction;
pub mod load_command;
pub mod macho;
pub mod nlist;
pub mod num;
pub mod object;
pub mod reloc;
pub mod string_table;
pub mod mem;
pub mod reg;

use vstd::prelude::*;

verus! {

} // verus!
