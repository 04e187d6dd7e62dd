//! The instruction vocabulary of Redcode, the language of Core War: opcodes,
//! assembler directives, addressing modes and modifiers with their canonical
//! spellings; operand values; and the rule that supplies a modifier to an
//! instruction whose source omits one.
pub mod address_mode;
pub mod modifier;
pub mod opcode;
pub mod registry;
pub mod value;

pub use address_mode::AddressMode;
pub use modifier::Modifier;
pub use opcode::{Opcode, PseudoOpcode};
pub use value::{Offset, UOffset, Value};
