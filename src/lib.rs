pub mod display;
pub mod error;
pub mod instruction;
pub mod keyboard;
pub mod laws;
pub mod machine;
mod random;
pub mod registers;

pub use display::{Rect, SDLDo, Sprite};
pub use error::ChipError;
pub use instruction::{decode, Instruction};
pub use keyboard::{KeySymbol, Keyboard};
pub use machine::{Chip8, Output};
pub use registers::Registers;
