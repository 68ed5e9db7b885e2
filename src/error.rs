use vstd::prelude::*;

verus! {

/// The ways in which loading a program or running an instruction can fail.
#[derive(Debug, Clone, Copy, PartialEq, Eq, Structural)]
pub enum ChipError {
    /// The program is longer than the space above the program origin, by this many bytes.
    RomTooLarge(usize),
    /// The program counter left the program area, a memory access ran past the end of
    /// memory, or a return found the call stack empty.
    AddressOutofBounds,
    /// The opcode matched no known encoding.
    InvalidInstruction,
    /// A register index outside `0x0..=0xF` was used.
    InvalidRegister,
    /// A sprite of more than fifteen rows was requested.
    InvalidSpriteSize,
}

/// The decimal digits of `n`, most significant first.
pub open spec fn decimal(n: nat) -> Seq<char>
    decreases n,
{
    if n < 10 {
        seq![digit_char(n)]
    } else {
        decimal(n / 10).push(digit_char(n % 10))
    }
}

pub open spec fn digit_char(d: nat) -> char {
    ((d + 48) as u8) as char
}

/// The message text of each error.
pub open spec fn message_of(e: ChipError) -> Seq<char> {
    match e {
        ChipError::RomTooLarge(diff) => "Rom too large by "@ + decimal(diff as nat) + " bytes"@,
        ChipError::AddressOutofBounds => "Address out of bounds"@,
        ChipError::InvalidInstruction => "Invalid Instruction was encountered"@,
        ChipError::InvalidRegister => "Attempt to access invalid register"@,
        ChipError::InvalidSpriteSize => "The sprite's size was greater than 15 bytes"@,
    }
}

fn digit_str(d: usize) -> (r: &'static str)
    requires
        d < 10,
    ensures
        r@ == seq![digit_char(d as nat)],
{
    match d {
        0 => {
            proof {
                reveal_strlit("0");
            }
            "0"
        },
        1 => {
            proof {
                reveal_strlit("1");
            }
            "1"
        },
        2 => {
            proof {
                reveal_strlit("2");
            }
            "2"
        },
        3 => {
            proof {
                reveal_strlit("3");
            }
            "3"
        },
        4 => {
            proof {
                reveal_strlit("4");
            }
            "4"
        },
        5 => {
            proof {
                reveal_strlit("5");
            }
            "5"
        },
        6 => {
            proof {
                reveal_strlit("6");
            }
            "6"
        },
        7 => {
            proof {
                reveal_strlit("7");
            }
            "7"
        },
        8 => {
            proof {
                reveal_strlit("8");
            }
            "8"
        },
        _ => {
            proof {
                reveal_strlit("9");
            }
            "9"
        },
    }
}

fn decimal_string(n: usize) -> (r: String)
    ensures
        r@ == decimal(n as nat),
    decreases n,
{
    if n < 10 {
        String::from_str(digit_str(n))
    } else {
        let mut s = decimal_string(n / 10);
        s.append(digit_str(n % 10));
        s
    }
}

impl ChipError {
    /// A human-readable description of the error.
    pub fn message(&self) -> (r: String)
        ensures
            r@ == message_of(*self),
    {
        match self {
            ChipError::RomTooLarge(diff) => {
                let mut s = String::from_str("Rom too large by ");
                let digits = decimal_string(*diff);
                s.append(digits.as_str());
                s.append(" bytes");
                proof {
                    reveal_strlit("Rom too large by ");
                    reveal_strlit(" bytes");
                }
                s
            },
            ChipError::AddressOutofBounds => String::from_str("Address out of bounds"),
            ChipError::InvalidInstruction => String::from_str("Invalid Instruction was encountered"),
            ChipError::InvalidRegister => String::from_str("Attempt to access invalid register"),
            ChipError::InvalidSpriteSize => String::from_str("The sprite's size was greater than 15 bytes"),
        }
    }
}

} // verus!
