use crate::display::{sprite_rects, DirectiveView, SDLDo, Sprite, SpriteView};
use crate::error::ChipError;
use crate::instruction::{decode, decode_spec, Instruction};
use crate::keyboard::{held_code, KeySymbol, Keyboard};
use crate::random::random_byte;
use crate::registers::Registers;
use std::collections::HashMap;
use vstd::prelude::*;

verus! {

broadcast use vstd::std_specs::hash::group_hash_axioms;

/// Bytes of memory: addresses `0x000..=0xFFF` and one byte of slack.
pub const MEMORY_SIZE: usize = 4097;

/// Where a loaded program starts, and the program counter after a load.
pub const PROGRAM_START: usize = 0x200;

/// The longest program that fits between the program origin and `0xFFF`.
pub const MAX_ROM_LEN: usize = 0xDFF;

/// The built-in hexadecimal digit glyphs `0..=F`, five rows each, stored from address 0.
pub open spec fn glyphs() -> Seq<u8> {
    seq![
        0xF0u8, 0x90, 0x90, 0x90, 0xF0,
        0x20, 0x60, 0x20, 0x20, 0x70,
        0xF0, 0x10, 0xF0, 0x80, 0xF0,
        0xF0, 0x10, 0xF0, 0x10, 0xF0,
        0x90, 0x90, 0xF0, 0x10, 0x10,
        0xF0, 0x80, 0xF0, 0x10, 0xF0,
        0xF0, 0x80, 0xF0, 0x90, 0xF0,
        0xF0, 0x10, 0x20, 0x40, 0x40,
        0xF0, 0x90, 0xF0, 0x90, 0xF0,
        0xF0, 0x90, 0xF0, 0x10, 0xF0,
        0xF0, 0x90, 0xF0, 0x90, 0x90,
        0xE0, 0x90, 0xE0, 0x90, 0xE0,
        0xF0, 0x80, 0x80, 0x80, 0xF0,
        0xE0, 0x90, 0x90, 0x90, 0xE0,
        0xF0, 0x80, 0xF0, 0x80, 0xF0,
        0xF0, 0x80, 0xF0, 0x80, 0x80,
    ]
}

/// The address of the glyph of hexadecimal digit `d`.
pub open spec fn glyph_addr(d: u8) -> u16 {
    (5 * d) as u16
}

/// The digit-to-glyph-address table: each digit `0..=F` to the start of its glyph.
pub open spec fn glyph_table() -> Map<u8, u16> {
    Map::new(|d: u8| d < 16, |d: u8| glyph_addr(d))
}

/// Memory right after construction: the glyphs, then zeros.
pub open spec fn initial_memory() -> Seq<u8> {
    Seq::new(MEMORY_SIZE as nat, |a: int| if a < glyphs().len() { glyphs()[a] } else { 0u8 })
}

/// Memory `mem` with a program `rom` copied in from the program origin.
pub open spec fn with_rom(mem: Seq<u8>, rom: Seq<u8>) -> Seq<u8> {
    Seq::new(
        mem.len(),
        |a: int|
            if PROGRAM_START <= a < PROGRAM_START + rom.len() {
                rom[a - PROGRAM_START]
            } else {
                mem[a]
            },
    )
}

/// Memory `mem` with registers `V0..V(n-1)` of `r` written from address `base` on.
pub open spec fn store_regs(mem: Seq<u8>, r: Registers, base: int, n: nat) -> Seq<u8>
    decreases n,
{
    if n == 0 {
        mem
    } else {
        store_regs(mem, r, base, (n - 1) as nat).update(base + n - 1, r.vx(n - 1))
    }
}

/// Registers `r` with `V0..V(n-1)` read from memory `mem` from address `base` on.
pub open spec fn load_regs(r: Registers, mem: Seq<u8>, base: int, n: nat) -> Registers
    decreases n,
{
    if n == 0 {
        r
    } else {
        load_regs(r, mem, base, (n - 1) as nat).with_vx(n - 1, mem[base + n - 1])
    }
}

/// The whole observable state of the interpreter.
pub struct MachineState {
    pub memory: Seq<u8>,
    pub sprites: Seq<SpriteView>,
    pub regs: Registers,
    pub stack: Seq<u16>,
    pub held: Option<KeySymbol>,
    pub rom_loaded: bool,
}

/// What one instruction reports: a display directive, or the error that stops the run.
pub type Outcome = Result<DirectiveView, ChipError>;

pub open spec fn outcome_of(r: Result<SDLDo, ChipError>) -> Outcome {
    match r {
        Ok(d) => Ok(d@),
        Err(e) => Err(e),
    }
}

/// The state right after construction.
pub open spec fn initial_state() -> MachineState {
    MachineState {
        memory: initial_memory(),
        sprites: seq![],
        regs: Registers::zeroed(),
        stack: seq![],
        held: None,
        rom_loaded: false,
    }
}

impl MachineState {
    pub open spec fn vx(self, n: u8) -> u8 {
        self.regs.vx(n as int)
    }

    pub open spec fn with_regs(self, r: Registers) -> MachineState {
        MachineState { regs: r, ..self }
    }

    pub open spec fn with_pc(self, pc: u16) -> MachineState {
        self.with_regs(Registers { program_counter: pc, ..self.regs })
    }

    pub open spec fn with_vx(self, n: u8, v: u8) -> MachineState {
        self.with_regs(self.regs.with_vx(n as int, v))
    }

    /// `VF` set to `flag`, then register `x` set to `v` (so `x == 0xF` keeps `v`).
    pub open spec fn with_flag_then(self, flag: u8, x: u8, v: u8) -> MachineState {
        self.with_regs(self.regs.with_vx(15, flag).with_vx(x as int, v))
    }
}

pub open spec fn done(s: MachineState) -> (MachineState, Outcome) {
    (s, Ok(DirectiveView::NoOp))
}

pub open spec fn fail(s: MachineState, e: ChipError) -> (MachineState, Outcome) {
    (s, Err(e))
}

/// Skips the next instruction when `c` holds.
pub open spec fn skip_if(s: MachineState, c: bool) -> (MachineState, Outcome) {
    if c {
        done(s.with_pc(s.regs.program_counter.wrapping_add(2)))
    } else {
        done(s)
    }
}

pub open spec fn flag(c: bool) -> u8 {
    if c {
        1
    } else {
        0
    }
}

/// The sprite that `Draw` builds from `n` bytes at the index register.
pub open spec fn drawn_sprite(s: MachineState, x: u8, y: u8, n: u8) -> SpriteView {
    SpriteView {
        bytes: s.memory.subrange(s.regs.i as int, s.regs.i + n),
        x: s.vx(x),
        y: s.vx(y),
    }
}

/// One instruction applied to a state: the next state and what is reported. `rnd` is
/// the random byte that `Rand` masks.
pub open spec fn exec_spec(s: MachineState, ins: Instruction, rnd: u8) -> (MachineState, Outcome) {
    let bad_reg = fail(s, ChipError::InvalidRegister);
    match ins {
        Instruction::SYSaddr => done(s),
        Instruction::ClearScreen => (MachineState { sprites: seq![], ..s }, Ok(DirectiveView::ClearScreen)),
        Instruction::Return => if s.stack.len() == 0 {
            fail(s, ChipError::AddressOutofBounds)
        } else {
            done(
                MachineState {
                    stack: s.stack.drop_last(),
                    regs: Registers {
                        program_counter: s.stack.last(),
                        stack_pointer: s.regs.stack_pointer.wrapping_sub(1),
                        ..s.regs
                    },
                    ..s
                },
            )
        },
        Instruction::Jump(a) => done(s.with_pc(a)),
        Instruction::Call(a) => done(
            MachineState {
                stack: s.stack.push(s.regs.program_counter),
                regs: Registers {
                    program_counter: a,
                    stack_pointer: s.regs.stack_pointer.wrapping_add(1),
                    ..s.regs
                },
                ..s
            },
        ),
        Instruction::SkipEqualByte(x, b) => if x >= 16 { bad_reg } else { skip_if(s, s.vx(x) == b) },
        Instruction::SkipNotEqualByte(x, b) => if x >= 16 { bad_reg } else { skip_if(s, s.vx(x) != b) },
        Instruction::SkipEqualReg(x, y) => if x >= 16 || y >= 16 { bad_reg } else { skip_if(s, s.vx(x) == s.vx(y)) },
        Instruction::LoadByte(x, b) => if x >= 16 { bad_reg } else { done(s.with_vx(x, b)) },
        Instruction::AddByte(x, b) => if x >= 16 {
            bad_reg
        } else {
            let s1 = if s.vx(x) + b > 255 { s.with_vx(15, 1) } else { s };
            done(s1.with_vx(x, s.vx(x).wrapping_add(b)))
        },
        Instruction::LoadReg(x, y) => if x >= 16 || y >= 16 { bad_reg } else { done(s.with_vx(x, s.vx(y))) },
        Instruction::OR(x, y) => if x >= 16 || y >= 16 { bad_reg } else { done(s.with_vx(x, s.vx(x) | s.vx(y))) },
        Instruction::AND(x, y) => if x >= 16 || y >= 16 { bad_reg } else { done(s.with_vx(x, s.vx(x) & s.vx(y))) },
        Instruction::XOR(x, y) => if x >= 16 || y >= 16 { bad_reg } else { done(s.with_vx(x, s.vx(x) ^ s.vx(y))) },
        Instruction::AddReg(x, y) => if x >= 16 || y >= 16 {
            bad_reg
        } else {
            done(s.with_flag_then(flag(s.vx(x) + s.vx(y) > 255), x, s.vx(x).wrapping_add(s.vx(y))))
        },
        Instruction::SubReg(x, y) => if x >= 16 || y >= 16 {
            bad_reg
        } else {
            done(s.with_flag_then(flag(s.vx(x) < s.vx(y)), x, s.vx(x).wrapping_sub(s.vx(y))))
        },
        Instruction::ShiftRight(x) => if x >= 16 {
            bad_reg
        } else {
            done(s.with_flag_then(flag(s.vx(x) % 2 == 1), x, s.vx(x) / 2))
        },
        Instruction::SubN(x, y) => if x >= 16 || y >= 16 {
            bad_reg
        } else {
            done(s.with_flag_then(flag(s.vx(y) < s.vx(x)), x, s.vx(y).wrapping_sub(s.vx(x))))
        },
        Instruction::ShiftLeft(x) => if x >= 16 {
            bad_reg
        } else {
            done(s.with_flag_then(flag(s.vx(x) >= 128), x, s.vx(x).wrapping_mul(2)))
        },
        Instruction::SkipNotEqualReg(x, y) => if x >= 16 || y >= 16 { bad_reg } else { skip_if(s, s.vx(x) != s.vx(y)) },
        Instruction::LoadI(a) => done(s.with_regs(Registers { i: a, ..s.regs })),
        Instruction::JumpAdd(a) => done(s.with_pc(a.wrapping_add(s.regs.v0 as u16))),
        Instruction::Rand(x, b) => if x >= 16 { bad_reg } else { done(s.with_vx(x, b & rnd)) },
        Instruction::Draw(x, y, n) => if x >= 16 || y >= 16 {
            bad_reg
        } else if n > 15 {
            fail(s, ChipError::InvalidSpriteSize)
        } else if s.regs.i + n > MEMORY_SIZE {
            fail(s, ChipError::AddressOutofBounds)
        } else {
            let sp = drawn_sprite(s, x, y, n);
            (
                MachineState { sprites: s.sprites.push(sp), ..s },
                Ok(DirectiveView::Draw(sprite_rects(sp.bytes, sp.x as int, sp.y as int))),
            )
        },
        Instruction::SkipKey(x) => if x >= 16 {
            bad_reg
        } else {
            match held_code(s.held) {
                Some(k) => skip_if(s, s.vx(x) == k),
                None => done(s),
            }
        },
        Instruction::SkipNotKey(x) => if x >= 16 {
            bad_reg
        } else {
            match held_code(s.held) {
                Some(k) => skip_if(s, s.vx(x) != k),
                None => done(s),
            }
        },
        Instruction::GetDelay(x) => if x >= 16 { bad_reg } else { done(s.with_vx(x, s.regs.delay_timer)) },
        Instruction::WaitKey(x) => match held_code(s.held) {
            Some(k) => if x >= 16 { bad_reg } else { done(s.with_vx(x, k)) },
            None => done(s.with_pc(s.regs.program_counter.wrapping_sub(2))),
        },
        Instruction::SetDelay(x) => if x >= 16 {
            bad_reg
        } else {
            done(s.with_regs(Registers { delay_timer: s.vx(x), ..s.regs }))
        },
        Instruction::SetSound(x) => if x >= 16 {
            bad_reg
        } else {
            done(s.with_regs(Registers { sound_timer: s.vx(x), ..s.regs }))
        },
        Instruction::AddI(x) => if x >= 16 {
            bad_reg
        } else {
            done(s.with_regs(Registers { i: s.regs.i.wrapping_add(s.vx(x) as u16), ..s.regs }))
        },
        Instruction::SetISprite(x) => if x >= 16 {
            bad_reg
        } else if s.vx(x) < 16 {
            done(s.with_regs(Registers { i: glyph_addr(s.vx(x)), ..s.regs }))
        } else {
            done(s)
        },
        Instruction::StoreBCD(x) => if x >= 16 {
            bad_reg
        } else if s.regs.i + 3 > MEMORY_SIZE {
            fail(s, ChipError::AddressOutofBounds)
        } else {
            let v = s.vx(x);
            let a = s.regs.i as int;
            done(
                MachineState {
                    memory: s.memory.update(a, v / 100).update(a + 1, (v / 10) % 10).update(a + 2, v % 10),
                    ..s
                },
            )
        },
        Instruction::StoreRegI(x) => if x >= 16 {
            bad_reg
        } else if s.regs.i + x + 1 > MEMORY_SIZE {
            fail(s, ChipError::AddressOutofBounds)
        } else {
            done(MachineState { memory: store_regs(s.memory, s.regs, s.regs.i as int, (x + 1) as nat), ..s })
        },
        Instruction::LoadRegI(x) => if x >= 16 {
            bad_reg
        } else if s.regs.i + x + 1 > MEMORY_SIZE {
            fail(s, ChipError::AddressOutofBounds)
        } else {
            done(s.with_regs(load_regs(s.regs, s.memory, s.regs.i as int, (x + 1) as nat)))
        },
        Instruction::Invalid => fail(s, ChipError::InvalidInstruction),
    }
}

/// The opcode stored big-endian at address `a`.
pub open spec fn word_at(mem: Seq<u8>, a: int) -> u16 {
    (mem[a] * 256 + mem[a + 1]) as u16
}

/// Whether the program counter may be fetched from.
pub open spec fn fetchable(pc: u16) -> bool {
    PROGRAM_START <= pc < 0xFFF
}

/// A timer after one tick.
pub open spec fn tick(t: u8) -> u8 {
    if t > 0 {
        (t - 1) as u8
    } else {
        t
    }
}

/// The state after fetching: program counter advanced past the opcode.
pub open spec fn fetched(s: MachineState) -> MachineState {
    s.with_pc((s.regs.program_counter + 2) as u16)
}

/// The state after fetching and ticking both timers, before the instruction runs.
pub open spec fn prepared(s: MachineState) -> MachineState {
    let f = fetched(s);
    f.with_regs(Registers { delay_timer: tick(f.regs.delay_timer), sound_timer: tick(f.regs.sound_timer), ..f.regs })
}

/// One whole step: fetch, decode, tick the timers, execute.
pub open spec fn step_spec(s: MachineState, rnd: u8) -> (MachineState, Outcome) {
    if !fetchable(s.regs.program_counter) {
        fail(s, ChipError::AddressOutofBounds)
    } else {
        exec_spec(prepared(s), decode_spec(word_at(s.memory, s.regs.program_counter as int)), rnd)
    }
}

/// The sprites placed since the last clear, and the digit-to-glyph-address table.
pub struct Output {
    sprites: Vec<Sprite>,
    key_sprites: HashMap<u8, u16>,
}

/// The interpreter: memory, registers, call stack, display model and keyboard.
pub struct Chip8 {
    memory: Vec<u8>,
    display: Output,
    registers: Registers,
    stack: Vec<u16>,
    pub keyboard: Keyboard,
    rom_loaded: bool,
}

impl View for Chip8 {
    type V = MachineState;

    closed spec fn view(&self) -> MachineState {
        MachineState {
            memory: self.memory@,
            sprites: self.display.sprites@.map_values(|s: Sprite| s@),
            regs: self.registers,
            stack: self.stack@,
            held: self.keyboard.held(),
            rom_loaded: self.rom_loaded,
        }
    }
}

impl Chip8 {
    /// Memory has its fixed size, the glyph table is in place, and every sprite is
    /// well formed.
    pub closed spec fn wf(&self) -> bool {
        &&& self.memory@.len() == MEMORY_SIZE
        &&& self.display.key_sprites@ == glyph_table()
        &&& forall|k: int| 0 <= k < self.display.sprites@.len() ==> (#[trigger] self.display.sprites@[k]).wf()
    }

    /// A well-formed machine's memory has its fixed size.
    pub proof fn lemma_memory_size(&self)
        requires
            self.wf(),
        ensures
            self@.memory.len() == MEMORY_SIZE,
    {
    }

    /// A machine with the glyphs loaded, every register at zero, an empty stack and
    /// display, and no key held.
    pub fn init() -> (r: Chip8)
        ensures
            r.wf(),
            r@ == initial_state(),
            r@.memory.len() == MEMORY_SIZE,
    {
        let mut memory: Vec<u8> = Vec::new();
        while memory.len() < MEMORY_SIZE
            invariant
                memory@.len() <= MEMORY_SIZE,
                memory@ == Seq::new(memory@.len(), |a: int| 0u8),
            decreases MEMORY_SIZE - memory@.len(),
        {
            memory.push(0u8);
        }
        let display = Output { sprites: Vec::new(), key_sprites: HashMap::new() };
        let mut chip8 = Chip8 {
            memory,
            display,
            registers: Registers::new(),
            stack: Vec::with_capacity(16),
            keyboard: Keyboard::new(),
            rom_loaded: false,
        };
        chip8.load_sprite_data();
        proof {
            assert(chip8@.memory =~= initial_memory());
            assert(chip8@.sprites =~= seq![]);
            assert(chip8@.stack =~= seq![]);
        }
        chip8
    }

    /// Writes the glyphs at the bottom of memory and fills the glyph table.
    fn load_sprite_data(&mut self)
        requires
            old(self).memory@ == Seq::new(MEMORY_SIZE as nat, |a: int| 0u8),
            old(self).display.key_sprites@ == Map::<u8, u16>::empty(),
        ensures
            final(self).memory@ == initial_memory(),
            final(self).display.key_sprites@ == glyph_table(),
            final(self).display.sprites == old(self).display.sprites,
            final(self).registers == old(self).registers,
            final(self).stack == old(self).stack,
            final(self).keyboard == old(self).keyboard,
            final(self).rom_loaded == old(self).rom_loaded,
    {
        let font: Vec<u8> = vec![
            0xF0u8, 0x90, 0x90, 0x90, 0xF0,
            0x20, 0x60, 0x20, 0x20, 0x70,
            0xF0, 0x10, 0xF0, 0x80, 0xF0,
            0xF0, 0x10, 0xF0, 0x10, 0xF0,
            0x90, 0x90, 0xF0, 0x10, 0x10,
            0xF0, 0x80, 0xF0, 0x10, 0xF0,
            0xF0, 0x80, 0xF0, 0x90, 0xF0,
            0xF0, 0x10, 0x20, 0x40, 0x40,
            0xF0, 0x90, 0xF0, 0x90, 0xF0,
            0xF0, 0x90, 0xF0, 0x10, 0xF0,
            0xF0, 0x90, 0xF0, 0x90, 0x90,
            0xE0, 0x90, 0xE0, 0x90, 0xE0,
            0xF0, 0x80, 0x80, 0x80, 0xF0,
            0xE0, 0x90, 0x90, 0x90, 0xE0,
            0xF0, 0x80, 0xF0, 0x80, 0xF0,
            0xF0, 0x80, 0xF0, 0x80, 0x80,
        ];
        proof {
            assert(font@ =~= glyphs());
        }
        let mut index: usize = 0;
        while index < font.len()
            invariant
                font@ == glyphs(),
                index <= font@.len(),
                self.memory@ == Seq::new(
                    MEMORY_SIZE as nat,
                    |a: int| if a < index { glyphs()[a] } else { 0u8 },
                ),
                self.display.key_sprites@ == Map::<u8, u16>::empty(),
                self.display.sprites == old(self).display.sprites,
                self.registers == old(self).registers,
                self.stack == old(self).stack,
                self.keyboard == old(self).keyboard,
                self.rom_loaded == old(self).rom_loaded,
            decreases font@.len() - index,
        {
            self.memory.set(index, font[index]);
            index += 1;
            proof {
                assert(self.memory@ =~= Seq::new(
                    MEMORY_SIZE as nat,
                    |a: int| if a < index { glyphs()[a] } else { 0u8 },
                ));
            }
        }
        let mut digit: u8 = 0;
        while digit < 16
            invariant
                digit <= 16,
                self.memory@ == initial_memory(),
                self.display.key_sprites@ == Map::new(|d: u8| d < digit, |d: u8| glyph_addr(d)),
                self.display.sprites == old(self).display.sprites,
                self.registers == old(self).registers,
                self.stack == old(self).stack,
                self.keyboard == old(self).keyboard,
                self.rom_loaded == old(self).rom_loaded,
            decreases 16 - digit,
        {
            self.display.key_sprites.insert(digit, digit as u16 * 5);
            digit += 1;
            proof {
                assert(self.display.key_sprites@ =~= Map::new(|d: u8| d < digit, |d: u8| glyph_addr(d)));
            }
        }
        proof {
            assert(self.display.key_sprites@ =~= glyph_table());
        }
    }
    /// Copies a program into memory from the program origin and points the program
    /// counter at it. A program longer than `MAX_ROM_LEN` is refused with the number of
    /// bytes by which it is too long, and nothing changes.
    pub fn load(&mut self, rom: &Vec<u8>) -> (r: Result<(), ChipError>)
        requires
            old(self).wf(),
        ensures
            final(self).wf(),
            final(self)@.memory.len() == MEMORY_SIZE,
            rom@.len() > MAX_ROM_LEN ==> r == Err::<(), ChipError>(ChipError::RomTooLarge((rom@.len() - MAX_ROM_LEN) as usize))
                && final(self)@ == old(self)@,
            rom@.len() <= MAX_ROM_LEN ==> r is Ok && final(self)@ == (MachineState {
                memory: with_rom(old(self)@.memory, rom@),
                regs: Registers { program_counter: PROGRAM_START as u16, ..old(self)@.regs },
                rom_loaded: true,
                ..old(self)@
            }),
    {
        let len = rom.len();
        if len > MAX_ROM_LEN {
            return Err(ChipError::RomTooLarge(len - MAX_ROM_LEN));
        }
        let ghost mem0 = self.memory@;
        let mut i: usize = 0;
        while i < len
            invariant
                len == rom@.len(),
                len <= MAX_ROM_LEN,
                i <= len,
                mem0.len() == MEMORY_SIZE,
                self.memory@ == with_rom(mem0, rom@.subrange(0, i as int)),
                self.wf(),
                self.display == old(self).display,
                self.registers == old(self).registers,
                self.stack == old(self).stack,
                self.keyboard == old(self).keyboard,
                self.rom_loaded == old(self).rom_loaded,
            decreases len - i,
        {
            self.memory.set(PROGRAM_START + i, rom[i]);
            i += 1;
            proof {
                assert(self.memory@ =~= with_rom(mem0, rom@.subrange(0, i as int)));
            }
        }
        proof {
            assert(rom@.subrange(0, len as int) =~= rom@);
        }
        self.registers.program_counter = PROGRAM_START as u16;
        self.rom_loaded = true;
        Ok(())
    }

    /// Reads the opcode at the program counter and advances the program counter past
    /// it; fails, changing nothing, when the program counter is outside
    /// `[PROGRAM_START, 0xFFF)`.
    fn fetch(&mut self) -> (r: Result<u16, ChipError>)
        requires
            old(self).wf(),
        ensures
            final(self).wf(),
            final(self)@.memory.len() == MEMORY_SIZE,
            !fetchable(old(self)@.regs.program_counter) ==> r == Err::<u16, ChipError>(ChipError::AddressOutofBounds)
                && final(self)@ == old(self)@,
            fetchable(old(self)@.regs.program_counter) ==> r == Ok::<u16, ChipError>(
                word_at(old(self)@.memory, old(self)@.regs.program_counter as int),
            ) && final(self)@ == fetched(old(self)@),
    {
        let pc: usize = self.registers.program_counter as usize;
        if pc >= 0xfff || pc < PROGRAM_START {
            return Err(ChipError::AddressOutofBounds);
        }
        let byte1 = self.memory[pc];
        let byte2 = self.memory[pc + 1];
        self.registers.program_counter = self.registers.program_counter + 2;
        Ok((byte1 as u16) * 256 + byte2 as u16)
    }

    /// Records a key press on the machine's keyboard, replacing any earlier one.
    pub fn set_key(&mut self, key: KeySymbol)
        requires
            old(self).wf(),
        ensures
            final(self).wf(),
            final(self)@.memory.len() == MEMORY_SIZE,
            final(self)@ == (MachineState { held: Some(key), ..old(self)@ }),
    {
        self.keyboard.set_key(key);
    }

    /// The register file.
    pub fn registers(&self) -> (r: Registers)
        ensures
            r == self@.regs,
    {
        self.registers
    }

    /// The byte at address `addr`.
    pub fn memory_at(&self, addr: usize) -> (r: u8)
        requires
            self.wf(),
            addr < MEMORY_SIZE,
        ensures
            r == self@.memory[addr as int],
    {
        self.memory[addr]
    }

    /// How many return addresses are on the call stack.
    pub fn stack_depth(&self) -> (r: usize)
        ensures
            r == self@.stack.len(),
    {
        self.stack.len()
    }

    /// How many sprites have been placed since the last clear.
    pub fn sprite_count(&self) -> (r: usize)
        ensures
            r == self@.sprites.len(),
    {
        self.display.sprites.len()
    }

    /// Whether a program has been loaded.
    pub fn rom_loaded(&self) -> (r: bool)
        ensures
            r == self@.rom_loaded,
    {
        self.rom_loaded
    }
    /// Skips the next instruction.
    fn skip(&mut self)
        ensures
            *final(self) == (Chip8 {
                registers: Registers {
                    program_counter: old(self).registers.program_counter.wrapping_add(2),
                    ..old(self).registers
                },
                ..*old(self)
            }),
    {
        self.registers.program_counter = self.registers.program_counter.wrapping_add(2);
    }

    /// Places a sprite of `size` rows read from the index register at `(Vx, Vy)`.
    fn draw(&mut self, x: u8, y: u8, size: u8) -> (r: Result<SDLDo, ChipError>)
        requires
            old(self).wf(),
        ensures
            final(self).wf(),
            final(self)@.memory.len() == MEMORY_SIZE,
            (final(self)@, outcome_of(r)) == exec_spec(old(self)@, Instruction::Draw(x, y, size), 0),
    {
        let vx = self.registers.get_vx(x)?;
        let vy = self.registers.get_vx(y)?;
        if size > 15 {
            return Err(ChipError::InvalidSpriteSize);
        }
        let addr = self.registers.i as usize;
        let end = addr + size as usize;
        if end > MEMORY_SIZE {
            return Err(ChipError::AddressOutofBounds);
        }
        let mut sprite_buf: Vec<u8> = Vec::new();
        let mut a: usize = addr;
        while a < end
            invariant
                addr <= a <= end,
                end <= MEMORY_SIZE,
                self.wf(),
                sprite_buf@ == self.memory@.subrange(addr as int, a as int),
            decreases end - a,
        {
            sprite_buf.push(self.memory[a]);
            a += 1;
            proof {
                assert(sprite_buf@ =~= self.memory@.subrange(addr as int, a as int));
            }
        }
        let sprite = match Sprite::new(sprite_buf, vx, vy) {
            Ok(sprite) => sprite,
            Err(e) => return Err(e),
        };
        let rects = sprite.into_rects();
        let ghost before = self.display.sprites@;
        self.display.sprites.push(sprite);
        proof {
            assert(self.display.sprites@.map_values(|s: Sprite| s@) =~= before.map_values(|s: Sprite| s@).push(sprite@));
        }
        Ok(SDLDo::Draw(rects))
    }

    /// Copies `V0..=Vx` to memory from the index register on.
    fn store_registers(&mut self, x: u8) -> (r: Result<SDLDo, ChipError>)
        requires
            old(self).wf(),
        ensures
            final(self).wf(),
            final(self)@.memory.len() == MEMORY_SIZE,
            (final(self)@, outcome_of(r)) == exec_spec(old(self)@, Instruction::StoreRegI(x), 0),
    {
        if x >= 16 {
            return Err(ChipError::InvalidRegister);
        }
        let base = self.registers.i as usize;
        if base + x as usize + 1 > MEMORY_SIZE {
            return Err(ChipError::AddressOutofBounds);
        }
        let ghost mem0 = self.memory@;
        let mut addr: usize = base;
        let mut k: u8 = 0;
        while k <= x
            invariant
                x < 16,
                k <= x + 1,
                addr == base + k,
                base == self.registers.i,
                base + x + 1 <= MEMORY_SIZE,
                self.wf(),
                self.memory@ == store_regs(mem0, self.registers, base as int, k as nat),
                self.registers == old(self).registers,
                self.display == old(self).display,
                self.stack == old(self).stack,
                self.keyboard == old(self).keyboard,
                self.rom_loaded == old(self).rom_loaded,
            decreases x + 1 - k,
        {
            let vk = self.registers.get_vx(k)?;
            self.memory.set(addr, vk);
            addr += 1;
            k += 1;
        }
        Ok(SDLDo::NoOp)
    }

    /// Copies memory from the index register on into `V0..=Vx`.
    fn load_registers(&mut self, x: u8) -> (r: Result<SDLDo, ChipError>)
        requires
            old(self).wf(),
        ensures
            final(self).wf(),
            final(self)@.memory.len() == MEMORY_SIZE,
            (final(self)@, outcome_of(r)) == exec_spec(old(self)@, Instruction::LoadRegI(x), 0),
    {
        if x >= 16 {
            return Err(ChipError::InvalidRegister);
        }
        let base = self.registers.i as usize;
        if base + x as usize + 1 > MEMORY_SIZE {
            return Err(ChipError::AddressOutofBounds);
        }
        let mut addr: usize = base;
        let mut k: u8 = 0;
        while k <= x
            invariant
                x < 16,
                k <= x + 1,
                addr == base + k,
                base == old(self).registers.i,
                base + x + 1 <= MEMORY_SIZE,
                self.wf(),
                self.registers == load_regs(old(self).registers, old(self).memory@, base as int, k as nat),
                self.memory == old(self).memory,
                self.display == old(self).display,
                self.stack == old(self).stack,
                self.keyboard == old(self).keyboard,
                self.rom_loaded == old(self).rom_loaded,
            decreases x + 1 - k,
        {
            let byte = self.memory[addr];
            addr += 1;
            self.registers.set_vx(k, byte)?;
            k += 1;
        }
        Ok(SDLDo::NoOp)
    }

    /// Applies one instruction, with `rnd` as the random byte that `Rand` masks.
    #[verifier::rlimit(50)]
    pub fn exec_with_random(&mut self, ins: Instruction, rnd: u8) -> (r: Result<SDLDo, ChipError>)
        requires
            old(self).wf(),
        ensures
            final(self).wf(),
            final(self)@.memory.len() == MEMORY_SIZE,
            (final(self)@, outcome_of(r)) == exec_spec(old(self)@, ins, rnd),
    {
        match ins {
            Instruction::SYSaddr => Ok(SDLDo::NoOp),
            Instruction::ClearScreen => {
                self.display.sprites = Vec::new();
                proof {
                    assert(self@.sprites =~= seq![]);
                }
                Ok(SDLDo::ClearScreen)
            },
            Instruction::Return => {
                match self.stack.pop() {
                    Some(addr) => {
                        self.registers.program_counter = addr;
                        self.registers.stack_pointer = self.registers.stack_pointer.wrapping_sub(1);
                        Ok(SDLDo::NoOp)
                    },
                    None => Err(ChipError::AddressOutofBounds),
                }
            },
            Instruction::Jump(addr) => {
                self.registers.program_counter = addr;
                Ok(SDLDo::NoOp)
            },
            Instruction::Call(addr) => {
                self.stack.push(self.registers.program_counter);
                self.registers.stack_pointer = self.registers.stack_pointer.wrapping_add(1);
                self.registers.program_counter = addr;
                Ok(SDLDo::NoOp)
            },
            Instruction::SkipEqualByte(x, byte) => {
                let vx = self.registers.get_vx(x)?;
                if vx == byte {
                    self.skip();
                }
                Ok(SDLDo::NoOp)
            },
            Instruction::SkipNotEqualByte(x, byte) => {
                let vx = self.registers.get_vx(x)?;
                if vx != byte {
                    self.skip();
                }
                Ok(SDLDo::NoOp)
            },
            Instruction::SkipEqualReg(x, y) => {
                let vx = self.registers.get_vx(x)?;
                let vy = self.registers.get_vx(y)?;
                if vx == vy {
                    self.skip();
                }
                Ok(SDLDo::NoOp)
            },
            Instruction::LoadByte(x, byte) => {
                self.registers.set_vx(x, byte)?;
                Ok(SDLDo::NoOp)
            },
            Instruction::AddByte(x, byte) => {
                let vx = self.registers.get_vx(x)?;
                let sum: u16 = vx as u16 + byte as u16;
                if sum > 255 {
                    self.registers.vf = 1;
                }
                self.registers.set_vx(x, vx.wrapping_add(byte))?;
                Ok(SDLDo::NoOp)
            },
            Instruction::LoadReg(x, y) => {
                let vy = self.registers.get_vx(y)?;
                self.registers.set_vx(x, vy)?;
                Ok(SDLDo::NoOp)
            },
            Instruction::OR(x, y) => {
                let vx = self.registers.get_vx(x)?;
                let vy = self.registers.get_vx(y)?;
                self.registers.set_vx(x, vx | vy)?;
                Ok(SDLDo::NoOp)
            },
            Instruction::AND(x, y) => {
                let vx = self.registers.get_vx(x)?;
                let vy = self.registers.get_vx(y)?;
                self.registers.set_vx(x, vx & vy)?;
                Ok(SDLDo::NoOp)
            },
            Instruction::XOR(x, y) => {
                let vx = self.registers.get_vx(x)?;
                let vy = self.registers.get_vx(y)?;
                self.registers.set_vx(x, vx ^ vy)?;
                Ok(SDLDo::NoOp)
            },
            Instruction::AddReg(x, y) => {
                let vx = self.registers.get_vx(x)?;
                let vy = self.registers.get_vx(y)?;
                let sum: u16 = vx as u16 + vy as u16;
                if sum > 255 {
                    self.registers.vf = 1;
                } else {
                    self.registers.vf = 0;
                }
                self.registers.set_vx(x, vx.wrapping_add(vy))?;
                Ok(SDLDo::NoOp)
            },
            Instruction::SubReg(x, y) => {
                let vx = self.registers.get_vx(x)?;
                let vy = self.registers.get_vx(y)?;
                let borrow: u8 = if vx < vy { 1 } else { 0 };
                self.registers.set_vx(0xF, borrow)?;
                self.registers.set_vx(x, vx.wrapping_sub(vy))?;
                Ok(SDLDo::NoOp)
            },
            Instruction::ShiftRight(x) => {
                let vx = self.registers.get_vx(x)?;
                // The flag follows `trailing_ones() > 0`: the lowest bit is set.
                let low: u8 = if vx % 2 == 1 { 1 } else { 0 };
                self.registers.set_vx(0xF, low)?;
                self.registers.set_vx(x, vx / 2)?;
                Ok(SDLDo::NoOp)
            },
            Instruction::SubN(x, y) => {
                let vx = self.registers.get_vx(x)?;
                let vy = self.registers.get_vx(y)?;
                let borrow: u8 = if vy < vx { 1 } else { 0 };
                self.registers.set_vx(0xF, borrow)?;
                self.registers.set_vx(x, vy.wrapping_sub(vx))?;
                Ok(SDLDo::NoOp)
            },
            Instruction::ShiftLeft(x) => {
                let vx = self.registers.get_vx(x)?;
                // The flag follows `leading_ones() > 0`: the highest bit is set.
                let high: u8 = if vx >= 128 { 1 } else { 0 };
                self.registers.set_vx(0xF, high)?;
                self.registers.set_vx(x, vx.wrapping_mul(2))?;
                Ok(SDLDo::NoOp)
            },
            Instruction::SkipNotEqualReg(x, y) => {
                let vx = self.registers.get_vx(x)?;
                let vy = self.registers.get_vx(y)?;
                if vx != vy {
                    self.skip();
                }
                Ok(SDLDo::NoOp)
            },
            Instruction::LoadI(addr) => {
                self.registers.i = addr;
                Ok(SDLDo::NoOp)
            },
            Instruction::JumpAdd(addr) => {
                self.registers.program_counter = addr.wrapping_add(self.registers.v0 as u16);
                Ok(SDLDo::NoOp)
            },
            Instruction::Rand(x, byte) => {
                self.registers.set_vx(x, byte & rnd)?;
                Ok(SDLDo::NoOp)
            },
            Instruction::Draw(x, y, size) => self.draw(x, y, size),
            Instruction::SkipKey(x) => {
                let vx = self.registers.get_vx(x)?;
                if let Some(held_down) = self.keyboard.get_key() {
                    if vx == held_down {
                        self.skip();
                    }
                }
                Ok(SDLDo::NoOp)
            },
            Instruction::SkipNotKey(x) => {
                let vx = self.registers.get_vx(x)?;
                if let Some(held_down) = self.keyboard.get_key() {
                    if vx != held_down {
                        self.skip();
                    }
                }
                Ok(SDLDo::NoOp)
            },
            Instruction::GetDelay(x) => {
                let delay = self.registers.delay_timer;
                self.registers.set_vx(x, delay)?;
                Ok(SDLDo::NoOp)
            },
            Instruction::WaitKey(x) => match self.keyboard.get_key() {
                Some(key) => {
                    self.registers.set_vx(x, key)?;
                    Ok(SDLDo::NoOp)
                },
                None => {
                    self.registers.program_counter = self.registers.program_counter.wrapping_sub(2);
                    Ok(SDLDo::NoOp)
                },
            },
            Instruction::SetDelay(x) => {
                let vx = self.registers.get_vx(x)?;
                self.registers.delay_timer = vx;
                Ok(SDLDo::NoOp)
            },
            Instruction::SetSound(x) => {
                let vx = self.registers.get_vx(x)?;
                self.registers.sound_timer = vx;
                Ok(SDLDo::NoOp)
            },
            Instruction::AddI(x) => {
                let vx = self.registers.get_vx(x)?;
                self.registers.i = self.registers.i.wrapping_add(vx as u16);
                Ok(SDLDo::NoOp)
            },
            Instruction::SetISprite(x) => {
                let vx = self.registers.get_vx(x)?;
                if let Some(addr) = self.display.key_sprites.get(&vx) {
                    self.registers.i = *addr;
                }
                Ok(SDLDo::NoOp)
            },
            Instruction::StoreBCD(x) => {
                let vx = self.registers.get_vx(x)?;
                let addr = self.registers.i as usize;
                if addr + 3 > MEMORY_SIZE {
                    return Err(ChipError::AddressOutofBounds);
                }
                self.memory.set(addr, vx / 100);
                self.memory.set(addr + 1, (vx / 10) % 10);
                self.memory.set(addr + 2, vx % 10);
                Ok(SDLDo::NoOp)
            },
            Instruction::StoreRegI(x) => self.store_registers(x),
            Instruction::LoadRegI(x) => self.load_registers(x),
            Instruction::Invalid => Err(ChipError::InvalidInstruction),
        }
    }

    /// Applies one instruction; `Rand` draws its byte from the thread-local generator.
    pub fn exec(&mut self, ins: Instruction) -> (r: Result<SDLDo, ChipError>)
        requires
            old(self).wf(),
        ensures
            final(self).wf(),
            final(self)@.memory.len() == MEMORY_SIZE,
            exists|rnd: u8| (final(self)@, outcome_of(r)) == exec_spec(old(self)@, ins, rnd),
    {
        let rnd: u8 = match ins {
            Instruction::Rand(_, _) => random_byte(),
            _ => 0,
        };
        self.exec_with_random(ins, rnd)
    }

    /// Runs one step with `rnd` as the random byte: fetch, decode, tick both timers,
    /// execute.
    pub fn step_with_random(&mut self, rnd: u8) -> (r: Result<SDLDo, ChipError>)
        requires
            old(self).wf(),
        ensures
            final(self).wf(),
            final(self)@.memory.len() == MEMORY_SIZE,
            (final(self)@, outcome_of(r)) == step_spec(old(self)@, rnd),
    {
        let raw = self.fetch()?;
        let instruction = decode(raw);
        self.tick_timers();
        self.exec_with_random(instruction, rnd)
    }

    /// Runs one step: fetch, decode, tick both timers, execute. `Rand` draws its byte
    /// from the thread-local generator.
    pub fn step(&mut self) -> (r: Result<SDLDo, ChipError>)
        requires
            old(self).wf(),
        ensures
            final(self).wf(),
            final(self)@.memory.len() == MEMORY_SIZE,
            exists|rnd: u8| (final(self)@, outcome_of(r)) == step_spec(old(self)@, rnd),
    {
        let ghost s0 = self@;
        let raw = match self.fetch() {
            Ok(raw) => raw,
            Err(e) => {
                assert((self@, outcome_of(Err(e))) == step_spec(s0, 0));
                return Err(e);
            },
        };
        let instruction = decode(raw);
        self.tick_timers();
        let ghost s1 = self@;
        let r = self.exec(instruction);
        proof {
            let w = choose|rnd: u8| (self@, outcome_of(r)) == exec_spec(s1, instruction, rnd);
            assert((self@, outcome_of(r)) == step_spec(s0, w));
        }
        r
    }

    /// Counts both timers down by one, stopping at zero.
    fn tick_timers(&mut self)
        requires
            old(self).wf(),
        ensures
            final(self).wf(),
            final(self)@.memory.len() == MEMORY_SIZE,
            final(self)@ == old(self)@.with_regs(Registers {
                delay_timer: tick(old(self)@.regs.delay_timer),
                sound_timer: tick(old(self)@.regs.sound_timer),
                ..old(self)@.regs
            }),
    {
        if self.registers.delay_timer != 0 {
            self.registers.delay_timer = self.registers.delay_timer - 1;
        }
        if self.registers.sound_timer != 0 {
            self.registers.sound_timer = self.registers.sound_timer - 1;
        }
    }
}

} // verus!
