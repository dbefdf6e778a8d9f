//! The instruction set: decoding a 16-bit word into an instruction, and
//! what each instruction does to the machine.
//!
//! Word fields: the top nibble selects the class; `X` and `Y` are the
//! second and third nibbles (register numbers), `N` the low nibble, `NN`
//! the low byte and `NNN` the low twelve bits (an address).

use vstd::prelude::*;

use crate::constants::{
    DATA_REGISTERS_SIZE, FONT_CHAR_SIZE, FONT_START_ADDRESS, INSTRUCTION_SIZE, MAX_ADDRESS,
    MEMORY_SIZE, STACK_SIZE, VF_REGISTER_INDEX,
};
use crate::cpu::{model_wf, reg, set_flag, set_reg, skip_if, with_pc, wrap16, CpuModel, CPU};
use crate::display::{drawn, sprite_collides, DisplayModel};
use crate::fault::Fault;
use crate::input::{poll_wait, InputModel};
use crate::reg::RegistersModel;
use crate::timer::TimersModel;

verus! {

/// Index of register V0.
pub const V0_REGISTER_INDEX: u8 = 0;

/// Mask of the low nibble.
pub const NIBBLE_MASK: u8 = 0xF;

/// One decoded instruction, with the word's pattern beside each variant.
#[derive(Clone, Copy, Debug, PartialEq, Eq, Structural)]
pub enum Opcode {
    /// `0NNN`: call a machine-code routine; not supported.
    CallRoutine,
    /// `00E0`
    ClearDisplay {},
    /// `00EE`
    Return {},
    /// `1NNN`
    Goto { address: u16 },
    /// `2NNN`
    CallSubroutine { address: u16 },
    /// `3XNN`
    SkipIfEqual { register: u8, value: u8 },
    /// `4XNN`
    SkipIfNotEqual { register: u8, value: u8 },
    /// `5XY0`
    SkipIfRegistersEqual { reg_x: u8, reg_y: u8 },
    /// `6XNN`
    SetRegister { register: u8, value: u8 },
    /// `7XNN`: add without touching the flag.
    AddToRegister { register: u8, value: u8 },
    /// `8XY0`
    AssignRegister { reg_x: u8, reg_y: u8 },
    /// `8XY1`
    BitwiseOr { reg_x: u8, reg_y: u8 },
    /// `8XY2`
    BitwiseAnd { reg_x: u8, reg_y: u8 },
    /// `8XY3`
    BitwiseXor { reg_x: u8, reg_y: u8 },
    /// `8XY4`
    AddRegisters { reg_x: u8, reg_y: u8 },
    /// `8XY5`
    SubtractRegisters { reg_x: u8, reg_y: u8 },
    /// `8XY6`
    ShiftRight { reg_x: u8 },
    /// `8XY7`
    SubtractReverse { reg_x: u8, reg_y: u8 },
    /// `8XYE`
    ShiftLeft { reg_x: u8 },
    /// `9XY0`
    SkipIfRegNotEqual { reg_x: u8, reg_y: u8 },
    /// `ANNN`
    SetAddress { address: u16 },
    /// `BNNN`
    JumpWithOffset { address: u16 },
    /// `CXNN`
    Random { register: u8, value: u8 },
    /// `DXYN`
    Draw { reg_x: u8, reg_y: u8, height: u8 },
    /// `EX9E`
    SkipIfKeyPressed { register: u8 },
    /// `EXA1`
    SkipIfKeyNotPressed { register: u8 },
    /// `FX07`
    GetDelayTimer { register: u8 },
    /// `FX0A`
    WaitForKey { register: u8 },
    /// `FX15`
    SetDelayTimer { register: u8 },
    /// `FX18`
    SetSoundTimer { register: u8 },
    /// `FX1E`
    AddToAddress { register: u8 },
    /// `FX29`
    SetSpriteAddress { register: u8 },
    /// `FX33`
    StoreBCD { register: u8 },
    /// `FX55`
    StoreRegisters { reg_x: u8 },
    /// `FX65`
    LoadRegisters { reg_x: u8 },
}

/// The top nibble of `w`.
pub open spec fn nibble_class(w: u16) -> u16 {
    w / 0x1000
}

/// The second nibble, `X`.
pub open spec fn nibble_x(w: u16) -> u8 {
    ((w / 0x100) % 0x10) as u8
}

/// The third nibble, `Y`.
pub open spec fn nibble_y(w: u16) -> u8 {
    ((w / 0x10) % 0x10) as u8
}

/// The low nibble, `N`.
pub open spec fn nibble_n(w: u16) -> u8 {
    (w % 0x10) as u8
}

/// The low byte, `NN`.
pub open spec fn low_byte(w: u16) -> u8 {
    (w % 0x100) as u8
}

/// The low twelve bits, `NNN`.
pub open spec fn low_address(w: u16) -> u16 {
    w % 0x1000
}

/// The instruction that word `w` encodes, or `None` when it matches none of
/// the legal patterns.
pub open spec fn decode(w: u16) -> Option<Opcode> {
    let x = nibble_x(w);
    let y = nibble_y(w);
    let nn = low_byte(w);
    let nnn = low_address(w);
    match (nibble_class(w), x, y, nibble_n(w)) {
        (0x0, 0x0, 0xE, 0x0) => Some(Opcode::ClearDisplay {  }),
        (0x0, 0x0, 0xE, 0xE) => Some(Opcode::Return {  }),
        (0x0, _, _, _) => Some(Opcode::CallRoutine),
        (0x1, _, _, _) => Some(Opcode::Goto { address: nnn }),
        (0x2, _, _, _) => Some(Opcode::CallSubroutine { address: nnn }),
        (0x3, _, _, _) => Some(Opcode::SkipIfEqual { register: x, value: nn }),
        (0x4, _, _, _) => Some(Opcode::SkipIfNotEqual { register: x, value: nn }),
        (0x5, _, _, 0x0) => Some(Opcode::SkipIfRegistersEqual { reg_x: x, reg_y: y }),
        (0x6, _, _, _) => Some(Opcode::SetRegister { register: x, value: nn }),
        (0x7, _, _, _) => Some(Opcode::AddToRegister { register: x, value: nn }),
        (0x8, _, _, 0x0) => Some(Opcode::AssignRegister { reg_x: x, reg_y: y }),
        (0x8, _, _, 0x1) => Some(Opcode::BitwiseOr { reg_x: x, reg_y: y }),
        (0x8, _, _, 0x2) => Some(Opcode::BitwiseAnd { reg_x: x, reg_y: y }),
        (0x8, _, _, 0x3) => Some(Opcode::BitwiseXor { reg_x: x, reg_y: y }),
        (0x8, _, _, 0x4) => Some(Opcode::AddRegisters { reg_x: x, reg_y: y }),
        (0x8, _, _, 0x5) => Some(Opcode::SubtractRegisters { reg_x: x, reg_y: y }),
        (0x8, _, _, 0x6) => Some(Opcode::ShiftRight { reg_x: x }),
        (0x8, _, _, 0x7) => Some(Opcode::SubtractReverse { reg_x: x, reg_y: y }),
        (0x8, _, _, 0xE) => Some(Opcode::ShiftLeft { reg_x: x }),
        (0x9, _, _, 0x0) => Some(Opcode::SkipIfRegNotEqual { reg_x: x, reg_y: y }),
        (0xA, _, _, _) => Some(Opcode::SetAddress { address: nnn }),
        (0xB, _, _, _) => Some(Opcode::JumpWithOffset { address: nnn }),
        (0xC, _, _, _) => Some(Opcode::Random { register: x, value: nn }),
        (0xD, _, _, n) => Some(Opcode::Draw { reg_x: x, reg_y: y, height: n }),
        (0xE, _, 0x9, 0xE) => Some(Opcode::SkipIfKeyPressed { register: x }),
        (0xE, _, 0xA, 0x1) => Some(Opcode::SkipIfKeyNotPressed { register: x }),
        (0xF, _, 0x0, 0x7) => Some(Opcode::GetDelayTimer { register: x }),
        (0xF, _, 0x0, 0xA) => Some(Opcode::WaitForKey { register: x }),
        (0xF, _, 0x1, 0x5) => Some(Opcode::SetDelayTimer { register: x }),
        (0xF, _, 0x1, 0x8) => Some(Opcode::SetSoundTimer { register: x }),
        (0xF, _, 0x1, 0xE) => Some(Opcode::AddToAddress { register: x }),
        (0xF, _, 0x2, 0x9) => Some(Opcode::SetSpriteAddress { register: x }),
        (0xF, _, 0x3, 0x3) => Some(Opcode::StoreBCD { register: x }),
        (0xF, _, 0x5, 0x5) => Some(Opcode::StoreRegisters { reg_x: x }),
        (0xF, _, 0x6, 0x5) => Some(Opcode::LoadRegisters { reg_x: x }),
        _ => None,
    }
}

/// A register number names one of the sixteen registers.
pub open spec fn is_register(r: u8) -> bool {
    (r as usize) < DATA_REGISTERS_SIZE
}

/// For any two register values: adding leaves `(Vx + Vy) mod 256` in Vx
/// and sets the flag to 1 exactly when `Vx + Vy > 255`; subtracting leaves
/// `(Vx - Vy) mod 256` and sets the flag to 1 exactly when `Vx >= Vy`. The
/// flag is written last, so Vx must not be VF itself.
pub proof fn lemma_add_sub_flags(s: CpuModel, x: u8, y: u8, random: u8)
    requires
        model_wf(s),
        is_register(x),
        is_register(y),
        x != VF_REGISTER_INDEX,
    ensures
        ({
            let (vx, vy) = (reg(s, x), reg(s, y));
            &&& execute_spec(Opcode::AddRegisters { reg_x: x, reg_y: y }, s, random) matches Ok(t)
                && reg(t, x) == (vx + vy) % 256 && reg(t, VF_REGISTER_INDEX) == if vx + vy > 255 {
                1u8
            } else {
                0u8
            }
            &&& execute_spec(Opcode::SubtractRegisters { reg_x: x, reg_y: y }, s, random) matches Ok(
                t,
            ) && reg(t, x) == (vx - vy) % 256 && reg(t, VF_REGISTER_INDEX) == if vx >= vy {
                1u8
            } else {
                0u8
            }
        }),
{
}

/// Whether `w` agrees with `value` on the bits of `mask`.
pub open spec fn fits_pattern(w: u16, mask: u16, value: u16) -> bool {
    w & mask == value
}

/// Whether `w` matches one of the legal instruction patterns, each a mask of
/// the fixed bits and the value they must have.
pub open spec fn is_legal_word(w: u16) -> bool {
    fits_pattern(w, 0xFFFF, 0x00E0)
    || fits_pattern(w, 0xFFFF, 0x00EE)
    || fits_pattern(w, 0xF000, 0x0000)
    || fits_pattern(w, 0xF000, 0x1000)
    || fits_pattern(w, 0xF000, 0x2000)
    || fits_pattern(w, 0xF000, 0x3000)
    || fits_pattern(w, 0xF000, 0x4000)
    || fits_pattern(w, 0xF00F, 0x5000)
    || fits_pattern(w, 0xF000, 0x6000)
    || fits_pattern(w, 0xF000, 0x7000)
    || fits_pattern(w, 0xF00F, 0x8000)
    || fits_pattern(w, 0xF00F, 0x8001)
    || fits_pattern(w, 0xF00F, 0x8002)
    || fits_pattern(w, 0xF00F, 0x8003)
    || fits_pattern(w, 0xF00F, 0x8004)
    || fits_pattern(w, 0xF00F, 0x8005)
    || fits_pattern(w, 0xF00F, 0x8006)
    || fits_pattern(w, 0xF00F, 0x8007)
    || fits_pattern(w, 0xF00F, 0x800E)
    || fits_pattern(w, 0xF00F, 0x9000)
    || fits_pattern(w, 0xF000, 0xA000)
    || fits_pattern(w, 0xF000, 0xB000)
    || fits_pattern(w, 0xF000, 0xC000)
    || fits_pattern(w, 0xF000, 0xD000)
    || fits_pattern(w, 0xF0FF, 0xE09E)
    || fits_pattern(w, 0xF0FF, 0xE0A1)
    || fits_pattern(w, 0xF0FF, 0xF007)
    || fits_pattern(w, 0xF0FF, 0xF00A)
    || fits_pattern(w, 0xF0FF, 0xF015)
    || fits_pattern(w, 0xF0FF, 0xF018)
    || fits_pattern(w, 0xF0FF, 0xF01E)
    || fits_pattern(w, 0xF0FF, 0xF029)
    || fits_pattern(w, 0xF0FF, 0xF033)
    || fits_pattern(w, 0xF0FF, 0xF055)
    || fits_pattern(w, 0xF0FF, 0xF065)
}

/// Decoding is total: every word decodes, to an instruction with its fields
/// in range, exactly when it matches one of the legal patterns; every other
/// word is an unknown opcode.
pub proof fn lemma_decode_total(w: u16)
    ensures
        decode(w) is Some <==> is_legal_word(w),
        decode(w) matches Some(op) ==> op.wf(),
{
    assert(w & 0xFFFF == w) by (bit_vector);
    assert(w & 0xF000 == (w / 0x1000) * 0x1000) by (bit_vector);
    assert(w & 0xF00F == (w / 0x1000) * 0x1000 + w % 0x10) by (bit_vector);
    assert(w & 0xF0FF == (w / 0x1000) * 0x1000 + w % 0x100) by (bit_vector);
}

impl Opcode {
    /// The fields are in range: register numbers below 16, addresses of
    /// twelve bits, a sprite height of one nibble. Decoded instructions
    /// always are.
    pub open spec fn wf(self) -> bool {
        match self {
            Opcode::CallRoutine | Opcode::ClearDisplay {  } | Opcode::Return {  } => true,
            Opcode::Goto { address }
            | Opcode::CallSubroutine { address }
            | Opcode::SetAddress { address }
            | Opcode::JumpWithOffset { address } => address <= MAX_ADDRESS,
            Opcode::SkipIfEqual { register, .. }
            | Opcode::SkipIfNotEqual { register, .. }
            | Opcode::SetRegister { register, .. }
            | Opcode::AddToRegister { register, .. }
            | Opcode::Random { register, .. }
            | Opcode::SkipIfKeyPressed { register }
            | Opcode::SkipIfKeyNotPressed { register }
            | Opcode::GetDelayTimer { register }
            | Opcode::WaitForKey { register }
            | Opcode::SetDelayTimer { register }
            | Opcode::SetSoundTimer { register }
            | Opcode::AddToAddress { register }
            | Opcode::SetSpriteAddress { register }
            | Opcode::StoreBCD { register } => is_register(register),
            Opcode::SkipIfRegistersEqual { reg_x, reg_y }
            | Opcode::AssignRegister { reg_x, reg_y }
            | Opcode::BitwiseOr { reg_x, reg_y }
            | Opcode::BitwiseAnd { reg_x, reg_y }
            | Opcode::BitwiseXor { reg_x, reg_y }
            | Opcode::AddRegisters { reg_x, reg_y }
            | Opcode::SubtractRegisters { reg_x, reg_y }
            | Opcode::SubtractReverse { reg_x, reg_y }
            | Opcode::SkipIfRegNotEqual { reg_x, reg_y } => is_register(reg_x) && is_register(
                reg_y,
            ),
            Opcode::ShiftRight { reg_x }
            | Opcode::ShiftLeft { reg_x }
            | Opcode::StoreRegisters { reg_x }
            | Opcode::LoadRegisters { reg_x } => is_register(reg_x),
            Opcode::Draw { reg_x, reg_y, height } => is_register(reg_x) && is_register(reg_y)
                && height < 16,
        }
    }
}

/// The key code a register selects: its low nibble.
pub open spec fn key_of(v: u8) -> u8 {
    v % 16
}

/// The three decimal digits of `v`, hundreds first.
pub open spec fn bcd_digits(v: u8) -> Seq<u8> {
    seq![v / 100, (v % 100) / 10, v % 10]
}

/// Memory with `bytes` written from address `at` on.
pub open spec fn store_bytes(mem: Seq<u8>, at: int, bytes: Seq<u8>) -> Seq<u8> {
    Seq::new(
        mem.len(),
        |a: int|
            if at <= a < at + bytes.len() {
                bytes[a - at]
            } else {
                mem[a]
            },
    )
}

/// `s` with memory changed to `mem`.
pub open spec fn with_memory(s: CpuModel, mem: Seq<u8>) -> CpuModel {
    CpuModel { memory: mem, ..s }
}

/// What `op` does to state `s`, whose PC already points past the
/// instruction; `random` is the byte a random instruction draws. A fault
/// leaves the state as it was.
pub open spec fn execute_spec(op: Opcode, s: CpuModel, random: u8) -> Result<CpuModel, Fault> {
    let i = s.regs.i;
    match op {
        Opcode::CallRoutine => Err(Fault::UnsupportedRoutine),
        Opcode::ClearDisplay {  } => Ok(
            CpuModel {
                display: DisplayModel {
                    on: Seq::new(crate::constants::DISPLAY_PIXELS as nat, |_p: int| false),
                    ..s.display
                },
                ..s
            },
        ),
        Opcode::Return {  } => Ok(
            if s.stack.len() == 0 {
                s
            } else {
                CpuModel { stack: s.stack.drop_last(), pc: s.stack.last(), ..s }
            },
        ),
        Opcode::Goto { address } => Ok(with_pc(s, address)),
        Opcode::CallSubroutine { address } => if s.stack.len() >= STACK_SIZE {
            Err(Fault::StackOverflow)
        } else {
            Ok(CpuModel { stack: s.stack.push(s.pc), pc: address, ..s })
        },
        Opcode::SkipIfEqual { register, value } => Ok(skip_if(s, reg(s, register) == value)),
        Opcode::SkipIfNotEqual { register, value } => Ok(skip_if(s, reg(s, register) != value)),
        Opcode::SkipIfRegistersEqual { reg_x, reg_y } => Ok(
            skip_if(s, reg(s, reg_x) == reg(s, reg_y)),
        ),
        Opcode::SetRegister { register, value } => Ok(set_reg(s, register, value)),
        Opcode::AddToRegister { register, value } => Ok(
            set_reg(s, register, ((reg(s, register) + value) % 256) as u8),
        ),
        Opcode::AssignRegister { reg_x, reg_y } => Ok(set_reg(s, reg_x, reg(s, reg_y))),
        Opcode::BitwiseOr { reg_x, reg_y } => Ok(set_reg(s, reg_x, reg(s, reg_x) | reg(s, reg_y))),
        Opcode::BitwiseAnd { reg_x, reg_y } => Ok(set_reg(s, reg_x, reg(s, reg_x) & reg(s, reg_y))),
        Opcode::BitwiseXor { reg_x, reg_y } => Ok(set_reg(s, reg_x, reg(s, reg_x) ^ reg(s, reg_y))),
        Opcode::AddRegisters { reg_x, reg_y } => {
            let sum = reg(s, reg_x) + reg(s, reg_y);
            Ok(set_flag(set_reg(s, reg_x, (sum % 256) as u8), if sum > 255 { 1 } else { 0 }))
        },
        Opcode::SubtractRegisters { reg_x, reg_y } => {
            let (vx, vy) = (reg(s, reg_x), reg(s, reg_y));
            Ok(
                set_flag(
                    set_reg(s, reg_x, ((vx - vy) % 256) as u8),
                    if vx >= vy { 1 } else { 0 },
                ),
            )
        },
        Opcode::ShiftRight { reg_x } => {
            let vx = reg(s, reg_x);
            Ok(set_reg(set_flag(s, vx % 2), reg_x, vx / 2))
        },
        Opcode::SubtractReverse { reg_x, reg_y } => {
            let (vx, vy) = (reg(s, reg_x), reg(s, reg_y));
            Ok(
                set_flag(
                    set_reg(s, reg_x, ((vy - vx) % 256) as u8),
                    if vy >= vx { 1 } else { 0 },
                ),
            )
        },
        Opcode::ShiftLeft { reg_x } => {
            let vx = reg(s, reg_x);
            Ok(set_reg(set_flag(s, vx / 128), reg_x, ((vx * 2) % 256) as u8))
        },
        Opcode::SkipIfRegNotEqual { reg_x, reg_y } => Ok(
            skip_if(s, reg(s, reg_x) != reg(s, reg_y)),
        ),
        Opcode::SetAddress { address } => Ok(
            CpuModel { regs: RegistersModel { i: address, ..s.regs }, ..s },
        ),
        Opcode::JumpWithOffset { address } => Ok(
            with_pc(s, (address + reg(s, V0_REGISTER_INDEX)) as u16),
        ),
        Opcode::Random { register, value } => Ok(set_reg(s, register, random & value)),
        Opcode::Draw { reg_x, reg_y, height } => if i + height > MEMORY_SIZE {
            Err(Fault::MemoryOutOfBounds { address: MEMORY_SIZE as u16 })
        } else {
            let rows = s.memory.subrange(i as int, i + height);
            let (x, y) = (reg(s, reg_x), reg(s, reg_y));
            Ok(
                set_flag(
                    CpuModel { display: drawn(s.display, x, y, rows), ..s },
                    if sprite_collides(s.display, x, y, rows) { 1 } else { 0 },
                ),
            )
        },
        Opcode::SkipIfKeyPressed { register } => Ok(
            skip_if(s, s.input.pressed[key_of(reg(s, register)) as int]),
        ),
        Opcode::SkipIfKeyNotPressed { register } => Ok(
            skip_if(s, !s.input.pressed[key_of(reg(s, register)) as int]),
        ),
        Opcode::GetDelayTimer { register } => Ok(set_reg(s, register, s.timers.delay)),
        Opcode::WaitForKey { register } => {
            let (w, k) = poll_wait(s.input);
            let polled = CpuModel { input: InputModel { wait: w, ..s.input }, ..s };
            Ok(
                match k {
                    Some(key) => set_reg(polled, register, key),
                    None => with_pc(polled, wrap16(s.pc - INSTRUCTION_SIZE)),
                },
            )
        },
        Opcode::SetDelayTimer { register } => Ok(
            CpuModel { timers: TimersModel { delay: reg(s, register), ..s.timers }, ..s },
        ),
        Opcode::SetSoundTimer { register } => Ok(
            CpuModel { timers: TimersModel { sound: reg(s, register), ..s.timers }, ..s },
        ),
        Opcode::AddToAddress { register } => {
            let sum = i + reg(s, register);
            if sum > MAX_ADDRESS {
                Err(Fault::AddressOutOfRange { value: sum as u16 })
            } else {
                Ok(CpuModel { regs: RegistersModel { i: sum as u16, ..s.regs }, ..s })
            }
        },
        Opcode::SetSpriteAddress { register } => Ok(
            CpuModel {
                regs: RegistersModel {
                    i: (FONT_START_ADDRESS + key_of(reg(s, register)) * FONT_CHAR_SIZE) as u16,
                    ..s.regs
                },
                ..s
            },
        ),
        Opcode::StoreBCD { register } => if i + 3 > MEMORY_SIZE {
            Err(Fault::MemoryOutOfBounds { address: MEMORY_SIZE as u16 })
        } else {
            Ok(with_memory(s, store_bytes(s.memory, i as int, bcd_digits(reg(s, register)))))
        },
        Opcode::StoreRegisters { reg_x } => if i + reg_x >= MEMORY_SIZE {
            Err(Fault::MemoryOutOfBounds { address: MEMORY_SIZE as u16 })
        } else {
            Ok(with_memory(s, store_bytes(s.memory, i as int, s.regs.v.take(reg_x + 1))))
        },
        Opcode::LoadRegisters { reg_x } => if i + reg_x >= MEMORY_SIZE {
            Err(Fault::MemoryOutOfBounds { address: MEMORY_SIZE as u16 })
        } else {
            Ok(
                CpuModel {
                    regs: RegistersModel {
                        v: Seq::new(
                            DATA_REGISTERS_SIZE as nat,
                            |r: int|
                                if r <= reg_x {
                                    s.memory[i + r]
                                } else {
                                    s.regs.v[r]
                                },
                        ),
                        ..s.regs
                    },
                    ..s
                },
            )
        },
    }
}

impl Opcode {
    /// Decodes a 16-bit instruction word. Every word either decodes to the
    /// one instruction whose pattern it matches or, matching none, gives
    /// `UnknownOpcode`.
    pub fn from_raw(opcode: u16) -> (r: Result<Opcode, Fault>)
        ensures
            match decode(opcode) {
                Some(op) => r == Ok::<Opcode, Fault>(op) && op.wf(),
                None => r == Err::<Opcode, Fault>(Fault::UnknownOpcode { word: opcode }),
            },
    {
        let class = opcode / 0x1000;
        let x = ((opcode / 0x100) % 0x10) as u8;
        let y = ((opcode / 0x10) % 0x10) as u8;
        let n = (opcode % 0x10) as u8;
        let nnn = opcode % 0x1000;
        let nn = (opcode % 0x100) as u8;
        match (class, x, y, n) {
            (0x0, 0x0, 0xE, 0x0) => Ok(Opcode::ClearDisplay {  }),
            (0x0, 0x0, 0xE, 0xE) => Ok(Opcode::Return {  }),
            (0x0, _, _, _) => Ok(Opcode::CallRoutine),
            (0x1, _, _, _) => Ok(Opcode::Goto { address: nnn }),
            (0x2, _, _, _) => Ok(Opcode::CallSubroutine { address: nnn }),
            (0x3, _, _, _) => Ok(Opcode::SkipIfEqual { register: x, value: nn }),
            (0x4, _, _, _) => Ok(Opcode::SkipIfNotEqual { register: x, value: nn }),
            (0x5, _, _, 0x0) => Ok(Opcode::SkipIfRegistersEqual { reg_x: x, reg_y: y }),
            (0x6, _, _, _) => Ok(Opcode::SetRegister { register: x, value: nn }),
            (0x7, _, _, _) => Ok(Opcode::AddToRegister { register: x, value: nn }),
            (0x8, _, _, 0x0) => Ok(Opcode::AssignRegister { reg_x: x, reg_y: y }),
            (0x8, _, _, 0x1) => Ok(Opcode::BitwiseOr { reg_x: x, reg_y: y }),
            (0x8, _, _, 0x2) => Ok(Opcode::BitwiseAnd { reg_x: x, reg_y: y }),
            (0x8, _, _, 0x3) => Ok(Opcode::BitwiseXor { reg_x: x, reg_y: y }),
            (0x8, _, _, 0x4) => Ok(Opcode::AddRegisters { reg_x: x, reg_y: y }),
            (0x8, _, _, 0x5) => Ok(Opcode::SubtractRegisters { reg_x: x, reg_y: y }),
            (0x8, _, _, 0x6) => Ok(Opcode::ShiftRight { reg_x: x }),
            (0x8, _, _, 0x7) => Ok(Opcode::SubtractReverse { reg_x: x, reg_y: y }),
            (0x8, _, _, 0xE) => Ok(Opcode::ShiftLeft { reg_x: x }),
            (0x9, _, _, 0x0) => Ok(Opcode::SkipIfRegNotEqual { reg_x: x, reg_y: y }),
            (0xA, _, _, _) => Ok(Opcode::SetAddress { address: nnn }),
            (0xB, _, _, _) => Ok(Opcode::JumpWithOffset { address: nnn }),
            (0xC, _, _, _) => Ok(Opcode::Random { register: x, value: nn }),
            (0xD, _, _, _) => Ok(Opcode::Draw { reg_x: x, reg_y: y, height: n }),
            (0xE, _, 0x9, 0xE) => Ok(Opcode::SkipIfKeyPressed { register: x }),
            (0xE, _, 0xA, 0x1) => Ok(Opcode::SkipIfKeyNotPressed { register: x }),
            (0xF, _, 0x0, 0x7) => Ok(Opcode::GetDelayTimer { register: x }),
            (0xF, _, 0x0, 0xA) => Ok(Opcode::WaitForKey { register: x }),
            (0xF, _, 0x1, 0x5) => Ok(Opcode::SetDelayTimer { register: x }),
            (0xF, _, 0x1, 0x8) => Ok(Opcode::SetSoundTimer { register: x }),
            (0xF, _, 0x1, 0xE) => Ok(Opcode::AddToAddress { register: x }),
            (0xF, _, 0x2, 0x9) => Ok(Opcode::SetSpriteAddress { register: x }),
            (0xF, _, 0x3, 0x3) => Ok(Opcode::StoreBCD { register: x }),
            (0xF, _, 0x5, 0x5) => Ok(Opcode::StoreRegisters { reg_x: x }),
            (0xF, _, 0x6, 0x5) => Ok(Opcode::LoadRegisters { reg_x: x }),
            _ => Err(Fault::UnknownOpcode { word: opcode }),
        }
    }

    /// Carries out the instruction on `cpu`, whose PC already points past
    /// it. `random` is the byte that a random instruction masks; the caller
    /// draws it. Fatal conditions come back as a `Fault`, with the machine
    /// left as it was.
    pub fn execute(&self, cpu: &mut CPU, random: u8) -> (r: Result<(), Fault>)
        requires
            self.wf(),
            old(cpu).wf(),
        ensures
            final(cpu).wf(),
            executes(*self, old(cpu)@, final(cpu)@, random, r),
    {
        match *self {
            Opcode::CallRoutine => Err(Fault::UnsupportedRoutine),
            Opcode::ClearDisplay { .. }
            | Opcode::Return { .. }
            | Opcode::Goto { .. }
            | Opcode::CallSubroutine { .. }
            | Opcode::JumpWithOffset { .. } => exec_control(*self, cpu, random),
            Opcode::SkipIfEqual { .. }
            | Opcode::SkipIfNotEqual { .. }
            | Opcode::SkipIfRegistersEqual { .. }
            | Opcode::SkipIfRegNotEqual { .. }
            | Opcode::SkipIfKeyPressed { .. }
            | Opcode::SkipIfKeyNotPressed { .. } => exec_skip(*self, cpu, random),
            Opcode::SetRegister { .. }
            | Opcode::AddToRegister { .. }
            | Opcode::AssignRegister { .. }
            | Opcode::BitwiseOr { .. }
            | Opcode::BitwiseAnd { .. }
            | Opcode::BitwiseXor { .. }
            | Opcode::Random { .. } => exec_load(*self, cpu, random),
            Opcode::AddRegisters { .. }
            | Opcode::SubtractRegisters { .. }
            | Opcode::SubtractReverse { .. } => exec_arith(*self, cpu, random),
            Opcode::ShiftRight { .. }
            | Opcode::ShiftLeft { .. } => exec_shift(*self, cpu, random),
            Opcode::Draw { .. } => exec_draw(*self, cpu, random),
            Opcode::GetDelayTimer { .. }
            | Opcode::WaitForKey { .. }
            | Opcode::SetDelayTimer { .. }
            | Opcode::SetSoundTimer { .. } => exec_timer_key(*self, cpu, random),
            Opcode::SetAddress { .. }
            | Opcode::AddToAddress { .. }
            | Opcode::SetSpriteAddress { .. } => exec_address(*self, cpu, random),
            Opcode::StoreBCD { .. } => exec_store_bcd(*self, cpu, random),
            Opcode::StoreRegisters { .. } => exec_store_registers(*self, cpu, random),
            Opcode::LoadRegisters { .. } => exec_load_registers(*self, cpu, random),
        }
    }
}

/// `r` and `after` are what executing `op` on `before` gives: the state of
/// `execute_spec` on success, and on a fault the fault with the state as it
/// was.
pub open spec fn executes(op: Opcode, before: CpuModel, after: CpuModel, random: u8, r: Result<(), Fault>) -> bool {
    match execute_spec(op, before, random) {
        Ok(s) => r is Ok && after == s,
        Err(f) => r == Err::<(), Fault>(f) && after == before,
    }
}

/// Carries out an instruction that transfers control or clears the screen.
fn exec_control(op: Opcode, cpu: &mut CPU, random: u8) -> (r: Result<(), Fault>)
    requires
        op.wf(),
        old(cpu).wf(),
        op is ClearDisplay
            || op is Return
            || op is Goto
            || op is CallSubroutine
            || op is JumpWithOffset,
    ensures
        final(cpu).wf(),
        executes(op, old(cpu)@, final(cpu)@, random, r),
{
    match op {
        Opcode::ClearDisplay {  } => {
            cpu.clear_display();
        },
        Opcode::Return {  } => {
            if let Some(addr) = cpu.pop_stack() {
                cpu.set_program_counter(addr);
            }
        },
        Opcode::Goto { address } => {
            cpu.set_program_counter(address);
        },
        Opcode::CallSubroutine { address } => {
            let pc = cpu.get_program_counter();
            match cpu.push_stack(pc) {
                Ok(()) => {},
                Err(fault) => {
                    return Err(fault);
                },
            }
            cpu.set_program_counter(address);
        },
        Opcode::JumpWithOffset { address } => {
            let offset = cpu.get_register(V0_REGISTER_INDEX) as u16;
            cpu.set_program_counter(address + offset);
        },
        _ => {},
    }
    Ok(())
}

/// Carries out an instruction that skips on a condition.
fn exec_skip(op: Opcode, cpu: &mut CPU, random: u8) -> (r: Result<(), Fault>)
    requires
        op.wf(),
        old(cpu).wf(),
        op is SkipIfEqual
            || op is SkipIfNotEqual
            || op is SkipIfRegistersEqual
            || op is SkipIfRegNotEqual
            || op is SkipIfKeyPressed
            || op is SkipIfKeyNotPressed,
    ensures
        final(cpu).wf(),
        executes(op, old(cpu)@, final(cpu)@, random, r),
{
    match op {
        Opcode::SkipIfEqual { register, value } => {
            if cpu.get_register(register) == value {
                cpu.increment_program_counter();
            }
        },
        Opcode::SkipIfNotEqual { register, value } => {
            if cpu.get_register(register) != value {
                cpu.increment_program_counter();
            }
        },
        Opcode::SkipIfRegistersEqual { reg_x, reg_y } => {
            if cpu.get_register(reg_x) == cpu.get_register(reg_y) {
                cpu.increment_program_counter();
            }
        },
        Opcode::SkipIfRegNotEqual { reg_x, reg_y } => {
            if cpu.get_register(reg_x) != cpu.get_register(reg_y) {
                cpu.increment_program_counter();
            }
        },
        Opcode::SkipIfKeyPressed { register } => {
            let value = cpu.get_register(register);
            assert(value & 0xF == value % 16) by (bit_vector);
            let key = value & NIBBLE_MASK;
            if cpu.is_key_pressed(key) {
                cpu.increment_program_counter();
            }
        },
        Opcode::SkipIfKeyNotPressed { register } => {
            let value = cpu.get_register(register);
            assert(value & 0xF == value % 16) by (bit_vector);
            let key = value & NIBBLE_MASK;
            if !cpu.is_key_pressed(key) {
                cpu.increment_program_counter();
            }
        },
        _ => {},
    }
    Ok(())
}

/// Carries out an instruction that sets a register without touching the flag.
fn exec_load(op: Opcode, cpu: &mut CPU, random: u8) -> (r: Result<(), Fault>)
    requires
        op.wf(),
        old(cpu).wf(),
        op is SetRegister
            || op is AddToRegister
            || op is AssignRegister
            || op is BitwiseOr
            || op is BitwiseAnd
            || op is BitwiseXor
            || op is Random,
    ensures
        final(cpu).wf(),
        executes(op, old(cpu)@, final(cpu)@, random, r),
{
    match op {
        Opcode::SetRegister { register, value } => {
            cpu.set_register(register, value);
        },
        Opcode::AddToRegister { register, value } => {
            let current = cpu.get_register(register);
            cpu.set_register(register, current.wrapping_add(value));
        },
        Opcode::AssignRegister { reg_x, reg_y } => {
            let value = cpu.get_register(reg_y);
            cpu.set_register(reg_x, value);
        },
        Opcode::BitwiseOr { reg_x, reg_y } => {
            let x_val = cpu.get_register(reg_x);
            let y_val = cpu.get_register(reg_y);
            cpu.set_register(reg_x, x_val | y_val);
        },
        Opcode::BitwiseAnd { reg_x, reg_y } => {
            let x_val = cpu.get_register(reg_x);
            let y_val = cpu.get_register(reg_y);
            cpu.set_register(reg_x, x_val & y_val);
        },
        Opcode::BitwiseXor { reg_x, reg_y } => {
            let x_val = cpu.get_register(reg_x);
            let y_val = cpu.get_register(reg_y);
            cpu.set_register(reg_x, x_val ^ y_val);
        },
        Opcode::Random { register, value } => {
            cpu.set_register(register, random & value);
        },
        _ => {},
    }
    Ok(())
}

/// Carries out an instruction that adds or subtracts, with the carry or no-borrow in the flag.
fn exec_arith(op: Opcode, cpu: &mut CPU, random: u8) -> (r: Result<(), Fault>)
    requires
        op.wf(),
        old(cpu).wf(),
        op is AddRegisters
            || op is SubtractRegisters
            || op is SubtractReverse,
    ensures
        final(cpu).wf(),
        executes(op, old(cpu)@, final(cpu)@, random, r),
{
    match op {
        Opcode::AddRegisters { reg_x, reg_y } => {
            let x_val = cpu.get_register(reg_x);
            let y_val = cpu.get_register(reg_y);
            let overflow = x_val > 255 - y_val;
            let result = x_val.wrapping_add(y_val);
            assert(result == ((x_val + y_val) % 256) as u8);
            cpu.set_register(reg_x, result);
            cpu.set_register(VF_REGISTER_INDEX, if overflow { 1 } else { 0 });
        },
        Opcode::SubtractRegisters { reg_x, reg_y } => {
            let x_val = cpu.get_register(reg_x);
            let y_val = cpu.get_register(reg_y);
            let borrow = x_val < y_val;
            let result = x_val.wrapping_sub(y_val);
            assert(result == ((x_val - y_val) % 256) as u8);
            cpu.set_register(reg_x, result);
            cpu.set_register(VF_REGISTER_INDEX, if borrow { 0 } else { 1 });
        },
        Opcode::SubtractReverse { reg_x, reg_y } => {
            let x_val = cpu.get_register(reg_x);
            let y_val = cpu.get_register(reg_y);
            let borrow = y_val < x_val;
            let result = y_val.wrapping_sub(x_val);
            assert(result == ((y_val - x_val) % 256) as u8);
            cpu.set_register(reg_x, result);
            cpu.set_register(VF_REGISTER_INDEX, if borrow { 0 } else { 1 });
        },
        _ => {},
    }
    Ok(())
}

/// Carries out an instruction that shifts, with the lost bit in the flag.
fn exec_shift(op: Opcode, cpu: &mut CPU, random: u8) -> (r: Result<(), Fault>)
    requires
        op.wf(),
        old(cpu).wf(),
        op is ShiftRight
            || op is ShiftLeft,
    ensures
        final(cpu).wf(),
        executes(op, old(cpu)@, final(cpu)@, random, r),
{
    match op {
        Opcode::ShiftRight { reg_x } => {
            let value = cpu.get_register(reg_x);
            assert(value & 1 == value % 2 && value >> 1 == value / 2) by (bit_vector);
            cpu.set_register(VF_REGISTER_INDEX, value & 1);
            cpu.set_register(reg_x, value >> 1);
        },
        Opcode::ShiftLeft { reg_x } => {
            let value = cpu.get_register(reg_x);
            assert((value >> 7) & 1 == value / 128 && value << 1 == (value * 2) % 256)
                by (bit_vector);
            cpu.set_register(VF_REGISTER_INDEX, (value >> 7) & 1);
            cpu.set_register(reg_x, value << 1);
        },
        _ => {},
    }
    Ok(())
}

/// Carries out an instruction that draws a sprite.
fn exec_draw(op: Opcode, cpu: &mut CPU, random: u8) -> (r: Result<(), Fault>)
    requires
        op.wf(),
        old(cpu).wf(),
        op is Draw,
    ensures
        final(cpu).wf(),
        executes(op, old(cpu)@, final(cpu)@, random, r),
{
    match op {
        Opcode::Draw { reg_x, reg_y, height } => {
            let i = cpu.get_address_register();
            if i as usize + height as usize > MEMORY_SIZE {
                return Err(Fault::MemoryOutOfBounds { address: MEMORY_SIZE as u16 });
            }
            let x = cpu.get_register(reg_x);
            let y = cpu.get_register(reg_y);
            let collision = cpu.draw_sprite(x, y, height);
            cpu.set_register(VF_REGISTER_INDEX, if collision { 1 } else { 0 });
        },
        _ => {},
    }
    Ok(())
}

/// Carries out an instruction that reads or sets a timer, or waits for a key.
fn exec_timer_key(op: Opcode, cpu: &mut CPU, random: u8) -> (r: Result<(), Fault>)
    requires
        op.wf(),
        old(cpu).wf(),
        op is GetDelayTimer
            || op is WaitForKey
            || op is SetDelayTimer
            || op is SetSoundTimer,
    ensures
        final(cpu).wf(),
        executes(op, old(cpu)@, final(cpu)@, random, r),
{
    match op {
        Opcode::GetDelayTimer { register } => {
            let delay = cpu.get_delay_timer();
            cpu.set_register(register, delay);
        },
        Opcode::WaitForKey { register } => {
            if !cpu.wait_for_key(register) {
                // Not resolved yet: step back so the same word is fetched again.
                let pc = cpu.get_program_counter();
                cpu.set_program_counter(pc.wrapping_sub(INSTRUCTION_SIZE));
            }
        },
        Opcode::SetDelayTimer { register } => {
            let value = cpu.get_register(register);
            cpu.set_delay_timer(value);
        },
        Opcode::SetSoundTimer { register } => {
            let value = cpu.get_register(register);
            cpu.set_sound_timer(value);
        },
        _ => {},
    }
    Ok(())
}

/// Carries out an instruction that sets the address register.
fn exec_address(op: Opcode, cpu: &mut CPU, random: u8) -> (r: Result<(), Fault>)
    requires
        op.wf(),
        old(cpu).wf(),
        op is SetAddress
            || op is AddToAddress
            || op is SetSpriteAddress,
    ensures
        final(cpu).wf(),
        executes(op, old(cpu)@, final(cpu)@, random, r),
{
    match op {
        Opcode::SetAddress { address } => {
            cpu.set_address_register(address);
        },
        Opcode::AddToAddress { register } => {
            let current = cpu.get_address_register();
            let sum = current + cpu.get_register(register) as u16;
            if sum > MAX_ADDRESS {
                return Err(Fault::AddressOutOfRange { value: sum });
            }
            cpu.set_address_register(sum);
        },
        Opcode::SetSpriteAddress { register } => {
            let value = cpu.get_register(register);
            assert(value & 0xF == value % 16) by (bit_vector);
            let sprite_idx = value & NIBBLE_MASK;
            cpu.set_address_register(FONT_START_ADDRESS + sprite_idx as u16 * FONT_CHAR_SIZE);
        },
        _ => {},
    }
    Ok(())
}

/// Carries out an instruction that stores decimal digits.
fn exec_store_bcd(op: Opcode, cpu: &mut CPU, random: u8) -> (r: Result<(), Fault>)
    requires
        op.wf(),
        old(cpu).wf(),
        op is StoreBCD,
    ensures
        final(cpu).wf(),
        executes(op, old(cpu)@, final(cpu)@, random, r),
{
    let ghost s0 = cpu@;
    match op {
        Opcode::StoreBCD { register } => {
            let i = cpu.get_address_register();
            if i as usize + 3 > MEMORY_SIZE {
                return Err(Fault::MemoryOutOfBounds { address: MEMORY_SIZE as u16 });
            }
            let value = cpu.get_register(register);
            cpu.write_memory(i, value / 100);
            cpu.write_memory(i + 1, (value % 100) / 10);
            cpu.write_memory(i + 2, value % 10);
            assert(cpu@.memory =~= store_bytes(s0.memory, i as int, bcd_digits(value)));
        },
        _ => {},
    }
    Ok(())
}

/// Carries out an instruction that stores registers.
fn exec_store_registers(op: Opcode, cpu: &mut CPU, random: u8) -> (r: Result<(), Fault>)
    requires
        op.wf(),
        old(cpu).wf(),
        op is StoreRegisters,
    ensures
        final(cpu).wf(),
        executes(op, old(cpu)@, final(cpu)@, random, r),
{
    let ghost s0 = cpu@;
    match op {
        Opcode::StoreRegisters { reg_x } => {
            let i = cpu.get_address_register();
            if i as usize + reg_x as usize >= MEMORY_SIZE {
                return Err(Fault::MemoryOutOfBounds { address: MEMORY_SIZE as u16 });
            }
            let mut idx: u8 = 0;
            while idx <= reg_x
                invariant
                    cpu.wf(),
                    model_wf(s0),
                    is_register(reg_x),
                    idx <= reg_x + 1,
                    i == s0.regs.i,
                    i + reg_x < MEMORY_SIZE,
                    cpu@ == with_memory(s0, cpu@.memory),
                    cpu@.memory == store_bytes(s0.memory, i as int, s0.regs.v.take(idx as int)),
                decreases reg_x + 1 - idx,
            {
                let value = cpu.get_register(idx);
                cpu.write_memory(i + idx as u16, value);
                idx += 1;
                assert(cpu@.memory =~= store_bytes(s0.memory, i as int, s0.regs.v.take(idx as int)));
            }
        },
        _ => {},
    }
    Ok(())
}

/// Carries out an instruction that loads registers.
fn exec_load_registers(op: Opcode, cpu: &mut CPU, random: u8) -> (r: Result<(), Fault>)
    requires
        op.wf(),
        old(cpu).wf(),
        op is LoadRegisters,
    ensures
        final(cpu).wf(),
        executes(op, old(cpu)@, final(cpu)@, random, r),
{
    let ghost s0 = cpu@;
    match op {
        Opcode::LoadRegisters { reg_x } => {
            let i = cpu.get_address_register();
            if i as usize + reg_x as usize >= MEMORY_SIZE {
                return Err(Fault::MemoryOutOfBounds { address: MEMORY_SIZE as u16 });
            }
            let mut idx: u8 = 0;
            while idx <= reg_x
                invariant
                    cpu.wf(),
                    model_wf(s0),
                    is_register(reg_x),
                    idx <= reg_x + 1,
                    i == s0.regs.i,
                    i + reg_x < MEMORY_SIZE,
                    cpu@ == (CpuModel { regs: RegistersModel { v: cpu@.regs.v, ..s0.regs }, ..s0 }),
                    forall|r: int| 0 <= r < DATA_REGISTERS_SIZE ==> #[trigger] cpu@.regs.v[r] == if r < idx {
                        s0.memory[i + r]
                    } else {
                        s0.regs.v[r]
                    },
                decreases reg_x + 1 - idx,
            {
                let value = cpu.read_memory(i + idx as u16);
                cpu.set_register(idx, value);
                idx += 1;
            }
            assert(cpu@.regs.v =~= Seq::new(
                DATA_REGISTERS_SIZE as nat,
                |r: int|
                    if r <= reg_x {
                        s0.memory[i + r]
                    } else {
                        s0.regs.v[r]
                    },
            ));
        },
        _ => {},
    }
    Ok(())
}

} // verus!
