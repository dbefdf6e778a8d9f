//! The virtual CPU: the machine state and the fetch-decode-execute driver.

use vstd::prelude::*;

use crate::constants::{
    DATA_REGISTERS_SIZE, FONT_START_ADDRESS, INSTRUCTION_SIZE, MAX_ADDRESS, MEMORY_SIZE,
    PROGRAM_START_ADDRESS, STACK_SIZE, VF_REGISTER_INDEX,
};
use crate::display::{drawn, sprite_collides, is_rendered, decayed_all, Display, DisplayModel, FRAME_BYTES};
use crate::fault::Fault;
use crate::font::{font_glyphs, font_set, FONT_SET_SIZE};
use crate::input::{poll_wait, InputModel, InputState, wait_after_press};
use crate::memory::{stack_pop, stack_push, word_at, Memory, Stack};
use crate::opcodes::{decode, execute_spec, Opcode};
use crate::reg::{Registers, RegistersModel};
use crate::timer::{count_down, Timers, TimersModel};

verus! {

/// The whole machine state.
pub struct CpuModel {
    pub regs: RegistersModel,
    pub memory: Seq<u8>,
    pub stack: Seq<u16>,
    pub timers: TimersModel,
    pub display: DisplayModel,
    pub input: InputModel,
    pub pc: u16,
}

/// `n` reduced to 16 bits, as the program counter wraps.
pub open spec fn wrap16(n: int) -> u16 {
    (n % 0x10000) as u16
}

/// The value of register `x`.
pub open spec fn reg(s: CpuModel, x: u8) -> u8 {
    s.regs.v[x as int]
}

/// `s` with register `x` set to `value`.
pub open spec fn set_reg(s: CpuModel, x: u8, value: u8) -> CpuModel {
    CpuModel { regs: RegistersModel { v: s.regs.v.update(x as int, value), ..s.regs }, ..s }
}

/// `s` with the flag register VF set to `value`.
pub open spec fn set_flag(s: CpuModel, value: u8) -> CpuModel {
    set_reg(s, VF_REGISTER_INDEX, value)
}

/// `s` with the program counter at `pc`.
pub open spec fn with_pc(s: CpuModel, pc: u16) -> CpuModel {
    CpuModel { pc, ..s }
}

/// `s` with the next instruction skipped when `cond` holds.
pub open spec fn skip_if(s: CpuModel, cond: bool) -> CpuModel {
    if cond {
        with_pc(s, wrap16(s.pc + INSTRUCTION_SIZE))
    } else {
        s
    }
}

/// Memory as the machine starts: the font at its base address, zero elsewhere.
pub open spec fn initial_memory() -> Seq<u8> {
    Seq::new(
        MEMORY_SIZE as nat,
        |a: int|
            if FONT_START_ADDRESS <= a < FONT_START_ADDRESS + FONT_SET_SIZE {
                font_glyphs()[a - FONT_START_ADDRESS]
            } else {
                0u8
            },
    )
}

/// One instruction attempt from state `s`, with `random` as the byte a
/// random instruction would draw: fetch the word at PC (both bytes must lie
/// in memory), advance PC by one instruction, decode, execute.
pub open spec fn step_spec(s: CpuModel, random: u8) -> Result<CpuModel, Fault> {
    if s.pc >= MAX_ADDRESS {
        Err(Fault::MemoryOutOfBounds { address: s.pc })
    } else {
        let word = word_at(s.memory, s.pc as int);
        match decode(word) {
            None => Err(Fault::UnknownOpcode { word }),
            Some(op) => execute_spec(op, with_pc(s, (s.pc + INSTRUCTION_SIZE) as u16), random),
        }
    }
}

/// `r` and `after` are what one instruction attempt on `before` gives: the
/// state of `step_spec` on success, and on a fault the fault with the state
/// as it was.
pub open spec fn steps(before: CpuModel, after: CpuModel, random: u8, r: Result<(), Fault>) -> bool {
    match step_spec(before, random) {
        Ok(s) => r is Ok && after == s,
        Err(f) => r == Err::<(), Fault>(f) && after == before,
    }
}

/// While the instruction at PC waits for a key and the wait does not
/// resolve, an instruction attempt leaves PC on that instruction and changes
/// nothing but the wait state, so the same word is fetched again. Once the
/// captured key has been released, one attempt moves PC past the
/// instruction, puts the key in the target register and ends the wait.
pub proof fn lemma_wait_for_key(s: CpuModel, x: u8, random: u8)
    requires
        model_wf(s),
        s.pc < MAX_ADDRESS,
        decode(word_at(s.memory, s.pc as int)) == Some(Opcode::WaitForKey { register: x }),
    ensures
        step_spec(s, random) matches Ok(t) && {
            &&& t.memory == s.memory
            &&& t.stack == s.stack
            &&& t.timers == s.timers
            &&& t.display == s.display
            &&& t.input.pressed == s.input.pressed
            &&& t.regs.i == s.regs.i
            &&& match s.input.wait {
                crate::input::WaitState::AwaitingRelease { key } if !s.input.pressed[key as int] => {
                    &&& t.pc == s.pc + INSTRUCTION_SIZE
                    &&& t.regs.v == s.regs.v.update(x as int, key)
                    &&& t.input.wait == crate::input::WaitState::Idle
                },
                _ => {
                    &&& t.pc == s.pc
                    &&& t.regs.v == s.regs.v
                    &&& t.input.wait != crate::input::WaitState::Idle
                },
            }
        },
{
}

/// Relies on `rand::random::<u8>`: a byte from the thread-local generator,
/// any value possible.
#[verifier::external_body]
fn random_byte() -> (r: u8) {
    rand::random::<u8>()
}

/// The CHIP-8 machine: all its components and the program counter.
pub struct CPU {
    registers: Registers,
    memory: Memory,
    stack: Stack,
    timers: Timers,
    display: Display,
    input: InputState,
    program_counter: u16,
}

impl View for CPU {
    type V = CpuModel;

    closed spec fn view(&self) -> CpuModel {
        CpuModel {
            regs: self.registers@,
            memory: self.memory@,
            stack: self.stack@,
            timers: self.timers@,
            display: self.display@,
            input: self.input@,
            pc: self.program_counter,
        }
    }
}

/// The invariant of the machine state.
pub open spec fn model_wf(s: CpuModel) -> bool {
    &&& s.regs.v.len() == DATA_REGISTERS_SIZE
    &&& s.regs.i <= MAX_ADDRESS
    &&& s.memory.len() == MEMORY_SIZE
    &&& s.stack.len() <= STACK_SIZE
    &&& s.display.on.len() == crate::constants::DISPLAY_PIXELS
    &&& s.display.phosphor.len() == crate::constants::DISPLAY_PIXELS
    &&& s.input.pressed.len() == crate::constants::KEY_COUNT
    &&& s.input.wait matches crate::input::WaitState::AwaitingRelease { key } ==> key
        < crate::constants::KEY_COUNT
}

impl CPU {
    pub open spec fn wf(&self) -> bool {
        model_wf(self@)
    }

    closed spec fn parts_wf(&self) -> bool {
        &&& self.registers.wf()
        &&& self.display.wf()
        &&& self.input.wf()
    }

    proof fn lemma_wf(&self)
        requires
            self.wf(),
        ensures
            self.parts_wf(),
    {
    }

    /// A machine at power-on: registers, stack, timers, display and keypad
    /// cleared, the font at its base address, PC at the program start.
    pub fn new() -> (r: Self)
        ensures
            r.wf(),
            r@.regs.v == Seq::new(DATA_REGISTERS_SIZE as nat, |_i: int| 0u8),
            r@.regs.i == 0,
            r@.memory == initial_memory(),
            r@.stack.len() == 0,
            r@.timers == (TimersModel { delay: 0, sound: 0 }),
            r@.display.on == Seq::new(crate::constants::DISPLAY_PIXELS as nat, |_p: int| false),
            r@.display.phosphor == Seq::new(crate::constants::DISPLAY_PIXELS as nat, |_p: int| 0u8),
            r@.display.settings.max_phosphor_value == 255,
            r@.display.settings.phosphor_decay_rate == 15,
            r@.input.pressed == Seq::new(crate::constants::KEY_COUNT as nat, |_k: int| false),
            r@.input.wait == crate::input::WaitState::Idle,
            r@.pc == PROGRAM_START_ADDRESS,
    {
        let mut memory = Memory::new();
        let font = font_set();
        let mut i: usize = 0;
        while i < FONT_SET_SIZE
            invariant
                i <= FONT_SET_SIZE,
                font@ == font_glyphs(),
                memory@.len() == MEMORY_SIZE,
                forall|a: int|
                    0 <= a < MEMORY_SIZE ==> #[trigger] memory@[a] == if FONT_START_ADDRESS <= a
                        < FONT_START_ADDRESS + i {
                        font_glyphs()[a - FONT_START_ADDRESS]
                    } else {
                        0u8
                    },
            decreases FONT_SET_SIZE - i,
        {
            memory.write(FONT_START_ADDRESS + i as u16, font[i]);
            i += 1;
        }
        assert(memory@ =~= initial_memory());
        Self {
            registers: Registers::new(),
            memory,
            stack: Stack::new(),
            timers: Timers::new(),
            display: Display::new(),
            input: InputState::new(),
            program_counter: PROGRAM_START_ADDRESS,
        }
    }

    /// Copies a program into memory at the program start and points PC at
    /// it. The program must fit below the top of memory.
    pub fn load_program(&mut self, data: &[u8])
        requires
            old(self).wf(),
            PROGRAM_START_ADDRESS + data@.len() <= MEMORY_SIZE,
        ensures
            final(self).wf(),
            final(self)@ == (CpuModel {
                memory: Seq::new(
                    MEMORY_SIZE as nat,
                    |a: int|
                        if PROGRAM_START_ADDRESS <= a < PROGRAM_START_ADDRESS + data@.len() {
                            data@[a - PROGRAM_START_ADDRESS]
                        } else {
                            old(self)@.memory[a]
                        },
                ),
                pc: PROGRAM_START_ADDRESS,
                ..old(self)@
            }),
    {
        let ghost s0 = self@;
        let mut i: usize = 0;
        while i < data.len()
            invariant
                i <= data@.len(),
                PROGRAM_START_ADDRESS + data@.len() <= MEMORY_SIZE,
                self@ == (CpuModel { memory: self@.memory, ..s0 }),
                model_wf(s0),
                self.memory@.len() == MEMORY_SIZE,
                forall|a: int|
                    0 <= a < MEMORY_SIZE ==> #[trigger] self@.memory[a] == if PROGRAM_START_ADDRESS
                        <= a < PROGRAM_START_ADDRESS + i {
                        data@[a - PROGRAM_START_ADDRESS]
                    } else {
                        s0.memory[a]
                    },
            decreases data@.len() - i,
        {
            self.memory.write(PROGRAM_START_ADDRESS + i as u16, data[i]);
            i += 1;
        }
        self.program_counter = PROGRAM_START_ADDRESS;
        assert(self@.memory =~= Seq::new(
            MEMORY_SIZE as nat,
            |a: int|
                if PROGRAM_START_ADDRESS <= a < PROGRAM_START_ADDRESS + data@.len() {
                    data@[a - PROGRAM_START_ADDRESS]
                } else {
                    s0.memory[a]
                },
        ));
    }

    pub fn get_address_register(&self) -> (r: u16)
        ensures
            r == self@.regs.i,
    {
        self.registers.get_i()
    }

    /// Sets I; values above `0xFFF` are not admitted.
    pub fn set_address_register(&mut self, value: u16)
        requires
            old(self).wf(),
            value <= MAX_ADDRESS,
        ensures
            final(self).wf(),
            final(self)@ == (CpuModel {
                regs: RegistersModel { i: value, ..old(self)@.regs },
                ..old(self)@
            }),
    {
        self.registers.set_i(value);
    }

    pub fn get_register(&self, index: u8) -> (r: u8)
        requires
            (index as usize) < DATA_REGISTERS_SIZE,
        ensures
            r == reg(self@, index),
    {
        self.registers.get_v(index)
    }

    pub fn set_register(&mut self, index: u8, value: u8)
        requires
            old(self).wf(),
            (index as usize) < DATA_REGISTERS_SIZE,
        ensures
            final(self).wf(),
            final(self)@ == set_reg(old(self)@, index, value),
    {
        self.registers.set_v(index, value);
    }

    pub fn read_memory(&self, address: u16) -> (r: u8)
        requires
            address < 0x1000,
        ensures
            r == self@.memory[address as int],
    {
        self.memory.read(address)
    }

    pub fn write_memory(&mut self, address: u16, value: u8)
        requires
            old(self).wf(),
            address < 0x1000,
        ensures
            final(self).wf(),
            final(self)@ == (CpuModel {
                memory: old(self)@.memory.update(address as int, value),
                ..old(self)@
            }),
    {
        self.memory.write(address, value);
    }

    /// Pops a return address; `None`, with nothing changed, when the stack
    /// is empty.
    pub fn pop_stack(&mut self) -> (r: Option<u16>)
        requires
            old(self).wf(),
        ensures
            final(self).wf(),
            (final(self)@.stack, r) == stack_pop(old(self)@.stack),
            final(self)@ == (CpuModel { stack: final(self)@.stack, ..old(self)@ }),
    {
        self.stack.pop()
    }

    /// Pushes a return address, or fails with `StackOverflow`, changing
    /// nothing, when the stack is full.
    pub fn push_stack(&mut self, value: u16) -> (r: Result<(), Fault>)
        requires
            old(self).wf(),
        ensures
            final(self).wf(),
            match stack_push(old(self)@.stack, value) {
                Ok(s) => r is Ok && final(self)@ == (CpuModel { stack: s, ..old(self)@ }),
                Err(f) => r == Err::<(), Fault>(f) && final(self)@ == old(self)@,
            },
    {
        self.stack.push(value)
    }

    pub fn get_program_counter(&self) -> (r: u16)
        ensures
            r == self@.pc,
    {
        self.program_counter
    }

    pub fn set_program_counter(&mut self, value: u16)
        requires
            old(self).wf(),
        ensures
            final(self).wf(),
            final(self)@ == with_pc(old(self)@, value),
    {
        self.program_counter = value;
    }

    /// Moves PC past one instruction, wrapping at 16 bits.
    pub fn increment_program_counter(&mut self)
        requires
            old(self).wf(),
        ensures
            final(self).wf(),
            final(self)@ == with_pc(old(self)@, wrap16(old(self)@.pc + INSTRUCTION_SIZE)),
    {
        self.program_counter = self.program_counter.wrapping_add(INSTRUCTION_SIZE);
    }

    /// Turns every pixel off; the phosphor keeps fading on its own.
    pub fn clear_display(&mut self)
        requires
            old(self).wf(),
        ensures
            final(self).wf(),
            final(self)@ == (CpuModel {
                display: DisplayModel {
                    on: Seq::new(crate::constants::DISPLAY_PIXELS as nat, |_p: int| false),
                    ..old(self)@.display
                },
                ..old(self)@
            }),
    {
        proof {
            self.lemma_wf();
        }
        self.display.clear();
    }

    /// Draws the `height`-row sprite stored at I with its top-left corner at
    /// `(x, y)` and returns whether a lit pixel was turned off. The sprite's
    /// rows must lie in memory.
    pub fn draw_sprite(&mut self, x: u8, y: u8, height: u8) -> (r: bool)
        requires
            old(self).wf(),
            height <= 15,
            old(self)@.regs.i + height <= MEMORY_SIZE,
        ensures
            final(self).wf(),
            ({
                let s = old(self)@;
                let rows = s.memory.subrange(s.regs.i as int, s.regs.i + height);
                &&& final(self)@ == (CpuModel { display: drawn(s.display, x, y, rows), ..s })
                &&& r == sprite_collides(s.display, x, y, rows)
            }),
    {
        proof {
            self.lemma_wf();
        }
        let addr = self.registers.get_i();
        let mut rows: Vec<u8> = Vec::new();
        let mut row: u8 = 0;
        while row < height
            invariant
                row <= height <= 15,
                addr == self@.regs.i,
                addr + height <= MEMORY_SIZE,
                self.memory@.len() == MEMORY_SIZE,
                rows@ == self@.memory.subrange(addr as int, addr + row),
            decreases height - row,
        {
            rows.push(self.memory.read(addr + row as u16));
            row += 1;
            assert(rows@ =~= self@.memory.subrange(addr as int, addr + row));
        }
        self.display.draw_sprite(x, y, rows.as_slice())
    }

    /// Whether key `key` is down.
    pub fn is_key_pressed(&self, key: u8) -> (r: bool)
        requires
            self.wf(),
        ensures
            r == ((key as usize) < crate::constants::KEY_COUNT && self@.input.pressed[key as int]),
    {
        proof {
            self.lemma_wf();
        }
        self.input.is_key_pressed(key)
    }

    /// Polls the wait for a key once; when it resolves, the key goes into
    /// register `register` and the result is `true`.
    pub fn wait_for_key(&mut self, register: u8) -> (r: bool)
        requires
            old(self).wf(),
            (register as usize) < DATA_REGISTERS_SIZE,
        ensures
            final(self).wf(),
            ({
                let s = old(self)@;
                let (w, k) = poll_wait(s.input);
                let polled = CpuModel { input: InputModel { wait: w, ..s.input }, ..s };
                match k {
                    Some(key) => r && final(self)@ == set_reg(polled, register, key),
                    None => !r && final(self)@ == polled,
                }
            }),
    {
        proof {
            self.lemma_wf();
        }
        match self.input.wait_for_key() {
            Some(key) => {
                self.registers.set_v(register, key);
                true
            },
            None => false,
        }
    }

    pub fn get_delay_timer(&self) -> (r: u8)
        ensures
            r == self@.timers.delay,
    {
        self.timers.get_delay()
    }

    pub fn set_delay_timer(&mut self, value: u8)
        requires
            old(self).wf(),
        ensures
            final(self).wf(),
            final(self)@ == (CpuModel {
                timers: TimersModel { delay: value, ..old(self)@.timers },
                ..old(self)@
            }),
    {
        self.timers.set_delay(value);
    }

    /// The sound timer; the host sounds a tone while it is above zero.
    pub fn get_sound_timer(&self) -> (r: u8)
        ensures
            r == self@.timers.sound,
    {
        self.timers.get_sound()
    }

    pub fn set_sound_timer(&mut self, value: u8)
        requires
            old(self).wf(),
        ensures
            final(self).wf(),
            final(self)@ == (CpuModel {
                timers: TimersModel { sound: value, ..old(self)@.timers },
                ..old(self)@
            }),
    {
        self.timers.set_sound(value);
    }

    /// Renders the display into an RGBA frame of at least 8192 bytes,
    /// decaying the phosphor of unlit pixels once.
    pub fn render_to_buffer(&mut self, buffer: &mut [u8])
        requires
            old(self).wf(),
            old(buffer)@.len() >= FRAME_BYTES,
            old(self)@.display.settings.color.red_divisor > 0,
            old(self)@.display.settings.color.green_divisor > 0,
            old(self)@.display.settings.color.blue_divisor > 0,
        ensures
            final(self).wf(),
            final(self)@ == (CpuModel {
                display: DisplayModel { phosphor: decayed_all(old(self)@.display), ..old(self)@.display },
                ..old(self)@
            }),
            is_rendered(final(buffer)@, final(self)@.display.phosphor, old(self)@.display.settings, old(buffer)@),
    {
        proof {
            self.lemma_wf();
        }
        self.display.render_to_buffer(buffer);
    }

    /// One 60 Hz timer tick.
    pub fn update_timers(&mut self)
        requires
            old(self).wf(),
        ensures
            final(self).wf(),
            final(self)@ == (CpuModel {
                timers: TimersModel {
                    delay: count_down(old(self)@.timers.delay),
                    sound: count_down(old(self)@.timers.sound),
                },
                ..old(self)@
            }),
    {
        self.timers.tick();
    }

    /// Keypad key `key` went down; codes outside the pad are ignored.
    pub fn handle_key_press(&mut self, key: u8)
        requires
            old(self).wf(),
        ensures
            final(self).wf(),
            (key as usize) < crate::constants::KEY_COUNT ==> final(self)@ == (CpuModel {
                input: InputModel {
                    pressed: old(self)@.input.pressed.update(key as int, true),
                    wait: wait_after_press(old(self)@.input.wait, key),
                },
                ..old(self)@
            }),
            (key as usize) >= crate::constants::KEY_COUNT ==> final(self)@ == old(self)@,
    {
        proof {
            self.lemma_wf();
        }
        self.input.handle_key_press(key);
    }

    /// Keypad key `key` went up; codes outside the pad are ignored.
    pub fn handle_key_release(&mut self, key: u8)
        requires
            old(self).wf(),
        ensures
            final(self).wf(),
            (key as usize) < crate::constants::KEY_COUNT ==> final(self)@ == (CpuModel {
                input: InputModel {
                    pressed: old(self)@.input.pressed.update(key as int, false),
                    ..old(self)@.input
                },
                ..old(self)@
            }),
            (key as usize) >= crate::constants::KEY_COUNT ==> final(self)@ == old(self)@,
    {
        proof {
            self.lemma_wf();
        }
        self.input.handle_key_release(key);
    }

    /// One instruction attempt with `random` as the byte a random
    /// instruction draws: fetch the word at PC, advance PC, decode, execute.
    /// On a fault the machine is left as it was.
    pub fn step(&mut self, random: u8) -> (r: Result<(), Fault>)
        requires
            old(self).wf(),
        ensures
            final(self).wf(),
            steps(old(self)@, final(self)@, random, r),
    {
        let pc = self.program_counter;
        if pc >= MAX_ADDRESS {
            return Err(Fault::MemoryOutOfBounds { address: pc });
        }
        let raw_opcode = self.memory.read_u16(pc);
        let opcode = match Opcode::from_raw(raw_opcode) {
            Ok(op) => op,
            Err(fault) => {
                return Err(fault);
            },
        };
        self.program_counter = pc + INSTRUCTION_SIZE;
        match opcode.execute(self, random) {
            Ok(()) => Ok(()),
            Err(fault) => {
                self.program_counter = pc;
                Err(fault)
            },
        }
    }

    /// One instruction attempt, drawing a fresh random byte for it. The
    /// outcome is that of `step` for some byte.
    pub fn tick(&mut self) -> (r: Result<(), Fault>)
        requires
            old(self).wf(),
        ensures
            final(self).wf(),
            exists|random: u8| steps(old(self)@, final(self)@, random, r),
    {
        let random = random_byte();
        self.step(random)
    }

    pub fn is_waiting_for_key(&self) -> (r: bool)
        ensures
            r == (self@.input.wait != crate::input::WaitState::Idle),
    {
        self.input.is_waiting_for_key()
    }
}

} // verus!
