use vstd::prelude::*;
use crate::display::{blank, collides, drawn, empty_grid, Framebuffer, NUM_PIXELS};
use crate::instruction::{decode, decode_spec, fields_in_range, Instruction};

verus! {

/// Bytes of addressable memory.
pub const MEMORY_SIZE: usize = 4096;

/// Address at which programs are loaded and execution starts.
pub const PROGRAM_START: u16 = 0x200;

/// Largest program that fits between `PROGRAM_START` and the end of memory.
pub const MAX_PROGRAM_LEN: usize = 3584;

/// Number of return addresses the call stack holds.
pub const STACK_DEPTH: u8 = 16;

/// Bytes per font glyph.
pub const GLYPH_BYTES: u16 = 5;

/// The sixteen hexadecimal digit glyphs, five rows each, resident at address 0.
pub open spec fn font() -> Seq<u8> {
    seq![
        0xf0u8, 0x90, 0x90, 0x90, 0xf0, 0x20, 0x60, 0x20, 0x20, 0x70,
        0xf0, 0x10, 0xf0, 0x80, 0xf0, 0xf0, 0x10, 0xf0, 0x10, 0xf0,
        0x90, 0x90, 0xf0, 0x10, 0x10, 0xf0, 0x80, 0xf0, 0x10, 0xf0,
        0xf0, 0x80, 0xf0, 0x90, 0xf0, 0xf0, 0x10, 0x20, 0x40, 0x40,
        0xf0, 0x90, 0xf0, 0x90, 0xf0, 0xf0, 0x90, 0xf0, 0x10, 0xf0,
        0xf0, 0x90, 0xf0, 0x90, 0x90, 0xe0, 0x90, 0xe0, 0x90, 0xe0,
        0xf0, 0x80, 0x80, 0x80, 0xf0, 0xe0, 0x90, 0x90, 0x90, 0xe0,
        0xf0, 0x80, 0xf0, 0x80, 0xf0, 0xf0, 0x80, 0xf0, 0x80, 0x80
    ]
}

/// The glyph bytes, as an array to copy into memory.
fn font_set() -> (r: [u8; 80])
    ensures
        r@ == font(),
{
    let r: [u8; 80] = [
        0xf0, 0x90, 0x90, 0x90, 0xf0, 0x20, 0x60, 0x20, 0x20, 0x70,
        0xf0, 0x10, 0xf0, 0x80, 0xf0, 0xf0, 0x10, 0xf0, 0x10, 0xf0,
        0x90, 0x90, 0xf0, 0x10, 0x10, 0xf0, 0x80, 0xf0, 0x10, 0xf0,
        0xf0, 0x80, 0xf0, 0x90, 0xf0, 0xf0, 0x10, 0x20, 0x40, 0x40,
        0xf0, 0x90, 0xf0, 0x90, 0xf0, 0xf0, 0x90, 0xf0, 0x10, 0xf0,
        0xf0, 0x90, 0xf0, 0x90, 0x90, 0xe0, 0x90, 0xe0, 0x90, 0xe0,
        0xf0, 0x80, 0x80, 0x80, 0xf0, 0xe0, 0x90, 0x90, 0x90, 0xe0,
        0xf0, 0x80, 0xf0, 0x80, 0xf0, 0xf0, 0x80, 0xf0, 0x80, 0x80,
    ];
    assert(r@ =~= font());
    r
}

/// Why a machine stopped.
#[derive(Clone, Copy, Debug, PartialEq, Eq, Structural)]
pub enum Fault {
    /// The word at `pc` encodes no instruction.
    InvalidOpcode { opcode: u16, pc: u16 },
    /// A call with all sixteen stack entries in use.
    StackOverflow,
    /// A return with an empty stack.
    StackUnderflow,
    /// A fetch, or a read or write relative to `I`, past the last address.
    OutOfBoundsAccess,
}

/// Why a program could not be loaded.
#[derive(Clone, Copy, Debug, PartialEq, Eq, Structural)]
pub enum LoadError {
    /// The program is longer than `MAX_PROGRAM_LEN` bytes.
    RomTooLarge { len: usize },
}

/// Where the execution cycle stands.
#[derive(Clone, Copy, Debug, PartialEq, Eq, Structural)]
pub enum RunState {
    /// Each step executes one instruction.
    Running,
    /// Suspended until a key is pressed; its index then goes to `Vx`.
    AwaitingKey { x: u8 },
    /// Stopped for good.
    Halted { fault: Fault },
}

/// Choices on which historical interpreters differ.
#[derive(Clone, Copy, Debug, PartialEq, Eq, Structural)]
pub struct Quirks {
    /// `8xy6` and `8xyE` shift `Vy` into `Vx` instead of shifting `Vx` in place.
    pub shift_reads_vy: bool,
    /// `Bnnn` adds `Vx` (x the second nibble) instead of `V0`.
    pub jump_adds_vx: bool,
}

/// The whole state of a machine, as mathematical values.
#[verifier::ext_equal]
pub struct Machine {
    pub pc: u16,
    pub memory: Seq<u8>,
    pub v: Seq<u8>,
    pub i: u16,
    pub dt: u8,
    pub st: u8,
    pub sp: u8,
    pub stack: Seq<u16>,
    pub display: Seq<bool>,
    pub keypad: Seq<bool>,
    pub state: RunState,
    pub quirks: Quirks,
}

/// `a + b` wrapped to eight bits, and the carry out.
pub open spec fn add_with_carry(a: u8, b: u8) -> (u8, u8) {
    (((a + b) % 256) as u8, if a + b > 255 { 1u8 } else { 0u8 })
}

/// `a - b` wrapped to eight bits, and 1 when `a > b` (no borrow), else 0.
pub open spec fn sub_with_flag(a: u8, b: u8) -> (u8, u8) {
    (((a - b + 256) % 256) as u8, if a > b { 1u8 } else { 0u8 })
}

/// `a` shifted right by one, and the bit shifted out.
pub open spec fn shift_right(a: u8) -> (u8, u8) {
    ((a / 2) as u8, (a % 2) as u8)
}

/// `a` shifted left by one and wrapped to eight bits, and the bit shifted out.
pub open spec fn shift_left(a: u8) -> (u8, u8) {
    (((a * 2) % 256) as u8, (a / 128) as u8)
}

/// Memory with `program` copied in at `PROGRAM_START`.
pub open spec fn with_program(memory: Seq<u8>, program: Seq<u8>) -> Seq<u8> {
    Seq::new(
        memory.len(),
        |a: int|
            if 0x200 <= a < 0x200 + program.len() {
                program[a - 0x200]
            } else {
                memory[a]
            },
    )
}

impl Machine {
    /// Sizes of the parts, the stack bound, and what a suspended machine needs to resume.
    pub open spec fn wf(self) -> bool {
        &&& self.memory.len() == MEMORY_SIZE
        &&& self.v.len() == 16
        &&& self.stack.len() == 16
        &&& self.display.len() == NUM_PIXELS
        &&& self.keypad.len() == 16
        &&& self.sp <= STACK_DEPTH
        &&& self.state matches RunState::AwaitingKey { x } ==> x < 16 && self.pc < 4095
    }

    /// A freshly built machine: font loaded, everything else zero, `pc` at `PROGRAM_START`.
    pub open spec fn initial(quirks: Quirks) -> Machine {
        Machine {
            pc: PROGRAM_START,
            memory: Seq::new(MEMORY_SIZE as nat, |a: int| if a < 80 { font()[a] } else { 0u8 }),
            v: Seq::new(16, |r: int| 0u8),
            i: 0,
            dt: 0,
            st: 0,
            sp: 0,
            stack: Seq::new(16, |k: int| 0u16),
            display: blank(),
            keypad: Seq::new(16, |k: int| false),
            state: RunState::Running,
            quirks,
        }
    }

    /// `pc` moved on by `by` bytes.
    pub open spec fn advance(self, by: int) -> Machine {
        Machine { pc: (self.pc + by) as u16, ..self }
    }

    /// Skips the next instruction when `cond` holds.
    pub open spec fn skip_if(self, cond: bool) -> Machine {
        self.advance(if cond { 4 } else { 2 })
    }

    /// Register `Vx` set to `val`.
    pub open spec fn with_v(self, x: int, val: u8) -> Machine {
        Machine { v: self.v.update(x, val), ..self }
    }

    /// Stopped for good with `fault`.
    pub open spec fn halt(self, fault: Fault) -> Machine {
        Machine { state: RunState::Halted { fault }, ..self }
    }

    /// Whether key `k` exists and is down.
    pub open spec fn key_down(self, k: int) -> bool {
        k < 16 && self.keypad[k]
    }

    /// The word at `pc`, big-endian.
    pub open spec fn opcode(self) -> u16 {
        (self.memory[self.pc as int] * 256 + self.memory[self.pc + 1]) as u16
    }

    /// Memory after `V0..=Vx` are written to `I..=I+x`.
    pub open spec fn stored(self, x: int) -> Seq<u8> {
        Seq::new(
            self.memory.len(),
            |a: int| if self.i <= a <= self.i + x { self.v[a - self.i] } else { self.memory[a] },
        )
    }

    /// Registers after `V0..=Vx` are read from `I..=I+x`.
    pub open spec fn loaded(self, x: int) -> Seq<u8> {
        Seq::new(
            self.v.len(),
            |r: int| if r <= x { self.memory[self.i + r] } else { self.v[r] },
        )
    }

    /// The shift source under the machine's quirks.
    pub open spec fn shift_source(self, x: int, y: int) -> u8 {
        if self.quirks.shift_reads_vy { self.v[y] } else { self.v[x] }
    }

    /// One instruction's effect; `rnd` is the byte that `Cxkk` draws.
    pub open spec fn execute(self, inst: Instruction, rnd: u8) -> Machine {
        match inst {
            Instruction::Cls => Machine { display: blank(), ..self }.advance(2),
            Instruction::Ret => if self.sp == 0 {
                self.halt(Fault::StackUnderflow)
            } else {
                Machine { sp: (self.sp - 1) as u8, pc: self.stack[self.sp - 1], ..self }
            },
            Instruction::Jump { nnn } => Machine { pc: nnn, ..self },
            Instruction::Call { nnn } => if self.sp >= STACK_DEPTH {
                self.halt(Fault::StackOverflow)
            } else {
                Machine {
                    stack: self.stack.update(self.sp as int, (self.pc + 2) as u16),
                    sp: (self.sp + 1) as u8,
                    pc: nnn,
                    ..self
                }
            },
            Instruction::SkipEqByte { x, kk } => self.skip_if(self.v[x as int] == kk),
            Instruction::SkipNeByte { x, kk } => self.skip_if(self.v[x as int] != kk),
            Instruction::SkipEqReg { x, y } => self.skip_if(self.v[x as int] == self.v[y as int]),
            Instruction::SkipNeReg { x, y } => self.skip_if(self.v[x as int] != self.v[y as int]),
            Instruction::LoadByte { x, kk } => self.with_v(x as int, kk).advance(2),
            Instruction::AddByte { x, kk } => self.with_v(
                x as int,
                add_with_carry(self.v[x as int], kk).0,
            ).advance(2),
            Instruction::LoadReg { x, y } => self.with_v(x as int, self.v[y as int]).advance(2),
            Instruction::Or { x, y } => self.with_v(x as int, self.v[x as int] | self.v[y as int]).advance(2),
            Instruction::And { x, y } => self.with_v(x as int, self.v[x as int] & self.v[y as int]).advance(2),
            Instruction::Xor { x, y } => self.with_v(x as int, self.v[x as int] ^ self.v[y as int]).advance(2),
            Instruction::AddReg { x, y } => {
                let (r, f) = add_with_carry(self.v[x as int], self.v[y as int]);
                self.with_v(x as int, r).with_v(15, f).advance(2)
            },
            Instruction::Sub { x, y } => {
                let (r, f) = sub_with_flag(self.v[x as int], self.v[y as int]);
                self.with_v(15, f).with_v(x as int, r).advance(2)
            },
            Instruction::SubReversed { x, y } => {
                let (r, f) = sub_with_flag(self.v[y as int], self.v[x as int]);
                self.with_v(15, f).with_v(x as int, r).advance(2)
            },
            Instruction::ShiftRight { x, y } => {
                let (r, f) = shift_right(self.shift_source(x as int, y as int));
                self.with_v(15, f).with_v(x as int, r).advance(2)
            },
            Instruction::ShiftLeft { x, y } => {
                let (r, f) = shift_left(self.shift_source(x as int, y as int));
                self.with_v(15, f).with_v(x as int, r).advance(2)
            },
            Instruction::LoadIndex { nnn } => Machine { i: nnn, ..self }.advance(2),
            Instruction::JumpOffset { x, nnn } => {
                let base = if self.quirks.jump_adds_vx { self.v[x as int] } else { self.v[0] };
                Machine { pc: (nnn + base) as u16, ..self }
            },
            Instruction::Random { x, kk } => self.with_v(x as int, rnd & kk).advance(2),
            Instruction::Draw { x, y, n } => if self.i + n > MEMORY_SIZE {
                self.halt(Fault::OutOfBoundsAccess)
            } else {
                let sprite = self.memory.subrange(self.i as int, self.i + n);
                let vx = self.v[x as int] as int;
                let vy = self.v[y as int] as int;
                let hit = collides(self.display, sprite, vx, vy);
                Machine { display: drawn(self.display, sprite, vx, vy), ..self }.with_v(
                    15,
                    if hit { 1u8 } else { 0u8 },
                ).advance(2)
            },
            Instruction::SkipKeyDown { x } => self.skip_if(self.key_down(self.v[x as int] as int)),
            Instruction::SkipKeyUp { x } => self.skip_if(!self.key_down(self.v[x as int] as int)),
            Instruction::LoadDelay { x } => self.with_v(x as int, self.dt).advance(2),
            Instruction::WaitKey { x } => Machine { state: RunState::AwaitingKey { x }, ..self },
            Instruction::SetDelay { x } => Machine { dt: self.v[x as int], ..self }.advance(2),
            Instruction::SetSound { x } => Machine { st: self.v[x as int], ..self }.advance(2),
            Instruction::AddIndex { x } => Machine {
                i: ((self.i + self.v[x as int]) % 0x10000) as u16,
                ..self
            }.advance(2),
            Instruction::LoadFont { x } => Machine {
                i: (self.v[x as int] * GLYPH_BYTES) as u16,
                ..self
            }.advance(2),
            Instruction::StoreBcd { x } => if self.i + 3 > MEMORY_SIZE {
                self.halt(Fault::OutOfBoundsAccess)
            } else {
                let val = self.v[x as int];
                Machine {
                    memory: self.memory.update(self.i as int, val / 100).update(
                        self.i + 1,
                        (val % 100) / 10,
                    ).update(self.i + 2, val % 10),
                    ..self
                }.advance(2)
            },
            Instruction::StoreRegs { x } => if self.i + x + 1 > MEMORY_SIZE {
                self.halt(Fault::OutOfBoundsAccess)
            } else {
                Machine { memory: self.stored(x as int), ..self }.advance(2)
            },
            Instruction::LoadRegs { x } => if self.i + x + 1 > MEMORY_SIZE {
                self.halt(Fault::OutOfBoundsAccess)
            } else {
                Machine { v: self.loaded(x as int), ..self }.advance(2)
            },
        }
    }

    /// One fetch-decode-execute cycle; a suspended or halted machine stays as it is.
    pub open spec fn step(self, rnd: u8) -> Machine {
        match self.state {
            RunState::Running => if self.pc + 1 >= MEMORY_SIZE {
                self.halt(Fault::OutOfBoundsAccess)
            } else {
                match decode_spec(self.opcode()) {
                    Some(inst) => self.execute(inst, rnd),
                    None => self.halt(Fault::InvalidOpcode { opcode: self.opcode(), pc: self.pc }),
                }
            },
            _ => self,
        }
    }

    /// One 60 Hz timer tick: both timers count down, stopping at zero.
    pub open spec fn tick(self) -> Machine {
        Machine {
            dt: if self.dt > 0 { (self.dt - 1) as u8 } else { 0 },
            st: if self.st > 0 { (self.st - 1) as u8 } else { 0 },
            ..self
        }
    }

    /// Key `k` goes down or up; a press resumes a machine waiting for a key.
    pub open spec fn set_key(self, k: u8, pressed: bool) -> Machine {
        if k >= 16 {
            self
        } else {
            let m = Machine { keypad: self.keypad.update(k as int, pressed), ..self };
            match self.state {
                RunState::AwaitingKey { x } => if pressed {
                    Machine { state: RunState::Running, ..m.with_v(x as int, k) }.advance(2)
                } else {
                    m
                },
                _ => m,
            }
        }
    }
}

/// Relies on rand::random: a byte drawn from the thread-local generator. Nothing is
/// known of its value.
#[verifier::external_body]
fn random_byte() -> (r: u8) {
    rand::random::<u8>()
}

/// A CHIP-8 machine: memory, registers, call stack, timers, screen and keypad.
pub struct Chip8 {
    pc: u16,
    memory: [u8; 4096],
    v: [u8; 16],
    i: u16,
    dt: u8,
    st: u8,
    sp: u8,
    stack: [u16; 16],
    display: Framebuffer,
    keypad: [bool; 16],
    state: RunState,
    quirks: Quirks,
}

impl View for Chip8 {
    type V = Machine;

    closed spec fn view(&self) -> Machine {
        Machine {
            pc: self.pc,
            memory: self.memory@,
            v: self.v@,
            i: self.i,
            dt: self.dt,
            st: self.st,
            sp: self.sp,
            stack: self.stack@,
            display: self.display@,
            keypad: self.keypad@,
            state: self.state,
            quirks: self.quirks,
        }
    }
}

impl Chip8 {
    /// The machine's state is well formed (see `Machine::wf`).
    pub open spec fn wf(&self) -> bool {
        self@.wf()
    }

    /// A machine with the given quirks, font loaded and `pc` at `PROGRAM_START`.
    pub fn with_quirks(quirks: Quirks) -> (r: Chip8)
        ensures
            r.wf(),
            r@ == Machine::initial(quirks),
    {
        let glyphs = font_set();
        let mut memory = [0u8; 4096];
        let mut k: usize = 0;
        while k < 80
            invariant
                k <= 80,
                glyphs@ == font(),
                memory@.len() == 4096,
                forall|a: int| 0 <= a < 4096 ==> memory@[a] == if a < k { font()[a] } else { 0u8 },
            decreases 80 - k,
        {
            memory[k] = glyphs[k];
            k += 1;
        }
        let r = Chip8 {
            pc: PROGRAM_START,
            memory,
            v: [0u8; 16],
            i: 0,
            dt: 0,
            st: 0,
            sp: 0,
            stack: [0u16; 16],
            display: empty_grid(),
            keypad: [false; 16],
            state: RunState::Running,
            quirks,
        };
        proof {
            r.display.lemma_len();
            assert(r@ =~= Machine::initial(quirks));
        }
        r
    }

    /// A machine with the classic quirks: shifts work on `Vx` in place, `Bnnn` adds `V0`.
    pub fn new() -> (r: Chip8)
        ensures
            r.wf(),
            r@ == Machine::initial(Quirks { shift_reads_vy: false, jump_adds_vx: false }),
    {
        Chip8::with_quirks(Quirks { shift_reads_vy: false, jump_adds_vx: false })
    }

    fn advance(&mut self, by: u16)
        requires
            old(self).pc + by < 0x10000,
        ensures
            final(self)@ == old(self)@.advance(by as int),
    {
        self.pc = self.pc + by;
    }

    fn skip_if(&mut self, cond: bool)
        requires
            old(self).pc + 4 < 0x10000,
        ensures
            final(self)@ == old(self)@.skip_if(cond),
    {
        if cond {
            self.advance(4);
        } else {
            self.advance(2);
        }
    }

    fn set_v(&mut self, x: u8, val: u8)
        requires
            x < 16,
        ensures
            final(self)@ == old(self)@.with_v(x as int, val),
    {
        self.v[x as usize] = val;
    }

    fn halt(&mut self, fault: Fault)
        ensures
            final(self)@ == old(self)@.halt(fault),
    {
        self.state = RunState::Halted { fault };
    }

    fn key_down(&self, k: u8) -> (r: bool)
        ensures
            r == self@.key_down(k as int),
    {
        k < 16 && self.keypad[k as usize]
    }

    /// The `n` sprite bytes that start at `I`.
    fn read_sprite(&self, n: u8) -> (r: Vec<u8>)
        requires
            self.i + n <= MEMORY_SIZE,
        ensures
            r@ == self@.memory.subrange(self.i as int, self.i + n),
    {
        let mut r: Vec<u8> = Vec::new();
        let mut k: usize = 0;
        while k < n as usize
            invariant
                k <= n,
                self.i + n <= MEMORY_SIZE,
                r@ == self@.memory.subrange(self.i as int, self.i + k),
            decreases n - k,
        {
            r.push(self.memory[self.i as usize + k]);
            k += 1;
            assert(r@ =~= self@.memory.subrange(self.i as int, self.i + k));
        }
        r
    }

    fn store_regs(&mut self, x: u8)
        requires
            x < 16,
            old(self).i + x + 1 <= MEMORY_SIZE,
        ensures
            final(self)@ == (Machine { memory: old(self)@.stored(x as int), ..old(self)@ }),
    {
        let mut memory = self.memory;
        let base = self.i as usize;
        let mut k: usize = 0;
        while k <= x as usize
            invariant
                k <= x + 1,
                x < 16,
                base == self.i,
                base + x + 1 <= MEMORY_SIZE,
                memory@.len() == 4096,
                forall|a: int|
                    0 <= a < 4096 ==> memory@[a] == if base <= a < base + k {
                        self.v@[a - base]
                    } else {
                        self.memory@[a]
                    },
            decreases x + 1 - k,
        {
            memory[base + k] = self.v[k];
            k += 1;
        }
        self.memory = memory;
        assert(self.memory@ =~= old(self)@.stored(x as int));
    }

    fn load_regs(&mut self, x: u8)
        requires
            x < 16,
            old(self).i + x + 1 <= MEMORY_SIZE,
        ensures
            final(self)@ == (Machine { v: old(self)@.loaded(x as int), ..old(self)@ }),
    {
        let mut v = self.v;
        let base = self.i as usize;
        let mut k: usize = 0;
        while k <= x as usize
            invariant
                k <= x + 1,
                x < 16,
                base == self.i,
                base + x + 1 <= MEMORY_SIZE,
                v@.len() == 16,
                forall|r: int|
                    0 <= r < 16 ==> v@[r] == if r < k { self.memory@[base + r] } else { self.v@[r] },
            decreases x + 1 - k,
        {
            v[k] = self.memory[base + k];
            k += 1;
        }
        self.v = v;
        assert(self.v@ =~= old(self)@.loaded(x as int));
    }

    /// Executes one decoded instruction; `rnd` is the byte that `Cxkk` masks.
    fn execute(&mut self, inst: Instruction, rnd: u8)
        requires
            old(self).wf(),
            old(self)@.state == RunState::Running,
            old(self).pc + 1 < MEMORY_SIZE,
            fields_in_range(inst),
        ensures
            final(self).wf(),
            final(self)@ == old(self)@.execute(inst, rnd),
    {
        match inst {
            Instruction::Cls => {
                self.display.clear();
                self.advance(2);
            },
            Instruction::Ret => {
                if self.sp == 0 {
                    self.halt(Fault::StackUnderflow);
                } else {
                    self.sp = self.sp - 1;
                    self.pc = self.stack[self.sp as usize];
                }
            },
            Instruction::Jump { nnn } => {
                self.pc = nnn;
            },
            Instruction::Call { nnn } => {
                if self.sp >= STACK_DEPTH {
                    self.halt(Fault::StackOverflow);
                } else {
                    self.stack[self.sp as usize] = self.pc + 2;
                    self.sp = self.sp + 1;
                    self.pc = nnn;
                }
            },
            Instruction::SkipEqByte { x, kk } => {
                let c = self.v[x as usize] == kk;
                self.skip_if(c);
            },
            Instruction::SkipNeByte { x, kk } => {
                let c = self.v[x as usize] != kk;
                self.skip_if(c);
            },
            Instruction::SkipEqReg { x, y } => {
                let c = self.v[x as usize] == self.v[y as usize];
                self.skip_if(c);
            },
            Instruction::SkipNeReg { x, y } => {
                let c = self.v[x as usize] != self.v[y as usize];
                self.skip_if(c);
            },
            Instruction::LoadByte { x, kk } => {
                self.set_v(x, kk);
                self.advance(2);
            },
            Instruction::AddByte { x, kk } => {
                let r = ((self.v[x as usize] as u16 + kk as u16) % 256) as u8;
                self.set_v(x, r);
                self.advance(2);
            },
            Instruction::LoadReg { x, y } => {
                let r = self.v[y as usize];
                self.set_v(x, r);
                self.advance(2);
            },
            Instruction::Or { x, y } => {
                let r = self.v[x as usize] | self.v[y as usize];
                self.set_v(x, r);
                self.advance(2);
            },
            Instruction::And { x, y } => {
                let r = self.v[x as usize] & self.v[y as usize];
                self.set_v(x, r);
                self.advance(2);
            },
            Instruction::Xor { x, y } => {
                let r = self.v[x as usize] ^ self.v[y as usize];
                self.set_v(x, r);
                self.advance(2);
            },
            Instruction::AddReg { x, y } => {
                let sum = self.v[x as usize] as u16 + self.v[y as usize] as u16;
                self.set_v(x, (sum % 256) as u8);
                self.set_v(15, if sum > 255 { 1 } else { 0 });
                self.advance(2);
            },
            Instruction::Sub { x, y } => {
                let a = self.v[x as usize];
                let b = self.v[y as usize];
                self.set_v(15, if a > b { 1 } else { 0 });
                self.set_v(x, ((a as u16 + 256 - b as u16) % 256) as u8);
                self.advance(2);
            },
            Instruction::SubReversed { x, y } => {
                let a = self.v[y as usize];
                let b = self.v[x as usize];
                self.set_v(15, if a > b { 1 } else { 0 });
                self.set_v(x, ((a as u16 + 256 - b as u16) % 256) as u8);
                self.advance(2);
            },
            Instruction::ShiftRight { x, y } => {
                let src = if self.quirks.shift_reads_vy { self.v[y as usize] } else { self.v[x as usize] };
                self.set_v(15, src % 2);
                self.set_v(x, src / 2);
                self.advance(2);
            },
            Instruction::ShiftLeft { x, y } => {
                let src = if self.quirks.shift_reads_vy { self.v[y as usize] } else { self.v[x as usize] };
                self.set_v(15, src / 128);
                self.set_v(x, ((src as u16 * 2) % 256) as u8);
                self.advance(2);
            },
            Instruction::LoadIndex { nnn } => {
                self.i = nnn;
                self.advance(2);
            },
            Instruction::JumpOffset { x, nnn } => {
                let base = if self.quirks.jump_adds_vx { self.v[x as usize] } else { self.v[0] };
                self.pc = nnn + base as u16;
            },
            Instruction::Random { x, kk } => {
                self.set_v(x, rnd & kk);
                self.advance(2);
            },
            Instruction::Draw { x, y, n } => {
                if self.i as usize + n as usize > MEMORY_SIZE {
                    self.halt(Fault::OutOfBoundsAccess);
                } else {
                    let sprite = self.read_sprite(n);
                    let vx = self.v[x as usize];
                    let vy = self.v[y as usize];
                    let hit = self.display.draw_sprite(vx, vy, sprite.as_slice());
                    self.set_v(15, if hit { 1 } else { 0 });
                    self.advance(2);
                }
            },
            Instruction::SkipKeyDown { x } => {
                let c = self.key_down(self.v[x as usize]);
                self.skip_if(c);
            },
            Instruction::SkipKeyUp { x } => {
                let c = !self.key_down(self.v[x as usize]);
                self.skip_if(c);
            },
            Instruction::LoadDelay { x } => {
                let r = self.dt;
                self.set_v(x, r);
                self.advance(2);
            },
            Instruction::WaitKey { x } => {
                self.state = RunState::AwaitingKey { x };
            },
            Instruction::SetDelay { x } => {
                self.dt = self.v[x as usize];
                self.advance(2);
            },
            Instruction::SetSound { x } => {
                self.st = self.v[x as usize];
                self.advance(2);
            },
            Instruction::AddIndex { x } => {
                self.i = ((self.i as u32 + self.v[x as usize] as u32) % 0x10000) as u16;
                self.advance(2);
            },
            Instruction::LoadFont { x } => {
                self.i = self.v[x as usize] as u16 * GLYPH_BYTES;
                self.advance(2);
            },
            Instruction::StoreBcd { x } => {
                if self.i as usize + 3 > MEMORY_SIZE {
                    self.halt(Fault::OutOfBoundsAccess);
                } else {
                    let val = self.v[x as usize];
                    let a = self.i as usize;
                    self.memory[a] = val / 100;
                    self.memory[a + 1] = (val % 100) / 10;
                    self.memory[a + 2] = val % 10;
                    self.advance(2);
                }
            },
            Instruction::StoreRegs { x } => {
                if self.i as usize + x as usize + 1 > MEMORY_SIZE {
                    self.halt(Fault::OutOfBoundsAccess);
                } else {
                    self.store_regs(x);
                    self.advance(2);
                }
            },
            Instruction::LoadRegs { x } => {
                if self.i as usize + x as usize + 1 > MEMORY_SIZE {
                    self.halt(Fault::OutOfBoundsAccess);
                } else {
                    self.load_regs(x);
                    self.advance(2);
                }
            },
        }
    }

    /// One fetch-decode-execute cycle, with `random` as the byte a `Cxkk` draws. A
    /// machine that waits for a key, or has halted, is left as it is.
    pub fn step_with(&mut self, random: u8)
        requires
            old(self).wf(),
        ensures
            final(self).wf(),
            final(self)@ == old(self)@.step(random),
    {
        match self.state {
            RunState::Running => {
                if self.pc as usize + 1 >= MEMORY_SIZE {
                    self.halt(Fault::OutOfBoundsAccess);
                } else {
                    let pc = self.pc;
                    let op = self.memory[pc as usize] as u16 * 256 + self.memory[pc as usize + 1] as u16;
                    match decode(op) {
                        Some(inst) => self.execute(inst, random),
                        None => self.halt(Fault::InvalidOpcode { opcode: op, pc }),
                    }
                }
            },
            _ => {},
        }
    }

    /// One fetch-decode-execute cycle, drawing the byte for `Cxkk` from the thread-local
    /// random generator.
    pub fn step(&mut self)
        requires
            old(self).wf(),
        ensures
            final(self).wf(),
            exists|random: u8| final(self)@ == old(self)@.step(random),
    {
        let random = random_byte();
        self.step_with(random);
    }

    /// Copies `rom` into memory from `PROGRAM_START` on; a program longer than
    /// `MAX_PROGRAM_LEN` is refused and nothing changes.
    pub fn load(&mut self, rom: &[u8]) -> (r: Result<(), LoadError>)
        requires
            old(self).wf(),
        ensures
            final(self).wf(),
            rom@.len() <= MAX_PROGRAM_LEN ==> r == Ok::<(), LoadError>(()) && final(self)@ == (Machine {
                memory: with_program(old(self)@.memory, rom@),
                ..old(self)@
            }),
            rom@.len() > MAX_PROGRAM_LEN ==> r == Err::<(), LoadError>(
                LoadError::RomTooLarge { len: rom@.len() as usize },
            ) && final(self)@ == old(self)@,
    {
        if rom.len() > MAX_PROGRAM_LEN {
            return Err(LoadError::RomTooLarge { len: rom.len() });
        }
        let mut memory = self.memory;
        let mut k: usize = 0;
        while k < rom.len()
            invariant
                k <= rom@.len(),
                rom@.len() <= MAX_PROGRAM_LEN,
                memory@.len() == 4096,
                forall|a: int|
                    0 <= a < 4096 ==> memory@[a] == if 0x200 <= a < 0x200 + k {
                        rom@[a - 0x200]
                    } else {
                        self.memory@[a]
                    },
            decreases rom@.len() - k,
        {
            memory[0x200 + k] = rom[k];
            k += 1;
        }
        self.memory = memory;
        assert(self.memory@ =~= with_program(old(self)@.memory, rom@));
        Ok(())
    }

    /// One 60 Hz tick: the delay and sound timers each drop by one, stopping at zero.
    pub fn tick(&mut self)
        ensures
            final(self)@ == old(self)@.tick(),
    {
        if self.dt > 0 {
            self.dt = self.dt - 1;
        }
        if self.st > 0 {
            self.st = self.st - 1;
        }
    }

    /// Key `index` goes down (`pressed`) or up. A press resumes a machine waiting on
    /// `Fx0A`: the key's index goes to the waiting register and `pc` moves past the wait.
    /// An index past the keypad changes nothing.
    pub fn set_key(&mut self, index: u8, pressed: bool)
        requires
            old(self).wf(),
        ensures
            final(self).wf(),
            final(self)@ == old(self)@.set_key(index, pressed),
    {
        if index >= 16 {
            return;
        }
        self.keypad[index as usize] = pressed;
        match self.state {
            RunState::AwaitingKey { x } => {
                if pressed {
                    self.set_v(x, index);
                    self.state = RunState::Running;
                    self.advance(2);
                }
            },
            _ => {},
        }
    }

    /// Releases every key.
    pub fn reset_keypad(&mut self)
        ensures
            final(self)@ == (Machine { keypad: Seq::new(16, |k: int| false), ..old(self)@ }),
    {
        let mut k: usize = 0;
        while k < 16
            invariant
                k <= 16,
                self@ == (Machine {
                    keypad: Seq::new(16, |j: int| if j < k { false } else { old(self)@.keypad[j] }),
                    ..old(self)@
                }),
            decreases 16 - k,
        {
            self.keypad[k] = false;
            k += 1;
            assert(self.keypad@ =~= Seq::new(
                16,
                |j: int| if j < k { false } else { old(self)@.keypad[j] },
            ));
        }
        assert(self.keypad@ =~= Seq::new(16, |k: int| false));
    }

    /// Whether the tone should sound: the sound timer is running.
    pub fn sound_active(&self) -> (r: bool)
        ensures
            r == (self@.st > 0),
    {
        self.st > 0
    }

    /// The program counter.
    pub fn pc(&self) -> (r: u16)
        ensures
            r == self@.pc,
    {
        self.pc
    }

    /// Register `Vx`.
    pub fn register(&self, x: u8) -> (r: u8)
        requires
            x < 16,
        ensures
            r == self@.v[x as int],
    {
        self.v[x as usize]
    }

    /// The index register `I`.
    pub fn index(&self) -> (r: u16)
        ensures
            r == self@.i,
    {
        self.i
    }

    /// The delay timer `DT`.
    pub fn delay_timer(&self) -> (r: u8)
        ensures
            r == self@.dt,
    {
        self.dt
    }

    /// The sound timer `ST`.
    pub fn sound_timer(&self) -> (r: u8)
        ensures
            r == self@.st,
    {
        self.st
    }

    /// Number of return addresses on the call stack.
    pub fn stack_pointer(&self) -> (r: u8)
        ensures
            r == self@.sp,
    {
        self.sp
    }

    /// The byte at `addr`.
    pub fn memory_at(&self, addr: u16) -> (r: u8)
        requires
            addr < MEMORY_SIZE,
        ensures
            r == self@.memory[addr as int],
    {
        self.memory[addr as usize]
    }

    /// Whether key `index` is down.
    pub fn key(&self, index: u8) -> (r: bool)
        requires
            index < 16,
        ensures
            r == self@.keypad[index as int],
    {
        self.keypad[index as usize]
    }

    /// The screen, read-only.
    pub fn display(&self) -> (r: &Framebuffer)
        ensures
            r@ == self@.display,
    {
        &self.display
    }

    /// Whether the machine runs, waits for a key, or has halted.
    pub fn state(&self) -> (r: RunState)
        ensures
            r == self@.state,
    {
        self.state
    }

    /// The quirks the machine was built with.
    pub fn quirks(&self) -> (r: Quirks)
        ensures
            r == self@.quirks,
    {
        self.quirks
    }
}

} // verus!
