use crate::emulator::emulate_8080_op;
use crate::laws::{lemma_full_memory_can_step, lemma_step_preserves};
use crate::semantics::{outcome, step, StepError};
use crate::state_8080::{lemma_wrap16_facts, Machine, State8080};
use std::time::{Duration, Instant};
use vstd::prelude::*;

verus! {

/// The cycles the processor runs in one frame: the display is 60 Hz, the
/// clock 2 MHz.
pub const CYCLES_PER_FRAME: u32 = 2_000_000 / 60;

/// The cycles charged for an IN or OUT that the cabinet handles itself.
pub const PORT_CYCLES: u32 = 3;

/// How the lit pixels are coloured.
#[allow(non_camel_case_types)]
#[derive(Debug, PartialEq, Eq, Clone, Copy, Structural)]
pub enum ColorScheme {
    CLASSIC,
    MONOCHROME,
}

/// The colour of one pixel.
#[allow(non_camel_case_types)]
#[derive(Debug, PartialEq, Eq, Clone, Copy, Structural)]
pub enum PixelColor {
    BLACK,
    RED,
    GREEN,
    WHITE,
}

/// The keys that the cabinet and its window react to.
#[derive(Debug, PartialEq, Eq, Clone, Copy, Structural)]
pub enum Key {
    C,
    T,
    Z,
    Left,
    Right,
    O,
    P,
    Q,
    Escape,
    Other,
}

/// What the window reports between two frames.
#[derive(Debug, PartialEq, Eq, Clone, Copy, Structural)]
pub enum Event {
    Quit,
    KeyDown(Key),
    KeyUp(Key),
    Other,
}

/// Why the cabinet stopped in the middle of a frame.
#[derive(Debug, PartialEq, Eq, Clone, Copy, Structural)]
pub enum FrameError {
    /// The processor reported HLT or an opcode without an instruction.
    Cpu(StepError),
    /// The program read the input port carried here, which the cabinet does
    /// not have.
    InputPort(u8),
}

/// `std::time::Instant`: a reading of the clock. The cabinet keeps the one
/// taken when it was made and hands it back to the clock, to learn how long
/// ago that was; nothing is claimed of what it holds.
#[verifier::external_type_specification]
#[verifier::external_body]
pub struct ExInstant(Instant);

/// The processor in its cabinet: the shift register, the ports, and what the
/// frame loop keeps between frames. Times are nanoseconds since `epoch`, the
/// moment the cabinet was made; `last_timer` is the time of the last
/// interrupt.
pub struct SpaceInvadersMachine {
    pub state: State8080,
    pub epoch: Instant,
    pub last_timer: u128,
    pub which_interrupt: u8,
    pub shift_low: u8,
    pub shift_high: u8,
    pub shift_offset: u8,
    pub in_port1: u8,
    pub in_port2: u8,
    pub out_port3: u8,
    pub out_port5: u8,
    pub paused: bool,
    pub color_scheme: ColorScheme,
}

/// The mathematical value of a `SpaceInvadersMachine`: the same fields, with
/// the processor as its own mathematical value.
pub struct Cabinet {
    pub cpu: Machine,
    pub epoch: Instant,
    pub last_timer: u128,
    pub which_interrupt: u8,
    pub shift_low: u8,
    pub shift_high: u8,
    pub shift_offset: u8,
    pub in_port1: u8,
    pub in_port2: u8,
    pub out_port3: u8,
    pub out_port5: u8,
    pub paused: bool,
    pub color_scheme: ColorScheme,
}

impl View for SpaceInvadersMachine {
    type V = Cabinet;

    open spec fn view(&self) -> Cabinet {
        Cabinet {
            cpu: self.state@,
            epoch: self.epoch,
            last_timer: self.last_timer,
            which_interrupt: self.which_interrupt,
            shift_low: self.shift_low,
            shift_high: self.shift_high,
            shift_offset: self.shift_offset,
            in_port1: self.in_port1,
            in_port2: self.in_port2,
            out_port3: self.out_port3,
            out_port5: self.out_port5,
            paused: self.paused,
            color_scheme: self.color_scheme,
        }
    }
}

/// The bit of input port 1 that a key drives, or 0 for a key that drives
/// none: C is coin, T tilt, Z fire, and the arrows move.
pub open spec fn key_bit(key: Key) -> u8 {
    match key {
        Key::C => 0x01,
        Key::T => 0x04,
        Key::Z => 0x10,
        Key::Left => 0x20,
        Key::Right => 0x40,
        _ => 0x00,
    }
}

/// The window of eight bits that the shift register shows: `high` and `low`
/// joined to 16 bits, moved right by 8 - `offset`.
pub open spec fn shifter_byte(high: u8, low: u8, offset: u8) -> u8 {
    (((((high as u16) << 8) | (low as u16)) >> ((8 - offset) as u16)) & 0xff) as u8
}

impl Cabinet {
    /// The memory covers the address space, the flags are single bits and
    /// the shift offset has three bits.
    pub open spec fn wf(self) -> bool {
        self.cpu.mem.len() >= 0x10000 && self.cpu.cc.wf() && self.shift_offset <= 7
    }

    /// What a read of input port `port` returns.
    pub open spec fn port_in(self, port: u8) -> u8 {
        if port == 0 {
            0x0f
        } else if port == 1 {
            self.in_port1
        } else if port == 2 {
            self.in_port2
        } else {
            shifter_byte(self.shift_high, self.shift_low, self.shift_offset)
        }
    }

    /// The cabinet after `value` is written to output port `port`.
    pub open spec fn port_out(self, port: u8, value: u8) -> Cabinet {
        if port == 2 {
            Cabinet { shift_offset: value & 0x7, ..self }
        } else if port == 3 {
            Cabinet { out_port3: value, ..self }
        } else if port == 4 {
            Cabinet { shift_low: self.shift_high, shift_high: value, ..self }
        } else if port == 5 {
            Cabinet { out_port5: value, ..self }
        } else {
            self
        }
    }

    /// The cabinet after `event`: P pauses or resumes, O changes the colour
    /// scheme, and the game keys set or clear their bit of input port 1.
    pub open spec fn after_event(self, event: Event) -> Cabinet {
        match event {
            Event::KeyDown(Key::O) => Cabinet {
                color_scheme: match self.color_scheme {
                    ColorScheme::MONOCHROME => ColorScheme::CLASSIC,
                    ColorScheme::CLASSIC => ColorScheme::MONOCHROME,
                },
                ..self
            },
            Event::KeyDown(Key::P) => Cabinet { paused: !self.paused, ..self },
            Event::KeyDown(key) => Cabinet { in_port1: self.in_port1 | key_bit(key), ..self },
            Event::KeyUp(key) => Cabinet { in_port1: self.in_port1 & !key_bit(key), ..self },
            _ => self,
        }
    }

    /// The cabinet after one instruction. IN and OUT go to the cabinet's
    /// ports; an IN from a port that the cabinet does not have changes
    /// nothing. Every other instruction is the processor's own.
    pub open spec fn after_instruction(self) -> Cabinet {
        let op = self.cpu.opcode();
        let port = self.cpu.advance(1).immediate();
        if op == 0xdb {
            if port <= 3 {
                Cabinet { cpu: self.cpu.with_a(self.port_in(port)).advance(2), ..self }
            } else {
                self
            }
        } else if op == 0xd3 {
            Cabinet { cpu: self.cpu.advance(2), ..self.port_out(port, self.cpu.a) }
        } else {
            Cabinet { cpu: step(self.cpu), ..self }
        }
    }

    /// What executing one instruction reports: the cycles charged, or why
    /// the cabinet stopped.
    pub open spec fn instruction_outcome(self) -> Result<u32, FrameError> {
        let op = self.cpu.opcode();
        let port = self.cpu.advance(1).immediate();
        if op == 0xdb {
            if port <= 3 {
                Ok(PORT_CYCLES)
            } else {
                Err(FrameError::InputPort(port))
            }
        } else if op == 0xd3 {
            Ok(PORT_CYCLES)
        } else {
            match outcome(op) {
                Ok(count) => Ok(count),
                Err(error) => Err(FrameError::Cpu(error)),
            }
        }
    }

    /// Whether an interrupt is injected when `elapsed_nanos` nanoseconds have
    /// passed since the last one: more than a sixtieth of a second, with
    /// interrupts enabled.
    pub open spec fn interrupt_due(self, elapsed_nanos: u128) -> bool {
        60 * elapsed_nanos > 1_000_000_000 && self.cpu.int_enable != 0
    }

    /// The cabinet after its interrupt is injected.
    pub open spec fn interrupted(self) -> Cabinet {
        Cabinet { cpu: self.cpu.interrupted(self.which_interrupt as int), ..self }
    }

    /// The nanoseconds from the last interrupt to the time `now`, or 0 when
    /// `now` is the earlier of the two.
    pub open spec fn elapsed_at(self, now: u128) -> u128 {
        if now >= self.last_timer {
            (now - self.last_timer) as u128
        } else {
            0
        }
    }

    /// The cabinet after the clock was read as `now`: when the interrupt is
    /// due it is injected and `now` becomes the time of the last interrupt,
    /// else nothing changes.
    pub open spec fn after_clock(self, now: u128) -> Cabinet {
        if self.interrupt_due(self.elapsed_at(now)) {
            Cabinet { last_timer: now, ..self.interrupted() }
        } else {
            self
        }
    }
}

/// Reads the clock. Calls `std::time::Instant::now`; nothing is claimed of
/// the time returned.
#[verifier::external_body]
fn clock_now() -> (now: Instant) {
    Instant::now()
}

/// The time from `earlier` to `later`, or zero when `later` is the earlier of
/// the two. Calls `std::time::Instant::saturating_duration_since`; nothing is
/// claimed of the duration returned.
#[verifier::external_body]
fn elapsed_between(earlier: &Instant, later: &Instant) -> (elapsed: Duration) {
    later.saturating_duration_since(*earlier)
}

/// A duration in nanoseconds. Calls `std::time::Duration::as_nanos`; nothing
/// is claimed of the number returned.
#[verifier::external_body]
fn duration_nanos(duration: &Duration) -> (nanos: u128) {
    duration.as_nanos()
}

impl SpaceInvadersMachine {
    /// A cabinet around `state`, with the shift register and the ports
    /// cleared, running, and showing the classic colours. Its times count
    /// from now, and now is the time of its last interrupt.
    pub fn new(state: State8080) -> (machine: SpaceInvadersMachine)
        ensures
            machine@ == (Cabinet {
                cpu: state@,
                epoch: machine.epoch,
                last_timer: 0,
                which_interrupt: 2,
                shift_low: 0,
                shift_high: 0,
                shift_offset: 0,
                in_port1: 0,
                in_port2: 0,
                out_port3: 0,
                out_port5: 0,
                paused: false,
                color_scheme: ColorScheme::CLASSIC,
            }),
    {
        SpaceInvadersMachine {
            state: state,
            epoch: clock_now(),
            last_timer: 0,
            which_interrupt: 2,
            shift_low: 0,
            shift_high: 0,
            shift_offset: 0,
            in_port1: 0,
            in_port2: 0,
            out_port3: 0,
            out_port5: 0,
            paused: false,
            color_scheme: ColorScheme::CLASSIC,
        }
    }
}

/// What the program reads from input port `port`: port 0 always reads 0x0f,
/// ports 1 and 2 hold the controls, port 3 shows the shift register.
pub fn handle_in(machine: &SpaceInvadersMachine, port: u8) -> (value: u8)
    requires
        port <= 3,
        machine.shift_offset <= 7,
    ensures
        value == machine@.port_in(port),
{
    match port {
        0 => 0xf,
        1 => machine.in_port1,
        2 => machine.in_port2,
        _ => {
            let value: u16 = ((machine.shift_high as u16) << 8) | machine.shift_low as u16;
            let masked_value: u8 = ((value >> ((8 - machine.shift_offset) as u16)) & 0xff) as u8;
            masked_value
        },
    }
}

/// Writes `value` to output port `port`: port 2 sets the shift offset from
/// the low three bits, port 4 feeds the shift register, ports 3 and 5 latch
/// the sound bits, and every other port ignores the write.
pub fn handle_out(machine: &mut SpaceInvadersMachine, port: u8, value: u8)
    ensures
        final(machine)@ == old(machine)@.port_out(port, value),
{
    match port {
        2 => {
            machine.shift_offset = value & 0x7;
        },
        3 => {
            machine.out_port3 = value;
        },
        4 => {
            machine.shift_low = machine.shift_high;
            machine.shift_high = value;
        },
        5 => {
            machine.out_port5 = value;
        },
        _ => {},
    }
}

/// A key that drives no bit leaves the port as it is.
proof fn lemma_no_key(port: u8)
    ensures
        port | 0x00 == port,
        port & !0x00u8 == port,
{
    assert(port | 0x00 == port) by (bit_vector);
    assert(port & !0x00u8 == port) by (bit_vector);
}

/// Sets the bit of input port 1 that `key` drives.
pub fn machine_key_down(machine: &mut SpaceInvadersMachine, key: &Key)
    ensures
        final(machine)@ == (Cabinet {
            in_port1: old(machine).in_port1 | key_bit(*key),
            ..old(machine)@
        }),
{
    match key {
        Key::C => {
            machine.in_port1 |= 0x01;
        },
        Key::Left => {
            machine.in_port1 |= 0x20;
        },
        Key::Right => {
            machine.in_port1 |= 0x40;
        },
        Key::Z => {
            machine.in_port1 |= 0x10;
        },
        Key::T => {
            machine.in_port1 |= 0x04;
        },
        _ => {
            proof {
                lemma_no_key(machine.in_port1);
            }
        },
    }
}

/// Clears the bit of input port 1 that `key` drives.
pub fn machine_key_up(machine: &mut SpaceInvadersMachine, key: &Key)
    ensures
        final(machine)@ == (Cabinet {
            in_port1: old(machine).in_port1 & !key_bit(*key),
            ..old(machine)@
        }),
{
    match key {
        Key::C => {
            machine.in_port1 &= !0x01;
        },
        Key::Left => {
            machine.in_port1 &= !0x20;
        },
        Key::Right => {
            machine.in_port1 &= !0x40;
        },
        Key::Z => {
            machine.in_port1 &= !0x10;
        },
        Key::T => {
            machine.in_port1 &= !0x04;
        },
        _ => {
            proof {
                lemma_no_key(machine.in_port1);
            }
        },
    }
}

/// Applies one event of the window to the cabinet. Returns false when the
/// event ends the program: the window was closed, or Q or Escape pressed.
pub fn handle_event(machine: &mut SpaceInvadersMachine, event: Event) -> (running: bool)
    ensures
        final(machine)@ == old(machine)@.after_event(event),
        running == !(event == Event::Quit || event == Event::KeyDown(Key::Q) || event
            == Event::KeyDown(Key::Escape)),
{
    match event {
        Event::Quit | Event::KeyDown(Key::Q) | Event::KeyDown(Key::Escape) => {
            proof {
                lemma_no_key(machine.in_port1);
            }
            return false;
        },
        Event::KeyDown(Key::O) => {
            machine.color_scheme = match machine.color_scheme {
                ColorScheme::MONOCHROME => ColorScheme::CLASSIC,
                ColorScheme::CLASSIC => ColorScheme::MONOCHROME,
            };
        },
        Event::KeyDown(Key::P) => {
            machine.paused = !machine.paused;
        },
        Event::KeyDown(key) => {
            machine_key_down(machine, &key);
        },
        Event::KeyUp(key) => {
            machine_key_up(machine, &key);
        },
        _ => {},
    }
    true
}

/// Executes one instruction in the cabinet. OUT writes the accumulator to
/// the port that its operand names and IN reads that port into the
/// accumulator; both then move the program counter by two and take three
/// cycles. An IN from a port above 3 is an error and changes nothing. Every
/// other instruction goes to the processor.
pub fn execute_instruction(machine: &mut SpaceInvadersMachine) -> (result: Result<u32, FrameError>)
    requires
        old(machine)@.wf(),
    ensures
        final(machine)@ == old(machine)@.after_instruction(),
        result == old(machine)@.instruction_outcome(),
        final(machine)@.wf(),
        final(machine)@.cpu.mem.len() == old(machine)@.cpu.mem.len(),
{
    proof {
        lemma_wrap16_facts();
        lemma_full_memory_can_step(machine.state@);
        lemma_step_preserves(machine.state@);
    }
    let program_counter = machine.state.program_counter() as usize;
    let current_opcode = machine.state.read_memory(program_counter);
    match current_opcode {
        0xdb => {
            let port_number = machine.state.read_memory(program_counter + 1);
            if port_number > 3 {
                return Err(FrameError::InputPort(port_number));
            }
            let value = handle_in(machine, port_number);
            machine.state.a = value;
            machine.state.increment_program_counter(2);
            Ok(PORT_CYCLES)
        },
        0xd3 => {
            let port_number = machine.state.read_memory(program_counter + 1);
            let value = machine.state.a;
            handle_out(machine, port_number, value);
            machine.state.increment_program_counter(2);
            proof {
                lemma_offset_bound(value);
            }
            Ok(PORT_CYCLES)
        },
        _ => {
            match emulate_8080_op(&mut machine.state) {
                Ok(count) => Ok(count),
                Err(error) => Err(FrameError::Cpu(error)),
            }
        },
    }
}

/// The low three bits of a byte are at most 7.
proof fn lemma_offset_bound(value: u8)
    ensures
        value & 0x7 <= 7,
{
    assert(value & 0x7 <= 7) by (bit_vector);
}

/// Injects the cabinet's interrupt when more than a sixtieth of a second has
/// passed since the last one and interrupts are enabled. Returns whether it
/// did.
pub fn service_interrupt(machine: &mut SpaceInvadersMachine, elapsed_nanos: u128) -> (fired: bool)
    requires
        old(machine)@.wf(),
    ensures
        fired == old(machine)@.interrupt_due(elapsed_nanos),
        final(machine)@ == if fired {
            old(machine)@.interrupted()
        } else {
            old(machine)@
        },
        final(machine)@.wf(),
        final(machine)@.cpu.mem.len() == old(machine)@.cpu.mem.len(),
{
    if elapsed_nanos > 16_666_666 {
        if machine.state.interrupt_enabled() {
            proof {
                lemma_wrap16_facts();
            }
            machine.state.generate_interrupt(machine.which_interrupt as u16);
            return true;
        }
    }
    false
}

/// Takes the clock's reading `now`, in nanoseconds since the cabinet was
/// made: when more than a sixtieth of a second lies between the last
/// interrupt and `now` and interrupts are enabled, the interrupt is injected
/// and `now` becomes the time of the last interrupt. Returns whether it was.
pub fn service_clock(machine: &mut SpaceInvadersMachine, now: u128) -> (fired: bool)
    requires
        old(machine)@.wf(),
    ensures
        fired == old(machine)@.interrupt_due(old(machine)@.elapsed_at(now)),
        final(machine)@ == old(machine)@.after_clock(now),
        final(machine)@.wf(),
        final(machine)@.cpu.mem.len() == old(machine)@.cpu.mem.len(),
{
    let elapsed: u128 = if now >= machine.last_timer {
        now - machine.last_timer
    } else {
        0
    };
    let fired = service_interrupt(machine, elapsed);
    if fired {
        machine.last_timer = now;
    }
    fired
}

/// Every instruction takes between 3 and 18 cycles.
pub proof fn lemma_cycle_bounds(c: Cabinet)
    ensures
        c.instruction_outcome() is Ok ==> 3 <= c.instruction_outcome()->Ok_0 <= 18,
{
}

/// How far a frame has come: the cabinet, the cycles run, and the error that
/// stopped it, if one did.
pub struct FrameProgress {
    pub cabinet: Cabinet,
    pub cycles: int,
    pub error: Option<FrameError>,
}

impl FrameProgress {
    /// Whether the frame runs no further instruction: it was stopped by an
    /// error, the cabinet is paused, or the cycles of a frame are spent.
    pub open spec fn over(self) -> bool {
        self.error is Some || self.cabinet.paused || self.cycles >= CYCLES_PER_FRAME
    }

    /// What `run_frame` returns at this point.
    pub open spec fn result(self) -> Result<u32, FrameError> {
        match self.error {
            Some(error) => Err(error),
            None => Ok(self.cycles as u32),
        }
    }
}

/// The frame that starts in cabinet `c` and in which the clock, read after
/// instruction `k`, gave `readings[k]` nanoseconds. Each instruction is
/// executed and the clock's reading taken behind it; once the frame is over
/// the rest of `readings` counts for nothing.
pub open spec fn frame_progress(c: Cabinet, readings: Seq<u128>) -> FrameProgress
    decreases readings.len(),
{
    if readings.len() == 0 {
        FrameProgress { cabinet: c, cycles: 0, error: None }
    } else {
        let before = frame_progress(c, readings.drop_last());
        if before.over() {
            before
        } else {
            let after = before.cabinet.after_instruction();
            match before.cabinet.instruction_outcome() {
                Err(error) => FrameProgress { cabinet: after, error: Some(error), ..before },
                Ok(count) => FrameProgress {
                    cabinet: after.after_clock(readings.last()),
                    cycles: before.cycles + count,
                    error: None,
                },
            }
        }
    }
}

/// Runs the processor for one frame: instructions are executed until their
/// cycles reach `CYCLES_PER_FRAME`, and after each one the clock is read and
/// the interrupt injected if it is due. A paused cabinet does nothing.
/// Returns the cycles that were run, or the error that stopped the frame.
///
/// Only what the clock reads is left open: whatever it reads, the cabinet
/// ends where `frame_progress` leads for the sequence of its readings.
pub fn run_frame(machine: &mut SpaceInvadersMachine) -> (result: Result<u32, FrameError>)
    requires
        old(machine)@.wf(),
    ensures
        exists|readings: Seq<u128>|
            {
                let end = #[trigger] frame_progress(old(machine)@, readings);
                end.over() && end.cabinet == final(machine)@ && end.result() == result
            },
        final(machine)@.wf(),
        final(machine)@.cpu.mem.len() == old(machine)@.cpu.mem.len(),
        final(machine)@.epoch == old(machine)@.epoch,
        old(machine)@.paused ==> final(machine)@ == old(machine)@ && result == Ok::<
            u32,
            FrameError,
        >(0),
        !old(machine)@.paused ==> match result {
            Ok(count) => CYCLES_PER_FRAME <= count < CYCLES_PER_FRAME + 18,
            Err(_) => true,
        },
{
    let mut cycle_count: u32 = 0;
    let ghost mut readings: Seq<u128> = Seq::empty();
    while !machine.paused && cycle_count < CYCLES_PER_FRAME
        invariant
            machine@.wf(),
            machine@.cpu.mem.len() == old(machine)@.cpu.mem.len(),
            machine@.epoch == old(machine)@.epoch,
            machine@.paused == old(machine)@.paused,
            machine@.paused ==> machine@ == old(machine)@ && cycle_count == 0,
            cycle_count < CYCLES_PER_FRAME + 18,
            frame_progress(old(machine)@, readings) == (FrameProgress {
                cabinet: machine@,
                cycles: cycle_count as int,
                error: None,
            }),
        decreases CYCLES_PER_FRAME + 18 - cycle_count,
    {
        let ghost earlier = readings;
        proof {
            lemma_cycle_bounds(machine@);
        }
        match execute_instruction(machine) {
            Ok(count) => {
                cycle_count += count;
            },
            Err(error) => {
                proof {
                    readings = earlier.push(0);
                    assert(readings.drop_last() =~= earlier);
                    assert(frame_progress(old(machine)@, readings) == (FrameProgress {
                        cabinet: machine@,
                        cycles: cycle_count as int,
                        error: Some(error),
                    }));
                }
                return Err(error);
            },
        }
        let now = read_clock(&machine.epoch);
        proof {
            readings = earlier.push(now);
            assert(readings.drop_last() =~= earlier);
        }
        service_clock(machine, now);
    }
    Ok(cycle_count)
}

/// The time now, in nanoseconds since `epoch`. The clock decides what comes
/// back, so nothing is claimed of it.
fn read_clock(epoch: &Instant) -> (now: u128) {
    let current_time = clock_now();
    let elapsed = elapsed_between(epoch, &current_time);
    duration_nanos(&elapsed)
}

/// The number of pixels in a row of the screen.
pub const SCREEN_WIDTH: usize = 224;

/// The number of rows of the screen.
pub const SCREEN_HEIGHT: usize = 256;

/// Where the video memory starts.
pub const VRAM_START: usize = 0x2400;

/// The number of bytes of video memory: one bit for each pixel.
pub const VRAM_SIZE: usize = 224 * 256 / 8;

/// The colour of the pixel at column `x` and row `y`, lit when `state` is
/// not 0. A dark pixel is black. In monochrome a lit pixel is white. In the
/// classic scheme it is red in rows 32 to 63, white above them and down to
/// row 183, green in rows 184 to 239, and in the last 16 rows green in
/// columns 16 to 134 and white beside them.
pub open spec fn pixel_color(scheme: ColorScheme, x: u8, y: u8, state: u8) -> PixelColor {
    if state == 0 {
        PixelColor::BLACK
    } else if scheme == ColorScheme::MONOCHROME {
        PixelColor::WHITE
    } else if 32 <= y < 64 {
        PixelColor::RED
    } else if y < 184 {
        PixelColor::WHITE
    } else if y < 240 {
        PixelColor::GREEN
    } else if x < 16 || x > 134 {
        PixelColor::WHITE
    } else {
        PixelColor::GREEN
    }
}

/// A colour as one byte: three bits of red, three of green, two of blue.
pub open spec fn color_value(color: PixelColor) -> u8 {
    match color {
        PixelColor::BLACK => 0b00000000,
        PixelColor::RED => 0b11100000,
        PixelColor::GREEN => 0b00011100,
        PixelColor::WHITE => 0b11111111,
    }
}

impl PixelColor {
    /// The colour as one byte: three bits of red, three of green, two of
    /// blue.
    pub fn value(self) -> (byte: u8)
        ensures
            byte == color_value(self),
    {
        match self {
            PixelColor::BLACK => 0b00000000,
            PixelColor::RED => 0b11100000,
            PixelColor::GREEN => 0b00011100,
            PixelColor::WHITE => 0b11111111,
        }
    }
}

impl ColorScheme {
    /// The colour of the pixel at column `x` and row `y`, lit when `state`
    /// is not 0.
    pub fn get_pixel_color(&self, x: u8, y: u8, state: u8) -> (color: PixelColor)
        ensures
            color == pixel_color(*self, x, y, state),
    {
        if state == 0 {
            return PixelColor::BLACK;
        }
        match self {
            ColorScheme::MONOCHROME => PixelColor::WHITE,
            ColorScheme::CLASSIC => {
                if y >= 32 && y < 64 {
                    PixelColor::RED
                } else if y < 184 {
                    PixelColor::WHITE
                } else if y < 240 {
                    PixelColor::GREEN
                } else if x < 16 || x > 134 {
                    PixelColor::WHITE
                } else {
                    PixelColor::GREEN
                }
            },
        }
    }
}

/// Bit `b` of a byte of video memory: 1 for a lit pixel.
pub open spec fn vram_bit(byte: u8, b: u8) -> u8 {
    (byte >> b) & 1
}

/// The column of the screen that shows byte `i` of the video memory. The
/// picture is turned by a quarter: a row of the memory is a column of the
/// screen.
pub open spec fn screen_x(i: int) -> int {
    i / 32
}

/// The row of the screen that shows bit `b` of byte `i` of the video memory,
/// counted from the top.
pub open spec fn screen_y(i: int, b: int) -> int {
    255 - (i % 32 * 8 + b)
}

/// Where the pixel of bit `b` of byte `i` lies in the rendered picture, which
/// holds the rows of the screen one after the other.
pub open spec fn pixel_index(i: int, b: int) -> int {
    screen_x(i) + screen_y(i, b) * 224
}

/// The byte that the rendered picture holds for bit `b` of byte `i` of the
/// video memory.
pub open spec fn pixel_value(mem: Seq<u8>, scheme: ColorScheme, i: int, b: int) -> u8 {
    color_value(
        pixel_color(
            scheme,
            screen_x(i) as u8,
            screen_y(i, b) as u8,
            vram_bit(mem[0x2400 + i], b as u8),
        ),
    )
}

/// Taking a bit out of a byte by masking and shifting gives what shifting
/// and masking gives.
proof fn lemma_vram_bit(byte: u8, b: u8)
    requires
        b < 8,
    ensures
        (byte & (1u8 << b)) >> b == vram_bit(byte, b),
{
    assert((byte & (1u8 << b)) >> b == (byte >> b) & 1) by (bit_vector)
        requires
            b < 8,
    ;
}

/// Renders the video memory as a picture of 224 by 256 pixels, one byte per
/// pixel, row after row from the top.
pub fn render(state: &State8080, color_scheme: ColorScheme) -> (pixels: Vec<u8>)
    requires
        state@.mem.len() >= 0x4000,
    ensures
        pixels@.len() == 224 * 256,
        forall|i: int, b: int|
            0 <= i < 7168 && 0 <= b < 8 ==> pixels@[#[trigger] pixel_index(i, b)] == pixel_value(
                state@.mem,
                color_scheme,
                i,
                b,
            ),
{
    let mut pixels: Vec<u8> = vec![0u8; SCREEN_WIDTH * SCREEN_HEIGHT];
    let mut i: usize = 0;
    while i < VRAM_SIZE
        invariant
            i <= 7168,
            state@.mem.len() >= 0x4000,
            pixels@.len() == 57344,
            forall|j: int, b: int|
                0 <= j < i && 0 <= b < 8 ==> pixels@[#[trigger] pixel_index(j, b)] == pixel_value(
                    state@.mem,
                    color_scheme,
                    j,
                    b,
                ),
        decreases 7168 - i,
    {
        let memory_x = i % 32;
        let memory_y = i / 32;
        let current_byte = state.memory[VRAM_START + i];
        let screen_x = memory_y;
        let screen_y_base = 255 - memory_x * 8;
        let mut shift: usize = 0;
        while shift < 8
            invariant
                i < 7168,
                shift <= 8,
                memory_x == i % 32,
                screen_x == i / 32,
                screen_y_base == 255 - memory_x * 8,
                current_byte == state@.mem[0x2400 + i],
                pixels@.len() == 57344,
                forall|j: int, b: int|
                    (0 <= j < i && 0 <= b < 8) || (j == i && 0 <= b < shift) ==> pixels@[#[trigger] pixel_index(
                        j,
                        b,
                    )] == pixel_value(state@.mem, color_scheme, j, b),
            decreases 8 - shift,
        {
            let screen_y = screen_y_base - shift;
            proof {
                lemma_vram_bit(current_byte, shift as u8);
            }
            let bit = (current_byte & (1u8 << (shift as u8))) >> (shift as u8);
            let expanded_pixel_data = color_scheme.get_pixel_color(
                screen_x as u8,
                screen_y as u8,
                bit,
            );
            let index = screen_x + screen_y * SCREEN_WIDTH;
            assert(index == pixel_index(i as int, shift as int));
            assert forall|j: int, b: int|
                ((0 <= j < i && 0 <= b < 8) || (j == i && 0 <= b < shift)) implies pixel_index(j, b)
                != index by {
                if pixel_index(j, b) == index {
                    lemma_pixel_index_injective(j, b, i as int, shift as int);
                }
            }
            pixels.set(index, expanded_pixel_data.value());
            shift += 1;
        }
        i += 1;
    }
    pixels
}

/// Two different bits of the video memory are shown at two different places.
pub proof fn lemma_pixel_index_injective(i: int, b: int, j: int, c: int)
    requires
        0 <= i < 7168,
        0 <= b < 8,
        0 <= j < 7168,
        0 <= c < 8,
        pixel_index(i, b) == pixel_index(j, c),
    ensures
        i == j && b == c,
        0 <= pixel_index(i, b) < 224 * 256,
{
    // a place is a column below 224 and a row, so equal places have equal
    // columns and equal rows
    let (column_i, column_j) = (i / 32, j / 32);
    let (line_i, line_j) = (i % 32 * 8 + b, j % 32 * 8 + c);
    assert(0 <= column_i < 224 && 0 <= column_j < 224);
    assert(0 <= line_i < 256 && 0 <= line_j < 256);
    assert(column_i + (255 - line_i) * 224 == column_j + (255 - line_j) * 224);
    if line_i < line_j {
        assert((255 - line_i) * 224 >= (255 - line_j) * 224 + 224);
    }
    if line_j < line_i {
        assert((255 - line_j) * 224 >= (255 - line_i) * 224 + 224);
    }
    assert(line_i == line_j);
    assert(column_i == column_j);
    // a row is a byte of the memory line and a bit below 8
    if i % 32 < j % 32 {
        assert(j % 32 * 8 >= i % 32 * 8 + 8);
    }
    if j % 32 < i % 32 {
        assert(i % 32 * 8 >= j % 32 * 8 + 8);
    }
    assert(i % 32 == j % 32);
    assert(b == c);
    assert(i == 32 * column_i + i % 32);
    assert(j == 32 * column_j + j % 32);
}

/// Every pixel of the screen shows one bit of the video memory: the pixel in
/// column `x` and row `y` shows bit (255 - y) mod 8 of byte 32 x + (255 - y)
/// div 8.
pub proof fn lemma_pixel_of_screen(x: int, y: int)
    requires
        0 <= x < 224,
        0 <= y < 256,
    ensures
        ({
            let i = 32 * x + (255 - y) / 8;
            let b = (255 - y) % 8;
            &&& 0 <= i < 7168
            &&& 0 <= b < 8
            &&& screen_x(i) == x
            &&& screen_y(i, b) == y
            &&& pixel_index(i, b) == y * 224 + x
        }),
{
    let line = 255 - y;
    let i = 32 * x + line / 8;
    assert(0 <= line / 8 < 32);
    assert(i / 32 == x && i % 32 == line / 8);
    assert(i % 32 * 8 + line % 8 == line);
}

} // verus!
