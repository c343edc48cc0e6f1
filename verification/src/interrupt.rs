//! The interrupt and timer controller: interrupt flags, the divider and
//! timer registers, and the joypad.

use vstd::prelude::*;
use crate::bits::bit_set;

verus! {

/// The five interrupt sources, in priority order.
#[derive(Debug, Clone, Copy, PartialEq, Eq, Structural)]
pub enum IntKind {
    VBlank,
    LcdStat,
    Timer,
    Serial,
    Joypad,
}

impl IntKind {
    /// The bit of `IE` and `IF` that stands for the source.
    pub open spec fn position(self) -> u8 {
        match self {
            IntKind::VBlank => 0,
            IntKind::LcdStat => 1,
            IntKind::Timer => 2,
            IntKind::Serial => 3,
            IntKind::Joypad => 4,
        }
    }

    /// The address that the CPU jumps to when it services the source.
    pub open spec fn vector(self) -> u16 {
        match self {
            IntKind::VBlank => 0x40,
            IntKind::LcdStat => 0x48,
            IntKind::Timer => 0x50,
            IntKind::Serial => 0x58,
            IntKind::Joypad => 0x60,
        }
    }

    pub fn bit(self) -> (bit: u8)
        ensures
            bit == self.position(),
    {
        match self {
            IntKind::VBlank => 0,
            IntKind::LcdStat => 1,
            IntKind::Timer => 2,
            IntKind::Serial => 3,
            IntKind::Joypad => 4,
        }
    }

    pub fn handler_address(self) -> (addr: u16)
        ensures
            addr == self.vector(),
    {
        match self {
            IntKind::VBlank => 0x40,
            IntKind::LcdStat => 0x48,
            IntKind::Timer => 0x50,
            IntKind::Serial => 0x58,
            IntKind::Joypad => 0x60,
        }
    }
}

/// The eight buttons.
#[derive(Debug, Clone, Copy, PartialEq, Eq, Hash, Structural)]
pub enum Keys {
    Up,
    Down,
    Left,
    Right,
    A,
    B,
    Start,
    Select,
}

/// Which buttons are held down.
#[derive(Debug, Clone, Copy, PartialEq, Eq, Structural)]
pub struct KeyStates {
    pub up: bool,
    pub down: bool,
    pub left: bool,
    pub right: bool,
    pub a: bool,
    pub b: bool,
    pub start: bool,
    pub select: bool,
}

impl KeyStates {
    pub open spec fn released() -> KeyStates {
        KeyStates {
            up: false,
            down: false,
            left: false,
            right: false,
            a: false,
            b: false,
            start: false,
            select: false,
        }
    }

    pub open spec fn pressed(self, key: Keys) -> bool {
        match key {
            Keys::Up => self.up,
            Keys::Down => self.down,
            Keys::Left => self.left,
            Keys::Right => self.right,
            Keys::A => self.a,
            Keys::B => self.b,
            Keys::Start => self.start,
            Keys::Select => self.select,
        }
    }

    pub open spec fn with(self, key: Keys, pressed: bool) -> KeyStates {
        match key {
            Keys::Up => KeyStates { up: pressed, ..self },
            Keys::Down => KeyStates { down: pressed, ..self },
            Keys::Left => KeyStates { left: pressed, ..self },
            Keys::Right => KeyStates { right: pressed, ..self },
            Keys::A => KeyStates { a: pressed, ..self },
            Keys::B => KeyStates { b: pressed, ..self },
            Keys::Start => KeyStates { start: pressed, ..self },
            Keys::Select => KeyStates { select: pressed, ..self },
        }
    }
}

/// How many increments of `TIMA` are left to apply, and what they give.
pub struct TimerCount {
    pub counter: u8,
    pub overflowed: bool,
}

/// `TIMA` after `increments` increments: an increment of 0xFF reloads the
/// counter from `modulo` and records the overflow.
pub open spec fn timer_after(counter: u8, modulo: u8, increments: nat) -> TimerCount
    decreases increments,
{
    if increments == 0 {
        TimerCount { counter, overflowed: false }
    } else if counter == 0xFF {
        TimerCount {
            counter: timer_after(modulo, modulo, (increments - 1) as nat).counter,
            overflowed: true,
        }
    } else {
        timer_after((counter + 1) as u8, modulo, (increments - 1) as nat)
    }
}

/// The state of the controller.
#[derive(Debug, Clone, Copy, PartialEq, Eq, Structural)]
pub struct InterruptController {
    pub master_enable: bool,
    /// `IE`, as last written.
    pub interrupt_enable: u8,
    /// `IF`, as last written or raised.
    pub interrupt_flag: u8,
    /// `DIV`.
    pub divider_register: u8,
    /// T-cycles counted towards the next increment of `DIV`.
    pub divider_counter: u32,
    /// `TIMA`.
    pub timer_counter: u8,
    /// `TMA`.
    pub timer_modulo: u8,
    /// T-cycles counted towards the next increment of `TIMA`.
    pub timer_sub_counter: u32,
    /// `TAC`.
    pub timer_control: u8,
    /// Set by a VBlank interrupt; the host clears it once it has redrawn.
    pub should_redraw: bool,
    /// Set by every raised interrupt until the CPU has seen it.
    pub new_int_waiting: bool,
    pub keys_state: KeyStates,
    pub select_buttons: bool,
    pub select_directions: bool,
}

impl InterruptController {
    /// The controller at power-on: nothing enabled, the three unused bits
    /// of `IF` set.
    pub open spec fn initial() -> InterruptController {
        InterruptController {
            master_enable: false,
            interrupt_enable: 0,
            interrupt_flag: 0xE0,
            divider_register: 0,
            divider_counter: 0,
            timer_counter: 0,
            timer_modulo: 0,
            timer_sub_counter: 0,
            timer_control: 0,
            should_redraw: false,
            new_int_waiting: false,
            keys_state: KeyStates::released(),
            select_buttons: false,
            select_directions: false,
        }
    }

    /// Whether the two cycle counters are below the largest period that
    /// they count to. It is so at power-on and after every step.
    pub open spec fn well_formed(self) -> bool {
        self.divider_counter < 256 && self.timer_sub_counter < 1024
    }

    /// Whether `TAC` has the timer running.
    pub open spec fn timer_enabled(self) -> bool {
        bit_set(self.timer_control, 2)
    }

    /// The number of T-cycles per increment of `TIMA` that `TAC` selects.
    pub open spec fn timer_period(self) -> int {
        match self.timer_control % 4 {
            0 => 1024,
            1 => 16,
            2 => 64,
            _ => 256,
        }
    }

    /// How many whole timer periods `cycles` T-cycles hold.
    pub open spec fn whole_periods(self, cycles: int) -> int {
        match self.timer_control % 4 {
            0 => cycles / 1024,
            1 => cycles / 16,
            2 => cycles / 64,
            _ => cycles / 256,
        }
    }

    /// How many of `cycles` T-cycles are left after the whole timer
    /// periods.
    pub open spec fn partial_period(self, cycles: int) -> int {
        match self.timer_control % 4 {
            0 => cycles % 1024,
            1 => cycles % 16,
            2 => cycles % 64,
            _ => cycles % 256,
        }
    }

    /// Whether `kind` is both enabled in `IE` and raised in `IF`.
    pub open spec fn requested(self, kind: IntKind) -> bool {
        bit_set(self.interrupt_enable, kind.position()) && bit_set(
            self.interrupt_flag,
            kind.position(),
        )
    }

    /// The interrupt that the CPU would service now: the first requested
    /// one in priority order, if interrupts are enabled at all.
    pub open spec fn pending(self) -> Option<IntKind> {
        if !self.master_enable {
            None
        } else if self.requested(IntKind::VBlank) {
            Some(IntKind::VBlank)
        } else if self.requested(IntKind::LcdStat) {
            Some(IntKind::LcdStat)
        } else if self.requested(IntKind::Timer) {
            Some(IntKind::Timer)
        } else if self.requested(IntKind::Serial) {
            Some(IntKind::Serial)
        } else if self.requested(IntKind::Joypad) {
            Some(IntKind::Joypad)
        } else {
            None
        }
    }

    /// The controller with `kind` raised in `IF`.
    pub open spec fn raise(self, kind: IntKind) -> InterruptController {
        InterruptController {
            interrupt_flag: crate::bits::raised(self.interrupt_flag, kind.position()),
            new_int_waiting: true,
            should_redraw: self.should_redraw || kind == IntKind::VBlank,
            ..self
        }
    }

    /// The controller with `kind` cleared in `IF` and interrupts disabled:
    /// what servicing `kind` leaves.
    pub open spec fn acknowledge(self, kind: IntKind) -> InterruptController {
        InterruptController {
            interrupt_flag: crate::bits::lowered(self.interrupt_flag, kind.position()),
            master_enable: false,
            ..self
        }
    }

    /// The controller with `DIV` run for `ticks` T-cycles: it goes up once
    /// per 256 T-cycles.
    pub open spec fn divided(self, ticks: u32) -> InterruptController {
        let total = self.divider_counter + ticks;
        InterruptController {
            divider_register: ((self.divider_register + total / 256) % 256) as u8,
            divider_counter: (total % 256) as u32,
            ..self
        }
    }

    /// The controller with `TIMA` run for `ticks` T-cycles. While the
    /// timer runs, `TIMA` goes up once per period; an overflow reloads it
    /// from `TMA` and raises the timer interrupt. While the timer is
    /// stopped, `TIMA` and its sub-counter are held at zero.
    pub open spec fn timed(self, ticks: u32) -> InterruptController {
        if self.timer_enabled() {
            let total = self.timer_sub_counter + ticks;
            let count = timer_after(
                self.timer_counter,
                self.timer_modulo,
                self.whole_periods(total) as nat,
            );
            let counted = InterruptController {
                timer_counter: count.counter,
                timer_sub_counter: self.partial_period(total) as u32,
                ..self
            };
            if count.overflowed {
                counted.raise(IntKind::Timer)
            } else {
                counted
            }
        } else {
            InterruptController { timer_counter: 0, timer_sub_counter: 0, ..self }
        }
    }

    /// The controller `ticks` T-cycles later: the divider has run, then
    /// the timer.
    pub open spec fn advance(self, ticks: u32) -> InterruptController {
        self.divided(ticks).timed(ticks)
    }

    /// The byte read from the joypad register: a 0 bit is a selected line
    /// or a pressed key of a selected line. Bits 7 and 6 read as 1.
    pub open spec fn joypad_byte(self) -> u8 {
        let k = self.keys_state;
        let d = self.select_directions;
        let b = self.select_buttons;
        (255 - (if b { 32int } else { 0 }) - (if d { 16int } else { 0 }) - (if (d && k.down) || (b
            && k.start) { 8int } else { 0 }) - (if (d && k.up) || (b && k.select) { 4int } else { 0 })
            - (if (d && k.left) || (b && k.b) { 2int } else { 0 }) - (if (d && k.right) || (b
            && k.a) { 1int } else { 0 })) as u8
    }

    pub fn new() -> (itc: InterruptController)
        ensures
            itc == InterruptController::initial(),
            itc.well_formed(),
    {
        InterruptController {
            master_enable: false,
            interrupt_enable: 0,
            interrupt_flag: 0xE0,
            divider_register: 0,
            divider_counter: 0,
            timer_counter: 0,
            timer_modulo: 0,
            timer_sub_counter: 0,
            timer_control: 0,
            should_redraw: false,
            new_int_waiting: false,
            keys_state: KeyStates {
                up: false,
                down: false,
                left: false,
                right: false,
                a: false,
                b: false,
                start: false,
                select: false,
            },
            select_buttons: false,
            select_directions: false,
        }
    }

    /// Lets `ticks` T-cycles pass.
    pub fn timer_step(&mut self, ticks: u32)
        ensures
            *final(self) == old(self).advance(ticks),
            final(self).well_formed(),
    {
        self.divider_step(ticks);
        if self.is_timer_enabled() {
            self.counter_step(ticks);
        } else {
            self.timer_counter = 0;
            self.timer_sub_counter = 0;
        }
    }

    /// Runs the divider for `ticks` T-cycles.
    fn divider_step(&mut self, ticks: u32)
        ensures
            *final(self) == old(self).divided(ticks),
    {
        let total: u64 = self.divider_counter as u64 + ticks as u64;
        let register: u64 = (self.divider_register as u64 + total / 256) % 256;
        self.divider_register = register as u8;
        self.divider_counter = (total % 256) as u32;
    }

    /// Runs the enabled timer for `ticks` T-cycles.
    fn counter_step(&mut self, ticks: u32)
        requires
            old(self).timer_enabled(),
        ensures
            *final(self) == old(self).timed(ticks),
    {
        let total: u64 = self.timer_sub_counter as u64 + ticks as u64;
        let divider: u32 = self.timer_divider();
        let (increments, rest): (u64, u64) = if divider == 1024 {
            (total / 1024, total % 1024)
        } else if divider == 16 {
            (total / 16, total % 16)
        } else if divider == 64 {
            (total / 64, total % 64)
        } else {
            (total / 256, total % 256)
        };
        let count = count_timer(self.timer_counter, self.timer_modulo, increments);
        self.timer_counter = count.counter;
        self.timer_sub_counter = rest as u32;
        if count.overflowed {
            self.trigger(IntKind::Timer);
        }
    }

    fn timer_divider(&self) -> (period: u32)
        ensures
            period == self.timer_period(),
            period == 1024 || period == 16 || period == 64 || period == 256,
    {
        let control: u8 = self.timer_control % 4;
        if control == 0 {
            1024
        } else if control == 1 {
            16
        } else if control == 2 {
            64
        } else {
            256
        }
    }

    fn is_timer_enabled(&self) -> (enabled: bool)
        ensures
            enabled == self.timer_enabled(),
    {
        crate::bits::test_bit(self.timer_control, 2)
    }

    /// Raises `kind` in `IF`.
    pub fn trigger(&mut self, kind: IntKind)
        ensures
            *final(self) == old(self).raise(kind),
            final(self).well_formed() == old(self).well_formed(),
    {
        self.interrupt_flag = crate::bits::raise_bit(self.interrupt_flag, kind.bit());
        self.new_int_waiting = true;
        if kind == IntKind::VBlank {
            self.should_redraw = true;
        }
    }

    pub fn trigger_vblank_int(&mut self)
        ensures
            *final(self) == old(self).raise(IntKind::VBlank),
    {
        self.trigger(IntKind::VBlank);
    }

    pub fn trigger_timer_int(&mut self)
        ensures
            *final(self) == old(self).raise(IntKind::Timer),
    {
        self.trigger(IntKind::Timer);
    }

    pub fn trigger_lcd_stat_int(&mut self)
        ensures
            *final(self) == old(self).raise(IntKind::LcdStat),
    {
        self.trigger(IntKind::LcdStat);
    }

    /// Tells whether an interrupt was raised since the last call, and
    /// forgets it.
    pub fn handle_new_interrupt(&mut self) -> (raised: bool)
        ensures
            raised == old(self).new_int_waiting,
            *final(self) == (InterruptController { new_int_waiting: false, ..*old(self) }),
    {
        let res = self.new_int_waiting;
        self.new_int_waiting = false;
        res
    }

    /// The interrupt to service now, if any.
    pub fn is_interrupt_waiting(&self) -> (kind: Option<IntKind>)
        ensures
            kind == self.pending(),
    {
        if !self.master_enable {
            return None;
        }
        if self.is_requested(IntKind::VBlank) {
            Some(IntKind::VBlank)
        } else if self.is_requested(IntKind::LcdStat) {
            Some(IntKind::LcdStat)
        } else if self.is_requested(IntKind::Timer) {
            Some(IntKind::Timer)
        } else if self.is_requested(IntKind::Serial) {
            Some(IntKind::Serial)
        } else if self.is_requested(IntKind::Joypad) {
            Some(IntKind::Joypad)
        } else {
            None
        }
    }

    fn is_requested(&self, kind: IntKind) -> (requested: bool)
        ensures
            requested == self.requested(kind),
    {
        let bit = kind.bit();
        crate::bits::test_bit(self.interrupt_enable, bit) && crate::bits::test_bit(
            self.interrupt_flag,
            bit,
        )
    }

    /// Clears `kind` in `IF` and disables interrupts.
    pub fn acknowledge_interrupt(&mut self, kind: IntKind)
        ensures
            *final(self) == old(self).acknowledge(kind),
    {
        self.interrupt_flag = crate::bits::lower_bit(self.interrupt_flag, kind.bit());
        self.master_enable = false;
    }

    /// Records that `key` went down or up.
    pub fn change_key_state(&mut self, key: Keys, pressed: bool)
        ensures
            *final(self) == (InterruptController {
                keys_state: old(self).keys_state.with(key, pressed),
                ..*old(self)
            }),
    {
        let keys = self.keys_state;
        self.keys_state = match key {
            Keys::Up => KeyStates { up: pressed, ..keys },
            Keys::Down => KeyStates { down: pressed, ..keys },
            Keys::Left => KeyStates { left: pressed, ..keys },
            Keys::Right => KeyStates { right: pressed, ..keys },
            Keys::A => KeyStates { a: pressed, ..keys },
            Keys::B => KeyStates { b: pressed, ..keys },
            Keys::Start => KeyStates { start: pressed, ..keys },
            Keys::Select => KeyStates { select: pressed, ..keys },
        };
    }

    /// A write to the joypad register: a line is selected by a 0 in bit 5
    /// (buttons) or bit 4 (directions).
    pub fn write_joypad_reg(&mut self, reg_value: u8)
        ensures
            *final(self) == (InterruptController {
                select_directions: !bit_set(reg_value, 4),
                select_buttons: !bit_set(reg_value, 5),
                ..*old(self)
            }),
    {
        self.select_directions = !crate::bits::test_bit(reg_value, 4);
        self.select_buttons = !crate::bits::test_bit(reg_value, 5);
    }

    /// A read of the joypad register.
    pub fn read_joypad_reg(&self) -> (byte: u8)
        ensures
            byte == self.joypad_byte(),
    {
        let mut flags: u8 = 0;
        let mut down: bool = false;
        let mut up: bool = false;
        let mut left: bool = false;
        let mut right: bool = false;

        if self.select_directions {
            flags = flags + 16;
            down = down || self.keys_state.down;
            up = up || self.keys_state.up;
            left = left || self.keys_state.left;
            right = right || self.keys_state.right;
        }
        if self.select_buttons {
            flags = flags + 32;
            down = down || self.keys_state.start;
            up = up || self.keys_state.select;
            left = left || self.keys_state.b;
            right = right || self.keys_state.a;
        }
        if down {
            flags = flags + 8;
        }
        if up {
            flags = flags + 4;
        }
        if left {
            flags = flags + 2;
        }
        if right {
            flags = flags + 1;
        }
        0xFF - flags
    }
}

/// Applies `increments` increments to `TIMA`.
fn count_timer(counter: u8, modulo: u8, increments: u64) -> (count: TimerCount)
    ensures
        count == timer_after(counter, modulo, increments as nat),
{
    let ghost goal = timer_after(counter, modulo, increments as nat);
    let mut left: u64 = increments;
    let mut current: u8 = counter;
    let mut overflowed: bool = false;
    while left > 0
        invariant
            timer_after(current, modulo, left as nat).counter == goal.counter,
            (overflowed || timer_after(current, modulo, left as nat).overflowed)
                == goal.overflowed,
        decreases left,
    {
        if current == 0xFF {
            current = modulo;
            overflowed = true;
        } else {
            current = current + 1;
        }
        left = left - 1;
    }
    TimerCount { counter: current, overflowed }
}

} // verus!
