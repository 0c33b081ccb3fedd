use vstd::prelude::*;

verus! {

use crate::registers::GpioRegisters;
use crate::registers::nth_bit;
use crate::registers::with_bit_set;
use crate::registers::with_bit_cleared;
use crate::registers::with_bit_toggled;
use crate::registers::lemma_set_bit;
use crate::registers::lemma_clear_bit;
use crate::registers::lemma_toggle_bit;
use crate::registers::lemma_toggle_twice;

/// Pull-resistor configuration requested through `set_input_mode`.
#[derive(Clone, Copy, PartialEq, Eq, Structural, Debug)]
pub enum InputMode {
    PullUp,
    PullDown,
    PullNone,
}

/// Edge selection requested through `enable_interrupt`.
#[derive(Clone, Copy, PartialEq, Eq, Structural, Debug)]
pub enum InterruptMode {
    EitherEdge,
    RisingEdge,
    FallingEdge,
}

/// Opaque handle naming a registered event client. The client object itself
/// belongs to the surrounding hardware-abstraction layer and outlives the
/// pin; the driver only records which client, if any, is to be notified with
/// the stored data word once the interrupt path is completed.
#[derive(Clone, Copy, PartialEq, Eq, Structural, Debug)]
pub struct ClientHandle(pub usize);

/// The register image after `set_input_mode(mode)` on pin `n`: pull-up
/// enable set for `PullUp`, cleared for `PullDown` and `PullNone` (the
/// hardware has no independent pull-down register, so the latter two act
/// identically), every other register untouched.
pub open spec fn after_input_mode(regs: GpioRegisters, n: u32, mode: InputMode) -> GpioRegisters {
    match mode {
        InputMode::PullUp => GpioRegisters { pullup: with_bit_set(regs.pullup, n), ..regs },
        InputMode::PullDown => GpioRegisters { pullup: with_bit_cleared(regs.pullup, n), ..regs },
        InputMode::PullNone => GpioRegisters { pullup: with_bit_cleared(regs.pullup, n), ..regs },
    }
}

/// The register image after `make_output` on pin `n`: drive-strength select
/// cleared, output invert cleared, output enable set, alternate-function
/// enable cleared, every other register untouched.
pub open spec fn after_make_output(regs: GpioRegisters, n: u32) -> GpioRegisters {
    GpioRegisters {
        drive: with_bit_cleared(regs.drive, n),
        out_xor: with_bit_cleared(regs.out_xor, n),
        output_en: with_bit_set(regs.output_en, n),
        iof_en: with_bit_cleared(regs.iof_en, n),
        ..regs
    }
}

/// The register image after `make_input` on pin `n`: pull-up cleared, input
/// enable set, alternate-function enable cleared, every other register
/// untouched.
pub open spec fn after_make_input(regs: GpioRegisters, n: u32) -> GpioRegisters {
    GpioRegisters {
        pullup: with_bit_cleared(regs.pullup, n),
        input_en: with_bit_set(regs.input_en, n),
        iof_en: with_bit_cleared(regs.iof_en, n),
        ..regs
    }
}

/// The register image after `set` on pin `n`: the pin's bit of the output
/// port register set, everything else untouched.
pub open spec fn after_set(regs: GpioRegisters, n: u32) -> GpioRegisters {
    GpioRegisters { port: with_bit_set(regs.port, n), ..regs }
}

/// The register image after `clear` on pin `n`: the pin's bit of the output
/// port register cleared, everything else untouched.
pub open spec fn after_clear(regs: GpioRegisters, n: u32) -> GpioRegisters {
    GpioRegisters { port: with_bit_cleared(regs.port, n), ..regs }
}

/// The register image after `toggle` on pin `n`: the pin's bit of the output
/// port register flipped, everything else untouched.
pub open spec fn after_toggle(regs: GpioRegisters, n: u32) -> GpioRegisters {
    GpioRegisters { port: with_bit_toggled(regs.port, n), ..regs }
}

/// One of the bank's 32 digital I/O lines: its bit position and the
/// precomputed this-bit-set and this-bit-clear write masks used by every
/// modify operation, together with the event-client slot.
pub struct GpioPin {
    index: u32,
    set_mask: u32,
    clear_mask: u32,
    client_data: usize,
    client: Option<ClientHandle>,
}

impl GpioPin {
    /// The pin's bit position, 0 to 31.
    pub closed spec fn pin_index(self) -> u32 {
        self.index
    }

    /// The registered event client, if any.
    pub closed spec fn spec_client(self) -> Option<ClientHandle> {
        self.client
    }

    /// The stored client data word.
    pub closed spec fn spec_client_data(self) -> usize {
        self.client_data
    }

    /// The pin is bound to a real bit position and its write masks match it.
    pub closed spec fn wf(self) -> bool {
        &&& self.index < 32
        &&& self.set_mask == 1u32 << self.index
        &&& self.clear_mask == !(1u32 << self.index)
    }

    /// A pin bound to bit position `index`, with its masks precomputed and
    /// no client registered.
    pub fn new(index: u32) -> (pin: GpioPin)
        requires
            index < 32,
        ensures
            pin.wf(),
            pin.pin_index() == index,
            pin.spec_client() is None,
            pin.spec_client_data() == 0,
    {
        let mask: u32 = 1u32 << index;
        GpioPin {
            index,
            set_mask: mask,
            clear_mask: !mask,
            client_data: 0,
            client: None,
        }
    }

    /// Registers the event client to notify when an interrupt fires. The
    /// register block is untouched.
    pub fn set_client(&mut self, client: ClientHandle)
        requires
            old(self).wf(),
        ensures
            final(self).wf(),
            final(self).pin_index() == old(self).pin_index(),
            final(self).spec_client() == Some(client),
            final(self).spec_client_data() == old(self).spec_client_data(),
    {
        self.client = Some(client);
    }

    /// Configures the pull resistor: `PullUp` sets the pull-up enable bit,
    /// `PullDown` and `PullNone` both clear it. Exactly one register is
    /// modified.
    pub fn set_input_mode(&self, regs: &mut GpioRegisters, mode: InputMode)
        requires
            self.wf(),
        ensures
            *final(regs) == after_input_mode(*old(regs), self.pin_index(), mode),
    {
        match mode {
            InputMode::PullUp => {
                regs.pullup = regs.pullup | self.set_mask;
            },
            InputMode::PullDown => {
                regs.pullup = regs.pullup & self.clear_mask;
            },
            InputMode::PullNone => {
                regs.pullup = regs.pullup & self.clear_mask;
            },
        }
    }

    /// Placeholder for future power-down behaviour: alters nothing and
    /// cannot fault.
    pub fn disable(&self) {
    }

    /// Puts the pin in output mode by four independent single-bit modifies,
    /// in order: clear drive-strength select, clear output invert, set
    /// output enable, clear alternate-function enable. All four are written
    /// unconditionally, whatever the prior mode.
    pub fn make_output(&self, regs: &mut GpioRegisters)
        requires
            self.wf(),
        ensures
            *final(regs) == after_make_output(*old(regs), self.pin_index()),
    {
        regs.drive = regs.drive & self.clear_mask;
        regs.out_xor = regs.out_xor & self.clear_mask;
        regs.output_en = regs.output_en | self.set_mask;
        regs.iof_en = regs.iof_en & self.clear_mask;
    }

    /// Puts the pin in input mode by three single-bit modifies: clear
    /// pull-up, set input enable, clear alternate-function enable.
    pub fn make_input(&self, regs: &mut GpioRegisters)
        requires
            self.wf(),
        ensures
            *final(regs) == after_make_input(*old(regs), self.pin_index()),
    {
        regs.pullup = regs.pullup & self.clear_mask;
        regs.input_en = regs.input_en | self.set_mask;
        regs.iof_en = regs.iof_en & self.clear_mask;
    }

    /// Reads the pin's current logic level: one read of the value register,
    /// testing this pin's bit. No side effect.
    pub fn read(&self, regs: &GpioRegisters) -> (level: bool)
        requires
            self.wf(),
        ensures
            level == nth_bit(regs.value, self.pin_index()),
    {
        regs.value & (1u32 << self.index) != 0
    }

    /// Drives the pin's output high: sets this pin's bit of the output port
    /// register.
    pub fn set(&self, regs: &mut GpioRegisters)
        requires
            self.wf(),
        ensures
            *final(regs) == after_set(*old(regs), self.pin_index()),
    {
        regs.port = regs.port | self.set_mask;
    }

    /// Drives the pin's output low: clears this pin's bit of the output port
    /// register.
    pub fn clear(&self, regs: &mut GpioRegisters)
        requires
            self.wf(),
        ensures
            *final(regs) == after_clear(*old(regs), self.pin_index()),
    {
        regs.port = regs.port & self.clear_mask;
    }

    /// Flips the pin's output by the two-step, single-read protocol: take
    /// one snapshot of the output port register, test this pin's bit in the
    /// snapshot, then write the snapshot back with this bit cleared or set.
    /// One coherent read decides the write, and only this pin's bit of the
    /// snapshot is changed.
    pub fn toggle(&self, regs: &mut GpioRegisters)
        requires
            self.wf(),
        ensures
            *final(regs) == after_toggle(*old(regs), self.pin_index()),
    {
        let snapshot: u32 = regs.port;
        if snapshot & (1u32 << self.index) != 0 {
            regs.port = snapshot & self.clear_mask;
        } else {
            regs.port = snapshot | self.set_mask;
        }
    }

    /// Interrupt delivery is not implemented yet: the expected behaviour
    /// (store the data word, program the edge/level enable registers for
    /// `mode`) is left to the interrupt-controller collaborator, and this
    /// call alters nothing.
    pub fn enable_interrupt(&self, client_data: usize, mode: InterruptMode) {
        let _ = client_data;
        let _ = mode;
    }

    /// Counterpart of `enable_interrupt`; equally unimplemented, alters
    /// nothing.
    pub fn disable_interrupt(&self) {
    }
}

/// The bank's 32 pins as one indexable collection, pin `n` bound to bit
/// position `n`. A single `Port` owns its pins for the life of the system.
pub struct Port {
    pins: Vec<GpioPin>,
}

impl Port {
    /// The pins in index order.
    pub closed spec fn spec_pins(self) -> Seq<GpioPin> {
        self.pins@
    }

    /// There are exactly 32 pins and pin `i` is well formed and bound to bit
    /// position `i`.
    pub open spec fn wf(self) -> bool {
        &&& self.spec_pins().len() == 32
        &&& forall|i: int|
            0 <= i < 32 ==> (#[trigger] self.spec_pins()[i]).wf() && self.spec_pins()[i].pin_index() == i
    }

    /// The port with its 32 pins freshly constructed, none with a client
    /// registered.
    pub fn new() -> (port: Port)
        ensures
            port.wf(),
            forall|i: int|
                0 <= i < 32 ==> (#[trigger] port.spec_pins()[i]).spec_client() is None
                    && port.spec_pins()[i].spec_client_data() == 0,
    {
        let mut pins: Vec<GpioPin> = Vec::new();
        let mut n: usize = 0;
        while n < 32
            invariant
                n <= 32,
                pins@.len() == n,
                forall|i: int|
                    0 <= i < n ==> (#[trigger] pins@[i]).wf() && pins@[i].pin_index() == i
                        && pins@[i].spec_client() is None && pins@[i].spec_client_data() == 0,
            decreases 32 - n,
        {
            pins.push(GpioPin::new(n as u32));
            n += 1;
        }
        Port { pins }
    }

    /// Array-style access to pin `index`. Indexing at 32 or above is a
    /// bounds violation, not a wrap-around: it is ruled out here and fails
    /// loudly at the underlying array when reached from unverified code.
    pub fn index(&self, index: usize) -> (pin: &GpioPin)
        requires
            self.wf(),
            index < 32,
        ensures
            *pin == self.spec_pins()[index as int],
            pin.wf(),
            pin.pin_index() == index,
    {
        &self.pins[index]
    }

    /// Mutable array-style access to pin `index`, under the same bound.
    pub fn index_mut(&mut self, index: usize) -> (pin: &mut GpioPin)
        requires
            old(self).wf(),
            index < 32,
        ensures
            *pin == old(self).spec_pins()[index as int],
            pin.wf(),
            pin.pin_index() == index,
            final(self).spec_pins() == old(self).spec_pins().update(index as int, *final(pin)),
    {
        &mut self.pins[index]
    }

    /// Bounds-checked access: `Some` exactly for the real pin indices 0 to
    /// 31, `None` for 32 and above, never a silent alias of another pin.
    pub fn get(&self, index: usize) -> (pin: Option<&GpioPin>)
        requires
            self.wf(),
        ensures
            index < 32 ==> (pin matches Some(p) && *p == self.spec_pins()[index as int]
                && p.wf() && p.pin_index() == index),
            index >= 32 ==> pin is None,
    {
        if index < 32 {
            Some(&self.pins[index])
        } else {
            None
        }
    }
}

/// After `make_output` on pin `n`, the output-enable bit for `n` is set and
/// the alternate-function-enable bit for `n` is clear, while in every one of
/// the four registers the operation touches no other pin's bit changes (the
/// remaining thirteen registers are unchanged by definition of
/// `after_make_output`).
pub proof fn lemma_make_output_bits(regs: GpioRegisters, n: u32, m: u32)
    requires
        n < 32,
        m < 32,
    ensures
        nth_bit(after_make_output(regs, n).output_en, n),
        !nth_bit(after_make_output(regs, n).iof_en, n),
        !nth_bit(after_make_output(regs, n).drive, n),
        !nth_bit(after_make_output(regs, n).out_xor, n),
        m != n ==> nth_bit(after_make_output(regs, n).output_en, m) == nth_bit(regs.output_en, m),
        m != n ==> nth_bit(after_make_output(regs, n).iof_en, m) == nth_bit(regs.iof_en, m),
        m != n ==> nth_bit(after_make_output(regs, n).drive, m) == nth_bit(regs.drive, m),
        m != n ==> nth_bit(after_make_output(regs, n).out_xor, m) == nth_bit(regs.out_xor, m),
{
    lemma_set_bit(regs.output_en, n, m);
    lemma_clear_bit(regs.iof_en, n, m);
    lemma_clear_bit(regs.drive, n, m);
    lemma_clear_bit(regs.out_xor, n, m);
}

/// After `make_input` on pin `n`, the input-enable bit for `n` is set while
/// the pull-up and alternate-function-enable bits for `n` are clear, and no
/// other pin's bit changes in any of the three registers touched.
pub proof fn lemma_make_input_bits(regs: GpioRegisters, n: u32, m: u32)
    requires
        n < 32,
        m < 32,
    ensures
        nth_bit(after_make_input(regs, n).input_en, n),
        !nth_bit(after_make_input(regs, n).pullup, n),
        !nth_bit(after_make_input(regs, n).iof_en, n),
        m != n ==> nth_bit(after_make_input(regs, n).input_en, m) == nth_bit(regs.input_en, m),
        m != n ==> nth_bit(after_make_input(regs, n).pullup, m) == nth_bit(regs.pullup, m),
        m != n ==> nth_bit(after_make_input(regs, n).iof_en, m) == nth_bit(regs.iof_en, m),
{
    lemma_set_bit(regs.input_en, n, m);
    lemma_clear_bit(regs.pullup, n, m);
    lemma_clear_bit(regs.iof_en, n, m);
}

/// Round trip through a pin wired to reflect its own output: `read` returns
/// the pin's bit of the value register, so on a bank whose value register
/// mirrors the port register, `set` then `read` yields true and `clear`
/// then `read` yields false; neither write moves any other pin's port bit.
pub proof fn lemma_set_clear_readback(regs: GpioRegisters, n: u32, m: u32)
    requires
        n < 32,
        m < 32,
    ensures
        nth_bit(after_set(regs, n).port, n),
        !nth_bit(after_clear(regs, n).port, n),
        m != n ==> nth_bit(after_set(regs, n).port, m) == nth_bit(regs.port, m),
        m != n ==> nth_bit(after_clear(regs, n).port, m) == nth_bit(regs.port, m),
{
    lemma_set_bit(regs.port, n, m);
    lemma_clear_bit(regs.port, n, m);
}

/// Toggling a pin twice in succession restores the whole register image
/// exactly.
pub proof fn lemma_toggle_twice_restores(regs: GpioRegisters, n: u32)
    requires
        n < 32,
    ensures
        after_toggle(after_toggle(regs, n), n) == regs,
{
    lemma_toggle_twice(regs.port, n);
}

/// Between a pin's two toggles another agent may rewrite other pins' bits of
/// the port register; as long as this pin's bit is left alone in between,
/// the second toggle still returns this pin's bit to its starting level, and
/// each toggle touches no port bit but its own.
pub proof fn lemma_toggle_parity_under_interference(
    regs: GpioRegisters,
    mid: GpioRegisters,
    n: u32,
    m: u32,
)
    requires
        n < 32,
        m < 32,
        nth_bit(mid.port, n) == nth_bit(after_toggle(regs, n).port, n),
    ensures
        nth_bit(after_toggle(mid, n).port, n) == nth_bit(regs.port, n),
        m != n ==> nth_bit(after_toggle(mid, n).port, m) == nth_bit(mid.port, m),
{
    lemma_toggle_bit(regs.port, n, m);
    lemma_toggle_bit(mid.port, n, m);
}

/// `set_input_mode(PullDown)` and `set_input_mode(PullNone)` produce
/// identical register states: the hardware has no independent pull-down
/// register, so both clear the pull-up enable bit (a documented quirk, not
/// a fault to repair).
pub proof fn lemma_pull_down_matches_pull_none(regs: GpioRegisters, n: u32)
    ensures
        after_input_mode(regs, n, InputMode::PullDown) == after_input_mode(
            regs,
            n,
            InputMode::PullNone,
        ),
{
}

} // verus!
