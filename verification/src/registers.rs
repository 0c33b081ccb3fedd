use vstd::prelude::*;

verus! {

/// Image of the GPIO bank's register block: 17 consecutive 32-bit hardware
/// registers, each a packed vector of single-bit pin fields (bit `n` belongs
/// to pin `n`). The physical block sits at a fixed base address and is
/// accessed through volatile reads and writes by the platform shim; the
/// driver's logic works on this image, one register at a time, because the
/// hardware guarantees per-register atomicity only.
#[derive(Clone, Copy, PartialEq, Eq, Structural, Debug)]
pub struct GpioRegisters {
    /// Pin value (read-only to the driver; driven by the hardware).
    pub value: u32,
    /// Pin input enable.
    pub input_en: u32,
    /// Pin output enable.
    pub output_en: u32,
    /// Output port value.
    pub port: u32,
    /// Internal pull-up enable.
    pub pullup: u32,
    /// Drive strength select.
    pub drive: u32,
    /// Rise interrupt enable.
    pub rise_ie: u32,
    /// Rise interrupt pending.
    pub rise_ip: u32,
    /// Fall interrupt enable.
    pub fall_ie: u32,
    /// Fall interrupt pending.
    pub fall_ip: u32,
    /// High interrupt enable.
    pub high_ie: u32,
    /// High interrupt pending.
    pub high_ip: u32,
    /// Low interrupt enable.
    pub low_ie: u32,
    /// Low interrupt pending.
    pub low_ip: u32,
    /// Hardware I/O function (alternate function) enable.
    pub iof_en: u32,
    /// Hardware I/O function select.
    pub iof_sel: u32,
    /// Output XOR (invert).
    pub out_xor: u32,
}

impl GpioRegisters {
    /// A register image with every bit clear.
    pub fn new() -> (r: GpioRegisters)
        ensures
            r == GpioRegisters::all_clear(),
    {
        GpioRegisters {
            value: 0,
            input_en: 0,
            output_en: 0,
            port: 0,
            pullup: 0,
            drive: 0,
            rise_ie: 0,
            rise_ip: 0,
            fall_ie: 0,
            fall_ip: 0,
            high_ie: 0,
            high_ip: 0,
            low_ie: 0,
            low_ip: 0,
            iof_en: 0,
            iof_sel: 0,
            out_xor: 0,
        }
    }

    /// The image in which all 17 registers read zero.
    pub open spec fn all_clear() -> GpioRegisters {
        GpioRegisters {
            value: 0,
            input_en: 0,
            output_en: 0,
            port: 0,
            pullup: 0,
            drive: 0,
            rise_ie: 0,
            rise_ip: 0,
            fall_ie: 0,
            fall_ip: 0,
            high_ie: 0,
            high_ip: 0,
            low_ie: 0,
            low_ip: 0,
            iof_en: 0,
            iof_sel: 0,
            out_xor: 0,
        }
    }
}

/// Whether bit `n` of register value `v` is set.
pub open spec fn nth_bit(v: u32, n: u32) -> bool {
    v & (1u32 << n) != 0
}

/// Register value `v` with bit `n` set and every other bit unchanged.
pub open spec fn with_bit_set(v: u32, n: u32) -> u32 {
    v | (1u32 << n)
}

/// Register value `v` with bit `n` cleared and every other bit unchanged.
pub open spec fn with_bit_cleared(v: u32, n: u32) -> u32 {
    v & !(1u32 << n)
}

/// Register value `v` with bit `n` flipped and every other bit unchanged:
/// the snapshot-then-conditional-write shape that `toggle` uses.
pub open spec fn with_bit_toggled(v: u32, n: u32) -> u32 {
    if nth_bit(v, n) {
        with_bit_cleared(v, n)
    } else {
        with_bit_set(v, n)
    }
}

/// Setting bit `n` makes bit `n` read as set and leaves every other bit as
/// it was.
pub proof fn lemma_set_bit(v: u32, n: u32, m: u32)
    by (bit_vector)
    requires
        n < 32,
        m < 32,
    ensures
        nth_bit(with_bit_set(v, n), n),
        m != n ==> nth_bit(with_bit_set(v, n), m) == nth_bit(v, m),
{
}

/// Clearing bit `n` makes bit `n` read as clear and leaves every other bit
/// as it was.
pub proof fn lemma_clear_bit(v: u32, n: u32, m: u32)
    by (bit_vector)
    requires
        n < 32,
        m < 32,
    ensures
        !nth_bit(with_bit_cleared(v, n), n),
        m != n ==> nth_bit(with_bit_cleared(v, n), m) == nth_bit(v, m),
{
}

/// Toggling bit `n` inverts bit `n` and leaves every other bit as it was.
pub proof fn lemma_toggle_bit(v: u32, n: u32, m: u32)
    by (bit_vector)
    requires
        n < 32,
        m < 32,
    ensures
        nth_bit(with_bit_toggled(v, n), n) == !nth_bit(v, n),
        m != n ==> nth_bit(with_bit_toggled(v, n), m) == nth_bit(v, m),
{
}

/// Toggling the same bit twice in succession restores the register value
/// exactly.
pub proof fn lemma_toggle_twice(v: u32, n: u32)
    by (bit_vector)
    requires
        n < 32,
    ensures
        with_bit_toggled(with_bit_toggled(v, n), n) == v,
{
}

} // verus!
