//! The GPIO controller driver: pin function selection, pull resistors, and
//! level set/clear, as read-modify-write operations on packed register
//! fields.

use vstd::prelude::*;

use crate::map::GPIO_START;
use crate::mmio::{read, MmioBank};
use crate::sync::NullLock;

verus! {

/// Registers in the GPIO window: function select through the pull-up/down
/// block.
pub const GPIO_NUM_REGS: usize = 61;

/// What a pin is wired to.
#[derive(Clone, Copy, Debug, PartialEq, Eq, Structural)]
pub enum Function {
    Output,
    Alt0,
    Alt1,
    Alt2,
    Alt3,
    Alt4,
    Alt5,
}

/// The pull resistor attached to a pin.
#[derive(Clone, Copy, Debug, PartialEq, Eq, Structural)]
pub enum Resistor {
    NoPull,
    Up,
    Down,
}

pub open spec fn spec_function_bits(f: Function) -> u32 {
    match f {
        Function::Output => 0b001,
        Function::Alt0 => 0b100,
        Function::Alt1 => 0b101,
        Function::Alt2 => 0b110,
        Function::Alt3 => 0b111,
        Function::Alt4 => 0b011,
        Function::Alt5 => 0b010,
    }
}

pub open spec fn spec_resistor_bits(r: Resistor) -> u32 {
    match r {
        Resistor::NoPull => 0b00,
        Resistor::Up => 0b01,
        Resistor::Down => 0b10,
    }
}

impl Function {
    /// The three-bit field value the function-select registers use.
    pub fn bits(&self) -> (r: u32)
        ensures
            r == spec_function_bits(*self),
    {
        match self {
            Function::Output => 0b001,
            Function::Alt0 => 0b100,
            Function::Alt1 => 0b101,
            Function::Alt2 => 0b110,
            Function::Alt3 => 0b111,
            Function::Alt4 => 0b011,
            Function::Alt5 => 0b010,
        }
    }
}

impl Resistor {
    /// The two-bit field value the pull-up/down registers use.
    pub fn bits(&self) -> (r: u32)
        ensures
            r == spec_resistor_bits(*self),
    {
        match self {
            Resistor::NoPull => 0b00,
            Resistor::Up => 0b01,
            Resistor::Down => 0b10,
        }
    }
}

/// A register value with the `field_size`-bit field of `pin` replaced by
/// `val`.
pub open spec fn spec_field_update(reg_val: u32, pin: u32, val: u32, field_size: u32) -> u32 {
    let mask = ((1u32 << field_size) - 1) as u32;
    let shift = (((pin % (32u32 / field_size)) * field_size)) as u32;
    (reg_val & !(mask << shift)) | (val << shift)
}

/// The register bank after a field write for `pin` in the register block
/// starting at `base_reg`: pins are packed `32 / field_size` to a register.
pub open spec fn spec_field_write(
    regs: Seq<u32>,
    bank_base: u64,
    base_reg: u64,
    pin: u32,
    val: u32,
    field_size: u32,
) -> Seq<u32> {
    let addr = base_reg + ((pin / (32u32 / field_size)) * 4);
    let idx = (addr - bank_base) / 4;
    regs.update(idx, spec_field_update(regs[idx], pin, val, field_size))
}

pub struct GPIODriverInner {
    pub gpfsel0: u64,
    pub gpset0: u64,
    pub gpclr0: u64,
    pub gppupdn0: u64,
}

impl GPIODriverInner {
    /// The driver's register addresses name the window `bank` models.
    pub open spec fn owns(self, bank: MmioBank) -> bool {
        &&& bank.wf()
        &&& bank.regs@.len() == GPIO_NUM_REGS
        &&& self.gpfsel0 == bank.base
        &&& self.gpset0 == bank.base + 0x1C
        &&& self.gpclr0 == bank.base + 0x28
        &&& self.gppupdn0 == bank.base + 0xE4
    }

    fn write(&self, bank: &mut MmioBank, pin: u32, val: u32, base: u64, field_size: u32)
        requires
            self.owns(*old(bank)),
            pin < 58,
            (base == self.gpfsel0 && field_size == 3) || (base == self.gppupdn0 && field_size
                == 2) || ((base == self.gpset0 || base == self.gpclr0) && field_size == 1),
        ensures
            self.owns(*final(bank)),
            final(bank).base == old(bank).base,
            final(bank).regs@ == spec_field_write(
                old(bank).regs@,
                old(bank).base,
                base,
                pin,
                val,
                field_size,
            ),
    {
        proof {
            assert(1u32 << 1 == 2 && 1u32 << 2 == 4 && 1u32 << 3 == 8) by (bit_vector);
        }
        let field_mask = (1u32 << field_size) - 1;

        let num_fields = 32 / field_size;
        proof {
            assert(pin / 10 <= 5);
            assert(pin / 16 <= 3);
            assert(pin / 32 <= 1);
        }
        let reg = base + ((pin / num_fields) * 4) as u64;
        proof {
            assert(bank.spec_covers(reg));
        }
        let shift = (pin % num_fields) * field_size;

        let mut reg_val = read(bank, reg);
        reg_val = reg_val & !(field_mask << shift);
        reg_val = reg_val | (val << shift);
        crate::mmio::write(bank, reg, reg_val);
    }

    fn function(&self, bank: &mut MmioBank, pin: u32, val: Function)
        requires
            self.owns(*old(bank)),
            pin < 58,
        ensures
            self.owns(*final(bank)),
            final(bank).base == old(bank).base,
            final(bank).regs@ == spec_field_write(
                old(bank).regs@,
                old(bank).base,
                self.gpfsel0,
                pin,
                spec_function_bits(val),
                3,
            ),
    {
        self.write(bank, pin, val.bits(), self.gpfsel0, 3);
    }

    fn resistor(&self, bank: &mut MmioBank, pin: u32, val: Resistor)
        requires
            self.owns(*old(bank)),
            pin < 58,
        ensures
            self.owns(*final(bank)),
            final(bank).base == old(bank).base,
            final(bank).regs@ == spec_field_write(
                old(bank).regs@,
                old(bank).base,
                self.gppupdn0,
                pin,
                spec_resistor_bits(val),
                2,
            ),
    {
        self.write(bank, pin, val.bits(), self.gppupdn0, 2);
    }

    fn set(&self, bank: &mut MmioBank, pin: u32)
        requires
            self.owns(*old(bank)),
            pin < 58,
        ensures
            self.owns(*final(bank)),
            final(bank).base == old(bank).base,
            final(bank).regs@ == spec_field_write(
                old(bank).regs@,
                old(bank).base,
                self.gpset0,
                pin,
                1,
                1,
            ),
    {
        self.write(bank, pin, 1, self.gpset0, 1);
    }

    fn clear(&self, bank: &mut MmioBank, pin: u32)
        requires
            self.owns(*old(bank)),
            pin < 58,
        ensures
            self.owns(*final(bank)),
            final(bank).base == old(bank).base,
            final(bank).regs@ == spec_field_write(
                old(bank).regs@,
                old(bank).base,
                self.gpclr0,
                pin,
                1,
                1,
            ),
    {
        self.write(bank, pin, 1, self.gpclr0, 1);
    }
}

/// The GPIO controller driver for the block of registers at a given base
/// address.
pub struct GPIODriver {
    pub inner: NullLock<GPIODriverInner>,
}

/// The register state after routing the UART onto pins 14 and 15: both pins
/// on alternate function 0, both pulled up.
pub open spec fn spec_map_uart_regs(regs: Seq<u32>, bank_base: u64) -> Seq<u32> {
    let r1 = spec_field_write(regs, bank_base, bank_base, 14, 0b100, 3);
    let r2 = spec_field_write(r1, bank_base, bank_base, 15, 0b100, 3);
    let r3 = spec_field_write(r2, bank_base, ((bank_base + 0xE4) as u64), 14, 0b01, 2);
    spec_field_write(r3, bank_base, ((bank_base + 0xE4) as u64), 15, 0b01, 2)
}

impl GPIODriver {
    /// The driver's registers name the window `bank` models.
    pub open spec fn owns(self, bank: MmioBank) -> bool {
        self.inner.data.owns(bank)
    }

    pub fn new(base: u64) -> (r: Self)
        requires
            base + 0xE4 <= u64::MAX,
        ensures
            forall|bank: MmioBank|
                (bank.wf() && bank.base == base && bank.regs@.len() == GPIO_NUM_REGS)
                    ==> #[trigger] r.owns(bank),
    {
        Self {
            inner: NullLock::new(
                GPIODriverInner {
                    gpfsel0: base + 0,
                    gpset0: base + 0x1C,
                    gpclr0: base + 0x28,
                    gppupdn0: base + 0xE4,
                },
            ),
        }
    }

    /// Route the UART onto pins 14 and 15 and pull them up.
    pub fn map_uart(&self, bank: &mut MmioBank)
        requires
            self.owns(*old(bank)),
        ensures
            self.owns(*final(bank)),
            final(bank).base == old(bank).base,
            final(bank).regs@ == spec_map_uart_regs(old(bank).regs@, old(bank).base),
    {
        let i = self.inner.get();
        i.function(bank, 14, Function::Alt0);
        i.function(bank, 15, Function::Alt0);
        i.resistor(bank, 14, Resistor::Up);
        i.resistor(bank, 15, Resistor::Up);
    }

    pub fn function(&self, bank: &mut MmioBank, pin: u32, val: Function)
        requires
            self.owns(*old(bank)),
            pin < 58,
        ensures
            self.owns(*final(bank)),
            final(bank).base == old(bank).base,
            final(bank).regs@ == spec_field_write(
                old(bank).regs@,
                old(bank).base,
                old(bank).base,
                pin,
                spec_function_bits(val),
                3,
            ),
    {
        self.inner.get().function(bank, pin, val)
    }

    pub fn resistor(&self, bank: &mut MmioBank, pin: u32, val: Resistor)
        requires
            self.owns(*old(bank)),
            pin < 58,
        ensures
            self.owns(*final(bank)),
            final(bank).base == old(bank).base,
            final(bank).regs@ == spec_field_write(
                old(bank).regs@,
                old(bank).base,
                ((old(bank).base + 0xE4) as u64),
                pin,
                spec_resistor_bits(val),
                2,
            ),
    {
        self.inner.get().resistor(bank, pin, val)
    }

    /// Drive a pin high.
    pub fn set(&self, bank: &mut MmioBank, pin: u32)
        requires
            self.owns(*old(bank)),
            pin < 58,
        ensures
            self.owns(*final(bank)),
            final(bank).base == old(bank).base,
            final(bank).regs@ == spec_field_write(
                old(bank).regs@,
                old(bank).base,
                ((old(bank).base + 0x1C) as u64),
                pin,
                1,
                1,
            ),
    {
        self.inner.get().set(bank, pin)
    }

    /// Drive a pin low.
    pub fn clear(&self, bank: &mut MmioBank, pin: u32)
        requires
            self.owns(*old(bank)),
            pin < 58,
        ensures
            self.owns(*final(bank)),
            final(bank).base == old(bank).base,
            final(bank).regs@ == spec_field_write(
                old(bank).regs@,
                old(bank).base,
                ((old(bank).base + 0x28) as u64),
                pin,
                1,
                1,
            ),
    {
        self.inner.get().clear(bank, pin)
    }
}

impl crate::driver::Driver for GPIODriver {
    open spec fn ready(&self) -> bool {
        true
    }

    /// The GPIO block needs no setup of its own: nothing changes.
    open spec fn init_done(&self, pre: &Self) -> bool {
        *self == *pre
    }

    fn init(&mut self) -> (r: Result<(), &'static str>) {
        Ok(())
    }
}

/// Route the UART onto pins 14 and 15 of the board's GPIO block.
pub fn map_uart(bank: &mut MmioBank)
    requires
        old(bank).wf(),
        old(bank).base == GPIO_START,
        old(bank).regs@.len() == GPIO_NUM_REGS,
    ensures
        final(bank).base == old(bank).base,
        final(bank).regs@ == spec_map_uart_regs(old(bank).regs@, old(bank).base),
{
    let driver = GPIODriver::new(GPIO_START);
    driver.map_uart(bank);
}

} // verus!
