//! The PL011 UART: a polled register-level interface over a modelled
//! register window, and a device model that adds receive and transmit
//! queues for the byte-oriented interface the loader uses.

use vstd::prelude::*;

use crate::map::UART0_START;
use crate::mmio::{read, read_bits, spec_bits_of, MmioBank};

verus! {

/// Registers in the UART window: data register through interrupt clear.
pub const UART_NUM_REGS: usize = 18;

/// Byte offsets of the registers used.
pub const UART_DR: u64 = 0x00;

pub const UART_FR: u64 = 0x18;

pub const UART_IBRD: u64 = 0x24;

pub const UART_FBRD: u64 = 0x28;

pub const UART_LCRH: u64 = 0x2C;

pub const UART_CR: u64 = 0x30;

pub const UART_ICR: u64 = 0x44;

/// Flag-register bits: transmit FIFO full, receive FIFO empty.
pub const FR_TXFF: u32 = 5;

pub const FR_RXFE: u32 = 4;

/// A window that models the UART's registers.
pub open spec fn spec_uart_wf(bank: MmioBank) -> bool {
    &&& bank.wf()
    &&& bank.regs@.len() == UART_NUM_REGS
}

/// The transmit-FIFO-full bit of the flag register.
pub open spec fn spec_txff(bank: MmioBank) -> bool {
    spec_bits_of(bank.regs@[(UART_FR / 4) as int], FR_TXFF, 1) == 1
}

/// The receive-FIFO-empty bit of the flag register.
pub open spec fn spec_rxfe(bank: MmioBank) -> bool {
    spec_bits_of(bank.regs@[(UART_FR / 4) as int], FR_RXFE, 1) == 1
}

/// The register window after initialization: UART disabled, interrupts
/// cleared, 921600 baud, FIFOs on with 8-bit words, then enabled for
/// transmit and receive.
pub open spec fn spec_uart_init_regs(regs: Seq<u32>) -> Seq<u32> {
    regs.update((UART_CR / 4) as int, 0).update((UART_ICR / 4) as int, 0).update(
        (UART_IBRD / 4) as int,
        3,
    ).update((UART_FBRD / 4) as int, 16).update(
        (UART_LCRH / 4) as int,
        (1u32 << 4) | (0b11u32 << 5),
    ).update((UART_CR / 4) as int, 1u32 | (1u32 << 8) | (1u32 << 9))
}

/// Initialize the UART: disable it, clear pending interrupts, set the baud
/// divisors, enable FIFOs and 8-bit words, and enable transmit and receive.
pub fn init(bank: &mut MmioBank)
    requires
        spec_uart_wf(*old(bank)),
    ensures
        spec_uart_wf(*final(bank)),
        final(bank).base == old(bank).base,
        final(bank).regs@ == spec_uart_init_regs(old(bank).regs@),
{
    // Disable the UART
    crate::mmio::write(bank, bank.base + UART_CR, 0);
    // Clear pending interrupts
    crate::mmio::write(bank, bank.base + UART_ICR, 0);

    // Set the baud rate to 921600
    crate::mmio::write(bank, bank.base + UART_IBRD, 3);
    crate::mmio::write(bank, bank.base + UART_FBRD, 16);

    // Enable FIFOs, 8-bit word length, no parity
    crate::mmio::write(bank, bank.base + UART_LCRH, (1u32 << 4) | (0b11u32 << 5));

    // Enable the UART, transmit and receive
    crate::mmio::write(bank, bank.base + UART_CR, 1u32 | (1u32 << 8) | (1u32 << 9));
}

/// Write the character's code unit to the data register once the transmit
/// FIFO reports space. The modelled flag register never changes on its own,
/// so the hardware's polling wait becomes the precondition that the FIFO
/// already has space.
pub fn write_char(bank: &mut MmioBank, c: char)
    requires
        spec_uart_wf(*old(bank)),
        !spec_txff(*old(bank)),
    ensures
        spec_uart_wf(*final(bank)),
        final(bank).base == old(bank).base,
        final(bank).regs@ == old(bank).regs@.update((UART_DR / 4) as int, c as u32),
{
    while read_bits(bank, bank.base + UART_FR, FR_TXFF, 1) == 1
        invariant
            spec_uart_wf(*bank),
            *bank == *old(bank),
            !spec_txff(*bank),
        decreases 0int,
    {
    }

    crate::mmio::write(bank, bank.base + UART_DR, c as u32);
}

/// Wait until the transmit FIFO reports space; with the modelled flag
/// register this is the precondition that it already does.
pub fn flush(bank: &MmioBank)
    requires
        spec_uart_wf(*bank),
        !spec_txff(*bank),
{
    while read_bits(bank, bank.base + UART_FR, FR_TXFF, 1) == 1
        invariant
            spec_uart_wf(*bank),
            !spec_txff(*bank),
        decreases 0int,
    {
    }
}

/// The character the data register currently holds, with carriage return
/// mapped to newline.
pub open spec fn spec_received_char(bank: MmioBank) -> char {
    let b = bank.regs@[(UART_DR / 4) as int] as u8;
    if b == 13 {
        '\n'
    } else {
        b as char
    }
}

/// Read one character from the data register once the receive FIFO reports
/// data, mapping carriage return to newline. The hardware's blocking wait
/// becomes the precondition that data is already there.
pub fn read_char_blocking(bank: &MmioBank) -> (r: char)
    requires
        spec_uart_wf(*bank),
        !spec_rxfe(*bank),
    ensures
        r == spec_received_char(*bank),
{
    while read_bits(bank, bank.base + UART_FR, FR_RXFE, 1) == 1
        invariant
            spec_uart_wf(*bank),
            !spec_rxfe(*bank),
        decreases 0int,
    {
    }

    let b = read(bank, bank.base + UART_DR) as u8;
    if b == 13u8 {
        '\n'
    } else {
        b as char
    }
}

/// Read one character if the receive FIFO reports data, without blocking.
pub fn read_char(bank: &MmioBank) -> (r: Option<char>)
    requires
        spec_uart_wf(*bank),
    ensures
        r == if spec_rxfe(*bank) {
            Option::<char>::None
        } else {
            Some(spec_received_char(*bank))
        },
{
    if read_bits(bank, bank.base + UART_FR, FR_RXFE, 1) == 1 {
        return None;
    }
    Some(read_char_blocking(bank))
}

/// Write every character of `s` in turn. The modelled data register holds
/// the last character written.
pub fn write_str(bank: &mut MmioBank, s: &str)
    requires
        spec_uart_wf(*old(bank)),
        !spec_txff(*old(bank)),
    ensures
        spec_uart_wf(*final(bank)),
        final(bank).base == old(bank).base,
        s@.len() == 0 ==> *final(bank) == *old(bank),
        s@.len() > 0 ==> final(bank).regs@ == old(bank).regs@.update(
            (UART_DR / 4) as int,
            s@.last() as u32,
        ),
{
    let len = s.unicode_len();
    let mut i: usize = 0;
    while i < len
        invariant
            spec_uart_wf(*bank),
            spec_uart_wf(*old(bank)),
            len == s@.len(),
            i <= len,
            bank.base == old(bank).base,
            !spec_txff(*bank),
            i == 0 ==> *bank == *old(bank),
            i > 0 ==> bank.regs@ == old(bank).regs@.update(
                (UART_DR / 4) as int,
                s@[i - 1] as u32,
            ),
        decreases len - i,
    {
        let c = s.get_char(i);
        write_char(bank, c);
        proof {
            if i > 0 {
                let prev = old(bank).regs@.update((UART_DR / 4) as int, s@[i - 1] as u32);
                let twice = prev.update((UART_DR / 4) as int, s@[i as int] as u32);
                let once = old(bank).regs@.update((UART_DR / 4) as int, s@[i as int] as u32);
                assert(twice.len() == once.len());
                assert forall|k: int| 0 <= k < twice.len() implies twice[k] == once[k] by {
                    if k != (UART_DR / 4) as int {
                        assert(twice[k] == old(bank).regs@[k]);
                        assert(once[k] == old(bank).regs@[k]);
                    }
                }
                assert(twice =~= once);
            }
        }
        i = i + 1;
    }
}

/// The UART as the loader sees it: its register window plus a queue of
/// received bytes not yet read and the log of every byte transmitted. The
/// boot code fills `rx` from the wire and drains `tx` to it; the logic here
/// only ever sees these plain values.
pub struct UartInner {
    pub regs: MmioBank,
    pub rx: Vec<u8>,
    pub tx: Vec<u8>,
}

impl UartInner {
    pub open spec fn wf(self) -> bool {
        spec_uart_wf(self.regs)
    }

    pub fn init(&mut self)
        requires
            old(self).wf(),
        ensures
            final(self).wf(),
            final(self).regs.base == old(self).regs.base,
            final(self).regs.regs@ == spec_uart_init_regs(old(self).regs.regs@),
            final(self).rx == old(self).rx,
            final(self).tx == old(self).tx,
    {
        init(&mut self.regs);
    }

    /// Transmit one byte: it joins the log of everything sent.
    pub fn write(&mut self, b: u8)
        ensures
            final(self).tx@ == old(self).tx@.push(b),
            final(self).rx == old(self).rx,
            final(self).regs == old(self).regs,
    {
        self.tx.push(b);
    }

    /// Transmit a run of bytes in order.
    pub fn write_slice(&mut self, b: &[u8])
        ensures
            final(self).tx@ == old(self).tx@ + b@,
            final(self).rx == old(self).rx,
            final(self).regs == old(self).regs,
    {
        let len = b.len();
        let mut i: usize = 0;
        while i < len
            invariant
                len == b@.len(),
                i <= len,
                self.tx@ == old(self).tx@ + b@.subrange(0, i as int),
                self.rx == old(self).rx,
                self.regs == old(self).regs,
            decreases len - i,
        {
            self.tx.push(b[i]);
            proof {
                assert(old(self).tx@ + b@.subrange(0, i as int) + seq![b@[i as int]]
                    =~= old(self).tx@ + b@.subrange(0, i + 1));
            }
            i = i + 1;
        }
        proof {
            assert(b@.subrange(0, len as int) =~= b@);
        }
    }

    /// Take the next received byte. The hardware's blocking wait becomes the
    /// precondition that a byte has already arrived.
    pub fn read_blocking(&mut self) -> (r: u8)
        requires
            old(self).rx@.len() > 0,
        ensures
            r == old(self).rx@[0],
            final(self).rx@ == old(self).rx@.skip(1),
            final(self).tx == old(self).tx,
            final(self).regs == old(self).regs,
    {
        let b = self.rx.remove(0);
        proof {
            assert(old(self).rx@.remove(0) =~= old(self).rx@.skip(1));
        }
        b
    }

    /// Take the next received byte, if one has arrived.
    pub fn read(&mut self) -> (r: Option<u8>)
        ensures
            old(self).rx@.len() == 0 ==> r is None && *final(self) == *old(self),
            old(self).rx@.len() > 0 ==> r == Some(old(self).rx@[0]) && final(self).rx@ == old(
                self,
            ).rx@.skip(1) && final(self).tx == old(self).tx && final(self).regs == old(self).regs,
    {
        if self.rx.len() == 0 {
            return None;
        }
        Some(self.read_blocking())
    }

    /// Model input: a byte arrives on the wire and joins the receive queue.
    pub fn receive(&mut self, b: u8)
        ensures
            final(self).rx@ == old(self).rx@.push(b),
            final(self).tx == old(self).tx,
            final(self).regs == old(self).regs,
    {
        self.rx.push(b);
    }
}

/// The loader's UART handle.
pub struct Uart {
    pub i: UartInner,
}

impl Uart {
    /// A fresh device model: zeroed registers at the board's UART window,
    /// nothing received, nothing sent.
    pub fn new() -> (r: Self)
        ensures
            r.i.wf(),
            r.i.regs.base == UART0_START,
            forall|k: int| 0 <= k < r.i.regs.regs@.len() ==> r.i.regs.regs@[k] == 0,
            r.i.rx@.len() == 0,
            r.i.tx@.len() == 0,
    {
        Self {
            i: UartInner {
                regs: MmioBank::new_zeroed(UART0_START, UART_NUM_REGS),
                rx: Vec::new(),
                tx: Vec::new(),
            },
        }
    }

    pub fn init(&mut self)
        requires
            old(self).i.wf(),
        ensures
            final(self).i.wf(),
            final(self).i.regs.base == old(self).i.regs.base,
            final(self).i.regs.regs@ == spec_uart_init_regs(old(self).i.regs.regs@),
            final(self).i.rx == old(self).i.rx,
            final(self).i.tx == old(self).i.tx,
    {
        self.i.init();
    }

    pub fn read_blocking(&mut self) -> (r: u8)
        requires
            old(self).i.rx@.len() > 0,
        ensures
            r == old(self).i.rx@[0],
            final(self).i.rx@ == old(self).i.rx@.skip(1),
            final(self).i.tx == old(self).i.tx,
            final(self).i.regs == old(self).i.regs,
    {
        self.i.read_blocking()
    }

    pub fn write(&mut self, b: u8)
        ensures
            final(self).i.tx@ == old(self).i.tx@.push(b),
            final(self).i.rx == old(self).i.rx,
            final(self).i.regs == old(self).i.regs,
    {
        self.i.write(b)
    }

    pub fn write_slice(&mut self, b: &[u8])
        ensures
            final(self).i.tx@ == old(self).i.tx@ + b@,
            final(self).i.rx == old(self).i.rx,
            final(self).i.regs == old(self).i.regs,
    {
        self.i.write_slice(b)
    }

    /// Model input: a byte arrives on the wire.
    pub fn receive(&mut self, b: u8)
        ensures
            final(self).i.rx@ == old(self).i.rx@.push(b),
            final(self).i.tx == old(self).i.tx,
            final(self).i.regs == old(self).i.regs,
    {
        self.i.receive(b)
    }
}

} // verus!
