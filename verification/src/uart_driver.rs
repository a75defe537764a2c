//! The kernel's UART driver: character-oriented transmit and receive with
//! UTF-8 encoding and decoding, over the modelled device with its receive
//! queue and transmit log.

use vstd::prelude::*;
use vstd::string::StringSliceAdditionalSpecFns;

use crate::driver::Driver;
use crate::log::LogWrite;
use crate::mmio::MmioBank;
use crate::sync::NullLock;
use crate::uart::{UartInner, UART_NUM_REGS};

verus! {

/// Relies on char::from_u32: the conversion succeeds exactly for values
/// below the surrogate range or between it and the highest code point, and
/// the resulting character has the given value.
pub assume_specification[ char::from_u32 ](i: u32) -> (r: Option<char>)
    ensures
        (r is Some) == (i < 0xD800 || (0xE000 <= i && i < 0x110000)),
        r is Some ==> r->0 as u32 == i,
;

/// How many bytes a UTF-8 sequence led by `b0` spans; an invalid leading
/// byte is taken alone.
pub open spec fn spec_utf8_width(b0: u8) -> int {
    if b0 < 0x80 {
        1
    } else if 0xC0 <= b0 && b0 < 0xE0 {
        2
    } else if 0xE0 <= b0 && b0 < 0xF0 {
        3
    } else if 0xF0 <= b0 && b0 < 0xF8 {
        4
    } else {
        1
    }
}

/// The code point the first `spec_utf8_width` bytes of `bytes` carry,
/// gathered from their payload bits; it names a character only when
/// `spec_valid_utf8_prefix` holds of the bytes.
pub open spec fn spec_utf8_codepoint(bytes: Seq<u8>) -> u32 {
    let b0 = bytes[0];
    let w = spec_utf8_width(b0);
    if w == 1 {
        b0 as u32
    } else if w == 2 {
        (((b0 & 0x1F) as u32) << 6) | ((bytes[1] & 0x3F) as u32)
    } else if w == 3 {
        ((((b0 & 0x0F) as u32) << 12) | (((bytes[1] & 0x3F) as u32) << 6)) | ((bytes[2]
            & 0x3F) as u32)
    } else {
        (((((b0 & 0x07) as u32) << 18) | (((bytes[1] & 0x3F) as u32) << 12)) | (((bytes[2]
            & 0x3F) as u32) << 6)) | ((bytes[3] & 0x3F) as u32)
    }
}

/// A code point is a Unicode scalar value: not a surrogate, not past the
/// last code point.
pub open spec fn spec_valid_scalar(v: u32) -> bool {
    v < 0xD800 || (0xE000 <= v && v < 0x110000)
}

/// A byte that may continue a multi-byte sequence.
pub open spec fn spec_is_continuation(b: u8) -> bool {
    0x80 <= b && b < 0xC0
}

/// The received bytes begin with one complete, well-formed UTF-8 sequence:
/// a valid leading byte, its continuation bytes all present and in range,
/// and a code point that is a scalar value in the shortest encoding.
pub open spec fn spec_valid_utf8_prefix(bytes: Seq<u8>) -> bool {
    let b0 = bytes[0];
    let w = spec_utf8_width(b0);
    if b0 < 0x80 {
        true
    } else if !(0xC0 <= b0 && b0 < 0xF8) {
        false
    } else if bytes.len() < w {
        false
    } else {
        let cp = spec_utf8_codepoint(bytes.take(w));
        &&& forall|i: int| 1 <= i < w ==> spec_is_continuation(#[trigger] bytes[i])
        &&& spec_valid_scalar(cp)
        &&& (w == 2 ==> cp >= 0x80)
        &&& (w == 3 ==> cp >= 0x800)
        &&& (w == 4 ==> cp >= 0x10000)
    }
}

/// How many received bytes one decode attempt takes: the sequence itself
/// when it is well formed, otherwise the four bytes the driver reads before
/// giving up.
pub open spec fn spec_utf8_consumed(bytes: Seq<u8>) -> int {
    if spec_valid_utf8_prefix(bytes) {
        spec_utf8_width(bytes[0])
    } else {
        4
    }
}

/// The character code a well-formed sequence yields: its scalar value, with
/// carriage return mapped to newline.
pub open spec fn spec_decoded_code(bytes: Seq<u8>) -> u32 {
    let cp = spec_utf8_codepoint(bytes.take(spec_utf8_width(bytes[0])));
    if cp == 13 {
        10
    } else {
        cp
    }
}

/// The UTF-8 bytes of one character.
pub open spec fn spec_char_utf8(c: char) -> Seq<u8> {
    let v = c as u32;
    if v < 0x80 {
        seq![v as u8]
    } else if v < 0x800 {
        seq![(0xC0u32 | (v >> 6)) as u8, (0x80u32 | (v & 0x3F)) as u8]
    } else if v < 0x10000 {
        seq![
            (0xE0u32 | (v >> 12)) as u8,
            (0x80u32 | ((v >> 6) & 0x3F)) as u8,
            (0x80u32 | (v & 0x3F)) as u8,
        ]
    } else {
        seq![
            (0xF0u32 | (v >> 18)) as u8,
            (0x80u32 | ((v >> 12) & 0x3F)) as u8,
            (0x80u32 | ((v >> 6) & 0x3F)) as u8,
            (0x80u32 | (v & 0x3F)) as u8,
        ]
    }
}

/// The kernel's UART driver.
pub struct UARTDriver {
    pub inner: NullLock<UartInner>,
}

impl UARTDriver {
    pub open spec fn wf(self) -> bool {
        self.inner.data.wf()
    }

    /// The queue of received, unread bytes.
    pub open spec fn rx(self) -> Seq<u8> {
        self.inner.data.rx@
    }

    /// The log of every byte transmitted.
    pub open spec fn tx(self) -> Seq<u8> {
        self.inner.data.tx@
    }

    pub open spec fn regs(self) -> MmioBank {
        self.inner.data.regs
    }

    /// A fresh driver for the UART window at `base`: zeroed registers,
    /// nothing received, nothing sent.
    pub fn new(base: u64) -> (r: Self)
        requires
            base % 4 == 0,
            base + 4 * (UART_NUM_REGS as int) <= u64::MAX,
        ensures
            r.wf(),
            r.regs().base == base,
            r.rx().len() == 0,
            r.tx().len() == 0,
    {
        Self {
            inner: NullLock::new(
                UartInner {
                    regs: MmioBank::new_zeroed(base, UART_NUM_REGS),
                    rx: Vec::new(),
                    tx: Vec::new(),
                },
            ),
        }
    }

    /// Transmit one byte.
    pub fn write_byte(&mut self, b: u8)
        ensures
            final(self).tx() == old(self).tx().push(b),
            final(self).rx() == old(self).rx(),
            final(self).regs() == old(self).regs(),
    {
        self.inner.data.write(b);
    }

    /// Transmit one character as its UTF-8 bytes.
    pub fn write_char(&mut self, c: char)
        ensures
            final(self).tx() == old(self).tx() + spec_char_utf8(c),
            final(self).rx() == old(self).rx(),
            final(self).regs() == old(self).regs(),
    {
        let v = c as u32;
        if v < 0x80 {
            self.inner.data.write(v as u8);
            proof {
                assert(old(self).tx().push((v as u8)) =~= old(self).tx() + spec_char_utf8(c));
            }
        } else if v < 0x800 {
            self.inner.data.write((0xC0u32 | (v >> 6)) as u8);
            self.inner.data.write((0x80u32 | (v & 0x3F)) as u8);
            proof {
                assert(old(self).tx().push(((0xC0u32 | (v >> 6)) as u8)).push(
                    ((0x80u32 | (v & 0x3F)) as u8),
                ) =~= old(self).tx() + spec_char_utf8(c));
            }
        } else if v < 0x10000 {
            self.inner.data.write((0xE0u32 | (v >> 12)) as u8);
            self.inner.data.write((0x80u32 | ((v >> 6) & 0x3F)) as u8);
            self.inner.data.write((0x80u32 | (v & 0x3F)) as u8);
            proof {
                assert(old(self).tx().push(((0xE0u32 | (v >> 12)) as u8)).push(
                    ((0x80u32 | ((v >> 6) & 0x3F)) as u8),
                ).push(((0x80u32 | (v & 0x3F)) as u8)) =~= old(self).tx() + spec_char_utf8(c));
            }
        } else {
            self.inner.data.write((0xF0u32 | (v >> 18)) as u8);
            self.inner.data.write((0x80u32 | ((v >> 12) & 0x3F)) as u8);
            self.inner.data.write((0x80u32 | ((v >> 6) & 0x3F)) as u8);
            self.inner.data.write((0x80u32 | (v & 0x3F)) as u8);
            proof {
                assert(old(self).tx().push(((0xF0u32 | (v >> 18)) as u8)).push(
                    ((0x80u32 | ((v >> 12) & 0x3F)) as u8),
                ).push(((0x80u32 | ((v >> 6) & 0x3F)) as u8)).push(((0x80u32 | (v & 0x3F)) as u8))
                    =~= old(self).tx() + spec_char_utf8(c));
            }
        }
    }

    /// Transmit every byte of a string.
    pub fn write_str(&mut self, s: &str)
        ensures
            final(self).tx() == old(self).tx() + s.spec_bytes(),
            final(self).rx() == old(self).rx(),
            final(self).regs() == old(self).regs(),
    {
        self.inner.data.write_slice(s.as_bytes());
    }

    /// Wait for the transmit FIFO to drain; the modelled transmit log
    /// accepts every byte at once, so nothing is pending.
    pub fn flush(&self)
        ensures
            true,
    {
    }

    /// Take the next received byte; blocking is modelled as the
    /// precondition that a byte has already arrived.
    pub fn read_blocking(&mut self) -> (r: u8)
        requires
            old(self).rx().len() > 0,
        ensures
            r == old(self).rx()[0],
            final(self).rx() == old(self).rx().skip(1),
            final(self).tx() == old(self).tx(),
            final(self).regs() == old(self).regs(),
    {
        self.inner.data.read_blocking()
    }

    /// Take the next received byte, if one has arrived.
    pub fn read(&mut self) -> (r: Option<u8>)
        ensures
            old(self).rx().len() == 0 ==> r is None && *final(self) == *old(self),
            old(self).rx().len() > 0 ==> r == Some(old(self).rx()[0]) && final(self).rx() == old(
                self,
            ).rx().skip(1) && final(self).tx() == old(self).tx() && final(self).regs() == old(
                self,
            ).regs(),
    {
        self.inner.data.read()
    }

    /// Decode one character from the received bytes, the way the polled
    /// hardware driver does: a well-formed UTF-8 sequence yields its
    /// character with carriage return mapped to newline; anything else
    /// consumes four bytes and yields nothing. Blocking for the bytes is
    /// modelled as the precondition that they have already arrived.
    fn decode_next(&mut self) -> (r: Option<char>)
        requires
            old(self).rx().len() >= 1,
            old(self).rx().len() >= spec_utf8_consumed(old(self).rx()),
        ensures
            final(self).rx() == old(self).rx().skip(spec_utf8_consumed(old(self).rx())),
            final(self).tx() == old(self).tx(),
            final(self).regs() == old(self).regs(),
            spec_valid_utf8_prefix(old(self).rx()) ==> (r matches Some(c) && c as u32
                == spec_decoded_code(old(self).rx())),
            !spec_valid_utf8_prefix(old(self).rx()) ==> r is None,
    {
        let ghost rx0 = old(self).rx();
        let b0 = self.inner.data.read_blocking();
        if b0 < 0x80 {
            proof {
                assert(rx0.take(1)[0] == rx0[0]);
            }
            let cp: u32 = if b0 == 13 {
                10
            } else {
                b0 as u32
            };
            return match char::from_u32(cp) {
                Some(ch) => {
                    proof {
                        assert(ch as u32 == cp);
                    }
                    Some(ch)
                },
                // not reached: the value is below the surrogate range
                Option::None => Option::None,
            };
        }
        let w: usize = if b0 >= 0xC0 && b0 < 0xE0 {
            2
        } else if b0 >= 0xE0 && b0 < 0xF0 {
            3
        } else if b0 >= 0xF0 && b0 < 0xF8 {
            4
        } else {
            1
        };
        if w == 1 {
            // invalid leading byte: the driver reads four bytes in all
            // before giving up
            proof {
                assert(!spec_valid_utf8_prefix(rx0));
            }
            let _ = self.inner.data.read_blocking();
            proof {
                assert(rx0.skip(1).skip(1) =~= rx0.skip(2));
            }
            let _ = self.inner.data.read_blocking();
            proof {
                assert(rx0.skip(2).skip(1) =~= rx0.skip(3));
            }
            let _ = self.inner.data.read_blocking();
            proof {
                assert(rx0.skip(3).skip(1) =~= rx0.skip(4));
            }
            return Option::None;
        }
        proof {
            assert(rx0.len() >= 2);
        }
        let b1 = self.inner.data.read_blocking();
        proof {
            assert(b1 == rx0[1]);
            assert(rx0.skip(1).skip(1) =~= rx0.skip(2));
        }
        if w == 2 {
            proof {
                assert(rx0.take(2)[0] == rx0[0]);
                assert(rx0.take(2)[1] == rx0[1]);
            }
            if b1 >= 0x80 && b1 < 0xC0 {
                let cp = (((b0 & 0x1F) as u32) << 6) | ((b1 & 0x3F) as u32);
                if cp >= 0x80 {
                    proof {
                        assert((((b0 & 0x1F) as u32) << 6) | ((b1 & 0x3F) as u32) < 0xD800)
                            by (bit_vector);
                        assert(spec_valid_utf8_prefix(rx0));
                    }
                    return match char::from_u32(cp) {
                        Some(ch) => {
                            proof {
                                assert(ch as u32 == cp);
                            }
                            Some(ch)
                        },
                        // not reached: two-byte values stay below the
                        // surrogate range
                        Option::None => Option::None,
                    };
                }
                // overlong two-byte encoding: not well formed
                proof {
                    assert(!spec_valid_utf8_prefix(rx0));
                }
            } else {
                proof {
                    assert(!spec_valid_utf8_prefix(rx0));
                }
            }
            let _ = self.inner.data.read_blocking();
            proof {
                assert(rx0.skip(2).skip(1) =~= rx0.skip(3));
            }
            let _ = self.inner.data.read_blocking();
            proof {
                assert(rx0.skip(3).skip(1) =~= rx0.skip(4));
            }
            return Option::None;
        }
        proof {
            assert(rx0.len() >= 3);
        }
        let b2 = self.inner.data.read_blocking();
        proof {
            assert(b2 == rx0[2]);
            assert(rx0.skip(2).skip(1) =~= rx0.skip(3));
        }
        if w == 3 {
            proof {
                assert(rx0.take(3)[0] == rx0[0]);
                assert(rx0.take(3)[1] == rx0[1]);
                assert(rx0.take(3)[2] == rx0[2]);
            }
            if b1 >= 0x80 && b1 < 0xC0 && b2 >= 0x80 && b2 < 0xC0 {
                let cp = ((((b0 & 0x0F) as u32) << 12) | (((b1 & 0x3F) as u32) << 6)) | ((b2
                    & 0x3F) as u32);
                if cp >= 0x800 {
                    match char::from_u32(cp) {
                        Some(ch) => {
                            proof {
                                assert(ch as u32 == cp);
                                assert(spec_valid_utf8_prefix(rx0));
                            }
                            return Some(ch);
                        },
                        // a surrogate: not a scalar value
                        Option::None => {
                            proof {
                                assert(!spec_valid_utf8_prefix(rx0));
                            }
                        },
                    }
                } else {
                    // overlong three-byte encoding
                    proof {
                        assert(!spec_valid_utf8_prefix(rx0));
                    }
                }
            } else {
                proof {
                    assert(!spec_valid_utf8_prefix(rx0));
                }
            }
            let _ = self.inner.data.read_blocking();
            proof {
                assert(rx0.skip(3).skip(1) =~= rx0.skip(4));
            }
            return Option::None;
        }
        proof {
            assert(rx0.len() >= 4);
        }
        let b3 = self.inner.data.read_blocking();
        proof {
            assert(b3 == rx0[3]);
            assert(rx0.skip(3).skip(1) =~= rx0.skip(4));
            assert(rx0.take(4)[0] == rx0[0]);
            assert(rx0.take(4)[1] == rx0[1]);
            assert(rx0.take(4)[2] == rx0[2]);
            assert(rx0.take(4)[3] == rx0[3]);
        }
        if b1 >= 0x80 && b1 < 0xC0 && b2 >= 0x80 && b2 < 0xC0 && b3 >= 0x80 && b3 < 0xC0 {
            let cp = (((((b0 & 0x07) as u32) << 18) | (((b1 & 0x3F) as u32) << 12)) | (((b2
                & 0x3F) as u32) << 6)) | ((b3 & 0x3F) as u32);
            if cp >= 0x10000 {
                match char::from_u32(cp) {
                    Some(ch) => {
                        proof {
                            assert(ch as u32 == cp);
                            assert(spec_valid_utf8_prefix(rx0));
                        }
                        return Some(ch);
                    },
                    // past the last code point
                    Option::None => {
                        proof {
                            assert(!spec_valid_utf8_prefix(rx0));
                        }
                    },
                }
            } else {
                // overlong four-byte encoding
                proof {
                    assert(!spec_valid_utf8_prefix(rx0));
                }
            }
        } else {
            proof {
                assert(!spec_valid_utf8_prefix(rx0));
            }
        }
        Option::None
    }

    /// Decode one character, blocking until a whole sequence (or the four
    /// bytes of a failed attempt) has arrived; a malformed sequence becomes
    /// the replacement character.
    pub fn read_char_blocking(&mut self) -> (r: char)
        requires
            old(self).rx().len() >= 1,
            old(self).rx().len() >= spec_utf8_consumed(old(self).rx()),
        ensures
            final(self).rx() == old(self).rx().skip(spec_utf8_consumed(old(self).rx())),
            final(self).tx() == old(self).tx(),
            final(self).regs() == old(self).regs(),
            spec_valid_utf8_prefix(old(self).rx()) ==> r as u32 == spec_decoded_code(
                old(self).rx(),
            ),
            !spec_valid_utf8_prefix(old(self).rx()) ==> r == '\u{FFFD}',
    {
        match self.decode_next() {
            Some(c) => c,
            Option::None => '\u{FFFD}',
        }
    }

    /// Decode one character if bytes have arrived, without blocking for the
    /// first byte; a malformed sequence consumes four bytes and yields
    /// nothing.
    pub fn read_char(&mut self) -> (r: Option<char>)
        requires
            old(self).rx().len() == 0 || old(self).rx().len() >= spec_utf8_consumed(
                old(self).rx(),
            ),
        ensures
            old(self).rx().len() == 0 ==> r is None && *final(self) == *old(self),
            old(self).rx().len() > 0 ==> {
                &&& final(self).rx() == old(self).rx().skip(
                    spec_utf8_consumed(old(self).rx()),
                )
                &&& final(self).tx() == old(self).tx()
                &&& final(self).regs() == old(self).regs()
                &&& spec_valid_utf8_prefix(old(self).rx()) ==> (r matches Some(c) && c as u32
                    == spec_decoded_code(old(self).rx()))
                &&& !spec_valid_utf8_prefix(old(self).rx()) ==> r is None
            },
    {
        if self.inner.get().rx.len() == 0 {
            return None;
        }
        self.decode_next()
    }

    /// Whether enough bytes have arrived for a decode attempt to return at
    /// once: the boot code polls this before calling the blocking decode.
    pub fn read_char_ready(&self) -> (r: bool)
        ensures
            r == (self.rx().len() >= 1 && self.rx().len() >= spec_utf8_consumed(self.rx())),
    {
        let rx = &self.inner.get().rx;
        let n = rx.len();
        if n == 0 {
            return false;
        }
        let b0 = rx[0];
        if b0 < 0x80 {
            return true;
        }
        if !(b0 >= 0xC0 && b0 < 0xF8) {
            return n >= 4;
        }
        let w: usize = if b0 < 0xE0 {
            2
        } else if b0 < 0xF0 {
            3
        } else {
            4
        };
        if n < w {
            // the incomplete prefix is not yet well formed, and the four
            // bytes of a failed attempt are not there either
            return false;
        }
        proof {
            assert(self.rx().take(w as int)[0] == self.rx()[0]);
            if w >= 2 {
                assert(self.rx().take(w as int)[1] == self.rx()[1]);
            }
            if w >= 3 {
                assert(self.rx().take(w as int)[2] == self.rx()[2]);
            }
            if w >= 4 {
                assert(self.rx().take(w as int)[3] == self.rx()[3]);
            }
        }
        let valid: bool = if w == 2 {
            let b1 = rx[1];
            let cp = (((b0 & 0x1F) as u32) << 6) | ((b1 & 0x3F) as u32);
            proof {
                assert((((b0 & 0x1F) as u32) << 6) | ((b1 & 0x3F) as u32) < 0xD800)
                    by (bit_vector);
            }
            b1 >= 0x80 && b1 < 0xC0 && cp >= 0x80
        } else if w == 3 {
            let b1 = rx[1];
            let b2 = rx[2];
            let cp = ((((b0 & 0x0F) as u32) << 12) | (((b1 & 0x3F) as u32) << 6)) | ((b2
                & 0x3F) as u32);
            b1 >= 0x80 && b1 < 0xC0 && b2 >= 0x80 && b2 < 0xC0 && cp >= 0x800
                && char::from_u32(cp).is_some()
        } else {
            let b1 = rx[1];
            let b2 = rx[2];
            let b3 = rx[3];
            let cp = (((((b0 & 0x07) as u32) << 18) | (((b1 & 0x3F) as u32) << 12)) | (((b2
                & 0x3F) as u32) << 6)) | ((b3 & 0x3F) as u32);
            b1 >= 0x80 && b1 < 0xC0 && b2 >= 0x80 && b2 < 0xC0 && b3 >= 0x80 && b3 < 0xC0
                && cp >= 0x10000 && char::from_u32(cp).is_some()
        };
        if valid {
            proof {
                assert(spec_valid_utf8_prefix(self.rx()));
            }
            true
        } else {
            proof {
                assert(!spec_valid_utf8_prefix(self.rx()));
            }
            n >= 4
        }
    }

    /// Model input: a byte arrives on the wire.
    pub fn receive_byte(&mut self, b: u8)
        ensures
            final(self).rx() == old(self).rx().push(b),
            final(self).tx() == old(self).tx(),
            final(self).regs() == old(self).regs(),
    {
        self.inner.data.receive(b);
    }

    /// The log of every byte transmitted so far.
    pub fn transmitted(&self) -> (r: &Vec<u8>)
        ensures
            r@ == self.tx(),
    {
        &self.inner.get().tx
    }
}

impl Driver for UARTDriver {
    open spec fn ready(&self) -> bool {
        self.wf()
    }

    /// Initialization programs the configuration registers and touches
    /// nothing else.
    open spec fn init_done(&self, pre: &Self) -> bool {
        &&& self.wf()
        &&& self.regs().base == pre.regs().base
        &&& self.regs().regs@ == crate::uart::spec_uart_init_regs(pre.regs().regs@)
        &&& self.rx() == pre.rx()
        &&& self.tx() == pre.tx()
    }

    /// Program the UART's registers.
    fn init(&mut self) -> (r: Result<(), &'static str>) {
        self.inner.data.init();
        Ok(())
    }
}

impl LogWrite for UARTDriver {
    fn write_str(&mut self, s: &str) {
        UARTDriver::write_str(self, s)
    }
}

} // verus!
