//! The buffered logger: accumulates message text and hands complete lines
//! to a byte sink once one is attached.

use vstd::prelude::*;

use crate::sync::NullLock;

verus! {

/// How big the line buffer is, in characters.
pub const BUF_SIZE: usize = 1024;

/// Message severity.
#[derive(Clone, Copy, Debug, PartialEq, Eq, Structural)]
pub enum LogLevel {
    Info,
    Warn,
    Error,
}

impl LogLevel {
    /// The label a log line carries.
    pub open spec fn spec_label(self) -> Seq<char> {
        match self {
            LogLevel::Info => "Info"@,
            LogLevel::Warn => "Warn"@,
            LogLevel::Error => "Error"@,
        }
    }

    pub fn as_str(&self) -> (r: &'static str)
        ensures
            r@ == self.spec_label(),
    {
        match self {
            LogLevel::Info => "Info",
            LogLevel::Warn => "Warn",
            LogLevel::Error => "Error",
        }
    }
}

/// Where flushed log text goes; the UART driver is the one sink the kernel
/// uses.
pub trait LogWrite {
    fn write_str(&mut self, s: &str);
}

/// The logger's state: buffered text not yet handed on, the sink once one
/// is attached, and the record of everything handed to the sink. Text
/// written before a sink is attached waits in the buffer; a full buffer
/// with no sink is discarded, as the boot sequence accepts losing early
/// lines rather than blocking.
pub struct BufLoggerInner<W: LogWrite> {
    pub buf: String,
    pub writer: Option<W>,
    pub flushed: Ghost<Seq<char>>,
}

impl<W: LogWrite> BufLoggerInner<W> {
    pub open spec fn wf(self) -> bool {
        self.buf@.len() <= BUF_SIZE
    }

    /// Every character accepted and not discarded: what went to the sink,
    /// then what still waits.
    pub open spec fn total(self) -> Seq<char> {
        self.flushed@ + self.buf@
    }

    pub fn new() -> (r: Self)
        ensures
            r.wf(),
            r.buf@.len() == 0,
            r.writer is None,
            r.flushed@.len() == 0,
    {
        Self { buf: String::new(), writer: Option::None, flushed: Ghost(Seq::empty()) }
    }

    /// Hand the whole buffer to the sink; without a sink the buffer is
    /// discarded.
    pub fn flush(&mut self)
        requires
            old(self).wf(),
        ensures
            final(self).wf(),
            final(self).buf@.len() == 0,
            (final(self).writer is Some) == (old(self).writer is Some),
            old(self).writer is Some ==> final(self).flushed@ == old(self).flushed@ + old(
                self,
            ).buf@,
            old(self).writer is None ==> final(self).flushed@ == old(self).flushed@,
    {
        match &mut self.writer {
            Option::None => {},
            Some(w) => {
                w.write_str(self.buf.as_str());
                proof {
                    self.flushed@ = self.flushed@ + self.buf@;
                }
            },
        }
        self.buf = String::new();
    }

    /// Flush a full buffer whole; otherwise hand on everything through the
    /// last complete line, keeping the partial line buffered.
    pub fn check_and_flush(&mut self)
        requires
            old(self).wf(),
        ensures
            final(self).wf(),
            final(self).buf@.len() <= old(self).buf@.len(),
            (final(self).writer is Some) == (old(self).writer is Some),
            old(self).writer is Some ==> final(self).total() == old(self).total(),
            old(self).writer is None ==> final(self).flushed@ == old(self).flushed@,
            old(self).writer is None && old(self).buf@.len() < BUF_SIZE ==> final(self).buf@
                == old(self).buf@,
    {
        let len = self.buf.as_str().unicode_len();
        if len == BUF_SIZE {
            self.flush();
            return ;
        }
        let mut found = false;
        let mut nl: usize = 0;
        let mut i: usize = 0;
        while i < len
            invariant
                i <= len,
                len == self.buf@.len(),
                found ==> nl < i && self.buf@[nl as int] == '\n',
                !found ==> forall|j: int| 0 <= j < i ==> self.buf@[j] != '\n',
            decreases len - i,
        {
            if self.buf.as_str().get_char(i) == '\n' {
                found = true;
                nl = i;
            }
            i = i + 1;
        }
        if found {
            if self.writer.is_some() {
                let head = self.buf.as_str().substring_char(0, nl + 1).to_owned();
                let tail = self.buf.as_str().substring_char(nl + 1, len).to_owned();
                match &mut self.writer {
                    Option::None => {},
                    Some(w) => {
                        w.write_str(head.as_str());
                        proof {
                            self.flushed@ = self.flushed@ + head@;
                        }
                    },
                }
                self.buf = tail;
                proof {
                    assert(old(self).flushed@ + (head@ + tail@) =~= (old(self).flushed@ + head@)
                        + tail@);
                    assert(head@ + tail@ =~= old(self).buf@);
                }
            }
        }
    }

    /// Buffer the text, flushing as the buffer fills and after each
    /// complete line. With a sink attached no character is lost.
    pub fn write_buf(&mut self, s: &str)
        requires
            old(self).wf(),
        ensures
            final(self).wf(),
            (final(self).writer is Some) == (old(self).writer is Some),
            old(self).writer is Some ==> final(self).total() == old(self).total() + s@,
    {
        let slen = s.unicode_len();
        let mut pos: usize = 0;
        while pos < slen
            invariant
                pos <= slen,
                slen == s@.len(),
                self.wf(),
                (self.writer is Some) == (old(self).writer is Some),
                old(self).writer is Some ==> self.total() == old(self).total() + s@.subrange(
                    0,
                    pos as int,
                ),
            decreases slen - pos,
        {
            if self.buf.as_str().unicode_len() == BUF_SIZE {
                self.flush();
            }
            let free = BUF_SIZE - self.buf.as_str().unicode_len();
            let remaining = slen - pos;
            let take = if free < remaining {
                free
            } else {
                remaining
            };
            let piece = s.substring_char(pos, pos + take);
            self.buf.append(piece);
            proof {
                if old(self).writer is Some {
                    assert((old(self).total() + s@.subrange(0, pos as int)) + s@.subrange(
                        pos as int,
                        pos + take,
                    ) =~= old(self).total() + s@.subrange(0, pos + take));
                }
            }
            pos = pos + take;
            self.check_and_flush();
        }
        proof {
            assert(s@.subrange(0, slen as int) =~= s@);
        }
    }
}

/// The boot sequence's buffered logger.
pub struct BufLogger<W: LogWrite> {
    pub inner: NullLock<BufLoggerInner<W>>,
}

impl<W: LogWrite> BufLogger<W> {
    pub open spec fn wf(self) -> bool {
        self.inner.data.wf()
    }

    pub open spec fn total(self) -> Seq<char> {
        self.inner.data.total()
    }

    /// What still waits in the buffer.
    pub open spec fn buffered(self) -> Seq<char> {
        self.inner.data.buf@
    }

    /// What has been handed to the sink.
    pub open spec fn delivered(self) -> Seq<char> {
        self.inner.data.flushed@
    }

    pub open spec fn has_writer(self) -> bool {
        self.inner.data.writer is Some
    }

    pub fn new() -> (r: Self)
        ensures
            r.wf(),
            !r.has_writer(),
            r.total().len() == 0,
    {
        Self { inner: NullLock::new(BufLoggerInner::new()) }
    }

    /// Attach the sink that flushed text goes to. Nothing is delivered by
    /// the call itself: what was buffered stays buffered for the next
    /// flush, and the record of what already reached a sink is unchanged.
    pub fn set_writer(&mut self, w: W)
        requires
            old(self).wf(),
        ensures
            final(self).wf(),
            final(self).has_writer(),
            final(self).buffered() == old(self).buffered(),
            final(self).delivered() == old(self).delivered(),
    {
        self.inner.data.writer = Some(w);
    }

    /// Log one line: the severity label, a separating colon, the message,
    /// and a newline.
    pub fn log(&mut self, level: LogLevel, msg: &str)
        requires
            old(self).wf(),
        ensures
            final(self).wf(),
            final(self).has_writer() == old(self).has_writer(),
            old(self).has_writer() ==> final(self).total() == old(self).total()
                + level.spec_label() + ": "@ + msg@ + "\n"@,
    {
        self.inner.data.write_buf(level.as_str());
        self.inner.data.write_buf(": ");
        self.inner.data.write_buf(msg);
        self.inner.data.write_buf("\n");
        proof {
            if old(self).has_writer() {
                assert(((old(self).total() + level.spec_label() + ": "@) + msg@) + "\n"@
                    =~= old(self).total() + level.spec_label() + ": "@ + msg@ + "\n"@);
            }
        }
    }

    /// Buffer raw text.
    pub fn write(&mut self, s: &str)
        requires
            old(self).wf(),
        ensures
            final(self).wf(),
            final(self).has_writer() == old(self).has_writer(),
            old(self).has_writer() ==> final(self).total() == old(self).total() + s@,
    {
        self.inner.data.write_buf(s);
    }

    /// The attached sink, for the boot code to reach the device again.
    pub fn writer_ref(&self) -> (r: &Option<W>)
        ensures
            r == &self.inner.data.writer,
    {
        &self.inner.data.writer
    }

    /// Hand everything buffered to the sink: the buffer is empty
    /// afterwards. Without a sink the buffered text is discarded, and the
    /// record of what reached a sink is unchanged.
    pub fn flush(&mut self)
        requires
            old(self).wf(),
        ensures
            final(self).wf(),
            final(self).has_writer() == old(self).has_writer(),
            final(self).buffered().len() == 0,
            old(self).has_writer() ==> final(self).delivered() == old(self).delivered() + old(
                self,
            ).buffered(),
            !old(self).has_writer() ==> final(self).delivered() == old(self).delivered(),
    {
        self.inner.data.flush();
    }
}

} // verus!
