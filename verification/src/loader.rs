//! The chainloader's receive protocol: framed chunks over the UART, either
//! raw bytes or run-length encoded, acknowledged by echoing them back.

use vstd::prelude::*;

use crate::uart::Uart;

verus! {

/// How a chunk's payload encodes the bytes it carries.
#[derive(Clone, Copy, Debug, PartialEq, Eq, Structural)]
pub enum ChunkKind {
    RLE,
    Normal,
}

/// The byte that announces each kind on the wire.
pub open spec fn spec_kind_byte(k: ChunkKind) -> u8 {
    match k {
        ChunkKind::RLE => 82,  // 'R'
        ChunkKind::Normal => 78,  // 'N'
    }
}

impl ChunkKind {
    pub fn from_byte(value: u8) -> (r: Result<Self, &'static str>)
        ensures
            value == 82 ==> r == Ok::<ChunkKind, &'static str>(ChunkKind::RLE),
            value == 78 ==> r == Ok::<ChunkKind, &'static str>(ChunkKind::Normal),
            value != 82 && value != 78 ==> r == Err::<ChunkKind, &'static str>("Unknown kind"),
    {
        if value == 82 {
            Ok(Self::RLE)
        } else if value == 78 {
            Ok(Self::Normal)
        } else {
            Err("Unknown kind")
        }
    }

    pub fn to_byte(self) -> (r: u8)
        ensures
            r == spec_kind_byte(self),
    {
        match self {
            ChunkKind::RLE => 82,
            ChunkKind::Normal => 78,
        }
    }
}

/// The value of four little-endian length bytes.
pub open spec fn spec_le32(b: Seq<u8>) -> int {
    b[0] + b[1] * 0x100 + b[2] * 0x1_0000 + b[3] * 0x100_0000
}

/// A 32-bit length as its four little-endian bytes.
pub open spec fn spec_le_bytes(n: u32) -> Seq<u8> {
    seq![
        (n % 0x100) as u8,
        ((n / 0x100) % 0x100) as u8,
        ((n / 0x1_0000) % 0x100) as u8,
        ((n / 0x100_0000) % 0x100) as u8,
    ]
}

/// What a run-length-encoded payload expands to: each pair is a count and a
/// byte; a trailing odd byte carries nothing.
pub open spec fn spec_rle_decoded(data: Seq<u8>) -> Seq<u8>
    decreases data.len(),
{
    if data.len() < 2 {
        Seq::empty()
    } else {
        Seq::new(data[0] as nat, |i: int| data[1]) + spec_rle_decoded(data.skip(2))
    }
}

/// One framed chunk: its encoding and its payload as received.
pub struct Chunk {
    pub kind: ChunkKind,
    pub data: Vec<u8>,
}

/// The bytes a chunk stands for.
pub open spec fn spec_chunk_decoded(c: Chunk) -> Seq<u8> {
    match c.kind {
        ChunkKind::Normal => c.data@,
        ChunkKind::RLE => spec_rle_decoded(c.data@),
    }
}

impl Chunk {
    /// Read a chunk header from the UART: a kind byte, then four
    /// little-endian length bytes; the payload buffer starts zeroed. The
    /// declared length must fit the caller's buffer, as it does on the
    /// wire protocol this loader speaks.
    pub fn from_uart(u: &mut Uart, max_len: usize) -> (r: Result<Self, &'static str>)
        requires
            old(u).i.rx@.len() >= 1,
            (old(u).i.rx@[0] == 82 || old(u).i.rx@[0] == 78) ==> old(u).i.rx@.len() >= 5
                && spec_le32(old(u).i.rx@.subrange(1, 5)) <= max_len,
        ensures
            final(u).i.tx == old(u).i.tx,
            final(u).i.regs == old(u).i.regs,
            old(u).i.rx@[0] != 82 && old(u).i.rx@[0] != 78 ==> r is Err && final(u).i.rx@ == old(
                u,
            ).i.rx@.skip(1),
            (old(u).i.rx@[0] == 82 || old(u).i.rx@[0] == 78) ==> {
                &&& final(u).i.rx@ == old(u).i.rx@.skip(5)
                &&& r matches Ok(c) && c.kind == (if old(u).i.rx@[0] == 82 {
                    ChunkKind::RLE
                } else {
                    ChunkKind::Normal
                }) && c.data@.len() == spec_le32(old(u).i.rx@.subrange(1, 5)) && (forall|j: int|
                    0 <= j < c.data@.len() ==> c.data@[j] == 0)
            },
    {
        let ghost rx0 = old(u).i.rx@;
        let kind_byte = u.read_blocking();
        let kind = match ChunkKind::from_byte(kind_byte) {
            Ok(k) => k,
            Err(e) => {
                return Err(e);
            },
        };
        let b0 = u.read_blocking();
        let b1 = u.read_blocking();
        let b2 = u.read_blocking();
        let b3 = u.read_blocking();
        proof {
            assert(b0 == rx0[1]);
            assert(rx0.skip(1).skip(1) =~= rx0.skip(2));
            assert(b1 == rx0[2]);
            assert(rx0.skip(2).skip(1) =~= rx0.skip(3));
            assert(b2 == rx0[3]);
            assert(rx0.skip(3).skip(1) =~= rx0.skip(4));
            assert(b3 == rx0[4]);
            assert(rx0.skip(4).skip(1) =~= rx0.skip(5));
        }
        let len: u32 = (b0 as u32) + (b1 as u32) * 0x100 + (b2 as u32) * 0x1_0000 + (b3
            as u32) * 0x100_0000;
        proof {
            assert(rx0.subrange(1, 5)[0] == rx0[1]);
            assert(rx0.subrange(1, 5)[1] == rx0[2]);
            assert(rx0.subrange(1, 5)[2] == rx0[3]);
            assert(rx0.subrange(1, 5)[3] == rx0[4]);
        }
        let len = len as usize;

        let mut data: Vec<u8> = Vec::new();
        let mut i: usize = 0;
        while i < len
            invariant
                i <= len,
                data@.len() == i,
                forall|j: int| 0 <= j < i ==> data@[j] == 0,
            decreases len - i,
        {
            data.push(0);
            i = i + 1;
        }

        Ok(Self { kind, data })
    }

    /// Fill the payload from the UART, one byte per slot.
    pub fn read_data(&mut self, u: &mut Uart)
        requires
            old(u).i.rx@.len() >= old(self).data@.len(),
        ensures
            final(self).kind == old(self).kind,
            final(self).data@ == old(u).i.rx@.subrange(0, old(self).data@.len() as int),
            final(u).i.rx@ == old(u).i.rx@.skip(old(self).data@.len() as int),
            final(u).i.tx == old(u).i.tx,
            final(u).i.regs == old(u).i.regs,
    {
        let ghost rx0 = old(u).i.rx@;
        let len = self.data.len();
        let mut i: usize = 0;
        while i < len
            invariant
                i <= len,
                len == self.data@.len(),
                rx0.len() >= len,
                self.kind == old(self).kind,
                u.i.rx@ == rx0.skip(i as int),
                u.i.tx == old(u).i.tx,
                u.i.regs == old(u).i.regs,
                forall|j: int| 0 <= j < i ==> self.data@[j] == rx0[j],
                forall|j: int| i <= j < len ==> self.data@[j] == old(self).data@[j],
            decreases len - i,
        {
            let b = u.read_blocking();
            proof {
                assert(b == rx0[i as int]);
                assert(rx0.skip(i as int).skip(1) =~= rx0.skip(i + 1));
            }
            self.data[i] = b;
            i = i + 1;
        }
        proof {
            assert(self.data@ =~= rx0.subrange(0, len as int));
        }
    }

    /// Echo the chunk back for verification: kind byte, length bytes, then
    /// the payload; the sender answers one byte, acknowledging with 'G'.
    pub fn verify_data(&self, u: &mut Uart) -> (r: bool)
        requires
            old(u).i.rx@.len() >= 1,
            self.data@.len() <= u32::MAX,
        ensures
            final(u).i.tx@ == old(u).i.tx@ + seq![spec_kind_byte(self.kind)] + spec_le_bytes(
                self.data@.len() as u32,
            ) + self.data@,
            final(u).i.rx@ == old(u).i.rx@.skip(1),
            final(u).i.regs == old(u).i.regs,
            r == (old(u).i.rx@[0] == 71),
    {
        u.write(self.kind.to_byte());

        let n = self.data.len() as u32;
        let mut le: Vec<u8> = Vec::new();
        le.push((n % 0x100) as u8);
        le.push(((n / 0x100) % 0x100) as u8);
        le.push(((n / 0x1_0000) % 0x100) as u8);
        le.push(((n / 0x100_0000) % 0x100) as u8);
        proof {
            assert(le@ =~= spec_le_bytes(n));
        }
        u.write_slice(le.as_slice());

        u.write_slice(self.data.as_slice());

        let g = u.read_blocking();
        proof {
            assert(old(u).i.tx@.push(spec_kind_byte(self.kind)) + spec_le_bytes(n) + self.data@
                =~= old(u).i.tx@ + seq![spec_kind_byte(self.kind)] + spec_le_bytes(n)
                + self.data@);
        }
        g == 71
    }

    /// Expand the chunk into `out` at `start`: a normal chunk is copied, a
    /// run-length-encoded one is expanded pair by pair. Returns how many
    /// bytes were written.
    pub fn write(&self, out: &mut Vec<u8>, start: usize) -> (cnt: usize)
        requires
            start + spec_chunk_decoded(*self).len() <= old(out).len(),
        ensures
            cnt == spec_chunk_decoded(*self).len(),
            final(out)@.len() == old(out)@.len(),
            forall|j: int| 0 <= j < start ==> final(out)@[j] == old(out)@[j],
            forall|j: int|
                0 <= j < cnt ==> final(out)@[start + j] == spec_chunk_decoded(*self)[j],
            forall|j: int|
                start + cnt <= j < final(out)@.len() ==> final(out)@[j] == old(out)@[j],
    {
        let out_len = out.len();
        match self.kind {
            ChunkKind::Normal => {
                let len = self.data.len();
                let mut k: usize = 0;
                while k < len
                    invariant
                        k <= len,
                        len == self.data@.len(),
                        out_len == out@.len(),
                        start + len <= out@.len(),
                        out@.len() == old(out)@.len(),
                        forall|j: int| 0 <= j < start ==> out@[j] == old(out)@[j],
                        forall|j: int| 0 <= j < k ==> out@[start + j] == self.data@[j],
                        forall|j: int| start + k <= j < out@.len() ==> out@[j] == old(out)@[j],
                    decreases len - k,
                {
                    out[start + k] = self.data[k];
                    k = k + 1;
                }
                len
            },
            ChunkKind::RLE => {
                let ghost dec = spec_rle_decoded(self.data@);
                let len = self.data.len();
                let mut i: usize = 0;
                let mut written: usize = 0;
                proof {
                    assert(self.data@.skip(0) =~= self.data@);
                }
                while len - i >= 2
                    invariant
                        i <= len,
                        len == self.data@.len(),
                        i % 2 == 0,
                        out_len == out@.len(),
                        start + dec.len() <= out@.len(),
                        written + spec_rle_decoded(self.data@.skip(i as int)).len() == dec.len(),
                        spec_rle_decoded(self.data@.skip(i as int)) == dec.skip(written as int),
                        out@.len() == old(out)@.len(),
                        forall|j: int| 0 <= j < start ==> out@[j] == old(out)@[j],
                        forall|j: int| 0 <= j < written ==> out@[start + j] == dec[j],
                        forall|j: int|
                            start + written <= j < out@.len() ==> out@[j] == old(out)@[j],
                    decreases len - i,
                {
                    let cnt = self.data[i] as usize;
                    let val = self.data[i + 1];
                    let ghost rest = spec_rle_decoded(self.data@.skip(i + 2));
                    proof {
                        assert(self.data@.skip(i as int)[0] == self.data@[i as int]);
                        assert(self.data@.skip(i as int)[1] == self.data@[i + 1]);
                        assert(self.data@.skip(i as int).skip(2) =~= self.data@.skip(i + 2));
                        assert(spec_rle_decoded(self.data@.skip(i as int)) == Seq::new(
                            cnt as nat,
                            |q: int| val,
                        ) + rest);
                    }
                    let mut k: usize = 0;
                    while k < cnt
                        invariant
                            k <= cnt,
                            out_len == out@.len(),
                            start + dec.len() <= out@.len(),
                            written + cnt + rest.len() == dec.len(),
                            dec.skip(written as int) == Seq::new(cnt as nat, |q: int| val)
                                + rest,
                            out@.len() == old(out)@.len(),
                            forall|j: int| 0 <= j < start ==> out@[j] == old(out)@[j],
                            forall|j: int| 0 <= j < written ==> out@[start + j] == dec[j],
                            forall|j: int| 0 <= j < k ==> #[trigger] out@[start + written + j] == val,
                            forall|j: int|
                                start + written + k <= j < out@.len() ==> out@[j] == old(
                                    out,
                                )@[j],
                        decreases cnt - k,
                    {
                        out[start + written + k] = val;
                        k = k + 1;
                    }
                    proof {
                        assert forall|j: int| 0 <= j < written + cnt implies out@[start + j]
                            == dec[j] by {
                            if j >= written {
                                assert(dec[j] == dec.skip(written as int)[j - written]);
                                assert(dec.skip(written as int)[j - written] == val);
                                assert(out@[start + written + (j - written)] == val);
                                assert(start + written + (j - written) == start + j);
                            }
                        }
                        assert(dec.skip(written as int).skip(cnt as int) =~= dec.skip(
                            written + cnt,
                        ));
                        assert((Seq::new(cnt as nat, |q: int| val) + rest).skip(cnt as int)
                            =~= rest);
                    }
                    written = written + cnt;
                    i = i + 2;
                }
                proof {
                    assert(spec_rle_decoded(self.data@.skip(i as int)) =~= Seq::empty());
                }
                written
            },
        }
    }
}

} // verus!
