//! The bank decompressor: an LZ-style decoder that reads the packed stream
//! backwards from its tail and fills the output backwards from its end.
//! The tail holds three big-endian words: the count of bytes to produce,
//! the checksum, and the first bit register. Every refill word is folded
//! into the checksum; a stream is accepted only if the checksum register
//! ends at zero.

use vstd::prelude::*;

use crate::error::Error;

verus! {

/// Big-endian 32-bit word at an offset of a buffer.
pub open spec fn be_u32(m: Seq<u8>, a: int) -> u32 {
    ((m[a] as u32) * 0x1000000 + (m[a + 1] as u32) * 0x10000 + (m[a + 2] as u32) * 0x100 + (m[a
        + 3] as u32)) as u32
}

/// Two to the given power.
spec fn p2(n: nat) -> nat
    decreases n,
{
    if n == 0 {
        1nat
    } else {
        2 * p2((n - 1) as nat)
    }
}

proof fn lemma_p2_mono(a: nat, b: nat)
    requires
        a <= b,
    ensures
        p2(a) <= p2(b),
    decreases b,
{
    if a < b {
        lemma_p2_mono(a, (b - 1) as nat);
    }
}


/// The decoder's state, abstracted: the checksum and bit registers, the
/// signed count of bytes still owed, the run-length register, the output
/// with its backward write cursor, and the packed-stream cursor.
pub struct DecState {
    pub crc: u32,
    pub check: u32,
    pub data_size: int,
    pub size: u16,
    pub out: Seq<u8>,
    pub ocur: int,
    pub icur: int,
}

/// One bit drawn from the register, with the refill rule: when the
/// register empties, the next reverse word is folded into the checksum and
/// its lowest bit is drawn, the rest entering below a fresh top bit.
pub open spec fn sp_chunk(inp: Seq<u8>, s: DecState) -> Option<(DecState, bool)> {
    if s.check >> 1 != 0 {
        Some(((DecState { check: s.check >> 1, ..s }), s.check & 1 == 1))
    } else if s.icur >= 4 {
        let w = be_u32(inp, s.icur - 4);
        Some(
            (
                (DecState {
                    check: (w >> 1) | 0x80000000u32,
                    crc: s.crc ^ w,
                    icur: s.icur - 4,
                    ..s
                }),
                w & 1 == 1,
            ),
        )
    } else {
        None
    }
}

/// A code of `n` bits drawn from the chunk stream, high bit first, onto an
/// accumulator.
pub open spec fn sp_code_acc(inp: Seq<u8>, s: DecState, n: nat, acc: u16) -> Option<(DecState, u16)>
    decreases n,
{
    if n == 0 {
        Some((s, acc))
    } else {
        match sp_chunk(inp, s) {
            None => None,
            Some((s2, b)) => sp_code_acc(
                inp,
                s2,
                (n - 1) as nat,
                (acc * 2 + (if b {
                    1int
                } else {
                    0int
                })) as u16,
            ),
        }
    }
}

/// A code of `n` bits drawn from the chunk stream, high bit first.
pub open spec fn sp_code(inp: Seq<u8>, s: DecState, n: nat) -> Option<(DecState, u16)> {
    sp_code_acc(inp, s, n, 0)
}

/// A literal run: `count` bytes drawn from the chunk stream, written
/// backwards.
pub open spec fn sp_lit(inp: Seq<u8>, s: DecState, count: nat) -> Option<DecState>
    decreases count,
{
    if count == 0 {
        Some(s)
    } else {
        match sp_code(inp, s, 8) {
            None => None,
            Some((s2, v)) => if 1 <= s2.ocur <= s2.out.len() {
                sp_lit(
                    inp,
                    (DecState {
                        out: s2.out.update(s2.ocur - 1, v as u8),
                        ocur: s2.ocur - 1,
                        ..s2
                    }),
                    (count - 1) as nat,
                )
            } else {
                None
            },
        }
    }
}

/// A back-reference: `count` bytes, each read `dist` bytes ahead of the
/// write position, written backwards.
pub open spec fn sp_ref(s: DecState, count: nat, dist: int) -> Option<DecState>
    decreases count,
{
    if count == 0 {
        Some(s)
    } else {
        if 1 <= s.ocur <= s.out.len() && 0 <= s.ocur - 1 + dist < s.out.len() {
            sp_ref(
                (DecState {
                    out: s.out.update(s.ocur - 1, s.out[s.ocur - 1 + dist]),
                    ocur: s.ocur - 1,
                    ..s
                }),
                (count - 1) as nat,
                dist,
            )
        } else {
            None
        }
    }
}

/// A literal-run step: an `n`-bit length code plus the fixed addend, then
/// that many literal bytes, all charged against the byte budget.
pub open spec fn sp_unk1(inp: Seq<u8>, s: DecState, n: nat, add: nat) -> Option<DecState> {
    match sp_code(inp, s, n) {
        None => None,
        Some((s2, code)) => sp_lit(
            inp,
            (DecState { data_size: s2.data_size - (code + add + 1), ..s2 }),
            (code + add + 1) as nat,
        ),
    }
}

/// A back-reference step: an `n`-bit distance code, then `size + 1` copied
/// bytes, all charged against the byte budget.
pub open spec fn sp_unk2(inp: Seq<u8>, s: DecState, n: nat) -> Option<DecState> {
    match sp_code(inp, s, n) {
        None => None,
        Some((s2, dist)) => sp_ref(
            (DecState { data_size: s2.data_size - (s2.size + 1), ..s2 }),
            (s2.size + 1) as nat,
            dist as int,
        ),
    }
}

/// One step of the main loop: a bit chooses between a literal run and a
/// back-reference, with the longer encodings behind a two-bit code.
pub open spec fn sp_pass(inp: Seq<u8>, s: DecState) -> Option<DecState> {
    match sp_chunk(inp, s) {
        None => None,
        Some((s1, a)) => if !a {
            let s1b = DecState { size: 1, ..s1 };
            match sp_chunk(inp, s1b) {
                None => None,
                Some((s2, b)) => if !b {
                    sp_unk1(inp, s2, 3, 0)
                } else {
                    sp_unk2(inp, s2, 8)
                },
            }
        } else {
            match sp_code(inp, s1, 2) {
                None => None,
                Some((s2, c)) => if c == 3 {
                    sp_unk1(inp, s2, 8, 8)
                } else if c < 2 {
                    sp_unk2(inp, (DecState { size: (c + 2) as u16, ..s2 }), (c + 9) as nat)
                } else {
                    match sp_code(inp, s2, 8) {
                        None => None,
                        Some((s3, sz)) => sp_unk2(inp, (DecState { size: sz, ..s3 }), 12),
                    }
                },
            }
        },
    }
}


/// Drawing a code leaves the output, its cursor, the byte budget and the
/// run register untouched.
proof fn lemma_sp_code_frame(inp: Seq<u8>, s: DecState, n: nat, acc: u16)
    ensures
        match sp_code_acc(inp, s, n, acc) {
            Some((s2, _)) => s2.data_size == s.data_size && s2.out == s.out && s2.ocur == s.ocur
                && s2.size == s.size,
            None => true,
        },
    decreases n,
{
    if n != 0 {
        match sp_chunk(inp, s) {
            None => {},
            Some((s2, b)) => {
                lemma_sp_code_frame(
                    inp,
                    s2,
                    (n - 1) as nat,
                    (acc * 2 + (if b {
                        1int
                    } else {
                        0int
                    })) as u16,
                );
            },
        }
    }
}

/// A literal run leaves the byte budget and the output length untouched.
proof fn lemma_sp_lit_frame(inp: Seq<u8>, s: DecState, count: nat)
    ensures
        match sp_lit(inp, s, count) {
            Some(s2) => s2.data_size == s.data_size && s2.out.len() == s.out.len(),
            None => true,
        },
    decreases count,
{
    if count != 0 {
        lemma_sp_code_frame(inp, s, 8, 0);
        match sp_code(inp, s, 8) {
            None => {},
            Some((s2, v)) => {
                if 1 <= s2.ocur <= s2.out.len() {
                    let su = DecState {
                        out: s2.out.update(s2.ocur - 1, v as u8),
                        ocur: s2.ocur - 1,
                        ..s2
                    };
                    lemma_sp_lit_frame(inp, su, (count - 1) as nat);
                    assert(sp_lit(inp, s, count) == sp_lit(inp, su, (count - 1) as nat));
                    assert(su.out.len() == s.out.len());
                    assert(su.data_size == s.data_size);
                } else {
                    assert(sp_lit(inp, s, count) is None);
                }
            },
        }
    }
}

/// A back-reference leaves the byte budget and the output length untouched.
proof fn lemma_sp_ref_frame(s: DecState, count: nat, dist: int)
    ensures
        match sp_ref(s, count, dist) {
            Some(s2) => s2.data_size == s.data_size && s2.out.len() == s.out.len(),
            None => true,
        },
    decreases count,
{
    if count != 0 {
        if 1 <= s.ocur <= s.out.len() && 0 <= s.ocur - 1 + dist < s.out.len() {
            let su = DecState {
                out: s.out.update(s.ocur - 1, s.out[s.ocur - 1 + dist]),
                ocur: s.ocur - 1,
                ..s
            };
            lemma_sp_ref_frame(su, (count - 1) as nat, dist);
            assert(sp_ref(s, count, dist) == sp_ref(su, (count - 1) as nat, dist));
            assert(su.out.len() == s.out.len());
        } else {
            assert(sp_ref(s, count, dist) is None);
        }
    }
}

/// Every pass sinks the byte budget by at least one and keeps the output
/// length.
proof fn lemma_sp_pass_ds(inp: Seq<u8>, s: DecState)
    ensures
        match sp_pass(inp, s) {
            Some(s2) => s2.data_size <= s.data_size - 1 && s2.out.len() == s.out.len(),
            None => true,
        },
{
    match sp_chunk(inp, s) {
        None => {},
        Some((s1, a)) => {
            if !a {
                let s1b = DecState { size: 1, ..s1 };
                match sp_chunk(inp, s1b) {
                    None => {},
                    Some((s2, b)) => {
                        if !b {
                            lemma_sp_unk1_ds(inp, s2, 3, 0);
                        } else {
                            lemma_sp_unk2_ds(inp, s2, 8);
                        }
                    },
                }
            } else {
                match sp_code(inp, s1, 2) {
                    None => {},
                    Some((s2, c)) => {
                        lemma_sp_code_frame(inp, s1, 2, 0);
                        if c == 3 {
                            lemma_sp_unk1_ds(inp, s2, 8, 8);
                        } else if c < 2 {
                            lemma_sp_unk2_ds(inp, (DecState { size: (c + 2) as u16, ..s2 }), (c + 9) as nat);
                        } else {
                            match sp_code(inp, s2, 8) {
                                None => {},
                                Some((s3, sz)) => {
                                    lemma_sp_code_frame(inp, s2, 8, 0);
                                    lemma_sp_unk2_ds(inp, (DecState { size: sz, ..s3 }), 12);
                                },
                            }
                        }
                    },
                }
            }
        },
    }
}

proof fn lemma_sp_unk1_ds(inp: Seq<u8>, s: DecState, n: nat, add: nat)
    ensures
        match sp_unk1(inp, s, n, add) {
            Some(s2) => s2.data_size <= s.data_size - 1 && s2.out.len() == s.out.len(),
            None => true,
        },
{
    lemma_sp_code_frame(inp, s, n, 0);
    match sp_code(inp, s, n) {
        None => {},
        Some((s2, code)) => {
            lemma_sp_lit_frame(
                inp,
                (DecState { data_size: s2.data_size - (code + add + 1), ..s2 }),
                (code + add + 1) as nat,
            );
        },
    }
}

proof fn lemma_sp_unk2_ds(inp: Seq<u8>, s: DecState, n: nat)
    ensures
        match sp_unk2(inp, s, n) {
            Some(s2) => s2.data_size <= s.data_size - 1 && s2.out.len() == s.out.len(),
            None => true,
        },
{
    lemma_sp_code_frame(inp, s, n, 0);
    match sp_code(inp, s, n) {
        None => {},
        Some((s2, dist)) => {
            lemma_sp_ref_frame(
                (DecState { data_size: s2.data_size - (s2.size + 1), ..s2 }),
                (s2.size + 1) as nat,
                dist as int,
            );
        },
    }
}

/// The main loop: passes run until the byte budget is spent. The fuel only
/// bounds the recursion; any fuel at least the budget gives the same
/// answer.
pub open spec fn sp_run(inp: Seq<u8>, s: DecState, fuel: nat) -> Option<DecState>
    decreases fuel,
{
    if s.data_size <= 0 {
        Some(s)
    } else if fuel == 0 {
        None
    } else {
        match sp_pass(inp, s) {
            None => None,
            Some(s2) => sp_run(inp, s2, (fuel - 1) as nat),
        }
    }
}

/// Fuel enough to cover the byte budget.
pub open spec fn fuel_of(s: DecState) -> nat {
    if s.data_size > 0 {
        s.data_size as nat
    } else {
        0nat
    }
}

/// The run is insensitive to the exact fuel, as long as it covers the
/// byte budget.
pub proof fn lemma_sp_run_fuel(inp: Seq<u8>, s: DecState, f1: nat, f2: nat)
    requires
        f1 >= s.data_size,
        f2 >= s.data_size,
    ensures
        sp_run(inp, s, f1) == sp_run(inp, s, f2),
    decreases f1,
{
    if s.data_size <= 0 {
    } else {
        match sp_pass(inp, s) {
            None => {},
            Some(s2) => {
                lemma_sp_pass_ds(inp, s);
                lemma_sp_run_fuel(inp, s2, (f1 - 1) as nat, (f2 - 1) as nat);
            },
        }
    }
}

/// The three tail words: the byte budget (reinterpreted signed), the
/// checksum seeded with the first register word, and that register word.
pub open spec fn sp_header(inp: Seq<u8>, s: DecState) -> Option<DecState> {
    if s.icur >= 12 {
        let ds = be_u32(inp, s.icur - 4) as i32;
        let crcw = be_u32(inp, s.icur - 8);
        let ckw = be_u32(inp, s.icur - 12);
        Some(
            (DecState {
                data_size: ds as int,
                crc: crcw ^ ckw,
                check: ckw,
                icur: s.icur - 12,
                ..s
            }),
        )
    } else {
        None
    }
}

/// The whole decompression, mathematically: the header, one pass, then
/// passes until the byte budget is spent. A stream that runs dry or
/// drives a cursor out of its buffer fails as drained input; a run that
/// completes with a nonzero checksum register fails the checksum.
pub open spec fn sp_decode(inp: Seq<u8>, s: DecState) -> Result<Seq<u8>, Error> {
    match sp_header(inp, s) {
        None => Err(Error::InputBufferDrained),
        Some(s1) => match sp_pass(inp, s1) {
            None => Err(Error::InputBufferDrained),
            Some(s2) => match sp_run(inp, s2, fuel_of(s2)) {
                None => Err(Error::InputBufferDrained),
                Some(s3) => if s3.crc == 0 {
                    Ok(s3.out)
                } else {
                    Err(Error::CrcCheckFailed)
                },
            },
        },
    }
}

/// What unpacking a compressed entry of a given size yields from its
/// packed bytes.
pub open spec fn sp_entry(packed: Seq<u8>, size: u16) -> Result<Seq<u8>, Error> {
    sp_decode(
        packed,
        (DecState {
            crc: 0,
            check: 0,
            data_size: 0,
            size: 0,
            out: Seq::new(size as nat, |i: int| 0u8),
            ocur: size as int,
            icur: packed.len() as int,
        }),
    )
}

impl Decoder {
    /// The decoder's abstract state.
    pub open spec fn st(self) -> DecState {
        DecState {
            crc: self.crc,
            check: self.check,
            data_size: self.data_size as int,
            size: self.size,
            out: self.output@,
            ocur: self.output_cursor as int,
            icur: self.input_cursor as int,
        }
    }
}

/// The decoder's whole state. The output cursor counts the bytes still to
/// be written: the next write lands just below it.
pub struct Decoder {
    pub crc: u32,
    pub check: u32,
    pub data_size: i64,
    pub size: u16,
    pub output: Vec<u8>,
    pub output_cursor: usize,
    pub input: Vec<u8>,
    pub input_cursor: usize,
}

impl Decoder {
    /// Both cursors sit inside their buffers, and the output is no larger
    /// than a 16-bit size can name.
    pub open spec fn wf(self) -> bool {
        &&& self.output_cursor <= self.output@.len()
        &&& self.input_cursor <= self.input@.len()
        &&& self.output@.len() <= 0xffff
        &&& self.size <= 0xff
        &&& -0x100000000 <= self.data_size <= 0x100000000
    }

    /// A decoder over a packed stream, ready to produce `size` bytes.
    pub fn new(size: u16, input: Vec<u8>) -> (r: Decoder)
        ensures
            r.wf(),
            r.output@.len() == size,
            r.output_cursor == size,
            r.input@ == input@,
            r.input_cursor == input@.len(),
            r.crc == 0,
            r.check == 0,
            r.data_size == 0,
            r.size == 0,
            r.output@ == Seq::new(size as nat, |i: int| 0u8),
    {
        let input_cursor = input.len();
        let d = Decoder {
            crc: 0,
            check: 0,
            data_size: 0,
            size: 0,
            output: vec![0u8; size as usize],
            output_cursor: size as usize,
            input,
            input_cursor,
        };
        proof {
            assert(d.output@ =~= Seq::new(size as nat, |i: int| 0u8));
        }
        d
    }

    /// Read the next 32-bit word going backwards through the packed stream.
    fn read_rev_u32(&mut self) -> (r: Result<u32, Error>)
        requires
            old(self).wf(),
        ensures
            final(self).wf(),
            final(self).output@ == old(self).output@,
            final(self).output_cursor == old(self).output_cursor,
            final(self).input@ == old(self).input@,
            final(self).crc == old(self).crc,
            final(self).check == old(self).check,
            final(self).data_size == old(self).data_size,
            final(self).size == old(self).size,
            match r {
                Ok(v) => old(self).input_cursor >= 4 && v == be_u32(
                    old(self).input@,
                    old(self).input_cursor - 4,
                ) && final(self).input_cursor == old(self).input_cursor - 4,
                Err(e) => e == Error::InputBufferDrained && old(self).input_cursor < 4 && final(self).input_cursor == old(self).input_cursor,
            },
    {
        if self.input_cursor < 4 {
            return Err(Error::InputBufferDrained);
        }
        self.input_cursor = self.input_cursor - 4;
        let b0 = self.input[self.input_cursor];
        let b1 = self.input[self.input_cursor + 1];
        let b2 = self.input[self.input_cursor + 2];
        let b3 = self.input[self.input_cursor + 3];
        Ok((b0 as u32) * 0x1000000 + (b1 as u32) * 0x10000 + (b2 as u32) * 0x100 + (b3 as u32))
    }

    /// Shift the bit register right, shifting `cf` in at the top; the bit
    /// shifted out is returned.
    fn rcr(&mut self, cf: bool) -> (r: bool)
        requires
            old(self).wf(),
        ensures
            final(self).wf(),
            r == (old(self).check & 1 == 1),
            final(self).check == (if cf {
                (old(self).check >> 1) | 0x80000000u32
            } else {
                old(self).check >> 1
            }),
            final(self).output@ == old(self).output@,
            final(self).output_cursor == old(self).output_cursor,
            final(self).input@ == old(self).input@,
            final(self).input_cursor == old(self).input_cursor,
            final(self).crc == old(self).crc,
            final(self).data_size == old(self).data_size,
            final(self).size == old(self).size,
    {
        let rcf = (self.check & 1) == 1;
        if cf {
            self.check = (self.check >> 1) | 0x80000000;
        } else {
            self.check = self.check >> 1;
        }
        rcf
    }

    /// Draw one bit from the register; when the register runs out, refill
    /// it from the next reverse word, folding the word into the checksum,
    /// with the freshly shifted-out bit becoming the register's top bit.
    fn next_chunk(&mut self) -> (r: Result<bool, Error>)
        requires
            old(self).wf(),
        ensures
            final(self).wf(),
            final(self).output@ == old(self).output@,
            final(self).output_cursor == old(self).output_cursor,
            final(self).input@ == old(self).input@,
            final(self).data_size == old(self).data_size,
            final(self).size == old(self).size,
            match r {
                Ok(b) => sp_chunk(old(self).input@, old(self).st()) == Some((final(self).st(), b))
                    && {
                    if old(self).check >> 1 != 0 {
                        b == (old(self).check & 1 == 1) && final(self).check == old(self).check
                            >> 1 && final(self).crc == old(self).crc && final(self).input_cursor
                            == old(self).input_cursor
                    } else {
                        old(self).input_cursor >= 4 && {
                            let w = be_u32(old(self).input@, old(self).input_cursor - 4);
                            b == (w & 1 == 1) && final(self).check == ((w >> 1) | 0x80000000u32)
                                && final(self).crc == (old(self).crc ^ w) && final(self).input_cursor == old(self).input_cursor - 4
                        }
                    }
                },
                Err(e) => e == Error::InputBufferDrained && old(self).check >> 1 == 0 && old(
                    self,
                ).input_cursor < 4 && sp_chunk(old(self).input@, old(self).st()) is None,
            },
    {
        let mut cf = self.rcr(false);
        if self.check == 0 {
            let w = self.read_rev_u32()?;
            self.check = w;
            self.crc = self.crc ^ w;
            cf = self.rcr(true);
        }
        Ok(cf)
    }

    /// Read a big-endian code of up to 16 bits from the chunk stream.
    fn get_code(&mut self, num_chunks: u8) -> (r: Result<u16, Error>)
        requires
            old(self).wf(),
            num_chunks <= 16,
        ensures
            final(self).wf(),
            final(self).output@ == old(self).output@,
            final(self).output_cursor == old(self).output_cursor,
            final(self).input@ == old(self).input@,
            final(self).data_size == old(self).data_size,
            final(self).size == old(self).size,
            r matches Ok(v) ==> (v as nat) < p2(num_chunks as nat),
            r matches Err(e) ==> e == Error::InputBufferDrained,
            match r {
                Ok(v) => sp_code(old(self).input@, old(self).st(), num_chunks as nat) == Some(
                    (final(self).st(), v),
                ),
                Err(_) => sp_code(old(self).input@, old(self).st(), num_chunks as nat) is None,
            },
    {
        let mut c: u16 = 0;
        let mut i: u8 = 0;
        while i < num_chunks
            invariant
                self.wf(),
                i <= num_chunks,
                num_chunks <= 16,
                (c as nat) < p2(i as nat),
                sp_code_acc(old(self).input@, old(self).st(), num_chunks as nat, 0)
                    == sp_code_acc(old(self).input@, self.st(), (num_chunks - i) as nat, c),
                self.output@ == old(self).output@,
                self.output_cursor == old(self).output_cursor,
                self.input@ == old(self).input@,
                self.data_size == old(self).data_size,
                self.size == old(self).size,
            decreases num_chunks - i,
        {
            proof {
                lemma_p2_mono(i as nat, 15);
                assert(p2(15) == 0x8000) by {
                    reveal_with_fuel(p2, 16);
                }
            }
            let bit = self.next_chunk()?;
            c = c * 2;
            if bit {
                c = c + 1;
            }
            i = i + 1;
        }
        Ok(c)
    }

    /// Copy a literal run, read byte by byte from the chunk stream, into
    /// the output going backwards.
    fn dec_unk1(&mut self, num_chunks: u8, add_count: u8) -> (r: Result<(), Error>)
        requires
            old(self).wf(),
            old(self).data_size >= -0x80000000,
            num_chunks <= 8,
            add_count <= 8,
        ensures
            final(self).wf(),
            final(self).output@.len() == old(self).output@.len(),
            final(self).input@ == old(self).input@,
            r is Ok ==> final(self).data_size < old(self).data_size,
            r matches Err(e) ==> e == Error::InputBufferDrained,
            match r {
                Ok(_) => sp_unk1(
                    old(self).input@,
                    old(self).st(),
                    num_chunks as nat,
                    add_count as nat,
                ) == Some(final(self).st()),
                Err(_) => sp_unk1(
                    old(self).input@,
                    old(self).st(),
                    num_chunks as nat,
                    add_count as nat,
                ) is None,
            },
    {
        let ghost inp = old(self).input@;
        let code = self.get_code(num_chunks)?;
        proof {
            lemma_p2_mono(num_chunks as nat, 8);
            assert(p2(8) == 256) by {
                reveal_with_fuel(p2, 9);
            }
        }
        let count: u16 = code + add_count as u16 + 1;
        self.data_size = self.data_size - count as i64;
        let mut i: u16 = 0;
        while i < count
            invariant
                self.wf(),
                i <= count,
                self.output@.len() == old(self).output@.len(),
                self.input@ == old(self).input@,
                inp == old(self).input@,
                self.data_size < old(self).data_size,
                sp_unk1(inp, old(self).st(), num_chunks as nat, add_count as nat) == sp_lit(
                    inp,
                    self.st(),
                    (count - i) as nat,
                ),
            decreases count - i,
        {
            let value = self.get_code(8)?;
            if self.output_cursor == 0 {
                return Err(Error::InputBufferDrained);
            }
            self.output_cursor = self.output_cursor - 1;
            self.output[self.output_cursor] = value as u8;
            i = i + 1;
        }
        Ok(())
    }

    /// Copy a back-reference of `size + 1` bytes, each read from `distance`
    /// bytes ahead of the write position, into the output going backwards.
    fn dec_unk2(&mut self, num_chunks: u8) -> (r: Result<(), Error>)
        requires
            old(self).wf(),
            old(self).data_size >= -0x80000000,
            num_chunks <= 12,
        ensures
            final(self).wf(),
            final(self).output@.len() == old(self).output@.len(),
            final(self).input@ == old(self).input@,
            r is Ok ==> final(self).data_size < old(self).data_size,
            r matches Err(e) ==> e == Error::InputBufferDrained,
            match r {
                Ok(_) => sp_unk2(old(self).input@, old(self).st(), num_chunks as nat) == Some(
                    final(self).st(),
                ),
                Err(_) => sp_unk2(old(self).input@, old(self).st(), num_chunks as nat) is None,
            },
    {
        let ghost inp = old(self).input@;
        let distance = self.get_code(num_chunks)?;
        proof {
            lemma_p2_mono(num_chunks as nat, 12);
            assert(p2(12) == 4096) by {
                reveal_with_fuel(p2, 13);
            }
        }
        let count: u16 = self.size + 1;
        self.data_size = self.data_size - count as i64;
        let mut i: u16 = 0;
        while i < count
            invariant
                self.wf(),
                i <= count,
                distance < 4096,
                self.output@.len() == old(self).output@.len(),
                self.input@ == old(self).input@,
                inp == old(self).input@,
                self.data_size < old(self).data_size,
                sp_unk2(inp, old(self).st(), num_chunks as nat) == sp_ref(
                    self.st(),
                    (count - i) as nat,
                    distance as int,
                ),
            decreases count - i,
        {
            if self.output_cursor == 0 {
                return Err(Error::InputBufferDrained);
            }
            let src = self.output_cursor - 1 + distance as usize;
            if src >= self.output.len() {
                return Err(Error::InputBufferDrained);
            }
            let value = self.output[src];
            self.output_cursor = self.output_cursor - 1;
            self.output[self.output_cursor] = value;
            i = i + 1;
        }
        Ok(())
    }

    /// One step of the main loop: a bit chooses between a literal run and
    /// a back-reference, with the longer encodings behind a second code.
    fn decode_pass(&mut self) -> (r: Result<(), Error>)
        requires
            old(self).wf(),
            old(self).data_size >= -0x80000000,
        ensures
            final(self).wf(),
            final(self).output@.len() == old(self).output@.len(),
            final(self).input@ == old(self).input@,
            r is Ok ==> final(self).data_size < old(self).data_size,
            r matches Err(e) ==> e == Error::InputBufferDrained,
            match r {
                Ok(_) => sp_pass(old(self).input@, old(self).st()) == Some(final(self).st()),
                Err(_) => sp_pass(old(self).input@, old(self).st()) is None,
            },
    {
        if !self.next_chunk()? {
            self.size = 1;
            if !self.next_chunk()? {
                self.dec_unk1(3, 0)?;
            } else {
                self.dec_unk2(8)?;
            }
        } else {
            let c = self.get_code(2)?;
            proof {
                assert(p2(2) == 4) by {
                    reveal_with_fuel(p2, 3);
                }
            }
            if c == 3 {
                self.dec_unk1(8, 8)?;
            } else if c < 2 {
                self.size = c + 2;
                self.dec_unk2(c as u8 + 9)?;
            } else {
                self.size = self.get_code(8)?;
                proof {
                    assert(p2(8) == 256) by {
                        reveal_with_fuel(p2, 9);
                    }
                }
                self.dec_unk2(12)?;
            }
        }
        Ok(())
    }

    /// Run the whole stream. On success the output holds exactly as many
    /// bytes as the decoder was built for, and the checksum register has
    /// come back to zero.
    pub fn decode(&mut self) -> (r: Result<Vec<u8>, Error>)
        requires
            old(self).wf(),
        ensures
            final(self).wf(),
            r matches Ok(v) ==> v@.len() == old(self).output@.len() && final(self).crc == 0,
            match r {
                Ok(v) => sp_decode(old(self).input@, old(self).st()) == Ok::<Seq<u8>, Error>(v@),
                Err(e) => sp_decode(old(self).input@, old(self).st()) == Err::<Seq<u8>, Error>(e),
            },
    {
        let ghost inp = old(self).input@;
        let ghost s0 = old(self).st();

        let ds = self.read_rev_u32()?;
        self.data_size = ds as i32 as i64;
        self.crc = self.read_rev_u32()?;
        let ck = self.read_rev_u32()?;
        self.check = ck;
        self.crc = self.crc ^ ck;
        proof {
            assert(sp_header(inp, s0) == Some(self.st()));
        }

        let ghost s1 = self.st();
        match self.decode_pass() {
            Ok(()) => {},
            Err(e) => {
                proof {
                    assert(sp_header(inp, s0) == Some(s1));
                    assert(sp_pass(inp, s1) is None);
                }
                return Err(e);
            },
        }
        let ghost target = sp_run(inp, self.st(), fuel_of(self.st()));
        proof {
            assert(sp_decode(inp, s0) == (match target {
                Some(s3) => if s3.crc == 0 {
                    Ok(s3.out)
                } else {
                    Err::<Seq<u8>, Error>(Error::CrcCheckFailed)
                },
                None => Err::<Seq<u8>, Error>(Error::InputBufferDrained),
            }));
        }

        while self.data_size > 0
            invariant
                self.wf(),
                self.output@.len() == old(self).output@.len(),
                inp == old(self).input@,
                s0 == old(self).st(),
                self.input@ == inp,
                sp_run(inp, self.st(), fuel_of(self.st())) == target,
                sp_decode(inp, s0) == (match target {
                    Some(s3) => if s3.crc == 0 {
                        Ok(s3.out)
                    } else {
                        Err::<Seq<u8>, Error>(Error::CrcCheckFailed)
                    },
                    None => Err::<Seq<u8>, Error>(Error::InputBufferDrained),
                }),
            decreases self.data_size + 0x100000000,
        {
            let ghost s_pre = self.st();
            match self.decode_pass() {
                Ok(()) => {},
                Err(e) => {
                    proof {
                        assert(sp_run(inp, s_pre, fuel_of(s_pre)) is None);
                    }
                    return Err(e);
                },
            }
            proof {
                lemma_sp_pass_ds(inp, s_pre);
                lemma_sp_run_fuel(inp, self.st(), (fuel_of(s_pre) - 1) as nat, fuel_of(self.st()));
            }
        }

        if self.crc != 0 {
            return Err(Error::CrcCheckFailed);
        }
        let mut out: Vec<u8> = Vec::new();
        std::mem::swap(&mut out, &mut self.output);
        self.output_cursor = 0;
        Ok(out)
    }
}

/// The payload of a catalog entry, from the raw bytes its bank holds: an
/// entry stored uncompressed is returned exactly as read; anything else
/// runs through the decompressor and must come out at the entry's unpacked
/// size.
pub fn entry_payload(packed_size: u16, size: u16, raw: Vec<u8>) -> (r: Result<Vec<u8>, Error>)
    requires
        raw@.len() == packed_size,
    ensures
        packed_size == size ==> (r matches Ok(v) && v@ == raw@),
        r matches Ok(v) ==> v@.len() == size,
        packed_size != size ==> (match r {
            Ok(v) => sp_entry(raw@, size) == Ok::<Seq<u8>, Error>(v@),
            Err(e) => sp_entry(raw@, size) == Err::<Seq<u8>, Error>(e),
        }),
{
    if packed_size == size {
        Ok(raw)
    } else {
        let mut decoder = Decoder::new(size, raw);
        decoder.decode()
    }
}

} // verus!
