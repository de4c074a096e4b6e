use vstd::prelude::*;
use vstd::arithmetic::div_mod::{lemma_div_denominator, lemma_fundamental_div_mod};

verus! {

/// The largest value a QUIC variable-length integer can carry: 2^62 - 1.
pub const VARINT_MAX: u64 = 0x3fff_ffff_ffff_ffff;

/// The QUIC variable-length encoding of `v`: the two high bits of the first
/// byte give the length (1, 2, 4 or 8 bytes), the rest is `v` big-endian.
pub open spec fn varint_bytes(v: nat) -> Seq<u8> {
    if v < 0x40 {
        seq![v as u8]
    } else if v < 0x4000 {
        seq![(0x40 + v / 0x100) as u8, (v % 0x100) as u8]
    } else if v < 0x4000_0000 {
        seq![
            (0x80 + v / 0x100_0000) as u8,
            (v / 0x1_0000 % 0x100) as u8,
            (v / 0x100 % 0x100) as u8,
            (v % 0x100) as u8,
        ]
    } else {
        seq![
            (0xc0 + v / 0x100_0000_0000_0000) as u8,
            (v / 0x1_0000_0000_0000 % 0x100) as u8,
            (v / 0x100_0000_0000 % 0x100) as u8,
            (v / 0x1_0000_0000 % 0x100) as u8,
            (v / 0x100_0000 % 0x100) as u8,
            (v / 0x1_0000 % 0x100) as u8,
            (v / 0x100 % 0x100) as u8,
            (v % 0x100) as u8,
        ]
    }
}

/// Appends the variable-length encoding of `v` to `out`.
pub fn encode_varint(v: u64, out: &mut Vec<u8>)
    requires
        v <= VARINT_MAX,
    ensures
        final(out)@ == old(out)@ + varint_bytes(v as nat),
{
    if v < 0x40 {
        out.push(v as u8);
    } else if v < 0x4000 {
        out.push((0x40 + v / 0x100) as u8);
        out.push((v % 0x100) as u8);
    } else if v < 0x4000_0000 {
        out.push((0x80 + v / 0x100_0000) as u8);
        out.push((v / 0x1_0000 % 0x100) as u8);
        out.push((v / 0x100 % 0x100) as u8);
        out.push((v % 0x100) as u8);
    } else {
        assert(v / 0x100_0000_0000_0000 < 0x40) by (nonlinear_arith)
            requires v <= VARINT_MAX;
        out.push((0xc0 + v / 0x100_0000_0000_0000) as u8);
        out.push((v / 0x1_0000_0000_0000 % 0x100) as u8);
        out.push((v / 0x100_0000_0000 % 0x100) as u8);
        out.push((v / 0x1_0000_0000 % 0x100) as u8);
        out.push((v / 0x100_0000 % 0x100) as u8);
        out.push((v / 0x1_0000 % 0x100) as u8);
        out.push((v / 0x100 % 0x100) as u8);
        out.push((v % 0x100) as u8);
    }
    assert(out@ =~= old(out)@ + varint_bytes(v as nat));
}

/// Length of a varint, read from the two high bits of its first byte.
pub open spec fn varint_size(first: u8) -> nat {
    if first < 0x40 {
        1
    } else if first < 0x80 {
        2
    } else if first < 0xc0 {
        4
    } else {
        8
    }
}

/// The number `b` spells in big-endian order.
pub open spec fn be_value(b: Seq<u8>) -> nat
    decreases b.len(),
{
    if b.len() == 0 {
        0
    } else {
        (be_value(b.drop_last()) * 256 + b.last()) as nat
    }
}

/// The value of a complete varint `b`: its bytes big-endian, with the two
/// length bits of the first byte cleared.
pub open spec fn varint_value(b: Seq<u8>) -> nat
    recommends
        b.len() > 0,
{
    be_value(seq![(b[0] % 0x40) as u8] + b.drop_first())
}

/// An exclusive bound on a big-endian number of `n` bytes whose first byte
/// is below 0x40.
pub open spec fn masked_bound(n: nat) -> nat
    decreases n,
{
    if n <= 1 {
        0x40
    } else {
        masked_bound((n - 1) as nat) * 256
    }
}

/// The type varint that opens an inbound unidirectional stream, read
/// one byte at a time while the stream waits to be classified.
#[derive(Debug)]
pub struct PendingRecvStream {
    buf: Vec<u8>,
}

impl PendingRecvStream {
    /// The bytes of the varint read so far.
    pub closed spec fn bytes(&self) -> Seq<u8> {
        self.buf@
    }

    /// The bytes read so far are a strict prefix of one varint.
    pub open spec fn wf(&self) -> bool {
        self.bytes().len() > 0 ==> self.bytes().len() < varint_size(self.bytes()[0])
    }

    pub fn new() -> (r: PendingRecvStream)
        ensures
            r.bytes() == Seq::<u8>::empty(),
            r.wf(),
    {
        PendingRecvStream { buf: Vec::new() }
    }

    /// Takes the next byte of the stream. Returns the stream type once its
    /// varint is complete (the buffer is then emptied), `None` before.
    pub fn push_byte(&mut self, b: u8) -> (r: Option<u64>)
        requires
            old(self).wf(),
        ensures
            final(self).wf(),
            ({
                let s = old(self).bytes().push(b);
                if s.len() == varint_size(s[0]) {
                    &&& r == Some(varint_value(s) as u64)
                    &&& varint_value(s) <= VARINT_MAX
                    &&& final(self).bytes() == Seq::<u8>::empty()
                } else {
                    r is None && final(self).bytes() == s
                }
            }),
    {
        self.buf.push(b);
        let first = self.buf[0];
        let size: usize = if first < 0x40 {
            1
        } else if first < 0x80 {
            2
        } else if first < 0xc0 {
            4
        } else {
            8
        };
        if self.buf.len() < size {
            return None;
        }
        let ghost s = self.buf@;
        let ghost m = seq![(s[0] % 0x40) as u8] + s.drop_first();
        let mut v: u64 = (first % 0x40) as u64;
        let mut i: usize = 1;
        assert(m.subrange(0, 1).drop_last() =~= Seq::<u8>::empty());
        assert(m.subrange(0, 1).last() == m[0]);
        assert(be_value(Seq::<u8>::empty()) == 0);
        assert(be_value(m.subrange(0, 1)) == be_value(m.subrange(0, 1).drop_last()) * 256 + m[0]);
        while i < size
            invariant
                s == self.buf@,
                size == s.len(),
                size <= 8,
                1 <= i <= size,
                m == seq![(s[0] % 0x40) as u8] + s.drop_first(),
                v as nat == be_value(m.subrange(0, i as int)),
                (v as nat) < masked_bound(i as nat),
            decreases size - i,
        {
            let byte = self.buf[i];
            assert(m.subrange(0, i + 1).drop_last() =~= m.subrange(0, i as int));
            assert(m[i as int] == byte);
            proof {
                lemma_masked_bound_fits((i + 1) as nat);
                assert(masked_bound((i + 1) as nat) == masked_bound(i as nat) * 256);
            }
            let ghost bound = masked_bound(i as nat);
            assert((v as nat) * 256 + byte < bound * 256) by (nonlinear_arith)
                requires
                    (v as nat) < bound,
                    byte < 256,
            ;
            v = v * 256 + byte as u64;
            i += 1;
        }
        assert(m.subrange(0, size as int) =~= m);
        proof {
            lemma_masked_bound_fits(size as nat);
        }
        self.buf = Vec::new();
        Some(v)
    }
}

proof fn lemma_masked_bound_fits(n: nat)
    requires
        1 <= n <= 8,
    ensures
        masked_bound(n) <= VARINT_MAX + 1,
{
    reveal_with_fuel(masked_bound, 8);
}

proof fn lemma_be_push(s: Seq<u8>, x: u8)
    ensures
        be_value(s.push(x)) == be_value(s) * 256 + x,
{
    assert(s.push(x).drop_last() =~= s);
    assert(s.push(x).last() == x);
}

proof fn lemma_be_two(a: u8, b: u8)
    ensures
        be_value(seq![a, b]) == a * 256 + b,
{
    let e = Seq::<u8>::empty();
    assert(be_value(e) == 0);
    lemma_be_push(e, a);
    lemma_be_push(e.push(a), b);
    assert(seq![a, b] =~= e.push(a).push(b));
}

proof fn lemma_be_four(a: u8, b: u8, c: u8, d: u8)
    ensures
        be_value(seq![a, b, c, d]) == ((a * 256 + b) * 256 + c) * 256 + d,
{
    lemma_be_two(a, b);
    lemma_be_push(seq![a, b], c);
    lemma_be_push(seq![a, b, c], d);
    assert(seq![a, b, c] =~= seq![a, b].push(c));
    assert(seq![a, b, c, d] =~= seq![a, b, c].push(d));
}

proof fn lemma_be_eight(a: u8, b: u8, c: u8, d: u8, e: u8, f: u8, g: u8, h: u8)
    ensures
        be_value(seq![a, b, c, d, e, f, g, h]) == ((((((a * 256 + b) * 256 + c) * 256 + d) * 256
            + e) * 256 + f) * 256 + g) * 256 + h,
{
    lemma_be_four(a, b, c, d);
    lemma_be_push(seq![a, b, c, d], e);
    lemma_be_push(seq![a, b, c, d, e], f);
    lemma_be_push(seq![a, b, c, d, e, f], g);
    lemma_be_push(seq![a, b, c, d, e, f, g], h);
    assert(seq![a, b, c, d, e] =~= seq![a, b, c, d].push(e));
    assert(seq![a, b, c, d, e, f] =~= seq![a, b, c, d, e].push(f));
    assert(seq![a, b, c, d, e, f, g] =~= seq![a, b, c, d, e, f].push(g));
    assert(seq![a, b, c, d, e, f, g, h] =~= seq![a, b, c, d, e, f, g].push(h));
}

/// `x` split as 256 * (x / 256) + x % 256, with x / 256 / 256 == x / 65536
/// and so on: the digit facts the byte layout of a varint rests on.
proof fn lemma_digit(x: nat, p: nat)
    requires
        p > 0,
    ensures
        x / p / 256 == x / (p * 256),
        x / p == 256 * (x / p / 256) + x / p % 256,
{
    lemma_div_denominator(x as int, p as int, 256);
    lemma_fundamental_div_mod((x / p) as int, 256);
}

/// Reading back an encoded varint gives the value encoded, and its first
/// byte announces its length.
pub proof fn lemma_varint_round_trip(v: u64)
    requires
        v <= VARINT_MAX,
    ensures
        varint_bytes(v as nat).len() == varint_size(varint_bytes(v as nat)[0]),
        varint_value(varint_bytes(v as nat)) == v,
{
    let x = v as nat;
    let b = varint_bytes(x);
    let m = seq![(b[0] % 0x40) as u8] + b.drop_first();
    lemma_digit(x, 1);
    lemma_digit(x, 0x100);
    lemma_digit(x, 0x1_0000);
    lemma_digit(x, 0x100_0000);
    lemma_digit(x, 0x1_0000_0000);
    lemma_digit(x, 0x100_0000_0000);
    lemma_digit(x, 0x1_0000_0000_0000);
    lemma_digit(x, 0x100_0000_0000_0000);
    if x < 0x40 {
        assert(m =~= Seq::<u8>::empty().push(v as u8));
        lemma_be_push(Seq::<u8>::empty(), v as u8);
    } else if x < 0x4000 {
        assert(x / 0x100 < 0x40);
        assert(m =~= seq![(x / 0x100) as u8, (x % 0x100) as u8]);
        lemma_be_two((x / 0x100) as u8, (x % 0x100) as u8);
    } else if x < 0x4000_0000 {
        assert(x / 0x100_0000 < 0x40);
        assert(m =~= seq![
            (x / 0x100_0000) as u8,
            (x / 0x1_0000 % 0x100) as u8,
            (x / 0x100 % 0x100) as u8,
            (x % 0x100) as u8,
        ]);
        lemma_be_four(
            (x / 0x100_0000) as u8,
            (x / 0x1_0000 % 0x100) as u8,
            (x / 0x100 % 0x100) as u8,
            (x % 0x100) as u8,
        );
    } else {
        assert(x / 0x100_0000_0000_0000 < 0x40);
        assert(m =~= seq![
            (x / 0x100_0000_0000_0000) as u8,
            (x / 0x1_0000_0000_0000 % 0x100) as u8,
            (x / 0x100_0000_0000 % 0x100) as u8,
            (x / 0x1_0000_0000 % 0x100) as u8,
            (x / 0x100_0000 % 0x100) as u8,
            (x / 0x1_0000 % 0x100) as u8,
            (x / 0x100 % 0x100) as u8,
            (x % 0x100) as u8,
        ]);
        lemma_be_eight(
            (x / 0x100_0000_0000_0000) as u8,
            (x / 0x1_0000_0000_0000 % 0x100) as u8,
            (x / 0x100_0000_0000 % 0x100) as u8,
            (x / 0x1_0000_0000 % 0x100) as u8,
            (x / 0x100_0000 % 0x100) as u8,
            (x / 0x1_0000 % 0x100) as u8,
            (x / 0x100 % 0x100) as u8,
            (x % 0x100) as u8,
        );
    }
}

} // verus!
