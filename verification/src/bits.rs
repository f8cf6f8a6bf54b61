use vstd::prelude::*;
use vstd::arithmetic::power2::{pow2, lemma_pow2_unfold, lemma_pow2_pos, lemma2_to64};
use vstd::arithmetic::div_mod::{lemma_div_denominator, lemma_mod_breakdown};
use crate::pdu_parse_error::PduParseErr;

verus! {

/// The number that a bit string denotes, most significant bit first.
pub open spec fn bits_to_nat(s: Seq<bool>) -> nat
    decreases s.len(),
{
    if s.len() == 0 {
        0
    } else {
        2 * bits_to_nat(s.drop_last()) + (if s.last() { 1nat } else { 0nat })
    }
}

/// Bit `k` of `v`, counting from the least significant bit.
pub open spec fn bit_of(v: nat, k: nat) -> bool {
    (v / pow2(k)) % 2 == 1
}

/// The `n` low bits of `v`, most significant bit first.
pub open spec fn nat_to_bits(v: nat, n: nat) -> Seq<bool> {
    Seq::new(n, |i: int| bit_of(v, (n - 1 - i) as nat))
}

/// A bit string of length `n` denotes a number below `2^n`.
pub proof fn lemma_bits_to_nat_bound(s: Seq<bool>)
    ensures
        bits_to_nat(s) < pow2(s.len()),
    decreases s.len(),
{
    if s.len() == 0 {
        lemma2_to64();
    } else {
        lemma_bits_to_nat_bound(s.drop_last());
        lemma_pow2_unfold(s.len());
    }
}

/// Dropping the last of the `n` low bits of `v` leaves the `n - 1` low bits of `v / 2`.
pub proof fn lemma_nat_to_bits_step(v: nat, n: nat)
    requires
        n > 0,
    ensures
        nat_to_bits(v, n).drop_last() == nat_to_bits(v / 2, (n - 1) as nat),
        nat_to_bits(v, n).last() == (v % 2 == 1),
{
    let a = nat_to_bits(v, n).drop_last();
    let b = nat_to_bits(v / 2, (n - 1) as nat);
    assert forall|i: int| 0 <= i < n - 1 implies a[i] == b[i] by {
        let k = (n - 2 - i) as nat;
        lemma_pow2_unfold(k + 1);
        lemma_pow2_pos(k);
        lemma_div_denominator(v as int, 2, pow2(k) as int);
        assert((k + 1) as nat == (n - 1 - i) as nat);
    }
    assert(a =~= b);
    lemma2_to64();
}

/// Reading back the `n` low bits of `v` gives `v` modulo `2^n`.
pub proof fn lemma_nat_to_bits_value(v: nat, n: nat)
    ensures
        nat_to_bits(v, n).len() == n,
        bits_to_nat(nat_to_bits(v, n)) == v % pow2(n),
    decreases n,
{
    if n == 0 {
        lemma2_to64();
    } else {
        lemma_nat_to_bits_step(v, n);
        lemma_nat_to_bits_value(v / 2, (n - 1) as nat);
        lemma_pow2_pos((n - 1) as nat);
        lemma_mod_breakdown(v as int, 2, pow2((n - 1) as nat) as int);
        lemma_pow2_unfold(n);
    }
}

/// A bit string is the string of low bits of the number it denotes.
pub proof fn lemma_bits_to_nat_injective(s: Seq<bool>)
    ensures
        nat_to_bits(bits_to_nat(s), s.len()) == s,
    decreases s.len(),
{
    if s.len() == 0 {
        assert(nat_to_bits(bits_to_nat(s), 0) =~= s);
    } else {
        let n = s.len();
        let x = bits_to_nat(s);
        lemma_bits_to_nat_injective(s.drop_last());
        lemma_nat_to_bits_step(x, n);
        assert(x / 2 == bits_to_nat(s.drop_last()));
        let t = nat_to_bits(x, n);
        assert(t =~= t.drop_last().push(t.last()));
        assert(s =~= s.drop_last().push(s.last()));
    }
}

/// A finite sequence of bits with a read/write position, as the PDU codecs use it.
pub struct BitBuffer {
    bits: Vec<bool>,
    pos: usize,
}

impl BitBuffer {
    /// The bits held.
    pub closed spec fn spec_bits(&self) -> Seq<bool> {
        self.bits@
    }

    /// The read/write position.
    pub closed spec fn spec_pos(&self) -> nat {
        self.pos as nat
    }

    /// Whether `n` bits lie between the position and the end.
    pub open spec fn has_bits(&self, n: nat) -> bool {
        self.spec_pos() + n <= self.spec_bits().len()
    }

    /// The `n` bits from the position on.
    pub open spec fn upcoming(&self, n: nat) -> Seq<bool> {
        self.spec_bits().subrange(self.spec_pos() as int, (self.spec_pos() + n) as int)
    }

    /// A buffer of `len` zero bits, positioned at its start.
    pub fn new(len: usize) -> (res: BitBuffer)
        ensures
            res.spec_bits() == Seq::new(len as nat, |i: int| false),
            res.spec_pos() == 0,
    {
        let mut bits: Vec<bool> = Vec::new();
        while bits.len() < len
            invariant
                bits.len() <= len,
                bits@ == Seq::new(bits.len() as nat, |i: int| false),
            decreases len - bits.len(),
        {
            bits.push(false);
            assert(bits@ =~= Seq::new(bits.len() as nat, |i: int| false));
        }
        BitBuffer { bits, pos: 0 }
    }

    /// A buffer holding the given bits, positioned at its start.
    pub fn from_bits(bits: Vec<bool>) -> (res: BitBuffer)
        ensures
            res.spec_bits() == bits@,
            res.spec_pos() == 0,
    {
        BitBuffer { bits, pos: 0 }
    }

    /// A buffer holding the bits that a text of `'0'` and `'1'` characters
    /// spells, positioned at its start.
    pub fn from_bitstr(text: &str) -> (res: BitBuffer)
        requires
            forall|i: int| 0 <= i < text@.len() ==> #[trigger] text@[i] == '0' || text@[i] == '1',
        ensures
            bits_to_text(res.spec_bits()) == text@,
            res.spec_bits().len() == text@.len(),
            res.spec_pos() == 0,
    {
        let n = text.unicode_len();
        let mut bits: Vec<bool> = Vec::new();
        let mut i: usize = 0;
        while i < n
            invariant
                i <= n,
                n == text@.len(),
                bits@.len() == i,
                forall|j: int| 0 <= j < text@.len() ==> #[trigger] text@[j] == '0' || text@[j] == '1',
                bits_to_text(bits@) == text@.take(i as int),
            decreases n - i,
        {
            let c = text.get_char(i);
            let ghost prev = bits@;
            bits.push(c == '1');
            proof {
                assert(bits@.drop_last() =~= prev);
                assert(text@.take(i + 1) =~= text@.take(i as int).push(c));
            }
            i = i + 1;
        }
        proof {
            assert(text@.take(n as int) =~= text@);
        }
        BitBuffer { bits, pos: 0 }
    }

    /// Number of bits held.
    pub fn get_len(&self) -> (res: usize)
        ensures
            res == self.spec_bits().len(),
    {
        self.bits.len()
    }

    /// The read/write position.
    pub fn get_pos(&self) -> (res: usize)
        ensures
            res == self.spec_pos(),
    {
        self.pos
    }

    /// Number of bits between the position and the end (0 past the end).
    pub fn get_len_remaining(&self) -> (res: usize)
        ensures
            res == (if self.spec_pos() <= self.spec_bits().len() {
                self.spec_bits().len() - self.spec_pos()
            } else {
                0
            }),
    {
        if self.pos <= self.bits.len() {
            self.bits.len() - self.pos
        } else {
            0
        }
    }

    /// Moves the read/write position.
    pub fn seek(&mut self, pos: usize)
        ensures
            final(self).spec_bits() == old(self).spec_bits(),
            final(self).spec_pos() == pos,
    {
        self.pos = pos;
    }

    /// Whether `n` bits lie between the position and the end.
    fn fits(&self, n: usize) -> (res: bool)
        ensures
            res == self.has_bits(n as nat),
    {
        self.pos <= self.bits.len() && n <= self.bits.len() - self.pos
    }

    /// The number that the `n` bits from the position on denote, without moving.
    fn value_at_pos(&self, n: usize) -> (res: u64)
        requires
            n <= 64,
            self.has_bits(n as nat),
        ensures
            res == bits_to_nat(self.upcoming(n as nat)),
    {
        let mut acc: u64 = 0;
        let mut i: usize = 0;
        proof {
            lemma2_to64();
            assert(self.upcoming(0) =~= Seq::<bool>::empty());
        }
        while i < n
            invariant
                i <= n <= 64,
                self.pos + n <= self.bits.len(),
                self.has_bits(n as nat),
                acc == bits_to_nat(self.upcoming(i as nat)),
                acc < pow2(i as nat),
            decreases n - i,
        {
            let b = self.bits[self.pos + i];
            proof {
                let s = self.upcoming((i + 1) as nat);
                assert(s.drop_last() =~= self.upcoming(i as nat));
                assert(s.last() == b);
                lemma_pow2_unfold((i + 1) as nat);
                assert(pow2((i + 1) as nat) <= pow2(64)) by {
                    lemma_pow2_monotone((i + 1) as nat, 64);
                }
                lemma2_to64();
            }
            acc = acc * 2 + if b { 1 } else { 0 };
            i = i + 1;
        }
        acc
    }

    /// Reads `n` bits as a number and moves past them; `None`, without moving,
    /// where fewer than `n` bits remain.
    pub fn read_bits(&mut self, n: usize) -> (res: Option<u64>)
        requires
            n <= 64,
        ensures
            final(self).spec_bits() == old(self).spec_bits(),
            old(self).has_bits(n as nat) ==> res == Some(bits_to_nat(old(self).upcoming(n as nat)) as u64)
                && final(self).spec_pos() == old(self).spec_pos() + n,
            !old(self).has_bits(n as nat) ==> res is None && final(self).spec_pos() == old(self).spec_pos(),
    {
        if self.fits(n) {
            let v = self.value_at_pos(n);
            assert(self.pos + n <= self.bits.len());
            self.pos = self.pos + n;
            Some(v)
        } else {
            None
        }
    }

    /// Reads `n` bits as a number without moving; `None` where fewer than `n` bits remain.
    pub fn peek_bits(&self, n: usize) -> (res: Option<u64>)
        requires
            n <= 64,
        ensures
            self.has_bits(n as nat) ==> res == Some(bits_to_nat(self.upcoming(n as nat)) as u64),
            !self.has_bits(n as nat) ==> res is None,
    {
        if self.fits(n) {
            Some(self.value_at_pos(n))
        } else {
            None
        }
    }

    /// Reads the `n`-bit field named `field`; fails with `BufferEnded` for that
    /// field, without moving, where fewer than `n` bits remain.
    pub fn read_field(&mut self, n: usize, field: &'static str) -> (res: Result<u64, PduParseErr>)
        requires
            n <= 64,
        ensures
            final(self).spec_bits() == old(self).spec_bits(),
            old(self).has_bits(n as nat) ==> res == Ok::<u64, PduParseErr>(bits_to_nat(old(self).upcoming(n as nat)) as u64)
                && final(self).spec_pos() == old(self).spec_pos() + n,
            !old(self).has_bits(n as nat) ==> res == Err::<u64, PduParseErr>(PduParseErr::BufferEnded { field })
                && final(self).spec_pos() == old(self).spec_pos(),
            (res, final(self).spec_pos()) == spec_read_field(old(self).spec_bits(), old(self).spec_pos(), n as nat, field),
    {
        match self.read_bits(n) {
            Some(v) => Ok(v),
            None => Err(PduParseErr::BufferEnded { field }),
        }
    }

    /// Writes the `n` low bits of `value`, most significant first, at the
    /// position and moves past them.
    pub fn write_bits(&mut self, value: u64, n: usize)
        requires
            n <= 64,
            old(self).has_bits(n as nat),
        ensures
            final(self).spec_bits() == splice_bits(old(self).spec_bits(), old(self).spec_pos(), nat_to_bits(value as nat, n as nat)),
            final(self).spec_pos() == old(self).spec_pos() + n,
    {
        let ghost old_bits = self.bits@;
        let ghost target = nat_to_bits(value as nat, n as nat);
        let pos = self.pos;
        let mut i: usize = 0;
        while i < n
            invariant
                i <= n <= 64,
                pos == self.pos,
                pos + n <= old_bits.len(),
                pos + n <= self.bits.len(),
                self.bits@.len() == old_bits.len(),
                target == nat_to_bits(value as nat, n as nat),
                forall|j: int| 0 <= j < pos ==> self.bits@[j] == old_bits[j],
                forall|j: int| pos + n <= j < old_bits.len() ==> self.bits@[j] == old_bits[j],
                forall|j: int| 0 <= j < i ==> self.bits@[pos + j] == target[j],
            decreases n - i,
        {
            let k: usize = n - 1 - i;
            let shifted: u64 = value >> (k as u64);
            let b: bool = (shifted & 1) == 1;
            proof {
                vstd::bits::lemma_u64_shr_is_div(value, k as u64);
                assert(shifted & 1 == shifted % 2) by (bit_vector);
                assert(b == bit_of(value as nat, k as nat));
                assert(target[i as int] == bit_of(value as nat, k as nat));
            }
            self.bits.set(pos + i, b);
            i = i + 1;
        }
        proof {
            assert(self.bits@ =~= splice_bits(old_bits, pos as nat, target));
        }
        self.pos = pos + n;
    }

    /// Copies the bits from the position on into `arr`, as 0 and 1 bytes.
    pub fn to_bitarr(&self, arr: &mut [u8])
        requires
            self.has_bits(old(arr)@.len()),
        ensures
            final(arr)@.len() == old(arr)@.len(),
            forall|j: int| 0 <= j < final(arr)@.len() ==>
                #[trigger] final(arr)@[j] == (if self.spec_bits()[self.spec_pos() + j] { 1u8 } else { 0u8 }),
    {
        let n = arr.len();
        let mut i: usize = 0;
        while i < n
            invariant
                i <= n,
                n == arr@.len(),
                arr@.len() == old(arr)@.len(),
                self.pos + n <= self.bits.len(),
                forall|j: int| 0 <= j < i ==>
                    #[trigger] arr@[j] == (if self.spec_bits()[self.spec_pos() + j] { 1u8 } else { 0u8 }),
            decreases n - i,
        {
            let v: u8 = if self.bits[self.pos + i] { 1 } else { 0 };
            arr[i] = v;
            i = i + 1;
        }
    }

    /// The bits from the start to the end as a string of `'0'` and `'1'`.
    pub fn dump_bin(&self) -> (res: String)
        ensures
            res@ == bits_to_text(self.spec_bits()),
    {
        let mut res = String::new();
        let mut i: usize = 0;
        while i < self.bits.len()
            invariant
                i <= self.bits.len(),
                res@ == bits_to_text(self.spec_bits().take(i as int)),
            decreases self.bits.len() - i,
        {
            proof {
                assert(self.spec_bits().take(i + 1).drop_last() =~= self.spec_bits().take(i as int));
            }
            if self.bits[i] {
                proof {
                    reveal_strlit("1");
                }
                res.append("1");
            } else {
                proof {
                    reveal_strlit("0");
                }
                res.append("0");
            }
            i = i + 1;
        }
        proof {
            assert(self.spec_bits().take(i as int) =~= self.spec_bits());
        }
        res
    }
}

/// Reading the `n`-bit field named `field` at position `pos` of `s`: the
/// number it holds and the position after it, or `BufferEnded` for the field
/// and the position unchanged.
pub open spec fn spec_read_field(s: Seq<bool>, pos: nat, n: nat, field: &'static str) -> (Result<u64, PduParseErr>, nat) {
    if pos + n <= s.len() {
        (Ok(bits_to_nat(s.subrange(pos as int, (pos + n) as int)) as u64), pos + n)
    } else {
        (Err(PduParseErr::BufferEnded { field }), pos)
    }
}

/// `s` with the bits from `at` on replaced by `part`.
pub open spec fn splice_bits(s: Seq<bool>, at: nat, part: Seq<bool>) -> Seq<bool> {
    s.take(at as int) + part + s.skip((at + part.len()) as int)
}

/// Reading back `n` bits just written gives the value written, reduced to
/// `n` bits, and the bits around them are unchanged; writing back `n` bits
/// just read leaves the bits as they were.
pub proof fn lemma_read_after_write(s: Seq<bool>, pos: nat, value: nat, n: nat)
    requires
        pos + n <= s.len(),
    ensures
        splice_bits(s, pos, nat_to_bits(value, n)).len() == s.len(),
        bits_to_nat(splice_bits(s, pos, nat_to_bits(value, n)).subrange(pos as int, (pos + n) as int)) == value % pow2(n),
        forall|i: int| 0 <= i < s.len() && !(pos <= i < pos + n) ==> #[trigger] splice_bits(s, pos, nat_to_bits(value, n))[i] == s[i],
        splice_bits(s, pos, nat_to_bits(bits_to_nat(s.subrange(pos as int, (pos + n) as int)), n)) == s,
{
    let w = splice_bits(s, pos, nat_to_bits(value, n));
    lemma_nat_to_bits_value(value, n);
    assert(w.subrange(pos as int, (pos + n) as int) =~= nat_to_bits(value, n));
    let part = s.subrange(pos as int, (pos + n) as int);
    lemma_bits_to_nat_injective(part);
    assert(splice_bits(s, pos, nat_to_bits(bits_to_nat(part), n)) =~= s);
}

/// The text of `'0'` and `'1'` characters that spells a bit string.
pub open spec fn bits_to_text(s: Seq<bool>) -> Seq<char>
    decreases s.len(),
{
    if s.len() == 0 {
        Seq::empty()
    } else {
        bits_to_text(s.drop_last()).push(if s.last() { '1' } else { '0' })
    }
}

/// The text of a bit string has one character per bit, `'1'` for a set bit
/// and `'0'` for a clear one.
pub proof fn lemma_bits_to_text(s: Seq<bool>)
    ensures
        bits_to_text(s).len() == s.len(),
        forall|i: int| 0 <= i < s.len() ==> #[trigger] bits_to_text(s)[i] == (if s[i] { '1' } else { '0' }),
    decreases s.len(),
{
    if s.len() > 0 {
        lemma_bits_to_text(s.drop_last());
    }
}

/// Two bit strings with the same text are equal; so `from_bitstr` of the
/// text that `dump_bin` gives holds the same bits.
pub proof fn lemma_bits_to_text_injective(s: Seq<bool>, t: Seq<bool>)
    requires
        bits_to_text(s) == bits_to_text(t),
    ensures
        s == t,
{
    lemma_bits_to_text(s);
    lemma_bits_to_text(t);
    assert(s.len() == t.len());
    assert forall|i: int| 0 <= i < s.len() implies s[i] == t[i] by {
        assert(bits_to_text(s)[i] == (if s[i] { '1' } else { '0' }));
        assert(bits_to_text(t)[i] == (if t[i] { '1' } else { '0' }));
        assert('1' != '0');
    }
    assert(s =~= t);
}

/// `2^a <= 2^b` for `a <= b`.
pub proof fn lemma_pow2_monotone(a: nat, b: nat)
    requires
        a <= b,
    ensures
        pow2(a) <= pow2(b),
    decreases b - a,
{
    if a < b {
        lemma_pow2_monotone(a, (b - 1) as nat);
        lemma_pow2_unfold(b);
        lemma_pow2_pos((b - 1) as nat);
    }
}

} // verus!
