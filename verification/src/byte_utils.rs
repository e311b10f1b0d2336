//! Big-endian readers and writers over byte strings.
//!
//! Every wire format of the relay is a concatenation of fixed-width big-endian
//! fields. The functions here read such a field at an offset, or append one to
//! a buffer, and say what they return over [`be_uint`] and [`be_bytes`].

use vstd::prelude::*;

verus! {

/// The number that `bytes` spell in base 256, most significant byte first.
pub open spec fn be_uint(bytes: Seq<u8>) -> nat
    decreases bytes.len(),
{
    if bytes.len() == 0 {
        0
    } else {
        be_uint(bytes.drop_last()) * 256 + bytes.last() as nat
    }
}

/// 256 to the power `n`.
pub open spec fn pow256(n: nat) -> nat
    decreases n,
{
    if n == 0 {
        1
    } else {
        256 * pow256((n - 1) as nat)
    }
}

/// The `width` low-order base-256 digits of `x`, most significant first.
pub open spec fn be_bytes(x: nat, width: nat) -> Seq<u8>
    decreases width,
{
    if width == 0 {
        Seq::<u8>::empty()
    } else {
        be_bytes(x / 256, (width - 1) as nat).push((x % 256) as u8)
    }
}

/// The field of `width` bytes that starts at `index`.
pub open spec fn field(data: Seq<u8>, index: int, width: int) -> Seq<u8> {
    data.subrange(index, index + width)
}

/// Twelve zero bytes followed by `addr`: a 20-byte address in its 32-byte form.
pub open spec fn extended_address(addr: Seq<u8>) -> Seq<u8> {
    Seq::new(12, |i: int| 0u8) + addr
}

/// Reading one more byte multiplies what was read by 256 and adds the byte.
pub proof fn lemma_be_uint_step(data: Seq<u8>, index: int, width: int)
    requires
        0 <= index,
        0 <= width,
        index + width < data.len(),
    ensures
        be_uint(field(data, index, width + 1)) == be_uint(field(data, index, width)) * 256
            + data[index + width] as nat,
{
    let longer = field(data, index, width + 1);
    assert(longer.drop_last() =~= field(data, index, width));
    assert(longer.last() == data[index + width]);
}

/// A field of `width` bytes spells a number below 256 to the `width`.
pub proof fn lemma_be_uint_bound(bytes: Seq<u8>)
    ensures
        be_uint(bytes) < pow256(bytes.len()),
    decreases bytes.len(),
{
    if bytes.len() > 0 {
        lemma_be_uint_bound(bytes.drop_last());
        let rest = be_uint(bytes.drop_last());
        let p = pow256((bytes.len() - 1) as nat);
        assert(rest + 1 <= p);
        assert(rest * 256 + 256 <= 256 * p) by (nonlinear_arith)
            requires
                rest + 1 <= p,
        ;
    }
}

/// Writing a number that fits in `width` digits and reading it back gives the number.
pub proof fn lemma_be_round_trip(x: nat, width: nat)
    requires
        x < pow256(width),
    ensures
        be_bytes(x, width).len() == width,
        be_uint(be_bytes(x, width)) == x,
    decreases width,
{
    if width > 0 {
        let head = be_bytes(x / 256, (width - 1) as nat);
        assert(x / 256 < pow256((width - 1) as nat)) by (nonlinear_arith)
            requires
                x < 256 * pow256((width - 1) as nat),
        ;
        lemma_be_round_trip(x / 256, (width - 1) as nat);
        let whole = be_bytes(x, width);
        assert(whole.drop_last() =~= head);
        assert(whole.last() == (x % 256) as u8);
    }
}

/// The digits written for a number have the width asked for.
pub proof fn lemma_be_bytes_len(x: nat, width: nat)
    ensures
        be_bytes(x, width).len() == width,
    decreases width,
{
    if width > 0 {
        lemma_be_bytes_len(x / 256, (width - 1) as nat);
    }
}

/// Two numbers below 256 to the `width` with the same digits are the same number.
pub proof fn lemma_be_bytes_injective(x: nat, y: nat, width: nat)
    requires
        x < pow256(width),
        y < pow256(width),
        be_bytes(x, width) == be_bytes(y, width),
    ensures
        x == y,
{
    lemma_be_round_trip(x, width);
    lemma_be_round_trip(y, width);
}

/// Whether two byte strings hold the same bytes.
pub fn bytes_eq(a: &[u8], b: &[u8]) -> (same: bool)
    ensures
        same == (a@ == b@),
{
    if a.len() != b.len() {
        return false;
    }
    let mut i: usize = 0;
    while i < a.len()
        invariant
            a@.len() == b@.len(),
            0 <= i <= a@.len(),
            forall|j: int| 0 <= j < i ==> a@[j] == b@[j],
        decreases a@.len() - i,
    {
        if a[i] != b[i] {
            return false;
        }
        i += 1;
    }
    assert(a@ =~= b@);
    true
}

/// The bytes of `data` from `from` up to `to`, copied out.
pub fn slice_bytes(data: &[u8], from: usize, to: usize) -> (out: Vec<u8>)
    requires
        from <= to <= data@.len(),
    ensures
        out@ == data@.subrange(from as int, to as int),
{
    let mut out: Vec<u8> = Vec::new();
    let mut i: usize = from;
    while i < to
        invariant
            from <= i <= to <= data@.len(),
            out@ == data@.subrange(from as int, i as int),
        decreases to - i,
    {
        out.push(data[i]);
        assert(data@.subrange(from as int, i as int).push(data@[i as int]) =~= data@.subrange(
            from as int,
            i + 1,
        ));
        i += 1;
    }
    out
}

/// A copy of `bytes`.
pub fn clone_bytes(bytes: &Vec<u8>) -> (out: Vec<u8>)
    ensures
        out@ == bytes@,
{
    let out = slice_bytes(bytes.as_slice(), 0, bytes.len());
    assert(bytes@.subrange(0, bytes@.len() as int) =~= bytes@);
    out
}

/// The byte at `index`.
pub fn get_u8(data: &[u8], index: usize) -> (value: u8)
    requires
        index < data@.len(),
    ensures
        value == data@[index as int],
{
    data[index]
}

/// The two bytes at `index`, read as a big-endian number.
pub fn get_u16(data: &[u8], index: usize) -> (value: u16)
    requires
        index + 2 <= data@.len(),
    ensures
        value == be_uint(field(data@, index as int, 2)),
{
    let wide: u128 = read_be(data, index, 2);
    proof {
        lemma_be_uint_bound(field(data@, index as int, 2));
        reveal_with_fuel(pow256, 3);
    }
    wide as u16
}

/// The eight bytes at `index`, read as a big-endian number.
pub fn get_u64(data: &[u8], index: usize) -> (value: u64)
    requires
        index + 8 <= data@.len(),
    ensures
        value == be_uint(field(data@, index as int, 8)),
{
    let wide: u128 = read_be(data, index, 8);
    proof {
        lemma_be_uint_bound(field(data@, index as int, 8));
        reveal_with_fuel(pow256, 9);
    }
    wide as u64
}

/// The sixteen bytes at `index`, read as a big-endian number.
pub fn get_u128_be(data: &[u8], index: usize) -> (value: u128)
    requires
        index + 16 <= data@.len(),
    ensures
        value == be_uint(field(data@, index as int, 16)),
{
    read_be(data, index, 16)
}

/// The 32 bytes at `index` as a 256-bit big-endian number, given as its high
/// and low 128 bits.
pub fn get_u256(data: &[u8], index: usize) -> (value: (u128, u128))
    requires
        index + 32 <= data@.len(),
    ensures
        value.0 == be_uint(field(data@, index as int, 16)),
        value.1 == be_uint(field(data@, index + 16, 16)),
{
    let len: usize = data.len();
    (get_u128_be(data, index), get_u128_be(data, index + 16))
}

/// The 32 bytes at `index`.
pub fn get_bytes32(data: &[u8], index: usize) -> (out: Vec<u8>)
    requires
        index + 32 <= data@.len(),
    ensures
        out@ == field(data@, index as int, 32),
{
    let len: usize = data.len();
    slice_bytes(data, index, index + 32)
}

/// The address held in the 32-byte field at `index`: its last 20 bytes.
pub fn get_address(data: &[u8], index: usize) -> (out: Vec<u8>)
    requires
        index + 32 <= data@.len(),
    ensures
        out@ == field(data@, index + 12, 20),
{
    let len: usize = data.len();
    slice_bytes(data, index + 12, index + 32)
}

/// `addr` behind twelve zero bytes.
pub fn extend_address_to_32(addr: &[u8]) -> (out: Vec<u8>)
    ensures
        out@ == extended_address(addr@),
{
    let mut out: Vec<u8> = Vec::new();
    let mut i: usize = 0;
    while i < 12
        invariant
            0 <= i <= 12,
            out@ == Seq::new(i as nat, |j: int| 0u8),
        decreases 12 - i,
    {
        out.push(0u8);
        assert(out@ =~= Seq::new((i + 1) as nat, |j: int| 0u8));
        i += 1;
    }
    let mut k: usize = 0;
    while k < addr.len()
        invariant
            0 <= k <= addr@.len(),
            out@ == Seq::new(12, |j: int| 0u8) + addr@.subrange(0, k as int),
        decreases addr@.len() - k,
    {
        out.push(addr[k]);
        assert(out@ =~= Seq::new(12, |j: int| 0u8) + addr@.subrange(0, k + 1));
        k += 1;
    }
    assert(addr@.subrange(0, addr@.len() as int) =~= addr@);
    out
}

/// Appends the two big-endian bytes of `value` to `out`.
pub fn put_u16(out: &mut Vec<u8>, value: u16)
    ensures
        final(out)@ == old(out)@ + be_bytes(value as nat, 2),
{
    write_be(out, value as u128, 2);
}

/// Appends the eight big-endian bytes of `value` to `out`.
pub fn put_u64(out: &mut Vec<u8>, value: u64)
    ensures
        final(out)@ == old(out)@ + be_bytes(value as nat, 8),
{
    write_be(out, value as u128, 8);
}

/// Appends the bytes of `bytes` to `out`.
pub fn put_bytes(out: &mut Vec<u8>, bytes: &[u8])
    ensures
        final(out)@ == old(out)@ + bytes@,
{
    let mut i: usize = 0;
    while i < bytes.len()
        invariant
            0 <= i <= bytes@.len(),
            out@ == old(out)@ + bytes@.subrange(0, i as int),
        decreases bytes@.len() - i,
    {
        out.push(bytes[i]);
        assert(out@ =~= old(out)@ + bytes@.subrange(0, i + 1));
        i += 1;
    }
    assert(bytes@.subrange(0, bytes@.len() as int) =~= bytes@);
}

fn read_be(data: &[u8], index: usize, width: usize) -> (value: u128)
    requires
        width <= 16,
        index + width <= data@.len(),
    ensures
        value == be_uint(field(data@, index as int, width as int)),
{
    let len: usize = data.len();
    let mut value: u128 = 0;
    let mut i: usize = 0;
    assert(field(data@, index as int, 0) =~= Seq::<u8>::empty());
    while i < width
        invariant
            width <= 16,
            index + width <= data@.len() == len,
            0 <= i <= width,
            value == be_uint(field(data@, index as int, i as int)),
        decreases width - i,
    {
        proof {
            lemma_be_uint_step(data@, index as int, i as int);
            lemma_be_uint_bound(field(data@, index as int, i + 1));
            lemma_pow256_monotone((i + 1) as nat, 16);
            reveal_with_fuel(pow256, 17);
        }
        value = value * 256 + data[index + i] as u128;
        i += 1;
    }
    value
}

fn write_be(out: &mut Vec<u8>, value: u128, width: usize)
    requires
        width <= 16,
    ensures
        final(out)@ == old(out)@ + be_bytes(value as nat, width as nat),
{
    let mut digits: Vec<u8> = Vec::new();
    let mut rest: u128 = value;
    let mut i: usize = 0;
    while i < width
        invariant
            0 <= i <= width,
            digits@.len() == i,
            forall|w: nat|
                w >= i ==> #[trigger] be_bytes(value as nat, w) == be_bytes(
                    rest as nat,
                    (w - i) as nat,
                ) + reversed(digits@),
        decreases width - i,
    {
        let digit: u8 = (rest % 256) as u8;
        proof {
            let before = digits@;
            assert forall|w: nat| w >= i + 1 implies #[trigger] be_bytes(value as nat, w)
                == be_bytes((rest / 256) as nat, (w - (i + 1)) as nat) + reversed(
                before.push(digit),
            ) by {
                assert(be_bytes(rest as nat, (w - i) as nat) == be_bytes(
                    (rest / 256) as nat,
                    (w - i - 1) as nat,
                ).push(digit));
                lemma_reversed_push(before, digit);
                assert(be_bytes((rest / 256) as nat, (w - i - 1) as nat).push(digit) + reversed(
                    before,
                ) =~= be_bytes((rest / 256) as nat, (w - i - 1) as nat) + (seq![digit] + reversed(
                    before,
                )));
            }
        }
        digits.push(digit);
        rest = rest / 256;
        i += 1;
    }
    assert(be_bytes(value as nat, width as nat) =~= reversed(digits@));
    let mut k: usize = width;
    while k > 0
        invariant
            0 <= k <= width,
            digits@.len() == width,
            out@ == old(out)@ + reversed(digits@).subrange(0, width - k),
        decreases k,
    {
        k -= 1;
        out.push(digits[k]);
        assert(reversed(digits@)[width - 1 - k] == digits@[k as int]);
        assert(out@ =~= old(out)@ + reversed(digits@).subrange(0, width - k));
    }
    assert(reversed(digits@).subrange(0, width as int) =~= reversed(digits@));
}

/// `s` back to front.
pub open spec fn reversed(s: Seq<u8>) -> Seq<u8> {
    Seq::new(s.len(), |i: int| s[s.len() - 1 - i])
}

proof fn lemma_reversed_push(s: Seq<u8>, b: u8)
    ensures
        reversed(s.push(b)) =~= seq![b] + reversed(s),
{
}

proof fn lemma_pow256_monotone(a: nat, b: nat)
    requires
        a <= b,
    ensures
        pow256(a) <= pow256(b),
    decreases b,
{
    if a < b {
        lemma_pow256_monotone(a, (b - 1) as nat);
    }
}

} // verus!
