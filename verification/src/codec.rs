//! Little-endian encoding of `u128` words, the wire format of every value
//! the contracts hand back in `CallResponse::data`.

use vstd::prelude::*;

verus! {

/// `256^n`.
pub open spec fn pow256(n: nat) -> nat
    decreases n,
{
    if n == 0 { 1 } else { 256 * pow256((n - 1) as nat) }
}

/// The `n` little-endian bytes of `x` (the low `n` bytes).
pub open spec fn le_bytes(x: nat, n: nat) -> Seq<u8>
    decreases n,
{
    if n == 0 {
        Seq::empty()
    } else {
        seq![(x % 256) as u8] + le_bytes(x / 256, (n - 1) as nat)
    }
}

/// The number that a little-endian byte string denotes.
pub open spec fn le_value(s: Seq<u8>) -> nat
    decreases s.len(),
{
    if s.len() == 0 { 0 } else { s[0] as nat + 256 * le_value(s.drop_first()) }
}

/// The concatenated 16-byte little-endian encodings of a sequence of words.
pub open spec fn le_words(s: Seq<u128>) -> Seq<u8>
    decreases s.len(),
{
    if s.len() == 0 { Seq::empty() } else { le_words(s.drop_last()) + le_bytes(s.last() as nat, 16) }
}

/// The `i`-th 16-byte word of a byte string, decoded little-endian.
pub open spec fn word_at(s: Seq<u8>, i: int) -> nat {
    le_value(s.subrange(16 * i, 16 * i + 16))
}

pub proof fn lemma_pow256_16()
    ensures
        pow256(16) == 0x1_0000_0000_0000_0000_0000_0000_0000_0000,
{
    reveal_with_fuel(pow256, 17);
}

pub proof fn lemma_le_bytes_len(x: nat, n: nat)
    ensures
        le_bytes(x, n).len() == n,
    decreases n,
{
    if n > 0 {
        lemma_le_bytes_len(x / 256, (n - 1) as nat);
    }
}

pub proof fn lemma_le_value_bound(s: Seq<u8>)
    ensures
        le_value(s) < pow256(s.len()),
    decreases s.len(),
{
    if s.len() > 0 {
        lemma_le_value_bound(s.drop_first());
    }
}

/// Decoding the `n` little-endian bytes of a number below `256^n` gives
/// the number back.
pub proof fn lemma_le_roundtrip(x: nat, n: nat)
    requires
        x < pow256(n),
    ensures
        le_value(le_bytes(x, n)) == x,
    decreases n,
{
    if n > 0 {
        assert(x / 256 < pow256((n - 1) as nat));
        lemma_le_roundtrip(x / 256, (n - 1) as nat);
        assert(le_bytes(x, n).drop_first() =~= le_bytes(x / 256, (n - 1) as nat));
    }
}

pub proof fn lemma_le_words_len(s: Seq<u128>)
    ensures
        le_words(s).len() == 16 * s.len(),
    decreases s.len(),
{
    if s.len() > 0 {
        lemma_le_words_len(s.drop_last());
        lemma_le_bytes_len(s.last() as nat, 16);
    }
}

/// Every word of an encoded sequence decodes to the word encoded: the
/// decoder reads back what the encoder wrote.
pub proof fn law_words_roundtrip(s: Seq<u128>, i: int)
    requires
        0 <= i < s.len(),
    ensures
        word_at(le_words(s), i) == s[i],
    decreases s.len(),
{
    lemma_le_words_len(s.drop_last());
    lemma_le_bytes_len(s.last() as nat, 16);
    if i < s.len() - 1 {
        law_words_roundtrip(s.drop_last(), i);
        assert(le_words(s).subrange(16 * i, 16 * i + 16) =~= le_words(s.drop_last()).subrange(16 * i, 16 * i + 16));
    } else {
        assert(le_words(s).subrange(16 * i, 16 * i + 16) =~= le_bytes(s.last() as nat, 16));
        lemma_pow256_16();
        lemma_le_roundtrip(s.last() as nat, 16);
    }
}

/// The 16 little-endian bytes of `x`.
pub fn u128_to_le_bytes(x: u128) -> (r: Vec<u8>)
    ensures
        r@ == le_bytes(x as nat, 16),
{
    let mut r: Vec<u8> = Vec::new();
    let mut v: u128 = x;
    let mut i: usize = 0;
    while i < 16
        invariant
            i <= 16,
            r@ + le_bytes(v as nat, (16 - i) as nat) == le_bytes(x as nat, 16),
        decreases 16 - i,
    {
        let ghost old_r = r@;
        let ghost old_v = v;
        let ghost old_i = i;
        r.push((v % 256) as u8);
        v = v / 256;
        i = i + 1;
        assert(r@ + le_bytes(v as nat, (16 - i) as nat) =~= old_r + le_bytes(
            old_v as nat,
            (16 - old_i) as nat,
        ));
    }
    assert(le_bytes(v as nat, 0) =~= Seq::<u8>::empty());
    assert(r@ =~= r@ + le_bytes(v as nat, 0));
    r
}

/// The concatenated 16-byte little-endian encodings of `vals`.
pub fn encode_words(vals: &Vec<u128>) -> (r: Vec<u8>)
    ensures
        r@ == le_words(vals@),
{
    let mut r: Vec<u8> = Vec::new();
    let mut i: usize = 0;
    while i < vals.len()
        invariant
            i <= vals.len(),
            r@ == le_words(vals@.take(i as int)),
        decreases vals.len() - i,
    {
        let mut b = u128_to_le_bytes(vals[i]);
        r.append(&mut b);
        assert(vals@.take(i as int + 1).drop_last() =~= vals@.take(i as int));
        i = i + 1;
    }
    assert(vals@.take(vals.len() as int) =~= vals@);
    r
}

/// The `index`-th 16-byte word of `data`, decoded little-endian.
pub fn decode_word(data: &Vec<u8>, index: usize) -> (r: u128)
    requires
        16 * index + 16 <= data.len(),
    ensures
        r == word_at(data@, index as int),
{
    let start: usize = 16 * index;
    let ghost s = data@.subrange(start as int, start as int + 16);
    let mut v: u128 = 0;
    let mut i: usize = 16;
    proof {
        lemma_pow256_16();
    }
    while i > 0
        invariant
            i <= 16,
            start == 16 * index,
            start + 16 <= data.len(),
            s == data@.subrange(start as int, start as int + 16),
            v == le_value(s.subrange(i as int, 16)),
            v < pow256((16 - i) as nat),
            pow256(16) == 0x1_0000_0000_0000_0000_0000_0000_0000_0000,
        decreases i,
    {
        assert(s.subrange(i - 1, 16).drop_first() =~= s.subrange(i as int, 16));
        assert(pow256((16 - (i - 1)) as nat) == 256 * pow256((16 - i) as nat));
        proof {
            lemma_pow_le_16((16 - (i - 1)) as nat);
        }
        v = v * 256 + data[start + i - 1] as u128;
        i = i - 1;
    }
    assert(s.subrange(0, 16) =~= s);
    v
}

proof fn lemma_pow_le_16(n: nat)
    requires
        n <= 16,
    ensures
        pow256(n) <= pow256(16),
    decreases 16 - n,
{
    if n < 16 {
        lemma_pow_le_16(n + 1);
    }
}

} // verus!
