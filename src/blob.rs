use vstd::prelude::*;

verus! {

/// The four bytes of a 32-bit word, least significant first.
pub open spec fn le_bytes(w: u32) -> Seq<u8> {
    seq![(w & 0xff) as u8, ((w >> 8u32) & 0xff) as u8, ((w >> 16u32) & 0xff) as u8, ((w >> 24u32) & 0xff) as u8]
}

/// The 32-bit word that four bytes give, least significant first.
pub open spec fn le_word(b0: u8, b1: u8, b2: u8, b3: u8) -> u32 {
    (b0 as u32) | ((b1 as u32) << 8u32) | ((b2 as u32) << 16u32) | ((b3 as u32) << 24u32)
}

/// The words laid out one after the other, each as its four bytes, with
/// no length prefix and no padding.
pub open spec fn encode_words(ws: Seq<u32>) -> Seq<u8> {
    Seq::new(4 * ws.len(), |i: int| le_bytes(ws[i / 4])[i % 4])
}

/// The first `n` words that the bytes hold.
pub open spec fn decode_words(bs: Seq<u8>, n: nat) -> Seq<u32> {
    Seq::new(n, |k: int| le_word(bs[4 * k], bs[4 * k + 1], bs[4 * k + 2], bs[4 * k + 3]))
}

/// The bit pattern of each signed word.
pub open spec fn words_of_ints(vs: Seq<i32>) -> Seq<u32> {
    vs.map_values(|v: i32| v as u32)
}

/// The signed word of each bit pattern.
pub open spec fn ints_of_words(ws: Seq<u32>) -> Seq<i32> {
    ws.map_values(|w: u32| w as i32)
}

proof fn lemma_word_round_trip(w: u32)
    ensures
        le_word(le_bytes(w)[0], le_bytes(w)[1], le_bytes(w)[2], le_bytes(w)[3]) == w,
{
    let b0 = (w & 0xff) as u8;
    let b1 = ((w >> 8u32) & 0xff) as u8;
    let b2 = ((w >> 16u32) & 0xff) as u8;
    let b3 = ((w >> 24u32) & 0xff) as u8;
    assert((b0 as u32) | ((b1 as u32) << 8u32) | ((b2 as u32) << 16u32) | ((b3 as u32) << 24u32) == w)
        by (bit_vector)
        requires
            b0 == (w & 0xff) as u8,
            b1 == ((w >> 8u32) & 0xff) as u8,
            b2 == ((w >> 16u32) & 0xff) as u8,
            b3 == ((w >> 24u32) & 0xff) as u8,
    ;
}

proof fn lemma_quarter(k: int, r: int)
    requires
        0 <= k,
        0 <= r < 4,
    ensures
        (4 * k + r) / 4 == k,
        (4 * k + r) % 4 == r,
{
    assert((4 * k + r) / 4 == k) by (nonlinear_arith)
        requires
            0 <= k,
            0 <= r < 4,
    ;
    assert((4 * k + r) % 4 == r) by (nonlinear_arith)
        requires
            0 <= k,
            0 <= r < 4,
    ;
}

/// Decoding what was encoded gives the words back.
pub proof fn lemma_words_round_trip(ws: Seq<u32>)
    ensures
        decode_words(encode_words(ws), ws.len()) == ws,
{
    let bs = encode_words(ws);
    assert forall|k: int| 0 <= k < ws.len() implies #[trigger] decode_words(bs, ws.len())[k] == ws[k] by {
        lemma_quarter(k, 0);
        lemma_quarter(k, 1);
        lemma_quarter(k, 2);
        lemma_quarter(k, 3);
        assert(4 * k + 3 < 4 * ws.len());
        lemma_word_round_trip(ws[k]);
    }
    assert(decode_words(bs, ws.len()) =~= ws);
}

/// Decoding what was encoded gives the signed words back.
pub proof fn lemma_ints_round_trip(vs: Seq<i32>)
    ensures
        ints_of_words(decode_words(encode_words(words_of_ints(vs)), vs.len())) == vs,
{
    lemma_words_round_trip(words_of_ints(vs));
    assert forall|k: int| 0 <= k < vs.len() implies #[trigger] ints_of_words(words_of_ints(vs))[k] == vs[k] by {
        let v = vs[k];
        assert((v as u32) as i32 == v) by (bit_vector);
    }
    assert(ints_of_words(words_of_ints(vs)) =~= vs);
}

/// Encodes 32-bit words, each as its four bytes, least significant first.
pub fn encode_u32s(words: &[u32]) -> (r: Vec<u8>)
    requires
        4 * words@.len() <= usize::MAX,
    ensures
        r@ == encode_words(words@),
{
    let mut out: Vec<u8> = Vec::new();
    let mut i: usize = 0;
    while i < words.len()
        invariant
            i <= words@.len(),
            4 * words@.len() <= usize::MAX,
            out@.len() == 4 * i,
            forall|j: int| 0 <= j < 4 * i ==> #[trigger] out@[j] == le_bytes(words@[j / 4])[j % 4],
        decreases words@.len() - i,
    {
        let w: u32 = words[i];
        out.push((w & 0xff) as u8);
        out.push(((w >> 8u32) & 0xff) as u8);
        out.push(((w >> 16u32) & 0xff) as u8);
        out.push(((w >> 24u32) & 0xff) as u8);
        proof {
            lemma_quarter(i as int, 0);
            lemma_quarter(i as int, 1);
            lemma_quarter(i as int, 2);
            lemma_quarter(i as int, 3);
        }
        i = i + 1;
    }
    proof {
        assert(out@ =~= encode_words(words@));
    }
    out
}

/// Decodes `count` 32-bit words from the front of `bytes`; `None` when
/// there are fewer than four bytes for each. Bytes after those are
/// ignored.
pub fn decode_u32s(bytes: &[u8], count: usize) -> (r: Option<Vec<u32>>)
    ensures
        r is None <==> bytes@.len() < 4 * count,
        r matches Some(ws) ==> ws@ == decode_words(bytes@, count as nat),
{
    let n: usize = bytes.len();
    if n / 4 < count {
        return None;
    }
    let mut out: Vec<u32> = Vec::new();
    let mut k: usize = 0;
    while k < count
        invariant
            k <= count,
            4 * count <= n,
            n == bytes@.len(),
            out@.len() == k,
            forall|j: int| 0 <= j < k ==> #[trigger] out@[j] == decode_words(bytes@, count as nat)[j],
        decreases count - k,
    {
        let p: usize = 4 * k;
        let w: u32 = (bytes[p] as u32) | ((bytes[p + 1] as u32) << 8u32) | ((bytes[p + 2] as u32) << 16u32)
            | ((bytes[p + 3] as u32) << 24u32);
        out.push(w);
        k = k + 1;
    }
    proof {
        assert(out@ =~= decode_words(bytes@, count as nat));
    }
    Some(out)
}

/// Encodes signed 32-bit words, each as the four bytes of its two's
/// complement bit pattern, least significant first.
pub fn encode_i32s(values: &[i32]) -> (r: Vec<u8>)
    requires
        4 * values@.len() <= usize::MAX,
    ensures
        r@ == encode_words(words_of_ints(values@)),
{
    let mut words: Vec<u32> = Vec::new();
    let mut i: usize = 0;
    while i < values.len()
        invariant
            i <= values@.len(),
            words@ == words_of_ints(values@.subrange(0, i as int)),
        decreases values@.len() - i,
    {
        words.push(values[i] as u32);
        proof {
            assert(words_of_ints(values@.subrange(0, i + 1)) =~= words_of_ints(values@.subrange(0, i as int)).push(
                values@[i as int] as u32,
            ));
        }
        i = i + 1;
    }
    proof {
        assert(values@.subrange(0, values@.len() as int) == values@);
    }
    encode_u32s(words.as_slice())
}

/// Decodes `count` signed 32-bit words from the front of `bytes`; `None`
/// when there are fewer than four bytes for each.
pub fn decode_i32s(bytes: &[u8], count: usize) -> (r: Option<Vec<i32>>)
    ensures
        r is None <==> bytes@.len() < 4 * count,
        r matches Some(vs) ==> vs@ == ints_of_words(decode_words(bytes@, count as nat)),
{
    let words = match decode_u32s(bytes, count) {
        None => return None,
        Some(ws) => ws,
    };
    let mut out: Vec<i32> = Vec::new();
    let mut i: usize = 0;
    while i < words.len()
        invariant
            i <= words@.len(),
            out@ == ints_of_words(words@.subrange(0, i as int)),
        decreases words@.len() - i,
    {
        out.push(words[i] as i32);
        proof {
            assert(ints_of_words(words@.subrange(0, i + 1)) =~= ints_of_words(words@.subrange(0, i as int)).push(
                words@[i as int] as i32,
            ));
        }
        i = i + 1;
    }
    proof {
        assert(words@.subrange(0, words@.len() as int) == words@);
    }
    Some(out)
}

} // verus!
