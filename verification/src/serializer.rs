//! Byte-level encoders of the container format.
//!
//! Every encoder appends to a growing buffer and states the appended bytes
//! through a spec function, so that the layout of a whole blueprint can be
//! written as a concatenation of these pieces.

use vstd::prelude::*;

verus! {

/// Largest payload that a single chunk header can announce.
pub const CHUNK_MAX: usize = 255;

/// A length word equal to this value announces that another word follows.
pub const WORD_MAX: u16 = 65535;

/// Two bytes of `n`, low byte first.
pub open spec fn u16_le(n: u16) -> Seq<u8> {
    seq![(n % 256) as u8, (n / 256) as u8]
}

/// The low three bytes of `n`, low byte first.
pub open spec fn u24_le(n: u32) -> Seq<u8> {
    seq![(n % 256) as u8, (n / 256 % 256) as u8, (n / 65536 % 256) as u8]
}

/// Four bytes of `n`, low byte first.
pub open spec fn u32_le(n: u32) -> Seq<u8> {
    seq![
        (n % 256) as u8,
        (n / 256 % 256) as u8,
        (n / 65536 % 256) as u8,
        (n / 16777216) as u8,
    ]
}

/// Eight bytes of `n`, low byte first.
pub open spec fn u64_le(n: u64) -> Seq<u8> {
    u32_le((n % 0x1_0000_0000) as u32) + u32_le((n / 0x1_0000_0000) as u32)
}

/// The two's complement bit pattern of `n`.
pub open spec fn i32_bits(n: i32) -> u32 {
    if n >= 0 {
        n as u32
    } else {
        (n + 0x1_0000_0000) as u32
    }
}

/// The two's complement bit pattern of `n`.
pub open spec fn i64_bits(n: i64) -> u64 {
    if n >= 0 {
        n as u64
    } else {
        (n + 0x1_0000_0000_0000_0000) as u64
    }
}

/// The legacy 32-bit layout: the high half as a little-endian word, then the
/// low half as a little-endian word.
pub open spec fn word_swapped_u32(n: u32) -> Seq<u8> {
    u16_le((n / 65536) as u16) + u16_le((n % 65536) as u16)
}

/// The words that announce a body of `length` bytes: full words while at
/// least `WORD_MAX` remains, then one word below `WORD_MAX`.
pub open spec fn length_words(length: nat) -> Seq<u16>
    decreases length,
{
    if length >= 65535 {
        seq![65535u16] + length_words((length - 65535) as nat)
    } else {
        seq![length as u16]
    }
}

/// The sum of a sequence of length words: what a reader of the format adds up.
pub open spec fn words_total(words: Seq<u16>) -> nat
    decreases words.len(),
{
    if words.len() == 0 {
        0
    } else {
        words[0] as nat + words_total(words.skip(1))
    }
}

/// The bytes of a sequence of words, each little-endian.
pub open spec fn words_le(words: Seq<u16>) -> Seq<u8>
    decreases words.len(),
{
    if words.len() == 0 {
        Seq::empty()
    } else {
        u16_le(words[0]) + words_le(words.skip(1))
    }
}

/// The pieces into which a payload is cut: each holds `CHUNK_MAX` bytes but
/// the last, which holds what is left and may be empty only when the payload is.
pub open spec fn chunks(data: Seq<u8>) -> Seq<Seq<u8>>
    decreases data.len(),
{
    if data.len() <= 255 {
        seq![data]
    } else {
        seq![data.take(255)] + chunks(data.skip(255))
    }
}

/// The pieces of `parts`, one after another.
pub open spec fn concat(parts: Seq<Seq<u8>>) -> Seq<u8>
    decreases parts.len(),
{
    if parts.len() == 0 {
        Seq::empty()
    } else {
        parts[0] + concat(parts.skip(1))
    }
}

/// One chunk as it is emitted: the entry id, the chunk's length, its bytes.
pub open spec fn framed_chunk(id: u16, chunk: Seq<u8>) -> Seq<u8> {
    u16_le(id) + seq![chunk.len() as u8] + chunk
}

/// The chunks of `parts` as they are emitted, each under the same entry id.
pub open spec fn framed(id: u16, parts: Seq<Seq<u8>>) -> Seq<u8>
    decreases parts.len(),
{
    if parts.len() == 0 {
        Seq::empty()
    } else {
        framed_chunk(id, parts[0]) + framed(id, parts.skip(1))
    }
}

/// A variable-length payload as it is emitted under entry id `id`.
pub open spec fn chunked(id: u16, data: Seq<u8>) -> Seq<u8> {
    framed(id, chunks(data))
}

/// The number of chunks of a payload of `length` bytes.
pub open spec fn chunk_count(length: nat) -> nat {
    if length == 0 {
        1
    } else {
        ((length + 254) / 255) as nat
    }
}

/// The length words of any body sum to its length.
pub proof fn lemma_length_words_total(length: nat)
    ensures
        words_total(length_words(length)) == length,
    decreases length,
{
    let words = length_words(length);
    if length >= 65535 {
        let rest = length_words((length - 65535) as nat);
        lemma_length_words_total((length - 65535) as nat);
        assert(words.skip(1) =~= rest);
    } else {
        assert(words.skip(1) =~= Seq::<u16>::empty());
        assert(words_total(words.skip(1)) == 0);
    }
}

/// The length words end with a word below `WORD_MAX`, and every word before
/// the last equals `WORD_MAX`: a reader knows where the sequence stops.
pub proof fn lemma_length_words_terminated(length: nat)
    ensures
        length_words(length).len() == length / 65535 + 1,
        length_words(length).last() < 65535,
        length_words(length).last() == length % 65535,
        forall|i: int|
            0 <= i < length_words(length).len() - 1 ==> #[trigger] length_words(length)[i] == 65535,
    decreases length,
{
    if length >= 65535 {
        let rest = length_words((length - 65535) as nat);
        lemma_length_words_terminated((length - 65535) as nat);
        let words = length_words(length);
        assert(words =~= seq![65535u16] + rest);
        assert forall|i: int| 0 <= i < words.len() - 1 implies #[trigger] words[i] == 65535 by {
            if i > 0 {
                assert(words[i] == rest[i - 1]);
            }
        }
    }
}

/// A payload is cut into `chunk_count` chunks.
pub proof fn lemma_chunks_count(data: Seq<u8>)
    ensures
        chunks(data).len() == chunk_count(data.len()),
    decreases data.len(),
{
    if data.len() > 255 {
        lemma_chunks_count(data.skip(255));
    }
}

/// No chunk is longer than `CHUNK_MAX`, and all but the last are full.
pub proof fn lemma_chunks_bounded(data: Seq<u8>)
    ensures
        forall|i: int| 0 <= i < chunks(data).len() ==> (#[trigger] chunks(data)[i]).len() <= 255,
        forall|i: int|
            0 <= i < chunks(data).len() - 1 ==> (#[trigger] chunks(data)[i]).len() == 255,
    decreases data.len(),
{
    if data.len() > 255 {
        let rest = chunks(data.skip(255));
        lemma_chunks_bounded(data.skip(255));
        let all = chunks(data);
        assert(all =~= seq![data.take(255)] + rest);
        assert forall|i: int| 0 <= i < all.len() implies (#[trigger] all[i]).len() <= 255 by {
            if i > 0 {
                assert(all[i] == rest[i - 1]);
            }
        }
        assert forall|i: int| 0 <= i < all.len() - 1 implies (#[trigger] all[i]).len() == 255 by {
            if i > 0 {
                assert(all[i] == rest[i - 1]);
            }
        }
    }
}

/// The chunks of a payload, put together in order, are the payload.
pub proof fn lemma_chunks_concat(data: Seq<u8>)
    ensures
        concat(chunks(data)) =~= data,
    decreases data.len(),
{
    let parts = chunks(data);
    if data.len() > 255 {
        lemma_chunks_concat(data.skip(255));
        assert(parts.skip(1) =~= chunks(data.skip(255)));
        assert(data.take(255) + data.skip(255) =~= data);
    } else {
        assert(parts.skip(1) =~= Seq::<Seq<u8>>::empty());
        assert(concat(parts.skip(1)) =~= Seq::<u8>::empty());
    }
}

/// What `chunked` emits for a payload longer than one chunk: a full first
/// chunk, then the rest of the payload chunked in the same way.
pub proof fn lemma_chunked_unfold(id: u16, data: Seq<u8>)
    ensures
        data.len() <= 255 ==> chunked(id, data) =~= framed_chunk(id, data),
        data.len() > 255 ==> chunked(id, data) =~= framed_chunk(id, data.take(255)) + chunked(
            id,
            data.skip(255),
        ),
{
    let parts = chunks(data);
    if data.len() > 255 {
        assert(parts.skip(1) =~= chunks(data.skip(255)));
    } else {
        assert(parts.skip(1) =~= Seq::<Seq<u8>>::empty());
        assert(framed(id, parts.skip(1)) =~= Seq::<u8>::empty());
    }
}

/// A growing byte buffer with the format's encoders.
pub struct Serializer {
    data: Vec<u8>,
}

impl View for Serializer {
    type V = Seq<u8>;

    closed spec fn view(&self) -> Seq<u8> {
        self.data@
    }
}

impl Serializer {
    /// An empty buffer.
    pub fn new() -> (s: Self)
        ensures
            s@ == Seq::<u8>::empty(),
    {
        Serializer { data: Vec::new() }
    }

    pub fn push_u8(&mut self, n: u8)
        ensures
            final(self)@ == old(self)@.push(n),
    {
        self.data.push(n);
    }

    pub fn push_u16(&mut self, n: u16)
        ensures
            final(self)@ == old(self)@ + u16_le(n),
    {
        let low: u8 = (n & 0xff) as u8;
        let high: u8 = (n >> 8) as u8;
        assert(low == (n % 256) as u8 && high == (n / 256) as u8) by (bit_vector)
            requires
                low == (n & 0xff) as u8,
                high == (n >> 8) as u8,
        ;
        self.data.push(low);
        self.data.push(high);
        assert(self@ =~= old(self)@ + u16_le(n));
    }

    /// Appends the low three bytes of an identifier of the format.
    pub fn push_u24(&mut self, n: u32)
        requires
            n < 0x100_0000,
        ensures
            final(self)@ == old(self)@ + u24_le(n),
    {
        let b0: u8 = (n & 0xff) as u8;
        let b1: u8 = ((n >> 8) & 0xff) as u8;
        let b2: u8 = ((n >> 16) & 0xff) as u8;
        assert(b0 == (n % 256) as u8 && b1 == (n / 256 % 256) as u8 && b2 == (n / 65536 % 256)
            as u8) by (bit_vector)
            requires
                b0 == (n & 0xff) as u8,
                b1 == ((n >> 8) & 0xff) as u8,
                b2 == ((n >> 16) & 0xff) as u8,
        ;
        self.data.push(b0);
        self.data.push(b1);
        self.data.push(b2);
        assert(self@ =~= old(self)@ + u24_le(n));
    }

    pub fn push_u32(&mut self, n: u32)
        ensures
            final(self)@ == old(self)@ + u32_le(n),
    {
        let b0: u8 = (n & 0xff) as u8;
        let b1: u8 = ((n >> 8) & 0xff) as u8;
        let b2: u8 = ((n >> 16) & 0xff) as u8;
        let b3: u8 = (n >> 24) as u8;
        assert(b0 == (n % 256) as u8 && b1 == (n / 256 % 256) as u8 && b2 == (n / 65536 % 256) as u8
            && b3 == (n / 16777216) as u8) by (bit_vector)
            requires
                b0 == (n & 0xff) as u8,
                b1 == ((n >> 8) & 0xff) as u8,
                b2 == ((n >> 16) & 0xff) as u8,
                b3 == (n >> 24) as u8,
        ;
        self.data.push(b0);
        self.data.push(b1);
        self.data.push(b2);
        self.data.push(b3);
        assert(self@ =~= old(self)@ + u32_le(n));
    }

    pub fn push_u64(&mut self, n: u64)
        ensures
            final(self)@ == old(self)@ + u64_le(n),
    {
        let low: u32 = (n & 0xffff_ffff) as u32;
        let high: u32 = (n >> 32) as u32;
        assert(low == (n % 0x1_0000_0000) as u32 && high == (n / 0x1_0000_0000) as u32)
            by (bit_vector)
            requires
                low == (n & 0xffff_ffff) as u32,
                high == (n >> 32) as u32,
        ;
        self.push_u32(low);
        self.push_u32(high);
        assert(self@ =~= old(self)@ + u64_le(n));
    }

    pub fn push_i32(&mut self, n: i32)
        ensures
            final(self)@ == old(self)@ + u32_le(i32_bits(n)),
    {
        let bits: u32 = n as u32;
        assert(bits == i32_bits(n)) by (bit_vector)
            requires
                bits == n as u32,
        ;
        self.push_u32(bits);
    }

    pub fn push_i64(&mut self, n: i64)
        ensures
            final(self)@ == old(self)@ + u64_le(i64_bits(n)),
    {
        let bits: u64 = n as u64;
        assert(bits == i64_bits(n)) by (bit_vector)
            requires
                bits == n as u64,
        ;
        self.push_u64(bits);
    }

    /// Appends a 32-bit value in the legacy layout, high half first.
    pub fn push_wierd_u32(&mut self, n: u32)
        ensures
            final(self)@ == old(self)@ + word_swapped_u32(n),
    {
        let high: u16 = (n >> 16) as u16;
        let low: u16 = (n & 0xffff) as u16;
        assert(high == (n / 65536) as u16 && low == (n % 65536) as u16) by (bit_vector)
            requires
                high == (n >> 16) as u16,
                low == (n & 0xffff) as u16,
        ;
        self.push_u16(high);
        self.push_u16(low);
        assert(self@ =~= old(self)@ + word_swapped_u32(n));
    }

    pub fn push_bytes(&mut self, bytes: &[u8])
        ensures
            final(self)@ == old(self)@ + bytes@,
    {
        let mut i: usize = 0;
        while i < bytes.len()
            invariant
                i <= bytes@.len(),
                self@ == old(self)@ + bytes@.take(i as int),
            decreases bytes@.len() - i,
        {
            self.data.push(bytes[i]);
            assert(bytes@.take(i + 1) =~= bytes@.take(i as int).push(bytes@[i as int]));
            assert(self@ =~= old(self)@ + bytes@.take(i + 1));
            i += 1;
        }
        assert(bytes@.take(i as int) =~= bytes@);
    }

    /// Appends the length words of a body of `length` bytes.
    pub fn push_length_words(&mut self, length: usize)
        ensures
            final(self)@ == old(self)@ + words_le(length_words(length as nat)),
    {
        let mut remaining: usize = length;
        while remaining >= 65535
            invariant
                remaining <= length,
                self@ + words_le(length_words(remaining as nat)) == old(self)@ + words_le(
                    length_words(length as nat),
                ),
            decreases remaining,
        {
            let ghost before = self@;
            let ghost words = length_words(remaining as nat);
            self.push_u16(WORD_MAX);
            remaining -= 65535;
            proof {
                assert(words.skip(1) =~= length_words(remaining as nat));
                assert(self@ + words_le(length_words(remaining as nat)) =~= before + words_le(
                    words,
                ));
            }
        }
        let ghost before = self@;
        let ghost words = length_words(remaining as nat);
        self.push_u16(remaining as u16);
        proof {
            assert(words.skip(1) =~= Seq::<u16>::empty());
            assert(words_le(words.skip(1)) =~= Seq::<u8>::empty());
            assert(self@ =~= before + words_le(words));
        }
    }

    /// Appends a variable-length payload, cut into chunks that each repeat
    /// the entry id before their length byte.
    pub fn push_chunked(&mut self, entry_id: u16, data: &[u8])
        ensures
            final(self)@ == old(self)@ + chunked(entry_id, data@),
    {
        let mut start: usize = 0;
        assert(data@.skip(0) =~= data@);
        while data.len() - start > CHUNK_MAX
            invariant
                start <= data@.len(),
                self@ + chunked(entry_id, data@.skip(start as int)) == old(self)@ + chunked(
                    entry_id,
                    data@,
                ),
            decreases data@.len() - start,
        {
            let ghost before = self@;
            let ghost rest = data@.skip(start as int);
            let piece = vstd::slice::slice_subrange(data, start, start + CHUNK_MAX);
            self.push_u16(entry_id);
            self.push_u8(255);
            self.push_bytes(piece);
            start += CHUNK_MAX;
            proof {
                lemma_chunked_unfold(entry_id, rest);
                assert(piece@ =~= rest.take(255));
                assert(data@.skip(start as int) =~= rest.skip(255));
                assert(self@ =~= before + framed_chunk(entry_id, rest.take(255)));
                assert(self@ + chunked(entry_id, data@.skip(start as int)) =~= before + chunked(
                    entry_id,
                    rest,
                ));
            }
        }
        let ghost before = self@;
        let ghost rest = data@.skip(start as int);
        let piece = vstd::slice::slice_subrange(data, start, data.len());
        let amount: usize = data.len() - start;
        self.push_u16(entry_id);
        self.push_u8(amount as u8);
        self.push_bytes(piece);
        proof {
            lemma_chunked_unfold(entry_id, rest);
            assert(piece@ =~= rest);
            assert(self@ =~= before + framed_chunk(entry_id, rest));
        }
    }

    pub fn len(&self) -> (n: usize)
        ensures
            n == self@.len(),
    {
        self.data.len()
    }

    pub fn as_slice(&self) -> (bytes: &[u8])
        ensures
            bytes@ == self@,
    {
        self.data.as_slice()
    }

    pub fn into_inner(self) -> (bytes: Vec<u8>)
        ensures
            bytes@ == self@,
    {
        self.data
    }
}

} // verus!
