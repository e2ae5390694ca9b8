//! The large-message layout used to exercise fragmentation: a 4-byte
//! little-endian sequence number followed by the byte pattern `j % 256`, and the
//! checks a receiver makes on an echoed message.

use vstd::prelude::*;

verus! {

/// The four little-endian bytes of a sequence number.
pub open spec fn le_bytes(seq: u32) -> Seq<u8> {
    seq![
        (seq % 256) as u8,
        ((seq / 256) % 256) as u8,
        ((seq / 65536) % 256) as u8,
        (seq / 16777216) as u8,
    ]
}

/// The number that four little-endian bytes stand for.
pub open spec fn le_value(b: Seq<u8>) -> int
    recommends
        b.len() >= 4,
{
    b[0] + 256 * b[1] + 65536 * b[2] + 16777216 * b[3]
}

/// The filler byte at position `j` of a message.
pub open spec fn pattern_byte(j: int) -> u8 {
    (j % 256) as u8
}

/// A message of `size` bytes carrying sequence number `seq`: its little-endian
/// bytes first, then the filler pattern.
pub open spec fn sequenced_message(seq: u32, size: nat) -> Seq<u8> {
    Seq::new(size, |j: int| if j < 4 { le_bytes(seq)[j] } else { pattern_byte(j) })
}

/// Builds the message of `size` bytes that carries sequence number `seq`.
pub fn build_message(seq: u32, size: usize) -> (r: Vec<u8>)
    requires
        size >= 4,
    ensures
        r@ == sequenced_message(seq, size as nat),
        r@.len() == size,
        forall|j: int| 4 <= j < size ==> #[trigger] r@[j] == (j % 256) as u8,
        le_value(r@) == seq,
{
    proof { lemma_message_layout(seq, size as nat); }
    let head: [u8; 4] = [
        (seq % 256) as u8,
        ((seq / 256) % 256) as u8,
        ((seq / 65536) % 256) as u8,
        (seq / 16777216) as u8,
    ];
    assert(head@ =~= le_bytes(seq));
    let mut msg: Vec<u8> = Vec::new();
    let mut j: usize = 0;
    while j < size
        invariant
            j <= size,
            head@ == le_bytes(seq),
            msg@ =~= sequenced_message(seq, j as nat),
        decreases size - j,
    {
        if j < 4 {
            msg.push(head[j]);
        } else {
            msg.push((j % 256) as u8);
        }
        j = j + 1;
    }
    msg
}

/// Reads the sequence number at the start of a message.
pub fn message_sequence(data: &[u8]) -> (r: u32)
    requires
        data@.len() >= 4,
    ensures
        r == le_value(data@),
{
    data[0] as u32 + (data[1] as u32) * 256 + (data[2] as u32) * 65536 + (data[3] as u32)
        * 16777216
}

/// Whether an echoed message came back whole: it has the expected size and,
/// after the sequence number, the same bytes as the message sent.
pub fn echo_intact(data: &[u8], sent: &[u8], size: usize) -> (r: bool)
    requires
        sent@.len() >= 4,
        size >= 4,
    ensures
        r == (data@.len() == size && data@.skip(4) == sent@.skip(4)),
{
    if data.len() != size {
        return false;
    }
    if data.len() != sent.len() {
        assert(data@.skip(4).len() != sent@.skip(4).len());
        return false;
    }
    let n: usize = data.len();
    let mut j: usize = 4;
    while j < n
        invariant
            n == data@.len(),
            n == sent@.len(),
            4 <= n,
            4 <= j <= n,
            forall|k: int| 4 <= k < j ==> data@[k] == sent@[k],
        decreases n - j,
    {
        if data[j] != sent[j] {
            assert(data@.skip(4)[j - 4] != sent@.skip(4)[j - 4]);
            return false;
        }
        j = j + 1;
    }
    assert(data@.skip(4) =~= sent@.skip(4));
    true
}

/// A message's sequence number reads back as the number it was built with.
pub proof fn lemma_sequence_round_trip(seq: u32, size: nat)
    requires
        size >= 4,
    ensures
        le_value(sequenced_message(seq, size)) == seq,
{
    assert(seq == (seq % 256) + 256 * ((seq / 256) % 256) + 65536 * ((seq / 65536) % 256)
        + 16777216 * (seq / 16777216)) by (bit_vector);
    assert(sequenced_message(seq, size)[0] == le_bytes(seq)[0]);
    assert(sequenced_message(seq, size)[1] == le_bytes(seq)[1]);
    assert(sequenced_message(seq, size)[2] == le_bytes(seq)[2]);
    assert(sequenced_message(seq, size)[3] == le_bytes(seq)[3]);
}

/// The layout of a built message: it has exactly `size` bytes, every byte after
/// the sequence number is its own position modulo 256 (`j % 256`), whatever the
/// position and the sequence number, and its first four bytes are the sequence
/// number's bytes, least significant first, so they read back as that number.
pub proof fn lemma_message_layout(seq: u32, size: nat)
    requires
        size >= 4,
    ensures
        sequenced_message(seq, size).len() == size,
        forall|j: int| 4 <= j < size ==> #[trigger] sequenced_message(seq, size)[j] == (j % 256) as u8,
        sequenced_message(seq, size)[0] == seq % 256,
        sequenced_message(seq, size)[1] == (seq / 256) % 256,
        sequenced_message(seq, size)[2] == (seq / 65536) % 256,
        sequenced_message(seq, size)[3] == seq / 16777216,
        le_value(sequenced_message(seq, size)) == seq,
{
    assert(seq / 16777216 < 256) by (bit_vector);
    lemma_sequence_round_trip(seq, size);
}

} // verus!
