//! CRC-8 checksum of the sensor's words and the integrity check of a response.
use crate::endian::{lemma_u16_be_round_trip, u16_be_bytes, u16_from_be};
use crate::error::DataError;
use vstd::prelude::*;

verus! {

/// Initial value of the checksum register.
pub const INITIAL: u8 = 0xFF;

/// Generator polynomial x^8 + x^5 + x^4 + 1 without its leading term.
pub const XOR: u8 = 0x31;

/// One round of the checksum register: a left shift that folds the bit shifted
/// out back in through the generator polynomial.
pub open spec fn crc8_round(crc: u8) -> u8 {
    if crc & 0x80 != 0 {
        (crc << 1) ^ XOR
    } else {
        crc << 1
    }
}

/// `rounds` successive rounds applied to `crc`.
pub open spec fn crc8_rounds(crc: u8, rounds: nat) -> u8
    decreases rounds,
{
    if rounds == 0 {
        crc
    } else {
        crc8_round(crc8_rounds(crc, (rounds - 1) as nat))
    }
}

/// The register after `byte` was fed into a register that held `crc`.
pub open spec fn crc8_feed(crc: u8, byte: u8) -> u8 {
    crc8_rounds(crc ^ byte, 8)
}

/// CRC-8 of `data`: polynomial 0x31, initial value 0xFF, no reflection and no
/// final XOR.
pub open spec fn crc8(data: Seq<u8>) -> u8
    decreases data.len(),
{
    if data.len() == 0 {
        INITIAL
    } else {
        crc8_feed(crc8(data.drop_last()), data.last())
    }
}

/// `crc` is the checksum of `data`.
pub open spec fn crc8_verifies(data: Seq<u8>, crc: u8) -> bool {
    crc8(data) == crc
}

/// Computes the CRC-8 of `data`.
pub fn compute_crc8(data: &[u8]) -> (crc: u8)
    ensures
        crc == crc8(data@),
{
    let mut crc: u8 = INITIAL;
    let mut i: usize = 0;
    while i < data.len()
        invariant
            i <= data.len(),
            crc == crc8(data@.take(i as int)),
        decreases data.len() - i,
    {
        let ghost before = crc;
        crc ^= data[i];
        let mut round: u8 = 0;
        while round < 8
            invariant
                round <= 8,
                crc == crc8_rounds(before ^ data@[i as int], round as nat),
            decreases 8 - round,
        {
            if (crc & 0x80) != 0 {
                crc = (crc << 1) ^ XOR;
            } else {
                crc <<= 1;
            }
            round += 1;
        }
        proof {
            assert(data@.take(i + 1).drop_last() == data@.take(i as int));
        }
        i += 1;
    }
    proof {
        assert(data@.take(data@.len() as int) == data@);
    }
    crc
}

/// Tells whether `crc` is the CRC-8 of `data`.
pub fn crc8_matches(data: &[u8], crc: u8) -> (matches: bool)
    ensures
        matches == crc8_verifies(data@, crc),
{
    compute_crc8(data) == crc
}

/// The two data bytes of the `k`-th word of `buffer`.
pub open spec fn word_data(buffer: Seq<u8>, k: int) -> Seq<u8> {
    buffer.subrange(3 * k, 3 * k + 2)
}

/// The checksum byte of the `k`-th word of `buffer`.
pub open spec fn word_checksum(buffer: Seq<u8>, k: int) -> u8 {
    buffer[3 * k + 2]
}

/// The `k`-th word of `buffer` carries the checksum of its data.
pub open spec fn word_verifies(buffer: Seq<u8>, k: int) -> bool {
    crc8(word_data(buffer, k)) == word_checksum(buffer, k)
}

/// Every word of `buffer` carries the checksum of its data.
pub open spec fn words_verify(buffer: Seq<u8>) -> bool {
    forall|k: int| 0 <= k < buffer.len() / 3 ==> #[trigger] word_verifies(buffer, k)
}

/// The verdict on a response: its length is judged first, then its words.
pub open spec fn checked(buffer: Seq<u8>, expected_len: nat) -> Result<(), DataError> {
    if buffer.len() != expected_len {
        Err(DataError::ReceivedBufferWrongSize)
    } else if !words_verify(buffer) {
        Err(DataError::CrcFailed)
    } else {
        Ok(())
    }
}

/// The 16-bit value of a response of a single word, or the reason for which
/// the response is turned away.
pub open spec fn checked_word(buffer: Seq<u8>) -> Result<u16, DataError> {
    match checked(buffer, 3) {
        Ok(()) => Ok(u16_from_be(buffer[0], buffer[1])),
        Err(error) => Err(error),
    }
}

/// Accepts `data` as a response of `expected_len` bytes made of whole words,
/// each of which carries the checksum of its data.
///
/// A response is made of whole words: where `data` has the expected length,
/// that length is a multiple of three.
pub fn check_deserialization(data: &[u8], expected_len: usize) -> (result: Result<(), DataError>)
    requires
        data@.len() == expected_len ==> expected_len % 3 == 0,
    ensures
        result == checked(data@, expected_len as nat),
{
    if data.len() != expected_len {
        return Err(DataError::ReceivedBufferWrongSize);
    }
    let mut start: usize = 0;
    while start < data.len()
        invariant
            data@.len() == expected_len,
            expected_len % 3 == 0,
            start <= data@.len(),
            start % 3 == 0,
            forall|k: int| 0 <= k < start / 3 ==> #[trigger] word_verifies(data@, k),
        decreases data@.len() - start,
    {
        if !crc8_matches(&data[start..start + 2], data[start + 2]) {
            assert(!word_verifies(data@, start as int / 3));
            return Err(DataError::CrcFailed);
        }
        assert(word_verifies(data@, start as int / 3));
        start += 3;
    }
    Ok(())
}

/// A round loses nothing: registers that agree after a round agreed before it.
proof fn lemma_round_injective(a: u8, b: u8)
    requires
        crc8_round(a) == crc8_round(b),
    ensures
        a == b,
{
    assert(crc8_round(a) == crc8_round(b) ==> a == b) by (bit_vector);
}

/// Registers that agree after the same number of rounds agreed before them.
proof fn lemma_rounds_injective(a: u8, b: u8, rounds: nat)
    requires
        crc8_rounds(a, rounds) == crc8_rounds(b, rounds),
    ensures
        a == b,
    decreases rounds,
{
    if rounds > 0 {
        lemma_round_injective(
            crc8_rounds(a, (rounds - 1) as nat),
            crc8_rounds(b, (rounds - 1) as nat),
        );
        lemma_rounds_injective(a, b, (rounds - 1) as nat);
    }
}

/// Feeding a byte keeps registers apart, and keeps bytes apart: the result
/// agrees only where both the register and the byte do, as soon as one of
/// the two is shared.
pub proof fn lemma_feed_injective(crc_a: u8, byte_a: u8, crc_b: u8, byte_b: u8)
    requires
        crc8_feed(crc_a, byte_a) == crc8_feed(crc_b, byte_b),
        crc_a == crc_b || byte_a == byte_b,
    ensures
        crc_a == crc_b,
        byte_a == byte_b,
{
    lemma_rounds_injective(crc_a ^ byte_a, crc_b ^ byte_b, 8);
    assert(crc_a ^ byte_a == crc_b ^ byte_b && (crc_a == crc_b || byte_a == byte_b) ==> crc_a
        == crc_b && byte_a == byte_b) by (bit_vector);
}

/// The checksum tells apart any two sequences of one length that differ in
/// exactly one byte; a single flipped bit is the smallest such difference.
pub proof fn lemma_crc8_detects_one_changed_byte(a: Seq<u8>, b: Seq<u8>, at: int)
    requires
        a.len() == b.len(),
        0 <= at < a.len(),
        a[at] != b[at],
        forall|j: int| 0 <= j < a.len() && j != at ==> a[j] == b[j],
    ensures
        crc8(a) != crc8(b),
    decreases a.len(),
{
    if at == a.len() - 1 {
        assert(a.drop_last() =~= b.drop_last());
    } else {
        lemma_crc8_detects_one_changed_byte(a.drop_last(), b.drop_last(), at);
    }
    if crc8(a) == crc8(b) {
        lemma_feed_injective(crc8(a.drop_last()), a.last(), crc8(b.drop_last()), b.last());
    }
}

/// A checksum verifies the data that it was computed of, and no longer
/// verifies once a single bit of the data or of the checksum is flipped.
pub proof fn lemma_crc8_detects_one_flipped_bit(data: Seq<u8>, at: int, bit: u8)
    requires
        0 <= at < data.len(),
        bit < 8,
    ensures
        crc8_verifies(data, crc8(data)),
        !crc8_verifies(data.update(at, data[at] ^ (1u8 << bit)), crc8(data)),
        !crc8_verifies(data, crc8(data) ^ (1u8 << bit)),
{
    let byte = data[at];
    let crc = crc8(data);
    assert(bit < 8 ==> byte ^ (1u8 << bit) != byte) by (bit_vector);
    assert(bit < 8 ==> crc ^ (1u8 << bit) != crc) by (bit_vector);
    lemma_crc8_detects_one_changed_byte(data.update(at, byte ^ (1u8 << bit)), data, at);
}

/// A response that verifies no longer does once exactly one of its bytes is
/// changed, be it a data byte or a checksum: the whole response is then
/// turned away for its checksum.
pub proof fn lemma_one_changed_byte_fails(buffer: Seq<u8>, altered: Seq<u8>, at: int)
    requires
        checked(buffer, buffer.len()) is Ok,
        buffer.len() % 3 == 0,
        altered.len() == buffer.len(),
        0 <= at < buffer.len(),
        altered[at] != buffer[at],
        forall|j: int| 0 <= j < buffer.len() && j != at ==> altered[j] == buffer[j],
    ensures
        checked(altered, buffer.len()) == Err::<(), DataError>(DataError::CrcFailed),
{
    let k = at / 3;
    assert(word_verifies(buffer, k));
    if at % 3 == 2 {
        assert(word_data(altered, k) =~= word_data(buffer, k));
    } else {
        lemma_crc8_detects_one_changed_byte(word_data(altered, k), word_data(buffer, k), at - 3 * k);
    }
    assert(!word_verifies(altered, k));
}

/// A response of another length than the expected one is turned away for
/// its length, whatever its words hold.
pub proof fn lemma_wrong_length_fails(buffer: Seq<u8>, expected_len: nat)
    requires
        buffer.len() != expected_len,
    ensures
        checked(buffer, expected_len) == Err::<(), DataError>(
            DataError::ReceivedBufferWrongSize,
        ),
{
}

/// The response of one word in which the sensor reports `value`: the two
/// bytes of the value and their checksum.
pub open spec fn word_of(value: u16) -> Seq<u8> {
    u16_be_bytes(value).push(crc8(u16_be_bytes(value)))
}

/// What is written as a word is read back as it was: a value, sent with the
/// checksum of its bytes, is accepted and is the value received.
pub proof fn lemma_word_round_trip(value: u16)
    ensures
        checked_word(word_of(value)) == Ok::<u16, DataError>(value),
{
    let buffer = word_of(value);
    lemma_u16_be_round_trip(value);
    assert(word_data(buffer, 0) =~= u16_be_bytes(value));
    assert(word_verifies(buffer, 0));
}

} // verus!
