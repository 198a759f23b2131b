//! The XOR checksum that closes every frame.
use vstd::prelude::*;

verus! {

/// The exclusive or of all bytes of a sequence.
pub open spec fn xor_all(data: Seq<u8>) -> u8
    decreases data.len(),
{
    if data.len() == 0 {
        0
    } else {
        xor_all(data.drop_last()) ^ data.last()
    }
}

/// Computes the XOR checksum over a byte slice.
pub fn compute_checksum(data: &[u8]) -> (checksum: u8)
    ensures
        checksum == xor_all(data@),
{
    let mut checksum: u8 = 0;
    let n: usize = data.len();
    for i in 0..n
        invariant
            n == data@.len(),
            checksum == xor_all(data@.take(i as int)),
    {
        assert(data@.take(i + 1).drop_last() =~= data@.take(i as int));
        checksum = checksum ^ data[i];
    }
    assert(data@.take(n as int) =~= data@);
    checksum
}

/// Appending the checksum makes the whole sequence cancel out to zero.
pub proof fn law_checksum_cancels(data: Seq<u8>)
    ensures
        xor_all(data.push(xor_all(data))) == 0,
{
    let sum: u8 = xor_all(data);
    assert(data.push(sum).drop_last() =~= data);
    assert(sum ^ sum == 0u8) by (bit_vector);
}

/// Replacing one byte changes the checksum by exactly the bits that changed.
pub proof fn lemma_xor_update(data: Seq<u8>, i: int, byte: u8)
    requires
        0 <= i < data.len(),
    ensures
        xor_all(data.update(i, byte)) == xor_all(data) ^ data[i] ^ byte,
    decreases data.len(),
{
    let changed = data.update(i, byte);
    let last: u8 = data.last();
    let head: u8 = xor_all(data.drop_last());
    if i == data.len() - 1 {
        assert(changed.drop_last() =~= data.drop_last());
        assert(head ^ byte == head ^ last ^ last ^ byte) by (bit_vector);
    } else {
        assert(changed.drop_last() =~= data.drop_last().update(i, byte));
        lemma_xor_update(data.drop_last(), i, byte);
        let was: u8 = data[i];
        assert(head ^ was ^ byte ^ last == head ^ last ^ was ^ byte) by (bit_vector);
    }
}

/// No change of a single byte, hence no single-bit error, escapes the
/// checksum.
pub proof fn law_single_byte_error_is_detected(data: Seq<u8>, i: int, byte: u8)
    requires
        0 <= i < data.len(),
        byte != data[i],
    ensures
        xor_all(data.update(i, byte)) != xor_all(data),
{
    lemma_xor_update(data, i, byte);
    let sum: u8 = xor_all(data);
    let was: u8 = data[i];
    assert(byte != was ==> sum ^ was ^ byte != sum) by (bit_vector);
}

/// The checksum is the exclusive or of all bytes: none give zero, one gives itself,
/// and the checksum of two parts is that of the one and the other.
pub proof fn law_checksum_of_parts(a: Seq<u8>, b: Seq<u8>, byte: u8)
    ensures
        xor_all(Seq::<u8>::empty()) == 0,
        xor_all(seq![byte]) == byte,
        xor_all(a.push(byte)) == xor_all(a) ^ byte,
        xor_all(a + b) == xor_all(a) ^ xor_all(b),
    decreases b.len(),
{
    assert(seq![byte].drop_last() =~= Seq::<u8>::empty());
    assert(0u8 ^ byte == byte) by (bit_vector);
    reveal_with_fuel(xor_all, 2);
    assert(a.push(byte).drop_last() =~= a);
    let sum: u8 = xor_all(a);
    if b.len() == 0 {
        assert(a + b =~= a);
        assert(sum ^ 0u8 == sum) by (bit_vector);
    } else {
        let head: u8 = xor_all(b.drop_last());
        let last: u8 = b.last();
        law_checksum_of_parts(a, b.drop_last(), byte);
        assert((a + b).drop_last() =~= a + b.drop_last());
        assert((sum ^ head) ^ last == sum ^ (head ^ last)) by (bit_vector);
    }
}

} // verus!
