//! Length-prefixed framing of protocol buffers: an 8-byte big-endian length
//! in front of each serialized message.

use vstd::prelude::*;

verus! {

/// The size of the length prefix, in bytes.
pub const LENGTH_PREFIX_SIZE: usize = 8;

/// Declares protobuf's error type, carried by the framing error.
#[verifier::external_type_specification]
#[verifier::external_body]
pub struct ExProtobufError(protobuf::error::ProtobufError);

/// Why a protocol buffer could not be framed or decoded.
#[derive(Debug)]
pub enum TransportProtocolError {
    /// The protobuf library failed to encode or decode a message.
    ProtobufError(protobuf::error::ProtobufError),
    /// A response carried a status other than success.
    ResponseStatusError(i32),
    /// A number did not fit the type it was converted to.
    TryIntoError(std::num::TryFromIntError),
}

/// 256 to the power `n`.
pub open spec fn pow256(n: nat) -> nat
    decreases n,
{
    if n == 0 {
        1
    } else {
        256 * pow256((n - 1) as nat)
    }
}

/// The number that a sequence of bytes spells in big-endian order.
pub open spec fn be_value(s: Seq<u8>) -> nat
    decreases s.len(),
{
    if s.len() == 0 {
        0
    } else {
        (be_value(s.drop_last()) * 256 + s.last()) as nat
    }
}

/// `n` bytes spell a number below `256^n`.
proof fn lemma_be_value_bound(s: Seq<u8>)
    ensures
        be_value(s) < pow256(s.len()),
    decreases s.len(),
{
    if s.len() > 0 {
        let d = s.drop_last();
        lemma_be_value_bound(d);
        let a = be_value(d);
        let p = pow256(d.len());
        let b = s.last() as nat;
        assert(a * 256 + b < 256 * p) by (nonlinear_arith)
            requires
                a < p,
                b < 256,
        ;
    }
}

/// Powers of 256 grow with the exponent.
proof fn lemma_pow256_monotonic(a: nat, b: nat)
    requires
        a <= b,
    ensures
        pow256(a) <= pow256(b),
    decreases b,
{
    if a < b {
        lemma_pow256_monotonic(a, (b - 1) as nat);
    }
}

/// Splits a framed buffer into the length that its prefix states and the
/// bytes that follow the prefix.
pub fn get_length_prefix(buffer: &[u8]) -> (r: (u64, &[u8]))
    requires
        buffer@.len() >= LENGTH_PREFIX_SIZE,
    ensures
        r.0 == be_value(buffer@.take(LENGTH_PREFIX_SIZE as int)),
        r.1@ == buffer@.skip(LENGTH_PREFIX_SIZE as int),
{
    let (prefix, rest) = buffer.split_at(LENGTH_PREFIX_SIZE);
    let mut length: u64 = 0;
    let mut i: usize = 0;
    while i < LENGTH_PREFIX_SIZE
        invariant
            buffer@.len() >= LENGTH_PREFIX_SIZE,
            prefix@ == buffer@.take(LENGTH_PREFIX_SIZE as int),
            i <= LENGTH_PREFIX_SIZE,
            length == be_value(prefix@.take(i as int)),
        decreases LENGTH_PREFIX_SIZE - i,
    {
        proof {
            lemma_be_value_bound(prefix@.take(i as int));
            lemma_pow256_monotonic(i as nat, 7);
            reveal_with_fuel(pow256, 8);
            assert(pow256(7) == 0x100_0000_0000_0000);
        }
        assert(prefix@.take(i + 1).drop_last() =~= prefix@.take(i as int));
        length = length * 256 + prefix[i] as u64;
        i += 1;
    }
    assert(prefix@.take(LENGTH_PREFIX_SIZE as int) =~= prefix@);
    (length, rest)
}

/// Putting a byte in front multiplies it by `256^n`, `n` the length of the rest.
proof fn lemma_be_value_prepend(b: u8, d: Seq<u8>)
    ensures
        be_value(seq![b] + d) == b * pow256(d.len()) + be_value(d),
    decreases d.len(),
{
    let s = seq![b] + d;
    if d.len() == 0 {
        assert(s.drop_last() =~= Seq::<u8>::empty());
        assert(s.last() == b);
        assert(pow256(0) == 1);
        assert(be_value(s.drop_last()) == 0);
        assert(be_value(s) == b);
        assert(b * pow256(0) == b);
    } else {
        let d1 = d.drop_last();
        assert(s.drop_last() =~= seq![b] + d1);
        assert(s.last() == d.last());
        assert(pow256(d.len()) == 256 * pow256(d1.len()));
        lemma_be_value_prepend(b, d1);
        let p = pow256(d1.len());
        let x = be_value(d1);
        assert((b * p + x) * 256 + d.last() == b * (256 * p) + (x * 256 + d.last())) by (nonlinear_arith);
        assert(be_value(s) == be_value(s.drop_last()) * 256 + s.last());
        assert(be_value(d) == x * 256 + d.last());
    }
}

/// The big-endian bytes of `v`, most significant first.
fn u64_to_be_bytes(v: u64) -> (r: Vec<u8>)
    ensures
        r@.len() == LENGTH_PREFIX_SIZE,
        be_value(r@) == v,
{
    let mut digits: Vec<u8> = Vec::new();
    let mut rest: u64 = v;
    let mut k: usize = 0;
    proof {
        reveal_with_fuel(pow256, 9);
        assert(pow256(8) == 0x1_0000_0000_0000_0000);
        assert(be_value(digits@) == 0);
        assert(pow256(0) == 1);
        assert(v == rest * pow256(0) + be_value(digits@));
    }
    // `digits` holds the `k` least significant bytes, most significant first.
    while k < LENGTH_PREFIX_SIZE
        invariant
            k <= LENGTH_PREFIX_SIZE,
            digits@.len() == k,
            v == rest * pow256(k as nat) + be_value(digits@),
            rest < pow256((LENGTH_PREFIX_SIZE - k) as nat),
        decreases LENGTH_PREFIX_SIZE - k,
    {
        let byte = (rest % 256) as u8;
        let next = rest / 256;
        proof {
            let d = digits@;
            lemma_be_value_prepend(byte, d);
            let p = pow256(k as nat);
            assert(pow256((k + 1) as nat) == 256 * p);
            assert(rest * p == next * (256 * p) + byte * p) by (nonlinear_arith)
                requires
                    rest == next * 256 + byte,
            ;
            assert(pow256((LENGTH_PREFIX_SIZE - k) as nat) == 256 * pow256((LENGTH_PREFIX_SIZE - k - 1) as nat));
        }
        let ghost before = digits@;
        digits.insert(0, byte);
        assert(digits@ =~= seq![byte] + before);
        rest = next;
        k += 1;
    }
    proof {
        reveal_with_fuel(pow256, 1);
    }
    digits
}

/// Returns the buffer prefixed with its length, and leaves `buffer` empty.
pub fn set_length_prefix(buffer: &mut Vec<u8>) -> (r: Result<Vec<u8>, TransportProtocolError>)
    ensures
        final(buffer)@.len() == 0,
        r matches Ok(framed) && {
            &&& framed@.len() == LENGTH_PREFIX_SIZE + old(buffer)@.len()
            &&& be_value(framed@.take(LENGTH_PREFIX_SIZE as int)) == old(buffer)@.len()
            &&& framed@.skip(LENGTH_PREFIX_SIZE as int) == old(buffer)@
        },
{
    let mut length_bytes = u64_to_be_bytes(buffer.len() as u64);
    let ghost prefix = length_bytes@;
    length_bytes.append(buffer);
    assert(length_bytes@.take(LENGTH_PREFIX_SIZE as int) =~= prefix);
    assert(length_bytes@.skip(LENGTH_PREFIX_SIZE as int) =~= old(buffer)@);
    Ok(length_bytes)
}

} // verus!
