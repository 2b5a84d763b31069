//! The byte stream behind the demonstration socket device: writes append
//! to a buffer, reads take bytes off its front, ROT13-encoded.

use vstd::prelude::*;

verus! {

/// ROT13 of one byte: ASCII letters move 13 places round their alphabet,
/// every other byte stays.
pub open spec fn rot13(x: u8) -> u8 {
    if 65 <= x <= 90 {
        (65 + (x - 65 + 13) % 26) as u8
    } else if 97 <= x <= 122 {
        (97 + (x - 97 + 13) % 26) as u8
    } else {
        x
    }
}

/// ROT13 of one byte.
fn rot13_byte(x: u8) -> (r: u8)
    ensures
        r == rot13(x),
{
    if 65 <= x && x <= 90 {
        65 + (x - 65 + 13) % 26
    } else if 97 <= x && x <= 122 {
        97 + (x - 97 + 13) % 26
    } else {
        x
    }
}

/// Appends `buf` to the stream.
pub fn write(buffer: &mut Vec<u8>, buf: &[u8])
    ensures
        final(buffer)@ == old(buffer)@ + buf@,
{
    let mut i: usize = 0;
    while i < buf.len()
        invariant
            i <= buf@.len(),
            buffer@ == old(buffer)@ + buf@.take(i as int),
        decreases buf@.len() - i,
    {
        buffer.push(buf[i]);
        assert(buf@.take(i + 1) =~= buf@.take(i as int).push(buf@[i as int]));
        i += 1;
    }
    assert(buf@.take(i as int) =~= buf@);
}

/// Takes up to `len` bytes off the front of the stream and returns them
/// ROT13-encoded; the rest stays for later reads.
pub fn read(buffer: &mut Vec<u8>, len: usize) -> (r: Vec<u8>)
    ensures
        ({
            let n = if len < old(buffer)@.len() { len as int } else { old(buffer)@.len() as int };
            &&& r@ == old(buffer)@.take(n).map_values(|x: u8| rot13(x))
            &&& final(buffer)@ == old(buffer)@.skip(n)
        }),
{
    let size = buffer.len();
    let retlen = if len < size { len } else { size };
    let mut ret: Vec<u8> = Vec::new();
    let mut i: usize = 0;
    while i < retlen
        invariant
            retlen <= buffer@.len(),
            i <= retlen,
            ret@ == buffer@.take(i as int).map_values(|x: u8| rot13(x)),
        decreases retlen - i,
    {
        ret.push(rot13_byte(buffer[i]));
        assert(buffer@.take(i + 1).map_values(|x: u8| rot13(x)) =~= buffer@.take(i as int).map_values(
            |x: u8| rot13(x),
        ).push(rot13(buffer@[i as int])));
        i += 1;
    }
    let mut rest: Vec<u8> = Vec::new();
    let mut j: usize = retlen;
    while j < size
        invariant
            size == buffer@.len(),
            retlen <= j <= size,
            rest@ == buffer@.subrange(retlen as int, j as int),
        decreases size - j,
    {
        rest.push(buffer[j]);
        assert(buffer@.subrange(retlen as int, j + 1) =~= buffer@.subrange(retlen as int, j as int).push(
            buffer@[j as int],
        ));
        j += 1;
    }
    assert(rest@ =~= buffer@.skip(retlen as int));
    *buffer = rest;
    ret
}

/// Whether `inode` is the inode registered for the socket device, if any.
pub fn is_parsec_inode(registered: Option<u64>, inode: u64) -> (r: bool)
    ensures
        r == (registered == Some(inode)),
{
    match registered {
        None => false,
        Some(x) => x == inode,
    }
}

} // verus!
