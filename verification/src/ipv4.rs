//! Finding the payload of an IPv4 datagram.
//!
//! A raw IPv4 socket hands the IP header to user space together with the
//! payload. The low four bits of the first byte give the header's length in
//! 32-bit words.

use vstd::prelude::*;
use vstd::slice::slice_subrange;
use crate::error::Error;

verus! {

/// Length of the shortest well-formed IPv4 header, in bytes: five 32-bit words.
pub const MIN_HEADER_LEN: usize = 20;

/// Header length in bytes that `first_byte` declares: its low four bits times
/// four.
pub open spec fn declared_header_len(first_byte: u8) -> int {
    (first_byte % 16) * 4
}

/// What `strip` makes of `buffer`: the bytes behind the header, or the reason
/// why there are none.
pub open spec fn stripped(buffer: Seq<u8>) -> Result<Seq<u8>, Error> {
    if buffer.len() == 0 {
        Err(Error::TruncatedHeader)
    } else if declared_header_len(buffer[0]) < MIN_HEADER_LEN {
        Err(Error::TruncatedHeader)
    } else if buffer.len() <= declared_header_len(buffer[0]) {
        Err(Error::TruncatedHeader)
    } else {
        Ok(buffer.skip(declared_header_len(buffer[0])))
    }
}

/// Header length in bytes that the first byte of a datagram declares.
pub fn header_len(first_byte: u8) -> (len: usize)
    ensures
        len == declared_header_len(first_byte),
        len % 4 == 0,
        len <= 60,
{
    let words: u8 = first_byte & 0x0F;
    assert(words == first_byte % 16) by (bit_vector)
        requires
            words == first_byte & 0x0F,
    ;
    words as usize * 4
}

/// Strips the IPv4 header from `buffer` and returns the payload as a view into
/// it.
///
/// Fails with `TruncatedHeader` when the buffer is empty, when the declared
/// header length is under twenty bytes, and when the buffer does not reach
/// beyond the declared header. Nothing is read but the first byte.
pub fn strip(buffer: &[u8]) -> (payload: Result<&[u8], Error>)
    ensures
        match payload {
            Ok(bytes) => stripped(buffer@) == Ok::<Seq<u8>, Error>(bytes@),
            Err(error) => stripped(buffer@) == Err::<Seq<u8>, Error>(error),
        },
{
    if buffer.len() == 0 {
        return Err(Error::TruncatedHeader);
    }
    let header: usize = header_len(buffer[0]);
    if header < MIN_HEADER_LEN || buffer.len() <= header {
        return Err(Error::TruncatedHeader);
    }
    let payload = slice_subrange(buffer, header, buffer.len());
    assert(payload@ =~= buffer@.skip(header as int));
    Ok(payload)
}

} // verus!
