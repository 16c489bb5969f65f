//! Layout of the state in stable memory: a 4-byte little-endian length
//! prefix followed by the encoded state, in 64 KiB pages.
use vstd::prelude::*;

verus! {

/// Bytes in one stable-memory page.
pub const PAGE_SIZE: u64 = 65536;

/// Bytes of the length prefix.
pub const PREFIX_LEN: u64 = 4;

/// Little-endian bytes of a 32-bit length.
pub open spec fn le_bytes(x: u32) -> Seq<u8> {
    seq![
        (x % 256) as u8,
        ((x / 256) % 256) as u8,
        ((x / 65536) % 256) as u8,
        (x / 16777216) as u8,
    ]
}

/// The number that four little-endian bytes stand for.
pub open spec fn le_value(b: Seq<u8>) -> nat {
    (b[0] + 256 * b[1] + 65536 * b[2] + 16777216 * b[3]) as nat
}

/// Pages needed for a payload of `len` bytes and its prefix.
pub open spec fn pages_needed(len: nat) -> nat {
    ((len + PREFIX_LEN + PAGE_SIZE - 1) / (PAGE_SIZE as int)) as nat
}

/// The payload length that a restore reads from stable memory of `pages`
/// pages starting with `prefix`: none when the memory is empty, the
/// length is zero, or the payload would run past the end of the memory.
pub open spec fn restored_len(pages: u64, prefix: Seq<u8>) -> Option<nat> {
    let len = le_value(prefix);
    if pages == 0 {
        None
    } else if len == 0 {
        None
    } else if len > pages * PAGE_SIZE - PREFIX_LEN {
        None
    } else {
        Some(len)
    }
}

/// The length prefix of a payload of `len` bytes.
pub fn length_prefix(len: u32) -> (r: [u8; 4])
    ensures
        r@ == le_bytes(len),
{
    let r = [
        (len % 256) as u8,
        ((len / 256) % 256) as u8,
        ((len / 65536) % 256) as u8,
        (len / 16777216) as u8,
    ];
    assert(r@ =~= le_bytes(len));
    r
}

/// Reads a length prefix.
pub fn decode_length_prefix(prefix: &[u8; 4]) -> (r: u32)
    ensures
        r == le_value(prefix@),
{
    let b0 = prefix[0] as u32;
    let b1 = prefix[1] as u32;
    let b2 = prefix[2] as u32;
    let b3 = prefix[3] as u32;
    b0 + 256 * b1 + 65536 * b2 + 16777216 * b3
}

/// How many pages to grow stable memory by before saving a payload of
/// `payload_len` bytes, given its current size in pages.
pub fn pages_to_grow(payload_len: u32, current_pages: u64) -> (r: u64)
    ensures
        r == if pages_needed(payload_len as nat) > current_pages {
            pages_needed(payload_len as nat) - current_pages
        } else {
            0
        },
        current_pages + r >= pages_needed(payload_len as nat),
{
    let total: u64 = payload_len as u64 + PREFIX_LEN;
    let needed: u64 = (total + PAGE_SIZE - 1) / PAGE_SIZE;
    if needed > current_pages {
        needed - current_pages
    } else {
        0
    }
}

/// The payload length to read back from stable memory of `stable_pages`
/// pages that starts with `prefix`, or `None` when nothing can be
/// restored.
pub fn restorable_len(stable_pages: u64, prefix: &[u8; 4]) -> (r: Option<u32>)
    ensures
        match restored_len(stable_pages, prefix@) {
            Some(n) => r == Some(n as u32),
            None => r is None,
        },
{
    if stable_pages == 0 {
        return None;
    }
    let len = decode_length_prefix(prefix);
    if len == 0 {
        return None;
    }
    let max_readable: u128 = (stable_pages as u128) * (PAGE_SIZE as u128) - (PREFIX_LEN as u128);
    if (len as u128) > max_readable {
        return None;
    }
    Some(len)
}

} // verus!
