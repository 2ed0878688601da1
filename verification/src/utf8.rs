use vstd::prelude::*;
use vstd::utf8::*;

verus! {

/// Whether `bytes[i..]` begins with a well-formed UTF-8 encoding of one scalar;
/// when it does, the length of that encoding.
fn first_scalar_len(bytes: &[u8], i: usize) -> (r: Option<usize>)
    requires
        i < bytes@.len(),
    ensures
        ({
            let rest = bytes@.subrange(i as int, bytes@.len() as int);
            match r {
                Some(n) => valid_first_scalar(rest) && n == length_of_first_scalar(rest),
                None => !valid_first_scalar(rest),
            }
        }),
{
    let ghost rest = bytes@.subrange(i as int, bytes@.len() as int);
    let n = bytes.len();
    let b0 = bytes[i];
    assert(rest[0] == b0);
    if b0 <= 0x7f {
        let cp: u32 = (b0 & 0x7f) as u32;
        assert(cp == decode_first_codepoint(rest));
        if 0xd800 <= cp && cp <= 0xdfff {
            return None;
        }
        Some(1)
    } else if 0xc0 <= b0 && b0 <= 0xdf {
        if n - i < 2 {
            return None;
        }
        let b1 = bytes[i + 1];
        assert(rest[1] == b1);
        if !(0x80 <= b1 && b1 <= 0xbf) {
            return None;
        }
        let cp: u32 = (((b0 & 0x1f) as u32) << 6) | ((b1 & 0x3f) as u32);
        assert(cp == decode_first_codepoint(rest));
        if cp < 0x80 || (0xd800 <= cp && cp <= 0xdfff) {
            return None;
        }
        Some(2)
    } else if 0xe0 <= b0 && b0 <= 0xef {
        if n - i < 3 {
            return None;
        }
        let b1 = bytes[i + 1];
        let b2 = bytes[i + 2];
        assert(rest[1] == b1 && rest[2] == b2);
        if !(0x80 <= b1 && b1 <= 0xbf) || !(0x80 <= b2 && b2 <= 0xbf) {
            return None;
        }
        let cp: u32 = (((b0 & 0x0f) as u32) << 12) | (((b1 & 0x3f) as u32) << 6) | ((b2
            & 0x3f) as u32);
        assert(cp == decode_first_codepoint(rest));
        if cp < 0x800 || (0xd800 <= cp && cp <= 0xdfff) {
            return None;
        }
        Some(3)
    } else if 0xf0 <= b0 && b0 <= 0xf7 {
        if n - i < 4 {
            return None;
        }
        let b1 = bytes[i + 1];
        let b2 = bytes[i + 2];
        let b3 = bytes[i + 3];
        assert(rest[1] == b1 && rest[2] == b2 && rest[3] == b3);
        if !(0x80 <= b1 && b1 <= 0xbf) || !(0x80 <= b2 && b2 <= 0xbf) || !(0x80 <= b3 && b3
            <= 0xbf) {
            return None;
        }
        let cp: u32 = (((b0 & 0x07) as u32) << 18) | (((b1 & 0x3f) as u32) << 12) | (((b2
            & 0x3f) as u32) << 6) | ((b3 & 0x3f) as u32);
        assert(cp == decode_first_codepoint(rest));
        if cp < 0x10000 || cp > 0x10ffff || (0xd800 <= cp && cp <= 0xdfff) {
            return None;
        }
        Some(4)
    } else {
        None
    }
}

/// Whether `bytes` is, as a whole, well-formed UTF-8 text.
pub fn is_text_utf8(bytes: &[u8]) -> (r: bool)
    ensures
        r == valid_utf8(bytes@),
{
    let n = bytes.len();
    let mut i: usize = 0;
    assert(bytes@.subrange(0, 0) =~= Seq::<u8>::empty());
    while i < n
        invariant
            n == bytes@.len(),
            i <= n,
            partial_valid_utf8(bytes@, i as int),
        decreases n - i,
    {
        match first_scalar_len(bytes, i) {
            Some(k) => {
                proof {
                    partial_valid_utf8_extend(bytes@, i as int);
                }
                i = i + k;
            },
            None => {
                proof {
                    let rest = bytes@.subrange(i as int, n as int);
                    assert(!valid_utf8(rest));
                    partial_valid_partial_invalid_utf8(bytes@, i as int);
                }
                return false;
            },
        }
    }
    assert(bytes@.subrange(0, n as int) =~= bytes@);
    true
}

} // verus!
