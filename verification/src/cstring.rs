use vstd::prelude::*;
use vstd::string::StringSliceAdditionalSpecFns;
use vstd::utf8::{encode_scalar, encode_utf8};

verus! {

/// The NUL-terminated form of a byte string, as handed to the engine.
pub open spec fn c_string_spec(bytes: Seq<u8>) -> Seq<u8> {
    bytes.push(0u8)
}

proof fn lemma_high_bits_non_nul(x: u8)
    by (bit_vector)
    ensures
        0x80u8 | x != 0u8,
        0xC0u8 | x != 0u8,
        0xE0u8 | x != 0u8,
        0xF0u8 | x != 0u8,
{
}

proof fn lemma_encode_scalar_nul(v: u32)
    ensures
        encode_scalar(v).contains(0u8) <==> v == 0,
{
    let e = encode_scalar(v);
    if v <= 0x7F {
        assert(v <= 0x7F ==> (((v & 0x7F) as u8 == 0u8) <==> v == 0)) by (bit_vector);
        assert(e.len() == 1 && e[0] == (v & 0x7F) as u8);
        if v == 0 {
            assert(e[0] == 0u8);
        }
    } else {
        lemma_high_bits_non_nul(((v >> 6) & 0x1F) as u8);
        lemma_high_bits_non_nul(((v >> 12) & 0x0F) as u8);
        lemma_high_bits_non_nul(((v >> 18) & 0x7) as u8);
        lemma_high_bits_non_nul((v & 0x3F) as u8);
        lemma_high_bits_non_nul(((v >> 6) & 0x3F) as u8);
        lemma_high_bits_non_nul(((v >> 12) & 0x3F) as u8);
        assert forall|i: int| 0 <= i < e.len() implies e[i] != 0u8 by {}
    }
}

proof fn lemma_encode_utf8_nul(chars: Seq<char>)
    ensures
        encode_utf8(chars).contains(0u8) <==> chars.contains('\0'),
    decreases chars.len(),
{
    if chars.len() == 0 {
        assert(encode_utf8(chars) =~= Seq::<u8>::empty());
    } else {
        let rest = chars.drop_first();
        lemma_encode_utf8_nul(rest);
        lemma_encode_scalar_nul(chars[0] as u32);
        vstd::seq_lib::lemma_seq_concat_contains_all_elements(
            encode_scalar(chars[0] as u32),
            encode_utf8(rest),
            0u8,
        );
        vstd::utf8::char_u32_cast(chars[0], chars[0] as u32);
        vstd::utf8::char_u32_cast('\0', 0u32);
        assert((chars[0] as u32 == 0) <==> chars[0] == '\0');
        if chars.contains('\0') {
            let i = choose|i: int| 0 <= i < chars.len() && chars[i] == '\0';
            if i > 0 {
                assert(rest[i - 1] == '\0');
            }
        }
        if rest.contains('\0') {
            let i = choose|i: int| 0 <= i < rest.len() && rest[i] == '\0';
            assert(chars[i + 1] == '\0');
        }
    }
}

/// The NUL-terminated byte string the engine is handed for `s`.
/// Returns `None` exactly when `s` holds a NUL character, which no C string can carry.
pub fn c_string(s: &str) -> (r: Option<Vec<u8>>)
    ensures
        r is None <==> s@.contains('\0'),
        r is None <==> s.spec_bytes().contains(0u8),
        r matches Some(v) ==> v@ == c_string_spec(s.spec_bytes()),
{
    proof {
        lemma_encode_utf8_nul(s@);
        assert(s.spec_bytes() == encode_utf8(s@));
    }
    let bytes = s.as_bytes();
    let mut out: Vec<u8> = Vec::new();
    let mut i: usize = 0;
    while i < bytes.len()
        invariant
            bytes@ == s.spec_bytes(),
            bytes@.contains(0u8) <==> s@.contains('\0'),
            i <= bytes@.len(),
            out@ == bytes@.subrange(0, i as int),
            forall|j: int| 0 <= j < i ==> bytes@[j] != 0u8,
        decreases bytes@.len() - i,
    {
        let b = bytes[i];
        if b == 0 {
            assert(bytes@[i as int] == 0u8);
            return None;
        }
        out.push(b);
        i += 1;
        assert(out@ == bytes@.subrange(0, i as int));
    }
    assert(out@ == bytes@);
    assert(!bytes@.contains(0u8));
    out.push(0u8);
    Some(out)
}

} // verus!
