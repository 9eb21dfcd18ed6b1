use vstd::prelude::*;
use vstd::string::StringSliceAdditionalSpecFns;
use vstd::utf8::*;

verus! {

broadcast use {encode_utf8_valid_utf8, encode_utf8_decode_utf8};

/// `s` ends with `t`, compared character by character.
pub open spec fn ends_with(s: Seq<char>, t: Seq<char>) -> bool {
    t.len() <= s.len() && s.subrange(s.len() - t.len(), s.len() as int) == t
}

/// Encoding a concatenation encodes each part in turn.
proof fn lemma_encode_utf8_concat(a: Seq<char>, b: Seq<char>)
    ensures
        encode_utf8(a + b) == encode_utf8(a) + encode_utf8(b),
    decreases a.len(),
{
    if a.len() == 0 {
        assert(a + b =~= b);
        assert(encode_utf8(a) + encode_utf8(b) =~= encode_utf8(b));
    } else {
        assert((a + b).drop_first() =~= a.drop_first() + b);
        assert((a + b)[0] == a[0]);
        lemma_encode_utf8_concat(a.drop_first(), b);
        assert(encode_utf8(a + b) =~= encode_utf8(a) + encode_utf8(b));
    }
}

/// A character suffix is also a suffix of the encoded bytes.
proof fn lemma_char_suffix_is_byte_suffix(s: Seq<char>, t: Seq<char>)
    requires
        ends_with(s, t),
    ensures
        encode_utf8(t).len() <= encode_utf8(s).len(),
        encode_utf8(s).subrange(
            encode_utf8(s).len() - encode_utf8(t).len(),
            encode_utf8(s).len() as int,
        ) == encode_utf8(t),
{
    let p = s.subrange(0, s.len() - t.len());
    assert(s =~= p + t);
    lemma_encode_utf8_concat(p, t);
    let bs = encode_utf8(s);
    assert(bs.subrange(bs.len() - encode_utf8(t).len(), bs.len() as int) =~= encode_utf8(t));
}

/// Where the encoding of `t` ends the encoding of `s`, the place where it
/// starts is a character boundary, and the bytes before it decode to the
/// characters of `s` before `t`.
proof fn lemma_byte_suffix_splits_chars(s: Seq<char>, t: Seq<char>)
    requires
        encode_utf8(t).len() <= encode_utf8(s).len(),
        encode_utf8(s).subrange(
            encode_utf8(s).len() - encode_utf8(t).len(),
            encode_utf8(s).len() as int,
        ) == encode_utf8(t),
    ensures
        is_char_boundary(encode_utf8(s), encode_utf8(s).len() - encode_utf8(t).len()),
        decode_utf8(
            encode_utf8(s).subrange(0, encode_utf8(s).len() - encode_utf8(t).len()),
        ) + t == s,
{
    let bs = encode_utf8(s);
    let bt = encode_utf8(t);
    let k = bs.len() - bt.len();
    if bt.len() == 0 {
        is_char_boundary_start_end_of_seq(bs);
    } else {
        assert(is_char_boundary(bt, 0));
        is_char_boundary_iff_not_is_continuation_byte(bt, 0);
        assert(bs[k] == bt[0]);
        is_char_boundary_iff_not_is_continuation_byte(bs, k);
    }
    decode_utf8_split(bs, k);
}

/// If `input` ends with `suffix`, returns the part of `input` before it.
/// Matching happens on the UTF-8 bytes, and the returned prefix always ends
/// on a character boundary.
pub fn match_trailing<'a>(input: &'a str, suffix: &str) -> (r: Option<&'a str>)
    ensures
        match r {
            Some(p) => ends_with(input@, suffix@) && p@ + suffix@ == input@,
            None => !ends_with(input@, suffix@),
        },
        suffix@.len() == 0 ==> (r matches Some(p) && p@ == input@),
{
    let ib = input.as_bytes();
    let sb = suffix.as_bytes();
    let n = ib.len();
    let m = sb.len();
    if m > n {
        proof {
            if ends_with(input@, suffix@) {
                lemma_char_suffix_is_byte_suffix(input@, suffix@);
            }
        }
        return None;
    }
    let end = n - m;
    let mut i: usize = 0;
    while i < m
        invariant
            i <= m,
            m <= n,
            end == n - m,
            ib@ == input.spec_bytes(),
            sb@ == suffix.spec_bytes(),
            n == ib@.len(),
            m == sb@.len(),
            forall|j: int| 0 <= j < i ==> ib@[end + j] == sb@[j],
        decreases m - i,
    {
        if ib[end + i] != sb[i] {
            proof {
                if ends_with(input@, suffix@) {
                    lemma_char_suffix_is_byte_suffix(input@, suffix@);
                    assert(ib@.subrange(end as int, n as int)[i as int] == ib@[end + i]);
                }
            }
            return None;
        }
        i += 1;
    }
    proof {
        assert(ib@.subrange(end as int, n as int) =~= sb@);
        lemma_byte_suffix_splits_chars(input@, suffix@);
    }
    let (prefix, _) = input.split_at(end);
    proof {
        assert(prefix.spec_bytes() == encode_utf8(prefix@));
        assert(input@.subrange(input@.len() - suffix@.len(), input@.len() as int) =~= suffix@);
        if suffix@.len() == 0 {
            assert(prefix@ =~= prefix@ + suffix@);
        }
    }
    Some(prefix)
}

} // verus!
