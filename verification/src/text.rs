//! Comparisons on UTF-8 text, carried out on its bytes.
use vstd::prelude::*;
use vstd::string::StringSliceAdditionalSpecFns;

verus! {

broadcast use vstd::string::group_string_axioms;

/// Whether `a` and `b` hold the same characters.
pub fn str_equals(a: &str, b: &str) -> (equal: bool)
    ensures
        equal == (a@ == b@),
{
    let x = a.as_bytes();
    let y = b.as_bytes();
    let n = x.len();
    if n != y.len() {
        proof {
            if a@ == b@ {
                assert(a.spec_bytes() == b.spec_bytes());
            }
        }
        return false;
    }
    let mut i: usize = 0;
    while i < n
        invariant
            n == x@.len() == y@.len(),
            x@ == a.spec_bytes(),
            y@ == b.spec_bytes(),
            0 <= i <= n,
            forall|j: int| 0 <= j < i ==> x@[j] == y@[j],
        decreases n - i,
    {
        if x[i] != y[i] {
            assert(x@[i as int] != y@[i as int]);
            proof {
                assert(x@ == a.spec_bytes());
                assert(y@ == b.spec_bytes());
                if a@ == b@ {
                    assert(a.spec_bytes() == b.spec_bytes());
                    assert(x@ == y@);
                }
            }
            return false;
        }
        i = i + 1;
    }
    proof {
        assert(x@ =~= y@);
        vstd::utf8::encode_utf8_decode_utf8(a@);
        vstd::utf8::encode_utf8_decode_utf8(b@);
    }
    true
}

/// `byte` with an ASCII capital letter replaced by its small letter.
pub open spec fn ascii_lower(byte: u8) -> u8 {
    if 0x41 <= byte <= 0x5a {
        (byte + 0x20) as u8
    } else {
        byte
    }
}

/// Every byte of `bytes` passed through `ascii_lower`.
pub open spec fn ascii_lower_bytes(bytes: Seq<u8>) -> Seq<u8> {
    bytes.map_values(|b: u8| ascii_lower(b))
}

/// Whether `needle` occurs as a contiguous run of `haystack` starting at `start`.
pub open spec fn occurs_at(haystack: Seq<u8>, needle: Seq<u8>, start: int) -> bool {
    0 <= start && start + needle.len() <= haystack.len()
        && haystack.subrange(start, start + needle.len()) == needle
}

/// Whether `needle` occurs as a contiguous run of `haystack`.
pub open spec fn contains_bytes(haystack: Seq<u8>, needle: Seq<u8>) -> bool {
    exists|start: int| occurs_at(haystack, needle, start)
}

fn lower_byte(byte: u8) -> (lower: u8)
    ensures
        lower == ascii_lower(byte),
{
    if 0x41 <= byte && byte <= 0x5a {
        byte + 0x20
    } else {
        byte
    }
}

/// Whether `needle` occurs in `haystack` once ASCII letters of both are
/// folded to small letters.
pub fn contains_ignoring_ascii_case(haystack: &[u8], needle: &[u8]) -> (found: bool)
    ensures
        found == contains_bytes(ascii_lower_bytes(haystack@), ascii_lower_bytes(needle@)),
{
    let h = haystack.len();
    let m = needle.len();
    let ghost hs = ascii_lower_bytes(haystack@);
    let ghost ns = ascii_lower_bytes(needle@);
    if m > h {
        proof {
            assert forall|start: int| !occurs_at(hs, ns, start) by {}
        }
        return false;
    }
    let last = h - m;
    let mut start: usize = 0;
    loop
        invariant
            h == haystack@.len(),
            m == needle@.len(),
            m <= h,
            last == h - m,
            start <= last,
            hs == ascii_lower_bytes(haystack@),
            ns == ascii_lower_bytes(needle@),
            forall|s: int| 0 <= s < start ==> !occurs_at(hs, ns, s),
        decreases last - start,
    {
        let mut k: usize = 0;
        let mut matched = true;
        while k < m
            invariant
                h == haystack@.len(),
                m == needle@.len(),
                start + m <= h,
                0 <= k <= m,
                hs == ascii_lower_bytes(haystack@),
                ns == ascii_lower_bytes(needle@),
                matched ==> forall|j: int| 0 <= j < k ==> hs[start + j] == ns[j],
                !matched ==> !occurs_at(hs, ns, start as int),
            decreases m - k,
        {
            if matched && lower_byte(haystack[start + k]) != lower_byte(needle[k]) {
                matched = false;
                proof {
                    assert(hs.subrange(start as int, start + m)[k as int] != ns[k as int]);
                }
            }
            k = k + 1;
        }
        if matched {
            proof {
                assert(hs.subrange(start as int, start + m) =~= ns);
                assert(occurs_at(hs, ns, start as int));
            }
            return true;
        }
        if start == last {
            proof {
                assert forall|s: int| !occurs_at(hs, ns, s) by {
                    if 0 <= s && s + ns.len() <= hs.len() {
                        assert(s <= start);
                    }
                }
            }
            return false;
        }
        start = start + 1;
    }
}

} // verus!
