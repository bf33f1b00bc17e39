//! The literal keyword search: byte payloads are decoded as text (a payload
//! that is not valid text counts as the empty string), and a claim matches
//! when its decoded content contains the decoded query as a contiguous
//! substring.

use vstd::prelude::*;

use crate::types::ClaimModel;

verus! {

/// A UTF-8 continuation byte.
pub open spec fn utf8_cont(b: u8) -> bool {
    0x80 <= b <= 0xBF
}

/// The width of the well-formed UTF-8 scalar value at the head of `s`, or 0
/// if the head is not one. The ranges exclude overlong forms, surrogates and
/// values beyond the last scalar value, as text decoding does.
pub open spec fn utf8_head_width(s: Seq<u8>) -> int {
    if s.len() >= 1 && s[0] <= 0x7F {
        1
    } else if s.len() >= 2 && 0xC2 <= s[0] <= 0xDF && utf8_cont(s[1]) {
        2
    } else if s.len() >= 3 && utf8_cont(s[2]) && ((s[0] == 0xE0 && 0xA0 <= s[1] <= 0xBF) || (0xE1
        <= s[0] <= 0xEC && utf8_cont(s[1])) || (s[0] == 0xED && 0x80 <= s[1] <= 0x9F) || (0xEE
        <= s[0] <= 0xEF && utf8_cont(s[1]))) {
        3
    } else if s.len() >= 4 && utf8_cont(s[2]) && utf8_cont(s[3]) && ((s[0] == 0xF0 && 0x90 <= s[1]
        <= 0xBF) || (0xF1 <= s[0] <= 0xF3 && utf8_cont(s[1])) || (s[0] == 0xF4 && 0x80 <= s[1]
        <= 0x8F)) {
        4
    } else {
        0
    }
}

/// Whether a byte sequence is valid UTF-8 text: a chain of well-formed
/// scalar values.
pub open spec fn utf8_valid(bytes: Seq<u8>) -> bool
    decreases bytes.len(),
{
    if bytes.len() == 0 {
        true
    } else {
        let w = utf8_head_width(bytes);
        if w == 0 {
            false
        } else {
            utf8_valid(bytes.skip(w))
        }
    }
}

/// Whether a byte vector is valid UTF-8 text.
pub fn check_utf8(v: &Vec<u8>) -> (r: bool)
    ensures
        r == utf8_valid(v@),
{
    let n = v.len();
    proof {
        assert(v@.skip(0) =~= v@);
    }
    let mut i: usize = 0;
    while i < n
        invariant
            i <= n,
            n == v@.len(),
            utf8_valid(v@) == utf8_valid(v@.skip(i as int)),
        decreases n - i,
    {
        let ghost t = v@.skip(i as int);
        proof {
            assert(t.len() == n - i);
            assert forall|k: int| 0 <= k < t.len() implies t[k] == v@[i + k] by {}
        }
        let b0 = v[i];
        let w: usize = if b0 <= 0x7F {
            1
        } else if 0xC2 <= b0 && b0 <= 0xDF {
            if i + 1 < n && 0x80 <= v[i + 1] && v[i + 1] <= 0xBF {
                2
            } else {
                0
            }
        } else if 0xE0 <= b0 && b0 <= 0xEF {
            let second_ok = i + 1 < n && if b0 == 0xE0 {
                0xA0 <= v[i + 1] && v[i + 1] <= 0xBF
            } else if b0 == 0xED {
                0x80 <= v[i + 1] && v[i + 1] <= 0x9F
            } else {
                0x80 <= v[i + 1] && v[i + 1] <= 0xBF
            };
            if second_ok && i + 2 < n && 0x80 <= v[i + 2] && v[i + 2] <= 0xBF {
                3
            } else {
                0
            }
        } else if 0xF0 <= b0 && b0 <= 0xF4 {
            let second_ok = i + 1 < n && if b0 == 0xF0 {
                0x90 <= v[i + 1] && v[i + 1] <= 0xBF
            } else if b0 == 0xF4 {
                0x80 <= v[i + 1] && v[i + 1] <= 0x8F
            } else {
                0x80 <= v[i + 1] && v[i + 1] <= 0xBF
            };
            if second_ok && i + 2 < n && i + 3 < n && 0x80 <= v[i + 2] && v[i + 2] <= 0xBF && 0x80 <= v[i + 3]
                && v[i + 3] <= 0xBF {
                4
            } else {
                0
            }
        } else {
            0
        };
        if w == 0 {
            proof {
                assert(utf8_head_width(t) == 0);
                assert(!utf8_valid(t));
            }
            return false;
        }
        proof {
            assert(utf8_head_width(t) == w);
            assert(utf8_valid(t) == utf8_valid(t.skip(w as int)));
            assert(t.skip(w as int) =~= v@.skip(i + w));
        }
        i += w;
    }
    proof {
        assert(v@.skip(n as int) =~= Seq::<u8>::empty());
    }
    true
}

/// The text a byte payload decodes to: itself when it is valid UTF-8, the
/// empty string otherwise. Decoding failures are never propagated as errors.
pub open spec fn text_of(v: Seq<u8>) -> Seq<u8> {
    if utf8_valid(v) {
        v
    } else {
        Seq::empty()
    }
}

/// The needle occurs in the haystack starting at position `i`.
pub open spec fn is_substring_at(h: Seq<u8>, n: Seq<u8>, i: int) -> bool {
    0 <= i && i + n.len() <= h.len() && h.subrange(i, i + n.len()) == n
}

/// The needle occurs somewhere in the haystack; the empty needle occurs in
/// everything.
pub open spec fn contains_bytes(h: Seq<u8>, n: Seq<u8>) -> bool {
    exists|i: int| is_substring_at(h, n, i)
}

/// Whether a claim matches a decoded query: its decoded content contains the
/// query as a contiguous byte substring, case-sensitively.
pub open spec fn claim_matches(c: ClaimModel, qn: Seq<u8>) -> bool {
    contains_bytes(text_of(c.claim), qn)
}

/// The records matching a decoded query, in ledger order.
pub open spec fn matching_records(rs: Seq<ClaimModel>, qn: Seq<u8>) -> Seq<ClaimModel>
    decreases rs.len(),
{
    if rs.len() == 0 {
        Seq::empty()
    } else {
        let rest = matching_records(rs.drop_last(), qn);
        if claim_matches(rs.last(), qn) {
            rest.push(rs.last())
        } else {
            rest
        }
    }
}

/// Whether the needle occurs in the haystack as a contiguous byte substring.
pub fn find_substring(h: &Vec<u8>, n: &Vec<u8>) -> (r: bool)
    ensures
        r == contains_bytes(h@, n@),
{
    if n.len() > h.len() {
        proof {
            assert(!contains_bytes(h@, n@));
        }
        return false;
    }
    if n.len() == 0 {
        proof {
            assert(h@.subrange(0, 0) =~= n@);
            assert(is_substring_at(h@, n@, 0));
        }
        return true;
    }
    let mut i: usize = 0;
    while i <= h.len() - n.len()
        invariant
            1 <= n.len() <= h.len(),
            i <= h.len() - n.len() + 1,
            forall|k: int| 0 <= k < i ==> !is_substring_at(h@, n@, k),
        decreases h.len() - n.len() - i + 1,
    {
        let mut j: usize = 0;
        let mut hit = true;
        while j < n.len()
            invariant
                n.len() <= h.len(),
                i <= h.len() - n.len(),
                j <= n.len(),
                hit ==> forall|t: int| 0 <= t < j ==> h@[i + t] == n@[t],
                !hit ==> !is_substring_at(h@, n@, i as int),
            decreases n.len() - j,
        {
            if h[i + j] != n[j] {
                proof {
                    assert(h@.subrange(i as int, i + n@.len())[j as int] == h@[i + j]);
                    assert(!is_substring_at(h@, n@, i as int));
                }
                hit = false;
                j = n.len();
            } else {
                j += 1;
            }
        }
        if hit {
            proof {
                assert(h@.subrange(i as int, i + n@.len()) =~= n@);
                assert(is_substring_at(h@, n@, i as int));
            }
            return true;
        }
        i += 1;
    }
    proof {
        assert forall|k: int| !is_substring_at(h@, n@, k) by {
            if 0 <= k <= h@.len() - n@.len() {
                assert(k < i);
            }
        }
    }
    false
}

/// Whether a stored payload, decoded as text, contains the decoded query.
/// The query is handed in already decoded.
pub(crate) fn payload_matches(payload: &Vec<u8>, qn: &Vec<u8>) -> (r: bool)
    ensures
        r == contains_bytes(text_of(payload@), qn@),
{
    if check_utf8(payload) {
        find_substring(payload, qn)
    } else {
        let r = qn.len() == 0;
        proof {
            if qn@.len() == 0 {
                assert(Seq::<u8>::empty().subrange(0, 0) =~= qn@);
                assert(is_substring_at(Seq::<u8>::empty(), qn@, 0));
            } else {
                assert(!contains_bytes(Seq::<u8>::empty(), qn@));
            }
        }
        r
    }
}

} // verus!
