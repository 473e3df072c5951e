//! Mapping free-form chat text onto an emotion.
//!
//! The text is lowercased first, so the keyword search is case-insensitive;
//! the search itself runs on the lowercased bytes.

use vstd::prelude::*;

use crate::logic::Emotion;

verus! {

/// What lowercasing returns, named: the lowercased text as UTF-8 bytes, a
/// function of the characters alone.
pub uninterp spec fn lower_bytes_of(s: Seq<char>) -> Seq<u8>;

/// Relies on str::to_lowercase and String::into_bytes: the lowercased text
/// as bytes, a function of the characters alone.
#[verifier::external_body]
fn lowercase_bytes(s: &str) -> (r: Vec<u8>)
    ensures
        r@ == lower_bytes_of(s@),
{
    s.to_lowercase().into_bytes()
}

/// `needle` occurs contiguously in `hay`.
pub open spec fn contains_seq(hay: Seq<u8>, needle: Seq<u8>) -> bool {
    exists|i: int|
        0 <= i <= hay.len() - needle.len() && #[trigger] hay.subrange(i, i + needle.len())
            == needle
}

/// Substring search over bytes.
pub fn contains_bytes(hay: &Vec<u8>, needle: &[u8]) -> (r: bool)
    ensures
        r == contains_seq(hay@, needle@),
{
    let n = needle.len();
    let h = hay.len();
    if n > h {
        proof {
            assert(!contains_seq(hay@, needle@));
        }
        return false;
    }
    let mut i: usize = 0;
    while i <= h - n
        invariant
            n <= h,
            h == hay@.len(),
            n == needle@.len(),
            i <= h - n + 1,
            forall|k: int|
                0 <= k < i ==> #[trigger] hay@.subrange(k, k + needle@.len() as int)
                    != needle@,
        decreases h - n + 1 - i,
    {
        let mut j: usize = 0;
        let mut matches_here = true;
        while j < n
            invariant
                j <= n,
                n <= h,
                i <= h - n,
                h == hay@.len(),
                n == needle@.len(),
                matches_here == (forall|m: int| 0 <= m < j ==> hay@[i + m] == needle@[m]),
            decreases n - j,
        {
            if hay[i + j] != needle[j] {
                matches_here = false;
            }
            j += 1;
        }
        if matches_here {
            proof {
                assert(hay@.subrange(i as int, i + needle@.len() as int) =~= needle@);
            }
            return true;
        }
        proof {
            if hay@.subrange(i as int, i + needle@.len() as int) == needle@ {
                assert forall|m: int| 0 <= m < n implies hay@[i + m] == needle@[m] by {
                    assert(hay@.subrange(i as int, i + needle@.len() as int)[m] == hay@[i + m]);
                }
                assert(false);
            }
        }
        i += 1;
    }
    proof {
        assert(!contains_seq(hay@, needle@));
    }
    false
}

pub open spec fn rust_bytes() -> Seq<u8> {
    seq![114u8, 117u8, 115u8, 116u8]
}

pub open spec fn rs_bytes() -> Seq<u8> {
    seq![114u8, 115u8]
}

pub open spec fn golang_bytes() -> Seq<u8> {
    seq![103u8, 111u8, 108u8, 97u8, 110u8, 103u8]
}

pub open spec fn go_bytes() -> Seq<u8> {
    seq![103u8, 111u8]
}

pub open spec fn cobol_bytes() -> Seq<u8> {
    seq![99u8, 111u8, 98u8, 111u8, 108u8]
}

/// What the lowercased text makes the rig feel: Rust cheers it up, Go
/// angers it, COBOL surprises it, anything else leaves it neutral.
pub open spec fn emotion_for_text(lower: Seq<u8>) -> Emotion {
    if contains_seq(lower, rust_bytes()) || contains_seq(lower, rs_bytes()) {
        Emotion::Happy
    } else if contains_seq(lower, golang_bytes()) || contains_seq(lower, go_bytes()) {
        Emotion::Angered
    } else if contains_seq(lower, cobol_bytes()) {
        Emotion::Surprised
    } else {
        Emotion::Neutral
    }
}

/// The emotion a chat message puts the rig in, decided case-insensitively.
pub fn text_to_emotion(text: &str) -> (r: Emotion)
    ensures
        r == emotion_for_text(lower_bytes_of(text@)),
{
    let lower = lowercase_bytes(text);

    let rust_needle: [u8; 4] = [114u8, 117u8, 115u8, 116u8];
    let rs_needle: [u8; 2] = [114u8, 115u8];
    let golang_needle: [u8; 6] = [103u8, 111u8, 108u8, 97u8, 110u8, 103u8];
    let go_needle: [u8; 2] = [103u8, 111u8];
    let cobol_needle: [u8; 5] = [99u8, 111u8, 98u8, 111u8, 108u8];
    proof {
        assert(rust_needle@ =~= rust_bytes());
        assert(rs_needle@ =~= rs_bytes());
        assert(golang_needle@ =~= golang_bytes());
        assert(go_needle@ =~= go_bytes());
        assert(cobol_needle@ =~= cobol_bytes());
    }

    if contains_bytes(&lower, rust_needle.as_slice()) || contains_bytes(
        &lower,
        rs_needle.as_slice(),
    ) {
        Emotion::Happy
    } else if contains_bytes(&lower, golang_needle.as_slice()) || contains_bytes(
        &lower,
        go_needle.as_slice(),
    ) {
        Emotion::Angered
    } else if contains_bytes(&lower, cobol_needle.as_slice()) {
        Emotion::Surprised
    } else {
        Emotion::Neutral
    }
}

} // verus!
