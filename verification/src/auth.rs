//! Token checks for the privileged maintenance endpoints.
//!
//! A caller proves knowledge of the control token by sending it in clear;
//! the stored reference is only the token's SHA-1 digest, so the check
//! hashes the submitted bytes and compares digests.

use vstd::prelude::*;

verus! {

/// The SHA-1 digest of a byte string. Stated as pages of bit mixing would
/// say nothing checkable here, the digest is only named: it is a function
/// of the input bytes alone.
pub uninterp spec fn sha1_of(data: Seq<u8>) -> Seq<u8>;

/// Relies on sha1::Sha1 through the Digest one-shot interface: the 20-byte
/// SHA-1 digest of the input, a function of the input bytes alone.
#[verifier::external_body]
fn sha1_digest(data: &[u8]) -> (r: [u8; 20])
    ensures
        r@ == sha1_of(data@),
{
    let digest = <sha1::Sha1 as sha1::Digest>::digest(data);
    digest.into()
}

/// Whether the SHA-1 digest of `data` is exactly `expected`.
pub fn digest_matches(data: &[u8], expected: &[u8; 20]) -> (r: bool)
    ensures
        r == (sha1_of(data@) == expected@),
{
    let digest = sha1_digest(data);
    let mut i: usize = 0;
    while i < 20
        invariant
            i <= 20,
            digest@ == sha1_of(data@),
            forall|j: int| 0 <= j < i ==> digest@[j] == expected@[j],
        decreases 20 - i,
    {
        if digest[i] != expected[i] {
            proof {
                assert(digest@[i as int] != expected@[i as int]);
            }
            return false;
        }
        i += 1;
    }
    proof {
        assert(digest@ =~= expected@);
    }
    true
}

/// The digest of the control token, as wired into the maintenance
/// endpoints.
pub open spec fn spec_control_token_digest() -> Seq<u8> {
    seq![
        0x49u8, 0x20u8, 0x3bu8, 0x5fu8, 0x12u8, 0xf5u8, 0x5au8, 0x6fu8, 0xe5u8, 0x1au8, 0x04u8,
        0x2bu8, 0x53u8, 0xa6u8, 0x7du8, 0x03u8, 0x5fu8, 0x79u8, 0x71u8, 0xbbu8,
    ]
}

fn control_token_digest() -> (r: [u8; 20])
    ensures
        r@ == spec_control_token_digest(),
{
    let r: [u8; 20] = [
        0x49u8, 0x20u8, 0x3bu8, 0x5fu8, 0x12u8, 0xf5u8, 0x5au8, 0x6fu8, 0xe5u8, 0x1au8, 0x04u8,
        0x2bu8, 0x53u8, 0xa6u8, 0x7du8, 0x03u8, 0x5fu8, 0x79u8, 0x71u8, 0xbbu8,
    ];
    proof {
        assert(r@ =~= spec_control_token_digest());
    }
    r
}

/// Whether a submitted token is the control token: its SHA-1 digest must
/// equal the stored reference digest.
pub fn token_valid(token: &[u8]) -> (r: bool)
    ensures
        r == (sha1_of(token@) == spec_control_token_digest()),
{
    let expected = control_token_digest();
    digest_matches(token, &expected)
}

} // verus!
