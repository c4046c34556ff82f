use vstd::prelude::*;
use crate::keys::Pubkey32;

verus! {

/// The namespace tag under which every delegation record's address is
/// derived: the bytes of `"delegation"`.
pub const DELEGATION_TAG: [u8; 10] = [100, 101, 108, 101, 103, 97, 116, 105, 111, 110];

/// The address the host derives from a namespace tag, a key, a bump seed and
/// a program id, or `None` where that combination yields no valid
/// program-derived address.
///
/// The host computes it as a hash of exactly these inputs, so the result is a
/// function of them alone.
pub uninterp spec fn pda_of(tag: Seq<u8>, key: Seq<u8>, bump: u8, program: Seq<u8>) -> Option<Seq<u8>>;

/// Relies on solana_program::pubkey::Pubkey::create_program_address: the
/// derived address is a hash of the seed slices and the program id alone;
/// an error (a candidate on the ed25519 curve, or a seed over the host's
/// length cap) is reported here as `None`.
#[verifier::external_body]
pub(crate) fn create_pda(tag: &[u8; 10], key: &Pubkey32, bump: u8, program_id: &Pubkey32) -> (r: Option<Pubkey32>)
    ensures
        r is Some <==> pda_of(tag@, key@, bump, program_id@) is Some,
        r matches Some(a) ==> pda_of(tag@, key@, bump, program_id@) == Some(a@),
{
    let pid = solana_program::pubkey::Pubkey::new_from_array(program_id.bytes);
    match solana_program::pubkey::Pubkey::create_program_address(&[&tag[..], &key.bytes[..], &[bump]], &pid) {
        Ok(a) => Some(Pubkey32 { bytes: a.to_bytes() }),
        Err(_) => None,
    }
}

/// The host's bump-seed search, tried from `bump` down to 1: the first bump
/// whose derivation succeeds wins, and bump 0 is never tried.
pub open spec fn pda_search(tag: Seq<u8>, key: Seq<u8>, program: Seq<u8>, bump: u8) -> Option<(Seq<u8>, u8)>
    decreases bump,
{
    if bump == 0 {
        None
    } else {
        match pda_of(tag, key, bump, program) {
            Some(a) => Some((a, bump)),
            None => pda_search(tag, key, program, (bump - 1) as u8),
        }
    }
}

/// The canonical derivation of a delegation record's address from its
/// validator's key under a program id: the highest viable bump seed.
pub open spec fn canonical_pda(key: Seq<u8>, program: Seq<u8>) -> Option<(Seq<u8>, u8)> {
    pda_search(DELEGATION_TAG@, key, program, 255)
}

/// An address found by the bump search re-derives under its own bump seed.
pub proof fn lemma_pda_search_found(tag: Seq<u8>, key: Seq<u8>, program: Seq<u8>, bump: u8)
    ensures
        pda_search(tag, key, program, bump) matches Some(p) ==>
            p.1 <= bump && 1 <= p.1 && pda_of(tag, key, p.1, program) == Some(p.0),
    decreases bump,
{
    if bump > 0 && pda_of(tag, key, bump, program) is None {
        lemma_pda_search_found(tag, key, program, (bump - 1) as u8);
    }
}

/// Finds the canonical program-derived address for a tag and a key: tries
/// bump seeds from 255 down to 1 and returns the first that derives, as the
/// host's own search does.
pub fn find_pda(tag: &[u8; 10], key: &Pubkey32, program_id: &Pubkey32) -> (r: Option<(Pubkey32, u8)>)
    ensures
        match r {
            Some(p) => pda_search(tag@, key@, program_id@, 255) == Some((p.0@, p.1)),
            None => pda_search(tag@, key@, program_id@, 255) is None,
        },
{
    let mut bump: u8 = 255;
    loop
        invariant
            1 <= bump <= 255,
            pda_search(tag@, key@, program_id@, 255) == pda_search(tag@, key@, program_id@, bump),
        decreases bump,
    {
        match create_pda(tag, key, bump, program_id) {
            Some(a) => {
                return Some((a, bump));
            },
            None => {},
        }
        if bump == 1 {
            proof {
                assert(pda_search(tag@, key@, program_id@, 0) is None);
            }
            return None;
        }
        bump = bump - 1;
    }
}

} // verus!
