//! The challenge that opens the handover of a key: given out, and accepted once.
use crate::error::CesealServiceError;
use crate::state::{current_block_of, not_initialized, Ceseal};
use crate::types::{BlockNumber, ChallengeView, HandoverChallenge};
use vstd::prelude::*;

verus! {

/// How many blocks after it was given out a challenge can be answered.
pub const MAX_CHALLENGE_AGE: BlockNumber = 150;

/// The challenge that was given out last is `challenge`, and it was not answered yet.
pub open spec fn challenge_expected<P>(c: Ceseal<P>, challenge: ChallengeView) -> bool {
    c.handover_last_challenge matches Some(last) && last@ == challenge
}

/// A challenge of block `height` can still be answered at block `now`.
pub open spec fn challenge_in_time(height: BlockNumber, now: BlockNumber) -> bool {
    height <= now && now - height <= MAX_CHALLENGE_AGE
}

/// The challenge of a node for the given block and time. A node in development mode sends no
/// target information.
pub open spec fn challenge_of(
    dev_mode: bool,
    block_number: BlockNumber,
    now: u64,
    sgx_target_info: Seq<u8>,
    nonce: Seq<u8>,
) -> ChallengeView {
    ChallengeView {
        sgx_target_info: if dev_mode {
            Seq::empty()
        } else {
            sgx_target_info
        },
        block_number,
        now,
        dev_mode,
        nonce,
    }
}

/// How a challenge for the current block is given out.
pub open spec fn challenge_created<P>(
    pre: Ceseal<P>,
    sgx_target_info: Vec<u8>,
    nonce: [u8; 32],
    post: Ceseal<P>,
    r: Result<HandoverChallenge, CesealServiceError>,
) -> bool {
    match pre.runtime_state {
        None => post == pre && (r matches Err(e) && e@ == not_initialized()),
        Some(s) => {
            let (block_number, now) = current_block_of(s);
            &&& r matches Ok(challenge)
            &&& challenge@ == challenge_of(
                pre.dev_mode,
                block_number,
                now,
                sgx_target_info@,
                nonce@,
            )
            &&& challenge_given_out(pre, challenge, post)
        },
    }
}

/// `challenge` was given out and is expected to be answered.
pub open spec fn challenge_given_out<P>(
    pre: Ceseal<P>,
    challenge: HandoverChallenge,
    post: Ceseal<P>,
) -> bool {
    &&& challenge_expected(post, challenge@)
    &&& post == (Ceseal { handover_last_challenge: post.handover_last_challenge, ..pre })
}

/// How a challenge for a given block and time is given out.
pub open spec fn challenge_made<P>(
    pre: Ceseal<P>,
    block_number: BlockNumber,
    now: u64,
    sgx_target_info: Vec<u8>,
    nonce: [u8; 32],
    post: Ceseal<P>,
    r: HandoverChallenge,
) -> bool {
    &&& r@ == challenge_of(pre.dev_mode, block_number, now, sgx_target_info@, nonce@)
    &&& challenge_given_out(pre, r, post)
}

/// `challenge` was held against the expected one, and none is expected any more.
pub open spec fn challenge_checked<P>(
    pre: Ceseal<P>,
    challenge: HandoverChallenge,
    post: Ceseal<P>,
    accepted: bool,
) -> bool {
    &&& accepted == challenge_expected(pre, challenge@)
    &&& post == (Ceseal { handover_last_challenge: None, ..pre })
}

/// Whether a challenge of block `height` can still be answered at block `now`.
pub fn in_time(height: BlockNumber, now: BlockNumber) -> (r: bool)
    ensures
        r == challenge_in_time(height, now),
{
    height <= now && now - height <= MAX_CHALLENGE_AGE
}

impl<Platform> Ceseal<Platform> {
    /// Gives out a challenge with the given random `nonce`. `sgx_target_info` tells the other
    /// node for whom to make its local report.
    pub fn get_worker_key_challenge(
        &mut self,
        block_number: BlockNumber,
        now: u64,
        sgx_target_info: Vec<u8>,
        nonce: [u8; 32],
    ) -> (r: HandoverChallenge)
        ensures
            challenge_made(
                *old(self),
                block_number,
                now,
                sgx_target_info,
                nonce,
                *final(self),
                r,
            ),
    {
        let target: Vec<u8> = if self.dev_mode {
            Vec::new()
        } else {
            sgx_target_info
        };
        let challenge = HandoverChallenge {
            sgx_target_info: target,
            block_number,
            now,
            dev_mode: self.dev_mode,
            nonce,
        };
        self.handover_last_challenge = Some(challenge.clone());
        challenge
    }

    /// Gives out a challenge for the current block.
    pub fn handover_create_challenge(
        &mut self,
        sgx_target_info: Vec<u8>,
        nonce: [u8; 32],
    ) -> (r: Result<HandoverChallenge, CesealServiceError>)
        ensures
            challenge_created(*old(self), sgx_target_info, nonce, *final(self), r),
    {
        match self.current_block() {
            Ok((block, ts)) => Ok(self.get_worker_key_challenge(block, ts, sgx_target_info, nonce)),
            Err(e) => Err(e),
        }
    }

    /// Whether `challenge` is the one that was given out last. Whatever the answer, no challenge
    /// is expected any more.
    pub fn verify_worker_key_challenge(&mut self, challenge: &HandoverChallenge) -> (r: bool)
        ensures
            challenge_checked(*old(self), *challenge, *final(self), r),
    {
        match self.handover_last_challenge.take() {
            Some(last) => last == *challenge,
            None => false,
        }
    }
}

/// A challenge that was given out is accepted when it comes back.
pub proof fn law_given_out_is_accepted<P>(
    pre: Ceseal<P>,
    challenge: HandoverChallenge,
    between: Ceseal<P>,
    answer: HandoverChallenge,
    post: Ceseal<P>,
    accepted: bool,
)
    requires
        challenge_given_out(pre, challenge, between),
        answer@ == challenge@,
        challenge_checked(between, answer, post, accepted),
    ensures
        accepted,
{
}

/// After a challenge was checked, no challenge is accepted before a new one is given out: an
/// answer cannot be used twice, and a wrong answer spends the challenge.
pub proof fn law_no_replay<P>(
    a: Ceseal<P>,
    first: HandoverChallenge,
    b: Ceseal<P>,
    first_accepted: bool,
    second: HandoverChallenge,
    c: Ceseal<P>,
    second_accepted: bool,
)
    requires
        challenge_checked(a, first, b, first_accepted),
        challenge_checked(b, second, c, second_accepted),
    ensures
        !second_accepted,
{
}

/// Giving out a challenge revokes the one given out before, unless they are the same.
pub proof fn law_new_challenge_revokes_old<P>(
    a: Ceseal<P>,
    older: HandoverChallenge,
    b: Ceseal<P>,
    newer: HandoverChallenge,
    c: Ceseal<P>,
    d: Ceseal<P>,
    accepted: bool,
)
    requires
        challenge_given_out(a, older, b),
        challenge_given_out(b, newer, c),
        older@ != newer@,
        challenge_checked(c, older, d, accepted),
    ensures
        !accepted,
{
}

} // verus!
