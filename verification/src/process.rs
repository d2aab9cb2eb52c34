//! The decision on a response with sampled blocks.
//!
//! A response is checked in two steps, between which the caller checks the
//! proof of work of the headers: first whether it answers a request at all,
//! and matches it; then everything else. The second step says what is to be
//! done: turn the response down, ask for other samples, or keep the proved
//! state.

use crate::continuity::{check_continuous_headers, continuity_verdict};
use crate::difficulty::{
    compact_target_difficulty, tau_verdict, total_difficulty_verdict, verify_tau,
    verify_total_difficulty, TotalDifficultyFault,
};
use crate::header::{Header, VerifiableHeaderWithChainRoot};
use crate::matching::{
    check_if_response_is_matched, difficulty_values, match_verdict, summaries,
};
use crate::messages::{GetBlockSamples, LastState, ProveRequest, ProveState, SendBlockSamples};
use crate::mmr::{mmr_verdict, verify_mmr_proof};
use crate::status::{decimal, hex, push_decimal, push_hex, Status, StatusCode};
use vstd::prelude::*;
use vstd::string::StringExecFns;

verus! {

/// The factor by which the epoch difficulty may change from one epoch to the
/// next.
pub open spec fn tau() -> u64 {
    2
}

/// Reads the constant `TAU` of `ckb-constant`. Trusted: it is 2.
#[verifier::external_body]
fn consensus_tau() -> (r: u64)
    ensures
        r == tau(),
{
    ckb_constant::consensus::TAU
}

/// The headers of a list of blocks.
pub open spec fn headers_of(blocks: Seq<VerifiableHeaderWithChainRoot>) -> Seq<Header> {
    Seq::new(blocks.len(), |i: int| blocks[i].header.header)
}

/// The headers of a list of blocks.
pub fn convert_to_views(headers: &Vec<VerifiableHeaderWithChainRoot>) -> (r: Vec<Header>)
    ensures
        r@ == headers_of(headers@),
{
    let mut views: Vec<Header> = Vec::new();
    let mut i: usize = 0;
    while i < headers.len()
        invariant
            i <= headers.len(),
            views.len() == i,
            forall|j: int| 0 <= j < i ==> views[j] == headers[j].header.header,
        decreases headers.len() - i,
    {
        views.push(headers[i].header.header);
        i += 1;
    }
    assert(views@ =~= headers_of(headers@));
    views
}

/// Appends `more` to `out`.
fn append_headers(out: &mut Vec<Header>, more: &Vec<Header>)
    ensures
        final(out)@ == old(out)@ + more@,
{
    let mut i: usize = 0;
    while i < more.len()
        invariant
            i <= more.len(),
            out@ == old(out)@ + more@.subrange(0, i as int),
        decreases more.len() - i,
    {
        out.push(more[i]);
        assert(out@ =~= old(out)@ + more@.subrange(0, i + 1));
        i += 1;
    }
    assert(more@.subrange(0, i as int) =~= more@);
}

/// The outcome of the first step: a response is turned down with
/// `PeerIsNotOnProcess` where no request waits for it, and else where it does
/// not match the request (see [`match_verdict`]).
pub open spec fn request_verdict(
    prove_request: Option<ProveRequest>,
    mmr_activated_epoch: u64,
    message: SendBlockSamples,
) -> Result<(), StatusCode> {
    match prove_request {
        None => Err(StatusCode::PeerIsNotOnProcess),
        Some(request) => match_verdict(
            request.request.difficulty_boundary@,
            difficulty_values(request.request.difficulties@),
            message.last_n_headers[0].summary(mmr_activated_epoch),
            message.last_n_headers.len() as nat,
            summaries(message.sampled_headers@, mmr_activated_epoch),
        ),
    }
}

/// The first step: checks that a request waits for the response, and that
/// the response matches it. A status that turns the response down has no
/// context.
///
/// Where a request waits, the response holds at least one last block, and an
/// epoch number has 24 bits.
pub fn check_request(
    prove_request: Option<&ProveRequest>,
    mmr_activated_epoch: u64,
    message: &SendBlockSamples,
) -> (r: Result<(), Status>)
    requires
        prove_request is Some ==> mmr_activated_epoch < 0x100_0000 && message.last_n_headers.len()
            > 0,
    ensures
        match request_verdict(
            match prove_request {
                Some(request) => Some(*request),
                None => None,
            },
            mmr_activated_epoch,
            *message,
        ) {
            Ok(()) => r is Ok,
            Err(code) => r matches Err(status) && status@ == (code, None::<Seq<char>>),
        },
{
    match prove_request {
        None => Err(StatusCode::PeerIsNotOnProcess.into_status()),
        Some(request) => check_if_response_is_matched(
            mmr_activated_epoch,
            request.get_request(),
            &message.sampled_headers,
            &message.last_n_headers,
        ),
    }
}

/// What is to be done with a response.
#[derive(Debug)]
pub enum Verdict {
    /// The response is turned down.
    Rejected(Status),
    /// The response passed all checks but the bound on the change of the
    /// epoch difficulty: other samples are to be asked for, for the same head
    /// of the chain, and the response to them is not held to that bound.
    Resample(LastState),
    /// The response passed all checks: this state is to be kept.
    Commit(ProveState),
}

/// What is to be done with a response, as plain values.
pub enum Decision {
    Rejected((StatusCode, Option<Seq<char>>)),
    Resample,
    Commit,
}

/// The outcome of the check on the change of the epoch difficulty, from the
/// first sampled block to the last of the last blocks. A request may waive
/// the check, and without samples there is nothing to check.
pub open spec fn tau_step(
    request: ProveRequest,
    sampled: Seq<Header>,
    last_n: Seq<Header>,
    tau: u64,
) -> Option<Result<bool, StatusCode>> {
    if request.skip_check_tau || sampled.len() == 0 {
        Some(Ok(false))
    } else {
        tau_verdict(
            sampled[0].spec_epoch(),
            sampled[0].compact_target,
            compact_target_difficulty(sampled[0].compact_target),
            last_n.last().spec_epoch(),
            last_n.last().compact_target,
            compact_target_difficulty(last_n.last().compact_target),
            tau,
        )
    }
}

/// The number of the block before block `start_number`; before block 0, the
/// largest number there is.
pub open spec fn number_before(start_number: u64) -> u64 {
    if start_number == 0 {
        u64::MAX
    } else {
        (start_number - 1) as u64
    }
}

/// The words that report headers of a reorganisation that end at the block
/// with the given number and hash, while the block before the start block is
/// expected.
pub open spec fn reorg_message(number: u64, hash: Seq<u8>, start_number: u64) -> Seq<char> {
    "failed to verify reorg last n headers since they end at block#"@ + decimal(number as nat)
        + " (hash: "@ + hex(hash) + ") but we expect block#"@ + decimal(
        number_before(start_number) as nat,
    )
}

/// The headers of a reorganisation end just before the start block.
pub open spec fn reorg_verdict(reorg: Seq<Header>, start_number: u64) -> Result<
    (),
    (StatusCode, Option<Seq<char>>),
> {
    if reorg.len() > 0 && reorg.last().number + 1 != start_number {
        Err(
            (
                StatusCode::InvalidReorgHeaders,
                Some(reorg_message(reorg.last().number, reorg.last().hash@, start_number)),
            ),
        )
    } else {
        Ok(())
    }
}

/// The outcome of the check of the total difficulty of the new head against
/// the state kept of the peer. Without samples, or without such a state,
/// there is nothing to check.
pub open spec fn total_difficulty_step(
    request: ProveRequest,
    prev_state: Option<ProveState>,
    sampled: Seq<Header>,
    tau: u64,
) -> Option<Result<(), TotalDifficultyFault>> {
    if sampled.len() > 0 && prev_state is Some {
        let start = prev_state->0.request.last_state;
        let end = request.last_state;
        total_difficulty_verdict(
            start.tip_header.header.spec_epoch(),
            compact_target_difficulty(start.tip_header.header.compact_target),
            start.total_difficulty@,
            end.tip_header.header.spec_epoch(),
            compact_target_difficulty(end.tip_header.header.compact_target),
            end.total_difficulty@,
            tau,
        )
    } else {
        Some(Ok(()))
    }
}

/// What is to be done with a response that matched its request and whose
/// headers have a valid proof of work.
///
/// The checks run in this order, and the first that fails decides: the
/// change of the epoch difficulty, unless it only exceeds its bound; the end
/// of the headers of a reorganisation; the continuity of those headers and of
/// the last blocks; the proof for all headers; the total difficulty. A
/// response that passes them is kept, unless the change of the epoch
/// difficulty exceeds its bound: then other samples are asked for. It is
/// `None` where a check cannot be computed.
pub open spec fn decision(
    request: ProveRequest,
    prev_state: Option<ProveState>,
    mmr_activated_epoch: u64,
    message: SendBlockSamples,
    tau: u64,
) -> Option<Decision> {
    let reorg = headers_of(message.reorg_last_n_headers@);
    let sampled = headers_of(message.sampled_headers@);
    let last_n = headers_of(message.last_n_headers@);
    match tau_step(request, sampled, last_n, tau) {
        None => None,
        Some(Err(code)) => Some(Decision::Rejected((code, None))),
        Some(Ok(failed_to_verify_tau)) => match reorg_verdict(
            reorg,
            request.request.start_number,
        ) {
            Err(view) => Some(Decision::Rejected(view)),
            Ok(()) => match continuity_verdict(reorg) {
                Err(view) => Some(Decision::Rejected(view)),
                Ok(()) => match continuity_verdict(last_n) {
                    Err(view) => Some(Decision::Rejected(view)),
                    Ok(()) => match mmr_verdict(
                        mmr_activated_epoch,
                        request.last_state.tip_header,
                        message.root,
                        message.proof@,
                        reorg + sampled + last_n,
                    ) {
                        None => None,
                        Some(Err(view)) => Some(Decision::Rejected(view)),
                        Some(Ok(())) => match total_difficulty_step(
                            request,
                            prev_state,
                            sampled,
                            tau,
                        ) {
                            None => None,
                            Some(Err(fault)) => Some(
                                Decision::Rejected(
                                    (
                                        StatusCode::InvalidTotalDifficulty,
                                        Some(
                                            fault.message(
                                                prev_state->0.request.last_state.tip_header.header.spec_epoch(),
                                                request.last_state.tip_header.header.spec_epoch(),
                                            ),
                                        ),
                                    ),
                                ),
                            ),
                            Some(Ok(())) => Some(
                                if failed_to_verify_tau {
                                    Decision::Resample
                                } else {
                                    Decision::Commit
                                },
                            ),
                        },
                    },
                },
            },
        },
    }
}

/// Whether the verdict `r` on a response to `request` is what `expected`
/// asks for: the same status; the head of the chain of the request, to ask
/// for other samples for; or the state made of the request and of the
/// headers of the response.
pub open spec fn verdict_matches(
    r: Option<Verdict>,
    expected: Option<Decision>,
    request: ProveRequest,
    message: SendBlockSamples,
) -> bool {
    match (r, expected) {
        (None, None) => true,
        (Some(Verdict::Rejected(status)), Some(Decision::Rejected(view))) => status@ == view,
        (Some(Verdict::Resample(last_state)), Some(Decision::Resample)) => last_state
            == request.last_state,
        (Some(Verdict::Commit(state)), Some(Decision::Commit)) => {
            &&& state.request == request
            &&& state.reorg_last_n_headers@ == headers_of(message.reorg_last_n_headers@)
            &&& state.last_n_headers@ == headers_of(message.last_n_headers@)
        },
        _ => false,
    }
}

/// What is to be done with a response is a function of the request, of the
/// state kept of the peer and of the response: two verdicts that both are
/// what one decision asks for agree, in the status down to its words, in the
/// head to ask other samples for, and in the state to keep.
pub proof fn lemma_verdict_is_determined(
    a: Option<Verdict>,
    b: Option<Verdict>,
    expected: Option<Decision>,
    request: ProveRequest,
    message: SendBlockSamples,
)
    requires
        verdict_matches(a, expected, request, message),
        verdict_matches(b, expected, request, message),
    ensures
        match (a, b) {
            (None, None) => true,
            (Some(Verdict::Rejected(x)), Some(Verdict::Rejected(y))) => x@ == y@,
            (Some(Verdict::Resample(x)), Some(Verdict::Resample(y))) => x == y,
            (Some(Verdict::Commit(x)), Some(Verdict::Commit(y))) => {
                &&& x.request == y.request
                &&& x.reorg_last_n_headers@ == y.reorg_last_n_headers@
                &&& x.last_n_headers@ == y.last_n_headers@
            },
            _ => false,
        },
{
}

/// A response that passes every check, the bound on the change of the epoch
/// difficulty among them, is kept.
pub proof fn lemma_passing_response_is_kept(
    request: ProveRequest,
    prev_state: Option<ProveState>,
    mmr_activated_epoch: u64,
    message: SendBlockSamples,
    tau: u64,
)
    requires
        tau_step(
            request,
            headers_of(message.sampled_headers@),
            headers_of(message.last_n_headers@),
            tau,
        ) == Some(Ok::<bool, StatusCode>(false)),
        reorg_verdict(headers_of(message.reorg_last_n_headers@), request.request.start_number)
            is Ok,
        continuity_verdict(headers_of(message.reorg_last_n_headers@)) is Ok,
        continuity_verdict(headers_of(message.last_n_headers@)) is Ok,
        mmr_verdict(
            mmr_activated_epoch,
            request.last_state.tip_header,
            message.root,
            message.proof@,
            headers_of(message.reorg_last_n_headers@) + headers_of(message.sampled_headers@)
                + headers_of(message.last_n_headers@),
        ) matches Some(Ok(_)),
        total_difficulty_step(request, prev_state, headers_of(message.sampled_headers@), tau)
            matches Some(Ok(_)),
    ensures
        decision(request, prev_state, mmr_activated_epoch, message, tau) matches Some(
            Decision::Commit,
        ),
{
}

/// A response in which one of the last blocks, not the first, holds another
/// parent hash than in a continuous run is turned down with
/// `InvalidParentHash`, where the checks before the continuity of the last
/// blocks pass.
pub proof fn lemma_changed_parent_hash_is_turned_down(
    request: ProveRequest,
    prev_state: Option<ProveState>,
    mmr_activated_epoch: u64,
    message: SendBlockSamples,
    tau: u64,
    continuous_run: Seq<Header>,
    i: int,
)
    requires
        tau_step(
            request,
            headers_of(message.sampled_headers@),
            headers_of(message.last_n_headers@),
            tau,
        ) matches Some(Ok(_)),
        reorg_verdict(headers_of(message.reorg_last_n_headers@), request.request.start_number)
            is Ok,
        continuity_verdict(headers_of(message.reorg_last_n_headers@)) is Ok,
        crate::continuity::continuous(continuous_run),
        1 <= i < continuous_run.len(),
        message.last_n_headers@.len() == continuous_run.len(),
        forall|j: int|
            0 <= j < continuous_run.len() && j != i ==> headers_of(message.last_n_headers@)[j]
                == continuous_run[j],
        headers_of(message.last_n_headers@)[i].hash == continuous_run[i].hash,
        headers_of(message.last_n_headers@)[i].number == continuous_run[i].number,
        headers_of(message.last_n_headers@)[i].parent_hash@ != continuous_run[i].parent_hash@,
    ensures
        decision(request, prev_state, mmr_activated_epoch, message, tau) == Some(
            Decision::Rejected(
                (
                    StatusCode::InvalidParentHash,
                    Some(
                        crate::continuity::broken_link_message(
                            headers_of(message.last_n_headers@),
                            i - 1,
                        ),
                    ),
                ),
            ),
        ),
{
    crate::continuity::lemma_changed_parent_hash_breaks(
        continuous_run,
        headers_of(message.last_n_headers@),
        i,
    );
}

/// The second step: decides what is to be done with a response that matched
/// its request and whose headers have a valid proof of work. See
/// [`decision`], with the factor [`tau`].
///
/// The response holds at least one last block, and an epoch number has 24
/// bits.
pub fn verify_samples(
    prove_request: ProveRequest,
    prev_state: Option<&ProveState>,
    mmr_activated_epoch: u64,
    message: &SendBlockSamples,
) -> (r: Option<Verdict>)
    requires
        mmr_activated_epoch < 0x100_0000,
        message.last_n_headers.len() > 0,
    ensures
        verdict_matches(
            r,
            decision(
                prove_request,
                match prev_state {
                    Some(state) => Some(*state),
                    None => None,
                },
                mmr_activated_epoch,
                *message,
                tau(),
            ),
            prove_request,
            *message,
        ),
{
    let tau = consensus_tau();
    let reorg_last_n_headers = convert_to_views(&message.reorg_last_n_headers);
    let sampled_headers = convert_to_views(&message.sampled_headers);
    let last_n_headers = convert_to_views(&message.last_n_headers);

    // The change of the epoch difficulty over the whole response.
    let failed_to_verify_tau = if prove_request.if_skip_check_tau() {
        false
    } else if sampled_headers.len() > 0 {
        let start_header = &sampled_headers[0];
        let end_header = &last_n_headers[last_n_headers.len() - 1];
        match verify_tau(
            start_header.epoch(),
            start_header.compact_target(),
            end_header.epoch(),
            end_header.compact_target(),
            tau,
        ) {
            None => {
                return None;
            },
            Some(Ok(result)) => result,
            Some(Err(status)) => {
                return Some(Verdict::Rejected(status));
            },
        }
    } else {
        false
    };

    // The headers of a reorganisation end just before the start block.
    if reorg_last_n_headers.len() > 0 {
        let header = &reorg_last_n_headers[reorg_last_n_headers.len() - 1];
        let start_number: u64 = prove_request.get_request().start_number;
        if header.number() == u64::MAX || header.number() + 1 != start_number {
            let mut errmsg = String::from_str(
                "failed to verify reorg last n headers since they end at block#",
            );
            push_decimal(&mut errmsg, header.number());
            errmsg.append(" (hash: ");
            push_hex(&mut errmsg, header.hash.as_slice());
            errmsg.append(") but we expect block#");
            let expected: u64 = if start_number == 0 {
                u64::MAX
            } else {
                start_number - 1
            };
            push_decimal(&mut errmsg, expected);
            return Some(Verdict::Rejected(StatusCode::InvalidReorgHeaders.with_context(errmsg)));
        }
    }

    // Both runs of consecutive headers are chains.
    if let Err(status) = check_continuous_headers(reorg_last_n_headers.as_slice()) {
        return Some(Verdict::Rejected(status));
    }
    if let Err(status) = check_continuous_headers(last_n_headers.as_slice()) {
        return Some(Verdict::Rejected(status));
    }

    // All headers belong to the chain under the root.
    let mut headers: Vec<Header> = Vec::new();
    append_headers(&mut headers, &reorg_last_n_headers);
    append_headers(&mut headers, &sampled_headers);
    append_headers(&mut headers, &last_n_headers);
    match verify_mmr_proof(
        mmr_activated_epoch,
        prove_request.get_last_header(),
        &message.root,
        &message.proof,
        &headers,
    ) {
        None => {
            return None;
        },
        Some(Err(status)) => {
            return Some(Verdict::Rejected(status));
        },
        Some(Ok(())) => {},
    }

    // The total difficulty of the new head against the state kept. Without
    // samples, the proof of work and the continuity of the last blocks say
    // enough.
    if sampled_headers.len() > 0 {
        if let Some(prove_state) = prev_state {
            let start_header = &prove_state.get_last_header().header;
            let end_header = &prove_request.get_last_header().header;
            match verify_total_difficulty(
                start_header.epoch(),
                start_header.compact_target(),
                prove_state.get_total_difficulty(),
                end_header.epoch(),
                end_header.compact_target(),
                prove_request.get_total_difficulty(),
                tau,
            ) {
                None => {
                    return None;
                },
                Some(Err(msg)) => {
                    return Some(
                        Verdict::Rejected(StatusCode::InvalidTotalDifficulty.with_context(msg)),
                    );
                },
                Some(Ok(())) => {},
            }
        }
    }

    if failed_to_verify_tau {
        Some(Verdict::Resample(prove_request.last_state))
    } else {
        Some(
            Verdict::Commit(
                ProveState::new_from_request(prove_request, reorg_last_n_headers, last_n_headers),
            ),
        )
    }
}

/// The request for other samples, for the same head of the chain: the
/// response to it is not held to the bound on the change of the epoch
/// difficulty.
pub fn resample_request(last_state: LastState, content: GetBlockSamples) -> (r: ProveRequest)
    ensures
        r.last_state == last_state,
        r.request == content,
        r.skip_check_tau,
{
    let mut prove_request = ProveRequest::new(last_state, content);
    prove_request.skip_check_tau();
    prove_request
}

} // verus!
