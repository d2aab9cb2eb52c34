//! Whether a run of headers is a chain: each header names the one before it
//! as its parent.

use crate::header::{same_hash, Header};
use crate::status::{decimal, hex, push_hex, text_with_number, Status, StatusCode};
use vstd::string::StringExecFns;
use vstd::prelude::*;

verus! {

/// Header `i + 1` names header `i` as its parent.
pub open spec fn linked(headers: Seq<Header>, i: int) -> bool {
    headers[i].hash@ == headers[i + 1].parent_hash@
}

/// Every header but the first names the header before it as its parent.
pub open spec fn continuous(headers: Seq<Header>) -> bool {
    forall|i: int| 0 <= i < headers.len() - 1 ==> linked(headers, i)
}

/// The chain breaks between header `i` and header `i + 1`, and nowhere
/// before.
pub open spec fn first_break(headers: Seq<Header>, i: int) -> bool {
    &&& 0 <= i < headers.len() - 1
    &&& !linked(headers, i)
    &&& forall|j: int| 0 <= j < i ==> linked(headers, j)
}

/// The words that report header `i + 1`, which does not name header `i` as
/// its parent: its block number and hash, the parent hash that it holds, and
/// the hash of the header before it.
pub open spec fn broken_link_message(headers: Seq<Header>, i: int) -> Seq<char> {
    "failed to verify parent hash for block#"@ + decimal(headers[i + 1].number as nat)
        + ", hash: "@ + hex(headers[i + 1].hash@) + " expect "@ + hex(headers[i + 1].parent_hash@)
        + " but got "@ + hex(headers[i].hash@)
}

/// A chain breaks first in one place only.
pub proof fn lemma_first_break_unique(headers: Seq<Header>, i: int, j: int)
    requires
        first_break(headers, i),
        first_break(headers, j),
    ensures
        i == j,
{
}

/// A run of headers either is continuous or breaks first somewhere.
pub proof fn lemma_continuous_or_broken(headers: Seq<Header>)
    ensures
        continuous(headers) <==> !exists|i: int| first_break(headers, i),
{
    if !continuous(headers) {
        let k = choose|k: int| 0 <= k < headers.len() - 1 && !linked(headers, k);
        lemma_break_before(headers, k);
    }
}

/// Before a break there is a first break.
proof fn lemma_break_before(headers: Seq<Header>, k: int)
    requires
        0 <= k < headers.len() - 1,
        !linked(headers, k),
    ensures
        exists|i: int| first_break(headers, i),
    decreases k,
{
    if forall|j: int| 0 <= j < k ==> linked(headers, j) {
        assert(first_break(headers, k));
    } else {
        let j = choose|j: int| 0 <= j < k && !linked(headers, j);
        lemma_break_before(headers, j);
    }
}

/// A continuous run in which one header, not the first, gets another parent
/// hash is no longer continuous: it breaks first at that header.
pub proof fn lemma_changed_parent_hash_breaks(
    headers: Seq<Header>,
    changed: Seq<Header>,
    i: int,
)
    requires
        continuous(headers),
        1 <= i < headers.len(),
        changed.len() == headers.len(),
        forall|j: int| 0 <= j < headers.len() && j != i ==> changed[j] == headers[j],
        changed[i].hash == headers[i].hash,
        changed[i].number == headers[i].number,
        changed[i].parent_hash@ != headers[i].parent_hash@,
    ensures
        first_break(changed, i - 1),
        continuity_verdict(changed) == Err::<(), (StatusCode, Option<Seq<char>>)>(
            (StatusCode::InvalidParentHash, Some(broken_link_message(changed, i - 1))),
        ),
{
    assert(linked(headers, i - 1));
    assert forall|j: int| 0 <= j < i - 1 implies linked(changed, j) by {
        assert(linked(headers, j));
    }
    assert(first_break(changed, i - 1));
    let chosen = choose|k: int| first_break(changed, k);
    lemma_first_break_unique(changed, i - 1, chosen);
}

/// What the check of a run of headers gives: nothing where the run is
/// continuous, else the code `InvalidParentHash` with the words on the first
/// header that does not name the header before it as its parent.
pub open spec fn continuity_verdict(headers: Seq<Header>) -> Result<
    (),
    (StatusCode, Option<Seq<char>>),
> {
    if continuous(headers) {
        Ok(())
    } else {
        let i = choose|i: int| first_break(headers, i);
        Err((StatusCode::InvalidParentHash, Some(broken_link_message(headers, i))))
    }
}

/// Checks that each header names the header before it as its parent.
///
/// Where the chain breaks, the status is `InvalidParentHash`, and its context
/// names the first header that does not fit, with the two hashes that
/// differ.
pub fn check_continuous_headers(headers: &[Header]) -> (r: Result<(), Status>)
    ensures
        r is Ok <==> continuous(headers@),
        r matches Err(status) ==> exists|i: int|
            first_break(headers@, i) && status@ == (
                StatusCode::InvalidParentHash,
                Some(broken_link_message(headers@, i)),
            ),
        match continuity_verdict(headers@) {
            Ok(()) => r is Ok,
            Err(view) => r matches Err(status) && status@ == view,
        },
{
    if headers.len() < 2 {
        return Ok(());
    }
    let mut i: usize = 0;
    while i < headers.len() - 1
        invariant
            headers.len() >= 2,
            i <= headers.len() - 1,
            forall|j: int| 0 <= j < i ==> linked(headers@, j),
        decreases headers.len() - i,
    {
        if !same_hash(&headers[i].hash, &headers[i + 1].parent_hash) {
            let mut errmsg = text_with_number(
                "failed to verify parent hash for block#",
                headers[i + 1].number(),
            );
            errmsg.append(", hash: ");
            push_hex(&mut errmsg, headers[i + 1].hash.as_slice());
            errmsg.append(" expect ");
            push_hex(&mut errmsg, headers[i + 1].parent_hash.as_slice());
            errmsg.append(" but got ");
            push_hex(&mut errmsg, headers[i].hash.as_slice());
            let status = StatusCode::InvalidParentHash.with_context(errmsg);
            proof {
                assert(first_break(headers@, i as int));
                let chosen = choose|k: int| first_break(headers@, k);
                lemma_first_break_unique(headers@, i as int, chosen);
            }
            return Err(status);
        }
        i += 1;
    }
    Ok(())
}

} // verus!
