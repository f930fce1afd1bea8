//! Lifecycle status of a submission record and its transition lattice.

use vstd::prelude::*;

verus! {

/// Lifecycle status of a submission record.
///
/// A record is created as `Received`, is claimed by a submitter as
/// `Processing`, and ends as `Transmitted` (terminal success) or `Failed`
/// (eligible for retry until the retry budget is exhausted).
#[derive(Clone, Copy, Debug, PartialEq, Eq, Structural)]
pub enum Status {
    Received,
    Processing,
    Transmitted,
    Failed,
}

/// The only transitions a record may take: forward through
/// `Received -> Processing -> {Transmitted, Failed}` plus the retry edge
/// `Failed -> Processing`. `Transmitted` has no outgoing edge.
pub open spec fn status_can_step(from: Status, to: Status) -> bool {
    ||| (from == Status::Received && to == Status::Processing)
    ||| (from == Status::Processing && to == Status::Transmitted)
    ||| (from == Status::Processing && to == Status::Failed)
    ||| (from == Status::Failed && to == Status::Processing)
}

/// A sequence of statuses in which every consecutive pair is a legal
/// transition.
pub open spec fn valid_status_chain(chain: Seq<Status>) -> bool {
    forall|k: int|
        0 <= k && k + 1 < chain.len() ==> #[trigger] status_can_step(chain[k], chain[k + 1])
}

/// `Transmitted` is terminal: no transition leaves it.
pub proof fn lemma_transmitted_has_no_successor(to: Status)
    ensures
        !status_can_step(Status::Transmitted, to),
{
}

/// Status never regresses: along any legal transition chain, once a record
/// is `Transmitted` it stays `Transmitted` at every later point.
pub proof fn lemma_transmitted_is_terminal(chain: Seq<Status>, i: int, j: int)
    requires
        valid_status_chain(chain),
        0 <= i <= j < chain.len(),
        chain[i] == Status::Transmitted,
    ensures
        chain[j] == Status::Transmitted,
    decreases j - i,
{
    if i < j {
        assert(status_can_step(chain[i], chain[i + 1]));
        lemma_transmitted_is_terminal(chain, i + 1, j);
    }
}

} // verus!
