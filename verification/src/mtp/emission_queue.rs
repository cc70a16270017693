//! Accepted MTP tokens queued for emission, with the exact target frontier at the
//! public stream boundary.

use vstd::prelude::*;
use std::collections::VecDeque;

verus! {

/// Exact target frontier corresponding to one publicly emitted token prefix.
///
/// `boundary` is the retained boundary checkpoint; `recurrent_snapshot_byte_counts`
/// are the payload sizes of its recurrent snapshot tensors.
pub struct VerifiedTargetFrontier<B> {
    pub position_tokens: u32,
    pub boundary: B,
    pub recurrent_snapshot_byte_counts: Vec<usize>,
}

/// Sum of a sequence of byte counts.
pub open spec fn byte_sum(counts: Seq<usize>) -> int
    decreases counts.len(),
{
    if counts.len() == 0 {
        0
    } else {
        byte_sum(counts.drop_last()) + counts.last()
    }
}

/// `value` capped at `u64::MAX`.
pub open spec fn saturated(value: int) -> int {
    if value > u64::MAX {
        u64::MAX as int
    } else {
        value
    }
}

/// Payload bytes retained by one frontier, saturating at `u64::MAX`.
pub open spec fn frontier_payload_bytes<B>(frontier: VerifiedTargetFrontier<B>) -> int {
    saturated(byte_sum(frontier.recurrent_snapshot_byte_counts@))
}

impl<B> VerifiedTargetFrontier<B> {
    /// Payload bytes of the recurrent snapshots this frontier retains.
    pub fn payload_byte_count(&self) -> (bytes: u64)
        ensures
            bytes == frontier_payload_bytes(*self),
    {
        let counts = &self.recurrent_snapshot_byte_counts;
        let mut total: u64 = 0;
        let mut index: usize = 0;
        while index < counts.len()
            invariant
                index <= counts@.len(),
                total == saturated(byte_sum(counts@.subrange(0, index as int))),
                byte_sum(counts@.subrange(0, index as int)) >= 0,
            decreases counts.len() - index,
        {
            assert(counts@.subrange(0, index + 1).drop_last() =~= counts@.subrange(0, index as int));
            total = total.saturating_add(counts[index] as u64);
            index += 1;
        }
        assert(counts@.subrange(0, index as int) =~= counts@);
        total
    }
}

struct VerifiedEmission<B> {
    token_id: u32,
    frontier_after_emission: Option<VerifiedTargetFrontier<B>>,
}

/// Accepted tokens plus the exact target frontier at the public stream boundary.
pub struct VerifiedEmissionQueue<B> {
    emissions: VecDeque<VerifiedEmission<B>>,
    public_frontier: Option<VerifiedTargetFrontier<B>>,
}

/// Mathematical content of a [`VerifiedEmissionQueue`]: the queued tokens with the
/// frontier reached after each, and the frontier of the tokens already shown.
pub struct VerifiedEmissionQueueView<B> {
    pub emissions: Seq<(u32, Option<VerifiedTargetFrontier<B>>)>,
    pub public_frontier: Option<VerifiedTargetFrontier<B>>,
}

impl<B> View for VerifiedEmissionQueue<B> {
    type V = VerifiedEmissionQueueView<B>;

    closed spec fn view(&self) -> VerifiedEmissionQueueView<B> {
        VerifiedEmissionQueueView {
            emissions: self.emissions@.map_values(
                |emission: VerifiedEmission<B>| (emission.token_id, emission.frontier_after_emission),
            ),
            public_frontier: self.public_frontier,
        }
    }
}

/// Payload bytes retained by a queue: its public frontier plus every queued frontier,
/// saturating at `u64::MAX`.
pub open spec fn queue_payload_bytes<B>(queue: VerifiedEmissionQueueView<B>) -> int {
    let public_bytes = match queue.public_frontier {
        Some(frontier) => frontier_payload_bytes(frontier),
        None => 0,
    };
    saturated(public_bytes + queued_frontier_bytes(queue.emissions))
}

/// Sum of the payload bytes of queued frontiers.
pub open spec fn queued_frontier_bytes<B>(emissions: Seq<(u32, Option<VerifiedTargetFrontier<B>>)>) -> int
    decreases emissions.len(),
{
    if emissions.len() == 0 {
        0
    } else {
        queued_frontier_bytes(emissions.drop_last()) + match emissions.last().1 {
            Some(frontier) => frontier_payload_bytes(frontier),
            None => 0,
        }
    }
}

proof fn lemma_queued_frontier_bytes_nonnegative<B>(emissions: Seq<(u32, Option<VerifiedTargetFrontier<B>>)>)
    ensures
        queued_frontier_bytes(emissions) >= 0,
    decreases emissions.len(),
{
    if emissions.len() > 0 {
        lemma_queued_frontier_bytes_nonnegative(emissions.drop_last());
        lemma_byte_sum_nonnegative_for(emissions.last().1);
    }
}

proof fn lemma_byte_sum_nonnegative(counts: Seq<usize>)
    ensures
        byte_sum(counts) >= 0,
    decreases counts.len(),
{
    if counts.len() > 0 {
        lemma_byte_sum_nonnegative(counts.drop_last());
    }
}

proof fn lemma_byte_sum_nonnegative_for<B>(frontier: Option<VerifiedTargetFrontier<B>>)
    ensures
        frontier matches Some(f) ==> frontier_payload_bytes(f) >= 0,
{
    if let Some(f) = frontier {
        lemma_byte_sum_nonnegative(f.recurrent_snapshot_byte_counts@);
    }
}

impl<B> VerifiedEmissionQueue<B> {
    /// An empty queue whose public frontier is `public_frontier`.
    pub fn new(public_frontier: VerifiedTargetFrontier<B>) -> (queue: Self)
        ensures
            queue@.emissions == Seq::<(u32, Option<VerifiedTargetFrontier<B>>)>::empty(),
            queue@.public_frontier == Some(public_frontier),
    {
        let queue = VerifiedEmissionQueue { emissions: VecDeque::new(), public_frontier: Some(public_frontier) };
        assert(queue@.emissions =~= Seq::<(u32, Option<VerifiedTargetFrontier<B>>)>::empty());
        queue
    }

    /// Queues `token_id`; `frontier_after_emission` is the target frontier once it is shown.
    pub fn push(&mut self, token_id: u32, frontier_after_emission: Option<VerifiedTargetFrontier<B>>)
        ensures
            final(self)@.emissions == old(self)@.emissions.push((token_id, frontier_after_emission)),
            final(self)@.public_frontier == old(self)@.public_frontier,
    {
        self.emissions.push_back(VerifiedEmission { token_id, frontier_after_emission });
        assert(self@.emissions =~= old(self)@.emissions.push((token_id, frontier_after_emission)));
    }

    /// Emits the oldest queued token; its frontier becomes the public frontier.
    pub fn pop_front(&mut self) -> (token_id: Option<u32>)
        ensures
            old(self)@.emissions.len() == 0 ==> token_id is None && final(self)@ == old(self)@,
            old(self)@.emissions.len() > 0 ==> {
                &&& token_id == Some(old(self)@.emissions[0].0)
                &&& final(self)@.emissions == old(self)@.emissions.drop_first()
                &&& final(self)@.public_frontier == old(self)@.emissions[0].1
            },
    {
        match self.emissions.pop_front() {
            Some(emission) => {
                self.public_frontier = emission.frontier_after_emission;
                assert(self@.emissions =~= old(self)@.emissions.drop_first());
                Some(emission.token_id)
            },
            None => None,
        }
    }

    pub fn is_empty(&self) -> (empty: bool)
        ensures
            empty == (self@.emissions.len() == 0),
    {
        self.emissions.len() == 0
    }

    /// Transfers the frontier that matches tokens already shown to the user.
    ///
    /// This is one-shot: a later injection must not restore unpublished drafts.
    pub fn take_public_frontier(&mut self) -> (frontier: Option<VerifiedTargetFrontier<B>>)
        ensures
            frontier == old(self)@.public_frontier,
            final(self)@.public_frontier is None,
            final(self)@.emissions == old(self)@.emissions,
    {
        self.public_frontier.take()
    }

    /// Payload bytes retained by the public frontier and every queued frontier.
    pub fn payload_byte_count(&self) -> (bytes: u64)
        ensures
            bytes == queue_payload_bytes(self@),
    {
        let mut total: u64 = match &self.public_frontier {
            Some(frontier) => frontier.payload_byte_count(),
            None => 0,
        };
        let ghost public_bytes = match self@.public_frontier {
            Some(frontier) => frontier_payload_bytes(frontier),
            None => 0,
        };
        proof {
            lemma_byte_sum_nonnegative_for(self@.public_frontier);
        }
        let ghost emissions = self@.emissions;
        let mut index: usize = 0;
        while index < self.emissions.len()
            invariant
                index <= self.emissions@.len(),
                emissions == self@.emissions,
                emissions.len() == self.emissions@.len(),
                public_bytes >= 0,
                total == saturated(public_bytes + queued_frontier_bytes(emissions.subrange(0, index as int))),
            decreases self.emissions.len() - index,
        {
            assert(emissions.subrange(0, index + 1).drop_last() =~= emissions.subrange(0, index as int));
            assert(emissions[index as int] == (
                self.emissions@[index as int].token_id,
                self.emissions@[index as int].frontier_after_emission,
            ));
            proof {
                lemma_queued_frontier_bytes_nonnegative(emissions.subrange(0, index as int));
                lemma_byte_sum_nonnegative_for(self.emissions@[index as int].frontier_after_emission);
            }
            match &self.emissions[index].frontier_after_emission {
                Some(frontier) => {
                    total = total.saturating_add(frontier.payload_byte_count());
                },
                None => {},
            }
            index += 1;
        }
        assert(emissions.subrange(0, index as int) =~= emissions);
        total
    }
}

/// Emission-queue law: tokens leave in the order they were queued (first in, first out),
/// and each emitted token publishes the frontier that was queued with it.
pub proof fn lemma_emission_queue_is_first_in_first_out<B>(
    emissions: Seq<(u32, Option<VerifiedTargetFrontier<B>>)>,
    token_id: u32,
    frontier: Option<VerifiedTargetFrontier<B>>,
)
    requires
        emissions.len() > 0,
    ensures
        emissions.push((token_id, frontier))[0] == emissions[0],
        emissions.push((token_id, frontier)).drop_first() == emissions.drop_first().push((token_id, frontier)),
{
    assert(emissions.push((token_id, frontier)).drop_first() =~= emissions.drop_first().push((token_id, frontier)));
}

} // verus!
