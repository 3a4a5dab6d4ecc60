//! Waiting until the blobs of a block are stored for good.

use crate::da::ZGDA;
use crate::disperse::{disperse_outcomes, Dispersal};
use crate::disperser::{BlobStatusReply, BlobStatusRequest, DAError};
use crate::gather::{gather, gathered_view, gathers};
use crate::metrics::DAMetrics;
use vstd::prelude::*;

verus! {

/// How far the wait for one blob has come.
#[derive(Debug, PartialEq, Eq)]
pub enum ConfirmPhase {
    /// Nothing has been done.
    Idle,
    /// A connection is being made.
    Connecting,
    /// The disperser is being asked.
    Polling,
    /// The blob was not finalized yet, and there is a wait before the next poll.
    Waiting,
    /// The blob is stored for good; with the reply that said so.
    Finalized(BlobStatusReply),
    /// There was no connection.
    Failed(DAError),
}

/// What happens during the wait for a blob.
#[derive(Debug, PartialEq, Eq)]
pub enum ConfirmEvent {
    /// The wait begins.
    Start,
    /// There is a connection.
    Connected,
    /// There is no connection; with what the transport said.
    ConnectFailed(String),
    /// The disperser answered a poll.
    Status(BlobStatusReply),
    /// The wait between two polls is over.
    Slept,
}

/// What is to be done next in the wait for a blob.
#[derive(Debug, PartialEq, Eq)]
pub enum ConfirmAction {
    /// Connect to this address.
    Connect(String),
    /// Send this request.
    Poll(BlobStatusRequest),
    /// Wait this many milliseconds.
    Sleep(u64),
    /// Nothing is left to do.
    Finish,
}

impl ConfirmPhase {
    /// Whether `event` can happen in this phase. A reply that a blob is finalized also says
    /// where it is.
    pub open spec fn expects(self, event: ConfirmEvent) -> bool {
        match event {
            ConfirmEvent::Start => self is Idle,
            ConfirmEvent::Connected => self is Connecting,
            ConfirmEvent::ConnectFailed(_) => self is Connecting,
            ConfirmEvent::Status(reply) => self is Polling && (reply.spec_is_finalized()
                ==> reply.spec_has_header()),
            ConfirmEvent::Slept => self is Waiting,
        }
    }

    /// Whether nothing is left to do.
    pub open spec fn is_final(self) -> bool {
        self is Finalized || self is Failed
    }

    /// What a finished wait came to: the last reply, or why there is none.
    pub open spec fn outcome(self) -> Result<BlobStatusReply, DAError>
        recommends
            self.is_final(),
    {
        match self {
            ConfirmPhase::Failed(error) => Err(error),
            _ => Ok(self->Finalized_0),
        }
    }
}

impl ConfirmEvent {
    /// The phase that the event leads to.
    pub open spec fn leads_to(self) -> ConfirmPhase {
        match self {
            ConfirmEvent::Start => ConfirmPhase::Connecting,
            ConfirmEvent::Connected => ConfirmPhase::Polling,
            ConfirmEvent::ConnectFailed(text) => ConfirmPhase::Failed(DAError::Connect(text)),
            ConfirmEvent::Status(reply) => if reply.spec_is_finalized() {
                ConfirmPhase::Finalized(reply)
            } else {
                ConfirmPhase::Waiting
            },
            ConfirmEvent::Slept => ConfirmPhase::Polling,
        }
    }

    /// The counters after the event, for a blob of `len` bytes: each answered poll is counted,
    /// and so are the bytes of a blob that is finalized.
    pub open spec fn counted_in(self, metrics: DAMetrics, len: nat) -> DAMetrics {
        match self {
            ConfirmEvent::Status(reply) => DAMetrics {
                poll_confirmation_count: metrics.poll_confirmation_count.plus(1),
                confirmed_bytes: if reply.spec_is_finalized() {
                    metrics.confirmed_bytes.plus(len as u64)
                } else {
                    metrics.confirmed_bytes
                },
                ..metrics
            },
            _ => metrics,
        }
    }
}

impl ConfirmAction {
    /// Whether this is what is to be done for the blob `request_id` in `phase`, by the client
    /// `da`.
    pub open spec fn suits(self, phase: ConfirmPhase, request_id: Seq<u8>, da: ZGDA) -> bool {
        match phase {
            ConfirmPhase::Idle => false,
            ConfirmPhase::Connecting => self is Connect && self->Connect_0@ == da.config.url@,
            ConfirmPhase::Polling => self is Poll && self->Poll_0.request_id@ == request_id,
            ConfirmPhase::Waiting => self == ConfirmAction::Sleep(
                da.config.status_retry_delay_ms as u64,
            ),
            ConfirmPhase::Finalized(_) => self is Finish,
            ConfirmPhase::Failed(_) => self is Finish,
        }
    }
}

/// The wait for one blob.
#[derive(Debug)]
pub struct BlobConfirmation {
    /// The place of the blob in its block.
    pub blob_id: usize,
    /// What the disperser answered when it took the blob.
    pub request_id: Vec<u8>,
    /// The length of the blob.
    pub data_len: usize,
    /// How far the wait has come.
    pub phase: ConfirmPhase,
}

/// The wait for a block: that for each of its blobs, in order.
#[derive(Debug)]
pub struct Confirmation {
    pub blobs: Vec<BlobConfirmation>,
}

/// What the wait for each blob came to.
pub open spec fn confirm_outcomes(blobs: Seq<BlobConfirmation>) -> Seq<
    Result<BlobStatusReply, DAError>,
> {
    blobs.map_values(|blob: BlobConfirmation| blob.phase.outcome())
}

impl Confirmation {
    /// Whether nothing has been done yet, for blobs with these request ids and lengths.
    pub open spec fn is_fresh(&self, ids: Seq<(Vec<u8>, usize)>) -> bool {
        &&& self.blobs@.len() == ids.len()
        &&& forall|i: int|
            #![trigger self.blobs@[i]]
            0 <= i < self.blobs@.len() ==> self.blobs@[i] == (BlobConfirmation {
                blob_id: i as usize,
                request_id: ids[i].0,
                data_len: ids[i].1,
                phase: ConfirmPhase::Idle,
            })
    }

    /// Whether nothing is left to do.
    pub open spec fn is_finished(&self) -> bool {
        forall|i: int|
            #![trigger self.blobs@[i]]
            0 <= i < self.blobs@.len() ==> self.blobs@[i].phase.is_final()
    }

    /// The wait for blobs with these request ids and lengths, with nothing done yet.
    pub fn new(ids: Vec<(Vec<u8>, usize)>) -> (confirmation: Self)
        ensures
            confirmation.is_fresh(ids@),
    {
        let mut blobs: Vec<BlobConfirmation> = Vec::new();
        let ghost all = ids@;
        let len: usize = ids.len();
        for id in iter: ids
            invariant
                iter.seq() == all,
                all.len() == len,
                blobs@.len() == iter.index(),
                forall|i: int|
                    #![trigger blobs@[i]]
                    0 <= i < blobs@.len() ==> blobs@[i] == (BlobConfirmation {
                        blob_id: i as usize,
                        request_id: all[i].0,
                        data_len: all[i].1,
                        phase: ConfirmPhase::Idle,
                    }),
        {
            let (request_id, data_len) = id;
            blobs.push(
                BlobConfirmation {
                    blob_id: blobs.len(),
                    request_id,
                    data_len,
                    phase: ConfirmPhase::Idle,
                },
            );
        }
        Confirmation { blobs }
    }

    /// The last reply for every blob, in order; or, where there was no connection, why there
    /// was none for the first of those blobs.
    pub fn finish(self) -> (replies: Result<Vec<BlobStatusReply>, DAError>)
        requires
            self.is_finished(),
        ensures
            gathers(confirm_outcomes(self.blobs@), gathered_view(replies)),
    {
        let mut outcomes: Vec<Result<BlobStatusReply, DAError>> = Vec::new();
        let ghost all = self.blobs@;
        for blob in iter: self.blobs
            invariant
                iter.seq() == all,
                forall|i: int| #![trigger all[i]] 0 <= i < all.len() ==> all[i].phase.is_final(),
                outcomes@.len() == iter.index(),
                forall|i: int|
                    #![trigger outcomes@[i]]
                    0 <= i < iter.index() ==> outcomes@[i] == confirm_outcomes(all)[i],
        {
            match blob.phase {
                ConfirmPhase::Finalized(reply) => {
                    outcomes.push(Ok(reply));
                },
                ConfirmPhase::Failed(error) => {
                    outcomes.push(Err(error));
                },
                _ => {
                    assert(false);
                },
            }
        }
        assert(outcomes@ =~= confirm_outcomes(all));
        gather(outcomes)
    }
}

/// The storage of a block: first it is dispersed, then each blob is waited for.
#[derive(Debug)]
pub struct Storage<'a> {
    pub dispersal: Dispersal<'a>,
}

impl<'a> Storage<'a> {
    /// Goes on to the wait, once the dispersal has finished. Where a blob could not be sent,
    /// there is nothing to wait for, and the storage fails as the dispersal does.
    pub fn confirm(self) -> (confirmation: Result<Confirmation, DAError>)
        requires
            self.dispersal.is_finished(),
        ensures
            match confirmation {
                Ok(confirmation) => exists|ids: Seq<(Vec<u8>, usize)>| #[trigger]
                    gathers(disperse_outcomes(self.dispersal.blobs@), Ok(ids))
                        && confirmation.is_fresh(ids),
                Err(error) => gathers(
                    disperse_outcomes(self.dispersal.blobs@),
                    Err::<Seq<(Vec<u8>, usize)>, DAError>(error),
                ),
            },
    {
        match self.dispersal.finish() {
            Ok(ids) => Ok(Confirmation::new(ids)),
            Err(error) => Err(error),
        }
    }
}

impl ZGDA {
    /// Takes note of what happened in the wait for a blob, and tells what is to be done next.
    ///
    /// The disperser is asked over and over, with a wait after each answer, until it answers
    /// that the blob is finalized.
    pub fn wait_for_blob_confirmation(
        &mut self,
        blob: &mut BlobConfirmation,
        event: ConfirmEvent,
    ) -> (action: ConfirmAction)
        requires
            old(blob).phase.expects(event),
        ensures
            *final(blob) == (BlobConfirmation { phase: event.leads_to(), ..*old(blob) }),
            *final(self) == (ZGDA {
                metrics: event.counted_in(old(self).metrics, old(blob).data_len as nat),
                ..*old(self)
            }),
            action.suits(event.leads_to(), old(blob).request_id@, *old(self)),
            old(self).is_valid() ==> final(self).is_valid(),
    {
        match event {
            ConfirmEvent::Start => {
                blob.phase = ConfirmPhase::Connecting;
                ConfirmAction::Connect(self.config.url.clone())
            },
            ConfirmEvent::ConnectFailed(text) => {
                blob.phase = ConfirmPhase::Failed(DAError::Connect(text));
                ConfirmAction::Finish
            },
            ConfirmEvent::Connected | ConfirmEvent::Slept => {
                blob.phase = ConfirmPhase::Polling;
                ConfirmAction::Poll(BlobStatusRequest { request_id: blob.request_id.clone() })
            },
            ConfirmEvent::Status(reply) => {
                self.metrics.poll_confirmation_count.inc();
                if reply.is_finalized() {
                    self.metrics.confirmed_bytes.inc_by(blob.data_len as u64);
                    blob.phase = ConfirmPhase::Finalized(reply);
                    ConfirmAction::Finish
                } else {
                    blob.phase = ConfirmPhase::Waiting;
                    ConfirmAction::Sleep(self.config.status_retry_delay_ms as u64)
                }
            },
        }
    }
}

} // verus!
