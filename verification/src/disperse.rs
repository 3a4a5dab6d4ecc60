//! Handing the blobs of a block to the disperser.

use crate::blob::contents;
use crate::da::ZGDA;
use crate::disperser::{is_rate_limit, spec_is_rate_limit, DAError, DisperseBlobRequest};
use crate::gather::{gather, gathered_view, gathers};
use crate::metrics::DAMetrics;
use vstd::prelude::*;
use vstd::slice::slice_to_vec;

verus! {

/// How far the dispersal of one blob has come.
#[derive(Debug, PartialEq, Eq)]
pub enum DispersePhase {
    /// Nothing has been done.
    Idle,
    /// It waits for one of the places for requests under way.
    AwaitingPermit,
    /// It waits for the rate limit to let it through.
    AwaitingRate,
    /// A connection is being made.
    Connecting,
    /// The blob is on its way.
    Sending,
    /// The disperser refused the blob, and it waits before it goes out again.
    BackingOff,
    /// It waits for the rate limit to let it through once more.
    AwaitingRetryRate,
    /// The disperser took the blob, and gave it this request id.
    Accepted(Vec<u8>),
    /// There was no connection.
    Failed(DAError),
}

/// What happens to a blob on its way to the disperser.
#[derive(Debug, PartialEq, Eq)]
pub enum DisperseEvent {
    /// The dispersal begins.
    Start,
    /// There is a place for one more request under way.
    PermitGranted,
    /// The rate limit lets the first request through.
    RateReady,
    /// There is a connection.
    Connected,
    /// There is no connection; with what the transport said.
    ConnectFailed(String),
    /// The disperser took the blob, and gave it this request id.
    Accepted(Vec<u8>),
    /// The disperser refused the blob; with the status code of gRPC.
    Refused(i32),
    /// The wait after a refusal is over.
    Slept,
    /// The rate limit lets the next request through.
    RetryReady,
}

/// What is to be done next for a blob.
#[derive(Debug, PartialEq, Eq)]
pub enum DisperseAction {
    /// Wait for one of the places for requests under way, and hold it until the end.
    AcquirePermit,
    /// Wait for the rate limit, before the first request.
    AwaitRate,
    /// Wait for the rate limit, before the next request.
    AwaitRetryRate,
    /// Connect to this address.
    Connect(String),
    /// Send this request.
    Send(DisperseBlobRequest),
    /// Wait this many milliseconds.
    Sleep(u64),
    /// Nothing is left to do.
    Finish,
}

impl DispersePhase {
    /// Whether `event` can happen in this phase.
    pub open spec fn expects(self, event: DisperseEvent) -> bool {
        match event {
            DisperseEvent::Start => self is Idle,
            DisperseEvent::PermitGranted => self is AwaitingPermit,
            DisperseEvent::RateReady => self is AwaitingRate,
            DisperseEvent::Connected => self is Connecting,
            DisperseEvent::ConnectFailed(_) => self is Connecting,
            DisperseEvent::Accepted(_) => self is Sending,
            DisperseEvent::Refused(_) => self is Sending,
            DisperseEvent::Slept => self is BackingOff,
            DisperseEvent::RetryReady => self is AwaitingRetryRate,
        }
    }

    /// Whether nothing is left to do.
    pub open spec fn is_final(self) -> bool {
        self is Accepted || self is Failed
    }

    /// What a finished dispersal came to: the request id, or why there is none.
    pub open spec fn outcome(self) -> Result<Vec<u8>, DAError>
        recommends
            self.is_final(),
    {
        match self {
            DispersePhase::Failed(error) => Err(error),
            _ => Ok(self->Accepted_0),
        }
    }
}

impl DisperseEvent {
    /// The phase that the event leads to.
    pub open spec fn leads_to(self) -> DispersePhase {
        match self {
            DisperseEvent::Start => DispersePhase::AwaitingPermit,
            DisperseEvent::PermitGranted => DispersePhase::AwaitingRate,
            DisperseEvent::RateReady => DispersePhase::Connecting,
            DisperseEvent::Connected => DispersePhase::Sending,
            DisperseEvent::ConnectFailed(text) => DispersePhase::Failed(DAError::Connect(text)),
            DisperseEvent::Accepted(request_id) => DispersePhase::Accepted(request_id),
            DisperseEvent::Refused(_) => DispersePhase::BackingOff,
            DisperseEvent::Slept => DispersePhase::AwaitingRetryRate,
            DisperseEvent::RetryReady => DispersePhase::Sending,
        }
    }

    /// The counters after the event, for a blob of `len` bytes: a refusal that is a rate limit
    /// is counted, and so are the bytes of a blob that the disperser took.
    pub open spec fn counted_in(self, metrics: DAMetrics, len: nat) -> DAMetrics {
        match self {
            DisperseEvent::Accepted(_) => DAMetrics {
                dispersed_bytes: metrics.dispersed_bytes.plus(len as u64),
                ..metrics
            },
            DisperseEvent::Refused(code) => DAMetrics {
                dispersal_rate_limited: if spec_is_rate_limit(code) {
                    metrics.dispersal_rate_limited.plus(1)
                } else {
                    metrics.dispersal_rate_limited
                },
                ..metrics
            },
            _ => metrics,
        }
    }
}

impl DisperseAction {
    /// Whether this is what is to be done for the blob `data` in `phase`, by the client `da`.
    pub open spec fn suits(self, phase: DispersePhase, data: Seq<u8>, da: ZGDA) -> bool {
        match phase {
            DispersePhase::Idle => false,
            DispersePhase::AwaitingPermit => self is AcquirePermit,
            DispersePhase::AwaitingRate => self is AwaitRate,
            DispersePhase::Connecting => self is Connect && self->Connect_0@ == da.config.url@,
            DispersePhase::Sending => self is Send && self->Send_0.data@ == data,
            DispersePhase::BackingOff => self == DisperseAction::Sleep(
                da.config.disperser_retry_delay_ms as u64,
            ),
            DispersePhase::AwaitingRetryRate => self is AwaitRetryRate,
            DispersePhase::Accepted(_) => self is Finish,
            DispersePhase::Failed(_) => self is Finish,
        }
    }
}

/// The dispersal of one blob.
#[derive(Debug)]
pub struct BlobDispersal<'a> {
    /// The place of the blob in its block.
    pub blob_id: usize,
    /// The blob.
    pub data: &'a [u8],
    /// How far it has come.
    pub phase: DispersePhase,
}

/// The dispersal of a block: that of each of its blobs, in order.
#[derive(Debug)]
pub struct Dispersal<'a> {
    pub blobs: Vec<BlobDispersal<'a>>,
}

/// The bytes of each blob.
pub open spec fn blob_data(blobs: Seq<BlobDispersal<'_>>) -> Seq<Seq<u8>> {
    blobs.map_values(|blob: BlobDispersal<'_>| blob.data@)
}

/// What the dispersal of each blob came to.
pub open spec fn disperse_outcomes(blobs: Seq<BlobDispersal<'_>>) -> Seq<
    Result<(Vec<u8>, usize), DAError>,
> {
    blobs.map_values(
        |blob: BlobDispersal<'_>|
            match blob.phase.outcome() {
                Ok(request_id) => Ok((request_id, blob.data@.len() as usize)),
                Err(error) => Err(error),
            },
    )
}

impl<'a> Dispersal<'a> {
    /// Whether nothing has been done yet, for blobs that hold `parts`.
    pub open spec fn is_fresh(&self, parts: Seq<Seq<u8>>) -> bool {
        &&& blob_data(self.blobs@) == parts
        &&& forall|i: int|
            #![trigger self.blobs@[i]]
            0 <= i < self.blobs@.len() ==> self.blobs@[i].blob_id == i && self.blobs@[i].phase
                is Idle
    }

    /// Whether nothing is left to do.
    pub open spec fn is_finished(&self) -> bool {
        forall|i: int|
            #![trigger self.blobs@[i]]
            0 <= i < self.blobs@.len() ==> self.blobs@[i].phase.is_final()
    }

    /// The dispersal of the blobs `parts`, with nothing done yet.
    pub fn new(parts: Vec<&'a [u8]>) -> (dispersal: Self)
        ensures
            dispersal.is_fresh(contents(parts@)),
    {
        let mut blobs: Vec<BlobDispersal<'a>> = Vec::new();
        let mut blob_id: usize = 0;
        while blob_id < parts.len()
            invariant
                blob_id <= parts@.len(),
                blobs@.len() == blob_id,
                forall|i: int|
                    #![trigger blobs@[i]]
                    0 <= i < blobs@.len() ==> blobs@[i].blob_id == i && blobs@[i].phase is Idle
                        && blobs@[i].data@ == parts@[i]@,
            decreases parts@.len() - blob_id,
        {
            blobs.push(
                BlobDispersal { blob_id, data: parts[blob_id], phase: DispersePhase::Idle },
            );
            blob_id += 1;
        }
        assert(blob_data(blobs@) =~= contents(parts@));
        Dispersal { blobs }
    }

    /// The request id and the length of every blob, in order; or, where a blob could not be
    /// sent, why the first of those could not.
    pub fn finish(self) -> (ids: Result<Vec<(Vec<u8>, usize)>, DAError>)
        requires
            self.is_finished(),
        ensures
            gathers(disperse_outcomes(self.blobs@), gathered_view(ids)),
    {
        let mut outcomes: Vec<Result<(Vec<u8>, usize), DAError>> = Vec::new();
        let ghost all = self.blobs@;
        for blob in iter: self.blobs
            invariant
                iter.seq() == all,
                forall|i: int| #![trigger all[i]] 0 <= i < all.len() ==> all[i].phase.is_final(),
                outcomes@.len() == iter.index(),
                forall|i: int|
                    #![trigger outcomes@[i]]
                    0 <= i < iter.index() ==> outcomes@[i] == disperse_outcomes(all)[i],
        {
            let len: usize = blob.data.len();
            match blob.phase {
                DispersePhase::Accepted(request_id) => {
                    outcomes.push(Ok((request_id, len)));
                },
                DispersePhase::Failed(error) => {
                    outcomes.push(Err(error));
                },
                _ => {
                    assert(false);
                },
            }
        }
        assert(outcomes@ =~= disperse_outcomes(all));
        gather(outcomes)
    }
}

impl ZGDA {
    /// The request that carries a blob.
    pub fn disperse_blob_request(&self, data: &[u8]) -> (request: DisperseBlobRequest)
        ensures
            request.data@ == data@,
    {
        DisperseBlobRequest { data: slice_to_vec(data) }
    }

    /// Takes note of what happened to a blob, and tells what is to be done next for it.
    ///
    /// A blob goes out with a place among the requests under way, after the rate limit let it
    /// through, and over a connection. As often as it is refused, it waits, and goes out again
    /// after the rate limit let it through once more.
    pub fn disperse_blob_inner(
        &mut self,
        blob: &mut BlobDispersal<'_>,
        event: DisperseEvent,
    ) -> (action: DisperseAction)
        requires
            old(blob).phase.expects(event),
        ensures
            *final(blob) == (BlobDispersal { phase: event.leads_to(), ..*old(blob) }),
            *final(self) == (ZGDA {
                metrics: event.counted_in(old(self).metrics, old(blob).data@.len()),
                ..*old(self)
            }),
            action.suits(event.leads_to(), old(blob).data@, *old(self)),
            old(self).is_valid() ==> final(self).is_valid(),
    {
        match event {
            DisperseEvent::Start => {
                blob.phase = DispersePhase::AwaitingPermit;
                DisperseAction::AcquirePermit
            },
            DisperseEvent::PermitGranted => {
                blob.phase = DispersePhase::AwaitingRate;
                DisperseAction::AwaitRate
            },
            DisperseEvent::RateReady => {
                blob.phase = DispersePhase::Connecting;
                DisperseAction::Connect(self.config.url.clone())
            },
            DisperseEvent::ConnectFailed(text) => {
                blob.phase = DispersePhase::Failed(DAError::Connect(text));
                DisperseAction::Finish
            },
            DisperseEvent::Slept => {
                blob.phase = DispersePhase::AwaitingRetryRate;
                DisperseAction::AwaitRetryRate
            },
            DisperseEvent::Connected | DisperseEvent::RetryReady => {
                blob.phase = DispersePhase::Sending;
                DisperseAction::Send(self.disperse_blob_request(blob.data))
            },
            DisperseEvent::Refused(code) => {
                if is_rate_limit(code) {
                    self.metrics.dispersal_rate_limited.inc();
                }
                blob.phase = DispersePhase::BackingOff;
                DisperseAction::Sleep(self.config.disperser_retry_delay_ms as u64)
            },
            DisperseEvent::Accepted(request_id) => {
                self.metrics.dispersed_bytes.inc_by(blob.data.len() as u64);
                blob.phase = DispersePhase::Accepted(request_id);
                DisperseAction::Finish
            },
        }
    }
}

} // verus!
