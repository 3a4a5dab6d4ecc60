//! Getting the blobs of a block back.

use crate::da::ZGDA;
use crate::disperser::{BlobPlace, BlobStatusReply, DAError, RetrieveBlobRequest};
use crate::gather::{gather, gathered_view, gathers};
use vstd::prelude::*;

verus! {

/// How far the retrieval of one blob has come.
#[derive(Debug, PartialEq, Eq)]
pub enum RetrievePhase {
    /// Nothing has been done.
    Idle,
    /// A connection is being made.
    Connecting,
    /// The disperser is being asked.
    Requesting,
    /// The blob is here.
    Retrieved(Vec<u8>),
    /// There was no connection, or the disperser did not hand the blob out.
    Failed(DAError),
}

/// What happens during the retrieval of a blob.
#[derive(Debug, PartialEq, Eq)]
pub enum RetrieveEvent {
    /// The retrieval begins.
    Start,
    /// There is a connection.
    Connected,
    /// There is no connection; with what the transport said.
    ConnectFailed(String),
    /// The disperser sent the blob.
    Data(Vec<u8>),
    /// The disperser did not hand the blob out; with what it said.
    Refused(String),
}

/// What is to be done next in the retrieval of a blob.
#[derive(Debug, PartialEq, Eq)]
pub enum RetrieveAction {
    /// Connect to this address.
    Connect(String),
    /// Send this request.
    Send(RetrieveBlobRequest),
    /// Nothing is left to do.
    Finish,
}

impl RetrievePhase {
    /// Whether `event` can happen in this phase.
    pub open spec fn expects(self, event: RetrieveEvent) -> bool {
        match event {
            RetrieveEvent::Start => self is Idle,
            RetrieveEvent::Connected => self is Connecting,
            RetrieveEvent::ConnectFailed(_) => self is Connecting,
            RetrieveEvent::Data(_) => self is Requesting,
            RetrieveEvent::Refused(_) => self is Requesting,
        }
    }

    /// Whether nothing is left to do.
    pub open spec fn is_final(self) -> bool {
        self is Retrieved || self is Failed
    }

    /// What a finished retrieval came to: the blob, or why there is none.
    pub open spec fn outcome(self) -> Result<Vec<u8>, DAError>
        recommends
            self.is_final(),
    {
        match self {
            RetrievePhase::Failed(error) => Err(error),
            _ => Ok(self->Retrieved_0),
        }
    }
}

impl RetrieveEvent {
    /// The phase that the event leads to.
    pub open spec fn leads_to(self) -> RetrievePhase {
        match self {
            RetrieveEvent::Start => RetrievePhase::Connecting,
            RetrieveEvent::Connected => RetrievePhase::Requesting,
            RetrieveEvent::ConnectFailed(text) => RetrievePhase::Failed(DAError::Connect(text)),
            RetrieveEvent::Data(data) => RetrievePhase::Retrieved(data),
            RetrieveEvent::Refused(text) => RetrievePhase::Failed(DAError::Retrieve(text)),
        }
    }
}

impl RetrieveAction {
    /// Whether this is what is to be done for the blob at `place` in `phase`, by the client
    /// `da`.
    pub open spec fn suits(self, phase: RetrievePhase, place: BlobPlace, da: ZGDA) -> bool {
        match phase {
            RetrievePhase::Idle => false,
            RetrievePhase::Connecting => self is Connect && self->Connect_0@ == da.config.url@,
            RetrievePhase::Requesting => self is Send && self->Send_0@ == place,
            RetrievePhase::Retrieved(_) => self is Finish,
            RetrievePhase::Failed(_) => self is Finish,
        }
    }
}

/// The retrieval of one blob.
#[derive(Debug)]
pub struct BlobRetrieval {
    /// Where the blob is.
    pub request: RetrieveBlobRequest,
    /// How far the retrieval has come.
    pub phase: RetrievePhase,
}

/// The retrieval of a block: that of each of its blobs, in order.
#[derive(Debug)]
pub struct Retrieval {
    pub blobs: Vec<BlobRetrieval>,
}

/// The request for the blob of each reply, or why there can be none.
pub open spec fn requests_for(replies: Seq<BlobStatusReply>) -> Seq<
    Result<RetrieveBlobRequest, DAError>,
> {
    replies.map_values(|reply: BlobStatusReply| reply.spec_retrieve_request())
}

/// What the retrieval of each blob came to.
pub open spec fn retrieve_outcomes(blobs: Seq<BlobRetrieval>) -> Seq<Result<Vec<u8>, DAError>> {
    blobs.map_values(|blob: BlobRetrieval| blob.phase.outcome())
}

/// The bytes of each part.
pub open spec fn part_data(parts: Seq<Vec<u8>>) -> Seq<Seq<u8>> {
    parts.map_values(|part: Vec<u8>| part@)
}

/// Whether `block` is what the outcomes for its blobs come to: the blobs put together, or else
/// the first error.
pub open spec fn reassembles(
    outcomes: Seq<Result<Vec<u8>, DAError>>,
    block: Result<Seq<u8>, DAError>,
) -> bool {
    match block {
        Ok(data) => exists|parts: Seq<Vec<u8>>| #[trigger]
            gathers(outcomes, Ok(parts)) && data == part_data(parts).flatten(),
        Err(error) => gathers(outcomes, Err::<Seq<Vec<u8>>, DAError>(error)),
    }
}

/// The bytes of all parts, one part after the other.
pub fn put_together(parts: Vec<Vec<u8>>) -> (data: Vec<u8>)
    ensures
        data@ == part_data(parts@).flatten(),
{
    let mut data: Vec<u8> = Vec::new();
    let ghost all = parts@;
    for part in iter: parts
        invariant
            iter.seq() == all,
            data@ == part_data(all).take(iter.index() as int).flatten(),
    {
        let ghost before = part_data(all).take(iter.index() as int);
        let ghost after = part_data(all).take(iter.index() + 1);
        let mut part: Vec<u8> = part;
        proof {
            assert(after.drop_last() =~= before);
            assert(after.last() == part@);
            before.lemma_flatten_and_flatten_alt_are_equivalent();
            after.lemma_flatten_and_flatten_alt_are_equivalent();
        }
        data.append(&mut part);
    }
    assert(part_data(all).take(all.len() as int) =~= part_data(all));
    data
}

impl Retrieval {
    /// Whether nothing has been done yet, for blobs at the places that `requests` name.
    pub open spec fn is_fresh(&self, requests: Seq<RetrieveBlobRequest>) -> bool {
        &&& self.blobs@.len() == requests.len()
        &&& forall|i: int|
            #![trigger self.blobs@[i]]
            0 <= i < self.blobs@.len() ==> self.blobs@[i] == (BlobRetrieval {
                request: requests[i],
                phase: RetrievePhase::Idle,
            })
    }

    /// Whether nothing is left to do.
    pub open spec fn is_finished(&self) -> bool {
        forall|i: int|
            #![trigger self.blobs@[i]]
            0 <= i < self.blobs@.len() ==> self.blobs@[i].phase.is_final()
    }

    /// The retrieval of the blobs of these replies, with nothing done yet; or, where a reply
    /// does not say where its blob is, what the first of those lacks.
    pub fn new(replies: Vec<BlobStatusReply>) -> (retrieval: Result<Self, DAError>)
        ensures
            match retrieval {
                Ok(retrieval) => exists|requests: Seq<RetrieveBlobRequest>| #[trigger]
                    gathers(requests_for(replies@), Ok(requests)) && retrieval.is_fresh(
                        requests,
                    ),
                Err(error) => gathers(
                    requests_for(replies@),
                    Err::<Seq<RetrieveBlobRequest>, DAError>(error),
                ),
            },
    {
        let mut outcomes: Vec<Result<RetrieveBlobRequest, DAError>> = Vec::new();
        let ghost all = replies@;
        for reply in iter: replies
            invariant
                iter.seq() == all,
                outcomes@.len() == iter.index(),
                forall|i: int|
                    #![trigger outcomes@[i]]
                    0 <= i < iter.index() ==> outcomes@[i] == requests_for(all)[i],
        {
            outcomes.push(reply.retrieve_request());
        }
        assert(outcomes@ =~= requests_for(all));
        match gather(outcomes) {
            Err(error) => Err(error),
            Ok(requests) => {
                let mut blobs: Vec<BlobRetrieval> = Vec::new();
                let ghost wanted = requests@;
                for request in iter: requests
                    invariant
                        iter.seq() == wanted,
                        blobs@.len() == iter.index(),
                        forall|i: int|
                            #![trigger blobs@[i]]
                            0 <= i < iter.index() ==> blobs@[i] == (BlobRetrieval {
                                request: wanted[i],
                                phase: RetrievePhase::Idle,
                            }),
                {
                    blobs.push(BlobRetrieval { request, phase: RetrievePhase::Idle });
                }
                Ok(Retrieval { blobs })
            },
        }
    }

    /// The block: its blobs put together in order; or, where a blob did not come, why the
    /// first of those did not.
    pub fn finish(self) -> (block: Result<Vec<u8>, DAError>)
        requires
            self.is_finished(),
        ensures
            reassembles(retrieve_outcomes(self.blobs@), gathered_view(block)),
    {
        let mut outcomes: Vec<Result<Vec<u8>, DAError>> = Vec::new();
        let ghost all = self.blobs@;
        for blob in iter: self.blobs
            invariant
                iter.seq() == all,
                forall|i: int| #![trigger all[i]] 0 <= i < all.len() ==> all[i].phase.is_final(),
                outcomes@.len() == iter.index(),
                forall|i: int|
                    #![trigger outcomes@[i]]
                    0 <= i < iter.index() ==> outcomes@[i] == retrieve_outcomes(all)[i],
        {
            match blob.phase {
                RetrievePhase::Retrieved(data) => {
                    outcomes.push(Ok(data));
                },
                RetrievePhase::Failed(error) => {
                    outcomes.push(Err(error));
                },
                _ => {
                    assert(false);
                },
            }
        }
        assert(outcomes@ =~= retrieve_outcomes(all));
        match gather(outcomes) {
            Ok(parts) => Ok(put_together(parts)),
            Err(error) => Err(error),
        }
    }
}

impl ZGDA {
    /// Takes note of what happened in the retrieval of a blob, and tells what is to be done
    /// next. The disperser is asked once.
    pub fn retrieve_blob_inner(
        &self,
        blob: &mut BlobRetrieval,
        event: RetrieveEvent,
    ) -> (action: RetrieveAction)
        requires
            old(blob).phase.expects(event),
        ensures
            *final(blob) == (BlobRetrieval { phase: event.leads_to(), ..*old(blob) }),
            action.suits(event.leads_to(), old(blob).request@, *self),
    {
        match event {
            RetrieveEvent::Start => {
                blob.phase = RetrievePhase::Connecting;
                RetrieveAction::Connect(self.config.url.clone())
            },
            RetrieveEvent::Connected => {
                blob.phase = RetrievePhase::Requesting;
                RetrieveAction::Send(blob.request.again())
            },
            RetrieveEvent::ConnectFailed(text) => {
                blob.phase = RetrievePhase::Failed(DAError::Connect(text));
                RetrieveAction::Finish
            },
            RetrieveEvent::Data(data) => {
                blob.phase = RetrievePhase::Retrieved(data);
                RetrieveAction::Finish
            },
            RetrieveEvent::Refused(text) => {
                blob.phase = RetrievePhase::Failed(DAError::Retrieve(text));
                RetrieveAction::Finish
            },
        }
    }
}

} // verus!
