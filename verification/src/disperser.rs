//! What a client and the disperser say to each other, and what can go wrong.

use crate::outside::{hex_encode, hex_text};
use vstd::prelude::*;

verus! {

/// The status code of gRPC that says that some resource has been exhausted: the disperser takes
/// no more for now.
pub const RESOURCE_EXHAUSTED: i32 = 8;

/// Whether a refusal with this status code is a rate limit.
pub open spec fn spec_is_rate_limit(code: i32) -> bool {
    code == RESOURCE_EXHAUSTED
}

/// Whether a refusal with this status code is a rate limit.
pub fn is_rate_limit(code: i32) -> (rate_limit: bool)
    ensures
        rate_limit == spec_is_rate_limit(code),
{
    code == RESOURCE_EXHAUSTED
}

/// Asks the disperser to take a blob.
#[derive(Debug, PartialEq, Eq)]
pub struct DisperseBlobRequest {
    pub data: Vec<u8>,
}

/// Asks what has become of a blob.
#[derive(Debug, PartialEq, Eq)]
pub struct BlobStatusRequest {
    /// What the disperser answered when it took the blob.
    pub request_id: Vec<u8>,
}

/// How far a blob has come.
#[derive(Debug, Clone, Copy, PartialEq, Eq, Structural)]
pub enum BlobStatus {
    /// Nothing is known of it.
    Unknown,
    /// The disperser is at work on it.
    Processing,
    /// It has reached the storage nodes.
    Confirmed,
    /// It was lost.
    Failed,
    /// It is stored for good.
    Finalized,
    /// Too few nodes signed for it.
    InsufficientSignatures,
}

/// Where a stored blob is found.
#[derive(Debug, PartialEq, Eq)]
pub struct BlobHeader {
    pub storage_root: Vec<u8>,
    pub epoch: u64,
    pub quorum_id: u64,
}

/// What the disperser knows of a blob.
#[derive(Debug, PartialEq, Eq)]
pub struct BlobInfo {
    pub blob_header: Option<BlobHeader>,
}

/// The answer to a [`BlobStatusRequest`].
#[derive(Debug, PartialEq, Eq)]
pub struct BlobStatusReply {
    /// None for a status that has no name.
    pub status: Option<BlobStatus>,
    pub info: Option<BlobInfo>,
}

/// Asks for a stored blob.
#[derive(Debug, PartialEq, Eq)]
pub struct RetrieveBlobRequest {
    pub storage_root: Vec<u8>,
    pub epoch: u64,
    pub quorum_id: u64,
}

/// What a [`RetrieveBlobRequest`] names: the place of a stored blob.
pub struct BlobPlace {
    pub storage_root: Seq<u8>,
    pub epoch: u64,
    pub quorum_id: u64,
}

/// Why an operation failed.
#[derive(Debug, PartialEq, Eq)]
pub enum DAError {
    /// No connection to the disperser; with what the transport said.
    Connect(String),
    /// The disperser did not hand a blob out; with what it said.
    Retrieve(String),
    /// A status reply says nothing of the blob.
    NoBlobInfo,
    /// A status reply does not say where the blob is.
    NoBlobHeader,
}

impl DAError {
    /// What [`DAError::message`] says.
    pub open spec fn spec_message(self) -> Seq<char> {
        match self {
            DAError::Connect(text) => text@,
            DAError::Retrieve(text) => text@,
            DAError::NoBlobInfo => "None() for BlobInfo"@,
            DAError::NoBlobHeader => "None() for Verification Proof"@,
        }
    }

    /// The error in words.
    pub fn message(&self) -> (text: String)
        ensures
            text@ == self.spec_message(),
    {
        match self {
            DAError::Connect(text) => text.clone(),
            DAError::Retrieve(text) => text.clone(),
            DAError::NoBlobInfo => "None() for BlobInfo".to_owned(),
            DAError::NoBlobHeader => "None() for Verification Proof".to_owned(),
        }
    }
}

impl View for RetrieveBlobRequest {
    type V = BlobPlace;

    open spec fn view(&self) -> BlobPlace {
        BlobPlace {
            storage_root: self.storage_root@,
            epoch: self.epoch,
            quorum_id: self.quorum_id,
        }
    }
}

impl RetrieveBlobRequest {
    /// The same request once more.
    pub fn again(&self) -> (request: Self)
        ensures
            request@ == self@,
    {
        RetrieveBlobRequest {
            storage_root: self.storage_root.clone(),
            epoch: self.epoch,
            quorum_id: self.quorum_id,
        }
    }
}

impl BlobStatusReply {
    /// Whether the blob is stored for good.
    pub open spec fn spec_is_finalized(&self) -> bool {
        self.status == Some(BlobStatus::Finalized)
    }

    /// Whether the reply says where the blob is.
    pub open spec fn spec_has_header(&self) -> bool {
        self.info is Some && self.info->0.blob_header is Some
    }

    /// The root under which the blob is stored.
    pub open spec fn spec_storage_root(&self) -> Seq<u8>
        recommends
            self.spec_has_header(),
    {
        self.info->0.blob_header->0.storage_root@
    }

    /// The request for the blob of this reply, or why there can be none.
    pub open spec fn spec_retrieve_request(self) -> Result<RetrieveBlobRequest, DAError> {
        match self.info {
            None => Err(DAError::NoBlobInfo),
            Some(info) => match info.blob_header {
                None => Err(DAError::NoBlobHeader),
                Some(header) => Ok(
                    RetrieveBlobRequest {
                        storage_root: header.storage_root,
                        epoch: header.epoch,
                        quorum_id: header.quorum_id,
                    },
                ),
            },
        }
    }

    /// Whether the blob is stored for good.
    pub fn is_finalized(&self) -> (finalized: bool)
        ensures
            finalized == self.spec_is_finalized(),
    {
        match self.status {
            Some(BlobStatus::Finalized) => true,
            _ => false,
        }
    }

    /// Whether the reply says where the blob is.
    pub fn has_header(&self) -> (has: bool)
        ensures
            has == self.spec_has_header(),
    {
        match &self.info {
            Some(info) => info.blob_header.is_some(),
            None => false,
        }
    }

    /// The root under which the blob is stored, in hexadecimal digits.
    pub fn storage_root_hex(&self) -> (text: String)
        requires
            self.spec_has_header(),
            2 * self.spec_storage_root().len() <= isize::MAX,
        ensures
            text@ == hex_text(self.spec_storage_root()),
    {
        hex_encode(&self.info.as_ref().unwrap().blob_header.as_ref().unwrap().storage_root)
    }

    /// The request for the blob of this reply. A reply without a place gives an error that
    /// tells what it lacks.
    pub fn retrieve_request(self) -> (request: Result<RetrieveBlobRequest, DAError>)
        ensures
            request == self.spec_retrieve_request(),
    {
        match self.info {
            None => Err(DAError::NoBlobInfo),
            Some(info) => match info.blob_header {
                None => Err(DAError::NoBlobHeader),
                Some(header) => Ok(
                    RetrieveBlobRequest {
                        storage_root: header.storage_root,
                        epoch: header.epoch,
                        quorum_id: header.quorum_id,
                    },
                ),
            },
        }
    }
}

} // verus!
