//! The client.

use crate::blob::{blobs, split};
use crate::config::ZGDAConfig;
use crate::confirm::Storage;
use crate::disperse::Dispersal;
use crate::disperser::{BlobStatusReply, DAError, RetrieveBlobRequest};
use crate::gather::gathers;
use crate::metrics::DAMetrics;
use crate::outside::quota_per_second;
use crate::retrieve::{requests_for, Retrieval};
use vstd::prelude::*;

verus! {

/// A client of a data availability service.
///
/// Each operation comes back as the work that it takes, blob by blob, with nothing done yet.
/// Whoever carries the work out tells the client what happened, and is told what to do next.
pub trait DAClient {
    /// The most bytes that the client puts into one request.
    spec fn blob_limit(&self) -> nat;

    /// Disperses a block of data.
    fn disperse_blob<'a>(&self, data: &'a [u8]) -> (dispersal: Dispersal<'a>)
        requires
            self.blob_limit() > 0,
        ensures
            dispersal.is_fresh(blobs(data@, self.blob_limit())),
    ;

    /// Disperses a block of data, and waits until it is stored for good.
    fn store_blob<'a>(&self, data: &'a [u8]) -> (storage: Storage<'a>)
        requires
            self.blob_limit() > 0,
        ensures
            storage.dispersal.is_fresh(blobs(data@, self.blob_limit())),
    ;

    /// Gets a block of data back, by the replies that came when it was stored. It fails where a
    /// reply does not say where its blob is, and tells what the first of those lacks.
    fn retrieve_blob(&self, blob_status: Vec<BlobStatusReply>) -> (retrieval: Result<
        Retrieval,
        DAError,
    >)
        ensures
            match retrieval {
                Ok(retrieval) => exists|requests: Seq<RetrieveBlobRequest>| #[trigger]
                    gathers(requests_for(blob_status@), Ok(requests)) && retrieval.is_fresh(
                        requests,
                    ),
                Err(error) => gathers(
                    requests_for(blob_status@),
                    Err::<Seq<RetrieveBlobRequest>, DAError>(error),
                ),
            },
    ;
}

/// How fast requests may go out.
#[derive(Debug, Clone, Copy, PartialEq, Eq, Structural)]
pub struct RateQuota {
    /// Requests that may go out at once.
    pub max_burst: u32,
    /// Nanoseconds until one more may go out.
    pub replenish_nanos: u64,
}

/// A client of the ZeroGravity DA layer.
#[derive(Debug)]
pub struct ZGDA {
    pub config: ZGDAConfig,
    pub metrics: DAMetrics,
    /// How fast blobs may go out.
    pub disperser_rate: RateQuota,
    /// How many blobs may be under way.
    pub disperser_permits: usize,
}

impl ZGDA {
    /// Whether the limits are those that the settings ask for.
    pub open spec fn is_valid(&self) -> bool {
        &&& self.config.rps > 0
        &&& self.disperser_rate.max_burst == self.config.rps
        &&& self.disperser_rate.replenish_nanos == 1_000_000_000u64 / (self.config.rps as u64)
        &&& self.disperser_permits == self.config.max_out_standing
    }

    /// A client that has done nothing yet.
    pub fn new(config: ZGDAConfig) -> (da: Self)
        requires
            config.rps > 0,
        ensures
            da.is_valid(),
            da.config == config,
            da.metrics.is_zero(),
    {
        let (max_burst, replenish_nanos) = quota_per_second(config.rps as u32);
        let disperser_permits: usize = config.max_out_standing as usize;
        ZGDA {
            config,
            metrics: DAMetrics::new(),
            disperser_rate: RateQuota { max_burst, replenish_nanos },
            disperser_permits,
        }
    }
}

impl DAClient for ZGDA {
    open spec fn blob_limit(&self) -> nat {
        self.config.blob_size as nat
    }

    fn disperse_blob<'a>(&self, data: &'a [u8]) -> (dispersal: Dispersal<'a>) {
        Dispersal::new(split(data, self.config.blob_size))
    }

    fn store_blob<'a>(&self, data: &'a [u8]) -> (storage: Storage<'a>) {
        Storage { dispersal: self.disperse_blob(data) }
    }

    fn retrieve_blob(&self, blob_status: Vec<BlobStatusReply>) -> (retrieval: Result<
        Retrieval,
        DAError,
    >) {
        Retrieval::new(blob_status)
    }
}

/// A client that may send `rps` requests per second gets back exactly that many in a second:
/// the next one would come only after it.
pub proof fn law_requests_per_second(da: ZGDA)
    requires
        da.is_valid(),
    ensures
        da.disperser_rate.max_burst == da.config.rps,
        da.config.rps * da.disperser_rate.replenish_nanos <= 1_000_000_000,
        (da.config.rps + 1) * da.disperser_rate.replenish_nanos > 1_000_000_000,
{
    let rps = da.config.rps as int;
    let nanos = da.disperser_rate.replenish_nanos as int;
    vstd::arithmetic::div_mod::lemma_fundamental_div_mod(1_000_000_000, rps);
    assert(nanos > 255) by (nonlinear_arith)
        requires
            nanos == 1_000_000_000int / rps,
            0 < rps <= 255,
    ;
    assert((rps + 1) * nanos == rps * nanos + nanos) by (nonlinear_arith);
}

} // verus!
