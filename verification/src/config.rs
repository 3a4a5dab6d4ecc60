//! How a client is set up.

use vstd::prelude::*;

verus! {

/// Where the disperser listens unless told otherwise.
pub const DEFAULT_URL: &'static str = "http://0.0.0.0:51001";

/// Milliseconds between two polls for a blob's status, when the command line sets none.
pub const CLI_STATUS_RETRY_DELAY_MS: u32 = 1000;

/// Milliseconds before a refused blob is sent again, when the command line sets none.
pub const CLI_DISPERSER_RETRY_DELAY_MS: u32 = 2000;

/// Bytes in one block of test data, when the command line sets none: 3 MiB.
pub const CLI_BLOCK_SIZE: usize = 3_145_728;

/// Most bytes in one request, when the command line sets none: 512 KiB.
pub const CLI_BLOB_SIZE: usize = 524_288;

/// Requests issued per second, when nothing else is set.
pub const DEFAULT_RPS: u8 = 6;

/// Requests under way at one time, when nothing else is set.
pub const DEFAULT_MAX_OUT_STANDING: u8 = 6;

/// The settings of a ZeroGravity DA client.
#[derive(Debug, Clone)]
pub struct ZGDAConfig {
    /// The disperser's address.
    pub url: String,
    /// Milliseconds between two polls for a blob's status.
    pub status_retry_delay_ms: u32,
    /// Milliseconds before a refused blob is sent again.
    pub disperser_retry_delay_ms: u32,
    /// Bytes in one block of test data.
    pub block_size: usize,
    /// Most bytes in one request.
    pub blob_size: usize,
    /// Requests issued per second.
    pub rps: u8,
    /// Requests under way at one time.
    pub max_out_standing: u8,
}

impl Default for ZGDAConfig {
    fn default() -> (config: Self)
        ensures
            config.url@ == DEFAULT_URL@,
            config.disperser_retry_delay_ms == 1000,
            config.status_retry_delay_ms == 2000,
            config.block_size == 12_582_912,
            config.blob_size == 256,
            config.rps == DEFAULT_RPS,
            config.max_out_standing == DEFAULT_MAX_OUT_STANDING,
    {
        ZGDAConfig {
            url: DEFAULT_URL.to_owned(),
            disperser_retry_delay_ms: 1000,
            status_retry_delay_ms: 2000,
            block_size: 12_582_912,
            blob_size: 256,
            rps: DEFAULT_RPS,
            max_out_standing: DEFAULT_MAX_OUT_STANDING,
        }
    }
}

impl ZGDAConfig {
    /// The settings of a command line that names none of them.
    pub fn command_line() -> (config: Self)
        ensures
            config.url@ == DEFAULT_URL@,
            config.disperser_retry_delay_ms == CLI_DISPERSER_RETRY_DELAY_MS,
            config.status_retry_delay_ms == CLI_STATUS_RETRY_DELAY_MS,
            config.block_size == CLI_BLOCK_SIZE,
            config.blob_size == CLI_BLOB_SIZE,
            config.rps == DEFAULT_RPS,
            config.max_out_standing == DEFAULT_MAX_OUT_STANDING,
    {
        ZGDAConfig {
            url: DEFAULT_URL.to_owned(),
            disperser_retry_delay_ms: CLI_DISPERSER_RETRY_DELAY_MS,
            status_retry_delay_ms: CLI_STATUS_RETRY_DELAY_MS,
            block_size: CLI_BLOCK_SIZE,
            blob_size: CLI_BLOB_SIZE,
            rps: DEFAULT_RPS,
            max_out_standing: DEFAULT_MAX_OUT_STANDING,
        }
    }
}

} // verus!
