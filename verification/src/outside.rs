//! What this library believes of the crates that it calls.

use governor::Quota;
use rand::Rng;
use vstd::prelude::*;

verus! {

/// The lower-case hexadecimal digit of a number below sixteen.
pub open spec fn hex_digit(n: u8) -> char {
    if n < 10 {
        (('0' as u8) + n) as char
    } else {
        (('a' as u8) + (n - 10)) as char
    }
}

/// The text that writes each byte as two lower-case hexadecimal digits, the high one first.
pub open spec fn hex_text(bytes: Seq<u8>) -> Seq<char> {
    Seq::new(
        2 * bytes.len(),
        |i: int|
            if i % 2 == 0 {
                hex_digit(bytes[i / 2] / 16)
            } else {
                hex_digit(bytes[i / 2] % 16)
            },
    )
}

/// `hex::encode`: each byte becomes two lower-case hexadecimal digits, the high one first. The
/// text has to fit into a `String`.
#[verifier::external_body]
pub(crate) fn hex_encode(bytes: &Vec<u8>) -> (text: String)
    requires
        2 * bytes@.len() <= isize::MAX,
    ensures
        text@ == hex_text(bytes@),
{
    hex::encode(bytes)
}

/// `governor::Quota::per_second`: the quota lets `max_burst` cells through at once, and gives
/// one back each time the `max_burst`-th part of a second has passed, in whole nanoseconds.
/// The pair is its burst size and that interval. A quota of no cells cannot be asked for.
#[verifier::external_body]
pub(crate) fn quota_per_second(max_burst: u32) -> (quota: (u32, u64))
    requires
        max_burst > 0,
    ensures
        quota.0 == max_burst,
        quota.1 == 1_000_000_000u64 / (max_burst as u64),
{
    let quota = Quota::per_second(std::num::NonZeroU32::new(max_burst).unwrap());
    (quota.burst_size().get(), quota.replenish_interval().as_nanos() as u64)
}

/// `rand::Rng::gen`, on the generator of the thread: any byte may come, so nothing is stated
/// of it.
#[verifier::external_body]
pub(crate) fn random_byte() -> (byte: u8) {
    rand::thread_rng().gen()
}

} // verus!
