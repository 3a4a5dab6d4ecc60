//! What a client counts, for Prometheus to show.

use vstd::prelude::*;

verus! {

/// A character that may start a name in Prometheus: an ASCII letter, `_` or `:`.
pub open spec fn is_name_start(c: char) -> bool {
    ('a' <= c && c <= 'z') || ('A' <= c && c <= 'Z') || c == '_' || c == ':'
}

/// A name that Prometheus takes for a counter: it starts with a letter, `_` or `:`, and goes
/// on with those and digits.
pub open spec fn is_metric_name(name: Seq<char>) -> bool {
    &&& name.len() > 0
    &&& is_name_start(name[0])
    &&& forall|i: int|
        #![trigger name[i]]
        0 <= i < name.len() ==> is_name_start(name[i]) || ('0' <= name[i] && name[i] <= '9')
}

/// A count that only goes up, with the name and the help text under which it is shown.
#[derive(Debug, Clone, Copy)]
pub struct Counter {
    pub name: &'static str,
    pub help: &'static str,
    pub value: u64,
}

impl Counter {
    /// Whether this is the counter `name`, described by `help`, with nothing counted yet.
    pub open spec fn is_zero(self, name: Seq<char>, help: Seq<char>) -> bool {
        &&& self.name@ == name
        &&& self.help@ == help
        &&& self.value == 0
    }

    /// The counter after `amount` more. It starts again from zero past the largest `u64`.
    pub open spec fn plus(self, amount: u64) -> Self {
        Counter { value: self.value.wrapping_add(amount), ..self }
    }

    /// Counts one more.
    pub fn inc(&mut self)
        ensures
            *final(self) == old(self).plus(1),
    {
        self.value = self.value.wrapping_add(1);
    }

    /// Counts `amount` more.
    pub fn inc_by(&mut self, amount: u64)
        ensures
            *final(self) == old(self).plus(amount),
    {
        self.value = self.value.wrapping_add(amount);
    }
}

/// A counter with nothing counted yet. Prometheus asks for a name that it allows, and for a help
/// text that says something.
pub fn int_counter(name: &'static str, help: &'static str) -> (counter: Counter)
    requires
        is_metric_name(name@),
        help@.len() > 0,
    ensures
        counter.is_zero(name@, help@),
{
    Counter { name, help, value: 0 }
}

/// The counters of one client.
#[derive(Debug, Clone, Copy)]
pub struct DAMetrics {
    /// Bytes of the blobs that the disperser accepted.
    pub dispersed_bytes: Counter,
    /// Times that the disperser refused a blob because of a rate limit.
    pub dispersal_rate_limited: Counter,
    /// Bytes of the blobs that were finalized.
    pub confirmed_bytes: Counter,
    /// Answers to polls for a blob's status.
    pub poll_confirmation_count: Counter,
}

impl DAMetrics {
    /// Whether these are the counters of a client that has done nothing yet.
    pub open spec fn is_zero(self) -> bool {
        &&& self.dispersed_bytes.is_zero(
            "da_dispersed_bytes"@,
            "Number of bytes dispersed by the DA layer"@,
        )
        &&& self.dispersal_rate_limited.is_zero(
            "da_dispersal_rate_limited"@,
            "Times the dispersal was rate limited"@,
        )
        &&& self.confirmed_bytes.is_zero(
            "da_confirmed_bytes"@,
            "Number of bytes confirmed by the DA layer"@,
        )
        &&& self.poll_confirmation_count.is_zero(
            "da_poll_confirmation_count"@,
            "Number of times we polled the DA for confirmation"@,
        )
    }

    /// The counters of a client that has done nothing yet.
    pub fn new() -> (metrics: Self)
        ensures
            metrics.is_zero(),
    {
        proof {
            lemma_counter_texts();
        }
        DAMetrics {
            dispersed_bytes: int_counter(
                "da_dispersed_bytes",
                "Number of bytes dispersed by the DA layer",
            ),
            dispersal_rate_limited: int_counter(
                "da_dispersal_rate_limited",
                "Times the dispersal was rate limited",
            ),
            confirmed_bytes: int_counter(
                "da_confirmed_bytes",
                "Number of bytes confirmed by the DA layer",
            ),
            poll_confirmation_count: int_counter(
                "da_poll_confirmation_count",
                "Number of times we polled the DA for confirmation",
            ),
        }
    }
}

/// The names and help texts of the counters are such as Prometheus allows, and the names differ.
proof fn lemma_counter_texts()
    ensures
        is_metric_name("da_dispersed_bytes"@),
        is_metric_name("da_dispersal_rate_limited"@),
        is_metric_name("da_confirmed_bytes"@),
        is_metric_name("da_poll_confirmation_count"@),
        "Number of bytes dispersed by the DA layer"@.len() > 0,
        "Times the dispersal was rate limited"@.len() > 0,
        "Number of bytes confirmed by the DA layer"@.len() > 0,
        "Number of times we polled the DA for confirmation"@.len() > 0,
        "da_dispersed_bytes"@ != "da_dispersal_rate_limited"@,
        "da_dispersed_bytes"@ != "da_confirmed_bytes"@,
        "da_dispersed_bytes"@ != "da_poll_confirmation_count"@,
        "da_dispersal_rate_limited"@ != "da_confirmed_bytes"@,
        "da_dispersal_rate_limited"@ != "da_poll_confirmation_count"@,
        "da_confirmed_bytes"@ != "da_poll_confirmation_count"@,
{
    reveal_strlit("da_dispersed_bytes");
    reveal_strlit("Number of bytes dispersed by the DA layer");
    reveal_strlit("da_dispersal_rate_limited");
    reveal_strlit("Times the dispersal was rate limited");
    reveal_strlit("da_confirmed_bytes");
    reveal_strlit("Number of bytes confirmed by the DA layer");
    reveal_strlit("da_poll_confirmation_count");
    reveal_strlit("Number of times we polled the DA for confirmation");
    assert("da_dispersed_bytes"@[3] == 'd');
    assert("da_confirmed_bytes"@[3] == 'c');
}

/// Prometheus takes each counter of a new client: every name is one that it allows, every help
/// text says something, and no two names are the same.
pub proof fn law_counters_can_be_registered(metrics: DAMetrics)
    requires
        metrics.is_zero(),
    ensures
        is_metric_name(metrics.dispersed_bytes.name@),
        is_metric_name(metrics.dispersal_rate_limited.name@),
        is_metric_name(metrics.confirmed_bytes.name@),
        is_metric_name(metrics.poll_confirmation_count.name@),
        metrics.dispersed_bytes.help@.len() > 0,
        metrics.dispersal_rate_limited.help@.len() > 0,
        metrics.confirmed_bytes.help@.len() > 0,
        metrics.poll_confirmation_count.help@.len() > 0,
        metrics.dispersed_bytes.name@ != metrics.dispersal_rate_limited.name@,
        metrics.dispersed_bytes.name@ != metrics.confirmed_bytes.name@,
        metrics.dispersed_bytes.name@ != metrics.poll_confirmation_count.name@,
        metrics.dispersal_rate_limited.name@ != metrics.confirmed_bytes.name@,
        metrics.dispersal_rate_limited.name@ != metrics.poll_confirmation_count.name@,
        metrics.confirmed_bytes.name@ != metrics.poll_confirmation_count.name@,
{
    lemma_counter_texts();
}

} // verus!
