use vstd::prelude::*;

verus! {

/// One stored entry: a caller-supplied payload together with the time it was
/// recorded and a stable identifier.
///
/// The timestamp is informational metadata: it is captured once at
/// construction, never mutated, and the container never orders by it. The
/// identifier is the key under which the entry can be looked up; it is either
/// supplied by the caller or drawn from a random source, and collisions are
/// neither detected nor handled.
#[derive(Debug, Clone)]
pub struct Message<M> {
    /// The payload itself; opaque to the container.
    pub message: M,
    /// Milliseconds since the Unix epoch, captured when the entry was made.
    pub timestamp: i64,
    /// Stable identifier of this entry.
    pub id: u64,
}

/// Relies on `chrono::Utc::now` and `chrono::DateTime::timestamp_millis` for
/// the current wall-clock time in milliseconds since the Unix epoch. The value
/// depends on the clock, so nothing is promised of it. `Utc::now` aborts on a
/// system whose clock stands before the epoch.
#[verifier::external_body]
fn now_millis() -> i64 {
    chrono::Utc::now().timestamp_millis()
}

/// Relies on `rand::random::<u64>` for a fresh identifier that is unique with
/// overwhelming probability. The value depends on the random source, so
/// nothing is promised of it.
#[verifier::external_body]
fn random_id() -> u64 {
    rand::random()
}

/// Two entries are equal exactly when their payloads are: the timestamp and
/// the identifier are container bookkeeping, never part of value identity.
impl<M: PartialEq + vstd::std_specs::cmp::PartialEqSpec> PartialEq for Message<M> {
    fn eq(&self, other: &Self) -> (r: bool) {
        self.message == other.message
    }
}

impl<M: PartialEq + vstd::std_specs::cmp::PartialEqSpec> vstd::std_specs::cmp::PartialEqSpecImpl for Message<M> {
    open spec fn obeys_eq_spec() -> bool {
        M::obeys_eq_spec()
    }

    open spec fn eq_spec(&self, other: &Message<M>) -> bool {
        self.message.eq_spec(&other.message)
    }
}

impl<M: Eq + vstd::std_specs::cmp::PartialEqSpec> Eq for Message<M> {

}

impl<M> Message<M> {
    /// The same entry with its payload replaced: timestamp and identifier are
    /// kept.
    pub open spec fn with_message(self, p: M) -> Message<M> {
        Message { message: p, ..self }
    }

    /// Wraps a payload, stamping it with the current time and with the given
    /// identifier, or with a freshly generated one when none is given.
    pub fn new(message: M, id: Option<u64>) -> (m: Message<M>)
        ensures
            m.message == message,
            id is Some ==> m.id == id->0,
    {
        let resolved: u64 = match id {
            Some(v) => v,
            None => random_id(),
        };
        Message { message, timestamp: now_millis(), id: resolved }
    }
}

} // verus!
