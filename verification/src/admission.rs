//! Connection admission control and the server's shared state.
//!
//! At most `MAX_CONNECTIONS` transcription sessions run at once. A session
//! acquires the slot before upgrading its transport and holds an exclusive,
//! non-copyable guard until it releases the slot; rejection is surfaced as a
//! distinct condition. The live counter is a process-wide atomic at the I/O
//! edge; its count and the acquire/release transitions are modeled and
//! verified here.

use vstd::prelude::*;

verus! {

/// Highest number of sessions admitted at once.
pub const MAX_CONNECTIONS: usize = 1;

/// The transcription model a server instance loads.
#[derive(Clone, Copy, PartialEq, Eq, Structural, Debug)]
pub enum SupportedModel {
    /// The compact model.
    Tiny,
    /// The larger, slower model.
    Base,
}

/// Configuration gathered before the server starts.
pub struct ServerStateBuilder {
    /// The model to load, once chosen.
    pub model_type: Option<SupportedModel>,
    /// Directory the model files are cached under, once chosen.
    pub model_cache_dir: Option<String>,
}

impl Default for ServerStateBuilder {
    /// An empty builder with nothing chosen yet.
    fn default() -> (r: Self)
        ensures
            r.model_type is None,
            r.model_cache_dir is None,
    {
        ServerStateBuilder { model_type: None, model_cache_dir: None }
    }
}

impl ServerStateBuilder {
    /// Choose the model cache directory.
    pub fn model_cache_dir(self, model_cache_dir: String) -> (r: Self)
        ensures
            r.model_cache_dir matches Some(d) && d == model_cache_dir,
            r.model_type == self.model_type,
    {
        ServerStateBuilder { model_type: self.model_type, model_cache_dir: Some(model_cache_dir) }
    }

    /// Choose the model.
    pub fn model_type(self, model_type: SupportedModel) -> (r: Self)
        ensures
            r.model_type == Some(model_type),
            r.model_cache_dir == self.model_cache_dir,
    {
        ServerStateBuilder { model_type: Some(model_type), model_cache_dir: self.model_cache_dir }
    }

    /// Finish the configuration: both choices must have been made. The
    /// resulting state starts with no live connection.
    pub fn build(self) -> (r: ServerState)
        requires
            self.model_type is Some,
            self.model_cache_dir is Some,
        ensures
            Some(r.model_type) == self.model_type,
            Some(r.model_cache_dir) == self.model_cache_dir,
            r.num_connections == 0,
    {
        let (model_type, model_cache_dir) = match (self.model_type, self.model_cache_dir) {
            (Some(t), Some(d)) => (t, d),
            _ => {
                unreached()
            },
        };
        ServerState { model_type, model_cache_dir, num_connections: 0 }
    }
}

/// Exclusive evidence that its holder owns the admission slot. It cannot be
/// copied; it is surrendered when the slot is released.
pub struct ConnectionGuard {
    held: bool,
}

/// The server's shared state: the chosen model, its cache directory, and the
/// count of live connections.
pub struct ServerState {
    /// The transcription model every session loads.
    pub model_type: SupportedModel,
    /// Directory the model files are cached under.
    pub model_cache_dir: String,
    /// How many sessions currently hold the admission slot.
    pub num_connections: usize,
}

/// The admission transition: the count and whether the attempt succeeds.
/// Acquisition is a compare-and-set from below-capacity; at capacity it
/// leaves the count unchanged and fails.
pub open spec fn spec_try_acquire(count: int) -> (int, bool) {
    if count < MAX_CONNECTIONS {
        (count + 1, true)
    } else {
        (count, false)
    }
}

/// The release transition: the holder gives the slot back.
pub open spec fn spec_release(count: int) -> int {
    count - 1
}

/// The count never exceeds capacity.
pub open spec fn connections_within_capacity(s: ServerState) -> bool {
    s.num_connections <= MAX_CONNECTIONS
}

impl ServerState {
    /// Attempt to admit a session: succeeds with an exclusive guard exactly
    /// when the count is below capacity, incrementing it; otherwise the
    /// count is untouched and the attempt is rejected.
    pub fn try_acquire_connection(&mut self) -> (r: Option<ConnectionGuard>)
        ensures
            (final(self).num_connections as int, r is Some) == spec_try_acquire(
                old(self).num_connections as int,
            ),
            final(self).model_type == old(self).model_type,
            final(self).model_cache_dir == old(self).model_cache_dir,
            connections_within_capacity(*old(self)) ==> connections_within_capacity(*final(self)),
    {
        if self.num_connections < MAX_CONNECTIONS {
            self.num_connections = self.num_connections + 1;
            Some(ConnectionGuard { held: true })
        } else {
            None
        }
    }

    /// Release the admission slot, surrendering the guard; exactly one
    /// release happens per successful acquisition, on every exit path of the
    /// session that holds it.
    pub fn release_connection(&mut self, guard: ConnectionGuard)
        requires
            old(self).num_connections > 0,
        ensures
            final(self).num_connections as int == spec_release(
                old(self).num_connections as int,
            ),
            final(self).model_type == old(self).model_type,
            final(self).model_cache_dir == old(self).model_cache_dir,
            connections_within_capacity(*old(self)) ==> connections_within_capacity(*final(self)),
    {
        let ConnectionGuard { held: _ } = guard;
        self.num_connections = self.num_connections - 1;
    }
}

/// Admission is exclusive at capacity one: with the slot free, of two
/// acquisition attempts exactly the first succeeds and the second is
/// rejected; after the holder releases, a further attempt succeeds again.
/// The count stays within capacity and never goes negative throughout.
pub proof fn lemma_admission_exclusive()
    ensures
        ({
            let (c1, ok1) = spec_try_acquire(0);
            let (c2, ok2) = spec_try_acquire(c1);
            let c3 = spec_release(c2);
            let (c4, ok4) = spec_try_acquire(c3);
            ok1 && !ok2 && ok4 && c1 == 1 && c2 == 1 && c3 == 0 && c4 == 1
        }),
{
}

/// However the race between two concurrent attempts is ordered, at most one
/// of the two linearized acquisitions succeeds when capacity is one.
pub proof fn lemma_at_most_one_winner(count: int)
    requires
        count >= 0,
    ensures
        !(spec_try_acquire(count).1 && spec_try_acquire(spec_try_acquire(count).0).1),
{
}

} // verus!
