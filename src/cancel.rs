//! Per-operation cancellation flags, addressed by the operation's handle.
use vstd::prelude::*;

use std::collections::HashMap;

verus! {

broadcast use vstd::std_specs::hash::group_hash_axioms;

/// The cancellation flag of one operation: set once, read many times.
#[derive(Clone, Copy, PartialEq, Eq, Structural, Debug)]
pub struct DownloadState {
    pub abort: bool,
}

/// The flags of the live operations, and the next handle to give out.
pub struct RegistryModel {
    pub flags: Map<u64, bool>,
    pub next: nat,
}

/// The registry of running operations. Handles are never reused, so a handle
/// kept after its operation ended addresses nothing.
pub struct CancelRegistry {
    flags: HashMap<u64, DownloadState>,
    next: u64,
}

/// Every live handle was given out before `next`.
pub open spec fn registry_wf(m: RegistryModel) -> bool {
    forall|h: u64| #[trigger] m.flags.contains_key(h) ==> (h as nat) < m.next
}

/// A new operation takes handle `next`, with its flag clear.
pub open spec fn register_model(m: RegistryModel) -> RegistryModel {
    RegistryModel { flags: m.flags.insert(m.next as u64, false), next: m.next + 1 }
}

/// Signalling sets the flag of a live operation and changes nothing else.
pub open spec fn signal_model(m: RegistryModel, h: u64) -> RegistryModel {
    if m.flags.contains_key(h) {
        RegistryModel { flags: m.flags.insert(h, true), next: m.next }
    } else {
        m
    }
}

/// Releasing forgets an operation.
pub open spec fn release_model(m: RegistryModel, h: u64) -> RegistryModel {
    RegistryModel { flags: m.flags.remove(h), next: m.next }
}

/// Whether the operation of handle `h` is live and signalled.
pub open spec fn cancelled_in(m: RegistryModel, h: u64) -> bool {
    m.flags.contains_key(h) && m.flags[h]
}

impl View for CancelRegistry {
    type V = RegistryModel;

    closed spec fn view(&self) -> RegistryModel {
        RegistryModel {
            flags: self.flags@.map_values(|s: DownloadState| s.abort),
            next: self.next as nat,
        }
    }
}

impl CancelRegistry {
    /// An empty registry.
    pub fn new() -> (r: CancelRegistry)
        ensures
            r@.flags.is_empty(),
            r@.next == 0,
            registry_wf(r@),
    {
        let r = CancelRegistry { flags: HashMap::new(), next: 0 };
        assert(r@.flags =~= Map::<u64, bool>::empty());
        r
    }

    /// Adds an operation and returns its handle; none once every handle has
    /// been given out.
    pub fn register(&mut self) -> (h: Option<u64>)
        requires
            registry_wf(old(self)@),
        ensures
            registry_wf(final(self)@),
            old(self)@.next < u64::MAX ==> h == Some(old(self)@.next as u64) && final(self)@
                == register_model(old(self)@),
            old(self)@.next >= u64::MAX ==> h is None && final(self)@ == old(self)@,
    {
        if self.next == u64::MAX {
            return None;
        }
        let h = self.next;
        self.flags.insert(h, DownloadState { abort: false });
        self.next = h + 1;
        assert(self@.flags =~= old(self)@.flags.insert(h, false));
        Some(h)
    }

    /// Asks the operation of handle `h` to stop; returns whether it is live.
    pub fn signal(&mut self, h: u64) -> (live: bool)
        requires
            registry_wf(old(self)@),
        ensures
            registry_wf(final(self)@),
            live == old(self)@.flags.contains_key(h),
            final(self)@ == signal_model(old(self)@, h),
    {
        if self.flags.contains_key(&h) {
            self.flags.insert(h, DownloadState { abort: true });
            assert(self@.flags =~= old(self)@.flags.insert(h, true));
            assert(old(self)@.flags.contains_key(h));
            true
        } else {
            false
        }
    }

    /// Whether the operation of handle `h` was asked to stop; false for a
    /// handle that is not live.
    pub fn is_cancelled(&self, h: u64) -> (r: bool)
        ensures
            r == cancelled_in(self@, h),
    {
        match self.flags.get(&h) {
            Some(state) => state.abort,
            None => false,
        }
    }

    /// Forgets the operation of handle `h`, whatever its outcome.
    pub fn release(&mut self, h: u64)
        requires
            registry_wf(old(self)@),
        ensures
            registry_wf(final(self)@),
            final(self)@ == release_model(old(self)@, h),
    {
        self.flags.remove(&h);
        assert(self@.flags =~= old(self)@.flags.remove(h));
    }
}

/// Signalling twice leaves the registry as signalling once does.
pub proof fn lemma_signal_idempotent(m: RegistryModel, h: u64)
    ensures
        signal_model(signal_model(m, h), h) == signal_model(m, h),
{
    if m.flags.contains_key(h) {
        assert(m.flags.insert(h, true).insert(h, true) =~= m.flags.insert(h, true));
    }
}

/// Signalling one operation leaves every other operation's flag as it was.
pub proof fn lemma_signal_isolated(m: RegistryModel, h: u64, other: u64)
    requires
        other != h,
    ensures
        cancelled_in(signal_model(m, h), other) == cancelled_in(m, other),
{
}

/// A handle kept after its operation was released does nothing: signalling it
/// changes no flag, and the next operation gets another handle, not
/// cancelled.
pub proof fn lemma_stale_handle_harmless(m: RegistryModel, stale: u64)
    requires
        registry_wf(m),
        (stale as nat) < m.next,
        m.next < u64::MAX,
    ensures
        signal_model(release_model(m, stale), stale) == release_model(m, stale),
        (register_model(release_model(m, stale)).next - 1) as u64 != stale,
        !cancelled_in(register_model(release_model(m, stale)), m.next as u64),
{
}

} // verus!
