//! The sleep-inhibition slot: at most one platform handle, acquired and
//! released idempotently.

use vstd::prelude::*;
use vstd::string::StringExecFns;

verus! {

#[verifier::external_type_specification]
#[verifier::external_body]
pub struct ExKeepAwake(keepawake::KeepAwake);

/// Relies on `keepawake::Builder`: configured with `display`, `idle` and
/// `sleep` all set, `create` acquires a platform handle that inhibits
/// display sleep, idle sleep and system sleep at once until it is dropped.
/// Whether acquisition succeeds depends on the operating system, so nothing
/// is promised of the outcome; a failure is rendered into the message.
#[verifier::external_body]
fn acquire_keep_awake(reason: &str, app_name: &str) -> (r: Result<keepawake::KeepAwake, String>) {
    keepawake::Builder::default()
        .display(true)
        .idle(true)
        .sleep(true)
        .reason(reason)
        .app_name(app_name)
        .create()
        .map_err(|e| format!("{:?}", e))
}

/// The process-wide slot for the sleep-inhibition handle. It holds zero or
/// one handles, never more.
pub struct SleepInhibitor {
    handle: Option<keepawake::KeepAwake>,
}

/// The held state after a prevent call: a handle already held stays, else
/// one is held exactly where acquisition succeeded.
pub open spec fn held_after_prevent(before: bool, acquired: bool) -> bool {
    before || acquired
}

/// The held state after an allow call: none, whatever was held before.
pub open spec fn held_after_allow(before: bool) -> bool {
    false
}

impl SleepInhibitor {
    /// Whether a handle is currently held.
    pub closed spec fn held(&self) -> bool {
        self.handle is Some
    }

    /// An inhibitor holding no handle.
    pub fn new() -> (r: Self)
        ensures
            !r.held(),
    {
        SleepInhibitor { handle: None }
    }

    /// Reports whether a handle is currently held.
    pub fn is_active(&self) -> (r: bool)
        ensures
            r == self.held(),
    {
        self.handle.is_some()
    }

    /// Ensures a handle is held: a no-op when one already is, else acquires
    /// one; on failure the slot is left unchanged and the error says why.
    pub fn prevent_sleep(&mut self, reason: &str, app_name: &str) -> (r: Result<(), String>)
        ensures
            final(self).held() == held_after_prevent(old(self).held(), r is Ok),
            old(self).held() ==> r is Ok && *final(self) == *old(self),
            r is Err ==> *final(self) == *old(self),
            r matches Err(m) ==> exists|detail: Seq<char>|
                m@ == "Could not prevent sleep: "@ + detail,
    {
        if self.handle.is_some() {
            return Ok(());
        }
        match acquire_keep_awake(reason, app_name) {
            Ok(ka) => {
                self.handle = Some(ka);
                Ok(())
            },
            Err(e) => {
                let mut msg = String::from_str("Could not prevent sleep: ");
                msg.append(e.as_str());
                Err(msg)
            },
        }
    }

    /// Releases any held handle; the slot is empty afterwards in every
    /// case.
    pub fn allow_sleep(&mut self)
        ensures
            final(self).held() == held_after_allow(old(self).held()),
            !final(self).held(),
    {
        self.handle = None;
    }
}

/// Law: the two commands are idempotent. After a prevent that acquired a
/// handle, a second prevent leaves exactly one handle held, whatever it
/// does; after an allow, a second allow still leaves none.
pub proof fn lemma_sleep_idempotent(before: bool, second_acquired: bool)
    ensures
        held_after_prevent(held_after_prevent(before, true), second_acquired),
        !held_after_allow(held_after_allow(before)),
{
}

} // verus!
