//! Keep-alive lifecycle manager.
//!
//! Owns at most one platform sleep-inhibition handle and exposes the
//! idempotent enable/disable operations of the command surface. The manager
//! is a two-state machine: Inactive (no handle held) and Active (one handle
//! held). Acquiring the handle is a platform call that may fail; every other
//! step is verified.

use vstd::prelude::*;

verus! {

use vstd::string::StringExecFns;

/// How an enable request resolves, before any message formatting.
pub enum EnableOutcome {
    /// A handle was already held; nothing new is acquired.
    AlreadyActive,
    /// No handle was held and a freshly granted one is now installed.
    Enabled,
    /// No handle was held and the platform refused to grant one.
    Failed,
}

/// How a disable request resolves.
pub enum DisableOutcome {
    /// A handle was held and has been released.
    Disabled,
    /// No handle was held; there is nothing to release.
    NotActive,
}

/// Whether the manager holds a handle after an enable request, given whether
/// it held one before and whether the platform granted a new one.
pub open spec fn spec_enable_state(active: bool, granted: bool) -> bool {
    active || granted
}

/// How an enable request resolves, given whether a handle was held before and
/// whether the platform granted a new one. The grant is consulted only when
/// no handle was held.
pub open spec fn spec_enable_outcome(active: bool, granted: bool) -> EnableOutcome {
    if active {
        EnableOutcome::AlreadyActive
    } else if granted {
        EnableOutcome::Enabled
    } else {
        EnableOutcome::Failed
    }
}

/// Whether the manager holds a handle after a disable request: never, from
/// any prior state.
pub open spec fn spec_disable_state(active: bool) -> bool {
    false
}

/// How a disable request resolves, given whether a handle was held before.
pub open spec fn spec_disable_outcome(active: bool) -> DisableOutcome {
    if active {
        DisableOutcome::Disabled
    } else {
        DisableOutcome::NotActive
    }
}

/// Reply when enable finds a handle already held.
pub open spec fn already_active_message() -> Seq<char> {
    "Keep-Alive already active"@
}

/// Reply when enable installs a freshly granted handle.
pub open spec fn enabled_message() -> Seq<char> {
    "Keep-Alive enabled"@
}

/// Reply when disable finds no handle held.
pub open spec fn not_active_message() -> Seq<char> {
    "Keep-Alive not active"@
}

/// Reply when disable releases the held handle.
pub open spec fn disabled_message() -> Seq<char> {
    "Keep-Alive disabled"@
}

/// Error reply when the platform refuses to grant a handle, wrapping the
/// platform's own description.
pub open spec fn enable_failure_message(cause: Seq<char>) -> Seq<char> {
    "Failed to enable Keep-Alive: "@ + cause
}

/// Owner of the process's single sleep-inhibition handle slot.
///
/// The slot holds at most one handle by construction, so "at most one
/// concurrent keep-alive handle" is a structural invariant of this type.
/// `H` is the handle granted by the platform; releasing it is dropping it.
pub struct KeepAliveManager<H> {
    handle: Option<H>,
}

impl<H> KeepAliveManager<H> {
    /// Whether a handle is currently held.
    pub closed spec fn active(self) -> bool {
        self.handle is Some
    }

    /// A fresh manager starts Inactive: a new process never inherits an
    /// inhibition from a previous one.
    pub fn new() -> (m: Self)
        ensures
            !m.active(),
    {
        KeepAliveManager { handle: None }
    }

    /// Whether a handle is currently held.
    pub fn is_active(&self) -> (b: bool)
        ensures
            b == self.active(),
    {
        self.handle.is_some()
    }

    /// Applies an enable request given the platform's acquisition outcome.
    ///
    /// When a handle is already held the request is an idempotent no-op and
    /// `acquired` is discarded unused; when none is held, a granted handle is
    /// installed and a refusal is reported with the platform's description.
    pub fn enable_with(&mut self, acquired: Result<H, String>) -> (r: Result<String, String>)
        ensures
            final(self).active() == spec_enable_state(old(self).active(), acquired is Ok),
            match spec_enable_outcome(old(self).active(), acquired is Ok) {
                EnableOutcome::AlreadyActive => *final(self) == *old(self) && (r matches Ok(m)
                    && m@ == already_active_message()),
                EnableOutcome::Enabled => r matches Ok(m) && m@ == enabled_message(),
                EnableOutcome::Failed => *final(self) == *old(self) && (r matches Err(f)
                    && f@ == enable_failure_message(acquired->Err_0@)),
            },
    {
        if self.handle.is_some() {
            return Ok("Keep-Alive already active".to_owned());
        }
        match acquired {
            Ok(h) => {
                self.handle = Some(h);
                Ok("Keep-Alive enabled".to_owned())
            },
            Err(cause) => Err("Failed to enable Keep-Alive: ".to_owned().concat(cause.as_str())),
        }
    }

    /// Releases the held handle, if any; never an error.
    ///
    /// Dropping the handle revokes the platform inhibition; when none is
    /// held the request is an idempotent no-op.
    pub fn disable(&mut self) -> (r: Result<String, String>)
        ensures
            r is Ok,
            !final(self).active(),
            final(self).active() == spec_disable_state(old(self).active()),
            match spec_disable_outcome(old(self).active()) {
                DisableOutcome::Disabled => r matches Ok(m) && m@ == disabled_message(),
                DisableOutcome::NotActive => *final(self) == *old(self) && (r matches Ok(m)
                    && m@ == not_active_message()),
            },
    {
        if self.handle.is_none() {
            return Ok("Keep-Alive not active".to_owned());
        }
        self.handle = None;
        Ok("Keep-Alive disabled".to_owned())
    }
}

#[verifier::external_type_specification]
#[verifier::external_body]
pub struct ExKeepAwake(keepawake::KeepAwake);

/// Relies on keepawake's Builder (default options, then display(false),
/// idle(true), sleep(true)) and Builder::create: asks the platform for a
/// sleep-inhibition handle that leaves the display free to sleep but blocks
/// idle and system sleep; the handle keeps the inhibition until dropped, and
/// the grant may be refused with a description of the platform failure.
#[verifier::external_body]
fn acquire_keep_awake() -> (r: Result<keepawake::KeepAwake, String>) {
    keepawake::Builder::default()
        .display(false)
        .idle(true)
        .sleep(true)
        .create()
        .map_err(|e| e.to_string())
}

impl KeepAliveManager<keepawake::KeepAwake> {
    /// Enables the platform sleep inhibition: acquires a handle when none is
    /// held, and is an idempotent no-op — acquiring nothing — when one is.
    /// Whether the platform grants the handle is its own decision; whatever
    /// it answers, the manager ends Active exactly when the reply is a
    /// success.
    pub fn enable(&mut self) -> (r: Result<String, String>)
        ensures
            final(self).active() == r is Ok,
            old(self).active() ==> *final(self) == *old(self) && (r matches Ok(m)
                && m@ == already_active_message()),
            !old(self).active() && r is Ok ==> r->Ok_0@ == enabled_message(),
            !old(self).active() && r is Err ==> *final(self) == *old(self) && (exists|
                c: Seq<char>,
            | r->Err_0@ == enable_failure_message(c)),
    {
        if self.is_active() {
            return Ok("Keep-Alive already active".to_owned());
        }
        let acquired = acquire_keep_awake();
        let ghost cause: Seq<char> = if acquired is Err {
            acquired->Err_0@
        } else {
            Seq::empty()
        };
        let r = self.enable_with(acquired);
        proof {
            if r is Err {
                assert(r->Err_0@ == enable_failure_message(cause));
            }
        }
        r
    }
}

/// Law: enable is idempotent. After an enable that did not fail, a second
/// enable reports the manager already active and leaves the held-handle state
/// exactly as it was; the slot being an `Option` makes a second handle
/// impossible by construction, whatever the second grant would have been.
pub proof fn lemma_enable_idempotent(active: bool, first_granted: bool, second_granted: bool)
    requires
        spec_enable_outcome(active, first_granted) != EnableOutcome::Failed,
    ensures
        spec_enable_outcome(spec_enable_state(active, first_granted), second_granted)
            == EnableOutcome::AlreadyActive,
        spec_enable_state(spec_enable_state(active, first_granted), second_granted)
            == spec_enable_state(active, first_granted),
{
}

/// Law: disable is idempotent. A disable request from the Inactive state
/// reports "not active" as a success, not an error, and stays Inactive.
pub proof fn lemma_disable_idempotent(active: bool)
    ensures
        spec_disable_outcome(spec_disable_state(active)) == DisableOutcome::NotActive,
        spec_disable_state(spec_disable_state(active)) == false,
{
}

/// Law: enable followed by disable lands in Inactive, whatever the platform
/// answered, and a further disable then reports "not active".
pub proof fn lemma_enable_disable_round_trip(active: bool, granted: bool)
    ensures
        spec_disable_state(spec_enable_state(active, granted)) == false,
        spec_disable_outcome(spec_disable_state(spec_enable_state(active, granted)))
            == DisableOutcome::NotActive,
{
}

} // verus!
