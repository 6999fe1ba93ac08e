//! The detour registry, the state machine governing each function detour,
//! and the decisions of the central interceptor.

use vstd::prelude::*;

use crate::HookError;

verus! {

/// The lifecycle states of one function detour.
///
/// Transitions run strictly `Uninstalled` to `Initialized` to `Enabled` to
/// `Disabled`; disabling from `Uninstalled` or `Disabled` is a no-op, and
/// enabling requires `Initialized`.
#[derive(Clone, Copy, Debug, PartialEq, Eq, Structural)]
pub enum DetourState {
    Uninstalled,
    Initialized,
    Enabled,
    Disabled,
}

/// One function detour: its lifecycle state and, once initialized, the
/// address of the original function retained for forwarding.
pub struct Detour {
    state: DetourState,
    original: Option<usize>,
}

impl Detour {
    /// The lifecycle state the detour is in.
    pub closed spec fn spec_state(self) -> DetourState {
        self.state
    }

    /// The retained address of the original function, if any.
    pub closed spec fn spec_original(self) -> Option<usize> {
        self.original
    }

    /// A well-formed detour retains the original function's address from
    /// initialization on, and before that holds none.
    pub closed spec fn wf(self) -> bool {
        match self.state {
            DetourState::Uninstalled => self.original is None,
            _ => self.original is Some,
        }
    }

    /// Creates a detour that is not yet installed anywhere.
    pub fn new() -> (r: Detour)
        ensures
            r.wf(),
            r.spec_state() == DetourState::Uninstalled,
            r.spec_original() is None,
    {
        Detour { state: DetourState::Uninstalled, original: None }
    }

    /// The lifecycle state the detour is in.
    pub fn state(&self) -> (r: DetourState)
        ensures
            r == self.spec_state(),
    {
        self.state
    }

    /// Whether the detour is currently enabled.
    pub fn is_enabled(&self) -> (r: bool)
        ensures
            r == (self.spec_state() == DetourState::Enabled),
    {
        match self.state {
            DetourState::Enabled => true,
            _ => false,
        }
    }

    /// The retained address of the original function, if any.
    pub fn original(&self) -> (r: Option<usize>)
        ensures
            r == self.spec_original(),
    {
        self.original
    }

    /// The target of the call-forwarding construct inside a handler's
    /// body: the retained original function, to be invoked with whatever
    /// arguments the handler supplies and whose result is returned
    /// unmodified.
    ///
    /// Fails with `HookInstallError` exactly when the detour has never
    /// been initialized, so no original address has been retained.
    pub fn forward_target(&self) -> (r: Result<usize, HookError>)
        ensures
            self.spec_original() matches Some(a) ==> r == Ok::<usize, HookError>(a),
            self.spec_original() is None ==> r == Err::<usize, HookError>(
                HookError::HookInstallError,
            ),
    {
        match self.original {
            Some(a) => Ok(a),
            None => Err(HookError::HookInstallError),
        }
    }

    /// Performs the `Uninstalled` to `Initialized` transition, retaining
    /// `target` as the original function's address.
    ///
    /// Fails with `HookInstallError` exactly when the detour has already
    /// been initialized before, leaving it unchanged.
    pub fn initialize(&mut self, target: usize) -> (r: Result<(), HookError>)
        ensures
            old(self).spec_state() == DetourState::Uninstalled ==> r is Ok && final(self).spec_state() == DetourState::Initialized && final(self).spec_original() == Some(
                target,
            ),
            old(self).spec_state() != DetourState::Uninstalled ==> r == Err::<(), HookError>(
                HookError::HookInstallError,
            ) && *final(self) == *old(self),
            old(self).wf() ==> final(self).wf(),
    {
        match self.state {
            DetourState::Uninstalled => {
                self.state = DetourState::Initialized;
                self.original = Some(target);
                Ok(())
            },
            _ => Err(HookError::HookInstallError),
        }
    }

    /// Performs the `Initialized` to `Enabled` transition.
    ///
    /// Fails with `HookInstallError` exactly when the detour is not
    /// `Initialized`, leaving it unchanged.
    pub fn enable(&mut self) -> (r: Result<(), HookError>)
        ensures
            old(self).spec_state() == DetourState::Initialized ==> r is Ok && final(self).spec_state() == DetourState::Enabled && final(self).spec_original() == old(self).spec_original(),
            old(self).spec_state() != DetourState::Initialized ==> r == Err::<(), HookError>(
                HookError::HookInstallError,
            ) && *final(self) == *old(self),
            old(self).wf() ==> final(self).wf(),
    {
        match self.state {
            DetourState::Initialized => {
                self.state = DetourState::Enabled;
                Ok(())
            },
            _ => Err(HookError::HookInstallError),
        }
    }

    /// Performs the `Enabled` to `Disabled` transition; from any other
    /// state this is a no-op, never an error, since teardown is
    /// best-effort.
    pub fn disable(&mut self)
        ensures
            old(self).spec_state() == DetourState::Enabled ==> final(self).spec_state()
                == DetourState::Disabled,
            old(self).spec_state() != DetourState::Enabled ==> *final(self) == *old(self),
            final(self).spec_original() == old(self).spec_original(),
            old(self).wf() ==> final(self).wf(),
    {
        match self.state {
            DetourState::Enabled => {
                self.state = DetourState::Disabled;
            },
            _ => {},
        }
    }

    /// The detour and outcome one run of the installer leaves behind, from
    /// the detour it found, the address the resolver yielded for the event,
    /// and whether the page-protection change succeeded.
    pub closed spec fn spec_install(
        d: Detour,
        resolved: Option<usize>,
        protect_ok: bool,
    ) -> (Detour, Result<(), HookError>) {
        if d.state == DetourState::Enabled {
            (d, Ok(()))
        } else if resolved is None {
            (d, Ok(()))
        } else if !protect_ok {
            (d, Err(HookError::ProtectionChangeError))
        } else if d.state == DetourState::Uninstalled {
            (
                Detour { state: DetourState::Enabled, original: resolved },
                Ok(()),
            )
        } else {
            (d, Err(HookError::HookInstallError))
        }
    }

    /// Runs the installer sequence for this detour.
    ///
    /// An already enabled detour makes the whole run a no-op, so repeated
    /// installation attempts are idempotent. An event whose address the
    /// resolver did not yield (`resolved` is `None`) defers installation
    /// silently. Otherwise the transition to `Enabled` happens under the
    /// page-protection guard, whose outcome is handed in as `protect_ok`:
    /// a failed change aborts with `ProtectionChangeError`, and a detour
    /// that was already initialized or disabled cannot be initialized
    /// again and aborts with `HookInstallError`.
    pub fn install(&mut self, resolved: Option<usize>, protect_ok: bool) -> (r: Result<
        (),
        HookError,
    >)
        ensures
            (*final(self), r) == Detour::spec_install(*old(self), resolved, protect_ok),
            old(self).spec_state() == DetourState::Enabled ==> *final(self) == *old(self) && r is Ok,
            old(self).spec_state() != DetourState::Enabled && resolved is None ==> *final(self)
                == *old(self) && r is Ok,
            old(self).spec_state() != DetourState::Enabled && resolved is Some && !protect_ok
                ==> *final(self) == *old(self) && r == Err::<(), HookError>(
                HookError::ProtectionChangeError,
            ),
            old(self).spec_state() == DetourState::Uninstalled && resolved is Some && protect_ok
                ==> final(self).spec_state() == DetourState::Enabled && final(self).spec_original()
                == resolved && r is Ok,
            (old(self).spec_state() == DetourState::Initialized || old(self).spec_state()
                == DetourState::Disabled) && resolved is Some && protect_ok ==> *final(self) == *old(self) && r == Err::<(), HookError>(HookError::HookInstallError),
            old(self).wf() ==> final(self).wf(),
    {
        if self.is_enabled() {
            return Ok(());
        }
        let target = match resolved {
            Some(t) => t,
            None => {
                return Ok(());
            },
        };
        if !protect_ok {
            return Err(HookError::ProtectionChangeError);
        }
        match self.initialize(target) {
            Ok(_) => {},
            Err(e) => {
                return Err(e);
            },
        }
        match self.enable() {
            Ok(_) => Ok(()),
            Err(e) => Err(e),
        }
    }
}

/// Installing a handler's detour twice leaves it in state `Enabled`
/// exactly once: the first successful run enables it and retains the
/// resolved address, and any later run finds it enabled and changes
/// nothing, whatever the resolver or the page protection yield then.
pub proof fn lemma_install_idempotent(
    d: Detour,
    addr: usize,
    resolved2: Option<usize>,
    protect2: bool,
)
    requires
        d.wf(),
        d.spec_state() == DetourState::Uninstalled,
    ensures
        ({
            let (d1, r1) = Detour::spec_install(d, Some(addr), true);
            &&& d1.spec_state() == DetourState::Enabled
            &&& d1.spec_original() == Some(addr)
            &&& r1 is Ok
            &&& Detour::spec_install(d1, resolved2, protect2) == (d1, Result::<(), HookError>::Ok(
                (),
            ))
        }),
{
}

/// One entry of the detour registry: an event name, the address of the
/// declared handler that is to be installed for it, and the detour's
/// state.
pub struct Registration {
    /// The name of the event whose dispatch the handler intercepts.
    pub name: String,
    /// The address of the declared handler function.
    pub handler: usize,
    /// The state machine of this handler's detour.
    pub detour: Detour,
}

/// The process-wide table of per-event hook registrations.
///
/// The table is assembled before the interceptor goes live and is keyed
/// uniquely by event name; afterwards it is only walked, never grown or
/// shrunk.
pub struct Registry {
    entries: Vec<Registration>,
}

impl View for Registry {
    type V = Seq<Registration>;

    closed spec fn view(&self) -> Seq<Registration> {
        self.entries@
    }
}

impl Registry {
    /// A well-formed registry: every detour is well formed and no two
    /// entries share an event name.
    pub open spec fn wf(self) -> bool {
        &&& forall|k: int| 0 <= k < self@.len() ==> (#[trigger] self@[k].detour).wf()
        &&& forall|j: int, k: int|
            0 <= j < k < self@.len() ==> (#[trigger] self@[j].name)@ != (#[trigger] self@[k].name)@
    }

    /// Creates an empty registry.
    pub fn new() -> (r: Registry)
        ensures
            r.wf(),
            r@.len() == 0,
    {
        Registry { entries: Vec::new() }
    }

    /// The number of registered handlers.
    pub fn len(&self) -> (r: usize)
        ensures
            r == self@.len(),
    {
        self.entries.len()
    }

    /// The state of the detour registered at index `i`.
    pub fn state_at(&self, i: usize) -> (r: DetourState)
        requires
            i < self@.len(),
        ensures
            r == self@[i as int].detour.spec_state(),
    {
        self.entries[i].detour.state
    }

    /// The retained original address of the detour at index `i`.
    pub fn original_at(&self, i: usize) -> (r: Option<usize>)
        requires
            i < self@.len(),
        ensures
            r == self@[i as int].detour.spec_original(),
    {
        self.entries[i].detour.original
    }

    /// The event name registered at index `i`.
    pub fn name_at(&self, i: usize) -> (r: &String)
        requires
            i < self@.len(),
        ensures
            r@ == self@[i as int].name@,
    {
        &self.entries[i].name
    }

    /// Whether some entry is already registered under the given name.
    fn contains_name(&self, name: &String) -> (r: bool)
        ensures
            r == exists|k: int| 0 <= k < self@.len() && (#[trigger] self@[k].name)@ == name@,
    {
        let mut k: usize = 0;
        while k < self.entries.len()
            invariant
                k <= self@.len(),
                forall|j: int| 0 <= j < k ==> (#[trigger] self@[j].name)@ != name@,
            decreases self@.len() - k,
        {
            if self.entries[k].name == *name {
                return true;
            }
            k += 1;
        }
        false
    }

    /// Registers a handler for the named event.
    ///
    /// A handler declared with suspending control flow is rejected, since
    /// the intercepted call runs synchronously on the foreign thread; so
    /// is a second handler for an event name already taken. Both are
    /// refused with `HookInstallError`, leaving the table unchanged;
    /// otherwise the entry is appended with a fresh detour.
    pub fn register(&mut self, name: String, handler: usize, suspending: bool) -> (r: Result<
        (),
        HookError,
    >)
        requires
            old(self).wf(),
        ensures
            final(self).wf(),
            ({
                let taken = exists|k: int|
                    0 <= k < old(self)@.len() && (#[trigger] old(self)@[k].name)@ == name@;
                if suspending || taken {
                    r == Err::<(), HookError>(HookError::HookInstallError) && *final(self) == *old(self)
                } else {
                    r is Ok && final(self)@.len() == old(self)@.len() + 1 && final(self)@.subrange(
                        0,
                        old(self)@.len() as int,
                    ) == old(self)@ && final(self)@.last().name@ == name@ && final(self)@.last().handler == handler && final(self)@.last().detour.spec_state()
                        == DetourState::Uninstalled
                }
            }),
    {
        if suspending {
            return Err(HookError::HookInstallError);
        }
        if self.contains_name(&name) {
            return Err(HookError::HookInstallError);
        }
        let ghost prev = self@;
        self.entries.push(Registration { name, handler, detour: Detour::new() });
        proof {
            assert(self@.subrange(0, prev.len() as int) =~= prev);
        }
        Ok(())
    }

    /// The walk of the central interceptor: runs every registered
    /// handler's installer once, handing each the address the resolver
    /// yielded for its event and the outcome of the page-protection
    /// change.
    ///
    /// `resolutions[k]` belongs to the entry at index `k`. An installer's
    /// failure never propagates into the foreign call stack: every entry
    /// is walked regardless, and each detour is left exactly as one run of
    /// its installer leaves it.
    pub fn install_all(&mut self, resolutions: &Vec<Option<usize>>, protect_ok: bool)
        requires
            old(self).wf(),
            resolutions@.len() == old(self)@.len(),
        ensures
            final(self).wf(),
            final(self)@.len() == old(self)@.len(),
            forall|k: int|
                0 <= k < old(self)@.len() ==> {
                    &&& (#[trigger] final(self)@[k]).name@ == old(self)@[k].name@
                    &&& final(self)@[k].handler == old(self)@[k].handler
                    &&& final(self)@[k].detour == Detour::spec_install(
                        old(self)@[k].detour,
                        resolutions@[k],
                        protect_ok,
                    ).0
                },
    {
        let ghost prev = self@;
        let mut i: usize = 0;
        while i < self.entries.len()
            invariant
                self@.len() == prev.len(),
                resolutions@.len() == prev.len(),
                i <= prev.len(),
                forall|k: int| i <= k < prev.len() ==> self@[k] == prev[k],
                forall|k: int|
                    0 <= k < i ==> {
                        &&& (#[trigger] self@[k]).name@ == prev[k].name@
                        &&& self@[k].handler == prev[k].handler
                        &&& self@[k].detour == Detour::spec_install(
                            prev[k].detour,
                            resolutions@[k],
                            protect_ok,
                        ).0
                    },
                forall|k: int| 0 <= k < prev.len() ==> (#[trigger] prev[k].detour).wf(),
                forall|j: int, k: int|
                    0 <= j < k < prev.len() ==> (#[trigger] prev[j].name)@ != (
                    #[trigger] prev[k].name)@,
            decreases prev.len() - i,
    {
            let entry = &mut self.entries[i];
            let _ = entry.detour.install(resolutions[i], protect_ok);
            i += 1;
        }
        proof {
            assert forall|j: int, k: int| 0 <= j < k < self@.len() implies (
            #[trigger] self@[j].name)@ != (#[trigger] self@[k].name)@ by {
                assert(self@[j].name@ == prev[j].name@);
                assert(self@[k].name@ == prev[k].name@);
            }
            assert forall|k: int| 0 <= k < self@.len() implies (#[trigger] self@[k].detour).wf()
            by {
                assert(prev[k].detour.wf());
            }
        }
    }

    /// Unhooks all event handler detours: performs every detour's
    /// best-effort disable transition, tolerating every state it finds.
    /// With zero registered handlers this is a no-op that returns
    /// successfully.
    pub fn unhook_all(&mut self)
        requires
            old(self).wf(),
        ensures
            final(self).wf(),
            final(self)@.len() == old(self)@.len(),
            forall|k: int|
                0 <= k < old(self)@.len() ==> {
                    &&& (#[trigger] final(self)@[k]).name@ == old(self)@[k].name@
                    &&& final(self)@[k].handler == old(self)@[k].handler
                    &&& final(self)@[k].detour.spec_original() == old(self)@[k].detour.spec_original()
                    &&& final(self)@[k].detour.spec_state() == (if old(self)@[k].detour.spec_state()
                        == DetourState::Enabled {
                        DetourState::Disabled
                    } else {
                        old(self)@[k].detour.spec_state()
                    })
                },
            old(self)@.len() == 0 ==> final(self)@ == old(self)@,
    {
        let ghost prev = self@;
        let mut i: usize = 0;
        while i < self.entries.len()
            invariant
                self@.len() == prev.len(),
                i <= prev.len(),
                forall|k: int| i <= k < prev.len() ==> self@[k] == prev[k],
                forall|k: int|
                    0 <= k < i ==> {
                        &&& (#[trigger] self@[k]).name@ == prev[k].name@
                        &&& self@[k].handler == prev[k].handler
                        &&& self@[k].detour.spec_original() == prev[k].detour.spec_original()
                        &&& self@[k].detour.spec_state() == (if prev[k].detour.spec_state()
                            == DetourState::Enabled {
                            DetourState::Disabled
                        } else {
                            prev[k].detour.spec_state()
                        })
                    },
                forall|k: int| 0 <= k < prev.len() ==> (#[trigger] prev[k].detour).wf(),
                forall|j: int, k: int|
                    0 <= j < k < prev.len() ==> (#[trigger] prev[j].name)@ != (
                    #[trigger] prev[k].name)@,
            decreases prev.len() - i,
        {
            let entry = &mut self.entries[i];
            entry.detour.disable();
            i += 1;
        }
        proof {
            assert forall|j: int, k: int| 0 <= j < k < self@.len() implies (
            #[trigger] self@[j].name)@ != (#[trigger] self@[k].name)@ by {
                assert(self@[j].name@ == prev[j].name@);
                assert(self@[k].name@ == prev[k].name@);
            }
            assert forall|k: int| 0 <= k < self@.len() implies (#[trigger] self@[k].detour).wf()
            by {
                assert(prev[k].detour.wf());
            }
            if prev.len() == 0 {
                assert(self@ =~= prev);
            }
        }
    }
}

/// Tracks the process-wide name resolver: a single setup call installs it,
/// and it must be installed exactly once before any lookup runs.
pub struct ResolverSlot {
    installed: bool,
}

impl ResolverSlot {
    /// Whether the resolver has been installed.
    pub closed spec fn spec_installed(self) -> bool {
        self.installed
    }

    /// Creates the slot with no resolver installed.
    pub fn new() -> (r: ResolverSlot)
        ensures
            !r.spec_installed(),
    {
        ResolverSlot { installed: false }
    }

    /// Records the one-time installation of the name resolver.
    ///
    /// Fails with `ResolverAlreadySet` exactly when a resolver has been
    /// installed before; the slot then stays installed.
    pub fn install(&mut self) -> (r: Result<(), HookError>)
        ensures
            final(self).spec_installed(),
            !old(self).spec_installed() ==> r is Ok,
            old(self).spec_installed() ==> r == Err::<(), HookError>(HookError::ResolverAlreadySet),
    {
        if self.installed {
            return Err(HookError::ResolverAlreadySet);
        }
        self.installed = true;
        Ok(())
    }

    /// Interprets what a lookup of an event handler by name yields.
    ///
    /// Before the resolver is installed no lookup may run, which fails
    /// with `ResolverNotReady`. Otherwise `raw_address` is the address the
    /// foreign getter returned, where null means the dispatcher knows no
    /// handler of that name: the install of that event is simply deferred,
    /// not an error.
    pub fn find_event_by_name(&self, raw_address: usize) -> (r: Result<Option<usize>, HookError>)
        ensures
            !self.spec_installed() ==> r == Err::<Option<usize>, HookError>(
                HookError::ResolverNotReady,
            ),
            self.spec_installed() && raw_address == 0 ==> r == Ok::<Option<usize>, HookError>(None),
            self.spec_installed() && raw_address != 0 ==> r == Ok::<Option<usize>, HookError>(
                Some(raw_address),
            ),
    {
        if !self.installed {
            return Err(HookError::ResolverNotReady);
        }
        if raw_address == 0 {
            Ok(None)
        } else {
            Ok(Some(raw_address))
        }
    }
}

} // verus!
