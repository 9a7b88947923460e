use crate::command::{handler_outcome, run_handler, Handler, Value};
use crate::errors::{SetupFault, ShellError};
use crate::setup::{has_surface, setup_admissible, SetupEnv};
use vstd::prelude::*;

verus! {

/// The process-wide lifecycle phase. Transitions only move forward:
/// `Uninitialized` to `SettingUp` to `Ready` to `ShuttingDown`, with no
/// re-entry to an earlier phase.
#[derive(Debug, Clone, Copy, PartialEq, Eq, Structural)]
pub enum Phase {
    Uninitialized,
    SettingUp,
    Ready,
    ShuttingDown,
}

/// The handler bound to `name` in a registration list: the first binding
/// whose name matches, or nothing. Under `names_unique` there is at most one.
pub open spec fn lookup(entries: Seq<(String, Handler)>, name: Seq<char>) -> Option<Handler>
    decreases entries.len(),
{
    if entries.len() == 0 {
        None
    } else if entries.first().0@ == name {
        Some(entries.first().1)
    } else {
        lookup(entries.drop_first(), name)
    }
}

/// No two registrations bind the same name.
pub open spec fn names_unique(entries: Seq<(String, Handler)>) -> bool {
    forall|i: int, j: int|
        0 <= i < j < entries.len() ==> (#[trigger] entries[i]).0@ != (#[trigger] entries[j]).0@
}

/// Scanning forward agrees with `lookup`: when every name before position `i`
/// differs and position `i` matches, `lookup` yields that binding; when the
/// whole list was scanned without a match, `lookup` yields nothing.
proof fn lemma_lookup_at_index(entries: Seq<(String, Handler)>, name: Seq<char>, i: int)
    requires
        0 <= i <= entries.len(),
        forall|k: int| 0 <= k < i ==> (#[trigger] entries[k]).0@ != name,
        i < entries.len() ==> entries[i].0@ == name,
    ensures
        i < entries.len() ==> lookup(entries, name) == Some(entries[i].1),
        i == entries.len() ==> lookup(entries, name) is None,
    decreases entries.len(),
{
    if entries.len() == 0 {
    } else if entries.first().0@ == name {
        assert(entries[0].0@ == name);
        assert(i == 0);
    } else {
        assert(entries[0].0@ != name);
        assert(i >= 1);
        let sub = entries.drop_first();
        assert forall|k: int| 0 <= k < i - 1 implies (#[trigger] sub[k]).0@ != name by {
            assert(sub[k] == entries[k + 1]);
        }
        if i < entries.len() {
            assert(sub[i - 1] == entries[i]);
        }
        lemma_lookup_at_index(sub, name, i - 1);
    }
}

/// Appending one binding changes `lookup` only for a name that was unbound:
/// a bound name keeps its handler, the new name gains the new handler, and
/// every other name stays unbound.
proof fn lemma_lookup_push(entries: Seq<(String, Handler)>, p: (String, Handler), name: Seq<char>)
    ensures
        lookup(entries.push(p), name) == (if lookup(entries, name) is Some {
            lookup(entries, name)
        } else if p.0@ == name {
            Some(p.1)
        } else {
            None::<Handler>
        }),
    decreases entries.len(),
{
    let pushed = entries.push(p);
    if entries.len() == 0 {
        assert(pushed.first() == p);
        assert(pushed.drop_first() =~= Seq::<(String, Handler)>::empty());
        assert(lookup(pushed.drop_first(), name) is None);
        assert(lookup(entries, name) is None);
    } else {
        assert(pushed.first() == entries.first());
        assert(pushed.drop_first() =~= entries.drop_first().push(p));
        lemma_lookup_push(entries.drop_first(), p, name);
    }
}

/// The application shell: the lifecycle phase, the plugins registered during
/// setup, and the command registry. Commands are registered while the shell
/// is setting up and are immutable once it is ready.
pub struct AppShell {
    phase: Phase,
    plugins: Vec<String>,
    commands: Vec<(String, Handler)>,
}

impl AppShell {
    /// The current lifecycle phase.
    pub closed spec fn phase(self) -> Phase {
        self.phase
    }

    /// The plugins registered so far, in registration order.
    pub closed spec fn plugins(self) -> Seq<String> {
        self.plugins@
    }

    /// The command registry, in registration order.
    pub closed spec fn commands(self) -> Seq<(String, Handler)> {
        self.commands@
    }

    /// Well-formedness: command names are unique within the registry.
    pub closed spec fn wf(self) -> bool {
        names_unique(self.commands@)
    }

    /// The handler bound to `name`, if any.
    pub open spec fn handler_of(self, name: Seq<char>) -> Option<Handler> {
        lookup(self.commands(), name)
    }

    /// Whether some registration bound `name`.
    pub open spec fn registered(self, name: Seq<char>) -> bool {
        self.handler_of(name) is Some
    }

    /// What an invocation of `name` on `args` returns: the bound handler's
    /// outcome, or `CommandNotFound` when no registration bound `name`.
    pub open spec fn spec_invoke(self, name: Seq<char>, args: Seq<Value>) -> Result<
        Value,
        ShellError,
    > {
        match self.handler_of(name) {
            Some(h) => handler_outcome(h, args),
            None => Err(ShellError::CommandNotFound),
        }
    }

    /// A fresh shell: uninitialized, with no plugins and no commands.
    pub fn new() -> (shell: AppShell)
        ensures
            shell.wf(),
            shell.phase() is Uninitialized,
            shell.plugins().len() == 0,
            shell.commands().len() == 0,
            forall|n: Seq<char>| (#[trigger] shell.handler_of(n)) is None,
    {
        AppShell { phase: Phase::Uninitialized, plugins: Vec::new(), commands: Vec::new() }
    }

    /// Enters the setup phase. Registration becomes possible; the shell is
    /// not yet ready to accept invocations.
    pub fn begin_setup(&mut self)
        requires
            old(self).phase() is Uninitialized,
        ensures
            final(self).phase() is SettingUp,
            final(self).plugins() == old(self).plugins(),
            final(self).commands() == old(self).commands(),
            final(self).wf() == old(self).wf(),
            forall|n: Seq<char>|
                #[trigger] final(self).handler_of(n) == old(self).handler_of(n),
    {
        self.phase = Phase::SettingUp;
    }

    /// Records the registration of an external plugin capability (for
    /// instance, persistence). The plugin itself is an external collaborator;
    /// the shell only tracks that the step ran during setup.
    pub fn register_plugin(&mut self, name: String)
        requires
            old(self).phase() is SettingUp,
        ensures
            final(self).phase() is SettingUp,
            final(self).plugins() == old(self).plugins().push(name),
            final(self).commands() == old(self).commands(),
            final(self).wf() == old(self).wf(),
            forall|n: Seq<char>|
                #[trigger] final(self).handler_of(n) == old(self).handler_of(n),
    {
        self.plugins.push(name);
    }

    /// Leaves the ready phase for shutdown. No invocation is accepted
    /// afterwards; no earlier phase is ever re-entered.
    pub fn shutdown(&mut self)
        requires
            old(self).phase() is Ready,
        ensures
            final(self).phase() is ShuttingDown,
            final(self).plugins() == old(self).plugins(),
            final(self).commands() == old(self).commands(),
            final(self).wf() == old(self).wf(),
            forall|n: Seq<char>|
                #[trigger] final(self).handler_of(n) == old(self).handler_of(n),
    {
        self.phase = Phase::ShuttingDown;
    }

    /// The current phase, for an unverified caller that must check it before
    /// driving the shell.
    pub fn current_phase(&self) -> (p: Phase)
        ensures
            p == self.phase(),
    {
        self.phase
    }

    /// How many plugins were registered.
    pub fn plugin_count(&self) -> (n: usize)
        ensures
            n == self.plugins().len(),
    {
        self.plugins.len()
    }

    /// How many commands were registered.
    pub fn command_count(&self) -> (n: usize)
        ensures
            n == self.commands().len(),
    {
        self.commands.len()
    }

    /// The position of the registration binding `name`, if any.
    fn find_index(&self, name: &String) -> (r: Option<usize>)
        ensures
            r matches Some(i) ==> i < self.commands().len()
                && self.commands()[i as int].0@ == name@
                && self.handler_of(name@) == Some(self.commands()[i as int].1),
            r is None ==> !self.registered(name@),
            r is None ==> forall|k: int|
                0 <= k < self.commands().len() ==> (#[trigger] self.commands()[k]).0@ != name@,
    {
        let n = self.commands.len();
        let mut i: usize = 0;
        while i < n
            invariant
                n == self.commands@.len(),
                i <= n,
                forall|k: int| 0 <= k < i ==> (#[trigger] self.commands@[k]).0@ != name@,
            decreases n - i,
        {
            if self.commands[i].0 == *name {
                proof {
                    lemma_lookup_at_index(self.commands@, name@, i as int);
                }
                return Some(i);
            }
            i += 1;
        }
        proof {
            lemma_lookup_at_index(self.commands@, name@, self.commands@.len() as int);
        }
        None
    }

    /// Whether some registration bound `name`.
    pub fn is_registered(&self, name: &String) -> (r: bool)
        ensures
            r == self.registered(name@),
    {
        self.find_index(name).is_some()
    }

    /// Binds `name` to `handler`. Allowed only while setting up; a name may
    /// be bound at most once, and binding one name changes no other binding.
    pub fn register(&mut self, name: String, handler: Handler) -> (r: Result<(), ShellError>)
        requires
            old(self).wf(),
            old(self).phase() is SettingUp,
        ensures
            final(self).wf(),
            final(self).phase() is SettingUp,
            final(self).plugins() == old(self).plugins(),
            r is Ok <==> !old(self).registered(name@),
            !old(self).registered(name@) ==> final(self).commands() == old(self).commands().push(
                (name, handler),
            ),
            !old(self).registered(name@) ==> forall|n: Seq<char>|
                #[trigger] final(self).handler_of(n) == (if n == name@ {
                    Some(handler)
                } else {
                    old(self).handler_of(n)
                }),
            old(self).registered(name@) ==> r == Err::<(), ShellError>(
                ShellError::SetupFailure(SetupFault::DuplicateCommand),
            ) && final(self).commands() == old(self).commands(),
    {
        match self.find_index(&name) {
            Some(_) => Err(ShellError::SetupFailure(SetupFault::DuplicateCommand)),
            None => {
                let ghost before = self.commands@;
                let ghost pair = (name, handler);
                self.commands.push((name, handler));
                proof {
                    assert(self.commands@ =~= before.push(pair));
                    assert forall|n: Seq<char>|
                        #[trigger] lookup(self.commands@, n) == (if n == pair.0@ {
                            Some(pair.1)
                        } else {
                            lookup(before, n)
                        }) by {
                        lemma_lookup_push(before, pair, n);
                    }
                    assert forall|i: int, j: int|
                        0 <= i < j < self.commands@.len() implies (#[trigger] self.commands@[i]).0@
                        != (#[trigger] self.commands@[j]).0@ by {
                        if j == before.len() as int {
                            assert(self.commands@[j] == pair);
                            assert(before[i].0@ != pair.0@);
                        }
                    }
                }
                Ok(())
            },
        }
    }

    /// Dispatches an invocation: looks up `name` and returns its handler's
    /// outcome for `args`. A registered name always yields its handler's
    /// result, success or the handler's own failure, never a dispatcher
    /// fault; an unregistered name always yields `CommandNotFound`. The
    /// registry is shared immutably, so invocations do not interfere.
    pub fn invoke(&self, name: &String, args: &Vec<Value>) -> (r: Result<Value, ShellError>)
        requires
            self.wf(),
            self.phase() is Ready,
        ensures
            r == self.spec_invoke(name@, args@),
            self.registered(name@) ==> r == handler_outcome(
                self.handler_of(name@).unwrap(),
                args@,
            ),
            !self.registered(name@) ==> r == Err::<Value, ShellError>(ShellError::CommandNotFound),
    {
        match self.find_index(name) {
            Some(i) => {
                let entry = &self.commands[i];
                run_handler(&entry.1, args)
            },
            None => Err(ShellError::CommandNotFound),
        }
    }

    /// Completes setup and makes the shell ready, unless a required step
    /// fails: in a development build the diagnostic surface must be present,
    /// and when it is missing setup aborts with a fatal error and the shell
    /// never enters the ready phase.
    pub fn finish_setup(&mut self, env: &SetupEnv) -> (r: Result<(), ShellError>)
        requires
            old(self).phase() is SettingUp,
        ensures
            final(self).plugins() == old(self).plugins(),
            final(self).commands() == old(self).commands(),
            final(self).wf() == old(self).wf(),
            forall|n: Seq<char>|
                #[trigger] final(self).handler_of(n) == old(self).handler_of(n),
            setup_admissible(*env) ==> r == Ok::<(), ShellError>(()) && final(self).phase()
                is Ready,
            !setup_admissible(*env) ==> r == Err::<(), ShellError>(
                ShellError::SetupFailure(SetupFault::MissingSurface),
            ) && final(self).phase() is SettingUp,
    {
        if env.dev_build {
            let found = has_surface(env);
            if !found {
                return Err(ShellError::SetupFailure(SetupFault::MissingSurface));
            }
        }
        self.phase = Phase::Ready;
        Ok(())
    }
}

/// Law: an invocation's result is determined by the command registry and the
/// request alone. Two shells with the same registry answer every request
/// alike; since `invoke` shares the shell immutably, one in-flight invocation
/// cannot alter what another returns — any interference lies inside a
/// handler's own resources, never in the dispatcher.
pub proof fn lemma_invocations_independent(
    a: AppShell,
    b: AppShell,
    name: Seq<char>,
    args: Seq<Value>,
)
    requires
        a.commands() == b.commands(),
    ensures
        a.spec_invoke(name, args) == b.spec_invoke(name, args),
{
}

/// Law: invoking the same command with the same arguments twice in sequence
/// yields the same result both times, since the registry is immutable once
/// the shell is ready and `invoke` returns exactly what `spec_invoke` says.
pub proof fn lemma_invoke_idempotent(
    shell: AppShell,
    name: Seq<char>,
    args: Seq<Value>,
    r1: Result<Value, ShellError>,
    r2: Result<Value, ShellError>,
)
    requires
        r1 == shell.spec_invoke(name, args),
        r2 == shell.spec_invoke(name, args),
    ensures
        r1 == r2,
{
}

} // verus!
