use vstd::prelude::*;

verus! {

/// Severity threshold handed to the logging plugin, most quiet first.
#[derive(Clone, Copy, Debug, PartialEq, Eq, Structural)]
pub enum LogLevel {
    Off,
    Error,
    Warn,
    Info,
    Debug,
    Trace,
}

/// The threshold at which the logging plugin is registered.
pub const LOG_LEVEL: LogLevel = LogLevel::Info;

/// Build-time switches, kept apart on purpose: one decides whether the
/// logging plugin is registered, the other whether the sidecar is started.
#[derive(Clone, Copy, Debug, PartialEq, Eq, Structural)]
pub struct Settings {
    pub log_plugin: bool,
    pub sidecar_autostart: bool,
}

/// A capability module registered into the application host.
#[derive(Clone, Copy, Debug, PartialEq, Eq, Structural)]
pub enum Plugin {
    Log { level: LogLevel },
    Dialog,
    Shell,
}

/// A piece of outside work that the host performs on request.
#[derive(Clone, Copy, Debug, PartialEq, Eq, Structural)]
pub enum Task {
    Register(Plugin),
    /// Turn the bundled binary's name into a launchable command.
    ResolveSidecar,
    /// Launch the resolved command as a child process, without arguments.
    SpawnSidecar,
}

/// The task that set-up starts with.
pub open spec fn first_task(s: Settings) -> Task {
    if s.log_plugin {
        Task::Register(Plugin::Log { level: LogLevel::Info })
    } else {
        Task::Register(Plugin::Dialog)
    }
}

/// Name of the bundled backend binary that is launched as a sidecar.
pub fn sidecar_name() -> (r: &'static str)
    ensures
        r@ == "web_server"@,
{
    "web_server"
}

/// How a piece of outside work went, as the host reports it.
#[derive(Clone, Copy, Debug, PartialEq, Eq, Structural)]
pub enum Outcome {
    Succeeded,
    Failed,
}

/// Why set-up was abandoned.
#[derive(Clone, Copy, Debug, PartialEq, Eq, Structural)]
pub enum SetupError {
    /// A plugin reported a failure while it was being registered.
    PluginRegistration(Plugin),
    /// The sidecar's binary could not be turned into a launchable command.
    SidecarCommand,
}

/// Where a diagnostic line is written.
#[derive(Clone, Copy, Debug, PartialEq, Eq, Structural)]
pub enum Stream {
    Stdout,
    Stderr,
}

/// A diagnostic line that set-up asks the host to write.
#[derive(Clone, Copy, Debug, PartialEq, Eq, Structural)]
pub enum Note {
    /// The sidecar command could not be resolved; followed by the error.
    SidecarCommandFailed,
    /// The sidecar process was started.
    SidecarSpawned,
    /// The sidecar process could not be started; followed by the error.
    SidecarSpawnFailed,
}

/// What the host does next.
#[derive(Clone, Copy, Debug, PartialEq, Eq, Structural)]
pub enum Action {
    /// Perform the given task and report how it went.
    Perform(Task),
    /// Set-up is complete: enter the main event loop.
    Proceed,
    /// Set-up failed: startup is abandoned with this error.
    Abort(SetupError),
}

/// The answer to an event: an optional diagnostic line, then an action.
#[derive(Clone, Copy, Debug, PartialEq, Eq)]
pub struct Step {
    pub note: Option<Note>,
    pub action: Action,
}

/// Where set-up stands.
#[derive(Clone, Copy, Debug, PartialEq, Eq, Structural)]
pub enum Phase {
    NotStarted,
    /// The host has been asked for the given task.
    Awaiting(Task),
    /// Set-up is complete and the event loop may run.
    Completed,
    Aborted(SetupError),
}

/// The task that follows `t` once it is behind us, if any.
pub open spec fn next_task(s: Settings, t: Task) -> Option<Task> {
    match t {
        Task::Register(Plugin::Log { .. }) => Some(Task::Register(Plugin::Dialog)),
        Task::Register(Plugin::Dialog) => Some(Task::Register(Plugin::Shell)),
        Task::Register(Plugin::Shell) => if s.sidecar_autostart {
            Some(Task::ResolveSidecar)
        } else {
            None
        },
        Task::ResolveSidecar => Some(Task::SpawnSidecar),
        Task::SpawnSidecar => None,
    }
}

/// The error with which a failure of `t` ends set-up; `None` where a failure
/// of `t` is logged and set-up goes on.
pub open spec fn failure_of(t: Task) -> Option<SetupError> {
    match t {
        Task::Register(p) => Some(SetupError::PluginRegistration(p)),
        Task::ResolveSidecar => Some(SetupError::SidecarCommand),
        Task::SpawnSidecar => None,
    }
}

/// The diagnostic written when `t` ends with `o`.
pub open spec fn note_of(t: Task, o: Outcome) -> Option<Note> {
    match (t, o) {
        (Task::ResolveSidecar, Outcome::Failed) => Some(Note::SidecarCommandFailed),
        (Task::SpawnSidecar, Outcome::Succeeded) => Some(Note::SidecarSpawned),
        (Task::SpawnSidecar, Outcome::Failed) => Some(Note::SidecarSpawnFailed),
        _ => None,
    }
}

/// The phase and the step that follow when the awaited task `t` ends with `o`.
pub open spec fn transition(s: Settings, t: Task, o: Outcome) -> (Phase, Step) {
    let note = note_of(t, o);
    if o == Outcome::Failed && failure_of(t).is_some() {
        let e = failure_of(t).unwrap();
        (Phase::Aborted(e), Step { note, action: Action::Abort(e) })
    } else {
        match next_task(s, t) {
            Some(n) => (Phase::Awaiting(n), Step { note, action: Action::Perform(n) }),
            None => (Phase::Completed, Step { note, action: Action::Proceed }),
        }
    }
}

impl Task {
    /// See [`failure_of`].
    pub fn failure(&self) -> (r: Option<SetupError>)
        ensures
            r == failure_of(*self),
    {
        match *self {
            Task::Register(p) => Some(SetupError::PluginRegistration(p)),
            Task::ResolveSidecar => Some(SetupError::SidecarCommand),
            Task::SpawnSidecar => None,
        }
    }

    /// See [`note_of`].
    pub fn note(&self, o: Outcome) -> (r: Option<Note>)
        ensures
            r == note_of(*self, o),
    {
        match (*self, o) {
            (Task::ResolveSidecar, Outcome::Failed) => Some(Note::SidecarCommandFailed),
            (Task::SpawnSidecar, Outcome::Succeeded) => Some(Note::SidecarSpawned),
            (Task::SpawnSidecar, Outcome::Failed) => Some(Note::SidecarSpawnFailed),
            _ => None,
        }
    }
}

impl Note {
    pub open spec fn stream_spec(self) -> Stream {
        match self {
            Note::SidecarSpawned => Stream::Stdout,
            _ => Stream::Stderr,
        }
    }

    /// Success goes to standard output, failures to standard error.
    pub fn stream(&self) -> (r: Stream)
        ensures
            r == self.stream_spec(),
    {
        match self {
            Note::SidecarSpawned => Stream::Stdout,
            _ => Stream::Stderr,
        }
    }

    pub open spec fn headline_spec(self) -> Seq<char> {
        match self {
            Note::SidecarCommandFailed => "Failed to create sidecar command"@,
            Note::SidecarSpawned => "Sidecar spawned successfully"@,
            Note::SidecarSpawnFailed => "CRITICAL: Failed to spawn sidecar"@,
        }
    }

    /// Whether the line ends with `": "` and the error's text.
    pub open spec fn has_detail_spec(self) -> bool {
        self != Note::SidecarSpawned
    }

    /// The fixed text of the line.
    pub fn headline(&self) -> (r: &'static str)
        ensures
            r@ == self.headline_spec(),
    {
        match self {
            Note::SidecarCommandFailed => "Failed to create sidecar command",
            Note::SidecarSpawned => "Sidecar spawned successfully",
            Note::SidecarSpawnFailed => "CRITICAL: Failed to spawn sidecar",
        }
    }

    /// Whether the line ends with `": "` and the error's text.
    pub fn has_detail(&self) -> (r: bool)
        ensures
            r == self.has_detail_spec(),
    {
        match self {
            Note::SidecarSpawned => false,
            _ => true,
        }
    }
}

impl Settings {
    /// Settings of a debug build: logging on, no sidecar.
    pub fn debug() -> (r: Settings)
        ensures
            r.log_plugin,
            !r.sidecar_autostart,
    {
        Settings { log_plugin: true, sidecar_autostart: false }
    }

    /// Settings of a release build: no logging plugin, the sidecar is started.
    pub fn release() -> (r: Settings)
        ensures
            !r.log_plugin,
            r.sidecar_autostart,
    {
        Settings { log_plugin: false, sidecar_autostart: true }
    }

    /// Settings for a build with or without debug assertions.
    pub fn for_build(debug_assertions: bool) -> (r: Settings)
        ensures
            r.log_plugin == debug_assertions,
            r.sidecar_autostart == !debug_assertions,
    {
        if debug_assertions {
            Settings::debug()
        } else {
            Settings::release()
        }
    }

    /// The task that set-up starts with under these settings.
    pub fn first_task(&self) -> (r: Task)
        ensures
            r == first_task(*self),
    {
        if self.log_plugin {
            Task::Register(Plugin::Log { level: LOG_LEVEL })
        } else {
            Task::Register(Plugin::Dialog)
        }
    }

    /// See [`next_task`].
    pub fn next_task(&self, t: Task) -> (r: Option<Task>)
        ensures
            r == next_task(*self, t),
    {
        match t {
            Task::Register(Plugin::Log { .. }) => Some(Task::Register(Plugin::Dialog)),
            Task::Register(Plugin::Dialog) => Some(Task::Register(Plugin::Shell)),
            Task::Register(Plugin::Shell) => if self.sidecar_autostart {
                Some(Task::ResolveSidecar)
            } else {
                None
            },
            Task::ResolveSidecar => Some(Task::SpawnSidecar),
            Task::SpawnSidecar => None,
        }
    }
}

/// Set-up of the application host, driven one event at a time.
pub struct Setup {
    pub settings: Settings,
    pub phase: Phase,
}

impl Setup {
    pub fn new(settings: Settings) -> (r: Setup)
        ensures
            r.settings == settings,
            r.phase == Phase::NotStarted,
    {
        Setup { settings, phase: Phase::NotStarted }
    }

    /// Starts set-up: the host is asked for the first task.
    pub fn begin(&mut self) -> (r: Step)
        requires
            old(self).phase == Phase::NotStarted,
        ensures
            final(self).settings == old(self).settings,
            final(self).phase == Phase::Awaiting(first_task(old(self).settings)),
            r == (Step { note: None, action: Action::Perform(first_task(old(self).settings)) }),
    {
        let t = self.settings.first_task();
        self.phase = Phase::Awaiting(t);
        Step { note: None, action: Action::Perform(t) }
    }

    /// Takes the outcome of the awaited task and says what follows.
    pub fn advance(&mut self, o: Outcome) -> (r: Step)
        requires
            old(self).phase is Awaiting,
        ensures
            final(self).settings == old(self).settings,
            (final(self).phase, r) == transition(
                old(self).settings,
                old(self).phase->Awaiting_0,
                o,
            ),
    {
        let t = match self.phase {
            Phase::Awaiting(t) => t,
            _ => Task::SpawnSidecar,
        };
        let note = t.note(o);
        let fatal = t.failure();
        match (o, fatal) {
            (Outcome::Failed, Some(e)) => {
                self.phase = Phase::Aborted(e);
                Step { note, action: Action::Abort(e) }
            },
            _ => match self.settings.next_task(t) {
                Some(n) => {
                    self.phase = Phase::Awaiting(n);
                    Step { note, action: Action::Perform(n) }
                },
                None => {
                    self.phase = Phase::Completed;
                    Step { note, action: Action::Proceed }
                },
            },
        }
    }

    /// Whether set-up waits for the outcome of a task.
    pub fn is_awaiting(&self) -> (r: bool)
        ensures
            r == self.phase is Awaiting,
    {
        match self.phase {
            Phase::Awaiting(_) => true,
            _ => false,
        }
    }
}

} // verus!
