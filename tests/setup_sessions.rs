use sidecar_boot::setup::{
    sidecar_name, Action, LogLevel, Note, Outcome, Phase, Plugin, SetupError, Settings, Setup,
    Step, Stream, Task, LOG_LEVEL,
};

/// Drives a whole set-up, answering each task with the next outcome
/// (success once the list runs out). Returns the tasks asked for, the notes
/// written and the last action.
fn drive(settings: Settings, outcomes: &[Outcome]) -> (Vec<Task>, Vec<Note>, Action) {
    let mut setup = Setup::new(settings);
    let mut step: Step = setup.begin();
    let mut tasks = Vec::new();
    let mut notes = Vec::new();
    let mut answers = outcomes.iter();
    loop {
        if let Some(n) = step.note {
            notes.push(n);
        }
        match step.action {
            Action::Perform(t) => {
                tasks.push(t);
                let o = answers.next().copied().unwrap_or(Outcome::Succeeded);
                step = setup.advance(o);
            }
            other => return (tasks, notes, other),
        }
    }
}

const LOG: Task = Task::Register(Plugin::Log { level: LogLevel::Info });
const DIALOG: Task = Task::Register(Plugin::Dialog);
const SHELL: Task = Task::Register(Plugin::Shell);

#[test]
fn debug_build_registers_logging_then_other_plugins() {
    let (tasks, notes, end) = drive(Settings::debug(), &[]);
    assert_eq!(tasks, vec![LOG, DIALOG, SHELL]);
    assert!(notes.is_empty());
    assert_eq!(end, Action::Proceed);
}

#[test]
fn debug_build_logging_failure_aborts() {
    let (tasks, notes, end) = drive(Settings::debug(), &[Outcome::Failed]);
    assert_eq!(tasks, vec![LOG]);
    assert!(notes.is_empty());
    assert_eq!(
        end,
        Action::Abort(SetupError::PluginRegistration(Plugin::Log { level: LogLevel::Info }))
    );
}

#[test]
fn debug_build_never_touches_sidecar() {
    for first in [Outcome::Succeeded, Outcome::Failed] {
        for second in [Outcome::Succeeded, Outcome::Failed] {
            let (tasks, _, _) = drive(Settings::debug(), &[Outcome::Succeeded, first, second]);
            assert!(!tasks.contains(&Task::ResolveSidecar));
            assert!(!tasks.contains(&Task::SpawnSidecar));
        }
    }
}

#[test]
fn release_build_never_registers_logging() {
    let (tasks, _, _) = drive(Settings::release(), &[]);
    assert!(tasks.iter().all(|t| !matches!(t, Task::Register(Plugin::Log { .. }))));
    assert_eq!(tasks[0], DIALOG);
}

#[test]
fn release_build_resolve_failure_aborts_with_stderr_line() {
    let (tasks, notes, end) =
        drive(Settings::release(), &[Outcome::Succeeded, Outcome::Succeeded, Outcome::Failed]);
    assert_eq!(tasks, vec![DIALOG, SHELL, Task::ResolveSidecar]);
    assert_eq!(notes, vec![Note::SidecarCommandFailed]);
    assert_eq!(notes[0].stream(), Stream::Stderr);
    assert_eq!(end, Action::Abort(SetupError::SidecarCommand));
}

#[test]
fn release_build_spawn_failure_still_proceeds() {
    let outcomes = [Outcome::Succeeded, Outcome::Succeeded, Outcome::Succeeded, Outcome::Failed];
    let (tasks, notes, end) = drive(Settings::release(), &outcomes);
    assert_eq!(tasks, vec![DIALOG, SHELL, Task::ResolveSidecar, Task::SpawnSidecar]);
    assert_eq!(notes, vec![Note::SidecarSpawnFailed]);
    assert_eq!(notes[0].stream(), Stream::Stderr);
    assert!(notes[0].headline().starts_with("CRITICAL"));
    assert_eq!(end, Action::Proceed);
}

#[test]
fn release_build_spawns_exactly_once() {
    let (tasks, notes, end) = drive(Settings::release(), &[]);
    assert_eq!(tasks.iter().filter(|t| **t == Task::ResolveSidecar).count(), 1);
    assert_eq!(tasks.iter().filter(|t| **t == Task::SpawnSidecar).count(), 1);
    assert_eq!(tasks.last(), Some(&Task::SpawnSidecar));
    assert_eq!(notes, vec![Note::SidecarSpawned]);
    assert_eq!(notes[0].stream(), Stream::Stdout);
    assert_eq!(end, Action::Proceed);
}

#[test]
fn plugin_failures_abort_before_sidecar() {
    let (tasks, _, end) = drive(Settings::release(), &[Outcome::Failed]);
    assert_eq!(tasks, vec![DIALOG]);
    assert_eq!(end, Action::Abort(SetupError::PluginRegistration(Plugin::Dialog)));
    let (tasks, _, end) = drive(Settings::release(), &[Outcome::Succeeded, Outcome::Failed]);
    assert_eq!(tasks, vec![DIALOG, SHELL]);
    assert_eq!(end, Action::Abort(SetupError::PluginRegistration(Plugin::Shell)));
}

#[test]
fn both_switches_on_logs_and_spawns() {
    let settings = Settings { log_plugin: true, sidecar_autostart: true };
    let (tasks, notes, end) = drive(settings, &[]);
    assert_eq!(tasks, vec![LOG, DIALOG, SHELL, Task::ResolveSidecar, Task::SpawnSidecar]);
    assert_eq!(notes, vec![Note::SidecarSpawned]);
    assert_eq!(end, Action::Proceed);
}

#[test]
fn settings_for_build() {
    assert_eq!(Settings::for_build(true), Settings::debug());
    assert_eq!(Settings::for_build(false), Settings::release());
    assert!(Settings::debug().log_plugin && !Settings::debug().sidecar_autostart);
    assert!(!Settings::release().log_plugin && Settings::release().sidecar_autostart);
}

#[test]
fn phases_follow_the_steps() {
    let mut setup = Setup::new(Settings::release());
    assert_eq!(setup.phase, Phase::NotStarted);
    assert!(!setup.is_awaiting());
    setup.begin();
    assert_eq!(setup.phase, Phase::Awaiting(DIALOG));
    assert!(setup.is_awaiting());
    setup.advance(Outcome::Failed);
    assert_eq!(setup.phase, Phase::Aborted(SetupError::PluginRegistration(Plugin::Dialog)));
    assert!(!setup.is_awaiting());
}

#[test]
fn task_failures_and_notes() {
    assert_eq!(Task::SpawnSidecar.failure(), None);
    assert_eq!(Task::ResolveSidecar.failure(), Some(SetupError::SidecarCommand));
    assert_eq!(SHELL.failure(), Some(SetupError::PluginRegistration(Plugin::Shell)));
    assert_eq!(SHELL.note(Outcome::Failed), None);
    assert_eq!(Task::ResolveSidecar.note(Outcome::Succeeded), None);
    assert_eq!(Task::ResolveSidecar.note(Outcome::Failed), Some(Note::SidecarCommandFailed));
    assert_eq!(Task::SpawnSidecar.note(Outcome::Succeeded), Some(Note::SidecarSpawned));
    assert_eq!(Task::SpawnSidecar.note(Outcome::Failed), Some(Note::SidecarSpawnFailed));
}

#[test]
fn next_tasks_follow_the_order() {
    let r = Settings::release();
    let d = Settings::debug();
    assert_eq!(d.first_task(), LOG);
    assert_eq!(r.first_task(), DIALOG);
    assert_eq!(d.next_task(LOG), Some(DIALOG));
    assert_eq!(d.next_task(DIALOG), Some(SHELL));
    assert_eq!(d.next_task(SHELL), None);
    assert_eq!(r.next_task(SHELL), Some(Task::ResolveSidecar));
    assert_eq!(r.next_task(Task::ResolveSidecar), Some(Task::SpawnSidecar));
    assert_eq!(r.next_task(Task::SpawnSidecar), None);
}

#[test]
fn diagnostic_texts() {
    assert_eq!(Note::SidecarCommandFailed.headline(), "Failed to create sidecar command");
    assert_eq!(Note::SidecarSpawned.headline(), "Sidecar spawned successfully");
    assert_eq!(Note::SidecarSpawnFailed.headline(), "CRITICAL: Failed to spawn sidecar");
    assert!(Note::SidecarCommandFailed.has_detail());
    assert!(!Note::SidecarSpawned.has_detail());
    assert!(Note::SidecarSpawnFailed.has_detail());
    assert_eq!(Note::SidecarCommandFailed.stream(), Stream::Stderr);
}

#[test]
fn fixed_names() {
    assert_eq!(sidecar_name(), "web_server");
    assert_eq!(LOG_LEVEL, LogLevel::Info);
}
