use vstd::prelude::*;

use crate::setup::{
    first_task, transition, LogLevel, Note, Outcome, Phase, Plugin, SetupError,
    Settings, Stream, Task,
};

verus! {

/// The diagnostic of a step as a sequence of at most one line.
pub open spec fn lines(n: Option<Note>) -> Seq<Note> {
    match n {
        Some(x) => seq![x],
        None => Seq::empty(),
    }
}

/// What the host sees from `p` on when the tasks it is asked for end with
/// `outcomes`, in order: the tasks it is asked for (the last one possibly
/// still pending), the diagnostic lines it writes, and the phase reached.
pub open spec fn run_from(s: Settings, p: Phase, outcomes: Seq<Outcome>) -> (
    Seq<Task>,
    Seq<Note>,
    Phase,
)
    decreases outcomes.len(),
{
    match p {
        Phase::Awaiting(t) => if outcomes.len() == 0 {
            (seq![t], Seq::empty(), p)
        } else {
            let (q, st) = transition(s, t, outcomes[0]);
            let rest = run_from(s, q, outcomes.drop_first());
            (seq![t] + rest.0, lines(st.note) + rest.1, rest.2)
        },
        _ => (Seq::empty(), Seq::empty(), p),
    }
}

/// A whole set-up under `s`, from `Setup::begin` on.
pub open spec fn session(s: Settings, outcomes: Seq<Outcome>) -> (Seq<Task>, Seq<Note>, Phase) {
    run_from(s, Phase::Awaiting(first_task(s)), outcomes)
}

/// Whether `t` can be asked for at all under `s`.
pub open spec fn in_plan(s: Settings, t: Task) -> bool {
    match t {
        Task::Register(Plugin::Log { level }) => s.log_plugin && level == LogLevel::Info,
        Task::Register(_) => true,
        _ => s.sidecar_autostart,
    }
}

/// Position of a task in the order in which set-up asks for them.
pub open spec fn rank(t: Task) -> int {
    match t {
        Task::Register(Plugin::Log { .. }) => 0,
        Task::Register(Plugin::Dialog) => 1,
        Task::Register(Plugin::Shell) => 2,
        Task::ResolveSidecar => 3,
        Task::SpawnSidecar => 4,
    }
}

/// How many plugins are registered under `s`.
pub open spec fn plugin_count(s: Settings) -> int {
    if s.log_plugin {
        3
    } else {
        2
    }
}

proof fn lemma_run_in_order(s: Settings, t: Task, outcomes: Seq<Outcome>)
    requires
        in_plan(s, t),
    ensures
        ({
            let tasks = run_from(s, Phase::Awaiting(t), outcomes).0;
            &&& forall|i: int| 0 <= i < tasks.len() ==> in_plan(s, #[trigger] tasks[i])
            &&& forall|i: int| 0 <= i < tasks.len() ==> rank(t) <= rank(#[trigger] tasks[i])
            &&& forall|i: int, j: int|
                0 <= i < j < tasks.len() ==> rank(#[trigger] tasks[i]) < rank(#[trigger] tasks[j])
        }),
    decreases outcomes.len(),
{
    if outcomes.len() > 0 {
        let (q, st) = transition(s, t, outcomes[0]);
        let rest = outcomes.drop_first();
        let tasks = run_from(s, Phase::Awaiting(t), outcomes).0;
        match q {
            Phase::Awaiting(n) => {
                lemma_run_in_order(s, n, rest);
                let later = run_from(s, q, rest).0;
                assert(tasks == seq![t] + later);
                assert forall|i: int, j: int| 0 <= i < j < tasks.len() implies rank(
                    #[trigger] tasks[i],
                ) < rank(#[trigger] tasks[j]) by {
                    if i > 0 {
                        assert(tasks[i] == later[i - 1]);
                    }
                    assert(tasks[j] == later[j - 1]);
                }
                assert forall|i: int| 0 <= i < tasks.len() implies in_plan(s, #[trigger] tasks[i])
                    && rank(t) <= rank(tasks[i]) by {
                    if i > 0 {
                        assert(tasks[i] == later[i - 1]);
                    }
                }
            },
            _ => {
                assert(run_from(s, q, rest).0 =~= Seq::<Task>::empty());
                assert(tasks =~= seq![t]);
            },
        }
    } else {
        assert(run_from(s, Phase::Awaiting(t), outcomes).0 =~= seq![t]);
    }
}

/// Tasks are asked for in a fixed order, each one at most once, and only
/// those that the settings call for.
pub proof fn lemma_session_in_order(s: Settings, outcomes: Seq<Outcome>)
    ensures
        ({
            let tasks = session(s, outcomes).0;
            &&& forall|i: int| 0 <= i < tasks.len() ==> in_plan(s, #[trigger] tasks[i])
            &&& forall|i: int, j: int|
                0 <= i < j < tasks.len() ==> rank(#[trigger] tasks[i]) < rank(#[trigger] tasks[j])
            &&& forall|i: int, j: int|
                0 <= i < tasks.len() && 0 <= j < tasks.len() && #[trigger] tasks[i]
                    == #[trigger] tasks[j] ==> i == j
        }),
{
    lemma_run_in_order(s, first_task(s), outcomes);
    let tasks = session(s, outcomes).0;
    assert forall|i: int, j: int|
        0 <= i < tasks.len() && 0 <= j < tasks.len() && #[trigger] tasks[i]
            == #[trigger] tasks[j] implies i == j by {
        if i < j {
            assert(rank(tasks[i]) < rank(tasks[j]));
        } else if j < i {
            assert(rank(tasks[j]) < rank(tasks[i]));
        }
    }
}

/// With the logging plugin on, its registration is the first task, and its
/// failure ends set-up with an error.
pub proof fn lemma_logging_registered_first(s: Settings, outcomes: Seq<Outcome>)
    requires
        s.log_plugin,
    ensures
        session(s, outcomes).0.len() > 0,
        session(s, outcomes).0[0] == Task::Register(Plugin::Log { level: LogLevel::Info }),
        outcomes.len() > 0 && outcomes[0] == Outcome::Failed ==> session(s, outcomes).2
            == Phase::Aborted(SetupError::PluginRegistration(Plugin::Log { level: LogLevel::Info })),
{
    if outcomes.len() > 0 && outcomes[0] == Outcome::Failed {
        let (q, st) = transition(s, first_task(s), outcomes[0]);
        assert(run_from(s, q, outcomes.drop_first()).2 == q);
    }
}

/// Without sidecar autostart the sidecar is neither resolved nor spawned.
pub proof fn lemma_no_sidecar_without_autostart(s: Settings, outcomes: Seq<Outcome>)
    requires
        !s.sidecar_autostart,
    ensures
        forall|i: int|
            0 <= i < session(s, outcomes).0.len() ==> #[trigger] session(s, outcomes).0[i]
                != Task::ResolveSidecar && session(s, outcomes).0[i] != Task::SpawnSidecar,
{
    lemma_session_in_order(s, outcomes);
}

/// With the logging plugin off, its registration is never asked for.
pub proof fn lemma_no_logging_plugin_when_off(s: Settings, outcomes: Seq<Outcome>)
    requires
        !s.log_plugin,
    ensures
        forall|i: int|
            0 <= i < session(s, outcomes).0.len() ==> !(#[trigger] session(s, outcomes).0[i] matches Task::Register(Plugin::Log { .. })),
{
    lemma_session_in_order(s, outcomes);
}

/// With sidecar autostart, once the plugins are registered the sidecar's
/// command is resolved exactly once; a failure there ends set-up with an
/// error and one line on standard error.
pub proof fn lemma_sidecar_resolved_once(s: Settings, outcomes: Seq<Outcome>)
    requires
        s.sidecar_autostart,
        outcomes.len() >= plugin_count(s),
        forall|i: int| 0 <= i < plugin_count(s) ==> outcomes[i] == Outcome::Succeeded,
    ensures
        ({
            let (tasks, notes, end) = session(s, outcomes);
            let k = plugin_count(s);
            &&& k < tasks.len()
            &&& tasks[k] == Task::ResolveSidecar
            &&& forall|j: int| 0 <= j < tasks.len() && j != k ==> tasks[j] != Task::ResolveSidecar
            &&& outcomes.len() > k && outcomes[k] == Outcome::Failed ==> {
                &&& end == Phase::Aborted(SetupError::SidecarCommand)
                &&& notes == seq![Note::SidecarCommandFailed]
                &&& Note::SidecarCommandFailed.stream_spec() == Stream::Stderr
            }
        }),
{
    reveal_with_fuel(run_from, 6);
    lemma_session_in_order(s, outcomes);
    let (tasks, notes, end) = session(s, outcomes);
    let k = plugin_count(s);
    assert(tasks[k] == Task::ResolveSidecar);
    if outcomes.len() > k && outcomes[k] == Outcome::Failed {
        assert(notes =~= seq![Note::SidecarCommandFailed]);
    }
}

/// With sidecar autostart, a sidecar that cannot be spawned does not stop
/// set-up: it completes, with one line on standard error that starts with
/// `CRITICAL`.
pub proof fn lemma_spawn_failure_not_fatal(s: Settings, outcomes: Seq<Outcome>)
    requires
        s.sidecar_autostart,
        outcomes.len() >= plugin_count(s) + 2,
        forall|i: int| 0 <= i <= plugin_count(s) ==> outcomes[i] == Outcome::Succeeded,
        outcomes[plugin_count(s) + 1] == Outcome::Failed,
    ensures
        session(s, outcomes).2 == Phase::Completed,
        session(s, outcomes).1 == seq![Note::SidecarSpawnFailed],
        Note::SidecarSpawnFailed.stream_spec() == Stream::Stderr,
        Note::SidecarSpawnFailed.headline_spec().subrange(0, 8) == "CRITICAL"@,
{
    reveal_with_fuel(run_from, 7);
    reveal_strlit("CRITICAL");
    reveal_strlit("CRITICAL: Failed to spawn sidecar");
    assert(session(s, outcomes).1 =~= seq![Note::SidecarSpawnFailed]);
    assert(Note::SidecarSpawnFailed.headline_spec().subrange(0, 8) =~= "CRITICAL"@);
}

/// With sidecar autostart and every task succeeding, exactly one child
/// process is spawned, as the last task; set-up completes with one line on
/// standard output.
pub proof fn lemma_sidecar_spawned_once(s: Settings, outcomes: Seq<Outcome>)
    requires
        s.sidecar_autostart,
        outcomes.len() >= plugin_count(s) + 2,
        forall|i: int| 0 <= i <= plugin_count(s) + 1 ==> outcomes[i] == Outcome::Succeeded,
    ensures
        ({
            let (tasks, notes, end) = session(s, outcomes);
            let k = plugin_count(s) + 1;
            &&& tasks.len() == k + 1
            &&& tasks[k] == Task::SpawnSidecar
            &&& forall|j: int| 0 <= j < k ==> tasks[j] != Task::SpawnSidecar
            &&& end == Phase::Completed
            &&& notes == seq![Note::SidecarSpawned]
            &&& Note::SidecarSpawned.stream_spec() == Stream::Stdout
        }),
{
    reveal_with_fuel(run_from, 7);
    lemma_session_in_order(s, outcomes);
    let (tasks, notes, end) = session(s, outcomes);
    assert(notes =~= seq![Note::SidecarSpawned]);
}

} // verus!
