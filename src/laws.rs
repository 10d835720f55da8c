//! What holds of every run of the bootstrap, whatever the outcomes reported.
use vstd::prelude::*;
use crate::bootstrap::{transition, ActionModel, Event, Phase, Stage, Warning};
use crate::location::{store_directory, DIRECTORY_MODE};
use crate::schema::{catalog_model, schema_sql};
use crate::settings::store_settings_spec;

verus! {

/// The final phase and the actions named when `events` are reported in turn,
/// starting in `phase`.
pub open spec fn run(location: Seq<char>, phase: Phase, events: Seq<Event>) -> (Phase, Seq<ActionModel>)
    decreases events.len(),
{
    if events.len() == 0 {
        (phase, Seq::empty())
    } else {
        let s = transition(location, phase, events[0]);
        let rest = run(location, s.phase, events.skip(1));
        (rest.0, seq![s.action] + rest.1)
    }
}

/// Every action of a bootstrap at `location` whose outcomes are `events`:
/// the probe, then one action per event.
pub open spec fn bootstrap_actions(location: Seq<char>, events: Seq<Event>) -> Seq<ActionModel> {
    seq![ActionModel::ProbeStore] + run(location, Phase::Probing, events).1
}

/// How many of the actions execute the schema.
pub open spec fn schema_count(actions: Seq<ActionModel>) -> nat
    decreases actions.len(),
{
    if actions.len() == 0 {
        0
    } else {
        (if actions[0] is ExecuteSchema {
            1nat
        } else {
            0nat
        }) + schema_count(actions.skip(1))
    }
}

/// The stage whose failure the event reports, if any.
pub open spec fn fatal_stage(event: Event) -> Option<Stage> {
    match event {
        Event::ProbeFailed => Some(Stage::Probe),
        Event::StoreFailed => Some(Stage::CreateStore),
        Event::PoolFailed => Some(Stage::OpenPool),
        Event::SchemaFailed => Some(Stage::CreateSchema),
        _ => None,
    }
}

/// Whether some later step may still execute the schema.
pub open spec fn schema_ahead(phase: Phase) -> bool {
    ||| phase == Phase::Probing
    ||| phase == Phase::PreparingDirectory
    ||| phase == Phase::CreatingStore
    ||| phase == (Phase::OpeningPool { fresh: true })
}

/// Whether the phase lies on the path of a store that already existed, or past
/// its end, where nothing more is created.
pub open spec fn creates_nothing(phase: Phase) -> bool {
    ||| phase == (Phase::OpeningPool { fresh: false })
    ||| phase == Phase::Ready
    ||| phase is Failed
}

proof fn lemma_run_cons(location: Seq<char>, phase: Phase, event: Event, rest: Seq<Event>)
    ensures
        run(location, phase, seq![event] + rest) == ({
            let s = transition(location, phase, event);
            let r = run(location, s.phase, rest);
            (r.0, seq![s.action] + r.1)
        }),
{
    assert((seq![event] + rest).skip(1) =~= rest);
}

proof fn lemma_run_len(location: Seq<char>, phase: Phase, events: Seq<Event>)
    ensures
        run(location, phase, events).1.len() == events.len(),
    decreases events.len(),
{
    if events.len() > 0 {
        let s = transition(location, phase, events[0]);
        lemma_run_len(location, s.phase, events.skip(1));
    }
}

proof fn lemma_schema_count_front(a: ActionModel, rest: Seq<ActionModel>)
    ensures
        schema_count(seq![a] + rest) == (if a is ExecuteSchema {
            1nat
        } else {
            0nat
        }) + schema_count(rest),
{
    assert((seq![a] + rest).skip(1) =~= rest);
}

proof fn lemma_schema_bound(location: Seq<char>, phase: Phase, events: Seq<Event>)
    ensures
        schema_count(run(location, phase, events).1) <= (if schema_ahead(phase) {
            1nat
        } else {
            0nat
        }),
    decreases events.len(),
{
    if events.len() > 0 {
        let s = transition(location, phase, events[0]);
        lemma_schema_bound(location, s.phase, events.skip(1));
        lemma_schema_count_front(s.action, run(location, s.phase, events.skip(1)).1);
    }
}

proof fn lemma_nothing_created(location: Seq<char>, phase: Phase, events: Seq<Event>)
    requires
        creates_nothing(phase),
    ensures
        forall|i: int|
            0 <= i < run(location, phase, events).1.len() ==> {
                let a = #[trigger] run(location, phase, events).1[i];
                !(a is CreateDirectory) && !(a is CreateStore) && !(a is ExecuteSchema)
            },
    decreases events.len(),
{
    if events.len() > 0 {
        let s = transition(location, phase, events[0]);
        lemma_nothing_created(location, s.phase, events.skip(1));
        let rest = run(location, s.phase, events.skip(1)).1;
        assert forall|i: int| 0 < i < 1 + rest.len() implies (seq![s.action] + rest)[i] == rest[i
            - 1] by {}
    }
}

proof fn lemma_pool_settings_run(location: Seq<char>, phase: Phase, events: Seq<Event>)
    ensures
        forall|i: int|
            0 <= i < run(location, phase, events).1.len() ==> (#[trigger] run(
                location,
                phase,
                events,
            ).1[i] matches ActionModel::OpenPool { settings } ==> settings == store_settings_spec()),
    decreases events.len(),
{
    if events.len() > 0 {
        let s = transition(location, phase, events[0]);
        lemma_pool_settings_run(location, s.phase, events.skip(1));
        let rest = run(location, s.phase, events.skip(1)).1;
        assert forall|i: int| 0 < i < 1 + rest.len() implies (seq![s.action] + rest)[i] == rest[i
            - 1] by {}
    }
}

proof fn lemma_errors_from_failures_run(location: Seq<char>, phase: Phase, events: Seq<Event>)
    ensures
        forall|i: int|
            0 <= i < run(location, phase, events).1.len() ==> (#[trigger] run(
                location,
                phase,
                events,
            ).1[i] matches ActionModel::ReturnError { stage } ==> i < events.len() && fatal_stage(
                events[i],
            ) == Some(stage)),
    decreases events.len(),
{
    if events.len() > 0 {
        let s = transition(location, phase, events[0]);
        lemma_errors_from_failures_run(location, s.phase, events.skip(1));
        lemma_run_len(location, s.phase, events.skip(1));
        let rest = run(location, s.phase, events.skip(1)).1;
        assert forall|i: int| 0 < i < 1 + rest.len() implies (seq![s.action] + rest)[i] == rest[i
            - 1] && events[i] == events.skip(1)[i - 1] by {}
    }
}

/// A bootstrap executes the statements that create the tables at most once,
/// whatever the outcomes reported to it.
pub proof fn lemma_schema_created_at_most_once(location: Seq<char>, events: Seq<Event>)
    ensures
        schema_count(bootstrap_actions(location, events)) <= 1,
{
    lemma_schema_bound(location, Phase::Probing, events);
    lemma_schema_count_front(ActionModel::ProbeStore, run(location, Phase::Probing, events).1);
}

/// Where no store exists and every step succeeds, the bootstrap creates the
/// directory (where the location has one), the store, opens the pool and
/// creates the tables of the catalog; a later bootstrap of the now existing
/// store only opens the pool, with the same settings.
pub proof fn lemma_fresh_then_existing(location: Seq<char>)
    ensures
        store_directory(location) matches Some(d) ==> bootstrap_actions(
            location,
            seq![
                Event::Probed { exists: false },
                Event::DirectoryCreated,
                Event::StoreCreated,
                Event::PoolOpened,
                Event::SchemaCreated,
            ],
        ) == seq![
            ActionModel::ProbeStore,
            ActionModel::CreateDirectory { path: d, mode: DIRECTORY_MODE },
            ActionModel::CreateStore,
            ActionModel::OpenPool { settings: store_settings_spec() },
            ActionModel::ExecuteSchema { sql: schema_sql(catalog_model()) },
            ActionModel::ReturnPool,
        ],
        store_directory(location) is None ==> bootstrap_actions(
            location,
            seq![
                Event::Probed { exists: false },
                Event::StoreCreated,
                Event::PoolOpened,
                Event::SchemaCreated,
            ],
        ) == seq![
            ActionModel::ProbeStore,
            ActionModel::CreateStore,
            ActionModel::OpenPool { settings: store_settings_spec() },
            ActionModel::ExecuteSchema { sql: schema_sql(catalog_model()) },
            ActionModel::ReturnPool,
        ],
        bootstrap_actions(location, seq![Event::Probed { exists: true }, Event::PoolOpened])
            == seq![
            ActionModel::ProbeStore,
            ActionModel::OpenPool { settings: store_settings_spec() },
            ActionModel::ReturnPool,
        ],
{
    let pf = Event::Probed { exists: false };
    let dc = Event::DirectoryCreated;
    let sc = Event::StoreCreated;
    let po = Event::PoolOpened;
    let cs = Event::SchemaCreated;
    let empty = Seq::<Event>::empty();
    lemma_run_cons(location, Phase::CreatingSchema, cs, empty);
    lemma_run_cons(location, Phase::OpeningPool { fresh: true }, po, seq![cs]);
    lemma_run_cons(location, Phase::CreatingStore, sc, seq![po, cs]);
    lemma_run_cons(location, Phase::PreparingDirectory, dc, seq![sc, po, cs]);
    lemma_run_cons(location, Phase::Probing, pf, seq![dc, sc, po, cs]);
    lemma_run_cons(location, Phase::Probing, pf, seq![sc, po, cs]);
    assert(seq![cs] =~= seq![cs] + empty);
    assert(seq![po, cs] =~= seq![po] + seq![cs]);
    assert(seq![sc, po, cs] =~= seq![sc] + seq![po, cs]);
    assert(seq![dc, sc, po, cs] =~= seq![dc] + seq![sc, po, cs]);
    assert(seq![pf, dc, sc, po, cs] =~= seq![pf] + seq![dc, sc, po, cs]);
    assert(seq![pf, sc, po, cs] =~= seq![pf] + seq![sc, po, cs]);
    if let Some(d) = store_directory(location) {
        assert(bootstrap_actions(location, seq![pf, dc, sc, po, cs]) =~= seq![
            ActionModel::ProbeStore,
            ActionModel::CreateDirectory { path: d, mode: DIRECTORY_MODE },
            ActionModel::CreateStore,
            ActionModel::OpenPool { settings: store_settings_spec() },
            ActionModel::ExecuteSchema { sql: schema_sql(catalog_model()) },
            ActionModel::ReturnPool,
        ]);
    } else {
        assert(bootstrap_actions(location, seq![pf, sc, po, cs]) =~= seq![
            ActionModel::ProbeStore,
            ActionModel::CreateStore,
            ActionModel::OpenPool { settings: store_settings_spec() },
            ActionModel::ExecuteSchema { sql: schema_sql(catalog_model()) },
            ActionModel::ReturnPool,
        ]);
    }
    let pt = Event::Probed { exists: true };
    lemma_run_cons(location, Phase::OpeningPool { fresh: false }, po, empty);
    lemma_run_cons(location, Phase::Probing, pt, seq![po]);
    assert(seq![po] =~= seq![po] + empty);
    assert(seq![pt, po] =~= seq![pt] + seq![po]);
    assert(bootstrap_actions(location, seq![pt, po]) =~= seq![
        ActionModel::ProbeStore,
        ActionModel::OpenPool { settings: store_settings_spec() },
        ActionModel::ReturnPool,
    ]);
}

/// Where the probe finds the store, the bootstrap creates no directory, no
/// store and no table, whatever the outcomes reported after: existing rows are
/// left as they are.
pub proof fn lemma_existing_store_untouched(location: Seq<char>, events: Seq<Event>)
    requires
        events.len() > 0,
        events[0] == (Event::Probed { exists: true }),
    ensures
        forall|i: int|
            0 <= i < bootstrap_actions(location, events).len() ==> {
                let a = #[trigger] bootstrap_actions(location, events)[i];
                !(a is CreateDirectory) && !(a is CreateStore) && !(a is ExecuteSchema)
            },
{
    let rest = events.skip(1);
    assert(events =~= seq![events[0]] + rest);
    lemma_run_cons(location, Phase::Probing, events[0], rest);
    lemma_nothing_created(location, Phase::OpeningPool { fresh: false }, rest);
    let tail = run(location, Phase::OpeningPool { fresh: false }, rest).1;
    let acts = bootstrap_actions(location, events);
    assert(acts =~= seq![ActionModel::ProbeStore, ActionModel::OpenPool { settings: store_settings_spec() }] + tail);
    assert forall|i: int| 2 <= i < acts.len() implies acts[i] == tail[i - 2] by {}
}

/// Any two bootstraps, of one location or two, new store or existing, open
/// their pools with the same settings: one connection at most, kept open
/// indefinitely, write-ahead journal, exclusive locking, a flush at each
/// transaction boundary.
pub proof fn lemma_same_pool_settings(
    location1: Seq<char>,
    events1: Seq<Event>,
    location2: Seq<char>,
    events2: Seq<Event>,
)
    ensures
        forall|i: int, j: int|
            0 <= i < bootstrap_actions(location1, events1).len() && 0 <= j < bootstrap_actions(
                location2,
                events2,
            ).len() ==> (#[trigger] bootstrap_actions(location1, events1)[i] matches ActionModel::OpenPool {
                settings: s1,
            } ==> (#[trigger] bootstrap_actions(location2, events2)[j] matches ActionModel::OpenPool {
                settings: s2,
            } ==> s1 == s2 && s1 == store_settings_spec() && s1.max_connections == 1)),
{
    lemma_pool_settings_run(location1, Phase::Probing, events1);
    lemma_pool_settings_run(location2, Phase::Probing, events2);
    let t1 = run(location1, Phase::Probing, events1).1;
    let t2 = run(location2, Phase::Probing, events2).1;
    assert forall|i: int| 1 <= i < 1 + t1.len() implies bootstrap_actions(location1, events1)[i]
        == t1[i - 1] by {}
    assert forall|j: int| 1 <= j < 1 + t2.len() implies bootstrap_actions(location2, events2)[j]
        == t2[j - 1] by {}
}

/// The bootstrap ends in an error only right after a fatal failure is
/// reported, and the error names the step that failed: the probe, the store's
/// creation, the pool's opening, or the creation of the tables.
pub proof fn lemma_errors_only_from_fatal_steps(location: Seq<char>, events: Seq<Event>)
    ensures
        bootstrap_actions(location, events).len() == events.len() + 1,
        forall|i: int|
            0 <= i < events.len() ==> (#[trigger] bootstrap_actions(location, events)[i + 1] matches ActionModel::ReturnError {
                stage,
            } ==> fatal_stage(events[i]) == Some(stage)),
{
    lemma_run_len(location, Phase::Probing, events);
    lemma_errors_from_failures_run(location, Phase::Probing, events);
    let t = run(location, Phase::Probing, events).1;
    assert forall|i: int| 0 <= i < t.len() implies bootstrap_actions(location, events)[i + 1]
        == t[i] by {}
}

/// A directory that cannot be created is no reason to stop: after the probe
/// finds no store and the directory fails, the next action creates the store,
/// with a warning.
pub proof fn lemma_directory_failure_not_fatal(location: Seq<char>)
    ensures
        transition(location, Phase::PreparingDirectory, Event::DirectoryFailed).action
            == ActionModel::CreateStore,
        transition(location, Phase::PreparingDirectory, Event::DirectoryFailed).warning
            == Some(Warning::DirectoryNotCreated),
        run(location, Phase::Probing, seq![Event::Probed { exists: false }, Event::DirectoryFailed]).0
            == Phase::CreatingStore,
        store_directory(location) matches Some(d) ==> bootstrap_actions(
            location,
            seq![Event::Probed { exists: false }, Event::DirectoryFailed],
        ) == seq![
            ActionModel::ProbeStore,
            ActionModel::CreateDirectory { path: d, mode: DIRECTORY_MODE },
            ActionModel::CreateStore,
        ],
        store_directory(location) is None ==> bootstrap_actions(
            location,
            seq![Event::Probed { exists: false }, Event::DirectoryFailed],
        ) == seq![ActionModel::ProbeStore, ActionModel::CreateStore, ActionModel::Wait],
{
    let pf = Event::Probed { exists: false };
    let df = Event::DirectoryFailed;
    let empty = Seq::<Event>::empty();
    let after_probe = transition(location, Phase::Probing, pf).phase;
    lemma_run_cons(location, after_probe, df, empty);
    lemma_run_cons(location, Phase::Probing, pf, seq![df]);
    assert(seq![df] =~= seq![df] + empty);
    assert(seq![pf, df] =~= seq![pf] + seq![df]);
    if let Some(d) = store_directory(location) {
        assert(bootstrap_actions(location, seq![pf, df]) =~= seq![
            ActionModel::ProbeStore,
            ActionModel::CreateDirectory { path: d, mode: DIRECTORY_MODE },
            ActionModel::CreateStore,
        ]);
    } else {
        assert(bootstrap_actions(location, seq![pf, df]) =~= seq![
            ActionModel::ProbeStore,
            ActionModel::CreateStore,
            ActionModel::Wait,
        ]);
    }
}

} // verus!
