//! The bootstrap sequence as a state machine.
//!
//! The sequence is: probe for an existing store; where none exists, create its
//! directory, create the store, open the pool and create the tables; where one
//! exists, only open the pool. The machine holds the decisions. Whoever drives
//! it performs each `Action` it names and reports the outcome as an `Event`.
use vstd::prelude::*;
use crate::location::{directory_to_create, store_directory, DIRECTORY_MODE};
use crate::schema::{catalog_model, create_schema_sql, schema_sql};
use crate::settings::{store_settings, store_settings_spec, PoolSettings};

verus! {

/// A step whose failure ends the bootstrap with an error.
#[derive(Clone, Copy, Debug, PartialEq, Eq, Structural)]
pub enum Stage {
    Probe,
    CreateStore,
    OpenPool,
    CreateSchema,
}

/// Where the bootstrap stands.
#[derive(Clone, Copy, Debug, PartialEq, Eq, Structural)]
pub enum Phase {
    /// Waiting to learn whether the store exists.
    Probing,
    /// Waiting for the store's directory to be created.
    PreparingDirectory,
    /// Waiting for the store to be created.
    CreatingStore,
    /// Waiting for the pool to open; `fresh` where the store was just created.
    OpeningPool { fresh: bool },
    /// Waiting for the tables to be created.
    CreatingSchema,
    /// The pool is ready for the caller.
    Ready,
    /// The bootstrap failed at `stage`.
    Failed { stage: Stage },
}

/// The outcome of the action last performed.
#[derive(Clone, Copy, Debug, PartialEq, Eq, Structural)]
pub enum Event {
    Probed { exists: bool },
    ProbeFailed,
    DirectoryCreated,
    DirectoryFailed,
    StoreCreated,
    StoreFailed,
    PoolOpened,
    PoolFailed,
    SchemaCreated,
    SchemaFailed,
}

/// A condition worth a warning that does not stop the bootstrap.
#[derive(Clone, Copy, Debug, PartialEq, Eq, Structural)]
pub enum Warning {
    /// No directory can be derived from the location; none is created.
    NoParentDirectory,
    /// The store's directory could not be created; the store may still be.
    DirectoryNotCreated,
}

/// What to perform next.
#[derive(Debug)]
pub enum Action {
    /// Find out, without side effects, whether the store exists.
    ProbeStore,
    /// Create `path` and any missing ancestors, with permission bits `mode`
    /// where the platform has them.
    CreateDirectory { path: String, mode: u32 },
    /// Create the store.
    CreateStore,
    /// Open a pool on the store with these settings.
    OpenPool { settings: PoolSettings },
    /// Execute these statements on the pool.
    ExecuteSchema { sql: String },
    /// Hand the pool to the caller.
    ReturnPool,
    /// Hand the error of `stage` to the caller.
    ReturnError { stage: Stage },
    /// Nothing: the event did not answer the pending action.
    Wait,
}

pub enum ActionModel {
    ProbeStore,
    CreateDirectory { path: Seq<char>, mode: u32 },
    CreateStore,
    OpenPool { settings: PoolSettings },
    ExecuteSchema { sql: Seq<char> },
    ReturnPool,
    ReturnError { stage: Stage },
    Wait,
}

impl View for Action {
    type V = ActionModel;

    open spec fn view(&self) -> ActionModel {
        match self {
            Action::ProbeStore => ActionModel::ProbeStore,
            Action::CreateDirectory { path, mode } => ActionModel::CreateDirectory {
                path: path@,
                mode: *mode,
            },
            Action::CreateStore => ActionModel::CreateStore,
            Action::OpenPool { settings } => ActionModel::OpenPool { settings: *settings },
            Action::ExecuteSchema { sql } => ActionModel::ExecuteSchema { sql: sql@ },
            Action::ReturnPool => ActionModel::ReturnPool,
            Action::ReturnError { stage } => ActionModel::ReturnError { stage: *stage },
            Action::Wait => ActionModel::Wait,
        }
    }
}

/// The answer to an event: the next action, and a warning to log, if any.
#[derive(Debug)]
pub struct Step {
    pub action: Action,
    pub warning: Option<Warning>,
}

pub struct StepModel {
    pub phase: Phase,
    pub action: ActionModel,
    pub warning: Option<Warning>,
}

pub open spec fn step_model(phase: Phase, action: ActionModel, warning: Option<Warning>) -> StepModel {
    StepModel { phase, action, warning }
}

/// What follows a probe that found no store: the directory, where one can be
/// derived from the location, else the store itself, with a warning.
pub open spec fn after_absent_probe(location: Seq<char>) -> StepModel {
    match store_directory(location) {
        Some(d) => step_model(
            Phase::PreparingDirectory,
            ActionModel::CreateDirectory { path: d, mode: DIRECTORY_MODE },
            None,
        ),
        None => step_model(
            Phase::CreatingStore,
            ActionModel::CreateStore,
            Some(Warning::NoParentDirectory),
        ),
    }
}

pub open spec fn failure(stage: Stage) -> StepModel {
    step_model(Phase::Failed { stage }, ActionModel::ReturnError { stage }, None)
}

pub open spec fn open_pool(fresh: bool) -> StepModel {
    step_model(
        Phase::OpeningPool { fresh },
        ActionModel::OpenPool { settings: store_settings_spec() },
        None,
    )
}

/// The step that answers `event` in `phase`, for a store at `location`. An
/// event that does not answer the pending action changes nothing.
pub open spec fn transition(location: Seq<char>, phase: Phase, event: Event) -> StepModel {
    let unchanged = step_model(phase, ActionModel::Wait, None);
    match phase {
        Phase::Probing => match event {
            Event::Probed { exists } => if exists {
                open_pool(false)
            } else {
                after_absent_probe(location)
            },
            Event::ProbeFailed => failure(Stage::Probe),
            _ => unchanged,
        },
        Phase::PreparingDirectory => match event {
            Event::DirectoryCreated => step_model(Phase::CreatingStore, ActionModel::CreateStore, None),
            Event::DirectoryFailed => step_model(
                Phase::CreatingStore,
                ActionModel::CreateStore,
                Some(Warning::DirectoryNotCreated),
            ),
            _ => unchanged,
        },
        Phase::CreatingStore => match event {
            Event::StoreCreated => open_pool(true),
            Event::StoreFailed => failure(Stage::CreateStore),
            _ => unchanged,
        },
        Phase::OpeningPool { fresh } => match event {
            Event::PoolOpened => if fresh {
                step_model(
                    Phase::CreatingSchema,
                    ActionModel::ExecuteSchema { sql: schema_sql(catalog_model()) },
                    None,
                )
            } else {
                step_model(Phase::Ready, ActionModel::ReturnPool, None)
            },
            Event::PoolFailed => failure(Stage::OpenPool),
            _ => unchanged,
        },
        Phase::CreatingSchema => match event {
            Event::SchemaCreated => step_model(Phase::Ready, ActionModel::ReturnPool, None),
            Event::SchemaFailed => failure(Stage::CreateSchema),
            _ => unchanged,
        },
        Phase::Ready => unchanged,
        Phase::Failed { .. } => unchanged,
    }
}

/// The bootstrap of the store at one location.
pub struct Bootstrap {
    location: String,
    phase: Phase,
}

pub struct BootstrapModel {
    pub location: Seq<char>,
    pub phase: Phase,
}

impl View for Bootstrap {
    type V = BootstrapModel;

    closed spec fn view(&self) -> BootstrapModel {
        BootstrapModel { location: self.location@, phase: self.phase }
    }
}

impl Bootstrap {
    /// Begins the bootstrap of the store at `location`; the first action is
    /// the probe.
    pub fn start(location: &str) -> (r: (Bootstrap, Action))
        ensures
            r.0@.location == location@,
            r.0@.phase == Phase::Probing,
            r.1@ == ActionModel::ProbeStore,
    {
        (Bootstrap { location: String::from_str(location), phase: Phase::Probing }, Action::ProbeStore)
    }

    /// Where the bootstrap stands.
    pub fn phase(&self) -> (r: Phase)
        ensures
            r == self@.phase,
    {
        self.phase
    }

    fn open_pool(&mut self, fresh: bool) -> (r: Step)
        ensures
            final(self)@.location == old(self)@.location,
            (step_model(final(self)@.phase, r.action@, r.warning)) == open_pool(fresh),
    {
        self.phase = Phase::OpeningPool { fresh };
        Step { action: Action::OpenPool { settings: store_settings() }, warning: None }
    }

    fn fail(&mut self, stage: Stage) -> (r: Step)
        ensures
            final(self)@.location == old(self)@.location,
            (step_model(final(self)@.phase, r.action@, r.warning)) == failure(stage),
    {
        self.phase = Phase::Failed { stage };
        Step { action: Action::ReturnError { stage }, warning: None }
    }

    fn advance(&mut self, phase: Phase, action: Action, warning: Option<Warning>) -> (r: Step)
        ensures
            final(self)@.location == old(self)@.location,
            final(self)@.phase == phase,
            r.action@ == action@,
            r.warning == warning,
    {
        self.phase = phase;
        Step { action, warning }
    }

    /// Takes the outcome of the last action and names the next one.
    pub fn step(&mut self, event: Event) -> (r: Step)
        ensures
            final(self)@.location == old(self)@.location,
            (step_model(final(self)@.phase, r.action@, r.warning)) == transition(
                old(self)@.location,
                old(self)@.phase,
                event,
            ),
    {
        let unchanged = Step { action: Action::Wait, warning: None };
        match self.phase {
            Phase::Probing => match event {
                Event::Probed { exists } => {
                    if exists {
                        self.open_pool(false)
                    } else {
                        match directory_to_create(self.location.as_str()) {
                            Some(d) => self.advance(
                                Phase::PreparingDirectory,
                                Action::CreateDirectory { path: d, mode: DIRECTORY_MODE },
                                None,
                            ),
                            None => self.advance(
                                Phase::CreatingStore,
                                Action::CreateStore,
                                Some(Warning::NoParentDirectory),
                            ),
                        }
                    }
                },
                Event::ProbeFailed => self.fail(Stage::Probe),
                _ => unchanged,
            },
            Phase::PreparingDirectory => match event {
                Event::DirectoryCreated => self.advance(Phase::CreatingStore, Action::CreateStore, None),
                Event::DirectoryFailed => self.advance(
                    Phase::CreatingStore,
                    Action::CreateStore,
                    Some(Warning::DirectoryNotCreated),
                ),
                _ => unchanged,
            },
            Phase::CreatingStore => match event {
                Event::StoreCreated => self.open_pool(true),
                Event::StoreFailed => self.fail(Stage::CreateStore),
                _ => unchanged,
            },
            Phase::OpeningPool { fresh } => match event {
                Event::PoolOpened => {
                    if fresh {
                        let sql = create_schema_sql();
                        self.advance(Phase::CreatingSchema, Action::ExecuteSchema { sql }, None)
                    } else {
                        self.advance(Phase::Ready, Action::ReturnPool, None)
                    }
                },
                Event::PoolFailed => self.fail(Stage::OpenPool),
                _ => unchanged,
            },
            Phase::CreatingSchema => match event {
                Event::SchemaCreated => self.advance(Phase::Ready, Action::ReturnPool, None),
                Event::SchemaFailed => self.fail(Stage::CreateSchema),
                _ => unchanged,
            },
            Phase::Ready => unchanged,
            Phase::Failed { .. } => unchanged,
        }
    }
}

} // verus!
