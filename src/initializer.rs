//! Start-up of the database as a state machine: it decides between the
//! local-only and the cloud-synced database, quarantines a database whose
//! sync state conflicts with the remote, and falls back to local-only on any
//! other failure. The embedding application performs each action and reports
//! what happened as the next event.

use vstd::prelude::*;
use crate::layout::{DbFiles, FileOp, FileOpModel, quarantine_ops, lemma_quarantine_effect,
    apply_ops, legacy_name, wal_name, shm_name, sync_dir_name};
use crate::sync_config::{SyncConfig, sync_requested};
use crate::text::{concat, contains, has_substring};
use crate::validator::{
    ProbeOutcome, ProbeRequest, ProbeView, classify_probe, probe_for, probe_verdict,
    scheme_accepted, validation_request,
};

verus! {

/// Where start-up stands.
#[derive(PartialEq, Eq, Structural, Clone, Copy)]
pub enum InitPhase {
    /// Nothing done yet.
    Start,
    /// Waiting for the credential probe.
    Probing,
    /// Waiting for the synced database to connect and sync.
    Connecting,
    /// Waiting for the quarantine of a conflicting database.
    Recovering,
    /// Waiting for the one retry of the synced database.
    Reconnecting,
    /// Waiting for the local database to open.
    OpeningLocal,
    /// Waiting for the schema migration.
    Migrating,
    /// Start-up finished; the connection is published.
    Ready,
    /// Start-up failed for good.
    Failed,
}

/// What the application reports back.
pub enum InitEvent {
    /// Start-up begins.
    Begin,
    /// The credential probe came back.
    ProbeAnswered(ProbeOutcome),
    /// The synced database was built, connected and synced once.
    SyncedReady,
    /// Building, connecting or the first sync failed, with the engine's message.
    SyncedFailed(String),
    /// The quarantine steps were carried out.
    QuarantineDone,
    /// The local database was opened and connected.
    LocalReady,
    /// Building the local database failed, with the engine's message.
    LocalBuildFailed(String),
    /// Connecting to the local database failed, with the engine's message.
    LocalConnectFailed(String),
    /// The schema migration finished.
    MigrationDone,
    /// The schema migration failed, with what the failed statement reports.
    MigrationFailed(String),
}

/// What the application is to do next.
pub enum InitAction {
    /// Open (or create) the local-only database file and connect to it.
    OpenLocal,
    /// Send this credential probe.
    Probe(ProbeRequest),
    /// Build the synced database with these credentials, connect, and sync once.
    ConnectSynced { url: String, token: String },
    /// Carry out these file-system steps, in order.
    Quarantine(Vec<FileOp>),
    /// Run the schema migration on the live connection.
    Migrate,
    /// Publish the connection, with whether cloud sync is live and its URL.
    Publish { sync_enabled: bool, sync_url: String },
    /// Give up with this message.
    Fail(String),
    /// The event does not belong to this phase; nothing to do.
    Idle,
}

/// An action, over character sequences.
pub enum ActionModel {
    OpenLocal,
    Probe(ProbeView),
    ConnectSynced { url: Seq<char>, token: Seq<char> },
    Quarantine(Seq<FileOpModel>),
    Migrate,
    Publish { sync_enabled: bool, sync_url: Seq<char> },
    Fail(Seq<char>),
    Idle,
}

impl View for InitAction {
    type V = ActionModel;

    open spec fn view(&self) -> ActionModel {
        match self {
            InitAction::OpenLocal => ActionModel::OpenLocal,
            InitAction::Probe(r) => ActionModel::Probe(r@),
            InitAction::ConnectSynced { url, token } => ActionModel::ConnectSynced {
                url: url@,
                token: token@,
            },
            InitAction::Quarantine(ops) => ActionModel::Quarantine(
                ops@.map_values(|o: FileOp| o@),
            ),
            InitAction::Migrate => ActionModel::Migrate,
            InitAction::Publish { sync_enabled, sync_url } => ActionModel::Publish {
                sync_enabled: *sync_enabled,
                sync_url: sync_url@,
            },
            InitAction::Fail(m) => ActionModel::Fail(m@),
            InitAction::Idle => ActionModel::Idle,
        }
    }
}

/// The start-up state machine.
pub struct Initializer {
    phase: InitPhase,
    files: DbFiles,
    url: String,
    token: String,
    cloud: bool,
}

/// The state of start-up: the phase, the database file name, the stored
/// credentials (empty when there are none) and whether a synced database is
/// live.
pub struct InitView {
    pub phase: InitPhase,
    pub file: Seq<char>,
    pub url: Seq<char>,
    pub token: Seq<char>,
    pub cloud: bool,
}

impl View for Initializer {
    type V = InitView;

    closed spec fn view(&self) -> InitView {
        InitView {
            phase: self.phase,
            file: self.files.file_name@,
            url: self.url@,
            token: self.token@,
            cloud: self.cloud,
        }
    }
}

/// The engine's message tells of a conflict between the local sync state
/// and the remote: a generation mismatch, a conflict reported by the
/// server, or missing or invalid sync metadata.
pub open spec fn conflict_message(m: Seq<char>) -> bool {
    has_substring(m, "local state is incorrect"@) || has_substring(m, "invalid local state"@)
        || has_substring(m, "server returned a conflict"@) || has_substring(
        m,
        "Generation ID mismatch"@,
    ) || has_substring(m, "mismatch"@) || has_substring(m, "metadata file does not"@)
}

/// Start-up before anything was done, for the given file and stored
/// credentials (`None` when there is no sidecar file).
pub open spec fn initial_view(file: Seq<char>, config: Option<(Seq<char>, Seq<char>)>) -> InitView {
    InitView {
        phase: InitPhase::Start,
        file,
        url: match config {
            Some(c) => c.0,
            None => seq![],
        },
        token: match config {
            Some(c) => c.1,
            None => seq![],
        },
        cloud: false,
    }
}

/// The fallback: open the local database, with no synced database live.
pub open spec fn go_local(v: InitView) -> (InitView, ActionModel) {
    (InitView { phase: InitPhase::OpeningLocal, cloud: false, ..v }, ActionModel::OpenLocal)
}

/// One step of start-up: the next state and the action for an event.
pub open spec fn init_step(v: InitView, e: InitEvent) -> (InitView, ActionModel) {
    match (v.phase, e) {
        (InitPhase::Start, InitEvent::Begin) => {
            if sync_requested(v.url, v.token) && scheme_accepted(v.url) {
                (
                    InitView { phase: InitPhase::Probing, ..v },
                    ActionModel::Probe(probe_for(v.url, v.token)),
                )
            } else {
                go_local(v)
            }
        },
        (InitPhase::Probing, InitEvent::ProbeAnswered(o)) => {
            if probe_verdict(o) is Ok {
                (
                    InitView { phase: InitPhase::Connecting, ..v },
                    ActionModel::ConnectSynced { url: v.url, token: v.token },
                )
            } else {
                go_local(v)
            }
        },
        (InitPhase::Connecting, InitEvent::SyncedReady) | (
            InitPhase::Reconnecting,
            InitEvent::SyncedReady,
        ) => (InitView { phase: InitPhase::Migrating, cloud: true, ..v }, ActionModel::Migrate),
        (InitPhase::Connecting, InitEvent::SyncedFailed(m)) => {
            if conflict_message(m@) {
                (
                    InitView { phase: InitPhase::Recovering, ..v },
                    ActionModel::Quarantine(quarantine_ops(v.file)),
                )
            } else {
                go_local(v)
            }
        },
        (InitPhase::Recovering, InitEvent::QuarantineDone) => (
            InitView { phase: InitPhase::Reconnecting, ..v },
            ActionModel::ConnectSynced { url: v.url, token: v.token },
        ),
        (InitPhase::Reconnecting, InitEvent::SyncedFailed(_)) => go_local(v),
        (InitPhase::OpeningLocal, InitEvent::LocalReady) => (
            InitView { phase: InitPhase::Migrating, cloud: false, ..v },
            ActionModel::Migrate,
        ),
        (InitPhase::OpeningLocal, InitEvent::LocalBuildFailed(m)) => (
            InitView { phase: InitPhase::Failed, ..v },
            ActionModel::Fail("Failed to build local db: "@ + m@),
        ),
        (InitPhase::OpeningLocal, InitEvent::LocalConnectFailed(m)) => (
            InitView { phase: InitPhase::Failed, ..v },
            ActionModel::Fail("Failed to connect: "@ + m@),
        ),
        (InitPhase::Migrating, InitEvent::MigrationDone) => (
            InitView { phase: InitPhase::Ready, ..v },
            ActionModel::Publish {
                sync_enabled: v.cloud,
                sync_url: if v.cloud {
                    v.url
                } else {
                    seq![]
                },
            },
        ),
        (InitPhase::Migrating, InitEvent::MigrationFailed(m)) => (
            InitView { phase: InitPhase::Failed, ..v },
            ActionModel::Fail(m@),
        ),
        _ => (v, ActionModel::Idle),
    }
}

/// The actions of start-up in answer to a sequence of events.
pub open spec fn run_actions(v: InitView, events: Seq<InitEvent>) -> Seq<ActionModel>
    decreases events.len(),
{
    if events.len() == 0 {
        seq![]
    } else {
        let (v1, a) = init_step(v, events[0]);
        seq![a] + run_actions(v1, events.skip(1))
    }
}

/// The action goes to the network or touches files: a probe, a synced
/// connection or a quarantine.
pub open spec fn leaves_local(a: ActionModel) -> bool {
    a is Probe || a is ConnectSynced || a is Quarantine
}

/// The action publishes the connection with cloud sync reported on.
pub open spec fn publishes_cloud(a: ActionModel) -> bool {
    a matches ActionModel::Publish { sync_enabled, .. } && sync_enabled
}

/// Start-up is on the local-only course: it will not leave it.
pub open spec fn local_course(v: InitView) -> bool {
    ||| v.phase == InitPhase::Start && !sync_requested(v.url, v.token)
    ||| !v.cloud && (v.phase == InitPhase::OpeningLocal || v.phase == InitPhase::Migrating
        || v.phase == InitPhase::Ready || v.phase == InitPhase::Failed)
}

/// Start-up is past its quarantine, or past the point where one could come.
pub open spec fn past_recovery(v: InitView) -> bool {
    v.phase == InitPhase::Recovering || v.phase == InitPhase::Reconnecting || v.phase
        == InitPhase::OpeningLocal || v.phase == InitPhase::Migrating || v.phase
        == InitPhase::Ready || v.phase == InitPhase::Failed
}

proof fn lemma_run_len(v: InitView, events: Seq<InitEvent>)
    ensures
        run_actions(v, events).len() == events.len(),
    decreases events.len(),
{
    if events.len() > 0 {
        lemma_run_len(init_step(v, events[0]).0, events.skip(1));
    }
}

proof fn lemma_run_cons(v: InitView, events: Seq<InitEvent>)
    requires
        events.len() > 0,
    ensures
        run_actions(v, events) == seq![init_step(v, events[0]).1] + run_actions(
            init_step(v, events[0]).0,
            events.skip(1),
        ),
{
}

/// Once on the local-only course, start-up never probes, never connects to
/// the remote, never quarantines and never reports cloud sync on.
proof fn lemma_local_course(v: InitView, events: Seq<InitEvent>)
    requires
        local_course(v),
    ensures
        forall|i: int|
            0 <= i < run_actions(v, events).len() ==> !leaves_local(#[trigger] run_actions(
                v,
                events,
            )[i]) && !publishes_cloud(run_actions(v, events)[i]),
    decreases events.len(),
{
    if events.len() > 0 {
        let (v1, a) = init_step(v, events[0]);
        lemma_local_course(v1, events.skip(1));
        lemma_run_cons(v, events);
        let rest = run_actions(v1, events.skip(1));
        assert forall|i: int| 0 <= i < run_actions(v, events).len() implies !leaves_local(
            #[trigger] run_actions(v, events)[i],
        ) && !publishes_cloud(run_actions(v, events)[i]) by {
            if i > 0 {
                assert(run_actions(v, events)[i] == rest[i - 1]);
            }
        }
    }
}

/// Past the point of recovery, start-up quarantines nothing.
proof fn lemma_no_second_quarantine(v: InitView, events: Seq<InitEvent>)
    requires
        past_recovery(v),
    ensures
        forall|i: int|
            0 <= i < run_actions(v, events).len() ==> !(#[trigger] run_actions(
                v,
                events,
            )[i] is Quarantine),
    decreases events.len(),
{
    if events.len() > 0 {
        let (v1, a) = init_step(v, events[0]);
        lemma_no_second_quarantine(v1, events.skip(1));
        lemma_run_cons(v, events);
        let rest = run_actions(v1, events.skip(1));
        assert forall|i: int| 0 <= i < run_actions(v, events).len() implies !(
        #[trigger] run_actions(v, events)[i] is Quarantine) by {
            if i > 0 {
                assert(run_actions(v, events)[i] == rest[i - 1]);
            }
        }
    }
}

/// Without a sidecar file, start-up stays local: whatever happens, it never
/// probes or connects to the remote, never quarantines the database, and
/// reports cloud sync off when it publishes.
pub proof fn lemma_no_config_stays_local(file: Seq<char>, events: Seq<InitEvent>)
    ensures
        forall|i: int|
            0 <= i < run_actions(initial_view(file, None), events).len() ==> !leaves_local(
                #[trigger] run_actions(initial_view(file, None), events)[i],
            ) && !publishes_cloud(run_actions(initial_view(file, None), events)[i]),
{
    lemma_local_course(initial_view(file, None), events);
}

/// With stored credentials whose token is empty, start-up stays local in the
/// same way: no probe, no remote connection, no quarantine, cloud sync off.
pub proof fn lemma_empty_token_stays_local(
    file: Seq<char>,
    url: Seq<char>,
    token: Seq<char>,
    events: Seq<InitEvent>,
)
    requires
        token.len() == 0,
    ensures
        forall|i: int|
            0 <= i < run_actions(initial_view(file, Some((url, token))), events).len()
                ==> !leaves_local(
                #[trigger] run_actions(initial_view(file, Some((url, token))), events)[i],
            ) && !publishes_cloud(run_actions(initial_view(file, Some((url, token))), events)[i]),
{
    lemma_local_course(initial_view(file, Some((url, token))), events);
}

/// A failure of the synced database whose message tells of no conflict
/// never quarantines: start-up opens the local database next, and from then
/// on never touches files or the remote and reports cloud sync off.
pub proof fn lemma_plain_failure_never_quarantines(
    v: InitView,
    m: String,
    events: Seq<InitEvent>,
)
    requires
        v.phase == InitPhase::Connecting,
        !conflict_message(m@),
    ensures
        init_step(v, InitEvent::SyncedFailed(m)).1 == ActionModel::OpenLocal,
        init_step(v, InitEvent::SyncedFailed(m)).0.phase == InitPhase::OpeningLocal,
        forall|i: int|
            0 <= i < run_actions(init_step(v, InitEvent::SyncedFailed(m)).0, events).len()
                ==> !leaves_local(
                #[trigger] run_actions(init_step(v, InitEvent::SyncedFailed(m)).0, events)[i],
            ) && !publishes_cloud(
                run_actions(init_step(v, InitEvent::SyncedFailed(m)).0, events)[i],
            ),
{
    lemma_local_course(init_step(v, InitEvent::SyncedFailed(m)).0, events);
}

/// A conflicting sync state is recovered from once: the database is
/// quarantined (after which no database, log, shared-memory or sync
/// metadata entry is left, and one backup where the rename succeeded), one
/// retry follows, and no later event leads to a second quarantine.
pub proof fn lemma_conflict_recovered_once(
    v: InitView,
    m: String,
    entries: Set<Seq<char>>,
    renamed: bool,
    events: Seq<InitEvent>,
)
    requires
        v.phase == InitPhase::Connecting,
        conflict_message(m@),
    ensures
        init_step(v, InitEvent::SyncedFailed(m)).1 == ActionModel::Quarantine(
            quarantine_ops(v.file),
        ),
        ({
            let after = apply_ops(entries, quarantine_ops(v.file), renamed);
            &&& !after.contains(v.file)
            &&& !after.contains(wal_name(v.file))
            &&& !after.contains(shm_name(v.file))
            &&& !after.contains(sync_dir_name(v.file))
            &&& after.contains(legacy_name(v.file)) <==> (entries.contains(v.file) && renamed)
        }),
        init_step(init_step(v, InitEvent::SyncedFailed(m)).0, InitEvent::QuarantineDone).1
            == (ActionModel::ConnectSynced { url: v.url, token: v.token }),
        forall|i: int|
            0 <= i < run_actions(init_step(v, InitEvent::SyncedFailed(m)).0, events).len()
                ==> !(#[trigger] run_actions(
                init_step(v, InitEvent::SyncedFailed(m)).0,
                events,
            )[i] is Quarantine),
{
    lemma_quarantine_effect(entries, v.file, renamed);
    lemma_no_second_quarantine(init_step(v, InitEvent::SyncedFailed(m)).0, events);
}

/// Cloud sync is reported on only when a synced database came up: every
/// publication with cloud sync on follows a `SyncedReady` event (or a state
/// that already had a live synced database), and carries the stored URL.
pub proof fn lemma_cloud_only_after_synced_connect(v: InitView, events: Seq<InitEvent>, i: int)
    requires
        0 <= i < run_actions(v, events).len(),
        publishes_cloud(run_actions(v, events)[i]),
    ensures
        v.cloud || exists|j: int| 0 <= j < i && events[j] is SyncedReady,
        run_actions(v, events)[i] == (ActionModel::Publish { sync_enabled: true, sync_url: v.url }),
    decreases events.len(),
{
    lemma_run_len(v, events);
    lemma_run_cons(v, events);
    let (v1, a) = init_step(v, events[0]);
    assert(v1.url == v.url);
    if i > 0 {
        assert(run_actions(v, events)[i] == run_actions(v1, events.skip(1))[i - 1]);
        lemma_cloud_only_after_synced_connect(v1, events.skip(1), i - 1);
        if !(events[0] is SyncedReady) {
            assert(v1.cloud ==> v.cloud);
            if !v1.cloud {
                let j = choose|j: int| 0 <= j < i - 1 && events.skip(1)[j] is SyncedReady;
                assert(events[j + 1] is SyncedReady);
            }
        }
    }
}

/// Whether the engine's message tells of a sync-state conflict that a
/// quarantine and one retry may cure.
pub fn is_conflict_message(m: &str) -> (r: bool)
    ensures
        r == conflict_message(m@),
{
    contains(m, "local state is incorrect") || contains(m, "invalid local state") || contains(
        m,
        "server returned a conflict",
    ) || contains(m, "Generation ID mismatch") || contains(m, "mismatch") || contains(
        m,
        "metadata file does not",
    )
}

impl Initializer {
    /// Start-up for the database file `files`, with the credentials read
    /// from the sidecar file (`None` when there is none or it did not decode).
    pub fn new(files: DbFiles, config: Option<SyncConfig>) -> (r: Initializer)
        ensures
            r@ == initial_view(
                files.file_name@,
                match config {
                    Some(c) => Some((c.url@, c.token@)),
                    None => None,
                },
            ),
    {
        let (url, token) = match config {
            Some(c) => (c.url, c.token),
            None => (String::new(), String::new()),
        };
        Initializer { phase: InitPhase::Start, files, url, token, cloud: false }
    }

    /// The phase that start-up has reached.
    pub fn phase(&self) -> (r: InitPhase)
        ensures
            r == self@.phase,
    {
        self.phase
    }

    fn fall_back(&mut self) -> (r: InitAction)
        ensures
            (final(self)@, r@) == go_local(old(self)@),
    {
        self.phase = InitPhase::OpeningLocal;
        self.cloud = false;
        InitAction::OpenLocal
    }

    /// Takes the next event and says what to do.
    pub fn on_event(&mut self, event: InitEvent) -> (r: InitAction)
        ensures
            (final(self)@, r@) == init_step(old(self)@, event),
    {
        match (self.phase, event) {
            (InitPhase::Start, InitEvent::Begin) => {
                let requested = !self.url.as_str().is_empty() && !self.token.as_str().is_empty();
                if requested {
                    match validation_request(self.url.as_str(), self.token.as_str()) {
                        Ok(req) => {
                            self.phase = InitPhase::Probing;
                            InitAction::Probe(req)
                        },
                        Err(_) => self.fall_back(),
                    }
                } else {
                    self.fall_back()
                }
            },
            (InitPhase::Probing, InitEvent::ProbeAnswered(o)) => {
                match classify_probe(o) {
                    Ok(()) => {
                        self.phase = InitPhase::Connecting;
                        InitAction::ConnectSynced { url: self.url.clone(), token: self.token.clone() }
                    },
                    Err(_) => self.fall_back(),
                }
            },
            (InitPhase::Connecting, InitEvent::SyncedReady) | (
                InitPhase::Reconnecting,
                InitEvent::SyncedReady,
            ) => {
                self.phase = InitPhase::Migrating;
                self.cloud = true;
                InitAction::Migrate
            },
            (InitPhase::Connecting, InitEvent::SyncedFailed(m)) => {
                if is_conflict_message(m.as_str()) {
                    self.phase = InitPhase::Recovering;
                    InitAction::Quarantine(self.files.quarantine_plan())
                } else {
                    self.fall_back()
                }
            },
            (InitPhase::Recovering, InitEvent::QuarantineDone) => {
                self.phase = InitPhase::Reconnecting;
                InitAction::ConnectSynced { url: self.url.clone(), token: self.token.clone() }
            },
            (InitPhase::Reconnecting, InitEvent::SyncedFailed(_)) => self.fall_back(),
            (InitPhase::OpeningLocal, InitEvent::LocalReady) => {
                self.phase = InitPhase::Migrating;
                self.cloud = false;
                InitAction::Migrate
            },
            (InitPhase::OpeningLocal, InitEvent::LocalBuildFailed(m)) => {
                self.phase = InitPhase::Failed;
                InitAction::Fail(concat("Failed to build local db: ", m.as_str()))
            },
            (InitPhase::OpeningLocal, InitEvent::LocalConnectFailed(m)) => {
                self.phase = InitPhase::Failed;
                InitAction::Fail(concat("Failed to connect: ", m.as_str()))
            },
            (InitPhase::Migrating, InitEvent::MigrationDone) => {
                self.phase = InitPhase::Ready;
                let sync_url = if self.cloud {
                    self.url.clone()
                } else {
                    String::new()
                };
                InitAction::Publish { sync_enabled: self.cloud, sync_url }
            },
            (InitPhase::Migrating, InitEvent::MigrationFailed(m)) => {
                self.phase = InitPhase::Failed;
                InitAction::Fail(m)
            },
            _ => InitAction::Idle,
        }
    }
}

} // verus!
