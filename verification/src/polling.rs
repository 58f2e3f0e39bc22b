//! The polling-worker lifecycle manager and the per-feed worker cycle.
//!
//! The manager subscribes to the command bus.  On `EntitySharingCreated` with
//! a polling configuration it records exactly one worker for the feed and
//! asks its embedder (through an action) to spawn the worker's execution
//! context; on `EntitySharingUpdated` it delivers the new definition into the
//! running worker's reconfiguration inbox without restarting it, spawns a
//! worker where polling was just switched on, or signals the worker to stop
//! where polling was switched off.  Feeds without a polling configuration
//! never get a worker.
//!
//! A worker repeats cycles until stop is signalled: adopt a pending
//! reconfiguration, run the feed's script, fan the result out, sleep the
//! configured interval.  The cycle's decisions stand here, verified; the
//! embedder performs the outside work (running the script, sleeping,
//! delivering) between the two cycle steps and re-checks the stop flag each
//! round, so shutdown latency is bounded by one sleep interval.

use crate::bus::{Commands, Subscriber, TopicIds};
use crate::entity_sharing::EntitySharing;
use crate::errors::Error;
use vstd::prelude::*;

verus! {

/// How long a worker backs off after a failed script run before retrying,
/// in milliseconds.
pub const SCRIPT_FAILURE_BACKOFF_MILLIS: u64 = 10000;

/// Lifecycle phase of a worker.  A feed without a polling configuration has
/// no worker at all; a spawned worker starts out `Running`, moves to
/// `Stopping` when told to stop, and to `Stopped` when its cycle exits.
#[derive(Clone, Copy, Debug, PartialEq, Eq, Structural)]
pub enum WorkerPhase {
    Running,
    Stopping,
    Stopped,
}

/// The manager's record of one polling worker: its identity token (stable
/// across reconfigurations), the feed definition in force, the
/// live-reconfiguration inbox, and its phase.
#[derive(Debug)]
pub struct PollingWorker {
    pub token: u64,
    pub active: EntitySharing,
    pub inbox: Option<EntitySharing>,
    pub phase: WorkerPhase,
}

/// What a worker's next cycle needs from its embedder: nothing (the worker
/// exits), or a run of the feed's script — if it has one — followed by a
/// sleep of the active polling interval.
#[derive(Debug)]
pub enum CycleStart {
    Exit,
    Run { script: Option<String>, interval_millis: u64 },
}

/// The rest of a cycle once the script's outcome is known: deliver the
/// payload to subscribers and sleep, retry after a fixed backoff on script
/// failure, or just sleep where the feed has no script.
#[derive(Debug)]
pub enum CycleOutcome {
    Deliver { payload: serde_json::Value, sleep_millis: u64 },
    Retry { backoff_millis: u64 },
    Idle { sleep_millis: u64 },
}

/// The definition the worker's next cycle runs with: a pending
/// reconfiguration if one arrived, else the definition already in force.
pub open spec fn spec_adopted(w: PollingWorker) -> EntitySharing {
    match w.inbox {
        Some(e) => e,
        None => w.active,
    }
}

impl PollingWorker {
    /// First step of a cycle: observe the stop flag and adopt any pending
    /// reconfiguration.  With stop signalled — or the worker already told to
    /// stop — the worker exits without further work, so shutdown latency is
    /// bounded by one interval.  Otherwise the adopted definition's script
    /// and interval drive this cycle; a definition left without a polling
    /// configuration exits too.  The worker's identity token never changes.
    pub fn begin_cycle(&mut self, should_stop: bool) -> (r: CycleStart)
        ensures
            final (self).token == old(self).token,
            (should_stop || !(old(self).phase is Running)) ==> {
                &&& r is Exit
                &&& final (self).phase is Stopped
                &&& final (self).active == old(self).active
                &&& final (self).inbox == old(self).inbox
            },
            (!should_stop && old(self).phase is Running) ==> {
                let adopted = spec_adopted(*old(self));
                &&& final (self).active == adopted
                &&& final (self).inbox is None
                &&& match adopted.polling_infos {
                    None => r is Exit && final (self).phase is Stopped,
                    Some(cfg) => r == (CycleStart::Run {
                        script: adopted.python_script,
                        interval_millis: cfg.polling_interval,
                    }) && final (self).phase is Running,
                }
            },
    {
        let stopping = match self.phase {
            WorkerPhase::Running => false,
            WorkerPhase::Stopping => true,
            WorkerPhase::Stopped => true,
        };
        if should_stop || stopping {
            self.phase = WorkerPhase::Stopped;
            return CycleStart::Exit;
        }
        match self.inbox.take() {
            Some(e) => {
                self.active = e;
            },
            None => {},
        }
        match &self.active.polling_infos {
            None => {
                self.phase = WorkerPhase::Stopped;
                CycleStart::Exit
            },
            Some(cfg) => {
                let script = match &self.active.python_script {
                    Some(s) => Some(s.clone()),
                    None => None,
                };
                CycleStart::Run { script, interval_millis: cfg.polling_interval }
            },
        }
    }

    /// Second step of a cycle, given the script run's outcome (`None` where
    /// the feed has no script): a failed run is caught locally — the worker
    /// logs, backs off a fixed delay and retries without delivering; a
    /// successful run's payload goes to fan-out before sleeping the active
    /// interval.
    pub fn finish_cycle(&self, script_outcome: Option<Result<serde_json::Value, Error>>) -> (r:
        CycleOutcome)
        requires
            self.active.polling_infos is Some,
        ensures
            match script_outcome {
                None => r == (CycleOutcome::Idle {
                    sleep_millis: self.active.polling_infos->0.polling_interval,
                }),
                Some(Ok(v)) => r == (CycleOutcome::Deliver {
                    payload: v,
                    sleep_millis: self.active.polling_infos->0.polling_interval,
                }),
                Some(Err(_)) => r == (CycleOutcome::Retry {
                    backoff_millis: SCRIPT_FAILURE_BACKOFF_MILLIS,
                }),
            },
    {
        let interval = match &self.active.polling_infos {
            Some(cfg) => cfg.polling_interval,
            None => 0,
        };
        match script_outcome {
            None => CycleOutcome::Idle { sleep_millis: interval },
            Some(Ok(v)) => CycleOutcome::Deliver { payload: v, sleep_millis: interval },
            Some(Err(_)) => CycleOutcome::Retry { backoff_millis: SCRIPT_FAILURE_BACKOFF_MILLIS },
        }
    }
}

/// The effects the manager asks its embedder to perform: spawn a worker
/// execution context for a feed, send a new definition to the running
/// worker's reconfiguration channel, or tell a worker to stop.
#[derive(Debug)]
pub enum ManagerAction {
    SpawnWorker { entity_sharing: EntitySharing },
    DeliverReconfig { entity_sharing: EntitySharing },
    StopWorker { entity_sharing_id: String },
}

/// The polling worker manager: the worker table keyed by feed id, the next
/// identity token, and the queue of actions awaiting the embedder.
#[derive(Debug)]
pub struct EntityPollingHandler {
    pub workers: Vec<PollingWorker>,
    pub next_token: u64,
    pub actions: Vec<ManagerAction>,
}

/// Mathematical state of the manager.
pub struct ManagerView {
    pub workers: Seq<PollingWorker>,
    pub next_token: u64,
    pub actions: Seq<ManagerAction>,
}

impl View for EntityPollingHandler {
    type V = ManagerView;

    open spec fn view(&self) -> ManagerView {
        ManagerView { workers: self.workers@, next_token: self.next_token, actions: self.actions@ }
    }
}

/// Some worker in the table belongs to the feed `id`.
pub open spec fn has_worker(ws: Seq<PollingWorker>, id: Seq<char>) -> bool {
    exists|i: int| 0 <= i < ws.len() && (#[trigger] ws[i]).active.id@ == id
}

/// At most one worker per feed: all table entries carry distinct feed ids.
pub open spec fn manager_wf(v: ManagerView) -> bool {
    forall|i: int, j: int|
        0 <= i < v.workers.len() && 0 <= j < v.workers.len() && i != j ==> (#[trigger] v.workers[i]).active.id@
            != (#[trigger] v.workers[j]).active.id@
}

/// The manager after recording a fresh worker for `e`: a `Running` entry
/// with the next token and an empty inbox, plus a spawn request for the
/// embedder.
pub open spec fn spec_spawn_worker(v: ManagerView, e: EntitySharing) -> ManagerView {
    ManagerView {
        workers: v.workers.push(
            PollingWorker { token: v.next_token, active: e, inbox: None, phase: WorkerPhase::Running },
        ),
        next_token: if v.next_token == u64::MAX {
            0
        } else {
            (v.next_token + 1) as u64
        },
        actions: v.actions.push(ManagerAction::SpawnWorker { entity_sharing: e }),
    }
}

/// The worker entry after a reconfiguration of feed `e.id`: the matching
/// entry's inbox holds `e`; its token, active definition and phase — and
/// every other entry — are untouched.
pub open spec fn spec_reconfigured(w: PollingWorker, e: EntitySharing) -> PollingWorker {
    if w.active.id@ == e.id@ {
        PollingWorker { token: w.token, active: w.active, inbox: Some(e), phase: w.phase }
    } else {
        w
    }
}

/// The worker entry after a stop signal for feed `id`: the matching entry
/// moves to `Stopping`; every other entry is untouched.
pub open spec fn spec_stopped(w: PollingWorker, id: Seq<char>) -> PollingWorker {
    if w.active.id@ == id {
        PollingWorker { token: w.token, active: w.active, inbox: w.inbox, phase: WorkerPhase::Stopping }
    } else {
        w
    }
}

/// The manager's transition on one bus command.
///
/// `EntitySharingCreated`: spawn a worker exactly when the feed has a
/// polling configuration and no worker yet.  `EntitySharingUpdated`: with a
/// worker present, either hand the new definition to it (polling still
/// configured) or signal it to stop (polling switched off); with none
/// present and polling switched on, spawn one.
pub open spec fn manager_next(v: ManagerView, c: Commands) -> ManagerView {
    match c {
        Commands::EntitySharingCreated { entity_sharing: e } => {
            if e.polling_infos is Some && !has_worker(v.workers, e.id@) {
                spec_spawn_worker(v, e)
            } else {
                v
            }
        },
        Commands::EntitySharingUpdated { entity_sharing: e } => {
            if has_worker(v.workers, e.id@) {
                if e.polling_infos is Some {
                    ManagerView {
                        workers: v.workers.map_values(|w: PollingWorker| spec_reconfigured(w, e)),
                        next_token: v.next_token,
                        actions: v.actions.push(ManagerAction::DeliverReconfig { entity_sharing: e }),
                    }
                } else {
                    ManagerView {
                        workers: v.workers.map_values(|w: PollingWorker| spec_stopped(w, e.id@)),
                        next_token: v.next_token,
                        actions: v.actions.push(
                            ManagerAction::StopWorker { entity_sharing_id: e.id },
                        ),
                    }
                }
            } else {
                if e.polling_infos is Some {
                    spec_spawn_worker(v, e)
                } else {
                    v
                }
            }
        },
    }
}

impl EntityPollingHandler {
    /// A manager with no workers and nothing pending.
    pub fn new() -> (r: Self)
        ensures
            r@.workers == Seq::<PollingWorker>::empty(),
            r@.actions == Seq::<ManagerAction>::empty(),
            r@.next_token == 0,
    {
        EntityPollingHandler { workers: Vec::new(), next_token: 0, actions: Vec::new() }
    }

    /// Whether the table already holds a worker for feed `id`.
    fn worker_exists(&self, id: &String) -> (r: bool)
        ensures
            r == has_worker(self.workers@, id@),
    {
        let n = self.workers.len();
        let mut i: usize = 0;
        while i < n
            invariant
                i <= n,
                n == self.workers@.len(),
                forall|j: int| 0 <= j < i ==> (#[trigger] self.workers@[j]).active.id@ != id@,
            decreases n - i,
        {
            let w = &self.workers[i];
            if w.active.id == *id {
                proof {
                    assert(0 <= i < self.workers@.len() && self.workers@[i as int].active.id@
                        == id@);
                }
                return true;
            }
            i = i + 1;
        }
        false
    }

    /// Records a fresh worker for `e` and queues the spawn request.
    fn spawn_worker(&mut self, e: &EntitySharing)
        ensures
            final (self)@ == spec_spawn_worker(old(self)@, *e),
    {
        let w = PollingWorker {
            token: self.next_token,
            active: e.clone(),
            inbox: None,
            phase: WorkerPhase::Running,
        };
        self.workers.push(w);
        self.actions.push(ManagerAction::SpawnWorker { entity_sharing: e.clone() });
        self.next_token = if self.next_token == u64::MAX {
            0
        } else {
            self.next_token + 1
        };
    }

    /// Puts `e` into the inbox of the worker for `e.id`, leaving its token,
    /// active definition, phase and every other worker untouched.
    fn reconfigure_worker(&mut self, e: &EntitySharing)
        ensures
            final (self).workers@ == old(self).workers@.map_values(
                |w: PollingWorker| spec_reconfigured(w, *e),
            ),
            final (self).next_token == old(self).next_token,
            final (self).actions@ == old(self).actions@,
    {
        let ghost pre = self.workers@;
        let n = self.workers.len();
        let mut i: usize = 0;
        while i < n
            invariant
                i <= n,
                n == self.workers@.len(),
                pre.len() == n,
                self.next_token == old(self).next_token,
                self.actions@ == old(self).actions@,
                forall|j: int|
                    0 <= j < i ==> (#[trigger] self.workers@[j]) == spec_reconfigured(pre[j], *e),
                forall|j: int| i <= j < n ==> self.workers@[j] == pre[j],
            decreases n - i,
        {
            let ghost before = self.workers@;
            let mut w = self.workers.remove(i);
            if w.active.id == e.id {
                w.inbox = Some(e.clone());
            }
            self.workers.insert(i, w);
            proof {
                assert(self.workers@ =~= before.update(i as int, w));
            }
            i = i + 1;
        }
        proof {
            assert(self.workers@ =~= pre.map_values(|w: PollingWorker| spec_reconfigured(w, *e)));
        }
    }

    /// Moves the worker for feed `id` to `Stopping`, leaving everything else
    /// untouched.
    fn stop_worker(&mut self, id: &String)
        ensures
            final (self).workers@ == old(self).workers@.map_values(
                |w: PollingWorker| spec_stopped(w, id@),
            ),
            final (self).next_token == old(self).next_token,
            final (self).actions@ == old(self).actions@,
    {
        let ghost pre = self.workers@;
        let n = self.workers.len();
        let mut i: usize = 0;
        while i < n
            invariant
                i <= n,
                n == self.workers@.len(),
                pre.len() == n,
                self.next_token == old(self).next_token,
                self.actions@ == old(self).actions@,
                forall|j: int|
                    0 <= j < i ==> (#[trigger] self.workers@[j]) == spec_stopped(pre[j], id@),
                forall|j: int| i <= j < n ==> self.workers@[j] == pre[j],
            decreases n - i,
        {
            let ghost before = self.workers@;
            let mut w = self.workers.remove(i);
            if w.active.id == *id {
                w.phase = WorkerPhase::Stopping;
            }
            self.workers.insert(i, w);
            proof {
                assert(self.workers@ =~= before.update(i as int, w));
            }
            i = i + 1;
        }
        proof {
            assert(self.workers@ =~= pre.map_values(|w: PollingWorker| spec_stopped(w, id@)));
        }
    }

    /// Hands the queued effects to the embedder, emptying the queue.
    pub fn take_actions(&mut self) -> (r: Vec<ManagerAction>)
        ensures
            r@ == old(self)@.actions,
            final (self)@.actions == Seq::<ManagerAction>::empty(),
            final (self)@.workers == old(self)@.workers,
            final (self)@.next_token == old(self)@.next_token,
    {
        let mut out: Vec<ManagerAction> = Vec::new();
        core::mem::swap(&mut out, &mut self.actions);
        out
    }
}

impl Subscriber for EntityPollingHandler {
    open spec fn interested(&self, topic: TopicIds) -> bool {
        topic is EntitySharingCreated || topic is EntitySharingUpdated
    }

    open spec fn next_view(&self, c: Commands) -> ManagerView {
        manager_next(self@, c)
    }

    fn is_subscribed_to(&self, topic: &TopicIds) -> (r: bool) {
        match topic {
            TopicIds::EntitySharingCreated => true,
            TopicIds::EntitySharingUpdated => true,
        }
    }

    fn on_event(&mut self, c: &Commands) {
        match c {
            Commands::EntitySharingCreated { entity_sharing } => {
                if entity_sharing.polling_infos.is_some() {
                    if !self.worker_exists(&entity_sharing.id) {
                        self.spawn_worker(entity_sharing);
                    }
                }
            },
            Commands::EntitySharingUpdated { entity_sharing } => {
                if self.worker_exists(&entity_sharing.id) {
                    if entity_sharing.polling_infos.is_some() {
                        self.reconfigure_worker(entity_sharing);
                        self.actions.push(
                            ManagerAction::DeliverReconfig {
                                entity_sharing: entity_sharing.clone(),
                            },
                        );
                    } else {
                        self.stop_worker(&entity_sharing.id);
                        self.actions.push(
                            ManagerAction::StopWorker {
                                entity_sharing_id: entity_sharing.id.clone(),
                            },
                        );
                    }
                } else {
                    if entity_sharing.polling_infos.is_some() {
                        self.spawn_worker(entity_sharing);
                    }
                }
            },
        }
    }
}

} // verus!

verus! {

/// A feed without a polling configuration never gets a worker: on
/// `EntitySharingCreated` for such a feed the manager does not change at
/// all — no worker entry, no action.
pub proof fn lemma_unpolled_feed_spawns_no_worker(v: ManagerView, e: EntitySharing)
    requires
        e.polling_infos is None,
    ensures
        manager_next(v, Commands::EntitySharingCreated { entity_sharing: e }) == v,
{
}

/// The manager's transition preserves the one-worker-per-feed invariant.
pub proof fn lemma_manager_next_preserves_wf(v: ManagerView, c: Commands)
    requires
        manager_wf(v),
    ensures
        manager_wf(manager_next(v, c)),
{
    let v2 = manager_next(v, c);
    match c {
        Commands::EntitySharingCreated { entity_sharing: e } => {
            if e.polling_infos is Some && !has_worker(v.workers, e.id@) {
                assert forall|i: int, j: int|
                    0 <= i < v2.workers.len() && 0 <= j < v2.workers.len() && i
                        != j implies (#[trigger] v2.workers[i]).active.id@ != (
                #[trigger] v2.workers[j]).active.id@ by {
                    if i < v.workers.len() && j < v.workers.len() {
                    } else if i < v.workers.len() {
                        assert(!(v.workers[i].active.id@ == e.id@));
                    } else if j < v.workers.len() {
                        assert(!(v.workers[j].active.id@ == e.id@));
                    }
                }
            }
        },
        Commands::EntitySharingUpdated { entity_sharing: e } => {
            if has_worker(v.workers, e.id@) {
                assert(forall|i: int|
                    0 <= i < v2.workers.len() ==> (#[trigger] v2.workers[i]).active.id@
                        == v.workers[i].active.id@);
            } else if e.polling_infos is Some {
                assert forall|i: int, j: int|
                    0 <= i < v2.workers.len() && 0 <= j < v2.workers.len() && i
                        != j implies (#[trigger] v2.workers[i]).active.id@ != (
                #[trigger] v2.workers[j]).active.id@ by {
                    if i < v.workers.len() && j < v.workers.len() {
                    } else if i < v.workers.len() {
                        assert(!(v.workers[i].active.id@ == e.id@));
                    } else if j < v.workers.len() {
                        assert(!(v.workers[j].active.id@ == e.id@));
                    }
                }
            }
        },
    }
}

/// On `EntitySharingCreated` for a feed with a polling configuration and no
/// worker yet, exactly one worker for that feed exists afterwards: a fresh
/// `Running` entry with an empty inbox at the end of the table, every other
/// entry unchanged and belonging to another feed.
pub proof fn lemma_created_spawns_exactly_one_worker(v: ManagerView, e: EntitySharing)
    requires
        manager_wf(v),
        e.polling_infos is Some,
        !has_worker(v.workers, e.id@),
    ensures
        ({
            let v2 = manager_next(v, Commands::EntitySharingCreated { entity_sharing: e });
            &&& manager_wf(v2)
            &&& v2.workers.len() == v.workers.len() + 1
            &&& v2.workers.last() == (PollingWorker {
                token: v.next_token,
                active: e,
                inbox: None,
                phase: WorkerPhase::Running,
            })
            &&& forall|i: int|
                0 <= i < v.workers.len() ==> #[trigger] v2.workers[i] == v.workers[i]
                    && v.workers[i].active.id@ != e.id@
        }),
{
    lemma_manager_next_preserves_wf(v, Commands::EntitySharingCreated { entity_sharing: e });
}

/// `EntitySharingUpdated` for a feed whose worker is `Running` reconfigures
/// without restarting: the worker keeps its position, identity token and
/// phase, its inbox now holds the new definition — so the next cycle adopts
/// it — and no other worker is touched.
pub proof fn lemma_update_reconfigures_running_worker(v: ManagerView, e: EntitySharing, i: int)
    requires
        manager_wf(v),
        0 <= i < v.workers.len(),
        v.workers[i].active.id@ == e.id@,
        e.polling_infos is Some,
    ensures
        ({
            let v2 = manager_next(v, Commands::EntitySharingUpdated { entity_sharing: e });
            &&& v2.workers.len() == v.workers.len()
            &&& v2.workers[i].token == v.workers[i].token
            &&& v2.workers[i].phase == v.workers[i].phase
            &&& v2.workers[i].active == v.workers[i].active
            &&& v2.workers[i].inbox == Some(e)
            &&& spec_adopted(v2.workers[i]) == e
            &&& forall|j: int|
                0 <= j < v.workers.len() && j != i ==> #[trigger] v2.workers[j] == v.workers[j]
        }),
{
    assert(has_worker(v.workers, e.id@));
    let v2 = manager_next(v, Commands::EntitySharingUpdated { entity_sharing: e });
    assert forall|j: int|
        0 <= j < v.workers.len() && j != i implies #[trigger] v2.workers[j] == v.workers[j] by {
        assert(v.workers[j].active.id@ != e.id@);
    }
}

} // verus!

verus! {

/// Bus dispatch reaches every registered manager: the manager is interested
/// in both sharing topics, so a publish under either advances each manager
/// subscriber by exactly [`manager_next`].  With `EntitySharingCreated` this
/// is how creating a polled feed spawns its worker; with
/// `EntitySharingUpdated`, how an update reconfigures it.
pub proof fn lemma_publish_drives_manager(
    pre: Seq<EntityPollingHandler>,
    post: Seq<EntityPollingHandler>,
    c: Commands,
    t: TopicIds,
)
    requires
        crate::bus::published(pre, post, c, Some(t)),
    ensures
        forall|i: int| 0 <= i < pre.len() ==> (#[trigger] post[i])@ == manager_next(pre[i]@, c),
{
    assert forall|i: int| 0 <= i < pre.len() implies (#[trigger] post[i])@ == manager_next(
        pre[i]@,
        c,
    ) by {
        assert(post[i]@ == crate::bus::delivered_view(pre[i], c, Some(t)));
        assert(pre[i].interested(t));
    }
}

} // verus!
