use sharing_hub::bus::{Bus, Commands, Subscriber};
use sharing_hub::connected_app::{
    ConnectedApp, ConnectedAppCore, ConnectedAppRepository, CreateConnectedAppParams,
};
use sharing_hub::entity_sharing::{
    CreateEntitySharingParams, EntitySharing, EntitySharingCore, EntitySharingPollingInfos,
    EntitySharingRepository, UpdateEntitySharingParams,
};
use sharing_hub::entity_subscription::{
    CreateEntitySubscriptionParams, EntitySubscription, EntitySubscriptionCore,
    EntitySubscriptionRepository,
};
use sharing_hub::errors::Error;
use sharing_hub::polling::{
    CycleOutcome, CycleStart, EntityPollingHandler, ManagerAction, WorkerPhase,
};
use sharing_hub::script_sanitizer::clean_python_script;

struct MemAppRepo {
    apps: Vec<ConnectedApp>,
    fail: bool,
}

impl ConnectedAppRepository for MemAppRepo {
    fn apps(&self) -> vstd::map::Map<vstd::seq::Seq<char>, ConnectedApp> {
        unreachable!()
    }

    fn create_connected_app(
        &mut self,
        params: &CreateConnectedAppParams,
        now: i64,
    ) -> Result<ConnectedApp, Error> {
        if self.fail {
            return Err(Error::DatabaseError("storage unavailable".to_string()));
        }
        let app = ConnectedApp {
            id: params.id.clone(),
            name: params.name.clone(),
            created_at: now,
            updated_at: now,
        };
        self.apps.retain(|a| a.id != app.id);
        self.apps.push(app.clone());
        Ok(app)
    }

    fn get_connected_app(&self, id: &String) -> Result<ConnectedApp, Error> {
        for a in &self.apps {
            if &a.id == id {
                return Ok(a.clone());
            }
        }
        Err(Error::NotFoundError(format!("connected app {} not found", id)))
    }

    fn get_all_connected_apps(&self) -> Result<Vec<ConnectedApp>, Error> {
        Ok(self.apps.clone())
    }
}

struct MemSharingRepo {
    sharings: Vec<EntitySharing>,
}

impl EntitySharingRepository for MemSharingRepo {
    fn sharings(&self) -> vstd::map::Map<vstd::seq::Seq<char>, EntitySharing> {
        unreachable!()
    }

    fn create_entity_sharing(
        &mut self,
        params: &CreateEntitySharingParams,
        now: i64,
    ) -> Result<EntitySharing, Error> {
        let e = EntitySharing {
            id: params.id.clone(),
            name: params.name.clone(),
            connected_app_id: params.connected_app_id.clone(),
            created_at: now,
            updated_at: now,
            polling_infos: params.polling_infos,
            json_schema: params.json_schema.clone(),
            is_array: params.is_array,
            python_script: params.python_script.clone(),
        };
        self.sharings.retain(|s| s.id != e.id);
        self.sharings.push(e.clone());
        Ok(e)
    }

    fn get_entity_sharing(&self, id: &String) -> Result<EntitySharing, Error> {
        for s in &self.sharings {
            if &s.id == id {
                return Ok(s.clone());
            }
        }
        Err(Error::NotFoundError(format!("entity sharing {} not found", id)))
    }

    fn get_all_entity_sharings(&self) -> Result<Vec<EntitySharing>, Error> {
        Ok(self.sharings.clone())
    }

    fn get_all_polling_entity_sharings(&self) -> Result<Vec<EntitySharing>, Error> {
        Ok(self
            .sharings
            .iter()
            .filter(|s| s.polling_infos.is_some())
            .cloned()
            .collect())
    }

    fn update_entity_sharing(&mut self, entity_sharing: &EntitySharing) -> Result<u64, Error> {
        for s in self.sharings.iter_mut() {
            if s.id == entity_sharing.id {
                *s = entity_sharing.clone();
                return Ok(1);
            }
        }
        Ok(0)
    }
}

struct MemSubRepo {
    subs: Vec<EntitySubscription>,
}

impl EntitySubscriptionRepository for MemSubRepo {
    fn subscriptions(&self) -> vstd::map::Map<vstd::seq::Seq<char>, EntitySubscription> {
        unreachable!()
    }

    fn create_entity_subscription(
        &mut self,
        params: &CreateEntitySubscriptionParams,
        now: i64,
    ) -> Result<EntitySubscription, Error> {
        let sub = EntitySubscription {
            id: params.id.clone(),
            entity_sharing_id: params.entity_sharing_id.clone(),
            created_at: now,
            updated_at: now,
            connected_app_id: params.connected_app_id.clone(),
            jdm_transform: params.jdm_transform.clone(),
            python_script: params.python_script.clone(),
        };
        self.subs.retain(|s| s.id != sub.id);
        self.subs.push(sub.clone());
        Ok(sub)
    }

    fn get_entity_subscription_by_id(&self, id: &String) -> Result<EntitySubscription, Error> {
        for s in &self.subs {
            if &s.id == id {
                return Ok(s.clone());
            }
        }
        Err(Error::NotFoundError(format!("entity subscription {} not found", id)))
    }

    fn get_all_entity_subscriptions_for_entity_sharing(
        &self,
        entity_sharing_id: &String,
    ) -> Result<Vec<EntitySubscription>, Error> {
        Ok(self
            .subs
            .iter()
            .filter(|s| &s.entity_sharing_id == entity_sharing_id)
            .cloned()
            .collect())
    }
}

fn empty_schema() -> serde_json::Value {
    serde_json::from_str::<serde_json::Value>("{}").unwrap()
}

fn feed(id: &str, interval: Option<u64>, script: Option<&str>) -> EntitySharing {
    EntitySharing {
        id: id.to_string(),
        name: format!("feed {}", id),
        connected_app_id: "app-1".to_string(),
        created_at: 100,
        updated_at: 100,
        polling_infos: interval.map(|polling_interval| EntitySharingPollingInfos {
            polling_interval,
        }),
        json_schema: empty_schema(),
        is_array: true,
        python_script: script.map(|s| s.to_string()),
    }
}

fn patch(name: Option<&str>, interval: Option<u64>) -> UpdateEntitySharingParams {
    UpdateEntitySharingParams {
        name: name.map(|s| s.to_string()),
        polling_infos: interval.map(|polling_interval| EntitySharingPollingInfos {
            polling_interval,
        }),
        python_script: None,
        is_array: None,
        json_schema: None,
    }
}

fn sharing_core() -> EntitySharingCore<MemAppRepo, MemSharingRepo> {
    EntitySharingCore::new(
        ConnectedAppCore {
            connected_app_repository: MemAppRepo { apps: vec![], fail: false },
        },
        MemSharingRepo { sharings: vec![] },
    )
}

#[test]
fn test_merge_patch_overwrites_only_present_fields() {
    let f = feed("f-1", Some(1000), Some("result = 1"));
    let merged = f.merge(patch(Some("renamed"), Some(2000)), 333);
    assert_eq!(merged.id, "f-1");
    assert_eq!(merged.name, "renamed");
    assert_eq!(merged.created_at, 100);
    assert_eq!(merged.updated_at, 333);
    assert_eq!(merged.polling_infos, Some(EntitySharingPollingInfos { polling_interval: 2000 }));
    assert_eq!(merged.python_script, Some("result = 1".to_string()));
    assert!(merged.is_array);
}

#[test]
fn test_merge_patch_twice_is_idempotent_but_for_updated_at() {
    let f = feed("f-2", Some(1000), None);
    let once = f.clone().merge(patch(Some("renamed"), None), 20);
    let twice = f.merge(patch(Some("renamed"), None), 10).merge(patch(Some("renamed"), None), 20);
    assert_eq!(twice.name, once.name);
    assert_eq!(twice.created_at, once.created_at);
    assert_eq!(twice.updated_at, 20);
    assert_eq!(twice.polling_infos, once.polling_infos);
    assert_eq!(twice.python_script, once.python_script);
    assert_eq!(twice.is_array, once.is_array);
    assert_eq!(twice.json_schema, once.json_schema);
}

#[test]
fn test_no_worker_created_for_feed_without_polling() {
    let mut manager = EntityPollingHandler::new();
    manager.on_event(&Commands::EntitySharingCreated { entity_sharing: feed("f-3", None, None) });
    assert!(manager.workers.is_empty());
    assert!(manager.take_actions().is_empty());
}

#[test]
fn test_exactly_one_worker_after_feed_created() {
    let mut manager = EntityPollingHandler::new();
    let f = feed("f-4", Some(500), None);
    manager.on_event(&Commands::EntitySharingCreated { entity_sharing: f.clone() });
    manager.on_event(&Commands::EntitySharingCreated { entity_sharing: f });
    assert_eq!(manager.workers.len(), 1);
    assert_eq!(manager.workers[0].active.id, "f-4");
    assert_eq!(manager.workers[0].phase, WorkerPhase::Running);
    let actions = manager.take_actions();
    assert_eq!(actions.len(), 1);
    assert!(matches!(&actions[0], ManagerAction::SpawnWorker { entity_sharing } if entity_sharing.id == "f-4"));
}

#[test]
fn test_worker_stops_when_stop_signalled() {
    let mut manager = EntityPollingHandler::new();
    manager.on_event(&Commands::EntitySharingCreated { entity_sharing: feed("f-5", Some(500), None) });
    let mut worker = manager.workers.remove(0);
    let start = worker.begin_cycle(true);
    assert!(matches!(start, CycleStart::Exit));
    assert_eq!(worker.phase, WorkerPhase::Stopped);
}

#[test]
fn test_update_reconfigures_worker_without_restart() {
    let mut manager = EntityPollingHandler::new();
    manager.on_event(&Commands::EntitySharingCreated {
        entity_sharing: feed("f-6", Some(500), None),
    });
    let token_before = manager.workers[0].token;
    manager.on_event(&Commands::EntitySharingUpdated {
        entity_sharing: feed("f-6", Some(2500), Some("result = 2")),
    });
    assert_eq!(manager.workers.len(), 1);
    assert_eq!(manager.workers[0].token, token_before);
    assert_eq!(manager.workers[0].phase, WorkerPhase::Running);
    assert!(manager.workers[0].inbox.is_some());
    let actions = manager.take_actions();
    assert!(actions
        .iter()
        .any(|a| matches!(a, ManagerAction::DeliverReconfig { entity_sharing } if entity_sharing.id == "f-6")));

    let mut worker = manager.workers.remove(0);
    let start = worker.begin_cycle(false);
    match start {
        CycleStart::Run { script, interval_millis } => {
            assert_eq!(interval_millis, 2500);
            assert_eq!(script, Some("result = 2".to_string()));
        }
        CycleStart::Exit => panic!("worker must keep running after a reconfiguration"),
    }
    assert_eq!(worker.token, token_before);
}

#[test]
fn test_update_without_polling_stops_worker() {
    let mut manager = EntityPollingHandler::new();
    manager.on_event(&Commands::EntitySharingCreated {
        entity_sharing: feed("f-7", Some(500), None),
    });
    manager.on_event(&Commands::EntitySharingUpdated { entity_sharing: feed("f-7", None, None) });
    assert_eq!(manager.workers[0].phase, WorkerPhase::Stopping);
    let mut worker = manager.workers.remove(0);
    assert!(matches!(worker.begin_cycle(false), CycleStart::Exit));
    assert_eq!(worker.phase, WorkerPhase::Stopped);
}

#[test]
fn test_cycle_retries_with_backoff_on_script_failure() {
    let mut manager = EntityPollingHandler::new();
    manager.on_event(&Commands::EntitySharingCreated {
        entity_sharing: feed("f-8", Some(500), Some("result = 1")),
    });
    let mut worker = manager.workers.remove(0);
    let start = worker.begin_cycle(false);
    assert!(matches!(start, CycleStart::Run { .. }));
    let outcome = worker.finish_cycle(Some(Err(Error::ScriptOutputError("bad".to_string()))));
    match outcome {
        CycleOutcome::Retry { backoff_millis } => assert_eq!(backoff_millis, 10000),
        _ => panic!("a failed script run must back off and retry"),
    }
}

#[test]
fn test_create_entity_sharing_requires_existing_app() {
    let mut core = sharing_core();
    let mut bus: Bus<EntityPollingHandler> = Bus::new();
    let r = core.create_entity_sharing(
        &CreateEntitySharingParams {
            id: "f-9".to_string(),
            name: "orphan".to_string(),
            connected_app_id: "missing-app".to_string(),
            json_schema: empty_schema(),
            polling_infos: None,
            is_array: false,
            python_script: None,
        },
        50,
        &mut bus,
    );
    assert!(matches!(r, Err(Error::NotFoundError(_))));
    assert!(core.get_all_entity_sharings().unwrap().is_empty());
}

#[test]
fn test_create_entity_sharing_rejects_zero_interval() {
    let mut core = sharing_core();
    core.connected_app_core
        .create_connected_app(&CreateConnectedAppParams {
            id: "app-1".to_string(),
            name: "owner".to_string(),
        }, 10)
        .unwrap();
    let mut bus: Bus<EntityPollingHandler> = Bus::new();
    let r = core.create_entity_sharing(
        &CreateEntitySharingParams {
            id: "f-10".to_string(),
            name: "bad interval".to_string(),
            connected_app_id: "app-1".to_string(),
            json_schema: empty_schema(),
            polling_infos: Some(EntitySharingPollingInfos { polling_interval: 0 }),
            is_array: false,
            python_script: None,
        },
        50,
        &mut bus,
    );
    assert!(matches!(r, Err(Error::ConfigurationError(_))));
}

#[test]
fn test_create_entity_sharing_reports_storage_failure() {
    let mut core = EntitySharingCore::new(
        ConnectedAppCore {
            connected_app_repository: MemAppRepo { apps: vec![], fail: true },
        },
        MemSharingRepo { sharings: vec![] },
    );
    let r = core
        .connected_app_core
        .create_connected_app(&CreateConnectedAppParams {
            id: "app-x".to_string(),
            name: "x".to_string(),
        }, 1);
    assert!(matches!(r, Err(Error::DatabaseError(_))));
}

#[test]
fn test_update_entity_sharing_merges_and_publishes() {
    let mut core = sharing_core();
    core.connected_app_core
        .create_connected_app(&CreateConnectedAppParams {
            id: "app-1".to_string(),
            name: "owner".to_string(),
        }, 10)
        .unwrap();
    let mut bus: Bus<EntityPollingHandler> = Bus::new();
    bus.subscribe(EntityPollingHandler::new());
    core.create_entity_sharing(
        &CreateEntitySharingParams {
            id: "f-11".to_string(),
            name: "before".to_string(),
            connected_app_id: "app-1".to_string(),
            json_schema: empty_schema(),
            polling_infos: Some(EntitySharingPollingInfos { polling_interval: 700 }),
            is_array: false,
            python_script: None,
        },
        20,
        &mut bus,
    )
    .unwrap();
    assert_eq!(bus.subscribers[0].workers.len(), 1);
    let updated = core
        .update_entity_sharing(&"f-11".to_string(), patch(Some("after"), None), 30, &mut bus)
        .unwrap();
    assert_eq!(updated.name, "after");
    assert_eq!(updated.created_at, 20);
    assert_eq!(updated.updated_at, 30);
    assert_eq!(updated.polling_infos, Some(EntitySharingPollingInfos { polling_interval: 700 }));
    assert!(bus.subscribers[0].workers[0].inbox.is_some());
    let stored = core.get_entity_sharing(&"f-11".to_string()).unwrap();
    assert_eq!(stored.name, "after");
}

#[test]
fn test_update_missing_entity_sharing_is_not_found() {
    let mut core = sharing_core();
    let mut bus: Bus<EntityPollingHandler> = Bus::new();
    let r = core.update_entity_sharing(&"ghost".to_string(), patch(Some("x"), None), 30, &mut bus);
    assert!(matches!(r, Err(Error::NotFoundError(_))));
}

#[test]
fn test_create_entity_subscription_requires_existing_sharing() {
    let mut sub_core = EntitySubscriptionCore {
        entity_subscription_repository: MemSubRepo { subs: vec![] },
        entity_sharing_core: sharing_core(),
    };
    let r = sub_core.create_entity_subscription(
        &CreateEntitySubscriptionParams {
            id: "s-1".to_string(),
            entity_sharing_id: "missing-feed".to_string(),
            connected_app_id: "app-2".to_string(),
            jdm_transform: None,
            python_script: None,
        },
        60,
    );
    assert!(matches!(r, Err(Error::NotFoundError(_))));
}

#[test]
fn test_end_to_end_polled_feed_delivers_to_subscription() {
    // Create app A, a polled feed F owned by it, and app B's subscription S
    // on F; run one worker cycle and check the notifier sees S with the
    // feed's payload.
    let mut sub_core = EntitySubscriptionCore {
        entity_subscription_repository: MemSubRepo { subs: vec![] },
        entity_sharing_core: sharing_core(),
    };
    let mut bus: Bus<EntityPollingHandler> = Bus::new();
    bus.subscribe(EntityPollingHandler::new());

    sub_core
        .entity_sharing_core
        .connected_app_core
        .create_connected_app(&CreateConnectedAppParams {
            id: "app-a".to_string(),
            name: "A".to_string(),
        }, 1)
        .unwrap();
    sub_core
        .entity_sharing_core
        .connected_app_core
        .create_connected_app(&CreateConnectedAppParams {
            id: "app-b".to_string(),
            name: "B".to_string(),
        }, 1)
        .unwrap();
    let f = sub_core
        .entity_sharing_core
        .create_entity_sharing(
            &CreateEntitySharingParams {
                id: "feed-f".to_string(),
                name: "F".to_string(),
                connected_app_id: "app-a".to_string(),
                json_schema: empty_schema(),
                polling_infos: Some(EntitySharingPollingInfos { polling_interval: 50 }),
                is_array: true,
                python_script: Some("result = [{\"name\": \"x\"}]".to_string()),
            },
            2,
            &mut bus,
        )
        .unwrap();
    let s = sub_core
        .create_entity_subscription(
            &CreateEntitySubscriptionParams {
                id: "sub-s".to_string(),
                entity_sharing_id: f.id.clone(),
                connected_app_id: "app-b".to_string(),
                jdm_transform: None,
                python_script: None,
            },
            3,
        )
        .unwrap();

    // The manager spawned exactly one worker for F.
    assert_eq!(bus.subscribers[0].workers.len(), 1);
    let mut worker = bus.subscribers[0].workers.remove(0);

    // One cycle: the worker wants F's script run, the sanitiser leaves it
    // untouched, and the (simulated) isolated process yields the JSON list.
    let start = worker.begin_cycle(false);
    let script = match start {
        CycleStart::Run { script, interval_millis } => {
            assert_eq!(interval_millis, 50);
            script.expect("feed F has a transform script")
        }
        CycleStart::Exit => panic!("worker for a polled feed must run"),
    };
    assert_eq!(clean_python_script(script.clone()), script);
    let payload = serde_json::from_str::<serde_json::Value>("[{\"name\": \"x\"}]").unwrap();
    let outcome = worker.finish_cycle(Some(Ok(payload.clone())));
    let delivered = match outcome {
        CycleOutcome::Deliver { payload, sleep_millis } => {
            assert_eq!(sleep_millis, 50);
            payload
        }
        _ => panic!("a successful script run must be delivered"),
    };
    assert_eq!(delivered, payload);

    // Fan-out: the subscription list for F holds S, and delivery succeeds.
    let subs = sub_core
        .get_all_entity_subscriptions_for_entity_sharing(&f.id)
        .unwrap();
    assert_eq!(subs.len(), 1);
    assert_eq!(subs[0].id, s.id);
    let results = sub_core.notify_all_subscriptions_of_new_entity_list(&subs, vec![None]);
    assert_eq!(results.len(), 1);
    assert_eq!(results[0].subscription_id, "sub-s");
    assert!(results[0].outcome.is_ok());
}

#[test]
fn test_unpolled_feed_never_reaches_a_worker() {
    // Create feed F with no polling configuration: whatever else happens,
    // the active-workers set never contains F.
    let mut core = sharing_core();
    core.connected_app_core
        .create_connected_app(&CreateConnectedAppParams {
            id: "app-1".to_string(),
            name: "owner".to_string(),
        }, 1)
        .unwrap();
    let mut bus: Bus<EntityPollingHandler> = Bus::new();
    bus.subscribe(EntityPollingHandler::new());
    core.create_entity_sharing(
        &CreateEntitySharingParams {
            id: "feed-idle".to_string(),
            name: "F".to_string(),
            connected_app_id: "app-1".to_string(),
            json_schema: empty_schema(),
            polling_infos: None,
            is_array: false,
            python_script: Some("result = 1".to_string()),
        },
        2,
        &mut bus,
    )
    .unwrap();
    assert!(bus.subscribers[0].workers.is_empty());
    assert!(bus.subscribers[0].actions.is_empty());
}
