use sharing_hub::entity_sharing::{
    entity_sharing_dto_to_entity_sharing, parse_polling_infos, validate_polling_infos,
    EntitySharingDTO, EntitySharingPollingInfos,
};
use sharing_hub::entity_subscription::{
    EntitySubscription, EntitySubscriptionCore, EntitySubscriptionRepository,
    CreateEntitySubscriptionParams,
};
use sharing_hub::connected_app::{ConnectedAppCore, ConnectedAppRepository, ConnectedApp, CreateConnectedAppParams};
use sharing_hub::entity_sharing::{EntitySharingCore, EntitySharingRepository, CreateEntitySharingParams, EntitySharing};
use sharing_hub::errors::Error;
use sharing_hub::script_runner::{
    interpret_script_run, supervise_tick, ResourceLimits, SupervisorVerdict,
};
use sharing_hub::script_sanitizer::clean_python_script;

struct NoAppRepo;

impl ConnectedAppRepository for NoAppRepo {
    fn apps(&self) -> vstd::map::Map<vstd::seq::Seq<char>, ConnectedApp> {
        unreachable!()
    }

    fn create_connected_app(
        &mut self,
        _params: &CreateConnectedAppParams,
        _now: i64,
    ) -> Result<ConnectedApp, Error> {
        Err(Error::DatabaseError("unused".to_string()))
    }

    fn get_connected_app(&self, id: &String) -> Result<ConnectedApp, Error> {
        Err(Error::NotFoundError(format!("connected app {} not found", id)))
    }

    fn get_all_connected_apps(&self) -> Result<Vec<ConnectedApp>, Error> {
        Ok(vec![])
    }
}

struct NoSharingRepo;

impl EntitySharingRepository for NoSharingRepo {
    fn sharings(&self) -> vstd::map::Map<vstd::seq::Seq<char>, EntitySharing> {
        unreachable!()
    }

    fn create_entity_sharing(
        &mut self,
        _params: &CreateEntitySharingParams,
        _now: i64,
    ) -> Result<EntitySharing, Error> {
        Err(Error::DatabaseError("unused".to_string()))
    }

    fn get_entity_sharing(&self, _id: &String) -> Result<EntitySharing, Error> {
        Ok(EntitySharing {
            id: _id.clone(),
            name: "feed".to_string(),
            connected_app_id: "app".to_string(),
            created_at: 1,
            updated_at: 1,
            polling_infos: None,
            json_schema: serde_json::Value::Null,
            is_array: false,
            python_script: None,
        })
    }

    fn get_all_entity_sharings(&self) -> Result<Vec<EntitySharing>, Error> {
        Ok(vec![])
    }

    fn get_all_polling_entity_sharings(&self) -> Result<Vec<EntitySharing>, Error> {
        Ok(vec![])
    }

    fn update_entity_sharing(&mut self, _entity_sharing: &EntitySharing) -> Result<u64, Error> {
        Ok(0)
    }
}

struct NoSubRepo;

impl EntitySubscriptionRepository for NoSubRepo {
    fn subscriptions(&self) -> vstd::map::Map<vstd::seq::Seq<char>, EntitySubscription> {
        unreachable!()
    }

    fn create_entity_subscription(
        &mut self,
        _params: &CreateEntitySubscriptionParams,
        _now: i64,
    ) -> Result<EntitySubscription, Error> {
        Err(Error::DatabaseError("unused".to_string()))
    }

    fn get_entity_subscription_by_id(&self, id: &String) -> Result<EntitySubscription, Error> {
        Err(Error::NotFoundError(format!("entity subscription {} not found", id)))
    }

    fn get_all_entity_subscriptions_for_entity_sharing(
        &self,
        _entity_sharing_id: &String,
    ) -> Result<Vec<EntitySubscription>, Error> {
        Ok(vec![])
    }
}

fn notifier_core() -> EntitySubscriptionCore<NoAppRepo, NoSharingRepo, NoSubRepo> {
    EntitySubscriptionCore {
        entity_subscription_repository: NoSubRepo,
        entity_sharing_core: EntitySharingCore::new(
            ConnectedAppCore { connected_app_repository: NoAppRepo },
            NoSharingRepo,
        ),
    }
}

fn sub(id: &str, script: Option<&str>) -> EntitySubscription {
    EntitySubscription {
        id: id.to_string(),
        entity_sharing_id: "feed-1".to_string(),
        created_at: 1,
        updated_at: 1,
        connected_app_id: "app-1".to_string(),
        jdm_transform: None,
        python_script: script.map(|s| s.to_string()),
    }
}

#[test]
fn test_fanout_isolates_one_failing_subscriber() {
    // Three subscriptions; the middle one's script always fails.  Delivery
    // is still attempted for all three: three results, two successful.
    let core = notifier_core();
    let subs = vec![sub("s-1", None), sub("s-2", Some("boom")), sub("s-3", None)];
    let outcomes = vec![
        None,
        Some(Err(Error::ScriptOutputError("script failed".to_string()))),
        None,
    ];
    let results = core.notify_all_subscriptions_of_new_entity_list(&subs, outcomes);
    assert_eq!(results.len(), 3);
    assert!(results[0].outcome.is_ok());
    assert!(results[1].outcome.is_err());
    assert!(results[2].outcome.is_ok());
    assert_eq!(results.iter().filter(|r| r.outcome.is_ok()).count(), 2);
    assert_eq!(results[1].subscription_id, "s-2");
}

#[test]
fn test_fanout_captures_rule_engine_failure_per_subscriber() {
    let core = notifier_core();
    let s = sub("s-4", Some("transform"));
    let r = core.notify_subscription_of_new_entity_list(
        &s,
        Some(Err(Error::RuleEngineError("decision table rejected input".to_string()))),
    );
    assert_eq!(r.subscription_id, "s-4");
    assert!(matches!(r.outcome, Err(Error::RuleEngineError(_))));
}

#[test]
fn test_supervisor_kills_on_time_ceiling() {
    let limits = ResourceLimits::default();
    assert_eq!(supervise_tick(true, 1024, 31, &limits), SupervisorVerdict::KillTimeExceeded);
    assert_eq!(supervise_tick(true, 1024, 30, &limits), SupervisorVerdict::Continue);
}

#[test]
fn test_supervisor_kills_on_memory_ceiling() {
    let limits = ResourceLimits::default();
    assert_eq!(
        supervise_tick(true, 2 * 1024 * 1024 * 1024, 0, &limits),
        SupervisorVerdict::KillMemoryExceeded
    );
    assert_eq!(supervise_tick(false, 2 * 1024 * 1024 * 1024, 99, &limits), SupervisorVerdict::Finished);
}

#[test]
fn test_killed_script_reports_resource_exceeded() {
    // A script that slept past the ceiling was killed: the run reports the
    // resource kill, not an output problem.
    let r = interpret_script_run(true, true, "");
    assert_eq!(r, Err(Error::ScriptResourceExceeded));
}

#[test]
fn test_failed_launch_reports_launch_error() {
    let r = interpret_script_run(false, false, "");
    assert!(matches!(r, Err(Error::ScriptLaunchError(_))));
}

#[test]
fn test_unparsable_output_reports_output_error() {
    let r = interpret_script_run(true, false, "Traceback (most recent call last):");
    assert!(matches!(r, Err(Error::ScriptOutputError(_))));
}

#[test]
fn test_sanitised_script_output_parses_clean() {
    // A script with a stray print still yields clean JSON output: the print
    // is stripped before execution, so only the result reaches stdout.
    let script = "print('debug')\nresult = {\"ok\": true}".to_string();
    assert_eq!(clean_python_script(script), "result = {\"ok\": true}");
    let parsed = interpret_script_run(true, false, "{\"ok\": true}").unwrap();
    assert_eq!(parsed, serde_json::from_str::<serde_json::Value>("{\"ok\": true}").unwrap());
}

#[test]
fn test_parse_polling_infos_reads_interval() {
    assert_eq!(
        parse_polling_infos("{\"polling_interval\": 750}"),
        Some(Some(EntitySharingPollingInfos { polling_interval: 750 }))
    );
    assert_eq!(parse_polling_infos("null"), Some(None));
    assert_eq!(parse_polling_infos("{\"interval\": 750}"), None);
    assert_eq!(parse_polling_infos("not json"), None);
    assert_eq!(parse_polling_infos("{\"polling_interval\": -3}"), None);
}

#[test]
fn test_validate_polling_infos_rejects_zero() {
    assert!(validate_polling_infos(&None));
    assert!(validate_polling_infos(&Some(EntitySharingPollingInfos { polling_interval: 1 })));
    assert!(!validate_polling_infos(&Some(EntitySharingPollingInfos { polling_interval: 0 })));
}

fn dto(polling: Option<&str>, schema: &str) -> EntitySharingDTO {
    EntitySharingDTO {
        id: "feed-1".to_string(),
        name: "feed".to_string(),
        connected_app_id: "app-1".to_string(),
        created_at: 11,
        updated_at: 12,
        polling_infos: polling.map(|s| s.to_string()),
        json_schema: schema.to_string(),
        is_array: true,
        python_script: Some("result = []".to_string()),
    }
}

#[test]
fn test_dto_conversion_reads_row() {
    let e = entity_sharing_dto_to_entity_sharing(dto(
        Some("{\"polling_interval\": 900}"),
        "{\"type\": \"object\"}",
    ))
    .unwrap();
    assert_eq!(e.id, "feed-1");
    assert_eq!(e.created_at, 11);
    assert_eq!(e.updated_at, 12);
    assert_eq!(e.polling_infos, Some(EntitySharingPollingInfos { polling_interval: 900 }));
    assert_eq!(
        e.json_schema,
        serde_json::from_str::<serde_json::Value>("{\"type\": \"object\"}").unwrap()
    );
    assert!(e.is_array);
}

#[test]
fn test_dto_conversion_null_polling_means_no_polling() {
    let e = entity_sharing_dto_to_entity_sharing(dto(Some("null"), "{}")).unwrap();
    assert_eq!(e.polling_infos, None);
    let e2 = entity_sharing_dto_to_entity_sharing(dto(None, "{}")).unwrap();
    assert_eq!(e2.polling_infos, None);
}

#[test]
fn test_dto_conversion_rejects_malformed_json() {
    assert!(matches!(
        entity_sharing_dto_to_entity_sharing(dto(Some("{oops"), "{}")),
        Err(Error::JsonError(_))
    ));
    assert!(matches!(
        entity_sharing_dto_to_entity_sharing(dto(None, "{oops")),
        Err(Error::JsonError(_))
    ));
}
