use kurtosis_testsuite::api_factory::{ApiContainerConfigFactory, CONFIG_FILE_KEY};
use kurtosis_testsuite::container_config::{
    decimal_string, port_spec, ConfigError, ContainerConfigFactory, ContainerCreationConfigBuilder,
    ContainerRunConfigBuilder,
};
use kurtosis_testsuite::lifecycle::{Lifecycle, Stage};
use kurtosis_testsuite::metadata::{
    build_test_metadata, timeout_seconds_to_u32, DynTestContainer, MetadataError, Test,
    TestConfiguration, MAX_TIMEOUT_SECONDS,
};
use kurtosis_testsuite::services::{ApiService, DatastoreService, ServiceContext};
use kurtosis_testsuite::string_map::StringMap;

fn map_of(entries: &[(&str, &str)]) -> StringMap {
    let mut m = StringMap::new();
    for (k, v) in entries {
        m.insert(k.to_string(), v.to_string());
    }
    m
}

fn sorted(mut v: Vec<String>) -> Vec<String> {
    v.sort();
    v
}

struct FixedTest {
    urls: Vec<(&'static str, &'static str)>,
    partitioning: bool,
    setup_seconds: u64,
    execution_seconds: u64,
}

impl Test for FixedTest {
    fn get_test_configuration(&self) -> TestConfiguration {
        TestConfiguration {
            is_partitioning_enabled: self.partitioning,
            files_artifact_urls: map_of(&self.urls),
        }
    }

    fn get_setup_timeout_seconds(&self) -> u64 {
        self.setup_seconds
    }

    fn get_execution_timeout_seconds(&self) -> u64 {
        self.execution_seconds
    }
}

fn datastore() -> DatastoreService {
    DatastoreService::new(
        ServiceContext::new("datastore".to_string(), "172.17.0.3".to_string()),
        1323,
    )
}

fn drive(outcomes: &[bool]) -> (Vec<Stage>, Lifecycle) {
    let mut performed = Vec::new();
    let mut state = Lifecycle::start();
    let mut next = outcomes.iter();
    while let Some(stage) = state.stage_to_perform() {
        performed.push(stage);
        let ok = *next.next().expect("an outcome for every performed stage");
        state = state.advance(ok);
    }
    (performed, state)
}

#[test]
fn string_map_insert_replaces_value() {
    let mut m = StringMap::new();
    m.insert("a".to_string(), "1".to_string());
    m.insert("b".to_string(), "2".to_string());
    m.insert("a".to_string(), "3".to_string());
    assert_eq!(m.len(), 2);
    assert_eq!(m.get(&"a".to_string()).map(|s| s.as_str()), Some("3"));
    assert_eq!(m.get(&"b".to_string()).map(|s| s.as_str()), Some("2"));
    assert_eq!(m.get(&"c".to_string()), None);
}

#[test]
fn metadata_deduplicates_artifact_urls() {
    let test = FixedTest {
        urls: vec![
            ("a", "http://x/one.tgz"),
            ("b", "http://x/two.tgz"),
            ("c", "http://x/one.tgz"),
            ("d", "http://x/one.tgz"),
        ],
        partitioning: true,
        setup_seconds: 60,
        execution_seconds: 120,
    };
    let container = DynTestContainer::new(test);
    let m = container.get_test_metadata().unwrap();
    assert_eq!(
        sorted(m.used_artifact_urls),
        vec!["http://x/one.tgz".to_string(), "http://x/two.tgz".to_string()]
    );
    assert!(m.is_partitioning_enabled);
    assert_eq!(m.test_setup_timeout_in_seconds, 60);
    assert_eq!(m.test_execution_timeout_in_seconds, 120);
}

#[test]
fn metadata_with_no_artifacts() {
    let config = TestConfiguration { is_partitioning_enabled: false, files_artifact_urls: StringMap::new() };
    let m = build_test_metadata(&config, 0, 0).unwrap();
    assert!(m.used_artifact_urls.is_empty());
    assert!(!m.is_partitioning_enabled);
    assert_eq!(m.test_setup_timeout_in_seconds, 0);
}

#[test]
fn timeout_at_bound_round_trips() {
    assert_eq!(timeout_seconds_to_u32(MAX_TIMEOUT_SECONDS), Some(u32::MAX));
    assert_eq!(timeout_seconds_to_u32(7), Some(7));
    let config = TestConfiguration { is_partitioning_enabled: false, files_artifact_urls: StringMap::new() };
    let m = build_test_metadata(&config, 4294967295, 30).unwrap();
    assert_eq!(m.test_setup_timeout_in_seconds as u64, 4294967295);
    assert_eq!(m.test_execution_timeout_in_seconds, 30);
}

#[test]
fn timeout_over_bound_is_conversion_error() {
    assert_eq!(timeout_seconds_to_u32(4294967296), None);
    let config = TestConfiguration { is_partitioning_enabled: false, files_artifact_urls: StringMap::new() };
    assert!(matches!(
        build_test_metadata(&config, 4294967296, 10),
        Err(MetadataError::SetupTimeoutOutOfRange(4294967296))
    ));
    assert!(matches!(
        build_test_metadata(&config, 10, u64::MAX),
        Err(MetadataError::ExecutionTimeoutOutOfRange(u64::MAX))
    ));
    let container = DynTestContainer::new(FixedTest {
        urls: vec![],
        partitioning: false,
        setup_seconds: 5,
        execution_seconds: 1u64 << 40,
    });
    assert!(matches!(
        container.get_test_metadata(),
        Err(MetadataError::ExecutionTimeoutOutOfRange(_))
    ));
    assert_eq!(container.test().execution_seconds, 1u64 << 40);
}

#[test]
fn lifecycle_all_stages_succeed() {
    let (performed, state) = drive(&[true, true, true, true, true]);
    assert_eq!(
        performed,
        vec![
            Stage::RegisterSetup,
            Stage::Setup,
            Stage::RegisterSetupCompletion,
            Stage::RegisterExecution,
            Stage::Run
        ]
    );
    assert_eq!(state.outcome(), Some(Ok(())));
}

#[test]
fn lifecycle_setup_failure_skips_run() {
    let (performed, state) = drive(&[true, false]);
    assert_eq!(performed, vec![Stage::RegisterSetup, Stage::Setup]);
    assert!(!performed.contains(&Stage::Run));
    assert_eq!(state.outcome(), Some(Err(Stage::Setup)));
}

#[test]
fn lifecycle_run_failure_after_checkpoints() {
    let (performed, state) = drive(&[true, true, true, true, false]);
    assert_eq!(
        performed,
        vec![
            Stage::RegisterSetup,
            Stage::Setup,
            Stage::RegisterSetupCompletion,
            Stage::RegisterExecution,
            Stage::Run
        ]
    );
    assert_eq!(state.outcome(), Some(Err(Stage::Run)));
}

#[test]
fn lifecycle_registration_failure_stops_at_once() {
    let (performed, state) = drive(&[false]);
    assert_eq!(performed, vec![Stage::RegisterSetup]);
    assert_eq!(state.outcome(), Some(Err(Stage::RegisterSetup)));
    let (performed, state) = drive(&[true, true, true, false]);
    assert_eq!(performed.len(), 4);
    assert_eq!(state.outcome(), Some(Err(Stage::RegisterExecution)));
    assert_eq!(Lifecycle::Failed(Stage::Setup).advance(true), Lifecycle::Failed(Stage::Setup));
    assert_eq!(Lifecycle::start().outcome(), None);
}

#[test]
fn decimal_and_port_tokens() {
    assert_eq!(decimal_string(0), "0");
    assert_eq!(decimal_string(2434), "2434");
    assert_eq!(decimal_string(u32::MAX), "4294967295");
    assert_eq!(port_spec(1323, "tcp"), "1323/tcp");
}

#[test]
fn api_creation_config() {
    let ds = datastore();
    let factory = ApiContainerConfigFactory::new("kurtosistech/api".to_string(), &ds);
    let c = factory.get_creation_config(&"172.17.0.4".to_string()).unwrap();
    assert_eq!(c.image, "kurtosistech/api");
    assert_eq!(c.test_volume_mountpoint, "/test-volume");
    assert_eq!(c.used_ports, vec!["2434/tcp".to_string()]);
    assert_eq!(c.generated_files.len(), 1);
    assert_eq!(
        c.generated_files.get(&CONFIG_FILE_KEY.to_string()).map(|s| s.as_str()),
        Some("{\"datastoreIp\":\"172.17.0.3\",\"datastorePort\":1323}")
    );
}

#[test]
fn api_config_escapes_datastore_address() {
    let ds = DatastoreService::new(
        ServiceContext::new("datastore".to_string(), "a\"b".to_string()),
        7,
    );
    let factory = ApiContainerConfigFactory::new("img".to_string(), &ds);
    let c = factory.get_creation_config(&"10.0.0.1".to_string()).unwrap();
    assert_eq!(
        c.generated_files.get(&"config-file".to_string()).map(|s| s.as_str()),
        Some("{\"datastoreIp\":\"a\\\"b\",\"datastorePort\":7}")
    );
}

#[test]
fn api_run_config_resolves_config_path() {
    let ds = datastore();
    let factory = ApiContainerConfigFactory::new("kurtosistech/api".to_string(), &ds);
    let paths = map_of(&[("config-file", "/test-volume/cfg.json")]);
    let r = factory.get_run_config(&"172.17.0.4".to_string(), &paths).unwrap();
    assert_eq!(
        r.start_command_override,
        Some(vec![
            "./api.bin".to_string(),
            "--config".to_string(),
            "/test-volume/cfg.json".to_string()
        ])
    );
}

#[test]
fn api_run_config_missing_key_fails() {
    let ds = datastore();
    let factory = ApiContainerConfigFactory::new("kurtosistech/api".to_string(), &ds);
    let paths = map_of(&[("other-file", "/test-volume/other.json")]);
    match factory.get_run_config(&"172.17.0.4".to_string(), &paths) {
        Err(ConfigError::MissingFilepath(key)) => assert_eq!(key, "config-file"),
        other => panic!("expected a missing file path, got {:?}", other.err()),
    }
    assert!(factory.get_run_config(&"172.17.0.4".to_string(), &StringMap::new()).is_err());
}

#[test]
fn builders_defaults_and_overrides() {
    let c = ContainerCreationConfigBuilder::new("img".to_string(), "/vol".to_string()).build();
    assert!(c.used_ports.is_empty());
    assert_eq!(c.generated_files.len(), 0);
    assert!(ContainerRunConfigBuilder::new().build().start_command_override.is_none());
    let r = ContainerRunConfigBuilder::new().with_cmd_override(vec!["x".to_string()]).build();
    assert_eq!(r.start_command_override, Some(vec!["x".to_string()]));
}

#[test]
fn service_context_identity_and_exec_results() {
    let ctx = ServiceContext::new("svc".to_string(), "10.0.0.2".to_string());
    assert_eq!(ctx.get_service_id(), "svc");
    assert_eq!(ctx.get_ip_address(), "10.0.0.2");
    let cmd = vec!["ls".to_string(), "-l".to_string()];
    let args = ctx.exec_command_args(cmd.clone());
    assert_eq!(args.service_id, "svc");
    assert_eq!(args.command_args, cmd);
    let ok = ctx.exec_command_result(cmd.clone(), Ok((3, b"out".to_vec()))).unwrap();
    assert_eq!(ok, (3, b"out".to_vec()));
    let err = ctx.exec_command_result(cmd.clone(), Err("unreachable".to_string())).unwrap_err();
    assert_eq!(err.service_id, "svc");
    assert_eq!(err.command, cmd);
    assert_eq!(err.cause, "unreachable");
    let api: ApiService = ApiContainerConfigFactory::create_service(ctx);
    assert_eq!(api.get_port(), 2434);
    assert_eq!(api.get_ip_address(), "10.0.0.2");
    let ds = datastore();
    assert_eq!(ds.get_service_id(), "datastore");
    assert_eq!(ds.get_port(), 1323);
}

fn start_command_of<S, F: ContainerConfigFactory<S>>(factory: &F, paths: &StringMap) -> Option<Vec<String>> {
    factory.get_run_config(&"10.0.0.9".to_string(), paths).ok()?.start_command_override
}

#[test]
fn factory_used_through_its_trait() {
    let ds = datastore();
    let factory = ApiContainerConfigFactory::new("kurtosistech/api".to_string(), &ds);
    let paths = map_of(&[("config-file", "/data/c.json")]);
    assert_eq!(
        start_command_of(&factory, &paths),
        Some(vec!["./api.bin".to_string(), "--config".to_string(), "/data/c.json".to_string()])
    );
    let svc = ContainerConfigFactory::create_service(
        &factory,
        ServiceContext::new("api".to_string(), "10.0.0.9".to_string()),
    );
    assert_eq!(svc.get_port(), 2434);
}

#[test]
fn repeated_url_declaration_changes_nothing() {
    let base = vec![("a", "https://x/one.tgz"), ("c", "https://x/two.tgz")];
    let mut grown = base.clone();
    grown.push(("b", "https://x/one.tgz"));
    let urls_of = |urls: Vec<(&'static str, &'static str)>| {
        let container = DynTestContainer::new(FixedTest {
            urls,
            partitioning: false,
            setup_seconds: 60,
            execution_seconds: 120,
        });
        sorted(container.get_test_metadata().unwrap().used_artifact_urls)
    };
    assert_eq!(urls_of(base), urls_of(grown));
}

#[test]
fn creation_config_ignores_container_address() {
    let ds = datastore();
    let factory = ApiContainerConfigFactory::new("kurtosistech/api".to_string(), &ds);
    let a = factory.get_creation_config(&"10.0.0.1".to_string()).unwrap();
    let b = factory.get_creation_config(&"10.9.9.9".to_string()).unwrap();
    assert_eq!(a.image, b.image);
    assert_eq!(a.used_ports, b.used_ports);
    assert_eq!(
        a.generated_files.get(&CONFIG_FILE_KEY.to_string()),
        b.generated_files.get(&CONFIG_FILE_KEY.to_string())
    );
}
