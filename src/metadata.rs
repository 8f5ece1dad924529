use vstd::prelude::*;

use crate::string_map::{views_of, StringMap};

verus! {

/// The largest number of seconds that a timeout reported to the orchestrator can hold.
pub const MAX_TIMEOUT_SECONDS: u64 = 4294967295;

/// What a test declares about itself.
#[derive(Debug)]
pub struct TestConfiguration {
    /// Whether the test needs network partitioning.
    pub is_partitioning_enabled: bool,
    /// Files artifacts the test uses, from artifact id to URL.
    pub files_artifact_urls: StringMap,
}

/// What the orchestrator learns about a test before it runs.
#[derive(Debug)]
pub struct TestMetadata {
    pub is_partitioning_enabled: bool,
    /// Each artifact URL the test uses, once.
    pub used_artifact_urls: Vec<String>,
    pub test_setup_timeout_in_seconds: u32,
    pub test_execution_timeout_in_seconds: u32,
}

/// Why a test's metadata could not be produced: a timeout does not fit 32 bits.
#[derive(Debug, Clone, Copy, PartialEq, Eq, Structural)]
pub enum MetadataError {
    /// The setup timeout, in seconds, is too large.
    SetupTimeoutOutOfRange(u64),
    /// The execution timeout, in seconds, is too large.
    ExecutionTimeoutOutOfRange(u64),
}

/// The set of URLs that a list of URLs holds.
pub open spec fn url_set(urls: Seq<String>) -> Set<Seq<char>> {
    views_of(urls).to_set()
}

/// `m` is the metadata of a test configured by `config` with the given timeouts.
pub open spec fn describes(
    m: TestMetadata,
    config: TestConfiguration,
    setup_timeout_seconds: u64,
    execution_timeout_seconds: u64,
) -> bool {
    &&& m.is_partitioning_enabled == config.is_partitioning_enabled
    &&& views_of(m.used_artifact_urls@).no_duplicates()
    &&& url_set(m.used_artifact_urls@) == config.files_artifact_urls.value_set()
    &&& m.test_setup_timeout_in_seconds as u64 == setup_timeout_seconds
    &&& m.test_execution_timeout_in_seconds as u64 == execution_timeout_seconds
}

/// The outcome that the metadata of such a test must have.
pub open spec fn metadata_result_ok(
    r: Result<TestMetadata, MetadataError>,
    config: TestConfiguration,
    setup_timeout_seconds: u64,
    execution_timeout_seconds: u64,
) -> bool {
    match r {
        Ok(m) => setup_timeout_seconds <= MAX_TIMEOUT_SECONDS
            && execution_timeout_seconds <= MAX_TIMEOUT_SECONDS
            && describes(m, config, setup_timeout_seconds, execution_timeout_seconds),
        Err(MetadataError::SetupTimeoutOutOfRange(s)) => setup_timeout_seconds > MAX_TIMEOUT_SECONDS
            && s == setup_timeout_seconds,
        Err(MetadataError::ExecutionTimeoutOutOfRange(s)) => setup_timeout_seconds
            <= MAX_TIMEOUT_SECONDS && execution_timeout_seconds > MAX_TIMEOUT_SECONDS && s
            == execution_timeout_seconds,
    }
}

/// Declaring one more artifact, under a new id, with a URL already declared
/// leaves the set of URLs, and so a test's metadata URLs, unchanged.
pub proof fn lemma_repeated_url_changes_nothing(
    urls: Map<Seq<char>, Seq<char>>,
    artifact_id: Seq<char>,
    url: Seq<char>,
)
    requires
        !urls.contains_key(artifact_id),
        urls.values().contains(url),
    ensures
        urls.insert(artifact_id, url).values() == urls.values(),
{
    let grown = urls.insert(artifact_id, url);
    assert forall|v: Seq<char>| grown.values().contains(v) implies urls.values().contains(v) by {
        let k = choose|k: Seq<char>| #[trigger] grown.dom().contains(k) && grown[k] == v;
        if k != artifact_id {
            assert(urls.dom().contains(k) && urls[k] == v);
        }
    }
    assert forall|v: Seq<char>| urls.values().contains(v) implies grown.values().contains(v) by {
        let k = choose|k: Seq<char>| #[trigger] urls.dom().contains(k) && urls[k] == v;
        assert(grown.dom().contains(k) && grown[k] == v);
    }
    assert(grown.values() =~= urls.values());
}

/// Converts a timeout in seconds to the 32-bit count the orchestrator takes,
/// or `None` when it does not fit.
pub fn timeout_seconds_to_u32(seconds: u64) -> (r: Option<u32>)
    ensures
        r is Some <==> seconds <= MAX_TIMEOUT_SECONDS,
        r is Some ==> r->Some_0 as u64 == seconds,
{
    if seconds <= MAX_TIMEOUT_SECONDS {
        Some(seconds as u32)
    } else {
        None
    }
}

/// The metadata of a test with configuration `config` and the given timeouts:
/// its artifact URLs without repeats, and both timeouts as 32-bit counts.
pub fn build_test_metadata(
    config: &TestConfiguration,
    setup_timeout_seconds: u64,
    execution_timeout_seconds: u64,
) -> (r: Result<TestMetadata, MetadataError>)
    ensures
        metadata_result_ok(r, *config, setup_timeout_seconds, execution_timeout_seconds),
{
    let used_artifact_urls = config.files_artifact_urls.distinct_values();
    let setup = match timeout_seconds_to_u32(setup_timeout_seconds) {
        Some(s) => s,
        None => {
            return Err(MetadataError::SetupTimeoutOutOfRange(setup_timeout_seconds));
        },
    };
    let execution = match timeout_seconds_to_u32(execution_timeout_seconds) {
        Some(s) => s,
        None => {
            return Err(MetadataError::ExecutionTimeoutOutOfRange(execution_timeout_seconds));
        },
    };
    Ok(
        TestMetadata {
            is_partitioning_enabled: config.is_partitioning_enabled,
            used_artifact_urls,
            test_setup_timeout_in_seconds: setup,
            test_execution_timeout_in_seconds: execution,
        },
    )
}

/// A test that the framework can describe to the orchestrator.
/// Test authors implement it; the setup and run phases are driven by
/// the lifecycle in `crate::lifecycle`.
pub trait Test {
    /// The test's declared configuration.
    fn get_test_configuration(&self) -> TestConfiguration;

    /// How long setup may take, in whole seconds.
    fn get_setup_timeout_seconds(&self) -> u64;

    /// How long execution may take, in whole seconds.
    fn get_execution_timeout_seconds(&self) -> u64;
}

/// Holds one test of any type, so that tests of different types can be
/// kept and dispatched alike.
pub struct DynTestContainer<T: Test> {
    test: T,
}

impl<T: Test> DynTestContainer<T> {
    /// The test that this container holds.
    pub closed spec fn held(&self) -> T {
        self.test
    }

    /// Wraps `test`.
    pub fn new(test: T) -> (r: DynTestContainer<T>)
        ensures
            r.held() == test,
    {
        DynTestContainer { test }
    }

    /// The wrapped test.
    pub fn test(&self) -> (r: &T)
        ensures
            *r == self.held(),
    {
        &self.test
    }

    /// Asks the wrapped test for its configuration and timeouts, and returns
    /// the metadata they give (see `build_test_metadata`).
    pub fn get_test_metadata(&self) -> (r: Result<TestMetadata, MetadataError>)
        ensures
            exists|config: TestConfiguration, s: u64, e: u64|
                metadata_result_ok(r, config, s, e),
    {
        let config = self.test.get_test_configuration();
        let setup = self.test.get_setup_timeout_seconds();
        let execution = self.test.get_execution_timeout_seconds();
        build_test_metadata(&config, setup, execution)
    }
}

} // verus!
