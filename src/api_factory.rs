use vstd::prelude::*;

use crate::container_config::{
    decimal, decimal_string, port_spec, port_token, ConfigError, ContainerConfigFactory,
    ContainerCreationConfig, ContainerCreationConfigBuilder, ContainerRunConfig,
    ContainerRunConfigBuilder,
};
use crate::services::{ApiService, DatastoreService, ServiceContext};
use crate::string_map::{views_of, StringMap};

verus! {

/// The port the API service listens on.
pub const API_PORT: u32 = 2434;

/// The protocol of the API service's port.
pub const API_PROTOCOL: &'static str = "tcp";

/// The key of the API service's generated config file.
pub const CONFIG_FILE_KEY: &'static str = "config-file";

/// Where the test volume is mounted in the API container.
pub const TEST_VOLUME_MOUNTPOINT: &'static str = "/test-volume";

/// The API service's binary, and the flag that points it at its config file.
pub const API_BINARY: &'static str = "./api.bin";

pub const CONFIG_FLAG: &'static str = "--config";

#[verifier::external_type_specification]
#[verifier::external_body]
pub struct ExJsonError(serde_json::Error);

/// The JSON string literal, quoted and escaped, that stands for `s`.
pub uninterp spec fn json_string_literal(s: Seq<char>) -> Seq<char>;

/// Relies on serde_json::to_string applied to a string: it returns the JSON
/// string literal for that string, and cannot fail, since a string is escaped
/// into an in-memory buffer, which accepts every write.
#[verifier::external_body]
fn to_json_string(s: &String) -> (r: Result<String, serde_json::Error>)
    ensures
        r is Ok,
        r is Ok ==> r->Ok_0@ == json_string_literal(s@),
{
    serde_json::to_string(s)
}

/// The API service's config file: a JSON object naming the datastore's
/// address (given as a JSON string literal) and port.
pub open spec fn config_document(datastore_ip_literal: Seq<char>, datastore_port: nat) -> Seq<char> {
    "{\"datastoreIp\":"@ + datastore_ip_literal + ",\"datastorePort\":"@ + decimal(datastore_port)
        + "}"@
}

/// The API service's start command, reading its config from `config_path`.
pub open spec fn api_start_command(config_path: Seq<char>) -> Seq<Seq<char>> {
    seq![API_BINARY@, CONFIG_FLAG@, config_path]
}

/// The config file for an API service whose datastore is at the address
/// whose JSON literal is `datastore_ip_literal`, on `datastore_port`.
pub fn config_file_json(datastore_ip_literal: &String, datastore_port: u32) -> (r: String)
    ensures
        r@ == config_document(datastore_ip_literal@, datastore_port as nat),
{
    let mut s = String::from_str("{\"datastoreIp\":");
    s.append(datastore_ip_literal.as_str());
    s.append(",\"datastorePort\":");
    let port = decimal_string(datastore_port);
    s.append(port.as_str());
    s.append("}");
    s
}

/// Describes how to create and start the container of an API service that
/// talks to `datastore`.
pub struct ApiContainerConfigFactory<'obj> {
    image: String,
    datastore: &'obj DatastoreService,
}

impl<'obj> ApiContainerConfigFactory<'obj> {
    pub closed spec fn image(&self) -> Seq<char> {
        self.image@
    }

    pub closed spec fn datastore(&self) -> DatastoreService {
        *self.datastore
    }

    pub fn new(image: String, datastore: &'obj DatastoreService) -> (r: ApiContainerConfigFactory<'obj>)
        ensures
            r.image() == image@,
            r.datastore() == *datastore,
    {
        ApiContainerConfigFactory { image, datastore }
    }

    /// The API service on the container that `service_ctx` names.
    pub fn create_service(service_ctx: ServiceContext) -> (r: ApiService)
        ensures
            r.context() == service_ctx,
            r.port() == API_PORT,
    {
        ApiService::new(service_ctx, API_PORT)
    }

    /// The creation config of the API container: its image, the test volume's
    /// mount point, its one port, and one generated file, the config file,
    /// that names the datastore's address and port.
    pub fn get_creation_config(&self, _container_ip_addr: &String) -> (r: Result<
        ContainerCreationConfig,
        ConfigError,
    >)
        ensures
            r is Ok,
            r is Ok ==> {
                let c = r->Ok_0;
                &&& c.image@ == self.image()
                &&& c.test_volume_mountpoint@ == TEST_VOLUME_MOUNTPOINT@
                &&& views_of(c.used_ports@) == seq![port_token(API_PORT as nat, API_PROTOCOL@)]
                &&& c.generated_files@ == map![CONFIG_FILE_KEY@ => config_document(
                    json_string_literal(self.datastore().context().ip()),
                    self.datastore().port() as nat,
                )]
            },
    {
        let mut ports: Vec<String> = Vec::new();
        ports.push(port_spec(API_PORT, API_PROTOCOL));
        let ip_literal = match to_json_string(self.datastore.get_ip_address()) {
            Ok(s) => s,
            Err(_) => {
                return Err(ConfigError::Serialization);
            },
        };
        let contents = config_file_json(&ip_literal, self.datastore.get_port());
        let mut files = StringMap::new();
        files.insert(String::from_str(CONFIG_FILE_KEY), contents);
        let config = ContainerCreationConfigBuilder::new(
            self.image.clone(),
            String::from_str(TEST_VOLUME_MOUNTPOINT),
        ).with_used_ports(ports).with_generated_files(files).build();
        proof {
            assert(views_of(config.used_ports@) =~= seq![port_token(API_PORT as nat, API_PROTOCOL@)]);
            assert(config.generated_files@ =~= map![CONFIG_FILE_KEY@ => config_document(
                json_string_literal(self.datastore().context().ip()),
                self.datastore().port() as nat,
            )]);
        }
        Ok(config)
    }

    /// The run config of the API container: start the API binary with the
    /// path at which the config file was placed. Fails when no path was
    /// reported for the config file.
    pub fn get_run_config(&self, _container_ip_addr: &String, generated_file_filepaths: &StringMap) -> (r:
        Result<ContainerRunConfig, ConfigError>)
        ensures
            r is Ok <==> generated_file_filepaths@.contains_key(CONFIG_FILE_KEY@),
            r is Err ==> (r->Err_0 matches ConfigError::MissingFilepath(k) && k@ == CONFIG_FILE_KEY@),
            r is Ok ==> r->Ok_0.start_command_override is Some && views_of(
                r->Ok_0.start_command_override->Some_0@,
            ) == api_start_command(generated_file_filepaths@[CONFIG_FILE_KEY@]),
    {
        let key = String::from_str(CONFIG_FILE_KEY);
        let path = match generated_file_filepaths.get(&key) {
            Some(p) => p,
            None => {
                return Err(ConfigError::MissingFilepath(key));
            },
        };
        let mut start_cmd: Vec<String> = Vec::new();
        start_cmd.push(String::from_str(API_BINARY));
        start_cmd.push(String::from_str(CONFIG_FLAG));
        start_cmd.push(path.clone());
        proof {
            assert(views_of(start_cmd@) =~= api_start_command(generated_file_filepaths@[CONFIG_FILE_KEY@]));
        }
        Ok(ContainerRunConfigBuilder::new().with_cmd_override(start_cmd).build())
    }
}

impl<'obj> ContainerConfigFactory<ApiService> for ApiContainerConfigFactory<'obj> {
    fn get_creation_config(&self, container_ip_addr: &String) -> Result<ContainerCreationConfig, ConfigError> {
        ApiContainerConfigFactory::get_creation_config(self, container_ip_addr)
    }

    fn get_run_config(&self, container_ip_addr: &String, generated_file_filepaths: &StringMap) -> Result<
        ContainerRunConfig,
        ConfigError,
    > {
        ApiContainerConfigFactory::get_run_config(self, container_ip_addr, generated_file_filepaths)
    }

    fn create_service(&self, service_ctx: ServiceContext) -> ApiService {
        ApiContainerConfigFactory::create_service(service_ctx)
    }
}

} // verus!
