use vstd::prelude::*;

use crate::services::ServiceContext;
use crate::string_map::StringMap;

verus! {

/// The decimal digit for `d`.
pub open spec fn digit_char(d: nat) -> char {
    if d == 0 { '0' }
    else if d == 1 { '1' }
    else if d == 2 { '2' }
    else if d == 3 { '3' }
    else if d == 4 { '4' }
    else if d == 5 { '5' }
    else if d == 6 { '6' }
    else if d == 7 { '7' }
    else if d == 8 { '8' }
    else { '9' }
}

/// The decimal form of `n`, without leading zeros.
pub open spec fn decimal(n: nat) -> Seq<char>
    decreases n,
{
    if n < 10 {
        seq![digit_char(n)]
    } else {
        decimal(n / 10).push(digit_char(n % 10))
    }
}

/// A port token: the port's number, a slash, then the protocol (`"2434/tcp"`).
pub open spec fn port_token(port: nat, protocol: Seq<char>) -> Seq<char> {
    decimal(port) + seq!['/'] + protocol
}

fn digit_str(d: u32) -> (r: &'static str)
    requires
        d < 10,
    ensures
        r@ == seq![digit_char(d as nat)],
{
    if d == 0 {
        proof { reveal_strlit("0"); }
        "0"
    } else if d == 1 {
        proof { reveal_strlit("1"); }
        "1"
    } else if d == 2 {
        proof { reveal_strlit("2"); }
        "2"
    } else if d == 3 {
        proof { reveal_strlit("3"); }
        "3"
    } else if d == 4 {
        proof { reveal_strlit("4"); }
        "4"
    } else if d == 5 {
        proof { reveal_strlit("5"); }
        "5"
    } else if d == 6 {
        proof { reveal_strlit("6"); }
        "6"
    } else if d == 7 {
        proof { reveal_strlit("7"); }
        "7"
    } else if d == 8 {
        proof { reveal_strlit("8"); }
        "8"
    } else {
        proof { reveal_strlit("9"); }
        "9"
    }
}

/// The decimal form of `n`.
pub fn decimal_string(n: u32) -> (r: String)
    ensures
        r@ == decimal(n as nat),
    decreases n,
{
    if n < 10 {
        String::from_str(digit_str(n))
    } else {
        let mut s = decimal_string(n / 10);
        s.append(digit_str(n % 10));
        s
    }
}

/// The token `"<port>/<protocol>"` by which a container declares a port it listens on.
pub fn port_spec(port: u32, protocol: &str) -> (r: String)
    ensures
        r@ == port_token(port as nat, protocol@),
{
    let mut s = decimal_string(port);
    proof { reveal_strlit("/"); }
    s.append("/");
    s.append(protocol);
    s
}

/// What a container needs before it starts.
#[derive(Debug)]
pub struct ContainerCreationConfig {
    /// The image the container runs.
    pub image: String,
    /// Where the test volume is mounted inside the container.
    pub test_volume_mountpoint: String,
    /// The ports the container listens on, as `"<port>/<protocol>"` tokens.
    pub used_ports: Vec<String>,
    /// The files generated for the container, from file key to contents.
    pub generated_files: StringMap,
}

/// Builds a `ContainerCreationConfig`; image and mount point are required,
/// ports and generated files default to none.
pub struct ContainerCreationConfigBuilder {
    image: String,
    test_volume_mountpoint: String,
    used_ports: Vec<String>,
    generated_files: StringMap,
}

impl ContainerCreationConfigBuilder {
    /// The config this builder would build now.
    pub closed spec fn pending(&self) -> ContainerCreationConfig {
        ContainerCreationConfig {
            image: self.image,
            test_volume_mountpoint: self.test_volume_mountpoint,
            used_ports: self.used_ports,
            generated_files: self.generated_files,
        }
    }

    /// A builder with the required image and mount point.
    pub fn new(image: String, test_volume_mountpoint: String) -> (r: Self)
        ensures
            r.pending().image == image,
            r.pending().test_volume_mountpoint == test_volume_mountpoint,
            r.pending().used_ports@.len() == 0,
            r.pending().generated_files@ == Map::<Seq<char>, Seq<char>>::empty(),
    {
        ContainerCreationConfigBuilder {
            image,
            test_volume_mountpoint,
            used_ports: Vec::new(),
            generated_files: StringMap::new(),
        }
    }

    /// Sets the ports the container listens on.
    pub fn with_used_ports(self, used_ports: Vec<String>) -> (r: Self)
        ensures
            r.pending() == (ContainerCreationConfig { used_ports, ..self.pending() }),
    {
        ContainerCreationConfigBuilder { used_ports, ..self }
    }

    /// Sets the files generated for the container.
    pub fn with_generated_files(self, generated_files: StringMap) -> (r: Self)
        ensures
            r.pending() == (ContainerCreationConfig { generated_files, ..self.pending() }),
    {
        ContainerCreationConfigBuilder { generated_files, ..self }
    }

    /// The finished config.
    pub fn build(self) -> (r: ContainerCreationConfig)
        ensures
            r == self.pending(),
    {
        ContainerCreationConfig {
            image: self.image,
            test_volume_mountpoint: self.test_volume_mountpoint,
            used_ports: self.used_ports,
            generated_files: self.generated_files,
        }
    }
}

/// How a container is started once its files are in place.
#[derive(Debug)]
pub struct ContainerRunConfig {
    /// The start command to use in place of the image's own; `None` keeps the image's.
    pub start_command_override: Option<Vec<String>>,
}

/// Builds a `ContainerRunConfig`; by default the image's own start command is kept.
pub struct ContainerRunConfigBuilder {
    start_command_override: Option<Vec<String>>,
}

impl ContainerRunConfigBuilder {
    /// The config this builder would build now.
    pub closed spec fn pending(&self) -> ContainerRunConfig {
        ContainerRunConfig { start_command_override: self.start_command_override }
    }

    /// A builder that keeps the image's start command.
    pub fn new() -> (r: Self)
        ensures
            r.pending().start_command_override is None,
    {
        ContainerRunConfigBuilder { start_command_override: None }
    }

    /// Replaces the image's start command with `cmd`.
    pub fn with_cmd_override(self, cmd: Vec<String>) -> (r: Self)
        ensures
            r.pending().start_command_override == Some(cmd),
    {
        ContainerRunConfigBuilder { start_command_override: Some(cmd) }
    }

    /// The finished config.
    pub fn build(self) -> (r: ContainerRunConfig)
        ensures
            r == self.pending(),
    {
        ContainerRunConfig { start_command_override: self.start_command_override }
    }
}

/// Why a container could not be configured.
#[derive(Debug)]
pub enum ConfigError {
    /// A generated file's contents could not be serialized.
    Serialization,
    /// No generated file path was reported for this file key.
    MissingFilepath(String),
}

/// How to create, and then start, the container of one kind of service `S`.
/// The creation config is asked for before the container exists; the run
/// config once its generated files have been placed, with their paths.
pub trait ContainerConfigFactory<S> {
    fn get_creation_config(&self, container_ip_addr: &String) -> Result<ContainerCreationConfig, ConfigError>;

    fn get_run_config(&self, container_ip_addr: &String, generated_file_filepaths: &StringMap) -> Result<
        ContainerRunConfig,
        ConfigError,
    >;

    /// The handle on the service, made from its freshly created context.
    fn create_service(&self, service_ctx: ServiceContext) -> S;
}

} // verus!
