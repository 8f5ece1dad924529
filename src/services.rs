use vstd::prelude::*;

verus! {

/// A handle on one running service: its id, unique within the network,
/// and its IP address. Both are fixed when the handle is made.
#[derive(Debug)]
pub struct ServiceContext {
    service_id: String,
    ip_address: String,
}

/// A request to run a command inside one service's container.
#[derive(Debug)]
pub struct ExecCommandArgs {
    pub service_id: String,
    pub command_args: Vec<String>,
}

/// A command that could not be run inside a service, with what was attempted.
#[derive(Debug)]
pub struct ExecCommandError {
    /// The service the command was sent to.
    pub service_id: String,
    /// The command that was attempted.
    pub command: Vec<String>,
    /// What the remote call reported.
    pub cause: String,
}

impl ServiceContext {
    /// The service's id.
    pub closed spec fn id(&self) -> Seq<char> {
        self.service_id@
    }

    /// The service's IP address.
    pub closed spec fn ip(&self) -> Seq<char> {
        self.ip_address@
    }

    /// A handle on the service `service_id` at `ip_address`.
    pub fn new(service_id: String, ip_address: String) -> (r: ServiceContext)
        ensures
            r.id() == service_id@,
            r.ip() == ip_address@,
    {
        ServiceContext { service_id, ip_address }
    }

    pub fn get_service_id(&self) -> (r: &String)
        ensures
            r@ == self.id(),
    {
        &self.service_id
    }

    pub fn get_ip_address(&self) -> (r: &String)
        ensures
            r@ == self.ip(),
    {
        &self.ip_address
    }

    /// The request that runs `command` inside this service.
    pub fn exec_command_args(&self, command: Vec<String>) -> (r: ExecCommandArgs)
        ensures
            r.service_id@ == self.id(),
            r.command_args == command,
    {
        ExecCommandArgs { service_id: self.service_id.clone(), command_args: command }
    }

    /// What running `command` returns, given the outcome of the remote call:
    /// the exit code and log output unchanged, or the failure annotated with
    /// the command and this service's id.
    pub fn exec_command_result(
        &self,
        command: Vec<String>,
        response: Result<(i32, Vec<u8>), String>,
    ) -> (r: Result<(i32, Vec<u8>), ExecCommandError>)
        ensures
            response is Ok <==> r is Ok,
            response is Ok ==> r->Ok_0 == response->Ok_0,
            response is Err ==> r->Err_0.service_id@ == self.id() && r->Err_0.command == command
                && r->Err_0.cause == response->Err_0,
    {
        match response {
            Ok(output) => Ok(output),
            Err(cause) => Err(
                ExecCommandError { service_id: self.service_id.clone(), command, cause },
            ),
        }
    }
}

/// A running datastore service, reached at its context's address on `port`.
#[derive(Debug)]
pub struct DatastoreService {
    service_ctx: ServiceContext,
    port: u32,
}

impl DatastoreService {
    pub closed spec fn context(&self) -> ServiceContext {
        self.service_ctx
    }

    pub closed spec fn port(&self) -> u32 {
        self.port
    }

    pub fn new(service_ctx: ServiceContext, port: u32) -> (r: DatastoreService)
        ensures
            r.context() == service_ctx,
            r.port() == port,
    {
        DatastoreService { service_ctx, port }
    }

    pub fn get_service_id(&self) -> (r: &String)
        ensures
            r@ == self.context().id(),
    {
        self.service_ctx.get_service_id()
    }

    pub fn get_ip_address(&self) -> (r: &String)
        ensures
            r@ == self.context().ip(),
    {
        self.service_ctx.get_ip_address()
    }

    pub fn get_port(&self) -> (r: u32)
        ensures
            r == self.port(),
    {
        self.port
    }
}

/// A running API service, reached at its context's address on `port`.
#[derive(Debug)]
pub struct ApiService {
    service_ctx: ServiceContext,
    port: u32,
}

impl ApiService {
    pub closed spec fn context(&self) -> ServiceContext {
        self.service_ctx
    }

    pub closed spec fn port(&self) -> u32 {
        self.port
    }

    pub fn new(service_ctx: ServiceContext, port: u32) -> (r: ApiService)
        ensures
            r.context() == service_ctx,
            r.port() == port,
    {
        ApiService { service_ctx, port }
    }

    pub fn get_ip_address(&self) -> (r: &String)
        ensures
            r@ == self.context().ip(),
    {
        self.service_ctx.get_ip_address()
    }

    pub fn get_port(&self) -> (r: u32)
        ensures
            r == self.port(),
    {
        self.port
    }
}

} // verus!
