use vstd::prelude::*;
use vstd::string::*;

use crate::error::ErrorKind;
use crate::formatter::{format_commands, format_spec, step_views, ExecutionPolicy};
use crate::parser::{opt_view, ConnectionType, ServerCommands, ServerConnect, ServerConnectView};

verus! {

/// The remote target of one operation: address, identity and credentials.
#[derive(Debug, PartialEq, Eq)]
pub struct SSH {
    type_connection: ConnectionType,
    ip_address: String,
    user_name: String,
    password: Option<String>,
    location: Option<String>,
}

impl View for SSH {
    type V = ServerConnectView;

    closed spec fn view(&self) -> ServerConnectView {
        ServerConnectView {
            kind: self.type_connection,
            user: self.user_name@,
            address: self.ip_address@,
            location: opt_view(self.location),
            password: opt_view(self.password),
        }
    }
}

impl Clone for SSH {
    fn clone(&self) -> (r: Self)
        ensures
            r == *self,
    {
        SSH {
            type_connection: self.type_connection,
            ip_address: self.ip_address.clone(),
            user_name: self.user_name.clone(),
            password: self.password.clone(),
            location: self.location.clone(),
        }
    }
}

/// How the remote side is asked to authenticate the user.
#[derive(Debug, PartialEq, Eq)]
pub enum AuthMethod {
    /// User name and password.
    Password { user: String, password: String },
    /// The caller's running authentication agent.
    Agent { user: String },
    /// A private key file, optionally protected by a passphrase.
    KeyFile { user: String, key_path: String, passphrase: Option<String> },
}

/// `m` is the way of authenticating that target `t` declares.
pub open spec fn auth_matches(m: AuthMethod, t: ServerConnectView) -> bool {
    match m {
        AuthMethod::Password { user, password } => t.kind == ConnectionType::SSH && user@ == t.user
            && t.password == Some(password@),
        AuthMethod::Agent { user } => t.kind == ConnectionType::SSH && user@ == t.user
            && t.password is None,
        AuthMethod::KeyFile { user, key_path, passphrase } => t.kind == ConnectionType::SSH_KEY
            && user@ == t.user && t.location == Some(key_path@) && opt_view(passphrase)
            == t.password,
    }
}

/// A key-file target without a key path cannot be authenticated.
pub open spec fn auth_config_invalid(t: ServerConnectView) -> bool {
    t.kind == ConnectionType::SSH_KEY && t.location is None
}

/// The execution policy that goes with a kind of connection.
pub open spec fn policy_of(kind: ConnectionType) -> ExecutionPolicy {
    match kind {
        ConnectionType::SSH => ExecutionPolicy::Chained,
        ConnectionType::SSH_KEY => ExecutionPolicy::WrappedShell,
    }
}

impl ExecutionPolicy {
    /// Password targets chain their steps; key-file targets wrap them.
    pub fn for_connection(kind: ConnectionType) -> (r: ExecutionPolicy)
        ensures
            r == policy_of(kind),
    {
        match kind {
            ConnectionType::SSH => ExecutionPolicy::Chained,
            ConnectionType::SSH_KEY => ExecutionPolicy::WrappedShell,
        }
    }
}

impl SSH {
    pub fn new(server_connect: &ServerConnect) -> (r: SSH)
        ensures
            r@ == server_connect@,
    {
        SSH {
            type_connection: *server_connect.type_connection(),
            ip_address: server_connect.ip_address().clone(),
            user_name: server_connect.user().clone(),
            password: server_connect.password().clone(),
            location: server_connect.location().clone(),
        }
    }

    pub fn type_connection(&self) -> (r: ConnectionType)
        ensures
            r == self@.kind,
    {
        self.type_connection
    }

    /// The `host:port` address of the target.
    pub fn address(&self) -> (r: &str)
        ensures
            r@ == self@.address,
    {
        self.ip_address.as_str()
    }

    /// The way of authenticating that the target declares; a key-file
    /// target without a key path is a configuration error.
    pub fn auth_method(&self) -> (r: Result<AuthMethod, ErrorKind>)
        ensures
            r is Err <==> auth_config_invalid(self@),
            r is Err ==> r == Err::<AuthMethod, ErrorKind>(ErrorKind::ConfigInvalid),
            r matches Ok(m) ==> auth_matches(m, self@),
    {
        let user = self.user_name.clone();
        match self.type_connection {
            ConnectionType::SSH => match &self.password {
                Some(password) => Ok(AuthMethod::Password { user, password: password.clone() }),
                None => Ok(AuthMethod::Agent { user }),
            },
            ConnectionType::SSH_KEY => match &self.location {
                Some(key_path) => Ok(
                    AuthMethod::KeyFile {
                        user,
                        key_path: key_path.clone(),
                        passphrase: self.password.clone(),
                    },
                ),
                None => Err(ErrorKind::ConfigInvalid),
            },
        }
    }

    /// Hands a non-empty `exec_commands` to `concat_fn` and returns what it
    /// makes of them; an empty list is a configuration error and is never
    /// turned into a command.
    pub fn manager_commands<F>(exec_commands: &Vec<String>, concat_fn: F) -> (r: Result<String, ErrorKind>) where
        F: Fn(&Vec<String>) -> String,

        requires
            exec_commands.len() > 0 ==> concat_fn.requires((exec_commands,)),
        ensures
            exec_commands.len() == 0 <==> r is Err,
            r is Err ==> r == Err::<String, ErrorKind>(ErrorKind::ConfigInvalid),
            r matches Ok(s) ==> concat_fn.ensures((exec_commands,), s),
    {
        if exec_commands.len() == 0 {
            return Err(ErrorKind::ConfigInvalid);
        }
        let concatenated_commands = concat_fn(exec_commands);
        Ok(concatenated_commands)
    }

    /// The single command line that runs `server_commands` on this target,
    /// under the policy that goes with the target's kind of connection.
    pub fn formatted_commands(&self, server_commands: &ServerCommands) -> (r: Result<String, ErrorKind>)
        ensures
            server_commands@.steps.len() == 0 <==> r is Err,
            r is Err ==> r == Err::<String, ErrorKind>(ErrorKind::ConfigInvalid),
            r matches Ok(line) ==> line@ == format_spec(server_commands@.steps, policy_of(self@.kind)),
    {
        let policy = ExecutionPolicy::for_connection(self.type_connection);
        let steps = server_commands.commands();
        assert(step_views(steps@).len() == steps@.len());
        format_commands(steps, policy)
    }
}

/// What one command line produced on the remote side.
pub struct ExecutionResultView {
    pub output: Seq<char>,
    pub exit_status: Option<i32>,
}

/// The captured output and exit status of one command line.
#[derive(Debug, PartialEq, Eq)]
pub struct ExecutionResult {
    output: String,
    exit_status: Option<i32>,
}

/// The text reported when the output could not be read to its end.
pub open spec fn read_failure_text(detail: Seq<char>) -> Seq<char> {
    "Erro ao executar comando: "@ + detail
}

impl View for ExecutionResult {
    type V = ExecutionResultView;

    closed spec fn view(&self) -> ExecutionResultView {
        ExecutionResultView { output: self.output@, exit_status: self.exit_status }
    }
}

impl ExecutionResult {
    pub fn new(output: String, exit_status: Option<i32>) -> (r: ExecutionResult)
        ensures
            r@ == (ExecutionResultView { output: output@, exit_status }),
    {
        ExecutionResult { output, exit_status }
    }

    /// A read failure, kept as a result whose text describes it rather than
    /// raised as an error, so that it stays visible to the operator.
    pub fn read_failure(detail: &str) -> (r: ExecutionResult)
        ensures
            r@ == (ExecutionResultView { output: read_failure_text(detail@), exit_status: None }),
    {
        let mut output = String::new();
        output.append("Erro ao executar comando: ");
        output.append(detail);
        ExecutionResult { output, exit_status: None }
    }

    pub fn output(&self) -> (r: &str)
        ensures
            r@ == self@.output,
    {
        self.output.as_str()
    }

    pub fn exit_status(&self) -> (r: Option<i32>)
        ensures
            r == self@.exit_status,
    {
        self.exit_status
    }
}

} // verus!
