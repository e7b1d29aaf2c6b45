use vstd::prelude::*;

use crate::formatter::step_views;

verus! {

/// How a server is reached: by password (or agent) or by a private key file.
#[allow(non_camel_case_types)]
#[derive(Debug, Clone, Copy, PartialEq, Eq, Structural)]
pub enum ConnectionType {
    SSH,
    SSH_KEY,
}

impl Default for ConnectionType {
    fn default() -> (r: Self)
        ensures
            r == ConnectionType::SSH,
    {
        ConnectionType::SSH
    }
}

/// The text held by an optional string.
pub open spec fn opt_view(o: Option<String>) -> Option<Seq<char>> {
    match o {
        Some(s) => Some(s@),
        None => None,
    }
}

/// Display-only metadata of a server.
pub struct ServerConfigView {
    pub os: Seq<char>,
    pub memory: Seq<char>,
    pub disk: Seq<char>,
}

/// Connection parameters of a server.
pub struct ServerConnectView {
    pub kind: ConnectionType,
    pub user: Seq<char>,
    pub address: Seq<char>,
    pub location: Option<Seq<char>>,
    pub password: Option<Seq<char>>,
}

/// A named, ordered list of shell steps.
pub struct CommandGroupView {
    pub label: Seq<char>,
    pub steps: Seq<Seq<char>>,
}

/// One catalogue entry.
pub struct ServerDetailsView {
    pub name: Seq<char>,
    pub config: ServerConfigView,
    pub connect: ServerConnectView,
    pub commands: Seq<CommandGroupView>,
}

/// The whole catalogue.
pub struct ConfigYamlView {
    pub version: Seq<char>,
    pub application: Seq<char>,
    pub servers: Seq<ServerDetailsView>,
}

#[derive(Debug, PartialEq, Eq, Default)]
pub struct ServerConfig {
    os: String,
    memory: String,
    disk: String,
}

#[derive(Debug, PartialEq, Eq, Default)]
pub struct ServerConnect {
    type_connection: ConnectionType,
    user: String,
    ip_address: String,
    location: Option<String>,
    password: Option<String>,
}

#[derive(Debug, PartialEq, Eq, Default)]
pub struct ServerCommands {
    name: String,
    steps: Vec<String>,
}

#[derive(Debug, PartialEq, Eq)]
pub struct ServerDetails {
    pub name: String,
    config: ServerConfig,
    connect: ServerConnect,
    commands: Vec<ServerCommands>,
}

#[derive(Debug, PartialEq, Eq)]
pub struct ConfigYaml {
    version: String,
    application: String,
    servers: Vec<ServerDetails>,
}

impl View for ServerConfig {
    type V = ServerConfigView;

    closed spec fn view(&self) -> ServerConfigView {
        ServerConfigView { os: self.os@, memory: self.memory@, disk: self.disk@ }
    }
}

impl View for ServerConnect {
    type V = ServerConnectView;

    closed spec fn view(&self) -> ServerConnectView {
        ServerConnectView {
            kind: self.type_connection,
            user: self.user@,
            address: self.ip_address@,
            location: opt_view(self.location),
            password: opt_view(self.password),
        }
    }
}

impl View for ServerCommands {
    type V = CommandGroupView;

    closed spec fn view(&self) -> CommandGroupView {
        CommandGroupView { label: self.name@, steps: step_views(self.steps@) }
    }
}

/// The model of each command group of a list.
pub open spec fn groups_view(groups: Seq<ServerCommands>) -> Seq<CommandGroupView> {
    groups.map_values(|g: ServerCommands| g@)
}

impl View for ServerDetails {
    type V = ServerDetailsView;

    closed spec fn view(&self) -> ServerDetailsView {
        ServerDetailsView {
            name: self.name@,
            config: self.config@,
            connect: self.connect@,
            commands: groups_view(self.commands@),
        }
    }
}

/// The model of each entry of a list of servers.
pub open spec fn servers_view(servers: Seq<ServerDetails>) -> Seq<ServerDetailsView> {
    servers.map_values(|s: ServerDetails| s@)
}

impl View for ConfigYaml {
    type V = ConfigYamlView;

    closed spec fn view(&self) -> ConfigYamlView {
        ConfigYamlView {
            version: self.version@,
            application: self.application@,
            servers: servers_view(self.servers@),
        }
    }
}

impl Clone for ServerConfig {
    fn clone(&self) -> (r: Self)
        ensures
            r == *self,
    {
        ServerConfig { os: self.os.clone(), memory: self.memory.clone(), disk: self.disk.clone() }
    }
}

impl ServerConfig {
    pub fn new(os: String, memory: String, disk: String) -> (r: ServerConfig)
        ensures
            r@ == (ServerConfigView { os: os@, memory: memory@, disk: disk@ }),
    {
        ServerConfig { os, memory, disk }
    }

    pub fn os(&self) -> (r: &str)
        ensures
            r@ == self@.os,
    {
        self.os.as_str()
    }

    pub fn memory(&self) -> (r: &str)
        ensures
            r@ == self@.memory,
    {
        self.memory.as_str()
    }

    pub fn disk(&self) -> (r: &str)
        ensures
            r@ == self@.disk,
    {
        self.disk.as_str()
    }
}

impl Clone for ServerConnect {
    fn clone(&self) -> (r: Self)
        ensures
            r == *self,
    {
        ServerConnect {
            type_connection: self.type_connection,
            user: self.user.clone(),
            ip_address: self.ip_address.clone(),
            location: self.location.clone(),
            password: self.password.clone(),
        }
    }
}

impl ServerConnect {
    pub fn new(
        type_connection: ConnectionType,
        user: String,
        ip_address: String,
        location: Option<String>,
        password: Option<String>,
    ) -> (r: ServerConnect)
        ensures
            r@ == (ServerConnectView {
                kind: type_connection,
                user: user@,
                address: ip_address@,
                location: opt_view(location),
                password: opt_view(password),
            }),
    {
        ServerConnect { type_connection, user, ip_address, location, password }
    }

    pub fn type_connection(&self) -> (r: &ConnectionType)
        ensures
            *r == self@.kind,
    {
        &self.type_connection
    }

    pub fn user(&self) -> (r: &String)
        ensures
            r@ == self@.user,
    {
        &self.user
    }

    pub fn ip_address(&self) -> (r: &String)
        ensures
            r@ == self@.address,
    {
        &self.ip_address
    }

    pub fn ip_address_mut(&mut self) -> (r: &mut String)
        ensures
            r@ == old(self)@.address,
            final(self)@ == (ServerConnectView { address: final(r)@, ..old(self)@ }),
    {
        &mut self.ip_address
    }

    pub fn location(&self) -> (r: &Option<String>)
        ensures
            opt_view(*r) == self@.location,
    {
        &self.location
    }

    pub fn password(&self) -> (r: &Option<String>)
        ensures
            opt_view(*r) == self@.password,
    {
        &self.password
    }

    pub fn password_mut(&mut self) -> (r: &mut Option<String>)
        ensures
            opt_view(*r) == old(self)@.password,
            final(self)@ == (ServerConnectView { password: opt_view(*final(r)), ..old(self)@ }),
    {
        &mut self.password
    }
}

/// Relies on `String::as_mut_str`: a mutable borrow of the whole text of
/// the string, whose final text is the string's final text.
#[verifier::external_body]
fn string_as_mut_str(s: &mut String) -> (r: &mut str)
    ensures
        r@ == old(s)@,
        final(s)@ == final(r)@,
{
    s.as_mut_str()
}

impl Clone for ServerCommands {
    fn clone(&self) -> (r: Self)
        ensures
            r@ == self@,
    {
        let steps = self.steps.clone();
        assert(steps@ =~= self.steps@) by {
            assert forall|i: int| 0 <= i < steps.len() implies steps@[i] == self.steps@[i] by {
                assert(cloned::<String>(self.steps[i], steps[i]));
            }
        }
        ServerCommands { name: self.name.clone(), steps }
    }
}

impl ServerCommands {
    pub fn new(name: String, steps: Vec<String>) -> (r: ServerCommands)
        ensures
            r@ == (CommandGroupView { label: name@, steps: step_views(steps@) }),
    {
        ServerCommands { name, steps }
    }

    pub fn name(&self) -> (r: &str)
        ensures
            r@ == self@.label,
    {
        self.name.as_str()
    }

    pub fn name_mut(&mut self) -> (r: &mut str)
        ensures
            r@ == old(self)@.label,
            final(self)@ == (CommandGroupView { label: final(r)@, ..old(self)@ }),
    {
        string_as_mut_str(&mut self.name)
    }

    pub fn commands(&self) -> (r: &Vec<String>)
        ensures
            step_views(r@) == self@.steps,
    {
        &self.steps
    }

    pub fn commands_mut(&mut self) -> (r: &mut Vec<String>)
        ensures
            step_views(r@) == old(self)@.steps,
            final(self)@ == (CommandGroupView { steps: step_views(final(r)@), ..old(self)@ }),
    {
        &mut self.steps
    }
}

impl Clone for ServerDetails {
    fn clone(&self) -> (r: Self)
        ensures
            r@ == self@,
    {
        ServerDetails {
            name: self.name.clone(),
            config: self.config.clone(),
            connect: self.connect.clone(),
            commands: clone_groups(&self.commands),
        }
    }
}

/// A copy of a list of command groups.
fn clone_groups(groups: &Vec<ServerCommands>) -> (r: Vec<ServerCommands>)
    ensures
        groups_view(r@) == groups_view(groups@),
{
    let r = groups.clone();
    assert(groups_view(r@) =~= groups_view(groups@)) by {
        assert forall|i: int| 0 <= i < r.len() implies r@[i]@ == groups@[i]@ by {
            assert(cloned::<ServerCommands>(groups[i], r[i]));
        }
    }
    r
}

impl ServerDetails {
    pub fn new(
        name: String,
        config: ServerConfig,
        connect: ServerConnect,
        commands: Vec<ServerCommands>,
    ) -> (r: ServerDetails)
        ensures
            r@ == (ServerDetailsView {
                name: name@,
                config: config@,
                connect: connect@,
                commands: groups_view(commands@),
            }),
    {
        ServerDetails { name, config, connect, commands }
    }

    pub fn config(&self) -> (r: &ServerConfig)
        ensures
            r@ == self@.config,
    {
        &self.config
    }

    pub fn connection(&self) -> (r: &ServerConnect)
        ensures
            r@ == self@.connect,
    {
        &self.connect
    }

    pub fn commands(&self) -> (r: &Vec<ServerCommands>)
        ensures
            groups_view(r@) == self@.commands,
    {
        &self.commands
    }
}

/// `i` is the position of the first entry of `servers` named `name`.
pub open spec fn is_first_named(servers: Seq<ServerDetailsView>, name: Seq<char>, i: int) -> bool {
    &&& 0 <= i < servers.len()
    &&& servers[i].name == name
    &&& forall|j: int| 0 <= j < i ==> servers[j].name != name
}

/// No entry of `servers` is named `name`.
pub open spec fn none_named(servers: Seq<ServerDetailsView>, name: Seq<char>) -> bool {
    forall|j: int| 0 <= j < servers.len() ==> servers[j].name != name
}

impl ConfigYaml {
    /// A catalogue made of values already read and checked by its loader.
    pub fn from_parts(version: String, application: String, servers: Vec<ServerDetails>) -> (r: ConfigYaml)
        ensures
            r@ == (ConfigYamlView {
                version: version@,
                application: application@,
                servers: servers_view(servers@),
            }),
    {
        ConfigYaml { version, application, servers }
    }

    pub fn version(&self) -> (r: &str)
        ensures
            r@ == self@.version,
    {
        self.version.as_str()
    }

    pub fn application(&self) -> (r: &str)
        ensures
            r@ == self@.application,
    {
        self.application.as_str()
    }

    pub fn list_servers(&self) -> (r: &Vec<ServerDetails>)
        ensures
            servers_view(r@) == self@.servers,
    {
        &self.servers
    }

    /// The metadata, connection parameters and command groups of the first
    /// server named `name_server`, or `None` where no server has that name.
    pub fn get_info_server(&self, name_server: &str) -> (r: Option<
        (ServerConfig, ServerConnect, Vec<ServerCommands>),
    >)
        ensures
            r is None <==> none_named(self@.servers, name_server@),
            r matches Some((config, connect, commands)) ==> exists|i: int|
                is_first_named(self@.servers, name_server@, i) && config@ == self@.servers[i].config
                    && connect@ == self@.servers[i].connect && groups_view(commands@)
                    == self@.servers[i].commands,
    {
        let wanted = name_server.to_owned();
        let ghost servers = servers_view(self.servers@);
        let mut i: usize = 0;
        while i < self.servers.len()
            invariant
                0 <= i <= self.servers.len(),
                servers == servers_view(self.servers@),
                servers == self@.servers,
                wanted@ == name_server@,
                forall|j: int| 0 <= j < i ==> servers[j].name != name_server@,
            decreases self.servers.len() - i,
        {
            let server = &self.servers[i];
            if server.name == wanted {
                let r = (server.config.clone(), server.connect.clone(), clone_groups(&server.commands));
                assert(is_first_named(servers, name_server@, i as int));
                return Some(r);
            }
            i = i + 1;
        }
        None
    }

    pub fn get_quantity_servers(&self) -> (r: usize)
        ensures
            r == self@.servers.len(),
    {
        self.servers.len()
    }
}

} // verus!
