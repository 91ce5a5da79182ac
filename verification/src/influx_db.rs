//! The gateway to the time-series database: the settings of a connection,
//! the one query that is sent, and how an answer becomes a list of readings.

use vstd::prelude::*;
use influxdb::Client;
use influxdb::ReadQuery;
use crate::binary64::Binary64;

verus! {

/// The client of the database driver. Verus sees nothing inside it; what it
/// was made with is told by `client_settings`.
#[verifier::external_type_specification]
#[verifier::external_body]
pub struct ExClient(influxdb::Client);

/// A read query of the database driver.
#[verifier::external_type_specification]
#[verifier::external_body]
pub struct ExReadQuery(influxdb::ReadQuery);

/// What a client holds: its URL, its database, and the user name and
/// password, if it was given any.
pub uninterp spec fn client_settings(client: Client) -> (Seq<char>, Seq<char>, Option<(Seq<char>, Seq<char>)>);

/// The statements that a read query holds, in the order in which they were
/// added.
pub uninterp spec fn query_statements(query: ReadQuery) -> Seq<Seq<char>>;

/// `influxdb::Client::new`: stores the URL and the database's name as they
/// are given, and no credentials.
#[verifier::external_body]
fn client_new(url: &str, database: &str) -> (client: Client)
    ensures
        client_settings(client) == (url@, database@, None::<(Seq<char>, Seq<char>)>),
{
    Client::new(url, database)
}

/// `influxdb::Client::with_auth`: the same client, now with this user name
/// and password.
#[verifier::external_body]
fn client_with_auth(client: Client, username: &str, password: &str) -> (with_auth: Client)
    ensures
        client_settings(with_auth) == (
            client_settings(client).0,
            client_settings(client).1,
            Some((username@, password@)),
        ),
{
    client.with_auth(username, password)
}

/// `influxdb::Query::raw_read_query`: a read query that holds the one given
/// statement.
#[verifier::external_body]
fn raw_read_query(statement: &str) -> (query: ReadQuery)
    ensures
        query_statements(query) == seq![statement@],
{
    <dyn influxdb::Query>::raw_read_query(statement)
}

/// One row of an answer: how full a drive was at a time.
#[derive(Debug)]
pub struct StorageUsage {
    /// When the sample was taken, as the database writes it.
    pub time: String,
    /// The drive's label.
    pub hardware: String,
    /// The used space in percent. Nothing holds it to the range from 0 to
    /// 100.
    pub value: Binary64,
}

/// What a row says.
pub struct Reading {
    pub time: Seq<char>,
    pub hardware: Seq<char>,
    pub value: Binary64,
}

impl View for StorageUsage {
    type V = Reading;

    open spec fn view(&self) -> Reading {
        Reading { time: self.time@, hardware: self.hardware@, value: self.value }
    }
}

impl Clone for StorageUsage {
    fn clone(&self) -> (copy: StorageUsage)
        ensures
            copy@ == self@,
    {
        StorageUsage {
            time: self.time.clone(),
            hardware: self.hardware.clone(),
            value: self.value,
        }
    }
}

/// What a list of rows says, row by row.
pub open spec fn readings(rows: Seq<StorageUsage>) -> Seq<Reading> {
    rows.map_values(|row: StorageUsage| row@)
}

/// The rows of one group of an answer.
#[derive(Debug)]
pub struct Series {
    /// The name of the measurement.
    pub name: String,
    /// The group's rows, latest first.
    pub values: Vec<StorageUsage>,
}

/// How the database driver failed.
#[derive(Clone, Copy, Debug, PartialEq, Eq, Structural)]
pub enum ClientFault {
    /// The query was not one that can be sent.
    InvalidQuery,
    /// No URL could be made of the host's address.
    UrlConstruction,
    /// The answer's body could not be read.
    Protocol,
    /// The answer is not of the expected shape.
    Deserialization,
    /// The database answered with an error of its own.
    Database,
    /// The server answered 403.
    Authentication,
    /// The server answered 401.
    Authorization,
    /// The request could not be sent.
    Connection,
}

/// What came of sending the query.
#[derive(Debug)]
pub enum QueryReply {
    /// The driver failed.
    Fault(ClientFault),
    /// The answer holds no result for any statement.
    NoResult,
    /// The groups of the result for the first statement, in the answer's
    /// order.
    Groups(Vec<Series>),
}

/// What is wrong with an answer that is not of the expected shape.
#[derive(Clone, Copy, Debug, PartialEq, Eq, Structural)]
pub enum Flaw {
    /// The driver could make nothing of the answer, for this reason.
    Driver(ClientFault),
    /// A group of the answer holds no row.
    GroupWithoutRow,
}

/// Why a poll gave no readings.
#[derive(Clone, Copy, Debug, PartialEq, Eq, Structural)]
pub enum QueryError {
    /// The server was not reached, or did not let the query in.
    Transport(ClientFault),
    /// The server answered, but not with what was asked for.
    Malformed(Flaw),
    /// The answer holds no result for the statement, or a result without
    /// any group.
    Empty,
}

/// The kind of failure that a fault of the driver is.
pub open spec fn error_of(fault: ClientFault) -> QueryError {
    match fault {
        ClientFault::UrlConstruction
        | ClientFault::Protocol
        | ClientFault::Authentication
        | ClientFault::Authorization
        | ClientFault::Connection => QueryError::Transport(fault),
        ClientFault::InvalidQuery
        | ClientFault::Deserialization
        | ClientFault::Database => QueryError::Malformed(Flaw::Driver(fault)),
    }
}

/// The first row of each group, in the groups' order.
pub open spec fn first_rows(groups: Seq<Series>) -> Seq<Reading> {
    Seq::new(groups.len(), |i: int| groups[i].values@[0]@)
}

/// Whether every group has a row.
pub open spec fn all_populated(groups: Seq<Series>) -> bool {
    forall|i: int| 0 <= i < groups.len() ==> #[trigger] groups[i].values@.len() > 0
}

/// The readings that a reply gives, or why it gives none. A fault of the
/// driver fails by its kind. An answer without a result, or with a result
/// that holds no group, is empty. An answer in which some group holds no
/// row is malformed. Any other answer gives the first row of each group,
/// and so at least one reading.
pub open spec fn outcome_of(reply: QueryReply) -> Result<Seq<Reading>, QueryError> {
    match reply {
        QueryReply::Fault(fault) => Err(error_of(fault)),
        QueryReply::NoResult => Err(QueryError::Empty),
        QueryReply::Groups(groups) => if groups@.len() == 0 {
            Err(QueryError::Empty)
        } else if !all_populated(groups@) {
            Err(QueryError::Malformed(Flaw::GroupWithoutRow))
        } else {
            Ok(first_rows(groups@))
        },
    }
}

/// A poll that gives readings gives at least one: an answer that holds none
/// is a failure, whatever its shape.
pub proof fn lemma_readings_never_none(reply: QueryReply)
    ensures
        outcome_of(reply) is Ok ==> outcome_of(reply)->Ok_0.len() >= 1,
{
}

impl QueryError {
    /// Sorts a fault of the driver into the kinds of failure of a poll.
    pub fn from_fault(fault: ClientFault) -> (e: QueryError)
        ensures
            e == error_of(fault),
    {
        match fault {
            ClientFault::UrlConstruction => QueryError::Transport(fault),
            ClientFault::Protocol => QueryError::Transport(fault),
            ClientFault::Authentication => QueryError::Transport(fault),
            ClientFault::Authorization => QueryError::Transport(fault),
            ClientFault::Connection => QueryError::Transport(fault),
            ClientFault::InvalidQuery => QueryError::Malformed(Flaw::Driver(fault)),
            ClientFault::Deserialization => QueryError::Malformed(Flaw::Driver(fault)),
            ClientFault::Database => QueryError::Malformed(Flaw::Driver(fault)),
        }
    }
}

/// One of the four settings of a connection.
#[derive(Clone, Copy, Debug, PartialEq, Eq, Structural)]
pub enum Setting {
    Host,
    Database,
    Username,
    Password,
}

/// Why no connection could be set up.
#[derive(Clone, Copy, Debug, PartialEq, Eq, Structural)]
pub enum ConfigError {
    /// The setting has no value.
    Missing(Setting),
}

/// The name of the environment variable that holds a setting.
pub open spec fn variable_of(setting: Setting) -> Seq<char> {
    match setting {
        Setting::Host => "DB_HOST"@,
        Setting::Database => "DB_NAME"@,
        Setting::Username => "DB_USER"@,
        Setting::Password => "DB_PASSWORD"@,
    }
}

impl Setting {
    /// The name of the environment variable that holds this setting.
    pub fn variable(self) -> (name: &'static str)
        ensures
            name@ == variable_of(self),
    {
        match self {
            Setting::Host => "DB_HOST",
            Setting::Database => "DB_NAME",
            Setting::Username => "DB_USER",
            Setting::Password => "DB_PASSWORD",
        }
    }
}

/// The first of the four settings, in the order host, database, user name,
/// password, that has no value.
pub open spec fn first_missing(
    host: Option<String>,
    database: Option<String>,
    username: Option<String>,
    password: Option<String>,
) -> Option<Setting> {
    if host is None {
        Some(Setting::Host)
    } else if database is None {
        Some(Setting::Database)
    } else if username is None {
        Some(Setting::Username)
    } else if password is None {
        Some(Setting::Password)
    } else {
        None
    }
}

/// The statement that asks for the latest used-space percentage of each
/// hard disk.
pub open spec fn storage_load_statement() -> Seq<char> {
    "SELECT hardware, value FROM Load WHERE app = 'ohm' and hardware_type = 'HDD' and sensor = 'Used Space' GROUP BY hardware LIMIT 1"@
}

/// A connection to the database.
pub struct InfluxDBConnection {
    pub client: Client,
}

impl InfluxDBConnection {
    /// The URL of the database server.
    pub open spec fn url(self) -> Seq<char> {
        client_settings(self.client).0
    }

    /// The name of the database.
    pub open spec fn database(self) -> Seq<char> {
        client_settings(self.client).1
    }

    /// The user name and the password.
    pub open spec fn login(self) -> Option<(Seq<char>, Seq<char>)> {
        client_settings(self.client).2
    }

    /// Sets up a connection from the four settings. All four must have a
    /// value; the first that has none is reported.
    pub fn new(
        host: Option<String>,
        database: Option<String>,
        username: Option<String>,
        password: Option<String>,
    ) -> (r: Result<InfluxDBConnection, ConfigError>)
        ensures
            match r {
                Ok(connection) => {
                    &&& first_missing(host, database, username, password) is None
                    &&& connection.url() == host.unwrap()@
                    &&& connection.database() == database.unwrap()@
                    &&& connection.login() == Some((username.unwrap()@, password.unwrap()@))
                },
                Err(e) => first_missing(host, database, username, password) == Some(e->Missing_0),
            },
    {
        let hostname = match host {
            Some(value) => value,
            None => {
                return Err(ConfigError::Missing(Setting::Host));
            },
        };
        let database = match database {
            Some(value) => value,
            None => {
                return Err(ConfigError::Missing(Setting::Database));
            },
        };
        let username = match username {
            Some(value) => value,
            None => {
                return Err(ConfigError::Missing(Setting::Username));
            },
        };
        let password = match password {
            Some(value) => value,
            None => {
                return Err(ConfigError::Missing(Setting::Password));
            },
        };
        let client = client_with_auth(
            client_new(hostname.as_str(), database.as_str()),
            username.as_str(),
            password.as_str(),
        );
        Ok(InfluxDBConnection { client })
    }

    /// Turns the reply to the query into the readings to show: one for each
    /// group, taken from the group's first row, in the order of the groups.
    /// A fault of the driver is passed on by its kind. A reply without a
    /// result or without a group is an empty one, and a reply with a group
    /// that has no row is malformed: neither gives readings.
    pub fn get_storage_load(&self, reply: QueryReply) -> (r: Result<Vec<StorageUsage>, QueryError>)
        ensures
            match r {
                Ok(rows) => outcome_of(reply) == Ok::<Seq<Reading>, QueryError>(readings(rows@)),
                Err(e) => outcome_of(reply) == Err::<Seq<Reading>, QueryError>(e),
            },
            r matches Ok(rows) ==> rows@.len() >= 1,
    {
        match reply {
            QueryReply::Fault(fault) => Err(QueryError::from_fault(fault)),
            QueryReply::NoResult => Err(QueryError::Empty),
            QueryReply::Groups(groups) => {
                if groups.len() == 0 {
                    return Err(QueryError::Empty);
                }
                let mut rows: Vec<StorageUsage> = Vec::with_capacity(groups.len());
                let mut i: usize = 0;
                while i < groups.len()
                    invariant
                        reply == QueryReply::Groups(groups),
                        groups@.len() > 0,
                        i <= groups.len(),
                        rows@.len() == i,
                        forall|j: int| 0 <= j < i ==> #[trigger] groups@[j].values@.len() > 0,
                        forall|j: int| 0 <= j < i ==> (#[trigger] rows@[j])@ == groups@[j].values@[0]@,
                    decreases groups.len() - i,
                {
                    let series = &groups[i];
                    if series.values.len() == 0 {
                        assert(groups@[i as int].values@.len() == 0);
                        return Err(QueryError::Malformed(Flaw::GroupWithoutRow));
                    }
                    rows.push(series.values[0].clone());
                    i += 1;
                }
                assert(readings(rows@) =~= first_rows(groups@));
                Ok(rows)
            },
        }
    }

    /// The query that is sent at each poll.
    pub fn storage_load_query() -> (query: ReadQuery)
        ensures
            query_statements(query) == seq![storage_load_statement()],
    {
        raw_read_query(
            "SELECT hardware, value FROM Load WHERE app = 'ohm' and hardware_type = 'HDD' and sensor = 'Used Space' GROUP BY hardware LIMIT 1",
        )
    }
}

} // verus!
