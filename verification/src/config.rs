//! The settings that the relay starts with, and the sink they lead to.

use vstd::prelude::*;
use crate::handler::SinkMode;
use crate::registry::SensorRegistry;

verus! {

/// The settings of a run, as they are after validation.
pub struct AppConfig {
    /// Which sensor stands in which room.
    pub sensors_names: SensorRegistry,
    /// Where the time-series database listens.
    pub influx_conn: String,
    pub influx_database: String,
    /// User name and password, where the database asks for them.
    pub influx_credentials: Option<(String, String)>,
    /// The series that records are written to.
    pub influx_measurement: String,
    /// Write nothing to the database.
    pub dry_run: bool,
    pub be_verbose: bool,
}

#[verifier::external_type_specification]
#[verifier::external_body]
pub struct ExClient(influxdb::Client);

/// The address of the database that a client talks to.
pub uninterp spec fn client_url(client: influxdb::Client) -> Seq<char>;

/// The query parameters that a client sends with each request, by name.
pub uninterp spec fn client_parameters(client: influxdb::Client) -> Map<Seq<char>, Seq<char>>;

/// The query parameters of a connection to a database: the database, and
/// the user name and password where there are credentials.
pub open spec fn connection_parameters(
    database: Seq<char>,
    credentials: Option<(String, String)>,
) -> Map<Seq<char>, Seq<char>> {
    let plain = Map::<Seq<char>, Seq<char>>::empty().insert("db"@, database);
    match credentials {
        Some((username, password)) => plain.insert("u"@, username@).insert("p"@, password@),
        None => plain,
    }
}

/// Makes a client with `influxdb::Client::new`.
///
/// Trusted: the client keeps the address as it is given, and has one query
/// parameter, `db`, which is the database. The call also builds an HTTP
/// client, which gives up on a machine without a usable TLS setup; nothing
/// here rules that out.
#[verifier::external_body]
fn new_client(url: &str, database: &str) -> (client: influxdb::Client)
    ensures
        client_url(client) == url@,
        client_parameters(client) == connection_parameters(database@, None),
{
    influxdb::Client::new(url, database)
}

/// Gives a client a user name and a password with
/// `influxdb::Client::with_auth`.
///
/// Trusted: the address stays, and the query parameters `u` and `p` become
/// the user name and the password.
#[verifier::external_body]
fn with_auth(client: influxdb::Client, username: &str, password: &str) -> (authorized:
    influxdb::Client)
    ensures
        client_url(authorized) == client_url(client),
        client_parameters(authorized) == client_parameters(client).insert("u"@, username@).insert(
            "p"@,
            password@,
        ),
{
    client.with_auth(username, password)
}

/// Where completed records go: nowhere in a dry run.
pub open spec fn sink_mode(dry_run: bool) -> SinkMode {
    if dry_run {
        SinkMode::DryRun
    } else {
        SinkMode::Live
    }
}

impl AppConfig {
    /// Where completed records go under these settings.
    pub fn sink(&self) -> (sink: SinkMode)
        ensures
            sink == sink_mode(self.dry_run),
    {
        if self.dry_run {
            SinkMode::DryRun
        } else {
            SinkMode::Live
        }
    }
}

/// Sets up the client of the time-series database: none in a dry run, else
/// one for the configured address and database, with the credentials where
/// there are any.
pub fn setup_influx_connection(app_config: &AppConfig) -> (client: Option<influxdb::Client>)
    ensures
        client is None <==> app_config.dry_run,
        client matches Some(made) ==> client_url(made) == app_config.influx_conn@
            && client_parameters(made) == connection_parameters(
            app_config.influx_database@,
            app_config.influx_credentials,
        ),
{
    if app_config.dry_run {
        None
    } else {
        let influx_client = new_client(
            app_config.influx_conn.as_str(),
            app_config.influx_database.as_str(),
        );
        let influx_client = match &app_config.influx_credentials {
            Some((username, password)) => with_auth(
                influx_client,
                username.as_str(),
                password.as_str(),
            ),
            None => influx_client,
        };
        Some(influx_client)
    }
}

} // verus!
