use vstd::prelude::*;

verus! {

/// The address of a Kuksa databroker.
#[verifier::external_type_specification]
#[verifier::external_body]
pub struct ExUri(http::Uri);

/// Where the horn signals go.
pub enum ActuatorConnection<'a> {
    /// To the Kuksa databroker at this address.
    KuksaDatabroker(&'a http::Uri),
    /// To the terminal.
    Terminal,
}

/// The settings of the horn server that decide where horn signals go.
pub struct HornServer {
    pub kuksa_enabled: bool,
    pub kuksa_address: http::Uri,
}

impl HornServer {
    /// A horn server with the given databroker settings.
    pub fn new(kuksa_enabled: bool, kuksa_uri: http::Uri) -> (server: HornServer)
        ensures
            server.kuksa_enabled == kuksa_enabled,
            server.kuksa_address == kuksa_uri,
    {
        HornServer { kuksa_enabled, kuksa_address: kuksa_uri }
    }

    /// Where the horn signals go: to the databroker when it is enabled, and
    /// to the terminal otherwise.
    pub fn initialize_connections(&self) -> (connection: ActuatorConnection)
        ensures
            self.kuksa_enabled ==> connection == ActuatorConnection::KuksaDatabroker(&self.kuksa_address),
            !self.kuksa_enabled ==> connection == ActuatorConnection::Terminal,
    {
        if self.kuksa_enabled {
            match self.start_kuksa_databroker_connection() {
                Some(connection) => connection,
                None => self.start_terminal_connection(),
            }
        } else {
            self.start_terminal_connection()
        }
    }

    /// The databroker connection, which exists only when the databroker is enabled.
    fn start_kuksa_databroker_connection(&self) -> (connection: Option<ActuatorConnection>)
        ensures
            self.kuksa_enabled ==> connection == Some(ActuatorConnection::KuksaDatabroker(&self.kuksa_address)),
            !self.kuksa_enabled ==> connection.is_none(),
    {
        if self.kuksa_enabled {
            Some(ActuatorConnection::KuksaDatabroker(&self.kuksa_address))
        } else {
            None
        }
    }

    /// The terminal connection.
    fn start_terminal_connection(&self) -> (connection: ActuatorConnection)
        ensures
            connection == ActuatorConnection::Terminal,
    {
        ActuatorConnection::Terminal
    }
}

} // verus!
