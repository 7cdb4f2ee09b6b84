//! The connection state machine. It owns the transport handle and decides each
//! step of the handshake; the caller performs the transport's I/O and reports
//! the outcome back.
use vstd::prelude::*;
use vstd::string::StringExecFns;
use crate::header::{encode, ClientMessageType, MessageStatus, TdsHeader};
use crate::message::TdsMessage;
use crate::settings::{text, ConnectionSettings};

verus! {

/// Why a connection failed.
pub enum ConnectionError {
    /// The transport could not be established.
    ConnectError(String),
    /// A write or read on an established transport failed.
    IoError(String),
    /// A protocol step was asked for without an open transport.
    NotConnectedError,
}

pub enum ConnectionState {
    Disconnected,
    Connected,
    Negotiating,
    Negotiated,
    Failed(ConnectionError),
}

/// The states in which a transport handle is owned.
pub open spec fn holds_transport(s: ConnectionState) -> bool {
    s is Connected || s is Negotiating || s is Negotiated
}

/// The header of the PreLogin request this client sends.
pub open spec fn prelogin_request_header() -> TdsHeader {
    TdsHeader {
        message_type: ClientMessageType::PreLogin.code(),
        status: MessageStatus::EndOfMessage.code(),
        length: 20,
        spid: 0,
        packet_id: 1,
        window: 0,
    }
}

/// The body of the PreLogin request this client sends.
pub open spec fn prelogin_request_body() -> Seq<u8> {
    seq![0x00u8, 0x00u8, 0x09u8, 0x00u8, 0x06u8, 0xffu8, 0x10u8, 0x00u8, 0x7fu8, 0x10u8, 0x00u8, 0x00u8]
}

/// A connection to one database, driven through the handshake.
pub struct Connector<H> {
    database: String,
    settings: ConnectionSettings,
    state: ConnectionState,
    stream: Option<H>,
}

impl<H> Connector<H> {
    pub closed spec fn spec_state(&self) -> ConnectionState {
        self.state
    }

    pub closed spec fn spec_stream(&self) -> Option<H> {
        self.stream
    }

    pub closed spec fn spec_database(&self) -> Seq<char> {
        self.database@
    }

    pub closed spec fn spec_settings(&self) -> crate::settings::SettingsModel {
        self.settings@
    }

    /// A handle is held exactly in the states that own a transport.
    pub open spec fn wf(&self) -> bool {
        self.spec_stream() is Some <==> holds_transport(self.spec_state())
    }

    /// A disconnected connector for `db_name` using `settings`.
    pub fn with_settings(db_name: &str, settings: ConnectionSettings) -> (r: Connector<H>)
        ensures
            r.wf(),
            r.spec_state() is Disconnected,
            r.spec_stream() is None,
            r.spec_database() == db_name@,
            r.spec_settings() == settings@,
    {
        Connector { database: text(db_name), settings, state: ConnectionState::Disconnected, stream: None }
    }

    pub fn database(&self) -> (r: &str)
        ensures
            r@ == self.spec_database(),
    {
        self.database.as_str()
    }

    pub fn settings(&self) -> (r: &ConnectionSettings)
        ensures
            r@ == self.spec_settings(),
    {
        &self.settings
    }

    pub fn state(&self) -> (r: &ConnectionState)
        ensures
            *r == self.spec_state(),
    {
        &self.state
    }

    /// The transport address, `server:port`.
    pub fn connect_address(&self) -> (r: String)
        ensures
            r@ == self.spec_settings().server + ":"@ + self.spec_settings().port,
    {
        proof {
            reveal_strlit("server");
            reveal_strlit("port");
            assert("port"@.len() != "server"@.len());
        }
        let server = self.settings.get("server");
        let port = self.settings.get("port");
        let mut addr = text(server);
        addr.append(":");
        addr.append(port);
        addr
    }

    /// Takes the outcome of opening the transport at `connect_address()`.
    /// A handle moves the connector to `Connected`; an error to
    /// `Failed(ConnectError)`, with no handle kept.
    pub fn connect(&mut self, opened: Result<H, String>) -> (r: Result<bool, String>)
        requires
            old(self).spec_state() is Disconnected,
        ensures
            final(self).wf(),
            final(self).spec_database() == old(self).spec_database(),
            final(self).spec_settings() == old(self).spec_settings(),
            opened is Ok ==> r == Ok::<bool, String>(true) && final(self).spec_state() is Connected
                && final(self).spec_stream() == Some(opened->Ok_0),
            opened is Err ==> r is Err && r->Err_0@ == "Failed to connect: "@ + opened->Err_0@
                && final(self).spec_stream() is None && final(self).spec_state() == ConnectionState::Failed(
                ConnectionError::ConnectError(opened->Err_0),
            ),
    {
        match opened {
            Ok(stream) => self.save_connection(stream),
            Err(err) => {
                let mut message = text("Failed to connect: ");
                message.append(err.as_str());
                self.stream = None;
                self.state = ConnectionState::Failed(ConnectionError::ConnectError(err));
                Err(message)
            },
        }
    }

    fn save_connection(&mut self, stream: H) -> (r: Result<bool, String>)
        ensures
            r == Ok::<bool, String>(true),
            final(self).spec_state() is Connected,
            final(self).spec_stream() == Some(stream),
            final(self).spec_database() == old(self).spec_database(),
            final(self).spec_settings() == old(self).spec_settings(),
    {
        self.stream = Some(stream);
        self.state = ConnectionState::Connected;
        Ok(true)
    }

    /// Whether a transport handle is currently owned.
    pub fn is_connected(&self) -> (r: bool)
        requires
            self.wf(),
        ensures
            r == self.spec_stream() is Some,
            r == holds_transport(self.spec_state()),
    {
        self.stream.is_some()
    }

    /// The owned handle, for the caller's reads and writes.
    pub fn stream(&self) -> (r: Option<&H>)
        ensures
            r is Some <==> self.spec_stream() is Some,
            r is Some ==> *r->0 == self.spec_stream()->0,
    {
        self.stream.as_ref()
    }

    /// Moves the handle out; the connector is then disconnected.
    pub fn get_stream(&mut self) -> (r: H)
        requires
            old(self).spec_stream() is Some,
        ensures
            final(self).wf(),
            r == old(self).spec_stream()->0,
            final(self).spec_stream() is None,
            final(self).spec_state() is Disconnected,
            final(self).spec_database() == old(self).spec_database(),
            final(self).spec_settings() == old(self).spec_settings(),
    {
        let stream = self.stream.take();
        self.state = ConnectionState::Disconnected;
        stream.unwrap()
    }

    /// Starts the PreLogin exchange: returns the request packet to write to the
    /// transport and moves to `Negotiating`. Without a transport it fails with
    /// `NotConnectedError` and changes nothing. A transport carries at most one
    /// handshake, so a held transport must be freshly `Connected`.
    pub fn authenticate(&mut self) -> (r: Result<Vec<u8>, ConnectionError>)
        requires
            old(self).wf(),
            old(self).spec_stream() is Some ==> old(self).spec_state() is Connected,
        ensures
            final(self).wf(),
            final(self).spec_stream() == old(self).spec_stream(),
            final(self).spec_database() == old(self).spec_database(),
            final(self).spec_settings() == old(self).spec_settings(),
            old(self).spec_stream() is None ==> r == Err::<Vec<u8>, _>(ConnectionError::NotConnectedError)
                && final(self).spec_state() == old(self).spec_state(),
            old(self).spec_stream() is Some ==> r is Ok && final(self).spec_state() is Negotiating
                && r->Ok_0@ == encode(prelogin_request_header()) + prelogin_request_body(),
    {
        if self.stream.is_none() {
            return Err(ConnectionError::NotConnectedError);
        }
        let mut message: TdsMessage = TdsMessage::new();
        message.generate_prelogin();
        message.calc_length();
        let bytes: Vec<u8> = message.to_bytes();
        proof {
            assert(message.spec_body() =~= prelogin_request_body());
        }
        self.state = ConnectionState::Negotiating;
        Ok(bytes)
    }

    /// The caller accepted the server's PreLogin response.
    pub fn confirm_negotiated(&mut self)
        requires
            old(self).wf(),
            old(self).spec_state() is Negotiating,
        ensures
            final(self).wf(),
            final(self).spec_state() is Negotiated,
            final(self).spec_stream() == old(self).spec_stream(),
            final(self).spec_database() == old(self).spec_database(),
            final(self).spec_settings() == old(self).spec_settings(),
    {
        self.state = ConnectionState::Negotiated;
    }

    /// Moves to `Failed(reason)`, giving up the handle; returns it so that the
    /// caller can shut it down.
    pub fn fail(&mut self, reason: ConnectionError) -> (r: Option<H>)
        ensures
            final(self).wf(),
            r == old(self).spec_stream(),
            final(self).spec_stream() is None,
            final(self).spec_state() == ConnectionState::Failed(reason),
            final(self).spec_database() == old(self).spec_database(),
            final(self).spec_settings() == old(self).spec_settings(),
    {
        let stream = self.stream.take();
        self.state = ConnectionState::Failed(reason);
        stream
    }
}

} // verus!
