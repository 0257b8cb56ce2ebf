//! Authentication (RFC 4252): one method at a time, with the methods "none"
//! and "password".

use crate::client::client_state::{wakeup_client, ClientState, ClientStateView};
use crate::client::negotiate::State;
use crate::client::pump::Pump;
use crate::codec::decode::{same_octets, PacketDecode, TRUNCATED};
use crate::codec::encode::PacketEncode;
use crate::codec::wire;
use crate::codec::CodecView;
use crate::codes::msg;
use crate::error::Error;
use vstd::prelude::*;
use vstd::string::StringSliceAdditionalSpecFns;

verus! {

/// The name of the service that authenticates.
pub const SERVICE_USERAUTH: &'static str = "ssh-userauth";

/// The name of the service that we ask to be authenticated for.
pub const SERVICE_CONNECTION: &'static str = "ssh-connection";

/// The name of the method that offers nothing.
pub const METHOD_NONE: &'static str = "none";

/// The name of the method that offers a password.
pub const METHOD_PASSWORD: &'static str = "password";

/// The reason given when a user name or a password is too long for the wire.
pub const CREDENTIALS_TOO_LONG: &'static str = "the user name or the password is too long";

/// The reason given when the server accepts a service that we did not ask
/// for, or did not ask for now.
pub const UNEXPECTED_SERVICE_ACCEPT: &'static str = "received unexpected SSH_MSG_SERVICE_ACCEPT";

/// The reason given when a reply to an authentication request comes while
/// none is open, or asks to change a password that was not offered.
pub const UNEXPECTED_AUTH_REPLY: &'static str = "received unexpected reply to authentication";

/// A way to authenticate.
#[derive(Clone, PartialEq, Eq)]
pub enum AuthMethod {
    /// Offer nothing: the method "none" (RFC 4252, section 5.2).
    Nothing { username: Vec<u8> },
    /// Offer a password and, with `new_password`, ask to change it (RFC 4252,
    /// section 8).
    Password { username: Vec<u8>, password: Vec<u8>, new_password: Option<Vec<u8>> },
}

/// What an [`AuthMethod`] holds.
pub enum AuthMethodView {
    Nothing { username: Seq<u8> },
    Password { username: Seq<u8>, password: Seq<u8>, new_password: Option<Seq<u8>> },
}

impl View for AuthMethod {
    type V = AuthMethodView;

    open spec fn view(&self) -> AuthMethodView {
        match self {
            AuthMethod::Nothing { username } => AuthMethodView::Nothing { username: username@ },
            AuthMethod::Password { username, password, new_password } => AuthMethodView::Password {
                username: username@,
                password: password@,
                new_password: match new_password {
                    Some(new_password) => Some(new_password@),
                    None => None,
                },
            },
        }
    }
}

impl AuthMethodView {
    /// Each part fits in a `string`.
    pub open spec fn fits_wire(self) -> bool {
        match self {
            AuthMethodView::Nothing { username } => username.len() <= u32::MAX,
            AuthMethodView::Password { username, password, new_password } => {
                &&& username.len() <= u32::MAX
                &&& password.len() <= u32::MAX
                &&& new_password matches Some(new_password) ==> new_password.len() <= u32::MAX
            },
        }
    }

    /// The payload of the `SSH_MSG_USERAUTH_REQUEST` of the method: the user
    /// name, the service, the name of the method and what the method offers.
    pub open spec fn request_payload(self) -> Seq<u8> {
        match self {
            AuthMethodView::Nothing { username } => seq![msg::USERAUTH_REQUEST] + wire::string(
                username,
            ) + wire::string(SERVICE_CONNECTION.spec_bytes()) + wire::string(
                METHOD_NONE.spec_bytes(),
            ),
            AuthMethodView::Password { username, password, new_password } => seq![
                msg::USERAUTH_REQUEST,
            ] + wire::string(username) + wire::string(SERVICE_CONNECTION.spec_bytes())
                + wire::string(METHOD_PASSWORD.spec_bytes()) + seq![
                wire::bool_octet(new_password is Some),
            ] + wire::string(password) + (match new_password {
                Some(new_password) => wire::string(new_password),
                None => Seq::empty(),
            }),
        }
    }
}

/// How an attempt to authenticate ended.
#[derive(Debug, Clone, PartialEq, Eq)]
pub enum AuthOutcome {
    /// The server has authenticated us.
    Success,
    /// The server refused; it names the methods that may go on.
    Failure { methods_can_continue: Vec<Vec<u8>>, partial_success: bool },
    /// The server wants the password changed.
    ChangePassword { prompt: Vec<u8> },
}

/// What an [`AuthOutcome`] holds.
pub enum AuthOutcomeView {
    Success,
    Failure { methods_can_continue: Seq<Seq<u8>>, partial_success: bool },
    ChangePassword { prompt: Seq<u8> },
}

impl View for AuthOutcome {
    type V = AuthOutcomeView;

    open spec fn view(&self) -> AuthOutcomeView {
        match self {
            AuthOutcome::Success => AuthOutcomeView::Success,
            AuthOutcome::Failure { methods_can_continue, partial_success } => {
                AuthOutcomeView::Failure {
                    methods_can_continue: wire::views(methods_can_continue@),
                    partial_success: *partial_success,
                }
            },
            AuthOutcome::ChangePassword { prompt } => AuthOutcomeView::ChangePassword {
                prompt: prompt@,
            },
        }
    }
}

/// What a message of the authentication protocol means for the application.
#[derive(Debug, Clone, PartialEq, Eq)]
pub enum AuthEvent {
    /// The attempt that was under way has ended.
    Outcome(AuthOutcome),
    /// The server shows a message.
    Banner(Vec<u8>),
}

/// What an [`AuthEvent`] holds.
pub enum AuthEventView {
    Outcome(AuthOutcomeView),
    Banner(Seq<u8>),
}

impl View for AuthEvent {
    type V = AuthEventView;

    open spec fn view(&self) -> AuthEventView {
        match self {
            AuthEvent::Outcome(outcome) => AuthEventView::Outcome(outcome@),
            AuthEvent::Banner(message) => AuthEventView::Banner(message@),
        }
    }
}

/// Where the request for the authentication service stands.
#[derive(Debug, Clone, Copy, PartialEq, Eq, Structural)]
pub enum Service {
    /// We have not asked for the service.
    NotRequested,
    /// We have asked and wait for the answer.
    Requested,
    /// The server has accepted.
    Accepted,
}

/// The state of authentication.
pub struct AuthState {
    pub(crate) authenticated: bool,
    pub(crate) service: Service,
    pub(crate) method: Option<AuthMethod>,
    pub(crate) request_sent: bool,
}

/// What an [`AuthState`] holds, but for whether we are authenticated.
pub struct AuthView {
    /// Where the request for the authentication service stands.
    pub service: Service,
    /// The attempt that is under way.
    pub method: Option<AuthMethodView>,
    /// Whether the request of the attempt has been sent.
    pub request_sent: bool,
}

impl View for AuthState {
    type V = AuthView;

    open(crate) spec fn view(&self) -> AuthView {
        AuthView {
            service: self.service,
            method: match self.method {
                Some(method) => Some(method@),
                None => None,
            },
            request_sent: self.request_sent,
        }
    }
}

impl AuthView {
    /// Nothing asked, nothing tried.
    pub open spec fn fresh() -> AuthView {
        AuthView { service: Service::NotRequested, method: None, request_sent: false }
    }

    /// A request is sent only for an attempt, and only after the service was
    /// accepted; an attempt fits on the wire.
    pub open spec fn wf(self) -> bool {
        &&& self.request_sent ==> self.method is Some && self.service == Service::Accepted
        &&& self.method matches Some(method) ==> method.fits_wire()
    }
}

/// No attempt and no authentication.
pub(crate) fn init_auth() -> (auth_st: AuthState)
    ensures
        auth_st@ == AuthView::fresh(),
        !auth_st.authenticated,
{
    AuthState {
        authenticated: false,
        service: Service::NotRequested,
        method: None,
        request_sent: false,
    }
}

/// Whether the server has authenticated us.
pub fn is_authenticated(st: &ClientState) -> (authenticated: bool)
    ensures
        authenticated == st@.authenticated,
{
    st.auth_st.authenticated
}

/// Whether each part of `method` fits in a `string`.
pub fn method_fits_wire(method: &AuthMethod) -> (fits: bool)
    ensures
        fits == method@.fits_wire(),
{
    let limit: u64 = u32::MAX as u64;
    match method {
        AuthMethod::Nothing { username } => username.len() as u64 <= limit,
        AuthMethod::Password { username, password, new_password } => {
            let new_fits: bool = match new_password {
                Some(new_password) => new_password.len() as u64 <= limit,
                None => true,
            };
            username.len() as u64 <= limit && password.len() as u64 <= limit && new_fits
        },
    }
}

/// What starting an attempt makes of a state, and what the one who starts it
/// is told at once. Once we are authenticated, every attempt succeeds at once.
/// While an attempt is under way, every other is turned away.
pub open spec fn started_method(pre: ClientStateView, method: AuthMethodView) -> Result<
    (Option<AuthOutcomeView>, ClientStateView),
    Error,
> {
    if pre.authenticated {
        Ok((Some(AuthOutcomeView::Success), pre))
    } else if pre.auth.method is Some {
        Err(Error::AuthAborted)
    } else if !method.fits_wire() {
        Err(Error::Limit(CREDENTIALS_TOO_LONG))
    } else {
        Ok(
            (
                None,
                ClientStateView {
                    auth: AuthView { method: Some(method), request_sent: false, ..pre.auth },
                    wakeup: true,
                    ..pre
                },
            ),
        )
    }
}

/// Starts an attempt to authenticate. On failure the state stays as it is.
pub fn start_method(st: &mut ClientState, method: AuthMethod) -> (r: Result<
    Option<AuthOutcome>,
    Error,
>)
    requires
        old(st)@.wf(),
    ensures
        match started_method(old(st)@, method@) {
            Ok((outcome, post)) => r matches Ok(told) && crate::client::negotiate::view_of(told)
                == outcome && final(st)@ == post,
            Err(e) => r matches Err(err) && err == e && final(st)@ == old(st)@,
        },
        final(st)@.wf(),
        final(st)@.follows(old(st)@),
{
    if st.auth_st.authenticated {
        return Ok(Some(AuthOutcome::Success));
    }
    if st.auth_st.method.is_some() {
        return Err(Error::AuthAborted);
    }
    if !method_fits_wire(&method) {
        return Err(Error::Limit(CREDENTIALS_TOO_LONG));
    }
    st.auth_st.method = Some(method);
    st.auth_st.request_sent = false;
    wakeup_client(st);
    Ok(None)
}

/// The payload of `SSH_MSG_SERVICE_REQUEST` for the authentication service.
pub open spec fn service_request_payload() -> Seq<u8> {
    seq![msg::SERVICE_REQUEST] + wire::string(SERVICE_USERAUTH.spec_bytes())
}

/// Whether requests of the authentication protocol may be sent: the first key
/// exchange is complete, so that keys protect both directions, and no other
/// is under way.
pub open spec fn may_authenticate(pre: ClientStateView) -> bool {
    pre.last_kex.done && pre.negotiate.state == State::Idle
}

/// One step of authentication. While an attempt is under way and requests may
/// be sent: the service is asked for, once; after the server has accepted, the
/// request of the attempt is sent, once.
pub open spec fn pumped_auth(pre: ClientStateView) -> (Pump, ClientStateView) {
    if pre.auth.method is None || !may_authenticate(pre) {
        (Pump::Pending, pre)
    } else if pre.auth.service == Service::NotRequested {
        (
            Pump::Progress,
            ClientStateView {
                auth: AuthView { service: Service::Requested, ..pre.auth },
                codec: CodecView {
                    send_pipe: pre.codec.send_pipe.fed(service_request_payload()),
                    ..pre.codec
                },
                ..pre
            },
        )
    } else if pre.auth.service == Service::Accepted && !pre.auth.request_sent {
        (
            Pump::Progress,
            ClientStateView {
                auth: AuthView { request_sent: true, ..pre.auth },
                codec: CodecView {
                    send_pipe: pre.codec.send_pipe.fed(pre.auth.method->0.request_payload()),
                    ..pre.codec
                },
                ..pre
            },
        )
    } else {
        (Pump::Pending, pre)
    }
}

/// The lengths of the names that the authentication protocol uses.
pub proof fn lemma_names()
    ensures
        SERVICE_USERAUTH.spec_bytes().len() == 12,
        SERVICE_CONNECTION.spec_bytes().len() == 14,
        METHOD_NONE.spec_bytes().len() == 4,
        METHOD_PASSWORD.spec_bytes().len() == 8,
{
    reveal_strlit("ssh-userauth");
    reveal_strlit("ssh-connection");
    reveal_strlit("none");
    reveal_strlit("password");
    vstd::string::is_ascii_spec_bytes(SERVICE_USERAUTH);
    vstd::string::is_ascii_spec_bytes(SERVICE_CONNECTION);
    vstd::string::is_ascii_spec_bytes(METHOD_NONE);
    vstd::string::is_ascii_spec_bytes(METHOD_PASSWORD);
}

/// Encodes the `SSH_MSG_USERAUTH_REQUEST` of `method`.
pub fn encode_request(method: &AuthMethod) -> (payload: Vec<u8>)
    requires
        method@.fits_wire(),
    ensures
        payload@ == method@.request_payload(),
{
    proof {
        lemma_names();
    }
    let mut payload = PacketEncode::new();
    payload.put_u8(msg::USERAUTH_REQUEST);
    match method {
        AuthMethod::Nothing { username } => {
            payload.put_bytes(username.as_slice());
            payload.put_str(SERVICE_CONNECTION);
            payload.put_str(METHOD_NONE);
        },
        AuthMethod::Password { username, password, new_password } => {
            payload.put_bytes(username.as_slice());
            payload.put_str(SERVICE_CONNECTION);
            payload.put_str(METHOD_PASSWORD);
            payload.put_bool(new_password.is_some());
            payload.put_bytes(password.as_slice());
            if let Some(new_password) = new_password {
                payload.put_bytes(new_password.as_slice());
            }
        },
    }
    let mut out: Vec<u8> = Vec::new();
    crate::codec::encode::extend(&mut out, payload.as_bytes());
    assert(out@ =~= method@.request_payload());
    out
}

/// One step of authentication.
pub fn pump_auth(st: &mut ClientState) -> (r: Result<Pump, Error>)
    requires
        old(st)@.wf(),
    ensures
        r matches Ok(pump) && (pump, final(st)@) == pumped_auth(old(st)@),
        final(st)@.wf(),
        final(st)@.follows(old(st)@),
{
    if st.auth_st.method.is_none() || !st.last_kex.done || !matches!(
        st.negotiate_st.state,
        State::Idle
    ) {
        return Ok(Pump::Pending);
    }
    match st.auth_st.service {
        Service::NotRequested => {
            proof {
                lemma_names();
            }
            let mut payload = PacketEncode::new();
            payload.put_u8(msg::SERVICE_REQUEST);
            payload.put_str(SERVICE_USERAUTH);
            assert(payload@ =~= service_request_payload());
            st.codec.send_pipe.feed_packet(payload.as_bytes());
            st.auth_st.service = Service::Requested;
            Ok(Pump::Progress)
        },
        Service::Requested => Ok(Pump::Pending),
        Service::Accepted => {
            if st.auth_st.request_sent {
                return Ok(Pump::Pending);
            }
            let payload: Vec<u8> = match &st.auth_st.method {
                Some(method) => encode_request(method),
                None => vstd::pervasive::unreached(),
            };
            st.codec.send_pipe.feed_packet(payload.as_slice());
            st.auth_st.request_sent = true;
            Ok(Pump::Progress)
        },
    }
}

/// What receiving `SSH_MSG_SERVICE_ACCEPT` with the body `body` makes of a
/// state: the service that we asked for is accepted.
pub open spec fn received_service_accept(pre: ClientStateView, body: Seq<u8>) -> Result<
    ClientStateView,
    Error,
> {
    match wire::parse_string(body) {
        None => Err(Error::Decode(TRUNCATED)),
        Some((service, _)) => if service == SERVICE_USERAUTH.spec_bytes() && pre.auth.service
            == Service::Requested {
            Ok(ClientStateView { auth: AuthView { service: Service::Accepted, ..pre.auth }, ..pre })
        } else {
            Err(Error::Protocol(UNEXPECTED_SERVICE_ACCEPT))
        },
    }
}

/// Takes `SSH_MSG_SERVICE_ACCEPT`, whose message number has been read from
/// `payload` already. On failure the state stays as it is.
pub fn recv_service_accept(st: &mut ClientState, payload: PacketDecode) -> (r: Result<(), Error>)
    requires
        old(st)@.wf(),
    ensures
        match received_service_accept(old(st)@, payload.remaining()) {
            Ok(post) => r is Ok && final(st)@ == post,
            Err(e) => r matches Err(err) && err == e && final(st)@ == old(st)@,
        },
        final(st)@.wf(),
        final(st)@.follows(old(st)@),
{
    let mut payload = payload;
    let service: Vec<u8> = payload.get_bytes()?;
    let ours: bool = same_octets(service.as_slice(), SERVICE_USERAUTH.as_bytes());
    if ours && matches!(st.auth_st.service, Service::Requested) {
        st.auth_st.service = Service::Accepted;
        Ok(())
    } else {
        Err(Error::Protocol(UNEXPECTED_SERVICE_ACCEPT))
    }
}

/// What `SSH_MSG_USERAUTH_FAILURE` holds after the message number: the
/// methods that may go on, and whether the attempt was a partial success.
pub open spec fn parse_auth_failure(body: Seq<u8>) -> Option<(Seq<Seq<u8>>, bool)> {
    match wire::parse_name_list(body) {
        None => None,
        Some((methods, rest)) => match wire::parse_bool(rest) {
            None => None,
            Some((partial, _)) => Some((methods, partial)),
        },
    }
}

/// What a message that holds a text and the language of the text holds after
/// the message number: the text.
pub open spec fn parse_text(body: Seq<u8>) -> Option<Seq<u8>> {
    match wire::parse_string(body) {
        None => None,
        Some((text, rest)) => match wire::parse_string(rest) {
            None => None,
            Some(_) => Some(text),
        },
    }
}

/// The state after the attempt that was under way has ended.
pub open spec fn ended_attempt(pre: ClientStateView, authenticated: bool) -> ClientStateView {
    ClientStateView {
        authenticated: pre.authenticated || authenticated,
        auth: AuthView { method: None, request_sent: false, ..pre.auth },
        ..pre
    }
}

/// What receiving a message of the authentication protocol makes of a state,
/// and what it means for the application. A banner is shown and changes
/// nothing. The other messages answer the request that is open, and it is an
/// error if none is: success authenticates us for good; failure names the
/// methods that may go on; a request to change the password answers only an
/// attempt with a password.
pub open spec fn received_auth_packet(pre: ClientStateView, msg_id: u8, body: Seq<u8>) -> Result<
    (AuthEventView, ClientStateView),
    Error,
> {
    if msg_id == msg::USERAUTH_BANNER {
        match parse_text(body) {
            None => Err(Error::Decode(TRUNCATED)),
            Some(message) => Ok((AuthEventView::Banner(message), pre)),
        }
    } else if msg_id == msg::USERAUTH_SUCCESS {
        if !pre.auth.request_sent {
            Err(Error::Protocol(UNEXPECTED_AUTH_REPLY))
        } else {
            Ok((AuthEventView::Outcome(AuthOutcomeView::Success), ended_attempt(pre, true)))
        }
    } else if msg_id == msg::USERAUTH_FAILURE {
        if !pre.auth.request_sent {
            Err(Error::Protocol(UNEXPECTED_AUTH_REPLY))
        } else {
            match parse_auth_failure(body) {
                None => Err(Error::Decode(TRUNCATED)),
                Some((methods_can_continue, partial_success)) => Ok(
                    (
                        AuthEventView::Outcome(
                            AuthOutcomeView::Failure { methods_can_continue, partial_success },
                        ),
                        ended_attempt(pre, false),
                    ),
                ),
            }
        }
    } else if msg_id == msg::USERAUTH_PASSWD_CHANGEREQ {
        if !pre.auth.request_sent || !(pre.auth.method->0 is Password) {
            Err(Error::Protocol(UNEXPECTED_AUTH_REPLY))
        } else {
            match parse_text(body) {
                None => Err(Error::Decode(TRUNCATED)),
                Some(prompt) => Ok(
                    (
                        AuthEventView::Outcome(AuthOutcomeView::ChangePassword { prompt }),
                        ended_attempt(pre, false),
                    ),
                ),
            }
        }
    } else {
        Err(Error::PacketNotImplemented(msg_id))
    }
}

/// Reads a text and the language of the text.
fn get_text(payload: &mut PacketDecode) -> (r: Result<Vec<u8>, Error>)
    ensures
        final(payload).original() == old(payload).original(),
        match parse_text(old(payload).remaining()) {
            Some(text) => r matches Ok(read) && read@ == text,
            None => r matches Err(e) && e == Error::Decode(TRUNCATED),
        },
{
    let text: Vec<u8> = payload.get_bytes()?;
    let _language: Vec<u8> = payload.get_bytes()?;
    Ok(text)
}

/// Takes a message of the authentication protocol, one with a number from 50
/// to 79, whose number has been read from `payload` already. On failure the
/// state stays as it is.
pub fn recv_auth_packet(st: &mut ClientState, msg_id: u8, payload: PacketDecode) -> (r: Result<
    AuthEvent,
    Error,
>)
    requires
        old(st)@.wf(),
    ensures
        match received_auth_packet(old(st)@, msg_id, payload.remaining()) {
            Ok((event, post)) => r matches Ok(told) && told@ == event && final(st)@ == post,
            Err(e) => r matches Err(err) && err == e && final(st)@ == old(st)@,
        },
        final(st)@.wf(),
        final(st)@.follows(old(st)@),
{
    let mut payload = payload;
    if msg_id == msg::USERAUTH_BANNER {
        let message: Vec<u8> = get_text(&mut payload)?;
        Ok(AuthEvent::Banner(message))
    } else if msg_id == msg::USERAUTH_SUCCESS {
        if !st.auth_st.request_sent {
            return Err(Error::Protocol(UNEXPECTED_AUTH_REPLY));
        }
        st.auth_st.authenticated = true;
        st.auth_st.method = None;
        st.auth_st.request_sent = false;
        Ok(AuthEvent::Outcome(AuthOutcome::Success))
    } else if msg_id == msg::USERAUTH_FAILURE {
        if !st.auth_st.request_sent {
            return Err(Error::Protocol(UNEXPECTED_AUTH_REPLY));
        }
        let methods_can_continue: Vec<Vec<u8>> = payload.get_name_list()?;
        let partial_success: bool = payload.get_bool()?;
        st.auth_st.method = None;
        st.auth_st.request_sent = false;
        Ok(AuthEvent::Outcome(AuthOutcome::Failure { methods_can_continue, partial_success }))
    } else if msg_id == msg::USERAUTH_PASSWD_CHANGEREQ {
        let with_password: bool = match &st.auth_st.method {
            Some(AuthMethod::Password { .. }) => true,
            _ => false,
        };
        if !st.auth_st.request_sent || !with_password {
            return Err(Error::Protocol(UNEXPECTED_AUTH_REPLY));
        }
        let prompt: Vec<u8> = get_text(&mut payload)?;
        st.auth_st.method = None;
        st.auth_st.request_sent = false;
        Ok(AuthEvent::Outcome(AuthOutcome::ChangePassword { prompt }))
    } else {
        Err(Error::PacketNotImplemented(msg_id))
    }
}

/// No request to authenticate goes out in the clear: a step of authentication
/// sends something only when the first key exchange is complete, with
/// `SSH_MSG_NEWKEYS` sent and received, and no other is under way.
pub proof fn lemma_requests_wait_for_keys(pre: ClientStateView)
    requires
        !may_authenticate(pre),
    ensures
        pumped_auth(pre) == (Pump::Pending, pre),
{
}

/// Authentication lasts: no message of the authentication protocol and no
/// step of authentication makes a client that is authenticated one that is
/// not.
pub proof fn lemma_authentication_lasts(pre: ClientStateView, msg_id: u8, body: Seq<u8>)
    requires
        pre.authenticated,
    ensures
        pumped_auth(pre).1.authenticated,
        received_auth_packet(pre, msg_id, body) matches Ok((_, post)) ==> post.authenticated,
{
}

} // verus!
