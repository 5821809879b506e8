//! The session controller.
//!
//! A session goes through these phases:
//!
//! ```text
//! Unauthenticated -> Authenticating -> Active -> (Active | Expired) -> Closed
//! ```
//!
//! The controller does not talk to the server itself. Every exchange is a
//! pair of calls: `begin_login` or `begin_send` hands out the request that
//! is to be posted, and `complete_login` or `complete_send` takes what came
//! back, be it the raw answer or the failure of the transport. Between the
//! two calls the request is under way, and no other request of the session
//! can begin.
//!
//! The game state changes only when an answer has been decoded and merged as
//! a whole. Whatever fails, the state is what it was before.

use vstd::prelude::*;
use vstd::string::*;
use crate::assemble::{apply, assemble_spec, changed_models, patched, rebuild, ChangeSet};
use crate::command::Command;
use crate::decode::{decode, decode_spec};
use crate::digest::{hash_secret, secret_hash_spec};
use crate::encode::{
    check_name, command_args, command_name, command_valid, encode, encode_spec, is_name,
    EncodedRequest, RequestText,
};
use crate::error::{EncodeError, SessionError, TransportError};
use crate::laws::{
    lemma_apply_keeps_valid, lemma_apply_replaces_part, lemma_apply_sets_what_is_sent,
    lemma_unrecognized_changes_nothing,
};
use crate::model::{recognized, Field, Model};
use crate::number::i64_value;
use crate::response::{brings_whole_part, holds_whole_part};
use crate::state::{empty_state, field_of, part_of, valid_state, GameState, StateView};
use crate::store::lookup;
use crate::text::{bytes_eq, copy_bytes, views};

verus! {

/// Where a session stands.
#[derive(Clone, Copy, Debug, PartialEq, Eq, Structural)]
pub enum Phase {
    /// No login has been tried, or the last one has failed.
    Unauthenticated,
    /// A login is under way.
    Authenticating,
    /// The server has granted the session; commands can be sent.
    Active,
    /// The server has turned the session's token down; a new login is
    /// needed.
    Expired,
    /// The session has been closed and stays so.
    Closed,
}

/// A request as it is handed to the transport.
#[derive(Clone, Debug, PartialEq, Eq)]
pub struct Request {
    /// The server that the request goes to.
    pub server: Vec<u8>,
    /// The command and its arguments.
    pub command: EncodedRequest,
    /// The token of the session, which every request but the login carries.
    pub token: Option<Vec<u8>>,
}

/// What a request holds.
pub struct RequestView {
    /// The server that the request goes to.
    pub server: Seq<u8>,
    /// The command and its arguments.
    pub command: RequestText,
    /// The token of the session.
    pub token: Option<Seq<u8>>,
}

/// The view of an optional byte string.
pub open spec fn bytes_view(bytes: Option<Vec<u8>>) -> Option<Seq<u8>> {
    match bytes {
        Some(b) => Some(b@),
        None => None,
    }
}

impl View for Request {
    type V = RequestView;

    open spec fn view(&self) -> RequestView {
        RequestView { server: self.server@, command: self.command@, token: bytes_view(self.token) }
    }
}

/// What a session holds.
pub struct SessionView {
    /// Where the session stands.
    pub phase: Phase,
    /// Whether a command has been handed out whose answer has not come back.
    pub pending: bool,
    /// The name of the player.
    pub username: Seq<u8>,
    /// What the server sees in place of the player's secret.
    pub secret_hash: Seq<u8>,
    /// The server that the session talks to.
    pub server: Seq<u8>,
    /// The token that the server has issued, while it is good.
    pub token: Option<Seq<u8>>,
    /// The game state.
    pub game: StateView,
}

/// The key under which the server reports an error of its own.
pub open spec fn error_key() -> Seq<u8> {
    "error".spec_bytes()
}

/// The error by which the server turns a token down.
pub open spec fn expired_marker() -> Seq<u8> {
    "sessionid invalid".spec_bytes()
}

/// The key under which the server issues the token of a session.
pub open spec fn token_key() -> Seq<u8> {
    "sessionid".spec_bytes()
}

/// The name of the server command that logs a player in.
pub open spec fn login_command() -> Seq<u8> {
    "AccountLogin".spec_bytes()
}

/// What the transport gave back: the raw answer, or its own failure.
pub open spec fn reply_view(reply: Result<Vec<u8>, TransportError>) -> Result<
    Seq<u8>,
    TransportError,
> {
    match reply {
        Ok(raw) => Ok(raw@),
        Err(e) => Err(e),
    }
}

/// A session before its first login.
pub open spec fn new_session(username: Seq<u8>, secret_hash: Seq<u8>, server: Seq<u8>)
    -> SessionView {
    SessionView {
        phase: Phase::Unauthenticated,
        pending: false,
        username,
        secret_hash,
        server,
        token: None,
        game: empty_state(),
    }
}

/// The request that logs the player of `session` in.
pub open spec fn login_request(session: SessionView) -> RequestView {
    RequestView {
        server: session.server,
        command: RequestText {
            name: login_command(),
            args: seq![session.username, session.secret_hash],
        },
        token: None,
    }
}

/// What `begin_login` does: the session afterwards, and the request to post
/// or the reason why there is none.
pub open spec fn begin_login_spec(session: SessionView) -> (
    SessionView,
    Result<RequestView, SessionError>,
) {
    if session.phase == Phase::Closed {
        (session, Err(SessionError::Closed))
    } else if session.phase == Phase::Authenticating || session.pending {
        (session, Err(SessionError::Busy))
    } else if !is_name(session.username) {
        (session, Err(SessionError::Encode(EncodeError::InvalidArgument)))
    } else {
        (
            SessionView { phase: Phase::Authenticating, token: None, ..session },
            Ok(login_request(session)),
        )
    }
}

/// What `complete_login` does: the session afterwards, and the parts that
/// the first snapshot has filled or the reason why the login failed.
pub open spec fn complete_login_spec(
    session: SessionView,
    reply: Result<Seq<u8>, TransportError>,
    received_at: i64,
) -> (SessionView, Result<Set<Model>, SessionError>) {
    if session.phase != Phase::Authenticating {
        (session, Err(SessionError::Idle))
    } else {
        let failed = SessionView { phase: Phase::Unauthenticated, ..session };
        match reply {
            Err(e) => (failed, Err(SessionError::Transport(e))),
            Ok(raw) => match decode_spec(raw) {
                Err(e) => (failed, Err(SessionError::Decode(e))),
                Ok(entries) => {
                    let token = lookup(entries, token_key());
                    if lookup(entries, error_key()) is Some || token is None || token->0.len() == 0
                        || !holds_whole_part(entries) {
                        (failed, Err(SessionError::Rejected))
                    } else {
                        match assemble_spec(entries, received_at, empty_state()) {
                            Err(e) => (failed, Err(SessionError::Assemble(e))),
                            Ok(game) => (
                                SessionView { phase: Phase::Active, token, game, ..session },
                                Ok(changed_models(empty_state(), game)),
                            ),
                        }
                    }
                },
            },
        }
    }
}

/// What `begin_send` does: the session afterwards, and the request to post
/// or the reason why there is none.
pub open spec fn begin_send_spec(session: SessionView, cmd: Command) -> (
    SessionView,
    Result<RequestView, SessionError>,
) {
    match session.phase {
        Phase::Closed => (session, Err(SessionError::Closed)),
        Phase::Expired => (session, Err(SessionError::Expired)),
        Phase::Unauthenticated => (session, Err(SessionError::NotAuthenticated)),
        Phase::Authenticating => (session, Err(SessionError::Busy)),
        Phase::Active => if session.pending {
            (session, Err(SessionError::Busy))
        } else {
            match encode_spec(cmd) {
                Err(e) => (session, Err(SessionError::Encode(e))),
                Ok(command) => (
                    SessionView { pending: true, ..session },
                    Ok(RequestView { server: session.server, command, token: session.token }),
                ),
            }
        },
    }
}

/// What `complete_send` does: the session afterwards, and the parts that
/// the answer has changed or the reason why it changed none.
pub open spec fn complete_send_spec(
    session: SessionView,
    reply: Result<Seq<u8>, TransportError>,
    received_at: i64,
) -> (SessionView, Result<Set<Model>, SessionError>) {
    if session.phase != Phase::Active || !session.pending {
        (session, Err(SessionError::Idle))
    } else {
        let settled = SessionView { pending: false, ..session };
        match reply {
            Err(e) => (settled, Err(SessionError::Transport(e))),
            Ok(raw) => match decode_spec(raw) {
                Err(e) => (settled, Err(SessionError::Decode(e))),
                Ok(entries) => match lookup(entries, error_key()) {
                    Some(message) => if message == expired_marker() {
                        (
                            SessionView { phase: Phase::Expired, token: None, ..settled },
                            Err(SessionError::Expired),
                        )
                    } else {
                        (settled, Err(SessionError::Rejected))
                    },
                    None => match assemble_spec(entries, received_at, session.game) {
                        Err(e) => (settled, Err(SessionError::Assemble(e))),
                        Ok(game) => (
                            SessionView { game, ..settled },
                            Ok(changed_models(session.game, game)),
                        ),
                    },
                },
            },
        }
    }
}

/// What `logout` does.
pub open spec fn logout_spec(session: SessionView) -> SessionView {
    SessionView { phase: Phase::Closed, pending: false, token: None, ..session }
}

/// What holds of a session at every moment: a command is under way only
/// while the session is active, the session holds a token exactly while it
/// is active, the token is not empty, and every part of the game state has
/// the shape of its kind.
pub open spec fn valid_session(session: SessionView) -> bool {
    &&& session.pending ==> session.phase == Phase::Active
    &&& session.phase == Phase::Active <==> session.token is Some
    &&& session.token matches Some(token) ==> token.len() > 0
    &&& valid_state(session.game)
}

/// A new session is valid, and whatever is done with a valid session leaves
/// it valid.
pub proof fn lemma_session_stays_valid(
    session: SessionView,
    cmd: Command,
    reply: Result<Seq<u8>, TransportError>,
    received_at: i64,
)
    requires
        valid_session(session),
    ensures
        valid_session(new_session(session.username, session.secret_hash, session.server)),
        valid_session(begin_login_spec(session).0),
        valid_session(complete_login_spec(session, reply, received_at).0),
        valid_session(begin_send_spec(session, cmd).0),
        valid_session(complete_send_spec(session, reply, received_at).0),
        valid_session(logout_spec(session)),
{
    if let Ok(raw) = reply {
        if let Ok(entries) = decode_spec(raw) {
            if assemble_spec(entries, received_at, empty_state()) is Ok {
                lemma_apply_keeps_valid(entries, received_at, empty_state());
            }
            if assemble_spec(entries, received_at, session.game) is Ok {
                lemma_apply_keeps_valid(entries, received_at, session.game);
            }
        }
    }
}

/// Once the server has turned the token down, the session is expired, its
/// game state is what it was, and every command is refused with `Expired`
/// before any request is made: nothing is handed out for the transport.
pub proof fn lemma_expired_session_refuses(
    session: SessionView,
    raw: Seq<u8>,
    received_at: i64,
    cmd: Command,
)
    requires
        session.phase == Phase::Active,
        session.pending,
        decode_spec(raw) is Ok,
        lookup(decode_spec(raw)->Ok_0, error_key()) == Some(expired_marker()),
    ensures
        ({
            let (after, outcome) = complete_send_spec(
                session,
                Ok::<Seq<u8>, TransportError>(raw),
                received_at,
            );
            &&& outcome == Err::<Set<Model>, SessionError>(SessionError::Expired)
            &&& after.phase == Phase::Expired
            &&& after.token is None
            &&& after.game == session.game
            &&& begin_send_spec(after, cmd) == (
                after,
                Err::<RequestView, SessionError>(SessionError::Expired),
            )
        }),
{
}

/// A closed session stays closed: it refuses every command and every login,
/// and hands nothing out for the transport.
pub proof fn lemma_closed_session_refuses(session: SessionView, cmd: Command)
    ensures
        ({
            let closed = logout_spec(session);
            &&& begin_send_spec(closed, cmd) == (
                closed,
                Err::<RequestView, SessionError>(SessionError::Closed),
            )
            &&& begin_login_spec(closed) == (
                closed,
                Err::<RequestView, SessionError>(SessionError::Closed),
            )
            &&& logout_spec(closed) == closed
        }),
{
}

/// Whatever fails when an answer is completed, the game state is what it
/// was; and a request that cannot begin changes nothing at all.
pub proof fn lemma_failure_keeps_game(
    session: SessionView,
    reply: Result<Seq<u8>, TransportError>,
    received_at: i64,
    cmd: Command,
)
    ensures
        complete_send_spec(session, reply, received_at).1 is Err ==> complete_send_spec(
            session,
            reply,
            received_at,
        ).0.game == session.game,
        complete_login_spec(session, reply, received_at).1 is Err ==> complete_login_spec(
            session,
            reply,
            received_at,
        ).0.game == session.game,
        begin_send_spec(session, cmd).1 is Err ==> begin_send_spec(session, cmd).0 == session,
        begin_login_spec(session).1 is Err ==> begin_login_spec(session).0 == session,
{
}

/// What goes out and what comes back fit together, for every command. An
/// active session with no request under way hands out the request of any
/// command whose arguments are valid. When the answer to it is merged, each
/// field that the answer held has the value that the answer gave it, each
/// part that the answer held as a whole is that part as sent with the
/// fields as sent, the parts reported as changed are those that differ, and
/// the session is ready for the next command.
pub proof fn lemma_answer_is_reflected(
    session: SessionView,
    cmd: Command,
    raw: Seq<u8>,
    received_at: i64,
    field: Field,
    model: Model,
)
    requires
        session.phase == Phase::Active,
        !session.pending,
        valid_state(session.game),
        command_valid(cmd),
    ensures
        ({
            let (sent, request) = begin_send_spec(session, cmd);
            let (after, outcome) = complete_send_spec(
                sent,
                Ok::<Seq<u8>, TransportError>(raw),
                received_at,
            );
            &&& request is Ok
            &&& request->Ok_0.command.name == command_name(cmd)
            &&& request->Ok_0.command.args == command_args(cmd)
            &&& outcome is Ok ==> {
                &&& decode_spec(raw) is Ok
                &&& lookup(decode_spec(raw)->Ok_0, field.key()) matches Some(value) ==> i64_value(
                    value,
                ) is Some && field_of(after.game, field) == i64_value(value)
                &&& lookup(decode_spec(raw)->Ok_0, model.key()) matches Some(value) ==> rebuild(
                    model,
                    value,
                ) is Some && part_of(after.game, model) == Some(
                    patched(decode_spec(raw)->Ok_0, model.fields(), rebuild(model, value)->0),
                )
                &&& outcome->Ok_0 == changed_models(session.game, after.game)
                &&& after.phase == Phase::Active
                &&& !after.pending
            }
        }),
{
    let (sent, request) = begin_send_spec(session, cmd);
    let (after, outcome) = complete_send_spec(sent, Ok::<Seq<u8>, TransportError>(raw), received_at);
    if outcome is Ok {
        let entries = decode_spec(raw)->Ok_0;
        lemma_apply_sets_what_is_sent(entries, received_at, session.game, field);
        if lookup(entries, model.key()) is Some {
            lemma_apply_replaces_part(entries, received_at, session.game, model);
        }
    }
}

/// An answer that reports no error and holds no recognized key changes
/// nothing and is no failure: the command completes with an empty set of
/// changed parts, the game state is what it was, and the session is ready
/// for the next command. This covers the empty answer and the answer that
/// holds only keys which the engine does not know.
pub proof fn lemma_unrecognized_answer_changes_nothing(
    session: SessionView,
    raw: Seq<u8>,
    received_at: i64,
)
    requires
        session.phase == Phase::Active,
        session.pending,
        decode_spec(raw) is Ok,
        lookup(decode_spec(raw)->Ok_0, error_key()) is None,
        forall|key: Seq<u8>| recognized(key) ==> lookup(decode_spec(raw)->Ok_0, key) is None,
    ensures
        complete_send_spec(session, Ok::<Seq<u8>, TransportError>(raw), received_at) == (
            SessionView { pending: false, ..session },
            Ok::<Set<Model>, SessionError>(Set::<Model>::empty()),
        ),
{
    lemma_unrecognized_changes_nothing(decode_spec(raw)->Ok_0, received_at, session.game);
}

/// Every player whose name is not empty and holds no `/` can begin a login,
/// whatever else the name holds: the request names the player and the
/// server and carries the hashed secret, not the secret.
pub proof fn lemma_login_is_handed_out(session: SessionView)
    requires
        session.phase != Phase::Closed,
        session.phase != Phase::Authenticating,
        !session.pending,
        is_name(session.username),
    ensures
        begin_login_spec(session).1 == Ok::<RequestView, SessionError>(login_request(session)),
        login_request(session).server == session.server,
        login_request(session).command.args == seq![session.username, session.secret_hash],
        begin_login_spec(session).0.phase == Phase::Authenticating,
{
}

/// Every request that a session hands out for a command goes to the
/// session's server and carries the token that the server has issued.
pub proof fn lemma_requests_carry_token(session: SessionView, cmd: Command)
    requires
        valid_session(session),
    ensures
        begin_send_spec(session, cmd).1 matches Ok(request) ==> request.token is Some
            && request.token == session.token && request.server == session.server,
{
}

/// The server that a session talks to, as the caller names it: a host name
/// or an address of any form. The text is handed to the transport as it is
/// and is no part of what a request says. Only the empty text names no
/// server.
#[derive(Clone, Debug, PartialEq, Eq)]
pub struct ServerConnection {
    server: Vec<u8>,
}

impl View for ServerConnection {
    type V = Seq<u8>;

    closed spec fn view(&self) -> Seq<u8> {
        self.server@
    }
}

impl ServerConnection {
    /// The connection to the server of the given name, unless the name is
    /// empty.
    pub fn new(server: &[u8]) -> (connection: Option<ServerConnection>)
        ensures
            match connection {
                Some(c) => server@.len() > 0 && c@ == server@,
                None => server@.len() == 0,
            },
    {
        if server.len() > 0 {
            Some(ServerConnection { server: copy_bytes(server) })
        } else {
            None
        }
    }

    /// The name of the server.
    pub fn server(&self) -> (server: &Vec<u8>)
        ensures
            server@ == self@,
    {
        &self.server
    }
}

/// The controller of one session.
#[derive(Debug)]
pub struct Session {
    phase: Phase,
    pending: bool,
    username: Vec<u8>,
    secret_hash: Vec<u8>,
    connection: ServerConnection,
    token: Option<Vec<u8>>,
    game: GameState,
}

impl View for Session {
    type V = SessionView;

    closed spec fn view(&self) -> SessionView {
        SessionView {
            phase: self.phase,
            pending: self.pending,
            username: self.username@,
            secret_hash: self.secret_hash@,
            server: self.connection@,
            token: bytes_view(self.token),
            game: self.game@,
        }
    }
}

/// A copy of an optional byte string.
fn copy_token(token: &Option<Vec<u8>>) -> (out: Option<Vec<u8>>)
    ensures
        bytes_view(out) == bytes_view(*token),
{
    match token {
        Some(t) => Some(copy_bytes(t.as_slice())),
        None => None,
    }
}

impl Session {
    /// A session for a player, before its first login. The secret is hashed
    /// at once and not kept.
    pub fn new(username: &[u8], secret: &[u8], connection: ServerConnection) -> (session: Session)
        ensures
            session@ == new_session(username@, secret_hash_spec(secret@), connection@),
    {
        let hash = hash_secret(secret);
        Session::with_secret_hash(username, hash, connection)
    }

    /// A session for a player of whom only the hashed secret is at hand.
    pub fn with_secret_hash(
        username: &[u8],
        secret_hash: Vec<u8>,
        connection: ServerConnection,
    ) -> (session: Session)
        ensures
            session@ == new_session(username@, secret_hash@, connection@),
    {
        Session {
            phase: Phase::Unauthenticated,
            pending: false,
            username: copy_bytes(username),
            secret_hash,
            connection,
            token: None,
            game: GameState::new(),
        }
    }

    /// Where the session stands.
    pub fn phase(&self) -> (phase: Phase)
        ensures
            phase == self@.phase,
    {
        self.phase
    }

    /// Whether a request of the session is under way.
    pub fn is_busy(&self) -> (busy: bool)
        ensures
            busy == (self@.pending || self@.phase == Phase::Authenticating),
    {
        self.pending || self.phase == Phase::Authenticating
    }

    /// The token that the server has issued, while it is good.
    pub fn token(&self) -> (token: Option<&Vec<u8>>)
        ensures
            match token {
                Some(t) => self@.token == Some(t@),
                None => self@.token is None,
            },
    {
        match &self.token {
            Some(t) => Some(t),
            None => None,
        }
    }

    /// The game state, to read.
    pub fn state(&self) -> (game: &GameState)
        ensures
            game@ == self@.game,
    {
        &self.game
    }

    /// Begins a login. Hands out the request to post, and from then on the
    /// session is authenticating until `complete_login` is called. A token
    /// that the session held is given up.
    pub fn begin_login(&mut self) -> (result: Result<Request, SessionError>)
        ensures
            final(self)@ == begin_login_spec(old(self)@).0,
            match result {
                Ok(request) => begin_login_spec(old(self)@).1 == Ok::<RequestView, SessionError>(
                    request@,
                ),
                Err(e) => begin_login_spec(old(self)@).1 == Err::<RequestView, SessionError>(e),
            },
    {
        if self.phase == Phase::Closed {
            return Err(SessionError::Closed);
        }
        if self.phase == Phase::Authenticating || self.pending {
            return Err(SessionError::Busy);
        }
        if !check_name(self.username.as_slice()) {
            return Err(SessionError::Encode(EncodeError::InvalidArgument));
        }
        let mut args: Vec<Vec<u8>> = Vec::new();
        args.push(copy_bytes(self.username.as_slice()));
        args.push(copy_bytes(self.secret_hash.as_slice()));
        assert(views(args@) =~= seq![self.username@, self.secret_hash@]);
        let command = EncodedRequest { name: "AccountLogin".as_bytes_vec(), args };
        let request = Request { server: copy_bytes(self.connection.server().as_slice()), command, token: None };
        self.phase = Phase::Authenticating;
        self.token = None;
        Ok(request)
    }

    /// Completes a login with what the transport gave back.
    ///
    /// The login succeeds when the answer decodes, reports no error, issues
    /// a token, brings at least one part as a whole, and merges into an
    /// empty state. Then the session is active and holds the merged state.
    /// Otherwise the session is unauthenticated and its state is what it
    /// was.
    pub fn complete_login(&mut self, reply: Result<Vec<u8>, TransportError>, received_at: i64) -> (result:
        Result<ChangeSet, SessionError>)
        ensures
            final(self)@ == complete_login_spec(old(self)@, reply_view(reply), received_at).0,
            match result {
                Ok(changes) => complete_login_spec(old(self)@, reply_view(reply), received_at).1
                    == Ok::<Set<Model>, SessionError>(changes@),
                Err(e) => complete_login_spec(old(self)@, reply_view(reply), received_at).1
                    == Err::<Set<Model>, SessionError>(e),
            },
    {
        if self.phase != Phase::Authenticating {
            return Err(SessionError::Idle);
        }
        self.phase = Phase::Unauthenticated;
        let raw = match reply {
            Ok(raw) => raw,
            Err(e) => {
                return Err(SessionError::Transport(e));
            },
        };
        let store = match decode(raw.as_slice()) {
            Ok(store) => store,
            Err(e) => {
                return Err(SessionError::Decode(e));
            },
        };
        let error_key = "error".as_bytes_vec();
        let token_key = "sessionid".as_bytes_vec();
        if store.contains_key(error_key.as_slice()) {
            return Err(SessionError::Rejected);
        }
        let token = match store.get(token_key.as_slice()) {
            Some(token) => copy_bytes(token.as_slice()),
            None => {
                return Err(SessionError::Rejected);
            },
        };
        if token.len() == 0 || !brings_whole_part(&store) {
            return Err(SessionError::Rejected);
        }
        let mut fresh = GameState::new();
        match apply(&store, received_at, &mut fresh) {
            Err(e) => Err(SessionError::Assemble(e)),
            Ok(changes) => {
                self.phase = Phase::Active;
                self.token = Some(token);
                self.game = fresh;
                Ok(changes)
            },
        }
    }

    /// Begins a command. Hands out the request to post, with the token of
    /// the session, and from then on the request is under way until
    /// `complete_send` is called.
    ///
    /// A session that is not active, or has a request under way, hands
    /// nothing out and stays as it is; so does a command that cannot be
    /// encoded.
    pub fn begin_send(&mut self, cmd: &Command) -> (result: Result<Request, SessionError>)
        ensures
            final(self)@ == begin_send_spec(old(self)@, *cmd).0,
            match result {
                Ok(request) => begin_send_spec(old(self)@, *cmd).1 == Ok::<
                    RequestView,
                    SessionError,
                >(request@),
                Err(e) => begin_send_spec(old(self)@, *cmd).1 == Err::<RequestView, SessionError>(
                    e,
                ),
            },
    {
        match self.phase {
            Phase::Closed => {
                return Err(SessionError::Closed);
            },
            Phase::Expired => {
                return Err(SessionError::Expired);
            },
            Phase::Unauthenticated => {
                return Err(SessionError::NotAuthenticated);
            },
            Phase::Authenticating => {
                return Err(SessionError::Busy);
            },
            Phase::Active => {},
        }
        if self.pending {
            return Err(SessionError::Busy);
        }
        let command = match encode(cmd) {
            Ok(command) => command,
            Err(e) => {
                return Err(SessionError::Encode(e));
            },
        };
        let request = Request {
            server: copy_bytes(self.connection.server().as_slice()),
            command,
            token: copy_token(&self.token),
        };
        self.pending = true;
        Ok(request)
    }

    /// Completes a command with what the transport gave back.
    ///
    /// When the answer decodes, reports no error and merges, the state is
    /// the merged one and the result names the parts that have changed.
    /// When the answer turns the token down, the session is expired. In
    /// every case of failure the state is what it was, and nothing is tried
    /// again.
    pub fn complete_send(&mut self, reply: Result<Vec<u8>, TransportError>, received_at: i64) -> (result:
        Result<ChangeSet, SessionError>)
        ensures
            final(self)@ == complete_send_spec(old(self)@, reply_view(reply), received_at).0,
            match result {
                Ok(changes) => complete_send_spec(old(self)@, reply_view(reply), received_at).1
                    == Ok::<Set<Model>, SessionError>(changes@),
                Err(e) => complete_send_spec(old(self)@, reply_view(reply), received_at).1
                    == Err::<Set<Model>, SessionError>(e),
            },
    {
        if self.phase != Phase::Active || !self.pending {
            return Err(SessionError::Idle);
        }
        self.pending = false;
        let raw = match reply {
            Ok(raw) => raw,
            Err(e) => {
                return Err(SessionError::Transport(e));
            },
        };
        let store = match decode(raw.as_slice()) {
            Ok(store) => store,
            Err(e) => {
                return Err(SessionError::Decode(e));
            },
        };
        let error_key = "error".as_bytes_vec();
        match store.get(error_key.as_slice()) {
            Some(message) => {
                let marker = "sessionid invalid".as_bytes_vec();
                if bytes_eq(message.as_slice(), marker.as_slice()) {
                    self.phase = Phase::Expired;
                    self.token = None;
                    return Err(SessionError::Expired);
                }
                return Err(SessionError::Rejected);
            },
            None => {},
        }
        match apply(&store, received_at, &mut self.game) {
            Ok(changes) => Ok(changes),
            Err(e) => Err(SessionError::Assemble(e)),
        }
    }

    /// Closes the session for good and gives up its token.
    pub fn logout(&mut self)
        ensures
            final(self)@ == logout_spec(old(self)@),
    {
        self.phase = Phase::Closed;
        self.pending = false;
        self.token = None;
    }
}

} // verus!
