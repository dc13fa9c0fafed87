//! A connection's life: the lobby phase, in which only the handshake runs,
//! and the active phase of typed messaging, with the one-way upgrade between
//! them and the reset that starts a fresh lobby.

use vstd::prelude::*;
use vstd::utf8::{decode_utf8, encode_utf8, valid_utf8};
use crate::frame::{be32_value, encode_frame, frame_of, lemma_frame_round_trip, FrameError};

verus! {

broadcast use vstd::utf8::group_utf8_lib;

/// A participant's identity as the transport prints it.
#[derive(Debug)]
pub struct PeerId {
    pub text: String,
}

/// Which side of the session a participant plays.
#[derive(Debug, Clone, Copy, PartialEq, Eq)]
pub enum Role {
    /// Accepted the connection; owns the authoritative state.
    Host,
    /// Initiated the connection; holds a replica.
    Client,
}

impl Role {
    /// The role of the side that accepted (`true`) or initiated the connection.
    pub fn from_host_flag(is_host: bool) -> (r: Role)
        ensures
            is_host <==> r == Role::Host,
    {
        if is_host {
            Role::Host
        } else {
            Role::Client
        }
    }
}

/// Errors of the session layer.
#[derive(Debug, Clone, Copy, PartialEq, Eq)]
pub enum SessionError {
    /// The host began a handshake without choosing a game.
    MissingGameId,
    /// The selector the host sent is not UTF-8.
    InvalidSelector,
    /// A message is too long for one reliable frame.
    Framing,
}

/// Marker of the lobby phase.
pub struct InLobby;

/// Marker of the active phase, typed by the message alphabet `M`.
pub struct Active<M> {
    pub _pd: core::marker::PhantomData<M>,
}

/// What a session knows of its connection: both identities, the game that
/// the handshake chose, and its phase `P`.
pub struct NetworkManager<P> {
    local_endpoint_id: PeerId,
    remote_endpoint_id: PeerId,
    game_id: Option<String>,
    _state: P,
}

/// Relies on String::from_utf8: `Ok` exactly for UTF-8 input, holding the
/// characters that the bytes encode.
#[verifier::external_body]
fn string_from_utf8(b: Vec<u8>) -> (r: Option<String>)
    ensures
        r is Some <==> valid_utf8(b@),
        r matches Some(s) ==> s@ == decode_utf8(b@),
{
    match String::from_utf8(b) {
        Ok(s) => Some(s),
        Err(_) => None,
    }
}

impl<P> NetworkManager<P> {
    pub closed spec fn spec_game_id(&self) -> Option<Seq<char>> {
        match self.game_id {
            Some(g) => Some(g@),
            None => None,
        }
    }

    pub closed spec fn spec_local(&self) -> Seq<char> {
        self.local_endpoint_id.text@
    }

    pub closed spec fn spec_remote(&self) -> Seq<char> {
        self.remote_endpoint_id.text@
    }

    /// Our own identity.
    pub fn local_id(&self) -> (r: &PeerId)
        ensures
            r.text@ == self.spec_local(),
    {
        &self.local_endpoint_id
    }

    /// The identity of the peer on the other side.
    pub fn remote_id(&self) -> (r: &PeerId)
        ensures
            r.text@ == self.spec_remote(),
    {
        &self.remote_endpoint_id
    }

    /// The game that the last handshake chose, if any.
    pub fn game_id(&self) -> (r: Option<&str>)
        ensures
            r is Some <==> self.spec_game_id() is Some,
            r matches Some(g) ==> self.spec_game_id() == Some(g@),
    {
        match &self.game_id {
            Some(g) => Some(g.as_str()),
            None => None,
        }
    }
}

impl NetworkManager<InLobby> {
    /// A fresh lobby session over a connection between `local` and `remote`.
    pub fn new(local: PeerId, remote: PeerId) -> (r: Self)
        ensures
            r.spec_local() == local.text@,
            r.spec_remote() == remote.text@,
            r.spec_game_id() is None,
    {
        NetworkManager {
            local_endpoint_id: local,
            remote_endpoint_id: remote,
            game_id: None,
            _state: InLobby,
        }
    }

    /// The host's half of the handshake: it must have chosen a game, whose
    /// name it keeps and returns with the frame that carries it to the client.
    pub fn host_handshake(self, requested_game_id: Option<String>) -> (r: Result<
        (Self, String, Vec<u8>),
        SessionError,
    >)
        ensures
            requested_game_id is None ==> r == Err::<(Self, String, Vec<u8>), SessionError>(
                SessionError::MissingGameId,
            ),
            requested_game_id matches Some(g) ==> (encode_utf8(g@).len() <= u32::MAX <==> r is Ok),
            requested_game_id is Some && r is Err ==> r == Err::<(Self, String, Vec<u8>), SessionError>(
                SessionError::Framing,
            ),
            r matches Ok((s, chosen, frame)) ==> requested_game_id == Some(chosen)
                && s.spec_game_id() == Some(chosen@) && frame@ == frame_of(encode_utf8(chosen@))
                && s.spec_local() == self.spec_local() && s.spec_remote() == self.spec_remote(),
    {
        let gid = match requested_game_id {
            Some(g) => g,
            None => return Err(SessionError::MissingGameId),
        };
        let frame = match encode_frame(gid.as_str().as_bytes()) {
            Ok(f) => f,
            Err(FrameError::TooLarge) => return Err(SessionError::Framing),
        };
        let chosen = gid.clone();
        let mut s = self;
        s.game_id = Some(gid);
        Ok((s, chosen, frame))
    }

    /// The client's half of the handshake: `payload` is the body of the first
    /// reliable frame; the selector it spells becomes the session's game.
    pub fn client_handshake(self, payload: Vec<u8>) -> (r: Result<(Self, String), SessionError>)
        ensures
            r is Ok <==> valid_utf8(payload@),
            r is Err ==> r == Err::<(Self, String), SessionError>(SessionError::InvalidSelector),
            r matches Ok((s, chosen)) ==> chosen@ == decode_utf8(payload@) && s.spec_game_id()
                == Some(chosen@) && s.spec_local() == self.spec_local() && s.spec_remote()
                == self.spec_remote(),
    {
        match string_from_utf8(payload) {
            Some(gid) => {
                let chosen = gid.clone();
                let mut s = self;
                s.game_id = Some(gid);
                Ok((s, chosen))
            },
            None => Err(SessionError::InvalidSelector),
        }
    }

    /// Enters the active phase with message alphabet `M`; identities and the
    /// chosen game carry over.
    pub fn upgrade<M>(self) -> (r: NetworkManager<Active<M>>)
        ensures
            r.spec_local() == self.spec_local(),
            r.spec_remote() == self.spec_remote(),
            r.spec_game_id() == self.spec_game_id(),
    {
        NetworkManager {
            local_endpoint_id: self.local_endpoint_id,
            remote_endpoint_id: self.remote_endpoint_id,
            game_id: self.game_id,
            _state: Active { _pd: core::marker::PhantomData },
        }
    }
}

impl<M> NetworkManager<Active<M>> {
    /// Ends the active phase: a fresh lobby session on the same connection,
    /// with no game chosen.
    pub fn reset(self) -> (r: NetworkManager<InLobby>)
        ensures
            r.spec_local() == self.spec_local(),
            r.spec_remote() == self.spec_remote(),
            r.spec_game_id() is None,
    {
        NetworkManager {
            local_endpoint_id: self.local_endpoint_id,
            remote_endpoint_id: self.remote_endpoint_id,
            game_id: None,
            _state: InLobby,
        }
    }

    /// The reliable frame that carries one serialized message.
    pub fn frame_reliable(&self, bytes: &[u8]) -> (r: Result<Vec<u8>, SessionError>)
        ensures
            bytes@.len() <= u32::MAX <==> r is Ok,
            r matches Ok(f) ==> f@ == frame_of(bytes@),
            r is Err ==> r == Err::<Vec<u8>, SessionError>(SessionError::Framing),
    {
        match encode_frame(bytes) {
            Ok(f) => Ok(f),
            Err(FrameError::TooLarge) => Err(SessionError::Framing),
        }
    }
}

/// After a handshake, both ends hold the same game: the client, reading the
/// host's frame off the stream, decodes exactly the selector the host chose.
pub proof fn lemma_handshake_agreement(host_selector: Seq<char>, rest: Seq<u8>)
    requires
        encode_utf8(host_selector).len() <= u32::MAX,
    ensures
        ({
            let stream = frame_of(encode_utf8(host_selector)) + rest;
            let payload = stream.subrange(4, 4 + be32_value(stream) as int);
            valid_utf8(payload) && decode_utf8(payload) == host_selector
        }),
{
    lemma_frame_round_trip(encode_utf8(host_selector), rest);
}

} // verus!
