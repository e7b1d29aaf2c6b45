use vstd::prelude::*;

use crate::connection::{auth_config_invalid, auth_matches, AuthMethod, SSH};
use crate::error::ErrorKind;
use crate::parser::ServerConnectView;

verus! {

/// Where the establishment of one session stands.
#[derive(Debug, Clone, Copy, PartialEq, Eq, Structural)]
pub enum SessionState {
    /// Nothing opened yet; the transport is to be opened next.
    Disconnected,
    /// The transport is open; the handshake is next.
    TransportOpen,
    /// The handshake is done; authentication is next.
    Handshaken,
    /// The session is authenticated and ready for commands.
    Authenticated,
    /// The attempt ended in this failure.
    Failed(ErrorKind),
}

/// The work that the caller is to do next for a session.
#[derive(Debug, Clone, Copy, PartialEq, Eq, Structural)]
pub enum SessionStep {
    /// Open a transport connection to the target's address.
    OpenTransport,
    /// Run the remote-session handshake over the open transport.
    Handshake,
    /// Authenticate in the way that the target declares.
    Authenticate,
    /// Nothing: the session is ready.
    Ready,
    /// Nothing: the attempt failed, and what was opened is to be released.
    Abort(ErrorKind),
}

/// The state in which an attempt on target `t` starts. A key-file target
/// without a key path fails at once, before any network work.
pub open spec fn session_begin(t: ServerConnectView) -> SessionState {
    if auth_config_invalid(t) {
        SessionState::Failed(ErrorKind::ConfigInvalid)
    } else {
        SessionState::Disconnected
    }
}

/// The step that is pending in state `s`.
pub open spec fn pending_step(s: SessionState) -> SessionStep {
    match s {
        SessionState::Disconnected => SessionStep::OpenTransport,
        SessionState::TransportOpen => SessionStep::Handshake,
        SessionState::Handshaken => SessionStep::Authenticate,
        SessionState::Authenticated => SessionStep::Ready,
        SessionState::Failed(kind) => SessionStep::Abort(kind),
    }
}

/// The state after the pending step of `s` succeeded or failed. A terminal
/// state stays as it is.
pub open spec fn session_after(s: SessionState, succeeded: bool) -> SessionState {
    match s {
        SessionState::Disconnected => if succeeded {
            SessionState::TransportOpen
        } else {
            SessionState::Failed(ErrorKind::NetworkUnreachable)
        },
        SessionState::TransportOpen => if succeeded {
            SessionState::Handshaken
        } else {
            SessionState::Failed(ErrorKind::HandshakeFailed)
        },
        SessionState::Handshaken => if succeeded {
            SessionState::Authenticated
        } else {
            SessionState::Failed(ErrorKind::AuthRejected)
        },
        _ => s,
    }
}

/// The attempt has ended, in success or in failure.
pub open spec fn is_terminal(s: SessionState) -> bool {
    s is Authenticated || s is Failed
}

impl SessionState {
    /// The state in which an attempt to connect to `target` starts.
    pub fn begin(target: &SSH) -> (r: SessionState)
        ensures
            r == session_begin(target@),
    {
        match target.auth_method() {
            Ok(_) => SessionState::Disconnected,
            Err(_) => SessionState::Failed(ErrorKind::ConfigInvalid),
        }
    }

    /// The step that the caller is to do next.
    pub fn pending(&self) -> (r: SessionStep)
        ensures
            r == pending_step(*self),
    {
        match *self {
            SessionState::Disconnected => SessionStep::OpenTransport,
            SessionState::TransportOpen => SessionStep::Handshake,
            SessionState::Handshaken => SessionStep::Authenticate,
            SessionState::Authenticated => SessionStep::Ready,
            SessionState::Failed(kind) => SessionStep::Abort(kind),
        }
    }

    /// The state once the pending step has succeeded or failed.
    pub fn advance(&self, succeeded: bool) -> (r: SessionState)
        ensures
            r == session_after(*self, succeeded),
    {
        match *self {
            SessionState::Disconnected => if succeeded {
                SessionState::TransportOpen
            } else {
                SessionState::Failed(ErrorKind::NetworkUnreachable)
            },
            SessionState::TransportOpen => if succeeded {
                SessionState::Handshaken
            } else {
                SessionState::Failed(ErrorKind::HandshakeFailed)
            },
            SessionState::Handshaken => if succeeded {
                SessionState::Authenticated
            } else {
                SessionState::Failed(ErrorKind::AuthRejected)
            },
            _ => *self,
        }
    }

    pub fn is_terminal(&self) -> (r: bool)
        ensures
            r == is_terminal(*self),
    {
        match *self {
            SessionState::Authenticated | SessionState::Failed(_) => true,
            _ => false,
        }
    }
}

/// A key-file target without a key path fails with `ConfigInvalid` in the
/// state an attempt starts in, and the first step asks for no network work.
pub proof fn lemma_missing_key_fails_before_network(t: ServerConnectView)
    requires
        t.kind == crate::parser::ConnectionType::SSH_KEY,
        t.location is None,
    ensures
        session_begin(t) == SessionState::Failed(ErrorKind::ConfigInvalid),
        pending_step(session_begin(t)) == SessionStep::Abort(ErrorKind::ConfigInvalid),
        is_terminal(session_begin(t)),
{
}

/// A password target starts an attempt with the transport step, and once
/// the transport, the handshake and the password authentication succeed
/// the session is authenticated and ready; the authentication asked for is
/// by password, as the target's user.
pub proof fn lemma_password_target_authenticates(t: ServerConnectView, m: AuthMethod)
    requires
        t.kind == crate::parser::ConnectionType::SSH,
        t.password is Some,
        auth_matches(m, t),
    ensures
        pending_step(session_begin(t)) == SessionStep::OpenTransport,
        session_after(session_after(session_after(session_begin(t), true), true), true)
            == SessionState::Authenticated,
        pending_step(session_after(session_after(session_after(session_begin(t), true), true), true))
            == SessionStep::Ready,
        m matches AuthMethod::Password { user, password } && user@ == t.user && Some(password@)
            == t.password,
{
}

/// Where the transport cannot be opened, the attempt on any target that
/// reaches the network ends in `NetworkUnreachable`, and nothing further is
/// asked but the release of what was opened.
pub proof fn lemma_unreachable_is_network_failure(t: ServerConnectView)
    requires
        !auth_config_invalid(t),
    ensures
        session_after(session_begin(t), false) == SessionState::Failed(ErrorKind::NetworkUnreachable),
        pending_step(session_after(session_begin(t), false)) == SessionStep::Abort(
            ErrorKind::NetworkUnreachable,
        ),
{
}

/// A failed transport, handshake or authentication step ends the attempt:
/// the state is a failure, and the step asked for next is the release.
pub proof fn lemma_failed_step_releases(s: SessionState)
    requires
        !is_terminal(s),
    ensures
        session_after(s, false) is Failed,
        is_terminal(session_after(s, false)),
        pending_step(session_after(s, false)) is Abort,
{
}

} // verus!
