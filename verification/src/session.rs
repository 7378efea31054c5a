use crate::error::{AuthError, TransportError};
use crate::model::{Response, SessionStatus};
use vstd::prelude::*;

verus! {

/// What a status query came back with.
pub type StatusReply = Result<Response<SessionStatus>, TransportError>;

/// What is known of the authenticated session.
#[derive(Debug, PartialEq, Eq)]
pub enum SessionState {
    /// Nothing is known: no query was made yet or the last reply carried no
    /// status (`None`), or the last query failed (`Some`).
    Unknown(Option<TransportError>),
    /// The router confirmed that the session is live.
    Active,
    /// The router reported that the session has expired.
    Inactive,
    /// A login with the stored credentials is under way.
    Authenticating,
    /// A login failed. Nothing leads out of this state.
    Failed(AuthError),
}

/// What the caller of the guard does next.
#[derive(Debug, PartialEq, Eq)]
pub enum GuardAction {
    /// The session needs no login: go on with the request.
    Proceed,
    /// Log in with these credentials, then report the outcome to
    /// [`SessionGuard::reauthenticated`].
    Reauthenticate { username: String, password: String },
}

/// What a status reply says of the session.
pub open spec fn reported(reply: StatusReply) -> SessionState {
    match reply {
        Err(failure) => SessionState::Unknown(Some(failure)),
        Ok(response) => match response.data {
            Some(status) => if status.active {
                SessionState::Active
            } else {
                SessionState::Inactive
            },
            None => SessionState::Unknown(None),
        },
    }
}

/// Whether a state calls for a login: the session is reported expired, or
/// the status query itself failed.
pub open spec fn needs_login(state: SessionState) -> bool {
    state is Inactive || state matches SessionState::Unknown(Some(_))
}

/// The state that a guard is in after it has taken in a status reply.
pub open spec fn after_status(before: SessionState, reply: StatusReply) -> SessionState {
    if before is Failed {
        before
    } else if needs_login(reported(reply)) {
        SessionState::Authenticating
    } else {
        reported(reply)
    }
}

/// The state that a guard is in after a login has ended.
pub open spec fn after_login(before: SessionState, outcome: Result<(), TransportError>)
    -> SessionState {
    if before is Failed {
        before
    } else {
        match outcome {
            Ok(_) => SessionState::Active,
            Err(failure) => SessionState::Failed(AuthError { cause: failure }),
        }
    }
}

/// Keeps the authenticated session alive: it reads each status reply and
/// calls for a login with the stored credentials when the session has
/// expired. The credentials are passed through and never looked into.
pub struct SessionGuard {
    username: String,
    password: String,
    state: SessionState,
}

impl SessionGuard {
    /// The state of the session as the guard knows it.
    pub closed spec fn state(&self) -> SessionState {
        self.state
    }

    /// The stored user name.
    pub closed spec fn username(&self) -> Seq<char> {
        self.username@
    }

    /// The stored password.
    pub closed spec fn password(&self) -> Seq<char> {
        self.password@
    }

    /// A guard for a session of which nothing is known yet.
    pub fn new(username: String, password: String) -> (guard: Self)
        ensures
            guard.state() == SessionState::Unknown(None),
            guard.username() == username@,
            guard.password() == password@,
    {
        SessionGuard { username, password, state: SessionState::Unknown(None) }
    }

    /// The state of the session as the guard knows it.
    pub fn session_state(&self) -> (state: &SessionState)
        ensures
            *state == self.state(),
    {
        &self.state
    }

    /// Whether the last word on the session is that it is live.
    pub fn is_active(&self) -> (active: bool)
        ensures
            active == (self.state() is Active),
    {
        match &self.state {
            SessionState::Active => true,
            _ => false,
        }
    }

    /// The failed login that ended the session, if one did.
    pub fn failure(&self) -> (failure: Option<AuthError>)
        ensures
            match failure {
                Some(error) => self.state() == SessionState::Failed(error),
                None => !(self.state() is Failed),
            },
    {
        match &self.state {
            SessionState::Failed(error) => Some(error.clone()),
            _ => None,
        }
    }

    /// Calls for a login that no status reply asked for: the first one of a
    /// session. After a failed login it returns that failure instead.
    pub fn login(&mut self) -> (decision: Result<GuardAction, AuthError>)
        ensures
            final(self).username() == old(self).username(),
            final(self).password() == old(self).password(),
            match decision {
                Err(failure) => {
                    &&& old(self).state() == SessionState::Failed(failure)
                    &&& final(self).state() == old(self).state()
                },
                Ok(action) => {
                    &&& !(old(self).state() is Failed)
                    &&& final(self).state() is Authenticating
                    &&& action matches GuardAction::Reauthenticate { username, password }
                    &&& username@ == old(self).username()
                    &&& password@ == old(self).password()
                },
            },
    {
        if let SessionState::Failed(failure) = &self.state {
            return Err(failure.clone());
        }
        self.state = SessionState::Authenticating;
        Ok(
            GuardAction::Reauthenticate {
                username: self.username.clone(),
                password: self.password.clone(),
            },
        )
    }

    /// Takes in the reply to a status query and says what to do before the
    /// next request. An expired session and a failed query both call for a
    /// login; a live session, and a reply without a status, let the request
    /// proceed. After a failed login every call returns that failure.
    pub fn ensure_active(&mut self, reply: StatusReply) -> (decision: Result<
        GuardAction,
        AuthError,
    >)
        ensures
            final(self).state() == after_status(old(self).state(), reply),
            final(self).username() == old(self).username(),
            final(self).password() == old(self).password(),
            match decision {
                Err(failure) => old(self).state() == SessionState::Failed(failure),
                Ok(GuardAction::Proceed) => !(old(self).state() is Failed) && !needs_login(
                    reported(reply),
                ),
                Ok(GuardAction::Reauthenticate { username, password }) => {
                    &&& !(old(self).state() is Failed)
                    &&& needs_login(reported(reply))
                    &&& username@ == old(self).username()
                    &&& password@ == old(self).password()
                },
            },
    {
        if let SessionState::Failed(failure) = &self.state {
            return Err(failure.clone());
        }
        let login = match reply {
            Err(failure) => true,
            Ok(response) => match response.data {
                Some(status) => {
                    if status.active {
                        self.state = SessionState::Active;
                        false
                    } else {
                        true
                    }
                },
                None => {
                    self.state = SessionState::Unknown(None);
                    false
                },
            },
        };
        if login {
            self.state = SessionState::Authenticating;
            Ok(
                GuardAction::Reauthenticate {
                    username: self.username.clone(),
                    password: self.password.clone(),
                },
            )
        } else {
            Ok(GuardAction::Proceed)
        }
    }

    /// Takes in the outcome of a login. A login that went through makes the
    /// session live; one that failed is final, and is returned as the error
    /// now and by every later call.
    pub fn reauthenticated(&mut self, outcome: Result<(), TransportError>) -> (result: Result<
        (),
        AuthError,
    >)
        ensures
            final(self).state() == after_login(old(self).state(), outcome),
            final(self).username() == old(self).username(),
            final(self).password() == old(self).password(),
            match result {
                Ok(_) => final(self).state() is Active,
                Err(failure) => final(self).state() == SessionState::Failed(failure),
            },
    {
        if let SessionState::Failed(failure) = &self.state {
            return Err(failure.clone());
        }
        match outcome {
            Ok(_) => {
                self.state = SessionState::Active;
                Ok(())
            },
            Err(cause) => {
                let failure = AuthError { cause };
                self.state = SessionState::Failed(failure.clone());
                Err(failure)
            },
        }
    }
}

/// A session reported as expired leads to exactly one login call, and a
/// login that goes through makes the session live: no second login is
/// called for until a later status reply says so.
pub proof fn expired_session_is_renewed(before: SessionState, reply: StatusReply)
    requires
        !(before is Failed),
        reply matches Ok(response) && response.data matches Some(status) && !status.active,
    ensures
        after_status(before, reply) is Authenticating,
        after_login(after_status(before, reply), Ok::<(), TransportError>(())) is Active,
{
}

/// Nothing leads out of a failed login: whatever reply or outcome comes
/// later, the state stays as it is.
pub proof fn failed_login_is_final(
    before: SessionState,
    reply: StatusReply,
    outcome: Result<(), TransportError>,
)
    requires
        before is Failed,
    ensures
        after_status(before, reply) == before,
        after_login(before, outcome) == before,
{
}

} // verus!
