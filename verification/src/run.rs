//! One run against the portal, as a machine: login page, login, class
//! list, logout. The machine decides; whoever holds the connection sends
//! each request that it hands out and gives it the answer.
//!
//! Once the login page has given a session, no run ends without asking
//! the portal to end that session: a run that fails after that point
//! keeps its failure, sends the logout, and reports the failure then.

use vstd::prelude::*;
use crate::error::{AspenError, ProjError};
use crate::session::{
    classes_request_for, get_login_page, login_page_request, login_request_for,
    logout_request_for, tokens_in, AspenSession, Credentials, Request, SessionState,
    INVALID_LOGIN_MARKER,
};
use crate::text::occurs_in;

verus! {

/// The answer that a run is waiting for.
#[derive(Clone, Copy, Debug, PartialEq, Eq, Structural)]
pub enum Stage {
    /// The login page, asked for anonymously.
    LoginPage,
    /// The portal's answer to the login.
    Login,
    /// The class list.
    Classes,
    /// The portal's answer to the logout.
    Logout,
}

/// A run that has a request under way.
#[derive(Debug)]
pub struct Run {
    stage: Stage,
    credentials: Credentials,
    session: Option<AspenSession>,
    page: String,
    failure: Option<ProjError>,
}

/// What a run does next.
#[derive(Debug)]
pub enum Step {
    /// Send the request; hand its answer to the run.
    Send(Run, Request),
    /// The run is over: the class-list page as it came, or the failure.
    Done(Result<String, ProjError>),
}

/// A failure, as the result of a run.
pub open spec fn failed(e: ProjError) -> Step {
    Step::Done(Err::<String, ProjError>(e))
}

impl Run {
    #[verifier::type_invariant]
    spec fn consistent(self) -> bool {
        &&& self.credentials.username is Some
        &&& self.credentials.password is Some
        &&& match self.stage {
            Stage::LoginPage => true,
            Stage::Login => self.session matches Some(s) && s.phase() == SessionState::Anonymous,
            Stage::Classes => self.session matches Some(s) && s.phase()
                == SessionState::Authenticated,
            Stage::Logout => true,
        }
    }

    /// The answer that the run is waiting for.
    pub closed spec fn stage(&self) -> Stage {
        self.stage
    }

    /// The user name that the run logs in with.
    pub closed spec fn username(&self) -> Seq<char> {
        match self.credentials.username {
            Some(u) => u@,
            None => Seq::empty(),
        }
    }

    /// The password that the run logs in with.
    pub closed spec fn password(&self) -> Seq<char> {
        match self.credentials.password {
            Some(p) => p@,
            None => Seq::empty(),
        }
    }

    /// The session identifier, once the login page has given it.
    pub closed spec fn session_id(&self) -> Seq<char> {
        match self.session {
            Some(s) => s.id(),
            None => Seq::empty(),
        }
    }

    /// The anti-forgery token, once the login page has given it.
    pub closed spec fn token(&self) -> Seq<char> {
        match self.session {
            Some(s) => s.token(),
            None => Seq::empty(),
        }
    }

    /// The class-list page, once it has come.
    pub closed spec fn page(&self) -> Seq<char> {
        self.page@
    }

    /// The failure that the run will end with once the session is
    /// released, if it has failed.
    pub closed spec fn failure(&self) -> Option<ProjError> {
        self.failure
    }

    /// The answer that the run is waiting for.
    pub fn waiting_for(&self) -> (s: Stage)
        ensures
            s == self.stage(),
    {
        self.stage
    }

    /// What a run does once its session has to be released: it waits for
    /// the answer to the logout of session `session_id`, and keeps
    /// `failure` to end with.
    pub open spec fn releases(
        r: Step,
        session_id: Seq<char>,
        failure: Option<ProjError>,
    ) -> bool {
        r matches Step::Send(next, request) && next.stage() == Stage::Logout && next.failure()
            == failure && request@ == logout_request_for(session_id)
    }

    /// What `step` does with an answer, stage by stage.
    ///
    /// While the login page is awaited there is no session yet: a request
    /// that did not complete, or a page without both tokens, ends the run
    /// at once. From then on every way out leads through the logout: a
    /// login that did not complete or that the portal turned down, and a
    /// class list that did not come, each keep their failure and release
    /// the session first. The class list that did come is kept, as it
    /// came, in the same way. The answer to the logout ends the run: with
    /// the failure that was kept, whatever the answer; else with the
    /// failure of the logout itself; else with the class-list page.
    pub open spec fn follows(self, answer: Result<String, reqwest::Error>, r: Step) -> bool {
        match self.stage() {
            Stage::LoginPage => match answer {
                Err(e) => r == failed(ProjError::NetworkError(e)),
                Ok(body) => match tokens_in(body@) {
                    Some((s, t)) => r matches Step::Send(next, request) && next.stage()
                        == Stage::Login && next.session_id() == s && next.token() == t
                        && next.username() == self.username() && next.password()
                        == self.password() && next.failure() is None && request@
                        == login_request_for(s, t, self.username(), self.password()),
                    None => r == failed(ProjError::Aspen(AspenError::SessionNotFound)),
                },
            },
            Stage::Login => match answer {
                Err(e) => Self::releases(
                    r,
                    self.session_id(),
                    Some(ProjError::NetworkError(e)),
                ),
                Ok(body) => if occurs_in(body@, INVALID_LOGIN_MARKER@) {
                    Self::releases(
                        r,
                        self.session_id(),
                        Some(ProjError::Aspen(AspenError::InvalidLogin)),
                    )
                } else {
                    r matches Step::Send(next, request) && next.stage() == Stage::Classes
                        && next.session_id() == self.session_id() && next.failure() is None
                        && request@ == classes_request_for(self.session_id())
                },
            },
            Stage::Classes => match answer {
                Err(e) => Self::releases(
                    r,
                    self.session_id(),
                    Some(ProjError::NetworkError(e)),
                ),
                Ok(body) => r matches Step::Send(next, request) && next.page() == body@
                    && Self::releases(r, self.session_id(), None),
            },
            Stage::Logout => match (self.failure(), answer) {
                (Some(e), _) => r == failed(e),
                (None, Err(e)) => r == failed(ProjError::NetworkError(e)),
                (None, Ok(_)) => r matches Step::Done(Ok(page)) && page@ == self.page(),
            },
        }
    }

    /// Takes the answer to the request under way and decides what comes
    /// next.
    pub fn step(self, answer: Result<String, reqwest::Error>) -> (r: Step)
        ensures
            self.follows(answer, r),
    {
        proof {
            use_type_invariant(&self);
        }
        let Run { stage, credentials, session, page, failure } = self;
        match stage {
            Stage::LoginPage => {
                let body = match answer {
                    Ok(body) => body,
                    Err(e) => {
                        return Step::Done(Err(ProjError::NetworkError(e)));
                    },
                };
                match AspenSession::new(body.as_str()) {
                    Ok(session) => {
                        let request = match session.login_request(&credentials) {
                            Ok(request) => request,
                            Err(e) => {
                                return Step::Done(Err(e));
                            },
                        };
                        Step::Send(
                            Run {
                                stage: Stage::Login,
                                credentials,
                                                                                        session: Some(session),
                                page,
                                failure: None,
                            },
                            request,
                        )
                    },
                    Err(e) => Step::Done(Err(e)),
                }
            },
            Stage::Login => {
                let mut session = session.unwrap();
                let outcome = match answer {
                    Ok(body) => session.login(body.as_str()),
                    Err(e) => Err(ProjError::NetworkError(e)),
                };
                match outcome {
                    Ok(()) => {
                        let request = session.get_aspen();
                        Step::Send(
                            Run {
                                stage: Stage::Classes,
                                credentials,
                                                                                        session: Some(session),
                                page,
                                failure: None,
                            },
                            request,
                        )
                    },
                    Err(e) => {
                        let request = session.logout();
                        Step::Send(
                            Run {
                                stage: Stage::Logout,
                                credentials,
                                                                                        session: None,
                                page,
                                failure: Some(e),
                            },
                            request,
                        )
                    },
                }
            },
            Stage::Classes => {
                let request = session.unwrap().logout();
                match answer {
                    Ok(body) => Step::Send(
                        Run {
                            stage: Stage::Logout,
                            credentials,
                                                                            session: None,
                            page: body,
                            failure: None,
                        },
                        request,
                    ),
                    Err(e) => Step::Send(
                        Run {
                            stage: Stage::Logout,
                            credentials,
                                                                            session: None,
                            page,
                            failure: Some(ProjError::NetworkError(e)),
                        },
                        request,
                    ),
                }
            },
            Stage::Logout => match failure {
                Some(e) => Step::Done(Err(e)),
                None => match answer {
                    Ok(_) => Step::Done(Ok(page)),
                    Err(e) => Step::Done(Err(ProjError::NetworkError(e))),
                },
            },
        }
    }
}

/// How a run begins. Without both credentials it is over before any
/// request is made; with them, the first request is the anonymous one for
/// the login page.
pub open spec fn begins(credentials: Credentials, r: Step) -> bool {
    match (credentials.username, credentials.password) {
        (Some(u), Some(p)) => r matches Step::Send(run, request) && run.stage()
            == Stage::LoginPage && run.username() == u@ && run.password() == p@
            && run.failure() is None && request@ == login_page_request(),
        _ => r == failed(ProjError::Aspen(AspenError::MissingCredential)),
    }
}

/// Begins the run that brings the class-list page: login page, login,
/// class list, logout.
pub fn get_aspen(credentials: Credentials) -> (r: Step)
    ensures
        begins(credentials, r),
{
    if credentials.username.is_some() && credentials.password.is_some() {
        Step::Send(
            Run {
                stage: Stage::LoginPage,
                credentials,
                session: None,
                page: String::new(),
                failure: None,
            },
            get_login_page(),
        )
    } else {
        Step::Done(Err(ProjError::Aspen(AspenError::MissingCredential)))
    }
}

/// Begins the run whose page holds the classes. It is the run of
/// `get_aspen`; what comes out of it goes to `extract_classes`.
pub fn get_classes(credentials: Credentials) -> (r: Step)
    ensures
        begins(credentials, r),
{
    get_aspen(credentials)
}

} // verus!
