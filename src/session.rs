//! The session: credentials, the authorization state machine, and the
//! resolved brokerage account.
//!
//! Each operation takes the server's reply, already reduced to plain values by
//! the caller, and decides the next state.

use vstd::prelude::*;
use vstd::string::*;
use crate::error::WebullError;
use crate::utils::{account_type_of, get_account_type};

verus! {

/// Live or paper trading.
#[derive(Debug, Clone, Copy, PartialEq, Eq, Structural)]
pub enum AccountMode {
    Live,
    Paper,
}

/// The brokerage account that orders go to.
#[derive(Debug, Clone)]
pub struct Account {
    pub id: String,
    pub mode: AccountMode,
}

/// How far the session is authorized.
#[derive(Debug, Clone, Copy, PartialEq, Eq, Structural)]
pub enum AuthStage {
    Unauthenticated,
    Authenticated,
    TradeElevated,
}

/// The tokens of a login or refresh reply.
#[derive(Debug, Clone)]
pub struct TokenReply {
    pub access_token: Option<String>,
    pub refresh_token: Option<String>,
    pub token_expiry: Option<i64>,
}

/// What a caller of `refresh` does next.
#[derive(Debug, Clone)]
pub enum RefreshStart {
    /// Send the refresh request with this refresh token.
    Issue(String),
    /// Another refresh is under way: wait for its outcome.
    AwaitInFlight,
}

/// The credentials and state of one session.
#[derive(Debug, Clone)]
pub struct Session {
    pub device_id: String,
    pub access_token: Option<String>,
    pub refresh_token: Option<String>,
    pub trade_token: Option<String>,
    pub token_expiry: Option<i64>,
    pub account: Option<Account>,
    /// Whether a refresh request is under way.
    pub refresh_in_flight: bool,
}

/// The first candidate identifier that is present and not empty.
pub open spec fn first_usable(c: Seq<Option<String>>) -> Option<String>
    decreases c.len(),
{
    if c.len() == 0 {
        None
    } else if c[0] is Some && c[0]->0@.len() > 0 {
        c[0]
    } else {
        first_usable(c.drop_first())
    }
}

impl Session {
    /// A trade token or an account only exist beside an access token.
    pub open spec fn wf(&self) -> bool {
        &&& self.trade_token is Some ==> self.access_token is Some
        &&& self.account is Some ==> self.access_token is Some
    }

    pub open spec fn stage(&self) -> AuthStage {
        if self.access_token is None {
            AuthStage::Unauthenticated
        } else if self.trade_token is None {
            AuthStage::Authenticated
        } else {
            AuthStage::TradeElevated
        }
    }

    /// The state after a trade-token reply.
    pub open spec fn after_elevation(old: Session, token: Option<String>, new: Session, r: Result<String, WebullError>) -> bool {
        if old.access_token is None {
            new == old && (r matches Err(e) && e is SessionExpired)
        } else if token is None {
            new == old && (r matches Err(e) && e is AuthenticationError)
        } else {
            new == (Session { trade_token: token, ..old }) && r == Ok::<String, WebullError>(token->0)
        }
    }

    /// A session with no credentials yet.
    pub fn new(device_id: String) -> (r: Self)
        ensures
            r.wf(),
            r.device_id == device_id,
            r.access_token is None && r.refresh_token is None && r.trade_token is None,
            r.token_expiry is None && r.account is None && !r.refresh_in_flight,
            r.stage() == AuthStage::Unauthenticated,
    {
        Session {
            device_id,
            access_token: None,
            refresh_token: None,
            trade_token: None,
            token_expiry: None,
            account: None,
            refresh_in_flight: false,
        }
    }

    /// The account type code to log in with, after checking that username and
    /// password are given.
    pub fn check_credentials(username: &str, password: &str) -> (r: Result<i32, WebullError>)
        ensures
            (username@.len() == 0 || password@.len() == 0) ==> (r matches Err(e) && e is InvalidParameter),
            (username@.len() > 0 && password@.len() > 0) ==> match account_type_of(username@) {
                Some(t) => r == Ok::<i32, WebullError>(t),
                None => (r matches Err(e) && e is InvalidParameter),
            },
    {
        if username.unicode_len() == 0 || password.unicode_len() == 0 {
            return Err(WebullError::InvalidParameter(String::from_str("username and password are required")));
        }
        get_account_type(username)
    }

    /// The security-question answer field of a login request:
    /// `[{"questionId":"<id>", "answer":"<answer>"}]`.
    pub fn access_questions(question_id: &str, answer: &str) -> (r: String)
        ensures
            r@ == "[{\"questionId\":\""@ + question_id@ + "\", \"answer\":\""@ + answer@ + "\"}]"@,
    {
        let mut s = String::from_str("[{\"questionId\":\"");
        s.append(question_id);
        s.append("\", \"answer\":\"");
        s.append(answer);
        s.append("\"}]");
        s
    }

    /// Applies a login reply. Without an access token the login failed and the
    /// session is unchanged; otherwise the new tokens replace the old ones and
    /// the trade token and the account must be obtained again.
    pub fn apply_login(&mut self, reply: TokenReply) -> (r: Result<(), WebullError>)
        requires
            old(self).wf(),
        ensures
            final(self).wf(),
            reply.access_token is None ==> *final(self) == *old(self) && (r matches Err(e) && e is AuthenticationError),
            reply.access_token is Some ==> r is Ok && *final(self) == (Session {
                access_token: reply.access_token,
                refresh_token: reply.refresh_token,
                token_expiry: reply.token_expiry,
                trade_token: None,
                account: None,
                ..*old(self)
            }),
    {
        if reply.access_token.is_none() {
            return Err(WebullError::AuthenticationError(String::from_str("Login failed")));
        }
        self.access_token = reply.access_token;
        self.refresh_token = reply.refresh_token;
        self.token_expiry = reply.token_expiry;
        self.trade_token = None;
        self.account = None;
        Ok(())
    }

    /// Starts a refresh: at most one is under way at a time.
    pub fn begin_refresh(&mut self) -> (r: Result<RefreshStart, WebullError>)
        requires
            old(self).wf(),
        ensures
            final(self).wf(),
            old(self).refresh_token is None ==> *final(self) == *old(self) && (r matches Err(e) && e is SessionExpired),
            old(self).refresh_token is Some && old(self).refresh_in_flight ==> *final(self) == *old(self)
                && (r matches Ok(RefreshStart::AwaitInFlight)),
            old(self).refresh_token is Some && !old(self).refresh_in_flight ==> *final(self) == (Session {
                refresh_in_flight: true,
                ..*old(self)
            }) && (r matches Ok(RefreshStart::Issue(t)) && Some(t) == old(self).refresh_token),
    {
        match &self.refresh_token {
            None => Err(WebullError::SessionExpired),
            Some(t) => {
                if self.refresh_in_flight {
                    Ok(RefreshStart::AwaitInFlight)
                } else {
                    let t = t.clone();
                    self.refresh_in_flight = true;
                    Ok(RefreshStart::Issue(t))
                }
            },
        }
    }

    /// Applies the reply to the refresh under way. Without an access token the
    /// refresh was rejected and only the in-flight mark is cleared.
    pub fn finish_refresh(&mut self, reply: TokenReply) -> (r: Result<(), WebullError>)
        requires
            old(self).wf(),
        ensures
            final(self).wf(),
            reply.access_token is None ==> *final(self) == (Session { refresh_in_flight: false, ..*old(self) })
                && (r matches Err(e) && e is SessionExpired),
            reply.access_token is Some ==> r is Ok && *final(self) == (Session {
                access_token: reply.access_token,
                refresh_token: reply.refresh_token,
                token_expiry: reply.token_expiry,
                refresh_in_flight: false,
                ..*old(self)
            }),
    {
        self.refresh_in_flight = false;
        if reply.access_token.is_none() {
            return Err(WebullError::SessionExpired);
        }
        self.access_token = reply.access_token;
        self.refresh_token = reply.refresh_token;
        self.token_expiry = reply.token_expiry;
        Ok(())
    }

    /// Applies a trade-token reply. A missing token leaves the session as it
    /// was: still authenticated, with its account.
    pub fn apply_trade_token(&mut self, token: Option<String>) -> (r: Result<String, WebullError>)
        requires
            old(self).wf(),
        ensures
            final(self).wf(),
            Self::after_elevation(*old(self), token, *final(self), r),
    {
        if self.access_token.is_none() {
            return Err(WebullError::SessionExpired);
        }
        match token {
            None => Err(WebullError::AuthenticationError(String::from_str("Failed to get trade token"))),
            Some(t) => {
                let c = t.clone();
                self.trade_token = Some(t);
                Ok(c)
            },
        }
    }

    /// Ends the session: every credential is cleared whatever the server said;
    /// success is reported only if the server acknowledged.
    pub fn apply_logout(&mut self, acknowledged: bool) -> (r: bool)
        ensures
            final(self).wf(),
            r == acknowledged,
            final(self).stage() == AuthStage::Unauthenticated,
            *final(self) == (Session {
                access_token: None,
                refresh_token: None,
                trade_token: None,
                token_expiry: None,
                account: None,
                refresh_in_flight: false,
                ..*old(self)
            }),
    {
        self.access_token = None;
        self.refresh_token = None;
        self.trade_token = None;
        self.token_expiry = None;
        self.account = None;
        self.refresh_in_flight = false;
        acknowledged
    }

    /// The access token has expired: back to unauthenticated.
    pub fn expire(&mut self)
        ensures
            final(self).wf(),
            final(self).stage() == AuthStage::Unauthenticated,
            *final(self) == (Session {
                access_token: None,
                trade_token: None,
                account: None,
                ..*old(self)
            }),
    {
        self.access_token = None;
        self.trade_token = None;
        self.account = None;
    }

    /// The account, resolved once per login: the cached one if there is one,
    /// else the first usable candidate identifier of the account listing.
    pub fn resolve_account(&mut self, mode: AccountMode, candidates: &Vec<Option<String>>) -> (r: Result<String, WebullError>)
        requires
            old(self).wf(),
        ensures
            final(self).wf(),
            old(self).access_token is None ==> *final(self) == *old(self) && (r matches Err(e) && e is SessionExpired),
            old(self).access_token is Some && old(self).account is Some ==> *final(self) == *old(self)
                && r == Ok::<String, WebullError>(old(self).account->0.id),
            old(self).access_token is Some && old(self).account is None ==> match first_usable(candidates@) {
                Some(id) => r == Ok::<String, WebullError>(id) && *final(self) == (Session {
                    account: Some(Account { id, mode }),
                    ..*old(self)
                }),
                None => *final(self) == *old(self) && (r matches Err(e) && e is AccountNotFound),
            },
    {
        if self.access_token.is_none() {
            return Err(WebullError::SessionExpired);
        }
        match &self.account {
            Some(a) => {
                return Ok(a.id.clone());
            },
            None => {},
        }
        let mut i: usize = 0;
        assert(candidates@.subrange(0, candidates@.len() as int) =~= candidates@);
        while i < candidates.len()
            invariant
                i <= candidates@.len(),
                *self == *old(self),
                self.access_token is Some,
                self.account is None,
                first_usable(candidates@) == first_usable(candidates@.subrange(i as int, candidates@.len() as int)),
            decreases candidates@.len() - i,
        {
            let ghost rest = candidates@.subrange(i as int, candidates@.len() as int);
            assert(rest.drop_first() =~= candidates@.subrange(i + 1, candidates@.len() as int));
            match &candidates[i] {
                Some(id) => {
                    if id.unicode_len() > 0 {
                        let c = id.clone();
                        self.account = Some(Account { id: id.clone(), mode });
                        return Ok(c);
                    }
                },
                None => {},
            }
            i = i + 1;
        }
        assert(candidates@.subrange(i as int, candidates@.len() as int).len() == 0);
        Err(WebullError::AccountNotFound)
    }

    /// Whether read operations may proceed: they need an access token.
    pub fn authorize_read(&self) -> (r: Result<(), WebullError>)
        ensures
            r is Ok == (self.access_token is Some),
            (r matches Err(e) ==> e is SessionExpired),
    {
        if self.access_token.is_some() {
            Ok(())
        } else {
            Err(WebullError::SessionExpired)
        }
    }

    /// The account that a mutating order operation goes to: it needs the trade
    /// token, then a resolved account.
    pub fn authorize_trade(&self) -> (r: Result<Account, WebullError>)
        ensures
            self.trade_token is None ==> (r matches Err(e) && e is TradeTokenNotAvailable),
            self.trade_token is Some && self.account is None ==> (r matches Err(e) && e is AccountNotFound),
            self.trade_token is Some && self.account is Some ==> (r matches Ok(a) && a.id == self.account->0.id
                && a.mode == self.account->0.mode),
    {
        if self.trade_token.is_none() {
            return Err(WebullError::TradeTokenNotAvailable);
        }
        match &self.account {
            None => Err(WebullError::AccountNotFound),
            Some(a) => Ok(Account { id: a.id.clone(), mode: a.mode }),
        }
    }
}

/// A failed trade-token request leaves the access token and an already
/// resolved account as they were.
pub proof fn lemma_failed_elevation_keeps_session(s0: Session, s1: Session, r: Result<String, WebullError>)
    requires
        Session::after_elevation(s0, None, s1, r),
    ensures
        r is Err,
        s1.access_token == s0.access_token,
        s1.account == s0.account,
        s1.stage() == s0.stage(),
{
}

} // verus!
