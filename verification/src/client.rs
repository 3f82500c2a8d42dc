//! The credential manager and the request-side of the dispatcher.
//!
//! A client holds at most one token at a time, plus the credential it was
//! constructed with, if any. The discipline is snapshot-read, atomic-replace:
//! a dispatch reads the token through `&self` and can never observe it
//! half-updated, and a refresh either installs the new token wholly or
//! leaves the old state untouched. The network exchange itself happens
//! outside the verified core; this module makes every decision around it:
//! what the exchange request says, whether a response body is a fresh token
//! or a sentinel failure, and what envelope a command dispatch sends.

use vstd::prelude::*;
use crate::envelope::build_token_request;
use crate::envelope::spec_envelope;
use crate::envelope::spec_token_request;
use crate::error::Error;
use crate::model::Request;
use crate::text::error_prefix;
use crate::text::starts_with;
use crate::text::starts_with_error;

verus! {

/// The secret pair of a credential-based client; it exists only inside the
/// client and is sent nowhere but in a token-exchange request.
pub struct Credential {
    pub mob: String,
    pub pwd: String,
}

/// Typed client state for the remote service.
pub struct JqdataClient {
    credential: Option<Credential>,
    token: String,
}

impl JqdataClient {
    /// The current token snapshot.
    pub closed spec fn spec_token(&self) -> Seq<char> {
        self.token@
    }

    /// Whether a credential is stored, which is what makes refresh possible.
    pub closed spec fn has_credential(&self) -> bool {
        self.credential is Some
    }

    /// The stored credential as plain values.
    pub closed spec fn credential_view(&self) -> Option<(Seq<char>, Seq<char>)> {
        match self.credential {
            Some(c) => Some((c.mob@, c.pwd@)),
            None => None,
        }
    }

    /// Build a client around a token obtained out of band. No credential is
    /// stored, so a later refresh is impossible by construction.
    pub fn with_token(token: &str) -> (r: Result<Self, Error>)
        ensures
            r matches Ok(c) && c.spec_token() == token@ && !c.has_credential(),
    {
        Ok(JqdataClient { credential: None, token: token.to_owned() })
    }

    /// Build a client from a credential and the body the token exchange
    /// answered with. A sentinel body fails construction outright: a client
    /// never exists holding a known-bad token.
    pub fn with_credential_response(mob: &str, pwd: &str, body: String) -> (r: Result<Self, Error>)
        ensures
            starts_with(body@, error_prefix()) ==> (r matches Err(e) && e matches Error::Server(m)
                && m@ == body@),
            !starts_with(body@, error_prefix()) ==> (r matches Ok(c) && c.spec_token() == body@
                && c.credential_view() == Some((mob@, pwd@))),
    {
        if starts_with_error(body.as_str()) {
            return Err(Error::Server(body));
        }
        Ok(
            JqdataClient {
                credential: Some(Credential { mob: mob.to_owned(), pwd: pwd.to_owned() }),
                token: body,
            },
        )
    }

    /// The token snapshot a dispatch sends: stable for the whole request.
    pub fn current_token(&self) -> (t: String)
        ensures
            t@ == self.spec_token(),
    {
        self.token.clone()
    }

    /// The body of the refresh exchange this client would send: the method
    /// is `get_current_token` when `reuse` is set, `get_token` otherwise.
    /// Without a stored credential, refresh is unavailable.
    pub fn refresh_request(&self, reuse: bool) -> (r: Result<String, Error>)
        ensures
            !self.has_credential() ==> (r matches Err(e) && e is NoCredential),
            self.has_credential() ==> (r matches Ok(s) && s@ == spec_token_request(
                if reuse {
                    "get_current_token"@
                } else {
                    "get_token"@
                },
                self.credential_view().unwrap().0,
                self.credential_view().unwrap().1,
            )),
    {
        match &self.credential {
            None => Err(Error::NoCredential),
            Some(c) => {
                let method: &str = if reuse {
                    "get_current_token"
                } else {
                    "get_token"
                };
                Ok(build_token_request(method, c.mob.as_str(), c.pwd.as_str()))
            },
        }
    }

    /// Install the outcome of a refresh exchange. A sentinel body changes
    /// nothing and surfaces the failure; otherwise the body is the new token
    /// and replaces the old one wholesale.
    pub fn install_token(&mut self, body: String) -> (r: Result<(), Error>)
        ensures
            starts_with(body@, error_prefix()) ==> (r matches Err(e) && e matches Error::Server(m)
                && m@ == body@ && *final(self) == *old(self)),
            !starts_with(body@, error_prefix()) ==> (r is Ok && final(self).spec_token() == body@
                && final(self).credential_view() == old(self).credential_view()),
    {
        if starts_with_error(body.as_str()) {
            return Err(Error::Server(body));
        }
        self.token = body;
        Ok(())
    }

    /// The envelope one dispatch of `command` sends, under the current token
    /// snapshot. Reading the snapshot never mutates the client, so any
    /// number of dispatches may share one state and each is a function of
    /// its own command and that snapshot alone.
    pub fn prepare<C: Request>(&self, command: &C) -> (r: Result<String, Error>)
        ensures
            r matches Ok(s) && s@ == spec_envelope(
                command.spec_method(),
                self.spec_token(),
                command.spec_payload(),
            ),
    {
        let token = self.current_token();
        command.request(token.as_str())
    }
}

} // verus!
