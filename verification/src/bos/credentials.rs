//! Access credentials of the object store.

use crate::alike::Alike;
use vstd::prelude::*;

verus! {

/// What can go wrong before a request is sent.
#[derive(Debug)]
pub enum BosError {
    /// The address of the object is no URL.
    From(url::ParseError),
}

/// The parts of a set of credentials.
pub struct CredentialsView {
    pub access: Seq<char>,
    pub secret: Seq<char>,
    pub token: Option<Seq<char>>,
}

/// A set of credentials, as a request is signed with it.
#[derive(Debug)]
pub struct BosCredentials {
    access: String,
    secret: String,
    security_token: Option<String>,
}

impl View for BosCredentials {
    type V = CredentialsView;

    closed spec fn view(&self) -> CredentialsView {
        CredentialsView {
            access: self.access@,
            secret: self.secret@,
            token: self.security_token.model(),
        }
    }
}

impl Clone for BosCredentials {
    fn clone(&self) -> (copy: Self)
        ensures
            copy@ == self@,
    {
        BosCredentials {
            access: self.access.clone(),
            secret: self.secret.clone(),
            security_token: self.security_token.duplicate(),
        }
    }
}

impl BosCredentials {
    /// The access key.
    pub fn access(&self) -> (access: &str)
        ensures
            access@ == self@.access,
    {
        self.access.as_str()
    }

    /// The secret key.
    pub fn secret(&self) -> (secret: &str)
        ensures
            secret@ == self@.secret,
    {
        self.secret.as_str()
    }

    /// The session token.
    pub fn security_token(&self) -> (token: &Option<String>)
        ensures
            token.model() == self@.token,
    {
        &self.security_token
    }
}

/// Hands out the credentials that it was made with.
pub struct BosIamProvider {
    access: String,
    secret: String,
    token: Option<String>,
}

impl View for BosIamProvider {
    type V = CredentialsView;

    closed spec fn view(&self) -> CredentialsView {
        CredentialsView {
            access: self.access@,
            secret: self.secret@,
            token: self.token.model(),
        }
    }
}

impl BosIamProvider {
    /// A provider of the given credentials.
    pub fn new(access: &str, secret: &str, token: Option<&str>) -> (provider: Self)
        ensures
            provider@ == (CredentialsView {
                access: access@,
                secret: secret@,
                token: match token {
                    Some(token) => Some(token@),
                    None => None,
                },
            }),
    {
        BosIamProvider {
            access: access.to_owned(),
            secret: secret.to_owned(),
            token: match token {
                Some(token) => Some(token.to_owned()),
                None => None,
            },
        }
    }

    /// The credentials. There is always a set to hand out.
    pub fn credentials(&self) -> (credentials: Result<BosCredentials, BosError>)
        ensures
            credentials is Ok,
            credentials->Ok_0@ == self@,
    {
        Ok(
            BosCredentials {
                access: self.access.clone(),
                secret: self.secret.clone(),
                security_token: self.token.duplicate(),
            },
        )
    }
}

} // verus!
