//! Signing in: finding the user that a request names, and finding out whether
//! it comes from them.

use crate::actions::{found_user, get_user_from_username, get_user_from_username_result};
use crate::auth::{authenticate_user, Authentication, AuthenticationStep};
use crate::fresh::Fresh;
use crate::models::User;
use crate::responses::{outcome_of, refused, server_error, Refusal, BAD_REQUEST};
use crate::statements::{Progress, Reply, ReplyModel, Statement};
use crate::text::{followed_by, Text};
use vstd::prelude::*;

verus! {

/// The user that a request names: a name that no user has is refused.
pub open spec fn known_user(reply: ReplyModel, username: Text) -> Result<
    User<Text>,
    Refusal<Text>,
> {
    match found_user(reply) {
        Ok(Some(user)) => Ok(user),
        Ok(None) => Err(refused(BAD_REQUEST, "User "@ + username + " does not exist"@)),
        Err(_) => Err(server_error()),
    }
}

/// Reads the user that a request names.
pub fn get_user_for_username(reply: Reply, username: &str) -> (r: Result<User, Refusal>)
    ensures
        outcome_of(r) == known_user(reply.deep_view(), username@),
{
    match get_user_from_username_result(reply) {
        Ok(Some(user)) => Ok(user),
        Ok(None) => {
            let named = followed_by("User ", username);
            let body = followed_by(named.as_str(), " does not exist");
            Err(Refusal::new(BAD_REQUEST, body.as_str()))
        },
        Err(_) => Err(Refusal::server_error()),
    }
}

/// Signing in; ends with the id of the user.
#[derive(Debug, PartialEq)]
pub enum SignIn<S = String> {
    /// Waits for the user.
    Finding { username: S, signed_authenticator: S },
    /// Finds out whether the request comes from the user.
    Authenticating { user_id: S, authentication: Authentication<S> },
}

impl DeepView for SignIn {
    type V = SignIn<Text>;

    open spec fn deep_view(&self) -> SignIn<Text> {
        match *self {
            SignIn::Finding { username, signed_authenticator } => SignIn::Finding {
                username: username@,
                signed_authenticator: signed_authenticator@,
            },
            SignIn::Authenticating { user_id, authentication } => SignIn::Authenticating {
                user_id: user_id@,
                authentication: authentication.deep_view(),
            },
        }
    }
}

/// A step of signing in, in models.
pub type SignInStep = Progress<SignIn<Text>, Text, Refusal<Text>, Statement<Text>>;

impl SignIn<Text> {
    /// The first step.
    pub open spec fn first(username: Text, signed_authenticator: Text) -> SignInStep {
        Progress::Ask(
            Statement::UserByUsername { username },
            SignIn::Finding { username, signed_authenticator },
        )
    }

    /// The step that follows from a step of the authentication.
    pub open spec fn authenticated(user_id: Text, step: AuthenticationStep) -> SignInStep {
        match step {
            Progress::Ask(statement, authentication) => Progress::Ask(
                statement,
                SignIn::Authenticating { user_id, authentication },
            ),
            Progress::Done(()) => Progress::Done(user_id),
            Progress::Failed(refusal) => Progress::Failed(refusal),
        }
    }

    /// The step after `reply`.
    pub open spec fn next(self, reply: ReplyModel, fresh: Fresh<Text>) -> SignInStep {
        match self {
            SignIn::Finding { username, signed_authenticator } => match known_user(
                reply,
                username,
            ) {
                Ok(user) => Self::authenticated(
                    user.id,
                    Authentication::first(
                        user.approved,
                        user.signing_public_key,
                        signed_authenticator,
                    ),
                ),
                Err(refusal) => Progress::Failed(refusal),
            },
            SignIn::Authenticating { user_id, authentication } => Self::authenticated(
                user_id,
                authentication.next(reply, fresh),
            ),
        }
    }
}

/// Signs in the user with this name.
pub fn sign_in(username: &str, signed_authenticator: &str) -> (r: Progress<
    SignIn,
    String,
    Refusal,
>)
    ensures
        r.deep_view() == SignIn::first(username@, signed_authenticator@),
{
    Progress::Ask(
        get_user_from_username(username),
        SignIn::Finding {
            username: username.to_owned(),
            signed_authenticator: signed_authenticator.to_owned(),
        },
    )
}

fn after_authentication(
    user_id: String,
    step: Progress<Authentication, (), Refusal>,
) -> (r: Progress<SignIn, String, Refusal>)
    ensures
        r.deep_view() == SignIn::authenticated(user_id@, step.deep_view()),
{
    match step {
        Progress::Ask(statement, authentication) => Progress::Ask(
            statement,
            SignIn::Authenticating { user_id, authentication },
        ),
        Progress::Done(()) => Progress::Done(user_id),
        Progress::Failed(refusal) => Progress::Failed(refusal),
    }
}

impl SignIn {
    /// Goes on after `reply`.
    pub fn resume(self, reply: Reply, fresh: Fresh) -> (r: Progress<SignIn, String, Refusal>)
        ensures
            r.deep_view() == self.deep_view().next(reply.deep_view(), fresh.deep_view()),
    {
        match self {
            SignIn::Finding { username, signed_authenticator } => match get_user_for_username(
                reply,
                username.as_str(),
            ) {
                Ok(user) => {
                    let step = authenticate_user(&user, signed_authenticator.as_str());
                    after_authentication(user.id, step)
                },
                Err(refusal) => Progress::Failed(refusal),
            },
            SignIn::Authenticating { user_id, authentication } => after_authentication(
                user_id,
                authentication.resume(reply, fresh),
            ),
        }
    }
}

} // verus!
