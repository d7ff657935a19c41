//! The requests that are served from the database alone.

use crate::actions::{
    found_user, get_all_approved_users, get_transfer_records_and_file_metadata_for_recipient,
    get_user_from_username, get_user_from_username_result, insert_new_user, user_insertion,
    Insertion,
};
use crate::auth::{update_and_get_authenticators, AuthenticatorUpdate, UpdateStep};
use crate::fresh::Fresh;
use crate::models::{Authenticator, TransferRecordWithFileMetadata};
use crate::payloads::{
    InboxRequestPayload, ListUsersRequestPayload, LookupRequestPayload, RegisterRequestPayload,
};
use crate::responses::{outcome_of, server_error, Refusal, Response, BAD_REQUEST, CONFLICT, OK};
use crate::settings::Settings;
use crate::sign_in::{sign_in, SignIn, SignInStep};
use crate::statements::{Progress, Reply, ReplyModel, Statement, StoreError};
use crate::text::{join_lines, joined_lines, Text};
use vstd::prelude::*;
use vstd::string::*;
use vstd::utf8::*;

verus! {

/// The largest number of bytes of a username.
pub const USERNAME_MAX_LEN: usize = 15;

/// Serving a request to register.
#[derive(Debug, PartialEq)]
pub enum Register<S = String> {
    /// Waits to hear whether the name is taken.
    Checking { payload: RegisterRequestPayload<S>, settings: Settings<S> },
    /// Waits for the user to be inserted.
    Inserting(Insertion<S>),
}

impl DeepView for Register {
    type V = Register<Text>;

    open spec fn deep_view(&self) -> Register<Text> {
        match *self {
            Register::Checking { payload, settings } => Register::Checking {
                payload: payload.deep_view(),
                settings: settings.deep_view(),
            },
            Register::Inserting(insertion) => Register::Inserting(insertion.deep_view()),
        }
    }
}

/// A step of serving a request to register, in models.
pub type RegisterStep = Progress<
    Register<Text>,
    Response<Text>,
    Refusal<Text>,
    Statement<Text>,
>;

impl Register<Text> {
    /// The first step: the name must not be too long.
    pub open spec fn first(
        payload: RegisterRequestPayload<Text>,
        settings: Settings<Text>,
    ) -> RegisterStep {
        if encode_utf8(payload.username).len() > USERNAME_MAX_LEN {
            Progress::Done(
                Response {
                    status: BAD_REQUEST,
                    body: "Username field must not exceed 15 characters"@,
                },
            )
        } else {
            Progress::Ask(
                Statement::UserByUsername { username: payload.username },
                Register::Checking { payload, settings },
            )
        }
    }

    /// The step that follows from a step of inserting the user.
    pub open spec fn inserted(
        step: Progress<Insertion<Text>, Text, StoreError, Statement<Text>>,
    ) -> RegisterStep {
        match step {
            Progress::Ask(statement, insertion) => Progress::Ask(
                statement,
                Register::Inserting(insertion),
            ),
            Progress::Done(_) => Progress::Done(Response { status: OK, body: Seq::empty() }),
            Progress::Failed(_) => Progress::Failed(server_error()),
        }
    }

    /// The step after `reply`.
    pub open spec fn next(self, reply: ReplyModel, fresh: Fresh<Text>) -> RegisterStep {
        match self {
            Register::Checking { payload, settings } => match found_user(reply) {
                Ok(Some(_)) => Progress::Done(
                    Response { status: CONFLICT, body: "Username taken"@ },
                ),
                Ok(None) => if settings.admits_users() {
                    Self::inserted(
                        user_insertion(
                            payload.username,
                            payload.public_key,
                            payload.signing_public_key,
                            settings,
                            fresh,
                        ),
                    )
                } else {
                    Progress::Failed(server_error())
                },
                Err(_) => Progress::Failed(server_error()),
            },
            Register::Inserting(insertion) => Self::inserted(insertion.next(reply)),
        }
    }
}

/// Serves a request to register.
pub fn register(payload: RegisterRequestPayload, settings: Settings) -> (r: Progress<
    Register,
    Response,
    Refusal,
>)
    ensures
        r.deep_view() == Register::first(payload.deep_view(), settings.deep_view()),
{
    if payload.username.as_str().as_bytes().len() > USERNAME_MAX_LEN {
        Progress::Done(Response::new(BAD_REQUEST, "Username field must not exceed 15 characters"))
    } else {
        Progress::Ask(
            get_user_from_username(payload.username.as_str()),
            Register::Checking { payload, settings },
        )
    }
}

fn after_insertion(step: Progress<Insertion, String, StoreError>) -> (r: Progress<
    Register,
    Response,
    Refusal,
>)
    ensures
        r.deep_view() == Register::inserted(step.deep_view()),
{
    match step {
        Progress::Ask(statement, insertion) => Progress::Ask(
            statement,
            Register::Inserting(insertion),
        ),
        Progress::Done(_) => Progress::Done(Response { status: OK, body: String::new() }),
        Progress::Failed(_) => Progress::Failed(Refusal::server_error()),
    }
}

impl Register {
    /// Goes on after `reply`.
    pub fn resume(self, reply: Reply, fresh: Fresh) -> (r: Progress<Register, Response, Refusal>)
        ensures
            r.deep_view() == self.deep_view().next(reply.deep_view(), fresh.deep_view()),
    {
        match self {
            Register::Checking { payload, settings } => match get_user_from_username_result(
                reply,
            ) {
                Ok(Some(_)) => Progress::Done(Response::new(CONFLICT, "Username taken")),
                Ok(None) => if settings.admit_users() {
                    after_insertion(
                        insert_new_user(
                            payload.username.as_str(),
                            payload.public_key.as_str(),
                            payload.signing_public_key.as_str(),
                            &settings,
                            fresh,
                        ),
                    )
                } else {
                    Progress::Failed(Refusal::server_error())
                },
                Err(_) => Progress::Failed(Refusal::server_error()),
            },
            Register::Inserting(insertion) => after_insertion(insertion.resume(reply)),
        }
    }
}

/// Serves a request for a user's public key: asks for the user.
pub fn lookup(payload: &LookupRequestPayload) -> (r: Statement)
    ensures
        r.deep_view() == (Statement::UserByUsername { username: payload.username@ }),
{
    get_user_from_username(payload.username.as_str())
}

/// The answer to a request for a user's public key.
pub open spec fn looked_up(reply: ReplyModel) -> Result<Response<Text>, Refusal<Text>> {
    match found_user(reply) {
        Ok(Some(user)) => Ok(Response { status: OK, body: user.public_key }),
        Ok(None) => Ok(Response { status: BAD_REQUEST, body: "User does not exist"@ }),
        Err(_) => Err(server_error()),
    }
}

/// Answers a request for a user's public key.
pub fn lookup_result(reply: Reply) -> (r: Result<Response, Refusal>)
    ensures
        outcome_of(r) == looked_up(reply.deep_view()),
{
    match get_user_from_username_result(reply) {
        Ok(Some(user)) => Ok(Response { status: OK, body: user.public_key }),
        Ok(None) => Ok(Response::new(BAD_REQUEST, "User does not exist")),
        Err(_) => Err(Refusal::server_error()),
    }
}

/// The answer to a request for the current authenticator: the one that expires
/// last.
pub open spec fn current_authenticator(step: UpdateStep) -> Progress<
    AuthenticatorUpdate<Text>,
    Response<Text>,
    Refusal<Text>,
    Statement<Text>,
> {
    match step {
        Progress::Ask(statement, update) => Progress::Ask(statement, update),
        Progress::Done(list) => if list.len() == 0 {
            Progress::Failed(Refusal::Abandon)
        } else {
            Progress::Done(Response { status: OK, body: list.last().authenticator })
        },
        Progress::Failed(_) => Progress::Failed(server_error()),
    }
}

fn after_authenticator_update(
    step: Progress<AuthenticatorUpdate, Vec<Authenticator>, StoreError>,
) -> (r: Progress<AuthenticatorUpdate, Response, Refusal>)
    ensures
        r.deep_view() == current_authenticator(step.deep_view()),
{
    match step {
        Progress::Ask(statement, update) => Progress::Ask(statement, update),
        Progress::Done(list) => {
            if list.len() == 0 {
                Progress::Failed(Refusal::Abandon)
            } else {
                let body = list[list.len() - 1].authenticator.clone();
                Progress::Done(Response { status: OK, body })
            }
        },
        Progress::Failed(_) => Progress::Failed(Refusal::server_error()),
    }
}

/// Serves a request for the current authenticator.
pub fn authenticator() -> (r: Progress<AuthenticatorUpdate, Response, Refusal>)
    ensures
        r.deep_view() == current_authenticator(AuthenticatorUpdate::first()),
{
    after_authenticator_update(update_and_get_authenticators())
}

/// Goes on with a request for the current authenticator after `reply`.
pub fn resume_authenticator(update: AuthenticatorUpdate, reply: Reply, fresh: Fresh) -> (r: Progress<
    AuthenticatorUpdate,
    Response,
    Refusal,
>)
    ensures
        r.deep_view() == current_authenticator(
            update.deep_view().next(reply.deep_view(), fresh.deep_view()),
        ),
{
    after_authenticator_update(update.resume(reply, fresh))
}

/// Serving a request of a user who has to sign in first, and for which one
/// statement is enough then.
#[derive(Debug, PartialEq)]
pub enum SignedRequest<S = String> {
    /// Signs in the user.
    SigningIn(SignIn<S>),
    /// Waits for the rows.
    Reading,
}

impl DeepView for SignedRequest {
    type V = SignedRequest<Text>;

    open spec fn deep_view(&self) -> SignedRequest<Text> {
        match *self {
            SignedRequest::SigningIn(sign_in) => SignedRequest::SigningIn(sign_in.deep_view()),
            SignedRequest::Reading => SignedRequest::Reading,
        }
    }
}

/// A step of serving a request for the transfers to a user, in models.
pub type InboxStep = Progress<
    SignedRequest<Text>,
    Seq<TransferRecordWithFileMetadata<Text>>,
    Refusal<Text>,
    Statement<Text>,
>;

/// The step of the request for the transfers to a user that follows from a step
/// of signing in.
pub open spec fn inbox_signed_in(step: SignInStep) -> InboxStep {
    match step {
        Progress::Ask(statement, sign_in) => Progress::Ask(
            statement,
            SignedRequest::SigningIn(sign_in),
        ),
        Progress::Done(user_id) => Progress::Ask(
            Statement::RecordsWithFiles { recipient: user_id },
            SignedRequest::Reading,
        ),
        Progress::Failed(refusal) => Progress::Failed(refusal),
    }
}

/// The step of the request for the transfers to a user after `reply`.
pub open spec fn inbox_next(
    state: SignedRequest<Text>,
    reply: ReplyModel,
    fresh: Fresh<Text>,
) -> InboxStep {
    match state {
        SignedRequest::SigningIn(sign_in) => inbox_signed_in(sign_in.next(reply, fresh)),
        SignedRequest::Reading => match reply.items() {
            Ok(items) => Progress::Done(items),
            Err(_) => Progress::Failed(server_error()),
        },
    }
}

fn after_inbox_sign_in(step: Progress<SignIn, String, Refusal>) -> (r: Progress<
    SignedRequest,
    Vec<TransferRecordWithFileMetadata>,
    Refusal,
>)
    ensures
        r.deep_view() == inbox_signed_in(step.deep_view()),
{
    match step {
        Progress::Ask(statement, sign_in) => Progress::Ask(
            statement,
            SignedRequest::SigningIn(sign_in),
        ),
        Progress::Done(user_id) => Progress::Ask(
            get_transfer_records_and_file_metadata_for_recipient(user_id.as_str()),
            SignedRequest::Reading,
        ),
        Progress::Failed(refusal) => Progress::Failed(refusal),
    }
}

/// Serves a request for the transfers to a user.
pub fn inbox(payload: &InboxRequestPayload) -> (r: Progress<
    SignedRequest,
    Vec<TransferRecordWithFileMetadata>,
    Refusal,
>)
    ensures
        r.deep_view() == inbox_signed_in(
            SignIn::first(payload.username@, payload.signed_authenticator@),
        ),
{
    after_inbox_sign_in(sign_in(payload.username.as_str(), payload.signed_authenticator.as_str()))
}

/// Goes on with a request for the transfers to a user after `reply`.
pub fn resume_inbox(state: SignedRequest, reply: Reply, fresh: Fresh) -> (r: Progress<
    SignedRequest,
    Vec<TransferRecordWithFileMetadata>,
    Refusal,
>)
    ensures
        r.deep_view() == inbox_next(state.deep_view(), reply.deep_view(), fresh.deep_view()),
{
    match state {
        SignedRequest::SigningIn(sign_in) => after_inbox_sign_in(sign_in.resume(reply, fresh)),
        SignedRequest::Reading => match reply.into_items() {
            Ok(items) => Progress::Done(items),
            Err(_) => Progress::Failed(Refusal::server_error()),
        },
    }
}

/// A step of serving a request for the names of all users, in models.
pub type ListUsersStep = Progress<
    SignedRequest<Text>,
    Response<Text>,
    Refusal<Text>,
    Statement<Text>,
>;

/// The step of the request for the names of all users that follows from a step
/// of signing in.
pub open spec fn list_users_signed_in(step: SignInStep) -> ListUsersStep {
    match step {
        Progress::Ask(statement, sign_in) => Progress::Ask(
            statement,
            SignedRequest::SigningIn(sign_in),
        ),
        Progress::Done(_) => Progress::Ask(Statement::ApprovedUsernames, SignedRequest::Reading),
        Progress::Failed(refusal) => Progress::Failed(refusal),
    }
}

/// The step of the request for the names of all users after `reply`.
pub open spec fn list_users_next(
    state: SignedRequest<Text>,
    reply: ReplyModel,
    fresh: Fresh<Text>,
) -> ListUsersStep {
    match state {
        SignedRequest::SigningIn(sign_in) => list_users_signed_in(sign_in.next(reply, fresh)),
        SignedRequest::Reading => match reply.usernames() {
            Ok(names) => Progress::Done(Response { status: OK, body: joined_lines(names) }),
            Err(_) => Progress::Failed(server_error()),
        },
    }
}

fn after_list_users_sign_in(step: Progress<SignIn, String, Refusal>) -> (r: Progress<
    SignedRequest,
    Response,
    Refusal,
>)
    ensures
        r.deep_view() == list_users_signed_in(step.deep_view()),
{
    match step {
        Progress::Ask(statement, sign_in) => Progress::Ask(
            statement,
            SignedRequest::SigningIn(sign_in),
        ),
        Progress::Done(_) => Progress::Ask(get_all_approved_users(), SignedRequest::Reading),
        Progress::Failed(refusal) => Progress::Failed(refusal),
    }
}

/// Serves a request for the names of all users.
pub fn list_users(payload: &ListUsersRequestPayload) -> (r: Progress<
    SignedRequest,
    Response,
    Refusal,
>)
    ensures
        r.deep_view() == list_users_signed_in(
            SignIn::first(payload.username@, payload.signed_authenticator@),
        ),
{
    after_list_users_sign_in(
        sign_in(payload.username.as_str(), payload.signed_authenticator.as_str()),
    )
}

/// Goes on with a request for the names of all users after `reply`.
pub fn resume_list_users(state: SignedRequest, reply: Reply, fresh: Fresh) -> (r: Progress<
    SignedRequest,
    Response,
    Refusal,
>)
    ensures
        r.deep_view() == list_users_next(state.deep_view(), reply.deep_view(), fresh.deep_view()),
{
    match state {
        SignedRequest::SigningIn(sign_in) => after_list_users_sign_in(
            sign_in.resume(reply, fresh),
        ),
        SignedRequest::Reading => match reply.into_usernames() {
            Ok(names) => Progress::Done(Response { status: OK, body: join_lines(&names) }),
            Err(_) => Progress::Failed(Refusal::server_error()),
        },
    }
}

} // verus!
