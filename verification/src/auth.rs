//! Who a request comes from.
//!
//! The server holds two random texts, the authenticators, and replaces one that
//! has expired. A user shows who they are by signing one of the two.

use crate::actions::{delete_authenticator, get_all_authenticators, insert_new_authenticator};
use crate::fresh::Fresh;
use crate::models::{Authenticator, User};
use crate::responses::{outcome_of, refused, server_error, Refusal, UNAUTHORIZED};
use crate::statements::{Progress, Reply, ReplyModel, Statement, StoreError};
use crate::text::Text;
use crate::time::Timestamp;
use sodiumoxide::base64;
use sodiumoxide::crypto::sign;
use vstd::prelude::*;
use vstd::string::*;
use vstd::utf8::*;

verus! {

/// How long an authenticator is handed out.
pub const AUTHENTICATOR_LIFESPAN_SECONDS: i64 = 5 * 60;

/// How long an authenticator is still accepted after it has expired.
pub const AUTHENTICATOR_GRACE_PERIOD_SECONDS: i64 = 2 * 60;

/// The number of bytes of a public key for signatures.
pub const PUBLIC_KEY_BYTES: usize = 32;

/// The number of bytes of a signature.
pub const SIGNATURE_BYTES: usize = 64;

/// The row of a new authenticator, where the calendar has its expiration date.
pub open spec fn new_authenticator(fresh: Fresh<Text>) -> Option<Authenticator<Text>> {
    match fresh.now.later_by(AUTHENTICATOR_LIFESPAN_SECONDS as int) {
        Some(expiration_date) => Some(
            Authenticator { id: fresh.id, authenticator: fresh.authenticator, expiration_date },
        ),
        None => None,
    }
}

/// Inserts a new authenticator, where the calendar has its expiration date.
pub fn add_new_authenticator(fresh: &Fresh) -> (r: Option<Statement>)
    ensures
        r.deep_view() == match new_authenticator(fresh.deep_view()) {
            Some(row) => Some(Statement::InsertAuthenticator(row)),
            None => None,
        },
{
    match fresh.now.plus_seconds(AUTHENTICATOR_LIFESPAN_SECONDS) {
        Some(expiry_date) => Some(
            insert_new_authenticator(fresh.authenticator.as_str(), expiry_date, fresh.id.as_str()),
        ),
        None => None,
    }
}

/// Whether the grace period of an authenticator was over at `now`; nothing where
/// the calendar lacks its end.
pub open spec fn grace_is_over(expiration_date: Timestamp, now: Timestamp) -> Option<bool> {
    match expiration_date.later_by(AUTHENTICATOR_GRACE_PERIOD_SECONDS as int) {
        Some(end) => Some(end.is_before(now)),
        None => None,
    }
}

fn is_grace_over(expiration_date: Timestamp, now: Timestamp) -> (r: Option<bool>)
    ensures
        r == grace_is_over(expiration_date, now),
{
    match expiration_date.plus_seconds(AUTHENTICATOR_GRACE_PERIOD_SECONDS) {
        Some(end) => Some(end.before(now)),
        None => None,
    }
}

/// Bringing the authenticators up to date: there are to be two, and one whose
/// grace period is over is replaced.
#[derive(Debug, PartialEq)]
pub enum AuthenticatorUpdate<S = String> {
    /// Waits for the list, to which authenticators are added while it has fewer
    /// than two. The clock is read when the first list has come.
    Filling { clock: Option<Timestamp> },
    /// Waits for an authenticator to be added.
    Added { now: Timestamp },
    /// Waits for the list, from which the first is deleted while it has more
    /// than two.
    Trimming { now: Timestamp },
    /// Waits for the first of the list to be deleted.
    Trimmed { now: Timestamp },
    /// Waits for the first of the two, which is too old, to be deleted.
    DroppingFirst { now: Timestamp, second: Option<Authenticator<S>> },
    /// Waits for the first of the two to be replaced.
    ReplacingFirst { now: Timestamp, second: Option<Authenticator<S>> },
    /// Waits for the second of the two, which is too old, to be deleted.
    DroppingSecond,
    /// Waits for the second of the two to be replaced.
    ReplacingSecond,
    /// Waits for the list as it is in the end.
    Listing,
}

impl DeepView for AuthenticatorUpdate {
    type V = AuthenticatorUpdate<Text>;

    open spec fn deep_view(&self) -> AuthenticatorUpdate<Text> {
        match *self {
            AuthenticatorUpdate::Filling { clock } => AuthenticatorUpdate::Filling { clock },
            AuthenticatorUpdate::Added { now } => AuthenticatorUpdate::Added { now },
            AuthenticatorUpdate::Trimming { now } => AuthenticatorUpdate::Trimming { now },
            AuthenticatorUpdate::Trimmed { now } => AuthenticatorUpdate::Trimmed { now },
            AuthenticatorUpdate::DroppingFirst { now, second } => {
                AuthenticatorUpdate::DroppingFirst { now, second: second.deep_view() }
            },
            AuthenticatorUpdate::ReplacingFirst { now, second } => {
                AuthenticatorUpdate::ReplacingFirst { now, second: second.deep_view() }
            },
            AuthenticatorUpdate::DroppingSecond => AuthenticatorUpdate::DroppingSecond,
            AuthenticatorUpdate::ReplacingSecond => AuthenticatorUpdate::ReplacingSecond,
            AuthenticatorUpdate::Listing => AuthenticatorUpdate::Listing,
        }
    }
}

/// A step of bringing the authenticators up to date, in models.
pub type UpdateStep = Progress<
    AuthenticatorUpdate<Text>,
    Seq<Authenticator<Text>>,
    StoreError,
    Statement<Text>,
>;

impl AuthenticatorUpdate<Text> {
    /// The first step.
    pub open spec fn first() -> UpdateStep {
        Progress::Ask(Statement::AllAuthenticators, AuthenticatorUpdate::Filling { clock: None })
    }

    /// Adds an authenticator, and waits in `state` for that.
    pub open spec fn adding(fresh: Fresh<Text>, state: AuthenticatorUpdate<Text>) -> UpdateStep {
        match new_authenticator(fresh) {
            Some(row) => Progress::Ask(Statement::InsertAuthenticator(row), state),
            None => Progress::Failed(StoreError::Failed),
        }
    }

    /// Replaces what is too old, where there are no more than two.
    pub open spec fn rotating(list: Seq<Authenticator<Text>>, now: Timestamp) -> UpdateStep {
        if list.len() == 0 {
            Progress::Failed(StoreError::Failed)
        } else {
            match grace_is_over(list[0].expiration_date, now) {
                None => Progress::Failed(StoreError::Failed),
                Some(false) => Progress::Ask(
                    Statement::AllAuthenticators,
                    AuthenticatorUpdate::Listing,
                ),
                Some(true) => Progress::Ask(
                    Statement::DeleteAuthenticator { id: list[0].id },
                    AuthenticatorUpdate::DroppingFirst {
                        now,
                        second: if list.len() > 1 {
                            Some(list[1])
                        } else {
                            None
                        },
                    },
                ),
            }
        }
    }

    /// Deletes the first of more than two.
    pub open spec fn trimming(list: Seq<Authenticator<Text>>, now: Timestamp) -> UpdateStep {
        if list.len() > 2 {
            Progress::Ask(
                Statement::DeleteAuthenticator { id: list[0].id },
                AuthenticatorUpdate::Trimmed { now },
            )
        } else {
            Self::rotating(list, now)
        }
    }

    /// The step after `reply`.
    pub open spec fn next(self, reply: ReplyModel, fresh: Fresh<Text>) -> UpdateStep {
        match self {
            AuthenticatorUpdate::Filling { clock } => match reply.authenticators() {
                Ok(list) => {
                    let now = match clock {
                        Some(now) => now,
                        None => fresh.now,
                    };
                    if list.len() < 2 {
                        Self::adding(fresh, AuthenticatorUpdate::Added { now })
                    } else {
                        Self::trimming(list, now)
                    }
                },
                Err(error) => Progress::Failed(error),
            },
            AuthenticatorUpdate::Added { now } => match reply.executed() {
                Ok(()) => Progress::Ask(
                    Statement::AllAuthenticators,
                    AuthenticatorUpdate::Filling { clock: Some(now) },
                ),
                Err(error) => Progress::Failed(error),
            },
            AuthenticatorUpdate::Trimming { now } => match reply.authenticators() {
                Ok(list) => Self::trimming(list, now),
                Err(error) => Progress::Failed(error),
            },
            AuthenticatorUpdate::Trimmed { now } => match reply.executed() {
                Ok(()) => Progress::Ask(
                    Statement::AllAuthenticators,
                    AuthenticatorUpdate::Trimming { now },
                ),
                Err(error) => Progress::Failed(error),
            },
            AuthenticatorUpdate::DroppingFirst { now, second } => match reply.executed() {
                Ok(()) => Self::adding(fresh, AuthenticatorUpdate::ReplacingFirst { now, second }),
                Err(error) => Progress::Failed(error),
            },
            AuthenticatorUpdate::ReplacingFirst { now, second } => match (
                reply.executed(),
                second,
            ) {
                (Err(error), _) => Progress::Failed(error),
                (Ok(()), None) => Progress::Failed(StoreError::Failed),
                (Ok(()), Some(second)) => match grace_is_over(second.expiration_date, now) {
                    None => Progress::Failed(StoreError::Failed),
                    Some(false) => Progress::Ask(
                        Statement::AllAuthenticators,
                        AuthenticatorUpdate::Listing,
                    ),
                    Some(true) => Progress::Ask(
                        Statement::DeleteAuthenticator { id: second.id },
                        AuthenticatorUpdate::DroppingSecond,
                    ),
                },
            },
            AuthenticatorUpdate::DroppingSecond => match reply.executed() {
                Ok(()) => Self::adding(fresh, AuthenticatorUpdate::ReplacingSecond),
                Err(error) => Progress::Failed(error),
            },
            AuthenticatorUpdate::ReplacingSecond => match reply.executed() {
                Ok(()) => Progress::Ask(Statement::AllAuthenticators, AuthenticatorUpdate::Listing),
                Err(error) => Progress::Failed(error),
            },
            AuthenticatorUpdate::Listing => match reply.authenticators() {
                Ok(list) => Progress::Done(list),
                Err(error) => Progress::Failed(error),
            },
        }
    }
}

/// Brings the authenticators up to date; ends with the list of them.
pub fn update_and_get_authenticators() -> (r: Progress<
    AuthenticatorUpdate,
    Vec<Authenticator>,
    StoreError,
>)
    ensures
        r.deep_view() == AuthenticatorUpdate::first(),
{
    Progress::Ask(get_all_authenticators(), AuthenticatorUpdate::Filling { clock: None })
}

impl AuthenticatorUpdate {
    fn add(fresh: Fresh, state: AuthenticatorUpdate) -> (r: Progress<
        AuthenticatorUpdate,
        Vec<Authenticator>,
        StoreError,
    >)
        ensures
            r.deep_view() == AuthenticatorUpdate::adding(fresh.deep_view(), state.deep_view()),
    {
        match add_new_authenticator(&fresh) {
            Some(statement) => Progress::Ask(statement, state),
            None => Progress::Failed(StoreError::Failed),
        }
    }

    fn rotate(list: Vec<Authenticator>, now: Timestamp) -> (r: Progress<
        AuthenticatorUpdate,
        Vec<Authenticator>,
        StoreError,
    >)
        ensures
            r.deep_view() == AuthenticatorUpdate::rotating(list.deep_view(), now),
    {
        if list.len() == 0 {
            return Progress::Failed(StoreError::Failed);
        }
        match is_grace_over(list[0].expiration_date, now) {
            None => Progress::Failed(StoreError::Failed),
            Some(false) => Progress::Ask(get_all_authenticators(), AuthenticatorUpdate::Listing),
            Some(true) => {
                let statement = delete_authenticator(list[0].id.as_str());
                let mut rest = list;
                let second = if rest.len() > 1 {
                    Some(rest.remove(1))
                } else {
                    None
                };
                Progress::Ask(statement, AuthenticatorUpdate::DroppingFirst { now, second })
            },
        }
    }

    fn trim(list: Vec<Authenticator>, now: Timestamp) -> (r: Progress<
        AuthenticatorUpdate,
        Vec<Authenticator>,
        StoreError,
    >)
        ensures
            r.deep_view() == AuthenticatorUpdate::trimming(list.deep_view(), now),
    {
        if list.len() > 2 {
            Progress::Ask(
                delete_authenticator(list[0].id.as_str()),
                AuthenticatorUpdate::Trimmed { now },
            )
        } else {
            Self::rotate(list, now)
        }
    }

    /// Goes on after `reply`.
    pub fn resume(self, reply: Reply, fresh: Fresh) -> (r: Progress<
        AuthenticatorUpdate,
        Vec<Authenticator>,
        StoreError,
    >)
        ensures
            r.deep_view() == self.deep_view().next(reply.deep_view(), fresh.deep_view()),
    {
        match self {
            AuthenticatorUpdate::Filling { clock } => match reply.into_authenticators() {
                Ok(list) => {
                    let now = match clock {
                        Some(now) => now,
                        None => fresh.now,
                    };
                    if list.len() < 2 {
                        Self::add(fresh, AuthenticatorUpdate::Added { now })
                    } else {
                        Self::trim(list, now)
                    }
                },
                Err(error) => Progress::Failed(error),
            },
            AuthenticatorUpdate::Added { now } => match reply.into_executed() {
                Ok(()) => Progress::Ask(
                    get_all_authenticators(),
                    AuthenticatorUpdate::Filling { clock: Some(now) },
                ),
                Err(error) => Progress::Failed(error),
            },
            AuthenticatorUpdate::Trimming { now } => match reply.into_authenticators() {
                Ok(list) => Self::trim(list, now),
                Err(error) => Progress::Failed(error),
            },
            AuthenticatorUpdate::Trimmed { now } => match reply.into_executed() {
                Ok(()) => Progress::Ask(
                    get_all_authenticators(),
                    AuthenticatorUpdate::Trimming { now },
                ),
                Err(error) => Progress::Failed(error),
            },
            AuthenticatorUpdate::DroppingFirst { now, second } => match reply.into_executed() {
                Ok(()) => Self::add(fresh, AuthenticatorUpdate::ReplacingFirst { now, second }),
                Err(error) => Progress::Failed(error),
            },
            AuthenticatorUpdate::ReplacingFirst { now, second } => match (
                reply.into_executed(),
                second,
            ) {
                (Err(error), _) => Progress::Failed(error),
                (Ok(()), None) => Progress::Failed(StoreError::Failed),
                (Ok(()), Some(second)) => match is_grace_over(second.expiration_date, now) {
                    None => Progress::Failed(StoreError::Failed),
                    Some(false) => Progress::Ask(
                        get_all_authenticators(),
                        AuthenticatorUpdate::Listing,
                    ),
                    Some(true) => Progress::Ask(
                        delete_authenticator(second.id.as_str()),
                        AuthenticatorUpdate::DroppingSecond,
                    ),
                },
            },
            AuthenticatorUpdate::DroppingSecond => match reply.into_executed() {
                Ok(()) => Self::add(fresh, AuthenticatorUpdate::ReplacingSecond),
                Err(error) => Progress::Failed(error),
            },
            AuthenticatorUpdate::ReplacingSecond => match reply.into_executed() {
                Ok(()) => Progress::Ask(get_all_authenticators(), AuthenticatorUpdate::Listing),
                Err(error) => Progress::Failed(error),
            },
            AuthenticatorUpdate::Listing => match reply.into_authenticators() {
                Ok(list) => Progress::Done(list),
                Err(error) => Progress::Failed(error),
            },
        }
    }
}

/// The bytes that `base64::decode` makes of a text in the original variant, if
/// it succeeds.
pub uninterp spec fn base64_decoded(text: Text) -> Option<Seq<u8>>;

/// The message that `sign::verify` finds in `signed` with the key `key`, if it
/// succeeds.
pub uninterp spec fn opened_message(signed: Seq<u8>, key: Seq<u8>) -> Option<Seq<u8>>;

/// Calls `base64::decode` with the original variant.
///
/// The result depends on the text alone.
#[verifier::external_body]
fn base64_decode(text: &str) -> (r: Option<Vec<u8>>)
    ensures
        r.deep_view() == base64_decoded(text@),
{
    base64::decode(text, base64::Variant::Original).ok()
}

/// Calls `sign::PublicKey::from_slice`.
///
/// A key is made exactly of thirty-two bytes, and holds those.
#[verifier::external_body]
fn public_key_from_slice(bytes: &[u8]) -> (r: Option<[u8; 32]>)
    ensures
        r is Some <==> bytes@.len() == PUBLIC_KEY_BYTES,
        r matches Some(key) ==> key@ == bytes@,
{
    sign::PublicKey::from_slice(bytes).map(|key| key.0)
}

/// Calls `sign::verify`.
///
/// The result depends on the signed message and the key alone. A message that is
/// found is what follows the signature.
#[verifier::external_body]
fn open_signed(signed: &[u8], key: &[u8; 32]) -> (r: Option<Vec<u8>>)
    ensures
        r.deep_view() == opened_message(signed@, key@),
        r matches Some(message) ==> signed@.len() >= SIGNATURE_BYTES && message@ == signed@.skip(
            SIGNATURE_BYTES as int,
        ),
{
    sign::verify(signed, &sign::PublicKey(*key)).ok()
}

/// The message in `signed`: both texts could be decoded, and the key has the
/// right length and fits the signature.
pub open spec fn message_in(key: Option<Seq<u8>>, signed: Option<Seq<u8>>) -> Option<Seq<u8>> {
    match (key, signed) {
        (Some(key), Some(bytes)) => if key.len() == PUBLIC_KEY_BYTES {
            opened_message(bytes, key)
        } else {
            None
        },
        _ => None,
    }
}

/// The message that was signed, where key and signed message are in Base64.
pub open spec fn signed_message(signing_public_key: Text, signed: Text) -> Option<Seq<u8>> {
    message_in(base64_decoded(signing_public_key), base64_decoded(signed))
}

/// The refusal of a request that was not signed as it should be.
pub open spec fn authentication_failed() -> Refusal<Text> {
    refused(UNAUTHORIZED, "Authentication failed"@)
}

/// The verdict on a signed message: it is one of the first two authenticators.
/// Where there are not two to compare with, the request is abandoned.
pub open spec fn message_verdict(
    message: Option<Seq<u8>>,
    authenticators: Seq<Authenticator<Text>>,
) -> Result<(), Refusal<Text>> {
    match message {
        None => Err(authentication_failed()),
        Some(message) => if authenticators.len() == 0 {
            Err(Refusal::Abandon)
        } else if message == encode_utf8(authenticators[0].authenticator) {
            Ok(())
        } else if authenticators.len() == 1 {
            Err(Refusal::Abandon)
        } else if message == encode_utf8(authenticators[1].authenticator) {
            Ok(())
        } else {
            Err(authentication_failed())
        },
    }
}

fn same_bytes(a: &[u8], b: &[u8]) -> (r: bool)
    ensures
        r == (a@ == b@),
{
    if a.len() != b.len() {
        return false;
    }
    let mut i: usize = 0;
    while i < a.len()
        invariant
            i <= a.len(),
            a.len() == b.len(),
            forall|j: int| 0 <= j < i ==> a@[j] == b@[j],
        decreases a.len() - i,
    {
        if a[i] != b[i] {
            return false;
        }
        i = i + 1;
    }
    assert(a@ =~= b@);
    true
}

/// Judges a signed message against the authenticators.
pub fn judge_message(message: &Option<Vec<u8>>, authenticators: &Vec<Authenticator>) -> (r: Result<
    (),
    Refusal,
>)
    ensures
        outcome_of(r) == message_verdict(message.deep_view(), authenticators.deep_view()),
{
    match message {
        None => Err(Refusal::new(UNAUTHORIZED, "Authentication failed")),
        Some(message) => {
            assert(message.deep_view() =~= message@);
            if authenticators.len() == 0 {
                Err(Refusal::Abandon)
            } else if same_bytes(
                message.as_slice(),
                authenticators[0].authenticator.as_str().as_bytes(),
            ) {
                Ok(())
            } else if authenticators.len() == 1 {
                Err(Refusal::Abandon)
            } else if same_bytes(
                message.as_slice(),
                authenticators[1].authenticator.as_str().as_bytes(),
            ) {
                Ok(())
            } else {
                Err(Refusal::new(UNAUTHORIZED, "Authentication failed"))
            }
        },
    }
}

/// Opens a signed message with a key, both as far as they could be decoded.
pub fn open_message(key: &Option<Vec<u8>>, signed: &Option<Vec<u8>>) -> (r: Option<Vec<u8>>)
    ensures
        r.deep_view() == message_in(key.deep_view(), signed.deep_view()),
{
    match (key, signed) {
        (Some(key), Some(bytes)) => {
            assert(key.deep_view() =~= key@);
            assert(bytes.deep_view() =~= bytes@);
            match public_key_from_slice(key.as_slice()) {
                Some(key) => open_signed(bytes.as_slice(), &key),
                None => None,
            }
        },
        _ => None,
    }
}

/// Judges whether one of the authenticators was signed with the user's key.
pub fn verify_signed_authenticator(
    authenticators: &Vec<Authenticator>,
    signing_public_key_str: &str,
    signed_authenticator: &str,
) -> (r: Result<(), Refusal>)
    ensures
        outcome_of(r) == message_verdict(
            signed_message(signing_public_key_str@, signed_authenticator@),
            authenticators.deep_view(),
        ),
{
    let public_key_bytes = base64_decode(signing_public_key_str);
    let signed_authenticator_bytes = base64_decode(signed_authenticator);
    let message = open_message(&public_key_bytes, &signed_authenticator_bytes);
    judge_message(&message, authenticators)
}

/// Finding out whether a request comes from the user that it names.
#[derive(Debug, PartialEq)]
pub struct Authentication<S = String> {
    pub signing_public_key: S,
    pub signed_authenticator: S,
    pub update: AuthenticatorUpdate<S>,
}

impl DeepView for Authentication {
    type V = Authentication<Text>;

    open spec fn deep_view(&self) -> Authentication<Text> {
        Authentication {
            signing_public_key: self.signing_public_key@,
            signed_authenticator: self.signed_authenticator@,
            update: self.update.deep_view(),
        }
    }
}

/// A step of an authentication, in models.
pub type AuthenticationStep = Progress<
    Authentication<Text>,
    (),
    Refusal<Text>,
    Statement<Text>,
>;

impl Authentication<Text> {
    /// The first step: only an approved user may go on.
    pub open spec fn first(
        approved: bool,
        signing_public_key: Text,
        signed_authenticator: Text,
    ) -> AuthenticationStep {
        if approved {
            Self::updated(
                signing_public_key,
                signed_authenticator,
                AuthenticatorUpdate::first(),
            )
        } else {
            Progress::Failed(
                refused(
                    UNAUTHORIZED,
                    "Your account has yet to be approved by the server administrator"@,
                ),
            )
        }
    }

    /// The step that follows from a step of bringing the authenticators up to
    /// date.
    pub open spec fn updated(
        signing_public_key: Text,
        signed_authenticator: Text,
        step: UpdateStep,
    ) -> AuthenticationStep {
        match step {
            Progress::Ask(statement, update) => Progress::Ask(
                statement,
                Authentication { signing_public_key, signed_authenticator, update },
            ),
            Progress::Failed(_) => Progress::Failed(server_error()),
            Progress::Done(list) => match message_verdict(
                signed_message(signing_public_key, signed_authenticator),
                list,
            ) {
                Ok(()) => Progress::Done(()),
                Err(refusal) => Progress::Failed(refusal),
            },
        }
    }

    /// The step after `reply`.
    pub open spec fn next(self, reply: ReplyModel, fresh: Fresh<Text>) -> AuthenticationStep {
        Self::updated(
            self.signing_public_key,
            self.signed_authenticator,
            self.update.next(reply, fresh),
        )
    }
}

/// Finds out whether a request comes from `user`.
pub fn authenticate_user(user: &User, signed_authenticator: &str) -> (r: Progress<
    Authentication,
    (),
    Refusal,
>)
    ensures
        r.deep_view() == Authentication::first(
            user.approved,
            user.signing_public_key@,
            signed_authenticator@,
        ),
{
    if !user.approved {
        Progress::Failed(
            Refusal::new(
                UNAUTHORIZED,
                "Your account has yet to be approved by the server administrator",
            ),
        )
    } else {
        after_update(
            user.signing_public_key.clone(),
            signed_authenticator.to_owned(),
            update_and_get_authenticators(),
        )
    }
}

fn after_update(
    signing_public_key: String,
    signed_authenticator: String,
    step: Progress<AuthenticatorUpdate, Vec<Authenticator>, StoreError>,
) -> (r: Progress<Authentication, (), Refusal>)
    ensures
        r.deep_view() == Authentication::updated(
            signing_public_key@,
            signed_authenticator@,
            step.deep_view(),
        ),
{
    match step {
        Progress::Ask(statement, update) => Progress::Ask(
            statement,
            Authentication { signing_public_key, signed_authenticator, update },
        ),
        Progress::Failed(_) => Progress::Failed(Refusal::server_error()),
        Progress::Done(list) => match verify_signed_authenticator(
            &list,
            signing_public_key.as_str(),
            signed_authenticator.as_str(),
        ) {
            Ok(()) => Progress::Done(()),
            Err(refusal) => Progress::Failed(refusal),
        },
    }
}

impl Authentication {
    /// Goes on after `reply`.
    pub fn resume(self, reply: Reply, fresh: Fresh) -> (r: Progress<Authentication, (), Refusal>)
        ensures
            r.deep_view() == self.deep_view().next(reply.deep_view(), fresh.deep_view()),
    {
        let step = self.update.resume(reply, fresh);
        after_update(self.signing_public_key, self.signed_authenticator, step)
    }
}

} // verus!
