//! What holds of plain values: limits, dates, settings, replies, answers and
//! verdicts.

use crate::actions::{found_user, unreferenced, used_quota};
use crate::auth::{
    authentication_failed, grace_is_over, message_in, message_verdict,
    new_authenticator, opened_message, signed_message, UpdateStep,
    AUTHENTICATOR_GRACE_PERIOD_SECONDS, AUTHENTICATOR_LIFESPAN_SECONDS, PUBLIC_KEY_BYTES,
    SIGNATURE_BYTES,
};
use crate::cleanup::CLEANUP_PROCESS_SLEEP_SECONDS;
use crate::delivery::quota_verdict;
use crate::download::search_refusal;
use crate::frame::SIZE_BYTES;
use crate::fresh::{Fresh, AUTHENTICATOR_LEN};
use crate::laws::authenticators::is_signature_of;
use crate::laws::terms::{is_later_by, most_bytes};
use crate::models::{Authenticator, TransferRecord, TransferRecordWithFileMetadata, User};
use crate::requests::{current_authenticator, looked_up, USERNAME_MAX_LEN};
use crate::responses::{
    refused, server_error, Refusal, Response, BAD_REQUEST, CONFLICT, FORBIDDEN,
    INTERNAL_SERVER_ERROR, OK, UNAUTHORIZED,
};
use crate::settings::Settings;
use crate::sign_in::known_user;
use crate::statements::{Progress, Reply, ReplyModel, StoreError};
use crate::tasks::{Event, EventModel};
use crate::text::{
    all_digits, bool_value, decimal, decimal_reads_back, digits, digits_value, i64_value, is_digit,
    signed_value, Text,
};
use crate::time::{Timestamp, FIRST_SECOND, LAST_SECOND};
use crate::transfer::FILE_NAME_MAX_LEN;
use crate::upload::{too_large, wrong_length};
use vstd::prelude::*;
use vstd::utf8::*;

verus! {

/// The limits that clients are told of, and the statuses of HTTP.
pub proof fn limits_and_statuses()
    ensures
        USERNAME_MAX_LEN == 15,
        FILE_NAME_MAX_LEN == 20,
        SIZE_BYTES == 8,
        AUTHENTICATOR_LEN == 16,
        AUTHENTICATOR_LIFESPAN_SECONDS == 300,
        AUTHENTICATOR_GRACE_PERIOD_SECONDS == 120,
        PUBLIC_KEY_BYTES == 32,
        SIGNATURE_BYTES == 64,
        CLEANUP_PROCESS_SLEEP_SECONDS == 300,
        OK == 200,
        BAD_REQUEST == 400,
        UNAUTHORIZED == 401,
        FORBIDDEN == 403,
        CONFLICT == 409,
        INTERNAL_SERVER_ERROR == 500,
{
}

/// The nanoseconds from the start of 1970 to a point in time.
pub open spec fn nanoseconds(time: Timestamp) -> int {
    time.secs * 1_000_000_000 + time.nanos
}

/// Of two points in time that the calendar has, the earlier one is that with
/// fewer nanoseconds behind it.
pub proof fn time_is_ordered_by_its_length(a: Timestamp, b: Timestamp)
    requires
        a.nanos < 1_000_000_000,
        b.nanos < 1_000_000_000,
    ensures
        a.is_before(b) <==> nanoseconds(a) < nanoseconds(b),
        a.valid() <==> -8_334_601_228_800 <= a.secs <= 8_210_266_876_799,
        FIRST_SECOND == -8_334_601_228_800,
        LAST_SECOND == 8_210_266_876_799,
{
}

/// Any two points in time are ordered, whatever their parts are.
pub proof fn time_is_ordered(a: Timestamp, b: Timestamp, c: Timestamp)
    ensures
        !a.is_before(a),
        a.is_before(b) || b.is_before(a) || a == b,
        a.is_before(b) && b.is_before(c) ==> a.is_before(c),
        a.secs < b.secs ==> a.is_before(b),
        a.valid() ==> a.nanos < 1_000_000_000,
{
}

/// A later time is later by exactly the span, and is there exactly where the
/// calendar has it.
pub proof fn time_goes_by(time: Timestamp, span: int)
    ensures
        time.later_by(span) is Some <==> time.valid() && -8_334_601_228_800 <= time.secs + span
            <= 8_210_266_876_799,
        time.later_by(span) is Some ==> time.later_by(span)->0.valid() && is_later_by(
            time.later_by(span)->0,
            time,
            span,
        ),
        time.later_by(span) is Some ==> nanoseconds(time.later_by(span)->0) == nanoseconds(time)
            + 1_000_000_000 * span,
{
}

/// The grace period of an authenticator is over as soon as more than a hundred
/// and twenty seconds have passed since its expiration date.
pub proof fn grace_lasts_two_minutes(date: Timestamp, now: Timestamp)
    requires
        now.nanos < 1_000_000_000,
    ensures
        grace_is_over(date, now) is Some <==> date.valid() && date.secs + 120 <= 8_210_266_876_799,
        grace_is_over(date, now) is Some ==> (grace_is_over(date, now)->0 <==> nanoseconds(now)
            - nanoseconds(date) > 120_000_000_000),
{
}

/// A new authenticator is the text that was drawn, under the id that was drawn,
/// and expires three hundred seconds after it was made.
pub proof fn authenticators_live_five_minutes(fresh: Fresh<Text>)
    ensures
        new_authenticator(fresh) is Some <==> fresh.now.valid() && fresh.now.secs + 300
            <= 8_210_266_876_799,
        new_authenticator(fresh) matches Some(row) ==> {
            &&& row.id == fresh.id
            &&& row.authenticator == fresh.authenticator
            &&& is_later_by(row.expiration_date, fresh.now, 300)
        },
{
}

/// What is drawn has the form of what is drawn at random and read from a clock.
pub proof fn drawn_values_have_their_form(fresh: Fresh<Text>)
    requires
        fresh.well_formed(),
    ensures
        fresh.id.len() == 36,
        fresh.id[8] == '-' && fresh.id[13] == '-' && fresh.id[18] == '-' && fresh.id[23] == '-',
        fresh.authenticator.len() == 16,
        fresh.now.valid(),
        fresh.now.nanos == 0,
        fresh.timestamp.valid(),
{
}

/// A setting says what stands in it: the words `true` and `false` whether
/// approval is required, and numbers the quota and the lifetime. Where something
/// else stands there, or nothing, it says nothing.
pub proof fn settings_say_what_stands_in_them(settings: Settings<Text>)
    ensures
        settings.approval() == Some(true) <==> settings.require_approval == Some(
            seq!['t', 'r', 'u', 'e'],
        ),
        settings.approval() == Some(false) <==> settings.require_approval == Some(
            seq!['f', 'a', 'l', 's', 'e'],
        ),
        settings.quota() == match settings.default_quota_bytes {
            Some(text) => i64_value(text),
            None => None,
        },
        settings.lifetime() == settings.minutes(),
        settings.admits_users() <==> {
            &&& settings.approval() is Some
            &&& settings.default_quota_bytes is Some
            &&& i64_value(settings.default_quota_bytes->0) is Some
        },
{
    reveal_strlit("true");
    reveal_strlit("false");
    assert("true"@ =~= seq!['t', 'r', 'u', 'e']);
    assert("false"@ =~= seq!['f', 'a', 'l', 's', 'e']);
    assert("true"@.len() != "false"@.len());
}

/// A number that stands in a setting is taken as it is.
pub proof fn numbers_in_settings_are_taken_as_they_are(settings: Settings<Text>, n: i64)
    ensures
        settings.default_quota_bytes == Some(decimal(n as int)) ==> settings.quota() == Some(n),
        settings.default_file_lifetime_mins == Some(decimal(n as int)) ==> settings.lifetime()
            == Some(n),
{
    decimal_reads_back(n as int);
}

/// A truth value is read from the two words for it, and from nothing else.
pub proof fn truth_values_are_read_from_two_words(s: Text)
    ensures
        bool_value(s) == Some(true) <==> s == seq!['t', 'r', 'u', 'e'],
        bool_value(s) == Some(false) <==> s == seq!['f', 'a', 'l', 's', 'e'],
{
    reveal_strlit("true");
    reveal_strlit("false");
    assert("true"@ =~= seq!['t', 'r', 'u', 'e']);
    assert("false"@ =~= seq!['f', 'a', 'l', 's', 'e']);
    assert("true"@.len() != "false"@.len());
}

/// A number is written with as many digits as it needs: the number of the digits
/// goes up by one where it is multiplied by ten, and the last digit is what is
/// left over from the tens.
pub proof fn numbers_are_written_digit_by_digit(n: nat)
    ensures
        n < 10 ==> decimal(n as int).len() == 1,
        n >= 10 ==> decimal(n as int).drop_last() == decimal((n / 10) as int),
        decimal(n as int).last() as int == '0' as int + n % 10,
        n > 0 ==> decimal(-n) == seq!['-'] + decimal(n as int),
{
    if n >= 10 {
        assert(decimal(n as int).drop_last() =~= digits(n / 10));
    }
}

/// A number is read digit by digit: with one more digit it is ten times as large,
/// and the digit is added. A minus sign turns it round, a plus sign does not
/// matter, and nothing is read from a text that has anything else in it.
pub proof fn numbers_are_read_digit_by_digit(s: Text, c: char)
    requires
        s.len() > 0,
        all_digits(s),
        '0' <= c <= '9',
    ensures
        signed_value(s) is Some,
        signed_value(s.push(c)) == Some(10 * signed_value(s)->0 + (c as int - '0' as int)),
        signed_value(seq!['-'] + s) == Some(-signed_value(s)->0),
        signed_value(seq!['+'] + s) == signed_value(s),
        signed_value(seq![c]) == Some(c as int - '0' as int),
{
    assert(s.push(c).drop_last() =~= s);
    assert((seq!['-'] + s).skip(1) =~= s);
    assert((seq!['+'] + s).skip(1) =~= s);
    assert('0' <= s[0] <= '9');
    assert(s.push(c)[0] == s[0]);
    assert(all_digits(s.push(c)));
    assert(all_digits(seq![c]));
    assert(seq![c].drop_last() =~= Seq::<char>::empty());
    reveal_with_fuel(digits_value, 3);
}

/// A number is read from a text of digits, with at most one sign in front, and
/// from nothing else; an `i64` is read exactly where it can hold the number.
pub proof fn numbers_are_read_from_digits_only(s: Text)
    ensures
        signed_value(s) is Some ==> s.len() > 0 && forall|i: int|
            0 < i < s.len() ==> '0' <= #[trigger] s[i] <= '9',
        signed_value(s) is Some ==> '0' <= s[0] <= '9' || s.len() > 1 && (s[0] == '+' || s[0]
            == '-'),
        s.len() > 0 && all_digits(s) ==> signed_value(s) is Some,
        i64_value(s) is Some <==> signed_value(s) is Some && i64::MIN <= signed_value(s)->0
            <= i64::MAX,
        i64_value(s) is Some ==> i64_value(s)->0 == signed_value(s)->0,
{
    if signed_value(s) is Some {
        assert forall|i: int| 0 < i < s.len() implies '0' <= #[trigger] s[i] <= '9' by {
            if s[0] == '+' || s[0] == '-' {
                assert(s.skip(1)[i - 1] == s[i]);
                assert(is_digit(s.skip(1)[i - 1]));
            } else {
                assert(is_digit(s[i]));
            }
        }
        if s[0] != '+' && s[0] != '-' {
            assert(is_digit(s[0]));
        }
    }
    if s.len() > 0 && all_digits(s) {
        assert(is_digit(s[0]));
    }
}

/// Each kind of reply is read as it is, and no other kind is taken for it: an
/// error stays the error that it is, and a reply that is not due is a failure.
pub proof fn replies_are_read_as_they_are(reply: ReplyModel)
    ensures
        reply.error() == StoreError::NotFound <==> reply == Reply::<
            Text,
            Seq<Text>,
            Seq<TransferRecordWithFileMetadata<Text>>,
            Seq<Authenticator<Text>>,
            Seq<TransferRecord<Text>>,
        >::Failed(StoreError::NotFound),
        reply matches Reply::User(row) ==> reply.user() == Ok::<_, StoreError>(row),
        reply !is User ==> reply.user() == Err::<User<Text>, _>(reply.error()),
        reply matches Reply::Usernames(names) ==> reply.usernames() == Ok::<_, StoreError>(names),
        reply !is Usernames ==> reply.usernames() is Err && reply.usernames()->Err_0
            == reply.error(),
        reply matches Reply::Total(total) ==> reply.total() == Ok::<_, StoreError>(total),
        reply !is Total ==> reply.total() is Err && reply.total()->Err_0 == reply.error(),
        reply matches Reply::RecordsWithFiles(items) ==> reply.items() == Ok::<_, StoreError>(
            items,
        ),
        reply !is RecordsWithFiles ==> reply.items() is Err && reply.items()->Err_0
            == reply.error(),
        reply matches Reply::Record(row) ==> reply.record() == Ok::<_, StoreError>(row),
        reply !is Record ==> reply.record() is Err && reply.record()->Err_0 == reply.error(),
        reply matches Reply::File(row) ==> reply.file() == Ok::<_, StoreError>(row),
        reply !is File ==> reply.file() is Err && reply.file()->Err_0 == reply.error(),
        reply matches Reply::Count(count) ==> reply.count() == Ok::<_, StoreError>(count),
        reply !is Count ==> reply.count() is Err && reply.count()->Err_0 == reply.error(),
        reply matches Reply::Authenticators(rows) ==> reply.authenticators() == Ok::<
            _,
            StoreError,
        >(rows),
        reply !is Authenticators ==> reply.authenticators() is Err
            && reply.authenticators()->Err_0 == reply.error(),
        reply matches Reply::Records(rows) ==> reply.records() == Ok::<_, StoreError>(rows),
        reply !is Records ==> reply.records() is Err && reply.records()->Err_0 == reply.error(),
        reply is Executed <==> reply.executed() is Ok,
        reply !is Executed ==> reply.executed()->Err_0 == reply.error(),
{
}

/// An event that is a reply is read as that reply, and any other as a failure.
pub proof fn events_are_read_as_they_are(event: EventModel)
    ensures
        event matches Event::Reply(reply) ==> event.reply() == reply,
        event !is Reply ==> event.reply() matches Reply::Failed(StoreError::Failed),
{
}

/// That there is no user with a name is told apart from a failure, wherever a
/// user is asked for.
pub proof fn unknown_users_are_told_apart(reply: ReplyModel, username: Text)
    ensures
        reply matches Reply::User(row) ==> {
            &&& found_user(reply) == Ok::<_, StoreError>(Some(row))
            &&& known_user(reply, username) == Ok::<_, Refusal<Text>>(row)
            &&& looked_up(reply) == Ok::<_, Refusal<Text>>(
                Response { status: 200, body: row.public_key },
            )
        },
        reply matches Reply::Failed(StoreError::NotFound) ==> {
            &&& found_user(reply) == Ok::<Option<User<Text>>, StoreError>(None)
            &&& known_user(reply, username) == Err::<User<Text>, _>(
                Refusal::Answer(
                    Response { status: 400, body: "User "@ + username + " does not exist"@ },
                ),
            )
            &&& looked_up(reply) == Ok::<_, Refusal<Text>>(
                Response { status: 400, body: "User does not exist"@ },
            )
        },
        reply !is User && !(reply matches Reply::Failed(StoreError::NotFound)) ==> {
            &&& found_user(reply) == Err::<Option<User<Text>>, _>(StoreError::Failed)
            &&& known_user(reply, username) == Err::<User<Text>, _>(server_error())
            &&& looked_up(reply) == Err::<Response<Text>, _>(server_error())
        },
{
}

/// A file has no references exactly where their number is zero.
pub proof fn references_are_counted(reply: ReplyModel)
    ensures
        reply matches Reply::Count(count) ==> unreferenced(reply) == Ok::<_, StoreError>(
            count == 0,
        ),
        reply !is Count ==> unreferenced(reply) is Err,
{
}

/// The bytes in use are the sum that is replied, or none where there is no sum.
pub proof fn bytes_in_use_are_the_sum(reply: ReplyModel)
    ensures
        reply matches Reply::Total(None) ==> used_quota(reply) == Ok::<u64, StoreError>(0),
        reply matches Reply::Total(Some(sum)) ==> {
            &&& used_quota(reply) is Ok <==> 0 <= sum <= u64::MAX
            &&& used_quota(reply) is Ok ==> used_quota(reply)->Ok_0 == sum
        },
        reply !is Total ==> used_quota(reply) is Err,
{
}

/// A new file is let through exactly where its size and the sum of the sizes are
/// no more than the quota.
pub proof fn quotas_are_kept(reply: ReplyModel, quota: i64, new_file_size: u64)
    ensures
        ({
            let verdict = quota_verdict(reply, quota, new_file_size);
            let refusal = Refusal::Answer(
                Response { status: 403, body: "Transfer quota reached"@ },
            );
            &&& reply matches Reply::Total(total) ==> {
                let sum = if total is Some {
                    total->0 as int
                } else {
                    0
                };
                &&& verdict is Ok <==> 0 <= sum && sum + new_file_size <= most_bytes(quota)
                &&& verdict is Err && 0 <= sum && sum + new_file_size <= u64::MAX ==> verdict
                    == Err::<(), _>(refusal)
                &&& sum < 0 || sum + new_file_size > u64::MAX ==> verdict == Err::<(), _>(
                    server_error(),
                )
            }
            &&& reply !is Total ==> verdict == Err::<(), _>(server_error())
        }),
{
}

/// The answers to what is refused.
pub proof fn refusals_are_answers(status: u16, body: Text)
    ensures
        refused(status, body) == Refusal::Answer(Response { status, body }),
        server_error() == Refusal::Answer(Response { status: 500, body: Seq::<char>::empty() }),
        too_large() == Refusal::Answer(
            Response { status: 400, body: "Size of data exceeds expected size"@ },
        ),
        wrong_length() == Refusal::Answer(
            Response { status: 400, body: "File length does not match expected length"@ },
        ),
        authentication_failed() == Refusal::Answer(
            Response { status: 401, body: "Authentication failed"@ },
        ),
        search_refusal(StoreError::NotFound) == Refusal::Answer(
            Response { status: 400, body: "Invalid download id"@ },
        ),
        search_refusal(StoreError::Failed) == Refusal::Answer(Response { status: 500, body: ""@ }),
{
}

/// A message is found in a signed text exactly where both texts can be decoded,
/// the key has thirty-two bytes, and the signature is one of the key.
pub proof fn messages_are_opened_with_the_key(
    signing_public_key: Text,
    signed: Text,
    message: Seq<u8>,
)
    ensures
        signed_message(signing_public_key, signed) == Some(message) <==> is_signature_of(
            signing_public_key,
            signed,
            message,
        ),
{
}

/// A key that could be decoded opens a message exactly where it has thirty-two
/// bytes.
pub proof fn keys_have_thirty_two_bytes(key: Option<Seq<u8>>, signed: Option<Seq<u8>>)
    ensures
        key is None || signed is None ==> message_in(key, signed) is None,
        key is Some && key->0.len() != 32 ==> message_in(key, signed) is None,
        key is Some && signed is Some && key->0.len() == 32 ==> message_in(key, signed)
            == opened_message(signed->0, key->0),
{
}

/// A signed message is accepted exactly where it is the first or the second
/// authenticator, letter for letter. A message that is neither is refused, and
/// so is the lack of one; a request is abandoned only where there are not two
/// authenticators to compare with.
pub proof fn signed_authenticators_are_accepted(
    message: Option<Seq<u8>>,
    list: Seq<Authenticator<Text>>,
)
    ensures
        message_verdict(message, list) is Ok <==> exists|i: int|
            0 <= i < 2 && i < list.len() && message == Some(
                encode_utf8((#[trigger] list[i]).authenticator),
            ),
        message_verdict(message, list) == Err::<(), Refusal<Text>>(Refusal::Abandon)
            ==> message is Some && list.len() < 2,
        message_verdict(message, list) is Err && (message is None || list.len() >= 2)
            ==> message_verdict(message, list) == Err::<(), _>(
            Refusal::Answer(Response { status: 401, body: "Authentication failed"@ }),
        ),
{
    if message_verdict(message, list) is Ok {
        if message == Some(encode_utf8(list[0].authenticator)) {
            assert(0 <= 0 < list.len());
        } else {
            assert(message == Some(encode_utf8(list[1].authenticator)));
        }
    }
}

/// The authenticator that is handed out is the last of the list.
pub proof fn last_authenticator_is_handed_out(step: UpdateStep)
    ensures
        step matches Progress::Done(list) ==> if list.len() > 0 {
            &&& current_authenticator(step) is Done
            &&& current_authenticator(step)->Done_0.status == 200
            &&& current_authenticator(step)->Done_0.body == list[list.len() - 1].authenticator
        } else {
            current_authenticator(step) is Failed && current_authenticator(step)->Failed_0
                is Abandon
        },
        step is Failed ==> current_authenticator(step) is Failed
            && current_authenticator(step)->Failed_0 == server_error(),
        step matches Progress::Ask(statement, update) ==> {
            &&& current_authenticator(step) is Ask
            &&& current_authenticator(step)->Ask_0 == statement
            &&& current_authenticator(step)->Ask_1 == update
        },
{
}

} // verus!
