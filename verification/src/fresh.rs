//! What a step takes from chance and from the clock.

use crate::text::Text;
use crate::time::{generate_timestamp, now, Timestamp};
use rand::distributions::{Alphanumeric, DistString};
use rand::thread_rng;
use uuid::Uuid;
use vstd::prelude::*;

verus! {

/// The number of characters of an authenticator.
pub const AUTHENTICATOR_LEN: usize = 16;

/// Whether `c` is a lower-case hexadecimal digit.
pub open spec fn is_hex(c: char) -> bool {
    '0' <= c <= '9' || 'a' <= c <= 'f'
}

/// Whether `s` is a random identifier: hexadecimal digits in groups of eight,
/// four, four, four and twelve, which carry the version and the variant.
pub open spec fn is_random_id(s: Text) -> bool {
    &&& s.len() == 36
    &&& forall|i: int|
        0 <= i < 36 ==> if i == 8 || i == 13 || i == 18 || i == 23 {
            #[trigger] s[i] == '-'
        } else {
            is_hex(s[i])
        }
    &&& s[14] == '4'
    &&& (s[19] == '8' || s[19] == '9' || s[19] == 'a' || s[19] == 'b')
}

/// Whether `c` is an ASCII letter or digit.
pub open spec fn is_alphanumeric(c: char) -> bool {
    'a' <= c <= 'z' || 'A' <= c <= 'Z' || '0' <= c <= '9'
}

/// Calls `Uuid::new_v4`, and writes the identifier in lower-case hyphenated
/// form.
///
/// Sixteen random bytes with the version and variant bits set: nothing but the
/// form is known of the result.
#[verifier::external_body]
pub(crate) fn new_id() -> (r: String)
    ensures
        is_random_id(r@),
{
    Uuid::new_v4().to_string()
}

/// Calls `Alphanumeric::sample_string` with the thread's random generator.
///
/// The result has `len` characters, each an ASCII letter or digit: nothing more
/// is known of it.
#[verifier::external_body]
fn random_alphanumeric(len: usize) -> (r: String)
    requires
        len <= AUTHENTICATOR_LEN,
    ensures
        r@.len() == len,
        forall|i: int| 0 <= i < len ==> is_alphanumeric(#[trigger] r@[i]),
{
    Alphanumeric.sample_string(&mut thread_rng(), len)
}

/// A new random authenticator.
pub fn generate_authenticator_value() -> (r: String)
    ensures
        r@.len() == AUTHENTICATOR_LEN,
        forall|i: int| 0 <= i < AUTHENTICATOR_LEN ==> is_alphanumeric(#[trigger] r@[i]),
{
    random_alphanumeric(AUTHENTICATOR_LEN)
}

/// What one step of a machine may take from chance and from the clock.
#[derive(Debug, PartialEq)]
pub struct Fresh<S = String> {
    /// A random identifier.
    pub id: S,
    /// A random authenticator.
    pub authenticator: S,
    /// What the clock shows, in whole seconds.
    pub now: Timestamp,
    /// What the clock shows, to the nanosecond.
    pub timestamp: Timestamp,
}

impl DeepView for Fresh {
    type V = Fresh<Text>;

    open spec fn deep_view(&self) -> Fresh<Text> {
        Fresh {
            id: self.id@,
            authenticator: self.authenticator@,
            now: self.now,
            timestamp: self.timestamp,
        }
    }
}

impl Fresh<Text> {
    /// Whether the parts are of the form that `Fresh::draw` gives them.
    pub open spec fn well_formed(self) -> bool {
        &&& is_random_id(self.id)
        &&& self.authenticator.len() == AUTHENTICATOR_LEN
        &&& forall|i: int|
            0 <= i < AUTHENTICATOR_LEN ==> is_alphanumeric(#[trigger] self.authenticator[i])
        &&& self.now.valid() && self.now.nanos == 0
        &&& self.timestamp.valid()
    }
}

impl Fresh {
    /// Draws the parts and reads the clock.
    pub fn draw() -> (r: Fresh)
        ensures
            r.deep_view().well_formed(),
    {
        Fresh {
            id: new_id(),
            authenticator: generate_authenticator_value(),
            now: now(),
            timestamp: generate_timestamp(),
        }
    }
}

} // verus!
