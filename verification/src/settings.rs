//! What the server's environment sets.

use crate::text::{bool_value, i64_value, parse_bool, parse_i64, Text};
use vstd::prelude::*;

verus! {

/// The settings, as they stand in the environment. A setting may be absent.
#[derive(Debug, PartialEq)]
pub struct Settings<S = String> {
    /// `STORAGE_DIR`: where uploaded files are stored.
    pub storage_dir: Option<S>,
    /// `REQUIRE_APPROVAL`: whether a new user has to be approved by hand.
    pub require_approval: Option<S>,
    /// `DEFAULT_FILE_LIFETIME_MINS`: how many minutes a transfer lives.
    pub default_file_lifetime_mins: Option<S>,
    /// `DEFAULT_QUOTA_BYTES`: how many bytes a new user may keep on the server.
    pub default_quota_bytes: Option<S>,
}

impl DeepView for Settings {
    type V = Settings<Text>;

    open spec fn deep_view(&self) -> Settings<Text> {
        Settings {
            storage_dir: self.storage_dir.deep_view(),
            require_approval: self.require_approval.deep_view(),
            default_file_lifetime_mins: self.default_file_lifetime_mins.deep_view(),
            default_quota_bytes: self.default_quota_bytes.deep_view(),
        }
    }
}

impl Settings<Text> {
    /// Whether a new user has to be approved; nothing where the setting is
    /// absent or is neither `true` nor `false`.
    pub open spec fn approval(self) -> Option<bool> {
        match self.require_approval {
            Some(s) => bool_value(s),
            None => None,
        }
    }

    /// The quota of a new user; nothing where the setting is absent or no
    /// number.
    pub open spec fn quota(self) -> Option<i64> {
        match self.default_quota_bytes {
            Some(s) => i64_value(s),
            None => None,
        }
    }

    /// Whether the settings say what a new user needs.
    pub open spec fn admits_users(self) -> bool {
        self.approval() is Some && self.quota() is Some
    }

    /// The minutes that a transfer lives; nothing where the setting is absent
    /// or no number.
    pub open spec fn lifetime(self) -> Option<i64> {
        match self.default_file_lifetime_mins {
            Some(s) => i64_value(s),
            None => None,
        }
    }
}

impl Settings {
    /// Whether a new user has to be approved, where the setting can be read.
    pub fn approval_required(&self) -> (r: Option<bool>)
        ensures
            r == self.deep_view().approval(),
    {
        match &self.require_approval {
            Some(s) => parse_bool(s.as_str()),
            None => None,
        }
    }

    /// The quota of a new user, where the setting can be read.
    pub fn quota_bytes(&self) -> (r: Option<i64>)
        ensures
            r == self.deep_view().quota(),
    {
        match &self.default_quota_bytes {
            Some(s) => parse_i64(s.as_str()),
            None => None,
        }
    }

    /// Whether the settings say what a new user needs.
    pub fn admit_users(&self) -> (r: bool)
        ensures
            r == self.deep_view().admits_users(),
    {
        self.approval_required().is_some() && self.quota_bytes().is_some()
    }

    /// The minutes that a transfer lives, where the setting can be read.
    pub fn lifetime_mins(&self) -> (r: Option<i64>)
        ensures
            r == self.deep_view().lifetime(),
    {
        match &self.default_file_lifetime_mins {
            Some(s) => parse_i64(s.as_str()),
            None => None,
        }
    }
}

} // verus!
