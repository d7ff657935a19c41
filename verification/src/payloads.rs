//! What the clients send.

use crate::text::Text;
use vstd::prelude::*;

verus! {

/// What stands in front of an uploaded file.
#[derive(Debug, PartialEq)]
pub struct TransferRequestMetadataPayload<S = String, Texts = Vec<String>> {
    pub sender: S,
    pub recipients: Texts,
    pub name: S,
    /// One key for each recipient.
    pub shared_keys: Texts,
    pub shared_header: S,
    pub shared_nonce: S,
    pub data_len: u64,
    pub signed_authenticator: S,
}

/// The model of what stands in front of an uploaded file.
pub type MetadataModel = TransferRequestMetadataPayload<Text, Seq<Text>>;

impl DeepView for TransferRequestMetadataPayload {
    type V = MetadataModel;

    open spec fn deep_view(&self) -> MetadataModel {
        TransferRequestMetadataPayload {
            sender: self.sender@,
            recipients: self.recipients.deep_view(),
            name: self.name@,
            shared_keys: self.shared_keys.deep_view(),
            shared_header: self.shared_header@,
            shared_nonce: self.shared_nonce@,
            data_len: self.data_len,
            signed_authenticator: self.signed_authenticator@,
        }
    }
}

/// A request for a file.
#[derive(Debug, PartialEq)]
pub struct DownloadRequestPayload<S = String> {
    pub username: S,
    pub download_id: S,
    pub signed_authenticator: S,
}

impl DeepView for DownloadRequestPayload {
    type V = DownloadRequestPayload<Text>;

    open spec fn deep_view(&self) -> DownloadRequestPayload<Text> {
        DownloadRequestPayload {
            username: self.username@,
            download_id: self.download_id@,
            signed_authenticator: self.signed_authenticator@,
        }
    }
}

/// A request to register.
#[derive(Debug, PartialEq)]
pub struct RegisterRequestPayload<S = String> {
    pub username: S,
    pub public_key: S,
    pub signing_public_key: S,
}

impl DeepView for RegisterRequestPayload {
    type V = RegisterRequestPayload<Text>;

    open spec fn deep_view(&self) -> RegisterRequestPayload<Text> {
        RegisterRequestPayload {
            username: self.username@,
            public_key: self.public_key@,
            signing_public_key: self.signing_public_key@,
        }
    }
}

/// A request for a user's public key.
#[derive(Debug, PartialEq)]
pub struct LookupRequestPayload<S = String> {
    pub username: S,
}

impl DeepView for LookupRequestPayload {
    type V = LookupRequestPayload<Text>;

    open spec fn deep_view(&self) -> LookupRequestPayload<Text> {
        LookupRequestPayload { username: self.username@ }
    }
}

/// A request for the transfers to a user.
#[derive(Debug, PartialEq)]
pub struct InboxRequestPayload<S = String> {
    pub username: S,
    pub signed_authenticator: S,
}

impl DeepView for InboxRequestPayload {
    type V = InboxRequestPayload<Text>;

    open spec fn deep_view(&self) -> InboxRequestPayload<Text> {
        InboxRequestPayload {
            username: self.username@,
            signed_authenticator: self.signed_authenticator@,
        }
    }
}

/// A request for the names of all users.
#[derive(Debug, PartialEq)]
pub struct ListUsersRequestPayload<S = String> {
    pub username: S,
    pub signed_authenticator: S,
}

impl DeepView for ListUsersRequestPayload {
    type V = ListUsersRequestPayload<Text>;

    open spec fn deep_view(&self) -> ListUsersRequestPayload<Text> {
        ListUsersRequestPayload {
            username: self.username@,
            signed_authenticator: self.signed_authenticator@,
        }
    }
}

} // verus!
