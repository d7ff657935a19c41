//! The rows of the database.
//!
//! Each type is written over the type of its texts: `String` in the program,
//! and `Text`, their characters, in contracts.

use crate::text::Text;
use crate::time::Timestamp;
use vstd::prelude::*;

verus! {

/// A registered user.
#[derive(Debug, Clone, PartialEq)]
pub struct User<S = String> {
    pub id: S,
    pub username: S,
    pub public_key: S,
    pub signing_public_key: S,
    /// The number of transfers that were ever sent to the user.
    pub transfer_count: i32,
    /// The number of bytes that the user may keep on the server.
    pub transfer_quota: i64,
    pub date_registered: Timestamp,
    /// Whether the user may use the server.
    pub approved: bool,
}

impl DeepView for User {
    type V = User<Text>;

    open spec fn deep_view(&self) -> User<Text> {
        User {
            id: self.id@,
            username: self.username@,
            public_key: self.public_key@,
            signing_public_key: self.signing_public_key@,
            transfer_count: self.transfer_count,
            transfer_quota: self.transfer_quota,
            date_registered: self.date_registered,
            approved: self.approved,
        }
    }
}

/// A random text that users sign to show who they are.
#[derive(Debug, Clone, PartialEq)]
pub struct Authenticator<S = String> {
    pub id: S,
    pub authenticator: S,
    pub expiration_date: Timestamp,
}

impl DeepView for Authenticator {
    type V = Authenticator<Text>;

    open spec fn deep_view(&self) -> Authenticator<Text> {
        Authenticator {
            id: self.id@,
            authenticator: self.authenticator@,
            expiration_date: self.expiration_date,
        }
    }
}

/// One file on its way to one recipient.
#[derive(Debug, Clone, PartialEq)]
pub struct TransferRecord<S = String> {
    pub id: S,
    /// The number by which the recipient asks for the file.
    pub download_id: S,
    pub sender: S,
    pub recipient: S,
    pub shared_key: S,
    pub shared_header: S,
    pub shared_nonce: S,
    pub file_id: S,
    pub date_created: Timestamp,
    pub expires_on: Timestamp,
}

impl DeepView for TransferRecord {
    type V = TransferRecord<Text>;

    open spec fn deep_view(&self) -> TransferRecord<Text> {
        TransferRecord {
            id: self.id@,
            download_id: self.download_id@,
            sender: self.sender@,
            recipient: self.recipient@,
            shared_key: self.shared_key@,
            shared_header: self.shared_header@,
            shared_nonce: self.shared_nonce@,
            file_id: self.file_id@,
            date_created: self.date_created,
            expires_on: self.expires_on,
        }
    }
}

/// A stored file.
#[derive(Debug, Clone, PartialEq)]
pub struct FileMetadataItem<S = String> {
    pub id: S,
    pub uploader: S,
    pub file_name: S,
    /// The name of the file in the storage directory.
    pub file_url: S,
    pub file_size: i64,
    pub date_created: Timestamp,
}

impl DeepView for FileMetadataItem {
    type V = FileMetadataItem<Text>;

    open spec fn deep_view(&self) -> FileMetadataItem<Text> {
        FileMetadataItem {
            id: self.id@,
            uploader: self.uploader@,
            file_name: self.file_name@,
            file_url: self.file_url@,
            file_size: self.file_size,
            date_created: self.date_created,
        }
    }
}

/// What a recipient is shown of a transfer: the record, the name of its sender,
/// and the name and size of its file.
#[derive(Debug, Clone, PartialEq)]
pub struct TransferRecordWithFileMetadata<S = String> {
    pub download_id: S,
    pub sender: S,
    pub shared_key: S,
    pub shared_header: S,
    pub shared_nonce: S,
    pub date_created: Timestamp,
    pub file_name: S,
    pub file_size: i64,
}

impl DeepView for TransferRecordWithFileMetadata {
    type V = TransferRecordWithFileMetadata<Text>;

    open spec fn deep_view(&self) -> TransferRecordWithFileMetadata<Text> {
        TransferRecordWithFileMetadata {
            download_id: self.download_id@,
            sender: self.sender@,
            shared_key: self.shared_key@,
            shared_header: self.shared_header@,
            shared_nonce: self.shared_nonce@,
            date_created: self.date_created,
            file_name: self.file_name@,
            file_size: self.file_size,
        }
    }
}

} // verus!
