use vstd::prelude::*;

verus! {

/// A point in time as stored by the relational store: microseconds since the
/// Unix epoch, without a time zone.
#[derive(Clone, Copy, Debug, PartialEq, Eq)]
pub struct Timestamp {
    pub micros: i64,
}

#[derive(Clone, Debug, PartialEq, Eq)]
pub struct User {
    pub user_id: i32,
    pub username: String,
    pub email: String,
    /// Never handed out to clients.
    pub password_hash: String,
    pub created_at: Timestamp,
}

#[derive(Clone, Debug, PartialEq, Eq)]
pub struct Album {
    pub album_id: i32,
    pub photographer_id: i32,
    pub name: String,
    pub created_at: Timestamp,
}

#[derive(Clone, Debug, PartialEq, Eq)]
pub struct Photo {
    pub photo_id: i32,
    pub album_id: i32,
    /// Object key of the photo's bytes in the blob store.
    pub s3_path: String,
    pub uploaded_at: Timestamp,
}

#[derive(Clone, Debug, PartialEq, Eq)]
pub struct Invitation {
    pub invitation_id: i32,
    pub album_id: i32,
    pub client_id: i32,
    pub photographer_id: i32,
    pub invite_token: String,
    pub created_at: Timestamp,
}

/// A client's choice of one photo. The table stores `photo_id`; `album_id` is
/// the album of that photo, as the selection queries project it.
#[derive(Clone, Debug, PartialEq, Eq)]
pub struct PhotoSelection {
    pub selection_id: i32,
    pub photo_id: i32,
    pub album_id: i32,
    pub client_id: i32,
    pub confirmed_at: Timestamp,
}

#[derive(Clone, Debug, PartialEq, Eq)]
pub struct Notification {
    pub notification_id: i32,
    pub recipient_id: i32,
    pub message: String,
    pub is_read: bool,
    pub created_at: Timestamp,
}

#[derive(Clone, Debug, PartialEq, Eq)]
pub struct CreateAlbumRequest {
    pub photographer_id: i32,
    pub name: String,
}

#[derive(Clone, Copy, Debug, PartialEq, Eq)]
pub struct GetAlbumsCreatedQuery {
    pub photographer_id: i32,
}

#[derive(Clone, Copy, Debug, PartialEq, Eq)]
pub struct InvitationRequest {
    pub client_id: i32,
    pub album_id: i32,
    pub photographer_id: i32,
}

#[derive(Clone, Copy, Debug, PartialEq, Eq)]
pub struct GetInvitationsByUserIdRequest {
    pub client_id: i32,
}

#[derive(Clone, Copy, Debug, PartialEq, Eq)]
pub struct GetAlbumsInvitedToRequest {
    pub client_id: i32,
}

#[derive(Clone, Copy, Debug, PartialEq, Eq)]
pub struct GetPhotoByIdRequest {
    pub photo_id: i32,
}

#[derive(Clone, Copy, Debug, PartialEq, Eq)]
pub struct GetPhotosByAlbumIdRequest {
    pub album_id: i32,
}

#[derive(Clone, Debug, PartialEq, Eq)]
pub struct SelectionsRequest {
    pub client_id: i32,
    pub album_id: i32,
    pub photo_ids: Vec<i32>,
}

#[derive(Clone, Copy, Debug, PartialEq, Eq)]
pub struct SelectionsQuery {
    pub client_id: i32,
    pub album_id: i32,
}

#[derive(Clone, Debug, PartialEq, Eq)]
pub struct SignUp {
    pub username: String,
    pub email: String,
    pub password: String,
}

#[derive(Clone, Debug, PartialEq, Eq)]
pub struct Login {
    pub email: String,
    pub password: String,
}

#[derive(Clone, Debug, PartialEq, Eq)]
pub struct GetUserByEmailRequest {
    pub email: String,
}

} // verus!
