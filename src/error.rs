use vstd::prelude::*;

verus! {

/// Why a request was refused as bad input.
#[derive(Clone, Copy, Debug, PartialEq, Eq)]
pub enum Invalid {
    /// A photographer tried to invite themselves.
    SelfInvitation,
    /// The invited client is not a user.
    UnknownUser,
    /// The album does not exist.
    UnknownAlbum,
    /// The album belongs to another photographer than the one inviting.
    PhotographerMismatch,
    /// An upload named no `album_id`, or one that is not a 32-bit integer.
    AlbumId,
}

/// Every failure a workflow reports.
#[derive(Clone, Debug, PartialEq, Eq)]
pub enum ApiError {
    /// Bad, missing or self-referential input.
    Validation(Invalid),
    /// The requested photo does not exist.
    NotFound,
    /// The password does not match.
    Auth,
    /// A store or the blob store failed; the text is the store's message.
    Internal(String),
}

pub open spec fn status_of(e: ApiError) -> u16 {
    match e {
        ApiError::Validation(_) => 400,
        ApiError::NotFound => 404,
        ApiError::Auth => 401,
        ApiError::Internal(_) => 500,
    }
}

pub open spec fn invalid_message(k: Invalid) -> Seq<char> {
    match k {
        Invalid::SelfInvitation => "Photographer cannot invite themselves"@,
        Invalid::UnknownUser => "User does not exist"@,
        Invalid::UnknownAlbum => "Album does not exist"@,
        Invalid::PhotographerMismatch => "Album belongs to another photographer"@,
        Invalid::AlbumId => "Missing or invalid album_id"@,
    }
}

pub open spec fn message_of(e: ApiError) -> Seq<char> {
    match e {
        ApiError::Validation(k) => invalid_message(k),
        ApiError::NotFound => "Photo not found"@,
        ApiError::Auth => "invalid password"@,
        ApiError::Internal(m) => m@,
    }
}

impl ApiError {
    /// The HTTP status that reports this error.
    pub fn status(&self) -> (r: u16)
        ensures
            r == status_of(*self),
    {
        match self {
            ApiError::Validation(_) => 400,
            ApiError::NotFound => 404,
            ApiError::Auth => 401,
            ApiError::Internal(_) => 500,
        }
    }

    /// The human-readable text that accompanies the status.
    pub fn message(&self) -> (r: String)
        ensures
            r@ == message_of(*self),
    {
        match self {
            ApiError::Validation(k) => match k {
                Invalid::SelfInvitation => String::from_str("Photographer cannot invite themselves"),
                Invalid::UnknownUser => String::from_str("User does not exist"),
                Invalid::UnknownAlbum => String::from_str("Album does not exist"),
                Invalid::PhotographerMismatch => String::from_str("Album belongs to another photographer"),
                Invalid::AlbumId => String::from_str("Missing or invalid album_id"),
            },
            ApiError::NotFound => String::from_str("Photo not found"),
            ApiError::Auth => String::from_str("invalid password"),
            ApiError::Internal(m) => m.clone(),
        }
    }
}

} // verus!
