use vstd::prelude::*;
use crate::error::ApiError;
use crate::models::{Album, Invitation, Photo, PhotoSelection, Timestamp, User};

verus! {

/// The bucket that holds every photo's bytes.
pub open spec fn photo_bucket() -> Seq<char> {
    "photos"@
}

/// One operation on the relational store, as a workflow asks for it.
#[derive(Clone, Debug, PartialEq, Eq)]
pub enum StoreOp {
    /// Insert an album and return the stored row.
    InsertAlbum { photographer_id: i32, name: String },
    /// All albums owned by a photographer.
    AlbumsCreatedBy { photographer_id: i32 },
    /// Whether a user with this id exists.
    FindUser { user_id: i32 },
    /// The album with this id, if any.
    FindAlbum { album_id: i32 },
    /// Insert an invitation; the store assigns id, token and time.
    InsertInvitation { client_id: i32, album_id: i32, photographer_id: i32 },
    /// All invitations of a client.
    InvitationsOf { client_id: i32 },
    /// Every album that some invitation of the client names, each once.
    AlbumsInvitedTo { client_id: i32 },
    /// Insert one selection of a photo by a client.
    InsertSelection { photo_id: i32, client_id: i32 },
    /// The client's selections of photos of an album.
    SelectionsOf { client_id: i32, album_id: i32 },
    /// The photos of an album that the client selected.
    SelectedPhotos { client_id: i32, album_id: i32 },
    /// Insert a photo row and return the stored row.
    InsertPhoto { album_id: i32, s3_path: String },
    /// The photo with this id, if any.
    FindPhoto { photo_id: i32 },
    /// All photos of an album.
    PhotosInAlbum { album_id: i32 },
    /// Insert a user.
    InsertUser { username: String, email: String, password_hash: String },
    /// The user with this email.
    FindUserByEmail { email: String },
}

/// One operation on the blob store.
#[derive(Clone, Debug, PartialEq, Eq)]
pub enum BlobOp {
    BucketExists { bucket: String },
    MakeBucket { bucket: String },
    Put { bucket: String, key: String, data: Vec<u8> },
    Get { bucket: String, key: String },
}

/// What a workflow asks its caller to do next.
#[derive(Debug, PartialEq, Eq)]
pub enum Action<T> {
    Store(StoreOp),
    Blob(BlobOp),
    /// Read the next part of the inbound form, or report that none is left.
    NextPart,
    /// The workflow is over, with this outcome.
    Finish(Result<T, ApiError>),
}

/// The caller's answer to an operation.
#[derive(Clone, Debug, PartialEq, Eq)]
pub enum Reply {
    /// The store or blob store failed with this message.
    Failed(String),
    /// A write that returns no row went through.
    Done,
    /// Whether the looked-up row or bucket exists.
    Exists(bool),
    AlbumRow(Option<Album>),
    PhotoRow(Option<Photo>),
    UserRow(Option<User>),
    /// The object key under which the blob store stored a put.
    Stored(String),
    /// The bytes of a fetched object.
    Bytes(Vec<u8>),
}

/// Whether `r` is a well-formed answer to the store operation `op`.
pub open spec fn answers_store(op: StoreOp, r: Reply) -> bool {
    match r {
        Reply::Failed(_) => true,
        Reply::Done => op is InsertInvitation || op is InsertSelection || op is InsertUser,
        Reply::Exists(_) => op is FindUser,
        Reply::AlbumRow(a) => match op {
            StoreOp::FindAlbum { .. } => true,
            StoreOp::InsertAlbum { photographer_id, name } => a matches Some(row)
                && row.photographer_id == photographer_id && row.name == name,
            _ => false,
        },
        Reply::PhotoRow(p) => match op {
            StoreOp::FindPhoto { .. } => true,
            StoreOp::InsertPhoto { album_id, s3_path } => p matches Some(row) && row.album_id
                == album_id && row.s3_path == s3_path,
            _ => false,
        },
        Reply::UserRow(_) => op is FindUserByEmail,
        _ => false,
    }
}

/// Whether `r` is a well-formed answer to the blob operation `op`.
pub open spec fn answers_blob(op: BlobOp, r: Reply) -> bool {
    match r {
        Reply::Failed(_) => true,
        Reply::Exists(_) => op is BucketExists,
        Reply::Done => op is MakeBucket,
        Reply::Stored(_) => op is Put,
        Reply::Bytes(_) => op is Get,
        _ => false,
    }
}

/// A selection as the store's table holds it.
#[derive(Clone, Debug, PartialEq, Eq)]
pub struct SelectionRow {
    pub selection_id: i32,
    pub photo_id: i32,
    pub client_id: i32,
    pub confirmed_at: Timestamp,
}

/// The content of both stores, as the operations see it.
pub struct StoreModel {
    pub users: Seq<User>,
    pub albums: Seq<Album>,
    pub photos: Seq<Photo>,
    pub invitations: Seq<Invitation>,
    pub selections: Seq<SelectionRow>,
    pub buckets: Set<Seq<char>>,
    /// Object bytes by bucket and key.
    pub blobs: Map<(Seq<char>, Seq<char>), Seq<u8>>,
}

pub open spec fn albums_created_by(db: StoreModel, photographer_id: i32) -> Seq<Album> {
    db.albums.filter(|a: Album| a.photographer_id == photographer_id)
}

pub open spec fn is_invited(db: StoreModel, client_id: i32, album_id: i32) -> bool {
    exists|k: int|
        0 <= k < db.invitations.len() && #[trigger] db.invitations[k].client_id == client_id
            && db.invitations[k].album_id == album_id
}

/// A semi-join: each album once, however many invitations name it.
pub open spec fn albums_invited_to(db: StoreModel, client_id: i32) -> Seq<Album> {
    db.albums.filter(|a: Album| is_invited(db, client_id, a.album_id))
}

pub open spec fn has_selected(db: StoreModel, client_id: i32, photo_id: i32) -> bool {
    exists|k: int|
        0 <= k < db.selections.len() && #[trigger] db.selections[k].client_id == client_id
            && db.selections[k].photo_id == photo_id
}

pub open spec fn selected_photos(db: StoreModel, client_id: i32, album_id: i32) -> Seq<Photo> {
    db.photos.filter(
        |p: Photo| p.album_id == album_id && has_selected(db, client_id, p.photo_id),
    )
}

/// The photo row with this id, if any.
pub open spec fn find_photo(db: StoreModel, photo_id: i32) -> Option<Photo> {
    if exists|k: int| 0 <= k < db.photos.len() && #[trigger] db.photos[k].photo_id == photo_id {
        let k = choose|k: int| 0 <= k < db.photos.len() && #[trigger] db.photos[k].photo_id == photo_id;
        Some(db.photos[k])
    } else {
        None
    }
}

/// The album row with this id, if any.
pub open spec fn find_album(db: StoreModel, album_id: i32) -> Option<Album> {
    if exists|k: int| 0 <= k < db.albums.len() && #[trigger] db.albums[k].album_id == album_id {
        let k = choose|k: int| 0 <= k < db.albums.len() && #[trigger] db.albums[k].album_id == album_id;
        Some(db.albums[k])
    } else {
        None
    }
}

/// The user row with this email, if any; emails are unique.
pub open spec fn find_user_by_email(db: StoreModel, email: Seq<char>) -> Option<User> {
    if exists|k: int| 0 <= k < db.users.len() && #[trigger] db.users[k].email@ == email {
        let k = choose|k: int| 0 <= k < db.users.len() && #[trigger] db.users[k].email@ == email;
        Some(db.users[k])
    } else {
        None
    }
}

pub open spec fn user_exists(db: StoreModel, user_id: i32) -> bool {
    exists|k: int| 0 <= k < db.users.len() && #[trigger] db.users[k].user_id == user_id
}

pub open spec fn invitations_of(db: StoreModel, client_id: i32) -> Seq<Invitation> {
    db.invitations.filter(|i: Invitation| i.client_id == client_id)
}

pub open spec fn photos_in_album(db: StoreModel, album_id: i32) -> Seq<Photo> {
    db.photos.filter(|p: Photo| p.album_id == album_id)
}

pub open spec fn photo_in_album(db: StoreModel, photo_id: i32, album_id: i32) -> bool {
    exists|k: int|
        0 <= k < db.photos.len() && #[trigger] db.photos[k].photo_id == photo_id
            && db.photos[k].album_id == album_id
}

/// A client's selections of photos of an album, each tagged with that album.
pub open spec fn selections_of(db: StoreModel, client_id: i32, album_id: i32) -> Seq<
    PhotoSelection,
> {
    db.selections.filter(
        |s: SelectionRow| s.client_id == client_id && photo_in_album(db, s.photo_id, album_id),
    ).map_values(
        |s: SelectionRow|
            PhotoSelection {
                selection_id: s.selection_id,
                photo_id: s.photo_id,
                album_id,
                client_id: s.client_id,
                confirmed_at: s.confirmed_at,
            },
    )
}

/// What a read query answers over the store's content.
pub enum Answer {
    Albums(Seq<Album>),
    Invitations(Seq<Invitation>),
    Selections(Seq<PhotoSelection>),
    Photos(Seq<Photo>),
    AlbumRow(Option<Album>),
    PhotoRow(Option<Photo>),
    UserRow(Option<User>),
    Exists(bool),
}

/// The answer of the read query `op` on `db`; `None` for a write.
pub open spec fn read_answer(db: StoreModel, op: StoreOp) -> Option<Answer> {
    match op {
        StoreOp::AlbumsCreatedBy { photographer_id } => Some(
            Answer::Albums(albums_created_by(db, photographer_id)),
        ),
        StoreOp::FindUser { user_id } => Some(Answer::Exists(user_exists(db, user_id))),
        StoreOp::FindAlbum { album_id } => Some(Answer::AlbumRow(find_album(db, album_id))),
        StoreOp::InvitationsOf { client_id } => Some(
            Answer::Invitations(invitations_of(db, client_id)),
        ),
        StoreOp::AlbumsInvitedTo { client_id } => Some(
            Answer::Albums(albums_invited_to(db, client_id)),
        ),
        StoreOp::SelectionsOf { client_id, album_id } => Some(
            Answer::Selections(selections_of(db, client_id, album_id)),
        ),
        StoreOp::SelectedPhotos { client_id, album_id } => Some(
            Answer::Photos(selected_photos(db, client_id, album_id)),
        ),
        StoreOp::FindPhoto { photo_id } => Some(Answer::PhotoRow(find_photo(db, photo_id))),
        StoreOp::PhotosInAlbum { album_id } => Some(Answer::Photos(photos_in_album(db, album_id))),
        StoreOp::FindUserByEmail { email } => Some(
            Answer::UserRow(find_user_by_email(db, email@)),
        ),
        _ => None,
    }
}

/// The bytes stored under `key` in `bucket`, if any.
pub open spec fn blob_object(db: StoreModel, bucket: Seq<char>, key: Seq<char>) -> Option<Seq<u8>> {
    if db.blobs.contains_key((bucket, key)) {
        Some(db.blobs[(bucket, key)])
    } else {
        None
    }
}

/// `db2` is what the store holds after `op` was performed on `db`. The store
/// assigns ids and times, so an insert leaves those open.
pub open spec fn store_applied(db: StoreModel, op: StoreOp, db2: StoreModel) -> bool {
    match op {
        StoreOp::InsertAlbum { photographer_id, name } => exists|a: Album|
            a.photographer_id == photographer_id && a.name == name
                && #[trigger] db2.albums == db.albums.push(a)
                && db2 == (StoreModel { albums: db.albums.push(a), ..db }),
        StoreOp::InsertInvitation { client_id, album_id, photographer_id } => exists|i: Invitation|
            i.client_id == client_id && i.album_id == album_id && i.photographer_id
                == photographer_id && #[trigger] db2.invitations == db.invitations.push(i)
                && db2 == (StoreModel { invitations: db.invitations.push(i), ..db }),
        StoreOp::InsertSelection { photo_id, client_id } => exists|s: SelectionRow|
            s.photo_id == photo_id && s.client_id == client_id
                && #[trigger] db2.selections == db.selections.push(s)
                && db2 == (StoreModel { selections: db.selections.push(s), ..db }),
        StoreOp::InsertPhoto { album_id, s3_path } => exists|p: Photo|
            p.album_id == album_id && p.s3_path == s3_path
                && #[trigger] db2.photos == db.photos.push(p)
                && db2 == (StoreModel { photos: db.photos.push(p), ..db }),
        StoreOp::InsertUser { username, email, password_hash } => exists|u: User|
            u.username == username && u.email == email && u.password_hash == password_hash
                && #[trigger] db2.users == db.users.push(u)
                && db2 == (StoreModel { users: db.users.push(u), ..db }),
        _ => db2 == db,
    }
}

/// `db2` is what the stores hold after the blob operation `op` on `db`.
pub open spec fn blob_applied(db: StoreModel, op: BlobOp, db2: StoreModel) -> bool {
    match op {
        BlobOp::MakeBucket { bucket } => db2 == (StoreModel { buckets: db.buckets.insert(bucket@), ..db }),
        BlobOp::Put { bucket, key, data } => db2 == (StoreModel {
            blobs: db.blobs.insert((bucket@, key@), data@),
            ..db
        }),
        _ => db2 == db,
    }
}

/// Whether the operation only reads.
pub open spec fn is_read(op: StoreOp) -> bool {
    !(op is InsertAlbum || op is InsertInvitation || op is InsertSelection || op is InsertPhoto
        || op is InsertUser)
}

/// Whether `reply` is what the store holding `db` answers to the lookup `op`.
pub open spec fn reply_agrees(db: StoreModel, op: StoreOp, reply: Reply) -> bool {
    match read_answer(db, op) {
        Some(Answer::Exists(b)) => reply == Reply::Exists(b),
        Some(Answer::AlbumRow(a)) => reply == Reply::AlbumRow(a),
        Some(Answer::PhotoRow(p)) => reply == Reply::PhotoRow(p),
        Some(Answer::UserRow(u)) => reply == Reply::UserRow(u),
        _ => true,
    }
}

} // verus!
