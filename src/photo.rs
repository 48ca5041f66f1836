use vstd::prelude::*;
use crate::decimal::{decimal_i32, parse_i32};
use crate::error::{ApiError, Invalid};
use crate::models::{GetPhotoByIdRequest, GetPhotosByAlbumIdRequest, Photo};
use crate::store::{
    answers_blob, blob_object, read_answer, reply_agrees, Answer, answers_store, blob_applied, photo_bucket, store_applied, Action, BlobOp, Reply,
    StoreModel, StoreOp,
};

verus! {

/// Where a blob upload stands.
#[derive(Clone, Copy, Debug, PartialEq, Eq)]
pub enum BlobStage {
    AwaitBucketCheck,
    AwaitBucketMade,
    AwaitPut,
    Finished,
}

/// Stores bytes under a key of a bucket, creating the bucket first where it
/// does not exist. It finishes with the key that the blob store reports.
#[derive(Debug)]
pub struct BlobUpload {
    pub bucket: String,
    pub key: String,
    pub data: Vec<u8>,
    pub stage: BlobStage,
}

impl BlobUpload {
    pub open spec fn pending(&self) -> Option<BlobOp> {
        match self.stage {
            BlobStage::AwaitBucketCheck => Some(BlobOp::BucketExists { bucket: self.bucket }),
            BlobStage::AwaitBucketMade => Some(BlobOp::MakeBucket { bucket: self.bucket }),
            BlobStage::AwaitPut => Some(
                BlobOp::Put { bucket: self.bucket, key: self.key, data: self.data },
            ),
            BlobStage::Finished => None,
        }
    }

    pub open spec fn put_op(&self) -> BlobOp {
        BlobOp::Put { bucket: self.bucket, key: self.key, data: self.data }
    }

    /// Issues the put, handing over the bytes.
    fn put(&mut self) -> (a: Action<String>)
        ensures
            final(self).bucket == old(self).bucket,
            final(self).key == old(self).key,
            final(self).stage == BlobStage::AwaitPut,
            a == Action::<String>::Blob(old(self).put_op()),
    {
        self.stage = BlobStage::AwaitPut;
        let mut data: Vec<u8> = Vec::new();
        core::mem::swap(&mut data, &mut self.data);
        Action::Blob(BlobOp::Put { bucket: self.bucket.clone(), key: self.key.clone(), data })
    }

    /// Hands the upload the answer to its pending operation.
    pub fn resume(&mut self, reply: Reply) -> (a: Action<String>)
        requires
            old(self).pending() is Some,
            answers_blob(old(self).pending().unwrap(), reply),
        ensures
            final(self).bucket == old(self).bucket,
            final(self).key == old(self).key,
            match reply {
                Reply::Failed(m) => final(self).stage == BlobStage::Finished && final(self).data
                    == old(self).data && a == Action::<String>::Finish(Err(ApiError::Internal(m))),
                Reply::Exists(found) => if found {
                    final(self).stage == BlobStage::AwaitPut && a == Action::<String>::Blob(
                        old(self).put_op(),
                    )
                } else {
                    final(self).stage == BlobStage::AwaitBucketMade && final(self).data
                        == old(self).data && a == Action::<String>::Blob(
                        BlobOp::MakeBucket { bucket: old(self).bucket },
                    )
                },
                Reply::Done => final(self).stage == BlobStage::AwaitPut && a
                    == Action::<String>::Blob(old(self).put_op()),
                Reply::Stored(name) => final(self).stage == BlobStage::Finished && final(self).data
                    == old(self).data && a == Action::<String>::Finish(Ok(name)),
                _ => false,
            },
    {
        match reply {
            Reply::Failed(m) => {
                self.stage = BlobStage::Finished;
                Action::Finish(Err(ApiError::Internal(m)))
            },
            Reply::Exists(found) => {
                if found {
                    self.put()
                } else {
                    self.stage = BlobStage::AwaitBucketMade;
                    Action::Blob(BlobOp::MakeBucket { bucket: self.bucket.clone() })
                }
            },
            Reply::Done => self.put(),
            Reply::Stored(name) => {
                self.stage = BlobStage::Finished;
                Action::Finish(Ok(name))
            },
            _ => {
                self.stage = BlobStage::Finished;
                Action::Finish(Err(ApiError::Internal(String::new())))
            },
        }
    }
}

/// Starts storing `data` under `key` in `bucket`; the first operation checks
/// that the bucket exists.
pub fn upload_photo_to_minio(bucket: String, key: String, data: Vec<u8>) -> (r: (
    BlobUpload,
    Action<String>,
))
    ensures
        r.0.bucket == bucket,
        r.0.key == key,
        r.0.data == data,
        r.0.stage == BlobStage::AwaitBucketCheck,
        r.1 == Action::<String>::Blob(BlobOp::BucketExists { bucket }),
{
    let check = BlobOp::BucketExists { bucket: bucket.clone() };
    (BlobUpload { bucket, key, data, stage: BlobStage::AwaitBucketCheck }, Action::Blob(check))
}

/// A text field of the upload form.
#[derive(Clone, Debug, PartialEq, Eq)]
pub struct FormField {
    pub name: String,
    pub value: String,
}

/// The value of the last field named `name`: a later field of a name
/// replaces an earlier one.
pub open spec fn field_value(fields: Seq<FormField>, name: Seq<char>) -> Option<Seq<char>>
    decreases fields.len(),
{
    if fields.len() == 0 {
        None
    } else if fields.last().name@ == name {
        Some(fields.last().value@)
    } else {
        field_value(fields.drop_last(), name)
    }
}

/// The object key of an uploaded file: its file name, or a fixed name where
/// the part has none.
pub open spec fn upload_key(file_name: Option<String>) -> Seq<char> {
    match file_name {
        Some(n) => n@,
        None => "uploaded_file"@,
    }
}

pub open spec fn missing_file_message() -> Seq<char> {
    "Failed while save photo"@
}

/// What the drained form decides: the album and object key of the photo
/// row to insert, or why there is none.
pub open spec fn form_outcome(fields: Seq<FormField>, file_path: Option<String>) -> Option<
    (i32, Seq<char>),
> {
    match field_value(fields, "album_id"@) {
        None => None,
        Some(v) => match decimal_i32(v) {
            None => None,
            Some(id) => match file_path {
                None => None,
                Some(p) => Some((id, p@)),
            },
        },
    }
}

/// Where an upload stands.
#[derive(Clone, Copy, Debug, PartialEq, Eq)]
pub enum UploadStage {
    /// Reading form parts.
    Collecting,
    /// Storing a file part in the blob store.
    Uploading,
    /// Waiting for the photo row.
    AwaitInsert,
    Finished,
}

/// The upload workflow. It reads the form's parts in order: each file goes to
/// the blob store at once and each text field is kept. Only once the form is
/// drained does it read `album_id` and insert the photo row.
#[derive(Debug)]
pub struct UploadFlow {
    pub fields: Vec<FormField>,
    /// The object key of the last stored file.
    pub file_path: Option<String>,
    pub blob: BlobUpload,
    pub stage: UploadStage,
}

/// Starts an upload; the first action reads the form's first part.
pub fn upload_photo() -> (r: (UploadFlow, Action<Photo>))
    ensures
        r.0.fields@.len() == 0,
        r.0.file_path is None,
        r.0.stage == UploadStage::Collecting,
        r.1 == Action::<Photo>::NextPart,
{
    let blob = BlobUpload {
        bucket: String::new(),
        key: String::new(),
        data: Vec::new(),
        stage: BlobStage::Finished,
    };
    (
        UploadFlow { fields: Vec::new(), file_path: None, blob, stage: UploadStage::Collecting },
        Action::NextPart,
    )
}

impl UploadFlow {
    pub open spec fn pending_store(&self) -> Option<StoreOp> {
        if matches!(self.stage, UploadStage::AwaitInsert) {
            match form_outcome(self.fields@, self.file_path) {
                Some((album_id, _)) => Some(
                    StoreOp::InsertPhoto { album_id, s3_path: self.file_path.unwrap() },
                ),
                None => None,
            }
        } else {
            None
        }
    }

    /// Whether `reply` answers what the flow waits on.
    pub open spec fn accepts(&self, reply: Reply) -> bool {
        ||| self.stage == UploadStage::Uploading && self.blob.pending() is Some && answers_blob(
            self.blob.pending().unwrap(),
            reply,
        )
        ||| self.pending_store() is Some && answers_store(self.pending_store().unwrap(), reply)
    }

    /// Keeps a text field of the form; the next action reads the next part.
    pub fn add_text_field(&mut self, name: String, value: String) -> (a: Action<Photo>)
        requires
            old(self).stage == UploadStage::Collecting,
        ensures
            final(self).fields@ == old(self).fields@.push(FormField { name, value }),
            final(self).file_path == old(self).file_path,
            final(self).stage == UploadStage::Collecting,
            a == Action::<Photo>::NextPart,
    {
        self.fields.push(FormField { name, value });
        Action::NextPart
    }

    /// Sends a file part to the blob store under its file name.
    pub fn add_file(&mut self, file_name: Option<String>, data: Vec<u8>) -> (a: Action<Photo>)
        requires
            old(self).stage == UploadStage::Collecting,
        ensures
            final(self).fields == old(self).fields,
            final(self).file_path == old(self).file_path,
            final(self).stage == UploadStage::Uploading,
            final(self).blob.bucket@ == photo_bucket(),
            final(self).blob.key@ == upload_key(file_name),
            final(self).blob.data == data,
            final(self).blob.stage == BlobStage::AwaitBucketCheck,
            a == Action::<Photo>::Blob(BlobOp::BucketExists { bucket: final(self).blob.bucket }),
    {
        let key = match file_name {
            Some(n) => n,
            None => String::from_str("uploaded_file"),
        };
        let (blob, action) = upload_photo_to_minio(String::from_str("photos"), key, data);
        self.blob = blob;
        self.stage = UploadStage::Uploading;
        match action {
            Action::Blob(op) => Action::Blob(op),
            _ => Action::NextPart,
        }
    }

    /// The form has no more parts: decides on the photo row.
    pub fn finish_form(&mut self) -> (a: Action<Photo>)
        requires
            old(self).stage == UploadStage::Collecting,
        ensures
            final(self).fields == old(self).fields,
            final(self).file_path == old(self).file_path,
            match field_value(old(self).fields@, "album_id"@) {
                None => a == Action::<Photo>::Finish(Err(ApiError::Validation(Invalid::AlbumId))),
                Some(v) => match decimal_i32(v) {
                    None => a == Action::<Photo>::Finish(
                        Err(ApiError::Validation(Invalid::AlbumId)),
                    ),
                    Some(album_id) => match old(self).file_path {
                        None => a matches Action::Finish(Err(ApiError::Internal(m)))
                            && m@ == missing_file_message(),
                        Some(p) => a == Action::<Photo>::Store(
                            StoreOp::InsertPhoto { album_id, s3_path: p },
                        ),
                    },
                },
            },
            a is Store <==> final(self).stage == UploadStage::AwaitInsert,
            !(a is Store) ==> final(self).stage == UploadStage::Finished,
    {
        self.stage = UploadStage::Finished;
        let name = String::from_str("album_id");
        let mut i: usize = self.fields.len();
        let mut found: Option<usize> = None;
        assert(self.fields@.take(i as int) =~= self.fields@);
        while i > 0 && found.is_none()
            invariant
                i <= self.fields@.len(),
                found is None ==> field_value(self.fields@, name@) == field_value(
                    self.fields@.take(i as int),
                    name@,
                ),
                found matches Some(k) ==> k < self.fields@.len() && field_value(
                    self.fields@,
                    name@,
                ) == Some(self.fields@[k as int].value@),
            decreases i + if found is None { 1int } else { 0int },
        {
            let ghost prefix = self.fields@.take(i as int);
            assert(prefix.drop_last() =~= self.fields@.take(i - 1));
            if self.fields[i - 1].name == name {
                found = Some(i - 1);
            } else {
                i = i - 1;
            }
        }
        let album_id = match found {
            None => {
                assert(self.fields@.take(0) =~= Seq::<FormField>::empty());
                return Action::Finish(Err(ApiError::Validation(Invalid::AlbumId)));
            },
            Some(k) => match parse_i32(self.fields[k].value.as_str()) {
                None => return Action::Finish(Err(ApiError::Validation(Invalid::AlbumId))),
                Some(id) => id,
            },
        };
        match &self.file_path {
            None => Action::Finish(Err(ApiError::Internal(String::from_str("Failed while save photo")))),
            Some(p) => {
                self.stage = UploadStage::AwaitInsert;
                Action::Store(StoreOp::InsertPhoto { album_id, s3_path: p.clone() })
            },
        }
    }

    /// Hands the flow the answer to its pending operation.
    pub fn resume(&mut self, reply: Reply) -> (a: Action<Photo>)
        requires
            old(self).accepts(reply),
        ensures
            final(self).fields == old(self).fields,
            old(self).stage == UploadStage::Uploading ==> final(self).blob.bucket == old(
                self,
            ).blob.bucket && final(self).blob.key == old(self).blob.key && match reply {
                Reply::Stored(name) => final(self).file_path == Some(name) && final(self).stage
                    == UploadStage::Collecting && final(self).blob.stage == BlobStage::Finished
                    && a == Action::<Photo>::NextPart,
                Reply::Failed(m) => final(self).stage == UploadStage::Finished
                    && final(self).blob.stage == BlobStage::Finished && a
                    == Action::<Photo>::Finish(Err(ApiError::Internal(m))),
                Reply::Exists(false) => final(self).file_path == old(self).file_path
                    && final(self).stage == UploadStage::Uploading && final(self).blob.stage
                    == BlobStage::AwaitBucketMade && final(self).blob.data == old(self).blob.data
                    && a == Action::<Photo>::Blob(BlobOp::MakeBucket { bucket: old(self).blob.bucket }),
                _ => final(self).file_path == old(self).file_path && final(self).stage
                    == UploadStage::Uploading && final(self).blob.stage == BlobStage::AwaitPut && a
                    == Action::<Photo>::Blob(old(self).blob.put_op()),
            },
            old(self).stage == UploadStage::AwaitInsert ==> final(self).stage
                == UploadStage::Finished && match reply {
                Reply::PhotoRow(row) => a == Action::<Photo>::Finish(Ok(row.unwrap())) && (form_outcome(
                    old(self).fields@,
                    old(self).file_path,
                ) matches Some((album_id, path)) && row.unwrap().album_id == album_id
                    && row.unwrap().s3_path@ == path),
                Reply::Failed(m) => a == Action::<Photo>::Finish(Err(ApiError::Internal(m))),
                _ => false,
            },
    {
        if matches!(self.stage, UploadStage::AwaitInsert) {
            self.stage = UploadStage::Finished;
            return match reply {
                Reply::PhotoRow(Some(photo)) => Action::Finish(Ok(photo)),
                Reply::Failed(m) => Action::Finish(Err(ApiError::Internal(m))),
                _ => Action::Finish(Err(ApiError::Internal(String::new()))),
            };
        }
        match self.blob.resume(reply) {
            Action::Finish(Ok(name)) => {
                self.file_path = Some(name);
                self.stage = UploadStage::Collecting;
                Action::NextPart
            },
            Action::Finish(Err(e)) => {
                self.stage = UploadStage::Finished;
                Action::Finish(Err(e))
            },
            Action::Blob(op) => Action::Blob(op),
            _ => Action::NextPart,
        }
    }
}

/// The payload of a fetched photo.
#[derive(Clone, Debug, PartialEq, Eq)]
pub struct PhotoContent {
    /// Always `image/png`, whatever the bytes are.
    pub content_type: String,
    pub bytes: Vec<u8>,
}

/// Where a photo fetch stands.
#[derive(Clone, Copy, Debug, PartialEq, Eq)]
pub enum FetchStage {
    AwaitPhoto,
    AwaitBytes,
    Finished,
}

/// Fetches the bytes of a photo: its row, then its object in the blob store.
#[derive(Clone, Copy, Debug)]
pub struct PhotoFetch {
    pub photo_id: i32,
    pub stage: FetchStage,
}

/// Starts fetching a photo by id.
pub fn get_photo_by_id(query: GetPhotoByIdRequest) -> (r: (PhotoFetch, Action<PhotoContent>))
    ensures
        r.0.photo_id == query.photo_id,
        r.0.stage == FetchStage::AwaitPhoto,
        r.1 == Action::<PhotoContent>::Store(StoreOp::FindPhoto { photo_id: query.photo_id }),
{
    (
        PhotoFetch { photo_id: query.photo_id, stage: FetchStage::AwaitPhoto },
        Action::Store(StoreOp::FindPhoto { photo_id: query.photo_id }),
    )
}

pub open spec fn image_png() -> Seq<char> {
    "image/png"@
}

impl PhotoFetch {
    pub open spec fn accepts(&self, reply: Reply) -> bool {
        match self.stage {
            FetchStage::AwaitPhoto => answers_store(
                StoreOp::FindPhoto { photo_id: self.photo_id },
                reply,
            ),
            FetchStage::AwaitBytes => reply is Failed || reply is Bytes,
            FetchStage::Finished => false,
        }
    }

    /// Hands the fetch the answer to its pending operation: a missing row is
    /// NotFound, a found one sends for its object in the photo bucket, and
    /// the object's bytes are the answer, tagged as a PNG image.
    pub fn resume(&mut self, reply: Reply) -> (a: Action<PhotoContent>)
        requires
            old(self).accepts(reply),
        ensures
            final(self).photo_id == old(self).photo_id,
            match reply {
                Reply::Failed(m) => final(self).stage == FetchStage::Finished && a
                    == Action::<PhotoContent>::Finish(Err(ApiError::Internal(m))),
                Reply::PhotoRow(None) => final(self).stage == FetchStage::Finished && a
                    == Action::<PhotoContent>::Finish(Err(ApiError::NotFound)),
                Reply::PhotoRow(Some(p)) => final(self).stage == FetchStage::AwaitBytes && (
                a matches Action::Blob(BlobOp::Get { bucket, key }) && bucket@ == photo_bucket()
                    && key == p.s3_path),
                Reply::Bytes(b) => final(self).stage == FetchStage::Finished && (
                a matches Action::Finish(Ok(c)) && c.bytes == b && c.content_type@ == image_png()),
                _ => false,
            },
    {
        match reply {
            Reply::Failed(m) => {
                self.stage = FetchStage::Finished;
                Action::Finish(Err(ApiError::Internal(m)))
            },
            Reply::PhotoRow(None) => {
                self.stage = FetchStage::Finished;
                Action::Finish(Err(ApiError::NotFound))
            },
            Reply::PhotoRow(Some(p)) => {
                self.stage = FetchStage::AwaitBytes;
                Action::Blob(BlobOp::Get { bucket: String::from_str("photos"), key: p.s3_path })
            },
            Reply::Bytes(bytes) => {
                self.stage = FetchStage::Finished;
                Action::Finish(
                    Ok(PhotoContent { content_type: String::from_str("image/png"), bytes }),
                )
            },
            _ => {
                self.stage = FetchStage::Finished;
                Action::Finish(Err(ApiError::NotFound))
            },
        }
    }
}

/// The query for every photo of an album.
pub fn get_photos_by_album_id(query: GetPhotosByAlbumIdRequest) -> (op: StoreOp)
    ensures
        op == (StoreOp::PhotosInAlbum { album_id: query.album_id }),
{
    StoreOp::PhotosInAlbum { album_id: query.album_id }
}

/// A photo id that no row holds is not found: a store holding no such row
/// answers the lookup with no row, and the fetch ends in NotFound on that.
pub proof fn lemma_missing_photo(db: StoreModel, photo_id: i32, reply: Reply)
    requires
        forall|k: int| 0 <= k < db.photos.len() ==> #[trigger] db.photos[k].photo_id != photo_id,
        reply_agrees(db, StoreOp::FindPhoto { photo_id }, reply),
    ensures
        read_answer(db, StoreOp::FindPhoto { photo_id }) == Some(Answer::PhotoRow(None)),
        reply == Reply::PhotoRow(None),
{
}

/// Storing bytes under a key, then inserting a photo row with that key to
/// which the store gives a fresh id, makes the lookup of that id answer the
/// new row, whose object in the photo bucket holds exactly those bytes.
pub proof fn lemma_upload_then_read(
    db: StoreModel,
    db2: StoreModel,
    db3: StoreModel,
    bucket: String,
    key: String,
    data: Vec<u8>,
    album_id: i32,
)
    requires
        bucket@ == photo_bucket(),
        blob_applied(db, BlobOp::Put { bucket, key, data }, db2),
        store_applied(db2, StoreOp::InsertPhoto { album_id, s3_path: key }, db3),
        forall|k: int|
            0 <= k < db.photos.len() ==> #[trigger] db.photos[k].photo_id
                != db3.photos.last().photo_id,
    ensures
        db3.photos.len() == db.photos.len() + 1,
        db3.photos.last().album_id == album_id,
        db3.photos.last().s3_path == key,
        read_answer(db3, StoreOp::FindPhoto { photo_id: db3.photos.last().photo_id }) == Some(
            Answer::PhotoRow(Some(db3.photos.last())),
        ),
        blob_object(db3, photo_bucket(), db3.photos.last().s3_path@) == Some(data@),
{
    let n = db.photos.len() as int;
    let p = db3.photos.last();
    assert(db3.photos[n] == p);
    let k = choose|k: int| 0 <= k < db3.photos.len() && #[trigger] db3.photos[k].photo_id == p.photo_id;
    if k < n {
        assert(db3.photos[k] == db.photos[k]);
    }
}

/// The object key of an upload is never empty when the part's file name is
/// not.
pub proof fn lemma_upload_key_not_empty(file_name: Option<String>)
    requires
        file_name matches Some(n) ==> n@.len() > 0,
    ensures
        upload_key(file_name).len() > 0,
{
    reveal_strlit("uploaded_file");
}

} // verus!
