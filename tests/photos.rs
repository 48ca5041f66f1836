use photo_share::error::{ApiError, Invalid};
use photo_share::models::{GetPhotoByIdRequest, GetPhotosByAlbumIdRequest, Photo, Timestamp};
use photo_share::photo::{
    get_photo_by_id, get_photos_by_album_id, upload_photo, upload_photo_to_minio, PhotoContent,
    UploadFlow,
};
use photo_share::store::{Action, BlobOp, Reply, StoreOp};

fn photo(photo_id: i32, album_id: i32, path: &str) -> Photo {
    Photo {
        photo_id,
        album_id,
        s3_path: path.to_string(),
        uploaded_at: Timestamp { micros: 0 },
    }
}

/// Runs the blob part of an upload against a bucket that exists.
fn store_file(flow: &mut UploadFlow, first: Action<Photo>) -> Vec<u8> {
    assert_eq!(
        first,
        Action::Blob(BlobOp::BucketExists { bucket: "photos".to_string() })
    );
    let put = flow.resume(Reply::Exists(true));
    let (key, data) = match put {
        Action::Blob(BlobOp::Put { bucket, key, data }) => {
            assert_eq!(bucket, "photos");
            (key, data)
        }
        other => panic!("unexpected {:?}", other),
    };
    assert_eq!(flow.resume(Reply::Stored(key)), Action::NextPart);
    data
}

#[test]
fn upload_reads_album_id_after_the_file() {
    let (mut flow, first) = upload_photo();
    assert_eq!(first, Action::NextPart);
    let a = flow.add_file(Some("beach.png".to_string()), vec![1, 2, 3]);
    assert_eq!(store_file(&mut flow, a), vec![1, 2, 3]);
    assert_eq!(flow.file_path, Some("beach.png".to_string()));
    assert_eq!(flow.add_text_field("album_id".to_string(), "3".to_string()), Action::NextPart);
    assert_eq!(
        flow.finish_form(),
        Action::Store(StoreOp::InsertPhoto { album_id: 3, s3_path: "beach.png".to_string() })
    );
    assert_eq!(
        flow.resume(Reply::PhotoRow(Some(photo(11, 3, "beach.png")))),
        Action::Finish(Ok(photo(11, 3, "beach.png")))
    );
}

#[test]
fn upload_without_album_id_is_refused() {
    let (mut flow, _) = upload_photo();
    let a = flow.add_file(Some("x.png".to_string()), vec![9]);
    store_file(&mut flow, a);
    flow.add_text_field("caption".to_string(), "hi".to_string());
    assert_eq!(
        flow.finish_form(),
        Action::Finish(Err(ApiError::Validation(Invalid::AlbumId)))
    );
}

#[test]
fn upload_with_bad_album_id_is_refused() {
    let (mut flow, _) = upload_photo();
    flow.add_text_field("album_id".to_string(), "three".to_string());
    assert_eq!(
        flow.finish_form(),
        Action::Finish(Err(ApiError::Validation(Invalid::AlbumId)))
    );
}

#[test]
fn upload_without_file_is_internal_error() {
    let (mut flow, _) = upload_photo();
    flow.add_text_field("album_id".to_string(), "3".to_string());
    match flow.finish_form() {
        Action::Finish(Err(e)) => {
            assert_eq!(e.status(), 500);
            assert_eq!(e.message(), "Failed while save photo");
        }
        other => panic!("unexpected {:?}", other),
    }
}

#[test]
fn later_field_replaces_earlier() {
    let (mut flow, _) = upload_photo();
    flow.add_text_field("album_id".to_string(), "x".to_string());
    flow.add_text_field("album_id".to_string(), "4".to_string());
    let a = flow.add_file(None, vec![0]);
    store_file(&mut flow, a);
    assert_eq!(
        flow.finish_form(),
        Action::Store(StoreOp::InsertPhoto { album_id: 4, s3_path: "uploaded_file".to_string() })
    );
}

#[test]
fn blob_upload_creates_missing_bucket() {
    let (mut up, first) =
        upload_photo_to_minio("photos".to_string(), "k.png".to_string(), vec![5, 6]);
    assert_eq!(first, Action::Blob(BlobOp::BucketExists { bucket: "photos".to_string() }));
    assert_eq!(
        up.resume(Reply::Exists(false)),
        Action::Blob(BlobOp::MakeBucket { bucket: "photos".to_string() })
    );
    assert_eq!(
        up.resume(Reply::Done),
        Action::Blob(BlobOp::Put {
            bucket: "photos".to_string(),
            key: "k.png".to_string(),
            data: vec![5, 6],
        })
    );
    assert_eq!(up.resume(Reply::Stored("k.png".to_string())), Action::Finish(Ok("k.png".to_string())));
}

#[test]
fn blob_failure_ends_upload() {
    let (mut flow, _) = upload_photo();
    flow.add_file(Some("a.png".to_string()), vec![1]);
    assert_eq!(
        flow.resume(Reply::Failed("no route".to_string())),
        Action::Finish(Err(ApiError::Internal("no route".to_string())))
    );
}

#[test]
fn missing_photo_is_not_found() {
    for id in [-1, 0, 12345] {
        let (mut fetch, first) = get_photo_by_id(GetPhotoByIdRequest { photo_id: id });
        assert_eq!(first, Action::Store(StoreOp::FindPhoto { photo_id: id }));
        let a = fetch.resume(Reply::PhotoRow(None));
        assert_eq!(a, Action::Finish(Err(ApiError::NotFound)));
        if let Action::Finish(Err(e)) = a {
            assert_eq!(e.status(), 404);
        }
    }
}

#[test]
fn upload_then_read_round_trip() {
    let bytes = vec![137, 80, 78, 71, 1, 2, 3];
    let mut blobs: Vec<(String, Vec<u8>)> = Vec::new();
    let (mut flow, _) = upload_photo();
    flow.add_text_field("album_id".to_string(), "3".to_string());
    flow.add_file(Some("pic.png".to_string()), bytes.clone());
    match flow.resume(Reply::Exists(true)) {
        Action::Blob(BlobOp::Put { key, data, .. }) => {
            blobs.push((key.clone(), data));
            flow.resume(Reply::Stored(key));
        }
        other => panic!("unexpected {:?}", other),
    }
    let stored = match flow.finish_form() {
        Action::Store(StoreOp::InsertPhoto { album_id, s3_path }) => photo(21, album_id, &s3_path),
        other => panic!("unexpected {:?}", other),
    };
    let photo_row = match flow.resume(Reply::PhotoRow(Some(stored))) {
        Action::Finish(Ok(p)) => p,
        other => panic!("unexpected {:?}", other),
    };
    assert!(!photo_row.s3_path.is_empty());

    let (mut fetch, _) = get_photo_by_id(GetPhotoByIdRequest { photo_id: photo_row.photo_id });
    let key = match fetch.resume(Reply::PhotoRow(Some(photo_row.clone()))) {
        Action::Blob(BlobOp::Get { bucket, key }) => {
            assert_eq!(bucket, "photos");
            key
        }
        other => panic!("unexpected {:?}", other),
    };
    let data = blobs.iter().find(|(k, _)| *k == key).unwrap().1.clone();
    assert_eq!(
        fetch.resume(Reply::Bytes(data)),
        Action::Finish(Ok(PhotoContent { content_type: "image/png".to_string(), bytes }))
    );
}

#[test]
fn photos_of_album_query() {
    assert_eq!(
        get_photos_by_album_id(GetPhotosByAlbumIdRequest { album_id: 3 }),
        StoreOp::PhotosInAlbum { album_id: 3 }
    );
}

#[test]
fn upload_creates_missing_bucket_and_puts_same_bytes() {
    let (mut flow, _) = upload_photo();
    let first = flow.add_file(Some("new.png".to_string()), vec![4, 5, 6]);
    assert_eq!(first, Action::Blob(BlobOp::BucketExists { bucket: "photos".to_string() }));
    assert_eq!(
        flow.resume(Reply::Exists(false)),
        Action::Blob(BlobOp::MakeBucket { bucket: "photos".to_string() })
    );
    assert_eq!(
        flow.resume(Reply::Done),
        Action::Blob(BlobOp::Put {
            bucket: "photos".to_string(),
            key: "new.png".to_string(),
            data: vec![4, 5, 6],
        })
    );
    assert_eq!(flow.resume(Reply::Stored("new.png".to_string())), Action::NextPart);
    flow.add_text_field("album_id".to_string(), "3".to_string());
    assert_eq!(
        flow.finish_form(),
        Action::Store(StoreOp::InsertPhoto { album_id: 3, s3_path: "new.png".to_string() })
    );
}
