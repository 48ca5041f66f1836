use photo_share::album::{create_album, get_albums_created_by_photographer_id};
use photo_share::error::{ApiError, Invalid};
use photo_share::invitation::{
    create_invitation, get_albums_invited_to, get_invitations_by_user_id, InvitationStage,
};
use photo_share::models::{
    Album, CreateAlbumRequest, GetAlbumsCreatedQuery, GetAlbumsInvitedToRequest,
    GetInvitationsByUserIdRequest, InvitationRequest, SelectionsQuery, SelectionsRequest,
    Timestamp,
};
use photo_share::selections::{
    get_selected_photos_by_client_and_album, get_selections_by_client_and_album, select_photos,
    SelectionStage,
};
use photo_share::store::{Action, Reply, StoreOp};

fn album(album_id: i32, photographer_id: i32) -> Album {
    Album {
        album_id,
        photographer_id,
        name: "Wedding".to_string(),
        created_at: Timestamp { micros: 0 },
    }
}

fn invite(client_id: i32, album_id: i32, photographer_id: i32) -> InvitationRequest {
    InvitationRequest { client_id, album_id, photographer_id }
}

#[test]
fn self_invitation_is_refused_without_store_access() {
    for x in [0, 5, -3] {
        let (flow, action) = create_invitation(invite(x, 3, x));
        assert_eq!(action, Action::Finish(Err(ApiError::Validation(Invalid::SelfInvitation))));
        assert_eq!(flow.stage, InvitationStage::Finished);
    }
}

#[test]
fn owner_mismatch_is_refused() {
    let (mut flow, action) = create_invitation(invite(5, 3, 2));
    assert_eq!(action, Action::Store(StoreOp::FindUser { user_id: 5 }));
    assert_eq!(
        flow.resume(Reply::Exists(true)),
        Action::Store(StoreOp::FindAlbum { album_id: 3 })
    );
    assert_eq!(
        flow.resume(Reply::AlbumRow(Some(album(3, 9)))),
        Action::Finish(Err(ApiError::Validation(Invalid::PhotographerMismatch)))
    );
}

#[test]
fn unknown_client_is_refused() {
    let (mut flow, _) = create_invitation(invite(5, 3, 9));
    assert_eq!(
        flow.resume(Reply::Exists(false)),
        Action::Finish(Err(ApiError::Validation(Invalid::UnknownUser)))
    );
}

#[test]
fn unknown_album_is_refused() {
    let (mut flow, _) = create_invitation(invite(5, 3, 9));
    flow.resume(Reply::Exists(true));
    assert_eq!(
        flow.resume(Reply::AlbumRow(None)),
        Action::Finish(Err(ApiError::Validation(Invalid::UnknownAlbum)))
    );
}

#[test]
fn store_failure_ends_invitation() {
    let (mut flow, _) = create_invitation(invite(5, 3, 9));
    assert_eq!(
        flow.resume(Reply::Failed("connection reset".to_string())),
        Action::Finish(Err(ApiError::Internal("connection reset".to_string())))
    );
}

/// The albums a client is invited to, as the store's semi-join computes them.
fn invited_albums(albums: &[Album], invitations: &[(i32, i32)], client_id: i32) -> Vec<Album> {
    albums
        .iter()
        .filter(|a| invitations.iter().any(|&(c, al)| c == client_id && al == a.album_id))
        .cloned()
        .collect()
}

#[test]
fn invitation_success_grants_album() {
    let albums = vec![album(3, 9), album(4, 9)];
    let mut invitations: Vec<(i32, i32)> = Vec::new();
    let (mut flow, _) = create_invitation(invite(5, 3, 9));
    flow.resume(Reply::Exists(true));
    let insert = flow.resume(Reply::AlbumRow(Some(album(3, 9))));
    match insert {
        Action::Store(StoreOp::InsertInvitation { client_id, album_id, photographer_id }) => {
            assert_eq!((client_id, album_id, photographer_id), (5, 3, 9));
            invitations.push((client_id, album_id));
        }
        other => panic!("unexpected {:?}", other),
    }
    assert_eq!(flow.resume(Reply::Done), Action::Finish(Ok(invite(5, 3, 9))));
    let op = get_albums_invited_to(GetAlbumsInvitedToRequest { client_id: 5 });
    assert_eq!(op, StoreOp::AlbumsInvitedTo { client_id: 5 });
    let got = invited_albums(&albums, &invitations, 5);
    assert!(got.iter().any(|a| a.album_id == 3));
    invitations.push((5, 3));
    assert_eq!(invited_albums(&albums, &invitations, 5).len(), 1);
}

#[test]
fn invitation_queries() {
    assert_eq!(
        get_invitations_by_user_id(GetInvitationsByUserIdRequest { client_id: 8 }),
        StoreOp::InvitationsOf { client_id: 8 }
    );
}

#[test]
fn selection_against_missing_album_inserts_nothing() {
    let req = SelectionsRequest { client_id: 1, album_id: 999, photo_ids: vec![1, 2] };
    let (mut flow, first) = select_photos(req);
    assert_eq!(first, Action::Store(StoreOp::FindAlbum { album_id: 999 }));
    assert_eq!(
        flow.resume(Reply::AlbumRow(None)),
        Action::Finish(Err(ApiError::Validation(Invalid::UnknownAlbum)))
    );
    assert_eq!(flow.stage, SelectionStage::Finished);
}

#[test]
fn selection_inserts_each_photo_in_order() {
    let req = SelectionsRequest { client_id: 1, album_id: 3, photo_ids: vec![7, 8, 9] };
    let (mut flow, _) = select_photos(req.clone());
    let mut inserted = Vec::new();
    let mut action = flow.resume(Reply::AlbumRow(Some(album(3, 9))));
    loop {
        match action {
            Action::Store(StoreOp::InsertSelection { photo_id, client_id }) => {
                assert_eq!(client_id, 1);
                inserted.push(photo_id);
                action = flow.resume(Reply::Done);
            }
            Action::Finish(r) => {
                assert_eq!(r, Ok(req.clone()));
                break;
            }
            other => panic!("unexpected {:?}", other),
        }
    }
    assert_eq!(inserted, vec![7, 8, 9]);
}

#[test]
fn selection_stops_at_first_failed_insert() {
    let req = SelectionsRequest { client_id: 1, album_id: 3, photo_ids: vec![7, 8, 9] };
    let (mut flow, _) = select_photos(req);
    assert_eq!(
        flow.resume(Reply::AlbumRow(Some(album(3, 9)))),
        Action::Store(StoreOp::InsertSelection { photo_id: 7, client_id: 1 })
    );
    assert_eq!(
        flow.resume(Reply::Failed("fk violation".to_string())),
        Action::Finish(Err(ApiError::Internal("fk violation".to_string())))
    );
    assert_eq!(flow.stage, SelectionStage::Finished);
}

#[test]
fn empty_selection_finishes_after_album_check() {
    let req = SelectionsRequest { client_id: 1, album_id: 3, photo_ids: vec![] };
    let (mut flow, _) = select_photos(req.clone());
    assert_eq!(flow.resume(Reply::AlbumRow(Some(album(3, 9)))), Action::Finish(Ok(req)));
}

#[test]
fn selection_round_trip() {
    // photos: (photo_id, album_id); selections: (photo_id, client_id)
    let photos = vec![(7, 3), (8, 3), (9, 4)];
    let mut selections: Vec<(i32, i32)> = Vec::new();
    let req = SelectionsRequest { client_id: 1, album_id: 3, photo_ids: vec![7] };
    let (mut flow, _) = select_photos(req);
    let mut action = flow.resume(Reply::AlbumRow(Some(album(3, 9))));
    while let Action::Store(StoreOp::InsertSelection { photo_id, client_id }) = action {
        selections.push((photo_id, client_id));
        action = flow.resume(Reply::Done);
    }
    assert!(matches!(action, Action::Finish(Ok(_))));
    let op = get_selected_photos_by_client_and_album(SelectionsQuery { client_id: 1, album_id: 3 });
    let (client, album_id) = match op {
        StoreOp::SelectedPhotos { client_id, album_id } => (client_id, album_id),
        other => panic!("unexpected {:?}", other),
    };
    let selected: Vec<i32> = photos
        .iter()
        .filter(|&&(p, a)| a == album_id && selections.iter().any(|&(sp, c)| sp == p && c == client))
        .map(|&(p, _)| p)
        .collect();
    assert_eq!(selected, vec![7]);
}

#[test]
fn selection_queries() {
    assert_eq!(
        get_selections_by_client_and_album(SelectionsQuery { client_id: 1, album_id: 3 }),
        StoreOp::SelectionsOf { client_id: 1, album_id: 3 }
    );
}

#[test]
fn album_operations() {
    let op = create_album(CreateAlbumRequest { photographer_id: 9, name: "Trip".to_string() });
    assert_eq!(op, StoreOp::InsertAlbum { photographer_id: 9, name: "Trip".to_string() });
    let q = GetAlbumsCreatedQuery { photographer_id: 9 };
    let first = get_albums_created_by_photographer_id(q);
    let second = get_albums_created_by_photographer_id(q);
    assert_eq!(first, StoreOp::AlbumsCreatedBy { photographer_id: 9 });
    assert_eq!(first, second);
}
