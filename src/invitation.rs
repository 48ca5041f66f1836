use vstd::prelude::*;
use crate::error::{ApiError, Invalid};
use crate::models::{
    Album, GetAlbumsInvitedToRequest, GetInvitationsByUserIdRequest, InvitationRequest,
};
use crate::store::{
    albums_invited_to, answers_store, is_invited, read_answer, store_applied, Action, Answer,
    Reply, StoreModel, StoreOp,
};

verus! {

/// Where an invitation request stands.
#[derive(Clone, Copy, Debug, PartialEq, Eq)]
pub enum InvitationStage {
    /// Waiting to learn whether the client is a user.
    AwaitUser,
    /// Waiting for the album row.
    AwaitAlbum,
    /// Waiting for the insert of the invitation.
    AwaitInsert,
    Finished,
}

/// The invitation workflow: it checks the request against the store, then
/// inserts the invitation.
#[derive(Clone, Copy, Debug)]
pub struct InvitationFlow {
    pub request: InvitationRequest,
    pub stage: InvitationStage,
}

pub open spec fn insert_of(req: InvitationRequest) -> StoreOp {
    StoreOp::InsertInvitation {
        client_id: req.client_id,
        album_id: req.album_id,
        photographer_id: req.photographer_id,
    }
}

/// The operation that a flow in `stage` waits on.
pub open spec fn invitation_pending(req: InvitationRequest, stage: InvitationStage) -> Option<
    StoreOp,
> {
    match stage {
        InvitationStage::AwaitUser => Some(StoreOp::FindUser { user_id: req.client_id }),
        InvitationStage::AwaitAlbum => Some(StoreOp::FindAlbum { album_id: req.album_id }),
        InvitationStage::AwaitInsert => Some(insert_of(req)),
        InvitationStage::Finished => None,
    }
}

pub open spec fn fail<T>(k: Invalid) -> Action<T> {
    Action::Finish(Err(ApiError::Validation(k)))
}

/// The next stage and action of a flow in `stage` on `reply`. The checks come
/// in order and the first that fails ends the flow.
pub open spec fn invitation_step(
    req: InvitationRequest,
    stage: InvitationStage,
    reply: Reply,
) -> (InvitationStage, Action<InvitationRequest>) {
    match reply {
        Reply::Failed(m) => (InvitationStage::Finished, Action::Finish(Err(ApiError::Internal(m)))),
        Reply::Exists(found) => if found {
            (InvitationStage::AwaitAlbum, Action::Store(StoreOp::FindAlbum { album_id: req.album_id }))
        } else {
            (InvitationStage::Finished, fail(Invalid::UnknownUser))
        },
        Reply::AlbumRow(row) => match row {
            None => (InvitationStage::Finished, fail(Invalid::UnknownAlbum)),
            Some(album) => if album.photographer_id != req.photographer_id {
                (InvitationStage::Finished, fail(Invalid::PhotographerMismatch))
            } else {
                (InvitationStage::AwaitInsert, Action::Store(insert_of(req)))
            },
        },
        _ => (InvitationStage::Finished, Action::Finish(Ok(req))),
    }
}

/// Starts the workflow that invites a client to an album of a photographer.
/// A photographer who invites themselves is refused before the store is asked
/// anything.
pub fn create_invitation(request: InvitationRequest) -> (r: (
    InvitationFlow,
    Action<InvitationRequest>,
))
    ensures
        r.0.request == request,
        request.client_id == request.photographer_id ==> r.0.stage == InvitationStage::Finished
            && r.1 == fail::<InvitationRequest>(Invalid::SelfInvitation),
        request.client_id != request.photographer_id ==> r.0.stage == InvitationStage::AwaitUser
            && r.1 == Action::<InvitationRequest>::Store(
            StoreOp::FindUser { user_id: request.client_id },
        ),
{
    if request.client_id == request.photographer_id {
        (
            InvitationFlow { request, stage: InvitationStage::Finished },
            Action::Finish(Err(ApiError::Validation(Invalid::SelfInvitation))),
        )
    } else {
        (
            InvitationFlow { request, stage: InvitationStage::AwaitUser },
            Action::Store(StoreOp::FindUser { user_id: request.client_id }),
        )
    }
}

impl InvitationFlow {
    pub open spec fn pending(&self) -> Option<StoreOp> {
        invitation_pending(self.request, self.stage)
    }

    /// Hands the flow the answer to its pending operation.
    pub fn resume(&mut self, reply: Reply) -> (a: Action<InvitationRequest>)
        requires
            old(self).pending() is Some,
            answers_store(old(self).pending().unwrap(), reply),
        ensures
            final(self).request == old(self).request,
            (final(self).stage, a) == invitation_step(old(self).request, old(self).stage, reply),
    {
        let req = self.request;
        match reply {
            Reply::Failed(m) => {
                self.stage = InvitationStage::Finished;
                Action::Finish(Err(ApiError::Internal(m)))
            },
            Reply::Exists(found) => {
                if found {
                    self.stage = InvitationStage::AwaitAlbum;
                    Action::Store(StoreOp::FindAlbum { album_id: req.album_id })
                } else {
                    self.stage = InvitationStage::Finished;
                    Action::Finish(Err(ApiError::Validation(Invalid::UnknownUser)))
                }
            },
            Reply::AlbumRow(row) => match row {
                None => {
                    self.stage = InvitationStage::Finished;
                    Action::Finish(Err(ApiError::Validation(Invalid::UnknownAlbum)))
                },
                Some(album) => {
                    if album.photographer_id != req.photographer_id {
                        self.stage = InvitationStage::Finished;
                        Action::Finish(Err(ApiError::Validation(Invalid::PhotographerMismatch)))
                    } else {
                        self.stage = InvitationStage::AwaitInsert;
                        Action::Store(
                            StoreOp::InsertInvitation {
                                client_id: req.client_id,
                                album_id: req.album_id,
                                photographer_id: req.photographer_id,
                            },
                        )
                    }
                },
            },
            _ => {
                self.stage = InvitationStage::Finished;
                Action::Finish(Ok(req))
            },
        }
    }
}

/// The query for every invitation of a client.
pub fn get_invitations_by_user_id(query: GetInvitationsByUserIdRequest) -> (op: StoreOp)
    ensures
        op == (StoreOp::InvitationsOf { client_id: query.client_id }),
{
    StoreOp::InvitationsOf { client_id: query.client_id }
}

/// The query for every album that a client was invited to.
pub fn get_albums_invited_to(query: GetAlbumsInvitedToRequest) -> (op: StoreOp)
    ensures
        op == (StoreOp::AlbumsInvitedTo { client_id: query.client_id }),
{
    StoreOp::AlbumsInvitedTo { client_id: query.client_id }
}

/// An album whose owner does not match the inviting photographer is refused,
/// whatever else the request says.
pub proof fn lemma_owner_mismatch_refused(req: InvitationRequest, album: Album)
    requires
        album.photographer_id != req.photographer_id,
    ensures
        invitation_step(req, InvitationStage::AwaitAlbum, Reply::AlbumRow(Some(album)))
            == (InvitationStage::Finished, fail::<InvitationRequest>(Invalid::PhotographerMismatch)),
{
}

/// Once the invitation that a request asks for is inserted, the query for the
/// client's invited albums answers albums that include the album of the request.
pub proof fn lemma_invitation_admits_album(
    db: StoreModel,
    db2: StoreModel,
    req: InvitationRequest,
    album: Album,
)
    requires
        db.albums.contains(album),
        album.album_id == req.album_id,
        store_applied(db, insert_of(req), db2),
    ensures
        read_answer(db2, StoreOp::AlbumsInvitedTo { client_id: req.client_id }) == Some(
            Answer::Albums(albums_invited_to(db2, req.client_id)),
        ),
        albums_invited_to(db2, req.client_id).contains(album),
{
    broadcast use vstd::seq_lib::group_filter_ensures;

    let inv = choose|i: crate::models::Invitation|
        i.client_id == req.client_id && i.album_id == req.album_id && i.photographer_id
            == req.photographer_id && #[trigger] db2.invitations == db.invitations.push(i)
            && db2 == (StoreModel { invitations: db.invitations.push(i), ..db });
    let n = db.invitations.len() as int;
    assert(db2.invitations[n] == inv);
    assert(is_invited(db2, req.client_id, album.album_id));
    let k = choose|k: int| 0 <= k < db.albums.len() && db.albums[k] == album;
    assert(db2.albums[k] == album);
}

} // verus!
