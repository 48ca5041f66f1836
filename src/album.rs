use vstd::prelude::*;
use crate::models::{CreateAlbumRequest, GetAlbumsCreatedQuery};
use crate::store::{albums_created_by, read_answer, store_applied, Answer, StoreModel, StoreOp};

verus! {

/// The insert that creates an album; the store returns the stored row.
pub fn create_album(request: CreateAlbumRequest) -> (op: StoreOp)
    ensures
        op == (StoreOp::InsertAlbum {
            photographer_id: request.photographer_id,
            name: request.name,
        }),
{
    StoreOp::InsertAlbum { photographer_id: request.photographer_id, name: request.name }
}

/// The query for every album a photographer created.
pub fn get_albums_created_by_photographer_id(query: GetAlbumsCreatedQuery) -> (op: StoreOp)
    ensures
        op == (StoreOp::AlbumsCreatedBy { photographer_id: query.photographer_id }),
{
    StoreOp::AlbumsCreatedBy { photographer_id: query.photographer_id }
}

/// Reading a photographer's albums changes nothing, so with no write in
/// between, repeating the read gives the same albums.
pub proof fn lemma_albums_created_read_is_idempotent(
    db: StoreModel,
    db1: StoreModel,
    db2: StoreModel,
    query: GetAlbumsCreatedQuery,
)
    requires
        store_applied(db, StoreOp::AlbumsCreatedBy { photographer_id: query.photographer_id }, db1),
        store_applied(db1, StoreOp::AlbumsCreatedBy { photographer_id: query.photographer_id }, db2),
    ensures
        db1 == db,
        db2 == db,
        read_answer(db2, StoreOp::AlbumsCreatedBy { photographer_id: query.photographer_id })
            == read_answer(db1, StoreOp::AlbumsCreatedBy { photographer_id: query.photographer_id }),
        read_answer(db1, StoreOp::AlbumsCreatedBy { photographer_id: query.photographer_id })
            == Some(Answer::Albums(albums_created_by(db, query.photographer_id))),
{
}

} // verus!
