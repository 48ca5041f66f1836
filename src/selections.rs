use vstd::prelude::*;
use crate::error::{ApiError, Invalid};
use crate::models::{Photo, SelectionsQuery, SelectionsRequest};
use crate::store::{
    answers_store, has_selected, is_read, read_answer, selected_photos, store_applied, Action,
    Answer, Reply, SelectionRow, StoreModel, StoreOp,
};

verus! {

/// Where a selection request stands.
#[derive(Clone, Copy, Debug, PartialEq, Eq)]
pub enum SelectionStage {
    /// Waiting for the album row.
    AwaitAlbum,
    /// Waiting for the insert of the selection of `photo_ids[i]`.
    AwaitInsert(usize),
    Finished,
}

/// The selection workflow: it checks that the album exists, then inserts one
/// selection per photo id, in the order given, and stops at the first failure.
#[derive(Debug)]
pub struct SelectionFlow {
    pub request: SelectionsRequest,
    pub stage: SelectionStage,
}

pub open spec fn selection_insert(req: SelectionsRequest, i: int) -> StoreOp {
    StoreOp::InsertSelection { photo_id: req.photo_ids@[i], client_id: req.client_id }
}

/// The operation that a flow in `stage` waits on.
pub open spec fn selection_pending(req: SelectionsRequest, stage: SelectionStage) -> Option<
    StoreOp,
> {
    match stage {
        SelectionStage::AwaitAlbum => Some(StoreOp::FindAlbum { album_id: req.album_id }),
        SelectionStage::AwaitInsert(i) => if i < req.photo_ids@.len() {
            Some(selection_insert(req, i as int))
        } else {
            None
        },
        SelectionStage::Finished => None,
    }
}

/// Insert the selection at index `i`, or finish when none is left.
pub open spec fn next_insert(req: SelectionsRequest, i: int) -> (
    SelectionStage,
    Action<SelectionsRequest>,
) {
    if i < req.photo_ids@.len() {
        (SelectionStage::AwaitInsert(i as usize), Action::Store(selection_insert(req, i)))
    } else {
        (SelectionStage::Finished, Action::Finish(Ok(req)))
    }
}

/// The next stage and action of a flow in `stage` on `reply`.
pub open spec fn selection_step(req: SelectionsRequest, stage: SelectionStage, reply: Reply) -> (
    SelectionStage,
    Action<SelectionsRequest>,
) {
    match reply {
        Reply::Failed(m) => (SelectionStage::Finished, Action::Finish(Err(ApiError::Internal(m)))),
        Reply::AlbumRow(row) => if row is None {
            (SelectionStage::Finished, Action::Finish(Err(ApiError::Validation(Invalid::UnknownAlbum))))
        } else {
            next_insert(req, 0)
        },
        _ => match stage {
            SelectionStage::AwaitInsert(i) => next_insert(req, i + 1),
            _ => (SelectionStage::Finished, Action::Finish(Ok(req))),
        },
    }
}

/// Whether two actions agree, comparing echoed requests by their content.
pub open spec fn same_action(a: Action<SelectionsRequest>, b: Action<SelectionsRequest>) -> bool {
    match (a, b) {
        (Action::Finish(Ok(x)), Action::Finish(Ok(y))) => x.client_id == y.client_id && x.album_id
            == y.album_id && x.photo_ids@ == y.photo_ids@,
        _ => a == b,
    }
}

fn copy_request(req: &SelectionsRequest) -> (r: SelectionsRequest)
    ensures
        r.client_id == req.client_id,
        r.album_id == req.album_id,
        r.photo_ids@ == req.photo_ids@,
{
    let mut ids: Vec<i32> = Vec::new();
    let mut i: usize = 0;
    while i < req.photo_ids.len()
        invariant
            i <= req.photo_ids@.len(),
            ids@ == req.photo_ids@.take(i as int),
        decreases req.photo_ids@.len() - i,
    {
        ids.push(req.photo_ids[i]);
        i = i + 1;
        assert(ids@ =~= req.photo_ids@.take(i as int));
    }
    assert(ids@ =~= req.photo_ids@);
    SelectionsRequest { client_id: req.client_id, album_id: req.album_id, photo_ids: ids }
}

/// Starts the workflow that records a client's selection of photos of an
/// album. Its first operation only reads.
pub fn select_photos(request: SelectionsRequest) -> (r: (SelectionFlow, Action<SelectionsRequest>))
    ensures
        r.0.request == request,
        r.0.stage == SelectionStage::AwaitAlbum,
        r.1 == Action::<SelectionsRequest>::Store(StoreOp::FindAlbum { album_id: request.album_id }),
{
    let album_id = request.album_id;
    (
        SelectionFlow { request, stage: SelectionStage::AwaitAlbum },
        Action::Store(StoreOp::FindAlbum { album_id }),
    )
}

impl SelectionFlow {
    pub open spec fn pending(&self) -> Option<StoreOp> {
        selection_pending(self.request, self.stage)
    }

    fn insert_or_finish(&mut self, i: usize) -> (a: Action<SelectionsRequest>)
        requires
            i <= old(self).request.photo_ids@.len(),
        ensures
            final(self).request == old(self).request,
            final(self).stage == next_insert(old(self).request, i as int).0,
            same_action(a, next_insert(old(self).request, i as int).1),
    {
        if i < self.request.photo_ids.len() {
            self.stage = SelectionStage::AwaitInsert(i);
            Action::Store(
                StoreOp::InsertSelection {
                    photo_id: self.request.photo_ids[i],
                    client_id: self.request.client_id,
                },
            )
        } else {
            self.stage = SelectionStage::Finished;
            Action::Finish(Ok(copy_request(&self.request)))
        }
    }

    /// Hands the flow the answer to its pending operation.
    pub fn resume(&mut self, reply: Reply) -> (a: Action<SelectionsRequest>)
        requires
            old(self).pending() is Some,
            answers_store(old(self).pending().unwrap(), reply),
        ensures
            final(self).request == old(self).request,
            final(self).stage == selection_step(old(self).request, old(self).stage, reply).0,
            same_action(a, selection_step(old(self).request, old(self).stage, reply).1),
    {
        match reply {
            Reply::Failed(m) => {
                self.stage = SelectionStage::Finished;
                Action::Finish(Err(ApiError::Internal(m)))
            },
            Reply::AlbumRow(row) => {
                if row.is_none() {
                    self.stage = SelectionStage::Finished;
                    Action::Finish(Err(ApiError::Validation(Invalid::UnknownAlbum)))
                } else {
                    self.insert_or_finish(0)
                }
            },
            _ => match self.stage {
                SelectionStage::AwaitInsert(i) => {
                    let n = self.request.photo_ids.len();
                    assert(i < n);
                    self.insert_or_finish(i + 1)
                },
                _ => {
                    self.stage = SelectionStage::Finished;
                    Action::Finish(Ok(copy_request(&self.request)))
                },
            },
        }
    }
}

/// The query for a client's selections in an album.
pub fn get_selections_by_client_and_album(query: SelectionsQuery) -> (op: StoreOp)
    ensures
        op == (StoreOp::SelectionsOf { client_id: query.client_id, album_id: query.album_id }),
{
    StoreOp::SelectionsOf { client_id: query.client_id, album_id: query.album_id }
}

/// The query for the photos of an album that a client selected.
pub fn get_selected_photos_by_client_and_album(query: SelectionsQuery) -> (op: StoreOp)
    ensures
        op == (StoreOp::SelectedPhotos { client_id: query.client_id, album_id: query.album_id }),
{
    StoreOp::SelectedPhotos { client_id: query.client_id, album_id: query.album_id }
}

/// A selection against an album that does not exist is refused, and nothing
/// has been written: the only operation asked for before is a read.
pub proof fn lemma_missing_album_writes_nothing(req: SelectionsRequest)
    ensures
        is_read(StoreOp::FindAlbum { album_id: req.album_id }),
        selection_step(req, SelectionStage::AwaitAlbum, Reply::AlbumRow(None)) == (
            SelectionStage::Finished,
            Action::<SelectionsRequest>::Finish(Err(ApiError::Validation(Invalid::UnknownAlbum))),
        ),
{
}

proof fn lemma_filter_is_single(s: Seq<Photo>, pred: spec_fn(Photo) -> bool, k: int)
    requires
        0 <= k < s.len(),
        pred(s[k]),
        forall|i: int| 0 <= i < s.len() && i != k ==> !pred(#[trigger] s[i]),
    ensures
        s.filter(pred) == seq![s[k]],
    decreases s.len(),
{
    reveal(Seq::filter);
    let init = s.drop_last();
    if k == s.len() - 1 {
        init.lemma_all_neg_filter_empty(pred);
        assert(init.filter(pred) =~= Seq::<Photo>::empty());
    } else {
        assert forall|i: int| 0 <= i < init.len() && i != k implies !pred(#[trigger] init[i]) by {
            assert(init[i] == s[i]);
        }
        lemma_filter_is_single(init, pred, k);
        assert(!pred(s[s.len() - 1]));
    }
}

/// Where a client had selected nothing in an album and photo ids are unique,
/// selecting one photo of that album makes the query for the client's selected
/// photos there answer exactly that photo.
pub proof fn lemma_selection_round_trip(
    db: StoreModel,
    db2: StoreModel,
    client_id: i32,
    photo: Photo,
)
    requires
        db.photos.contains(photo),
        forall|i: int, j: int|
            0 <= i < db.photos.len() && 0 <= j < db.photos.len() && #[trigger] db.photos[i].photo_id
                == #[trigger] db.photos[j].photo_id ==> i == j,
        selected_photos(db, client_id, photo.album_id).len() == 0,
        store_applied(
            db,
            StoreOp::InsertSelection { photo_id: photo.photo_id, client_id },
            db2,
        ),
    ensures
        read_answer(db2, StoreOp::SelectedPhotos { client_id, album_id: photo.album_id }) == Some(
            Answer::Photos(seq![photo]),
        ),
{
    broadcast use vstd::seq_lib::group_filter_ensures;

    let a = photo.album_id;
    let row = choose|s: SelectionRow|
        s.photo_id == photo.photo_id && s.client_id == client_id
            && #[trigger] db2.selections == db.selections.push(s)
            && db2 == (StoreModel { selections: db.selections.push(s), ..db });
    let n = db.selections.len() as int;
    assert(db2.selections[n] == row);
    let k = choose|k: int| 0 <= k < db.photos.len() && db.photos[k] == photo;
    let pred1 = |p: Photo| p.album_id == a && has_selected(db, client_id, p.photo_id);
    let pred2 = |p: Photo| p.album_id == a && has_selected(db2, client_id, p.photo_id);
    assert(has_selected(db2, client_id, photo.photo_id));
    assert forall|i: int| 0 <= i < db2.photos.len() && i != k implies !pred2(
        #[trigger] db2.photos[i],
    ) by {
        let q = db.photos[i];
        if pred2(q) {
            assert(q.photo_id != photo.photo_id);
            let j = choose|j: int|
                0 <= j < db2.selections.len() && #[trigger] db2.selections[j].client_id == client_id
                    && db2.selections[j].photo_id == q.photo_id;
            assert(j < n);
            assert(db.selections[j] == db2.selections[j]);
            assert(pred1(q));
            assert(db.photos.filter(pred1).contains(q));
        }
    }
    lemma_filter_is_single(db2.photos, pred2, k);
    assert(selected_photos(db2, client_id, a) == seq![photo]);
}

} // verus!
