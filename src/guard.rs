use vstd::prelude::*;

use crate::error::RepoError;
use crate::post::{DocId, Post};
use crate::requests::{delete_spec, DeleteSpec, UpdateSpec};

verus! {

/// A status code in the success class.
pub open spec fn is_success(status: u16) -> bool {
    200 <= status < 300
}

/// The status the engine answers for a missing index or document.
pub const NOT_FOUND: u16 = 404;

pub fn success(status: u16) -> (r: bool)
    ensures
        r == is_success(status),
{
    200 <= status && status < 300
}

/// A point lookup of one document, routed to the shard the document was written to.
#[derive(Clone, Debug, PartialEq, Eq)]
pub struct PointLookup {
    pub doc_id: String,
    pub routing: String,
}

/// The lookup of the document `id`: its text is both the key and the routing value.
pub fn lookup_for(id: DocId) -> (r: PointLookup)
    ensures
        r.doc_id@ == id.text(),
        r.routing@ == id.text(),
{
    PointLookup { doc_id: id.to_text(), routing: id.to_text() }
}

/// Whether a lookup found the document: only a success status says so; any
/// failure to ask counts as absent.
pub open spec fn found(answer: Result<u16, RepoError>) -> bool {
    answer matches Ok(s) && is_success(s)
}

pub fn exists_from_answer(answer: &Result<u16, RepoError>) -> (r: bool)
    ensures
        r == found(*answer),
        answer is Err ==> !r,
{
    match answer {
        Ok(s) => success(*s),
        Err(_) => false,
    }
}

/// Whether a required write went through: a transport failure is passed on,
/// a non-success status becomes `EngineStatus`.
pub open spec fn write_result(answer: Result<u16, RepoError>) -> Result<(), RepoError> {
    match answer {
        Ok(s) => if is_success(s) {
            Ok(())
        } else {
            Err(RepoError::EngineStatus(s))
        },
        Err(e) => Err(e),
    }
}

pub fn check_write(answer: Result<u16, RepoError>) -> (r: Result<(), RepoError>)
    ensures
        r == write_result(answer),
{
    match answer {
        Ok(s) => if success(s) {
            Ok(())
        } else {
            Err(RepoError::EngineStatus(s))
        },
        Err(e) => Err(e),
    }
}

} // verus!

verus! {

/// The update to send once the existence check has answered: the document's
/// partial update if it was found, `NotFound` otherwise.
pub fn update_request(answer: &Result<u16, RepoError>, post: &Post) -> (r: Result<
    UpdateSpec,
    RepoError,
>)
    ensures
        found(*answer) ==> (r matches Ok(u) && post.is_update_of(u)),
        !found(*answer) ==> r == Err::<UpdateSpec, RepoError>(RepoError::NotFound),
{
    if exists_from_answer(answer) {
        Ok(post.update_by_query())
    } else {
        Err(RepoError::NotFound)
    }
}

/// The delete to send once the existence check for `id` has answered: the
/// delete of `id` if it was found, `NotFound` otherwise.
pub fn delete_request(answer: &Result<u16, RepoError>, id: DocId) -> (r: Result<
    DeleteSpec,
    RepoError,
>)
    ensures
        found(*answer) ==> (r matches Ok(d) && d.match_id@ == id.text()),
        !found(*answer) ==> r == Err::<DeleteSpec, RepoError>(RepoError::NotFound),
{
    if exists_from_answer(answer) {
        Ok(delete_spec(id))
    } else {
        Err(RepoError::NotFound)
    }
}

} // verus!
