use vstd::prelude::*;

use crate::error::{Problem, StoreError};

verus! {

pub const OK: u16 = 200;
pub const CREATED: u16 = 201;
pub const NO_CONTENT: u16 = 204;
pub const BAD_REQUEST: u16 = 400;
pub const NOT_FOUND: u16 = 404;
pub const INTERNAL_SERVER_ERROR: u16 = 500;

/// What a response carries, before it is put on the wire.
#[derive(Clone, Debug)]
pub enum Body<T> {
    /// No body at all.
    Empty,
    /// One record.
    Record(T),
    /// Every record of a listing, possibly none.
    Records(Vec<T>),
    /// The requested record does not exist.
    NotFound,
    /// The request body was rejected before reaching the store.
    Invalid(Problem),
    /// The store failed; its detail is passed on.
    Failed(StoreError),
}

/// An HTTP status code with the body that goes with it.
#[derive(Clone, Debug)]
pub struct Response<T> {
    pub status: u16,
    pub body: Body<T>,
}

pub open spec fn reply<T>(status: u16, body: Body<T>) -> Response<T> {
    Response { status, body }
}

/// The response to a store failure.
pub open spec fn failed<T>(e: StoreError) -> Response<T> {
    reply(INTERNAL_SERVER_ERROR, Body::Failed(e))
}

/// The response to a rejected request body.
pub open spec fn rejected<T>(p: Problem) -> Response<T> {
    reply(BAD_REQUEST, Body::Invalid(p))
}

/// The response to a listing: every record, or the store's failure.
pub open spec fn listed<T>(o: Result<Vec<T>, StoreError>) -> Response<T> {
    match o {
        Ok(v) => reply(OK, Body::Records(v)),
        Err(e) => failed(e),
    }
}

/// The response to a lookup or a replacement: the record, 404 where there
/// is none, or the store's failure.
pub open spec fn found<T>(o: Result<Option<T>, StoreError>) -> Response<T> {
    match o {
        Ok(Some(m)) => reply(OK, Body::Record(m)),
        Ok(None) => reply(NOT_FOUND, Body::NotFound),
        Err(e) => failed(e),
    }
}

/// The response to an insert: the new record, or the store's failure.
pub open spec fn created<T>(o: Result<T, StoreError>) -> Response<T> {
    match o {
        Ok(m) => reply(CREATED, Body::Record(m)),
        Err(e) => failed(e),
    }
}

/// The response to a removal: 204 where a row went, 404 where none was,
/// or the store's failure.
pub open spec fn removed<T>(o: Result<bool, StoreError>) -> Response<T> {
    match o {
        Ok(true) => reply(NO_CONTENT, Body::Empty),
        Ok(false) => reply(NOT_FOUND, Body::NotFound),
        Err(e) => failed(e),
    }
}

pub fn respond_rejected<T>(p: Problem) -> (r: Response<T>)
    ensures
        r == rejected::<T>(p),
{
    Response { status: BAD_REQUEST, body: Body::Invalid(p) }
}

pub fn respond_listed<T>(o: Result<Vec<T>, StoreError>) -> (r: Response<T>)
    ensures
        r == listed(o),
{
    match o {
        Ok(v) => Response { status: OK, body: Body::Records(v) },
        Err(e) => Response { status: INTERNAL_SERVER_ERROR, body: Body::Failed(e) },
    }
}

pub fn respond_found<T>(o: Result<Option<T>, StoreError>) -> (r: Response<T>)
    ensures
        r == found(o),
{
    match o {
        Ok(Some(m)) => Response { status: OK, body: Body::Record(m) },
        Ok(None) => Response { status: NOT_FOUND, body: Body::NotFound },
        Err(e) => Response { status: INTERNAL_SERVER_ERROR, body: Body::Failed(e) },
    }
}

pub fn respond_created<T>(o: Result<T, StoreError>) -> (r: Response<T>)
    ensures
        r == created(o),
{
    match o {
        Ok(m) => Response { status: CREATED, body: Body::Record(m) },
        Err(e) => Response { status: INTERNAL_SERVER_ERROR, body: Body::Failed(e) },
    }
}

pub fn respond_removed<T>(o: Result<bool, StoreError>) -> (r: Response<T>)
    ensures
        r == removed::<T>(o),
{
    match o {
        Ok(true) => Response { status: NO_CONTENT, body: Body::Empty },
        Ok(false) => Response { status: NOT_FOUND, body: Body::NotFound },
        Err(e) => Response { status: INTERNAL_SERVER_ERROR, body: Body::Failed(e) },
    }
}

} // verus!
