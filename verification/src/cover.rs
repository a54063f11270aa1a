//! Cover art: a capability of every entity that may carry a cover identifier.

use vstd::prelude::*;
use vstd::string::*;
use crate::decimal::decimal;
use crate::dispatch::{reply_view, Outcome, Request, RequestView, Step};
use crate::error::{Error, ErrorView};
use crate::query::{with_arg, wire_of, Query};

verus! {

/// An entity that may have cover art.
pub trait CoverArt {
    /// The identifier of the entity's cover art, where it has one.
    spec fn cover(&self) -> Option<Seq<char>>;

    /// The identifier of the entity's cover art, where it has one.
    fn cover_id(&self) -> (id: Option<&String>)
        ensures
            id.deep_view() == self.cover(),
    ;
}

/// The request for the image that `cover` names, scaled to `size` pixels
/// where a size is given.
pub open spec fn cover_art_request(cover: Seq<char>, size: Option<usize>) -> RequestView {
    RequestView {
        operation: "getCoverArt"@,
        params: with_arg(seq![("id"@, cover)], "size"@, wire_of(size)),
    }
}

/// The cover-art operation on an entity whose cover identifier is `cover`.
/// An entity without one has no cover art, whatever `reply` holds, and
/// nothing is asked of the server. Otherwise the image is asked for in one
/// round trip, and the answer is the result as it stands.
pub open spec fn cover_art_step(
    cover: Option<Seq<char>>,
    size: Option<usize>,
    reply: Option<Result<Seq<u8>, ErrorView>>,
) -> Outcome<Seq<u8>> {
    match cover {
        None => Outcome::Done(Err(ErrorView::NoCoverArt)),
        Some(id) => match reply {
            None => Outcome::Send(cover_art_request(id, size)),
            Some(answer) => Outcome::Done(answer),
        },
    }
}

/// One step of fetching the cover art of `entity`. The answer to the request
/// is the image's bytes, which are handed on unchanged.
pub fn cover_art<E: CoverArt>(
    entity: &E,
    size: Option<usize>,
    reply: Option<Result<Vec<u8>, Error>>,
) -> (step: Step<Vec<u8>>)
    ensures
        step.deep_view() == cover_art_step(entity.cover(), size, reply_view(reply)),
{
    match entity.cover_id() {
        None => Step::Done(Err(Error::NoCoverArt)),
        Some(id) => match reply {
            None => {
                let query = Query::with("id", id.as_str()).arg("size", size);
                Step::Send(Request::new("getCoverArt", query))
            },
            Some(Ok(bytes)) => {
                assert(bytes.deep_view() =~= bytes@);
                Step::Done(Ok(bytes))
            },
            Some(Err(error)) => Step::Done(Err(error)),
        },
    }
}

} // verus!
