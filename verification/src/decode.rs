//! From payloads to entities.
//!
//! The server writes identifiers as decimal strings, counts as numbers or as
//! decimal strings, and leaves out what it has nothing to say about. A decoder
//! reads the fields of a payload in their wire form and turns them into the
//! typed fields of an entity. It either yields the whole entity or fails: the
//! first field that cannot be read decides the failure.

use vstd::prelude::*;
use crate::decimal::{parse_decimal, parse_u64};
use crate::error::{DecodeError, Field};
use crate::json::{lemma_array_view, member, Json, JsonView};

verus! {

/// The mathematical value of the result of a decoder.
pub open spec fn decoded_view<T: DeepView>(r: Result<T, DecodeError>) -> Result<T::V, DecodeError> {
    match r {
        Ok(value) => Ok(value.deep_view()),
        Err(e) => Err(e),
    }
}

/// A required string field.
pub open spec fn text_field(payload: JsonView, field: Field) -> Result<Seq<char>, DecodeError> {
    match member(payload, field.name()) {
        None => Err(DecodeError::Missing(field)),
        Some(JsonView::Text(s)) => Ok(s),
        Some(_) => Err(DecodeError::Mismatch(field)),
    }
}

/// An optional string field. A field that is absent or null has no value; it
/// is never read as an empty string.
pub open spec fn optional_text_field(payload: JsonView, field: Field) -> Result<
    Option<Seq<char>>,
    DecodeError,
> {
    match member(payload, field.name()) {
        None => Ok(None),
        Some(JsonView::Null) => Ok(None),
        Some(JsonView::Text(s)) => Ok(Some(s)),
        Some(_) => Err(DecodeError::Mismatch(field)),
    }
}

/// A required identifier: a string that denotes an unsigned integer.
pub open spec fn id_field(payload: JsonView, field: Field) -> Result<u64, DecodeError> {
    match member(payload, field.name()) {
        None => Err(DecodeError::Missing(field)),
        Some(JsonView::Text(s)) => match parse_decimal(s) {
            Some(n) => Ok(n),
            None => Err(DecodeError::NotNumeric(field)),
        },
        Some(_) => Err(DecodeError::Mismatch(field)),
    }
}

/// A required count: an unsigned integer, written as a number or as a string
/// that denotes one.
pub open spec fn count_field(payload: JsonView, field: Field) -> Result<u64, DecodeError> {
    match member(payload, field.name()) {
        None => Err(DecodeError::Missing(field)),
        Some(JsonView::Number(n)) => Ok(n),
        Some(JsonView::Text(s)) => match parse_decimal(s) {
            Some(n) => Ok(n),
            None => Err(DecodeError::NotNumeric(field)),
        },
        Some(_) => Err(DecodeError::Mismatch(field)),
    }
}

/// The items of a list field. A list that is absent is empty.
pub open spec fn list_field(payload: JsonView, field: Field) -> Result<
    Seq<JsonView>,
    DecodeError,
> {
    match member(payload, field.name()) {
        None => Ok(Seq::empty()),
        Some(JsonView::Array(items)) => Ok(items),
        Some(_) => Err(DecodeError::Mismatch(field)),
    }
}

/// Reads a required string field.
pub fn read_text(payload: &Json, field: Field) -> (r: Result<String, DecodeError>)
    ensures
        decoded_view(r) == text_field(payload@, field),
{
    match payload.get(field.wire_name()) {
        None => Err(DecodeError::Missing(field)),
        Some(Json::Text(s)) => Ok(s.clone()),
        Some(_) => Err(DecodeError::Mismatch(field)),
    }
}

/// Reads an optional string field.
pub fn read_optional_text(payload: &Json, field: Field) -> (r: Result<
    Option<String>,
    DecodeError,
>)
    ensures
        decoded_view(r) == optional_text_field(payload@, field),
{
    match payload.get(field.wire_name()) {
        None => Ok(None),
        Some(Json::Null) => Ok(None),
        Some(Json::Text(s)) => Ok(Some(s.clone())),
        Some(_) => Err(DecodeError::Mismatch(field)),
    }
}

/// Reads a required identifier.
pub fn read_id(payload: &Json, field: Field) -> (r: Result<u64, DecodeError>)
    ensures
        r == id_field(payload@, field),
{
    match payload.get(field.wire_name()) {
        None => Err(DecodeError::Missing(field)),
        Some(Json::Text(s)) => match parse_u64(s.as_str()) {
            Some(n) => Ok(n),
            None => Err(DecodeError::NotNumeric(field)),
        },
        Some(_) => Err(DecodeError::Mismatch(field)),
    }
}

/// Reads a required count.
pub fn read_count(payload: &Json, field: Field) -> (r: Result<u64, DecodeError>)
    ensures
        r == count_field(payload@, field),
{
    match payload.get(field.wire_name()) {
        None => Err(DecodeError::Missing(field)),
        Some(Json::Number(n)) => Ok(*n),
        Some(Json::Text(s)) => match parse_u64(s.as_str()) {
            Some(n) => Ok(n),
            None => Err(DecodeError::NotNumeric(field)),
        },
        Some(_) => Err(DecodeError::Mismatch(field)),
    }
}

/// A type of entities that payloads are decoded into.
pub trait Decode: DeepView + Sized {
    /// The entity that `payload` holds, or why it holds none.
    spec fn decoded_from(payload: JsonView) -> Result<<Self as DeepView>::V, DecodeError>;

    /// Decodes `payload`.
    fn decode(payload: &Json) -> (r: Result<Self, DecodeError>)
        ensures
            decoded_view(r) == Self::decoded_from(payload@),
    ;
}

/// The entities that `items` hold, in the same order; or, where an item
/// holds none, the failure of the first such item.
pub open spec fn decode_each<T: Decode>(items: Seq<JsonView>) -> Result<
    Seq<<T as DeepView>::V>,
    DecodeError,
>
    decreases items.len(),
{
    if items.len() == 0 {
        Ok(Seq::empty())
    } else {
        match decode_each::<T>(items.drop_last()) {
            Err(e) => Err(e),
            Ok(entities) => match T::decoded_from(items.last()) {
                Err(e) => Err(e),
                Ok(entity) => Ok(entities.push(entity)),
            },
        }
    }
}

/// Decoding a list gives an entity for every item, each decoded from the
/// item at its place, or fails as the first item that holds no entity fails.
pub proof fn lemma_decode_each<T: Decode>(items: Seq<JsonView>)
    ensures
        match decode_each::<T>(items) {
            Ok(entities) => entities.len() == items.len() && forall|i: int|
                0 <= i < items.len() ==> T::decoded_from(#[trigger] items[i]) == Ok::<
                    <T as DeepView>::V,
                    DecodeError,
                >(entities[i]),
            Err(e) => exists|k: int|
                0 <= k < items.len() && T::decoded_from(#[trigger] items[k]) == Err::<
                    <T as DeepView>::V,
                    DecodeError,
                >(e) && forall|i: int| 0 <= i < k ==> T::decoded_from(#[trigger] items[i]) is Ok,
        },
    decreases items.len(),
{
    if items.len() > 0 {
        let front = items.drop_last();
        lemma_decode_each::<T>(front);
        match decode_each::<T>(front) {
            Ok(entities) => {
                assert forall|i: int| 0 <= i < front.len() implies T::decoded_from(
                    #[trigger] items[i],
                ) == Ok::<<T as DeepView>::V, DecodeError>(entities[i]) by {
                    assert(front[i] == items[i]);
                }
                if T::decoded_from(items.last()) is Err {
                    let k = items.len() - 1;
                    assert(T::decoded_from(items[k]) is Err);
                }
            },
            Err(e) => {
                let k = choose|k: int|
                    0 <= k < front.len() && T::decoded_from(#[trigger] front[k]) == Err::<
                        <T as DeepView>::V,
                        DecodeError,
                    >(e) && forall|i: int|
                        0 <= i < k ==> T::decoded_from(#[trigger] front[i]) is Ok;
                assert(front[k] == items[k]);
                assert forall|i: int| 0 <= i < k implies T::decoded_from(
                    #[trigger] items[i],
                ) is Ok by {
                    assert(front[i] == items[i]);
                }
            },
        }
    }
}

/// Decodes every item of `items`.
pub fn decode_items<T: Decode>(items: &Vec<Json>) -> (r: Result<Vec<T>, DecodeError>)
    ensures
        decoded_view(r) == decode_each::<T>(items.deep_view()),
{
    let ghost all = items.deep_view();
    let mut entities: Vec<T> = Vec::new();
    let mut i: usize = 0;
    assert(all.take(0) =~= Seq::empty());
    assert(entities.deep_view() =~= Seq::empty());
    while i < items.len()
        invariant
            i <= items.len(),
            all == items.deep_view(),
            decode_each::<T>(all.take(i as int)) == Ok::<Seq<<T as DeepView>::V>, DecodeError>(
                entities.deep_view(),
            ),
        decreases items.len() - i,
    {
        let ghost before = entities.deep_view();
        assert(all.take(i + 1).drop_last() =~= all.take(i as int));
        assert(all.take(i + 1).last() == items[i as int]@);
        match T::decode(&items[i]) {
            Ok(entity) => {
                entities.push(entity);
                assert(entities.deep_view() =~= before.push(entity.deep_view()));
            },
            Err(e) => {
                proof {
                    lemma_failure_stays::<T>(all, i + 1);
                }
                return Err(e);
            },
        }
        i = i + 1;
    }
    assert(all.take(i as int) =~= all);
    Ok(entities)
}

/// Once a prefix of a list has failed, the list fails in the same way.
proof fn lemma_failure_stays<T: Decode>(items: Seq<JsonView>, k: int)
    requires
        0 <= k <= items.len(),
        decode_each::<T>(items.take(k)) is Err,
    ensures
        decode_each::<T>(items) == decode_each::<T>(items.take(k)),
    decreases items.len(),
{
    if k == items.len() {
        assert(items.take(k) =~= items);
    } else {
        assert(items.drop_last().take(k) =~= items.take(k));
        lemma_failure_stays::<T>(items.drop_last(), k);
    }
}

/// A list of entities is decoded from a JSON array, item by item.
impl<T: Decode> Decode for Vec<T> {
    open spec fn decoded_from(payload: JsonView) -> Result<Seq<<T as DeepView>::V>, DecodeError> {
        match payload {
            JsonView::Array(items) => decode_each::<T>(items),
            _ => Err(DecodeError::NotAList),
        }
    }

    fn decode(payload: &Json) -> (r: Result<Vec<T>, DecodeError>) {
        match payload {
            Json::Array(items) => {
                proof {
                    lemma_array_view(*items);
                }
                decode_items::<T>(items)
            },
            _ => Err(DecodeError::NotAList),
        }
    }
}

/// Reads a list field and decodes its items. A list that is absent is empty.
pub fn read_list<T: Decode>(payload: &Json, field: Field) -> (r: Result<Vec<T>, DecodeError>)
    ensures
        decoded_view(r) == match list_field(payload@, field) {
            Ok(items) => decode_each::<T>(items),
            Err(e) => Err(e),
        },
{
    match payload.get(field.wire_name()) {
        None => {
            let entities: Vec<T> = Vec::new();
            assert(entities.deep_view() =~= Seq::empty());
            Ok(entities)
        },
        Some(Json::Array(items)) => {
            proof {
                lemma_array_view(*items);
            }
            decode_items::<T>(items)
        },
        Some(_) => Err(DecodeError::Mismatch(field)),
    }
}

} // verus!
