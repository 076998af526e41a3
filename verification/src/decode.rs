//! Structural decoding of the three JSON bodies into typed values.
//!
//! Each decoder checks a body against the expected shape, written out as a
//! spec predicate over the JSON model, and is proved to return `Ok` exactly
//! on well-shaped bodies, with the fields the model projects out.

use vstd::prelude::*;
use vstd::string::*;
use crate::json::{
    json_of, parse_json, json_error_to_string, value_as_array, value_as_str, value_get,
    value_is_null, value_rep, JsonRep,
};
use crate::types::{
    AddressOrigin, AddressOriginView, AsOverviewData, AsOverviewResponse, AsOverviewResponseView,
    Route, RouteView, StatusResponse, StatusResponseView, ValidatedRoute, ValidatedRouteView,
    Validity, ValidityResponse, ValidityResponseView, ValidityView, VRPs, VrpsView,
};

verus! {

/// The documents held by a sequence of parsed trees.
pub open spec fn reps_of(s: Seq<serde_json::Value>) -> Seq<JsonRep> {
    s.map_values(|x: serde_json::Value| value_rep(x))
}

/// The field of an object document, `None` when absent or when the
/// document is no object.
pub open spec fn obj_field(j: JsonRep, k: Seq<char>) -> Option<JsonRep> {
    match j {
        JsonRep::Obj(m) => if m.contains_key(k) {
            Some(m[k])
        } else {
            None
        },
        _ => None,
    }
}

/// The characters of a string-valued field, `None` when the field is
/// absent or not a string.
pub open spec fn str_field(j: JsonRep, k: Seq<char>) -> Option<Seq<char>> {
    match obj_field(j, k) {
        Some(JsonRep::Str(s)) => Some(s),
        _ => None,
    }
}

/// Whether an optional string field is acceptable: absent, null, or a
/// string.
pub open spec fn opt_str_field_ok(j: JsonRep, k: Seq<char>) -> bool {
    match obj_field(j, k) {
        None => true,
        Some(JsonRep::Null) => true,
        Some(JsonRep::Str(_)) => true,
        Some(_) => false,
    }
}

/// The value of an optional string field: the characters when present as a
/// string, `None` when absent or null.
pub open spec fn opt_str_field(j: JsonRep, k: Seq<char>) -> Option<Seq<char>> {
    match obj_field(j, k) {
        Some(JsonRep::Str(s)) => Some(s),
        _ => None,
    }
}

/// The characters of a string field, defaulting to empty; meaningful only
/// where the shape predicate holds.
pub open spec fn str_field_or_empty(j: JsonRep, k: Seq<char>) -> Seq<char> {
    match str_field(j, k) {
        Some(s) => s,
        None => Seq::empty(),
    }
}

/// Expected shape of one address-origin record: an object with string
/// fields `asn`, `prefix` and `max_length`.
pub open spec fn ao_shape_ok(j: JsonRep) -> bool {
    &&& str_field(j, "asn"@) is Some
    &&& str_field(j, "prefix"@) is Some
    &&& str_field(j, "max_length"@) is Some
}

/// The record an address-origin document describes.
pub open spec fn ao_rep_of(j: JsonRep) -> AddressOriginView {
    AddressOriginView {
        asn: str_field_or_empty(j, "asn"@),
        prefix: str_field_or_empty(j, "prefix"@),
        max_length: str_field_or_empty(j, "max_length"@),
    }
}

/// Expected shape of a record list: every element a well-shaped record.
pub open spec fn ao_list_shape_ok(items: Seq<JsonRep>) -> bool {
    forall|i: int| 0 <= i < items.len() ==> ao_shape_ok(#[trigger] items[i])
}

/// The records a list of documents describes, in order.
pub open spec fn ao_list_rep_of(items: Seq<JsonRep>) -> Seq<AddressOriginView> {
    items.map_values(|x: JsonRep| ao_rep_of(x))
}

/// Whether field `k` holds an array of well-shaped records.
pub open spec fn ao_array_field_ok(j: JsonRep, k: Seq<char>) -> bool {
    match obj_field(j, k) {
        Some(JsonRep::Arr(items)) => ao_list_shape_ok(items),
        _ => false,
    }
}

/// The element documents of array field `k`, defaulting to empty.
pub open spec fn ao_array_field(j: JsonRep, k: Seq<char>) -> Seq<JsonRep> {
    match obj_field(j, k) {
        Some(JsonRep::Arr(items)) => items,
        _ => Seq::empty(),
    }
}

/// Expected shape of a freshness/status body: an object with string fields
/// `last_update_done` and `version`.
pub open spec fn status_shape_ok(j: JsonRep) -> bool {
    &&& str_field(j, "last_update_done"@) is Some
    &&& str_field(j, "version"@) is Some
}

/// The status answer a well-shaped body describes.
pub open spec fn status_rep_of(j: JsonRep) -> StatusResponseView {
    StatusResponseView {
        last_update_done: str_field_or_empty(j, "last_update_done"@),
        version: str_field_or_empty(j, "version"@),
    }
}

/// Expected shape of a registry AS-overview body: an object with a string
/// `status` field and a `data` object whose `holder` field, if present, is
/// a string or null.
pub open spec fn overview_shape_ok(j: JsonRep) -> bool {
    &&& str_field(j, "status"@) is Some
    &&& match obj_field(j, "data"@) {
        Some(d) => opt_str_field_ok(d, "holder"@),
        None => false,
    }
}

/// The overview answer a well-shaped body describes.
pub open spec fn overview_rep_of(j: JsonRep) -> AsOverviewResponseView {
    AsOverviewResponseView {
        status: str_field_or_empty(j, "status"@),
        holder: match obj_field(j, "data"@) {
            Some(d) => opt_str_field(d, "holder"@),
            None => None,
        },
    }
}

/// Expected shape of a route-validity body.
pub open spec fn validity_shape_ok(j: JsonRep) -> bool {
    match obj_field(j, "validated_route"@) {
        Some(vr) => {
            &&& match obj_field(vr, "route"@) {
                Some(route) => str_field(route, "origin_asn"@) is Some && str_field(
                    route,
                    "prefix"@,
                ) is Some,
                None => false,
            }
            &&& match obj_field(vr, "validity"@) {
                Some(val) => {
                    &&& str_field(val, "state"@) is Some
                    &&& opt_str_field_ok(val, "reason"@)
                    &&& str_field(val, "description"@) is Some
                    &&& match obj_field(val, "VRPs"@) {
                        Some(vrps) => {
                            &&& ao_array_field_ok(vrps, "matched"@)
                            &&& ao_array_field_ok(vrps, "unmatched_as"@)
                            &&& ao_array_field_ok(vrps, "unmatched_length"@)
                        },
                        None => false,
                    }
                },
                None => false,
            }
        },
        None => false,
    }
}

/// The validity answer a well-shaped body describes.
pub open spec fn validity_rep_of(j: JsonRep) -> ValidityResponseView {
    let vr = obj_field(j, "validated_route"@)->0;
    let route = obj_field(vr, "route"@)->0;
    let val = obj_field(vr, "validity"@)->0;
    let vrps = obj_field(val, "VRPs"@)->0;
    ValidityResponseView {
        validated_route: ValidatedRouteView {
            route: RouteView {
                origin_asn: str_field_or_empty(route, "origin_asn"@),
                prefix: str_field_or_empty(route, "prefix"@),
            },
            validity: ValidityView {
                state: str_field_or_empty(val, "state"@),
                reason: opt_str_field(val, "reason"@),
                description: str_field_or_empty(val, "description"@),
                vrps: VrpsView {
                    matched: ao_list_rep_of(ao_array_field(vrps, "matched"@)),
                    unmatched_as: ao_list_rep_of(ao_array_field(vrps, "unmatched_as"@)),
                    unmatched_length: ao_list_rep_of(ao_array_field(vrps, "unmatched_length"@)),
                },
            },
        },
    }
}

/// The fixed failure detail for a body that parses as JSON but does not
/// have the expected shape.
pub open spec fn shape_detail_spec() -> Seq<char> {
    "response JSON does not have the expected shape"@
}

fn shape_error() -> (r: String)
    ensures
        r@ == shape_detail_spec(),
{
    String::from_str("response JSON does not have the expected shape")
}

/// Decode one address-origin record.
fn decode_ao(v: &serde_json::Value) -> (r: Result<AddressOrigin, String>)
    ensures
        ao_shape_ok(value_rep(*v)) ==> (r matches Ok(a) && a.deep_view() == ao_rep_of(
            value_rep(*v),
        )),
        !ao_shape_ok(value_rep(*v)) ==> (r matches Err(m) && m@ == shape_detail_spec()),
{
    let asn = match value_get(v, "asn") {
        Some(f) => match value_as_str(f) {
            Some(s) => s,
            None => {
                return Err(shape_error());
            },
        },
        None => {
            return Err(shape_error());
        },
    };
    let prefix = match value_get(v, "prefix") {
        Some(f) => match value_as_str(f) {
            Some(s) => s,
            None => {
                return Err(shape_error());
            },
        },
        None => {
            return Err(shape_error());
        },
    };
    let max_length = match value_get(v, "max_length") {
        Some(f) => match value_as_str(f) {
            Some(s) => s,
            None => {
                return Err(shape_error());
            },
        },
        None => {
            return Err(shape_error());
        },
    };
    Ok(AddressOrigin { asn: asn.to_owned(), prefix: prefix.to_owned(), max_length: max_length.to_owned() })
}

/// Decode a record list.
fn decode_ao_array(a: &Vec<serde_json::Value>) -> (r: Result<Vec<AddressOrigin>, String>)
    ensures
        ao_list_shape_ok(reps_of(a@)) ==> (r matches Ok(v) && v.deep_view() == ao_list_rep_of(
            reps_of(a@),
        )),
        !ao_list_shape_ok(reps_of(a@)) ==> (r matches Err(m) && m@ == shape_detail_spec()),
{
    let mut out: Vec<AddressOrigin> = Vec::new();
    let mut i: usize = 0;
    while i < a.len()
        invariant
            i <= a.len(),
            out@.len() == i,
            forall|k: int|
                0 <= k < i ==> ao_shape_ok(#[trigger] reps_of(a@)[k]) && out@[k].deep_view()
                    == ao_rep_of(reps_of(a@)[k]),
        decreases a.len() - i,
    {
        match decode_ao(&a[i]) {
            Ok(ao) => {
                out.push(ao);
                proof {
                    assert(reps_of(a@)[i as int] == value_rep(a@[i as int]));
                    assert(ao.deep_view() == ao_rep_of(reps_of(a@)[i as int]));
                }
            },
            Err(m) => {
                proof {
                    assert(reps_of(a@)[i as int] == value_rep(a@[i as int]));
                    assert(!ao_list_shape_ok(reps_of(a@)));
                }
                return Err(m);
            },
        }
        i = i + 1;
    }
    proof {
        assert forall|k: int| 0 <= k < out@.len() implies out.deep_view()[k] == ao_list_rep_of(
            reps_of(a@),
        )[k] by {
            assert(out.deep_view()[k] == out@[k].deep_view());
            assert(ao_list_rep_of(reps_of(a@))[k] == ao_rep_of(reps_of(a@)[k]));
        }
        assert(out.deep_view() =~= ao_list_rep_of(reps_of(a@)));
    }
    Ok(out)
}

/// Decode the array of records held by field `key`.
fn decode_ao_field(v: &serde_json::Value, key: &str) -> (r: Result<Vec<AddressOrigin>, String>)
    ensures
        ao_array_field_ok(value_rep(*v), key@) ==> (r matches Ok(out) && out.deep_view()
            == ao_list_rep_of(ao_array_field(value_rep(*v), key@))),
        !ao_array_field_ok(value_rep(*v), key@) ==> (r matches Err(m) && m@
            == shape_detail_spec()),
{
    match value_get(v, key) {
        Some(f) => match value_as_array(f) {
            Some(items) => {
                proof {
                    assert(reps_of(items@) =~= ao_array_field(value_rep(*v), key@));
                }
                decode_ao_array(items)
            },
            None => Err(shape_error()),
        },
        None => Err(shape_error()),
    }
}

/// Decode a route-validity body: `Ok` exactly when the body is JSON of the
/// expected shape, with the projected fields; a fixed detail on a shape
/// mismatch, and the parser's detail when the body is not JSON at all.
pub fn decode_validity_body(body: &str) -> (r: Result<ValidityResponse, String>)
    ensures
        json_of(body@) is None ==> r is Err,
        json_of(body@) matches Some(j) ==> {
            &&& validity_shape_ok(j) ==> (r matches Ok(out) && out.deep_view() == validity_rep_of(
                j,
            ))
            &&& !validity_shape_ok(j) ==> (r matches Err(m) && m@ == shape_detail_spec())
        },
{
    let doc = match parse_json(body) {
        Ok(doc) => doc,
        Err(e) => {
            return Err(json_error_to_string(&e));
        },
    };
    let vr = match value_get(&doc, "validated_route") {
        Some(x) => x,
        None => {
            return Err(shape_error());
        },
    };
    let route_doc = match value_get(vr, "route") {
        Some(x) => x,
        None => {
            return Err(shape_error());
        },
    };
    let origin_asn = match value_get(route_doc, "origin_asn") {
        Some(f) => match value_as_str(f) {
            Some(s) => s,
            None => {
                return Err(shape_error());
            },
        },
        None => {
            return Err(shape_error());
        },
    };
    let prefix = match value_get(route_doc, "prefix") {
        Some(f) => match value_as_str(f) {
            Some(s) => s,
            None => {
                return Err(shape_error());
            },
        },
        None => {
            return Err(shape_error());
        },
    };
    let val_doc = match value_get(vr, "validity") {
        Some(x) => x,
        None => {
            return Err(shape_error());
        },
    };
    let state = match value_get(val_doc, "state") {
        Some(f) => match value_as_str(f) {
            Some(s) => s,
            None => {
                return Err(shape_error());
            },
        },
        None => {
            return Err(shape_error());
        },
    };
    let reason: Option<String> = match value_get(val_doc, "reason") {
        None => None,
        Some(f) => {
            if value_is_null(f) {
                None
            } else {
                match value_as_str(f) {
                    Some(s) => Some(s.to_owned()),
                    None => {
                        return Err(shape_error());
                    },
                }
            }
        },
    };
    let description = match value_get(val_doc, "description") {
        Some(f) => match value_as_str(f) {
            Some(s) => s,
            None => {
                return Err(shape_error());
            },
        },
        None => {
            return Err(shape_error());
        },
    };
    let vrps_doc = match value_get(val_doc, "VRPs") {
        Some(x) => x,
        None => {
            return Err(shape_error());
        },
    };
    let matched = match decode_ao_field(vrps_doc, "matched") {
        Ok(v) => v,
        Err(m) => {
            return Err(m);
        },
    };
    let unmatched_as = match decode_ao_field(vrps_doc, "unmatched_as") {
        Ok(v) => v,
        Err(m) => {
            return Err(m);
        },
    };
    let unmatched_length = match decode_ao_field(vrps_doc, "unmatched_length") {
        Ok(v) => v,
        Err(m) => {
            return Err(m);
        },
    };
    Ok(
        ValidityResponse {
            validated_route: ValidatedRoute {
                route: Route { origin_asn: origin_asn.to_owned(), prefix: prefix.to_owned() },
                validity: Validity {
                    state: state.to_owned(),
                    reason,
                    description: description.to_owned(),
                    vrps: VRPs { matched, unmatched_as, unmatched_length },
                },
            },
        },
    )
}

/// Decode a freshness/status body.
pub fn decode_status_body(body: &str) -> (r: Result<StatusResponse, String>)
    ensures
        json_of(body@) is None ==> r is Err,
        json_of(body@) matches Some(j) ==> {
            &&& status_shape_ok(j) ==> (r matches Ok(out) && out.deep_view() == status_rep_of(j))
            &&& !status_shape_ok(j) ==> (r matches Err(m) && m@ == shape_detail_spec())
        },
{
    let doc = match parse_json(body) {
        Ok(doc) => doc,
        Err(e) => {
            return Err(json_error_to_string(&e));
        },
    };
    let last_update_done = match value_get(&doc, "last_update_done") {
        Some(f) => match value_as_str(f) {
            Some(s) => s,
            None => {
                return Err(shape_error());
            },
        },
        None => {
            return Err(shape_error());
        },
    };
    let version = match value_get(&doc, "version") {
        Some(f) => match value_as_str(f) {
            Some(s) => s,
            None => {
                return Err(shape_error());
            },
        },
        None => {
            return Err(shape_error());
        },
    };
    Ok(StatusResponse { last_update_done: last_update_done.to_owned(), version: version.to_owned() })
}

/// Decode a registry AS-overview body.
pub fn decode_overview_body(body: &str) -> (r: Result<AsOverviewResponse, String>)
    ensures
        json_of(body@) is None ==> r is Err,
        json_of(body@) matches Some(j) ==> {
            &&& overview_shape_ok(j) ==> (r matches Ok(out) && out.deep_view() == overview_rep_of(
                j,
            ))
            &&& !overview_shape_ok(j) ==> (r matches Err(m) && m@ == shape_detail_spec())
        },
{
    let doc = match parse_json(body) {
        Ok(doc) => doc,
        Err(e) => {
            return Err(json_error_to_string(&e));
        },
    };
    let status = match value_get(&doc, "status") {
        Some(f) => match value_as_str(f) {
            Some(s) => s,
            None => {
                return Err(shape_error());
            },
        },
        None => {
            return Err(shape_error());
        },
    };
    let data_doc = match value_get(&doc, "data") {
        Some(x) => x,
        None => {
            return Err(shape_error());
        },
    };
    let holder: Option<String> = match value_get(data_doc, "holder") {
        None => None,
        Some(f) => {
            if value_is_null(f) {
                None
            } else {
                match value_as_str(f) {
                    Some(s) => Some(s.to_owned()),
                    None => {
                        return Err(shape_error());
                    },
                }
            }
        },
    };
    Ok(AsOverviewResponse { status: status.to_owned(), data: AsOverviewData { holder } })
}

} // verus!
