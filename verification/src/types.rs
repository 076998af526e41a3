//! Data carried between the services and the report renderer.
//!
//! The exec structs mirror the JSON bodies of the two services; each has a
//! mathematical view (`deep_view`) whose fields are character sequences, and
//! every contract in this crate speaks of those views.

use vstd::prelude::*;

verus! {

/// The announced route being checked: origin AS number and address prefix.
#[derive(Clone, Debug, PartialEq, Eq)]
pub struct Route {
    pub origin_asn: String,
    pub prefix: String,
}

/// One validated ROA payload (address-origin record) compared against the
/// announcement.  All fields are kept as the service sent them, as strings.
#[derive(Clone, Debug, PartialEq, Eq)]
pub struct AddressOrigin {
    pub asn: String,
    pub prefix: String,
    pub max_length: String,
}

/// The three disjoint record categories of a validity answer, ordered as
/// received.  Categorization is performed server-side and trusted as given.
#[derive(Clone, Debug, PartialEq, Eq)]
pub struct VRPs {
    pub matched: Vec<AddressOrigin>,
    pub unmatched_as: Vec<AddressOrigin>,
    pub unmatched_length: Vec<AddressOrigin>,
}

/// The validity classification of the announcement, with its free-text
/// description and the supporting records.
#[derive(Clone, Debug, PartialEq, Eq)]
pub struct Validity {
    pub state: String,
    pub reason: Option<String>,
    pub description: String,
    pub vrps: VRPs,
}

/// A route together with its validity classification.
#[derive(Clone, Debug, PartialEq, Eq)]
pub struct ValidatedRoute {
    pub route: Route,
    pub validity: Validity,
}

/// The body of a route-validity answer.
#[derive(Clone, Debug, PartialEq, Eq)]
pub struct ValidityResponse {
    pub validated_route: ValidatedRoute,
}

/// The body of a freshness/status answer: when the validation data was last
/// updated (an opaque timestamp string) and the service version.
#[derive(Clone, Debug, PartialEq, Eq)]
pub struct StatusResponse {
    pub last_update_done: String,
    pub version: String,
}

/// The payload of a registry AS-overview answer: the holder name on file,
/// or `None` when the registry has none.
#[derive(Clone, Debug, PartialEq, Eq)]
pub struct AsOverviewData {
    pub holder: Option<String>,
}

/// The body of a registry AS-overview answer: a response-level status field
/// and the payload.
#[derive(Clone, Debug, PartialEq, Eq)]
pub struct AsOverviewResponse {
    pub status: String,
    pub data: AsOverviewData,
}

/// Mathematical view of an `AddressOrigin`.
pub struct AddressOriginView {
    pub asn: Seq<char>,
    pub prefix: Seq<char>,
    pub max_length: Seq<char>,
}

/// Mathematical view of a `Route`.
pub struct RouteView {
    pub origin_asn: Seq<char>,
    pub prefix: Seq<char>,
}

/// Mathematical view of the three record categories.
pub struct VrpsView {
    pub matched: Seq<AddressOriginView>,
    pub unmatched_as: Seq<AddressOriginView>,
    pub unmatched_length: Seq<AddressOriginView>,
}

/// Mathematical view of a `Validity`.
pub struct ValidityView {
    pub state: Seq<char>,
    pub reason: Option<Seq<char>>,
    pub description: Seq<char>,
    pub vrps: VrpsView,
}

/// Mathematical view of a `ValidatedRoute`.
pub struct ValidatedRouteView {
    pub route: RouteView,
    pub validity: ValidityView,
}

/// Mathematical view of a `ValidityResponse`.
pub struct ValidityResponseView {
    pub validated_route: ValidatedRouteView,
}

/// Mathematical view of a `StatusResponse`.
pub struct StatusResponseView {
    pub last_update_done: Seq<char>,
    pub version: Seq<char>,
}

/// Mathematical view of an `AsOverviewResponse`.
pub struct AsOverviewResponseView {
    pub status: Seq<char>,
    pub holder: Option<Seq<char>>,
}

impl DeepView for AddressOrigin {
    type V = AddressOriginView;

    open spec fn deep_view(&self) -> AddressOriginView {
        AddressOriginView { asn: self.asn@, prefix: self.prefix@, max_length: self.max_length@ }
    }
}

impl DeepView for Route {
    type V = RouteView;

    open spec fn deep_view(&self) -> RouteView {
        RouteView { origin_asn: self.origin_asn@, prefix: self.prefix@ }
    }
}

impl DeepView for VRPs {
    type V = VrpsView;

    open spec fn deep_view(&self) -> VrpsView {
        VrpsView {
            matched: self.matched.deep_view(),
            unmatched_as: self.unmatched_as.deep_view(),
            unmatched_length: self.unmatched_length.deep_view(),
        }
    }
}

impl DeepView for Validity {
    type V = ValidityView;

    open spec fn deep_view(&self) -> ValidityView {
        ValidityView {
            state: self.state@,
            reason: self.reason.deep_view(),
            description: self.description@,
            vrps: self.vrps.deep_view(),
        }
    }
}

impl DeepView for ValidatedRoute {
    type V = ValidatedRouteView;

    open spec fn deep_view(&self) -> ValidatedRouteView {
        ValidatedRouteView { route: self.route.deep_view(), validity: self.validity.deep_view() }
    }
}

impl DeepView for ValidityResponse {
    type V = ValidityResponseView;

    open spec fn deep_view(&self) -> ValidityResponseView {
        ValidityResponseView { validated_route: self.validated_route.deep_view() }
    }
}

impl DeepView for StatusResponse {
    type V = StatusResponseView;

    open spec fn deep_view(&self) -> StatusResponseView {
        StatusResponseView { last_update_done: self.last_update_done@, version: self.version@ }
    }
}

impl DeepView for AsOverviewResponse {
    type V = AsOverviewResponseView;

    open spec fn deep_view(&self) -> AsOverviewResponseView {
        AsOverviewResponseView { status: self.status@, holder: self.data.holder.deep_view() }
    }
}

} // verus!
