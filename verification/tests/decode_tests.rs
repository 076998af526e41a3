use rover::decode::decode_validity_body;
use rover::decode::decode_overview_body;
use rover::decode::decode_status_body;

#[test]
fn test_json_parsing() {
    let routinator_validity_http_endpoint_output_sample = r#"
{
  "validated_route": {
    "route": {
      "origin_asn": "AS43996",
      "prefix": "5.57.16.0/24"
    },
    "validity": {
      "state": "valid",
      "description": "At least one VRP Matches the Route Prefix",
      "VRPs": {
        "matched": [
          {
            "asn": "AS43996",
            "prefix": "5.57.16.0/24",
            "max_length": "24"
          }

        ],
        "unmatched_as": [
          {
            "asn": "AS26415",
            "prefix": "5.57.16.0/24",
            "max_length": "24"
          }
,
          {
            "asn": "AS19905",
            "prefix": "5.57.16.0/24",
            "max_length": "24"
          }

        ],
        "unmatched_length": [
          {
            "asn": "AS43996",
            "prefix": "5.57.16.0/21",
            "max_length": "21"
          }
,
          {
            "asn": "AS43996",
            "prefix": "5.57.16.0/22",
            "max_length": "22"
          }

        ]      }
    }
  }
}
"#;

    let json = decode_validity_body(routinator_validity_http_endpoint_output_sample).unwrap();

    assert_eq!(&json.validated_route.route.origin_asn, "AS43996");
    assert_eq!(&json.validated_route.route.prefix, "5.57.16.0/24");

    assert_eq!(&json.validated_route.validity.state, "valid");
    assert_eq!(
        &json.validated_route.validity.description,
        "At least one VRP Matches the Route Prefix"
    );

    assert_eq!(json.validated_route.validity.vrps.matched.len(), 1);
    assert_eq!(&json.validated_route.validity.vrps.matched[0].asn, "AS43996");
    assert_eq!(&json.validated_route.validity.vrps.matched[0].prefix, "5.57.16.0/24");
    assert_eq!(&json.validated_route.validity.vrps.matched[0].max_length, "24");

    assert_eq!(json.validated_route.validity.vrps.unmatched_as.len(), 2);
    assert_eq!(&json.validated_route.validity.vrps.unmatched_as[0].asn, "AS26415");
    assert_eq!(
        &json.validated_route.validity.vrps.unmatched_as[0].prefix,
        "5.57.16.0/24"
    );
    assert_eq!(&json.validated_route.validity.vrps.unmatched_as[0].max_length, "24");
    assert_eq!(&json.validated_route.validity.vrps.unmatched_as[1].asn, "AS19905");
    assert_eq!(
        &json.validated_route.validity.vrps.unmatched_as[1].prefix,
        "5.57.16.0/24"
    );
    assert_eq!(&json.validated_route.validity.vrps.unmatched_as[1].max_length, "24");

    assert_eq!(json.validated_route.validity.vrps.unmatched_length.len(), 2);
    assert_eq!(&json.validated_route.validity.vrps.unmatched_length[0].asn, "AS43996");
    assert_eq!(
        &json.validated_route.validity.vrps.unmatched_length[0].prefix,
        "5.57.16.0/21"
    );
    assert_eq!(&json.validated_route.validity.vrps.unmatched_length[0].max_length, "21");
    assert_eq!(&json.validated_route.validity.vrps.unmatched_length[1].asn, "AS43996");
    assert_eq!(
        &json.validated_route.validity.vrps.unmatched_length[1].prefix,
        "5.57.16.0/22"
    );
    assert_eq!(&json.validated_route.validity.vrps.unmatched_length[1].max_length, "22");
}

#[test]
fn validity_body_with_reason_field() {
    let body = r#"{"validated_route":{"route":{"origin_asn":"AS1","prefix":"10.0.0.0/8"},
        "validity":{"state":"invalid","reason":"as","description":"d",
        "VRPs":{"matched":[],"unmatched_as":[],"unmatched_length":[]}}}}"#;
    let json = decode_validity_body(body).unwrap();
    assert_eq!(json.validated_route.validity.reason.as_deref(), Some("as"));
    assert!(json.validated_route.validity.vrps.matched.is_empty());
}

#[test]
fn validity_body_with_null_reason() {
    let body = r#"{"validated_route":{"route":{"origin_asn":"AS1","prefix":"10.0.0.0/8"},
        "validity":{"state":"not-found","reason":null,"description":"d",
        "VRPs":{"matched":[],"unmatched_as":[],"unmatched_length":[]}}}}"#;
    let json = decode_validity_body(body).unwrap();
    assert_eq!(json.validated_route.validity.reason, None);
}

#[test]
fn validity_body_not_json_is_rejected() {
    assert!(decode_validity_body("not json at all").is_err());
}

#[test]
fn validity_body_wrong_shape_is_rejected() {
    // Parses as JSON but the record's max_length is a number, not a string.
    let body = r#"{"validated_route":{"route":{"origin_asn":"AS1","prefix":"10.0.0.0/8"},
        "validity":{"state":"valid","description":"d",
        "VRPs":{"matched":[{"asn":"AS1","prefix":"10.0.0.0/8","max_length":8}],
        "unmatched_as":[],"unmatched_length":[]}}}}"#;
    let err = decode_validity_body(body).unwrap_err();
    assert_eq!(err, "response JSON does not have the expected shape");
}

#[test]
fn status_body_is_decoded() {
    let body = r#"{"last_update_done":"2021-05-02T11:21:31Z","version":"0.9.0","extra":7}"#;
    let status = decode_status_body(body).unwrap();
    assert_eq!(&status.last_update_done, "2021-05-02T11:21:31Z");
    assert_eq!(&status.version, "0.9.0");
}

#[test]
fn status_body_missing_field_is_rejected() {
    let err = decode_status_body(r#"{"version":"0.9.0"}"#).unwrap_err();
    assert_eq!(err, "response JSON does not have the expected shape");
}

#[test]
fn overview_body_with_holder() {
    let body = r#"{"status":"ok","data":{"holder":"EXAMPLE-AS"}}"#;
    let overview = decode_overview_body(body).unwrap();
    assert_eq!(&overview.status, "ok");
    assert_eq!(overview.data.holder.as_deref(), Some("EXAMPLE-AS"));
}

#[test]
fn overview_body_with_null_holder() {
    let body = r#"{"status":"ok","data":{"holder":null}}"#;
    let overview = decode_overview_body(body).unwrap();
    assert_eq!(overview.data.holder, None);
}

#[test]
fn overview_body_without_holder_field() {
    let body = r#"{"status":"ok","data":{}}"#;
    let overview = decode_overview_body(body).unwrap();
    assert_eq!(overview.data.holder, None);
}
