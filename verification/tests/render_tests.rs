use rover::render::address_origins_to_string;
use rover::render::render_validity_report;
use rover::types::{AddressOrigin, Route, ValidatedRoute, Validity, ValidityResponse, VRPs};

fn ao(asn: &str, prefix: &str, max_length: &str) -> AddressOrigin {
    AddressOrigin {
        asn: asn.to_string(),
        prefix: prefix.to_string(),
        max_length: max_length.to_string(),
    }
}

fn response(
    state: &str,
    matched: Vec<AddressOrigin>,
    unmatched_as: Vec<AddressOrigin>,
    unmatched_length: Vec<AddressOrigin>,
) -> ValidityResponse {
    ValidityResponse {
        validated_route: ValidatedRoute {
            route: Route { origin_asn: "AS43996".to_string(), prefix: "5.57.16.0/24".to_string() },
            validity: Validity {
                state: state.to_string(),
                reason: None,
                description: "At least one VRP Matches the Route Prefix".to_string(),
                vrps: VRPs { matched, unmatched_as, unmatched_length },
            },
        },
    }
}

fn row(asn: &str, prefix: &str, max_length: &str) -> String {
    format!("{:12} {:18} {}\n", asn, prefix, max_length)
}

fn header_row() -> String {
    row("ASN", "Prefix", "Max Length")
}

#[test]
fn table_has_header_and_one_row_per_record() {
    let records = vec![ao("AS43996", "5.57.16.0/24", "24"), ao("AS26415", "5.57.16.0/24", "24")];
    let expected = format!(
        "{}{}{}",
        header_row(),
        row("AS43996", "5.57.16.0/24", "24"),
        row("AS26415", "5.57.16.0/24", "24")
    );
    assert_eq!(address_origins_to_string(&records), expected);
}

#[test]
fn table_does_not_truncate_wide_values() {
    let records = vec![ao("AS4294967295", "2001:db8:1234:5678::/64", "64")];
    let expected = format!("{}{}", header_row(), row("AS4294967295", "2001:db8:1234:5678::/64", "64"));
    assert_eq!(address_origins_to_string(&records), expected);
}

#[test]
fn render_uppercases_state_and_orders_sections() {
    let json = response(
        "valid",
        vec![ao("AS43996", "5.57.16.0/24", "24")],
        vec![ao("AS26415", "5.57.16.0/24", "24"), ao("AS19905", "5.57.16.0/24", "24")],
        vec![ao("AS43996", "5.57.16.0/21", "21"), ao("AS43996", "5.57.16.0/22", "22")],
    );
    let report = render_validity_report(json, None, "2021-05-02T11:21:31Z".to_string());

    assert_eq!(report.lines().next().unwrap(), "Results for AS43996 - 5.57.16.0/24: VALID");

    let matched_at = report.find("Matched VRPs\n").unwrap();
    let by_asn_at = report.find("Unmatched VRPs - ASN\n").unwrap();
    let by_len_at = report.find("Unmatched VRPs - Length\n").unwrap();
    assert!(matched_at < by_asn_at);
    assert!(by_asn_at < by_len_at);
}

#[test]
fn render_full_report_with_holder_name() {
    let json = response("valid", vec![ao("AS43996", "5.57.16.0/24", "24")], vec![], vec![]);
    let report = render_validity_report(
        json,
        Some("EXAMPLE-AS".to_string()),
        "2021-05-02T11:21:31Z".to_string(),
    );
    let expected = format!(
        "Results for AS43996 - 5.57.16.0/24: VALID\n\
         At least one VRP Matches the Route Prefix\n\
         \nMatched VRPs\n{}{}\
         \nAS Name: EXAMPLE-AS\n\
         Validation last updated at: 2021-05-02T11:21:31Z",
        header_row(),
        row("AS43996", "5.57.16.0/24", "24")
    );
    assert_eq!(report, expected);
}

#[test]
fn render_omits_empty_sections_and_holder_line() {
    let json = response("not-found", vec![], vec![], vec![]);
    let report = render_validity_report(json, None, "never".to_string());
    let expected = "Results for AS43996 - 5.57.16.0/24: NOT-FOUND\n\
                    At least one VRP Matches the Route Prefix\n\
                    \nValidation last updated at: never";
    assert_eq!(report, expected);
    assert!(!report.contains("Matched VRPs"));
    assert!(!report.contains("AS Name:"));
}

#[test]
fn render_includes_only_nonempty_sections() {
    let json = response("invalid", vec![], vec![ao("AS26415", "5.57.16.0/24", "24")], vec![]);
    let report = render_validity_report(json, None, "t".to_string());
    assert!(!report.contains("Matched VRPs"));
    assert!(report.contains("Unmatched VRPs - ASN"));
    assert!(!report.contains("Unmatched VRPs - Length"));
}

#[test]
fn render_is_deterministic_and_idempotent() {
    let make = || {
        response(
            "valid",
            vec![ao("AS43996", "5.57.16.0/24", "24")],
            vec![ao("AS26415", "5.57.16.0/24", "24")],
            vec![],
        )
    };
    let first = render_validity_report(make(), Some("X".to_string()), "now".to_string());
    let second = render_validity_report(make(), Some("X".to_string()), "now".to_string());
    assert_eq!(first, second);
}
