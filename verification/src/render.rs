//! The report renderer: a pure function from a validity answer, an optional
//! holder name and a freshness timestamp to the final text block.
//!
//! Every record category is rendered as a fixed-width table whose columns
//! are left-aligned and padded to configured minimum widths; values wider
//! than the configured width are not truncated.

use vstd::prelude::*;
use vstd::string::*;
use crate::types::{AddressOrigin, AddressOriginView, ValidityResponse, ValidityResponseView};

verus! {

/// Minimum width of the ASN column, in characters.
pub const LONGEST_EXPECTED_ASN: usize = 12;

/// Minimum width of the prefix column, in characters.
pub const LONGEST_EXPECTED_PREFIX: usize = 18;

/// Relies on str::to_uppercase: the result depends on the characters alone.
pub uninterp spec fn upper_of(s: Seq<char>) -> Seq<char>;

/// Relies on str::to_uppercase for upper-casing the validity state.
#[verifier::external_body]
fn to_uppercase(s: &str) -> (r: String)
    ensures
        r@ == upper_of(s@),
{
    s.to_uppercase()
}

/// `n` space characters.
pub open spec fn spaces(n: nat) -> Seq<char> {
    Seq::new(n, |i: int| ' ')
}

/// `s` left-aligned in a field of minimum width `w`: padded with trailing
/// spaces when shorter, unchanged (not truncated) when at least as wide.
pub open spec fn pad_spec(s: Seq<char>, w: nat) -> Seq<char> {
    if s.len() < w {
        s + spaces((w - s.len()) as nat)
    } else {
        s
    }
}

/// One table row: ASN and prefix columns padded to their configured widths,
/// single-space separators, the max-length column unpadded, then a newline.
pub open spec fn row_spec(asn: Seq<char>, prefix: Seq<char>, max_length: Seq<char>) -> Seq<char> {
    pad_spec(asn, LONGEST_EXPECTED_ASN as nat) + " "@ + pad_spec(
        prefix,
        LONGEST_EXPECTED_PREFIX as nat,
    ) + " "@ + max_length + "\n"@
}

/// The data rows of a table, one per record, in received order.
pub open spec fn rows_spec(aos: Seq<AddressOriginView>) -> Seq<char>
    decreases aos.len(),
{
    if aos.len() == 0 {
        Seq::empty()
    } else {
        rows_spec(aos.drop_last()) + row_spec(
            aos.last().asn,
            aos.last().prefix,
            aos.last().max_length,
        )
    }
}

/// A full table: the header row followed by one row per record.
pub open spec fn table_spec(aos: Seq<AddressOriginView>) -> Seq<char> {
    row_spec("ASN"@, "Prefix"@, "Max Length"@) + rows_spec(aos)
}

/// One record-category section: nothing at all when the category is empty,
/// else a blank line, the category header line, and the table.
pub open spec fn section_spec(header: Seq<char>, aos: Seq<AddressOriginView>) -> Seq<char> {
    if aos.len() == 0 {
        Seq::empty()
    } else {
        "\n"@ + header + table_spec(aos)
    }
}

/// The first two report lines: the result line (state upper-cased) and the
/// verbatim free-text description.
pub open spec fn report_head_spec(v: ValidityResponseView) -> Seq<char> {
    "Results for "@ + v.validated_route.route.origin_asn + " - "@ + v.validated_route.route.prefix
        + ": "@ + upper_of(v.validated_route.validity.state) + "\n"@
        + v.validated_route.validity.description + "\n"@
}

/// The report trailer: a blank line, the optional holder-name line, and the
/// freshness timestamp passed through verbatim.
pub open spec fn report_tail_spec(as_name: Option<Seq<char>>, last_update: Seq<char>) -> Seq<
    char,
> {
    "\n"@ + (match as_name {
        Some(n) => "AS Name: "@ + n + "\n"@,
        None => Seq::<char>::empty(),
    }) + "Validation last updated at: "@ + last_update
}

/// The whole report: head, the three category sections in fixed order
/// (matched, unmatched-by-ASN, unmatched-by-length), then the trailer.
pub open spec fn report_spec(
    v: ValidityResponseView,
    as_name: Option<Seq<char>>,
    last_update: Seq<char>,
) -> Seq<char> {
    report_head_spec(v) + section_spec("Matched VRPs\n"@, v.validated_route.validity.vrps.matched)
        + section_spec("Unmatched VRPs - ASN\n"@, v.validated_route.validity.vrps.unmatched_as)
        + section_spec(
        "Unmatched VRPs - Length\n"@,
        v.validated_route.validity.vrps.unmatched_length,
    ) + report_tail_spec(as_name, last_update)
}

/// Left-align `s` in a field of minimum width `width`.
fn pad_to(s: &str, width: usize) -> (r: String)
    ensures
        r@ == pad_spec(s@, width as nat),
{
    let mut r = s.to_owned();
    let n = s.unicode_len();
    let mut i = n;
    proof {
        reveal_strlit(" ");
        assert(r@ =~= s@ + spaces(0));
    }
    while i < width
        invariant
            n <= i,
            n < width ==> i <= width,
            n >= width ==> i == n,
            r@ == s@ + spaces((i - n) as nat),
        decreases width - i,
    {
        r.append(" ");
        proof {
            reveal_strlit(" ");
            assert(r@ =~= s@ + spaces((i + 1 - n) as nat));
        }
        i = i + 1;
    }
    proof {
        if n >= width {
            assert(r@ =~= s@);
        }
    }
    r
}

/// Append one table row to `out`.
fn push_row(out: &mut String, asn: &str, prefix: &str, max_length: &str)
    ensures
        final (out)@ == old(out)@ + row_spec(asn@, prefix@, max_length@),
{
    let a = pad_to(asn, LONGEST_EXPECTED_ASN);
    out.append(a.as_str());
    out.append(" ");
    let p = pad_to(prefix, LONGEST_EXPECTED_PREFIX);
    out.append(p.as_str());
    out.append(" ");
    out.append(max_length);
    out.append("\n");
    proof {
        assert(out@ =~= old(out)@ + row_spec(asn@, prefix@, max_length@));
    }
}

/// Render the fixed-width table for one list of records: a header row and
/// one row per record, in received order.
pub fn address_origins_to_string(aos: &Vec<AddressOrigin>) -> (r: String)
    ensures
        r@ == table_spec(aos.deep_view()),
{
    let mut builder = String::new();
    push_row(&mut builder, "ASN", "Prefix", "Max Length");
    proof {
        assert(aos.deep_view().take(0) =~= Seq::<AddressOriginView>::empty());
        assert(builder@ =~= row_spec("ASN"@, "Prefix"@, "Max Length"@) + rows_spec(
            aos.deep_view().take(0),
        ));
    }
    let mut i: usize = 0;
    while i < aos.len()
        invariant
            i <= aos.len(),
            builder@ == row_spec("ASN"@, "Prefix"@, "Max Length"@) + rows_spec(
                aos.deep_view().take(i as int),
            ),
        decreases aos.len() - i,
    {
        let ao = &aos[i];
        push_row(&mut builder, ao.asn.as_str(), ao.prefix.as_str(), ao.max_length.as_str());
        proof {
            let s = aos.deep_view();
            assert(s.take(i + 1).drop_last() =~= s.take(i as int));
            assert(s.take(i + 1).last() == s[i as int]);
            assert(builder@ =~= row_spec("ASN"@, "Prefix"@, "Max Length"@) + rows_spec(
                s.take(i + 1),
            ));
        }
        i = i + 1;
    }
    proof {
        assert(aos.deep_view().take(aos.len() as int) =~= aos.deep_view());
    }
    builder
}

/// Append one record-category section to `out`: nothing when the category
/// is empty, else a blank line, the header line and the table.
fn append_section(out: &mut String, header: &str, aos: &Vec<AddressOrigin>)
    ensures
        final (out)@ == old(out)@ + section_spec(header@, aos.deep_view()),
{
    if aos.len() > 0 {
        out.append("\n");
        out.append(header);
        let table = address_origins_to_string(aos);
        out.append(table.as_str());
        proof {
            assert(out@ =~= old(out)@ + section_spec(header@, aos.deep_view()));
        }
    } else {
        proof {
            assert(out@ =~= old(out)@ + section_spec(header@, aos.deep_view()));
        }
    }
}

/// Render the full report for a validity answer, an optional AS holder name
/// and the freshness timestamp.  Identical inputs always produce an
/// identical string.
pub fn render_validity_report(
    json: ValidityResponse,
    as_name_opt: Option<String>,
    last_update: String,
) -> (r: String)
    ensures
        r@ == report_spec(json.deep_view(), as_name_opt.deep_view(), last_update@),
{
    let mut report = String::new();
    report.append("Results for ");
    report.append(json.validated_route.route.origin_asn.as_str());
    report.append(" - ");
    report.append(json.validated_route.route.prefix.as_str());
    report.append(": ");
    let state = to_uppercase(json.validated_route.validity.state.as_str());
    report.append(state.as_str());
    report.append("\n");
    report.append(json.validated_route.validity.description.as_str());
    report.append("\n");
    proof {
        assert(report@ =~= report_head_spec(json.deep_view()));
    }
    append_section(&mut report, "Matched VRPs\n", &json.validated_route.validity.vrps.matched);
    append_section(
        &mut report,
        "Unmatched VRPs - ASN\n",
        &json.validated_route.validity.vrps.unmatched_as,
    );
    append_section(
        &mut report,
        "Unmatched VRPs - Length\n",
        &json.validated_route.validity.vrps.unmatched_length,
    );
    report.append("\n");
    match &as_name_opt {
        Some(as_name) => {
            report.append("AS Name: ");
            report.append(as_name.as_str());
            report.append("\n");
        },
        None => {},
    }
    report.append("Validation last updated at: ");
    report.append(last_update.as_str());
    proof {
        assert(report@ =~= report_spec(
            json.deep_view(),
            as_name_opt.deep_view(),
            last_update@,
        ));
    }
    report
}

/// Law: rendering is deterministic and idempotent — any two rendered
/// strings produced from identical inputs are byte-identical.
pub proof fn lemma_render_deterministic(
    v: ValidityResponseView,
    as_name: Option<Seq<char>>,
    last_update: Seq<char>,
    r1: String,
    r2: String,
)
    requires
        r1@ == report_spec(v, as_name, last_update),
        r2@ == report_spec(v, as_name, last_update),
    ensures
        r1@ == r2@,
{
}

/// Law: an empty record category is omitted from the report entirely, a
/// non-empty one contributes exactly a blank line, its header and its
/// table, and the report concatenates the three category sections in fixed
/// order between head and trailer.
pub proof fn lemma_report_sections(
    v: ValidityResponseView,
    as_name: Option<Seq<char>>,
    last_update: Seq<char>,
)
    ensures
        forall|h: Seq<char>, aos: Seq<AddressOriginView>|
            aos.len() == 0 ==> #[trigger] section_spec(h, aos) == Seq::<char>::empty(),
        forall|h: Seq<char>, aos: Seq<AddressOriginView>|
            aos.len() > 0 ==> #[trigger] section_spec(h, aos) == "\n"@ + h + table_spec(aos),
        report_spec(v, as_name, last_update) == report_head_spec(v) + section_spec(
            "Matched VRPs\n"@,
            v.validated_route.validity.vrps.matched,
        ) + section_spec("Unmatched VRPs - ASN\n"@, v.validated_route.validity.vrps.unmatched_as)
            + section_spec(
            "Unmatched VRPs - Length\n"@,
            v.validated_route.validity.vrps.unmatched_length,
        ) + report_tail_spec(as_name, last_update),
{
}

} // verus!
