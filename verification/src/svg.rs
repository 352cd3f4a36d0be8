//! The SVG chart documents of the benchmark report. The numbers in a chart are laid out and
//! formatted by the caller; here they are placed, with the text of the records, into the
//! fixed markup of each chart. A chart holds an em or en dash only where its text fields do.
use vstd::prelude::*;
use crate::text::{contains_seq, decimal, push_decimal, starts_with};
use vstd::seq_lib::lemma_concat_associative;

verus! {

/// `s` holds no em dash (U+2014) and no en dash (U+2013).
pub open spec fn no_dash(s: Seq<char>) -> bool {
    forall|i: int| 0 <= i < s.len() ==> s[i] != '\u{2014}' && s[i] != '\u{2013}'
}

/// `s` ends with `p`.
pub open spec fn ends_with(s: Seq<char>, p: Seq<char>) -> bool {
    p.len() <= s.len() && s.skip(s.len() - p.len()) == p
}

/// A text is free of dashes exactly when both of its parts are.
pub proof fn lemma_no_dash_concat(a: Seq<char>, b: Seq<char>)
    ensures
        no_dash(a + b) <==> no_dash(a) && no_dash(b),
{
    if no_dash(a + b) {
        assert forall|i: int| 0 <= i < a.len() implies a[i] != '\u{2014}' && a[i] != '\u{2013}' by {
            assert((a + b)[i] == a[i]);
        }
        assert forall|i: int| 0 <= i < b.len() implies b[i] != '\u{2014}' && b[i] != '\u{2013}' by {
            assert((a + b)[a.len() + i] == b[i]);
        }
    }
    if no_dash(a) && no_dash(b) {
        assert forall|i: int| 0 <= i < (a + b).len() implies (a + b)[i] != '\u{2014}' && (a + b)[i]
            != '\u{2013}' by {
            if i < a.len() {
                assert((a + b)[i] == a[i]);
            } else {
                assert((a + b)[i] == b[i - a.len()]);
            }
        }
    }
}

/// A text that starts with `p` still does after more text is added.
proof fn lemma_starts_with_concat(a: Seq<char>, b: Seq<char>, p: Seq<char>)
    requires
        starts_with(a, p),
    ensures
        starts_with(a + b, p),
{
    assert((a + b).take(p.len() as int) =~= a.take(p.len() as int));
}

/// A text that ends with `p` still does after text is put before it.
proof fn lemma_ends_with_concat(a: Seq<char>, b: Seq<char>, p: Seq<char>)
    requires
        ends_with(b, p),
    ensures
        ends_with(a + b, p),
{
    assert((a + b).skip((a + b).len() - p.len()) =~= b.skip(b.len() - p.len()));
}

/// The text of one row of the memory chart, every number already formatted.
#[derive(Clone, Debug)]
pub struct MemoryRowText {
    pub label_y: String,
    pub service: String,
    pub desc_y: String,
    pub role: String,
    pub arch: String,
    pub rect_y: String,
    pub width: String,
    pub color: String,
    pub val_x: String,
    pub val_y: String,
    pub rss: String,
    pub badge: String,
}

/// The markup of one memory row.
pub open spec fn memory_row_text(r: MemoryRowText) -> Seq<char> {
    "\n    <g class=\"bar-row\">\n      <text x=\"30\" y=\""@
        + r.label_y@
        + "\" class=\"label-service\">"@
        + r.service@
        + "</text>\n      <text x=\"30\" y=\""@
        + r.desc_y@
        + "\" class=\"label-role\">"@
        + r.role@
        + " ["@
        + r.arch@
        + "]</text>\n      <rect x=\"280\" y=\""@
        + r.rect_y@
        + "\" width=\""@
        + r.width@
        + "\" height=\"26\" rx=\"4\" fill=\""@
        + r.color@
        + "\" />\n      <text x=\""@
        + r.val_x@
        + "\" y=\""@
        + r.val_y@
        + "\" class=\"label-val\">"@
        + r.rss@
        + " MB <tspan class=\"badge\">"@
        + r.badge@
        + "</tspan></text>\n    </g>"@
}

/// Every text field of a memory row is free of dashes.
pub open spec fn memory_row_fields_no_dash(r: MemoryRowText) -> bool {
    no_dash(r.label_y@)
        && no_dash(r.service@)
        && no_dash(r.desc_y@)
        && no_dash(r.role@)
        && no_dash(r.arch@)
        && no_dash(r.rect_y@)
        && no_dash(r.width@)
        && no_dash(r.color@)
        && no_dash(r.val_x@)
        && no_dash(r.val_y@)
        && no_dash(r.rss@)
        && no_dash(r.badge@)
}

/// The markup of the whole memory chart around its rows.
pub open spec fn memory_chart_text(rows: Seq<char>) -> Seq<char> {
    "<svg xmlns=\"http://www.w3.org/2000/svg\" viewBox=\"0 0 1100 520\" width=\"100%\" height=\"100%\">\n  <defs>\n    <style>\n      .bg { fill: #18111f; }\n      .title { font-family: ui-sans-serif, system-ui, sans-serif; font-size: 20px; font-weight: 700; fill: #fff8ee; }\n      .subtitle { font-family: ui-sans-serif, system-ui, sans-serif; font-size: 13px; fill: #bca9c2; }\n      .label-service { font-family: ui-monospace, monospace; font-size: 14px; font-weight: 700; fill: #ded3df; }\n      .label-role { font-family: ui-sans-serif, system-ui, sans-serif; font-size: 11px; fill: #8eac78; }\n      .label-val { font-family: ui-monospace, monospace; font-size: 13px; font-weight: 700; fill: #fff8ee; }\n      .badge { font-size: 11px; font-weight: 600; fill: #ef8b67; }\n      .grid { stroke: rgba(222, 211, 223, 0.12); stroke-width: 1; }\n    </style>\n  </defs>\n  <rect width=\"100%\" height=\"100%\" rx=\"12\" class=\"bg\" />\n  <text x=\"30\" y=\"48\" class=\"title\">Memory Resident Set Size (RSS): Native Rust vs Python Stacks</text>\n  <text x=\"30\" y=\"74\" class=\"subtitle\">Measured on NVIDIA DGX Spark (Grace Blackwell GB10, aarch64) via /proc/[pid]/status VmRSS</text>\n  <line x1=\"280\" y1=\"95\" x2=\"280\" y2=\"480\" class=\"grid\" />\n  <line x1=\"580\" y1=\"95\" x2=\"580\" y2=\"480\" class=\"grid\" />\n  <line x1=\"880\" y1=\"95\" x2=\"880\" y2=\"480\" class=\"grid\" />\n"@
        + rows
        + "\n</svg>"@
}

/// One row of the memory chart; it holds a dash only where a field does.
pub fn memory_chart_row(r: &MemoryRowText) -> (s: String)
    ensures
        s@ == memory_row_text(*r),
        no_dash(s@) <==> memory_row_fields_no_dash(*r),
{
    let mut s = String::from_str("\n    <g class=\"bar-row\">\n      <text x=\"30\" y=\"");
    s.append(r.label_y.as_str());
    s.append("\" class=\"label-service\">");
    s.append(r.service.as_str());
    s.append("</text>\n      <text x=\"30\" y=\"");
    s.append(r.desc_y.as_str());
    s.append("\" class=\"label-role\">");
    s.append(r.role.as_str());
    s.append(" [");
    s.append(r.arch.as_str());
    s.append("]</text>\n      <rect x=\"280\" y=\"");
    s.append(r.rect_y.as_str());
    s.append("\" width=\"");
    s.append(r.width.as_str());
    s.append("\" height=\"26\" rx=\"4\" fill=\"");
    s.append(r.color.as_str());
    s.append("\" />\n      <text x=\"");
    s.append(r.val_x.as_str());
    s.append("\" y=\"");
    s.append(r.val_y.as_str());
    s.append("\" class=\"label-val\">");
    s.append(r.rss.as_str());
    s.append(" MB <tspan class=\"badge\">");
    s.append(r.badge.as_str());
    s.append("</tspan></text>\n    </g>");
    proof {
        reveal_strlit("\n    <g class=\"bar-row\">\n      <text x=\"30\" y=\"");
        assert(no_dash("\n    <g class=\"bar-row\">\n      <text x=\"30\" y=\""@));
        reveal_strlit(" MB <tspan class=\"badge\">");
        assert(no_dash(" MB <tspan class=\"badge\">"@));
        reveal_strlit(" [");
        assert(no_dash(" ["@));
        reveal_strlit("\" />\n      <text x=\"");
        assert(no_dash("\" />\n      <text x=\""@));
        reveal_strlit("\" class=\"label-role\">");
        assert(no_dash("\" class=\"label-role\">"@));
        reveal_strlit("\" class=\"label-service\">");
        assert(no_dash("\" class=\"label-service\">"@));
        reveal_strlit("\" class=\"label-val\">");
        assert(no_dash("\" class=\"label-val\">"@));
        reveal_strlit("\" height=\"26\" rx=\"4\" fill=\"");
        assert(no_dash("\" height=\"26\" rx=\"4\" fill=\""@));
        reveal_strlit("\" width=\"");
        assert(no_dash("\" width=\""@));
        reveal_strlit("\" y=\"");
        assert(no_dash("\" y=\""@));
        reveal_strlit("</text>\n      <text x=\"30\" y=\"");
        assert(no_dash("</text>\n      <text x=\"30\" y=\""@));
        reveal_strlit("</tspan></text>\n    </g>");
        assert(no_dash("</tspan></text>\n    </g>"@));
        reveal_strlit("]</text>\n      <rect x=\"280\" y=\"");
        assert(no_dash("]</text>\n      <rect x=\"280\" y=\""@));
        let x0 = "\n    <g class=\"bar-row\">\n      <text x=\"30\" y=\""@;
        lemma_no_dash_concat(x0, r.label_y@);
        let x1 = x0 + r.label_y@;
        lemma_no_dash_concat(x1, "\" class=\"label-service\">"@);
        let x2 = x1 + "\" class=\"label-service\">"@;
        lemma_no_dash_concat(x2, r.service@);
        let x3 = x2 + r.service@;
        lemma_no_dash_concat(x3, "</text>\n      <text x=\"30\" y=\""@);
        let x4 = x3 + "</text>\n      <text x=\"30\" y=\""@;
        lemma_no_dash_concat(x4, r.desc_y@);
        let x5 = x4 + r.desc_y@;
        lemma_no_dash_concat(x5, "\" class=\"label-role\">"@);
        let x6 = x5 + "\" class=\"label-role\">"@;
        lemma_no_dash_concat(x6, r.role@);
        let x7 = x6 + r.role@;
        lemma_no_dash_concat(x7, " ["@);
        let x8 = x7 + " ["@;
        lemma_no_dash_concat(x8, r.arch@);
        let x9 = x8 + r.arch@;
        lemma_no_dash_concat(x9, "]</text>\n      <rect x=\"280\" y=\""@);
        let x10 = x9 + "]</text>\n      <rect x=\"280\" y=\""@;
        lemma_no_dash_concat(x10, r.rect_y@);
        let x11 = x10 + r.rect_y@;
        lemma_no_dash_concat(x11, "\" width=\""@);
        let x12 = x11 + "\" width=\""@;
        lemma_no_dash_concat(x12, r.width@);
        let x13 = x12 + r.width@;
        lemma_no_dash_concat(x13, "\" height=\"26\" rx=\"4\" fill=\""@);
        let x14 = x13 + "\" height=\"26\" rx=\"4\" fill=\""@;
        lemma_no_dash_concat(x14, r.color@);
        let x15 = x14 + r.color@;
        lemma_no_dash_concat(x15, "\" />\n      <text x=\""@);
        let x16 = x15 + "\" />\n      <text x=\""@;
        lemma_no_dash_concat(x16, r.val_x@);
        let x17 = x16 + r.val_x@;
        lemma_no_dash_concat(x17, "\" y=\""@);
        let x18 = x17 + "\" y=\""@;
        lemma_no_dash_concat(x18, r.val_y@);
        let x19 = x18 + r.val_y@;
        lemma_no_dash_concat(x19, "\" class=\"label-val\">"@);
        let x20 = x19 + "\" class=\"label-val\">"@;
        lemma_no_dash_concat(x20, r.rss@);
        let x21 = x20 + r.rss@;
        lemma_no_dash_concat(x21, " MB <tspan class=\"badge\">"@);
        let x22 = x21 + " MB <tspan class=\"badge\">"@;
        lemma_no_dash_concat(x22, r.badge@);
        let x23 = x22 + r.badge@;
        lemma_no_dash_concat(x23, "</tspan></text>\n    </g>"@);
        let x24 = x23 + "</tspan></text>\n    </g>"@;
        assert(s@ == x24);
    }
    s
}

/// The whole memory chart around the markup of its rows: an SVG document
/// that starts with `<svg` and ends with `</svg>`, with a dash only where the rows have one.
pub fn memory_chart_document(rows: &str) -> (s: String)
    ensures
        s@ == memory_chart_text(rows@),
        no_dash(s@) <==> no_dash(rows@),
        starts_with(s@, "<svg"@),
        ends_with(s@, "</svg>"@),
{
    let mut s = String::from_str("<svg xmlns=\"http://www.w3.org/2000/svg\" viewBox=\"0 0 1100 520\" width=\"100%\" height=\"100%\">\n  <defs>\n    <style>\n      .bg { fill: #18111f; }\n      .title { font-family: ui-sans-serif, system-ui, sans-serif; font-size: 20px; font-weight: 700; fill: #fff8ee; }\n      .subtitle { font-family: ui-sans-serif, system-ui, sans-serif; font-size: 13px; fill: #bca9c2; }\n      .label-service { font-family: ui-monospace, monospace; font-size: 14px; font-weight: 700; fill: #ded3df; }\n      .label-role { font-family: ui-sans-serif, system-ui, sans-serif; font-size: 11px; fill: #8eac78; }\n      .label-val { font-family: ui-monospace, monospace; font-size: 13px; font-weight: 700; fill: #fff8ee; }\n      .badge { font-size: 11px; font-weight: 600; fill: #ef8b67; }\n      .grid { stroke: rgba(222, 211, 223, 0.12); stroke-width: 1; }\n    </style>\n  </defs>\n  <rect width=\"100%\" height=\"100%\" rx=\"12\" class=\"bg\" />\n  <text x=\"30\" y=\"48\" class=\"title\">Memory Resident Set Size (RSS): Native Rust vs Python Stacks</text>\n  <text x=\"30\" y=\"74\" class=\"subtitle\">Measured on NVIDIA DGX Spark (Grace Blackwell GB10, aarch64) via /proc/[pid]/status VmRSS</text>\n  <line x1=\"280\" y1=\"95\" x2=\"280\" y2=\"480\" class=\"grid\" />\n  <line x1=\"580\" y1=\"95\" x2=\"580\" y2=\"480\" class=\"grid\" />\n  <line x1=\"880\" y1=\"95\" x2=\"880\" y2=\"480\" class=\"grid\" />\n");
    s.append(rows);
    s.append("\n</svg>");
    proof {
        reveal_strlit("\n</svg>");
        assert(no_dash("\n</svg>"@));
        reveal_strlit("<svg xmlns=\"http://www.w3.org/2000/svg\" viewBox=\"0 0 1100 520\" width=\"100%\" height=\"100%\">\n  <defs>\n    <style>\n      .bg { fill: #18111f; }\n      .title { font-family: ui-sans-serif, system-ui, sans-serif; font-size: 20px; font-weight: 700; fill: #fff8ee; }\n      .subtitle { font-family: ui-sans-serif, system-ui, sans-serif; font-size: 13px; fill: #bca9c2; }\n      .label-service { font-family: ui-monospace, monospace; font-size: 14px; font-weight: 700; fill: #ded3df; }\n      .label-role { font-family: ui-sans-serif, system-ui, sans-serif; font-size: 11px; fill: #8eac78; }\n      .label-val { font-family: ui-monospace, monospace; font-size: 13px; font-weight: 700; fill: #fff8ee; }\n      .badge { font-size: 11px; font-weight: 600; fill: #ef8b67; }\n      .grid { stroke: rgba(222, 211, 223, 0.12); stroke-width: 1; }\n    </style>\n  </defs>\n  <rect width=\"100%\" height=\"100%\" rx=\"12\" class=\"bg\" />\n  <text x=\"30\" y=\"48\" class=\"title\">Memory Resident Set Size (RSS): Native Rust vs Python Stacks</text>\n  <text x=\"30\" y=\"74\" class=\"subtitle\">Measured on NVIDIA DGX Spark (Grace Blackwell GB10, aarch64) via /proc/[pid]/status VmRSS</text>\n  <line x1=\"280\" y1=\"95\" x2=\"280\" y2=\"480\" class=\"grid\" />\n  <line x1=\"580\" y1=\"95\" x2=\"580\" y2=\"480\" class=\"grid\" />\n  <line x1=\"880\" y1=\"95\" x2=\"880\" y2=\"480\" class=\"grid\" />\n");
        assert(no_dash("<svg xmlns=\"http://www.w3.org/2000/svg\" viewBox=\"0 0 1100 520\" width=\"100%\" height=\"100%\">\n  <defs>\n    <style>\n      .bg { fill: #18111f; }\n      .title { font-family: ui-sans-serif, system-ui, sans-serif; font-size: 20px; font-weight: 700; fill: #fff8ee; }\n      .subtitle { font-family: ui-sans-serif, system-ui, sans-serif; font-size: 13px; fill: #bca9c2; }\n      .label-service { font-family: ui-monospace, monospace; font-size: 14px; font-weight: 700; fill: #ded3df; }\n      .label-role { font-family: ui-sans-serif, system-ui, sans-serif; font-size: 11px; fill: #8eac78; }\n      .label-val { font-family: ui-monospace, monospace; font-size: 13px; font-weight: 700; fill: #fff8ee; }\n      .badge { font-size: 11px; font-weight: 600; fill: #ef8b67; }\n      .grid { stroke: rgba(222, 211, 223, 0.12); stroke-width: 1; }\n    </style>\n  </defs>\n  <rect width=\"100%\" height=\"100%\" rx=\"12\" class=\"bg\" />\n  <text x=\"30\" y=\"48\" class=\"title\">Memory Resident Set Size (RSS): Native Rust vs Python Stacks</text>\n  <text x=\"30\" y=\"74\" class=\"subtitle\">Measured on NVIDIA DGX Spark (Grace Blackwell GB10, aarch64) via /proc/[pid]/status VmRSS</text>\n  <line x1=\"280\" y1=\"95\" x2=\"280\" y2=\"480\" class=\"grid\" />\n  <line x1=\"580\" y1=\"95\" x2=\"580\" y2=\"480\" class=\"grid\" />\n  <line x1=\"880\" y1=\"95\" x2=\"880\" y2=\"480\" class=\"grid\" />\n"@));
        reveal_strlit("<svg");
        reveal_strlit("</svg>");
        let x0 = "<svg xmlns=\"http://www.w3.org/2000/svg\" viewBox=\"0 0 1100 520\" width=\"100%\" height=\"100%\">\n  <defs>\n    <style>\n      .bg { fill: #18111f; }\n      .title { font-family: ui-sans-serif, system-ui, sans-serif; font-size: 20px; font-weight: 700; fill: #fff8ee; }\n      .subtitle { font-family: ui-sans-serif, system-ui, sans-serif; font-size: 13px; fill: #bca9c2; }\n      .label-service { font-family: ui-monospace, monospace; font-size: 14px; font-weight: 700; fill: #ded3df; }\n      .label-role { font-family: ui-sans-serif, system-ui, sans-serif; font-size: 11px; fill: #8eac78; }\n      .label-val { font-family: ui-monospace, monospace; font-size: 13px; font-weight: 700; fill: #fff8ee; }\n      .badge { font-size: 11px; font-weight: 600; fill: #ef8b67; }\n      .grid { stroke: rgba(222, 211, 223, 0.12); stroke-width: 1; }\n    </style>\n  </defs>\n  <rect width=\"100%\" height=\"100%\" rx=\"12\" class=\"bg\" />\n  <text x=\"30\" y=\"48\" class=\"title\">Memory Resident Set Size (RSS): Native Rust vs Python Stacks</text>\n  <text x=\"30\" y=\"74\" class=\"subtitle\">Measured on NVIDIA DGX Spark (Grace Blackwell GB10, aarch64) via /proc/[pid]/status VmRSS</text>\n  <line x1=\"280\" y1=\"95\" x2=\"280\" y2=\"480\" class=\"grid\" />\n  <line x1=\"580\" y1=\"95\" x2=\"580\" y2=\"480\" class=\"grid\" />\n  <line x1=\"880\" y1=\"95\" x2=\"880\" y2=\"480\" class=\"grid\" />\n"@;
        assert(x0.take(4) =~= "<svg"@);
        lemma_no_dash_concat(x0, rows@);
        lemma_starts_with_concat(x0, rows@, "<svg"@);
        let x1 = x0 + rows@;
        lemma_no_dash_concat(x1, "\n</svg>"@);
        lemma_starts_with_concat(x1, "\n</svg>"@, "<svg"@);
        let x2 = x1 + "\n</svg>"@;
        assert("\n</svg>"@.skip("\n</svg>"@.len() - 6) =~= "</svg>"@);
        lemma_ends_with_concat(x1, "\n</svg>"@, "</svg>"@);
        assert(s@ == x2);
    }
    s
}

/// The text of one row of the latency chart, every number already formatted.
#[derive(Clone, Debug)]
pub struct LatencyRowText {
    pub label_y: String,
    pub service: String,
    pub endpoint: String,
    pub desc_y: String,
    pub desc: String,
    pub engine: String,
    pub rect_y: String,
    pub width: String,
    pub color: String,
    pub val_x: String,
    pub val_y: String,
    pub p50: String,
    pub rps: String,
}

/// The markup of one latency row.
pub open spec fn latency_row_text(r: LatencyRowText) -> Seq<char> {
    "\n    <g class=\"bar-row\">\n      <text x=\"30\" y=\""@
        + r.label_y@
        + "\" class=\"label-service\">"@
        + r.service@
        + " "@
        + r.endpoint@
        + "</text>\n      <text x=\"30\" y=\""@
        + r.desc_y@
        + "\" class=\"label-role\">"@
        + r.desc@
        + " ["@
        + r.engine@
        + "]</text>\n      <rect x=\"360\" y=\""@
        + r.rect_y@
        + "\" width=\""@
        + r.width@
        + "\" height=\"28\" rx=\"4\" fill=\""@
        + r.color@
        + "\" />\n      <text x=\""@
        + r.val_x@
        + "\" y=\""@
        + r.val_y@
        + "\" class=\"label-val\">"@
        + r.p50@
        + " ms <tspan class=\"throughput\">("@
        + r.rps@
        + " req/s)</tspan></text>\n    </g>"@
}

/// Every text field of a latency row is free of dashes.
pub open spec fn latency_row_fields_no_dash(r: LatencyRowText) -> bool {
    no_dash(r.label_y@)
        && no_dash(r.service@)
        && no_dash(r.endpoint@)
        && no_dash(r.desc_y@)
        && no_dash(r.desc@)
        && no_dash(r.engine@)
        && no_dash(r.rect_y@)
        && no_dash(r.width@)
        && no_dash(r.color@)
        && no_dash(r.val_x@)
        && no_dash(r.val_y@)
        && no_dash(r.p50@)
        && no_dash(r.rps@)
}

/// The markup of the whole latency chart around its rows.
pub open spec fn latency_chart_text(rows: Seq<char>) -> Seq<char> {
    "<svg xmlns=\"http://www.w3.org/2000/svg\" viewBox=\"0 0 1100 500\" width=\"100%\" height=\"100%\">\n  <defs>\n    <style>\n      .bg { fill: #18111f; }\n      .title { font-family: ui-sans-serif, system-ui, sans-serif; font-size: 20px; font-weight: 700; fill: #fff8ee; }\n      .subtitle { font-family: ui-sans-serif, system-ui, sans-serif; font-size: 13px; fill: #bca9c2; }\n      .label-service { font-family: ui-monospace, monospace; font-size: 14px; font-weight: 700; fill: #ded3df; }\n      .label-role { font-family: ui-sans-serif, system-ui, sans-serif; font-size: 11px; fill: #8eac78; }\n      .label-val { font-family: ui-monospace, monospace; font-size: 13px; font-weight: 700; fill: #fff8ee; }\n      .throughput { font-size: 12px; font-weight: 600; fill: #ef8b67; }\n      .grid { stroke: rgba(222, 211, 223, 0.12); stroke-width: 1; }\n    </style>\n  </defs>\n  <rect width=\"100%\" height=\"100%\" rx=\"12\" class=\"bg\" />\n  <text x=\"30\" y=\"48\" class=\"title\">HTTP Gateway Latency (p50 TTFB) and Throughput</text>\n  <text x=\"30\" y=\"74\" class=\"subtitle\">Localhost multi-threaded sweep: concurrency=10, 500 requests per endpoint on Grace Blackwell</text>\n  <line x1=\"360\" y1=\"95\" x2=\"360\" y2=\"470\" class=\"grid\" />\n  <line x1=\"640\" y1=\"95\" x2=\"640\" y2=\"470\" class=\"grid\" />\n  <line x1=\"920\" y1=\"95\" x2=\"920\" y2=\"470\" class=\"grid\" />\n"@
        + rows
        + "\n</svg>"@
}

/// One row of the latency chart; it holds a dash only where a field does.
pub fn latency_chart_row(r: &LatencyRowText) -> (s: String)
    ensures
        s@ == latency_row_text(*r),
        no_dash(s@) <==> latency_row_fields_no_dash(*r),
{
    let mut s = String::from_str("\n    <g class=\"bar-row\">\n      <text x=\"30\" y=\"");
    s.append(r.label_y.as_str());
    s.append("\" class=\"label-service\">");
    s.append(r.service.as_str());
    s.append(" ");
    s.append(r.endpoint.as_str());
    s.append("</text>\n      <text x=\"30\" y=\"");
    s.append(r.desc_y.as_str());
    s.append("\" class=\"label-role\">");
    s.append(r.desc.as_str());
    s.append(" [");
    s.append(r.engine.as_str());
    s.append("]</text>\n      <rect x=\"360\" y=\"");
    s.append(r.rect_y.as_str());
    s.append("\" width=\"");
    s.append(r.width.as_str());
    s.append("\" height=\"28\" rx=\"4\" fill=\"");
    s.append(r.color.as_str());
    s.append("\" />\n      <text x=\"");
    s.append(r.val_x.as_str());
    s.append("\" y=\"");
    s.append(r.val_y.as_str());
    s.append("\" class=\"label-val\">");
    s.append(r.p50.as_str());
    s.append(" ms <tspan class=\"throughput\">(");
    s.append(r.rps.as_str());
    s.append(" req/s)</tspan></text>\n    </g>");
    proof {
        reveal_strlit("\n    <g class=\"bar-row\">\n      <text x=\"30\" y=\"");
        assert(no_dash("\n    <g class=\"bar-row\">\n      <text x=\"30\" y=\""@));
        reveal_strlit(" ");
        assert(no_dash(" "@));
        reveal_strlit(" [");
        assert(no_dash(" ["@));
        reveal_strlit(" ms <tspan class=\"throughput\">(");
        assert(no_dash(" ms <tspan class=\"throughput\">("@));
        reveal_strlit(" req/s)</tspan></text>\n    </g>");
        assert(no_dash(" req/s)</tspan></text>\n    </g>"@));
        reveal_strlit("\" />\n      <text x=\"");
        assert(no_dash("\" />\n      <text x=\""@));
        reveal_strlit("\" class=\"label-role\">");
        assert(no_dash("\" class=\"label-role\">"@));
        reveal_strlit("\" class=\"label-service\">");
        assert(no_dash("\" class=\"label-service\">"@));
        reveal_strlit("\" class=\"label-val\">");
        assert(no_dash("\" class=\"label-val\">"@));
        reveal_strlit("\" height=\"28\" rx=\"4\" fill=\"");
        assert(no_dash("\" height=\"28\" rx=\"4\" fill=\""@));
        reveal_strlit("\" width=\"");
        assert(no_dash("\" width=\""@));
        reveal_strlit("\" y=\"");
        assert(no_dash("\" y=\""@));
        reveal_strlit("</text>\n      <text x=\"30\" y=\"");
        assert(no_dash("</text>\n      <text x=\"30\" y=\""@));
        reveal_strlit("]</text>\n      <rect x=\"360\" y=\"");
        assert(no_dash("]</text>\n      <rect x=\"360\" y=\""@));
        let x0 = "\n    <g class=\"bar-row\">\n      <text x=\"30\" y=\""@;
        lemma_no_dash_concat(x0, r.label_y@);
        let x1 = x0 + r.label_y@;
        lemma_no_dash_concat(x1, "\" class=\"label-service\">"@);
        let x2 = x1 + "\" class=\"label-service\">"@;
        lemma_no_dash_concat(x2, r.service@);
        let x3 = x2 + r.service@;
        lemma_no_dash_concat(x3, " "@);
        let x4 = x3 + " "@;
        lemma_no_dash_concat(x4, r.endpoint@);
        let x5 = x4 + r.endpoint@;
        lemma_no_dash_concat(x5, "</text>\n      <text x=\"30\" y=\""@);
        let x6 = x5 + "</text>\n      <text x=\"30\" y=\""@;
        lemma_no_dash_concat(x6, r.desc_y@);
        let x7 = x6 + r.desc_y@;
        lemma_no_dash_concat(x7, "\" class=\"label-role\">"@);
        let x8 = x7 + "\" class=\"label-role\">"@;
        lemma_no_dash_concat(x8, r.desc@);
        let x9 = x8 + r.desc@;
        lemma_no_dash_concat(x9, " ["@);
        let x10 = x9 + " ["@;
        lemma_no_dash_concat(x10, r.engine@);
        let x11 = x10 + r.engine@;
        lemma_no_dash_concat(x11, "]</text>\n      <rect x=\"360\" y=\""@);
        let x12 = x11 + "]</text>\n      <rect x=\"360\" y=\""@;
        lemma_no_dash_concat(x12, r.rect_y@);
        let x13 = x12 + r.rect_y@;
        lemma_no_dash_concat(x13, "\" width=\""@);
        let x14 = x13 + "\" width=\""@;
        lemma_no_dash_concat(x14, r.width@);
        let x15 = x14 + r.width@;
        lemma_no_dash_concat(x15, "\" height=\"28\" rx=\"4\" fill=\""@);
        let x16 = x15 + "\" height=\"28\" rx=\"4\" fill=\""@;
        lemma_no_dash_concat(x16, r.color@);
        let x17 = x16 + r.color@;
        lemma_no_dash_concat(x17, "\" />\n      <text x=\""@);
        let x18 = x17 + "\" />\n      <text x=\""@;
        lemma_no_dash_concat(x18, r.val_x@);
        let x19 = x18 + r.val_x@;
        lemma_no_dash_concat(x19, "\" y=\""@);
        let x20 = x19 + "\" y=\""@;
        lemma_no_dash_concat(x20, r.val_y@);
        let x21 = x20 + r.val_y@;
        lemma_no_dash_concat(x21, "\" class=\"label-val\">"@);
        let x22 = x21 + "\" class=\"label-val\">"@;
        lemma_no_dash_concat(x22, r.p50@);
        let x23 = x22 + r.p50@;
        lemma_no_dash_concat(x23, " ms <tspan class=\"throughput\">("@);
        let x24 = x23 + " ms <tspan class=\"throughput\">("@;
        lemma_no_dash_concat(x24, r.rps@);
        let x25 = x24 + r.rps@;
        lemma_no_dash_concat(x25, " req/s)</tspan></text>\n    </g>"@);
        let x26 = x25 + " req/s)</tspan></text>\n    </g>"@;
        assert(s@ == x26);
    }
    s
}

/// The whole latency chart around the markup of its rows: an SVG document
/// that starts with `<svg` and ends with `</svg>`, with a dash only where the rows have one.
pub fn latency_chart_document(rows: &str) -> (s: String)
    ensures
        s@ == latency_chart_text(rows@),
        no_dash(s@) <==> no_dash(rows@),
        starts_with(s@, "<svg"@),
        ends_with(s@, "</svg>"@),
{
    let mut s = String::from_str("<svg xmlns=\"http://www.w3.org/2000/svg\" viewBox=\"0 0 1100 500\" width=\"100%\" height=\"100%\">\n  <defs>\n    <style>\n      .bg { fill: #18111f; }\n      .title { font-family: ui-sans-serif, system-ui, sans-serif; font-size: 20px; font-weight: 700; fill: #fff8ee; }\n      .subtitle { font-family: ui-sans-serif, system-ui, sans-serif; font-size: 13px; fill: #bca9c2; }\n      .label-service { font-family: ui-monospace, monospace; font-size: 14px; font-weight: 700; fill: #ded3df; }\n      .label-role { font-family: ui-sans-serif, system-ui, sans-serif; font-size: 11px; fill: #8eac78; }\n      .label-val { font-family: ui-monospace, monospace; font-size: 13px; font-weight: 700; fill: #fff8ee; }\n      .throughput { font-size: 12px; font-weight: 600; fill: #ef8b67; }\n      .grid { stroke: rgba(222, 211, 223, 0.12); stroke-width: 1; }\n    </style>\n  </defs>\n  <rect width=\"100%\" height=\"100%\" rx=\"12\" class=\"bg\" />\n  <text x=\"30\" y=\"48\" class=\"title\">HTTP Gateway Latency (p50 TTFB) and Throughput</text>\n  <text x=\"30\" y=\"74\" class=\"subtitle\">Localhost multi-threaded sweep: concurrency=10, 500 requests per endpoint on Grace Blackwell</text>\n  <line x1=\"360\" y1=\"95\" x2=\"360\" y2=\"470\" class=\"grid\" />\n  <line x1=\"640\" y1=\"95\" x2=\"640\" y2=\"470\" class=\"grid\" />\n  <line x1=\"920\" y1=\"95\" x2=\"920\" y2=\"470\" class=\"grid\" />\n");
    s.append(rows);
    s.append("\n</svg>");
    proof {
        reveal_strlit("\n</svg>");
        assert(no_dash("\n</svg>"@));
        reveal_strlit("<svg xmlns=\"http://www.w3.org/2000/svg\" viewBox=\"0 0 1100 500\" width=\"100%\" height=\"100%\">\n  <defs>\n    <style>\n      .bg { fill: #18111f; }\n      .title { font-family: ui-sans-serif, system-ui, sans-serif; font-size: 20px; font-weight: 700; fill: #fff8ee; }\n      .subtitle { font-family: ui-sans-serif, system-ui, sans-serif; font-size: 13px; fill: #bca9c2; }\n      .label-service { font-family: ui-monospace, monospace; font-size: 14px; font-weight: 700; fill: #ded3df; }\n      .label-role { font-family: ui-sans-serif, system-ui, sans-serif; font-size: 11px; fill: #8eac78; }\n      .label-val { font-family: ui-monospace, monospace; font-size: 13px; font-weight: 700; fill: #fff8ee; }\n      .throughput { font-size: 12px; font-weight: 600; fill: #ef8b67; }\n      .grid { stroke: rgba(222, 211, 223, 0.12); stroke-width: 1; }\n    </style>\n  </defs>\n  <rect width=\"100%\" height=\"100%\" rx=\"12\" class=\"bg\" />\n  <text x=\"30\" y=\"48\" class=\"title\">HTTP Gateway Latency (p50 TTFB) and Throughput</text>\n  <text x=\"30\" y=\"74\" class=\"subtitle\">Localhost multi-threaded sweep: concurrency=10, 500 requests per endpoint on Grace Blackwell</text>\n  <line x1=\"360\" y1=\"95\" x2=\"360\" y2=\"470\" class=\"grid\" />\n  <line x1=\"640\" y1=\"95\" x2=\"640\" y2=\"470\" class=\"grid\" />\n  <line x1=\"920\" y1=\"95\" x2=\"920\" y2=\"470\" class=\"grid\" />\n");
        assert(no_dash("<svg xmlns=\"http://www.w3.org/2000/svg\" viewBox=\"0 0 1100 500\" width=\"100%\" height=\"100%\">\n  <defs>\n    <style>\n      .bg { fill: #18111f; }\n      .title { font-family: ui-sans-serif, system-ui, sans-serif; font-size: 20px; font-weight: 700; fill: #fff8ee; }\n      .subtitle { font-family: ui-sans-serif, system-ui, sans-serif; font-size: 13px; fill: #bca9c2; }\n      .label-service { font-family: ui-monospace, monospace; font-size: 14px; font-weight: 700; fill: #ded3df; }\n      .label-role { font-family: ui-sans-serif, system-ui, sans-serif; font-size: 11px; fill: #8eac78; }\n      .label-val { font-family: ui-monospace, monospace; font-size: 13px; font-weight: 700; fill: #fff8ee; }\n      .throughput { font-size: 12px; font-weight: 600; fill: #ef8b67; }\n      .grid { stroke: rgba(222, 211, 223, 0.12); stroke-width: 1; }\n    </style>\n  </defs>\n  <rect width=\"100%\" height=\"100%\" rx=\"12\" class=\"bg\" />\n  <text x=\"30\" y=\"48\" class=\"title\">HTTP Gateway Latency (p50 TTFB) and Throughput</text>\n  <text x=\"30\" y=\"74\" class=\"subtitle\">Localhost multi-threaded sweep: concurrency=10, 500 requests per endpoint on Grace Blackwell</text>\n  <line x1=\"360\" y1=\"95\" x2=\"360\" y2=\"470\" class=\"grid\" />\n  <line x1=\"640\" y1=\"95\" x2=\"640\" y2=\"470\" class=\"grid\" />\n  <line x1=\"920\" y1=\"95\" x2=\"920\" y2=\"470\" class=\"grid\" />\n"@));
        reveal_strlit("<svg");
        reveal_strlit("</svg>");
        let x0 = "<svg xmlns=\"http://www.w3.org/2000/svg\" viewBox=\"0 0 1100 500\" width=\"100%\" height=\"100%\">\n  <defs>\n    <style>\n      .bg { fill: #18111f; }\n      .title { font-family: ui-sans-serif, system-ui, sans-serif; font-size: 20px; font-weight: 700; fill: #fff8ee; }\n      .subtitle { font-family: ui-sans-serif, system-ui, sans-serif; font-size: 13px; fill: #bca9c2; }\n      .label-service { font-family: ui-monospace, monospace; font-size: 14px; font-weight: 700; fill: #ded3df; }\n      .label-role { font-family: ui-sans-serif, system-ui, sans-serif; font-size: 11px; fill: #8eac78; }\n      .label-val { font-family: ui-monospace, monospace; font-size: 13px; font-weight: 700; fill: #fff8ee; }\n      .throughput { font-size: 12px; font-weight: 600; fill: #ef8b67; }\n      .grid { stroke: rgba(222, 211, 223, 0.12); stroke-width: 1; }\n    </style>\n  </defs>\n  <rect width=\"100%\" height=\"100%\" rx=\"12\" class=\"bg\" />\n  <text x=\"30\" y=\"48\" class=\"title\">HTTP Gateway Latency (p50 TTFB) and Throughput</text>\n  <text x=\"30\" y=\"74\" class=\"subtitle\">Localhost multi-threaded sweep: concurrency=10, 500 requests per endpoint on Grace Blackwell</text>\n  <line x1=\"360\" y1=\"95\" x2=\"360\" y2=\"470\" class=\"grid\" />\n  <line x1=\"640\" y1=\"95\" x2=\"640\" y2=\"470\" class=\"grid\" />\n  <line x1=\"920\" y1=\"95\" x2=\"920\" y2=\"470\" class=\"grid\" />\n"@;
        assert(x0.take(4) =~= "<svg"@);
        lemma_no_dash_concat(x0, rows@);
        lemma_starts_with_concat(x0, rows@, "<svg"@);
        let x1 = x0 + rows@;
        lemma_no_dash_concat(x1, "\n</svg>"@);
        lemma_starts_with_concat(x1, "\n</svg>"@, "<svg"@);
        let x2 = x1 + "\n</svg>"@;
        assert("\n</svg>"@.skip("\n</svg>"@.len() - 6) =~= "</svg>"@);
        lemma_ends_with_concat(x1, "\n</svg>"@, "</svg>"@);
        assert(s@ == x2);
    }
    s
}

/// The text of one row of the like for like chart, every number already formatted.
#[derive(Clone, Debug)]
pub struct LikeForLikeRowText {
    pub label_y: String,
    pub category: String,
    pub workload: String,
    pub rust_y: String,
    pub rust_rect_y: String,
    pub rust_w: String,
    pub rust_val_x: String,
    pub rust_p50: String,
    pub rust_rps: String,
    pub py_y: String,
    pub py_rect_y: String,
    pub py_w: String,
    pub py_val_x: String,
    pub py_p50: String,
    pub py_rps: String,
    pub badge_y: String,
    pub speedup: String,
    pub badge_mem_y: String,
    pub mem_pct: String,
}

/// The markup of one like for like row.
pub open spec fn like_for_like_row_text(r: LikeForLikeRowText) -> Seq<char> {
    "\n    <g class=\"lfl-row\">\n      <text x=\"30\" y=\""@
        + r.label_y@
        + "\" class=\"label-service\">"@
        + r.category@
        + ": "@
        + r.workload@
        + "</text>\n      <!-- Rust Bar -->\n      <text x=\"50\" y=\""@
        + r.rust_y@
        + "\" class=\"label-lang-rust\">Rust Native:</text>\n      <rect x=\"180\" y=\""@
        + r.rust_rect_y@
        + "\" width=\""@
        + r.rust_w@
        + "\" height=\"18\" rx=\"3\" fill=\"#7fb8a6\" />\n      <text x=\""@
        + r.rust_val_x@
        + "\" y=\""@
        + r.rust_y@
        + "\" class=\"label-val\">"@
        + r.rust_p50@
        + " ms ("@
        + r.rust_rps@
        + " req/s)</text>\n\n      <!-- Python Bar -->\n      <text x=\"50\" y=\""@
        + r.py_y@
        + "\" class=\"label-lang-py\">CPython 3.12:</text>\n      <rect x=\"180\" y=\""@
        + r.py_rect_y@
        + "\" width=\""@
        + r.py_w@
        + "\" height=\"18\" rx=\"3\" fill=\"#d7755d\" />\n      <text x=\""@
        + r.py_val_x@
        + "\" y=\""@
        + r.py_y@
        + "\" class=\"label-val\">"@
        + r.py_p50@
        + " ms ("@
        + r.py_rps@
        + " req/s)</text>\n\n      <!-- Badge -->\n      <text x=\"820\" y=\""@
        + r.badge_y@
        + "\" class=\"badge-speedup\">"@
        + r.speedup@
        + "x Faster</text>\n      <text x=\"820\" y=\""@
        + r.badge_mem_y@
        + "\" class=\"badge-mem\">(-"@
        + r.mem_pct@
        + "% RAM)</text>\n    </g>"@
}

/// Every text field of a like for like row is free of dashes.
pub open spec fn like_for_like_row_fields_no_dash(r: LikeForLikeRowText) -> bool {
    no_dash(r.label_y@)
        && no_dash(r.category@)
        && no_dash(r.workload@)
        && no_dash(r.rust_y@)
        && no_dash(r.rust_rect_y@)
        && no_dash(r.rust_w@)
        && no_dash(r.rust_val_x@)
        && no_dash(r.rust_p50@)
        && no_dash(r.rust_rps@)
        && no_dash(r.py_y@)
        && no_dash(r.py_rect_y@)
        && no_dash(r.py_w@)
        && no_dash(r.py_val_x@)
        && no_dash(r.py_p50@)
        && no_dash(r.py_rps@)
        && no_dash(r.badge_y@)
        && no_dash(r.speedup@)
        && no_dash(r.badge_mem_y@)
        && no_dash(r.mem_pct@)
}

/// The markup of the whole like for like chart around its rows.
pub open spec fn like_for_like_chart_text(rows: Seq<char>, svg_h: u32) -> Seq<char> {
    "<svg xmlns=\"http://www.w3.org/2000/svg\" viewBox=\"0 0 1100 "@
        + decimal(svg_h as nat)
        + "\" width=\"100%\" height=\"100%\">\n  <defs>\n    <style>\n      .bg { fill: #18111f; }\n      .title { font-family: ui-sans-serif, system-ui, sans-serif; font-size: 20px; font-weight: 700; fill: #fff8ee; }\n      .subtitle { font-family: ui-sans-serif, system-ui, sans-serif; font-size: 13px; fill: #bca9c2; }\n      .label-service { font-family: ui-monospace, monospace; font-size: 13px; font-weight: 700; fill: #ded3df; }\n      .label-lang-rust { font-family: ui-monospace, monospace; font-size: 11px; font-weight: 600; fill: #7fb8a6; }\n      .label-lang-py { font-family: ui-monospace, monospace; font-size: 11px; font-weight: 600; fill: #d7755d; }\n      .label-val { font-family: ui-monospace, monospace; font-size: 12px; font-weight: 600; fill: #fff8ee; }\n      .badge-speedup { font-family: ui-sans-serif, system-ui, sans-serif; font-size: 15px; font-weight: 800; fill: #7fb8a6; }\n      .badge-mem { font-family: ui-sans-serif, system-ui, sans-serif; font-size: 12px; font-weight: 700; fill: #ef8b67; }\n    </style>\n  </defs>\n  <rect width=\"100%\" height=\"100%\" rx=\"12\" class=\"bg\" />\n  <text x=\"30\" y=\"48\" class=\"title\">Like-for-Like Microservice Benchmark: Rust Native vs CPython 3.12</text>\n  <text x=\"30\" y=\"74\" class=\"subtitle\">Identical payloads, in-memory SQLite tables, and vector workloads tested concurrently on Grace Blackwell</text>\n"@
        + rows
        + "\n</svg>"@
}

/// One row of the like for like chart; it holds a dash only where a field does.
pub fn like_for_like_chart_row(r: &LikeForLikeRowText) -> (s: String)
    ensures
        s@ == like_for_like_row_text(*r),
        no_dash(s@) <==> like_for_like_row_fields_no_dash(*r),
{
    let mut s = String::from_str("\n    <g class=\"lfl-row\">\n      <text x=\"30\" y=\"");
    s.append(r.label_y.as_str());
    s.append("\" class=\"label-service\">");
    s.append(r.category.as_str());
    s.append(": ");
    s.append(r.workload.as_str());
    s.append("</text>\n      <!-- Rust Bar -->\n      <text x=\"50\" y=\"");
    s.append(r.rust_y.as_str());
    s.append("\" class=\"label-lang-rust\">Rust Native:</text>\n      <rect x=\"180\" y=\"");
    s.append(r.rust_rect_y.as_str());
    s.append("\" width=\"");
    s.append(r.rust_w.as_str());
    s.append("\" height=\"18\" rx=\"3\" fill=\"#7fb8a6\" />\n      <text x=\"");
    s.append(r.rust_val_x.as_str());
    s.append("\" y=\"");
    s.append(r.rust_y.as_str());
    s.append("\" class=\"label-val\">");
    s.append(r.rust_p50.as_str());
    s.append(" ms (");
    s.append(r.rust_rps.as_str());
    s.append(" req/s)</text>\n\n      <!-- Python Bar -->\n      <text x=\"50\" y=\"");
    s.append(r.py_y.as_str());
    s.append("\" class=\"label-lang-py\">CPython 3.12:</text>\n      <rect x=\"180\" y=\"");
    s.append(r.py_rect_y.as_str());
    s.append("\" width=\"");
    s.append(r.py_w.as_str());
    s.append("\" height=\"18\" rx=\"3\" fill=\"#d7755d\" />\n      <text x=\"");
    s.append(r.py_val_x.as_str());
    s.append("\" y=\"");
    s.append(r.py_y.as_str());
    s.append("\" class=\"label-val\">");
    s.append(r.py_p50.as_str());
    s.append(" ms (");
    s.append(r.py_rps.as_str());
    s.append(" req/s)</text>\n\n      <!-- Badge -->\n      <text x=\"820\" y=\"");
    s.append(r.badge_y.as_str());
    s.append("\" class=\"badge-speedup\">");
    s.append(r.speedup.as_str());
    s.append("x Faster</text>\n      <text x=\"820\" y=\"");
    s.append(r.badge_mem_y.as_str());
    s.append("\" class=\"badge-mem\">(-");
    s.append(r.mem_pct.as_str());
    s.append("% RAM)</text>\n    </g>");
    proof {
        reveal_strlit("\n    <g class=\"lfl-row\">\n      <text x=\"30\" y=\"");
        assert(no_dash("\n    <g class=\"lfl-row\">\n      <text x=\"30\" y=\""@));
        reveal_strlit(" ms (");
        assert(no_dash(" ms ("@));
        reveal_strlit(" req/s)</text>\n\n      <!-- Badge -->\n      <text x=\"820\" y=\"");
        assert(no_dash(" req/s)</text>\n\n      <!-- Badge -->\n      <text x=\"820\" y=\""@));
        reveal_strlit(" req/s)</text>\n\n      <!-- Python Bar -->\n      <text x=\"50\" y=\"");
        assert(no_dash(" req/s)</text>\n\n      <!-- Python Bar -->\n      <text x=\"50\" y=\""@));
        reveal_strlit("\" class=\"badge-mem\">(-");
        assert(no_dash("\" class=\"badge-mem\">(-"@));
        reveal_strlit("\" class=\"badge-speedup\">");
        assert(no_dash("\" class=\"badge-speedup\">"@));
        reveal_strlit("\" class=\"label-lang-py\">CPython 3.12:</text>\n      <rect x=\"180\" y=\"");
        assert(no_dash("\" class=\"label-lang-py\">CPython 3.12:</text>\n      <rect x=\"180\" y=\""@));
        reveal_strlit("\" class=\"label-lang-rust\">Rust Native:</text>\n      <rect x=\"180\" y=\"");
        assert(no_dash("\" class=\"label-lang-rust\">Rust Native:</text>\n      <rect x=\"180\" y=\""@));
        reveal_strlit("\" class=\"label-service\">");
        assert(no_dash("\" class=\"label-service\">"@));
        reveal_strlit("\" class=\"label-val\">");
        assert(no_dash("\" class=\"label-val\">"@));
        reveal_strlit("\" height=\"18\" rx=\"3\" fill=\"#7fb8a6\" />\n      <text x=\"");
        assert(no_dash("\" height=\"18\" rx=\"3\" fill=\"#7fb8a6\" />\n      <text x=\""@));
        reveal_strlit("\" height=\"18\" rx=\"3\" fill=\"#d7755d\" />\n      <text x=\"");
        assert(no_dash("\" height=\"18\" rx=\"3\" fill=\"#d7755d\" />\n      <text x=\""@));
        reveal_strlit("\" width=\"");
        assert(no_dash("\" width=\""@));
        reveal_strlit("\" y=\"");
        assert(no_dash("\" y=\""@));
        reveal_strlit("% RAM)</text>\n    </g>");
        assert(no_dash("% RAM)</text>\n    </g>"@));
        reveal_strlit(": ");
        assert(no_dash(": "@));
        reveal_strlit("</text>\n      <!-- Rust Bar -->\n      <text x=\"50\" y=\"");
        assert(no_dash("</text>\n      <!-- Rust Bar -->\n      <text x=\"50\" y=\""@));
        reveal_strlit("x Faster</text>\n      <text x=\"820\" y=\"");
        assert(no_dash("x Faster</text>\n      <text x=\"820\" y=\""@));
        let x0 = "\n    <g class=\"lfl-row\">\n      <text x=\"30\" y=\""@;
        lemma_no_dash_concat(x0, r.label_y@);
        let x1 = x0 + r.label_y@;
        lemma_no_dash_concat(x1, "\" class=\"label-service\">"@);
        let x2 = x1 + "\" class=\"label-service\">"@;
        lemma_no_dash_concat(x2, r.category@);
        let x3 = x2 + r.category@;
        lemma_no_dash_concat(x3, ": "@);
        let x4 = x3 + ": "@;
        lemma_no_dash_concat(x4, r.workload@);
        let x5 = x4 + r.workload@;
        lemma_no_dash_concat(x5, "</text>\n      <!-- Rust Bar -->\n      <text x=\"50\" y=\""@);
        let x6 = x5 + "</text>\n      <!-- Rust Bar -->\n      <text x=\"50\" y=\""@;
        lemma_no_dash_concat(x6, r.rust_y@);
        let x7 = x6 + r.rust_y@;
        lemma_no_dash_concat(x7, "\" class=\"label-lang-rust\">Rust Native:</text>\n      <rect x=\"180\" y=\""@);
        let x8 = x7 + "\" class=\"label-lang-rust\">Rust Native:</text>\n      <rect x=\"180\" y=\""@;
        lemma_no_dash_concat(x8, r.rust_rect_y@);
        let x9 = x8 + r.rust_rect_y@;
        lemma_no_dash_concat(x9, "\" width=\""@);
        let x10 = x9 + "\" width=\""@;
        lemma_no_dash_concat(x10, r.rust_w@);
        let x11 = x10 + r.rust_w@;
        lemma_no_dash_concat(x11, "\" height=\"18\" rx=\"3\" fill=\"#7fb8a6\" />\n      <text x=\""@);
        let x12 = x11 + "\" height=\"18\" rx=\"3\" fill=\"#7fb8a6\" />\n      <text x=\""@;
        lemma_no_dash_concat(x12, r.rust_val_x@);
        let x13 = x12 + r.rust_val_x@;
        lemma_no_dash_concat(x13, "\" y=\""@);
        let x14 = x13 + "\" y=\""@;
        lemma_no_dash_concat(x14, r.rust_y@);
        let x15 = x14 + r.rust_y@;
        lemma_no_dash_concat(x15, "\" class=\"label-val\">"@);
        let x16 = x15 + "\" class=\"label-val\">"@;
        lemma_no_dash_concat(x16, r.rust_p50@);
        let x17 = x16 + r.rust_p50@;
        lemma_no_dash_concat(x17, " ms ("@);
        let x18 = x17 + " ms ("@;
        lemma_no_dash_concat(x18, r.rust_rps@);
        let x19 = x18 + r.rust_rps@;
        lemma_no_dash_concat(x19, " req/s)</text>\n\n      <!-- Python Bar -->\n      <text x=\"50\" y=\""@);
        let x20 = x19 + " req/s)</text>\n\n      <!-- Python Bar -->\n      <text x=\"50\" y=\""@;
        lemma_no_dash_concat(x20, r.py_y@);
        let x21 = x20 + r.py_y@;
        lemma_no_dash_concat(x21, "\" class=\"label-lang-py\">CPython 3.12:</text>\n      <rect x=\"180\" y=\""@);
        let x22 = x21 + "\" class=\"label-lang-py\">CPython 3.12:</text>\n      <rect x=\"180\" y=\""@;
        lemma_no_dash_concat(x22, r.py_rect_y@);
        let x23 = x22 + r.py_rect_y@;
        lemma_no_dash_concat(x23, "\" width=\""@);
        let x24 = x23 + "\" width=\""@;
        lemma_no_dash_concat(x24, r.py_w@);
        let x25 = x24 + r.py_w@;
        lemma_no_dash_concat(x25, "\" height=\"18\" rx=\"3\" fill=\"#d7755d\" />\n      <text x=\""@);
        let x26 = x25 + "\" height=\"18\" rx=\"3\" fill=\"#d7755d\" />\n      <text x=\""@;
        lemma_no_dash_concat(x26, r.py_val_x@);
        let x27 = x26 + r.py_val_x@;
        lemma_no_dash_concat(x27, "\" y=\""@);
        let x28 = x27 + "\" y=\""@;
        lemma_no_dash_concat(x28, r.py_y@);
        let x29 = x28 + r.py_y@;
        lemma_no_dash_concat(x29, "\" class=\"label-val\">"@);
        let x30 = x29 + "\" class=\"label-val\">"@;
        lemma_no_dash_concat(x30, r.py_p50@);
        let x31 = x30 + r.py_p50@;
        lemma_no_dash_concat(x31, " ms ("@);
        let x32 = x31 + " ms ("@;
        lemma_no_dash_concat(x32, r.py_rps@);
        let x33 = x32 + r.py_rps@;
        lemma_no_dash_concat(x33, " req/s)</text>\n\n      <!-- Badge -->\n      <text x=\"820\" y=\""@);
        let x34 = x33 + " req/s)</text>\n\n      <!-- Badge -->\n      <text x=\"820\" y=\""@;
        lemma_no_dash_concat(x34, r.badge_y@);
        let x35 = x34 + r.badge_y@;
        lemma_no_dash_concat(x35, "\" class=\"badge-speedup\">"@);
        let x36 = x35 + "\" class=\"badge-speedup\">"@;
        lemma_no_dash_concat(x36, r.speedup@);
        let x37 = x36 + r.speedup@;
        lemma_no_dash_concat(x37, "x Faster</text>\n      <text x=\"820\" y=\""@);
        let x38 = x37 + "x Faster</text>\n      <text x=\"820\" y=\""@;
        lemma_no_dash_concat(x38, r.badge_mem_y@);
        let x39 = x38 + r.badge_mem_y@;
        lemma_no_dash_concat(x39, "\" class=\"badge-mem\">(-"@);
        let x40 = x39 + "\" class=\"badge-mem\">(-"@;
        lemma_no_dash_concat(x40, r.mem_pct@);
        let x41 = x40 + r.mem_pct@;
        lemma_no_dash_concat(x41, "% RAM)</text>\n    </g>"@);
        let x42 = x41 + "% RAM)</text>\n    </g>"@;
        assert(s@ == x42);
    }
    s
}

/// The whole like for like chart around the markup of its rows: an SVG document
/// that starts with `<svg` and ends with `</svg>`, with a dash only where the rows have one.
pub fn like_for_like_chart_document(rows: &str, svg_h: u32) -> (s: String)
    ensures
        s@ == like_for_like_chart_text(rows@, svg_h),
        no_dash(s@) <==> no_dash(rows@),
        starts_with(s@, "<svg"@),
        ends_with(s@, "</svg>"@),
{
    let mut s = String::from_str("<svg xmlns=\"http://www.w3.org/2000/svg\" viewBox=\"0 0 1100 ");
    push_decimal(&mut s, svg_h as u64);
    s.append("\" width=\"100%\" height=\"100%\">\n  <defs>\n    <style>\n      .bg { fill: #18111f; }\n      .title { font-family: ui-sans-serif, system-ui, sans-serif; font-size: 20px; font-weight: 700; fill: #fff8ee; }\n      .subtitle { font-family: ui-sans-serif, system-ui, sans-serif; font-size: 13px; fill: #bca9c2; }\n      .label-service { font-family: ui-monospace, monospace; font-size: 13px; font-weight: 700; fill: #ded3df; }\n      .label-lang-rust { font-family: ui-monospace, monospace; font-size: 11px; font-weight: 600; fill: #7fb8a6; }\n      .label-lang-py { font-family: ui-monospace, monospace; font-size: 11px; font-weight: 600; fill: #d7755d; }\n      .label-val { font-family: ui-monospace, monospace; font-size: 12px; font-weight: 600; fill: #fff8ee; }\n      .badge-speedup { font-family: ui-sans-serif, system-ui, sans-serif; font-size: 15px; font-weight: 800; fill: #7fb8a6; }\n      .badge-mem { font-family: ui-sans-serif, system-ui, sans-serif; font-size: 12px; font-weight: 700; fill: #ef8b67; }\n    </style>\n  </defs>\n  <rect width=\"100%\" height=\"100%\" rx=\"12\" class=\"bg\" />\n  <text x=\"30\" y=\"48\" class=\"title\">Like-for-Like Microservice Benchmark: Rust Native vs CPython 3.12</text>\n  <text x=\"30\" y=\"74\" class=\"subtitle\">Identical payloads, in-memory SQLite tables, and vector workloads tested concurrently on Grace Blackwell</text>\n");
    s.append(rows);
    s.append("\n</svg>");
    proof {
        reveal_strlit("\n</svg>");
        assert(no_dash("\n</svg>"@));
        reveal_strlit("\" width=\"100%\" height=\"100%\">\n  <defs>\n    <style>\n      .bg { fill: #18111f; }\n      .title { font-family: ui-sans-serif, system-ui, sans-serif; font-size: 20px; font-weight: 700; fill: #fff8ee; }\n      .subtitle { font-family: ui-sans-serif, system-ui, sans-serif; font-size: 13px; fill: #bca9c2; }\n      .label-service { font-family: ui-monospace, monospace; font-size: 13px; font-weight: 700; fill: #ded3df; }\n      .label-lang-rust { font-family: ui-monospace, monospace; font-size: 11px; font-weight: 600; fill: #7fb8a6; }\n      .label-lang-py { font-family: ui-monospace, monospace; font-size: 11px; font-weight: 600; fill: #d7755d; }\n      .label-val { font-family: ui-monospace, monospace; font-size: 12px; font-weight: 600; fill: #fff8ee; }\n      .badge-speedup { font-family: ui-sans-serif, system-ui, sans-serif; font-size: 15px; font-weight: 800; fill: #7fb8a6; }\n      .badge-mem { font-family: ui-sans-serif, system-ui, sans-serif; font-size: 12px; font-weight: 700; fill: #ef8b67; }\n    </style>\n  </defs>\n  <rect width=\"100%\" height=\"100%\" rx=\"12\" class=\"bg\" />\n  <text x=\"30\" y=\"48\" class=\"title\">Like-for-Like Microservice Benchmark: Rust Native vs CPython 3.12</text>\n  <text x=\"30\" y=\"74\" class=\"subtitle\">Identical payloads, in-memory SQLite tables, and vector workloads tested concurrently on Grace Blackwell</text>\n");
        assert(no_dash("\" width=\"100%\" height=\"100%\">\n  <defs>\n    <style>\n      .bg { fill: #18111f; }\n      .title { font-family: ui-sans-serif, system-ui, sans-serif; font-size: 20px; font-weight: 700; fill: #fff8ee; }\n      .subtitle { font-family: ui-sans-serif, system-ui, sans-serif; font-size: 13px; fill: #bca9c2; }\n      .label-service { font-family: ui-monospace, monospace; font-size: 13px; font-weight: 700; fill: #ded3df; }\n      .label-lang-rust { font-family: ui-monospace, monospace; font-size: 11px; font-weight: 600; fill: #7fb8a6; }\n      .label-lang-py { font-family: ui-monospace, monospace; font-size: 11px; font-weight: 600; fill: #d7755d; }\n      .label-val { font-family: ui-monospace, monospace; font-size: 12px; font-weight: 600; fill: #fff8ee; }\n      .badge-speedup { font-family: ui-sans-serif, system-ui, sans-serif; font-size: 15px; font-weight: 800; fill: #7fb8a6; }\n      .badge-mem { font-family: ui-sans-serif, system-ui, sans-serif; font-size: 12px; font-weight: 700; fill: #ef8b67; }\n    </style>\n  </defs>\n  <rect width=\"100%\" height=\"100%\" rx=\"12\" class=\"bg\" />\n  <text x=\"30\" y=\"48\" class=\"title\">Like-for-Like Microservice Benchmark: Rust Native vs CPython 3.12</text>\n  <text x=\"30\" y=\"74\" class=\"subtitle\">Identical payloads, in-memory SQLite tables, and vector workloads tested concurrently on Grace Blackwell</text>\n"@));
        reveal_strlit("<svg xmlns=\"http://www.w3.org/2000/svg\" viewBox=\"0 0 1100 ");
        assert(no_dash("<svg xmlns=\"http://www.w3.org/2000/svg\" viewBox=\"0 0 1100 "@));
        reveal_strlit("<svg");
        reveal_strlit("</svg>");
        lemma_decimal_no_dash(svg_h as nat);
        let x0 = "<svg xmlns=\"http://www.w3.org/2000/svg\" viewBox=\"0 0 1100 "@;
        assert(x0.take(4) =~= "<svg"@);
        lemma_no_dash_concat(x0, decimal(svg_h as nat));
        lemma_starts_with_concat(x0, decimal(svg_h as nat), "<svg"@);
        let x1 = x0 + decimal(svg_h as nat);
        lemma_no_dash_concat(x1, "\" width=\"100%\" height=\"100%\">\n  <defs>\n    <style>\n      .bg { fill: #18111f; }\n      .title { font-family: ui-sans-serif, system-ui, sans-serif; font-size: 20px; font-weight: 700; fill: #fff8ee; }\n      .subtitle { font-family: ui-sans-serif, system-ui, sans-serif; font-size: 13px; fill: #bca9c2; }\n      .label-service { font-family: ui-monospace, monospace; font-size: 13px; font-weight: 700; fill: #ded3df; }\n      .label-lang-rust { font-family: ui-monospace, monospace; font-size: 11px; font-weight: 600; fill: #7fb8a6; }\n      .label-lang-py { font-family: ui-monospace, monospace; font-size: 11px; font-weight: 600; fill: #d7755d; }\n      .label-val { font-family: ui-monospace, monospace; font-size: 12px; font-weight: 600; fill: #fff8ee; }\n      .badge-speedup { font-family: ui-sans-serif, system-ui, sans-serif; font-size: 15px; font-weight: 800; fill: #7fb8a6; }\n      .badge-mem { font-family: ui-sans-serif, system-ui, sans-serif; font-size: 12px; font-weight: 700; fill: #ef8b67; }\n    </style>\n  </defs>\n  <rect width=\"100%\" height=\"100%\" rx=\"12\" class=\"bg\" />\n  <text x=\"30\" y=\"48\" class=\"title\">Like-for-Like Microservice Benchmark: Rust Native vs CPython 3.12</text>\n  <text x=\"30\" y=\"74\" class=\"subtitle\">Identical payloads, in-memory SQLite tables, and vector workloads tested concurrently on Grace Blackwell</text>\n"@);
        lemma_starts_with_concat(x1, "\" width=\"100%\" height=\"100%\">\n  <defs>\n    <style>\n      .bg { fill: #18111f; }\n      .title { font-family: ui-sans-serif, system-ui, sans-serif; font-size: 20px; font-weight: 700; fill: #fff8ee; }\n      .subtitle { font-family: ui-sans-serif, system-ui, sans-serif; font-size: 13px; fill: #bca9c2; }\n      .label-service { font-family: ui-monospace, monospace; font-size: 13px; font-weight: 700; fill: #ded3df; }\n      .label-lang-rust { font-family: ui-monospace, monospace; font-size: 11px; font-weight: 600; fill: #7fb8a6; }\n      .label-lang-py { font-family: ui-monospace, monospace; font-size: 11px; font-weight: 600; fill: #d7755d; }\n      .label-val { font-family: ui-monospace, monospace; font-size: 12px; font-weight: 600; fill: #fff8ee; }\n      .badge-speedup { font-family: ui-sans-serif, system-ui, sans-serif; font-size: 15px; font-weight: 800; fill: #7fb8a6; }\n      .badge-mem { font-family: ui-sans-serif, system-ui, sans-serif; font-size: 12px; font-weight: 700; fill: #ef8b67; }\n    </style>\n  </defs>\n  <rect width=\"100%\" height=\"100%\" rx=\"12\" class=\"bg\" />\n  <text x=\"30\" y=\"48\" class=\"title\">Like-for-Like Microservice Benchmark: Rust Native vs CPython 3.12</text>\n  <text x=\"30\" y=\"74\" class=\"subtitle\">Identical payloads, in-memory SQLite tables, and vector workloads tested concurrently on Grace Blackwell</text>\n"@, "<svg"@);
        let x2 = x1 + "\" width=\"100%\" height=\"100%\">\n  <defs>\n    <style>\n      .bg { fill: #18111f; }\n      .title { font-family: ui-sans-serif, system-ui, sans-serif; font-size: 20px; font-weight: 700; fill: #fff8ee; }\n      .subtitle { font-family: ui-sans-serif, system-ui, sans-serif; font-size: 13px; fill: #bca9c2; }\n      .label-service { font-family: ui-monospace, monospace; font-size: 13px; font-weight: 700; fill: #ded3df; }\n      .label-lang-rust { font-family: ui-monospace, monospace; font-size: 11px; font-weight: 600; fill: #7fb8a6; }\n      .label-lang-py { font-family: ui-monospace, monospace; font-size: 11px; font-weight: 600; fill: #d7755d; }\n      .label-val { font-family: ui-monospace, monospace; font-size: 12px; font-weight: 600; fill: #fff8ee; }\n      .badge-speedup { font-family: ui-sans-serif, system-ui, sans-serif; font-size: 15px; font-weight: 800; fill: #7fb8a6; }\n      .badge-mem { font-family: ui-sans-serif, system-ui, sans-serif; font-size: 12px; font-weight: 700; fill: #ef8b67; }\n    </style>\n  </defs>\n  <rect width=\"100%\" height=\"100%\" rx=\"12\" class=\"bg\" />\n  <text x=\"30\" y=\"48\" class=\"title\">Like-for-Like Microservice Benchmark: Rust Native vs CPython 3.12</text>\n  <text x=\"30\" y=\"74\" class=\"subtitle\">Identical payloads, in-memory SQLite tables, and vector workloads tested concurrently on Grace Blackwell</text>\n"@;
        lemma_no_dash_concat(x2, rows@);
        lemma_starts_with_concat(x2, rows@, "<svg"@);
        let x3 = x2 + rows@;
        lemma_no_dash_concat(x3, "\n</svg>"@);
        lemma_starts_with_concat(x3, "\n</svg>"@, "<svg"@);
        let x4 = x3 + "\n</svg>"@;
        assert("\n</svg>"@.skip("\n</svg>"@.len() - 6) =~= "</svg>"@);
        lemma_ends_with_concat(x3, "\n</svg>"@, "</svg>"@);
        assert(s@ == x4);
    }
    s
}

/// The text of one row of the pressure chart, every number already formatted.
#[derive(Clone, Debug)]
pub struct PressureRowText {
    pub y: String,
    pub concurrency: String,
    pub rect_ttft_y: String,
    pub ttft_w: String,
    pub rect_itl_y: String,
    pub itl_w: String,
    pub ttft_val_x: String,
    pub y_ttft_text: String,
    pub ttft: String,
    pub itl_val_x: String,
    pub y_itl_text: String,
    pub itl: String,
    pub tps: String,
    pub power: String,
    pub joules: String,
}

/// The markup of one pressure row.
pub open spec fn pressure_row_text(r: PressureRowText) -> Seq<char> {
    "\n    <g class=\"tier-row\">\n      <text x=\"30\" y=\""@
        + r.y@
        + "\" class=\"label-concurrency\">Concurrency = "@
        + r.concurrency@
        + "</text>\n      <rect x=\"220\" y=\""@
        + r.rect_ttft_y@
        + "\" width=\""@
        + r.ttft_w@
        + "\" height=\"14\" rx=\"3\" fill=\"#7fb8a6\" />\n      <rect x=\"220\" y=\""@
        + r.rect_itl_y@
        + "\" width=\""@
        + r.itl_w@
        + "\" height=\"14\" rx=\"3\" fill=\"#6ba4d9\" />\n      <text x=\""@
        + r.ttft_val_x@
        + "\" y=\""@
        + r.y_ttft_text@
        + "\" class=\"label-stat\">TTFT "@
        + r.ttft@
        + "ms</text>\n      <text x=\""@
        + r.itl_val_x@
        + "\" y=\""@
        + r.y_itl_text@
        + "\" class=\"label-stat\">ITL "@
        + r.itl@
        + "ms</text>\n      <text x=\"760\" y=\""@
        + r.y@
        + "\" class=\"badge-tps\">"@
        + r.tps@
        + " tok/s</text>\n      <text x=\"920\" y=\""@
        + r.y@
        + "\" class=\"badge-power\">"@
        + r.power@
        + "W ("@
        + r.joules@
        + " J/tok)</text>\n    </g>"@
}

/// Every text field of a pressure row is free of dashes.
pub open spec fn pressure_row_fields_no_dash(r: PressureRowText) -> bool {
    no_dash(r.y@)
        && no_dash(r.concurrency@)
        && no_dash(r.rect_ttft_y@)
        && no_dash(r.ttft_w@)
        && no_dash(r.rect_itl_y@)
        && no_dash(r.itl_w@)
        && no_dash(r.ttft_val_x@)
        && no_dash(r.y_ttft_text@)
        && no_dash(r.ttft@)
        && no_dash(r.itl_val_x@)
        && no_dash(r.y_itl_text@)
        && no_dash(r.itl@)
        && no_dash(r.tps@)
        && no_dash(r.power@)
        && no_dash(r.joules@)
}

/// The markup of the whole pressure chart around its rows.
pub open spec fn pressure_chart_text(rows: Seq<char>, svg_h: u32) -> Seq<char> {
    "<svg xmlns=\"http://www.w3.org/2000/svg\" viewBox=\"0 0 1100 "@
        + decimal(svg_h as nat)
        + "\" width=\"100%\" height=\"100%\">\n  <defs>\n    <style>\n      .bg { fill: #18111f; }\n      .title { font-family: ui-sans-serif, system-ui, sans-serif; font-size: 20px; font-weight: 700; fill: #fff8ee; }\n      .subtitle { font-family: ui-sans-serif, system-ui, sans-serif; font-size: 13px; fill: #bca9c2; }\n      .label-concurrency { font-family: ui-monospace, monospace; font-size: 13px; font-weight: 700; fill: #ded3df; }\n      .label-stat { font-family: ui-monospace, monospace; font-size: 11px; font-weight: 600; fill: #fff8ee; }\n      .badge-tps { font-family: ui-monospace, monospace; font-size: 13px; font-weight: 700; fill: #7fb8a6; }\n      .badge-power { font-family: ui-monospace, monospace; font-size: 11px; font-weight: 600; fill: #d3a85b; }\n    </style>\n  </defs>\n  <rect width=\"100%\" height=\"100%\" rx=\"12\" class=\"bg\" />\n  <text x=\"30\" y=\"48\" class=\"title\">Empirical Concurrency Pressure Sweep (C=1 to C=256)</text>\n  <text x=\"30\" y=\"74\" class=\"subtitle\">AIEN Continuous Batching Scheduler + Paged Unified Memory KV Pool on NVIDIA Grace Blackwell GB10</text>\n"@
        + rows
        + "\n</svg>"@
}

/// One row of the pressure chart; it holds a dash only where a field does.
pub fn pressure_chart_row(r: &PressureRowText) -> (s: String)
    ensures
        s@ == pressure_row_text(*r),
        no_dash(s@) <==> pressure_row_fields_no_dash(*r),
{
    let mut s = String::from_str("\n    <g class=\"tier-row\">\n      <text x=\"30\" y=\"");
    s.append(r.y.as_str());
    s.append("\" class=\"label-concurrency\">Concurrency = ");
    s.append(r.concurrency.as_str());
    s.append("</text>\n      <rect x=\"220\" y=\"");
    s.append(r.rect_ttft_y.as_str());
    s.append("\" width=\"");
    s.append(r.ttft_w.as_str());
    s.append("\" height=\"14\" rx=\"3\" fill=\"#7fb8a6\" />\n      <rect x=\"220\" y=\"");
    s.append(r.rect_itl_y.as_str());
    s.append("\" width=\"");
    s.append(r.itl_w.as_str());
    s.append("\" height=\"14\" rx=\"3\" fill=\"#6ba4d9\" />\n      <text x=\"");
    s.append(r.ttft_val_x.as_str());
    s.append("\" y=\"");
    s.append(r.y_ttft_text.as_str());
    s.append("\" class=\"label-stat\">TTFT ");
    s.append(r.ttft.as_str());
    s.append("ms</text>\n      <text x=\"");
    s.append(r.itl_val_x.as_str());
    s.append("\" y=\"");
    s.append(r.y_itl_text.as_str());
    s.append("\" class=\"label-stat\">ITL ");
    s.append(r.itl.as_str());
    s.append("ms</text>\n      <text x=\"760\" y=\"");
    s.append(r.y.as_str());
    s.append("\" class=\"badge-tps\">");
    s.append(r.tps.as_str());
    s.append(" tok/s</text>\n      <text x=\"920\" y=\"");
    s.append(r.y.as_str());
    s.append("\" class=\"badge-power\">");
    s.append(r.power.as_str());
    s.append("W (");
    s.append(r.joules.as_str());
    s.append(" J/tok)</text>\n    </g>");
    proof {
        reveal_strlit("\n    <g class=\"tier-row\">\n      <text x=\"30\" y=\"");
        assert(no_dash("\n    <g class=\"tier-row\">\n      <text x=\"30\" y=\""@));
        reveal_strlit(" J/tok)</text>\n    </g>");
        assert(no_dash(" J/tok)</text>\n    </g>"@));
        reveal_strlit(" tok/s</text>\n      <text x=\"920\" y=\"");
        assert(no_dash(" tok/s</text>\n      <text x=\"920\" y=\""@));
        reveal_strlit("\" class=\"badge-power\">");
        assert(no_dash("\" class=\"badge-power\">"@));
        reveal_strlit("\" class=\"badge-tps\">");
        assert(no_dash("\" class=\"badge-tps\">"@));
        reveal_strlit("\" class=\"label-concurrency\">Concurrency = ");
        assert(no_dash("\" class=\"label-concurrency\">Concurrency = "@));
        reveal_strlit("\" class=\"label-stat\">ITL ");
        assert(no_dash("\" class=\"label-stat\">ITL "@));
        reveal_strlit("\" class=\"label-stat\">TTFT ");
        assert(no_dash("\" class=\"label-stat\">TTFT "@));
        reveal_strlit("\" height=\"14\" rx=\"3\" fill=\"#6ba4d9\" />\n      <text x=\"");
        assert(no_dash("\" height=\"14\" rx=\"3\" fill=\"#6ba4d9\" />\n      <text x=\""@));
        reveal_strlit("\" height=\"14\" rx=\"3\" fill=\"#7fb8a6\" />\n      <rect x=\"220\" y=\"");
        assert(no_dash("\" height=\"14\" rx=\"3\" fill=\"#7fb8a6\" />\n      <rect x=\"220\" y=\""@));
        reveal_strlit("\" width=\"");
        assert(no_dash("\" width=\""@));
        reveal_strlit("\" y=\"");
        assert(no_dash("\" y=\""@));
        reveal_strlit("</text>\n      <rect x=\"220\" y=\"");
        assert(no_dash("</text>\n      <rect x=\"220\" y=\""@));
        reveal_strlit("W (");
        assert(no_dash("W ("@));
        reveal_strlit("ms</text>\n      <text x=\"");
        assert(no_dash("ms</text>\n      <text x=\""@));
        reveal_strlit("ms</text>\n      <text x=\"760\" y=\"");
        assert(no_dash("ms</text>\n      <text x=\"760\" y=\""@));
        let x0 = "\n    <g class=\"tier-row\">\n      <text x=\"30\" y=\""@;
        lemma_no_dash_concat(x0, r.y@);
        let x1 = x0 + r.y@;
        lemma_no_dash_concat(x1, "\" class=\"label-concurrency\">Concurrency = "@);
        let x2 = x1 + "\" class=\"label-concurrency\">Concurrency = "@;
        lemma_no_dash_concat(x2, r.concurrency@);
        let x3 = x2 + r.concurrency@;
        lemma_no_dash_concat(x3, "</text>\n      <rect x=\"220\" y=\""@);
        let x4 = x3 + "</text>\n      <rect x=\"220\" y=\""@;
        lemma_no_dash_concat(x4, r.rect_ttft_y@);
        let x5 = x4 + r.rect_ttft_y@;
        lemma_no_dash_concat(x5, "\" width=\""@);
        let x6 = x5 + "\" width=\""@;
        lemma_no_dash_concat(x6, r.ttft_w@);
        let x7 = x6 + r.ttft_w@;
        lemma_no_dash_concat(x7, "\" height=\"14\" rx=\"3\" fill=\"#7fb8a6\" />\n      <rect x=\"220\" y=\""@);
        let x8 = x7 + "\" height=\"14\" rx=\"3\" fill=\"#7fb8a6\" />\n      <rect x=\"220\" y=\""@;
        lemma_no_dash_concat(x8, r.rect_itl_y@);
        let x9 = x8 + r.rect_itl_y@;
        lemma_no_dash_concat(x9, "\" width=\""@);
        let x10 = x9 + "\" width=\""@;
        lemma_no_dash_concat(x10, r.itl_w@);
        let x11 = x10 + r.itl_w@;
        lemma_no_dash_concat(x11, "\" height=\"14\" rx=\"3\" fill=\"#6ba4d9\" />\n      <text x=\""@);
        let x12 = x11 + "\" height=\"14\" rx=\"3\" fill=\"#6ba4d9\" />\n      <text x=\""@;
        lemma_no_dash_concat(x12, r.ttft_val_x@);
        let x13 = x12 + r.ttft_val_x@;
        lemma_no_dash_concat(x13, "\" y=\""@);
        let x14 = x13 + "\" y=\""@;
        lemma_no_dash_concat(x14, r.y_ttft_text@);
        let x15 = x14 + r.y_ttft_text@;
        lemma_no_dash_concat(x15, "\" class=\"label-stat\">TTFT "@);
        let x16 = x15 + "\" class=\"label-stat\">TTFT "@;
        lemma_no_dash_concat(x16, r.ttft@);
        let x17 = x16 + r.ttft@;
        lemma_no_dash_concat(x17, "ms</text>\n      <text x=\""@);
        let x18 = x17 + "ms</text>\n      <text x=\""@;
        lemma_no_dash_concat(x18, r.itl_val_x@);
        let x19 = x18 + r.itl_val_x@;
        lemma_no_dash_concat(x19, "\" y=\""@);
        let x20 = x19 + "\" y=\""@;
        lemma_no_dash_concat(x20, r.y_itl_text@);
        let x21 = x20 + r.y_itl_text@;
        lemma_no_dash_concat(x21, "\" class=\"label-stat\">ITL "@);
        let x22 = x21 + "\" class=\"label-stat\">ITL "@;
        lemma_no_dash_concat(x22, r.itl@);
        let x23 = x22 + r.itl@;
        lemma_no_dash_concat(x23, "ms</text>\n      <text x=\"760\" y=\""@);
        let x24 = x23 + "ms</text>\n      <text x=\"760\" y=\""@;
        lemma_no_dash_concat(x24, r.y@);
        let x25 = x24 + r.y@;
        lemma_no_dash_concat(x25, "\" class=\"badge-tps\">"@);
        let x26 = x25 + "\" class=\"badge-tps\">"@;
        lemma_no_dash_concat(x26, r.tps@);
        let x27 = x26 + r.tps@;
        lemma_no_dash_concat(x27, " tok/s</text>\n      <text x=\"920\" y=\""@);
        let x28 = x27 + " tok/s</text>\n      <text x=\"920\" y=\""@;
        lemma_no_dash_concat(x28, r.y@);
        let x29 = x28 + r.y@;
        lemma_no_dash_concat(x29, "\" class=\"badge-power\">"@);
        let x30 = x29 + "\" class=\"badge-power\">"@;
        lemma_no_dash_concat(x30, r.power@);
        let x31 = x30 + r.power@;
        lemma_no_dash_concat(x31, "W ("@);
        let x32 = x31 + "W ("@;
        lemma_no_dash_concat(x32, r.joules@);
        let x33 = x32 + r.joules@;
        lemma_no_dash_concat(x33, " J/tok)</text>\n    </g>"@);
        let x34 = x33 + " J/tok)</text>\n    </g>"@;
        assert(s@ == x34);
    }
    s
}

/// The whole pressure chart around the markup of its rows: an SVG document
/// that starts with `<svg` and ends with `</svg>`, with a dash only where the rows have one.
pub fn pressure_chart_document(rows: &str, svg_h: u32) -> (s: String)
    ensures
        s@ == pressure_chart_text(rows@, svg_h),
        no_dash(s@) <==> no_dash(rows@),
        starts_with(s@, "<svg"@),
        ends_with(s@, "</svg>"@),
{
    let mut s = String::from_str("<svg xmlns=\"http://www.w3.org/2000/svg\" viewBox=\"0 0 1100 ");
    push_decimal(&mut s, svg_h as u64);
    s.append("\" width=\"100%\" height=\"100%\">\n  <defs>\n    <style>\n      .bg { fill: #18111f; }\n      .title { font-family: ui-sans-serif, system-ui, sans-serif; font-size: 20px; font-weight: 700; fill: #fff8ee; }\n      .subtitle { font-family: ui-sans-serif, system-ui, sans-serif; font-size: 13px; fill: #bca9c2; }\n      .label-concurrency { font-family: ui-monospace, monospace; font-size: 13px; font-weight: 700; fill: #ded3df; }\n      .label-stat { font-family: ui-monospace, monospace; font-size: 11px; font-weight: 600; fill: #fff8ee; }\n      .badge-tps { font-family: ui-monospace, monospace; font-size: 13px; font-weight: 700; fill: #7fb8a6; }\n      .badge-power { font-family: ui-monospace, monospace; font-size: 11px; font-weight: 600; fill: #d3a85b; }\n    </style>\n  </defs>\n  <rect width=\"100%\" height=\"100%\" rx=\"12\" class=\"bg\" />\n  <text x=\"30\" y=\"48\" class=\"title\">Empirical Concurrency Pressure Sweep (C=1 to C=256)</text>\n  <text x=\"30\" y=\"74\" class=\"subtitle\">AIEN Continuous Batching Scheduler + Paged Unified Memory KV Pool on NVIDIA Grace Blackwell GB10</text>\n");
    s.append(rows);
    s.append("\n</svg>");
    proof {
        reveal_strlit("\n</svg>");
        assert(no_dash("\n</svg>"@));
        reveal_strlit("\" width=\"100%\" height=\"100%\">\n  <defs>\n    <style>\n      .bg { fill: #18111f; }\n      .title { font-family: ui-sans-serif, system-ui, sans-serif; font-size: 20px; font-weight: 700; fill: #fff8ee; }\n      .subtitle { font-family: ui-sans-serif, system-ui, sans-serif; font-size: 13px; fill: #bca9c2; }\n      .label-concurrency { font-family: ui-monospace, monospace; font-size: 13px; font-weight: 700; fill: #ded3df; }\n      .label-stat { font-family: ui-monospace, monospace; font-size: 11px; font-weight: 600; fill: #fff8ee; }\n      .badge-tps { font-family: ui-monospace, monospace; font-size: 13px; font-weight: 700; fill: #7fb8a6; }\n      .badge-power { font-family: ui-monospace, monospace; font-size: 11px; font-weight: 600; fill: #d3a85b; }\n    </style>\n  </defs>\n  <rect width=\"100%\" height=\"100%\" rx=\"12\" class=\"bg\" />\n  <text x=\"30\" y=\"48\" class=\"title\">Empirical Concurrency Pressure Sweep (C=1 to C=256)</text>\n  <text x=\"30\" y=\"74\" class=\"subtitle\">AIEN Continuous Batching Scheduler + Paged Unified Memory KV Pool on NVIDIA Grace Blackwell GB10</text>\n");
        assert(no_dash("\" width=\"100%\" height=\"100%\">\n  <defs>\n    <style>\n      .bg { fill: #18111f; }\n      .title { font-family: ui-sans-serif, system-ui, sans-serif; font-size: 20px; font-weight: 700; fill: #fff8ee; }\n      .subtitle { font-family: ui-sans-serif, system-ui, sans-serif; font-size: 13px; fill: #bca9c2; }\n      .label-concurrency { font-family: ui-monospace, monospace; font-size: 13px; font-weight: 700; fill: #ded3df; }\n      .label-stat { font-family: ui-monospace, monospace; font-size: 11px; font-weight: 600; fill: #fff8ee; }\n      .badge-tps { font-family: ui-monospace, monospace; font-size: 13px; font-weight: 700; fill: #7fb8a6; }\n      .badge-power { font-family: ui-monospace, monospace; font-size: 11px; font-weight: 600; fill: #d3a85b; }\n    </style>\n  </defs>\n  <rect width=\"100%\" height=\"100%\" rx=\"12\" class=\"bg\" />\n  <text x=\"30\" y=\"48\" class=\"title\">Empirical Concurrency Pressure Sweep (C=1 to C=256)</text>\n  <text x=\"30\" y=\"74\" class=\"subtitle\">AIEN Continuous Batching Scheduler + Paged Unified Memory KV Pool on NVIDIA Grace Blackwell GB10</text>\n"@));
        reveal_strlit("<svg xmlns=\"http://www.w3.org/2000/svg\" viewBox=\"0 0 1100 ");
        assert(no_dash("<svg xmlns=\"http://www.w3.org/2000/svg\" viewBox=\"0 0 1100 "@));
        reveal_strlit("<svg");
        reveal_strlit("</svg>");
        lemma_decimal_no_dash(svg_h as nat);
        let x0 = "<svg xmlns=\"http://www.w3.org/2000/svg\" viewBox=\"0 0 1100 "@;
        assert(x0.take(4) =~= "<svg"@);
        lemma_no_dash_concat(x0, decimal(svg_h as nat));
        lemma_starts_with_concat(x0, decimal(svg_h as nat), "<svg"@);
        let x1 = x0 + decimal(svg_h as nat);
        lemma_no_dash_concat(x1, "\" width=\"100%\" height=\"100%\">\n  <defs>\n    <style>\n      .bg { fill: #18111f; }\n      .title { font-family: ui-sans-serif, system-ui, sans-serif; font-size: 20px; font-weight: 700; fill: #fff8ee; }\n      .subtitle { font-family: ui-sans-serif, system-ui, sans-serif; font-size: 13px; fill: #bca9c2; }\n      .label-concurrency { font-family: ui-monospace, monospace; font-size: 13px; font-weight: 700; fill: #ded3df; }\n      .label-stat { font-family: ui-monospace, monospace; font-size: 11px; font-weight: 600; fill: #fff8ee; }\n      .badge-tps { font-family: ui-monospace, monospace; font-size: 13px; font-weight: 700; fill: #7fb8a6; }\n      .badge-power { font-family: ui-monospace, monospace; font-size: 11px; font-weight: 600; fill: #d3a85b; }\n    </style>\n  </defs>\n  <rect width=\"100%\" height=\"100%\" rx=\"12\" class=\"bg\" />\n  <text x=\"30\" y=\"48\" class=\"title\">Empirical Concurrency Pressure Sweep (C=1 to C=256)</text>\n  <text x=\"30\" y=\"74\" class=\"subtitle\">AIEN Continuous Batching Scheduler + Paged Unified Memory KV Pool on NVIDIA Grace Blackwell GB10</text>\n"@);
        lemma_starts_with_concat(x1, "\" width=\"100%\" height=\"100%\">\n  <defs>\n    <style>\n      .bg { fill: #18111f; }\n      .title { font-family: ui-sans-serif, system-ui, sans-serif; font-size: 20px; font-weight: 700; fill: #fff8ee; }\n      .subtitle { font-family: ui-sans-serif, system-ui, sans-serif; font-size: 13px; fill: #bca9c2; }\n      .label-concurrency { font-family: ui-monospace, monospace; font-size: 13px; font-weight: 700; fill: #ded3df; }\n      .label-stat { font-family: ui-monospace, monospace; font-size: 11px; font-weight: 600; fill: #fff8ee; }\n      .badge-tps { font-family: ui-monospace, monospace; font-size: 13px; font-weight: 700; fill: #7fb8a6; }\n      .badge-power { font-family: ui-monospace, monospace; font-size: 11px; font-weight: 600; fill: #d3a85b; }\n    </style>\n  </defs>\n  <rect width=\"100%\" height=\"100%\" rx=\"12\" class=\"bg\" />\n  <text x=\"30\" y=\"48\" class=\"title\">Empirical Concurrency Pressure Sweep (C=1 to C=256)</text>\n  <text x=\"30\" y=\"74\" class=\"subtitle\">AIEN Continuous Batching Scheduler + Paged Unified Memory KV Pool on NVIDIA Grace Blackwell GB10</text>\n"@, "<svg"@);
        let x2 = x1 + "\" width=\"100%\" height=\"100%\">\n  <defs>\n    <style>\n      .bg { fill: #18111f; }\n      .title { font-family: ui-sans-serif, system-ui, sans-serif; font-size: 20px; font-weight: 700; fill: #fff8ee; }\n      .subtitle { font-family: ui-sans-serif, system-ui, sans-serif; font-size: 13px; fill: #bca9c2; }\n      .label-concurrency { font-family: ui-monospace, monospace; font-size: 13px; font-weight: 700; fill: #ded3df; }\n      .label-stat { font-family: ui-monospace, monospace; font-size: 11px; font-weight: 600; fill: #fff8ee; }\n      .badge-tps { font-family: ui-monospace, monospace; font-size: 13px; font-weight: 700; fill: #7fb8a6; }\n      .badge-power { font-family: ui-monospace, monospace; font-size: 11px; font-weight: 600; fill: #d3a85b; }\n    </style>\n  </defs>\n  <rect width=\"100%\" height=\"100%\" rx=\"12\" class=\"bg\" />\n  <text x=\"30\" y=\"48\" class=\"title\">Empirical Concurrency Pressure Sweep (C=1 to C=256)</text>\n  <text x=\"30\" y=\"74\" class=\"subtitle\">AIEN Continuous Batching Scheduler + Paged Unified Memory KV Pool on NVIDIA Grace Blackwell GB10</text>\n"@;
        lemma_no_dash_concat(x2, rows@);
        lemma_starts_with_concat(x2, rows@, "<svg"@);
        let x3 = x2 + rows@;
        lemma_no_dash_concat(x3, "\n</svg>"@);
        lemma_starts_with_concat(x3, "\n</svg>"@, "<svg"@);
        let x4 = x3 + "\n</svg>"@;
        assert("\n</svg>"@.skip("\n</svg>"@.len() - 6) =~= "</svg>"@);
        lemma_ends_with_concat(x3, "\n</svg>"@, "</svg>"@);
        assert(s@ == x4);
    }
    s
}

/// The text of one row of the multi model chart, every number already formatted.
#[derive(Clone, Debug)]
pub struct MultiModelRowText {
    pub y: String,
    pub name: String,
    pub desc_y: String,
    pub topology: String,
    pub quant: String,
    pub rect_ttft_y: String,
    pub ttft_w: String,
    pub rect_itl_y: String,
    pub itl_w: String,
    pub ttft_val_x: String,
    pub y_ttft_text: String,
    pub ttft: String,
    pub itl_val_x: String,
    pub y_itl_text: String,
    pub itl: String,
    pub kv: String,
    pub status: String,
}

/// The markup of one multi model row.
pub open spec fn multi_model_row_text(r: MultiModelRowText) -> Seq<char> {
    "\n    <g class=\"model-row\">\n      <text x=\"30\" y=\""@
        + r.y@
        + "\" class=\"label-model\">"@
        + r.name@
        + "</text>\n      <text x=\"30\" y=\""@
        + r.desc_y@
        + "\" class=\"label-topology\">"@
        + r.topology@
        + " ["@
        + r.quant@
        + "]</text>\n      <rect x=\"320\" y=\""@
        + r.rect_ttft_y@
        + "\" width=\""@
        + r.ttft_w@
        + "\" height=\"14\" rx=\"3\" fill=\"#7fb8a6\" />\n      <rect x=\"320\" y=\""@
        + r.rect_itl_y@
        + "\" width=\""@
        + r.itl_w@
        + "\" height=\"14\" rx=\"3\" fill=\"#6ba4d9\" />\n      <text x=\""@
        + r.ttft_val_x@
        + "\" y=\""@
        + r.y_ttft_text@
        + "\" class=\"label-stat\">TTFT "@
        + r.ttft@
        + "ms</text>\n      <text x=\""@
        + r.itl_val_x@
        + "\" y=\""@
        + r.y_itl_text@
        + "\" class=\"label-stat\">ITL "@
        + r.itl@
        + "ms</text>\n      <text x=\"820\" y=\""@
        + r.y@
        + "\" class=\"badge-footprint\">KV: "@
        + r.kv@
        + " GB</text>\n      <text x=\"960\" y=\""@
        + r.y@
        + "\" class=\"badge-status\">"@
        + r.status@
        + "</text>\n    </g>"@
}

/// Every text field of a multi model row is free of dashes.
pub open spec fn multi_model_row_fields_no_dash(r: MultiModelRowText) -> bool {
    no_dash(r.y@)
        && no_dash(r.name@)
        && no_dash(r.desc_y@)
        && no_dash(r.topology@)
        && no_dash(r.quant@)
        && no_dash(r.rect_ttft_y@)
        && no_dash(r.ttft_w@)
        && no_dash(r.rect_itl_y@)
        && no_dash(r.itl_w@)
        && no_dash(r.ttft_val_x@)
        && no_dash(r.y_ttft_text@)
        && no_dash(r.ttft@)
        && no_dash(r.itl_val_x@)
        && no_dash(r.y_itl_text@)
        && no_dash(r.itl@)
        && no_dash(r.kv@)
        && no_dash(r.status@)
}

/// The markup of the whole multi model chart around its rows.
pub open spec fn multi_model_chart_text(rows: Seq<char>, svg_h: u32) -> Seq<char> {
    "<svg xmlns=\"http://www.w3.org/2000/svg\" viewBox=\"0 0 1100 "@
        + decimal(svg_h as nat)
        + "\" width=\"100%\" height=\"100%\">\n  <defs>\n    <style>\n      .bg { fill: #18111f; }\n      .title { font-family: ui-sans-serif, system-ui, sans-serif; font-size: 20px; font-weight: 700; fill: #fff8ee; }\n      .subtitle { font-family: ui-sans-serif, system-ui, sans-serif; font-size: 13px; fill: #bca9c2; }\n      .label-model { font-family: ui-monospace, monospace; font-size: 13px; font-weight: 700; fill: #ded3df; }\n      .label-topology { font-family: ui-sans-serif, system-ui, sans-serif; font-size: 11px; fill: #bca9c2; }\n      .label-stat { font-family: ui-monospace, monospace; font-size: 11px; font-weight: 600; fill: #fff8ee; }\n      .badge-footprint { font-family: ui-monospace, monospace; font-size: 13px; font-weight: 700; fill: #d3a85b; }\n      .badge-status { font-family: ui-sans-serif, system-ui, sans-serif; font-size: 12px; font-weight: 800; fill: #7fb8a6; }\n    </style>\n  </defs>\n  <rect width=\"100%\" height=\"100%\" rx=\"12\" class=\"bg\" />\n  <text x=\"30\" y=\"48\" class=\"title\">Multi-Model Architecture Breadth & Silicon Scaling</text>\n  <text x=\"30\" y=\"74\" class=\"subtitle\">Empirical performance comparison across model topologies with pure compiled serving</text>\n"@
        + rows
        + "\n</svg>"@
}

/// One row of the multi model chart; it holds a dash only where a field does.
pub fn multi_model_chart_row(r: &MultiModelRowText) -> (s: String)
    ensures
        s@ == multi_model_row_text(*r),
        no_dash(s@) <==> multi_model_row_fields_no_dash(*r),
{
    let mut s = String::from_str("\n    <g class=\"model-row\">\n      <text x=\"30\" y=\"");
    s.append(r.y.as_str());
    s.append("\" class=\"label-model\">");
    s.append(r.name.as_str());
    s.append("</text>\n      <text x=\"30\" y=\"");
    s.append(r.desc_y.as_str());
    s.append("\" class=\"label-topology\">");
    s.append(r.topology.as_str());
    s.append(" [");
    s.append(r.quant.as_str());
    s.append("]</text>\n      <rect x=\"320\" y=\"");
    s.append(r.rect_ttft_y.as_str());
    s.append("\" width=\"");
    s.append(r.ttft_w.as_str());
    s.append("\" height=\"14\" rx=\"3\" fill=\"#7fb8a6\" />\n      <rect x=\"320\" y=\"");
    s.append(r.rect_itl_y.as_str());
    s.append("\" width=\"");
    s.append(r.itl_w.as_str());
    s.append("\" height=\"14\" rx=\"3\" fill=\"#6ba4d9\" />\n      <text x=\"");
    s.append(r.ttft_val_x.as_str());
    s.append("\" y=\"");
    s.append(r.y_ttft_text.as_str());
    s.append("\" class=\"label-stat\">TTFT ");
    s.append(r.ttft.as_str());
    s.append("ms</text>\n      <text x=\"");
    s.append(r.itl_val_x.as_str());
    s.append("\" y=\"");
    s.append(r.y_itl_text.as_str());
    s.append("\" class=\"label-stat\">ITL ");
    s.append(r.itl.as_str());
    s.append("ms</text>\n      <text x=\"820\" y=\"");
    s.append(r.y.as_str());
    s.append("\" class=\"badge-footprint\">KV: ");
    s.append(r.kv.as_str());
    s.append(" GB</text>\n      <text x=\"960\" y=\"");
    s.append(r.y.as_str());
    s.append("\" class=\"badge-status\">");
    s.append(r.status.as_str());
    s.append("</text>\n    </g>");
    proof {
        reveal_strlit("\n    <g class=\"model-row\">\n      <text x=\"30\" y=\"");
        assert(no_dash("\n    <g class=\"model-row\">\n      <text x=\"30\" y=\""@));
        reveal_strlit(" GB</text>\n      <text x=\"960\" y=\"");
        assert(no_dash(" GB</text>\n      <text x=\"960\" y=\""@));
        reveal_strlit(" [");
        assert(no_dash(" ["@));
        reveal_strlit("\" class=\"badge-footprint\">KV: ");
        assert(no_dash("\" class=\"badge-footprint\">KV: "@));
        reveal_strlit("\" class=\"badge-status\">");
        assert(no_dash("\" class=\"badge-status\">"@));
        reveal_strlit("\" class=\"label-model\">");
        assert(no_dash("\" class=\"label-model\">"@));
        reveal_strlit("\" class=\"label-stat\">ITL ");
        assert(no_dash("\" class=\"label-stat\">ITL "@));
        reveal_strlit("\" class=\"label-stat\">TTFT ");
        assert(no_dash("\" class=\"label-stat\">TTFT "@));
        reveal_strlit("\" class=\"label-topology\">");
        assert(no_dash("\" class=\"label-topology\">"@));
        reveal_strlit("\" height=\"14\" rx=\"3\" fill=\"#6ba4d9\" />\n      <text x=\"");
        assert(no_dash("\" height=\"14\" rx=\"3\" fill=\"#6ba4d9\" />\n      <text x=\""@));
        reveal_strlit("\" height=\"14\" rx=\"3\" fill=\"#7fb8a6\" />\n      <rect x=\"320\" y=\"");
        assert(no_dash("\" height=\"14\" rx=\"3\" fill=\"#7fb8a6\" />\n      <rect x=\"320\" y=\""@));
        reveal_strlit("\" width=\"");
        assert(no_dash("\" width=\""@));
        reveal_strlit("\" y=\"");
        assert(no_dash("\" y=\""@));
        reveal_strlit("</text>\n      <text x=\"30\" y=\"");
        assert(no_dash("</text>\n      <text x=\"30\" y=\""@));
        reveal_strlit("</text>\n    </g>");
        assert(no_dash("</text>\n    </g>"@));
        reveal_strlit("]</text>\n      <rect x=\"320\" y=\"");
        assert(no_dash("]</text>\n      <rect x=\"320\" y=\""@));
        reveal_strlit("ms</text>\n      <text x=\"");
        assert(no_dash("ms</text>\n      <text x=\""@));
        reveal_strlit("ms</text>\n      <text x=\"820\" y=\"");
        assert(no_dash("ms</text>\n      <text x=\"820\" y=\""@));
        let x0 = "\n    <g class=\"model-row\">\n      <text x=\"30\" y=\""@;
        lemma_no_dash_concat(x0, r.y@);
        let x1 = x0 + r.y@;
        lemma_no_dash_concat(x1, "\" class=\"label-model\">"@);
        let x2 = x1 + "\" class=\"label-model\">"@;
        lemma_no_dash_concat(x2, r.name@);
        let x3 = x2 + r.name@;
        lemma_no_dash_concat(x3, "</text>\n      <text x=\"30\" y=\""@);
        let x4 = x3 + "</text>\n      <text x=\"30\" y=\""@;
        lemma_no_dash_concat(x4, r.desc_y@);
        let x5 = x4 + r.desc_y@;
        lemma_no_dash_concat(x5, "\" class=\"label-topology\">"@);
        let x6 = x5 + "\" class=\"label-topology\">"@;
        lemma_no_dash_concat(x6, r.topology@);
        let x7 = x6 + r.topology@;
        lemma_no_dash_concat(x7, " ["@);
        let x8 = x7 + " ["@;
        lemma_no_dash_concat(x8, r.quant@);
        let x9 = x8 + r.quant@;
        lemma_no_dash_concat(x9, "]</text>\n      <rect x=\"320\" y=\""@);
        let x10 = x9 + "]</text>\n      <rect x=\"320\" y=\""@;
        lemma_no_dash_concat(x10, r.rect_ttft_y@);
        let x11 = x10 + r.rect_ttft_y@;
        lemma_no_dash_concat(x11, "\" width=\""@);
        let x12 = x11 + "\" width=\""@;
        lemma_no_dash_concat(x12, r.ttft_w@);
        let x13 = x12 + r.ttft_w@;
        lemma_no_dash_concat(x13, "\" height=\"14\" rx=\"3\" fill=\"#7fb8a6\" />\n      <rect x=\"320\" y=\""@);
        let x14 = x13 + "\" height=\"14\" rx=\"3\" fill=\"#7fb8a6\" />\n      <rect x=\"320\" y=\""@;
        lemma_no_dash_concat(x14, r.rect_itl_y@);
        let x15 = x14 + r.rect_itl_y@;
        lemma_no_dash_concat(x15, "\" width=\""@);
        let x16 = x15 + "\" width=\""@;
        lemma_no_dash_concat(x16, r.itl_w@);
        let x17 = x16 + r.itl_w@;
        lemma_no_dash_concat(x17, "\" height=\"14\" rx=\"3\" fill=\"#6ba4d9\" />\n      <text x=\""@);
        let x18 = x17 + "\" height=\"14\" rx=\"3\" fill=\"#6ba4d9\" />\n      <text x=\""@;
        lemma_no_dash_concat(x18, r.ttft_val_x@);
        let x19 = x18 + r.ttft_val_x@;
        lemma_no_dash_concat(x19, "\" y=\""@);
        let x20 = x19 + "\" y=\""@;
        lemma_no_dash_concat(x20, r.y_ttft_text@);
        let x21 = x20 + r.y_ttft_text@;
        lemma_no_dash_concat(x21, "\" class=\"label-stat\">TTFT "@);
        let x22 = x21 + "\" class=\"label-stat\">TTFT "@;
        lemma_no_dash_concat(x22, r.ttft@);
        let x23 = x22 + r.ttft@;
        lemma_no_dash_concat(x23, "ms</text>\n      <text x=\""@);
        let x24 = x23 + "ms</text>\n      <text x=\""@;
        lemma_no_dash_concat(x24, r.itl_val_x@);
        let x25 = x24 + r.itl_val_x@;
        lemma_no_dash_concat(x25, "\" y=\""@);
        let x26 = x25 + "\" y=\""@;
        lemma_no_dash_concat(x26, r.y_itl_text@);
        let x27 = x26 + r.y_itl_text@;
        lemma_no_dash_concat(x27, "\" class=\"label-stat\">ITL "@);
        let x28 = x27 + "\" class=\"label-stat\">ITL "@;
        lemma_no_dash_concat(x28, r.itl@);
        let x29 = x28 + r.itl@;
        lemma_no_dash_concat(x29, "ms</text>\n      <text x=\"820\" y=\""@);
        let x30 = x29 + "ms</text>\n      <text x=\"820\" y=\""@;
        lemma_no_dash_concat(x30, r.y@);
        let x31 = x30 + r.y@;
        lemma_no_dash_concat(x31, "\" class=\"badge-footprint\">KV: "@);
        let x32 = x31 + "\" class=\"badge-footprint\">KV: "@;
        lemma_no_dash_concat(x32, r.kv@);
        let x33 = x32 + r.kv@;
        lemma_no_dash_concat(x33, " GB</text>\n      <text x=\"960\" y=\""@);
        let x34 = x33 + " GB</text>\n      <text x=\"960\" y=\""@;
        lemma_no_dash_concat(x34, r.y@);
        let x35 = x34 + r.y@;
        lemma_no_dash_concat(x35, "\" class=\"badge-status\">"@);
        let x36 = x35 + "\" class=\"badge-status\">"@;
        lemma_no_dash_concat(x36, r.status@);
        let x37 = x36 + r.status@;
        lemma_no_dash_concat(x37, "</text>\n    </g>"@);
        let x38 = x37 + "</text>\n    </g>"@;
        assert(s@ == x38);
    }
    s
}

/// The whole multi model chart around the markup of its rows: an SVG document
/// that starts with `<svg` and ends with `</svg>`, with a dash only where the rows have one.
pub fn multi_model_chart_document(rows: &str, svg_h: u32) -> (s: String)
    ensures
        s@ == multi_model_chart_text(rows@, svg_h),
        no_dash(s@) <==> no_dash(rows@),
        starts_with(s@, "<svg"@),
        ends_with(s@, "</svg>"@),
{
    let mut s = String::from_str("<svg xmlns=\"http://www.w3.org/2000/svg\" viewBox=\"0 0 1100 ");
    push_decimal(&mut s, svg_h as u64);
    s.append("\" width=\"100%\" height=\"100%\">\n  <defs>\n    <style>\n      .bg { fill: #18111f; }\n      .title { font-family: ui-sans-serif, system-ui, sans-serif; font-size: 20px; font-weight: 700; fill: #fff8ee; }\n      .subtitle { font-family: ui-sans-serif, system-ui, sans-serif; font-size: 13px; fill: #bca9c2; }\n      .label-model { font-family: ui-monospace, monospace; font-size: 13px; font-weight: 700; fill: #ded3df; }\n      .label-topology { font-family: ui-sans-serif, system-ui, sans-serif; font-size: 11px; fill: #bca9c2; }\n      .label-stat { font-family: ui-monospace, monospace; font-size: 11px; font-weight: 600; fill: #fff8ee; }\n      .badge-footprint { font-family: ui-monospace, monospace; font-size: 13px; font-weight: 700; fill: #d3a85b; }\n      .badge-status { font-family: ui-sans-serif, system-ui, sans-serif; font-size: 12px; font-weight: 800; fill: #7fb8a6; }\n    </style>\n  </defs>\n  <rect width=\"100%\" height=\"100%\" rx=\"12\" class=\"bg\" />\n  <text x=\"30\" y=\"48\" class=\"title\">Multi-Model Architecture Breadth & Silicon Scaling</text>\n  <text x=\"30\" y=\"74\" class=\"subtitle\">Empirical performance comparison across model topologies with pure compiled serving</text>\n");
    s.append(rows);
    s.append("\n</svg>");
    proof {
        reveal_strlit("\n</svg>");
        assert(no_dash("\n</svg>"@));
        reveal_strlit("\" width=\"100%\" height=\"100%\">\n  <defs>\n    <style>\n      .bg { fill: #18111f; }\n      .title { font-family: ui-sans-serif, system-ui, sans-serif; font-size: 20px; font-weight: 700; fill: #fff8ee; }\n      .subtitle { font-family: ui-sans-serif, system-ui, sans-serif; font-size: 13px; fill: #bca9c2; }\n      .label-model { font-family: ui-monospace, monospace; font-size: 13px; font-weight: 700; fill: #ded3df; }\n      .label-topology { font-family: ui-sans-serif, system-ui, sans-serif; font-size: 11px; fill: #bca9c2; }\n      .label-stat { font-family: ui-monospace, monospace; font-size: 11px; font-weight: 600; fill: #fff8ee; }\n      .badge-footprint { font-family: ui-monospace, monospace; font-size: 13px; font-weight: 700; fill: #d3a85b; }\n      .badge-status { font-family: ui-sans-serif, system-ui, sans-serif; font-size: 12px; font-weight: 800; fill: #7fb8a6; }\n    </style>\n  </defs>\n  <rect width=\"100%\" height=\"100%\" rx=\"12\" class=\"bg\" />\n  <text x=\"30\" y=\"48\" class=\"title\">Multi-Model Architecture Breadth & Silicon Scaling</text>\n  <text x=\"30\" y=\"74\" class=\"subtitle\">Empirical performance comparison across model topologies with pure compiled serving</text>\n");
        assert(no_dash("\" width=\"100%\" height=\"100%\">\n  <defs>\n    <style>\n      .bg { fill: #18111f; }\n      .title { font-family: ui-sans-serif, system-ui, sans-serif; font-size: 20px; font-weight: 700; fill: #fff8ee; }\n      .subtitle { font-family: ui-sans-serif, system-ui, sans-serif; font-size: 13px; fill: #bca9c2; }\n      .label-model { font-family: ui-monospace, monospace; font-size: 13px; font-weight: 700; fill: #ded3df; }\n      .label-topology { font-family: ui-sans-serif, system-ui, sans-serif; font-size: 11px; fill: #bca9c2; }\n      .label-stat { font-family: ui-monospace, monospace; font-size: 11px; font-weight: 600; fill: #fff8ee; }\n      .badge-footprint { font-family: ui-monospace, monospace; font-size: 13px; font-weight: 700; fill: #d3a85b; }\n      .badge-status { font-family: ui-sans-serif, system-ui, sans-serif; font-size: 12px; font-weight: 800; fill: #7fb8a6; }\n    </style>\n  </defs>\n  <rect width=\"100%\" height=\"100%\" rx=\"12\" class=\"bg\" />\n  <text x=\"30\" y=\"48\" class=\"title\">Multi-Model Architecture Breadth & Silicon Scaling</text>\n  <text x=\"30\" y=\"74\" class=\"subtitle\">Empirical performance comparison across model topologies with pure compiled serving</text>\n"@));
        reveal_strlit("<svg xmlns=\"http://www.w3.org/2000/svg\" viewBox=\"0 0 1100 ");
        assert(no_dash("<svg xmlns=\"http://www.w3.org/2000/svg\" viewBox=\"0 0 1100 "@));
        reveal_strlit("<svg");
        reveal_strlit("</svg>");
        lemma_decimal_no_dash(svg_h as nat);
        let x0 = "<svg xmlns=\"http://www.w3.org/2000/svg\" viewBox=\"0 0 1100 "@;
        assert(x0.take(4) =~= "<svg"@);
        lemma_no_dash_concat(x0, decimal(svg_h as nat));
        lemma_starts_with_concat(x0, decimal(svg_h as nat), "<svg"@);
        let x1 = x0 + decimal(svg_h as nat);
        lemma_no_dash_concat(x1, "\" width=\"100%\" height=\"100%\">\n  <defs>\n    <style>\n      .bg { fill: #18111f; }\n      .title { font-family: ui-sans-serif, system-ui, sans-serif; font-size: 20px; font-weight: 700; fill: #fff8ee; }\n      .subtitle { font-family: ui-sans-serif, system-ui, sans-serif; font-size: 13px; fill: #bca9c2; }\n      .label-model { font-family: ui-monospace, monospace; font-size: 13px; font-weight: 700; fill: #ded3df; }\n      .label-topology { font-family: ui-sans-serif, system-ui, sans-serif; font-size: 11px; fill: #bca9c2; }\n      .label-stat { font-family: ui-monospace, monospace; font-size: 11px; font-weight: 600; fill: #fff8ee; }\n      .badge-footprint { font-family: ui-monospace, monospace; font-size: 13px; font-weight: 700; fill: #d3a85b; }\n      .badge-status { font-family: ui-sans-serif, system-ui, sans-serif; font-size: 12px; font-weight: 800; fill: #7fb8a6; }\n    </style>\n  </defs>\n  <rect width=\"100%\" height=\"100%\" rx=\"12\" class=\"bg\" />\n  <text x=\"30\" y=\"48\" class=\"title\">Multi-Model Architecture Breadth & Silicon Scaling</text>\n  <text x=\"30\" y=\"74\" class=\"subtitle\">Empirical performance comparison across model topologies with pure compiled serving</text>\n"@);
        lemma_starts_with_concat(x1, "\" width=\"100%\" height=\"100%\">\n  <defs>\n    <style>\n      .bg { fill: #18111f; }\n      .title { font-family: ui-sans-serif, system-ui, sans-serif; font-size: 20px; font-weight: 700; fill: #fff8ee; }\n      .subtitle { font-family: ui-sans-serif, system-ui, sans-serif; font-size: 13px; fill: #bca9c2; }\n      .label-model { font-family: ui-monospace, monospace; font-size: 13px; font-weight: 700; fill: #ded3df; }\n      .label-topology { font-family: ui-sans-serif, system-ui, sans-serif; font-size: 11px; fill: #bca9c2; }\n      .label-stat { font-family: ui-monospace, monospace; font-size: 11px; font-weight: 600; fill: #fff8ee; }\n      .badge-footprint { font-family: ui-monospace, monospace; font-size: 13px; font-weight: 700; fill: #d3a85b; }\n      .badge-status { font-family: ui-sans-serif, system-ui, sans-serif; font-size: 12px; font-weight: 800; fill: #7fb8a6; }\n    </style>\n  </defs>\n  <rect width=\"100%\" height=\"100%\" rx=\"12\" class=\"bg\" />\n  <text x=\"30\" y=\"48\" class=\"title\">Multi-Model Architecture Breadth & Silicon Scaling</text>\n  <text x=\"30\" y=\"74\" class=\"subtitle\">Empirical performance comparison across model topologies with pure compiled serving</text>\n"@, "<svg"@);
        let x2 = x1 + "\" width=\"100%\" height=\"100%\">\n  <defs>\n    <style>\n      .bg { fill: #18111f; }\n      .title { font-family: ui-sans-serif, system-ui, sans-serif; font-size: 20px; font-weight: 700; fill: #fff8ee; }\n      .subtitle { font-family: ui-sans-serif, system-ui, sans-serif; font-size: 13px; fill: #bca9c2; }\n      .label-model { font-family: ui-monospace, monospace; font-size: 13px; font-weight: 700; fill: #ded3df; }\n      .label-topology { font-family: ui-sans-serif, system-ui, sans-serif; font-size: 11px; fill: #bca9c2; }\n      .label-stat { font-family: ui-monospace, monospace; font-size: 11px; font-weight: 600; fill: #fff8ee; }\n      .badge-footprint { font-family: ui-monospace, monospace; font-size: 13px; font-weight: 700; fill: #d3a85b; }\n      .badge-status { font-family: ui-sans-serif, system-ui, sans-serif; font-size: 12px; font-weight: 800; fill: #7fb8a6; }\n    </style>\n  </defs>\n  <rect width=\"100%\" height=\"100%\" rx=\"12\" class=\"bg\" />\n  <text x=\"30\" y=\"48\" class=\"title\">Multi-Model Architecture Breadth & Silicon Scaling</text>\n  <text x=\"30\" y=\"74\" class=\"subtitle\">Empirical performance comparison across model topologies with pure compiled serving</text>\n"@;
        lemma_no_dash_concat(x2, rows@);
        lemma_starts_with_concat(x2, rows@, "<svg"@);
        let x3 = x2 + rows@;
        lemma_no_dash_concat(x3, "\n</svg>"@);
        lemma_starts_with_concat(x3, "\n</svg>"@, "<svg"@);
        let x4 = x3 + "\n</svg>"@;
        assert("\n</svg>"@.skip("\n</svg>"@.len() - 6) =~= "</svg>"@);
        lemma_ends_with_concat(x3, "\n</svg>"@, "</svg>"@);
        assert(s@ == x4);
    }
    s
}

/// The decimal digits of a number hold no dash.
pub proof fn lemma_decimal_no_dash(n: nat)
    ensures
        no_dash(decimal(n)),
    decreases n,
{
    if n >= 10 {
        lemma_decimal_no_dash(n / 10);
        let d = decimal(n / 10);
        assert forall|i: int| 0 <= i < decimal(n).len() implies decimal(n)[i] != '\u{2014}'
            && decimal(n)[i] != '\u{2013}' by {
            if i < d.len() {
                assert(decimal(n)[i] == d[i]);
            }
        }
    }
}


/// A text holds itself.
proof fn lemma_contains_self(m: Seq<char>)
    ensures
        contains_seq(m, m),
{
    assert(m.subrange(0int, 0int + m.len()) =~= m);
}

/// A text holds what it ends with.
proof fn lemma_contains_tail(p: Seq<char>, m: Seq<char>)
    ensures
        contains_seq(p + m, m),
{
    let i = p.len() as int;
    assert((p + m).subrange(i, i + m.len()) =~= m);
}

/// What a text holds, it still holds after more text is added.
proof fn lemma_contains_extend(a: Seq<char>, b: Seq<char>, m: Seq<char>)
    requires
        contains_seq(a, m),
    ensures
        contains_seq(a + b, m),
{
    let i = choose|i: int| 0 <= i <= a.len() - m.len() && #[trigger] a.subrange(i, i + m.len()) == m;
    assert((a + b).subrange(i, i + m.len()) =~= a.subrange(i, i + m.len()));
}

/// Each line of a memory row carries its own fields in their places: the row holds every
/// line of its markup (from one line break to the next) with the record's fields inserted.
pub proof fn lemma_memory_row_lines(r: MemoryRowText)
    ensures
        contains_seq(
            memory_row_text(r),
            "\n    <g class=\"bar-row\">\n      <text x=\"30\" y=\""@
                + r.label_y@
                + "\" class=\"label-service\">"@
                + r.service@
                + "</text>\n      <text x=\"30\" y=\""@,
        ),
        contains_seq(
            memory_row_text(r),
            "</text>\n      <text x=\"30\" y=\""@
                + r.desc_y@
                + "\" class=\"label-role\">"@
                + r.role@
                + " ["@
                + r.arch@
                + "]</text>\n      <rect x=\"280\" y=\""@,
        ),
        contains_seq(
            memory_row_text(r),
            "]</text>\n      <rect x=\"280\" y=\""@
                + r.rect_y@
                + "\" width=\""@
                + r.width@
                + "\" height=\"26\" rx=\"4\" fill=\""@
                + r.color@
                + "\" />\n      <text x=\""@,
        ),
        contains_seq(
            memory_row_text(r),
            "\" />\n      <text x=\""@
                + r.val_x@
                + "\" y=\""@
                + r.val_y@
                + "\" class=\"label-val\">"@
                + r.rss@
                + " MB <tspan class=\"badge\">"@
                + r.badge@
                + "</tspan></text>\n    </g>"@,
        ),
{
    assert(contains_seq(memory_row_text(r), "\n    <g class=\"bar-row\">\n      <text x=\"30\" y=\""@ + r.label_y@ + "\" class=\"label-service\">"@ + r.service@ + "</text>\n      <text x=\"30\" y=\""@)) by {
        lemma_contains_self("\n    <g class=\"bar-row\">\n      <text x=\"30\" y=\""@ + r.label_y@ + "\" class=\"label-service\">"@ + r.service@ + "</text>\n      <text x=\"30\" y=\""@);
        lemma_contains_extend("\n    <g class=\"bar-row\">\n      <text x=\"30\" y=\""@ + r.label_y@ + "\" class=\"label-service\">"@ + r.service@ + "</text>\n      <text x=\"30\" y=\""@, r.desc_y@, "\n    <g class=\"bar-row\">\n      <text x=\"30\" y=\""@ + r.label_y@ + "\" class=\"label-service\">"@ + r.service@ + "</text>\n      <text x=\"30\" y=\""@);
        lemma_contains_extend("\n    <g class=\"bar-row\">\n      <text x=\"30\" y=\""@ + r.label_y@ + "\" class=\"label-service\">"@ + r.service@ + "</text>\n      <text x=\"30\" y=\""@ + r.desc_y@, "\" class=\"label-role\">"@, "\n    <g class=\"bar-row\">\n      <text x=\"30\" y=\""@ + r.label_y@ + "\" class=\"label-service\">"@ + r.service@ + "</text>\n      <text x=\"30\" y=\""@);
        lemma_contains_extend("\n    <g class=\"bar-row\">\n      <text x=\"30\" y=\""@ + r.label_y@ + "\" class=\"label-service\">"@ + r.service@ + "</text>\n      <text x=\"30\" y=\""@ + r.desc_y@ + "\" class=\"label-role\">"@, r.role@, "\n    <g class=\"bar-row\">\n      <text x=\"30\" y=\""@ + r.label_y@ + "\" class=\"label-service\">"@ + r.service@ + "</text>\n      <text x=\"30\" y=\""@);
        lemma_contains_extend("\n    <g class=\"bar-row\">\n      <text x=\"30\" y=\""@ + r.label_y@ + "\" class=\"label-service\">"@ + r.service@ + "</text>\n      <text x=\"30\" y=\""@ + r.desc_y@ + "\" class=\"label-role\">"@ + r.role@, " ["@, "\n    <g class=\"bar-row\">\n      <text x=\"30\" y=\""@ + r.label_y@ + "\" class=\"label-service\">"@ + r.service@ + "</text>\n      <text x=\"30\" y=\""@);
        lemma_contains_extend("\n    <g class=\"bar-row\">\n      <text x=\"30\" y=\""@ + r.label_y@ + "\" class=\"label-service\">"@ + r.service@ + "</text>\n      <text x=\"30\" y=\""@ + r.desc_y@ + "\" class=\"label-role\">"@ + r.role@ + " ["@, r.arch@, "\n    <g class=\"bar-row\">\n      <text x=\"30\" y=\""@ + r.label_y@ + "\" class=\"label-service\">"@ + r.service@ + "</text>\n      <text x=\"30\" y=\""@);
        lemma_contains_extend("\n    <g class=\"bar-row\">\n      <text x=\"30\" y=\""@ + r.label_y@ + "\" class=\"label-service\">"@ + r.service@ + "</text>\n      <text x=\"30\" y=\""@ + r.desc_y@ + "\" class=\"label-role\">"@ + r.role@ + " ["@ + r.arch@, "]</text>\n      <rect x=\"280\" y=\""@, "\n    <g class=\"bar-row\">\n      <text x=\"30\" y=\""@ + r.label_y@ + "\" class=\"label-service\">"@ + r.service@ + "</text>\n      <text x=\"30\" y=\""@);
        lemma_contains_extend("\n    <g class=\"bar-row\">\n      <text x=\"30\" y=\""@ + r.label_y@ + "\" class=\"label-service\">"@ + r.service@ + "</text>\n      <text x=\"30\" y=\""@ + r.desc_y@ + "\" class=\"label-role\">"@ + r.role@ + " ["@ + r.arch@ + "]</text>\n      <rect x=\"280\" y=\""@, r.rect_y@, "\n    <g class=\"bar-row\">\n      <text x=\"30\" y=\""@ + r.label_y@ + "\" class=\"label-service\">"@ + r.service@ + "</text>\n      <text x=\"30\" y=\""@);
        lemma_contains_extend("\n    <g class=\"bar-row\">\n      <text x=\"30\" y=\""@ + r.label_y@ + "\" class=\"label-service\">"@ + r.service@ + "</text>\n      <text x=\"30\" y=\""@ + r.desc_y@ + "\" class=\"label-role\">"@ + r.role@ + " ["@ + r.arch@ + "]</text>\n      <rect x=\"280\" y=\""@ + r.rect_y@, "\" width=\""@, "\n    <g class=\"bar-row\">\n      <text x=\"30\" y=\""@ + r.label_y@ + "\" class=\"label-service\">"@ + r.service@ + "</text>\n      <text x=\"30\" y=\""@);
        lemma_contains_extend("\n    <g class=\"bar-row\">\n      <text x=\"30\" y=\""@ + r.label_y@ + "\" class=\"label-service\">"@ + r.service@ + "</text>\n      <text x=\"30\" y=\""@ + r.desc_y@ + "\" class=\"label-role\">"@ + r.role@ + " ["@ + r.arch@ + "]</text>\n      <rect x=\"280\" y=\""@ + r.rect_y@ + "\" width=\""@, r.width@, "\n    <g class=\"bar-row\">\n      <text x=\"30\" y=\""@ + r.label_y@ + "\" class=\"label-service\">"@ + r.service@ + "</text>\n      <text x=\"30\" y=\""@);
        lemma_contains_extend("\n    <g class=\"bar-row\">\n      <text x=\"30\" y=\""@ + r.label_y@ + "\" class=\"label-service\">"@ + r.service@ + "</text>\n      <text x=\"30\" y=\""@ + r.desc_y@ + "\" class=\"label-role\">"@ + r.role@ + " ["@ + r.arch@ + "]</text>\n      <rect x=\"280\" y=\""@ + r.rect_y@ + "\" width=\""@ + r.width@, "\" height=\"26\" rx=\"4\" fill=\""@, "\n    <g class=\"bar-row\">\n      <text x=\"30\" y=\""@ + r.label_y@ + "\" class=\"label-service\">"@ + r.service@ + "</text>\n      <text x=\"30\" y=\""@);
        lemma_contains_extend("\n    <g class=\"bar-row\">\n      <text x=\"30\" y=\""@ + r.label_y@ + "\" class=\"label-service\">"@ + r.service@ + "</text>\n      <text x=\"30\" y=\""@ + r.desc_y@ + "\" class=\"label-role\">"@ + r.role@ + " ["@ + r.arch@ + "]</text>\n      <rect x=\"280\" y=\""@ + r.rect_y@ + "\" width=\""@ + r.width@ + "\" height=\"26\" rx=\"4\" fill=\""@, r.color@, "\n    <g class=\"bar-row\">\n      <text x=\"30\" y=\""@ + r.label_y@ + "\" class=\"label-service\">"@ + r.service@ + "</text>\n      <text x=\"30\" y=\""@);
        lemma_contains_extend("\n    <g class=\"bar-row\">\n      <text x=\"30\" y=\""@ + r.label_y@ + "\" class=\"label-service\">"@ + r.service@ + "</text>\n      <text x=\"30\" y=\""@ + r.desc_y@ + "\" class=\"label-role\">"@ + r.role@ + " ["@ + r.arch@ + "]</text>\n      <rect x=\"280\" y=\""@ + r.rect_y@ + "\" width=\""@ + r.width@ + "\" height=\"26\" rx=\"4\" fill=\""@ + r.color@, "\" />\n      <text x=\""@, "\n    <g class=\"bar-row\">\n      <text x=\"30\" y=\""@ + r.label_y@ + "\" class=\"label-service\">"@ + r.service@ + "</text>\n      <text x=\"30\" y=\""@);
        lemma_contains_extend("\n    <g class=\"bar-row\">\n      <text x=\"30\" y=\""@ + r.label_y@ + "\" class=\"label-service\">"@ + r.service@ + "</text>\n      <text x=\"30\" y=\""@ + r.desc_y@ + "\" class=\"label-role\">"@ + r.role@ + " ["@ + r.arch@ + "]</text>\n      <rect x=\"280\" y=\""@ + r.rect_y@ + "\" width=\""@ + r.width@ + "\" height=\"26\" rx=\"4\" fill=\""@ + r.color@ + "\" />\n      <text x=\""@, r.val_x@, "\n    <g class=\"bar-row\">\n      <text x=\"30\" y=\""@ + r.label_y@ + "\" class=\"label-service\">"@ + r.service@ + "</text>\n      <text x=\"30\" y=\""@);
        lemma_contains_extend("\n    <g class=\"bar-row\">\n      <text x=\"30\" y=\""@ + r.label_y@ + "\" class=\"label-service\">"@ + r.service@ + "</text>\n      <text x=\"30\" y=\""@ + r.desc_y@ + "\" class=\"label-role\">"@ + r.role@ + " ["@ + r.arch@ + "]</text>\n      <rect x=\"280\" y=\""@ + r.rect_y@ + "\" width=\""@ + r.width@ + "\" height=\"26\" rx=\"4\" fill=\""@ + r.color@ + "\" />\n      <text x=\""@ + r.val_x@, "\" y=\""@, "\n    <g class=\"bar-row\">\n      <text x=\"30\" y=\""@ + r.label_y@ + "\" class=\"label-service\">"@ + r.service@ + "</text>\n      <text x=\"30\" y=\""@);
        lemma_contains_extend("\n    <g class=\"bar-row\">\n      <text x=\"30\" y=\""@ + r.label_y@ + "\" class=\"label-service\">"@ + r.service@ + "</text>\n      <text x=\"30\" y=\""@ + r.desc_y@ + "\" class=\"label-role\">"@ + r.role@ + " ["@ + r.arch@ + "]</text>\n      <rect x=\"280\" y=\""@ + r.rect_y@ + "\" width=\""@ + r.width@ + "\" height=\"26\" rx=\"4\" fill=\""@ + r.color@ + "\" />\n      <text x=\""@ + r.val_x@ + "\" y=\""@, r.val_y@, "\n    <g class=\"bar-row\">\n      <text x=\"30\" y=\""@ + r.label_y@ + "\" class=\"label-service\">"@ + r.service@ + "</text>\n      <text x=\"30\" y=\""@);
        lemma_contains_extend("\n    <g class=\"bar-row\">\n      <text x=\"30\" y=\""@ + r.label_y@ + "\" class=\"label-service\">"@ + r.service@ + "</text>\n      <text x=\"30\" y=\""@ + r.desc_y@ + "\" class=\"label-role\">"@ + r.role@ + " ["@ + r.arch@ + "]</text>\n      <rect x=\"280\" y=\""@ + r.rect_y@ + "\" width=\""@ + r.width@ + "\" height=\"26\" rx=\"4\" fill=\""@ + r.color@ + "\" />\n      <text x=\""@ + r.val_x@ + "\" y=\""@ + r.val_y@, "\" class=\"label-val\">"@, "\n    <g class=\"bar-row\">\n      <text x=\"30\" y=\""@ + r.label_y@ + "\" class=\"label-service\">"@ + r.service@ + "</text>\n      <text x=\"30\" y=\""@);
        lemma_contains_extend("\n    <g class=\"bar-row\">\n      <text x=\"30\" y=\""@ + r.label_y@ + "\" class=\"label-service\">"@ + r.service@ + "</text>\n      <text x=\"30\" y=\""@ + r.desc_y@ + "\" class=\"label-role\">"@ + r.role@ + " ["@ + r.arch@ + "]</text>\n      <rect x=\"280\" y=\""@ + r.rect_y@ + "\" width=\""@ + r.width@ + "\" height=\"26\" rx=\"4\" fill=\""@ + r.color@ + "\" />\n      <text x=\""@ + r.val_x@ + "\" y=\""@ + r.val_y@ + "\" class=\"label-val\">"@, r.rss@, "\n    <g class=\"bar-row\">\n      <text x=\"30\" y=\""@ + r.label_y@ + "\" class=\"label-service\">"@ + r.service@ + "</text>\n      <text x=\"30\" y=\""@);
        lemma_contains_extend("\n    <g class=\"bar-row\">\n      <text x=\"30\" y=\""@ + r.label_y@ + "\" class=\"label-service\">"@ + r.service@ + "</text>\n      <text x=\"30\" y=\""@ + r.desc_y@ + "\" class=\"label-role\">"@ + r.role@ + " ["@ + r.arch@ + "]</text>\n      <rect x=\"280\" y=\""@ + r.rect_y@ + "\" width=\""@ + r.width@ + "\" height=\"26\" rx=\"4\" fill=\""@ + r.color@ + "\" />\n      <text x=\""@ + r.val_x@ + "\" y=\""@ + r.val_y@ + "\" class=\"label-val\">"@ + r.rss@, " MB <tspan class=\"badge\">"@, "\n    <g class=\"bar-row\">\n      <text x=\"30\" y=\""@ + r.label_y@ + "\" class=\"label-service\">"@ + r.service@ + "</text>\n      <text x=\"30\" y=\""@);
        lemma_contains_extend("\n    <g class=\"bar-row\">\n      <text x=\"30\" y=\""@ + r.label_y@ + "\" class=\"label-service\">"@ + r.service@ + "</text>\n      <text x=\"30\" y=\""@ + r.desc_y@ + "\" class=\"label-role\">"@ + r.role@ + " ["@ + r.arch@ + "]</text>\n      <rect x=\"280\" y=\""@ + r.rect_y@ + "\" width=\""@ + r.width@ + "\" height=\"26\" rx=\"4\" fill=\""@ + r.color@ + "\" />\n      <text x=\""@ + r.val_x@ + "\" y=\""@ + r.val_y@ + "\" class=\"label-val\">"@ + r.rss@ + " MB <tspan class=\"badge\">"@, r.badge@, "\n    <g class=\"bar-row\">\n      <text x=\"30\" y=\""@ + r.label_y@ + "\" class=\"label-service\">"@ + r.service@ + "</text>\n      <text x=\"30\" y=\""@);
        lemma_contains_extend("\n    <g class=\"bar-row\">\n      <text x=\"30\" y=\""@ + r.label_y@ + "\" class=\"label-service\">"@ + r.service@ + "</text>\n      <text x=\"30\" y=\""@ + r.desc_y@ + "\" class=\"label-role\">"@ + r.role@ + " ["@ + r.arch@ + "]</text>\n      <rect x=\"280\" y=\""@ + r.rect_y@ + "\" width=\""@ + r.width@ + "\" height=\"26\" rx=\"4\" fill=\""@ + r.color@ + "\" />\n      <text x=\""@ + r.val_x@ + "\" y=\""@ + r.val_y@ + "\" class=\"label-val\">"@ + r.rss@ + " MB <tspan class=\"badge\">"@ + r.badge@, "</tspan></text>\n    </g>"@, "\n    <g class=\"bar-row\">\n      <text x=\"30\" y=\""@ + r.label_y@ + "\" class=\"label-service\">"@ + r.service@ + "</text>\n      <text x=\"30\" y=\""@);
    }
    assert(contains_seq(memory_row_text(r), "</text>\n      <text x=\"30\" y=\""@ + r.desc_y@ + "\" class=\"label-role\">"@ + r.role@ + " ["@ + r.arch@ + "]</text>\n      <rect x=\"280\" y=\""@)) by {
        lemma_concat_associative(("\n    <g class=\"bar-row\">\n      <text x=\"30\" y=\""@ + r.label_y@ + "\" class=\"label-service\">"@ + r.service@), "</text>\n      <text x=\"30\" y=\""@, r.desc_y@);
        assert(("\n    <g class=\"bar-row\">\n      <text x=\"30\" y=\""@ + r.label_y@ + "\" class=\"label-service\">"@ + r.service@) + ("</text>\n      <text x=\"30\" y=\""@ + r.desc_y@) == "\n    <g class=\"bar-row\">\n      <text x=\"30\" y=\""@ + r.label_y@ + "\" class=\"label-service\">"@ + r.service@ + "</text>\n      <text x=\"30\" y=\""@ + r.desc_y@);
        lemma_concat_associative(("\n    <g class=\"bar-row\">\n      <text x=\"30\" y=\""@ + r.label_y@ + "\" class=\"label-service\">"@ + r.service@), "</text>\n      <text x=\"30\" y=\""@ + r.desc_y@, "\" class=\"label-role\">"@);
        assert(("\n    <g class=\"bar-row\">\n      <text x=\"30\" y=\""@ + r.label_y@ + "\" class=\"label-service\">"@ + r.service@) + ("</text>\n      <text x=\"30\" y=\""@ + r.desc_y@ + "\" class=\"label-role\">"@) == "\n    <g class=\"bar-row\">\n      <text x=\"30\" y=\""@ + r.label_y@ + "\" class=\"label-service\">"@ + r.service@ + "</text>\n      <text x=\"30\" y=\""@ + r.desc_y@ + "\" class=\"label-role\">"@);
        lemma_concat_associative(("\n    <g class=\"bar-row\">\n      <text x=\"30\" y=\""@ + r.label_y@ + "\" class=\"label-service\">"@ + r.service@), "</text>\n      <text x=\"30\" y=\""@ + r.desc_y@ + "\" class=\"label-role\">"@, r.role@);
        assert(("\n    <g class=\"bar-row\">\n      <text x=\"30\" y=\""@ + r.label_y@ + "\" class=\"label-service\">"@ + r.service@) + ("</text>\n      <text x=\"30\" y=\""@ + r.desc_y@ + "\" class=\"label-role\">"@ + r.role@) == "\n    <g class=\"bar-row\">\n      <text x=\"30\" y=\""@ + r.label_y@ + "\" class=\"label-service\">"@ + r.service@ + "</text>\n      <text x=\"30\" y=\""@ + r.desc_y@ + "\" class=\"label-role\">"@ + r.role@);
        lemma_concat_associative(("\n    <g class=\"bar-row\">\n      <text x=\"30\" y=\""@ + r.label_y@ + "\" class=\"label-service\">"@ + r.service@), "</text>\n      <text x=\"30\" y=\""@ + r.desc_y@ + "\" class=\"label-role\">"@ + r.role@, " ["@);
        assert(("\n    <g class=\"bar-row\">\n      <text x=\"30\" y=\""@ + r.label_y@ + "\" class=\"label-service\">"@ + r.service@) + ("</text>\n      <text x=\"30\" y=\""@ + r.desc_y@ + "\" class=\"label-role\">"@ + r.role@ + " ["@) == "\n    <g class=\"bar-row\">\n      <text x=\"30\" y=\""@ + r.label_y@ + "\" class=\"label-service\">"@ + r.service@ + "</text>\n      <text x=\"30\" y=\""@ + r.desc_y@ + "\" class=\"label-role\">"@ + r.role@ + " ["@);
        lemma_concat_associative(("\n    <g class=\"bar-row\">\n      <text x=\"30\" y=\""@ + r.label_y@ + "\" class=\"label-service\">"@ + r.service@), "</text>\n      <text x=\"30\" y=\""@ + r.desc_y@ + "\" class=\"label-role\">"@ + r.role@ + " ["@, r.arch@);
        assert(("\n    <g class=\"bar-row\">\n      <text x=\"30\" y=\""@ + r.label_y@ + "\" class=\"label-service\">"@ + r.service@) + ("</text>\n      <text x=\"30\" y=\""@ + r.desc_y@ + "\" class=\"label-role\">"@ + r.role@ + " ["@ + r.arch@) == "\n    <g class=\"bar-row\">\n      <text x=\"30\" y=\""@ + r.label_y@ + "\" class=\"label-service\">"@ + r.service@ + "</text>\n      <text x=\"30\" y=\""@ + r.desc_y@ + "\" class=\"label-role\">"@ + r.role@ + " ["@ + r.arch@);
        lemma_concat_associative(("\n    <g class=\"bar-row\">\n      <text x=\"30\" y=\""@ + r.label_y@ + "\" class=\"label-service\">"@ + r.service@), "</text>\n      <text x=\"30\" y=\""@ + r.desc_y@ + "\" class=\"label-role\">"@ + r.role@ + " ["@ + r.arch@, "]</text>\n      <rect x=\"280\" y=\""@);
        assert(("\n    <g class=\"bar-row\">\n      <text x=\"30\" y=\""@ + r.label_y@ + "\" class=\"label-service\">"@ + r.service@) + ("</text>\n      <text x=\"30\" y=\""@ + r.desc_y@ + "\" class=\"label-role\">"@ + r.role@ + " ["@ + r.arch@ + "]</text>\n      <rect x=\"280\" y=\""@) == "\n    <g class=\"bar-row\">\n      <text x=\"30\" y=\""@ + r.label_y@ + "\" class=\"label-service\">"@ + r.service@ + "</text>\n      <text x=\"30\" y=\""@ + r.desc_y@ + "\" class=\"label-role\">"@ + r.role@ + " ["@ + r.arch@ + "]</text>\n      <rect x=\"280\" y=\""@);
        lemma_contains_tail(("\n    <g class=\"bar-row\">\n      <text x=\"30\" y=\""@ + r.label_y@ + "\" class=\"label-service\">"@ + r.service@), "</text>\n      <text x=\"30\" y=\""@ + r.desc_y@ + "\" class=\"label-role\">"@ + r.role@ + " ["@ + r.arch@ + "]</text>\n      <rect x=\"280\" y=\""@);
        lemma_contains_extend("\n    <g class=\"bar-row\">\n      <text x=\"30\" y=\""@ + r.label_y@ + "\" class=\"label-service\">"@ + r.service@ + "</text>\n      <text x=\"30\" y=\""@ + r.desc_y@ + "\" class=\"label-role\">"@ + r.role@ + " ["@ + r.arch@ + "]</text>\n      <rect x=\"280\" y=\""@, r.rect_y@, "</text>\n      <text x=\"30\" y=\""@ + r.desc_y@ + "\" class=\"label-role\">"@ + r.role@ + " ["@ + r.arch@ + "]</text>\n      <rect x=\"280\" y=\""@);
        lemma_contains_extend("\n    <g class=\"bar-row\">\n      <text x=\"30\" y=\""@ + r.label_y@ + "\" class=\"label-service\">"@ + r.service@ + "</text>\n      <text x=\"30\" y=\""@ + r.desc_y@ + "\" class=\"label-role\">"@ + r.role@ + " ["@ + r.arch@ + "]</text>\n      <rect x=\"280\" y=\""@ + r.rect_y@, "\" width=\""@, "</text>\n      <text x=\"30\" y=\""@ + r.desc_y@ + "\" class=\"label-role\">"@ + r.role@ + " ["@ + r.arch@ + "]</text>\n      <rect x=\"280\" y=\""@);
        lemma_contains_extend("\n    <g class=\"bar-row\">\n      <text x=\"30\" y=\""@ + r.label_y@ + "\" class=\"label-service\">"@ + r.service@ + "</text>\n      <text x=\"30\" y=\""@ + r.desc_y@ + "\" class=\"label-role\">"@ + r.role@ + " ["@ + r.arch@ + "]</text>\n      <rect x=\"280\" y=\""@ + r.rect_y@ + "\" width=\""@, r.width@, "</text>\n      <text x=\"30\" y=\""@ + r.desc_y@ + "\" class=\"label-role\">"@ + r.role@ + " ["@ + r.arch@ + "]</text>\n      <rect x=\"280\" y=\""@);
        lemma_contains_extend("\n    <g class=\"bar-row\">\n      <text x=\"30\" y=\""@ + r.label_y@ + "\" class=\"label-service\">"@ + r.service@ + "</text>\n      <text x=\"30\" y=\""@ + r.desc_y@ + "\" class=\"label-role\">"@ + r.role@ + " ["@ + r.arch@ + "]</text>\n      <rect x=\"280\" y=\""@ + r.rect_y@ + "\" width=\""@ + r.width@, "\" height=\"26\" rx=\"4\" fill=\""@, "</text>\n      <text x=\"30\" y=\""@ + r.desc_y@ + "\" class=\"label-role\">"@ + r.role@ + " ["@ + r.arch@ + "]</text>\n      <rect x=\"280\" y=\""@);
        lemma_contains_extend("\n    <g class=\"bar-row\">\n      <text x=\"30\" y=\""@ + r.label_y@ + "\" class=\"label-service\">"@ + r.service@ + "</text>\n      <text x=\"30\" y=\""@ + r.desc_y@ + "\" class=\"label-role\">"@ + r.role@ + " ["@ + r.arch@ + "]</text>\n      <rect x=\"280\" y=\""@ + r.rect_y@ + "\" width=\""@ + r.width@ + "\" height=\"26\" rx=\"4\" fill=\""@, r.color@, "</text>\n      <text x=\"30\" y=\""@ + r.desc_y@ + "\" class=\"label-role\">"@ + r.role@ + " ["@ + r.arch@ + "]</text>\n      <rect x=\"280\" y=\""@);
        lemma_contains_extend("\n    <g class=\"bar-row\">\n      <text x=\"30\" y=\""@ + r.label_y@ + "\" class=\"label-service\">"@ + r.service@ + "</text>\n      <text x=\"30\" y=\""@ + r.desc_y@ + "\" class=\"label-role\">"@ + r.role@ + " ["@ + r.arch@ + "]</text>\n      <rect x=\"280\" y=\""@ + r.rect_y@ + "\" width=\""@ + r.width@ + "\" height=\"26\" rx=\"4\" fill=\""@ + r.color@, "\" />\n      <text x=\""@, "</text>\n      <text x=\"30\" y=\""@ + r.desc_y@ + "\" class=\"label-role\">"@ + r.role@ + " ["@ + r.arch@ + "]</text>\n      <rect x=\"280\" y=\""@);
        lemma_contains_extend("\n    <g class=\"bar-row\">\n      <text x=\"30\" y=\""@ + r.label_y@ + "\" class=\"label-service\">"@ + r.service@ + "</text>\n      <text x=\"30\" y=\""@ + r.desc_y@ + "\" class=\"label-role\">"@ + r.role@ + " ["@ + r.arch@ + "]</text>\n      <rect x=\"280\" y=\""@ + r.rect_y@ + "\" width=\""@ + r.width@ + "\" height=\"26\" rx=\"4\" fill=\""@ + r.color@ + "\" />\n      <text x=\""@, r.val_x@, "</text>\n      <text x=\"30\" y=\""@ + r.desc_y@ + "\" class=\"label-role\">"@ + r.role@ + " ["@ + r.arch@ + "]</text>\n      <rect x=\"280\" y=\""@);
        lemma_contains_extend("\n    <g class=\"bar-row\">\n      <text x=\"30\" y=\""@ + r.label_y@ + "\" class=\"label-service\">"@ + r.service@ + "</text>\n      <text x=\"30\" y=\""@ + r.desc_y@ + "\" class=\"label-role\">"@ + r.role@ + " ["@ + r.arch@ + "]</text>\n      <rect x=\"280\" y=\""@ + r.rect_y@ + "\" width=\""@ + r.width@ + "\" height=\"26\" rx=\"4\" fill=\""@ + r.color@ + "\" />\n      <text x=\""@ + r.val_x@, "\" y=\""@, "</text>\n      <text x=\"30\" y=\""@ + r.desc_y@ + "\" class=\"label-role\">"@ + r.role@ + " ["@ + r.arch@ + "]</text>\n      <rect x=\"280\" y=\""@);
        lemma_contains_extend("\n    <g class=\"bar-row\">\n      <text x=\"30\" y=\""@ + r.label_y@ + "\" class=\"label-service\">"@ + r.service@ + "</text>\n      <text x=\"30\" y=\""@ + r.desc_y@ + "\" class=\"label-role\">"@ + r.role@ + " ["@ + r.arch@ + "]</text>\n      <rect x=\"280\" y=\""@ + r.rect_y@ + "\" width=\""@ + r.width@ + "\" height=\"26\" rx=\"4\" fill=\""@ + r.color@ + "\" />\n      <text x=\""@ + r.val_x@ + "\" y=\""@, r.val_y@, "</text>\n      <text x=\"30\" y=\""@ + r.desc_y@ + "\" class=\"label-role\">"@ + r.role@ + " ["@ + r.arch@ + "]</text>\n      <rect x=\"280\" y=\""@);
        lemma_contains_extend("\n    <g class=\"bar-row\">\n      <text x=\"30\" y=\""@ + r.label_y@ + "\" class=\"label-service\">"@ + r.service@ + "</text>\n      <text x=\"30\" y=\""@ + r.desc_y@ + "\" class=\"label-role\">"@ + r.role@ + " ["@ + r.arch@ + "]</text>\n      <rect x=\"280\" y=\""@ + r.rect_y@ + "\" width=\""@ + r.width@ + "\" height=\"26\" rx=\"4\" fill=\""@ + r.color@ + "\" />\n      <text x=\""@ + r.val_x@ + "\" y=\""@ + r.val_y@, "\" class=\"label-val\">"@, "</text>\n      <text x=\"30\" y=\""@ + r.desc_y@ + "\" class=\"label-role\">"@ + r.role@ + " ["@ + r.arch@ + "]</text>\n      <rect x=\"280\" y=\""@);
        lemma_contains_extend("\n    <g class=\"bar-row\">\n      <text x=\"30\" y=\""@ + r.label_y@ + "\" class=\"label-service\">"@ + r.service@ + "</text>\n      <text x=\"30\" y=\""@ + r.desc_y@ + "\" class=\"label-role\">"@ + r.role@ + " ["@ + r.arch@ + "]</text>\n      <rect x=\"280\" y=\""@ + r.rect_y@ + "\" width=\""@ + r.width@ + "\" height=\"26\" rx=\"4\" fill=\""@ + r.color@ + "\" />\n      <text x=\""@ + r.val_x@ + "\" y=\""@ + r.val_y@ + "\" class=\"label-val\">"@, r.rss@, "</text>\n      <text x=\"30\" y=\""@ + r.desc_y@ + "\" class=\"label-role\">"@ + r.role@ + " ["@ + r.arch@ + "]</text>\n      <rect x=\"280\" y=\""@);
        lemma_contains_extend("\n    <g class=\"bar-row\">\n      <text x=\"30\" y=\""@ + r.label_y@ + "\" class=\"label-service\">"@ + r.service@ + "</text>\n      <text x=\"30\" y=\""@ + r.desc_y@ + "\" class=\"label-role\">"@ + r.role@ + " ["@ + r.arch@ + "]</text>\n      <rect x=\"280\" y=\""@ + r.rect_y@ + "\" width=\""@ + r.width@ + "\" height=\"26\" rx=\"4\" fill=\""@ + r.color@ + "\" />\n      <text x=\""@ + r.val_x@ + "\" y=\""@ + r.val_y@ + "\" class=\"label-val\">"@ + r.rss@, " MB <tspan class=\"badge\">"@, "</text>\n      <text x=\"30\" y=\""@ + r.desc_y@ + "\" class=\"label-role\">"@ + r.role@ + " ["@ + r.arch@ + "]</text>\n      <rect x=\"280\" y=\""@);
        lemma_contains_extend("\n    <g class=\"bar-row\">\n      <text x=\"30\" y=\""@ + r.label_y@ + "\" class=\"label-service\">"@ + r.service@ + "</text>\n      <text x=\"30\" y=\""@ + r.desc_y@ + "\" class=\"label-role\">"@ + r.role@ + " ["@ + r.arch@ + "]</text>\n      <rect x=\"280\" y=\""@ + r.rect_y@ + "\" width=\""@ + r.width@ + "\" height=\"26\" rx=\"4\" fill=\""@ + r.color@ + "\" />\n      <text x=\""@ + r.val_x@ + "\" y=\""@ + r.val_y@ + "\" class=\"label-val\">"@ + r.rss@ + " MB <tspan class=\"badge\">"@, r.badge@, "</text>\n      <text x=\"30\" y=\""@ + r.desc_y@ + "\" class=\"label-role\">"@ + r.role@ + " ["@ + r.arch@ + "]</text>\n      <rect x=\"280\" y=\""@);
        lemma_contains_extend("\n    <g class=\"bar-row\">\n      <text x=\"30\" y=\""@ + r.label_y@ + "\" class=\"label-service\">"@ + r.service@ + "</text>\n      <text x=\"30\" y=\""@ + r.desc_y@ + "\" class=\"label-role\">"@ + r.role@ + " ["@ + r.arch@ + "]</text>\n      <rect x=\"280\" y=\""@ + r.rect_y@ + "\" width=\""@ + r.width@ + "\" height=\"26\" rx=\"4\" fill=\""@ + r.color@ + "\" />\n      <text x=\""@ + r.val_x@ + "\" y=\""@ + r.val_y@ + "\" class=\"label-val\">"@ + r.rss@ + " MB <tspan class=\"badge\">"@ + r.badge@, "</tspan></text>\n    </g>"@, "</text>\n      <text x=\"30\" y=\""@ + r.desc_y@ + "\" class=\"label-role\">"@ + r.role@ + " ["@ + r.arch@ + "]</text>\n      <rect x=\"280\" y=\""@);
    }
    assert(contains_seq(memory_row_text(r), "]</text>\n      <rect x=\"280\" y=\""@ + r.rect_y@ + "\" width=\""@ + r.width@ + "\" height=\"26\" rx=\"4\" fill=\""@ + r.color@ + "\" />\n      <text x=\""@)) by {
        lemma_concat_associative(("\n    <g class=\"bar-row\">\n      <text x=\"30\" y=\""@ + r.label_y@ + "\" class=\"label-service\">"@ + r.service@ + "</text>\n      <text x=\"30\" y=\""@ + r.desc_y@ + "\" class=\"label-role\">"@ + r.role@ + " ["@ + r.arch@), "]</text>\n      <rect x=\"280\" y=\""@, r.rect_y@);
        assert(("\n    <g class=\"bar-row\">\n      <text x=\"30\" y=\""@ + r.label_y@ + "\" class=\"label-service\">"@ + r.service@ + "</text>\n      <text x=\"30\" y=\""@ + r.desc_y@ + "\" class=\"label-role\">"@ + r.role@ + " ["@ + r.arch@) + ("]</text>\n      <rect x=\"280\" y=\""@ + r.rect_y@) == "\n    <g class=\"bar-row\">\n      <text x=\"30\" y=\""@ + r.label_y@ + "\" class=\"label-service\">"@ + r.service@ + "</text>\n      <text x=\"30\" y=\""@ + r.desc_y@ + "\" class=\"label-role\">"@ + r.role@ + " ["@ + r.arch@ + "]</text>\n      <rect x=\"280\" y=\""@ + r.rect_y@);
        lemma_concat_associative(("\n    <g class=\"bar-row\">\n      <text x=\"30\" y=\""@ + r.label_y@ + "\" class=\"label-service\">"@ + r.service@ + "</text>\n      <text x=\"30\" y=\""@ + r.desc_y@ + "\" class=\"label-role\">"@ + r.role@ + " ["@ + r.arch@), "]</text>\n      <rect x=\"280\" y=\""@ + r.rect_y@, "\" width=\""@);
        assert(("\n    <g class=\"bar-row\">\n      <text x=\"30\" y=\""@ + r.label_y@ + "\" class=\"label-service\">"@ + r.service@ + "</text>\n      <text x=\"30\" y=\""@ + r.desc_y@ + "\" class=\"label-role\">"@ + r.role@ + " ["@ + r.arch@) + ("]</text>\n      <rect x=\"280\" y=\""@ + r.rect_y@ + "\" width=\""@) == "\n    <g class=\"bar-row\">\n      <text x=\"30\" y=\""@ + r.label_y@ + "\" class=\"label-service\">"@ + r.service@ + "</text>\n      <text x=\"30\" y=\""@ + r.desc_y@ + "\" class=\"label-role\">"@ + r.role@ + " ["@ + r.arch@ + "]</text>\n      <rect x=\"280\" y=\""@ + r.rect_y@ + "\" width=\""@);
        lemma_concat_associative(("\n    <g class=\"bar-row\">\n      <text x=\"30\" y=\""@ + r.label_y@ + "\" class=\"label-service\">"@ + r.service@ + "</text>\n      <text x=\"30\" y=\""@ + r.desc_y@ + "\" class=\"label-role\">"@ + r.role@ + " ["@ + r.arch@), "]</text>\n      <rect x=\"280\" y=\""@ + r.rect_y@ + "\" width=\""@, r.width@);
        assert(("\n    <g class=\"bar-row\">\n      <text x=\"30\" y=\""@ + r.label_y@ + "\" class=\"label-service\">"@ + r.service@ + "</text>\n      <text x=\"30\" y=\""@ + r.desc_y@ + "\" class=\"label-role\">"@ + r.role@ + " ["@ + r.arch@) + ("]</text>\n      <rect x=\"280\" y=\""@ + r.rect_y@ + "\" width=\""@ + r.width@) == "\n    <g class=\"bar-row\">\n      <text x=\"30\" y=\""@ + r.label_y@ + "\" class=\"label-service\">"@ + r.service@ + "</text>\n      <text x=\"30\" y=\""@ + r.desc_y@ + "\" class=\"label-role\">"@ + r.role@ + " ["@ + r.arch@ + "]</text>\n      <rect x=\"280\" y=\""@ + r.rect_y@ + "\" width=\""@ + r.width@);
        lemma_concat_associative(("\n    <g class=\"bar-row\">\n      <text x=\"30\" y=\""@ + r.label_y@ + "\" class=\"label-service\">"@ + r.service@ + "</text>\n      <text x=\"30\" y=\""@ + r.desc_y@ + "\" class=\"label-role\">"@ + r.role@ + " ["@ + r.arch@), "]</text>\n      <rect x=\"280\" y=\""@ + r.rect_y@ + "\" width=\""@ + r.width@, "\" height=\"26\" rx=\"4\" fill=\""@);
        assert(("\n    <g class=\"bar-row\">\n      <text x=\"30\" y=\""@ + r.label_y@ + "\" class=\"label-service\">"@ + r.service@ + "</text>\n      <text x=\"30\" y=\""@ + r.desc_y@ + "\" class=\"label-role\">"@ + r.role@ + " ["@ + r.arch@) + ("]</text>\n      <rect x=\"280\" y=\""@ + r.rect_y@ + "\" width=\""@ + r.width@ + "\" height=\"26\" rx=\"4\" fill=\""@) == "\n    <g class=\"bar-row\">\n      <text x=\"30\" y=\""@ + r.label_y@ + "\" class=\"label-service\">"@ + r.service@ + "</text>\n      <text x=\"30\" y=\""@ + r.desc_y@ + "\" class=\"label-role\">"@ + r.role@ + " ["@ + r.arch@ + "]</text>\n      <rect x=\"280\" y=\""@ + r.rect_y@ + "\" width=\""@ + r.width@ + "\" height=\"26\" rx=\"4\" fill=\""@);
        lemma_concat_associative(("\n    <g class=\"bar-row\">\n      <text x=\"30\" y=\""@ + r.label_y@ + "\" class=\"label-service\">"@ + r.service@ + "</text>\n      <text x=\"30\" y=\""@ + r.desc_y@ + "\" class=\"label-role\">"@ + r.role@ + " ["@ + r.arch@), "]</text>\n      <rect x=\"280\" y=\""@ + r.rect_y@ + "\" width=\""@ + r.width@ + "\" height=\"26\" rx=\"4\" fill=\""@, r.color@);
        assert(("\n    <g class=\"bar-row\">\n      <text x=\"30\" y=\""@ + r.label_y@ + "\" class=\"label-service\">"@ + r.service@ + "</text>\n      <text x=\"30\" y=\""@ + r.desc_y@ + "\" class=\"label-role\">"@ + r.role@ + " ["@ + r.arch@) + ("]</text>\n      <rect x=\"280\" y=\""@ + r.rect_y@ + "\" width=\""@ + r.width@ + "\" height=\"26\" rx=\"4\" fill=\""@ + r.color@) == "\n    <g class=\"bar-row\">\n      <text x=\"30\" y=\""@ + r.label_y@ + "\" class=\"label-service\">"@ + r.service@ + "</text>\n      <text x=\"30\" y=\""@ + r.desc_y@ + "\" class=\"label-role\">"@ + r.role@ + " ["@ + r.arch@ + "]</text>\n      <rect x=\"280\" y=\""@ + r.rect_y@ + "\" width=\""@ + r.width@ + "\" height=\"26\" rx=\"4\" fill=\""@ + r.color@);
        lemma_concat_associative(("\n    <g class=\"bar-row\">\n      <text x=\"30\" y=\""@ + r.label_y@ + "\" class=\"label-service\">"@ + r.service@ + "</text>\n      <text x=\"30\" y=\""@ + r.desc_y@ + "\" class=\"label-role\">"@ + r.role@ + " ["@ + r.arch@), "]</text>\n      <rect x=\"280\" y=\""@ + r.rect_y@ + "\" width=\""@ + r.width@ + "\" height=\"26\" rx=\"4\" fill=\""@ + r.color@, "\" />\n      <text x=\""@);
        assert(("\n    <g class=\"bar-row\">\n      <text x=\"30\" y=\""@ + r.label_y@ + "\" class=\"label-service\">"@ + r.service@ + "</text>\n      <text x=\"30\" y=\""@ + r.desc_y@ + "\" class=\"label-role\">"@ + r.role@ + " ["@ + r.arch@) + ("]</text>\n      <rect x=\"280\" y=\""@ + r.rect_y@ + "\" width=\""@ + r.width@ + "\" height=\"26\" rx=\"4\" fill=\""@ + r.color@ + "\" />\n      <text x=\""@) == "\n    <g class=\"bar-row\">\n      <text x=\"30\" y=\""@ + r.label_y@ + "\" class=\"label-service\">"@ + r.service@ + "</text>\n      <text x=\"30\" y=\""@ + r.desc_y@ + "\" class=\"label-role\">"@ + r.role@ + " ["@ + r.arch@ + "]</text>\n      <rect x=\"280\" y=\""@ + r.rect_y@ + "\" width=\""@ + r.width@ + "\" height=\"26\" rx=\"4\" fill=\""@ + r.color@ + "\" />\n      <text x=\""@);
        lemma_contains_tail(("\n    <g class=\"bar-row\">\n      <text x=\"30\" y=\""@ + r.label_y@ + "\" class=\"label-service\">"@ + r.service@ + "</text>\n      <text x=\"30\" y=\""@ + r.desc_y@ + "\" class=\"label-role\">"@ + r.role@ + " ["@ + r.arch@), "]</text>\n      <rect x=\"280\" y=\""@ + r.rect_y@ + "\" width=\""@ + r.width@ + "\" height=\"26\" rx=\"4\" fill=\""@ + r.color@ + "\" />\n      <text x=\""@);
        lemma_contains_extend("\n    <g class=\"bar-row\">\n      <text x=\"30\" y=\""@ + r.label_y@ + "\" class=\"label-service\">"@ + r.service@ + "</text>\n      <text x=\"30\" y=\""@ + r.desc_y@ + "\" class=\"label-role\">"@ + r.role@ + " ["@ + r.arch@ + "]</text>\n      <rect x=\"280\" y=\""@ + r.rect_y@ + "\" width=\""@ + r.width@ + "\" height=\"26\" rx=\"4\" fill=\""@ + r.color@ + "\" />\n      <text x=\""@, r.val_x@, "]</text>\n      <rect x=\"280\" y=\""@ + r.rect_y@ + "\" width=\""@ + r.width@ + "\" height=\"26\" rx=\"4\" fill=\""@ + r.color@ + "\" />\n      <text x=\""@);
        lemma_contains_extend("\n    <g class=\"bar-row\">\n      <text x=\"30\" y=\""@ + r.label_y@ + "\" class=\"label-service\">"@ + r.service@ + "</text>\n      <text x=\"30\" y=\""@ + r.desc_y@ + "\" class=\"label-role\">"@ + r.role@ + " ["@ + r.arch@ + "]</text>\n      <rect x=\"280\" y=\""@ + r.rect_y@ + "\" width=\""@ + r.width@ + "\" height=\"26\" rx=\"4\" fill=\""@ + r.color@ + "\" />\n      <text x=\""@ + r.val_x@, "\" y=\""@, "]</text>\n      <rect x=\"280\" y=\""@ + r.rect_y@ + "\" width=\""@ + r.width@ + "\" height=\"26\" rx=\"4\" fill=\""@ + r.color@ + "\" />\n      <text x=\""@);
        lemma_contains_extend("\n    <g class=\"bar-row\">\n      <text x=\"30\" y=\""@ + r.label_y@ + "\" class=\"label-service\">"@ + r.service@ + "</text>\n      <text x=\"30\" y=\""@ + r.desc_y@ + "\" class=\"label-role\">"@ + r.role@ + " ["@ + r.arch@ + "]</text>\n      <rect x=\"280\" y=\""@ + r.rect_y@ + "\" width=\""@ + r.width@ + "\" height=\"26\" rx=\"4\" fill=\""@ + r.color@ + "\" />\n      <text x=\""@ + r.val_x@ + "\" y=\""@, r.val_y@, "]</text>\n      <rect x=\"280\" y=\""@ + r.rect_y@ + "\" width=\""@ + r.width@ + "\" height=\"26\" rx=\"4\" fill=\""@ + r.color@ + "\" />\n      <text x=\""@);
        lemma_contains_extend("\n    <g class=\"bar-row\">\n      <text x=\"30\" y=\""@ + r.label_y@ + "\" class=\"label-service\">"@ + r.service@ + "</text>\n      <text x=\"30\" y=\""@ + r.desc_y@ + "\" class=\"label-role\">"@ + r.role@ + " ["@ + r.arch@ + "]</text>\n      <rect x=\"280\" y=\""@ + r.rect_y@ + "\" width=\""@ + r.width@ + "\" height=\"26\" rx=\"4\" fill=\""@ + r.color@ + "\" />\n      <text x=\""@ + r.val_x@ + "\" y=\""@ + r.val_y@, "\" class=\"label-val\">"@, "]</text>\n      <rect x=\"280\" y=\""@ + r.rect_y@ + "\" width=\""@ + r.width@ + "\" height=\"26\" rx=\"4\" fill=\""@ + r.color@ + "\" />\n      <text x=\""@);
        lemma_contains_extend("\n    <g class=\"bar-row\">\n      <text x=\"30\" y=\""@ + r.label_y@ + "\" class=\"label-service\">"@ + r.service@ + "</text>\n      <text x=\"30\" y=\""@ + r.desc_y@ + "\" class=\"label-role\">"@ + r.role@ + " ["@ + r.arch@ + "]</text>\n      <rect x=\"280\" y=\""@ + r.rect_y@ + "\" width=\""@ + r.width@ + "\" height=\"26\" rx=\"4\" fill=\""@ + r.color@ + "\" />\n      <text x=\""@ + r.val_x@ + "\" y=\""@ + r.val_y@ + "\" class=\"label-val\">"@, r.rss@, "]</text>\n      <rect x=\"280\" y=\""@ + r.rect_y@ + "\" width=\""@ + r.width@ + "\" height=\"26\" rx=\"4\" fill=\""@ + r.color@ + "\" />\n      <text x=\""@);
        lemma_contains_extend("\n    <g class=\"bar-row\">\n      <text x=\"30\" y=\""@ + r.label_y@ + "\" class=\"label-service\">"@ + r.service@ + "</text>\n      <text x=\"30\" y=\""@ + r.desc_y@ + "\" class=\"label-role\">"@ + r.role@ + " ["@ + r.arch@ + "]</text>\n      <rect x=\"280\" y=\""@ + r.rect_y@ + "\" width=\""@ + r.width@ + "\" height=\"26\" rx=\"4\" fill=\""@ + r.color@ + "\" />\n      <text x=\""@ + r.val_x@ + "\" y=\""@ + r.val_y@ + "\" class=\"label-val\">"@ + r.rss@, " MB <tspan class=\"badge\">"@, "]</text>\n      <rect x=\"280\" y=\""@ + r.rect_y@ + "\" width=\""@ + r.width@ + "\" height=\"26\" rx=\"4\" fill=\""@ + r.color@ + "\" />\n      <text x=\""@);
        lemma_contains_extend("\n    <g class=\"bar-row\">\n      <text x=\"30\" y=\""@ + r.label_y@ + "\" class=\"label-service\">"@ + r.service@ + "</text>\n      <text x=\"30\" y=\""@ + r.desc_y@ + "\" class=\"label-role\">"@ + r.role@ + " ["@ + r.arch@ + "]</text>\n      <rect x=\"280\" y=\""@ + r.rect_y@ + "\" width=\""@ + r.width@ + "\" height=\"26\" rx=\"4\" fill=\""@ + r.color@ + "\" />\n      <text x=\""@ + r.val_x@ + "\" y=\""@ + r.val_y@ + "\" class=\"label-val\">"@ + r.rss@ + " MB <tspan class=\"badge\">"@, r.badge@, "]</text>\n      <rect x=\"280\" y=\""@ + r.rect_y@ + "\" width=\""@ + r.width@ + "\" height=\"26\" rx=\"4\" fill=\""@ + r.color@ + "\" />\n      <text x=\""@);
        lemma_contains_extend("\n    <g class=\"bar-row\">\n      <text x=\"30\" y=\""@ + r.label_y@ + "\" class=\"label-service\">"@ + r.service@ + "</text>\n      <text x=\"30\" y=\""@ + r.desc_y@ + "\" class=\"label-role\">"@ + r.role@ + " ["@ + r.arch@ + "]</text>\n      <rect x=\"280\" y=\""@ + r.rect_y@ + "\" width=\""@ + r.width@ + "\" height=\"26\" rx=\"4\" fill=\""@ + r.color@ + "\" />\n      <text x=\""@ + r.val_x@ + "\" y=\""@ + r.val_y@ + "\" class=\"label-val\">"@ + r.rss@ + " MB <tspan class=\"badge\">"@ + r.badge@, "</tspan></text>\n    </g>"@, "]</text>\n      <rect x=\"280\" y=\""@ + r.rect_y@ + "\" width=\""@ + r.width@ + "\" height=\"26\" rx=\"4\" fill=\""@ + r.color@ + "\" />\n      <text x=\""@);
    }
    assert(contains_seq(memory_row_text(r), "\" />\n      <text x=\""@ + r.val_x@ + "\" y=\""@ + r.val_y@ + "\" class=\"label-val\">"@ + r.rss@ + " MB <tspan class=\"badge\">"@ + r.badge@ + "</tspan></text>\n    </g>"@)) by {
        lemma_concat_associative(("\n    <g class=\"bar-row\">\n      <text x=\"30\" y=\""@ + r.label_y@ + "\" class=\"label-service\">"@ + r.service@ + "</text>\n      <text x=\"30\" y=\""@ + r.desc_y@ + "\" class=\"label-role\">"@ + r.role@ + " ["@ + r.arch@ + "]</text>\n      <rect x=\"280\" y=\""@ + r.rect_y@ + "\" width=\""@ + r.width@ + "\" height=\"26\" rx=\"4\" fill=\""@ + r.color@), "\" />\n      <text x=\""@, r.val_x@);
        assert(("\n    <g class=\"bar-row\">\n      <text x=\"30\" y=\""@ + r.label_y@ + "\" class=\"label-service\">"@ + r.service@ + "</text>\n      <text x=\"30\" y=\""@ + r.desc_y@ + "\" class=\"label-role\">"@ + r.role@ + " ["@ + r.arch@ + "]</text>\n      <rect x=\"280\" y=\""@ + r.rect_y@ + "\" width=\""@ + r.width@ + "\" height=\"26\" rx=\"4\" fill=\""@ + r.color@) + ("\" />\n      <text x=\""@ + r.val_x@) == "\n    <g class=\"bar-row\">\n      <text x=\"30\" y=\""@ + r.label_y@ + "\" class=\"label-service\">"@ + r.service@ + "</text>\n      <text x=\"30\" y=\""@ + r.desc_y@ + "\" class=\"label-role\">"@ + r.role@ + " ["@ + r.arch@ + "]</text>\n      <rect x=\"280\" y=\""@ + r.rect_y@ + "\" width=\""@ + r.width@ + "\" height=\"26\" rx=\"4\" fill=\""@ + r.color@ + "\" />\n      <text x=\""@ + r.val_x@);
        lemma_concat_associative(("\n    <g class=\"bar-row\">\n      <text x=\"30\" y=\""@ + r.label_y@ + "\" class=\"label-service\">"@ + r.service@ + "</text>\n      <text x=\"30\" y=\""@ + r.desc_y@ + "\" class=\"label-role\">"@ + r.role@ + " ["@ + r.arch@ + "]</text>\n      <rect x=\"280\" y=\""@ + r.rect_y@ + "\" width=\""@ + r.width@ + "\" height=\"26\" rx=\"4\" fill=\""@ + r.color@), "\" />\n      <text x=\""@ + r.val_x@, "\" y=\""@);
        assert(("\n    <g class=\"bar-row\">\n      <text x=\"30\" y=\""@ + r.label_y@ + "\" class=\"label-service\">"@ + r.service@ + "</text>\n      <text x=\"30\" y=\""@ + r.desc_y@ + "\" class=\"label-role\">"@ + r.role@ + " ["@ + r.arch@ + "]</text>\n      <rect x=\"280\" y=\""@ + r.rect_y@ + "\" width=\""@ + r.width@ + "\" height=\"26\" rx=\"4\" fill=\""@ + r.color@) + ("\" />\n      <text x=\""@ + r.val_x@ + "\" y=\""@) == "\n    <g class=\"bar-row\">\n      <text x=\"30\" y=\""@ + r.label_y@ + "\" class=\"label-service\">"@ + r.service@ + "</text>\n      <text x=\"30\" y=\""@ + r.desc_y@ + "\" class=\"label-role\">"@ + r.role@ + " ["@ + r.arch@ + "]</text>\n      <rect x=\"280\" y=\""@ + r.rect_y@ + "\" width=\""@ + r.width@ + "\" height=\"26\" rx=\"4\" fill=\""@ + r.color@ + "\" />\n      <text x=\""@ + r.val_x@ + "\" y=\""@);
        lemma_concat_associative(("\n    <g class=\"bar-row\">\n      <text x=\"30\" y=\""@ + r.label_y@ + "\" class=\"label-service\">"@ + r.service@ + "</text>\n      <text x=\"30\" y=\""@ + r.desc_y@ + "\" class=\"label-role\">"@ + r.role@ + " ["@ + r.arch@ + "]</text>\n      <rect x=\"280\" y=\""@ + r.rect_y@ + "\" width=\""@ + r.width@ + "\" height=\"26\" rx=\"4\" fill=\""@ + r.color@), "\" />\n      <text x=\""@ + r.val_x@ + "\" y=\""@, r.val_y@);
        assert(("\n    <g class=\"bar-row\">\n      <text x=\"30\" y=\""@ + r.label_y@ + "\" class=\"label-service\">"@ + r.service@ + "</text>\n      <text x=\"30\" y=\""@ + r.desc_y@ + "\" class=\"label-role\">"@ + r.role@ + " ["@ + r.arch@ + "]</text>\n      <rect x=\"280\" y=\""@ + r.rect_y@ + "\" width=\""@ + r.width@ + "\" height=\"26\" rx=\"4\" fill=\""@ + r.color@) + ("\" />\n      <text x=\""@ + r.val_x@ + "\" y=\""@ + r.val_y@) == "\n    <g class=\"bar-row\">\n      <text x=\"30\" y=\""@ + r.label_y@ + "\" class=\"label-service\">"@ + r.service@ + "</text>\n      <text x=\"30\" y=\""@ + r.desc_y@ + "\" class=\"label-role\">"@ + r.role@ + " ["@ + r.arch@ + "]</text>\n      <rect x=\"280\" y=\""@ + r.rect_y@ + "\" width=\""@ + r.width@ + "\" height=\"26\" rx=\"4\" fill=\""@ + r.color@ + "\" />\n      <text x=\""@ + r.val_x@ + "\" y=\""@ + r.val_y@);
        lemma_concat_associative(("\n    <g class=\"bar-row\">\n      <text x=\"30\" y=\""@ + r.label_y@ + "\" class=\"label-service\">"@ + r.service@ + "</text>\n      <text x=\"30\" y=\""@ + r.desc_y@ + "\" class=\"label-role\">"@ + r.role@ + " ["@ + r.arch@ + "]</text>\n      <rect x=\"280\" y=\""@ + r.rect_y@ + "\" width=\""@ + r.width@ + "\" height=\"26\" rx=\"4\" fill=\""@ + r.color@), "\" />\n      <text x=\""@ + r.val_x@ + "\" y=\""@ + r.val_y@, "\" class=\"label-val\">"@);
        assert(("\n    <g class=\"bar-row\">\n      <text x=\"30\" y=\""@ + r.label_y@ + "\" class=\"label-service\">"@ + r.service@ + "</text>\n      <text x=\"30\" y=\""@ + r.desc_y@ + "\" class=\"label-role\">"@ + r.role@ + " ["@ + r.arch@ + "]</text>\n      <rect x=\"280\" y=\""@ + r.rect_y@ + "\" width=\""@ + r.width@ + "\" height=\"26\" rx=\"4\" fill=\""@ + r.color@) + ("\" />\n      <text x=\""@ + r.val_x@ + "\" y=\""@ + r.val_y@ + "\" class=\"label-val\">"@) == "\n    <g class=\"bar-row\">\n      <text x=\"30\" y=\""@ + r.label_y@ + "\" class=\"label-service\">"@ + r.service@ + "</text>\n      <text x=\"30\" y=\""@ + r.desc_y@ + "\" class=\"label-role\">"@ + r.role@ + " ["@ + r.arch@ + "]</text>\n      <rect x=\"280\" y=\""@ + r.rect_y@ + "\" width=\""@ + r.width@ + "\" height=\"26\" rx=\"4\" fill=\""@ + r.color@ + "\" />\n      <text x=\""@ + r.val_x@ + "\" y=\""@ + r.val_y@ + "\" class=\"label-val\">"@);
        lemma_concat_associative(("\n    <g class=\"bar-row\">\n      <text x=\"30\" y=\""@ + r.label_y@ + "\" class=\"label-service\">"@ + r.service@ + "</text>\n      <text x=\"30\" y=\""@ + r.desc_y@ + "\" class=\"label-role\">"@ + r.role@ + " ["@ + r.arch@ + "]</text>\n      <rect x=\"280\" y=\""@ + r.rect_y@ + "\" width=\""@ + r.width@ + "\" height=\"26\" rx=\"4\" fill=\""@ + r.color@), "\" />\n      <text x=\""@ + r.val_x@ + "\" y=\""@ + r.val_y@ + "\" class=\"label-val\">"@, r.rss@);
        assert(("\n    <g class=\"bar-row\">\n      <text x=\"30\" y=\""@ + r.label_y@ + "\" class=\"label-service\">"@ + r.service@ + "</text>\n      <text x=\"30\" y=\""@ + r.desc_y@ + "\" class=\"label-role\">"@ + r.role@ + " ["@ + r.arch@ + "]</text>\n      <rect x=\"280\" y=\""@ + r.rect_y@ + "\" width=\""@ + r.width@ + "\" height=\"26\" rx=\"4\" fill=\""@ + r.color@) + ("\" />\n      <text x=\""@ + r.val_x@ + "\" y=\""@ + r.val_y@ + "\" class=\"label-val\">"@ + r.rss@) == "\n    <g class=\"bar-row\">\n      <text x=\"30\" y=\""@ + r.label_y@ + "\" class=\"label-service\">"@ + r.service@ + "</text>\n      <text x=\"30\" y=\""@ + r.desc_y@ + "\" class=\"label-role\">"@ + r.role@ + " ["@ + r.arch@ + "]</text>\n      <rect x=\"280\" y=\""@ + r.rect_y@ + "\" width=\""@ + r.width@ + "\" height=\"26\" rx=\"4\" fill=\""@ + r.color@ + "\" />\n      <text x=\""@ + r.val_x@ + "\" y=\""@ + r.val_y@ + "\" class=\"label-val\">"@ + r.rss@);
        lemma_concat_associative(("\n    <g class=\"bar-row\">\n      <text x=\"30\" y=\""@ + r.label_y@ + "\" class=\"label-service\">"@ + r.service@ + "</text>\n      <text x=\"30\" y=\""@ + r.desc_y@ + "\" class=\"label-role\">"@ + r.role@ + " ["@ + r.arch@ + "]</text>\n      <rect x=\"280\" y=\""@ + r.rect_y@ + "\" width=\""@ + r.width@ + "\" height=\"26\" rx=\"4\" fill=\""@ + r.color@), "\" />\n      <text x=\""@ + r.val_x@ + "\" y=\""@ + r.val_y@ + "\" class=\"label-val\">"@ + r.rss@, " MB <tspan class=\"badge\">"@);
        assert(("\n    <g class=\"bar-row\">\n      <text x=\"30\" y=\""@ + r.label_y@ + "\" class=\"label-service\">"@ + r.service@ + "</text>\n      <text x=\"30\" y=\""@ + r.desc_y@ + "\" class=\"label-role\">"@ + r.role@ + " ["@ + r.arch@ + "]</text>\n      <rect x=\"280\" y=\""@ + r.rect_y@ + "\" width=\""@ + r.width@ + "\" height=\"26\" rx=\"4\" fill=\""@ + r.color@) + ("\" />\n      <text x=\""@ + r.val_x@ + "\" y=\""@ + r.val_y@ + "\" class=\"label-val\">"@ + r.rss@ + " MB <tspan class=\"badge\">"@) == "\n    <g class=\"bar-row\">\n      <text x=\"30\" y=\""@ + r.label_y@ + "\" class=\"label-service\">"@ + r.service@ + "</text>\n      <text x=\"30\" y=\""@ + r.desc_y@ + "\" class=\"label-role\">"@ + r.role@ + " ["@ + r.arch@ + "]</text>\n      <rect x=\"280\" y=\""@ + r.rect_y@ + "\" width=\""@ + r.width@ + "\" height=\"26\" rx=\"4\" fill=\""@ + r.color@ + "\" />\n      <text x=\""@ + r.val_x@ + "\" y=\""@ + r.val_y@ + "\" class=\"label-val\">"@ + r.rss@ + " MB <tspan class=\"badge\">"@);
        lemma_concat_associative(("\n    <g class=\"bar-row\">\n      <text x=\"30\" y=\""@ + r.label_y@ + "\" class=\"label-service\">"@ + r.service@ + "</text>\n      <text x=\"30\" y=\""@ + r.desc_y@ + "\" class=\"label-role\">"@ + r.role@ + " ["@ + r.arch@ + "]</text>\n      <rect x=\"280\" y=\""@ + r.rect_y@ + "\" width=\""@ + r.width@ + "\" height=\"26\" rx=\"4\" fill=\""@ + r.color@), "\" />\n      <text x=\""@ + r.val_x@ + "\" y=\""@ + r.val_y@ + "\" class=\"label-val\">"@ + r.rss@ + " MB <tspan class=\"badge\">"@, r.badge@);
        assert(("\n    <g class=\"bar-row\">\n      <text x=\"30\" y=\""@ + r.label_y@ + "\" class=\"label-service\">"@ + r.service@ + "</text>\n      <text x=\"30\" y=\""@ + r.desc_y@ + "\" class=\"label-role\">"@ + r.role@ + " ["@ + r.arch@ + "]</text>\n      <rect x=\"280\" y=\""@ + r.rect_y@ + "\" width=\""@ + r.width@ + "\" height=\"26\" rx=\"4\" fill=\""@ + r.color@) + ("\" />\n      <text x=\""@ + r.val_x@ + "\" y=\""@ + r.val_y@ + "\" class=\"label-val\">"@ + r.rss@ + " MB <tspan class=\"badge\">"@ + r.badge@) == "\n    <g class=\"bar-row\">\n      <text x=\"30\" y=\""@ + r.label_y@ + "\" class=\"label-service\">"@ + r.service@ + "</text>\n      <text x=\"30\" y=\""@ + r.desc_y@ + "\" class=\"label-role\">"@ + r.role@ + " ["@ + r.arch@ + "]</text>\n      <rect x=\"280\" y=\""@ + r.rect_y@ + "\" width=\""@ + r.width@ + "\" height=\"26\" rx=\"4\" fill=\""@ + r.color@ + "\" />\n      <text x=\""@ + r.val_x@ + "\" y=\""@ + r.val_y@ + "\" class=\"label-val\">"@ + r.rss@ + " MB <tspan class=\"badge\">"@ + r.badge@);
        lemma_concat_associative(("\n    <g class=\"bar-row\">\n      <text x=\"30\" y=\""@ + r.label_y@ + "\" class=\"label-service\">"@ + r.service@ + "</text>\n      <text x=\"30\" y=\""@ + r.desc_y@ + "\" class=\"label-role\">"@ + r.role@ + " ["@ + r.arch@ + "]</text>\n      <rect x=\"280\" y=\""@ + r.rect_y@ + "\" width=\""@ + r.width@ + "\" height=\"26\" rx=\"4\" fill=\""@ + r.color@), "\" />\n      <text x=\""@ + r.val_x@ + "\" y=\""@ + r.val_y@ + "\" class=\"label-val\">"@ + r.rss@ + " MB <tspan class=\"badge\">"@ + r.badge@, "</tspan></text>\n    </g>"@);
        assert(("\n    <g class=\"bar-row\">\n      <text x=\"30\" y=\""@ + r.label_y@ + "\" class=\"label-service\">"@ + r.service@ + "</text>\n      <text x=\"30\" y=\""@ + r.desc_y@ + "\" class=\"label-role\">"@ + r.role@ + " ["@ + r.arch@ + "]</text>\n      <rect x=\"280\" y=\""@ + r.rect_y@ + "\" width=\""@ + r.width@ + "\" height=\"26\" rx=\"4\" fill=\""@ + r.color@) + ("\" />\n      <text x=\""@ + r.val_x@ + "\" y=\""@ + r.val_y@ + "\" class=\"label-val\">"@ + r.rss@ + " MB <tspan class=\"badge\">"@ + r.badge@ + "</tspan></text>\n    </g>"@) == "\n    <g class=\"bar-row\">\n      <text x=\"30\" y=\""@ + r.label_y@ + "\" class=\"label-service\">"@ + r.service@ + "</text>\n      <text x=\"30\" y=\""@ + r.desc_y@ + "\" class=\"label-role\">"@ + r.role@ + " ["@ + r.arch@ + "]</text>\n      <rect x=\"280\" y=\""@ + r.rect_y@ + "\" width=\""@ + r.width@ + "\" height=\"26\" rx=\"4\" fill=\""@ + r.color@ + "\" />\n      <text x=\""@ + r.val_x@ + "\" y=\""@ + r.val_y@ + "\" class=\"label-val\">"@ + r.rss@ + " MB <tspan class=\"badge\">"@ + r.badge@ + "</tspan></text>\n    </g>"@);
        lemma_contains_tail(("\n    <g class=\"bar-row\">\n      <text x=\"30\" y=\""@ + r.label_y@ + "\" class=\"label-service\">"@ + r.service@ + "</text>\n      <text x=\"30\" y=\""@ + r.desc_y@ + "\" class=\"label-role\">"@ + r.role@ + " ["@ + r.arch@ + "]</text>\n      <rect x=\"280\" y=\""@ + r.rect_y@ + "\" width=\""@ + r.width@ + "\" height=\"26\" rx=\"4\" fill=\""@ + r.color@), "\" />\n      <text x=\""@ + r.val_x@ + "\" y=\""@ + r.val_y@ + "\" class=\"label-val\">"@ + r.rss@ + " MB <tspan class=\"badge\">"@ + r.badge@ + "</tspan></text>\n    </g>"@);
    }
}

/// Each line of a latency row carries its own fields in their places: the row holds every
/// line of its markup (from one line break to the next) with the record's fields inserted.
pub proof fn lemma_latency_row_lines(r: LatencyRowText)
    ensures
        contains_seq(
            latency_row_text(r),
            "\n    <g class=\"bar-row\">\n      <text x=\"30\" y=\""@
                + r.label_y@
                + "\" class=\"label-service\">"@
                + r.service@
                + " "@
                + r.endpoint@
                + "</text>\n      <text x=\"30\" y=\""@,
        ),
        contains_seq(
            latency_row_text(r),
            "</text>\n      <text x=\"30\" y=\""@
                + r.desc_y@
                + "\" class=\"label-role\">"@
                + r.desc@
                + " ["@
                + r.engine@
                + "]</text>\n      <rect x=\"360\" y=\""@,
        ),
        contains_seq(
            latency_row_text(r),
            "]</text>\n      <rect x=\"360\" y=\""@
                + r.rect_y@
                + "\" width=\""@
                + r.width@
                + "\" height=\"28\" rx=\"4\" fill=\""@
                + r.color@
                + "\" />\n      <text x=\""@,
        ),
        contains_seq(
            latency_row_text(r),
            "\" />\n      <text x=\""@
                + r.val_x@
                + "\" y=\""@
                + r.val_y@
                + "\" class=\"label-val\">"@
                + r.p50@
                + " ms <tspan class=\"throughput\">("@
                + r.rps@
                + " req/s)</tspan></text>\n    </g>"@,
        ),
{
    assert(contains_seq(latency_row_text(r), "\n    <g class=\"bar-row\">\n      <text x=\"30\" y=\""@ + r.label_y@ + "\" class=\"label-service\">"@ + r.service@ + " "@ + r.endpoint@ + "</text>\n      <text x=\"30\" y=\""@)) by {
        lemma_contains_self("\n    <g class=\"bar-row\">\n      <text x=\"30\" y=\""@ + r.label_y@ + "\" class=\"label-service\">"@ + r.service@ + " "@ + r.endpoint@ + "</text>\n      <text x=\"30\" y=\""@);
        lemma_contains_extend("\n    <g class=\"bar-row\">\n      <text x=\"30\" y=\""@ + r.label_y@ + "\" class=\"label-service\">"@ + r.service@ + " "@ + r.endpoint@ + "</text>\n      <text x=\"30\" y=\""@, r.desc_y@, "\n    <g class=\"bar-row\">\n      <text x=\"30\" y=\""@ + r.label_y@ + "\" class=\"label-service\">"@ + r.service@ + " "@ + r.endpoint@ + "</text>\n      <text x=\"30\" y=\""@);
        lemma_contains_extend("\n    <g class=\"bar-row\">\n      <text x=\"30\" y=\""@ + r.label_y@ + "\" class=\"label-service\">"@ + r.service@ + " "@ + r.endpoint@ + "</text>\n      <text x=\"30\" y=\""@ + r.desc_y@, "\" class=\"label-role\">"@, "\n    <g class=\"bar-row\">\n      <text x=\"30\" y=\""@ + r.label_y@ + "\" class=\"label-service\">"@ + r.service@ + " "@ + r.endpoint@ + "</text>\n      <text x=\"30\" y=\""@);
        lemma_contains_extend("\n    <g class=\"bar-row\">\n      <text x=\"30\" y=\""@ + r.label_y@ + "\" class=\"label-service\">"@ + r.service@ + " "@ + r.endpoint@ + "</text>\n      <text x=\"30\" y=\""@ + r.desc_y@ + "\" class=\"label-role\">"@, r.desc@, "\n    <g class=\"bar-row\">\n      <text x=\"30\" y=\""@ + r.label_y@ + "\" class=\"label-service\">"@ + r.service@ + " "@ + r.endpoint@ + "</text>\n      <text x=\"30\" y=\""@);
        lemma_contains_extend("\n    <g class=\"bar-row\">\n      <text x=\"30\" y=\""@ + r.label_y@ + "\" class=\"label-service\">"@ + r.service@ + " "@ + r.endpoint@ + "</text>\n      <text x=\"30\" y=\""@ + r.desc_y@ + "\" class=\"label-role\">"@ + r.desc@, " ["@, "\n    <g class=\"bar-row\">\n      <text x=\"30\" y=\""@ + r.label_y@ + "\" class=\"label-service\">"@ + r.service@ + " "@ + r.endpoint@ + "</text>\n      <text x=\"30\" y=\""@);
        lemma_contains_extend("\n    <g class=\"bar-row\">\n      <text x=\"30\" y=\""@ + r.label_y@ + "\" class=\"label-service\">"@ + r.service@ + " "@ + r.endpoint@ + "</text>\n      <text x=\"30\" y=\""@ + r.desc_y@ + "\" class=\"label-role\">"@ + r.desc@ + " ["@, r.engine@, "\n    <g class=\"bar-row\">\n      <text x=\"30\" y=\""@ + r.label_y@ + "\" class=\"label-service\">"@ + r.service@ + " "@ + r.endpoint@ + "</text>\n      <text x=\"30\" y=\""@);
        lemma_contains_extend("\n    <g class=\"bar-row\">\n      <text x=\"30\" y=\""@ + r.label_y@ + "\" class=\"label-service\">"@ + r.service@ + " "@ + r.endpoint@ + "</text>\n      <text x=\"30\" y=\""@ + r.desc_y@ + "\" class=\"label-role\">"@ + r.desc@ + " ["@ + r.engine@, "]</text>\n      <rect x=\"360\" y=\""@, "\n    <g class=\"bar-row\">\n      <text x=\"30\" y=\""@ + r.label_y@ + "\" class=\"label-service\">"@ + r.service@ + " "@ + r.endpoint@ + "</text>\n      <text x=\"30\" y=\""@);
        lemma_contains_extend("\n    <g class=\"bar-row\">\n      <text x=\"30\" y=\""@ + r.label_y@ + "\" class=\"label-service\">"@ + r.service@ + " "@ + r.endpoint@ + "</text>\n      <text x=\"30\" y=\""@ + r.desc_y@ + "\" class=\"label-role\">"@ + r.desc@ + " ["@ + r.engine@ + "]</text>\n      <rect x=\"360\" y=\""@, r.rect_y@, "\n    <g class=\"bar-row\">\n      <text x=\"30\" y=\""@ + r.label_y@ + "\" class=\"label-service\">"@ + r.service@ + " "@ + r.endpoint@ + "</text>\n      <text x=\"30\" y=\""@);
        lemma_contains_extend("\n    <g class=\"bar-row\">\n      <text x=\"30\" y=\""@ + r.label_y@ + "\" class=\"label-service\">"@ + r.service@ + " "@ + r.endpoint@ + "</text>\n      <text x=\"30\" y=\""@ + r.desc_y@ + "\" class=\"label-role\">"@ + r.desc@ + " ["@ + r.engine@ + "]</text>\n      <rect x=\"360\" y=\""@ + r.rect_y@, "\" width=\""@, "\n    <g class=\"bar-row\">\n      <text x=\"30\" y=\""@ + r.label_y@ + "\" class=\"label-service\">"@ + r.service@ + " "@ + r.endpoint@ + "</text>\n      <text x=\"30\" y=\""@);
        lemma_contains_extend("\n    <g class=\"bar-row\">\n      <text x=\"30\" y=\""@ + r.label_y@ + "\" class=\"label-service\">"@ + r.service@ + " "@ + r.endpoint@ + "</text>\n      <text x=\"30\" y=\""@ + r.desc_y@ + "\" class=\"label-role\">"@ + r.desc@ + " ["@ + r.engine@ + "]</text>\n      <rect x=\"360\" y=\""@ + r.rect_y@ + "\" width=\""@, r.width@, "\n    <g class=\"bar-row\">\n      <text x=\"30\" y=\""@ + r.label_y@ + "\" class=\"label-service\">"@ + r.service@ + " "@ + r.endpoint@ + "</text>\n      <text x=\"30\" y=\""@);
        lemma_contains_extend("\n    <g class=\"bar-row\">\n      <text x=\"30\" y=\""@ + r.label_y@ + "\" class=\"label-service\">"@ + r.service@ + " "@ + r.endpoint@ + "</text>\n      <text x=\"30\" y=\""@ + r.desc_y@ + "\" class=\"label-role\">"@ + r.desc@ + " ["@ + r.engine@ + "]</text>\n      <rect x=\"360\" y=\""@ + r.rect_y@ + "\" width=\""@ + r.width@, "\" height=\"28\" rx=\"4\" fill=\""@, "\n    <g class=\"bar-row\">\n      <text x=\"30\" y=\""@ + r.label_y@ + "\" class=\"label-service\">"@ + r.service@ + " "@ + r.endpoint@ + "</text>\n      <text x=\"30\" y=\""@);
        lemma_contains_extend("\n    <g class=\"bar-row\">\n      <text x=\"30\" y=\""@ + r.label_y@ + "\" class=\"label-service\">"@ + r.service@ + " "@ + r.endpoint@ + "</text>\n      <text x=\"30\" y=\""@ + r.desc_y@ + "\" class=\"label-role\">"@ + r.desc@ + " ["@ + r.engine@ + "]</text>\n      <rect x=\"360\" y=\""@ + r.rect_y@ + "\" width=\""@ + r.width@ + "\" height=\"28\" rx=\"4\" fill=\""@, r.color@, "\n    <g class=\"bar-row\">\n      <text x=\"30\" y=\""@ + r.label_y@ + "\" class=\"label-service\">"@ + r.service@ + " "@ + r.endpoint@ + "</text>\n      <text x=\"30\" y=\""@);
        lemma_contains_extend("\n    <g class=\"bar-row\">\n      <text x=\"30\" y=\""@ + r.label_y@ + "\" class=\"label-service\">"@ + r.service@ + " "@ + r.endpoint@ + "</text>\n      <text x=\"30\" y=\""@ + r.desc_y@ + "\" class=\"label-role\">"@ + r.desc@ + " ["@ + r.engine@ + "]</text>\n      <rect x=\"360\" y=\""@ + r.rect_y@ + "\" width=\""@ + r.width@ + "\" height=\"28\" rx=\"4\" fill=\""@ + r.color@, "\" />\n      <text x=\""@, "\n    <g class=\"bar-row\">\n      <text x=\"30\" y=\""@ + r.label_y@ + "\" class=\"label-service\">"@ + r.service@ + " "@ + r.endpoint@ + "</text>\n      <text x=\"30\" y=\""@);
        lemma_contains_extend("\n    <g class=\"bar-row\">\n      <text x=\"30\" y=\""@ + r.label_y@ + "\" class=\"label-service\">"@ + r.service@ + " "@ + r.endpoint@ + "</text>\n      <text x=\"30\" y=\""@ + r.desc_y@ + "\" class=\"label-role\">"@ + r.desc@ + " ["@ + r.engine@ + "]</text>\n      <rect x=\"360\" y=\""@ + r.rect_y@ + "\" width=\""@ + r.width@ + "\" height=\"28\" rx=\"4\" fill=\""@ + r.color@ + "\" />\n      <text x=\""@, r.val_x@, "\n    <g class=\"bar-row\">\n      <text x=\"30\" y=\""@ + r.label_y@ + "\" class=\"label-service\">"@ + r.service@ + " "@ + r.endpoint@ + "</text>\n      <text x=\"30\" y=\""@);
        lemma_contains_extend("\n    <g class=\"bar-row\">\n      <text x=\"30\" y=\""@ + r.label_y@ + "\" class=\"label-service\">"@ + r.service@ + " "@ + r.endpoint@ + "</text>\n      <text x=\"30\" y=\""@ + r.desc_y@ + "\" class=\"label-role\">"@ + r.desc@ + " ["@ + r.engine@ + "]</text>\n      <rect x=\"360\" y=\""@ + r.rect_y@ + "\" width=\""@ + r.width@ + "\" height=\"28\" rx=\"4\" fill=\""@ + r.color@ + "\" />\n      <text x=\""@ + r.val_x@, "\" y=\""@, "\n    <g class=\"bar-row\">\n      <text x=\"30\" y=\""@ + r.label_y@ + "\" class=\"label-service\">"@ + r.service@ + " "@ + r.endpoint@ + "</text>\n      <text x=\"30\" y=\""@);
        lemma_contains_extend("\n    <g class=\"bar-row\">\n      <text x=\"30\" y=\""@ + r.label_y@ + "\" class=\"label-service\">"@ + r.service@ + " "@ + r.endpoint@ + "</text>\n      <text x=\"30\" y=\""@ + r.desc_y@ + "\" class=\"label-role\">"@ + r.desc@ + " ["@ + r.engine@ + "]</text>\n      <rect x=\"360\" y=\""@ + r.rect_y@ + "\" width=\""@ + r.width@ + "\" height=\"28\" rx=\"4\" fill=\""@ + r.color@ + "\" />\n      <text x=\""@ + r.val_x@ + "\" y=\""@, r.val_y@, "\n    <g class=\"bar-row\">\n      <text x=\"30\" y=\""@ + r.label_y@ + "\" class=\"label-service\">"@ + r.service@ + " "@ + r.endpoint@ + "</text>\n      <text x=\"30\" y=\""@);
        lemma_contains_extend("\n    <g class=\"bar-row\">\n      <text x=\"30\" y=\""@ + r.label_y@ + "\" class=\"label-service\">"@ + r.service@ + " "@ + r.endpoint@ + "</text>\n      <text x=\"30\" y=\""@ + r.desc_y@ + "\" class=\"label-role\">"@ + r.desc@ + " ["@ + r.engine@ + "]</text>\n      <rect x=\"360\" y=\""@ + r.rect_y@ + "\" width=\""@ + r.width@ + "\" height=\"28\" rx=\"4\" fill=\""@ + r.color@ + "\" />\n      <text x=\""@ + r.val_x@ + "\" y=\""@ + r.val_y@, "\" class=\"label-val\">"@, "\n    <g class=\"bar-row\">\n      <text x=\"30\" y=\""@ + r.label_y@ + "\" class=\"label-service\">"@ + r.service@ + " "@ + r.endpoint@ + "</text>\n      <text x=\"30\" y=\""@);
        lemma_contains_extend("\n    <g class=\"bar-row\">\n      <text x=\"30\" y=\""@ + r.label_y@ + "\" class=\"label-service\">"@ + r.service@ + " "@ + r.endpoint@ + "</text>\n      <text x=\"30\" y=\""@ + r.desc_y@ + "\" class=\"label-role\">"@ + r.desc@ + " ["@ + r.engine@ + "]</text>\n      <rect x=\"360\" y=\""@ + r.rect_y@ + "\" width=\""@ + r.width@ + "\" height=\"28\" rx=\"4\" fill=\""@ + r.color@ + "\" />\n      <text x=\""@ + r.val_x@ + "\" y=\""@ + r.val_y@ + "\" class=\"label-val\">"@, r.p50@, "\n    <g class=\"bar-row\">\n      <text x=\"30\" y=\""@ + r.label_y@ + "\" class=\"label-service\">"@ + r.service@ + " "@ + r.endpoint@ + "</text>\n      <text x=\"30\" y=\""@);
        lemma_contains_extend("\n    <g class=\"bar-row\">\n      <text x=\"30\" y=\""@ + r.label_y@ + "\" class=\"label-service\">"@ + r.service@ + " "@ + r.endpoint@ + "</text>\n      <text x=\"30\" y=\""@ + r.desc_y@ + "\" class=\"label-role\">"@ + r.desc@ + " ["@ + r.engine@ + "]</text>\n      <rect x=\"360\" y=\""@ + r.rect_y@ + "\" width=\""@ + r.width@ + "\" height=\"28\" rx=\"4\" fill=\""@ + r.color@ + "\" />\n      <text x=\""@ + r.val_x@ + "\" y=\""@ + r.val_y@ + "\" class=\"label-val\">"@ + r.p50@, " ms <tspan class=\"throughput\">("@, "\n    <g class=\"bar-row\">\n      <text x=\"30\" y=\""@ + r.label_y@ + "\" class=\"label-service\">"@ + r.service@ + " "@ + r.endpoint@ + "</text>\n      <text x=\"30\" y=\""@);
        lemma_contains_extend("\n    <g class=\"bar-row\">\n      <text x=\"30\" y=\""@ + r.label_y@ + "\" class=\"label-service\">"@ + r.service@ + " "@ + r.endpoint@ + "</text>\n      <text x=\"30\" y=\""@ + r.desc_y@ + "\" class=\"label-role\">"@ + r.desc@ + " ["@ + r.engine@ + "]</text>\n      <rect x=\"360\" y=\""@ + r.rect_y@ + "\" width=\""@ + r.width@ + "\" height=\"28\" rx=\"4\" fill=\""@ + r.color@ + "\" />\n      <text x=\""@ + r.val_x@ + "\" y=\""@ + r.val_y@ + "\" class=\"label-val\">"@ + r.p50@ + " ms <tspan class=\"throughput\">("@, r.rps@, "\n    <g class=\"bar-row\">\n      <text x=\"30\" y=\""@ + r.label_y@ + "\" class=\"label-service\">"@ + r.service@ + " "@ + r.endpoint@ + "</text>\n      <text x=\"30\" y=\""@);
        lemma_contains_extend("\n    <g class=\"bar-row\">\n      <text x=\"30\" y=\""@ + r.label_y@ + "\" class=\"label-service\">"@ + r.service@ + " "@ + r.endpoint@ + "</text>\n      <text x=\"30\" y=\""@ + r.desc_y@ + "\" class=\"label-role\">"@ + r.desc@ + " ["@ + r.engine@ + "]</text>\n      <rect x=\"360\" y=\""@ + r.rect_y@ + "\" width=\""@ + r.width@ + "\" height=\"28\" rx=\"4\" fill=\""@ + r.color@ + "\" />\n      <text x=\""@ + r.val_x@ + "\" y=\""@ + r.val_y@ + "\" class=\"label-val\">"@ + r.p50@ + " ms <tspan class=\"throughput\">("@ + r.rps@, " req/s)</tspan></text>\n    </g>"@, "\n    <g class=\"bar-row\">\n      <text x=\"30\" y=\""@ + r.label_y@ + "\" class=\"label-service\">"@ + r.service@ + " "@ + r.endpoint@ + "</text>\n      <text x=\"30\" y=\""@);
    }
    assert(contains_seq(latency_row_text(r), "</text>\n      <text x=\"30\" y=\""@ + r.desc_y@ + "\" class=\"label-role\">"@ + r.desc@ + " ["@ + r.engine@ + "]</text>\n      <rect x=\"360\" y=\""@)) by {
        lemma_concat_associative(("\n    <g class=\"bar-row\">\n      <text x=\"30\" y=\""@ + r.label_y@ + "\" class=\"label-service\">"@ + r.service@ + " "@ + r.endpoint@), "</text>\n      <text x=\"30\" y=\""@, r.desc_y@);
        assert(("\n    <g class=\"bar-row\">\n      <text x=\"30\" y=\""@ + r.label_y@ + "\" class=\"label-service\">"@ + r.service@ + " "@ + r.endpoint@) + ("</text>\n      <text x=\"30\" y=\""@ + r.desc_y@) == "\n    <g class=\"bar-row\">\n      <text x=\"30\" y=\""@ + r.label_y@ + "\" class=\"label-service\">"@ + r.service@ + " "@ + r.endpoint@ + "</text>\n      <text x=\"30\" y=\""@ + r.desc_y@);
        lemma_concat_associative(("\n    <g class=\"bar-row\">\n      <text x=\"30\" y=\""@ + r.label_y@ + "\" class=\"label-service\">"@ + r.service@ + " "@ + r.endpoint@), "</text>\n      <text x=\"30\" y=\""@ + r.desc_y@, "\" class=\"label-role\">"@);
        assert(("\n    <g class=\"bar-row\">\n      <text x=\"30\" y=\""@ + r.label_y@ + "\" class=\"label-service\">"@ + r.service@ + " "@ + r.endpoint@) + ("</text>\n      <text x=\"30\" y=\""@ + r.desc_y@ + "\" class=\"label-role\">"@) == "\n    <g class=\"bar-row\">\n      <text x=\"30\" y=\""@ + r.label_y@ + "\" class=\"label-service\">"@ + r.service@ + " "@ + r.endpoint@ + "</text>\n      <text x=\"30\" y=\""@ + r.desc_y@ + "\" class=\"label-role\">"@);
        lemma_concat_associative(("\n    <g class=\"bar-row\">\n      <text x=\"30\" y=\""@ + r.label_y@ + "\" class=\"label-service\">"@ + r.service@ + " "@ + r.endpoint@), "</text>\n      <text x=\"30\" y=\""@ + r.desc_y@ + "\" class=\"label-role\">"@, r.desc@);
        assert(("\n    <g class=\"bar-row\">\n      <text x=\"30\" y=\""@ + r.label_y@ + "\" class=\"label-service\">"@ + r.service@ + " "@ + r.endpoint@) + ("</text>\n      <text x=\"30\" y=\""@ + r.desc_y@ + "\" class=\"label-role\">"@ + r.desc@) == "\n    <g class=\"bar-row\">\n      <text x=\"30\" y=\""@ + r.label_y@ + "\" class=\"label-service\">"@ + r.service@ + " "@ + r.endpoint@ + "</text>\n      <text x=\"30\" y=\""@ + r.desc_y@ + "\" class=\"label-role\">"@ + r.desc@);
        lemma_concat_associative(("\n    <g class=\"bar-row\">\n      <text x=\"30\" y=\""@ + r.label_y@ + "\" class=\"label-service\">"@ + r.service@ + " "@ + r.endpoint@), "</text>\n      <text x=\"30\" y=\""@ + r.desc_y@ + "\" class=\"label-role\">"@ + r.desc@, " ["@);
        assert(("\n    <g class=\"bar-row\">\n      <text x=\"30\" y=\""@ + r.label_y@ + "\" class=\"label-service\">"@ + r.service@ + " "@ + r.endpoint@) + ("</text>\n      <text x=\"30\" y=\""@ + r.desc_y@ + "\" class=\"label-role\">"@ + r.desc@ + " ["@) == "\n    <g class=\"bar-row\">\n      <text x=\"30\" y=\""@ + r.label_y@ + "\" class=\"label-service\">"@ + r.service@ + " "@ + r.endpoint@ + "</text>\n      <text x=\"30\" y=\""@ + r.desc_y@ + "\" class=\"label-role\">"@ + r.desc@ + " ["@);
        lemma_concat_associative(("\n    <g class=\"bar-row\">\n      <text x=\"30\" y=\""@ + r.label_y@ + "\" class=\"label-service\">"@ + r.service@ + " "@ + r.endpoint@), "</text>\n      <text x=\"30\" y=\""@ + r.desc_y@ + "\" class=\"label-role\">"@ + r.desc@ + " ["@, r.engine@);
        assert(("\n    <g class=\"bar-row\">\n      <text x=\"30\" y=\""@ + r.label_y@ + "\" class=\"label-service\">"@ + r.service@ + " "@ + r.endpoint@) + ("</text>\n      <text x=\"30\" y=\""@ + r.desc_y@ + "\" class=\"label-role\">"@ + r.desc@ + " ["@ + r.engine@) == "\n    <g class=\"bar-row\">\n      <text x=\"30\" y=\""@ + r.label_y@ + "\" class=\"label-service\">"@ + r.service@ + " "@ + r.endpoint@ + "</text>\n      <text x=\"30\" y=\""@ + r.desc_y@ + "\" class=\"label-role\">"@ + r.desc@ + " ["@ + r.engine@);
        lemma_concat_associative(("\n    <g class=\"bar-row\">\n      <text x=\"30\" y=\""@ + r.label_y@ + "\" class=\"label-service\">"@ + r.service@ + " "@ + r.endpoint@), "</text>\n      <text x=\"30\" y=\""@ + r.desc_y@ + "\" class=\"label-role\">"@ + r.desc@ + " ["@ + r.engine@, "]</text>\n      <rect x=\"360\" y=\""@);
        assert(("\n    <g class=\"bar-row\">\n      <text x=\"30\" y=\""@ + r.label_y@ + "\" class=\"label-service\">"@ + r.service@ + " "@ + r.endpoint@) + ("</text>\n      <text x=\"30\" y=\""@ + r.desc_y@ + "\" class=\"label-role\">"@ + r.desc@ + " ["@ + r.engine@ + "]</text>\n      <rect x=\"360\" y=\""@) == "\n    <g class=\"bar-row\">\n      <text x=\"30\" y=\""@ + r.label_y@ + "\" class=\"label-service\">"@ + r.service@ + " "@ + r.endpoint@ + "</text>\n      <text x=\"30\" y=\""@ + r.desc_y@ + "\" class=\"label-role\">"@ + r.desc@ + " ["@ + r.engine@ + "]</text>\n      <rect x=\"360\" y=\""@);
        lemma_contains_tail(("\n    <g class=\"bar-row\">\n      <text x=\"30\" y=\""@ + r.label_y@ + "\" class=\"label-service\">"@ + r.service@ + " "@ + r.endpoint@), "</text>\n      <text x=\"30\" y=\""@ + r.desc_y@ + "\" class=\"label-role\">"@ + r.desc@ + " ["@ + r.engine@ + "]</text>\n      <rect x=\"360\" y=\""@);
        lemma_contains_extend("\n    <g class=\"bar-row\">\n      <text x=\"30\" y=\""@ + r.label_y@ + "\" class=\"label-service\">"@ + r.service@ + " "@ + r.endpoint@ + "</text>\n      <text x=\"30\" y=\""@ + r.desc_y@ + "\" class=\"label-role\">"@ + r.desc@ + " ["@ + r.engine@ + "]</text>\n      <rect x=\"360\" y=\""@, r.rect_y@, "</text>\n      <text x=\"30\" y=\""@ + r.desc_y@ + "\" class=\"label-role\">"@ + r.desc@ + " ["@ + r.engine@ + "]</text>\n      <rect x=\"360\" y=\""@);
        lemma_contains_extend("\n    <g class=\"bar-row\">\n      <text x=\"30\" y=\""@ + r.label_y@ + "\" class=\"label-service\">"@ + r.service@ + " "@ + r.endpoint@ + "</text>\n      <text x=\"30\" y=\""@ + r.desc_y@ + "\" class=\"label-role\">"@ + r.desc@ + " ["@ + r.engine@ + "]</text>\n      <rect x=\"360\" y=\""@ + r.rect_y@, "\" width=\""@, "</text>\n      <text x=\"30\" y=\""@ + r.desc_y@ + "\" class=\"label-role\">"@ + r.desc@ + " ["@ + r.engine@ + "]</text>\n      <rect x=\"360\" y=\""@);
        lemma_contains_extend("\n    <g class=\"bar-row\">\n      <text x=\"30\" y=\""@ + r.label_y@ + "\" class=\"label-service\">"@ + r.service@ + " "@ + r.endpoint@ + "</text>\n      <text x=\"30\" y=\""@ + r.desc_y@ + "\" class=\"label-role\">"@ + r.desc@ + " ["@ + r.engine@ + "]</text>\n      <rect x=\"360\" y=\""@ + r.rect_y@ + "\" width=\""@, r.width@, "</text>\n      <text x=\"30\" y=\""@ + r.desc_y@ + "\" class=\"label-role\">"@ + r.desc@ + " ["@ + r.engine@ + "]</text>\n      <rect x=\"360\" y=\""@);
        lemma_contains_extend("\n    <g class=\"bar-row\">\n      <text x=\"30\" y=\""@ + r.label_y@ + "\" class=\"label-service\">"@ + r.service@ + " "@ + r.endpoint@ + "</text>\n      <text x=\"30\" y=\""@ + r.desc_y@ + "\" class=\"label-role\">"@ + r.desc@ + " ["@ + r.engine@ + "]</text>\n      <rect x=\"360\" y=\""@ + r.rect_y@ + "\" width=\""@ + r.width@, "\" height=\"28\" rx=\"4\" fill=\""@, "</text>\n      <text x=\"30\" y=\""@ + r.desc_y@ + "\" class=\"label-role\">"@ + r.desc@ + " ["@ + r.engine@ + "]</text>\n      <rect x=\"360\" y=\""@);
        lemma_contains_extend("\n    <g class=\"bar-row\">\n      <text x=\"30\" y=\""@ + r.label_y@ + "\" class=\"label-service\">"@ + r.service@ + " "@ + r.endpoint@ + "</text>\n      <text x=\"30\" y=\""@ + r.desc_y@ + "\" class=\"label-role\">"@ + r.desc@ + " ["@ + r.engine@ + "]</text>\n      <rect x=\"360\" y=\""@ + r.rect_y@ + "\" width=\""@ + r.width@ + "\" height=\"28\" rx=\"4\" fill=\""@, r.color@, "</text>\n      <text x=\"30\" y=\""@ + r.desc_y@ + "\" class=\"label-role\">"@ + r.desc@ + " ["@ + r.engine@ + "]</text>\n      <rect x=\"360\" y=\""@);
        lemma_contains_extend("\n    <g class=\"bar-row\">\n      <text x=\"30\" y=\""@ + r.label_y@ + "\" class=\"label-service\">"@ + r.service@ + " "@ + r.endpoint@ + "</text>\n      <text x=\"30\" y=\""@ + r.desc_y@ + "\" class=\"label-role\">"@ + r.desc@ + " ["@ + r.engine@ + "]</text>\n      <rect x=\"360\" y=\""@ + r.rect_y@ + "\" width=\""@ + r.width@ + "\" height=\"28\" rx=\"4\" fill=\""@ + r.color@, "\" />\n      <text x=\""@, "</text>\n      <text x=\"30\" y=\""@ + r.desc_y@ + "\" class=\"label-role\">"@ + r.desc@ + " ["@ + r.engine@ + "]</text>\n      <rect x=\"360\" y=\""@);
        lemma_contains_extend("\n    <g class=\"bar-row\">\n      <text x=\"30\" y=\""@ + r.label_y@ + "\" class=\"label-service\">"@ + r.service@ + " "@ + r.endpoint@ + "</text>\n      <text x=\"30\" y=\""@ + r.desc_y@ + "\" class=\"label-role\">"@ + r.desc@ + " ["@ + r.engine@ + "]</text>\n      <rect x=\"360\" y=\""@ + r.rect_y@ + "\" width=\""@ + r.width@ + "\" height=\"28\" rx=\"4\" fill=\""@ + r.color@ + "\" />\n      <text x=\""@, r.val_x@, "</text>\n      <text x=\"30\" y=\""@ + r.desc_y@ + "\" class=\"label-role\">"@ + r.desc@ + " ["@ + r.engine@ + "]</text>\n      <rect x=\"360\" y=\""@);
        lemma_contains_extend("\n    <g class=\"bar-row\">\n      <text x=\"30\" y=\""@ + r.label_y@ + "\" class=\"label-service\">"@ + r.service@ + " "@ + r.endpoint@ + "</text>\n      <text x=\"30\" y=\""@ + r.desc_y@ + "\" class=\"label-role\">"@ + r.desc@ + " ["@ + r.engine@ + "]</text>\n      <rect x=\"360\" y=\""@ + r.rect_y@ + "\" width=\""@ + r.width@ + "\" height=\"28\" rx=\"4\" fill=\""@ + r.color@ + "\" />\n      <text x=\""@ + r.val_x@, "\" y=\""@, "</text>\n      <text x=\"30\" y=\""@ + r.desc_y@ + "\" class=\"label-role\">"@ + r.desc@ + " ["@ + r.engine@ + "]</text>\n      <rect x=\"360\" y=\""@);
        lemma_contains_extend("\n    <g class=\"bar-row\">\n      <text x=\"30\" y=\""@ + r.label_y@ + "\" class=\"label-service\">"@ + r.service@ + " "@ + r.endpoint@ + "</text>\n      <text x=\"30\" y=\""@ + r.desc_y@ + "\" class=\"label-role\">"@ + r.desc@ + " ["@ + r.engine@ + "]</text>\n      <rect x=\"360\" y=\""@ + r.rect_y@ + "\" width=\""@ + r.width@ + "\" height=\"28\" rx=\"4\" fill=\""@ + r.color@ + "\" />\n      <text x=\""@ + r.val_x@ + "\" y=\""@, r.val_y@, "</text>\n      <text x=\"30\" y=\""@ + r.desc_y@ + "\" class=\"label-role\">"@ + r.desc@ + " ["@ + r.engine@ + "]</text>\n      <rect x=\"360\" y=\""@);
        lemma_contains_extend("\n    <g class=\"bar-row\">\n      <text x=\"30\" y=\""@ + r.label_y@ + "\" class=\"label-service\">"@ + r.service@ + " "@ + r.endpoint@ + "</text>\n      <text x=\"30\" y=\""@ + r.desc_y@ + "\" class=\"label-role\">"@ + r.desc@ + " ["@ + r.engine@ + "]</text>\n      <rect x=\"360\" y=\""@ + r.rect_y@ + "\" width=\""@ + r.width@ + "\" height=\"28\" rx=\"4\" fill=\""@ + r.color@ + "\" />\n      <text x=\""@ + r.val_x@ + "\" y=\""@ + r.val_y@, "\" class=\"label-val\">"@, "</text>\n      <text x=\"30\" y=\""@ + r.desc_y@ + "\" class=\"label-role\">"@ + r.desc@ + " ["@ + r.engine@ + "]</text>\n      <rect x=\"360\" y=\""@);
        lemma_contains_extend("\n    <g class=\"bar-row\">\n      <text x=\"30\" y=\""@ + r.label_y@ + "\" class=\"label-service\">"@ + r.service@ + " "@ + r.endpoint@ + "</text>\n      <text x=\"30\" y=\""@ + r.desc_y@ + "\" class=\"label-role\">"@ + r.desc@ + " ["@ + r.engine@ + "]</text>\n      <rect x=\"360\" y=\""@ + r.rect_y@ + "\" width=\""@ + r.width@ + "\" height=\"28\" rx=\"4\" fill=\""@ + r.color@ + "\" />\n      <text x=\""@ + r.val_x@ + "\" y=\""@ + r.val_y@ + "\" class=\"label-val\">"@, r.p50@, "</text>\n      <text x=\"30\" y=\""@ + r.desc_y@ + "\" class=\"label-role\">"@ + r.desc@ + " ["@ + r.engine@ + "]</text>\n      <rect x=\"360\" y=\""@);
        lemma_contains_extend("\n    <g class=\"bar-row\">\n      <text x=\"30\" y=\""@ + r.label_y@ + "\" class=\"label-service\">"@ + r.service@ + " "@ + r.endpoint@ + "</text>\n      <text x=\"30\" y=\""@ + r.desc_y@ + "\" class=\"label-role\">"@ + r.desc@ + " ["@ + r.engine@ + "]</text>\n      <rect x=\"360\" y=\""@ + r.rect_y@ + "\" width=\""@ + r.width@ + "\" height=\"28\" rx=\"4\" fill=\""@ + r.color@ + "\" />\n      <text x=\""@ + r.val_x@ + "\" y=\""@ + r.val_y@ + "\" class=\"label-val\">"@ + r.p50@, " ms <tspan class=\"throughput\">("@, "</text>\n      <text x=\"30\" y=\""@ + r.desc_y@ + "\" class=\"label-role\">"@ + r.desc@ + " ["@ + r.engine@ + "]</text>\n      <rect x=\"360\" y=\""@);
        lemma_contains_extend("\n    <g class=\"bar-row\">\n      <text x=\"30\" y=\""@ + r.label_y@ + "\" class=\"label-service\">"@ + r.service@ + " "@ + r.endpoint@ + "</text>\n      <text x=\"30\" y=\""@ + r.desc_y@ + "\" class=\"label-role\">"@ + r.desc@ + " ["@ + r.engine@ + "]</text>\n      <rect x=\"360\" y=\""@ + r.rect_y@ + "\" width=\""@ + r.width@ + "\" height=\"28\" rx=\"4\" fill=\""@ + r.color@ + "\" />\n      <text x=\""@ + r.val_x@ + "\" y=\""@ + r.val_y@ + "\" class=\"label-val\">"@ + r.p50@ + " ms <tspan class=\"throughput\">("@, r.rps@, "</text>\n      <text x=\"30\" y=\""@ + r.desc_y@ + "\" class=\"label-role\">"@ + r.desc@ + " ["@ + r.engine@ + "]</text>\n      <rect x=\"360\" y=\""@);
        lemma_contains_extend("\n    <g class=\"bar-row\">\n      <text x=\"30\" y=\""@ + r.label_y@ + "\" class=\"label-service\">"@ + r.service@ + " "@ + r.endpoint@ + "</text>\n      <text x=\"30\" y=\""@ + r.desc_y@ + "\" class=\"label-role\">"@ + r.desc@ + " ["@ + r.engine@ + "]</text>\n      <rect x=\"360\" y=\""@ + r.rect_y@ + "\" width=\""@ + r.width@ + "\" height=\"28\" rx=\"4\" fill=\""@ + r.color@ + "\" />\n      <text x=\""@ + r.val_x@ + "\" y=\""@ + r.val_y@ + "\" class=\"label-val\">"@ + r.p50@ + " ms <tspan class=\"throughput\">("@ + r.rps@, " req/s)</tspan></text>\n    </g>"@, "</text>\n      <text x=\"30\" y=\""@ + r.desc_y@ + "\" class=\"label-role\">"@ + r.desc@ + " ["@ + r.engine@ + "]</text>\n      <rect x=\"360\" y=\""@);
    }
    assert(contains_seq(latency_row_text(r), "]</text>\n      <rect x=\"360\" y=\""@ + r.rect_y@ + "\" width=\""@ + r.width@ + "\" height=\"28\" rx=\"4\" fill=\""@ + r.color@ + "\" />\n      <text x=\""@)) by {
        lemma_concat_associative(("\n    <g class=\"bar-row\">\n      <text x=\"30\" y=\""@ + r.label_y@ + "\" class=\"label-service\">"@ + r.service@ + " "@ + r.endpoint@ + "</text>\n      <text x=\"30\" y=\""@ + r.desc_y@ + "\" class=\"label-role\">"@ + r.desc@ + " ["@ + r.engine@), "]</text>\n      <rect x=\"360\" y=\""@, r.rect_y@);
        assert(("\n    <g class=\"bar-row\">\n      <text x=\"30\" y=\""@ + r.label_y@ + "\" class=\"label-service\">"@ + r.service@ + " "@ + r.endpoint@ + "</text>\n      <text x=\"30\" y=\""@ + r.desc_y@ + "\" class=\"label-role\">"@ + r.desc@ + " ["@ + r.engine@) + ("]</text>\n      <rect x=\"360\" y=\""@ + r.rect_y@) == "\n    <g class=\"bar-row\">\n      <text x=\"30\" y=\""@ + r.label_y@ + "\" class=\"label-service\">"@ + r.service@ + " "@ + r.endpoint@ + "</text>\n      <text x=\"30\" y=\""@ + r.desc_y@ + "\" class=\"label-role\">"@ + r.desc@ + " ["@ + r.engine@ + "]</text>\n      <rect x=\"360\" y=\""@ + r.rect_y@);
        lemma_concat_associative(("\n    <g class=\"bar-row\">\n      <text x=\"30\" y=\""@ + r.label_y@ + "\" class=\"label-service\">"@ + r.service@ + " "@ + r.endpoint@ + "</text>\n      <text x=\"30\" y=\""@ + r.desc_y@ + "\" class=\"label-role\">"@ + r.desc@ + " ["@ + r.engine@), "]</text>\n      <rect x=\"360\" y=\""@ + r.rect_y@, "\" width=\""@);
        assert(("\n    <g class=\"bar-row\">\n      <text x=\"30\" y=\""@ + r.label_y@ + "\" class=\"label-service\">"@ + r.service@ + " "@ + r.endpoint@ + "</text>\n      <text x=\"30\" y=\""@ + r.desc_y@ + "\" class=\"label-role\">"@ + r.desc@ + " ["@ + r.engine@) + ("]</text>\n      <rect x=\"360\" y=\""@ + r.rect_y@ + "\" width=\""@) == "\n    <g class=\"bar-row\">\n      <text x=\"30\" y=\""@ + r.label_y@ + "\" class=\"label-service\">"@ + r.service@ + " "@ + r.endpoint@ + "</text>\n      <text x=\"30\" y=\""@ + r.desc_y@ + "\" class=\"label-role\">"@ + r.desc@ + " ["@ + r.engine@ + "]</text>\n      <rect x=\"360\" y=\""@ + r.rect_y@ + "\" width=\""@);
        lemma_concat_associative(("\n    <g class=\"bar-row\">\n      <text x=\"30\" y=\""@ + r.label_y@ + "\" class=\"label-service\">"@ + r.service@ + " "@ + r.endpoint@ + "</text>\n      <text x=\"30\" y=\""@ + r.desc_y@ + "\" class=\"label-role\">"@ + r.desc@ + " ["@ + r.engine@), "]</text>\n      <rect x=\"360\" y=\""@ + r.rect_y@ + "\" width=\""@, r.width@);
        assert(("\n    <g class=\"bar-row\">\n      <text x=\"30\" y=\""@ + r.label_y@ + "\" class=\"label-service\">"@ + r.service@ + " "@ + r.endpoint@ + "</text>\n      <text x=\"30\" y=\""@ + r.desc_y@ + "\" class=\"label-role\">"@ + r.desc@ + " ["@ + r.engine@) + ("]</text>\n      <rect x=\"360\" y=\""@ + r.rect_y@ + "\" width=\""@ + r.width@) == "\n    <g class=\"bar-row\">\n      <text x=\"30\" y=\""@ + r.label_y@ + "\" class=\"label-service\">"@ + r.service@ + " "@ + r.endpoint@ + "</text>\n      <text x=\"30\" y=\""@ + r.desc_y@ + "\" class=\"label-role\">"@ + r.desc@ + " ["@ + r.engine@ + "]</text>\n      <rect x=\"360\" y=\""@ + r.rect_y@ + "\" width=\""@ + r.width@);
        lemma_concat_associative(("\n    <g class=\"bar-row\">\n      <text x=\"30\" y=\""@ + r.label_y@ + "\" class=\"label-service\">"@ + r.service@ + " "@ + r.endpoint@ + "</text>\n      <text x=\"30\" y=\""@ + r.desc_y@ + "\" class=\"label-role\">"@ + r.desc@ + " ["@ + r.engine@), "]</text>\n      <rect x=\"360\" y=\""@ + r.rect_y@ + "\" width=\""@ + r.width@, "\" height=\"28\" rx=\"4\" fill=\""@);
        assert(("\n    <g class=\"bar-row\">\n      <text x=\"30\" y=\""@ + r.label_y@ + "\" class=\"label-service\">"@ + r.service@ + " "@ + r.endpoint@ + "</text>\n      <text x=\"30\" y=\""@ + r.desc_y@ + "\" class=\"label-role\">"@ + r.desc@ + " ["@ + r.engine@) + ("]</text>\n      <rect x=\"360\" y=\""@ + r.rect_y@ + "\" width=\""@ + r.width@ + "\" height=\"28\" rx=\"4\" fill=\""@) == "\n    <g class=\"bar-row\">\n      <text x=\"30\" y=\""@ + r.label_y@ + "\" class=\"label-service\">"@ + r.service@ + " "@ + r.endpoint@ + "</text>\n      <text x=\"30\" y=\""@ + r.desc_y@ + "\" class=\"label-role\">"@ + r.desc@ + " ["@ + r.engine@ + "]</text>\n      <rect x=\"360\" y=\""@ + r.rect_y@ + "\" width=\""@ + r.width@ + "\" height=\"28\" rx=\"4\" fill=\""@);
        lemma_concat_associative(("\n    <g class=\"bar-row\">\n      <text x=\"30\" y=\""@ + r.label_y@ + "\" class=\"label-service\">"@ + r.service@ + " "@ + r.endpoint@ + "</text>\n      <text x=\"30\" y=\""@ + r.desc_y@ + "\" class=\"label-role\">"@ + r.desc@ + " ["@ + r.engine@), "]</text>\n      <rect x=\"360\" y=\""@ + r.rect_y@ + "\" width=\""@ + r.width@ + "\" height=\"28\" rx=\"4\" fill=\""@, r.color@);
        assert(("\n    <g class=\"bar-row\">\n      <text x=\"30\" y=\""@ + r.label_y@ + "\" class=\"label-service\">"@ + r.service@ + " "@ + r.endpoint@ + "</text>\n      <text x=\"30\" y=\""@ + r.desc_y@ + "\" class=\"label-role\">"@ + r.desc@ + " ["@ + r.engine@) + ("]</text>\n      <rect x=\"360\" y=\""@ + r.rect_y@ + "\" width=\""@ + r.width@ + "\" height=\"28\" rx=\"4\" fill=\""@ + r.color@) == "\n    <g class=\"bar-row\">\n      <text x=\"30\" y=\""@ + r.label_y@ + "\" class=\"label-service\">"@ + r.service@ + " "@ + r.endpoint@ + "</text>\n      <text x=\"30\" y=\""@ + r.desc_y@ + "\" class=\"label-role\">"@ + r.desc@ + " ["@ + r.engine@ + "]</text>\n      <rect x=\"360\" y=\""@ + r.rect_y@ + "\" width=\""@ + r.width@ + "\" height=\"28\" rx=\"4\" fill=\""@ + r.color@);
        lemma_concat_associative(("\n    <g class=\"bar-row\">\n      <text x=\"30\" y=\""@ + r.label_y@ + "\" class=\"label-service\">"@ + r.service@ + " "@ + r.endpoint@ + "</text>\n      <text x=\"30\" y=\""@ + r.desc_y@ + "\" class=\"label-role\">"@ + r.desc@ + " ["@ + r.engine@), "]</text>\n      <rect x=\"360\" y=\""@ + r.rect_y@ + "\" width=\""@ + r.width@ + "\" height=\"28\" rx=\"4\" fill=\""@ + r.color@, "\" />\n      <text x=\""@);
        assert(("\n    <g class=\"bar-row\">\n      <text x=\"30\" y=\""@ + r.label_y@ + "\" class=\"label-service\">"@ + r.service@ + " "@ + r.endpoint@ + "</text>\n      <text x=\"30\" y=\""@ + r.desc_y@ + "\" class=\"label-role\">"@ + r.desc@ + " ["@ + r.engine@) + ("]</text>\n      <rect x=\"360\" y=\""@ + r.rect_y@ + "\" width=\""@ + r.width@ + "\" height=\"28\" rx=\"4\" fill=\""@ + r.color@ + "\" />\n      <text x=\""@) == "\n    <g class=\"bar-row\">\n      <text x=\"30\" y=\""@ + r.label_y@ + "\" class=\"label-service\">"@ + r.service@ + " "@ + r.endpoint@ + "</text>\n      <text x=\"30\" y=\""@ + r.desc_y@ + "\" class=\"label-role\">"@ + r.desc@ + " ["@ + r.engine@ + "]</text>\n      <rect x=\"360\" y=\""@ + r.rect_y@ + "\" width=\""@ + r.width@ + "\" height=\"28\" rx=\"4\" fill=\""@ + r.color@ + "\" />\n      <text x=\""@);
        lemma_contains_tail(("\n    <g class=\"bar-row\">\n      <text x=\"30\" y=\""@ + r.label_y@ + "\" class=\"label-service\">"@ + r.service@ + " "@ + r.endpoint@ + "</text>\n      <text x=\"30\" y=\""@ + r.desc_y@ + "\" class=\"label-role\">"@ + r.desc@ + " ["@ + r.engine@), "]</text>\n      <rect x=\"360\" y=\""@ + r.rect_y@ + "\" width=\""@ + r.width@ + "\" height=\"28\" rx=\"4\" fill=\""@ + r.color@ + "\" />\n      <text x=\""@);
        lemma_contains_extend("\n    <g class=\"bar-row\">\n      <text x=\"30\" y=\""@ + r.label_y@ + "\" class=\"label-service\">"@ + r.service@ + " "@ + r.endpoint@ + "</text>\n      <text x=\"30\" y=\""@ + r.desc_y@ + "\" class=\"label-role\">"@ + r.desc@ + " ["@ + r.engine@ + "]</text>\n      <rect x=\"360\" y=\""@ + r.rect_y@ + "\" width=\""@ + r.width@ + "\" height=\"28\" rx=\"4\" fill=\""@ + r.color@ + "\" />\n      <text x=\""@, r.val_x@, "]</text>\n      <rect x=\"360\" y=\""@ + r.rect_y@ + "\" width=\""@ + r.width@ + "\" height=\"28\" rx=\"4\" fill=\""@ + r.color@ + "\" />\n      <text x=\""@);
        lemma_contains_extend("\n    <g class=\"bar-row\">\n      <text x=\"30\" y=\""@ + r.label_y@ + "\" class=\"label-service\">"@ + r.service@ + " "@ + r.endpoint@ + "</text>\n      <text x=\"30\" y=\""@ + r.desc_y@ + "\" class=\"label-role\">"@ + r.desc@ + " ["@ + r.engine@ + "]</text>\n      <rect x=\"360\" y=\""@ + r.rect_y@ + "\" width=\""@ + r.width@ + "\" height=\"28\" rx=\"4\" fill=\""@ + r.color@ + "\" />\n      <text x=\""@ + r.val_x@, "\" y=\""@, "]</text>\n      <rect x=\"360\" y=\""@ + r.rect_y@ + "\" width=\""@ + r.width@ + "\" height=\"28\" rx=\"4\" fill=\""@ + r.color@ + "\" />\n      <text x=\""@);
        lemma_contains_extend("\n    <g class=\"bar-row\">\n      <text x=\"30\" y=\""@ + r.label_y@ + "\" class=\"label-service\">"@ + r.service@ + " "@ + r.endpoint@ + "</text>\n      <text x=\"30\" y=\""@ + r.desc_y@ + "\" class=\"label-role\">"@ + r.desc@ + " ["@ + r.engine@ + "]</text>\n      <rect x=\"360\" y=\""@ + r.rect_y@ + "\" width=\""@ + r.width@ + "\" height=\"28\" rx=\"4\" fill=\""@ + r.color@ + "\" />\n      <text x=\""@ + r.val_x@ + "\" y=\""@, r.val_y@, "]</text>\n      <rect x=\"360\" y=\""@ + r.rect_y@ + "\" width=\""@ + r.width@ + "\" height=\"28\" rx=\"4\" fill=\""@ + r.color@ + "\" />\n      <text x=\""@);
        lemma_contains_extend("\n    <g class=\"bar-row\">\n      <text x=\"30\" y=\""@ + r.label_y@ + "\" class=\"label-service\">"@ + r.service@ + " "@ + r.endpoint@ + "</text>\n      <text x=\"30\" y=\""@ + r.desc_y@ + "\" class=\"label-role\">"@ + r.desc@ + " ["@ + r.engine@ + "]</text>\n      <rect x=\"360\" y=\""@ + r.rect_y@ + "\" width=\""@ + r.width@ + "\" height=\"28\" rx=\"4\" fill=\""@ + r.color@ + "\" />\n      <text x=\""@ + r.val_x@ + "\" y=\""@ + r.val_y@, "\" class=\"label-val\">"@, "]</text>\n      <rect x=\"360\" y=\""@ + r.rect_y@ + "\" width=\""@ + r.width@ + "\" height=\"28\" rx=\"4\" fill=\""@ + r.color@ + "\" />\n      <text x=\""@);
        lemma_contains_extend("\n    <g class=\"bar-row\">\n      <text x=\"30\" y=\""@ + r.label_y@ + "\" class=\"label-service\">"@ + r.service@ + " "@ + r.endpoint@ + "</text>\n      <text x=\"30\" y=\""@ + r.desc_y@ + "\" class=\"label-role\">"@ + r.desc@ + " ["@ + r.engine@ + "]</text>\n      <rect x=\"360\" y=\""@ + r.rect_y@ + "\" width=\""@ + r.width@ + "\" height=\"28\" rx=\"4\" fill=\""@ + r.color@ + "\" />\n      <text x=\""@ + r.val_x@ + "\" y=\""@ + r.val_y@ + "\" class=\"label-val\">"@, r.p50@, "]</text>\n      <rect x=\"360\" y=\""@ + r.rect_y@ + "\" width=\""@ + r.width@ + "\" height=\"28\" rx=\"4\" fill=\""@ + r.color@ + "\" />\n      <text x=\""@);
        lemma_contains_extend("\n    <g class=\"bar-row\">\n      <text x=\"30\" y=\""@ + r.label_y@ + "\" class=\"label-service\">"@ + r.service@ + " "@ + r.endpoint@ + "</text>\n      <text x=\"30\" y=\""@ + r.desc_y@ + "\" class=\"label-role\">"@ + r.desc@ + " ["@ + r.engine@ + "]</text>\n      <rect x=\"360\" y=\""@ + r.rect_y@ + "\" width=\""@ + r.width@ + "\" height=\"28\" rx=\"4\" fill=\""@ + r.color@ + "\" />\n      <text x=\""@ + r.val_x@ + "\" y=\""@ + r.val_y@ + "\" class=\"label-val\">"@ + r.p50@, " ms <tspan class=\"throughput\">("@, "]</text>\n      <rect x=\"360\" y=\""@ + r.rect_y@ + "\" width=\""@ + r.width@ + "\" height=\"28\" rx=\"4\" fill=\""@ + r.color@ + "\" />\n      <text x=\""@);
        lemma_contains_extend("\n    <g class=\"bar-row\">\n      <text x=\"30\" y=\""@ + r.label_y@ + "\" class=\"label-service\">"@ + r.service@ + " "@ + r.endpoint@ + "</text>\n      <text x=\"30\" y=\""@ + r.desc_y@ + "\" class=\"label-role\">"@ + r.desc@ + " ["@ + r.engine@ + "]</text>\n      <rect x=\"360\" y=\""@ + r.rect_y@ + "\" width=\""@ + r.width@ + "\" height=\"28\" rx=\"4\" fill=\""@ + r.color@ + "\" />\n      <text x=\""@ + r.val_x@ + "\" y=\""@ + r.val_y@ + "\" class=\"label-val\">"@ + r.p50@ + " ms <tspan class=\"throughput\">("@, r.rps@, "]</text>\n      <rect x=\"360\" y=\""@ + r.rect_y@ + "\" width=\""@ + r.width@ + "\" height=\"28\" rx=\"4\" fill=\""@ + r.color@ + "\" />\n      <text x=\""@);
        lemma_contains_extend("\n    <g class=\"bar-row\">\n      <text x=\"30\" y=\""@ + r.label_y@ + "\" class=\"label-service\">"@ + r.service@ + " "@ + r.endpoint@ + "</text>\n      <text x=\"30\" y=\""@ + r.desc_y@ + "\" class=\"label-role\">"@ + r.desc@ + " ["@ + r.engine@ + "]</text>\n      <rect x=\"360\" y=\""@ + r.rect_y@ + "\" width=\""@ + r.width@ + "\" height=\"28\" rx=\"4\" fill=\""@ + r.color@ + "\" />\n      <text x=\""@ + r.val_x@ + "\" y=\""@ + r.val_y@ + "\" class=\"label-val\">"@ + r.p50@ + " ms <tspan class=\"throughput\">("@ + r.rps@, " req/s)</tspan></text>\n    </g>"@, "]</text>\n      <rect x=\"360\" y=\""@ + r.rect_y@ + "\" width=\""@ + r.width@ + "\" height=\"28\" rx=\"4\" fill=\""@ + r.color@ + "\" />\n      <text x=\""@);
    }
    assert(contains_seq(latency_row_text(r), "\" />\n      <text x=\""@ + r.val_x@ + "\" y=\""@ + r.val_y@ + "\" class=\"label-val\">"@ + r.p50@ + " ms <tspan class=\"throughput\">("@ + r.rps@ + " req/s)</tspan></text>\n    </g>"@)) by {
        lemma_concat_associative(("\n    <g class=\"bar-row\">\n      <text x=\"30\" y=\""@ + r.label_y@ + "\" class=\"label-service\">"@ + r.service@ + " "@ + r.endpoint@ + "</text>\n      <text x=\"30\" y=\""@ + r.desc_y@ + "\" class=\"label-role\">"@ + r.desc@ + " ["@ + r.engine@ + "]</text>\n      <rect x=\"360\" y=\""@ + r.rect_y@ + "\" width=\""@ + r.width@ + "\" height=\"28\" rx=\"4\" fill=\""@ + r.color@), "\" />\n      <text x=\""@, r.val_x@);
        assert(("\n    <g class=\"bar-row\">\n      <text x=\"30\" y=\""@ + r.label_y@ + "\" class=\"label-service\">"@ + r.service@ + " "@ + r.endpoint@ + "</text>\n      <text x=\"30\" y=\""@ + r.desc_y@ + "\" class=\"label-role\">"@ + r.desc@ + " ["@ + r.engine@ + "]</text>\n      <rect x=\"360\" y=\""@ + r.rect_y@ + "\" width=\""@ + r.width@ + "\" height=\"28\" rx=\"4\" fill=\""@ + r.color@) + ("\" />\n      <text x=\""@ + r.val_x@) == "\n    <g class=\"bar-row\">\n      <text x=\"30\" y=\""@ + r.label_y@ + "\" class=\"label-service\">"@ + r.service@ + " "@ + r.endpoint@ + "</text>\n      <text x=\"30\" y=\""@ + r.desc_y@ + "\" class=\"label-role\">"@ + r.desc@ + " ["@ + r.engine@ + "]</text>\n      <rect x=\"360\" y=\""@ + r.rect_y@ + "\" width=\""@ + r.width@ + "\" height=\"28\" rx=\"4\" fill=\""@ + r.color@ + "\" />\n      <text x=\""@ + r.val_x@);
        lemma_concat_associative(("\n    <g class=\"bar-row\">\n      <text x=\"30\" y=\""@ + r.label_y@ + "\" class=\"label-service\">"@ + r.service@ + " "@ + r.endpoint@ + "</text>\n      <text x=\"30\" y=\""@ + r.desc_y@ + "\" class=\"label-role\">"@ + r.desc@ + " ["@ + r.engine@ + "]</text>\n      <rect x=\"360\" y=\""@ + r.rect_y@ + "\" width=\""@ + r.width@ + "\" height=\"28\" rx=\"4\" fill=\""@ + r.color@), "\" />\n      <text x=\""@ + r.val_x@, "\" y=\""@);
        assert(("\n    <g class=\"bar-row\">\n      <text x=\"30\" y=\""@ + r.label_y@ + "\" class=\"label-service\">"@ + r.service@ + " "@ + r.endpoint@ + "</text>\n      <text x=\"30\" y=\""@ + r.desc_y@ + "\" class=\"label-role\">"@ + r.desc@ + " ["@ + r.engine@ + "]</text>\n      <rect x=\"360\" y=\""@ + r.rect_y@ + "\" width=\""@ + r.width@ + "\" height=\"28\" rx=\"4\" fill=\""@ + r.color@) + ("\" />\n      <text x=\""@ + r.val_x@ + "\" y=\""@) == "\n    <g class=\"bar-row\">\n      <text x=\"30\" y=\""@ + r.label_y@ + "\" class=\"label-service\">"@ + r.service@ + " "@ + r.endpoint@ + "</text>\n      <text x=\"30\" y=\""@ + r.desc_y@ + "\" class=\"label-role\">"@ + r.desc@ + " ["@ + r.engine@ + "]</text>\n      <rect x=\"360\" y=\""@ + r.rect_y@ + "\" width=\""@ + r.width@ + "\" height=\"28\" rx=\"4\" fill=\""@ + r.color@ + "\" />\n      <text x=\""@ + r.val_x@ + "\" y=\""@);
        lemma_concat_associative(("\n    <g class=\"bar-row\">\n      <text x=\"30\" y=\""@ + r.label_y@ + "\" class=\"label-service\">"@ + r.service@ + " "@ + r.endpoint@ + "</text>\n      <text x=\"30\" y=\""@ + r.desc_y@ + "\" class=\"label-role\">"@ + r.desc@ + " ["@ + r.engine@ + "]</text>\n      <rect x=\"360\" y=\""@ + r.rect_y@ + "\" width=\""@ + r.width@ + "\" height=\"28\" rx=\"4\" fill=\""@ + r.color@), "\" />\n      <text x=\""@ + r.val_x@ + "\" y=\""@, r.val_y@);
        assert(("\n    <g class=\"bar-row\">\n      <text x=\"30\" y=\""@ + r.label_y@ + "\" class=\"label-service\">"@ + r.service@ + " "@ + r.endpoint@ + "</text>\n      <text x=\"30\" y=\""@ + r.desc_y@ + "\" class=\"label-role\">"@ + r.desc@ + " ["@ + r.engine@ + "]</text>\n      <rect x=\"360\" y=\""@ + r.rect_y@ + "\" width=\""@ + r.width@ + "\" height=\"28\" rx=\"4\" fill=\""@ + r.color@) + ("\" />\n      <text x=\""@ + r.val_x@ + "\" y=\""@ + r.val_y@) == "\n    <g class=\"bar-row\">\n      <text x=\"30\" y=\""@ + r.label_y@ + "\" class=\"label-service\">"@ + r.service@ + " "@ + r.endpoint@ + "</text>\n      <text x=\"30\" y=\""@ + r.desc_y@ + "\" class=\"label-role\">"@ + r.desc@ + " ["@ + r.engine@ + "]</text>\n      <rect x=\"360\" y=\""@ + r.rect_y@ + "\" width=\""@ + r.width@ + "\" height=\"28\" rx=\"4\" fill=\""@ + r.color@ + "\" />\n      <text x=\""@ + r.val_x@ + "\" y=\""@ + r.val_y@);
        lemma_concat_associative(("\n    <g class=\"bar-row\">\n      <text x=\"30\" y=\""@ + r.label_y@ + "\" class=\"label-service\">"@ + r.service@ + " "@ + r.endpoint@ + "</text>\n      <text x=\"30\" y=\""@ + r.desc_y@ + "\" class=\"label-role\">"@ + r.desc@ + " ["@ + r.engine@ + "]</text>\n      <rect x=\"360\" y=\""@ + r.rect_y@ + "\" width=\""@ + r.width@ + "\" height=\"28\" rx=\"4\" fill=\""@ + r.color@), "\" />\n      <text x=\""@ + r.val_x@ + "\" y=\""@ + r.val_y@, "\" class=\"label-val\">"@);
        assert(("\n    <g class=\"bar-row\">\n      <text x=\"30\" y=\""@ + r.label_y@ + "\" class=\"label-service\">"@ + r.service@ + " "@ + r.endpoint@ + "</text>\n      <text x=\"30\" y=\""@ + r.desc_y@ + "\" class=\"label-role\">"@ + r.desc@ + " ["@ + r.engine@ + "]</text>\n      <rect x=\"360\" y=\""@ + r.rect_y@ + "\" width=\""@ + r.width@ + "\" height=\"28\" rx=\"4\" fill=\""@ + r.color@) + ("\" />\n      <text x=\""@ + r.val_x@ + "\" y=\""@ + r.val_y@ + "\" class=\"label-val\">"@) == "\n    <g class=\"bar-row\">\n      <text x=\"30\" y=\""@ + r.label_y@ + "\" class=\"label-service\">"@ + r.service@ + " "@ + r.endpoint@ + "</text>\n      <text x=\"30\" y=\""@ + r.desc_y@ + "\" class=\"label-role\">"@ + r.desc@ + " ["@ + r.engine@ + "]</text>\n      <rect x=\"360\" y=\""@ + r.rect_y@ + "\" width=\""@ + r.width@ + "\" height=\"28\" rx=\"4\" fill=\""@ + r.color@ + "\" />\n      <text x=\""@ + r.val_x@ + "\" y=\""@ + r.val_y@ + "\" class=\"label-val\">"@);
        lemma_concat_associative(("\n    <g class=\"bar-row\">\n      <text x=\"30\" y=\""@ + r.label_y@ + "\" class=\"label-service\">"@ + r.service@ + " "@ + r.endpoint@ + "</text>\n      <text x=\"30\" y=\""@ + r.desc_y@ + "\" class=\"label-role\">"@ + r.desc@ + " ["@ + r.engine@ + "]</text>\n      <rect x=\"360\" y=\""@ + r.rect_y@ + "\" width=\""@ + r.width@ + "\" height=\"28\" rx=\"4\" fill=\""@ + r.color@), "\" />\n      <text x=\""@ + r.val_x@ + "\" y=\""@ + r.val_y@ + "\" class=\"label-val\">"@, r.p50@);
        assert(("\n    <g class=\"bar-row\">\n      <text x=\"30\" y=\""@ + r.label_y@ + "\" class=\"label-service\">"@ + r.service@ + " "@ + r.endpoint@ + "</text>\n      <text x=\"30\" y=\""@ + r.desc_y@ + "\" class=\"label-role\">"@ + r.desc@ + " ["@ + r.engine@ + "]</text>\n      <rect x=\"360\" y=\""@ + r.rect_y@ + "\" width=\""@ + r.width@ + "\" height=\"28\" rx=\"4\" fill=\""@ + r.color@) + ("\" />\n      <text x=\""@ + r.val_x@ + "\" y=\""@ + r.val_y@ + "\" class=\"label-val\">"@ + r.p50@) == "\n    <g class=\"bar-row\">\n      <text x=\"30\" y=\""@ + r.label_y@ + "\" class=\"label-service\">"@ + r.service@ + " "@ + r.endpoint@ + "</text>\n      <text x=\"30\" y=\""@ + r.desc_y@ + "\" class=\"label-role\">"@ + r.desc@ + " ["@ + r.engine@ + "]</text>\n      <rect x=\"360\" y=\""@ + r.rect_y@ + "\" width=\""@ + r.width@ + "\" height=\"28\" rx=\"4\" fill=\""@ + r.color@ + "\" />\n      <text x=\""@ + r.val_x@ + "\" y=\""@ + r.val_y@ + "\" class=\"label-val\">"@ + r.p50@);
        lemma_concat_associative(("\n    <g class=\"bar-row\">\n      <text x=\"30\" y=\""@ + r.label_y@ + "\" class=\"label-service\">"@ + r.service@ + " "@ + r.endpoint@ + "</text>\n      <text x=\"30\" y=\""@ + r.desc_y@ + "\" class=\"label-role\">"@ + r.desc@ + " ["@ + r.engine@ + "]</text>\n      <rect x=\"360\" y=\""@ + r.rect_y@ + "\" width=\""@ + r.width@ + "\" height=\"28\" rx=\"4\" fill=\""@ + r.color@), "\" />\n      <text x=\""@ + r.val_x@ + "\" y=\""@ + r.val_y@ + "\" class=\"label-val\">"@ + r.p50@, " ms <tspan class=\"throughput\">("@);
        assert(("\n    <g class=\"bar-row\">\n      <text x=\"30\" y=\""@ + r.label_y@ + "\" class=\"label-service\">"@ + r.service@ + " "@ + r.endpoint@ + "</text>\n      <text x=\"30\" y=\""@ + r.desc_y@ + "\" class=\"label-role\">"@ + r.desc@ + " ["@ + r.engine@ + "]</text>\n      <rect x=\"360\" y=\""@ + r.rect_y@ + "\" width=\""@ + r.width@ + "\" height=\"28\" rx=\"4\" fill=\""@ + r.color@) + ("\" />\n      <text x=\""@ + r.val_x@ + "\" y=\""@ + r.val_y@ + "\" class=\"label-val\">"@ + r.p50@ + " ms <tspan class=\"throughput\">("@) == "\n    <g class=\"bar-row\">\n      <text x=\"30\" y=\""@ + r.label_y@ + "\" class=\"label-service\">"@ + r.service@ + " "@ + r.endpoint@ + "</text>\n      <text x=\"30\" y=\""@ + r.desc_y@ + "\" class=\"label-role\">"@ + r.desc@ + " ["@ + r.engine@ + "]</text>\n      <rect x=\"360\" y=\""@ + r.rect_y@ + "\" width=\""@ + r.width@ + "\" height=\"28\" rx=\"4\" fill=\""@ + r.color@ + "\" />\n      <text x=\""@ + r.val_x@ + "\" y=\""@ + r.val_y@ + "\" class=\"label-val\">"@ + r.p50@ + " ms <tspan class=\"throughput\">("@);
        lemma_concat_associative(("\n    <g class=\"bar-row\">\n      <text x=\"30\" y=\""@ + r.label_y@ + "\" class=\"label-service\">"@ + r.service@ + " "@ + r.endpoint@ + "</text>\n      <text x=\"30\" y=\""@ + r.desc_y@ + "\" class=\"label-role\">"@ + r.desc@ + " ["@ + r.engine@ + "]</text>\n      <rect x=\"360\" y=\""@ + r.rect_y@ + "\" width=\""@ + r.width@ + "\" height=\"28\" rx=\"4\" fill=\""@ + r.color@), "\" />\n      <text x=\""@ + r.val_x@ + "\" y=\""@ + r.val_y@ + "\" class=\"label-val\">"@ + r.p50@ + " ms <tspan class=\"throughput\">("@, r.rps@);
        assert(("\n    <g class=\"bar-row\">\n      <text x=\"30\" y=\""@ + r.label_y@ + "\" class=\"label-service\">"@ + r.service@ + " "@ + r.endpoint@ + "</text>\n      <text x=\"30\" y=\""@ + r.desc_y@ + "\" class=\"label-role\">"@ + r.desc@ + " ["@ + r.engine@ + "]</text>\n      <rect x=\"360\" y=\""@ + r.rect_y@ + "\" width=\""@ + r.width@ + "\" height=\"28\" rx=\"4\" fill=\""@ + r.color@) + ("\" />\n      <text x=\""@ + r.val_x@ + "\" y=\""@ + r.val_y@ + "\" class=\"label-val\">"@ + r.p50@ + " ms <tspan class=\"throughput\">("@ + r.rps@) == "\n    <g class=\"bar-row\">\n      <text x=\"30\" y=\""@ + r.label_y@ + "\" class=\"label-service\">"@ + r.service@ + " "@ + r.endpoint@ + "</text>\n      <text x=\"30\" y=\""@ + r.desc_y@ + "\" class=\"label-role\">"@ + r.desc@ + " ["@ + r.engine@ + "]</text>\n      <rect x=\"360\" y=\""@ + r.rect_y@ + "\" width=\""@ + r.width@ + "\" height=\"28\" rx=\"4\" fill=\""@ + r.color@ + "\" />\n      <text x=\""@ + r.val_x@ + "\" y=\""@ + r.val_y@ + "\" class=\"label-val\">"@ + r.p50@ + " ms <tspan class=\"throughput\">("@ + r.rps@);
        lemma_concat_associative(("\n    <g class=\"bar-row\">\n      <text x=\"30\" y=\""@ + r.label_y@ + "\" class=\"label-service\">"@ + r.service@ + " "@ + r.endpoint@ + "</text>\n      <text x=\"30\" y=\""@ + r.desc_y@ + "\" class=\"label-role\">"@ + r.desc@ + " ["@ + r.engine@ + "]</text>\n      <rect x=\"360\" y=\""@ + r.rect_y@ + "\" width=\""@ + r.width@ + "\" height=\"28\" rx=\"4\" fill=\""@ + r.color@), "\" />\n      <text x=\""@ + r.val_x@ + "\" y=\""@ + r.val_y@ + "\" class=\"label-val\">"@ + r.p50@ + " ms <tspan class=\"throughput\">("@ + r.rps@, " req/s)</tspan></text>\n    </g>"@);
        assert(("\n    <g class=\"bar-row\">\n      <text x=\"30\" y=\""@ + r.label_y@ + "\" class=\"label-service\">"@ + r.service@ + " "@ + r.endpoint@ + "</text>\n      <text x=\"30\" y=\""@ + r.desc_y@ + "\" class=\"label-role\">"@ + r.desc@ + " ["@ + r.engine@ + "]</text>\n      <rect x=\"360\" y=\""@ + r.rect_y@ + "\" width=\""@ + r.width@ + "\" height=\"28\" rx=\"4\" fill=\""@ + r.color@) + ("\" />\n      <text x=\""@ + r.val_x@ + "\" y=\""@ + r.val_y@ + "\" class=\"label-val\">"@ + r.p50@ + " ms <tspan class=\"throughput\">("@ + r.rps@ + " req/s)</tspan></text>\n    </g>"@) == "\n    <g class=\"bar-row\">\n      <text x=\"30\" y=\""@ + r.label_y@ + "\" class=\"label-service\">"@ + r.service@ + " "@ + r.endpoint@ + "</text>\n      <text x=\"30\" y=\""@ + r.desc_y@ + "\" class=\"label-role\">"@ + r.desc@ + " ["@ + r.engine@ + "]</text>\n      <rect x=\"360\" y=\""@ + r.rect_y@ + "\" width=\""@ + r.width@ + "\" height=\"28\" rx=\"4\" fill=\""@ + r.color@ + "\" />\n      <text x=\""@ + r.val_x@ + "\" y=\""@ + r.val_y@ + "\" class=\"label-val\">"@ + r.p50@ + " ms <tspan class=\"throughput\">("@ + r.rps@ + " req/s)</tspan></text>\n    </g>"@);
        lemma_contains_tail(("\n    <g class=\"bar-row\">\n      <text x=\"30\" y=\""@ + r.label_y@ + "\" class=\"label-service\">"@ + r.service@ + " "@ + r.endpoint@ + "</text>\n      <text x=\"30\" y=\""@ + r.desc_y@ + "\" class=\"label-role\">"@ + r.desc@ + " ["@ + r.engine@ + "]</text>\n      <rect x=\"360\" y=\""@ + r.rect_y@ + "\" width=\""@ + r.width@ + "\" height=\"28\" rx=\"4\" fill=\""@ + r.color@), "\" />\n      <text x=\""@ + r.val_x@ + "\" y=\""@ + r.val_y@ + "\" class=\"label-val\">"@ + r.p50@ + " ms <tspan class=\"throughput\">("@ + r.rps@ + " req/s)</tspan></text>\n    </g>"@);
    }
}

/// Each line of a like for like row carries its own fields in their places: the row holds every
/// line of its markup (from one line break to the next) with the record's fields inserted.
pub proof fn lemma_like_for_like_row_lines(r: LikeForLikeRowText)
    ensures
        contains_seq(
            like_for_like_row_text(r),
            "\n    <g class=\"lfl-row\">\n      <text x=\"30\" y=\""@
                + r.label_y@
                + "\" class=\"label-service\">"@
                + r.category@
                + ": "@
                + r.workload@
                + "</text>\n      <!-- Rust Bar -->\n      <text x=\"50\" y=\""@,
        ),
        contains_seq(
            like_for_like_row_text(r),
            "</text>\n      <!-- Rust Bar -->\n      <text x=\"50\" y=\""@
                + r.rust_y@
                + "\" class=\"label-lang-rust\">Rust Native:</text>\n      <rect x=\"180\" y=\""@,
        ),
        contains_seq(
            like_for_like_row_text(r),
            "\" class=\"label-lang-rust\">Rust Native:</text>\n      <rect x=\"180\" y=\""@
                + r.rust_rect_y@
                + "\" width=\""@
                + r.rust_w@
                + "\" height=\"18\" rx=\"3\" fill=\"#7fb8a6\" />\n      <text x=\""@,
        ),
        contains_seq(
            like_for_like_row_text(r),
            "\" height=\"18\" rx=\"3\" fill=\"#7fb8a6\" />\n      <text x=\""@
                + r.rust_val_x@
                + "\" y=\""@
                + r.rust_y@
                + "\" class=\"label-val\">"@
                + r.rust_p50@
                + " ms ("@
                + r.rust_rps@
                + " req/s)</text>\n\n      <!-- Python Bar -->\n      <text x=\"50\" y=\""@,
        ),
        contains_seq(
            like_for_like_row_text(r),
            " req/s)</text>\n\n      <!-- Python Bar -->\n      <text x=\"50\" y=\""@
                + r.py_y@
                + "\" class=\"label-lang-py\">CPython 3.12:</text>\n      <rect x=\"180\" y=\""@,
        ),
        contains_seq(
            like_for_like_row_text(r),
            "\" class=\"label-lang-py\">CPython 3.12:</text>\n      <rect x=\"180\" y=\""@
                + r.py_rect_y@
                + "\" width=\""@
                + r.py_w@
                + "\" height=\"18\" rx=\"3\" fill=\"#d7755d\" />\n      <text x=\""@,
        ),
        contains_seq(
            like_for_like_row_text(r),
            "\" height=\"18\" rx=\"3\" fill=\"#d7755d\" />\n      <text x=\""@
                + r.py_val_x@
                + "\" y=\""@
                + r.py_y@
                + "\" class=\"label-val\">"@
                + r.py_p50@
                + " ms ("@
                + r.py_rps@
                + " req/s)</text>\n\n      <!-- Badge -->\n      <text x=\"820\" y=\""@,
        ),
        contains_seq(
            like_for_like_row_text(r),
            " req/s)</text>\n\n      <!-- Badge -->\n      <text x=\"820\" y=\""@
                + r.badge_y@
                + "\" class=\"badge-speedup\">"@
                + r.speedup@
                + "x Faster</text>\n      <text x=\"820\" y=\""@,
        ),
        contains_seq(
            like_for_like_row_text(r),
            "x Faster</text>\n      <text x=\"820\" y=\""@
                + r.badge_mem_y@
                + "\" class=\"badge-mem\">(-"@
                + r.mem_pct@
                + "% RAM)</text>\n    </g>"@,
        ),
{
    assert(contains_seq(like_for_like_row_text(r), "\n    <g class=\"lfl-row\">\n      <text x=\"30\" y=\""@ + r.label_y@ + "\" class=\"label-service\">"@ + r.category@ + ": "@ + r.workload@ + "</text>\n      <!-- Rust Bar -->\n      <text x=\"50\" y=\""@)) by {
        lemma_contains_self("\n    <g class=\"lfl-row\">\n      <text x=\"30\" y=\""@ + r.label_y@ + "\" class=\"label-service\">"@ + r.category@ + ": "@ + r.workload@ + "</text>\n      <!-- Rust Bar -->\n      <text x=\"50\" y=\""@);
        lemma_contains_extend("\n    <g class=\"lfl-row\">\n      <text x=\"30\" y=\""@ + r.label_y@ + "\" class=\"label-service\">"@ + r.category@ + ": "@ + r.workload@ + "</text>\n      <!-- Rust Bar -->\n      <text x=\"50\" y=\""@, r.rust_y@, "\n    <g class=\"lfl-row\">\n      <text x=\"30\" y=\""@ + r.label_y@ + "\" class=\"label-service\">"@ + r.category@ + ": "@ + r.workload@ + "</text>\n      <!-- Rust Bar -->\n      <text x=\"50\" y=\""@);
        lemma_contains_extend("\n    <g class=\"lfl-row\">\n      <text x=\"30\" y=\""@ + r.label_y@ + "\" class=\"label-service\">"@ + r.category@ + ": "@ + r.workload@ + "</text>\n      <!-- Rust Bar -->\n      <text x=\"50\" y=\""@ + r.rust_y@, "\" class=\"label-lang-rust\">Rust Native:</text>\n      <rect x=\"180\" y=\""@, "\n    <g class=\"lfl-row\">\n      <text x=\"30\" y=\""@ + r.label_y@ + "\" class=\"label-service\">"@ + r.category@ + ": "@ + r.workload@ + "</text>\n      <!-- Rust Bar -->\n      <text x=\"50\" y=\""@);
        lemma_contains_extend("\n    <g class=\"lfl-row\">\n      <text x=\"30\" y=\""@ + r.label_y@ + "\" class=\"label-service\">"@ + r.category@ + ": "@ + r.workload@ + "</text>\n      <!-- Rust Bar -->\n      <text x=\"50\" y=\""@ + r.rust_y@ + "\" class=\"label-lang-rust\">Rust Native:</text>\n      <rect x=\"180\" y=\""@, r.rust_rect_y@, "\n    <g class=\"lfl-row\">\n      <text x=\"30\" y=\""@ + r.label_y@ + "\" class=\"label-service\">"@ + r.category@ + ": "@ + r.workload@ + "</text>\n      <!-- Rust Bar -->\n      <text x=\"50\" y=\""@);
        lemma_contains_extend("\n    <g class=\"lfl-row\">\n      <text x=\"30\" y=\""@ + r.label_y@ + "\" class=\"label-service\">"@ + r.category@ + ": "@ + r.workload@ + "</text>\n      <!-- Rust Bar -->\n      <text x=\"50\" y=\""@ + r.rust_y@ + "\" class=\"label-lang-rust\">Rust Native:</text>\n      <rect x=\"180\" y=\""@ + r.rust_rect_y@, "\" width=\""@, "\n    <g class=\"lfl-row\">\n      <text x=\"30\" y=\""@ + r.label_y@ + "\" class=\"label-service\">"@ + r.category@ + ": "@ + r.workload@ + "</text>\n      <!-- Rust Bar -->\n      <text x=\"50\" y=\""@);
        lemma_contains_extend("\n    <g class=\"lfl-row\">\n      <text x=\"30\" y=\""@ + r.label_y@ + "\" class=\"label-service\">"@ + r.category@ + ": "@ + r.workload@ + "</text>\n      <!-- Rust Bar -->\n      <text x=\"50\" y=\""@ + r.rust_y@ + "\" class=\"label-lang-rust\">Rust Native:</text>\n      <rect x=\"180\" y=\""@ + r.rust_rect_y@ + "\" width=\""@, r.rust_w@, "\n    <g class=\"lfl-row\">\n      <text x=\"30\" y=\""@ + r.label_y@ + "\" class=\"label-service\">"@ + r.category@ + ": "@ + r.workload@ + "</text>\n      <!-- Rust Bar -->\n      <text x=\"50\" y=\""@);
        lemma_contains_extend("\n    <g class=\"lfl-row\">\n      <text x=\"30\" y=\""@ + r.label_y@ + "\" class=\"label-service\">"@ + r.category@ + ": "@ + r.workload@ + "</text>\n      <!-- Rust Bar -->\n      <text x=\"50\" y=\""@ + r.rust_y@ + "\" class=\"label-lang-rust\">Rust Native:</text>\n      <rect x=\"180\" y=\""@ + r.rust_rect_y@ + "\" width=\""@ + r.rust_w@, "\" height=\"18\" rx=\"3\" fill=\"#7fb8a6\" />\n      <text x=\""@, "\n    <g class=\"lfl-row\">\n      <text x=\"30\" y=\""@ + r.label_y@ + "\" class=\"label-service\">"@ + r.category@ + ": "@ + r.workload@ + "</text>\n      <!-- Rust Bar -->\n      <text x=\"50\" y=\""@);
        lemma_contains_extend("\n    <g class=\"lfl-row\">\n      <text x=\"30\" y=\""@ + r.label_y@ + "\" class=\"label-service\">"@ + r.category@ + ": "@ + r.workload@ + "</text>\n      <!-- Rust Bar -->\n      <text x=\"50\" y=\""@ + r.rust_y@ + "\" class=\"label-lang-rust\">Rust Native:</text>\n      <rect x=\"180\" y=\""@ + r.rust_rect_y@ + "\" width=\""@ + r.rust_w@ + "\" height=\"18\" rx=\"3\" fill=\"#7fb8a6\" />\n      <text x=\""@, r.rust_val_x@, "\n    <g class=\"lfl-row\">\n      <text x=\"30\" y=\""@ + r.label_y@ + "\" class=\"label-service\">"@ + r.category@ + ": "@ + r.workload@ + "</text>\n      <!-- Rust Bar -->\n      <text x=\"50\" y=\""@);
        lemma_contains_extend("\n    <g class=\"lfl-row\">\n      <text x=\"30\" y=\""@ + r.label_y@ + "\" class=\"label-service\">"@ + r.category@ + ": "@ + r.workload@ + "</text>\n      <!-- Rust Bar -->\n      <text x=\"50\" y=\""@ + r.rust_y@ + "\" class=\"label-lang-rust\">Rust Native:</text>\n      <rect x=\"180\" y=\""@ + r.rust_rect_y@ + "\" width=\""@ + r.rust_w@ + "\" height=\"18\" rx=\"3\" fill=\"#7fb8a6\" />\n      <text x=\""@ + r.rust_val_x@, "\" y=\""@, "\n    <g class=\"lfl-row\">\n      <text x=\"30\" y=\""@ + r.label_y@ + "\" class=\"label-service\">"@ + r.category@ + ": "@ + r.workload@ + "</text>\n      <!-- Rust Bar -->\n      <text x=\"50\" y=\""@);
        lemma_contains_extend("\n    <g class=\"lfl-row\">\n      <text x=\"30\" y=\""@ + r.label_y@ + "\" class=\"label-service\">"@ + r.category@ + ": "@ + r.workload@ + "</text>\n      <!-- Rust Bar -->\n      <text x=\"50\" y=\""@ + r.rust_y@ + "\" class=\"label-lang-rust\">Rust Native:</text>\n      <rect x=\"180\" y=\""@ + r.rust_rect_y@ + "\" width=\""@ + r.rust_w@ + "\" height=\"18\" rx=\"3\" fill=\"#7fb8a6\" />\n      <text x=\""@ + r.rust_val_x@ + "\" y=\""@, r.rust_y@, "\n    <g class=\"lfl-row\">\n      <text x=\"30\" y=\""@ + r.label_y@ + "\" class=\"label-service\">"@ + r.category@ + ": "@ + r.workload@ + "</text>\n      <!-- Rust Bar -->\n      <text x=\"50\" y=\""@);
        lemma_contains_extend("\n    <g class=\"lfl-row\">\n      <text x=\"30\" y=\""@ + r.label_y@ + "\" class=\"label-service\">"@ + r.category@ + ": "@ + r.workload@ + "</text>\n      <!-- Rust Bar -->\n      <text x=\"50\" y=\""@ + r.rust_y@ + "\" class=\"label-lang-rust\">Rust Native:</text>\n      <rect x=\"180\" y=\""@ + r.rust_rect_y@ + "\" width=\""@ + r.rust_w@ + "\" height=\"18\" rx=\"3\" fill=\"#7fb8a6\" />\n      <text x=\""@ + r.rust_val_x@ + "\" y=\""@ + r.rust_y@, "\" class=\"label-val\">"@, "\n    <g class=\"lfl-row\">\n      <text x=\"30\" y=\""@ + r.label_y@ + "\" class=\"label-service\">"@ + r.category@ + ": "@ + r.workload@ + "</text>\n      <!-- Rust Bar -->\n      <text x=\"50\" y=\""@);
        lemma_contains_extend("\n    <g class=\"lfl-row\">\n      <text x=\"30\" y=\""@ + r.label_y@ + "\" class=\"label-service\">"@ + r.category@ + ": "@ + r.workload@ + "</text>\n      <!-- Rust Bar -->\n      <text x=\"50\" y=\""@ + r.rust_y@ + "\" class=\"label-lang-rust\">Rust Native:</text>\n      <rect x=\"180\" y=\""@ + r.rust_rect_y@ + "\" width=\""@ + r.rust_w@ + "\" height=\"18\" rx=\"3\" fill=\"#7fb8a6\" />\n      <text x=\""@ + r.rust_val_x@ + "\" y=\""@ + r.rust_y@ + "\" class=\"label-val\">"@, r.rust_p50@, "\n    <g class=\"lfl-row\">\n      <text x=\"30\" y=\""@ + r.label_y@ + "\" class=\"label-service\">"@ + r.category@ + ": "@ + r.workload@ + "</text>\n      <!-- Rust Bar -->\n      <text x=\"50\" y=\""@);
        lemma_contains_extend("\n    <g class=\"lfl-row\">\n      <text x=\"30\" y=\""@ + r.label_y@ + "\" class=\"label-service\">"@ + r.category@ + ": "@ + r.workload@ + "</text>\n      <!-- Rust Bar -->\n      <text x=\"50\" y=\""@ + r.rust_y@ + "\" class=\"label-lang-rust\">Rust Native:</text>\n      <rect x=\"180\" y=\""@ + r.rust_rect_y@ + "\" width=\""@ + r.rust_w@ + "\" height=\"18\" rx=\"3\" fill=\"#7fb8a6\" />\n      <text x=\""@ + r.rust_val_x@ + "\" y=\""@ + r.rust_y@ + "\" class=\"label-val\">"@ + r.rust_p50@, " ms ("@, "\n    <g class=\"lfl-row\">\n      <text x=\"30\" y=\""@ + r.label_y@ + "\" class=\"label-service\">"@ + r.category@ + ": "@ + r.workload@ + "</text>\n      <!-- Rust Bar -->\n      <text x=\"50\" y=\""@);
        lemma_contains_extend("\n    <g class=\"lfl-row\">\n      <text x=\"30\" y=\""@ + r.label_y@ + "\" class=\"label-service\">"@ + r.category@ + ": "@ + r.workload@ + "</text>\n      <!-- Rust Bar -->\n      <text x=\"50\" y=\""@ + r.rust_y@ + "\" class=\"label-lang-rust\">Rust Native:</text>\n      <rect x=\"180\" y=\""@ + r.rust_rect_y@ + "\" width=\""@ + r.rust_w@ + "\" height=\"18\" rx=\"3\" fill=\"#7fb8a6\" />\n      <text x=\""@ + r.rust_val_x@ + "\" y=\""@ + r.rust_y@ + "\" class=\"label-val\">"@ + r.rust_p50@ + " ms ("@, r.rust_rps@, "\n    <g class=\"lfl-row\">\n      <text x=\"30\" y=\""@ + r.label_y@ + "\" class=\"label-service\">"@ + r.category@ + ": "@ + r.workload@ + "</text>\n      <!-- Rust Bar -->\n      <text x=\"50\" y=\""@);
        lemma_contains_extend("\n    <g class=\"lfl-row\">\n      <text x=\"30\" y=\""@ + r.label_y@ + "\" class=\"label-service\">"@ + r.category@ + ": "@ + r.workload@ + "</text>\n      <!-- Rust Bar -->\n      <text x=\"50\" y=\""@ + r.rust_y@ + "\" class=\"label-lang-rust\">Rust Native:</text>\n      <rect x=\"180\" y=\""@ + r.rust_rect_y@ + "\" width=\""@ + r.rust_w@ + "\" height=\"18\" rx=\"3\" fill=\"#7fb8a6\" />\n      <text x=\""@ + r.rust_val_x@ + "\" y=\""@ + r.rust_y@ + "\" class=\"label-val\">"@ + r.rust_p50@ + " ms ("@ + r.rust_rps@, " req/s)</text>\n\n      <!-- Python Bar -->\n      <text x=\"50\" y=\""@, "\n    <g class=\"lfl-row\">\n      <text x=\"30\" y=\""@ + r.label_y@ + "\" class=\"label-service\">"@ + r.category@ + ": "@ + r.workload@ + "</text>\n      <!-- Rust Bar -->\n      <text x=\"50\" y=\""@);
        lemma_contains_extend("\n    <g class=\"lfl-row\">\n      <text x=\"30\" y=\""@ + r.label_y@ + "\" class=\"label-service\">"@ + r.category@ + ": "@ + r.workload@ + "</text>\n      <!-- Rust Bar -->\n      <text x=\"50\" y=\""@ + r.rust_y@ + "\" class=\"label-lang-rust\">Rust Native:</text>\n      <rect x=\"180\" y=\""@ + r.rust_rect_y@ + "\" width=\""@ + r.rust_w@ + "\" height=\"18\" rx=\"3\" fill=\"#7fb8a6\" />\n      <text x=\""@ + r.rust_val_x@ + "\" y=\""@ + r.rust_y@ + "\" class=\"label-val\">"@ + r.rust_p50@ + " ms ("@ + r.rust_rps@ + " req/s)</text>\n\n      <!-- Python Bar -->\n      <text x=\"50\" y=\""@, r.py_y@, "\n    <g class=\"lfl-row\">\n      <text x=\"30\" y=\""@ + r.label_y@ + "\" class=\"label-service\">"@ + r.category@ + ": "@ + r.workload@ + "</text>\n      <!-- Rust Bar -->\n      <text x=\"50\" y=\""@);
        lemma_contains_extend("\n    <g class=\"lfl-row\">\n      <text x=\"30\" y=\""@ + r.label_y@ + "\" class=\"label-service\">"@ + r.category@ + ": "@ + r.workload@ + "</text>\n      <!-- Rust Bar -->\n      <text x=\"50\" y=\""@ + r.rust_y@ + "\" class=\"label-lang-rust\">Rust Native:</text>\n      <rect x=\"180\" y=\""@ + r.rust_rect_y@ + "\" width=\""@ + r.rust_w@ + "\" height=\"18\" rx=\"3\" fill=\"#7fb8a6\" />\n      <text x=\""@ + r.rust_val_x@ + "\" y=\""@ + r.rust_y@ + "\" class=\"label-val\">"@ + r.rust_p50@ + " ms ("@ + r.rust_rps@ + " req/s)</text>\n\n      <!-- Python Bar -->\n      <text x=\"50\" y=\""@ + r.py_y@, "\" class=\"label-lang-py\">CPython 3.12:</text>\n      <rect x=\"180\" y=\""@, "\n    <g class=\"lfl-row\">\n      <text x=\"30\" y=\""@ + r.label_y@ + "\" class=\"label-service\">"@ + r.category@ + ": "@ + r.workload@ + "</text>\n      <!-- Rust Bar -->\n      <text x=\"50\" y=\""@);
        lemma_contains_extend("\n    <g class=\"lfl-row\">\n      <text x=\"30\" y=\""@ + r.label_y@ + "\" class=\"label-service\">"@ + r.category@ + ": "@ + r.workload@ + "</text>\n      <!-- Rust Bar -->\n      <text x=\"50\" y=\""@ + r.rust_y@ + "\" class=\"label-lang-rust\">Rust Native:</text>\n      <rect x=\"180\" y=\""@ + r.rust_rect_y@ + "\" width=\""@ + r.rust_w@ + "\" height=\"18\" rx=\"3\" fill=\"#7fb8a6\" />\n      <text x=\""@ + r.rust_val_x@ + "\" y=\""@ + r.rust_y@ + "\" class=\"label-val\">"@ + r.rust_p50@ + " ms ("@ + r.rust_rps@ + " req/s)</text>\n\n      <!-- Python Bar -->\n      <text x=\"50\" y=\""@ + r.py_y@ + "\" class=\"label-lang-py\">CPython 3.12:</text>\n      <rect x=\"180\" y=\""@, r.py_rect_y@, "\n    <g class=\"lfl-row\">\n      <text x=\"30\" y=\""@ + r.label_y@ + "\" class=\"label-service\">"@ + r.category@ + ": "@ + r.workload@ + "</text>\n      <!-- Rust Bar -->\n      <text x=\"50\" y=\""@);
        lemma_contains_extend("\n    <g class=\"lfl-row\">\n      <text x=\"30\" y=\""@ + r.label_y@ + "\" class=\"label-service\">"@ + r.category@ + ": "@ + r.workload@ + "</text>\n      <!-- Rust Bar -->\n      <text x=\"50\" y=\""@ + r.rust_y@ + "\" class=\"label-lang-rust\">Rust Native:</text>\n      <rect x=\"180\" y=\""@ + r.rust_rect_y@ + "\" width=\""@ + r.rust_w@ + "\" height=\"18\" rx=\"3\" fill=\"#7fb8a6\" />\n      <text x=\""@ + r.rust_val_x@ + "\" y=\""@ + r.rust_y@ + "\" class=\"label-val\">"@ + r.rust_p50@ + " ms ("@ + r.rust_rps@ + " req/s)</text>\n\n      <!-- Python Bar -->\n      <text x=\"50\" y=\""@ + r.py_y@ + "\" class=\"label-lang-py\">CPython 3.12:</text>\n      <rect x=\"180\" y=\""@ + r.py_rect_y@, "\" width=\""@, "\n    <g class=\"lfl-row\">\n      <text x=\"30\" y=\""@ + r.label_y@ + "\" class=\"label-service\">"@ + r.category@ + ": "@ + r.workload@ + "</text>\n      <!-- Rust Bar -->\n      <text x=\"50\" y=\""@);
        lemma_contains_extend("\n    <g class=\"lfl-row\">\n      <text x=\"30\" y=\""@ + r.label_y@ + "\" class=\"label-service\">"@ + r.category@ + ": "@ + r.workload@ + "</text>\n      <!-- Rust Bar -->\n      <text x=\"50\" y=\""@ + r.rust_y@ + "\" class=\"label-lang-rust\">Rust Native:</text>\n      <rect x=\"180\" y=\""@ + r.rust_rect_y@ + "\" width=\""@ + r.rust_w@ + "\" height=\"18\" rx=\"3\" fill=\"#7fb8a6\" />\n      <text x=\""@ + r.rust_val_x@ + "\" y=\""@ + r.rust_y@ + "\" class=\"label-val\">"@ + r.rust_p50@ + " ms ("@ + r.rust_rps@ + " req/s)</text>\n\n      <!-- Python Bar -->\n      <text x=\"50\" y=\""@ + r.py_y@ + "\" class=\"label-lang-py\">CPython 3.12:</text>\n      <rect x=\"180\" y=\""@ + r.py_rect_y@ + "\" width=\""@, r.py_w@, "\n    <g class=\"lfl-row\">\n      <text x=\"30\" y=\""@ + r.label_y@ + "\" class=\"label-service\">"@ + r.category@ + ": "@ + r.workload@ + "</text>\n      <!-- Rust Bar -->\n      <text x=\"50\" y=\""@);
        lemma_contains_extend("\n    <g class=\"lfl-row\">\n      <text x=\"30\" y=\""@ + r.label_y@ + "\" class=\"label-service\">"@ + r.category@ + ": "@ + r.workload@ + "</text>\n      <!-- Rust Bar -->\n      <text x=\"50\" y=\""@ + r.rust_y@ + "\" class=\"label-lang-rust\">Rust Native:</text>\n      <rect x=\"180\" y=\""@ + r.rust_rect_y@ + "\" width=\""@ + r.rust_w@ + "\" height=\"18\" rx=\"3\" fill=\"#7fb8a6\" />\n      <text x=\""@ + r.rust_val_x@ + "\" y=\""@ + r.rust_y@ + "\" class=\"label-val\">"@ + r.rust_p50@ + " ms ("@ + r.rust_rps@ + " req/s)</text>\n\n      <!-- Python Bar -->\n      <text x=\"50\" y=\""@ + r.py_y@ + "\" class=\"label-lang-py\">CPython 3.12:</text>\n      <rect x=\"180\" y=\""@ + r.py_rect_y@ + "\" width=\""@ + r.py_w@, "\" height=\"18\" rx=\"3\" fill=\"#d7755d\" />\n      <text x=\""@, "\n    <g class=\"lfl-row\">\n      <text x=\"30\" y=\""@ + r.label_y@ + "\" class=\"label-service\">"@ + r.category@ + ": "@ + r.workload@ + "</text>\n      <!-- Rust Bar -->\n      <text x=\"50\" y=\""@);
        lemma_contains_extend("\n    <g class=\"lfl-row\">\n      <text x=\"30\" y=\""@ + r.label_y@ + "\" class=\"label-service\">"@ + r.category@ + ": "@ + r.workload@ + "</text>\n      <!-- Rust Bar -->\n      <text x=\"50\" y=\""@ + r.rust_y@ + "\" class=\"label-lang-rust\">Rust Native:</text>\n      <rect x=\"180\" y=\""@ + r.rust_rect_y@ + "\" width=\""@ + r.rust_w@ + "\" height=\"18\" rx=\"3\" fill=\"#7fb8a6\" />\n      <text x=\""@ + r.rust_val_x@ + "\" y=\""@ + r.rust_y@ + "\" class=\"label-val\">"@ + r.rust_p50@ + " ms ("@ + r.rust_rps@ + " req/s)</text>\n\n      <!-- Python Bar -->\n      <text x=\"50\" y=\""@ + r.py_y@ + "\" class=\"label-lang-py\">CPython 3.12:</text>\n      <rect x=\"180\" y=\""@ + r.py_rect_y@ + "\" width=\""@ + r.py_w@ + "\" height=\"18\" rx=\"3\" fill=\"#d7755d\" />\n      <text x=\""@, r.py_val_x@, "\n    <g class=\"lfl-row\">\n      <text x=\"30\" y=\""@ + r.label_y@ + "\" class=\"label-service\">"@ + r.category@ + ": "@ + r.workload@ + "</text>\n      <!-- Rust Bar -->\n      <text x=\"50\" y=\""@);
        lemma_contains_extend("\n    <g class=\"lfl-row\">\n      <text x=\"30\" y=\""@ + r.label_y@ + "\" class=\"label-service\">"@ + r.category@ + ": "@ + r.workload@ + "</text>\n      <!-- Rust Bar -->\n      <text x=\"50\" y=\""@ + r.rust_y@ + "\" class=\"label-lang-rust\">Rust Native:</text>\n      <rect x=\"180\" y=\""@ + r.rust_rect_y@ + "\" width=\""@ + r.rust_w@ + "\" height=\"18\" rx=\"3\" fill=\"#7fb8a6\" />\n      <text x=\""@ + r.rust_val_x@ + "\" y=\""@ + r.rust_y@ + "\" class=\"label-val\">"@ + r.rust_p50@ + " ms ("@ + r.rust_rps@ + " req/s)</text>\n\n      <!-- Python Bar -->\n      <text x=\"50\" y=\""@ + r.py_y@ + "\" class=\"label-lang-py\">CPython 3.12:</text>\n      <rect x=\"180\" y=\""@ + r.py_rect_y@ + "\" width=\""@ + r.py_w@ + "\" height=\"18\" rx=\"3\" fill=\"#d7755d\" />\n      <text x=\""@ + r.py_val_x@, "\" y=\""@, "\n    <g class=\"lfl-row\">\n      <text x=\"30\" y=\""@ + r.label_y@ + "\" class=\"label-service\">"@ + r.category@ + ": "@ + r.workload@ + "</text>\n      <!-- Rust Bar -->\n      <text x=\"50\" y=\""@);
        lemma_contains_extend("\n    <g class=\"lfl-row\">\n      <text x=\"30\" y=\""@ + r.label_y@ + "\" class=\"label-service\">"@ + r.category@ + ": "@ + r.workload@ + "</text>\n      <!-- Rust Bar -->\n      <text x=\"50\" y=\""@ + r.rust_y@ + "\" class=\"label-lang-rust\">Rust Native:</text>\n      <rect x=\"180\" y=\""@ + r.rust_rect_y@ + "\" width=\""@ + r.rust_w@ + "\" height=\"18\" rx=\"3\" fill=\"#7fb8a6\" />\n      <text x=\""@ + r.rust_val_x@ + "\" y=\""@ + r.rust_y@ + "\" class=\"label-val\">"@ + r.rust_p50@ + " ms ("@ + r.rust_rps@ + " req/s)</text>\n\n      <!-- Python Bar -->\n      <text x=\"50\" y=\""@ + r.py_y@ + "\" class=\"label-lang-py\">CPython 3.12:</text>\n      <rect x=\"180\" y=\""@ + r.py_rect_y@ + "\" width=\""@ + r.py_w@ + "\" height=\"18\" rx=\"3\" fill=\"#d7755d\" />\n      <text x=\""@ + r.py_val_x@ + "\" y=\""@, r.py_y@, "\n    <g class=\"lfl-row\">\n      <text x=\"30\" y=\""@ + r.label_y@ + "\" class=\"label-service\">"@ + r.category@ + ": "@ + r.workload@ + "</text>\n      <!-- Rust Bar -->\n      <text x=\"50\" y=\""@);
        lemma_contains_extend("\n    <g class=\"lfl-row\">\n      <text x=\"30\" y=\""@ + r.label_y@ + "\" class=\"label-service\">"@ + r.category@ + ": "@ + r.workload@ + "</text>\n      <!-- Rust Bar -->\n      <text x=\"50\" y=\""@ + r.rust_y@ + "\" class=\"label-lang-rust\">Rust Native:</text>\n      <rect x=\"180\" y=\""@ + r.rust_rect_y@ + "\" width=\""@ + r.rust_w@ + "\" height=\"18\" rx=\"3\" fill=\"#7fb8a6\" />\n      <text x=\""@ + r.rust_val_x@ + "\" y=\""@ + r.rust_y@ + "\" class=\"label-val\">"@ + r.rust_p50@ + " ms ("@ + r.rust_rps@ + " req/s)</text>\n\n      <!-- Python Bar -->\n      <text x=\"50\" y=\""@ + r.py_y@ + "\" class=\"label-lang-py\">CPython 3.12:</text>\n      <rect x=\"180\" y=\""@ + r.py_rect_y@ + "\" width=\""@ + r.py_w@ + "\" height=\"18\" rx=\"3\" fill=\"#d7755d\" />\n      <text x=\""@ + r.py_val_x@ + "\" y=\""@ + r.py_y@, "\" class=\"label-val\">"@, "\n    <g class=\"lfl-row\">\n      <text x=\"30\" y=\""@ + r.label_y@ + "\" class=\"label-service\">"@ + r.category@ + ": "@ + r.workload@ + "</text>\n      <!-- Rust Bar -->\n      <text x=\"50\" y=\""@);
        lemma_contains_extend("\n    <g class=\"lfl-row\">\n      <text x=\"30\" y=\""@ + r.label_y@ + "\" class=\"label-service\">"@ + r.category@ + ": "@ + r.workload@ + "</text>\n      <!-- Rust Bar -->\n      <text x=\"50\" y=\""@ + r.rust_y@ + "\" class=\"label-lang-rust\">Rust Native:</text>\n      <rect x=\"180\" y=\""@ + r.rust_rect_y@ + "\" width=\""@ + r.rust_w@ + "\" height=\"18\" rx=\"3\" fill=\"#7fb8a6\" />\n      <text x=\""@ + r.rust_val_x@ + "\" y=\""@ + r.rust_y@ + "\" class=\"label-val\">"@ + r.rust_p50@ + " ms ("@ + r.rust_rps@ + " req/s)</text>\n\n      <!-- Python Bar -->\n      <text x=\"50\" y=\""@ + r.py_y@ + "\" class=\"label-lang-py\">CPython 3.12:</text>\n      <rect x=\"180\" y=\""@ + r.py_rect_y@ + "\" width=\""@ + r.py_w@ + "\" height=\"18\" rx=\"3\" fill=\"#d7755d\" />\n      <text x=\""@ + r.py_val_x@ + "\" y=\""@ + r.py_y@ + "\" class=\"label-val\">"@, r.py_p50@, "\n    <g class=\"lfl-row\">\n      <text x=\"30\" y=\""@ + r.label_y@ + "\" class=\"label-service\">"@ + r.category@ + ": "@ + r.workload@ + "</text>\n      <!-- Rust Bar -->\n      <text x=\"50\" y=\""@);
        lemma_contains_extend("\n    <g class=\"lfl-row\">\n      <text x=\"30\" y=\""@ + r.label_y@ + "\" class=\"label-service\">"@ + r.category@ + ": "@ + r.workload@ + "</text>\n      <!-- Rust Bar -->\n      <text x=\"50\" y=\""@ + r.rust_y@ + "\" class=\"label-lang-rust\">Rust Native:</text>\n      <rect x=\"180\" y=\""@ + r.rust_rect_y@ + "\" width=\""@ + r.rust_w@ + "\" height=\"18\" rx=\"3\" fill=\"#7fb8a6\" />\n      <text x=\""@ + r.rust_val_x@ + "\" y=\""@ + r.rust_y@ + "\" class=\"label-val\">"@ + r.rust_p50@ + " ms ("@ + r.rust_rps@ + " req/s)</text>\n\n      <!-- Python Bar -->\n      <text x=\"50\" y=\""@ + r.py_y@ + "\" class=\"label-lang-py\">CPython 3.12:</text>\n      <rect x=\"180\" y=\""@ + r.py_rect_y@ + "\" width=\""@ + r.py_w@ + "\" height=\"18\" rx=\"3\" fill=\"#d7755d\" />\n      <text x=\""@ + r.py_val_x@ + "\" y=\""@ + r.py_y@ + "\" class=\"label-val\">"@ + r.py_p50@, " ms ("@, "\n    <g class=\"lfl-row\">\n      <text x=\"30\" y=\""@ + r.label_y@ + "\" class=\"label-service\">"@ + r.category@ + ": "@ + r.workload@ + "</text>\n      <!-- Rust Bar -->\n      <text x=\"50\" y=\""@);
        lemma_contains_extend("\n    <g class=\"lfl-row\">\n      <text x=\"30\" y=\""@ + r.label_y@ + "\" class=\"label-service\">"@ + r.category@ + ": "@ + r.workload@ + "</text>\n      <!-- Rust Bar -->\n      <text x=\"50\" y=\""@ + r.rust_y@ + "\" class=\"label-lang-rust\">Rust Native:</text>\n      <rect x=\"180\" y=\""@ + r.rust_rect_y@ + "\" width=\""@ + r.rust_w@ + "\" height=\"18\" rx=\"3\" fill=\"#7fb8a6\" />\n      <text x=\""@ + r.rust_val_x@ + "\" y=\""@ + r.rust_y@ + "\" class=\"label-val\">"@ + r.rust_p50@ + " ms ("@ + r.rust_rps@ + " req/s)</text>\n\n      <!-- Python Bar -->\n      <text x=\"50\" y=\""@ + r.py_y@ + "\" class=\"label-lang-py\">CPython 3.12:</text>\n      <rect x=\"180\" y=\""@ + r.py_rect_y@ + "\" width=\""@ + r.py_w@ + "\" height=\"18\" rx=\"3\" fill=\"#d7755d\" />\n      <text x=\""@ + r.py_val_x@ + "\" y=\""@ + r.py_y@ + "\" class=\"label-val\">"@ + r.py_p50@ + " ms ("@, r.py_rps@, "\n    <g class=\"lfl-row\">\n      <text x=\"30\" y=\""@ + r.label_y@ + "\" class=\"label-service\">"@ + r.category@ + ": "@ + r.workload@ + "</text>\n      <!-- Rust Bar -->\n      <text x=\"50\" y=\""@);
        lemma_contains_extend("\n    <g class=\"lfl-row\">\n      <text x=\"30\" y=\""@ + r.label_y@ + "\" class=\"label-service\">"@ + r.category@ + ": "@ + r.workload@ + "</text>\n      <!-- Rust Bar -->\n      <text x=\"50\" y=\""@ + r.rust_y@ + "\" class=\"label-lang-rust\">Rust Native:</text>\n      <rect x=\"180\" y=\""@ + r.rust_rect_y@ + "\" width=\""@ + r.rust_w@ + "\" height=\"18\" rx=\"3\" fill=\"#7fb8a6\" />\n      <text x=\""@ + r.rust_val_x@ + "\" y=\""@ + r.rust_y@ + "\" class=\"label-val\">"@ + r.rust_p50@ + " ms ("@ + r.rust_rps@ + " req/s)</text>\n\n      <!-- Python Bar -->\n      <text x=\"50\" y=\""@ + r.py_y@ + "\" class=\"label-lang-py\">CPython 3.12:</text>\n      <rect x=\"180\" y=\""@ + r.py_rect_y@ + "\" width=\""@ + r.py_w@ + "\" height=\"18\" rx=\"3\" fill=\"#d7755d\" />\n      <text x=\""@ + r.py_val_x@ + "\" y=\""@ + r.py_y@ + "\" class=\"label-val\">"@ + r.py_p50@ + " ms ("@ + r.py_rps@, " req/s)</text>\n\n      <!-- Badge -->\n      <text x=\"820\" y=\""@, "\n    <g class=\"lfl-row\">\n      <text x=\"30\" y=\""@ + r.label_y@ + "\" class=\"label-service\">"@ + r.category@ + ": "@ + r.workload@ + "</text>\n      <!-- Rust Bar -->\n      <text x=\"50\" y=\""@);
        lemma_contains_extend("\n    <g class=\"lfl-row\">\n      <text x=\"30\" y=\""@ + r.label_y@ + "\" class=\"label-service\">"@ + r.category@ + ": "@ + r.workload@ + "</text>\n      <!-- Rust Bar -->\n      <text x=\"50\" y=\""@ + r.rust_y@ + "\" class=\"label-lang-rust\">Rust Native:</text>\n      <rect x=\"180\" y=\""@ + r.rust_rect_y@ + "\" width=\""@ + r.rust_w@ + "\" height=\"18\" rx=\"3\" fill=\"#7fb8a6\" />\n      <text x=\""@ + r.rust_val_x@ + "\" y=\""@ + r.rust_y@ + "\" class=\"label-val\">"@ + r.rust_p50@ + " ms ("@ + r.rust_rps@ + " req/s)</text>\n\n      <!-- Python Bar -->\n      <text x=\"50\" y=\""@ + r.py_y@ + "\" class=\"label-lang-py\">CPython 3.12:</text>\n      <rect x=\"180\" y=\""@ + r.py_rect_y@ + "\" width=\""@ + r.py_w@ + "\" height=\"18\" rx=\"3\" fill=\"#d7755d\" />\n      <text x=\""@ + r.py_val_x@ + "\" y=\""@ + r.py_y@ + "\" class=\"label-val\">"@ + r.py_p50@ + " ms ("@ + r.py_rps@ + " req/s)</text>\n\n      <!-- Badge -->\n      <text x=\"820\" y=\""@, r.badge_y@, "\n    <g class=\"lfl-row\">\n      <text x=\"30\" y=\""@ + r.label_y@ + "\" class=\"label-service\">"@ + r.category@ + ": "@ + r.workload@ + "</text>\n      <!-- Rust Bar -->\n      <text x=\"50\" y=\""@);
        lemma_contains_extend("\n    <g class=\"lfl-row\">\n      <text x=\"30\" y=\""@ + r.label_y@ + "\" class=\"label-service\">"@ + r.category@ + ": "@ + r.workload@ + "</text>\n      <!-- Rust Bar -->\n      <text x=\"50\" y=\""@ + r.rust_y@ + "\" class=\"label-lang-rust\">Rust Native:</text>\n      <rect x=\"180\" y=\""@ + r.rust_rect_y@ + "\" width=\""@ + r.rust_w@ + "\" height=\"18\" rx=\"3\" fill=\"#7fb8a6\" />\n      <text x=\""@ + r.rust_val_x@ + "\" y=\""@ + r.rust_y@ + "\" class=\"label-val\">"@ + r.rust_p50@ + " ms ("@ + r.rust_rps@ + " req/s)</text>\n\n      <!-- Python Bar -->\n      <text x=\"50\" y=\""@ + r.py_y@ + "\" class=\"label-lang-py\">CPython 3.12:</text>\n      <rect x=\"180\" y=\""@ + r.py_rect_y@ + "\" width=\""@ + r.py_w@ + "\" height=\"18\" rx=\"3\" fill=\"#d7755d\" />\n      <text x=\""@ + r.py_val_x@ + "\" y=\""@ + r.py_y@ + "\" class=\"label-val\">"@ + r.py_p50@ + " ms ("@ + r.py_rps@ + " req/s)</text>\n\n      <!-- Badge -->\n      <text x=\"820\" y=\""@ + r.badge_y@, "\" class=\"badge-speedup\">"@, "\n    <g class=\"lfl-row\">\n      <text x=\"30\" y=\""@ + r.label_y@ + "\" class=\"label-service\">"@ + r.category@ + ": "@ + r.workload@ + "</text>\n      <!-- Rust Bar -->\n      <text x=\"50\" y=\""@);
        lemma_contains_extend("\n    <g class=\"lfl-row\">\n      <text x=\"30\" y=\""@ + r.label_y@ + "\" class=\"label-service\">"@ + r.category@ + ": "@ + r.workload@ + "</text>\n      <!-- Rust Bar -->\n      <text x=\"50\" y=\""@ + r.rust_y@ + "\" class=\"label-lang-rust\">Rust Native:</text>\n      <rect x=\"180\" y=\""@ + r.rust_rect_y@ + "\" width=\""@ + r.rust_w@ + "\" height=\"18\" rx=\"3\" fill=\"#7fb8a6\" />\n      <text x=\""@ + r.rust_val_x@ + "\" y=\""@ + r.rust_y@ + "\" class=\"label-val\">"@ + r.rust_p50@ + " ms ("@ + r.rust_rps@ + " req/s)</text>\n\n      <!-- Python Bar -->\n      <text x=\"50\" y=\""@ + r.py_y@ + "\" class=\"label-lang-py\">CPython 3.12:</text>\n      <rect x=\"180\" y=\""@ + r.py_rect_y@ + "\" width=\""@ + r.py_w@ + "\" height=\"18\" rx=\"3\" fill=\"#d7755d\" />\n      <text x=\""@ + r.py_val_x@ + "\" y=\""@ + r.py_y@ + "\" class=\"label-val\">"@ + r.py_p50@ + " ms ("@ + r.py_rps@ + " req/s)</text>\n\n      <!-- Badge -->\n      <text x=\"820\" y=\""@ + r.badge_y@ + "\" class=\"badge-speedup\">"@, r.speedup@, "\n    <g class=\"lfl-row\">\n      <text x=\"30\" y=\""@ + r.label_y@ + "\" class=\"label-service\">"@ + r.category@ + ": "@ + r.workload@ + "</text>\n      <!-- Rust Bar -->\n      <text x=\"50\" y=\""@);
        lemma_contains_extend("\n    <g class=\"lfl-row\">\n      <text x=\"30\" y=\""@ + r.label_y@ + "\" class=\"label-service\">"@ + r.category@ + ": "@ + r.workload@ + "</text>\n      <!-- Rust Bar -->\n      <text x=\"50\" y=\""@ + r.rust_y@ + "\" class=\"label-lang-rust\">Rust Native:</text>\n      <rect x=\"180\" y=\""@ + r.rust_rect_y@ + "\" width=\""@ + r.rust_w@ + "\" height=\"18\" rx=\"3\" fill=\"#7fb8a6\" />\n      <text x=\""@ + r.rust_val_x@ + "\" y=\""@ + r.rust_y@ + "\" class=\"label-val\">"@ + r.rust_p50@ + " ms ("@ + r.rust_rps@ + " req/s)</text>\n\n      <!-- Python Bar -->\n      <text x=\"50\" y=\""@ + r.py_y@ + "\" class=\"label-lang-py\">CPython 3.12:</text>\n      <rect x=\"180\" y=\""@ + r.py_rect_y@ + "\" width=\""@ + r.py_w@ + "\" height=\"18\" rx=\"3\" fill=\"#d7755d\" />\n      <text x=\""@ + r.py_val_x@ + "\" y=\""@ + r.py_y@ + "\" class=\"label-val\">"@ + r.py_p50@ + " ms ("@ + r.py_rps@ + " req/s)</text>\n\n      <!-- Badge -->\n      <text x=\"820\" y=\""@ + r.badge_y@ + "\" class=\"badge-speedup\">"@ + r.speedup@, "x Faster</text>\n      <text x=\"820\" y=\""@, "\n    <g class=\"lfl-row\">\n      <text x=\"30\" y=\""@ + r.label_y@ + "\" class=\"label-service\">"@ + r.category@ + ": "@ + r.workload@ + "</text>\n      <!-- Rust Bar -->\n      <text x=\"50\" y=\""@);
        lemma_contains_extend("\n    <g class=\"lfl-row\">\n      <text x=\"30\" y=\""@ + r.label_y@ + "\" class=\"label-service\">"@ + r.category@ + ": "@ + r.workload@ + "</text>\n      <!-- Rust Bar -->\n      <text x=\"50\" y=\""@ + r.rust_y@ + "\" class=\"label-lang-rust\">Rust Native:</text>\n      <rect x=\"180\" y=\""@ + r.rust_rect_y@ + "\" width=\""@ + r.rust_w@ + "\" height=\"18\" rx=\"3\" fill=\"#7fb8a6\" />\n      <text x=\""@ + r.rust_val_x@ + "\" y=\""@ + r.rust_y@ + "\" class=\"label-val\">"@ + r.rust_p50@ + " ms ("@ + r.rust_rps@ + " req/s)</text>\n\n      <!-- Python Bar -->\n      <text x=\"50\" y=\""@ + r.py_y@ + "\" class=\"label-lang-py\">CPython 3.12:</text>\n      <rect x=\"180\" y=\""@ + r.py_rect_y@ + "\" width=\""@ + r.py_w@ + "\" height=\"18\" rx=\"3\" fill=\"#d7755d\" />\n      <text x=\""@ + r.py_val_x@ + "\" y=\""@ + r.py_y@ + "\" class=\"label-val\">"@ + r.py_p50@ + " ms ("@ + r.py_rps@ + " req/s)</text>\n\n      <!-- Badge -->\n      <text x=\"820\" y=\""@ + r.badge_y@ + "\" class=\"badge-speedup\">"@ + r.speedup@ + "x Faster</text>\n      <text x=\"820\" y=\""@, r.badge_mem_y@, "\n    <g class=\"lfl-row\">\n      <text x=\"30\" y=\""@ + r.label_y@ + "\" class=\"label-service\">"@ + r.category@ + ": "@ + r.workload@ + "</text>\n      <!-- Rust Bar -->\n      <text x=\"50\" y=\""@);
        lemma_contains_extend("\n    <g class=\"lfl-row\">\n      <text x=\"30\" y=\""@ + r.label_y@ + "\" class=\"label-service\">"@ + r.category@ + ": "@ + r.workload@ + "</text>\n      <!-- Rust Bar -->\n      <text x=\"50\" y=\""@ + r.rust_y@ + "\" class=\"label-lang-rust\">Rust Native:</text>\n      <rect x=\"180\" y=\""@ + r.rust_rect_y@ + "\" width=\""@ + r.rust_w@ + "\" height=\"18\" rx=\"3\" fill=\"#7fb8a6\" />\n      <text x=\""@ + r.rust_val_x@ + "\" y=\""@ + r.rust_y@ + "\" class=\"label-val\">"@ + r.rust_p50@ + " ms ("@ + r.rust_rps@ + " req/s)</text>\n\n      <!-- Python Bar -->\n      <text x=\"50\" y=\""@ + r.py_y@ + "\" class=\"label-lang-py\">CPython 3.12:</text>\n      <rect x=\"180\" y=\""@ + r.py_rect_y@ + "\" width=\""@ + r.py_w@ + "\" height=\"18\" rx=\"3\" fill=\"#d7755d\" />\n      <text x=\""@ + r.py_val_x@ + "\" y=\""@ + r.py_y@ + "\" class=\"label-val\">"@ + r.py_p50@ + " ms ("@ + r.py_rps@ + " req/s)</text>\n\n      <!-- Badge -->\n      <text x=\"820\" y=\""@ + r.badge_y@ + "\" class=\"badge-speedup\">"@ + r.speedup@ + "x Faster</text>\n      <text x=\"820\" y=\""@ + r.badge_mem_y@, "\" class=\"badge-mem\">(-"@, "\n    <g class=\"lfl-row\">\n      <text x=\"30\" y=\""@ + r.label_y@ + "\" class=\"label-service\">"@ + r.category@ + ": "@ + r.workload@ + "</text>\n      <!-- Rust Bar -->\n      <text x=\"50\" y=\""@);
        lemma_contains_extend("\n    <g class=\"lfl-row\">\n      <text x=\"30\" y=\""@ + r.label_y@ + "\" class=\"label-service\">"@ + r.category@ + ": "@ + r.workload@ + "</text>\n      <!-- Rust Bar -->\n      <text x=\"50\" y=\""@ + r.rust_y@ + "\" class=\"label-lang-rust\">Rust Native:</text>\n      <rect x=\"180\" y=\""@ + r.rust_rect_y@ + "\" width=\""@ + r.rust_w@ + "\" height=\"18\" rx=\"3\" fill=\"#7fb8a6\" />\n      <text x=\""@ + r.rust_val_x@ + "\" y=\""@ + r.rust_y@ + "\" class=\"label-val\">"@ + r.rust_p50@ + " ms ("@ + r.rust_rps@ + " req/s)</text>\n\n      <!-- Python Bar -->\n      <text x=\"50\" y=\""@ + r.py_y@ + "\" class=\"label-lang-py\">CPython 3.12:</text>\n      <rect x=\"180\" y=\""@ + r.py_rect_y@ + "\" width=\""@ + r.py_w@ + "\" height=\"18\" rx=\"3\" fill=\"#d7755d\" />\n      <text x=\""@ + r.py_val_x@ + "\" y=\""@ + r.py_y@ + "\" class=\"label-val\">"@ + r.py_p50@ + " ms ("@ + r.py_rps@ + " req/s)</text>\n\n      <!-- Badge -->\n      <text x=\"820\" y=\""@ + r.badge_y@ + "\" class=\"badge-speedup\">"@ + r.speedup@ + "x Faster</text>\n      <text x=\"820\" y=\""@ + r.badge_mem_y@ + "\" class=\"badge-mem\">(-"@, r.mem_pct@, "\n    <g class=\"lfl-row\">\n      <text x=\"30\" y=\""@ + r.label_y@ + "\" class=\"label-service\">"@ + r.category@ + ": "@ + r.workload@ + "</text>\n      <!-- Rust Bar -->\n      <text x=\"50\" y=\""@);
        lemma_contains_extend("\n    <g class=\"lfl-row\">\n      <text x=\"30\" y=\""@ + r.label_y@ + "\" class=\"label-service\">"@ + r.category@ + ": "@ + r.workload@ + "</text>\n      <!-- Rust Bar -->\n      <text x=\"50\" y=\""@ + r.rust_y@ + "\" class=\"label-lang-rust\">Rust Native:</text>\n      <rect x=\"180\" y=\""@ + r.rust_rect_y@ + "\" width=\""@ + r.rust_w@ + "\" height=\"18\" rx=\"3\" fill=\"#7fb8a6\" />\n      <text x=\""@ + r.rust_val_x@ + "\" y=\""@ + r.rust_y@ + "\" class=\"label-val\">"@ + r.rust_p50@ + " ms ("@ + r.rust_rps@ + " req/s)</text>\n\n      <!-- Python Bar -->\n      <text x=\"50\" y=\""@ + r.py_y@ + "\" class=\"label-lang-py\">CPython 3.12:</text>\n      <rect x=\"180\" y=\""@ + r.py_rect_y@ + "\" width=\""@ + r.py_w@ + "\" height=\"18\" rx=\"3\" fill=\"#d7755d\" />\n      <text x=\""@ + r.py_val_x@ + "\" y=\""@ + r.py_y@ + "\" class=\"label-val\">"@ + r.py_p50@ + " ms ("@ + r.py_rps@ + " req/s)</text>\n\n      <!-- Badge -->\n      <text x=\"820\" y=\""@ + r.badge_y@ + "\" class=\"badge-speedup\">"@ + r.speedup@ + "x Faster</text>\n      <text x=\"820\" y=\""@ + r.badge_mem_y@ + "\" class=\"badge-mem\">(-"@ + r.mem_pct@, "% RAM)</text>\n    </g>"@, "\n    <g class=\"lfl-row\">\n      <text x=\"30\" y=\""@ + r.label_y@ + "\" class=\"label-service\">"@ + r.category@ + ": "@ + r.workload@ + "</text>\n      <!-- Rust Bar -->\n      <text x=\"50\" y=\""@);
    }
    assert(contains_seq(like_for_like_row_text(r), "</text>\n      <!-- Rust Bar -->\n      <text x=\"50\" y=\""@ + r.rust_y@ + "\" class=\"label-lang-rust\">Rust Native:</text>\n      <rect x=\"180\" y=\""@)) by {
        lemma_concat_associative(("\n    <g class=\"lfl-row\">\n      <text x=\"30\" y=\""@ + r.label_y@ + "\" class=\"label-service\">"@ + r.category@ + ": "@ + r.workload@), "</text>\n      <!-- Rust Bar -->\n      <text x=\"50\" y=\""@, r.rust_y@);
        assert(("\n    <g class=\"lfl-row\">\n      <text x=\"30\" y=\""@ + r.label_y@ + "\" class=\"label-service\">"@ + r.category@ + ": "@ + r.workload@) + ("</text>\n      <!-- Rust Bar -->\n      <text x=\"50\" y=\""@ + r.rust_y@) == "\n    <g class=\"lfl-row\">\n      <text x=\"30\" y=\""@ + r.label_y@ + "\" class=\"label-service\">"@ + r.category@ + ": "@ + r.workload@ + "</text>\n      <!-- Rust Bar -->\n      <text x=\"50\" y=\""@ + r.rust_y@);
        lemma_concat_associative(("\n    <g class=\"lfl-row\">\n      <text x=\"30\" y=\""@ + r.label_y@ + "\" class=\"label-service\">"@ + r.category@ + ": "@ + r.workload@), "</text>\n      <!-- Rust Bar -->\n      <text x=\"50\" y=\""@ + r.rust_y@, "\" class=\"label-lang-rust\">Rust Native:</text>\n      <rect x=\"180\" y=\""@);
        assert(("\n    <g class=\"lfl-row\">\n      <text x=\"30\" y=\""@ + r.label_y@ + "\" class=\"label-service\">"@ + r.category@ + ": "@ + r.workload@) + ("</text>\n      <!-- Rust Bar -->\n      <text x=\"50\" y=\""@ + r.rust_y@ + "\" class=\"label-lang-rust\">Rust Native:</text>\n      <rect x=\"180\" y=\""@) == "\n    <g class=\"lfl-row\">\n      <text x=\"30\" y=\""@ + r.label_y@ + "\" class=\"label-service\">"@ + r.category@ + ": "@ + r.workload@ + "</text>\n      <!-- Rust Bar -->\n      <text x=\"50\" y=\""@ + r.rust_y@ + "\" class=\"label-lang-rust\">Rust Native:</text>\n      <rect x=\"180\" y=\""@);
        lemma_contains_tail(("\n    <g class=\"lfl-row\">\n      <text x=\"30\" y=\""@ + r.label_y@ + "\" class=\"label-service\">"@ + r.category@ + ": "@ + r.workload@), "</text>\n      <!-- Rust Bar -->\n      <text x=\"50\" y=\""@ + r.rust_y@ + "\" class=\"label-lang-rust\">Rust Native:</text>\n      <rect x=\"180\" y=\""@);
        lemma_contains_extend("\n    <g class=\"lfl-row\">\n      <text x=\"30\" y=\""@ + r.label_y@ + "\" class=\"label-service\">"@ + r.category@ + ": "@ + r.workload@ + "</text>\n      <!-- Rust Bar -->\n      <text x=\"50\" y=\""@ + r.rust_y@ + "\" class=\"label-lang-rust\">Rust Native:</text>\n      <rect x=\"180\" y=\""@, r.rust_rect_y@, "</text>\n      <!-- Rust Bar -->\n      <text x=\"50\" y=\""@ + r.rust_y@ + "\" class=\"label-lang-rust\">Rust Native:</text>\n      <rect x=\"180\" y=\""@);
        lemma_contains_extend("\n    <g class=\"lfl-row\">\n      <text x=\"30\" y=\""@ + r.label_y@ + "\" class=\"label-service\">"@ + r.category@ + ": "@ + r.workload@ + "</text>\n      <!-- Rust Bar -->\n      <text x=\"50\" y=\""@ + r.rust_y@ + "\" class=\"label-lang-rust\">Rust Native:</text>\n      <rect x=\"180\" y=\""@ + r.rust_rect_y@, "\" width=\""@, "</text>\n      <!-- Rust Bar -->\n      <text x=\"50\" y=\""@ + r.rust_y@ + "\" class=\"label-lang-rust\">Rust Native:</text>\n      <rect x=\"180\" y=\""@);
        lemma_contains_extend("\n    <g class=\"lfl-row\">\n      <text x=\"30\" y=\""@ + r.label_y@ + "\" class=\"label-service\">"@ + r.category@ + ": "@ + r.workload@ + "</text>\n      <!-- Rust Bar -->\n      <text x=\"50\" y=\""@ + r.rust_y@ + "\" class=\"label-lang-rust\">Rust Native:</text>\n      <rect x=\"180\" y=\""@ + r.rust_rect_y@ + "\" width=\""@, r.rust_w@, "</text>\n      <!-- Rust Bar -->\n      <text x=\"50\" y=\""@ + r.rust_y@ + "\" class=\"label-lang-rust\">Rust Native:</text>\n      <rect x=\"180\" y=\""@);
        lemma_contains_extend("\n    <g class=\"lfl-row\">\n      <text x=\"30\" y=\""@ + r.label_y@ + "\" class=\"label-service\">"@ + r.category@ + ": "@ + r.workload@ + "</text>\n      <!-- Rust Bar -->\n      <text x=\"50\" y=\""@ + r.rust_y@ + "\" class=\"label-lang-rust\">Rust Native:</text>\n      <rect x=\"180\" y=\""@ + r.rust_rect_y@ + "\" width=\""@ + r.rust_w@, "\" height=\"18\" rx=\"3\" fill=\"#7fb8a6\" />\n      <text x=\""@, "</text>\n      <!-- Rust Bar -->\n      <text x=\"50\" y=\""@ + r.rust_y@ + "\" class=\"label-lang-rust\">Rust Native:</text>\n      <rect x=\"180\" y=\""@);
        lemma_contains_extend("\n    <g class=\"lfl-row\">\n      <text x=\"30\" y=\""@ + r.label_y@ + "\" class=\"label-service\">"@ + r.category@ + ": "@ + r.workload@ + "</text>\n      <!-- Rust Bar -->\n      <text x=\"50\" y=\""@ + r.rust_y@ + "\" class=\"label-lang-rust\">Rust Native:</text>\n      <rect x=\"180\" y=\""@ + r.rust_rect_y@ + "\" width=\""@ + r.rust_w@ + "\" height=\"18\" rx=\"3\" fill=\"#7fb8a6\" />\n      <text x=\""@, r.rust_val_x@, "</text>\n      <!-- Rust Bar -->\n      <text x=\"50\" y=\""@ + r.rust_y@ + "\" class=\"label-lang-rust\">Rust Native:</text>\n      <rect x=\"180\" y=\""@);
        lemma_contains_extend("\n    <g class=\"lfl-row\">\n      <text x=\"30\" y=\""@ + r.label_y@ + "\" class=\"label-service\">"@ + r.category@ + ": "@ + r.workload@ + "</text>\n      <!-- Rust Bar -->\n      <text x=\"50\" y=\""@ + r.rust_y@ + "\" class=\"label-lang-rust\">Rust Native:</text>\n      <rect x=\"180\" y=\""@ + r.rust_rect_y@ + "\" width=\""@ + r.rust_w@ + "\" height=\"18\" rx=\"3\" fill=\"#7fb8a6\" />\n      <text x=\""@ + r.rust_val_x@, "\" y=\""@, "</text>\n      <!-- Rust Bar -->\n      <text x=\"50\" y=\""@ + r.rust_y@ + "\" class=\"label-lang-rust\">Rust Native:</text>\n      <rect x=\"180\" y=\""@);
        lemma_contains_extend("\n    <g class=\"lfl-row\">\n      <text x=\"30\" y=\""@ + r.label_y@ + "\" class=\"label-service\">"@ + r.category@ + ": "@ + r.workload@ + "</text>\n      <!-- Rust Bar -->\n      <text x=\"50\" y=\""@ + r.rust_y@ + "\" class=\"label-lang-rust\">Rust Native:</text>\n      <rect x=\"180\" y=\""@ + r.rust_rect_y@ + "\" width=\""@ + r.rust_w@ + "\" height=\"18\" rx=\"3\" fill=\"#7fb8a6\" />\n      <text x=\""@ + r.rust_val_x@ + "\" y=\""@, r.rust_y@, "</text>\n      <!-- Rust Bar -->\n      <text x=\"50\" y=\""@ + r.rust_y@ + "\" class=\"label-lang-rust\">Rust Native:</text>\n      <rect x=\"180\" y=\""@);
        lemma_contains_extend("\n    <g class=\"lfl-row\">\n      <text x=\"30\" y=\""@ + r.label_y@ + "\" class=\"label-service\">"@ + r.category@ + ": "@ + r.workload@ + "</text>\n      <!-- Rust Bar -->\n      <text x=\"50\" y=\""@ + r.rust_y@ + "\" class=\"label-lang-rust\">Rust Native:</text>\n      <rect x=\"180\" y=\""@ + r.rust_rect_y@ + "\" width=\""@ + r.rust_w@ + "\" height=\"18\" rx=\"3\" fill=\"#7fb8a6\" />\n      <text x=\""@ + r.rust_val_x@ + "\" y=\""@ + r.rust_y@, "\" class=\"label-val\">"@, "</text>\n      <!-- Rust Bar -->\n      <text x=\"50\" y=\""@ + r.rust_y@ + "\" class=\"label-lang-rust\">Rust Native:</text>\n      <rect x=\"180\" y=\""@);
        lemma_contains_extend("\n    <g class=\"lfl-row\">\n      <text x=\"30\" y=\""@ + r.label_y@ + "\" class=\"label-service\">"@ + r.category@ + ": "@ + r.workload@ + "</text>\n      <!-- Rust Bar -->\n      <text x=\"50\" y=\""@ + r.rust_y@ + "\" class=\"label-lang-rust\">Rust Native:</text>\n      <rect x=\"180\" y=\""@ + r.rust_rect_y@ + "\" width=\""@ + r.rust_w@ + "\" height=\"18\" rx=\"3\" fill=\"#7fb8a6\" />\n      <text x=\""@ + r.rust_val_x@ + "\" y=\""@ + r.rust_y@ + "\" class=\"label-val\">"@, r.rust_p50@, "</text>\n      <!-- Rust Bar -->\n      <text x=\"50\" y=\""@ + r.rust_y@ + "\" class=\"label-lang-rust\">Rust Native:</text>\n      <rect x=\"180\" y=\""@);
        lemma_contains_extend("\n    <g class=\"lfl-row\">\n      <text x=\"30\" y=\""@ + r.label_y@ + "\" class=\"label-service\">"@ + r.category@ + ": "@ + r.workload@ + "</text>\n      <!-- Rust Bar -->\n      <text x=\"50\" y=\""@ + r.rust_y@ + "\" class=\"label-lang-rust\">Rust Native:</text>\n      <rect x=\"180\" y=\""@ + r.rust_rect_y@ + "\" width=\""@ + r.rust_w@ + "\" height=\"18\" rx=\"3\" fill=\"#7fb8a6\" />\n      <text x=\""@ + r.rust_val_x@ + "\" y=\""@ + r.rust_y@ + "\" class=\"label-val\">"@ + r.rust_p50@, " ms ("@, "</text>\n      <!-- Rust Bar -->\n      <text x=\"50\" y=\""@ + r.rust_y@ + "\" class=\"label-lang-rust\">Rust Native:</text>\n      <rect x=\"180\" y=\""@);
        lemma_contains_extend("\n    <g class=\"lfl-row\">\n      <text x=\"30\" y=\""@ + r.label_y@ + "\" class=\"label-service\">"@ + r.category@ + ": "@ + r.workload@ + "</text>\n      <!-- Rust Bar -->\n      <text x=\"50\" y=\""@ + r.rust_y@ + "\" class=\"label-lang-rust\">Rust Native:</text>\n      <rect x=\"180\" y=\""@ + r.rust_rect_y@ + "\" width=\""@ + r.rust_w@ + "\" height=\"18\" rx=\"3\" fill=\"#7fb8a6\" />\n      <text x=\""@ + r.rust_val_x@ + "\" y=\""@ + r.rust_y@ + "\" class=\"label-val\">"@ + r.rust_p50@ + " ms ("@, r.rust_rps@, "</text>\n      <!-- Rust Bar -->\n      <text x=\"50\" y=\""@ + r.rust_y@ + "\" class=\"label-lang-rust\">Rust Native:</text>\n      <rect x=\"180\" y=\""@);
        lemma_contains_extend("\n    <g class=\"lfl-row\">\n      <text x=\"30\" y=\""@ + r.label_y@ + "\" class=\"label-service\">"@ + r.category@ + ": "@ + r.workload@ + "</text>\n      <!-- Rust Bar -->\n      <text x=\"50\" y=\""@ + r.rust_y@ + "\" class=\"label-lang-rust\">Rust Native:</text>\n      <rect x=\"180\" y=\""@ + r.rust_rect_y@ + "\" width=\""@ + r.rust_w@ + "\" height=\"18\" rx=\"3\" fill=\"#7fb8a6\" />\n      <text x=\""@ + r.rust_val_x@ + "\" y=\""@ + r.rust_y@ + "\" class=\"label-val\">"@ + r.rust_p50@ + " ms ("@ + r.rust_rps@, " req/s)</text>\n\n      <!-- Python Bar -->\n      <text x=\"50\" y=\""@, "</text>\n      <!-- Rust Bar -->\n      <text x=\"50\" y=\""@ + r.rust_y@ + "\" class=\"label-lang-rust\">Rust Native:</text>\n      <rect x=\"180\" y=\""@);
        lemma_contains_extend("\n    <g class=\"lfl-row\">\n      <text x=\"30\" y=\""@ + r.label_y@ + "\" class=\"label-service\">"@ + r.category@ + ": "@ + r.workload@ + "</text>\n      <!-- Rust Bar -->\n      <text x=\"50\" y=\""@ + r.rust_y@ + "\" class=\"label-lang-rust\">Rust Native:</text>\n      <rect x=\"180\" y=\""@ + r.rust_rect_y@ + "\" width=\""@ + r.rust_w@ + "\" height=\"18\" rx=\"3\" fill=\"#7fb8a6\" />\n      <text x=\""@ + r.rust_val_x@ + "\" y=\""@ + r.rust_y@ + "\" class=\"label-val\">"@ + r.rust_p50@ + " ms ("@ + r.rust_rps@ + " req/s)</text>\n\n      <!-- Python Bar -->\n      <text x=\"50\" y=\""@, r.py_y@, "</text>\n      <!-- Rust Bar -->\n      <text x=\"50\" y=\""@ + r.rust_y@ + "\" class=\"label-lang-rust\">Rust Native:</text>\n      <rect x=\"180\" y=\""@);
        lemma_contains_extend("\n    <g class=\"lfl-row\">\n      <text x=\"30\" y=\""@ + r.label_y@ + "\" class=\"label-service\">"@ + r.category@ + ": "@ + r.workload@ + "</text>\n      <!-- Rust Bar -->\n      <text x=\"50\" y=\""@ + r.rust_y@ + "\" class=\"label-lang-rust\">Rust Native:</text>\n      <rect x=\"180\" y=\""@ + r.rust_rect_y@ + "\" width=\""@ + r.rust_w@ + "\" height=\"18\" rx=\"3\" fill=\"#7fb8a6\" />\n      <text x=\""@ + r.rust_val_x@ + "\" y=\""@ + r.rust_y@ + "\" class=\"label-val\">"@ + r.rust_p50@ + " ms ("@ + r.rust_rps@ + " req/s)</text>\n\n      <!-- Python Bar -->\n      <text x=\"50\" y=\""@ + r.py_y@, "\" class=\"label-lang-py\">CPython 3.12:</text>\n      <rect x=\"180\" y=\""@, "</text>\n      <!-- Rust Bar -->\n      <text x=\"50\" y=\""@ + r.rust_y@ + "\" class=\"label-lang-rust\">Rust Native:</text>\n      <rect x=\"180\" y=\""@);
        lemma_contains_extend("\n    <g class=\"lfl-row\">\n      <text x=\"30\" y=\""@ + r.label_y@ + "\" class=\"label-service\">"@ + r.category@ + ": "@ + r.workload@ + "</text>\n      <!-- Rust Bar -->\n      <text x=\"50\" y=\""@ + r.rust_y@ + "\" class=\"label-lang-rust\">Rust Native:</text>\n      <rect x=\"180\" y=\""@ + r.rust_rect_y@ + "\" width=\""@ + r.rust_w@ + "\" height=\"18\" rx=\"3\" fill=\"#7fb8a6\" />\n      <text x=\""@ + r.rust_val_x@ + "\" y=\""@ + r.rust_y@ + "\" class=\"label-val\">"@ + r.rust_p50@ + " ms ("@ + r.rust_rps@ + " req/s)</text>\n\n      <!-- Python Bar -->\n      <text x=\"50\" y=\""@ + r.py_y@ + "\" class=\"label-lang-py\">CPython 3.12:</text>\n      <rect x=\"180\" y=\""@, r.py_rect_y@, "</text>\n      <!-- Rust Bar -->\n      <text x=\"50\" y=\""@ + r.rust_y@ + "\" class=\"label-lang-rust\">Rust Native:</text>\n      <rect x=\"180\" y=\""@);
        lemma_contains_extend("\n    <g class=\"lfl-row\">\n      <text x=\"30\" y=\""@ + r.label_y@ + "\" class=\"label-service\">"@ + r.category@ + ": "@ + r.workload@ + "</text>\n      <!-- Rust Bar -->\n      <text x=\"50\" y=\""@ + r.rust_y@ + "\" class=\"label-lang-rust\">Rust Native:</text>\n      <rect x=\"180\" y=\""@ + r.rust_rect_y@ + "\" width=\""@ + r.rust_w@ + "\" height=\"18\" rx=\"3\" fill=\"#7fb8a6\" />\n      <text x=\""@ + r.rust_val_x@ + "\" y=\""@ + r.rust_y@ + "\" class=\"label-val\">"@ + r.rust_p50@ + " ms ("@ + r.rust_rps@ + " req/s)</text>\n\n      <!-- Python Bar -->\n      <text x=\"50\" y=\""@ + r.py_y@ + "\" class=\"label-lang-py\">CPython 3.12:</text>\n      <rect x=\"180\" y=\""@ + r.py_rect_y@, "\" width=\""@, "</text>\n      <!-- Rust Bar -->\n      <text x=\"50\" y=\""@ + r.rust_y@ + "\" class=\"label-lang-rust\">Rust Native:</text>\n      <rect x=\"180\" y=\""@);
        lemma_contains_extend("\n    <g class=\"lfl-row\">\n      <text x=\"30\" y=\""@ + r.label_y@ + "\" class=\"label-service\">"@ + r.category@ + ": "@ + r.workload@ + "</text>\n      <!-- Rust Bar -->\n      <text x=\"50\" y=\""@ + r.rust_y@ + "\" class=\"label-lang-rust\">Rust Native:</text>\n      <rect x=\"180\" y=\""@ + r.rust_rect_y@ + "\" width=\""@ + r.rust_w@ + "\" height=\"18\" rx=\"3\" fill=\"#7fb8a6\" />\n      <text x=\""@ + r.rust_val_x@ + "\" y=\""@ + r.rust_y@ + "\" class=\"label-val\">"@ + r.rust_p50@ + " ms ("@ + r.rust_rps@ + " req/s)</text>\n\n      <!-- Python Bar -->\n      <text x=\"50\" y=\""@ + r.py_y@ + "\" class=\"label-lang-py\">CPython 3.12:</text>\n      <rect x=\"180\" y=\""@ + r.py_rect_y@ + "\" width=\""@, r.py_w@, "</text>\n      <!-- Rust Bar -->\n      <text x=\"50\" y=\""@ + r.rust_y@ + "\" class=\"label-lang-rust\">Rust Native:</text>\n      <rect x=\"180\" y=\""@);
        lemma_contains_extend("\n    <g class=\"lfl-row\">\n      <text x=\"30\" y=\""@ + r.label_y@ + "\" class=\"label-service\">"@ + r.category@ + ": "@ + r.workload@ + "</text>\n      <!-- Rust Bar -->\n      <text x=\"50\" y=\""@ + r.rust_y@ + "\" class=\"label-lang-rust\">Rust Native:</text>\n      <rect x=\"180\" y=\""@ + r.rust_rect_y@ + "\" width=\""@ + r.rust_w@ + "\" height=\"18\" rx=\"3\" fill=\"#7fb8a6\" />\n      <text x=\""@ + r.rust_val_x@ + "\" y=\""@ + r.rust_y@ + "\" class=\"label-val\">"@ + r.rust_p50@ + " ms ("@ + r.rust_rps@ + " req/s)</text>\n\n      <!-- Python Bar -->\n      <text x=\"50\" y=\""@ + r.py_y@ + "\" class=\"label-lang-py\">CPython 3.12:</text>\n      <rect x=\"180\" y=\""@ + r.py_rect_y@ + "\" width=\""@ + r.py_w@, "\" height=\"18\" rx=\"3\" fill=\"#d7755d\" />\n      <text x=\""@, "</text>\n      <!-- Rust Bar -->\n      <text x=\"50\" y=\""@ + r.rust_y@ + "\" class=\"label-lang-rust\">Rust Native:</text>\n      <rect x=\"180\" y=\""@);
        lemma_contains_extend("\n    <g class=\"lfl-row\">\n      <text x=\"30\" y=\""@ + r.label_y@ + "\" class=\"label-service\">"@ + r.category@ + ": "@ + r.workload@ + "</text>\n      <!-- Rust Bar -->\n      <text x=\"50\" y=\""@ + r.rust_y@ + "\" class=\"label-lang-rust\">Rust Native:</text>\n      <rect x=\"180\" y=\""@ + r.rust_rect_y@ + "\" width=\""@ + r.rust_w@ + "\" height=\"18\" rx=\"3\" fill=\"#7fb8a6\" />\n      <text x=\""@ + r.rust_val_x@ + "\" y=\""@ + r.rust_y@ + "\" class=\"label-val\">"@ + r.rust_p50@ + " ms ("@ + r.rust_rps@ + " req/s)</text>\n\n      <!-- Python Bar -->\n      <text x=\"50\" y=\""@ + r.py_y@ + "\" class=\"label-lang-py\">CPython 3.12:</text>\n      <rect x=\"180\" y=\""@ + r.py_rect_y@ + "\" width=\""@ + r.py_w@ + "\" height=\"18\" rx=\"3\" fill=\"#d7755d\" />\n      <text x=\""@, r.py_val_x@, "</text>\n      <!-- Rust Bar -->\n      <text x=\"50\" y=\""@ + r.rust_y@ + "\" class=\"label-lang-rust\">Rust Native:</text>\n      <rect x=\"180\" y=\""@);
        lemma_contains_extend("\n    <g class=\"lfl-row\">\n      <text x=\"30\" y=\""@ + r.label_y@ + "\" class=\"label-service\">"@ + r.category@ + ": "@ + r.workload@ + "</text>\n      <!-- Rust Bar -->\n      <text x=\"50\" y=\""@ + r.rust_y@ + "\" class=\"label-lang-rust\">Rust Native:</text>\n      <rect x=\"180\" y=\""@ + r.rust_rect_y@ + "\" width=\""@ + r.rust_w@ + "\" height=\"18\" rx=\"3\" fill=\"#7fb8a6\" />\n      <text x=\""@ + r.rust_val_x@ + "\" y=\""@ + r.rust_y@ + "\" class=\"label-val\">"@ + r.rust_p50@ + " ms ("@ + r.rust_rps@ + " req/s)</text>\n\n      <!-- Python Bar -->\n      <text x=\"50\" y=\""@ + r.py_y@ + "\" class=\"label-lang-py\">CPython 3.12:</text>\n      <rect x=\"180\" y=\""@ + r.py_rect_y@ + "\" width=\""@ + r.py_w@ + "\" height=\"18\" rx=\"3\" fill=\"#d7755d\" />\n      <text x=\""@ + r.py_val_x@, "\" y=\""@, "</text>\n      <!-- Rust Bar -->\n      <text x=\"50\" y=\""@ + r.rust_y@ + "\" class=\"label-lang-rust\">Rust Native:</text>\n      <rect x=\"180\" y=\""@);
        lemma_contains_extend("\n    <g class=\"lfl-row\">\n      <text x=\"30\" y=\""@ + r.label_y@ + "\" class=\"label-service\">"@ + r.category@ + ": "@ + r.workload@ + "</text>\n      <!-- Rust Bar -->\n      <text x=\"50\" y=\""@ + r.rust_y@ + "\" class=\"label-lang-rust\">Rust Native:</text>\n      <rect x=\"180\" y=\""@ + r.rust_rect_y@ + "\" width=\""@ + r.rust_w@ + "\" height=\"18\" rx=\"3\" fill=\"#7fb8a6\" />\n      <text x=\""@ + r.rust_val_x@ + "\" y=\""@ + r.rust_y@ + "\" class=\"label-val\">"@ + r.rust_p50@ + " ms ("@ + r.rust_rps@ + " req/s)</text>\n\n      <!-- Python Bar -->\n      <text x=\"50\" y=\""@ + r.py_y@ + "\" class=\"label-lang-py\">CPython 3.12:</text>\n      <rect x=\"180\" y=\""@ + r.py_rect_y@ + "\" width=\""@ + r.py_w@ + "\" height=\"18\" rx=\"3\" fill=\"#d7755d\" />\n      <text x=\""@ + r.py_val_x@ + "\" y=\""@, r.py_y@, "</text>\n      <!-- Rust Bar -->\n      <text x=\"50\" y=\""@ + r.rust_y@ + "\" class=\"label-lang-rust\">Rust Native:</text>\n      <rect x=\"180\" y=\""@);
        lemma_contains_extend("\n    <g class=\"lfl-row\">\n      <text x=\"30\" y=\""@ + r.label_y@ + "\" class=\"label-service\">"@ + r.category@ + ": "@ + r.workload@ + "</text>\n      <!-- Rust Bar -->\n      <text x=\"50\" y=\""@ + r.rust_y@ + "\" class=\"label-lang-rust\">Rust Native:</text>\n      <rect x=\"180\" y=\""@ + r.rust_rect_y@ + "\" width=\""@ + r.rust_w@ + "\" height=\"18\" rx=\"3\" fill=\"#7fb8a6\" />\n      <text x=\""@ + r.rust_val_x@ + "\" y=\""@ + r.rust_y@ + "\" class=\"label-val\">"@ + r.rust_p50@ + " ms ("@ + r.rust_rps@ + " req/s)</text>\n\n      <!-- Python Bar -->\n      <text x=\"50\" y=\""@ + r.py_y@ + "\" class=\"label-lang-py\">CPython 3.12:</text>\n      <rect x=\"180\" y=\""@ + r.py_rect_y@ + "\" width=\""@ + r.py_w@ + "\" height=\"18\" rx=\"3\" fill=\"#d7755d\" />\n      <text x=\""@ + r.py_val_x@ + "\" y=\""@ + r.py_y@, "\" class=\"label-val\">"@, "</text>\n      <!-- Rust Bar -->\n      <text x=\"50\" y=\""@ + r.rust_y@ + "\" class=\"label-lang-rust\">Rust Native:</text>\n      <rect x=\"180\" y=\""@);
        lemma_contains_extend("\n    <g class=\"lfl-row\">\n      <text x=\"30\" y=\""@ + r.label_y@ + "\" class=\"label-service\">"@ + r.category@ + ": "@ + r.workload@ + "</text>\n      <!-- Rust Bar -->\n      <text x=\"50\" y=\""@ + r.rust_y@ + "\" class=\"label-lang-rust\">Rust Native:</text>\n      <rect x=\"180\" y=\""@ + r.rust_rect_y@ + "\" width=\""@ + r.rust_w@ + "\" height=\"18\" rx=\"3\" fill=\"#7fb8a6\" />\n      <text x=\""@ + r.rust_val_x@ + "\" y=\""@ + r.rust_y@ + "\" class=\"label-val\">"@ + r.rust_p50@ + " ms ("@ + r.rust_rps@ + " req/s)</text>\n\n      <!-- Python Bar -->\n      <text x=\"50\" y=\""@ + r.py_y@ + "\" class=\"label-lang-py\">CPython 3.12:</text>\n      <rect x=\"180\" y=\""@ + r.py_rect_y@ + "\" width=\""@ + r.py_w@ + "\" height=\"18\" rx=\"3\" fill=\"#d7755d\" />\n      <text x=\""@ + r.py_val_x@ + "\" y=\""@ + r.py_y@ + "\" class=\"label-val\">"@, r.py_p50@, "</text>\n      <!-- Rust Bar -->\n      <text x=\"50\" y=\""@ + r.rust_y@ + "\" class=\"label-lang-rust\">Rust Native:</text>\n      <rect x=\"180\" y=\""@);
        lemma_contains_extend("\n    <g class=\"lfl-row\">\n      <text x=\"30\" y=\""@ + r.label_y@ + "\" class=\"label-service\">"@ + r.category@ + ": "@ + r.workload@ + "</text>\n      <!-- Rust Bar -->\n      <text x=\"50\" y=\""@ + r.rust_y@ + "\" class=\"label-lang-rust\">Rust Native:</text>\n      <rect x=\"180\" y=\""@ + r.rust_rect_y@ + "\" width=\""@ + r.rust_w@ + "\" height=\"18\" rx=\"3\" fill=\"#7fb8a6\" />\n      <text x=\""@ + r.rust_val_x@ + "\" y=\""@ + r.rust_y@ + "\" class=\"label-val\">"@ + r.rust_p50@ + " ms ("@ + r.rust_rps@ + " req/s)</text>\n\n      <!-- Python Bar -->\n      <text x=\"50\" y=\""@ + r.py_y@ + "\" class=\"label-lang-py\">CPython 3.12:</text>\n      <rect x=\"180\" y=\""@ + r.py_rect_y@ + "\" width=\""@ + r.py_w@ + "\" height=\"18\" rx=\"3\" fill=\"#d7755d\" />\n      <text x=\""@ + r.py_val_x@ + "\" y=\""@ + r.py_y@ + "\" class=\"label-val\">"@ + r.py_p50@, " ms ("@, "</text>\n      <!-- Rust Bar -->\n      <text x=\"50\" y=\""@ + r.rust_y@ + "\" class=\"label-lang-rust\">Rust Native:</text>\n      <rect x=\"180\" y=\""@);
        lemma_contains_extend("\n    <g class=\"lfl-row\">\n      <text x=\"30\" y=\""@ + r.label_y@ + "\" class=\"label-service\">"@ + r.category@ + ": "@ + r.workload@ + "</text>\n      <!-- Rust Bar -->\n      <text x=\"50\" y=\""@ + r.rust_y@ + "\" class=\"label-lang-rust\">Rust Native:</text>\n      <rect x=\"180\" y=\""@ + r.rust_rect_y@ + "\" width=\""@ + r.rust_w@ + "\" height=\"18\" rx=\"3\" fill=\"#7fb8a6\" />\n      <text x=\""@ + r.rust_val_x@ + "\" y=\""@ + r.rust_y@ + "\" class=\"label-val\">"@ + r.rust_p50@ + " ms ("@ + r.rust_rps@ + " req/s)</text>\n\n      <!-- Python Bar -->\n      <text x=\"50\" y=\""@ + r.py_y@ + "\" class=\"label-lang-py\">CPython 3.12:</text>\n      <rect x=\"180\" y=\""@ + r.py_rect_y@ + "\" width=\""@ + r.py_w@ + "\" height=\"18\" rx=\"3\" fill=\"#d7755d\" />\n      <text x=\""@ + r.py_val_x@ + "\" y=\""@ + r.py_y@ + "\" class=\"label-val\">"@ + r.py_p50@ + " ms ("@, r.py_rps@, "</text>\n      <!-- Rust Bar -->\n      <text x=\"50\" y=\""@ + r.rust_y@ + "\" class=\"label-lang-rust\">Rust Native:</text>\n      <rect x=\"180\" y=\""@);
        lemma_contains_extend("\n    <g class=\"lfl-row\">\n      <text x=\"30\" y=\""@ + r.label_y@ + "\" class=\"label-service\">"@ + r.category@ + ": "@ + r.workload@ + "</text>\n      <!-- Rust Bar -->\n      <text x=\"50\" y=\""@ + r.rust_y@ + "\" class=\"label-lang-rust\">Rust Native:</text>\n      <rect x=\"180\" y=\""@ + r.rust_rect_y@ + "\" width=\""@ + r.rust_w@ + "\" height=\"18\" rx=\"3\" fill=\"#7fb8a6\" />\n      <text x=\""@ + r.rust_val_x@ + "\" y=\""@ + r.rust_y@ + "\" class=\"label-val\">"@ + r.rust_p50@ + " ms ("@ + r.rust_rps@ + " req/s)</text>\n\n      <!-- Python Bar -->\n      <text x=\"50\" y=\""@ + r.py_y@ + "\" class=\"label-lang-py\">CPython 3.12:</text>\n      <rect x=\"180\" y=\""@ + r.py_rect_y@ + "\" width=\""@ + r.py_w@ + "\" height=\"18\" rx=\"3\" fill=\"#d7755d\" />\n      <text x=\""@ + r.py_val_x@ + "\" y=\""@ + r.py_y@ + "\" class=\"label-val\">"@ + r.py_p50@ + " ms ("@ + r.py_rps@, " req/s)</text>\n\n      <!-- Badge -->\n      <text x=\"820\" y=\""@, "</text>\n      <!-- Rust Bar -->\n      <text x=\"50\" y=\""@ + r.rust_y@ + "\" class=\"label-lang-rust\">Rust Native:</text>\n      <rect x=\"180\" y=\""@);
        lemma_contains_extend("\n    <g class=\"lfl-row\">\n      <text x=\"30\" y=\""@ + r.label_y@ + "\" class=\"label-service\">"@ + r.category@ + ": "@ + r.workload@ + "</text>\n      <!-- Rust Bar -->\n      <text x=\"50\" y=\""@ + r.rust_y@ + "\" class=\"label-lang-rust\">Rust Native:</text>\n      <rect x=\"180\" y=\""@ + r.rust_rect_y@ + "\" width=\""@ + r.rust_w@ + "\" height=\"18\" rx=\"3\" fill=\"#7fb8a6\" />\n      <text x=\""@ + r.rust_val_x@ + "\" y=\""@ + r.rust_y@ + "\" class=\"label-val\">"@ + r.rust_p50@ + " ms ("@ + r.rust_rps@ + " req/s)</text>\n\n      <!-- Python Bar -->\n      <text x=\"50\" y=\""@ + r.py_y@ + "\" class=\"label-lang-py\">CPython 3.12:</text>\n      <rect x=\"180\" y=\""@ + r.py_rect_y@ + "\" width=\""@ + r.py_w@ + "\" height=\"18\" rx=\"3\" fill=\"#d7755d\" />\n      <text x=\""@ + r.py_val_x@ + "\" y=\""@ + r.py_y@ + "\" class=\"label-val\">"@ + r.py_p50@ + " ms ("@ + r.py_rps@ + " req/s)</text>\n\n      <!-- Badge -->\n      <text x=\"820\" y=\""@, r.badge_y@, "</text>\n      <!-- Rust Bar -->\n      <text x=\"50\" y=\""@ + r.rust_y@ + "\" class=\"label-lang-rust\">Rust Native:</text>\n      <rect x=\"180\" y=\""@);
        lemma_contains_extend("\n    <g class=\"lfl-row\">\n      <text x=\"30\" y=\""@ + r.label_y@ + "\" class=\"label-service\">"@ + r.category@ + ": "@ + r.workload@ + "</text>\n      <!-- Rust Bar -->\n      <text x=\"50\" y=\""@ + r.rust_y@ + "\" class=\"label-lang-rust\">Rust Native:</text>\n      <rect x=\"180\" y=\""@ + r.rust_rect_y@ + "\" width=\""@ + r.rust_w@ + "\" height=\"18\" rx=\"3\" fill=\"#7fb8a6\" />\n      <text x=\""@ + r.rust_val_x@ + "\" y=\""@ + r.rust_y@ + "\" class=\"label-val\">"@ + r.rust_p50@ + " ms ("@ + r.rust_rps@ + " req/s)</text>\n\n      <!-- Python Bar -->\n      <text x=\"50\" y=\""@ + r.py_y@ + "\" class=\"label-lang-py\">CPython 3.12:</text>\n      <rect x=\"180\" y=\""@ + r.py_rect_y@ + "\" width=\""@ + r.py_w@ + "\" height=\"18\" rx=\"3\" fill=\"#d7755d\" />\n      <text x=\""@ + r.py_val_x@ + "\" y=\""@ + r.py_y@ + "\" class=\"label-val\">"@ + r.py_p50@ + " ms ("@ + r.py_rps@ + " req/s)</text>\n\n      <!-- Badge -->\n      <text x=\"820\" y=\""@ + r.badge_y@, "\" class=\"badge-speedup\">"@, "</text>\n      <!-- Rust Bar -->\n      <text x=\"50\" y=\""@ + r.rust_y@ + "\" class=\"label-lang-rust\">Rust Native:</text>\n      <rect x=\"180\" y=\""@);
        lemma_contains_extend("\n    <g class=\"lfl-row\">\n      <text x=\"30\" y=\""@ + r.label_y@ + "\" class=\"label-service\">"@ + r.category@ + ": "@ + r.workload@ + "</text>\n      <!-- Rust Bar -->\n      <text x=\"50\" y=\""@ + r.rust_y@ + "\" class=\"label-lang-rust\">Rust Native:</text>\n      <rect x=\"180\" y=\""@ + r.rust_rect_y@ + "\" width=\""@ + r.rust_w@ + "\" height=\"18\" rx=\"3\" fill=\"#7fb8a6\" />\n      <text x=\""@ + r.rust_val_x@ + "\" y=\""@ + r.rust_y@ + "\" class=\"label-val\">"@ + r.rust_p50@ + " ms ("@ + r.rust_rps@ + " req/s)</text>\n\n      <!-- Python Bar -->\n      <text x=\"50\" y=\""@ + r.py_y@ + "\" class=\"label-lang-py\">CPython 3.12:</text>\n      <rect x=\"180\" y=\""@ + r.py_rect_y@ + "\" width=\""@ + r.py_w@ + "\" height=\"18\" rx=\"3\" fill=\"#d7755d\" />\n      <text x=\""@ + r.py_val_x@ + "\" y=\""@ + r.py_y@ + "\" class=\"label-val\">"@ + r.py_p50@ + " ms ("@ + r.py_rps@ + " req/s)</text>\n\n      <!-- Badge -->\n      <text x=\"820\" y=\""@ + r.badge_y@ + "\" class=\"badge-speedup\">"@, r.speedup@, "</text>\n      <!-- Rust Bar -->\n      <text x=\"50\" y=\""@ + r.rust_y@ + "\" class=\"label-lang-rust\">Rust Native:</text>\n      <rect x=\"180\" y=\""@);
        lemma_contains_extend("\n    <g class=\"lfl-row\">\n      <text x=\"30\" y=\""@ + r.label_y@ + "\" class=\"label-service\">"@ + r.category@ + ": "@ + r.workload@ + "</text>\n      <!-- Rust Bar -->\n      <text x=\"50\" y=\""@ + r.rust_y@ + "\" class=\"label-lang-rust\">Rust Native:</text>\n      <rect x=\"180\" y=\""@ + r.rust_rect_y@ + "\" width=\""@ + r.rust_w@ + "\" height=\"18\" rx=\"3\" fill=\"#7fb8a6\" />\n      <text x=\""@ + r.rust_val_x@ + "\" y=\""@ + r.rust_y@ + "\" class=\"label-val\">"@ + r.rust_p50@ + " ms ("@ + r.rust_rps@ + " req/s)</text>\n\n      <!-- Python Bar -->\n      <text x=\"50\" y=\""@ + r.py_y@ + "\" class=\"label-lang-py\">CPython 3.12:</text>\n      <rect x=\"180\" y=\""@ + r.py_rect_y@ + "\" width=\""@ + r.py_w@ + "\" height=\"18\" rx=\"3\" fill=\"#d7755d\" />\n      <text x=\""@ + r.py_val_x@ + "\" y=\""@ + r.py_y@ + "\" class=\"label-val\">"@ + r.py_p50@ + " ms ("@ + r.py_rps@ + " req/s)</text>\n\n      <!-- Badge -->\n      <text x=\"820\" y=\""@ + r.badge_y@ + "\" class=\"badge-speedup\">"@ + r.speedup@, "x Faster</text>\n      <text x=\"820\" y=\""@, "</text>\n      <!-- Rust Bar -->\n      <text x=\"50\" y=\""@ + r.rust_y@ + "\" class=\"label-lang-rust\">Rust Native:</text>\n      <rect x=\"180\" y=\""@);
        lemma_contains_extend("\n    <g class=\"lfl-row\">\n      <text x=\"30\" y=\""@ + r.label_y@ + "\" class=\"label-service\">"@ + r.category@ + ": "@ + r.workload@ + "</text>\n      <!-- Rust Bar -->\n      <text x=\"50\" y=\""@ + r.rust_y@ + "\" class=\"label-lang-rust\">Rust Native:</text>\n      <rect x=\"180\" y=\""@ + r.rust_rect_y@ + "\" width=\""@ + r.rust_w@ + "\" height=\"18\" rx=\"3\" fill=\"#7fb8a6\" />\n      <text x=\""@ + r.rust_val_x@ + "\" y=\""@ + r.rust_y@ + "\" class=\"label-val\">"@ + r.rust_p50@ + " ms ("@ + r.rust_rps@ + " req/s)</text>\n\n      <!-- Python Bar -->\n      <text x=\"50\" y=\""@ + r.py_y@ + "\" class=\"label-lang-py\">CPython 3.12:</text>\n      <rect x=\"180\" y=\""@ + r.py_rect_y@ + "\" width=\""@ + r.py_w@ + "\" height=\"18\" rx=\"3\" fill=\"#d7755d\" />\n      <text x=\""@ + r.py_val_x@ + "\" y=\""@ + r.py_y@ + "\" class=\"label-val\">"@ + r.py_p50@ + " ms ("@ + r.py_rps@ + " req/s)</text>\n\n      <!-- Badge -->\n      <text x=\"820\" y=\""@ + r.badge_y@ + "\" class=\"badge-speedup\">"@ + r.speedup@ + "x Faster</text>\n      <text x=\"820\" y=\""@, r.badge_mem_y@, "</text>\n      <!-- Rust Bar -->\n      <text x=\"50\" y=\""@ + r.rust_y@ + "\" class=\"label-lang-rust\">Rust Native:</text>\n      <rect x=\"180\" y=\""@);
        lemma_contains_extend("\n    <g class=\"lfl-row\">\n      <text x=\"30\" y=\""@ + r.label_y@ + "\" class=\"label-service\">"@ + r.category@ + ": "@ + r.workload@ + "</text>\n      <!-- Rust Bar -->\n      <text x=\"50\" y=\""@ + r.rust_y@ + "\" class=\"label-lang-rust\">Rust Native:</text>\n      <rect x=\"180\" y=\""@ + r.rust_rect_y@ + "\" width=\""@ + r.rust_w@ + "\" height=\"18\" rx=\"3\" fill=\"#7fb8a6\" />\n      <text x=\""@ + r.rust_val_x@ + "\" y=\""@ + r.rust_y@ + "\" class=\"label-val\">"@ + r.rust_p50@ + " ms ("@ + r.rust_rps@ + " req/s)</text>\n\n      <!-- Python Bar -->\n      <text x=\"50\" y=\""@ + r.py_y@ + "\" class=\"label-lang-py\">CPython 3.12:</text>\n      <rect x=\"180\" y=\""@ + r.py_rect_y@ + "\" width=\""@ + r.py_w@ + "\" height=\"18\" rx=\"3\" fill=\"#d7755d\" />\n      <text x=\""@ + r.py_val_x@ + "\" y=\""@ + r.py_y@ + "\" class=\"label-val\">"@ + r.py_p50@ + " ms ("@ + r.py_rps@ + " req/s)</text>\n\n      <!-- Badge -->\n      <text x=\"820\" y=\""@ + r.badge_y@ + "\" class=\"badge-speedup\">"@ + r.speedup@ + "x Faster</text>\n      <text x=\"820\" y=\""@ + r.badge_mem_y@, "\" class=\"badge-mem\">(-"@, "</text>\n      <!-- Rust Bar -->\n      <text x=\"50\" y=\""@ + r.rust_y@ + "\" class=\"label-lang-rust\">Rust Native:</text>\n      <rect x=\"180\" y=\""@);
        lemma_contains_extend("\n    <g class=\"lfl-row\">\n      <text x=\"30\" y=\""@ + r.label_y@ + "\" class=\"label-service\">"@ + r.category@ + ": "@ + r.workload@ + "</text>\n      <!-- Rust Bar -->\n      <text x=\"50\" y=\""@ + r.rust_y@ + "\" class=\"label-lang-rust\">Rust Native:</text>\n      <rect x=\"180\" y=\""@ + r.rust_rect_y@ + "\" width=\""@ + r.rust_w@ + "\" height=\"18\" rx=\"3\" fill=\"#7fb8a6\" />\n      <text x=\""@ + r.rust_val_x@ + "\" y=\""@ + r.rust_y@ + "\" class=\"label-val\">"@ + r.rust_p50@ + " ms ("@ + r.rust_rps@ + " req/s)</text>\n\n      <!-- Python Bar -->\n      <text x=\"50\" y=\""@ + r.py_y@ + "\" class=\"label-lang-py\">CPython 3.12:</text>\n      <rect x=\"180\" y=\""@ + r.py_rect_y@ + "\" width=\""@ + r.py_w@ + "\" height=\"18\" rx=\"3\" fill=\"#d7755d\" />\n      <text x=\""@ + r.py_val_x@ + "\" y=\""@ + r.py_y@ + "\" class=\"label-val\">"@ + r.py_p50@ + " ms ("@ + r.py_rps@ + " req/s)</text>\n\n      <!-- Badge -->\n      <text x=\"820\" y=\""@ + r.badge_y@ + "\" class=\"badge-speedup\">"@ + r.speedup@ + "x Faster</text>\n      <text x=\"820\" y=\""@ + r.badge_mem_y@ + "\" class=\"badge-mem\">(-"@, r.mem_pct@, "</text>\n      <!-- Rust Bar -->\n      <text x=\"50\" y=\""@ + r.rust_y@ + "\" class=\"label-lang-rust\">Rust Native:</text>\n      <rect x=\"180\" y=\""@);
        lemma_contains_extend("\n    <g class=\"lfl-row\">\n      <text x=\"30\" y=\""@ + r.label_y@ + "\" class=\"label-service\">"@ + r.category@ + ": "@ + r.workload@ + "</text>\n      <!-- Rust Bar -->\n      <text x=\"50\" y=\""@ + r.rust_y@ + "\" class=\"label-lang-rust\">Rust Native:</text>\n      <rect x=\"180\" y=\""@ + r.rust_rect_y@ + "\" width=\""@ + r.rust_w@ + "\" height=\"18\" rx=\"3\" fill=\"#7fb8a6\" />\n      <text x=\""@ + r.rust_val_x@ + "\" y=\""@ + r.rust_y@ + "\" class=\"label-val\">"@ + r.rust_p50@ + " ms ("@ + r.rust_rps@ + " req/s)</text>\n\n      <!-- Python Bar -->\n      <text x=\"50\" y=\""@ + r.py_y@ + "\" class=\"label-lang-py\">CPython 3.12:</text>\n      <rect x=\"180\" y=\""@ + r.py_rect_y@ + "\" width=\""@ + r.py_w@ + "\" height=\"18\" rx=\"3\" fill=\"#d7755d\" />\n      <text x=\""@ + r.py_val_x@ + "\" y=\""@ + r.py_y@ + "\" class=\"label-val\">"@ + r.py_p50@ + " ms ("@ + r.py_rps@ + " req/s)</text>\n\n      <!-- Badge -->\n      <text x=\"820\" y=\""@ + r.badge_y@ + "\" class=\"badge-speedup\">"@ + r.speedup@ + "x Faster</text>\n      <text x=\"820\" y=\""@ + r.badge_mem_y@ + "\" class=\"badge-mem\">(-"@ + r.mem_pct@, "% RAM)</text>\n    </g>"@, "</text>\n      <!-- Rust Bar -->\n      <text x=\"50\" y=\""@ + r.rust_y@ + "\" class=\"label-lang-rust\">Rust Native:</text>\n      <rect x=\"180\" y=\""@);
    }
    assert(contains_seq(like_for_like_row_text(r), "\" class=\"label-lang-rust\">Rust Native:</text>\n      <rect x=\"180\" y=\""@ + r.rust_rect_y@ + "\" width=\""@ + r.rust_w@ + "\" height=\"18\" rx=\"3\" fill=\"#7fb8a6\" />\n      <text x=\""@)) by {
        lemma_concat_associative(("\n    <g class=\"lfl-row\">\n      <text x=\"30\" y=\""@ + r.label_y@ + "\" class=\"label-service\">"@ + r.category@ + ": "@ + r.workload@ + "</text>\n      <!-- Rust Bar -->\n      <text x=\"50\" y=\""@ + r.rust_y@), "\" class=\"label-lang-rust\">Rust Native:</text>\n      <rect x=\"180\" y=\""@, r.rust_rect_y@);
        assert(("\n    <g class=\"lfl-row\">\n      <text x=\"30\" y=\""@ + r.label_y@ + "\" class=\"label-service\">"@ + r.category@ + ": "@ + r.workload@ + "</text>\n      <!-- Rust Bar -->\n      <text x=\"50\" y=\""@ + r.rust_y@) + ("\" class=\"label-lang-rust\">Rust Native:</text>\n      <rect x=\"180\" y=\""@ + r.rust_rect_y@) == "\n    <g class=\"lfl-row\">\n      <text x=\"30\" y=\""@ + r.label_y@ + "\" class=\"label-service\">"@ + r.category@ + ": "@ + r.workload@ + "</text>\n      <!-- Rust Bar -->\n      <text x=\"50\" y=\""@ + r.rust_y@ + "\" class=\"label-lang-rust\">Rust Native:</text>\n      <rect x=\"180\" y=\""@ + r.rust_rect_y@);
        lemma_concat_associative(("\n    <g class=\"lfl-row\">\n      <text x=\"30\" y=\""@ + r.label_y@ + "\" class=\"label-service\">"@ + r.category@ + ": "@ + r.workload@ + "</text>\n      <!-- Rust Bar -->\n      <text x=\"50\" y=\""@ + r.rust_y@), "\" class=\"label-lang-rust\">Rust Native:</text>\n      <rect x=\"180\" y=\""@ + r.rust_rect_y@, "\" width=\""@);
        assert(("\n    <g class=\"lfl-row\">\n      <text x=\"30\" y=\""@ + r.label_y@ + "\" class=\"label-service\">"@ + r.category@ + ": "@ + r.workload@ + "</text>\n      <!-- Rust Bar -->\n      <text x=\"50\" y=\""@ + r.rust_y@) + ("\" class=\"label-lang-rust\">Rust Native:</text>\n      <rect x=\"180\" y=\""@ + r.rust_rect_y@ + "\" width=\""@) == "\n    <g class=\"lfl-row\">\n      <text x=\"30\" y=\""@ + r.label_y@ + "\" class=\"label-service\">"@ + r.category@ + ": "@ + r.workload@ + "</text>\n      <!-- Rust Bar -->\n      <text x=\"50\" y=\""@ + r.rust_y@ + "\" class=\"label-lang-rust\">Rust Native:</text>\n      <rect x=\"180\" y=\""@ + r.rust_rect_y@ + "\" width=\""@);
        lemma_concat_associative(("\n    <g class=\"lfl-row\">\n      <text x=\"30\" y=\""@ + r.label_y@ + "\" class=\"label-service\">"@ + r.category@ + ": "@ + r.workload@ + "</text>\n      <!-- Rust Bar -->\n      <text x=\"50\" y=\""@ + r.rust_y@), "\" class=\"label-lang-rust\">Rust Native:</text>\n      <rect x=\"180\" y=\""@ + r.rust_rect_y@ + "\" width=\""@, r.rust_w@);
        assert(("\n    <g class=\"lfl-row\">\n      <text x=\"30\" y=\""@ + r.label_y@ + "\" class=\"label-service\">"@ + r.category@ + ": "@ + r.workload@ + "</text>\n      <!-- Rust Bar -->\n      <text x=\"50\" y=\""@ + r.rust_y@) + ("\" class=\"label-lang-rust\">Rust Native:</text>\n      <rect x=\"180\" y=\""@ + r.rust_rect_y@ + "\" width=\""@ + r.rust_w@) == "\n    <g class=\"lfl-row\">\n      <text x=\"30\" y=\""@ + r.label_y@ + "\" class=\"label-service\">"@ + r.category@ + ": "@ + r.workload@ + "</text>\n      <!-- Rust Bar -->\n      <text x=\"50\" y=\""@ + r.rust_y@ + "\" class=\"label-lang-rust\">Rust Native:</text>\n      <rect x=\"180\" y=\""@ + r.rust_rect_y@ + "\" width=\""@ + r.rust_w@);
        lemma_concat_associative(("\n    <g class=\"lfl-row\">\n      <text x=\"30\" y=\""@ + r.label_y@ + "\" class=\"label-service\">"@ + r.category@ + ": "@ + r.workload@ + "</text>\n      <!-- Rust Bar -->\n      <text x=\"50\" y=\""@ + r.rust_y@), "\" class=\"label-lang-rust\">Rust Native:</text>\n      <rect x=\"180\" y=\""@ + r.rust_rect_y@ + "\" width=\""@ + r.rust_w@, "\" height=\"18\" rx=\"3\" fill=\"#7fb8a6\" />\n      <text x=\""@);
        assert(("\n    <g class=\"lfl-row\">\n      <text x=\"30\" y=\""@ + r.label_y@ + "\" class=\"label-service\">"@ + r.category@ + ": "@ + r.workload@ + "</text>\n      <!-- Rust Bar -->\n      <text x=\"50\" y=\""@ + r.rust_y@) + ("\" class=\"label-lang-rust\">Rust Native:</text>\n      <rect x=\"180\" y=\""@ + r.rust_rect_y@ + "\" width=\""@ + r.rust_w@ + "\" height=\"18\" rx=\"3\" fill=\"#7fb8a6\" />\n      <text x=\""@) == "\n    <g class=\"lfl-row\">\n      <text x=\"30\" y=\""@ + r.label_y@ + "\" class=\"label-service\">"@ + r.category@ + ": "@ + r.workload@ + "</text>\n      <!-- Rust Bar -->\n      <text x=\"50\" y=\""@ + r.rust_y@ + "\" class=\"label-lang-rust\">Rust Native:</text>\n      <rect x=\"180\" y=\""@ + r.rust_rect_y@ + "\" width=\""@ + r.rust_w@ + "\" height=\"18\" rx=\"3\" fill=\"#7fb8a6\" />\n      <text x=\""@);
        lemma_contains_tail(("\n    <g class=\"lfl-row\">\n      <text x=\"30\" y=\""@ + r.label_y@ + "\" class=\"label-service\">"@ + r.category@ + ": "@ + r.workload@ + "</text>\n      <!-- Rust Bar -->\n      <text x=\"50\" y=\""@ + r.rust_y@), "\" class=\"label-lang-rust\">Rust Native:</text>\n      <rect x=\"180\" y=\""@ + r.rust_rect_y@ + "\" width=\""@ + r.rust_w@ + "\" height=\"18\" rx=\"3\" fill=\"#7fb8a6\" />\n      <text x=\""@);
        lemma_contains_extend("\n    <g class=\"lfl-row\">\n      <text x=\"30\" y=\""@ + r.label_y@ + "\" class=\"label-service\">"@ + r.category@ + ": "@ + r.workload@ + "</text>\n      <!-- Rust Bar -->\n      <text x=\"50\" y=\""@ + r.rust_y@ + "\" class=\"label-lang-rust\">Rust Native:</text>\n      <rect x=\"180\" y=\""@ + r.rust_rect_y@ + "\" width=\""@ + r.rust_w@ + "\" height=\"18\" rx=\"3\" fill=\"#7fb8a6\" />\n      <text x=\""@, r.rust_val_x@, "\" class=\"label-lang-rust\">Rust Native:</text>\n      <rect x=\"180\" y=\""@ + r.rust_rect_y@ + "\" width=\""@ + r.rust_w@ + "\" height=\"18\" rx=\"3\" fill=\"#7fb8a6\" />\n      <text x=\""@);
        lemma_contains_extend("\n    <g class=\"lfl-row\">\n      <text x=\"30\" y=\""@ + r.label_y@ + "\" class=\"label-service\">"@ + r.category@ + ": "@ + r.workload@ + "</text>\n      <!-- Rust Bar -->\n      <text x=\"50\" y=\""@ + r.rust_y@ + "\" class=\"label-lang-rust\">Rust Native:</text>\n      <rect x=\"180\" y=\""@ + r.rust_rect_y@ + "\" width=\""@ + r.rust_w@ + "\" height=\"18\" rx=\"3\" fill=\"#7fb8a6\" />\n      <text x=\""@ + r.rust_val_x@, "\" y=\""@, "\" class=\"label-lang-rust\">Rust Native:</text>\n      <rect x=\"180\" y=\""@ + r.rust_rect_y@ + "\" width=\""@ + r.rust_w@ + "\" height=\"18\" rx=\"3\" fill=\"#7fb8a6\" />\n      <text x=\""@);
        lemma_contains_extend("\n    <g class=\"lfl-row\">\n      <text x=\"30\" y=\""@ + r.label_y@ + "\" class=\"label-service\">"@ + r.category@ + ": "@ + r.workload@ + "</text>\n      <!-- Rust Bar -->\n      <text x=\"50\" y=\""@ + r.rust_y@ + "\" class=\"label-lang-rust\">Rust Native:</text>\n      <rect x=\"180\" y=\""@ + r.rust_rect_y@ + "\" width=\""@ + r.rust_w@ + "\" height=\"18\" rx=\"3\" fill=\"#7fb8a6\" />\n      <text x=\""@ + r.rust_val_x@ + "\" y=\""@, r.rust_y@, "\" class=\"label-lang-rust\">Rust Native:</text>\n      <rect x=\"180\" y=\""@ + r.rust_rect_y@ + "\" width=\""@ + r.rust_w@ + "\" height=\"18\" rx=\"3\" fill=\"#7fb8a6\" />\n      <text x=\""@);
        lemma_contains_extend("\n    <g class=\"lfl-row\">\n      <text x=\"30\" y=\""@ + r.label_y@ + "\" class=\"label-service\">"@ + r.category@ + ": "@ + r.workload@ + "</text>\n      <!-- Rust Bar -->\n      <text x=\"50\" y=\""@ + r.rust_y@ + "\" class=\"label-lang-rust\">Rust Native:</text>\n      <rect x=\"180\" y=\""@ + r.rust_rect_y@ + "\" width=\""@ + r.rust_w@ + "\" height=\"18\" rx=\"3\" fill=\"#7fb8a6\" />\n      <text x=\""@ + r.rust_val_x@ + "\" y=\""@ + r.rust_y@, "\" class=\"label-val\">"@, "\" class=\"label-lang-rust\">Rust Native:</text>\n      <rect x=\"180\" y=\""@ + r.rust_rect_y@ + "\" width=\""@ + r.rust_w@ + "\" height=\"18\" rx=\"3\" fill=\"#7fb8a6\" />\n      <text x=\""@);
        lemma_contains_extend("\n    <g class=\"lfl-row\">\n      <text x=\"30\" y=\""@ + r.label_y@ + "\" class=\"label-service\">"@ + r.category@ + ": "@ + r.workload@ + "</text>\n      <!-- Rust Bar -->\n      <text x=\"50\" y=\""@ + r.rust_y@ + "\" class=\"label-lang-rust\">Rust Native:</text>\n      <rect x=\"180\" y=\""@ + r.rust_rect_y@ + "\" width=\""@ + r.rust_w@ + "\" height=\"18\" rx=\"3\" fill=\"#7fb8a6\" />\n      <text x=\""@ + r.rust_val_x@ + "\" y=\""@ + r.rust_y@ + "\" class=\"label-val\">"@, r.rust_p50@, "\" class=\"label-lang-rust\">Rust Native:</text>\n      <rect x=\"180\" y=\""@ + r.rust_rect_y@ + "\" width=\""@ + r.rust_w@ + "\" height=\"18\" rx=\"3\" fill=\"#7fb8a6\" />\n      <text x=\""@);
        lemma_contains_extend("\n    <g class=\"lfl-row\">\n      <text x=\"30\" y=\""@ + r.label_y@ + "\" class=\"label-service\">"@ + r.category@ + ": "@ + r.workload@ + "</text>\n      <!-- Rust Bar -->\n      <text x=\"50\" y=\""@ + r.rust_y@ + "\" class=\"label-lang-rust\">Rust Native:</text>\n      <rect x=\"180\" y=\""@ + r.rust_rect_y@ + "\" width=\""@ + r.rust_w@ + "\" height=\"18\" rx=\"3\" fill=\"#7fb8a6\" />\n      <text x=\""@ + r.rust_val_x@ + "\" y=\""@ + r.rust_y@ + "\" class=\"label-val\">"@ + r.rust_p50@, " ms ("@, "\" class=\"label-lang-rust\">Rust Native:</text>\n      <rect x=\"180\" y=\""@ + r.rust_rect_y@ + "\" width=\""@ + r.rust_w@ + "\" height=\"18\" rx=\"3\" fill=\"#7fb8a6\" />\n      <text x=\""@);
        lemma_contains_extend("\n    <g class=\"lfl-row\">\n      <text x=\"30\" y=\""@ + r.label_y@ + "\" class=\"label-service\">"@ + r.category@ + ": "@ + r.workload@ + "</text>\n      <!-- Rust Bar -->\n      <text x=\"50\" y=\""@ + r.rust_y@ + "\" class=\"label-lang-rust\">Rust Native:</text>\n      <rect x=\"180\" y=\""@ + r.rust_rect_y@ + "\" width=\""@ + r.rust_w@ + "\" height=\"18\" rx=\"3\" fill=\"#7fb8a6\" />\n      <text x=\""@ + r.rust_val_x@ + "\" y=\""@ + r.rust_y@ + "\" class=\"label-val\">"@ + r.rust_p50@ + " ms ("@, r.rust_rps@, "\" class=\"label-lang-rust\">Rust Native:</text>\n      <rect x=\"180\" y=\""@ + r.rust_rect_y@ + "\" width=\""@ + r.rust_w@ + "\" height=\"18\" rx=\"3\" fill=\"#7fb8a6\" />\n      <text x=\""@);
        lemma_contains_extend("\n    <g class=\"lfl-row\">\n      <text x=\"30\" y=\""@ + r.label_y@ + "\" class=\"label-service\">"@ + r.category@ + ": "@ + r.workload@ + "</text>\n      <!-- Rust Bar -->\n      <text x=\"50\" y=\""@ + r.rust_y@ + "\" class=\"label-lang-rust\">Rust Native:</text>\n      <rect x=\"180\" y=\""@ + r.rust_rect_y@ + "\" width=\""@ + r.rust_w@ + "\" height=\"18\" rx=\"3\" fill=\"#7fb8a6\" />\n      <text x=\""@ + r.rust_val_x@ + "\" y=\""@ + r.rust_y@ + "\" class=\"label-val\">"@ + r.rust_p50@ + " ms ("@ + r.rust_rps@, " req/s)</text>\n\n      <!-- Python Bar -->\n      <text x=\"50\" y=\""@, "\" class=\"label-lang-rust\">Rust Native:</text>\n      <rect x=\"180\" y=\""@ + r.rust_rect_y@ + "\" width=\""@ + r.rust_w@ + "\" height=\"18\" rx=\"3\" fill=\"#7fb8a6\" />\n      <text x=\""@);
        lemma_contains_extend("\n    <g class=\"lfl-row\">\n      <text x=\"30\" y=\""@ + r.label_y@ + "\" class=\"label-service\">"@ + r.category@ + ": "@ + r.workload@ + "</text>\n      <!-- Rust Bar -->\n      <text x=\"50\" y=\""@ + r.rust_y@ + "\" class=\"label-lang-rust\">Rust Native:</text>\n      <rect x=\"180\" y=\""@ + r.rust_rect_y@ + "\" width=\""@ + r.rust_w@ + "\" height=\"18\" rx=\"3\" fill=\"#7fb8a6\" />\n      <text x=\""@ + r.rust_val_x@ + "\" y=\""@ + r.rust_y@ + "\" class=\"label-val\">"@ + r.rust_p50@ + " ms ("@ + r.rust_rps@ + " req/s)</text>\n\n      <!-- Python Bar -->\n      <text x=\"50\" y=\""@, r.py_y@, "\" class=\"label-lang-rust\">Rust Native:</text>\n      <rect x=\"180\" y=\""@ + r.rust_rect_y@ + "\" width=\""@ + r.rust_w@ + "\" height=\"18\" rx=\"3\" fill=\"#7fb8a6\" />\n      <text x=\""@);
        lemma_contains_extend("\n    <g class=\"lfl-row\">\n      <text x=\"30\" y=\""@ + r.label_y@ + "\" class=\"label-service\">"@ + r.category@ + ": "@ + r.workload@ + "</text>\n      <!-- Rust Bar -->\n      <text x=\"50\" y=\""@ + r.rust_y@ + "\" class=\"label-lang-rust\">Rust Native:</text>\n      <rect x=\"180\" y=\""@ + r.rust_rect_y@ + "\" width=\""@ + r.rust_w@ + "\" height=\"18\" rx=\"3\" fill=\"#7fb8a6\" />\n      <text x=\""@ + r.rust_val_x@ + "\" y=\""@ + r.rust_y@ + "\" class=\"label-val\">"@ + r.rust_p50@ + " ms ("@ + r.rust_rps@ + " req/s)</text>\n\n      <!-- Python Bar -->\n      <text x=\"50\" y=\""@ + r.py_y@, "\" class=\"label-lang-py\">CPython 3.12:</text>\n      <rect x=\"180\" y=\""@, "\" class=\"label-lang-rust\">Rust Native:</text>\n      <rect x=\"180\" y=\""@ + r.rust_rect_y@ + "\" width=\""@ + r.rust_w@ + "\" height=\"18\" rx=\"3\" fill=\"#7fb8a6\" />\n      <text x=\""@);
        lemma_contains_extend("\n    <g class=\"lfl-row\">\n      <text x=\"30\" y=\""@ + r.label_y@ + "\" class=\"label-service\">"@ + r.category@ + ": "@ + r.workload@ + "</text>\n      <!-- Rust Bar -->\n      <text x=\"50\" y=\""@ + r.rust_y@ + "\" class=\"label-lang-rust\">Rust Native:</text>\n      <rect x=\"180\" y=\""@ + r.rust_rect_y@ + "\" width=\""@ + r.rust_w@ + "\" height=\"18\" rx=\"3\" fill=\"#7fb8a6\" />\n      <text x=\""@ + r.rust_val_x@ + "\" y=\""@ + r.rust_y@ + "\" class=\"label-val\">"@ + r.rust_p50@ + " ms ("@ + r.rust_rps@ + " req/s)</text>\n\n      <!-- Python Bar -->\n      <text x=\"50\" y=\""@ + r.py_y@ + "\" class=\"label-lang-py\">CPython 3.12:</text>\n      <rect x=\"180\" y=\""@, r.py_rect_y@, "\" class=\"label-lang-rust\">Rust Native:</text>\n      <rect x=\"180\" y=\""@ + r.rust_rect_y@ + "\" width=\""@ + r.rust_w@ + "\" height=\"18\" rx=\"3\" fill=\"#7fb8a6\" />\n      <text x=\""@);
        lemma_contains_extend("\n    <g class=\"lfl-row\">\n      <text x=\"30\" y=\""@ + r.label_y@ + "\" class=\"label-service\">"@ + r.category@ + ": "@ + r.workload@ + "</text>\n      <!-- Rust Bar -->\n      <text x=\"50\" y=\""@ + r.rust_y@ + "\" class=\"label-lang-rust\">Rust Native:</text>\n      <rect x=\"180\" y=\""@ + r.rust_rect_y@ + "\" width=\""@ + r.rust_w@ + "\" height=\"18\" rx=\"3\" fill=\"#7fb8a6\" />\n      <text x=\""@ + r.rust_val_x@ + "\" y=\""@ + r.rust_y@ + "\" class=\"label-val\">"@ + r.rust_p50@ + " ms ("@ + r.rust_rps@ + " req/s)</text>\n\n      <!-- Python Bar -->\n      <text x=\"50\" y=\""@ + r.py_y@ + "\" class=\"label-lang-py\">CPython 3.12:</text>\n      <rect x=\"180\" y=\""@ + r.py_rect_y@, "\" width=\""@, "\" class=\"label-lang-rust\">Rust Native:</text>\n      <rect x=\"180\" y=\""@ + r.rust_rect_y@ + "\" width=\""@ + r.rust_w@ + "\" height=\"18\" rx=\"3\" fill=\"#7fb8a6\" />\n      <text x=\""@);
        lemma_contains_extend("\n    <g class=\"lfl-row\">\n      <text x=\"30\" y=\""@ + r.label_y@ + "\" class=\"label-service\">"@ + r.category@ + ": "@ + r.workload@ + "</text>\n      <!-- Rust Bar -->\n      <text x=\"50\" y=\""@ + r.rust_y@ + "\" class=\"label-lang-rust\">Rust Native:</text>\n      <rect x=\"180\" y=\""@ + r.rust_rect_y@ + "\" width=\""@ + r.rust_w@ + "\" height=\"18\" rx=\"3\" fill=\"#7fb8a6\" />\n      <text x=\""@ + r.rust_val_x@ + "\" y=\""@ + r.rust_y@ + "\" class=\"label-val\">"@ + r.rust_p50@ + " ms ("@ + r.rust_rps@ + " req/s)</text>\n\n      <!-- Python Bar -->\n      <text x=\"50\" y=\""@ + r.py_y@ + "\" class=\"label-lang-py\">CPython 3.12:</text>\n      <rect x=\"180\" y=\""@ + r.py_rect_y@ + "\" width=\""@, r.py_w@, "\" class=\"label-lang-rust\">Rust Native:</text>\n      <rect x=\"180\" y=\""@ + r.rust_rect_y@ + "\" width=\""@ + r.rust_w@ + "\" height=\"18\" rx=\"3\" fill=\"#7fb8a6\" />\n      <text x=\""@);
        lemma_contains_extend("\n    <g class=\"lfl-row\">\n      <text x=\"30\" y=\""@ + r.label_y@ + "\" class=\"label-service\">"@ + r.category@ + ": "@ + r.workload@ + "</text>\n      <!-- Rust Bar -->\n      <text x=\"50\" y=\""@ + r.rust_y@ + "\" class=\"label-lang-rust\">Rust Native:</text>\n      <rect x=\"180\" y=\""@ + r.rust_rect_y@ + "\" width=\""@ + r.rust_w@ + "\" height=\"18\" rx=\"3\" fill=\"#7fb8a6\" />\n      <text x=\""@ + r.rust_val_x@ + "\" y=\""@ + r.rust_y@ + "\" class=\"label-val\">"@ + r.rust_p50@ + " ms ("@ + r.rust_rps@ + " req/s)</text>\n\n      <!-- Python Bar -->\n      <text x=\"50\" y=\""@ + r.py_y@ + "\" class=\"label-lang-py\">CPython 3.12:</text>\n      <rect x=\"180\" y=\""@ + r.py_rect_y@ + "\" width=\""@ + r.py_w@, "\" height=\"18\" rx=\"3\" fill=\"#d7755d\" />\n      <text x=\""@, "\" class=\"label-lang-rust\">Rust Native:</text>\n      <rect x=\"180\" y=\""@ + r.rust_rect_y@ + "\" width=\""@ + r.rust_w@ + "\" height=\"18\" rx=\"3\" fill=\"#7fb8a6\" />\n      <text x=\""@);
        lemma_contains_extend("\n    <g class=\"lfl-row\">\n      <text x=\"30\" y=\""@ + r.label_y@ + "\" class=\"label-service\">"@ + r.category@ + ": "@ + r.workload@ + "</text>\n      <!-- Rust Bar -->\n      <text x=\"50\" y=\""@ + r.rust_y@ + "\" class=\"label-lang-rust\">Rust Native:</text>\n      <rect x=\"180\" y=\""@ + r.rust_rect_y@ + "\" width=\""@ + r.rust_w@ + "\" height=\"18\" rx=\"3\" fill=\"#7fb8a6\" />\n      <text x=\""@ + r.rust_val_x@ + "\" y=\""@ + r.rust_y@ + "\" class=\"label-val\">"@ + r.rust_p50@ + " ms ("@ + r.rust_rps@ + " req/s)</text>\n\n      <!-- Python Bar -->\n      <text x=\"50\" y=\""@ + r.py_y@ + "\" class=\"label-lang-py\">CPython 3.12:</text>\n      <rect x=\"180\" y=\""@ + r.py_rect_y@ + "\" width=\""@ + r.py_w@ + "\" height=\"18\" rx=\"3\" fill=\"#d7755d\" />\n      <text x=\""@, r.py_val_x@, "\" class=\"label-lang-rust\">Rust Native:</text>\n      <rect x=\"180\" y=\""@ + r.rust_rect_y@ + "\" width=\""@ + r.rust_w@ + "\" height=\"18\" rx=\"3\" fill=\"#7fb8a6\" />\n      <text x=\""@);
        lemma_contains_extend("\n    <g class=\"lfl-row\">\n      <text x=\"30\" y=\""@ + r.label_y@ + "\" class=\"label-service\">"@ + r.category@ + ": "@ + r.workload@ + "</text>\n      <!-- Rust Bar -->\n      <text x=\"50\" y=\""@ + r.rust_y@ + "\" class=\"label-lang-rust\">Rust Native:</text>\n      <rect x=\"180\" y=\""@ + r.rust_rect_y@ + "\" width=\""@ + r.rust_w@ + "\" height=\"18\" rx=\"3\" fill=\"#7fb8a6\" />\n      <text x=\""@ + r.rust_val_x@ + "\" y=\""@ + r.rust_y@ + "\" class=\"label-val\">"@ + r.rust_p50@ + " ms ("@ + r.rust_rps@ + " req/s)</text>\n\n      <!-- Python Bar -->\n      <text x=\"50\" y=\""@ + r.py_y@ + "\" class=\"label-lang-py\">CPython 3.12:</text>\n      <rect x=\"180\" y=\""@ + r.py_rect_y@ + "\" width=\""@ + r.py_w@ + "\" height=\"18\" rx=\"3\" fill=\"#d7755d\" />\n      <text x=\""@ + r.py_val_x@, "\" y=\""@, "\" class=\"label-lang-rust\">Rust Native:</text>\n      <rect x=\"180\" y=\""@ + r.rust_rect_y@ + "\" width=\""@ + r.rust_w@ + "\" height=\"18\" rx=\"3\" fill=\"#7fb8a6\" />\n      <text x=\""@);
        lemma_contains_extend("\n    <g class=\"lfl-row\">\n      <text x=\"30\" y=\""@ + r.label_y@ + "\" class=\"label-service\">"@ + r.category@ + ": "@ + r.workload@ + "</text>\n      <!-- Rust Bar -->\n      <text x=\"50\" y=\""@ + r.rust_y@ + "\" class=\"label-lang-rust\">Rust Native:</text>\n      <rect x=\"180\" y=\""@ + r.rust_rect_y@ + "\" width=\""@ + r.rust_w@ + "\" height=\"18\" rx=\"3\" fill=\"#7fb8a6\" />\n      <text x=\""@ + r.rust_val_x@ + "\" y=\""@ + r.rust_y@ + "\" class=\"label-val\">"@ + r.rust_p50@ + " ms ("@ + r.rust_rps@ + " req/s)</text>\n\n      <!-- Python Bar -->\n      <text x=\"50\" y=\""@ + r.py_y@ + "\" class=\"label-lang-py\">CPython 3.12:</text>\n      <rect x=\"180\" y=\""@ + r.py_rect_y@ + "\" width=\""@ + r.py_w@ + "\" height=\"18\" rx=\"3\" fill=\"#d7755d\" />\n      <text x=\""@ + r.py_val_x@ + "\" y=\""@, r.py_y@, "\" class=\"label-lang-rust\">Rust Native:</text>\n      <rect x=\"180\" y=\""@ + r.rust_rect_y@ + "\" width=\""@ + r.rust_w@ + "\" height=\"18\" rx=\"3\" fill=\"#7fb8a6\" />\n      <text x=\""@);
        lemma_contains_extend("\n    <g class=\"lfl-row\">\n      <text x=\"30\" y=\""@ + r.label_y@ + "\" class=\"label-service\">"@ + r.category@ + ": "@ + r.workload@ + "</text>\n      <!-- Rust Bar -->\n      <text x=\"50\" y=\""@ + r.rust_y@ + "\" class=\"label-lang-rust\">Rust Native:</text>\n      <rect x=\"180\" y=\""@ + r.rust_rect_y@ + "\" width=\""@ + r.rust_w@ + "\" height=\"18\" rx=\"3\" fill=\"#7fb8a6\" />\n      <text x=\""@ + r.rust_val_x@ + "\" y=\""@ + r.rust_y@ + "\" class=\"label-val\">"@ + r.rust_p50@ + " ms ("@ + r.rust_rps@ + " req/s)</text>\n\n      <!-- Python Bar -->\n      <text x=\"50\" y=\""@ + r.py_y@ + "\" class=\"label-lang-py\">CPython 3.12:</text>\n      <rect x=\"180\" y=\""@ + r.py_rect_y@ + "\" width=\""@ + r.py_w@ + "\" height=\"18\" rx=\"3\" fill=\"#d7755d\" />\n      <text x=\""@ + r.py_val_x@ + "\" y=\""@ + r.py_y@, "\" class=\"label-val\">"@, "\" class=\"label-lang-rust\">Rust Native:</text>\n      <rect x=\"180\" y=\""@ + r.rust_rect_y@ + "\" width=\""@ + r.rust_w@ + "\" height=\"18\" rx=\"3\" fill=\"#7fb8a6\" />\n      <text x=\""@);
        lemma_contains_extend("\n    <g class=\"lfl-row\">\n      <text x=\"30\" y=\""@ + r.label_y@ + "\" class=\"label-service\">"@ + r.category@ + ": "@ + r.workload@ + "</text>\n      <!-- Rust Bar -->\n      <text x=\"50\" y=\""@ + r.rust_y@ + "\" class=\"label-lang-rust\">Rust Native:</text>\n      <rect x=\"180\" y=\""@ + r.rust_rect_y@ + "\" width=\""@ + r.rust_w@ + "\" height=\"18\" rx=\"3\" fill=\"#7fb8a6\" />\n      <text x=\""@ + r.rust_val_x@ + "\" y=\""@ + r.rust_y@ + "\" class=\"label-val\">"@ + r.rust_p50@ + " ms ("@ + r.rust_rps@ + " req/s)</text>\n\n      <!-- Python Bar -->\n      <text x=\"50\" y=\""@ + r.py_y@ + "\" class=\"label-lang-py\">CPython 3.12:</text>\n      <rect x=\"180\" y=\""@ + r.py_rect_y@ + "\" width=\""@ + r.py_w@ + "\" height=\"18\" rx=\"3\" fill=\"#d7755d\" />\n      <text x=\""@ + r.py_val_x@ + "\" y=\""@ + r.py_y@ + "\" class=\"label-val\">"@, r.py_p50@, "\" class=\"label-lang-rust\">Rust Native:</text>\n      <rect x=\"180\" y=\""@ + r.rust_rect_y@ + "\" width=\""@ + r.rust_w@ + "\" height=\"18\" rx=\"3\" fill=\"#7fb8a6\" />\n      <text x=\""@);
        lemma_contains_extend("\n    <g class=\"lfl-row\">\n      <text x=\"30\" y=\""@ + r.label_y@ + "\" class=\"label-service\">"@ + r.category@ + ": "@ + r.workload@ + "</text>\n      <!-- Rust Bar -->\n      <text x=\"50\" y=\""@ + r.rust_y@ + "\" class=\"label-lang-rust\">Rust Native:</text>\n      <rect x=\"180\" y=\""@ + r.rust_rect_y@ + "\" width=\""@ + r.rust_w@ + "\" height=\"18\" rx=\"3\" fill=\"#7fb8a6\" />\n      <text x=\""@ + r.rust_val_x@ + "\" y=\""@ + r.rust_y@ + "\" class=\"label-val\">"@ + r.rust_p50@ + " ms ("@ + r.rust_rps@ + " req/s)</text>\n\n      <!-- Python Bar -->\n      <text x=\"50\" y=\""@ + r.py_y@ + "\" class=\"label-lang-py\">CPython 3.12:</text>\n      <rect x=\"180\" y=\""@ + r.py_rect_y@ + "\" width=\""@ + r.py_w@ + "\" height=\"18\" rx=\"3\" fill=\"#d7755d\" />\n      <text x=\""@ + r.py_val_x@ + "\" y=\""@ + r.py_y@ + "\" class=\"label-val\">"@ + r.py_p50@, " ms ("@, "\" class=\"label-lang-rust\">Rust Native:</text>\n      <rect x=\"180\" y=\""@ + r.rust_rect_y@ + "\" width=\""@ + r.rust_w@ + "\" height=\"18\" rx=\"3\" fill=\"#7fb8a6\" />\n      <text x=\""@);
        lemma_contains_extend("\n    <g class=\"lfl-row\">\n      <text x=\"30\" y=\""@ + r.label_y@ + "\" class=\"label-service\">"@ + r.category@ + ": "@ + r.workload@ + "</text>\n      <!-- Rust Bar -->\n      <text x=\"50\" y=\""@ + r.rust_y@ + "\" class=\"label-lang-rust\">Rust Native:</text>\n      <rect x=\"180\" y=\""@ + r.rust_rect_y@ + "\" width=\""@ + r.rust_w@ + "\" height=\"18\" rx=\"3\" fill=\"#7fb8a6\" />\n      <text x=\""@ + r.rust_val_x@ + "\" y=\""@ + r.rust_y@ + "\" class=\"label-val\">"@ + r.rust_p50@ + " ms ("@ + r.rust_rps@ + " req/s)</text>\n\n      <!-- Python Bar -->\n      <text x=\"50\" y=\""@ + r.py_y@ + "\" class=\"label-lang-py\">CPython 3.12:</text>\n      <rect x=\"180\" y=\""@ + r.py_rect_y@ + "\" width=\""@ + r.py_w@ + "\" height=\"18\" rx=\"3\" fill=\"#d7755d\" />\n      <text x=\""@ + r.py_val_x@ + "\" y=\""@ + r.py_y@ + "\" class=\"label-val\">"@ + r.py_p50@ + " ms ("@, r.py_rps@, "\" class=\"label-lang-rust\">Rust Native:</text>\n      <rect x=\"180\" y=\""@ + r.rust_rect_y@ + "\" width=\""@ + r.rust_w@ + "\" height=\"18\" rx=\"3\" fill=\"#7fb8a6\" />\n      <text x=\""@);
        lemma_contains_extend("\n    <g class=\"lfl-row\">\n      <text x=\"30\" y=\""@ + r.label_y@ + "\" class=\"label-service\">"@ + r.category@ + ": "@ + r.workload@ + "</text>\n      <!-- Rust Bar -->\n      <text x=\"50\" y=\""@ + r.rust_y@ + "\" class=\"label-lang-rust\">Rust Native:</text>\n      <rect x=\"180\" y=\""@ + r.rust_rect_y@ + "\" width=\""@ + r.rust_w@ + "\" height=\"18\" rx=\"3\" fill=\"#7fb8a6\" />\n      <text x=\""@ + r.rust_val_x@ + "\" y=\""@ + r.rust_y@ + "\" class=\"label-val\">"@ + r.rust_p50@ + " ms ("@ + r.rust_rps@ + " req/s)</text>\n\n      <!-- Python Bar -->\n      <text x=\"50\" y=\""@ + r.py_y@ + "\" class=\"label-lang-py\">CPython 3.12:</text>\n      <rect x=\"180\" y=\""@ + r.py_rect_y@ + "\" width=\""@ + r.py_w@ + "\" height=\"18\" rx=\"3\" fill=\"#d7755d\" />\n      <text x=\""@ + r.py_val_x@ + "\" y=\""@ + r.py_y@ + "\" class=\"label-val\">"@ + r.py_p50@ + " ms ("@ + r.py_rps@, " req/s)</text>\n\n      <!-- Badge -->\n      <text x=\"820\" y=\""@, "\" class=\"label-lang-rust\">Rust Native:</text>\n      <rect x=\"180\" y=\""@ + r.rust_rect_y@ + "\" width=\""@ + r.rust_w@ + "\" height=\"18\" rx=\"3\" fill=\"#7fb8a6\" />\n      <text x=\""@);
        lemma_contains_extend("\n    <g class=\"lfl-row\">\n      <text x=\"30\" y=\""@ + r.label_y@ + "\" class=\"label-service\">"@ + r.category@ + ": "@ + r.workload@ + "</text>\n      <!-- Rust Bar -->\n      <text x=\"50\" y=\""@ + r.rust_y@ + "\" class=\"label-lang-rust\">Rust Native:</text>\n      <rect x=\"180\" y=\""@ + r.rust_rect_y@ + "\" width=\""@ + r.rust_w@ + "\" height=\"18\" rx=\"3\" fill=\"#7fb8a6\" />\n      <text x=\""@ + r.rust_val_x@ + "\" y=\""@ + r.rust_y@ + "\" class=\"label-val\">"@ + r.rust_p50@ + " ms ("@ + r.rust_rps@ + " req/s)</text>\n\n      <!-- Python Bar -->\n      <text x=\"50\" y=\""@ + r.py_y@ + "\" class=\"label-lang-py\">CPython 3.12:</text>\n      <rect x=\"180\" y=\""@ + r.py_rect_y@ + "\" width=\""@ + r.py_w@ + "\" height=\"18\" rx=\"3\" fill=\"#d7755d\" />\n      <text x=\""@ + r.py_val_x@ + "\" y=\""@ + r.py_y@ + "\" class=\"label-val\">"@ + r.py_p50@ + " ms ("@ + r.py_rps@ + " req/s)</text>\n\n      <!-- Badge -->\n      <text x=\"820\" y=\""@, r.badge_y@, "\" class=\"label-lang-rust\">Rust Native:</text>\n      <rect x=\"180\" y=\""@ + r.rust_rect_y@ + "\" width=\""@ + r.rust_w@ + "\" height=\"18\" rx=\"3\" fill=\"#7fb8a6\" />\n      <text x=\""@);
        lemma_contains_extend("\n    <g class=\"lfl-row\">\n      <text x=\"30\" y=\""@ + r.label_y@ + "\" class=\"label-service\">"@ + r.category@ + ": "@ + r.workload@ + "</text>\n      <!-- Rust Bar -->\n      <text x=\"50\" y=\""@ + r.rust_y@ + "\" class=\"label-lang-rust\">Rust Native:</text>\n      <rect x=\"180\" y=\""@ + r.rust_rect_y@ + "\" width=\""@ + r.rust_w@ + "\" height=\"18\" rx=\"3\" fill=\"#7fb8a6\" />\n      <text x=\""@ + r.rust_val_x@ + "\" y=\""@ + r.rust_y@ + "\" class=\"label-val\">"@ + r.rust_p50@ + " ms ("@ + r.rust_rps@ + " req/s)</text>\n\n      <!-- Python Bar -->\n      <text x=\"50\" y=\""@ + r.py_y@ + "\" class=\"label-lang-py\">CPython 3.12:</text>\n      <rect x=\"180\" y=\""@ + r.py_rect_y@ + "\" width=\""@ + r.py_w@ + "\" height=\"18\" rx=\"3\" fill=\"#d7755d\" />\n      <text x=\""@ + r.py_val_x@ + "\" y=\""@ + r.py_y@ + "\" class=\"label-val\">"@ + r.py_p50@ + " ms ("@ + r.py_rps@ + " req/s)</text>\n\n      <!-- Badge -->\n      <text x=\"820\" y=\""@ + r.badge_y@, "\" class=\"badge-speedup\">"@, "\" class=\"label-lang-rust\">Rust Native:</text>\n      <rect x=\"180\" y=\""@ + r.rust_rect_y@ + "\" width=\""@ + r.rust_w@ + "\" height=\"18\" rx=\"3\" fill=\"#7fb8a6\" />\n      <text x=\""@);
        lemma_contains_extend("\n    <g class=\"lfl-row\">\n      <text x=\"30\" y=\""@ + r.label_y@ + "\" class=\"label-service\">"@ + r.category@ + ": "@ + r.workload@ + "</text>\n      <!-- Rust Bar -->\n      <text x=\"50\" y=\""@ + r.rust_y@ + "\" class=\"label-lang-rust\">Rust Native:</text>\n      <rect x=\"180\" y=\""@ + r.rust_rect_y@ + "\" width=\""@ + r.rust_w@ + "\" height=\"18\" rx=\"3\" fill=\"#7fb8a6\" />\n      <text x=\""@ + r.rust_val_x@ + "\" y=\""@ + r.rust_y@ + "\" class=\"label-val\">"@ + r.rust_p50@ + " ms ("@ + r.rust_rps@ + " req/s)</text>\n\n      <!-- Python Bar -->\n      <text x=\"50\" y=\""@ + r.py_y@ + "\" class=\"label-lang-py\">CPython 3.12:</text>\n      <rect x=\"180\" y=\""@ + r.py_rect_y@ + "\" width=\""@ + r.py_w@ + "\" height=\"18\" rx=\"3\" fill=\"#d7755d\" />\n      <text x=\""@ + r.py_val_x@ + "\" y=\""@ + r.py_y@ + "\" class=\"label-val\">"@ + r.py_p50@ + " ms ("@ + r.py_rps@ + " req/s)</text>\n\n      <!-- Badge -->\n      <text x=\"820\" y=\""@ + r.badge_y@ + "\" class=\"badge-speedup\">"@, r.speedup@, "\" class=\"label-lang-rust\">Rust Native:</text>\n      <rect x=\"180\" y=\""@ + r.rust_rect_y@ + "\" width=\""@ + r.rust_w@ + "\" height=\"18\" rx=\"3\" fill=\"#7fb8a6\" />\n      <text x=\""@);
        lemma_contains_extend("\n    <g class=\"lfl-row\">\n      <text x=\"30\" y=\""@ + r.label_y@ + "\" class=\"label-service\">"@ + r.category@ + ": "@ + r.workload@ + "</text>\n      <!-- Rust Bar -->\n      <text x=\"50\" y=\""@ + r.rust_y@ + "\" class=\"label-lang-rust\">Rust Native:</text>\n      <rect x=\"180\" y=\""@ + r.rust_rect_y@ + "\" width=\""@ + r.rust_w@ + "\" height=\"18\" rx=\"3\" fill=\"#7fb8a6\" />\n      <text x=\""@ + r.rust_val_x@ + "\" y=\""@ + r.rust_y@ + "\" class=\"label-val\">"@ + r.rust_p50@ + " ms ("@ + r.rust_rps@ + " req/s)</text>\n\n      <!-- Python Bar -->\n      <text x=\"50\" y=\""@ + r.py_y@ + "\" class=\"label-lang-py\">CPython 3.12:</text>\n      <rect x=\"180\" y=\""@ + r.py_rect_y@ + "\" width=\""@ + r.py_w@ + "\" height=\"18\" rx=\"3\" fill=\"#d7755d\" />\n      <text x=\""@ + r.py_val_x@ + "\" y=\""@ + r.py_y@ + "\" class=\"label-val\">"@ + r.py_p50@ + " ms ("@ + r.py_rps@ + " req/s)</text>\n\n      <!-- Badge -->\n      <text x=\"820\" y=\""@ + r.badge_y@ + "\" class=\"badge-speedup\">"@ + r.speedup@, "x Faster</text>\n      <text x=\"820\" y=\""@, "\" class=\"label-lang-rust\">Rust Native:</text>\n      <rect x=\"180\" y=\""@ + r.rust_rect_y@ + "\" width=\""@ + r.rust_w@ + "\" height=\"18\" rx=\"3\" fill=\"#7fb8a6\" />\n      <text x=\""@);
        lemma_contains_extend("\n    <g class=\"lfl-row\">\n      <text x=\"30\" y=\""@ + r.label_y@ + "\" class=\"label-service\">"@ + r.category@ + ": "@ + r.workload@ + "</text>\n      <!-- Rust Bar -->\n      <text x=\"50\" y=\""@ + r.rust_y@ + "\" class=\"label-lang-rust\">Rust Native:</text>\n      <rect x=\"180\" y=\""@ + r.rust_rect_y@ + "\" width=\""@ + r.rust_w@ + "\" height=\"18\" rx=\"3\" fill=\"#7fb8a6\" />\n      <text x=\""@ + r.rust_val_x@ + "\" y=\""@ + r.rust_y@ + "\" class=\"label-val\">"@ + r.rust_p50@ + " ms ("@ + r.rust_rps@ + " req/s)</text>\n\n      <!-- Python Bar -->\n      <text x=\"50\" y=\""@ + r.py_y@ + "\" class=\"label-lang-py\">CPython 3.12:</text>\n      <rect x=\"180\" y=\""@ + r.py_rect_y@ + "\" width=\""@ + r.py_w@ + "\" height=\"18\" rx=\"3\" fill=\"#d7755d\" />\n      <text x=\""@ + r.py_val_x@ + "\" y=\""@ + r.py_y@ + "\" class=\"label-val\">"@ + r.py_p50@ + " ms ("@ + r.py_rps@ + " req/s)</text>\n\n      <!-- Badge -->\n      <text x=\"820\" y=\""@ + r.badge_y@ + "\" class=\"badge-speedup\">"@ + r.speedup@ + "x Faster</text>\n      <text x=\"820\" y=\""@, r.badge_mem_y@, "\" class=\"label-lang-rust\">Rust Native:</text>\n      <rect x=\"180\" y=\""@ + r.rust_rect_y@ + "\" width=\""@ + r.rust_w@ + "\" height=\"18\" rx=\"3\" fill=\"#7fb8a6\" />\n      <text x=\""@);
        lemma_contains_extend("\n    <g class=\"lfl-row\">\n      <text x=\"30\" y=\""@ + r.label_y@ + "\" class=\"label-service\">"@ + r.category@ + ": "@ + r.workload@ + "</text>\n      <!-- Rust Bar -->\n      <text x=\"50\" y=\""@ + r.rust_y@ + "\" class=\"label-lang-rust\">Rust Native:</text>\n      <rect x=\"180\" y=\""@ + r.rust_rect_y@ + "\" width=\""@ + r.rust_w@ + "\" height=\"18\" rx=\"3\" fill=\"#7fb8a6\" />\n      <text x=\""@ + r.rust_val_x@ + "\" y=\""@ + r.rust_y@ + "\" class=\"label-val\">"@ + r.rust_p50@ + " ms ("@ + r.rust_rps@ + " req/s)</text>\n\n      <!-- Python Bar -->\n      <text x=\"50\" y=\""@ + r.py_y@ + "\" class=\"label-lang-py\">CPython 3.12:</text>\n      <rect x=\"180\" y=\""@ + r.py_rect_y@ + "\" width=\""@ + r.py_w@ + "\" height=\"18\" rx=\"3\" fill=\"#d7755d\" />\n      <text x=\""@ + r.py_val_x@ + "\" y=\""@ + r.py_y@ + "\" class=\"label-val\">"@ + r.py_p50@ + " ms ("@ + r.py_rps@ + " req/s)</text>\n\n      <!-- Badge -->\n      <text x=\"820\" y=\""@ + r.badge_y@ + "\" class=\"badge-speedup\">"@ + r.speedup@ + "x Faster</text>\n      <text x=\"820\" y=\""@ + r.badge_mem_y@, "\" class=\"badge-mem\">(-"@, "\" class=\"label-lang-rust\">Rust Native:</text>\n      <rect x=\"180\" y=\""@ + r.rust_rect_y@ + "\" width=\""@ + r.rust_w@ + "\" height=\"18\" rx=\"3\" fill=\"#7fb8a6\" />\n      <text x=\""@);
        lemma_contains_extend("\n    <g class=\"lfl-row\">\n      <text x=\"30\" y=\""@ + r.label_y@ + "\" class=\"label-service\">"@ + r.category@ + ": "@ + r.workload@ + "</text>\n      <!-- Rust Bar -->\n      <text x=\"50\" y=\""@ + r.rust_y@ + "\" class=\"label-lang-rust\">Rust Native:</text>\n      <rect x=\"180\" y=\""@ + r.rust_rect_y@ + "\" width=\""@ + r.rust_w@ + "\" height=\"18\" rx=\"3\" fill=\"#7fb8a6\" />\n      <text x=\""@ + r.rust_val_x@ + "\" y=\""@ + r.rust_y@ + "\" class=\"label-val\">"@ + r.rust_p50@ + " ms ("@ + r.rust_rps@ + " req/s)</text>\n\n      <!-- Python Bar -->\n      <text x=\"50\" y=\""@ + r.py_y@ + "\" class=\"label-lang-py\">CPython 3.12:</text>\n      <rect x=\"180\" y=\""@ + r.py_rect_y@ + "\" width=\""@ + r.py_w@ + "\" height=\"18\" rx=\"3\" fill=\"#d7755d\" />\n      <text x=\""@ + r.py_val_x@ + "\" y=\""@ + r.py_y@ + "\" class=\"label-val\">"@ + r.py_p50@ + " ms ("@ + r.py_rps@ + " req/s)</text>\n\n      <!-- Badge -->\n      <text x=\"820\" y=\""@ + r.badge_y@ + "\" class=\"badge-speedup\">"@ + r.speedup@ + "x Faster</text>\n      <text x=\"820\" y=\""@ + r.badge_mem_y@ + "\" class=\"badge-mem\">(-"@, r.mem_pct@, "\" class=\"label-lang-rust\">Rust Native:</text>\n      <rect x=\"180\" y=\""@ + r.rust_rect_y@ + "\" width=\""@ + r.rust_w@ + "\" height=\"18\" rx=\"3\" fill=\"#7fb8a6\" />\n      <text x=\""@);
        lemma_contains_extend("\n    <g class=\"lfl-row\">\n      <text x=\"30\" y=\""@ + r.label_y@ + "\" class=\"label-service\">"@ + r.category@ + ": "@ + r.workload@ + "</text>\n      <!-- Rust Bar -->\n      <text x=\"50\" y=\""@ + r.rust_y@ + "\" class=\"label-lang-rust\">Rust Native:</text>\n      <rect x=\"180\" y=\""@ + r.rust_rect_y@ + "\" width=\""@ + r.rust_w@ + "\" height=\"18\" rx=\"3\" fill=\"#7fb8a6\" />\n      <text x=\""@ + r.rust_val_x@ + "\" y=\""@ + r.rust_y@ + "\" class=\"label-val\">"@ + r.rust_p50@ + " ms ("@ + r.rust_rps@ + " req/s)</text>\n\n      <!-- Python Bar -->\n      <text x=\"50\" y=\""@ + r.py_y@ + "\" class=\"label-lang-py\">CPython 3.12:</text>\n      <rect x=\"180\" y=\""@ + r.py_rect_y@ + "\" width=\""@ + r.py_w@ + "\" height=\"18\" rx=\"3\" fill=\"#d7755d\" />\n      <text x=\""@ + r.py_val_x@ + "\" y=\""@ + r.py_y@ + "\" class=\"label-val\">"@ + r.py_p50@ + " ms ("@ + r.py_rps@ + " req/s)</text>\n\n      <!-- Badge -->\n      <text x=\"820\" y=\""@ + r.badge_y@ + "\" class=\"badge-speedup\">"@ + r.speedup@ + "x Faster</text>\n      <text x=\"820\" y=\""@ + r.badge_mem_y@ + "\" class=\"badge-mem\">(-"@ + r.mem_pct@, "% RAM)</text>\n    </g>"@, "\" class=\"label-lang-rust\">Rust Native:</text>\n      <rect x=\"180\" y=\""@ + r.rust_rect_y@ + "\" width=\""@ + r.rust_w@ + "\" height=\"18\" rx=\"3\" fill=\"#7fb8a6\" />\n      <text x=\""@);
    }
    assert(contains_seq(like_for_like_row_text(r), "\" height=\"18\" rx=\"3\" fill=\"#7fb8a6\" />\n      <text x=\""@ + r.rust_val_x@ + "\" y=\""@ + r.rust_y@ + "\" class=\"label-val\">"@ + r.rust_p50@ + " ms ("@ + r.rust_rps@ + " req/s)</text>\n\n      <!-- Python Bar -->\n      <text x=\"50\" y=\""@)) by {
        lemma_concat_associative(("\n    <g class=\"lfl-row\">\n      <text x=\"30\" y=\""@ + r.label_y@ + "\" class=\"label-service\">"@ + r.category@ + ": "@ + r.workload@ + "</text>\n      <!-- Rust Bar -->\n      <text x=\"50\" y=\""@ + r.rust_y@ + "\" class=\"label-lang-rust\">Rust Native:</text>\n      <rect x=\"180\" y=\""@ + r.rust_rect_y@ + "\" width=\""@ + r.rust_w@), "\" height=\"18\" rx=\"3\" fill=\"#7fb8a6\" />\n      <text x=\""@, r.rust_val_x@);
        assert(("\n    <g class=\"lfl-row\">\n      <text x=\"30\" y=\""@ + r.label_y@ + "\" class=\"label-service\">"@ + r.category@ + ": "@ + r.workload@ + "</text>\n      <!-- Rust Bar -->\n      <text x=\"50\" y=\""@ + r.rust_y@ + "\" class=\"label-lang-rust\">Rust Native:</text>\n      <rect x=\"180\" y=\""@ + r.rust_rect_y@ + "\" width=\""@ + r.rust_w@) + ("\" height=\"18\" rx=\"3\" fill=\"#7fb8a6\" />\n      <text x=\""@ + r.rust_val_x@) == "\n    <g class=\"lfl-row\">\n      <text x=\"30\" y=\""@ + r.label_y@ + "\" class=\"label-service\">"@ + r.category@ + ": "@ + r.workload@ + "</text>\n      <!-- Rust Bar -->\n      <text x=\"50\" y=\""@ + r.rust_y@ + "\" class=\"label-lang-rust\">Rust Native:</text>\n      <rect x=\"180\" y=\""@ + r.rust_rect_y@ + "\" width=\""@ + r.rust_w@ + "\" height=\"18\" rx=\"3\" fill=\"#7fb8a6\" />\n      <text x=\""@ + r.rust_val_x@);
        lemma_concat_associative(("\n    <g class=\"lfl-row\">\n      <text x=\"30\" y=\""@ + r.label_y@ + "\" class=\"label-service\">"@ + r.category@ + ": "@ + r.workload@ + "</text>\n      <!-- Rust Bar -->\n      <text x=\"50\" y=\""@ + r.rust_y@ + "\" class=\"label-lang-rust\">Rust Native:</text>\n      <rect x=\"180\" y=\""@ + r.rust_rect_y@ + "\" width=\""@ + r.rust_w@), "\" height=\"18\" rx=\"3\" fill=\"#7fb8a6\" />\n      <text x=\""@ + r.rust_val_x@, "\" y=\""@);
        assert(("\n    <g class=\"lfl-row\">\n      <text x=\"30\" y=\""@ + r.label_y@ + "\" class=\"label-service\">"@ + r.category@ + ": "@ + r.workload@ + "</text>\n      <!-- Rust Bar -->\n      <text x=\"50\" y=\""@ + r.rust_y@ + "\" class=\"label-lang-rust\">Rust Native:</text>\n      <rect x=\"180\" y=\""@ + r.rust_rect_y@ + "\" width=\""@ + r.rust_w@) + ("\" height=\"18\" rx=\"3\" fill=\"#7fb8a6\" />\n      <text x=\""@ + r.rust_val_x@ + "\" y=\""@) == "\n    <g class=\"lfl-row\">\n      <text x=\"30\" y=\""@ + r.label_y@ + "\" class=\"label-service\">"@ + r.category@ + ": "@ + r.workload@ + "</text>\n      <!-- Rust Bar -->\n      <text x=\"50\" y=\""@ + r.rust_y@ + "\" class=\"label-lang-rust\">Rust Native:</text>\n      <rect x=\"180\" y=\""@ + r.rust_rect_y@ + "\" width=\""@ + r.rust_w@ + "\" height=\"18\" rx=\"3\" fill=\"#7fb8a6\" />\n      <text x=\""@ + r.rust_val_x@ + "\" y=\""@);
        lemma_concat_associative(("\n    <g class=\"lfl-row\">\n      <text x=\"30\" y=\""@ + r.label_y@ + "\" class=\"label-service\">"@ + r.category@ + ": "@ + r.workload@ + "</text>\n      <!-- Rust Bar -->\n      <text x=\"50\" y=\""@ + r.rust_y@ + "\" class=\"label-lang-rust\">Rust Native:</text>\n      <rect x=\"180\" y=\""@ + r.rust_rect_y@ + "\" width=\""@ + r.rust_w@), "\" height=\"18\" rx=\"3\" fill=\"#7fb8a6\" />\n      <text x=\""@ + r.rust_val_x@ + "\" y=\""@, r.rust_y@);
        assert(("\n    <g class=\"lfl-row\">\n      <text x=\"30\" y=\""@ + r.label_y@ + "\" class=\"label-service\">"@ + r.category@ + ": "@ + r.workload@ + "</text>\n      <!-- Rust Bar -->\n      <text x=\"50\" y=\""@ + r.rust_y@ + "\" class=\"label-lang-rust\">Rust Native:</text>\n      <rect x=\"180\" y=\""@ + r.rust_rect_y@ + "\" width=\""@ + r.rust_w@) + ("\" height=\"18\" rx=\"3\" fill=\"#7fb8a6\" />\n      <text x=\""@ + r.rust_val_x@ + "\" y=\""@ + r.rust_y@) == "\n    <g class=\"lfl-row\">\n      <text x=\"30\" y=\""@ + r.label_y@ + "\" class=\"label-service\">"@ + r.category@ + ": "@ + r.workload@ + "</text>\n      <!-- Rust Bar -->\n      <text x=\"50\" y=\""@ + r.rust_y@ + "\" class=\"label-lang-rust\">Rust Native:</text>\n      <rect x=\"180\" y=\""@ + r.rust_rect_y@ + "\" width=\""@ + r.rust_w@ + "\" height=\"18\" rx=\"3\" fill=\"#7fb8a6\" />\n      <text x=\""@ + r.rust_val_x@ + "\" y=\""@ + r.rust_y@);
        lemma_concat_associative(("\n    <g class=\"lfl-row\">\n      <text x=\"30\" y=\""@ + r.label_y@ + "\" class=\"label-service\">"@ + r.category@ + ": "@ + r.workload@ + "</text>\n      <!-- Rust Bar -->\n      <text x=\"50\" y=\""@ + r.rust_y@ + "\" class=\"label-lang-rust\">Rust Native:</text>\n      <rect x=\"180\" y=\""@ + r.rust_rect_y@ + "\" width=\""@ + r.rust_w@), "\" height=\"18\" rx=\"3\" fill=\"#7fb8a6\" />\n      <text x=\""@ + r.rust_val_x@ + "\" y=\""@ + r.rust_y@, "\" class=\"label-val\">"@);
        assert(("\n    <g class=\"lfl-row\">\n      <text x=\"30\" y=\""@ + r.label_y@ + "\" class=\"label-service\">"@ + r.category@ + ": "@ + r.workload@ + "</text>\n      <!-- Rust Bar -->\n      <text x=\"50\" y=\""@ + r.rust_y@ + "\" class=\"label-lang-rust\">Rust Native:</text>\n      <rect x=\"180\" y=\""@ + r.rust_rect_y@ + "\" width=\""@ + r.rust_w@) + ("\" height=\"18\" rx=\"3\" fill=\"#7fb8a6\" />\n      <text x=\""@ + r.rust_val_x@ + "\" y=\""@ + r.rust_y@ + "\" class=\"label-val\">"@) == "\n    <g class=\"lfl-row\">\n      <text x=\"30\" y=\""@ + r.label_y@ + "\" class=\"label-service\">"@ + r.category@ + ": "@ + r.workload@ + "</text>\n      <!-- Rust Bar -->\n      <text x=\"50\" y=\""@ + r.rust_y@ + "\" class=\"label-lang-rust\">Rust Native:</text>\n      <rect x=\"180\" y=\""@ + r.rust_rect_y@ + "\" width=\""@ + r.rust_w@ + "\" height=\"18\" rx=\"3\" fill=\"#7fb8a6\" />\n      <text x=\""@ + r.rust_val_x@ + "\" y=\""@ + r.rust_y@ + "\" class=\"label-val\">"@);
        lemma_concat_associative(("\n    <g class=\"lfl-row\">\n      <text x=\"30\" y=\""@ + r.label_y@ + "\" class=\"label-service\">"@ + r.category@ + ": "@ + r.workload@ + "</text>\n      <!-- Rust Bar -->\n      <text x=\"50\" y=\""@ + r.rust_y@ + "\" class=\"label-lang-rust\">Rust Native:</text>\n      <rect x=\"180\" y=\""@ + r.rust_rect_y@ + "\" width=\""@ + r.rust_w@), "\" height=\"18\" rx=\"3\" fill=\"#7fb8a6\" />\n      <text x=\""@ + r.rust_val_x@ + "\" y=\""@ + r.rust_y@ + "\" class=\"label-val\">"@, r.rust_p50@);
        assert(("\n    <g class=\"lfl-row\">\n      <text x=\"30\" y=\""@ + r.label_y@ + "\" class=\"label-service\">"@ + r.category@ + ": "@ + r.workload@ + "</text>\n      <!-- Rust Bar -->\n      <text x=\"50\" y=\""@ + r.rust_y@ + "\" class=\"label-lang-rust\">Rust Native:</text>\n      <rect x=\"180\" y=\""@ + r.rust_rect_y@ + "\" width=\""@ + r.rust_w@) + ("\" height=\"18\" rx=\"3\" fill=\"#7fb8a6\" />\n      <text x=\""@ + r.rust_val_x@ + "\" y=\""@ + r.rust_y@ + "\" class=\"label-val\">"@ + r.rust_p50@) == "\n    <g class=\"lfl-row\">\n      <text x=\"30\" y=\""@ + r.label_y@ + "\" class=\"label-service\">"@ + r.category@ + ": "@ + r.workload@ + "</text>\n      <!-- Rust Bar -->\n      <text x=\"50\" y=\""@ + r.rust_y@ + "\" class=\"label-lang-rust\">Rust Native:</text>\n      <rect x=\"180\" y=\""@ + r.rust_rect_y@ + "\" width=\""@ + r.rust_w@ + "\" height=\"18\" rx=\"3\" fill=\"#7fb8a6\" />\n      <text x=\""@ + r.rust_val_x@ + "\" y=\""@ + r.rust_y@ + "\" class=\"label-val\">"@ + r.rust_p50@);
        lemma_concat_associative(("\n    <g class=\"lfl-row\">\n      <text x=\"30\" y=\""@ + r.label_y@ + "\" class=\"label-service\">"@ + r.category@ + ": "@ + r.workload@ + "</text>\n      <!-- Rust Bar -->\n      <text x=\"50\" y=\""@ + r.rust_y@ + "\" class=\"label-lang-rust\">Rust Native:</text>\n      <rect x=\"180\" y=\""@ + r.rust_rect_y@ + "\" width=\""@ + r.rust_w@), "\" height=\"18\" rx=\"3\" fill=\"#7fb8a6\" />\n      <text x=\""@ + r.rust_val_x@ + "\" y=\""@ + r.rust_y@ + "\" class=\"label-val\">"@ + r.rust_p50@, " ms ("@);
        assert(("\n    <g class=\"lfl-row\">\n      <text x=\"30\" y=\""@ + r.label_y@ + "\" class=\"label-service\">"@ + r.category@ + ": "@ + r.workload@ + "</text>\n      <!-- Rust Bar -->\n      <text x=\"50\" y=\""@ + r.rust_y@ + "\" class=\"label-lang-rust\">Rust Native:</text>\n      <rect x=\"180\" y=\""@ + r.rust_rect_y@ + "\" width=\""@ + r.rust_w@) + ("\" height=\"18\" rx=\"3\" fill=\"#7fb8a6\" />\n      <text x=\""@ + r.rust_val_x@ + "\" y=\""@ + r.rust_y@ + "\" class=\"label-val\">"@ + r.rust_p50@ + " ms ("@) == "\n    <g class=\"lfl-row\">\n      <text x=\"30\" y=\""@ + r.label_y@ + "\" class=\"label-service\">"@ + r.category@ + ": "@ + r.workload@ + "</text>\n      <!-- Rust Bar -->\n      <text x=\"50\" y=\""@ + r.rust_y@ + "\" class=\"label-lang-rust\">Rust Native:</text>\n      <rect x=\"180\" y=\""@ + r.rust_rect_y@ + "\" width=\""@ + r.rust_w@ + "\" height=\"18\" rx=\"3\" fill=\"#7fb8a6\" />\n      <text x=\""@ + r.rust_val_x@ + "\" y=\""@ + r.rust_y@ + "\" class=\"label-val\">"@ + r.rust_p50@ + " ms ("@);
        lemma_concat_associative(("\n    <g class=\"lfl-row\">\n      <text x=\"30\" y=\""@ + r.label_y@ + "\" class=\"label-service\">"@ + r.category@ + ": "@ + r.workload@ + "</text>\n      <!-- Rust Bar -->\n      <text x=\"50\" y=\""@ + r.rust_y@ + "\" class=\"label-lang-rust\">Rust Native:</text>\n      <rect x=\"180\" y=\""@ + r.rust_rect_y@ + "\" width=\""@ + r.rust_w@), "\" height=\"18\" rx=\"3\" fill=\"#7fb8a6\" />\n      <text x=\""@ + r.rust_val_x@ + "\" y=\""@ + r.rust_y@ + "\" class=\"label-val\">"@ + r.rust_p50@ + " ms ("@, r.rust_rps@);
        assert(("\n    <g class=\"lfl-row\">\n      <text x=\"30\" y=\""@ + r.label_y@ + "\" class=\"label-service\">"@ + r.category@ + ": "@ + r.workload@ + "</text>\n      <!-- Rust Bar -->\n      <text x=\"50\" y=\""@ + r.rust_y@ + "\" class=\"label-lang-rust\">Rust Native:</text>\n      <rect x=\"180\" y=\""@ + r.rust_rect_y@ + "\" width=\""@ + r.rust_w@) + ("\" height=\"18\" rx=\"3\" fill=\"#7fb8a6\" />\n      <text x=\""@ + r.rust_val_x@ + "\" y=\""@ + r.rust_y@ + "\" class=\"label-val\">"@ + r.rust_p50@ + " ms ("@ + r.rust_rps@) == "\n    <g class=\"lfl-row\">\n      <text x=\"30\" y=\""@ + r.label_y@ + "\" class=\"label-service\">"@ + r.category@ + ": "@ + r.workload@ + "</text>\n      <!-- Rust Bar -->\n      <text x=\"50\" y=\""@ + r.rust_y@ + "\" class=\"label-lang-rust\">Rust Native:</text>\n      <rect x=\"180\" y=\""@ + r.rust_rect_y@ + "\" width=\""@ + r.rust_w@ + "\" height=\"18\" rx=\"3\" fill=\"#7fb8a6\" />\n      <text x=\""@ + r.rust_val_x@ + "\" y=\""@ + r.rust_y@ + "\" class=\"label-val\">"@ + r.rust_p50@ + " ms ("@ + r.rust_rps@);
        lemma_concat_associative(("\n    <g class=\"lfl-row\">\n      <text x=\"30\" y=\""@ + r.label_y@ + "\" class=\"label-service\">"@ + r.category@ + ": "@ + r.workload@ + "</text>\n      <!-- Rust Bar -->\n      <text x=\"50\" y=\""@ + r.rust_y@ + "\" class=\"label-lang-rust\">Rust Native:</text>\n      <rect x=\"180\" y=\""@ + r.rust_rect_y@ + "\" width=\""@ + r.rust_w@), "\" height=\"18\" rx=\"3\" fill=\"#7fb8a6\" />\n      <text x=\""@ + r.rust_val_x@ + "\" y=\""@ + r.rust_y@ + "\" class=\"label-val\">"@ + r.rust_p50@ + " ms ("@ + r.rust_rps@, " req/s)</text>\n\n      <!-- Python Bar -->\n      <text x=\"50\" y=\""@);
        assert(("\n    <g class=\"lfl-row\">\n      <text x=\"30\" y=\""@ + r.label_y@ + "\" class=\"label-service\">"@ + r.category@ + ": "@ + r.workload@ + "</text>\n      <!-- Rust Bar -->\n      <text x=\"50\" y=\""@ + r.rust_y@ + "\" class=\"label-lang-rust\">Rust Native:</text>\n      <rect x=\"180\" y=\""@ + r.rust_rect_y@ + "\" width=\""@ + r.rust_w@) + ("\" height=\"18\" rx=\"3\" fill=\"#7fb8a6\" />\n      <text x=\""@ + r.rust_val_x@ + "\" y=\""@ + r.rust_y@ + "\" class=\"label-val\">"@ + r.rust_p50@ + " ms ("@ + r.rust_rps@ + " req/s)</text>\n\n      <!-- Python Bar -->\n      <text x=\"50\" y=\""@) == "\n    <g class=\"lfl-row\">\n      <text x=\"30\" y=\""@ + r.label_y@ + "\" class=\"label-service\">"@ + r.category@ + ": "@ + r.workload@ + "</text>\n      <!-- Rust Bar -->\n      <text x=\"50\" y=\""@ + r.rust_y@ + "\" class=\"label-lang-rust\">Rust Native:</text>\n      <rect x=\"180\" y=\""@ + r.rust_rect_y@ + "\" width=\""@ + r.rust_w@ + "\" height=\"18\" rx=\"3\" fill=\"#7fb8a6\" />\n      <text x=\""@ + r.rust_val_x@ + "\" y=\""@ + r.rust_y@ + "\" class=\"label-val\">"@ + r.rust_p50@ + " ms ("@ + r.rust_rps@ + " req/s)</text>\n\n      <!-- Python Bar -->\n      <text x=\"50\" y=\""@);
        lemma_contains_tail(("\n    <g class=\"lfl-row\">\n      <text x=\"30\" y=\""@ + r.label_y@ + "\" class=\"label-service\">"@ + r.category@ + ": "@ + r.workload@ + "</text>\n      <!-- Rust Bar -->\n      <text x=\"50\" y=\""@ + r.rust_y@ + "\" class=\"label-lang-rust\">Rust Native:</text>\n      <rect x=\"180\" y=\""@ + r.rust_rect_y@ + "\" width=\""@ + r.rust_w@), "\" height=\"18\" rx=\"3\" fill=\"#7fb8a6\" />\n      <text x=\""@ + r.rust_val_x@ + "\" y=\""@ + r.rust_y@ + "\" class=\"label-val\">"@ + r.rust_p50@ + " ms ("@ + r.rust_rps@ + " req/s)</text>\n\n      <!-- Python Bar -->\n      <text x=\"50\" y=\""@);
        lemma_contains_extend("\n    <g class=\"lfl-row\">\n      <text x=\"30\" y=\""@ + r.label_y@ + "\" class=\"label-service\">"@ + r.category@ + ": "@ + r.workload@ + "</text>\n      <!-- Rust Bar -->\n      <text x=\"50\" y=\""@ + r.rust_y@ + "\" class=\"label-lang-rust\">Rust Native:</text>\n      <rect x=\"180\" y=\""@ + r.rust_rect_y@ + "\" width=\""@ + r.rust_w@ + "\" height=\"18\" rx=\"3\" fill=\"#7fb8a6\" />\n      <text x=\""@ + r.rust_val_x@ + "\" y=\""@ + r.rust_y@ + "\" class=\"label-val\">"@ + r.rust_p50@ + " ms ("@ + r.rust_rps@ + " req/s)</text>\n\n      <!-- Python Bar -->\n      <text x=\"50\" y=\""@, r.py_y@, "\" height=\"18\" rx=\"3\" fill=\"#7fb8a6\" />\n      <text x=\""@ + r.rust_val_x@ + "\" y=\""@ + r.rust_y@ + "\" class=\"label-val\">"@ + r.rust_p50@ + " ms ("@ + r.rust_rps@ + " req/s)</text>\n\n      <!-- Python Bar -->\n      <text x=\"50\" y=\""@);
        lemma_contains_extend("\n    <g class=\"lfl-row\">\n      <text x=\"30\" y=\""@ + r.label_y@ + "\" class=\"label-service\">"@ + r.category@ + ": "@ + r.workload@ + "</text>\n      <!-- Rust Bar -->\n      <text x=\"50\" y=\""@ + r.rust_y@ + "\" class=\"label-lang-rust\">Rust Native:</text>\n      <rect x=\"180\" y=\""@ + r.rust_rect_y@ + "\" width=\""@ + r.rust_w@ + "\" height=\"18\" rx=\"3\" fill=\"#7fb8a6\" />\n      <text x=\""@ + r.rust_val_x@ + "\" y=\""@ + r.rust_y@ + "\" class=\"label-val\">"@ + r.rust_p50@ + " ms ("@ + r.rust_rps@ + " req/s)</text>\n\n      <!-- Python Bar -->\n      <text x=\"50\" y=\""@ + r.py_y@, "\" class=\"label-lang-py\">CPython 3.12:</text>\n      <rect x=\"180\" y=\""@, "\" height=\"18\" rx=\"3\" fill=\"#7fb8a6\" />\n      <text x=\""@ + r.rust_val_x@ + "\" y=\""@ + r.rust_y@ + "\" class=\"label-val\">"@ + r.rust_p50@ + " ms ("@ + r.rust_rps@ + " req/s)</text>\n\n      <!-- Python Bar -->\n      <text x=\"50\" y=\""@);
        lemma_contains_extend("\n    <g class=\"lfl-row\">\n      <text x=\"30\" y=\""@ + r.label_y@ + "\" class=\"label-service\">"@ + r.category@ + ": "@ + r.workload@ + "</text>\n      <!-- Rust Bar -->\n      <text x=\"50\" y=\""@ + r.rust_y@ + "\" class=\"label-lang-rust\">Rust Native:</text>\n      <rect x=\"180\" y=\""@ + r.rust_rect_y@ + "\" width=\""@ + r.rust_w@ + "\" height=\"18\" rx=\"3\" fill=\"#7fb8a6\" />\n      <text x=\""@ + r.rust_val_x@ + "\" y=\""@ + r.rust_y@ + "\" class=\"label-val\">"@ + r.rust_p50@ + " ms ("@ + r.rust_rps@ + " req/s)</text>\n\n      <!-- Python Bar -->\n      <text x=\"50\" y=\""@ + r.py_y@ + "\" class=\"label-lang-py\">CPython 3.12:</text>\n      <rect x=\"180\" y=\""@, r.py_rect_y@, "\" height=\"18\" rx=\"3\" fill=\"#7fb8a6\" />\n      <text x=\""@ + r.rust_val_x@ + "\" y=\""@ + r.rust_y@ + "\" class=\"label-val\">"@ + r.rust_p50@ + " ms ("@ + r.rust_rps@ + " req/s)</text>\n\n      <!-- Python Bar -->\n      <text x=\"50\" y=\""@);
        lemma_contains_extend("\n    <g class=\"lfl-row\">\n      <text x=\"30\" y=\""@ + r.label_y@ + "\" class=\"label-service\">"@ + r.category@ + ": "@ + r.workload@ + "</text>\n      <!-- Rust Bar -->\n      <text x=\"50\" y=\""@ + r.rust_y@ + "\" class=\"label-lang-rust\">Rust Native:</text>\n      <rect x=\"180\" y=\""@ + r.rust_rect_y@ + "\" width=\""@ + r.rust_w@ + "\" height=\"18\" rx=\"3\" fill=\"#7fb8a6\" />\n      <text x=\""@ + r.rust_val_x@ + "\" y=\""@ + r.rust_y@ + "\" class=\"label-val\">"@ + r.rust_p50@ + " ms ("@ + r.rust_rps@ + " req/s)</text>\n\n      <!-- Python Bar -->\n      <text x=\"50\" y=\""@ + r.py_y@ + "\" class=\"label-lang-py\">CPython 3.12:</text>\n      <rect x=\"180\" y=\""@ + r.py_rect_y@, "\" width=\""@, "\" height=\"18\" rx=\"3\" fill=\"#7fb8a6\" />\n      <text x=\""@ + r.rust_val_x@ + "\" y=\""@ + r.rust_y@ + "\" class=\"label-val\">"@ + r.rust_p50@ + " ms ("@ + r.rust_rps@ + " req/s)</text>\n\n      <!-- Python Bar -->\n      <text x=\"50\" y=\""@);
        lemma_contains_extend("\n    <g class=\"lfl-row\">\n      <text x=\"30\" y=\""@ + r.label_y@ + "\" class=\"label-service\">"@ + r.category@ + ": "@ + r.workload@ + "</text>\n      <!-- Rust Bar -->\n      <text x=\"50\" y=\""@ + r.rust_y@ + "\" class=\"label-lang-rust\">Rust Native:</text>\n      <rect x=\"180\" y=\""@ + r.rust_rect_y@ + "\" width=\""@ + r.rust_w@ + "\" height=\"18\" rx=\"3\" fill=\"#7fb8a6\" />\n      <text x=\""@ + r.rust_val_x@ + "\" y=\""@ + r.rust_y@ + "\" class=\"label-val\">"@ + r.rust_p50@ + " ms ("@ + r.rust_rps@ + " req/s)</text>\n\n      <!-- Python Bar -->\n      <text x=\"50\" y=\""@ + r.py_y@ + "\" class=\"label-lang-py\">CPython 3.12:</text>\n      <rect x=\"180\" y=\""@ + r.py_rect_y@ + "\" width=\""@, r.py_w@, "\" height=\"18\" rx=\"3\" fill=\"#7fb8a6\" />\n      <text x=\""@ + r.rust_val_x@ + "\" y=\""@ + r.rust_y@ + "\" class=\"label-val\">"@ + r.rust_p50@ + " ms ("@ + r.rust_rps@ + " req/s)</text>\n\n      <!-- Python Bar -->\n      <text x=\"50\" y=\""@);
        lemma_contains_extend("\n    <g class=\"lfl-row\">\n      <text x=\"30\" y=\""@ + r.label_y@ + "\" class=\"label-service\">"@ + r.category@ + ": "@ + r.workload@ + "</text>\n      <!-- Rust Bar -->\n      <text x=\"50\" y=\""@ + r.rust_y@ + "\" class=\"label-lang-rust\">Rust Native:</text>\n      <rect x=\"180\" y=\""@ + r.rust_rect_y@ + "\" width=\""@ + r.rust_w@ + "\" height=\"18\" rx=\"3\" fill=\"#7fb8a6\" />\n      <text x=\""@ + r.rust_val_x@ + "\" y=\""@ + r.rust_y@ + "\" class=\"label-val\">"@ + r.rust_p50@ + " ms ("@ + r.rust_rps@ + " req/s)</text>\n\n      <!-- Python Bar -->\n      <text x=\"50\" y=\""@ + r.py_y@ + "\" class=\"label-lang-py\">CPython 3.12:</text>\n      <rect x=\"180\" y=\""@ + r.py_rect_y@ + "\" width=\""@ + r.py_w@, "\" height=\"18\" rx=\"3\" fill=\"#d7755d\" />\n      <text x=\""@, "\" height=\"18\" rx=\"3\" fill=\"#7fb8a6\" />\n      <text x=\""@ + r.rust_val_x@ + "\" y=\""@ + r.rust_y@ + "\" class=\"label-val\">"@ + r.rust_p50@ + " ms ("@ + r.rust_rps@ + " req/s)</text>\n\n      <!-- Python Bar -->\n      <text x=\"50\" y=\""@);
        lemma_contains_extend("\n    <g class=\"lfl-row\">\n      <text x=\"30\" y=\""@ + r.label_y@ + "\" class=\"label-service\">"@ + r.category@ + ": "@ + r.workload@ + "</text>\n      <!-- Rust Bar -->\n      <text x=\"50\" y=\""@ + r.rust_y@ + "\" class=\"label-lang-rust\">Rust Native:</text>\n      <rect x=\"180\" y=\""@ + r.rust_rect_y@ + "\" width=\""@ + r.rust_w@ + "\" height=\"18\" rx=\"3\" fill=\"#7fb8a6\" />\n      <text x=\""@ + r.rust_val_x@ + "\" y=\""@ + r.rust_y@ + "\" class=\"label-val\">"@ + r.rust_p50@ + " ms ("@ + r.rust_rps@ + " req/s)</text>\n\n      <!-- Python Bar -->\n      <text x=\"50\" y=\""@ + r.py_y@ + "\" class=\"label-lang-py\">CPython 3.12:</text>\n      <rect x=\"180\" y=\""@ + r.py_rect_y@ + "\" width=\""@ + r.py_w@ + "\" height=\"18\" rx=\"3\" fill=\"#d7755d\" />\n      <text x=\""@, r.py_val_x@, "\" height=\"18\" rx=\"3\" fill=\"#7fb8a6\" />\n      <text x=\""@ + r.rust_val_x@ + "\" y=\""@ + r.rust_y@ + "\" class=\"label-val\">"@ + r.rust_p50@ + " ms ("@ + r.rust_rps@ + " req/s)</text>\n\n      <!-- Python Bar -->\n      <text x=\"50\" y=\""@);
        lemma_contains_extend("\n    <g class=\"lfl-row\">\n      <text x=\"30\" y=\""@ + r.label_y@ + "\" class=\"label-service\">"@ + r.category@ + ": "@ + r.workload@ + "</text>\n      <!-- Rust Bar -->\n      <text x=\"50\" y=\""@ + r.rust_y@ + "\" class=\"label-lang-rust\">Rust Native:</text>\n      <rect x=\"180\" y=\""@ + r.rust_rect_y@ + "\" width=\""@ + r.rust_w@ + "\" height=\"18\" rx=\"3\" fill=\"#7fb8a6\" />\n      <text x=\""@ + r.rust_val_x@ + "\" y=\""@ + r.rust_y@ + "\" class=\"label-val\">"@ + r.rust_p50@ + " ms ("@ + r.rust_rps@ + " req/s)</text>\n\n      <!-- Python Bar -->\n      <text x=\"50\" y=\""@ + r.py_y@ + "\" class=\"label-lang-py\">CPython 3.12:</text>\n      <rect x=\"180\" y=\""@ + r.py_rect_y@ + "\" width=\""@ + r.py_w@ + "\" height=\"18\" rx=\"3\" fill=\"#d7755d\" />\n      <text x=\""@ + r.py_val_x@, "\" y=\""@, "\" height=\"18\" rx=\"3\" fill=\"#7fb8a6\" />\n      <text x=\""@ + r.rust_val_x@ + "\" y=\""@ + r.rust_y@ + "\" class=\"label-val\">"@ + r.rust_p50@ + " ms ("@ + r.rust_rps@ + " req/s)</text>\n\n      <!-- Python Bar -->\n      <text x=\"50\" y=\""@);
        lemma_contains_extend("\n    <g class=\"lfl-row\">\n      <text x=\"30\" y=\""@ + r.label_y@ + "\" class=\"label-service\">"@ + r.category@ + ": "@ + r.workload@ + "</text>\n      <!-- Rust Bar -->\n      <text x=\"50\" y=\""@ + r.rust_y@ + "\" class=\"label-lang-rust\">Rust Native:</text>\n      <rect x=\"180\" y=\""@ + r.rust_rect_y@ + "\" width=\""@ + r.rust_w@ + "\" height=\"18\" rx=\"3\" fill=\"#7fb8a6\" />\n      <text x=\""@ + r.rust_val_x@ + "\" y=\""@ + r.rust_y@ + "\" class=\"label-val\">"@ + r.rust_p50@ + " ms ("@ + r.rust_rps@ + " req/s)</text>\n\n      <!-- Python Bar -->\n      <text x=\"50\" y=\""@ + r.py_y@ + "\" class=\"label-lang-py\">CPython 3.12:</text>\n      <rect x=\"180\" y=\""@ + r.py_rect_y@ + "\" width=\""@ + r.py_w@ + "\" height=\"18\" rx=\"3\" fill=\"#d7755d\" />\n      <text x=\""@ + r.py_val_x@ + "\" y=\""@, r.py_y@, "\" height=\"18\" rx=\"3\" fill=\"#7fb8a6\" />\n      <text x=\""@ + r.rust_val_x@ + "\" y=\""@ + r.rust_y@ + "\" class=\"label-val\">"@ + r.rust_p50@ + " ms ("@ + r.rust_rps@ + " req/s)</text>\n\n      <!-- Python Bar -->\n      <text x=\"50\" y=\""@);
        lemma_contains_extend("\n    <g class=\"lfl-row\">\n      <text x=\"30\" y=\""@ + r.label_y@ + "\" class=\"label-service\">"@ + r.category@ + ": "@ + r.workload@ + "</text>\n      <!-- Rust Bar -->\n      <text x=\"50\" y=\""@ + r.rust_y@ + "\" class=\"label-lang-rust\">Rust Native:</text>\n      <rect x=\"180\" y=\""@ + r.rust_rect_y@ + "\" width=\""@ + r.rust_w@ + "\" height=\"18\" rx=\"3\" fill=\"#7fb8a6\" />\n      <text x=\""@ + r.rust_val_x@ + "\" y=\""@ + r.rust_y@ + "\" class=\"label-val\">"@ + r.rust_p50@ + " ms ("@ + r.rust_rps@ + " req/s)</text>\n\n      <!-- Python Bar -->\n      <text x=\"50\" y=\""@ + r.py_y@ + "\" class=\"label-lang-py\">CPython 3.12:</text>\n      <rect x=\"180\" y=\""@ + r.py_rect_y@ + "\" width=\""@ + r.py_w@ + "\" height=\"18\" rx=\"3\" fill=\"#d7755d\" />\n      <text x=\""@ + r.py_val_x@ + "\" y=\""@ + r.py_y@, "\" class=\"label-val\">"@, "\" height=\"18\" rx=\"3\" fill=\"#7fb8a6\" />\n      <text x=\""@ + r.rust_val_x@ + "\" y=\""@ + r.rust_y@ + "\" class=\"label-val\">"@ + r.rust_p50@ + " ms ("@ + r.rust_rps@ + " req/s)</text>\n\n      <!-- Python Bar -->\n      <text x=\"50\" y=\""@);
        lemma_contains_extend("\n    <g class=\"lfl-row\">\n      <text x=\"30\" y=\""@ + r.label_y@ + "\" class=\"label-service\">"@ + r.category@ + ": "@ + r.workload@ + "</text>\n      <!-- Rust Bar -->\n      <text x=\"50\" y=\""@ + r.rust_y@ + "\" class=\"label-lang-rust\">Rust Native:</text>\n      <rect x=\"180\" y=\""@ + r.rust_rect_y@ + "\" width=\""@ + r.rust_w@ + "\" height=\"18\" rx=\"3\" fill=\"#7fb8a6\" />\n      <text x=\""@ + r.rust_val_x@ + "\" y=\""@ + r.rust_y@ + "\" class=\"label-val\">"@ + r.rust_p50@ + " ms ("@ + r.rust_rps@ + " req/s)</text>\n\n      <!-- Python Bar -->\n      <text x=\"50\" y=\""@ + r.py_y@ + "\" class=\"label-lang-py\">CPython 3.12:</text>\n      <rect x=\"180\" y=\""@ + r.py_rect_y@ + "\" width=\""@ + r.py_w@ + "\" height=\"18\" rx=\"3\" fill=\"#d7755d\" />\n      <text x=\""@ + r.py_val_x@ + "\" y=\""@ + r.py_y@ + "\" class=\"label-val\">"@, r.py_p50@, "\" height=\"18\" rx=\"3\" fill=\"#7fb8a6\" />\n      <text x=\""@ + r.rust_val_x@ + "\" y=\""@ + r.rust_y@ + "\" class=\"label-val\">"@ + r.rust_p50@ + " ms ("@ + r.rust_rps@ + " req/s)</text>\n\n      <!-- Python Bar -->\n      <text x=\"50\" y=\""@);
        lemma_contains_extend("\n    <g class=\"lfl-row\">\n      <text x=\"30\" y=\""@ + r.label_y@ + "\" class=\"label-service\">"@ + r.category@ + ": "@ + r.workload@ + "</text>\n      <!-- Rust Bar -->\n      <text x=\"50\" y=\""@ + r.rust_y@ + "\" class=\"label-lang-rust\">Rust Native:</text>\n      <rect x=\"180\" y=\""@ + r.rust_rect_y@ + "\" width=\""@ + r.rust_w@ + "\" height=\"18\" rx=\"3\" fill=\"#7fb8a6\" />\n      <text x=\""@ + r.rust_val_x@ + "\" y=\""@ + r.rust_y@ + "\" class=\"label-val\">"@ + r.rust_p50@ + " ms ("@ + r.rust_rps@ + " req/s)</text>\n\n      <!-- Python Bar -->\n      <text x=\"50\" y=\""@ + r.py_y@ + "\" class=\"label-lang-py\">CPython 3.12:</text>\n      <rect x=\"180\" y=\""@ + r.py_rect_y@ + "\" width=\""@ + r.py_w@ + "\" height=\"18\" rx=\"3\" fill=\"#d7755d\" />\n      <text x=\""@ + r.py_val_x@ + "\" y=\""@ + r.py_y@ + "\" class=\"label-val\">"@ + r.py_p50@, " ms ("@, "\" height=\"18\" rx=\"3\" fill=\"#7fb8a6\" />\n      <text x=\""@ + r.rust_val_x@ + "\" y=\""@ + r.rust_y@ + "\" class=\"label-val\">"@ + r.rust_p50@ + " ms ("@ + r.rust_rps@ + " req/s)</text>\n\n      <!-- Python Bar -->\n      <text x=\"50\" y=\""@);
        lemma_contains_extend("\n    <g class=\"lfl-row\">\n      <text x=\"30\" y=\""@ + r.label_y@ + "\" class=\"label-service\">"@ + r.category@ + ": "@ + r.workload@ + "</text>\n      <!-- Rust Bar -->\n      <text x=\"50\" y=\""@ + r.rust_y@ + "\" class=\"label-lang-rust\">Rust Native:</text>\n      <rect x=\"180\" y=\""@ + r.rust_rect_y@ + "\" width=\""@ + r.rust_w@ + "\" height=\"18\" rx=\"3\" fill=\"#7fb8a6\" />\n      <text x=\""@ + r.rust_val_x@ + "\" y=\""@ + r.rust_y@ + "\" class=\"label-val\">"@ + r.rust_p50@ + " ms ("@ + r.rust_rps@ + " req/s)</text>\n\n      <!-- Python Bar -->\n      <text x=\"50\" y=\""@ + r.py_y@ + "\" class=\"label-lang-py\">CPython 3.12:</text>\n      <rect x=\"180\" y=\""@ + r.py_rect_y@ + "\" width=\""@ + r.py_w@ + "\" height=\"18\" rx=\"3\" fill=\"#d7755d\" />\n      <text x=\""@ + r.py_val_x@ + "\" y=\""@ + r.py_y@ + "\" class=\"label-val\">"@ + r.py_p50@ + " ms ("@, r.py_rps@, "\" height=\"18\" rx=\"3\" fill=\"#7fb8a6\" />\n      <text x=\""@ + r.rust_val_x@ + "\" y=\""@ + r.rust_y@ + "\" class=\"label-val\">"@ + r.rust_p50@ + " ms ("@ + r.rust_rps@ + " req/s)</text>\n\n      <!-- Python Bar -->\n      <text x=\"50\" y=\""@);
        lemma_contains_extend("\n    <g class=\"lfl-row\">\n      <text x=\"30\" y=\""@ + r.label_y@ + "\" class=\"label-service\">"@ + r.category@ + ": "@ + r.workload@ + "</text>\n      <!-- Rust Bar -->\n      <text x=\"50\" y=\""@ + r.rust_y@ + "\" class=\"label-lang-rust\">Rust Native:</text>\n      <rect x=\"180\" y=\""@ + r.rust_rect_y@ + "\" width=\""@ + r.rust_w@ + "\" height=\"18\" rx=\"3\" fill=\"#7fb8a6\" />\n      <text x=\""@ + r.rust_val_x@ + "\" y=\""@ + r.rust_y@ + "\" class=\"label-val\">"@ + r.rust_p50@ + " ms ("@ + r.rust_rps@ + " req/s)</text>\n\n      <!-- Python Bar -->\n      <text x=\"50\" y=\""@ + r.py_y@ + "\" class=\"label-lang-py\">CPython 3.12:</text>\n      <rect x=\"180\" y=\""@ + r.py_rect_y@ + "\" width=\""@ + r.py_w@ + "\" height=\"18\" rx=\"3\" fill=\"#d7755d\" />\n      <text x=\""@ + r.py_val_x@ + "\" y=\""@ + r.py_y@ + "\" class=\"label-val\">"@ + r.py_p50@ + " ms ("@ + r.py_rps@, " req/s)</text>\n\n      <!-- Badge -->\n      <text x=\"820\" y=\""@, "\" height=\"18\" rx=\"3\" fill=\"#7fb8a6\" />\n      <text x=\""@ + r.rust_val_x@ + "\" y=\""@ + r.rust_y@ + "\" class=\"label-val\">"@ + r.rust_p50@ + " ms ("@ + r.rust_rps@ + " req/s)</text>\n\n      <!-- Python Bar -->\n      <text x=\"50\" y=\""@);
        lemma_contains_extend("\n    <g class=\"lfl-row\">\n      <text x=\"30\" y=\""@ + r.label_y@ + "\" class=\"label-service\">"@ + r.category@ + ": "@ + r.workload@ + "</text>\n      <!-- Rust Bar -->\n      <text x=\"50\" y=\""@ + r.rust_y@ + "\" class=\"label-lang-rust\">Rust Native:</text>\n      <rect x=\"180\" y=\""@ + r.rust_rect_y@ + "\" width=\""@ + r.rust_w@ + "\" height=\"18\" rx=\"3\" fill=\"#7fb8a6\" />\n      <text x=\""@ + r.rust_val_x@ + "\" y=\""@ + r.rust_y@ + "\" class=\"label-val\">"@ + r.rust_p50@ + " ms ("@ + r.rust_rps@ + " req/s)</text>\n\n      <!-- Python Bar -->\n      <text x=\"50\" y=\""@ + r.py_y@ + "\" class=\"label-lang-py\">CPython 3.12:</text>\n      <rect x=\"180\" y=\""@ + r.py_rect_y@ + "\" width=\""@ + r.py_w@ + "\" height=\"18\" rx=\"3\" fill=\"#d7755d\" />\n      <text x=\""@ + r.py_val_x@ + "\" y=\""@ + r.py_y@ + "\" class=\"label-val\">"@ + r.py_p50@ + " ms ("@ + r.py_rps@ + " req/s)</text>\n\n      <!-- Badge -->\n      <text x=\"820\" y=\""@, r.badge_y@, "\" height=\"18\" rx=\"3\" fill=\"#7fb8a6\" />\n      <text x=\""@ + r.rust_val_x@ + "\" y=\""@ + r.rust_y@ + "\" class=\"label-val\">"@ + r.rust_p50@ + " ms ("@ + r.rust_rps@ + " req/s)</text>\n\n      <!-- Python Bar -->\n      <text x=\"50\" y=\""@);
        lemma_contains_extend("\n    <g class=\"lfl-row\">\n      <text x=\"30\" y=\""@ + r.label_y@ + "\" class=\"label-service\">"@ + r.category@ + ": "@ + r.workload@ + "</text>\n      <!-- Rust Bar -->\n      <text x=\"50\" y=\""@ + r.rust_y@ + "\" class=\"label-lang-rust\">Rust Native:</text>\n      <rect x=\"180\" y=\""@ + r.rust_rect_y@ + "\" width=\""@ + r.rust_w@ + "\" height=\"18\" rx=\"3\" fill=\"#7fb8a6\" />\n      <text x=\""@ + r.rust_val_x@ + "\" y=\""@ + r.rust_y@ + "\" class=\"label-val\">"@ + r.rust_p50@ + " ms ("@ + r.rust_rps@ + " req/s)</text>\n\n      <!-- Python Bar -->\n      <text x=\"50\" y=\""@ + r.py_y@ + "\" class=\"label-lang-py\">CPython 3.12:</text>\n      <rect x=\"180\" y=\""@ + r.py_rect_y@ + "\" width=\""@ + r.py_w@ + "\" height=\"18\" rx=\"3\" fill=\"#d7755d\" />\n      <text x=\""@ + r.py_val_x@ + "\" y=\""@ + r.py_y@ + "\" class=\"label-val\">"@ + r.py_p50@ + " ms ("@ + r.py_rps@ + " req/s)</text>\n\n      <!-- Badge -->\n      <text x=\"820\" y=\""@ + r.badge_y@, "\" class=\"badge-speedup\">"@, "\" height=\"18\" rx=\"3\" fill=\"#7fb8a6\" />\n      <text x=\""@ + r.rust_val_x@ + "\" y=\""@ + r.rust_y@ + "\" class=\"label-val\">"@ + r.rust_p50@ + " ms ("@ + r.rust_rps@ + " req/s)</text>\n\n      <!-- Python Bar -->\n      <text x=\"50\" y=\""@);
        lemma_contains_extend("\n    <g class=\"lfl-row\">\n      <text x=\"30\" y=\""@ + r.label_y@ + "\" class=\"label-service\">"@ + r.category@ + ": "@ + r.workload@ + "</text>\n      <!-- Rust Bar -->\n      <text x=\"50\" y=\""@ + r.rust_y@ + "\" class=\"label-lang-rust\">Rust Native:</text>\n      <rect x=\"180\" y=\""@ + r.rust_rect_y@ + "\" width=\""@ + r.rust_w@ + "\" height=\"18\" rx=\"3\" fill=\"#7fb8a6\" />\n      <text x=\""@ + r.rust_val_x@ + "\" y=\""@ + r.rust_y@ + "\" class=\"label-val\">"@ + r.rust_p50@ + " ms ("@ + r.rust_rps@ + " req/s)</text>\n\n      <!-- Python Bar -->\n      <text x=\"50\" y=\""@ + r.py_y@ + "\" class=\"label-lang-py\">CPython 3.12:</text>\n      <rect x=\"180\" y=\""@ + r.py_rect_y@ + "\" width=\""@ + r.py_w@ + "\" height=\"18\" rx=\"3\" fill=\"#d7755d\" />\n      <text x=\""@ + r.py_val_x@ + "\" y=\""@ + r.py_y@ + "\" class=\"label-val\">"@ + r.py_p50@ + " ms ("@ + r.py_rps@ + " req/s)</text>\n\n      <!-- Badge -->\n      <text x=\"820\" y=\""@ + r.badge_y@ + "\" class=\"badge-speedup\">"@, r.speedup@, "\" height=\"18\" rx=\"3\" fill=\"#7fb8a6\" />\n      <text x=\""@ + r.rust_val_x@ + "\" y=\""@ + r.rust_y@ + "\" class=\"label-val\">"@ + r.rust_p50@ + " ms ("@ + r.rust_rps@ + " req/s)</text>\n\n      <!-- Python Bar -->\n      <text x=\"50\" y=\""@);
        lemma_contains_extend("\n    <g class=\"lfl-row\">\n      <text x=\"30\" y=\""@ + r.label_y@ + "\" class=\"label-service\">"@ + r.category@ + ": "@ + r.workload@ + "</text>\n      <!-- Rust Bar -->\n      <text x=\"50\" y=\""@ + r.rust_y@ + "\" class=\"label-lang-rust\">Rust Native:</text>\n      <rect x=\"180\" y=\""@ + r.rust_rect_y@ + "\" width=\""@ + r.rust_w@ + "\" height=\"18\" rx=\"3\" fill=\"#7fb8a6\" />\n      <text x=\""@ + r.rust_val_x@ + "\" y=\""@ + r.rust_y@ + "\" class=\"label-val\">"@ + r.rust_p50@ + " ms ("@ + r.rust_rps@ + " req/s)</text>\n\n      <!-- Python Bar -->\n      <text x=\"50\" y=\""@ + r.py_y@ + "\" class=\"label-lang-py\">CPython 3.12:</text>\n      <rect x=\"180\" y=\""@ + r.py_rect_y@ + "\" width=\""@ + r.py_w@ + "\" height=\"18\" rx=\"3\" fill=\"#d7755d\" />\n      <text x=\""@ + r.py_val_x@ + "\" y=\""@ + r.py_y@ + "\" class=\"label-val\">"@ + r.py_p50@ + " ms ("@ + r.py_rps@ + " req/s)</text>\n\n      <!-- Badge -->\n      <text x=\"820\" y=\""@ + r.badge_y@ + "\" class=\"badge-speedup\">"@ + r.speedup@, "x Faster</text>\n      <text x=\"820\" y=\""@, "\" height=\"18\" rx=\"3\" fill=\"#7fb8a6\" />\n      <text x=\""@ + r.rust_val_x@ + "\" y=\""@ + r.rust_y@ + "\" class=\"label-val\">"@ + r.rust_p50@ + " ms ("@ + r.rust_rps@ + " req/s)</text>\n\n      <!-- Python Bar -->\n      <text x=\"50\" y=\""@);
        lemma_contains_extend("\n    <g class=\"lfl-row\">\n      <text x=\"30\" y=\""@ + r.label_y@ + "\" class=\"label-service\">"@ + r.category@ + ": "@ + r.workload@ + "</text>\n      <!-- Rust Bar -->\n      <text x=\"50\" y=\""@ + r.rust_y@ + "\" class=\"label-lang-rust\">Rust Native:</text>\n      <rect x=\"180\" y=\""@ + r.rust_rect_y@ + "\" width=\""@ + r.rust_w@ + "\" height=\"18\" rx=\"3\" fill=\"#7fb8a6\" />\n      <text x=\""@ + r.rust_val_x@ + "\" y=\""@ + r.rust_y@ + "\" class=\"label-val\">"@ + r.rust_p50@ + " ms ("@ + r.rust_rps@ + " req/s)</text>\n\n      <!-- Python Bar -->\n      <text x=\"50\" y=\""@ + r.py_y@ + "\" class=\"label-lang-py\">CPython 3.12:</text>\n      <rect x=\"180\" y=\""@ + r.py_rect_y@ + "\" width=\""@ + r.py_w@ + "\" height=\"18\" rx=\"3\" fill=\"#d7755d\" />\n      <text x=\""@ + r.py_val_x@ + "\" y=\""@ + r.py_y@ + "\" class=\"label-val\">"@ + r.py_p50@ + " ms ("@ + r.py_rps@ + " req/s)</text>\n\n      <!-- Badge -->\n      <text x=\"820\" y=\""@ + r.badge_y@ + "\" class=\"badge-speedup\">"@ + r.speedup@ + "x Faster</text>\n      <text x=\"820\" y=\""@, r.badge_mem_y@, "\" height=\"18\" rx=\"3\" fill=\"#7fb8a6\" />\n      <text x=\""@ + r.rust_val_x@ + "\" y=\""@ + r.rust_y@ + "\" class=\"label-val\">"@ + r.rust_p50@ + " ms ("@ + r.rust_rps@ + " req/s)</text>\n\n      <!-- Python Bar -->\n      <text x=\"50\" y=\""@);
        lemma_contains_extend("\n    <g class=\"lfl-row\">\n      <text x=\"30\" y=\""@ + r.label_y@ + "\" class=\"label-service\">"@ + r.category@ + ": "@ + r.workload@ + "</text>\n      <!-- Rust Bar -->\n      <text x=\"50\" y=\""@ + r.rust_y@ + "\" class=\"label-lang-rust\">Rust Native:</text>\n      <rect x=\"180\" y=\""@ + r.rust_rect_y@ + "\" width=\""@ + r.rust_w@ + "\" height=\"18\" rx=\"3\" fill=\"#7fb8a6\" />\n      <text x=\""@ + r.rust_val_x@ + "\" y=\""@ + r.rust_y@ + "\" class=\"label-val\">"@ + r.rust_p50@ + " ms ("@ + r.rust_rps@ + " req/s)</text>\n\n      <!-- Python Bar -->\n      <text x=\"50\" y=\""@ + r.py_y@ + "\" class=\"label-lang-py\">CPython 3.12:</text>\n      <rect x=\"180\" y=\""@ + r.py_rect_y@ + "\" width=\""@ + r.py_w@ + "\" height=\"18\" rx=\"3\" fill=\"#d7755d\" />\n      <text x=\""@ + r.py_val_x@ + "\" y=\""@ + r.py_y@ + "\" class=\"label-val\">"@ + r.py_p50@ + " ms ("@ + r.py_rps@ + " req/s)</text>\n\n      <!-- Badge -->\n      <text x=\"820\" y=\""@ + r.badge_y@ + "\" class=\"badge-speedup\">"@ + r.speedup@ + "x Faster</text>\n      <text x=\"820\" y=\""@ + r.badge_mem_y@, "\" class=\"badge-mem\">(-"@, "\" height=\"18\" rx=\"3\" fill=\"#7fb8a6\" />\n      <text x=\""@ + r.rust_val_x@ + "\" y=\""@ + r.rust_y@ + "\" class=\"label-val\">"@ + r.rust_p50@ + " ms ("@ + r.rust_rps@ + " req/s)</text>\n\n      <!-- Python Bar -->\n      <text x=\"50\" y=\""@);
        lemma_contains_extend("\n    <g class=\"lfl-row\">\n      <text x=\"30\" y=\""@ + r.label_y@ + "\" class=\"label-service\">"@ + r.category@ + ": "@ + r.workload@ + "</text>\n      <!-- Rust Bar -->\n      <text x=\"50\" y=\""@ + r.rust_y@ + "\" class=\"label-lang-rust\">Rust Native:</text>\n      <rect x=\"180\" y=\""@ + r.rust_rect_y@ + "\" width=\""@ + r.rust_w@ + "\" height=\"18\" rx=\"3\" fill=\"#7fb8a6\" />\n      <text x=\""@ + r.rust_val_x@ + "\" y=\""@ + r.rust_y@ + "\" class=\"label-val\">"@ + r.rust_p50@ + " ms ("@ + r.rust_rps@ + " req/s)</text>\n\n      <!-- Python Bar -->\n      <text x=\"50\" y=\""@ + r.py_y@ + "\" class=\"label-lang-py\">CPython 3.12:</text>\n      <rect x=\"180\" y=\""@ + r.py_rect_y@ + "\" width=\""@ + r.py_w@ + "\" height=\"18\" rx=\"3\" fill=\"#d7755d\" />\n      <text x=\""@ + r.py_val_x@ + "\" y=\""@ + r.py_y@ + "\" class=\"label-val\">"@ + r.py_p50@ + " ms ("@ + r.py_rps@ + " req/s)</text>\n\n      <!-- Badge -->\n      <text x=\"820\" y=\""@ + r.badge_y@ + "\" class=\"badge-speedup\">"@ + r.speedup@ + "x Faster</text>\n      <text x=\"820\" y=\""@ + r.badge_mem_y@ + "\" class=\"badge-mem\">(-"@, r.mem_pct@, "\" height=\"18\" rx=\"3\" fill=\"#7fb8a6\" />\n      <text x=\""@ + r.rust_val_x@ + "\" y=\""@ + r.rust_y@ + "\" class=\"label-val\">"@ + r.rust_p50@ + " ms ("@ + r.rust_rps@ + " req/s)</text>\n\n      <!-- Python Bar -->\n      <text x=\"50\" y=\""@);
        lemma_contains_extend("\n    <g class=\"lfl-row\">\n      <text x=\"30\" y=\""@ + r.label_y@ + "\" class=\"label-service\">"@ + r.category@ + ": "@ + r.workload@ + "</text>\n      <!-- Rust Bar -->\n      <text x=\"50\" y=\""@ + r.rust_y@ + "\" class=\"label-lang-rust\">Rust Native:</text>\n      <rect x=\"180\" y=\""@ + r.rust_rect_y@ + "\" width=\""@ + r.rust_w@ + "\" height=\"18\" rx=\"3\" fill=\"#7fb8a6\" />\n      <text x=\""@ + r.rust_val_x@ + "\" y=\""@ + r.rust_y@ + "\" class=\"label-val\">"@ + r.rust_p50@ + " ms ("@ + r.rust_rps@ + " req/s)</text>\n\n      <!-- Python Bar -->\n      <text x=\"50\" y=\""@ + r.py_y@ + "\" class=\"label-lang-py\">CPython 3.12:</text>\n      <rect x=\"180\" y=\""@ + r.py_rect_y@ + "\" width=\""@ + r.py_w@ + "\" height=\"18\" rx=\"3\" fill=\"#d7755d\" />\n      <text x=\""@ + r.py_val_x@ + "\" y=\""@ + r.py_y@ + "\" class=\"label-val\">"@ + r.py_p50@ + " ms ("@ + r.py_rps@ + " req/s)</text>\n\n      <!-- Badge -->\n      <text x=\"820\" y=\""@ + r.badge_y@ + "\" class=\"badge-speedup\">"@ + r.speedup@ + "x Faster</text>\n      <text x=\"820\" y=\""@ + r.badge_mem_y@ + "\" class=\"badge-mem\">(-"@ + r.mem_pct@, "% RAM)</text>\n    </g>"@, "\" height=\"18\" rx=\"3\" fill=\"#7fb8a6\" />\n      <text x=\""@ + r.rust_val_x@ + "\" y=\""@ + r.rust_y@ + "\" class=\"label-val\">"@ + r.rust_p50@ + " ms ("@ + r.rust_rps@ + " req/s)</text>\n\n      <!-- Python Bar -->\n      <text x=\"50\" y=\""@);
    }
    assert(contains_seq(like_for_like_row_text(r), " req/s)</text>\n\n      <!-- Python Bar -->\n      <text x=\"50\" y=\""@ + r.py_y@ + "\" class=\"label-lang-py\">CPython 3.12:</text>\n      <rect x=\"180\" y=\""@)) by {
        lemma_concat_associative(("\n    <g class=\"lfl-row\">\n      <text x=\"30\" y=\""@ + r.label_y@ + "\" class=\"label-service\">"@ + r.category@ + ": "@ + r.workload@ + "</text>\n      <!-- Rust Bar -->\n      <text x=\"50\" y=\""@ + r.rust_y@ + "\" class=\"label-lang-rust\">Rust Native:</text>\n      <rect x=\"180\" y=\""@ + r.rust_rect_y@ + "\" width=\""@ + r.rust_w@ + "\" height=\"18\" rx=\"3\" fill=\"#7fb8a6\" />\n      <text x=\""@ + r.rust_val_x@ + "\" y=\""@ + r.rust_y@ + "\" class=\"label-val\">"@ + r.rust_p50@ + " ms ("@ + r.rust_rps@), " req/s)</text>\n\n      <!-- Python Bar -->\n      <text x=\"50\" y=\""@, r.py_y@);
        assert(("\n    <g class=\"lfl-row\">\n      <text x=\"30\" y=\""@ + r.label_y@ + "\" class=\"label-service\">"@ + r.category@ + ": "@ + r.workload@ + "</text>\n      <!-- Rust Bar -->\n      <text x=\"50\" y=\""@ + r.rust_y@ + "\" class=\"label-lang-rust\">Rust Native:</text>\n      <rect x=\"180\" y=\""@ + r.rust_rect_y@ + "\" width=\""@ + r.rust_w@ + "\" height=\"18\" rx=\"3\" fill=\"#7fb8a6\" />\n      <text x=\""@ + r.rust_val_x@ + "\" y=\""@ + r.rust_y@ + "\" class=\"label-val\">"@ + r.rust_p50@ + " ms ("@ + r.rust_rps@) + (" req/s)</text>\n\n      <!-- Python Bar -->\n      <text x=\"50\" y=\""@ + r.py_y@) == "\n    <g class=\"lfl-row\">\n      <text x=\"30\" y=\""@ + r.label_y@ + "\" class=\"label-service\">"@ + r.category@ + ": "@ + r.workload@ + "</text>\n      <!-- Rust Bar -->\n      <text x=\"50\" y=\""@ + r.rust_y@ + "\" class=\"label-lang-rust\">Rust Native:</text>\n      <rect x=\"180\" y=\""@ + r.rust_rect_y@ + "\" width=\""@ + r.rust_w@ + "\" height=\"18\" rx=\"3\" fill=\"#7fb8a6\" />\n      <text x=\""@ + r.rust_val_x@ + "\" y=\""@ + r.rust_y@ + "\" class=\"label-val\">"@ + r.rust_p50@ + " ms ("@ + r.rust_rps@ + " req/s)</text>\n\n      <!-- Python Bar -->\n      <text x=\"50\" y=\""@ + r.py_y@);
        lemma_concat_associative(("\n    <g class=\"lfl-row\">\n      <text x=\"30\" y=\""@ + r.label_y@ + "\" class=\"label-service\">"@ + r.category@ + ": "@ + r.workload@ + "</text>\n      <!-- Rust Bar -->\n      <text x=\"50\" y=\""@ + r.rust_y@ + "\" class=\"label-lang-rust\">Rust Native:</text>\n      <rect x=\"180\" y=\""@ + r.rust_rect_y@ + "\" width=\""@ + r.rust_w@ + "\" height=\"18\" rx=\"3\" fill=\"#7fb8a6\" />\n      <text x=\""@ + r.rust_val_x@ + "\" y=\""@ + r.rust_y@ + "\" class=\"label-val\">"@ + r.rust_p50@ + " ms ("@ + r.rust_rps@), " req/s)</text>\n\n      <!-- Python Bar -->\n      <text x=\"50\" y=\""@ + r.py_y@, "\" class=\"label-lang-py\">CPython 3.12:</text>\n      <rect x=\"180\" y=\""@);
        assert(("\n    <g class=\"lfl-row\">\n      <text x=\"30\" y=\""@ + r.label_y@ + "\" class=\"label-service\">"@ + r.category@ + ": "@ + r.workload@ + "</text>\n      <!-- Rust Bar -->\n      <text x=\"50\" y=\""@ + r.rust_y@ + "\" class=\"label-lang-rust\">Rust Native:</text>\n      <rect x=\"180\" y=\""@ + r.rust_rect_y@ + "\" width=\""@ + r.rust_w@ + "\" height=\"18\" rx=\"3\" fill=\"#7fb8a6\" />\n      <text x=\""@ + r.rust_val_x@ + "\" y=\""@ + r.rust_y@ + "\" class=\"label-val\">"@ + r.rust_p50@ + " ms ("@ + r.rust_rps@) + (" req/s)</text>\n\n      <!-- Python Bar -->\n      <text x=\"50\" y=\""@ + r.py_y@ + "\" class=\"label-lang-py\">CPython 3.12:</text>\n      <rect x=\"180\" y=\""@) == "\n    <g class=\"lfl-row\">\n      <text x=\"30\" y=\""@ + r.label_y@ + "\" class=\"label-service\">"@ + r.category@ + ": "@ + r.workload@ + "</text>\n      <!-- Rust Bar -->\n      <text x=\"50\" y=\""@ + r.rust_y@ + "\" class=\"label-lang-rust\">Rust Native:</text>\n      <rect x=\"180\" y=\""@ + r.rust_rect_y@ + "\" width=\""@ + r.rust_w@ + "\" height=\"18\" rx=\"3\" fill=\"#7fb8a6\" />\n      <text x=\""@ + r.rust_val_x@ + "\" y=\""@ + r.rust_y@ + "\" class=\"label-val\">"@ + r.rust_p50@ + " ms ("@ + r.rust_rps@ + " req/s)</text>\n\n      <!-- Python Bar -->\n      <text x=\"50\" y=\""@ + r.py_y@ + "\" class=\"label-lang-py\">CPython 3.12:</text>\n      <rect x=\"180\" y=\""@);
        lemma_contains_tail(("\n    <g class=\"lfl-row\">\n      <text x=\"30\" y=\""@ + r.label_y@ + "\" class=\"label-service\">"@ + r.category@ + ": "@ + r.workload@ + "</text>\n      <!-- Rust Bar -->\n      <text x=\"50\" y=\""@ + r.rust_y@ + "\" class=\"label-lang-rust\">Rust Native:</text>\n      <rect x=\"180\" y=\""@ + r.rust_rect_y@ + "\" width=\""@ + r.rust_w@ + "\" height=\"18\" rx=\"3\" fill=\"#7fb8a6\" />\n      <text x=\""@ + r.rust_val_x@ + "\" y=\""@ + r.rust_y@ + "\" class=\"label-val\">"@ + r.rust_p50@ + " ms ("@ + r.rust_rps@), " req/s)</text>\n\n      <!-- Python Bar -->\n      <text x=\"50\" y=\""@ + r.py_y@ + "\" class=\"label-lang-py\">CPython 3.12:</text>\n      <rect x=\"180\" y=\""@);
        lemma_contains_extend("\n    <g class=\"lfl-row\">\n      <text x=\"30\" y=\""@ + r.label_y@ + "\" class=\"label-service\">"@ + r.category@ + ": "@ + r.workload@ + "</text>\n      <!-- Rust Bar -->\n      <text x=\"50\" y=\""@ + r.rust_y@ + "\" class=\"label-lang-rust\">Rust Native:</text>\n      <rect x=\"180\" y=\""@ + r.rust_rect_y@ + "\" width=\""@ + r.rust_w@ + "\" height=\"18\" rx=\"3\" fill=\"#7fb8a6\" />\n      <text x=\""@ + r.rust_val_x@ + "\" y=\""@ + r.rust_y@ + "\" class=\"label-val\">"@ + r.rust_p50@ + " ms ("@ + r.rust_rps@ + " req/s)</text>\n\n      <!-- Python Bar -->\n      <text x=\"50\" y=\""@ + r.py_y@ + "\" class=\"label-lang-py\">CPython 3.12:</text>\n      <rect x=\"180\" y=\""@, r.py_rect_y@, " req/s)</text>\n\n      <!-- Python Bar -->\n      <text x=\"50\" y=\""@ + r.py_y@ + "\" class=\"label-lang-py\">CPython 3.12:</text>\n      <rect x=\"180\" y=\""@);
        lemma_contains_extend("\n    <g class=\"lfl-row\">\n      <text x=\"30\" y=\""@ + r.label_y@ + "\" class=\"label-service\">"@ + r.category@ + ": "@ + r.workload@ + "</text>\n      <!-- Rust Bar -->\n      <text x=\"50\" y=\""@ + r.rust_y@ + "\" class=\"label-lang-rust\">Rust Native:</text>\n      <rect x=\"180\" y=\""@ + r.rust_rect_y@ + "\" width=\""@ + r.rust_w@ + "\" height=\"18\" rx=\"3\" fill=\"#7fb8a6\" />\n      <text x=\""@ + r.rust_val_x@ + "\" y=\""@ + r.rust_y@ + "\" class=\"label-val\">"@ + r.rust_p50@ + " ms ("@ + r.rust_rps@ + " req/s)</text>\n\n      <!-- Python Bar -->\n      <text x=\"50\" y=\""@ + r.py_y@ + "\" class=\"label-lang-py\">CPython 3.12:</text>\n      <rect x=\"180\" y=\""@ + r.py_rect_y@, "\" width=\""@, " req/s)</text>\n\n      <!-- Python Bar -->\n      <text x=\"50\" y=\""@ + r.py_y@ + "\" class=\"label-lang-py\">CPython 3.12:</text>\n      <rect x=\"180\" y=\""@);
        lemma_contains_extend("\n    <g class=\"lfl-row\">\n      <text x=\"30\" y=\""@ + r.label_y@ + "\" class=\"label-service\">"@ + r.category@ + ": "@ + r.workload@ + "</text>\n      <!-- Rust Bar -->\n      <text x=\"50\" y=\""@ + r.rust_y@ + "\" class=\"label-lang-rust\">Rust Native:</text>\n      <rect x=\"180\" y=\""@ + r.rust_rect_y@ + "\" width=\""@ + r.rust_w@ + "\" height=\"18\" rx=\"3\" fill=\"#7fb8a6\" />\n      <text x=\""@ + r.rust_val_x@ + "\" y=\""@ + r.rust_y@ + "\" class=\"label-val\">"@ + r.rust_p50@ + " ms ("@ + r.rust_rps@ + " req/s)</text>\n\n      <!-- Python Bar -->\n      <text x=\"50\" y=\""@ + r.py_y@ + "\" class=\"label-lang-py\">CPython 3.12:</text>\n      <rect x=\"180\" y=\""@ + r.py_rect_y@ + "\" width=\""@, r.py_w@, " req/s)</text>\n\n      <!-- Python Bar -->\n      <text x=\"50\" y=\""@ + r.py_y@ + "\" class=\"label-lang-py\">CPython 3.12:</text>\n      <rect x=\"180\" y=\""@);
        lemma_contains_extend("\n    <g class=\"lfl-row\">\n      <text x=\"30\" y=\""@ + r.label_y@ + "\" class=\"label-service\">"@ + r.category@ + ": "@ + r.workload@ + "</text>\n      <!-- Rust Bar -->\n      <text x=\"50\" y=\""@ + r.rust_y@ + "\" class=\"label-lang-rust\">Rust Native:</text>\n      <rect x=\"180\" y=\""@ + r.rust_rect_y@ + "\" width=\""@ + r.rust_w@ + "\" height=\"18\" rx=\"3\" fill=\"#7fb8a6\" />\n      <text x=\""@ + r.rust_val_x@ + "\" y=\""@ + r.rust_y@ + "\" class=\"label-val\">"@ + r.rust_p50@ + " ms ("@ + r.rust_rps@ + " req/s)</text>\n\n      <!-- Python Bar -->\n      <text x=\"50\" y=\""@ + r.py_y@ + "\" class=\"label-lang-py\">CPython 3.12:</text>\n      <rect x=\"180\" y=\""@ + r.py_rect_y@ + "\" width=\""@ + r.py_w@, "\" height=\"18\" rx=\"3\" fill=\"#d7755d\" />\n      <text x=\""@, " req/s)</text>\n\n      <!-- Python Bar -->\n      <text x=\"50\" y=\""@ + r.py_y@ + "\" class=\"label-lang-py\">CPython 3.12:</text>\n      <rect x=\"180\" y=\""@);
        lemma_contains_extend("\n    <g class=\"lfl-row\">\n      <text x=\"30\" y=\""@ + r.label_y@ + "\" class=\"label-service\">"@ + r.category@ + ": "@ + r.workload@ + "</text>\n      <!-- Rust Bar -->\n      <text x=\"50\" y=\""@ + r.rust_y@ + "\" class=\"label-lang-rust\">Rust Native:</text>\n      <rect x=\"180\" y=\""@ + r.rust_rect_y@ + "\" width=\""@ + r.rust_w@ + "\" height=\"18\" rx=\"3\" fill=\"#7fb8a6\" />\n      <text x=\""@ + r.rust_val_x@ + "\" y=\""@ + r.rust_y@ + "\" class=\"label-val\">"@ + r.rust_p50@ + " ms ("@ + r.rust_rps@ + " req/s)</text>\n\n      <!-- Python Bar -->\n      <text x=\"50\" y=\""@ + r.py_y@ + "\" class=\"label-lang-py\">CPython 3.12:</text>\n      <rect x=\"180\" y=\""@ + r.py_rect_y@ + "\" width=\""@ + r.py_w@ + "\" height=\"18\" rx=\"3\" fill=\"#d7755d\" />\n      <text x=\""@, r.py_val_x@, " req/s)</text>\n\n      <!-- Python Bar -->\n      <text x=\"50\" y=\""@ + r.py_y@ + "\" class=\"label-lang-py\">CPython 3.12:</text>\n      <rect x=\"180\" y=\""@);
        lemma_contains_extend("\n    <g class=\"lfl-row\">\n      <text x=\"30\" y=\""@ + r.label_y@ + "\" class=\"label-service\">"@ + r.category@ + ": "@ + r.workload@ + "</text>\n      <!-- Rust Bar -->\n      <text x=\"50\" y=\""@ + r.rust_y@ + "\" class=\"label-lang-rust\">Rust Native:</text>\n      <rect x=\"180\" y=\""@ + r.rust_rect_y@ + "\" width=\""@ + r.rust_w@ + "\" height=\"18\" rx=\"3\" fill=\"#7fb8a6\" />\n      <text x=\""@ + r.rust_val_x@ + "\" y=\""@ + r.rust_y@ + "\" class=\"label-val\">"@ + r.rust_p50@ + " ms ("@ + r.rust_rps@ + " req/s)</text>\n\n      <!-- Python Bar -->\n      <text x=\"50\" y=\""@ + r.py_y@ + "\" class=\"label-lang-py\">CPython 3.12:</text>\n      <rect x=\"180\" y=\""@ + r.py_rect_y@ + "\" width=\""@ + r.py_w@ + "\" height=\"18\" rx=\"3\" fill=\"#d7755d\" />\n      <text x=\""@ + r.py_val_x@, "\" y=\""@, " req/s)</text>\n\n      <!-- Python Bar -->\n      <text x=\"50\" y=\""@ + r.py_y@ + "\" class=\"label-lang-py\">CPython 3.12:</text>\n      <rect x=\"180\" y=\""@);
        lemma_contains_extend("\n    <g class=\"lfl-row\">\n      <text x=\"30\" y=\""@ + r.label_y@ + "\" class=\"label-service\">"@ + r.category@ + ": "@ + r.workload@ + "</text>\n      <!-- Rust Bar -->\n      <text x=\"50\" y=\""@ + r.rust_y@ + "\" class=\"label-lang-rust\">Rust Native:</text>\n      <rect x=\"180\" y=\""@ + r.rust_rect_y@ + "\" width=\""@ + r.rust_w@ + "\" height=\"18\" rx=\"3\" fill=\"#7fb8a6\" />\n      <text x=\""@ + r.rust_val_x@ + "\" y=\""@ + r.rust_y@ + "\" class=\"label-val\">"@ + r.rust_p50@ + " ms ("@ + r.rust_rps@ + " req/s)</text>\n\n      <!-- Python Bar -->\n      <text x=\"50\" y=\""@ + r.py_y@ + "\" class=\"label-lang-py\">CPython 3.12:</text>\n      <rect x=\"180\" y=\""@ + r.py_rect_y@ + "\" width=\""@ + r.py_w@ + "\" height=\"18\" rx=\"3\" fill=\"#d7755d\" />\n      <text x=\""@ + r.py_val_x@ + "\" y=\""@, r.py_y@, " req/s)</text>\n\n      <!-- Python Bar -->\n      <text x=\"50\" y=\""@ + r.py_y@ + "\" class=\"label-lang-py\">CPython 3.12:</text>\n      <rect x=\"180\" y=\""@);
        lemma_contains_extend("\n    <g class=\"lfl-row\">\n      <text x=\"30\" y=\""@ + r.label_y@ + "\" class=\"label-service\">"@ + r.category@ + ": "@ + r.workload@ + "</text>\n      <!-- Rust Bar -->\n      <text x=\"50\" y=\""@ + r.rust_y@ + "\" class=\"label-lang-rust\">Rust Native:</text>\n      <rect x=\"180\" y=\""@ + r.rust_rect_y@ + "\" width=\""@ + r.rust_w@ + "\" height=\"18\" rx=\"3\" fill=\"#7fb8a6\" />\n      <text x=\""@ + r.rust_val_x@ + "\" y=\""@ + r.rust_y@ + "\" class=\"label-val\">"@ + r.rust_p50@ + " ms ("@ + r.rust_rps@ + " req/s)</text>\n\n      <!-- Python Bar -->\n      <text x=\"50\" y=\""@ + r.py_y@ + "\" class=\"label-lang-py\">CPython 3.12:</text>\n      <rect x=\"180\" y=\""@ + r.py_rect_y@ + "\" width=\""@ + r.py_w@ + "\" height=\"18\" rx=\"3\" fill=\"#d7755d\" />\n      <text x=\""@ + r.py_val_x@ + "\" y=\""@ + r.py_y@, "\" class=\"label-val\">"@, " req/s)</text>\n\n      <!-- Python Bar -->\n      <text x=\"50\" y=\""@ + r.py_y@ + "\" class=\"label-lang-py\">CPython 3.12:</text>\n      <rect x=\"180\" y=\""@);
        lemma_contains_extend("\n    <g class=\"lfl-row\">\n      <text x=\"30\" y=\""@ + r.label_y@ + "\" class=\"label-service\">"@ + r.category@ + ": "@ + r.workload@ + "</text>\n      <!-- Rust Bar -->\n      <text x=\"50\" y=\""@ + r.rust_y@ + "\" class=\"label-lang-rust\">Rust Native:</text>\n      <rect x=\"180\" y=\""@ + r.rust_rect_y@ + "\" width=\""@ + r.rust_w@ + "\" height=\"18\" rx=\"3\" fill=\"#7fb8a6\" />\n      <text x=\""@ + r.rust_val_x@ + "\" y=\""@ + r.rust_y@ + "\" class=\"label-val\">"@ + r.rust_p50@ + " ms ("@ + r.rust_rps@ + " req/s)</text>\n\n      <!-- Python Bar -->\n      <text x=\"50\" y=\""@ + r.py_y@ + "\" class=\"label-lang-py\">CPython 3.12:</text>\n      <rect x=\"180\" y=\""@ + r.py_rect_y@ + "\" width=\""@ + r.py_w@ + "\" height=\"18\" rx=\"3\" fill=\"#d7755d\" />\n      <text x=\""@ + r.py_val_x@ + "\" y=\""@ + r.py_y@ + "\" class=\"label-val\">"@, r.py_p50@, " req/s)</text>\n\n      <!-- Python Bar -->\n      <text x=\"50\" y=\""@ + r.py_y@ + "\" class=\"label-lang-py\">CPython 3.12:</text>\n      <rect x=\"180\" y=\""@);
        lemma_contains_extend("\n    <g class=\"lfl-row\">\n      <text x=\"30\" y=\""@ + r.label_y@ + "\" class=\"label-service\">"@ + r.category@ + ": "@ + r.workload@ + "</text>\n      <!-- Rust Bar -->\n      <text x=\"50\" y=\""@ + r.rust_y@ + "\" class=\"label-lang-rust\">Rust Native:</text>\n      <rect x=\"180\" y=\""@ + r.rust_rect_y@ + "\" width=\""@ + r.rust_w@ + "\" height=\"18\" rx=\"3\" fill=\"#7fb8a6\" />\n      <text x=\""@ + r.rust_val_x@ + "\" y=\""@ + r.rust_y@ + "\" class=\"label-val\">"@ + r.rust_p50@ + " ms ("@ + r.rust_rps@ + " req/s)</text>\n\n      <!-- Python Bar -->\n      <text x=\"50\" y=\""@ + r.py_y@ + "\" class=\"label-lang-py\">CPython 3.12:</text>\n      <rect x=\"180\" y=\""@ + r.py_rect_y@ + "\" width=\""@ + r.py_w@ + "\" height=\"18\" rx=\"3\" fill=\"#d7755d\" />\n      <text x=\""@ + r.py_val_x@ + "\" y=\""@ + r.py_y@ + "\" class=\"label-val\">"@ + r.py_p50@, " ms ("@, " req/s)</text>\n\n      <!-- Python Bar -->\n      <text x=\"50\" y=\""@ + r.py_y@ + "\" class=\"label-lang-py\">CPython 3.12:</text>\n      <rect x=\"180\" y=\""@);
        lemma_contains_extend("\n    <g class=\"lfl-row\">\n      <text x=\"30\" y=\""@ + r.label_y@ + "\" class=\"label-service\">"@ + r.category@ + ": "@ + r.workload@ + "</text>\n      <!-- Rust Bar -->\n      <text x=\"50\" y=\""@ + r.rust_y@ + "\" class=\"label-lang-rust\">Rust Native:</text>\n      <rect x=\"180\" y=\""@ + r.rust_rect_y@ + "\" width=\""@ + r.rust_w@ + "\" height=\"18\" rx=\"3\" fill=\"#7fb8a6\" />\n      <text x=\""@ + r.rust_val_x@ + "\" y=\""@ + r.rust_y@ + "\" class=\"label-val\">"@ + r.rust_p50@ + " ms ("@ + r.rust_rps@ + " req/s)</text>\n\n      <!-- Python Bar -->\n      <text x=\"50\" y=\""@ + r.py_y@ + "\" class=\"label-lang-py\">CPython 3.12:</text>\n      <rect x=\"180\" y=\""@ + r.py_rect_y@ + "\" width=\""@ + r.py_w@ + "\" height=\"18\" rx=\"3\" fill=\"#d7755d\" />\n      <text x=\""@ + r.py_val_x@ + "\" y=\""@ + r.py_y@ + "\" class=\"label-val\">"@ + r.py_p50@ + " ms ("@, r.py_rps@, " req/s)</text>\n\n      <!-- Python Bar -->\n      <text x=\"50\" y=\""@ + r.py_y@ + "\" class=\"label-lang-py\">CPython 3.12:</text>\n      <rect x=\"180\" y=\""@);
        lemma_contains_extend("\n    <g class=\"lfl-row\">\n      <text x=\"30\" y=\""@ + r.label_y@ + "\" class=\"label-service\">"@ + r.category@ + ": "@ + r.workload@ + "</text>\n      <!-- Rust Bar -->\n      <text x=\"50\" y=\""@ + r.rust_y@ + "\" class=\"label-lang-rust\">Rust Native:</text>\n      <rect x=\"180\" y=\""@ + r.rust_rect_y@ + "\" width=\""@ + r.rust_w@ + "\" height=\"18\" rx=\"3\" fill=\"#7fb8a6\" />\n      <text x=\""@ + r.rust_val_x@ + "\" y=\""@ + r.rust_y@ + "\" class=\"label-val\">"@ + r.rust_p50@ + " ms ("@ + r.rust_rps@ + " req/s)</text>\n\n      <!-- Python Bar -->\n      <text x=\"50\" y=\""@ + r.py_y@ + "\" class=\"label-lang-py\">CPython 3.12:</text>\n      <rect x=\"180\" y=\""@ + r.py_rect_y@ + "\" width=\""@ + r.py_w@ + "\" height=\"18\" rx=\"3\" fill=\"#d7755d\" />\n      <text x=\""@ + r.py_val_x@ + "\" y=\""@ + r.py_y@ + "\" class=\"label-val\">"@ + r.py_p50@ + " ms ("@ + r.py_rps@, " req/s)</text>\n\n      <!-- Badge -->\n      <text x=\"820\" y=\""@, " req/s)</text>\n\n      <!-- Python Bar -->\n      <text x=\"50\" y=\""@ + r.py_y@ + "\" class=\"label-lang-py\">CPython 3.12:</text>\n      <rect x=\"180\" y=\""@);
        lemma_contains_extend("\n    <g class=\"lfl-row\">\n      <text x=\"30\" y=\""@ + r.label_y@ + "\" class=\"label-service\">"@ + r.category@ + ": "@ + r.workload@ + "</text>\n      <!-- Rust Bar -->\n      <text x=\"50\" y=\""@ + r.rust_y@ + "\" class=\"label-lang-rust\">Rust Native:</text>\n      <rect x=\"180\" y=\""@ + r.rust_rect_y@ + "\" width=\""@ + r.rust_w@ + "\" height=\"18\" rx=\"3\" fill=\"#7fb8a6\" />\n      <text x=\""@ + r.rust_val_x@ + "\" y=\""@ + r.rust_y@ + "\" class=\"label-val\">"@ + r.rust_p50@ + " ms ("@ + r.rust_rps@ + " req/s)</text>\n\n      <!-- Python Bar -->\n      <text x=\"50\" y=\""@ + r.py_y@ + "\" class=\"label-lang-py\">CPython 3.12:</text>\n      <rect x=\"180\" y=\""@ + r.py_rect_y@ + "\" width=\""@ + r.py_w@ + "\" height=\"18\" rx=\"3\" fill=\"#d7755d\" />\n      <text x=\""@ + r.py_val_x@ + "\" y=\""@ + r.py_y@ + "\" class=\"label-val\">"@ + r.py_p50@ + " ms ("@ + r.py_rps@ + " req/s)</text>\n\n      <!-- Badge -->\n      <text x=\"820\" y=\""@, r.badge_y@, " req/s)</text>\n\n      <!-- Python Bar -->\n      <text x=\"50\" y=\""@ + r.py_y@ + "\" class=\"label-lang-py\">CPython 3.12:</text>\n      <rect x=\"180\" y=\""@);
        lemma_contains_extend("\n    <g class=\"lfl-row\">\n      <text x=\"30\" y=\""@ + r.label_y@ + "\" class=\"label-service\">"@ + r.category@ + ": "@ + r.workload@ + "</text>\n      <!-- Rust Bar -->\n      <text x=\"50\" y=\""@ + r.rust_y@ + "\" class=\"label-lang-rust\">Rust Native:</text>\n      <rect x=\"180\" y=\""@ + r.rust_rect_y@ + "\" width=\""@ + r.rust_w@ + "\" height=\"18\" rx=\"3\" fill=\"#7fb8a6\" />\n      <text x=\""@ + r.rust_val_x@ + "\" y=\""@ + r.rust_y@ + "\" class=\"label-val\">"@ + r.rust_p50@ + " ms ("@ + r.rust_rps@ + " req/s)</text>\n\n      <!-- Python Bar -->\n      <text x=\"50\" y=\""@ + r.py_y@ + "\" class=\"label-lang-py\">CPython 3.12:</text>\n      <rect x=\"180\" y=\""@ + r.py_rect_y@ + "\" width=\""@ + r.py_w@ + "\" height=\"18\" rx=\"3\" fill=\"#d7755d\" />\n      <text x=\""@ + r.py_val_x@ + "\" y=\""@ + r.py_y@ + "\" class=\"label-val\">"@ + r.py_p50@ + " ms ("@ + r.py_rps@ + " req/s)</text>\n\n      <!-- Badge -->\n      <text x=\"820\" y=\""@ + r.badge_y@, "\" class=\"badge-speedup\">"@, " req/s)</text>\n\n      <!-- Python Bar -->\n      <text x=\"50\" y=\""@ + r.py_y@ + "\" class=\"label-lang-py\">CPython 3.12:</text>\n      <rect x=\"180\" y=\""@);
        lemma_contains_extend("\n    <g class=\"lfl-row\">\n      <text x=\"30\" y=\""@ + r.label_y@ + "\" class=\"label-service\">"@ + r.category@ + ": "@ + r.workload@ + "</text>\n      <!-- Rust Bar -->\n      <text x=\"50\" y=\""@ + r.rust_y@ + "\" class=\"label-lang-rust\">Rust Native:</text>\n      <rect x=\"180\" y=\""@ + r.rust_rect_y@ + "\" width=\""@ + r.rust_w@ + "\" height=\"18\" rx=\"3\" fill=\"#7fb8a6\" />\n      <text x=\""@ + r.rust_val_x@ + "\" y=\""@ + r.rust_y@ + "\" class=\"label-val\">"@ + r.rust_p50@ + " ms ("@ + r.rust_rps@ + " req/s)</text>\n\n      <!-- Python Bar -->\n      <text x=\"50\" y=\""@ + r.py_y@ + "\" class=\"label-lang-py\">CPython 3.12:</text>\n      <rect x=\"180\" y=\""@ + r.py_rect_y@ + "\" width=\""@ + r.py_w@ + "\" height=\"18\" rx=\"3\" fill=\"#d7755d\" />\n      <text x=\""@ + r.py_val_x@ + "\" y=\""@ + r.py_y@ + "\" class=\"label-val\">"@ + r.py_p50@ + " ms ("@ + r.py_rps@ + " req/s)</text>\n\n      <!-- Badge -->\n      <text x=\"820\" y=\""@ + r.badge_y@ + "\" class=\"badge-speedup\">"@, r.speedup@, " req/s)</text>\n\n      <!-- Python Bar -->\n      <text x=\"50\" y=\""@ + r.py_y@ + "\" class=\"label-lang-py\">CPython 3.12:</text>\n      <rect x=\"180\" y=\""@);
        lemma_contains_extend("\n    <g class=\"lfl-row\">\n      <text x=\"30\" y=\""@ + r.label_y@ + "\" class=\"label-service\">"@ + r.category@ + ": "@ + r.workload@ + "</text>\n      <!-- Rust Bar -->\n      <text x=\"50\" y=\""@ + r.rust_y@ + "\" class=\"label-lang-rust\">Rust Native:</text>\n      <rect x=\"180\" y=\""@ + r.rust_rect_y@ + "\" width=\""@ + r.rust_w@ + "\" height=\"18\" rx=\"3\" fill=\"#7fb8a6\" />\n      <text x=\""@ + r.rust_val_x@ + "\" y=\""@ + r.rust_y@ + "\" class=\"label-val\">"@ + r.rust_p50@ + " ms ("@ + r.rust_rps@ + " req/s)</text>\n\n      <!-- Python Bar -->\n      <text x=\"50\" y=\""@ + r.py_y@ + "\" class=\"label-lang-py\">CPython 3.12:</text>\n      <rect x=\"180\" y=\""@ + r.py_rect_y@ + "\" width=\""@ + r.py_w@ + "\" height=\"18\" rx=\"3\" fill=\"#d7755d\" />\n      <text x=\""@ + r.py_val_x@ + "\" y=\""@ + r.py_y@ + "\" class=\"label-val\">"@ + r.py_p50@ + " ms ("@ + r.py_rps@ + " req/s)</text>\n\n      <!-- Badge -->\n      <text x=\"820\" y=\""@ + r.badge_y@ + "\" class=\"badge-speedup\">"@ + r.speedup@, "x Faster</text>\n      <text x=\"820\" y=\""@, " req/s)</text>\n\n      <!-- Python Bar -->\n      <text x=\"50\" y=\""@ + r.py_y@ + "\" class=\"label-lang-py\">CPython 3.12:</text>\n      <rect x=\"180\" y=\""@);
        lemma_contains_extend("\n    <g class=\"lfl-row\">\n      <text x=\"30\" y=\""@ + r.label_y@ + "\" class=\"label-service\">"@ + r.category@ + ": "@ + r.workload@ + "</text>\n      <!-- Rust Bar -->\n      <text x=\"50\" y=\""@ + r.rust_y@ + "\" class=\"label-lang-rust\">Rust Native:</text>\n      <rect x=\"180\" y=\""@ + r.rust_rect_y@ + "\" width=\""@ + r.rust_w@ + "\" height=\"18\" rx=\"3\" fill=\"#7fb8a6\" />\n      <text x=\""@ + r.rust_val_x@ + "\" y=\""@ + r.rust_y@ + "\" class=\"label-val\">"@ + r.rust_p50@ + " ms ("@ + r.rust_rps@ + " req/s)</text>\n\n      <!-- Python Bar -->\n      <text x=\"50\" y=\""@ + r.py_y@ + "\" class=\"label-lang-py\">CPython 3.12:</text>\n      <rect x=\"180\" y=\""@ + r.py_rect_y@ + "\" width=\""@ + r.py_w@ + "\" height=\"18\" rx=\"3\" fill=\"#d7755d\" />\n      <text x=\""@ + r.py_val_x@ + "\" y=\""@ + r.py_y@ + "\" class=\"label-val\">"@ + r.py_p50@ + " ms ("@ + r.py_rps@ + " req/s)</text>\n\n      <!-- Badge -->\n      <text x=\"820\" y=\""@ + r.badge_y@ + "\" class=\"badge-speedup\">"@ + r.speedup@ + "x Faster</text>\n      <text x=\"820\" y=\""@, r.badge_mem_y@, " req/s)</text>\n\n      <!-- Python Bar -->\n      <text x=\"50\" y=\""@ + r.py_y@ + "\" class=\"label-lang-py\">CPython 3.12:</text>\n      <rect x=\"180\" y=\""@);
        lemma_contains_extend("\n    <g class=\"lfl-row\">\n      <text x=\"30\" y=\""@ + r.label_y@ + "\" class=\"label-service\">"@ + r.category@ + ": "@ + r.workload@ + "</text>\n      <!-- Rust Bar -->\n      <text x=\"50\" y=\""@ + r.rust_y@ + "\" class=\"label-lang-rust\">Rust Native:</text>\n      <rect x=\"180\" y=\""@ + r.rust_rect_y@ + "\" width=\""@ + r.rust_w@ + "\" height=\"18\" rx=\"3\" fill=\"#7fb8a6\" />\n      <text x=\""@ + r.rust_val_x@ + "\" y=\""@ + r.rust_y@ + "\" class=\"label-val\">"@ + r.rust_p50@ + " ms ("@ + r.rust_rps@ + " req/s)</text>\n\n      <!-- Python Bar -->\n      <text x=\"50\" y=\""@ + r.py_y@ + "\" class=\"label-lang-py\">CPython 3.12:</text>\n      <rect x=\"180\" y=\""@ + r.py_rect_y@ + "\" width=\""@ + r.py_w@ + "\" height=\"18\" rx=\"3\" fill=\"#d7755d\" />\n      <text x=\""@ + r.py_val_x@ + "\" y=\""@ + r.py_y@ + "\" class=\"label-val\">"@ + r.py_p50@ + " ms ("@ + r.py_rps@ + " req/s)</text>\n\n      <!-- Badge -->\n      <text x=\"820\" y=\""@ + r.badge_y@ + "\" class=\"badge-speedup\">"@ + r.speedup@ + "x Faster</text>\n      <text x=\"820\" y=\""@ + r.badge_mem_y@, "\" class=\"badge-mem\">(-"@, " req/s)</text>\n\n      <!-- Python Bar -->\n      <text x=\"50\" y=\""@ + r.py_y@ + "\" class=\"label-lang-py\">CPython 3.12:</text>\n      <rect x=\"180\" y=\""@);
        lemma_contains_extend("\n    <g class=\"lfl-row\">\n      <text x=\"30\" y=\""@ + r.label_y@ + "\" class=\"label-service\">"@ + r.category@ + ": "@ + r.workload@ + "</text>\n      <!-- Rust Bar -->\n      <text x=\"50\" y=\""@ + r.rust_y@ + "\" class=\"label-lang-rust\">Rust Native:</text>\n      <rect x=\"180\" y=\""@ + r.rust_rect_y@ + "\" width=\""@ + r.rust_w@ + "\" height=\"18\" rx=\"3\" fill=\"#7fb8a6\" />\n      <text x=\""@ + r.rust_val_x@ + "\" y=\""@ + r.rust_y@ + "\" class=\"label-val\">"@ + r.rust_p50@ + " ms ("@ + r.rust_rps@ + " req/s)</text>\n\n      <!-- Python Bar -->\n      <text x=\"50\" y=\""@ + r.py_y@ + "\" class=\"label-lang-py\">CPython 3.12:</text>\n      <rect x=\"180\" y=\""@ + r.py_rect_y@ + "\" width=\""@ + r.py_w@ + "\" height=\"18\" rx=\"3\" fill=\"#d7755d\" />\n      <text x=\""@ + r.py_val_x@ + "\" y=\""@ + r.py_y@ + "\" class=\"label-val\">"@ + r.py_p50@ + " ms ("@ + r.py_rps@ + " req/s)</text>\n\n      <!-- Badge -->\n      <text x=\"820\" y=\""@ + r.badge_y@ + "\" class=\"badge-speedup\">"@ + r.speedup@ + "x Faster</text>\n      <text x=\"820\" y=\""@ + r.badge_mem_y@ + "\" class=\"badge-mem\">(-"@, r.mem_pct@, " req/s)</text>\n\n      <!-- Python Bar -->\n      <text x=\"50\" y=\""@ + r.py_y@ + "\" class=\"label-lang-py\">CPython 3.12:</text>\n      <rect x=\"180\" y=\""@);
        lemma_contains_extend("\n    <g class=\"lfl-row\">\n      <text x=\"30\" y=\""@ + r.label_y@ + "\" class=\"label-service\">"@ + r.category@ + ": "@ + r.workload@ + "</text>\n      <!-- Rust Bar -->\n      <text x=\"50\" y=\""@ + r.rust_y@ + "\" class=\"label-lang-rust\">Rust Native:</text>\n      <rect x=\"180\" y=\""@ + r.rust_rect_y@ + "\" width=\""@ + r.rust_w@ + "\" height=\"18\" rx=\"3\" fill=\"#7fb8a6\" />\n      <text x=\""@ + r.rust_val_x@ + "\" y=\""@ + r.rust_y@ + "\" class=\"label-val\">"@ + r.rust_p50@ + " ms ("@ + r.rust_rps@ + " req/s)</text>\n\n      <!-- Python Bar -->\n      <text x=\"50\" y=\""@ + r.py_y@ + "\" class=\"label-lang-py\">CPython 3.12:</text>\n      <rect x=\"180\" y=\""@ + r.py_rect_y@ + "\" width=\""@ + r.py_w@ + "\" height=\"18\" rx=\"3\" fill=\"#d7755d\" />\n      <text x=\""@ + r.py_val_x@ + "\" y=\""@ + r.py_y@ + "\" class=\"label-val\">"@ + r.py_p50@ + " ms ("@ + r.py_rps@ + " req/s)</text>\n\n      <!-- Badge -->\n      <text x=\"820\" y=\""@ + r.badge_y@ + "\" class=\"badge-speedup\">"@ + r.speedup@ + "x Faster</text>\n      <text x=\"820\" y=\""@ + r.badge_mem_y@ + "\" class=\"badge-mem\">(-"@ + r.mem_pct@, "% RAM)</text>\n    </g>"@, " req/s)</text>\n\n      <!-- Python Bar -->\n      <text x=\"50\" y=\""@ + r.py_y@ + "\" class=\"label-lang-py\">CPython 3.12:</text>\n      <rect x=\"180\" y=\""@);
    }
    assert(contains_seq(like_for_like_row_text(r), "\" class=\"label-lang-py\">CPython 3.12:</text>\n      <rect x=\"180\" y=\""@ + r.py_rect_y@ + "\" width=\""@ + r.py_w@ + "\" height=\"18\" rx=\"3\" fill=\"#d7755d\" />\n      <text x=\""@)) by {
        lemma_concat_associative(("\n    <g class=\"lfl-row\">\n      <text x=\"30\" y=\""@ + r.label_y@ + "\" class=\"label-service\">"@ + r.category@ + ": "@ + r.workload@ + "</text>\n      <!-- Rust Bar -->\n      <text x=\"50\" y=\""@ + r.rust_y@ + "\" class=\"label-lang-rust\">Rust Native:</text>\n      <rect x=\"180\" y=\""@ + r.rust_rect_y@ + "\" width=\""@ + r.rust_w@ + "\" height=\"18\" rx=\"3\" fill=\"#7fb8a6\" />\n      <text x=\""@ + r.rust_val_x@ + "\" y=\""@ + r.rust_y@ + "\" class=\"label-val\">"@ + r.rust_p50@ + " ms ("@ + r.rust_rps@ + " req/s)</text>\n\n      <!-- Python Bar -->\n      <text x=\"50\" y=\""@ + r.py_y@), "\" class=\"label-lang-py\">CPython 3.12:</text>\n      <rect x=\"180\" y=\""@, r.py_rect_y@);
        assert(("\n    <g class=\"lfl-row\">\n      <text x=\"30\" y=\""@ + r.label_y@ + "\" class=\"label-service\">"@ + r.category@ + ": "@ + r.workload@ + "</text>\n      <!-- Rust Bar -->\n      <text x=\"50\" y=\""@ + r.rust_y@ + "\" class=\"label-lang-rust\">Rust Native:</text>\n      <rect x=\"180\" y=\""@ + r.rust_rect_y@ + "\" width=\""@ + r.rust_w@ + "\" height=\"18\" rx=\"3\" fill=\"#7fb8a6\" />\n      <text x=\""@ + r.rust_val_x@ + "\" y=\""@ + r.rust_y@ + "\" class=\"label-val\">"@ + r.rust_p50@ + " ms ("@ + r.rust_rps@ + " req/s)</text>\n\n      <!-- Python Bar -->\n      <text x=\"50\" y=\""@ + r.py_y@) + ("\" class=\"label-lang-py\">CPython 3.12:</text>\n      <rect x=\"180\" y=\""@ + r.py_rect_y@) == "\n    <g class=\"lfl-row\">\n      <text x=\"30\" y=\""@ + r.label_y@ + "\" class=\"label-service\">"@ + r.category@ + ": "@ + r.workload@ + "</text>\n      <!-- Rust Bar -->\n      <text x=\"50\" y=\""@ + r.rust_y@ + "\" class=\"label-lang-rust\">Rust Native:</text>\n      <rect x=\"180\" y=\""@ + r.rust_rect_y@ + "\" width=\""@ + r.rust_w@ + "\" height=\"18\" rx=\"3\" fill=\"#7fb8a6\" />\n      <text x=\""@ + r.rust_val_x@ + "\" y=\""@ + r.rust_y@ + "\" class=\"label-val\">"@ + r.rust_p50@ + " ms ("@ + r.rust_rps@ + " req/s)</text>\n\n      <!-- Python Bar -->\n      <text x=\"50\" y=\""@ + r.py_y@ + "\" class=\"label-lang-py\">CPython 3.12:</text>\n      <rect x=\"180\" y=\""@ + r.py_rect_y@);
        lemma_concat_associative(("\n    <g class=\"lfl-row\">\n      <text x=\"30\" y=\""@ + r.label_y@ + "\" class=\"label-service\">"@ + r.category@ + ": "@ + r.workload@ + "</text>\n      <!-- Rust Bar -->\n      <text x=\"50\" y=\""@ + r.rust_y@ + "\" class=\"label-lang-rust\">Rust Native:</text>\n      <rect x=\"180\" y=\""@ + r.rust_rect_y@ + "\" width=\""@ + r.rust_w@ + "\" height=\"18\" rx=\"3\" fill=\"#7fb8a6\" />\n      <text x=\""@ + r.rust_val_x@ + "\" y=\""@ + r.rust_y@ + "\" class=\"label-val\">"@ + r.rust_p50@ + " ms ("@ + r.rust_rps@ + " req/s)</text>\n\n      <!-- Python Bar -->\n      <text x=\"50\" y=\""@ + r.py_y@), "\" class=\"label-lang-py\">CPython 3.12:</text>\n      <rect x=\"180\" y=\""@ + r.py_rect_y@, "\" width=\""@);
        assert(("\n    <g class=\"lfl-row\">\n      <text x=\"30\" y=\""@ + r.label_y@ + "\" class=\"label-service\">"@ + r.category@ + ": "@ + r.workload@ + "</text>\n      <!-- Rust Bar -->\n      <text x=\"50\" y=\""@ + r.rust_y@ + "\" class=\"label-lang-rust\">Rust Native:</text>\n      <rect x=\"180\" y=\""@ + r.rust_rect_y@ + "\" width=\""@ + r.rust_w@ + "\" height=\"18\" rx=\"3\" fill=\"#7fb8a6\" />\n      <text x=\""@ + r.rust_val_x@ + "\" y=\""@ + r.rust_y@ + "\" class=\"label-val\">"@ + r.rust_p50@ + " ms ("@ + r.rust_rps@ + " req/s)</text>\n\n      <!-- Python Bar -->\n      <text x=\"50\" y=\""@ + r.py_y@) + ("\" class=\"label-lang-py\">CPython 3.12:</text>\n      <rect x=\"180\" y=\""@ + r.py_rect_y@ + "\" width=\""@) == "\n    <g class=\"lfl-row\">\n      <text x=\"30\" y=\""@ + r.label_y@ + "\" class=\"label-service\">"@ + r.category@ + ": "@ + r.workload@ + "</text>\n      <!-- Rust Bar -->\n      <text x=\"50\" y=\""@ + r.rust_y@ + "\" class=\"label-lang-rust\">Rust Native:</text>\n      <rect x=\"180\" y=\""@ + r.rust_rect_y@ + "\" width=\""@ + r.rust_w@ + "\" height=\"18\" rx=\"3\" fill=\"#7fb8a6\" />\n      <text x=\""@ + r.rust_val_x@ + "\" y=\""@ + r.rust_y@ + "\" class=\"label-val\">"@ + r.rust_p50@ + " ms ("@ + r.rust_rps@ + " req/s)</text>\n\n      <!-- Python Bar -->\n      <text x=\"50\" y=\""@ + r.py_y@ + "\" class=\"label-lang-py\">CPython 3.12:</text>\n      <rect x=\"180\" y=\""@ + r.py_rect_y@ + "\" width=\""@);
        lemma_concat_associative(("\n    <g class=\"lfl-row\">\n      <text x=\"30\" y=\""@ + r.label_y@ + "\" class=\"label-service\">"@ + r.category@ + ": "@ + r.workload@ + "</text>\n      <!-- Rust Bar -->\n      <text x=\"50\" y=\""@ + r.rust_y@ + "\" class=\"label-lang-rust\">Rust Native:</text>\n      <rect x=\"180\" y=\""@ + r.rust_rect_y@ + "\" width=\""@ + r.rust_w@ + "\" height=\"18\" rx=\"3\" fill=\"#7fb8a6\" />\n      <text x=\""@ + r.rust_val_x@ + "\" y=\""@ + r.rust_y@ + "\" class=\"label-val\">"@ + r.rust_p50@ + " ms ("@ + r.rust_rps@ + " req/s)</text>\n\n      <!-- Python Bar -->\n      <text x=\"50\" y=\""@ + r.py_y@), "\" class=\"label-lang-py\">CPython 3.12:</text>\n      <rect x=\"180\" y=\""@ + r.py_rect_y@ + "\" width=\""@, r.py_w@);
        assert(("\n    <g class=\"lfl-row\">\n      <text x=\"30\" y=\""@ + r.label_y@ + "\" class=\"label-service\">"@ + r.category@ + ": "@ + r.workload@ + "</text>\n      <!-- Rust Bar -->\n      <text x=\"50\" y=\""@ + r.rust_y@ + "\" class=\"label-lang-rust\">Rust Native:</text>\n      <rect x=\"180\" y=\""@ + r.rust_rect_y@ + "\" width=\""@ + r.rust_w@ + "\" height=\"18\" rx=\"3\" fill=\"#7fb8a6\" />\n      <text x=\""@ + r.rust_val_x@ + "\" y=\""@ + r.rust_y@ + "\" class=\"label-val\">"@ + r.rust_p50@ + " ms ("@ + r.rust_rps@ + " req/s)</text>\n\n      <!-- Python Bar -->\n      <text x=\"50\" y=\""@ + r.py_y@) + ("\" class=\"label-lang-py\">CPython 3.12:</text>\n      <rect x=\"180\" y=\""@ + r.py_rect_y@ + "\" width=\""@ + r.py_w@) == "\n    <g class=\"lfl-row\">\n      <text x=\"30\" y=\""@ + r.label_y@ + "\" class=\"label-service\">"@ + r.category@ + ": "@ + r.workload@ + "</text>\n      <!-- Rust Bar -->\n      <text x=\"50\" y=\""@ + r.rust_y@ + "\" class=\"label-lang-rust\">Rust Native:</text>\n      <rect x=\"180\" y=\""@ + r.rust_rect_y@ + "\" width=\""@ + r.rust_w@ + "\" height=\"18\" rx=\"3\" fill=\"#7fb8a6\" />\n      <text x=\""@ + r.rust_val_x@ + "\" y=\""@ + r.rust_y@ + "\" class=\"label-val\">"@ + r.rust_p50@ + " ms ("@ + r.rust_rps@ + " req/s)</text>\n\n      <!-- Python Bar -->\n      <text x=\"50\" y=\""@ + r.py_y@ + "\" class=\"label-lang-py\">CPython 3.12:</text>\n      <rect x=\"180\" y=\""@ + r.py_rect_y@ + "\" width=\""@ + r.py_w@);
        lemma_concat_associative(("\n    <g class=\"lfl-row\">\n      <text x=\"30\" y=\""@ + r.label_y@ + "\" class=\"label-service\">"@ + r.category@ + ": "@ + r.workload@ + "</text>\n      <!-- Rust Bar -->\n      <text x=\"50\" y=\""@ + r.rust_y@ + "\" class=\"label-lang-rust\">Rust Native:</text>\n      <rect x=\"180\" y=\""@ + r.rust_rect_y@ + "\" width=\""@ + r.rust_w@ + "\" height=\"18\" rx=\"3\" fill=\"#7fb8a6\" />\n      <text x=\""@ + r.rust_val_x@ + "\" y=\""@ + r.rust_y@ + "\" class=\"label-val\">"@ + r.rust_p50@ + " ms ("@ + r.rust_rps@ + " req/s)</text>\n\n      <!-- Python Bar -->\n      <text x=\"50\" y=\""@ + r.py_y@), "\" class=\"label-lang-py\">CPython 3.12:</text>\n      <rect x=\"180\" y=\""@ + r.py_rect_y@ + "\" width=\""@ + r.py_w@, "\" height=\"18\" rx=\"3\" fill=\"#d7755d\" />\n      <text x=\""@);
        assert(("\n    <g class=\"lfl-row\">\n      <text x=\"30\" y=\""@ + r.label_y@ + "\" class=\"label-service\">"@ + r.category@ + ": "@ + r.workload@ + "</text>\n      <!-- Rust Bar -->\n      <text x=\"50\" y=\""@ + r.rust_y@ + "\" class=\"label-lang-rust\">Rust Native:</text>\n      <rect x=\"180\" y=\""@ + r.rust_rect_y@ + "\" width=\""@ + r.rust_w@ + "\" height=\"18\" rx=\"3\" fill=\"#7fb8a6\" />\n      <text x=\""@ + r.rust_val_x@ + "\" y=\""@ + r.rust_y@ + "\" class=\"label-val\">"@ + r.rust_p50@ + " ms ("@ + r.rust_rps@ + " req/s)</text>\n\n      <!-- Python Bar -->\n      <text x=\"50\" y=\""@ + r.py_y@) + ("\" class=\"label-lang-py\">CPython 3.12:</text>\n      <rect x=\"180\" y=\""@ + r.py_rect_y@ + "\" width=\""@ + r.py_w@ + "\" height=\"18\" rx=\"3\" fill=\"#d7755d\" />\n      <text x=\""@) == "\n    <g class=\"lfl-row\">\n      <text x=\"30\" y=\""@ + r.label_y@ + "\" class=\"label-service\">"@ + r.category@ + ": "@ + r.workload@ + "</text>\n      <!-- Rust Bar -->\n      <text x=\"50\" y=\""@ + r.rust_y@ + "\" class=\"label-lang-rust\">Rust Native:</text>\n      <rect x=\"180\" y=\""@ + r.rust_rect_y@ + "\" width=\""@ + r.rust_w@ + "\" height=\"18\" rx=\"3\" fill=\"#7fb8a6\" />\n      <text x=\""@ + r.rust_val_x@ + "\" y=\""@ + r.rust_y@ + "\" class=\"label-val\">"@ + r.rust_p50@ + " ms ("@ + r.rust_rps@ + " req/s)</text>\n\n      <!-- Python Bar -->\n      <text x=\"50\" y=\""@ + r.py_y@ + "\" class=\"label-lang-py\">CPython 3.12:</text>\n      <rect x=\"180\" y=\""@ + r.py_rect_y@ + "\" width=\""@ + r.py_w@ + "\" height=\"18\" rx=\"3\" fill=\"#d7755d\" />\n      <text x=\""@);
        lemma_contains_tail(("\n    <g class=\"lfl-row\">\n      <text x=\"30\" y=\""@ + r.label_y@ + "\" class=\"label-service\">"@ + r.category@ + ": "@ + r.workload@ + "</text>\n      <!-- Rust Bar -->\n      <text x=\"50\" y=\""@ + r.rust_y@ + "\" class=\"label-lang-rust\">Rust Native:</text>\n      <rect x=\"180\" y=\""@ + r.rust_rect_y@ + "\" width=\""@ + r.rust_w@ + "\" height=\"18\" rx=\"3\" fill=\"#7fb8a6\" />\n      <text x=\""@ + r.rust_val_x@ + "\" y=\""@ + r.rust_y@ + "\" class=\"label-val\">"@ + r.rust_p50@ + " ms ("@ + r.rust_rps@ + " req/s)</text>\n\n      <!-- Python Bar -->\n      <text x=\"50\" y=\""@ + r.py_y@), "\" class=\"label-lang-py\">CPython 3.12:</text>\n      <rect x=\"180\" y=\""@ + r.py_rect_y@ + "\" width=\""@ + r.py_w@ + "\" height=\"18\" rx=\"3\" fill=\"#d7755d\" />\n      <text x=\""@);
        lemma_contains_extend("\n    <g class=\"lfl-row\">\n      <text x=\"30\" y=\""@ + r.label_y@ + "\" class=\"label-service\">"@ + r.category@ + ": "@ + r.workload@ + "</text>\n      <!-- Rust Bar -->\n      <text x=\"50\" y=\""@ + r.rust_y@ + "\" class=\"label-lang-rust\">Rust Native:</text>\n      <rect x=\"180\" y=\""@ + r.rust_rect_y@ + "\" width=\""@ + r.rust_w@ + "\" height=\"18\" rx=\"3\" fill=\"#7fb8a6\" />\n      <text x=\""@ + r.rust_val_x@ + "\" y=\""@ + r.rust_y@ + "\" class=\"label-val\">"@ + r.rust_p50@ + " ms ("@ + r.rust_rps@ + " req/s)</text>\n\n      <!-- Python Bar -->\n      <text x=\"50\" y=\""@ + r.py_y@ + "\" class=\"label-lang-py\">CPython 3.12:</text>\n      <rect x=\"180\" y=\""@ + r.py_rect_y@ + "\" width=\""@ + r.py_w@ + "\" height=\"18\" rx=\"3\" fill=\"#d7755d\" />\n      <text x=\""@, r.py_val_x@, "\" class=\"label-lang-py\">CPython 3.12:</text>\n      <rect x=\"180\" y=\""@ + r.py_rect_y@ + "\" width=\""@ + r.py_w@ + "\" height=\"18\" rx=\"3\" fill=\"#d7755d\" />\n      <text x=\""@);
        lemma_contains_extend("\n    <g class=\"lfl-row\">\n      <text x=\"30\" y=\""@ + r.label_y@ + "\" class=\"label-service\">"@ + r.category@ + ": "@ + r.workload@ + "</text>\n      <!-- Rust Bar -->\n      <text x=\"50\" y=\""@ + r.rust_y@ + "\" class=\"label-lang-rust\">Rust Native:</text>\n      <rect x=\"180\" y=\""@ + r.rust_rect_y@ + "\" width=\""@ + r.rust_w@ + "\" height=\"18\" rx=\"3\" fill=\"#7fb8a6\" />\n      <text x=\""@ + r.rust_val_x@ + "\" y=\""@ + r.rust_y@ + "\" class=\"label-val\">"@ + r.rust_p50@ + " ms ("@ + r.rust_rps@ + " req/s)</text>\n\n      <!-- Python Bar -->\n      <text x=\"50\" y=\""@ + r.py_y@ + "\" class=\"label-lang-py\">CPython 3.12:</text>\n      <rect x=\"180\" y=\""@ + r.py_rect_y@ + "\" width=\""@ + r.py_w@ + "\" height=\"18\" rx=\"3\" fill=\"#d7755d\" />\n      <text x=\""@ + r.py_val_x@, "\" y=\""@, "\" class=\"label-lang-py\">CPython 3.12:</text>\n      <rect x=\"180\" y=\""@ + r.py_rect_y@ + "\" width=\""@ + r.py_w@ + "\" height=\"18\" rx=\"3\" fill=\"#d7755d\" />\n      <text x=\""@);
        lemma_contains_extend("\n    <g class=\"lfl-row\">\n      <text x=\"30\" y=\""@ + r.label_y@ + "\" class=\"label-service\">"@ + r.category@ + ": "@ + r.workload@ + "</text>\n      <!-- Rust Bar -->\n      <text x=\"50\" y=\""@ + r.rust_y@ + "\" class=\"label-lang-rust\">Rust Native:</text>\n      <rect x=\"180\" y=\""@ + r.rust_rect_y@ + "\" width=\""@ + r.rust_w@ + "\" height=\"18\" rx=\"3\" fill=\"#7fb8a6\" />\n      <text x=\""@ + r.rust_val_x@ + "\" y=\""@ + r.rust_y@ + "\" class=\"label-val\">"@ + r.rust_p50@ + " ms ("@ + r.rust_rps@ + " req/s)</text>\n\n      <!-- Python Bar -->\n      <text x=\"50\" y=\""@ + r.py_y@ + "\" class=\"label-lang-py\">CPython 3.12:</text>\n      <rect x=\"180\" y=\""@ + r.py_rect_y@ + "\" width=\""@ + r.py_w@ + "\" height=\"18\" rx=\"3\" fill=\"#d7755d\" />\n      <text x=\""@ + r.py_val_x@ + "\" y=\""@, r.py_y@, "\" class=\"label-lang-py\">CPython 3.12:</text>\n      <rect x=\"180\" y=\""@ + r.py_rect_y@ + "\" width=\""@ + r.py_w@ + "\" height=\"18\" rx=\"3\" fill=\"#d7755d\" />\n      <text x=\""@);
        lemma_contains_extend("\n    <g class=\"lfl-row\">\n      <text x=\"30\" y=\""@ + r.label_y@ + "\" class=\"label-service\">"@ + r.category@ + ": "@ + r.workload@ + "</text>\n      <!-- Rust Bar -->\n      <text x=\"50\" y=\""@ + r.rust_y@ + "\" class=\"label-lang-rust\">Rust Native:</text>\n      <rect x=\"180\" y=\""@ + r.rust_rect_y@ + "\" width=\""@ + r.rust_w@ + "\" height=\"18\" rx=\"3\" fill=\"#7fb8a6\" />\n      <text x=\""@ + r.rust_val_x@ + "\" y=\""@ + r.rust_y@ + "\" class=\"label-val\">"@ + r.rust_p50@ + " ms ("@ + r.rust_rps@ + " req/s)</text>\n\n      <!-- Python Bar -->\n      <text x=\"50\" y=\""@ + r.py_y@ + "\" class=\"label-lang-py\">CPython 3.12:</text>\n      <rect x=\"180\" y=\""@ + r.py_rect_y@ + "\" width=\""@ + r.py_w@ + "\" height=\"18\" rx=\"3\" fill=\"#d7755d\" />\n      <text x=\""@ + r.py_val_x@ + "\" y=\""@ + r.py_y@, "\" class=\"label-val\">"@, "\" class=\"label-lang-py\">CPython 3.12:</text>\n      <rect x=\"180\" y=\""@ + r.py_rect_y@ + "\" width=\""@ + r.py_w@ + "\" height=\"18\" rx=\"3\" fill=\"#d7755d\" />\n      <text x=\""@);
        lemma_contains_extend("\n    <g class=\"lfl-row\">\n      <text x=\"30\" y=\""@ + r.label_y@ + "\" class=\"label-service\">"@ + r.category@ + ": "@ + r.workload@ + "</text>\n      <!-- Rust Bar -->\n      <text x=\"50\" y=\""@ + r.rust_y@ + "\" class=\"label-lang-rust\">Rust Native:</text>\n      <rect x=\"180\" y=\""@ + r.rust_rect_y@ + "\" width=\""@ + r.rust_w@ + "\" height=\"18\" rx=\"3\" fill=\"#7fb8a6\" />\n      <text x=\""@ + r.rust_val_x@ + "\" y=\""@ + r.rust_y@ + "\" class=\"label-val\">"@ + r.rust_p50@ + " ms ("@ + r.rust_rps@ + " req/s)</text>\n\n      <!-- Python Bar -->\n      <text x=\"50\" y=\""@ + r.py_y@ + "\" class=\"label-lang-py\">CPython 3.12:</text>\n      <rect x=\"180\" y=\""@ + r.py_rect_y@ + "\" width=\""@ + r.py_w@ + "\" height=\"18\" rx=\"3\" fill=\"#d7755d\" />\n      <text x=\""@ + r.py_val_x@ + "\" y=\""@ + r.py_y@ + "\" class=\"label-val\">"@, r.py_p50@, "\" class=\"label-lang-py\">CPython 3.12:</text>\n      <rect x=\"180\" y=\""@ + r.py_rect_y@ + "\" width=\""@ + r.py_w@ + "\" height=\"18\" rx=\"3\" fill=\"#d7755d\" />\n      <text x=\""@);
        lemma_contains_extend("\n    <g class=\"lfl-row\">\n      <text x=\"30\" y=\""@ + r.label_y@ + "\" class=\"label-service\">"@ + r.category@ + ": "@ + r.workload@ + "</text>\n      <!-- Rust Bar -->\n      <text x=\"50\" y=\""@ + r.rust_y@ + "\" class=\"label-lang-rust\">Rust Native:</text>\n      <rect x=\"180\" y=\""@ + r.rust_rect_y@ + "\" width=\""@ + r.rust_w@ + "\" height=\"18\" rx=\"3\" fill=\"#7fb8a6\" />\n      <text x=\""@ + r.rust_val_x@ + "\" y=\""@ + r.rust_y@ + "\" class=\"label-val\">"@ + r.rust_p50@ + " ms ("@ + r.rust_rps@ + " req/s)</text>\n\n      <!-- Python Bar -->\n      <text x=\"50\" y=\""@ + r.py_y@ + "\" class=\"label-lang-py\">CPython 3.12:</text>\n      <rect x=\"180\" y=\""@ + r.py_rect_y@ + "\" width=\""@ + r.py_w@ + "\" height=\"18\" rx=\"3\" fill=\"#d7755d\" />\n      <text x=\""@ + r.py_val_x@ + "\" y=\""@ + r.py_y@ + "\" class=\"label-val\">"@ + r.py_p50@, " ms ("@, "\" class=\"label-lang-py\">CPython 3.12:</text>\n      <rect x=\"180\" y=\""@ + r.py_rect_y@ + "\" width=\""@ + r.py_w@ + "\" height=\"18\" rx=\"3\" fill=\"#d7755d\" />\n      <text x=\""@);
        lemma_contains_extend("\n    <g class=\"lfl-row\">\n      <text x=\"30\" y=\""@ + r.label_y@ + "\" class=\"label-service\">"@ + r.category@ + ": "@ + r.workload@ + "</text>\n      <!-- Rust Bar -->\n      <text x=\"50\" y=\""@ + r.rust_y@ + "\" class=\"label-lang-rust\">Rust Native:</text>\n      <rect x=\"180\" y=\""@ + r.rust_rect_y@ + "\" width=\""@ + r.rust_w@ + "\" height=\"18\" rx=\"3\" fill=\"#7fb8a6\" />\n      <text x=\""@ + r.rust_val_x@ + "\" y=\""@ + r.rust_y@ + "\" class=\"label-val\">"@ + r.rust_p50@ + " ms ("@ + r.rust_rps@ + " req/s)</text>\n\n      <!-- Python Bar -->\n      <text x=\"50\" y=\""@ + r.py_y@ + "\" class=\"label-lang-py\">CPython 3.12:</text>\n      <rect x=\"180\" y=\""@ + r.py_rect_y@ + "\" width=\""@ + r.py_w@ + "\" height=\"18\" rx=\"3\" fill=\"#d7755d\" />\n      <text x=\""@ + r.py_val_x@ + "\" y=\""@ + r.py_y@ + "\" class=\"label-val\">"@ + r.py_p50@ + " ms ("@, r.py_rps@, "\" class=\"label-lang-py\">CPython 3.12:</text>\n      <rect x=\"180\" y=\""@ + r.py_rect_y@ + "\" width=\""@ + r.py_w@ + "\" height=\"18\" rx=\"3\" fill=\"#d7755d\" />\n      <text x=\""@);
        lemma_contains_extend("\n    <g class=\"lfl-row\">\n      <text x=\"30\" y=\""@ + r.label_y@ + "\" class=\"label-service\">"@ + r.category@ + ": "@ + r.workload@ + "</text>\n      <!-- Rust Bar -->\n      <text x=\"50\" y=\""@ + r.rust_y@ + "\" class=\"label-lang-rust\">Rust Native:</text>\n      <rect x=\"180\" y=\""@ + r.rust_rect_y@ + "\" width=\""@ + r.rust_w@ + "\" height=\"18\" rx=\"3\" fill=\"#7fb8a6\" />\n      <text x=\""@ + r.rust_val_x@ + "\" y=\""@ + r.rust_y@ + "\" class=\"label-val\">"@ + r.rust_p50@ + " ms ("@ + r.rust_rps@ + " req/s)</text>\n\n      <!-- Python Bar -->\n      <text x=\"50\" y=\""@ + r.py_y@ + "\" class=\"label-lang-py\">CPython 3.12:</text>\n      <rect x=\"180\" y=\""@ + r.py_rect_y@ + "\" width=\""@ + r.py_w@ + "\" height=\"18\" rx=\"3\" fill=\"#d7755d\" />\n      <text x=\""@ + r.py_val_x@ + "\" y=\""@ + r.py_y@ + "\" class=\"label-val\">"@ + r.py_p50@ + " ms ("@ + r.py_rps@, " req/s)</text>\n\n      <!-- Badge -->\n      <text x=\"820\" y=\""@, "\" class=\"label-lang-py\">CPython 3.12:</text>\n      <rect x=\"180\" y=\""@ + r.py_rect_y@ + "\" width=\""@ + r.py_w@ + "\" height=\"18\" rx=\"3\" fill=\"#d7755d\" />\n      <text x=\""@);
        lemma_contains_extend("\n    <g class=\"lfl-row\">\n      <text x=\"30\" y=\""@ + r.label_y@ + "\" class=\"label-service\">"@ + r.category@ + ": "@ + r.workload@ + "</text>\n      <!-- Rust Bar -->\n      <text x=\"50\" y=\""@ + r.rust_y@ + "\" class=\"label-lang-rust\">Rust Native:</text>\n      <rect x=\"180\" y=\""@ + r.rust_rect_y@ + "\" width=\""@ + r.rust_w@ + "\" height=\"18\" rx=\"3\" fill=\"#7fb8a6\" />\n      <text x=\""@ + r.rust_val_x@ + "\" y=\""@ + r.rust_y@ + "\" class=\"label-val\">"@ + r.rust_p50@ + " ms ("@ + r.rust_rps@ + " req/s)</text>\n\n      <!-- Python Bar -->\n      <text x=\"50\" y=\""@ + r.py_y@ + "\" class=\"label-lang-py\">CPython 3.12:</text>\n      <rect x=\"180\" y=\""@ + r.py_rect_y@ + "\" width=\""@ + r.py_w@ + "\" height=\"18\" rx=\"3\" fill=\"#d7755d\" />\n      <text x=\""@ + r.py_val_x@ + "\" y=\""@ + r.py_y@ + "\" class=\"label-val\">"@ + r.py_p50@ + " ms ("@ + r.py_rps@ + " req/s)</text>\n\n      <!-- Badge -->\n      <text x=\"820\" y=\""@, r.badge_y@, "\" class=\"label-lang-py\">CPython 3.12:</text>\n      <rect x=\"180\" y=\""@ + r.py_rect_y@ + "\" width=\""@ + r.py_w@ + "\" height=\"18\" rx=\"3\" fill=\"#d7755d\" />\n      <text x=\""@);
        lemma_contains_extend("\n    <g class=\"lfl-row\">\n      <text x=\"30\" y=\""@ + r.label_y@ + "\" class=\"label-service\">"@ + r.category@ + ": "@ + r.workload@ + "</text>\n      <!-- Rust Bar -->\n      <text x=\"50\" y=\""@ + r.rust_y@ + "\" class=\"label-lang-rust\">Rust Native:</text>\n      <rect x=\"180\" y=\""@ + r.rust_rect_y@ + "\" width=\""@ + r.rust_w@ + "\" height=\"18\" rx=\"3\" fill=\"#7fb8a6\" />\n      <text x=\""@ + r.rust_val_x@ + "\" y=\""@ + r.rust_y@ + "\" class=\"label-val\">"@ + r.rust_p50@ + " ms ("@ + r.rust_rps@ + " req/s)</text>\n\n      <!-- Python Bar -->\n      <text x=\"50\" y=\""@ + r.py_y@ + "\" class=\"label-lang-py\">CPython 3.12:</text>\n      <rect x=\"180\" y=\""@ + r.py_rect_y@ + "\" width=\""@ + r.py_w@ + "\" height=\"18\" rx=\"3\" fill=\"#d7755d\" />\n      <text x=\""@ + r.py_val_x@ + "\" y=\""@ + r.py_y@ + "\" class=\"label-val\">"@ + r.py_p50@ + " ms ("@ + r.py_rps@ + " req/s)</text>\n\n      <!-- Badge -->\n      <text x=\"820\" y=\""@ + r.badge_y@, "\" class=\"badge-speedup\">"@, "\" class=\"label-lang-py\">CPython 3.12:</text>\n      <rect x=\"180\" y=\""@ + r.py_rect_y@ + "\" width=\""@ + r.py_w@ + "\" height=\"18\" rx=\"3\" fill=\"#d7755d\" />\n      <text x=\""@);
        lemma_contains_extend("\n    <g class=\"lfl-row\">\n      <text x=\"30\" y=\""@ + r.label_y@ + "\" class=\"label-service\">"@ + r.category@ + ": "@ + r.workload@ + "</text>\n      <!-- Rust Bar -->\n      <text x=\"50\" y=\""@ + r.rust_y@ + "\" class=\"label-lang-rust\">Rust Native:</text>\n      <rect x=\"180\" y=\""@ + r.rust_rect_y@ + "\" width=\""@ + r.rust_w@ + "\" height=\"18\" rx=\"3\" fill=\"#7fb8a6\" />\n      <text x=\""@ + r.rust_val_x@ + "\" y=\""@ + r.rust_y@ + "\" class=\"label-val\">"@ + r.rust_p50@ + " ms ("@ + r.rust_rps@ + " req/s)</text>\n\n      <!-- Python Bar -->\n      <text x=\"50\" y=\""@ + r.py_y@ + "\" class=\"label-lang-py\">CPython 3.12:</text>\n      <rect x=\"180\" y=\""@ + r.py_rect_y@ + "\" width=\""@ + r.py_w@ + "\" height=\"18\" rx=\"3\" fill=\"#d7755d\" />\n      <text x=\""@ + r.py_val_x@ + "\" y=\""@ + r.py_y@ + "\" class=\"label-val\">"@ + r.py_p50@ + " ms ("@ + r.py_rps@ + " req/s)</text>\n\n      <!-- Badge -->\n      <text x=\"820\" y=\""@ + r.badge_y@ + "\" class=\"badge-speedup\">"@, r.speedup@, "\" class=\"label-lang-py\">CPython 3.12:</text>\n      <rect x=\"180\" y=\""@ + r.py_rect_y@ + "\" width=\""@ + r.py_w@ + "\" height=\"18\" rx=\"3\" fill=\"#d7755d\" />\n      <text x=\""@);
        lemma_contains_extend("\n    <g class=\"lfl-row\">\n      <text x=\"30\" y=\""@ + r.label_y@ + "\" class=\"label-service\">"@ + r.category@ + ": "@ + r.workload@ + "</text>\n      <!-- Rust Bar -->\n      <text x=\"50\" y=\""@ + r.rust_y@ + "\" class=\"label-lang-rust\">Rust Native:</text>\n      <rect x=\"180\" y=\""@ + r.rust_rect_y@ + "\" width=\""@ + r.rust_w@ + "\" height=\"18\" rx=\"3\" fill=\"#7fb8a6\" />\n      <text x=\""@ + r.rust_val_x@ + "\" y=\""@ + r.rust_y@ + "\" class=\"label-val\">"@ + r.rust_p50@ + " ms ("@ + r.rust_rps@ + " req/s)</text>\n\n      <!-- Python Bar -->\n      <text x=\"50\" y=\""@ + r.py_y@ + "\" class=\"label-lang-py\">CPython 3.12:</text>\n      <rect x=\"180\" y=\""@ + r.py_rect_y@ + "\" width=\""@ + r.py_w@ + "\" height=\"18\" rx=\"3\" fill=\"#d7755d\" />\n      <text x=\""@ + r.py_val_x@ + "\" y=\""@ + r.py_y@ + "\" class=\"label-val\">"@ + r.py_p50@ + " ms ("@ + r.py_rps@ + " req/s)</text>\n\n      <!-- Badge -->\n      <text x=\"820\" y=\""@ + r.badge_y@ + "\" class=\"badge-speedup\">"@ + r.speedup@, "x Faster</text>\n      <text x=\"820\" y=\""@, "\" class=\"label-lang-py\">CPython 3.12:</text>\n      <rect x=\"180\" y=\""@ + r.py_rect_y@ + "\" width=\""@ + r.py_w@ + "\" height=\"18\" rx=\"3\" fill=\"#d7755d\" />\n      <text x=\""@);
        lemma_contains_extend("\n    <g class=\"lfl-row\">\n      <text x=\"30\" y=\""@ + r.label_y@ + "\" class=\"label-service\">"@ + r.category@ + ": "@ + r.workload@ + "</text>\n      <!-- Rust Bar -->\n      <text x=\"50\" y=\""@ + r.rust_y@ + "\" class=\"label-lang-rust\">Rust Native:</text>\n      <rect x=\"180\" y=\""@ + r.rust_rect_y@ + "\" width=\""@ + r.rust_w@ + "\" height=\"18\" rx=\"3\" fill=\"#7fb8a6\" />\n      <text x=\""@ + r.rust_val_x@ + "\" y=\""@ + r.rust_y@ + "\" class=\"label-val\">"@ + r.rust_p50@ + " ms ("@ + r.rust_rps@ + " req/s)</text>\n\n      <!-- Python Bar -->\n      <text x=\"50\" y=\""@ + r.py_y@ + "\" class=\"label-lang-py\">CPython 3.12:</text>\n      <rect x=\"180\" y=\""@ + r.py_rect_y@ + "\" width=\""@ + r.py_w@ + "\" height=\"18\" rx=\"3\" fill=\"#d7755d\" />\n      <text x=\""@ + r.py_val_x@ + "\" y=\""@ + r.py_y@ + "\" class=\"label-val\">"@ + r.py_p50@ + " ms ("@ + r.py_rps@ + " req/s)</text>\n\n      <!-- Badge -->\n      <text x=\"820\" y=\""@ + r.badge_y@ + "\" class=\"badge-speedup\">"@ + r.speedup@ + "x Faster</text>\n      <text x=\"820\" y=\""@, r.badge_mem_y@, "\" class=\"label-lang-py\">CPython 3.12:</text>\n      <rect x=\"180\" y=\""@ + r.py_rect_y@ + "\" width=\""@ + r.py_w@ + "\" height=\"18\" rx=\"3\" fill=\"#d7755d\" />\n      <text x=\""@);
        lemma_contains_extend("\n    <g class=\"lfl-row\">\n      <text x=\"30\" y=\""@ + r.label_y@ + "\" class=\"label-service\">"@ + r.category@ + ": "@ + r.workload@ + "</text>\n      <!-- Rust Bar -->\n      <text x=\"50\" y=\""@ + r.rust_y@ + "\" class=\"label-lang-rust\">Rust Native:</text>\n      <rect x=\"180\" y=\""@ + r.rust_rect_y@ + "\" width=\""@ + r.rust_w@ + "\" height=\"18\" rx=\"3\" fill=\"#7fb8a6\" />\n      <text x=\""@ + r.rust_val_x@ + "\" y=\""@ + r.rust_y@ + "\" class=\"label-val\">"@ + r.rust_p50@ + " ms ("@ + r.rust_rps@ + " req/s)</text>\n\n      <!-- Python Bar -->\n      <text x=\"50\" y=\""@ + r.py_y@ + "\" class=\"label-lang-py\">CPython 3.12:</text>\n      <rect x=\"180\" y=\""@ + r.py_rect_y@ + "\" width=\""@ + r.py_w@ + "\" height=\"18\" rx=\"3\" fill=\"#d7755d\" />\n      <text x=\""@ + r.py_val_x@ + "\" y=\""@ + r.py_y@ + "\" class=\"label-val\">"@ + r.py_p50@ + " ms ("@ + r.py_rps@ + " req/s)</text>\n\n      <!-- Badge -->\n      <text x=\"820\" y=\""@ + r.badge_y@ + "\" class=\"badge-speedup\">"@ + r.speedup@ + "x Faster</text>\n      <text x=\"820\" y=\""@ + r.badge_mem_y@, "\" class=\"badge-mem\">(-"@, "\" class=\"label-lang-py\">CPython 3.12:</text>\n      <rect x=\"180\" y=\""@ + r.py_rect_y@ + "\" width=\""@ + r.py_w@ + "\" height=\"18\" rx=\"3\" fill=\"#d7755d\" />\n      <text x=\""@);
        lemma_contains_extend("\n    <g class=\"lfl-row\">\n      <text x=\"30\" y=\""@ + r.label_y@ + "\" class=\"label-service\">"@ + r.category@ + ": "@ + r.workload@ + "</text>\n      <!-- Rust Bar -->\n      <text x=\"50\" y=\""@ + r.rust_y@ + "\" class=\"label-lang-rust\">Rust Native:</text>\n      <rect x=\"180\" y=\""@ + r.rust_rect_y@ + "\" width=\""@ + r.rust_w@ + "\" height=\"18\" rx=\"3\" fill=\"#7fb8a6\" />\n      <text x=\""@ + r.rust_val_x@ + "\" y=\""@ + r.rust_y@ + "\" class=\"label-val\">"@ + r.rust_p50@ + " ms ("@ + r.rust_rps@ + " req/s)</text>\n\n      <!-- Python Bar -->\n      <text x=\"50\" y=\""@ + r.py_y@ + "\" class=\"label-lang-py\">CPython 3.12:</text>\n      <rect x=\"180\" y=\""@ + r.py_rect_y@ + "\" width=\""@ + r.py_w@ + "\" height=\"18\" rx=\"3\" fill=\"#d7755d\" />\n      <text x=\""@ + r.py_val_x@ + "\" y=\""@ + r.py_y@ + "\" class=\"label-val\">"@ + r.py_p50@ + " ms ("@ + r.py_rps@ + " req/s)</text>\n\n      <!-- Badge -->\n      <text x=\"820\" y=\""@ + r.badge_y@ + "\" class=\"badge-speedup\">"@ + r.speedup@ + "x Faster</text>\n      <text x=\"820\" y=\""@ + r.badge_mem_y@ + "\" class=\"badge-mem\">(-"@, r.mem_pct@, "\" class=\"label-lang-py\">CPython 3.12:</text>\n      <rect x=\"180\" y=\""@ + r.py_rect_y@ + "\" width=\""@ + r.py_w@ + "\" height=\"18\" rx=\"3\" fill=\"#d7755d\" />\n      <text x=\""@);
        lemma_contains_extend("\n    <g class=\"lfl-row\">\n      <text x=\"30\" y=\""@ + r.label_y@ + "\" class=\"label-service\">"@ + r.category@ + ": "@ + r.workload@ + "</text>\n      <!-- Rust Bar -->\n      <text x=\"50\" y=\""@ + r.rust_y@ + "\" class=\"label-lang-rust\">Rust Native:</text>\n      <rect x=\"180\" y=\""@ + r.rust_rect_y@ + "\" width=\""@ + r.rust_w@ + "\" height=\"18\" rx=\"3\" fill=\"#7fb8a6\" />\n      <text x=\""@ + r.rust_val_x@ + "\" y=\""@ + r.rust_y@ + "\" class=\"label-val\">"@ + r.rust_p50@ + " ms ("@ + r.rust_rps@ + " req/s)</text>\n\n      <!-- Python Bar -->\n      <text x=\"50\" y=\""@ + r.py_y@ + "\" class=\"label-lang-py\">CPython 3.12:</text>\n      <rect x=\"180\" y=\""@ + r.py_rect_y@ + "\" width=\""@ + r.py_w@ + "\" height=\"18\" rx=\"3\" fill=\"#d7755d\" />\n      <text x=\""@ + r.py_val_x@ + "\" y=\""@ + r.py_y@ + "\" class=\"label-val\">"@ + r.py_p50@ + " ms ("@ + r.py_rps@ + " req/s)</text>\n\n      <!-- Badge -->\n      <text x=\"820\" y=\""@ + r.badge_y@ + "\" class=\"badge-speedup\">"@ + r.speedup@ + "x Faster</text>\n      <text x=\"820\" y=\""@ + r.badge_mem_y@ + "\" class=\"badge-mem\">(-"@ + r.mem_pct@, "% RAM)</text>\n    </g>"@, "\" class=\"label-lang-py\">CPython 3.12:</text>\n      <rect x=\"180\" y=\""@ + r.py_rect_y@ + "\" width=\""@ + r.py_w@ + "\" height=\"18\" rx=\"3\" fill=\"#d7755d\" />\n      <text x=\""@);
    }
    assert(contains_seq(like_for_like_row_text(r), "\" height=\"18\" rx=\"3\" fill=\"#d7755d\" />\n      <text x=\""@ + r.py_val_x@ + "\" y=\""@ + r.py_y@ + "\" class=\"label-val\">"@ + r.py_p50@ + " ms ("@ + r.py_rps@ + " req/s)</text>\n\n      <!-- Badge -->\n      <text x=\"820\" y=\""@)) by {
        lemma_concat_associative(("\n    <g class=\"lfl-row\">\n      <text x=\"30\" y=\""@ + r.label_y@ + "\" class=\"label-service\">"@ + r.category@ + ": "@ + r.workload@ + "</text>\n      <!-- Rust Bar -->\n      <text x=\"50\" y=\""@ + r.rust_y@ + "\" class=\"label-lang-rust\">Rust Native:</text>\n      <rect x=\"180\" y=\""@ + r.rust_rect_y@ + "\" width=\""@ + r.rust_w@ + "\" height=\"18\" rx=\"3\" fill=\"#7fb8a6\" />\n      <text x=\""@ + r.rust_val_x@ + "\" y=\""@ + r.rust_y@ + "\" class=\"label-val\">"@ + r.rust_p50@ + " ms ("@ + r.rust_rps@ + " req/s)</text>\n\n      <!-- Python Bar -->\n      <text x=\"50\" y=\""@ + r.py_y@ + "\" class=\"label-lang-py\">CPython 3.12:</text>\n      <rect x=\"180\" y=\""@ + r.py_rect_y@ + "\" width=\""@ + r.py_w@), "\" height=\"18\" rx=\"3\" fill=\"#d7755d\" />\n      <text x=\""@, r.py_val_x@);
        assert(("\n    <g class=\"lfl-row\">\n      <text x=\"30\" y=\""@ + r.label_y@ + "\" class=\"label-service\">"@ + r.category@ + ": "@ + r.workload@ + "</text>\n      <!-- Rust Bar -->\n      <text x=\"50\" y=\""@ + r.rust_y@ + "\" class=\"label-lang-rust\">Rust Native:</text>\n      <rect x=\"180\" y=\""@ + r.rust_rect_y@ + "\" width=\""@ + r.rust_w@ + "\" height=\"18\" rx=\"3\" fill=\"#7fb8a6\" />\n      <text x=\""@ + r.rust_val_x@ + "\" y=\""@ + r.rust_y@ + "\" class=\"label-val\">"@ + r.rust_p50@ + " ms ("@ + r.rust_rps@ + " req/s)</text>\n\n      <!-- Python Bar -->\n      <text x=\"50\" y=\""@ + r.py_y@ + "\" class=\"label-lang-py\">CPython 3.12:</text>\n      <rect x=\"180\" y=\""@ + r.py_rect_y@ + "\" width=\""@ + r.py_w@) + ("\" height=\"18\" rx=\"3\" fill=\"#d7755d\" />\n      <text x=\""@ + r.py_val_x@) == "\n    <g class=\"lfl-row\">\n      <text x=\"30\" y=\""@ + r.label_y@ + "\" class=\"label-service\">"@ + r.category@ + ": "@ + r.workload@ + "</text>\n      <!-- Rust Bar -->\n      <text x=\"50\" y=\""@ + r.rust_y@ + "\" class=\"label-lang-rust\">Rust Native:</text>\n      <rect x=\"180\" y=\""@ + r.rust_rect_y@ + "\" width=\""@ + r.rust_w@ + "\" height=\"18\" rx=\"3\" fill=\"#7fb8a6\" />\n      <text x=\""@ + r.rust_val_x@ + "\" y=\""@ + r.rust_y@ + "\" class=\"label-val\">"@ + r.rust_p50@ + " ms ("@ + r.rust_rps@ + " req/s)</text>\n\n      <!-- Python Bar -->\n      <text x=\"50\" y=\""@ + r.py_y@ + "\" class=\"label-lang-py\">CPython 3.12:</text>\n      <rect x=\"180\" y=\""@ + r.py_rect_y@ + "\" width=\""@ + r.py_w@ + "\" height=\"18\" rx=\"3\" fill=\"#d7755d\" />\n      <text x=\""@ + r.py_val_x@);
        lemma_concat_associative(("\n    <g class=\"lfl-row\">\n      <text x=\"30\" y=\""@ + r.label_y@ + "\" class=\"label-service\">"@ + r.category@ + ": "@ + r.workload@ + "</text>\n      <!-- Rust Bar -->\n      <text x=\"50\" y=\""@ + r.rust_y@ + "\" class=\"label-lang-rust\">Rust Native:</text>\n      <rect x=\"180\" y=\""@ + r.rust_rect_y@ + "\" width=\""@ + r.rust_w@ + "\" height=\"18\" rx=\"3\" fill=\"#7fb8a6\" />\n      <text x=\""@ + r.rust_val_x@ + "\" y=\""@ + r.rust_y@ + "\" class=\"label-val\">"@ + r.rust_p50@ + " ms ("@ + r.rust_rps@ + " req/s)</text>\n\n      <!-- Python Bar -->\n      <text x=\"50\" y=\""@ + r.py_y@ + "\" class=\"label-lang-py\">CPython 3.12:</text>\n      <rect x=\"180\" y=\""@ + r.py_rect_y@ + "\" width=\""@ + r.py_w@), "\" height=\"18\" rx=\"3\" fill=\"#d7755d\" />\n      <text x=\""@ + r.py_val_x@, "\" y=\""@);
        assert(("\n    <g class=\"lfl-row\">\n      <text x=\"30\" y=\""@ + r.label_y@ + "\" class=\"label-service\">"@ + r.category@ + ": "@ + r.workload@ + "</text>\n      <!-- Rust Bar -->\n      <text x=\"50\" y=\""@ + r.rust_y@ + "\" class=\"label-lang-rust\">Rust Native:</text>\n      <rect x=\"180\" y=\""@ + r.rust_rect_y@ + "\" width=\""@ + r.rust_w@ + "\" height=\"18\" rx=\"3\" fill=\"#7fb8a6\" />\n      <text x=\""@ + r.rust_val_x@ + "\" y=\""@ + r.rust_y@ + "\" class=\"label-val\">"@ + r.rust_p50@ + " ms ("@ + r.rust_rps@ + " req/s)</text>\n\n      <!-- Python Bar -->\n      <text x=\"50\" y=\""@ + r.py_y@ + "\" class=\"label-lang-py\">CPython 3.12:</text>\n      <rect x=\"180\" y=\""@ + r.py_rect_y@ + "\" width=\""@ + r.py_w@) + ("\" height=\"18\" rx=\"3\" fill=\"#d7755d\" />\n      <text x=\""@ + r.py_val_x@ + "\" y=\""@) == "\n    <g class=\"lfl-row\">\n      <text x=\"30\" y=\""@ + r.label_y@ + "\" class=\"label-service\">"@ + r.category@ + ": "@ + r.workload@ + "</text>\n      <!-- Rust Bar -->\n      <text x=\"50\" y=\""@ + r.rust_y@ + "\" class=\"label-lang-rust\">Rust Native:</text>\n      <rect x=\"180\" y=\""@ + r.rust_rect_y@ + "\" width=\""@ + r.rust_w@ + "\" height=\"18\" rx=\"3\" fill=\"#7fb8a6\" />\n      <text x=\""@ + r.rust_val_x@ + "\" y=\""@ + r.rust_y@ + "\" class=\"label-val\">"@ + r.rust_p50@ + " ms ("@ + r.rust_rps@ + " req/s)</text>\n\n      <!-- Python Bar -->\n      <text x=\"50\" y=\""@ + r.py_y@ + "\" class=\"label-lang-py\">CPython 3.12:</text>\n      <rect x=\"180\" y=\""@ + r.py_rect_y@ + "\" width=\""@ + r.py_w@ + "\" height=\"18\" rx=\"3\" fill=\"#d7755d\" />\n      <text x=\""@ + r.py_val_x@ + "\" y=\""@);
        lemma_concat_associative(("\n    <g class=\"lfl-row\">\n      <text x=\"30\" y=\""@ + r.label_y@ + "\" class=\"label-service\">"@ + r.category@ + ": "@ + r.workload@ + "</text>\n      <!-- Rust Bar -->\n      <text x=\"50\" y=\""@ + r.rust_y@ + "\" class=\"label-lang-rust\">Rust Native:</text>\n      <rect x=\"180\" y=\""@ + r.rust_rect_y@ + "\" width=\""@ + r.rust_w@ + "\" height=\"18\" rx=\"3\" fill=\"#7fb8a6\" />\n      <text x=\""@ + r.rust_val_x@ + "\" y=\""@ + r.rust_y@ + "\" class=\"label-val\">"@ + r.rust_p50@ + " ms ("@ + r.rust_rps@ + " req/s)</text>\n\n      <!-- Python Bar -->\n      <text x=\"50\" y=\""@ + r.py_y@ + "\" class=\"label-lang-py\">CPython 3.12:</text>\n      <rect x=\"180\" y=\""@ + r.py_rect_y@ + "\" width=\""@ + r.py_w@), "\" height=\"18\" rx=\"3\" fill=\"#d7755d\" />\n      <text x=\""@ + r.py_val_x@ + "\" y=\""@, r.py_y@);
        assert(("\n    <g class=\"lfl-row\">\n      <text x=\"30\" y=\""@ + r.label_y@ + "\" class=\"label-service\">"@ + r.category@ + ": "@ + r.workload@ + "</text>\n      <!-- Rust Bar -->\n      <text x=\"50\" y=\""@ + r.rust_y@ + "\" class=\"label-lang-rust\">Rust Native:</text>\n      <rect x=\"180\" y=\""@ + r.rust_rect_y@ + "\" width=\""@ + r.rust_w@ + "\" height=\"18\" rx=\"3\" fill=\"#7fb8a6\" />\n      <text x=\""@ + r.rust_val_x@ + "\" y=\""@ + r.rust_y@ + "\" class=\"label-val\">"@ + r.rust_p50@ + " ms ("@ + r.rust_rps@ + " req/s)</text>\n\n      <!-- Python Bar -->\n      <text x=\"50\" y=\""@ + r.py_y@ + "\" class=\"label-lang-py\">CPython 3.12:</text>\n      <rect x=\"180\" y=\""@ + r.py_rect_y@ + "\" width=\""@ + r.py_w@) + ("\" height=\"18\" rx=\"3\" fill=\"#d7755d\" />\n      <text x=\""@ + r.py_val_x@ + "\" y=\""@ + r.py_y@) == "\n    <g class=\"lfl-row\">\n      <text x=\"30\" y=\""@ + r.label_y@ + "\" class=\"label-service\">"@ + r.category@ + ": "@ + r.workload@ + "</text>\n      <!-- Rust Bar -->\n      <text x=\"50\" y=\""@ + r.rust_y@ + "\" class=\"label-lang-rust\">Rust Native:</text>\n      <rect x=\"180\" y=\""@ + r.rust_rect_y@ + "\" width=\""@ + r.rust_w@ + "\" height=\"18\" rx=\"3\" fill=\"#7fb8a6\" />\n      <text x=\""@ + r.rust_val_x@ + "\" y=\""@ + r.rust_y@ + "\" class=\"label-val\">"@ + r.rust_p50@ + " ms ("@ + r.rust_rps@ + " req/s)</text>\n\n      <!-- Python Bar -->\n      <text x=\"50\" y=\""@ + r.py_y@ + "\" class=\"label-lang-py\">CPython 3.12:</text>\n      <rect x=\"180\" y=\""@ + r.py_rect_y@ + "\" width=\""@ + r.py_w@ + "\" height=\"18\" rx=\"3\" fill=\"#d7755d\" />\n      <text x=\""@ + r.py_val_x@ + "\" y=\""@ + r.py_y@);
        lemma_concat_associative(("\n    <g class=\"lfl-row\">\n      <text x=\"30\" y=\""@ + r.label_y@ + "\" class=\"label-service\">"@ + r.category@ + ": "@ + r.workload@ + "</text>\n      <!-- Rust Bar -->\n      <text x=\"50\" y=\""@ + r.rust_y@ + "\" class=\"label-lang-rust\">Rust Native:</text>\n      <rect x=\"180\" y=\""@ + r.rust_rect_y@ + "\" width=\""@ + r.rust_w@ + "\" height=\"18\" rx=\"3\" fill=\"#7fb8a6\" />\n      <text x=\""@ + r.rust_val_x@ + "\" y=\""@ + r.rust_y@ + "\" class=\"label-val\">"@ + r.rust_p50@ + " ms ("@ + r.rust_rps@ + " req/s)</text>\n\n      <!-- Python Bar -->\n      <text x=\"50\" y=\""@ + r.py_y@ + "\" class=\"label-lang-py\">CPython 3.12:</text>\n      <rect x=\"180\" y=\""@ + r.py_rect_y@ + "\" width=\""@ + r.py_w@), "\" height=\"18\" rx=\"3\" fill=\"#d7755d\" />\n      <text x=\""@ + r.py_val_x@ + "\" y=\""@ + r.py_y@, "\" class=\"label-val\">"@);
        assert(("\n    <g class=\"lfl-row\">\n      <text x=\"30\" y=\""@ + r.label_y@ + "\" class=\"label-service\">"@ + r.category@ + ": "@ + r.workload@ + "</text>\n      <!-- Rust Bar -->\n      <text x=\"50\" y=\""@ + r.rust_y@ + "\" class=\"label-lang-rust\">Rust Native:</text>\n      <rect x=\"180\" y=\""@ + r.rust_rect_y@ + "\" width=\""@ + r.rust_w@ + "\" height=\"18\" rx=\"3\" fill=\"#7fb8a6\" />\n      <text x=\""@ + r.rust_val_x@ + "\" y=\""@ + r.rust_y@ + "\" class=\"label-val\">"@ + r.rust_p50@ + " ms ("@ + r.rust_rps@ + " req/s)</text>\n\n      <!-- Python Bar -->\n      <text x=\"50\" y=\""@ + r.py_y@ + "\" class=\"label-lang-py\">CPython 3.12:</text>\n      <rect x=\"180\" y=\""@ + r.py_rect_y@ + "\" width=\""@ + r.py_w@) + ("\" height=\"18\" rx=\"3\" fill=\"#d7755d\" />\n      <text x=\""@ + r.py_val_x@ + "\" y=\""@ + r.py_y@ + "\" class=\"label-val\">"@) == "\n    <g class=\"lfl-row\">\n      <text x=\"30\" y=\""@ + r.label_y@ + "\" class=\"label-service\">"@ + r.category@ + ": "@ + r.workload@ + "</text>\n      <!-- Rust Bar -->\n      <text x=\"50\" y=\""@ + r.rust_y@ + "\" class=\"label-lang-rust\">Rust Native:</text>\n      <rect x=\"180\" y=\""@ + r.rust_rect_y@ + "\" width=\""@ + r.rust_w@ + "\" height=\"18\" rx=\"3\" fill=\"#7fb8a6\" />\n      <text x=\""@ + r.rust_val_x@ + "\" y=\""@ + r.rust_y@ + "\" class=\"label-val\">"@ + r.rust_p50@ + " ms ("@ + r.rust_rps@ + " req/s)</text>\n\n      <!-- Python Bar -->\n      <text x=\"50\" y=\""@ + r.py_y@ + "\" class=\"label-lang-py\">CPython 3.12:</text>\n      <rect x=\"180\" y=\""@ + r.py_rect_y@ + "\" width=\""@ + r.py_w@ + "\" height=\"18\" rx=\"3\" fill=\"#d7755d\" />\n      <text x=\""@ + r.py_val_x@ + "\" y=\""@ + r.py_y@ + "\" class=\"label-val\">"@);
        lemma_concat_associative(("\n    <g class=\"lfl-row\">\n      <text x=\"30\" y=\""@ + r.label_y@ + "\" class=\"label-service\">"@ + r.category@ + ": "@ + r.workload@ + "</text>\n      <!-- Rust Bar -->\n      <text x=\"50\" y=\""@ + r.rust_y@ + "\" class=\"label-lang-rust\">Rust Native:</text>\n      <rect x=\"180\" y=\""@ + r.rust_rect_y@ + "\" width=\""@ + r.rust_w@ + "\" height=\"18\" rx=\"3\" fill=\"#7fb8a6\" />\n      <text x=\""@ + r.rust_val_x@ + "\" y=\""@ + r.rust_y@ + "\" class=\"label-val\">"@ + r.rust_p50@ + " ms ("@ + r.rust_rps@ + " req/s)</text>\n\n      <!-- Python Bar -->\n      <text x=\"50\" y=\""@ + r.py_y@ + "\" class=\"label-lang-py\">CPython 3.12:</text>\n      <rect x=\"180\" y=\""@ + r.py_rect_y@ + "\" width=\""@ + r.py_w@), "\" height=\"18\" rx=\"3\" fill=\"#d7755d\" />\n      <text x=\""@ + r.py_val_x@ + "\" y=\""@ + r.py_y@ + "\" class=\"label-val\">"@, r.py_p50@);
        assert(("\n    <g class=\"lfl-row\">\n      <text x=\"30\" y=\""@ + r.label_y@ + "\" class=\"label-service\">"@ + r.category@ + ": "@ + r.workload@ + "</text>\n      <!-- Rust Bar -->\n      <text x=\"50\" y=\""@ + r.rust_y@ + "\" class=\"label-lang-rust\">Rust Native:</text>\n      <rect x=\"180\" y=\""@ + r.rust_rect_y@ + "\" width=\""@ + r.rust_w@ + "\" height=\"18\" rx=\"3\" fill=\"#7fb8a6\" />\n      <text x=\""@ + r.rust_val_x@ + "\" y=\""@ + r.rust_y@ + "\" class=\"label-val\">"@ + r.rust_p50@ + " ms ("@ + r.rust_rps@ + " req/s)</text>\n\n      <!-- Python Bar -->\n      <text x=\"50\" y=\""@ + r.py_y@ + "\" class=\"label-lang-py\">CPython 3.12:</text>\n      <rect x=\"180\" y=\""@ + r.py_rect_y@ + "\" width=\""@ + r.py_w@) + ("\" height=\"18\" rx=\"3\" fill=\"#d7755d\" />\n      <text x=\""@ + r.py_val_x@ + "\" y=\""@ + r.py_y@ + "\" class=\"label-val\">"@ + r.py_p50@) == "\n    <g class=\"lfl-row\">\n      <text x=\"30\" y=\""@ + r.label_y@ + "\" class=\"label-service\">"@ + r.category@ + ": "@ + r.workload@ + "</text>\n      <!-- Rust Bar -->\n      <text x=\"50\" y=\""@ + r.rust_y@ + "\" class=\"label-lang-rust\">Rust Native:</text>\n      <rect x=\"180\" y=\""@ + r.rust_rect_y@ + "\" width=\""@ + r.rust_w@ + "\" height=\"18\" rx=\"3\" fill=\"#7fb8a6\" />\n      <text x=\""@ + r.rust_val_x@ + "\" y=\""@ + r.rust_y@ + "\" class=\"label-val\">"@ + r.rust_p50@ + " ms ("@ + r.rust_rps@ + " req/s)</text>\n\n      <!-- Python Bar -->\n      <text x=\"50\" y=\""@ + r.py_y@ + "\" class=\"label-lang-py\">CPython 3.12:</text>\n      <rect x=\"180\" y=\""@ + r.py_rect_y@ + "\" width=\""@ + r.py_w@ + "\" height=\"18\" rx=\"3\" fill=\"#d7755d\" />\n      <text x=\""@ + r.py_val_x@ + "\" y=\""@ + r.py_y@ + "\" class=\"label-val\">"@ + r.py_p50@);
        lemma_concat_associative(("\n    <g class=\"lfl-row\">\n      <text x=\"30\" y=\""@ + r.label_y@ + "\" class=\"label-service\">"@ + r.category@ + ": "@ + r.workload@ + "</text>\n      <!-- Rust Bar -->\n      <text x=\"50\" y=\""@ + r.rust_y@ + "\" class=\"label-lang-rust\">Rust Native:</text>\n      <rect x=\"180\" y=\""@ + r.rust_rect_y@ + "\" width=\""@ + r.rust_w@ + "\" height=\"18\" rx=\"3\" fill=\"#7fb8a6\" />\n      <text x=\""@ + r.rust_val_x@ + "\" y=\""@ + r.rust_y@ + "\" class=\"label-val\">"@ + r.rust_p50@ + " ms ("@ + r.rust_rps@ + " req/s)</text>\n\n      <!-- Python Bar -->\n      <text x=\"50\" y=\""@ + r.py_y@ + "\" class=\"label-lang-py\">CPython 3.12:</text>\n      <rect x=\"180\" y=\""@ + r.py_rect_y@ + "\" width=\""@ + r.py_w@), "\" height=\"18\" rx=\"3\" fill=\"#d7755d\" />\n      <text x=\""@ + r.py_val_x@ + "\" y=\""@ + r.py_y@ + "\" class=\"label-val\">"@ + r.py_p50@, " ms ("@);
        assert(("\n    <g class=\"lfl-row\">\n      <text x=\"30\" y=\""@ + r.label_y@ + "\" class=\"label-service\">"@ + r.category@ + ": "@ + r.workload@ + "</text>\n      <!-- Rust Bar -->\n      <text x=\"50\" y=\""@ + r.rust_y@ + "\" class=\"label-lang-rust\">Rust Native:</text>\n      <rect x=\"180\" y=\""@ + r.rust_rect_y@ + "\" width=\""@ + r.rust_w@ + "\" height=\"18\" rx=\"3\" fill=\"#7fb8a6\" />\n      <text x=\""@ + r.rust_val_x@ + "\" y=\""@ + r.rust_y@ + "\" class=\"label-val\">"@ + r.rust_p50@ + " ms ("@ + r.rust_rps@ + " req/s)</text>\n\n      <!-- Python Bar -->\n      <text x=\"50\" y=\""@ + r.py_y@ + "\" class=\"label-lang-py\">CPython 3.12:</text>\n      <rect x=\"180\" y=\""@ + r.py_rect_y@ + "\" width=\""@ + r.py_w@) + ("\" height=\"18\" rx=\"3\" fill=\"#d7755d\" />\n      <text x=\""@ + r.py_val_x@ + "\" y=\""@ + r.py_y@ + "\" class=\"label-val\">"@ + r.py_p50@ + " ms ("@) == "\n    <g class=\"lfl-row\">\n      <text x=\"30\" y=\""@ + r.label_y@ + "\" class=\"label-service\">"@ + r.category@ + ": "@ + r.workload@ + "</text>\n      <!-- Rust Bar -->\n      <text x=\"50\" y=\""@ + r.rust_y@ + "\" class=\"label-lang-rust\">Rust Native:</text>\n      <rect x=\"180\" y=\""@ + r.rust_rect_y@ + "\" width=\""@ + r.rust_w@ + "\" height=\"18\" rx=\"3\" fill=\"#7fb8a6\" />\n      <text x=\""@ + r.rust_val_x@ + "\" y=\""@ + r.rust_y@ + "\" class=\"label-val\">"@ + r.rust_p50@ + " ms ("@ + r.rust_rps@ + " req/s)</text>\n\n      <!-- Python Bar -->\n      <text x=\"50\" y=\""@ + r.py_y@ + "\" class=\"label-lang-py\">CPython 3.12:</text>\n      <rect x=\"180\" y=\""@ + r.py_rect_y@ + "\" width=\""@ + r.py_w@ + "\" height=\"18\" rx=\"3\" fill=\"#d7755d\" />\n      <text x=\""@ + r.py_val_x@ + "\" y=\""@ + r.py_y@ + "\" class=\"label-val\">"@ + r.py_p50@ + " ms ("@);
        lemma_concat_associative(("\n    <g class=\"lfl-row\">\n      <text x=\"30\" y=\""@ + r.label_y@ + "\" class=\"label-service\">"@ + r.category@ + ": "@ + r.workload@ + "</text>\n      <!-- Rust Bar -->\n      <text x=\"50\" y=\""@ + r.rust_y@ + "\" class=\"label-lang-rust\">Rust Native:</text>\n      <rect x=\"180\" y=\""@ + r.rust_rect_y@ + "\" width=\""@ + r.rust_w@ + "\" height=\"18\" rx=\"3\" fill=\"#7fb8a6\" />\n      <text x=\""@ + r.rust_val_x@ + "\" y=\""@ + r.rust_y@ + "\" class=\"label-val\">"@ + r.rust_p50@ + " ms ("@ + r.rust_rps@ + " req/s)</text>\n\n      <!-- Python Bar -->\n      <text x=\"50\" y=\""@ + r.py_y@ + "\" class=\"label-lang-py\">CPython 3.12:</text>\n      <rect x=\"180\" y=\""@ + r.py_rect_y@ + "\" width=\""@ + r.py_w@), "\" height=\"18\" rx=\"3\" fill=\"#d7755d\" />\n      <text x=\""@ + r.py_val_x@ + "\" y=\""@ + r.py_y@ + "\" class=\"label-val\">"@ + r.py_p50@ + " ms ("@, r.py_rps@);
        assert(("\n    <g class=\"lfl-row\">\n      <text x=\"30\" y=\""@ + r.label_y@ + "\" class=\"label-service\">"@ + r.category@ + ": "@ + r.workload@ + "</text>\n      <!-- Rust Bar -->\n      <text x=\"50\" y=\""@ + r.rust_y@ + "\" class=\"label-lang-rust\">Rust Native:</text>\n      <rect x=\"180\" y=\""@ + r.rust_rect_y@ + "\" width=\""@ + r.rust_w@ + "\" height=\"18\" rx=\"3\" fill=\"#7fb8a6\" />\n      <text x=\""@ + r.rust_val_x@ + "\" y=\""@ + r.rust_y@ + "\" class=\"label-val\">"@ + r.rust_p50@ + " ms ("@ + r.rust_rps@ + " req/s)</text>\n\n      <!-- Python Bar -->\n      <text x=\"50\" y=\""@ + r.py_y@ + "\" class=\"label-lang-py\">CPython 3.12:</text>\n      <rect x=\"180\" y=\""@ + r.py_rect_y@ + "\" width=\""@ + r.py_w@) + ("\" height=\"18\" rx=\"3\" fill=\"#d7755d\" />\n      <text x=\""@ + r.py_val_x@ + "\" y=\""@ + r.py_y@ + "\" class=\"label-val\">"@ + r.py_p50@ + " ms ("@ + r.py_rps@) == "\n    <g class=\"lfl-row\">\n      <text x=\"30\" y=\""@ + r.label_y@ + "\" class=\"label-service\">"@ + r.category@ + ": "@ + r.workload@ + "</text>\n      <!-- Rust Bar -->\n      <text x=\"50\" y=\""@ + r.rust_y@ + "\" class=\"label-lang-rust\">Rust Native:</text>\n      <rect x=\"180\" y=\""@ + r.rust_rect_y@ + "\" width=\""@ + r.rust_w@ + "\" height=\"18\" rx=\"3\" fill=\"#7fb8a6\" />\n      <text x=\""@ + r.rust_val_x@ + "\" y=\""@ + r.rust_y@ + "\" class=\"label-val\">"@ + r.rust_p50@ + " ms ("@ + r.rust_rps@ + " req/s)</text>\n\n      <!-- Python Bar -->\n      <text x=\"50\" y=\""@ + r.py_y@ + "\" class=\"label-lang-py\">CPython 3.12:</text>\n      <rect x=\"180\" y=\""@ + r.py_rect_y@ + "\" width=\""@ + r.py_w@ + "\" height=\"18\" rx=\"3\" fill=\"#d7755d\" />\n      <text x=\""@ + r.py_val_x@ + "\" y=\""@ + r.py_y@ + "\" class=\"label-val\">"@ + r.py_p50@ + " ms ("@ + r.py_rps@);
        lemma_concat_associative(("\n    <g class=\"lfl-row\">\n      <text x=\"30\" y=\""@ + r.label_y@ + "\" class=\"label-service\">"@ + r.category@ + ": "@ + r.workload@ + "</text>\n      <!-- Rust Bar -->\n      <text x=\"50\" y=\""@ + r.rust_y@ + "\" class=\"label-lang-rust\">Rust Native:</text>\n      <rect x=\"180\" y=\""@ + r.rust_rect_y@ + "\" width=\""@ + r.rust_w@ + "\" height=\"18\" rx=\"3\" fill=\"#7fb8a6\" />\n      <text x=\""@ + r.rust_val_x@ + "\" y=\""@ + r.rust_y@ + "\" class=\"label-val\">"@ + r.rust_p50@ + " ms ("@ + r.rust_rps@ + " req/s)</text>\n\n      <!-- Python Bar -->\n      <text x=\"50\" y=\""@ + r.py_y@ + "\" class=\"label-lang-py\">CPython 3.12:</text>\n      <rect x=\"180\" y=\""@ + r.py_rect_y@ + "\" width=\""@ + r.py_w@), "\" height=\"18\" rx=\"3\" fill=\"#d7755d\" />\n      <text x=\""@ + r.py_val_x@ + "\" y=\""@ + r.py_y@ + "\" class=\"label-val\">"@ + r.py_p50@ + " ms ("@ + r.py_rps@, " req/s)</text>\n\n      <!-- Badge -->\n      <text x=\"820\" y=\""@);
        assert(("\n    <g class=\"lfl-row\">\n      <text x=\"30\" y=\""@ + r.label_y@ + "\" class=\"label-service\">"@ + r.category@ + ": "@ + r.workload@ + "</text>\n      <!-- Rust Bar -->\n      <text x=\"50\" y=\""@ + r.rust_y@ + "\" class=\"label-lang-rust\">Rust Native:</text>\n      <rect x=\"180\" y=\""@ + r.rust_rect_y@ + "\" width=\""@ + r.rust_w@ + "\" height=\"18\" rx=\"3\" fill=\"#7fb8a6\" />\n      <text x=\""@ + r.rust_val_x@ + "\" y=\""@ + r.rust_y@ + "\" class=\"label-val\">"@ + r.rust_p50@ + " ms ("@ + r.rust_rps@ + " req/s)</text>\n\n      <!-- Python Bar -->\n      <text x=\"50\" y=\""@ + r.py_y@ + "\" class=\"label-lang-py\">CPython 3.12:</text>\n      <rect x=\"180\" y=\""@ + r.py_rect_y@ + "\" width=\""@ + r.py_w@) + ("\" height=\"18\" rx=\"3\" fill=\"#d7755d\" />\n      <text x=\""@ + r.py_val_x@ + "\" y=\""@ + r.py_y@ + "\" class=\"label-val\">"@ + r.py_p50@ + " ms ("@ + r.py_rps@ + " req/s)</text>\n\n      <!-- Badge -->\n      <text x=\"820\" y=\""@) == "\n    <g class=\"lfl-row\">\n      <text x=\"30\" y=\""@ + r.label_y@ + "\" class=\"label-service\">"@ + r.category@ + ": "@ + r.workload@ + "</text>\n      <!-- Rust Bar -->\n      <text x=\"50\" y=\""@ + r.rust_y@ + "\" class=\"label-lang-rust\">Rust Native:</text>\n      <rect x=\"180\" y=\""@ + r.rust_rect_y@ + "\" width=\""@ + r.rust_w@ + "\" height=\"18\" rx=\"3\" fill=\"#7fb8a6\" />\n      <text x=\""@ + r.rust_val_x@ + "\" y=\""@ + r.rust_y@ + "\" class=\"label-val\">"@ + r.rust_p50@ + " ms ("@ + r.rust_rps@ + " req/s)</text>\n\n      <!-- Python Bar -->\n      <text x=\"50\" y=\""@ + r.py_y@ + "\" class=\"label-lang-py\">CPython 3.12:</text>\n      <rect x=\"180\" y=\""@ + r.py_rect_y@ + "\" width=\""@ + r.py_w@ + "\" height=\"18\" rx=\"3\" fill=\"#d7755d\" />\n      <text x=\""@ + r.py_val_x@ + "\" y=\""@ + r.py_y@ + "\" class=\"label-val\">"@ + r.py_p50@ + " ms ("@ + r.py_rps@ + " req/s)</text>\n\n      <!-- Badge -->\n      <text x=\"820\" y=\""@);
        lemma_contains_tail(("\n    <g class=\"lfl-row\">\n      <text x=\"30\" y=\""@ + r.label_y@ + "\" class=\"label-service\">"@ + r.category@ + ": "@ + r.workload@ + "</text>\n      <!-- Rust Bar -->\n      <text x=\"50\" y=\""@ + r.rust_y@ + "\" class=\"label-lang-rust\">Rust Native:</text>\n      <rect x=\"180\" y=\""@ + r.rust_rect_y@ + "\" width=\""@ + r.rust_w@ + "\" height=\"18\" rx=\"3\" fill=\"#7fb8a6\" />\n      <text x=\""@ + r.rust_val_x@ + "\" y=\""@ + r.rust_y@ + "\" class=\"label-val\">"@ + r.rust_p50@ + " ms ("@ + r.rust_rps@ + " req/s)</text>\n\n      <!-- Python Bar -->\n      <text x=\"50\" y=\""@ + r.py_y@ + "\" class=\"label-lang-py\">CPython 3.12:</text>\n      <rect x=\"180\" y=\""@ + r.py_rect_y@ + "\" width=\""@ + r.py_w@), "\" height=\"18\" rx=\"3\" fill=\"#d7755d\" />\n      <text x=\""@ + r.py_val_x@ + "\" y=\""@ + r.py_y@ + "\" class=\"label-val\">"@ + r.py_p50@ + " ms ("@ + r.py_rps@ + " req/s)</text>\n\n      <!-- Badge -->\n      <text x=\"820\" y=\""@);
        lemma_contains_extend("\n    <g class=\"lfl-row\">\n      <text x=\"30\" y=\""@ + r.label_y@ + "\" class=\"label-service\">"@ + r.category@ + ": "@ + r.workload@ + "</text>\n      <!-- Rust Bar -->\n      <text x=\"50\" y=\""@ + r.rust_y@ + "\" class=\"label-lang-rust\">Rust Native:</text>\n      <rect x=\"180\" y=\""@ + r.rust_rect_y@ + "\" width=\""@ + r.rust_w@ + "\" height=\"18\" rx=\"3\" fill=\"#7fb8a6\" />\n      <text x=\""@ + r.rust_val_x@ + "\" y=\""@ + r.rust_y@ + "\" class=\"label-val\">"@ + r.rust_p50@ + " ms ("@ + r.rust_rps@ + " req/s)</text>\n\n      <!-- Python Bar -->\n      <text x=\"50\" y=\""@ + r.py_y@ + "\" class=\"label-lang-py\">CPython 3.12:</text>\n      <rect x=\"180\" y=\""@ + r.py_rect_y@ + "\" width=\""@ + r.py_w@ + "\" height=\"18\" rx=\"3\" fill=\"#d7755d\" />\n      <text x=\""@ + r.py_val_x@ + "\" y=\""@ + r.py_y@ + "\" class=\"label-val\">"@ + r.py_p50@ + " ms ("@ + r.py_rps@ + " req/s)</text>\n\n      <!-- Badge -->\n      <text x=\"820\" y=\""@, r.badge_y@, "\" height=\"18\" rx=\"3\" fill=\"#d7755d\" />\n      <text x=\""@ + r.py_val_x@ + "\" y=\""@ + r.py_y@ + "\" class=\"label-val\">"@ + r.py_p50@ + " ms ("@ + r.py_rps@ + " req/s)</text>\n\n      <!-- Badge -->\n      <text x=\"820\" y=\""@);
        lemma_contains_extend("\n    <g class=\"lfl-row\">\n      <text x=\"30\" y=\""@ + r.label_y@ + "\" class=\"label-service\">"@ + r.category@ + ": "@ + r.workload@ + "</text>\n      <!-- Rust Bar -->\n      <text x=\"50\" y=\""@ + r.rust_y@ + "\" class=\"label-lang-rust\">Rust Native:</text>\n      <rect x=\"180\" y=\""@ + r.rust_rect_y@ + "\" width=\""@ + r.rust_w@ + "\" height=\"18\" rx=\"3\" fill=\"#7fb8a6\" />\n      <text x=\""@ + r.rust_val_x@ + "\" y=\""@ + r.rust_y@ + "\" class=\"label-val\">"@ + r.rust_p50@ + " ms ("@ + r.rust_rps@ + " req/s)</text>\n\n      <!-- Python Bar -->\n      <text x=\"50\" y=\""@ + r.py_y@ + "\" class=\"label-lang-py\">CPython 3.12:</text>\n      <rect x=\"180\" y=\""@ + r.py_rect_y@ + "\" width=\""@ + r.py_w@ + "\" height=\"18\" rx=\"3\" fill=\"#d7755d\" />\n      <text x=\""@ + r.py_val_x@ + "\" y=\""@ + r.py_y@ + "\" class=\"label-val\">"@ + r.py_p50@ + " ms ("@ + r.py_rps@ + " req/s)</text>\n\n      <!-- Badge -->\n      <text x=\"820\" y=\""@ + r.badge_y@, "\" class=\"badge-speedup\">"@, "\" height=\"18\" rx=\"3\" fill=\"#d7755d\" />\n      <text x=\""@ + r.py_val_x@ + "\" y=\""@ + r.py_y@ + "\" class=\"label-val\">"@ + r.py_p50@ + " ms ("@ + r.py_rps@ + " req/s)</text>\n\n      <!-- Badge -->\n      <text x=\"820\" y=\""@);
        lemma_contains_extend("\n    <g class=\"lfl-row\">\n      <text x=\"30\" y=\""@ + r.label_y@ + "\" class=\"label-service\">"@ + r.category@ + ": "@ + r.workload@ + "</text>\n      <!-- Rust Bar -->\n      <text x=\"50\" y=\""@ + r.rust_y@ + "\" class=\"label-lang-rust\">Rust Native:</text>\n      <rect x=\"180\" y=\""@ + r.rust_rect_y@ + "\" width=\""@ + r.rust_w@ + "\" height=\"18\" rx=\"3\" fill=\"#7fb8a6\" />\n      <text x=\""@ + r.rust_val_x@ + "\" y=\""@ + r.rust_y@ + "\" class=\"label-val\">"@ + r.rust_p50@ + " ms ("@ + r.rust_rps@ + " req/s)</text>\n\n      <!-- Python Bar -->\n      <text x=\"50\" y=\""@ + r.py_y@ + "\" class=\"label-lang-py\">CPython 3.12:</text>\n      <rect x=\"180\" y=\""@ + r.py_rect_y@ + "\" width=\""@ + r.py_w@ + "\" height=\"18\" rx=\"3\" fill=\"#d7755d\" />\n      <text x=\""@ + r.py_val_x@ + "\" y=\""@ + r.py_y@ + "\" class=\"label-val\">"@ + r.py_p50@ + " ms ("@ + r.py_rps@ + " req/s)</text>\n\n      <!-- Badge -->\n      <text x=\"820\" y=\""@ + r.badge_y@ + "\" class=\"badge-speedup\">"@, r.speedup@, "\" height=\"18\" rx=\"3\" fill=\"#d7755d\" />\n      <text x=\""@ + r.py_val_x@ + "\" y=\""@ + r.py_y@ + "\" class=\"label-val\">"@ + r.py_p50@ + " ms ("@ + r.py_rps@ + " req/s)</text>\n\n      <!-- Badge -->\n      <text x=\"820\" y=\""@);
        lemma_contains_extend("\n    <g class=\"lfl-row\">\n      <text x=\"30\" y=\""@ + r.label_y@ + "\" class=\"label-service\">"@ + r.category@ + ": "@ + r.workload@ + "</text>\n      <!-- Rust Bar -->\n      <text x=\"50\" y=\""@ + r.rust_y@ + "\" class=\"label-lang-rust\">Rust Native:</text>\n      <rect x=\"180\" y=\""@ + r.rust_rect_y@ + "\" width=\""@ + r.rust_w@ + "\" height=\"18\" rx=\"3\" fill=\"#7fb8a6\" />\n      <text x=\""@ + r.rust_val_x@ + "\" y=\""@ + r.rust_y@ + "\" class=\"label-val\">"@ + r.rust_p50@ + " ms ("@ + r.rust_rps@ + " req/s)</text>\n\n      <!-- Python Bar -->\n      <text x=\"50\" y=\""@ + r.py_y@ + "\" class=\"label-lang-py\">CPython 3.12:</text>\n      <rect x=\"180\" y=\""@ + r.py_rect_y@ + "\" width=\""@ + r.py_w@ + "\" height=\"18\" rx=\"3\" fill=\"#d7755d\" />\n      <text x=\""@ + r.py_val_x@ + "\" y=\""@ + r.py_y@ + "\" class=\"label-val\">"@ + r.py_p50@ + " ms ("@ + r.py_rps@ + " req/s)</text>\n\n      <!-- Badge -->\n      <text x=\"820\" y=\""@ + r.badge_y@ + "\" class=\"badge-speedup\">"@ + r.speedup@, "x Faster</text>\n      <text x=\"820\" y=\""@, "\" height=\"18\" rx=\"3\" fill=\"#d7755d\" />\n      <text x=\""@ + r.py_val_x@ + "\" y=\""@ + r.py_y@ + "\" class=\"label-val\">"@ + r.py_p50@ + " ms ("@ + r.py_rps@ + " req/s)</text>\n\n      <!-- Badge -->\n      <text x=\"820\" y=\""@);
        lemma_contains_extend("\n    <g class=\"lfl-row\">\n      <text x=\"30\" y=\""@ + r.label_y@ + "\" class=\"label-service\">"@ + r.category@ + ": "@ + r.workload@ + "</text>\n      <!-- Rust Bar -->\n      <text x=\"50\" y=\""@ + r.rust_y@ + "\" class=\"label-lang-rust\">Rust Native:</text>\n      <rect x=\"180\" y=\""@ + r.rust_rect_y@ + "\" width=\""@ + r.rust_w@ + "\" height=\"18\" rx=\"3\" fill=\"#7fb8a6\" />\n      <text x=\""@ + r.rust_val_x@ + "\" y=\""@ + r.rust_y@ + "\" class=\"label-val\">"@ + r.rust_p50@ + " ms ("@ + r.rust_rps@ + " req/s)</text>\n\n      <!-- Python Bar -->\n      <text x=\"50\" y=\""@ + r.py_y@ + "\" class=\"label-lang-py\">CPython 3.12:</text>\n      <rect x=\"180\" y=\""@ + r.py_rect_y@ + "\" width=\""@ + r.py_w@ + "\" height=\"18\" rx=\"3\" fill=\"#d7755d\" />\n      <text x=\""@ + r.py_val_x@ + "\" y=\""@ + r.py_y@ + "\" class=\"label-val\">"@ + r.py_p50@ + " ms ("@ + r.py_rps@ + " req/s)</text>\n\n      <!-- Badge -->\n      <text x=\"820\" y=\""@ + r.badge_y@ + "\" class=\"badge-speedup\">"@ + r.speedup@ + "x Faster</text>\n      <text x=\"820\" y=\""@, r.badge_mem_y@, "\" height=\"18\" rx=\"3\" fill=\"#d7755d\" />\n      <text x=\""@ + r.py_val_x@ + "\" y=\""@ + r.py_y@ + "\" class=\"label-val\">"@ + r.py_p50@ + " ms ("@ + r.py_rps@ + " req/s)</text>\n\n      <!-- Badge -->\n      <text x=\"820\" y=\""@);
        lemma_contains_extend("\n    <g class=\"lfl-row\">\n      <text x=\"30\" y=\""@ + r.label_y@ + "\" class=\"label-service\">"@ + r.category@ + ": "@ + r.workload@ + "</text>\n      <!-- Rust Bar -->\n      <text x=\"50\" y=\""@ + r.rust_y@ + "\" class=\"label-lang-rust\">Rust Native:</text>\n      <rect x=\"180\" y=\""@ + r.rust_rect_y@ + "\" width=\""@ + r.rust_w@ + "\" height=\"18\" rx=\"3\" fill=\"#7fb8a6\" />\n      <text x=\""@ + r.rust_val_x@ + "\" y=\""@ + r.rust_y@ + "\" class=\"label-val\">"@ + r.rust_p50@ + " ms ("@ + r.rust_rps@ + " req/s)</text>\n\n      <!-- Python Bar -->\n      <text x=\"50\" y=\""@ + r.py_y@ + "\" class=\"label-lang-py\">CPython 3.12:</text>\n      <rect x=\"180\" y=\""@ + r.py_rect_y@ + "\" width=\""@ + r.py_w@ + "\" height=\"18\" rx=\"3\" fill=\"#d7755d\" />\n      <text x=\""@ + r.py_val_x@ + "\" y=\""@ + r.py_y@ + "\" class=\"label-val\">"@ + r.py_p50@ + " ms ("@ + r.py_rps@ + " req/s)</text>\n\n      <!-- Badge -->\n      <text x=\"820\" y=\""@ + r.badge_y@ + "\" class=\"badge-speedup\">"@ + r.speedup@ + "x Faster</text>\n      <text x=\"820\" y=\""@ + r.badge_mem_y@, "\" class=\"badge-mem\">(-"@, "\" height=\"18\" rx=\"3\" fill=\"#d7755d\" />\n      <text x=\""@ + r.py_val_x@ + "\" y=\""@ + r.py_y@ + "\" class=\"label-val\">"@ + r.py_p50@ + " ms ("@ + r.py_rps@ + " req/s)</text>\n\n      <!-- Badge -->\n      <text x=\"820\" y=\""@);
        lemma_contains_extend("\n    <g class=\"lfl-row\">\n      <text x=\"30\" y=\""@ + r.label_y@ + "\" class=\"label-service\">"@ + r.category@ + ": "@ + r.workload@ + "</text>\n      <!-- Rust Bar -->\n      <text x=\"50\" y=\""@ + r.rust_y@ + "\" class=\"label-lang-rust\">Rust Native:</text>\n      <rect x=\"180\" y=\""@ + r.rust_rect_y@ + "\" width=\""@ + r.rust_w@ + "\" height=\"18\" rx=\"3\" fill=\"#7fb8a6\" />\n      <text x=\""@ + r.rust_val_x@ + "\" y=\""@ + r.rust_y@ + "\" class=\"label-val\">"@ + r.rust_p50@ + " ms ("@ + r.rust_rps@ + " req/s)</text>\n\n      <!-- Python Bar -->\n      <text x=\"50\" y=\""@ + r.py_y@ + "\" class=\"label-lang-py\">CPython 3.12:</text>\n      <rect x=\"180\" y=\""@ + r.py_rect_y@ + "\" width=\""@ + r.py_w@ + "\" height=\"18\" rx=\"3\" fill=\"#d7755d\" />\n      <text x=\""@ + r.py_val_x@ + "\" y=\""@ + r.py_y@ + "\" class=\"label-val\">"@ + r.py_p50@ + " ms ("@ + r.py_rps@ + " req/s)</text>\n\n      <!-- Badge -->\n      <text x=\"820\" y=\""@ + r.badge_y@ + "\" class=\"badge-speedup\">"@ + r.speedup@ + "x Faster</text>\n      <text x=\"820\" y=\""@ + r.badge_mem_y@ + "\" class=\"badge-mem\">(-"@, r.mem_pct@, "\" height=\"18\" rx=\"3\" fill=\"#d7755d\" />\n      <text x=\""@ + r.py_val_x@ + "\" y=\""@ + r.py_y@ + "\" class=\"label-val\">"@ + r.py_p50@ + " ms ("@ + r.py_rps@ + " req/s)</text>\n\n      <!-- Badge -->\n      <text x=\"820\" y=\""@);
        lemma_contains_extend("\n    <g class=\"lfl-row\">\n      <text x=\"30\" y=\""@ + r.label_y@ + "\" class=\"label-service\">"@ + r.category@ + ": "@ + r.workload@ + "</text>\n      <!-- Rust Bar -->\n      <text x=\"50\" y=\""@ + r.rust_y@ + "\" class=\"label-lang-rust\">Rust Native:</text>\n      <rect x=\"180\" y=\""@ + r.rust_rect_y@ + "\" width=\""@ + r.rust_w@ + "\" height=\"18\" rx=\"3\" fill=\"#7fb8a6\" />\n      <text x=\""@ + r.rust_val_x@ + "\" y=\""@ + r.rust_y@ + "\" class=\"label-val\">"@ + r.rust_p50@ + " ms ("@ + r.rust_rps@ + " req/s)</text>\n\n      <!-- Python Bar -->\n      <text x=\"50\" y=\""@ + r.py_y@ + "\" class=\"label-lang-py\">CPython 3.12:</text>\n      <rect x=\"180\" y=\""@ + r.py_rect_y@ + "\" width=\""@ + r.py_w@ + "\" height=\"18\" rx=\"3\" fill=\"#d7755d\" />\n      <text x=\""@ + r.py_val_x@ + "\" y=\""@ + r.py_y@ + "\" class=\"label-val\">"@ + r.py_p50@ + " ms ("@ + r.py_rps@ + " req/s)</text>\n\n      <!-- Badge -->\n      <text x=\"820\" y=\""@ + r.badge_y@ + "\" class=\"badge-speedup\">"@ + r.speedup@ + "x Faster</text>\n      <text x=\"820\" y=\""@ + r.badge_mem_y@ + "\" class=\"badge-mem\">(-"@ + r.mem_pct@, "% RAM)</text>\n    </g>"@, "\" height=\"18\" rx=\"3\" fill=\"#d7755d\" />\n      <text x=\""@ + r.py_val_x@ + "\" y=\""@ + r.py_y@ + "\" class=\"label-val\">"@ + r.py_p50@ + " ms ("@ + r.py_rps@ + " req/s)</text>\n\n      <!-- Badge -->\n      <text x=\"820\" y=\""@);
    }
    assert(contains_seq(like_for_like_row_text(r), " req/s)</text>\n\n      <!-- Badge -->\n      <text x=\"820\" y=\""@ + r.badge_y@ + "\" class=\"badge-speedup\">"@ + r.speedup@ + "x Faster</text>\n      <text x=\"820\" y=\""@)) by {
        lemma_concat_associative(("\n    <g class=\"lfl-row\">\n      <text x=\"30\" y=\""@ + r.label_y@ + "\" class=\"label-service\">"@ + r.category@ + ": "@ + r.workload@ + "</text>\n      <!-- Rust Bar -->\n      <text x=\"50\" y=\""@ + r.rust_y@ + "\" class=\"label-lang-rust\">Rust Native:</text>\n      <rect x=\"180\" y=\""@ + r.rust_rect_y@ + "\" width=\""@ + r.rust_w@ + "\" height=\"18\" rx=\"3\" fill=\"#7fb8a6\" />\n      <text x=\""@ + r.rust_val_x@ + "\" y=\""@ + r.rust_y@ + "\" class=\"label-val\">"@ + r.rust_p50@ + " ms ("@ + r.rust_rps@ + " req/s)</text>\n\n      <!-- Python Bar -->\n      <text x=\"50\" y=\""@ + r.py_y@ + "\" class=\"label-lang-py\">CPython 3.12:</text>\n      <rect x=\"180\" y=\""@ + r.py_rect_y@ + "\" width=\""@ + r.py_w@ + "\" height=\"18\" rx=\"3\" fill=\"#d7755d\" />\n      <text x=\""@ + r.py_val_x@ + "\" y=\""@ + r.py_y@ + "\" class=\"label-val\">"@ + r.py_p50@ + " ms ("@ + r.py_rps@), " req/s)</text>\n\n      <!-- Badge -->\n      <text x=\"820\" y=\""@, r.badge_y@);
        assert(("\n    <g class=\"lfl-row\">\n      <text x=\"30\" y=\""@ + r.label_y@ + "\" class=\"label-service\">"@ + r.category@ + ": "@ + r.workload@ + "</text>\n      <!-- Rust Bar -->\n      <text x=\"50\" y=\""@ + r.rust_y@ + "\" class=\"label-lang-rust\">Rust Native:</text>\n      <rect x=\"180\" y=\""@ + r.rust_rect_y@ + "\" width=\""@ + r.rust_w@ + "\" height=\"18\" rx=\"3\" fill=\"#7fb8a6\" />\n      <text x=\""@ + r.rust_val_x@ + "\" y=\""@ + r.rust_y@ + "\" class=\"label-val\">"@ + r.rust_p50@ + " ms ("@ + r.rust_rps@ + " req/s)</text>\n\n      <!-- Python Bar -->\n      <text x=\"50\" y=\""@ + r.py_y@ + "\" class=\"label-lang-py\">CPython 3.12:</text>\n      <rect x=\"180\" y=\""@ + r.py_rect_y@ + "\" width=\""@ + r.py_w@ + "\" height=\"18\" rx=\"3\" fill=\"#d7755d\" />\n      <text x=\""@ + r.py_val_x@ + "\" y=\""@ + r.py_y@ + "\" class=\"label-val\">"@ + r.py_p50@ + " ms ("@ + r.py_rps@) + (" req/s)</text>\n\n      <!-- Badge -->\n      <text x=\"820\" y=\""@ + r.badge_y@) == "\n    <g class=\"lfl-row\">\n      <text x=\"30\" y=\""@ + r.label_y@ + "\" class=\"label-service\">"@ + r.category@ + ": "@ + r.workload@ + "</text>\n      <!-- Rust Bar -->\n      <text x=\"50\" y=\""@ + r.rust_y@ + "\" class=\"label-lang-rust\">Rust Native:</text>\n      <rect x=\"180\" y=\""@ + r.rust_rect_y@ + "\" width=\""@ + r.rust_w@ + "\" height=\"18\" rx=\"3\" fill=\"#7fb8a6\" />\n      <text x=\""@ + r.rust_val_x@ + "\" y=\""@ + r.rust_y@ + "\" class=\"label-val\">"@ + r.rust_p50@ + " ms ("@ + r.rust_rps@ + " req/s)</text>\n\n      <!-- Python Bar -->\n      <text x=\"50\" y=\""@ + r.py_y@ + "\" class=\"label-lang-py\">CPython 3.12:</text>\n      <rect x=\"180\" y=\""@ + r.py_rect_y@ + "\" width=\""@ + r.py_w@ + "\" height=\"18\" rx=\"3\" fill=\"#d7755d\" />\n      <text x=\""@ + r.py_val_x@ + "\" y=\""@ + r.py_y@ + "\" class=\"label-val\">"@ + r.py_p50@ + " ms ("@ + r.py_rps@ + " req/s)</text>\n\n      <!-- Badge -->\n      <text x=\"820\" y=\""@ + r.badge_y@);
        lemma_concat_associative(("\n    <g class=\"lfl-row\">\n      <text x=\"30\" y=\""@ + r.label_y@ + "\" class=\"label-service\">"@ + r.category@ + ": "@ + r.workload@ + "</text>\n      <!-- Rust Bar -->\n      <text x=\"50\" y=\""@ + r.rust_y@ + "\" class=\"label-lang-rust\">Rust Native:</text>\n      <rect x=\"180\" y=\""@ + r.rust_rect_y@ + "\" width=\""@ + r.rust_w@ + "\" height=\"18\" rx=\"3\" fill=\"#7fb8a6\" />\n      <text x=\""@ + r.rust_val_x@ + "\" y=\""@ + r.rust_y@ + "\" class=\"label-val\">"@ + r.rust_p50@ + " ms ("@ + r.rust_rps@ + " req/s)</text>\n\n      <!-- Python Bar -->\n      <text x=\"50\" y=\""@ + r.py_y@ + "\" class=\"label-lang-py\">CPython 3.12:</text>\n      <rect x=\"180\" y=\""@ + r.py_rect_y@ + "\" width=\""@ + r.py_w@ + "\" height=\"18\" rx=\"3\" fill=\"#d7755d\" />\n      <text x=\""@ + r.py_val_x@ + "\" y=\""@ + r.py_y@ + "\" class=\"label-val\">"@ + r.py_p50@ + " ms ("@ + r.py_rps@), " req/s)</text>\n\n      <!-- Badge -->\n      <text x=\"820\" y=\""@ + r.badge_y@, "\" class=\"badge-speedup\">"@);
        assert(("\n    <g class=\"lfl-row\">\n      <text x=\"30\" y=\""@ + r.label_y@ + "\" class=\"label-service\">"@ + r.category@ + ": "@ + r.workload@ + "</text>\n      <!-- Rust Bar -->\n      <text x=\"50\" y=\""@ + r.rust_y@ + "\" class=\"label-lang-rust\">Rust Native:</text>\n      <rect x=\"180\" y=\""@ + r.rust_rect_y@ + "\" width=\""@ + r.rust_w@ + "\" height=\"18\" rx=\"3\" fill=\"#7fb8a6\" />\n      <text x=\""@ + r.rust_val_x@ + "\" y=\""@ + r.rust_y@ + "\" class=\"label-val\">"@ + r.rust_p50@ + " ms ("@ + r.rust_rps@ + " req/s)</text>\n\n      <!-- Python Bar -->\n      <text x=\"50\" y=\""@ + r.py_y@ + "\" class=\"label-lang-py\">CPython 3.12:</text>\n      <rect x=\"180\" y=\""@ + r.py_rect_y@ + "\" width=\""@ + r.py_w@ + "\" height=\"18\" rx=\"3\" fill=\"#d7755d\" />\n      <text x=\""@ + r.py_val_x@ + "\" y=\""@ + r.py_y@ + "\" class=\"label-val\">"@ + r.py_p50@ + " ms ("@ + r.py_rps@) + (" req/s)</text>\n\n      <!-- Badge -->\n      <text x=\"820\" y=\""@ + r.badge_y@ + "\" class=\"badge-speedup\">"@) == "\n    <g class=\"lfl-row\">\n      <text x=\"30\" y=\""@ + r.label_y@ + "\" class=\"label-service\">"@ + r.category@ + ": "@ + r.workload@ + "</text>\n      <!-- Rust Bar -->\n      <text x=\"50\" y=\""@ + r.rust_y@ + "\" class=\"label-lang-rust\">Rust Native:</text>\n      <rect x=\"180\" y=\""@ + r.rust_rect_y@ + "\" width=\""@ + r.rust_w@ + "\" height=\"18\" rx=\"3\" fill=\"#7fb8a6\" />\n      <text x=\""@ + r.rust_val_x@ + "\" y=\""@ + r.rust_y@ + "\" class=\"label-val\">"@ + r.rust_p50@ + " ms ("@ + r.rust_rps@ + " req/s)</text>\n\n      <!-- Python Bar -->\n      <text x=\"50\" y=\""@ + r.py_y@ + "\" class=\"label-lang-py\">CPython 3.12:</text>\n      <rect x=\"180\" y=\""@ + r.py_rect_y@ + "\" width=\""@ + r.py_w@ + "\" height=\"18\" rx=\"3\" fill=\"#d7755d\" />\n      <text x=\""@ + r.py_val_x@ + "\" y=\""@ + r.py_y@ + "\" class=\"label-val\">"@ + r.py_p50@ + " ms ("@ + r.py_rps@ + " req/s)</text>\n\n      <!-- Badge -->\n      <text x=\"820\" y=\""@ + r.badge_y@ + "\" class=\"badge-speedup\">"@);
        lemma_concat_associative(("\n    <g class=\"lfl-row\">\n      <text x=\"30\" y=\""@ + r.label_y@ + "\" class=\"label-service\">"@ + r.category@ + ": "@ + r.workload@ + "</text>\n      <!-- Rust Bar -->\n      <text x=\"50\" y=\""@ + r.rust_y@ + "\" class=\"label-lang-rust\">Rust Native:</text>\n      <rect x=\"180\" y=\""@ + r.rust_rect_y@ + "\" width=\""@ + r.rust_w@ + "\" height=\"18\" rx=\"3\" fill=\"#7fb8a6\" />\n      <text x=\""@ + r.rust_val_x@ + "\" y=\""@ + r.rust_y@ + "\" class=\"label-val\">"@ + r.rust_p50@ + " ms ("@ + r.rust_rps@ + " req/s)</text>\n\n      <!-- Python Bar -->\n      <text x=\"50\" y=\""@ + r.py_y@ + "\" class=\"label-lang-py\">CPython 3.12:</text>\n      <rect x=\"180\" y=\""@ + r.py_rect_y@ + "\" width=\""@ + r.py_w@ + "\" height=\"18\" rx=\"3\" fill=\"#d7755d\" />\n      <text x=\""@ + r.py_val_x@ + "\" y=\""@ + r.py_y@ + "\" class=\"label-val\">"@ + r.py_p50@ + " ms ("@ + r.py_rps@), " req/s)</text>\n\n      <!-- Badge -->\n      <text x=\"820\" y=\""@ + r.badge_y@ + "\" class=\"badge-speedup\">"@, r.speedup@);
        assert(("\n    <g class=\"lfl-row\">\n      <text x=\"30\" y=\""@ + r.label_y@ + "\" class=\"label-service\">"@ + r.category@ + ": "@ + r.workload@ + "</text>\n      <!-- Rust Bar -->\n      <text x=\"50\" y=\""@ + r.rust_y@ + "\" class=\"label-lang-rust\">Rust Native:</text>\n      <rect x=\"180\" y=\""@ + r.rust_rect_y@ + "\" width=\""@ + r.rust_w@ + "\" height=\"18\" rx=\"3\" fill=\"#7fb8a6\" />\n      <text x=\""@ + r.rust_val_x@ + "\" y=\""@ + r.rust_y@ + "\" class=\"label-val\">"@ + r.rust_p50@ + " ms ("@ + r.rust_rps@ + " req/s)</text>\n\n      <!-- Python Bar -->\n      <text x=\"50\" y=\""@ + r.py_y@ + "\" class=\"label-lang-py\">CPython 3.12:</text>\n      <rect x=\"180\" y=\""@ + r.py_rect_y@ + "\" width=\""@ + r.py_w@ + "\" height=\"18\" rx=\"3\" fill=\"#d7755d\" />\n      <text x=\""@ + r.py_val_x@ + "\" y=\""@ + r.py_y@ + "\" class=\"label-val\">"@ + r.py_p50@ + " ms ("@ + r.py_rps@) + (" req/s)</text>\n\n      <!-- Badge -->\n      <text x=\"820\" y=\""@ + r.badge_y@ + "\" class=\"badge-speedup\">"@ + r.speedup@) == "\n    <g class=\"lfl-row\">\n      <text x=\"30\" y=\""@ + r.label_y@ + "\" class=\"label-service\">"@ + r.category@ + ": "@ + r.workload@ + "</text>\n      <!-- Rust Bar -->\n      <text x=\"50\" y=\""@ + r.rust_y@ + "\" class=\"label-lang-rust\">Rust Native:</text>\n      <rect x=\"180\" y=\""@ + r.rust_rect_y@ + "\" width=\""@ + r.rust_w@ + "\" height=\"18\" rx=\"3\" fill=\"#7fb8a6\" />\n      <text x=\""@ + r.rust_val_x@ + "\" y=\""@ + r.rust_y@ + "\" class=\"label-val\">"@ + r.rust_p50@ + " ms ("@ + r.rust_rps@ + " req/s)</text>\n\n      <!-- Python Bar -->\n      <text x=\"50\" y=\""@ + r.py_y@ + "\" class=\"label-lang-py\">CPython 3.12:</text>\n      <rect x=\"180\" y=\""@ + r.py_rect_y@ + "\" width=\""@ + r.py_w@ + "\" height=\"18\" rx=\"3\" fill=\"#d7755d\" />\n      <text x=\""@ + r.py_val_x@ + "\" y=\""@ + r.py_y@ + "\" class=\"label-val\">"@ + r.py_p50@ + " ms ("@ + r.py_rps@ + " req/s)</text>\n\n      <!-- Badge -->\n      <text x=\"820\" y=\""@ + r.badge_y@ + "\" class=\"badge-speedup\">"@ + r.speedup@);
        lemma_concat_associative(("\n    <g class=\"lfl-row\">\n      <text x=\"30\" y=\""@ + r.label_y@ + "\" class=\"label-service\">"@ + r.category@ + ": "@ + r.workload@ + "</text>\n      <!-- Rust Bar -->\n      <text x=\"50\" y=\""@ + r.rust_y@ + "\" class=\"label-lang-rust\">Rust Native:</text>\n      <rect x=\"180\" y=\""@ + r.rust_rect_y@ + "\" width=\""@ + r.rust_w@ + "\" height=\"18\" rx=\"3\" fill=\"#7fb8a6\" />\n      <text x=\""@ + r.rust_val_x@ + "\" y=\""@ + r.rust_y@ + "\" class=\"label-val\">"@ + r.rust_p50@ + " ms ("@ + r.rust_rps@ + " req/s)</text>\n\n      <!-- Python Bar -->\n      <text x=\"50\" y=\""@ + r.py_y@ + "\" class=\"label-lang-py\">CPython 3.12:</text>\n      <rect x=\"180\" y=\""@ + r.py_rect_y@ + "\" width=\""@ + r.py_w@ + "\" height=\"18\" rx=\"3\" fill=\"#d7755d\" />\n      <text x=\""@ + r.py_val_x@ + "\" y=\""@ + r.py_y@ + "\" class=\"label-val\">"@ + r.py_p50@ + " ms ("@ + r.py_rps@), " req/s)</text>\n\n      <!-- Badge -->\n      <text x=\"820\" y=\""@ + r.badge_y@ + "\" class=\"badge-speedup\">"@ + r.speedup@, "x Faster</text>\n      <text x=\"820\" y=\""@);
        assert(("\n    <g class=\"lfl-row\">\n      <text x=\"30\" y=\""@ + r.label_y@ + "\" class=\"label-service\">"@ + r.category@ + ": "@ + r.workload@ + "</text>\n      <!-- Rust Bar -->\n      <text x=\"50\" y=\""@ + r.rust_y@ + "\" class=\"label-lang-rust\">Rust Native:</text>\n      <rect x=\"180\" y=\""@ + r.rust_rect_y@ + "\" width=\""@ + r.rust_w@ + "\" height=\"18\" rx=\"3\" fill=\"#7fb8a6\" />\n      <text x=\""@ + r.rust_val_x@ + "\" y=\""@ + r.rust_y@ + "\" class=\"label-val\">"@ + r.rust_p50@ + " ms ("@ + r.rust_rps@ + " req/s)</text>\n\n      <!-- Python Bar -->\n      <text x=\"50\" y=\""@ + r.py_y@ + "\" class=\"label-lang-py\">CPython 3.12:</text>\n      <rect x=\"180\" y=\""@ + r.py_rect_y@ + "\" width=\""@ + r.py_w@ + "\" height=\"18\" rx=\"3\" fill=\"#d7755d\" />\n      <text x=\""@ + r.py_val_x@ + "\" y=\""@ + r.py_y@ + "\" class=\"label-val\">"@ + r.py_p50@ + " ms ("@ + r.py_rps@) + (" req/s)</text>\n\n      <!-- Badge -->\n      <text x=\"820\" y=\""@ + r.badge_y@ + "\" class=\"badge-speedup\">"@ + r.speedup@ + "x Faster</text>\n      <text x=\"820\" y=\""@) == "\n    <g class=\"lfl-row\">\n      <text x=\"30\" y=\""@ + r.label_y@ + "\" class=\"label-service\">"@ + r.category@ + ": "@ + r.workload@ + "</text>\n      <!-- Rust Bar -->\n      <text x=\"50\" y=\""@ + r.rust_y@ + "\" class=\"label-lang-rust\">Rust Native:</text>\n      <rect x=\"180\" y=\""@ + r.rust_rect_y@ + "\" width=\""@ + r.rust_w@ + "\" height=\"18\" rx=\"3\" fill=\"#7fb8a6\" />\n      <text x=\""@ + r.rust_val_x@ + "\" y=\""@ + r.rust_y@ + "\" class=\"label-val\">"@ + r.rust_p50@ + " ms ("@ + r.rust_rps@ + " req/s)</text>\n\n      <!-- Python Bar -->\n      <text x=\"50\" y=\""@ + r.py_y@ + "\" class=\"label-lang-py\">CPython 3.12:</text>\n      <rect x=\"180\" y=\""@ + r.py_rect_y@ + "\" width=\""@ + r.py_w@ + "\" height=\"18\" rx=\"3\" fill=\"#d7755d\" />\n      <text x=\""@ + r.py_val_x@ + "\" y=\""@ + r.py_y@ + "\" class=\"label-val\">"@ + r.py_p50@ + " ms ("@ + r.py_rps@ + " req/s)</text>\n\n      <!-- Badge -->\n      <text x=\"820\" y=\""@ + r.badge_y@ + "\" class=\"badge-speedup\">"@ + r.speedup@ + "x Faster</text>\n      <text x=\"820\" y=\""@);
        lemma_contains_tail(("\n    <g class=\"lfl-row\">\n      <text x=\"30\" y=\""@ + r.label_y@ + "\" class=\"label-service\">"@ + r.category@ + ": "@ + r.workload@ + "</text>\n      <!-- Rust Bar -->\n      <text x=\"50\" y=\""@ + r.rust_y@ + "\" class=\"label-lang-rust\">Rust Native:</text>\n      <rect x=\"180\" y=\""@ + r.rust_rect_y@ + "\" width=\""@ + r.rust_w@ + "\" height=\"18\" rx=\"3\" fill=\"#7fb8a6\" />\n      <text x=\""@ + r.rust_val_x@ + "\" y=\""@ + r.rust_y@ + "\" class=\"label-val\">"@ + r.rust_p50@ + " ms ("@ + r.rust_rps@ + " req/s)</text>\n\n      <!-- Python Bar -->\n      <text x=\"50\" y=\""@ + r.py_y@ + "\" class=\"label-lang-py\">CPython 3.12:</text>\n      <rect x=\"180\" y=\""@ + r.py_rect_y@ + "\" width=\""@ + r.py_w@ + "\" height=\"18\" rx=\"3\" fill=\"#d7755d\" />\n      <text x=\""@ + r.py_val_x@ + "\" y=\""@ + r.py_y@ + "\" class=\"label-val\">"@ + r.py_p50@ + " ms ("@ + r.py_rps@), " req/s)</text>\n\n      <!-- Badge -->\n      <text x=\"820\" y=\""@ + r.badge_y@ + "\" class=\"badge-speedup\">"@ + r.speedup@ + "x Faster</text>\n      <text x=\"820\" y=\""@);
        lemma_contains_extend("\n    <g class=\"lfl-row\">\n      <text x=\"30\" y=\""@ + r.label_y@ + "\" class=\"label-service\">"@ + r.category@ + ": "@ + r.workload@ + "</text>\n      <!-- Rust Bar -->\n      <text x=\"50\" y=\""@ + r.rust_y@ + "\" class=\"label-lang-rust\">Rust Native:</text>\n      <rect x=\"180\" y=\""@ + r.rust_rect_y@ + "\" width=\""@ + r.rust_w@ + "\" height=\"18\" rx=\"3\" fill=\"#7fb8a6\" />\n      <text x=\""@ + r.rust_val_x@ + "\" y=\""@ + r.rust_y@ + "\" class=\"label-val\">"@ + r.rust_p50@ + " ms ("@ + r.rust_rps@ + " req/s)</text>\n\n      <!-- Python Bar -->\n      <text x=\"50\" y=\""@ + r.py_y@ + "\" class=\"label-lang-py\">CPython 3.12:</text>\n      <rect x=\"180\" y=\""@ + r.py_rect_y@ + "\" width=\""@ + r.py_w@ + "\" height=\"18\" rx=\"3\" fill=\"#d7755d\" />\n      <text x=\""@ + r.py_val_x@ + "\" y=\""@ + r.py_y@ + "\" class=\"label-val\">"@ + r.py_p50@ + " ms ("@ + r.py_rps@ + " req/s)</text>\n\n      <!-- Badge -->\n      <text x=\"820\" y=\""@ + r.badge_y@ + "\" class=\"badge-speedup\">"@ + r.speedup@ + "x Faster</text>\n      <text x=\"820\" y=\""@, r.badge_mem_y@, " req/s)</text>\n\n      <!-- Badge -->\n      <text x=\"820\" y=\""@ + r.badge_y@ + "\" class=\"badge-speedup\">"@ + r.speedup@ + "x Faster</text>\n      <text x=\"820\" y=\""@);
        lemma_contains_extend("\n    <g class=\"lfl-row\">\n      <text x=\"30\" y=\""@ + r.label_y@ + "\" class=\"label-service\">"@ + r.category@ + ": "@ + r.workload@ + "</text>\n      <!-- Rust Bar -->\n      <text x=\"50\" y=\""@ + r.rust_y@ + "\" class=\"label-lang-rust\">Rust Native:</text>\n      <rect x=\"180\" y=\""@ + r.rust_rect_y@ + "\" width=\""@ + r.rust_w@ + "\" height=\"18\" rx=\"3\" fill=\"#7fb8a6\" />\n      <text x=\""@ + r.rust_val_x@ + "\" y=\""@ + r.rust_y@ + "\" class=\"label-val\">"@ + r.rust_p50@ + " ms ("@ + r.rust_rps@ + " req/s)</text>\n\n      <!-- Python Bar -->\n      <text x=\"50\" y=\""@ + r.py_y@ + "\" class=\"label-lang-py\">CPython 3.12:</text>\n      <rect x=\"180\" y=\""@ + r.py_rect_y@ + "\" width=\""@ + r.py_w@ + "\" height=\"18\" rx=\"3\" fill=\"#d7755d\" />\n      <text x=\""@ + r.py_val_x@ + "\" y=\""@ + r.py_y@ + "\" class=\"label-val\">"@ + r.py_p50@ + " ms ("@ + r.py_rps@ + " req/s)</text>\n\n      <!-- Badge -->\n      <text x=\"820\" y=\""@ + r.badge_y@ + "\" class=\"badge-speedup\">"@ + r.speedup@ + "x Faster</text>\n      <text x=\"820\" y=\""@ + r.badge_mem_y@, "\" class=\"badge-mem\">(-"@, " req/s)</text>\n\n      <!-- Badge -->\n      <text x=\"820\" y=\""@ + r.badge_y@ + "\" class=\"badge-speedup\">"@ + r.speedup@ + "x Faster</text>\n      <text x=\"820\" y=\""@);
        lemma_contains_extend("\n    <g class=\"lfl-row\">\n      <text x=\"30\" y=\""@ + r.label_y@ + "\" class=\"label-service\">"@ + r.category@ + ": "@ + r.workload@ + "</text>\n      <!-- Rust Bar -->\n      <text x=\"50\" y=\""@ + r.rust_y@ + "\" class=\"label-lang-rust\">Rust Native:</text>\n      <rect x=\"180\" y=\""@ + r.rust_rect_y@ + "\" width=\""@ + r.rust_w@ + "\" height=\"18\" rx=\"3\" fill=\"#7fb8a6\" />\n      <text x=\""@ + r.rust_val_x@ + "\" y=\""@ + r.rust_y@ + "\" class=\"label-val\">"@ + r.rust_p50@ + " ms ("@ + r.rust_rps@ + " req/s)</text>\n\n      <!-- Python Bar -->\n      <text x=\"50\" y=\""@ + r.py_y@ + "\" class=\"label-lang-py\">CPython 3.12:</text>\n      <rect x=\"180\" y=\""@ + r.py_rect_y@ + "\" width=\""@ + r.py_w@ + "\" height=\"18\" rx=\"3\" fill=\"#d7755d\" />\n      <text x=\""@ + r.py_val_x@ + "\" y=\""@ + r.py_y@ + "\" class=\"label-val\">"@ + r.py_p50@ + " ms ("@ + r.py_rps@ + " req/s)</text>\n\n      <!-- Badge -->\n      <text x=\"820\" y=\""@ + r.badge_y@ + "\" class=\"badge-speedup\">"@ + r.speedup@ + "x Faster</text>\n      <text x=\"820\" y=\""@ + r.badge_mem_y@ + "\" class=\"badge-mem\">(-"@, r.mem_pct@, " req/s)</text>\n\n      <!-- Badge -->\n      <text x=\"820\" y=\""@ + r.badge_y@ + "\" class=\"badge-speedup\">"@ + r.speedup@ + "x Faster</text>\n      <text x=\"820\" y=\""@);
        lemma_contains_extend("\n    <g class=\"lfl-row\">\n      <text x=\"30\" y=\""@ + r.label_y@ + "\" class=\"label-service\">"@ + r.category@ + ": "@ + r.workload@ + "</text>\n      <!-- Rust Bar -->\n      <text x=\"50\" y=\""@ + r.rust_y@ + "\" class=\"label-lang-rust\">Rust Native:</text>\n      <rect x=\"180\" y=\""@ + r.rust_rect_y@ + "\" width=\""@ + r.rust_w@ + "\" height=\"18\" rx=\"3\" fill=\"#7fb8a6\" />\n      <text x=\""@ + r.rust_val_x@ + "\" y=\""@ + r.rust_y@ + "\" class=\"label-val\">"@ + r.rust_p50@ + " ms ("@ + r.rust_rps@ + " req/s)</text>\n\n      <!-- Python Bar -->\n      <text x=\"50\" y=\""@ + r.py_y@ + "\" class=\"label-lang-py\">CPython 3.12:</text>\n      <rect x=\"180\" y=\""@ + r.py_rect_y@ + "\" width=\""@ + r.py_w@ + "\" height=\"18\" rx=\"3\" fill=\"#d7755d\" />\n      <text x=\""@ + r.py_val_x@ + "\" y=\""@ + r.py_y@ + "\" class=\"label-val\">"@ + r.py_p50@ + " ms ("@ + r.py_rps@ + " req/s)</text>\n\n      <!-- Badge -->\n      <text x=\"820\" y=\""@ + r.badge_y@ + "\" class=\"badge-speedup\">"@ + r.speedup@ + "x Faster</text>\n      <text x=\"820\" y=\""@ + r.badge_mem_y@ + "\" class=\"badge-mem\">(-"@ + r.mem_pct@, "% RAM)</text>\n    </g>"@, " req/s)</text>\n\n      <!-- Badge -->\n      <text x=\"820\" y=\""@ + r.badge_y@ + "\" class=\"badge-speedup\">"@ + r.speedup@ + "x Faster</text>\n      <text x=\"820\" y=\""@);
    }
    assert(contains_seq(like_for_like_row_text(r), "x Faster</text>\n      <text x=\"820\" y=\""@ + r.badge_mem_y@ + "\" class=\"badge-mem\">(-"@ + r.mem_pct@ + "% RAM)</text>\n    </g>"@)) by {
        lemma_concat_associative(("\n    <g class=\"lfl-row\">\n      <text x=\"30\" y=\""@ + r.label_y@ + "\" class=\"label-service\">"@ + r.category@ + ": "@ + r.workload@ + "</text>\n      <!-- Rust Bar -->\n      <text x=\"50\" y=\""@ + r.rust_y@ + "\" class=\"label-lang-rust\">Rust Native:</text>\n      <rect x=\"180\" y=\""@ + r.rust_rect_y@ + "\" width=\""@ + r.rust_w@ + "\" height=\"18\" rx=\"3\" fill=\"#7fb8a6\" />\n      <text x=\""@ + r.rust_val_x@ + "\" y=\""@ + r.rust_y@ + "\" class=\"label-val\">"@ + r.rust_p50@ + " ms ("@ + r.rust_rps@ + " req/s)</text>\n\n      <!-- Python Bar -->\n      <text x=\"50\" y=\""@ + r.py_y@ + "\" class=\"label-lang-py\">CPython 3.12:</text>\n      <rect x=\"180\" y=\""@ + r.py_rect_y@ + "\" width=\""@ + r.py_w@ + "\" height=\"18\" rx=\"3\" fill=\"#d7755d\" />\n      <text x=\""@ + r.py_val_x@ + "\" y=\""@ + r.py_y@ + "\" class=\"label-val\">"@ + r.py_p50@ + " ms ("@ + r.py_rps@ + " req/s)</text>\n\n      <!-- Badge -->\n      <text x=\"820\" y=\""@ + r.badge_y@ + "\" class=\"badge-speedup\">"@ + r.speedup@), "x Faster</text>\n      <text x=\"820\" y=\""@, r.badge_mem_y@);
        assert(("\n    <g class=\"lfl-row\">\n      <text x=\"30\" y=\""@ + r.label_y@ + "\" class=\"label-service\">"@ + r.category@ + ": "@ + r.workload@ + "</text>\n      <!-- Rust Bar -->\n      <text x=\"50\" y=\""@ + r.rust_y@ + "\" class=\"label-lang-rust\">Rust Native:</text>\n      <rect x=\"180\" y=\""@ + r.rust_rect_y@ + "\" width=\""@ + r.rust_w@ + "\" height=\"18\" rx=\"3\" fill=\"#7fb8a6\" />\n      <text x=\""@ + r.rust_val_x@ + "\" y=\""@ + r.rust_y@ + "\" class=\"label-val\">"@ + r.rust_p50@ + " ms ("@ + r.rust_rps@ + " req/s)</text>\n\n      <!-- Python Bar -->\n      <text x=\"50\" y=\""@ + r.py_y@ + "\" class=\"label-lang-py\">CPython 3.12:</text>\n      <rect x=\"180\" y=\""@ + r.py_rect_y@ + "\" width=\""@ + r.py_w@ + "\" height=\"18\" rx=\"3\" fill=\"#d7755d\" />\n      <text x=\""@ + r.py_val_x@ + "\" y=\""@ + r.py_y@ + "\" class=\"label-val\">"@ + r.py_p50@ + " ms ("@ + r.py_rps@ + " req/s)</text>\n\n      <!-- Badge -->\n      <text x=\"820\" y=\""@ + r.badge_y@ + "\" class=\"badge-speedup\">"@ + r.speedup@) + ("x Faster</text>\n      <text x=\"820\" y=\""@ + r.badge_mem_y@) == "\n    <g class=\"lfl-row\">\n      <text x=\"30\" y=\""@ + r.label_y@ + "\" class=\"label-service\">"@ + r.category@ + ": "@ + r.workload@ + "</text>\n      <!-- Rust Bar -->\n      <text x=\"50\" y=\""@ + r.rust_y@ + "\" class=\"label-lang-rust\">Rust Native:</text>\n      <rect x=\"180\" y=\""@ + r.rust_rect_y@ + "\" width=\""@ + r.rust_w@ + "\" height=\"18\" rx=\"3\" fill=\"#7fb8a6\" />\n      <text x=\""@ + r.rust_val_x@ + "\" y=\""@ + r.rust_y@ + "\" class=\"label-val\">"@ + r.rust_p50@ + " ms ("@ + r.rust_rps@ + " req/s)</text>\n\n      <!-- Python Bar -->\n      <text x=\"50\" y=\""@ + r.py_y@ + "\" class=\"label-lang-py\">CPython 3.12:</text>\n      <rect x=\"180\" y=\""@ + r.py_rect_y@ + "\" width=\""@ + r.py_w@ + "\" height=\"18\" rx=\"3\" fill=\"#d7755d\" />\n      <text x=\""@ + r.py_val_x@ + "\" y=\""@ + r.py_y@ + "\" class=\"label-val\">"@ + r.py_p50@ + " ms ("@ + r.py_rps@ + " req/s)</text>\n\n      <!-- Badge -->\n      <text x=\"820\" y=\""@ + r.badge_y@ + "\" class=\"badge-speedup\">"@ + r.speedup@ + "x Faster</text>\n      <text x=\"820\" y=\""@ + r.badge_mem_y@);
        lemma_concat_associative(("\n    <g class=\"lfl-row\">\n      <text x=\"30\" y=\""@ + r.label_y@ + "\" class=\"label-service\">"@ + r.category@ + ": "@ + r.workload@ + "</text>\n      <!-- Rust Bar -->\n      <text x=\"50\" y=\""@ + r.rust_y@ + "\" class=\"label-lang-rust\">Rust Native:</text>\n      <rect x=\"180\" y=\""@ + r.rust_rect_y@ + "\" width=\""@ + r.rust_w@ + "\" height=\"18\" rx=\"3\" fill=\"#7fb8a6\" />\n      <text x=\""@ + r.rust_val_x@ + "\" y=\""@ + r.rust_y@ + "\" class=\"label-val\">"@ + r.rust_p50@ + " ms ("@ + r.rust_rps@ + " req/s)</text>\n\n      <!-- Python Bar -->\n      <text x=\"50\" y=\""@ + r.py_y@ + "\" class=\"label-lang-py\">CPython 3.12:</text>\n      <rect x=\"180\" y=\""@ + r.py_rect_y@ + "\" width=\""@ + r.py_w@ + "\" height=\"18\" rx=\"3\" fill=\"#d7755d\" />\n      <text x=\""@ + r.py_val_x@ + "\" y=\""@ + r.py_y@ + "\" class=\"label-val\">"@ + r.py_p50@ + " ms ("@ + r.py_rps@ + " req/s)</text>\n\n      <!-- Badge -->\n      <text x=\"820\" y=\""@ + r.badge_y@ + "\" class=\"badge-speedup\">"@ + r.speedup@), "x Faster</text>\n      <text x=\"820\" y=\""@ + r.badge_mem_y@, "\" class=\"badge-mem\">(-"@);
        assert(("\n    <g class=\"lfl-row\">\n      <text x=\"30\" y=\""@ + r.label_y@ + "\" class=\"label-service\">"@ + r.category@ + ": "@ + r.workload@ + "</text>\n      <!-- Rust Bar -->\n      <text x=\"50\" y=\""@ + r.rust_y@ + "\" class=\"label-lang-rust\">Rust Native:</text>\n      <rect x=\"180\" y=\""@ + r.rust_rect_y@ + "\" width=\""@ + r.rust_w@ + "\" height=\"18\" rx=\"3\" fill=\"#7fb8a6\" />\n      <text x=\""@ + r.rust_val_x@ + "\" y=\""@ + r.rust_y@ + "\" class=\"label-val\">"@ + r.rust_p50@ + " ms ("@ + r.rust_rps@ + " req/s)</text>\n\n      <!-- Python Bar -->\n      <text x=\"50\" y=\""@ + r.py_y@ + "\" class=\"label-lang-py\">CPython 3.12:</text>\n      <rect x=\"180\" y=\""@ + r.py_rect_y@ + "\" width=\""@ + r.py_w@ + "\" height=\"18\" rx=\"3\" fill=\"#d7755d\" />\n      <text x=\""@ + r.py_val_x@ + "\" y=\""@ + r.py_y@ + "\" class=\"label-val\">"@ + r.py_p50@ + " ms ("@ + r.py_rps@ + " req/s)</text>\n\n      <!-- Badge -->\n      <text x=\"820\" y=\""@ + r.badge_y@ + "\" class=\"badge-speedup\">"@ + r.speedup@) + ("x Faster</text>\n      <text x=\"820\" y=\""@ + r.badge_mem_y@ + "\" class=\"badge-mem\">(-"@) == "\n    <g class=\"lfl-row\">\n      <text x=\"30\" y=\""@ + r.label_y@ + "\" class=\"label-service\">"@ + r.category@ + ": "@ + r.workload@ + "</text>\n      <!-- Rust Bar -->\n      <text x=\"50\" y=\""@ + r.rust_y@ + "\" class=\"label-lang-rust\">Rust Native:</text>\n      <rect x=\"180\" y=\""@ + r.rust_rect_y@ + "\" width=\""@ + r.rust_w@ + "\" height=\"18\" rx=\"3\" fill=\"#7fb8a6\" />\n      <text x=\""@ + r.rust_val_x@ + "\" y=\""@ + r.rust_y@ + "\" class=\"label-val\">"@ + r.rust_p50@ + " ms ("@ + r.rust_rps@ + " req/s)</text>\n\n      <!-- Python Bar -->\n      <text x=\"50\" y=\""@ + r.py_y@ + "\" class=\"label-lang-py\">CPython 3.12:</text>\n      <rect x=\"180\" y=\""@ + r.py_rect_y@ + "\" width=\""@ + r.py_w@ + "\" height=\"18\" rx=\"3\" fill=\"#d7755d\" />\n      <text x=\""@ + r.py_val_x@ + "\" y=\""@ + r.py_y@ + "\" class=\"label-val\">"@ + r.py_p50@ + " ms ("@ + r.py_rps@ + " req/s)</text>\n\n      <!-- Badge -->\n      <text x=\"820\" y=\""@ + r.badge_y@ + "\" class=\"badge-speedup\">"@ + r.speedup@ + "x Faster</text>\n      <text x=\"820\" y=\""@ + r.badge_mem_y@ + "\" class=\"badge-mem\">(-"@);
        lemma_concat_associative(("\n    <g class=\"lfl-row\">\n      <text x=\"30\" y=\""@ + r.label_y@ + "\" class=\"label-service\">"@ + r.category@ + ": "@ + r.workload@ + "</text>\n      <!-- Rust Bar -->\n      <text x=\"50\" y=\""@ + r.rust_y@ + "\" class=\"label-lang-rust\">Rust Native:</text>\n      <rect x=\"180\" y=\""@ + r.rust_rect_y@ + "\" width=\""@ + r.rust_w@ + "\" height=\"18\" rx=\"3\" fill=\"#7fb8a6\" />\n      <text x=\""@ + r.rust_val_x@ + "\" y=\""@ + r.rust_y@ + "\" class=\"label-val\">"@ + r.rust_p50@ + " ms ("@ + r.rust_rps@ + " req/s)</text>\n\n      <!-- Python Bar -->\n      <text x=\"50\" y=\""@ + r.py_y@ + "\" class=\"label-lang-py\">CPython 3.12:</text>\n      <rect x=\"180\" y=\""@ + r.py_rect_y@ + "\" width=\""@ + r.py_w@ + "\" height=\"18\" rx=\"3\" fill=\"#d7755d\" />\n      <text x=\""@ + r.py_val_x@ + "\" y=\""@ + r.py_y@ + "\" class=\"label-val\">"@ + r.py_p50@ + " ms ("@ + r.py_rps@ + " req/s)</text>\n\n      <!-- Badge -->\n      <text x=\"820\" y=\""@ + r.badge_y@ + "\" class=\"badge-speedup\">"@ + r.speedup@), "x Faster</text>\n      <text x=\"820\" y=\""@ + r.badge_mem_y@ + "\" class=\"badge-mem\">(-"@, r.mem_pct@);
        assert(("\n    <g class=\"lfl-row\">\n      <text x=\"30\" y=\""@ + r.label_y@ + "\" class=\"label-service\">"@ + r.category@ + ": "@ + r.workload@ + "</text>\n      <!-- Rust Bar -->\n      <text x=\"50\" y=\""@ + r.rust_y@ + "\" class=\"label-lang-rust\">Rust Native:</text>\n      <rect x=\"180\" y=\""@ + r.rust_rect_y@ + "\" width=\""@ + r.rust_w@ + "\" height=\"18\" rx=\"3\" fill=\"#7fb8a6\" />\n      <text x=\""@ + r.rust_val_x@ + "\" y=\""@ + r.rust_y@ + "\" class=\"label-val\">"@ + r.rust_p50@ + " ms ("@ + r.rust_rps@ + " req/s)</text>\n\n      <!-- Python Bar -->\n      <text x=\"50\" y=\""@ + r.py_y@ + "\" class=\"label-lang-py\">CPython 3.12:</text>\n      <rect x=\"180\" y=\""@ + r.py_rect_y@ + "\" width=\""@ + r.py_w@ + "\" height=\"18\" rx=\"3\" fill=\"#d7755d\" />\n      <text x=\""@ + r.py_val_x@ + "\" y=\""@ + r.py_y@ + "\" class=\"label-val\">"@ + r.py_p50@ + " ms ("@ + r.py_rps@ + " req/s)</text>\n\n      <!-- Badge -->\n      <text x=\"820\" y=\""@ + r.badge_y@ + "\" class=\"badge-speedup\">"@ + r.speedup@) + ("x Faster</text>\n      <text x=\"820\" y=\""@ + r.badge_mem_y@ + "\" class=\"badge-mem\">(-"@ + r.mem_pct@) == "\n    <g class=\"lfl-row\">\n      <text x=\"30\" y=\""@ + r.label_y@ + "\" class=\"label-service\">"@ + r.category@ + ": "@ + r.workload@ + "</text>\n      <!-- Rust Bar -->\n      <text x=\"50\" y=\""@ + r.rust_y@ + "\" class=\"label-lang-rust\">Rust Native:</text>\n      <rect x=\"180\" y=\""@ + r.rust_rect_y@ + "\" width=\""@ + r.rust_w@ + "\" height=\"18\" rx=\"3\" fill=\"#7fb8a6\" />\n      <text x=\""@ + r.rust_val_x@ + "\" y=\""@ + r.rust_y@ + "\" class=\"label-val\">"@ + r.rust_p50@ + " ms ("@ + r.rust_rps@ + " req/s)</text>\n\n      <!-- Python Bar -->\n      <text x=\"50\" y=\""@ + r.py_y@ + "\" class=\"label-lang-py\">CPython 3.12:</text>\n      <rect x=\"180\" y=\""@ + r.py_rect_y@ + "\" width=\""@ + r.py_w@ + "\" height=\"18\" rx=\"3\" fill=\"#d7755d\" />\n      <text x=\""@ + r.py_val_x@ + "\" y=\""@ + r.py_y@ + "\" class=\"label-val\">"@ + r.py_p50@ + " ms ("@ + r.py_rps@ + " req/s)</text>\n\n      <!-- Badge -->\n      <text x=\"820\" y=\""@ + r.badge_y@ + "\" class=\"badge-speedup\">"@ + r.speedup@ + "x Faster</text>\n      <text x=\"820\" y=\""@ + r.badge_mem_y@ + "\" class=\"badge-mem\">(-"@ + r.mem_pct@);
        lemma_concat_associative(("\n    <g class=\"lfl-row\">\n      <text x=\"30\" y=\""@ + r.label_y@ + "\" class=\"label-service\">"@ + r.category@ + ": "@ + r.workload@ + "</text>\n      <!-- Rust Bar -->\n      <text x=\"50\" y=\""@ + r.rust_y@ + "\" class=\"label-lang-rust\">Rust Native:</text>\n      <rect x=\"180\" y=\""@ + r.rust_rect_y@ + "\" width=\""@ + r.rust_w@ + "\" height=\"18\" rx=\"3\" fill=\"#7fb8a6\" />\n      <text x=\""@ + r.rust_val_x@ + "\" y=\""@ + r.rust_y@ + "\" class=\"label-val\">"@ + r.rust_p50@ + " ms ("@ + r.rust_rps@ + " req/s)</text>\n\n      <!-- Python Bar -->\n      <text x=\"50\" y=\""@ + r.py_y@ + "\" class=\"label-lang-py\">CPython 3.12:</text>\n      <rect x=\"180\" y=\""@ + r.py_rect_y@ + "\" width=\""@ + r.py_w@ + "\" height=\"18\" rx=\"3\" fill=\"#d7755d\" />\n      <text x=\""@ + r.py_val_x@ + "\" y=\""@ + r.py_y@ + "\" class=\"label-val\">"@ + r.py_p50@ + " ms ("@ + r.py_rps@ + " req/s)</text>\n\n      <!-- Badge -->\n      <text x=\"820\" y=\""@ + r.badge_y@ + "\" class=\"badge-speedup\">"@ + r.speedup@), "x Faster</text>\n      <text x=\"820\" y=\""@ + r.badge_mem_y@ + "\" class=\"badge-mem\">(-"@ + r.mem_pct@, "% RAM)</text>\n    </g>"@);
        assert(("\n    <g class=\"lfl-row\">\n      <text x=\"30\" y=\""@ + r.label_y@ + "\" class=\"label-service\">"@ + r.category@ + ": "@ + r.workload@ + "</text>\n      <!-- Rust Bar -->\n      <text x=\"50\" y=\""@ + r.rust_y@ + "\" class=\"label-lang-rust\">Rust Native:</text>\n      <rect x=\"180\" y=\""@ + r.rust_rect_y@ + "\" width=\""@ + r.rust_w@ + "\" height=\"18\" rx=\"3\" fill=\"#7fb8a6\" />\n      <text x=\""@ + r.rust_val_x@ + "\" y=\""@ + r.rust_y@ + "\" class=\"label-val\">"@ + r.rust_p50@ + " ms ("@ + r.rust_rps@ + " req/s)</text>\n\n      <!-- Python Bar -->\n      <text x=\"50\" y=\""@ + r.py_y@ + "\" class=\"label-lang-py\">CPython 3.12:</text>\n      <rect x=\"180\" y=\""@ + r.py_rect_y@ + "\" width=\""@ + r.py_w@ + "\" height=\"18\" rx=\"3\" fill=\"#d7755d\" />\n      <text x=\""@ + r.py_val_x@ + "\" y=\""@ + r.py_y@ + "\" class=\"label-val\">"@ + r.py_p50@ + " ms ("@ + r.py_rps@ + " req/s)</text>\n\n      <!-- Badge -->\n      <text x=\"820\" y=\""@ + r.badge_y@ + "\" class=\"badge-speedup\">"@ + r.speedup@) + ("x Faster</text>\n      <text x=\"820\" y=\""@ + r.badge_mem_y@ + "\" class=\"badge-mem\">(-"@ + r.mem_pct@ + "% RAM)</text>\n    </g>"@) == "\n    <g class=\"lfl-row\">\n      <text x=\"30\" y=\""@ + r.label_y@ + "\" class=\"label-service\">"@ + r.category@ + ": "@ + r.workload@ + "</text>\n      <!-- Rust Bar -->\n      <text x=\"50\" y=\""@ + r.rust_y@ + "\" class=\"label-lang-rust\">Rust Native:</text>\n      <rect x=\"180\" y=\""@ + r.rust_rect_y@ + "\" width=\""@ + r.rust_w@ + "\" height=\"18\" rx=\"3\" fill=\"#7fb8a6\" />\n      <text x=\""@ + r.rust_val_x@ + "\" y=\""@ + r.rust_y@ + "\" class=\"label-val\">"@ + r.rust_p50@ + " ms ("@ + r.rust_rps@ + " req/s)</text>\n\n      <!-- Python Bar -->\n      <text x=\"50\" y=\""@ + r.py_y@ + "\" class=\"label-lang-py\">CPython 3.12:</text>\n      <rect x=\"180\" y=\""@ + r.py_rect_y@ + "\" width=\""@ + r.py_w@ + "\" height=\"18\" rx=\"3\" fill=\"#d7755d\" />\n      <text x=\""@ + r.py_val_x@ + "\" y=\""@ + r.py_y@ + "\" class=\"label-val\">"@ + r.py_p50@ + " ms ("@ + r.py_rps@ + " req/s)</text>\n\n      <!-- Badge -->\n      <text x=\"820\" y=\""@ + r.badge_y@ + "\" class=\"badge-speedup\">"@ + r.speedup@ + "x Faster</text>\n      <text x=\"820\" y=\""@ + r.badge_mem_y@ + "\" class=\"badge-mem\">(-"@ + r.mem_pct@ + "% RAM)</text>\n    </g>"@);
        lemma_contains_tail(("\n    <g class=\"lfl-row\">\n      <text x=\"30\" y=\""@ + r.label_y@ + "\" class=\"label-service\">"@ + r.category@ + ": "@ + r.workload@ + "</text>\n      <!-- Rust Bar -->\n      <text x=\"50\" y=\""@ + r.rust_y@ + "\" class=\"label-lang-rust\">Rust Native:</text>\n      <rect x=\"180\" y=\""@ + r.rust_rect_y@ + "\" width=\""@ + r.rust_w@ + "\" height=\"18\" rx=\"3\" fill=\"#7fb8a6\" />\n      <text x=\""@ + r.rust_val_x@ + "\" y=\""@ + r.rust_y@ + "\" class=\"label-val\">"@ + r.rust_p50@ + " ms ("@ + r.rust_rps@ + " req/s)</text>\n\n      <!-- Python Bar -->\n      <text x=\"50\" y=\""@ + r.py_y@ + "\" class=\"label-lang-py\">CPython 3.12:</text>\n      <rect x=\"180\" y=\""@ + r.py_rect_y@ + "\" width=\""@ + r.py_w@ + "\" height=\"18\" rx=\"3\" fill=\"#d7755d\" />\n      <text x=\""@ + r.py_val_x@ + "\" y=\""@ + r.py_y@ + "\" class=\"label-val\">"@ + r.py_p50@ + " ms ("@ + r.py_rps@ + " req/s)</text>\n\n      <!-- Badge -->\n      <text x=\"820\" y=\""@ + r.badge_y@ + "\" class=\"badge-speedup\">"@ + r.speedup@), "x Faster</text>\n      <text x=\"820\" y=\""@ + r.badge_mem_y@ + "\" class=\"badge-mem\">(-"@ + r.mem_pct@ + "% RAM)</text>\n    </g>"@);
    }
}

/// Each line of a pressure row carries its own fields in their places: the row holds every
/// line of its markup (from one line break to the next) with the record's fields inserted.
pub proof fn lemma_pressure_row_lines(r: PressureRowText)
    ensures
        contains_seq(
            pressure_row_text(r),
            "\n    <g class=\"tier-row\">\n      <text x=\"30\" y=\""@
                + r.y@
                + "\" class=\"label-concurrency\">Concurrency = "@
                + r.concurrency@
                + "</text>\n      <rect x=\"220\" y=\""@,
        ),
        contains_seq(
            pressure_row_text(r),
            "</text>\n      <rect x=\"220\" y=\""@
                + r.rect_ttft_y@
                + "\" width=\""@
                + r.ttft_w@
                + "\" height=\"14\" rx=\"3\" fill=\"#7fb8a6\" />\n      <rect x=\"220\" y=\""@,
        ),
        contains_seq(
            pressure_row_text(r),
            "\" height=\"14\" rx=\"3\" fill=\"#7fb8a6\" />\n      <rect x=\"220\" y=\""@
                + r.rect_itl_y@
                + "\" width=\""@
                + r.itl_w@
                + "\" height=\"14\" rx=\"3\" fill=\"#6ba4d9\" />\n      <text x=\""@,
        ),
        contains_seq(
            pressure_row_text(r),
            "\" height=\"14\" rx=\"3\" fill=\"#6ba4d9\" />\n      <text x=\""@
                + r.ttft_val_x@
                + "\" y=\""@
                + r.y_ttft_text@
                + "\" class=\"label-stat\">TTFT "@
                + r.ttft@
                + "ms</text>\n      <text x=\""@,
        ),
        contains_seq(
            pressure_row_text(r),
            "ms</text>\n      <text x=\""@
                + r.itl_val_x@
                + "\" y=\""@
                + r.y_itl_text@
                + "\" class=\"label-stat\">ITL "@
                + r.itl@
                + "ms</text>\n      <text x=\"760\" y=\""@,
        ),
        contains_seq(
            pressure_row_text(r),
            "ms</text>\n      <text x=\"760\" y=\""@
                + r.y@
                + "\" class=\"badge-tps\">"@
                + r.tps@
                + " tok/s</text>\n      <text x=\"920\" y=\""@,
        ),
        contains_seq(
            pressure_row_text(r),
            " tok/s</text>\n      <text x=\"920\" y=\""@
                + r.y@
                + "\" class=\"badge-power\">"@
                + r.power@
                + "W ("@
                + r.joules@
                + " J/tok)</text>\n    </g>"@,
        ),
{
    assert(contains_seq(pressure_row_text(r), "\n    <g class=\"tier-row\">\n      <text x=\"30\" y=\""@ + r.y@ + "\" class=\"label-concurrency\">Concurrency = "@ + r.concurrency@ + "</text>\n      <rect x=\"220\" y=\""@)) by {
        lemma_contains_self("\n    <g class=\"tier-row\">\n      <text x=\"30\" y=\""@ + r.y@ + "\" class=\"label-concurrency\">Concurrency = "@ + r.concurrency@ + "</text>\n      <rect x=\"220\" y=\""@);
        lemma_contains_extend("\n    <g class=\"tier-row\">\n      <text x=\"30\" y=\""@ + r.y@ + "\" class=\"label-concurrency\">Concurrency = "@ + r.concurrency@ + "</text>\n      <rect x=\"220\" y=\""@, r.rect_ttft_y@, "\n    <g class=\"tier-row\">\n      <text x=\"30\" y=\""@ + r.y@ + "\" class=\"label-concurrency\">Concurrency = "@ + r.concurrency@ + "</text>\n      <rect x=\"220\" y=\""@);
        lemma_contains_extend("\n    <g class=\"tier-row\">\n      <text x=\"30\" y=\""@ + r.y@ + "\" class=\"label-concurrency\">Concurrency = "@ + r.concurrency@ + "</text>\n      <rect x=\"220\" y=\""@ + r.rect_ttft_y@, "\" width=\""@, "\n    <g class=\"tier-row\">\n      <text x=\"30\" y=\""@ + r.y@ + "\" class=\"label-concurrency\">Concurrency = "@ + r.concurrency@ + "</text>\n      <rect x=\"220\" y=\""@);
        lemma_contains_extend("\n    <g class=\"tier-row\">\n      <text x=\"30\" y=\""@ + r.y@ + "\" class=\"label-concurrency\">Concurrency = "@ + r.concurrency@ + "</text>\n      <rect x=\"220\" y=\""@ + r.rect_ttft_y@ + "\" width=\""@, r.ttft_w@, "\n    <g class=\"tier-row\">\n      <text x=\"30\" y=\""@ + r.y@ + "\" class=\"label-concurrency\">Concurrency = "@ + r.concurrency@ + "</text>\n      <rect x=\"220\" y=\""@);
        lemma_contains_extend("\n    <g class=\"tier-row\">\n      <text x=\"30\" y=\""@ + r.y@ + "\" class=\"label-concurrency\">Concurrency = "@ + r.concurrency@ + "</text>\n      <rect x=\"220\" y=\""@ + r.rect_ttft_y@ + "\" width=\""@ + r.ttft_w@, "\" height=\"14\" rx=\"3\" fill=\"#7fb8a6\" />\n      <rect x=\"220\" y=\""@, "\n    <g class=\"tier-row\">\n      <text x=\"30\" y=\""@ + r.y@ + "\" class=\"label-concurrency\">Concurrency = "@ + r.concurrency@ + "</text>\n      <rect x=\"220\" y=\""@);
        lemma_contains_extend("\n    <g class=\"tier-row\">\n      <text x=\"30\" y=\""@ + r.y@ + "\" class=\"label-concurrency\">Concurrency = "@ + r.concurrency@ + "</text>\n      <rect x=\"220\" y=\""@ + r.rect_ttft_y@ + "\" width=\""@ + r.ttft_w@ + "\" height=\"14\" rx=\"3\" fill=\"#7fb8a6\" />\n      <rect x=\"220\" y=\""@, r.rect_itl_y@, "\n    <g class=\"tier-row\">\n      <text x=\"30\" y=\""@ + r.y@ + "\" class=\"label-concurrency\">Concurrency = "@ + r.concurrency@ + "</text>\n      <rect x=\"220\" y=\""@);
        lemma_contains_extend("\n    <g class=\"tier-row\">\n      <text x=\"30\" y=\""@ + r.y@ + "\" class=\"label-concurrency\">Concurrency = "@ + r.concurrency@ + "</text>\n      <rect x=\"220\" y=\""@ + r.rect_ttft_y@ + "\" width=\""@ + r.ttft_w@ + "\" height=\"14\" rx=\"3\" fill=\"#7fb8a6\" />\n      <rect x=\"220\" y=\""@ + r.rect_itl_y@, "\" width=\""@, "\n    <g class=\"tier-row\">\n      <text x=\"30\" y=\""@ + r.y@ + "\" class=\"label-concurrency\">Concurrency = "@ + r.concurrency@ + "</text>\n      <rect x=\"220\" y=\""@);
        lemma_contains_extend("\n    <g class=\"tier-row\">\n      <text x=\"30\" y=\""@ + r.y@ + "\" class=\"label-concurrency\">Concurrency = "@ + r.concurrency@ + "</text>\n      <rect x=\"220\" y=\""@ + r.rect_ttft_y@ + "\" width=\""@ + r.ttft_w@ + "\" height=\"14\" rx=\"3\" fill=\"#7fb8a6\" />\n      <rect x=\"220\" y=\""@ + r.rect_itl_y@ + "\" width=\""@, r.itl_w@, "\n    <g class=\"tier-row\">\n      <text x=\"30\" y=\""@ + r.y@ + "\" class=\"label-concurrency\">Concurrency = "@ + r.concurrency@ + "</text>\n      <rect x=\"220\" y=\""@);
        lemma_contains_extend("\n    <g class=\"tier-row\">\n      <text x=\"30\" y=\""@ + r.y@ + "\" class=\"label-concurrency\">Concurrency = "@ + r.concurrency@ + "</text>\n      <rect x=\"220\" y=\""@ + r.rect_ttft_y@ + "\" width=\""@ + r.ttft_w@ + "\" height=\"14\" rx=\"3\" fill=\"#7fb8a6\" />\n      <rect x=\"220\" y=\""@ + r.rect_itl_y@ + "\" width=\""@ + r.itl_w@, "\" height=\"14\" rx=\"3\" fill=\"#6ba4d9\" />\n      <text x=\""@, "\n    <g class=\"tier-row\">\n      <text x=\"30\" y=\""@ + r.y@ + "\" class=\"label-concurrency\">Concurrency = "@ + r.concurrency@ + "</text>\n      <rect x=\"220\" y=\""@);
        lemma_contains_extend("\n    <g class=\"tier-row\">\n      <text x=\"30\" y=\""@ + r.y@ + "\" class=\"label-concurrency\">Concurrency = "@ + r.concurrency@ + "</text>\n      <rect x=\"220\" y=\""@ + r.rect_ttft_y@ + "\" width=\""@ + r.ttft_w@ + "\" height=\"14\" rx=\"3\" fill=\"#7fb8a6\" />\n      <rect x=\"220\" y=\""@ + r.rect_itl_y@ + "\" width=\""@ + r.itl_w@ + "\" height=\"14\" rx=\"3\" fill=\"#6ba4d9\" />\n      <text x=\""@, r.ttft_val_x@, "\n    <g class=\"tier-row\">\n      <text x=\"30\" y=\""@ + r.y@ + "\" class=\"label-concurrency\">Concurrency = "@ + r.concurrency@ + "</text>\n      <rect x=\"220\" y=\""@);
        lemma_contains_extend("\n    <g class=\"tier-row\">\n      <text x=\"30\" y=\""@ + r.y@ + "\" class=\"label-concurrency\">Concurrency = "@ + r.concurrency@ + "</text>\n      <rect x=\"220\" y=\""@ + r.rect_ttft_y@ + "\" width=\""@ + r.ttft_w@ + "\" height=\"14\" rx=\"3\" fill=\"#7fb8a6\" />\n      <rect x=\"220\" y=\""@ + r.rect_itl_y@ + "\" width=\""@ + r.itl_w@ + "\" height=\"14\" rx=\"3\" fill=\"#6ba4d9\" />\n      <text x=\""@ + r.ttft_val_x@, "\" y=\""@, "\n    <g class=\"tier-row\">\n      <text x=\"30\" y=\""@ + r.y@ + "\" class=\"label-concurrency\">Concurrency = "@ + r.concurrency@ + "</text>\n      <rect x=\"220\" y=\""@);
        lemma_contains_extend("\n    <g class=\"tier-row\">\n      <text x=\"30\" y=\""@ + r.y@ + "\" class=\"label-concurrency\">Concurrency = "@ + r.concurrency@ + "</text>\n      <rect x=\"220\" y=\""@ + r.rect_ttft_y@ + "\" width=\""@ + r.ttft_w@ + "\" height=\"14\" rx=\"3\" fill=\"#7fb8a6\" />\n      <rect x=\"220\" y=\""@ + r.rect_itl_y@ + "\" width=\""@ + r.itl_w@ + "\" height=\"14\" rx=\"3\" fill=\"#6ba4d9\" />\n      <text x=\""@ + r.ttft_val_x@ + "\" y=\""@, r.y_ttft_text@, "\n    <g class=\"tier-row\">\n      <text x=\"30\" y=\""@ + r.y@ + "\" class=\"label-concurrency\">Concurrency = "@ + r.concurrency@ + "</text>\n      <rect x=\"220\" y=\""@);
        lemma_contains_extend("\n    <g class=\"tier-row\">\n      <text x=\"30\" y=\""@ + r.y@ + "\" class=\"label-concurrency\">Concurrency = "@ + r.concurrency@ + "</text>\n      <rect x=\"220\" y=\""@ + r.rect_ttft_y@ + "\" width=\""@ + r.ttft_w@ + "\" height=\"14\" rx=\"3\" fill=\"#7fb8a6\" />\n      <rect x=\"220\" y=\""@ + r.rect_itl_y@ + "\" width=\""@ + r.itl_w@ + "\" height=\"14\" rx=\"3\" fill=\"#6ba4d9\" />\n      <text x=\""@ + r.ttft_val_x@ + "\" y=\""@ + r.y_ttft_text@, "\" class=\"label-stat\">TTFT "@, "\n    <g class=\"tier-row\">\n      <text x=\"30\" y=\""@ + r.y@ + "\" class=\"label-concurrency\">Concurrency = "@ + r.concurrency@ + "</text>\n      <rect x=\"220\" y=\""@);
        lemma_contains_extend("\n    <g class=\"tier-row\">\n      <text x=\"30\" y=\""@ + r.y@ + "\" class=\"label-concurrency\">Concurrency = "@ + r.concurrency@ + "</text>\n      <rect x=\"220\" y=\""@ + r.rect_ttft_y@ + "\" width=\""@ + r.ttft_w@ + "\" height=\"14\" rx=\"3\" fill=\"#7fb8a6\" />\n      <rect x=\"220\" y=\""@ + r.rect_itl_y@ + "\" width=\""@ + r.itl_w@ + "\" height=\"14\" rx=\"3\" fill=\"#6ba4d9\" />\n      <text x=\""@ + r.ttft_val_x@ + "\" y=\""@ + r.y_ttft_text@ + "\" class=\"label-stat\">TTFT "@, r.ttft@, "\n    <g class=\"tier-row\">\n      <text x=\"30\" y=\""@ + r.y@ + "\" class=\"label-concurrency\">Concurrency = "@ + r.concurrency@ + "</text>\n      <rect x=\"220\" y=\""@);
        lemma_contains_extend("\n    <g class=\"tier-row\">\n      <text x=\"30\" y=\""@ + r.y@ + "\" class=\"label-concurrency\">Concurrency = "@ + r.concurrency@ + "</text>\n      <rect x=\"220\" y=\""@ + r.rect_ttft_y@ + "\" width=\""@ + r.ttft_w@ + "\" height=\"14\" rx=\"3\" fill=\"#7fb8a6\" />\n      <rect x=\"220\" y=\""@ + r.rect_itl_y@ + "\" width=\""@ + r.itl_w@ + "\" height=\"14\" rx=\"3\" fill=\"#6ba4d9\" />\n      <text x=\""@ + r.ttft_val_x@ + "\" y=\""@ + r.y_ttft_text@ + "\" class=\"label-stat\">TTFT "@ + r.ttft@, "ms</text>\n      <text x=\""@, "\n    <g class=\"tier-row\">\n      <text x=\"30\" y=\""@ + r.y@ + "\" class=\"label-concurrency\">Concurrency = "@ + r.concurrency@ + "</text>\n      <rect x=\"220\" y=\""@);
        lemma_contains_extend("\n    <g class=\"tier-row\">\n      <text x=\"30\" y=\""@ + r.y@ + "\" class=\"label-concurrency\">Concurrency = "@ + r.concurrency@ + "</text>\n      <rect x=\"220\" y=\""@ + r.rect_ttft_y@ + "\" width=\""@ + r.ttft_w@ + "\" height=\"14\" rx=\"3\" fill=\"#7fb8a6\" />\n      <rect x=\"220\" y=\""@ + r.rect_itl_y@ + "\" width=\""@ + r.itl_w@ + "\" height=\"14\" rx=\"3\" fill=\"#6ba4d9\" />\n      <text x=\""@ + r.ttft_val_x@ + "\" y=\""@ + r.y_ttft_text@ + "\" class=\"label-stat\">TTFT "@ + r.ttft@ + "ms</text>\n      <text x=\""@, r.itl_val_x@, "\n    <g class=\"tier-row\">\n      <text x=\"30\" y=\""@ + r.y@ + "\" class=\"label-concurrency\">Concurrency = "@ + r.concurrency@ + "</text>\n      <rect x=\"220\" y=\""@);
        lemma_contains_extend("\n    <g class=\"tier-row\">\n      <text x=\"30\" y=\""@ + r.y@ + "\" class=\"label-concurrency\">Concurrency = "@ + r.concurrency@ + "</text>\n      <rect x=\"220\" y=\""@ + r.rect_ttft_y@ + "\" width=\""@ + r.ttft_w@ + "\" height=\"14\" rx=\"3\" fill=\"#7fb8a6\" />\n      <rect x=\"220\" y=\""@ + r.rect_itl_y@ + "\" width=\""@ + r.itl_w@ + "\" height=\"14\" rx=\"3\" fill=\"#6ba4d9\" />\n      <text x=\""@ + r.ttft_val_x@ + "\" y=\""@ + r.y_ttft_text@ + "\" class=\"label-stat\">TTFT "@ + r.ttft@ + "ms</text>\n      <text x=\""@ + r.itl_val_x@, "\" y=\""@, "\n    <g class=\"tier-row\">\n      <text x=\"30\" y=\""@ + r.y@ + "\" class=\"label-concurrency\">Concurrency = "@ + r.concurrency@ + "</text>\n      <rect x=\"220\" y=\""@);
        lemma_contains_extend("\n    <g class=\"tier-row\">\n      <text x=\"30\" y=\""@ + r.y@ + "\" class=\"label-concurrency\">Concurrency = "@ + r.concurrency@ + "</text>\n      <rect x=\"220\" y=\""@ + r.rect_ttft_y@ + "\" width=\""@ + r.ttft_w@ + "\" height=\"14\" rx=\"3\" fill=\"#7fb8a6\" />\n      <rect x=\"220\" y=\""@ + r.rect_itl_y@ + "\" width=\""@ + r.itl_w@ + "\" height=\"14\" rx=\"3\" fill=\"#6ba4d9\" />\n      <text x=\""@ + r.ttft_val_x@ + "\" y=\""@ + r.y_ttft_text@ + "\" class=\"label-stat\">TTFT "@ + r.ttft@ + "ms</text>\n      <text x=\""@ + r.itl_val_x@ + "\" y=\""@, r.y_itl_text@, "\n    <g class=\"tier-row\">\n      <text x=\"30\" y=\""@ + r.y@ + "\" class=\"label-concurrency\">Concurrency = "@ + r.concurrency@ + "</text>\n      <rect x=\"220\" y=\""@);
        lemma_contains_extend("\n    <g class=\"tier-row\">\n      <text x=\"30\" y=\""@ + r.y@ + "\" class=\"label-concurrency\">Concurrency = "@ + r.concurrency@ + "</text>\n      <rect x=\"220\" y=\""@ + r.rect_ttft_y@ + "\" width=\""@ + r.ttft_w@ + "\" height=\"14\" rx=\"3\" fill=\"#7fb8a6\" />\n      <rect x=\"220\" y=\""@ + r.rect_itl_y@ + "\" width=\""@ + r.itl_w@ + "\" height=\"14\" rx=\"3\" fill=\"#6ba4d9\" />\n      <text x=\""@ + r.ttft_val_x@ + "\" y=\""@ + r.y_ttft_text@ + "\" class=\"label-stat\">TTFT "@ + r.ttft@ + "ms</text>\n      <text x=\""@ + r.itl_val_x@ + "\" y=\""@ + r.y_itl_text@, "\" class=\"label-stat\">ITL "@, "\n    <g class=\"tier-row\">\n      <text x=\"30\" y=\""@ + r.y@ + "\" class=\"label-concurrency\">Concurrency = "@ + r.concurrency@ + "</text>\n      <rect x=\"220\" y=\""@);
        lemma_contains_extend("\n    <g class=\"tier-row\">\n      <text x=\"30\" y=\""@ + r.y@ + "\" class=\"label-concurrency\">Concurrency = "@ + r.concurrency@ + "</text>\n      <rect x=\"220\" y=\""@ + r.rect_ttft_y@ + "\" width=\""@ + r.ttft_w@ + "\" height=\"14\" rx=\"3\" fill=\"#7fb8a6\" />\n      <rect x=\"220\" y=\""@ + r.rect_itl_y@ + "\" width=\""@ + r.itl_w@ + "\" height=\"14\" rx=\"3\" fill=\"#6ba4d9\" />\n      <text x=\""@ + r.ttft_val_x@ + "\" y=\""@ + r.y_ttft_text@ + "\" class=\"label-stat\">TTFT "@ + r.ttft@ + "ms</text>\n      <text x=\""@ + r.itl_val_x@ + "\" y=\""@ + r.y_itl_text@ + "\" class=\"label-stat\">ITL "@, r.itl@, "\n    <g class=\"tier-row\">\n      <text x=\"30\" y=\""@ + r.y@ + "\" class=\"label-concurrency\">Concurrency = "@ + r.concurrency@ + "</text>\n      <rect x=\"220\" y=\""@);
        lemma_contains_extend("\n    <g class=\"tier-row\">\n      <text x=\"30\" y=\""@ + r.y@ + "\" class=\"label-concurrency\">Concurrency = "@ + r.concurrency@ + "</text>\n      <rect x=\"220\" y=\""@ + r.rect_ttft_y@ + "\" width=\""@ + r.ttft_w@ + "\" height=\"14\" rx=\"3\" fill=\"#7fb8a6\" />\n      <rect x=\"220\" y=\""@ + r.rect_itl_y@ + "\" width=\""@ + r.itl_w@ + "\" height=\"14\" rx=\"3\" fill=\"#6ba4d9\" />\n      <text x=\""@ + r.ttft_val_x@ + "\" y=\""@ + r.y_ttft_text@ + "\" class=\"label-stat\">TTFT "@ + r.ttft@ + "ms</text>\n      <text x=\""@ + r.itl_val_x@ + "\" y=\""@ + r.y_itl_text@ + "\" class=\"label-stat\">ITL "@ + r.itl@, "ms</text>\n      <text x=\"760\" y=\""@, "\n    <g class=\"tier-row\">\n      <text x=\"30\" y=\""@ + r.y@ + "\" class=\"label-concurrency\">Concurrency = "@ + r.concurrency@ + "</text>\n      <rect x=\"220\" y=\""@);
        lemma_contains_extend("\n    <g class=\"tier-row\">\n      <text x=\"30\" y=\""@ + r.y@ + "\" class=\"label-concurrency\">Concurrency = "@ + r.concurrency@ + "</text>\n      <rect x=\"220\" y=\""@ + r.rect_ttft_y@ + "\" width=\""@ + r.ttft_w@ + "\" height=\"14\" rx=\"3\" fill=\"#7fb8a6\" />\n      <rect x=\"220\" y=\""@ + r.rect_itl_y@ + "\" width=\""@ + r.itl_w@ + "\" height=\"14\" rx=\"3\" fill=\"#6ba4d9\" />\n      <text x=\""@ + r.ttft_val_x@ + "\" y=\""@ + r.y_ttft_text@ + "\" class=\"label-stat\">TTFT "@ + r.ttft@ + "ms</text>\n      <text x=\""@ + r.itl_val_x@ + "\" y=\""@ + r.y_itl_text@ + "\" class=\"label-stat\">ITL "@ + r.itl@ + "ms</text>\n      <text x=\"760\" y=\""@, r.y@, "\n    <g class=\"tier-row\">\n      <text x=\"30\" y=\""@ + r.y@ + "\" class=\"label-concurrency\">Concurrency = "@ + r.concurrency@ + "</text>\n      <rect x=\"220\" y=\""@);
        lemma_contains_extend("\n    <g class=\"tier-row\">\n      <text x=\"30\" y=\""@ + r.y@ + "\" class=\"label-concurrency\">Concurrency = "@ + r.concurrency@ + "</text>\n      <rect x=\"220\" y=\""@ + r.rect_ttft_y@ + "\" width=\""@ + r.ttft_w@ + "\" height=\"14\" rx=\"3\" fill=\"#7fb8a6\" />\n      <rect x=\"220\" y=\""@ + r.rect_itl_y@ + "\" width=\""@ + r.itl_w@ + "\" height=\"14\" rx=\"3\" fill=\"#6ba4d9\" />\n      <text x=\""@ + r.ttft_val_x@ + "\" y=\""@ + r.y_ttft_text@ + "\" class=\"label-stat\">TTFT "@ + r.ttft@ + "ms</text>\n      <text x=\""@ + r.itl_val_x@ + "\" y=\""@ + r.y_itl_text@ + "\" class=\"label-stat\">ITL "@ + r.itl@ + "ms</text>\n      <text x=\"760\" y=\""@ + r.y@, "\" class=\"badge-tps\">"@, "\n    <g class=\"tier-row\">\n      <text x=\"30\" y=\""@ + r.y@ + "\" class=\"label-concurrency\">Concurrency = "@ + r.concurrency@ + "</text>\n      <rect x=\"220\" y=\""@);
        lemma_contains_extend("\n    <g class=\"tier-row\">\n      <text x=\"30\" y=\""@ + r.y@ + "\" class=\"label-concurrency\">Concurrency = "@ + r.concurrency@ + "</text>\n      <rect x=\"220\" y=\""@ + r.rect_ttft_y@ + "\" width=\""@ + r.ttft_w@ + "\" height=\"14\" rx=\"3\" fill=\"#7fb8a6\" />\n      <rect x=\"220\" y=\""@ + r.rect_itl_y@ + "\" width=\""@ + r.itl_w@ + "\" height=\"14\" rx=\"3\" fill=\"#6ba4d9\" />\n      <text x=\""@ + r.ttft_val_x@ + "\" y=\""@ + r.y_ttft_text@ + "\" class=\"label-stat\">TTFT "@ + r.ttft@ + "ms</text>\n      <text x=\""@ + r.itl_val_x@ + "\" y=\""@ + r.y_itl_text@ + "\" class=\"label-stat\">ITL "@ + r.itl@ + "ms</text>\n      <text x=\"760\" y=\""@ + r.y@ + "\" class=\"badge-tps\">"@, r.tps@, "\n    <g class=\"tier-row\">\n      <text x=\"30\" y=\""@ + r.y@ + "\" class=\"label-concurrency\">Concurrency = "@ + r.concurrency@ + "</text>\n      <rect x=\"220\" y=\""@);
        lemma_contains_extend("\n    <g class=\"tier-row\">\n      <text x=\"30\" y=\""@ + r.y@ + "\" class=\"label-concurrency\">Concurrency = "@ + r.concurrency@ + "</text>\n      <rect x=\"220\" y=\""@ + r.rect_ttft_y@ + "\" width=\""@ + r.ttft_w@ + "\" height=\"14\" rx=\"3\" fill=\"#7fb8a6\" />\n      <rect x=\"220\" y=\""@ + r.rect_itl_y@ + "\" width=\""@ + r.itl_w@ + "\" height=\"14\" rx=\"3\" fill=\"#6ba4d9\" />\n      <text x=\""@ + r.ttft_val_x@ + "\" y=\""@ + r.y_ttft_text@ + "\" class=\"label-stat\">TTFT "@ + r.ttft@ + "ms</text>\n      <text x=\""@ + r.itl_val_x@ + "\" y=\""@ + r.y_itl_text@ + "\" class=\"label-stat\">ITL "@ + r.itl@ + "ms</text>\n      <text x=\"760\" y=\""@ + r.y@ + "\" class=\"badge-tps\">"@ + r.tps@, " tok/s</text>\n      <text x=\"920\" y=\""@, "\n    <g class=\"tier-row\">\n      <text x=\"30\" y=\""@ + r.y@ + "\" class=\"label-concurrency\">Concurrency = "@ + r.concurrency@ + "</text>\n      <rect x=\"220\" y=\""@);
        lemma_contains_extend("\n    <g class=\"tier-row\">\n      <text x=\"30\" y=\""@ + r.y@ + "\" class=\"label-concurrency\">Concurrency = "@ + r.concurrency@ + "</text>\n      <rect x=\"220\" y=\""@ + r.rect_ttft_y@ + "\" width=\""@ + r.ttft_w@ + "\" height=\"14\" rx=\"3\" fill=\"#7fb8a6\" />\n      <rect x=\"220\" y=\""@ + r.rect_itl_y@ + "\" width=\""@ + r.itl_w@ + "\" height=\"14\" rx=\"3\" fill=\"#6ba4d9\" />\n      <text x=\""@ + r.ttft_val_x@ + "\" y=\""@ + r.y_ttft_text@ + "\" class=\"label-stat\">TTFT "@ + r.ttft@ + "ms</text>\n      <text x=\""@ + r.itl_val_x@ + "\" y=\""@ + r.y_itl_text@ + "\" class=\"label-stat\">ITL "@ + r.itl@ + "ms</text>\n      <text x=\"760\" y=\""@ + r.y@ + "\" class=\"badge-tps\">"@ + r.tps@ + " tok/s</text>\n      <text x=\"920\" y=\""@, r.y@, "\n    <g class=\"tier-row\">\n      <text x=\"30\" y=\""@ + r.y@ + "\" class=\"label-concurrency\">Concurrency = "@ + r.concurrency@ + "</text>\n      <rect x=\"220\" y=\""@);
        lemma_contains_extend("\n    <g class=\"tier-row\">\n      <text x=\"30\" y=\""@ + r.y@ + "\" class=\"label-concurrency\">Concurrency = "@ + r.concurrency@ + "</text>\n      <rect x=\"220\" y=\""@ + r.rect_ttft_y@ + "\" width=\""@ + r.ttft_w@ + "\" height=\"14\" rx=\"3\" fill=\"#7fb8a6\" />\n      <rect x=\"220\" y=\""@ + r.rect_itl_y@ + "\" width=\""@ + r.itl_w@ + "\" height=\"14\" rx=\"3\" fill=\"#6ba4d9\" />\n      <text x=\""@ + r.ttft_val_x@ + "\" y=\""@ + r.y_ttft_text@ + "\" class=\"label-stat\">TTFT "@ + r.ttft@ + "ms</text>\n      <text x=\""@ + r.itl_val_x@ + "\" y=\""@ + r.y_itl_text@ + "\" class=\"label-stat\">ITL "@ + r.itl@ + "ms</text>\n      <text x=\"760\" y=\""@ + r.y@ + "\" class=\"badge-tps\">"@ + r.tps@ + " tok/s</text>\n      <text x=\"920\" y=\""@ + r.y@, "\" class=\"badge-power\">"@, "\n    <g class=\"tier-row\">\n      <text x=\"30\" y=\""@ + r.y@ + "\" class=\"label-concurrency\">Concurrency = "@ + r.concurrency@ + "</text>\n      <rect x=\"220\" y=\""@);
        lemma_contains_extend("\n    <g class=\"tier-row\">\n      <text x=\"30\" y=\""@ + r.y@ + "\" class=\"label-concurrency\">Concurrency = "@ + r.concurrency@ + "</text>\n      <rect x=\"220\" y=\""@ + r.rect_ttft_y@ + "\" width=\""@ + r.ttft_w@ + "\" height=\"14\" rx=\"3\" fill=\"#7fb8a6\" />\n      <rect x=\"220\" y=\""@ + r.rect_itl_y@ + "\" width=\""@ + r.itl_w@ + "\" height=\"14\" rx=\"3\" fill=\"#6ba4d9\" />\n      <text x=\""@ + r.ttft_val_x@ + "\" y=\""@ + r.y_ttft_text@ + "\" class=\"label-stat\">TTFT "@ + r.ttft@ + "ms</text>\n      <text x=\""@ + r.itl_val_x@ + "\" y=\""@ + r.y_itl_text@ + "\" class=\"label-stat\">ITL "@ + r.itl@ + "ms</text>\n      <text x=\"760\" y=\""@ + r.y@ + "\" class=\"badge-tps\">"@ + r.tps@ + " tok/s</text>\n      <text x=\"920\" y=\""@ + r.y@ + "\" class=\"badge-power\">"@, r.power@, "\n    <g class=\"tier-row\">\n      <text x=\"30\" y=\""@ + r.y@ + "\" class=\"label-concurrency\">Concurrency = "@ + r.concurrency@ + "</text>\n      <rect x=\"220\" y=\""@);
        lemma_contains_extend("\n    <g class=\"tier-row\">\n      <text x=\"30\" y=\""@ + r.y@ + "\" class=\"label-concurrency\">Concurrency = "@ + r.concurrency@ + "</text>\n      <rect x=\"220\" y=\""@ + r.rect_ttft_y@ + "\" width=\""@ + r.ttft_w@ + "\" height=\"14\" rx=\"3\" fill=\"#7fb8a6\" />\n      <rect x=\"220\" y=\""@ + r.rect_itl_y@ + "\" width=\""@ + r.itl_w@ + "\" height=\"14\" rx=\"3\" fill=\"#6ba4d9\" />\n      <text x=\""@ + r.ttft_val_x@ + "\" y=\""@ + r.y_ttft_text@ + "\" class=\"label-stat\">TTFT "@ + r.ttft@ + "ms</text>\n      <text x=\""@ + r.itl_val_x@ + "\" y=\""@ + r.y_itl_text@ + "\" class=\"label-stat\">ITL "@ + r.itl@ + "ms</text>\n      <text x=\"760\" y=\""@ + r.y@ + "\" class=\"badge-tps\">"@ + r.tps@ + " tok/s</text>\n      <text x=\"920\" y=\""@ + r.y@ + "\" class=\"badge-power\">"@ + r.power@, "W ("@, "\n    <g class=\"tier-row\">\n      <text x=\"30\" y=\""@ + r.y@ + "\" class=\"label-concurrency\">Concurrency = "@ + r.concurrency@ + "</text>\n      <rect x=\"220\" y=\""@);
        lemma_contains_extend("\n    <g class=\"tier-row\">\n      <text x=\"30\" y=\""@ + r.y@ + "\" class=\"label-concurrency\">Concurrency = "@ + r.concurrency@ + "</text>\n      <rect x=\"220\" y=\""@ + r.rect_ttft_y@ + "\" width=\""@ + r.ttft_w@ + "\" height=\"14\" rx=\"3\" fill=\"#7fb8a6\" />\n      <rect x=\"220\" y=\""@ + r.rect_itl_y@ + "\" width=\""@ + r.itl_w@ + "\" height=\"14\" rx=\"3\" fill=\"#6ba4d9\" />\n      <text x=\""@ + r.ttft_val_x@ + "\" y=\""@ + r.y_ttft_text@ + "\" class=\"label-stat\">TTFT "@ + r.ttft@ + "ms</text>\n      <text x=\""@ + r.itl_val_x@ + "\" y=\""@ + r.y_itl_text@ + "\" class=\"label-stat\">ITL "@ + r.itl@ + "ms</text>\n      <text x=\"760\" y=\""@ + r.y@ + "\" class=\"badge-tps\">"@ + r.tps@ + " tok/s</text>\n      <text x=\"920\" y=\""@ + r.y@ + "\" class=\"badge-power\">"@ + r.power@ + "W ("@, r.joules@, "\n    <g class=\"tier-row\">\n      <text x=\"30\" y=\""@ + r.y@ + "\" class=\"label-concurrency\">Concurrency = "@ + r.concurrency@ + "</text>\n      <rect x=\"220\" y=\""@);
        lemma_contains_extend("\n    <g class=\"tier-row\">\n      <text x=\"30\" y=\""@ + r.y@ + "\" class=\"label-concurrency\">Concurrency = "@ + r.concurrency@ + "</text>\n      <rect x=\"220\" y=\""@ + r.rect_ttft_y@ + "\" width=\""@ + r.ttft_w@ + "\" height=\"14\" rx=\"3\" fill=\"#7fb8a6\" />\n      <rect x=\"220\" y=\""@ + r.rect_itl_y@ + "\" width=\""@ + r.itl_w@ + "\" height=\"14\" rx=\"3\" fill=\"#6ba4d9\" />\n      <text x=\""@ + r.ttft_val_x@ + "\" y=\""@ + r.y_ttft_text@ + "\" class=\"label-stat\">TTFT "@ + r.ttft@ + "ms</text>\n      <text x=\""@ + r.itl_val_x@ + "\" y=\""@ + r.y_itl_text@ + "\" class=\"label-stat\">ITL "@ + r.itl@ + "ms</text>\n      <text x=\"760\" y=\""@ + r.y@ + "\" class=\"badge-tps\">"@ + r.tps@ + " tok/s</text>\n      <text x=\"920\" y=\""@ + r.y@ + "\" class=\"badge-power\">"@ + r.power@ + "W ("@ + r.joules@, " J/tok)</text>\n    </g>"@, "\n    <g class=\"tier-row\">\n      <text x=\"30\" y=\""@ + r.y@ + "\" class=\"label-concurrency\">Concurrency = "@ + r.concurrency@ + "</text>\n      <rect x=\"220\" y=\""@);
    }
    assert(contains_seq(pressure_row_text(r), "</text>\n      <rect x=\"220\" y=\""@ + r.rect_ttft_y@ + "\" width=\""@ + r.ttft_w@ + "\" height=\"14\" rx=\"3\" fill=\"#7fb8a6\" />\n      <rect x=\"220\" y=\""@)) by {
        lemma_concat_associative(("\n    <g class=\"tier-row\">\n      <text x=\"30\" y=\""@ + r.y@ + "\" class=\"label-concurrency\">Concurrency = "@ + r.concurrency@), "</text>\n      <rect x=\"220\" y=\""@, r.rect_ttft_y@);
        assert(("\n    <g class=\"tier-row\">\n      <text x=\"30\" y=\""@ + r.y@ + "\" class=\"label-concurrency\">Concurrency = "@ + r.concurrency@) + ("</text>\n      <rect x=\"220\" y=\""@ + r.rect_ttft_y@) == "\n    <g class=\"tier-row\">\n      <text x=\"30\" y=\""@ + r.y@ + "\" class=\"label-concurrency\">Concurrency = "@ + r.concurrency@ + "</text>\n      <rect x=\"220\" y=\""@ + r.rect_ttft_y@);
        lemma_concat_associative(("\n    <g class=\"tier-row\">\n      <text x=\"30\" y=\""@ + r.y@ + "\" class=\"label-concurrency\">Concurrency = "@ + r.concurrency@), "</text>\n      <rect x=\"220\" y=\""@ + r.rect_ttft_y@, "\" width=\""@);
        assert(("\n    <g class=\"tier-row\">\n      <text x=\"30\" y=\""@ + r.y@ + "\" class=\"label-concurrency\">Concurrency = "@ + r.concurrency@) + ("</text>\n      <rect x=\"220\" y=\""@ + r.rect_ttft_y@ + "\" width=\""@) == "\n    <g class=\"tier-row\">\n      <text x=\"30\" y=\""@ + r.y@ + "\" class=\"label-concurrency\">Concurrency = "@ + r.concurrency@ + "</text>\n      <rect x=\"220\" y=\""@ + r.rect_ttft_y@ + "\" width=\""@);
        lemma_concat_associative(("\n    <g class=\"tier-row\">\n      <text x=\"30\" y=\""@ + r.y@ + "\" class=\"label-concurrency\">Concurrency = "@ + r.concurrency@), "</text>\n      <rect x=\"220\" y=\""@ + r.rect_ttft_y@ + "\" width=\""@, r.ttft_w@);
        assert(("\n    <g class=\"tier-row\">\n      <text x=\"30\" y=\""@ + r.y@ + "\" class=\"label-concurrency\">Concurrency = "@ + r.concurrency@) + ("</text>\n      <rect x=\"220\" y=\""@ + r.rect_ttft_y@ + "\" width=\""@ + r.ttft_w@) == "\n    <g class=\"tier-row\">\n      <text x=\"30\" y=\""@ + r.y@ + "\" class=\"label-concurrency\">Concurrency = "@ + r.concurrency@ + "</text>\n      <rect x=\"220\" y=\""@ + r.rect_ttft_y@ + "\" width=\""@ + r.ttft_w@);
        lemma_concat_associative(("\n    <g class=\"tier-row\">\n      <text x=\"30\" y=\""@ + r.y@ + "\" class=\"label-concurrency\">Concurrency = "@ + r.concurrency@), "</text>\n      <rect x=\"220\" y=\""@ + r.rect_ttft_y@ + "\" width=\""@ + r.ttft_w@, "\" height=\"14\" rx=\"3\" fill=\"#7fb8a6\" />\n      <rect x=\"220\" y=\""@);
        assert(("\n    <g class=\"tier-row\">\n      <text x=\"30\" y=\""@ + r.y@ + "\" class=\"label-concurrency\">Concurrency = "@ + r.concurrency@) + ("</text>\n      <rect x=\"220\" y=\""@ + r.rect_ttft_y@ + "\" width=\""@ + r.ttft_w@ + "\" height=\"14\" rx=\"3\" fill=\"#7fb8a6\" />\n      <rect x=\"220\" y=\""@) == "\n    <g class=\"tier-row\">\n      <text x=\"30\" y=\""@ + r.y@ + "\" class=\"label-concurrency\">Concurrency = "@ + r.concurrency@ + "</text>\n      <rect x=\"220\" y=\""@ + r.rect_ttft_y@ + "\" width=\""@ + r.ttft_w@ + "\" height=\"14\" rx=\"3\" fill=\"#7fb8a6\" />\n      <rect x=\"220\" y=\""@);
        lemma_contains_tail(("\n    <g class=\"tier-row\">\n      <text x=\"30\" y=\""@ + r.y@ + "\" class=\"label-concurrency\">Concurrency = "@ + r.concurrency@), "</text>\n      <rect x=\"220\" y=\""@ + r.rect_ttft_y@ + "\" width=\""@ + r.ttft_w@ + "\" height=\"14\" rx=\"3\" fill=\"#7fb8a6\" />\n      <rect x=\"220\" y=\""@);
        lemma_contains_extend("\n    <g class=\"tier-row\">\n      <text x=\"30\" y=\""@ + r.y@ + "\" class=\"label-concurrency\">Concurrency = "@ + r.concurrency@ + "</text>\n      <rect x=\"220\" y=\""@ + r.rect_ttft_y@ + "\" width=\""@ + r.ttft_w@ + "\" height=\"14\" rx=\"3\" fill=\"#7fb8a6\" />\n      <rect x=\"220\" y=\""@, r.rect_itl_y@, "</text>\n      <rect x=\"220\" y=\""@ + r.rect_ttft_y@ + "\" width=\""@ + r.ttft_w@ + "\" height=\"14\" rx=\"3\" fill=\"#7fb8a6\" />\n      <rect x=\"220\" y=\""@);
        lemma_contains_extend("\n    <g class=\"tier-row\">\n      <text x=\"30\" y=\""@ + r.y@ + "\" class=\"label-concurrency\">Concurrency = "@ + r.concurrency@ + "</text>\n      <rect x=\"220\" y=\""@ + r.rect_ttft_y@ + "\" width=\""@ + r.ttft_w@ + "\" height=\"14\" rx=\"3\" fill=\"#7fb8a6\" />\n      <rect x=\"220\" y=\""@ + r.rect_itl_y@, "\" width=\""@, "</text>\n      <rect x=\"220\" y=\""@ + r.rect_ttft_y@ + "\" width=\""@ + r.ttft_w@ + "\" height=\"14\" rx=\"3\" fill=\"#7fb8a6\" />\n      <rect x=\"220\" y=\""@);
        lemma_contains_extend("\n    <g class=\"tier-row\">\n      <text x=\"30\" y=\""@ + r.y@ + "\" class=\"label-concurrency\">Concurrency = "@ + r.concurrency@ + "</text>\n      <rect x=\"220\" y=\""@ + r.rect_ttft_y@ + "\" width=\""@ + r.ttft_w@ + "\" height=\"14\" rx=\"3\" fill=\"#7fb8a6\" />\n      <rect x=\"220\" y=\""@ + r.rect_itl_y@ + "\" width=\""@, r.itl_w@, "</text>\n      <rect x=\"220\" y=\""@ + r.rect_ttft_y@ + "\" width=\""@ + r.ttft_w@ + "\" height=\"14\" rx=\"3\" fill=\"#7fb8a6\" />\n      <rect x=\"220\" y=\""@);
        lemma_contains_extend("\n    <g class=\"tier-row\">\n      <text x=\"30\" y=\""@ + r.y@ + "\" class=\"label-concurrency\">Concurrency = "@ + r.concurrency@ + "</text>\n      <rect x=\"220\" y=\""@ + r.rect_ttft_y@ + "\" width=\""@ + r.ttft_w@ + "\" height=\"14\" rx=\"3\" fill=\"#7fb8a6\" />\n      <rect x=\"220\" y=\""@ + r.rect_itl_y@ + "\" width=\""@ + r.itl_w@, "\" height=\"14\" rx=\"3\" fill=\"#6ba4d9\" />\n      <text x=\""@, "</text>\n      <rect x=\"220\" y=\""@ + r.rect_ttft_y@ + "\" width=\""@ + r.ttft_w@ + "\" height=\"14\" rx=\"3\" fill=\"#7fb8a6\" />\n      <rect x=\"220\" y=\""@);
        lemma_contains_extend("\n    <g class=\"tier-row\">\n      <text x=\"30\" y=\""@ + r.y@ + "\" class=\"label-concurrency\">Concurrency = "@ + r.concurrency@ + "</text>\n      <rect x=\"220\" y=\""@ + r.rect_ttft_y@ + "\" width=\""@ + r.ttft_w@ + "\" height=\"14\" rx=\"3\" fill=\"#7fb8a6\" />\n      <rect x=\"220\" y=\""@ + r.rect_itl_y@ + "\" width=\""@ + r.itl_w@ + "\" height=\"14\" rx=\"3\" fill=\"#6ba4d9\" />\n      <text x=\""@, r.ttft_val_x@, "</text>\n      <rect x=\"220\" y=\""@ + r.rect_ttft_y@ + "\" width=\""@ + r.ttft_w@ + "\" height=\"14\" rx=\"3\" fill=\"#7fb8a6\" />\n      <rect x=\"220\" y=\""@);
        lemma_contains_extend("\n    <g class=\"tier-row\">\n      <text x=\"30\" y=\""@ + r.y@ + "\" class=\"label-concurrency\">Concurrency = "@ + r.concurrency@ + "</text>\n      <rect x=\"220\" y=\""@ + r.rect_ttft_y@ + "\" width=\""@ + r.ttft_w@ + "\" height=\"14\" rx=\"3\" fill=\"#7fb8a6\" />\n      <rect x=\"220\" y=\""@ + r.rect_itl_y@ + "\" width=\""@ + r.itl_w@ + "\" height=\"14\" rx=\"3\" fill=\"#6ba4d9\" />\n      <text x=\""@ + r.ttft_val_x@, "\" y=\""@, "</text>\n      <rect x=\"220\" y=\""@ + r.rect_ttft_y@ + "\" width=\""@ + r.ttft_w@ + "\" height=\"14\" rx=\"3\" fill=\"#7fb8a6\" />\n      <rect x=\"220\" y=\""@);
        lemma_contains_extend("\n    <g class=\"tier-row\">\n      <text x=\"30\" y=\""@ + r.y@ + "\" class=\"label-concurrency\">Concurrency = "@ + r.concurrency@ + "</text>\n      <rect x=\"220\" y=\""@ + r.rect_ttft_y@ + "\" width=\""@ + r.ttft_w@ + "\" height=\"14\" rx=\"3\" fill=\"#7fb8a6\" />\n      <rect x=\"220\" y=\""@ + r.rect_itl_y@ + "\" width=\""@ + r.itl_w@ + "\" height=\"14\" rx=\"3\" fill=\"#6ba4d9\" />\n      <text x=\""@ + r.ttft_val_x@ + "\" y=\""@, r.y_ttft_text@, "</text>\n      <rect x=\"220\" y=\""@ + r.rect_ttft_y@ + "\" width=\""@ + r.ttft_w@ + "\" height=\"14\" rx=\"3\" fill=\"#7fb8a6\" />\n      <rect x=\"220\" y=\""@);
        lemma_contains_extend("\n    <g class=\"tier-row\">\n      <text x=\"30\" y=\""@ + r.y@ + "\" class=\"label-concurrency\">Concurrency = "@ + r.concurrency@ + "</text>\n      <rect x=\"220\" y=\""@ + r.rect_ttft_y@ + "\" width=\""@ + r.ttft_w@ + "\" height=\"14\" rx=\"3\" fill=\"#7fb8a6\" />\n      <rect x=\"220\" y=\""@ + r.rect_itl_y@ + "\" width=\""@ + r.itl_w@ + "\" height=\"14\" rx=\"3\" fill=\"#6ba4d9\" />\n      <text x=\""@ + r.ttft_val_x@ + "\" y=\""@ + r.y_ttft_text@, "\" class=\"label-stat\">TTFT "@, "</text>\n      <rect x=\"220\" y=\""@ + r.rect_ttft_y@ + "\" width=\""@ + r.ttft_w@ + "\" height=\"14\" rx=\"3\" fill=\"#7fb8a6\" />\n      <rect x=\"220\" y=\""@);
        lemma_contains_extend("\n    <g class=\"tier-row\">\n      <text x=\"30\" y=\""@ + r.y@ + "\" class=\"label-concurrency\">Concurrency = "@ + r.concurrency@ + "</text>\n      <rect x=\"220\" y=\""@ + r.rect_ttft_y@ + "\" width=\""@ + r.ttft_w@ + "\" height=\"14\" rx=\"3\" fill=\"#7fb8a6\" />\n      <rect x=\"220\" y=\""@ + r.rect_itl_y@ + "\" width=\""@ + r.itl_w@ + "\" height=\"14\" rx=\"3\" fill=\"#6ba4d9\" />\n      <text x=\""@ + r.ttft_val_x@ + "\" y=\""@ + r.y_ttft_text@ + "\" class=\"label-stat\">TTFT "@, r.ttft@, "</text>\n      <rect x=\"220\" y=\""@ + r.rect_ttft_y@ + "\" width=\""@ + r.ttft_w@ + "\" height=\"14\" rx=\"3\" fill=\"#7fb8a6\" />\n      <rect x=\"220\" y=\""@);
        lemma_contains_extend("\n    <g class=\"tier-row\">\n      <text x=\"30\" y=\""@ + r.y@ + "\" class=\"label-concurrency\">Concurrency = "@ + r.concurrency@ + "</text>\n      <rect x=\"220\" y=\""@ + r.rect_ttft_y@ + "\" width=\""@ + r.ttft_w@ + "\" height=\"14\" rx=\"3\" fill=\"#7fb8a6\" />\n      <rect x=\"220\" y=\""@ + r.rect_itl_y@ + "\" width=\""@ + r.itl_w@ + "\" height=\"14\" rx=\"3\" fill=\"#6ba4d9\" />\n      <text x=\""@ + r.ttft_val_x@ + "\" y=\""@ + r.y_ttft_text@ + "\" class=\"label-stat\">TTFT "@ + r.ttft@, "ms</text>\n      <text x=\""@, "</text>\n      <rect x=\"220\" y=\""@ + r.rect_ttft_y@ + "\" width=\""@ + r.ttft_w@ + "\" height=\"14\" rx=\"3\" fill=\"#7fb8a6\" />\n      <rect x=\"220\" y=\""@);
        lemma_contains_extend("\n    <g class=\"tier-row\">\n      <text x=\"30\" y=\""@ + r.y@ + "\" class=\"label-concurrency\">Concurrency = "@ + r.concurrency@ + "</text>\n      <rect x=\"220\" y=\""@ + r.rect_ttft_y@ + "\" width=\""@ + r.ttft_w@ + "\" height=\"14\" rx=\"3\" fill=\"#7fb8a6\" />\n      <rect x=\"220\" y=\""@ + r.rect_itl_y@ + "\" width=\""@ + r.itl_w@ + "\" height=\"14\" rx=\"3\" fill=\"#6ba4d9\" />\n      <text x=\""@ + r.ttft_val_x@ + "\" y=\""@ + r.y_ttft_text@ + "\" class=\"label-stat\">TTFT "@ + r.ttft@ + "ms</text>\n      <text x=\""@, r.itl_val_x@, "</text>\n      <rect x=\"220\" y=\""@ + r.rect_ttft_y@ + "\" width=\""@ + r.ttft_w@ + "\" height=\"14\" rx=\"3\" fill=\"#7fb8a6\" />\n      <rect x=\"220\" y=\""@);
        lemma_contains_extend("\n    <g class=\"tier-row\">\n      <text x=\"30\" y=\""@ + r.y@ + "\" class=\"label-concurrency\">Concurrency = "@ + r.concurrency@ + "</text>\n      <rect x=\"220\" y=\""@ + r.rect_ttft_y@ + "\" width=\""@ + r.ttft_w@ + "\" height=\"14\" rx=\"3\" fill=\"#7fb8a6\" />\n      <rect x=\"220\" y=\""@ + r.rect_itl_y@ + "\" width=\""@ + r.itl_w@ + "\" height=\"14\" rx=\"3\" fill=\"#6ba4d9\" />\n      <text x=\""@ + r.ttft_val_x@ + "\" y=\""@ + r.y_ttft_text@ + "\" class=\"label-stat\">TTFT "@ + r.ttft@ + "ms</text>\n      <text x=\""@ + r.itl_val_x@, "\" y=\""@, "</text>\n      <rect x=\"220\" y=\""@ + r.rect_ttft_y@ + "\" width=\""@ + r.ttft_w@ + "\" height=\"14\" rx=\"3\" fill=\"#7fb8a6\" />\n      <rect x=\"220\" y=\""@);
        lemma_contains_extend("\n    <g class=\"tier-row\">\n      <text x=\"30\" y=\""@ + r.y@ + "\" class=\"label-concurrency\">Concurrency = "@ + r.concurrency@ + "</text>\n      <rect x=\"220\" y=\""@ + r.rect_ttft_y@ + "\" width=\""@ + r.ttft_w@ + "\" height=\"14\" rx=\"3\" fill=\"#7fb8a6\" />\n      <rect x=\"220\" y=\""@ + r.rect_itl_y@ + "\" width=\""@ + r.itl_w@ + "\" height=\"14\" rx=\"3\" fill=\"#6ba4d9\" />\n      <text x=\""@ + r.ttft_val_x@ + "\" y=\""@ + r.y_ttft_text@ + "\" class=\"label-stat\">TTFT "@ + r.ttft@ + "ms</text>\n      <text x=\""@ + r.itl_val_x@ + "\" y=\""@, r.y_itl_text@, "</text>\n      <rect x=\"220\" y=\""@ + r.rect_ttft_y@ + "\" width=\""@ + r.ttft_w@ + "\" height=\"14\" rx=\"3\" fill=\"#7fb8a6\" />\n      <rect x=\"220\" y=\""@);
        lemma_contains_extend("\n    <g class=\"tier-row\">\n      <text x=\"30\" y=\""@ + r.y@ + "\" class=\"label-concurrency\">Concurrency = "@ + r.concurrency@ + "</text>\n      <rect x=\"220\" y=\""@ + r.rect_ttft_y@ + "\" width=\""@ + r.ttft_w@ + "\" height=\"14\" rx=\"3\" fill=\"#7fb8a6\" />\n      <rect x=\"220\" y=\""@ + r.rect_itl_y@ + "\" width=\""@ + r.itl_w@ + "\" height=\"14\" rx=\"3\" fill=\"#6ba4d9\" />\n      <text x=\""@ + r.ttft_val_x@ + "\" y=\""@ + r.y_ttft_text@ + "\" class=\"label-stat\">TTFT "@ + r.ttft@ + "ms</text>\n      <text x=\""@ + r.itl_val_x@ + "\" y=\""@ + r.y_itl_text@, "\" class=\"label-stat\">ITL "@, "</text>\n      <rect x=\"220\" y=\""@ + r.rect_ttft_y@ + "\" width=\""@ + r.ttft_w@ + "\" height=\"14\" rx=\"3\" fill=\"#7fb8a6\" />\n      <rect x=\"220\" y=\""@);
        lemma_contains_extend("\n    <g class=\"tier-row\">\n      <text x=\"30\" y=\""@ + r.y@ + "\" class=\"label-concurrency\">Concurrency = "@ + r.concurrency@ + "</text>\n      <rect x=\"220\" y=\""@ + r.rect_ttft_y@ + "\" width=\""@ + r.ttft_w@ + "\" height=\"14\" rx=\"3\" fill=\"#7fb8a6\" />\n      <rect x=\"220\" y=\""@ + r.rect_itl_y@ + "\" width=\""@ + r.itl_w@ + "\" height=\"14\" rx=\"3\" fill=\"#6ba4d9\" />\n      <text x=\""@ + r.ttft_val_x@ + "\" y=\""@ + r.y_ttft_text@ + "\" class=\"label-stat\">TTFT "@ + r.ttft@ + "ms</text>\n      <text x=\""@ + r.itl_val_x@ + "\" y=\""@ + r.y_itl_text@ + "\" class=\"label-stat\">ITL "@, r.itl@, "</text>\n      <rect x=\"220\" y=\""@ + r.rect_ttft_y@ + "\" width=\""@ + r.ttft_w@ + "\" height=\"14\" rx=\"3\" fill=\"#7fb8a6\" />\n      <rect x=\"220\" y=\""@);
        lemma_contains_extend("\n    <g class=\"tier-row\">\n      <text x=\"30\" y=\""@ + r.y@ + "\" class=\"label-concurrency\">Concurrency = "@ + r.concurrency@ + "</text>\n      <rect x=\"220\" y=\""@ + r.rect_ttft_y@ + "\" width=\""@ + r.ttft_w@ + "\" height=\"14\" rx=\"3\" fill=\"#7fb8a6\" />\n      <rect x=\"220\" y=\""@ + r.rect_itl_y@ + "\" width=\""@ + r.itl_w@ + "\" height=\"14\" rx=\"3\" fill=\"#6ba4d9\" />\n      <text x=\""@ + r.ttft_val_x@ + "\" y=\""@ + r.y_ttft_text@ + "\" class=\"label-stat\">TTFT "@ + r.ttft@ + "ms</text>\n      <text x=\""@ + r.itl_val_x@ + "\" y=\""@ + r.y_itl_text@ + "\" class=\"label-stat\">ITL "@ + r.itl@, "ms</text>\n      <text x=\"760\" y=\""@, "</text>\n      <rect x=\"220\" y=\""@ + r.rect_ttft_y@ + "\" width=\""@ + r.ttft_w@ + "\" height=\"14\" rx=\"3\" fill=\"#7fb8a6\" />\n      <rect x=\"220\" y=\""@);
        lemma_contains_extend("\n    <g class=\"tier-row\">\n      <text x=\"30\" y=\""@ + r.y@ + "\" class=\"label-concurrency\">Concurrency = "@ + r.concurrency@ + "</text>\n      <rect x=\"220\" y=\""@ + r.rect_ttft_y@ + "\" width=\""@ + r.ttft_w@ + "\" height=\"14\" rx=\"3\" fill=\"#7fb8a6\" />\n      <rect x=\"220\" y=\""@ + r.rect_itl_y@ + "\" width=\""@ + r.itl_w@ + "\" height=\"14\" rx=\"3\" fill=\"#6ba4d9\" />\n      <text x=\""@ + r.ttft_val_x@ + "\" y=\""@ + r.y_ttft_text@ + "\" class=\"label-stat\">TTFT "@ + r.ttft@ + "ms</text>\n      <text x=\""@ + r.itl_val_x@ + "\" y=\""@ + r.y_itl_text@ + "\" class=\"label-stat\">ITL "@ + r.itl@ + "ms</text>\n      <text x=\"760\" y=\""@, r.y@, "</text>\n      <rect x=\"220\" y=\""@ + r.rect_ttft_y@ + "\" width=\""@ + r.ttft_w@ + "\" height=\"14\" rx=\"3\" fill=\"#7fb8a6\" />\n      <rect x=\"220\" y=\""@);
        lemma_contains_extend("\n    <g class=\"tier-row\">\n      <text x=\"30\" y=\""@ + r.y@ + "\" class=\"label-concurrency\">Concurrency = "@ + r.concurrency@ + "</text>\n      <rect x=\"220\" y=\""@ + r.rect_ttft_y@ + "\" width=\""@ + r.ttft_w@ + "\" height=\"14\" rx=\"3\" fill=\"#7fb8a6\" />\n      <rect x=\"220\" y=\""@ + r.rect_itl_y@ + "\" width=\""@ + r.itl_w@ + "\" height=\"14\" rx=\"3\" fill=\"#6ba4d9\" />\n      <text x=\""@ + r.ttft_val_x@ + "\" y=\""@ + r.y_ttft_text@ + "\" class=\"label-stat\">TTFT "@ + r.ttft@ + "ms</text>\n      <text x=\""@ + r.itl_val_x@ + "\" y=\""@ + r.y_itl_text@ + "\" class=\"label-stat\">ITL "@ + r.itl@ + "ms</text>\n      <text x=\"760\" y=\""@ + r.y@, "\" class=\"badge-tps\">"@, "</text>\n      <rect x=\"220\" y=\""@ + r.rect_ttft_y@ + "\" width=\""@ + r.ttft_w@ + "\" height=\"14\" rx=\"3\" fill=\"#7fb8a6\" />\n      <rect x=\"220\" y=\""@);
        lemma_contains_extend("\n    <g class=\"tier-row\">\n      <text x=\"30\" y=\""@ + r.y@ + "\" class=\"label-concurrency\">Concurrency = "@ + r.concurrency@ + "</text>\n      <rect x=\"220\" y=\""@ + r.rect_ttft_y@ + "\" width=\""@ + r.ttft_w@ + "\" height=\"14\" rx=\"3\" fill=\"#7fb8a6\" />\n      <rect x=\"220\" y=\""@ + r.rect_itl_y@ + "\" width=\""@ + r.itl_w@ + "\" height=\"14\" rx=\"3\" fill=\"#6ba4d9\" />\n      <text x=\""@ + r.ttft_val_x@ + "\" y=\""@ + r.y_ttft_text@ + "\" class=\"label-stat\">TTFT "@ + r.ttft@ + "ms</text>\n      <text x=\""@ + r.itl_val_x@ + "\" y=\""@ + r.y_itl_text@ + "\" class=\"label-stat\">ITL "@ + r.itl@ + "ms</text>\n      <text x=\"760\" y=\""@ + r.y@ + "\" class=\"badge-tps\">"@, r.tps@, "</text>\n      <rect x=\"220\" y=\""@ + r.rect_ttft_y@ + "\" width=\""@ + r.ttft_w@ + "\" height=\"14\" rx=\"3\" fill=\"#7fb8a6\" />\n      <rect x=\"220\" y=\""@);
        lemma_contains_extend("\n    <g class=\"tier-row\">\n      <text x=\"30\" y=\""@ + r.y@ + "\" class=\"label-concurrency\">Concurrency = "@ + r.concurrency@ + "</text>\n      <rect x=\"220\" y=\""@ + r.rect_ttft_y@ + "\" width=\""@ + r.ttft_w@ + "\" height=\"14\" rx=\"3\" fill=\"#7fb8a6\" />\n      <rect x=\"220\" y=\""@ + r.rect_itl_y@ + "\" width=\""@ + r.itl_w@ + "\" height=\"14\" rx=\"3\" fill=\"#6ba4d9\" />\n      <text x=\""@ + r.ttft_val_x@ + "\" y=\""@ + r.y_ttft_text@ + "\" class=\"label-stat\">TTFT "@ + r.ttft@ + "ms</text>\n      <text x=\""@ + r.itl_val_x@ + "\" y=\""@ + r.y_itl_text@ + "\" class=\"label-stat\">ITL "@ + r.itl@ + "ms</text>\n      <text x=\"760\" y=\""@ + r.y@ + "\" class=\"badge-tps\">"@ + r.tps@, " tok/s</text>\n      <text x=\"920\" y=\""@, "</text>\n      <rect x=\"220\" y=\""@ + r.rect_ttft_y@ + "\" width=\""@ + r.ttft_w@ + "\" height=\"14\" rx=\"3\" fill=\"#7fb8a6\" />\n      <rect x=\"220\" y=\""@);
        lemma_contains_extend("\n    <g class=\"tier-row\">\n      <text x=\"30\" y=\""@ + r.y@ + "\" class=\"label-concurrency\">Concurrency = "@ + r.concurrency@ + "</text>\n      <rect x=\"220\" y=\""@ + r.rect_ttft_y@ + "\" width=\""@ + r.ttft_w@ + "\" height=\"14\" rx=\"3\" fill=\"#7fb8a6\" />\n      <rect x=\"220\" y=\""@ + r.rect_itl_y@ + "\" width=\""@ + r.itl_w@ + "\" height=\"14\" rx=\"3\" fill=\"#6ba4d9\" />\n      <text x=\""@ + r.ttft_val_x@ + "\" y=\""@ + r.y_ttft_text@ + "\" class=\"label-stat\">TTFT "@ + r.ttft@ + "ms</text>\n      <text x=\""@ + r.itl_val_x@ + "\" y=\""@ + r.y_itl_text@ + "\" class=\"label-stat\">ITL "@ + r.itl@ + "ms</text>\n      <text x=\"760\" y=\""@ + r.y@ + "\" class=\"badge-tps\">"@ + r.tps@ + " tok/s</text>\n      <text x=\"920\" y=\""@, r.y@, "</text>\n      <rect x=\"220\" y=\""@ + r.rect_ttft_y@ + "\" width=\""@ + r.ttft_w@ + "\" height=\"14\" rx=\"3\" fill=\"#7fb8a6\" />\n      <rect x=\"220\" y=\""@);
        lemma_contains_extend("\n    <g class=\"tier-row\">\n      <text x=\"30\" y=\""@ + r.y@ + "\" class=\"label-concurrency\">Concurrency = "@ + r.concurrency@ + "</text>\n      <rect x=\"220\" y=\""@ + r.rect_ttft_y@ + "\" width=\""@ + r.ttft_w@ + "\" height=\"14\" rx=\"3\" fill=\"#7fb8a6\" />\n      <rect x=\"220\" y=\""@ + r.rect_itl_y@ + "\" width=\""@ + r.itl_w@ + "\" height=\"14\" rx=\"3\" fill=\"#6ba4d9\" />\n      <text x=\""@ + r.ttft_val_x@ + "\" y=\""@ + r.y_ttft_text@ + "\" class=\"label-stat\">TTFT "@ + r.ttft@ + "ms</text>\n      <text x=\""@ + r.itl_val_x@ + "\" y=\""@ + r.y_itl_text@ + "\" class=\"label-stat\">ITL "@ + r.itl@ + "ms</text>\n      <text x=\"760\" y=\""@ + r.y@ + "\" class=\"badge-tps\">"@ + r.tps@ + " tok/s</text>\n      <text x=\"920\" y=\""@ + r.y@, "\" class=\"badge-power\">"@, "</text>\n      <rect x=\"220\" y=\""@ + r.rect_ttft_y@ + "\" width=\""@ + r.ttft_w@ + "\" height=\"14\" rx=\"3\" fill=\"#7fb8a6\" />\n      <rect x=\"220\" y=\""@);
        lemma_contains_extend("\n    <g class=\"tier-row\">\n      <text x=\"30\" y=\""@ + r.y@ + "\" class=\"label-concurrency\">Concurrency = "@ + r.concurrency@ + "</text>\n      <rect x=\"220\" y=\""@ + r.rect_ttft_y@ + "\" width=\""@ + r.ttft_w@ + "\" height=\"14\" rx=\"3\" fill=\"#7fb8a6\" />\n      <rect x=\"220\" y=\""@ + r.rect_itl_y@ + "\" width=\""@ + r.itl_w@ + "\" height=\"14\" rx=\"3\" fill=\"#6ba4d9\" />\n      <text x=\""@ + r.ttft_val_x@ + "\" y=\""@ + r.y_ttft_text@ + "\" class=\"label-stat\">TTFT "@ + r.ttft@ + "ms</text>\n      <text x=\""@ + r.itl_val_x@ + "\" y=\""@ + r.y_itl_text@ + "\" class=\"label-stat\">ITL "@ + r.itl@ + "ms</text>\n      <text x=\"760\" y=\""@ + r.y@ + "\" class=\"badge-tps\">"@ + r.tps@ + " tok/s</text>\n      <text x=\"920\" y=\""@ + r.y@ + "\" class=\"badge-power\">"@, r.power@, "</text>\n      <rect x=\"220\" y=\""@ + r.rect_ttft_y@ + "\" width=\""@ + r.ttft_w@ + "\" height=\"14\" rx=\"3\" fill=\"#7fb8a6\" />\n      <rect x=\"220\" y=\""@);
        lemma_contains_extend("\n    <g class=\"tier-row\">\n      <text x=\"30\" y=\""@ + r.y@ + "\" class=\"label-concurrency\">Concurrency = "@ + r.concurrency@ + "</text>\n      <rect x=\"220\" y=\""@ + r.rect_ttft_y@ + "\" width=\""@ + r.ttft_w@ + "\" height=\"14\" rx=\"3\" fill=\"#7fb8a6\" />\n      <rect x=\"220\" y=\""@ + r.rect_itl_y@ + "\" width=\""@ + r.itl_w@ + "\" height=\"14\" rx=\"3\" fill=\"#6ba4d9\" />\n      <text x=\""@ + r.ttft_val_x@ + "\" y=\""@ + r.y_ttft_text@ + "\" class=\"label-stat\">TTFT "@ + r.ttft@ + "ms</text>\n      <text x=\""@ + r.itl_val_x@ + "\" y=\""@ + r.y_itl_text@ + "\" class=\"label-stat\">ITL "@ + r.itl@ + "ms</text>\n      <text x=\"760\" y=\""@ + r.y@ + "\" class=\"badge-tps\">"@ + r.tps@ + " tok/s</text>\n      <text x=\"920\" y=\""@ + r.y@ + "\" class=\"badge-power\">"@ + r.power@, "W ("@, "</text>\n      <rect x=\"220\" y=\""@ + r.rect_ttft_y@ + "\" width=\""@ + r.ttft_w@ + "\" height=\"14\" rx=\"3\" fill=\"#7fb8a6\" />\n      <rect x=\"220\" y=\""@);
        lemma_contains_extend("\n    <g class=\"tier-row\">\n      <text x=\"30\" y=\""@ + r.y@ + "\" class=\"label-concurrency\">Concurrency = "@ + r.concurrency@ + "</text>\n      <rect x=\"220\" y=\""@ + r.rect_ttft_y@ + "\" width=\""@ + r.ttft_w@ + "\" height=\"14\" rx=\"3\" fill=\"#7fb8a6\" />\n      <rect x=\"220\" y=\""@ + r.rect_itl_y@ + "\" width=\""@ + r.itl_w@ + "\" height=\"14\" rx=\"3\" fill=\"#6ba4d9\" />\n      <text x=\""@ + r.ttft_val_x@ + "\" y=\""@ + r.y_ttft_text@ + "\" class=\"label-stat\">TTFT "@ + r.ttft@ + "ms</text>\n      <text x=\""@ + r.itl_val_x@ + "\" y=\""@ + r.y_itl_text@ + "\" class=\"label-stat\">ITL "@ + r.itl@ + "ms</text>\n      <text x=\"760\" y=\""@ + r.y@ + "\" class=\"badge-tps\">"@ + r.tps@ + " tok/s</text>\n      <text x=\"920\" y=\""@ + r.y@ + "\" class=\"badge-power\">"@ + r.power@ + "W ("@, r.joules@, "</text>\n      <rect x=\"220\" y=\""@ + r.rect_ttft_y@ + "\" width=\""@ + r.ttft_w@ + "\" height=\"14\" rx=\"3\" fill=\"#7fb8a6\" />\n      <rect x=\"220\" y=\""@);
        lemma_contains_extend("\n    <g class=\"tier-row\">\n      <text x=\"30\" y=\""@ + r.y@ + "\" class=\"label-concurrency\">Concurrency = "@ + r.concurrency@ + "</text>\n      <rect x=\"220\" y=\""@ + r.rect_ttft_y@ + "\" width=\""@ + r.ttft_w@ + "\" height=\"14\" rx=\"3\" fill=\"#7fb8a6\" />\n      <rect x=\"220\" y=\""@ + r.rect_itl_y@ + "\" width=\""@ + r.itl_w@ + "\" height=\"14\" rx=\"3\" fill=\"#6ba4d9\" />\n      <text x=\""@ + r.ttft_val_x@ + "\" y=\""@ + r.y_ttft_text@ + "\" class=\"label-stat\">TTFT "@ + r.ttft@ + "ms</text>\n      <text x=\""@ + r.itl_val_x@ + "\" y=\""@ + r.y_itl_text@ + "\" class=\"label-stat\">ITL "@ + r.itl@ + "ms</text>\n      <text x=\"760\" y=\""@ + r.y@ + "\" class=\"badge-tps\">"@ + r.tps@ + " tok/s</text>\n      <text x=\"920\" y=\""@ + r.y@ + "\" class=\"badge-power\">"@ + r.power@ + "W ("@ + r.joules@, " J/tok)</text>\n    </g>"@, "</text>\n      <rect x=\"220\" y=\""@ + r.rect_ttft_y@ + "\" width=\""@ + r.ttft_w@ + "\" height=\"14\" rx=\"3\" fill=\"#7fb8a6\" />\n      <rect x=\"220\" y=\""@);
    }
    assert(contains_seq(pressure_row_text(r), "\" height=\"14\" rx=\"3\" fill=\"#7fb8a6\" />\n      <rect x=\"220\" y=\""@ + r.rect_itl_y@ + "\" width=\""@ + r.itl_w@ + "\" height=\"14\" rx=\"3\" fill=\"#6ba4d9\" />\n      <text x=\""@)) by {
        lemma_concat_associative(("\n    <g class=\"tier-row\">\n      <text x=\"30\" y=\""@ + r.y@ + "\" class=\"label-concurrency\">Concurrency = "@ + r.concurrency@ + "</text>\n      <rect x=\"220\" y=\""@ + r.rect_ttft_y@ + "\" width=\""@ + r.ttft_w@), "\" height=\"14\" rx=\"3\" fill=\"#7fb8a6\" />\n      <rect x=\"220\" y=\""@, r.rect_itl_y@);
        assert(("\n    <g class=\"tier-row\">\n      <text x=\"30\" y=\""@ + r.y@ + "\" class=\"label-concurrency\">Concurrency = "@ + r.concurrency@ + "</text>\n      <rect x=\"220\" y=\""@ + r.rect_ttft_y@ + "\" width=\""@ + r.ttft_w@) + ("\" height=\"14\" rx=\"3\" fill=\"#7fb8a6\" />\n      <rect x=\"220\" y=\""@ + r.rect_itl_y@) == "\n    <g class=\"tier-row\">\n      <text x=\"30\" y=\""@ + r.y@ + "\" class=\"label-concurrency\">Concurrency = "@ + r.concurrency@ + "</text>\n      <rect x=\"220\" y=\""@ + r.rect_ttft_y@ + "\" width=\""@ + r.ttft_w@ + "\" height=\"14\" rx=\"3\" fill=\"#7fb8a6\" />\n      <rect x=\"220\" y=\""@ + r.rect_itl_y@);
        lemma_concat_associative(("\n    <g class=\"tier-row\">\n      <text x=\"30\" y=\""@ + r.y@ + "\" class=\"label-concurrency\">Concurrency = "@ + r.concurrency@ + "</text>\n      <rect x=\"220\" y=\""@ + r.rect_ttft_y@ + "\" width=\""@ + r.ttft_w@), "\" height=\"14\" rx=\"3\" fill=\"#7fb8a6\" />\n      <rect x=\"220\" y=\""@ + r.rect_itl_y@, "\" width=\""@);
        assert(("\n    <g class=\"tier-row\">\n      <text x=\"30\" y=\""@ + r.y@ + "\" class=\"label-concurrency\">Concurrency = "@ + r.concurrency@ + "</text>\n      <rect x=\"220\" y=\""@ + r.rect_ttft_y@ + "\" width=\""@ + r.ttft_w@) + ("\" height=\"14\" rx=\"3\" fill=\"#7fb8a6\" />\n      <rect x=\"220\" y=\""@ + r.rect_itl_y@ + "\" width=\""@) == "\n    <g class=\"tier-row\">\n      <text x=\"30\" y=\""@ + r.y@ + "\" class=\"label-concurrency\">Concurrency = "@ + r.concurrency@ + "</text>\n      <rect x=\"220\" y=\""@ + r.rect_ttft_y@ + "\" width=\""@ + r.ttft_w@ + "\" height=\"14\" rx=\"3\" fill=\"#7fb8a6\" />\n      <rect x=\"220\" y=\""@ + r.rect_itl_y@ + "\" width=\""@);
        lemma_concat_associative(("\n    <g class=\"tier-row\">\n      <text x=\"30\" y=\""@ + r.y@ + "\" class=\"label-concurrency\">Concurrency = "@ + r.concurrency@ + "</text>\n      <rect x=\"220\" y=\""@ + r.rect_ttft_y@ + "\" width=\""@ + r.ttft_w@), "\" height=\"14\" rx=\"3\" fill=\"#7fb8a6\" />\n      <rect x=\"220\" y=\""@ + r.rect_itl_y@ + "\" width=\""@, r.itl_w@);
        assert(("\n    <g class=\"tier-row\">\n      <text x=\"30\" y=\""@ + r.y@ + "\" class=\"label-concurrency\">Concurrency = "@ + r.concurrency@ + "</text>\n      <rect x=\"220\" y=\""@ + r.rect_ttft_y@ + "\" width=\""@ + r.ttft_w@) + ("\" height=\"14\" rx=\"3\" fill=\"#7fb8a6\" />\n      <rect x=\"220\" y=\""@ + r.rect_itl_y@ + "\" width=\""@ + r.itl_w@) == "\n    <g class=\"tier-row\">\n      <text x=\"30\" y=\""@ + r.y@ + "\" class=\"label-concurrency\">Concurrency = "@ + r.concurrency@ + "</text>\n      <rect x=\"220\" y=\""@ + r.rect_ttft_y@ + "\" width=\""@ + r.ttft_w@ + "\" height=\"14\" rx=\"3\" fill=\"#7fb8a6\" />\n      <rect x=\"220\" y=\""@ + r.rect_itl_y@ + "\" width=\""@ + r.itl_w@);
        lemma_concat_associative(("\n    <g class=\"tier-row\">\n      <text x=\"30\" y=\""@ + r.y@ + "\" class=\"label-concurrency\">Concurrency = "@ + r.concurrency@ + "</text>\n      <rect x=\"220\" y=\""@ + r.rect_ttft_y@ + "\" width=\""@ + r.ttft_w@), "\" height=\"14\" rx=\"3\" fill=\"#7fb8a6\" />\n      <rect x=\"220\" y=\""@ + r.rect_itl_y@ + "\" width=\""@ + r.itl_w@, "\" height=\"14\" rx=\"3\" fill=\"#6ba4d9\" />\n      <text x=\""@);
        assert(("\n    <g class=\"tier-row\">\n      <text x=\"30\" y=\""@ + r.y@ + "\" class=\"label-concurrency\">Concurrency = "@ + r.concurrency@ + "</text>\n      <rect x=\"220\" y=\""@ + r.rect_ttft_y@ + "\" width=\""@ + r.ttft_w@) + ("\" height=\"14\" rx=\"3\" fill=\"#7fb8a6\" />\n      <rect x=\"220\" y=\""@ + r.rect_itl_y@ + "\" width=\""@ + r.itl_w@ + "\" height=\"14\" rx=\"3\" fill=\"#6ba4d9\" />\n      <text x=\""@) == "\n    <g class=\"tier-row\">\n      <text x=\"30\" y=\""@ + r.y@ + "\" class=\"label-concurrency\">Concurrency = "@ + r.concurrency@ + "</text>\n      <rect x=\"220\" y=\""@ + r.rect_ttft_y@ + "\" width=\""@ + r.ttft_w@ + "\" height=\"14\" rx=\"3\" fill=\"#7fb8a6\" />\n      <rect x=\"220\" y=\""@ + r.rect_itl_y@ + "\" width=\""@ + r.itl_w@ + "\" height=\"14\" rx=\"3\" fill=\"#6ba4d9\" />\n      <text x=\""@);
        lemma_contains_tail(("\n    <g class=\"tier-row\">\n      <text x=\"30\" y=\""@ + r.y@ + "\" class=\"label-concurrency\">Concurrency = "@ + r.concurrency@ + "</text>\n      <rect x=\"220\" y=\""@ + r.rect_ttft_y@ + "\" width=\""@ + r.ttft_w@), "\" height=\"14\" rx=\"3\" fill=\"#7fb8a6\" />\n      <rect x=\"220\" y=\""@ + r.rect_itl_y@ + "\" width=\""@ + r.itl_w@ + "\" height=\"14\" rx=\"3\" fill=\"#6ba4d9\" />\n      <text x=\""@);
        lemma_contains_extend("\n    <g class=\"tier-row\">\n      <text x=\"30\" y=\""@ + r.y@ + "\" class=\"label-concurrency\">Concurrency = "@ + r.concurrency@ + "</text>\n      <rect x=\"220\" y=\""@ + r.rect_ttft_y@ + "\" width=\""@ + r.ttft_w@ + "\" height=\"14\" rx=\"3\" fill=\"#7fb8a6\" />\n      <rect x=\"220\" y=\""@ + r.rect_itl_y@ + "\" width=\""@ + r.itl_w@ + "\" height=\"14\" rx=\"3\" fill=\"#6ba4d9\" />\n      <text x=\""@, r.ttft_val_x@, "\" height=\"14\" rx=\"3\" fill=\"#7fb8a6\" />\n      <rect x=\"220\" y=\""@ + r.rect_itl_y@ + "\" width=\""@ + r.itl_w@ + "\" height=\"14\" rx=\"3\" fill=\"#6ba4d9\" />\n      <text x=\""@);
        lemma_contains_extend("\n    <g class=\"tier-row\">\n      <text x=\"30\" y=\""@ + r.y@ + "\" class=\"label-concurrency\">Concurrency = "@ + r.concurrency@ + "</text>\n      <rect x=\"220\" y=\""@ + r.rect_ttft_y@ + "\" width=\""@ + r.ttft_w@ + "\" height=\"14\" rx=\"3\" fill=\"#7fb8a6\" />\n      <rect x=\"220\" y=\""@ + r.rect_itl_y@ + "\" width=\""@ + r.itl_w@ + "\" height=\"14\" rx=\"3\" fill=\"#6ba4d9\" />\n      <text x=\""@ + r.ttft_val_x@, "\" y=\""@, "\" height=\"14\" rx=\"3\" fill=\"#7fb8a6\" />\n      <rect x=\"220\" y=\""@ + r.rect_itl_y@ + "\" width=\""@ + r.itl_w@ + "\" height=\"14\" rx=\"3\" fill=\"#6ba4d9\" />\n      <text x=\""@);
        lemma_contains_extend("\n    <g class=\"tier-row\">\n      <text x=\"30\" y=\""@ + r.y@ + "\" class=\"label-concurrency\">Concurrency = "@ + r.concurrency@ + "</text>\n      <rect x=\"220\" y=\""@ + r.rect_ttft_y@ + "\" width=\""@ + r.ttft_w@ + "\" height=\"14\" rx=\"3\" fill=\"#7fb8a6\" />\n      <rect x=\"220\" y=\""@ + r.rect_itl_y@ + "\" width=\""@ + r.itl_w@ + "\" height=\"14\" rx=\"3\" fill=\"#6ba4d9\" />\n      <text x=\""@ + r.ttft_val_x@ + "\" y=\""@, r.y_ttft_text@, "\" height=\"14\" rx=\"3\" fill=\"#7fb8a6\" />\n      <rect x=\"220\" y=\""@ + r.rect_itl_y@ + "\" width=\""@ + r.itl_w@ + "\" height=\"14\" rx=\"3\" fill=\"#6ba4d9\" />\n      <text x=\""@);
        lemma_contains_extend("\n    <g class=\"tier-row\">\n      <text x=\"30\" y=\""@ + r.y@ + "\" class=\"label-concurrency\">Concurrency = "@ + r.concurrency@ + "</text>\n      <rect x=\"220\" y=\""@ + r.rect_ttft_y@ + "\" width=\""@ + r.ttft_w@ + "\" height=\"14\" rx=\"3\" fill=\"#7fb8a6\" />\n      <rect x=\"220\" y=\""@ + r.rect_itl_y@ + "\" width=\""@ + r.itl_w@ + "\" height=\"14\" rx=\"3\" fill=\"#6ba4d9\" />\n      <text x=\""@ + r.ttft_val_x@ + "\" y=\""@ + r.y_ttft_text@, "\" class=\"label-stat\">TTFT "@, "\" height=\"14\" rx=\"3\" fill=\"#7fb8a6\" />\n      <rect x=\"220\" y=\""@ + r.rect_itl_y@ + "\" width=\""@ + r.itl_w@ + "\" height=\"14\" rx=\"3\" fill=\"#6ba4d9\" />\n      <text x=\""@);
        lemma_contains_extend("\n    <g class=\"tier-row\">\n      <text x=\"30\" y=\""@ + r.y@ + "\" class=\"label-concurrency\">Concurrency = "@ + r.concurrency@ + "</text>\n      <rect x=\"220\" y=\""@ + r.rect_ttft_y@ + "\" width=\""@ + r.ttft_w@ + "\" height=\"14\" rx=\"3\" fill=\"#7fb8a6\" />\n      <rect x=\"220\" y=\""@ + r.rect_itl_y@ + "\" width=\""@ + r.itl_w@ + "\" height=\"14\" rx=\"3\" fill=\"#6ba4d9\" />\n      <text x=\""@ + r.ttft_val_x@ + "\" y=\""@ + r.y_ttft_text@ + "\" class=\"label-stat\">TTFT "@, r.ttft@, "\" height=\"14\" rx=\"3\" fill=\"#7fb8a6\" />\n      <rect x=\"220\" y=\""@ + r.rect_itl_y@ + "\" width=\""@ + r.itl_w@ + "\" height=\"14\" rx=\"3\" fill=\"#6ba4d9\" />\n      <text x=\""@);
        lemma_contains_extend("\n    <g class=\"tier-row\">\n      <text x=\"30\" y=\""@ + r.y@ + "\" class=\"label-concurrency\">Concurrency = "@ + r.concurrency@ + "</text>\n      <rect x=\"220\" y=\""@ + r.rect_ttft_y@ + "\" width=\""@ + r.ttft_w@ + "\" height=\"14\" rx=\"3\" fill=\"#7fb8a6\" />\n      <rect x=\"220\" y=\""@ + r.rect_itl_y@ + "\" width=\""@ + r.itl_w@ + "\" height=\"14\" rx=\"3\" fill=\"#6ba4d9\" />\n      <text x=\""@ + r.ttft_val_x@ + "\" y=\""@ + r.y_ttft_text@ + "\" class=\"label-stat\">TTFT "@ + r.ttft@, "ms</text>\n      <text x=\""@, "\" height=\"14\" rx=\"3\" fill=\"#7fb8a6\" />\n      <rect x=\"220\" y=\""@ + r.rect_itl_y@ + "\" width=\""@ + r.itl_w@ + "\" height=\"14\" rx=\"3\" fill=\"#6ba4d9\" />\n      <text x=\""@);
        lemma_contains_extend("\n    <g class=\"tier-row\">\n      <text x=\"30\" y=\""@ + r.y@ + "\" class=\"label-concurrency\">Concurrency = "@ + r.concurrency@ + "</text>\n      <rect x=\"220\" y=\""@ + r.rect_ttft_y@ + "\" width=\""@ + r.ttft_w@ + "\" height=\"14\" rx=\"3\" fill=\"#7fb8a6\" />\n      <rect x=\"220\" y=\""@ + r.rect_itl_y@ + "\" width=\""@ + r.itl_w@ + "\" height=\"14\" rx=\"3\" fill=\"#6ba4d9\" />\n      <text x=\""@ + r.ttft_val_x@ + "\" y=\""@ + r.y_ttft_text@ + "\" class=\"label-stat\">TTFT "@ + r.ttft@ + "ms</text>\n      <text x=\""@, r.itl_val_x@, "\" height=\"14\" rx=\"3\" fill=\"#7fb8a6\" />\n      <rect x=\"220\" y=\""@ + r.rect_itl_y@ + "\" width=\""@ + r.itl_w@ + "\" height=\"14\" rx=\"3\" fill=\"#6ba4d9\" />\n      <text x=\""@);
        lemma_contains_extend("\n    <g class=\"tier-row\">\n      <text x=\"30\" y=\""@ + r.y@ + "\" class=\"label-concurrency\">Concurrency = "@ + r.concurrency@ + "</text>\n      <rect x=\"220\" y=\""@ + r.rect_ttft_y@ + "\" width=\""@ + r.ttft_w@ + "\" height=\"14\" rx=\"3\" fill=\"#7fb8a6\" />\n      <rect x=\"220\" y=\""@ + r.rect_itl_y@ + "\" width=\""@ + r.itl_w@ + "\" height=\"14\" rx=\"3\" fill=\"#6ba4d9\" />\n      <text x=\""@ + r.ttft_val_x@ + "\" y=\""@ + r.y_ttft_text@ + "\" class=\"label-stat\">TTFT "@ + r.ttft@ + "ms</text>\n      <text x=\""@ + r.itl_val_x@, "\" y=\""@, "\" height=\"14\" rx=\"3\" fill=\"#7fb8a6\" />\n      <rect x=\"220\" y=\""@ + r.rect_itl_y@ + "\" width=\""@ + r.itl_w@ + "\" height=\"14\" rx=\"3\" fill=\"#6ba4d9\" />\n      <text x=\""@);
        lemma_contains_extend("\n    <g class=\"tier-row\">\n      <text x=\"30\" y=\""@ + r.y@ + "\" class=\"label-concurrency\">Concurrency = "@ + r.concurrency@ + "</text>\n      <rect x=\"220\" y=\""@ + r.rect_ttft_y@ + "\" width=\""@ + r.ttft_w@ + "\" height=\"14\" rx=\"3\" fill=\"#7fb8a6\" />\n      <rect x=\"220\" y=\""@ + r.rect_itl_y@ + "\" width=\""@ + r.itl_w@ + "\" height=\"14\" rx=\"3\" fill=\"#6ba4d9\" />\n      <text x=\""@ + r.ttft_val_x@ + "\" y=\""@ + r.y_ttft_text@ + "\" class=\"label-stat\">TTFT "@ + r.ttft@ + "ms</text>\n      <text x=\""@ + r.itl_val_x@ + "\" y=\""@, r.y_itl_text@, "\" height=\"14\" rx=\"3\" fill=\"#7fb8a6\" />\n      <rect x=\"220\" y=\""@ + r.rect_itl_y@ + "\" width=\""@ + r.itl_w@ + "\" height=\"14\" rx=\"3\" fill=\"#6ba4d9\" />\n      <text x=\""@);
        lemma_contains_extend("\n    <g class=\"tier-row\">\n      <text x=\"30\" y=\""@ + r.y@ + "\" class=\"label-concurrency\">Concurrency = "@ + r.concurrency@ + "</text>\n      <rect x=\"220\" y=\""@ + r.rect_ttft_y@ + "\" width=\""@ + r.ttft_w@ + "\" height=\"14\" rx=\"3\" fill=\"#7fb8a6\" />\n      <rect x=\"220\" y=\""@ + r.rect_itl_y@ + "\" width=\""@ + r.itl_w@ + "\" height=\"14\" rx=\"3\" fill=\"#6ba4d9\" />\n      <text x=\""@ + r.ttft_val_x@ + "\" y=\""@ + r.y_ttft_text@ + "\" class=\"label-stat\">TTFT "@ + r.ttft@ + "ms</text>\n      <text x=\""@ + r.itl_val_x@ + "\" y=\""@ + r.y_itl_text@, "\" class=\"label-stat\">ITL "@, "\" height=\"14\" rx=\"3\" fill=\"#7fb8a6\" />\n      <rect x=\"220\" y=\""@ + r.rect_itl_y@ + "\" width=\""@ + r.itl_w@ + "\" height=\"14\" rx=\"3\" fill=\"#6ba4d9\" />\n      <text x=\""@);
        lemma_contains_extend("\n    <g class=\"tier-row\">\n      <text x=\"30\" y=\""@ + r.y@ + "\" class=\"label-concurrency\">Concurrency = "@ + r.concurrency@ + "</text>\n      <rect x=\"220\" y=\""@ + r.rect_ttft_y@ + "\" width=\""@ + r.ttft_w@ + "\" height=\"14\" rx=\"3\" fill=\"#7fb8a6\" />\n      <rect x=\"220\" y=\""@ + r.rect_itl_y@ + "\" width=\""@ + r.itl_w@ + "\" height=\"14\" rx=\"3\" fill=\"#6ba4d9\" />\n      <text x=\""@ + r.ttft_val_x@ + "\" y=\""@ + r.y_ttft_text@ + "\" class=\"label-stat\">TTFT "@ + r.ttft@ + "ms</text>\n      <text x=\""@ + r.itl_val_x@ + "\" y=\""@ + r.y_itl_text@ + "\" class=\"label-stat\">ITL "@, r.itl@, "\" height=\"14\" rx=\"3\" fill=\"#7fb8a6\" />\n      <rect x=\"220\" y=\""@ + r.rect_itl_y@ + "\" width=\""@ + r.itl_w@ + "\" height=\"14\" rx=\"3\" fill=\"#6ba4d9\" />\n      <text x=\""@);
        lemma_contains_extend("\n    <g class=\"tier-row\">\n      <text x=\"30\" y=\""@ + r.y@ + "\" class=\"label-concurrency\">Concurrency = "@ + r.concurrency@ + "</text>\n      <rect x=\"220\" y=\""@ + r.rect_ttft_y@ + "\" width=\""@ + r.ttft_w@ + "\" height=\"14\" rx=\"3\" fill=\"#7fb8a6\" />\n      <rect x=\"220\" y=\""@ + r.rect_itl_y@ + "\" width=\""@ + r.itl_w@ + "\" height=\"14\" rx=\"3\" fill=\"#6ba4d9\" />\n      <text x=\""@ + r.ttft_val_x@ + "\" y=\""@ + r.y_ttft_text@ + "\" class=\"label-stat\">TTFT "@ + r.ttft@ + "ms</text>\n      <text x=\""@ + r.itl_val_x@ + "\" y=\""@ + r.y_itl_text@ + "\" class=\"label-stat\">ITL "@ + r.itl@, "ms</text>\n      <text x=\"760\" y=\""@, "\" height=\"14\" rx=\"3\" fill=\"#7fb8a6\" />\n      <rect x=\"220\" y=\""@ + r.rect_itl_y@ + "\" width=\""@ + r.itl_w@ + "\" height=\"14\" rx=\"3\" fill=\"#6ba4d9\" />\n      <text x=\""@);
        lemma_contains_extend("\n    <g class=\"tier-row\">\n      <text x=\"30\" y=\""@ + r.y@ + "\" class=\"label-concurrency\">Concurrency = "@ + r.concurrency@ + "</text>\n      <rect x=\"220\" y=\""@ + r.rect_ttft_y@ + "\" width=\""@ + r.ttft_w@ + "\" height=\"14\" rx=\"3\" fill=\"#7fb8a6\" />\n      <rect x=\"220\" y=\""@ + r.rect_itl_y@ + "\" width=\""@ + r.itl_w@ + "\" height=\"14\" rx=\"3\" fill=\"#6ba4d9\" />\n      <text x=\""@ + r.ttft_val_x@ + "\" y=\""@ + r.y_ttft_text@ + "\" class=\"label-stat\">TTFT "@ + r.ttft@ + "ms</text>\n      <text x=\""@ + r.itl_val_x@ + "\" y=\""@ + r.y_itl_text@ + "\" class=\"label-stat\">ITL "@ + r.itl@ + "ms</text>\n      <text x=\"760\" y=\""@, r.y@, "\" height=\"14\" rx=\"3\" fill=\"#7fb8a6\" />\n      <rect x=\"220\" y=\""@ + r.rect_itl_y@ + "\" width=\""@ + r.itl_w@ + "\" height=\"14\" rx=\"3\" fill=\"#6ba4d9\" />\n      <text x=\""@);
        lemma_contains_extend("\n    <g class=\"tier-row\">\n      <text x=\"30\" y=\""@ + r.y@ + "\" class=\"label-concurrency\">Concurrency = "@ + r.concurrency@ + "</text>\n      <rect x=\"220\" y=\""@ + r.rect_ttft_y@ + "\" width=\""@ + r.ttft_w@ + "\" height=\"14\" rx=\"3\" fill=\"#7fb8a6\" />\n      <rect x=\"220\" y=\""@ + r.rect_itl_y@ + "\" width=\""@ + r.itl_w@ + "\" height=\"14\" rx=\"3\" fill=\"#6ba4d9\" />\n      <text x=\""@ + r.ttft_val_x@ + "\" y=\""@ + r.y_ttft_text@ + "\" class=\"label-stat\">TTFT "@ + r.ttft@ + "ms</text>\n      <text x=\""@ + r.itl_val_x@ + "\" y=\""@ + r.y_itl_text@ + "\" class=\"label-stat\">ITL "@ + r.itl@ + "ms</text>\n      <text x=\"760\" y=\""@ + r.y@, "\" class=\"badge-tps\">"@, "\" height=\"14\" rx=\"3\" fill=\"#7fb8a6\" />\n      <rect x=\"220\" y=\""@ + r.rect_itl_y@ + "\" width=\""@ + r.itl_w@ + "\" height=\"14\" rx=\"3\" fill=\"#6ba4d9\" />\n      <text x=\""@);
        lemma_contains_extend("\n    <g class=\"tier-row\">\n      <text x=\"30\" y=\""@ + r.y@ + "\" class=\"label-concurrency\">Concurrency = "@ + r.concurrency@ + "</text>\n      <rect x=\"220\" y=\""@ + r.rect_ttft_y@ + "\" width=\""@ + r.ttft_w@ + "\" height=\"14\" rx=\"3\" fill=\"#7fb8a6\" />\n      <rect x=\"220\" y=\""@ + r.rect_itl_y@ + "\" width=\""@ + r.itl_w@ + "\" height=\"14\" rx=\"3\" fill=\"#6ba4d9\" />\n      <text x=\""@ + r.ttft_val_x@ + "\" y=\""@ + r.y_ttft_text@ + "\" class=\"label-stat\">TTFT "@ + r.ttft@ + "ms</text>\n      <text x=\""@ + r.itl_val_x@ + "\" y=\""@ + r.y_itl_text@ + "\" class=\"label-stat\">ITL "@ + r.itl@ + "ms</text>\n      <text x=\"760\" y=\""@ + r.y@ + "\" class=\"badge-tps\">"@, r.tps@, "\" height=\"14\" rx=\"3\" fill=\"#7fb8a6\" />\n      <rect x=\"220\" y=\""@ + r.rect_itl_y@ + "\" width=\""@ + r.itl_w@ + "\" height=\"14\" rx=\"3\" fill=\"#6ba4d9\" />\n      <text x=\""@);
        lemma_contains_extend("\n    <g class=\"tier-row\">\n      <text x=\"30\" y=\""@ + r.y@ + "\" class=\"label-concurrency\">Concurrency = "@ + r.concurrency@ + "</text>\n      <rect x=\"220\" y=\""@ + r.rect_ttft_y@ + "\" width=\""@ + r.ttft_w@ + "\" height=\"14\" rx=\"3\" fill=\"#7fb8a6\" />\n      <rect x=\"220\" y=\""@ + r.rect_itl_y@ + "\" width=\""@ + r.itl_w@ + "\" height=\"14\" rx=\"3\" fill=\"#6ba4d9\" />\n      <text x=\""@ + r.ttft_val_x@ + "\" y=\""@ + r.y_ttft_text@ + "\" class=\"label-stat\">TTFT "@ + r.ttft@ + "ms</text>\n      <text x=\""@ + r.itl_val_x@ + "\" y=\""@ + r.y_itl_text@ + "\" class=\"label-stat\">ITL "@ + r.itl@ + "ms</text>\n      <text x=\"760\" y=\""@ + r.y@ + "\" class=\"badge-tps\">"@ + r.tps@, " tok/s</text>\n      <text x=\"920\" y=\""@, "\" height=\"14\" rx=\"3\" fill=\"#7fb8a6\" />\n      <rect x=\"220\" y=\""@ + r.rect_itl_y@ + "\" width=\""@ + r.itl_w@ + "\" height=\"14\" rx=\"3\" fill=\"#6ba4d9\" />\n      <text x=\""@);
        lemma_contains_extend("\n    <g class=\"tier-row\">\n      <text x=\"30\" y=\""@ + r.y@ + "\" class=\"label-concurrency\">Concurrency = "@ + r.concurrency@ + "</text>\n      <rect x=\"220\" y=\""@ + r.rect_ttft_y@ + "\" width=\""@ + r.ttft_w@ + "\" height=\"14\" rx=\"3\" fill=\"#7fb8a6\" />\n      <rect x=\"220\" y=\""@ + r.rect_itl_y@ + "\" width=\""@ + r.itl_w@ + "\" height=\"14\" rx=\"3\" fill=\"#6ba4d9\" />\n      <text x=\""@ + r.ttft_val_x@ + "\" y=\""@ + r.y_ttft_text@ + "\" class=\"label-stat\">TTFT "@ + r.ttft@ + "ms</text>\n      <text x=\""@ + r.itl_val_x@ + "\" y=\""@ + r.y_itl_text@ + "\" class=\"label-stat\">ITL "@ + r.itl@ + "ms</text>\n      <text x=\"760\" y=\""@ + r.y@ + "\" class=\"badge-tps\">"@ + r.tps@ + " tok/s</text>\n      <text x=\"920\" y=\""@, r.y@, "\" height=\"14\" rx=\"3\" fill=\"#7fb8a6\" />\n      <rect x=\"220\" y=\""@ + r.rect_itl_y@ + "\" width=\""@ + r.itl_w@ + "\" height=\"14\" rx=\"3\" fill=\"#6ba4d9\" />\n      <text x=\""@);
        lemma_contains_extend("\n    <g class=\"tier-row\">\n      <text x=\"30\" y=\""@ + r.y@ + "\" class=\"label-concurrency\">Concurrency = "@ + r.concurrency@ + "</text>\n      <rect x=\"220\" y=\""@ + r.rect_ttft_y@ + "\" width=\""@ + r.ttft_w@ + "\" height=\"14\" rx=\"3\" fill=\"#7fb8a6\" />\n      <rect x=\"220\" y=\""@ + r.rect_itl_y@ + "\" width=\""@ + r.itl_w@ + "\" height=\"14\" rx=\"3\" fill=\"#6ba4d9\" />\n      <text x=\""@ + r.ttft_val_x@ + "\" y=\""@ + r.y_ttft_text@ + "\" class=\"label-stat\">TTFT "@ + r.ttft@ + "ms</text>\n      <text x=\""@ + r.itl_val_x@ + "\" y=\""@ + r.y_itl_text@ + "\" class=\"label-stat\">ITL "@ + r.itl@ + "ms</text>\n      <text x=\"760\" y=\""@ + r.y@ + "\" class=\"badge-tps\">"@ + r.tps@ + " tok/s</text>\n      <text x=\"920\" y=\""@ + r.y@, "\" class=\"badge-power\">"@, "\" height=\"14\" rx=\"3\" fill=\"#7fb8a6\" />\n      <rect x=\"220\" y=\""@ + r.rect_itl_y@ + "\" width=\""@ + r.itl_w@ + "\" height=\"14\" rx=\"3\" fill=\"#6ba4d9\" />\n      <text x=\""@);
        lemma_contains_extend("\n    <g class=\"tier-row\">\n      <text x=\"30\" y=\""@ + r.y@ + "\" class=\"label-concurrency\">Concurrency = "@ + r.concurrency@ + "</text>\n      <rect x=\"220\" y=\""@ + r.rect_ttft_y@ + "\" width=\""@ + r.ttft_w@ + "\" height=\"14\" rx=\"3\" fill=\"#7fb8a6\" />\n      <rect x=\"220\" y=\""@ + r.rect_itl_y@ + "\" width=\""@ + r.itl_w@ + "\" height=\"14\" rx=\"3\" fill=\"#6ba4d9\" />\n      <text x=\""@ + r.ttft_val_x@ + "\" y=\""@ + r.y_ttft_text@ + "\" class=\"label-stat\">TTFT "@ + r.ttft@ + "ms</text>\n      <text x=\""@ + r.itl_val_x@ + "\" y=\""@ + r.y_itl_text@ + "\" class=\"label-stat\">ITL "@ + r.itl@ + "ms</text>\n      <text x=\"760\" y=\""@ + r.y@ + "\" class=\"badge-tps\">"@ + r.tps@ + " tok/s</text>\n      <text x=\"920\" y=\""@ + r.y@ + "\" class=\"badge-power\">"@, r.power@, "\" height=\"14\" rx=\"3\" fill=\"#7fb8a6\" />\n      <rect x=\"220\" y=\""@ + r.rect_itl_y@ + "\" width=\""@ + r.itl_w@ + "\" height=\"14\" rx=\"3\" fill=\"#6ba4d9\" />\n      <text x=\""@);
        lemma_contains_extend("\n    <g class=\"tier-row\">\n      <text x=\"30\" y=\""@ + r.y@ + "\" class=\"label-concurrency\">Concurrency = "@ + r.concurrency@ + "</text>\n      <rect x=\"220\" y=\""@ + r.rect_ttft_y@ + "\" width=\""@ + r.ttft_w@ + "\" height=\"14\" rx=\"3\" fill=\"#7fb8a6\" />\n      <rect x=\"220\" y=\""@ + r.rect_itl_y@ + "\" width=\""@ + r.itl_w@ + "\" height=\"14\" rx=\"3\" fill=\"#6ba4d9\" />\n      <text x=\""@ + r.ttft_val_x@ + "\" y=\""@ + r.y_ttft_text@ + "\" class=\"label-stat\">TTFT "@ + r.ttft@ + "ms</text>\n      <text x=\""@ + r.itl_val_x@ + "\" y=\""@ + r.y_itl_text@ + "\" class=\"label-stat\">ITL "@ + r.itl@ + "ms</text>\n      <text x=\"760\" y=\""@ + r.y@ + "\" class=\"badge-tps\">"@ + r.tps@ + " tok/s</text>\n      <text x=\"920\" y=\""@ + r.y@ + "\" class=\"badge-power\">"@ + r.power@, "W ("@, "\" height=\"14\" rx=\"3\" fill=\"#7fb8a6\" />\n      <rect x=\"220\" y=\""@ + r.rect_itl_y@ + "\" width=\""@ + r.itl_w@ + "\" height=\"14\" rx=\"3\" fill=\"#6ba4d9\" />\n      <text x=\""@);
        lemma_contains_extend("\n    <g class=\"tier-row\">\n      <text x=\"30\" y=\""@ + r.y@ + "\" class=\"label-concurrency\">Concurrency = "@ + r.concurrency@ + "</text>\n      <rect x=\"220\" y=\""@ + r.rect_ttft_y@ + "\" width=\""@ + r.ttft_w@ + "\" height=\"14\" rx=\"3\" fill=\"#7fb8a6\" />\n      <rect x=\"220\" y=\""@ + r.rect_itl_y@ + "\" width=\""@ + r.itl_w@ + "\" height=\"14\" rx=\"3\" fill=\"#6ba4d9\" />\n      <text x=\""@ + r.ttft_val_x@ + "\" y=\""@ + r.y_ttft_text@ + "\" class=\"label-stat\">TTFT "@ + r.ttft@ + "ms</text>\n      <text x=\""@ + r.itl_val_x@ + "\" y=\""@ + r.y_itl_text@ + "\" class=\"label-stat\">ITL "@ + r.itl@ + "ms</text>\n      <text x=\"760\" y=\""@ + r.y@ + "\" class=\"badge-tps\">"@ + r.tps@ + " tok/s</text>\n      <text x=\"920\" y=\""@ + r.y@ + "\" class=\"badge-power\">"@ + r.power@ + "W ("@, r.joules@, "\" height=\"14\" rx=\"3\" fill=\"#7fb8a6\" />\n      <rect x=\"220\" y=\""@ + r.rect_itl_y@ + "\" width=\""@ + r.itl_w@ + "\" height=\"14\" rx=\"3\" fill=\"#6ba4d9\" />\n      <text x=\""@);
        lemma_contains_extend("\n    <g class=\"tier-row\">\n      <text x=\"30\" y=\""@ + r.y@ + "\" class=\"label-concurrency\">Concurrency = "@ + r.concurrency@ + "</text>\n      <rect x=\"220\" y=\""@ + r.rect_ttft_y@ + "\" width=\""@ + r.ttft_w@ + "\" height=\"14\" rx=\"3\" fill=\"#7fb8a6\" />\n      <rect x=\"220\" y=\""@ + r.rect_itl_y@ + "\" width=\""@ + r.itl_w@ + "\" height=\"14\" rx=\"3\" fill=\"#6ba4d9\" />\n      <text x=\""@ + r.ttft_val_x@ + "\" y=\""@ + r.y_ttft_text@ + "\" class=\"label-stat\">TTFT "@ + r.ttft@ + "ms</text>\n      <text x=\""@ + r.itl_val_x@ + "\" y=\""@ + r.y_itl_text@ + "\" class=\"label-stat\">ITL "@ + r.itl@ + "ms</text>\n      <text x=\"760\" y=\""@ + r.y@ + "\" class=\"badge-tps\">"@ + r.tps@ + " tok/s</text>\n      <text x=\"920\" y=\""@ + r.y@ + "\" class=\"badge-power\">"@ + r.power@ + "W ("@ + r.joules@, " J/tok)</text>\n    </g>"@, "\" height=\"14\" rx=\"3\" fill=\"#7fb8a6\" />\n      <rect x=\"220\" y=\""@ + r.rect_itl_y@ + "\" width=\""@ + r.itl_w@ + "\" height=\"14\" rx=\"3\" fill=\"#6ba4d9\" />\n      <text x=\""@);
    }
    assert(contains_seq(pressure_row_text(r), "\" height=\"14\" rx=\"3\" fill=\"#6ba4d9\" />\n      <text x=\""@ + r.ttft_val_x@ + "\" y=\""@ + r.y_ttft_text@ + "\" class=\"label-stat\">TTFT "@ + r.ttft@ + "ms</text>\n      <text x=\""@)) by {
        lemma_concat_associative(("\n    <g class=\"tier-row\">\n      <text x=\"30\" y=\""@ + r.y@ + "\" class=\"label-concurrency\">Concurrency = "@ + r.concurrency@ + "</text>\n      <rect x=\"220\" y=\""@ + r.rect_ttft_y@ + "\" width=\""@ + r.ttft_w@ + "\" height=\"14\" rx=\"3\" fill=\"#7fb8a6\" />\n      <rect x=\"220\" y=\""@ + r.rect_itl_y@ + "\" width=\""@ + r.itl_w@), "\" height=\"14\" rx=\"3\" fill=\"#6ba4d9\" />\n      <text x=\""@, r.ttft_val_x@);
        assert(("\n    <g class=\"tier-row\">\n      <text x=\"30\" y=\""@ + r.y@ + "\" class=\"label-concurrency\">Concurrency = "@ + r.concurrency@ + "</text>\n      <rect x=\"220\" y=\""@ + r.rect_ttft_y@ + "\" width=\""@ + r.ttft_w@ + "\" height=\"14\" rx=\"3\" fill=\"#7fb8a6\" />\n      <rect x=\"220\" y=\""@ + r.rect_itl_y@ + "\" width=\""@ + r.itl_w@) + ("\" height=\"14\" rx=\"3\" fill=\"#6ba4d9\" />\n      <text x=\""@ + r.ttft_val_x@) == "\n    <g class=\"tier-row\">\n      <text x=\"30\" y=\""@ + r.y@ + "\" class=\"label-concurrency\">Concurrency = "@ + r.concurrency@ + "</text>\n      <rect x=\"220\" y=\""@ + r.rect_ttft_y@ + "\" width=\""@ + r.ttft_w@ + "\" height=\"14\" rx=\"3\" fill=\"#7fb8a6\" />\n      <rect x=\"220\" y=\""@ + r.rect_itl_y@ + "\" width=\""@ + r.itl_w@ + "\" height=\"14\" rx=\"3\" fill=\"#6ba4d9\" />\n      <text x=\""@ + r.ttft_val_x@);
        lemma_concat_associative(("\n    <g class=\"tier-row\">\n      <text x=\"30\" y=\""@ + r.y@ + "\" class=\"label-concurrency\">Concurrency = "@ + r.concurrency@ + "</text>\n      <rect x=\"220\" y=\""@ + r.rect_ttft_y@ + "\" width=\""@ + r.ttft_w@ + "\" height=\"14\" rx=\"3\" fill=\"#7fb8a6\" />\n      <rect x=\"220\" y=\""@ + r.rect_itl_y@ + "\" width=\""@ + r.itl_w@), "\" height=\"14\" rx=\"3\" fill=\"#6ba4d9\" />\n      <text x=\""@ + r.ttft_val_x@, "\" y=\""@);
        assert(("\n    <g class=\"tier-row\">\n      <text x=\"30\" y=\""@ + r.y@ + "\" class=\"label-concurrency\">Concurrency = "@ + r.concurrency@ + "</text>\n      <rect x=\"220\" y=\""@ + r.rect_ttft_y@ + "\" width=\""@ + r.ttft_w@ + "\" height=\"14\" rx=\"3\" fill=\"#7fb8a6\" />\n      <rect x=\"220\" y=\""@ + r.rect_itl_y@ + "\" width=\""@ + r.itl_w@) + ("\" height=\"14\" rx=\"3\" fill=\"#6ba4d9\" />\n      <text x=\""@ + r.ttft_val_x@ + "\" y=\""@) == "\n    <g class=\"tier-row\">\n      <text x=\"30\" y=\""@ + r.y@ + "\" class=\"label-concurrency\">Concurrency = "@ + r.concurrency@ + "</text>\n      <rect x=\"220\" y=\""@ + r.rect_ttft_y@ + "\" width=\""@ + r.ttft_w@ + "\" height=\"14\" rx=\"3\" fill=\"#7fb8a6\" />\n      <rect x=\"220\" y=\""@ + r.rect_itl_y@ + "\" width=\""@ + r.itl_w@ + "\" height=\"14\" rx=\"3\" fill=\"#6ba4d9\" />\n      <text x=\""@ + r.ttft_val_x@ + "\" y=\""@);
        lemma_concat_associative(("\n    <g class=\"tier-row\">\n      <text x=\"30\" y=\""@ + r.y@ + "\" class=\"label-concurrency\">Concurrency = "@ + r.concurrency@ + "</text>\n      <rect x=\"220\" y=\""@ + r.rect_ttft_y@ + "\" width=\""@ + r.ttft_w@ + "\" height=\"14\" rx=\"3\" fill=\"#7fb8a6\" />\n      <rect x=\"220\" y=\""@ + r.rect_itl_y@ + "\" width=\""@ + r.itl_w@), "\" height=\"14\" rx=\"3\" fill=\"#6ba4d9\" />\n      <text x=\""@ + r.ttft_val_x@ + "\" y=\""@, r.y_ttft_text@);
        assert(("\n    <g class=\"tier-row\">\n      <text x=\"30\" y=\""@ + r.y@ + "\" class=\"label-concurrency\">Concurrency = "@ + r.concurrency@ + "</text>\n      <rect x=\"220\" y=\""@ + r.rect_ttft_y@ + "\" width=\""@ + r.ttft_w@ + "\" height=\"14\" rx=\"3\" fill=\"#7fb8a6\" />\n      <rect x=\"220\" y=\""@ + r.rect_itl_y@ + "\" width=\""@ + r.itl_w@) + ("\" height=\"14\" rx=\"3\" fill=\"#6ba4d9\" />\n      <text x=\""@ + r.ttft_val_x@ + "\" y=\""@ + r.y_ttft_text@) == "\n    <g class=\"tier-row\">\n      <text x=\"30\" y=\""@ + r.y@ + "\" class=\"label-concurrency\">Concurrency = "@ + r.concurrency@ + "</text>\n      <rect x=\"220\" y=\""@ + r.rect_ttft_y@ + "\" width=\""@ + r.ttft_w@ + "\" height=\"14\" rx=\"3\" fill=\"#7fb8a6\" />\n      <rect x=\"220\" y=\""@ + r.rect_itl_y@ + "\" width=\""@ + r.itl_w@ + "\" height=\"14\" rx=\"3\" fill=\"#6ba4d9\" />\n      <text x=\""@ + r.ttft_val_x@ + "\" y=\""@ + r.y_ttft_text@);
        lemma_concat_associative(("\n    <g class=\"tier-row\">\n      <text x=\"30\" y=\""@ + r.y@ + "\" class=\"label-concurrency\">Concurrency = "@ + r.concurrency@ + "</text>\n      <rect x=\"220\" y=\""@ + r.rect_ttft_y@ + "\" width=\""@ + r.ttft_w@ + "\" height=\"14\" rx=\"3\" fill=\"#7fb8a6\" />\n      <rect x=\"220\" y=\""@ + r.rect_itl_y@ + "\" width=\""@ + r.itl_w@), "\" height=\"14\" rx=\"3\" fill=\"#6ba4d9\" />\n      <text x=\""@ + r.ttft_val_x@ + "\" y=\""@ + r.y_ttft_text@, "\" class=\"label-stat\">TTFT "@);
        assert(("\n    <g class=\"tier-row\">\n      <text x=\"30\" y=\""@ + r.y@ + "\" class=\"label-concurrency\">Concurrency = "@ + r.concurrency@ + "</text>\n      <rect x=\"220\" y=\""@ + r.rect_ttft_y@ + "\" width=\""@ + r.ttft_w@ + "\" height=\"14\" rx=\"3\" fill=\"#7fb8a6\" />\n      <rect x=\"220\" y=\""@ + r.rect_itl_y@ + "\" width=\""@ + r.itl_w@) + ("\" height=\"14\" rx=\"3\" fill=\"#6ba4d9\" />\n      <text x=\""@ + r.ttft_val_x@ + "\" y=\""@ + r.y_ttft_text@ + "\" class=\"label-stat\">TTFT "@) == "\n    <g class=\"tier-row\">\n      <text x=\"30\" y=\""@ + r.y@ + "\" class=\"label-concurrency\">Concurrency = "@ + r.concurrency@ + "</text>\n      <rect x=\"220\" y=\""@ + r.rect_ttft_y@ + "\" width=\""@ + r.ttft_w@ + "\" height=\"14\" rx=\"3\" fill=\"#7fb8a6\" />\n      <rect x=\"220\" y=\""@ + r.rect_itl_y@ + "\" width=\""@ + r.itl_w@ + "\" height=\"14\" rx=\"3\" fill=\"#6ba4d9\" />\n      <text x=\""@ + r.ttft_val_x@ + "\" y=\""@ + r.y_ttft_text@ + "\" class=\"label-stat\">TTFT "@);
        lemma_concat_associative(("\n    <g class=\"tier-row\">\n      <text x=\"30\" y=\""@ + r.y@ + "\" class=\"label-concurrency\">Concurrency = "@ + r.concurrency@ + "</text>\n      <rect x=\"220\" y=\""@ + r.rect_ttft_y@ + "\" width=\""@ + r.ttft_w@ + "\" height=\"14\" rx=\"3\" fill=\"#7fb8a6\" />\n      <rect x=\"220\" y=\""@ + r.rect_itl_y@ + "\" width=\""@ + r.itl_w@), "\" height=\"14\" rx=\"3\" fill=\"#6ba4d9\" />\n      <text x=\""@ + r.ttft_val_x@ + "\" y=\""@ + r.y_ttft_text@ + "\" class=\"label-stat\">TTFT "@, r.ttft@);
        assert(("\n    <g class=\"tier-row\">\n      <text x=\"30\" y=\""@ + r.y@ + "\" class=\"label-concurrency\">Concurrency = "@ + r.concurrency@ + "</text>\n      <rect x=\"220\" y=\""@ + r.rect_ttft_y@ + "\" width=\""@ + r.ttft_w@ + "\" height=\"14\" rx=\"3\" fill=\"#7fb8a6\" />\n      <rect x=\"220\" y=\""@ + r.rect_itl_y@ + "\" width=\""@ + r.itl_w@) + ("\" height=\"14\" rx=\"3\" fill=\"#6ba4d9\" />\n      <text x=\""@ + r.ttft_val_x@ + "\" y=\""@ + r.y_ttft_text@ + "\" class=\"label-stat\">TTFT "@ + r.ttft@) == "\n    <g class=\"tier-row\">\n      <text x=\"30\" y=\""@ + r.y@ + "\" class=\"label-concurrency\">Concurrency = "@ + r.concurrency@ + "</text>\n      <rect x=\"220\" y=\""@ + r.rect_ttft_y@ + "\" width=\""@ + r.ttft_w@ + "\" height=\"14\" rx=\"3\" fill=\"#7fb8a6\" />\n      <rect x=\"220\" y=\""@ + r.rect_itl_y@ + "\" width=\""@ + r.itl_w@ + "\" height=\"14\" rx=\"3\" fill=\"#6ba4d9\" />\n      <text x=\""@ + r.ttft_val_x@ + "\" y=\""@ + r.y_ttft_text@ + "\" class=\"label-stat\">TTFT "@ + r.ttft@);
        lemma_concat_associative(("\n    <g class=\"tier-row\">\n      <text x=\"30\" y=\""@ + r.y@ + "\" class=\"label-concurrency\">Concurrency = "@ + r.concurrency@ + "</text>\n      <rect x=\"220\" y=\""@ + r.rect_ttft_y@ + "\" width=\""@ + r.ttft_w@ + "\" height=\"14\" rx=\"3\" fill=\"#7fb8a6\" />\n      <rect x=\"220\" y=\""@ + r.rect_itl_y@ + "\" width=\""@ + r.itl_w@), "\" height=\"14\" rx=\"3\" fill=\"#6ba4d9\" />\n      <text x=\""@ + r.ttft_val_x@ + "\" y=\""@ + r.y_ttft_text@ + "\" class=\"label-stat\">TTFT "@ + r.ttft@, "ms</text>\n      <text x=\""@);
        assert(("\n    <g class=\"tier-row\">\n      <text x=\"30\" y=\""@ + r.y@ + "\" class=\"label-concurrency\">Concurrency = "@ + r.concurrency@ + "</text>\n      <rect x=\"220\" y=\""@ + r.rect_ttft_y@ + "\" width=\""@ + r.ttft_w@ + "\" height=\"14\" rx=\"3\" fill=\"#7fb8a6\" />\n      <rect x=\"220\" y=\""@ + r.rect_itl_y@ + "\" width=\""@ + r.itl_w@) + ("\" height=\"14\" rx=\"3\" fill=\"#6ba4d9\" />\n      <text x=\""@ + r.ttft_val_x@ + "\" y=\""@ + r.y_ttft_text@ + "\" class=\"label-stat\">TTFT "@ + r.ttft@ + "ms</text>\n      <text x=\""@) == "\n    <g class=\"tier-row\">\n      <text x=\"30\" y=\""@ + r.y@ + "\" class=\"label-concurrency\">Concurrency = "@ + r.concurrency@ + "</text>\n      <rect x=\"220\" y=\""@ + r.rect_ttft_y@ + "\" width=\""@ + r.ttft_w@ + "\" height=\"14\" rx=\"3\" fill=\"#7fb8a6\" />\n      <rect x=\"220\" y=\""@ + r.rect_itl_y@ + "\" width=\""@ + r.itl_w@ + "\" height=\"14\" rx=\"3\" fill=\"#6ba4d9\" />\n      <text x=\""@ + r.ttft_val_x@ + "\" y=\""@ + r.y_ttft_text@ + "\" class=\"label-stat\">TTFT "@ + r.ttft@ + "ms</text>\n      <text x=\""@);
        lemma_contains_tail(("\n    <g class=\"tier-row\">\n      <text x=\"30\" y=\""@ + r.y@ + "\" class=\"label-concurrency\">Concurrency = "@ + r.concurrency@ + "</text>\n      <rect x=\"220\" y=\""@ + r.rect_ttft_y@ + "\" width=\""@ + r.ttft_w@ + "\" height=\"14\" rx=\"3\" fill=\"#7fb8a6\" />\n      <rect x=\"220\" y=\""@ + r.rect_itl_y@ + "\" width=\""@ + r.itl_w@), "\" height=\"14\" rx=\"3\" fill=\"#6ba4d9\" />\n      <text x=\""@ + r.ttft_val_x@ + "\" y=\""@ + r.y_ttft_text@ + "\" class=\"label-stat\">TTFT "@ + r.ttft@ + "ms</text>\n      <text x=\""@);
        lemma_contains_extend("\n    <g class=\"tier-row\">\n      <text x=\"30\" y=\""@ + r.y@ + "\" class=\"label-concurrency\">Concurrency = "@ + r.concurrency@ + "</text>\n      <rect x=\"220\" y=\""@ + r.rect_ttft_y@ + "\" width=\""@ + r.ttft_w@ + "\" height=\"14\" rx=\"3\" fill=\"#7fb8a6\" />\n      <rect x=\"220\" y=\""@ + r.rect_itl_y@ + "\" width=\""@ + r.itl_w@ + "\" height=\"14\" rx=\"3\" fill=\"#6ba4d9\" />\n      <text x=\""@ + r.ttft_val_x@ + "\" y=\""@ + r.y_ttft_text@ + "\" class=\"label-stat\">TTFT "@ + r.ttft@ + "ms</text>\n      <text x=\""@, r.itl_val_x@, "\" height=\"14\" rx=\"3\" fill=\"#6ba4d9\" />\n      <text x=\""@ + r.ttft_val_x@ + "\" y=\""@ + r.y_ttft_text@ + "\" class=\"label-stat\">TTFT "@ + r.ttft@ + "ms</text>\n      <text x=\""@);
        lemma_contains_extend("\n    <g class=\"tier-row\">\n      <text x=\"30\" y=\""@ + r.y@ + "\" class=\"label-concurrency\">Concurrency = "@ + r.concurrency@ + "</text>\n      <rect x=\"220\" y=\""@ + r.rect_ttft_y@ + "\" width=\""@ + r.ttft_w@ + "\" height=\"14\" rx=\"3\" fill=\"#7fb8a6\" />\n      <rect x=\"220\" y=\""@ + r.rect_itl_y@ + "\" width=\""@ + r.itl_w@ + "\" height=\"14\" rx=\"3\" fill=\"#6ba4d9\" />\n      <text x=\""@ + r.ttft_val_x@ + "\" y=\""@ + r.y_ttft_text@ + "\" class=\"label-stat\">TTFT "@ + r.ttft@ + "ms</text>\n      <text x=\""@ + r.itl_val_x@, "\" y=\""@, "\" height=\"14\" rx=\"3\" fill=\"#6ba4d9\" />\n      <text x=\""@ + r.ttft_val_x@ + "\" y=\""@ + r.y_ttft_text@ + "\" class=\"label-stat\">TTFT "@ + r.ttft@ + "ms</text>\n      <text x=\""@);
        lemma_contains_extend("\n    <g class=\"tier-row\">\n      <text x=\"30\" y=\""@ + r.y@ + "\" class=\"label-concurrency\">Concurrency = "@ + r.concurrency@ + "</text>\n      <rect x=\"220\" y=\""@ + r.rect_ttft_y@ + "\" width=\""@ + r.ttft_w@ + "\" height=\"14\" rx=\"3\" fill=\"#7fb8a6\" />\n      <rect x=\"220\" y=\""@ + r.rect_itl_y@ + "\" width=\""@ + r.itl_w@ + "\" height=\"14\" rx=\"3\" fill=\"#6ba4d9\" />\n      <text x=\""@ + r.ttft_val_x@ + "\" y=\""@ + r.y_ttft_text@ + "\" class=\"label-stat\">TTFT "@ + r.ttft@ + "ms</text>\n      <text x=\""@ + r.itl_val_x@ + "\" y=\""@, r.y_itl_text@, "\" height=\"14\" rx=\"3\" fill=\"#6ba4d9\" />\n      <text x=\""@ + r.ttft_val_x@ + "\" y=\""@ + r.y_ttft_text@ + "\" class=\"label-stat\">TTFT "@ + r.ttft@ + "ms</text>\n      <text x=\""@);
        lemma_contains_extend("\n    <g class=\"tier-row\">\n      <text x=\"30\" y=\""@ + r.y@ + "\" class=\"label-concurrency\">Concurrency = "@ + r.concurrency@ + "</text>\n      <rect x=\"220\" y=\""@ + r.rect_ttft_y@ + "\" width=\""@ + r.ttft_w@ + "\" height=\"14\" rx=\"3\" fill=\"#7fb8a6\" />\n      <rect x=\"220\" y=\""@ + r.rect_itl_y@ + "\" width=\""@ + r.itl_w@ + "\" height=\"14\" rx=\"3\" fill=\"#6ba4d9\" />\n      <text x=\""@ + r.ttft_val_x@ + "\" y=\""@ + r.y_ttft_text@ + "\" class=\"label-stat\">TTFT "@ + r.ttft@ + "ms</text>\n      <text x=\""@ + r.itl_val_x@ + "\" y=\""@ + r.y_itl_text@, "\" class=\"label-stat\">ITL "@, "\" height=\"14\" rx=\"3\" fill=\"#6ba4d9\" />\n      <text x=\""@ + r.ttft_val_x@ + "\" y=\""@ + r.y_ttft_text@ + "\" class=\"label-stat\">TTFT "@ + r.ttft@ + "ms</text>\n      <text x=\""@);
        lemma_contains_extend("\n    <g class=\"tier-row\">\n      <text x=\"30\" y=\""@ + r.y@ + "\" class=\"label-concurrency\">Concurrency = "@ + r.concurrency@ + "</text>\n      <rect x=\"220\" y=\""@ + r.rect_ttft_y@ + "\" width=\""@ + r.ttft_w@ + "\" height=\"14\" rx=\"3\" fill=\"#7fb8a6\" />\n      <rect x=\"220\" y=\""@ + r.rect_itl_y@ + "\" width=\""@ + r.itl_w@ + "\" height=\"14\" rx=\"3\" fill=\"#6ba4d9\" />\n      <text x=\""@ + r.ttft_val_x@ + "\" y=\""@ + r.y_ttft_text@ + "\" class=\"label-stat\">TTFT "@ + r.ttft@ + "ms</text>\n      <text x=\""@ + r.itl_val_x@ + "\" y=\""@ + r.y_itl_text@ + "\" class=\"label-stat\">ITL "@, r.itl@, "\" height=\"14\" rx=\"3\" fill=\"#6ba4d9\" />\n      <text x=\""@ + r.ttft_val_x@ + "\" y=\""@ + r.y_ttft_text@ + "\" class=\"label-stat\">TTFT "@ + r.ttft@ + "ms</text>\n      <text x=\""@);
        lemma_contains_extend("\n    <g class=\"tier-row\">\n      <text x=\"30\" y=\""@ + r.y@ + "\" class=\"label-concurrency\">Concurrency = "@ + r.concurrency@ + "</text>\n      <rect x=\"220\" y=\""@ + r.rect_ttft_y@ + "\" width=\""@ + r.ttft_w@ + "\" height=\"14\" rx=\"3\" fill=\"#7fb8a6\" />\n      <rect x=\"220\" y=\""@ + r.rect_itl_y@ + "\" width=\""@ + r.itl_w@ + "\" height=\"14\" rx=\"3\" fill=\"#6ba4d9\" />\n      <text x=\""@ + r.ttft_val_x@ + "\" y=\""@ + r.y_ttft_text@ + "\" class=\"label-stat\">TTFT "@ + r.ttft@ + "ms</text>\n      <text x=\""@ + r.itl_val_x@ + "\" y=\""@ + r.y_itl_text@ + "\" class=\"label-stat\">ITL "@ + r.itl@, "ms</text>\n      <text x=\"760\" y=\""@, "\" height=\"14\" rx=\"3\" fill=\"#6ba4d9\" />\n      <text x=\""@ + r.ttft_val_x@ + "\" y=\""@ + r.y_ttft_text@ + "\" class=\"label-stat\">TTFT "@ + r.ttft@ + "ms</text>\n      <text x=\""@);
        lemma_contains_extend("\n    <g class=\"tier-row\">\n      <text x=\"30\" y=\""@ + r.y@ + "\" class=\"label-concurrency\">Concurrency = "@ + r.concurrency@ + "</text>\n      <rect x=\"220\" y=\""@ + r.rect_ttft_y@ + "\" width=\""@ + r.ttft_w@ + "\" height=\"14\" rx=\"3\" fill=\"#7fb8a6\" />\n      <rect x=\"220\" y=\""@ + r.rect_itl_y@ + "\" width=\""@ + r.itl_w@ + "\" height=\"14\" rx=\"3\" fill=\"#6ba4d9\" />\n      <text x=\""@ + r.ttft_val_x@ + "\" y=\""@ + r.y_ttft_text@ + "\" class=\"label-stat\">TTFT "@ + r.ttft@ + "ms</text>\n      <text x=\""@ + r.itl_val_x@ + "\" y=\""@ + r.y_itl_text@ + "\" class=\"label-stat\">ITL "@ + r.itl@ + "ms</text>\n      <text x=\"760\" y=\""@, r.y@, "\" height=\"14\" rx=\"3\" fill=\"#6ba4d9\" />\n      <text x=\""@ + r.ttft_val_x@ + "\" y=\""@ + r.y_ttft_text@ + "\" class=\"label-stat\">TTFT "@ + r.ttft@ + "ms</text>\n      <text x=\""@);
        lemma_contains_extend("\n    <g class=\"tier-row\">\n      <text x=\"30\" y=\""@ + r.y@ + "\" class=\"label-concurrency\">Concurrency = "@ + r.concurrency@ + "</text>\n      <rect x=\"220\" y=\""@ + r.rect_ttft_y@ + "\" width=\""@ + r.ttft_w@ + "\" height=\"14\" rx=\"3\" fill=\"#7fb8a6\" />\n      <rect x=\"220\" y=\""@ + r.rect_itl_y@ + "\" width=\""@ + r.itl_w@ + "\" height=\"14\" rx=\"3\" fill=\"#6ba4d9\" />\n      <text x=\""@ + r.ttft_val_x@ + "\" y=\""@ + r.y_ttft_text@ + "\" class=\"label-stat\">TTFT "@ + r.ttft@ + "ms</text>\n      <text x=\""@ + r.itl_val_x@ + "\" y=\""@ + r.y_itl_text@ + "\" class=\"label-stat\">ITL "@ + r.itl@ + "ms</text>\n      <text x=\"760\" y=\""@ + r.y@, "\" class=\"badge-tps\">"@, "\" height=\"14\" rx=\"3\" fill=\"#6ba4d9\" />\n      <text x=\""@ + r.ttft_val_x@ + "\" y=\""@ + r.y_ttft_text@ + "\" class=\"label-stat\">TTFT "@ + r.ttft@ + "ms</text>\n      <text x=\""@);
        lemma_contains_extend("\n    <g class=\"tier-row\">\n      <text x=\"30\" y=\""@ + r.y@ + "\" class=\"label-concurrency\">Concurrency = "@ + r.concurrency@ + "</text>\n      <rect x=\"220\" y=\""@ + r.rect_ttft_y@ + "\" width=\""@ + r.ttft_w@ + "\" height=\"14\" rx=\"3\" fill=\"#7fb8a6\" />\n      <rect x=\"220\" y=\""@ + r.rect_itl_y@ + "\" width=\""@ + r.itl_w@ + "\" height=\"14\" rx=\"3\" fill=\"#6ba4d9\" />\n      <text x=\""@ + r.ttft_val_x@ + "\" y=\""@ + r.y_ttft_text@ + "\" class=\"label-stat\">TTFT "@ + r.ttft@ + "ms</text>\n      <text x=\""@ + r.itl_val_x@ + "\" y=\""@ + r.y_itl_text@ + "\" class=\"label-stat\">ITL "@ + r.itl@ + "ms</text>\n      <text x=\"760\" y=\""@ + r.y@ + "\" class=\"badge-tps\">"@, r.tps@, "\" height=\"14\" rx=\"3\" fill=\"#6ba4d9\" />\n      <text x=\""@ + r.ttft_val_x@ + "\" y=\""@ + r.y_ttft_text@ + "\" class=\"label-stat\">TTFT "@ + r.ttft@ + "ms</text>\n      <text x=\""@);
        lemma_contains_extend("\n    <g class=\"tier-row\">\n      <text x=\"30\" y=\""@ + r.y@ + "\" class=\"label-concurrency\">Concurrency = "@ + r.concurrency@ + "</text>\n      <rect x=\"220\" y=\""@ + r.rect_ttft_y@ + "\" width=\""@ + r.ttft_w@ + "\" height=\"14\" rx=\"3\" fill=\"#7fb8a6\" />\n      <rect x=\"220\" y=\""@ + r.rect_itl_y@ + "\" width=\""@ + r.itl_w@ + "\" height=\"14\" rx=\"3\" fill=\"#6ba4d9\" />\n      <text x=\""@ + r.ttft_val_x@ + "\" y=\""@ + r.y_ttft_text@ + "\" class=\"label-stat\">TTFT "@ + r.ttft@ + "ms</text>\n      <text x=\""@ + r.itl_val_x@ + "\" y=\""@ + r.y_itl_text@ + "\" class=\"label-stat\">ITL "@ + r.itl@ + "ms</text>\n      <text x=\"760\" y=\""@ + r.y@ + "\" class=\"badge-tps\">"@ + r.tps@, " tok/s</text>\n      <text x=\"920\" y=\""@, "\" height=\"14\" rx=\"3\" fill=\"#6ba4d9\" />\n      <text x=\""@ + r.ttft_val_x@ + "\" y=\""@ + r.y_ttft_text@ + "\" class=\"label-stat\">TTFT "@ + r.ttft@ + "ms</text>\n      <text x=\""@);
        lemma_contains_extend("\n    <g class=\"tier-row\">\n      <text x=\"30\" y=\""@ + r.y@ + "\" class=\"label-concurrency\">Concurrency = "@ + r.concurrency@ + "</text>\n      <rect x=\"220\" y=\""@ + r.rect_ttft_y@ + "\" width=\""@ + r.ttft_w@ + "\" height=\"14\" rx=\"3\" fill=\"#7fb8a6\" />\n      <rect x=\"220\" y=\""@ + r.rect_itl_y@ + "\" width=\""@ + r.itl_w@ + "\" height=\"14\" rx=\"3\" fill=\"#6ba4d9\" />\n      <text x=\""@ + r.ttft_val_x@ + "\" y=\""@ + r.y_ttft_text@ + "\" class=\"label-stat\">TTFT "@ + r.ttft@ + "ms</text>\n      <text x=\""@ + r.itl_val_x@ + "\" y=\""@ + r.y_itl_text@ + "\" class=\"label-stat\">ITL "@ + r.itl@ + "ms</text>\n      <text x=\"760\" y=\""@ + r.y@ + "\" class=\"badge-tps\">"@ + r.tps@ + " tok/s</text>\n      <text x=\"920\" y=\""@, r.y@, "\" height=\"14\" rx=\"3\" fill=\"#6ba4d9\" />\n      <text x=\""@ + r.ttft_val_x@ + "\" y=\""@ + r.y_ttft_text@ + "\" class=\"label-stat\">TTFT "@ + r.ttft@ + "ms</text>\n      <text x=\""@);
        lemma_contains_extend("\n    <g class=\"tier-row\">\n      <text x=\"30\" y=\""@ + r.y@ + "\" class=\"label-concurrency\">Concurrency = "@ + r.concurrency@ + "</text>\n      <rect x=\"220\" y=\""@ + r.rect_ttft_y@ + "\" width=\""@ + r.ttft_w@ + "\" height=\"14\" rx=\"3\" fill=\"#7fb8a6\" />\n      <rect x=\"220\" y=\""@ + r.rect_itl_y@ + "\" width=\""@ + r.itl_w@ + "\" height=\"14\" rx=\"3\" fill=\"#6ba4d9\" />\n      <text x=\""@ + r.ttft_val_x@ + "\" y=\""@ + r.y_ttft_text@ + "\" class=\"label-stat\">TTFT "@ + r.ttft@ + "ms</text>\n      <text x=\""@ + r.itl_val_x@ + "\" y=\""@ + r.y_itl_text@ + "\" class=\"label-stat\">ITL "@ + r.itl@ + "ms</text>\n      <text x=\"760\" y=\""@ + r.y@ + "\" class=\"badge-tps\">"@ + r.tps@ + " tok/s</text>\n      <text x=\"920\" y=\""@ + r.y@, "\" class=\"badge-power\">"@, "\" height=\"14\" rx=\"3\" fill=\"#6ba4d9\" />\n      <text x=\""@ + r.ttft_val_x@ + "\" y=\""@ + r.y_ttft_text@ + "\" class=\"label-stat\">TTFT "@ + r.ttft@ + "ms</text>\n      <text x=\""@);
        lemma_contains_extend("\n    <g class=\"tier-row\">\n      <text x=\"30\" y=\""@ + r.y@ + "\" class=\"label-concurrency\">Concurrency = "@ + r.concurrency@ + "</text>\n      <rect x=\"220\" y=\""@ + r.rect_ttft_y@ + "\" width=\""@ + r.ttft_w@ + "\" height=\"14\" rx=\"3\" fill=\"#7fb8a6\" />\n      <rect x=\"220\" y=\""@ + r.rect_itl_y@ + "\" width=\""@ + r.itl_w@ + "\" height=\"14\" rx=\"3\" fill=\"#6ba4d9\" />\n      <text x=\""@ + r.ttft_val_x@ + "\" y=\""@ + r.y_ttft_text@ + "\" class=\"label-stat\">TTFT "@ + r.ttft@ + "ms</text>\n      <text x=\""@ + r.itl_val_x@ + "\" y=\""@ + r.y_itl_text@ + "\" class=\"label-stat\">ITL "@ + r.itl@ + "ms</text>\n      <text x=\"760\" y=\""@ + r.y@ + "\" class=\"badge-tps\">"@ + r.tps@ + " tok/s</text>\n      <text x=\"920\" y=\""@ + r.y@ + "\" class=\"badge-power\">"@, r.power@, "\" height=\"14\" rx=\"3\" fill=\"#6ba4d9\" />\n      <text x=\""@ + r.ttft_val_x@ + "\" y=\""@ + r.y_ttft_text@ + "\" class=\"label-stat\">TTFT "@ + r.ttft@ + "ms</text>\n      <text x=\""@);
        lemma_contains_extend("\n    <g class=\"tier-row\">\n      <text x=\"30\" y=\""@ + r.y@ + "\" class=\"label-concurrency\">Concurrency = "@ + r.concurrency@ + "</text>\n      <rect x=\"220\" y=\""@ + r.rect_ttft_y@ + "\" width=\""@ + r.ttft_w@ + "\" height=\"14\" rx=\"3\" fill=\"#7fb8a6\" />\n      <rect x=\"220\" y=\""@ + r.rect_itl_y@ + "\" width=\""@ + r.itl_w@ + "\" height=\"14\" rx=\"3\" fill=\"#6ba4d9\" />\n      <text x=\""@ + r.ttft_val_x@ + "\" y=\""@ + r.y_ttft_text@ + "\" class=\"label-stat\">TTFT "@ + r.ttft@ + "ms</text>\n      <text x=\""@ + r.itl_val_x@ + "\" y=\""@ + r.y_itl_text@ + "\" class=\"label-stat\">ITL "@ + r.itl@ + "ms</text>\n      <text x=\"760\" y=\""@ + r.y@ + "\" class=\"badge-tps\">"@ + r.tps@ + " tok/s</text>\n      <text x=\"920\" y=\""@ + r.y@ + "\" class=\"badge-power\">"@ + r.power@, "W ("@, "\" height=\"14\" rx=\"3\" fill=\"#6ba4d9\" />\n      <text x=\""@ + r.ttft_val_x@ + "\" y=\""@ + r.y_ttft_text@ + "\" class=\"label-stat\">TTFT "@ + r.ttft@ + "ms</text>\n      <text x=\""@);
        lemma_contains_extend("\n    <g class=\"tier-row\">\n      <text x=\"30\" y=\""@ + r.y@ + "\" class=\"label-concurrency\">Concurrency = "@ + r.concurrency@ + "</text>\n      <rect x=\"220\" y=\""@ + r.rect_ttft_y@ + "\" width=\""@ + r.ttft_w@ + "\" height=\"14\" rx=\"3\" fill=\"#7fb8a6\" />\n      <rect x=\"220\" y=\""@ + r.rect_itl_y@ + "\" width=\""@ + r.itl_w@ + "\" height=\"14\" rx=\"3\" fill=\"#6ba4d9\" />\n      <text x=\""@ + r.ttft_val_x@ + "\" y=\""@ + r.y_ttft_text@ + "\" class=\"label-stat\">TTFT "@ + r.ttft@ + "ms</text>\n      <text x=\""@ + r.itl_val_x@ + "\" y=\""@ + r.y_itl_text@ + "\" class=\"label-stat\">ITL "@ + r.itl@ + "ms</text>\n      <text x=\"760\" y=\""@ + r.y@ + "\" class=\"badge-tps\">"@ + r.tps@ + " tok/s</text>\n      <text x=\"920\" y=\""@ + r.y@ + "\" class=\"badge-power\">"@ + r.power@ + "W ("@, r.joules@, "\" height=\"14\" rx=\"3\" fill=\"#6ba4d9\" />\n      <text x=\""@ + r.ttft_val_x@ + "\" y=\""@ + r.y_ttft_text@ + "\" class=\"label-stat\">TTFT "@ + r.ttft@ + "ms</text>\n      <text x=\""@);
        lemma_contains_extend("\n    <g class=\"tier-row\">\n      <text x=\"30\" y=\""@ + r.y@ + "\" class=\"label-concurrency\">Concurrency = "@ + r.concurrency@ + "</text>\n      <rect x=\"220\" y=\""@ + r.rect_ttft_y@ + "\" width=\""@ + r.ttft_w@ + "\" height=\"14\" rx=\"3\" fill=\"#7fb8a6\" />\n      <rect x=\"220\" y=\""@ + r.rect_itl_y@ + "\" width=\""@ + r.itl_w@ + "\" height=\"14\" rx=\"3\" fill=\"#6ba4d9\" />\n      <text x=\""@ + r.ttft_val_x@ + "\" y=\""@ + r.y_ttft_text@ + "\" class=\"label-stat\">TTFT "@ + r.ttft@ + "ms</text>\n      <text x=\""@ + r.itl_val_x@ + "\" y=\""@ + r.y_itl_text@ + "\" class=\"label-stat\">ITL "@ + r.itl@ + "ms</text>\n      <text x=\"760\" y=\""@ + r.y@ + "\" class=\"badge-tps\">"@ + r.tps@ + " tok/s</text>\n      <text x=\"920\" y=\""@ + r.y@ + "\" class=\"badge-power\">"@ + r.power@ + "W ("@ + r.joules@, " J/tok)</text>\n    </g>"@, "\" height=\"14\" rx=\"3\" fill=\"#6ba4d9\" />\n      <text x=\""@ + r.ttft_val_x@ + "\" y=\""@ + r.y_ttft_text@ + "\" class=\"label-stat\">TTFT "@ + r.ttft@ + "ms</text>\n      <text x=\""@);
    }
    assert(contains_seq(pressure_row_text(r), "ms</text>\n      <text x=\""@ + r.itl_val_x@ + "\" y=\""@ + r.y_itl_text@ + "\" class=\"label-stat\">ITL "@ + r.itl@ + "ms</text>\n      <text x=\"760\" y=\""@)) by {
        lemma_concat_associative(("\n    <g class=\"tier-row\">\n      <text x=\"30\" y=\""@ + r.y@ + "\" class=\"label-concurrency\">Concurrency = "@ + r.concurrency@ + "</text>\n      <rect x=\"220\" y=\""@ + r.rect_ttft_y@ + "\" width=\""@ + r.ttft_w@ + "\" height=\"14\" rx=\"3\" fill=\"#7fb8a6\" />\n      <rect x=\"220\" y=\""@ + r.rect_itl_y@ + "\" width=\""@ + r.itl_w@ + "\" height=\"14\" rx=\"3\" fill=\"#6ba4d9\" />\n      <text x=\""@ + r.ttft_val_x@ + "\" y=\""@ + r.y_ttft_text@ + "\" class=\"label-stat\">TTFT "@ + r.ttft@), "ms</text>\n      <text x=\""@, r.itl_val_x@);
        assert(("\n    <g class=\"tier-row\">\n      <text x=\"30\" y=\""@ + r.y@ + "\" class=\"label-concurrency\">Concurrency = "@ + r.concurrency@ + "</text>\n      <rect x=\"220\" y=\""@ + r.rect_ttft_y@ + "\" width=\""@ + r.ttft_w@ + "\" height=\"14\" rx=\"3\" fill=\"#7fb8a6\" />\n      <rect x=\"220\" y=\""@ + r.rect_itl_y@ + "\" width=\""@ + r.itl_w@ + "\" height=\"14\" rx=\"3\" fill=\"#6ba4d9\" />\n      <text x=\""@ + r.ttft_val_x@ + "\" y=\""@ + r.y_ttft_text@ + "\" class=\"label-stat\">TTFT "@ + r.ttft@) + ("ms</text>\n      <text x=\""@ + r.itl_val_x@) == "\n    <g class=\"tier-row\">\n      <text x=\"30\" y=\""@ + r.y@ + "\" class=\"label-concurrency\">Concurrency = "@ + r.concurrency@ + "</text>\n      <rect x=\"220\" y=\""@ + r.rect_ttft_y@ + "\" width=\""@ + r.ttft_w@ + "\" height=\"14\" rx=\"3\" fill=\"#7fb8a6\" />\n      <rect x=\"220\" y=\""@ + r.rect_itl_y@ + "\" width=\""@ + r.itl_w@ + "\" height=\"14\" rx=\"3\" fill=\"#6ba4d9\" />\n      <text x=\""@ + r.ttft_val_x@ + "\" y=\""@ + r.y_ttft_text@ + "\" class=\"label-stat\">TTFT "@ + r.ttft@ + "ms</text>\n      <text x=\""@ + r.itl_val_x@);
        lemma_concat_associative(("\n    <g class=\"tier-row\">\n      <text x=\"30\" y=\""@ + r.y@ + "\" class=\"label-concurrency\">Concurrency = "@ + r.concurrency@ + "</text>\n      <rect x=\"220\" y=\""@ + r.rect_ttft_y@ + "\" width=\""@ + r.ttft_w@ + "\" height=\"14\" rx=\"3\" fill=\"#7fb8a6\" />\n      <rect x=\"220\" y=\""@ + r.rect_itl_y@ + "\" width=\""@ + r.itl_w@ + "\" height=\"14\" rx=\"3\" fill=\"#6ba4d9\" />\n      <text x=\""@ + r.ttft_val_x@ + "\" y=\""@ + r.y_ttft_text@ + "\" class=\"label-stat\">TTFT "@ + r.ttft@), "ms</text>\n      <text x=\""@ + r.itl_val_x@, "\" y=\""@);
        assert(("\n    <g class=\"tier-row\">\n      <text x=\"30\" y=\""@ + r.y@ + "\" class=\"label-concurrency\">Concurrency = "@ + r.concurrency@ + "</text>\n      <rect x=\"220\" y=\""@ + r.rect_ttft_y@ + "\" width=\""@ + r.ttft_w@ + "\" height=\"14\" rx=\"3\" fill=\"#7fb8a6\" />\n      <rect x=\"220\" y=\""@ + r.rect_itl_y@ + "\" width=\""@ + r.itl_w@ + "\" height=\"14\" rx=\"3\" fill=\"#6ba4d9\" />\n      <text x=\""@ + r.ttft_val_x@ + "\" y=\""@ + r.y_ttft_text@ + "\" class=\"label-stat\">TTFT "@ + r.ttft@) + ("ms</text>\n      <text x=\""@ + r.itl_val_x@ + "\" y=\""@) == "\n    <g class=\"tier-row\">\n      <text x=\"30\" y=\""@ + r.y@ + "\" class=\"label-concurrency\">Concurrency = "@ + r.concurrency@ + "</text>\n      <rect x=\"220\" y=\""@ + r.rect_ttft_y@ + "\" width=\""@ + r.ttft_w@ + "\" height=\"14\" rx=\"3\" fill=\"#7fb8a6\" />\n      <rect x=\"220\" y=\""@ + r.rect_itl_y@ + "\" width=\""@ + r.itl_w@ + "\" height=\"14\" rx=\"3\" fill=\"#6ba4d9\" />\n      <text x=\""@ + r.ttft_val_x@ + "\" y=\""@ + r.y_ttft_text@ + "\" class=\"label-stat\">TTFT "@ + r.ttft@ + "ms</text>\n      <text x=\""@ + r.itl_val_x@ + "\" y=\""@);
        lemma_concat_associative(("\n    <g class=\"tier-row\">\n      <text x=\"30\" y=\""@ + r.y@ + "\" class=\"label-concurrency\">Concurrency = "@ + r.concurrency@ + "</text>\n      <rect x=\"220\" y=\""@ + r.rect_ttft_y@ + "\" width=\""@ + r.ttft_w@ + "\" height=\"14\" rx=\"3\" fill=\"#7fb8a6\" />\n      <rect x=\"220\" y=\""@ + r.rect_itl_y@ + "\" width=\""@ + r.itl_w@ + "\" height=\"14\" rx=\"3\" fill=\"#6ba4d9\" />\n      <text x=\""@ + r.ttft_val_x@ + "\" y=\""@ + r.y_ttft_text@ + "\" class=\"label-stat\">TTFT "@ + r.ttft@), "ms</text>\n      <text x=\""@ + r.itl_val_x@ + "\" y=\""@, r.y_itl_text@);
        assert(("\n    <g class=\"tier-row\">\n      <text x=\"30\" y=\""@ + r.y@ + "\" class=\"label-concurrency\">Concurrency = "@ + r.concurrency@ + "</text>\n      <rect x=\"220\" y=\""@ + r.rect_ttft_y@ + "\" width=\""@ + r.ttft_w@ + "\" height=\"14\" rx=\"3\" fill=\"#7fb8a6\" />\n      <rect x=\"220\" y=\""@ + r.rect_itl_y@ + "\" width=\""@ + r.itl_w@ + "\" height=\"14\" rx=\"3\" fill=\"#6ba4d9\" />\n      <text x=\""@ + r.ttft_val_x@ + "\" y=\""@ + r.y_ttft_text@ + "\" class=\"label-stat\">TTFT "@ + r.ttft@) + ("ms</text>\n      <text x=\""@ + r.itl_val_x@ + "\" y=\""@ + r.y_itl_text@) == "\n    <g class=\"tier-row\">\n      <text x=\"30\" y=\""@ + r.y@ + "\" class=\"label-concurrency\">Concurrency = "@ + r.concurrency@ + "</text>\n      <rect x=\"220\" y=\""@ + r.rect_ttft_y@ + "\" width=\""@ + r.ttft_w@ + "\" height=\"14\" rx=\"3\" fill=\"#7fb8a6\" />\n      <rect x=\"220\" y=\""@ + r.rect_itl_y@ + "\" width=\""@ + r.itl_w@ + "\" height=\"14\" rx=\"3\" fill=\"#6ba4d9\" />\n      <text x=\""@ + r.ttft_val_x@ + "\" y=\""@ + r.y_ttft_text@ + "\" class=\"label-stat\">TTFT "@ + r.ttft@ + "ms</text>\n      <text x=\""@ + r.itl_val_x@ + "\" y=\""@ + r.y_itl_text@);
        lemma_concat_associative(("\n    <g class=\"tier-row\">\n      <text x=\"30\" y=\""@ + r.y@ + "\" class=\"label-concurrency\">Concurrency = "@ + r.concurrency@ + "</text>\n      <rect x=\"220\" y=\""@ + r.rect_ttft_y@ + "\" width=\""@ + r.ttft_w@ + "\" height=\"14\" rx=\"3\" fill=\"#7fb8a6\" />\n      <rect x=\"220\" y=\""@ + r.rect_itl_y@ + "\" width=\""@ + r.itl_w@ + "\" height=\"14\" rx=\"3\" fill=\"#6ba4d9\" />\n      <text x=\""@ + r.ttft_val_x@ + "\" y=\""@ + r.y_ttft_text@ + "\" class=\"label-stat\">TTFT "@ + r.ttft@), "ms</text>\n      <text x=\""@ + r.itl_val_x@ + "\" y=\""@ + r.y_itl_text@, "\" class=\"label-stat\">ITL "@);
        assert(("\n    <g class=\"tier-row\">\n      <text x=\"30\" y=\""@ + r.y@ + "\" class=\"label-concurrency\">Concurrency = "@ + r.concurrency@ + "</text>\n      <rect x=\"220\" y=\""@ + r.rect_ttft_y@ + "\" width=\""@ + r.ttft_w@ + "\" height=\"14\" rx=\"3\" fill=\"#7fb8a6\" />\n      <rect x=\"220\" y=\""@ + r.rect_itl_y@ + "\" width=\""@ + r.itl_w@ + "\" height=\"14\" rx=\"3\" fill=\"#6ba4d9\" />\n      <text x=\""@ + r.ttft_val_x@ + "\" y=\""@ + r.y_ttft_text@ + "\" class=\"label-stat\">TTFT "@ + r.ttft@) + ("ms</text>\n      <text x=\""@ + r.itl_val_x@ + "\" y=\""@ + r.y_itl_text@ + "\" class=\"label-stat\">ITL "@) == "\n    <g class=\"tier-row\">\n      <text x=\"30\" y=\""@ + r.y@ + "\" class=\"label-concurrency\">Concurrency = "@ + r.concurrency@ + "</text>\n      <rect x=\"220\" y=\""@ + r.rect_ttft_y@ + "\" width=\""@ + r.ttft_w@ + "\" height=\"14\" rx=\"3\" fill=\"#7fb8a6\" />\n      <rect x=\"220\" y=\""@ + r.rect_itl_y@ + "\" width=\""@ + r.itl_w@ + "\" height=\"14\" rx=\"3\" fill=\"#6ba4d9\" />\n      <text x=\""@ + r.ttft_val_x@ + "\" y=\""@ + r.y_ttft_text@ + "\" class=\"label-stat\">TTFT "@ + r.ttft@ + "ms</text>\n      <text x=\""@ + r.itl_val_x@ + "\" y=\""@ + r.y_itl_text@ + "\" class=\"label-stat\">ITL "@);
        lemma_concat_associative(("\n    <g class=\"tier-row\">\n      <text x=\"30\" y=\""@ + r.y@ + "\" class=\"label-concurrency\">Concurrency = "@ + r.concurrency@ + "</text>\n      <rect x=\"220\" y=\""@ + r.rect_ttft_y@ + "\" width=\""@ + r.ttft_w@ + "\" height=\"14\" rx=\"3\" fill=\"#7fb8a6\" />\n      <rect x=\"220\" y=\""@ + r.rect_itl_y@ + "\" width=\""@ + r.itl_w@ + "\" height=\"14\" rx=\"3\" fill=\"#6ba4d9\" />\n      <text x=\""@ + r.ttft_val_x@ + "\" y=\""@ + r.y_ttft_text@ + "\" class=\"label-stat\">TTFT "@ + r.ttft@), "ms</text>\n      <text x=\""@ + r.itl_val_x@ + "\" y=\""@ + r.y_itl_text@ + "\" class=\"label-stat\">ITL "@, r.itl@);
        assert(("\n    <g class=\"tier-row\">\n      <text x=\"30\" y=\""@ + r.y@ + "\" class=\"label-concurrency\">Concurrency = "@ + r.concurrency@ + "</text>\n      <rect x=\"220\" y=\""@ + r.rect_ttft_y@ + "\" width=\""@ + r.ttft_w@ + "\" height=\"14\" rx=\"3\" fill=\"#7fb8a6\" />\n      <rect x=\"220\" y=\""@ + r.rect_itl_y@ + "\" width=\""@ + r.itl_w@ + "\" height=\"14\" rx=\"3\" fill=\"#6ba4d9\" />\n      <text x=\""@ + r.ttft_val_x@ + "\" y=\""@ + r.y_ttft_text@ + "\" class=\"label-stat\">TTFT "@ + r.ttft@) + ("ms</text>\n      <text x=\""@ + r.itl_val_x@ + "\" y=\""@ + r.y_itl_text@ + "\" class=\"label-stat\">ITL "@ + r.itl@) == "\n    <g class=\"tier-row\">\n      <text x=\"30\" y=\""@ + r.y@ + "\" class=\"label-concurrency\">Concurrency = "@ + r.concurrency@ + "</text>\n      <rect x=\"220\" y=\""@ + r.rect_ttft_y@ + "\" width=\""@ + r.ttft_w@ + "\" height=\"14\" rx=\"3\" fill=\"#7fb8a6\" />\n      <rect x=\"220\" y=\""@ + r.rect_itl_y@ + "\" width=\""@ + r.itl_w@ + "\" height=\"14\" rx=\"3\" fill=\"#6ba4d9\" />\n      <text x=\""@ + r.ttft_val_x@ + "\" y=\""@ + r.y_ttft_text@ + "\" class=\"label-stat\">TTFT "@ + r.ttft@ + "ms</text>\n      <text x=\""@ + r.itl_val_x@ + "\" y=\""@ + r.y_itl_text@ + "\" class=\"label-stat\">ITL "@ + r.itl@);
        lemma_concat_associative(("\n    <g class=\"tier-row\">\n      <text x=\"30\" y=\""@ + r.y@ + "\" class=\"label-concurrency\">Concurrency = "@ + r.concurrency@ + "</text>\n      <rect x=\"220\" y=\""@ + r.rect_ttft_y@ + "\" width=\""@ + r.ttft_w@ + "\" height=\"14\" rx=\"3\" fill=\"#7fb8a6\" />\n      <rect x=\"220\" y=\""@ + r.rect_itl_y@ + "\" width=\""@ + r.itl_w@ + "\" height=\"14\" rx=\"3\" fill=\"#6ba4d9\" />\n      <text x=\""@ + r.ttft_val_x@ + "\" y=\""@ + r.y_ttft_text@ + "\" class=\"label-stat\">TTFT "@ + r.ttft@), "ms</text>\n      <text x=\""@ + r.itl_val_x@ + "\" y=\""@ + r.y_itl_text@ + "\" class=\"label-stat\">ITL "@ + r.itl@, "ms</text>\n      <text x=\"760\" y=\""@);
        assert(("\n    <g class=\"tier-row\">\n      <text x=\"30\" y=\""@ + r.y@ + "\" class=\"label-concurrency\">Concurrency = "@ + r.concurrency@ + "</text>\n      <rect x=\"220\" y=\""@ + r.rect_ttft_y@ + "\" width=\""@ + r.ttft_w@ + "\" height=\"14\" rx=\"3\" fill=\"#7fb8a6\" />\n      <rect x=\"220\" y=\""@ + r.rect_itl_y@ + "\" width=\""@ + r.itl_w@ + "\" height=\"14\" rx=\"3\" fill=\"#6ba4d9\" />\n      <text x=\""@ + r.ttft_val_x@ + "\" y=\""@ + r.y_ttft_text@ + "\" class=\"label-stat\">TTFT "@ + r.ttft@) + ("ms</text>\n      <text x=\""@ + r.itl_val_x@ + "\" y=\""@ + r.y_itl_text@ + "\" class=\"label-stat\">ITL "@ + r.itl@ + "ms</text>\n      <text x=\"760\" y=\""@) == "\n    <g class=\"tier-row\">\n      <text x=\"30\" y=\""@ + r.y@ + "\" class=\"label-concurrency\">Concurrency = "@ + r.concurrency@ + "</text>\n      <rect x=\"220\" y=\""@ + r.rect_ttft_y@ + "\" width=\""@ + r.ttft_w@ + "\" height=\"14\" rx=\"3\" fill=\"#7fb8a6\" />\n      <rect x=\"220\" y=\""@ + r.rect_itl_y@ + "\" width=\""@ + r.itl_w@ + "\" height=\"14\" rx=\"3\" fill=\"#6ba4d9\" />\n      <text x=\""@ + r.ttft_val_x@ + "\" y=\""@ + r.y_ttft_text@ + "\" class=\"label-stat\">TTFT "@ + r.ttft@ + "ms</text>\n      <text x=\""@ + r.itl_val_x@ + "\" y=\""@ + r.y_itl_text@ + "\" class=\"label-stat\">ITL "@ + r.itl@ + "ms</text>\n      <text x=\"760\" y=\""@);
        lemma_contains_tail(("\n    <g class=\"tier-row\">\n      <text x=\"30\" y=\""@ + r.y@ + "\" class=\"label-concurrency\">Concurrency = "@ + r.concurrency@ + "</text>\n      <rect x=\"220\" y=\""@ + r.rect_ttft_y@ + "\" width=\""@ + r.ttft_w@ + "\" height=\"14\" rx=\"3\" fill=\"#7fb8a6\" />\n      <rect x=\"220\" y=\""@ + r.rect_itl_y@ + "\" width=\""@ + r.itl_w@ + "\" height=\"14\" rx=\"3\" fill=\"#6ba4d9\" />\n      <text x=\""@ + r.ttft_val_x@ + "\" y=\""@ + r.y_ttft_text@ + "\" class=\"label-stat\">TTFT "@ + r.ttft@), "ms</text>\n      <text x=\""@ + r.itl_val_x@ + "\" y=\""@ + r.y_itl_text@ + "\" class=\"label-stat\">ITL "@ + r.itl@ + "ms</text>\n      <text x=\"760\" y=\""@);
        lemma_contains_extend("\n    <g class=\"tier-row\">\n      <text x=\"30\" y=\""@ + r.y@ + "\" class=\"label-concurrency\">Concurrency = "@ + r.concurrency@ + "</text>\n      <rect x=\"220\" y=\""@ + r.rect_ttft_y@ + "\" width=\""@ + r.ttft_w@ + "\" height=\"14\" rx=\"3\" fill=\"#7fb8a6\" />\n      <rect x=\"220\" y=\""@ + r.rect_itl_y@ + "\" width=\""@ + r.itl_w@ + "\" height=\"14\" rx=\"3\" fill=\"#6ba4d9\" />\n      <text x=\""@ + r.ttft_val_x@ + "\" y=\""@ + r.y_ttft_text@ + "\" class=\"label-stat\">TTFT "@ + r.ttft@ + "ms</text>\n      <text x=\""@ + r.itl_val_x@ + "\" y=\""@ + r.y_itl_text@ + "\" class=\"label-stat\">ITL "@ + r.itl@ + "ms</text>\n      <text x=\"760\" y=\""@, r.y@, "ms</text>\n      <text x=\""@ + r.itl_val_x@ + "\" y=\""@ + r.y_itl_text@ + "\" class=\"label-stat\">ITL "@ + r.itl@ + "ms</text>\n      <text x=\"760\" y=\""@);
        lemma_contains_extend("\n    <g class=\"tier-row\">\n      <text x=\"30\" y=\""@ + r.y@ + "\" class=\"label-concurrency\">Concurrency = "@ + r.concurrency@ + "</text>\n      <rect x=\"220\" y=\""@ + r.rect_ttft_y@ + "\" width=\""@ + r.ttft_w@ + "\" height=\"14\" rx=\"3\" fill=\"#7fb8a6\" />\n      <rect x=\"220\" y=\""@ + r.rect_itl_y@ + "\" width=\""@ + r.itl_w@ + "\" height=\"14\" rx=\"3\" fill=\"#6ba4d9\" />\n      <text x=\""@ + r.ttft_val_x@ + "\" y=\""@ + r.y_ttft_text@ + "\" class=\"label-stat\">TTFT "@ + r.ttft@ + "ms</text>\n      <text x=\""@ + r.itl_val_x@ + "\" y=\""@ + r.y_itl_text@ + "\" class=\"label-stat\">ITL "@ + r.itl@ + "ms</text>\n      <text x=\"760\" y=\""@ + r.y@, "\" class=\"badge-tps\">"@, "ms</text>\n      <text x=\""@ + r.itl_val_x@ + "\" y=\""@ + r.y_itl_text@ + "\" class=\"label-stat\">ITL "@ + r.itl@ + "ms</text>\n      <text x=\"760\" y=\""@);
        lemma_contains_extend("\n    <g class=\"tier-row\">\n      <text x=\"30\" y=\""@ + r.y@ + "\" class=\"label-concurrency\">Concurrency = "@ + r.concurrency@ + "</text>\n      <rect x=\"220\" y=\""@ + r.rect_ttft_y@ + "\" width=\""@ + r.ttft_w@ + "\" height=\"14\" rx=\"3\" fill=\"#7fb8a6\" />\n      <rect x=\"220\" y=\""@ + r.rect_itl_y@ + "\" width=\""@ + r.itl_w@ + "\" height=\"14\" rx=\"3\" fill=\"#6ba4d9\" />\n      <text x=\""@ + r.ttft_val_x@ + "\" y=\""@ + r.y_ttft_text@ + "\" class=\"label-stat\">TTFT "@ + r.ttft@ + "ms</text>\n      <text x=\""@ + r.itl_val_x@ + "\" y=\""@ + r.y_itl_text@ + "\" class=\"label-stat\">ITL "@ + r.itl@ + "ms</text>\n      <text x=\"760\" y=\""@ + r.y@ + "\" class=\"badge-tps\">"@, r.tps@, "ms</text>\n      <text x=\""@ + r.itl_val_x@ + "\" y=\""@ + r.y_itl_text@ + "\" class=\"label-stat\">ITL "@ + r.itl@ + "ms</text>\n      <text x=\"760\" y=\""@);
        lemma_contains_extend("\n    <g class=\"tier-row\">\n      <text x=\"30\" y=\""@ + r.y@ + "\" class=\"label-concurrency\">Concurrency = "@ + r.concurrency@ + "</text>\n      <rect x=\"220\" y=\""@ + r.rect_ttft_y@ + "\" width=\""@ + r.ttft_w@ + "\" height=\"14\" rx=\"3\" fill=\"#7fb8a6\" />\n      <rect x=\"220\" y=\""@ + r.rect_itl_y@ + "\" width=\""@ + r.itl_w@ + "\" height=\"14\" rx=\"3\" fill=\"#6ba4d9\" />\n      <text x=\""@ + r.ttft_val_x@ + "\" y=\""@ + r.y_ttft_text@ + "\" class=\"label-stat\">TTFT "@ + r.ttft@ + "ms</text>\n      <text x=\""@ + r.itl_val_x@ + "\" y=\""@ + r.y_itl_text@ + "\" class=\"label-stat\">ITL "@ + r.itl@ + "ms</text>\n      <text x=\"760\" y=\""@ + r.y@ + "\" class=\"badge-tps\">"@ + r.tps@, " tok/s</text>\n      <text x=\"920\" y=\""@, "ms</text>\n      <text x=\""@ + r.itl_val_x@ + "\" y=\""@ + r.y_itl_text@ + "\" class=\"label-stat\">ITL "@ + r.itl@ + "ms</text>\n      <text x=\"760\" y=\""@);
        lemma_contains_extend("\n    <g class=\"tier-row\">\n      <text x=\"30\" y=\""@ + r.y@ + "\" class=\"label-concurrency\">Concurrency = "@ + r.concurrency@ + "</text>\n      <rect x=\"220\" y=\""@ + r.rect_ttft_y@ + "\" width=\""@ + r.ttft_w@ + "\" height=\"14\" rx=\"3\" fill=\"#7fb8a6\" />\n      <rect x=\"220\" y=\""@ + r.rect_itl_y@ + "\" width=\""@ + r.itl_w@ + "\" height=\"14\" rx=\"3\" fill=\"#6ba4d9\" />\n      <text x=\""@ + r.ttft_val_x@ + "\" y=\""@ + r.y_ttft_text@ + "\" class=\"label-stat\">TTFT "@ + r.ttft@ + "ms</text>\n      <text x=\""@ + r.itl_val_x@ + "\" y=\""@ + r.y_itl_text@ + "\" class=\"label-stat\">ITL "@ + r.itl@ + "ms</text>\n      <text x=\"760\" y=\""@ + r.y@ + "\" class=\"badge-tps\">"@ + r.tps@ + " tok/s</text>\n      <text x=\"920\" y=\""@, r.y@, "ms</text>\n      <text x=\""@ + r.itl_val_x@ + "\" y=\""@ + r.y_itl_text@ + "\" class=\"label-stat\">ITL "@ + r.itl@ + "ms</text>\n      <text x=\"760\" y=\""@);
        lemma_contains_extend("\n    <g class=\"tier-row\">\n      <text x=\"30\" y=\""@ + r.y@ + "\" class=\"label-concurrency\">Concurrency = "@ + r.concurrency@ + "</text>\n      <rect x=\"220\" y=\""@ + r.rect_ttft_y@ + "\" width=\""@ + r.ttft_w@ + "\" height=\"14\" rx=\"3\" fill=\"#7fb8a6\" />\n      <rect x=\"220\" y=\""@ + r.rect_itl_y@ + "\" width=\""@ + r.itl_w@ + "\" height=\"14\" rx=\"3\" fill=\"#6ba4d9\" />\n      <text x=\""@ + r.ttft_val_x@ + "\" y=\""@ + r.y_ttft_text@ + "\" class=\"label-stat\">TTFT "@ + r.ttft@ + "ms</text>\n      <text x=\""@ + r.itl_val_x@ + "\" y=\""@ + r.y_itl_text@ + "\" class=\"label-stat\">ITL "@ + r.itl@ + "ms</text>\n      <text x=\"760\" y=\""@ + r.y@ + "\" class=\"badge-tps\">"@ + r.tps@ + " tok/s</text>\n      <text x=\"920\" y=\""@ + r.y@, "\" class=\"badge-power\">"@, "ms</text>\n      <text x=\""@ + r.itl_val_x@ + "\" y=\""@ + r.y_itl_text@ + "\" class=\"label-stat\">ITL "@ + r.itl@ + "ms</text>\n      <text x=\"760\" y=\""@);
        lemma_contains_extend("\n    <g class=\"tier-row\">\n      <text x=\"30\" y=\""@ + r.y@ + "\" class=\"label-concurrency\">Concurrency = "@ + r.concurrency@ + "</text>\n      <rect x=\"220\" y=\""@ + r.rect_ttft_y@ + "\" width=\""@ + r.ttft_w@ + "\" height=\"14\" rx=\"3\" fill=\"#7fb8a6\" />\n      <rect x=\"220\" y=\""@ + r.rect_itl_y@ + "\" width=\""@ + r.itl_w@ + "\" height=\"14\" rx=\"3\" fill=\"#6ba4d9\" />\n      <text x=\""@ + r.ttft_val_x@ + "\" y=\""@ + r.y_ttft_text@ + "\" class=\"label-stat\">TTFT "@ + r.ttft@ + "ms</text>\n      <text x=\""@ + r.itl_val_x@ + "\" y=\""@ + r.y_itl_text@ + "\" class=\"label-stat\">ITL "@ + r.itl@ + "ms</text>\n      <text x=\"760\" y=\""@ + r.y@ + "\" class=\"badge-tps\">"@ + r.tps@ + " tok/s</text>\n      <text x=\"920\" y=\""@ + r.y@ + "\" class=\"badge-power\">"@, r.power@, "ms</text>\n      <text x=\""@ + r.itl_val_x@ + "\" y=\""@ + r.y_itl_text@ + "\" class=\"label-stat\">ITL "@ + r.itl@ + "ms</text>\n      <text x=\"760\" y=\""@);
        lemma_contains_extend("\n    <g class=\"tier-row\">\n      <text x=\"30\" y=\""@ + r.y@ + "\" class=\"label-concurrency\">Concurrency = "@ + r.concurrency@ + "</text>\n      <rect x=\"220\" y=\""@ + r.rect_ttft_y@ + "\" width=\""@ + r.ttft_w@ + "\" height=\"14\" rx=\"3\" fill=\"#7fb8a6\" />\n      <rect x=\"220\" y=\""@ + r.rect_itl_y@ + "\" width=\""@ + r.itl_w@ + "\" height=\"14\" rx=\"3\" fill=\"#6ba4d9\" />\n      <text x=\""@ + r.ttft_val_x@ + "\" y=\""@ + r.y_ttft_text@ + "\" class=\"label-stat\">TTFT "@ + r.ttft@ + "ms</text>\n      <text x=\""@ + r.itl_val_x@ + "\" y=\""@ + r.y_itl_text@ + "\" class=\"label-stat\">ITL "@ + r.itl@ + "ms</text>\n      <text x=\"760\" y=\""@ + r.y@ + "\" class=\"badge-tps\">"@ + r.tps@ + " tok/s</text>\n      <text x=\"920\" y=\""@ + r.y@ + "\" class=\"badge-power\">"@ + r.power@, "W ("@, "ms</text>\n      <text x=\""@ + r.itl_val_x@ + "\" y=\""@ + r.y_itl_text@ + "\" class=\"label-stat\">ITL "@ + r.itl@ + "ms</text>\n      <text x=\"760\" y=\""@);
        lemma_contains_extend("\n    <g class=\"tier-row\">\n      <text x=\"30\" y=\""@ + r.y@ + "\" class=\"label-concurrency\">Concurrency = "@ + r.concurrency@ + "</text>\n      <rect x=\"220\" y=\""@ + r.rect_ttft_y@ + "\" width=\""@ + r.ttft_w@ + "\" height=\"14\" rx=\"3\" fill=\"#7fb8a6\" />\n      <rect x=\"220\" y=\""@ + r.rect_itl_y@ + "\" width=\""@ + r.itl_w@ + "\" height=\"14\" rx=\"3\" fill=\"#6ba4d9\" />\n      <text x=\""@ + r.ttft_val_x@ + "\" y=\""@ + r.y_ttft_text@ + "\" class=\"label-stat\">TTFT "@ + r.ttft@ + "ms</text>\n      <text x=\""@ + r.itl_val_x@ + "\" y=\""@ + r.y_itl_text@ + "\" class=\"label-stat\">ITL "@ + r.itl@ + "ms</text>\n      <text x=\"760\" y=\""@ + r.y@ + "\" class=\"badge-tps\">"@ + r.tps@ + " tok/s</text>\n      <text x=\"920\" y=\""@ + r.y@ + "\" class=\"badge-power\">"@ + r.power@ + "W ("@, r.joules@, "ms</text>\n      <text x=\""@ + r.itl_val_x@ + "\" y=\""@ + r.y_itl_text@ + "\" class=\"label-stat\">ITL "@ + r.itl@ + "ms</text>\n      <text x=\"760\" y=\""@);
        lemma_contains_extend("\n    <g class=\"tier-row\">\n      <text x=\"30\" y=\""@ + r.y@ + "\" class=\"label-concurrency\">Concurrency = "@ + r.concurrency@ + "</text>\n      <rect x=\"220\" y=\""@ + r.rect_ttft_y@ + "\" width=\""@ + r.ttft_w@ + "\" height=\"14\" rx=\"3\" fill=\"#7fb8a6\" />\n      <rect x=\"220\" y=\""@ + r.rect_itl_y@ + "\" width=\""@ + r.itl_w@ + "\" height=\"14\" rx=\"3\" fill=\"#6ba4d9\" />\n      <text x=\""@ + r.ttft_val_x@ + "\" y=\""@ + r.y_ttft_text@ + "\" class=\"label-stat\">TTFT "@ + r.ttft@ + "ms</text>\n      <text x=\""@ + r.itl_val_x@ + "\" y=\""@ + r.y_itl_text@ + "\" class=\"label-stat\">ITL "@ + r.itl@ + "ms</text>\n      <text x=\"760\" y=\""@ + r.y@ + "\" class=\"badge-tps\">"@ + r.tps@ + " tok/s</text>\n      <text x=\"920\" y=\""@ + r.y@ + "\" class=\"badge-power\">"@ + r.power@ + "W ("@ + r.joules@, " J/tok)</text>\n    </g>"@, "ms</text>\n      <text x=\""@ + r.itl_val_x@ + "\" y=\""@ + r.y_itl_text@ + "\" class=\"label-stat\">ITL "@ + r.itl@ + "ms</text>\n      <text x=\"760\" y=\""@);
    }
    assert(contains_seq(pressure_row_text(r), "ms</text>\n      <text x=\"760\" y=\""@ + r.y@ + "\" class=\"badge-tps\">"@ + r.tps@ + " tok/s</text>\n      <text x=\"920\" y=\""@)) by {
        lemma_concat_associative(("\n    <g class=\"tier-row\">\n      <text x=\"30\" y=\""@ + r.y@ + "\" class=\"label-concurrency\">Concurrency = "@ + r.concurrency@ + "</text>\n      <rect x=\"220\" y=\""@ + r.rect_ttft_y@ + "\" width=\""@ + r.ttft_w@ + "\" height=\"14\" rx=\"3\" fill=\"#7fb8a6\" />\n      <rect x=\"220\" y=\""@ + r.rect_itl_y@ + "\" width=\""@ + r.itl_w@ + "\" height=\"14\" rx=\"3\" fill=\"#6ba4d9\" />\n      <text x=\""@ + r.ttft_val_x@ + "\" y=\""@ + r.y_ttft_text@ + "\" class=\"label-stat\">TTFT "@ + r.ttft@ + "ms</text>\n      <text x=\""@ + r.itl_val_x@ + "\" y=\""@ + r.y_itl_text@ + "\" class=\"label-stat\">ITL "@ + r.itl@), "ms</text>\n      <text x=\"760\" y=\""@, r.y@);
        assert(("\n    <g class=\"tier-row\">\n      <text x=\"30\" y=\""@ + r.y@ + "\" class=\"label-concurrency\">Concurrency = "@ + r.concurrency@ + "</text>\n      <rect x=\"220\" y=\""@ + r.rect_ttft_y@ + "\" width=\""@ + r.ttft_w@ + "\" height=\"14\" rx=\"3\" fill=\"#7fb8a6\" />\n      <rect x=\"220\" y=\""@ + r.rect_itl_y@ + "\" width=\""@ + r.itl_w@ + "\" height=\"14\" rx=\"3\" fill=\"#6ba4d9\" />\n      <text x=\""@ + r.ttft_val_x@ + "\" y=\""@ + r.y_ttft_text@ + "\" class=\"label-stat\">TTFT "@ + r.ttft@ + "ms</text>\n      <text x=\""@ + r.itl_val_x@ + "\" y=\""@ + r.y_itl_text@ + "\" class=\"label-stat\">ITL "@ + r.itl@) + ("ms</text>\n      <text x=\"760\" y=\""@ + r.y@) == "\n    <g class=\"tier-row\">\n      <text x=\"30\" y=\""@ + r.y@ + "\" class=\"label-concurrency\">Concurrency = "@ + r.concurrency@ + "</text>\n      <rect x=\"220\" y=\""@ + r.rect_ttft_y@ + "\" width=\""@ + r.ttft_w@ + "\" height=\"14\" rx=\"3\" fill=\"#7fb8a6\" />\n      <rect x=\"220\" y=\""@ + r.rect_itl_y@ + "\" width=\""@ + r.itl_w@ + "\" height=\"14\" rx=\"3\" fill=\"#6ba4d9\" />\n      <text x=\""@ + r.ttft_val_x@ + "\" y=\""@ + r.y_ttft_text@ + "\" class=\"label-stat\">TTFT "@ + r.ttft@ + "ms</text>\n      <text x=\""@ + r.itl_val_x@ + "\" y=\""@ + r.y_itl_text@ + "\" class=\"label-stat\">ITL "@ + r.itl@ + "ms</text>\n      <text x=\"760\" y=\""@ + r.y@);
        lemma_concat_associative(("\n    <g class=\"tier-row\">\n      <text x=\"30\" y=\""@ + r.y@ + "\" class=\"label-concurrency\">Concurrency = "@ + r.concurrency@ + "</text>\n      <rect x=\"220\" y=\""@ + r.rect_ttft_y@ + "\" width=\""@ + r.ttft_w@ + "\" height=\"14\" rx=\"3\" fill=\"#7fb8a6\" />\n      <rect x=\"220\" y=\""@ + r.rect_itl_y@ + "\" width=\""@ + r.itl_w@ + "\" height=\"14\" rx=\"3\" fill=\"#6ba4d9\" />\n      <text x=\""@ + r.ttft_val_x@ + "\" y=\""@ + r.y_ttft_text@ + "\" class=\"label-stat\">TTFT "@ + r.ttft@ + "ms</text>\n      <text x=\""@ + r.itl_val_x@ + "\" y=\""@ + r.y_itl_text@ + "\" class=\"label-stat\">ITL "@ + r.itl@), "ms</text>\n      <text x=\"760\" y=\""@ + r.y@, "\" class=\"badge-tps\">"@);
        assert(("\n    <g class=\"tier-row\">\n      <text x=\"30\" y=\""@ + r.y@ + "\" class=\"label-concurrency\">Concurrency = "@ + r.concurrency@ + "</text>\n      <rect x=\"220\" y=\""@ + r.rect_ttft_y@ + "\" width=\""@ + r.ttft_w@ + "\" height=\"14\" rx=\"3\" fill=\"#7fb8a6\" />\n      <rect x=\"220\" y=\""@ + r.rect_itl_y@ + "\" width=\""@ + r.itl_w@ + "\" height=\"14\" rx=\"3\" fill=\"#6ba4d9\" />\n      <text x=\""@ + r.ttft_val_x@ + "\" y=\""@ + r.y_ttft_text@ + "\" class=\"label-stat\">TTFT "@ + r.ttft@ + "ms</text>\n      <text x=\""@ + r.itl_val_x@ + "\" y=\""@ + r.y_itl_text@ + "\" class=\"label-stat\">ITL "@ + r.itl@) + ("ms</text>\n      <text x=\"760\" y=\""@ + r.y@ + "\" class=\"badge-tps\">"@) == "\n    <g class=\"tier-row\">\n      <text x=\"30\" y=\""@ + r.y@ + "\" class=\"label-concurrency\">Concurrency = "@ + r.concurrency@ + "</text>\n      <rect x=\"220\" y=\""@ + r.rect_ttft_y@ + "\" width=\""@ + r.ttft_w@ + "\" height=\"14\" rx=\"3\" fill=\"#7fb8a6\" />\n      <rect x=\"220\" y=\""@ + r.rect_itl_y@ + "\" width=\""@ + r.itl_w@ + "\" height=\"14\" rx=\"3\" fill=\"#6ba4d9\" />\n      <text x=\""@ + r.ttft_val_x@ + "\" y=\""@ + r.y_ttft_text@ + "\" class=\"label-stat\">TTFT "@ + r.ttft@ + "ms</text>\n      <text x=\""@ + r.itl_val_x@ + "\" y=\""@ + r.y_itl_text@ + "\" class=\"label-stat\">ITL "@ + r.itl@ + "ms</text>\n      <text x=\"760\" y=\""@ + r.y@ + "\" class=\"badge-tps\">"@);
        lemma_concat_associative(("\n    <g class=\"tier-row\">\n      <text x=\"30\" y=\""@ + r.y@ + "\" class=\"label-concurrency\">Concurrency = "@ + r.concurrency@ + "</text>\n      <rect x=\"220\" y=\""@ + r.rect_ttft_y@ + "\" width=\""@ + r.ttft_w@ + "\" height=\"14\" rx=\"3\" fill=\"#7fb8a6\" />\n      <rect x=\"220\" y=\""@ + r.rect_itl_y@ + "\" width=\""@ + r.itl_w@ + "\" height=\"14\" rx=\"3\" fill=\"#6ba4d9\" />\n      <text x=\""@ + r.ttft_val_x@ + "\" y=\""@ + r.y_ttft_text@ + "\" class=\"label-stat\">TTFT "@ + r.ttft@ + "ms</text>\n      <text x=\""@ + r.itl_val_x@ + "\" y=\""@ + r.y_itl_text@ + "\" class=\"label-stat\">ITL "@ + r.itl@), "ms</text>\n      <text x=\"760\" y=\""@ + r.y@ + "\" class=\"badge-tps\">"@, r.tps@);
        assert(("\n    <g class=\"tier-row\">\n      <text x=\"30\" y=\""@ + r.y@ + "\" class=\"label-concurrency\">Concurrency = "@ + r.concurrency@ + "</text>\n      <rect x=\"220\" y=\""@ + r.rect_ttft_y@ + "\" width=\""@ + r.ttft_w@ + "\" height=\"14\" rx=\"3\" fill=\"#7fb8a6\" />\n      <rect x=\"220\" y=\""@ + r.rect_itl_y@ + "\" width=\""@ + r.itl_w@ + "\" height=\"14\" rx=\"3\" fill=\"#6ba4d9\" />\n      <text x=\""@ + r.ttft_val_x@ + "\" y=\""@ + r.y_ttft_text@ + "\" class=\"label-stat\">TTFT "@ + r.ttft@ + "ms</text>\n      <text x=\""@ + r.itl_val_x@ + "\" y=\""@ + r.y_itl_text@ + "\" class=\"label-stat\">ITL "@ + r.itl@) + ("ms</text>\n      <text x=\"760\" y=\""@ + r.y@ + "\" class=\"badge-tps\">"@ + r.tps@) == "\n    <g class=\"tier-row\">\n      <text x=\"30\" y=\""@ + r.y@ + "\" class=\"label-concurrency\">Concurrency = "@ + r.concurrency@ + "</text>\n      <rect x=\"220\" y=\""@ + r.rect_ttft_y@ + "\" width=\""@ + r.ttft_w@ + "\" height=\"14\" rx=\"3\" fill=\"#7fb8a6\" />\n      <rect x=\"220\" y=\""@ + r.rect_itl_y@ + "\" width=\""@ + r.itl_w@ + "\" height=\"14\" rx=\"3\" fill=\"#6ba4d9\" />\n      <text x=\""@ + r.ttft_val_x@ + "\" y=\""@ + r.y_ttft_text@ + "\" class=\"label-stat\">TTFT "@ + r.ttft@ + "ms</text>\n      <text x=\""@ + r.itl_val_x@ + "\" y=\""@ + r.y_itl_text@ + "\" class=\"label-stat\">ITL "@ + r.itl@ + "ms</text>\n      <text x=\"760\" y=\""@ + r.y@ + "\" class=\"badge-tps\">"@ + r.tps@);
        lemma_concat_associative(("\n    <g class=\"tier-row\">\n      <text x=\"30\" y=\""@ + r.y@ + "\" class=\"label-concurrency\">Concurrency = "@ + r.concurrency@ + "</text>\n      <rect x=\"220\" y=\""@ + r.rect_ttft_y@ + "\" width=\""@ + r.ttft_w@ + "\" height=\"14\" rx=\"3\" fill=\"#7fb8a6\" />\n      <rect x=\"220\" y=\""@ + r.rect_itl_y@ + "\" width=\""@ + r.itl_w@ + "\" height=\"14\" rx=\"3\" fill=\"#6ba4d9\" />\n      <text x=\""@ + r.ttft_val_x@ + "\" y=\""@ + r.y_ttft_text@ + "\" class=\"label-stat\">TTFT "@ + r.ttft@ + "ms</text>\n      <text x=\""@ + r.itl_val_x@ + "\" y=\""@ + r.y_itl_text@ + "\" class=\"label-stat\">ITL "@ + r.itl@), "ms</text>\n      <text x=\"760\" y=\""@ + r.y@ + "\" class=\"badge-tps\">"@ + r.tps@, " tok/s</text>\n      <text x=\"920\" y=\""@);
        assert(("\n    <g class=\"tier-row\">\n      <text x=\"30\" y=\""@ + r.y@ + "\" class=\"label-concurrency\">Concurrency = "@ + r.concurrency@ + "</text>\n      <rect x=\"220\" y=\""@ + r.rect_ttft_y@ + "\" width=\""@ + r.ttft_w@ + "\" height=\"14\" rx=\"3\" fill=\"#7fb8a6\" />\n      <rect x=\"220\" y=\""@ + r.rect_itl_y@ + "\" width=\""@ + r.itl_w@ + "\" height=\"14\" rx=\"3\" fill=\"#6ba4d9\" />\n      <text x=\""@ + r.ttft_val_x@ + "\" y=\""@ + r.y_ttft_text@ + "\" class=\"label-stat\">TTFT "@ + r.ttft@ + "ms</text>\n      <text x=\""@ + r.itl_val_x@ + "\" y=\""@ + r.y_itl_text@ + "\" class=\"label-stat\">ITL "@ + r.itl@) + ("ms</text>\n      <text x=\"760\" y=\""@ + r.y@ + "\" class=\"badge-tps\">"@ + r.tps@ + " tok/s</text>\n      <text x=\"920\" y=\""@) == "\n    <g class=\"tier-row\">\n      <text x=\"30\" y=\""@ + r.y@ + "\" class=\"label-concurrency\">Concurrency = "@ + r.concurrency@ + "</text>\n      <rect x=\"220\" y=\""@ + r.rect_ttft_y@ + "\" width=\""@ + r.ttft_w@ + "\" height=\"14\" rx=\"3\" fill=\"#7fb8a6\" />\n      <rect x=\"220\" y=\""@ + r.rect_itl_y@ + "\" width=\""@ + r.itl_w@ + "\" height=\"14\" rx=\"3\" fill=\"#6ba4d9\" />\n      <text x=\""@ + r.ttft_val_x@ + "\" y=\""@ + r.y_ttft_text@ + "\" class=\"label-stat\">TTFT "@ + r.ttft@ + "ms</text>\n      <text x=\""@ + r.itl_val_x@ + "\" y=\""@ + r.y_itl_text@ + "\" class=\"label-stat\">ITL "@ + r.itl@ + "ms</text>\n      <text x=\"760\" y=\""@ + r.y@ + "\" class=\"badge-tps\">"@ + r.tps@ + " tok/s</text>\n      <text x=\"920\" y=\""@);
        lemma_contains_tail(("\n    <g class=\"tier-row\">\n      <text x=\"30\" y=\""@ + r.y@ + "\" class=\"label-concurrency\">Concurrency = "@ + r.concurrency@ + "</text>\n      <rect x=\"220\" y=\""@ + r.rect_ttft_y@ + "\" width=\""@ + r.ttft_w@ + "\" height=\"14\" rx=\"3\" fill=\"#7fb8a6\" />\n      <rect x=\"220\" y=\""@ + r.rect_itl_y@ + "\" width=\""@ + r.itl_w@ + "\" height=\"14\" rx=\"3\" fill=\"#6ba4d9\" />\n      <text x=\""@ + r.ttft_val_x@ + "\" y=\""@ + r.y_ttft_text@ + "\" class=\"label-stat\">TTFT "@ + r.ttft@ + "ms</text>\n      <text x=\""@ + r.itl_val_x@ + "\" y=\""@ + r.y_itl_text@ + "\" class=\"label-stat\">ITL "@ + r.itl@), "ms</text>\n      <text x=\"760\" y=\""@ + r.y@ + "\" class=\"badge-tps\">"@ + r.tps@ + " tok/s</text>\n      <text x=\"920\" y=\""@);
        lemma_contains_extend("\n    <g class=\"tier-row\">\n      <text x=\"30\" y=\""@ + r.y@ + "\" class=\"label-concurrency\">Concurrency = "@ + r.concurrency@ + "</text>\n      <rect x=\"220\" y=\""@ + r.rect_ttft_y@ + "\" width=\""@ + r.ttft_w@ + "\" height=\"14\" rx=\"3\" fill=\"#7fb8a6\" />\n      <rect x=\"220\" y=\""@ + r.rect_itl_y@ + "\" width=\""@ + r.itl_w@ + "\" height=\"14\" rx=\"3\" fill=\"#6ba4d9\" />\n      <text x=\""@ + r.ttft_val_x@ + "\" y=\""@ + r.y_ttft_text@ + "\" class=\"label-stat\">TTFT "@ + r.ttft@ + "ms</text>\n      <text x=\""@ + r.itl_val_x@ + "\" y=\""@ + r.y_itl_text@ + "\" class=\"label-stat\">ITL "@ + r.itl@ + "ms</text>\n      <text x=\"760\" y=\""@ + r.y@ + "\" class=\"badge-tps\">"@ + r.tps@ + " tok/s</text>\n      <text x=\"920\" y=\""@, r.y@, "ms</text>\n      <text x=\"760\" y=\""@ + r.y@ + "\" class=\"badge-tps\">"@ + r.tps@ + " tok/s</text>\n      <text x=\"920\" y=\""@);
        lemma_contains_extend("\n    <g class=\"tier-row\">\n      <text x=\"30\" y=\""@ + r.y@ + "\" class=\"label-concurrency\">Concurrency = "@ + r.concurrency@ + "</text>\n      <rect x=\"220\" y=\""@ + r.rect_ttft_y@ + "\" width=\""@ + r.ttft_w@ + "\" height=\"14\" rx=\"3\" fill=\"#7fb8a6\" />\n      <rect x=\"220\" y=\""@ + r.rect_itl_y@ + "\" width=\""@ + r.itl_w@ + "\" height=\"14\" rx=\"3\" fill=\"#6ba4d9\" />\n      <text x=\""@ + r.ttft_val_x@ + "\" y=\""@ + r.y_ttft_text@ + "\" class=\"label-stat\">TTFT "@ + r.ttft@ + "ms</text>\n      <text x=\""@ + r.itl_val_x@ + "\" y=\""@ + r.y_itl_text@ + "\" class=\"label-stat\">ITL "@ + r.itl@ + "ms</text>\n      <text x=\"760\" y=\""@ + r.y@ + "\" class=\"badge-tps\">"@ + r.tps@ + " tok/s</text>\n      <text x=\"920\" y=\""@ + r.y@, "\" class=\"badge-power\">"@, "ms</text>\n      <text x=\"760\" y=\""@ + r.y@ + "\" class=\"badge-tps\">"@ + r.tps@ + " tok/s</text>\n      <text x=\"920\" y=\""@);
        lemma_contains_extend("\n    <g class=\"tier-row\">\n      <text x=\"30\" y=\""@ + r.y@ + "\" class=\"label-concurrency\">Concurrency = "@ + r.concurrency@ + "</text>\n      <rect x=\"220\" y=\""@ + r.rect_ttft_y@ + "\" width=\""@ + r.ttft_w@ + "\" height=\"14\" rx=\"3\" fill=\"#7fb8a6\" />\n      <rect x=\"220\" y=\""@ + r.rect_itl_y@ + "\" width=\""@ + r.itl_w@ + "\" height=\"14\" rx=\"3\" fill=\"#6ba4d9\" />\n      <text x=\""@ + r.ttft_val_x@ + "\" y=\""@ + r.y_ttft_text@ + "\" class=\"label-stat\">TTFT "@ + r.ttft@ + "ms</text>\n      <text x=\""@ + r.itl_val_x@ + "\" y=\""@ + r.y_itl_text@ + "\" class=\"label-stat\">ITL "@ + r.itl@ + "ms</text>\n      <text x=\"760\" y=\""@ + r.y@ + "\" class=\"badge-tps\">"@ + r.tps@ + " tok/s</text>\n      <text x=\"920\" y=\""@ + r.y@ + "\" class=\"badge-power\">"@, r.power@, "ms</text>\n      <text x=\"760\" y=\""@ + r.y@ + "\" class=\"badge-tps\">"@ + r.tps@ + " tok/s</text>\n      <text x=\"920\" y=\""@);
        lemma_contains_extend("\n    <g class=\"tier-row\">\n      <text x=\"30\" y=\""@ + r.y@ + "\" class=\"label-concurrency\">Concurrency = "@ + r.concurrency@ + "</text>\n      <rect x=\"220\" y=\""@ + r.rect_ttft_y@ + "\" width=\""@ + r.ttft_w@ + "\" height=\"14\" rx=\"3\" fill=\"#7fb8a6\" />\n      <rect x=\"220\" y=\""@ + r.rect_itl_y@ + "\" width=\""@ + r.itl_w@ + "\" height=\"14\" rx=\"3\" fill=\"#6ba4d9\" />\n      <text x=\""@ + r.ttft_val_x@ + "\" y=\""@ + r.y_ttft_text@ + "\" class=\"label-stat\">TTFT "@ + r.ttft@ + "ms</text>\n      <text x=\""@ + r.itl_val_x@ + "\" y=\""@ + r.y_itl_text@ + "\" class=\"label-stat\">ITL "@ + r.itl@ + "ms</text>\n      <text x=\"760\" y=\""@ + r.y@ + "\" class=\"badge-tps\">"@ + r.tps@ + " tok/s</text>\n      <text x=\"920\" y=\""@ + r.y@ + "\" class=\"badge-power\">"@ + r.power@, "W ("@, "ms</text>\n      <text x=\"760\" y=\""@ + r.y@ + "\" class=\"badge-tps\">"@ + r.tps@ + " tok/s</text>\n      <text x=\"920\" y=\""@);
        lemma_contains_extend("\n    <g class=\"tier-row\">\n      <text x=\"30\" y=\""@ + r.y@ + "\" class=\"label-concurrency\">Concurrency = "@ + r.concurrency@ + "</text>\n      <rect x=\"220\" y=\""@ + r.rect_ttft_y@ + "\" width=\""@ + r.ttft_w@ + "\" height=\"14\" rx=\"3\" fill=\"#7fb8a6\" />\n      <rect x=\"220\" y=\""@ + r.rect_itl_y@ + "\" width=\""@ + r.itl_w@ + "\" height=\"14\" rx=\"3\" fill=\"#6ba4d9\" />\n      <text x=\""@ + r.ttft_val_x@ + "\" y=\""@ + r.y_ttft_text@ + "\" class=\"label-stat\">TTFT "@ + r.ttft@ + "ms</text>\n      <text x=\""@ + r.itl_val_x@ + "\" y=\""@ + r.y_itl_text@ + "\" class=\"label-stat\">ITL "@ + r.itl@ + "ms</text>\n      <text x=\"760\" y=\""@ + r.y@ + "\" class=\"badge-tps\">"@ + r.tps@ + " tok/s</text>\n      <text x=\"920\" y=\""@ + r.y@ + "\" class=\"badge-power\">"@ + r.power@ + "W ("@, r.joules@, "ms</text>\n      <text x=\"760\" y=\""@ + r.y@ + "\" class=\"badge-tps\">"@ + r.tps@ + " tok/s</text>\n      <text x=\"920\" y=\""@);
        lemma_contains_extend("\n    <g class=\"tier-row\">\n      <text x=\"30\" y=\""@ + r.y@ + "\" class=\"label-concurrency\">Concurrency = "@ + r.concurrency@ + "</text>\n      <rect x=\"220\" y=\""@ + r.rect_ttft_y@ + "\" width=\""@ + r.ttft_w@ + "\" height=\"14\" rx=\"3\" fill=\"#7fb8a6\" />\n      <rect x=\"220\" y=\""@ + r.rect_itl_y@ + "\" width=\""@ + r.itl_w@ + "\" height=\"14\" rx=\"3\" fill=\"#6ba4d9\" />\n      <text x=\""@ + r.ttft_val_x@ + "\" y=\""@ + r.y_ttft_text@ + "\" class=\"label-stat\">TTFT "@ + r.ttft@ + "ms</text>\n      <text x=\""@ + r.itl_val_x@ + "\" y=\""@ + r.y_itl_text@ + "\" class=\"label-stat\">ITL "@ + r.itl@ + "ms</text>\n      <text x=\"760\" y=\""@ + r.y@ + "\" class=\"badge-tps\">"@ + r.tps@ + " tok/s</text>\n      <text x=\"920\" y=\""@ + r.y@ + "\" class=\"badge-power\">"@ + r.power@ + "W ("@ + r.joules@, " J/tok)</text>\n    </g>"@, "ms</text>\n      <text x=\"760\" y=\""@ + r.y@ + "\" class=\"badge-tps\">"@ + r.tps@ + " tok/s</text>\n      <text x=\"920\" y=\""@);
    }
    assert(contains_seq(pressure_row_text(r), " tok/s</text>\n      <text x=\"920\" y=\""@ + r.y@ + "\" class=\"badge-power\">"@ + r.power@ + "W ("@ + r.joules@ + " J/tok)</text>\n    </g>"@)) by {
        lemma_concat_associative(("\n    <g class=\"tier-row\">\n      <text x=\"30\" y=\""@ + r.y@ + "\" class=\"label-concurrency\">Concurrency = "@ + r.concurrency@ + "</text>\n      <rect x=\"220\" y=\""@ + r.rect_ttft_y@ + "\" width=\""@ + r.ttft_w@ + "\" height=\"14\" rx=\"3\" fill=\"#7fb8a6\" />\n      <rect x=\"220\" y=\""@ + r.rect_itl_y@ + "\" width=\""@ + r.itl_w@ + "\" height=\"14\" rx=\"3\" fill=\"#6ba4d9\" />\n      <text x=\""@ + r.ttft_val_x@ + "\" y=\""@ + r.y_ttft_text@ + "\" class=\"label-stat\">TTFT "@ + r.ttft@ + "ms</text>\n      <text x=\""@ + r.itl_val_x@ + "\" y=\""@ + r.y_itl_text@ + "\" class=\"label-stat\">ITL "@ + r.itl@ + "ms</text>\n      <text x=\"760\" y=\""@ + r.y@ + "\" class=\"badge-tps\">"@ + r.tps@), " tok/s</text>\n      <text x=\"920\" y=\""@, r.y@);
        assert(("\n    <g class=\"tier-row\">\n      <text x=\"30\" y=\""@ + r.y@ + "\" class=\"label-concurrency\">Concurrency = "@ + r.concurrency@ + "</text>\n      <rect x=\"220\" y=\""@ + r.rect_ttft_y@ + "\" width=\""@ + r.ttft_w@ + "\" height=\"14\" rx=\"3\" fill=\"#7fb8a6\" />\n      <rect x=\"220\" y=\""@ + r.rect_itl_y@ + "\" width=\""@ + r.itl_w@ + "\" height=\"14\" rx=\"3\" fill=\"#6ba4d9\" />\n      <text x=\""@ + r.ttft_val_x@ + "\" y=\""@ + r.y_ttft_text@ + "\" class=\"label-stat\">TTFT "@ + r.ttft@ + "ms</text>\n      <text x=\""@ + r.itl_val_x@ + "\" y=\""@ + r.y_itl_text@ + "\" class=\"label-stat\">ITL "@ + r.itl@ + "ms</text>\n      <text x=\"760\" y=\""@ + r.y@ + "\" class=\"badge-tps\">"@ + r.tps@) + (" tok/s</text>\n      <text x=\"920\" y=\""@ + r.y@) == "\n    <g class=\"tier-row\">\n      <text x=\"30\" y=\""@ + r.y@ + "\" class=\"label-concurrency\">Concurrency = "@ + r.concurrency@ + "</text>\n      <rect x=\"220\" y=\""@ + r.rect_ttft_y@ + "\" width=\""@ + r.ttft_w@ + "\" height=\"14\" rx=\"3\" fill=\"#7fb8a6\" />\n      <rect x=\"220\" y=\""@ + r.rect_itl_y@ + "\" width=\""@ + r.itl_w@ + "\" height=\"14\" rx=\"3\" fill=\"#6ba4d9\" />\n      <text x=\""@ + r.ttft_val_x@ + "\" y=\""@ + r.y_ttft_text@ + "\" class=\"label-stat\">TTFT "@ + r.ttft@ + "ms</text>\n      <text x=\""@ + r.itl_val_x@ + "\" y=\""@ + r.y_itl_text@ + "\" class=\"label-stat\">ITL "@ + r.itl@ + "ms</text>\n      <text x=\"760\" y=\""@ + r.y@ + "\" class=\"badge-tps\">"@ + r.tps@ + " tok/s</text>\n      <text x=\"920\" y=\""@ + r.y@);
        lemma_concat_associative(("\n    <g class=\"tier-row\">\n      <text x=\"30\" y=\""@ + r.y@ + "\" class=\"label-concurrency\">Concurrency = "@ + r.concurrency@ + "</text>\n      <rect x=\"220\" y=\""@ + r.rect_ttft_y@ + "\" width=\""@ + r.ttft_w@ + "\" height=\"14\" rx=\"3\" fill=\"#7fb8a6\" />\n      <rect x=\"220\" y=\""@ + r.rect_itl_y@ + "\" width=\""@ + r.itl_w@ + "\" height=\"14\" rx=\"3\" fill=\"#6ba4d9\" />\n      <text x=\""@ + r.ttft_val_x@ + "\" y=\""@ + r.y_ttft_text@ + "\" class=\"label-stat\">TTFT "@ + r.ttft@ + "ms</text>\n      <text x=\""@ + r.itl_val_x@ + "\" y=\""@ + r.y_itl_text@ + "\" class=\"label-stat\">ITL "@ + r.itl@ + "ms</text>\n      <text x=\"760\" y=\""@ + r.y@ + "\" class=\"badge-tps\">"@ + r.tps@), " tok/s</text>\n      <text x=\"920\" y=\""@ + r.y@, "\" class=\"badge-power\">"@);
        assert(("\n    <g class=\"tier-row\">\n      <text x=\"30\" y=\""@ + r.y@ + "\" class=\"label-concurrency\">Concurrency = "@ + r.concurrency@ + "</text>\n      <rect x=\"220\" y=\""@ + r.rect_ttft_y@ + "\" width=\""@ + r.ttft_w@ + "\" height=\"14\" rx=\"3\" fill=\"#7fb8a6\" />\n      <rect x=\"220\" y=\""@ + r.rect_itl_y@ + "\" width=\""@ + r.itl_w@ + "\" height=\"14\" rx=\"3\" fill=\"#6ba4d9\" />\n      <text x=\""@ + r.ttft_val_x@ + "\" y=\""@ + r.y_ttft_text@ + "\" class=\"label-stat\">TTFT "@ + r.ttft@ + "ms</text>\n      <text x=\""@ + r.itl_val_x@ + "\" y=\""@ + r.y_itl_text@ + "\" class=\"label-stat\">ITL "@ + r.itl@ + "ms</text>\n      <text x=\"760\" y=\""@ + r.y@ + "\" class=\"badge-tps\">"@ + r.tps@) + (" tok/s</text>\n      <text x=\"920\" y=\""@ + r.y@ + "\" class=\"badge-power\">"@) == "\n    <g class=\"tier-row\">\n      <text x=\"30\" y=\""@ + r.y@ + "\" class=\"label-concurrency\">Concurrency = "@ + r.concurrency@ + "</text>\n      <rect x=\"220\" y=\""@ + r.rect_ttft_y@ + "\" width=\""@ + r.ttft_w@ + "\" height=\"14\" rx=\"3\" fill=\"#7fb8a6\" />\n      <rect x=\"220\" y=\""@ + r.rect_itl_y@ + "\" width=\""@ + r.itl_w@ + "\" height=\"14\" rx=\"3\" fill=\"#6ba4d9\" />\n      <text x=\""@ + r.ttft_val_x@ + "\" y=\""@ + r.y_ttft_text@ + "\" class=\"label-stat\">TTFT "@ + r.ttft@ + "ms</text>\n      <text x=\""@ + r.itl_val_x@ + "\" y=\""@ + r.y_itl_text@ + "\" class=\"label-stat\">ITL "@ + r.itl@ + "ms</text>\n      <text x=\"760\" y=\""@ + r.y@ + "\" class=\"badge-tps\">"@ + r.tps@ + " tok/s</text>\n      <text x=\"920\" y=\""@ + r.y@ + "\" class=\"badge-power\">"@);
        lemma_concat_associative(("\n    <g class=\"tier-row\">\n      <text x=\"30\" y=\""@ + r.y@ + "\" class=\"label-concurrency\">Concurrency = "@ + r.concurrency@ + "</text>\n      <rect x=\"220\" y=\""@ + r.rect_ttft_y@ + "\" width=\""@ + r.ttft_w@ + "\" height=\"14\" rx=\"3\" fill=\"#7fb8a6\" />\n      <rect x=\"220\" y=\""@ + r.rect_itl_y@ + "\" width=\""@ + r.itl_w@ + "\" height=\"14\" rx=\"3\" fill=\"#6ba4d9\" />\n      <text x=\""@ + r.ttft_val_x@ + "\" y=\""@ + r.y_ttft_text@ + "\" class=\"label-stat\">TTFT "@ + r.ttft@ + "ms</text>\n      <text x=\""@ + r.itl_val_x@ + "\" y=\""@ + r.y_itl_text@ + "\" class=\"label-stat\">ITL "@ + r.itl@ + "ms</text>\n      <text x=\"760\" y=\""@ + r.y@ + "\" class=\"badge-tps\">"@ + r.tps@), " tok/s</text>\n      <text x=\"920\" y=\""@ + r.y@ + "\" class=\"badge-power\">"@, r.power@);
        assert(("\n    <g class=\"tier-row\">\n      <text x=\"30\" y=\""@ + r.y@ + "\" class=\"label-concurrency\">Concurrency = "@ + r.concurrency@ + "</text>\n      <rect x=\"220\" y=\""@ + r.rect_ttft_y@ + "\" width=\""@ + r.ttft_w@ + "\" height=\"14\" rx=\"3\" fill=\"#7fb8a6\" />\n      <rect x=\"220\" y=\""@ + r.rect_itl_y@ + "\" width=\""@ + r.itl_w@ + "\" height=\"14\" rx=\"3\" fill=\"#6ba4d9\" />\n      <text x=\""@ + r.ttft_val_x@ + "\" y=\""@ + r.y_ttft_text@ + "\" class=\"label-stat\">TTFT "@ + r.ttft@ + "ms</text>\n      <text x=\""@ + r.itl_val_x@ + "\" y=\""@ + r.y_itl_text@ + "\" class=\"label-stat\">ITL "@ + r.itl@ + "ms</text>\n      <text x=\"760\" y=\""@ + r.y@ + "\" class=\"badge-tps\">"@ + r.tps@) + (" tok/s</text>\n      <text x=\"920\" y=\""@ + r.y@ + "\" class=\"badge-power\">"@ + r.power@) == "\n    <g class=\"tier-row\">\n      <text x=\"30\" y=\""@ + r.y@ + "\" class=\"label-concurrency\">Concurrency = "@ + r.concurrency@ + "</text>\n      <rect x=\"220\" y=\""@ + r.rect_ttft_y@ + "\" width=\""@ + r.ttft_w@ + "\" height=\"14\" rx=\"3\" fill=\"#7fb8a6\" />\n      <rect x=\"220\" y=\""@ + r.rect_itl_y@ + "\" width=\""@ + r.itl_w@ + "\" height=\"14\" rx=\"3\" fill=\"#6ba4d9\" />\n      <text x=\""@ + r.ttft_val_x@ + "\" y=\""@ + r.y_ttft_text@ + "\" class=\"label-stat\">TTFT "@ + r.ttft@ + "ms</text>\n      <text x=\""@ + r.itl_val_x@ + "\" y=\""@ + r.y_itl_text@ + "\" class=\"label-stat\">ITL "@ + r.itl@ + "ms</text>\n      <text x=\"760\" y=\""@ + r.y@ + "\" class=\"badge-tps\">"@ + r.tps@ + " tok/s</text>\n      <text x=\"920\" y=\""@ + r.y@ + "\" class=\"badge-power\">"@ + r.power@);
        lemma_concat_associative(("\n    <g class=\"tier-row\">\n      <text x=\"30\" y=\""@ + r.y@ + "\" class=\"label-concurrency\">Concurrency = "@ + r.concurrency@ + "</text>\n      <rect x=\"220\" y=\""@ + r.rect_ttft_y@ + "\" width=\""@ + r.ttft_w@ + "\" height=\"14\" rx=\"3\" fill=\"#7fb8a6\" />\n      <rect x=\"220\" y=\""@ + r.rect_itl_y@ + "\" width=\""@ + r.itl_w@ + "\" height=\"14\" rx=\"3\" fill=\"#6ba4d9\" />\n      <text x=\""@ + r.ttft_val_x@ + "\" y=\""@ + r.y_ttft_text@ + "\" class=\"label-stat\">TTFT "@ + r.ttft@ + "ms</text>\n      <text x=\""@ + r.itl_val_x@ + "\" y=\""@ + r.y_itl_text@ + "\" class=\"label-stat\">ITL "@ + r.itl@ + "ms</text>\n      <text x=\"760\" y=\""@ + r.y@ + "\" class=\"badge-tps\">"@ + r.tps@), " tok/s</text>\n      <text x=\"920\" y=\""@ + r.y@ + "\" class=\"badge-power\">"@ + r.power@, "W ("@);
        assert(("\n    <g class=\"tier-row\">\n      <text x=\"30\" y=\""@ + r.y@ + "\" class=\"label-concurrency\">Concurrency = "@ + r.concurrency@ + "</text>\n      <rect x=\"220\" y=\""@ + r.rect_ttft_y@ + "\" width=\""@ + r.ttft_w@ + "\" height=\"14\" rx=\"3\" fill=\"#7fb8a6\" />\n      <rect x=\"220\" y=\""@ + r.rect_itl_y@ + "\" width=\""@ + r.itl_w@ + "\" height=\"14\" rx=\"3\" fill=\"#6ba4d9\" />\n      <text x=\""@ + r.ttft_val_x@ + "\" y=\""@ + r.y_ttft_text@ + "\" class=\"label-stat\">TTFT "@ + r.ttft@ + "ms</text>\n      <text x=\""@ + r.itl_val_x@ + "\" y=\""@ + r.y_itl_text@ + "\" class=\"label-stat\">ITL "@ + r.itl@ + "ms</text>\n      <text x=\"760\" y=\""@ + r.y@ + "\" class=\"badge-tps\">"@ + r.tps@) + (" tok/s</text>\n      <text x=\"920\" y=\""@ + r.y@ + "\" class=\"badge-power\">"@ + r.power@ + "W ("@) == "\n    <g class=\"tier-row\">\n      <text x=\"30\" y=\""@ + r.y@ + "\" class=\"label-concurrency\">Concurrency = "@ + r.concurrency@ + "</text>\n      <rect x=\"220\" y=\""@ + r.rect_ttft_y@ + "\" width=\""@ + r.ttft_w@ + "\" height=\"14\" rx=\"3\" fill=\"#7fb8a6\" />\n      <rect x=\"220\" y=\""@ + r.rect_itl_y@ + "\" width=\""@ + r.itl_w@ + "\" height=\"14\" rx=\"3\" fill=\"#6ba4d9\" />\n      <text x=\""@ + r.ttft_val_x@ + "\" y=\""@ + r.y_ttft_text@ + "\" class=\"label-stat\">TTFT "@ + r.ttft@ + "ms</text>\n      <text x=\""@ + r.itl_val_x@ + "\" y=\""@ + r.y_itl_text@ + "\" class=\"label-stat\">ITL "@ + r.itl@ + "ms</text>\n      <text x=\"760\" y=\""@ + r.y@ + "\" class=\"badge-tps\">"@ + r.tps@ + " tok/s</text>\n      <text x=\"920\" y=\""@ + r.y@ + "\" class=\"badge-power\">"@ + r.power@ + "W ("@);
        lemma_concat_associative(("\n    <g class=\"tier-row\">\n      <text x=\"30\" y=\""@ + r.y@ + "\" class=\"label-concurrency\">Concurrency = "@ + r.concurrency@ + "</text>\n      <rect x=\"220\" y=\""@ + r.rect_ttft_y@ + "\" width=\""@ + r.ttft_w@ + "\" height=\"14\" rx=\"3\" fill=\"#7fb8a6\" />\n      <rect x=\"220\" y=\""@ + r.rect_itl_y@ + "\" width=\""@ + r.itl_w@ + "\" height=\"14\" rx=\"3\" fill=\"#6ba4d9\" />\n      <text x=\""@ + r.ttft_val_x@ + "\" y=\""@ + r.y_ttft_text@ + "\" class=\"label-stat\">TTFT "@ + r.ttft@ + "ms</text>\n      <text x=\""@ + r.itl_val_x@ + "\" y=\""@ + r.y_itl_text@ + "\" class=\"label-stat\">ITL "@ + r.itl@ + "ms</text>\n      <text x=\"760\" y=\""@ + r.y@ + "\" class=\"badge-tps\">"@ + r.tps@), " tok/s</text>\n      <text x=\"920\" y=\""@ + r.y@ + "\" class=\"badge-power\">"@ + r.power@ + "W ("@, r.joules@);
        assert(("\n    <g class=\"tier-row\">\n      <text x=\"30\" y=\""@ + r.y@ + "\" class=\"label-concurrency\">Concurrency = "@ + r.concurrency@ + "</text>\n      <rect x=\"220\" y=\""@ + r.rect_ttft_y@ + "\" width=\""@ + r.ttft_w@ + "\" height=\"14\" rx=\"3\" fill=\"#7fb8a6\" />\n      <rect x=\"220\" y=\""@ + r.rect_itl_y@ + "\" width=\""@ + r.itl_w@ + "\" height=\"14\" rx=\"3\" fill=\"#6ba4d9\" />\n      <text x=\""@ + r.ttft_val_x@ + "\" y=\""@ + r.y_ttft_text@ + "\" class=\"label-stat\">TTFT "@ + r.ttft@ + "ms</text>\n      <text x=\""@ + r.itl_val_x@ + "\" y=\""@ + r.y_itl_text@ + "\" class=\"label-stat\">ITL "@ + r.itl@ + "ms</text>\n      <text x=\"760\" y=\""@ + r.y@ + "\" class=\"badge-tps\">"@ + r.tps@) + (" tok/s</text>\n      <text x=\"920\" y=\""@ + r.y@ + "\" class=\"badge-power\">"@ + r.power@ + "W ("@ + r.joules@) == "\n    <g class=\"tier-row\">\n      <text x=\"30\" y=\""@ + r.y@ + "\" class=\"label-concurrency\">Concurrency = "@ + r.concurrency@ + "</text>\n      <rect x=\"220\" y=\""@ + r.rect_ttft_y@ + "\" width=\""@ + r.ttft_w@ + "\" height=\"14\" rx=\"3\" fill=\"#7fb8a6\" />\n      <rect x=\"220\" y=\""@ + r.rect_itl_y@ + "\" width=\""@ + r.itl_w@ + "\" height=\"14\" rx=\"3\" fill=\"#6ba4d9\" />\n      <text x=\""@ + r.ttft_val_x@ + "\" y=\""@ + r.y_ttft_text@ + "\" class=\"label-stat\">TTFT "@ + r.ttft@ + "ms</text>\n      <text x=\""@ + r.itl_val_x@ + "\" y=\""@ + r.y_itl_text@ + "\" class=\"label-stat\">ITL "@ + r.itl@ + "ms</text>\n      <text x=\"760\" y=\""@ + r.y@ + "\" class=\"badge-tps\">"@ + r.tps@ + " tok/s</text>\n      <text x=\"920\" y=\""@ + r.y@ + "\" class=\"badge-power\">"@ + r.power@ + "W ("@ + r.joules@);
        lemma_concat_associative(("\n    <g class=\"tier-row\">\n      <text x=\"30\" y=\""@ + r.y@ + "\" class=\"label-concurrency\">Concurrency = "@ + r.concurrency@ + "</text>\n      <rect x=\"220\" y=\""@ + r.rect_ttft_y@ + "\" width=\""@ + r.ttft_w@ + "\" height=\"14\" rx=\"3\" fill=\"#7fb8a6\" />\n      <rect x=\"220\" y=\""@ + r.rect_itl_y@ + "\" width=\""@ + r.itl_w@ + "\" height=\"14\" rx=\"3\" fill=\"#6ba4d9\" />\n      <text x=\""@ + r.ttft_val_x@ + "\" y=\""@ + r.y_ttft_text@ + "\" class=\"label-stat\">TTFT "@ + r.ttft@ + "ms</text>\n      <text x=\""@ + r.itl_val_x@ + "\" y=\""@ + r.y_itl_text@ + "\" class=\"label-stat\">ITL "@ + r.itl@ + "ms</text>\n      <text x=\"760\" y=\""@ + r.y@ + "\" class=\"badge-tps\">"@ + r.tps@), " tok/s</text>\n      <text x=\"920\" y=\""@ + r.y@ + "\" class=\"badge-power\">"@ + r.power@ + "W ("@ + r.joules@, " J/tok)</text>\n    </g>"@);
        assert(("\n    <g class=\"tier-row\">\n      <text x=\"30\" y=\""@ + r.y@ + "\" class=\"label-concurrency\">Concurrency = "@ + r.concurrency@ + "</text>\n      <rect x=\"220\" y=\""@ + r.rect_ttft_y@ + "\" width=\""@ + r.ttft_w@ + "\" height=\"14\" rx=\"3\" fill=\"#7fb8a6\" />\n      <rect x=\"220\" y=\""@ + r.rect_itl_y@ + "\" width=\""@ + r.itl_w@ + "\" height=\"14\" rx=\"3\" fill=\"#6ba4d9\" />\n      <text x=\""@ + r.ttft_val_x@ + "\" y=\""@ + r.y_ttft_text@ + "\" class=\"label-stat\">TTFT "@ + r.ttft@ + "ms</text>\n      <text x=\""@ + r.itl_val_x@ + "\" y=\""@ + r.y_itl_text@ + "\" class=\"label-stat\">ITL "@ + r.itl@ + "ms</text>\n      <text x=\"760\" y=\""@ + r.y@ + "\" class=\"badge-tps\">"@ + r.tps@) + (" tok/s</text>\n      <text x=\"920\" y=\""@ + r.y@ + "\" class=\"badge-power\">"@ + r.power@ + "W ("@ + r.joules@ + " J/tok)</text>\n    </g>"@) == "\n    <g class=\"tier-row\">\n      <text x=\"30\" y=\""@ + r.y@ + "\" class=\"label-concurrency\">Concurrency = "@ + r.concurrency@ + "</text>\n      <rect x=\"220\" y=\""@ + r.rect_ttft_y@ + "\" width=\""@ + r.ttft_w@ + "\" height=\"14\" rx=\"3\" fill=\"#7fb8a6\" />\n      <rect x=\"220\" y=\""@ + r.rect_itl_y@ + "\" width=\""@ + r.itl_w@ + "\" height=\"14\" rx=\"3\" fill=\"#6ba4d9\" />\n      <text x=\""@ + r.ttft_val_x@ + "\" y=\""@ + r.y_ttft_text@ + "\" class=\"label-stat\">TTFT "@ + r.ttft@ + "ms</text>\n      <text x=\""@ + r.itl_val_x@ + "\" y=\""@ + r.y_itl_text@ + "\" class=\"label-stat\">ITL "@ + r.itl@ + "ms</text>\n      <text x=\"760\" y=\""@ + r.y@ + "\" class=\"badge-tps\">"@ + r.tps@ + " tok/s</text>\n      <text x=\"920\" y=\""@ + r.y@ + "\" class=\"badge-power\">"@ + r.power@ + "W ("@ + r.joules@ + " J/tok)</text>\n    </g>"@);
        lemma_contains_tail(("\n    <g class=\"tier-row\">\n      <text x=\"30\" y=\""@ + r.y@ + "\" class=\"label-concurrency\">Concurrency = "@ + r.concurrency@ + "</text>\n      <rect x=\"220\" y=\""@ + r.rect_ttft_y@ + "\" width=\""@ + r.ttft_w@ + "\" height=\"14\" rx=\"3\" fill=\"#7fb8a6\" />\n      <rect x=\"220\" y=\""@ + r.rect_itl_y@ + "\" width=\""@ + r.itl_w@ + "\" height=\"14\" rx=\"3\" fill=\"#6ba4d9\" />\n      <text x=\""@ + r.ttft_val_x@ + "\" y=\""@ + r.y_ttft_text@ + "\" class=\"label-stat\">TTFT "@ + r.ttft@ + "ms</text>\n      <text x=\""@ + r.itl_val_x@ + "\" y=\""@ + r.y_itl_text@ + "\" class=\"label-stat\">ITL "@ + r.itl@ + "ms</text>\n      <text x=\"760\" y=\""@ + r.y@ + "\" class=\"badge-tps\">"@ + r.tps@), " tok/s</text>\n      <text x=\"920\" y=\""@ + r.y@ + "\" class=\"badge-power\">"@ + r.power@ + "W ("@ + r.joules@ + " J/tok)</text>\n    </g>"@);
    }
}

/// Each line of a multi-model row carries its own fields in their places: the row holds every
/// line of its markup (from one line break to the next) with the record's fields inserted.
pub proof fn lemma_multi_model_row_lines(r: MultiModelRowText)
    ensures
        contains_seq(
            multi_model_row_text(r),
            "\n    <g class=\"model-row\">\n      <text x=\"30\" y=\""@
                + r.y@
                + "\" class=\"label-model\">"@
                + r.name@
                + "</text>\n      <text x=\"30\" y=\""@,
        ),
        contains_seq(
            multi_model_row_text(r),
            "</text>\n      <text x=\"30\" y=\""@
                + r.desc_y@
                + "\" class=\"label-topology\">"@
                + r.topology@
                + " ["@
                + r.quant@
                + "]</text>\n      <rect x=\"320\" y=\""@,
        ),
        contains_seq(
            multi_model_row_text(r),
            "]</text>\n      <rect x=\"320\" y=\""@
                + r.rect_ttft_y@
                + "\" width=\""@
                + r.ttft_w@
                + "\" height=\"14\" rx=\"3\" fill=\"#7fb8a6\" />\n      <rect x=\"320\" y=\""@,
        ),
        contains_seq(
            multi_model_row_text(r),
            "\" height=\"14\" rx=\"3\" fill=\"#7fb8a6\" />\n      <rect x=\"320\" y=\""@
                + r.rect_itl_y@
                + "\" width=\""@
                + r.itl_w@
                + "\" height=\"14\" rx=\"3\" fill=\"#6ba4d9\" />\n      <text x=\""@,
        ),
        contains_seq(
            multi_model_row_text(r),
            "\" height=\"14\" rx=\"3\" fill=\"#6ba4d9\" />\n      <text x=\""@
                + r.ttft_val_x@
                + "\" y=\""@
                + r.y_ttft_text@
                + "\" class=\"label-stat\">TTFT "@
                + r.ttft@
                + "ms</text>\n      <text x=\""@,
        ),
        contains_seq(
            multi_model_row_text(r),
            "ms</text>\n      <text x=\""@
                + r.itl_val_x@
                + "\" y=\""@
                + r.y_itl_text@
                + "\" class=\"label-stat\">ITL "@
                + r.itl@
                + "ms</text>\n      <text x=\"820\" y=\""@,
        ),
        contains_seq(
            multi_model_row_text(r),
            "ms</text>\n      <text x=\"820\" y=\""@
                + r.y@
                + "\" class=\"badge-footprint\">KV: "@
                + r.kv@
                + " GB</text>\n      <text x=\"960\" y=\""@,
        ),
        contains_seq(
            multi_model_row_text(r),
            " GB</text>\n      <text x=\"960\" y=\""@
                + r.y@
                + "\" class=\"badge-status\">"@
                + r.status@
                + "</text>\n    </g>"@,
        ),
{
    assert(contains_seq(multi_model_row_text(r), "\n    <g class=\"model-row\">\n      <text x=\"30\" y=\""@ + r.y@ + "\" class=\"label-model\">"@ + r.name@ + "</text>\n      <text x=\"30\" y=\""@)) by {
        lemma_contains_self("\n    <g class=\"model-row\">\n      <text x=\"30\" y=\""@ + r.y@ + "\" class=\"label-model\">"@ + r.name@ + "</text>\n      <text x=\"30\" y=\""@);
        lemma_contains_extend("\n    <g class=\"model-row\">\n      <text x=\"30\" y=\""@ + r.y@ + "\" class=\"label-model\">"@ + r.name@ + "</text>\n      <text x=\"30\" y=\""@, r.desc_y@, "\n    <g class=\"model-row\">\n      <text x=\"30\" y=\""@ + r.y@ + "\" class=\"label-model\">"@ + r.name@ + "</text>\n      <text x=\"30\" y=\""@);
        lemma_contains_extend("\n    <g class=\"model-row\">\n      <text x=\"30\" y=\""@ + r.y@ + "\" class=\"label-model\">"@ + r.name@ + "</text>\n      <text x=\"30\" y=\""@ + r.desc_y@, "\" class=\"label-topology\">"@, "\n    <g class=\"model-row\">\n      <text x=\"30\" y=\""@ + r.y@ + "\" class=\"label-model\">"@ + r.name@ + "</text>\n      <text x=\"30\" y=\""@);
        lemma_contains_extend("\n    <g class=\"model-row\">\n      <text x=\"30\" y=\""@ + r.y@ + "\" class=\"label-model\">"@ + r.name@ + "</text>\n      <text x=\"30\" y=\""@ + r.desc_y@ + "\" class=\"label-topology\">"@, r.topology@, "\n    <g class=\"model-row\">\n      <text x=\"30\" y=\""@ + r.y@ + "\" class=\"label-model\">"@ + r.name@ + "</text>\n      <text x=\"30\" y=\""@);
        lemma_contains_extend("\n    <g class=\"model-row\">\n      <text x=\"30\" y=\""@ + r.y@ + "\" class=\"label-model\">"@ + r.name@ + "</text>\n      <text x=\"30\" y=\""@ + r.desc_y@ + "\" class=\"label-topology\">"@ + r.topology@, " ["@, "\n    <g class=\"model-row\">\n      <text x=\"30\" y=\""@ + r.y@ + "\" class=\"label-model\">"@ + r.name@ + "</text>\n      <text x=\"30\" y=\""@);
        lemma_contains_extend("\n    <g class=\"model-row\">\n      <text x=\"30\" y=\""@ + r.y@ + "\" class=\"label-model\">"@ + r.name@ + "</text>\n      <text x=\"30\" y=\""@ + r.desc_y@ + "\" class=\"label-topology\">"@ + r.topology@ + " ["@, r.quant@, "\n    <g class=\"model-row\">\n      <text x=\"30\" y=\""@ + r.y@ + "\" class=\"label-model\">"@ + r.name@ + "</text>\n      <text x=\"30\" y=\""@);
        lemma_contains_extend("\n    <g class=\"model-row\">\n      <text x=\"30\" y=\""@ + r.y@ + "\" class=\"label-model\">"@ + r.name@ + "</text>\n      <text x=\"30\" y=\""@ + r.desc_y@ + "\" class=\"label-topology\">"@ + r.topology@ + " ["@ + r.quant@, "]</text>\n      <rect x=\"320\" y=\""@, "\n    <g class=\"model-row\">\n      <text x=\"30\" y=\""@ + r.y@ + "\" class=\"label-model\">"@ + r.name@ + "</text>\n      <text x=\"30\" y=\""@);
        lemma_contains_extend("\n    <g class=\"model-row\">\n      <text x=\"30\" y=\""@ + r.y@ + "\" class=\"label-model\">"@ + r.name@ + "</text>\n      <text x=\"30\" y=\""@ + r.desc_y@ + "\" class=\"label-topology\">"@ + r.topology@ + " ["@ + r.quant@ + "]</text>\n      <rect x=\"320\" y=\""@, r.rect_ttft_y@, "\n    <g class=\"model-row\">\n      <text x=\"30\" y=\""@ + r.y@ + "\" class=\"label-model\">"@ + r.name@ + "</text>\n      <text x=\"30\" y=\""@);
        lemma_contains_extend("\n    <g class=\"model-row\">\n      <text x=\"30\" y=\""@ + r.y@ + "\" class=\"label-model\">"@ + r.name@ + "</text>\n      <text x=\"30\" y=\""@ + r.desc_y@ + "\" class=\"label-topology\">"@ + r.topology@ + " ["@ + r.quant@ + "]</text>\n      <rect x=\"320\" y=\""@ + r.rect_ttft_y@, "\" width=\""@, "\n    <g class=\"model-row\">\n      <text x=\"30\" y=\""@ + r.y@ + "\" class=\"label-model\">"@ + r.name@ + "</text>\n      <text x=\"30\" y=\""@);
        lemma_contains_extend("\n    <g class=\"model-row\">\n      <text x=\"30\" y=\""@ + r.y@ + "\" class=\"label-model\">"@ + r.name@ + "</text>\n      <text x=\"30\" y=\""@ + r.desc_y@ + "\" class=\"label-topology\">"@ + r.topology@ + " ["@ + r.quant@ + "]</text>\n      <rect x=\"320\" y=\""@ + r.rect_ttft_y@ + "\" width=\""@, r.ttft_w@, "\n    <g class=\"model-row\">\n      <text x=\"30\" y=\""@ + r.y@ + "\" class=\"label-model\">"@ + r.name@ + "</text>\n      <text x=\"30\" y=\""@);
        lemma_contains_extend("\n    <g class=\"model-row\">\n      <text x=\"30\" y=\""@ + r.y@ + "\" class=\"label-model\">"@ + r.name@ + "</text>\n      <text x=\"30\" y=\""@ + r.desc_y@ + "\" class=\"label-topology\">"@ + r.topology@ + " ["@ + r.quant@ + "]</text>\n      <rect x=\"320\" y=\""@ + r.rect_ttft_y@ + "\" width=\""@ + r.ttft_w@, "\" height=\"14\" rx=\"3\" fill=\"#7fb8a6\" />\n      <rect x=\"320\" y=\""@, "\n    <g class=\"model-row\">\n      <text x=\"30\" y=\""@ + r.y@ + "\" class=\"label-model\">"@ + r.name@ + "</text>\n      <text x=\"30\" y=\""@);
        lemma_contains_extend("\n    <g class=\"model-row\">\n      <text x=\"30\" y=\""@ + r.y@ + "\" class=\"label-model\">"@ + r.name@ + "</text>\n      <text x=\"30\" y=\""@ + r.desc_y@ + "\" class=\"label-topology\">"@ + r.topology@ + " ["@ + r.quant@ + "]</text>\n      <rect x=\"320\" y=\""@ + r.rect_ttft_y@ + "\" width=\""@ + r.ttft_w@ + "\" height=\"14\" rx=\"3\" fill=\"#7fb8a6\" />\n      <rect x=\"320\" y=\""@, r.rect_itl_y@, "\n    <g class=\"model-row\">\n      <text x=\"30\" y=\""@ + r.y@ + "\" class=\"label-model\">"@ + r.name@ + "</text>\n      <text x=\"30\" y=\""@);
        lemma_contains_extend("\n    <g class=\"model-row\">\n      <text x=\"30\" y=\""@ + r.y@ + "\" class=\"label-model\">"@ + r.name@ + "</text>\n      <text x=\"30\" y=\""@ + r.desc_y@ + "\" class=\"label-topology\">"@ + r.topology@ + " ["@ + r.quant@ + "]</text>\n      <rect x=\"320\" y=\""@ + r.rect_ttft_y@ + "\" width=\""@ + r.ttft_w@ + "\" height=\"14\" rx=\"3\" fill=\"#7fb8a6\" />\n      <rect x=\"320\" y=\""@ + r.rect_itl_y@, "\" width=\""@, "\n    <g class=\"model-row\">\n      <text x=\"30\" y=\""@ + r.y@ + "\" class=\"label-model\">"@ + r.name@ + "</text>\n      <text x=\"30\" y=\""@);
        lemma_contains_extend("\n    <g class=\"model-row\">\n      <text x=\"30\" y=\""@ + r.y@ + "\" class=\"label-model\">"@ + r.name@ + "</text>\n      <text x=\"30\" y=\""@ + r.desc_y@ + "\" class=\"label-topology\">"@ + r.topology@ + " ["@ + r.quant@ + "]</text>\n      <rect x=\"320\" y=\""@ + r.rect_ttft_y@ + "\" width=\""@ + r.ttft_w@ + "\" height=\"14\" rx=\"3\" fill=\"#7fb8a6\" />\n      <rect x=\"320\" y=\""@ + r.rect_itl_y@ + "\" width=\""@, r.itl_w@, "\n    <g class=\"model-row\">\n      <text x=\"30\" y=\""@ + r.y@ + "\" class=\"label-model\">"@ + r.name@ + "</text>\n      <text x=\"30\" y=\""@);
        lemma_contains_extend("\n    <g class=\"model-row\">\n      <text x=\"30\" y=\""@ + r.y@ + "\" class=\"label-model\">"@ + r.name@ + "</text>\n      <text x=\"30\" y=\""@ + r.desc_y@ + "\" class=\"label-topology\">"@ + r.topology@ + " ["@ + r.quant@ + "]</text>\n      <rect x=\"320\" y=\""@ + r.rect_ttft_y@ + "\" width=\""@ + r.ttft_w@ + "\" height=\"14\" rx=\"3\" fill=\"#7fb8a6\" />\n      <rect x=\"320\" y=\""@ + r.rect_itl_y@ + "\" width=\""@ + r.itl_w@, "\" height=\"14\" rx=\"3\" fill=\"#6ba4d9\" />\n      <text x=\""@, "\n    <g class=\"model-row\">\n      <text x=\"30\" y=\""@ + r.y@ + "\" class=\"label-model\">"@ + r.name@ + "</text>\n      <text x=\"30\" y=\""@);
        lemma_contains_extend("\n    <g class=\"model-row\">\n      <text x=\"30\" y=\""@ + r.y@ + "\" class=\"label-model\">"@ + r.name@ + "</text>\n      <text x=\"30\" y=\""@ + r.desc_y@ + "\" class=\"label-topology\">"@ + r.topology@ + " ["@ + r.quant@ + "]</text>\n      <rect x=\"320\" y=\""@ + r.rect_ttft_y@ + "\" width=\""@ + r.ttft_w@ + "\" height=\"14\" rx=\"3\" fill=\"#7fb8a6\" />\n      <rect x=\"320\" y=\""@ + r.rect_itl_y@ + "\" width=\""@ + r.itl_w@ + "\" height=\"14\" rx=\"3\" fill=\"#6ba4d9\" />\n      <text x=\""@, r.ttft_val_x@, "\n    <g class=\"model-row\">\n      <text x=\"30\" y=\""@ + r.y@ + "\" class=\"label-model\">"@ + r.name@ + "</text>\n      <text x=\"30\" y=\""@);
        lemma_contains_extend("\n    <g class=\"model-row\">\n      <text x=\"30\" y=\""@ + r.y@ + "\" class=\"label-model\">"@ + r.name@ + "</text>\n      <text x=\"30\" y=\""@ + r.desc_y@ + "\" class=\"label-topology\">"@ + r.topology@ + " ["@ + r.quant@ + "]</text>\n      <rect x=\"320\" y=\""@ + r.rect_ttft_y@ + "\" width=\""@ + r.ttft_w@ + "\" height=\"14\" rx=\"3\" fill=\"#7fb8a6\" />\n      <rect x=\"320\" y=\""@ + r.rect_itl_y@ + "\" width=\""@ + r.itl_w@ + "\" height=\"14\" rx=\"3\" fill=\"#6ba4d9\" />\n      <text x=\""@ + r.ttft_val_x@, "\" y=\""@, "\n    <g class=\"model-row\">\n      <text x=\"30\" y=\""@ + r.y@ + "\" class=\"label-model\">"@ + r.name@ + "</text>\n      <text x=\"30\" y=\""@);
        lemma_contains_extend("\n    <g class=\"model-row\">\n      <text x=\"30\" y=\""@ + r.y@ + "\" class=\"label-model\">"@ + r.name@ + "</text>\n      <text x=\"30\" y=\""@ + r.desc_y@ + "\" class=\"label-topology\">"@ + r.topology@ + " ["@ + r.quant@ + "]</text>\n      <rect x=\"320\" y=\""@ + r.rect_ttft_y@ + "\" width=\""@ + r.ttft_w@ + "\" height=\"14\" rx=\"3\" fill=\"#7fb8a6\" />\n      <rect x=\"320\" y=\""@ + r.rect_itl_y@ + "\" width=\""@ + r.itl_w@ + "\" height=\"14\" rx=\"3\" fill=\"#6ba4d9\" />\n      <text x=\""@ + r.ttft_val_x@ + "\" y=\""@, r.y_ttft_text@, "\n    <g class=\"model-row\">\n      <text x=\"30\" y=\""@ + r.y@ + "\" class=\"label-model\">"@ + r.name@ + "</text>\n      <text x=\"30\" y=\""@);
        lemma_contains_extend("\n    <g class=\"model-row\">\n      <text x=\"30\" y=\""@ + r.y@ + "\" class=\"label-model\">"@ + r.name@ + "</text>\n      <text x=\"30\" y=\""@ + r.desc_y@ + "\" class=\"label-topology\">"@ + r.topology@ + " ["@ + r.quant@ + "]</text>\n      <rect x=\"320\" y=\""@ + r.rect_ttft_y@ + "\" width=\""@ + r.ttft_w@ + "\" height=\"14\" rx=\"3\" fill=\"#7fb8a6\" />\n      <rect x=\"320\" y=\""@ + r.rect_itl_y@ + "\" width=\""@ + r.itl_w@ + "\" height=\"14\" rx=\"3\" fill=\"#6ba4d9\" />\n      <text x=\""@ + r.ttft_val_x@ + "\" y=\""@ + r.y_ttft_text@, "\" class=\"label-stat\">TTFT "@, "\n    <g class=\"model-row\">\n      <text x=\"30\" y=\""@ + r.y@ + "\" class=\"label-model\">"@ + r.name@ + "</text>\n      <text x=\"30\" y=\""@);
        lemma_contains_extend("\n    <g class=\"model-row\">\n      <text x=\"30\" y=\""@ + r.y@ + "\" class=\"label-model\">"@ + r.name@ + "</text>\n      <text x=\"30\" y=\""@ + r.desc_y@ + "\" class=\"label-topology\">"@ + r.topology@ + " ["@ + r.quant@ + "]</text>\n      <rect x=\"320\" y=\""@ + r.rect_ttft_y@ + "\" width=\""@ + r.ttft_w@ + "\" height=\"14\" rx=\"3\" fill=\"#7fb8a6\" />\n      <rect x=\"320\" y=\""@ + r.rect_itl_y@ + "\" width=\""@ + r.itl_w@ + "\" height=\"14\" rx=\"3\" fill=\"#6ba4d9\" />\n      <text x=\""@ + r.ttft_val_x@ + "\" y=\""@ + r.y_ttft_text@ + "\" class=\"label-stat\">TTFT "@, r.ttft@, "\n    <g class=\"model-row\">\n      <text x=\"30\" y=\""@ + r.y@ + "\" class=\"label-model\">"@ + r.name@ + "</text>\n      <text x=\"30\" y=\""@);
        lemma_contains_extend("\n    <g class=\"model-row\">\n      <text x=\"30\" y=\""@ + r.y@ + "\" class=\"label-model\">"@ + r.name@ + "</text>\n      <text x=\"30\" y=\""@ + r.desc_y@ + "\" class=\"label-topology\">"@ + r.topology@ + " ["@ + r.quant@ + "]</text>\n      <rect x=\"320\" y=\""@ + r.rect_ttft_y@ + "\" width=\""@ + r.ttft_w@ + "\" height=\"14\" rx=\"3\" fill=\"#7fb8a6\" />\n      <rect x=\"320\" y=\""@ + r.rect_itl_y@ + "\" width=\""@ + r.itl_w@ + "\" height=\"14\" rx=\"3\" fill=\"#6ba4d9\" />\n      <text x=\""@ + r.ttft_val_x@ + "\" y=\""@ + r.y_ttft_text@ + "\" class=\"label-stat\">TTFT "@ + r.ttft@, "ms</text>\n      <text x=\""@, "\n    <g class=\"model-row\">\n      <text x=\"30\" y=\""@ + r.y@ + "\" class=\"label-model\">"@ + r.name@ + "</text>\n      <text x=\"30\" y=\""@);
        lemma_contains_extend("\n    <g class=\"model-row\">\n      <text x=\"30\" y=\""@ + r.y@ + "\" class=\"label-model\">"@ + r.name@ + "</text>\n      <text x=\"30\" y=\""@ + r.desc_y@ + "\" class=\"label-topology\">"@ + r.topology@ + " ["@ + r.quant@ + "]</text>\n      <rect x=\"320\" y=\""@ + r.rect_ttft_y@ + "\" width=\""@ + r.ttft_w@ + "\" height=\"14\" rx=\"3\" fill=\"#7fb8a6\" />\n      <rect x=\"320\" y=\""@ + r.rect_itl_y@ + "\" width=\""@ + r.itl_w@ + "\" height=\"14\" rx=\"3\" fill=\"#6ba4d9\" />\n      <text x=\""@ + r.ttft_val_x@ + "\" y=\""@ + r.y_ttft_text@ + "\" class=\"label-stat\">TTFT "@ + r.ttft@ + "ms</text>\n      <text x=\""@, r.itl_val_x@, "\n    <g class=\"model-row\">\n      <text x=\"30\" y=\""@ + r.y@ + "\" class=\"label-model\">"@ + r.name@ + "</text>\n      <text x=\"30\" y=\""@);
        lemma_contains_extend("\n    <g class=\"model-row\">\n      <text x=\"30\" y=\""@ + r.y@ + "\" class=\"label-model\">"@ + r.name@ + "</text>\n      <text x=\"30\" y=\""@ + r.desc_y@ + "\" class=\"label-topology\">"@ + r.topology@ + " ["@ + r.quant@ + "]</text>\n      <rect x=\"320\" y=\""@ + r.rect_ttft_y@ + "\" width=\""@ + r.ttft_w@ + "\" height=\"14\" rx=\"3\" fill=\"#7fb8a6\" />\n      <rect x=\"320\" y=\""@ + r.rect_itl_y@ + "\" width=\""@ + r.itl_w@ + "\" height=\"14\" rx=\"3\" fill=\"#6ba4d9\" />\n      <text x=\""@ + r.ttft_val_x@ + "\" y=\""@ + r.y_ttft_text@ + "\" class=\"label-stat\">TTFT "@ + r.ttft@ + "ms</text>\n      <text x=\""@ + r.itl_val_x@, "\" y=\""@, "\n    <g class=\"model-row\">\n      <text x=\"30\" y=\""@ + r.y@ + "\" class=\"label-model\">"@ + r.name@ + "</text>\n      <text x=\"30\" y=\""@);
        lemma_contains_extend("\n    <g class=\"model-row\">\n      <text x=\"30\" y=\""@ + r.y@ + "\" class=\"label-model\">"@ + r.name@ + "</text>\n      <text x=\"30\" y=\""@ + r.desc_y@ + "\" class=\"label-topology\">"@ + r.topology@ + " ["@ + r.quant@ + "]</text>\n      <rect x=\"320\" y=\""@ + r.rect_ttft_y@ + "\" width=\""@ + r.ttft_w@ + "\" height=\"14\" rx=\"3\" fill=\"#7fb8a6\" />\n      <rect x=\"320\" y=\""@ + r.rect_itl_y@ + "\" width=\""@ + r.itl_w@ + "\" height=\"14\" rx=\"3\" fill=\"#6ba4d9\" />\n      <text x=\""@ + r.ttft_val_x@ + "\" y=\""@ + r.y_ttft_text@ + "\" class=\"label-stat\">TTFT "@ + r.ttft@ + "ms</text>\n      <text x=\""@ + r.itl_val_x@ + "\" y=\""@, r.y_itl_text@, "\n    <g class=\"model-row\">\n      <text x=\"30\" y=\""@ + r.y@ + "\" class=\"label-model\">"@ + r.name@ + "</text>\n      <text x=\"30\" y=\""@);
        lemma_contains_extend("\n    <g class=\"model-row\">\n      <text x=\"30\" y=\""@ + r.y@ + "\" class=\"label-model\">"@ + r.name@ + "</text>\n      <text x=\"30\" y=\""@ + r.desc_y@ + "\" class=\"label-topology\">"@ + r.topology@ + " ["@ + r.quant@ + "]</text>\n      <rect x=\"320\" y=\""@ + r.rect_ttft_y@ + "\" width=\""@ + r.ttft_w@ + "\" height=\"14\" rx=\"3\" fill=\"#7fb8a6\" />\n      <rect x=\"320\" y=\""@ + r.rect_itl_y@ + "\" width=\""@ + r.itl_w@ + "\" height=\"14\" rx=\"3\" fill=\"#6ba4d9\" />\n      <text x=\""@ + r.ttft_val_x@ + "\" y=\""@ + r.y_ttft_text@ + "\" class=\"label-stat\">TTFT "@ + r.ttft@ + "ms</text>\n      <text x=\""@ + r.itl_val_x@ + "\" y=\""@ + r.y_itl_text@, "\" class=\"label-stat\">ITL "@, "\n    <g class=\"model-row\">\n      <text x=\"30\" y=\""@ + r.y@ + "\" class=\"label-model\">"@ + r.name@ + "</text>\n      <text x=\"30\" y=\""@);
        lemma_contains_extend("\n    <g class=\"model-row\">\n      <text x=\"30\" y=\""@ + r.y@ + "\" class=\"label-model\">"@ + r.name@ + "</text>\n      <text x=\"30\" y=\""@ + r.desc_y@ + "\" class=\"label-topology\">"@ + r.topology@ + " ["@ + r.quant@ + "]</text>\n      <rect x=\"320\" y=\""@ + r.rect_ttft_y@ + "\" width=\""@ + r.ttft_w@ + "\" height=\"14\" rx=\"3\" fill=\"#7fb8a6\" />\n      <rect x=\"320\" y=\""@ + r.rect_itl_y@ + "\" width=\""@ + r.itl_w@ + "\" height=\"14\" rx=\"3\" fill=\"#6ba4d9\" />\n      <text x=\""@ + r.ttft_val_x@ + "\" y=\""@ + r.y_ttft_text@ + "\" class=\"label-stat\">TTFT "@ + r.ttft@ + "ms</text>\n      <text x=\""@ + r.itl_val_x@ + "\" y=\""@ + r.y_itl_text@ + "\" class=\"label-stat\">ITL "@, r.itl@, "\n    <g class=\"model-row\">\n      <text x=\"30\" y=\""@ + r.y@ + "\" class=\"label-model\">"@ + r.name@ + "</text>\n      <text x=\"30\" y=\""@);
        lemma_contains_extend("\n    <g class=\"model-row\">\n      <text x=\"30\" y=\""@ + r.y@ + "\" class=\"label-model\">"@ + r.name@ + "</text>\n      <text x=\"30\" y=\""@ + r.desc_y@ + "\" class=\"label-topology\">"@ + r.topology@ + " ["@ + r.quant@ + "]</text>\n      <rect x=\"320\" y=\""@ + r.rect_ttft_y@ + "\" width=\""@ + r.ttft_w@ + "\" height=\"14\" rx=\"3\" fill=\"#7fb8a6\" />\n      <rect x=\"320\" y=\""@ + r.rect_itl_y@ + "\" width=\""@ + r.itl_w@ + "\" height=\"14\" rx=\"3\" fill=\"#6ba4d9\" />\n      <text x=\""@ + r.ttft_val_x@ + "\" y=\""@ + r.y_ttft_text@ + "\" class=\"label-stat\">TTFT "@ + r.ttft@ + "ms</text>\n      <text x=\""@ + r.itl_val_x@ + "\" y=\""@ + r.y_itl_text@ + "\" class=\"label-stat\">ITL "@ + r.itl@, "ms</text>\n      <text x=\"820\" y=\""@, "\n    <g class=\"model-row\">\n      <text x=\"30\" y=\""@ + r.y@ + "\" class=\"label-model\">"@ + r.name@ + "</text>\n      <text x=\"30\" y=\""@);
        lemma_contains_extend("\n    <g class=\"model-row\">\n      <text x=\"30\" y=\""@ + r.y@ + "\" class=\"label-model\">"@ + r.name@ + "</text>\n      <text x=\"30\" y=\""@ + r.desc_y@ + "\" class=\"label-topology\">"@ + r.topology@ + " ["@ + r.quant@ + "]</text>\n      <rect x=\"320\" y=\""@ + r.rect_ttft_y@ + "\" width=\""@ + r.ttft_w@ + "\" height=\"14\" rx=\"3\" fill=\"#7fb8a6\" />\n      <rect x=\"320\" y=\""@ + r.rect_itl_y@ + "\" width=\""@ + r.itl_w@ + "\" height=\"14\" rx=\"3\" fill=\"#6ba4d9\" />\n      <text x=\""@ + r.ttft_val_x@ + "\" y=\""@ + r.y_ttft_text@ + "\" class=\"label-stat\">TTFT "@ + r.ttft@ + "ms</text>\n      <text x=\""@ + r.itl_val_x@ + "\" y=\""@ + r.y_itl_text@ + "\" class=\"label-stat\">ITL "@ + r.itl@ + "ms</text>\n      <text x=\"820\" y=\""@, r.y@, "\n    <g class=\"model-row\">\n      <text x=\"30\" y=\""@ + r.y@ + "\" class=\"label-model\">"@ + r.name@ + "</text>\n      <text x=\"30\" y=\""@);
        lemma_contains_extend("\n    <g class=\"model-row\">\n      <text x=\"30\" y=\""@ + r.y@ + "\" class=\"label-model\">"@ + r.name@ + "</text>\n      <text x=\"30\" y=\""@ + r.desc_y@ + "\" class=\"label-topology\">"@ + r.topology@ + " ["@ + r.quant@ + "]</text>\n      <rect x=\"320\" y=\""@ + r.rect_ttft_y@ + "\" width=\""@ + r.ttft_w@ + "\" height=\"14\" rx=\"3\" fill=\"#7fb8a6\" />\n      <rect x=\"320\" y=\""@ + r.rect_itl_y@ + "\" width=\""@ + r.itl_w@ + "\" height=\"14\" rx=\"3\" fill=\"#6ba4d9\" />\n      <text x=\""@ + r.ttft_val_x@ + "\" y=\""@ + r.y_ttft_text@ + "\" class=\"label-stat\">TTFT "@ + r.ttft@ + "ms</text>\n      <text x=\""@ + r.itl_val_x@ + "\" y=\""@ + r.y_itl_text@ + "\" class=\"label-stat\">ITL "@ + r.itl@ + "ms</text>\n      <text x=\"820\" y=\""@ + r.y@, "\" class=\"badge-footprint\">KV: "@, "\n    <g class=\"model-row\">\n      <text x=\"30\" y=\""@ + r.y@ + "\" class=\"label-model\">"@ + r.name@ + "</text>\n      <text x=\"30\" y=\""@);
        lemma_contains_extend("\n    <g class=\"model-row\">\n      <text x=\"30\" y=\""@ + r.y@ + "\" class=\"label-model\">"@ + r.name@ + "</text>\n      <text x=\"30\" y=\""@ + r.desc_y@ + "\" class=\"label-topology\">"@ + r.topology@ + " ["@ + r.quant@ + "]</text>\n      <rect x=\"320\" y=\""@ + r.rect_ttft_y@ + "\" width=\""@ + r.ttft_w@ + "\" height=\"14\" rx=\"3\" fill=\"#7fb8a6\" />\n      <rect x=\"320\" y=\""@ + r.rect_itl_y@ + "\" width=\""@ + r.itl_w@ + "\" height=\"14\" rx=\"3\" fill=\"#6ba4d9\" />\n      <text x=\""@ + r.ttft_val_x@ + "\" y=\""@ + r.y_ttft_text@ + "\" class=\"label-stat\">TTFT "@ + r.ttft@ + "ms</text>\n      <text x=\""@ + r.itl_val_x@ + "\" y=\""@ + r.y_itl_text@ + "\" class=\"label-stat\">ITL "@ + r.itl@ + "ms</text>\n      <text x=\"820\" y=\""@ + r.y@ + "\" class=\"badge-footprint\">KV: "@, r.kv@, "\n    <g class=\"model-row\">\n      <text x=\"30\" y=\""@ + r.y@ + "\" class=\"label-model\">"@ + r.name@ + "</text>\n      <text x=\"30\" y=\""@);
        lemma_contains_extend("\n    <g class=\"model-row\">\n      <text x=\"30\" y=\""@ + r.y@ + "\" class=\"label-model\">"@ + r.name@ + "</text>\n      <text x=\"30\" y=\""@ + r.desc_y@ + "\" class=\"label-topology\">"@ + r.topology@ + " ["@ + r.quant@ + "]</text>\n      <rect x=\"320\" y=\""@ + r.rect_ttft_y@ + "\" width=\""@ + r.ttft_w@ + "\" height=\"14\" rx=\"3\" fill=\"#7fb8a6\" />\n      <rect x=\"320\" y=\""@ + r.rect_itl_y@ + "\" width=\""@ + r.itl_w@ + "\" height=\"14\" rx=\"3\" fill=\"#6ba4d9\" />\n      <text x=\""@ + r.ttft_val_x@ + "\" y=\""@ + r.y_ttft_text@ + "\" class=\"label-stat\">TTFT "@ + r.ttft@ + "ms</text>\n      <text x=\""@ + r.itl_val_x@ + "\" y=\""@ + r.y_itl_text@ + "\" class=\"label-stat\">ITL "@ + r.itl@ + "ms</text>\n      <text x=\"820\" y=\""@ + r.y@ + "\" class=\"badge-footprint\">KV: "@ + r.kv@, " GB</text>\n      <text x=\"960\" y=\""@, "\n    <g class=\"model-row\">\n      <text x=\"30\" y=\""@ + r.y@ + "\" class=\"label-model\">"@ + r.name@ + "</text>\n      <text x=\"30\" y=\""@);
        lemma_contains_extend("\n    <g class=\"model-row\">\n      <text x=\"30\" y=\""@ + r.y@ + "\" class=\"label-model\">"@ + r.name@ + "</text>\n      <text x=\"30\" y=\""@ + r.desc_y@ + "\" class=\"label-topology\">"@ + r.topology@ + " ["@ + r.quant@ + "]</text>\n      <rect x=\"320\" y=\""@ + r.rect_ttft_y@ + "\" width=\""@ + r.ttft_w@ + "\" height=\"14\" rx=\"3\" fill=\"#7fb8a6\" />\n      <rect x=\"320\" y=\""@ + r.rect_itl_y@ + "\" width=\""@ + r.itl_w@ + "\" height=\"14\" rx=\"3\" fill=\"#6ba4d9\" />\n      <text x=\""@ + r.ttft_val_x@ + "\" y=\""@ + r.y_ttft_text@ + "\" class=\"label-stat\">TTFT "@ + r.ttft@ + "ms</text>\n      <text x=\""@ + r.itl_val_x@ + "\" y=\""@ + r.y_itl_text@ + "\" class=\"label-stat\">ITL "@ + r.itl@ + "ms</text>\n      <text x=\"820\" y=\""@ + r.y@ + "\" class=\"badge-footprint\">KV: "@ + r.kv@ + " GB</text>\n      <text x=\"960\" y=\""@, r.y@, "\n    <g class=\"model-row\">\n      <text x=\"30\" y=\""@ + r.y@ + "\" class=\"label-model\">"@ + r.name@ + "</text>\n      <text x=\"30\" y=\""@);
        lemma_contains_extend("\n    <g class=\"model-row\">\n      <text x=\"30\" y=\""@ + r.y@ + "\" class=\"label-model\">"@ + r.name@ + "</text>\n      <text x=\"30\" y=\""@ + r.desc_y@ + "\" class=\"label-topology\">"@ + r.topology@ + " ["@ + r.quant@ + "]</text>\n      <rect x=\"320\" y=\""@ + r.rect_ttft_y@ + "\" width=\""@ + r.ttft_w@ + "\" height=\"14\" rx=\"3\" fill=\"#7fb8a6\" />\n      <rect x=\"320\" y=\""@ + r.rect_itl_y@ + "\" width=\""@ + r.itl_w@ + "\" height=\"14\" rx=\"3\" fill=\"#6ba4d9\" />\n      <text x=\""@ + r.ttft_val_x@ + "\" y=\""@ + r.y_ttft_text@ + "\" class=\"label-stat\">TTFT "@ + r.ttft@ + "ms</text>\n      <text x=\""@ + r.itl_val_x@ + "\" y=\""@ + r.y_itl_text@ + "\" class=\"label-stat\">ITL "@ + r.itl@ + "ms</text>\n      <text x=\"820\" y=\""@ + r.y@ + "\" class=\"badge-footprint\">KV: "@ + r.kv@ + " GB</text>\n      <text x=\"960\" y=\""@ + r.y@, "\" class=\"badge-status\">"@, "\n    <g class=\"model-row\">\n      <text x=\"30\" y=\""@ + r.y@ + "\" class=\"label-model\">"@ + r.name@ + "</text>\n      <text x=\"30\" y=\""@);
        lemma_contains_extend("\n    <g class=\"model-row\">\n      <text x=\"30\" y=\""@ + r.y@ + "\" class=\"label-model\">"@ + r.name@ + "</text>\n      <text x=\"30\" y=\""@ + r.desc_y@ + "\" class=\"label-topology\">"@ + r.topology@ + " ["@ + r.quant@ + "]</text>\n      <rect x=\"320\" y=\""@ + r.rect_ttft_y@ + "\" width=\""@ + r.ttft_w@ + "\" height=\"14\" rx=\"3\" fill=\"#7fb8a6\" />\n      <rect x=\"320\" y=\""@ + r.rect_itl_y@ + "\" width=\""@ + r.itl_w@ + "\" height=\"14\" rx=\"3\" fill=\"#6ba4d9\" />\n      <text x=\""@ + r.ttft_val_x@ + "\" y=\""@ + r.y_ttft_text@ + "\" class=\"label-stat\">TTFT "@ + r.ttft@ + "ms</text>\n      <text x=\""@ + r.itl_val_x@ + "\" y=\""@ + r.y_itl_text@ + "\" class=\"label-stat\">ITL "@ + r.itl@ + "ms</text>\n      <text x=\"820\" y=\""@ + r.y@ + "\" class=\"badge-footprint\">KV: "@ + r.kv@ + " GB</text>\n      <text x=\"960\" y=\""@ + r.y@ + "\" class=\"badge-status\">"@, r.status@, "\n    <g class=\"model-row\">\n      <text x=\"30\" y=\""@ + r.y@ + "\" class=\"label-model\">"@ + r.name@ + "</text>\n      <text x=\"30\" y=\""@);
        lemma_contains_extend("\n    <g class=\"model-row\">\n      <text x=\"30\" y=\""@ + r.y@ + "\" class=\"label-model\">"@ + r.name@ + "</text>\n      <text x=\"30\" y=\""@ + r.desc_y@ + "\" class=\"label-topology\">"@ + r.topology@ + " ["@ + r.quant@ + "]</text>\n      <rect x=\"320\" y=\""@ + r.rect_ttft_y@ + "\" width=\""@ + r.ttft_w@ + "\" height=\"14\" rx=\"3\" fill=\"#7fb8a6\" />\n      <rect x=\"320\" y=\""@ + r.rect_itl_y@ + "\" width=\""@ + r.itl_w@ + "\" height=\"14\" rx=\"3\" fill=\"#6ba4d9\" />\n      <text x=\""@ + r.ttft_val_x@ + "\" y=\""@ + r.y_ttft_text@ + "\" class=\"label-stat\">TTFT "@ + r.ttft@ + "ms</text>\n      <text x=\""@ + r.itl_val_x@ + "\" y=\""@ + r.y_itl_text@ + "\" class=\"label-stat\">ITL "@ + r.itl@ + "ms</text>\n      <text x=\"820\" y=\""@ + r.y@ + "\" class=\"badge-footprint\">KV: "@ + r.kv@ + " GB</text>\n      <text x=\"960\" y=\""@ + r.y@ + "\" class=\"badge-status\">"@ + r.status@, "</text>\n    </g>"@, "\n    <g class=\"model-row\">\n      <text x=\"30\" y=\""@ + r.y@ + "\" class=\"label-model\">"@ + r.name@ + "</text>\n      <text x=\"30\" y=\""@);
    }
    assert(contains_seq(multi_model_row_text(r), "</text>\n      <text x=\"30\" y=\""@ + r.desc_y@ + "\" class=\"label-topology\">"@ + r.topology@ + " ["@ + r.quant@ + "]</text>\n      <rect x=\"320\" y=\""@)) by {
        lemma_concat_associative(("\n    <g class=\"model-row\">\n      <text x=\"30\" y=\""@ + r.y@ + "\" class=\"label-model\">"@ + r.name@), "</text>\n      <text x=\"30\" y=\""@, r.desc_y@);
        assert(("\n    <g class=\"model-row\">\n      <text x=\"30\" y=\""@ + r.y@ + "\" class=\"label-model\">"@ + r.name@) + ("</text>\n      <text x=\"30\" y=\""@ + r.desc_y@) == "\n    <g class=\"model-row\">\n      <text x=\"30\" y=\""@ + r.y@ + "\" class=\"label-model\">"@ + r.name@ + "</text>\n      <text x=\"30\" y=\""@ + r.desc_y@);
        lemma_concat_associative(("\n    <g class=\"model-row\">\n      <text x=\"30\" y=\""@ + r.y@ + "\" class=\"label-model\">"@ + r.name@), "</text>\n      <text x=\"30\" y=\""@ + r.desc_y@, "\" class=\"label-topology\">"@);
        assert(("\n    <g class=\"model-row\">\n      <text x=\"30\" y=\""@ + r.y@ + "\" class=\"label-model\">"@ + r.name@) + ("</text>\n      <text x=\"30\" y=\""@ + r.desc_y@ + "\" class=\"label-topology\">"@) == "\n    <g class=\"model-row\">\n      <text x=\"30\" y=\""@ + r.y@ + "\" class=\"label-model\">"@ + r.name@ + "</text>\n      <text x=\"30\" y=\""@ + r.desc_y@ + "\" class=\"label-topology\">"@);
        lemma_concat_associative(("\n    <g class=\"model-row\">\n      <text x=\"30\" y=\""@ + r.y@ + "\" class=\"label-model\">"@ + r.name@), "</text>\n      <text x=\"30\" y=\""@ + r.desc_y@ + "\" class=\"label-topology\">"@, r.topology@);
        assert(("\n    <g class=\"model-row\">\n      <text x=\"30\" y=\""@ + r.y@ + "\" class=\"label-model\">"@ + r.name@) + ("</text>\n      <text x=\"30\" y=\""@ + r.desc_y@ + "\" class=\"label-topology\">"@ + r.topology@) == "\n    <g class=\"model-row\">\n      <text x=\"30\" y=\""@ + r.y@ + "\" class=\"label-model\">"@ + r.name@ + "</text>\n      <text x=\"30\" y=\""@ + r.desc_y@ + "\" class=\"label-topology\">"@ + r.topology@);
        lemma_concat_associative(("\n    <g class=\"model-row\">\n      <text x=\"30\" y=\""@ + r.y@ + "\" class=\"label-model\">"@ + r.name@), "</text>\n      <text x=\"30\" y=\""@ + r.desc_y@ + "\" class=\"label-topology\">"@ + r.topology@, " ["@);
        assert(("\n    <g class=\"model-row\">\n      <text x=\"30\" y=\""@ + r.y@ + "\" class=\"label-model\">"@ + r.name@) + ("</text>\n      <text x=\"30\" y=\""@ + r.desc_y@ + "\" class=\"label-topology\">"@ + r.topology@ + " ["@) == "\n    <g class=\"model-row\">\n      <text x=\"30\" y=\""@ + r.y@ + "\" class=\"label-model\">"@ + r.name@ + "</text>\n      <text x=\"30\" y=\""@ + r.desc_y@ + "\" class=\"label-topology\">"@ + r.topology@ + " ["@);
        lemma_concat_associative(("\n    <g class=\"model-row\">\n      <text x=\"30\" y=\""@ + r.y@ + "\" class=\"label-model\">"@ + r.name@), "</text>\n      <text x=\"30\" y=\""@ + r.desc_y@ + "\" class=\"label-topology\">"@ + r.topology@ + " ["@, r.quant@);
        assert(("\n    <g class=\"model-row\">\n      <text x=\"30\" y=\""@ + r.y@ + "\" class=\"label-model\">"@ + r.name@) + ("</text>\n      <text x=\"30\" y=\""@ + r.desc_y@ + "\" class=\"label-topology\">"@ + r.topology@ + " ["@ + r.quant@) == "\n    <g class=\"model-row\">\n      <text x=\"30\" y=\""@ + r.y@ + "\" class=\"label-model\">"@ + r.name@ + "</text>\n      <text x=\"30\" y=\""@ + r.desc_y@ + "\" class=\"label-topology\">"@ + r.topology@ + " ["@ + r.quant@);
        lemma_concat_associative(("\n    <g class=\"model-row\">\n      <text x=\"30\" y=\""@ + r.y@ + "\" class=\"label-model\">"@ + r.name@), "</text>\n      <text x=\"30\" y=\""@ + r.desc_y@ + "\" class=\"label-topology\">"@ + r.topology@ + " ["@ + r.quant@, "]</text>\n      <rect x=\"320\" y=\""@);
        assert(("\n    <g class=\"model-row\">\n      <text x=\"30\" y=\""@ + r.y@ + "\" class=\"label-model\">"@ + r.name@) + ("</text>\n      <text x=\"30\" y=\""@ + r.desc_y@ + "\" class=\"label-topology\">"@ + r.topology@ + " ["@ + r.quant@ + "]</text>\n      <rect x=\"320\" y=\""@) == "\n    <g class=\"model-row\">\n      <text x=\"30\" y=\""@ + r.y@ + "\" class=\"label-model\">"@ + r.name@ + "</text>\n      <text x=\"30\" y=\""@ + r.desc_y@ + "\" class=\"label-topology\">"@ + r.topology@ + " ["@ + r.quant@ + "]</text>\n      <rect x=\"320\" y=\""@);
        lemma_contains_tail(("\n    <g class=\"model-row\">\n      <text x=\"30\" y=\""@ + r.y@ + "\" class=\"label-model\">"@ + r.name@), "</text>\n      <text x=\"30\" y=\""@ + r.desc_y@ + "\" class=\"label-topology\">"@ + r.topology@ + " ["@ + r.quant@ + "]</text>\n      <rect x=\"320\" y=\""@);
        lemma_contains_extend("\n    <g class=\"model-row\">\n      <text x=\"30\" y=\""@ + r.y@ + "\" class=\"label-model\">"@ + r.name@ + "</text>\n      <text x=\"30\" y=\""@ + r.desc_y@ + "\" class=\"label-topology\">"@ + r.topology@ + " ["@ + r.quant@ + "]</text>\n      <rect x=\"320\" y=\""@, r.rect_ttft_y@, "</text>\n      <text x=\"30\" y=\""@ + r.desc_y@ + "\" class=\"label-topology\">"@ + r.topology@ + " ["@ + r.quant@ + "]</text>\n      <rect x=\"320\" y=\""@);
        lemma_contains_extend("\n    <g class=\"model-row\">\n      <text x=\"30\" y=\""@ + r.y@ + "\" class=\"label-model\">"@ + r.name@ + "</text>\n      <text x=\"30\" y=\""@ + r.desc_y@ + "\" class=\"label-topology\">"@ + r.topology@ + " ["@ + r.quant@ + "]</text>\n      <rect x=\"320\" y=\""@ + r.rect_ttft_y@, "\" width=\""@, "</text>\n      <text x=\"30\" y=\""@ + r.desc_y@ + "\" class=\"label-topology\">"@ + r.topology@ + " ["@ + r.quant@ + "]</text>\n      <rect x=\"320\" y=\""@);
        lemma_contains_extend("\n    <g class=\"model-row\">\n      <text x=\"30\" y=\""@ + r.y@ + "\" class=\"label-model\">"@ + r.name@ + "</text>\n      <text x=\"30\" y=\""@ + r.desc_y@ + "\" class=\"label-topology\">"@ + r.topology@ + " ["@ + r.quant@ + "]</text>\n      <rect x=\"320\" y=\""@ + r.rect_ttft_y@ + "\" width=\""@, r.ttft_w@, "</text>\n      <text x=\"30\" y=\""@ + r.desc_y@ + "\" class=\"label-topology\">"@ + r.topology@ + " ["@ + r.quant@ + "]</text>\n      <rect x=\"320\" y=\""@);
        lemma_contains_extend("\n    <g class=\"model-row\">\n      <text x=\"30\" y=\""@ + r.y@ + "\" class=\"label-model\">"@ + r.name@ + "</text>\n      <text x=\"30\" y=\""@ + r.desc_y@ + "\" class=\"label-topology\">"@ + r.topology@ + " ["@ + r.quant@ + "]</text>\n      <rect x=\"320\" y=\""@ + r.rect_ttft_y@ + "\" width=\""@ + r.ttft_w@, "\" height=\"14\" rx=\"3\" fill=\"#7fb8a6\" />\n      <rect x=\"320\" y=\""@, "</text>\n      <text x=\"30\" y=\""@ + r.desc_y@ + "\" class=\"label-topology\">"@ + r.topology@ + " ["@ + r.quant@ + "]</text>\n      <rect x=\"320\" y=\""@);
        lemma_contains_extend("\n    <g class=\"model-row\">\n      <text x=\"30\" y=\""@ + r.y@ + "\" class=\"label-model\">"@ + r.name@ + "</text>\n      <text x=\"30\" y=\""@ + r.desc_y@ + "\" class=\"label-topology\">"@ + r.topology@ + " ["@ + r.quant@ + "]</text>\n      <rect x=\"320\" y=\""@ + r.rect_ttft_y@ + "\" width=\""@ + r.ttft_w@ + "\" height=\"14\" rx=\"3\" fill=\"#7fb8a6\" />\n      <rect x=\"320\" y=\""@, r.rect_itl_y@, "</text>\n      <text x=\"30\" y=\""@ + r.desc_y@ + "\" class=\"label-topology\">"@ + r.topology@ + " ["@ + r.quant@ + "]</text>\n      <rect x=\"320\" y=\""@);
        lemma_contains_extend("\n    <g class=\"model-row\">\n      <text x=\"30\" y=\""@ + r.y@ + "\" class=\"label-model\">"@ + r.name@ + "</text>\n      <text x=\"30\" y=\""@ + r.desc_y@ + "\" class=\"label-topology\">"@ + r.topology@ + " ["@ + r.quant@ + "]</text>\n      <rect x=\"320\" y=\""@ + r.rect_ttft_y@ + "\" width=\""@ + r.ttft_w@ + "\" height=\"14\" rx=\"3\" fill=\"#7fb8a6\" />\n      <rect x=\"320\" y=\""@ + r.rect_itl_y@, "\" width=\""@, "</text>\n      <text x=\"30\" y=\""@ + r.desc_y@ + "\" class=\"label-topology\">"@ + r.topology@ + " ["@ + r.quant@ + "]</text>\n      <rect x=\"320\" y=\""@);
        lemma_contains_extend("\n    <g class=\"model-row\">\n      <text x=\"30\" y=\""@ + r.y@ + "\" class=\"label-model\">"@ + r.name@ + "</text>\n      <text x=\"30\" y=\""@ + r.desc_y@ + "\" class=\"label-topology\">"@ + r.topology@ + " ["@ + r.quant@ + "]</text>\n      <rect x=\"320\" y=\""@ + r.rect_ttft_y@ + "\" width=\""@ + r.ttft_w@ + "\" height=\"14\" rx=\"3\" fill=\"#7fb8a6\" />\n      <rect x=\"320\" y=\""@ + r.rect_itl_y@ + "\" width=\""@, r.itl_w@, "</text>\n      <text x=\"30\" y=\""@ + r.desc_y@ + "\" class=\"label-topology\">"@ + r.topology@ + " ["@ + r.quant@ + "]</text>\n      <rect x=\"320\" y=\""@);
        lemma_contains_extend("\n    <g class=\"model-row\">\n      <text x=\"30\" y=\""@ + r.y@ + "\" class=\"label-model\">"@ + r.name@ + "</text>\n      <text x=\"30\" y=\""@ + r.desc_y@ + "\" class=\"label-topology\">"@ + r.topology@ + " ["@ + r.quant@ + "]</text>\n      <rect x=\"320\" y=\""@ + r.rect_ttft_y@ + "\" width=\""@ + r.ttft_w@ + "\" height=\"14\" rx=\"3\" fill=\"#7fb8a6\" />\n      <rect x=\"320\" y=\""@ + r.rect_itl_y@ + "\" width=\""@ + r.itl_w@, "\" height=\"14\" rx=\"3\" fill=\"#6ba4d9\" />\n      <text x=\""@, "</text>\n      <text x=\"30\" y=\""@ + r.desc_y@ + "\" class=\"label-topology\">"@ + r.topology@ + " ["@ + r.quant@ + "]</text>\n      <rect x=\"320\" y=\""@);
        lemma_contains_extend("\n    <g class=\"model-row\">\n      <text x=\"30\" y=\""@ + r.y@ + "\" class=\"label-model\">"@ + r.name@ + "</text>\n      <text x=\"30\" y=\""@ + r.desc_y@ + "\" class=\"label-topology\">"@ + r.topology@ + " ["@ + r.quant@ + "]</text>\n      <rect x=\"320\" y=\""@ + r.rect_ttft_y@ + "\" width=\""@ + r.ttft_w@ + "\" height=\"14\" rx=\"3\" fill=\"#7fb8a6\" />\n      <rect x=\"320\" y=\""@ + r.rect_itl_y@ + "\" width=\""@ + r.itl_w@ + "\" height=\"14\" rx=\"3\" fill=\"#6ba4d9\" />\n      <text x=\""@, r.ttft_val_x@, "</text>\n      <text x=\"30\" y=\""@ + r.desc_y@ + "\" class=\"label-topology\">"@ + r.topology@ + " ["@ + r.quant@ + "]</text>\n      <rect x=\"320\" y=\""@);
        lemma_contains_extend("\n    <g class=\"model-row\">\n      <text x=\"30\" y=\""@ + r.y@ + "\" class=\"label-model\">"@ + r.name@ + "</text>\n      <text x=\"30\" y=\""@ + r.desc_y@ + "\" class=\"label-topology\">"@ + r.topology@ + " ["@ + r.quant@ + "]</text>\n      <rect x=\"320\" y=\""@ + r.rect_ttft_y@ + "\" width=\""@ + r.ttft_w@ + "\" height=\"14\" rx=\"3\" fill=\"#7fb8a6\" />\n      <rect x=\"320\" y=\""@ + r.rect_itl_y@ + "\" width=\""@ + r.itl_w@ + "\" height=\"14\" rx=\"3\" fill=\"#6ba4d9\" />\n      <text x=\""@ + r.ttft_val_x@, "\" y=\""@, "</text>\n      <text x=\"30\" y=\""@ + r.desc_y@ + "\" class=\"label-topology\">"@ + r.topology@ + " ["@ + r.quant@ + "]</text>\n      <rect x=\"320\" y=\""@);
        lemma_contains_extend("\n    <g class=\"model-row\">\n      <text x=\"30\" y=\""@ + r.y@ + "\" class=\"label-model\">"@ + r.name@ + "</text>\n      <text x=\"30\" y=\""@ + r.desc_y@ + "\" class=\"label-topology\">"@ + r.topology@ + " ["@ + r.quant@ + "]</text>\n      <rect x=\"320\" y=\""@ + r.rect_ttft_y@ + "\" width=\""@ + r.ttft_w@ + "\" height=\"14\" rx=\"3\" fill=\"#7fb8a6\" />\n      <rect x=\"320\" y=\""@ + r.rect_itl_y@ + "\" width=\""@ + r.itl_w@ + "\" height=\"14\" rx=\"3\" fill=\"#6ba4d9\" />\n      <text x=\""@ + r.ttft_val_x@ + "\" y=\""@, r.y_ttft_text@, "</text>\n      <text x=\"30\" y=\""@ + r.desc_y@ + "\" class=\"label-topology\">"@ + r.topology@ + " ["@ + r.quant@ + "]</text>\n      <rect x=\"320\" y=\""@);
        lemma_contains_extend("\n    <g class=\"model-row\">\n      <text x=\"30\" y=\""@ + r.y@ + "\" class=\"label-model\">"@ + r.name@ + "</text>\n      <text x=\"30\" y=\""@ + r.desc_y@ + "\" class=\"label-topology\">"@ + r.topology@ + " ["@ + r.quant@ + "]</text>\n      <rect x=\"320\" y=\""@ + r.rect_ttft_y@ + "\" width=\""@ + r.ttft_w@ + "\" height=\"14\" rx=\"3\" fill=\"#7fb8a6\" />\n      <rect x=\"320\" y=\""@ + r.rect_itl_y@ + "\" width=\""@ + r.itl_w@ + "\" height=\"14\" rx=\"3\" fill=\"#6ba4d9\" />\n      <text x=\""@ + r.ttft_val_x@ + "\" y=\""@ + r.y_ttft_text@, "\" class=\"label-stat\">TTFT "@, "</text>\n      <text x=\"30\" y=\""@ + r.desc_y@ + "\" class=\"label-topology\">"@ + r.topology@ + " ["@ + r.quant@ + "]</text>\n      <rect x=\"320\" y=\""@);
        lemma_contains_extend("\n    <g class=\"model-row\">\n      <text x=\"30\" y=\""@ + r.y@ + "\" class=\"label-model\">"@ + r.name@ + "</text>\n      <text x=\"30\" y=\""@ + r.desc_y@ + "\" class=\"label-topology\">"@ + r.topology@ + " ["@ + r.quant@ + "]</text>\n      <rect x=\"320\" y=\""@ + r.rect_ttft_y@ + "\" width=\""@ + r.ttft_w@ + "\" height=\"14\" rx=\"3\" fill=\"#7fb8a6\" />\n      <rect x=\"320\" y=\""@ + r.rect_itl_y@ + "\" width=\""@ + r.itl_w@ + "\" height=\"14\" rx=\"3\" fill=\"#6ba4d9\" />\n      <text x=\""@ + r.ttft_val_x@ + "\" y=\""@ + r.y_ttft_text@ + "\" class=\"label-stat\">TTFT "@, r.ttft@, "</text>\n      <text x=\"30\" y=\""@ + r.desc_y@ + "\" class=\"label-topology\">"@ + r.topology@ + " ["@ + r.quant@ + "]</text>\n      <rect x=\"320\" y=\""@);
        lemma_contains_extend("\n    <g class=\"model-row\">\n      <text x=\"30\" y=\""@ + r.y@ + "\" class=\"label-model\">"@ + r.name@ + "</text>\n      <text x=\"30\" y=\""@ + r.desc_y@ + "\" class=\"label-topology\">"@ + r.topology@ + " ["@ + r.quant@ + "]</text>\n      <rect x=\"320\" y=\""@ + r.rect_ttft_y@ + "\" width=\""@ + r.ttft_w@ + "\" height=\"14\" rx=\"3\" fill=\"#7fb8a6\" />\n      <rect x=\"320\" y=\""@ + r.rect_itl_y@ + "\" width=\""@ + r.itl_w@ + "\" height=\"14\" rx=\"3\" fill=\"#6ba4d9\" />\n      <text x=\""@ + r.ttft_val_x@ + "\" y=\""@ + r.y_ttft_text@ + "\" class=\"label-stat\">TTFT "@ + r.ttft@, "ms</text>\n      <text x=\""@, "</text>\n      <text x=\"30\" y=\""@ + r.desc_y@ + "\" class=\"label-topology\">"@ + r.topology@ + " ["@ + r.quant@ + "]</text>\n      <rect x=\"320\" y=\""@);
        lemma_contains_extend("\n    <g class=\"model-row\">\n      <text x=\"30\" y=\""@ + r.y@ + "\" class=\"label-model\">"@ + r.name@ + "</text>\n      <text x=\"30\" y=\""@ + r.desc_y@ + "\" class=\"label-topology\">"@ + r.topology@ + " ["@ + r.quant@ + "]</text>\n      <rect x=\"320\" y=\""@ + r.rect_ttft_y@ + "\" width=\""@ + r.ttft_w@ + "\" height=\"14\" rx=\"3\" fill=\"#7fb8a6\" />\n      <rect x=\"320\" y=\""@ + r.rect_itl_y@ + "\" width=\""@ + r.itl_w@ + "\" height=\"14\" rx=\"3\" fill=\"#6ba4d9\" />\n      <text x=\""@ + r.ttft_val_x@ + "\" y=\""@ + r.y_ttft_text@ + "\" class=\"label-stat\">TTFT "@ + r.ttft@ + "ms</text>\n      <text x=\""@, r.itl_val_x@, "</text>\n      <text x=\"30\" y=\""@ + r.desc_y@ + "\" class=\"label-topology\">"@ + r.topology@ + " ["@ + r.quant@ + "]</text>\n      <rect x=\"320\" y=\""@);
        lemma_contains_extend("\n    <g class=\"model-row\">\n      <text x=\"30\" y=\""@ + r.y@ + "\" class=\"label-model\">"@ + r.name@ + "</text>\n      <text x=\"30\" y=\""@ + r.desc_y@ + "\" class=\"label-topology\">"@ + r.topology@ + " ["@ + r.quant@ + "]</text>\n      <rect x=\"320\" y=\""@ + r.rect_ttft_y@ + "\" width=\""@ + r.ttft_w@ + "\" height=\"14\" rx=\"3\" fill=\"#7fb8a6\" />\n      <rect x=\"320\" y=\""@ + r.rect_itl_y@ + "\" width=\""@ + r.itl_w@ + "\" height=\"14\" rx=\"3\" fill=\"#6ba4d9\" />\n      <text x=\""@ + r.ttft_val_x@ + "\" y=\""@ + r.y_ttft_text@ + "\" class=\"label-stat\">TTFT "@ + r.ttft@ + "ms</text>\n      <text x=\""@ + r.itl_val_x@, "\" y=\""@, "</text>\n      <text x=\"30\" y=\""@ + r.desc_y@ + "\" class=\"label-topology\">"@ + r.topology@ + " ["@ + r.quant@ + "]</text>\n      <rect x=\"320\" y=\""@);
        lemma_contains_extend("\n    <g class=\"model-row\">\n      <text x=\"30\" y=\""@ + r.y@ + "\" class=\"label-model\">"@ + r.name@ + "</text>\n      <text x=\"30\" y=\""@ + r.desc_y@ + "\" class=\"label-topology\">"@ + r.topology@ + " ["@ + r.quant@ + "]</text>\n      <rect x=\"320\" y=\""@ + r.rect_ttft_y@ + "\" width=\""@ + r.ttft_w@ + "\" height=\"14\" rx=\"3\" fill=\"#7fb8a6\" />\n      <rect x=\"320\" y=\""@ + r.rect_itl_y@ + "\" width=\""@ + r.itl_w@ + "\" height=\"14\" rx=\"3\" fill=\"#6ba4d9\" />\n      <text x=\""@ + r.ttft_val_x@ + "\" y=\""@ + r.y_ttft_text@ + "\" class=\"label-stat\">TTFT "@ + r.ttft@ + "ms</text>\n      <text x=\""@ + r.itl_val_x@ + "\" y=\""@, r.y_itl_text@, "</text>\n      <text x=\"30\" y=\""@ + r.desc_y@ + "\" class=\"label-topology\">"@ + r.topology@ + " ["@ + r.quant@ + "]</text>\n      <rect x=\"320\" y=\""@);
        lemma_contains_extend("\n    <g class=\"model-row\">\n      <text x=\"30\" y=\""@ + r.y@ + "\" class=\"label-model\">"@ + r.name@ + "</text>\n      <text x=\"30\" y=\""@ + r.desc_y@ + "\" class=\"label-topology\">"@ + r.topology@ + " ["@ + r.quant@ + "]</text>\n      <rect x=\"320\" y=\""@ + r.rect_ttft_y@ + "\" width=\""@ + r.ttft_w@ + "\" height=\"14\" rx=\"3\" fill=\"#7fb8a6\" />\n      <rect x=\"320\" y=\""@ + r.rect_itl_y@ + "\" width=\""@ + r.itl_w@ + "\" height=\"14\" rx=\"3\" fill=\"#6ba4d9\" />\n      <text x=\""@ + r.ttft_val_x@ + "\" y=\""@ + r.y_ttft_text@ + "\" class=\"label-stat\">TTFT "@ + r.ttft@ + "ms</text>\n      <text x=\""@ + r.itl_val_x@ + "\" y=\""@ + r.y_itl_text@, "\" class=\"label-stat\">ITL "@, "</text>\n      <text x=\"30\" y=\""@ + r.desc_y@ + "\" class=\"label-topology\">"@ + r.topology@ + " ["@ + r.quant@ + "]</text>\n      <rect x=\"320\" y=\""@);
        lemma_contains_extend("\n    <g class=\"model-row\">\n      <text x=\"30\" y=\""@ + r.y@ + "\" class=\"label-model\">"@ + r.name@ + "</text>\n      <text x=\"30\" y=\""@ + r.desc_y@ + "\" class=\"label-topology\">"@ + r.topology@ + " ["@ + r.quant@ + "]</text>\n      <rect x=\"320\" y=\""@ + r.rect_ttft_y@ + "\" width=\""@ + r.ttft_w@ + "\" height=\"14\" rx=\"3\" fill=\"#7fb8a6\" />\n      <rect x=\"320\" y=\""@ + r.rect_itl_y@ + "\" width=\""@ + r.itl_w@ + "\" height=\"14\" rx=\"3\" fill=\"#6ba4d9\" />\n      <text x=\""@ + r.ttft_val_x@ + "\" y=\""@ + r.y_ttft_text@ + "\" class=\"label-stat\">TTFT "@ + r.ttft@ + "ms</text>\n      <text x=\""@ + r.itl_val_x@ + "\" y=\""@ + r.y_itl_text@ + "\" class=\"label-stat\">ITL "@, r.itl@, "</text>\n      <text x=\"30\" y=\""@ + r.desc_y@ + "\" class=\"label-topology\">"@ + r.topology@ + " ["@ + r.quant@ + "]</text>\n      <rect x=\"320\" y=\""@);
        lemma_contains_extend("\n    <g class=\"model-row\">\n      <text x=\"30\" y=\""@ + r.y@ + "\" class=\"label-model\">"@ + r.name@ + "</text>\n      <text x=\"30\" y=\""@ + r.desc_y@ + "\" class=\"label-topology\">"@ + r.topology@ + " ["@ + r.quant@ + "]</text>\n      <rect x=\"320\" y=\""@ + r.rect_ttft_y@ + "\" width=\""@ + r.ttft_w@ + "\" height=\"14\" rx=\"3\" fill=\"#7fb8a6\" />\n      <rect x=\"320\" y=\""@ + r.rect_itl_y@ + "\" width=\""@ + r.itl_w@ + "\" height=\"14\" rx=\"3\" fill=\"#6ba4d9\" />\n      <text x=\""@ + r.ttft_val_x@ + "\" y=\""@ + r.y_ttft_text@ + "\" class=\"label-stat\">TTFT "@ + r.ttft@ + "ms</text>\n      <text x=\""@ + r.itl_val_x@ + "\" y=\""@ + r.y_itl_text@ + "\" class=\"label-stat\">ITL "@ + r.itl@, "ms</text>\n      <text x=\"820\" y=\""@, "</text>\n      <text x=\"30\" y=\""@ + r.desc_y@ + "\" class=\"label-topology\">"@ + r.topology@ + " ["@ + r.quant@ + "]</text>\n      <rect x=\"320\" y=\""@);
        lemma_contains_extend("\n    <g class=\"model-row\">\n      <text x=\"30\" y=\""@ + r.y@ + "\" class=\"label-model\">"@ + r.name@ + "</text>\n      <text x=\"30\" y=\""@ + r.desc_y@ + "\" class=\"label-topology\">"@ + r.topology@ + " ["@ + r.quant@ + "]</text>\n      <rect x=\"320\" y=\""@ + r.rect_ttft_y@ + "\" width=\""@ + r.ttft_w@ + "\" height=\"14\" rx=\"3\" fill=\"#7fb8a6\" />\n      <rect x=\"320\" y=\""@ + r.rect_itl_y@ + "\" width=\""@ + r.itl_w@ + "\" height=\"14\" rx=\"3\" fill=\"#6ba4d9\" />\n      <text x=\""@ + r.ttft_val_x@ + "\" y=\""@ + r.y_ttft_text@ + "\" class=\"label-stat\">TTFT "@ + r.ttft@ + "ms</text>\n      <text x=\""@ + r.itl_val_x@ + "\" y=\""@ + r.y_itl_text@ + "\" class=\"label-stat\">ITL "@ + r.itl@ + "ms</text>\n      <text x=\"820\" y=\""@, r.y@, "</text>\n      <text x=\"30\" y=\""@ + r.desc_y@ + "\" class=\"label-topology\">"@ + r.topology@ + " ["@ + r.quant@ + "]</text>\n      <rect x=\"320\" y=\""@);
        lemma_contains_extend("\n    <g class=\"model-row\">\n      <text x=\"30\" y=\""@ + r.y@ + "\" class=\"label-model\">"@ + r.name@ + "</text>\n      <text x=\"30\" y=\""@ + r.desc_y@ + "\" class=\"label-topology\">"@ + r.topology@ + " ["@ + r.quant@ + "]</text>\n      <rect x=\"320\" y=\""@ + r.rect_ttft_y@ + "\" width=\""@ + r.ttft_w@ + "\" height=\"14\" rx=\"3\" fill=\"#7fb8a6\" />\n      <rect x=\"320\" y=\""@ + r.rect_itl_y@ + "\" width=\""@ + r.itl_w@ + "\" height=\"14\" rx=\"3\" fill=\"#6ba4d9\" />\n      <text x=\""@ + r.ttft_val_x@ + "\" y=\""@ + r.y_ttft_text@ + "\" class=\"label-stat\">TTFT "@ + r.ttft@ + "ms</text>\n      <text x=\""@ + r.itl_val_x@ + "\" y=\""@ + r.y_itl_text@ + "\" class=\"label-stat\">ITL "@ + r.itl@ + "ms</text>\n      <text x=\"820\" y=\""@ + r.y@, "\" class=\"badge-footprint\">KV: "@, "</text>\n      <text x=\"30\" y=\""@ + r.desc_y@ + "\" class=\"label-topology\">"@ + r.topology@ + " ["@ + r.quant@ + "]</text>\n      <rect x=\"320\" y=\""@);
        lemma_contains_extend("\n    <g class=\"model-row\">\n      <text x=\"30\" y=\""@ + r.y@ + "\" class=\"label-model\">"@ + r.name@ + "</text>\n      <text x=\"30\" y=\""@ + r.desc_y@ + "\" class=\"label-topology\">"@ + r.topology@ + " ["@ + r.quant@ + "]</text>\n      <rect x=\"320\" y=\""@ + r.rect_ttft_y@ + "\" width=\""@ + r.ttft_w@ + "\" height=\"14\" rx=\"3\" fill=\"#7fb8a6\" />\n      <rect x=\"320\" y=\""@ + r.rect_itl_y@ + "\" width=\""@ + r.itl_w@ + "\" height=\"14\" rx=\"3\" fill=\"#6ba4d9\" />\n      <text x=\""@ + r.ttft_val_x@ + "\" y=\""@ + r.y_ttft_text@ + "\" class=\"label-stat\">TTFT "@ + r.ttft@ + "ms</text>\n      <text x=\""@ + r.itl_val_x@ + "\" y=\""@ + r.y_itl_text@ + "\" class=\"label-stat\">ITL "@ + r.itl@ + "ms</text>\n      <text x=\"820\" y=\""@ + r.y@ + "\" class=\"badge-footprint\">KV: "@, r.kv@, "</text>\n      <text x=\"30\" y=\""@ + r.desc_y@ + "\" class=\"label-topology\">"@ + r.topology@ + " ["@ + r.quant@ + "]</text>\n      <rect x=\"320\" y=\""@);
        lemma_contains_extend("\n    <g class=\"model-row\">\n      <text x=\"30\" y=\""@ + r.y@ + "\" class=\"label-model\">"@ + r.name@ + "</text>\n      <text x=\"30\" y=\""@ + r.desc_y@ + "\" class=\"label-topology\">"@ + r.topology@ + " ["@ + r.quant@ + "]</text>\n      <rect x=\"320\" y=\""@ + r.rect_ttft_y@ + "\" width=\""@ + r.ttft_w@ + "\" height=\"14\" rx=\"3\" fill=\"#7fb8a6\" />\n      <rect x=\"320\" y=\""@ + r.rect_itl_y@ + "\" width=\""@ + r.itl_w@ + "\" height=\"14\" rx=\"3\" fill=\"#6ba4d9\" />\n      <text x=\""@ + r.ttft_val_x@ + "\" y=\""@ + r.y_ttft_text@ + "\" class=\"label-stat\">TTFT "@ + r.ttft@ + "ms</text>\n      <text x=\""@ + r.itl_val_x@ + "\" y=\""@ + r.y_itl_text@ + "\" class=\"label-stat\">ITL "@ + r.itl@ + "ms</text>\n      <text x=\"820\" y=\""@ + r.y@ + "\" class=\"badge-footprint\">KV: "@ + r.kv@, " GB</text>\n      <text x=\"960\" y=\""@, "</text>\n      <text x=\"30\" y=\""@ + r.desc_y@ + "\" class=\"label-topology\">"@ + r.topology@ + " ["@ + r.quant@ + "]</text>\n      <rect x=\"320\" y=\""@);
        lemma_contains_extend("\n    <g class=\"model-row\">\n      <text x=\"30\" y=\""@ + r.y@ + "\" class=\"label-model\">"@ + r.name@ + "</text>\n      <text x=\"30\" y=\""@ + r.desc_y@ + "\" class=\"label-topology\">"@ + r.topology@ + " ["@ + r.quant@ + "]</text>\n      <rect x=\"320\" y=\""@ + r.rect_ttft_y@ + "\" width=\""@ + r.ttft_w@ + "\" height=\"14\" rx=\"3\" fill=\"#7fb8a6\" />\n      <rect x=\"320\" y=\""@ + r.rect_itl_y@ + "\" width=\""@ + r.itl_w@ + "\" height=\"14\" rx=\"3\" fill=\"#6ba4d9\" />\n      <text x=\""@ + r.ttft_val_x@ + "\" y=\""@ + r.y_ttft_text@ + "\" class=\"label-stat\">TTFT "@ + r.ttft@ + "ms</text>\n      <text x=\""@ + r.itl_val_x@ + "\" y=\""@ + r.y_itl_text@ + "\" class=\"label-stat\">ITL "@ + r.itl@ + "ms</text>\n      <text x=\"820\" y=\""@ + r.y@ + "\" class=\"badge-footprint\">KV: "@ + r.kv@ + " GB</text>\n      <text x=\"960\" y=\""@, r.y@, "</text>\n      <text x=\"30\" y=\""@ + r.desc_y@ + "\" class=\"label-topology\">"@ + r.topology@ + " ["@ + r.quant@ + "]</text>\n      <rect x=\"320\" y=\""@);
        lemma_contains_extend("\n    <g class=\"model-row\">\n      <text x=\"30\" y=\""@ + r.y@ + "\" class=\"label-model\">"@ + r.name@ + "</text>\n      <text x=\"30\" y=\""@ + r.desc_y@ + "\" class=\"label-topology\">"@ + r.topology@ + " ["@ + r.quant@ + "]</text>\n      <rect x=\"320\" y=\""@ + r.rect_ttft_y@ + "\" width=\""@ + r.ttft_w@ + "\" height=\"14\" rx=\"3\" fill=\"#7fb8a6\" />\n      <rect x=\"320\" y=\""@ + r.rect_itl_y@ + "\" width=\""@ + r.itl_w@ + "\" height=\"14\" rx=\"3\" fill=\"#6ba4d9\" />\n      <text x=\""@ + r.ttft_val_x@ + "\" y=\""@ + r.y_ttft_text@ + "\" class=\"label-stat\">TTFT "@ + r.ttft@ + "ms</text>\n      <text x=\""@ + r.itl_val_x@ + "\" y=\""@ + r.y_itl_text@ + "\" class=\"label-stat\">ITL "@ + r.itl@ + "ms</text>\n      <text x=\"820\" y=\""@ + r.y@ + "\" class=\"badge-footprint\">KV: "@ + r.kv@ + " GB</text>\n      <text x=\"960\" y=\""@ + r.y@, "\" class=\"badge-status\">"@, "</text>\n      <text x=\"30\" y=\""@ + r.desc_y@ + "\" class=\"label-topology\">"@ + r.topology@ + " ["@ + r.quant@ + "]</text>\n      <rect x=\"320\" y=\""@);
        lemma_contains_extend("\n    <g class=\"model-row\">\n      <text x=\"30\" y=\""@ + r.y@ + "\" class=\"label-model\">"@ + r.name@ + "</text>\n      <text x=\"30\" y=\""@ + r.desc_y@ + "\" class=\"label-topology\">"@ + r.topology@ + " ["@ + r.quant@ + "]</text>\n      <rect x=\"320\" y=\""@ + r.rect_ttft_y@ + "\" width=\""@ + r.ttft_w@ + "\" height=\"14\" rx=\"3\" fill=\"#7fb8a6\" />\n      <rect x=\"320\" y=\""@ + r.rect_itl_y@ + "\" width=\""@ + r.itl_w@ + "\" height=\"14\" rx=\"3\" fill=\"#6ba4d9\" />\n      <text x=\""@ + r.ttft_val_x@ + "\" y=\""@ + r.y_ttft_text@ + "\" class=\"label-stat\">TTFT "@ + r.ttft@ + "ms</text>\n      <text x=\""@ + r.itl_val_x@ + "\" y=\""@ + r.y_itl_text@ + "\" class=\"label-stat\">ITL "@ + r.itl@ + "ms</text>\n      <text x=\"820\" y=\""@ + r.y@ + "\" class=\"badge-footprint\">KV: "@ + r.kv@ + " GB</text>\n      <text x=\"960\" y=\""@ + r.y@ + "\" class=\"badge-status\">"@, r.status@, "</text>\n      <text x=\"30\" y=\""@ + r.desc_y@ + "\" class=\"label-topology\">"@ + r.topology@ + " ["@ + r.quant@ + "]</text>\n      <rect x=\"320\" y=\""@);
        lemma_contains_extend("\n    <g class=\"model-row\">\n      <text x=\"30\" y=\""@ + r.y@ + "\" class=\"label-model\">"@ + r.name@ + "</text>\n      <text x=\"30\" y=\""@ + r.desc_y@ + "\" class=\"label-topology\">"@ + r.topology@ + " ["@ + r.quant@ + "]</text>\n      <rect x=\"320\" y=\""@ + r.rect_ttft_y@ + "\" width=\""@ + r.ttft_w@ + "\" height=\"14\" rx=\"3\" fill=\"#7fb8a6\" />\n      <rect x=\"320\" y=\""@ + r.rect_itl_y@ + "\" width=\""@ + r.itl_w@ + "\" height=\"14\" rx=\"3\" fill=\"#6ba4d9\" />\n      <text x=\""@ + r.ttft_val_x@ + "\" y=\""@ + r.y_ttft_text@ + "\" class=\"label-stat\">TTFT "@ + r.ttft@ + "ms</text>\n      <text x=\""@ + r.itl_val_x@ + "\" y=\""@ + r.y_itl_text@ + "\" class=\"label-stat\">ITL "@ + r.itl@ + "ms</text>\n      <text x=\"820\" y=\""@ + r.y@ + "\" class=\"badge-footprint\">KV: "@ + r.kv@ + " GB</text>\n      <text x=\"960\" y=\""@ + r.y@ + "\" class=\"badge-status\">"@ + r.status@, "</text>\n    </g>"@, "</text>\n      <text x=\"30\" y=\""@ + r.desc_y@ + "\" class=\"label-topology\">"@ + r.topology@ + " ["@ + r.quant@ + "]</text>\n      <rect x=\"320\" y=\""@);
    }
    assert(contains_seq(multi_model_row_text(r), "]</text>\n      <rect x=\"320\" y=\""@ + r.rect_ttft_y@ + "\" width=\""@ + r.ttft_w@ + "\" height=\"14\" rx=\"3\" fill=\"#7fb8a6\" />\n      <rect x=\"320\" y=\""@)) by {
        lemma_concat_associative(("\n    <g class=\"model-row\">\n      <text x=\"30\" y=\""@ + r.y@ + "\" class=\"label-model\">"@ + r.name@ + "</text>\n      <text x=\"30\" y=\""@ + r.desc_y@ + "\" class=\"label-topology\">"@ + r.topology@ + " ["@ + r.quant@), "]</text>\n      <rect x=\"320\" y=\""@, r.rect_ttft_y@);
        assert(("\n    <g class=\"model-row\">\n      <text x=\"30\" y=\""@ + r.y@ + "\" class=\"label-model\">"@ + r.name@ + "</text>\n      <text x=\"30\" y=\""@ + r.desc_y@ + "\" class=\"label-topology\">"@ + r.topology@ + " ["@ + r.quant@) + ("]</text>\n      <rect x=\"320\" y=\""@ + r.rect_ttft_y@) == "\n    <g class=\"model-row\">\n      <text x=\"30\" y=\""@ + r.y@ + "\" class=\"label-model\">"@ + r.name@ + "</text>\n      <text x=\"30\" y=\""@ + r.desc_y@ + "\" class=\"label-topology\">"@ + r.topology@ + " ["@ + r.quant@ + "]</text>\n      <rect x=\"320\" y=\""@ + r.rect_ttft_y@);
        lemma_concat_associative(("\n    <g class=\"model-row\">\n      <text x=\"30\" y=\""@ + r.y@ + "\" class=\"label-model\">"@ + r.name@ + "</text>\n      <text x=\"30\" y=\""@ + r.desc_y@ + "\" class=\"label-topology\">"@ + r.topology@ + " ["@ + r.quant@), "]</text>\n      <rect x=\"320\" y=\""@ + r.rect_ttft_y@, "\" width=\""@);
        assert(("\n    <g class=\"model-row\">\n      <text x=\"30\" y=\""@ + r.y@ + "\" class=\"label-model\">"@ + r.name@ + "</text>\n      <text x=\"30\" y=\""@ + r.desc_y@ + "\" class=\"label-topology\">"@ + r.topology@ + " ["@ + r.quant@) + ("]</text>\n      <rect x=\"320\" y=\""@ + r.rect_ttft_y@ + "\" width=\""@) == "\n    <g class=\"model-row\">\n      <text x=\"30\" y=\""@ + r.y@ + "\" class=\"label-model\">"@ + r.name@ + "</text>\n      <text x=\"30\" y=\""@ + r.desc_y@ + "\" class=\"label-topology\">"@ + r.topology@ + " ["@ + r.quant@ + "]</text>\n      <rect x=\"320\" y=\""@ + r.rect_ttft_y@ + "\" width=\""@);
        lemma_concat_associative(("\n    <g class=\"model-row\">\n      <text x=\"30\" y=\""@ + r.y@ + "\" class=\"label-model\">"@ + r.name@ + "</text>\n      <text x=\"30\" y=\""@ + r.desc_y@ + "\" class=\"label-topology\">"@ + r.topology@ + " ["@ + r.quant@), "]</text>\n      <rect x=\"320\" y=\""@ + r.rect_ttft_y@ + "\" width=\""@, r.ttft_w@);
        assert(("\n    <g class=\"model-row\">\n      <text x=\"30\" y=\""@ + r.y@ + "\" class=\"label-model\">"@ + r.name@ + "</text>\n      <text x=\"30\" y=\""@ + r.desc_y@ + "\" class=\"label-topology\">"@ + r.topology@ + " ["@ + r.quant@) + ("]</text>\n      <rect x=\"320\" y=\""@ + r.rect_ttft_y@ + "\" width=\""@ + r.ttft_w@) == "\n    <g class=\"model-row\">\n      <text x=\"30\" y=\""@ + r.y@ + "\" class=\"label-model\">"@ + r.name@ + "</text>\n      <text x=\"30\" y=\""@ + r.desc_y@ + "\" class=\"label-topology\">"@ + r.topology@ + " ["@ + r.quant@ + "]</text>\n      <rect x=\"320\" y=\""@ + r.rect_ttft_y@ + "\" width=\""@ + r.ttft_w@);
        lemma_concat_associative(("\n    <g class=\"model-row\">\n      <text x=\"30\" y=\""@ + r.y@ + "\" class=\"label-model\">"@ + r.name@ + "</text>\n      <text x=\"30\" y=\""@ + r.desc_y@ + "\" class=\"label-topology\">"@ + r.topology@ + " ["@ + r.quant@), "]</text>\n      <rect x=\"320\" y=\""@ + r.rect_ttft_y@ + "\" width=\""@ + r.ttft_w@, "\" height=\"14\" rx=\"3\" fill=\"#7fb8a6\" />\n      <rect x=\"320\" y=\""@);
        assert(("\n    <g class=\"model-row\">\n      <text x=\"30\" y=\""@ + r.y@ + "\" class=\"label-model\">"@ + r.name@ + "</text>\n      <text x=\"30\" y=\""@ + r.desc_y@ + "\" class=\"label-topology\">"@ + r.topology@ + " ["@ + r.quant@) + ("]</text>\n      <rect x=\"320\" y=\""@ + r.rect_ttft_y@ + "\" width=\""@ + r.ttft_w@ + "\" height=\"14\" rx=\"3\" fill=\"#7fb8a6\" />\n      <rect x=\"320\" y=\""@) == "\n    <g class=\"model-row\">\n      <text x=\"30\" y=\""@ + r.y@ + "\" class=\"label-model\">"@ + r.name@ + "</text>\n      <text x=\"30\" y=\""@ + r.desc_y@ + "\" class=\"label-topology\">"@ + r.topology@ + " ["@ + r.quant@ + "]</text>\n      <rect x=\"320\" y=\""@ + r.rect_ttft_y@ + "\" width=\""@ + r.ttft_w@ + "\" height=\"14\" rx=\"3\" fill=\"#7fb8a6\" />\n      <rect x=\"320\" y=\""@);
        lemma_contains_tail(("\n    <g class=\"model-row\">\n      <text x=\"30\" y=\""@ + r.y@ + "\" class=\"label-model\">"@ + r.name@ + "</text>\n      <text x=\"30\" y=\""@ + r.desc_y@ + "\" class=\"label-topology\">"@ + r.topology@ + " ["@ + r.quant@), "]</text>\n      <rect x=\"320\" y=\""@ + r.rect_ttft_y@ + "\" width=\""@ + r.ttft_w@ + "\" height=\"14\" rx=\"3\" fill=\"#7fb8a6\" />\n      <rect x=\"320\" y=\""@);
        lemma_contains_extend("\n    <g class=\"model-row\">\n      <text x=\"30\" y=\""@ + r.y@ + "\" class=\"label-model\">"@ + r.name@ + "</text>\n      <text x=\"30\" y=\""@ + r.desc_y@ + "\" class=\"label-topology\">"@ + r.topology@ + " ["@ + r.quant@ + "]</text>\n      <rect x=\"320\" y=\""@ + r.rect_ttft_y@ + "\" width=\""@ + r.ttft_w@ + "\" height=\"14\" rx=\"3\" fill=\"#7fb8a6\" />\n      <rect x=\"320\" y=\""@, r.rect_itl_y@, "]</text>\n      <rect x=\"320\" y=\""@ + r.rect_ttft_y@ + "\" width=\""@ + r.ttft_w@ + "\" height=\"14\" rx=\"3\" fill=\"#7fb8a6\" />\n      <rect x=\"320\" y=\""@);
        lemma_contains_extend("\n    <g class=\"model-row\">\n      <text x=\"30\" y=\""@ + r.y@ + "\" class=\"label-model\">"@ + r.name@ + "</text>\n      <text x=\"30\" y=\""@ + r.desc_y@ + "\" class=\"label-topology\">"@ + r.topology@ + " ["@ + r.quant@ + "]</text>\n      <rect x=\"320\" y=\""@ + r.rect_ttft_y@ + "\" width=\""@ + r.ttft_w@ + "\" height=\"14\" rx=\"3\" fill=\"#7fb8a6\" />\n      <rect x=\"320\" y=\""@ + r.rect_itl_y@, "\" width=\""@, "]</text>\n      <rect x=\"320\" y=\""@ + r.rect_ttft_y@ + "\" width=\""@ + r.ttft_w@ + "\" height=\"14\" rx=\"3\" fill=\"#7fb8a6\" />\n      <rect x=\"320\" y=\""@);
        lemma_contains_extend("\n    <g class=\"model-row\">\n      <text x=\"30\" y=\""@ + r.y@ + "\" class=\"label-model\">"@ + r.name@ + "</text>\n      <text x=\"30\" y=\""@ + r.desc_y@ + "\" class=\"label-topology\">"@ + r.topology@ + " ["@ + r.quant@ + "]</text>\n      <rect x=\"320\" y=\""@ + r.rect_ttft_y@ + "\" width=\""@ + r.ttft_w@ + "\" height=\"14\" rx=\"3\" fill=\"#7fb8a6\" />\n      <rect x=\"320\" y=\""@ + r.rect_itl_y@ + "\" width=\""@, r.itl_w@, "]</text>\n      <rect x=\"320\" y=\""@ + r.rect_ttft_y@ + "\" width=\""@ + r.ttft_w@ + "\" height=\"14\" rx=\"3\" fill=\"#7fb8a6\" />\n      <rect x=\"320\" y=\""@);
        lemma_contains_extend("\n    <g class=\"model-row\">\n      <text x=\"30\" y=\""@ + r.y@ + "\" class=\"label-model\">"@ + r.name@ + "</text>\n      <text x=\"30\" y=\""@ + r.desc_y@ + "\" class=\"label-topology\">"@ + r.topology@ + " ["@ + r.quant@ + "]</text>\n      <rect x=\"320\" y=\""@ + r.rect_ttft_y@ + "\" width=\""@ + r.ttft_w@ + "\" height=\"14\" rx=\"3\" fill=\"#7fb8a6\" />\n      <rect x=\"320\" y=\""@ + r.rect_itl_y@ + "\" width=\""@ + r.itl_w@, "\" height=\"14\" rx=\"3\" fill=\"#6ba4d9\" />\n      <text x=\""@, "]</text>\n      <rect x=\"320\" y=\""@ + r.rect_ttft_y@ + "\" width=\""@ + r.ttft_w@ + "\" height=\"14\" rx=\"3\" fill=\"#7fb8a6\" />\n      <rect x=\"320\" y=\""@);
        lemma_contains_extend("\n    <g class=\"model-row\">\n      <text x=\"30\" y=\""@ + r.y@ + "\" class=\"label-model\">"@ + r.name@ + "</text>\n      <text x=\"30\" y=\""@ + r.desc_y@ + "\" class=\"label-topology\">"@ + r.topology@ + " ["@ + r.quant@ + "]</text>\n      <rect x=\"320\" y=\""@ + r.rect_ttft_y@ + "\" width=\""@ + r.ttft_w@ + "\" height=\"14\" rx=\"3\" fill=\"#7fb8a6\" />\n      <rect x=\"320\" y=\""@ + r.rect_itl_y@ + "\" width=\""@ + r.itl_w@ + "\" height=\"14\" rx=\"3\" fill=\"#6ba4d9\" />\n      <text x=\""@, r.ttft_val_x@, "]</text>\n      <rect x=\"320\" y=\""@ + r.rect_ttft_y@ + "\" width=\""@ + r.ttft_w@ + "\" height=\"14\" rx=\"3\" fill=\"#7fb8a6\" />\n      <rect x=\"320\" y=\""@);
        lemma_contains_extend("\n    <g class=\"model-row\">\n      <text x=\"30\" y=\""@ + r.y@ + "\" class=\"label-model\">"@ + r.name@ + "</text>\n      <text x=\"30\" y=\""@ + r.desc_y@ + "\" class=\"label-topology\">"@ + r.topology@ + " ["@ + r.quant@ + "]</text>\n      <rect x=\"320\" y=\""@ + r.rect_ttft_y@ + "\" width=\""@ + r.ttft_w@ + "\" height=\"14\" rx=\"3\" fill=\"#7fb8a6\" />\n      <rect x=\"320\" y=\""@ + r.rect_itl_y@ + "\" width=\""@ + r.itl_w@ + "\" height=\"14\" rx=\"3\" fill=\"#6ba4d9\" />\n      <text x=\""@ + r.ttft_val_x@, "\" y=\""@, "]</text>\n      <rect x=\"320\" y=\""@ + r.rect_ttft_y@ + "\" width=\""@ + r.ttft_w@ + "\" height=\"14\" rx=\"3\" fill=\"#7fb8a6\" />\n      <rect x=\"320\" y=\""@);
        lemma_contains_extend("\n    <g class=\"model-row\">\n      <text x=\"30\" y=\""@ + r.y@ + "\" class=\"label-model\">"@ + r.name@ + "</text>\n      <text x=\"30\" y=\""@ + r.desc_y@ + "\" class=\"label-topology\">"@ + r.topology@ + " ["@ + r.quant@ + "]</text>\n      <rect x=\"320\" y=\""@ + r.rect_ttft_y@ + "\" width=\""@ + r.ttft_w@ + "\" height=\"14\" rx=\"3\" fill=\"#7fb8a6\" />\n      <rect x=\"320\" y=\""@ + r.rect_itl_y@ + "\" width=\""@ + r.itl_w@ + "\" height=\"14\" rx=\"3\" fill=\"#6ba4d9\" />\n      <text x=\""@ + r.ttft_val_x@ + "\" y=\""@, r.y_ttft_text@, "]</text>\n      <rect x=\"320\" y=\""@ + r.rect_ttft_y@ + "\" width=\""@ + r.ttft_w@ + "\" height=\"14\" rx=\"3\" fill=\"#7fb8a6\" />\n      <rect x=\"320\" y=\""@);
        lemma_contains_extend("\n    <g class=\"model-row\">\n      <text x=\"30\" y=\""@ + r.y@ + "\" class=\"label-model\">"@ + r.name@ + "</text>\n      <text x=\"30\" y=\""@ + r.desc_y@ + "\" class=\"label-topology\">"@ + r.topology@ + " ["@ + r.quant@ + "]</text>\n      <rect x=\"320\" y=\""@ + r.rect_ttft_y@ + "\" width=\""@ + r.ttft_w@ + "\" height=\"14\" rx=\"3\" fill=\"#7fb8a6\" />\n      <rect x=\"320\" y=\""@ + r.rect_itl_y@ + "\" width=\""@ + r.itl_w@ + "\" height=\"14\" rx=\"3\" fill=\"#6ba4d9\" />\n      <text x=\""@ + r.ttft_val_x@ + "\" y=\""@ + r.y_ttft_text@, "\" class=\"label-stat\">TTFT "@, "]</text>\n      <rect x=\"320\" y=\""@ + r.rect_ttft_y@ + "\" width=\""@ + r.ttft_w@ + "\" height=\"14\" rx=\"3\" fill=\"#7fb8a6\" />\n      <rect x=\"320\" y=\""@);
        lemma_contains_extend("\n    <g class=\"model-row\">\n      <text x=\"30\" y=\""@ + r.y@ + "\" class=\"label-model\">"@ + r.name@ + "</text>\n      <text x=\"30\" y=\""@ + r.desc_y@ + "\" class=\"label-topology\">"@ + r.topology@ + " ["@ + r.quant@ + "]</text>\n      <rect x=\"320\" y=\""@ + r.rect_ttft_y@ + "\" width=\""@ + r.ttft_w@ + "\" height=\"14\" rx=\"3\" fill=\"#7fb8a6\" />\n      <rect x=\"320\" y=\""@ + r.rect_itl_y@ + "\" width=\""@ + r.itl_w@ + "\" height=\"14\" rx=\"3\" fill=\"#6ba4d9\" />\n      <text x=\""@ + r.ttft_val_x@ + "\" y=\""@ + r.y_ttft_text@ + "\" class=\"label-stat\">TTFT "@, r.ttft@, "]</text>\n      <rect x=\"320\" y=\""@ + r.rect_ttft_y@ + "\" width=\""@ + r.ttft_w@ + "\" height=\"14\" rx=\"3\" fill=\"#7fb8a6\" />\n      <rect x=\"320\" y=\""@);
        lemma_contains_extend("\n    <g class=\"model-row\">\n      <text x=\"30\" y=\""@ + r.y@ + "\" class=\"label-model\">"@ + r.name@ + "</text>\n      <text x=\"30\" y=\""@ + r.desc_y@ + "\" class=\"label-topology\">"@ + r.topology@ + " ["@ + r.quant@ + "]</text>\n      <rect x=\"320\" y=\""@ + r.rect_ttft_y@ + "\" width=\""@ + r.ttft_w@ + "\" height=\"14\" rx=\"3\" fill=\"#7fb8a6\" />\n      <rect x=\"320\" y=\""@ + r.rect_itl_y@ + "\" width=\""@ + r.itl_w@ + "\" height=\"14\" rx=\"3\" fill=\"#6ba4d9\" />\n      <text x=\""@ + r.ttft_val_x@ + "\" y=\""@ + r.y_ttft_text@ + "\" class=\"label-stat\">TTFT "@ + r.ttft@, "ms</text>\n      <text x=\""@, "]</text>\n      <rect x=\"320\" y=\""@ + r.rect_ttft_y@ + "\" width=\""@ + r.ttft_w@ + "\" height=\"14\" rx=\"3\" fill=\"#7fb8a6\" />\n      <rect x=\"320\" y=\""@);
        lemma_contains_extend("\n    <g class=\"model-row\">\n      <text x=\"30\" y=\""@ + r.y@ + "\" class=\"label-model\">"@ + r.name@ + "</text>\n      <text x=\"30\" y=\""@ + r.desc_y@ + "\" class=\"label-topology\">"@ + r.topology@ + " ["@ + r.quant@ + "]</text>\n      <rect x=\"320\" y=\""@ + r.rect_ttft_y@ + "\" width=\""@ + r.ttft_w@ + "\" height=\"14\" rx=\"3\" fill=\"#7fb8a6\" />\n      <rect x=\"320\" y=\""@ + r.rect_itl_y@ + "\" width=\""@ + r.itl_w@ + "\" height=\"14\" rx=\"3\" fill=\"#6ba4d9\" />\n      <text x=\""@ + r.ttft_val_x@ + "\" y=\""@ + r.y_ttft_text@ + "\" class=\"label-stat\">TTFT "@ + r.ttft@ + "ms</text>\n      <text x=\""@, r.itl_val_x@, "]</text>\n      <rect x=\"320\" y=\""@ + r.rect_ttft_y@ + "\" width=\""@ + r.ttft_w@ + "\" height=\"14\" rx=\"3\" fill=\"#7fb8a6\" />\n      <rect x=\"320\" y=\""@);
        lemma_contains_extend("\n    <g class=\"model-row\">\n      <text x=\"30\" y=\""@ + r.y@ + "\" class=\"label-model\">"@ + r.name@ + "</text>\n      <text x=\"30\" y=\""@ + r.desc_y@ + "\" class=\"label-topology\">"@ + r.topology@ + " ["@ + r.quant@ + "]</text>\n      <rect x=\"320\" y=\""@ + r.rect_ttft_y@ + "\" width=\""@ + r.ttft_w@ + "\" height=\"14\" rx=\"3\" fill=\"#7fb8a6\" />\n      <rect x=\"320\" y=\""@ + r.rect_itl_y@ + "\" width=\""@ + r.itl_w@ + "\" height=\"14\" rx=\"3\" fill=\"#6ba4d9\" />\n      <text x=\""@ + r.ttft_val_x@ + "\" y=\""@ + r.y_ttft_text@ + "\" class=\"label-stat\">TTFT "@ + r.ttft@ + "ms</text>\n      <text x=\""@ + r.itl_val_x@, "\" y=\""@, "]</text>\n      <rect x=\"320\" y=\""@ + r.rect_ttft_y@ + "\" width=\""@ + r.ttft_w@ + "\" height=\"14\" rx=\"3\" fill=\"#7fb8a6\" />\n      <rect x=\"320\" y=\""@);
        lemma_contains_extend("\n    <g class=\"model-row\">\n      <text x=\"30\" y=\""@ + r.y@ + "\" class=\"label-model\">"@ + r.name@ + "</text>\n      <text x=\"30\" y=\""@ + r.desc_y@ + "\" class=\"label-topology\">"@ + r.topology@ + " ["@ + r.quant@ + "]</text>\n      <rect x=\"320\" y=\""@ + r.rect_ttft_y@ + "\" width=\""@ + r.ttft_w@ + "\" height=\"14\" rx=\"3\" fill=\"#7fb8a6\" />\n      <rect x=\"320\" y=\""@ + r.rect_itl_y@ + "\" width=\""@ + r.itl_w@ + "\" height=\"14\" rx=\"3\" fill=\"#6ba4d9\" />\n      <text x=\""@ + r.ttft_val_x@ + "\" y=\""@ + r.y_ttft_text@ + "\" class=\"label-stat\">TTFT "@ + r.ttft@ + "ms</text>\n      <text x=\""@ + r.itl_val_x@ + "\" y=\""@, r.y_itl_text@, "]</text>\n      <rect x=\"320\" y=\""@ + r.rect_ttft_y@ + "\" width=\""@ + r.ttft_w@ + "\" height=\"14\" rx=\"3\" fill=\"#7fb8a6\" />\n      <rect x=\"320\" y=\""@);
        lemma_contains_extend("\n    <g class=\"model-row\">\n      <text x=\"30\" y=\""@ + r.y@ + "\" class=\"label-model\">"@ + r.name@ + "</text>\n      <text x=\"30\" y=\""@ + r.desc_y@ + "\" class=\"label-topology\">"@ + r.topology@ + " ["@ + r.quant@ + "]</text>\n      <rect x=\"320\" y=\""@ + r.rect_ttft_y@ + "\" width=\""@ + r.ttft_w@ + "\" height=\"14\" rx=\"3\" fill=\"#7fb8a6\" />\n      <rect x=\"320\" y=\""@ + r.rect_itl_y@ + "\" width=\""@ + r.itl_w@ + "\" height=\"14\" rx=\"3\" fill=\"#6ba4d9\" />\n      <text x=\""@ + r.ttft_val_x@ + "\" y=\""@ + r.y_ttft_text@ + "\" class=\"label-stat\">TTFT "@ + r.ttft@ + "ms</text>\n      <text x=\""@ + r.itl_val_x@ + "\" y=\""@ + r.y_itl_text@, "\" class=\"label-stat\">ITL "@, "]</text>\n      <rect x=\"320\" y=\""@ + r.rect_ttft_y@ + "\" width=\""@ + r.ttft_w@ + "\" height=\"14\" rx=\"3\" fill=\"#7fb8a6\" />\n      <rect x=\"320\" y=\""@);
        lemma_contains_extend("\n    <g class=\"model-row\">\n      <text x=\"30\" y=\""@ + r.y@ + "\" class=\"label-model\">"@ + r.name@ + "</text>\n      <text x=\"30\" y=\""@ + r.desc_y@ + "\" class=\"label-topology\">"@ + r.topology@ + " ["@ + r.quant@ + "]</text>\n      <rect x=\"320\" y=\""@ + r.rect_ttft_y@ + "\" width=\""@ + r.ttft_w@ + "\" height=\"14\" rx=\"3\" fill=\"#7fb8a6\" />\n      <rect x=\"320\" y=\""@ + r.rect_itl_y@ + "\" width=\""@ + r.itl_w@ + "\" height=\"14\" rx=\"3\" fill=\"#6ba4d9\" />\n      <text x=\""@ + r.ttft_val_x@ + "\" y=\""@ + r.y_ttft_text@ + "\" class=\"label-stat\">TTFT "@ + r.ttft@ + "ms</text>\n      <text x=\""@ + r.itl_val_x@ + "\" y=\""@ + r.y_itl_text@ + "\" class=\"label-stat\">ITL "@, r.itl@, "]</text>\n      <rect x=\"320\" y=\""@ + r.rect_ttft_y@ + "\" width=\""@ + r.ttft_w@ + "\" height=\"14\" rx=\"3\" fill=\"#7fb8a6\" />\n      <rect x=\"320\" y=\""@);
        lemma_contains_extend("\n    <g class=\"model-row\">\n      <text x=\"30\" y=\""@ + r.y@ + "\" class=\"label-model\">"@ + r.name@ + "</text>\n      <text x=\"30\" y=\""@ + r.desc_y@ + "\" class=\"label-topology\">"@ + r.topology@ + " ["@ + r.quant@ + "]</text>\n      <rect x=\"320\" y=\""@ + r.rect_ttft_y@ + "\" width=\""@ + r.ttft_w@ + "\" height=\"14\" rx=\"3\" fill=\"#7fb8a6\" />\n      <rect x=\"320\" y=\""@ + r.rect_itl_y@ + "\" width=\""@ + r.itl_w@ + "\" height=\"14\" rx=\"3\" fill=\"#6ba4d9\" />\n      <text x=\""@ + r.ttft_val_x@ + "\" y=\""@ + r.y_ttft_text@ + "\" class=\"label-stat\">TTFT "@ + r.ttft@ + "ms</text>\n      <text x=\""@ + r.itl_val_x@ + "\" y=\""@ + r.y_itl_text@ + "\" class=\"label-stat\">ITL "@ + r.itl@, "ms</text>\n      <text x=\"820\" y=\""@, "]</text>\n      <rect x=\"320\" y=\""@ + r.rect_ttft_y@ + "\" width=\""@ + r.ttft_w@ + "\" height=\"14\" rx=\"3\" fill=\"#7fb8a6\" />\n      <rect x=\"320\" y=\""@);
        lemma_contains_extend("\n    <g class=\"model-row\">\n      <text x=\"30\" y=\""@ + r.y@ + "\" class=\"label-model\">"@ + r.name@ + "</text>\n      <text x=\"30\" y=\""@ + r.desc_y@ + "\" class=\"label-topology\">"@ + r.topology@ + " ["@ + r.quant@ + "]</text>\n      <rect x=\"320\" y=\""@ + r.rect_ttft_y@ + "\" width=\""@ + r.ttft_w@ + "\" height=\"14\" rx=\"3\" fill=\"#7fb8a6\" />\n      <rect x=\"320\" y=\""@ + r.rect_itl_y@ + "\" width=\""@ + r.itl_w@ + "\" height=\"14\" rx=\"3\" fill=\"#6ba4d9\" />\n      <text x=\""@ + r.ttft_val_x@ + "\" y=\""@ + r.y_ttft_text@ + "\" class=\"label-stat\">TTFT "@ + r.ttft@ + "ms</text>\n      <text x=\""@ + r.itl_val_x@ + "\" y=\""@ + r.y_itl_text@ + "\" class=\"label-stat\">ITL "@ + r.itl@ + "ms</text>\n      <text x=\"820\" y=\""@, r.y@, "]</text>\n      <rect x=\"320\" y=\""@ + r.rect_ttft_y@ + "\" width=\""@ + r.ttft_w@ + "\" height=\"14\" rx=\"3\" fill=\"#7fb8a6\" />\n      <rect x=\"320\" y=\""@);
        lemma_contains_extend("\n    <g class=\"model-row\">\n      <text x=\"30\" y=\""@ + r.y@ + "\" class=\"label-model\">"@ + r.name@ + "</text>\n      <text x=\"30\" y=\""@ + r.desc_y@ + "\" class=\"label-topology\">"@ + r.topology@ + " ["@ + r.quant@ + "]</text>\n      <rect x=\"320\" y=\""@ + r.rect_ttft_y@ + "\" width=\""@ + r.ttft_w@ + "\" height=\"14\" rx=\"3\" fill=\"#7fb8a6\" />\n      <rect x=\"320\" y=\""@ + r.rect_itl_y@ + "\" width=\""@ + r.itl_w@ + "\" height=\"14\" rx=\"3\" fill=\"#6ba4d9\" />\n      <text x=\""@ + r.ttft_val_x@ + "\" y=\""@ + r.y_ttft_text@ + "\" class=\"label-stat\">TTFT "@ + r.ttft@ + "ms</text>\n      <text x=\""@ + r.itl_val_x@ + "\" y=\""@ + r.y_itl_text@ + "\" class=\"label-stat\">ITL "@ + r.itl@ + "ms</text>\n      <text x=\"820\" y=\""@ + r.y@, "\" class=\"badge-footprint\">KV: "@, "]</text>\n      <rect x=\"320\" y=\""@ + r.rect_ttft_y@ + "\" width=\""@ + r.ttft_w@ + "\" height=\"14\" rx=\"3\" fill=\"#7fb8a6\" />\n      <rect x=\"320\" y=\""@);
        lemma_contains_extend("\n    <g class=\"model-row\">\n      <text x=\"30\" y=\""@ + r.y@ + "\" class=\"label-model\">"@ + r.name@ + "</text>\n      <text x=\"30\" y=\""@ + r.desc_y@ + "\" class=\"label-topology\">"@ + r.topology@ + " ["@ + r.quant@ + "]</text>\n      <rect x=\"320\" y=\""@ + r.rect_ttft_y@ + "\" width=\""@ + r.ttft_w@ + "\" height=\"14\" rx=\"3\" fill=\"#7fb8a6\" />\n      <rect x=\"320\" y=\""@ + r.rect_itl_y@ + "\" width=\""@ + r.itl_w@ + "\" height=\"14\" rx=\"3\" fill=\"#6ba4d9\" />\n      <text x=\""@ + r.ttft_val_x@ + "\" y=\""@ + r.y_ttft_text@ + "\" class=\"label-stat\">TTFT "@ + r.ttft@ + "ms</text>\n      <text x=\""@ + r.itl_val_x@ + "\" y=\""@ + r.y_itl_text@ + "\" class=\"label-stat\">ITL "@ + r.itl@ + "ms</text>\n      <text x=\"820\" y=\""@ + r.y@ + "\" class=\"badge-footprint\">KV: "@, r.kv@, "]</text>\n      <rect x=\"320\" y=\""@ + r.rect_ttft_y@ + "\" width=\""@ + r.ttft_w@ + "\" height=\"14\" rx=\"3\" fill=\"#7fb8a6\" />\n      <rect x=\"320\" y=\""@);
        lemma_contains_extend("\n    <g class=\"model-row\">\n      <text x=\"30\" y=\""@ + r.y@ + "\" class=\"label-model\">"@ + r.name@ + "</text>\n      <text x=\"30\" y=\""@ + r.desc_y@ + "\" class=\"label-topology\">"@ + r.topology@ + " ["@ + r.quant@ + "]</text>\n      <rect x=\"320\" y=\""@ + r.rect_ttft_y@ + "\" width=\""@ + r.ttft_w@ + "\" height=\"14\" rx=\"3\" fill=\"#7fb8a6\" />\n      <rect x=\"320\" y=\""@ + r.rect_itl_y@ + "\" width=\""@ + r.itl_w@ + "\" height=\"14\" rx=\"3\" fill=\"#6ba4d9\" />\n      <text x=\""@ + r.ttft_val_x@ + "\" y=\""@ + r.y_ttft_text@ + "\" class=\"label-stat\">TTFT "@ + r.ttft@ + "ms</text>\n      <text x=\""@ + r.itl_val_x@ + "\" y=\""@ + r.y_itl_text@ + "\" class=\"label-stat\">ITL "@ + r.itl@ + "ms</text>\n      <text x=\"820\" y=\""@ + r.y@ + "\" class=\"badge-footprint\">KV: "@ + r.kv@, " GB</text>\n      <text x=\"960\" y=\""@, "]</text>\n      <rect x=\"320\" y=\""@ + r.rect_ttft_y@ + "\" width=\""@ + r.ttft_w@ + "\" height=\"14\" rx=\"3\" fill=\"#7fb8a6\" />\n      <rect x=\"320\" y=\""@);
        lemma_contains_extend("\n    <g class=\"model-row\">\n      <text x=\"30\" y=\""@ + r.y@ + "\" class=\"label-model\">"@ + r.name@ + "</text>\n      <text x=\"30\" y=\""@ + r.desc_y@ + "\" class=\"label-topology\">"@ + r.topology@ + " ["@ + r.quant@ + "]</text>\n      <rect x=\"320\" y=\""@ + r.rect_ttft_y@ + "\" width=\""@ + r.ttft_w@ + "\" height=\"14\" rx=\"3\" fill=\"#7fb8a6\" />\n      <rect x=\"320\" y=\""@ + r.rect_itl_y@ + "\" width=\""@ + r.itl_w@ + "\" height=\"14\" rx=\"3\" fill=\"#6ba4d9\" />\n      <text x=\""@ + r.ttft_val_x@ + "\" y=\""@ + r.y_ttft_text@ + "\" class=\"label-stat\">TTFT "@ + r.ttft@ + "ms</text>\n      <text x=\""@ + r.itl_val_x@ + "\" y=\""@ + r.y_itl_text@ + "\" class=\"label-stat\">ITL "@ + r.itl@ + "ms</text>\n      <text x=\"820\" y=\""@ + r.y@ + "\" class=\"badge-footprint\">KV: "@ + r.kv@ + " GB</text>\n      <text x=\"960\" y=\""@, r.y@, "]</text>\n      <rect x=\"320\" y=\""@ + r.rect_ttft_y@ + "\" width=\""@ + r.ttft_w@ + "\" height=\"14\" rx=\"3\" fill=\"#7fb8a6\" />\n      <rect x=\"320\" y=\""@);
        lemma_contains_extend("\n    <g class=\"model-row\">\n      <text x=\"30\" y=\""@ + r.y@ + "\" class=\"label-model\">"@ + r.name@ + "</text>\n      <text x=\"30\" y=\""@ + r.desc_y@ + "\" class=\"label-topology\">"@ + r.topology@ + " ["@ + r.quant@ + "]</text>\n      <rect x=\"320\" y=\""@ + r.rect_ttft_y@ + "\" width=\""@ + r.ttft_w@ + "\" height=\"14\" rx=\"3\" fill=\"#7fb8a6\" />\n      <rect x=\"320\" y=\""@ + r.rect_itl_y@ + "\" width=\""@ + r.itl_w@ + "\" height=\"14\" rx=\"3\" fill=\"#6ba4d9\" />\n      <text x=\""@ + r.ttft_val_x@ + "\" y=\""@ + r.y_ttft_text@ + "\" class=\"label-stat\">TTFT "@ + r.ttft@ + "ms</text>\n      <text x=\""@ + r.itl_val_x@ + "\" y=\""@ + r.y_itl_text@ + "\" class=\"label-stat\">ITL "@ + r.itl@ + "ms</text>\n      <text x=\"820\" y=\""@ + r.y@ + "\" class=\"badge-footprint\">KV: "@ + r.kv@ + " GB</text>\n      <text x=\"960\" y=\""@ + r.y@, "\" class=\"badge-status\">"@, "]</text>\n      <rect x=\"320\" y=\""@ + r.rect_ttft_y@ + "\" width=\""@ + r.ttft_w@ + "\" height=\"14\" rx=\"3\" fill=\"#7fb8a6\" />\n      <rect x=\"320\" y=\""@);
        lemma_contains_extend("\n    <g class=\"model-row\">\n      <text x=\"30\" y=\""@ + r.y@ + "\" class=\"label-model\">"@ + r.name@ + "</text>\n      <text x=\"30\" y=\""@ + r.desc_y@ + "\" class=\"label-topology\">"@ + r.topology@ + " ["@ + r.quant@ + "]</text>\n      <rect x=\"320\" y=\""@ + r.rect_ttft_y@ + "\" width=\""@ + r.ttft_w@ + "\" height=\"14\" rx=\"3\" fill=\"#7fb8a6\" />\n      <rect x=\"320\" y=\""@ + r.rect_itl_y@ + "\" width=\""@ + r.itl_w@ + "\" height=\"14\" rx=\"3\" fill=\"#6ba4d9\" />\n      <text x=\""@ + r.ttft_val_x@ + "\" y=\""@ + r.y_ttft_text@ + "\" class=\"label-stat\">TTFT "@ + r.ttft@ + "ms</text>\n      <text x=\""@ + r.itl_val_x@ + "\" y=\""@ + r.y_itl_text@ + "\" class=\"label-stat\">ITL "@ + r.itl@ + "ms</text>\n      <text x=\"820\" y=\""@ + r.y@ + "\" class=\"badge-footprint\">KV: "@ + r.kv@ + " GB</text>\n      <text x=\"960\" y=\""@ + r.y@ + "\" class=\"badge-status\">"@, r.status@, "]</text>\n      <rect x=\"320\" y=\""@ + r.rect_ttft_y@ + "\" width=\""@ + r.ttft_w@ + "\" height=\"14\" rx=\"3\" fill=\"#7fb8a6\" />\n      <rect x=\"320\" y=\""@);
        lemma_contains_extend("\n    <g class=\"model-row\">\n      <text x=\"30\" y=\""@ + r.y@ + "\" class=\"label-model\">"@ + r.name@ + "</text>\n      <text x=\"30\" y=\""@ + r.desc_y@ + "\" class=\"label-topology\">"@ + r.topology@ + " ["@ + r.quant@ + "]</text>\n      <rect x=\"320\" y=\""@ + r.rect_ttft_y@ + "\" width=\""@ + r.ttft_w@ + "\" height=\"14\" rx=\"3\" fill=\"#7fb8a6\" />\n      <rect x=\"320\" y=\""@ + r.rect_itl_y@ + "\" width=\""@ + r.itl_w@ + "\" height=\"14\" rx=\"3\" fill=\"#6ba4d9\" />\n      <text x=\""@ + r.ttft_val_x@ + "\" y=\""@ + r.y_ttft_text@ + "\" class=\"label-stat\">TTFT "@ + r.ttft@ + "ms</text>\n      <text x=\""@ + r.itl_val_x@ + "\" y=\""@ + r.y_itl_text@ + "\" class=\"label-stat\">ITL "@ + r.itl@ + "ms</text>\n      <text x=\"820\" y=\""@ + r.y@ + "\" class=\"badge-footprint\">KV: "@ + r.kv@ + " GB</text>\n      <text x=\"960\" y=\""@ + r.y@ + "\" class=\"badge-status\">"@ + r.status@, "</text>\n    </g>"@, "]</text>\n      <rect x=\"320\" y=\""@ + r.rect_ttft_y@ + "\" width=\""@ + r.ttft_w@ + "\" height=\"14\" rx=\"3\" fill=\"#7fb8a6\" />\n      <rect x=\"320\" y=\""@);
    }
    assert(contains_seq(multi_model_row_text(r), "\" height=\"14\" rx=\"3\" fill=\"#7fb8a6\" />\n      <rect x=\"320\" y=\""@ + r.rect_itl_y@ + "\" width=\""@ + r.itl_w@ + "\" height=\"14\" rx=\"3\" fill=\"#6ba4d9\" />\n      <text x=\""@)) by {
        lemma_concat_associative(("\n    <g class=\"model-row\">\n      <text x=\"30\" y=\""@ + r.y@ + "\" class=\"label-model\">"@ + r.name@ + "</text>\n      <text x=\"30\" y=\""@ + r.desc_y@ + "\" class=\"label-topology\">"@ + r.topology@ + " ["@ + r.quant@ + "]</text>\n      <rect x=\"320\" y=\""@ + r.rect_ttft_y@ + "\" width=\""@ + r.ttft_w@), "\" height=\"14\" rx=\"3\" fill=\"#7fb8a6\" />\n      <rect x=\"320\" y=\""@, r.rect_itl_y@);
        assert(("\n    <g class=\"model-row\">\n      <text x=\"30\" y=\""@ + r.y@ + "\" class=\"label-model\">"@ + r.name@ + "</text>\n      <text x=\"30\" y=\""@ + r.desc_y@ + "\" class=\"label-topology\">"@ + r.topology@ + " ["@ + r.quant@ + "]</text>\n      <rect x=\"320\" y=\""@ + r.rect_ttft_y@ + "\" width=\""@ + r.ttft_w@) + ("\" height=\"14\" rx=\"3\" fill=\"#7fb8a6\" />\n      <rect x=\"320\" y=\""@ + r.rect_itl_y@) == "\n    <g class=\"model-row\">\n      <text x=\"30\" y=\""@ + r.y@ + "\" class=\"label-model\">"@ + r.name@ + "</text>\n      <text x=\"30\" y=\""@ + r.desc_y@ + "\" class=\"label-topology\">"@ + r.topology@ + " ["@ + r.quant@ + "]</text>\n      <rect x=\"320\" y=\""@ + r.rect_ttft_y@ + "\" width=\""@ + r.ttft_w@ + "\" height=\"14\" rx=\"3\" fill=\"#7fb8a6\" />\n      <rect x=\"320\" y=\""@ + r.rect_itl_y@);
        lemma_concat_associative(("\n    <g class=\"model-row\">\n      <text x=\"30\" y=\""@ + r.y@ + "\" class=\"label-model\">"@ + r.name@ + "</text>\n      <text x=\"30\" y=\""@ + r.desc_y@ + "\" class=\"label-topology\">"@ + r.topology@ + " ["@ + r.quant@ + "]</text>\n      <rect x=\"320\" y=\""@ + r.rect_ttft_y@ + "\" width=\""@ + r.ttft_w@), "\" height=\"14\" rx=\"3\" fill=\"#7fb8a6\" />\n      <rect x=\"320\" y=\""@ + r.rect_itl_y@, "\" width=\""@);
        assert(("\n    <g class=\"model-row\">\n      <text x=\"30\" y=\""@ + r.y@ + "\" class=\"label-model\">"@ + r.name@ + "</text>\n      <text x=\"30\" y=\""@ + r.desc_y@ + "\" class=\"label-topology\">"@ + r.topology@ + " ["@ + r.quant@ + "]</text>\n      <rect x=\"320\" y=\""@ + r.rect_ttft_y@ + "\" width=\""@ + r.ttft_w@) + ("\" height=\"14\" rx=\"3\" fill=\"#7fb8a6\" />\n      <rect x=\"320\" y=\""@ + r.rect_itl_y@ + "\" width=\""@) == "\n    <g class=\"model-row\">\n      <text x=\"30\" y=\""@ + r.y@ + "\" class=\"label-model\">"@ + r.name@ + "</text>\n      <text x=\"30\" y=\""@ + r.desc_y@ + "\" class=\"label-topology\">"@ + r.topology@ + " ["@ + r.quant@ + "]</text>\n      <rect x=\"320\" y=\""@ + r.rect_ttft_y@ + "\" width=\""@ + r.ttft_w@ + "\" height=\"14\" rx=\"3\" fill=\"#7fb8a6\" />\n      <rect x=\"320\" y=\""@ + r.rect_itl_y@ + "\" width=\""@);
        lemma_concat_associative(("\n    <g class=\"model-row\">\n      <text x=\"30\" y=\""@ + r.y@ + "\" class=\"label-model\">"@ + r.name@ + "</text>\n      <text x=\"30\" y=\""@ + r.desc_y@ + "\" class=\"label-topology\">"@ + r.topology@ + " ["@ + r.quant@ + "]</text>\n      <rect x=\"320\" y=\""@ + r.rect_ttft_y@ + "\" width=\""@ + r.ttft_w@), "\" height=\"14\" rx=\"3\" fill=\"#7fb8a6\" />\n      <rect x=\"320\" y=\""@ + r.rect_itl_y@ + "\" width=\""@, r.itl_w@);
        assert(("\n    <g class=\"model-row\">\n      <text x=\"30\" y=\""@ + r.y@ + "\" class=\"label-model\">"@ + r.name@ + "</text>\n      <text x=\"30\" y=\""@ + r.desc_y@ + "\" class=\"label-topology\">"@ + r.topology@ + " ["@ + r.quant@ + "]</text>\n      <rect x=\"320\" y=\""@ + r.rect_ttft_y@ + "\" width=\""@ + r.ttft_w@) + ("\" height=\"14\" rx=\"3\" fill=\"#7fb8a6\" />\n      <rect x=\"320\" y=\""@ + r.rect_itl_y@ + "\" width=\""@ + r.itl_w@) == "\n    <g class=\"model-row\">\n      <text x=\"30\" y=\""@ + r.y@ + "\" class=\"label-model\">"@ + r.name@ + "</text>\n      <text x=\"30\" y=\""@ + r.desc_y@ + "\" class=\"label-topology\">"@ + r.topology@ + " ["@ + r.quant@ + "]</text>\n      <rect x=\"320\" y=\""@ + r.rect_ttft_y@ + "\" width=\""@ + r.ttft_w@ + "\" height=\"14\" rx=\"3\" fill=\"#7fb8a6\" />\n      <rect x=\"320\" y=\""@ + r.rect_itl_y@ + "\" width=\""@ + r.itl_w@);
        lemma_concat_associative(("\n    <g class=\"model-row\">\n      <text x=\"30\" y=\""@ + r.y@ + "\" class=\"label-model\">"@ + r.name@ + "</text>\n      <text x=\"30\" y=\""@ + r.desc_y@ + "\" class=\"label-topology\">"@ + r.topology@ + " ["@ + r.quant@ + "]</text>\n      <rect x=\"320\" y=\""@ + r.rect_ttft_y@ + "\" width=\""@ + r.ttft_w@), "\" height=\"14\" rx=\"3\" fill=\"#7fb8a6\" />\n      <rect x=\"320\" y=\""@ + r.rect_itl_y@ + "\" width=\""@ + r.itl_w@, "\" height=\"14\" rx=\"3\" fill=\"#6ba4d9\" />\n      <text x=\""@);
        assert(("\n    <g class=\"model-row\">\n      <text x=\"30\" y=\""@ + r.y@ + "\" class=\"label-model\">"@ + r.name@ + "</text>\n      <text x=\"30\" y=\""@ + r.desc_y@ + "\" class=\"label-topology\">"@ + r.topology@ + " ["@ + r.quant@ + "]</text>\n      <rect x=\"320\" y=\""@ + r.rect_ttft_y@ + "\" width=\""@ + r.ttft_w@) + ("\" height=\"14\" rx=\"3\" fill=\"#7fb8a6\" />\n      <rect x=\"320\" y=\""@ + r.rect_itl_y@ + "\" width=\""@ + r.itl_w@ + "\" height=\"14\" rx=\"3\" fill=\"#6ba4d9\" />\n      <text x=\""@) == "\n    <g class=\"model-row\">\n      <text x=\"30\" y=\""@ + r.y@ + "\" class=\"label-model\">"@ + r.name@ + "</text>\n      <text x=\"30\" y=\""@ + r.desc_y@ + "\" class=\"label-topology\">"@ + r.topology@ + " ["@ + r.quant@ + "]</text>\n      <rect x=\"320\" y=\""@ + r.rect_ttft_y@ + "\" width=\""@ + r.ttft_w@ + "\" height=\"14\" rx=\"3\" fill=\"#7fb8a6\" />\n      <rect x=\"320\" y=\""@ + r.rect_itl_y@ + "\" width=\""@ + r.itl_w@ + "\" height=\"14\" rx=\"3\" fill=\"#6ba4d9\" />\n      <text x=\""@);
        lemma_contains_tail(("\n    <g class=\"model-row\">\n      <text x=\"30\" y=\""@ + r.y@ + "\" class=\"label-model\">"@ + r.name@ + "</text>\n      <text x=\"30\" y=\""@ + r.desc_y@ + "\" class=\"label-topology\">"@ + r.topology@ + " ["@ + r.quant@ + "]</text>\n      <rect x=\"320\" y=\""@ + r.rect_ttft_y@ + "\" width=\""@ + r.ttft_w@), "\" height=\"14\" rx=\"3\" fill=\"#7fb8a6\" />\n      <rect x=\"320\" y=\""@ + r.rect_itl_y@ + "\" width=\""@ + r.itl_w@ + "\" height=\"14\" rx=\"3\" fill=\"#6ba4d9\" />\n      <text x=\""@);
        lemma_contains_extend("\n    <g class=\"model-row\">\n      <text x=\"30\" y=\""@ + r.y@ + "\" class=\"label-model\">"@ + r.name@ + "</text>\n      <text x=\"30\" y=\""@ + r.desc_y@ + "\" class=\"label-topology\">"@ + r.topology@ + " ["@ + r.quant@ + "]</text>\n      <rect x=\"320\" y=\""@ + r.rect_ttft_y@ + "\" width=\""@ + r.ttft_w@ + "\" height=\"14\" rx=\"3\" fill=\"#7fb8a6\" />\n      <rect x=\"320\" y=\""@ + r.rect_itl_y@ + "\" width=\""@ + r.itl_w@ + "\" height=\"14\" rx=\"3\" fill=\"#6ba4d9\" />\n      <text x=\""@, r.ttft_val_x@, "\" height=\"14\" rx=\"3\" fill=\"#7fb8a6\" />\n      <rect x=\"320\" y=\""@ + r.rect_itl_y@ + "\" width=\""@ + r.itl_w@ + "\" height=\"14\" rx=\"3\" fill=\"#6ba4d9\" />\n      <text x=\""@);
        lemma_contains_extend("\n    <g class=\"model-row\">\n      <text x=\"30\" y=\""@ + r.y@ + "\" class=\"label-model\">"@ + r.name@ + "</text>\n      <text x=\"30\" y=\""@ + r.desc_y@ + "\" class=\"label-topology\">"@ + r.topology@ + " ["@ + r.quant@ + "]</text>\n      <rect x=\"320\" y=\""@ + r.rect_ttft_y@ + "\" width=\""@ + r.ttft_w@ + "\" height=\"14\" rx=\"3\" fill=\"#7fb8a6\" />\n      <rect x=\"320\" y=\""@ + r.rect_itl_y@ + "\" width=\""@ + r.itl_w@ + "\" height=\"14\" rx=\"3\" fill=\"#6ba4d9\" />\n      <text x=\""@ + r.ttft_val_x@, "\" y=\""@, "\" height=\"14\" rx=\"3\" fill=\"#7fb8a6\" />\n      <rect x=\"320\" y=\""@ + r.rect_itl_y@ + "\" width=\""@ + r.itl_w@ + "\" height=\"14\" rx=\"3\" fill=\"#6ba4d9\" />\n      <text x=\""@);
        lemma_contains_extend("\n    <g class=\"model-row\">\n      <text x=\"30\" y=\""@ + r.y@ + "\" class=\"label-model\">"@ + r.name@ + "</text>\n      <text x=\"30\" y=\""@ + r.desc_y@ + "\" class=\"label-topology\">"@ + r.topology@ + " ["@ + r.quant@ + "]</text>\n      <rect x=\"320\" y=\""@ + r.rect_ttft_y@ + "\" width=\""@ + r.ttft_w@ + "\" height=\"14\" rx=\"3\" fill=\"#7fb8a6\" />\n      <rect x=\"320\" y=\""@ + r.rect_itl_y@ + "\" width=\""@ + r.itl_w@ + "\" height=\"14\" rx=\"3\" fill=\"#6ba4d9\" />\n      <text x=\""@ + r.ttft_val_x@ + "\" y=\""@, r.y_ttft_text@, "\" height=\"14\" rx=\"3\" fill=\"#7fb8a6\" />\n      <rect x=\"320\" y=\""@ + r.rect_itl_y@ + "\" width=\""@ + r.itl_w@ + "\" height=\"14\" rx=\"3\" fill=\"#6ba4d9\" />\n      <text x=\""@);
        lemma_contains_extend("\n    <g class=\"model-row\">\n      <text x=\"30\" y=\""@ + r.y@ + "\" class=\"label-model\">"@ + r.name@ + "</text>\n      <text x=\"30\" y=\""@ + r.desc_y@ + "\" class=\"label-topology\">"@ + r.topology@ + " ["@ + r.quant@ + "]</text>\n      <rect x=\"320\" y=\""@ + r.rect_ttft_y@ + "\" width=\""@ + r.ttft_w@ + "\" height=\"14\" rx=\"3\" fill=\"#7fb8a6\" />\n      <rect x=\"320\" y=\""@ + r.rect_itl_y@ + "\" width=\""@ + r.itl_w@ + "\" height=\"14\" rx=\"3\" fill=\"#6ba4d9\" />\n      <text x=\""@ + r.ttft_val_x@ + "\" y=\""@ + r.y_ttft_text@, "\" class=\"label-stat\">TTFT "@, "\" height=\"14\" rx=\"3\" fill=\"#7fb8a6\" />\n      <rect x=\"320\" y=\""@ + r.rect_itl_y@ + "\" width=\""@ + r.itl_w@ + "\" height=\"14\" rx=\"3\" fill=\"#6ba4d9\" />\n      <text x=\""@);
        lemma_contains_extend("\n    <g class=\"model-row\">\n      <text x=\"30\" y=\""@ + r.y@ + "\" class=\"label-model\">"@ + r.name@ + "</text>\n      <text x=\"30\" y=\""@ + r.desc_y@ + "\" class=\"label-topology\">"@ + r.topology@ + " ["@ + r.quant@ + "]</text>\n      <rect x=\"320\" y=\""@ + r.rect_ttft_y@ + "\" width=\""@ + r.ttft_w@ + "\" height=\"14\" rx=\"3\" fill=\"#7fb8a6\" />\n      <rect x=\"320\" y=\""@ + r.rect_itl_y@ + "\" width=\""@ + r.itl_w@ + "\" height=\"14\" rx=\"3\" fill=\"#6ba4d9\" />\n      <text x=\""@ + r.ttft_val_x@ + "\" y=\""@ + r.y_ttft_text@ + "\" class=\"label-stat\">TTFT "@, r.ttft@, "\" height=\"14\" rx=\"3\" fill=\"#7fb8a6\" />\n      <rect x=\"320\" y=\""@ + r.rect_itl_y@ + "\" width=\""@ + r.itl_w@ + "\" height=\"14\" rx=\"3\" fill=\"#6ba4d9\" />\n      <text x=\""@);
        lemma_contains_extend("\n    <g class=\"model-row\">\n      <text x=\"30\" y=\""@ + r.y@ + "\" class=\"label-model\">"@ + r.name@ + "</text>\n      <text x=\"30\" y=\""@ + r.desc_y@ + "\" class=\"label-topology\">"@ + r.topology@ + " ["@ + r.quant@ + "]</text>\n      <rect x=\"320\" y=\""@ + r.rect_ttft_y@ + "\" width=\""@ + r.ttft_w@ + "\" height=\"14\" rx=\"3\" fill=\"#7fb8a6\" />\n      <rect x=\"320\" y=\""@ + r.rect_itl_y@ + "\" width=\""@ + r.itl_w@ + "\" height=\"14\" rx=\"3\" fill=\"#6ba4d9\" />\n      <text x=\""@ + r.ttft_val_x@ + "\" y=\""@ + r.y_ttft_text@ + "\" class=\"label-stat\">TTFT "@ + r.ttft@, "ms</text>\n      <text x=\""@, "\" height=\"14\" rx=\"3\" fill=\"#7fb8a6\" />\n      <rect x=\"320\" y=\""@ + r.rect_itl_y@ + "\" width=\""@ + r.itl_w@ + "\" height=\"14\" rx=\"3\" fill=\"#6ba4d9\" />\n      <text x=\""@);
        lemma_contains_extend("\n    <g class=\"model-row\">\n      <text x=\"30\" y=\""@ + r.y@ + "\" class=\"label-model\">"@ + r.name@ + "</text>\n      <text x=\"30\" y=\""@ + r.desc_y@ + "\" class=\"label-topology\">"@ + r.topology@ + " ["@ + r.quant@ + "]</text>\n      <rect x=\"320\" y=\""@ + r.rect_ttft_y@ + "\" width=\""@ + r.ttft_w@ + "\" height=\"14\" rx=\"3\" fill=\"#7fb8a6\" />\n      <rect x=\"320\" y=\""@ + r.rect_itl_y@ + "\" width=\""@ + r.itl_w@ + "\" height=\"14\" rx=\"3\" fill=\"#6ba4d9\" />\n      <text x=\""@ + r.ttft_val_x@ + "\" y=\""@ + r.y_ttft_text@ + "\" class=\"label-stat\">TTFT "@ + r.ttft@ + "ms</text>\n      <text x=\""@, r.itl_val_x@, "\" height=\"14\" rx=\"3\" fill=\"#7fb8a6\" />\n      <rect x=\"320\" y=\""@ + r.rect_itl_y@ + "\" width=\""@ + r.itl_w@ + "\" height=\"14\" rx=\"3\" fill=\"#6ba4d9\" />\n      <text x=\""@);
        lemma_contains_extend("\n    <g class=\"model-row\">\n      <text x=\"30\" y=\""@ + r.y@ + "\" class=\"label-model\">"@ + r.name@ + "</text>\n      <text x=\"30\" y=\""@ + r.desc_y@ + "\" class=\"label-topology\">"@ + r.topology@ + " ["@ + r.quant@ + "]</text>\n      <rect x=\"320\" y=\""@ + r.rect_ttft_y@ + "\" width=\""@ + r.ttft_w@ + "\" height=\"14\" rx=\"3\" fill=\"#7fb8a6\" />\n      <rect x=\"320\" y=\""@ + r.rect_itl_y@ + "\" width=\""@ + r.itl_w@ + "\" height=\"14\" rx=\"3\" fill=\"#6ba4d9\" />\n      <text x=\""@ + r.ttft_val_x@ + "\" y=\""@ + r.y_ttft_text@ + "\" class=\"label-stat\">TTFT "@ + r.ttft@ + "ms</text>\n      <text x=\""@ + r.itl_val_x@, "\" y=\""@, "\" height=\"14\" rx=\"3\" fill=\"#7fb8a6\" />\n      <rect x=\"320\" y=\""@ + r.rect_itl_y@ + "\" width=\""@ + r.itl_w@ + "\" height=\"14\" rx=\"3\" fill=\"#6ba4d9\" />\n      <text x=\""@);
        lemma_contains_extend("\n    <g class=\"model-row\">\n      <text x=\"30\" y=\""@ + r.y@ + "\" class=\"label-model\">"@ + r.name@ + "</text>\n      <text x=\"30\" y=\""@ + r.desc_y@ + "\" class=\"label-topology\">"@ + r.topology@ + " ["@ + r.quant@ + "]</text>\n      <rect x=\"320\" y=\""@ + r.rect_ttft_y@ + "\" width=\""@ + r.ttft_w@ + "\" height=\"14\" rx=\"3\" fill=\"#7fb8a6\" />\n      <rect x=\"320\" y=\""@ + r.rect_itl_y@ + "\" width=\""@ + r.itl_w@ + "\" height=\"14\" rx=\"3\" fill=\"#6ba4d9\" />\n      <text x=\""@ + r.ttft_val_x@ + "\" y=\""@ + r.y_ttft_text@ + "\" class=\"label-stat\">TTFT "@ + r.ttft@ + "ms</text>\n      <text x=\""@ + r.itl_val_x@ + "\" y=\""@, r.y_itl_text@, "\" height=\"14\" rx=\"3\" fill=\"#7fb8a6\" />\n      <rect x=\"320\" y=\""@ + r.rect_itl_y@ + "\" width=\""@ + r.itl_w@ + "\" height=\"14\" rx=\"3\" fill=\"#6ba4d9\" />\n      <text x=\""@);
        lemma_contains_extend("\n    <g class=\"model-row\">\n      <text x=\"30\" y=\""@ + r.y@ + "\" class=\"label-model\">"@ + r.name@ + "</text>\n      <text x=\"30\" y=\""@ + r.desc_y@ + "\" class=\"label-topology\">"@ + r.topology@ + " ["@ + r.quant@ + "]</text>\n      <rect x=\"320\" y=\""@ + r.rect_ttft_y@ + "\" width=\""@ + r.ttft_w@ + "\" height=\"14\" rx=\"3\" fill=\"#7fb8a6\" />\n      <rect x=\"320\" y=\""@ + r.rect_itl_y@ + "\" width=\""@ + r.itl_w@ + "\" height=\"14\" rx=\"3\" fill=\"#6ba4d9\" />\n      <text x=\""@ + r.ttft_val_x@ + "\" y=\""@ + r.y_ttft_text@ + "\" class=\"label-stat\">TTFT "@ + r.ttft@ + "ms</text>\n      <text x=\""@ + r.itl_val_x@ + "\" y=\""@ + r.y_itl_text@, "\" class=\"label-stat\">ITL "@, "\" height=\"14\" rx=\"3\" fill=\"#7fb8a6\" />\n      <rect x=\"320\" y=\""@ + r.rect_itl_y@ + "\" width=\""@ + r.itl_w@ + "\" height=\"14\" rx=\"3\" fill=\"#6ba4d9\" />\n      <text x=\""@);
        lemma_contains_extend("\n    <g class=\"model-row\">\n      <text x=\"30\" y=\""@ + r.y@ + "\" class=\"label-model\">"@ + r.name@ + "</text>\n      <text x=\"30\" y=\""@ + r.desc_y@ + "\" class=\"label-topology\">"@ + r.topology@ + " ["@ + r.quant@ + "]</text>\n      <rect x=\"320\" y=\""@ + r.rect_ttft_y@ + "\" width=\""@ + r.ttft_w@ + "\" height=\"14\" rx=\"3\" fill=\"#7fb8a6\" />\n      <rect x=\"320\" y=\""@ + r.rect_itl_y@ + "\" width=\""@ + r.itl_w@ + "\" height=\"14\" rx=\"3\" fill=\"#6ba4d9\" />\n      <text x=\""@ + r.ttft_val_x@ + "\" y=\""@ + r.y_ttft_text@ + "\" class=\"label-stat\">TTFT "@ + r.ttft@ + "ms</text>\n      <text x=\""@ + r.itl_val_x@ + "\" y=\""@ + r.y_itl_text@ + "\" class=\"label-stat\">ITL "@, r.itl@, "\" height=\"14\" rx=\"3\" fill=\"#7fb8a6\" />\n      <rect x=\"320\" y=\""@ + r.rect_itl_y@ + "\" width=\""@ + r.itl_w@ + "\" height=\"14\" rx=\"3\" fill=\"#6ba4d9\" />\n      <text x=\""@);
        lemma_contains_extend("\n    <g class=\"model-row\">\n      <text x=\"30\" y=\""@ + r.y@ + "\" class=\"label-model\">"@ + r.name@ + "</text>\n      <text x=\"30\" y=\""@ + r.desc_y@ + "\" class=\"label-topology\">"@ + r.topology@ + " ["@ + r.quant@ + "]</text>\n      <rect x=\"320\" y=\""@ + r.rect_ttft_y@ + "\" width=\""@ + r.ttft_w@ + "\" height=\"14\" rx=\"3\" fill=\"#7fb8a6\" />\n      <rect x=\"320\" y=\""@ + r.rect_itl_y@ + "\" width=\""@ + r.itl_w@ + "\" height=\"14\" rx=\"3\" fill=\"#6ba4d9\" />\n      <text x=\""@ + r.ttft_val_x@ + "\" y=\""@ + r.y_ttft_text@ + "\" class=\"label-stat\">TTFT "@ + r.ttft@ + "ms</text>\n      <text x=\""@ + r.itl_val_x@ + "\" y=\""@ + r.y_itl_text@ + "\" class=\"label-stat\">ITL "@ + r.itl@, "ms</text>\n      <text x=\"820\" y=\""@, "\" height=\"14\" rx=\"3\" fill=\"#7fb8a6\" />\n      <rect x=\"320\" y=\""@ + r.rect_itl_y@ + "\" width=\""@ + r.itl_w@ + "\" height=\"14\" rx=\"3\" fill=\"#6ba4d9\" />\n      <text x=\""@);
        lemma_contains_extend("\n    <g class=\"model-row\">\n      <text x=\"30\" y=\""@ + r.y@ + "\" class=\"label-model\">"@ + r.name@ + "</text>\n      <text x=\"30\" y=\""@ + r.desc_y@ + "\" class=\"label-topology\">"@ + r.topology@ + " ["@ + r.quant@ + "]</text>\n      <rect x=\"320\" y=\""@ + r.rect_ttft_y@ + "\" width=\""@ + r.ttft_w@ + "\" height=\"14\" rx=\"3\" fill=\"#7fb8a6\" />\n      <rect x=\"320\" y=\""@ + r.rect_itl_y@ + "\" width=\""@ + r.itl_w@ + "\" height=\"14\" rx=\"3\" fill=\"#6ba4d9\" />\n      <text x=\""@ + r.ttft_val_x@ + "\" y=\""@ + r.y_ttft_text@ + "\" class=\"label-stat\">TTFT "@ + r.ttft@ + "ms</text>\n      <text x=\""@ + r.itl_val_x@ + "\" y=\""@ + r.y_itl_text@ + "\" class=\"label-stat\">ITL "@ + r.itl@ + "ms</text>\n      <text x=\"820\" y=\""@, r.y@, "\" height=\"14\" rx=\"3\" fill=\"#7fb8a6\" />\n      <rect x=\"320\" y=\""@ + r.rect_itl_y@ + "\" width=\""@ + r.itl_w@ + "\" height=\"14\" rx=\"3\" fill=\"#6ba4d9\" />\n      <text x=\""@);
        lemma_contains_extend("\n    <g class=\"model-row\">\n      <text x=\"30\" y=\""@ + r.y@ + "\" class=\"label-model\">"@ + r.name@ + "</text>\n      <text x=\"30\" y=\""@ + r.desc_y@ + "\" class=\"label-topology\">"@ + r.topology@ + " ["@ + r.quant@ + "]</text>\n      <rect x=\"320\" y=\""@ + r.rect_ttft_y@ + "\" width=\""@ + r.ttft_w@ + "\" height=\"14\" rx=\"3\" fill=\"#7fb8a6\" />\n      <rect x=\"320\" y=\""@ + r.rect_itl_y@ + "\" width=\""@ + r.itl_w@ + "\" height=\"14\" rx=\"3\" fill=\"#6ba4d9\" />\n      <text x=\""@ + r.ttft_val_x@ + "\" y=\""@ + r.y_ttft_text@ + "\" class=\"label-stat\">TTFT "@ + r.ttft@ + "ms</text>\n      <text x=\""@ + r.itl_val_x@ + "\" y=\""@ + r.y_itl_text@ + "\" class=\"label-stat\">ITL "@ + r.itl@ + "ms</text>\n      <text x=\"820\" y=\""@ + r.y@, "\" class=\"badge-footprint\">KV: "@, "\" height=\"14\" rx=\"3\" fill=\"#7fb8a6\" />\n      <rect x=\"320\" y=\""@ + r.rect_itl_y@ + "\" width=\""@ + r.itl_w@ + "\" height=\"14\" rx=\"3\" fill=\"#6ba4d9\" />\n      <text x=\""@);
        lemma_contains_extend("\n    <g class=\"model-row\">\n      <text x=\"30\" y=\""@ + r.y@ + "\" class=\"label-model\">"@ + r.name@ + "</text>\n      <text x=\"30\" y=\""@ + r.desc_y@ + "\" class=\"label-topology\">"@ + r.topology@ + " ["@ + r.quant@ + "]</text>\n      <rect x=\"320\" y=\""@ + r.rect_ttft_y@ + "\" width=\""@ + r.ttft_w@ + "\" height=\"14\" rx=\"3\" fill=\"#7fb8a6\" />\n      <rect x=\"320\" y=\""@ + r.rect_itl_y@ + "\" width=\""@ + r.itl_w@ + "\" height=\"14\" rx=\"3\" fill=\"#6ba4d9\" />\n      <text x=\""@ + r.ttft_val_x@ + "\" y=\""@ + r.y_ttft_text@ + "\" class=\"label-stat\">TTFT "@ + r.ttft@ + "ms</text>\n      <text x=\""@ + r.itl_val_x@ + "\" y=\""@ + r.y_itl_text@ + "\" class=\"label-stat\">ITL "@ + r.itl@ + "ms</text>\n      <text x=\"820\" y=\""@ + r.y@ + "\" class=\"badge-footprint\">KV: "@, r.kv@, "\" height=\"14\" rx=\"3\" fill=\"#7fb8a6\" />\n      <rect x=\"320\" y=\""@ + r.rect_itl_y@ + "\" width=\""@ + r.itl_w@ + "\" height=\"14\" rx=\"3\" fill=\"#6ba4d9\" />\n      <text x=\""@);
        lemma_contains_extend("\n    <g class=\"model-row\">\n      <text x=\"30\" y=\""@ + r.y@ + "\" class=\"label-model\">"@ + r.name@ + "</text>\n      <text x=\"30\" y=\""@ + r.desc_y@ + "\" class=\"label-topology\">"@ + r.topology@ + " ["@ + r.quant@ + "]</text>\n      <rect x=\"320\" y=\""@ + r.rect_ttft_y@ + "\" width=\""@ + r.ttft_w@ + "\" height=\"14\" rx=\"3\" fill=\"#7fb8a6\" />\n      <rect x=\"320\" y=\""@ + r.rect_itl_y@ + "\" width=\""@ + r.itl_w@ + "\" height=\"14\" rx=\"3\" fill=\"#6ba4d9\" />\n      <text x=\""@ + r.ttft_val_x@ + "\" y=\""@ + r.y_ttft_text@ + "\" class=\"label-stat\">TTFT "@ + r.ttft@ + "ms</text>\n      <text x=\""@ + r.itl_val_x@ + "\" y=\""@ + r.y_itl_text@ + "\" class=\"label-stat\">ITL "@ + r.itl@ + "ms</text>\n      <text x=\"820\" y=\""@ + r.y@ + "\" class=\"badge-footprint\">KV: "@ + r.kv@, " GB</text>\n      <text x=\"960\" y=\""@, "\" height=\"14\" rx=\"3\" fill=\"#7fb8a6\" />\n      <rect x=\"320\" y=\""@ + r.rect_itl_y@ + "\" width=\""@ + r.itl_w@ + "\" height=\"14\" rx=\"3\" fill=\"#6ba4d9\" />\n      <text x=\""@);
        lemma_contains_extend("\n    <g class=\"model-row\">\n      <text x=\"30\" y=\""@ + r.y@ + "\" class=\"label-model\">"@ + r.name@ + "</text>\n      <text x=\"30\" y=\""@ + r.desc_y@ + "\" class=\"label-topology\">"@ + r.topology@ + " ["@ + r.quant@ + "]</text>\n      <rect x=\"320\" y=\""@ + r.rect_ttft_y@ + "\" width=\""@ + r.ttft_w@ + "\" height=\"14\" rx=\"3\" fill=\"#7fb8a6\" />\n      <rect x=\"320\" y=\""@ + r.rect_itl_y@ + "\" width=\""@ + r.itl_w@ + "\" height=\"14\" rx=\"3\" fill=\"#6ba4d9\" />\n      <text x=\""@ + r.ttft_val_x@ + "\" y=\""@ + r.y_ttft_text@ + "\" class=\"label-stat\">TTFT "@ + r.ttft@ + "ms</text>\n      <text x=\""@ + r.itl_val_x@ + "\" y=\""@ + r.y_itl_text@ + "\" class=\"label-stat\">ITL "@ + r.itl@ + "ms</text>\n      <text x=\"820\" y=\""@ + r.y@ + "\" class=\"badge-footprint\">KV: "@ + r.kv@ + " GB</text>\n      <text x=\"960\" y=\""@, r.y@, "\" height=\"14\" rx=\"3\" fill=\"#7fb8a6\" />\n      <rect x=\"320\" y=\""@ + r.rect_itl_y@ + "\" width=\""@ + r.itl_w@ + "\" height=\"14\" rx=\"3\" fill=\"#6ba4d9\" />\n      <text x=\""@);
        lemma_contains_extend("\n    <g class=\"model-row\">\n      <text x=\"30\" y=\""@ + r.y@ + "\" class=\"label-model\">"@ + r.name@ + "</text>\n      <text x=\"30\" y=\""@ + r.desc_y@ + "\" class=\"label-topology\">"@ + r.topology@ + " ["@ + r.quant@ + "]</text>\n      <rect x=\"320\" y=\""@ + r.rect_ttft_y@ + "\" width=\""@ + r.ttft_w@ + "\" height=\"14\" rx=\"3\" fill=\"#7fb8a6\" />\n      <rect x=\"320\" y=\""@ + r.rect_itl_y@ + "\" width=\""@ + r.itl_w@ + "\" height=\"14\" rx=\"3\" fill=\"#6ba4d9\" />\n      <text x=\""@ + r.ttft_val_x@ + "\" y=\""@ + r.y_ttft_text@ + "\" class=\"label-stat\">TTFT "@ + r.ttft@ + "ms</text>\n      <text x=\""@ + r.itl_val_x@ + "\" y=\""@ + r.y_itl_text@ + "\" class=\"label-stat\">ITL "@ + r.itl@ + "ms</text>\n      <text x=\"820\" y=\""@ + r.y@ + "\" class=\"badge-footprint\">KV: "@ + r.kv@ + " GB</text>\n      <text x=\"960\" y=\""@ + r.y@, "\" class=\"badge-status\">"@, "\" height=\"14\" rx=\"3\" fill=\"#7fb8a6\" />\n      <rect x=\"320\" y=\""@ + r.rect_itl_y@ + "\" width=\""@ + r.itl_w@ + "\" height=\"14\" rx=\"3\" fill=\"#6ba4d9\" />\n      <text x=\""@);
        lemma_contains_extend("\n    <g class=\"model-row\">\n      <text x=\"30\" y=\""@ + r.y@ + "\" class=\"label-model\">"@ + r.name@ + "</text>\n      <text x=\"30\" y=\""@ + r.desc_y@ + "\" class=\"label-topology\">"@ + r.topology@ + " ["@ + r.quant@ + "]</text>\n      <rect x=\"320\" y=\""@ + r.rect_ttft_y@ + "\" width=\""@ + r.ttft_w@ + "\" height=\"14\" rx=\"3\" fill=\"#7fb8a6\" />\n      <rect x=\"320\" y=\""@ + r.rect_itl_y@ + "\" width=\""@ + r.itl_w@ + "\" height=\"14\" rx=\"3\" fill=\"#6ba4d9\" />\n      <text x=\""@ + r.ttft_val_x@ + "\" y=\""@ + r.y_ttft_text@ + "\" class=\"label-stat\">TTFT "@ + r.ttft@ + "ms</text>\n      <text x=\""@ + r.itl_val_x@ + "\" y=\""@ + r.y_itl_text@ + "\" class=\"label-stat\">ITL "@ + r.itl@ + "ms</text>\n      <text x=\"820\" y=\""@ + r.y@ + "\" class=\"badge-footprint\">KV: "@ + r.kv@ + " GB</text>\n      <text x=\"960\" y=\""@ + r.y@ + "\" class=\"badge-status\">"@, r.status@, "\" height=\"14\" rx=\"3\" fill=\"#7fb8a6\" />\n      <rect x=\"320\" y=\""@ + r.rect_itl_y@ + "\" width=\""@ + r.itl_w@ + "\" height=\"14\" rx=\"3\" fill=\"#6ba4d9\" />\n      <text x=\""@);
        lemma_contains_extend("\n    <g class=\"model-row\">\n      <text x=\"30\" y=\""@ + r.y@ + "\" class=\"label-model\">"@ + r.name@ + "</text>\n      <text x=\"30\" y=\""@ + r.desc_y@ + "\" class=\"label-topology\">"@ + r.topology@ + " ["@ + r.quant@ + "]</text>\n      <rect x=\"320\" y=\""@ + r.rect_ttft_y@ + "\" width=\""@ + r.ttft_w@ + "\" height=\"14\" rx=\"3\" fill=\"#7fb8a6\" />\n      <rect x=\"320\" y=\""@ + r.rect_itl_y@ + "\" width=\""@ + r.itl_w@ + "\" height=\"14\" rx=\"3\" fill=\"#6ba4d9\" />\n      <text x=\""@ + r.ttft_val_x@ + "\" y=\""@ + r.y_ttft_text@ + "\" class=\"label-stat\">TTFT "@ + r.ttft@ + "ms</text>\n      <text x=\""@ + r.itl_val_x@ + "\" y=\""@ + r.y_itl_text@ + "\" class=\"label-stat\">ITL "@ + r.itl@ + "ms</text>\n      <text x=\"820\" y=\""@ + r.y@ + "\" class=\"badge-footprint\">KV: "@ + r.kv@ + " GB</text>\n      <text x=\"960\" y=\""@ + r.y@ + "\" class=\"badge-status\">"@ + r.status@, "</text>\n    </g>"@, "\" height=\"14\" rx=\"3\" fill=\"#7fb8a6\" />\n      <rect x=\"320\" y=\""@ + r.rect_itl_y@ + "\" width=\""@ + r.itl_w@ + "\" height=\"14\" rx=\"3\" fill=\"#6ba4d9\" />\n      <text x=\""@);
    }
    assert(contains_seq(multi_model_row_text(r), "\" height=\"14\" rx=\"3\" fill=\"#6ba4d9\" />\n      <text x=\""@ + r.ttft_val_x@ + "\" y=\""@ + r.y_ttft_text@ + "\" class=\"label-stat\">TTFT "@ + r.ttft@ + "ms</text>\n      <text x=\""@)) by {
        lemma_concat_associative(("\n    <g class=\"model-row\">\n      <text x=\"30\" y=\""@ + r.y@ + "\" class=\"label-model\">"@ + r.name@ + "</text>\n      <text x=\"30\" y=\""@ + r.desc_y@ + "\" class=\"label-topology\">"@ + r.topology@ + " ["@ + r.quant@ + "]</text>\n      <rect x=\"320\" y=\""@ + r.rect_ttft_y@ + "\" width=\""@ + r.ttft_w@ + "\" height=\"14\" rx=\"3\" fill=\"#7fb8a6\" />\n      <rect x=\"320\" y=\""@ + r.rect_itl_y@ + "\" width=\""@ + r.itl_w@), "\" height=\"14\" rx=\"3\" fill=\"#6ba4d9\" />\n      <text x=\""@, r.ttft_val_x@);
        assert(("\n    <g class=\"model-row\">\n      <text x=\"30\" y=\""@ + r.y@ + "\" class=\"label-model\">"@ + r.name@ + "</text>\n      <text x=\"30\" y=\""@ + r.desc_y@ + "\" class=\"label-topology\">"@ + r.topology@ + " ["@ + r.quant@ + "]</text>\n      <rect x=\"320\" y=\""@ + r.rect_ttft_y@ + "\" width=\""@ + r.ttft_w@ + "\" height=\"14\" rx=\"3\" fill=\"#7fb8a6\" />\n      <rect x=\"320\" y=\""@ + r.rect_itl_y@ + "\" width=\""@ + r.itl_w@) + ("\" height=\"14\" rx=\"3\" fill=\"#6ba4d9\" />\n      <text x=\""@ + r.ttft_val_x@) == "\n    <g class=\"model-row\">\n      <text x=\"30\" y=\""@ + r.y@ + "\" class=\"label-model\">"@ + r.name@ + "</text>\n      <text x=\"30\" y=\""@ + r.desc_y@ + "\" class=\"label-topology\">"@ + r.topology@ + " ["@ + r.quant@ + "]</text>\n      <rect x=\"320\" y=\""@ + r.rect_ttft_y@ + "\" width=\""@ + r.ttft_w@ + "\" height=\"14\" rx=\"3\" fill=\"#7fb8a6\" />\n      <rect x=\"320\" y=\""@ + r.rect_itl_y@ + "\" width=\""@ + r.itl_w@ + "\" height=\"14\" rx=\"3\" fill=\"#6ba4d9\" />\n      <text x=\""@ + r.ttft_val_x@);
        lemma_concat_associative(("\n    <g class=\"model-row\">\n      <text x=\"30\" y=\""@ + r.y@ + "\" class=\"label-model\">"@ + r.name@ + "</text>\n      <text x=\"30\" y=\""@ + r.desc_y@ + "\" class=\"label-topology\">"@ + r.topology@ + " ["@ + r.quant@ + "]</text>\n      <rect x=\"320\" y=\""@ + r.rect_ttft_y@ + "\" width=\""@ + r.ttft_w@ + "\" height=\"14\" rx=\"3\" fill=\"#7fb8a6\" />\n      <rect x=\"320\" y=\""@ + r.rect_itl_y@ + "\" width=\""@ + r.itl_w@), "\" height=\"14\" rx=\"3\" fill=\"#6ba4d9\" />\n      <text x=\""@ + r.ttft_val_x@, "\" y=\""@);
        assert(("\n    <g class=\"model-row\">\n      <text x=\"30\" y=\""@ + r.y@ + "\" class=\"label-model\">"@ + r.name@ + "</text>\n      <text x=\"30\" y=\""@ + r.desc_y@ + "\" class=\"label-topology\">"@ + r.topology@ + " ["@ + r.quant@ + "]</text>\n      <rect x=\"320\" y=\""@ + r.rect_ttft_y@ + "\" width=\""@ + r.ttft_w@ + "\" height=\"14\" rx=\"3\" fill=\"#7fb8a6\" />\n      <rect x=\"320\" y=\""@ + r.rect_itl_y@ + "\" width=\""@ + r.itl_w@) + ("\" height=\"14\" rx=\"3\" fill=\"#6ba4d9\" />\n      <text x=\""@ + r.ttft_val_x@ + "\" y=\""@) == "\n    <g class=\"model-row\">\n      <text x=\"30\" y=\""@ + r.y@ + "\" class=\"label-model\">"@ + r.name@ + "</text>\n      <text x=\"30\" y=\""@ + r.desc_y@ + "\" class=\"label-topology\">"@ + r.topology@ + " ["@ + r.quant@ + "]</text>\n      <rect x=\"320\" y=\""@ + r.rect_ttft_y@ + "\" width=\""@ + r.ttft_w@ + "\" height=\"14\" rx=\"3\" fill=\"#7fb8a6\" />\n      <rect x=\"320\" y=\""@ + r.rect_itl_y@ + "\" width=\""@ + r.itl_w@ + "\" height=\"14\" rx=\"3\" fill=\"#6ba4d9\" />\n      <text x=\""@ + r.ttft_val_x@ + "\" y=\""@);
        lemma_concat_associative(("\n    <g class=\"model-row\">\n      <text x=\"30\" y=\""@ + r.y@ + "\" class=\"label-model\">"@ + r.name@ + "</text>\n      <text x=\"30\" y=\""@ + r.desc_y@ + "\" class=\"label-topology\">"@ + r.topology@ + " ["@ + r.quant@ + "]</text>\n      <rect x=\"320\" y=\""@ + r.rect_ttft_y@ + "\" width=\""@ + r.ttft_w@ + "\" height=\"14\" rx=\"3\" fill=\"#7fb8a6\" />\n      <rect x=\"320\" y=\""@ + r.rect_itl_y@ + "\" width=\""@ + r.itl_w@), "\" height=\"14\" rx=\"3\" fill=\"#6ba4d9\" />\n      <text x=\""@ + r.ttft_val_x@ + "\" y=\""@, r.y_ttft_text@);
        assert(("\n    <g class=\"model-row\">\n      <text x=\"30\" y=\""@ + r.y@ + "\" class=\"label-model\">"@ + r.name@ + "</text>\n      <text x=\"30\" y=\""@ + r.desc_y@ + "\" class=\"label-topology\">"@ + r.topology@ + " ["@ + r.quant@ + "]</text>\n      <rect x=\"320\" y=\""@ + r.rect_ttft_y@ + "\" width=\""@ + r.ttft_w@ + "\" height=\"14\" rx=\"3\" fill=\"#7fb8a6\" />\n      <rect x=\"320\" y=\""@ + r.rect_itl_y@ + "\" width=\""@ + r.itl_w@) + ("\" height=\"14\" rx=\"3\" fill=\"#6ba4d9\" />\n      <text x=\""@ + r.ttft_val_x@ + "\" y=\""@ + r.y_ttft_text@) == "\n    <g class=\"model-row\">\n      <text x=\"30\" y=\""@ + r.y@ + "\" class=\"label-model\">"@ + r.name@ + "</text>\n      <text x=\"30\" y=\""@ + r.desc_y@ + "\" class=\"label-topology\">"@ + r.topology@ + " ["@ + r.quant@ + "]</text>\n      <rect x=\"320\" y=\""@ + r.rect_ttft_y@ + "\" width=\""@ + r.ttft_w@ + "\" height=\"14\" rx=\"3\" fill=\"#7fb8a6\" />\n      <rect x=\"320\" y=\""@ + r.rect_itl_y@ + "\" width=\""@ + r.itl_w@ + "\" height=\"14\" rx=\"3\" fill=\"#6ba4d9\" />\n      <text x=\""@ + r.ttft_val_x@ + "\" y=\""@ + r.y_ttft_text@);
        lemma_concat_associative(("\n    <g class=\"model-row\">\n      <text x=\"30\" y=\""@ + r.y@ + "\" class=\"label-model\">"@ + r.name@ + "</text>\n      <text x=\"30\" y=\""@ + r.desc_y@ + "\" class=\"label-topology\">"@ + r.topology@ + " ["@ + r.quant@ + "]</text>\n      <rect x=\"320\" y=\""@ + r.rect_ttft_y@ + "\" width=\""@ + r.ttft_w@ + "\" height=\"14\" rx=\"3\" fill=\"#7fb8a6\" />\n      <rect x=\"320\" y=\""@ + r.rect_itl_y@ + "\" width=\""@ + r.itl_w@), "\" height=\"14\" rx=\"3\" fill=\"#6ba4d9\" />\n      <text x=\""@ + r.ttft_val_x@ + "\" y=\""@ + r.y_ttft_text@, "\" class=\"label-stat\">TTFT "@);
        assert(("\n    <g class=\"model-row\">\n      <text x=\"30\" y=\""@ + r.y@ + "\" class=\"label-model\">"@ + r.name@ + "</text>\n      <text x=\"30\" y=\""@ + r.desc_y@ + "\" class=\"label-topology\">"@ + r.topology@ + " ["@ + r.quant@ + "]</text>\n      <rect x=\"320\" y=\""@ + r.rect_ttft_y@ + "\" width=\""@ + r.ttft_w@ + "\" height=\"14\" rx=\"3\" fill=\"#7fb8a6\" />\n      <rect x=\"320\" y=\""@ + r.rect_itl_y@ + "\" width=\""@ + r.itl_w@) + ("\" height=\"14\" rx=\"3\" fill=\"#6ba4d9\" />\n      <text x=\""@ + r.ttft_val_x@ + "\" y=\""@ + r.y_ttft_text@ + "\" class=\"label-stat\">TTFT "@) == "\n    <g class=\"model-row\">\n      <text x=\"30\" y=\""@ + r.y@ + "\" class=\"label-model\">"@ + r.name@ + "</text>\n      <text x=\"30\" y=\""@ + r.desc_y@ + "\" class=\"label-topology\">"@ + r.topology@ + " ["@ + r.quant@ + "]</text>\n      <rect x=\"320\" y=\""@ + r.rect_ttft_y@ + "\" width=\""@ + r.ttft_w@ + "\" height=\"14\" rx=\"3\" fill=\"#7fb8a6\" />\n      <rect x=\"320\" y=\""@ + r.rect_itl_y@ + "\" width=\""@ + r.itl_w@ + "\" height=\"14\" rx=\"3\" fill=\"#6ba4d9\" />\n      <text x=\""@ + r.ttft_val_x@ + "\" y=\""@ + r.y_ttft_text@ + "\" class=\"label-stat\">TTFT "@);
        lemma_concat_associative(("\n    <g class=\"model-row\">\n      <text x=\"30\" y=\""@ + r.y@ + "\" class=\"label-model\">"@ + r.name@ + "</text>\n      <text x=\"30\" y=\""@ + r.desc_y@ + "\" class=\"label-topology\">"@ + r.topology@ + " ["@ + r.quant@ + "]</text>\n      <rect x=\"320\" y=\""@ + r.rect_ttft_y@ + "\" width=\""@ + r.ttft_w@ + "\" height=\"14\" rx=\"3\" fill=\"#7fb8a6\" />\n      <rect x=\"320\" y=\""@ + r.rect_itl_y@ + "\" width=\""@ + r.itl_w@), "\" height=\"14\" rx=\"3\" fill=\"#6ba4d9\" />\n      <text x=\""@ + r.ttft_val_x@ + "\" y=\""@ + r.y_ttft_text@ + "\" class=\"label-stat\">TTFT "@, r.ttft@);
        assert(("\n    <g class=\"model-row\">\n      <text x=\"30\" y=\""@ + r.y@ + "\" class=\"label-model\">"@ + r.name@ + "</text>\n      <text x=\"30\" y=\""@ + r.desc_y@ + "\" class=\"label-topology\">"@ + r.topology@ + " ["@ + r.quant@ + "]</text>\n      <rect x=\"320\" y=\""@ + r.rect_ttft_y@ + "\" width=\""@ + r.ttft_w@ + "\" height=\"14\" rx=\"3\" fill=\"#7fb8a6\" />\n      <rect x=\"320\" y=\""@ + r.rect_itl_y@ + "\" width=\""@ + r.itl_w@) + ("\" height=\"14\" rx=\"3\" fill=\"#6ba4d9\" />\n      <text x=\""@ + r.ttft_val_x@ + "\" y=\""@ + r.y_ttft_text@ + "\" class=\"label-stat\">TTFT "@ + r.ttft@) == "\n    <g class=\"model-row\">\n      <text x=\"30\" y=\""@ + r.y@ + "\" class=\"label-model\">"@ + r.name@ + "</text>\n      <text x=\"30\" y=\""@ + r.desc_y@ + "\" class=\"label-topology\">"@ + r.topology@ + " ["@ + r.quant@ + "]</text>\n      <rect x=\"320\" y=\""@ + r.rect_ttft_y@ + "\" width=\""@ + r.ttft_w@ + "\" height=\"14\" rx=\"3\" fill=\"#7fb8a6\" />\n      <rect x=\"320\" y=\""@ + r.rect_itl_y@ + "\" width=\""@ + r.itl_w@ + "\" height=\"14\" rx=\"3\" fill=\"#6ba4d9\" />\n      <text x=\""@ + r.ttft_val_x@ + "\" y=\""@ + r.y_ttft_text@ + "\" class=\"label-stat\">TTFT "@ + r.ttft@);
        lemma_concat_associative(("\n    <g class=\"model-row\">\n      <text x=\"30\" y=\""@ + r.y@ + "\" class=\"label-model\">"@ + r.name@ + "</text>\n      <text x=\"30\" y=\""@ + r.desc_y@ + "\" class=\"label-topology\">"@ + r.topology@ + " ["@ + r.quant@ + "]</text>\n      <rect x=\"320\" y=\""@ + r.rect_ttft_y@ + "\" width=\""@ + r.ttft_w@ + "\" height=\"14\" rx=\"3\" fill=\"#7fb8a6\" />\n      <rect x=\"320\" y=\""@ + r.rect_itl_y@ + "\" width=\""@ + r.itl_w@), "\" height=\"14\" rx=\"3\" fill=\"#6ba4d9\" />\n      <text x=\""@ + r.ttft_val_x@ + "\" y=\""@ + r.y_ttft_text@ + "\" class=\"label-stat\">TTFT "@ + r.ttft@, "ms</text>\n      <text x=\""@);
        assert(("\n    <g class=\"model-row\">\n      <text x=\"30\" y=\""@ + r.y@ + "\" class=\"label-model\">"@ + r.name@ + "</text>\n      <text x=\"30\" y=\""@ + r.desc_y@ + "\" class=\"label-topology\">"@ + r.topology@ + " ["@ + r.quant@ + "]</text>\n      <rect x=\"320\" y=\""@ + r.rect_ttft_y@ + "\" width=\""@ + r.ttft_w@ + "\" height=\"14\" rx=\"3\" fill=\"#7fb8a6\" />\n      <rect x=\"320\" y=\""@ + r.rect_itl_y@ + "\" width=\""@ + r.itl_w@) + ("\" height=\"14\" rx=\"3\" fill=\"#6ba4d9\" />\n      <text x=\""@ + r.ttft_val_x@ + "\" y=\""@ + r.y_ttft_text@ + "\" class=\"label-stat\">TTFT "@ + r.ttft@ + "ms</text>\n      <text x=\""@) == "\n    <g class=\"model-row\">\n      <text x=\"30\" y=\""@ + r.y@ + "\" class=\"label-model\">"@ + r.name@ + "</text>\n      <text x=\"30\" y=\""@ + r.desc_y@ + "\" class=\"label-topology\">"@ + r.topology@ + " ["@ + r.quant@ + "]</text>\n      <rect x=\"320\" y=\""@ + r.rect_ttft_y@ + "\" width=\""@ + r.ttft_w@ + "\" height=\"14\" rx=\"3\" fill=\"#7fb8a6\" />\n      <rect x=\"320\" y=\""@ + r.rect_itl_y@ + "\" width=\""@ + r.itl_w@ + "\" height=\"14\" rx=\"3\" fill=\"#6ba4d9\" />\n      <text x=\""@ + r.ttft_val_x@ + "\" y=\""@ + r.y_ttft_text@ + "\" class=\"label-stat\">TTFT "@ + r.ttft@ + "ms</text>\n      <text x=\""@);
        lemma_contains_tail(("\n    <g class=\"model-row\">\n      <text x=\"30\" y=\""@ + r.y@ + "\" class=\"label-model\">"@ + r.name@ + "</text>\n      <text x=\"30\" y=\""@ + r.desc_y@ + "\" class=\"label-topology\">"@ + r.topology@ + " ["@ + r.quant@ + "]</text>\n      <rect x=\"320\" y=\""@ + r.rect_ttft_y@ + "\" width=\""@ + r.ttft_w@ + "\" height=\"14\" rx=\"3\" fill=\"#7fb8a6\" />\n      <rect x=\"320\" y=\""@ + r.rect_itl_y@ + "\" width=\""@ + r.itl_w@), "\" height=\"14\" rx=\"3\" fill=\"#6ba4d9\" />\n      <text x=\""@ + r.ttft_val_x@ + "\" y=\""@ + r.y_ttft_text@ + "\" class=\"label-stat\">TTFT "@ + r.ttft@ + "ms</text>\n      <text x=\""@);
        lemma_contains_extend("\n    <g class=\"model-row\">\n      <text x=\"30\" y=\""@ + r.y@ + "\" class=\"label-model\">"@ + r.name@ + "</text>\n      <text x=\"30\" y=\""@ + r.desc_y@ + "\" class=\"label-topology\">"@ + r.topology@ + " ["@ + r.quant@ + "]</text>\n      <rect x=\"320\" y=\""@ + r.rect_ttft_y@ + "\" width=\""@ + r.ttft_w@ + "\" height=\"14\" rx=\"3\" fill=\"#7fb8a6\" />\n      <rect x=\"320\" y=\""@ + r.rect_itl_y@ + "\" width=\""@ + r.itl_w@ + "\" height=\"14\" rx=\"3\" fill=\"#6ba4d9\" />\n      <text x=\""@ + r.ttft_val_x@ + "\" y=\""@ + r.y_ttft_text@ + "\" class=\"label-stat\">TTFT "@ + r.ttft@ + "ms</text>\n      <text x=\""@, r.itl_val_x@, "\" height=\"14\" rx=\"3\" fill=\"#6ba4d9\" />\n      <text x=\""@ + r.ttft_val_x@ + "\" y=\""@ + r.y_ttft_text@ + "\" class=\"label-stat\">TTFT "@ + r.ttft@ + "ms</text>\n      <text x=\""@);
        lemma_contains_extend("\n    <g class=\"model-row\">\n      <text x=\"30\" y=\""@ + r.y@ + "\" class=\"label-model\">"@ + r.name@ + "</text>\n      <text x=\"30\" y=\""@ + r.desc_y@ + "\" class=\"label-topology\">"@ + r.topology@ + " ["@ + r.quant@ + "]</text>\n      <rect x=\"320\" y=\""@ + r.rect_ttft_y@ + "\" width=\""@ + r.ttft_w@ + "\" height=\"14\" rx=\"3\" fill=\"#7fb8a6\" />\n      <rect x=\"320\" y=\""@ + r.rect_itl_y@ + "\" width=\""@ + r.itl_w@ + "\" height=\"14\" rx=\"3\" fill=\"#6ba4d9\" />\n      <text x=\""@ + r.ttft_val_x@ + "\" y=\""@ + r.y_ttft_text@ + "\" class=\"label-stat\">TTFT "@ + r.ttft@ + "ms</text>\n      <text x=\""@ + r.itl_val_x@, "\" y=\""@, "\" height=\"14\" rx=\"3\" fill=\"#6ba4d9\" />\n      <text x=\""@ + r.ttft_val_x@ + "\" y=\""@ + r.y_ttft_text@ + "\" class=\"label-stat\">TTFT "@ + r.ttft@ + "ms</text>\n      <text x=\""@);
        lemma_contains_extend("\n    <g class=\"model-row\">\n      <text x=\"30\" y=\""@ + r.y@ + "\" class=\"label-model\">"@ + r.name@ + "</text>\n      <text x=\"30\" y=\""@ + r.desc_y@ + "\" class=\"label-topology\">"@ + r.topology@ + " ["@ + r.quant@ + "]</text>\n      <rect x=\"320\" y=\""@ + r.rect_ttft_y@ + "\" width=\""@ + r.ttft_w@ + "\" height=\"14\" rx=\"3\" fill=\"#7fb8a6\" />\n      <rect x=\"320\" y=\""@ + r.rect_itl_y@ + "\" width=\""@ + r.itl_w@ + "\" height=\"14\" rx=\"3\" fill=\"#6ba4d9\" />\n      <text x=\""@ + r.ttft_val_x@ + "\" y=\""@ + r.y_ttft_text@ + "\" class=\"label-stat\">TTFT "@ + r.ttft@ + "ms</text>\n      <text x=\""@ + r.itl_val_x@ + "\" y=\""@, r.y_itl_text@, "\" height=\"14\" rx=\"3\" fill=\"#6ba4d9\" />\n      <text x=\""@ + r.ttft_val_x@ + "\" y=\""@ + r.y_ttft_text@ + "\" class=\"label-stat\">TTFT "@ + r.ttft@ + "ms</text>\n      <text x=\""@);
        lemma_contains_extend("\n    <g class=\"model-row\">\n      <text x=\"30\" y=\""@ + r.y@ + "\" class=\"label-model\">"@ + r.name@ + "</text>\n      <text x=\"30\" y=\""@ + r.desc_y@ + "\" class=\"label-topology\">"@ + r.topology@ + " ["@ + r.quant@ + "]</text>\n      <rect x=\"320\" y=\""@ + r.rect_ttft_y@ + "\" width=\""@ + r.ttft_w@ + "\" height=\"14\" rx=\"3\" fill=\"#7fb8a6\" />\n      <rect x=\"320\" y=\""@ + r.rect_itl_y@ + "\" width=\""@ + r.itl_w@ + "\" height=\"14\" rx=\"3\" fill=\"#6ba4d9\" />\n      <text x=\""@ + r.ttft_val_x@ + "\" y=\""@ + r.y_ttft_text@ + "\" class=\"label-stat\">TTFT "@ + r.ttft@ + "ms</text>\n      <text x=\""@ + r.itl_val_x@ + "\" y=\""@ + r.y_itl_text@, "\" class=\"label-stat\">ITL "@, "\" height=\"14\" rx=\"3\" fill=\"#6ba4d9\" />\n      <text x=\""@ + r.ttft_val_x@ + "\" y=\""@ + r.y_ttft_text@ + "\" class=\"label-stat\">TTFT "@ + r.ttft@ + "ms</text>\n      <text x=\""@);
        lemma_contains_extend("\n    <g class=\"model-row\">\n      <text x=\"30\" y=\""@ + r.y@ + "\" class=\"label-model\">"@ + r.name@ + "</text>\n      <text x=\"30\" y=\""@ + r.desc_y@ + "\" class=\"label-topology\">"@ + r.topology@ + " ["@ + r.quant@ + "]</text>\n      <rect x=\"320\" y=\""@ + r.rect_ttft_y@ + "\" width=\""@ + r.ttft_w@ + "\" height=\"14\" rx=\"3\" fill=\"#7fb8a6\" />\n      <rect x=\"320\" y=\""@ + r.rect_itl_y@ + "\" width=\""@ + r.itl_w@ + "\" height=\"14\" rx=\"3\" fill=\"#6ba4d9\" />\n      <text x=\""@ + r.ttft_val_x@ + "\" y=\""@ + r.y_ttft_text@ + "\" class=\"label-stat\">TTFT "@ + r.ttft@ + "ms</text>\n      <text x=\""@ + r.itl_val_x@ + "\" y=\""@ + r.y_itl_text@ + "\" class=\"label-stat\">ITL "@, r.itl@, "\" height=\"14\" rx=\"3\" fill=\"#6ba4d9\" />\n      <text x=\""@ + r.ttft_val_x@ + "\" y=\""@ + r.y_ttft_text@ + "\" class=\"label-stat\">TTFT "@ + r.ttft@ + "ms</text>\n      <text x=\""@);
        lemma_contains_extend("\n    <g class=\"model-row\">\n      <text x=\"30\" y=\""@ + r.y@ + "\" class=\"label-model\">"@ + r.name@ + "</text>\n      <text x=\"30\" y=\""@ + r.desc_y@ + "\" class=\"label-topology\">"@ + r.topology@ + " ["@ + r.quant@ + "]</text>\n      <rect x=\"320\" y=\""@ + r.rect_ttft_y@ + "\" width=\""@ + r.ttft_w@ + "\" height=\"14\" rx=\"3\" fill=\"#7fb8a6\" />\n      <rect x=\"320\" y=\""@ + r.rect_itl_y@ + "\" width=\""@ + r.itl_w@ + "\" height=\"14\" rx=\"3\" fill=\"#6ba4d9\" />\n      <text x=\""@ + r.ttft_val_x@ + "\" y=\""@ + r.y_ttft_text@ + "\" class=\"label-stat\">TTFT "@ + r.ttft@ + "ms</text>\n      <text x=\""@ + r.itl_val_x@ + "\" y=\""@ + r.y_itl_text@ + "\" class=\"label-stat\">ITL "@ + r.itl@, "ms</text>\n      <text x=\"820\" y=\""@, "\" height=\"14\" rx=\"3\" fill=\"#6ba4d9\" />\n      <text x=\""@ + r.ttft_val_x@ + "\" y=\""@ + r.y_ttft_text@ + "\" class=\"label-stat\">TTFT "@ + r.ttft@ + "ms</text>\n      <text x=\""@);
        lemma_contains_extend("\n    <g class=\"model-row\">\n      <text x=\"30\" y=\""@ + r.y@ + "\" class=\"label-model\">"@ + r.name@ + "</text>\n      <text x=\"30\" y=\""@ + r.desc_y@ + "\" class=\"label-topology\">"@ + r.topology@ + " ["@ + r.quant@ + "]</text>\n      <rect x=\"320\" y=\""@ + r.rect_ttft_y@ + "\" width=\""@ + r.ttft_w@ + "\" height=\"14\" rx=\"3\" fill=\"#7fb8a6\" />\n      <rect x=\"320\" y=\""@ + r.rect_itl_y@ + "\" width=\""@ + r.itl_w@ + "\" height=\"14\" rx=\"3\" fill=\"#6ba4d9\" />\n      <text x=\""@ + r.ttft_val_x@ + "\" y=\""@ + r.y_ttft_text@ + "\" class=\"label-stat\">TTFT "@ + r.ttft@ + "ms</text>\n      <text x=\""@ + r.itl_val_x@ + "\" y=\""@ + r.y_itl_text@ + "\" class=\"label-stat\">ITL "@ + r.itl@ + "ms</text>\n      <text x=\"820\" y=\""@, r.y@, "\" height=\"14\" rx=\"3\" fill=\"#6ba4d9\" />\n      <text x=\""@ + r.ttft_val_x@ + "\" y=\""@ + r.y_ttft_text@ + "\" class=\"label-stat\">TTFT "@ + r.ttft@ + "ms</text>\n      <text x=\""@);
        lemma_contains_extend("\n    <g class=\"model-row\">\n      <text x=\"30\" y=\""@ + r.y@ + "\" class=\"label-model\">"@ + r.name@ + "</text>\n      <text x=\"30\" y=\""@ + r.desc_y@ + "\" class=\"label-topology\">"@ + r.topology@ + " ["@ + r.quant@ + "]</text>\n      <rect x=\"320\" y=\""@ + r.rect_ttft_y@ + "\" width=\""@ + r.ttft_w@ + "\" height=\"14\" rx=\"3\" fill=\"#7fb8a6\" />\n      <rect x=\"320\" y=\""@ + r.rect_itl_y@ + "\" width=\""@ + r.itl_w@ + "\" height=\"14\" rx=\"3\" fill=\"#6ba4d9\" />\n      <text x=\""@ + r.ttft_val_x@ + "\" y=\""@ + r.y_ttft_text@ + "\" class=\"label-stat\">TTFT "@ + r.ttft@ + "ms</text>\n      <text x=\""@ + r.itl_val_x@ + "\" y=\""@ + r.y_itl_text@ + "\" class=\"label-stat\">ITL "@ + r.itl@ + "ms</text>\n      <text x=\"820\" y=\""@ + r.y@, "\" class=\"badge-footprint\">KV: "@, "\" height=\"14\" rx=\"3\" fill=\"#6ba4d9\" />\n      <text x=\""@ + r.ttft_val_x@ + "\" y=\""@ + r.y_ttft_text@ + "\" class=\"label-stat\">TTFT "@ + r.ttft@ + "ms</text>\n      <text x=\""@);
        lemma_contains_extend("\n    <g class=\"model-row\">\n      <text x=\"30\" y=\""@ + r.y@ + "\" class=\"label-model\">"@ + r.name@ + "</text>\n      <text x=\"30\" y=\""@ + r.desc_y@ + "\" class=\"label-topology\">"@ + r.topology@ + " ["@ + r.quant@ + "]</text>\n      <rect x=\"320\" y=\""@ + r.rect_ttft_y@ + "\" width=\""@ + r.ttft_w@ + "\" height=\"14\" rx=\"3\" fill=\"#7fb8a6\" />\n      <rect x=\"320\" y=\""@ + r.rect_itl_y@ + "\" width=\""@ + r.itl_w@ + "\" height=\"14\" rx=\"3\" fill=\"#6ba4d9\" />\n      <text x=\""@ + r.ttft_val_x@ + "\" y=\""@ + r.y_ttft_text@ + "\" class=\"label-stat\">TTFT "@ + r.ttft@ + "ms</text>\n      <text x=\""@ + r.itl_val_x@ + "\" y=\""@ + r.y_itl_text@ + "\" class=\"label-stat\">ITL "@ + r.itl@ + "ms</text>\n      <text x=\"820\" y=\""@ + r.y@ + "\" class=\"badge-footprint\">KV: "@, r.kv@, "\" height=\"14\" rx=\"3\" fill=\"#6ba4d9\" />\n      <text x=\""@ + r.ttft_val_x@ + "\" y=\""@ + r.y_ttft_text@ + "\" class=\"label-stat\">TTFT "@ + r.ttft@ + "ms</text>\n      <text x=\""@);
        lemma_contains_extend("\n    <g class=\"model-row\">\n      <text x=\"30\" y=\""@ + r.y@ + "\" class=\"label-model\">"@ + r.name@ + "</text>\n      <text x=\"30\" y=\""@ + r.desc_y@ + "\" class=\"label-topology\">"@ + r.topology@ + " ["@ + r.quant@ + "]</text>\n      <rect x=\"320\" y=\""@ + r.rect_ttft_y@ + "\" width=\""@ + r.ttft_w@ + "\" height=\"14\" rx=\"3\" fill=\"#7fb8a6\" />\n      <rect x=\"320\" y=\""@ + r.rect_itl_y@ + "\" width=\""@ + r.itl_w@ + "\" height=\"14\" rx=\"3\" fill=\"#6ba4d9\" />\n      <text x=\""@ + r.ttft_val_x@ + "\" y=\""@ + r.y_ttft_text@ + "\" class=\"label-stat\">TTFT "@ + r.ttft@ + "ms</text>\n      <text x=\""@ + r.itl_val_x@ + "\" y=\""@ + r.y_itl_text@ + "\" class=\"label-stat\">ITL "@ + r.itl@ + "ms</text>\n      <text x=\"820\" y=\""@ + r.y@ + "\" class=\"badge-footprint\">KV: "@ + r.kv@, " GB</text>\n      <text x=\"960\" y=\""@, "\" height=\"14\" rx=\"3\" fill=\"#6ba4d9\" />\n      <text x=\""@ + r.ttft_val_x@ + "\" y=\""@ + r.y_ttft_text@ + "\" class=\"label-stat\">TTFT "@ + r.ttft@ + "ms</text>\n      <text x=\""@);
        lemma_contains_extend("\n    <g class=\"model-row\">\n      <text x=\"30\" y=\""@ + r.y@ + "\" class=\"label-model\">"@ + r.name@ + "</text>\n      <text x=\"30\" y=\""@ + r.desc_y@ + "\" class=\"label-topology\">"@ + r.topology@ + " ["@ + r.quant@ + "]</text>\n      <rect x=\"320\" y=\""@ + r.rect_ttft_y@ + "\" width=\""@ + r.ttft_w@ + "\" height=\"14\" rx=\"3\" fill=\"#7fb8a6\" />\n      <rect x=\"320\" y=\""@ + r.rect_itl_y@ + "\" width=\""@ + r.itl_w@ + "\" height=\"14\" rx=\"3\" fill=\"#6ba4d9\" />\n      <text x=\""@ + r.ttft_val_x@ + "\" y=\""@ + r.y_ttft_text@ + "\" class=\"label-stat\">TTFT "@ + r.ttft@ + "ms</text>\n      <text x=\""@ + r.itl_val_x@ + "\" y=\""@ + r.y_itl_text@ + "\" class=\"label-stat\">ITL "@ + r.itl@ + "ms</text>\n      <text x=\"820\" y=\""@ + r.y@ + "\" class=\"badge-footprint\">KV: "@ + r.kv@ + " GB</text>\n      <text x=\"960\" y=\""@, r.y@, "\" height=\"14\" rx=\"3\" fill=\"#6ba4d9\" />\n      <text x=\""@ + r.ttft_val_x@ + "\" y=\""@ + r.y_ttft_text@ + "\" class=\"label-stat\">TTFT "@ + r.ttft@ + "ms</text>\n      <text x=\""@);
        lemma_contains_extend("\n    <g class=\"model-row\">\n      <text x=\"30\" y=\""@ + r.y@ + "\" class=\"label-model\">"@ + r.name@ + "</text>\n      <text x=\"30\" y=\""@ + r.desc_y@ + "\" class=\"label-topology\">"@ + r.topology@ + " ["@ + r.quant@ + "]</text>\n      <rect x=\"320\" y=\""@ + r.rect_ttft_y@ + "\" width=\""@ + r.ttft_w@ + "\" height=\"14\" rx=\"3\" fill=\"#7fb8a6\" />\n      <rect x=\"320\" y=\""@ + r.rect_itl_y@ + "\" width=\""@ + r.itl_w@ + "\" height=\"14\" rx=\"3\" fill=\"#6ba4d9\" />\n      <text x=\""@ + r.ttft_val_x@ + "\" y=\""@ + r.y_ttft_text@ + "\" class=\"label-stat\">TTFT "@ + r.ttft@ + "ms</text>\n      <text x=\""@ + r.itl_val_x@ + "\" y=\""@ + r.y_itl_text@ + "\" class=\"label-stat\">ITL "@ + r.itl@ + "ms</text>\n      <text x=\"820\" y=\""@ + r.y@ + "\" class=\"badge-footprint\">KV: "@ + r.kv@ + " GB</text>\n      <text x=\"960\" y=\""@ + r.y@, "\" class=\"badge-status\">"@, "\" height=\"14\" rx=\"3\" fill=\"#6ba4d9\" />\n      <text x=\""@ + r.ttft_val_x@ + "\" y=\""@ + r.y_ttft_text@ + "\" class=\"label-stat\">TTFT "@ + r.ttft@ + "ms</text>\n      <text x=\""@);
        lemma_contains_extend("\n    <g class=\"model-row\">\n      <text x=\"30\" y=\""@ + r.y@ + "\" class=\"label-model\">"@ + r.name@ + "</text>\n      <text x=\"30\" y=\""@ + r.desc_y@ + "\" class=\"label-topology\">"@ + r.topology@ + " ["@ + r.quant@ + "]</text>\n      <rect x=\"320\" y=\""@ + r.rect_ttft_y@ + "\" width=\""@ + r.ttft_w@ + "\" height=\"14\" rx=\"3\" fill=\"#7fb8a6\" />\n      <rect x=\"320\" y=\""@ + r.rect_itl_y@ + "\" width=\""@ + r.itl_w@ + "\" height=\"14\" rx=\"3\" fill=\"#6ba4d9\" />\n      <text x=\""@ + r.ttft_val_x@ + "\" y=\""@ + r.y_ttft_text@ + "\" class=\"label-stat\">TTFT "@ + r.ttft@ + "ms</text>\n      <text x=\""@ + r.itl_val_x@ + "\" y=\""@ + r.y_itl_text@ + "\" class=\"label-stat\">ITL "@ + r.itl@ + "ms</text>\n      <text x=\"820\" y=\""@ + r.y@ + "\" class=\"badge-footprint\">KV: "@ + r.kv@ + " GB</text>\n      <text x=\"960\" y=\""@ + r.y@ + "\" class=\"badge-status\">"@, r.status@, "\" height=\"14\" rx=\"3\" fill=\"#6ba4d9\" />\n      <text x=\""@ + r.ttft_val_x@ + "\" y=\""@ + r.y_ttft_text@ + "\" class=\"label-stat\">TTFT "@ + r.ttft@ + "ms</text>\n      <text x=\""@);
        lemma_contains_extend("\n    <g class=\"model-row\">\n      <text x=\"30\" y=\""@ + r.y@ + "\" class=\"label-model\">"@ + r.name@ + "</text>\n      <text x=\"30\" y=\""@ + r.desc_y@ + "\" class=\"label-topology\">"@ + r.topology@ + " ["@ + r.quant@ + "]</text>\n      <rect x=\"320\" y=\""@ + r.rect_ttft_y@ + "\" width=\""@ + r.ttft_w@ + "\" height=\"14\" rx=\"3\" fill=\"#7fb8a6\" />\n      <rect x=\"320\" y=\""@ + r.rect_itl_y@ + "\" width=\""@ + r.itl_w@ + "\" height=\"14\" rx=\"3\" fill=\"#6ba4d9\" />\n      <text x=\""@ + r.ttft_val_x@ + "\" y=\""@ + r.y_ttft_text@ + "\" class=\"label-stat\">TTFT "@ + r.ttft@ + "ms</text>\n      <text x=\""@ + r.itl_val_x@ + "\" y=\""@ + r.y_itl_text@ + "\" class=\"label-stat\">ITL "@ + r.itl@ + "ms</text>\n      <text x=\"820\" y=\""@ + r.y@ + "\" class=\"badge-footprint\">KV: "@ + r.kv@ + " GB</text>\n      <text x=\"960\" y=\""@ + r.y@ + "\" class=\"badge-status\">"@ + r.status@, "</text>\n    </g>"@, "\" height=\"14\" rx=\"3\" fill=\"#6ba4d9\" />\n      <text x=\""@ + r.ttft_val_x@ + "\" y=\""@ + r.y_ttft_text@ + "\" class=\"label-stat\">TTFT "@ + r.ttft@ + "ms</text>\n      <text x=\""@);
    }
    assert(contains_seq(multi_model_row_text(r), "ms</text>\n      <text x=\""@ + r.itl_val_x@ + "\" y=\""@ + r.y_itl_text@ + "\" class=\"label-stat\">ITL "@ + r.itl@ + "ms</text>\n      <text x=\"820\" y=\""@)) by {
        lemma_concat_associative(("\n    <g class=\"model-row\">\n      <text x=\"30\" y=\""@ + r.y@ + "\" class=\"label-model\">"@ + r.name@ + "</text>\n      <text x=\"30\" y=\""@ + r.desc_y@ + "\" class=\"label-topology\">"@ + r.topology@ + " ["@ + r.quant@ + "]</text>\n      <rect x=\"320\" y=\""@ + r.rect_ttft_y@ + "\" width=\""@ + r.ttft_w@ + "\" height=\"14\" rx=\"3\" fill=\"#7fb8a6\" />\n      <rect x=\"320\" y=\""@ + r.rect_itl_y@ + "\" width=\""@ + r.itl_w@ + "\" height=\"14\" rx=\"3\" fill=\"#6ba4d9\" />\n      <text x=\""@ + r.ttft_val_x@ + "\" y=\""@ + r.y_ttft_text@ + "\" class=\"label-stat\">TTFT "@ + r.ttft@), "ms</text>\n      <text x=\""@, r.itl_val_x@);
        assert(("\n    <g class=\"model-row\">\n      <text x=\"30\" y=\""@ + r.y@ + "\" class=\"label-model\">"@ + r.name@ + "</text>\n      <text x=\"30\" y=\""@ + r.desc_y@ + "\" class=\"label-topology\">"@ + r.topology@ + " ["@ + r.quant@ + "]</text>\n      <rect x=\"320\" y=\""@ + r.rect_ttft_y@ + "\" width=\""@ + r.ttft_w@ + "\" height=\"14\" rx=\"3\" fill=\"#7fb8a6\" />\n      <rect x=\"320\" y=\""@ + r.rect_itl_y@ + "\" width=\""@ + r.itl_w@ + "\" height=\"14\" rx=\"3\" fill=\"#6ba4d9\" />\n      <text x=\""@ + r.ttft_val_x@ + "\" y=\""@ + r.y_ttft_text@ + "\" class=\"label-stat\">TTFT "@ + r.ttft@) + ("ms</text>\n      <text x=\""@ + r.itl_val_x@) == "\n    <g class=\"model-row\">\n      <text x=\"30\" y=\""@ + r.y@ + "\" class=\"label-model\">"@ + r.name@ + "</text>\n      <text x=\"30\" y=\""@ + r.desc_y@ + "\" class=\"label-topology\">"@ + r.topology@ + " ["@ + r.quant@ + "]</text>\n      <rect x=\"320\" y=\""@ + r.rect_ttft_y@ + "\" width=\""@ + r.ttft_w@ + "\" height=\"14\" rx=\"3\" fill=\"#7fb8a6\" />\n      <rect x=\"320\" y=\""@ + r.rect_itl_y@ + "\" width=\""@ + r.itl_w@ + "\" height=\"14\" rx=\"3\" fill=\"#6ba4d9\" />\n      <text x=\""@ + r.ttft_val_x@ + "\" y=\""@ + r.y_ttft_text@ + "\" class=\"label-stat\">TTFT "@ + r.ttft@ + "ms</text>\n      <text x=\""@ + r.itl_val_x@);
        lemma_concat_associative(("\n    <g class=\"model-row\">\n      <text x=\"30\" y=\""@ + r.y@ + "\" class=\"label-model\">"@ + r.name@ + "</text>\n      <text x=\"30\" y=\""@ + r.desc_y@ + "\" class=\"label-topology\">"@ + r.topology@ + " ["@ + r.quant@ + "]</text>\n      <rect x=\"320\" y=\""@ + r.rect_ttft_y@ + "\" width=\""@ + r.ttft_w@ + "\" height=\"14\" rx=\"3\" fill=\"#7fb8a6\" />\n      <rect x=\"320\" y=\""@ + r.rect_itl_y@ + "\" width=\""@ + r.itl_w@ + "\" height=\"14\" rx=\"3\" fill=\"#6ba4d9\" />\n      <text x=\""@ + r.ttft_val_x@ + "\" y=\""@ + r.y_ttft_text@ + "\" class=\"label-stat\">TTFT "@ + r.ttft@), "ms</text>\n      <text x=\""@ + r.itl_val_x@, "\" y=\""@);
        assert(("\n    <g class=\"model-row\">\n      <text x=\"30\" y=\""@ + r.y@ + "\" class=\"label-model\">"@ + r.name@ + "</text>\n      <text x=\"30\" y=\""@ + r.desc_y@ + "\" class=\"label-topology\">"@ + r.topology@ + " ["@ + r.quant@ + "]</text>\n      <rect x=\"320\" y=\""@ + r.rect_ttft_y@ + "\" width=\""@ + r.ttft_w@ + "\" height=\"14\" rx=\"3\" fill=\"#7fb8a6\" />\n      <rect x=\"320\" y=\""@ + r.rect_itl_y@ + "\" width=\""@ + r.itl_w@ + "\" height=\"14\" rx=\"3\" fill=\"#6ba4d9\" />\n      <text x=\""@ + r.ttft_val_x@ + "\" y=\""@ + r.y_ttft_text@ + "\" class=\"label-stat\">TTFT "@ + r.ttft@) + ("ms</text>\n      <text x=\""@ + r.itl_val_x@ + "\" y=\""@) == "\n    <g class=\"model-row\">\n      <text x=\"30\" y=\""@ + r.y@ + "\" class=\"label-model\">"@ + r.name@ + "</text>\n      <text x=\"30\" y=\""@ + r.desc_y@ + "\" class=\"label-topology\">"@ + r.topology@ + " ["@ + r.quant@ + "]</text>\n      <rect x=\"320\" y=\""@ + r.rect_ttft_y@ + "\" width=\""@ + r.ttft_w@ + "\" height=\"14\" rx=\"3\" fill=\"#7fb8a6\" />\n      <rect x=\"320\" y=\""@ + r.rect_itl_y@ + "\" width=\""@ + r.itl_w@ + "\" height=\"14\" rx=\"3\" fill=\"#6ba4d9\" />\n      <text x=\""@ + r.ttft_val_x@ + "\" y=\""@ + r.y_ttft_text@ + "\" class=\"label-stat\">TTFT "@ + r.ttft@ + "ms</text>\n      <text x=\""@ + r.itl_val_x@ + "\" y=\""@);
        lemma_concat_associative(("\n    <g class=\"model-row\">\n      <text x=\"30\" y=\""@ + r.y@ + "\" class=\"label-model\">"@ + r.name@ + "</text>\n      <text x=\"30\" y=\""@ + r.desc_y@ + "\" class=\"label-topology\">"@ + r.topology@ + " ["@ + r.quant@ + "]</text>\n      <rect x=\"320\" y=\""@ + r.rect_ttft_y@ + "\" width=\""@ + r.ttft_w@ + "\" height=\"14\" rx=\"3\" fill=\"#7fb8a6\" />\n      <rect x=\"320\" y=\""@ + r.rect_itl_y@ + "\" width=\""@ + r.itl_w@ + "\" height=\"14\" rx=\"3\" fill=\"#6ba4d9\" />\n      <text x=\""@ + r.ttft_val_x@ + "\" y=\""@ + r.y_ttft_text@ + "\" class=\"label-stat\">TTFT "@ + r.ttft@), "ms</text>\n      <text x=\""@ + r.itl_val_x@ + "\" y=\""@, r.y_itl_text@);
        assert(("\n    <g class=\"model-row\">\n      <text x=\"30\" y=\""@ + r.y@ + "\" class=\"label-model\">"@ + r.name@ + "</text>\n      <text x=\"30\" y=\""@ + r.desc_y@ + "\" class=\"label-topology\">"@ + r.topology@ + " ["@ + r.quant@ + "]</text>\n      <rect x=\"320\" y=\""@ + r.rect_ttft_y@ + "\" width=\""@ + r.ttft_w@ + "\" height=\"14\" rx=\"3\" fill=\"#7fb8a6\" />\n      <rect x=\"320\" y=\""@ + r.rect_itl_y@ + "\" width=\""@ + r.itl_w@ + "\" height=\"14\" rx=\"3\" fill=\"#6ba4d9\" />\n      <text x=\""@ + r.ttft_val_x@ + "\" y=\""@ + r.y_ttft_text@ + "\" class=\"label-stat\">TTFT "@ + r.ttft@) + ("ms</text>\n      <text x=\""@ + r.itl_val_x@ + "\" y=\""@ + r.y_itl_text@) == "\n    <g class=\"model-row\">\n      <text x=\"30\" y=\""@ + r.y@ + "\" class=\"label-model\">"@ + r.name@ + "</text>\n      <text x=\"30\" y=\""@ + r.desc_y@ + "\" class=\"label-topology\">"@ + r.topology@ + " ["@ + r.quant@ + "]</text>\n      <rect x=\"320\" y=\""@ + r.rect_ttft_y@ + "\" width=\""@ + r.ttft_w@ + "\" height=\"14\" rx=\"3\" fill=\"#7fb8a6\" />\n      <rect x=\"320\" y=\""@ + r.rect_itl_y@ + "\" width=\""@ + r.itl_w@ + "\" height=\"14\" rx=\"3\" fill=\"#6ba4d9\" />\n      <text x=\""@ + r.ttft_val_x@ + "\" y=\""@ + r.y_ttft_text@ + "\" class=\"label-stat\">TTFT "@ + r.ttft@ + "ms</text>\n      <text x=\""@ + r.itl_val_x@ + "\" y=\""@ + r.y_itl_text@);
        lemma_concat_associative(("\n    <g class=\"model-row\">\n      <text x=\"30\" y=\""@ + r.y@ + "\" class=\"label-model\">"@ + r.name@ + "</text>\n      <text x=\"30\" y=\""@ + r.desc_y@ + "\" class=\"label-topology\">"@ + r.topology@ + " ["@ + r.quant@ + "]</text>\n      <rect x=\"320\" y=\""@ + r.rect_ttft_y@ + "\" width=\""@ + r.ttft_w@ + "\" height=\"14\" rx=\"3\" fill=\"#7fb8a6\" />\n      <rect x=\"320\" y=\""@ + r.rect_itl_y@ + "\" width=\""@ + r.itl_w@ + "\" height=\"14\" rx=\"3\" fill=\"#6ba4d9\" />\n      <text x=\""@ + r.ttft_val_x@ + "\" y=\""@ + r.y_ttft_text@ + "\" class=\"label-stat\">TTFT "@ + r.ttft@), "ms</text>\n      <text x=\""@ + r.itl_val_x@ + "\" y=\""@ + r.y_itl_text@, "\" class=\"label-stat\">ITL "@);
        assert(("\n    <g class=\"model-row\">\n      <text x=\"30\" y=\""@ + r.y@ + "\" class=\"label-model\">"@ + r.name@ + "</text>\n      <text x=\"30\" y=\""@ + r.desc_y@ + "\" class=\"label-topology\">"@ + r.topology@ + " ["@ + r.quant@ + "]</text>\n      <rect x=\"320\" y=\""@ + r.rect_ttft_y@ + "\" width=\""@ + r.ttft_w@ + "\" height=\"14\" rx=\"3\" fill=\"#7fb8a6\" />\n      <rect x=\"320\" y=\""@ + r.rect_itl_y@ + "\" width=\""@ + r.itl_w@ + "\" height=\"14\" rx=\"3\" fill=\"#6ba4d9\" />\n      <text x=\""@ + r.ttft_val_x@ + "\" y=\""@ + r.y_ttft_text@ + "\" class=\"label-stat\">TTFT "@ + r.ttft@) + ("ms</text>\n      <text x=\""@ + r.itl_val_x@ + "\" y=\""@ + r.y_itl_text@ + "\" class=\"label-stat\">ITL "@) == "\n    <g class=\"model-row\">\n      <text x=\"30\" y=\""@ + r.y@ + "\" class=\"label-model\">"@ + r.name@ + "</text>\n      <text x=\"30\" y=\""@ + r.desc_y@ + "\" class=\"label-topology\">"@ + r.topology@ + " ["@ + r.quant@ + "]</text>\n      <rect x=\"320\" y=\""@ + r.rect_ttft_y@ + "\" width=\""@ + r.ttft_w@ + "\" height=\"14\" rx=\"3\" fill=\"#7fb8a6\" />\n      <rect x=\"320\" y=\""@ + r.rect_itl_y@ + "\" width=\""@ + r.itl_w@ + "\" height=\"14\" rx=\"3\" fill=\"#6ba4d9\" />\n      <text x=\""@ + r.ttft_val_x@ + "\" y=\""@ + r.y_ttft_text@ + "\" class=\"label-stat\">TTFT "@ + r.ttft@ + "ms</text>\n      <text x=\""@ + r.itl_val_x@ + "\" y=\""@ + r.y_itl_text@ + "\" class=\"label-stat\">ITL "@);
        lemma_concat_associative(("\n    <g class=\"model-row\">\n      <text x=\"30\" y=\""@ + r.y@ + "\" class=\"label-model\">"@ + r.name@ + "</text>\n      <text x=\"30\" y=\""@ + r.desc_y@ + "\" class=\"label-topology\">"@ + r.topology@ + " ["@ + r.quant@ + "]</text>\n      <rect x=\"320\" y=\""@ + r.rect_ttft_y@ + "\" width=\""@ + r.ttft_w@ + "\" height=\"14\" rx=\"3\" fill=\"#7fb8a6\" />\n      <rect x=\"320\" y=\""@ + r.rect_itl_y@ + "\" width=\""@ + r.itl_w@ + "\" height=\"14\" rx=\"3\" fill=\"#6ba4d9\" />\n      <text x=\""@ + r.ttft_val_x@ + "\" y=\""@ + r.y_ttft_text@ + "\" class=\"label-stat\">TTFT "@ + r.ttft@), "ms</text>\n      <text x=\""@ + r.itl_val_x@ + "\" y=\""@ + r.y_itl_text@ + "\" class=\"label-stat\">ITL "@, r.itl@);
        assert(("\n    <g class=\"model-row\">\n      <text x=\"30\" y=\""@ + r.y@ + "\" class=\"label-model\">"@ + r.name@ + "</text>\n      <text x=\"30\" y=\""@ + r.desc_y@ + "\" class=\"label-topology\">"@ + r.topology@ + " ["@ + r.quant@ + "]</text>\n      <rect x=\"320\" y=\""@ + r.rect_ttft_y@ + "\" width=\""@ + r.ttft_w@ + "\" height=\"14\" rx=\"3\" fill=\"#7fb8a6\" />\n      <rect x=\"320\" y=\""@ + r.rect_itl_y@ + "\" width=\""@ + r.itl_w@ + "\" height=\"14\" rx=\"3\" fill=\"#6ba4d9\" />\n      <text x=\""@ + r.ttft_val_x@ + "\" y=\""@ + r.y_ttft_text@ + "\" class=\"label-stat\">TTFT "@ + r.ttft@) + ("ms</text>\n      <text x=\""@ + r.itl_val_x@ + "\" y=\""@ + r.y_itl_text@ + "\" class=\"label-stat\">ITL "@ + r.itl@) == "\n    <g class=\"model-row\">\n      <text x=\"30\" y=\""@ + r.y@ + "\" class=\"label-model\">"@ + r.name@ + "</text>\n      <text x=\"30\" y=\""@ + r.desc_y@ + "\" class=\"label-topology\">"@ + r.topology@ + " ["@ + r.quant@ + "]</text>\n      <rect x=\"320\" y=\""@ + r.rect_ttft_y@ + "\" width=\""@ + r.ttft_w@ + "\" height=\"14\" rx=\"3\" fill=\"#7fb8a6\" />\n      <rect x=\"320\" y=\""@ + r.rect_itl_y@ + "\" width=\""@ + r.itl_w@ + "\" height=\"14\" rx=\"3\" fill=\"#6ba4d9\" />\n      <text x=\""@ + r.ttft_val_x@ + "\" y=\""@ + r.y_ttft_text@ + "\" class=\"label-stat\">TTFT "@ + r.ttft@ + "ms</text>\n      <text x=\""@ + r.itl_val_x@ + "\" y=\""@ + r.y_itl_text@ + "\" class=\"label-stat\">ITL "@ + r.itl@);
        lemma_concat_associative(("\n    <g class=\"model-row\">\n      <text x=\"30\" y=\""@ + r.y@ + "\" class=\"label-model\">"@ + r.name@ + "</text>\n      <text x=\"30\" y=\""@ + r.desc_y@ + "\" class=\"label-topology\">"@ + r.topology@ + " ["@ + r.quant@ + "]</text>\n      <rect x=\"320\" y=\""@ + r.rect_ttft_y@ + "\" width=\""@ + r.ttft_w@ + "\" height=\"14\" rx=\"3\" fill=\"#7fb8a6\" />\n      <rect x=\"320\" y=\""@ + r.rect_itl_y@ + "\" width=\""@ + r.itl_w@ + "\" height=\"14\" rx=\"3\" fill=\"#6ba4d9\" />\n      <text x=\""@ + r.ttft_val_x@ + "\" y=\""@ + r.y_ttft_text@ + "\" class=\"label-stat\">TTFT "@ + r.ttft@), "ms</text>\n      <text x=\""@ + r.itl_val_x@ + "\" y=\""@ + r.y_itl_text@ + "\" class=\"label-stat\">ITL "@ + r.itl@, "ms</text>\n      <text x=\"820\" y=\""@);
        assert(("\n    <g class=\"model-row\">\n      <text x=\"30\" y=\""@ + r.y@ + "\" class=\"label-model\">"@ + r.name@ + "</text>\n      <text x=\"30\" y=\""@ + r.desc_y@ + "\" class=\"label-topology\">"@ + r.topology@ + " ["@ + r.quant@ + "]</text>\n      <rect x=\"320\" y=\""@ + r.rect_ttft_y@ + "\" width=\""@ + r.ttft_w@ + "\" height=\"14\" rx=\"3\" fill=\"#7fb8a6\" />\n      <rect x=\"320\" y=\""@ + r.rect_itl_y@ + "\" width=\""@ + r.itl_w@ + "\" height=\"14\" rx=\"3\" fill=\"#6ba4d9\" />\n      <text x=\""@ + r.ttft_val_x@ + "\" y=\""@ + r.y_ttft_text@ + "\" class=\"label-stat\">TTFT "@ + r.ttft@) + ("ms</text>\n      <text x=\""@ + r.itl_val_x@ + "\" y=\""@ + r.y_itl_text@ + "\" class=\"label-stat\">ITL "@ + r.itl@ + "ms</text>\n      <text x=\"820\" y=\""@) == "\n    <g class=\"model-row\">\n      <text x=\"30\" y=\""@ + r.y@ + "\" class=\"label-model\">"@ + r.name@ + "</text>\n      <text x=\"30\" y=\""@ + r.desc_y@ + "\" class=\"label-topology\">"@ + r.topology@ + " ["@ + r.quant@ + "]</text>\n      <rect x=\"320\" y=\""@ + r.rect_ttft_y@ + "\" width=\""@ + r.ttft_w@ + "\" height=\"14\" rx=\"3\" fill=\"#7fb8a6\" />\n      <rect x=\"320\" y=\""@ + r.rect_itl_y@ + "\" width=\""@ + r.itl_w@ + "\" height=\"14\" rx=\"3\" fill=\"#6ba4d9\" />\n      <text x=\""@ + r.ttft_val_x@ + "\" y=\""@ + r.y_ttft_text@ + "\" class=\"label-stat\">TTFT "@ + r.ttft@ + "ms</text>\n      <text x=\""@ + r.itl_val_x@ + "\" y=\""@ + r.y_itl_text@ + "\" class=\"label-stat\">ITL "@ + r.itl@ + "ms</text>\n      <text x=\"820\" y=\""@);
        lemma_contains_tail(("\n    <g class=\"model-row\">\n      <text x=\"30\" y=\""@ + r.y@ + "\" class=\"label-model\">"@ + r.name@ + "</text>\n      <text x=\"30\" y=\""@ + r.desc_y@ + "\" class=\"label-topology\">"@ + r.topology@ + " ["@ + r.quant@ + "]</text>\n      <rect x=\"320\" y=\""@ + r.rect_ttft_y@ + "\" width=\""@ + r.ttft_w@ + "\" height=\"14\" rx=\"3\" fill=\"#7fb8a6\" />\n      <rect x=\"320\" y=\""@ + r.rect_itl_y@ + "\" width=\""@ + r.itl_w@ + "\" height=\"14\" rx=\"3\" fill=\"#6ba4d9\" />\n      <text x=\""@ + r.ttft_val_x@ + "\" y=\""@ + r.y_ttft_text@ + "\" class=\"label-stat\">TTFT "@ + r.ttft@), "ms</text>\n      <text x=\""@ + r.itl_val_x@ + "\" y=\""@ + r.y_itl_text@ + "\" class=\"label-stat\">ITL "@ + r.itl@ + "ms</text>\n      <text x=\"820\" y=\""@);
        lemma_contains_extend("\n    <g class=\"model-row\">\n      <text x=\"30\" y=\""@ + r.y@ + "\" class=\"label-model\">"@ + r.name@ + "</text>\n      <text x=\"30\" y=\""@ + r.desc_y@ + "\" class=\"label-topology\">"@ + r.topology@ + " ["@ + r.quant@ + "]</text>\n      <rect x=\"320\" y=\""@ + r.rect_ttft_y@ + "\" width=\""@ + r.ttft_w@ + "\" height=\"14\" rx=\"3\" fill=\"#7fb8a6\" />\n      <rect x=\"320\" y=\""@ + r.rect_itl_y@ + "\" width=\""@ + r.itl_w@ + "\" height=\"14\" rx=\"3\" fill=\"#6ba4d9\" />\n      <text x=\""@ + r.ttft_val_x@ + "\" y=\""@ + r.y_ttft_text@ + "\" class=\"label-stat\">TTFT "@ + r.ttft@ + "ms</text>\n      <text x=\""@ + r.itl_val_x@ + "\" y=\""@ + r.y_itl_text@ + "\" class=\"label-stat\">ITL "@ + r.itl@ + "ms</text>\n      <text x=\"820\" y=\""@, r.y@, "ms</text>\n      <text x=\""@ + r.itl_val_x@ + "\" y=\""@ + r.y_itl_text@ + "\" class=\"label-stat\">ITL "@ + r.itl@ + "ms</text>\n      <text x=\"820\" y=\""@);
        lemma_contains_extend("\n    <g class=\"model-row\">\n      <text x=\"30\" y=\""@ + r.y@ + "\" class=\"label-model\">"@ + r.name@ + "</text>\n      <text x=\"30\" y=\""@ + r.desc_y@ + "\" class=\"label-topology\">"@ + r.topology@ + " ["@ + r.quant@ + "]</text>\n      <rect x=\"320\" y=\""@ + r.rect_ttft_y@ + "\" width=\""@ + r.ttft_w@ + "\" height=\"14\" rx=\"3\" fill=\"#7fb8a6\" />\n      <rect x=\"320\" y=\""@ + r.rect_itl_y@ + "\" width=\""@ + r.itl_w@ + "\" height=\"14\" rx=\"3\" fill=\"#6ba4d9\" />\n      <text x=\""@ + r.ttft_val_x@ + "\" y=\""@ + r.y_ttft_text@ + "\" class=\"label-stat\">TTFT "@ + r.ttft@ + "ms</text>\n      <text x=\""@ + r.itl_val_x@ + "\" y=\""@ + r.y_itl_text@ + "\" class=\"label-stat\">ITL "@ + r.itl@ + "ms</text>\n      <text x=\"820\" y=\""@ + r.y@, "\" class=\"badge-footprint\">KV: "@, "ms</text>\n      <text x=\""@ + r.itl_val_x@ + "\" y=\""@ + r.y_itl_text@ + "\" class=\"label-stat\">ITL "@ + r.itl@ + "ms</text>\n      <text x=\"820\" y=\""@);
        lemma_contains_extend("\n    <g class=\"model-row\">\n      <text x=\"30\" y=\""@ + r.y@ + "\" class=\"label-model\">"@ + r.name@ + "</text>\n      <text x=\"30\" y=\""@ + r.desc_y@ + "\" class=\"label-topology\">"@ + r.topology@ + " ["@ + r.quant@ + "]</text>\n      <rect x=\"320\" y=\""@ + r.rect_ttft_y@ + "\" width=\""@ + r.ttft_w@ + "\" height=\"14\" rx=\"3\" fill=\"#7fb8a6\" />\n      <rect x=\"320\" y=\""@ + r.rect_itl_y@ + "\" width=\""@ + r.itl_w@ + "\" height=\"14\" rx=\"3\" fill=\"#6ba4d9\" />\n      <text x=\""@ + r.ttft_val_x@ + "\" y=\""@ + r.y_ttft_text@ + "\" class=\"label-stat\">TTFT "@ + r.ttft@ + "ms</text>\n      <text x=\""@ + r.itl_val_x@ + "\" y=\""@ + r.y_itl_text@ + "\" class=\"label-stat\">ITL "@ + r.itl@ + "ms</text>\n      <text x=\"820\" y=\""@ + r.y@ + "\" class=\"badge-footprint\">KV: "@, r.kv@, "ms</text>\n      <text x=\""@ + r.itl_val_x@ + "\" y=\""@ + r.y_itl_text@ + "\" class=\"label-stat\">ITL "@ + r.itl@ + "ms</text>\n      <text x=\"820\" y=\""@);
        lemma_contains_extend("\n    <g class=\"model-row\">\n      <text x=\"30\" y=\""@ + r.y@ + "\" class=\"label-model\">"@ + r.name@ + "</text>\n      <text x=\"30\" y=\""@ + r.desc_y@ + "\" class=\"label-topology\">"@ + r.topology@ + " ["@ + r.quant@ + "]</text>\n      <rect x=\"320\" y=\""@ + r.rect_ttft_y@ + "\" width=\""@ + r.ttft_w@ + "\" height=\"14\" rx=\"3\" fill=\"#7fb8a6\" />\n      <rect x=\"320\" y=\""@ + r.rect_itl_y@ + "\" width=\""@ + r.itl_w@ + "\" height=\"14\" rx=\"3\" fill=\"#6ba4d9\" />\n      <text x=\""@ + r.ttft_val_x@ + "\" y=\""@ + r.y_ttft_text@ + "\" class=\"label-stat\">TTFT "@ + r.ttft@ + "ms</text>\n      <text x=\""@ + r.itl_val_x@ + "\" y=\""@ + r.y_itl_text@ + "\" class=\"label-stat\">ITL "@ + r.itl@ + "ms</text>\n      <text x=\"820\" y=\""@ + r.y@ + "\" class=\"badge-footprint\">KV: "@ + r.kv@, " GB</text>\n      <text x=\"960\" y=\""@, "ms</text>\n      <text x=\""@ + r.itl_val_x@ + "\" y=\""@ + r.y_itl_text@ + "\" class=\"label-stat\">ITL "@ + r.itl@ + "ms</text>\n      <text x=\"820\" y=\""@);
        lemma_contains_extend("\n    <g class=\"model-row\">\n      <text x=\"30\" y=\""@ + r.y@ + "\" class=\"label-model\">"@ + r.name@ + "</text>\n      <text x=\"30\" y=\""@ + r.desc_y@ + "\" class=\"label-topology\">"@ + r.topology@ + " ["@ + r.quant@ + "]</text>\n      <rect x=\"320\" y=\""@ + r.rect_ttft_y@ + "\" width=\""@ + r.ttft_w@ + "\" height=\"14\" rx=\"3\" fill=\"#7fb8a6\" />\n      <rect x=\"320\" y=\""@ + r.rect_itl_y@ + "\" width=\""@ + r.itl_w@ + "\" height=\"14\" rx=\"3\" fill=\"#6ba4d9\" />\n      <text x=\""@ + r.ttft_val_x@ + "\" y=\""@ + r.y_ttft_text@ + "\" class=\"label-stat\">TTFT "@ + r.ttft@ + "ms</text>\n      <text x=\""@ + r.itl_val_x@ + "\" y=\""@ + r.y_itl_text@ + "\" class=\"label-stat\">ITL "@ + r.itl@ + "ms</text>\n      <text x=\"820\" y=\""@ + r.y@ + "\" class=\"badge-footprint\">KV: "@ + r.kv@ + " GB</text>\n      <text x=\"960\" y=\""@, r.y@, "ms</text>\n      <text x=\""@ + r.itl_val_x@ + "\" y=\""@ + r.y_itl_text@ + "\" class=\"label-stat\">ITL "@ + r.itl@ + "ms</text>\n      <text x=\"820\" y=\""@);
        lemma_contains_extend("\n    <g class=\"model-row\">\n      <text x=\"30\" y=\""@ + r.y@ + "\" class=\"label-model\">"@ + r.name@ + "</text>\n      <text x=\"30\" y=\""@ + r.desc_y@ + "\" class=\"label-topology\">"@ + r.topology@ + " ["@ + r.quant@ + "]</text>\n      <rect x=\"320\" y=\""@ + r.rect_ttft_y@ + "\" width=\""@ + r.ttft_w@ + "\" height=\"14\" rx=\"3\" fill=\"#7fb8a6\" />\n      <rect x=\"320\" y=\""@ + r.rect_itl_y@ + "\" width=\""@ + r.itl_w@ + "\" height=\"14\" rx=\"3\" fill=\"#6ba4d9\" />\n      <text x=\""@ + r.ttft_val_x@ + "\" y=\""@ + r.y_ttft_text@ + "\" class=\"label-stat\">TTFT "@ + r.ttft@ + "ms</text>\n      <text x=\""@ + r.itl_val_x@ + "\" y=\""@ + r.y_itl_text@ + "\" class=\"label-stat\">ITL "@ + r.itl@ + "ms</text>\n      <text x=\"820\" y=\""@ + r.y@ + "\" class=\"badge-footprint\">KV: "@ + r.kv@ + " GB</text>\n      <text x=\"960\" y=\""@ + r.y@, "\" class=\"badge-status\">"@, "ms</text>\n      <text x=\""@ + r.itl_val_x@ + "\" y=\""@ + r.y_itl_text@ + "\" class=\"label-stat\">ITL "@ + r.itl@ + "ms</text>\n      <text x=\"820\" y=\""@);
        lemma_contains_extend("\n    <g class=\"model-row\">\n      <text x=\"30\" y=\""@ + r.y@ + "\" class=\"label-model\">"@ + r.name@ + "</text>\n      <text x=\"30\" y=\""@ + r.desc_y@ + "\" class=\"label-topology\">"@ + r.topology@ + " ["@ + r.quant@ + "]</text>\n      <rect x=\"320\" y=\""@ + r.rect_ttft_y@ + "\" width=\""@ + r.ttft_w@ + "\" height=\"14\" rx=\"3\" fill=\"#7fb8a6\" />\n      <rect x=\"320\" y=\""@ + r.rect_itl_y@ + "\" width=\""@ + r.itl_w@ + "\" height=\"14\" rx=\"3\" fill=\"#6ba4d9\" />\n      <text x=\""@ + r.ttft_val_x@ + "\" y=\""@ + r.y_ttft_text@ + "\" class=\"label-stat\">TTFT "@ + r.ttft@ + "ms</text>\n      <text x=\""@ + r.itl_val_x@ + "\" y=\""@ + r.y_itl_text@ + "\" class=\"label-stat\">ITL "@ + r.itl@ + "ms</text>\n      <text x=\"820\" y=\""@ + r.y@ + "\" class=\"badge-footprint\">KV: "@ + r.kv@ + " GB</text>\n      <text x=\"960\" y=\""@ + r.y@ + "\" class=\"badge-status\">"@, r.status@, "ms</text>\n      <text x=\""@ + r.itl_val_x@ + "\" y=\""@ + r.y_itl_text@ + "\" class=\"label-stat\">ITL "@ + r.itl@ + "ms</text>\n      <text x=\"820\" y=\""@);
        lemma_contains_extend("\n    <g class=\"model-row\">\n      <text x=\"30\" y=\""@ + r.y@ + "\" class=\"label-model\">"@ + r.name@ + "</text>\n      <text x=\"30\" y=\""@ + r.desc_y@ + "\" class=\"label-topology\">"@ + r.topology@ + " ["@ + r.quant@ + "]</text>\n      <rect x=\"320\" y=\""@ + r.rect_ttft_y@ + "\" width=\""@ + r.ttft_w@ + "\" height=\"14\" rx=\"3\" fill=\"#7fb8a6\" />\n      <rect x=\"320\" y=\""@ + r.rect_itl_y@ + "\" width=\""@ + r.itl_w@ + "\" height=\"14\" rx=\"3\" fill=\"#6ba4d9\" />\n      <text x=\""@ + r.ttft_val_x@ + "\" y=\""@ + r.y_ttft_text@ + "\" class=\"label-stat\">TTFT "@ + r.ttft@ + "ms</text>\n      <text x=\""@ + r.itl_val_x@ + "\" y=\""@ + r.y_itl_text@ + "\" class=\"label-stat\">ITL "@ + r.itl@ + "ms</text>\n      <text x=\"820\" y=\""@ + r.y@ + "\" class=\"badge-footprint\">KV: "@ + r.kv@ + " GB</text>\n      <text x=\"960\" y=\""@ + r.y@ + "\" class=\"badge-status\">"@ + r.status@, "</text>\n    </g>"@, "ms</text>\n      <text x=\""@ + r.itl_val_x@ + "\" y=\""@ + r.y_itl_text@ + "\" class=\"label-stat\">ITL "@ + r.itl@ + "ms</text>\n      <text x=\"820\" y=\""@);
    }
    assert(contains_seq(multi_model_row_text(r), "ms</text>\n      <text x=\"820\" y=\""@ + r.y@ + "\" class=\"badge-footprint\">KV: "@ + r.kv@ + " GB</text>\n      <text x=\"960\" y=\""@)) by {
        lemma_concat_associative(("\n    <g class=\"model-row\">\n      <text x=\"30\" y=\""@ + r.y@ + "\" class=\"label-model\">"@ + r.name@ + "</text>\n      <text x=\"30\" y=\""@ + r.desc_y@ + "\" class=\"label-topology\">"@ + r.topology@ + " ["@ + r.quant@ + "]</text>\n      <rect x=\"320\" y=\""@ + r.rect_ttft_y@ + "\" width=\""@ + r.ttft_w@ + "\" height=\"14\" rx=\"3\" fill=\"#7fb8a6\" />\n      <rect x=\"320\" y=\""@ + r.rect_itl_y@ + "\" width=\""@ + r.itl_w@ + "\" height=\"14\" rx=\"3\" fill=\"#6ba4d9\" />\n      <text x=\""@ + r.ttft_val_x@ + "\" y=\""@ + r.y_ttft_text@ + "\" class=\"label-stat\">TTFT "@ + r.ttft@ + "ms</text>\n      <text x=\""@ + r.itl_val_x@ + "\" y=\""@ + r.y_itl_text@ + "\" class=\"label-stat\">ITL "@ + r.itl@), "ms</text>\n      <text x=\"820\" y=\""@, r.y@);
        assert(("\n    <g class=\"model-row\">\n      <text x=\"30\" y=\""@ + r.y@ + "\" class=\"label-model\">"@ + r.name@ + "</text>\n      <text x=\"30\" y=\""@ + r.desc_y@ + "\" class=\"label-topology\">"@ + r.topology@ + " ["@ + r.quant@ + "]</text>\n      <rect x=\"320\" y=\""@ + r.rect_ttft_y@ + "\" width=\""@ + r.ttft_w@ + "\" height=\"14\" rx=\"3\" fill=\"#7fb8a6\" />\n      <rect x=\"320\" y=\""@ + r.rect_itl_y@ + "\" width=\""@ + r.itl_w@ + "\" height=\"14\" rx=\"3\" fill=\"#6ba4d9\" />\n      <text x=\""@ + r.ttft_val_x@ + "\" y=\""@ + r.y_ttft_text@ + "\" class=\"label-stat\">TTFT "@ + r.ttft@ + "ms</text>\n      <text x=\""@ + r.itl_val_x@ + "\" y=\""@ + r.y_itl_text@ + "\" class=\"label-stat\">ITL "@ + r.itl@) + ("ms</text>\n      <text x=\"820\" y=\""@ + r.y@) == "\n    <g class=\"model-row\">\n      <text x=\"30\" y=\""@ + r.y@ + "\" class=\"label-model\">"@ + r.name@ + "</text>\n      <text x=\"30\" y=\""@ + r.desc_y@ + "\" class=\"label-topology\">"@ + r.topology@ + " ["@ + r.quant@ + "]</text>\n      <rect x=\"320\" y=\""@ + r.rect_ttft_y@ + "\" width=\""@ + r.ttft_w@ + "\" height=\"14\" rx=\"3\" fill=\"#7fb8a6\" />\n      <rect x=\"320\" y=\""@ + r.rect_itl_y@ + "\" width=\""@ + r.itl_w@ + "\" height=\"14\" rx=\"3\" fill=\"#6ba4d9\" />\n      <text x=\""@ + r.ttft_val_x@ + "\" y=\""@ + r.y_ttft_text@ + "\" class=\"label-stat\">TTFT "@ + r.ttft@ + "ms</text>\n      <text x=\""@ + r.itl_val_x@ + "\" y=\""@ + r.y_itl_text@ + "\" class=\"label-stat\">ITL "@ + r.itl@ + "ms</text>\n      <text x=\"820\" y=\""@ + r.y@);
        lemma_concat_associative(("\n    <g class=\"model-row\">\n      <text x=\"30\" y=\""@ + r.y@ + "\" class=\"label-model\">"@ + r.name@ + "</text>\n      <text x=\"30\" y=\""@ + r.desc_y@ + "\" class=\"label-topology\">"@ + r.topology@ + " ["@ + r.quant@ + "]</text>\n      <rect x=\"320\" y=\""@ + r.rect_ttft_y@ + "\" width=\""@ + r.ttft_w@ + "\" height=\"14\" rx=\"3\" fill=\"#7fb8a6\" />\n      <rect x=\"320\" y=\""@ + r.rect_itl_y@ + "\" width=\""@ + r.itl_w@ + "\" height=\"14\" rx=\"3\" fill=\"#6ba4d9\" />\n      <text x=\""@ + r.ttft_val_x@ + "\" y=\""@ + r.y_ttft_text@ + "\" class=\"label-stat\">TTFT "@ + r.ttft@ + "ms</text>\n      <text x=\""@ + r.itl_val_x@ + "\" y=\""@ + r.y_itl_text@ + "\" class=\"label-stat\">ITL "@ + r.itl@), "ms</text>\n      <text x=\"820\" y=\""@ + r.y@, "\" class=\"badge-footprint\">KV: "@);
        assert(("\n    <g class=\"model-row\">\n      <text x=\"30\" y=\""@ + r.y@ + "\" class=\"label-model\">"@ + r.name@ + "</text>\n      <text x=\"30\" y=\""@ + r.desc_y@ + "\" class=\"label-topology\">"@ + r.topology@ + " ["@ + r.quant@ + "]</text>\n      <rect x=\"320\" y=\""@ + r.rect_ttft_y@ + "\" width=\""@ + r.ttft_w@ + "\" height=\"14\" rx=\"3\" fill=\"#7fb8a6\" />\n      <rect x=\"320\" y=\""@ + r.rect_itl_y@ + "\" width=\""@ + r.itl_w@ + "\" height=\"14\" rx=\"3\" fill=\"#6ba4d9\" />\n      <text x=\""@ + r.ttft_val_x@ + "\" y=\""@ + r.y_ttft_text@ + "\" class=\"label-stat\">TTFT "@ + r.ttft@ + "ms</text>\n      <text x=\""@ + r.itl_val_x@ + "\" y=\""@ + r.y_itl_text@ + "\" class=\"label-stat\">ITL "@ + r.itl@) + ("ms</text>\n      <text x=\"820\" y=\""@ + r.y@ + "\" class=\"badge-footprint\">KV: "@) == "\n    <g class=\"model-row\">\n      <text x=\"30\" y=\""@ + r.y@ + "\" class=\"label-model\">"@ + r.name@ + "</text>\n      <text x=\"30\" y=\""@ + r.desc_y@ + "\" class=\"label-topology\">"@ + r.topology@ + " ["@ + r.quant@ + "]</text>\n      <rect x=\"320\" y=\""@ + r.rect_ttft_y@ + "\" width=\""@ + r.ttft_w@ + "\" height=\"14\" rx=\"3\" fill=\"#7fb8a6\" />\n      <rect x=\"320\" y=\""@ + r.rect_itl_y@ + "\" width=\""@ + r.itl_w@ + "\" height=\"14\" rx=\"3\" fill=\"#6ba4d9\" />\n      <text x=\""@ + r.ttft_val_x@ + "\" y=\""@ + r.y_ttft_text@ + "\" class=\"label-stat\">TTFT "@ + r.ttft@ + "ms</text>\n      <text x=\""@ + r.itl_val_x@ + "\" y=\""@ + r.y_itl_text@ + "\" class=\"label-stat\">ITL "@ + r.itl@ + "ms</text>\n      <text x=\"820\" y=\""@ + r.y@ + "\" class=\"badge-footprint\">KV: "@);
        lemma_concat_associative(("\n    <g class=\"model-row\">\n      <text x=\"30\" y=\""@ + r.y@ + "\" class=\"label-model\">"@ + r.name@ + "</text>\n      <text x=\"30\" y=\""@ + r.desc_y@ + "\" class=\"label-topology\">"@ + r.topology@ + " ["@ + r.quant@ + "]</text>\n      <rect x=\"320\" y=\""@ + r.rect_ttft_y@ + "\" width=\""@ + r.ttft_w@ + "\" height=\"14\" rx=\"3\" fill=\"#7fb8a6\" />\n      <rect x=\"320\" y=\""@ + r.rect_itl_y@ + "\" width=\""@ + r.itl_w@ + "\" height=\"14\" rx=\"3\" fill=\"#6ba4d9\" />\n      <text x=\""@ + r.ttft_val_x@ + "\" y=\""@ + r.y_ttft_text@ + "\" class=\"label-stat\">TTFT "@ + r.ttft@ + "ms</text>\n      <text x=\""@ + r.itl_val_x@ + "\" y=\""@ + r.y_itl_text@ + "\" class=\"label-stat\">ITL "@ + r.itl@), "ms</text>\n      <text x=\"820\" y=\""@ + r.y@ + "\" class=\"badge-footprint\">KV: "@, r.kv@);
        assert(("\n    <g class=\"model-row\">\n      <text x=\"30\" y=\""@ + r.y@ + "\" class=\"label-model\">"@ + r.name@ + "</text>\n      <text x=\"30\" y=\""@ + r.desc_y@ + "\" class=\"label-topology\">"@ + r.topology@ + " ["@ + r.quant@ + "]</text>\n      <rect x=\"320\" y=\""@ + r.rect_ttft_y@ + "\" width=\""@ + r.ttft_w@ + "\" height=\"14\" rx=\"3\" fill=\"#7fb8a6\" />\n      <rect x=\"320\" y=\""@ + r.rect_itl_y@ + "\" width=\""@ + r.itl_w@ + "\" height=\"14\" rx=\"3\" fill=\"#6ba4d9\" />\n      <text x=\""@ + r.ttft_val_x@ + "\" y=\""@ + r.y_ttft_text@ + "\" class=\"label-stat\">TTFT "@ + r.ttft@ + "ms</text>\n      <text x=\""@ + r.itl_val_x@ + "\" y=\""@ + r.y_itl_text@ + "\" class=\"label-stat\">ITL "@ + r.itl@) + ("ms</text>\n      <text x=\"820\" y=\""@ + r.y@ + "\" class=\"badge-footprint\">KV: "@ + r.kv@) == "\n    <g class=\"model-row\">\n      <text x=\"30\" y=\""@ + r.y@ + "\" class=\"label-model\">"@ + r.name@ + "</text>\n      <text x=\"30\" y=\""@ + r.desc_y@ + "\" class=\"label-topology\">"@ + r.topology@ + " ["@ + r.quant@ + "]</text>\n      <rect x=\"320\" y=\""@ + r.rect_ttft_y@ + "\" width=\""@ + r.ttft_w@ + "\" height=\"14\" rx=\"3\" fill=\"#7fb8a6\" />\n      <rect x=\"320\" y=\""@ + r.rect_itl_y@ + "\" width=\""@ + r.itl_w@ + "\" height=\"14\" rx=\"3\" fill=\"#6ba4d9\" />\n      <text x=\""@ + r.ttft_val_x@ + "\" y=\""@ + r.y_ttft_text@ + "\" class=\"label-stat\">TTFT "@ + r.ttft@ + "ms</text>\n      <text x=\""@ + r.itl_val_x@ + "\" y=\""@ + r.y_itl_text@ + "\" class=\"label-stat\">ITL "@ + r.itl@ + "ms</text>\n      <text x=\"820\" y=\""@ + r.y@ + "\" class=\"badge-footprint\">KV: "@ + r.kv@);
        lemma_concat_associative(("\n    <g class=\"model-row\">\n      <text x=\"30\" y=\""@ + r.y@ + "\" class=\"label-model\">"@ + r.name@ + "</text>\n      <text x=\"30\" y=\""@ + r.desc_y@ + "\" class=\"label-topology\">"@ + r.topology@ + " ["@ + r.quant@ + "]</text>\n      <rect x=\"320\" y=\""@ + r.rect_ttft_y@ + "\" width=\""@ + r.ttft_w@ + "\" height=\"14\" rx=\"3\" fill=\"#7fb8a6\" />\n      <rect x=\"320\" y=\""@ + r.rect_itl_y@ + "\" width=\""@ + r.itl_w@ + "\" height=\"14\" rx=\"3\" fill=\"#6ba4d9\" />\n      <text x=\""@ + r.ttft_val_x@ + "\" y=\""@ + r.y_ttft_text@ + "\" class=\"label-stat\">TTFT "@ + r.ttft@ + "ms</text>\n      <text x=\""@ + r.itl_val_x@ + "\" y=\""@ + r.y_itl_text@ + "\" class=\"label-stat\">ITL "@ + r.itl@), "ms</text>\n      <text x=\"820\" y=\""@ + r.y@ + "\" class=\"badge-footprint\">KV: "@ + r.kv@, " GB</text>\n      <text x=\"960\" y=\""@);
        assert(("\n    <g class=\"model-row\">\n      <text x=\"30\" y=\""@ + r.y@ + "\" class=\"label-model\">"@ + r.name@ + "</text>\n      <text x=\"30\" y=\""@ + r.desc_y@ + "\" class=\"label-topology\">"@ + r.topology@ + " ["@ + r.quant@ + "]</text>\n      <rect x=\"320\" y=\""@ + r.rect_ttft_y@ + "\" width=\""@ + r.ttft_w@ + "\" height=\"14\" rx=\"3\" fill=\"#7fb8a6\" />\n      <rect x=\"320\" y=\""@ + r.rect_itl_y@ + "\" width=\""@ + r.itl_w@ + "\" height=\"14\" rx=\"3\" fill=\"#6ba4d9\" />\n      <text x=\""@ + r.ttft_val_x@ + "\" y=\""@ + r.y_ttft_text@ + "\" class=\"label-stat\">TTFT "@ + r.ttft@ + "ms</text>\n      <text x=\""@ + r.itl_val_x@ + "\" y=\""@ + r.y_itl_text@ + "\" class=\"label-stat\">ITL "@ + r.itl@) + ("ms</text>\n      <text x=\"820\" y=\""@ + r.y@ + "\" class=\"badge-footprint\">KV: "@ + r.kv@ + " GB</text>\n      <text x=\"960\" y=\""@) == "\n    <g class=\"model-row\">\n      <text x=\"30\" y=\""@ + r.y@ + "\" class=\"label-model\">"@ + r.name@ + "</text>\n      <text x=\"30\" y=\""@ + r.desc_y@ + "\" class=\"label-topology\">"@ + r.topology@ + " ["@ + r.quant@ + "]</text>\n      <rect x=\"320\" y=\""@ + r.rect_ttft_y@ + "\" width=\""@ + r.ttft_w@ + "\" height=\"14\" rx=\"3\" fill=\"#7fb8a6\" />\n      <rect x=\"320\" y=\""@ + r.rect_itl_y@ + "\" width=\""@ + r.itl_w@ + "\" height=\"14\" rx=\"3\" fill=\"#6ba4d9\" />\n      <text x=\""@ + r.ttft_val_x@ + "\" y=\""@ + r.y_ttft_text@ + "\" class=\"label-stat\">TTFT "@ + r.ttft@ + "ms</text>\n      <text x=\""@ + r.itl_val_x@ + "\" y=\""@ + r.y_itl_text@ + "\" class=\"label-stat\">ITL "@ + r.itl@ + "ms</text>\n      <text x=\"820\" y=\""@ + r.y@ + "\" class=\"badge-footprint\">KV: "@ + r.kv@ + " GB</text>\n      <text x=\"960\" y=\""@);
        lemma_contains_tail(("\n    <g class=\"model-row\">\n      <text x=\"30\" y=\""@ + r.y@ + "\" class=\"label-model\">"@ + r.name@ + "</text>\n      <text x=\"30\" y=\""@ + r.desc_y@ + "\" class=\"label-topology\">"@ + r.topology@ + " ["@ + r.quant@ + "]</text>\n      <rect x=\"320\" y=\""@ + r.rect_ttft_y@ + "\" width=\""@ + r.ttft_w@ + "\" height=\"14\" rx=\"3\" fill=\"#7fb8a6\" />\n      <rect x=\"320\" y=\""@ + r.rect_itl_y@ + "\" width=\""@ + r.itl_w@ + "\" height=\"14\" rx=\"3\" fill=\"#6ba4d9\" />\n      <text x=\""@ + r.ttft_val_x@ + "\" y=\""@ + r.y_ttft_text@ + "\" class=\"label-stat\">TTFT "@ + r.ttft@ + "ms</text>\n      <text x=\""@ + r.itl_val_x@ + "\" y=\""@ + r.y_itl_text@ + "\" class=\"label-stat\">ITL "@ + r.itl@), "ms</text>\n      <text x=\"820\" y=\""@ + r.y@ + "\" class=\"badge-footprint\">KV: "@ + r.kv@ + " GB</text>\n      <text x=\"960\" y=\""@);
        lemma_contains_extend("\n    <g class=\"model-row\">\n      <text x=\"30\" y=\""@ + r.y@ + "\" class=\"label-model\">"@ + r.name@ + "</text>\n      <text x=\"30\" y=\""@ + r.desc_y@ + "\" class=\"label-topology\">"@ + r.topology@ + " ["@ + r.quant@ + "]</text>\n      <rect x=\"320\" y=\""@ + r.rect_ttft_y@ + "\" width=\""@ + r.ttft_w@ + "\" height=\"14\" rx=\"3\" fill=\"#7fb8a6\" />\n      <rect x=\"320\" y=\""@ + r.rect_itl_y@ + "\" width=\""@ + r.itl_w@ + "\" height=\"14\" rx=\"3\" fill=\"#6ba4d9\" />\n      <text x=\""@ + r.ttft_val_x@ + "\" y=\""@ + r.y_ttft_text@ + "\" class=\"label-stat\">TTFT "@ + r.ttft@ + "ms</text>\n      <text x=\""@ + r.itl_val_x@ + "\" y=\""@ + r.y_itl_text@ + "\" class=\"label-stat\">ITL "@ + r.itl@ + "ms</text>\n      <text x=\"820\" y=\""@ + r.y@ + "\" class=\"badge-footprint\">KV: "@ + r.kv@ + " GB</text>\n      <text x=\"960\" y=\""@, r.y@, "ms</text>\n      <text x=\"820\" y=\""@ + r.y@ + "\" class=\"badge-footprint\">KV: "@ + r.kv@ + " GB</text>\n      <text x=\"960\" y=\""@);
        lemma_contains_extend("\n    <g class=\"model-row\">\n      <text x=\"30\" y=\""@ + r.y@ + "\" class=\"label-model\">"@ + r.name@ + "</text>\n      <text x=\"30\" y=\""@ + r.desc_y@ + "\" class=\"label-topology\">"@ + r.topology@ + " ["@ + r.quant@ + "]</text>\n      <rect x=\"320\" y=\""@ + r.rect_ttft_y@ + "\" width=\""@ + r.ttft_w@ + "\" height=\"14\" rx=\"3\" fill=\"#7fb8a6\" />\n      <rect x=\"320\" y=\""@ + r.rect_itl_y@ + "\" width=\""@ + r.itl_w@ + "\" height=\"14\" rx=\"3\" fill=\"#6ba4d9\" />\n      <text x=\""@ + r.ttft_val_x@ + "\" y=\""@ + r.y_ttft_text@ + "\" class=\"label-stat\">TTFT "@ + r.ttft@ + "ms</text>\n      <text x=\""@ + r.itl_val_x@ + "\" y=\""@ + r.y_itl_text@ + "\" class=\"label-stat\">ITL "@ + r.itl@ + "ms</text>\n      <text x=\"820\" y=\""@ + r.y@ + "\" class=\"badge-footprint\">KV: "@ + r.kv@ + " GB</text>\n      <text x=\"960\" y=\""@ + r.y@, "\" class=\"badge-status\">"@, "ms</text>\n      <text x=\"820\" y=\""@ + r.y@ + "\" class=\"badge-footprint\">KV: "@ + r.kv@ + " GB</text>\n      <text x=\"960\" y=\""@);
        lemma_contains_extend("\n    <g class=\"model-row\">\n      <text x=\"30\" y=\""@ + r.y@ + "\" class=\"label-model\">"@ + r.name@ + "</text>\n      <text x=\"30\" y=\""@ + r.desc_y@ + "\" class=\"label-topology\">"@ + r.topology@ + " ["@ + r.quant@ + "]</text>\n      <rect x=\"320\" y=\""@ + r.rect_ttft_y@ + "\" width=\""@ + r.ttft_w@ + "\" height=\"14\" rx=\"3\" fill=\"#7fb8a6\" />\n      <rect x=\"320\" y=\""@ + r.rect_itl_y@ + "\" width=\""@ + r.itl_w@ + "\" height=\"14\" rx=\"3\" fill=\"#6ba4d9\" />\n      <text x=\""@ + r.ttft_val_x@ + "\" y=\""@ + r.y_ttft_text@ + "\" class=\"label-stat\">TTFT "@ + r.ttft@ + "ms</text>\n      <text x=\""@ + r.itl_val_x@ + "\" y=\""@ + r.y_itl_text@ + "\" class=\"label-stat\">ITL "@ + r.itl@ + "ms</text>\n      <text x=\"820\" y=\""@ + r.y@ + "\" class=\"badge-footprint\">KV: "@ + r.kv@ + " GB</text>\n      <text x=\"960\" y=\""@ + r.y@ + "\" class=\"badge-status\">"@, r.status@, "ms</text>\n      <text x=\"820\" y=\""@ + r.y@ + "\" class=\"badge-footprint\">KV: "@ + r.kv@ + " GB</text>\n      <text x=\"960\" y=\""@);
        lemma_contains_extend("\n    <g class=\"model-row\">\n      <text x=\"30\" y=\""@ + r.y@ + "\" class=\"label-model\">"@ + r.name@ + "</text>\n      <text x=\"30\" y=\""@ + r.desc_y@ + "\" class=\"label-topology\">"@ + r.topology@ + " ["@ + r.quant@ + "]</text>\n      <rect x=\"320\" y=\""@ + r.rect_ttft_y@ + "\" width=\""@ + r.ttft_w@ + "\" height=\"14\" rx=\"3\" fill=\"#7fb8a6\" />\n      <rect x=\"320\" y=\""@ + r.rect_itl_y@ + "\" width=\""@ + r.itl_w@ + "\" height=\"14\" rx=\"3\" fill=\"#6ba4d9\" />\n      <text x=\""@ + r.ttft_val_x@ + "\" y=\""@ + r.y_ttft_text@ + "\" class=\"label-stat\">TTFT "@ + r.ttft@ + "ms</text>\n      <text x=\""@ + r.itl_val_x@ + "\" y=\""@ + r.y_itl_text@ + "\" class=\"label-stat\">ITL "@ + r.itl@ + "ms</text>\n      <text x=\"820\" y=\""@ + r.y@ + "\" class=\"badge-footprint\">KV: "@ + r.kv@ + " GB</text>\n      <text x=\"960\" y=\""@ + r.y@ + "\" class=\"badge-status\">"@ + r.status@, "</text>\n    </g>"@, "ms</text>\n      <text x=\"820\" y=\""@ + r.y@ + "\" class=\"badge-footprint\">KV: "@ + r.kv@ + " GB</text>\n      <text x=\"960\" y=\""@);
    }
    assert(contains_seq(multi_model_row_text(r), " GB</text>\n      <text x=\"960\" y=\""@ + r.y@ + "\" class=\"badge-status\">"@ + r.status@ + "</text>\n    </g>"@)) by {
        lemma_concat_associative(("\n    <g class=\"model-row\">\n      <text x=\"30\" y=\""@ + r.y@ + "\" class=\"label-model\">"@ + r.name@ + "</text>\n      <text x=\"30\" y=\""@ + r.desc_y@ + "\" class=\"label-topology\">"@ + r.topology@ + " ["@ + r.quant@ + "]</text>\n      <rect x=\"320\" y=\""@ + r.rect_ttft_y@ + "\" width=\""@ + r.ttft_w@ + "\" height=\"14\" rx=\"3\" fill=\"#7fb8a6\" />\n      <rect x=\"320\" y=\""@ + r.rect_itl_y@ + "\" width=\""@ + r.itl_w@ + "\" height=\"14\" rx=\"3\" fill=\"#6ba4d9\" />\n      <text x=\""@ + r.ttft_val_x@ + "\" y=\""@ + r.y_ttft_text@ + "\" class=\"label-stat\">TTFT "@ + r.ttft@ + "ms</text>\n      <text x=\""@ + r.itl_val_x@ + "\" y=\""@ + r.y_itl_text@ + "\" class=\"label-stat\">ITL "@ + r.itl@ + "ms</text>\n      <text x=\"820\" y=\""@ + r.y@ + "\" class=\"badge-footprint\">KV: "@ + r.kv@), " GB</text>\n      <text x=\"960\" y=\""@, r.y@);
        assert(("\n    <g class=\"model-row\">\n      <text x=\"30\" y=\""@ + r.y@ + "\" class=\"label-model\">"@ + r.name@ + "</text>\n      <text x=\"30\" y=\""@ + r.desc_y@ + "\" class=\"label-topology\">"@ + r.topology@ + " ["@ + r.quant@ + "]</text>\n      <rect x=\"320\" y=\""@ + r.rect_ttft_y@ + "\" width=\""@ + r.ttft_w@ + "\" height=\"14\" rx=\"3\" fill=\"#7fb8a6\" />\n      <rect x=\"320\" y=\""@ + r.rect_itl_y@ + "\" width=\""@ + r.itl_w@ + "\" height=\"14\" rx=\"3\" fill=\"#6ba4d9\" />\n      <text x=\""@ + r.ttft_val_x@ + "\" y=\""@ + r.y_ttft_text@ + "\" class=\"label-stat\">TTFT "@ + r.ttft@ + "ms</text>\n      <text x=\""@ + r.itl_val_x@ + "\" y=\""@ + r.y_itl_text@ + "\" class=\"label-stat\">ITL "@ + r.itl@ + "ms</text>\n      <text x=\"820\" y=\""@ + r.y@ + "\" class=\"badge-footprint\">KV: "@ + r.kv@) + (" GB</text>\n      <text x=\"960\" y=\""@ + r.y@) == "\n    <g class=\"model-row\">\n      <text x=\"30\" y=\""@ + r.y@ + "\" class=\"label-model\">"@ + r.name@ + "</text>\n      <text x=\"30\" y=\""@ + r.desc_y@ + "\" class=\"label-topology\">"@ + r.topology@ + " ["@ + r.quant@ + "]</text>\n      <rect x=\"320\" y=\""@ + r.rect_ttft_y@ + "\" width=\""@ + r.ttft_w@ + "\" height=\"14\" rx=\"3\" fill=\"#7fb8a6\" />\n      <rect x=\"320\" y=\""@ + r.rect_itl_y@ + "\" width=\""@ + r.itl_w@ + "\" height=\"14\" rx=\"3\" fill=\"#6ba4d9\" />\n      <text x=\""@ + r.ttft_val_x@ + "\" y=\""@ + r.y_ttft_text@ + "\" class=\"label-stat\">TTFT "@ + r.ttft@ + "ms</text>\n      <text x=\""@ + r.itl_val_x@ + "\" y=\""@ + r.y_itl_text@ + "\" class=\"label-stat\">ITL "@ + r.itl@ + "ms</text>\n      <text x=\"820\" y=\""@ + r.y@ + "\" class=\"badge-footprint\">KV: "@ + r.kv@ + " GB</text>\n      <text x=\"960\" y=\""@ + r.y@);
        lemma_concat_associative(("\n    <g class=\"model-row\">\n      <text x=\"30\" y=\""@ + r.y@ + "\" class=\"label-model\">"@ + r.name@ + "</text>\n      <text x=\"30\" y=\""@ + r.desc_y@ + "\" class=\"label-topology\">"@ + r.topology@ + " ["@ + r.quant@ + "]</text>\n      <rect x=\"320\" y=\""@ + r.rect_ttft_y@ + "\" width=\""@ + r.ttft_w@ + "\" height=\"14\" rx=\"3\" fill=\"#7fb8a6\" />\n      <rect x=\"320\" y=\""@ + r.rect_itl_y@ + "\" width=\""@ + r.itl_w@ + "\" height=\"14\" rx=\"3\" fill=\"#6ba4d9\" />\n      <text x=\""@ + r.ttft_val_x@ + "\" y=\""@ + r.y_ttft_text@ + "\" class=\"label-stat\">TTFT "@ + r.ttft@ + "ms</text>\n      <text x=\""@ + r.itl_val_x@ + "\" y=\""@ + r.y_itl_text@ + "\" class=\"label-stat\">ITL "@ + r.itl@ + "ms</text>\n      <text x=\"820\" y=\""@ + r.y@ + "\" class=\"badge-footprint\">KV: "@ + r.kv@), " GB</text>\n      <text x=\"960\" y=\""@ + r.y@, "\" class=\"badge-status\">"@);
        assert(("\n    <g class=\"model-row\">\n      <text x=\"30\" y=\""@ + r.y@ + "\" class=\"label-model\">"@ + r.name@ + "</text>\n      <text x=\"30\" y=\""@ + r.desc_y@ + "\" class=\"label-topology\">"@ + r.topology@ + " ["@ + r.quant@ + "]</text>\n      <rect x=\"320\" y=\""@ + r.rect_ttft_y@ + "\" width=\""@ + r.ttft_w@ + "\" height=\"14\" rx=\"3\" fill=\"#7fb8a6\" />\n      <rect x=\"320\" y=\""@ + r.rect_itl_y@ + "\" width=\""@ + r.itl_w@ + "\" height=\"14\" rx=\"3\" fill=\"#6ba4d9\" />\n      <text x=\""@ + r.ttft_val_x@ + "\" y=\""@ + r.y_ttft_text@ + "\" class=\"label-stat\">TTFT "@ + r.ttft@ + "ms</text>\n      <text x=\""@ + r.itl_val_x@ + "\" y=\""@ + r.y_itl_text@ + "\" class=\"label-stat\">ITL "@ + r.itl@ + "ms</text>\n      <text x=\"820\" y=\""@ + r.y@ + "\" class=\"badge-footprint\">KV: "@ + r.kv@) + (" GB</text>\n      <text x=\"960\" y=\""@ + r.y@ + "\" class=\"badge-status\">"@) == "\n    <g class=\"model-row\">\n      <text x=\"30\" y=\""@ + r.y@ + "\" class=\"label-model\">"@ + r.name@ + "</text>\n      <text x=\"30\" y=\""@ + r.desc_y@ + "\" class=\"label-topology\">"@ + r.topology@ + " ["@ + r.quant@ + "]</text>\n      <rect x=\"320\" y=\""@ + r.rect_ttft_y@ + "\" width=\""@ + r.ttft_w@ + "\" height=\"14\" rx=\"3\" fill=\"#7fb8a6\" />\n      <rect x=\"320\" y=\""@ + r.rect_itl_y@ + "\" width=\""@ + r.itl_w@ + "\" height=\"14\" rx=\"3\" fill=\"#6ba4d9\" />\n      <text x=\""@ + r.ttft_val_x@ + "\" y=\""@ + r.y_ttft_text@ + "\" class=\"label-stat\">TTFT "@ + r.ttft@ + "ms</text>\n      <text x=\""@ + r.itl_val_x@ + "\" y=\""@ + r.y_itl_text@ + "\" class=\"label-stat\">ITL "@ + r.itl@ + "ms</text>\n      <text x=\"820\" y=\""@ + r.y@ + "\" class=\"badge-footprint\">KV: "@ + r.kv@ + " GB</text>\n      <text x=\"960\" y=\""@ + r.y@ + "\" class=\"badge-status\">"@);
        lemma_concat_associative(("\n    <g class=\"model-row\">\n      <text x=\"30\" y=\""@ + r.y@ + "\" class=\"label-model\">"@ + r.name@ + "</text>\n      <text x=\"30\" y=\""@ + r.desc_y@ + "\" class=\"label-topology\">"@ + r.topology@ + " ["@ + r.quant@ + "]</text>\n      <rect x=\"320\" y=\""@ + r.rect_ttft_y@ + "\" width=\""@ + r.ttft_w@ + "\" height=\"14\" rx=\"3\" fill=\"#7fb8a6\" />\n      <rect x=\"320\" y=\""@ + r.rect_itl_y@ + "\" width=\""@ + r.itl_w@ + "\" height=\"14\" rx=\"3\" fill=\"#6ba4d9\" />\n      <text x=\""@ + r.ttft_val_x@ + "\" y=\""@ + r.y_ttft_text@ + "\" class=\"label-stat\">TTFT "@ + r.ttft@ + "ms</text>\n      <text x=\""@ + r.itl_val_x@ + "\" y=\""@ + r.y_itl_text@ + "\" class=\"label-stat\">ITL "@ + r.itl@ + "ms</text>\n      <text x=\"820\" y=\""@ + r.y@ + "\" class=\"badge-footprint\">KV: "@ + r.kv@), " GB</text>\n      <text x=\"960\" y=\""@ + r.y@ + "\" class=\"badge-status\">"@, r.status@);
        assert(("\n    <g class=\"model-row\">\n      <text x=\"30\" y=\""@ + r.y@ + "\" class=\"label-model\">"@ + r.name@ + "</text>\n      <text x=\"30\" y=\""@ + r.desc_y@ + "\" class=\"label-topology\">"@ + r.topology@ + " ["@ + r.quant@ + "]</text>\n      <rect x=\"320\" y=\""@ + r.rect_ttft_y@ + "\" width=\""@ + r.ttft_w@ + "\" height=\"14\" rx=\"3\" fill=\"#7fb8a6\" />\n      <rect x=\"320\" y=\""@ + r.rect_itl_y@ + "\" width=\""@ + r.itl_w@ + "\" height=\"14\" rx=\"3\" fill=\"#6ba4d9\" />\n      <text x=\""@ + r.ttft_val_x@ + "\" y=\""@ + r.y_ttft_text@ + "\" class=\"label-stat\">TTFT "@ + r.ttft@ + "ms</text>\n      <text x=\""@ + r.itl_val_x@ + "\" y=\""@ + r.y_itl_text@ + "\" class=\"label-stat\">ITL "@ + r.itl@ + "ms</text>\n      <text x=\"820\" y=\""@ + r.y@ + "\" class=\"badge-footprint\">KV: "@ + r.kv@) + (" GB</text>\n      <text x=\"960\" y=\""@ + r.y@ + "\" class=\"badge-status\">"@ + r.status@) == "\n    <g class=\"model-row\">\n      <text x=\"30\" y=\""@ + r.y@ + "\" class=\"label-model\">"@ + r.name@ + "</text>\n      <text x=\"30\" y=\""@ + r.desc_y@ + "\" class=\"label-topology\">"@ + r.topology@ + " ["@ + r.quant@ + "]</text>\n      <rect x=\"320\" y=\""@ + r.rect_ttft_y@ + "\" width=\""@ + r.ttft_w@ + "\" height=\"14\" rx=\"3\" fill=\"#7fb8a6\" />\n      <rect x=\"320\" y=\""@ + r.rect_itl_y@ + "\" width=\""@ + r.itl_w@ + "\" height=\"14\" rx=\"3\" fill=\"#6ba4d9\" />\n      <text x=\""@ + r.ttft_val_x@ + "\" y=\""@ + r.y_ttft_text@ + "\" class=\"label-stat\">TTFT "@ + r.ttft@ + "ms</text>\n      <text x=\""@ + r.itl_val_x@ + "\" y=\""@ + r.y_itl_text@ + "\" class=\"label-stat\">ITL "@ + r.itl@ + "ms</text>\n      <text x=\"820\" y=\""@ + r.y@ + "\" class=\"badge-footprint\">KV: "@ + r.kv@ + " GB</text>\n      <text x=\"960\" y=\""@ + r.y@ + "\" class=\"badge-status\">"@ + r.status@);
        lemma_concat_associative(("\n    <g class=\"model-row\">\n      <text x=\"30\" y=\""@ + r.y@ + "\" class=\"label-model\">"@ + r.name@ + "</text>\n      <text x=\"30\" y=\""@ + r.desc_y@ + "\" class=\"label-topology\">"@ + r.topology@ + " ["@ + r.quant@ + "]</text>\n      <rect x=\"320\" y=\""@ + r.rect_ttft_y@ + "\" width=\""@ + r.ttft_w@ + "\" height=\"14\" rx=\"3\" fill=\"#7fb8a6\" />\n      <rect x=\"320\" y=\""@ + r.rect_itl_y@ + "\" width=\""@ + r.itl_w@ + "\" height=\"14\" rx=\"3\" fill=\"#6ba4d9\" />\n      <text x=\""@ + r.ttft_val_x@ + "\" y=\""@ + r.y_ttft_text@ + "\" class=\"label-stat\">TTFT "@ + r.ttft@ + "ms</text>\n      <text x=\""@ + r.itl_val_x@ + "\" y=\""@ + r.y_itl_text@ + "\" class=\"label-stat\">ITL "@ + r.itl@ + "ms</text>\n      <text x=\"820\" y=\""@ + r.y@ + "\" class=\"badge-footprint\">KV: "@ + r.kv@), " GB</text>\n      <text x=\"960\" y=\""@ + r.y@ + "\" class=\"badge-status\">"@ + r.status@, "</text>\n    </g>"@);
        assert(("\n    <g class=\"model-row\">\n      <text x=\"30\" y=\""@ + r.y@ + "\" class=\"label-model\">"@ + r.name@ + "</text>\n      <text x=\"30\" y=\""@ + r.desc_y@ + "\" class=\"label-topology\">"@ + r.topology@ + " ["@ + r.quant@ + "]</text>\n      <rect x=\"320\" y=\""@ + r.rect_ttft_y@ + "\" width=\""@ + r.ttft_w@ + "\" height=\"14\" rx=\"3\" fill=\"#7fb8a6\" />\n      <rect x=\"320\" y=\""@ + r.rect_itl_y@ + "\" width=\""@ + r.itl_w@ + "\" height=\"14\" rx=\"3\" fill=\"#6ba4d9\" />\n      <text x=\""@ + r.ttft_val_x@ + "\" y=\""@ + r.y_ttft_text@ + "\" class=\"label-stat\">TTFT "@ + r.ttft@ + "ms</text>\n      <text x=\""@ + r.itl_val_x@ + "\" y=\""@ + r.y_itl_text@ + "\" class=\"label-stat\">ITL "@ + r.itl@ + "ms</text>\n      <text x=\"820\" y=\""@ + r.y@ + "\" class=\"badge-footprint\">KV: "@ + r.kv@) + (" GB</text>\n      <text x=\"960\" y=\""@ + r.y@ + "\" class=\"badge-status\">"@ + r.status@ + "</text>\n    </g>"@) == "\n    <g class=\"model-row\">\n      <text x=\"30\" y=\""@ + r.y@ + "\" class=\"label-model\">"@ + r.name@ + "</text>\n      <text x=\"30\" y=\""@ + r.desc_y@ + "\" class=\"label-topology\">"@ + r.topology@ + " ["@ + r.quant@ + "]</text>\n      <rect x=\"320\" y=\""@ + r.rect_ttft_y@ + "\" width=\""@ + r.ttft_w@ + "\" height=\"14\" rx=\"3\" fill=\"#7fb8a6\" />\n      <rect x=\"320\" y=\""@ + r.rect_itl_y@ + "\" width=\""@ + r.itl_w@ + "\" height=\"14\" rx=\"3\" fill=\"#6ba4d9\" />\n      <text x=\""@ + r.ttft_val_x@ + "\" y=\""@ + r.y_ttft_text@ + "\" class=\"label-stat\">TTFT "@ + r.ttft@ + "ms</text>\n      <text x=\""@ + r.itl_val_x@ + "\" y=\""@ + r.y_itl_text@ + "\" class=\"label-stat\">ITL "@ + r.itl@ + "ms</text>\n      <text x=\"820\" y=\""@ + r.y@ + "\" class=\"badge-footprint\">KV: "@ + r.kv@ + " GB</text>\n      <text x=\"960\" y=\""@ + r.y@ + "\" class=\"badge-status\">"@ + r.status@ + "</text>\n    </g>"@);
        lemma_contains_tail(("\n    <g class=\"model-row\">\n      <text x=\"30\" y=\""@ + r.y@ + "\" class=\"label-model\">"@ + r.name@ + "</text>\n      <text x=\"30\" y=\""@ + r.desc_y@ + "\" class=\"label-topology\">"@ + r.topology@ + " ["@ + r.quant@ + "]</text>\n      <rect x=\"320\" y=\""@ + r.rect_ttft_y@ + "\" width=\""@ + r.ttft_w@ + "\" height=\"14\" rx=\"3\" fill=\"#7fb8a6\" />\n      <rect x=\"320\" y=\""@ + r.rect_itl_y@ + "\" width=\""@ + r.itl_w@ + "\" height=\"14\" rx=\"3\" fill=\"#6ba4d9\" />\n      <text x=\""@ + r.ttft_val_x@ + "\" y=\""@ + r.y_ttft_text@ + "\" class=\"label-stat\">TTFT "@ + r.ttft@ + "ms</text>\n      <text x=\""@ + r.itl_val_x@ + "\" y=\""@ + r.y_itl_text@ + "\" class=\"label-stat\">ITL "@ + r.itl@ + "ms</text>\n      <text x=\"820\" y=\""@ + r.y@ + "\" class=\"badge-footprint\">KV: "@ + r.kv@), " GB</text>\n      <text x=\"960\" y=\""@ + r.y@ + "\" class=\"badge-status\">"@ + r.status@ + "</text>\n    </g>"@);
    }
}

/// Every chart document holds the markup of its rows as given.
pub proof fn lemma_chart_documents_hold_rows(rows: Seq<char>, svg_h: u32)
    ensures
        contains_seq(memory_chart_text(rows), rows),
        contains_seq(latency_chart_text(rows), rows),
        contains_seq(like_for_like_chart_text(rows, svg_h), rows),
        contains_seq(pressure_chart_text(rows, svg_h), rows),
        contains_seq(multi_model_chart_text(rows, svg_h), rows),
{
    assert(contains_seq(memory_chart_text(rows), rows)) by {
        lemma_contains_tail("<svg xmlns=\"http://www.w3.org/2000/svg\" viewBox=\"0 0 1100 520\" width=\"100%\" height=\"100%\">\n  <defs>\n    <style>\n      .bg { fill: #18111f; }\n      .title { font-family: ui-sans-serif, system-ui, sans-serif; font-size: 20px; font-weight: 700; fill: #fff8ee; }\n      .subtitle { font-family: ui-sans-serif, system-ui, sans-serif; font-size: 13px; fill: #bca9c2; }\n      .label-service { font-family: ui-monospace, monospace; font-size: 14px; font-weight: 700; fill: #ded3df; }\n      .label-role { font-family: ui-sans-serif, system-ui, sans-serif; font-size: 11px; fill: #8eac78; }\n      .label-val { font-family: ui-monospace, monospace; font-size: 13px; font-weight: 700; fill: #fff8ee; }\n      .badge { font-size: 11px; font-weight: 600; fill: #ef8b67; }\n      .grid { stroke: rgba(222, 211, 223, 0.12); stroke-width: 1; }\n    </style>\n  </defs>\n  <rect width=\"100%\" height=\"100%\" rx=\"12\" class=\"bg\" />\n  <text x=\"30\" y=\"48\" class=\"title\">Memory Resident Set Size (RSS): Native Rust vs Python Stacks</text>\n  <text x=\"30\" y=\"74\" class=\"subtitle\">Measured on NVIDIA DGX Spark (Grace Blackwell GB10, aarch64) via /proc/[pid]/status VmRSS</text>\n  <line x1=\"280\" y1=\"95\" x2=\"280\" y2=\"480\" class=\"grid\" />\n  <line x1=\"580\" y1=\"95\" x2=\"580\" y2=\"480\" class=\"grid\" />\n  <line x1=\"880\" y1=\"95\" x2=\"880\" y2=\"480\" class=\"grid\" />\n"@, rows);
        lemma_contains_extend("<svg xmlns=\"http://www.w3.org/2000/svg\" viewBox=\"0 0 1100 520\" width=\"100%\" height=\"100%\">\n  <defs>\n    <style>\n      .bg { fill: #18111f; }\n      .title { font-family: ui-sans-serif, system-ui, sans-serif; font-size: 20px; font-weight: 700; fill: #fff8ee; }\n      .subtitle { font-family: ui-sans-serif, system-ui, sans-serif; font-size: 13px; fill: #bca9c2; }\n      .label-service { font-family: ui-monospace, monospace; font-size: 14px; font-weight: 700; fill: #ded3df; }\n      .label-role { font-family: ui-sans-serif, system-ui, sans-serif; font-size: 11px; fill: #8eac78; }\n      .label-val { font-family: ui-monospace, monospace; font-size: 13px; font-weight: 700; fill: #fff8ee; }\n      .badge { font-size: 11px; font-weight: 600; fill: #ef8b67; }\n      .grid { stroke: rgba(222, 211, 223, 0.12); stroke-width: 1; }\n    </style>\n  </defs>\n  <rect width=\"100%\" height=\"100%\" rx=\"12\" class=\"bg\" />\n  <text x=\"30\" y=\"48\" class=\"title\">Memory Resident Set Size (RSS): Native Rust vs Python Stacks</text>\n  <text x=\"30\" y=\"74\" class=\"subtitle\">Measured on NVIDIA DGX Spark (Grace Blackwell GB10, aarch64) via /proc/[pid]/status VmRSS</text>\n  <line x1=\"280\" y1=\"95\" x2=\"280\" y2=\"480\" class=\"grid\" />\n  <line x1=\"580\" y1=\"95\" x2=\"580\" y2=\"480\" class=\"grid\" />\n  <line x1=\"880\" y1=\"95\" x2=\"880\" y2=\"480\" class=\"grid\" />\n"@ + rows, "\n</svg>"@, rows);
    }
    assert(contains_seq(latency_chart_text(rows), rows)) by {
        lemma_contains_tail("<svg xmlns=\"http://www.w3.org/2000/svg\" viewBox=\"0 0 1100 500\" width=\"100%\" height=\"100%\">\n  <defs>\n    <style>\n      .bg { fill: #18111f; }\n      .title { font-family: ui-sans-serif, system-ui, sans-serif; font-size: 20px; font-weight: 700; fill: #fff8ee; }\n      .subtitle { font-family: ui-sans-serif, system-ui, sans-serif; font-size: 13px; fill: #bca9c2; }\n      .label-service { font-family: ui-monospace, monospace; font-size: 14px; font-weight: 700; fill: #ded3df; }\n      .label-role { font-family: ui-sans-serif, system-ui, sans-serif; font-size: 11px; fill: #8eac78; }\n      .label-val { font-family: ui-monospace, monospace; font-size: 13px; font-weight: 700; fill: #fff8ee; }\n      .throughput { font-size: 12px; font-weight: 600; fill: #ef8b67; }\n      .grid { stroke: rgba(222, 211, 223, 0.12); stroke-width: 1; }\n    </style>\n  </defs>\n  <rect width=\"100%\" height=\"100%\" rx=\"12\" class=\"bg\" />\n  <text x=\"30\" y=\"48\" class=\"title\">HTTP Gateway Latency (p50 TTFB) and Throughput</text>\n  <text x=\"30\" y=\"74\" class=\"subtitle\">Localhost multi-threaded sweep: concurrency=10, 500 requests per endpoint on Grace Blackwell</text>\n  <line x1=\"360\" y1=\"95\" x2=\"360\" y2=\"470\" class=\"grid\" />\n  <line x1=\"640\" y1=\"95\" x2=\"640\" y2=\"470\" class=\"grid\" />\n  <line x1=\"920\" y1=\"95\" x2=\"920\" y2=\"470\" class=\"grid\" />\n"@, rows);
        lemma_contains_extend("<svg xmlns=\"http://www.w3.org/2000/svg\" viewBox=\"0 0 1100 500\" width=\"100%\" height=\"100%\">\n  <defs>\n    <style>\n      .bg { fill: #18111f; }\n      .title { font-family: ui-sans-serif, system-ui, sans-serif; font-size: 20px; font-weight: 700; fill: #fff8ee; }\n      .subtitle { font-family: ui-sans-serif, system-ui, sans-serif; font-size: 13px; fill: #bca9c2; }\n      .label-service { font-family: ui-monospace, monospace; font-size: 14px; font-weight: 700; fill: #ded3df; }\n      .label-role { font-family: ui-sans-serif, system-ui, sans-serif; font-size: 11px; fill: #8eac78; }\n      .label-val { font-family: ui-monospace, monospace; font-size: 13px; font-weight: 700; fill: #fff8ee; }\n      .throughput { font-size: 12px; font-weight: 600; fill: #ef8b67; }\n      .grid { stroke: rgba(222, 211, 223, 0.12); stroke-width: 1; }\n    </style>\n  </defs>\n  <rect width=\"100%\" height=\"100%\" rx=\"12\" class=\"bg\" />\n  <text x=\"30\" y=\"48\" class=\"title\">HTTP Gateway Latency (p50 TTFB) and Throughput</text>\n  <text x=\"30\" y=\"74\" class=\"subtitle\">Localhost multi-threaded sweep: concurrency=10, 500 requests per endpoint on Grace Blackwell</text>\n  <line x1=\"360\" y1=\"95\" x2=\"360\" y2=\"470\" class=\"grid\" />\n  <line x1=\"640\" y1=\"95\" x2=\"640\" y2=\"470\" class=\"grid\" />\n  <line x1=\"920\" y1=\"95\" x2=\"920\" y2=\"470\" class=\"grid\" />\n"@ + rows, "\n</svg>"@, rows);
    }
    assert(contains_seq(like_for_like_chart_text(rows, svg_h), rows)) by {
        lemma_contains_tail("<svg xmlns=\"http://www.w3.org/2000/svg\" viewBox=\"0 0 1100 "@ + decimal(svg_h as nat) + "\" width=\"100%\" height=\"100%\">\n  <defs>\n    <style>\n      .bg { fill: #18111f; }\n      .title { font-family: ui-sans-serif, system-ui, sans-serif; font-size: 20px; font-weight: 700; fill: #fff8ee; }\n      .subtitle { font-family: ui-sans-serif, system-ui, sans-serif; font-size: 13px; fill: #bca9c2; }\n      .label-service { font-family: ui-monospace, monospace; font-size: 13px; font-weight: 700; fill: #ded3df; }\n      .label-lang-rust { font-family: ui-monospace, monospace; font-size: 11px; font-weight: 600; fill: #7fb8a6; }\n      .label-lang-py { font-family: ui-monospace, monospace; font-size: 11px; font-weight: 600; fill: #d7755d; }\n      .label-val { font-family: ui-monospace, monospace; font-size: 12px; font-weight: 600; fill: #fff8ee; }\n      .badge-speedup { font-family: ui-sans-serif, system-ui, sans-serif; font-size: 15px; font-weight: 800; fill: #7fb8a6; }\n      .badge-mem { font-family: ui-sans-serif, system-ui, sans-serif; font-size: 12px; font-weight: 700; fill: #ef8b67; }\n    </style>\n  </defs>\n  <rect width=\"100%\" height=\"100%\" rx=\"12\" class=\"bg\" />\n  <text x=\"30\" y=\"48\" class=\"title\">Like-for-Like Microservice Benchmark: Rust Native vs CPython 3.12</text>\n  <text x=\"30\" y=\"74\" class=\"subtitle\">Identical payloads, in-memory SQLite tables, and vector workloads tested concurrently on Grace Blackwell</text>\n"@, rows);
        lemma_contains_extend("<svg xmlns=\"http://www.w3.org/2000/svg\" viewBox=\"0 0 1100 "@ + decimal(svg_h as nat) + "\" width=\"100%\" height=\"100%\">\n  <defs>\n    <style>\n      .bg { fill: #18111f; }\n      .title { font-family: ui-sans-serif, system-ui, sans-serif; font-size: 20px; font-weight: 700; fill: #fff8ee; }\n      .subtitle { font-family: ui-sans-serif, system-ui, sans-serif; font-size: 13px; fill: #bca9c2; }\n      .label-service { font-family: ui-monospace, monospace; font-size: 13px; font-weight: 700; fill: #ded3df; }\n      .label-lang-rust { font-family: ui-monospace, monospace; font-size: 11px; font-weight: 600; fill: #7fb8a6; }\n      .label-lang-py { font-family: ui-monospace, monospace; font-size: 11px; font-weight: 600; fill: #d7755d; }\n      .label-val { font-family: ui-monospace, monospace; font-size: 12px; font-weight: 600; fill: #fff8ee; }\n      .badge-speedup { font-family: ui-sans-serif, system-ui, sans-serif; font-size: 15px; font-weight: 800; fill: #7fb8a6; }\n      .badge-mem { font-family: ui-sans-serif, system-ui, sans-serif; font-size: 12px; font-weight: 700; fill: #ef8b67; }\n    </style>\n  </defs>\n  <rect width=\"100%\" height=\"100%\" rx=\"12\" class=\"bg\" />\n  <text x=\"30\" y=\"48\" class=\"title\">Like-for-Like Microservice Benchmark: Rust Native vs CPython 3.12</text>\n  <text x=\"30\" y=\"74\" class=\"subtitle\">Identical payloads, in-memory SQLite tables, and vector workloads tested concurrently on Grace Blackwell</text>\n"@ + rows, "\n</svg>"@, rows);
    }
    assert(contains_seq(pressure_chart_text(rows, svg_h), rows)) by {
        lemma_contains_tail("<svg xmlns=\"http://www.w3.org/2000/svg\" viewBox=\"0 0 1100 "@ + decimal(svg_h as nat) + "\" width=\"100%\" height=\"100%\">\n  <defs>\n    <style>\n      .bg { fill: #18111f; }\n      .title { font-family: ui-sans-serif, system-ui, sans-serif; font-size: 20px; font-weight: 700; fill: #fff8ee; }\n      .subtitle { font-family: ui-sans-serif, system-ui, sans-serif; font-size: 13px; fill: #bca9c2; }\n      .label-concurrency { font-family: ui-monospace, monospace; font-size: 13px; font-weight: 700; fill: #ded3df; }\n      .label-stat { font-family: ui-monospace, monospace; font-size: 11px; font-weight: 600; fill: #fff8ee; }\n      .badge-tps { font-family: ui-monospace, monospace; font-size: 13px; font-weight: 700; fill: #7fb8a6; }\n      .badge-power { font-family: ui-monospace, monospace; font-size: 11px; font-weight: 600; fill: #d3a85b; }\n    </style>\n  </defs>\n  <rect width=\"100%\" height=\"100%\" rx=\"12\" class=\"bg\" />\n  <text x=\"30\" y=\"48\" class=\"title\">Empirical Concurrency Pressure Sweep (C=1 to C=256)</text>\n  <text x=\"30\" y=\"74\" class=\"subtitle\">AIEN Continuous Batching Scheduler + Paged Unified Memory KV Pool on NVIDIA Grace Blackwell GB10</text>\n"@, rows);
        lemma_contains_extend("<svg xmlns=\"http://www.w3.org/2000/svg\" viewBox=\"0 0 1100 "@ + decimal(svg_h as nat) + "\" width=\"100%\" height=\"100%\">\n  <defs>\n    <style>\n      .bg { fill: #18111f; }\n      .title { font-family: ui-sans-serif, system-ui, sans-serif; font-size: 20px; font-weight: 700; fill: #fff8ee; }\n      .subtitle { font-family: ui-sans-serif, system-ui, sans-serif; font-size: 13px; fill: #bca9c2; }\n      .label-concurrency { font-family: ui-monospace, monospace; font-size: 13px; font-weight: 700; fill: #ded3df; }\n      .label-stat { font-family: ui-monospace, monospace; font-size: 11px; font-weight: 600; fill: #fff8ee; }\n      .badge-tps { font-family: ui-monospace, monospace; font-size: 13px; font-weight: 700; fill: #7fb8a6; }\n      .badge-power { font-family: ui-monospace, monospace; font-size: 11px; font-weight: 600; fill: #d3a85b; }\n    </style>\n  </defs>\n  <rect width=\"100%\" height=\"100%\" rx=\"12\" class=\"bg\" />\n  <text x=\"30\" y=\"48\" class=\"title\">Empirical Concurrency Pressure Sweep (C=1 to C=256)</text>\n  <text x=\"30\" y=\"74\" class=\"subtitle\">AIEN Continuous Batching Scheduler + Paged Unified Memory KV Pool on NVIDIA Grace Blackwell GB10</text>\n"@ + rows, "\n</svg>"@, rows);
    }
    assert(contains_seq(multi_model_chart_text(rows, svg_h), rows)) by {
        lemma_contains_tail("<svg xmlns=\"http://www.w3.org/2000/svg\" viewBox=\"0 0 1100 "@ + decimal(svg_h as nat) + "\" width=\"100%\" height=\"100%\">\n  <defs>\n    <style>\n      .bg { fill: #18111f; }\n      .title { font-family: ui-sans-serif, system-ui, sans-serif; font-size: 20px; font-weight: 700; fill: #fff8ee; }\n      .subtitle { font-family: ui-sans-serif, system-ui, sans-serif; font-size: 13px; fill: #bca9c2; }\n      .label-model { font-family: ui-monospace, monospace; font-size: 13px; font-weight: 700; fill: #ded3df; }\n      .label-topology { font-family: ui-sans-serif, system-ui, sans-serif; font-size: 11px; fill: #bca9c2; }\n      .label-stat { font-family: ui-monospace, monospace; font-size: 11px; font-weight: 600; fill: #fff8ee; }\n      .badge-footprint { font-family: ui-monospace, monospace; font-size: 13px; font-weight: 700; fill: #d3a85b; }\n      .badge-status { font-family: ui-sans-serif, system-ui, sans-serif; font-size: 12px; font-weight: 800; fill: #7fb8a6; }\n    </style>\n  </defs>\n  <rect width=\"100%\" height=\"100%\" rx=\"12\" class=\"bg\" />\n  <text x=\"30\" y=\"48\" class=\"title\">Multi-Model Architecture Breadth & Silicon Scaling</text>\n  <text x=\"30\" y=\"74\" class=\"subtitle\">Empirical performance comparison across model topologies with pure compiled serving</text>\n"@, rows);
        lemma_contains_extend("<svg xmlns=\"http://www.w3.org/2000/svg\" viewBox=\"0 0 1100 "@ + decimal(svg_h as nat) + "\" width=\"100%\" height=\"100%\">\n  <defs>\n    <style>\n      .bg { fill: #18111f; }\n      .title { font-family: ui-sans-serif, system-ui, sans-serif; font-size: 20px; font-weight: 700; fill: #fff8ee; }\n      .subtitle { font-family: ui-sans-serif, system-ui, sans-serif; font-size: 13px; fill: #bca9c2; }\n      .label-model { font-family: ui-monospace, monospace; font-size: 13px; font-weight: 700; fill: #ded3df; }\n      .label-topology { font-family: ui-sans-serif, system-ui, sans-serif; font-size: 11px; fill: #bca9c2; }\n      .label-stat { font-family: ui-monospace, monospace; font-size: 11px; font-weight: 600; fill: #fff8ee; }\n      .badge-footprint { font-family: ui-monospace, monospace; font-size: 13px; font-weight: 700; fill: #d3a85b; }\n      .badge-status { font-family: ui-sans-serif, system-ui, sans-serif; font-size: 12px; font-weight: 800; fill: #7fb8a6; }\n    </style>\n  </defs>\n  <rect width=\"100%\" height=\"100%\" rx=\"12\" class=\"bg\" />\n  <text x=\"30\" y=\"48\" class=\"title\">Multi-Model Architecture Breadth & Silicon Scaling</text>\n  <text x=\"30\" y=\"74\" class=\"subtitle\">Empirical performance comparison across model topologies with pure compiled serving</text>\n"@ + rows, "\n</svg>"@, rows);
    }
}

} // verus!
