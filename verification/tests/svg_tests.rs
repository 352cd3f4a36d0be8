use aien_benchmarks::svg::{
    latency_chart_document, latency_chart_row, memory_chart_document, memory_chart_row,
    LatencyRowText, MemoryRowText,
};

fn memory_row() -> MemoryRowText {
    MemoryRowText {
        label_y: "120".to_string(),
        service: "openclaw-rs".to_string(),
        desc_y: "135".to_string(),
        role: "Gateway".to_string(),
        arch: "Rust / Axum".to_string(),
        rect_y: "104".to_string(),
        width: "7.5".to_string(),
        color: "#7fb8a6".to_string(),
        val_x: "309.5".to_string(),
        val_y: "122".to_string(),
        rss: "4.78".to_string(),
        badge: "(-99.9%)".to_string(),
    }
}

fn latency_row() -> LatencyRowText {
    LatencyRowText {
        label_y: "120".to_string(),
        service: "openclaw-rs".to_string(),
        endpoint: "/api/status".to_string(),
        desc_y: "136".to_string(),
        desc: "Status probe".to_string(),
        engine: "Rust Axum".to_string(),
        rect_y: "104".to_string(),
        width: "12.5".to_string(),
        color: "#7fb8a6".to_string(),
        val_x: "394.5".to_string(),
        val_y: "123".to_string(),
        p50: "1.00".to_string(),
        rps: "9500.0".to_string(),
    }
}

#[test]
fn memory_row_matches_template() {
    let expected = format!(
            r#"
    <g class="bar-row">
      <text x="30" y="{label_y}" class="label-service">{service}</text>
      <text x="30" y="{desc_y}" class="label-role">{role} [{arch}]</text>
      <rect x="280" y="{rect_y}" width="{w}" height="26" rx="4" fill="{color}" />
      <text x="{val_x}" y="{val_y}" class="label-val">{rss:.2} MB <tspan class="badge">{badge}</tspan></text>
    </g>"#,
        label_y = 120.0f64,
        desc_y = 135.0f64,
        rect_y = 104.0f64,
        w = 7.5f64,
        color = "#7fb8a6",
        val_x = 309.5f64,
        val_y = 122.0f64,
        service = "openclaw-rs",
        role = "Gateway",
        arch = "Rust / Axum",
        rss = 4.78f64,
        badge = "(-99.9%)",
    );
    assert_eq!(memory_chart_row(&memory_row()), expected);
}

#[test]
fn memory_document_wraps_rows() {
    let bars = memory_chart_row(&memory_row());
    let expected = format!(
        r#"<svg xmlns="http://www.w3.org/2000/svg" viewBox="0 0 1100 520" width="100%" height="100%">
  <defs>
    <style>
      .bg {{ fill: #18111f; }}
      .title {{ font-family: ui-sans-serif, system-ui, sans-serif; font-size: 20px; font-weight: 700; fill: #fff8ee; }}
      .subtitle {{ font-family: ui-sans-serif, system-ui, sans-serif; font-size: 13px; fill: #bca9c2; }}
      .label-service {{ font-family: ui-monospace, monospace; font-size: 14px; font-weight: 700; fill: #ded3df; }}
      .label-role {{ font-family: ui-sans-serif, system-ui, sans-serif; font-size: 11px; fill: #8eac78; }}
      .label-val {{ font-family: ui-monospace, monospace; font-size: 13px; font-weight: 700; fill: #fff8ee; }}
      .badge {{ font-size: 11px; font-weight: 600; fill: #ef8b67; }}
      .grid {{ stroke: rgba(222, 211, 223, 0.12); stroke-width: 1; }}
    </style>
  </defs>
  <rect width="100%" height="100%" rx="12" class="bg" />
  <text x="30" y="48" class="title">Memory Resident Set Size (RSS): Native Rust vs Python Stacks</text>
  <text x="30" y="74" class="subtitle">Measured on NVIDIA DGX Spark (Grace Blackwell GB10, aarch64) via /proc/[pid]/status VmRSS</text>
  <line x1="280" y1="95" x2="280" y2="480" class="grid" />
  <line x1="580" y1="95" x2="580" y2="480" class="grid" />
  <line x1="880" y1="95" x2="880" y2="480" class="grid" />
{bars}
</svg>"#,
        bars = bars
    );
    let svg = memory_chart_document(&bars);
    assert_eq!(svg, expected);
    assert!(svg.starts_with("<svg"));
    assert!(svg.ends_with("</svg>"));
    assert!(!svg.contains('\u{2014}'));
    assert!(!svg.contains('\u{2013}'));
}

#[test]
fn latency_row_matches_template() {
    let expected = format!(
            r#"
    <g class="bar-row">
      <text x="30" y="{label_y}" class="label-service">{service} {endpoint}</text>
      <text x="30" y="{desc_y}" class="label-role">{desc} [{engine}]</text>
      <rect x="360" y="{rect_y}" width="{w}" height="28" rx="4" fill="{color}" />
      <text x="{val_x}" y="{val_y}" class="label-val">{p50:.2} ms <tspan class="throughput">({rps:.1} req/s)</tspan></text>
    </g>"#,
        label_y = 120.0f64,
        desc_y = 136.0f64,
        rect_y = 104.0f64,
        w = 12.5f64,
        color = "#7fb8a6",
        val_x = 394.5f64,
        val_y = 123.0f64,
        service = "openclaw-rs",
        endpoint = "/api/status",
        desc = "Status probe",
        engine = "Rust Axum",
        p50 = 1.0f64,
        rps = 9500.0f64,
    );
    assert_eq!(latency_chart_row(&latency_row()), expected);
}

#[test]
fn latency_document_wraps_rows() {
    let bars = latency_chart_row(&latency_row());
    let expected = format!(
        r#"<svg xmlns="http://www.w3.org/2000/svg" viewBox="0 0 1100 500" width="100%" height="100%">
  <defs>
    <style>
      .bg {{ fill: #18111f; }}
      .title {{ font-family: ui-sans-serif, system-ui, sans-serif; font-size: 20px; font-weight: 700; fill: #fff8ee; }}
      .subtitle {{ font-family: ui-sans-serif, system-ui, sans-serif; font-size: 13px; fill: #bca9c2; }}
      .label-service {{ font-family: ui-monospace, monospace; font-size: 14px; font-weight: 700; fill: #ded3df; }}
      .label-role {{ font-family: ui-sans-serif, system-ui, sans-serif; font-size: 11px; fill: #8eac78; }}
      .label-val {{ font-family: ui-monospace, monospace; font-size: 13px; font-weight: 700; fill: #fff8ee; }}
      .throughput {{ font-size: 12px; font-weight: 600; fill: #ef8b67; }}
      .grid {{ stroke: rgba(222, 211, 223, 0.12); stroke-width: 1; }}
    </style>
  </defs>
  <rect width="100%" height="100%" rx="12" class="bg" />
  <text x="30" y="48" class="title">HTTP Gateway Latency (p50 TTFB) and Throughput</text>
  <text x="30" y="74" class="subtitle">Localhost multi-threaded sweep: concurrency=10, 500 requests per endpoint on Grace Blackwell</text>
  <line x1="360" y1="95" x2="360" y2="470" class="grid" />
  <line x1="640" y1="95" x2="640" y2="470" class="grid" />
  <line x1="920" y1="95" x2="920" y2="470" class="grid" />
{bars}
</svg>"#,
        bars = bars
    );
    let svg = latency_chart_document(&bars);
    assert_eq!(svg, expected);
    assert!(svg.starts_with("<svg"));
    assert!(svg.ends_with("</svg>"));
    assert!(!svg.contains('\u{2014}'));
    assert!(!svg.contains('\u{2013}'));
}

#[test]
fn dashed_field_shows_in_chart() {
    let mut row = memory_row();
    row.role = "Gateway \u{2014} edge".to_string();
    let svg = memory_chart_document(&memory_chart_row(&row));
    assert!(svg.contains('\u{2014}'));
}
