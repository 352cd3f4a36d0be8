use aien_benchmarks::models::generate_default_cross_surface;
use aien_benchmarks::provenance::{
    get_git_sha, load_32k_prefix, read_uname, sha256sums, synthetic_prefix_tokens, Artifact,
};

#[test]
fn sums_file_lists_digests() {
    let files = vec![
        Artifact { name: "run_info.json".to_string(), bytes: b"abc".to_vec() },
        Artifact { name: "summary.json".to_string(), bytes: Vec::new() },
    ];
    assert_eq!(
        sha256sums(&files),
        "ba7816bf8f01cfea414140de5dae2223b00361a396177a9cb410ff61f20015ad  run_info.json\n\
e3b0c44298fc1c149afbf4c8996fb92427ae41e4649b934ca495991b7852b855  summary.json\n"
    );
    assert_eq!(sha256sums(&Vec::new()), "");
}

#[test]
fn prefix_from_manifest_or_synthetic() {
    let synth = synthetic_prefix_tokens();
    assert_eq!(synth.len(), 32768);
    assert_eq!(synth[0], 100);
    assert_eq!(synth[30999], 31099);
    assert_eq!(synth[31000], 100);
    assert_eq!(load_32k_prefix(None), synth);
    assert_eq!(load_32k_prefix(Some("not json")), synth);
    assert_eq!(load_32k_prefix(Some("{\"prefix_token_ids\":[1,2,3]}")), synth);
    let ids: Vec<String> = (0..32768u64).map(|i| (i + 4294967296 * (i % 2)).to_string()).collect();
    let manifest = format!("{{\"model_id\":\"m\",\"prefix_token_ids\":[{}, \"skip\", -1]}}", ids.join(","));
    let got = load_32k_prefix(Some(&manifest));
    assert_eq!(got.len(), 32768);
    assert_eq!(got[0], 0);
    assert_eq!(got[1], 1);
    assert_eq!(got[32767], 32767);
}

#[test]
fn revisions_and_kernel() {
    assert_eq!(get_git_sha(Some("abc123\n")), "abc123");
    assert_eq!(get_git_sha(None), "unknown");
    assert_eq!(read_uname(Some("Linux spark 6.8.0 aarch64\n")), "Linux spark 6.8.0 aarch64");
    assert_eq!(read_uname(None), "unknown");
}

#[test]
fn default_surfaces() {
    let s = generate_default_cross_surface();
    assert_eq!(s.len(), 3);
    assert_eq!(s[0].surface, "NVIDIA DGX Spark (GB10)");
    assert_eq!(s[0].status, "ACTIVE_PRODUCTION");
    assert_eq!(s[2].processor, "POSIX Linux x86_64 / aarch64");
    assert_eq!(s[1].status, "VERIFIED_CROSS_PLATFORM");
}
