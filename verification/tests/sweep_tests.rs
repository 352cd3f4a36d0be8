use aien_benchmarks::sweep::{completions_url, parse_branch_counts, parse_name_list};

#[test]
fn default_branch_counts() {
    assert_eq!(parse_branch_counts("1,10,25,50,100,250,500"), vec![1, 10, 25, 50, 100, 250, 500]);
}

#[test]
fn branch_counts_skip_bad_pieces() {
    assert_eq!(parse_branch_counts(" 3 , x, ,+7,-2,99999999999999999999999"), vec![3, 7]);
    assert_eq!(parse_branch_counts(""), Vec::<usize>::new());
    assert_eq!(parse_branch_counts("12"), vec![12]);
    assert_eq!(parse_branch_counts("4,"), vec![4]);
}

#[test]
fn engine_names_are_trimmed() {
    assert_eq!(parse_name_list("aien,max,vllm"), vec!["aien", "max", "vllm"]);
    assert_eq!(parse_name_list(" aien , MAX ,, vllm ,"), vec!["aien", "MAX", "vllm"]);
    assert_eq!(parse_name_list(" , "), Vec::<String>::new());
}

#[test]
fn completions_url_drops_trailing_slashes() {
    assert_eq!(completions_url("http://127.0.0.1:18092/v1"), "http://127.0.0.1:18092/v1/completions");
    assert_eq!(completions_url("http://127.0.0.1:18092/v1//"), "http://127.0.0.1:18092/v1/completions");
    assert_eq!(completions_url(""), "/completions");
}
