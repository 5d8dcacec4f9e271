use clirs::Config;

fn args(items: &[&str]) -> Vec<String> {
    items.iter().map(|s| s.to_string()).collect()
}

#[test]
fn two_paths_make_a_config() {
    let config = Config::new(&args(&["clirs", "in.jsonl", "out.jsonl"])).unwrap();
    assert_eq!(config.infile, "in.jsonl");
    assert_eq!(config.outfile, "out.jsonl");
}

#[test]
fn further_arguments_are_ignored() {
    let config = Config::new(&args(&["clirs", "a", "b", "c"])).unwrap();
    assert_eq!(config.infile, "a");
    assert_eq!(config.outfile, "b");
}

#[test]
fn one_path_is_not_enough() {
    assert_eq!(Config::new(&args(&["clirs", "in.jsonl"])).err(), Some("not enough arguments"));
}

#[test]
fn no_arguments_are_not_enough() {
    assert_eq!(Config::new(&args(&["clirs"])).err(), Some("not enough arguments"));
    assert_eq!(Config::new(&args(&[])).err(), Some("not enough arguments"));
}
