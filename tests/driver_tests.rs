use minigrep::config::Config;
use minigrep::driver::{render, run};

const POEM: &str = "Rust:\nsafe, fast, productive.\nPick three.\n";

fn config(query: &str, case_insensitive: bool) -> Config {
    let args: Vec<String> = vec!["minigrep".to_string(), query.to_string(), "poem.txt".to_string()];
    Config::build(&args, case_insensitive).unwrap()
}

#[test]
fn run_case_sensitive_scenario() {
    assert_eq!(run(&config("duct", false), POEM), "safe, fast, productive.\n");
}

#[test]
fn run_case_insensitive_scenario() {
    assert_eq!(run(&config("rUsT", true), POEM), "Rust:\n");
}

#[test]
fn run_with_no_match_prints_nothing() {
    assert_eq!(run(&config("zebra", false), POEM), "");
}

#[test]
fn render_terminates_each_line() {
    let lines = vec!["a".to_string(), "".to_string(), "b c".to_string()];
    assert_eq!(render(&lines), "a\n\nb c\n");
    assert_eq!(render(&Vec::new()), "");
}
