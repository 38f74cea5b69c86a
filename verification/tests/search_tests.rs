use minigrep::search;
use minigrep::search_case_insensitive;
use minigrep::search_matching;

#[test]
fn one_result() {
    let query = "duct";
    let mut contents = String::new();
    contents.push_str("Rust:\n");
    contents.push_str("safe, fast, productive.\n");
    contents.push_str("Pick three.");
    assert_eq!(
        vec!["safe, fast, productive."],
        search(query, contents.as_str())
    );
}

#[test]
fn case_sensitive() {
    let query = "duct";
    let contents = "\
Rust:
safe, fast, productive.
Pick three.
Duct tape.";

    assert_eq!(vec!["safe, fast, productive."], search(query, contents));
}

#[test]
fn case_insensitive() {
    let query = "rUsT";
    let contents = "\
Rust:
safe, fast, productive.
Pick three.
Trust me.";

    assert_eq!(
        vec!["Rust:", "Trust me."],
        search_case_insensitive(query, contents)
    );
}

#[test]
fn empty_contents_yield_empty_result() {
    let empty: Vec<&str> = Vec::new();
    assert_eq!(empty, search("anything", ""));
    assert_eq!(empty, search_case_insensitive("anything", ""));
    assert_eq!(empty, search("", ""));
}

#[test]
fn empty_query_matches_every_line() {
    let contents = "one\ntwo\nthree";
    assert_eq!(vec!["one", "two", "three"], search("", contents));
    assert_eq!(vec!["one", "two", "three"], search_case_insensitive("", contents));
}

#[test]
fn trailing_newline_adds_no_empty_line() {
    let contents = "alpha\nbeta\n";
    assert_eq!(vec!["alpha", "beta"], search("", contents));
}

#[test]
fn carriage_returns_are_part_of_line_endings() {
    let contents = "mark\r\nremark\r\nnothing here\r\n";
    assert_eq!(vec!["mark", "remark"], search("mark", contents));
}

#[test]
fn lone_carriage_return_stays_in_the_line() {
    let contents = "odd\rmark\nplain";
    assert_eq!(vec!["odd\rmark"], search("mark", contents));
}

#[test]
fn duplicate_lines_are_all_returned() {
    let contents = "echo\nother\necho";
    assert_eq!(vec!["echo", "echo"], search("echo", contents));
}

#[test]
fn matches_keep_original_order() {
    let contents = "third line\nfirst\nanother line\nlast line";
    assert_eq!(
        vec!["third line", "another line", "last line"],
        search("line", contents)
    );
}

#[test]
fn insensitive_result_is_superset_of_sensitive() {
    let contents = "Stone\nstone\nSTONE\npebble";
    let sensitive = search("stone", contents);
    let insensitive = search_case_insensitive("stone", contents);
    assert_eq!(vec!["stone"], sensitive);
    assert_eq!(vec!["Stone", "stone", "STONE"], insensitive);
    for line in sensitive {
        assert!(insensitive.contains(&line));
    }
}

#[test]
fn search_twice_gives_identical_results() {
    let contents = "Rust:\nsafe, fast, productive.\nPick three.";
    assert_eq!(search("st", contents), search("st", contents));
    assert_eq!(
        search_case_insensitive("RUST", contents),
        search_case_insensitive("RUST", contents)
    );
}

#[test]
fn search_matching_dispatches_on_case_mode() {
    let contents = "Rust:\nsafe, fast, productive.\nPick three.\nTrust me.";
    assert_eq!(search("duct", contents), search_matching("duct", contents, false));
    assert_eq!(
        search_case_insensitive("rUsT", contents),
        search_matching("rUsT", contents, true)
    );
    let empty: Vec<&str> = Vec::new();
    assert_eq!(empty, search_matching("rUsT", contents, false));
}
