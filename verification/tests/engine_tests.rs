use alias_search::engine::filter_and_sort;
use alias_search::table::get_table;

fn query(s: &str) -> Vec<char> {
    s.chars().collect()
}

#[test]
fn empty_query_returns_whole_table_sorted() {
    let table = get_table();
    let res = filter_and_sort(&query(""), &table);
    assert_eq!(res.len(), 150);
    for w in res.windows(2) {
        assert!(w[0].command <= w[1].command);
    }
    // The lexicographically first command in the table.
    assert_eq!(res[0].command, "ggl && ggp");
    assert_eq!(res[0].alias, "ggpnp");
    assert_eq!(res[1].command, "git add");
    assert_eq!(res[1].alias, "ga");
}

#[test]
fn every_result_contains_the_query() {
    let table = get_table();
    let res = filter_and_sort(&query("rebase"), &table);
    assert!(!res.is_empty());
    for e in &res {
        assert!(e.command.contains("rebase"));
    }
}

#[test]
fn every_matching_entry_is_returned() {
    let table = get_table();
    let res = filter_and_sort(&query("bisect"), &table);
    let expected: Vec<&str> = vec![
        "git bisect",
        "git bisect bad",
        "git bisect good",
        "git bisect reset",
        "git bisect start",
    ];
    let got: Vec<&str> = res.iter().map(|e| e.command.as_str()).collect();
    assert_eq!(got, expected);
}

#[test]
fn stash_query_selects_exactly_the_stash_commands() {
    let table = get_table();
    let res = filter_and_sort(&query("stash"), &table);
    let got: Vec<(&str, &str)> = res
        .iter()
        .map(|e| (e.command.as_str(), e.alias.as_str()))
        .collect();
    let expected: Vec<(&str, &str)> = vec![
        ("git pull --rebase --autostash", "gupa"),
        ("git pull --rebase --autostash -v", "gupav"),
        ("git stash --all", "gstall"),
        ("git stash --include-untracked", "gstu"),
        ("git stash apply", "gstaa"),
        ("git stash clear", "gstc"),
        ("git stash drop", "gstd"),
        ("git stash list", "gstl"),
        ("git stash pop", "gstp"),
        ("git stash push", "gsta"),
        ("git stash save", "gsta"),
        ("git stash show --text", "gsts"),
    ];
    assert_eq!(got, expected);
    assert!(got.iter().all(|(c, _)| *c != "git status"));
}

#[test]
fn no_match_returns_nothing() {
    let table = get_table();
    let res = filter_and_sort(&query("mercurial"), &table);
    assert!(res.is_empty());
}

#[test]
fn query_matching_inside_a_word_is_found() {
    let table = get_table();
    let res = filter_and_sort(&query("hatchanged"), &table);
    assert_eq!(res.len(), 1);
    assert_eq!(res[0].command, "git whatchanged -p --abbrev-commit --pretty=medium");
    assert_eq!(res[0].alias, "gwch");
}

#[test]
fn table_has_all_entries_and_keeps_shared_aliases() {
    let table = get_table();
    assert_eq!(table.len(), 150);
    let gpf: Vec<&str> = table
        .iter()
        .filter(|e| e.alias == "gpf")
        .map(|e| e.command.as_str())
        .collect();
    assert_eq!(gpf.len(), 2);
    assert!(gpf.contains(&"git push --force-with-lease"));
    assert!(gpf.contains(&"git push --force"));
}
