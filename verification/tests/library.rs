use query_picker::config::{Config, Query};
use query_picker::dispatch::{
    command_args, command_program, entry_lines, execute_announcement, list_all_lines,
    no_selection_message, selection_announcement,
};
use query_picker::picker::{
    alias_of_line, join_lines, lookup, parse_selection, render_line, render_lines,
    resolve_selection,
};

fn pairs_of(entries: &[(&str, &str)]) -> Vec<(String, String)> {
    entries.iter().map(|(a, s)| (a.to_string(), s.to_string())).collect()
}

#[test]
fn config_round_trips_every_entry() {
    let pairs = pairs_of(&[("a", "SELECT 1"), ("b", "SELECT * FROM t  ")]);
    let config = Config::from_pairs("u".to_string(), "d".to_string(), &pairs);
    assert_eq!(config.username, "u");
    assert_eq!(config.dbname, "d");
    assert_eq!(config.queries.len(), 2);
    assert_eq!(config.queries[0].alias, "a");
    assert_eq!(config.queries[0].sql, "SELECT 1");
    assert_eq!(config.queries[1].alias, "b");
    assert_eq!(config.queries[1].sql, "SELECT * FROM t  ");
}

#[test]
fn config_keeps_duplicate_aliases() {
    let pairs = pairs_of(&[("a", "SELECT 1"), ("a", "SELECT 2")]);
    let config = Config::from_pairs("u".to_string(), "d".to_string(), &pairs);
    assert_eq!(config.queries.len(), 2);
    assert_eq!(config.queries[0].sql, "SELECT 1");
    assert_eq!(config.queries[1].sql, "SELECT 2");
}

#[test]
fn render_line_joins_alias_and_sql() {
    let q = Query { alias: "a".to_string(), sql: "SELECT 1".to_string() };
    assert_eq!(render_line(&q), "a: SELECT 1");
}

#[test]
fn render_lines_keeps_order() {
    let pairs = pairs_of(&[("a", "SELECT 1"), ("b", "SELECT 2")]);
    let config = Config::from_pairs("u".to_string(), "d".to_string(), &pairs);
    let lines = render_lines(&config.queries);
    assert_eq!(lines, vec!["a: SELECT 1".to_string(), "b: SELECT 2".to_string()]);
}

#[test]
fn join_lines_uses_single_newlines() {
    let lines = vec!["a: 1".to_string(), "b: 2".to_string(), "c: 3".to_string()];
    assert_eq!(join_lines(&lines), "a: 1\nb: 2\nc: 3");
}

#[test]
fn join_lines_of_one_line_adds_nothing() {
    let lines = vec!["a: 1".to_string()];
    assert_eq!(join_lines(&lines), "a: 1");
}

#[test]
fn join_lines_of_nothing_is_empty() {
    let lines: Vec<String> = Vec::new();
    assert_eq!(join_lines(&lines), "");
}

#[test]
fn alias_of_line_stops_at_first_delimiter() {
    assert_eq!(alias_of_line("a: SELECT 1"), "a");
    assert_eq!(alias_of_line("a: x:y:z"), "a");
}

#[test]
fn alias_of_line_without_delimiter_is_whole_line() {
    assert_eq!(alias_of_line("plain text"), "plain text");
}

#[test]
fn alias_of_line_with_leading_delimiter_is_empty() {
    assert_eq!(alias_of_line(": x"), "");
}

#[test]
fn alias_of_line_handles_multibyte_text() {
    assert_eq!(alias_of_line("héllo wörld: x"), "héllo wörld");
}

#[test]
fn lookup_returns_the_first_match() {
    let pairs = pairs_of(&[("a", "SELECT 1"), ("a", "SELECT 2")]);
    let config = Config::from_pairs("u".to_string(), "d".to_string(), &pairs);
    let found = lookup(&config.queries, &"a".to_string()).unwrap();
    assert_eq!(found.sql, "SELECT 1");
}

#[test]
fn lookup_of_unknown_alias_is_none() {
    let pairs = pairs_of(&[("a", "SELECT 1")]);
    let config = Config::from_pairs("u".to_string(), "d".to_string(), &pairs);
    assert!(lookup(&config.queries, &"b".to_string()).is_none());
}

#[test]
fn parse_selection_recovers_the_rendered_entry() {
    let pairs = pairs_of(&[("a", "SELECT 1"), ("b", "SELECT 2")]);
    let config = Config::from_pairs("u".to_string(), "d".to_string(), &pairs);
    let line = render_line(&config.queries[1]);
    let found = parse_selection(&config.queries, &line).unwrap();
    assert_eq!(found.alias, "b");
    assert_eq!(found.sql, "SELECT 2");
}

#[test]
fn parse_selection_misses_when_alias_holds_delimiter() {
    let pairs = pairs_of(&[("a:b", "SELECT 1")]);
    let config = Config::from_pairs("u".to_string(), "d".to_string(), &pairs);
    let line = render_line(&config.queries[0]);
    assert_eq!(line, "a:b: SELECT 1");
    assert!(parse_selection(&config.queries, &line).is_none());
}

#[test]
fn command_args_are_exact_and_keep_sql_untouched() {
    let args = command_args("u", "d", "SELECT 1; -- no escaping $`\"");
    let expected = vec![
        "-u".to_string(),
        "u".to_string(),
        "d".to_string(),
        "-S".to_string(),
        "-c".to_string(),
        "SELECT 1; -- no escaping $`\"".to_string(),
    ];
    assert_eq!(args, expected);
}

#[test]
fn command_args_are_deterministic() {
    let once = command_args("u", "d", "SELECT 1");
    let again = command_args("u", "d", "SELECT 1");
    assert_eq!(once, again);
}

#[test]
fn announcements_and_messages_are_exact() {
    assert_eq!(
        execute_announcement("u", "d", "SELECT 1"),
        "Executing: csql -u u d -S -c \"SELECT 1\""
    );
    assert_eq!(selection_announcement("a"), "Executing Query: a");
    assert_eq!(no_selection_message(), "No query selected.");
    assert_eq!(command_program(), "csql");
}

#[test]
fn entry_lines_hold_alias_and_sql() {
    let q = Query { alias: "a".to_string(), sql: "SELECT 1".to_string() };
    let lines = entry_lines(&q);
    assert_eq!(lines, vec!["Alias: a".to_string(), "SQL: SELECT 1".to_string()]);
}

#[test]
fn list_all_lines_separates_entries_with_blank_lines() {
    let pairs = pairs_of(&[("a", "SELECT 1"), ("b", "SELECT 2")]);
    let config = Config::from_pairs("u".to_string(), "d".to_string(), &pairs);
    let lines = list_all_lines(&config.queries);
    let expected = vec![
        "Alias: a".to_string(),
        "SQL: SELECT 1".to_string(),
        "".to_string(),
        "Alias: b".to_string(),
        "SQL: SELECT 2".to_string(),
    ];
    assert_eq!(lines, expected);
}

#[test]
fn list_all_lines_of_empty_config_is_empty() {
    let queries: Vec<Query> = Vec::new();
    assert!(list_all_lines(&queries).is_empty());
}

#[test]
fn scenario_select_and_print() {
    let pairs = pairs_of(&[("a", "SELECT 1")]);
    let config = Config::from_pairs("u".to_string(), "d".to_string(), &pairs);
    let lines = render_lines(&config.queries);
    assert_eq!(lines, vec!["a: SELECT 1".to_string()]);
    let chosen = lines[0].as_str();
    let selected = resolve_selection(&config.queries, Some(chosen)).unwrap();
    let output = entry_lines(&selected);
    assert!(output.contains(&"Alias: a".to_string()));
    assert!(output.contains(&"SQL: SELECT 1".to_string()));
}

#[test]
fn scenario_empty_config_selects_nothing() {
    let pairs = pairs_of(&[]);
    let config = Config::from_pairs("u".to_string(), "d".to_string(), &pairs);
    let lines = render_lines(&config.queries);
    assert!(lines.is_empty());
    assert_eq!(join_lines(&lines), "");
    assert!(resolve_selection(&config.queries, None).is_none());
    assert_eq!(no_selection_message(), "No query selected.");
}

#[test]
fn scenario_execute_mode_builds_exact_argument_list() {
    let pairs = pairs_of(&[("a", "SELECT 1")]);
    let config = Config::from_pairs("u".to_string(), "d".to_string(), &pairs);
    let line = render_line(&config.queries[0]);
    let selected = resolve_selection(&config.queries, Some(line.as_str())).unwrap();
    assert_eq!(command_program(), "csql");
    let args = command_args(&config.username, &config.dbname, &selected.sql);
    let expected = vec![
        "-u".to_string(),
        "u".to_string(),
        "d".to_string(),
        "-S".to_string(),
        "-c".to_string(),
        "SELECT 1".to_string(),
    ];
    assert_eq!(args, expected);
}

#[test]
fn scenario_aborted_picker_selects_nothing() {
    let pairs = pairs_of(&[("a", "SELECT 1")]);
    let config = Config::from_pairs("u".to_string(), "d".to_string(), &pairs);
    assert!(resolve_selection(&config.queries, None).is_none());
    assert_eq!(no_selection_message(), "No query selected.");
}
