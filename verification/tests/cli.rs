// The command-line surface around the library: a verbose flag and a trailing
// variadic query, joined into one user message. The parser here is built with
// clap's builder API, mirroring the binary's surface.

use clap::{Arg, ArgAction, ArgMatches, Command};
use rsii::prompt::build_prompt;

fn cli() -> Command {
    Command::new("rsii")
        .version("0.1.0")
        .disable_help_subcommand(true)
        .arg(Arg::new("verbose").long("verbose").short('v').action(ArgAction::SetTrue))
        .arg(
            Arg::new("query")
                .help("Your natural language query")
                .action(ArgAction::Append)
                .num_args(0..)
                .allow_hyphen_values(true)
                .trailing_var_arg(true),
        )
}

fn joined_query(matches: &ArgMatches) -> String {
    matches
        .get_many::<String>("query")
        .map(|words| words.cloned().collect::<Vec<String>>())
        .unwrap_or_default()
        .join(" ")
}

#[test]
fn test_clap_parse_basic_query() {
    let args = ["rsii", "echo", "hello"];
    let matches = cli().get_matches_from(args);
    assert_eq!(joined_query(&matches), "echo hello");
    assert!(!matches.get_flag("verbose"));
}

#[test]
fn test_clap_parse_version() {
    let args = ["rsii", "--version"];
    let res = cli().try_get_matches_from(args);
    assert!(res.is_err());
    let err = res.unwrap_err();
    assert_eq!(err.kind(), clap::error::ErrorKind::DisplayVersion);
}

#[test]
fn test_clap_parse_verbose_flag() {
    let args = ["rsii", "--verbose", "ls", "-la"];
    let matches = cli().get_matches_from(args);
    assert_eq!(joined_query(&matches), "ls -la");
    assert!(matches.get_flag("verbose"));
}

#[test]
fn query_words_feed_the_prompt() {
    let args = ["rsii", "show", "disk", "usage"];
    let matches = cli().get_matches_from(args);
    let query = joined_query(&matches);
    let prompt = build_prompt("SYS", "Linux", &query);
    assert!(prompt.ends_with("show disk usage"));
}
