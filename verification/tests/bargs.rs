use bjourn::bargs::{parse_args, BArgs, BJournRunner, BWarning};
use bjourn::registry::{get_action_from_flag, get_flag_from_flag, BAction};

fn strings(words: &[&str]) -> Vec<String> {
    words.iter().map(|w| w.to_string()).collect()
}

#[test]
fn test_get_action_from_flag() {
    assert!(matches!(get_action_from_flag("a"), Some(BAction::Add)));
    assert!(matches!(get_action_from_flag("add"), Some(BAction::Add)));
    assert!(matches!(get_action_from_flag("l"), Some(BAction::List)));
    assert!(matches!(get_action_from_flag("list"), Some(BAction::List)));
    assert!(matches!(get_action_from_flag("r"), Some(BAction::Remove)));
    assert!(matches!(
        get_action_from_flag("remove"),
        Some(BAction::Remove)
    ));
    assert!(get_action_from_flag("invalid").is_none());
}

#[test]
fn test_add_command_variants() {
    let args1 = BArgs::parse(
        vec![
            "bjourn".to_string(),
            "add".to_string(),
            "this".to_string(),
            "is".to_string(),
            "a".to_string(),
            "test".to_string(),
        ],
        None,
    );
    assert!(matches!(args1.action, BAction::Add));
    assert_eq!(args1.input.unwrap(), "this is a test");

    let args2 = BArgs::parse(
        vec![
            "bjourn".to_string(),
            "this".to_string(),
            "is".to_string(),
            "a".to_string(),
            "test".to_string(),
        ],
        None,
    );
    assert!(matches!(args2.action, BAction::Add));
    assert_eq!(args2.input.unwrap(), "this is a test");

    let args3 = BArgs::parse(
        vec![
            "bjourn".to_string(),
            "--add".to_string(),
            "this".to_string(),
            "is".to_string(),
            "a".to_string(),
            "test".to_string(),
        ],
        None,
    );
    assert!(matches!(args3.action, BAction::Add));
    assert_eq!(args3.input.unwrap(), "this is a test");

    let args4 = BArgs::parse(
        vec![
            "bjourn".to_string(),
            "-a".to_string(),
            "this".to_string(),
            "is".to_string(),
            "a".to_string(),
            "test".to_string(),
        ],
        None,
    );
    assert!(matches!(args4.action, BAction::Add));
    assert_eq!(args4.input.unwrap(), "this is a test");

    let args5 = BArgs::parse(
        vec!["bjourn".to_string(), "this is a test".to_string()],
        None,
    );
    assert!(matches!(args5.action, BAction::Add));
    assert_eq!(args5.input.unwrap(), "this is a test");

    let args6 = BArgs::parse(
        vec!["bjourn".to_string(), "this".to_string(), "is".to_string()],
        Some("This is stdin input".to_string()),
    );
    assert!(matches!(args6.action, BAction::Add));
    assert_eq!(args6.input.unwrap(), "This is stdin input this is");
}

#[test]
fn test_option_inputs() {
    let args1 = BArgs::parse(
        vec![
            "bjourn".to_string(),
            "--output".to_string(),
            "json".to_string(),
            "this".to_string(),
            "is".to_string(),
            "a".to_string(),
            "test".to_string(),
        ],
        None,
    );
    assert!(matches!(args1.action, BAction::Add));
    assert_eq!(args1.input.clone().unwrap(), "this is a test");
    assert_eq!(args1.flag_arg("output"), Some("json".to_string()));

    let args2 = BArgs::parse(
        vec!["bjourn".to_string(), "-o".to_string(), "json".to_string()],
        None,
    );
    assert!(matches!(args2.action, BAction::ListDefault));
    assert_eq!(args2.input, None);
    assert_eq!(args2.flag_arg("output"), Some("json".to_string()));
}

#[test]
fn bare_program_name_lists_by_default() {
    let r = BArgs::parse(strings(&["bjourn"]), None);
    assert_eq!(r.action, BAction::ListDefault);
    assert_eq!(r.input, None);
    assert!(r.warnings.is_empty());
}

#[test]
fn words_only_are_joined_and_added() {
    let r = BArgs::parse(strings(&["bjourn", "met", "list", "add", "--", "-"]), None);
    // "--" is a long flag with the empty spelling, "-" an empty cluster.
    assert_eq!(r.action, BAction::Add);
    assert_eq!(r.input.as_deref(), Some("met list add"));
    assert_eq!(r.warnings, vec![BWarning::UnknownFlag(String::new())]);

    let r = BArgs::parse(strings(&["bjourn", "one", "", "two words"]), None);
    assert_eq!(r.action, BAction::Add);
    assert_eq!(r.input.as_deref(), Some("one  two words"));
    assert!(r.warnings.is_empty());
}

#[test]
fn text_with_dashes_and_a_space_is_text() {
    let r = BArgs::parse(strings(&["bjourn", "-- not a flag", "-a b"]), None);
    assert_eq!(r.action, BAction::Add);
    assert_eq!(r.input.as_deref(), Some("-- not a flag -a b"));
    assert!(r.warnings.is_empty());
}

#[test]
fn bare_action_word_is_not_text() {
    for (word, action) in [
        ("add", BAction::Add),
        ("list", BAction::List),
        ("remove", BAction::Remove),
        ("help", BAction::Help),
        ("version", BAction::Version),
    ] {
        let r = BArgs::parse(strings(&["bjourn", word, "x"]), None);
        assert_eq!(r.action, action);
        assert_eq!(r.input.as_deref(), Some("x"));
    }
    // The short names are flags only; as words they are text.
    let r = BArgs::parse(strings(&["bjourn", "l", "x"]), None);
    assert_eq!(r.action, BAction::Add);
    assert_eq!(r.input.as_deref(), Some("l x"));
}

#[test]
fn action_word_after_text_is_text() {
    let r = BArgs::parse(strings(&["bjourn", "hello", "list"]), None);
    assert_eq!(r.action, BAction::Add);
    assert_eq!(r.input.as_deref(), Some("hello list"));

    let r = BArgs::parse(strings(&["bjourn", "--remove", "list"]), None);
    assert_eq!(r.action, BAction::Remove);
    assert_eq!(r.input.as_deref(), Some("list"));
}

#[test]
fn action_flag_anywhere_wins() {
    let r = BArgs::parse(strings(&["bjourn", "hello", "--list"]), None);
    assert_eq!(r.action, BAction::List);
    assert_eq!(r.input.as_deref(), Some("hello"));

    let r = BArgs::parse(strings(&["bjourn", "list", "-r", "Zx81"]), None);
    assert_eq!(r.action, BAction::Remove);
    assert_eq!(r.input.as_deref(), Some("Zx81"));
}

#[test]
fn cluster_letters_are_looked_up_one_by_one() {
    let r = BArgs::parse(strings(&["bjourn", "-al"]), None);
    assert_eq!(r.action, BAction::List);
    assert_eq!(r.input, None);
    assert!(r.warnings.is_empty());

    let r = BArgs::parse(strings(&["bjourn", "-V"]), None);
    assert_eq!(r.action, BAction::Version);

    let r = BArgs::parse(strings(&["bjourn", "-lxo", "json", "2024-01-05"]), None);
    assert_eq!(r.action, BAction::List);
    assert_eq!(r.flag_arg("output"), Some("json".to_string()));
    assert_eq!(r.input.as_deref(), Some("2024-01-05"));
    assert_eq!(r.warnings, vec![BWarning::UnknownFlag("x".to_string())]);
}

#[test]
fn value_flag_must_stand_last_in_its_cluster() {
    let r = BArgs::parse(strings(&["bjourn", "-ol", "json"]), None);
    assert_eq!(r.action, BAction::List);
    assert_eq!(r.flag_arg("output"), None);
    assert_eq!(r.input.as_deref(), Some("json"));
    assert_eq!(
        r.warnings,
        vec![BWarning::ValueFlagNotLast("ol".to_string(), 0)]
    );
    assert_eq!(
        r.warnings[0].message(),
        "Warning: Flag ol requires an argument, so must be the last argument in the list 0 2"
    );
}

#[test]
fn value_flag_without_a_value_is_reported() {
    let r = BArgs::parse(strings(&["bjourn", "--output"]), None);
    assert_eq!(r.action, BAction::ListDefault);
    assert_eq!(r.flag_arg("output"), None);
    assert_eq!(r.warnings, vec![BWarning::MissingValue("output".to_string())]);
    assert_eq!(
        r.warnings[0].message(),
        "Warning: Flag output requires an argument"
    );

    let r = BArgs::parse(strings(&["bjourn", "-f", "--add", "note"]), None);
    assert_eq!(r.action, BAction::Add);
    assert_eq!(r.flag_arg("format"), None);
    assert_eq!(r.input.as_deref(), Some("note"));
    assert_eq!(r.warnings, vec![BWarning::MissingValue("f".to_string())]);
}

#[test]
fn unknown_flag_is_reported_and_skipped() {
    let r = BArgs::parse(strings(&["prog", "--bogus", "x"]), None);
    assert_eq!(r.action, BAction::Add);
    assert_eq!(r.input.as_deref(), Some("x"));
    assert_eq!(r.warnings, vec![BWarning::UnknownFlag("bogus".to_string())]);
    assert_eq!(r.warnings[0].message(), "Warning: Unknown flag: bogus");
    assert!(!r.has_flag("bogus"));
}

#[test]
fn the_value_given_last_stays() {
    let r = BArgs::parse(
        strings(&["bjourn", "-o", "md", "--output", "json", "--format", "{bullet}"]),
        None,
    );
    assert_eq!(r.action, BAction::ListDefault);
    assert_eq!(r.flag_arg("output"), Some("json".to_string()));
    assert_eq!(r.flag_arg("format"), Some("{bullet}".to_string()));
    assert_eq!(r.flag_arg("o"), None);
    assert!(!r.has_flag("output"));
    assert_eq!(r.input, None);
}

#[test]
fn piped_text_comes_first() {
    let r = BArgs::parse(
        strings(&["prog", "this", "is"]),
        Some("This is stdin input".to_string()),
    );
    assert_eq!(r.input.as_deref(), Some("This is stdin input this is"));

    let r = BArgs::parse(strings(&["prog"]), Some("  piped\n".to_string()));
    assert_eq!(r.action, BAction::Add);
    assert_eq!(r.input.as_deref(), Some("piped"));

    let r = BArgs::parse(strings(&["prog", "list"]), Some("2024-01-05\n".to_string()));
    assert_eq!(r.action, BAction::List);
    assert_eq!(r.input.as_deref(), Some("2024-01-05"));
}

#[test]
fn empty_piped_text_still_adds() {
    let r = BArgs::parse(strings(&["prog"]), Some(" \n\t".to_string()));
    assert_eq!(r.action, BAction::Add);
    assert_eq!(r.input.as_deref(), Some(""));
}

#[test]
fn no_arguments_at_all() {
    let r = BArgs::parse(Vec::new(), None);
    assert_eq!(r.action, BAction::ListDefault);
    assert_eq!(r.input, None);
}

#[test]
fn parsing_twice_gives_the_same() {
    let args = strings(&["prog", "-lq", "--output", "json", "--nope", "a", "list", "-o"]);
    let piped = Some(" from a pipe \n".to_string());
    let a = BArgs::parse(args.clone(), piped.clone());
    let b = BArgs::parse(args.clone(), piped);
    assert_eq!(a.action, b.action);
    assert_eq!(a.input, b.input);
    assert_eq!(a.warnings, b.warnings);
    assert_eq!(a.args, b.args);
    assert_eq!(a.args, args);
    for name in ["output", "format", "o", "nope"] {
        assert_eq!(a.flag_arg(name), b.flag_arg(name));
        assert_eq!(a.has_flag(name), b.has_flag(name));
    }
    assert_eq!(a.action, BAction::List);
    assert_eq!(a.input.as_deref(), Some("from a pipe a list"));
    assert_eq!(
        a.warnings,
        vec![
            BWarning::UnknownFlag("q".to_string()),
            BWarning::UnknownFlag("nope".to_string()),
            BWarning::MissingValue("o".to_string()),
        ]
    );
}

#[test]
fn piped_lines_are_put_together() {
    let r = parse_args(
        strings(&["prog", "and", "more"]),
        strings(&["first line", "second line"]),
    );
    assert_eq!(r.action, BAction::Add);
    assert_eq!(r.input.as_deref(), Some("first line\nsecond line and more"));
}

#[test]
fn blank_piped_lines_count_as_no_pipe() {
    let r = parse_args(strings(&["prog"]), strings(&["", "   ", "\t"]));
    assert_eq!(r.action, BAction::ListDefault);
    assert_eq!(r.input, None);

    let r = parse_args(strings(&["prog"]), Vec::new());
    assert_eq!(r.action, BAction::ListDefault);
    assert_eq!(r.input, None);

    let r = parse_args(strings(&["prog", "note"]), strings(&[""]));
    assert_eq!(r.action, BAction::Add);
    assert_eq!(r.input.as_deref(), Some("note"));
}

#[test]
fn option_table() {
    assert_eq!(get_flag_from_flag("o"), Some(("output", true)));
    assert_eq!(get_flag_from_flag("output"), Some(("output", true)));
    assert_eq!(get_flag_from_flag("f"), Some(("format", true)));
    assert_eq!(get_flag_from_flag("format"), Some(("format", true)));
    assert_eq!(get_flag_from_flag("add"), None);
    assert_eq!(get_flag_from_flag(""), None);
    assert_eq!(get_flag_from_flag("O"), None);
}

#[test]
fn action_table() {
    assert_eq!(get_action_from_flag("h"), Some(BAction::Help));
    assert_eq!(get_action_from_flag("help"), Some(BAction::Help));
    assert_eq!(get_action_from_flag("v"), Some(BAction::Version));
    assert_eq!(get_action_from_flag("V"), Some(BAction::Version));
    assert_eq!(get_action_from_flag("version"), Some(BAction::Version));
    assert_eq!(get_action_from_flag("A"), None);
    assert_eq!(get_action_from_flag("ad"), None);
    assert_eq!(get_action_from_flag("addd"), None);
    assert_eq!(get_action_from_flag(""), None);
    assert_eq!(get_action_from_flag("output"), None);
}
