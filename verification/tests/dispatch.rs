use bjourn::bargs::{BArgs, BJournRunner};
use bjourn::dispatch::{command, setting_is_off, setting_is_on, shows_usage, Command};
use bjourn::registry::BAction;

fn parsed(words: &[&str]) -> BArgs {
    BArgs::parse(words.iter().map(|w| w.to_string()).collect(), None)
}

#[test]
fn each_action_has_its_command() {
    assert_eq!(command(&parsed(&["bjourn"])), Command::ListToday);
    assert_eq!(command(&parsed(&["bjourn", "-v"])), Command::ShowVersion);
    assert_eq!(command(&parsed(&["bjourn", "help"])), Command::ShowHelp);
    assert_eq!(command(&parsed(&["bjourn", "list", "2024-01-05"])), Command::List);
    assert_eq!(
        command(&parsed(&["bjourn", "met", "Ada"])),
        Command::Add("met Ada".to_string())
    );
    assert_eq!(
        command(&parsed(&["bjourn", "remove", "ZScG1V3i"])),
        Command::Remove("ZScG1V3i".to_string())
    );
}

#[test]
fn add_and_remove_need_text() {
    assert_eq!(
        command(&parsed(&["bjourn", "add"])),
        Command::MissingText(BAction::Add)
    );
    assert_eq!(
        command(&parsed(&["bjourn", "-r"])),
        Command::MissingText(BAction::Remove)
    );
}

#[test]
fn settings_from_the_environment() {
    let some = |s: &str| Some(s.to_string());
    assert!(setting_is_on(&some("true")));
    assert!(setting_is_on(&some("1")));
    assert!(!setting_is_on(&some("yes")));
    assert!(!setting_is_on(&some("")));
    assert!(!setting_is_on(&None));
    assert!(setting_is_off(&some("false")));
    assert!(setting_is_off(&some("0")));
    assert!(!setting_is_off(&some("no")));
    assert!(!setting_is_off(&None));
}

#[test]
fn usage_note_only_on_a_terminal() {
    assert!(shows_usage(true, &None));
    assert!(shows_usage(true, &Some("true".to_string())));
    assert!(!shows_usage(true, &Some("false".to_string())));
    assert!(!shows_usage(true, &Some("0".to_string())));
    assert!(!shows_usage(false, &None));
}
