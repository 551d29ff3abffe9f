use systemd_dbus::rules::{rule_string, Match};

#[test]
fn rule_string_test() {
    assert_eq!(
        "type='a',interface='i'",
        rule_string(&[
            Match::Type("a".to_string()),
            Match::Interface("i".to_string())
        ])
    )
}

#[test]
fn rule_string_empty() {
    assert_eq!("", rule_string(&[]));
}

#[test]
fn rule_string_single_match() {
    assert_eq!(
        "member='UnitNew'",
        rule_string(&[Match::Member("UnitNew".to_string())])
    );
}

#[test]
fn rule_string_all_kinds() {
    assert_eq!(
        "sender='s',path='/p',destination='d',arg0='x'",
        rule_string(&[
            Match::Sender("s".to_string()),
            Match::Path("/p".to_string()),
            Match::Destination("d".to_string()),
            Match::Arg(0, "x".to_string()),
        ])
    );
}

#[test]
fn arg_match_carries_its_index() {
    assert_eq!(
        "arg12='val'",
        rule_string(&[Match::Arg(12, "val".to_string())])
    );
}
