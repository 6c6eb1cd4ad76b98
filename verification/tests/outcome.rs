use tweetr::Outcome;

fn printed(outcome: &Outcome) -> String {
    let mut out: Vec<u8> = Vec::new();
    outcome.print_error(&mut out);
    String::from_utf8(out).unwrap()
}

#[test]
fn override_no_force_message() {
    assert_eq!(
        printed(&Outcome::OverrideNoForce("doctest".to_string())),
        "File \"doctest\" was not overriden to prevent data loss.\n\
         Pass --force to override it.\n"
            .to_string()
    );
}

#[test]
fn no_error_prints_nothing() {
    assert_eq!(printed(&Outcome::NoError), "".to_string());
}

#[test]
fn required_file_message() {
    assert_eq!(
        printed(&Outcome::RequiredFileFromSubsystemNonexistant {
            subsys: "init",
            fname: "users.toml".to_string(),
        }),
        "Run the init subsystem first to produce \"users.toml\".\n".to_string()
    );
}

#[test]
fn required_data_message() {
    assert_eq!(
        printed(&Outcome::RequiredDataFromSubsystemNonexistant {
            subsys: "add-user",
            desc: "register a user".to_string(),
        }),
        "Run the add-user subsystem first to register a user.\n".to_string()
    );
}

#[test]
fn twitter_api_error_message() {
    assert_eq!(
        printed(&Outcome::TwitterAPIError("rate limited".to_string())),
        "Twitter API error: rate limited\n".to_string()
    );
}

#[test]
fn file_parsing_failed_message_without_errors() {
    assert_eq!(
        printed(&Outcome::FileParsingFailed {
            desc: "users.toml",
            errors: vec![],
        }),
        "Failed to parse users.toml.\n".to_string()
    );
}

#[test]
fn file_parsing_failed_message_with_errors() {
    assert_eq!(
        printed(&Outcome::FileParsingFailed {
            desc: "users.toml",
            errors: vec!["missing key".to_string(), "bad value".to_string()],
        }),
        "Failed to parse users.toml:\n  missing key\n  bad value\n".to_string()
    );
}

#[test]
fn error_message_matches_printed_output() {
    let outcome = Outcome::TwitterAPIError("no network".to_string());
    assert_eq!(outcome.error_message(), printed(&outcome));
}

#[test]
fn exit_values() {
    assert_eq!(Outcome::NoError.exit_value(), 0);
    assert_eq!(Outcome::OverrideNoForce("f".to_string()).exit_value(), 1);
    assert_eq!(
        Outcome::RequiredFileFromSubsystemNonexistant {
            subsys: "init",
            fname: "f".to_string(),
        }
        .exit_value(),
        2
    );
    assert_eq!(
        Outcome::RequiredDataFromSubsystemNonexistant {
            subsys: "add-user",
            desc: "d".to_string(),
        }
        .exit_value(),
        2
    );
    assert_eq!(Outcome::TwitterAPIError("m".to_string()).exit_value(), 3);
    assert_eq!(
        Outcome::FileParsingFailed {
            desc: "d",
            errors: vec![],
        }
        .exit_value(),
        4
    );
}
