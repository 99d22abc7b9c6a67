use rusty_chess::config::{update_result, ConfigResult};

#[test]
fn update_result_accumulates_errors() {
    let mut res = ConfigResult::Loaded;
    update_result(&mut res, Err("first".into()));
    update_result(&mut res, Err("second".into()));

    if let ConfigResult::ParsingError(errs) = res {
        assert_eq!(errs, vec!["first", "second"]);
    } else {
        panic!("Expected ParsingError variant");
    }
}

#[test]
fn update_result_keeps_what_was_understood() {
    let mut res = ConfigResult::Loaded;
    update_result(&mut res, Ok(()));
    assert!(matches!(res, ConfigResult::Loaded));
    update_result(&mut res, Err("bad".into()));
    update_result(&mut res, Ok(()));
    if let ConfigResult::ParsingError(errs) = res {
        assert_eq!(errs, vec!["bad"]);
    } else {
        panic!("Expected ParsingError variant");
    }
}

#[test]
fn update_result_notes_nothing_without_a_configuration() {
    let mut res = ConfigResult::NoConfigFile("gone".to_string());
    update_result(&mut res, Err("bad".into()));
    match res {
        ConfigResult::NoConfigFile(message) => assert_eq!(message, "gone"),
        _ => panic!("Expected NoConfigFile variant"),
    }
    let mut res = ConfigResult::InvalidUtf8("bytes".to_string());
    update_result(&mut res, Err("bad".into()));
    match res {
        ConfigResult::InvalidUtf8(message) => assert_eq!(message, "bytes"),
        _ => panic!("Expected InvalidUtf8 variant"),
    }
}

// ---- reading lines ----

use rusty_chess::config::{read_line, ConfigLine};

#[test]
fn lines_are_read_without_regard_to_case() {
    assert_eq!(read_line("log_mode", "terminal"), Ok(ConfigLine::LogToTerminal));
    assert_eq!(read_line("log_mode", "ui"), Ok(ConfigLine::LogToTerminal));
    assert_eq!(read_line("LOG_MODE", "File"), Ok(ConfigLine::LogToFile));
    assert_eq!(read_line("log_mode", "printer"), Ok(ConfigLine::Nothing));
    assert_eq!(read_line("log_file", "mylog.txt"), Ok(ConfigLine::LogFile));
    assert_eq!(read_line("Log_File", ""), Ok(ConfigLine::LogFile));
    assert_eq!(read_line("terminal", "true"), Ok(ConfigLine::TerminalUi));
    assert_eq!(read_line("terminal", "1"), Ok(ConfigLine::TerminalUi));
    assert_eq!(read_line("terminal", "FALSE"), Ok(ConfigLine::GraphicalUi));
    assert_eq!(read_line("terminal", "0"), Ok(ConfigLine::GraphicalUi));
    assert_eq!(read_line("terminal", "maybe"), Ok(ConfigLine::Nothing));
    assert_eq!(read_line("test", "true"), Ok(ConfigLine::Nothing));
    assert_eq!(read_line("TEST", "1"), Ok(ConfigLine::Nothing));
}

#[test]
fn lines_that_are_not_understood_have_a_message() {
    assert_eq!(read_line("test", "false"), Err("Config test failed".to_string()));
    assert_eq!(read_line("test", ""), Err("Config test failed".to_string()));
    assert_eq!(
        read_line("colour", "Red"),
        Err("Could not parse variable/value pair: variable=\"colour\", and value=\"Red\""
            .to_string())
    );
    assert_eq!(
        read_line("", ""),
        Err("Could not parse variable/value pair: variable=\"\", and value=\"\"".to_string())
    );
    // only the letters A to Z have two cases here
    assert!(read_line("tést", "true").is_err());
    assert!(read_line("log_mode ", "file").is_err());
    let mut res = ConfigResult::Loaded;
    for (variable, value) in [("terminal", "1"), ("colour", "red"), ("test", "no")] {
        update_result(&mut res, read_line(variable, value).map(|_| ()));
    }
    match res {
        ConfigResult::ParsingError(errs) => assert_eq!(
            errs,
            vec![
                "Could not parse variable/value pair: variable=\"colour\", and value=\"red\"",
                "Config test failed"
            ]
        ),
        _ => panic!("Expected ParsingError variant"),
    }
}
