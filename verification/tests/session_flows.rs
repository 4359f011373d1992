use mcp_stdio::session::{Action, Event, Session};

fn metadata_ok() -> Event {
    Event::MetadataRead(Ok(0o644))
}

fn pipes_ok() -> Event {
    Event::Spawned(Ok((true, true)))
}

fn line(s: &str) -> Event {
    Event::LineRead(Ok(String::from(s)))
}

#[test]
fn list_returns_the_tools_verbatim() {
    let (mut s, first) = Session::list_session(String::from("/srv/provider"));
    assert!(matches!(first, Action::CheckPath));
    assert!(matches!(s.step(Event::PathChecked(true)), Action::ReadMetadata));
    match s.step(metadata_ok()) {
        Action::SetPermissions(mode) => assert_eq!(mode, 0o755),
        _ => panic!("expected SetPermissions"),
    }
    assert!(matches!(s.step(Event::PermissionsSet(Ok(()))), Action::Spawn));
    let written = match s.step(pipes_ok()) {
        Action::WriteLine(l) => l,
        _ => panic!("expected WriteLine"),
    };
    assert_eq!(
        written,
        "{\"jsonrpc\":\"2.0\",\"id\":1,\"method\":\"tools/list\",\"params\":{}}\n"
    );
    assert!(matches!(s.step(Event::LineWritten(Ok(()))), Action::ReadLine));
    let reply = "{\"jsonrpc\":\"2.0\",\"id\":1,\"result\":{\"tools\":[{\"name\":\"echo\"},{\"name\":\"add\"}]}}\n";
    assert!(matches!(s.step(line(reply)), Action::Terminate));
    let outcome = match s.step(Event::Terminated) {
        Action::Finish(oc) => oc,
        _ => panic!("expected Finish"),
    };
    let tools = outcome.unwrap();
    let expected: serde_json::Value =
        serde_json::from_str("[{\"name\":\"echo\"},{\"name\":\"add\"}]").unwrap();
    assert_eq!(tools, expected);
}

#[test]
fn list_without_result_reports_missing_result() {
    let (mut s, _) = Session::list_session(String::from("/srv/provider"));
    s.step(Event::PathChecked(true));
    s.step(metadata_ok());
    s.step(Event::PermissionsSet(Ok(())));
    s.step(pipes_ok());
    s.step(Event::LineWritten(Ok(())));
    assert!(matches!(
        s.step(line("{\"jsonrpc\":\"2.0\",\"id\":1}\n")),
        Action::Terminate
    ));
    match s.step(Event::Terminated) {
        Action::Finish(Err(m)) => assert_eq!(m, "tools/list response missing result"),
        _ => panic!("expected a failing Finish"),
    }
}

#[test]
fn list_without_tools_key_reports_it() {
    let (mut s, _) = Session::list_session(String::from("/srv/provider"));
    s.step(Event::PathChecked(true));
    s.step(metadata_ok());
    s.step(Event::PermissionsSet(Ok(())));
    s.step(pipes_ok());
    s.step(Event::LineWritten(Ok(())));
    s.step(line("{\"jsonrpc\":\"2.0\",\"id\":1,\"result\":{\"items\":[]}}\n"));
    match s.step(Event::Terminated) {
        Action::Finish(Err(m)) => assert_eq!(m, "tools key not found in result"),
        _ => panic!("expected a failing Finish"),
    }
}

#[test]
fn call_sends_ids_one_then_two_and_returns_content() {
    let args: serde_json::Value =
        serde_json::from_str("{\"left\":2,\"right\":[3,\"4\"]}").unwrap();
    let (mut s, _) = Session::call_session(
        String::from("/srv/provider"),
        String::from("adder"),
        args.clone(),
    );
    s.step(Event::PathChecked(true));
    s.step(metadata_ok());
    s.step(Event::PermissionsSet(Ok(())));
    let first = match s.step(pipes_ok()) {
        Action::WriteLine(l) => l,
        _ => panic!("expected the first WriteLine"),
    };
    let first_doc: serde_json::Value = serde_json::from_str(&first).unwrap();
    assert_eq!(first_doc["id"].as_u64(), Some(1));
    assert_eq!(first_doc["method"].as_str(), Some("tools/list"));

    s.step(Event::LineWritten(Ok(())));
    match s.step(line("{\"jsonrpc\":\"2.0\",\"id\":1,\"result\":{\"tools\":[]}}\n")) {
        Action::Pause(ms) => assert_eq!(ms, 100),
        _ => panic!("expected Pause"),
    }
    let second = match s.step(Event::Paused) {
        Action::WriteLine(l) => l,
        _ => panic!("expected the second WriteLine"),
    };
    let second_doc: serde_json::Value = serde_json::from_str(&second).unwrap();
    assert_eq!(second_doc["id"].as_u64(), Some(2));
    assert_eq!(second_doc["method"].as_str(), Some("tools/call"));
    assert_eq!(second_doc["params"]["name"].as_str(), Some("adder"));
    assert_eq!(second_doc["params"]["arguments"], args);

    s.step(Event::LineWritten(Ok(())));
    let reply = "{\"jsonrpc\":\"2.0\",\"id\":2,\"result\":{\"content\":[{\"type\":\"text\",\"text\":\"5\"}]}}\n";
    assert!(matches!(s.step(line(reply)), Action::Terminate));
    match s.step(Event::Terminated) {
        Action::Finish(Ok(content)) => {
            let expected: serde_json::Value =
                serde_json::from_str("[{\"type\":\"text\",\"text\":\"5\"}]").unwrap();
            assert_eq!(content, expected);
        },
        _ => panic!("expected a successful Finish"),
    }
}

#[test]
fn call_without_content_returns_null() {
    let (mut s, _) = Session::call_session(
        String::from("/srv/provider"),
        String::from("ping"),
        serde_json::Value::Null,
    );
    s.step(Event::PathChecked(true));
    s.step(metadata_ok());
    s.step(Event::PermissionsSet(Ok(())));
    s.step(pipes_ok());
    s.step(Event::LineWritten(Ok(())));
    s.step(line("{\"jsonrpc\":\"2.0\",\"id\":1,\"result\":{\"tools\":[]}}\n"));
    s.step(Event::Paused);
    s.step(Event::LineWritten(Ok(())));
    s.step(line("{\"jsonrpc\":\"2.0\",\"id\":2,\"result\":{}}\n"));
    match s.step(Event::Terminated) {
        Action::Finish(Ok(content)) => assert!(content.is_null()),
        _ => panic!("expected a successful Finish"),
    }
}

#[test]
fn call_without_result_reports_missing_result() {
    let (mut s, _) = Session::call_session(
        String::from("/srv/provider"),
        String::from("ping"),
        serde_json::Value::Null,
    );
    s.step(Event::PathChecked(true));
    s.step(metadata_ok());
    s.step(Event::PermissionsSet(Ok(())));
    s.step(pipes_ok());
    s.step(Event::LineWritten(Ok(())));
    s.step(line("{\"jsonrpc\":\"2.0\",\"id\":1,\"result\":{\"tools\":[]}}\n"));
    s.step(Event::Paused);
    s.step(Event::LineWritten(Ok(())));
    s.step(line("{\"jsonrpc\":\"2.0\",\"id\":2,\"error\":{\"code\":-1}}\n"));
    match s.step(Event::Terminated) {
        Action::Finish(Err(m)) => assert_eq!(m, "tools/call response missing result"),
        _ => panic!("expected a failing Finish"),
    }
}

#[test]
fn missing_path_fails_before_any_spawn() {
    let (mut s, first) = Session::list_session(String::from("/no/such/provider"));
    assert!(matches!(first, Action::CheckPath));
    match s.step(Event::PathChecked(false)) {
        Action::Finish(Err(m)) => {
            assert_eq!(m, "Executable not found: /no/such/provider");
        },
        _ => panic!("expected an immediate failing Finish"),
    }
}

#[test]
fn malformed_reply_keeps_the_raw_line_in_the_message() {
    let (mut s, _) = Session::list_session(String::from("/srv/provider"));
    s.step(Event::PathChecked(true));
    s.step(metadata_ok());
    s.step(Event::PermissionsSet(Ok(())));
    s.step(pipes_ok());
    s.step(Event::LineWritten(Ok(())));
    assert!(matches!(s.step(line("garbage not json\n")), Action::Terminate));
    match s.step(Event::Terminated) {
        Action::Finish(Err(m)) => {
            assert!(m.contains("garbage not json"));
            assert!(m.starts_with("Error parsing JSON 'garbage not json': "));
        },
        _ => panic!("expected a failing Finish"),
    }
}

#[test]
fn handshake_parse_failure_is_surfaced_to_the_caller() {
    let (mut s, _) = Session::call_session(
        String::from("/srv/provider"),
        String::from("ping"),
        serde_json::Value::Null,
    );
    s.step(Event::PathChecked(true));
    s.step(metadata_ok());
    s.step(Event::PermissionsSet(Ok(())));
    s.step(pipes_ok());
    s.step(Event::LineWritten(Ok(())));
    assert!(matches!(s.step(line("broken\n")), Action::Terminate));
    match s.step(Event::Terminated) {
        Action::Finish(Err(m)) => assert!(m.starts_with("Error parsing JSON 'broken': ")),
        _ => panic!("expected a failing Finish"),
    }
}

#[test]
fn metadata_failure_is_reported() {
    let (mut s, _) = Session::list_session(String::from("/srv/provider"));
    s.step(Event::PathChecked(true));
    match s.step(Event::MetadataRead(Err(String::from("permission denied")))) {
        Action::Finish(Err(m)) => assert_eq!(m, "metadata error: permission denied"),
        _ => panic!("expected a failing Finish"),
    }
}

#[test]
fn chmod_failure_is_reported() {
    let (mut s, _) = Session::list_session(String::from("/srv/provider"));
    s.step(Event::PathChecked(true));
    s.step(metadata_ok());
    match s.step(Event::PermissionsSet(Err(String::from("read-only file system")))) {
        Action::Finish(Err(m)) => assert_eq!(m, "chmod error: read-only file system"),
        _ => panic!("expected a failing Finish"),
    }
}

#[test]
fn spawn_failure_names_path_and_cause() {
    let (mut s, _) = Session::list_session(String::from("/srv/provider"));
    s.step(Event::PathChecked(true));
    s.step(metadata_ok());
    s.step(Event::PermissionsSet(Ok(())));
    match s.step(Event::Spawned(Err(String::from("text file busy")))) {
        Action::Finish(Err(m)) => {
            assert_eq!(m, "Failed to start `/srv/provider`: text file busy");
        },
        _ => panic!("expected a failing Finish"),
    }
}

#[test]
fn missing_pipes_terminate_the_child() {
    let (mut s, _) = Session::list_session(String::from("/srv/provider"));
    s.step(Event::PathChecked(true));
    s.step(metadata_ok());
    s.step(Event::PermissionsSet(Ok(())));
    assert!(matches!(s.step(Event::Spawned(Ok((false, true)))), Action::Terminate));
    match s.step(Event::Terminated) {
        Action::Finish(Err(m)) => assert_eq!(m, "Failed to open stdin"),
        _ => panic!("expected a failing Finish"),
    }

    let (mut s, _) = Session::list_session(String::from("/srv/provider"));
    s.step(Event::PathChecked(true));
    s.step(metadata_ok());
    s.step(Event::PermissionsSet(Ok(())));
    assert!(matches!(s.step(Event::Spawned(Ok((true, false)))), Action::Terminate));
    match s.step(Event::Terminated) {
        Action::Finish(Err(m)) => assert_eq!(m, "Failed to open stdout"),
        _ => panic!("expected a failing Finish"),
    }
}

#[test]
fn write_failure_still_terminates() {
    let (mut s, _) = Session::list_session(String::from("/srv/provider"));
    s.step(Event::PathChecked(true));
    s.step(metadata_ok());
    s.step(Event::PermissionsSet(Ok(())));
    s.step(pipes_ok());
    assert!(matches!(
        s.step(Event::LineWritten(Err(String::from("broken pipe")))),
        Action::Terminate
    ));
    match s.step(Event::Terminated) {
        Action::Finish(Err(m)) => assert_eq!(m, "Error writing stdin: broken pipe"),
        _ => panic!("expected a failing Finish"),
    }
}

#[test]
fn read_failure_still_terminates() {
    let (mut s, _) = Session::list_session(String::from("/srv/provider"));
    s.step(Event::PathChecked(true));
    s.step(metadata_ok());
    s.step(Event::PermissionsSet(Ok(())));
    s.step(pipes_ok());
    s.step(Event::LineWritten(Ok(())));
    assert!(matches!(
        s.step(Event::LineRead(Err(String::from("stream closed")))),
        Action::Terminate
    ));
    match s.step(Event::Terminated) {
        Action::Finish(Err(m)) => assert_eq!(m, "Error reading stdout: stream closed"),
        _ => panic!("expected a failing Finish"),
    }
}

#[test]
fn apply_executable_flag_decides_mode_or_failure() {
    assert_eq!(
        mcp_stdio::session::apply_executable_flag(Ok(0o600)),
        Ok(0o755)
    );
    assert_eq!(
        mcp_stdio::session::apply_executable_flag(Err(String::from("no such file"))),
        Err(String::from("metadata error: no such file"))
    );
}
