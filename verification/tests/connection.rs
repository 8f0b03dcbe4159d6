use block_latency::args::{App, Command, StreamKind};
use block_latency::connection::{
    either_empty, get_connection_info, source_variables, EmptyConnectionInfo, SourceVariables,
};
use std::path::PathBuf;

#[test]
fn laserstream_has_its_own_variables() {
    assert_eq!(
        source_variables(true),
        SourceVariables { url: "LASERSTREAM_URL", token: "LASERSTREAM_TOKEN" }
    );
}

#[test]
fn yellowstone_has_its_own_variables() {
    assert_eq!(
        source_variables(false),
        SourceVariables { url: "YELLOWSTONE_GRPC_URL", token: "YELLOWSTONE_GRPC_TOKEN" }
    );
}

#[test]
fn address_and_token_are_handed_back_unchanged() {
    let got = get_connection_info(true, String::from(" https://example.com "), String::from("t\t"));
    assert_eq!(got, Ok((String::from(" https://example.com "), String::from("t\t"))));
}

#[test]
fn blank_address_is_refused() {
    let got = get_connection_info(false, String::from(" \t\n"), String::from("token"));
    assert_eq!(got, Err(EmptyConnectionInfo { variables: source_variables(false) }));
    let got = get_connection_info(false, String::new(), String::from("token"));
    assert_eq!(got, Err(EmptyConnectionInfo { variables: source_variables(false) }));
}

#[test]
fn blank_token_is_refused() {
    let got = get_connection_info(true, String::from("http://example.com"), String::from("\u{3000} "));
    assert_eq!(got, Err(EmptyConnectionInfo { variables: source_variables(true) }));
}

#[test]
fn refusal_names_both_variables() {
    let refused = get_connection_info(true, String::new(), String::new()).unwrap_err();
    assert_eq!(refused.message(), "LASERSTREAM_URL or LASERSTREAM_TOKEN is empty");
    let refused = get_connection_info(false, String::new(), String::new()).unwrap_err();
    assert_eq!(refused.message(), "YELLOWSTONE_GRPC_URL or YELLOWSTONE_GRPC_TOKEN is empty");
}

#[test]
fn either_empty_looks_at_both_texts() {
    assert!(either_empty("", "x"));
    assert!(either_empty("x", ""));
    assert!(either_empty("", ""));
    assert!(!either_empty("x", "y"));
    assert!(!either_empty(" ", " "));
}

#[test]
fn stream_kind_needs_one_source() {
    assert!(StreamKind { laser: true, grpc: false }.is_chosen());
    assert!(StreamKind { laser: false, grpc: true }.is_chosen());
    assert!(StreamKind { laser: true, grpc: true }.is_chosen());
    assert!(!StreamKind { laser: false, grpc: false }.is_chosen());
}

#[test]
fn record_command_carries_kind_and_path() {
    let app = App {
        command: Command::Record {
            kind: StreamKind { laser: false, grpc: true },
            path: PathBuf::from("latency.csv"),
        },
    };
    let Command::Record { kind, path } = app.command;
    assert_eq!(kind, StreamKind { laser: false, grpc: true });
    assert_eq!(path, PathBuf::from("latency.csv"));
}
