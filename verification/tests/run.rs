//! Sessions with several streams.

use iroh_live_cli::args::CaptureArgs;
use iroh_live_cli::run::{
    check_key_name, check_key_name_on, invalid_ticket, key_file, plays_audio, AudioOutput, Closing, Line, RecvConfig,
    RunConfig, SendConfig, Streams,
};

fn send(name: &str) -> SendConfig {
    SendConfig { name: name.to_string(), capture: CaptureArgs::default() }
}

fn recv(name: &str, audio_output: AudioOutput) -> RecvConfig {
    RecvConfig {
        name: name.to_string(),
        ticket: "iroh-live:abc/hello".to_string(),
        audio_output,
        record: None,
        rendition: None,
    }
}

fn session(send: Vec<SendConfig>, recv: Vec<RecvConfig>) -> RunConfig {
    RunConfig { secret_key_name: None, send, recv }
}

#[test]
fn a_config_with_no_blocks_is_rejected() {
    let err = session(vec![], vec![])
        .check("empty.toml")
        .expect_err("an empty session runs nothing");
    assert!(err.contains("nothing to run"), "unexpected: {err}");
}

/// A key name that would escape the key directory is refused.
#[test]
fn a_key_name_is_one_file_name() {
    check_key_name("laptop").expect("an ordinary name");
    check_key_name("laptop.2").expect("a dot inside a name is still a name");

    for name in ["", "/tmp/evil", "../../evil", "a/b", ".", ".."] {
        assert!(
            check_key_name(name).is_err(),
            "{name:?} is not a file name in the key directory",
        );
    }
    assert_eq!(key_file("laptop"), "laptop.key");
}

/// The message quotes the name as Rust would.
/// On Windows a backslash separates too, and a drive is no part of a name.
#[test]
fn a_key_name_is_judged_by_the_platform() {
    for name in ["C:laptop", "c:", "keys\\laptop", "\\laptop", "\\\\host\\share"] {
        assert!(check_key_name_on(name, true).is_err(), "{name:?} is a path on Windows");
        check_key_name_on(name, false).expect("a file name elsewhere");
        check_key_name(name).expect("a file name elsewhere");
    }
    check_key_name_on("1:laptop", true).expect("a drive has a letter");
    check_key_name_on("laptop", true).expect("an ordinary name");
    for name in ["", ".", "..", "keys/laptop"] {
        assert!(check_key_name_on(name, true).is_err(), "{name:?} is no file name anywhere");
    }
}

#[test]
fn a_refused_key_name_is_quoted() {
    let err = check_key_name("a/\"b\"").expect_err("a path is no file name");
    assert!(err.starts_with("secret_key_name = \"a/\\\"b\\\"\" is not"), "unexpected: {err}");
}

#[test]
fn what_a_session_needs() {
    let quiet = session(vec![], vec![recv("a", AudioOutput::Nothing)]);
    assert!(!quiet.serves());
    assert!(!quiet.needs_output());
    let both = session(vec![send("cam")], vec![
        recv("a", AudioOutput::Nothing),
        recv("b", AudioOutput::Default),
    ]);
    assert!(both.serves());
    assert!(both.needs_output());
    assert_eq!(both.loaded_line("s.toml"), "loaded s.toml: 1 send, 2 recv");
    assert!(plays_audio(&both.recv[1], true, 1));
    assert!(!plays_audio(&both.recv[1], true, 0));
    assert!(!plays_audio(&both.recv[0], true, 1));
    assert_eq!(AudioOutput::default(), AudioOutput::Default);
}

/// A block that fails is reported and skipped, and recordings close first.
#[test]
fn recordings_are_closed_first() {
    let config = session(vec![send("cam"), send("screen")], vec![
        recv("a", AudioOutput::Default),
        recv("b", AudioOutput::Default),
    ]);
    let mut streams = Streams::new();
    assert!(streams.ready().is_err());
    let line = streams.sent(&config, 0, Err("busy".to_string()));
    assert!(matches!(line, Line::Problem(text) if text == "[send] cam: busy"));
    let line = streams.sent(&config, 1, Ok("iroh-live:x".to_string()));
    assert!(matches!(line, Line::Out(text) if text == "[send] screen: iroh-live:x"));
    let lines = streams.received(&config, 0, Ok(Some("a.mp4".to_string())));
    assert_eq!(lines.len(), 2);
    assert!(matches!(&lines[1], Line::Out(text) if text == "[recv] a: recording to a.mp4"));
    assert_eq!(streams.received(&config, 1, Ok(None)).len(), 1);
    assert_eq!(streams.ready(), Ok("1 send, 2 recv. press Ctrl+C to stop".to_string()));
    assert_eq!(
        streams.closing(),
        vec![
            Closing::Recording(0),
            Closing::Broadcast(1),
            Closing::Receiver(0),
            Closing::Receiver(1),
        ]
    );
}

#[test]
fn a_bad_ticket_is_told() {
    assert_eq!(
        invalid_ticket("bad"),
        "invalid ticket: bad; it should be the string `irl publish` printed, starting with `iroh-live:`"
    );
}
