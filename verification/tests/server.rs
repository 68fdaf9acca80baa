use opsd::server::{judge_key, session_times, AuthVerdict, Server, Subsystem, WindowSize};
use russh_keys::key::{KeyPair, PublicKey};

const KEY: &str = "AAAAC3NzaC1lZDI1NTE5AAAAIJdD7y3aLq454yWBdwLWbieU1ebz9/cu7/QEXn9OIeZJ";

fn key() -> PublicKey {
    russh_keys::parse_public_key_base64(KEY).unwrap()
}

fn stranger() -> PublicKey {
    KeyPair::generate_ed25519().unwrap().clone_public_key().unwrap()
}

fn server() -> Server<&'static str> {
    Server::new(key())
}

#[test]
fn only_the_known_key_is_let_in() {
    let server = server();
    assert_eq!(server.auth_publickey_offered(&key()), AuthVerdict::Accept);
    assert_eq!(server.auth_publickey_offered(&stranger()), AuthVerdict::Reject);
    assert_eq!(server.auth_publickey(), AuthVerdict::Accept);
    assert_eq!(judge_key(true), AuthVerdict::Accept);
    assert_eq!(judge_key(false), AuthVerdict::Reject);
}

#[test]
fn channels_are_taken_once() {
    let mut server = server();
    assert!(server.channel_open_session(1, "one"));
    assert!(server.channel_open_session(2, "two"));
    assert_eq!(server.get_channel(1), "one");
    assert!(!server.clients.contains_key(&1));
    assert!(server.clients.contains_key(&2));
    assert!(server.channel_open_session(2, "again"));
    assert_eq!(server.get_channel(2), "again");
    assert!(server.clients.is_empty());
}

#[test]
fn sftp_is_the_only_subsystem() {
    let mut server = server();
    assert!(server.channel_open_session(7, "channel"));
    assert!(matches!(server.subsystem_request(7, "shell"), Subsystem::Refused));
    assert!(matches!(server.subsystem_request(9, ""), Subsystem::Refused));
    assert!(server.clients.contains_key(&7));
    assert!(matches!(server.subsystem_request(7, "sftp"), Subsystem::Sftp("channel")));
    assert!(server.clients.is_empty());
}

#[test]
fn a_terminal_is_set_up() {
    let mut server = server();
    assert!(server.channel_open_session(3, "tty"));
    let plan = server.pty_request("xterm-256color", 80, 24, 640, 480);
    assert_eq!(plan.program, "/bin/bash");
    assert_eq!(plan.size, WindowSize { rows: 24, cols: 80, width: 640, height: 480 });
    let expected = [
        ("PATH", "/usr/local/sbin:/usr/local/bin:/sbin:/bin:/usr/sbin:/usr/bin:/root/bin"),
        ("LANG", "en_US.UTF-8"),
        ("HISTSIZE", "1000"),
        ("PWD", "/Users/zhuming"),
        ("USER", "zhuming"),
        ("HOME", "/Users/zhuming"),
        ("TERM", "xterm-256color"),
    ];
    assert_eq!(plan.env.len(), expected.len());
    for (pair, (name, value)) in plan.env.iter().zip(expected) {
        assert_eq!(pair.0, name);
        assert_eq!(pair.1, value);
    }
    assert_eq!(server.pty, None);
    assert_eq!(server.pty_opened(3, 11), "tty");
    assert_eq!(server.pty, Some(11));
    assert!(server.clients.is_empty());
}

#[test]
fn a_terminal_is_resized() {
    let mut server = server();
    assert!(server.channel_open_session(3, "tty"));
    assert_eq!(server.pty_opened(3, 11), "tty");
    let (terminal, size) = server.window_change_request(132, 50, 1000, 2000);
    assert_eq!(terminal, 11);
    assert_eq!(size, WindowSize { rows: 50, cols: 132, width: 0, height: 0 });
    let (_, size) = server.window_change_request(65536 + 5, u32::MAX, 0, 0);
    assert_eq!(size, WindowSize { rows: 65535, cols: 5, width: 0, height: 0 });
}

#[test]
fn times_of_a_session() {
    let times = session_times();
    assert_eq!(times.inactivity, 3600);
    assert_eq!(times.auth_rejection, 3);
    assert_eq!(times.auth_rejection_initial, 0);
}

#[test]
fn an_opened_channel_stays_through_uses_of_others() {
    let mut server = server();
    assert!(server.channel_open_session(1, "one"));
    assert!(server.channel_open_session(2, "two"));
    assert!(server.channel_open_session(3, "three"));
    assert_eq!(server.get_channel(2), "two");
    assert!(matches!(server.subsystem_request(1, "shell"), Subsystem::Refused));
    assert_eq!(server.pty_opened(3, 5), "three");
    assert!(server.channel_open_session(2, "again"));
    assert_eq!(server.get_channel(1), "one");
    assert!(!server.clients.contains_key(&1));
    assert!(server.clients.contains_key(&2));
}

#[test]
fn the_terminal_opened_last_is_resized() {
    let mut server = server();
    assert!(server.channel_open_session(1, "one"));
    assert!(server.channel_open_session(2, "two"));
    assert_eq!(server.pty_opened(1, 5), "one");
    assert_eq!(server.pty_opened(2, 6), "two");
    assert!(server.channel_open_session(3, "three"));
    assert_eq!(server.get_channel(3), "three");
    assert_eq!(server.window_change_request(80, 24, 0, 0).0, 6);
}
