use cesa_conn::address::PeerAddr;
use cesa_conn::command::{parse_command, salt_from_password, server_addr, test_keys, Command};
use cesa_conn::pswd_manager::derive_key;
use cesa_conn::text::{decimal_text, parse_uid, trim};

fn args(list: &[&str]) -> Vec<String> {
    list.iter().map(|s| String::from(*s)).collect()
}

#[test]
fn subcommands_are_understood() {
    assert_eq!(
        parse_command(&args(&["bin", "servertest", "secret"])),
        Command::Server {
            password: "secret".to_owned()
        }
    );
    assert_eq!(
        parse_command(&args(&["bin", "clienttest", "hello", "secret", "more"])),
        Command::Client {
            message: "hello".to_owned(),
            password: "secret".to_owned()
        }
    );
}

#[test]
fn wrong_arguments_are_explained() {
    let usage = "\nUsage:\n  bin servertest <password>\n  bin clienttest <message> <password>";
    assert_eq!(
        parse_command(&args(&["bin"])),
        Command::Complain(format!("No subcommand provided.{}", usage))
    );
    assert_eq!(
        parse_command(&args(&["bin", "x"])),
        Command::Complain(format!("Unknown subcommand: 'x'.{}", usage))
    );
    assert_eq!(
        parse_command(&args(&["bin", "servertest"])),
        Command::Complain("Missing argument.\nUsage: bin servertest <password>".to_owned())
    );
    assert_eq!(
        parse_command(&args(&["bin", "clienttest", "hello"])),
        Command::Complain(
            "Missing argument.\nUsage: bin clienttest <message> <password>".to_owned()
        )
    );
}

#[test]
fn salt_is_the_padded_password() {
    let mut expected = [0u8; 32];
    expected[..3].copy_from_slice(b"abc");
    assert_eq!(salt_from_password(b"abc"), expected);
    assert_eq!(salt_from_password(&[7u8; 40]), [7u8; 32]);
    assert_eq!(salt_from_password(b""), [0u8; 32]);
}

#[test]
fn test_mode_has_one_key_for_both_purposes() {
    let keys = test_keys(b"abc").unwrap();
    assert_eq!(*keys.a_key, *keys.d_key);
    assert_eq!(
        derive_key(b"abc", salt_from_password(b"abc")),
        Ok(*keys.a_key)
    );
}

#[test]
fn server_listens_on_its_port() {
    let found = PeerAddr::V4 {
        ip4: [10, 0, 0, 7],
        port: 6363,
    };
    assert_eq!(
        server_addr(&found),
        PeerAddr::V4 {
            ip4: [10, 0, 0, 7],
            port: 3232
        }
    );
    let found = PeerAddr::V6 {
        ip6: [1u8; 16],
        port: 6363,
        flowinfo: 1,
        scope_id: 2,
    };
    assert_eq!(
        server_addr(&found),
        PeerAddr::V6 {
            ip6: [1u8; 16],
            port: 3232,
            flowinfo: 0,
            scope_id: 0
        }
    );
}

#[test]
fn white_space_is_trimmed() {
    for text in ["", " ", "a", "  a b\t\n", "\u{3000}x\u{85}", "\u{a0}\u{2003}y z\r\n", "\u{200b}w"] {
        assert_eq!(trim(text), text.trim());
    }
}

#[test]
fn numbers_are_written_in_decimal() {
    for n in [0, 7, 10, 1000, 65534, u32::MAX] {
        assert_eq!(decimal_text(n), format!("{}", n));
    }
}

#[test]
fn user_id_is_read_off_the_status() {
    let status = "Name:\tx\nUmask:\t0022\nUid:\t1000\t1001\t1002\t1003\nGid:\t7\n";
    assert_eq!(parse_uid(status), Some(1000));
    assert_eq!(parse_uid("Uid: +42"), Some(42));
    assert_eq!(parse_uid("Uid:5 6\r\nUid: 7"), Some(6));
    assert_eq!(parse_uid("Uid:\t4294967295"), Some(u32::MAX));
    for wrong in [
        "",
        "Name:\tx\n",
        "Uid:\n",
        "Uid: x",
        "Uid: -1",
        "Uid: +",
        "Uid: 4294967296",
        " Uid: 1",
        "Uid:\nUid: 1",
    ] {
        assert_eq!(parse_uid(wrong), None);
    }
}
