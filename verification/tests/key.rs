use grid_daemon::key::{
    key_from_file, load_scabbard_admin_keys, private_key_filename, public_key_filename,
    read_key_from_file, KeyError, KeyFile, Keys,
};

fn contents(text: &str) -> Option<KeyFile> {
    Some(KeyFile::Contents(text.to_string()))
}

fn unreadable(reason: &str) -> Option<KeyFile> {
    Some(KeyFile::Unreadable(reason.to_string()))
}

#[test]
fn key_file_names() {
    assert_eq!(private_key_filename("gridd"), "/etc/grid/keys/gridd.priv");
    assert_eq!(public_key_filename("gridd"), "/etc/grid/keys/gridd.pub");
}

#[test]
fn keys_new_keeps_both_halves() {
    let keys = Keys::new("02ab".to_string(), "11cd".to_string());
    assert_eq!(keys.public_key, "02ab");
    assert_eq!(keys.private_key, "11cd");
}

#[test]
fn loads_first_line_of_each_file() {
    let keys = load_scabbard_admin_keys("gridd", contents("11cd\n"), contents("02ab\nrest\n"))
        .unwrap();
    assert_eq!(keys.private_key, "11cd");
    assert_eq!(keys.public_key, "02ab");
}

#[test]
fn line_ending_may_be_missing_or_carriage_return_line_feed() {
    let keys = load_scabbard_admin_keys("gridd", contents("11cd"), contents("02ab\r\n")).unwrap();
    assert_eq!(keys.private_key, "11cd");
    assert_eq!(keys.public_key, "02ab");
    assert_eq!(read_key_from_file("f", "ab\rcd\r").unwrap(), "ab\rcd\r");
    assert_eq!(read_key_from_file("f", "ab\r\r\ncd").unwrap(), "ab\r");
}

#[test]
fn missing_private_key_file() {
    let error = load_scabbard_admin_keys("gridd", None, None)
        .err()
        .unwrap();
    assert_eq!(error.0, "No such private key file: /etc/grid/keys/gridd.priv");
}

#[test]
fn missing_public_key_file() {
    let error = load_scabbard_admin_keys("gridd", unreadable("denied"), None).err().unwrap();
    assert_eq!(error.0, "No such public key file: /etc/grid/keys/gridd.pub");
}

#[test]
fn unreadable_file_reports_the_reason() {
    let error = load_scabbard_admin_keys("gridd", unreadable("permission denied"), contents("02ab"))
        .err()
        .unwrap();
    assert_eq!(error.0, "permission denied");
    let error = load_scabbard_admin_keys(
        "gridd",
        contents("11cd"),
        unreadable("stream did not contain valid UTF-8"),
    )
    .err()
    .unwrap();
    assert_eq!(error.0, "stream did not contain valid UTF-8");
}

#[test]
fn empty_key_file() {
    let error = load_scabbard_admin_keys("gridd", contents(""), contents("02ab"))
        .err()
        .unwrap();
    assert_eq!(error.0, "Empty key file: /etc/grid/keys/gridd.priv");
    let error = load_scabbard_admin_keys("gridd", contents("11cd"), contents(""))
        .err()
        .unwrap();
    assert_eq!(error.0, "Empty key file: /etc/grid/keys/gridd.pub");
}

#[test]
fn empty_first_line_is_an_empty_key_file() {
    for text in ["\n", "\r\n", "\n02ab\n"] {
        let error = load_scabbard_admin_keys("gridd", contents("11cd"), contents(text))
            .err()
            .unwrap();
        assert_eq!(error.0, "Empty key file: /etc/grid/keys/gridd.pub");
    }
}

#[test]
fn private_key_is_read_before_public_key() {
    let error = load_scabbard_admin_keys("gridd", contents(""), unreadable("denied"))
        .err()
        .unwrap();
    assert_eq!(error.0, "Empty key file: /etc/grid/keys/gridd.priv");
}

#[test]
fn missing_private_key_file_comes_before_missing_public_key_file() {
    let error = load_scabbard_admin_keys("gridd", None, contents("02ab")).err().unwrap();
    assert_eq!(error, KeyError("No such private key file: /etc/grid/keys/gridd.priv".to_string()));
}

#[test]
fn key_from_each_kind_of_file() {
    assert_eq!(
        key_from_file("f", KeyFile::Contents("02ab\n".to_string())),
        Ok("02ab".to_string())
    );
    assert_eq!(
        key_from_file("f", KeyFile::Unreadable("denied".to_string())),
        Err(KeyError("denied".to_string()))
    );
    assert_eq!(
        key_from_file("f", KeyFile::Contents(String::new())),
        Err(KeyError("Empty key file: f".to_string()))
    );
}
