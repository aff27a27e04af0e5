use pg_tunnel::startup_message::parse_startup_message;

fn message(pairs: &[(&str, &str)]) -> Vec<u8> {
    let mut body = vec![0, 3, 0, 0];
    for (key, value) in pairs {
        body.extend_from_slice(key.as_bytes());
        body.push(0);
        body.extend_from_slice(value.as_bytes());
        body.push(0);
    }
    body.push(0);
    let mut out = ((body.len() as u32 + 4).to_be_bytes()).to_vec();
    out.extend_from_slice(&body);
    out
}

fn pairs(list: &[(&str, &str)]) -> Vec<(Vec<u8>, Vec<u8>)> {
    list.iter().map(|(k, v)| (k.as_bytes().to_vec(), v.as_bytes().to_vec())).collect()
}

#[test]
fn empty_parameter_list() {
    assert_eq!(parse_startup_message(&[0, 0, 0, 9, 0, 3, 0, 0, 0]), Some(vec![]));
}

#[test]
fn pairs_come_back_in_order() {
    let list = [("user", "postgres"), ("database", "db"), ("user", "again"), ("empty", "")];
    assert_eq!(parse_startup_message(&message(&list)), Some(pairs(&list)));
}

#[test]
fn non_ascii_text_comes_back_as_its_bytes() {
    let list = [("application_name", "caf\u{e9} \u{1f418}")];
    let parsed = parse_startup_message(&message(&list)).unwrap();
    assert_eq!(String::from_utf8(parsed[0].1.clone()).unwrap(), "caf\u{e9} \u{1f418}");
}

#[test]
fn too_short_is_no_startup_message() {
    assert_eq!(parse_startup_message(&[]), None);
    assert_eq!(parse_startup_message(&[0, 0, 0, 8, 0, 3, 0, 0]), None);
}

#[test]
fn wrong_length_field_is_refused() {
    let mut bytes = message(&[("user", "postgres")]);
    bytes[3] += 1;
    assert_eq!(parse_startup_message(&bytes), None);
    let mut bytes = message(&[("user", "postgres")]);
    bytes.push(0);
    assert_eq!(parse_startup_message(&bytes), None);
}

#[test]
fn wrong_version_is_refused() {
    assert_eq!(parse_startup_message(&[0, 0, 0, 9, 0, 2, 0, 0, 0]), None);
    assert_eq!(parse_startup_message(&[0, 0, 0, 9, 0, 3, 0, 1, 0]), None);
}

#[test]
fn missing_closing_zero_is_refused() {
    assert_eq!(parse_startup_message(&[0, 0, 0, 12, 0, 3, 0, 0, b'a', 0, b'b', 0]), None);
}

#[test]
fn unterminated_value_is_refused() {
    assert_eq!(parse_startup_message(&[0, 0, 0, 11, 0, 3, 0, 0, b'a', 0, b'b']), None);
    assert_eq!(parse_startup_message(&[0, 0, 0, 10, 0, 3, 0, 0, b'a', b'b']), None);
}

#[test]
fn bytes_behind_the_closing_zero_are_refused() {
    assert_eq!(parse_startup_message(&[0, 0, 0, 10, 0, 3, 0, 0, 0, b'x']), None);
}

#[test]
fn empty_key_closes_the_list_and_is_not_read_back() {
    assert_eq!(parse_startup_message(&message(&[("", "x")])), None);
}
