use raymarch::host::{host_menu, parse_index, select_host, Error};

#[test]
fn parse_index_reads_plain_numbers() {
    assert_eq!(parse_index(b"0"), Some(0));
    assert_eq!(parse_index(b"7"), Some(7));
    assert_eq!(parse_index(b"42"), Some(42));
    assert_eq!(parse_index(b"+3"), Some(3));
    assert_eq!(parse_index(b"007"), Some(7));
}

#[test]
fn parse_index_rejects_other_texts() {
    assert_eq!(parse_index(b""), None);
    assert_eq!(parse_index(b"+"), None);
    assert_eq!(parse_index(b"-1"), None);
    assert_eq!(parse_index(b" 1"), None);
    assert_eq!(parse_index(b"1 "), None);
    assert_eq!(parse_index(b"1\n"), None);
    assert_eq!(parse_index(b"++1"), None);
    assert_eq!(parse_index(b"1a"), None);
    assert_eq!(parse_index(&[0xff, b'1']), None);
}

#[test]
fn parse_index_agrees_with_std_on_bytes() {
    let cases: Vec<Vec<u8>> = vec![
        b"12".to_vec(),
        b"+12".to_vec(),
        b"".to_vec(),
        b"1\n\0\0".to_vec(),
        b"18446744073709551615".to_vec(),
        b"18446744073709551616".to_vec(),
        b"99999999999999999999999".to_vec(),
        vec![b'3', 0xc3, 0xa9],
    ];
    for case in cases {
        let expected = String::from_utf8_lossy(&case).parse::<usize>().ok();
        assert_eq!(parse_index(&case), expected, "{case:?}");
    }
}

#[test]
fn parse_index_handles_the_largest_index() {
    let max = usize::MAX.to_string();
    assert_eq!(parse_index(max.as_bytes()), Some(usize::MAX));
    let over = format!("{}0", usize::MAX);
    assert_eq!(parse_index(over.as_bytes()), None);
}

#[test]
fn a_typed_answer_with_newline_falls_back_to_the_default_host() {
    let mut buf = [0u8; 16];
    buf[0] = b'1';
    buf[1] = b'\n';
    assert_eq!(select_host(&buf, 3), None);
}

#[test]
fn select_host_picks_only_existing_hosts() {
    assert_eq!(select_host(b"1", 3), Some(1));
    assert_eq!(select_host(b"2", 3), Some(2));
    assert_eq!(select_host(b"3", 3), None);
    assert_eq!(select_host(b"0", 0), None);
    assert_eq!(select_host(b"x", 3), None);
}

#[test]
fn host_menu_numbers_each_host() {
    let names = vec!["ALSA".to_string(), "JACK".to_string()];
    assert_eq!(host_menu(&names), "0 - ALSA1 - JACK");
    assert_eq!(host_menu(&[]), "");
}

#[test]
fn host_menu_numbers_past_nine() {
    let names: Vec<String> = (0..12).map(|i| format!("h{i}")).collect();
    let menu = host_menu(&names);
    let expected: String = (0..12).map(|i| format!("{i} - h{i}")).collect();
    assert_eq!(menu, expected);
    assert!(menu.ends_with("11 - h11"));
}

#[test]
fn menu_numbers_read_back_as_the_host() {
    let names: Vec<String> = (0..25).map(|i| format!("host{i}")).collect();
    for i in 0..names.len() {
        let line = host_menu(&names[..i + 1]);
        let number = format!("{i}");
        assert!(line.ends_with(&format!("{number} - host{i}")));
        assert_eq!(select_host(number.as_bytes(), names.len()), Some(i));
    }
}

#[test]
fn io_error_message() {
    let e = Error::IO("broken pipe".to_string());
    assert_eq!(e.message(), "IO failed: broken pipe");
    assert_eq!(Error::IO(String::new()).message(), "IO failed: ");
}
