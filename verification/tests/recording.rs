use vt_core::charset::Nrc;
use vt_core::config::{Config, Model};
use vt_core::recording::{
    apply_config, base64_decode, base64_encode, config_line, data_line, mark_line, mark_name, parse_recording,
    sanitize, ReadError, Record,
};

#[test]
fn base64_round_trip() {
    for data in [&b""[..], b"a", b"ab", b"abc", b"\x1b[?64;1;2c\xff\x00"] {
        assert_eq!(base64_decode(&base64_encode(data)).unwrap(), data);
    }
    assert_eq!(base64_encode(b"Man"), "TWFu");
    assert_eq!(base64_encode(b"Ma"), "TWE=");
}

#[test]
fn base64_refuses_other_characters() {
    assert_eq!(base64_decode("TW*u"), None);
    assert_eq!(base64_decode("TWE="), Some(b"Ma".to_vec()));
}

fn sample_config() -> Config {
    Config {
        model: Model::Vt525,
        rows: 25,
        autowrap: true,
        keyboard_language: Some(Nrc::German),
        answerback: b"VMS1".to_vec(),
        ..Config::default()
    }
}

#[test]
fn config_line_reads_back() {
    let config = sample_config();
    let line = config_line(&config);
    assert!(line.starts_with("model=vt525 rows=25 cols=80 autowrap=1"));
    let mut back = Config::default();
    assert!(apply_config(&mut back, &line).is_ok());
    assert_eq!(back, config);
}

#[test]
fn config_errors_name_the_setting() {
    let mut c = Config::default();
    assert_eq!(apply_config(&mut c, "rows=x"), Err("bad number rows=x".to_string()));
    assert_eq!(apply_config(&mut c, "model=vt999"), Err("unknown model vt999".to_string()));
    assert_eq!(apply_config(&mut c, "junk"), Err("bad setting junk".to_string()));
}

#[test]
fn recording_lines_read_back() {
    let config = sample_config();
    let lines: Vec<String> = vec![
        "vtrec 1".to_string(),
        format!("config {}", config_line(&config)),
        data_line('H', 5, b"\x1b[c").trim_end().to_string(),
        data_line('R', 6, b"\x1b[?65c").trim_end().to_string(),
        mark_line(7, &mark_name(1, None)).trim_end().to_string(),
        mark_line(8, &mark_name(2, Some("EDT help"))).trim_end().to_string(),
        "X unknown".to_string(),
    ];
    let (read_config, records) = parse_recording(&lines).unwrap();
    assert_eq!(read_config, config);
    assert_eq!(records.len(), 4);
    assert!(matches!(&records[0], Record::Host { ms: 5, data } if data == b"\x1b[c"));
    assert!(matches!(&records[1], Record::Reply { data, .. } if data == b"\x1b[?65c"));
    assert!(matches!(&records[2], Record::Mark { name, .. } if name == "checkpoint-01"));
    assert!(matches!(&records[3], Record::Mark { name, .. } if name == "EDT-help"));
}

#[test]
fn bad_recordings_are_refused() {
    assert_eq!(parse_recording(&vec![]), Err(ReadError::NotRecording(None)));
    assert_eq!(
        parse_recording(&vec!["vtrec 2".to_string()]),
        Err(ReadError::NotRecording(Some("vtrec 2".to_string())))
    );
    let bad = parse_recording(&vec!["vtrec 1".to_string(), "H x AAAA".to_string()]);
    assert_eq!(
        bad,
        Err(ReadError::BadLine { number: 2, what: "bad time".to_string(), line: "H x AAAA".to_string() })
    );
}

#[test]
fn empty_data_writes_no_line_and_names_are_cleaned() {
    assert_eq!(data_line('H', 1, b""), "");
    assert_eq!(data_line('K', 12, b"s"), "K 12 cw==\n");
    assert_eq!(sanitize("a b/c"), "a-b-c");
    assert_eq!(sanitize(""), "checkpoint");
    assert_eq!(mark_name(12, None), "checkpoint-12");
}

#[test]
fn recording_round_trip() {
    let config = sample_config();
    let keys_recorded = false;
    let mut buf = String::new();
    buf.push_str("vtrec 1\n");
    buf.push_str(&format!("config {}\n", config_line(&config)));
    buf.push_str(&data_line('H', 0, b"\x1b[c"));
    buf.push_str(&data_line('R', 1, b"\x1b[?65c"));
    if keys_recorded {
        buf.push_str(&data_line('K', 2, b"secret\r"));
    }
    let first = mark_name(1, None);
    assert_eq!(first, "checkpoint-01");
    buf.push_str(&mark_line(3, &first));
    let second = mark_name(2, Some("EDT help"));
    assert_eq!(second, "EDT-help");
    buf.push_str(&mark_line(4, &second));
    let lines: Vec<String> = buf.lines().map(String::from).collect();
    let (read_config, records) = parse_recording(&lines).unwrap();
    assert_eq!(read_config, config);
    assert!(matches!(&records[0], Record::Host { data, .. } if data == b"\x1b[c"));
    assert!(matches!(&records[1], Record::Reply { data, .. } if data == b"\x1b[?65c"));
    assert!(matches!(&records[2], Record::Mark { name, .. } if name == "checkpoint-01"));
    assert_eq!(records.len(), 4, "keys are not recorded unless asked");
}
