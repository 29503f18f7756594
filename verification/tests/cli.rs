use shellshop::cli::{parse_cli, text_eq, wants_local, CliConfig};

fn args(list: &[&str]) -> Vec<String> {
    list.iter().map(|s| s.to_string()).collect()
}

#[test]
fn defaults() {
    let c = CliConfig::default();
    assert_eq!(c.host, "0.0.0.0");
    assert_eq!(c.port, 22);
    assert_eq!(c.key_path, "host_key");
    let p = parse_cli(&args(&["shellshop"]));
    assert_eq!(p.config.host, "0.0.0.0");
    assert_eq!(p.config.port, 22);
    assert_eq!(p.config.key_path, "host_key");
    assert!(p.unknown.is_empty());
    assert!(!p.help);
}

#[test]
fn all_options() {
    let p = parse_cli(&args(&[
        "shellshop", "--host", "127.0.0.1", "--port", "2222", "--key-path", "/tmp/key",
    ]));
    assert_eq!(p.config.host, "127.0.0.1");
    assert_eq!(p.config.port, 2222);
    assert_eq!(p.config.key_path, "/tmp/key");
    assert!(p.unknown.is_empty());
    assert!(!p.help);
}

#[test]
fn bad_port_keeps_default_and_goes_on() {
    let p = parse_cli(&args(&["shellshop", "--port", "abc"]));
    assert_eq!(p.config.port, 22);
    assert_eq!(p.unknown, args(&["abc"]));
    let p = parse_cli(&args(&["shellshop", "--port", "-1", "--port", "65536"]));
    assert_eq!(p.config.port, 22);
    assert_eq!(p.unknown, args(&["-1", "65536"]));
    let p = parse_cli(&args(&["shellshop", "--port", "--host", "h"]));
    assert_eq!(p.config.port, 22);
    assert_eq!(p.config.host, "h");
}

#[test]
fn port_forms_the_standard_library_accepts() {
    assert_eq!(parse_cli(&args(&["shellshop", "--port", "+80"])).config.port, 80);
    assert_eq!(parse_cli(&args(&["shellshop", "--port", "0022"])).config.port, 22);
    assert_eq!(parse_cli(&args(&["shellshop", "--port", "65535"])).config.port, 65535);
    let p = parse_cli(&args(&["shellshop", "--port", "+"]));
    assert_eq!(p.config.port, 22);
    assert_eq!(p.unknown, args(&["+"]));
    let p = parse_cli(&args(&["shellshop", "--port", " 80"]));
    assert_eq!(p.unknown, args(&[" 80"]));
}

#[test]
fn trailing_option_without_value() {
    let p = parse_cli(&args(&["shellshop", "--host"]));
    assert_eq!(p.config.host, "0.0.0.0");
    assert!(p.unknown.is_empty());
    let p = parse_cli(&args(&["shellshop", "--key-path"]));
    assert_eq!(p.config.key_path, "host_key");
    let p = parse_cli(&args(&["shellshop", "--port"]));
    assert_eq!(p.config.port, 22);
}

#[test]
fn last_occurrence_wins() {
    let p = parse_cli(&args(&["shellshop", "--host", "a", "--host", "b", "--port", "1", "--port", "2"]));
    assert_eq!(p.config.host, "b");
    assert_eq!(p.config.port, 2);
}

#[test]
fn help_stops_reading() {
    let p = parse_cli(&args(&["shellshop", "-x", "--help", "--port", "1", "-y"]));
    assert!(p.help);
    assert_eq!(p.unknown, args(&["-x"]));
    assert_eq!(p.config.port, 22);
    assert!(parse_cli(&args(&["shellshop", "-h"])).help);
}

#[test]
fn local_flags_are_skipped_and_detected() {
    let p = parse_cli(&args(&["shellshop", "-l", "--local", "--port", "9"]));
    assert!(p.unknown.is_empty());
    assert_eq!(p.config.port, 9);
    assert!(wants_local(&args(&["shellshop", "--port", "9", "-l"])));
    assert!(wants_local(&args(&["--local"])));
    assert!(!wants_local(&args(&["shellshop", "--port", "9", "-L"])));
}

#[test]
fn program_name_is_not_an_option() {
    let p = parse_cli(&args(&["--port", "--host", "x"]));
    assert_eq!(p.config.host, "x");
    assert_eq!(p.config.port, 22);
}

#[test]
fn text_equality() {
    assert!(text_eq("--host", "--host"));
    assert!(!text_eq("--host", "--hos"));
    assert!(!text_eq("ab", "ac"));
    assert!(text_eq("", ""));
    assert!(text_eq("héllo", "héllo"));
}
