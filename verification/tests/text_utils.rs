use multiplayer_bot::text::{str_contains, str_eq, trim_str, u16_to_string};

#[test]
fn renders_ports_in_decimal() {
    assert_eq!(u16_to_string(7777), "7777");
    assert_eq!(u16_to_string(0), "0");
    assert_eq!(u16_to_string(7), "7");
    assert_eq!(u16_to_string(65535), "65535");
    assert_eq!(u16_to_string(25565), "25565");
}

#[test]
fn trims_probe_output() {
    assert_eq!(trim_str(" 1\n"), "1");
    assert_eq!(trim_str("0\n"), "0");
    assert_eq!(trim_str("\t\r\n \n"), "");
    assert_eq!(trim_str("no spaces"), "no spaces");
    assert_eq!(trim_str(""), "");
}

#[test]
fn finds_substrings() {
    assert!(str_contains("Update state (0x61) downloading... Success! App fully installed.", "Success!"));
    assert!(!str_contains("Update state (0x61) downloading... failure", "Success!"));
    assert!(str_contains("anything", ""));
    assert!(!str_contains("short", "much longer needle"));
    assert!(str_contains("Success!", "Success!"));
}

#[test]
fn compares_strings_exactly() {
    assert!(str_eq("satisfactory", "satisfactory"));
    assert!(!str_eq("satisfactory", "Satisfactory"));
    assert!(!str_eq("7days", "7day"));
}
