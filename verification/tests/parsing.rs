use svctrl::configuration::Config;
use svctrl::service::control_char;
use svctrl::servicedir::show_active_services;
use svctrl::servicedir::show_dirs;
use svctrl::servicedir::Entry;
use svctrl::utils::parse_u32;
use svctrl::utils::path_join;

#[test]
fn test_parse_plain_number() {
    assert_eq!(parse_u32("1234"), Some(1234));
    assert_eq!(parse_u32("0"), Some(0));
    assert_eq!(parse_u32("007"), Some(7));
}

#[test]
fn test_parse_tolerates_surrounding_whitespace() {
    assert_eq!(parse_u32("1234\n"), Some(1234));
    assert_eq!(parse_u32("  42\t\r\n"), Some(42));
}

#[test]
fn test_parse_rejects_empty_and_blank() {
    assert_eq!(parse_u32(""), None);
    assert_eq!(parse_u32("\n"), None);
    assert_eq!(parse_u32("   "), None);
}

#[test]
fn test_parse_rejects_non_digits() {
    assert_eq!(parse_u32("12a4"), None);
    assert_eq!(parse_u32("-5"), None);
    assert_eq!(parse_u32("+5"), None);
    assert_eq!(parse_u32("12 34"), None);
}

#[test]
fn test_parse_bounds() {
    assert_eq!(parse_u32("4294967295"), Some(u32::MAX));
    assert_eq!(parse_u32("4294967296"), None);
    assert_eq!(parse_u32("99999999999999999999"), None);
}

#[test]
fn test_path_join_inserts_separator() {
    assert_eq!(path_join("/etc/sv", "db"), "/etc/sv/db");
    assert_eq!(path_join("/etc/sv/", "db"), "/etc/sv/db");
    assert_eq!(path_join("", "db"), "db");
}

#[test]
fn test_path_join_absolute_replaces() {
    assert_eq!(path_join("/etc/sv", "/var/service"), "/var/service");
}

#[test]
fn test_control_char_table() {
    let table = [
        ("up", 'u'),
        ("down", 'd'),
        ("once", 'o'),
        ("stop", 'p'),
        ("cont", 'c'),
        ("hup", 'h'),
        ("alarm", 'a'),
        ("int", 'i'),
        ("quit", 'q'),
        ("usr1", '1'),
        ("usr2", '2'),
        ("term", 't'),
        ("kill", 'k'),
        ("exit", 'e'),
    ];
    for (name, ch) in table.iter() {
        assert_eq!(control_char(name), Some(*ch));
    }
    assert_eq!(control_char("status"), None);
    assert_eq!(control_char(""), None);
}

#[test]
fn test_show_dirs_filters_directories() {
    let entries = vec![
        Entry { name: String::from("db"), is_dir: true },
        Entry { name: String::from("README"), is_dir: false },
        Entry { name: String::from("web"), is_dir: true },
    ];
    let r = show_dirs(true, &entries).unwrap();
    assert_eq!(r, vec![String::from("db"), String::from("web")]);
}

#[test]
fn test_show_dirs_on_non_directory() {
    let entries: Vec<Entry> = Vec::new();
    assert!(show_dirs(false, &entries).is_none());
}

#[test]
fn test_show_active_services_lists_lndir() {
    let c = Config::new();
    let entries = vec![
        Entry { name: String::from("db"), is_dir: true },
        Entry { name: String::from("stale.lock"), is_dir: false },
    ];
    let r = show_active_services(&c, true, &entries).unwrap();
    assert_eq!(r, vec![String::from("db")]);
    assert!(show_active_services(&c, false, &entries).is_none());
}
