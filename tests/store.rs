use kettle::app::app;
use kettle::config::{Config, Loaded, SetAction};
use kettle::error::KettleError;
use std::io::{Error, ErrorKind};
use std::path::PathBuf;

fn render(doc: &ini::Ini) -> String {
    let mut buf: Vec<u8> = Vec::new();
    doc.write_to(&mut buf).expect("writing to memory succeeds");
    String::from_utf8(buf).expect("the document is UTF-8")
}

fn handle() -> Config {
    Config::from(PathBuf::from("/nonexistent/kettle_app"), "config")
}

/// Reads a key the way a caller does, with `disk` standing for the file.
fn read(cfg: &Config, disk: &Option<String>, key: &str) -> Option<String> {
    cfg.get(disk.as_deref(), key)
}

/// Runs the write protocol against `disk`, which stands for the file.
fn write(cfg: &Config, disk: &mut Option<String>, key: &str, value: Option<&str>) -> Result<(), KettleError> {
    let mut created = false;
    loop {
        let loaded = match disk {
            Some(text) => Loaded::Text(text.clone()),
            None => Loaded::Missing(Error::from(ErrorKind::NotFound)),
        };
        match cfg.set(loaded, created, key, value) {
            SetAction::CreateEmpty => {
                *disk = Some(String::new());
                created = true;
            }
            SetAction::Save(doc) => {
                *disk = Some(render(&doc));
                return Ok(());
            }
            SetAction::Fail(e) => return Err(e),
        }
    }
}

#[test]
fn set_then_get_round_trips() {
    for scope in [None, Some("dev")] {
        for value in ["horizontal", "", "a b c"] {
            let cfg = match scope {
                Some(s) => handle().section(s),
                None => handle(),
            };
            let mut disk = Some("[other]\nview = old\n".to_string());
            assert!(write(&cfg, &mut disk, "view", Some(value)).is_ok());
            assert_eq!(read(&cfg, &disk, "view"), Some(value.to_string()));
        }
    }
}

#[test]
fn overwrite_replaces_value() {
    let cfg = handle();
    let mut disk = Some("view = a\n".to_string());
    assert!(write(&cfg, &mut disk, "view", Some("b")).is_ok());
    assert_eq!(read(&cfg, &disk, "view"), Some("b".to_string()));
}

#[test]
fn delete_then_get_is_none() {
    let cfg = handle();
    let mut disk = Some("view = a\nother = b\n".to_string());
    assert!(write(&cfg, &mut disk, "view", None).is_ok());
    assert_eq!(read(&cfg, &disk, "view"), None);
    assert_eq!(read(&cfg, &disk, "other"), Some("b".to_string()));
    assert!(write(&cfg, &mut disk, "view", None).is_ok());
    assert_eq!(read(&cfg, &disk, "view"), None);
}

#[test]
fn delete_removes_duplicate_values() {
    let cfg = handle();
    let mut disk = Some("view = a\nview = b\n".to_string());
    assert!(write(&cfg, &mut disk, "view", None).is_ok());
    assert_eq!(read(&cfg, &disk, "view"), None);
}

#[test]
fn get_on_missing_file_is_none() {
    let cfg = handle();
    let disk: Option<String> = None;
    assert_eq!(read(&cfg, &disk, "view"), None);
    assert_eq!(read(&cfg.section("dev"), &disk, "view"), None);
}

#[test]
fn get_on_unparsable_text_is_none() {
    assert_eq!(handle().get(Some("[broken\nview = a\n"), "view"), None);
}

#[test]
fn get_from_missing_section_is_none() {
    let cfg = handle().section("absent");
    assert_eq!(cfg.get(Some("view = a\n[dev]\nview = b\n"), "view"), None);
}

#[test]
fn get_reads_the_scope() {
    let text = "view = a\n[dev]\nview = b\n";
    assert_eq!(handle().get(Some(text), "view"), Some("a".to_string()));
    assert_eq!(handle().section("dev").get(Some(text), "view"), Some("b".to_string()));
}

#[test]
fn set_on_missing_file_creates_then_stores() {
    let cfg = handle();
    let first = cfg.set(Loaded::Missing(Error::from(ErrorKind::NotFound)), false, "view", Some("x"));
    assert!(matches!(first, SetAction::CreateEmpty));
    let mut disk: Option<String> = None;
    assert!(write(&cfg, &mut disk, "view", Some("x")).is_ok());
    assert_eq!(disk.as_deref(), Some("view=x\n"));
    let fresh = handle();
    assert_eq!(read(&fresh, &disk, "view"), Some("x".to_string()));
}

#[test]
fn set_on_still_missing_file_fails() {
    let r = handle().set(Loaded::Missing(Error::from(ErrorKind::NotFound)), true, "view", Some("x"));
    assert!(matches!(r, SetAction::Fail(KettleError::IoError(_))));
}

#[test]
fn set_reports_read_failure() {
    let r = handle().set(Loaded::Failed(Error::from(ErrorKind::PermissionDenied)), false, "view", Some("x"));
    match r {
        SetAction::Fail(KettleError::IoError(e)) => assert_eq!(e.kind(), ErrorKind::PermissionDenied),
        _ => panic!("expected an I/O failure"),
    }
}

#[test]
fn set_reports_parse_error() {
    let r = handle().set(Loaded::Text("[broken\n".to_string()), false, "view", Some("x"));
    assert!(matches!(r, SetAction::Fail(KettleError::IniParseError(_))));
}

#[test]
fn sections_are_apart_from_general_scope() {
    let general = handle();
    let admin = handle().section("admin");
    let mut disk: Option<String> = None;
    assert!(write(&admin, &mut disk, "view", Some("a")).is_ok());
    assert_eq!(read(&general, &disk, "view"), None);
    assert!(write(&general, &mut disk, "view", Some("g")).is_ok());
    assert_eq!(read(&admin, &disk, "view"), Some("a".to_string()));
    assert_eq!(read(&general, &disk, "view"), Some("g".to_string()));
}

#[test]
fn deleting_last_key_drops_section_header() {
    let dev = handle().section("dev");
    let mut disk = Some("top = 1\n[dev]\nview = a\n".to_string());
    assert!(write(&dev, &mut disk, "view", None).is_ok());
    let text = disk.clone().unwrap();
    assert!(!text.contains("[dev]"));
    assert_eq!(read(&handle(), &disk, "top"), Some("1".to_string()));
}

#[test]
fn deleting_a_key_keeps_a_nonempty_section() {
    let dev = handle().section("dev");
    let mut disk = Some("[dev]\nview = a\nsize = 2\n".to_string());
    assert!(write(&dev, &mut disk, "view", None).is_ok());
    assert!(disk.clone().unwrap().contains("[dev]"));
    assert_eq!(read(&dev, &disk, "size"), Some("2".to_string()));
}

#[test]
fn general_scope_survives_emptying() {
    let cfg = handle();
    let mut disk = Some("view = a\n".to_string());
    assert!(write(&cfg, &mut disk, "view", None).is_ok());
    assert_eq!(read(&cfg, &disk, "view"), None);
    assert!(write(&cfg, &mut disk, "view", Some("b")).is_ok());
    assert_eq!(read(&cfg, &disk, "view"), Some("b".to_string()));
}

#[test]
fn scenario_fresh_file_set_and_get() {
    let cfg = handle();
    let mut disk: Option<String> = None;
    assert!(write(&cfg, &mut disk, "view", Some("horizontal")).is_ok());
    assert_eq!(read(&cfg, &disk, "view"), Some("horizontal".to_string()));
}

#[test]
fn scenario_delete_absent_key_in_section() {
    let cfg = Config::from(PathBuf::from("/nonexistent/kettle_app"), "admin_profiles").section("dev");
    let mut disk: Option<String> = None;
    assert!(write(&cfg, &mut disk, "view", None).is_ok());
    assert_eq!(read(&cfg, &disk, "view"), None);
}

#[test]
fn scenario_key_with_spaces() {
    let cfg = handle();
    let mut disk: Option<String> = None;
    assert!(write(&cfg, &mut disk, "key with spaces", Some("x")).is_ok());
    assert_eq!(read(&cfg, &disk, "key with spaces"), Some("x".to_string()));
    assert!(write(&cfg, &mut disk, "key with spaces", None).is_ok());
    assert_eq!(read(&cfg, &disk, "key with spaces"), None);
}

#[test]
fn scenario_two_handles_share_the_file() {
    let first = handle();
    let second = handle();
    let mut disk: Option<String> = None;
    assert!(write(&first, &mut disk, "view", Some("horizontal")).is_ok());
    assert_eq!(read(&second, &disk, "view"), Some("horizontal".to_string()));
}

#[test]
fn section_keeps_location() {
    let cfg = handle().section("dev");
    assert_eq!(cfg.file(), "config");
    assert_eq!(cfg.scope_name(), Some("dev"));
    assert_eq!(cfg.dir(), &PathBuf::from("/nonexistent/kettle_app"));
    assert_eq!(cfg.path(), PathBuf::from("/nonexistent/kettle_app/config"));
    assert_eq!(handle().scope_name(), None);
}

#[test]
fn app_config_names_default_file() {
    let plain = app("kettle_test_app", None);
    assert_eq!(plain.name, "kettle_test_app");
    if let Some(c) = plain.config() {
        assert_eq!(c.file(), "config");
        assert_eq!(c.scope_name(), None);
        assert!(c.dir().ends_with("kettle_test_app"));
    }
    let custom = app("kettle_test_app", Some("config.ini"));
    if let Some(c) = custom.config() {
        assert_eq!(c.file(), "config.ini");
    }
    if let Some(c) = custom.config_file("admin_profiles") {
        assert_eq!(c.file(), "admin_profiles");
    }
}

#[test]
fn app_dirs_end_with_name() {
    let a = app("kettle_test_app", None);
    for dir in [a.cache_dir(), a.config_dir(), a.data_dir(), a.data_local_dir(), a.preference_dir()] {
        if let Some(d) = dir {
            assert!(d.ends_with("kettle_test_app"));
        }
    }
    assert_eq!(a.config_dir().is_some(), kettle::user_dirs::config_dir().is_some());
}

#[test]
fn config_under_root_joins_name() {
    let a = app("kettle_test_app", Some("settings.ini"));
    let c = a.config_file_under(&PathBuf::from("/root_dir"), "admin_profiles");
    assert_eq!(c.file(), "admin_profiles");
    assert_eq!(c.scope_name(), None);
    assert_eq!(c.dir(), &PathBuf::from("/root_dir/kettle_test_app"));
    assert_eq!(c.path(), PathBuf::from("/root_dir/kettle_test_app/admin_profiles"));
}

#[test]
fn deleting_absent_key_keeps_empty_section() {
    let dev = handle().section("dev");
    let mut disk = Some("[dev]\n".to_string());
    let before = disk.clone();
    assert!(write(&dev, &mut disk, "view", None).is_ok());
    assert_eq!(disk, before);
}

#[test]
fn deleting_absent_key_keeps_document() {
    let dev = handle().section("dev");
    let mut disk = Some("top=1\n\n[dev]\nsize=2\n".to_string());
    let before = disk.clone();
    assert!(write(&dev, &mut disk, "view", None).is_ok());
    assert_eq!(disk, before);
    assert_eq!(read(&dev, &disk, "size"), Some("2".to_string()));
}

#[test]
fn repeated_header_reads_first_section() {
    let dev = handle().section("dev");
    let mut disk = Some("[dev]\nview=a\n[dev]\nview=b\nother=c\n".to_string());
    assert_eq!(read(&dev, &disk, "view"), Some("a".to_string()));
    assert_eq!(read(&dev, &disk, "other"), None);
    assert!(write(&dev, &mut disk, "view", None).is_ok());
    assert!(!disk.clone().unwrap().contains("[dev]"));
}
