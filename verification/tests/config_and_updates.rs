use service_supervisor::config::LaunchConfig;
use service_supervisor::progress::UpdateProgress;
use service_supervisor::update_flow::{
    record_check_outcome, record_download_outcome, UpdateCheck, UpdateError, UpdateInfo,
};

fn all_values() -> [Option<String>; 6] {
    [
        Some(String::from("/opt/runtime/bin/interp")),
        Some(String::from("/opt/runtime")),
        Some(String::from("/opt/app/start.script")),
        Some(String::from("/opt/runtime/lib")),
        Some(String::from("/opt/app/content")),
        Some(String::from("http://127.0.0.1")),
    ]
}

fn build(values: [Option<String>; 6]) -> Result<LaunchConfig, String> {
    let [a, b, c, d, e, f] = values;
    LaunchConfig::from_values(a, b, c, d, e, f).map_err(|err| err.name)
}

#[test]
fn complete_values_build_the_config() {
    let cfg = build(all_values()).expect("every value is present");
    assert_eq!(cfg.interpreter_path, "/opt/runtime/bin/interp");
    assert_eq!(cfg.interpreter_home, "/opt/runtime");
    assert_eq!(cfg.entry_script_path, "/opt/app/start.script");
    assert_eq!(cfg.library_path, "/opt/runtime/lib");
    assert_eq!(cfg.app_content_path, "/opt/app/content");
    assert_eq!(cfg.base_url, "http://127.0.0.1");
    assert_eq!(cfg.port_start, 3000);
    assert_eq!(cfg.port_end, 8000);
}

#[test]
fn the_first_missing_value_is_named() {
    let mut values = all_values();
    values[0] = None;
    assert_eq!(build(values).err(), Some(String::from("INTERPRETER_EXECUTABLE_PATH")));

    let mut values = all_values();
    values[3] = None;
    assert_eq!(build(values).err(), Some(String::from("LIBRARY_PATH")));

    let mut values = all_values();
    values[3] = None;
    values[5] = None;
    assert_eq!(build(values).err(), Some(String::from("LIBRARY_PATH")));

    let mut values = all_values();
    values[5] = None;
    assert_eq!(build(values).err(), Some(String::from("SERVICE_BASE_URL")));
}

#[test]
fn spawn_args_frame_the_entry_script() {
    let cfg = build(all_values()).unwrap();
    let args = cfg.spawn_args();
    assert_eq!(args, vec!["--vanilla", "/opt/app/start.script", "--verbose"]);
}

#[test]
fn spawn_env_is_fully_specified() {
    let cfg = build(all_values()).unwrap();
    let env = cfg.spawn_env(4321);
    let expected = vec![
        ("INTERPRETER_HOME", "/opt/runtime"),
        ("INTERPRETER_HOME_DIR", "/opt/runtime"),
        ("SERVICE_PORT", "4321"),
        ("SERVICE_APP_PATH", "/opt/app/content"),
        ("SERVICE_HOST", "0.0.0.0"),
        ("LIBRARY_PATH", "/opt/runtime/lib"),
        ("LIBRARY_PATH_USER", "/opt/runtime/lib"),
        ("LIBRARY_PATH_SITE", "/opt/runtime/lib"),
    ];
    assert_eq!(env.len(), expected.len());
    for (pair, (name, value)) in env.iter().zip(expected) {
        assert_eq!(pair.0, name);
        assert_eq!(pair.1, value);
    }
}

#[test]
fn no_update_available_is_recorded_and_surfaced() {
    let mut p = UpdateProgress::new();
    p.begin_download();
    let r = record_check_outcome(&mut p, Ok(UpdateCheck::NotAvailable));
    assert!(matches!(r, Err(UpdateError::NoUpdateAvailable)));
    let snap = p.snapshot();
    assert!(snap.downloading);
    assert_eq!(snap.error.as_deref(), Some("No update available"));
    assert_eq!(UpdateError::NoUpdateAvailable.message(), "No update available");
}

#[test]
fn failed_check_is_recorded_and_surfaced() {
    let mut p = UpdateProgress::new();
    p.begin_download();
    p.on_chunk(10, Some(100));
    let r = record_check_outcome(&mut p, Err(String::from("network unreachable")));
    match r {
        Err(e @ UpdateError::CheckFailed { .. }) => {
            assert_eq!(e.message(), "Failed to check for updates: network unreachable");
        }
        _ => panic!("expected a failed check"),
    }
    assert_eq!(p.error.as_deref(), Some("network unreachable"));
    assert_eq!(p.downloaded, 10);
}

#[test]
fn available_update_is_handed_on_untouched() {
    let mut p = UpdateProgress::new();
    p.begin_download();
    let info = UpdateInfo {
        version: String::from("2.1.0"),
        notes: Some(String::from("fixes")),
        download_url: String::from("https://host/pkg"),
    };
    let r = record_check_outcome(&mut p, Ok(UpdateCheck::Available { info }));
    match r {
        Ok(info) => {
            assert_eq!(info.version, "2.1.0");
            assert_eq!(info.notes.as_deref(), Some("fixes"));
            assert_eq!(info.download_url, "https://host/pkg");
        }
        Err(_) => panic!("expected the update to be handed on"),
    }
    assert!(p.error.is_none());
}

#[test]
fn download_outcomes_pass_or_record() {
    let mut p = UpdateProgress::new();
    p.begin_download();
    p.on_chunk(5, Some(10));
    assert!(record_download_outcome(&mut p, Ok(())).is_ok());
    assert!(p.error.is_none());

    let r = record_download_outcome(&mut p, Err(String::from("disk full")));
    match r {
        Err(e @ UpdateError::DownloadFailed { .. }) => {
            assert_eq!(e.message(), "disk full");
        }
        _ => panic!("expected a failed download"),
    }
    assert_eq!(p.error.as_deref(), Some("disk full"));
    assert_eq!(p.downloaded, 5);
}
