// The shell-facing pieces: menu state and platform knowledge, clipboard
// payload validation, path derivation, log lines and the decimal renderer.

use jterm_supervisor::clipboard::ImageData;
use jterm_supervisor::decimal::{u16_to_decimal, u32_to_decimal, u64_to_decimal};
use jterm_supervisor::logging::{format_log_line, log_message, DesktopLogger};
use jterm_supervisor::menu::{MenuEvent, MenuItemState, MenuState, Platform};
use jterm_supervisor::paths::{
    check_web_database_exists, get_database_path, get_database_path_static,
    get_media_directory, get_platform_name, get_python_executable_name, get_temp_directory,
    join_path, venv_python_path,
};
use jterm_supervisor::system::AppInfo;

#[test]
fn test_modifier_key() {
    assert_eq!(Platform::MacOS.modifier_key(), "Cmd");
    assert_eq!(Platform::Windows.modifier_key(), "Ctrl");
    assert_eq!(Platform::Linux.modifier_key(), "Ctrl");
}

#[test]
fn test_menu_state() {
    let mut state = MenuState::new();

    let item = MenuItemState {
        id: "test".to_string(),
        enabled: true,
        checked: false,
        title: Some("Test Item".to_string()),
    };

    state.update_item("test".to_string(), item.clone());

    let retrieved = state.get_item("test");
    assert!(retrieved.is_some());
    assert_eq!(retrieved.unwrap().id, "test");
}

#[test]
fn test_python_executable_name() {
    let name = get_python_executable_name(Platform::Linux);
    assert!(!name.is_empty());
}

#[test]
fn test_platform_name() {
    let platform = get_platform_name(Platform::Linux);
    assert!(!platform.is_empty());
}

#[test]
fn platform_predicates() {
    assert!(Platform::MacOS.is_macos());
    assert!(!Platform::MacOS.is_windows());
    assert!(!Platform::MacOS.is_linux());
    assert!(Platform::Windows.is_windows());
    assert!(Platform::Linux.is_linux());
}

#[test]
fn platform_names() {
    assert_eq!(get_platform_name(Platform::MacOS), "macOS");
    assert_eq!(get_platform_name(Platform::Windows), "Windows");
    assert_eq!(get_platform_name(Platform::Linux), "Linux");
    assert_eq!(get_python_executable_name(Platform::Windows), "python.exe");
    assert_eq!(get_python_executable_name(Platform::MacOS), "python3");
}

#[test]
fn menu_event_ids() {
    assert_eq!(MenuEvent::NewTab.id(), "new_tab");
    assert_eq!(MenuEvent::CloseTab.id(), "close_tab");
    assert_eq!(MenuEvent::Copy.id(), "copy");
    assert_eq!(MenuEvent::Paste.id(), "paste");
    assert_eq!(MenuEvent::Clear.id(), "clear");
    assert_eq!(
        MenuEvent::ShowRecordingControls.id(),
        "show_recording_controls"
    );
    assert_eq!(
        MenuEvent::ShowPerformanceMonitor.id(),
        "show_performance_monitor"
    );
    assert_eq!(MenuEvent::ShowAIAssistant.id(), "show_ai_assistant");
    assert_eq!(MenuEvent::About.id(), "about");
    assert_eq!(MenuEvent::Preferences.id(), "preferences");
    assert_eq!(MenuEvent::Quit.id(), "quit");
}

#[test]
fn missing_item_reads_as_none() {
    let state = MenuState::new();
    assert!(state.get_item("absent").is_none());
}

#[test]
fn update_replaces_the_stored_state() {
    let mut state = MenuState::new();
    state.update_item(
        "copy".to_string(),
        MenuItemState {
            id: "copy".to_string(),
            enabled: true,
            checked: false,
            title: None,
        },
    );
    state.update_item(
        "copy".to_string(),
        MenuItemState {
            id: "copy".to_string(),
            enabled: false,
            checked: true,
            title: Some("Copy!".to_string()),
        },
    );
    let stored = state.get_item("copy").unwrap();
    assert!(!stored.enabled);
    assert!(stored.checked);
    assert_eq!(stored.title, Some("Copy!".to_string()));
}

#[test]
fn partial_update_keeps_missing_fields() {
    let mut state = MenuState::new();
    // A never-stored id starts from the default state.
    state.apply_update("paste".to_string(), None, Some(true), None);
    let stored = state.get_item("paste").unwrap();
    assert!(stored.enabled);
    assert!(stored.checked);
    assert_eq!(stored.title, None);

    // A later partial update only touches the given fields.
    state.apply_update(
        "paste".to_string(),
        Some(false),
        None,
        Some("Paste".to_string()),
    );
    let stored = state.get_item("paste").unwrap();
    assert!(!stored.enabled);
    assert!(stored.checked);
    assert_eq!(stored.title, Some("Paste".to_string()));
}

#[test]
fn image_payload_validation() {
    let valid = ImageData {
        rgba: vec![0u8; 16],
        width: 2,
        height: 2,
    };
    assert!(valid.is_valid());

    let truncated = ImageData {
        rgba: vec![0u8; 15],
        width: 2,
        height: 2,
    };
    assert!(!truncated.is_valid());

    let empty = ImageData {
        rgba: Vec::new(),
        width: 0,
        height: 0,
    };
    assert!(empty.is_valid());
}

#[test]
fn derived_paths() {
    assert_eq!(join_path("a", "b"), "a/b");
    assert_eq!(
        get_database_path("/data/jterm"),
        "/data/jterm/webterminal.db"
    );
    assert_eq!(get_media_directory("/data/jterm"), "/data/jterm/media");
    assert_eq!(get_temp_directory("/cache/jterm"), "/cache/jterm/temp");
    assert_eq!(
        venv_python_path("/opt/app", Platform::Linux),
        "/opt/app/venv/bin/python3"
    );
    assert_eq!(
        venv_python_path("C:/app", Platform::Windows),
        "C:/app/venv/bin/python.exe"
    );
}

#[test]
fn static_database_path_shape() {
    if let Some(path) = get_database_path_static() {
        assert!(path.ends_with("/jterm/webterminal.db"));
    }
}

#[test]
fn web_database_probe_names_the_well_known_path() {
    if let Some(path) = check_web_database_exists() {
        assert_eq!(path, "webterminal.db");
    }
}

#[test]
fn log_line_format() {
    assert_eq!(
        format_log_line("2024-01-01 00:00:00", "INFO", "hello"),
        "[2024-01-01 00:00:00] INFO - hello"
    );
}

#[test]
fn level_normalization() {
    assert_eq!(
        log_message("debug", "x"),
        ("debug".to_string(), "x".to_string())
    );
    assert_eq!(
        log_message("info", "x"),
        ("info".to_string(), "x".to_string())
    );
    assert_eq!(
        log_message("warn", "x"),
        ("warn".to_string(), "x".to_string())
    );
    assert_eq!(
        log_message("error", "x"),
        ("error".to_string(), "x".to_string())
    );
    assert_eq!(
        log_message("verbose", "x"),
        ("info".to_string(), "x".to_string())
    );
}

#[test]
fn logger_lines_carry_level_and_message() {
    let logger = DesktopLogger::new("/var/log/jterm");
    assert_eq!(
        logger.log_file,
        Some("/var/log/jterm/jterm.log".to_string())
    );

    let startup = logger.log_startup();
    assert!(startup.starts_with('['));
    assert!(startup.ends_with("] INFO - jterm desktop application starting..."));
    // The timestamp between the brackets is live, 19 characters long.
    assert_eq!(
        startup.len(),
        "[] INFO - jterm desktop application starting...".len() + 19
    );

    let ready = logger.log_python_backend_ready(8050);
    assert!(ready.ends_with("] INFO - Python backend ready on port 8050"));

    let start = logger.log_python_backend_start(8050);
    assert!(start.ends_with("] INFO - Python backend starting on port 8050"));

    let error = logger.log_error("boom");
    assert!(error.ends_with("] ERROR - boom"));

    let shutdown = logger.log_shutdown();
    assert!(shutdown.ends_with("] INFO - jterm desktop application shutting down..."));
}

#[test]
fn decimal_rendering() {
    assert_eq!(u16_to_decimal(0), "0");
    assert_eq!(u16_to_decimal(7), "7");
    assert_eq!(u16_to_decimal(8050), "8050");
    assert_eq!(u16_to_decimal(65535), "65535");
    assert_eq!(u32_to_decimal(4294967295), "4294967295");
    assert_eq!(u64_to_decimal(18446744073709551615), "18446744073709551615");
    assert_eq!(u64_to_decimal(1000), "1000");
}

#[test]
fn app_info_carries_its_parts() {
    let info = AppInfo::new(
        "1.2.3".to_string(),
        "linux".to_string(),
        Some(8050),
        Some("/data/jterm/webterminal.db".to_string()),
    );
    assert_eq!(info.version, "1.2.3");
    assert_eq!(info.platform, "linux");
    assert_eq!(info.backend_port, Some(8050));
    assert_eq!(
        info.database_path,
        Some("/data/jterm/webterminal.db".to_string())
    );
}
