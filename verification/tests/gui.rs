use decktricks::actions::{ActionSuccess, SpecificActionID};
use decktricks::command::{Action, LogType};
use decktricks::context::SpecificExecutionContext;
use decktricks::errors::{DeckResult, KnownError};
use decktricks::gui::{
    appearance, command_output, display_order, first_available, layout_categories, log_tabs, press,
    refreshed_status, sort_by_display_name, ButtonPress,
};
use decktricks::gui_build::{
    build_steps, cargo_build_args, cdylib_path, choose_godot_bin, command_line_text, export_failed,
    get_exported_binary_path, godot_export_args, parse_build_args, BuildAction, BuildRequest, BuildStep,
};
use decktricks::gui_logs::{LogStorage, ParsedLogsLatest, StoredLogEntry};
use decktricks::logging::LogChannel;
use decktricks::providers::dyn_provider::DynTrickProvider;
use decktricks::providers::system_context::FullSystemContext;
use decktricks::tricks_config::{Flatpak, ProviderConfig, Trick};
use decktricks::tricks_status::{ActionDisplayStatus, AllTricksStatus, TrickStatus};
use std::rc::Rc;

fn trick(id: &str, display_name: &str) -> Rc<Trick> {
    Rc::new(Trick {
        id: id.to_string(),
        provider_config: ProviderConfig::Flatpak(Flatpak { id: format!("org.{id}") }),
        display_name: display_name.to_string(),
        description: format!("About {id}"),
        always_present_on_steamdeck: None,
        icon: None,
        categories: vec!["games".to_string()],
    })
}

fn action(t: &Rc<Trick>, action_id: SpecificActionID, is_available: bool) -> ActionDisplayStatus {
    ActionDisplayStatus { trick: t.clone(), action_id, is_available, is_ongoing: false, is_completed: false }
}

fn status(id: &str, display_name: &str, available: &[bool]) -> (String, TrickStatus) {
    let t = trick(id, display_name);
    let kinds = SpecificActionID::all_variants();
    let actions = available.iter().zip(kinds).map(|(a, k)| action(&t, k, *a)).collect();
    (id.to_string(), TrickStatus { trick: t, actions })
}

fn ids(rows: &[(String, TrickStatus)]) -> Vec<&str> {
    rows.iter().map(|(id, _)| id.as_str()).collect()
}

#[test]
fn display_order_is_stable_by_name() {
    let names: Vec<String> = ["b", "a", "b", "C", "a"].iter().map(|s| s.to_string()).collect();
    // Upper case sorts before lower case, as `String` does.
    assert_eq!(display_order(&names), vec![3, 1, 4, 0, 2]);
    assert!(display_order(&Vec::new()).is_empty());
}

#[test]
fn rows_sorted_by_display_name() {
    let tricks = vec![status("z", "Alpha", &[true]), status("a", "Zeta", &[true]), status("m", "Alpha", &[false])];
    let rows = sort_by_display_name(&tricks);
    assert_eq!(ids(&rows), vec!["z", "m", "a"]);
    assert_eq!(rows[1].1.actions.len(), 1);
    assert!(!rows[1].1.actions[0].is_available);
}

#[test]
fn first_button_is_in_second_tab() {
    let all = vec![status("a", "A", &[true])];
    let second = vec![status("x", "X", &[false, false]), status("w", "W", &[false, true, true])];
    let map = vec![("all".to_string(), all), ("games".to_string(), second)];
    let layout = layout_categories(&map);
    assert_eq!(layout.tabs.len(), 2);
    assert_eq!(layout.tabs[1].category_id, "games");
    assert_eq!(ids(&layout.tabs[1].rows), vec!["w", "x"]);
    assert_eq!(layout.first_button, Some((0, 1)));

    let only_all = vec![("all".to_string(), vec![status("a", "A", &[true])])];
    assert_eq!(layout_categories(&only_all).first_button, None);
    assert_eq!(first_available(&vec![status("q", "Q", &[false, false])]), None);
}

#[test]
fn pressing_info_shows_a_window() {
    let t = trick("lutris", "Lutris");
    match press(&action(&t, SpecificActionID::Info, true)) {
        ButtonPress::ShowInfo { title, text } => {
            assert_eq!(title, "Lutris");
            assert_eq!(text, "About lutris");
        }
        other => panic!("unexpected: {other:?}"),
    }
}

#[test]
fn pressing_an_action_runs_it() {
    let t = trick("lutris", "Lutris");
    match press(&action(&t, SpecificActionID::AddToSteam, true)) {
        ButtonPress::Run { command, announce_added_to_steam } => {
            assert!(announce_added_to_steam);
            assert!(matches!(command.action, Action::AddToSteam { ref id } if id == "lutris"));
            assert_eq!(command.log_level, Some(LogType::Info));
        }
        other => panic!("unexpected: {other:?}"),
    }
    match press(&action(&t, SpecificActionID::Update, true)) {
        ButtonPress::Run { command, announce_added_to_steam } => {
            assert!(!announce_added_to_steam);
            assert!(matches!(command.action, Action::Update { id: Some(ref id) } if id == "lutris"));
        }
        other => panic!("unexpected: {other:?}"),
    }
}

#[test]
fn button_appearance_follows_status() {
    let t = trick("lutris", "Lutris");
    let mut a = action(&t, SpecificActionID::Install, true);
    a.is_ongoing = true;
    let look = appearance(&a);
    assert_eq!(look.identifier, "install");
    assert_eq!(look.display_text, "Installing");
    assert!(look.is_available && look.is_ongoing && !look.is_completed);
}

#[test]
fn refreshing_a_button() {
    let full = FullSystemContext::empty();
    let lutris = Trick {
        id: "lutris".into(),
        provider_config: ProviderConfig::Flatpak(Flatpak { id: "net.lutris.Lutris".into() }),
        display_name: "Lutris".into(),
        description: String::new(),
        always_present_on_steamdeck: None,
        icon: None,
        categories: Vec::new(),
    };
    let provider = DynTrickProvider::new(SpecificExecutionContext::test(lutris), &full);
    let all = AllTricksStatus::new(vec![provider]);
    let t = trick("lutris", "Lutris");
    let fresh = refreshed_status(&action(&t, SpecificActionID::Install, false), &all).unwrap();
    assert_eq!(fresh.action_id, SpecificActionID::Install);
    assert!(fresh.is_available);
    let gone = trick("gone", "Gone");
    assert_eq!(
        refreshed_status(&action(&gone, SpecificActionID::Run, true), &all).unwrap_err(),
        "Trick \"gone\" not found! This is a serious error, please report it at https://github.com/MrAwesome/decktricks!"
    );
}

#[test]
fn command_output_joins_messages() {
    let ok: Vec<DeckResult<ActionSuccess>> =
        vec![Ok(ActionSuccess::new(Some("one".into()))), Ok(ActionSuccess::new(None)), Ok(ActionSuccess::new(Some("two".into())))];
    assert_eq!(command_output(&ok), Some("one\n\ntwo".to_string()));
    let failed: Vec<DeckResult<ActionSuccess>> =
        vec![Ok(ActionSuccess::new(Some("one".into()))), Err(KnownError::TestError("no".into()))];
    assert_eq!(command_output(&failed), None);
    assert_eq!(command_output(&Vec::new()), Some(String::new()));
}

#[test]
fn log_tabs_in_order() {
    let entry = |t: u64, s: &str| StoredLogEntry { timestamp: t, log_type: LogType::Log, text: s.to_string() };
    let parsed = ParsedLogsLatest {
        all: vec![entry(1, "a"), entry(2, "b")],
        general: vec![entry(1, "a")],
        tricks: vec![("lutris".to_string(), vec![entry(2, "b")])],
    };
    let tabs = log_tabs(parsed, Some("updated".to_string()), 9);
    let names: Vec<&str> = tabs.iter().map(|(n, _)| n.as_str()).collect();
    assert_eq!(names, vec!["all", "general", "updates", "lutris"]);
    assert_eq!(tabs[2].1.len(), 1);
    assert_eq!(tabs[2].1[0].timestamp, 9);
    assert_eq!(tabs[2].1[0].log_type, LogType::Info);
    assert_eq!(tabs[2].1[0].text, "updated");
    assert_eq!(tabs[0].1.len(), 2);

    let parsed = ParsedLogsLatest { all: Vec::new(), general: Vec::new(), tricks: Vec::new() };
    assert_eq!(log_tabs(parsed, None, 0).len(), 2);
}

#[test]
fn log_storage_shows_each_entry_once_and_keeps_all() {
    let mut store = LogStorage::new();
    store.store(LogChannel::TrickID("lutris".into()), LogType::Info, "installing".into(), 2);
    store.store(LogChannel::General, LogType::Warn, "careful".into(), 1);
    store.store(LogChannel::TrickID("lutris".into()), LogType::Log, "done".into(), 3);
    let latest = store.get_latest_logs_and_wipe();
    let texts: Vec<&str> = latest.all.iter().map(|e| e.text.as_str()).collect();
    assert_eq!(texts, vec!["careful", "installing", "done"]);
    assert_eq!(latest.general.len(), 1);
    assert_eq!(latest.tricks.len(), 1);
    assert_eq!(latest.tricks[0].0, "lutris");
    assert_eq!(latest.tricks[0].1.len(), 2);

    let again = store.get_latest_logs_and_wipe();
    assert!(again.all.is_empty() && again.general.is_empty() && again.tricks.is_empty());

    store.store(LogChannel::TrickID("kate".into()), LogType::Error, "failed".into(), 4);
    let dump = store.get_all_logs_for_dump();
    assert_eq!(dump.all, "careful\ninstalling\ndone\nfailed");
    assert_eq!(dump.general, "careful");
    let tricks: Vec<(&str, &str)> = dump.tricks.iter().map(|(a, b)| (a.as_str(), b.as_str())).collect();
    assert_eq!(tricks, vec![("kate", "failed"), ("lutris", "installing\ndone")]);
    let latest = store.get_latest_logs_and_wipe();
    assert_eq!(latest.all.len(), 1);
}

#[test]
fn build_tool_arguments() {
    let args = |v: &[&str]| v.iter().map(|s| s.to_string()).collect::<Vec<String>>();
    assert_eq!(parse_build_args(&args(&[])), Ok(BuildRequest { action: BuildAction::BuildAndExport, clean: false }));
    assert_eq!(
        parse_build_args(&args(&["--clean", "build-lib"])),
        Ok(BuildRequest { action: BuildAction::BuildLibOnly, clean: true })
    );
    assert_eq!(
        parse_build_args(&args(&["export", "--clean"])),
        Ok(BuildRequest { action: BuildAction::ExportOnly, clean: true })
    );
    assert_eq!(parse_build_args(&args(&["build"])).unwrap().action, BuildAction::BuildAndExport);
    assert_eq!(parse_build_args(&args(&["print-binary-path"])).unwrap().action, BuildAction::PrintBinaryPath);
    assert_eq!(
        parse_build_args(&args(&["bogus"])).unwrap_err(),
        "Unknown subcommand: bogus\nUsage: gui-tool [--clean] [build-and-export|build-lib|export|print-binary-path]"
    );
}

#[test]
fn build_tool_steps_and_paths() {
    assert_eq!(
        build_steps(BuildRequest { action: BuildAction::ExportOnly, clean: true }),
        vec![
            BuildStep::CleanBuildDirs,
            BuildStep::EnsureBuildDir,
            BuildStep::GodotImport,
            BuildStep::GodotExport,
            BuildStep::PrintBinaryPath
        ]
    );
    assert_eq!(get_exported_binary_path(false), "../godot/build/release/decktricks-gui");
    assert_eq!(cdylib_path(true), "target/debug/libdecktricks_godot_gui.so");
    let (args, human) = cargo_build_args(false);
    assert_eq!(args, vec!["build", "--lib", "--release"]);
    assert_eq!(human, "cargo build --release");
    let (args, human) = godot_export_args("godot4", true, "out");
    assert_eq!(args, vec!["--headless", "--export-debug", "linux-debug", "out"]);
    assert_eq!(human, "godot4 --headless --export-debug linux-debug");
    assert!(export_failed("ok", "ERROR: no"));
    assert!(!export_failed("fine", "also fine"));
    assert_eq!(choose_godot_bin(Some("/opt/godot".into()), true), "/opt/godot");
    assert_eq!(choose_godot_bin(Some("  ".into()), true), "godot4");
    assert_eq!(choose_godot_bin(None, false), "godot");
    assert_eq!(command_line_text("cargo", &vec!["build".to_string(), "--lib".to_string()]), "cargo build --lib");
}

#[test]
fn log_entry_display() {
    let teapot = "I am... a little teapot.";
    assert!(StoredLogEntry { timestamp: 0, log_type: LogType::Log, text: teapot.into() }
        .to_string()
        .contains(teapot));
}
