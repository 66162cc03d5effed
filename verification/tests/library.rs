use decktricks::actions::{SpecificAction, SpecificActionID};
use decktricks::add_to_steam::{
    add_to_steam_plan, get_current_shortcuts_from_file, get_desired_order_num, get_full_appid, get_steam_userids,
    is_steam_userid, parse_i64, AddToSteamTarget, SteamShortcut, TrickAddToSteamContext,
};
use decktricks::command::{Action, DecktricksCommand, LogType};
use decktricks::context::{GeneralExecutionContext, SpecificExecutionContext};
use decktricks::errors::{DeckResult, KnownError, SeriousError};
use decktricks::executor::{ActionOutcome, Executor, ExecutorMode};
use decktricks::gui_logs::{prep_logs_for_display, prep_logs_for_dump, StoredLogEntry};
use decktricks::logging::LogChannel;
use decktricks::providers::decky_installer::DeckySystemContext;
use decktricks::providers::dyn_provider::DynTrickProvider;
use decktricks::providers::system_context::FullSystemContext;
use decktricks::providers::{perform, ActionPlan, ActionStep, OnSuccess};
use decktricks::system_command::{ActualRunner, ProcessOutput, SysCommand, SysCommandResult};
use decktricks::tail_watcher::{drained_text, TailWatcherFake, TailWatcherInner};
use decktricks::text::sort_strings;
use decktricks::tricks_config::{
    DeckyInstaller, Flatpak, ProviderConfig, SimpleCommand, Trick, TricksConfig, TricksLoader,
};
use decktricks::tricks_status::AllTricksStatus;
use decktricks::update::{AfterFailure, DownloadRetries, check_hashes, hex_lower, line_check, rsplit_two_spaces, xxhash_hex, HashCheckOutcome};

struct Answers<F: Fn(&SysCommand) -> DeckResult<SysCommandResult>>(F);

impl<F: Fn(&SysCommand) -> DeckResult<SysCommandResult>> ActualRunner for Answers<F> {
    fn run(&self, sys_command: &SysCommand) -> DeckResult<SysCommandResult> {
        // A runner answers for the command it was handed.
        (self.0)(sys_command).map(|r| {
            let out = r.raw_output();
            SysCommandResult::new(
                sys_command.duplicate(),
                ProcessOutput { exit_code: out.exit_code, stdout: out.stdout.clone(), stderr: out.stderr.clone() },
            )
        })
    }
}

fn strs(v: &[&str]) -> Vec<String> {
    v.iter().map(|s| s.to_string()).collect()
}

fn trick(id: &str, provider_config: ProviderConfig, categories: &[&str]) -> Trick {
    Trick {
        id: id.to_string(),
        provider_config,
        display_name: format!("{id} display"),
        description: String::new(),
        always_present_on_steamdeck: None,
        icon: None,
        categories: strs(categories),
    }
}

fn flatpak(id: &str) -> ProviderConfig {
    ProviderConfig::Flatpak(Flatpak { id: id.to_string() })
}

fn shortcut(order: &str, tags: &[&str]) -> SteamShortcut {
    let mut s = SteamShortcut::new(order, "Some Game", "\"/usr/bin/game\"", "/usr/bin", "", "", "");
    s.tags = strs(tags);
    s
}

#[test]
fn hex_is_lowercase_without_leading_zeros() {
    assert_eq!(hex_lower(0), "0");
    assert_eq!(hex_lower(255), "ff");
    assert_eq!(hex_lower(0x0123_abcd), "123abcd");
}

#[test]
fn xxhash_of_empty_input() {
    assert_eq!(xxhash_hex(b""), "ef46db3751d8e999");
    assert_ne!(xxhash_hex(b"a"), xxhash_hex(b""));
}

#[test]
fn hash_lines_split_at_last_two_spaces() {
    assert_eq!(
        rsplit_two_spaces("abc  def  ghi"),
        Some(("abc  def".to_string(), "ghi".to_string()))
    );
    assert_eq!(rsplit_two_spaces("abc def"), None);
    assert_eq!(
        line_check("ef46db3751d8e999  bin/decktricks", "/opt/dt").unwrap(),
        ("/opt/dt/bin/decktricks".to_string(), "ef46db3751d8e999".to_string())
    );
    assert_eq!(
        line_check("ef46db3751d8e999  /abs/file", "/opt/dt").unwrap(),
        ("/abs/file".to_string(), "ef46db3751d8e999".to_string())
    );
    assert!(line_check("nospaces", "/opt").is_err());
}

#[test]
fn hash_check_outcomes() {
    let lines = strs(&["ef46db3751d8e999  empty", "ef46db3751d8e999  other"]);
    let all_good = vec![Some(Vec::new()), Some(Vec::new())];
    assert_eq!(check_hashes(&lines, "/d", &all_good), Ok(HashCheckOutcome::NoActionNeeded));
    let missing = vec![Some(Vec::new()), None];
    assert_eq!(check_hashes(&lines, "/d", &missing), Ok(HashCheckOutcome::UpdateNeeded));
    let changed = vec![Some(b"x".to_vec()), Some(Vec::new())];
    assert_eq!(check_hashes(&lines, "/d", &changed), Ok(HashCheckOutcome::UpdateNeeded));
    let malformed = strs(&["garbage"]);
    assert!(check_hashes(&malformed, "/d", &vec![None]).is_err());
}

#[test]
fn full_appid_formula() {
    assert_eq!(get_full_appid(1), (1u64 << 32) | 0x0200_0000);
    assert_eq!(get_full_appid(0x8000_0001), (0x8000_0001u64 << 32) | 0x0200_0000);
}

#[test]
fn parse_i64_as_std_does() {
    for s in ["0", "+5", "-12", "9223372036854775807", "-9223372036854775808", "9223372036854775808", "", "+", "1a", " 1"] {
        assert_eq!(parse_i64(s), s.parse::<i64>().ok(), "{s:?}");
    }
}

#[test]
fn order_numbers() {
    assert_eq!(get_desired_order_num(&Vec::new()), "0");
    let shortcuts = vec![shortcut("3", &[]), shortcut("1", &[])];
    assert_eq!(get_desired_order_num(&shortcuts), "4");
    let with_bad = vec![shortcut("3", &[]), shortcut("x", &[])];
    assert_eq!(get_desired_order_num(&with_bad), "1000");
    let negative = vec![shortcut("-7", &[])];
    assert_eq!(get_desired_order_num(&negative), "-6");
}

#[test]
fn steam_user_directories() {
    assert!(is_steam_userid("123"));
    assert!(!is_steam_userid("0"));
    assert!(!is_steam_userid("12a"));
    assert_eq!(get_steam_userids(&strs(&["0", "123", "abc", "45"]), true).unwrap(), strs(&["123", "45"]));
    match get_steam_userids(&strs(&["anonymous"]), true) {
        Err(KnownError::AddToSteamError(m)) => assert_eq!(m, "No Steam user directory found!"),
        other => panic!("unexpected: {other:?}"),
    }
    assert!(get_steam_userids(&Vec::new(), false).unwrap().is_empty());
}

#[test]
fn new_shortcut_defaults() {
    let s = SteamShortcut::new("2", "Lutris", "\"/usr/bin/flatpak\"", "/usr/bin", "icon.png", "", "run");
    assert!(s.app_id >= 0x8000_0000);
    assert_eq!(s.order, "2");
    assert!(!s.is_hidden && s.allow_desktop_config && s.allow_overlay);
    assert!(s.tags.is_empty());
    let other = SteamShortcut::new("2", "Lutris 2", "\"/usr/bin/flatpak\"", "/usr/bin", "", "", "");
    assert_ne!(s.app_id, other.app_id);
}

#[test]
fn add_trick_to_steam_replaces_its_shortcut() {
    let t = trick("lutris", flatpak("net.lutris.Lutris"), &["gaming"]);
    let ctx = TrickAddToSteamContext::try_from(&t, "/home/deck").unwrap();
    assert_eq!(ctx.exe, "\"/usr/bin/flatpak\"");
    assert_eq!(ctx.launch_options, "\"run\" \"--branch=stable\" \"--arch=x86_64\" \"net.lutris.Lutris\"");
    assert_eq!(ctx.start_dir, "/usr/bin");
    let target = AddToSteamTarget::Specific(ctx);
    let files = vec![(
        "/tmp/shortcuts.vdf".to_string(),
        vec![shortcut("0", &["decktricks-lutris"]), shortcut("5", &["other"])],
    )];
    let (writes, success) = add_to_steam_plan(&target, files, 1234, "/home/deck").unwrap();
    assert_eq!(success.get_message().unwrap(), "Successfully added \"lutris display\" to Steam.");
    assert!(writes.full_appid.is_none());
    assert_eq!(writes.shortcut_files.len(), 1);
    let (name, bytes) = &writes.shortcut_files[0];
    assert_eq!(name, "/tmp/shortcuts.vdf");
    let back = get_current_shortcuts_from_file(name, Ok(bytes.clone()), true).unwrap();
    assert_eq!(back.len(), 2);
    assert_eq!(back[0].tags, strs(&["other"]));
    assert_eq!(back[1].tags, strs(&["decktricks-lutris"]));
    // The file keeps each entry's position as its key.
    assert_eq!(back[1].order, "1");
    assert_eq!(get_desired_order_num(&vec![shortcut("5", &["other"])]), "6");
    assert_eq!(back[1].last_play_time, 1234);
    assert_eq!(back.iter().filter(|s| s.tags.contains(&"decktricks-lutris".to_string())).count(), 1);
}

#[test]
fn add_decktricks_to_steam() {
    match add_to_steam_plan(&AddToSteamTarget::Decktricks, Vec::new(), 0, "/home/deck") {
        Err(KnownError::AddToSteamError(m)) => {
            assert_eq!(m, "Did not add Decktricks to Steam, so cannot write to file!")
        }
        other => panic!("unexpected: {other:?}"),
    }
    let files = vec![("/tmp/a.vdf".to_string(), vec![shortcut("0", &["decktricks"])])];
    let (writes, _) = add_to_steam_plan(&AddToSteamTarget::Decktricks, files, 0, "/home/deck").unwrap();
    let back = get_current_shortcuts_from_file("/tmp/a.vdf", Ok(writes.shortcut_files[0].1.clone()), true).unwrap();
    assert_eq!(back.len(), 1);
    assert_eq!(back[0].exe, "/home/deck/.local/share/decktricks/bin/decktricks-gui.sh");
    assert_eq!(back[0].order, "0");
    let appid = get_full_appid(back[0].app_id);
    assert_eq!(writes.full_appid.unwrap(), appid.to_string());
}

#[test]
fn shortcut_files_that_cannot_be_had() {
    assert!(get_current_shortcuts_from_file("f", Err("gone".into()), false).unwrap().is_empty());
    match get_current_shortcuts_from_file("f", Err("gone".into()), true) {
        Err(KnownError::AddToSteamError(m)) => assert_eq!(m, "Failed to read shortcuts from f: gone"),
        other => panic!("unexpected: {other:?}"),
    }
    assert!(get_current_shortcuts_from_file("f", Ok(Vec::new()), true).unwrap().is_empty());
    match get_current_shortcuts_from_file("f", Ok(vec![1, 2, 3]), true) {
        Err(KnownError::AddToSteamError(m)) => assert!(m.starts_with("Error parsing shortcuts from f: \"")),
        other => panic!("unexpected: {other:?}"),
    }
}

#[test]
fn add_to_steam_contexts_by_provider() {
    let decky = trick("decky", ProviderConfig::DeckyInstaller(DeckyInstaller), &[]);
    assert!(matches!(TrickAddToSteamContext::try_from_with(&decky, "/h", Ok(String::new())), Err(KnownError::AddToSteamError(_))));
    let cmd = trick(
        "kate",
        ProviderConfig::SimpleCommand(SimpleCommand { command: "kate".into(), args: Some(strs(&["-n", "x"])), execution_dir: None }),
        &[],
    );
    let c = TrickAddToSteamContext::try_from_with(&cmd, "/h", Ok("/usr/bin/kate".into())).unwrap();
    assert_eq!(c.exe, "\"/usr/bin/kate\"");
    assert_eq!(c.launch_options, "-n x");
    match TrickAddToSteamContext::try_from_with(&cmd, "/h", Err("not found".into())) {
        Err(KnownError::AddToSteamError(m)) => {
            assert_eq!(m, "Failed to find a binary matching kate in $PATH! Error: not found")
        }
        other => panic!("unexpected: {other:?}"),
    }
}

#[test]
fn sorting_strings() {
    let sorted = sort_strings(strs(&["b:", "a:", "a-b:", "b:"]));
    assert_eq!(sorted, strs(&["a-b:", "a:", "b:", "b:"]));
}

fn sample_loader() -> TricksLoader {
    TricksLoader::from_config(TricksConfig {
        known_categories: strs(&["gaming", "system"]),
        tricks: vec![
            trick("lutris", flatpak("net.lutris.Lutris"), &["gaming"]),
            trick("a-b", flatpak("org.a.B"), &["system"]),
            trick(
                "kate",
                ProviderConfig::SimpleCommand(SimpleCommand { command: "kate".into(), args: None, execution_dir: None }),
                &["system"],
            ),
        ],
    })
}

fn flatpak_list_runner(installed: &'static str) -> Answers<impl Fn(&SysCommand) -> DeckResult<SysCommandResult>> {
    Answers(move |c: &SysCommand| {
        if c.cmd == "flatpak" && c.args.first().map(|a| a.as_str()) == Some("list") {
            Ok(SysCommandResult::success_output(installed))
        } else {
            Ok(SysCommandResult::fake_success())
        }
    })
}

fn executor_with<R: ActualRunner>(runner: &R) -> Executor {
    let loader = sample_loader();
    let full = FullSystemContext::gather_with(&GeneralExecutionContext::test(), runner, loader.get_all_tricks(), "/h", true, Vec::new()).unwrap();
    Executor::with(ExecutorMode::OnceOff, loader, full, "/h".to_string(), LogType::Warn)
}

#[test]
fn loader_keeps_one_trick_per_id_in_order() {
    let loader = TricksLoader::from_config(TricksConfig {
        known_categories: Vec::new(),
        tricks: vec![
            trick("b", flatpak("first"), &[]),
            trick("a", flatpak("x"), &[]),
            trick("b", flatpak("second"), &[]),
        ],
    });
    let ids: Vec<&str> = loader.get_all_tricks().iter().map(|t| t.id.as_str()).collect();
    assert_eq!(ids, vec!["a", "b"]);
    assert!(matches!(loader.get_trick("zzz"), Err(KnownError::UnknownTrickID(_))));
}

#[test]
fn available_actions_listing() {
    let runner = flatpak_list_runner("net.lutris.Lutris");
    let executor = executor_with(&runner);
    let command = DecktricksCommand::new(Action::Actions { id: None, json: false });
    let (_, outcomes) = executor.execute(&command, None, &runner);
    let text = match &outcomes[0] {
        ActionOutcome::Finished(Ok(s)) => s.get_message().unwrap(),
        other => panic!("unexpected: {other:?}"),
    };
    assert_eq!(
        text,
        "a-b:\n  install\n  info\nkate:\n  run\n  add-to-steam\n  info\nlutris:\n  run\n  add-to-steam\n  update\n  uninstall\n  info"
    );
}

#[test]
fn gated_actions_are_refused() {
    let runner = flatpak_list_runner("");
    let executor = executor_with(&runner);
    let command = DecktricksCommand::new(Action::Uninstall { id: "lutris".into() });
    let (ctx, outcomes) = executor.execute(&command, None, &runner);
    assert!(ctx.is_some());
    match &outcomes[0] {
        ActionOutcome::Finished(Err(KnownError::ActionGated(m))) => assert_eq!(
            m,
            "Action 'uninstall' is not possible on trick 'lutris' right now. Is it installed/running? HINT: (Try 'actions')"
        ),
        other => panic!("unexpected: {other:?}"),
    }
    let info = DecktricksCommand::new(Action::Info { id: "lutris".into() });
    let (_, outcomes) = executor.execute(&info, None, &runner);
    assert!(matches!(&outcomes[0], ActionOutcome::ShowTrickInfo(t) if t.id == "lutris"));
}

#[test]
fn statuses_by_category() {
    let runner = flatpak_list_runner("net.lutris.Lutris");
    let executor = executor_with(&runner);
    let status = executor.get_all_tricks_status();
    let lutris = status.get("lutris").unwrap();
    let run = lutris.actions.iter().find(|a| a.action_id == SpecificActionID::Run).unwrap();
    assert!(run.is_available);
    assert!(!run.is_ongoing);
    let install = lutris.actions.iter().find(|a| a.action_id == SpecificActionID::Install).unwrap();
    assert!(!install.is_available);
    assert!(status.get("nope").is_none());
    let map = executor.get_full_map_for_all_categories();
    let names: Vec<&str> = map.iter().map(|(c, _)| c.as_str()).collect();
    assert_eq!(names, vec!["all", "gaming", "system"]);
    let system: Vec<&str> = map[2].1.iter().map(|(id, _)| id.as_str()).collect();
    assert_eq!(system, vec!["a-b", "kate"]);
    assert_eq!(map[0].1.len(), 3);
}

#[test]
fn later_provider_wins_in_statuses() {
    let full = FullSystemContext::empty();
    let mk = |t: Trick| DynTrickProvider::new(SpecificExecutionContext::test(t), &full);
    let first = trick("x", flatpak("one"), &["a"]);
    let second = trick("x", flatpak("two"), &["b"]);
    let status = AllTricksStatus::new(vec![mk(first), mk(second)]);
    let x = status.get("x").unwrap();
    assert_eq!(x.trick.categories, strs(&["b"]));
    assert_eq!(x.actions.len(), 7);
}

#[test]
fn decky_context_from_systemd() {
    let enabled = SysCommandResult::fake_for_test("systemctl", Vec::new(), 0, "", "");
    let inactive = SysCommandResult::fake_for_test("systemctl", Vec::new(), 3, "", "");
    let c = DeckySystemContext::from_results(Ok(enabled), Ok(inactive)).unwrap();
    assert!(c.is_installed);
    assert!(!c.is_running);
}

#[test]
fn refused_and_messageless_plans() {
    let runner = flatpak_list_runner("");
    let step = perform(
        ActionPlan::Refuse(KnownError::ActionNotPossible("no")),
        &LogChannel::General,
        LogType::Warn,
        &runner,
    );
    assert!(matches!(step, ActionStep::Finished(Err(KnownError::ActionNotPossible("no")))));
    let cmd = GeneralExecutionContext::test().sys_command("true", Vec::new());
    let step = perform(ActionPlan::Command(cmd, OnSuccess::Silent), &LogChannel::General, LogType::Warn, &runner);
    match step {
        ActionStep::Finished(Ok(s)) => assert!(s.get_message().is_none()),
        other => panic!("unexpected: {other:?}"),
    }
}

#[test]
fn kill_reports_killed_processes() {
    let runner = Answers(|c: &SysCommand| {
        let code = if c.args == strs(&["2"]) { 1 } else { 0 };
        Ok(SysCommandResult::fake_for_test("kill", c.args.clone(), code, "", ""))
    });
    let step = perform(ActionPlan::KillPids(strs(&["1", "2", "3"])), &LogChannel::General, LogType::Warn, &runner);
    match step {
        ActionStep::Finished(Ok(s)) => assert_eq!(
            s.get_message().unwrap(),
            "Successfully killed pid '1'\nSuccessfully killed pid '3'"
        ),
        other => panic!("unexpected: {other:?}"),
    }
}

#[test]
fn serious_error_links_to_issues() {
    let se = SeriousError::new("kind", "here", "a b");
    assert!(se.link().starts_with("https://github.com/MrAwesome/decktricks"));
}

#[test]
fn fake_tail_watcher_hands_text_out_once() {
    let mut w = TailWatcherFake::new("oops");
    assert_eq!(w.get_latest(), Some("oops".to_string()));
    assert_eq!(w.get_latest(), None);
    let mut empty = TailWatcherFake::new("");
    assert_eq!(empty.get_latest(), None);
}

fn entry(ts: u64, text: &str) -> StoredLogEntry {
    StoredLogEntry { timestamp: ts, log_type: LogType::Info, text: text.to_string() }
}

#[test]
fn logs_for_display_and_dump() {
    let channels = || {
        vec![
            (LogChannel::TrickID("zed".into()), vec![entry(5, "z1")]),
            (LogChannel::General, vec![entry(1, "g1"), entry(7, "g2")]),
            (LogChannel::TrickID("alpha".into()), vec![entry(3, "a1")]),
            (LogChannel::IgnoreCompletelyAlways, vec![entry(2, "i1")]),
        ]
    };
    let shown = prep_logs_for_display(channels());
    let all: Vec<&str> = shown.all.iter().map(|e| e.text.as_str()).collect();
    assert_eq!(all, vec!["g1", "i1", "a1", "z1", "g2"]);
    let general: Vec<&str> = shown.general.iter().map(|e| e.text.as_str()).collect();
    assert_eq!(general, vec!["g1", "g2"]);
    let ids: Vec<&str> = shown.tricks.iter().map(|t| t.0.as_str()).collect();
    assert_eq!(ids, vec!["alpha", "zed"]);
    let dumped = prep_logs_for_dump(channels());
    assert_eq!(dumped.all, "g1\ni1\na1\nz1\ng2");
    assert_eq!(dumped.general, "g1\ng2");
    assert_eq!(dumped.tricks, vec![("alpha".to_string(), "a1".to_string()), ("zed".to_string(), "z1".to_string())]);
}

#[test]
fn available_actions_follow_checks() {
    let full = FullSystemContext::empty();
    let p = DynTrickProvider::new(SpecificExecutionContext::test(trick("l", flatpak("x"), &[])), &full);
    assert_eq!(p.get_available_actions(), vec![SpecificActionID::Install, SpecificActionID::Info]);
    assert!(p.can(&SpecificAction::Info { id: "l".into() }));
    assert!(!p.can(&SpecificAction::Run { id: "l".into() }));
}

#[test]
fn drained_text_joins_chunks() {
    assert_eq!(drained_text(&strs(&["a\n", "b\n"])), Some("a\nb\n".to_string()));
    assert_eq!(drained_text(&Vec::new()), None);
    assert_eq!(drained_text(&strs(&["", ""])), None);
}

#[test]
fn download_retries_back_off_then_give_up() {
    let mut state = DownloadRetries::new();
    let mut waits = Vec::new();
    loop {
        match state.after_failure("timeout") {
            AfterFailure::Retry { wait_secs, next } => {
                waits.push(wait_secs);
                state = next;
            }
            AfterFailure::GiveUp(m) => {
                assert_eq!(m, "!!! Failed to update to new Decktricks version! Last error was:\ntimeout");
                break;
            }
        }
    }
    assert_eq!(waits, vec![1, 2, 4, 8, 16]);
}

#[test]
fn log_lines_name_source_and_channel() {
    let line = decktricks::logging::log_line(
        LogType::Warn,
        LogType::Info,
        &LogChannel::TrickID("lutris".into()),
        "/home/me/decktricks/src/providers/flatpak.rs",
        12,
        5,
        "hello",
    );
    assert_eq!(line.unwrap(), "[WARN] <lutris> src/providers/flatpak.rs: 12:5 {{{\nhello\n}}}");
    assert_eq!(
        decktricks::logging::log_line(LogType::Debug, LogType::Warn, &LogChannel::General, "x.rs", 1, 1, "no"),
        None
    );
    assert_eq!(decktricks::logging::source_name("elsewhere/x.rs"), "elsewhere/x.rs");
    assert_eq!(decktricks::logging::source_name("a/decktricks"), "a/decktricks");
    assert_eq!(decktricks::logging::source_name("decktricks/gui/rust/src/lib.rs"), "gui/rust/src/lib.rs");
}

#[test]
fn killing_no_process_runs_nothing() {
    let runner = Answers(|_: &SysCommand| -> DeckResult<SysCommandResult> { panic!("nothing should run") });
    let r = decktricks::utils::kill_pids(&LogChannel::General, LogType::Warn, &runner, &Vec::new()).unwrap();
    assert_eq!(r.get_message(), Some(String::new()));
}

#[test]
fn add_to_steam_context_looks_up_the_trick_command() {
    let sh = trick(
        "shell",
        ProviderConfig::SimpleCommand(SimpleCommand { command: "sh".into(), args: None, execution_dir: None }),
        &[],
    );
    let c = TrickAddToSteamContext::try_from(&sh, "/home/deck").unwrap();
    assert!(c.exe.starts_with("\"/"));
    assert!(c.exe.ends_with("/sh\""));
    assert_eq!(c.launch_options, "");
    let missing = trick(
        "missing",
        ProviderConfig::SimpleCommand(SimpleCommand {
            command: "no-such-binary-decktricks-test".into(),
            args: None,
            execution_dir: None,
        }),
        &[],
    );
    match TrickAddToSteamContext::try_from(&missing, "/home/deck") {
        Err(KnownError::AddToSteamError(m)) => {
            assert!(m.starts_with("Failed to find a binary matching no-such-binary-decktricks-test in $PATH! Error: "))
        }
        other => panic!("unexpected: {other:?}"),
    }
}

#[test]
fn tail_watcher_hands_back_lines_once() {
    let mut w = TailWatcherInner::empty();
    assert_eq!(w.get_latest(), None);
    w.receive("first");
    w.receive("");
    w.receive("third");
    assert_eq!(w.get_latest(), Some("first\n\nthird\n".to_string()));
    assert_eq!(w.get_latest(), None);
    w.receive("again");
    assert_eq!(w.get_latest(), Some("again\n".to_string()));
    assert_eq!(w.get_latest(), None);
}
