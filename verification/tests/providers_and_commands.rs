use decktricks::actions::{ActionSuccess, SpecificAction, SpecificActionID};
use decktricks::command::{Action, DecktricksCommand, LogType};
use decktricks::context::{GeneralExecutionContext, SpecificExecutionContext};
use decktricks::errors::{DeckResult, KnownError, SeriousError};
use decktricks::executor::{ActionOutcome, Executor, ExecutorMode};
use decktricks::logging::LogChannel;
use decktricks::providers::flatpak::{get_has_user_flathub, FlatpakProvider, FlatpakSystemContext};
use decktricks::providers::running::{RunningProgramSystemContext, INSTALLING_ENV_STRING, PID_ENV_STRING};
use decktricks::providers::simple_command::SimpleCommandProvider;
use decktricks::providers::system_context::FullSystemContext;
use decktricks::providers::{perform, ActionPlan, ActionStep, Checks};
use decktricks::system_command::{ActualRunner, ProcessOutput, SysCommand, SysCommandResult};
use decktricks::providers::emudeck_installer::EmuDeckSystemContext;
use decktricks::providers::geforce_now::GeForceSystemContext;
use decktricks::providers::systemd_run::SystemdRunUnitsContext;
use decktricks::tricks_config::{Flatpak, ProviderConfig, SystemdRun, Trick, TricksConfig, TricksLoader};
use decktricks::utils::exists_and_executable;
use std::cell::RefCell;

/// A runner that answers each command with what the given function says, and
/// remembers the commands it was asked to run.
struct FnRunner<F: Fn(&SysCommand) -> DeckResult<SysCommandResult>> {
    answer: F,
    seen: RefCell<Vec<SysCommand>>,
}

impl<F: Fn(&SysCommand) -> DeckResult<SysCommandResult>> FnRunner<F> {
    fn new(answer: F) -> Self {
        FnRunner { answer, seen: RefCell::new(Vec::new()) }
    }
}

impl<F: Fn(&SysCommand) -> DeckResult<SysCommandResult>> ActualRunner for FnRunner<F> {
    fn run(&self, sys_command: &SysCommand) -> DeckResult<SysCommandResult> {
        self.seen.borrow_mut().push(sys_command.duplicate());
        // A runner answers for the command it was handed.
        (self.answer)(sys_command).map(|r| {
            let out = r.raw_output();
            SysCommandResult::new(
                sys_command.duplicate(),
                ProcessOutput { exit_code: out.exit_code, stdout: out.stdout.clone(), stderr: out.stderr.clone() },
            )
        })
    }
}

fn always_succeeds() -> FnRunner<impl Fn(&SysCommand) -> DeckResult<SysCommandResult>> {
    FnRunner::new(|_: &SysCommand| Ok(SysCommandResult::fake_success()))
}

fn strs(v: &[&str]) -> Vec<String> {
    v.iter().map(|s| s.to_string()).collect()
}

fn flatpak_trick(id: &str, flatpak_id: &str, categories: &[&str]) -> Trick {
    Trick {
        id: id.to_string(),
        provider_config: ProviderConfig::Flatpak(Flatpak { id: flatpak_id.to_string() }),
        display_name: id.to_string(),
        description: String::new(),
        always_present_on_steamdeck: None,
        icon: None,
        categories: strs(categories),
    }
}

/// A configuration with tricks of the kinds that the default configuration holds.
fn sample_config() -> TricksConfig {
    TricksConfig {
        known_categories: strs(&["gaming", "system"]),
        tricks: vec![
            flatpak_trick("lutris", "net.lutris.Lutris", &["gaming"]),
            flatpak_trick("protonup-qt", "net.davidotek.pupgui2", &["gaming", "system"]),
            flatpak_trick("heroic", "com.heroicgameslauncher.hgl", &["gaming"]),
        ],
    }
}

fn get_executor<R: ActualRunner>(runner: &R) -> Executor {
    let loader = TricksLoader::from_config(sample_config());
    let ctx = GeneralExecutionContext::test();
    let full_ctx = FullSystemContext::gather_with(&ctx, runner, loader.get_all_tricks(), "/home/deck", true, Vec::new())
        .unwrap();
    Executor::with(ExecutorMode::OnceOff, loader, full_ctx, "/home/deck".to_string(), LogType::Warn)
}

fn finished(outcome: &ActionOutcome) -> &DeckResult<ActionSuccess> {
    match outcome {
        ActionOutcome::Finished(r) => r,
        other => panic!("expected a finished action, got {other:?}"),
    }
}

#[test]
fn test_check_hashes() {}

#[test]
fn test_specific_id_display_map() {
    let m = SpecificActionID::get_display_name_mapping();
    assert_eq!(*m.get("info").unwrap(), "Info");
}

#[test]
fn test_print_macros() {
    let ctx = GeneralExecutionContext::test();
    let line = decktricks::logging::log_line(
        LogType::Info,
        ctx.current_log_level,
        &ctx.log_channel,
        "src/logging.rs",
        1,
        1,
        "lol",
    );
    if let Some(l) = line {
        assert!(l.contains("lol"));
    }
}

#[test]
fn test_special_logchannels() {
    assert_eq!(LogChannel::General.to_key(), "general".to_string());
    assert_eq!(LogChannel::TrickID("harblgarbl".to_string()).to_key(), "harblgarbl".to_string());
    assert_eq!(LogChannel::IgnoreCompletelyAlways.to_key(), "ignore".to_string());

    // Verify that we're respecting any special-case names
    assert_ne!(LogChannel::TrickID("general".to_string()).to_key(), "general".to_string());
    assert_ne!(LogChannel::TrickID("ignore".to_string()).to_key(), "ignore".to_string());
    assert_ne!(LogChannel::TrickID("all".to_string()).to_key(), "all".to_string());
}

#[test]
fn integration_check_categories() {
    let config = sample_config();
    for trick in config.tricks {
        assert!(!trick.categories.is_empty());
        for category in trick.categories {
            assert!(config.known_categories.contains(&category));
        }
    }
}

#[test]
fn integration_check_default_config() {
    let loader = TricksLoader::from_config(sample_config());
    let prov = &loader.get_trick("lutris").unwrap().provider_config;
    match prov {
        ProviderConfig::Flatpak(flatpak) => assert_eq!("net.lutris.Lutris", flatpak.id),
        other => panic!("Unexpected data received for lutris config: {other:#?}"),
    }
}

#[test]
fn test_serious_error() {
    let se = SeriousError::new("test-error", "in the test", "i am a very serious lowercase error message");
    assert!(se.link().contains("i%20am"));
}

#[test]
fn top_level_install() {
    let runner = always_succeeds();
    let command = DecktricksCommand::new(Action::Install { id: "lutris".into() });
    let executor = get_executor(&runner);
    let (_ctx, results) = executor.execute(&command, None, &runner);
    assert_eq!(results.len(), 1);
    match finished(&results[0]) {
        Ok(action_success) => assert_eq!(
            "\"net.lutris.Lutris\" installed successfully.",
            action_success.get_message().unwrap_or_default()
        ),
        Err(e) => panic!("failed installation in test: {e:?}"),
    }
}

#[test]
fn top_level_incorrect_run() {
    let runner = always_succeeds();
    let command = DecktricksCommand::new(Action::Run { id: "FAKE_PACKAGE".into() });
    let executor = get_executor(&runner);
    let (_ctx, results) = executor.execute(&command, None, &runner);
    assert_eq!(results.len(), 1);
    match finished(&results[0]) {
        Ok(action_success) => panic!("unexpected successful installation for nonexistent package: {action_success:?}"),
        Err(KnownError::UnknownTrickID(pkg)) => assert_eq!("FAKE_PACKAGE", pkg),
        Err(e) => panic!("unexpected failure in test: {e:?}"),
    }
}

#[test]
fn top_level_general_list() {
    let runner = always_succeeds();
    let command = DecktricksCommand::new(Action::List { installed: false });
    let executor = get_executor(&runner);
    let (_ctx, results) = executor.execute(&command, None, &runner);
    assert_eq!(results.len(), 1);
    let res = finished(&results[0]);
    assert!(res.as_ref().unwrap().get_message().unwrap().lines().any(|l| l == "protonup-qt"));
}

#[test]
fn top_level_general_list_installed() {
    let runner = FnRunner::new(|c: &SysCommand| {
        let args: Vec<&str> = c.args.iter().map(|a| a.as_str()).collect();
        if c.cmd == "flatpak" && args == vec!["list", "--app", "--columns=application"] {
            Ok(SysCommandResult::fake_for_test("flatpak", strs(&args), 0, "net.lutris.Lutris", "dooker"))
        } else {
            Ok(SysCommandResult::fake_success())
        }
    });
    let command = DecktricksCommand::new(Action::List { installed: true });
    let executor = get_executor(&runner);
    let (_ctx, results) = executor.execute(&command, None, &runner);
    assert_eq!(results.len(), 1);
    let res = finished(&results[0]);
    let message = res.as_ref().unwrap().get_message().unwrap();
    assert!(message.lines().any(|l| l == "lutris"));
    assert!(!message.lines().any(|l| l == "protonup-qt"));
}

#[test]
fn test_version() {
    let runner = always_succeeds();
    let command = DecktricksCommand::new(Action::Version { verbose: false });
    let executor = get_executor(&runner);
    let (_ctx, results) = executor.execute(&command, None, &runner);
    assert!(matches!(results[0], ActionOutcome::ShowVersion { verbose: false }));
}

fn get_system_context() -> FlatpakSystemContext {
    FlatpakSystemContext {
        installed: strs(&["installed_package", "installed_package2"]),
        running: strs(&["running_package", "running_package2"]),
    }
}

fn fpak_prov(id: &str) -> FlatpakProvider {
    let ctx = SpecificExecutionContext::test(Trick::test());
    FlatpakProvider::new(&Flatpak { id: id.to_string() }, get_system_context(), ctx)
}

#[test]
fn test_new_flatpak_provider() {
    let provider = fpak_prov("test_pkg");
    assert_eq!(provider.id, "test_pkg");
}

#[test]
fn test_is_pkg_installed_true() {
    assert!(fpak_prov("installed_package").checks().installed);
    assert!(!fpak_prov("package_not_installed").checks().installed);
}

#[test]
fn test_installable() {
    assert!(fpak_prov("RANDOM_NAME_FROM_NOWHERE").checks().installable);
}

#[test]
fn test_updateable() {
    assert!(fpak_prov("installed_package").checks().updateable);
    assert!(!fpak_prov("test_pkg_not_installed").checks().updateable);
}

#[test]
fn test_is_pkg_running() {
    assert!(fpak_prov("running_package").checks().running);
    assert!(!fpak_prov("not_running_package").checks().running);
}

#[test]
fn test_can_install_pkg() {
    let runner = FnRunner::new(|c: &SysCommand| {
        Ok(SysCommandResult::fake_for_test(c.cmd.as_str(), c.args.clone(), 0, "", ""))
    });
    let provider = fpak_prov("RANDOM_PACKAGE");
    let plan = provider.plan(SpecificActionID::Install);
    let step = perform(plan, &LogChannel::General, LogType::Warn, &runner);
    match step {
        ActionStep::Finished(Ok(action_success)) => {
            assert_eq!(action_success.get_message_or_blank(), "\"RANDOM_PACKAGE\" installed successfully.")
        },
        other => panic!("package installation in test failed: {other:?}"),
    }
    let seen = runner.seen.borrow();
    assert_eq!(seen.len(), 1);
    assert_eq!(seen[0].cmd, "flatpak");
    assert_eq!(seen[0].args, strs(&["install", "--user", "-y", "RANDOM_PACKAGE"]));
    assert_eq!(
        seen[0].desired_env_vars,
        vec![(INSTALLING_ENV_STRING.to_string(), "trick_for_test".to_string())]
    );
}

#[test]
fn test_failed_to_install_pkg() {
    let runner = FnRunner::new(|c: &SysCommand| {
        Ok(SysCommandResult::fake_for_test(c.cmd.as_str(), c.args.clone(), 1, "FAILED LOL", ""))
    });
    let provider = fpak_prov("RANDOM_PACKAGE");
    let plan = provider.plan(SpecificActionID::Install);
    match perform(plan, &LogChannel::General, LogType::Warn, &runner) {
        ActionStep::Finished(Err(KnownError::SystemCommandFailed(output))) => {
            assert_eq!(output.raw_output().exit_code, Some(1));
            assert_eq!(output.raw_output().stdout, b"FAILED LOL".to_vec());
            assert_eq!(output.sys_command().args, strs(&["install", "--user", "-y", "RANDOM_PACKAGE"]));
        },
        other => panic!("package installation in test failed in unexpected way: {other:?}"),
    }
}

fn test_flatpak_remotes_inner(mocked_stdout: &'static str) -> DeckResult<bool> {
    let runner = FnRunner::new(move |c: &SysCommand| {
        let args: Vec<&str> = c.args.iter().map(|a| a.as_str()).collect();
        if c.cmd == "flatpak" && args == vec!["remotes", "--columns=name,options"] {
            Ok(SysCommandResult::fake_for_test("flatpak", strs(&args), 0, mocked_stdout, ""))
        } else {
            Ok(SysCommandResult::fake_success())
        }
    });
    get_has_user_flathub(&GeneralExecutionContext::test(), &runner)
}

#[test]
fn test_flatpak_remotes() {
    for (mocked_stdout, should_pass) in [
        ("flathub system\nflathub user", true),
        ("flathub user", true),
        ("flathub system\nflathub system", false),
        ("flthub system\nflathub usr", false),
        ("", false),
    ] {
        assert_eq!(test_flatpak_remotes_inner(mocked_stdout).unwrap(), should_pass);
    }
}

fn all_checks(value: bool) -> Checks {
    Checks {
        installable: value,
        uninstallable: value,
        installed: value,
        runnable: value,
        running: value,
        killable: value,
        updateable: value,
        addable_to_steam: value,
    }
}

#[test]
fn test_can_run() {
    let c = Checks { runnable: true, ..all_checks(false) };
    assert!(c.can(&SpecificAction::Run { id: "test-id".into() }));
}

#[test]
fn test_can_install() {
    let c = Checks { installable: true, ..all_checks(false) };
    assert!(c.can(&SpecificAction::Install { id: "test-id".into() }));
}

#[test]
fn test_can_kill() {
    let c = Checks { killable: true, ..all_checks(false) };
    assert!(c.can(&SpecificAction::Kill { id: "test-id".into() }));
}

#[test]
fn test_can_uninstall() {
    let c = Checks { uninstallable: true, ..all_checks(false) };
    assert!(c.can(&SpecificAction::Uninstall { id: "test-id".into() }));
}

#[test]
fn test_can_update() {
    let c = Checks { updateable: true, ..all_checks(false) };
    assert!(c.can(&SpecificAction::Update { id: "test-id".into() }));
}

#[test]
fn test_can_add_to_steam() {
    let c = Checks { addable_to_steam: true, ..all_checks(false) };
    assert!(c.can(&SpecificAction::AddToSteam { id: "test-id".into() }));
}

#[test]
fn test_can_info() {
    let c = all_checks(false);
    assert!(c.can(&SpecificAction::Info { id: "test-id".into() }));
}

#[test]
fn basic_expectations() {
    let ctx = SpecificExecutionContext::test(Trick::test());
    let sc = SimpleCommandProvider::new("echo-lol".into(), "echo".into(), strs(&["lol"]), ctx, Vec::new());
    let c = sc.checks();
    assert!(!c.installable);
    assert!(c.installed);
    assert!(c.runnable);
    assert!(!c.running);
    assert!(c.addable_to_steam);
}

#[test]
fn expected_failures() {
    let runner = FnRunner::new(|_: &SysCommand| {
        Ok(SysCommandResult::fake_for_test("echo", strs(&["lol"]), 0, "lol", ""))
    });
    let ctx = SpecificExecutionContext::test(Trick::test());
    let sc = SimpleCommandProvider::new("echo-lol".into(), "echo".into(), strs(&["lol"]), ctx, Vec::new());
    let step = |id: SpecificActionID| perform(sc.plan(id), &LogChannel::General, LogType::Warn, &runner);

    assert!(matches!(step(SpecificActionID::Run), ActionStep::Finished(Ok(ActionSuccess { .. }))));
    assert!(matches!(
        step(SpecificActionID::Uninstall),
        ActionStep::Finished(Err(KnownError::ActionNotPossible(_)))
    ));
    assert!(matches!(
        step(SpecificActionID::Install),
        ActionStep::Finished(Err(KnownError::ActionNotPossible(_)))
    ));
    assert!(matches!(step(SpecificActionID::Kill), ActionStep::Finished(Ok(_))));
    assert!(matches!(
        step(SpecificActionID::Update),
        ActionStep::Finished(Err(KnownError::ActionNotPossible(_)))
    ));
    assert!(matches!(sc.plan(SpecificActionID::AddToSteam), ActionPlan::AddToSteam));
}

#[test]
fn gather_procs() {
    let desired_pid = "432151";
    let pseww_output = format!(
        "{desired_pid} pts/1    Sl+    0:01 systemsettings BOOBOO=1234 HARBLGARBL=jklsja jdskaf {PID_ENV_STRING}=systemsettings LOL=jfkda"
    );
    let runner = FnRunner::new(move |_: &SysCommand| Ok(SysCommandResult::success_output(&pseww_output)));
    let ctx = GeneralExecutionContext::test();
    let proc_ctx = RunningProgramSystemContext::gather_with(&ctx, &runner, false).unwrap();
    assert_eq!(desired_pid, proc_ctx.get("systemsettings").unwrap().first().unwrap());
}

/// A runner that answers `test -x` with the given exit code and `ps`/`pgrep` with
/// the process IDs listed for the searched name.
fn system_answers(test_code: i32, pids: &'static [(&'static str, &'static str)]) -> FnRunner<impl Fn(&SysCommand) -> DeckResult<SysCommandResult>> {
    FnRunner::new(move |c: &SysCommand| {
        if c.cmd == "/bin/test" {
            return Ok(SysCommandResult::fake_for_test("/bin/test", c.args.clone(), test_code, "", ""));
        }
        // `ps -C name ...` and `pgrep -f pattern` both name what they search second.
        let searched = c.args[1].clone();
        let found = pids.iter().find(|(name, _)| *name == searched).map(|(_, p)| *p).unwrap_or("");
        let code = if found.is_empty() { 1 } else { 0 };
        Ok(SysCommandResult::fake_for_test(&c.cmd, c.args.clone(), code, found, ""))
    })
}

#[test]
fn exists_and_executable_asks_test_x() {
    let ctx = GeneralExecutionContext::test();
    let yes = system_answers(0, &[]);
    assert!(exists_and_executable(&ctx, &yes, "/usr/bin/thing"));
    let seen = yes.seen.borrow();
    assert_eq!(seen.len(), 1);
    assert_eq!(seen[0].cmd, "/bin/test");
    assert_eq!(seen[0].args, strs(&["-x", "/usr/bin/thing"]));
    let no = system_answers(1, &[]);
    assert!(!exists_and_executable(&ctx, &no, "/usr/bin/thing"));
    let broken = FnRunner::new(|_: &SysCommand| Err(KnownError::ActionNotImplementedYet("no runner")));
    assert!(!exists_and_executable(&ctx, &broken, "/usr/bin/thing"));
}

#[test]
fn emudeck_context_from_the_system() {
    let ctx = GeneralExecutionContext::test();
    let runner = system_answers(0, &[("EmuDeck.AppImage", "12\n"), ("emudeck", "34 56\n")]);
    let c = EmuDeckSystemContext::gather_with(&ctx, &runner, "/home/deck");
    assert!(c.is_installed);
    assert_eq!(c.running_pids, strs(&["12", "34", "56"]));
    assert_eq!(c.binary_path, "/home/deck/Applications/EmuDeck.AppImage");
    let seen = runner.seen.borrow();
    assert_eq!(seen[0].args, strs(&["-x", "/home/deck/Applications/EmuDeck.AppImage"]));
    let absent = system_answers(1, &[]);
    let c = EmuDeckSystemContext::gather_with(&ctx, &absent, "/home/deck");
    assert!(!c.is_installed);
    assert!(c.running_pids.is_empty());
}

#[test]
fn geforce_context_from_the_system() {
    let ctx = GeneralExecutionContext::test();
    let runner = system_answers(
        0,
        &[("bash /home/deck/.local/share/applications/NVIDIA GeForce NOW", "77\n")],
    );
    let c = GeForceSystemContext::gather_with(&ctx, &runner, "/home/deck");
    assert!(c.is_installed);
    assert_eq!(c.running_pids, strs(&["77"]));
    assert_eq!(c.local_executable, "/home/deck/.local/share/applications/NVIDIA GeForce NOW");
    let seen = runner.seen.borrow();
    assert_eq!(seen[1].cmd, "pgrep");
    assert_eq!(seen[1].args, strs(&["-f", "bash /home/deck/.local/share/applications/NVIDIA GeForce NOW"]));
}

#[test]
fn display_name_mapping_in_full() {
    let m = SpecificActionID::get_display_name_mapping();
    assert_eq!(m.len(), 7);
    for (id, name) in [
        ("install", "Install"),
        ("run", "Run"),
        ("add-to-steam", "Add To Steam"),
        ("update", "Update"),
        ("uninstall", "Uninstall"),
        ("kill", "Kill"),
        ("info", "Info"),
    ] {
        assert_eq!(*m.get(id).unwrap(), name);
    }
}

#[test]
fn killing_stops_at_a_command_that_cannot_run() {
    let runner = FnRunner::new(|c: &SysCommand| {
        if c.args == strs(&["2"]) {
            Err(KnownError::ActionNotImplementedYet("cannot run kill"))
        } else {
            Ok(SysCommandResult::fake_for_test("kill", c.args.clone(), 0, "", ""))
        }
    });
    let r = decktricks::utils::kill_pids(&LogChannel::General, LogType::Warn, &runner, &strs(&["1", "2", "3"]));
    assert!(matches!(r, Err(KnownError::ActionNotImplementedYet("cannot run kill"))));
    let seen = runner.seen.borrow();
    assert_eq!(seen.len(), 2);
    assert_eq!(seen[0].cmd, "kill");
    assert_eq!(seen[0].args, strs(&["1"]));
    assert_eq!(seen[1].args, strs(&["2"]));
}

#[test]
fn kill_report_from_results() {
    let pids = strs(&["10", "20", "30"]);
    let results = vec![
        Ok(SysCommandResult::fake_for_test("kill", strs(&["10"]), 1, "", "")),
        Ok(SysCommandResult::fake_for_test("kill", strs(&["20"]), 0, "", "")),
        Ok(SysCommandResult::fake_for_test("kill", strs(&["30"]), 0, "", "")),
    ];
    let r = decktricks::utils::kill_report(&pids, results).unwrap();
    assert_eq!(r.get_message().unwrap(), "Successfully killed pid '20'\nSuccessfully killed pid '30'");
    let results = vec![
        Ok(SysCommandResult::fake_for_test("kill", strs(&["10"]), 0, "", "")),
        Err(KnownError::ActionNotImplementedYet("first")),
    ];
    assert!(matches!(
        decktricks::utils::kill_report(&pids, results),
        Err(KnownError::ActionNotImplementedYet("first"))
    ));
    assert_eq!(decktricks::utils::kill_report(&pids, Vec::new()).unwrap().get_message().unwrap(), "");
}

fn systemd_trick(id: &str, unit_id: &str) -> Trick {
    Trick {
        id: id.to_string(),
        provider_config: ProviderConfig::SystemdRun(SystemdRun {
            unit_id: unit_id.to_string(),
            command: "echo".to_string(),
            args: None,
            execution_dir: None,
            is_system: None,
        }),
        display_name: id.to_string(),
        description: String::new(),
        always_present_on_steamdeck: None,
        icon: None,
        categories: Vec::new(),
    }
}

#[test]
fn running_units_from_answers() {
    let ids = strs(&["a.service", "b.service", "c.service"]);
    let results = vec![
        Ok(SysCommandResult::fake_for_test("/usr/bin/systemctl", strs(&["is-running", "a.service"]), 3, "", "")),
        Ok(SysCommandResult::fake_for_test("/usr/bin/systemctl", strs(&["is-running", "b.service"]), 0, "", "")),
        Err(KnownError::ActionNotImplementedYet("cannot run systemctl")),
    ];
    assert_eq!(SystemdRunUnitsContext::running_units(&ids, &results), strs(&["b.service"]));

    let tricks = vec![
        systemd_trick("one", "one.service"),
        flatpak_trick("flat", "org.example.Flat", &[]),
        systemd_trick("two", "two.service"),
    ];
    let runner = FnRunner::new(|c: &SysCommand| {
        let code = if c.args == strs(&["is-running", "two.service"]) { 0 } else { 3 };
        Ok(SysCommandResult::fake_for_test(&c.cmd, c.args.clone(), code, "", ""))
    });
    let ctx = GeneralExecutionContext::test();
    let units = SystemdRunUnitsContext::gather_with(&ctx, &runner, &tricks);
    assert_eq!(units.running_unit_ids, strs(&["two.service"]));
    let seen = runner.seen.borrow();
    assert_eq!(seen.len(), 2);
    assert_eq!(seen[0].cmd, "/usr/bin/systemctl");
    assert_eq!(seen[0].args, strs(&["is-running", "one.service"]));
}
