use init_service_action::action::{
    Action, ActionError, ExecuteStart, FileWriteError, RevertStart, StatefulAction,
};
use init_service_action::configure::ConfigureEnterpriseEditionInitService;
use init_service_action::descriptor::generate_plist;
use init_service_action::init::InitSystem;

const DEST: &str = "/Library/LaunchDaemons/systems.determinate.nix-daemon.plist";

fn plan(init: InitSystem, start_daemon: bool) -> StatefulAction<ConfigureEnterpriseEditionInitService> {
    ConfigureEnterpriseEditionInitService::plan(init, start_daemon).expect("planning is owed to succeed")
}

/// Drive a full, successful execute pass and return the descriptor bytes it
/// asked to have written.
fn execute_ok(action: &mut StatefulAction<ConfigureEnterpriseEditionInitService>) -> Vec<u8> {
    let write = match action.try_execute_start() {
        ExecuteStart::WriteDescriptor(w) => w,
        ExecuteStart::AlreadyComplete => panic!("fresh action reported complete"),
    };
    assert_eq!(write.path, DEST);
    match action.try_execute_after_write(Ok(())).expect("no failure reported") {
        Some(_cmd) => action
            .try_execute_after_start(Ok(()))
            .expect("no failure reported"),
        None => {}
    }
    write.contents
}

#[test]
fn plan_is_pure_identical_results() {
    for init in [InitSystem::Launchd, InitSystem::Systemd, InitSystem::Unmanaged] {
        for start_daemon in [true, false] {
            let first = plan(init, start_daemon);
            let second = plan(init, start_daemon);
            assert_eq!(first, second);
        }
    }
}

#[test]
fn plan_resolves_launchd() {
    let planned = plan(InitSystem::Launchd, true);
    assert!(!planned.completed);
    assert!(planned.action.start_daemon);
    let child = &planned.action.configure_init_service;
    assert!(!child.completed);
    assert_eq!(child.action.init, InitSystem::Launchd);
    assert!(child.action.start_daemon);
    assert_eq!(child.action.service_src, None);
    assert_eq!(child.action.service_dest.as_deref(), Some(DEST));
    assert_eq!(
        child.action.service_name.as_deref(),
        Some("systems.determinate.nix-daemon")
    );
}

#[test]
fn plan_resolves_systemd() {
    let planned = plan(InitSystem::Systemd, false);
    let child = &planned.action.configure_init_service;
    // The child is always planned under launchd, with the resolved values.
    assert_eq!(child.action.init, InitSystem::Launchd);
    assert!(!child.action.start_daemon);
    assert_eq!(
        child.action.service_src.as_deref(),
        Some("/nix/determinate/nix-daemon.service")
    );
    assert_eq!(
        child.action.service_dest.as_deref(),
        Some("/etc/systemd/system/nix-daemon.service")
    );
    assert_eq!(child.action.service_name, None);
}

#[test]
fn plan_resolves_unmanaged() {
    let planned = plan(InitSystem::Unmanaged, true);
    let child = &planned.action.configure_init_service;
    assert_eq!(child.action.service_src, None);
    assert_eq!(child.action.service_dest, None);
    assert_eq!(child.action.service_name, None);
}

#[test]
fn generate_plist_fixed_record() {
    let record = generate_plist();
    assert_eq!(record.label, "systems.determinate.nix-daemon");
    assert_eq!(record.program, "/usr/local/bin/determinate-nix-ee");
    assert!(record.keep_alive);
    assert!(record.run_at_load);
    assert_eq!(record.standard_error_path, "/var/log/determinate-nix-daemon.log");
    assert_eq!(record.standard_out_path, "/var/log/determinate-nix-daemon.log");
    assert_eq!(record.soft_resource_limits.number_of_files, 1048576);
}

#[test]
fn scenario_start_flag_set_creates_descriptor_then_bootstraps() {
    let mut action = plan(InitSystem::Launchd, true);
    let write = match action.try_execute_start() {
        ExecuteStart::WriteDescriptor(w) => w,
        ExecuteStart::AlreadyComplete => panic!("fresh action reported complete"),
    };
    assert_eq!(write.path, DEST);

    // The bytes are the init system's native format: parse them back with
    // the same property-list library and check every generated field.
    let value = plist::Value::from_reader_xml(&write.contents[..]).expect("well-formed XML plist");
    let dict = value.as_dictionary().expect("a dictionary at top level");
    assert_eq!(
        dict.get("Label").and_then(|v| v.as_string()),
        Some("systems.determinate.nix-daemon")
    );
    assert_eq!(
        dict.get("Program").and_then(|v| v.as_string()),
        Some("/usr/local/bin/determinate-nix-ee")
    );
    assert_eq!(dict.get("KeepAlive").and_then(|v| v.as_boolean()), Some(true));
    assert_eq!(dict.get("RunAtLoad").and_then(|v| v.as_boolean()), Some(true));
    assert_eq!(
        dict.get("StandardErrorPath").and_then(|v| v.as_string()),
        Some("/var/log/determinate-nix-daemon.log")
    );
    assert_eq!(
        dict.get("StandardOutPath").and_then(|v| v.as_string()),
        Some("/var/log/determinate-nix-daemon.log")
    );
    let limits = dict
        .get("SoftResourceLimits")
        .and_then(|v| v.as_dictionary())
        .expect("a nested limits dictionary");
    assert_eq!(
        limits.get("NumberOfFiles").and_then(|v| v.as_unsigned_integer()),
        Some(1048576)
    );

    // After the write succeeds, the child's bootstrap step is issued.
    let cmd = action
        .try_execute_after_write(Ok(()))
        .unwrap()
        .expect("a start command is due");
    assert_eq!(cmd.program, "launchctl");
    assert_eq!(cmd.args, vec!["bootstrap".to_string(), "system".to_string(), DEST.to_string()]);

    action.try_execute_after_start(Ok(())).unwrap();
    assert!(action.completed);
    assert!(action.action.configure_init_service.completed);
}

#[test]
fn scenario_revert_issues_bootout_and_deletes_no_file() {
    let mut action = plan(InitSystem::Launchd, true);
    execute_ok(&mut action);

    let cmd = match action.try_revert_start() {
        RevertStart::Unregister(c) => c,
        RevertStart::AlreadyReverted => panic!("completed action reported reverted"),
    };
    assert_eq!(cmd.program, "launchctl");
    assert_eq!(
        cmd.args,
        vec!["bootout".to_string(), "system/systems.determinate.nix-daemon".to_string()]
    );

    // Success even though nothing was deleted and the daemon may never have
    // been started: the only effect was the unregister command above.
    action.try_revert_finish(Ok(())).unwrap();
    assert!(!action.completed);
}

#[test]
fn scenario_start_flag_clear_creates_descriptor_only() {
    let mut action = plan(InitSystem::Launchd, false);

    let descriptions = action.action.execute_description();
    assert_eq!(descriptions.len(), 1);
    assert_eq!(descriptions[0].explanation, vec![format!("Create `{DEST}`")]);

    match action.try_execute_start() {
        ExecuteStart::WriteDescriptor(w) => assert_eq!(w.path, DEST),
        ExecuteStart::AlreadyComplete => panic!("fresh action reported complete"),
    }
    // The child's start step is a no-op: no command is handed out.
    assert_eq!(action.try_execute_after_write(Ok(())).unwrap(), None);
    assert!(action.completed);
    assert!(action.action.configure_init_service.completed);
}

#[test]
fn try_execute_twice_is_a_noop_second_time() {
    let mut action = plan(InitSystem::Launchd, true);
    execute_ok(&mut action);
    let before = action.clone();
    // The second pass reports success at once and asks for no effect.
    match action.try_execute_start() {
        ExecuteStart::AlreadyComplete => {}
        ExecuteStart::WriteDescriptor(_) => panic!("completed action asked to write again"),
    }
    assert_eq!(action, before);
}

#[test]
fn try_revert_on_uncompleted_action_is_skipped() {
    let action = plan(InitSystem::Launchd, true);
    match action.try_revert_start() {
        RevertStart::AlreadyReverted => {}
        RevertStart::Unregister(_) => panic!("uncompleted action asked to unregister"),
    }
}

#[test]
fn execute_revert_execute_reproduces_descriptor() {
    let mut action = plan(InitSystem::Launchd, true);
    let first = execute_ok(&mut action);
    action.try_revert_finish(Ok(())).unwrap();
    assert!(!action.completed);
    let second = execute_ok(&mut action);
    assert_eq!(first, second);
}

#[test]
fn failed_write_keeps_marker_false_and_child_untouched() {
    let mut action = plan(InitSystem::Launchd, true);
    let before = action.clone();
    let failure = FileWriteError::Open { cause: "permission denied".to_string() };
    let err = action.try_execute_after_write(Err(failure)).unwrap_err();
    assert_eq!(
        err,
        ActionError::Open { path: DEST.to_string(), cause: "permission denied".to_string() }
    );
    // The child was never invoked and no marker moved.
    assert_eq!(action, before);
    assert!(!action.completed);
    assert!(!action.action.configure_init_service.completed);

    let failure = FileWriteError::Write { cause: "disk full".to_string() };
    let err = action.try_execute_after_write(Err(failure)).unwrap_err();
    assert_eq!(
        err,
        ActionError::Write { path: DEST.to_string(), cause: "disk full".to_string() }
    );
    assert_eq!(action, before);
}

#[test]
fn failed_bootstrap_surfaces_command_and_output() {
    let mut action = plan(InitSystem::Launchd, true);
    let before = action.clone();
    let cmd = action
        .try_execute_after_write(Ok(()))
        .unwrap()
        .expect("a start command is due");
    let err = action
        .try_execute_after_start(Err("Bootstrap failed: 5: Input/output error".to_string()))
        .unwrap_err();
    assert_eq!(
        err,
        ActionError::Command {
            program: cmd.program,
            args: cmd.args,
            output: "Bootstrap failed: 5: Input/output error".to_string(),
        }
    );
    assert_eq!(action, before);
}

#[test]
fn failed_bootout_keeps_marker_true() {
    let mut action = plan(InitSystem::Launchd, true);
    execute_ok(&mut action);
    let before = action.clone();
    let err = action
        .try_revert_finish(Err("Boot-out failed: 36: Operation now in progress".to_string()))
        .unwrap_err();
    match err {
        ActionError::Command { program, args, output } => {
            assert_eq!(program, "launchctl");
            assert_eq!(
                args,
                vec!["bootout".to_string(), "system/systems.determinate.nix-daemon".to_string()]
            );
            assert_eq!(output, "Boot-out failed: 36: Operation now in progress");
        }
        other => panic!("expected a command error, got {other:?}"),
    }
    assert_eq!(action, before);
    assert!(action.completed);
}

#[test]
fn descriptions_enumerate_the_side_effects() {
    let with_start = plan(InitSystem::Launchd, true).action;
    assert_eq!(
        with_start.tracing_synopsis(),
        "Configure the Determinate Nix Enterprise Edition daemon related settings with launchctl"
    );
    assert_eq!(
        ConfigureEnterpriseEditionInitService::action_tag().name,
        "configure_enterprise_edition_init_service"
    );

    let descriptions = with_start.execute_description();
    assert_eq!(descriptions.len(), 1);
    assert_eq!(descriptions[0].description, with_start.tracing_synopsis());
    assert_eq!(
        descriptions[0].explanation,
        vec![format!("Create `{DEST}`"), format!("Run `launchctl bootstrap {DEST}`")]
    );

    let reverts = with_start.revert_description();
    assert_eq!(reverts.len(), 1);
    assert_eq!(
        reverts[0].description,
        "Unconfigure Nix daemon related settings with launchctl"
    );
    assert_eq!(reverts[0].explanation, vec![format!("Run `launchctl bootout {DEST}`")]);
}
