use homeassistant::error::ToolError;
use homeassistant::lifecycle::{backup_plan, install_plan, restore_plan, update_plan};
use homeassistant::lifecycle::{Channel, HaBackupArgs, HaInstallArgs, HaRestoreArgs, HaUpdateArgs, Runtime};
use homeassistant::plan::Probe;
use homeassistant::session::{Directive, Exit, Observation, Session};

fn ok_exit(stdout: &str) -> Observation {
    Observation::Exited(Exit {
        success: true,
        status: "exit status: 0".to_string(),
        stdout: stdout.to_string(),
        stderr: String::new(),
    })
}

fn failed_message(d: &Directive) -> String {
    match d {
        Directive::Failed(e) => e.message(),
        other => panic!("expected a failure, found {other:?}"),
    }
}

#[test]
fn backup_rejects_missing_config_dir() {
    let args = HaBackupArgs {
        config_path: "/nonexistent/homeassistant/config/path".to_string(),
        destination: "/tmp/homeassistant-test-dest".to_string(),
    };
    let job = backup_plan(&args, "/", "20240101-000000");
    let mut session = Session::new(job.actions);
    match session.directive() {
        Directive::Probe(Probe::IsDir(p)) => assert_eq!(p, "/nonexistent/homeassistant/config/path"),
        other => panic!("expected a directory probe, found {other:?}"),
    }
    let d = session.advance(Observation::Probed(false));
    let err = failed_message(&d);
    assert!(err.contains("not a directory"), "{err}");
}

#[test]
fn restore_rejects_missing_tarball() {
    let args = HaRestoreArgs {
        from: "/nonexistent/backup.tar.gz".to_string(),
        config_path: "/tmp/homeassistant-test-restore".to_string(),
    };
    let mut session = Session::new(restore_plan(&args));
    match session.directive() {
        Directive::Probe(Probe::IsFile(p)) => assert_eq!(p, "/nonexistent/backup.tar.gz"),
        other => panic!("expected a file probe, found {other:?}"),
    }
    let d = session.advance(Observation::Probed(false));
    let err = failed_message(&d);
    assert!(err.contains("not found"), "{err}");
}

#[test]
fn backup_session_runs_every_step_in_order() {
    let args = HaBackupArgs { config_path: "/cfg".to_string(), destination: "/bk".to_string() };
    let job = backup_plan(&args, "/", "x");
    let mut session = Session::new(job.actions);
    assert!(matches!(session.directive(), Directive::Probe(Probe::IsDir(_))));
    match session.advance(Observation::Probed(true)) {
        Directive::Run(c) => {
            assert_eq!(c.program, "mkdir");
            assert_eq!(c.args, vec!["-p".to_string(), "/bk".to_string()]);
        }
        other => panic!("expected mkdir, found {other:?}"),
    }
    match session.advance(ok_exit("")) {
        Directive::Run(c) => {
            assert_eq!(c.program, "tar");
            assert_eq!(c.args[1], "/bk/homeassistant-config-x.tar.gz");
        }
        other => panic!("expected tar, found {other:?}"),
    }
    match session.advance(ok_exit("archived")) {
        Directive::Finished { log } => assert_eq!(log, "archived"),
        other => panic!("expected the end, found {other:?}"),
    }
}

#[test]
fn update_session_reports_last_command_output() {
    let args = HaUpdateArgs {
        runtime: Runtime::Docker,
        channel: Channel::Stable,
        vmid: None,
        compose_file: "compose.yml".to_string(),
    };
    let mut session = Session::new(update_plan(&args).unwrap());
    assert!(matches!(session.directive(), Directive::Run(_)));
    assert!(matches!(session.advance(ok_exit("pulled")), Directive::Run(_)));
    match session.advance(ok_exit("recreated")) {
        Directive::Finished { log } => assert_eq!(log, "recreated"),
        other => panic!("expected the end, found {other:?}"),
    }
}

#[test]
fn failed_command_stops_the_session_with_trimmed_stderr() {
    let args = HaUpdateArgs {
        runtime: Runtime::Docker,
        channel: Channel::Stable,
        vmid: None,
        compose_file: "compose.yml".to_string(),
    };
    let mut session = Session::new(update_plan(&args).unwrap());
    let d = session.advance(Observation::Exited(Exit {
        success: false,
        status: "exit status: 1".to_string(),
        stdout: String::new(),
        stderr: "\n  Error response from daemon: manifest unknown \t\n".to_string(),
    }));
    assert_eq!(
        failed_message(&d),
        "command failed (exit status: 1): Error response from daemon: manifest unknown"
    );
    // The session stays failed and asks for nothing more.
    let d = session.advance(ok_exit("ignored"));
    assert_eq!(
        failed_message(&d),
        "command failed (exit status: 1): Error response from daemon: manifest unknown"
    );
    match session.directive() {
        Directive::Failed(ToolError::CommandFailed { status, stderr }) => {
            assert_eq!(status, "exit status: 1");
            assert_eq!(stderr, "Error response from daemon: manifest unknown");
        }
        other => panic!("expected a command failure, found {other:?}"),
    }
}

#[test]
fn spawn_failure_stops_the_session() {
    let args = HaInstallArgs {
        runtime: Runtime::Docker,
        vmid: None,
        config_path: "/c".to_string(),
        bootstrap_path: None,
    };
    let mut session = Session::new(install_plan(&args).unwrap());
    let d = session.advance(Observation::SpawnFailed("No such file or directory (os error 2)".to_string()));
    assert_eq!(failed_message(&d), "failed to spawn command");
    match d {
        Directive::Failed(e) => {
            assert_eq!(e.cause(), Some("No such file or directory (os error 2)".to_string()))
        }
        other => panic!("expected a failure, found {other:?}"),
    }
}

#[test]
fn unrelated_observation_leaves_session_waiting() {
    let args = HaRestoreArgs { from: "/a.tar.gz".to_string(), config_path: "/c".to_string() };
    let mut session = Session::new(restore_plan(&args));
    // An exit report while a probe is pending changes nothing.
    assert!(matches!(session.advance(ok_exit("x")), Directive::Probe(Probe::IsFile(_))));
    // A probe answer while a command is pending changes nothing either.
    assert!(matches!(session.advance(Observation::Probed(true)), Directive::Run(_)));
    assert!(matches!(session.advance(Observation::Probed(true)), Directive::Run(_)));
}

#[test]
fn finished_session_stays_finished() {
    let args = HaInstallArgs {
        runtime: Runtime::Docker,
        vmid: None,
        config_path: "/c".to_string(),
        bootstrap_path: None,
    };
    let mut session = Session::new(install_plan(&args).unwrap());
    assert!(matches!(session.advance(ok_exit("up")), Directive::Finished { .. }));
    match session.advance(Observation::SpawnFailed("late".to_string())) {
        Directive::Finished { log } => assert_eq!(log, "up"),
        other => panic!("expected the end, found {other:?}"),
    }
}

#[test]
fn empty_plan_finishes_at_once() {
    let mut session = Session::new(Vec::new());
    match session.directive() {
        Directive::Finished { log } => assert_eq!(log, ""),
        other => panic!("expected the end, found {other:?}"),
    }
    assert!(matches!(session.advance(Observation::Probed(false)), Directive::Finished { .. }));
}
