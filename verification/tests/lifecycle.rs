use homeassistant::error::ToolError;
use homeassistant::lifecycle::{
    backup_output, backup_plan, default_compose, default_config_path, install_output,
    install_plan, restore_output, restore_plan, update_output, update_plan, Channel,
    HaBackupArgs, HaInstallArgs, HaRestoreArgs, HaUpdateArgs, Runtime,
};
use homeassistant::plan::{Action, CommandSpec, Probe};

fn run_of(a: &Action) -> (String, Vec<String>) {
    match a {
        Action::Run(CommandSpec { program, args }) => (program.clone(), args.clone()),
        Action::Require { .. } => panic!("expected a command, found a requirement"),
    }
}

fn strs(v: &[&str]) -> Vec<String> {
    v.iter().map(|s| s.to_string()).collect()
}

#[test]
fn channel_maps_to_image_tag() {
    assert_eq!(Channel::Stable.image_tag(), "stable");
    assert_eq!(Channel::Beta.image_tag(), "beta");
    assert_eq!(Channel::Dev.image_tag(), "dev");
}

#[test]
fn channel_image_reference() {
    assert_eq!(Channel::Beta.image(), "ghcr.io/home-assistant/home-assistant:beta");
}

#[test]
fn defaults_match_the_documented_ones() {
    assert_eq!(Runtime::default(), Runtime::Docker);
    assert_eq!(Channel::default(), Channel::Stable);
    assert_eq!(default_config_path(), "/opt/homeassistant/config");
    assert_eq!(default_compose(), "compose.yml");
}

#[test]
fn docker_install_brings_up_default_compose_stack() {
    let args = HaInstallArgs {
        runtime: Runtime::Docker,
        vmid: None,
        config_path: default_config_path(),
        bootstrap_path: None,
    };
    let plan = install_plan(&args).unwrap();
    assert_eq!(plan.len(), 1);
    assert_eq!(
        run_of(&plan[0]),
        (
            "env".to_string(),
            strs(&[
                "HA_CONFIG=/opt/homeassistant/config",
                "docker",
                "compose",
                "-f",
                "compose.yml",
                "up",
                "-d"
            ])
        )
    );
}

#[test]
fn docker_install_hands_config_path_to_compose() {
    let args = HaInstallArgs {
        runtime: Runtime::Docker,
        vmid: None,
        config_path: "/srv/ha".to_string(),
        bootstrap_path: None,
    };
    let plan = install_plan(&args).unwrap();
    assert_eq!(run_of(&plan[0]).1[0], "HA_CONFIG=/srv/ha");
}

#[test]
fn docker_install_uses_given_bootstrap_path() {
    let args = HaInstallArgs {
        runtime: Runtime::Docker,
        vmid: Some(7),
        config_path: default_config_path(),
        bootstrap_path: Some("/srv/ha/compose.yml".to_string()),
    };
    let plan = install_plan(&args).unwrap();
    assert_eq!(
        run_of(&plan[0]),
        (
            "env".to_string(),
            strs(&[
                "HA_CONFIG=/opt/homeassistant/config",
                "docker",
                "compose",
                "-f",
                "/srv/ha/compose.yml",
                "up",
                "-d"
            ])
        )
    );
}

#[test]
fn lxc_install_runs_provision_script() {
    let args = HaInstallArgs {
        runtime: Runtime::Lxc,
        vmid: Some(105),
        config_path: "/data/ha".to_string(),
        bootstrap_path: None,
    };
    let plan = install_plan(&args).unwrap();
    assert_eq!(plan.len(), 1);
    assert_eq!(
        run_of(&plan[0]),
        ("bash".to_string(), strs(&["lxc/provision.sh", "105", "--config", "/data/ha"]))
    );
}

#[test]
fn lxc_install_renders_vmid_in_decimal() {
    for (vmid, text) in [(0u32, "0"), (9, "9"), (10, "10"), (4294967295, "4294967295")] {
        let args = HaInstallArgs {
            runtime: Runtime::Lxc,
            vmid: Some(vmid),
            config_path: "/c".to_string(),
            bootstrap_path: Some("p.sh".to_string()),
        };
        let plan = install_plan(&args).unwrap();
        assert_eq!(run_of(&plan[0]).1, strs(&["p.sh", text, "--config", "/c"]));
    }
}

#[test]
fn lxc_install_requires_vmid() {
    let args = HaInstallArgs {
        runtime: Runtime::Lxc,
        vmid: None,
        config_path: default_config_path(),
        bootstrap_path: None,
    };
    let err = install_plan(&args).unwrap_err();
    assert!(matches!(err, ToolError::MissingVmid));
    assert_eq!(err.message(), "`vmid` is required when runtime=lxc");
}

#[test]
fn install_output_reports_runtime_and_log() {
    let args = HaInstallArgs {
        runtime: Runtime::Lxc,
        vmid: Some(1),
        config_path: default_config_path(),
        bootstrap_path: None,
    };
    let out = install_output(&args, "created CT 1\n".to_string());
    assert!(out.provisioned);
    assert_eq!(out.runtime, Runtime::Lxc);
    assert_eq!(out.log, "created CT 1\n");
}

#[test]
fn docker_update_pulls_then_recreates() {
    let args = HaUpdateArgs {
        runtime: Runtime::Docker,
        channel: Channel::Dev,
        vmid: None,
        compose_file: default_compose(),
    };
    let plan = update_plan(&args).unwrap();
    assert_eq!(plan.len(), 2);
    assert_eq!(
        run_of(&plan[0]),
        ("docker".to_string(), strs(&["pull", "ghcr.io/home-assistant/home-assistant:dev"]))
    );
    assert_eq!(
        run_of(&plan[1]),
        (
            "env".to_string(),
            strs(&[
                "HA_IMAGE=ghcr.io/home-assistant/home-assistant:dev",
                "docker",
                "compose",
                "-f",
                "compose.yml",
                "up",
                "-d"
            ])
        )
    );
}

#[test]
fn lxc_update_runs_inside_the_container() {
    let args = HaUpdateArgs {
        runtime: Runtime::Lxc,
        channel: Channel::Stable,
        vmid: Some(200),
        compose_file: default_compose(),
    };
    let plan = update_plan(&args).unwrap();
    assert_eq!(plan.len(), 1);
    assert_eq!(
        run_of(&plan[0]),
        (
            "pct".to_string(),
            strs(&[
                "exec",
                "200",
                "--",
                "bash",
                "-c",
                "docker pull ghcr.io/home-assistant/home-assistant:stable && HA_IMAGE=ghcr.io/home-assistant/home-assistant:stable docker compose -f /opt/homeassistant/compose.yml up -d",
            ])
        )
    );
}

#[test]
fn lxc_update_requires_vmid() {
    let args = HaUpdateArgs {
        runtime: Runtime::Lxc,
        channel: Channel::Beta,
        vmid: None,
        compose_file: default_compose(),
    };
    assert!(matches!(update_plan(&args), Err(ToolError::MissingVmid)));
}

#[test]
fn update_output_reports_channel_tag() {
    let args = HaUpdateArgs {
        runtime: Runtime::Docker,
        channel: Channel::Beta,
        vmid: None,
        compose_file: default_compose(),
    };
    let out = update_output(&args, "recreated".to_string());
    assert!(out.updated);
    assert_eq!(out.image_tag, "beta");
    assert_eq!(out.log, "recreated");
}

#[test]
fn backup_plan_checks_creates_and_archives() {
    let args = HaBackupArgs {
        config_path: "/opt/homeassistant/config".to_string(),
        destination: "/tmp/backups".to_string(),
    };
    let job = backup_plan(&args, "/root", "20240102-030405");
    assert_eq!(job.stamp, "20240102-030405");
    assert_eq!(job.archive, "/tmp/backups/homeassistant-config-20240102-030405.tar.gz");
    assert_eq!(job.actions.len(), 3);
    match &job.actions[0] {
        Action::Require { probe: Probe::IsDir(p), unmet } => {
            assert_eq!(p, "/opt/homeassistant/config");
            assert_eq!(
                unmet.message(),
                "config path '/opt/homeassistant/config' is not a directory"
            );
        }
        other => panic!("unexpected first step {other:?}"),
    }
    assert_eq!(run_of(&job.actions[1]), ("mkdir".to_string(), strs(&["-p", "/tmp/backups"])));
    assert_eq!(
        run_of(&job.actions[2]),
        (
            "tar".to_string(),
            strs(&[
                "-czf",
                "/tmp/backups/homeassistant-config-20240102-030405.tar.gz",
                "--exclude=./deps",
                "--exclude=./tts",
                "--exclude=./home-assistant.log",
                "-C",
                "/opt/homeassistant/config",
                ".",
            ])
        )
    );
    assert_eq!(backup_output(&job).archive, job.archive);
}

#[test]
fn backup_archive_ignores_trailing_slashes_of_destination() {
    let with = HaBackupArgs { config_path: "/c".to_string(), destination: "/b///".to_string() };
    let without = HaBackupArgs { config_path: "/c".to_string(), destination: "/b".to_string() };
    let a = backup_plan(&with, "/w", "s").archive;
    assert_eq!(a, "/b/homeassistant-config-s.tar.gz");
    assert_eq!(a, backup_plan(&without, "/w", "s").archive);
    // mkdir still gets the destination as given
    assert_eq!(run_of(&backup_plan(&with, "/w", "s").actions[1]).1, strs(&["-p", "/b///"]));
}

#[test]
fn backup_config_stamps_with_the_clock() {
    let args = HaBackupArgs { config_path: "/c".to_string(), destination: "/d/".to_string() };
    let job = homeassistant::lifecycle::backup_config(&args, "/w").ok().expect("the clock reads");
    assert_eq!(job.stamp.len(), 15);
    assert_eq!(job.archive, format!("/d/homeassistant-config-{}.tar.gz", job.stamp));
}

#[test]
fn restore_plan_checks_creates_and_extracts() {
    let args = HaRestoreArgs {
        from: "/backups/ha.tar.gz".to_string(),
        config_path: "/opt/homeassistant/config".to_string(),
    };
    let plan = restore_plan(&args);
    assert_eq!(plan.len(), 3);
    match &plan[0] {
        Action::Require { probe: Probe::IsFile(p), unmet } => {
            assert_eq!(p, "/backups/ha.tar.gz");
            assert_eq!(unmet.message(), "backup tarball '/backups/ha.tar.gz' not found");
        }
        other => panic!("unexpected first step {other:?}"),
    }
    assert_eq!(
        run_of(&plan[1]),
        ("mkdir".to_string(), strs(&["-p", "/opt/homeassistant/config"]))
    );
    assert_eq!(
        run_of(&plan[2]),
        (
            "tar".to_string(),
            strs(&["-xzf", "/backups/ha.tar.gz", "-C", "/opt/homeassistant/config"])
        )
    );
    let out = restore_output(args);
    assert!(out.restored);
    assert_eq!(out.config_path, "/opt/homeassistant/config");
}

#[test]
fn restore_reads_the_archive_backup_wrote() {
    let backup = HaBackupArgs { config_path: "/cfg".to_string(), destination: "/bk/".to_string() };
    let job = backup_plan(&backup, "/w", "20250101-000000");
    let restore = HaRestoreArgs { from: job.archive.clone(), config_path: "/restored".to_string() };
    let plan = restore_plan(&restore);
    assert_eq!(run_of(&job.actions[2]).1[1], run_of(&plan[2]).1[1]);
}

#[test]
fn relative_destination_resolves_under_working_directory() {
    let args = HaBackupArgs { config_path: "/c".to_string(), destination: "backups//".to_string() };
    let job = backup_plan(&args, "/home/ha/", "s");
    assert_eq!(job.archive, "/home/ha/backups/homeassistant-config-s.tar.gz");
    assert_eq!(run_of(&job.actions[2]).1[1], job.archive);
    // mkdir still creates the destination as given, relative to the same directory
    assert_eq!(run_of(&job.actions[1]).1, strs(&["-p", "backups//"]));
}

#[test]
fn empty_or_root_destination() {
    let empty = HaBackupArgs { config_path: "/c".to_string(), destination: String::new() };
    assert_eq!(backup_plan(&empty, "/w", "s").archive, "/w/homeassistant-config-s.tar.gz");
    let root = HaBackupArgs { config_path: "/c".to_string(), destination: "/".to_string() };
    assert_eq!(backup_plan(&root, "/w", "s").archive, "/homeassistant-config-s.tar.gz");
    let at_root = HaBackupArgs { config_path: "/c".to_string(), destination: "b".to_string() };
    assert_eq!(backup_plan(&at_root, "/", "s").archive, "/b/homeassistant-config-s.tar.gz");
}

#[test]
fn clock_stamp_has_the_stamp_shape() {
    let args = HaBackupArgs { config_path: "/c".to_string(), destination: "/d".to_string() };
    let job = homeassistant::lifecycle::backup_config(&args, "/w").ok().expect("the clock reads");
    assert_eq!(job.stamp.len(), 15);
    assert_eq!(&job.stamp[8..9], "-");
    assert!(job.stamp.chars().enumerate().all(|(i, c)| i == 8 || c.is_ascii_digit()));
    let now = homeassistant::lifecycle::now_stamp().expect("the clock reads");
    assert!(now >= job.stamp);
}
