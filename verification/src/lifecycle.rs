//! The deploy lifecycle of a Home Assistant instance: provision, version
//! bump, and backup / restore of the `/config` volume.
//!
//! Each tool is a planner from its arguments to the list of steps the host
//! must take (see `plan`), and an output built from what those steps gave
//! back. The steps are driven by a `session::Session`.

use vstd::prelude::*;
use crate::error::{ErrorView, ToolError};
use crate::plan::{Action, ActionView, CommandSpec, Probe, ProbeView, actions_view, command};
use crate::text::{decimal_string, owned, push_str, starts_with_slash, strip_trailing_slashes};

verus! {

/// Where a Home Assistant instance is deployed.
#[derive(Clone, Copy, Debug, PartialEq, Eq, Structural)]
pub enum Runtime {
    /// Docker / Compose, driven via `docker`.
    Docker,
    /// Proxmox LXC, driven via `pct`.
    Lxc,
}

impl Default for Runtime {
    fn default() -> (r: Runtime)
        ensures
            r == Runtime::Docker,
    {
        Runtime::Docker
    }
}

/// Release channel for the update tool; maps to a container image tag.
#[derive(Clone, Copy, Debug, PartialEq, Eq, Structural)]
pub enum Channel {
    /// Newest stable Home Assistant release.
    Stable,
    /// Beta / release-candidate channel.
    Beta,
    /// Bleeding-edge nightly dev channel.
    Dev,
}

impl Default for Channel {
    fn default() -> (r: Channel)
        ensures
            r == Channel::Stable,
    {
        Channel::Stable
    }
}

/// The image tag a channel resolves to.
pub open spec fn channel_tag(c: Channel) -> Seq<char> {
    match c {
        Channel::Stable => "stable"@,
        Channel::Beta => "beta"@,
        Channel::Dev => "dev"@,
    }
}

/// The Home Assistant container image of a channel.
pub open spec fn image_ref(c: Channel) -> Seq<char> {
    "ghcr.io/home-assistant/home-assistant:"@ + channel_tag(c)
}

impl Channel {
    /// The container image tag this channel resolves to. Home Assistant
    /// publishes `stable`, `beta`, and `dev` tags on
    /// `ghcr.io/home-assistant/home-assistant`.
    pub fn image_tag(self) -> (t: &'static str)
        ensures
            t@ == channel_tag(self),
    {
        match self {
            Channel::Stable => "stable",
            Channel::Beta => "beta",
            Channel::Dev => "dev",
        }
    }

    /// The full image reference of this channel.
    pub fn image(self) -> (r: String)
        ensures
            r@ == image_ref(self),
    {
        let mut r = owned("ghcr.io/home-assistant/home-assistant:");
        push_str(&mut r, self.image_tag());
        r
    }
}

/// Host path of the persistent `/config` volume unless one is given.
pub fn default_config_path() -> (r: String)
    ensures
        r@ == "/opt/homeassistant/config"@,
{
    owned("/opt/homeassistant/config")
}

/// Compose file of the Docker runtime unless one is given.
pub fn default_compose() -> (r: String)
    ensures
        r@ == "compose.yml"@,
{
    owned("compose.yml")
}

/// `o`'s text, or `d` where there is none.
pub open spec fn text_or(o: Option<String>, d: Seq<char>) -> Seq<char> {
    match o {
        Some(s) => s@,
        None => d,
    }
}

/// The view of a planner's result.
pub open spec fn planned(r: Result<Vec<Action>, ToolError>) -> Result<Seq<ActionView>, ErrorView> {
    match r {
        Ok(v) => Ok(actions_view(v@)),
        Err(e) => Err(e@),
    }
}

// ---------------------------------------------------------------------
// install
// ---------------------------------------------------------------------

/// Arguments of the install tool.
#[derive(Debug)]
pub struct HaInstallArgs {
    /// Where to deploy: `docker` (Compose) or `lxc` (Proxmox).
    pub runtime: Runtime,
    /// LXC vmid (LXC runtime only). Required when `runtime=lxc`.
    pub vmid: Option<u32>,
    /// Host path for the persistent `/config` volume. The LXC bootstrap is
    /// given it as `--config`; the Compose stack is given it as `HA_CONFIG`,
    /// which the compose file maps to `/config`.
    pub config_path: String,
    /// Path to the bootstrap `provision.sh` (LXC) or `compose.yml` (Docker).
    pub bootstrap_path: Option<String>,
}

/// What the install tool reports.
#[derive(Debug)]
pub struct HaInstallOutput {
    /// True when the provisioning command completed successfully.
    pub provisioned: bool,
    /// The runtime the deployment targeted.
    pub runtime: Runtime,
    /// Standard output of the provisioning step.
    pub log: String,
}

/// The command that brings up the Compose stack of `file` with one
/// variable `setting` (`NAME=value`) in its environment, which the compose
/// file reads.
pub open spec fn compose_up(file: Seq<char>, setting: Seq<char>) -> crate::plan::CommandView {
    command("env"@, seq![setting, "docker"@, "compose"@, "-f"@, file, "up"@, "-d"@])
}

/// The steps of an install: on Docker, bring up the Compose stack with its
/// `/config` volume at the config path (`HA_CONFIG`); on LXC, run the
/// `provision.sh` bootstrap with the container id and config path.
pub open spec fn install_actions(a: HaInstallArgs) -> Result<Seq<ActionView>, ErrorView> {
    match a.runtime {
        Runtime::Docker => Ok(
            seq![
                ActionView::Run(
                    compose_up(
                        text_or(a.bootstrap_path, "compose.yml"@),
                        "HA_CONFIG="@ + a.config_path@,
                    ),
                ),
            ],
        ),
        Runtime::Lxc => match a.vmid {
            None => Err(ErrorView::MissingVmid),
            Some(id) => Ok(
                seq![
                    ActionView::Run(
                        command(
                            "bash"@,
                            seq![
                                text_or(a.bootstrap_path, "lxc/provision.sh"@),
                                crate::text::decimal(id as nat),
                                "--config"@,
                                a.config_path@,
                            ],
                        ),
                    ),
                ],
            ),
        },
    }
}

fn one_step(a: Action) -> (v: Vec<Action>)
    ensures
        actions_view(v@) == seq![a@],
{
    let mut v: Vec<Action> = Vec::new();
    v.push(a);
    assert(actions_view(v@) =~= seq![a@]);
    v
}

/// The command that brings up the Compose stack of `file` with `setting`
/// in its environment.
fn compose_up_command(file: &str, setting: &str) -> (c: CommandSpec)
    ensures
        c@ == compose_up(file@, setting@),
{
    let mut cmd = CommandSpec::new("env");
    cmd.arg(setting);
    cmd.arg("docker");
    cmd.arg("compose");
    cmd.arg("-f");
    cmd.arg(file);
    cmd.arg("up");
    cmd.arg("-d");
    assert(cmd@.args =~= compose_up(file@, setting@).args);
    cmd
}

/// Plans an install.
pub fn install_plan(args: &HaInstallArgs) -> (r: Result<Vec<Action>, ToolError>)
    ensures
        planned(r) == install_actions(*args),
{
    match args.runtime {
        Runtime::Docker => {
            let compose: &str = match &args.bootstrap_path {
                Some(p) => p.as_str(),
                None => "compose.yml",
            };
            let mut setting = owned("HA_CONFIG=");
            push_str(&mut setting, args.config_path.as_str());
            let cmd = compose_up_command(compose, setting.as_str());
            Ok(one_step(Action::Run(cmd)))
        },
        Runtime::Lxc => {
            match args.vmid {
                None => Err(ToolError::MissingVmid),
                Some(vmid) => {
                    let script: &str = match &args.bootstrap_path {
                        Some(p) => p.as_str(),
                        None => "lxc/provision.sh",
                    };
                    let id = decimal_string(vmid);
                    let mut cmd = CommandSpec::new("bash");
                    cmd.arg(script);
                    cmd.arg(id.as_str());
                    cmd.arg("--config");
                    cmd.arg(args.config_path.as_str());
                    assert(cmd@.args =~= seq![
                        text_or(args.bootstrap_path, "lxc/provision.sh"@),
                        crate::text::decimal(vmid as nat),
                        "--config"@,
                        args.config_path@,
                    ]);
                    Ok(one_step(Action::Run(cmd)))
                },
            }
        },
    }
}

/// The install report, once its step has succeeded with the given output.
pub fn install_output(args: &HaInstallArgs, log: String) -> (o: HaInstallOutput)
    ensures
        o.provisioned,
        o.runtime == args.runtime,
        o.log@ == log@,
{
    HaInstallOutput { provisioned: true, runtime: args.runtime, log }
}

// ---------------------------------------------------------------------
// update
// ---------------------------------------------------------------------

/// Arguments of the update tool.
#[derive(Debug)]
pub struct HaUpdateArgs {
    /// Where the instance runs: `docker` or `lxc`.
    pub runtime: Runtime,
    /// Release channel to move to.
    pub channel: Channel,
    /// LXC vmid (LXC runtime only).
    pub vmid: Option<u32>,
    /// Compose file (Docker runtime only).
    pub compose_file: String,
}

/// What the update tool reports.
#[derive(Debug)]
pub struct HaUpdateOutput {
    /// True when the update command completed.
    pub updated: bool,
    /// Image tag the channel resolved to.
    pub image_tag: String,
    /// Standard output of the last update step.
    pub log: String,
}

/// The shell line run inside an LXC container to move it to `image`: pull
/// it, then recreate the stack with `HA_IMAGE` set to it.
pub open spec fn lxc_update_script(image: Seq<char>) -> Seq<char> {
    "docker pull "@ + image + " && HA_IMAGE="@ + image
        + " docker compose -f /opt/homeassistant/compose.yml up -d"@
}

/// The steps of an update: on Docker, pull the channel's image and recreate
/// the stack with `HA_IMAGE` set to that image, which the compose file runs;
/// on LXC, do the same inside the container through `pct exec`. Either way
/// the stack is brought up with `image_ref(channel)`. The update tool is
/// given no config path, so the `/config` volume is whatever `HA_CONFIG`
/// holds in the caller's environment, else the compose file's default.
pub open spec fn update_actions(a: HaUpdateArgs) -> Result<Seq<ActionView>, ErrorView> {
    let image = image_ref(a.channel);
    match a.runtime {
        Runtime::Docker => Ok(
            seq![
                ActionView::Run(command("docker"@, seq!["pull"@, image])),
                ActionView::Run(compose_up(a.compose_file@, "HA_IMAGE="@ + image)),
            ],
        ),
        Runtime::Lxc => match a.vmid {
            None => Err(ErrorView::MissingVmid),
            Some(id) => Ok(
                seq![
                    ActionView::Run(
                        command(
                            "pct"@,
                            seq![
                                "exec"@,
                                crate::text::decimal(id as nat),
                                "--"@,
                                "bash"@,
                                "-c"@,
                                lxc_update_script(image),
                            ],
                        ),
                    ),
                ],
            ),
        },
    }
}

/// Plans an update.
pub fn update_plan(args: &HaUpdateArgs) -> (r: Result<Vec<Action>, ToolError>)
    ensures
        planned(r) == update_actions(*args),
{
    let image = args.channel.image();
    match args.runtime {
        Runtime::Docker => {
            let mut pull = CommandSpec::new("docker");
            pull.arg("pull");
            pull.arg(image.as_str());
            assert(pull@.args =~= seq!["pull"@, image_ref(args.channel)]);
            let mut setting = owned("HA_IMAGE=");
            push_str(&mut setting, image.as_str());
            let up = compose_up_command(args.compose_file.as_str(), setting.as_str());
            let ghost first = ActionView::Run(pull@);
            let ghost second = ActionView::Run(up@);
            let mut v: Vec<Action> = Vec::new();
            v.push(Action::Run(pull));
            v.push(Action::Run(up));
            assert(actions_view(v@) =~= seq![first, second]);
            Ok(v)
        },
        Runtime::Lxc => {
            match args.vmid {
                None => Err(ToolError::MissingVmid),
                Some(vmid) => {
                    let id = decimal_string(vmid);
                    let mut script = owned("docker pull ");
                    push_str(&mut script, image.as_str());
                    push_str(&mut script, " && HA_IMAGE=");
                    push_str(&mut script, image.as_str());
                    push_str(&mut script, " docker compose -f /opt/homeassistant/compose.yml up -d");
                    let mut cmd = CommandSpec::new("pct");
                    cmd.arg("exec");
                    cmd.arg(id.as_str());
                    cmd.arg("--");
                    cmd.arg("bash");
                    cmd.arg("-c");
                    cmd.arg(script.as_str());
                    assert(cmd@.args =~= seq![
                        "exec"@,
                        crate::text::decimal(vmid as nat),
                        "--"@,
                        "bash"@,
                        "-c"@,
                        lxc_update_script(image_ref(args.channel)),
                    ]);
                    Ok(one_step(Action::Run(cmd)))
                },
            }
        },
    }
}

/// The update report, once its steps have succeeded; `log` is the output
/// of the last one.
pub fn update_output(args: &HaUpdateArgs, log: String) -> (o: HaUpdateOutput)
    ensures
        o.updated,
        o.image_tag@ == channel_tag(args.channel),
        o.log@ == log@,
{
    HaUpdateOutput { updated: true, image_tag: owned(args.channel.image_tag()), log }
}

// ---------------------------------------------------------------------
// backup
// ---------------------------------------------------------------------

/// Arguments of the backup tool.
#[derive(Debug)]
pub struct HaBackupArgs {
    /// Host path of the Home Assistant `/config` volume to archive.
    pub config_path: String,
    /// Directory to write the `.tar.gz` into. Created if missing.
    pub destination: String,
}

/// What the backup tool reports.
#[derive(Debug)]
pub struct HaBackupOutput {
    /// Absolute path of the archive written.
    pub archive: String,
}

/// The directory a backup is written into, as an absolute path when the
/// working directory `cwd` is one: an absolute destination as given, a
/// relative one under `cwd`, either without trailing slashes.
pub open spec fn archive_dir(destination: Seq<char>, cwd: Seq<char>) -> Seq<char> {
    if crate::text::is_absolute(destination) {
        crate::text::trim_end_slashes(destination)
    } else if destination.len() == 0 {
        crate::text::trim_end_slashes(cwd)
    } else {
        crate::text::trim_end_slashes(cwd) + "/"@ + crate::text::trim_end_slashes(destination)
    }
}

/// Where a backup taken at `stamp` is written, with `cwd` the working
/// directory the tool runs in.
pub open spec fn archive_path(destination: Seq<char>, cwd: Seq<char>, stamp: Seq<char>) -> Seq<char> {
    archive_dir(destination, cwd) + "/homeassistant-config-"@ + stamp + ".tar.gz"@
}

/// The archiving command: everything under the config volume but the
/// regenerable `deps/`, `tts/` and `home-assistant.log`.
pub open spec fn archive_command(config_path: Seq<char>, archive: Seq<char>) -> crate::plan::CommandView {
    command(
        "tar"@,
        seq![
            "-czf"@,
            archive,
            "--exclude=./deps"@,
            "--exclude=./tts"@,
            "--exclude=./home-assistant.log"@,
            "-C"@,
            config_path,
            "."@,
        ],
    )
}

/// The steps of a backup taken at `stamp` from the working directory `cwd`:
/// the config volume must be a directory, the destination is created, then
/// the volume is archived.
pub open spec fn backup_actions(a: HaBackupArgs, cwd: Seq<char>, stamp: Seq<char>) -> Seq<ActionView> {
    seq![
        ActionView::Require {
            probe: ProbeView::IsDir(a.config_path@),
            unmet: ErrorView::NotADirectory { path: a.config_path@ },
        },
        ActionView::Run(command("mkdir"@, seq!["-p"@, a.destination@])),
        ActionView::Run(archive_command(a.config_path@, archive_path(a.destination@, cwd, stamp))),
    ]
}

/// A planned backup: when it was stamped, where it goes, and its steps.
#[derive(Debug)]
pub struct BackupJob {
    pub stamp: String,
    pub archive: String,
    pub actions: Vec<Action>,
}

/// An ASCII digit.
pub open spec fn is_digit(c: char) -> bool {
    '0' <= c <= '9'
}

/// The shape of a `%Y%m%d-%H%M%S` stamp of a time at or after the Unix
/// epoch: the year in at least four digits, with a leading `+` when it has
/// more, then month, day, `-`, hour, minute and second in two digits each.
pub open spec fn stamp_shape(s: Seq<char>) -> bool {
    &&& s.len() >= 15
    &&& s[s.len() - 7] == '-'
    &&& s.len() == 15 || s[0] == '+'
    &&& forall|i: int|
        0 <= i < s.len() && i != s.len() - 7 && !(i == 0 && s[0] == '+') ==> is_digit(
            #[trigger] s[i],
        )
}

/// The text `chrono` formats the UTC time `secs` seconds after the Unix
/// epoch as, with `%Y%m%d-%H%M%S`, or `None` where that time is out of
/// chrono's range.
pub uninterp spec fn utc_stamp(secs: i64) -> Option<Seq<char>>;

/// Seconds since the Unix epoch on the system clock:
/// `SystemTime::now().duration_since(UNIX_EPOCH)` in whole seconds, `None`
/// when the clock reads before the epoch.
/// Trusted; nothing is stated of the number, which is the clock's.
#[verifier::external_body]
fn clock_seconds() -> Option<u64> {
    match std::time::SystemTime::now().duration_since(std::time::UNIX_EPOCH) {
        Ok(d) => Some(d.as_secs()),
        Err(_) => None,
    }
}

/// `chrono::DateTime::from_timestamp(secs, 0)` formatted with
/// `%Y%m%d-%H%M%S` through `DateTime::format` and `to_string`.
/// Trusted. `from_timestamp` gives `None` only out of chrono's range, which
/// starts before the epoch and ends far past year 9999. The formatter
/// writes the year as four zero-padded digits within 0..=9999 and with a
/// `+` sign and more digits above, and every other field as two
/// zero-padded digits; with whole seconds no leap second occurs. So a time
/// at or after the epoch gives a stamp of `stamp_shape`, of exactly 15
/// characters before year 10000 (second 253402300800).
#[verifier::external_body]
fn format_stamp(secs: i64) -> (r: Option<String>)
    ensures
        match r {
            Some(t) => utc_stamp(secs) == Some(t@),
            None => utc_stamp(secs) is None,
        },
        0 <= secs < 253402300800 ==> r is Some,
        0 <= secs ==> (r matches Some(t) ==> stamp_shape(t@)),
        0 <= secs < 253402300800 ==> (r matches Some(t) ==> t@.len() == 15),
{
    match chrono::DateTime::from_timestamp(secs, 0) {
        Some(t) => Some(t.format("%Y%m%d-%H%M%S").to_string()),
        None => None,
    }
}

/// The current UTC time as `%Y%m%d-%H%M%S`, or `None` when the system clock
/// reads before the Unix epoch or past what can be formatted.
pub fn now_stamp() -> (r: Option<String>)
    ensures
        r matches Some(t) ==> stamp_shape(t@) && exists|s: i64|
            0 <= s && #[trigger] utc_stamp(s) == Some(t@),
{
    match clock_seconds() {
        None => None,
        Some(secs) => {
            if secs <= 9223372036854775807u64 {
                let s = secs as i64;
                let r = format_stamp(s);
                proof {
                    if r is Some {
                        assert(utc_stamp(s) == Some(r->0@));
                    }
                }
                r
            } else {
                None
            }
        },
    }
}

/// The directory `destination` resolves to from the working directory `cwd`.
fn resolve_dir(destination: &str, cwd: &str) -> (r: String)
    ensures
        r@ == archive_dir(destination@, cwd@),
{
    if starts_with_slash(destination) {
        strip_trailing_slashes(destination)
    } else if destination.is_empty() {
        strip_trailing_slashes(cwd)
    } else {
        let mut r = strip_trailing_slashes(cwd);
        push_str(&mut r, "/");
        let rest = strip_trailing_slashes(destination);
        push_str(&mut r, rest.as_str());
        r
    }
}

/// Plans a backup stamped `stamp`, run from the working directory `cwd`.
pub fn backup_plan(args: &HaBackupArgs, cwd: &str, stamp: &str) -> (j: BackupJob)
    ensures
        j.stamp@ == stamp@,
        j.archive@ == archive_path(args.destination@, cwd@, stamp@),
        actions_view(j.actions@) == backup_actions(*args, cwd@, stamp@),
{
    let mut archive = resolve_dir(args.destination.as_str(), cwd);
    push_str(&mut archive, "/homeassistant-config-");
    push_str(&mut archive, stamp);
    push_str(&mut archive, ".tar.gz");

    let probe = Probe::IsDir(args.config_path.clone());
    let unmet = ToolError::NotADirectory { path: args.config_path.clone() };
    let mut mkdir = CommandSpec::new("mkdir");
    mkdir.arg("-p");
    mkdir.arg(args.destination.as_str());
    assert(mkdir@.args =~= seq!["-p"@, args.destination@]);

    let mut tar = CommandSpec::new("tar");
    tar.arg("-czf");
    tar.arg(archive.as_str());
    tar.arg("--exclude=./deps");
    tar.arg("--exclude=./tts");
    tar.arg("--exclude=./home-assistant.log");
    tar.arg("-C");
    tar.arg(args.config_path.as_str());
    tar.arg(".");
    assert(tar@ == archive_command(args.config_path@, archive@)) by {
        assert(tar@.args =~= archive_command(args.config_path@, archive@).args);
    }

    let ghost steps = backup_actions(*args, cwd@, stamp@);
    let ghost a0 = ActionView::Require { probe: probe@, unmet: unmet@ };
    let ghost a1 = ActionView::Run(mkdir@);
    let ghost a2 = ActionView::Run(tar@);
    let mut actions: Vec<Action> = Vec::new();
    actions.push(Action::Require { probe, unmet });
    actions.push(Action::Run(mkdir));
    actions.push(Action::Run(tar));
    assert(actions_view(actions@) =~= seq![a0, a1, a2]);
    assert(seq![a0, a1, a2] =~= steps);
    BackupJob { stamp: owned(stamp), archive, actions }
}

/// Plans a backup stamped with the current time, run from the working
/// directory `cwd`; fails when the system clock cannot be read as a time.
pub fn backup_config(args: &HaBackupArgs, cwd: &str) -> (r: Result<BackupJob, ToolError>)
    ensures
        match r {
            Ok(j) => {
                &&& stamp_shape(j.stamp@)
                &&& j.archive@ == archive_path(args.destination@, cwd@, j.stamp@)
                &&& actions_view(j.actions@) == backup_actions(*args, cwd@, j.stamp@)
            },
            Err(e) => e@ == ErrorView::ClockUnavailable,
        },
{
    match now_stamp() {
        Some(stamp) => Ok(backup_plan(args, cwd, stamp.as_str())),
        None => Err(ToolError::ClockUnavailable),
    }
}

/// The backup report, once the job's steps have succeeded.
pub fn backup_output(job: &BackupJob) -> (o: HaBackupOutput)
    ensures
        o.archive@ == job.archive@,
{
    HaBackupOutput { archive: job.archive.clone() }
}

// ---------------------------------------------------------------------
// restore
// ---------------------------------------------------------------------

/// Arguments of the restore tool.
#[derive(Debug)]
pub struct HaRestoreArgs {
    /// The backup tarball to restore from.
    pub from: String,
    /// Host path of the `/config` volume to restore into. Created if missing.
    pub config_path: String,
}

/// What the restore tool reports.
#[derive(Debug)]
pub struct HaRestoreOutput {
    /// True when extraction completed.
    pub restored: bool,
    /// Where the config was restored to.
    pub config_path: String,
}

/// The extracting command: the archive unpacked over the config volume.
pub open spec fn extract_command(archive: Seq<char>, config_path: Seq<char>) -> crate::plan::CommandView {
    command("tar"@, seq!["-xzf"@, archive, "-C"@, config_path])
}

/// The steps of a restore: the tarball must be a file, the config volume
/// is created, then the tarball is extracted over it.
pub open spec fn restore_actions(a: HaRestoreArgs) -> Seq<ActionView> {
    seq![
        ActionView::Require {
            probe: ProbeView::IsFile(a.from@),
            unmet: ErrorView::TarballNotFound { path: a.from@ },
        },
        ActionView::Run(command("mkdir"@, seq!["-p"@, a.config_path@])),
        ActionView::Run(extract_command(a.from@, a.config_path@)),
    ]
}

/// Plans a restore.
pub fn restore_plan(args: &HaRestoreArgs) -> (v: Vec<Action>)
    ensures
        actions_view(v@) == restore_actions(*args),
{
    let probe = Probe::IsFile(args.from.clone());
    let unmet = ToolError::TarballNotFound { path: args.from.clone() };
    let mut mkdir = CommandSpec::new("mkdir");
    mkdir.arg("-p");
    mkdir.arg(args.config_path.as_str());
    assert(mkdir@.args =~= seq!["-p"@, args.config_path@]);
    let mut tar = CommandSpec::new("tar");
    tar.arg("-xzf");
    tar.arg(args.from.as_str());
    tar.arg("-C");
    tar.arg(args.config_path.as_str());
    assert(tar@ == extract_command(args.from@, args.config_path@)) by {
        assert(tar@.args =~= extract_command(args.from@, args.config_path@).args);
    }
    let ghost a0 = ActionView::Require { probe: probe@, unmet: unmet@ };
    let ghost a1 = ActionView::Run(mkdir@);
    let ghost a2 = ActionView::Run(tar@);
    let mut actions: Vec<Action> = Vec::new();
    actions.push(Action::Require { probe, unmet });
    actions.push(Action::Run(mkdir));
    actions.push(Action::Run(tar));
    assert(actions_view(actions@) =~= seq![a0, a1, a2]);
    assert(seq![a0, a1, a2] =~= restore_actions(*args));
    actions
}

/// The restore report, once the steps have succeeded.
pub fn restore_output(args: HaRestoreArgs) -> (o: HaRestoreOutput)
    ensures
        o.restored,
        o.config_path@ == args.config_path@,
{
    HaRestoreOutput { restored: true, config_path: args.config_path }
}

// ---------------------------------------------------------------------
// Laws of the lifecycle
// ---------------------------------------------------------------------

/// Each channel has a tag of its own, and so an image of its own.
pub proof fn channels_have_distinct_images(a: Channel, b: Channel)
    requires
        a != b,
    ensures
        channel_tag(a) != channel_tag(b),
        image_ref(a) != image_ref(b),
{
    reveal_strlit("stable");
    reveal_strlit("beta");
    reveal_strlit("dev");
    let prefix = "ghcr.io/home-assistant/home-assistant:"@;
    assert((prefix + channel_tag(a)).subrange(prefix.len() as int, (prefix + channel_tag(a)).len() as int)
        =~= channel_tag(a));
    assert((prefix + channel_tag(b)).subrange(prefix.len() as int, (prefix + channel_tag(b)).len() as int)
        =~= channel_tag(b));
}

/// When the working directory is absolute, so is the archive path the
/// backup reports, whether the destination was given absolute or relative.
pub proof fn backup_archive_is_absolute(destination: Seq<char>, cwd: Seq<char>, stamp: Seq<char>)
    requires
        crate::text::is_absolute(cwd),
    ensures
        crate::text::is_absolute(archive_path(destination, cwd, stamp)),
{
    reveal_strlit("/homeassistant-config-");
    reveal_strlit("/");
    crate::text::stripped_is_prefix(destination);
    crate::text::stripped_is_prefix(cwd);
    let d = archive_dir(destination, cwd);
    let a = archive_path(destination, cwd, stamp);
    if d.len() == 0 {
        assert(a[0] == "/homeassistant-config-"@[0]);
    } else {
        assert(a[0] == d[0]);
        if crate::text::is_absolute(destination) {
            assert(d[0] == destination[0]);
        } else {
            let c = crate::text::trim_end_slashes(cwd);
            if c.len() > 0 {
                assert(d[0] == c[0]);
                assert(c[0] == cwd[0]);
            } else {
                assert(d[0] == "/"@[0]);
            }
        }
    }
}

/// The archive sits directly in its directory: the directory part has no
/// trailing slash, a single `/` follows it, and when the stamp is made of
/// a time stamp the file name holds no further `/`. So whatever
/// trailing slashes the destination had, the archive never reads
/// `//homeassistant-config-`.
pub proof fn archive_sits_directly_in_its_directory(
    destination: Seq<char>,
    cwd: Seq<char>,
    stamp: Seq<char>,
)
    requires
        stamp_shape(stamp),
    ensures
        ({
            let d = archive_dir(destination, cwd);
            let a = archive_path(destination, cwd, stamp);
            &&& a.subrange(0, d.len() as int) == d
            &&& d.len() == 0 || d.last() != '/'
            &&& a[d.len() as int] == '/'
            &&& forall|k: int| d.len() < k < a.len() ==> #[trigger] a[k] != '/'
            &&& a.subrange(d.len() as int, d.len() + 22int) == "/homeassistant-config-"@
        }),
{
    reveal_strlit("/homeassistant-config-");
    reveal_strlit(".tar.gz");
    reveal_strlit("/");
    let d = archive_dir(destination, cwd);
    let a = archive_path(destination, cwd, stamp);
    let name = "/homeassistant-config-"@ + stamp + ".tar.gz"@;
    assert(a =~= d + name);
    assert(a.subrange(0, d.len() as int) =~= d);
    assert(a.subrange(d.len() as int, d.len() + 22int) =~= "/homeassistant-config-"@);
    if crate::text::is_absolute(destination) {
        crate::text::stripped_has_no_trailing_slash(destination);
    } else if destination.len() == 0 {
        crate::text::stripped_has_no_trailing_slash(cwd);
    } else {
        crate::text::stripped_keeps_first(destination);
        crate::text::stripped_has_no_trailing_slash(destination);
        let t = crate::text::trim_end_slashes(destination);
        assert(d.last() == t.last());
    }
    assert forall|k: int| d.len() < k < a.len() implies #[trigger] a[k] != '/' by {
        assert(a[k] == name[k - d.len()]);
        let j = k - d.len();
        if j < 22 {
            assert(name[j] == "/homeassistant-config-"@[j]);
        } else if j < 22 + stamp.len() {
            assert(name[j] == stamp[j - 22]);
            let m = j - 22;
            if m != stamp.len() - 7 && !(m == 0 && stamp[0] == '+') {
                assert(is_digit(stamp[m]));
            }
        } else {
            assert(name[j] == ".tar.gz"@[j - 22 - stamp.len()]);
        }
    }
}

/// Any number of trailing slashes on a non-empty destination leaves the
/// archive path as it is.
pub proof fn archive_ignores_trailing_slashes(
    destination: Seq<char>,
    n: nat,
    cwd: Seq<char>,
    stamp: Seq<char>,
)
    requires
        destination.len() > 0,
    ensures
        archive_path(destination + crate::text::slashes(n), cwd, stamp) == archive_path(
            destination,
            cwd,
            stamp,
        ),
{
    crate::text::trailing_slashes_are_ignored(destination, n);
    let longer = destination + crate::text::slashes(n);
    assert(longer[0] == destination[0]);
}

/// A restore from the archive a backup wrote reads that very archive: it
/// checks that the file exists, and extracts into its own config volume
/// what the backup packed from the backed-up one.
pub proof fn restore_reads_what_backup_wrote(
    backup: HaBackupArgs,
    cwd: Seq<char>,
    stamp: Seq<char>,
    restore: HaRestoreArgs,
)
    requires
        restore.from@ == archive_path(backup.destination@, cwd, stamp),
    ensures
        ({
            let archive = archive_path(backup.destination@, cwd, stamp);
            &&& backup_actions(backup, cwd, stamp)[2] == ActionView::Run(
                archive_command(backup.config_path@, archive),
            )
            &&& restore_actions(restore)[0] == (ActionView::Require {
                probe: ProbeView::IsFile(archive),
                unmet: ErrorView::TarballNotFound { path: archive },
            })
            &&& restore_actions(restore)[2] == ActionView::Run(
                extract_command(archive, restore.config_path@),
            )
        }),
{
}

/// An install that finishes ran its one command, which exited successfully,
/// and reports that command's output as its log.
pub proof fn finished_install_ran_its_command(
    args: HaInstallArgs,
    obs: Seq<crate::session::ObservationView>,
)
    requires
        install_actions(args) is Ok,
        crate::session::directive(
            crate::session::run_all(crate::session::start(install_actions(args)->Ok_0), obs),
        ) is Finished,
    ensures
        ({
            let a = install_actions(args)->Ok_0;
            let p = crate::session::progress(a, obs);
            &&& p.len() == 1
            &&& p[0] matches crate::session::ObservationView::Exited { success: true, stdout, .. }
            &&& crate::session::directive(crate::session::run_all(crate::session::start(a), obs))
                == crate::session::DirectiveView::Finished(stdout)
        }),
{
    let a = install_actions(args)->Ok_0;
    crate::session::finished_session_ran_every_step(a, obs);
    let p = crate::session::progress(a, obs);
    assert(crate::session::holds(a[0], p[0]));
}

/// An update that finishes ran every one of its commands successfully, and
/// reports the output of the last of them as its log.
pub proof fn finished_update_ran_every_command(
    args: HaUpdateArgs,
    obs: Seq<crate::session::ObservationView>,
)
    requires
        update_actions(args) is Ok,
        crate::session::directive(
            crate::session::run_all(crate::session::start(update_actions(args)->Ok_0), obs),
        ) is Finished,
    ensures
        ({
            let a = update_actions(args)->Ok_0;
            let p = crate::session::progress(a, obs);
            &&& p.len() == a.len()
            &&& forall|i: int|
                0 <= i < p.len() ==> crate::session::succeeded(#[trigger] p[i])
            &&& p.last() matches crate::session::ObservationView::Exited { stdout, .. }
            &&& crate::session::directive(crate::session::run_all(crate::session::start(a), obs))
                == crate::session::DirectiveView::Finished(stdout)
        }),
{
    let a = update_actions(args)->Ok_0;
    crate::session::finished_session_ran_every_step(a, obs);
    let p = crate::session::progress(a, obs);
    assert forall|i: int| 0 <= i < p.len() implies crate::session::succeeded(#[trigger] p[i]) by {
        assert(crate::session::holds(a[i], p[i]));
    }
    assert(crate::session::holds(a[a.len() - 1], p[p.len() - 1]));
}

/// An update brings the stack up on the channel's image: on Docker its
/// last step recreates the stack with `HA_IMAGE` set to that image, after
/// pulling it; on LXC the script run in the container does the same.
pub proof fn update_brings_up_channel_image(args: HaUpdateArgs)
    requires
        update_actions(args) is Ok,
    ensures
        args.runtime == Runtime::Lxc ==> args.vmid is Some,
        ({
            let a = update_actions(args)->Ok_0;
            let image = image_ref(args.channel);
            match args.runtime {
                Runtime::Docker => {
                    &&& a.len() == 2
                    &&& a[0] == ActionView::Run(command("docker"@, seq!["pull"@, image]))
                    &&& a[1] == ActionView::Run(
                        command(
                            "env"@,
                            seq![
                                "HA_IMAGE="@ + image,
                                "docker"@,
                                "compose"@,
                                "-f"@,
                                args.compose_file@,
                                "up"@,
                                "-d"@,
                            ],
                        ),
                    )
                },
                Runtime::Lxc => {
                    &&& a.len() == 1
                    &&& a[0] == ActionView::Run(
                        command(
                            "pct"@,
                            seq![
                                "exec"@,
                                crate::text::decimal(args.vmid->0 as nat),
                                "--"@,
                                "bash"@,
                                "-c"@,
                                "docker pull "@ + image + " && "@ + "HA_IMAGE="@ + image
                                    + " docker compose -f /opt/homeassistant/compose.yml up -d"@,
                            ],
                        ),
                    )
                },
            }
        }),
{
    reveal_strlit(" && HA_IMAGE=");
    reveal_strlit(" && ");
    reveal_strlit("HA_IMAGE=");
    assert(" && HA_IMAGE="@ =~= " && "@ + "HA_IMAGE="@);
    let image = image_ref(args.channel);
    assert("docker pull "@ + image + " && HA_IMAGE="@ + image
        + " docker compose -f /opt/homeassistant/compose.yml up -d"@ =~= "docker pull "@ + image
        + " && "@ + "HA_IMAGE="@ + image
        + " docker compose -f /opt/homeassistant/compose.yml up -d"@);
}

/// On Docker an install brings the stack up with its `/config` volume at
/// the requested config path (`HA_CONFIG`).
pub proof fn docker_install_uses_config_path(args: HaInstallArgs)
    requires
        args.runtime == Runtime::Docker,
    ensures
        install_actions(args) == Ok::<Seq<ActionView>, ErrorView>(
            seq![
                ActionView::Run(
                    command(
                        "env"@,
                        seq![
                            "HA_CONFIG="@ + args.config_path@,
                            "docker"@,
                            "compose"@,
                            "-f"@,
                            text_or(args.bootstrap_path, "compose.yml"@),
                            "up"@,
                            "-d"@,
                        ],
                    ),
                ),
            ],
        ),
{
}

/// The tags and images of the three channels, as Home Assistant publishes
/// them.
pub proof fn channel_images()
    ensures
        channel_tag(Channel::Stable) == "stable"@,
        channel_tag(Channel::Beta) == "beta"@,
        channel_tag(Channel::Dev) == "dev"@,
        image_ref(Channel::Stable) == "ghcr.io/home-assistant/home-assistant:stable"@,
        image_ref(Channel::Beta) == "ghcr.io/home-assistant/home-assistant:beta"@,
        image_ref(Channel::Dev) == "ghcr.io/home-assistant/home-assistant:dev"@,
{
    reveal_strlit("ghcr.io/home-assistant/home-assistant:stable");
    reveal_strlit("ghcr.io/home-assistant/home-assistant:beta");
    reveal_strlit("ghcr.io/home-assistant/home-assistant:dev");
    reveal_strlit("ghcr.io/home-assistant/home-assistant:");
    reveal_strlit("stable");
    reveal_strlit("beta");
    reveal_strlit("dev");
    assert(image_ref(Channel::Stable) =~= "ghcr.io/home-assistant/home-assistant:stable"@);
    assert(image_ref(Channel::Beta) =~= "ghcr.io/home-assistant/home-assistant:beta"@);
    assert(image_ref(Channel::Dev) =~= "ghcr.io/home-assistant/home-assistant:dev"@);
}

/// A restore checks for the tarball it was given, creates the config path it
/// was given, and unpacks that tarball into that same config path, the one
/// its report names.
pub proof fn restore_extracts_into_its_config_path(args: HaRestoreArgs)
    ensures
        restore_actions(args).len() == 3,
        restore_actions(args)[0] == (ActionView::Require {
            probe: ProbeView::IsFile(args.from@),
            unmet: ErrorView::TarballNotFound { path: args.from@ },
        }),
        restore_actions(args)[1] == ActionView::Run(
            command("mkdir"@, seq!["-p"@, args.config_path@]),
        ),
        restore_actions(args)[2] == ActionView::Run(
            command("tar"@, seq!["-xzf"@, args.from@, "-C"@, args.config_path@]),
        ),
{
}

} // verus!
