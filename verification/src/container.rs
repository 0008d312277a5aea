//! The container supervisor's rules: which directories the guest's root
//! must hold, what it takes to start the guest, and how the guest's `init`
//! is launched. Creating directories and spawning the process is left to
//! the daemon.

use crate::text::{below, decimal, decimal_text, path_below};
use vstd::prelude::*;
use vstd::string::{StrSliceExecFns, StringExecFns};

verus! {

/// The directories that the daemon makes sure of below the guest's root,
/// in the order in which it does: where the sockets and device files of the
/// guest come to lie.
pub open spec fn skeleton_names() -> Seq<Seq<char>> {
    seq![
        "dev/input"@,
        "dev/socket"@,
        "dev/maps"@,
        "dev/vbinder"@,
        "dev/vndbinder"@,
        "dev/hwbinder"@,
        "dev/graphics"@,
        "dev/shm"@,
        "data/system"@,
    ]
}

/// The directories to make sure of, as paths below `rootfs`.
pub open spec fn skeleton_paths(rootfs: Seq<char>) -> Seq<Seq<char>> {
    Seq::new(skeleton_names().len(), |i: int| below(rootfs, skeleton_names()[i]))
}

/// The views of a list of strings.
pub open spec fn texts(list: Seq<String>) -> Seq<Seq<char>> {
    Seq::new(list.len(), |i: int| list[i]@)
}

/// The directories to make sure of, as paths below `rootfs`.
pub fn rootfs_skeleton(rootfs: &str) -> (dirs: Vec<String>)
    ensures
        texts(dirs@) == skeleton_paths(rootfs@),
{
    let mut dirs: Vec<String> = Vec::new();
    dirs.push(path_below(rootfs, "dev/input"));
    dirs.push(path_below(rootfs, "dev/socket"));
    dirs.push(path_below(rootfs, "dev/maps"));
    dirs.push(path_below(rootfs, "dev/vbinder"));
    dirs.push(path_below(rootfs, "dev/vndbinder"));
    dirs.push(path_below(rootfs, "dev/hwbinder"));
    dirs.push(path_below(rootfs, "dev/graphics"));
    dirs.push(path_below(rootfs, "dev/shm"));
    dirs.push(path_below(rootfs, "data/system"));
    dirs
}

/// What became of one directory of the skeleton.
#[derive(Debug, Clone, Copy, PartialEq, Eq, Structural)]
pub enum DirOutcome {
    /// It was there already.
    Existed,
    /// It was created.
    Created,
    /// It could not be created.
    Failed,
}

/// How many of `outcomes` are `which`.
pub open spec fn count_outcomes(outcomes: Seq<DirOutcome>, which: DirOutcome) -> nat
    decreases outcomes.len(),
{
    if outcomes.len() == 0 {
        0
    } else {
        count_outcomes(outcomes.drop_last(), which) + (if outcomes.last() == which {
            1nat
        } else {
            0nat
        })
    }
}

/// No more outcomes are counted than there are.
pub proof fn lemma_count_outcomes_bound(outcomes: Seq<DirOutcome>, which: DirOutcome)
    ensures
        count_outcomes(outcomes, which) <= outcomes.len(),
    decreases outcomes.len(),
{
    if outcomes.len() > 0 {
        lemma_count_outcomes_bound(outcomes.drop_last(), which);
    }
}

/// What the setup of the skeleton reports.
#[derive(Debug, Clone, Copy, PartialEq, Eq, Structural)]
pub struct SetupReport {
    pub created: usize,
    pub existed: usize,
    pub failed: usize,
}

/// Sums up the setup of the skeleton. A directory that could not be created
/// is counted and does not stop the setup.
pub fn setup_report(outcomes: &[DirOutcome]) -> (report: SetupReport)
    ensures
        report.created == count_outcomes(outcomes@, DirOutcome::Created),
        report.existed == count_outcomes(outcomes@, DirOutcome::Existed),
        report.failed == count_outcomes(outcomes@, DirOutcome::Failed),
{
    let mut report = SetupReport { created: 0, existed: 0, failed: 0 };
    let mut i: usize = 0;
    while i < outcomes.len()
        invariant
            i <= outcomes.len(),
            report.created == count_outcomes(outcomes@.subrange(0, i as int), DirOutcome::Created),
            report.existed == count_outcomes(outcomes@.subrange(0, i as int), DirOutcome::Existed),
            report.failed == count_outcomes(outcomes@.subrange(0, i as int), DirOutcome::Failed),
        decreases outcomes.len() - i,
    {
        proof {
            let next = outcomes@.subrange(0, i + 1);
            assert(next.drop_last() =~= outcomes@.subrange(0, i as int));
            lemma_count_outcomes_bound(outcomes@.subrange(0, i as int), DirOutcome::Created);
            lemma_count_outcomes_bound(outcomes@.subrange(0, i as int), DirOutcome::Existed);
            lemma_count_outcomes_bound(outcomes@.subrange(0, i as int), DirOutcome::Failed);
        }
        match outcomes[i] {
            DirOutcome::Existed => {
                report.existed += 1;
            },
            DirOutcome::Created => {
                report.created += 1;
            },
            DirOutcome::Failed => {
                report.failed += 1;
            },
        }
        i += 1;
    }
    assert(outcomes@.subrange(0, outcomes@.len() as int) =~= outcomes@);
    report
}

/// Why the daemon cannot start.
#[derive(Debug, Clone, Copy, PartialEq, Eq, Structural)]
pub enum ConfigError {
    /// The guest's root directory is not there.
    RootfsMissing,
    /// The guest's root holds no `init`.
    InitMissing,
}

/// Exit code of a daemon that cannot start.
pub const EXIT_CONFIG: i32 = 1;

/// Where the guest's `init` lies.
pub fn init_path(rootfs: &str) -> (p: String)
    ensures
        p@ == below(rootfs@, "init"@),
{
    path_below(rootfs, "init")
}

/// Checks what the daemon needs before it starts: the guest's root, and
/// `init` in it. A missing root is reported before a missing `init`.
pub fn validate_rootfs(rootfs_exists: bool, init_exists: bool) -> (r: Result<(), ConfigError>)
    ensures
        r is Ok <==> rootfs_exists && init_exists,
        r == Err::<(), ConfigError>(ConfigError::RootfsMissing) <==> !rootfs_exists,
        r == Err::<(), ConfigError>(ConfigError::InitMissing) <==> rootfs_exists && !init_exists,
{
    if !rootfs_exists {
        Err(ConfigError::RootfsMissing)
    } else if !init_exists {
        Err(ConfigError::InitMissing)
    } else {
        Ok(())
    }
}

/// Where the guest's output goes.
#[derive(Debug, Clone, Copy, PartialEq, Eq, Structural)]
pub enum StdioMode {
    /// Line by line into the daemon's own log.
    Piped,
    /// Into the log file, which is emptied first.
    LogFile,
}

/// What the daemon was told about the guest.
pub struct ContainerConfig {
    pub rootfs: String,
    pub loader: Option<String>,
    pub width: i32,
    pub height: i32,
    pub dpi: i32,
    pub verbose: bool,
    pub gralloc_socket: Option<String>,
}

/// One variable of the guest's environment.
pub struct EnvVar {
    pub name: String,
    pub value: String,
}

impl View for EnvVar {
    type V = (Seq<char>, Seq<char>);

    open spec fn view(&self) -> (Seq<char>, Seq<char>) {
        (self.name@, self.value@)
    }
}

/// The views of a list of variables.
pub open spec fn env_view(env: Seq<EnvVar>) -> Seq<(Seq<char>, Seq<char>)> {
    Seq::new(env.len(), |i: int| env[i]@)
}

/// How to launch the guest.
pub struct ContainerPlan {
    pub program: String,
    pub working_dir: String,
    pub env: Vec<EnvVar>,
    pub log_path: String,
    pub stdio: StdioMode,
}

/// The text of an optional string.
pub open spec fn text_of(s: Option<String>) -> Option<Seq<char>> {
    match s {
        Some(t) => Some(t@),
        None => None,
    }
}

/// Whether `path` is absolute: it starts at the root.
pub open spec fn is_absolute(path: Seq<char>) -> bool {
    path.len() > 0 && path[0] == '/'
}

/// Whether `path` is absolute.
pub fn path_is_absolute(path: &str) -> (r: bool)
    ensures
        r == is_absolute(path@),
{
    if path.is_empty() {
        false
    } else {
        path.get_char(0) == '/'
    }
}

/// The variables that are added to the guest's environment: the loader
/// where one is set, the display's size and density, the switch for ADB, and
/// the allocator's socket where there is one. The socket is announced by
/// its absolute path only: a path that is not absolute is not announced.
pub open spec fn guest_env(
    loader: Option<Seq<char>>,
    width: i32,
    height: i32,
    dpi: i32,
    gralloc_socket: Option<Seq<char>>,
) -> Seq<(Seq<char>, Seq<char>)> {
    (match loader {
        Some(path) => seq![("TYLOADER"@, path)],
        None => Seq::empty(),
    }) + seq![
        ("REDROID_WIDTH"@, decimal_text(width as int)),
        ("REDROID_HEIGHT"@, decimal_text(height as int)),
        ("REDROID_DPI"@, decimal_text(dpi as int)),
        ("REDROID_ADB_ENABLED"@, "1"@),
    ] + (match gralloc_socket {
        Some(path) => if is_absolute(path) {
            seq![("TWOYI_GRALLOC_SOCKET"@, path)]
        } else {
            Seq::empty()
        },
        None => Seq::empty(),
    })
}

/// Where the guest's log file lies: beside the guest's root, or in `/tmp`
/// where the root has no directory above it.
pub open spec fn log_path_text(rootfs_parent: Option<Seq<char>>) -> Seq<char> {
    match rootfs_parent {
        Some(dir) => below(dir, "log.txt"@),
        None => "/tmp/twoyi_log.txt"@,
    }
}

/// Where the guest's log file lies; `rootfs_parent` is the directory above
/// the guest's root, if there is one.
pub fn container_log_path(rootfs_parent: Option<&str>) -> (p: String)
    ensures
        p@ == log_path_text(
            match rootfs_parent {
                Some(dir) => Some(dir@),
                None => None,
            },
        ),
{
    match rootfs_parent {
        Some(dir) => path_below(dir, "log.txt"),
        None => String::from_str("/tmp/twoyi_log.txt"),
    }
}

fn env_var(name: &str, value: &str) -> (v: EnvVar)
    ensures
        v@ == (name@, value@),
{
    EnvVar { name: String::from_str(name), value: String::from_str(value) }
}

/// Plans the launch of the guest's `init`: it runs as `./init` in the
/// guest's root, with the variables of [`guest_env`] added to its
/// environment, and its output goes to the daemon's log when `verbose` is
/// set and to the log file otherwise.
pub fn start_container(config: &ContainerConfig, rootfs_parent: Option<&str>) -> (plan:
    ContainerPlan)
    ensures
        plan.program@ == "./init"@,
        plan.working_dir@ == config.rootfs@,
        env_view(plan.env@) == guest_env(
            text_of(config.loader),
            config.width,
            config.height,
            config.dpi,
            text_of(config.gralloc_socket),
        ),
        plan.log_path@ == log_path_text(
            match rootfs_parent {
                Some(dir) => Some(dir@),
                None => None,
            },
        ),
        plan.stdio == if config.verbose {
            StdioMode::Piped
        } else {
            StdioMode::LogFile
        },
{
    let mut env: Vec<EnvVar> = Vec::new();
    match &config.loader {
        Some(path) => {
            env.push(env_var("TYLOADER", path.as_str()));
        },
        None => {},
    }
    env.push(env_var("REDROID_WIDTH", decimal(config.width).as_str()));
    env.push(env_var("REDROID_HEIGHT", decimal(config.height).as_str()));
    env.push(env_var("REDROID_DPI", decimal(config.dpi).as_str()));
    env.push(env_var("REDROID_ADB_ENABLED", "1"));
    match &config.gralloc_socket {
        Some(path) => {
            if path_is_absolute(path.as_str()) {
                env.push(env_var("TWOYI_GRALLOC_SOCKET", path.as_str()));
            }
        },
        None => {},
    }
    ContainerPlan {
        program: String::from_str("./init"),
        working_dir: String::from_str(config.rootfs.as_str()),
        env,
        log_path: container_log_path(rootfs_parent),
        stdio: if config.verbose {
            StdioMode::Piped
        } else {
            StdioMode::LogFile
        },
    }
}

} // verus!
