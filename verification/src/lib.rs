//! A rootless Linux runtime for Android: configuration, engine selection,
//! syscall policy and the plans that the platform layer carries out.
use vstd::prelude::*;

pub mod container;
pub mod engine;
pub mod errno;
pub mod fs;
pub mod gui;
pub mod ipc;
pub mod namespace;
pub mod net;
pub mod platform;
pub mod security;
pub mod syscall;
pub mod text;
pub mod util;

use crate::engine::{EngineAvailability, EngineError, EngineKind};

verus! {

/// Runtime version.
pub const VERSION: &'static str = "0.1.0";

/// Codename.
pub const CODENAME: &'static str = "AstraShell";

/// Lowest supported Android API level.
pub const MIN_ANDROID_API: u32 = 30;

/// Default rootfs path.
pub const DEFAULT_ROOTFS: &'static str = "@astrashell_rootfs@";

/// Runtime configuration.
#[derive(Debug, Clone)]
pub struct Config {
    pub runtime: RuntimeConfig,
    pub engine: EngineConfig,
    pub filesystem: FilesystemConfig,
    pub network: NetworkConfig,
    pub security: SecurityConfig,
    pub gui: GuiConfig,
    pub logging: LogConfig,
}

#[derive(Debug, Clone)]
pub struct RuntimeConfig {
    pub rootfs: String,
    pub tmpdir: String,
    pub workdir: String,
    pub hostname: String,
    pub dns: Vec<String>,
    pub env: Vec<String>,
    pub uid_map: Option<String>,
    pub gid_map: Option<String>,
    pub capabilities: Vec<String>,
}

#[derive(Debug, Clone)]
pub struct EngineConfig {
    pub mode: ExecutionMode,
    pub autodetect: bool,
    pub max_containers: u32,
    pub default_timeout_ms: u64,
    pub pid1: String,
    pub init_system: InitSystem,
}

/// How workloads are run.
#[derive(Debug, Clone, Copy, PartialEq, Eq, Structural)]
pub enum ExecutionMode {
    /// Native fast path: LD_PRELOAD and seccomp user notification.
    Native,
    /// Full namespace isolation.
    Container,
    /// AVF-backed microVM.
    MicroVM,
    /// Pick the best available mode.
    Auto,
}

#[derive(Debug, Clone, PartialEq)]
pub enum InitSystem {
    /// No init system.
    NoInit,
    Systemd,
    OpenRC,
    Runit,
    S6,
    Custom(String),
}

#[derive(Debug, Clone)]
pub struct FilesystemConfig {
    pub overlay: bool,
    pub upper_dir: Option<String>,
    pub work_dir: Option<String>,
    pub fuse: bool,
    pub bind_mounts: Vec<String>,
    pub tmpfs: Vec<String>,
    pub proc: bool,
    pub sys: bool,
    pub dev: bool,
    pub pts: bool,
    pub shm_size: String,
}

#[derive(Debug, Clone)]
pub struct NetworkConfig {
    pub enabled: bool,
    pub type_: NetworkType,
    pub port_forwards: Vec<String>,
    pub dns: Vec<String>,
    pub mtu: u32,
    pub bridge: Option<String>,
}

#[derive(Debug, Clone, Copy, PartialEq, Eq, Structural)]
pub enum NetworkType {
    /// No network.
    NoNetwork,
    Host,
    Nat,
    Bridged,
    Slirp,
    Vsock,
}

#[derive(Debug, Clone)]
pub struct SecurityConfig {
    pub seccomp_profile: String,
    pub capabilities: Vec<String>,
    pub no_new_privs: bool,
    pub readonly_rootfs: bool,
    pub mask_paths: Vec<String>,
    pub landlock: bool,
    pub apparmor_profile: Option<String>,
}

#[derive(Debug, Clone)]
pub struct GuiConfig {
    pub enabled: bool,
    pub display: DisplayServer,
    pub width: u32,
    pub height: u32,
    pub dpi: u32,
    pub vulkan: bool,
    pub opengl: bool,
    pub clipboard: bool,
    pub audio: bool,
}

#[derive(Debug, Clone, Copy, PartialEq, Eq, Structural)]
pub enum DisplayServer {
    /// No display.
    NoDisplay,
    Wayland,
    X11,
    Web,
    AndroidSurface,
}

#[derive(Debug, Clone)]
pub struct LogConfig {
    pub level: String,
    pub file: Option<String>,
    pub json: bool,
    pub android_log: bool,
}

/// The views of a list of strings.
pub open spec fn string_views(v: Vec<String>) -> Seq<Seq<char>> {
    v@.map_values(|s: String| s@)
}

/// The default runtime section.
pub open spec fn default_runtime(r: RuntimeConfig) -> bool {
    &&& r.rootfs@ == DEFAULT_ROOTFS@
    &&& r.tmpdir@ == "/tmp"@
    &&& r.workdir@ == "/home/astra"@
    &&& r.hostname@ == "astrashell"@
    &&& string_views(r.dns) == seq!["8.8.8.8"@, "1.1.1.1"@]
    &&& string_views(r.env) == seq!["PATH=/usr/local/sbin:/usr/local/bin:/usr/sbin:/usr/bin:/sbin:/bin"@]
    &&& r.uid_map is None
    &&& r.gid_map is None
    &&& r.capabilities@.len() == 0
}

/// The default engine section.
pub open spec fn default_engine(e: EngineConfig) -> bool {
    &&& e.mode == ExecutionMode::Auto
    &&& e.autodetect
    &&& e.max_containers == 4
    &&& e.default_timeout_ms == 30000
    &&& e.pid1@ == "/sbin/init"@
    &&& e.init_system == InitSystem::NoInit
}

/// The default filesystem section.
pub open spec fn default_filesystem(f: FilesystemConfig) -> bool {
    &&& f.overlay
    &&& f.upper_dir is None
    &&& f.work_dir is None
    &&& !f.fuse
    &&& f.bind_mounts@.len() == 0
    &&& string_views(f.tmpfs) == seq!["/tmp"@, "/run"@]
    &&& f.proc && f.sys && f.dev && f.pts
    &&& f.shm_size@ == "64M"@
}

/// The default network section.
pub open spec fn default_network(n: NetworkConfig) -> bool {
    &&& n.enabled
    &&& n.type_ == NetworkType::Slirp
    &&& n.port_forwards@.len() == 0
    &&& string_views(n.dns) == seq!["8.8.8.8"@, "1.1.1.1"@]
    &&& n.mtu == 1500
    &&& n.bridge is None
}

/// The default security section.
pub open spec fn default_security(s: SecurityConfig) -> bool {
    &&& s.seccomp_profile@ == "default.json"@
    &&& s.capabilities@.len() == 0
    &&& s.no_new_privs
    &&& !s.readonly_rootfs
    &&& s.mask_paths@.len() == 0
    &&& !s.landlock
    &&& s.apparmor_profile is None
}

/// The default display section.
pub open spec fn default_gui(g: GuiConfig) -> bool {
    &&& !g.enabled
    &&& g.display == DisplayServer::NoDisplay
    &&& g.width == 1080
    &&& g.height == 1920
    &&& g.dpi == 320
    &&& !g.vulkan && !g.opengl && !g.clipboard && !g.audio
}

/// The default logging section.
pub open spec fn default_logging(l: LogConfig) -> bool {
    &&& l.level@ == "info"@
    &&& l.file is None
    &&& !l.json
    &&& l.android_log
}

/// The default configuration, section by section.
pub open spec fn is_default_config(c: Config) -> bool {
    &&& default_runtime(c.runtime)
    &&& default_engine(c.engine)
    &&& default_filesystem(c.filesystem)
    &&& default_network(c.network)
    &&& default_security(c.security)
    &&& default_gui(c.gui)
    &&& default_logging(c.logging)
}

fn two_strings(a: &str, b: &str) -> (r: Vec<String>)
    ensures
        string_views(r) == seq![a@, b@],
{
    let mut v: Vec<String> = Vec::new();
    v.push(text::owned(a));
    v.push(text::owned(b));
    assert(string_views(v) =~= seq![a@, b@]);
    v
}

fn default_runtime_config() -> (r: RuntimeConfig)
    ensures
        default_runtime(r),
{
    let mut env: Vec<String> = Vec::new();
    env.push(text::owned("PATH=/usr/local/sbin:/usr/local/bin:/usr/sbin:/usr/bin:/sbin:/bin"));
    assert(string_views(env) =~= seq!["PATH=/usr/local/sbin:/usr/local/bin:/usr/sbin:/usr/bin:/sbin:/bin"@]);
    RuntimeConfig {
        rootfs: text::owned(DEFAULT_ROOTFS),
        tmpdir: text::owned("/tmp"),
        workdir: text::owned("/home/astra"),
        hostname: text::owned("astrashell"),
        dns: two_strings("8.8.8.8", "1.1.1.1"),
        env,
        uid_map: None,
        gid_map: None,
        capabilities: Vec::new(),
    }
}

impl Default for Config {
    fn default() -> (r: Self)
        ensures
            is_default_config(r),
    {
        Config {
            runtime: default_runtime_config(),
            engine: EngineConfig {
                mode: ExecutionMode::Auto,
                autodetect: true,
                max_containers: 4,
                default_timeout_ms: 30000,
                pid1: text::owned("/sbin/init"),
                init_system: InitSystem::NoInit,
            },
            filesystem: FilesystemConfig {
                overlay: true,
                upper_dir: None,
                work_dir: None,
                fuse: false,
                bind_mounts: Vec::new(),
                tmpfs: two_strings("/tmp", "/run"),
                proc: true,
                sys: true,
                dev: true,
                pts: true,
                shm_size: text::owned("64M"),
            },
            network: NetworkConfig {
                enabled: true,
                type_: NetworkType::Slirp,
                port_forwards: Vec::new(),
                dns: two_strings("8.8.8.8", "1.1.1.1"),
                mtu: 1500,
                bridge: None,
            },
            security: SecurityConfig {
                seccomp_profile: text::owned("default.json"),
                capabilities: Vec::new(),
                no_new_privs: true,
                readonly_rootfs: false,
                mask_paths: Vec::new(),
                landlock: false,
                apparmor_profile: None,
            },
            gui: GuiConfig {
                enabled: false,
                display: DisplayServer::NoDisplay,
                width: 1080,
                height: 1920,
                dpi: 320,
                vulkan: false,
                opengl: false,
                clipboard: false,
                audio: false,
            },
            logging: LogConfig {
                level: text::owned("info"),
                file: None,
                json: false,
                android_log: true,
            },
        }
    }
}

/// The execution mode that a command-line name selects: "native",
/// "container", and "vm", "avf" or "microvm" for the microVM; any other
/// name selects Auto.
pub open spec fn mode_named(s: Seq<char>) -> ExecutionMode {
    if s == "native"@ {
        ExecutionMode::Native
    } else if s == "container"@ {
        ExecutionMode::Container
    } else if s == "vm"@ || s == "avf"@ || s == "microvm"@ {
        ExecutionMode::MicroVM
    } else {
        ExecutionMode::Auto
    }
}

/// The execution mode selected by a command-line name.
pub fn mode_from_name(name: &str) -> (r: ExecutionMode)
    ensures
        r == mode_named(name@),
{
    if text::str_eq(name, "native") {
        ExecutionMode::Native
    } else if text::str_eq(name, "container") {
        ExecutionMode::Container
    } else if text::str_eq(name, "vm") || text::str_eq(name, "avf") || text::str_eq(name, "microvm") {
        ExecutionMode::MicroVM
    } else {
        ExecutionMode::Auto
    }
}

/// Each engine's own name selects the mode that asks for that engine:
/// "native" the native mode, "container" the container mode, "avf" the
/// microVM mode; "vm" and "microvm" select the microVM mode too, and the
/// modes' names are distinct, so no name selects another engine's mode.
pub proof fn law_engine_name_selects_its_mode(m: ExecutionMode)
    requires
        m != ExecutionMode::Auto,
    ensures
        mode_named(engine::kind_name(engine::kind_for_mode(m))) == m,
        mode_named("vm"@) == ExecutionMode::MicroVM,
        mode_named("microvm"@) == ExecutionMode::MicroVM,
        mode_named("auto"@) == ExecutionMode::Auto,
{
    reveal_strlit("native");
    reveal_strlit("container");
    reveal_strlit("vm");
    reveal_strlit("avf");
    reveal_strlit("microvm");
    reveal_strlit("auto");
    assert("avf"@[0] != "native"@[0]);
    assert("vm"@.len() != "native"@.len() && "vm"@.len() != "container"@.len());
    assert("microvm"@[0] != "native"@[0]);
    assert("auto"@[1] != "avf"@[1] && "auto"@[0] != "native"@[0] && "auto"@[0] != "container"@[0]);
    assert("auto"@.len() != "vm"@.len() && "auto"@.len() != "microvm"@.len());
}

/// The life cycle of a runtime.
pub enum RuntimeState {
    Initializing,
    Running,
    Stopped,
    Error(String),
}

/// The status text of a state.
pub open spec fn status_text(s: RuntimeState) -> Seq<char> {
    match s {
        RuntimeState::Initializing => "initializing"@,
        RuntimeState::Running => "running"@,
        RuntimeState::Stopped => "stopped"@,
        RuntimeState::Error(e) => e@,
    }
}

/// A runtime handle: its configuration, the engine chosen for it, and its
/// state.
pub struct AstraShell {
    pub config: Config,
    pub engine: EngineKind,
    pub state: RuntimeState,
}

/// The runtime after `init` with the probes' answers `a`: the engine that
/// the selection picks, running, or the runtime unchanged when none fits.
pub open spec fn after_init(s: AstraShell, a: EngineAvailability) -> AstraShell {
    match engine::detected(s.config.engine.mode, a) {
        Ok(k) => AstraShell { config: s.config, engine: k, state: RuntimeState::Running },
        Err(_) => s,
    }
}

/// The runtime after one `init` for each of the probes' answers, in order.
pub open spec fn after_inits(s: AstraShell, probes: Seq<EngineAvailability>) -> AstraShell
    decreases probes.len(),
{
    if probes.len() == 0 {
        s
    } else {
        after_inits(after_init(s, probes[0]), probes.skip(1))
    }
}

/// The configuration a runtime was made with is the one it reports: no
/// sequence of `init` calls changes it, whatever the probes answered
/// (`config` reads it, and only `config_mut` can change it).
pub proof fn law_config_preserved(s: AstraShell, probes: Seq<EngineAvailability>)
    ensures
        after_inits(s, probes).config == s.config,
    decreases probes.len(),
{
    if probes.len() > 0 {
        law_config_preserved(after_init(s, probes[0]), probes.skip(1));
    }
}

impl AstraShell {
    /// A runtime that has not chosen an engine yet.
    pub fn new(config: Config) -> (r: Self)
        ensures
            r.config == config,
            r.engine == EngineKind::Null,
            r.state is Initializing,
    {
        Self { config, engine: EngineKind::Null, state: RuntimeState::Initializing }
    }

    /// Choose the engine from what the availability probes reported, and
    /// start running. When no suitable engine is available the runtime
    /// stays as it was and the error is returned.
    pub fn init(&mut self, availability: &EngineAvailability) -> (r: Result<(), EngineError>)
        ensures
            *final(self) == after_init(*old(self), *availability),
            final(self).config == old(self).config,
            r is Ok ==> status_text(final(self).state) == "running"@,
            match engine::detected(old(self).config.engine.mode, *availability) {
                Ok(k) => r is Ok && final(self).engine == k && final(self).state is Running,
                Err(e) => r == Err::<(), EngineError>(e) && final(self).engine == old(self).engine
                    && final(self).state == old(self).state,
            },
    {
        let chosen = engine::detect_best(&self.config, availability);
        match chosen {
            Ok(k) => {
                self.engine = k;
                self.state = RuntimeState::Running;
                Ok(())
            },
            Err(e) => Err(e),
        }
    }

    /// The engine that `run` starts: the chosen one, or an error when no
    /// engine was chosen (the null engine runs nothing).
    pub fn engine_to_run(&self) -> (r: Result<EngineKind, EngineError>)
        ensures
            self.engine is Null ==> r == Err::<EngineKind, EngineError>(EngineError::NotConfigured),
            !(self.engine is Null) ==> r == Ok::<EngineKind, EngineError>(self.engine),
    {
        match self.engine {
            EngineKind::Null => Err(EngineError::NotConfigured),
            k => Ok(k),
        }
    }

    pub fn config(&self) -> (r: &Config)
        ensures
            *r == self.config,
    {
        &self.config
    }

    pub fn config_mut(&mut self) -> (r: &mut Config)
        ensures
            *r == old(self).config,
            final(self).config == *final(r),
            final(self).engine == old(self).engine,
            final(self).state == old(self).state,
    {
        &mut self.config
    }

    pub fn status(&self) -> (r: &str)
        ensures
            r@ == status_text(self.state),
    {
        match &self.state {
            RuntimeState::Initializing => "initializing",
            RuntimeState::Running => "running",
            RuntimeState::Stopped => "stopped",
            RuntimeState::Error(e) => e.as_str(),
        }
    }
}

} // verus!
