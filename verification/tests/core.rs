use astrashell::engine::{detect_best, next_step, probes_for, EngineAvailability, EngineError, EngineKind, StepProgress};
use astrashell::{Config, DisplayServer, ExecutionMode, NetworkType};

fn all_available() -> EngineAvailability {
    EngineAvailability { avf: true, container: true, native: true }
}

#[test]
fn test_config_default() {
    let config = Config::default();
    assert_eq!(config.runtime.hostname, "astrashell");
    assert_eq!(config.engine.mode, ExecutionMode::Auto);
    assert!(config.network.enabled);
}

#[test]
fn test_engine_detect() {
    let config = Config::default();
    let none = EngineAvailability { avf: false, container: false, native: false };
    let result = detect_best(&config, &none);
    assert!(result.is_ok() || result.is_err());
    assert_eq!(result, Err(EngineError::NoneAvailable));
}

#[test]
fn test_overlay_config() {
    let config = Config::default();
    assert!(config.filesystem.overlay);
    assert_eq!(config.filesystem.tmpfs.len(), 2);
}

#[test]
fn test_security_config() {
    let config = Config::default();
    assert!(config.security.no_new_privs);
    assert_eq!(config.security.seccomp_profile, "default.json");
}

#[test]
fn test_syscall_numbers() {
    assert_eq!(astrashell::syscall::arm64::READ, 63);
    assert_eq!(astrashell::syscall::arm64::WRITE, 64);
    assert_eq!(astrashell::syscall::arm64::OPENAT, 56);
    assert_eq!(astrashell::syscall::arm64::EXECVE, 221);
}

#[test]
fn test_network_config() {
    let config = Config::default();
    assert_eq!(config.network.type_, NetworkType::Slirp);
    assert!(config.network.port_forwards.is_empty());
}

#[test]
fn test_gui_config() {
    let config = Config::default();
    assert!(!config.gui.enabled);
    assert_eq!(config.gui.display, DisplayServer::NoDisplay);
}

#[test]
fn test_namespace_user() {
    let ns = astrashell::namespace::user::UserNamespace::new(Some("0 1000 1"), None);
    assert!(ns.uid_map.is_some());
}

#[test]
fn test_oci_runtime() {
    let _runtime = astrashell::container::oci::OCIRuntime::new();
    let parsed = astrashell::container::oci::OCIRuntime::parse_image_ref("ubuntu:latest");
    assert!(parsed.is_ok());
    if let Ok((_registry, _repo, tag)) = parsed {
        assert_eq!(tag, "latest");
    }
}

#[test]
fn test_seccomp_profile() {
    let profile = astrashell::security::seccomp::SeccompProfile::new("default.json");
    let filter = profile.get_filter();
    assert!(filter.is_ok());
}

#[test]
fn test_capabilities() {
    let caps = astrashell::security::capabilities::get_emulated_caps();
    assert!(!caps.is_empty());
    assert!(caps[0] & (1 << 0) != 0);
}

#[test]
fn test_lib_version() {
    assert_eq!(astrashell::VERSION, "0.1.0");
    assert_eq!(astrashell::MIN_ANDROID_API, 30);
}

#[test]
fn default_config_sections() {
    let c = Config::default();
    assert_eq!(c.runtime.rootfs, astrashell::DEFAULT_ROOTFS);
    assert_eq!(c.runtime.dns, vec!["8.8.8.8".to_string(), "1.1.1.1".to_string()]);
    assert_eq!(c.runtime.env, vec!["PATH=/usr/local/sbin:/usr/local/bin:/usr/sbin:/usr/bin:/sbin:/bin".to_string()]);
    assert_eq!(c.engine.max_containers, 4);
    assert_eq!(c.engine.default_timeout_ms, 30000);
    assert_eq!(c.engine.pid1, "/sbin/init");
    assert_eq!(c.engine.init_system, astrashell::InitSystem::NoInit);
    assert_eq!(c.filesystem.tmpfs, vec!["/tmp".to_string(), "/run".to_string()]);
    assert_eq!(c.filesystem.shm_size, "64M");
    assert_eq!(c.network.mtu, 1500);
    assert_eq!((c.gui.width, c.gui.height, c.gui.dpi), (1080, 1920, 320));
    assert_eq!(c.logging.level, "info");
    assert!(c.logging.android_log);
}

#[test]
fn detect_auto_prefers_highest_priority() {
    let config = Config::default();
    assert_eq!(detect_best(&config, &all_available()), Ok(EngineKind::Avf));
    let no_vm = EngineAvailability { avf: false, container: true, native: true };
    assert_eq!(detect_best(&config, &no_vm), Ok(EngineKind::Container));
    let native_only = EngineAvailability { avf: false, container: false, native: true };
    assert_eq!(detect_best(&config, &native_only), Ok(EngineKind::Native));
}

#[test]
fn detect_explicit_mode() {
    let mut config = Config::default();
    config.engine.mode = ExecutionMode::Native;
    assert_eq!(detect_best(&config, &all_available()), Ok(EngineKind::Native));
    let no_native = EngineAvailability { avf: true, container: true, native: false };
    assert_eq!(detect_best(&config, &no_native), Err(EngineError::NotAvailable(ExecutionMode::Native)));
    config.engine.mode = ExecutionMode::MicroVM;
    assert_eq!(detect_best(&config, &all_available()), Ok(EngineKind::Avf));
    assert_eq!(probes_for(ExecutionMode::MicroVM), vec![EngineKind::Avf]);
    assert_eq!(probes_for(ExecutionMode::Auto), vec![EngineKind::Avf, EngineKind::Container, EngineKind::Native]);
}

#[test]
fn engine_names_and_priorities() {
    assert_eq!(EngineKind::Avf.name(), "avf");
    assert_eq!(EngineKind::Container.priority(), 20);
    assert_eq!(EngineKind::Native.priority(), 10);
    assert_eq!(EngineKind::Null.name(), "null");
}

#[test]
fn start_sequence_progress() {
    assert_eq!(next_step(0, 3, true), StepProgress::Next(1));
    assert_eq!(next_step(1, 3, false), StepProgress::Failed(1));
    assert_eq!(next_step(2, 3, true), StepProgress::Finished);
    assert_eq!(next_step(0, 1, false), StepProgress::Failed(0));
    let results = [true, true, false, true];
    let mut i = 0;
    let end = loop {
        match next_step(i, results.len(), results[i]) {
            StepProgress::Next(j) => i = j,
            other => break other,
        }
    };
    assert_eq!(end, StepProgress::Failed(2));
}

#[test]
fn config_survives_repeated_init() {
    let mut config = Config::default();
    config.runtime.hostname = "kept".to_string();
    config.engine.mode = ExecutionMode::Container;
    let mut runtime = astrashell::AstraShell::new(config);
    let none = EngineAvailability { avf: false, container: false, native: false };
    assert!(runtime.init(&none).is_err());
    assert!(runtime.init(&all_available()).is_ok());
    assert!(runtime.init(&none).is_err());
    assert_eq!(runtime.config().runtime.hostname, "kept");
    assert_eq!(runtime.engine, EngineKind::Container);
    assert_eq!(runtime.status(), "running");
}
