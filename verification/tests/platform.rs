use astrashell::container::oci::{ImageStore, OCIRuntime, OciError};
use astrashell::engine::container::{ContainerEngine, ContainerStep};
use astrashell::engine::native::{NativeEngine, NativeStep};
use astrashell::engine::vm::AVFEngine;
use astrashell::engine::split_env_entry;
use astrashell::ipc::bus::IpcBus;
use astrashell::net::slirp::SlirpNetwork;
use astrashell::platform::android::{api_level_from, parse_i32};
use astrashell::util::elf::{analyze_elf_bytes, Abi, ElfClass, ElfError};
use astrashell::util::kernel::{landlock_probe, lists_overlayfs, ns_kind, seccomp_notify_probe, seccomp_probe, setting_is, trim, unshare_probe, userns_from_settings, NsKind};
use astrashell::util::path::{expand_home, which_or};
use astrashell::{mode_from_name, Config, ExecutionMode, NetworkType};

#[test]
fn image_references() {
    let (r, repo, tag) = OCIRuntime::parse_image_ref("ghcr.io/org/app:1.2").unwrap();
    assert_eq!((r.as_str(), repo.as_str(), tag.as_str()), ("ghcr.io", "org/app", "1.2"));
    let (r, repo, tag) = OCIRuntime::parse_image_ref("quay.io/app").unwrap();
    assert_eq!((r.as_str(), repo.as_str(), tag.as_str()), ("quay.io", "app", "latest"));
    let (r, repo, tag) = OCIRuntime::parse_image_ref("ubuntu:22.04").unwrap();
    assert_eq!((r.as_str(), repo.as_str(), tag.as_str()), ("docker.io", "ubuntu:22.04", "latest"));
    assert!(matches!(OCIRuntime::new().pull_image("alpine"), Err(OciError::PullNotImplemented)));
    assert_eq!(OCIRuntime::layer_path("/t", 12), "/t/.layers/12");
}

#[test]
fn image_store_names() {
    let store = ImageStore::new("/store");
    assert_eq!(store.image_path("arch"), "/store/arch.json");
    assert_eq!(ImageStore::image_name("arch.json").as_deref(), Some("arch"));
    assert_eq!(ImageStore::image_name("a.json.json").as_deref(), Some("a"));
    assert_eq!(ImageStore::image_name("readme.txt"), None);
}

#[test]
fn engine_steps() {
    let mut c = Config::default();
    assert_eq!(NativeEngine::start_steps(&c), vec![
        NativeStep::MountOverlay, NativeStep::SetupMounts, NativeStep::AttachSeccomp, NativeStep::StartNetwork, NativeStep::ExecPid1,
    ]);
    c.network.enabled = false;
    assert_eq!(NativeEngine::start_steps(&c).len(), 4);
    c.network.type_ = NetworkType::Host;
    c.filesystem.dev = false;
    let steps = ContainerEngine::start_steps(&c);
    assert!(!steps.contains(&ContainerStep::UnshareIpc));
    assert!(!steps.contains(&ContainerStep::SetupNetwork));
    assert_eq!(steps.last(), Some(&ContainerStep::ExecPid1));
    let full = ContainerEngine::start_steps(&Config::default());
    assert_eq!(full.len(), 12);
    assert!(NativeEngine::seccomp_notify_probe(-1, 14));
    assert!(!NativeEngine::seccomp_notify_probe(-1, 38));
}

#[test]
fn exec_environments() {
    let mut c = Config::default();
    c.runtime.env = vec!["A=1".to_string(), "NOVALUE".to_string(), "B=x=y".to_string()];
    c.runtime.workdir = "/home/u".to_string();
    let env = NativeEngine::exec_environment(&c);
    let pairs: Vec<(&str, &str)> = env.iter().map(|(a, b)| (a.as_str(), b.as_str())).collect();
    assert_eq!(pairs, vec![
        ("PATH", "A=1:NOVALUE:B=x=y"), ("HOME", "/home/u"), ("TERM", "xterm-256color"),
        ("LD_PRELOAD", "libastrashell-preload.so"), ("ASTRASHELL_ROOT", "@astrashell_rootfs@"), ("ASTRASHELL_HOSTNAME", "astrashell"),
        ("A", "1"), ("B", "x=y"),
    ]);
    let cenv = ContainerEngine::exec_environment(&c);
    assert_eq!(cenv[3], ("container".to_string(), "astrashell".to_string()));
    assert_eq!(split_env_entry("K=V=W"), Some(("K".to_string(), "V=W".to_string())));
    assert_eq!(split_env_entry("K"), None);
    let pre = NativeEngine::preload_variables(&c);
    assert_eq!(pre[0].1, "libastrashell-preload.so");
}

#[test]
fn vm_configuration() {
    let mut c = Config::default();
    c.runtime.rootfs = "/rf".to_string();
    c.gui.enabled = true;
    let v = AVFEngine::vm_config(&c);
    assert_eq!(v.kernel, "/rf/boot/vmlinuz");
    assert_eq!(v.initrd, "/rf/boot/initrd.img");
    assert_eq!(v.disks[0].image, "/rf/rootfs.img");
    assert!(v.gpu && v.network && v.vsock);
    assert_eq!((v.memory_mib, v.cpus), (2048, 4));
    assert!(!AVFEngine::new().runs_in_vm());
}

#[test]
fn ipc_bus_delivery() {
    let mut bus = IpcBus::new();
    let a = bus.subscribe("net");
    let b = bus.subscribe("fs");
    let c = bus.subscribe("net");
    assert_eq!(bus.recipients("net"), vec![a, c]);
    assert_eq!(bus.recipients("fs"), vec![b]);
    assert!(bus.recipients("gui").is_empty());
    assert!(a != b && b != c && a != c);
}

#[test]
fn decimal_parsing() {
    assert_eq!(parse_i32("33"), Some(33));
    assert_eq!(parse_i32("-2147483648"), Some(i32::MIN));
    assert_eq!(parse_i32("2147483648"), None);
    assert_eq!(parse_i32("+7"), Some(7));
    assert_eq!(parse_i32("-"), None);
    assert_eq!(parse_i32(""), None);
    assert_eq!(parse_i32("1a"), None);
    assert_eq!(api_level_from(Some("34")), 34);
    assert_eq!(api_level_from(Some("x")), 0);
    assert_eq!(api_level_from(None), 0);
}

#[test]
fn kernel_decisions() {
    assert_eq!(trim("  1\n"), "1");
    assert_eq!(trim("\u{3000}x y\t"), "x y");
    assert_eq!(trim(" \n "), "");
    assert!(setting_is("0\n", "0"));
    assert_eq!(userns_from_settings(Some("1\n"), Some("1")), Some(true));
    assert_eq!(userns_from_settings(None, Some(" 1 ")), Some(false));
    assert_eq!(userns_from_settings(None, None), None);
    assert!(unshare_probe(0, 1));
    assert!(!unshare_probe(-1, 1));
    assert!(unshare_probe(-1, 12));
    assert_eq!(ns_kind("uts"), Some(NsKind::Uts));
    assert_eq!(ns_kind("time"), None);
    assert!(seccomp_probe(-1, 14));
    assert!(!seccomp_probe(0, 0));
    assert!(!seccomp_notify_probe(-1, 22));
    assert!(landlock_probe(-1, 1));
    assert!(lists_overlayfs("nodev\tsysfs\nnodev\toverlay\n"));
    assert!(!lists_overlayfs("ext4\n"));
}

#[test]
fn paths_and_modes() {
    assert_eq!(expand_home("~/bin", Some("/home/a")), "/home/a/bin");
    assert_eq!(expand_home("~/bin", None), "~/bin");
    assert_eq!(expand_home("/etc", Some("/home/a")), "/etc");
    assert_eq!(which_or(None, "/bin/sh"), "/bin/sh");
    assert_eq!(which_or(Some("/usr/bin/sh".to_string()), "/bin/sh"), "/usr/bin/sh");
    assert_eq!(mode_from_name("avf"), ExecutionMode::MicroVM);
    assert_eq!(mode_from_name("container"), ExecutionMode::Container);
    assert_eq!(mode_from_name("weird"), ExecutionMode::Auto);
    assert_eq!(SlirpNetwork::slirp4netns_args(), vec!["--configure", "--mtu=65520", "tap0", "tap1"]);
}

fn elf64_header(e_flags: u32) -> Vec<u8> {
    let mut h = vec![0u8; 64];
    h[0..4].copy_from_slice(&[0x7f, b'E', b'L', b'F']);
    h[4] = 2; // 64-bit
    h[5] = 1; // little endian
    h[6] = 1; // version
    h[16..18].copy_from_slice(&2u16.to_le_bytes()); // executable
    h[18..20].copy_from_slice(&183u16.to_le_bytes()); // AArch64
    h[20..24].copy_from_slice(&1u32.to_le_bytes());
    h[24..32].copy_from_slice(&0x400000u64.to_le_bytes()); // entry
    h[48..52].copy_from_slice(&e_flags.to_le_bytes());
    h[52..54].copy_from_slice(&64u16.to_le_bytes()); // header size
    h[54..56].copy_from_slice(&56u16.to_le_bytes()); // program header entry size
    h[58..60].copy_from_slice(&64u16.to_le_bytes()); // section header entry size
    h
}

#[test]
fn elf_analysis_of_bytes() {
    let a = analyze_elf_bytes(&elf64_header(0x1000000)).unwrap();
    assert_eq!(a.class, ElfClass::Elf64);
    assert_eq!(a.entry, 0x400000);
    assert!(a.has_gnu_stack);
    assert!(!a.is_dynamic);
    assert_eq!(a.abi, Abi::Linux);
    assert!(a.interpreter.is_none());
    let plain = analyze_elf_bytes(&elf64_header(0)).unwrap();
    assert!(!plain.has_gnu_stack);
    assert_eq!(analyze_elf_bytes(b"not an elf file at all").err(), Some(ElfError::Malformed));
}

#[test]
fn oci_runtime_spec() {
    let mut c = Config::default();
    c.runtime.rootfs = "/rootfs".to_string();
    c.runtime.hostname = "box".to_string();
    let s = OCIRuntime::new().runtime_spec(&c);
    assert_eq!(s.oci_version, "1.0.2");
    assert_eq!(s.root_path, "/rootfs");
    assert_eq!(s.hostname, "box");
    assert_eq!(s.args, vec!["/sbin/init".to_string()]);
    assert_eq!(s.env, c.runtime.env);
    assert_eq!(s.cwd, "/home/astra");
    assert_eq!(s.bounding, vec!["CAP_ALL".to_string()]);
    assert_eq!(s.namespaces, vec!["pid", "mount", "network", "uts", "ipc"]);
}

#[test]
fn home_expansion_with_absolute_rest() {
    assert_eq!(expand_home("~//etc", Some("/home/a")), "/etc");
    assert_eq!(expand_home("~x", Some("/home/a")), "~x");
}

#[test]
fn test_elf_analysis() {
    let result = analyze_elf_bytes(&elf64_header(0));
    if let Ok(analysis) = result {
        assert!(analysis.is_dynamic || !analysis.is_dynamic);
    }
}
