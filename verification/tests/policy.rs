use astrashell::syscall::broker::{BrokerAction, BrokerRequest, BrokerResponse, PrivilegedOp, SyscallBroker, is_mount_allowed};
use astrashell::syscall::intercept::{answer_notification, build_intercept_filter, recv_failure_action, InterceptError, LoopControl, NotifResponse, SyscallIntercept};
use astrashell::syscall::translate::{SyscallTranslator, TranslationAction, TranslationMode};
use astrashell::security::seccomp::{build_astrashell_filter, SeccompError, SeccompProfile, SockFilter};
use astrashell::security::capabilities::{capability_name, CapabilityError, CapabilitySet};
use astrashell::namespace::{unshare_outcome, unshare_result, NamespaceError, UnshareOutcome};
use astrashell::namespace::mount::{MountContext, MountFlag, PivotOutcome, UnmountFlag};
use astrashell::namespace::user::UserNamespace;
use astrashell::namespace::pid::UtsNamespace;

fn mount(target: &str, fstype: &str) -> BrokerRequest {
    BrokerRequest::Mount { source: "none".to_string(), target: target.to_string(), fstype: fstype.to_string(), flags: 7 }
}

#[test]
fn broker_allowlist() {
    assert!(is_mount_allowed("x", "/proc", "proc"));
    assert!(is_mount_allowed("x", "/dev/pts", "bind"));
    assert!(is_mount_allowed("x", "/sys/fs/cgroup", "cgroup2"));
    assert!(is_mount_allowed("x", "/run", "tmpfs"));
    assert!(is_mount_allowed("x", "/tmp/work", "tmpfs"));
    assert!(!is_mount_allowed("x", "/sysroot", "none"));
    assert!(!is_mount_allowed("x", "/mnt", "tmpfs"));
    assert!(!is_mount_allowed("tmpfs", "/etc", "tmpfs"));
    assert!(!is_mount_allowed("x", "/procfs", "proc"));
    assert!(!is_mount_allowed("x", "/mnt", "bind"));
    assert!(!is_mount_allowed("x", "/mnt", "ext4"));
    assert!(!is_mount_allowed("x", "/proc", "ext4"));
}

#[test]
fn broker_plans_requests() {
    match SyscallBroker::plan_request(&mount("/mnt", "ext4")) {
        BrokerAction::Reply(BrokerResponse::Error { code, message }) => {
            assert_eq!(code, -1);
            assert_eq!(message, "Mount not allowed");
        }
        other => panic!("unexpected {:?}", other),
    }
    match SyscallBroker::plan_request(&mount("/run", "tmpfs")) {
        BrokerAction::Perform(PrivilegedOp::Mount { source, target, fstype, flags }) => {
            assert_eq!((source.as_str(), target.as_str(), fstype.as_str(), flags), ("none", "/run", "tmpfs", 7));
        }
        other => panic!("unexpected {:?}", other),
    }
    match SyscallBroker::plan_request(&BrokerRequest::SetHostname { name: "h".to_string() }) {
        BrokerAction::Reply(BrokerResponse::Error { code, message }) => {
            assert_eq!(code, -38);
            assert_eq!(message, "Unsupported operation");
        }
        other => panic!("unexpected {:?}", other),
    }
    assert!(matches!(
        SyscallBroker::plan_request(&BrokerRequest::Umount { target: "/mnt".to_string(), flags: 2 }),
        BrokerAction::Perform(PrivilegedOp::Umount { flags: 2, .. })
    ));
}

#[test]
fn broker_responses() {
    let op = PrivilegedOp::PivotRoot { new_root: "/new".to_string(), put_old: "/new/old".to_string() };
    assert!(matches!(SyscallBroker::respond(&op, 0, 5), BrokerResponse::Success));
    match SyscallBroker::respond(&op, -1, 16) {
        BrokerResponse::Error { code, message } => {
            assert_eq!(code, 16);
            assert_eq!(message, "pivot_root failed");
        }
        other => panic!("unexpected {:?}", other),
    }
    assert_eq!(SyscallBroker::new("/tmp/broker.sock").socket_path, "/tmp/broker.sock");
}

#[test]
fn notification_answers() {
    let reboot = answer_notification(7, 142);
    assert_eq!(reboot, NotifResponse { id: 7, val: -1, error: -1, flags: 0 });
    let other = answer_notification(8, 63);
    assert_eq!(other, NotifResponse { id: 8, val: 0, error: 0, flags: 1 });
    let mounted = answer_notification(9, 40);
    assert_eq!(mounted, NotifResponse { id: 9, val: 0, error: 0, flags: 0 });
    assert_eq!(answer_notification(10, 91), NotifResponse { id: 10, val: 0, error: 0, flags: 0 });
    assert_eq!(answer_notification(11, 90), NotifResponse { id: 11, val: 0, error: 0, flags: 0 });
    assert_eq!(recv_failure_action(4), LoopControl::Retry);
    assert_eq!(recv_failure_action(11), LoopControl::Retry);
    assert_eq!(recv_failure_action(9), LoopControl::Stop);
}

#[test]
fn intercept_attach_outcomes() {
    let mut i = SyscallIntercept::new();
    assert_eq!(SyscallIntercept::check_filters(&Vec::new()), Err(InterceptError::NoFilter));
    assert_eq!(i.complete_attach(-1, 38), Ok(None));
    assert!(!i.is_ptrace_fallback());
    assert_eq!(i.complete_attach(-1, 13), Err(InterceptError::AttachFailed(13)));
    assert_eq!(i.complete_attach(5, 0), Ok(Some(5)));
    assert_eq!(i.notify_fd, Some(5));
    assert!(build_intercept_filter(&[40, 39]).unwrap().is_empty());
}

#[test]
fn translation() {
    let emu = SyscallTranslator::new(TranslationMode::X86_64Emu);
    assert_eq!(emu.translate_nr(0), (63, TranslationAction::Passthrough));
    assert_eq!(emu.translate_nr(2), (56, TranslationAction::Passthrough));
    assert_eq!(emu.translate_nr(12), (214, TranslationAction::Passthrough));
    assert_eq!(emu.translate_nr(56), (220, TranslationAction::CloneWrapper));
    assert_eq!(emu.translate_nr(59), (221, TranslationAction::ExecWrapper));
    assert_eq!(emu.translate_nr(500), (500, TranslationAction::Passthrough));
    let native = SyscallTranslator::new(TranslationMode::BionicNative);
    assert_eq!(native.translate_nr(59), (59, TranslationAction::Passthrough));
    let glibc = SyscallTranslator::new(TranslationMode::GlibcCompat);
    assert_eq!(glibc.translate_nr(0), (0, TranslationAction::Passthrough));
}

#[test]
fn seccomp_filter_and_outcomes() {
    let (f, ()) = build_astrashell_filter();
    assert_eq!(f.len(), 4);
    assert_eq!(f[0], SockFilter { code: 0x20, jt: 0, jf: 0, k: 4 });
    assert_eq!(f[1], SockFilter { code: 0x15, jt: 1, jf: 0, k: 0xc00000b7 });
    assert_eq!(f[3].k, 0x7fff0000);
    assert_eq!(SeccompProfile::apply_outcome(-1, 38), Ok(()));
    assert_eq!(SeccompProfile::apply_outcome(-1, 22), Err(SeccompError::ApplyFailed(22)));
    assert_eq!(SeccompProfile::apply_outcome(0, 0), Ok(()));
    assert_eq!(SeccompProfile::new("strict.json").profile_name, "strict.json");
}

#[test]
fn capability_sets() {
    let caps = vec!["CAP_CHOWN".to_string(), "CAP_KILL".to_string()];
    let set = CapabilitySet::new(&caps);
    assert_eq!(set.allowed, caps);
    let drops = set.apply().unwrap();
    assert_eq!(drops.len(), 39);
    assert!(!drops.contains(&0) && !drops.contains(&5));
    assert_eq!((drops[0], drops[1], drops[3], drops[4], drops[35]), (1, 2, 4, 6, 37));
    assert_eq!(drops[38], 40);
    assert_eq!(CapabilitySet::new(&[]).apply().unwrap(), (0..41).collect::<Vec<u32>>());
    let all: Vec<String> = (0..41).map(|i| capability_name(i).to_string()).collect();
    assert!(CapabilitySet::new(&all).apply().unwrap().is_empty());
    assert_eq!(CapabilitySet::new(&all).drops_through(43), vec![41, 42, 43]);
    assert_eq!(set.drops_through(5), vec![1, 2, 3, 4]);
    assert_eq!(capability_name(38), "CAP_PERFMON");
    assert_eq!(capability_name(39), "CAP_BPF");
    assert_eq!(capability_name(40), "CAP_CHECKPOINT_RESTORE");
    assert_eq!(CapabilitySet::drop_all().unwrap(), (0..41).collect::<Vec<u32>>());
    assert_eq!(CapabilitySet::drop_result(3, 0, 0), Ok(()));
    assert_eq!(CapabilitySet::drop_result(41, -1, 22), Ok(()));
    assert_eq!(CapabilitySet::drop_result(3, -1, 1), Err(CapabilityError::DropFailed(3, 1)));
    assert_eq!(capability_name(21), "CAP_SYS_ADMIN");
    assert_eq!(capability_name(37), "CAP_AUDIT_READ");
    let masks = astrashell::security::capabilities::get_emulated_caps();
    assert_eq!(masks.len(), 38);
    assert_eq!(masks[37], 1u64 << 37);
}

#[test]
fn namespace_outcomes() {
    assert_eq!(unshare_outcome(0, 0), UnshareOutcome::Created);
    assert_eq!(unshare_outcome(-1, 1), UnshareOutcome::Unsupported);
    assert_eq!(unshare_outcome(-1, 22), UnshareOutcome::Unsupported);
    assert_eq!(unshare_outcome(-1, 12), UnshareOutcome::Failed(12));
    assert_eq!(unshare_result(UnshareOutcome::Unsupported), Ok(()));
    assert_eq!(unshare_result(UnshareOutcome::Failed(12)), Err(NamespaceError::UnshareFailed(12)));
    assert_eq!(UtsNamespace::new("astrashell").hostname, "astrashell");
}

#[test]
fn mount_plans() {
    let ctx = MountContext::new("/r");
    let setup = ctx.setup_plan();
    assert_eq!(setup.len(), 2);
    assert_eq!(setup[0].target, "/r");
    assert_eq!(setup[0].flags, vec![MountFlag::Private, MountFlag::Recursive]);
    assert_eq!(setup[1].source.as_deref(), Some("/r"));
    let plan = ctx.pseudo_plan();
    assert_eq!(plan.dirs, vec!["/r/proc", "/r/sys", "/r/dev", "/r/dev/pts", "/r/sys/fs/cgroup", "/r/tmp", "/r/run"]);
    assert_eq!(plan.mounts.len(), 6);
    assert_eq!(plan.mounts[5].target, "/r/dev/pts");
    assert_eq!(plan.mounts[5].fstype.as_deref(), Some("devpts"));
    assert_eq!(plan.mounts[5].data.as_deref(), Some("mode=620,gid=5"));
    assert_eq!(plan.mounts[2].data.as_deref(), Some("mode=1777,size=64M"));
    assert_eq!(ctx.put_old_path(), "/r/.old_root");
    assert_eq!(MountContext::pivot_outcome(0, 0), Ok(PivotOutcome::Pivoted));
    assert_eq!(MountContext::pivot_outcome(-1, 38), Ok(PivotOutcome::ChrootFallback));
    assert_eq!(MountContext::pivot_outcome(-1, 1), Err(NamespaceError::PivotFailed(1)));
}

#[test]
fn user_namespace_maps() {
    let ns = UserNamespace::new(None, Some("0 100 5"));
    assert_eq!(ns.uid_map_line(10123), "0 10123 1");
    assert_eq!(ns.uid_map_line(0), "0 0 1");
    assert_eq!(ns.gid_map_line(7), "0 100 5");
    assert_eq!(UserNamespace::setgroups_line(), "deny");
}

#[test]
fn pivot_completion() {
    let ctx = MountContext::new("/rf");
    let p = ctx.pivot_follow_up(0, 0).unwrap();
    assert_eq!(p.chroot, None);
    assert_eq!((p.old_root.as_str(), p.remove_dir.as_str(), p.chdir.as_str()), ("/.old_root", "/.old_root", "/"));
    assert_eq!(p.unmount_flags, vec![UnmountFlag::Detach]);
    let f = ctx.pivot_follow_up(-1, 38).unwrap();
    assert_eq!(f.chroot.as_deref(), Some("/rf"));
    assert_eq!(f.unmount_flags, vec![UnmountFlag::Detach]);
    assert!(matches!(ctx.pivot_follow_up(-1, 16), Err(NamespaceError::PivotFailed(16))));
    assert_eq!(MountContext::pseudo_mounts_outcome(&vec![(-1, 19), (0, 0), (-1, 1)]), Ok(()));
    assert_eq!(MountContext::pseudo_mounts_outcome(&Vec::new()), Ok(()));
    assert_eq!(MountContext::finish_pivot(None), Ok(()));
    assert_eq!(MountContext::finish_pivot(Some(2)), Err(NamespaceError::ChdirFailed(2)));
    assert_eq!(MountContext::new("/rf").put_old_path(), "/rf/.old_root");
}

#[test]
fn user_namespace_writes() {
    let ns = UserNamespace::new(None, Some("0 100 5"));
    let w = ns.map_writes(UnshareOutcome::Created, 1000, 2000).unwrap();
    let pairs: Vec<(&str, &str)> = w.iter().map(|(a, b)| (a.as_str(), b.as_str())).collect();
    assert_eq!(pairs, vec![
        ("/proc/self/uid_map", "0 1000 1"), ("/proc/self/setgroups", "deny"), ("/proc/self/gid_map", "0 100 5"),
    ]);
    assert!(ns.map_writes(UnshareOutcome::Unsupported, 1, 1).unwrap().is_empty());
    assert_eq!(ns.map_writes(UnshareOutcome::Failed(12), 1, 1).err(), Some(NamespaceError::UnshareFailed(12)));
    assert_eq!(UserNamespace::after_map_write(0, None), None);
    assert_eq!(UserNamespace::after_map_write(0, Some(13)), Some(Err(NamespaceError::MapWriteFailed(13))));
    assert_eq!(UserNamespace::after_map_write(1, Some(1)), None);
    assert_eq!(UserNamespace::after_map_write(2, None), Some(Ok(())));
    assert_eq!(UserNamespace::after_map_write(2, Some(5)), Some(Err(NamespaceError::MapWriteFailed(5))));
}
