use astrashell::engine::{EngineAvailability, EngineError};
use astrashell::Config;
use astrashell::fs::overlay::{OverlayError, OverlayFS, OverlayMount, OverlayStatus};
use astrashell::namespace::mount::MountFlag;
use astrashell::fs::snapshot::image::{export_supported, import_decompression, Decompression, ImageError, ImageFormat};

#[test]
fn test_runtime_init() {
    let config = Config::default();
    let mut runtime = astrashell::AstraShell::new(config);
    assert_eq!(runtime.status(), "initializing");
    let avail = EngineAvailability { avf: false, container: false, native: true };
    let result = runtime.init(&avail);
    match result {
        Ok(()) => assert_eq!(runtime.status(), "running"),
        Err(_) => assert!(true),
    }
    assert_eq!(runtime.status(), "running");
}

#[test]
fn test_runtime_engine_switch() {
    let mut config = Config::default();
    config.engine.mode = astrashell::ExecutionMode::Native;
    let mut runtime = astrashell::AstraShell::new(config);
    let avail = EngineAvailability { avf: true, container: true, native: true };
    let result = runtime.init(&avail);
    if result.is_ok() {
        assert_eq!(runtime.status(), "running");
    }
    assert_eq!(runtime.engine, astrashell::engine::EngineKind::Native);
}

#[test]
fn runtime_init_failure_keeps_state() {
    let mut config = Config::default();
    config.engine.mode = astrashell::ExecutionMode::Container;
    let mut runtime = astrashell::AstraShell::new(config);
    let avail = EngineAvailability { avf: true, container: false, native: true };
    assert_eq!(runtime.init(&avail), Err(EngineError::NotAvailable(astrashell::ExecutionMode::Container)));
    assert_eq!(runtime.status(), "initializing");
    runtime.config_mut().runtime.hostname = "box".to_string();
    assert_eq!(runtime.config().runtime.hostname, "box");
    assert_eq!(runtime.engine_to_run(), Err(EngineError::NotConfigured));
    let mut ok = astrashell::AstraShell::new(Config::default());
    assert!(ok.init(&EngineAvailability { avf: false, container: false, native: true }).is_ok());
    assert_eq!(ok.engine_to_run(), Ok(astrashell::engine::EngineKind::Native));
}

#[test]
fn test_overlay_mount_validation() {
    let result = astrashell::fs::overlay::OverlayFS::new("/nonexistent/path", None, None);
    assert!(result.is_err());
}

#[test]
fn overlay_plans() {
    let o = OverlayFS::with_lower_check("/lower", Some("/up"), Some("/wk"), true).unwrap();
    assert_eq!(o.merged_path(), "/tmp/astrashell-merged");
    match o.mount_plan() {
        OverlayMount::Overlay(op) => {
            assert_eq!(op.source, None);
            assert_eq!(op.target, "/tmp/astrashell-merged");
            assert_eq!(op.fstype.as_deref(), Some("overlay"));
            assert_eq!(op.flags, vec![MountFlag::NoDev]);
            assert_eq!(op.data.as_deref(), Some("lowerdir=/lower,upperdir=/up,workdir=/wk"));
        }
        OverlayMount::BindLower(_) => panic!("expected an overlay mount"),
    }
    let b = OverlayFS::with_lower_check("/lower", Some("/up"), None, true).unwrap();
    match b.mount_plan() {
        OverlayMount::BindLower(op) => {
            assert_eq!(op.source.as_deref(), Some("/lower"));
            assert_eq!(op.target, "/tmp/astrashell-merged");
            assert_eq!(op.fstype, None);
            assert_eq!(op.flags, vec![MountFlag::Bind, MountFlag::Recursive]);
            assert_eq!(op.data, None);
        }
        OverlayMount::Overlay(_) => panic!("expected a bind mount"),
    }
    assert!(matches!(OverlayFS::overlay_outcome(0, 0), Ok(OverlayStatus::Mounted)));
    assert!(matches!(OverlayFS::overlay_outcome(-1, 38), Ok(OverlayStatus::TryFuse)));
    assert!(matches!(OverlayFS::overlay_outcome(-1, 61), Ok(OverlayStatus::TryFuse)));
    assert!(matches!(OverlayFS::overlay_outcome(-1, 1), Ok(OverlayStatus::TryFuse)));
    assert!(matches!(OverlayFS::overlay_outcome(-1, 13), Err(OverlayError::MountFailed(13))));
    let bind = b.mount_plan();
    assert!(matches!(OverlayFS::mount_outcome(&bind, -1, 13), Ok(OverlayStatus::Mounted)));
    assert!(matches!(OverlayFS::mount_outcome(&bind, 0, 0), Ok(OverlayStatus::Mounted)));
    let over = o.mount_plan();
    assert!(matches!(OverlayFS::mount_outcome(&over, 0, 0), Ok(OverlayStatus::Mounted)));
    assert!(matches!(OverlayFS::mount_outcome(&over, -1, 38), Ok(OverlayStatus::TryFuse)));
    assert!(matches!(OverlayFS::mount_outcome(&over, -1, 13), Err(OverlayError::MountFailed(13))));
    assert!(OverlayFS::fuse_outcome(true, true).is_ok());
    assert!(matches!(OverlayFS::fuse_outcome(false, false), Err(OverlayError::NoOverlay)));
    assert!(matches!(OverlayFS::fuse_outcome(true, false), Err(OverlayError::NoOverlay)));
    assert_eq!(o.fuse_overlayfs_args("/u2", "/w2"), vec![
        "-o".to_string(),
        "lowerdir=/lower,upperdir=/u2,workdir=/w2".to_string(),
        "/tmp/astrashell-merged".to_string(),
    ]);
    assert!(OverlayFS::with_lower_check("/x", None, None, false).is_err());
}

#[test]
fn snapshot_paths() {
    let mgr = astrashell::fs::snapshot::SnapshotManager::new("/data/base");
    assert_eq!(mgr.snapshots_dir(), "/data/base/snapshots");
    assert_eq!(mgr.snapshot_path("s1"), "/data/base/snapshots/s1");
    assert_eq!(mgr.reflink_copy_args("/snap"), vec!["-a", "--reflink=auto", "/data/base", "/snap"]);
}

#[test]
fn image_format_routes() {
    assert_eq!(import_decompression(ImageFormat::TarXz), Ok(Decompression::Xz));
    assert_eq!(import_decompression(ImageFormat::TarZst), Ok(Decompression::Zstd));
    assert_eq!(import_decompression(ImageFormat::Ext4), Err(ImageError::UnsupportedImport));
    assert_eq!(export_supported(ImageFormat::TarGz), Ok(()));
    assert_eq!(export_supported(ImageFormat::TarXz), Err(ImageError::UnsupportedExport));
}
