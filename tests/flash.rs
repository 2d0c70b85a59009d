use mechaflt::flash::{Action, DeviceCheck, Event, FlashSession, ManifestRead, Outcome, Stage};
use mechaflt::manifest::{
    validate_components, FlashError, MachineInfo, Manifest, Package, Packages,
};

fn package(name: &str) -> Package {
    Package { name: name.to_string(), version: "1.0".to_string(), size: 1, sha2: "00".to_string() }
}

fn manifest() -> Manifest {
    Manifest {
        id: "pkg".to_string(),
        version: "1".to_string(),
        channel: "stable".to_string(),
        created_at: "2024-01-01".to_string(),
        description: "test".to_string(),
        url: "https://example.com".to_string(),
        machine: MachineInfo {
            name: "comet".to_string(),
            generation: "1".to_string(),
            rev: "a".to_string(),
        },
        packages: Packages {
            linux: package("Image"),
            rootfs: package("rootfs.img"),
            uboot: package("u-boot.bin"),
            dtb: package("board.dtb"),
            mfgtools: package("mfgtools.zip"),
            script: package("flash.uuu"),
        },
    }
}

/// Drives a session up to the check of the components.
fn to_components(s: &mut FlashSession) {
    assert!(matches!(s.step(Event::PackageExists(true)), Action::CheckDevice));
    assert!(matches!(s.step(Event::DeviceChecked(DeviceCheck::Ready)), Action::CreateTempDir));
    assert!(matches!(s.step(Event::TempDirCreated(true)), Action::Extract));
    assert!(matches!(s.step(Event::Extracted(true)), Action::ReadManifest));
    match s.step(Event::ManifestRead(ManifestRead::Parsed(manifest()))) {
        Action::CheckComponents(names) => assert_eq!(
            names,
            vec!["Image", "rootfs.img", "u-boot.bin", "board.dtb", "mfgtools.zip", "flash.uuu"]
        ),
        other => panic!("unexpected {:?}", other),
    }
}

#[test]
fn missing_component_is_first_missing() {
    let m = manifest();
    match validate_components(&m, &vec![true, true, false, true, false, true]) {
        Err(FlashError::MissingComponent(n)) => assert_eq!(n, "u-boot.bin"),
        other => panic!("unexpected {:?}", other),
    }
    match validate_components(&m, &vec![true, true, true, true, true]) {
        Err(FlashError::MissingComponent(n)) => assert_eq!(n, "flash.uuu"),
        other => panic!("unexpected {:?}", other),
    }
    assert!(validate_components(&m, &vec![true; 6]).is_ok());
}

#[test]
fn end_to_end_success_restores_directory() {
    let (mut s, first) = FlashSession::new();
    assert!(matches!(first, Action::CheckPackage));
    to_components(&mut s);
    assert!(matches!(s.step(Event::ComponentsChecked(vec![true; 6])), Action::EnterPackageDir));
    match s.step(Event::EnteredPackageDir(true)) {
        Action::ReadScript(n) => assert_eq!(n, "flash.uuu"),
        other => panic!("unexpected {:?}", other),
    }
    let text = "# flash\nSDP: boot -f _flash.bin\nFB: flash -raw2sparse all _image\nFB: done\n";
    let script = match s.step(Event::ScriptRead(Some(text.to_string()))) {
        Action::RunScript(script) => script,
        other => panic!("unexpected {:?}", other),
    };
    assert_eq!(
        script.commands,
        vec!["SDP: boot -f u-boot.bin", "FB: flash -raw2sparse all rootfs.img", "FB: done"]
    );
    assert!(s.in_package_dir);
    assert!(matches!(s.step(Event::ScriptFinished(Ok(()))), Action::RestoreDir));
    assert!(matches!(s.step(Event::DirRestored), Action::RemoveTempDir));
    assert!(matches!(s.step(Event::TempDirRemoved), Action::Finish(Outcome::Done)));
    assert!(!s.in_package_dir);
    assert!(!s.temp_dir);
    assert_eq!(s.stage, Stage::Finished);
}

#[test]
fn script_failure_cleans_up() {
    let (mut s, _) = FlashSession::new();
    to_components(&mut s);
    s.step(Event::ComponentsChecked(vec![true; 6]));
    s.step(Event::EnteredPackageDir(true));
    s.step(Event::ScriptRead(Some("a\nb".to_string())));
    assert!(matches!(s.step(Event::ScriptFinished(Err("boom".to_string()))), Action::RestoreDir));
    assert!(matches!(s.step(Event::DirRestored), Action::RemoveTempDir));
    match s.step(Event::TempDirRemoved) {
        Action::Finish(Outcome::Failed(FlashError::CommandExecution(m))) => assert_eq!(m, "boom"),
        other => panic!("unexpected {:?}", other),
    }
}

#[test]
fn validation_failure_removes_temp_dir_only() {
    let (mut s, _) = FlashSession::new();
    to_components(&mut s);
    let a = s.step(Event::ComponentsChecked(vec![true, false, true, true, true, true]));
    assert!(matches!(a, Action::RemoveTempDir));
    match s.step(Event::TempDirRemoved) {
        Action::Finish(Outcome::Failed(FlashError::MissingComponent(n))) => {
            assert_eq!(n, "rootfs.img")
        }
        other => panic!("unexpected {:?}", other),
    }
}

#[test]
fn extraction_failure_removes_temp_dir() {
    let (mut s, _) = FlashSession::new();
    s.step(Event::PackageExists(true));
    s.step(Event::DeviceChecked(DeviceCheck::Ready));
    s.step(Event::TempDirCreated(true));
    assert!(matches!(s.step(Event::Extracted(false)), Action::RemoveTempDir));
    assert!(matches!(
        s.step(Event::TempDirRemoved),
        Action::Finish(Outcome::Failed(FlashError::Extraction))
    ));
}

#[test]
fn manifest_errors() {
    let (mut s, _) = FlashSession::new();
    s.step(Event::PackageExists(true));
    s.step(Event::DeviceChecked(DeviceCheck::Ready));
    s.step(Event::TempDirCreated(true));
    s.step(Event::Extracted(true));
    s.step(Event::ManifestRead(ManifestRead::Missing));
    assert!(matches!(
        s.step(Event::TempDirRemoved),
        Action::Finish(Outcome::Failed(FlashError::ManifestMissing))
    ));

    let (mut s, _) = FlashSession::new();
    s.step(Event::PackageExists(true));
    s.step(Event::DeviceChecked(DeviceCheck::Ready));
    s.step(Event::TempDirCreated(true));
    s.step(Event::Extracted(true));
    s.step(Event::ManifestRead(ManifestRead::Unparsable("bad".to_string())));
    match s.step(Event::TempDirRemoved) {
        Action::Finish(Outcome::Failed(FlashError::ManifestParse(m))) => assert_eq!(m, "bad"),
        other => panic!("unexpected {:?}", other),
    }
}

#[test]
fn early_outcomes_need_no_cleanup() {
    let (mut s, _) = FlashSession::new();
    assert!(matches!(
        s.step(Event::PackageExists(false)),
        Action::Finish(Outcome::Failed(FlashError::PackageNotFound))
    ));
    let (mut s, _) = FlashSession::new();
    s.step(Event::PackageExists(true));
    assert!(matches!(
        s.step(Event::DeviceChecked(DeviceCheck::NoDevice)),
        Action::Finish(Outcome::Failed(FlashError::NoDeviceFound))
    ));
    let (mut s, _) = FlashSession::new();
    s.step(Event::PackageExists(true));
    assert!(matches!(s.step(Event::DeviceChecked(DeviceCheck::Declined)), Action::Finish(Outcome::Cancelled)));
    let (mut s, _) = FlashSession::new();
    s.step(Event::PackageExists(true));
    s.step(Event::DeviceChecked(DeviceCheck::Ready));
    assert!(matches!(
        s.step(Event::TempDirCreated(false)),
        Action::Finish(Outcome::Failed(FlashError::Extraction))
    ));
}

#[test]
fn unreadable_script_and_directory_errors() {
    let (mut s, _) = FlashSession::new();
    to_components(&mut s);
    s.step(Event::ComponentsChecked(vec![true; 6]));
    assert!(matches!(s.step(Event::EnteredPackageDir(false)), Action::RemoveTempDir));
    assert!(matches!(
        s.step(Event::TempDirRemoved),
        Action::Finish(Outcome::Failed(FlashError::WorkingDirectory))
    ));

    let (mut s, _) = FlashSession::new();
    to_components(&mut s);
    s.step(Event::ComponentsChecked(vec![true; 6]));
    s.step(Event::EnteredPackageDir(true));
    assert!(matches!(s.step(Event::ScriptRead(None)), Action::RestoreDir));
    s.step(Event::DirRestored);
    match s.step(Event::TempDirRemoved) {
        Action::Finish(Outcome::Failed(FlashError::ScriptLoad(n))) => assert_eq!(n, "flash.uuu"),
        other => panic!("unexpected {:?}", other),
    }
}

#[test]
fn unexpected_event_fails_and_cleans_up() {
    let (mut s, _) = FlashSession::new();
    s.step(Event::PackageExists(true));
    s.step(Event::DeviceChecked(DeviceCheck::Ready));
    s.step(Event::TempDirCreated(true));
    assert!(matches!(s.step(Event::ScriptFinished(Ok(()))), Action::RemoveTempDir));
    assert!(matches!(s.step(Event::DirRestored), Action::RemoveTempDir));
    assert!(matches!(
        s.step(Event::TempDirRemoved),
        Action::Finish(Outcome::Failed(FlashError::UnexpectedEvent))
    ));
}
