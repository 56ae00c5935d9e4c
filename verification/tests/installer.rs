use holomess::envelope::CellId;
use holomess::errors::ErrorKind;
use holomess::installer::AppStatus;
use holomess::installer::InstallOutcome;
use holomess::installer::InstallPlan;
use holomess::installer::InstalledApp;
use holomess::installer::InterfaceChoice;
use holomess::installer::NamedCell;
use holomess::installer::complete_attach;
use holomess::installer::complete_enable;
use holomess::installer::complete_install;
use holomess::installer::plan_install;
use holomess::installer::plan_interface;
use holomess::installer::resolve_cell;

fn msgboard_app(status: AppStatus) -> InstalledApp {
    InstalledApp {
        app_id: b"msgboard".to_vec(),
        status,
        cells: vec![NamedCell {
            role: b"msgboard".to_vec(),
            cell: CellId { dna_hash: vec![1, 1], agent_key: vec![2, 2] },
        }],
    }
}

#[test]
fn empty_host_plans_a_fresh_install() {
    let apps: Vec<InstalledApp> = Vec::new();
    assert_eq!(plan_install(&apps, &b"msgboard".to_vec()), InstallPlan::FreshInstall);
}

#[test]
fn other_apps_do_not_match() {
    let apps = vec![msgboard_app(AppStatus::Running)];
    assert_eq!(plan_install(&apps, &b"othergame".to_vec()), InstallPlan::FreshInstall);
}

#[test]
fn stopped_app_is_resumed_not_reinstalled() {
    let apps = vec![msgboard_app(AppStatus::Disabled)];
    assert_eq!(plan_install(&apps, &b"msgboard".to_vec()), InstallPlan::Resume(0));
}

#[test]
fn running_app_is_left_alone() {
    let apps = vec![msgboard_app(AppStatus::Disabled), msgboard_app(AppStatus::Running)];
    // the first match decides
    assert_eq!(plan_install(&apps, &b"msgboard".to_vec()), InstallPlan::Resume(0));
    let apps = vec![msgboard_app(AppStatus::Running)];
    assert_eq!(plan_install(&apps, &b"msgboard".to_vec()), InstallPlan::AlreadyRunning(0));
}

#[test]
fn cell_is_resolved_by_role() {
    let app = msgboard_app(AppStatus::Running);
    let cell = resolve_cell(&app, &b"msgboard".to_vec()).unwrap();
    assert_eq!(cell, CellId { dna_hash: vec![1, 1], agent_key: vec![2, 2] });
}

#[test]
fn missing_role_is_cell_not_found() {
    let app = msgboard_app(AppStatus::Running);
    let err = resolve_cell(&app, &b"profiles".to_vec()).unwrap_err();
    assert_eq!(err.kind, ErrorKind::CellNotFound);
}

#[test]
fn interfaces_are_reused_never_doubled() {
    assert_eq!(plan_interface(&Vec::new()), InterfaceChoice::AttachNew);
    assert_eq!(plan_interface(&vec![7100]), InterfaceChoice::Reuse(7100));
    assert_eq!(plan_interface(&vec![7100, 7200]), InterfaceChoice::Reuse(7100));
}

#[test]
fn install_outcomes_map_to_the_taxonomy() {
    let ok = complete_install(InstallOutcome::Installed(msgboard_app(AppStatus::Running)));
    assert_eq!(ok.unwrap().app_id, b"msgboard".to_vec());

    let err = complete_install(InstallOutcome::BundleMissing("no such file".to_string()))
        .unwrap_err();
    assert_eq!(err.kind, ErrorKind::BundleNotFound);
    assert_eq!(err.detail.as_deref(), Some("no such file"));

    let err = complete_install(InstallOutcome::Rejected("bad dna".to_string())).unwrap_err();
    assert_eq!(err.kind, ErrorKind::InstallRejected);
    assert_eq!(err.detail.as_deref(), Some("bad dna"));
}

#[test]
fn enable_refusal_is_enable_failed() {
    assert!(complete_enable(Ok(())).is_ok());
    let err = complete_enable(Err("still validating".to_string())).unwrap_err();
    assert_eq!(err.kind, ErrorKind::EnableFailed);
    assert_eq!(err.detail.as_deref(), Some("still validating"));
}

#[test]
fn attach_refusal_is_interface_attach_failed() {
    assert_eq!(complete_attach(Ok(7100)).unwrap(), 7100);
    let err = complete_attach(Err("no ports left".to_string())).unwrap_err();
    assert_eq!(err.kind, ErrorKind::InterfaceAttachFailed);
    assert_eq!(err.detail.as_deref(), Some("no ports left"));
}

#[test]
fn second_pass_never_grows_the_host() {
    // a host-side model of the administrative state, driven by the plans
    let mut apps: Vec<InstalledApp> = Vec::new();
    let mut interfaces: Vec<u16> = Vec::new();
    let app_id = b"msgboard".to_vec();

    // first pass: fresh install and a new interface
    match plan_install(&apps, &app_id) {
        InstallPlan::FreshInstall => apps.push(msgboard_app(AppStatus::Running)),
        _ => panic!("first pass must install"),
    }
    match plan_interface(&interfaces) {
        InterfaceChoice::AttachNew => interfaces.push(7100),
        InterfaceChoice::Reuse(_) => panic!("nothing to reuse yet"),
    }
    assert_eq!(apps.len(), 1);
    assert_eq!(interfaces.len(), 1);

    // every later pass leaves both counts alone
    for _ in 0..3 {
        match plan_install(&apps, &app_id) {
            InstallPlan::AlreadyRunning(i) => assert_eq!(i, 0),
            InstallPlan::Resume(i) => {
                apps[i].status = AppStatus::Running;
            }
            InstallPlan::FreshInstall => panic!("must never reinstall"),
        }
        match plan_interface(&interfaces) {
            InterfaceChoice::Reuse(p) => assert_eq!(p, 7100),
            InterfaceChoice::AttachNew => panic!("must never attach a second interface"),
        }
        assert_eq!(apps.len(), 1);
        assert_eq!(interfaces.len(), 1);
    }
}
