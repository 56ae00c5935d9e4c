//! Idempotent installation of the application bundle over the
//! administrative channel.  The channel's round trips happen outside; every
//! decision between them — install, resume, or leave alone; which cell is
//! the application's identity; whether to attach an interface — is made and
//! proved here, so that repeated runs never create a second installation
//! and never accumulate application interfaces.

use vstd::prelude::*;
use crate::envelope::CellId;
use crate::envelope::CellIdView;
use crate::errors::Error;
use crate::errors::ErrorKind;
use crate::wire::bytes_eq;

verus! {

/// The host-reported status of an installed application.
#[derive(Clone, Copy, Debug, PartialEq, Eq, Structural)]
pub enum AppStatus {
    Running,
    Disabled,
}

/// One cell of an installed application, under its role name.
#[derive(Clone, Debug, PartialEq, Eq)]
pub struct NamedCell {
    pub role: Vec<u8>,
    pub cell: CellId,
}

/// The mathematical contents of a `NamedCell`.
pub ghost struct NamedCellView {
    pub role: Seq<u8>,
    pub cell: CellIdView,
}

impl View for NamedCell {
    type V = NamedCellView;

    open spec fn view(&self) -> NamedCellView {
        NamedCellView { role: self.role@, cell: self.cell@ }
    }
}

/// What the administrative channel reports of one installed application.
#[derive(Clone, Debug, PartialEq, Eq)]
pub struct InstalledApp {
    pub app_id: Vec<u8>,
    pub status: AppStatus,
    pub cells: Vec<NamedCell>,
}

/// The mathematical contents of an `InstalledApp`.
pub ghost struct InstalledAppView {
    pub app_id: Seq<u8>,
    pub status: AppStatus,
    pub cells: Seq<NamedCellView>,
}

impl View for InstalledApp {
    type V = InstalledAppView;

    open spec fn view(&self) -> InstalledAppView {
        InstalledAppView {
            app_id: self.app_id@,
            status: self.status,
            cells: self.cells@.map_values(|c: NamedCell| c@),
        }
    }
}

/// The views of a list of installed applications.
pub open spec fn app_views(s: Seq<InstalledApp>) -> Seq<InstalledAppView> {
    s.map_values(|a: InstalledApp| a@)
}

/// The index of the first application with this id at or after `from`, or
/// -1 if there is none.
pub open spec fn spec_find_app(apps: Seq<InstalledAppView>, app_id: Seq<u8>, from: int) -> int
    decreases apps.len() - from,
{
    if from < 0 || from >= apps.len() {
        -1
    } else if apps[from].app_id == app_id {
        from
    } else {
        spec_find_app(apps, app_id, from + 1)
    }
}

/// Whether some application with this id is installed.
pub open spec fn spec_has_app(apps: Seq<InstalledAppView>, app_id: Seq<u8>) -> bool {
    spec_find_app(apps, app_id, 0) >= 0
}

/// A found index lies in range and names a matching application.
pub proof fn lemma_find_app_bounds(apps: Seq<InstalledAppView>, app_id: Seq<u8>, from: int)
    requires
        spec_find_app(apps, app_id, from) >= 0,
    ensures
        from <= spec_find_app(apps, app_id, from) < apps.len(),
        apps[spec_find_app(apps, app_id, from)].app_id == app_id,
    decreases apps.len() - from,
{
    if from < 0 || from >= apps.len() {
    } else if apps[from].app_id == app_id {
    } else {
        lemma_find_app_bounds(apps, app_id, from + 1);
    }
}

/// What the first step of ensure-installed must do, given the installed
/// applications the administrative query returned.
#[derive(Clone, Copy, Debug, PartialEq, Eq, Structural)]
pub enum InstallPlan {
    /// No application with the id exists: generate or reuse an agent
    /// identity, install the bundle, then enable it.
    FreshInstall,
    /// The application at this index exists but is not running: enable it,
    /// then use its cells — never reinstall.
    Resume(usize),
    /// The application at this index is already running: use its cells as
    /// they are.
    AlreadyRunning(usize),
}

/// The plan the installed-application list dictates.
pub open spec fn spec_plan_install(apps: Seq<InstalledAppView>, app_id: Seq<u8>) -> InstallPlan {
    let i = spec_find_app(apps, app_id, 0);
    if i < 0 {
        InstallPlan::FreshInstall
    } else if apps[i].status == AppStatus::Running {
        InstallPlan::AlreadyRunning(i as usize)
    } else {
        InstallPlan::Resume(i as usize)
    }
}

/// Decide the install step for `app_id` from the administrative query's
/// answer: install only when no application with the id exists, enable one
/// that exists but is stopped, and leave a running one alone.
pub fn plan_install(apps: &Vec<InstalledApp>, app_id: &Vec<u8>) -> (r: InstallPlan)
    ensures
        r == spec_plan_install(app_views(apps@), app_id@),
{
    let mut i: usize = 0;
    while i < apps.len()
        invariant
            i <= apps@.len(),
            spec_find_app(app_views(apps@), app_id@, 0) == spec_find_app(
                app_views(apps@),
                app_id@,
                i as int,
            ),
        decreases apps@.len() - i,
    {
        proof {
            assert(app_views(apps@)[i as int] == apps@[i as int]@);
        }
        if bytes_eq(&apps[i].app_id, app_id) {
            if matches!(apps[i].status, AppStatus::Running) {
                return InstallPlan::AlreadyRunning(i);
            } else {
                return InstallPlan::Resume(i);
            }
        }
        i = i + 1;
    }
    InstallPlan::FreshInstall
}

/// The index of the first cell with this role at or after `from`, or -1 if
/// there is none.
pub open spec fn spec_find_cell(cells: Seq<NamedCellView>, role: Seq<u8>, from: int) -> int
    decreases cells.len() - from,
{
    if from < 0 || from >= cells.len() {
        -1
    } else if cells[from].role == role {
        from
    } else {
        spec_find_cell(cells, role, from + 1)
    }
}

/// A found index lies in range and names a matching cell.
pub proof fn lemma_find_cell_bounds(cells: Seq<NamedCellView>, role: Seq<u8>, from: int)
    requires
        spec_find_cell(cells, role, from) >= 0,
    ensures
        from <= spec_find_cell(cells, role, from) < cells.len(),
        cells[spec_find_cell(cells, role, from)].role == role,
    decreases cells.len() - from,
{
    if from < 0 || from >= cells.len() {
    } else if cells[from].role == role {
    } else {
        lemma_find_cell_bounds(cells, role, from + 1);
    }
}

/// Resolve the application's cell identity: the first cell under the
/// expected role name, or `CellNotFound` when the role is absent — which
/// indicates a bundle/app-id mismatch.
pub fn resolve_cell(app: &InstalledApp, role: &Vec<u8>) -> (r: Result<CellId, Error>)
    ensures
        match r {
            Ok(c) => {
                &&& spec_find_cell(app@.cells, role@, 0) >= 0
                &&& c@ == app@.cells[spec_find_cell(app@.cells, role@, 0)].cell
            },
            Err(e) => {
                &&& e.kind == ErrorKind::CellNotFound
                &&& spec_find_cell(app@.cells, role@, 0) < 0
            },
        },
{
    let mut i: usize = 0;
    while i < app.cells.len()
        invariant
            i <= app.cells@.len(),
            app@.cells.len() == app.cells@.len(),
            spec_find_cell(app@.cells, role@, 0) == spec_find_cell(app@.cells, role@, i as int),
        decreases app.cells@.len() - i,
    {
        proof {
            assert(app@.cells[i as int] == app.cells@[i as int]@);
        }
        if bytes_eq(&app.cells[i].role, role) {
            return Ok(
                CellId {
                    dna_hash: vstd::slice::slice_to_vec(app.cells[i].cell.dna_hash.as_slice()),
                    agent_key: vstd::slice::slice_to_vec(app.cells[i].cell.agent_key.as_slice()),
                },
            );
        }
        i = i + 1;
    }
    Err(Error::new(ErrorKind::CellNotFound))
}

/// Whether to reuse an attached application interface or attach a new one.
#[derive(Clone, Copy, Debug, PartialEq, Eq, Structural)]
pub enum InterfaceChoice {
    /// Reuse the first interface already attached, on this port.
    Reuse(u16),
    /// None is attached: attach one, with an auto-assigned port.
    AttachNew,
}

/// The choice the attached-interface list dictates.
pub open spec fn spec_plan_interface(interfaces: Seq<u16>) -> InterfaceChoice {
    if interfaces.len() == 0 {
        InterfaceChoice::AttachNew
    } else {
        InterfaceChoice::Reuse(interfaces[0])
    }
}

/// Resolve the application interface: reuse the first attachment found, or
/// attach a new one only when none exists, so restarts never accumulate
/// duplicate listeners.
pub fn plan_interface(interfaces: &Vec<u16>) -> (r: InterfaceChoice)
    ensures
        r == spec_plan_interface(interfaces@),
{
    if interfaces.len() == 0 {
        InterfaceChoice::AttachNew
    } else {
        InterfaceChoice::Reuse(interfaces[0])
    }
}

/// The administrative channel's outcome of one install request.
#[derive(Debug)]
pub enum InstallOutcome {
    /// The host installed the bundle and reports the application.
    Installed(InstalledApp),
    /// The bundle was not found at its source.
    BundleMissing(String),
    /// The host rejected the bundle; its reason, surfaced as-is.
    Rejected(String),
}

/// Map the host's install outcome into the error taxonomy: a missing
/// bundle is `BundleNotFound`, a host-side validation failure is
/// `InstallRejected` and is never retried.
pub fn complete_install(outcome: InstallOutcome) -> (r: Result<InstalledApp, Error>)
    ensures
        match outcome {
            InstallOutcome::Installed(a) => r matches Ok(x) && x@ == a@,
            InstallOutcome::BundleMissing(m) => r matches Err(e) && e.kind
                == ErrorKind::BundleNotFound && e.detail == Some(m),
            InstallOutcome::Rejected(m) => r matches Err(e) && e.kind == ErrorKind::InstallRejected
                && e.detail == Some(m),
        },
{
    match outcome {
        InstallOutcome::Installed(a) => Ok(a),
        InstallOutcome::BundleMissing(m) => Err(Error::with_detail(ErrorKind::BundleNotFound, m)),
        InstallOutcome::Rejected(m) => Err(Error::with_detail(ErrorKind::InstallRejected, m)),
    }
}

/// Map the host's answer to an enable request: a refusal is `EnableFailed`
/// with the host's reason.
pub fn complete_enable(outcome: Result<(), String>) -> (r: Result<(), Error>)
    ensures
        match outcome {
            Ok(_) => r is Ok,
            Err(m) => r matches Err(e) && e.kind == ErrorKind::EnableFailed && e.detail == Some(m),
        },
{
    match outcome {
        Ok(_) => Ok(()),
        Err(m) => Err(Error::with_detail(ErrorKind::EnableFailed, m)),
    }
}

/// Map the host's answer to an attach request: the newly attached port, or
/// `InterfaceAttachFailed` with the host's reason.
pub fn complete_attach(outcome: Result<u16, String>) -> (r: Result<u16, Error>)
    ensures
        match outcome {
            Ok(p) => r == Ok::<u16, Error>(p),
            Err(m) => r matches Err(e) && e.kind == ErrorKind::InterfaceAttachFailed && e.detail
                == Some(m),
        },
{
    match outcome {
        Ok(p) => Ok(p),
        Err(m) => Err(Error::with_detail(ErrorKind::InterfaceAttachFailed, m)),
    }
}

/// An installed application, switched to running.
pub open spec fn spec_enabled(a: InstalledAppView) -> InstalledAppView {
    InstalledAppView { app_id: a.app_id, status: AppStatus::Running, cells: a.cells }
}

/// The host's installed applications after the actions of one plan: a
/// fresh install appends the one new application, a resume enables the
/// found one in place, and a running one is left alone.
pub open spec fn spec_apps_after(
    apps: Seq<InstalledAppView>,
    plan: InstallPlan,
    installed: InstalledAppView,
) -> Seq<InstalledAppView> {
    match plan {
        InstallPlan::FreshInstall => apps.push(installed),
        InstallPlan::Resume(i) => apps.update(i as int, spec_enabled(apps[i as int])),
        InstallPlan::AlreadyRunning(_) => apps,
    }
}

/// The host's attached interfaces after the actions of one choice: reuse
/// leaves them alone, attaching appends the one new port.
pub open spec fn spec_interfaces_after(
    interfaces: Seq<u16>,
    choice: InterfaceChoice,
    new_port: u16,
) -> Seq<u16> {
    match choice {
        InterfaceChoice::Reuse(_) => interfaces,
        InterfaceChoice::AttachNew => interfaces.push(new_port),
    }
}

/// Ensuring installation is idempotent.  Once an application with the id
/// is installed, every later pass plans at most an enable, so the count of
/// installed applications never grows; only the very first pass adds the
/// one application.  Likewise the interface count only ever grows from
/// none to one: an attached interface is reused, never doubled.
pub proof fn lemma_ensure_installed_idempotent(
    apps: Seq<InstalledAppView>,
    app_id: Seq<u8>,
    interfaces: Seq<u16>,
    installed: InstalledAppView,
    new_port: u16,
)
    ensures
        spec_has_app(apps, app_id) ==> spec_apps_after(
            apps,
            spec_plan_install(apps, app_id),
            installed,
        ).len() == apps.len(),
        !spec_has_app(apps, app_id) ==> spec_apps_after(
            apps,
            spec_plan_install(apps, app_id),
            installed,
        ).len() == apps.len() + 1,
        interfaces.len() >= 1 ==> spec_interfaces_after(
            interfaces,
            spec_plan_interface(interfaces),
            new_port,
        ) == interfaces,
        spec_interfaces_after(interfaces, spec_plan_interface(interfaces), new_port).len() == (
        if interfaces.len() == 0 {
            1int
        } else {
            interfaces.len() as int
        }),
{
    if spec_has_app(apps, app_id) {
        lemma_find_app_bounds(apps, app_id, 0);
    }
}

} // verus!
