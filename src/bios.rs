use vstd::prelude::*;
use crate::model::{Adoptable, ContentMetadata, InstalledContent, ValidationResult};
use crate::paths::{join, join_path};

verus! {

/// Where the installer lives, relative to a system root.
pub const GRUB_BIN: &'static str = "usr/sbin/grub2-install";

/// The firmware class a build targets; each build targets exactly one.
#[derive(PartialEq, Eq, Structural, Debug, Clone, Copy)]
pub enum FirmwareTarget {
    I386Pc,
    PowerpcIeee1275,
}

/// The BIOS/GRUB boot component.
#[derive(Debug, Clone, Copy)]
pub struct Bios {
    pub target: FirmwareTarget,
}

/// What the component asks of its host before it can go on.
#[derive(Debug)]
pub enum Request {
    /// Read the update metadata recorded under `root` for this component;
    /// answered by `Reply::Metadata`.
    ReadUpdateMetadata { root: String },
    /// Persist `meta` under `root` as this component's update metadata;
    /// answered by `Reply::Done`.
    WriteUpdateMetadata { root: String, meta: ContentMetadata },
    /// Whether `path` exists; answered by `Reply::Flag`.
    PathExists { path: String },
    /// The package metadata owning `paths` within `sysroot`; answered by
    /// `Reply::Metadata` with a record.
    QueryFiles { sysroot: String, paths: Vec<String> },
    /// Whether the machine booted in EFI mode; answered by `Reply::Flag`.
    IsEfiBooted,
    /// The single device backing `mount_point`; answered by `Reply::Device`.
    SingleDevice { mount_point: String },
    /// The BIOS-boot partition of `device`, if any; answered by
    /// `Reply::Partition`.
    BiosBootPartition { device: String },
    /// The generic probe for an unmanaged installation; answered by
    /// `Reply::Adopt`.
    ProbeAdoptable,
    /// Run the installer; answered by `Reply::Exit`.
    RunInstaller { program: String, args: Vec<String> },
}

/// The host's answer to a `Request`. Any request may be answered by
/// `Failed` with the host's own message.
#[derive(Debug)]
pub enum Reply {
    Done,
    Flag(bool),
    Metadata(Option<ContentMetadata>),
    Device(String),
    Partition(Option<String>),
    Adopt(Option<Adoptable>),
    Exit { success: bool, stderr: String },
    Failed(String),
}

/// Why an operation failed.
#[derive(Debug)]
pub enum BootError {
    /// No update metadata is recorded for the component.
    NoUpdateMetadata,
    /// The platform's loader-module directory is absent.
    MissingModules { path: String },
    /// A file the operation needs is absent.
    MissingFile { path: String },
    /// A host probe, query or write failed; its message, unchanged.
    Host(String),
    /// The installer exited unsuccessfully.
    InstallerFailed { program: String, args: Vec<String>, stderr: String },
    /// Adoption was asked for, but no adoptable installation is present now.
    NotAdoptable,
    /// The host answered with a reply of the wrong kind.
    UnexpectedReply,
}

/// The result of a finished operation.
#[derive(Debug)]
pub enum Outcome {
    /// `install`, `run_update`, `adopt_update`.
    Installed(InstalledContent),
    /// `generate_update_metadata`.
    Generated(ContentMetadata),
    /// `query_update`.
    Update(Option<ContentMetadata>),
    /// `query_adopt`.
    Adopt(Option<Adoptable>),
}

/// Where an operation stands while it waits for a reply.
#[derive(Debug)]
pub enum Stage {
    InstallMeta { dest_root: String, device: String },
    GenerateBinary { sysroot: String },
    GenerateQuery { sysroot: String },
    GenerateWrite { meta: ContentMetadata },
    QueryUpdate,
    UpdateMeta { dest_root: String },
    UpdateDevice { dest_root: String, meta: ContentMetadata },
    /// The adoption scan; `update` is set when it runs for `adopt_update`.
    AdoptEfi { update: Option<ContentMetadata> },
    AdoptDevice { update: Option<ContentMetadata> },
    AdoptPartition { update: Option<ContentMetadata> },
    AdoptProbe { update: Option<ContentMetadata> },
    AdoptTarget { meta: ContentMetadata, prior: String },
    GrubModules { dest_root: String, device: String, result: InstalledContent },
    GrubBinary { dest_root: String, device: String, result: InstalledContent },
    GrubRun { program: String, args: Vec<String>, result: InstalledContent },
}

/// Either a request with the stage that waits for its reply, or the end.
#[derive(Debug)]
pub enum Step {
    Ask(Stage, Request),
    Finish(Result<Outcome, BootError>),
}

pub open spec fn target_name(t: FirmwareTarget) -> Seq<char> {
    match t {
        FirmwareTarget::I386Pc => "i386-pc"@,
        FirmwareTarget::PowerpcIeee1275 => "powerpc-ieee1275"@,
    }
}

/// The loader-module directory that must exist before the installer runs.
pub open spec fn modules_dir(t: FirmwareTarget) -> Seq<char> {
    join_path("/usr/lib/grub"@, target_name(t))
}

/// The installer of the running system.
pub open spec fn installer_path() -> Seq<char> {
    join_path("/"@, GRUB_BIN@)
}

/// The installer's arguments: the firmware class, the boot directory under
/// `dest_root`, the pinned module list (or, on the secondary platform, no
/// firmware-variable update), and the target device.
pub open spec fn installer_args(t: FirmwareTarget, dest_root: Seq<char>, device: Seq<char>) -> Seq<
    Seq<char>,
> {
    match t {
        FirmwareTarget::I386Pc => seq![
            "--target"@,
            "i386-pc"@,
            "--boot-directory"@,
            join_path(dest_root, "boot"@),
            "--modules"@,
            "mdraid1x part_gpt"@,
            device,
        ],
        FirmwareTarget::PowerpcIeee1275 => seq![
            "--target"@,
            "powerpc-ieee1275"@,
            "--boot-directory"@,
            join_path(dest_root, "boot"@),
            "--no-nvram"@,
            device,
        ],
    }
}

pub open spec fn views(v: Seq<String>) -> Seq<Seq<char>> {
    v.map_values(|s: String| s@)
}


/// The grub install sequence begins: the host is asked whether the
/// loader-module directory exists.
pub open spec fn grub_begins(
    t: FirmwareTarget,
    dest_root: Seq<char>,
    device: Seq<char>,
    result: InstalledContent,
    r: Step,
) -> bool {
    match r {
        Step::Ask(Stage::GrubModules { dest_root: d, device: v, result: c }, Request::PathExists { path }) => {
            &&& d@ == dest_root
            &&& v@ == device
            &&& c == result
            &&& path@ == modules_dir(t)
        },
        _ => false,
    }
}

/// The end of the adoption scan with `found`: for `query_adopt` (no
/// `update`) the finding itself; for `adopt_update` a failure when nothing
/// was found, else the request for the device backing `/`.
pub open spec fn scan_ends(update: Option<ContentMetadata>, found: Option<Adoptable>, r: Step) -> bool {
    match update {
        None => r == Step::Finish(Ok(Outcome::Adopt(found))),
        Some(u) => match found {
            None => r == Step::Finish(Err(BootError::NotAdoptable)),
            Some(a) => match r {
                Step::Ask(Stage::AdoptTarget { meta, prior }, Request::SingleDevice { mount_point }) => {
                    &&& meta == u
                    &&& prior == a.version
                    &&& mount_point@ == "/"@
                },
                _ => false,
            },
        },
    }
}

/// The host could not answer: its message is passed on unchanged.
pub open spec fn host_failure(reply: Reply, r: Step) -> bool {
    match reply {
        Reply::Failed(e) => r == Step::Finish(Err(BootError::Host(e))),
        _ => r == Step::Finish(Err(BootError::UnexpectedReply)),
    }
}

impl Bios {
    /// The first step of the adoption scan of `query_adopt`.
    pub open spec fn query_adopt_begins(self) -> Step {
        match self.target {
            FirmwareTarget::I386Pc => Step::Ask(Stage::AdoptEfi { update: None }, Request::IsEfiBooted),
            FirmwareTarget::PowerpcIeee1275 => Step::Ask(
                Stage::AdoptProbe { update: None },
                Request::ProbeAdoptable,
            ),
        }
    }

    /// What follows `stage` once `reply` has come.
    pub open spec fn next(self, stage: Stage, reply: Reply, r: Step) -> bool {
        match stage {
            Stage::InstallMeta { dest_root, device } => match reply {
                Reply::Metadata(None) => r == Step::Finish(Err(BootError::NoUpdateMetadata)),
                Reply::Metadata(Some(m)) => grub_begins(
                    self.target,
                    dest_root@,
                    device@,
                    InstalledContent { meta: m, filetree: None, adopted_from: None },
                    r,
                ),
                _ => host_failure(reply, r),
            },
            Stage::GenerateBinary { sysroot } => match reply {
                Reply::Flag(false) => match r {
                    Step::Finish(Err(BootError::MissingFile { path })) => path@ == join_path(
                        sysroot@,
                        GRUB_BIN@,
                    ),
                    _ => false,
                },
                Reply::Flag(true) => match r {
                    Step::Ask(Stage::GenerateQuery { sysroot: s }, Request::QueryFiles { sysroot: q, paths }) => {
                        &&& s == sysroot
                        &&& q == sysroot
                        &&& views(paths@) == seq![join_path(sysroot@, GRUB_BIN@)]
                    },
                    _ => false,
                },
                _ => host_failure(reply, r),
            },
            Stage::GenerateQuery { sysroot } => match reply {
                Reply::Metadata(Some(m)) => r == Step::Ask(
                    Stage::GenerateWrite { meta: m },
                    Request::WriteUpdateMetadata { root: sysroot, meta: m },
                ),
                _ => host_failure(reply, r),
            },
            Stage::GenerateWrite { meta } => match reply {
                Reply::Done => r == Step::Finish(Ok(Outcome::Generated(meta))),
                _ => host_failure(reply, r),
            },
            Stage::QueryUpdate => match reply {
                Reply::Metadata(m) => r == Step::Finish(Ok(Outcome::Update(m))),
                _ => host_failure(reply, r),
            },
            Stage::UpdateMeta { dest_root } => match reply {
                Reply::Metadata(None) => r == Step::Finish(Err(BootError::NoUpdateMetadata)),
                Reply::Metadata(Some(m)) => r == Step::Ask(
                    Stage::UpdateDevice { dest_root, meta: m },
                    Request::SingleDevice { mount_point: dest_root },
                ),
                _ => host_failure(reply, r),
            },
            Stage::UpdateDevice { dest_root, meta } => match reply {
                Reply::Device(d) => grub_begins(
                    self.target,
                    dest_root@,
                    d@,
                    InstalledContent { meta, filetree: None, adopted_from: None },
                    r,
                ),
                _ => host_failure(reply, r),
            },
            Stage::AdoptEfi { update } => match reply {
                Reply::Flag(true) => match r {
                    Step::Ask(Stage::AdoptDevice { update: u }, Request::SingleDevice { mount_point }) => {
                        &&& u == update
                        &&& mount_point@ == "/"@
                    },
                    _ => false,
                },
                Reply::Flag(false) => r == Step::Ask(
                    Stage::AdoptProbe { update },
                    Request::ProbeAdoptable,
                ),
                _ => host_failure(reply, r),
            },
            Stage::AdoptDevice { update } => match reply {
                Reply::Device(d) => r == Step::Ask(
                    Stage::AdoptPartition { update },
                    Request::BiosBootPartition { device: d },
                ),
                _ => scan_ends(update, None, r),
            },
            Stage::AdoptPartition { update } => match reply {
                Reply::Partition(Some(_)) => r == Step::Ask(
                    Stage::AdoptProbe { update },
                    Request::ProbeAdoptable,
                ),
                _ => scan_ends(update, None, r),
            },
            Stage::AdoptProbe { update } => match reply {
                Reply::Adopt(found) => scan_ends(update, found, r),
                _ => host_failure(reply, r),
            },
            Stage::AdoptTarget { meta, prior } => match reply {
                Reply::Device(d) => grub_begins(
                    self.target,
                    "/"@,
                    d@,
                    InstalledContent { meta, filetree: None, adopted_from: Some(prior) },
                    r,
                ),
                _ => host_failure(reply, r),
            },
            Stage::GrubModules { dest_root, device, result } => match reply {
                Reply::Flag(true) => match r {
                    Step::Ask(Stage::GrubBinary { dest_root: d, device: v, result: c }, Request::PathExists { path }) => {
                        &&& d == dest_root
                        &&& v == device
                        &&& c == result
                        &&& path@ == installer_path()
                    },
                    _ => false,
                },
                Reply::Flag(false) => match r {
                    Step::Finish(Err(BootError::MissingModules { path })) => path@ == modules_dir(self.target),
                    _ => false,
                },
                _ => host_failure(reply, r),
            },
            Stage::GrubBinary { dest_root, device, result } => match reply {
                Reply::Flag(true) => match r {
                    Step::Ask(Stage::GrubRun { program, args, result: c }, Request::RunInstaller { program: p, args: a }) => {
                        &&& c == result
                        &&& p == program
                        &&& views(a@) == views(args@)
                        &&& program@ == installer_path()
                        &&& views(args@) == installer_args(self.target, dest_root@, device@)
                    },
                    _ => false,
                },
                Reply::Flag(false) => match r {
                    Step::Finish(Err(BootError::MissingFile { path })) => path@ == installer_path(),
                    _ => false,
                },
                _ => host_failure(reply, r),
            },
            Stage::GrubRun { program, args, result } => match reply {
                Reply::Exit { success: true, stderr: _ } => r == Step::Finish(Ok(Outcome::Installed(result))),
                Reply::Exit { success: false, stderr } => r == Step::Finish(
                    Err(BootError::InstallerFailed { program, args, stderr }),
                ),
                _ => host_failure(reply, r),
            },
        }
    }
}

impl Bios {
    /// The component's stable name.
    pub fn name(&self) -> (r: &'static str)
        ensures
            r@ == "BIOS"@,
    {
        "BIOS"
    }

    /// Begins installing the component on `device`, with its boot directory
    /// under `dest_root`, from the update metadata recorded under
    /// `src_root`. The firmware flag has no effect on this component.
    pub fn install(&self, src_root: &str, dest_root: &str, device: &str, update_firmware: bool) -> (r: Step)
        ensures
            match r {
                Step::Ask(Stage::InstallMeta { dest_root: d, device: v }, Request::ReadUpdateMetadata { root }) => {
                    &&& d@ == dest_root@
                    &&& v@ == device@
                    &&& root@ == src_root@
                },
                _ => false,
            },
    {
        Step::Ask(
            Stage::InstallMeta { dest_root: dest_root.to_owned(), device: device.to_owned() },
            Request::ReadUpdateMetadata { root: src_root.to_owned() },
        )
    }

    /// Begins deriving, and recording under `sysroot_path`, the update
    /// metadata of the installer found in that system root.
    pub fn generate_update_metadata(&self, sysroot_path: &str) -> (r: Step)
        ensures
            match r {
                Step::Ask(Stage::GenerateBinary { sysroot }, Request::PathExists { path }) => {
                    &&& sysroot@ == sysroot_path@
                    &&& path@ == join_path(sysroot_path@, GRUB_BIN@)
                },
                _ => false,
            },
    {
        Step::Ask(
            Stage::GenerateBinary { sysroot: sysroot_path.to_owned() },
            Request::PathExists { path: join(sysroot_path, GRUB_BIN) },
        )
    }

    /// Begins reading the update metadata recorded under `sysroot`. Its
    /// absence means that none is recorded, not that the component is
    /// current.
    pub fn query_update(&self, sysroot: &str) -> (r: Step)
        ensures
            match r {
                Step::Ask(Stage::QueryUpdate, Request::ReadUpdateMetadata { root }) => root@ == sysroot@,
                _ => false,
            },
    {
        Step::Ask(Stage::QueryUpdate, Request::ReadUpdateMetadata { root: sysroot.to_owned() })
    }

    /// Begins updating the component of the system mounted at `sysroot`.
    /// The update metadata is read again; where none is recorded the update
    /// fails rather than trusting the caller.
    pub fn run_update(&self, sysroot: &str, current: &InstalledContent) -> (r: Step)
        ensures
            match r {
                Step::Ask(Stage::UpdateMeta { dest_root }, Request::ReadUpdateMetadata { root }) => {
                    &&& dest_root@ == sysroot@
                    &&& root@ == sysroot@
                },
                _ => false,
            },
    {
        Step::Ask(
            Stage::UpdateMeta { dest_root: sysroot.to_owned() },
            Request::ReadUpdateMetadata { root: sysroot.to_owned() },
        )
    }

    /// Begins the adoption scan. On the primary platform the machine's boot
    /// mode is asked first; on the secondary one the generic probe directly.
    pub fn query_adopt(&self) -> (r: Step)
        ensures
            r == self.query_adopt_begins(),
    {
        Self::scan_begin(self.target, None)
    }

    /// Begins taking over an unmanaged installation as `update`. The scan
    /// of `query_adopt` runs again now, rather than trusting an earlier one.
    pub fn adopt_update(&self, root: &str, update: &ContentMetadata) -> (r: Step)
        ensures
            self.target == FirmwareTarget::I386Pc ==> r == Step::Ask(
                Stage::AdoptEfi { update: Some(*update) },
                Request::IsEfiBooted,
            ),
            self.target == FirmwareTarget::PowerpcIeee1275 ==> r == Step::Ask(
                Stage::AdoptProbe { update: Some(*update) },
                Request::ProbeAdoptable,
            ),
    {
        Self::scan_begin(self.target, Some(update.clone()))
    }

    fn scan_begin(target: FirmwareTarget, update: Option<ContentMetadata>) -> (r: Step)
        ensures
            target == FirmwareTarget::I386Pc ==> r == Step::Ask(
                Stage::AdoptEfi { update },
                Request::IsEfiBooted,
            ),
            target == FirmwareTarget::PowerpcIeee1275 ==> r == Step::Ask(
                Stage::AdoptProbe { update },
                Request::ProbeAdoptable,
            ),
    {
        match target {
            FirmwareTarget::I386Pc => Step::Ask(Stage::AdoptEfi { update }, Request::IsEfiBooted),
            FirmwareTarget::PowerpcIeee1275 => Step::Ask(
                Stage::AdoptProbe { update },
                Request::ProbeAdoptable,
            ),
        }
    }

    /// This component leaves no signature on disk that could be checked.
    pub fn validate(&self, installed: &InstalledContent) -> (r: ValidationResult)
        ensures
            r == ValidationResult::Skip,
    {
        ValidationResult::Skip
    }

    /// This component has no EFI vendor directory.
    pub fn get_efi_vendor(&self, sysroot: &str) -> (r: Option<String>)
        ensures
            r is None,
    {
        None
    }

    /// Interprets the host's answer on whether the loader-module directory
    /// exists.
    pub fn check_grub_modules(&self, reply: Reply) -> (r: Result<bool, BootError>)
        ensures
            match reply {
                Reply::Flag(b) => r == Ok::<bool, BootError>(b),
                Reply::Failed(e) => r == Err::<bool, BootError>(BootError::Host(e)),
                _ => r == Err::<bool, BootError>(BootError::UnexpectedReply),
            },
    {
        match reply {
            Reply::Flag(b) => Ok(b),
            Reply::Failed(e) => Err(BootError::Host(e)),
            _ => Err(BootError::UnexpectedReply),
        }
    }

    /// Interprets the host's answer on the BIOS-boot partition: a failed
    /// probe counts as no partition.
    pub fn get_bios_boot_partition(&self, reply: Reply) -> (r: Option<String>)
        ensures
            match reply {
                Reply::Partition(p) => r == p,
                _ => r is None,
            },
    {
        match reply {
            Reply::Partition(p) => p,
            _ => None,
        }
    }

    fn grub_begin(&self, dest_root: String, device: String, result: InstalledContent) -> (r: Step)
        ensures
            grub_begins(self.target, dest_root@, device@, result, r),
    {
        let path = self.grub_modules_dir();
        Step::Ask(Stage::GrubModules { dest_root, device, result }, Request::PathExists { path })
    }

    fn scan_end(update: Option<ContentMetadata>, found: Option<Adoptable>) -> (r: Step)
        ensures
            scan_ends(update, found, r),
    {
        match update {
            None => Step::Finish(Ok(Outcome::Adopt(found))),
            Some(u) => match found {
                None => Step::Finish(Err(BootError::NotAdoptable)),
                Some(a) => Step::Ask(
                    Stage::AdoptTarget { meta: u, prior: a.version },
                    Request::SingleDevice { mount_point: "/".to_owned() },
                ),
            },
        }
    }

    fn fail(reply: Reply) -> (r: Step)
        ensures
            host_failure(reply, r),
    {
        match reply {
            Reply::Failed(e) => Step::Finish(Err(BootError::Host(e))),
            _ => Step::Finish(Err(BootError::UnexpectedReply)),
        }
    }

    /// Takes the operation waiting at `stage` one step further with the
    /// host's `reply`.
    pub fn step(&self, stage: Stage, reply: Reply) -> (r: Step)
        ensures
            self.next(stage, reply, r),
    {
        match stage {
            Stage::InstallMeta { dest_root, device } => match reply {
                Reply::Metadata(None) => Step::Finish(Err(BootError::NoUpdateMetadata)),
                Reply::Metadata(Some(meta)) => self.grub_begin(
                    dest_root,
                    device,
                    InstalledContent { meta, filetree: None, adopted_from: None },
                ),
                _ => Self::fail(reply),
            },
            Stage::GenerateBinary { sysroot } => {
                let path = join(sysroot.as_str(), GRUB_BIN);
                match reply {
                    Reply::Flag(false) => Step::Finish(Err(BootError::MissingFile { path })),
                    Reply::Flag(true) => {
                        let mut paths: Vec<String> = Vec::new();
                        paths.push(path);
                        assert(views(paths@) =~= seq![join_path(sysroot@, GRUB_BIN@)]);
                        let q = sysroot.clone();
                        Step::Ask(
                            Stage::GenerateQuery { sysroot },
                            Request::QueryFiles { sysroot: q, paths },
                        )
                    },
                    _ => Self::fail(reply),
                }
            },
            Stage::GenerateQuery { sysroot } => match reply {
                Reply::Metadata(Some(meta)) => {
                    let m = meta.clone();
                    Step::Ask(
                        Stage::GenerateWrite { meta },
                        Request::WriteUpdateMetadata { root: sysroot, meta: m },
                    )
                },
                _ => Self::fail(reply),
            },
            Stage::GenerateWrite { meta } => match reply {
                Reply::Done => Step::Finish(Ok(Outcome::Generated(meta))),
                _ => Self::fail(reply),
            },
            Stage::QueryUpdate => match reply {
                Reply::Metadata(m) => Step::Finish(Ok(Outcome::Update(m))),
                _ => Self::fail(reply),
            },
            Stage::UpdateMeta { dest_root } => match reply {
                Reply::Metadata(None) => Step::Finish(Err(BootError::NoUpdateMetadata)),
                Reply::Metadata(Some(meta)) => {
                    let mount_point = dest_root.clone();
                    Step::Ask(
                        Stage::UpdateDevice { dest_root, meta },
                        Request::SingleDevice { mount_point },
                    )
                },
                _ => Self::fail(reply),
            },
            Stage::UpdateDevice { dest_root, meta } => match reply {
                Reply::Device(device) => self.grub_begin(
                    dest_root,
                    device,
                    InstalledContent { meta, filetree: None, adopted_from: None },
                ),
                _ => Self::fail(reply),
            },
            Stage::AdoptEfi { update } => match reply {
                Reply::Flag(true) => Step::Ask(
                    Stage::AdoptDevice { update },
                    Request::SingleDevice { mount_point: "/".to_owned() },
                ),
                Reply::Flag(false) => Step::Ask(Stage::AdoptProbe { update }, Request::ProbeAdoptable),
                _ => Self::fail(reply),
            },
            Stage::AdoptDevice { update } => match reply {
                Reply::Device(device) => Step::Ask(
                    Stage::AdoptPartition { update },
                    Request::BiosBootPartition { device },
                ),
                _ => Self::scan_end(update, None),
            },
            Stage::AdoptPartition { update } => match self.get_bios_boot_partition(reply) {
                Some(_) => Step::Ask(Stage::AdoptProbe { update }, Request::ProbeAdoptable),
                None => Self::scan_end(update, None),
            },
            Stage::AdoptProbe { update } => match reply {
                Reply::Adopt(found) => Self::scan_end(update, found),
                _ => Self::fail(reply),
            },
            Stage::AdoptTarget { meta, prior } => match reply {
                Reply::Device(device) => self.grub_begin(
                    "/".to_owned(),
                    device,
                    InstalledContent { meta, filetree: None, adopted_from: Some(prior) },
                ),
                _ => Self::fail(reply),
            },
            Stage::GrubModules { dest_root, device, result } => match self.check_grub_modules(reply) {
                Ok(true) => {
                    let path = join("/", GRUB_BIN);
                    Step::Ask(
                        Stage::GrubBinary { dest_root, device, result },
                        Request::PathExists { path },
                    )
                },
                Ok(false) => Step::Finish(
                    Err(BootError::MissingModules { path: self.grub_modules_dir() }),
                ),
                Err(e) => Step::Finish(Err(e)),
            },
            Stage::GrubBinary { dest_root, device, result } => match reply {
                Reply::Flag(true) => {
                    let program = join("/", GRUB_BIN);
                    let args = self.grub_install_args(dest_root.as_str(), device.as_str());
                    let p = program.clone();
                    let a = self.grub_install_args(dest_root.as_str(), device.as_str());
                    Step::Ask(
                        Stage::GrubRun { program, args, result },
                        Request::RunInstaller { program: p, args: a },
                    )
                },
                Reply::Flag(false) => Step::Finish(
                    Err(BootError::MissingFile { path: join("/", GRUB_BIN) }),
                ),
                _ => Self::fail(reply),
            },
            Stage::GrubRun { program, args, result } => match reply {
                Reply::Exit { success: true, stderr: _ } => Step::Finish(
                    Ok(Outcome::Installed(result)),
                ),
                Reply::Exit { success: false, stderr } => Step::Finish(
                    Err(BootError::InstallerFailed { program, args, stderr }),
                ),
                _ => Self::fail(reply),
            },
        }
    }

    /// The loader-module directory of this build's firmware class.
    pub fn grub_modules_dir(&self) -> (r: String)
        ensures
            r@ == modules_dir(self.target),
    {
        match self.target {
            FirmwareTarget::I386Pc => join("/usr/lib/grub", "i386-pc"),
            FirmwareTarget::PowerpcIeee1275 => join("/usr/lib/grub", "powerpc-ieee1275"),
        }
    }

    /// The arguments the installer is run with.
    pub fn grub_install_args(&self, dest_root: &str, device: &str) -> (r: Vec<String>)
        ensures
            views(r@) == installer_args(self.target, dest_root@, device@),
    {
        let mut v: Vec<String> = Vec::new();
        v.push("--target".to_owned());
        match self.target {
            FirmwareTarget::I386Pc => v.push("i386-pc".to_owned()),
            FirmwareTarget::PowerpcIeee1275 => v.push("powerpc-ieee1275".to_owned()),
        }
        v.push("--boot-directory".to_owned());
        v.push(join(dest_root, "boot"));
        match self.target {
            FirmwareTarget::I386Pc => {
                v.push("--modules".to_owned());
                v.push("mdraid1x part_gpt".to_owned());
            },
            FirmwareTarget::PowerpcIeee1275 => v.push("--no-nvram".to_owned()),
        }
        v.push(device.to_owned());
        assert(views(v@) =~= installer_args(self.target, dest_root@, device@));
        v
    }
}

} // verus!
