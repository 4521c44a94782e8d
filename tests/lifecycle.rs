use bootbios::bios::{Bios, BootError, FirmwareTarget, Outcome, Reply, Request, Stage, Step};
use bootbios::model::{update_available, Adoptable, ContentMetadata, InstalledContent, ValidationResult};
use bootbios::paths::join;
use bootbios::record::ComponentRecord;

const T0: i64 = 1_650_000_000;
const T1: i64 = 1_700_000_000;

fn meta(package: &str, version: &str, timestamp: i64) -> ContentMetadata {
    ContentMetadata { package: package.to_string(), version: version.to_string(), timestamp }
}

/// A host that answers from fixed facts and records what it was asked.
struct FakeHost {
    update_meta: Option<ContentMetadata>,
    package_meta: ContentMetadata,
    present: Vec<String>,
    efi: bool,
    device: Result<String, String>,
    partition: Option<String>,
    adoptable: Option<String>,
    installer_ok: bool,
    installer_runs: Vec<(String, Vec<String>)>,
    probes: usize,
    reads: usize,
}

impl FakeHost {
    fn new() -> FakeHost {
        FakeHost {
            update_meta: None,
            package_meta: meta("grub2-tools", "2.06", T0),
            present: vec![
                "/usr/lib/grub/i386-pc".to_string(),
                "/usr/lib/grub/powerpc-ieee1275".to_string(),
                "/usr/sbin/grub2-install".to_string(),
                "/sysroot/usr/sbin/grub2-install".to_string(),
            ],
            efi: false,
            device: Ok("/dev/vda".to_string()),
            partition: Some("/dev/vda1".to_string()),
            adoptable: None,
            installer_ok: true,
            installer_runs: Vec::new(),
            probes: 0,
            reads: 0,
        }
    }

    fn answer(&mut self, req: Request) -> Reply {
        match req {
            Request::ReadUpdateMetadata { .. } => {
                self.reads += 1;
                Reply::Metadata(self.update_meta.clone())
            }
            Request::WriteUpdateMetadata { meta, .. } => {
                self.update_meta = Some(meta);
                Reply::Done
            }
            Request::PathExists { path } => Reply::Flag(self.present.contains(&path)),
            Request::QueryFiles { .. } => Reply::Metadata(Some(self.package_meta.clone())),
            Request::IsEfiBooted => Reply::Flag(self.efi),
            Request::SingleDevice { .. } => match &self.device {
                Ok(d) => Reply::Device(d.clone()),
                Err(e) => Reply::Failed(e.clone()),
            },
            Request::BiosBootPartition { .. } => Reply::Partition(self.partition.clone()),
            Request::ProbeAdoptable => {
                self.probes += 1;
                Reply::Adopt(
                    self.adoptable.clone().map(|version| Adoptable { version, confident: true }),
                )
            }
            Request::RunInstaller { program, args } => {
                self.installer_runs.push((program, args));
                Reply::Exit {
                    success: self.installer_ok,
                    stderr: if self.installer_ok { String::new() } else { "disk busy".to_string() },
                }
            }
        }
    }
}

fn drive(bios: &Bios, host: &mut FakeHost, first: Step) -> Step {
    let mut step = first;
    loop {
        match step {
            Step::Ask(stage, req) => {
                let reply = host.answer(req);
                step = bios.step(stage, reply);
            }
            done => return done,
        }
    }
}

fn outcome(step: Step) -> Result<Outcome, BootError> {
    match step {
        Step::Finish(r) => r,
        Step::Ask(..) => panic!("operation did not finish"),
    }
}

fn installed(step: Step) -> InstalledContent {
    match outcome(step) {
        Ok(Outcome::Installed(c)) => c,
        other => panic!("expected an installation, got {:?}", other),
    }
}

fn x86() -> Bios {
    Bios { target: FirmwareTarget::I386Pc }
}

#[test]
fn fresh_machine_install() {
    let bios = x86();
    let mut host = FakeHost::new();
    let generated = drive(&bios, &mut host, bios.generate_update_metadata("/sysroot"));
    let expected = meta("grub2-tools", "2.06", T0);
    match outcome(generated) {
        Ok(Outcome::Generated(m)) => assert_eq!(m, expected),
        other => panic!("unexpected {:?}", other),
    }
    assert_eq!(host.update_meta, Some(expected.clone()));

    let first = bios.install("/sysroot", "/", "/dev/vda", false);
    let c = installed(drive(&bios, &mut host, first));
    assert_eq!(c.meta, expected);
    assert_eq!(c.adopted_from, None);
    assert_eq!(c.filetree, None);
    assert_eq!(host.installer_runs.len(), 1);
    let (program, args) = &host.installer_runs[0];
    assert_eq!(program, "/usr/sbin/grub2-install");
    assert_eq!(
        args,
        &vec![
            "--target",
            "i386-pc",
            "--boot-directory",
            "/boot",
            "--modules",
            "mdraid1x part_gpt",
            "/dev/vda"
        ]
    );
}

#[test]
fn adopt_unmanaged_bios() {
    let bios = x86();
    let mut host = FakeHost::new();
    host.adoptable = Some("2.04".to_string());
    match outcome(drive(&bios, &mut host, bios.query_adopt())) {
        Ok(Outcome::Adopt(Some(a))) => assert_eq!(a.version, "2.04"),
        other => panic!("unexpected {:?}", other),
    }
    assert!(host.installer_runs.is_empty());

    let update = meta("grub2-tools", "2.06", T0);
    let c = installed(drive(&bios, &mut host, bios.adopt_update("/", &update)));
    assert_eq!(host.installer_runs.len(), 1);
    assert_eq!(c.adopted_from, Some("2.04".to_string()));
    assert_eq!(c.meta, update);
    assert_eq!(host.installer_runs[0].1[3], "/boot");
}

#[test]
fn update_stale_component() {
    let bios = x86();
    let mut host = FakeHost::new();
    let mut record = ComponentRecord::new();
    record.installed = Some(InstalledContent {
        meta: meta("grub2-tools", "v1", T0),
        filetree: None,
        adopted_from: None,
    });
    host.update_meta = Some(meta("grub2-tools", "v2", T1));

    let live = match outcome(drive(&bios, &mut host, bios.query_update("/"))) {
        Ok(Outcome::Update(Some(m))) => m,
        other => panic!("unexpected {:?}", other),
    };
    assert_eq!(live, meta("grub2-tools", "v2", T1));
    let current = record.installed.clone().unwrap();
    assert!(update_available(&current.meta, &live));

    let end = drive(&bios, &mut host, bios.run_update("/sysroot", &current));
    record.record(&end);
    assert_eq!(host.installer_runs.len(), 1);
    assert_eq!(host.installer_runs[0].1[3], "/sysroot/boot");
    let now = record.installed.unwrap();
    assert_eq!(now.meta, meta("grub2-tools", "v2", T1));
    assert_eq!(now.adopted_from, None);
}

#[test]
fn update_available_iff_records_differ() {
    let p = meta("grub2-tools", "2.06", T0);
    assert!(!update_available(&p, &meta("grub2-tools", "2.06", T0)));
    assert!(update_available(&p, &meta("grub2-tools", "2.07", T0)));
    assert!(update_available(&p, &meta("grub2-tools", "2.06", T1)));
    assert!(update_available(&p, &meta("grub2-pc", "2.06", T0)));
}

#[test]
fn query_update_is_repeatable() {
    let bios = x86();
    let mut host = FakeHost::new();
    host.update_meta = Some(meta("grub2-tools", "2.06", T0));
    let a = outcome(drive(&bios, &mut host, bios.query_update("/")));
    let b = outcome(drive(&bios, &mut host, bios.query_update("/")));
    match (a, b) {
        (Ok(Outcome::Update(x)), Ok(Outcome::Update(y))) => {
            assert_eq!(x, y);
            assert_eq!(x, Some(meta("grub2-tools", "2.06", T0)));
        }
        other => panic!("unexpected {:?}", other),
    }
    assert_eq!(host.reads, 2);
    assert!(host.installer_runs.is_empty());
}

#[test]
fn query_update_without_metadata_is_none() {
    let bios = x86();
    let mut host = FakeHost::new();
    assert!(matches!(
        outcome(drive(&bios, &mut host, bios.query_update("/"))),
        Ok(Outcome::Update(None))
    ));
}

#[test]
fn install_without_metadata_fails() {
    let bios = x86();
    let mut host = FakeHost::new();
    let r = outcome(drive(&bios, &mut host, bios.install("/", "/", "/dev/vda", true)));
    assert!(matches!(r, Err(BootError::NoUpdateMetadata)));
    assert!(host.installer_runs.is_empty());
}

#[test]
fn efi_without_bios_partition_skips_adoption() {
    let bios = x86();
    let mut host = FakeHost::new();
    host.efi = true;
    host.partition = None;
    host.adoptable = Some("2.04".to_string());
    let r = outcome(drive(&bios, &mut host, bios.query_adopt()));
    assert!(matches!(r, Ok(Outcome::Adopt(None))));
    assert_eq!(host.probes, 0);

    let update = meta("grub2-tools", "2.06", T0);
    let r = outcome(drive(&bios, &mut host, bios.adopt_update("/", &update)));
    assert!(matches!(r, Err(BootError::NotAdoptable)));
    assert_eq!(host.probes, 0);
    assert!(host.installer_runs.is_empty());
}

#[test]
fn efi_with_unresolvable_root_skips_adoption() {
    let bios = x86();
    let mut host = FakeHost::new();
    host.efi = true;
    host.device = Err("found multiple devices for /".to_string());
    host.adoptable = Some("2.04".to_string());
    let r = outcome(drive(&bios, &mut host, bios.query_adopt()));
    assert!(matches!(r, Ok(Outcome::Adopt(None))));
    assert_eq!(host.probes, 0);
}

#[test]
fn efi_with_bios_partition_probes_adoption() {
    let bios = x86();
    let mut host = FakeHost::new();
    host.efi = true;
    host.adoptable = Some("2.04".to_string());
    let r = outcome(drive(&bios, &mut host, bios.query_adopt()));
    assert!(matches!(r, Ok(Outcome::Adopt(Some(_)))));
    assert_eq!(host.probes, 1);
}

#[test]
fn powerpc_adoption_probes_directly() {
    let bios = Bios { target: FirmwareTarget::PowerpcIeee1275 };
    let mut host = FakeHost::new();
    host.efi = true;
    host.partition = None;
    let r = outcome(drive(&bios, &mut host, bios.query_adopt()));
    assert!(matches!(r, Ok(Outcome::Adopt(None))));
    assert_eq!(host.probes, 1);
}

#[test]
fn device_error_propagates_through_run_update() {
    let bios = x86();
    let mut host = FakeHost::new();
    host.update_meta = Some(meta("grub2-tools", "v2", T1));
    host.device = Err("found multiple devices for /sysroot".to_string());
    let mut record = ComponentRecord::new();
    let old = meta("grub2-tools", "v1", T0);
    record.installed = Some(InstalledContent { meta: old.clone(), filetree: None, adopted_from: None });
    let current = record.installed.clone().unwrap();
    let end = drive(&bios, &mut host, bios.run_update("/sysroot", &current));
    record.record(&end);
    match outcome(end) {
        Err(BootError::Host(msg)) => assert_eq!(msg, "found multiple devices for /sysroot"),
        other => panic!("unexpected {:?}", other),
    }
    assert!(host.installer_runs.is_empty());
    assert_eq!(record.installed.unwrap().meta, old);
}

#[test]
fn device_error_propagates_through_adopt_update() {
    let bios = x86();
    let mut host = FakeHost::new();
    host.adoptable = Some("2.04".to_string());
    host.device = Err("found multiple devices for /".to_string());
    let update = meta("grub2-tools", "2.06", T0);
    match outcome(drive(&bios, &mut host, bios.adopt_update("/", &update))) {
        Err(BootError::Host(msg)) => assert_eq!(msg, "found multiple devices for /"),
        other => panic!("unexpected {:?}", other),
    }
    assert!(host.installer_runs.is_empty());
}

#[test]
fn installer_failure_keeps_record() {
    let bios = x86();
    let mut host = FakeHost::new();
    host.update_meta = Some(meta("grub2-tools", "v2", T1));
    host.installer_ok = false;
    let mut record = ComponentRecord::new();
    let old = meta("grub2-tools", "v1", T0);
    record.installed = Some(InstalledContent {
        meta: old.clone(),
        filetree: None,
        adopted_from: Some("1.0".to_string()),
    });
    let current = record.installed.clone().unwrap();
    let end = drive(&bios, &mut host, bios.run_update("/", &current));
    record.record(&end);
    match outcome(end) {
        Err(BootError::InstallerFailed { program, args, stderr }) => {
            assert_eq!(program, "/usr/sbin/grub2-install");
            assert_eq!(args.last().unwrap(), "/dev/vda");
            assert_eq!(stderr, "disk busy");
        }
        other => panic!("unexpected {:?}", other),
    }
    let kept = record.installed.unwrap();
    assert_eq!(kept.meta, old);
    assert_eq!(kept.adopted_from, Some("1.0".to_string()));
}

#[test]
fn missing_modules_stop_install() {
    let bios = x86();
    let mut host = FakeHost::new();
    host.update_meta = Some(meta("grub2-tools", "2.06", T0));
    host.present.retain(|p| p != "/usr/lib/grub/i386-pc");
    match outcome(drive(&bios, &mut host, bios.install("/", "/", "/dev/vda", false))) {
        Err(BootError::MissingModules { path }) => assert_eq!(path, "/usr/lib/grub/i386-pc"),
        other => panic!("unexpected {:?}", other),
    }
    assert!(host.installer_runs.is_empty());
}

#[test]
fn missing_installer_stops_install() {
    let bios = x86();
    let mut host = FakeHost::new();
    host.update_meta = Some(meta("grub2-tools", "2.06", T0));
    host.present.retain(|p| p != "/usr/sbin/grub2-install");
    match outcome(drive(&bios, &mut host, bios.install("/", "/", "/dev/vda", false))) {
        Err(BootError::MissingFile { path }) => assert_eq!(path, "/usr/sbin/grub2-install"),
        other => panic!("unexpected {:?}", other),
    }
    assert!(host.installer_runs.is_empty());
}

#[test]
fn generate_without_installer_fails() {
    let bios = x86();
    let mut host = FakeHost::new();
    match outcome(drive(&bios, &mut host, bios.generate_update_metadata("/mnt/"))) {
        Err(BootError::MissingFile { path }) => assert_eq!(path, "/mnt/usr/sbin/grub2-install"),
        other => panic!("unexpected {:?}", other),
    }
    assert_eq!(host.update_meta, None);
}

#[test]
fn run_update_without_metadata_fails() {
    let bios = x86();
    let mut host = FakeHost::new();
    let current = InstalledContent {
        meta: meta("grub2-tools", "v1", T0),
        filetree: None,
        adopted_from: None,
    };
    let r = outcome(drive(&bios, &mut host, bios.run_update("/", &current)));
    assert!(matches!(r, Err(BootError::NoUpdateMetadata)));
    assert!(host.installer_runs.is_empty());
}

#[test]
fn host_failure_passes_through() {
    let bios = x86();
    let r = bios.step(Stage::QueryUpdate, Reply::Failed("cannot read".to_string()));
    match outcome(r) {
        Err(BootError::Host(msg)) => assert_eq!(msg, "cannot read"),
        other => panic!("unexpected {:?}", other),
    }
}

#[test]
fn wrong_reply_is_rejected() {
    let bios = x86();
    let r = bios.step(Stage::QueryUpdate, Reply::Flag(true));
    assert!(matches!(outcome(r), Err(BootError::UnexpectedReply)));
}

#[test]
fn powerpc_installer_arguments() {
    let bios = Bios { target: FirmwareTarget::PowerpcIeee1275 };
    assert_eq!(
        bios.grub_install_args("/sysroot/", "/dev/sda"),
        vec![
            "--target",
            "powerpc-ieee1275",
            "--boot-directory",
            "/sysroot/boot",
            "--no-nvram",
            "/dev/sda"
        ]
    );
    assert_eq!(bios.grub_modules_dir(), "/usr/lib/grub/powerpc-ieee1275");
}

#[test]
fn path_join_forms() {
    assert_eq!(join("/", "boot"), "/boot");
    assert_eq!(join("/sysroot", "boot"), "/sysroot/boot");
    assert_eq!(join("/sysroot/", "boot"), "/sysroot/boot");
    assert_eq!(join("", "boot"), "boot");
}

#[test]
fn probe_answers_are_read() {
    let bios = x86();
    assert!(matches!(bios.check_grub_modules(Reply::Flag(true)), Ok(true)));
    assert!(matches!(bios.check_grub_modules(Reply::Flag(false)), Ok(false)));
    assert!(matches!(
        bios.check_grub_modules(Reply::Failed("io".to_string())),
        Err(BootError::Host(_))
    ));
    assert_eq!(
        bios.get_bios_boot_partition(Reply::Partition(Some("/dev/vda1".to_string()))),
        Some("/dev/vda1".to_string())
    );
    assert_eq!(bios.get_bios_boot_partition(Reply::Failed("no table".to_string())), None);
}

#[test]
fn fixed_answers_of_the_component() {
    let bios = x86();
    let c = InstalledContent { meta: meta("grub2-tools", "2.06", T0), filetree: None, adopted_from: None };
    assert_eq!(bios.validate(&c), ValidationResult::Skip);
    assert_eq!(bios.get_efi_vendor("/"), None);
    assert_eq!(bios.name(), "BIOS");
}

#[test]
fn record_keeps_value_on_other_outcomes() {
    let mut record = ComponentRecord::new();
    record.record(&Step::Finish(Ok(Outcome::Update(None))));
    assert!(record.installed.is_none());
    let c = InstalledContent { meta: meta("grub2-tools", "2.06", T0), filetree: None, adopted_from: None };
    record.record(&Step::Finish(Ok(Outcome::Installed(c))));
    assert_eq!(record.installed.unwrap().meta.version, "2.06");
}
