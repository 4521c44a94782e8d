use vstd::prelude::*;
use crate::bios::{BootError, Bios, FirmwareTarget, Outcome, Reply, Request, Stage, Step};
use crate::model::{ContentMetadata, InstalledContent};
use crate::record::recorded_after;

verus! {

/// Reading the update metadata twice with nothing in between gives the same
/// result both times, and leaves the installed record as it was.
pub proof fn lemma_query_update_repeatable(
    b: Bios,
    reply: Reply,
    r1: Step,
    r2: Step,
    prev: Option<InstalledContent>,
)
    requires
        b.next(Stage::QueryUpdate, reply, r1),
        b.next(Stage::QueryUpdate, reply, r2),
    ensures
        r1 == r2,
        recorded_after(prev, r1) == prev,
        forall|m: Option<ContentMetadata>|
            reply == Reply::Metadata(m) ==> r1 == Step::Finish(Ok(Outcome::Update(m))),
{
}

/// Without update metadata, installing fails at once with the
/// missing-metadata error, before any installer run is asked for.
pub proof fn lemma_install_needs_metadata(b: Bios, dest_root: String, device: String, r: Step)
    requires
        b.next(Stage::InstallMeta { dest_root, device }, Reply::Metadata(None), r),
    ensures
        r == Step::Finish(Err::<Outcome, BootError>(BootError::NoUpdateMetadata)),
{
}

/// On an EFI-booted machine whose root device has no BIOS-boot partition,
/// or whose root device cannot be resolved, the adoption scan finds
/// nothing and never asks for the generic probe.
pub proof fn lemma_efi_without_bios_partition_skips_adoption(
    b: Bios,
    r1: Step,
    device: String,
    r2: Step,
    r3: Step,
    e: String,
    r4: Step,
)
    requires
        b.target == FirmwareTarget::I386Pc,
        b.next(Stage::AdoptEfi { update: None }, Reply::Flag(true), r1),
        b.next(Stage::AdoptDevice { update: None }, Reply::Device(device), r2),
        b.next(Stage::AdoptPartition { update: None }, Reply::Partition(None), r3),
        b.next(Stage::AdoptDevice { update: None }, Reply::Failed(e), r4),
    ensures
        b.query_adopt_begins() == Step::Ask(Stage::AdoptEfi { update: None }, Request::IsEfiBooted),
        match r1 {
            Step::Ask(Stage::AdoptDevice { update: None }, Request::SingleDevice { mount_point }) => mount_point@
                == "/"@,
            _ => false,
        },
        r2 == Step::Ask(
            Stage::AdoptPartition { update: None },
            Request::BiosBootPartition { device },
        ),
        r3 == Step::Finish(Ok::<Outcome, BootError>(Outcome::Adopt(None))),
        r4 == Step::Finish(Ok::<Outcome, BootError>(Outcome::Adopt(None))),
{
}

/// A failure to resolve the device for an update or an adoption is passed
/// on unchanged, ends the operation before the installer is asked for, and
/// leaves the installed record as it was.
pub proof fn lemma_device_error_propagates(
    b: Bios,
    dest_root: String,
    meta: ContentMetadata,
    prior: String,
    e: String,
    r1: Step,
    r2: Step,
    prev: Option<InstalledContent>,
)
    requires
        b.next(Stage::UpdateDevice { dest_root, meta }, Reply::Failed(e), r1),
        b.next(Stage::AdoptTarget { meta, prior }, Reply::Failed(e), r2),
    ensures
        r1 == Step::Finish(Err::<Outcome, BootError>(BootError::Host(e))),
        r2 == Step::Finish(Err::<Outcome, BootError>(BootError::Host(e))),
        recorded_after(prev, r1) == prev,
        recorded_after(prev, r2) == prev,
{
}

/// When the installer exits unsuccessfully the operation fails with its
/// command line and error output, and the installed record stays exactly
/// as it was.
pub proof fn lemma_installer_failure_keeps_record(
    b: Bios,
    program: String,
    args: Vec<String>,
    result: InstalledContent,
    stderr: String,
    r: Step,
    prev: Option<InstalledContent>,
)
    requires
        b.next(
            Stage::GrubRun { program, args, result },
            Reply::Exit { success: false, stderr },
            r,
        ),
    ensures
        r == Step::Finish(
            Err::<Outcome, BootError>(BootError::InstallerFailed { program, args, stderr }),
        ),
        recorded_after(prev, r) == prev,
{
}

} // verus!
