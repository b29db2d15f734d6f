//! The drive catalog: mapping of discovered device descriptors into
//! [`Drive`] values, the single-choice drive selection, and acceptance
//! of a proposed partition plan.

use vstd::prelude::*;
use vstd::string::StringExecFns;
use crate::model::{
    convert_drive_type, drive_type_of_tag, drive_wf, profile_wf, size_sum, Drive, MediaTag,
    Partition, PartitionType, Profile, ValidationFailure,
};

verus! {

/// What the device-enumeration collaborator reports for one block
/// device, as plain values.
pub struct DeviceDescriptor {
    /// Platform device identifier.
    pub name: String,
    /// Capacity in bytes.
    pub capacity: u64,
    /// Media-type tag of the device.
    pub media: MediaTag,
}

/// Maps each discovered device descriptor into a drive with no planned
/// partitions yet; an empty enumeration maps to an empty catalog and
/// is a valid, not an erroneous, outcome.
pub fn drives_from_descriptors(descriptors: &Vec<DeviceDescriptor>) -> (r: Vec<Drive>)
    ensures
        r@.len() == descriptors@.len(),
        forall|i: int|
            0 <= i < descriptors@.len() ==> (#[trigger] r@[i]).name == descriptors@[i].name
                && r@[i].size == descriptors@[i].capacity && r@[i].drive_type == drive_type_of_tag(
                descriptors@[i].media,
            ) && r@[i].partitions@.len() == 0 && drive_wf(r@[i]),
{
    let mut drives: Vec<Drive> = Vec::new();
    let mut i: usize = 0;
    while i < descriptors.len()
        invariant
            i <= descriptors@.len(),
            drives@.len() == i,
            forall|j: int|
                0 <= j < i ==> (#[trigger] drives@[j]).name == descriptors@[j].name
                    && drives@[j].size == descriptors@[j].capacity && drives@[j].drive_type
                    == drive_type_of_tag(descriptors@[j].media) && drives@[j].partitions@.len()
                    == 0 && drive_wf(drives@[j]),
        decreases descriptors@.len() - i,
    {
        let descriptor = &descriptors[i];
        drives.push(
            Drive {
                name: descriptor.name.clone(),
                drive_type: convert_drive_type(descriptor.media),
                size: descriptor.capacity,
                partitions: Vec::new(),
            },
        );
        i = i + 1;
    }
    drives
}

/// Lists the names of the discovered drives, in discovery order, for
/// the prompter to show.
pub fn drive_names(drives: &Vec<Drive>) -> (r: Vec<String>)
    ensures
        r@.len() == drives@.len(),
        forall|i: int| 0 <= i < drives@.len() ==> r@[i]@ == drives@[i].name@,
{
    let mut names: Vec<String> = Vec::new();
    let mut i: usize = 0;
    while i < drives.len()
        invariant
            i <= drives@.len(),
            names@.len() == i,
            forall|j: int| 0 <= j < i ==> names@[j]@ == drives@[j].name@,
        decreases drives@.len() - i,
    {
        names.push(drives[i].name.clone());
        i = i + 1;
    }
    names
}

/// The confirmation shown after the drive-selection step: the chosen
/// drive's name, a note that nothing was chosen, or — when the
/// enumeration came back empty — a report that there is nothing to
/// choose from.
pub open spec fn selection_message(drives: Seq<Drive>, selection: Option<usize>) -> Seq<char> {
    if drives.len() == 0 {
        "no drives found"@
    } else {
        match selection {
            Some(i) => if i < drives.len() {
                "User selected item : "@ + drives[i as int].name@
            } else {
                "User did not select anything"@
            },
            None => "User did not select anything"@,
        }
    }
}

/// Replaces the profile's drive list wholesale with the freshly
/// discovered drives — each visit to the storage step re-fetches and
/// replaces, never merges — and reports the selection confirmation.
/// An empty discovery does not fail: it reports that no drives were
/// found and hands control back to the menu.
pub fn configure_drives(prof: Profile, discovered: Vec<Drive>, selection: Option<usize>) -> (r: (
    Profile,
    String,
))
    ensures
        r.0.drives == discovered,
        r.0.kernel == prof.kernel,
        r.0.time_zone == prof.time_zone,
        r.0.keyboard_layout == prof.keyboard_layout,
        r.0.host_name == prof.host_name,
        r.0.user_name == prof.user_name,
        r.1@ == selection_message(discovered@, selection),
        (forall|i: int| 0 <= i < discovered@.len() ==> drive_wf(#[trigger] discovered@[i]))
            ==> profile_wf(r.0),
{
    let mut prof = prof;
    let message: String = if discovered.len() == 0 {
        "no drives found".to_owned()
    } else {
        match selection {
            Some(i) => {
                if i < discovered.len() {
                    let mut m = "User selected item : ".to_owned();
                    m.append(discovered[i].name.as_str());
                    m
                } else {
                    "User did not select anything".to_owned()
                }
            },
            None => "User did not select anything".to_owned(),
        }
    };
    prof.drives = discovered;
    (prof, message)
}

/// Number of swap partitions in a plan.
pub open spec fn count_swap(parts: Seq<Partition>) -> int
    decreases parts.len(),
{
    if parts.len() == 0 {
        0
    } else {
        count_swap(parts.drop_last()) + if parts.last().partition_type is Swap {
            1int
        } else {
            0int
        }
    }
}

/// Number of EFI partitions in a plan.
pub open spec fn count_efi(parts: Seq<Partition>) -> int
    decreases parts.len(),
{
    if parts.len() == 0 {
        0
    } else {
        count_efi(parts.drop_last()) + if parts.last().partition_type is Efi {
            1int
        } else {
            0int
        }
    }
}

/// The first contract violation of a proposed plan, in checking order:
/// the requested sizes overrun the capacity, more than one swap
/// partition, or — on a UEFI target — not exactly one EFI partition.
/// `None` means the plan is acceptable.
pub open spec fn plan_violation(
    drive_size: u64,
    parts: Seq<Partition>,
    uefi: bool,
) -> Option<ValidationFailure> {
    if size_sum(parts) > drive_size {
        Some(ValidationFailure::CapacityExceeded)
    } else if count_swap(parts) > 1 {
        Some(ValidationFailure::MultipleSwap)
    } else if uefi && count_efi(parts) != 1 {
        Some(ValidationFailure::EfiNotExactlyOne)
    } else {
        None
    }
}

/// Every sum, swap count and EFI count of a prefix extends by the
/// element that follows it.
proof fn lemma_plan_counts_extend(parts: Seq<Partition>, i: int)
    requires
        0 <= i < parts.len(),
    ensures
        size_sum(parts.take(i + 1)) == size_sum(parts.take(i)) + parts[i].size,
        count_swap(parts.take(i + 1)) == count_swap(parts.take(i)) + if parts[i].partition_type
            is Swap {
            1int
        } else {
            0int
        },
        count_efi(parts.take(i + 1)) == count_efi(parts.take(i)) + if parts[i].partition_type
            is Efi {
            1int
        } else {
            0int
        },
{
    assert(parts.take(i + 1).drop_last() =~= parts.take(i));
    assert(parts.take(i + 1).last() == parts[i]);
}

/// The whole plan's sum is at least any prefix's sum: partition sizes
/// are never negative.
proof fn lemma_size_sum_prefix(parts: Seq<Partition>, i: int)
    requires
        0 <= i <= parts.len(),
    ensures
        size_sum(parts.take(i)) <= size_sum(parts),
    decreases parts.len() - i,
{
    if i == parts.len() {
        assert(parts.take(i) =~= parts);
    } else {
        lemma_plan_counts_extend(parts, i);
        lemma_size_sum_prefix(parts, i + 1);
    }
}

/// Checks a proposed partition plan against the drive it is meant for:
/// the total requested size must fit the capacity, at most one
/// partition may be swap, and a UEFI target must hold exactly one EFI
/// partition. A violation is reported for correction, never silently
/// truncated.
pub fn accept_partition_plan(drive: &Drive, parts: &Vec<Partition>, uefi: bool) -> (r: Result<
    (),
    ValidationFailure,
>)
    ensures
        r == (match plan_violation(drive.size, parts@, uefi) {
            Some(e) => Err::<(), ValidationFailure>(e),
            None => Ok::<(), ValidationFailure>(()),
        }),
{
    let mut total: u64 = 0;
    let mut swap_count: usize = 0;
    let mut efi_count: usize = 0;
    let mut i: usize = 0;
    while i < parts.len()
        invariant
            i <= parts@.len(),
            total == size_sum(parts@.take(i as int)),
            total <= drive.size,
            swap_count == count_swap(parts@.take(i as int)),
            efi_count == count_efi(parts@.take(i as int)),
            swap_count <= i,
            efi_count <= i,
        decreases parts@.len() - i,
    {
        proof {
            lemma_plan_counts_extend(parts@, i as int);
        }
        let size = parts[i].size;
        if size > drive.size - total {
            proof {
                lemma_size_sum_prefix(parts@, i + 1);
            }
            return Err(ValidationFailure::CapacityExceeded);
        }
        total = total + size;
        match parts[i].partition_type {
            PartitionType::Swap => {
                swap_count = swap_count + 1;
            },
            PartitionType::Efi => {
                efi_count = efi_count + 1;
            },
            _ => {},
        }
        i = i + 1;
    }
    proof {
        assert(parts@.take(parts@.len() as int) =~= parts@);
    }
    if swap_count > 1 {
        return Err(ValidationFailure::MultipleSwap);
    }
    if uefi && efi_count != 1 {
        return Err(ValidationFailure::EfiNotExactlyOne);
    }
    Ok(())
}

/// Records an accepted plan on its drive: the partitions become the
/// drive's plan and the drive is well formed afterwards; a rejected
/// plan reports its violation and records nothing.
pub fn apply_partition_plan(drive: Drive, parts: Vec<Partition>, uefi: bool) -> (r: Result<
    Drive,
    ValidationFailure,
>)
    ensures
        plan_violation(drive.size, parts@, uefi) matches Some(e) ==> r == Err::<
            Drive,
            ValidationFailure,
        >(e),
        plan_violation(drive.size, parts@, uefi) is None ==> (r matches Ok(d2) && d2.name
            == drive.name && d2.drive_type == drive.drive_type && d2.size == drive.size
            && d2.partitions == parts && drive_wf(d2)),
{
    let mut drive = drive;
    match accept_partition_plan(&drive, &parts, uefi) {
        Ok(_) => {
            drive.partitions = parts;
            Ok(drive)
        },
        Err(e) => Err(e),
    }
}

/// Capacity invariant of every accepted plan: the sizes of the planned
/// partitions sum to at most the size of the drive they subdivide.
pub proof fn lemma_accepted_plan_capacity(drive_size: u64, parts: Seq<Partition>, uefi: bool)
    requires
        plan_violation(drive_size, parts, uefi) is None,
    ensures
        size_sum(parts) <= drive_size,
{
}

} // verus!
