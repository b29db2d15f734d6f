//! Rendering of a finished [`Profile`](crate::model::Profile): the shell
//! provisioning script and the human-readable profile report.

use vstd::prelude::*;
use vstd::string::StringExecFns;
use crate::model::{Drive, FileSystem, Partition, PartitionType, Profile};

verus! {

/// The formatting command emitted for one planned partition of the
/// drive named `name`. The `(partition type, filesystem)` pair picks
/// the command: EFI partitions are always FAT-formatted and swap is
/// always `mkswap`, so only data partitions read the filesystem choice.
pub open spec fn partition_command(
    pt: PartitionType,
    fs: FileSystem,
    name: Seq<char>,
) -> Seq<char> {
    match pt {
        PartitionType::Efi => "mkfs.fat -F 32 "@ + name + "\n"@,
        PartitionType::Swap => "mkswap "@ + name + "\n"@,
        _ => match fs {
            FileSystem::Ext4 => "mkfs.ext4 "@ + name + "\n"@,
            FileSystem::Btrfs => "mkfs.btrfs "@ + name + "\n"@,
        },
    }
}

/// The formatting commands of the first `i` partitions of a plan, in
/// plan order.
pub open spec fn partition_lines_upto(parts: Seq<Partition>, i: int, name: Seq<char>) -> Seq<char>
    decreases i,
{
    if i <= 0 {
        Seq::<char>::empty()
    } else {
        partition_lines_upto(parts, i - 1, name) + partition_command(
            parts[i - 1].partition_type,
            parts[i - 1].file_system,
            name,
        )
    }
}

/// The formatting commands of one drive's whole plan.
pub open spec fn drive_partition_lines(d: Drive) -> Seq<char> {
    partition_lines_upto(d.partitions@, d.partitions@.len() as int, d.name@)
}

/// The formatting commands of the first `i` configured drives.
pub open spec fn drive_lines_upto(drives: Seq<Drive>, i: int) -> Seq<char>
    decreases i,
{
    if i <= 0 {
        Seq::<char>::empty()
    } else {
        drive_lines_upto(drives, i - 1) + drive_partition_lines(drives[i - 1])
    }
}

/// The EFI-detection block: sets `ISEFI` to `TRUE` exactly when an EFI
/// system partition is visible in the partition tables.
pub open spec fn efi_block() -> Seq<char> {
    "\nISEFI=FALSE\nif fdisk -l | grep -q 'EFI'\nthen\n    echo 'is EFI'\n    ISEFI=TRUE\nfi\n"@
}

/// The complete provisioning script for a profile: interpreter header,
/// keyboard-layout load, timezone set, EFI detection, then one
/// formatting command per planned partition across all drives.
pub open spec fn script_text(p: Profile) -> Seq<char> {
    "#!/bin/sh\n"@ + "loadkeys "@ + p.keyboard_layout@ + "\n"@ + "timedatectl set-timezone "@
        + p.time_zone@ + efi_block() + drive_lines_upto(p.drives@, p.drives@.len() as int)
}

/// Emits the formatting command for one partition of the drive named
/// `name`.
fn render_partition_command(p: &Partition, name: &String) -> (r: String)
    ensures
        r@ == partition_command(p.partition_type, p.file_system, name@),
{
    let mut line: String = match p.partition_type {
        PartitionType::Efi => "mkfs.fat -F 32 ".to_owned(),
        PartitionType::Swap => "mkswap ".to_owned(),
        _ => match p.file_system {
            FileSystem::Ext4 => "mkfs.ext4 ".to_owned(),
            FileSystem::Btrfs => "mkfs.btrfs ".to_owned(),
        },
    };
    line.append(name.as_str());
    line.append("\n");
    line
}

/// Renders a profile into its provisioning script.
///
/// Rendering never fails: a profile with no configured drives simply
/// produces a script whose partitioning section is empty.
pub fn build(profile: &Profile) -> (r: String)
    ensures
        r@ == script_text(*profile),
{
    let mut script: String = String::new();
    script.append("#!/bin/sh\n");
    script.append("loadkeys ");
    script.append(profile.keyboard_layout.as_str());
    script.append("\n");
    script.append("timedatectl set-timezone ");
    script.append(profile.time_zone.as_str());
    script.append(
        "\nISEFI=FALSE\nif fdisk -l | grep -q 'EFI'\nthen\n    echo 'is EFI'\n    ISEFI=TRUE\nfi\n",
    );
    let ghost head: Seq<char> = script@;
    let mut di: usize = 0;
    while di < profile.drives.len()
        invariant
            di <= profile.drives@.len(),
            script@ == head + drive_lines_upto(profile.drives@, di as int),
        decreases profile.drives@.len() - di,
    {
        let drive = &profile.drives[di];
        let ghost drive_head: Seq<char> = script@;
        let mut pi: usize = 0;
        while pi < drive.partitions.len()
            invariant
                pi <= drive.partitions@.len(),
                script@ == drive_head + partition_lines_upto(
                    drive.partitions@,
                    pi as int,
                    drive.name@,
                ),
        decreases drive.partitions@.len() - pi,
        {
            let line = render_partition_command(&drive.partitions[pi], &drive.name);
            script.append(line.as_str());
            proof {
                assert(drive_head + partition_lines_upto(
                    drive.partitions@,
                    pi + 1,
                    drive.name@,
                ) =~= (drive_head + partition_lines_upto(drive.partitions@, pi as int, drive.name@))
                    + partition_command(
                    drive.partitions@[pi as int].partition_type,
                    drive.partitions@[pi as int].file_system,
                    drive.name@,
                ));
            }
            pi = pi + 1;
        }
        proof {
            assert(head + drive_lines_upto(profile.drives@, di + 1) =~= (head + drive_lines_upto(
                profile.drives@,
                di as int,
            )) + drive_partition_lines(profile.drives@[di as int]));
        }
        di = di + 1;
    }
    proof {
        assert(script@ =~= script_text(*profile));
    }
    script
}

/// The text `bytesize` renders a byte count as (for example
/// `1.0 MiB`): a pure function of the count alone.
pub uninterp spec fn human_size_of(bytes: u64) -> Seq<char>;

/// Relies on the `Display` of `bytesize::ByteSize`: the rendered text
/// depends on the byte count alone.
#[verifier::external_body]
fn format_size(bytes: u64) -> (r: String)
    ensures
        r@ == human_size_of(bytes),
{
    bytesize::ByteSize::b(bytes).to_string()
}

/// The report lines of the first `i` configured drives, one drive per
/// line with its name and human-readable capacity.
pub open spec fn report_lines_upto(drives: Seq<Drive>, i: int) -> Seq<char>
    decreases i,
{
    if i <= 0 {
        Seq::<char>::empty()
    } else {
        report_lines_upto(drives, i - 1) + "  | "@ + drives[i - 1].name@ + " "@ + human_size_of(
            drives[i - 1].size,
        ) + "\n"@
    }
}

/// The human-readable dump of a profile: a header, the kernel's display
/// name, and one line per configured drive.
pub open spec fn report_text(p: Profile) -> Seq<char> {
    "-=[ Profile ]=-\n"@ + "- Kernel: "@ + p.kernel.label_spec() + "\n"@ + "- Drives\n"@
        + report_lines_upto(p.drives@, p.drives@.len() as int)
}

/// Renders the read-only profile dump shown by the print action; the
/// caller displays it and mutates nothing.
pub fn profile_report(profile: &Profile) -> (r: String)
    ensures
        r@ == report_text(*profile),
{
    let mut report: String = String::new();
    report.append("-=[ Profile ]=-\n");
    report.append("- Kernel: ");
    let kernel_name = profile.kernel.label();
    report.append(kernel_name.as_str());
    report.append("\n");
    report.append("- Drives\n");
    let ghost head: Seq<char> = report@;
    let mut di: usize = 0;
    while di < profile.drives.len()
        invariant
            di <= profile.drives@.len(),
            report@ == head + report_lines_upto(profile.drives@, di as int),
        decreases profile.drives@.len() - di,
    {
        let drive = &profile.drives[di];
        report.append("  | ");
        report.append(drive.name.as_str());
        report.append(" ");
        let size_text = format_size(drive.size);
        report.append(size_text.as_str());
        report.append("\n");
        proof {
            assert(head + report_lines_upto(profile.drives@, di + 1) =~= ((((head
                + report_lines_upto(profile.drives@, di as int)) + "  | "@
                + profile.drives@[di as int].name@ + " "@) + human_size_of(
                profile.drives@[di as int].size,
            )) + "\n"@));
        }
        di = di + 1;
    }
    proof {
        assert(report@ =~= report_text(*profile));
    }
    report
}

/// Rendering is deterministic: every two script texts produced for the
/// same profile are byte-identical.
pub proof fn lemma_render_deterministic(p: Profile, r1: Seq<char>, r2: Seq<char>)
    requires
        r1 == script_text(p),
        r2 == script_text(p),
    ensures
        r1 == r2,
{
}

} // verus!
