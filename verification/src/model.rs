//! Data model of the provisioning wizard: the operator's choices
//! (kernel, locale, keyboard, storage layout) and the storage types
//! they are recorded in.

use vstd::prelude::*;

verus! {

/// The kernel variants an operator can choose for the provisioned system.
#[derive(Clone, Copy, Debug, PartialEq, Eq, Structural)]
pub enum Kernel {
    Linux,
    LinuxLTS,
    LinuxXanmod,
}

impl Kernel {
    /// The display name of this kernel variant.
    pub open spec fn label_spec(self) -> Seq<char> {
        match self {
            Kernel::Linux => "linux"@,
            Kernel::LinuxLTS => "linux-lts"@,
            Kernel::LinuxXanmod => "linux-xanmod"@,
        }
    }

    /// Renders the kernel variant under its display name.
    pub fn label(&self) -> (r: String)
        ensures
            r@ == self.label_spec(),
    {
        match self {
            Kernel::Linux => "linux".to_owned(),
            Kernel::LinuxLTS => "linux-lts".to_owned(),
            Kernel::LinuxXanmod => "linux-xanmod".to_owned(),
        }
    }
}

/// The kernel variant whose display name is `s`, if any.
pub open spec fn parse_kernel_spec(s: Seq<char>) -> Option<Kernel> {
    if s == "linux"@ {
        Some(Kernel::Linux)
    } else if s == "linux-lts"@ {
        Some(Kernel::LinuxLTS)
    } else if s == "linux-xanmod"@ {
        Some(Kernel::LinuxXanmod)
    } else {
        None
    }
}

/// Maps a display name back to its kernel variant.
pub fn parse_kernel(s: &str) -> (r: Option<Kernel>)
    ensures
        r == parse_kernel_spec(s@),
{
    let owned = s.to_owned();
    if owned == "linux".to_owned() {
        Some(Kernel::Linux)
    } else if owned == "linux-lts".to_owned() {
        Some(Kernel::LinuxLTS)
    } else if owned == "linux-xanmod".to_owned() {
        Some(Kernel::LinuxXanmod)
    } else {
        None
    }
}

/// The kernel variant offered at position `i` of the kernel menu.
pub open spec fn kernel_of_index(i: int) -> Kernel {
    if i == 0 {
        Kernel::Linux
    } else if i == 1 {
        Kernel::LinuxLTS
    } else {
        Kernel::LinuxXanmod
    }
}

/// Lists the display names of every kernel variant, in menu order.
pub fn get_kernel_strings() -> (r: Vec<String>)
    ensures
        r@.len() == 3,
        forall|i: int| 0 <= i < 3 ==> r@[i]@ == kernel_of_index(i).label_spec(),
{
    let mut strings: Vec<String> = Vec::new();
    strings.push("linux".to_owned());
    strings.push("linux-lts".to_owned());
    strings.push("linux-xanmod".to_owned());
    strings
}

/// Every kernel display name parses back to the variant it was rendered
/// from: the kernel label mapping is a round trip.
pub proof fn lemma_kernel_label_round_trip(k: Kernel)
    ensures
        parse_kernel_spec(k.label_spec()) == Some(k),
{
    reveal_strlit("linux");
    reveal_strlit("linux-lts");
    reveal_strlit("linux-xanmod");
    assert("linux"@.len() == 5);
    assert("linux-lts"@.len() == 9);
    assert("linux-xanmod"@.len() == 12);
}

/// The filesystems a partition can be formatted with.
#[derive(Clone, Copy, Debug, PartialEq, Eq, Structural)]
pub enum FileSystem {
    Ext4,
    Btrfs,
}

/// The role a planned partition plays in the installed system.
#[derive(Clone, Copy, Debug, PartialEq, Eq, Structural)]
pub enum PartitionType {
    Efi,
    Swap,
    Root,
    Home,
}

/// One planned subdivision of a drive.
#[derive(Debug)]
pub struct Partition {
    /// Requested size in bytes.
    pub size: u64,
    pub partition_type: PartitionType,
    pub file_system: FileSystem,
}

/// The media classes a discovered block device can belong to.
#[derive(Clone, Copy, Debug, PartialEq, Eq, Structural)]
pub enum DriveType {
    Nvme,
    Ssd,
    Hdd,
    Loopback,
    Lvm,
    MdRaid,
    Ram,
    Virtual,
    Unknown,
}

impl DriveType {
    /// The display name of this media class.
    pub open spec fn label_spec(self) -> Seq<char> {
        match self {
            DriveType::Nvme => "nvme"@,
            DriveType::Ssd => "ssd"@,
            DriveType::Hdd => "hdd"@,
            DriveType::Loopback => "loopback"@,
            DriveType::Lvm => "lvm"@,
            DriveType::MdRaid => "mdraid"@,
            DriveType::Ram => "ram"@,
            DriveType::Virtual => "virtual"@,
            DriveType::Unknown => "unknown"@,
        }
    }

    /// Renders the media class under its display name.
    pub fn label(&self) -> (r: String)
        ensures
            r@ == self.label_spec(),
    {
        match self {
            DriveType::Nvme => "nvme".to_owned(),
            DriveType::Ssd => "ssd".to_owned(),
            DriveType::Hdd => "hdd".to_owned(),
            DriveType::Loopback => "loopback".to_owned(),
            DriveType::Lvm => "lvm".to_owned(),
            DriveType::MdRaid => "mdraid".to_owned(),
            DriveType::Ram => "ram".to_owned(),
            DriveType::Virtual => "virtual".to_owned(),
            DriveType::Unknown => "unknown".to_owned(),
        }
    }
}

/// The media-type tag a device-enumeration collaborator reports for a
/// block device, as a plain value of this library's own.
#[derive(Clone, Copy, Debug, PartialEq, Eq, Structural)]
pub enum MediaTag {
    SolidState,
    Rotational,
    Loopback,
    Lvm,
    MdRaid,
    Nvme,
    Ram,
    Virtual,
    Unknown,
}

/// The media class a media-type tag is recorded as.
pub open spec fn drive_type_of_tag(tag: MediaTag) -> DriveType {
    match tag {
        MediaTag::Nvme => DriveType::Nvme,
        MediaTag::SolidState => DriveType::Ssd,
        MediaTag::Rotational => DriveType::Hdd,
        MediaTag::Ram => DriveType::Ram,
        MediaTag::Loopback => DriveType::Loopback,
        MediaTag::MdRaid => DriveType::MdRaid,
        MediaTag::Virtual => DriveType::Virtual,
        MediaTag::Lvm => DriveType::Lvm,
        MediaTag::Unknown => DriveType::Unknown,
    }
}

/// Converts a reported media-type tag into the drive's media class;
/// tags outside the known vocabulary map to `Unknown`.
pub fn convert_drive_type(old_tag: MediaTag) -> (r: DriveType)
    ensures
        r == drive_type_of_tag(old_tag),
{
    match old_tag {
        MediaTag::Nvme => DriveType::Nvme,
        MediaTag::SolidState => DriveType::Ssd,
        MediaTag::Rotational => DriveType::Hdd,
        MediaTag::Ram => DriveType::Ram,
        MediaTag::Loopback => DriveType::Loopback,
        MediaTag::MdRaid => DriveType::MdRaid,
        MediaTag::Virtual => DriveType::Virtual,
        MediaTag::Lvm => DriveType::Lvm,
        MediaTag::Unknown => DriveType::Unknown,
    }
}

/// A discovered storage device together with its planned partitions.
#[derive(Debug)]
pub struct Drive {
    /// Platform device identifier.
    pub name: String,
    pub drive_type: DriveType,
    /// Capacity in bytes.
    pub size: u64,
    pub partitions: Vec<Partition>,
}

/// Total number of bytes the partitions of a plan request.
pub open spec fn size_sum(parts: Seq<Partition>) -> int
    decreases parts.len(),
{
    if parts.len() == 0 {
        0
    } else {
        size_sum(parts.drop_last()) + parts.last().size
    }
}

/// A drive is well formed when its planned partitions fit inside its
/// capacity.
pub open spec fn drive_wf(d: Drive) -> bool {
    size_sum(d.partitions@) <= d.size
}

/// The complete set of operator choices for one provisioning run.
#[derive(Debug)]
pub struct Profile {
    pub drives: Vec<Drive>,
    pub kernel: Kernel,
    pub time_zone: String,
    pub keyboard_layout: String,
    pub host_name: String,
    pub user_name: String,
}

/// Every drive of the profile is well formed.
pub open spec fn profile_wf(p: Profile) -> bool {
    forall|i: int| 0 <= i < p.drives@.len() ==> drive_wf(#[trigger] p.drives@[i])
}

impl Default for Profile {
    /// The fixed defaults a new session starts from.
    fn default() -> (r: Profile)
        ensures
            r.kernel == Kernel::Linux,
            r.user_name@ == "user"@,
            r.host_name@ == "ArchLinux"@,
            r.keyboard_layout@ == "se-lat6"@,
            r.time_zone@ == "UTC+0"@,
            r.drives@ =~= Seq::<Drive>::empty(),
    {
        Profile {
            kernel: Kernel::Linux,
            user_name: "user".to_owned(),
            host_name: "ArchLinux".to_owned(),
            keyboard_layout: "se-lat6".to_owned(),
            time_zone: "UTC+0".to_owned(),
            drives: Vec::new(),
        }
    }
}

/// The fatal failures of the wizard: the prompter itself failed, the
/// operator made no selection where one was required, or an external
/// oracle or device collaborator failed or returned data the wizard
/// cannot act on.
#[derive(Clone, Copy, Debug, PartialEq, Eq, Structural)]
pub enum WizardError {
    Prompt,
    NoSelection,
    ExternalQuery,
}

/// The ways a proposed partition plan can violate its contract: the
/// plan overruns the drive's capacity, it holds more than one swap
/// partition, or a UEFI target does not hold exactly one EFI partition.
#[derive(Clone, Copy, Debug, PartialEq, Eq, Structural)]
pub enum ValidationFailure {
    CapacityExceeded,
    MultipleSwap,
    EfiNotExactlyOne,
}

/// Action selector of the timezone-choice menu entry.
pub const TIMEZONE_ID: i32 = 1;

/// Action selector of the keyboard-choice menu entry.
pub const KEYBOARD_ID: i32 = 2;

/// Action selector of the storage-configuration menu entry.
pub const DRIVES_ID: i32 = 3;

/// Action selector of the network-choice menu entry.
pub const NETWORK_ID: i32 = 4;

/// Action selector of the kernel-choice menu entry.
pub const KERNEL_ID: i32 = 5;

/// Action selector of the profile-printing menu entry.
pub const PRINT_ID: i32 = 6;

/// Action selector of the script-building menu entry.
pub const BUILD_ID: i32 = 7;

/// Action selector of the exit menu entry.
pub const EXIT_ID: i32 = 8;

/// Action selector of the confirm menu entry.
pub const CONFIRM_ID: i32 = 9;

/// One selectable wizard action with its derived validity flag.
#[derive(Debug)]
pub struct MenuChoice {
    pub name: String,
    /// Action selector dispatched on by the menu loop.
    pub id: i32,
    /// Derived: recomputed from the profile and the oracles on every
    /// pass, never authoritative on its own.
    pub valid: bool,
    /// Reserved for future gating; dispatch does not read it.
    pub required: bool,
}

} // verus!
