use archinstaller::catalog::{
    accept_partition_plan, apply_partition_plan, configure_drives, drive_names,
    drives_from_descriptors, DeviceDescriptor,
};
use archinstaller::menu::{
    action_for, initial_choices, render_menu_labels, select_kernel, select_keyboard_layout,
    select_timezone, MenuAction,
};
use archinstaller::model::{
    convert_drive_type, get_kernel_strings, parse_kernel, Drive, DriveType, FileSystem, Kernel,
    MediaTag, Partition, PartitionType, Profile, ValidationFailure, WizardError, KEYBOARD_ID,
    NETWORK_ID, TIMEZONE_ID,
};
use archinstaller::script::{build, profile_report};
use archinstaller::validity::{update_validity, Oracles};

fn profile_with(keyboard: &str, time_zone: &str) -> Profile {
    let mut p = Profile::default();
    p.keyboard_layout = keyboard.to_string();
    p.time_zone = time_zone.to_string();
    p
}

fn oracles(tz: &[&str], kb: &[&str], up: bool) -> Oracles {
    Oracles {
        time_zones: tz.iter().map(|s| s.to_string()).collect(),
        keyboard_layouts: kb.iter().map(|s| s.to_string()).collect(),
        network_up: up,
    }
}

#[test]
fn default_profile_has_fixed_defaults() {
    let p = Profile::default();
    assert_eq!(p.kernel, Kernel::Linux);
    assert_eq!(p.time_zone, "UTC+0");
    assert_eq!(p.keyboard_layout, "se-lat6");
    assert_eq!(p.host_name, "ArchLinux");
    assert_eq!(p.user_name, "user");
    assert!(p.drives.is_empty());
}

#[test]
fn kernel_labels_are_exact() {
    assert_eq!(Kernel::Linux.label(), "linux");
    assert_eq!(Kernel::LinuxLTS.label(), "linux-lts");
    assert_eq!(Kernel::LinuxXanmod.label(), "linux-xanmod");
    assert_eq!(get_kernel_strings(), vec!["linux", "linux-lts", "linux-xanmod"]);
}

#[test]
fn kernel_label_round_trip() {
    for k in [Kernel::Linux, Kernel::LinuxLTS, Kernel::LinuxXanmod] {
        assert_eq!(parse_kernel(&k.label()), Some(k));
    }
    assert_eq!(parse_kernel("linux-zen"), None);
    assert_eq!(parse_kernel(""), None);
}

#[test]
fn drive_type_conversion_and_labels() {
    assert_eq!(convert_drive_type(MediaTag::Nvme), DriveType::Nvme);
    assert_eq!(convert_drive_type(MediaTag::SolidState), DriveType::Ssd);
    assert_eq!(convert_drive_type(MediaTag::Rotational), DriveType::Hdd);
    assert_eq!(convert_drive_type(MediaTag::Unknown), DriveType::Unknown);
    assert_eq!(DriveType::Nvme.label(), "nvme");
    assert_eq!(DriveType::MdRaid.label(), "mdraid");
    assert_eq!(DriveType::Unknown.label(), "unknown");
}

#[test]
fn validity_recompute_is_idempotent() {
    let p = profile_with("us", "Europe/Stockholm");
    let o = oracles(&["UTC+0", "Europe/Stockholm"], &["se-lat6"], true);
    let once = update_validity(&p, initial_choices(), &o);
    let flags_once: Vec<bool> = once.iter().map(|c| c.valid).collect();
    let twice = update_validity(&p, once, &o);
    let flags_twice: Vec<bool> = twice.iter().map(|c| c.valid).collect();
    assert_eq!(flags_once, flags_twice);
}

#[test]
fn timezone_validity_tracks_oracle_membership() {
    let in_list = profile_with("se-lat6", "Europe/Stockholm");
    let o = oracles(&["UTC+0", "Europe/Stockholm"], &["se-lat6"], false);
    let judged = update_validity(&in_list, initial_choices(), &o);
    for c in &judged {
        if c.id == TIMEZONE_ID {
            assert!(c.valid);
        }
        if c.id == KEYBOARD_ID {
            assert!(c.valid);
        }
        if c.id == NETWORK_ID {
            assert!(!c.valid);
        }
    }
    let out_of_list = profile_with("se-lat6", "UTC+7");
    let judged = update_validity(&out_of_list, initial_choices(), &o);
    for c in &judged {
        if c.id == TIMEZONE_ID {
            assert!(!c.valid);
        }
    }
}

#[test]
fn menu_labels_carry_valid_marker() {
    let p = profile_with("se-lat6", "UTC+0");
    let o = oracles(&["UTC+0"], &[], false);
    let judged = update_validity(&p, initial_choices(), &o);
    let labels = render_menu_labels(&judged);
    assert_eq!(labels.len(), judged.len());
    for (label, c) in labels.iter().zip(judged.iter()) {
        if c.valid {
            assert_eq!(*label, format!("{} [ok]", c.name));
        } else {
            assert_eq!(*label, c.name);
        }
    }
    assert!(labels.iter().any(|l| l == "Select TimeZone [ok]"));
}

#[test]
fn menu_dispatch_routes_every_entry() {
    let expected = [
        MenuAction::EditKeyboard,
        MenuAction::EditTimezone,
        MenuAction::EditDrives,
        MenuAction::EditNetwork,
        MenuAction::EditKernel,
        MenuAction::PrintProfile,
        MenuAction::Build,
        MenuAction::Confirm,
        MenuAction::Exit,
    ];
    let choices = initial_choices();
    assert_eq!(choices.len(), expected.len());
    for (c, want) in choices.iter().zip(expected.iter()) {
        assert_eq!(action_for(c.id), *want);
        assert!(!c.valid);
        assert!(!c.required);
    }
    assert_eq!(action_for(0), MenuAction::Unknown);
    assert_eq!(action_for(42), MenuAction::Unknown);
}

#[test]
fn scenario_a_kernel_selection_by_index() {
    let lst = get_kernel_strings();
    assert_eq!(lst, vec!["linux", "linux-lts", "linux-xanmod"]);
    let p = select_kernel(Profile::default(), Some(1)).unwrap();
    assert_eq!(p.kernel, Kernel::LinuxLTS);
}

#[test]
fn kernel_selection_failures() {
    assert_eq!(
        select_kernel(Profile::default(), None).unwrap_err(),
        WizardError::NoSelection
    );
    assert_eq!(
        select_kernel(Profile::default(), Some(3)).unwrap_err(),
        WizardError::NoSelection
    );
}

#[test]
fn scenario_b_fuzzy_selected_timezone_turns_valid() {
    let o = oracles(&["UTC+0", "Europe/Stockholm", "Europe/Oslo"], &["se-lat6"], false);
    let picked = o
        .time_zones
        .iter()
        .position(|z| z == "Europe/Stockholm");
    let p = select_timezone(Profile::default(), &o.time_zones, picked).unwrap();
    assert_eq!(p.time_zone, "Europe/Stockholm");
    let judged = update_validity(&p, initial_choices(), &o);
    for c in &judged {
        if c.id == TIMEZONE_ID {
            assert!(c.valid);
        }
    }
}

#[test]
fn timezone_selection_failures() {
    let empty: Vec<String> = Vec::new();
    assert_eq!(
        select_timezone(Profile::default(), &empty, Some(0)).unwrap_err(),
        WizardError::ExternalQuery
    );
    let zones = vec!["UTC+0".to_string()];
    assert_eq!(
        select_timezone(Profile::default(), &zones, None).unwrap_err(),
        WizardError::NoSelection
    );
    assert_eq!(
        select_timezone(Profile::default(), &zones, Some(5)).unwrap_err(),
        WizardError::NoSelection
    );
}

#[test]
fn keyboard_selection_and_failures() {
    let layouts = vec!["se-lat6".to_string(), "us".to_string()];
    assert_eq!(select_keyboard_layout(&layouts, Some(1)).unwrap(), "us");
    assert_eq!(
        select_keyboard_layout(&layouts, None).unwrap_err(),
        WizardError::NoSelection
    );
    let empty: Vec<String> = Vec::new();
    assert_eq!(
        select_keyboard_layout(&empty, Some(0)).unwrap_err(),
        WizardError::ExternalQuery
    );
}

#[test]
fn scenario_c_empty_enumeration_reports_and_returns() {
    let no_devices: Vec<DeviceDescriptor> = Vec::new();
    let discovered = drives_from_descriptors(&no_devices);
    assert!(discovered.is_empty());
    let (p, message) = configure_drives(Profile::default(), discovered, None);
    assert_eq!(message, "no drives found");
    assert!(p.drives.is_empty());
}

#[test]
fn drive_discovery_maps_descriptors() {
    let descriptors = vec![
        DeviceDescriptor {
            name: "/dev/nvme0n1".to_string(),
            capacity: 512,
            media: MediaTag::Nvme,
        },
        DeviceDescriptor {
            name: "/dev/sda".to_string(),
            capacity: 1024,
            media: MediaTag::Rotational,
        },
    ];
    let drives = drives_from_descriptors(&descriptors);
    assert_eq!(drives.len(), 2);
    assert_eq!(drives[0].name, "/dev/nvme0n1");
    assert_eq!(drives[0].size, 512);
    assert_eq!(drives[0].drive_type, DriveType::Nvme);
    assert!(drives[0].partitions.is_empty());
    assert_eq!(drive_names(&drives), vec!["/dev/nvme0n1", "/dev/sda"]);
    let (p, message) = configure_drives(Profile::default(), drives, Some(1));
    assert_eq!(message, "User selected item : /dev/sda");
    assert_eq!(p.drives.len(), 2);
}

#[test]
fn drive_selection_without_choice() {
    let drives = vec![Drive {
        name: "/dev/sda".to_string(),
        drive_type: DriveType::Hdd,
        size: 1024,
        partitions: Vec::new(),
    }];
    let (_, message) = configure_drives(Profile::default(), drives, None);
    assert_eq!(message, "User did not select anything");
}

fn part(size: u64, partition_type: PartitionType, file_system: FileSystem) -> Partition {
    Partition { size, partition_type, file_system }
}

fn empty_drive(size: u64) -> Drive {
    Drive {
        name: "/dev/sda".to_string(),
        drive_type: DriveType::Ssd,
        size,
        partitions: Vec::new(),
    }
}

#[test]
fn partition_plan_capacity_is_enforced() {
    let drive = empty_drive(1000);
    let fitting = vec![
        part(400, PartitionType::Efi, FileSystem::Ext4),
        part(600, PartitionType::Root, FileSystem::Ext4),
    ];
    assert_eq!(accept_partition_plan(&drive, &fitting, true), Ok(()));
    let overrunning = vec![
        part(400, PartitionType::Efi, FileSystem::Ext4),
        part(601, PartitionType::Root, FileSystem::Ext4),
    ];
    assert_eq!(
        accept_partition_plan(&drive, &overrunning, true),
        Err(ValidationFailure::CapacityExceeded)
    );
}

#[test]
fn partition_plan_swap_and_efi_rules() {
    let drive = empty_drive(1000);
    let two_swaps = vec![
        part(100, PartitionType::Swap, FileSystem::Ext4),
        part(100, PartitionType::Swap, FileSystem::Ext4),
    ];
    assert_eq!(
        accept_partition_plan(&drive, &two_swaps, false),
        Err(ValidationFailure::MultipleSwap)
    );
    let no_efi = vec![part(100, PartitionType::Root, FileSystem::Btrfs)];
    assert_eq!(
        accept_partition_plan(&drive, &no_efi, true),
        Err(ValidationFailure::EfiNotExactlyOne)
    );
    assert_eq!(accept_partition_plan(&drive, &no_efi, false), Ok(()));
    let two_efi = vec![
        part(100, PartitionType::Efi, FileSystem::Ext4),
        part(100, PartitionType::Efi, FileSystem::Ext4),
    ];
    assert_eq!(
        accept_partition_plan(&drive, &two_efi, true),
        Err(ValidationFailure::EfiNotExactlyOne)
    );
}

#[test]
fn accepted_plan_is_recorded_on_the_drive() {
    let drive = empty_drive(1000);
    let plan = vec![
        part(100, PartitionType::Efi, FileSystem::Ext4),
        part(200, PartitionType::Swap, FileSystem::Ext4),
        part(700, PartitionType::Root, FileSystem::Btrfs),
    ];
    let updated = apply_partition_plan(drive, plan, true).unwrap();
    assert_eq!(updated.partitions.len(), 3);
    assert_eq!(updated.partitions[2].size, 700);
    let rejected = apply_partition_plan(empty_drive(10), vec![part(11, PartitionType::Root, FileSystem::Ext4)], false);
    assert_eq!(rejected.unwrap_err(), ValidationFailure::CapacityExceeded);
}

#[test]
fn scenario_d_script_for_driveless_profile() {
    let script = build(&profile_with("us", "UTC+1"));
    assert!(script.contains("loadkeys us\n"));
    assert!(script.contains("timedatectl set-timezone UTC+1"));
    assert!(script.contains("ISEFI=FALSE\nif fdisk -l | grep -q 'EFI'\nthen\n    echo 'is EFI'\n    ISEFI=TRUE\nfi\n"));
    assert!(!script.contains("mkfs"));
    assert!(!script.contains("mkswap"));
}

#[test]
fn script_text_is_exact() {
    let script = build(&profile_with("us", "UTC+1"));
    assert_eq!(
        script,
        "#!/bin/sh\nloadkeys us\ntimedatectl set-timezone UTC+1\nISEFI=FALSE\nif fdisk -l | grep -q 'EFI'\nthen\n    echo 'is EFI'\n    ISEFI=TRUE\nfi\n"
    );
}

#[test]
fn script_emits_one_command_per_partition() {
    let mut p = profile_with("us", "UTC+1");
    let drive = empty_drive(10_000_000_000);
    let plan = vec![
        part(500_000_000, PartitionType::Efi, FileSystem::Ext4),
        part(1_000_000_000, PartitionType::Swap, FileSystem::Ext4),
        part(8_000_000_000, PartitionType::Root, FileSystem::Ext4),
        part(500_000_000, PartitionType::Home, FileSystem::Btrfs),
    ];
    let drive = apply_partition_plan(drive, plan, true).unwrap();
    p.drives = vec![drive];
    let script = build(&p);
    assert!(script.ends_with(
        "mkfs.fat -F 32 /dev/sda\nmkswap /dev/sda\nmkfs.ext4 /dev/sda\nmkfs.btrfs /dev/sda\n"
    ));
}

#[test]
fn rendering_is_deterministic() {
    let mut p = profile_with("us", "Europe/Stockholm");
    p.drives = vec![Drive {
        name: "/dev/sda".to_string(),
        drive_type: DriveType::Hdd,
        size: 1024,
        partitions: vec![part(512, PartitionType::Root, FileSystem::Ext4)],
    }];
    assert_eq!(build(&p), build(&p));
    assert_eq!(profile_report(&p), profile_report(&p));
}

#[test]
fn profile_report_uses_human_readable_sizes() {
    let mut p = Profile::default();
    p.drives = vec![
        Drive {
            name: "/dev/sda".to_string(),
            drive_type: DriveType::Hdd,
            size: 1048576,
            partitions: Vec::new(),
        },
        Drive {
            name: "/dev/sdb".to_string(),
            drive_type: DriveType::Ssd,
            size: 500,
            partitions: Vec::new(),
        },
    ];
    let report = profile_report(&p);
    assert_eq!(
        report,
        "-=[ Profile ]=-\n- Kernel: linux\n- Drives\n  | /dev/sda 1.0 MiB\n  | /dev/sdb 500 B\n"
    );
}

#[test]
fn profile_report_without_drives() {
    let report = profile_report(&Profile::default());
    assert_eq!(report, "-=[ Profile ]=-\n- Kernel: linux\n- Drives\n");
}
