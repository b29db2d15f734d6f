//! The wizard's menu controller: the ordered list of menu entries, the
//! rendering of their labels, and the dispatch of a chosen entry to the
//! profile mutation it stands for.
//!
//! The interactive prompter is an external capability: callers run the
//! prompt and hand the returned selection (an index, or none) to the
//! functions here. A missing selection — and a reported index outside
//! the list — is surfaced as [`WizardError::NoSelection`] and treated
//! as fatal by the wizard loop rather than silently re-prompting; this
//! resolves deliberately an ambiguity in the intended behaviour.

use vstd::prelude::*;
use vstd::string::StringExecFns;
use crate::model::{
    kernel_of_index, lemma_kernel_label_round_trip, parse_kernel, get_kernel_strings, MenuChoice,
    Profile, WizardError, BUILD_ID, CONFIRM_ID, DRIVES_ID, EXIT_ID, KERNEL_ID, KEYBOARD_ID,
    NETWORK_ID, PRINT_ID, TIMEZONE_ID,
};

verus! {

/// The action a chosen menu entry dispatches to.
#[derive(Clone, Copy, Debug, PartialEq, Eq, Structural)]
pub enum MenuAction {
    EditTimezone,
    EditKeyboard,
    EditDrives,
    EditNetwork,
    EditKernel,
    PrintProfile,
    Build,
    Confirm,
    Exit,
    Unknown,
}

/// The action each selector id routes to; ids outside the dispatch
/// table route to `Unknown`.
pub open spec fn action_for_spec(id: i32) -> MenuAction {
    if id == TIMEZONE_ID {
        MenuAction::EditTimezone
    } else if id == KEYBOARD_ID {
        MenuAction::EditKeyboard
    } else if id == DRIVES_ID {
        MenuAction::EditDrives
    } else if id == NETWORK_ID {
        MenuAction::EditNetwork
    } else if id == KERNEL_ID {
        MenuAction::EditKernel
    } else if id == PRINT_ID {
        MenuAction::PrintProfile
    } else if id == BUILD_ID {
        MenuAction::Build
    } else if id == CONFIRM_ID {
        MenuAction::Confirm
    } else if id == EXIT_ID {
        MenuAction::Exit
    } else {
        MenuAction::Unknown
    }
}

/// Routes a chosen entry's selector id to the action it stands for.
pub fn action_for(id: i32) -> (r: MenuAction)
    ensures
        r == action_for_spec(id),
{
    if id == TIMEZONE_ID {
        MenuAction::EditTimezone
    } else if id == KEYBOARD_ID {
        MenuAction::EditKeyboard
    } else if id == DRIVES_ID {
        MenuAction::EditDrives
    } else if id == NETWORK_ID {
        MenuAction::EditNetwork
    } else if id == KERNEL_ID {
        MenuAction::EditKernel
    } else if id == PRINT_ID {
        MenuAction::PrintProfile
    } else if id == BUILD_ID {
        MenuAction::Build
    } else if id == CONFIRM_ID {
        MenuAction::Confirm
    } else if id == EXIT_ID {
        MenuAction::Exit
    } else {
        MenuAction::Unknown
    }
}

/// A freshly constructed menu entry: named, numbered, not yet judged
/// valid and not gating anything.
pub open spec fn fresh_choice(c: MenuChoice, name: Seq<char>, id: i32) -> bool {
    c.name@ == name && c.id == id && !c.valid && !c.required
}

/// Builds the wizard's ordered menu, every entry still unjudged.
pub fn initial_choices() -> (r: Vec<MenuChoice>)
    ensures
        r@.len() == 9,
        fresh_choice(r@[0], "Select keyboard Layout"@, KEYBOARD_ID),
        fresh_choice(r@[1], "Select TimeZone"@, TIMEZONE_ID),
        fresh_choice(r@[2], "Partition Drives"@, DRIVES_ID),
        fresh_choice(r@[3], "Configure Network"@, NETWORK_ID),
        fresh_choice(r@[4], "Select Kernel"@, KERNEL_ID),
        fresh_choice(r@[5], "Print Profile"@, PRINT_ID),
        fresh_choice(r@[6], "Build"@, BUILD_ID),
        fresh_choice(r@[7], "Confirm"@, CONFIRM_ID),
        fresh_choice(r@[8], "Exit"@, EXIT_ID),
{
    let mut choices: Vec<MenuChoice> = Vec::new();
    choices.push(
        MenuChoice {
            name: "Select keyboard Layout".to_owned(),
            id: KEYBOARD_ID,
            valid: false,
            required: false,
        },
    );
    choices.push(
        MenuChoice {
            name: "Select TimeZone".to_owned(),
            id: TIMEZONE_ID,
            valid: false,
            required: false,
        },
    );
    choices.push(
        MenuChoice {
            name: "Partition Drives".to_owned(),
            id: DRIVES_ID,
            valid: false,
            required: false,
        },
    );
    choices.push(
        MenuChoice {
            name: "Configure Network".to_owned(),
            id: NETWORK_ID,
            valid: false,
            required: false,
        },
    );
    choices.push(
        MenuChoice { name: "Select Kernel".to_owned(), id: KERNEL_ID, valid: false, required: false },
    );
    choices.push(
        MenuChoice { name: "Print Profile".to_owned(), id: PRINT_ID, valid: false, required: false },
    );
    choices.push(MenuChoice { name: "Build".to_owned(), id: BUILD_ID, valid: false, required: false });
    choices.push(
        MenuChoice { name: "Confirm".to_owned(), id: CONFIRM_ID, valid: false, required: false },
    );
    choices.push(MenuChoice { name: "Exit".to_owned(), id: EXIT_ID, valid: false, required: false });
    choices
}

/// The label a menu entry is rendered under: its name, with a visual
/// marker appended when the entry is currently valid.
pub open spec fn menu_label(c: MenuChoice) -> Seq<char> {
    if c.valid {
        c.name@ + " [ok]"@
    } else {
        c.name@
    }
}

/// Renders the labels the prompter shows, one per menu entry, in menu
/// order.
pub fn render_menu_labels(choices: &Vec<MenuChoice>) -> (r: Vec<String>)
    ensures
        r@.len() == choices@.len(),
        forall|i: int| 0 <= i < choices@.len() ==> r@[i]@ == menu_label(choices@[i]),
{
    let mut labels: Vec<String> = Vec::new();
    let mut i: usize = 0;
    while i < choices.len()
        invariant
            i <= choices@.len(),
            labels@.len() == i,
            forall|j: int| 0 <= j < i ==> labels@[j]@ == menu_label(choices@[j]),
        decreases choices@.len() - i,
    {
        let mut label: String = choices[i].name.clone();
        if choices[i].valid {
            label.append(" [ok]");
        }
        labels.push(label);
        i = i + 1;
    }
    labels
}

/// Records the timezone the operator selected from the oracle list.
///
/// An empty oracle list is a fatal external-query failure; a missing
/// or out-of-range selection is a fatal no-selection failure; otherwise
/// the chosen name becomes the profile's timezone and every other
/// field is kept.
pub fn select_timezone(prof: Profile, time_zones: &Vec<String>, selection: Option<usize>) -> (r:
    Result<Profile, WizardError>)
    ensures
        time_zones@.len() == 0 ==> r == Err::<Profile, WizardError>(WizardError::ExternalQuery),
        time_zones@.len() > 0 && selection is None ==> r == Err::<Profile, WizardError>(
            WizardError::NoSelection,
        ),
        selection matches Some(i) ==> ((time_zones@.len() > 0 && i >= time_zones@.len() ==> r
            == Err::<Profile, WizardError>(WizardError::NoSelection)) && (i < time_zones@.len()
            ==> (r matches Ok(p2) && p2.time_zone@ == time_zones@[i as int]@ && p2.kernel
            == prof.kernel && p2.keyboard_layout == prof.keyboard_layout && p2.host_name
            == prof.host_name && p2.user_name == prof.user_name && p2.drives == prof.drives))),
{
    let mut prof = prof;
    if time_zones.len() == 0 {
        return Err(WizardError::ExternalQuery);
    }
    match selection {
        None => Err(WizardError::NoSelection),
        Some(i) => {
            if i < time_zones.len() {
                prof.time_zone = time_zones[i].clone();
                Ok(prof)
            } else {
                Err(WizardError::NoSelection)
            }
        },
    }
}

/// Returns the keyboard layout the operator selected from the oracle
/// list, under the same failure rules as the timezone selection.
pub fn select_keyboard_layout(layouts: &Vec<String>, selection: Option<usize>) -> (r: Result<
    String,
    WizardError,
>)
    ensures
        layouts@.len() == 0 ==> r == Err::<String, WizardError>(WizardError::ExternalQuery),
        layouts@.len() > 0 && selection is None ==> r == Err::<String, WizardError>(
            WizardError::NoSelection,
        ),
        selection matches Some(i) ==> ((layouts@.len() > 0 && i >= layouts@.len() ==> r == Err::<
            String,
            WizardError,
        >(WizardError::NoSelection)) && (i < layouts@.len() ==> (r matches Ok(s) && s@
            == layouts@[i as int]@))),
{
    if layouts.len() == 0 {
        return Err(WizardError::ExternalQuery);
    }
    match selection {
        None => Err(WizardError::NoSelection),
        Some(i) => {
            if i < layouts.len() {
                Ok(layouts[i].clone())
            } else {
                Err(WizardError::NoSelection)
            }
        },
    }
}

/// Records the kernel the operator selected from the kernel menu.
///
/// The kernel list is the compiled-in variant list, so it is never
/// empty; a missing or out-of-range selection is a fatal no-selection
/// failure, and a selection at position `i` records the `i`-th kernel
/// variant, keeping every other field.
pub fn select_kernel(prof: Profile, selection: Option<usize>) -> (r: Result<Profile, WizardError>)
    ensures
        selection is None ==> r == Err::<Profile, WizardError>(WizardError::NoSelection),
        selection matches Some(i) ==> ((i >= 3 ==> r == Err::<Profile, WizardError>(
            WizardError::NoSelection,
        )) && (i < 3 ==> (r matches Ok(p2) && p2.kernel == kernel_of_index(i as int)
            && p2.time_zone == prof.time_zone && p2.keyboard_layout == prof.keyboard_layout
            && p2.host_name == prof.host_name && p2.user_name == prof.user_name && p2.drives
            == prof.drives))),
{
    let mut prof = prof;
    let kernel_names = get_kernel_strings();
    match selection {
        None => Err(WizardError::NoSelection),
        Some(i) => {
            if i < kernel_names.len() {
                proof {
                    lemma_kernel_label_round_trip(kernel_of_index(i as int));
                }
                match parse_kernel(kernel_names[i].as_str()) {
                    Some(k) => {
                        prof.kernel = k;
                        Ok(prof)
                    },
                    None => {
                        proof {
                            assert(false);
                        }
                        Err(WizardError::ExternalQuery)
                    },
                }
            } else {
                Err(WizardError::NoSelection)
            }
        },
    }
}

} // verus!
