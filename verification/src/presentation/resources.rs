//! The fixed texts of the screens, and the titles and messages built from
//! them.
use crate::text::{decimal, push_decimal, push_text, string_of};
use vstd::prelude::*;

verus! {

pub const FILTER_CURSOR: &'static str = "▏";
pub const TRUNCATION_MARKER: &'static str = "...";

pub const MAIN_MENU_TITLE: &'static str = "Rusty Console - Docker Manager";
pub const MAIN_MENU_BLOCK_TITLE: &'static str = " Menu ";
pub const MAIN_MENU_HELP: &'static str = " j/k: Navigate | Enter: Select | q: Quit ";
pub const MAIN_MENU_HIGHLIGHT_SYMBOL: &'static str = "> ";
pub const MAIN_MENU_ITEMS: [&'static str; 5] = [
    "  Containers",
    "  Volumes",
    "  Images",
    "  Stacks",
    "  Quit",
];

pub const CONFIRM_TITLE: &'static str = " Confirm ";
pub const ERROR_TITLE: &'static str = " Error ";
pub const INFO_TITLE: &'static str = " Info ";
pub const CONFIRM_YES_LABEL: &'static str = "  [Yes]";
pub const CONFIRM_NO_LABEL: &'static str = "  [No]";
pub const CONFIRM_YES_BUTTON_WIDTH: u16 = 7;
pub const CONFIRM_NO_BUTTON_WIDTH: u16 = 6;
pub const CONFIRM_BUTTON_SPACING: u16 = 9;

pub const CONTAINER_TITLE: &'static str = "Containers";
pub const CONTAINER_HEADERS: [&'static str; 5] = ["Name", "Image", "State", "Status", "Ports"];
pub const CONTAINER_LIST_HELP: &'static str = " q: Quit | /: Filter | j/k: Navigate | l: Logs | e: Exec | s: Start/Stop | d: Delete | c: Details | r: Refresh | p: Pause | R: Restart | X: Prune";
pub const CONTAINER_DETAILS_TITLE: &'static str = " Container Details ";
pub const CONTAINER_DETAILS_HELP: &'static str = " Esc/q: Back ";
pub const CONTAINER_LOGS_HELP: &'static str = " Esc/q: Back | Ctrl+u/d: Scroll ";
pub const CONTAINER_DETAILS_ENV_VARS_LABEL: &'static str = "Environment Variables";
pub const EXEC_SHELL_DIALOG_TITLE: &'static str = " Exec Shell ";
pub const EXEC_SHELL_DIALOG_HELP: &'static str = " j/k: Navigate | Enter: Select | Esc/q: Cancel ";

pub const VOLUME_TITLE: &'static str = "Volumes";
pub const VOLUME_HEADERS: [&'static str; 5] = ["Name", "Driver", "Size", "In Use", "Created"];
pub const VOLUME_LIST_HELP: &'static str = " q: Quit | /: Filter | j/k: Navigate | d: Delete | r: Refresh | X: Prune | Esc: Back ";

pub const IMAGE_TITLE: &'static str = "Images";
pub const IMAGE_HEADERS: [&'static str; 6] = ["Repository", "Tag", "ID", "Size", "In Use", "Created"];
pub const IMAGE_LIST_HELP: &'static str = " q: Quit | /: Filter | j/k: Navigate | d: Delete | c: Details | r: Refresh | X: Prune | Esc: Back ";
pub const IMAGE_DETAILS_TITLE: &'static str = " Image Details ";
pub const IMAGE_DETAILS_HELP: &'static str = " Esc/q: Back ";

pub const STACK_TITLE: &'static str = "Stacks";
pub const STACK_HEADERS: [&'static str; 3] = ["Stack", "Containers", "Running"];
pub const STACK_LIST_HELP: &'static str = " q: Quit | /: Filter | j/k: Navigate | Enter: Drill-down | s: Start All | S: Stop All | r: Refresh | Esc: Back ";
pub const STACK_CONTAINER_HEADERS: [&'static str; 5] = ["Name", "Image", "State", "Status", "Ports"];
pub const STACK_CONTAINERS_HELP: &'static str = " Esc/q: Back | j/k: Navigate | e: Exec | s: Start/Stop | S: Stop All | Ctrl+S: Start All | D: Remove All | d: Delete | r: Refresh ";

pub const LABEL_ID: &'static str = "ID:";
pub const LABEL_NAME: &'static str = "Name:";
pub const LABEL_IMAGE: &'static str = "Image:";
pub const LABEL_STATE: &'static str = "State:";
pub const LABEL_STATUS: &'static str = "Status:";
pub const LABEL_CREATED: &'static str = "Created:";
pub const LABEL_PORTS: &'static str = "Ports:";
pub const LABEL_NETWORKS: &'static str = "Networks:";
pub const LABEL_REPOSITORY: &'static str = "Repository:";
pub const LABEL_TAG: &'static str = "Tag:";
pub const LABEL_FULL_NAME: &'static str = "Full Name:";
pub const LABEL_SIZE: &'static str = "Size:";
pub const LABEL_IN_USE: &'static str = "In Use:";
pub const LABEL_DANGLING: &'static str = "Dangling:";
pub const VALUE_YES: &'static str = "Yes";
pub const VALUE_NO: &'static str = "No";

pub const DELETE_CONTAINER_MESSAGE: &'static str = "Delete this container?";
pub const FORCE_DELETE_CONTAINER_MESSAGE: &'static str = "Force delete this container?";
pub const DELETE_VOLUME_MESSAGE: &'static str = "Delete this volume?";
pub const DELETE_IMAGE_MESSAGE: &'static str = "Delete this image?";
pub const FORCE_DELETE_IMAGE_MESSAGE: &'static str = "Force delete this image?";
pub const PRUNE_CONTAINERS_MESSAGE: &'static str = "Prune all stopped containers?";
pub const PRUNE_VOLUMES_MESSAGE: &'static str = "Prune all unused volumes?";
pub const PRUNE_IMAGES_MESSAGE: &'static str = "Prune all dangling images?";
pub const REMOVE_ALL_STACK_CONTAINERS_MESSAGE: &'static str = "Remove ALL containers in this stack? (force)";

pub const CONTAINER_NOT_FOUND_MESSAGE: &'static str = "Container not found";
pub const VOLUME_IN_USE_DELETE_MESSAGE: &'static str = "Cannot delete volume: it is in use";

/// The title of a list screen: the base title, followed by the filter text
/// and a cursor while the filter input is open.
pub open spec fn filter_prompt_text(base: Seq<char>, active_filter: Option<Seq<char>>) -> Seq<char> {
    match active_filter {
        Some(f) => seq![' '] + base + " [/: "@ + f + FILTER_CURSOR@ + "] "@,
        None => seq![' '] + base + seq![' '],
    }
}

pub fn filter_prompt_title(base_title: &str, active_filter: Option<&str>) -> (r: String)
    ensures
        r@ == filter_prompt_text(
            base_title@,
            match active_filter {
                Some(f) => Some(f@),
                None => None,
            },
        ),
{
    let mut out = String::new();
    crate::text::push_char(&mut out, ' ');
    push_text(&mut out, base_title);
    match active_filter {
        Some(filter) => {
            push_text(&mut out, " [/: ");
            push_text(&mut out, filter);
            push_text(&mut out, FILTER_CURSOR);
            push_text(&mut out, "] ");
        },
        None => {
            crate::text::push_char(&mut out, ' ');
        },
    }
    proof {
        let f = match active_filter {
            Some(f) => Some(f@),
            None => None,
        };
        assert(out@ =~= filter_prompt_text(base_title@, f));
    }
    out
}

/// The title of the log screen.
pub fn logs_title(container_name: &str) -> (r: String)
    ensures
        r@ == " Logs: "@ + container_name@ + seq![' '],
{
    let mut out = string_of(" Logs: ");
    push_text(&mut out, container_name);
    crate::text::push_char(&mut out, ' ');
    out
}

/// The title of a stack's container screen.
pub fn stack_containers_title(stack_name: &str) -> (r: String)
    ensures
        r@ == " Stack: "@ + stack_name@ + seq![' '],
{
    let mut out = string_of(" Stack: ");
    push_text(&mut out, stack_name);
    crate::text::push_char(&mut out, ' ');
    out
}

/// The message after a prune: how many resources went, and how much space.
pub open spec fn prune_text(resource: Seq<char>, deleted_count: u32, freed: Seq<char>) -> Seq<char> {
    "Pruned "@ + decimal(deleted_count as nat) + seq![' '] + resource + "(s), freed "@ + freed
}

pub fn prune_result_message(resource_name: &str, deleted_count: u32, freed: &str) -> (r: String)
    ensures
        r@ == prune_text(resource_name@, deleted_count, freed@),
{
    let mut out = string_of("Pruned ");
    push_decimal(&mut out, deleted_count as u64);
    crate::text::push_char(&mut out, ' ');
    push_text(&mut out, resource_name);
    push_text(&mut out, "(s), freed ");
    push_text(&mut out, freed);
    assert(out@ =~= prune_text(resource_name@, deleted_count, freed@));
    out
}

} // verus!
