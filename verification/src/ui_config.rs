//! Fixed UI text: status messages, breadcrumb labels and the toolbar menu.

use vstd::prelude::*;

verus! {

/// Status-line messages.
pub struct Messages {
    pub pending_action: &'static str,
    pub error_caller_identity: &'static str,
    pub error_describe_cloud_watch_log_groups: &'static str,
}

/// Breadcrumb labels.
pub struct Breadcrumbs {
    pub profiles: &'static str,
    pub regions: &'static str,
    pub services: &'static str,
    pub cloud_watch_logs: &'static str,
}

/// One menu entry's fixed text.
pub struct MenuItemText {
    pub title: &'static str,
    pub command: &'static str,
    pub color_index: usize,
}

/// The toolbar menu entries.
pub struct Menu {
    pub quit: MenuItemText,
    pub tab: MenuItemText,
    pub back_tab: MenuItemText,
    pub details: MenuItemText,
    pub up: MenuItemText,
    pub down: MenuItemText,
    pub select: MenuItemText,
}

/// The message shown while an asynchronous action is in flight.
pub open spec fn spec_pending_message() -> Seq<char> {
    "Pending action. Please wait ..."@
}

/// The error shown when the identity check fails.
pub open spec fn spec_error_caller_identity_message() -> Seq<char> {
    "Error: Cloud not fetch caller identity. Press <CTRL-m> for more information"@
}

/// The error shown when the log-group listing fails.
pub open spec fn spec_error_describe_log_groups_message() -> Seq<char> {
    "Error: CloudWatch Log Groups could not be fetched. Press <CTRL-m> for more information"@
}

/// The fixed status-line messages.
pub fn messages() -> (m: Messages)
    ensures
        m.pending_action@ == spec_pending_message(),
        m.error_caller_identity@ == spec_error_caller_identity_message(),
        m.error_describe_cloud_watch_log_groups@ == spec_error_describe_log_groups_message(),
{
    Messages {
        pending_action: "Pending action. Please wait ...",
        error_caller_identity:
            "Error: Cloud not fetch caller identity. Press <CTRL-m> for more information",
        error_describe_cloud_watch_log_groups:
            "Error: CloudWatch Log Groups could not be fetched. Press <CTRL-m> for more information",
    }
}

/// The fixed breadcrumb labels.
pub fn breadcrumbs() -> (b: Breadcrumbs)
    ensures
        b.profiles@ == " <profiles> "@,
        b.regions@ == " <regions> "@,
        b.services@ == " <services> "@,
        b.cloud_watch_logs@ == "<logs>"@,
{
    Breadcrumbs {
        profiles: " <profiles> ",
        regions: " <regions> ",
        services: " <services> ",
        cloud_watch_logs: "<logs>",
    }
}

/// The fixed toolbar menu entries.
pub fn menu() -> (m: Menu)
    ensures
        m.quit.command@ == "<ctrl-c>"@ && m.quit.title@ == "quit"@,
        m.tab.command@ == "<tab>"@ && m.tab.title@ == "cycle forward"@,
        m.back_tab.command@ == "<shift-tab>"@ && m.back_tab.title@ == "cycle backward"@,
        m.details.command@ == "<d>"@ && m.details.title@ == "Details"@,
        m.up.command@ == "<up>"@ && m.up.title@ == "prev element"@,
        m.down.command@ == "<down"@ && m.down.title@ == "next element"@,
        m.select.command@ == "<enter>"@ && m.select.title@ == "select"@,
{
    Menu {
        quit: MenuItemText { title: "quit", command: "<ctrl-c>", color_index: 1 },
        tab: MenuItemText { title: "cycle forward", command: "<tab>", color_index: 1 },
        back_tab: MenuItemText { title: "cycle backward", command: "<shift-tab>", color_index: 1 },
        details: MenuItemText { title: "Details", command: "<d>", color_index: 0 },
        up: MenuItemText { title: "prev element", command: "<up>", color_index: 1 },
        down: MenuItemText { title: "next element", command: "<down", color_index: 1 },
        select: MenuItemText { title: "select", command: "<enter>", color_index: 1 },
    }
}

} // verus!
