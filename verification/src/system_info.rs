//! What the operating system says about itself, and how it is shown.

use vstd::prelude::*;

verus! {

/// Shown in place of a field that the operating system did not report.
pub const UNKNOWN: &'static str = "Unknown";

/// The name, kernel and version of the operating system, each as far as it
/// could be found out.
#[derive(Clone, Debug, PartialEq, Eq)]
pub struct SystemInformation {
    pub system_name: Option<String>,
    pub system_kernel: Option<String>,
    pub system_version: Option<String>,
}

/// The three texts of the system information line.
#[derive(Debug, PartialEq, Eq)]
pub struct SystemInfoLine {
    pub name: String,
    pub kernel: String,
    pub version: String,
}

/// The text shown for a field: its content, or "Unknown" where it is missing.
pub open spec fn shown_text(field: Option<String>) -> Seq<char> {
    match field {
        Some(text) => text@,
        None => UNKNOWN@,
    }
}

/// The text to show for one field of the system information.
pub fn field_text(field: &Option<String>) -> (text: String)
    ensures
        text@ == shown_text(*field),
{
    match field {
        Some(text) => text.clone(),
        None => UNKNOWN.to_owned(),
    }
}

/// Projects the system information to the line that shows it. Every missing
/// field reads "Unknown".
pub fn system_info_view(system_info: &SystemInformation) -> (line: SystemInfoLine)
    ensures
        line.name@ == shown_text(system_info.system_name),
        line.kernel@ == shown_text(system_info.system_kernel),
        line.version@ == shown_text(system_info.system_version),
{
    SystemInfoLine {
        name: field_text(&system_info.system_name),
        kernel: field_text(&system_info.system_kernel),
        version: field_text(&system_info.system_version),
    }
}

} // verus!
