//! The pages of the user interface and the scripts that each one loads.

use vstd::prelude::*;

verus! {

/// The page that is being shown.
#[derive(Debug, Clone, Copy, PartialEq, Eq)]
pub enum ActivePage {
    Dashboard,
    Settings,
}

impl ActivePage {
    /// The script files of the page, in the order in which they are loaded:
    /// the page's own script, then the shared one.
    pub fn styles(&self) -> (r: Vec<&'static str>)
        ensures
            r@.len() == 2,
            r@[0]@ == match *self {
                ActivePage::Dashboard => "dashboard.js"@,
                ActivePage::Settings => "settings.js"@,
            },
            r@[1]@ == "main.js"@,
    {
        let mut files: Vec<&'static str> = Vec::new();
        match self {
            ActivePage::Dashboard => files.push("dashboard.js"),
            ActivePage::Settings => files.push("settings.js"),
        }
        files.push("main.js");
        files
    }
}

} // verus!
