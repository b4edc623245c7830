use vstd::prelude::*;

verus! {

/// The full-screen error panel.
#[derive(Default)]
pub struct ErrorWidget;

pub const ERROR_PANEL_PREFIX: &'static str =
    "\n\nPermission Denied: Administrator privileges (sudo) are required.\n\nDetails:\n";

pub const UNKNOWN_ERROR: &'static str = "Unknown Error";

impl ErrorWidget {
    /// The panel's text: the fixed explanation followed by the error of the
    /// error screen, or "Unknown Error" when the screen holds none.
    pub fn message(details: Option<&str>) -> (s: String)
        ensures
            s@ == ERROR_PANEL_PREFIX@ + (match details {
                Some(d) => d@,
                None => UNKNOWN_ERROR@,
            }),
    {
        let mut s = String::from_str(ERROR_PANEL_PREFIX);
        match details {
            Some(d) => s.append(d),
            None => s.append(UNKNOWN_ERROR),
        }
        s
    }
}

} // verus!
