use vstd::prelude::*;

verus! {

/// Horizontal shift, in physical pixels, applied to the window's position
/// when the configuration file does not give one.
pub open spec fn spec_default_offset_x() -> int {
    -9
}

/// Vertical shift, in physical pixels, applied to the window's position
/// when the configuration file does not give one.
pub open spec fn spec_default_offset_y() -> int {
    -1
}

pub fn default_offset_x() -> (r: i32)
    ensures
        r as int == spec_default_offset_x(),
{
    -9
}

pub fn default_offset_y() -> (r: i32)
    ensures
        r as int == spec_default_offset_y(),
{
    -1
}

/// The configuration document used when no configuration file can be read.
pub const DEFAULT_CONFIG_TEXT: &'static str =
    "{\"shortcut\":\"CmdOrControl+Alt+Space\",\"offset_x\":-9,\"offset_y\":-1}";

/// The launcher's settings: the global hotkey that toggles the window, and
/// the shift applied to the window's position on the chosen monitor.
pub struct AppConfig {
    pub shortcut: String,
    pub offset_x: i32,
    pub offset_y: i32,
}

impl AppConfig {
    /// Builds the settings from the fields that a configuration document
    /// holds; an offset that the document leaves out takes its default.
    pub fn from_fields(shortcut: String, offset_x: Option<i32>, offset_y: Option<i32>) -> (r:
        AppConfig)
        ensures
            r.shortcut@ == shortcut@,
            r.offset_x as int == match offset_x {
                Some(v) => v as int,
                None => spec_default_offset_x(),
            },
            r.offset_y as int == match offset_y {
                Some(v) => v as int,
                None => spec_default_offset_y(),
            },
    {
        let x = match offset_x {
            Some(v) => v,
            None => default_offset_x(),
        };
        let y = match offset_y {
            Some(v) => v,
            None => default_offset_y(),
        };
        AppConfig { shortcut, offset_x: x, offset_y: y }
    }
}

/// The text to read the settings from: the configuration file's contents
/// when it could be read (`Some`), else the default document.
pub fn config_text(read: Option<String>) -> (r: String)
    ensures
        r@ == match read {
            Some(s) => s@,
            None => DEFAULT_CONFIG_TEXT@,
        },
{
    match read {
        Some(s) => s,
        None => DEFAULT_CONFIG_TEXT.to_string(),
    }
}

} // verus!
