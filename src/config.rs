//! The daemon's configuration: which keyboards select which layout, and the
//! capture mode to start in.
use vstd::prelude::*;
use vstd::string::StringExecFns;

verus! {

/// One configured keyboard: a case-insensitive name pattern and the layout
/// that a device matching it selects.
pub struct KeyboardConfig {
    pub name: String,
    pub layout_index: u32,
    pub layout_name: String,
}

/// The full configuration: keyboards in priority order and the initial mode.
pub struct Config {
    pub keyboards: Vec<KeyboardConfig>,
    pub mode: String,
}

/// The capture mode used when the configuration does not name one.
pub fn default_mode() -> (r: String)
    ensures
        r@ == "grab"@,
{
    String::from_str("grab")
}

impl KeyboardConfig {
    /// A keyboard entry from its three fields.
    pub fn new(name: &str, layout_index: u32, layout_name: &str) -> (r: KeyboardConfig)
        ensures
            r.name@ == name@,
            r.layout_index == layout_index,
            r.layout_name@ == layout_name@,
    {
        KeyboardConfig {
            name: String::from_str(name),
            layout_index,
            layout_name: String::from_str(layout_name),
        }
    }
}

impl Default for Config {
    /// Two keyboards: "Lofree" selects layout 1 (English (US)) and "CHERRY"
    /// selects layout 0 (German); the mode is grab.
    fn default() -> (r: Config)
        ensures
            r.keyboards@.len() == 2,
            r.keyboards@[0].name@ == "Lofree"@,
            r.keyboards@[0].layout_index == 1,
            r.keyboards@[0].layout_name@ == "English (US)"@,
            r.keyboards@[1].name@ == "CHERRY"@,
            r.keyboards@[1].layout_index == 0,
            r.keyboards@[1].layout_name@ == "German"@,
            r.mode@ == "grab"@,
    {
        let mut keyboards: Vec<KeyboardConfig> = Vec::new();
        keyboards.push(KeyboardConfig::new("Lofree", 1, "English (US)"));
        keyboards.push(KeyboardConfig::new("CHERRY", 0, "German"));
        Config { keyboards, mode: default_mode() }
    }
}

} // verus!
