//! The identity the plugin reports to its host, and the preferred size of
//! its editor view.

use vstd::prelude::*;
use vstd::string::StringExecFns;

verus! {

/// The category the plugin registers under.
#[derive(PartialEq, Eq, Structural, Clone, Copy, Debug)]
pub enum PluginCategory {
    Effect,
}

/// The identity metadata of the plugin: a stereo effect with one parameter.
pub struct PluginInfo {
    pub name: String,
    pub vendor: String,
    pub unique_id: i32,
    pub category: PluginCategory,
    pub inputs: i32,
    pub outputs: i32,
    pub parameters: i32,
}

/// The fixed identity of this plugin.
pub fn plugin_info() -> (r: PluginInfo)
    ensures
        r.name@ == "Simple Gain"@,
        r.vendor@ == "Psykhedelic Mandala"@,
        r.unique_id == 1337,
        r.category == PluginCategory::Effect,
        r.inputs == 2,
        r.outputs == 2,
        r.parameters == 1,
{
    PluginInfo {
        name: String::from_str("Simple Gain"),
        vendor: String::from_str("Psykhedelic Mandala"),
        unique_id: 1337,
        category: PluginCategory::Effect,
        inputs: 2,
        outputs: 2,
        parameters: 1,
    }
}

/// The preferred size of the editor view, in logical pixels.
pub fn editor_size() -> (r: (i32, i32))
    ensures
        r.0 == 480,
        r.1 == 500,
{
    (480, 500)
}

} // verus!
