//! The interfaces the plugin offers the browser, by name.

use vstd::prelude::*;
use vstd::string::StrSliceExecFns;

verus! {

/// The plugin-side interfaces.
#[derive(Clone, Copy, PartialEq, Eq, Structural, Debug, Hash)]
pub enum PluginInterface {
    Instance,
    Messaging,
    InputEvent,
    Graphics3D,
}

/// The names the browser asks for the plugin's interfaces by.
pub open spec fn plugin_interface_of(name: Seq<char>) -> Option<PluginInterface> {
    if name == "PPP_Instance;1.1"@ { Some(PluginInterface::Instance) }
    else if name == "PPP_Messaging;1.0"@ { Some(PluginInterface::Messaging) }
    else if name == "PPP_InputEvent;0.1"@ { Some(PluginInterface::InputEvent) }
    else if name == "PPP_Graphics_3D;1.0"@ { Some(PluginInterface::Graphics3D) }
    else { None }
}

/// Whether two texts hold the same characters.
pub fn str_eq(a: &str, b: &str) -> (r: bool)
    ensures r == (a@ == b@),
{
    let n = a.unicode_len();
    if n != b.unicode_len() {
        return false;
    }
    let mut i: usize = 0;
    while i < n
        invariant
            n == a@.len(),
            n == b@.len(),
            i <= n,
            forall|k: int| 0 <= k < i ==> a@[k] == b@[k],
        decreases n - i,
    {
        if a.get_char(i) != b.get_char(i) {
            return false;
        }
        i = i + 1;
    }
    proof {
        assert(a@ =~= b@);
    }
    true
}

/// The interface the browser asks for by `name`, as
/// `PPP_GetInterface(name)` answers it; none for a name the plugin does not
/// offer.
pub fn plugin_interface(name: &str) -> (r: Option<PluginInterface>)
    ensures r == plugin_interface_of(name@),
{
    if str_eq(name, "PPP_Instance;1.1") {
        Some(PluginInterface::Instance)
    } else if str_eq(name, "PPP_Messaging;1.0") {
        Some(PluginInterface::Messaging)
    } else if str_eq(name, "PPP_InputEvent;0.1") {
        Some(PluginInterface::InputEvent)
    } else if str_eq(name, "PPP_Graphics_3D;1.0") {
        Some(PluginInterface::Graphics3D)
    } else {
        None
    }
}

/// The plugin offers each of its interfaces under the browser name of that
/// interface's version, and nothing under any other name.
pub proof fn lemma_plugin_interfaces_by_name(name: Seq<char>)
    ensures
        plugin_interface_of(name) == Some(PluginInterface::Instance) <==> name == "PPP_Instance;1.1"@,
        plugin_interface_of(name) == Some(PluginInterface::Messaging) <==> name == "PPP_Messaging;1.0"@,
        plugin_interface_of(name) == Some(PluginInterface::InputEvent) <==> name == "PPP_InputEvent;0.1"@,
        plugin_interface_of(name) == Some(PluginInterface::Graphics3D) <==> name == "PPP_Graphics_3D;1.0"@,
{
    reveal_strlit("PPP_Instance;1.1");
    reveal_strlit("PPP_Messaging;1.0");
    reveal_strlit("PPP_InputEvent;0.1");
    reveal_strlit("PPP_Graphics_3D;1.0");
    assert("PPP_Instance;1.1"@.len() == 16);
    assert("PPP_Messaging;1.0"@.len() == 17);
    assert("PPP_InputEvent;0.1"@.len() == 18);
    assert("PPP_Graphics_3D;1.0"@.len() == 19);
}

} // verus!
