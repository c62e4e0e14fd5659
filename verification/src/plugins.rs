//! The fixed set of capability plugins that the shell activates at startup.

use vstd::prelude::*;

verus! {

/// One prebuilt capability plugin. Each is supplied wholesale by the
/// external host's ecosystem; the shell only registers it.
#[derive(Clone, Copy, Debug, PartialEq, Eq, Structural)]
pub enum Plugin {
    /// SQL-backed storage access.
    Sql,
    /// Simple key-value store.
    Store,
    /// Auto-update checker.
    Updater,
    /// HTTP client.
    Http,
    /// Filesystem access.
    Fs,
    /// Native file and message dialogs.
    Dialog,
    /// External process invocation.
    Process,
}

/// The order in which the shell registers its plugins. The order is fixed
/// at build time; nothing depends on it beyond every registration preceding
/// the run-loop start.
pub open spec fn plugin_order() -> Seq<Plugin> {
    seq![
        Plugin::Sql,
        Plugin::Store,
        Plugin::Updater,
        Plugin::Http,
        Plugin::Fs,
        Plugin::Dialog,
        Plugin::Process,
    ]
}

/// The set of capabilities the shell declares available to the rest of the
/// application.
pub open spec fn capability_set() -> Set<Plugin> {
    set![
        Plugin::Sql,
        Plugin::Store,
        Plugin::Updater,
        Plugin::Http,
        Plugin::Fs,
        Plugin::Dialog,
        Plugin::Process,
    ]
}

/// The registration list handed to the driver, exactly in the fixed order.
pub fn registration_order() -> (v: Vec<Plugin>)
    ensures
        v@ == plugin_order(),
{
    let mut v: Vec<Plugin> = Vec::new();
    v.push(Plugin::Sql);
    v.push(Plugin::Store);
    v.push(Plugin::Updater);
    v.push(Plugin::Http);
    v.push(Plugin::Fs);
    v.push(Plugin::Dialog);
    v.push(Plugin::Process);
    proof {
        assert(v@ =~= plugin_order());
    }
    v
}

/// The registration order lists each declared capability exactly once and
/// nothing else.
pub proof fn lemma_order_carries_each_capability_once()
    ensures
        plugin_order().no_duplicates(),
        forall|p: Plugin| capability_set().contains(p) <==> plugin_order().contains(p),
{
    assert(plugin_order()[0] == Plugin::Sql);
    assert(plugin_order()[1] == Plugin::Store);
    assert(plugin_order()[2] == Plugin::Updater);
    assert(plugin_order()[3] == Plugin::Http);
    assert(plugin_order()[4] == Plugin::Fs);
    assert(plugin_order()[5] == Plugin::Dialog);
    assert(plugin_order()[6] == Plugin::Process);
}

} // verus!
