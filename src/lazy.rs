use vstd::prelude::*;

use crate::metadata::PluginEntry;
use crate::registry::PluginRegistry;
use crate::text::concat;

verus! {

/// Why a plugin could not be handed out.
#[derive(Clone, Copy, Debug, PartialEq, Eq, Structural)]
pub enum PluginError {
    /// No plugin is registered under the name.
    NotFound,
    /// The plugin is registered, but loading its shared object failed.
    LoadFailed,
}

impl PluginError {
    /// The diagnostic for this error on the plugin `name`.
    pub fn message(&self, name: &str) -> (r: String)
        ensures
            *self == PluginError::NotFound ==> r@ == name@ + ": command not found"@,
            *self == PluginError::LoadFailed ==> r@ == name@ + ": plugin failed to load"@,
    {
        match self {
            PluginError::NotFound => concat(name, ": command not found"),
            PluginError::LoadFailed => concat(name, ": plugin failed to load"),
        }
    }
}

/// Whether the plugin registered under `name` still has to be loaded.
pub open spec fn needs_load<H>(m: Map<Seq<char>, PluginEntry<H>>, name: Seq<char>) -> bool {
    m.contains_key(name) && m[name].plugin is None
}

/// The registry after the entry under `name` took `out` as its handle.
pub open spec fn with_handle<H>(
    m: Map<Seq<char>, PluginEntry<H>>,
    name: Seq<char>,
    out: Option<H>,
) -> Map<Seq<char>, PluginEntry<H>> {
    m.insert(name, m[name].with_plugin(out))
}

/// What a lookup returns once the loader produced `out`: a clone of the new handle, or
/// the load failure.
pub open spec fn load_result<H: Clone>(out: Option<H>, r: Result<H, PluginError>) -> bool {
    match out {
        Some(h) => r matches Ok(h2) && cloned(h, h2),
        None => r == Err::<H, PluginError>(PluginError::LoadFailed),
    }
}

/// The handle of the plugin `name` if it is loaded; this never loads.
pub fn get_loaded<H: Clone>(registry: &PluginRegistry<H>, name: &str) -> (r: Option<H>)
    requires
        registry.wf(),
    ensures
        registry@.contains_key(name@) && registry@[name@].plugin is Some ==> (r matches Some(h)
            && cloned(registry@[name@].plugin->0, h)),
        !(registry@.contains_key(name@) && registry@[name@].plugin is Some) ==> r is None,
{
    match registry.borrow_ref(name) {
        Some(meta) => match &meta.plugin {
            Some(h) => Some(h.clone()),
            None => None,
        },
        None => None,
    }
}

/// The handle of the plugin `name`, loading it first if no handle is stored yet.
///
/// `load` is asked only when the entry exists and is unloaded, and then once, with the
/// entry's path; a handle it returns is stored. A stored handle is handed out as a clone,
/// and the registry is left as it was.
pub fn get_plugin<H: Clone, F: FnOnce(String) -> Option<H>>(
    registry: &mut PluginRegistry<H>,
    name: &str,
    load: F,
) -> (r: Result<H, PluginError>)
    requires
        old(registry).wf(),
        forall|p: String| load.requires((p,)),
    ensures
        final(registry).wf(),
        !old(registry)@.contains_key(name@) ==> r == Err::<H, PluginError>(PluginError::NotFound)
            && final(registry)@ == old(registry)@,
        old(registry)@.contains_key(name@) && old(registry)@[name@].plugin is Some
            ==> final(registry)@ == old(registry)@
            && (r matches Ok(h) && cloned(old(registry)@[name@].plugin->0, h)),
        needs_load(old(registry)@, name@) ==> exists|path: String, out: Option<H>|
            path@ == old(registry)@[name@].path && load.ensures((path,), out) && final(registry)@ == with_handle(
                old(registry)@,
                name@,
                out,
            ) && load_result(out, r),
{
    if !registry.contains(name) {
        return Err(PluginError::NotFound);
    }
    if let Some(h) = get_loaded(registry, name) {
        return Ok(h);
    }
    let ghost m = registry@;
    let ghost mut loaded: Option<H> = None;
    let ghost mut asked: Option<String> = None;
    let r = match registry.borrow_mut(name) {
        Some(meta) => {
            let path = meta.path.clone();
            proof {
                asked = Some(path);
            }
            let out = load(path);
            proof {
                loaded = out;
            }
            match out {
                Some(h) => {
                    let r = h.clone();
                    meta.plugin = Some(h);
                    assert(meta@ == m[name@].with_plugin(loaded));
                    Ok(r)
                },
                None => {
                    assert(meta@ == m[name@].with_plugin(loaded));
                    Err(PluginError::LoadFailed)
                },
            }
        },
        None => Err(PluginError::NotFound),
    };
    assert(asked->0@ == m[name@].path && load.ensures((asked->0,), loaded));
    assert(registry@ == with_handle(m, name@, loaded));
    assert(load_result(loaded, r));
    r
}

/// Drops the stored handle of the plugin `name` and loads it anew.
///
/// `load` is asked once, with the entry's path, whenever the entry exists; what it returns
/// replaces the previous handle, which is not kept even when loading fails.
pub fn reload_plugin<H: Clone, F: FnOnce(String) -> Option<H>>(
    registry: &mut PluginRegistry<H>,
    name: &str,
    load: F,
) -> (r: Result<H, PluginError>)
    requires
        old(registry).wf(),
        forall|p: String| load.requires((p,)),
    ensures
        final(registry).wf(),
        !old(registry)@.contains_key(name@) ==> r == Err::<H, PluginError>(PluginError::NotFound)
            && final(registry)@ == old(registry)@,
        old(registry)@.contains_key(name@) ==> exists|path: String, out: Option<H>|
            path@ == old(registry)@[name@].path && load.ensures((path,), out) && final(registry)@ == with_handle(
                old(registry)@,
                name@,
                out,
            ) && load_result(out, r),
{
    let ghost m = registry@;
    let ghost mut loaded: Option<H> = None;
    let ghost mut asked: Option<String> = None;
    let r = match registry.borrow_mut(name) {
        Some(meta) => {
            meta.plugin = None;
            let path = meta.path.clone();
            proof {
                asked = Some(path);
            }
            let out = load(path);
            proof {
                loaded = out;
            }
            match out {
                Some(h) => {
                    let r = h.clone();
                    meta.plugin = Some(h);
                    assert(meta@ == m[name@].with_plugin(loaded));
                    Ok(r)
                },
                None => {
                    assert(meta@ == m[name@].with_plugin(loaded));
                    Err(PluginError::LoadFailed)
                },
            }
        },
        None => Err(PluginError::NotFound),
    };
    proof {
        if m.contains_key(name@) {
            assert(asked->0@ == m[name@].path && load.ensures((asked->0,), loaded));
            assert(registry@ == with_handle(m, name@, loaded));
            assert(load_result(loaded, r));
        }
    }
    r
}

/// Single flight: once a load has stored handle `h` for `name`, the entry needs no further
/// load, and every later lookup hands out a clone of `h` and leaves the registry unchanged.
pub proof fn lemma_single_flight<H>(m: Map<Seq<char>, PluginEntry<H>>, name: Seq<char>, h: H)
    requires
        m.contains_key(name),
    ensures
        with_handle(m, name, Some(h)).contains_key(name),
        with_handle(m, name, Some(h))[name].plugin == Some(h),
        !needs_load(with_handle(m, name, Some(h)), name),
        with_handle(with_handle(m, name, Some(h)), name, Some(h)) == with_handle(m, name, Some(h)),
{
    let m2 = with_handle(m, name, Some(h));
    assert(with_handle(m2, name, Some(h)) =~= m2);
}

/// Reload generation: after a reload of `name` the entry holds exactly what the new load
/// returned, never the previous handle; when that load failed, the next lookup loads again.
pub proof fn lemma_reload_generation<H>(
    m: Map<Seq<char>, PluginEntry<H>>,
    name: Seq<char>,
    out: Option<H>,
)
    requires
        m.contains_key(name),
    ensures
        with_handle(m, name, out)[name].plugin == out,
        with_handle(m, name, out)[name].path == m[name].path,
        out is None ==> needs_load(with_handle(m, name, out), name),
{
}

} // verus!
