use vstd::prelude::*;

use crate::metadata::decode_sidecar;
use crate::metadata::PluginEntry;
use crate::metadata::PluginMetadata;
use crate::path::path_join;
use crate::registry::PluginRegistry;

verus! {

/// The suffix that marks a sidecar file.
pub open spec fn metadata_suffix() -> Seq<char> {
    seq!['.', 'm', 'e', 't', 'a', 'd', 'a', 't', 'a']
}

/// Whether the last component of `p` has a stem and the extension `metadata`.
pub open spec fn is_metadata_path(p: Seq<char>) -> bool {
    &&& p.len() >= 10
    &&& p.subrange(p.len() - 9, p.len() as int) == metadata_suffix()
    &&& p[p.len() - 10] != '/'
}

/// The byte contents of a sequence of buffers.
pub open spec fn byte_views(v: Seq<Vec<u8>>) -> Seq<Seq<u8>> {
    v.map_values(|b: Vec<u8>| b@)
}

/// The registry after registering, in order, every sidecar of `bufs` found in `dir` that
/// decodes; a later sidecar replaces an earlier one of the same name.
pub open spec fn register_sidecars<H>(
    m: Map<Seq<char>, PluginEntry<H>>,
    dir: Seq<char>,
    bufs: Seq<Seq<u8>>,
) -> Map<Seq<char>, PluginEntry<H>>
    decreases bufs.len(),
{
    if bufs.len() == 0 {
        m
    } else {
        let before = register_sidecars(m, dir, bufs.drop_last());
        match decode_sidecar(bufs.last()) {
            Ok((name, file)) => before.insert(
                name,
                PluginEntry { name, path: path_join(dir, file), plugin: None },
            ),
            Err(_) => before,
        }
    }
}

/// How many of `bufs` decode.
pub open spec fn count_decodable(bufs: Seq<Seq<u8>>) -> nat
    decreases bufs.len(),
{
    if bufs.len() == 0 {
        0
    } else {
        count_decodable(bufs.drop_last()) + if decode_sidecar(bufs.last()) is Ok {
            1nat
        } else {
            0nat
        }
    }
}

/// Whether `path` names a sidecar: its last component has a stem and the extension
/// `metadata`.
pub fn is_metadata_file(path: &str) -> (r: bool)
    ensures
        r == is_metadata_path(path@),
{
    let suffix = ".metadata";
    proof {
        reveal_strlit(".metadata");
    }
    assert(suffix@ == metadata_suffix());
    let n = path.unicode_len();
    if n < 10 {
        return false;
    }
    let start = n - 9;
    let mut j: usize = 0;
    while j < 9
        invariant
            n == path@.len(),
            start == n - 9,
            suffix@ == metadata_suffix(),
            j <= 9,
            forall|k: int| 0 <= k < j ==> path@[start + k] == metadata_suffix()[k],
        decreases 9 - j,
    {
        if path.get_char(start + j) != suffix.get_char(j) {
            proof {
                assert(path@.subrange(start as int, n as int)[j as int] != metadata_suffix()[j as int]);
            }
            return false;
        }
        j += 1;
    }
    assert(path@.subrange(start as int, n as int) =~= metadata_suffix());
    path.get_char(n - 10) != '/'
}

/// Registers every sidecar of `sidecars`, the contents of the sidecar files found in the
/// directory `dir`, that decodes; the others are skipped. Returns how many were registered.
pub fn discover_plugins_from_dir<H>(
    registry: &mut PluginRegistry<H>,
    dir: &str,
    sidecars: &Vec<Vec<u8>>,
) -> (r: usize)
    requires
        old(registry).wf(),
    ensures
        final(registry).wf(),
        final(registry)@ == register_sidecars(old(registry)@, dir@, byte_views(sidecars@)),
        r == count_decodable(byte_views(sidecars@)),
{
    let ghost bufs = byte_views(sidecars@);
    let mut count: usize = 0;
    let mut i: usize = 0;
    while i < sidecars.len()
        invariant
            bufs == byte_views(sidecars@),
            i <= sidecars@.len(),
            count <= i,
            registry.wf(),
            registry@ == register_sidecars(old(registry)@, dir@, bufs.take(i as int)),
            count == count_decodable(bufs.take(i as int)),
        decreases sidecars@.len() - i,
    {
        assert(bufs.take(i + 1).drop_last() =~= bufs.take(i as int));
        assert(bufs.take(i + 1).last() == sidecars@[i as int]@);
        let decoded: Result<PluginMetadata<H>, _> = PluginMetadata::from_raw_metadata(
            dir,
            sidecars[i].as_slice(),
        );
        match decoded {
            Ok(meta) => {
                let name = meta.name.clone();
                registry.add(&name, meta);
                count += 1;
            },
            Err(_) => {},
        }
        i += 1;
    }
    assert(bufs.take(i as int) =~= bufs);
    count
}

/// The directories and sidecar contents of `found`, as views.
pub open spec fn found_views(found: Seq<(String, Vec<Vec<u8>>)>) -> Seq<(Seq<char>, Seq<Seq<u8>>)> {
    found.map_values(|f: (String, Vec<Vec<u8>>)| (f.0@, byte_views(f.1@)))
}

/// The registry after registering the sidecars of each directory of `found`, in order.
pub open spec fn register_dirs<H>(
    m: Map<Seq<char>, PluginEntry<H>>,
    found: Seq<(Seq<char>, Seq<Seq<u8>>)>,
) -> Map<Seq<char>, PluginEntry<H>>
    decreases found.len(),
{
    if found.len() == 0 {
        m
    } else {
        register_sidecars(register_dirs(m, found.drop_last()), found.last().0, found.last().1)
    }
}

/// How many sidecars of all directories of `found` decode.
pub open spec fn count_dirs(found: Seq<(Seq<char>, Seq<Seq<u8>>)>) -> nat
    decreases found.len(),
{
    if found.len() == 0 {
        0
    } else {
        count_dirs(found.drop_last()) + count_decodable(found.last().1)
    }
}

/// Registers the plugins described by the sidecars found in each search directory, in the
/// order of the directories. Returns how many were registered, saturated at `usize::MAX`.
pub fn discover_plugins<H>(registry: &mut PluginRegistry<H>, found: &Vec<(String, Vec<Vec<u8>>)>) -> (r: usize)
    requires
        old(registry).wf(),
    ensures
        final(registry).wf(),
        final(registry)@ == register_dirs(old(registry)@, found_views(found@)),
        r == if count_dirs(found_views(found@)) <= usize::MAX {
            count_dirs(found_views(found@))
        } else {
            usize::MAX as nat
        },
{
    let ghost f = found_views(found@);
    let mut count: usize = 0;
    let mut i: usize = 0;
    while i < found.len()
        invariant
            f == found_views(found@),
            i <= found@.len(),
            registry.wf(),
            registry@ == register_dirs(old(registry)@, f.take(i as int)),
            count == if count_dirs(f.take(i as int)) <= usize::MAX {
                count_dirs(f.take(i as int))
            } else {
                usize::MAX as nat
            },
        decreases found@.len() - i,
    {
        assert(f.take(i + 1).drop_last() =~= f.take(i as int));
        assert(f.take(i + 1).last() == f[i as int]);
        let entry = &found[i];
        let n = discover_plugins_from_dir(registry, entry.0.as_str(), &entry.1);
        count = count.saturating_add(n);
        i += 1;
    }
    assert(f.take(i as int) =~= f);
    count
}

} // verus!
