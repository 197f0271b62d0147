//! The download cache: one directory per artifact checksum, holding the
//! artifact and its `entry.json` metadata.
use vstd::prelude::*;
use crate::config::{git_ref_kind_name};
use crate::error::PyanpmError;
use crate::operations::CacheEntry;
use crate::order::{views, stable_order_desc, is_stable_order_desc, seq_lt, str_lt, lemma_seq_lt_irreflexive, lemma_seq_lt_total, lemma_seq_lt_transitive};
use crate::paths::{join_path, join_spec, file_name, file_name_spec, file_stem, file_stem_spec};
use crate::plugin::{ArtifactKind, PluginSourceKind, ResolvedPlugin, source_kind_name};
use crate::text::{clone_opt, concat2, concat3, concat5, str_eq};

verus! {

/// The cache rooted at a directory.
#[derive(Debug)]
pub struct CacheStore {
    root: String,
}

/// An artifact stored in the cache.
#[derive(Debug)]
pub struct CachedArtifact {
    pub checksum: String,
    pub artifact_kind: ArtifactKind,
    pub stored_path: String,
}

/// The `entry.json` of a cached artifact.  Times are Unix milliseconds.
#[derive(Debug)]
pub struct CacheMetadata {
    pub cache_id: String,
    pub plugin_name: String,
    pub version: Option<String>,
    pub source_kind: String,
    pub source_summary: String,
    pub checksum: String,
    pub size_bytes: u64,
    pub created_at: i64,
    pub last_used_at: i64,
    pub path: String,
}

/// Where an artifact goes in the cache.
pub struct ArtifactLocation {
    /// The directory named by the artifact's checksum.
    pub artifact_root: String,
    /// The artifact inside it, under its install name.
    pub stored_path: String,
    /// Its metadata file.
    pub metadata_path: String,
}

/// One-line description of where a resolved plugin came from.
pub open spec fn source_summary_spec(r: ResolvedPlugin) -> Seq<char> {
    match r.source {
        PluginSourceKind::File => "file:"@ + r.source_path@,
        PluginSourceKind::Path => "path:"@ + r.source_path@,
        PluginSourceKind::Git => "git:"@ + match r.source_url {
            Some(u) => u@,
            None => "unknown"@,
        } + match (r.git_ref_kind, r.git_requested_ref) {
            (Some(k), Some(x)) => " ["@ + git_ref_kind_name(k) + ":"@ + x@ + "]"@,
            _ => Seq::empty(),
        } + match r.source_subdir {
            Some(s) => " ["@ + s@ + "]"@,
            None => Seq::empty(),
        } + match r.git_resolved_commit {
            Some(c) => " @"@ + c@,
            None => Seq::empty(),
        },
    }
}

fn source_summary(r: &ResolvedPlugin) -> (s: String)
    ensures
        s@ == source_summary_spec(*r),
{
    match r.source {
        PluginSourceKind::File => concat2("file:", r.source_path.as_str()),
        PluginSourceKind::Path => concat2("path:", r.source_path.as_str()),
        PluginSourceKind::Git => {
            let url = match &r.source_url {
                Some(u) => u.as_str(),
                None => "unknown",
            };
            let mut s = concat2("git:", url);
            match (r.git_ref_kind, &r.git_requested_ref) {
                (Some(k), Some(x)) => {
                    let kind = k.name();
                    s.append(concat5(" [", kind.as_str(), ":", x.as_str(), "]").as_str());
                },
                _ => {},
            }
            match &r.source_subdir {
                Some(d) => s.append(concat3(" [", d.as_str(), "]").as_str()),
                None => {},
            }
            match &r.git_resolved_commit {
                Some(c) => s.append(concat2(" @", c.as_str()).as_str()),
                None => {},
            }
            assert(s@ =~= source_summary_spec(*r));
            s
        },
    }
}

/// The metadata recorded for a freshly stored or reused artifact: named by
/// its checksum, with the resolved version (else the requested one), the
/// source kind and summary, its size, and `now` as both creation and last
/// use.
pub fn cache_metadata(resolved: &ResolvedPlugin, stored_path: &str, size_bytes: u64, now: i64) -> (m: CacheMetadata)
    ensures
        m.cache_id == resolved.checksum,
        m.plugin_name == resolved.name,
        m.version == match resolved.resolved_version {
            Some(v) => Some(v),
            None => resolved.requested_version,
        },
        m.source_kind@ == source_kind_name(resolved.source),
        m.source_summary@ == source_summary_spec(*resolved),
        m.checksum == resolved.checksum,
        m.size_bytes == size_bytes,
        m.created_at == now,
        m.last_used_at == now,
        m.path@ == stored_path@,
{
    CacheMetadata {
        cache_id: resolved.checksum.clone(),
        plugin_name: resolved.name.clone(),
        version: match &resolved.resolved_version {
            Some(v) => Some(v.clone()),
            None => clone_opt(&resolved.requested_version),
        },
        source_kind: resolved.source.name(),
        source_summary: source_summary(resolved),
        checksum: resolved.checksum.clone(),
        size_bytes,
        created_at: now,
        last_used_at: now,
        path: String::from_str(stored_path),
    }
}

/// The metadata assumed for a cache directory without `entry.json`: named
/// and checksummed by the directory's name, the plugin named by the stored
/// artifact's stem, of unknown source.
pub fn fallback_metadata(artifact_root: &str, stored_path: &str, size_bytes: u64, now: i64) -> (r: Result<CacheMetadata, PyanpmError>)
    ensures
        file_name_spec(artifact_root@) is None ==> (r matches Err(PyanpmError::CacheEntryNotFound(x)) && x@ == artifact_root@),
        file_name_spec(artifact_root@) matches Some(id) ==> (r matches Ok(m) && {
            &&& m.cache_id@ == id && m.checksum@ == id
            &&& m.plugin_name@ == match file_stem_spec(stored_path@) {
                Some(stem) => stem,
                None => "unknown"@,
            }
            &&& m.version is None
            &&& m.source_kind@ == "unknown"@
            &&& m.source_summary@ == stored_path@
            &&& m.size_bytes == size_bytes
            &&& m.created_at == now && m.last_used_at == now
            &&& m.path@ == stored_path@
        }),
{
    let checksum = match file_name(artifact_root) {
        Some(n) => String::from_str(n),
        None => return Err(PyanpmError::CacheEntryNotFound(String::from_str(artifact_root))),
    };
    let plugin_name = match file_stem(stored_path) {
        Some(s) => String::from_str(s),
        None => String::from_str("unknown"),
    };
    Ok(CacheMetadata {
        cache_id: checksum.clone(),
        plugin_name,
        version: None,
        source_kind: String::from_str("unknown"),
        source_summary: String::from_str(stored_path),
        checksum,
        size_bytes,
        created_at: now,
        last_used_at: now,
        path: String::from_str(stored_path),
    })
}

/// The checksum is one of the active lockfile's.
pub open spec fn is_active(active: Seq<Seq<char>>, checksum: Seq<char>) -> bool {
    active.contains(checksum)
}

/// The cache entry a metadata file describes.
pub open spec fn entry_of(m: CacheMetadata, referenced: bool) -> CacheEntry {
    CacheEntry {
        cache_id: m.cache_id,
        plugin_name: m.plugin_name,
        version: m.version,
        source_kind: m.source_kind,
        source_summary: m.source_summary,
        checksum: m.checksum,
        size_bytes: m.size_bytes,
        created_at: m.created_at,
        last_used_at: m.last_used_at,
        referenced_by_active_lockfile: referenced,
        path: m.path,
    }
}

fn contains_string(v: &Vec<String>, s: &str) -> (r: bool)
    ensures
        r == views(v@).contains(s@),
{
    let mut i: usize = 0;
    while i < v.len()
        invariant
            i <= v.len(),
            forall|k: int| 0 <= k < i ==> v@[k]@ != s@,
        decreases v.len() - i,
    {
        if str_eq(v[i].as_str(), s) {
            assert(views(v@)[i as int] == s@);
            return true;
        }
        i = i + 1;
    }
    proof {
        if views(v@).contains(s@) {
            let k = choose|k: int| 0 <= k < views(v@).len() && views(v@)[k] == s@;
            assert(v@[k]@ == s@);
        }
    }
    false
}

/// The last-use times of metadata records.
pub open spec fn last_used_keys(ms: Seq<CacheMetadata>) -> Seq<i64> {
    ms.map_values(|m: CacheMetadata| m.last_used_at)
}

impl CacheStore {
    pub closed spec fn root_view(&self) -> Seq<char> {
        self.root@
    }

    /// The cache rooted at `root`.
    pub fn new(root: String) -> (r: Self)
        ensures
            r.root_view() == root@,
    {
        CacheStore { root }
    }

    /// The cache's root directory.
    pub fn root(&self) -> (r: &str)
        ensures
            r@ == self.root_view(),
    {
        self.root.as_str()
    }

    /// Where the artifact of `resolved` is stored: under its checksum, named
    /// as it is installed, with `entry.json` beside it.
    pub fn artifact_location(&self, resolved: &ResolvedPlugin) -> (r: ArtifactLocation)
        ensures
            r.artifact_root@ == join_spec(self.root_view(), resolved.checksum@),
            r.stored_path@ == join_spec(r.artifact_root@, resolved.install_name@),
            r.metadata_path@ == join_spec(r.artifact_root@, "entry.json"@),
    {
        let artifact_root = join_path(self.root.as_str(), resolved.checksum.as_str());
        let stored_path = join_path(artifact_root.as_str(), resolved.install_name.as_str());
        let metadata_path = join_path(artifact_root.as_str(), "entry.json");
        ArtifactLocation { artifact_root, stored_path, metadata_path }
    }

    /// The directory of a cache entry.
    pub fn entry_path(&self, cache_id: &str) -> (r: String)
        ensures
            r@ == join_spec(self.root_view(), cache_id@),
    {
        join_path(self.root.as_str(), cache_id)
    }

    /// The cache entries described by `metadata`, each marked as referenced
    /// when its checksum is active, most recently used first (entries used at
    /// the same time keep their order).
    pub fn list_entries(&self, metadata: Vec<CacheMetadata>, active_checksums: &Vec<String>) -> (r: Vec<CacheEntry>)
        ensures
            exists|p: Seq<usize>| #[trigger] is_stable_order_desc(last_used_keys(metadata@), p) && r@.len() == p.len()
                && forall|i: int| 0 <= i < p.len() ==> #[trigger] r@[i] == entry_of(metadata@[p[i] as int],
                    is_active(views(active_checksums@), metadata@[p[i] as int].checksum@)),
    {
        let n = metadata.len();
        let mut keys: Vec<i64> = Vec::new();
        let mut i: usize = 0;
        while i < n
            invariant
                n == metadata.len(),
                i <= n,
                keys@ == last_used_keys(metadata@).subrange(0, i as int),
            decreases n - i,
        {
            keys.push(metadata[i].last_used_at);
            assert(keys@ =~= last_used_keys(metadata@).subrange(0, i + 1));
            i = i + 1;
        }
        assert(keys@ =~= last_used_keys(metadata@));
        let order = stable_order_desc(&keys);
        let mut out: Vec<CacheEntry> = Vec::new();
        let mut k: usize = 0;
        while k < n
            invariant
                n == metadata.len(),
                keys@ == last_used_keys(metadata@),
                is_stable_order_desc(keys@, order@),
                k <= n,
                out@.len() == k,
                forall|t: int| 0 <= t < k ==> #[trigger] out@[t] == entry_of(metadata@[order@[t] as int],
                    is_active(views(active_checksums@), metadata@[order@[t] as int].checksum@)),
            decreases n - k,
        {
            let idx = order[k];
            let m = &metadata[idx];
            let referenced = contains_string(active_checksums, m.checksum.as_str());
            out.push(CacheEntry {
                cache_id: m.cache_id.clone(),
                plugin_name: m.plugin_name.clone(),
                version: clone_opt(&m.version),
                source_kind: m.source_kind.clone(),
                source_summary: m.source_summary.clone(),
                checksum: m.checksum.clone(),
                size_bytes: m.size_bytes,
                created_at: m.created_at,
                last_used_at: m.last_used_at,
                referenced_by_active_lockfile: referenced,
                path: m.path.clone(),
            });
            k = k + 1;
        }
        out
    }

    /// The first listed entry with identifier `cache_id`.
    pub fn get_entry(&self, listed: Vec<CacheEntry>, cache_id: &str) -> (r: Result<CacheEntry, PyanpmError>)
        ensures
            r matches Ok(e) ==> exists|i: int| 0 <= i < listed@.len() && listed@[i] == e && e.cache_id@ == cache_id@
                && forall|j: int| 0 <= j < i ==> (#[trigger] listed@[j]).cache_id@ != cache_id@,
            r is Err ==> (forall|i: int| 0 <= i < listed@.len() ==> (#[trigger] listed@[i]).cache_id@ != cache_id@)
                && (r matches Err(PyanpmError::CacheEntryNotFound(x)) && x@ == cache_id@),
    {
        let mut i: usize = 0;
        let mut found = false;
        while i < listed.len()
            invariant_except_break
                i <= listed.len(),
                !found,
                forall|j: int| 0 <= j < i ==> (#[trigger] listed@[j]).cache_id@ != cache_id@,
            ensures
                i <= listed.len(),
                forall|j: int| 0 <= j < i ==> (#[trigger] listed@[j]).cache_id@ != cache_id@,
                found ==> i < listed.len() && listed@[i as int].cache_id@ == cache_id@,
                !found ==> i == listed.len(),
            decreases listed.len() - i,
        {
            if str_eq(listed[i].cache_id.as_str(), cache_id) {
                found = true;
                break;
            }
            i = i + 1;
        }
        if found {
            let ghost all = listed@;
            let mut v = listed;
            let e = v.remove(i);
            assert(all[i as int] == e);
            Ok(e)
        } else {
            Err(PyanpmError::CacheEntryNotFound(String::from_str(cache_id)))
        }
    }

    /// The identifiers of the entries no active lockfile references, in
    /// listing order: what pruning evicts.
    pub fn prune_unreferenced(&self, entries: &Vec<CacheEntry>) -> (r: Vec<String>)
        ensures
            views(r@) == unreferenced_ids(entries@),
    {
        let mut out: Vec<String> = Vec::new();
        let mut i: usize = 0;
        while i < entries.len()
            invariant
                i <= entries.len(),
                views(out@) == unreferenced_ids(entries@.subrange(0, i as int)),
            decreases entries.len() - i,
        {
            assert(entries@.subrange(0, i + 1).drop_last() =~= entries@.subrange(0, i as int));
            if !entries[i].referenced_by_active_lockfile {
                let id = entries[i].cache_id.clone();
                proof {
                    crate::order::lemma_views_push(out@, id);
                }
                out.push(id);
            }
            i = i + 1;
        }
        assert(entries@.subrange(0, entries.len() as int) =~= entries@);
        out
    }
}

/// Identifiers of unreferenced entries, in order.
pub open spec fn unreferenced_ids(entries: Seq<CacheEntry>) -> Seq<Seq<char>>
    decreases entries.len(),
{
    if entries.len() == 0 {
        Seq::empty()
    } else {
        unreferenced_ids(entries.drop_last()) + if entries.last().referenced_by_active_lockfile {
            Seq::empty()
        } else {
            seq![entries.last().cache_id@]
        }
    }
}

/// Pruning never removes an entry the active lockfile references: every
/// identifier it removes belongs to an unreferenced entry.
pub proof fn lemma_prune_spares_referenced(entries: Seq<CacheEntry>)
    ensures
        forall|k: int| 0 <= k < unreferenced_ids(entries).len() ==> exists|i: int| 0 <= i < entries.len()
            && !entries[i].referenced_by_active_lockfile && entries[i].cache_id@ == #[trigger] unreferenced_ids(entries)[k],
    decreases entries.len(),
{
    if entries.len() > 0 {
        lemma_prune_spares_referenced(entries.drop_last());
        let prev = unreferenced_ids(entries.drop_last());
        assert forall|k: int| 0 <= k < unreferenced_ids(entries).len() implies exists|i: int| 0 <= i < entries.len()
            && !entries[i].referenced_by_active_lockfile && entries[i].cache_id@ == #[trigger] unreferenced_ids(entries)[k] by {
            if k < prev.len() {
                assert(unreferenced_ids(entries)[k] == prev[k]);
                let i = choose|i: int| 0 <= i < entries.drop_last().len() && !entries.drop_last()[i].referenced_by_active_lockfile
                    && entries.drop_last()[i].cache_id@ == prev[k];
                assert(entries[i] == entries.drop_last()[i]);
            } else {
                assert(entries[entries.len() - 1] == entries.last());
            }
        }
    }
}

/// No two entries share an identifier (the cache names each entry's folder
/// by its identifier).
pub open spec fn distinct_ids(entries: Seq<CacheEntry>) -> bool {
    forall|i: int, j: int| 0 <= i < j < entries.len() ==> (#[trigger] entries[i]).cache_id@ != (#[trigger] entries[j]).cache_id@
}

/// Pruning leaves exactly the referenced entries: an entry's identifier is
/// among those pruning removes exactly when no active lockfile references
/// that entry.
pub proof fn lemma_prune_leaves_referenced(entries: Seq<CacheEntry>)
    requires
        distinct_ids(entries),
    ensures
        forall|i: int| 0 <= i < entries.len() ==> (unreferenced_ids(entries).contains((#[trigger] entries[i]).cache_id@)
            <==> !entries[i].referenced_by_active_lockfile),
    decreases entries.len(),
{
    if entries.len() > 0 {
        let init = entries.drop_last();
        let n = entries.len() - 1;
        let last = entries.last();
        assert(distinct_ids(init)) by {
            assert forall|i: int, j: int| 0 <= i < j < init.len() implies (#[trigger] init[i]).cache_id@ != (#[trigger] init[j]).cache_id@ by {
                assert(init[i] == entries[i] && init[j] == entries[j]);
            }
        }
        lemma_prune_leaves_referenced(init);
        lemma_prune_spares_referenced(init);
        let prev = unreferenced_ids(init);
        let tail: Seq<Seq<char>> = if last.referenced_by_active_lockfile { Seq::empty() } else { seq![last.cache_id@] };
        let u = unreferenced_ids(entries);
        assert(u == prev + tail);
        assert forall|i: int| 0 <= i < entries.len() implies (u.contains((#[trigger] entries[i]).cache_id@)
            <==> !entries[i].referenced_by_active_lockfile) by {
            let x = entries[i].cache_id@;
            if i < n {
                assert(entries[i] == init[i]);
                assert(entries[n] == last);
                if u.contains(x) {
                    let k = choose|k: int| 0 <= k < u.len() && u[k] == x;
                    if k < prev.len() {
                        assert(prev[k] == x);
                        assert(prev.contains(x));
                    } else {
                        assert(u[k] == tail[k - prev.len()]);
                        assert(x == last.cache_id@);
                        assert(false);
                    }
                }
                if prev.contains(x) {
                    let k = choose|k: int| 0 <= k < prev.len() && prev[k] == x;
                    assert(u[k] == prev[k]);
                }
            } else {
                assert(entries[i] == last);
                if prev.contains(x) {
                    let k = choose|k: int| 0 <= k < prev.len() && prev[k] == x;
                    let j = choose|j: int| 0 <= j < init.len() && !init[j].referenced_by_active_lockfile && init[j].cache_id@ == #[trigger] prev[k];
                    assert(entries[j] == init[j]);
                    assert(false);
                }
                if u.contains(x) {
                    let k = choose|k: int| 0 <= k < u.len() && u[k] == x;
                    if k < prev.len() {
                        assert(prev[k] == x);
                        assert(prev.contains(x));
                    }
                    assert(!last.referenced_by_active_lockfile);
                }
                if !last.referenced_by_active_lockfile {
                    assert(u[prev.len() as int] == x);
                }
            }
        }
    }
}

/// The sum of the entries' sizes.
pub open spec fn size_sum(entries: Seq<CacheEntry>) -> int
    decreases entries.len(),
{
    if entries.len() == 0 {
        0
    } else {
        size_sum(entries.drop_last()) + entries.last().size_bytes
    }
}

/// The total size of the listed entries, when it fits in 64 bits.
pub fn total_size_bytes(entries: &Vec<CacheEntry>) -> (r: Option<u64>)
    ensures
        r matches Some(t) ==> t == size_sum(entries@),
        r is None ==> size_sum(entries@) > u64::MAX,
{
    let mut total: u64 = 0;
    let mut i: usize = 0;
    while i < entries.len()
        invariant
            i <= entries.len(),
            total == size_sum(entries@.subrange(0, i as int)),
        decreases entries.len() - i,
    {
        assert(entries@.subrange(0, i + 1).drop_last() =~= entries@.subrange(0, i as int));
        let add = entries[i].size_bytes;
        if total > u64::MAX - add {
            proof {
                lemma_size_sum_monotone(entries@, i as int + 1);
            }
            return None;
        }
        total = total + add;
        i = i + 1;
    }
    assert(entries@.subrange(0, entries.len() as int) =~= entries@);
    Some(total)
}

proof fn lemma_size_sum_monotone(entries: Seq<CacheEntry>, k: int)
    requires
        0 <= k <= entries.len(),
    ensures
        size_sum(entries.subrange(0, k)) <= size_sum(entries),
    decreases entries.len() - k,
{
    if k < entries.len() {
        lemma_size_sum_monotone(entries, k + 1);
        assert(entries.subrange(0, k + 1).drop_last() =~= entries.subrange(0, k));
    } else {
        assert(entries.subrange(0, k) =~= entries);
    }
}

/// The name of the metadata file of a cache entry.
pub const ENTRY_METADATA_FILE_NAME: &'static str = "entry.json";

/// The artifact of a cache directory without metadata: of the names found in
/// it, the least one other than `entry.json`, joined to the directory.
pub fn first_non_metadata_entry(artifact_root: &str, names: &Vec<String>) -> (r: Result<String, PyanpmError>)
    ensures
        (forall|j: int| 0 <= j < names@.len() ==> (#[trigger] names@[j])@ == ENTRY_METADATA_FILE_NAME@) <==> r is Err,
        r matches Err(e) ==> (e matches PyanpmError::CacheEntryNotFound(x) && x@ == artifact_root@),
        r matches Ok(p) ==> exists|i: int| {
            &&& 0 <= i < names@.len()
            &&& names@[i]@ != ENTRY_METADATA_FILE_NAME@
            &&& p@ == join_spec(artifact_root@, names@[i]@)
            &&& forall|j: int| 0 <= j < names@.len() && (#[trigger] names@[j])@ != ENTRY_METADATA_FILE_NAME@ ==> !seq_lt(names@[j]@, names@[i]@)
        },
{
    let mut best: Option<usize> = None;
    let mut k: usize = 0;
    while k < names.len()
        invariant
            k <= names@.len(),
            best is None ==> forall|j: int| 0 <= j < k ==> (#[trigger] names@[j])@ == ENTRY_METADATA_FILE_NAME@,
            best matches Some(b) ==> {
                &&& b < k
                &&& names@[b as int]@ != ENTRY_METADATA_FILE_NAME@
                &&& forall|j: int| 0 <= j < k && (#[trigger] names@[j])@ != ENTRY_METADATA_FILE_NAME@ ==> !seq_lt(names@[j]@, names@[b as int]@)
            },
        decreases names.len() - k,
    {
        if !str_eq(names[k].as_str(), ENTRY_METADATA_FILE_NAME) {
            match best {
                None => {
                    proof {
                        lemma_seq_lt_irreflexive(names@[k as int]@);
                    }
                    best = Some(k);
                },
                Some(b) => {
                    if str_lt(names[k].as_str(), names[b].as_str()) {
                        proof {
                            assert forall|j: int| 0 <= j <= k && (#[trigger] names@[j])@ != ENTRY_METADATA_FILE_NAME@ implies !seq_lt(names@[j]@, names@[k as int]@) by {
                                if j == k {
                                    lemma_seq_lt_irreflexive(names@[k as int]@);
                                } else if seq_lt(names@[j]@, names@[k as int]@) {
                                    lemma_seq_lt_transitive(names@[j]@, names@[k as int]@, names@[b as int]@);
                                }
                            }
                        }
                        best = Some(k);
                    } else {
                        proof {
                            lemma_seq_lt_total(names@[k as int]@, names@[b as int]@);
                        }
                    }
                },
            }
        }
        k = k + 1;
    }
    match best {
        Some(b) => Ok(join_path(artifact_root, names[b].as_str())),
        None => Err(PyanpmError::CacheEntryNotFound(String::from_str(artifact_root))),
    }
}

} // verus!
