//! The manifest, the lockfile, plugin package metadata and git source options.
use vstd::prelude::*;
use crate::order::{lemma_views_push, seq_lt, str_lt, lemma_seq_lt_irreflexive, lemma_seq_lt_total, lemma_seq_lt_transitive, stable_order, is_stable_order, views};
use crate::paths::{join_path, join_spec};
use crate::plugin::{ArtifactKind, PluginSourceKind};
use crate::text::{
    clone_opt, opt_view, trim, trim_spec, is_blank, is_trimmed, replace_char,
    replace_char_spec, str_eq, lemma_trim_is_trimmed, lemma_trim_of_trimmed, lemma_replace_idempotent,
    lemma_replace_keeps_trimmed,
};

verus! {

pub const MANIFEST_FILE_NAME: &'static str = "pyanpm.toml";
pub const LOCKFILE_FILE_NAME: &'static str = "pyanpm.lock";
pub const PACKAGE_METADATA_FILE_NAME: &'static str = "pyanpm.plugin.toml";
pub const GLOBAL_STATE_DIR_NAME: &'static str = "state";

/// Which kind of git reference a source pins.
#[derive(Debug, Clone, Copy, PartialEq, Eq, Structural)]
pub enum GitRefKind {
    Branch,
    Tag,
    Commit,
}

pub open spec fn git_ref_kind_name(k: GitRefKind) -> Seq<char> {
    match k {
        GitRefKind::Branch => "branch"@,
        GitRefKind::Tag => "tag"@,
        GitRefKind::Commit => "commit"@,
    }
}

impl GitRefKind {
    /// Lower-case name of the kind.
    pub fn name(&self) -> (r: String)
        ensures
            r@ == git_ref_kind_name(*self),
    {
        match self {
            GitRefKind::Branch => String::from_str("branch"),
            GitRefKind::Tag => String::from_str("tag"),
            GitRefKind::Commit => String::from_str("commit"),
        }
    }
}

/// Optional git reference and subdirectory given for a `git:` source.
#[derive(Debug)]
pub struct GitSourceOptions {
    pub git_ref_kind: Option<GitRefKind>,
    pub git_ref: Option<String>,
    pub git_subdir: Option<String>,
}

/// No reference kind, and reference and subdirectory absent or blank.
pub open spec fn options_empty(
    kind: Option<GitRefKind>,
    git_ref: Option<Seq<char>>,
    subdir: Option<Seq<char>>,
) -> bool {
    &&& kind is None
    &&& (git_ref matches Some(r) ==> is_blank(r))
    &&& (subdir matches Some(s) ==> is_blank(s))
}

/// A reference trimmed, and dropped when blank.
pub open spec fn normalize_ref_spec(o: Option<Seq<char>>) -> Option<Seq<char>> {
    match o {
        Some(s) => if trim_spec(s).len() == 0 {
            None
        } else {
            Some(trim_spec(s))
        },
        None => None,
    }
}

/// A subdirectory trimmed, with `\` turned into `/`, and dropped when blank.
pub open spec fn normalize_subdir_spec(o: Option<Seq<char>>) -> Option<Seq<char>> {
    match o {
        Some(s) => if trim_spec(s).len() == 0 {
            None
        } else {
            Some(replace_char_spec(trim_spec(s), '\\', '/'))
        },
        None => None,
    }
}

impl GitSourceOptions {
    pub open spec fn empty_spec(&self) -> bool {
        options_empty(self.git_ref_kind, opt_view(self.git_ref), opt_view(self.git_subdir))
    }

    /// The options with nothing set.
    pub fn none() -> (r: Self)
        ensures
            r.git_ref_kind is None,
            r.git_ref is None,
            r.git_subdir is None,
    {
        GitSourceOptions { git_ref_kind: None, git_ref: None, git_subdir: None }
    }

    /// A copy of the options.
    pub fn duplicate(&self) -> (r: Self)
        ensures
            r == *self,
    {
        GitSourceOptions {
            git_ref_kind: self.git_ref_kind,
            git_ref: clone_opt(&self.git_ref),
            git_subdir: clone_opt(&self.git_subdir),
        }
    }

    /// Whether no git option is given (blank values count as absent).
    pub fn is_empty(&self) -> (r: bool)
        ensures
            r == self.empty_spec(),
    {
        let ref_blank = match &self.git_ref {
            Some(r) => trim(r.as_str()).unicode_len() == 0,
            None => true,
        };
        let subdir_blank = match &self.git_subdir {
            Some(s) => trim(s.as_str()).unicode_len() == 0,
            None => true,
        };
        self.git_ref_kind.is_none() && ref_blank && subdir_blank
    }

    /// The options with the reference and subdirectory trimmed, `\` in the
    /// subdirectory turned into `/`, and blank values dropped.
    pub fn normalized(&self) -> (r: Self)
        ensures
            r.git_ref_kind == self.git_ref_kind,
            opt_view(r.git_ref) == normalize_ref_spec(opt_view(self.git_ref)),
            opt_view(r.git_subdir) == normalize_subdir_spec(opt_view(self.git_subdir)),
    {
        let git_ref = match &self.git_ref {
            Some(v) => {
                let t = trim(v.as_str());
                if t.unicode_len() == 0 {
                    None
                } else {
                    Some(String::from_str(t))
                }
            },
            None => None,
        };
        let git_subdir = match &self.git_subdir {
            Some(v) => {
                let t = trim(v.as_str());
                if t.unicode_len() == 0 {
                    None
                } else {
                    let replaced = replace_char(t, '\\', '/');
                    Some(replaced)
                }
            },
            None => None,
        };
        GitSourceOptions { git_ref_kind: self.git_ref_kind, git_ref, git_subdir }
    }
}

/// Normalizing git options twice is the same as normalizing them once, and
/// normalizing never changes whether they are empty.
pub proof fn lemma_normalize_options(
    kind: Option<GitRefKind>,
    git_ref: Option<Seq<char>>,
    subdir: Option<Seq<char>>,
)
    ensures
        normalize_ref_spec(normalize_ref_spec(git_ref)) == normalize_ref_spec(git_ref),
        normalize_subdir_spec(normalize_subdir_spec(subdir)) == normalize_subdir_spec(subdir),
        options_empty(kind, normalize_ref_spec(git_ref), normalize_subdir_spec(subdir))
            == options_empty(kind, git_ref, subdir),
        normalize_ref_spec(git_ref) matches Some(r) ==> is_trimmed(r) && r.len() > 0,
        normalize_subdir_spec(subdir) matches Some(s) ==> !s.contains('\\') && s.len() > 0,
{
    if let Some(r) = git_ref {
        lemma_trim_is_trimmed(r);
    }
    if let Some(s) = subdir {
        lemma_trim_is_trimmed(s);
        let t = trim_spec(s);
        if t.len() > 0 {
            let u = replace_char_spec(t, '\\', '/');
            lemma_replace_keeps_trimmed(t, '\\', '/');
            lemma_trim_of_trimmed(u);
            lemma_replace_idempotent(t, '\\', '/');
            assert(replace_char_spec(u, '\\', '/') =~= u);
            assert(!u.contains('\\')) by {
                if u.contains('\\') {
                    let i = choose|i: int| 0 <= i < u.len() && u[i] == '\\';
                }
            }
        }
    }
}

/// How one manifest entry names its source.
#[derive(Debug)]
pub struct ManifestPluginSpec {
    pub source: PluginSourceKind,
    pub path: Option<String>,
    pub url: Option<String>,
    pub version: Option<String>,
    pub git_ref_kind: Option<GitRefKind>,
    pub git_ref: Option<String>,
    pub subdir: Option<String>,
}

impl ManifestPluginSpec {
    /// A copy of the entry.
    pub fn duplicate(&self) -> (r: Self)
        ensures
            r == *self,
    {
        ManifestPluginSpec {
            source: self.source,
            path: clone_opt(&self.path),
            url: clone_opt(&self.url),
            version: clone_opt(&self.version),
            git_ref_kind: self.git_ref_kind,
            git_ref: clone_opt(&self.git_ref),
            subdir: clone_opt(&self.subdir),
        }
    }
}

/// Entries whose names strictly increase.
pub open spec fn keys_sorted(s: Seq<(Seq<char>, ManifestPluginSpec)>) -> bool {
    forall|i: int, j: int| 0 <= i < j < s.len() ==> seq_lt(s[i].0, s[j].0)
}

/// The entry for `name`, if there is one (the last one, were there several).
pub open spec fn lookup(s: Seq<(Seq<char>, ManifestPluginSpec)>, name: Seq<char>) -> Option<ManifestPluginSpec>
    decreases s.len(),
{
    if s.len() == 0 {
        None
    } else if s.last().0 == name {
        Some(s.last().1)
    } else {
        lookup(s.drop_last(), name)
    }
}

/// The names of the entries.
pub open spec fn key_seq(s: Seq<(Seq<char>, ManifestPluginSpec)>) -> Seq<Seq<char>> {
    s.map_values(|e: (Seq<char>, ManifestPluginSpec)| e.0)
}

/// `lookup` finds an entry exactly when some entry has the name.
pub proof fn lemma_lookup_some(s: Seq<(Seq<char>, ManifestPluginSpec)>, name: Seq<char>)
    ensures
        lookup(s, name) is Some <==> exists|i: int| 0 <= i < s.len() && s[i].0 == name,
    decreases s.len(),
{
    if s.len() > 0 {
        lemma_lookup_some(s.drop_last(), name);
        if exists|i: int| 0 <= i < s.len() && s[i].0 == name {
            let i = choose|i: int| 0 <= i < s.len() && s[i].0 == name;
            if i < s.len() - 1 {
                assert(s.drop_last()[i].0 == name);
            }
        }
        if exists|i: int| 0 <= i < s.drop_last().len() && s.drop_last()[i].0 == name {
            let i = choose|i: int| 0 <= i < s.drop_last().len() && s.drop_last()[i].0 == name;
            assert(s[i].0 == name);
        }
    }
}

pub proof fn lemma_lookup_at(s: Seq<(Seq<char>, ManifestPluginSpec)>, i: int)
    requires
        keys_sorted(s),
        0 <= i < s.len(),
    ensures
        lookup(s, s[i].0) == Some(s[i].1),
    decreases s.len(),
{
    if i < s.len() - 1 {
        lemma_seq_lt_irreflexive(s[i].0);
        assert(seq_lt(s[i].0, s.last().0));
        assert(keys_sorted(s.drop_last()));
        lemma_lookup_at(s.drop_last(), i);
    }
}

/// The global manifest: the managed plugins by name.  Names are unique and
/// kept in increasing order.
#[derive(Debug)]
pub struct Manifest {
    plugins: Vec<(String, ManifestPluginSpec)>,
}

impl View for Manifest {
    type V = Seq<(Seq<char>, ManifestPluginSpec)>;

    closed spec fn view(&self) -> Seq<(Seq<char>, ManifestPluginSpec)> {
        self.plugins@.map_values(|e: (String, ManifestPluginSpec)| (e.0@, e.1))
    }
}

impl Manifest {
    #[verifier::type_invariant]
    closed spec fn sorted(&self) -> bool {
        keys_sorted(self@)
    }

    /// The manifest with no plugins.
    pub fn new() -> (r: Self)
        ensures
            r@.len() == 0,
    {
        let m = Manifest { plugins: Vec::new() };
        assert(m@ =~= Seq::<(Seq<char>, ManifestPluginSpec)>::empty());
        m
    }

    /// Number of plugins.
    pub fn len(&self) -> (r: usize)
        ensures
            r == self@.len(),
            keys_sorted(self@),
    {
        proof {
            use_type_invariant(self);
        }
        self.plugins.len()
    }

    /// The plugin at position `i` in name order.
    pub fn entry(&self, i: usize) -> (r: (&String, &ManifestPluginSpec))
        requires
            i < self@.len(),
        ensures
            r.0@ == self@[i as int].0,
            *r.1 == self@[i as int].1,
            keys_sorted(self@),
    {
        proof {
            use_type_invariant(self);
        }
        let e = &self.plugins[i];
        (&e.0, &e.1)
    }

    /// The position at which `name` is or would be.
    fn position(&self, name: &str) -> (r: usize)
        ensures
            r <= self@.len(),
            forall|j: int| 0 <= j < r ==> seq_lt(#[trigger] self@[j].0, name@),
            forall|j: int| r <= j < self@.len() ==> !seq_lt(#[trigger] self@[j].0, name@),
            keys_sorted(self@),
    {
        proof {
            use_type_invariant(self);
        }
        let n = self.plugins.len();
        let mut i: usize = 0;
        while i < n && str_lt(self.plugins[i].0.as_str(), name)
            invariant
                n == self@.len(),
                n == self.plugins@.len(),
                i <= n,
                keys_sorted(self@),
                forall|j: int| 0 <= j < self@.len() ==> #[trigger] self@[j].0 == self.plugins@[j].0@,
                forall|j: int| 0 <= j < i ==> seq_lt(#[trigger] self@[j].0, name@),
            decreases n - i,
        {
            i = i + 1;
        }
        proof {
            assert forall|j: int| i <= j < self@.len() implies !seq_lt(#[trigger] self@[j].0, name@) by {
                assert(i < n);
                assert(self@[i as int].0 == self.plugins@[i as int].0@);
                assert(!seq_lt(self@[i as int].0, name@));
                if j > i {
                    assert(seq_lt(self@[i as int].0, self@[j].0));
                    if seq_lt(self@[j].0, name@) {
                        lemma_seq_lt_transitive(self@[i as int].0, self@[j].0, name@);
                    }
                }
            }
        }
        i
    }

    /// Where `name` is, if it is there.
    fn find(&self, name: &str) -> (r: Option<usize>)
        ensures
            r matches Some(i) ==> i < self@.len() && self@[i as int].0 == name@,
            r is None ==> lookup(self@, name@) is None,
            keys_sorted(self@),
    {
        let pos = self.position(name);
        if pos < self.plugins.len() && str_eq(self.plugins[pos].0.as_str(), name) {
            assert(self@[pos as int].0 == self.plugins@[pos as int].0@);
            Some(pos)
        } else {
            proof {
                lemma_lookup_some(self@, name@);
                if exists|j: int| 0 <= j < self@.len() && self@[j].0 == name@ {
                    let j = choose|j: int| 0 <= j < self@.len() && self@[j].0 == name@;
                    lemma_seq_lt_irreflexive(name@);
                    if j > pos {
                        assert(!seq_lt(self@[pos as int].0, name@));
                        assert(seq_lt(self@[pos as int].0, self@[j].0));
                        lemma_seq_lt_total(self@[pos as int].0, name@);
                        assert(self@[pos as int].0 == self.plugins@[pos as int].0@);
                    }
                }
            }
            None
        }
    }

    /// Whether a plugin is named `name`.
    pub fn contains_key(&self, name: &str) -> (r: bool)
        ensures
            r == (lookup(self@, name@) is Some),
            keys_sorted(self@),
    {
        match self.find(name) {
            Some(i) => {
                proof {
                    lemma_lookup_at(self@, i as int);
                }
                true
            },
            None => false,
        }
    }

    /// The entry of the plugin named `name`.
    pub fn get(&self, name: &str) -> (r: Option<&ManifestPluginSpec>)
        ensures
            r matches Some(s) ==> lookup(self@, name@) == Some(*s),
            r is None ==> lookup(self@, name@) is None,
            keys_sorted(self@),
    {
        match self.find(name) {
            Some(i) => {
                proof {
                    lemma_lookup_at(self@, i as int);
                }
                Some(&self.plugins[i].1)
            },
            None => None,
        }
    }

    /// Sets the entry of `name`, replacing any entry of that name.
    pub fn insert(&mut self, name: String, spec: ManifestPluginSpec)
        ensures
            keys_sorted(final(self)@),
            lookup(final(self)@, name@) == Some(spec),
            forall|n: Seq<char>| n != name@ ==> lookup(final(self)@, n) == lookup(old(self)@, n),
            lookup(old(self)@, name@) is Some ==> final(self)@.len() == old(self)@.len(),
            lookup(old(self)@, name@) is None ==> final(self)@.len() == old(self)@.len() + 1,
    {
        proof {
            use_type_invariant(&*self);
        }
        let pos = self.position(name.as_str());
        let ghost old_view = self@;
        let ghost nm = name@;
        let ghost sp = spec;
        if pos < self.plugins.len() && str_eq(self.plugins[pos].0.as_str(), name.as_str()) {
            assert(self@[pos as int].0 == self.plugins@[pos as int].0@);
            let mut plugins = Vec::new();
            std::mem::swap(&mut plugins, &mut self.plugins);
            plugins.set(pos, (name, spec));
            let ghost new_view = plugins@.map_values(|e: (String, ManifestPluginSpec)| (e.0@, e.1));
            assert(new_view =~= old_view.update(pos as int, (nm, sp)));
            proof {
                assert forall|i: int, j: int| 0 <= i < j < new_view.len() implies seq_lt(
                    new_view[i].0,
                    new_view[j].0,
                ) by {
                    assert(seq_lt(old_view[i].0, old_view[j].0));
                }
                assert(keys_sorted(new_view));
            }
            self.plugins = plugins;
            proof {
                assert(self@ == new_view);
                lemma_lookup_at(self@, pos as int);
                assert forall|n: Seq<char>| n != nm implies lookup(self@, n) == lookup(old_view, n) by {
                    lemma_lookup_some(old_view, n);
                    lemma_lookup_some(self@, n);
                    if exists|i: int| 0 <= i < old_view.len() && old_view[i].0 == n {
                        let i = choose|i: int| 0 <= i < old_view.len() && old_view[i].0 == n;
                        lemma_lookup_at(old_view, i);
                        lemma_lookup_at(self@, i);
                    } else {
                        assert(!exists|i: int| 0 <= i < self@.len() && self@[i].0 == n);
                    }
                }
                lemma_lookup_at(old_view, pos as int);
            }
        } else {
            proof {
                lemma_lookup_some(old_view, nm);
                if lookup(old_view, nm) is Some {
                    let j = choose|j: int| 0 <= j < old_view.len() && old_view[j].0 == nm;
                    lemma_seq_lt_irreflexive(nm);
                    if j > pos {
                        assert(!seq_lt(old_view[pos as int].0, nm));
                        assert(seq_lt(old_view[pos as int].0, old_view[j].0));
                        lemma_seq_lt_total(old_view[pos as int].0, nm);
                        assert(old_view[pos as int].0 == self.plugins@[pos as int].0@);
                    }
                }
            }
            let mut plugins = Vec::new();
            std::mem::swap(&mut plugins, &mut self.plugins);
            plugins.insert(pos, (name, spec));
            let ghost new_view = plugins@.map_values(|e: (String, ManifestPluginSpec)| (e.0@, e.1));
            assert(new_view =~= old_view.insert(pos as int, (nm, sp)));
            proof {
                assert forall|i: int, j: int| 0 <= i < j < new_view.len() implies seq_lt(
                    new_view[i].0,
                    new_view[j].0,
                ) by {
                    if j < pos {
                        assert(seq_lt(old_view[i].0, old_view[j].0));
                    } else if j == pos {
                        assert(seq_lt(old_view[i].0, nm));
                    } else if i == pos {
                        assert(!seq_lt(old_view[j - 1].0, nm));
                        lemma_seq_lt_total(old_view[j - 1].0, nm);
                        if old_view[j - 1].0 == nm {
                            assert(lookup(old_view, nm) is Some);
                        }
                    } else if i < pos {
                        assert(seq_lt(old_view[i].0, nm));
                        assert(!seq_lt(old_view[j - 1].0, nm));
                        lemma_seq_lt_total(old_view[j - 1].0, nm);
                        if old_view[j - 1].0 != nm {
                            lemma_seq_lt_transitive(old_view[i].0, nm, old_view[j - 1].0);
                        } else {
                            assert(lookup(old_view, nm) is Some);
                        }
                    } else {
                        assert(seq_lt(old_view[i - 1].0, old_view[j - 1].0));
                    }
                }
            }
            self.plugins = plugins;
            proof {
                assert(self@ == new_view);
                lemma_lookup_at(self@, pos as int);
                assert forall|n: Seq<char>| n != nm implies lookup(self@, n) == lookup(old_view, n) by {
                    lemma_lookup_some(old_view, n);
                    lemma_lookup_some(self@, n);
                    if exists|i: int| 0 <= i < old_view.len() && old_view[i].0 == n {
                        let i = choose|i: int| 0 <= i < old_view.len() && old_view[i].0 == n;
                        lemma_lookup_at(old_view, i);
                        if i < pos {
                            lemma_lookup_at(self@, i);
                        } else {
                            assert(self@[i + 1] == old_view[i]);
                            lemma_lookup_at(self@, i + 1);
                        }
                    } else {
                        if exists|i: int| 0 <= i < self@.len() && self@[i].0 == n {
                            let i = choose|i: int| 0 <= i < self@.len() && self@[i].0 == n;
                            if i < pos {
                                assert(old_view[i].0 == n);
                            } else if i > pos {
                                assert(old_view[i - 1].0 == n);
                            }
                        }
                    }
                }
            }
        }
    }

    /// Drops the entry of `name`, if any.
    pub fn remove(&mut self, name: &str)
        ensures
            keys_sorted(final(self)@),
            lookup(final(self)@, name@) is None,
            forall|n: Seq<char>| n != name@ ==> lookup(final(self)@, n) == lookup(old(self)@, n),
            lookup(old(self)@, name@) is Some ==> final(self)@.len() + 1 == old(self)@.len(),
            lookup(old(self)@, name@) is None ==> final(self)@ == old(self)@,
    {
        proof {
            use_type_invariant(&*self);
        }
        let ghost old_view = self@;
        match self.find(name) {
            None => {},
            Some(pos) => {
                let mut plugins = Vec::new();
                std::mem::swap(&mut plugins, &mut self.plugins);
                let _removed = plugins.remove(pos);
                let ghost new_view = plugins@.map_values(|e: (String, ManifestPluginSpec)| (e.0@, e.1));
                assert(new_view =~= old_view.remove(pos as int));
                proof {
                    assert forall|i: int, j: int| 0 <= i < j < new_view.len() implies seq_lt(
                        new_view[i].0,
                        new_view[j].0,
                    ) by {
                        if j < pos {
                            assert(seq_lt(old_view[i].0, old_view[j].0));
                        } else if i < pos {
                            assert(seq_lt(old_view[i].0, old_view[j + 1].0));
                        } else {
                            assert(seq_lt(old_view[i + 1].0, old_view[j + 1].0));
                        }
                    }
                }
                self.plugins = plugins;
                proof {
                    assert(self@ == new_view);
                    lemma_lookup_at(old_view, pos as int);
                    lemma_seq_lt_irreflexive(name@);
                    lemma_lookup_some(self@, name@);
                    if exists|i: int| 0 <= i < self@.len() && self@[i].0 == name@ {
                        let i = choose|i: int| 0 <= i < self@.len() && self@[i].0 == name@;
                        if i < pos {
                            assert(seq_lt(old_view[i].0, old_view[pos as int].0));
                        } else {
                            assert(seq_lt(old_view[pos as int].0, old_view[i + 1].0));
                        }
                    }
                    assert forall|n: Seq<char>| n != name@ implies lookup(self@, n) == lookup(old_view, n) by {
                    lemma_lookup_some(old_view, n);
                    lemma_lookup_some(self@, n);
                        if exists|i: int| 0 <= i < old_view.len() && old_view[i].0 == n {
                            let i = choose|i: int| 0 <= i < old_view.len() && old_view[i].0 == n;
                            lemma_lookup_at(old_view, i);
                            if i < pos {
                                lemma_lookup_at(self@, i);
                            } else {
                                assert(i != pos);
                                assert(self@[i - 1] == old_view[i]);
                                lemma_lookup_at(self@, i - 1);
                            }
                        } else {
                            if exists|i: int| 0 <= i < self@.len() && self@[i].0 == n {
                                let i = choose|i: int| 0 <= i < self@.len() && self@[i].0 == n;
                                if i < pos {
                                    assert(old_view[i].0 == n);
                                } else {
                                    assert(old_view[i + 1].0 == n);
                                }
                            }
                        }
                    }
                }
            },
        }
    }

    /// The plugin names in increasing order.
    pub fn names(&self) -> (r: Vec<String>)
        ensures
            views(r@) == key_seq(self@),
            keys_sorted(self@),
    {
        proof {
            use_type_invariant(self);
        }
        let n = self.plugins.len();
        let mut out: Vec<String> = Vec::new();
        let mut i: usize = 0;
        while i < n
            invariant
                n == self.plugins@.len(),
                i <= n,
                views(out@) == key_seq(self@).subrange(0, i as int),
            decreases n - i,
        {
            let nm = self.plugins[i].0.clone();
            assert(nm@ == self@[i as int].0);
            proof {
                lemma_views_push(out@, nm);
                assert(key_seq(self@).subrange(0, i + 1) =~= key_seq(self@).subrange(0, i as int).push(self@[i as int].0));
            }
            out.push(nm);
            i = i + 1;
        }
        assert(key_seq(self@).subrange(0, n as int) =~= key_seq(self@));
        out
    }

    /// Path of the manifest file in `project_dir`.
    pub fn path_in(project_dir: &str) -> (r: String)
        ensures
            r@ == join_spec(project_dir@, MANIFEST_FILE_NAME@),
    {
        join_path(project_dir, MANIFEST_FILE_NAME)
    }
}

impl Default for Manifest {
    fn default() -> (r: Self)
        ensures
            r@.len() == 0,
    {
        Manifest::new()
    }
}

/// One installed plugin as the lockfile records it.  Times are Unix
/// milliseconds.
#[derive(Debug)]
pub struct LockedPlugin {
    pub name: String,
    pub requested_version: Option<String>,
    pub resolved_version: Option<String>,
    pub source: PluginSourceKind,
    pub source_path: String,
    pub source_url: Option<String>,
    pub source_subdir: Option<String>,
    pub git_ref_kind: Option<GitRefKind>,
    pub git_requested_ref: Option<String>,
    pub git_resolved_commit: Option<String>,
    pub checksum: String,
    pub artifact_kind: ArtifactKind,
    pub target_path: String,
    pub installed_at: i64,
}

impl LockedPlugin {
    /// A copy of the record.
    pub fn duplicate(&self) -> (r: Self)
        ensures
            r == *self,
    {
        LockedPlugin {
            name: self.name.clone(),
            requested_version: clone_opt(&self.requested_version),
            resolved_version: clone_opt(&self.resolved_version),
            source: self.source,
            source_path: self.source_path.clone(),
            source_url: clone_opt(&self.source_url),
            source_subdir: clone_opt(&self.source_subdir),
            git_ref_kind: self.git_ref_kind,
            git_requested_ref: clone_opt(&self.git_requested_ref),
            git_resolved_commit: clone_opt(&self.git_resolved_commit),
            checksum: self.checksum.clone(),
            artifact_kind: self.artifact_kind,
            target_path: self.target_path.clone(),
            installed_at: self.installed_at,
        }
    }
}

/// The version written by default into a lockfile that names none.
pub fn default_lock_version() -> (r: u32)
    ensures
        r == 1,
{
    1
}

/// What was installed, as last written.  Times are Unix milliseconds.
#[derive(Debug)]
pub struct Lockfile {
    pub version: u32,
    pub generated_at: Option<i64>,
    pub plugins: Vec<LockedPlugin>,
}

/// The names of locked plugins.
pub open spec fn locked_names(s: Seq<LockedPlugin>) -> Seq<Seq<char>> {
    s.map_values(|p: LockedPlugin| p.name@)
}

/// `new` is `old` sorted by name, plugins of one name kept in their order.
pub open spec fn is_stable_sort_by_name(old: Seq<LockedPlugin>, new: Seq<LockedPlugin>) -> bool {
    exists|p: Seq<usize>|
        is_stable_order(locked_names(old), p) && new.len() == p.len() && forall|i: int|
            0 <= i < p.len() ==> #[trigger] new[i] == old[p[i] as int]
}

impl Default for Lockfile {
    fn default() -> (r: Self)
        ensures
            r.version == 0,
            r.generated_at is None,
            r.plugins@.len() == 0,
    {
        Lockfile { version: 0, generated_at: None, plugins: Vec::new() }
    }
}

impl Lockfile {
    /// Path of the lockfile in `project_dir`.
    pub fn path_in(project_dir: &str) -> (r: String)
        ensures
            r@ == join_spec(project_dir@, LOCKFILE_FILE_NAME@),
    {
        join_path(project_dir, LOCKFILE_FILE_NAME)
    }

    /// Orders the plugins by name (stably) and stamps the generation time,
    /// as done before every write.
    pub fn prepare_save(&mut self, now: i64)
        ensures
            is_stable_sort_by_name(old(self).plugins@, final(self).plugins@),
            final(self).generated_at == Some(now),
            final(self).version == old(self).version,
    {
        let n = self.plugins.len();
        let mut names: Vec<String> = Vec::new();
        let mut i: usize = 0;
        while i < n
            invariant
                n == self.plugins.len(),
                i <= n,
                views(names@) == locked_names(self.plugins@).subrange(0, i as int),
            decreases n - i,
        {
            let nm = self.plugins[i].name.clone();
            assert(nm@ == locked_names(self.plugins@)[i as int]);
            proof {
                lemma_views_push(names@, nm);
                assert(locked_names(self.plugins@).subrange(0, i + 1) =~= locked_names(self.plugins@).subrange(0, i as int).push(self.plugins@[i as int].name@));
            }
            names.push(nm);
            i = i + 1;
        }
        assert(locked_names(self.plugins@).subrange(0, n as int) =~= locked_names(self.plugins@));
        let order = stable_order(&names);
        let mut sorted: Vec<LockedPlugin> = Vec::new();
        let mut k: usize = 0;
        while k < n
            invariant
                n == self.plugins.len(),
                order@.len() == n,
                is_stable_order(locked_names(self.plugins@), order@),
                k <= n,
                sorted@.len() == k,
                forall|i: int| 0 <= i < k ==> #[trigger] sorted@[i] == self.plugins@[order@[i] as int],
            decreases n - k,
        {
            let idx = order[k];
            assert((order@[k as int] as int) < n);
            sorted.push(self.plugins[idx].duplicate());
            k = k + 1;
        }
        let ghost old_plugins = self.plugins@;
        self.plugins = sorted;
        self.generated_at = Some(now);
        assert(is_stable_sort_by_name(old_plugins, self.plugins@));
    }
}

/// The `pyanpm.plugin.toml` of a plugin package.
#[derive(Debug)]
pub struct PackageMetadata {
    pub name: String,
    pub version: Option<String>,
    pub display_name: Option<String>,
    pub entry: String,
}

} // verus!
