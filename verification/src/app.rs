//! The application state: the one value the event loop owns and the
//! reducer alone mutates, together with the version cache kept inside it.

use vstd::prelude::*;

use crate::dependency::{DocumentError, JavaDependency, MavenFile};
use crate::events::EffectFailure;
use crate::list::List;
use crate::maven_registry::{GetVersionsResponseDoc, SearchResponseDoc};
use crate::views::{ViewId, Views};
use crate::xml::spec_find_child;

verus! {

/// How raw key input is read: ordinary commands, or text entry into the
/// search phrase.
#[derive(Clone, Copy, Debug, PartialEq, Eq, Structural)]
pub enum InteractionMode {
    Normal,
    Input,
}

/// The dependency list of the document, with its selection cursor.
pub type DependencyList = List<JavaDependency>;

/// The latest search results, with their selection cursor.
pub type FoundDependencyList = List<SearchResponseDoc>;

/// One cached version listing, keyed by the package's coordinates.
#[derive(Debug)]
pub struct VersionCacheEntry {
    pub group_id: String,
    pub artifact_id: String,
    pub versions: Vec<GetVersionsResponseDoc>,
}

/// The version listings fetched so far, at most one entry per key.
#[derive(Debug)]
pub struct VersionCache {
    pub entries: Vec<VersionCacheEntry>,
}

/// Whether an entry carries exactly this key.
pub open spec fn spec_key_matches(e: VersionCacheEntry, g: Seq<char>, a: Seq<char>) -> bool {
    e.group_id@ == g && e.artifact_id@ == a
}

/// Index of the first entry with this key.
pub open spec fn spec_find_entry(
    entries: Seq<VersionCacheEntry>,
    g: Seq<char>,
    a: Seq<char>,
) -> Option<int>
    decreases entries.len(),
{
    if entries.len() == 0 {
        None
    } else if spec_key_matches(entries[0], g, a) {
        Some(0int)
    } else {
        match spec_find_entry(entries.drop_first(), g, a) {
            Some(i) => Some(i + 1),
            None => None,
        }
    }
}

/// A found index is in bounds, matches, and is the first match.
pub proof fn lemma_find_entry_props(entries: Seq<VersionCacheEntry>, g: Seq<char>, a: Seq<char>)
    ensures
        match spec_find_entry(entries, g, a) {
            Some(i) => 0 <= i < entries.len() && spec_key_matches(entries[i], g, a) && forall|
                k: int,
            | 0 <= k < i ==> !spec_key_matches(entries[k], g, a),
            None => forall|k: int| 0 <= k < entries.len() ==> !spec_key_matches(entries[k], g, a),
        },
    decreases entries.len(),
{
    if entries.len() > 0 {
        lemma_find_entry_props(entries.drop_first(), g, a);
        if !spec_key_matches(entries[0], g, a) {
            match spec_find_entry(entries.drop_first(), g, a) {
                Some(i) => {
                    assert(entries.drop_first()[i] == entries[i + 1]);
                    assert forall|k: int| 0 <= k < i + 1 implies !spec_key_matches(
                        entries[k],
                        g,
                        a,
                    ) by {
                        if k > 0 {
                            assert(entries.drop_first()[k - 1] == entries[k]);
                        }
                    }
                },
                None => {
                    assert forall|k: int| 0 <= k < entries.len() implies !spec_key_matches(
                        entries[k],
                        g,
                        a,
                    ) by {
                        if k > 0 {
                            assert(entries.drop_first()[k - 1] == entries[k]);
                        }
                    }
                },
            }
        }
    }
}

/// The first matching index is what `spec_find_entry` finds.
pub proof fn lemma_find_entry_at(
    entries: Seq<VersionCacheEntry>,
    g: Seq<char>,
    a: Seq<char>,
    i: int,
)
    requires
        0 <= i < entries.len(),
        spec_key_matches(entries[i], g, a),
        forall|k: int| 0 <= k < i ==> !spec_key_matches(entries[k], g, a),
    ensures
        spec_find_entry(entries, g, a) == Some(i),
    decreases entries.len(),
{
    if i > 0 {
        lemma_find_entry_at(entries.drop_first(), g, a, i - 1);
    }
}

impl VersionCache {
    /// At most one entry per key.
    pub open spec fn wf(&self) -> bool {
        forall|p: int, q: int|
            0 <= p < q < self.entries@.len() ==> !spec_key_matches(
                self.entries@[q],
                self.entries@[p].group_id@,
                self.entries@[p].artifact_id@,
            )
    }

    /// The cached version listing under a key.
    pub open spec fn spec_get(&self, g: Seq<char>, a: Seq<char>) -> Option<
        Seq<GetVersionsResponseDoc>,
    > {
        match spec_find_entry(self.entries@, g, a) {
            Some(i) => Some(self.entries@[i].versions@),
            None => None,
        }
    }

    pub fn new() -> (c: VersionCache)
        ensures
            c.entries@ == Seq::<VersionCacheEntry>::empty(),
            c.wf(),
    {
        VersionCache { entries: Vec::new() }
    }

    /// Find the first entry with this key.
    fn find_index(&self, group_id: &str, artifact_id: &str) -> (r: Option<usize>)
        ensures
            match r {
                Some(i) => spec_find_entry(self.entries@, group_id@, artifact_id@) == Some(
                    i as int,
                ),
                None => spec_find_entry(self.entries@, group_id@, artifact_id@) is None,
            },
    {
        let n = self.entries.len();
        let mut i: usize = 0;
        while i < n
            invariant
                i <= n,
                n == self.entries@.len(),
                forall|k: int|
                    0 <= k < i ==> !spec_key_matches(self.entries@[k], group_id@, artifact_id@),
            decreases n - i,
        {
            let e = &self.entries[i];
            if crate::xml::str_eq(e.group_id.as_str(), group_id) && crate::xml::str_eq(
                e.artifact_id.as_str(),
                artifact_id,
            ) {
                proof {
                    lemma_find_entry_at(self.entries@, group_id@, artifact_id@, i as int);
                }
                return Some(i);
            }
            i += 1;
        }
        proof {
            lemma_find_entry_props(self.entries@, group_id@, artifact_id@);
            match spec_find_entry(self.entries@, group_id@, artifact_id@) {
                Some(j) => {
                    assert(spec_key_matches(self.entries@[j], group_id@, artifact_id@));
                },
                None => {},
            }
        }
        None
    }

    /// Look up the cached version listing for a key.
    pub fn get(&self, group_id: &str, artifact_id: &str) -> (r: Option<
        &Vec<GetVersionsResponseDoc>,
    >)
        ensures
            match r {
                Some(v) => self.spec_get(group_id@, artifact_id@) == Some(v@),
                None => self.spec_get(group_id@, artifact_id@) is None,
            },
    {
        match self.find_index(group_id, artifact_id) {
            Some(i) => {
                proof {
                    lemma_find_entry_props(self.entries@, group_id@, artifact_id@);
                }
                Some(&self.entries[i].versions)
            },
            None => None,
        }
    }

    /// Insert a version listing under its key, replacing any entry the key
    /// already had.
    pub fn insert(
        &mut self,
        group_id: String,
        artifact_id: String,
        versions: Vec<GetVersionsResponseDoc>,
    )
        requires
            old(self).wf(),
        ensures
            final(self).wf(),
            match spec_find_entry(old(self).entries@, group_id@, artifact_id@) {
                Some(i) => final(self).entries@ == old(self).entries@.update(
                    i,
                    VersionCacheEntry { group_id, artifact_id, versions },
                ),
                None => final(self).entries@ == old(self).entries@.push(
                    VersionCacheEntry { group_id, artifact_id, versions },
                ),
            },
            final(self).spec_get(group_id@, artifact_id@) == Some(versions@),
    {
        let ghost g: Seq<char> = group_id@;
        let ghost a: Seq<char> = artifact_id@;
        let ghost before: Seq<VersionCacheEntry> = self.entries@;
        proof {
            lemma_find_entry_props(before, g, a);
        }
        match self.find_index(group_id.as_str(), artifact_id.as_str()) {
            Some(i) => {
                let entry = VersionCacheEntry { group_id, artifact_id, versions };
                self.entries.remove(i);
                self.entries.insert(i, entry);
                proof {
                    assert(self.entries@ =~= before.update(i as int, entry));
                    assert forall|p: int, q: int|
                        0 <= p < q < self.entries@.len() implies !spec_key_matches(
                        self.entries@[q],
                        self.entries@[p].group_id@,
                        self.entries@[p].artifact_id@,
                    ) by {
                        assert(self.entries@[p].group_id@ == before[p].group_id@);
                        assert(self.entries@[p].artifact_id@ == before[p].artifact_id@);
                        assert(self.entries@[q].group_id@ == before[q].group_id@);
                        assert(self.entries@[q].artifact_id@ == before[q].artifact_id@);
                    }
                    lemma_find_entry_at(self.entries@, g, a, i as int);
                }
            },
            None => {
                let entry = VersionCacheEntry { group_id, artifact_id, versions };
                self.entries.push(entry);
                proof {
                    let now = self.entries@;
                    assert forall|p: int, q: int|
                        0 <= p < q < now.len() implies !spec_key_matches(
                        now[q],
                        now[p].group_id@,
                        now[p].artifact_id@,
                    ) by {
                        if q == now.len() - 1 {
                            assert(!spec_key_matches(before[p], g, a));
                        }
                    }
                    lemma_find_entry_at(now, g, a, now.len() - 1);
                }
            },
        }
    }
}

/// The whole state of the application. The reducer is its only writer;
/// every other component sees read-only snapshots.
#[derive(Debug)]
pub struct AppState {
    pub maven_file: MavenFile,
    pub mode: InteractionMode,
    pub exit: bool,
    pub search_phrase: String,
    pub dependencies: DependencyList,
    pub found_dependencies: FoundDependencyList,
    pub version_cache: VersionCache,
    pub focused_view: ViewId,
    pub views: Views,
    pub last_failure: Option<EffectFailure>,
}

impl AppState {
    /// The state invariant the reducer maintains: both cursors stay inside
    /// their lists, the cache keeps one entry per key, and the focus always
    /// names a registered view.
    pub open spec fn wf(&self) -> bool {
        &&& self.dependencies.wf()
        &&& self.found_dependencies.wf()
        &&& self.version_cache.wf()
        &&& self.views.wf()
        &&& self.views.order@.contains(self.focused_view)
    }

    /// The state the loop starts from: the dependency list read from the
    /// document, everything else empty, the first registered view focused.
    /// Fails exactly when the document has no `dependencies` section.
    pub fn new(maven_file: MavenFile) -> (r: Result<AppState, DocumentError>)
        ensures
            match r {
                Ok(s) => {
                    &&& s.wf()
                    &&& s.maven_file == maven_file
                    &&& s.mode == InteractionMode::Normal
                    &&& !s.exit
                    &&& s.search_phrase@ == Seq::<char>::empty()
                    &&& crate::dependency::spec_deps_view(s.dependencies.items@)
                        == crate::dependency::spec_deps_of_children(
                        crate::dependency::spec_dependencies_children(maven_file.root),
                    )
                    &&& s.dependencies.selected is None
                    &&& s.found_dependencies.items@ == Seq::<SearchResponseDoc>::empty()
                    &&& s.found_dependencies.selected is None
                    &&& s.version_cache.entries@ == Seq::<VersionCacheEntry>::empty()
                    &&& s.focused_view == ViewId::DependencyView
                    &&& s.last_failure is None
                },
                Err(e) => {
                    &&& e == DocumentError::MissingDependenciesSection
                    &&& spec_find_child(maven_file.root.children@, "dependencies"@) is None
                },
            },
    {
        let dependencies = match maven_file.get_dependencies() {
            Some(deps) => deps,
            None => {
                return Err(DocumentError::MissingDependenciesSection);
            },
        };
        let views = Views::new();
        Ok(
            AppState {
                maven_file,
                mode: InteractionMode::Normal,
                exit: false,
                search_phrase: String::new(),
                dependencies: List { items: dependencies, selected: None },
                found_dependencies: List::new(),
                version_cache: VersionCache::new(),
                focused_view: ViewId::DependencyView,
                views,
                last_failure: None,
            },
        )
    }
}

} // verus!
