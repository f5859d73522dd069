//! The saved-conversation index: friendly names and session identifiers
//! mapped to rollout-file paths, and the choice of the rollout file that a
//! save refers to.
use vstd::prelude::*;
use vstd::string::*;
use crate::text::{after_last, has_prefix, last_segment, strip_suffix, without_suffix};

verus! {

/// How many listing entries a save by session id searches.
pub const ID_SEARCH_LIMIT: usize = 10000;

/// One entry of a newest-first rollout listing: the file's path and the
/// session identifier that its head record carries, if any.
#[derive(Debug, Clone)]
pub struct RolloutEntry {
    pub path: String,
    pub session_id: Option<String>,
}

/// Why a save could not pick a rollout file.
#[derive(Debug, Clone, Copy, PartialEq, Eq, Structural)]
pub enum SaveError {
    /// No listed session's identifier starts with the given prefix.
    SessionNotFound,
    /// The listing is empty.
    NoConversations,
}

/// Why a load found no path.
#[derive(Debug, Clone, Copy, PartialEq, Eq, Structural)]
pub enum LoadError {
    /// The index document does not exist yet.
    NoIndex,
    /// The key is neither a saved name nor a saved session identifier.
    NotFound,
}

/// The index document: two association lists from key to path. Saving
/// keeps one entry per key; should a list hold several, the last one counts.
pub struct SavesIndex {
    pub by_name: Vec<(String, String)>,
    pub by_id: Vec<(String, String)>,
}

/// The value that the latest entry for `k` in `v` holds.
pub open spec fn assoc(v: Seq<(String, String)>, k: Seq<char>) -> Option<Seq<char>>
    decreases v.len(),
{
    if v.len() == 0 {
        None
    } else if v.last().0@ == k {
        Some(v.last().1@)
    } else {
        assoc(v.drop_last(), k)
    }
}

/// The session identifier that a listing entry stands for; a head record
/// without one counts as the empty identifier.
pub open spec fn entry_id(e: RolloutEntry) -> Seq<char> {
    match e.session_id {
        Some(s) => s@,
        None => Seq::empty(),
    }
}

/// Whether a listing entry matches an identifier prefix.
pub open spec fn entry_matches(e: RolloutEntry, prefix: Seq<char>) -> bool {
    prefix.is_prefix_of(entry_id(e))
}

/// The session identifier inferred from a rollout file's name: the part
/// after its last `-`, without the `.jsonl` suffix.
pub open spec fn inferred_id(file_name: Seq<char>) -> Option<Seq<char>> {
    strip_suffix(last_segment(file_name, '-'), ".jsonl"@)
}

impl SavesIndex {
    /// The path saved under `k` as a name.
    pub open spec fn name_lookup(&self, k: Seq<char>) -> Option<Seq<char>> {
        assoc(self.by_name@, k)
    }

    /// The path saved under `k` as a session identifier.
    pub open spec fn id_lookup(&self, k: Seq<char>) -> Option<Seq<char>> {
        assoc(self.by_id@, k)
    }

    /// What a load of `k` finds: names are looked up before identifiers.
    pub open spec fn resolve(&self, k: Seq<char>) -> Option<Seq<char>> {
        match self.name_lookup(k) {
            Some(p) => Some(p),
            None => self.id_lookup(k),
        }
    }

    /// The index after saving `path` under `name`, with `file_name` the last
    /// component of `path`.
    pub open spec fn saved(
        &self,
        name: Seq<char>,
        path: Seq<char>,
        file_name: Option<Seq<char>>,
    ) -> (Map<Seq<char>, Seq<char>>, Map<Seq<char>, Seq<char>>) {
        (self.name_map().insert(name, path), match file_name {
            Some(f) => match inferred_id(f) {
                Some(id) => self.id_map().insert(id, path),
                None => self.id_map(),
            },
            None => self.id_map(),
        })
    }

    /// The names of the index as a map.
    pub open spec fn name_map(&self) -> Map<Seq<char>, Seq<char>> {
        Map::new(|k: Seq<char>| self.name_lookup(k) is Some, |k: Seq<char>| self.name_lookup(k)->Some_0)
    }

    /// The session identifiers of the index as a map.
    pub open spec fn id_map(&self) -> Map<Seq<char>, Seq<char>> {
        Map::new(|k: Seq<char>| self.id_lookup(k) is Some, |k: Seq<char>| self.id_lookup(k)->Some_0)
    }

    /// An empty index, as when no document exists.
    pub fn new() -> (r: SavesIndex)
        ensures
            r.name_map() == Map::<Seq<char>, Seq<char>>::empty(),
            r.id_map() == Map::<Seq<char>, Seq<char>>::empty(),
    {
        let r = SavesIndex { by_name: Vec::new(), by_id: Vec::new() };
        assert(r.name_map() =~= Map::<Seq<char>, Seq<char>>::empty());
        assert(r.id_map() =~= Map::<Seq<char>, Seq<char>>::empty());
        r
    }
}

fn assoc_find(v: &Vec<(String, String)>, k: &String) -> (r: Option<String>)
    ensures
        match r {
            Some(p) => assoc(v@, k@) == Some(p@),
            None => assoc(v@, k@) is None,
        },
{
    let mut i: usize = v.len();
    proof {
        assert(v@.subrange(0, i as int) =~= v@);
    }
    while i > 0
        invariant
            i <= v@.len(),
            assoc(v@, k@) == assoc(v@.subrange(0, i as int), k@),
        decreases i,
    {
        let e = &v[i - 1];
        if e.0 == *k {
            return Some(e.1.clone());
        }
        proof {
            assert(v@.subrange(0, i as int).drop_last() =~= v@.subrange(0, i - 1));
        }
        i = i - 1;
    }
    None
}

proof fn lemma_assoc_push(v: Seq<(String, String)>, e: (String, String), k: Seq<char>)
    ensures
        assoc(v.push(e), k) == (if e.0@ == k {
            Some(e.1@)
        } else {
            assoc(v, k)
        }),
{
    assert(v.push(e).drop_last() =~= v);
}

/// Sets `k` to `val` in the association list: earlier entries for `k` are
/// removed and the new one is added last.
fn upsert(v: &mut Vec<(String, String)>, k: String, val: String)
    ensures
        forall|q: Seq<char>| #[trigger] assoc(final(v)@, q) == (if q == k@ {
            Some(val@)
        } else {
            assoc(old(v)@, q)
        }),
{
    let mut kept: Vec<(String, String)> = Vec::new();
    let mut i: usize = 0;
    while i < v.len()
        invariant
            i <= v@.len(),
            forall|q: Seq<char>| #[trigger] assoc(kept@, q) == (if q == k@ {
                None
            } else {
                assoc(v@.subrange(0, i as int), q)
            }),
        decreases v@.len() - i,
    {
        let ghost before = kept@;
        let e = &v[i];
        if !(e.0 == k) {
            kept.push((e.0.clone(), e.1.clone()));
        }
        proof {
            let pre = v@.subrange(0, i as int);
            assert(v@.subrange(0, i + 1) =~= pre.push(v@[i as int]));
            assert forall|q: Seq<char>| #[trigger] assoc(kept@, q) == (if q == k@ {
                None
            } else {
                assoc(v@.subrange(0, i + 1), q)
            }) by {
                lemma_assoc_push(pre, v@[i as int], q);
                if v@[i as int].0@ != k@ {
                    lemma_assoc_push(before, kept@.last(), q);
                    assert(before.push(kept@.last()) =~= kept@);
                }
            }
        }
        i = i + 1;
    }
    proof {
        assert(v@.subrange(0, v@.len() as int) =~= v@);
    }
    let ghost before = kept@;
    let ghost e = (k, val);
    kept.push((k, val));
    proof {
        assert forall|q: Seq<char>| #[trigger] assoc(kept@, q) == (if q == e.0@ {
            Some(e.1@)
        } else {
            assoc(old(v)@, q)
        }) by {
            lemma_assoc_push(before, e, q);
        }
    }
    *v = kept;
}

/// The session identifier inferred from a rollout file's name, or `None`
/// when the name does not end in `.jsonl`.
pub fn infer_session_id(file_name: &str) -> (r: Option<String>)
    ensures
        match r {
            Some(id) => inferred_id(file_name@) == Some(id@),
            None => inferred_id(file_name@) is None,
        },
{
    without_suffix(after_last(file_name, '-'), ".jsonl")
}

/// The position of the newest listing entry whose session identifier
/// starts with `prefix`.
pub fn find_session(items: &Vec<RolloutEntry>, prefix: &str) -> (r: Option<usize>)
    ensures
        match r {
            Some(i) => {
                &&& i < items@.len()
                &&& entry_matches(items@[i as int], prefix@)
                &&& forall|j: int| 0 <= j < i ==> !entry_matches(#[trigger] items@[j], prefix@)
            },
            None => forall|j: int| 0 <= j < items@.len() ==> !entry_matches(#[trigger] items@[j], prefix@),
        },
{
    let mut i: usize = 0;
    while i < items.len()
        invariant
            i <= items@.len(),
            forall|j: int| 0 <= j < i ==> !entry_matches(#[trigger] items@[j], prefix@),
        decreases items@.len() - i,
    {
        let e = &items[i];
        let found = match &e.session_id {
            Some(sid) => has_prefix(prefix, sid.as_str()),
            None => {
                proof {
                    reveal_strlit("");
                }
                has_prefix(prefix, "")
            },
        };
        if found {
            return Some(i);
        }
        i = i + 1;
    }
    None
}

/// The path of the rollout file that a save refers to: with an identifier
/// prefix, the newest listed session whose identifier starts with it;
/// without one, the newest listed session.
pub fn select_save_target(items: &Vec<RolloutEntry>, id_prefix: Option<&str>) -> (r: Result<
    String,
    SaveError,
>)
    ensures
        match id_prefix {
            Some(p) => match r {
                Ok(path) => exists|i: int|
                    0 <= i < items@.len() && entry_matches(#[trigger] items@[i], p@) && (forall|
                        j: int,
                    | 0 <= j < i ==> !entry_matches(#[trigger] items@[j], p@)) && path@
                        == items@[i].path@,
                Err(e) => e == SaveError::SessionNotFound && forall|j: int|
                    0 <= j < items@.len() ==> !entry_matches(#[trigger] items@[j], p@),
            },
            None => match r {
                Ok(path) => items@.len() > 0 && path@ == items@[0].path@,
                Err(e) => e == SaveError::NoConversations && items@.len() == 0,
            },
        },
{
    match id_prefix {
        Some(p) => match find_session(items, p) {
            Some(i) => Ok(items[i].path.clone()),
            None => Err(SaveError::SessionNotFound),
        },
        None => {
            if items.len() == 0 {
                Err(SaveError::NoConversations)
            } else {
                Ok(items[0].path.clone())
            }
        },
    }
}

impl SavesIndex {
    /// Saves `path` under `name` and, when `file_name` (the last component
    /// of `path`) yields a session identifier, under that identifier too.
    pub fn save(&mut self, name: String, path: String, file_name: Option<&str>)
        ensures
            (final(self).name_map(), final(self).id_map()) == old(self).saved(
                name@,
                path@,
                match file_name {
                    Some(f) => Some(f@),
                    None => None,
                },
            ),
    {
        let inferred = match file_name {
            Some(f) => infer_session_id(f),
            None => None,
        };
        let path_for_id = path.clone();
        upsert(&mut self.by_name, name, path);
        match inferred {
            Some(id) => upsert(&mut self.by_id, id, path_for_id),
            None => {},
        }
        proof {
            assert(self.name_map() =~= old(self).name_map().insert(name@, path@));
            assert(self.id_map() =~= old(self).saved(
                name@,
                path@,
                match file_name {
                    Some(f) => Some(f@),
                    None => None,
                },
            ).1);
        }
    }

    /// The path saved under `key`, looked up among names first, then among
    /// session identifiers.
    pub fn lookup(&self, key: &str) -> (r: Option<String>)
        ensures
            match r {
                Some(p) => self.resolve(key@) == Some(p@),
                None => self.resolve(key@) is None,
            },
    {
        let k = String::from_str(key);
        match assoc_find(&self.by_name, &k) {
            Some(p) => Some(p),
            None => assoc_find(&self.by_id, &k),
        }
    }
}

/// What a load of `key` returns, given the index document if one exists.
pub fn resolve_load(index: Option<&SavesIndex>, key: &str) -> (r: Result<String, LoadError>)
    ensures
        match index {
            None => r == Err::<String, LoadError>(LoadError::NoIndex),
            Some(ix) => match r {
                Ok(p) => ix.resolve(key@) == Some(p@),
                Err(e) => e == LoadError::NotFound && ix.resolve(key@) is None,
            },
        },
{
    match index {
        None => Err(LoadError::NoIndex),
        Some(ix) => match ix.lookup(key) {
            Some(p) => Ok(p),
            None => Err(LoadError::NotFound),
        },
    }
}

/// A load of a name returns the path that the latest save under that name
/// recorded.
pub proof fn lemma_save_then_load(
    ix: SavesIndex,
    after: SavesIndex,
    name: Seq<char>,
    path: Seq<char>,
    file_name: Option<Seq<char>>,
)
    requires
        (after.name_map(), after.id_map()) == ix.saved(name, path, file_name),
    ensures
        after.resolve(name) == Some(path),
{
    assert(ix.saved(name, path, file_name).0 == ix.name_map().insert(name, path));
    assert(after.name_map()[name] == path);
    assert(after.name_map().contains_key(name));
    assert(after.name_lookup(name) is Some);
}

/// Saving under another name leaves what a saved name resolves to as it was.
pub proof fn lemma_other_save_keeps_name(
    ix: SavesIndex,
    after: SavesIndex,
    name: Seq<char>,
    other: Seq<char>,
    path: Seq<char>,
    file_name: Option<Seq<char>>,
)
    requires
        (after.name_map(), after.id_map()) == ix.saved(other, path, file_name),
        other != name,
        ix.name_lookup(name) is Some,
    ensures
        after.resolve(name) == ix.resolve(name),
{
    assert(ix.name_map().contains_key(name));
    assert(after.name_map().contains_key(name));
    assert(after.name_map()[name] == ix.name_map()[name]);
}

} // verus!
