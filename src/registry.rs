use vstd::prelude::*;

use crate::loader::CompileSettings;
use crate::paths::{output_path, output_path_of};

verus! {

/// The loads that `HLSLRegistry::plan_load` asks the asset server for: the
/// source under `settings` (only where sources are watched, so that an edit
/// reloads it), and the compiled output, whose handle goes to the caller.
#[derive(Clone, Debug, PartialEq, Eq)]
pub struct LoadPlan {
    pub source_path: String,
    pub settings: Option<CompileSettings>,
    pub compiled_path: String,
}

/// The sources whose loads are kept alive so that a file watcher reloads them
/// when they change: one handle of type `H` for each source path.
pub struct HLSLRegistry<H> {
    entries: Vec<(String, H)>,
    contents: Ghost<Map<Seq<char>, H>>,
    hot_reload: bool,
}

impl<H> View for HLSLRegistry<H> {
    type V = Map<Seq<char>, H>;

    closed spec fn view(&self) -> Map<Seq<char>, H> {
        self.contents@
    }
}

impl<H> HLSLRegistry<H> {
    /// Whether sources are watched here; where they are not, nothing needs
    /// to be tracked.
    pub closed spec fn watches(&self) -> bool {
        self.hot_reload
    }

    /// Whether sources are watched here.
    pub fn hot_reload(&self) -> (r: bool)
        ensures
            r == self.watches(),
    {
        self.hot_reload
    }

    /// At most one entry for each source path, and the entries are the map.
    pub closed spec fn wf(&self) -> bool {
        let e = self.entries@;
        let m = self.contents@;
        &&& forall|i: int, j: int| 0 <= i < j < e.len() ==> e[i].0@ != e[j].0@
        &&& forall|i: int|
            0 <= i < e.len() ==> #[trigger] m.contains_key(e[i].0@) && m[e[i].0@] == e[i].1
        &&& forall|k: Seq<char>| #[trigger]
            m.contains_key(k) ==> exists|i: int| 0 <= i < e.len() && e[i].0@ == k
        &&& m.dom().finite()
        &&& m.dom().len() == e.len()
    }

    /// An empty registry.
    pub fn new(hot_reload: bool) -> (r: HLSLRegistry<H>)
        ensures
            r.wf(),
            r@ == Map::<Seq<char>, H>::empty(),
            r.watches() == hot_reload,
    {
        HLSLRegistry { entries: Vec::new(), contents: Ghost(Map::empty()), hot_reload }
    }

    /// The loads to issue for the source at `path` compiled with `profile`.
    pub fn plan_load(&self, path: &str, profile: &str) -> (r: LoadPlan)
        ensures
            r.source_path@ == path@,
            r.compiled_path@ == output_path_of(path@),
            match r.settings {
                Some(s) => self.watches() && s.profile@ == profile@,
                None => !self.watches(),
            },
    {
        let settings = if self.hot_reload {
            Some(CompileSettings { profile: String::from_str(profile) })
        } else {
            None
        };
        LoadPlan { source_path: String::from_str(path), settings, compiled_path: output_path(path) }
    }

    /// Keeps `handle` for the source at `path`, in place of any handle kept
    /// for it before.
    pub fn record(&mut self, path: &str, handle: H)
        requires
            old(self).wf(),
        ensures
            final(self).wf(),
            final(self)@ == old(self)@.insert(path@, handle),
            final(self).watches() == old(self).watches(),
    {
        let key = String::from_str(path);
        let ghost h = handle;
        let n = self.entries.len();
        let mut i: usize = 0;
        while i < n
            invariant
                n == self.entries@.len(),
                i <= n,
                *self == *old(self),
                h == handle,
                self.wf(),
                key@ == path@,
                forall|j: int| 0 <= j < i ==> self.entries@[j].0@ != key@,
            decreases n - i,
        {
            if self.entries[i].0 == key {
                let ghost e0 = self.entries@;
                let ghost m0 = self.contents@;
                self.entries[i] = (key, handle);
                self.contents = Ghost(m0.insert(path@, h));
                proof {
                    let e = self.entries@;
                    let m = self.contents@;
                    assert(m.dom() =~= m0.dom());
                    assert forall|k: Seq<char>| #[trigger] m.contains_key(k) implies exists|j: int|
                        0 <= j < e.len() && e[j].0@ == k by {
                        if k == path@ {
                            assert(e[i as int].0@ == k);
                        } else {
                            assert(m0.contains_key(k));
                            let j = choose|j: int| 0 <= j < e0.len() && e0[j].0@ == k;
                            assert(e[j].0@ == k);
                        }
                    }
                    assert forall|a: int| 0 <= a < e.len() implies #[trigger] m.contains_key(
                        e[a].0@,
                    ) && m[e[a].0@] == e[a].1 by {
                        if a != i {
                            assert(e[a] == e0[a]);
                            assert(m0.contains_key(e0[a].0@));
                            if a < i {
                                assert(e0[a].0@ != e0[i as int].0@);
                            } else {
                                assert(e0[i as int].0@ != e0[a].0@);
                            }
                        } else {
                            assert(e[a].0@ == path@);
                            assert(e[a].1 == h);
                        }
                    }
                }
                return ;
            }
            i = i + 1;
        }
        let ghost e0 = self.entries@;
        let ghost m0 = self.contents@;
        self.entries.push((key, handle));
        self.contents = Ghost(m0.insert(path@, h));
        proof {
            let e = self.entries@;
            let m = self.contents@;
            if m0.contains_key(path@) {
                let j = choose|j: int| 0 <= j < e0.len() && e0[j].0@ == path@;
                assert(false);
            }
            assert(m.dom() =~= m0.dom().insert(path@));
            assert forall|k: Seq<char>| #[trigger] m.contains_key(k) implies exists|j: int|
                0 <= j < e.len() && e[j].0@ == k by {
                if k == path@ {
                    assert(e[n as int].0@ == k);
                } else {
                    assert(m0.contains_key(k));
                    let j = choose|j: int| 0 <= j < e0.len() && e0[j].0@ == k;
                    assert(e[j].0@ == k);
                }
            }
            assert forall|a: int| 0 <= a < e.len() implies #[trigger] m.contains_key(e[a].0@)
                && m[e[a].0@] == e[a].1 by {
                if a != n {
                    assert(e[a] == e0[a]);
                    assert(m0.contains_key(e0[a].0@));
                }
            }
        }
    }

    /// The handle kept for the source at `path`, if any.
    pub fn get(&self, path: &str) -> (r: Option<&H>)
        requires
            self.wf(),
        ensures
            match r {
                Some(h) => self@.contains_key(path@) && self@[path@] == *h,
                None => !self@.contains_key(path@),
            },
    {
        let key = String::from_str(path);
        let n = self.entries.len();
        let mut i: usize = 0;
        while i < n
            invariant
                n == self.entries@.len(),
                i <= n,
                self.wf(),
                key@ == path@,
                forall|j: int| 0 <= j < i ==> self.entries@[j].0@ != key@,
            decreases n - i,
        {
            if self.entries[i].0 == key {
                proof {
                    assert(self.contents@.contains_key(self.entries@[i as int].0@));
                }
                return Some(&self.entries[i].1);
            }
            i = i + 1;
        }
        proof {
            if self@.contains_key(path@) {
                let j = choose|j: int|
                    0 <= j < self.entries@.len() && self.entries@[j].0@ == path@;
                assert(false);
            }
        }
        None
    }

    /// How many sources are tracked.
    pub fn len(&self) -> (r: usize)
        requires
            self.wf(),
        ensures
            r == self@.len(),
    {
        self.entries.len()
    }
}

/// Tracking a source twice leaves one entry for it, holding the second
/// handle; the registry grows by at most that one entry, and every other
/// entry stays as it was.
pub proof fn lemma_record_replaces<H>(reg: HLSLRegistry<H>, path: Seq<char>, first: H, second: H)
    requires
        reg.wf(),
    ensures
        reg@.insert(path, first).insert(path, second) == reg@.insert(path, second),
        reg@.insert(path, first).insert(path, second)[path] == second,
        reg@.insert(path, first).insert(path, second).len() == reg@.len() + if reg@.contains_key(
            path,
        ) {
            0int
        } else {
            1int
        },
        forall|k: Seq<char>|
            k != path ==> (#[trigger] reg@.insert(path, second).contains_key(k)
                == reg@.contains_key(k)) && (reg@.contains_key(k) ==> reg@.insert(path, second)[k]
                == reg@[k]),
{
    let m = reg@;
    assert(m.insert(path, first).insert(path, second) =~= m.insert(path, second));
    assert(m.insert(path, second).dom() =~= m.dom().insert(path));
}

} // verus!
