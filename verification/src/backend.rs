use vstd::prelude::*;
use crate::json::str_eq;

verus! {

/// The registry of reachable upstream janus-gateway URLs. Implementations may
/// be in memory or remote.
pub trait JanusBackendProvider {
    /// The live URLs, in registration order, as character sequences.
    spec fn urls(&self) -> Seq<Seq<char>>;

    /// Whether the registry is in a usable state: no URL is listed twice.
    spec fn wf(&self) -> bool;

    /// Marks a backend as up (registering it if new) or down (dropping it).
    fn update_backend(&mut self, url: String, up: bool)
        requires
            old(self).wf(),
        ensures
            final(self).wf(),
            up ==> final(self).urls() == if old(self).urls().contains(url@) {
                old(self).urls()
            } else {
                old(self).urls().push(url@)
            },
            !up ==> final(self).urls() == old(self).urls().remove_value(url@),
            up ==> final(self).urls().contains(url@),
            !up ==> !final(self).urls().contains(url@),
    ;

    /// One live backend URL, if any: the registry hands out the oldest entry.
    fn get_backend(&self) -> (r: Option<String>)
        requires
            self.wf(),
        ensures
            match r {
                Some(u) => self.urls().len() > 0 && u@ == self.urls()[0],
                None => self.urls().len() == 0,
            },
    ;
}

/// The in-memory backend registry: a duplicate-free list of live URLs.
pub struct MemoryBackendProvider {
    alive: Vec<String>,
}

impl MemoryBackendProvider {
    pub fn new() -> (r: MemoryBackendProvider)
        ensures
            r.wf(),
            r.urls() == Seq::<Seq<char>>::empty(),
    {
        let r = MemoryBackendProvider { alive: Vec::new() };
        proof {
            assert(r.urls() =~= Seq::<Seq<char>>::empty());
        }
        r
    }

    /// The index of the first entry spelled like `url`, if any.
    fn find(&self, url: &str) -> (r: Option<usize>)
        ensures
            match r {
                Some(i) => i < self.urls().len() && self.urls()[i as int] == url@ && forall|j: int|
                    0 <= j < i ==> self.urls()[j] != url@,
                None => !self.urls().contains(url@),
            },
    {
        let mut i: usize = 0;
        while i < self.alive.len()
            invariant
                0 <= i <= self.alive.len(),
                forall|j: int| 0 <= j < i ==> self.urls()[j] != url@,
            decreases self.alive.len() - i,
        {
            if str_eq(self.alive[i].as_str(), url) {
                return Some(i);
            }
            i = i + 1;
        }
        proof {
            assert(forall|j: int| 0 <= j < self.urls().len() ==> self.urls()[j] != url@);
            if self.urls().contains(url@) {
                let j = choose|j: int| 0 <= j < self.urls().len() && self.urls()[j] == url@;
            }
        }
        None
    }
}

impl JanusBackendProvider for MemoryBackendProvider {
    closed spec fn urls(&self) -> Seq<Seq<char>> {
        self.alive@.map_values(|s: String| s@)
    }

    closed spec fn wf(&self) -> bool {
        forall|i: int, j: int| 0 <= i < j < self.urls().len() ==> self.urls()[i] != self.urls()[j]
    }

    fn update_backend(&mut self, url: String, up: bool) {
        let found = self.find(url.as_str());
        if up {
            if found.is_none() {
                let ghost before = self.urls();
                self.alive.push(url);
                proof {
                    assert(self.urls() =~= before.push(url@));
                    assert forall|i: int, j: int|
                        0 <= i < j < self.urls().len() implies self.urls()[i]
                        != self.urls()[j] by {
                        if j == before.len() {
                            assert(!before.contains(url@));
                            assert(before[i] != url@);
                        }
                    }
                    assert(self.urls().last() == url@);
                }
            } else {
                proof {
                    let i = found.unwrap() as int;
                    assert(self.urls()[i] == url@);
                }
            }
        } else {
            match found {
                Some(i) => {
                    let ghost before = self.urls();
                    self.alive.remove(i);
                    proof {
                        assert(self.urls() =~= before.remove(i as int));
                        assert(before.contains(url@)) by {
                            assert(before[i as int] == url@);
                        }
                        before.index_of_first_ensures(url@);
                        let k = before.index_of_first(url@).unwrap();
                        assert(k == i) by {
                            if k < i {
                                assert(before[k] != url@);
                            }
                        }
                        assert forall|a: int, b: int|
                            0 <= a < b < self.urls().len() implies self.urls()[a]
                            != self.urls()[b] by {
                            before.remove_ensures(i as int);
                        }
                        assert forall|a: int|
                            0 <= a < self.urls().len() implies self.urls()[a] != url@ by {
                            before.remove_ensures(i as int);
                        }
                        if self.urls().contains(url@) {
                            let a = choose|a: int|
                                0 <= a < self.urls().len() && self.urls()[a] == url@;
                        }
                    }
                },
                None => {
                    proof {
                        self.urls().index_of_first_ensures(url@);
                    }
                },
            }
        }
    }

    fn get_backend(&self) -> (r: Option<String>) {
        if self.alive.len() == 0 {
            None
        } else {
            Some(self.alive[0].clone())
        }
    }
}

} // verus!
