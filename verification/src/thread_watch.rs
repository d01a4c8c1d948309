//! Which threads have a turn running.

use vstd::prelude::*;

verus! {

/// Something that is to be known of an active thread, such as what it waits
/// for.
#[derive(Debug, PartialEq, Eq)]
pub struct ThreadActiveFlag {
    pub name: String,
}

/// The status of a loaded thread.
#[derive(Debug, PartialEq, Eq)]
pub enum ThreadStatus {
    Idle,
    Active { active_flags: Vec<ThreadActiveFlag> },
}

/// Keeps the threads that have a turn running.
#[derive(Debug, PartialEq, Eq)]
pub struct ThreadWatchManager {
    running: Vec<String>,
}

/// Whether `ids` holds the text `id`.
spec fn holds(ids: Seq<String>, id: Seq<char>) -> bool {
    exists|i: int| 0 <= i < ids.len() && (#[trigger] ids[i])@ == id
}

/// The texts of `ids`.
spec fn texts(ids: Seq<String>) -> Seq<Seq<char>> {
    ids.map_values(|id: String| id@)
}

impl View for ThreadWatchManager {
    type V = Set<Seq<char>>;

    /// The threads that have a turn running.
    closed spec fn view(&self) -> Set<Seq<char>> {
        texts(self.running@).to_set()
    }
}

impl ThreadWatchManager {
    /// No thread is kept twice.
    #[verifier::type_invariant]
    spec fn each_once(self) -> bool {
        texts(self.running@).no_duplicates()
    }

    /// No thread has a turn running.
    pub fn new() -> (manager: Self)
        ensures
            manager@ == Set::<Seq<char>>::empty(),
    {
        let running: Vec<String> = Vec::new();
        assert(texts(running@).to_set() =~= Set::<Seq<char>>::empty());
        ThreadWatchManager { running }
    }

    /// Where `thread_id` is kept.
    fn position(&self, thread_id: &str) -> (found: Option<usize>)
        ensures
            match found {
                Some(i) => i < self.running@.len() && self.running@[i as int]@ == thread_id@,
                None => !holds(self.running@, thread_id@),
            },
    {
        let wanted = thread_id.to_string();
        for i in 0..self.running.len()
            invariant
                wanted@ == thread_id@,
                forall|j: int| 0 <= j < i ==> (#[trigger] self.running@[j])@ != thread_id@,
        {
            if self.running[i] == wanted {
                return Some(i);
            }
        }
        None
    }

    /// `thread_id` is among the running exactly when it is kept.
    proof fn contains_means_holds(&self, thread_id: Seq<char>)
        ensures
            self@.contains(thread_id) <==> holds(self.running@, thread_id),
    {
        let ids = texts(self.running@);
        if holds(self.running@, thread_id) {
            let i = choose|i: int|
                0 <= i < self.running@.len() && (#[trigger] self.running@[i])@ == thread_id;
            assert(ids[i] == thread_id);
        }
        if self@.contains(thread_id) {
            let i = choose|i: int| 0 <= i < ids.len() && ids[i] == thread_id;
            assert(self.running@[i]@ == thread_id);
        }
    }

    /// Notes that a turn of `thread_id` runs.
    pub fn note_turn_started(&mut self, thread_id: &str)
        ensures
            final(self)@ == old(self)@.insert(thread_id@),
    {
        proof {
            use_type_invariant(&*self);
            self.contains_means_holds(thread_id@);
        }
        if self.position(thread_id).is_none() {
            let mut running: Vec<String> = Vec::new();
            std::mem::swap(&mut running, &mut self.running);
            let ghost before = running@;
            running.push(thread_id.to_string());
            proof {
                assert(texts(running@) =~= texts(before).push(thread_id@));
                assert(texts(running@).to_set() =~= texts(before).to_set().insert(thread_id@)) by {
                    texts(before).lemma_push_to_set_commute(thread_id@);
                }
                assert forall|i: int| 0 <= i < before.len() implies texts(before)[i]
                    != thread_id@ by {
                    assert(before[i]@ != thread_id@);
                }
            }
            self.running = running;
        } else {
            assert(self@ =~= self@.insert(thread_id@));
        }
    }

    /// Notes that no turn of `thread_id` runs any more.
    pub fn note_turn_completed(&mut self, thread_id: &str)
        ensures
            final(self)@ == old(self)@.remove(thread_id@),
    {
        proof {
            use_type_invariant(&*self);
            self.contains_means_holds(thread_id@);
        }
        if let Some(i) = self.position(thread_id) {
            let mut running: Vec<String> = Vec::new();
            std::mem::swap(&mut running, &mut self.running);
            let ghost before = running@;
            running.remove(i);
            proof {
                let ids = texts(before);
                assert(ids[i as int] == thread_id@);
                assert(texts(running@) =~= ids.remove(i as int));
                assert(ids.remove(i as int).no_duplicates());
                assert(ids.remove(i as int).to_set() =~= ids.to_set().remove(thread_id@)) by {
                    assert forall|id: Seq<char>| ids.remove(i as int).contains(id) <==> (
                    ids.contains(id) && id != thread_id@) by {
                        if ids.contains(id) && id != thread_id@ {
                            let k = choose|k: int| 0 <= k < ids.len() && ids[k] == id;
                            assert(ids.remove(i as int)[if k < i {
                                k
                            } else {
                                k - 1
                            }] == id);
                        }
                        if ids.remove(i as int).contains(id) {
                            let k = choose|k: int|
                                0 <= k < ids.remove(i as int).len() && ids.remove(i as int)[k] == id;
                            assert(ids[if k < i {
                                k
                            } else {
                                k + 1
                            }] == id);
                        }
                    }
                }
            }
            self.running = running;
        } else {
            assert(self@ =~= self@.remove(thread_id@));
        }
    }

    /// The status of `thread_id`. Only that a turn runs is kept here, so an
    /// active thread has no flags.
    pub fn loaded_status_for_thread(&self, thread_id: &str) -> (status: ThreadStatus)
        ensures
            match status {
                ThreadStatus::Idle => !self@.contains(thread_id@),
                ThreadStatus::Active { active_flags } => {
                    &&& self@.contains(thread_id@)
                    &&& active_flags@ == Seq::<ThreadActiveFlag>::empty()
                },
            },
    {
        proof {
            self.contains_means_holds(thread_id@);
        }
        match self.position(thread_id) {
            Some(_) => ThreadStatus::Active { active_flags: Vec::new() },
            None => ThreadStatus::Idle,
        }
    }

    /// How many threads have a turn running.
    pub fn running_turn_count(&self) -> (count: usize)
        ensures
            count == self@.len(),
            self@.finite(),
    {
        proof {
            use_type_invariant(self);
            texts(self.running@).unique_seq_to_set();
        }
        self.running.len()
    }
}

} // verus!
