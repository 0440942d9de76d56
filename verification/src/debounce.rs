//! The debounce loop of the configuration watcher, as a state machine.
//!
//! File events are collected into a set of pending paths; when the
//! debounce window closes without a new event, the pending paths are
//! dispatched as one batch; when the event source closes, what is pending
//! is dispatched and the loop stops.

use vstd::prelude::*;

use crate::text::{has_str, vec_has_str};

verus! {

/// The kind of a file event.
#[derive(Debug, Clone, Copy, PartialEq, Eq, Structural)]
pub enum WatchEventKind {
    Create,
    Modify,
    Remove,
    /// Access and other kinds, which change nothing.
    Other,
}

/// What the watcher loop receives.
#[derive(Debug)]
pub enum LoopEvent {
    /// A file event of some kind on some paths.
    Changed(WatchEventKind, Vec<String>),
    /// The watcher reported an error.
    WatchError,
    /// The debounce window closed without an event.
    Timeout,
    /// The event source was closed.
    Disconnected,
}

/// What the watcher loop does next.
#[derive(Debug)]
pub enum LoopAction {
    /// Keep waiting for events.
    Wait,
    /// Dispatch each path once and signal completion; stop afterwards when
    /// `stop` is set.
    Dispatch { paths: Vec<String>, stop: bool },
}

/// Whether events of this kind change configuration files.
pub open spec fn relevant(kind: WatchEventKind) -> bool {
    kind != WatchEventKind::Other
}

/// Whether the texts of `v` are pairwise distinct.
pub open spec fn distinct_texts(v: Seq<String>) -> bool {
    forall|i: int, j: int| 0 <= i < v.len() && 0 <= j < v.len() && i != j ==> v[i]@ != v[j]@
}

/// The set of texts of `v`.
pub open spec fn text_set(v: Seq<String>) -> Set<Seq<char>> {
    Set::new(|t: Seq<char>| has_str(v, t))
}

/// The paths collected since the last dispatch.
pub struct DebounceState {
    pending: Vec<String>,
}

impl DebounceState {
    /// Each pending path occurs once.
    pub closed spec fn wf(&self) -> bool {
        distinct_texts(self.pending@)
    }

    /// The pending paths.
    pub closed spec fn pending_set(&self) -> Set<Seq<char>> {
        text_set(self.pending@)
    }

    /// Nothing pending.
    pub fn new() -> (r: Self)
        ensures
            r.wf(),
            r.pending_set() == Set::<Seq<char>>::empty(),
    {
        let r = DebounceState { pending: Vec::new() };
        proof {
            assert(r.pending_set() =~= Set::<Seq<char>>::empty());
        }
        r
    }

    /// Add a path to the pending set.
    fn add(&mut self, path: String)
        requires
            old(self).wf(),
        ensures
            final(self).wf(),
            final(self).pending_set() == old(self).pending_set().insert(path@),
    {
        let ghost before = self.pending@;
        if !vec_has_str(&self.pending, path.as_str()) {
            self.pending.push(path);
            proof {
                assert forall|t: Seq<char>| #[trigger] has_str(self.pending@, t) == (has_str(
                    before,
                    t,
                ) || t == self.pending@.last()@) by {
                    if has_str(self.pending@, t) && t != self.pending@.last()@ {
                        let w = choose|w: int| 0 <= w < self.pending@.len() && self.pending@[w]@ == t;
                        assert(before[w]@ == t);
                    }
                    if has_str(before, t) {
                        let w = choose|w: int| 0 <= w < before.len() && before[w]@ == t;
                        assert(self.pending@[w]@ == t);
                    }
                    assert(self.pending@[self.pending@.len() - 1]@ == self.pending@.last()@);
                }
            }
        }
        proof {
            assert(self.pending_set() =~= text_set(before).insert(path@));
        }
    }

    /// React to one event of the loop.
    pub fn step(&mut self, event: LoopEvent) -> (r: LoopAction)
        requires
            old(self).wf(),
        ensures
            final(self).wf(),
            match event {
                LoopEvent::Changed(kind, paths) => r is Wait && final(self).pending_set() == (
                if relevant(kind) {
                    old(self).pending_set().union(text_set(paths@))
                } else {
                    old(self).pending_set()
                }),
                LoopEvent::WatchError => r is Wait && final(self).pending_set() == old(
                    self,
                ).pending_set(),
                LoopEvent::Timeout => if old(self).pending_set().is_empty() {
                    r is Wait && final(self).pending_set() == old(self).pending_set()
                } else {
                    &&& r matches LoopAction::Dispatch { paths, stop }
                    &&& !stop
                    &&& distinct_texts(paths@)
                    &&& text_set(paths@) == old(self).pending_set()
                    &&& final(self).pending_set().is_empty()
                },
                LoopEvent::Disconnected => {
                    &&& r matches LoopAction::Dispatch { paths, stop }
                    &&& stop
                    &&& distinct_texts(paths@)
                    &&& text_set(paths@) == old(self).pending_set()
                    &&& final(self).pending_set().is_empty()
                },
            },
    {
        match event {
            LoopEvent::Changed(kind, paths) => {
                if !matches!(kind, WatchEventKind::Other) {
                    let ghost start = self.pending_set();
                    let mut i: usize = 0;
                    while i < paths.len()
                        invariant
                            i <= paths@.len(),
                            self.wf(),
                            self.pending_set() == start.union(text_set(paths@.subrange(0, i as int))),
                        decreases paths.len() - i,
                    {
                        let ghost mid = self.pending_set();
                        self.add(paths[i].clone());
                        proof {
                            let s0 = paths@.subrange(0, i as int);
                            let s1 = paths@.subrange(0, i + 1);
                            assert forall|t: Seq<char>| #[trigger] has_str(s1, t) == (has_str(s0, t)
                                || t == paths@[i as int]@) by {
                                if has_str(s1, t) && t != paths@[i as int]@ {
                                    let w = choose|w: int| 0 <= w < s1.len() && s1[w]@ == t;
                                    assert(s0[w]@ == t);
                                }
                                if has_str(s0, t) {
                                    let w = choose|w: int| 0 <= w < s0.len() && s0[w]@ == t;
                                    assert(s1[w]@ == t);
                                }
                                assert(s1[i as int] == paths@[i as int]);
                            }
                            assert(text_set(s1) =~= text_set(s0).insert(paths@[i as int]@));
                            assert(self.pending_set() =~= start.union(text_set(s1)));
                        }
                        i = i + 1;
                    }
                    proof {
                        assert(paths@.subrange(0, paths@.len() as int) =~= paths@);
                    }
                } else {
                    proof {
                        assert(self.pending_set() =~= old(self).pending_set());
                    }
                }
                LoopAction::Wait
            },
            LoopEvent::WatchError => LoopAction::Wait,
            LoopEvent::Timeout => {
                if self.pending.len() == 0 {
                    LoopAction::Wait
                } else {
                    proof {
                        assert(has_str(self.pending@, self.pending@[0]@));
                        assert(self.pending_set().contains(self.pending@[0]@));
                    }
                    let paths = self.take_pending();
                    LoopAction::Dispatch { paths, stop: false }
                }
            },
            LoopEvent::Disconnected => {
                let paths = self.take_pending();
                LoopAction::Dispatch { paths, stop: true }
            },
        }
    }

    /// Hand the pending paths out and clear them.
    fn take_pending(&mut self) -> (r: Vec<String>)
        requires
            old(self).wf(),
        ensures
            final(self).wf(),
            final(self).pending_set().is_empty(),
            distinct_texts(r@),
            text_set(r@) == old(self).pending_set(),
    {
        let mut r: Vec<String> = Vec::new();
        std::mem::swap(&mut r, &mut self.pending);
        proof {
            assert(self.pending_set() =~= Set::<Seq<char>>::empty());
        }
        r
    }
}

} // verus!
