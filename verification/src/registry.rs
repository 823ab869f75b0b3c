//! The handle registry: the table that routes foreign invocations to typed
//! handlers.
//!
//! The foreign calling convention can carry only a fixed-width scalar as
//! instance state, so a trampoline object holds one opaque identifier and
//! the real behaviour lives here, in a table indexed by that identifier.
//! The registry is owned by the stream that created its trampolines, so
//! every registration is dropped, at the latest, with its stream; nothing
//! here outlives the stream in a process-wide table.

use vstd::prelude::*;
use crate::errors::DispatchError;
use crate::output::{SCStreamOutputTrait, SCStreamOutputType};
use crate::sample::CMSampleBuffer;

verus! {

/// The scalar a trampoline carries across the foreign boundary: a locally
/// generated identifier, distinct from any foreign memory address.
#[derive(Copy, Clone, PartialEq, Eq, Structural, Hash, Debug)]
pub struct OpaqueIdentifier(u64);

impl OpaqueIdentifier {
    /// The raw identifier value.
    pub closed spec fn spec_raw(self) -> u64 {
        self.0
    }

    /// Wraps a raw identifier value.
    pub fn new(raw: u64) -> (r: OpaqueIdentifier)
        ensures
            r.spec_raw() == raw,
    {
        OpaqueIdentifier(raw)
    }

    /// The raw identifier value.
    pub fn raw(self) -> (r: u64)
        ensures
            r == self.spec_raw(),
    {
        self.0
    }
}

proof fn lemma_index_of_valid(s: Seq<u64>, id: u64)
    requires
        s.contains(id),
    ensures
        0 <= s.index_of(id) < s.len(),
        s[s.index_of(id)] == id,
{
}

proof fn lemma_index_of_unique(s: Seq<u64>, id: u64, i: int)
    requires
        s.no_duplicates(),
        0 <= i < s.len(),
        s[i] == id,
    ensures
        s.index_of(id) == i,
{
    assert(s.contains(id));
    lemma_index_of_valid(s, id);
}

/// The table from identifier to handler. Exactly one handler per live
/// identifier; a fresh identifier for every registration.
pub struct HandleRegistry<T> {
    ids: Vec<u64>,
    handlers: Vec<T>,
    next_raw: u64,
}

impl<T: SCStreamOutputTrait> HandleRegistry<T> {
    /// The live identifiers, in registration order.
    pub closed spec fn ids_seq(self) -> Seq<u64> {
        self.ids@
    }

    /// The registered handlers, in registration order.
    pub closed spec fn handlers_seq(self) -> Seq<T> {
        self.handlers@
    }

    /// The identifier the next registration will receive.
    pub closed spec fn next_raw_spec(self) -> u64 {
        self.next_raw
    }

    /// The registry's invariant: identifiers are unique, pair up with the
    /// handlers one to one, and sit below the allocation counter, so a fresh
    /// identifier never collides with a live one.
    pub open spec fn wf(self) -> bool {
        &&& self.ids_seq().no_duplicates()
        &&& self.ids_seq().len() == self.handlers_seq().len()
        &&& forall|i: int|
            0 <= i < self.ids_seq().len() ==> #[trigger] self.ids_seq()[i] < self.next_raw_spec()
    }

    /// Whether a handler is registered under this raw identifier.
    pub open spec fn contains_id(self, raw: u64) -> bool {
        self.ids_seq().contains(raw)
    }

    /// The handler registered under a live raw identifier.
    pub open spec fn handler_of(self, raw: u64) -> T {
        self.handlers_seq()[self.ids_seq().index_of(raw)]
    }

    /// How many handlers are registered.
    pub fn len(&self) -> (n: usize)
        ensures
            n == self.ids_seq().len(),
    {
        self.ids.len()
    }

    /// An empty registry.
    pub fn new() -> (r: HandleRegistry<T>)
        ensures
            r.wf(),
            r.ids_seq() =~= Seq::<u64>::empty(),
            r.next_raw_spec() == 0,
            forall|raw: u64| !(#[trigger] r.contains_id(raw)),
    {
        HandleRegistry { ids: Vec::new(), handlers: Vec::new(), next_raw: 0 }
    }

    /// The position of a raw identifier, when it is live.
    fn find_index(&self, raw: u64) -> (r: Option<usize>)
        requires
            self.wf(),
        ensures
            r matches Some(i) ==> 0 <= i < self.ids_seq().len() && self.ids_seq()[i as int] == raw,
            r is None ==> !self.contains_id(raw),
    {
        let mut i: usize = 0;
        let n: usize = self.ids.len();
        while i < n
            invariant
                i <= n,
                n == self.ids_seq().len(),
                self.wf(),
                forall|j: int| 0 <= j < i ==> self.ids_seq()[j] != raw,
            decreases n - i,
        {
            if self.ids[i] == raw {
                return Some(i);
            }
            i += 1;
        }
        None
    }

    /// Registers a handler and returns its fresh identifier. Never fails;
    /// the identifier did not name anything before and names exactly this
    /// handler afterwards, and no other registration moves.
    ///
    /// The counter bound is a machine limit, not a policy: a process cannot
    /// perform 2^64 registrations.
    pub fn register(&mut self, handler: T) -> (r: OpaqueIdentifier)
        requires
            old(self).wf(),
            old(self).next_raw_spec() < u64::MAX,
        ensures
            final(self).wf(),
            r.spec_raw() == old(self).next_raw_spec(),
            !old(self).contains_id(r.spec_raw()),
            final(self).contains_id(r.spec_raw()),
            final(self).handler_of(r.spec_raw()) == handler,
            forall|raw: u64|
                raw != r.spec_raw() ==> #[trigger] final(self).contains_id(raw)
                    == old(self).contains_id(raw),
            forall|raw: u64|
                old(self).contains_id(raw) ==> #[trigger] final(self).handler_of(raw)
                    == old(self).handler_of(raw),
            final(self).next_raw_spec() == old(self).next_raw_spec() + 1,
    {
        let raw: u64 = self.next_raw;
        self.ids.push(raw);
        self.handlers.push(handler);
        self.next_raw = self.next_raw + 1;
        proof {
            let olds = old(self).ids_seq();
            let news = self.ids_seq();
            assert forall|j: int| 0 <= j < olds.len() implies olds[j] != raw by {}
            assert(!olds.contains(raw));
            assert forall|i: int, j: int|
                0 <= i < news.len() && 0 <= j < news.len() && i != j implies news[i] != news[j] by {
                assert(news[i] == if i < olds.len() { olds[i] } else { raw });
                assert(news[j] == if j < olds.len() { olds[j] } else { raw });
            }
            lemma_index_of_unique(news, raw, olds.len() as int);
            assert forall|r2: u64| r2 != raw implies #[trigger] self.contains_id(r2)
                == old(self).contains_id(r2) by {
                if olds.contains(r2) {
                    let w = choose|i: int| 0 <= i < olds.len() && olds[i] == r2;
                    assert(news[w] == r2);
                } else if news.contains(r2) {
                    let w = choose|i: int| 0 <= i < news.len() && news[i] == r2;
                    assert(olds[w] == r2);
                }
            }
            assert forall|r2: u64| old(self).contains_id(r2) implies #[trigger] self.handler_of(r2)
                == old(self).handler_of(r2) by {
                let w = olds.index_of(r2);
                lemma_index_of_valid(olds, r2);
                assert(news[w] == r2);
                lemma_index_of_unique(news, r2, w);
            }
        }
        OpaqueIdentifier(raw)
    }

    /// Removes the handler under this identifier, if any. Idempotent: an
    /// identifier that is not live, including one already unregistered,
    /// leaves the registry exactly as it was.
    pub fn unregister(&mut self, id: OpaqueIdentifier)
        requires
            old(self).wf(),
        ensures
            final(self).wf(),
            !final(self).contains_id(id.spec_raw()),
            forall|raw: u64|
                raw != id.spec_raw() ==> #[trigger] final(self).contains_id(raw)
                    == old(self).contains_id(raw),
            forall|raw: u64|
                raw != id.spec_raw() && old(self).contains_id(raw)
                    ==> #[trigger] final(self).handler_of(raw) == old(self).handler_of(raw),
            final(self).next_raw_spec() == old(self).next_raw_spec(),
            !old(self).contains_id(id.spec_raw()) ==> final(self).ids_seq() == old(self).ids_seq()
                && final(self).handlers_seq() == old(self).handlers_seq(),
    {
        let raw: u64 = id.raw();
        match self.find_index(raw) {
            None => {
            },
            Some(i) => {
                self.ids.remove(i);
                self.handlers.remove(i);
                proof {
                    let olds = old(self).ids_seq();
                    let news = self.ids_seq();
                    assert forall|a: int, b: int|
                        0 <= a < news.len() && 0 <= b < news.len() && a != b implies news[a]
                        != news[b] by {}
                    assert forall|r2: u64| r2 != raw implies #[trigger] self.contains_id(r2)
                        == old(self).contains_id(r2) by {
                        if olds.contains(r2) {
                            let w = choose|k: int| 0 <= k < olds.len() && olds[k] == r2;
                            if w < i {
                                assert(news[w] == r2);
                            } else {
                                assert(w != i);
                                assert(news[w - 1] == r2);
                            }
                        } else if news.contains(r2) {
                            let w = choose|k: int| 0 <= k < news.len() && news[k] == r2;
                            if w < i {
                                assert(olds[w] == r2);
                            } else {
                                assert(olds[w + 1] == r2);
                            }
                        }
                    }
                    assert forall|k: int| 0 <= k < news.len() implies news[k] != raw by {
                        if k < i {
                            assert(news[k] == olds[k]);
                            lemma_index_of_unique(olds, raw, i as int);
                        } else {
                            assert(news[k] == olds[k + 1]);
                        }
                    }
                    assert(!self.contains_id(raw));
                    assert forall|r2: u64| r2 != raw && old(self).contains_id(r2) implies #[trigger]
                    self.handler_of(r2) == old(self).handler_of(r2) by {
                        let w = olds.index_of(r2);
                        lemma_index_of_valid(olds, r2);
                        if w < i {
                            assert(news[w] == r2);
                            lemma_index_of_unique(news, r2, w);
                        } else {
                            assert(w != i);
                            assert(news[w - 1] == r2);
                            lemma_index_of_unique(news, r2, w - 1);
                        }
                    }
                }
            },
        }
    }

    /// Looks up the handler under an identifier without invoking it.
    pub fn get(&self, id: OpaqueIdentifier) -> (r: Option<&T>)
        requires
            self.wf(),
        ensures
            r matches Some(h) ==> self.contains_id(id.spec_raw()) && *h == self.handler_of(
                id.spec_raw(),
            ),
            r is None ==> !self.contains_id(id.spec_raw()),
    {
        match self.find_index(id.raw()) {
            None => None,
            Some(i) => {
                proof {
                    lemma_index_of_unique(self.ids_seq(), id.spec_raw(), i as int);
                }
                Some(vstd::std_specs::vec::vec_index(&self.handlers, i))
            },
        }
    }

    /// Routes one decoded sample to the handler registered under `id`.
    ///
    /// When the identifier is live, that handler — and no other — is invoked
    /// exactly once with exactly this sample, and the set of registrations
    /// does not change. When it is not live, nothing is invoked, nothing
    /// changes, and the caller is told: silently ignoring an unknown
    /// identifier would hide use-after-teardown bugs.
    pub fn dispatch(
        &mut self,
        id: OpaqueIdentifier,
        sample: CMSampleBuffer,
        of_type: SCStreamOutputType,
    ) -> (r: Result<(), DispatchError>)
        requires
            old(self).wf(),
        ensures
            final(self).wf(),
            final(self).ids_seq() == old(self).ids_seq(),
            final(self).next_raw_spec() == old(self).next_raw_spec(),
            forall|raw: u64|
                #[trigger] final(self).contains_id(raw) == old(self).contains_id(raw),
            old(self).contains_id(id.spec_raw()) ==> {
                &&& r matches Ok(())
                &&& final(self).handler_of(id.spec_raw()).observed() == old(self).handler_of(
                    id.spec_raw(),
                ).observed().push((sample@, of_type))
                &&& forall|raw: u64|
                    raw != id.spec_raw() && old(self).contains_id(raw)
                        ==> #[trigger] final(self).handler_of(raw) == old(self).handler_of(raw)
            },
            !old(self).contains_id(id.spec_raw()) ==> r == Err::<(), DispatchError>(
                DispatchError::UnknownHandler,
            ) && final(self).handlers_seq() == old(self).handlers_seq(),
    {
        let raw: u64 = id.raw();
        match self.find_index(raw) {
            None => Err(DispatchError::UnknownHandler),
            Some(i) => {
                let mut h: T = self.handlers.remove(i);
                h.did_output_sample_buffer(sample, of_type);
                self.handlers.insert(i, h);
                proof {
                    let olds = old(self).ids_seq();
                    assert(self.handlers_seq() =~= old(self).handlers_seq().update(i as int, h));
                    lemma_index_of_unique(olds, raw, i as int);
                    assert forall|r2: u64| r2 != raw && old(self).contains_id(r2) implies #[trigger]
                    self.handler_of(r2) == old(self).handler_of(r2) by {
                        let w = olds.index_of(r2);
                        lemma_index_of_valid(olds, r2);
                        assert(w != i);
                    }
                }
                Ok(())
            },
        }
    }
}

} // verus!
