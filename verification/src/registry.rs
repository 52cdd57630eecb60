//! The handler registry: a mutable builder accumulates one handler per
//! JSON-RPC method name, then freezes into an immutable registry that only
//! supports lookup.
//!
//! The handlers themselves are async closures held by the surrounding
//! program; the registry binds each method name to the identity (an index)
//! under which that program holds the handler. Registering the same name
//! twice is a logged anomaly, not a failure: the second registration wins.

use vstd::prelude::*;

verus! {

/// One registry entry: a method name bound to the identity of its handler.
pub struct HandlerEntry {
    /// The JSON-RPC method name; case-sensitive and unique in one registry.
    pub method: String,
    /// The identity under which the surrounding program holds the handler.
    pub handler: usize,
}

/// The mapping a sequence of entries denotes: later entries win.
pub open spec fn entries_view(s: Seq<HandlerEntry>) -> Map<Seq<char>, usize>
    decreases s.len(),
{
    if s.len() == 0 {
        Map::empty()
    } else {
        entries_view(s.drop_last()).insert(s.last().method@, s.last().handler)
    }
}

/// No two entries carry the same method name.
pub open spec fn methods_unique(s: Seq<HandlerEntry>) -> bool {
    forall|i: int, j: int| 0 <= i < j < s.len() ==> s[i].method@ != s[j].method@
}

proof fn lemma_view_contains(s: Seq<HandlerEntry>, m: Seq<char>)
    ensures
        entries_view(s).contains_key(m) <==> (exists|i: int|
            0 <= i < s.len() && s[i].method@ == m),
    decreases s.len(),
{
    if s.len() > 0 {
        lemma_view_contains(s.drop_last(), m);
        if s.last().method@ == m {
            assert(s[s.len() - 1].method@ == m);
        } else if entries_view(s).contains_key(m) {
            let i = choose|i: int| 0 <= i < s.drop_last().len() && s.drop_last()[i].method@ == m;
            assert(s[i].method@ == m);
        } else if exists|i: int| 0 <= i < s.len() && s[i].method@ == m {
            let i = choose|i: int| 0 <= i < s.len() && s[i].method@ == m;
            assert(s.drop_last()[i].method@ == m);
        }
    }
}

proof fn lemma_view_index(s: Seq<HandlerEntry>, i: int)
    requires
        methods_unique(s),
        0 <= i < s.len(),
    ensures
        entries_view(s).contains_key(s[i].method@),
        entries_view(s)[s[i].method@] == s[i].handler,
    decreases s.len(),
{
    if i == s.len() - 1 {
        lemma_view_contains(s, s[i].method@);
    } else {
        assert(s.drop_last()[i] == s[i]);
        lemma_view_index(s.drop_last(), i);
        assert(s.last().method@ != s[i].method@);
    }
}

proof fn lemma_view_dom_len(s: Seq<HandlerEntry>)
    requires
        methods_unique(s),
    ensures
        entries_view(s).dom().finite(),
        entries_view(s).dom().len() == s.len(),
    decreases s.len(),
{
    if s.len() > 0 {
        lemma_view_dom_len(s.drop_last());
        lemma_view_contains(s.drop_last(), s.last().method@);
        assert(forall|i: int|
            0 <= i < s.drop_last().len() ==> s.drop_last()[i].method@ != s.last().method@);
        assert(!entries_view(s.drop_last()).contains_key(s.last().method@));
        vstd::set::axiom_set_insert_len(entries_view(s.drop_last()).dom(), s.last().method@);
        assert(entries_view(s).dom() =~= entries_view(s.drop_last()).dom().insert(
            s.last().method@,
        ));
    }
}

proof fn lemma_view_update(s: Seq<HandlerEntry>, i: int, e: HandlerEntry)
    requires
        methods_unique(s),
        0 <= i < s.len(),
        s[i].method@ == e.method@,
    ensures
        entries_view(s.update(i, e)) =~= entries_view(s).insert(e.method@, e.handler),
    decreases s.len(),
{
    let t = s.update(i, e);
    if i == s.len() - 1 {
        assert(t.drop_last() =~= s.drop_last());
        assert(t.last() == e);
    } else {
        assert(t.drop_last() =~= s.drop_last().update(i, e));
        assert(s.drop_last()[i] == s[i]);
        lemma_view_update(s.drop_last(), i, e);
        assert(t.last() == s.last());
        assert(s.last().method@ != e.method@);
    }
}

/// A builder for [`RequestHandlers`]: accumulates entries before the
/// registry is frozen and shared.
pub struct RequestHandlersBuilder {
    entries: Vec<HandlerEntry>,
}

/// The frozen registry: an immutable mapping from method name to handler,
/// shareable across concurrent lookups without synchronization because no
/// mutation is possible after `build`.
pub struct RequestHandlers {
    entries: Vec<HandlerEntry>,
}

impl View for RequestHandlersBuilder {
    type V = Map<Seq<char>, usize>;

    closed spec fn view(&self) -> Map<Seq<char>, usize> {
        entries_view(self.entries@)
    }
}

impl View for RequestHandlers {
    type V = Map<Seq<char>, usize>;

    closed spec fn view(&self) -> Map<Seq<char>, usize> {
        entries_view(self.entries@)
    }
}

impl RequestHandlersBuilder {
    /// The builder's internal invariant: method names are unique.
    pub closed spec fn wf(&self) -> bool {
        methods_unique(self.entries@)
    }

    /// Returns a new, empty builder.
    pub fn new() -> (r: RequestHandlersBuilder)
        ensures
            r.wf(),
            r@ == Map::<Seq<char>, usize>::empty(),
    {
        RequestHandlersBuilder { entries: Vec::new() }
    }

    /// Binds `method` to `handler`. When the name was already bound, the new
    /// binding replaces the old one — the second registration wins — and the
    /// returned flag is true so the caller can log the anomaly at error level.
    pub fn register_handler(&mut self, method: String, handler: usize) -> (duplicate: bool)
        requires
            old(self).wf(),
        ensures
            final(self).wf(),
            final(self)@ == old(self)@.insert(method@, handler),
            duplicate == old(self)@.contains_key(method@),
    {
        let ghost s0 = self.entries@;
        let mut i: usize = 0;
        while i < self.entries.len()
            invariant
                self.entries@ == s0,
                old(self).entries@ == s0,
                methods_unique(s0),
                0 <= i <= s0.len(),
                forall|j: int| 0 <= j < i ==> s0[j].method@ != method@,
            decreases s0.len() - i,
        {
            if self.entries[i].method == method {
                proof {
                    lemma_view_contains(s0, method@);
                    assert(s0[i as int].method@ == method@);
                }
                let entry = HandlerEntry { method, handler };
                proof {
                    lemma_view_update(s0, i as int, entry);
                    assert(methods_unique(s0.update(i as int, entry)));
                }
                self.entries.set(i, entry);
                return true;
            }
            i += 1;
        }
        proof {
            lemma_view_contains(s0, method@);
        }
        self.entries.push(HandlerEntry { method, handler });
        proof {
            assert(self.entries@.drop_last() =~= s0);
        }
        false
    }

    /// Freezes the builder into an immutable [`RequestHandlers`].
    pub fn build(self) -> (r: RequestHandlers)
        requires
            self.wf(),
        ensures
            r.wf(),
            r@ == self@,
    {
        RequestHandlers { entries: self.entries }
    }
}

impl RequestHandlers {
    /// The registry's internal invariant: method names are unique.
    pub closed spec fn wf(&self) -> bool {
        methods_unique(self.entries@)
    }

    /// Finds the handler bound to `method`, if any.
    pub fn lookup(&self, method: &String) -> (r: Option<usize>)
        requires
            self.wf(),
        ensures
            r == if self@.contains_key(method@) {
                Some(self@[method@])
            } else {
                None::<usize>
            },
    {
        proof {
            lemma_view_contains(self.entries@, method@);
        }
        let mut i: usize = 0;
        while i < self.entries.len()
            invariant
                self.wf(),
                0 <= i <= self.entries@.len(),
                forall|j: int| 0 <= j < i ==> self.entries@[j].method@ != method@,
            decreases self.entries@.len() - i,
        {
            if self.entries[i].method == *method {
                proof {
                    lemma_view_index(self.entries@, i as int);
                }
                return Some(self.entries[i].handler);
            }
            i += 1;
        }
        None
    }

    /// The number of entries: one per registered method name.
    pub fn len(&self) -> (n: usize)
        requires
            self.wf(),
        ensures
            n == self@.dom().len(),
    {
        proof {
            lemma_view_dom_len(self.entries@);
        }
        self.entries.len()
    }
}

/// Registering two handlers under the same method name leaves exactly one
/// entry for that name: the registry denotes the same mapping as if only the
/// second registration had happened, so the second wins and the name count
/// does not grow.
pub proof fn lemma_second_registration_wins(
    m0: Map<Seq<char>, usize>,
    method: Seq<char>,
    first: usize,
    second: usize,
)
    ensures
        m0.insert(method, first).insert(method, second) == m0.insert(method, second),
        m0.insert(method, first).insert(method, second)[method] == second,
        m0.insert(method, first).insert(method, second).dom() == m0.insert(method, second).dom(),
{
    assert(m0.insert(method, first).insert(method, second) =~= m0.insert(method, second));
    assert(m0.insert(method, first).insert(method, second).dom() =~= m0.insert(
        method,
        second,
    ).dom());
}

} // verus!
