use vstd::prelude::*;

use crate::errors::LoadError;
use crate::specifier::ModuleSpecifier;
use crate::specifier::parsed_specifier;

verus! {

/// The specifier texts of a row of specifiers.
pub open spec fn specifier_texts(v: Seq<ModuleSpecifier>) -> Seq<Seq<char>> {
    v.map_values(|m: ModuleSpecifier| m@)
}

/// The serializations of a row of import texts, each already known to parse.
pub open spec fn resolved_imports(imps: Seq<String>) -> Seq<Seq<char>> {
    imps.map_values(|s: String| parsed_specifier(s@).unwrap())
}

/// The (seen, pending) pair left after offering each import in order to a
/// loader that has already seen `seen` and still has `pending` to fetch: an
/// import seen before changes nothing, a new one joins both rows.
pub open spec fn after_enqueue(
    seen: Seq<Seq<char>>,
    pending: Seq<Seq<char>>,
    imps: Seq<Seq<char>>,
) -> (Seq<Seq<char>>, Seq<Seq<char>>)
    decreases imps.len(),
{
    if imps.len() == 0 {
        (seen, pending)
    } else {
        let prev = after_enqueue(seen, pending, imps.drop_last());
        if prev.0.contains(imps.last()) {
            prev
        } else {
            (prev.0.push(imps.last()), prev.1.push(imps.last()))
        }
    }
}

/// One asynchronous module-graph load: the entry point, how it was started,
/// the modules already fetched, and the modules resolved but not yet fetched.
/// The graph is complete when nothing is pending.
#[derive(Debug)]
pub struct ModuleLoad {
    /// The entry-point specifier of this load.
    pub entry: ModuleSpecifier,
    /// Source text to use for the entry instead of fetching it, if any.
    pub inline_source: Option<String>,
    /// A prefetch-only load resolves and fetches but must never evaluate.
    pub is_prefetch: bool,
    /// For a load begun by the dynamic-import hook: the engine's request id.
    pub import_id: Option<u64>,
    /// For a dynamic import: the specifier of the requesting module.
    pub referrer: Option<String>,
    /// Modules fetched so far, in fetch order.
    pub loaded: Vec<ModuleSpecifier>,
    /// Modules resolved but not yet fetched.
    pub pending: Vec<ModuleSpecifier>,
}

impl ModuleLoad {
    /// Modules fetched so far, in fetch order.
    pub closed spec fn loaded_views(self) -> Seq<Seq<char>> {
        specifier_texts(self.loaded@)
    }

    /// Modules resolved but not yet fetched, in resolution order.
    pub closed spec fn pending_views(self) -> Seq<Seq<char>> {
        specifier_texts(self.pending@)
    }

    /// Every specifier this load has resolved, each exactly once.
    pub open spec fn seen(self) -> Seq<Seq<char>> {
        self.loaded_views() + self.pending_views()
    }

    /// The loader never resolves a specifier twice.
    pub open spec fn wf(self) -> bool {
        self.seen().no_duplicates()
    }

    /// Begins a main-graph load: `entry` is the entry point; when
    /// `inline_source` is given, the entry's text is taken from it instead of
    /// being fetched; a prefetch-only load never evaluates.
    pub fn main(entry: &ModuleSpecifier, inline_source: Option<String>, is_prefetch: bool) -> (l:
        ModuleLoad)
        ensures
            l.wf(),
            l.loaded_views() == Seq::<Seq<char>>::empty(),
            l.pending_views() == seq![entry@],
            l.entry@ == entry@,
            l.inline_source == inline_source,
            l.is_prefetch == is_prefetch,
            l.import_id is None,
            l.referrer is None,
    {
        let mut pending: Vec<ModuleSpecifier> = Vec::new();
        pending.push(entry.clone());
        let l = ModuleLoad {
            entry: entry.clone(),
            inline_source,
            is_prefetch,
            import_id: None,
            referrer: None,
            loaded: Vec::new(),
            pending,
        };
        proof {
            assert(l.loaded_views() =~= Seq::<Seq<char>>::empty());
            assert(l.pending_views() =~= seq![entry@]);
        }
        l
    }

    /// Begins the load behind a dynamic import: the engine's request id and
    /// the requesting module ride along, and the loaded module is always
    /// evaluated once the graph is complete.
    pub fn dynamic(id: u64, specifier: &ModuleSpecifier, referrer: Option<String>) -> (l:
        ModuleLoad)
        ensures
            l.wf(),
            l.loaded_views() == Seq::<Seq<char>>::empty(),
            l.pending_views() == seq![specifier@],
            l.entry@ == specifier@,
            l.inline_source is None,
            !l.is_prefetch,
            l.import_id == Some(id),
            l.referrer == referrer,
    {
        let mut pending: Vec<ModuleSpecifier> = Vec::new();
        pending.push(specifier.clone());
        let l = ModuleLoad {
            entry: specifier.clone(),
            inline_source: None,
            is_prefetch: false,
            import_id: Some(id),
            referrer,
            loaded: Vec::new(),
            pending,
        };
        proof {
            assert(l.loaded_views() =~= Seq::<Seq<char>>::empty());
            assert(l.pending_views() =~= seq![specifier@]);
        }
        l
    }

    /// The specifier the loader wants fetched next, if the graph is not yet
    /// fully loaded.
    pub fn next_request(&self) -> (r: Option<&ModuleSpecifier>)
        ensures
            r is Some <==> self.pending_views().len() > 0,
            r matches Some(m) ==> m@ == self.pending_views().last(),
    {
        if self.pending.len() == 0 {
            None
        } else {
            let m = &self.pending[self.pending.len() - 1];
            proof {
                assert(m@ == self.pending_views().last());
            }
            Some(m)
        }
    }

    /// The source text to use for the requested module in place of a fetch:
    /// before anything has been fetched the pending module is the entry, and
    /// an inline source, when one was given, stands in for the entry's text.
    /// Every later request must be fetched.
    pub fn inline_for_next(&self) -> (r: Option<&String>)
        ensures
            r is Some <==> (self.loaded_views().len() == 0 && self.pending_views().len() > 0
                && self.inline_source is Some),
            r matches Some(t) ==> (self.inline_source matches Some(u) && t == u),
    {
        if self.loaded.len() == 0 && self.pending.len() > 0 {
            match &self.inline_source {
                Some(t) => Some(t),
                None => None,
            }
        } else {
            None
        }
    }

    /// Whether every reachable module has been fetched.
    pub fn is_complete(&self) -> (r: bool)
        ensures
            r == (self.pending_views().len() == 0),
    {
        self.pending.len() == 0
    }

    /// How many modules have been fetched.
    pub fn loaded_count(&self) -> (r: usize)
        ensures
            r == self.loaded_views().len(),
    {
        self.loaded.len()
    }

    /// How many distinct specifiers this load has resolved: one resolution
    /// per specifier, fetched or still pending.
    pub fn resolve_count(&self) -> (r: usize)
        requires
            self.seen().len() <= usize::MAX,
        ensures
            r == self.seen().len(),
    {
        self.loaded.len() + self.pending.len()
    }

    /// Records that the module requested last has been fetched, `imports`
    /// being the specifier texts of its direct imports.  The module moves to
    /// the fetched row and each import never seen before is enqueued, each
    /// seen before is left alone — so a cyclic reference never re-fetches.
    /// If any import text is invalid the whole module is rejected and the
    /// loader is left exactly as it was: nothing is partially registered.
    pub fn supply(&mut self, imports: &Vec<String>) -> (r: Result<(), LoadError>)
        requires
            old(self).wf(),
            old(self).pending_views().len() > 0,
        ensures
            final(self).wf(),
            r is Ok <==> (forall|j: int|
                0 <= j < imports@.len() ==> parsed_specifier(imports@[j]@) is Some),
            r is Err ==> *final(self) == *old(self) && r == Err::<(), LoadError>(
                LoadError::InvalidSpecifier,
            ),
            r is Ok ==> final(self).loaded_views() == old(self).loaded_views().push(
                old(self).pending_views().last(),
            ),
            r is Ok ==> final(self).pending_views() == after_enqueue(
                old(self).loaded_views().push(old(self).pending_views().last()) + old(
                    self,
                ).pending_views().drop_last(),
                old(self).pending_views().drop_last(),
                resolved_imports(imports@),
            ).1,
            final(self).entry == old(self).entry,
            final(self).inline_source == old(self).inline_source,
            final(self).is_prefetch == old(self).is_prefetch,
            final(self).import_id == old(self).import_id,
            final(self).referrer == old(self).referrer,
    {
        let mut resolved_list: Vec<ModuleSpecifier> = Vec::new();
        let mut j: usize = 0;
        while j < imports.len()
            invariant
                *self == *old(self),
                old(self).wf(),
                old(self).pending_views().len() > 0,
                j <= imports@.len(),
                resolved_list@.len() == j,
                forall|k: int| 0 <= k < j ==> parsed_specifier(imports@[k]@) is Some,
                forall|k: int|
                    0 <= k < j ==> #[trigger] resolved_list@[k]@ == parsed_specifier(
                        imports@[k]@,
                    ).unwrap(),
            decreases imports@.len() - j,
        {
            match ModuleSpecifier::resolve(imports[j].as_str()) {
                Ok(m) => {
                    resolved_list.push(m);
                },
                Err(_) => {
                    return Err(LoadError::InvalidSpecifier);
                },
            }
            j += 1;
        }

        let last = self.pending.len() - 1;
        let fetched = self.pending.remove(last);
        self.loaded.push(fetched);

        let ghost base = *self;
        let ghost seen0 = base.seen();
        let ghost pend0 = base.pending_views();
        let ghost rviews = resolved_imports(imports@);
        proof {
            assert(base.loaded_views() =~= old(self).loaded_views().push(
                old(self).pending_views().last(),
            ));
            assert(base.pending_views() =~= old(self).pending_views().drop_last());
            assert(base.wf()) by {
                let s_old = old(self).seen();
                assert forall|a: int, b: int|
                    0 <= a < seen0.len() && 0 <= b < seen0.len() && a != b implies seen0[a]
                    != seen0[b] by {
                    let n = old(self).loaded_views().len();
                    let p = old(self).pending_views().len();
                    let map_back = |i: int|
                        if i <= n {
                            if i < n {
                                i
                            } else {
                                n + p - 1
                            }
                        } else {
                            i - 1
                        };
                    assert(seen0[a] == s_old[map_back(a)]);
                    assert(seen0[b] == s_old[map_back(b)]);
                }
            }
            assert(rviews.len() == resolved_list@.len());
        }

        let mut k: usize = 0;
        while k < resolved_list.len()
            invariant
                k <= resolved_list@.len(),
                rviews.len() == resolved_list@.len(),
                forall|t: int|
                    0 <= t < resolved_list@.len() ==> #[trigger] resolved_list@[t]@ == rviews[t],
                self.entry == base.entry,
                self.inline_source == base.inline_source,
                self.is_prefetch == base.is_prefetch,
                self.import_id == base.import_id,
                self.referrer == base.referrer,
                self.loaded == base.loaded,
                self.seen() == after_enqueue(seen0, pend0, rviews.take(k as int)).0,
                self.pending_views() == after_enqueue(seen0, pend0, rviews.take(k as int)).1,
                self.wf(),
            decreases resolved_list@.len() - k,
        {
            let ghost pre = after_enqueue(seen0, pend0, rviews.take(k as int));
            let ghost x = rviews[k as int];
            proof {
                assert(rviews.take(k + 1 as int).drop_last() =~= rviews.take(k as int));
                assert(rviews.take(k + 1 as int).last() == x);
            }
            let in_loaded = contains_specifier(&self.loaded, &resolved_list[k]);
            let in_pending = contains_specifier(&self.pending, &resolved_list[k]);
            proof {
                assert(self.loaded_views().contains(x) <==> (exists|i: int|
                    0 <= i < self.loaded@.len() && #[trigger] self.loaded@[i]@ == x)) by {
                    if self.loaded_views().contains(x) {
                        let i = choose|i: int|
                            0 <= i < self.loaded_views().len() && self.loaded_views()[i] == x;
                        assert(self.loaded@[i]@ == x);
                    }
                    if exists|i: int| 0 <= i < self.loaded@.len() && #[trigger] self.loaded@[i]@
                        == x {
                        let i = choose|i: int|
                            0 <= i < self.loaded@.len() && #[trigger] self.loaded@[i]@ == x;
                        assert(self.loaded_views()[i] == x);
                    }
                }
                assert(self.pending_views().contains(x) <==> (exists|i: int|
                    0 <= i < self.pending@.len() && #[trigger] self.pending@[i]@ == x)) by {
                    if self.pending_views().contains(x) {
                        let i = choose|i: int|
                            0 <= i < self.pending_views().len() && self.pending_views()[i] == x;
                        assert(self.pending@[i]@ == x);
                    }
                    if exists|i: int| 0 <= i < self.pending@.len() && #[trigger] self.pending@[i]@
                        == x {
                        let i = choose|i: int|
                            0 <= i < self.pending@.len() && #[trigger] self.pending@[i]@ == x;
                        assert(self.pending_views()[i] == x);
                    }
                }
                assert(self.seen().contains(x) <==> (self.loaded_views().contains(x)
                    || self.pending_views().contains(x))) by {
                    let lv = self.loaded_views();
                    let pv = self.pending_views();
                    let s = self.seen();
                    if s.contains(x) {
                        let i = choose|i: int| 0 <= i < s.len() && s[i] == x;
                        if i < lv.len() {
                            assert(lv[i] == x);
                        } else {
                            assert(pv[i - lv.len()] == x);
                        }
                    }
                    if lv.contains(x) {
                        let i = choose|i: int| 0 <= i < lv.len() && lv[i] == x;
                        assert(s[i] == x);
                    }
                    if pv.contains(x) {
                        let i = choose|i: int| 0 <= i < pv.len() && pv[i] == x;
                        assert(s[lv.len() + i] == x);
                    }
                }
            }
            if !in_loaded && !in_pending {
                proof {
                    assert(!pre.0.contains(x));
                }
                self.pending.push(resolved_list[k].clone());
                proof {
                    assert(self.pending_views() =~= pre.1.push(x));
                    assert(self.seen() =~= pre.0.push(x));
                    assert(self.seen() == after_enqueue(seen0, pend0, rviews.take(
                        k + 1 as int,
                    )).0);
                    assert forall|a: int, b: int|
                        0 <= a < self.seen().len() && 0 <= b < self.seen().len() && a
                        != b implies self.seen()[a] != self.seen()[b] by {
                        let s = self.seen();
                        if a < s.len() - 1 && b < s.len() - 1 {
                            assert(pre.0[a] != pre.0[b]);
                        } else if a == s.len() - 1 {
                            assert(s[b] == pre.0[b]);
                            assert(!pre.0.contains(x));
                        } else {
                            assert(s[a] == pre.0[a]);
                            assert(!pre.0.contains(x));
                        }
                    }
                }
            } else {
                proof {
                    assert(pre.0.contains(x));
                    assert(after_enqueue(seen0, pend0, rviews.take(k + 1 as int)) == pre);
                }
            }
            k += 1;
        }
        proof {
            assert(rviews.take(resolved_list@.len() as int) =~= rviews);
        }
        Ok(())
    }
}

/// Whether `v` holds a specifier with the same text as `s`.
fn contains_specifier(v: &Vec<ModuleSpecifier>, s: &ModuleSpecifier) -> (r: bool)
    ensures
        r == (exists|i: int| 0 <= i < v@.len() && #[trigger] v@[i]@ == s@),
{
    let mut i: usize = 0;
    while i < v.len()
        invariant
            i <= v@.len(),
            forall|t: int| 0 <= t < i ==> #[trigger] v@[t]@ != s@,
        decreases v@.len() - i,
    {
        if v[i].same_as(s) {
            return true;
        }
        i += 1;
    }
    false
}

/// Law: no module is loaded twice.  The loader's record of fetched modules
/// never holds a specifier twice, even when imports refer to one another
/// cyclically; and since every successful supply also moves exactly one
/// pending module into that record, a graph with finitely many distinct
/// specifiers always finishes loading — a cycle cannot deadlock it.
pub proof fn lemma_each_module_loaded_at_most_once(l: ModuleLoad)
    requires
        l.wf(),
    ensures
        l.loaded_views().no_duplicates(),
        l.pending_views().no_duplicates(),
{
    let lv = l.loaded_views();
    let pv = l.pending_views();
    let s = l.seen();
    assert forall|i: int, j: int|
        0 <= i < lv.len() && 0 <= j < lv.len() && i != j implies lv[i] != lv[j] by {
        assert(s[i] == lv[i]);
        assert(s[j] == lv[j]);
    }
    assert forall|i: int, j: int|
        0 <= i < pv.len() && 0 <= j < pv.len() && i != j implies pv[i] != pv[j] by {
        assert(s[lv.len() + i] == pv[i]);
        assert(s[lv.len() + j] == pv[j]);
    }
}

/// Law: every distinct module specifier is resolved exactly once.  The
/// resolve count — one resolution per specifier the loader ever enqueued —
/// equals the number of distinct specifiers seen, so an acyclic graph of n
/// distinct modules is resolved exactly n times.
pub proof fn lemma_resolve_count_counts_distinct_specifiers(l: ModuleLoad)
    requires
        l.wf(),
    ensures
        l.seen().len() == l.seen().to_set().len(),
{
    l.seen().unique_seq_to_set();
}

/// The specifier texts a module table serves, one per row.
pub open spec fn table_keys(table: Seq<(ModuleSpecifier, Vec<String>)>) -> Seq<Seq<char>> {
    table.map_values(|row: (ModuleSpecifier, Vec<String>)| row.0@)
}

/// Whether some row of the table carries an import text that the specifier
/// parser rejects.
pub open spec fn table_has_invalid_import(table: Seq<(ModuleSpecifier, Vec<String>)>) -> bool {
    exists|i: int, j: int|
        0 <= i < table.len() && 0 <= j < table[i].1@.len() && parsed_specifier(
            #[trigger] table[i].1@[j]@,
        ) is None
}

/// The imports of the table row for `s`, if the table has one.
fn find_imports<'a>(table: &'a Vec<(ModuleSpecifier, Vec<String>)>, s: &ModuleSpecifier) -> (r:
    Option<&'a Vec<String>>)
    ensures
        r is Some <==> (exists|j: int| 0 <= j < table@.len() && #[trigger] table@[j].0@ == s@),
        r matches Some(v) ==> (exists|j: int|
            0 <= j < table@.len() && #[trigger] table@[j].0@ == s@ && table@[j].1 == *v),
{
    let mut i: usize = 0;
    while i < table.len()
        invariant
            i <= table@.len(),
            forall|t: int| 0 <= t < i ==> #[trigger] table@[t].0@ != s@,
        decreases table@.len() - i,
    {
        if table[i].0.same_as(s) {
            proof {
                assert(table@[i as int].0@ == s@);
            }
            return Some(&table[i].1);
        }
        i += 1;
    }
    None
}

/// Law (in executable form): loading never deadlocks.  Drives `load` to
/// completion against a module table — the graph a loader collaborator would
/// serve from memory — fetching each requested module's imports from the
/// table.  The loop is proved to terminate for every table and every starting
/// state: no module is ever fetched twice, so the fetched row can only grow
/// up to the number of table rows, even when the graph is cyclic.
pub fn load_graph(load: &mut ModuleLoad, table: &Vec<(ModuleSpecifier, Vec<String>)>) -> (r:
    Result<(), LoadError>)
    requires
        old(load).wf(),
        forall|i: int|
            0 <= i < old(load).loaded_views().len() ==> table_keys(table@).contains(
                #[trigger] old(load).loaded_views()[i],
            ),
    ensures
        final(load).wf(),
        r is Ok ==> final(load).pending_views().len() == 0,
        r == Err::<(), LoadError>(LoadError::FetchFailed) ==> (final(load).pending_views().len()
            > 0 && !table_keys(table@).contains(final(load).pending_views().last())),
        r == Err::<(), LoadError>(LoadError::InvalidSpecifier) ==> table_has_invalid_import(
            table@,
        ),
{
    proof {
        lemma_each_module_loaded_at_most_once(*load);
        let keys = table_keys(table@);
        let lv = load.loaded_views();
        lv.unique_seq_to_set();
        assert forall|x: Seq<char>| lv.to_set().contains(x) implies keys.to_set().contains(
            x,
        ) by {
            let i = choose|i: int| 0 <= i < lv.len() && lv[i] == x;
            assert(keys.contains(x));
        }
        vstd::set_lib::lemma_len_subset(lv.to_set(), keys.to_set());
        keys.lemma_cardinality_of_set();
    }
    let mut done = load.is_complete();
    while !done
        invariant
            load.wf(),
            done == (load.pending_views().len() == 0),
            forall|i: int|
                0 <= i < load.loaded_views().len() ==> table_keys(table@).contains(
                    #[trigger] load.loaded_views()[i],
                ),
            load.loaded_views().len() <= table@.len(),
        decreases table@.len() - load.loaded_views().len(),
    {
        let next = match load.next_request() {
            Some(m) => m.clone(),
            None => {
                proof {
                    assert(false);
                }
                return Err(LoadError::FetchFailed);
            },
        };
        let imports = match find_imports(table, &next) {
            Some(imports) => imports,
            None => {
                proof {
                    let keys = table_keys(table@);
                    if keys.contains(load.pending_views().last()) {
                        let j = choose|j: int| 0 <= j < keys.len() && keys[j] == next@;
                        assert(table@[j].0@ == next@);
                    }
                }
                return Err(LoadError::FetchFailed);
            },
        };
        let supplied = load.supply(imports);
        match supplied {
            Ok(()) => {},
            Err(e) => {
                proof {
                    let j = choose|j: int|
                        0 <= j < table@.len() && #[trigger] table@[j].0@ == next@ && table@[j].1
                            == *imports;
                    assert(exists|kk: int|
                        0 <= kk < imports@.len() && parsed_specifier(
                            #[trigger] imports@[kk]@,
                        ) is None);
                    let k = choose|kk: int|
                        0 <= kk < imports@.len() && parsed_specifier(
                            #[trigger] imports@[kk]@,
                        ) is None;
                    assert(parsed_specifier(table@[j].1@[k]@) is None);
                }
                return Err(e);
            },
        }
        proof {
            let keys = table_keys(table@);
            let j = choose|j: int| 0 <= j < table@.len() && #[trigger] table@[j].0@ == next@;
            assert(keys[j] == next@);
            assert forall|i: int|
                0 <= i < load.loaded_views().len() implies keys.contains(
                #[trigger] load.loaded_views()[i],
            ) by {
                if i < load.loaded_views().len() - 1 {
                    assert(keys.contains(load.loaded_views()[i]));
                }
            }
            lemma_each_module_loaded_at_most_once(*load);
            let lv = load.loaded_views();
            lv.unique_seq_to_set();
            assert forall|x: Seq<char>| lv.to_set().contains(x) implies keys.to_set().contains(
                x,
            ) by {
                let i = choose|i: int| 0 <= i < lv.len() && lv[i] == x;
                assert(keys.contains(x));
            }
            vstd::set_lib::lemma_len_subset(lv.to_set(), keys.to_set());
            keys.lemma_cardinality_of_set();
        }
        done = load.is_complete();
    }
    Ok(())
}

} // verus!
