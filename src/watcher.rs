use vstd::prelude::*;
use crate::path_key::{is_key, opt_view, project_root_key, root_key};

verus! {

/// Debounce window used when a caller names none: three minutes.
pub const DEFAULT_DEBOUNCE_MS: u64 = 180000;

/// The debounce window that a watch is built with.
pub fn effective_debounce_ms(debounce_ms: Option<u64>) -> (r: u64)
    ensures
        r == match debounce_ms {
            Some(ms) => ms,
            None => DEFAULT_DEBOUNCE_MS,
        },
{
    match debounce_ms {
        Some(ms) => ms,
        None => DEFAULT_DEBOUNCE_MS,
    }
}

/// The global switch as read from the persisted configuration: enabled
/// unless the configuration says otherwise or could not be read.
pub fn initial_auto_index(configured: Option<bool>) -> (r: bool)
    ensures
        r == match configured {
            Some(b) => b,
            None => true,
        },
{
    match configured {
        Some(b) => b,
        None => true,
    }
}

/// One active watch: the key of its project and the handle that owns the
/// underlying watch. Dropping the handle releases the watch.
pub struct WatchEntry<H> {
    pub key: String,
    pub handle: H,
}

/// What `start_watching` did.
#[derive(PartialEq, Eq, Structural, Clone, Copy, Debug)]
pub enum StartOutcome {
    /// The global switch is off: nothing was registered.
    Disabled,
    /// The project was already watched: the registry is unchanged.
    AlreadyWatching,
    /// A new watch was registered.
    Started,
}

/// The abstract state of a manager: the global switch, whether `\`
/// separates path components here, and the handle of each watched key.
pub ghost struct WatchState<H> {
    pub enabled: bool,
    pub backslash_separates: bool,
    pub handles: Map<Seq<char>, H>,
}

impl<H> WatchState<H> {
    pub open spec fn initial(enabled: bool, backslash_separates: bool) -> WatchState<H> {
        WatchState { enabled, backslash_separates, handles: Map::empty() }
    }

    pub open spec fn with_enabled(self, enabled: bool) -> WatchState<H> {
        WatchState { enabled, ..self }
    }

    /// The key a project root gets here.
    pub open spec fn key(self, resolved: Option<Seq<char>>, given: Seq<char>) -> Seq<char> {
        root_key(self.backslash_separates, resolved, given)
    }

    pub open spec fn watched(self) -> Set<Seq<char>> {
        self.handles.dom()
    }

    pub open spec fn is_watching(self, key: Seq<char>) -> bool {
        self.handles.contains_key(key)
    }

    pub open spec fn start_outcome(self, key: Seq<char>) -> StartOutcome {
        if !self.enabled {
            StartOutcome::Disabled
        } else if self.is_watching(key) {
            StartOutcome::AlreadyWatching
        } else {
            StartOutcome::Started
        }
    }

    pub open spec fn after_start(self, key: Seq<char>, handle: H) -> WatchState<H> {
        if self.start_outcome(key) == StartOutcome::Started {
            WatchState { handles: self.handles.insert(key, handle), ..self }
        } else {
            self
        }
    }

    pub open spec fn after_stop(self, key: Seq<char>) -> WatchState<H> {
        WatchState { handles: self.handles.remove(key), ..self }
    }

    pub open spec fn after_stop_all(self) -> WatchState<H> {
        WatchState { handles: Map::empty(), ..self }
    }
}

/// The registry of watched projects together with the global auto-index
/// switch. `H` is the handle type of the watch mechanism.
pub struct WatcherManager<H> {
    entries: Vec<WatchEntry<H>>,
    auto_index_enabled: bool,
    backslash_separates: bool,
}

impl<H> View for WatcherManager<H> {
    type V = WatchState<H>;

    closed spec fn view(&self) -> WatchState<H> {
        WatchState {
            enabled: self.auto_index_enabled,
            backslash_separates: self.backslash_separates,
            handles: Map::new(
                |k: Seq<char>| self.key_seq().contains(k),
                |k: Seq<char>| self.entries@[self.key_seq().index_of(k)].handle,
            ),
        }
    }
}

/// In a sequence without duplicates, the position of an element is the
/// only one that holds it.
proof fn lemma_unique_index<A>(s: Seq<A>, j: int)
    requires
        s.no_duplicates(),
        0 <= j < s.len(),
    ensures
        s.contains(s[j]),
        s.index_of(s[j]) == j,
{
    assert(s[j] == s[j]);
    let i = s.index_of(s[j]);
    assert(s[i] == s[j]);
}

impl<H> WatcherManager<H> {
    /// The keys of the registered watches, in registration order.
    pub closed spec fn key_seq(&self) -> Seq<Seq<char>> {
        self.entries@.map_values(|e: WatchEntry<H>| e.key@)
    }

    /// At most one watch per key, and every key is in normalised form.
    pub closed spec fn wf(&self) -> bool {
        &&& self.key_seq().no_duplicates()
        &&& forall|i: int| 0 <= i < self.key_seq().len() ==> is_key(self.backslash_separates, #[trigger] self.key_seq()[i])
    }

    /// Every watched key is in normalised form.
    pub proof fn lemma_keys_normalised(&self, k: Seq<char>)
        requires
            self.wf(),
            self@.is_watching(k),
        ensures
            is_key(self@.backslash_separates, k),
    {
        let i = self.key_seq().index_of(k);
        assert(self.key_seq()[i] == k);
    }

    /// Creates a manager with no watch and the given switch. Keys treat `\`
    /// as a separator only when `backslash_separates` is set.
    pub fn new(auto_index_enabled: bool, backslash_separates: bool) -> (r: Self)
        ensures
            r.wf(),
            r@ == WatchState::<H>::initial(auto_index_enabled, backslash_separates),
    {
        let r = WatcherManager { entries: Vec::new(), auto_index_enabled, backslash_separates };
        assert(r.key_seq() =~= Seq::<Seq<char>>::empty());
        assert(r@.handles =~= Map::<Seq<char>, H>::empty());
        r
    }

    pub fn is_auto_index_enabled(&self) -> (r: bool)
        ensures
            r == self@.enabled,
    {
        self.auto_index_enabled
    }

    /// Sets the global switch; existing watches are left as they are.
    pub fn set_auto_index_enabled(&mut self, enabled: bool)
        requires
            old(self).wf(),
        ensures
            final(self).wf(),
            final(self)@ == old(self)@.with_enabled(enabled),
    {
        self.auto_index_enabled = enabled;
        assert(self@.handles =~= old(self)@.handles);
    }

    /// The key of a project root: resolved is its canonical form, `None`
    /// when resolving failed; given is the path as the caller wrote it.
    pub fn key_for(&self, resolved: Option<&str>, given: &str) -> (r: String)
        ensures
            r@ == self@.key(opt_view(resolved), given@),
            is_key(self@.backslash_separates, r@),
    {
        project_root_key(self.backslash_separates, resolved, given)
    }

    /// The position of the watch for `key`, if any.
    fn find(&self, key: &String) -> (r: Option<usize>)
        ensures
            match r {
                Some(i) => i < self.key_seq().len() && self.key_seq()[i as int] == key@,
                None => !self.key_seq().contains(key@),
            },
    {
        let n = self.entries.len();
        let mut i: usize = 0;
        while i < n
            invariant
                n == self.entries@.len(),
                i <= n,
                forall|j: int| 0 <= j < i ==> self.key_seq()[j] != key@,
            decreases n - i,
        {
            if self.entries[i].key == *key {
                return Some(i);
            }
            i = i + 1;
        }
        None
    }

    /// Whether the project root is watched.
    pub fn is_watching(&self, resolved: Option<&str>, given: &str) -> (r: bool)
        ensures
            r == self@.is_watching(self@.key(opt_view(resolved), given@)),
    {
        let key = self.key_for(resolved, given);
        let found = self.find(&key);
        found.is_some()
    }

    /// Registers a watch for the project root unless the switch is off or
    /// the project is already watched. The check and the insertion happen in
    /// one call, so a caller that holds the manager exclusively never
    /// registers two watches for one key. A handle that is not registered is
    /// dropped, which releases it.
    pub fn start_watching(&mut self, resolved: Option<&str>, given: &str, handle: H) -> (r: StartOutcome)
        requires
            old(self).wf(),
        ensures
            final(self).wf(),
            r == old(self)@.start_outcome(old(self)@.key(opt_view(resolved), given@)),
            final(self)@ == old(self)@.after_start(old(self)@.key(opt_view(resolved), given@), handle),
    {
        if !self.auto_index_enabled {
            return StartOutcome::Disabled;
        }
        let project_key = self.key_for(resolved, given);
        if self.find(&project_key).is_some() {
            return StartOutcome::AlreadyWatching;
        }
        let ghost old_keys = self.key_seq();
        let ghost old_entries = self.entries@;
        let ghost k = project_key@;
        self.entries.push(WatchEntry { key: project_key, handle });
        assert(self.key_seq() =~= old_keys.push(k));
        proof {
            let ks = self.key_seq();
            assert forall|a: Seq<char>| #[trigger] ks.contains(a) <==> (old_keys.contains(a) || a == k) by {
                if old_keys.contains(a) {
                    let j = old_keys.index_of(a);
                    assert(ks[j] == a);
                }
                if a == k {
                    assert(ks[old_keys.len() as int] == a);
                }
                if ks.contains(a) && a != k {
                    let j = ks.index_of(a);
                    assert(old_keys[j] == a);
                }
            }
            assert forall|a: Seq<char>| old_keys.contains(a) implies #[trigger] ks.index_of(a) == old_keys.index_of(a) by {
                let j = old_keys.index_of(a);
                lemma_unique_index(ks, j);
            }
            lemma_unique_index(ks, old_keys.len() as int);
            assert(self@.handles =~= old(self)@.handles.insert(k, handle));
        }
        StartOutcome::Started
    }

    /// Removes the watch of the project root and hands back the handle that
    /// was registered under its key, for the caller to release; `None` when
    /// the project was not watched, which is no error.
    pub fn stop_watching(&mut self, resolved: Option<&str>, given: &str) -> (r: Option<H>)
        requires
            old(self).wf(),
        ensures
            final(self).wf(),
            r == (if old(self)@.is_watching(old(self)@.key(opt_view(resolved), given@)) {
                Some(old(self)@.handles[old(self)@.key(opt_view(resolved), given@)])
            } else {
                None
            }),
            final(self)@ == old(self)@.after_stop(old(self)@.key(opt_view(resolved), given@)),
    {
        let key = self.key_for(resolved, given);
        match self.find(&key) {
            None => {
                assert(self@.handles =~= self@.handles.remove(key@));
                None
            },
            Some(i) => {
                let ghost old_keys = self.key_seq();
                let ghost old_entries = self.entries@;
                let released = self.entries.remove(i);
                assert(self.key_seq() =~= old_keys.remove(i as int));
                proof {
                    let ks = self.key_seq();
                    assert forall|a: Seq<char>| #[trigger] ks.contains(a)
                        <==> old_keys.contains(a) && a != key@ by {
                        if old_keys.contains(a) && a != key@ {
                            let j = old_keys.index_of(a);
                            if j < i {
                                assert(ks[j] == a);
                            } else {
                                assert(ks[j - 1] == a);
                            }
                        }
                        if ks.contains(a) {
                            let j = ks.index_of(a);
                            if j < i {
                                assert(old_keys[j] == a);
                            } else {
                                assert(old_keys[j + 1] == a);
                            }
                        }
                    }
                    assert forall|a: Seq<char>| #[trigger] ks.contains(a) implies
                        self.entries@[ks.index_of(a)].handle == old_entries[old_keys.index_of(a)].handle by {
                        let j = ks.index_of(a);
                        if j < i {
                            lemma_unique_index(old_keys, j);
                        } else {
                            lemma_unique_index(old_keys, j + 1);
                        }
                    }
                    lemma_unique_index(old_keys, i as int);
                    assert(self@.handles =~= old(self)@.handles.remove(key@));
                    assert(released == old_entries[i as int]);
                }
                Some(released.handle)
            },
        }
    }

    /// Removes every watch, releasing every handle, and returns how many
    /// there were.
    pub fn stop_all(&mut self) -> (r: usize)
        requires
            old(self).wf(),
        ensures
            final(self).wf(),
            final(self)@ == old(self)@.after_stop_all(),
            r == old(self)@.watched().len(),
    {
        proof {
            self.key_seq().unique_seq_to_set();
            assert(self@.watched() =~= self.key_seq().to_set());
        }
        let n = self.entries.len();
        self.entries.clear();
        assert(self.key_seq() =~= Seq::<Seq<char>>::empty());
        assert(self@.handles =~= Map::<Seq<char>, H>::empty());
        n
    }

    /// The keys of all watched projects, each once, in registration order.
    pub fn get_watching_projects(&self) -> (r: Vec<String>)
        requires
            self.wf(),
        ensures
            r@.map_values(|s: String| s@).no_duplicates(),
            r@.map_values(|s: String| s@).to_set() == self@.watched(),
            forall|i: int| 0 <= i < r@.len() ==> is_key(self@.backslash_separates, #[trigger] r@[i]@),
    {
        let n = self.entries.len();
        let mut out: Vec<String> = Vec::new();
        let mut i: usize = 0;
        while i < n
            invariant
                n == self.entries@.len(),
                i <= n,
                out@.len() == i,
                forall|j: int| 0 <= j < i ==> #[trigger] out@[j]@ == self.key_seq()[j],
            decreases n - i,
        {
            let k = self.entries[i].key.clone();
            assert(k@ == self.key_seq()[i as int]);
            out.push(k);
            i = i + 1;
        }
        assert(out@.map_values(|s: String| s@) =~= self.key_seq());
        assert(self@.watched() =~= self.key_seq().to_set());
        proof {
            assert forall|i: int| 0 <= i < out@.len() implies is_key(self@.backslash_separates, #[trigger] out@[i]@) by {
                assert(out@[i]@ == self.key_seq()[i]);
            }
        }
        out
    }
}

/// Starting a watch twice in a row for one project leaves the registry as
/// the first call left it: the second call registers nothing and keeps the
/// first handle, and when the switch is on the project is watched.
pub proof fn lemma_start_idempotent<H>(s: WatchState<H>, key: Seq<char>, first: H, second: H)
    ensures
        s.after_start(key, first).after_start(key, second) == s.after_start(key, first),
        s.after_start(key, first).start_outcome(key) != StartOutcome::Started,
        s.enabled ==> s.after_start(key, first).is_watching(key),
{
}

/// Stopping a project that is not watched changes nothing.
pub proof fn lemma_stop_unwatched<H>(s: WatchState<H>, key: Seq<char>)
    requires
        !s.is_watching(key),
    ensures
        s.after_stop(key) == s,
{
    assert(s.handles.remove(key) =~= s.handles);
}

/// With the global switch off, starting a watch registers nothing.
pub proof fn lemma_start_disabled<H>(s: WatchState<H>, key: Seq<char>, handle: H)
    requires
        !s.enabled,
    ensures
        s.start_outcome(key) == StartOutcome::Disabled,
        s.after_start(key, handle) == s,
{
}

/// After stopping everything no project is watched or listed.
pub proof fn lemma_stop_all_empties<H>(s: WatchState<H>, key: Seq<char>)
    ensures
        s.after_stop_all().watched().is_empty(),
        !s.after_stop_all().is_watching(key),
{
}

} // verus!
