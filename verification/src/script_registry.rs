//! Registry of the scripts that are injected again whenever a page loads
//! or navigates.

use std::sync::{Arc, Mutex};
use vstd::prelude::*;

verus! {

/// How the content of a script entry is to be read.
#[derive(Debug, Clone, Copy, PartialEq, Eq, Structural)]
pub enum ScriptType {
    /// The content is JavaScript source, executed directly.
    Inline,
    /// The content is the URL of an external script file.
    Url,
}

/// A script kept in the registry.
#[derive(Debug)]
pub struct ScriptEntry {
    /// Unique identifier of the script; the key of the registry.
    pub id: String,
    /// Whether `content` is source text or a URL.
    pub script_type: ScriptType,
    /// JavaScript source, or the URL of a script file.
    pub content: String,
}

/// What a [`ScriptEntry`] holds, as mathematical values.
pub struct ScriptEntrySpec {
    pub id: Seq<char>,
    pub script_type: ScriptType,
    pub content: Seq<char>,
}

impl View for ScriptEntry {
    type V = ScriptEntrySpec;

    open spec fn view(&self) -> ScriptEntrySpec {
        ScriptEntrySpec { id: self.id@, script_type: self.script_type, content: self.content@ }
    }
}

impl Clone for ScriptEntry {
    fn clone(&self) -> (copy: Self)
        ensures
            copy == *self,
    {
        ScriptEntry {
            id: self.id.clone(),
            script_type: self.script_type,
            content: self.content.clone(),
        }
    }
}

/// No two entries of `entries` share an id.
pub open spec fn ids_distinct(entries: Seq<ScriptEntrySpec>) -> bool {
    forall|i: int, j: int|
        0 <= i < j < entries.len() ==> (#[trigger] entries[i]).id != (#[trigger] entries[j]).id
}

/// Some entry of `entries` has the id `id`.
pub open spec fn has_id(entries: Seq<ScriptEntrySpec>, id: Seq<char>) -> bool {
    exists|i: int| 0 <= i < entries.len() && (#[trigger] entries[i]).id == id
}

/// A position in `entries` at which `id` stands, where there is one.
pub open spec fn position_of(entries: Seq<ScriptEntrySpec>, id: Seq<char>) -> int {
    choose|i: int| 0 <= i < entries.len() && (#[trigger] entries[i]).id == id
}

/// The mapping from id to entry that a list of entries stands for.
pub open spec fn entries_map(entries: Seq<ScriptEntrySpec>) -> Map<Seq<char>, ScriptEntrySpec> {
    Map::new(|id: Seq<char>| has_id(entries, id), |id: Seq<char>| entries[position_of(entries, id)])
}

/// The list after `entry` has come in: it takes the place of the entry that
/// holds its id, or the end of the list where no entry holds it.
pub open spec fn with_entry(entries: Seq<ScriptEntrySpec>, entry: ScriptEntrySpec) -> Seq<
    ScriptEntrySpec,
> {
    if has_id(entries, entry.id) {
        entries.update(position_of(entries, entry.id), entry)
    } else {
        entries.push(entry)
    }
}

/// The list after the entry that holds `id` has been taken out, the others
/// keeping their order.
pub open spec fn without_id(entries: Seq<ScriptEntrySpec>, id: Seq<char>) -> Seq<ScriptEntrySpec> {
    if has_id(entries, id) {
        entries.remove(position_of(entries, id))
    } else {
        entries
    }
}

/// A change to a registry.
pub enum RegistryOp {
    /// `add` of this entry.
    Add(ScriptEntrySpec),
    /// `remove` of this id.
    Remove(Seq<char>),
    /// `clear`.
    Clear,
}

/// The entries of a registry after one change.
pub open spec fn entries_after(entries: Seq<ScriptEntrySpec>, op: RegistryOp) -> Seq<
    ScriptEntrySpec,
> {
    match op {
        RegistryOp::Add(entry) => with_entry(entries, entry),
        RegistryOp::Remove(id) => without_id(entries, id),
        RegistryOp::Clear => Seq::empty(),
    }
}

/// What one change does to the mapping from id to entry.
pub open spec fn mapping_after(mapping: Map<Seq<char>, ScriptEntrySpec>, op: RegistryOp) -> Map<
    Seq<char>,
    ScriptEntrySpec,
> {
    match op {
        RegistryOp::Add(entry) => mapping.insert(entry.id, entry),
        RegistryOp::Remove(id) => mapping.remove(id),
        RegistryOp::Clear => Map::empty(),
    }
}

/// The entries of a registry after a run of changes, first to last.
pub open spec fn entries_after_all(entries: Seq<ScriptEntrySpec>, ops: Seq<RegistryOp>) -> Seq<
    ScriptEntrySpec,
>
    decreases ops.len(),
{
    if ops.len() == 0 {
        entries
    } else {
        entries_after(entries_after_all(entries, ops.drop_last()), ops.last())
    }
}

/// What a run of changes, first to last, does to the mapping.
pub open spec fn mapping_after_all(
    mapping: Map<Seq<char>, ScriptEntrySpec>,
    ops: Seq<RegistryOp>,
) -> Map<Seq<char>, ScriptEntrySpec>
    decreases ops.len(),
{
    if ops.len() == 0 {
        mapping
    } else {
        mapping_after(mapping_after_all(mapping, ops.drop_last()), ops.last())
    }
}

/// In a list without repeated ids an id stands at one position only.
pub proof fn lemma_position_unique(entries: Seq<ScriptEntrySpec>, i: int)
    requires
        ids_distinct(entries),
        0 <= i < entries.len(),
    ensures
        has_id(entries, entries[i].id),
        position_of(entries, entries[i].id) == i,
        entries_map(entries)[entries[i].id] == entries[i],
{
    let id = entries[i].id;
    let p = position_of(entries, id);
    assert(0 <= p < entries.len() && entries[p].id == id);
    if p < i {
        assert(entries[p].id != entries[i].id);
    } else if i < p {
        assert(entries[i].id != entries[p].id);
    }
}

/// Appending an entry under a new id inserts it into the mapping.
pub proof fn lemma_push_inserts(entries: Seq<ScriptEntrySpec>, entry: ScriptEntrySpec)
    requires
        ids_distinct(entries),
        !has_id(entries, entry.id),
    ensures
        ids_distinct(entries.push(entry)),
        entries_map(entries.push(entry)) == entries_map(entries).insert(entry.id, entry),
{
    let after = entries.push(entry);
    assert forall|i: int, j: int| 0 <= i < j < after.len() implies (#[trigger] after[i]).id != (
    #[trigger] after[j]).id by {
        if j < entries.len() {
            assert(entries[i].id != entries[j].id);
        } else {
            assert(after[i] == entries[i]);
        }
    }
    assert forall|id: Seq<char>| has_id(after, id) <==> (has_id(entries, id) || id == entry.id) by {
        if has_id(after, id) {
            let p = position_of(after, id);
            if p < entries.len() {
                assert(entries[p].id == id);
            }
        }
        if has_id(entries, id) {
            let p = position_of(entries, id);
            assert(after[p].id == id);
        }
        if id == entry.id {
            assert(after[entries.len() as int].id == id);
        }
    }
    assert forall|id: Seq<char>| has_id(after, id) implies #[trigger] entries_map(after)[id]
        == entries_map(entries).insert(entry.id, entry)[id] by {
        if id == entry.id {
            lemma_position_unique(after, entries.len() as int);
        } else {
            let p = position_of(entries, id);
            assert(after[p] == entries[p]);
            lemma_position_unique(after, p);
            lemma_position_unique(entries, p);
        }
    }
    assert(entries_map(after) =~= entries_map(entries).insert(entry.id, entry));
}

/// Overwriting the entry that holds an id replaces what the mapping gives for it.
pub proof fn lemma_update_inserts(entries: Seq<ScriptEntrySpec>, i: int, entry: ScriptEntrySpec)
    requires
        ids_distinct(entries),
        0 <= i < entries.len(),
        entries[i].id == entry.id,
    ensures
        ids_distinct(entries.update(i, entry)),
        entries_map(entries.update(i, entry)) == entries_map(entries).insert(entry.id, entry),
{
    let after = entries.update(i, entry);
    assert forall|a: int, b: int| 0 <= a < b < after.len() implies (#[trigger] after[a]).id != (
    #[trigger] after[b]).id by {
        assert(after[a].id == entries[a].id);
        assert(after[b].id == entries[b].id);
    }
    assert forall|id: Seq<char>| has_id(after, id) <==> has_id(entries, id) by {
        if has_id(after, id) {
            let p = position_of(after, id);
            assert(entries[p].id == id);
        }
        if has_id(entries, id) {
            let p = position_of(entries, id);
            assert(after[p].id == id);
        }
    }
    assert(has_id(entries, entry.id)) by {
        assert(entries[i].id == entry.id);
    }
    assert forall|id: Seq<char>| has_id(after, id) implies #[trigger] entries_map(after)[id]
        == entries_map(entries).insert(entry.id, entry)[id] by {
        if id == entry.id {
            lemma_position_unique(after, i);
        } else {
            let p = position_of(entries, id);
            assert(after[p] == entries[p]);
            lemma_position_unique(after, p);
            lemma_position_unique(entries, p);
        }
    }
    assert(entries_map(after) =~= entries_map(entries).insert(entry.id, entry));
}

/// Taking an entry out of the list removes its id from the mapping.
pub proof fn lemma_remove_removes(entries: Seq<ScriptEntrySpec>, i: int)
    requires
        ids_distinct(entries),
        0 <= i < entries.len(),
    ensures
        ids_distinct(entries.remove(i)),
        entries_map(entries.remove(i)) == entries_map(entries).remove(entries[i].id),
{
    let after = entries.remove(i);
    let gone = entries[i].id;
    assert forall|a: int, b: int| 0 <= a < b < after.len() implies (#[trigger] after[a]).id != (
    #[trigger] after[b]).id by {
        let a0 = if a < i { a } else { a + 1 };
        let b0 = if b < i { b } else { b + 1 };
        assert(after[a] == entries[a0]);
        assert(after[b] == entries[b0]);
        assert(entries[a0].id != entries[b0].id);
    }
    assert forall|id: Seq<char>| has_id(after, id) <==> (has_id(entries, id) && id != gone) by {
        if has_id(after, id) {
            let p = position_of(after, id);
            let p0 = if p < i { p } else { p + 1 };
            assert(after[p] == entries[p0]);
            assert(entries[p0].id == id);
            if p0 < i {
                assert(entries[p0].id != entries[i].id);
            } else {
                assert(entries[i].id != entries[p0].id);
            }
        }
        if has_id(entries, id) && id != gone {
            let p = position_of(entries, id);
            let q = if p < i { p } else { p - 1 };
            assert(after[q] == entries[p]);
            assert(after[q].id == id);
        }
    }
    assert forall|id: Seq<char>| has_id(after, id) implies #[trigger] entries_map(after)[id]
        == entries_map(entries).remove(gone)[id] by {
        let p = position_of(entries, id);
        let q = if p < i { p } else { p - 1 };
        assert(after[q] == entries[p]);
        lemma_position_unique(after, q);
        lemma_position_unique(entries, p);
    }
    assert(entries_map(after) =~= entries_map(entries).remove(gone));
}

/// A list without repeated ids stands for a finite mapping with one key per
/// entry.
pub proof fn lemma_distinct_ids_counted(entries: Seq<ScriptEntrySpec>)
    requires
        ids_distinct(entries),
    ensures
        entries_map(entries).dom().finite(),
        entries_map(entries).dom().len() == entries.len(),
    decreases entries.len(),
{
    if entries.len() == 0 {
        assert(entries_map(entries).dom() =~= Set::<Seq<char>>::empty());
    } else {
        let front = entries.drop_last();
        let last = entries.last();
        assert(ids_distinct(front)) by {
            assert forall|i: int, j: int| 0 <= i < j < front.len() implies (#[trigger] front[i]).id
                != (#[trigger] front[j]).id by {
                assert(entries[i].id != entries[j].id);
            }
        }
        assert(!has_id(front, last.id)) by {
            if has_id(front, last.id) {
                let p = position_of(front, last.id);
                assert(entries[p].id != entries[entries.len() - 1].id);
            }
        }
        lemma_distinct_ids_counted(front);
        lemma_push_inserts(front, last);
        assert(front.push(last) =~= entries);
        assert(entries_map(entries).dom() =~= entries_map(front).dom().insert(last.id));
    }
}

/// One change keeps a registry a registry: no id comes to stand twice, and
/// the mapping changes as the change says.
pub proof fn lemma_change_keeps_registry(entries: Seq<ScriptEntrySpec>, op: RegistryOp)
    requires
        ids_distinct(entries),
    ensures
        ids_distinct(entries_after(entries, op)),
        entries_map(entries_after(entries, op)) == mapping_after(entries_map(entries), op),
{
    match op {
        RegistryOp::Add(entry) => {
            if has_id(entries, entry.id) {
                lemma_update_inserts(entries, position_of(entries, entry.id), entry);
            } else {
                lemma_push_inserts(entries, entry);
            }
        },
        RegistryOp::Remove(id) => {
            if has_id(entries, id) {
                lemma_remove_removes(entries, position_of(entries, id));
            } else {
                assert(entries_map(entries) =~= entries_map(entries).remove(id));
            }
        },
        RegistryOp::Clear => {
            assert(entries_map(Seq::<ScriptEntrySpec>::empty()) =~= Map::<
                Seq<char>,
                ScriptEntrySpec,
            >::empty());
        },
    }
}

/// After any run of `add`, `remove` and `clear` on an empty registry, the
/// registry holds one entry per id, its mapping is what the run makes of the
/// empty mapping, and its length is the number of distinct ids present.
pub proof fn lemma_length_counts_ids(ops: Seq<RegistryOp>)
    ensures
        ids_distinct(entries_after_all(Seq::empty(), ops)),
        entries_map(entries_after_all(Seq::empty(), ops)) == mapping_after_all(Map::empty(), ops),
        entries_map(entries_after_all(Seq::empty(), ops)).dom().finite(),
        entries_after_all(Seq::empty(), ops).len() == mapping_after_all(
            Map::empty(),
            ops,
        ).dom().len(),
    decreases ops.len(),
{
    let start = Seq::<ScriptEntrySpec>::empty();
    if ops.len() == 0 {
        assert(entries_map(start) =~= Map::<Seq<char>, ScriptEntrySpec>::empty());
    } else {
        lemma_length_counts_ids(ops.drop_last());
        lemma_change_keeps_registry(entries_after_all(start, ops.drop_last()), ops.last());
    }
    lemma_distinct_ids_counted(entries_after_all(start, ops));
}

/// Adding an entry under an id that is present replaces what is held under
/// that id and leaves the number of entries as it was.
pub proof fn lemma_replacing_keeps_length(entries: Seq<ScriptEntrySpec>, entry: ScriptEntrySpec)
    requires
        ids_distinct(entries),
        has_id(entries, entry.id),
    ensures
        with_entry(entries, entry).len() == entries.len(),
        entries_map(with_entry(entries, entry)).dom() == entries_map(entries).dom(),
        entries_map(with_entry(entries, entry))[entry.id] == entry,
{
    lemma_update_inserts(entries, position_of(entries, entry.id), entry);
    assert(entries_map(entries).insert(entry.id, entry).dom() =~= entries_map(entries).dom());
}

/// Adding an entry under an id that is not present makes the registry one
/// entry longer.
pub proof fn lemma_new_id_adds_one(entries: Seq<ScriptEntrySpec>, entry: ScriptEntrySpec)
    requires
        ids_distinct(entries),
        !has_id(entries, entry.id),
    ensures
        with_entry(entries, entry).len() == entries.len() + 1,
        entries_map(with_entry(entries, entry)).dom() == entries_map(entries).dom().insert(
            entry.id,
        ),
        entries_map(with_entry(entries, entry))[entry.id] == entry,
{
    lemma_push_inserts(entries, entry);
    assert(entries_map(entries).insert(entry.id, entry).dom() =~= entries_map(
        entries,
    ).dom().insert(entry.id));
}

/// The scripts that are injected again on every page load, keyed by id.
///
/// As a mathematical value (`registry@`) a registry is the mapping from id
/// to entry. Entries are kept in the order in which their ids first came
/// in, which is the order [`ScriptRegistry::get_all`] lists them in.
#[derive(Debug)]
pub struct ScriptRegistry {
    scripts: Vec<ScriptEntry>,
}

impl View for ScriptRegistry {
    type V = Map<Seq<char>, ScriptEntrySpec>;

    open spec fn view(&self) -> Map<Seq<char>, ScriptEntrySpec> {
        entries_map(self.entries())
    }
}

impl Default for ScriptRegistry {
    /// An empty registry.
    fn default() -> (registry: Self)
        ensures
            registry.entries() == Seq::<ScriptEntrySpec>::empty(),
            registry@ == Map::<Seq<char>, ScriptEntrySpec>::empty(),
    {
        ScriptRegistry::new()
    }
}

impl ScriptRegistry {
    /// The entries held, in the order in which their ids first came in.
    pub closed spec fn entries(&self) -> Seq<ScriptEntrySpec> {
        self.scripts@.map_values(|entry: ScriptEntry| entry@)
    }

    /// At most one entry per id.
    #[verifier::type_invariant]
    spec fn one_entry_per_id(&self) -> bool {
        ids_distinct(self.entries())
    }

    /// Creates an empty registry.
    pub fn new() -> (registry: Self)
        ensures
            registry.entries() == Seq::<ScriptEntrySpec>::empty(),
            registry@ == Map::<Seq<char>, ScriptEntrySpec>::empty(),
    {
        let registry = ScriptRegistry { scripts: Vec::new() };
        assert(registry.entries() =~= Seq::<ScriptEntrySpec>::empty());
        assert(registry@ =~= Map::<Seq<char>, ScriptEntrySpec>::empty());
        registry
    }

    /// The position of the entry that holds `id`, if there is one.
    fn position(&self, id: &String) -> (found: Option<usize>)
        ensures
            ids_distinct(self.entries()),
            match found {
                Some(i) => i < self.entries().len() && self.entries()[i as int].id == id@
                    && position_of(self.entries(), id@) == i,
                None => !has_id(self.entries(), id@),
            },
    {
        proof {
            use_type_invariant(self);
        }
        let mut i: usize = 0;
        while i < self.scripts.len()
            invariant
                i <= self.scripts.len(),
                ids_distinct(self.entries()),
                forall|k: int| 0 <= k < i ==> (#[trigger] self.entries()[k]).id != id@,
            decreases self.scripts.len() - i,
        {
            if self.scripts[i].id == *id {
                proof {
                    lemma_position_unique(self.entries(), i as int);
                }
                return Some(i);
            }
            i += 1;
        }
        None
    }

    /// Adds a script entry to the registry. An entry already held under the
    /// same id is replaced, where it stands; a new id goes to the end.
    pub fn add(&mut self, entry: ScriptEntry)
        ensures
            final(self)@ == old(self)@.insert(entry.id@, entry@),
            final(self).entries() == with_entry(old(self).entries(), entry@),
    {
        let found = self.position(&entry.id);
        let ghost before = self.entries();
        let ghost added = entry@;
        let mut scripts: Vec<ScriptEntry> = Vec::new();
        std::mem::swap(&mut scripts, &mut self.scripts);
        match found {
            Some(i) => {
                scripts.set(i, entry);
                proof {
                    lemma_update_inserts(before, i as int, added);
                    assert(scripts@.map_values(|e: ScriptEntry| e@) =~= before.update(
                        i as int,
                        added,
                    ));
                }
            },
            None => {
                scripts.push(entry);
                proof {
                    lemma_push_inserts(before, added);
                    assert(scripts@.map_values(|e: ScriptEntry| e@) =~= before.push(added));
                }
            },
        }
        self.scripts = scripts;
    }

    /// Removes the script held under `id` and returns it, or returns `None`
    /// where no script has that id. The other entries keep their order.
    pub fn remove(&mut self, id: &str) -> (removed: Option<ScriptEntry>)
        ensures
            final(self)@ == old(self)@.remove(id@),
            final(self).entries() == without_id(old(self).entries(), id@),
            match removed {
                Some(entry) => old(self)@.contains_key(id@) && entry@ == old(self)@[id@],
                None => !old(self)@.contains_key(id@),
            },
    {
        let key = id.to_owned();
        let found = self.position(&key);
        let ghost before = self.entries();
        match found {
            Some(i) => {
                let mut scripts: Vec<ScriptEntry> = Vec::new();
                std::mem::swap(&mut scripts, &mut self.scripts);
                let entry = scripts.remove(i);
                proof {
                    lemma_remove_removes(before, i as int);
                    lemma_position_unique(before, i as int);
                    assert(scripts@.map_values(|e: ScriptEntry| e@) =~= before.remove(i as int));
                }
                self.scripts = scripts;
                Some(entry)
            },
            None => {
                assert(self@ =~= self@.remove(id@));
                None
            },
        }
    }

    /// Gets the script held under `id`.
    pub fn get(&self, id: &str) -> (found: Option<&ScriptEntry>)
        ensures
            match found {
                Some(entry) => self@.contains_key(id@) && entry@ == self@[id@],
                None => !self@.contains_key(id@),
            },
    {
        let key = id.to_owned();
        match self.position(&key) {
            Some(i) => {
                proof {
                    lemma_position_unique(self.entries(), i as int);
                }
                Some(&self.scripts[i])
            },
            None => None,
        }
    }

    /// Checks whether a script is held under `id`.
    pub fn contains(&self, id: &str) -> (held: bool)
        ensures
            held == self@.contains_key(id@),
    {
        let key = id.to_owned();
        self.position(&key).is_some()
    }

    /// Gets all scripts in the registry, each once, in the order of
    /// `entries()`.
    pub fn get_all(&self) -> (all: Vec<&ScriptEntry>)
        ensures
            all@.len() == self.entries().len(),
            forall|i: int| 0 <= i < all@.len() ==> (#[trigger] all@[i])@ == self.entries()[i],
            ids_distinct(self.entries()),
            self@.dom().finite(),
            all@.len() == self@.dom().len(),
    {
        proof {
            use_type_invariant(self);
            lemma_distinct_ids_counted(self.entries());
        }
        let mut all: Vec<&ScriptEntry> = Vec::new();
        let mut i: usize = 0;
        while i < self.scripts.len()
            invariant
                i <= self.scripts.len(),
                all@.len() == i,
                forall|k: int| 0 <= k < i ==> (#[trigger] all@[k])@ == self.entries()[k],
            decreases self.scripts.len() - i,
        {
            all.push(&self.scripts[i]);
            i += 1;
        }
        all
    }

    /// Clears all scripts from the registry.
    pub fn clear(&mut self)
        ensures
            final(self)@ == Map::<Seq<char>, ScriptEntrySpec>::empty(),
            final(self).entries() == Seq::<ScriptEntrySpec>::empty(),
    {
        self.scripts = Vec::new();
        assert(self.entries() =~= Seq::<ScriptEntrySpec>::empty());
        assert(self@ =~= Map::<Seq<char>, ScriptEntrySpec>::empty());
    }

    /// Returns the number of scripts in the registry: the number of
    /// distinct ids present.
    pub fn len(&self) -> (count: usize)
        ensures
            self@.dom().finite(),
            count == self@.dom().len(),
            count == self.entries().len(),
    {
        proof {
            use_type_invariant(self);
            lemma_distinct_ids_counted(self.entries());
        }
        self.scripts.len()
    }

    /// Returns true if the registry holds no script.
    pub fn is_empty(&self) -> (empty: bool)
        ensures
            empty == (self@ == Map::<Seq<char>, ScriptEntrySpec>::empty()),
            empty == (self.entries().len() == 0),
    {
        proof {
            use_type_invariant(self);
            lemma_distinct_ids_counted(self.entries());
            if self.entries().len() == 0 {
                assert(self@ =~= Map::<Seq<char>, ScriptEntrySpec>::empty());
            }
        }
        self.scripts.len() == 0
    }
}

/// `std::sync::Mutex`, carried through as an opaque value.
#[verifier::external_type_specification]
#[verifier::external_body]
#[verifier::reject_recursive_types(T)]
pub struct ExMutex<T: ?Sized>(Mutex<T>);

/// The entries of the registry that a lock was made around. What the lock
/// holds afterwards changes under those who share it: of that nothing is
/// said, here or elsewhere.
pub uninterp spec fn made_around(lock: Mutex<ScriptRegistry>) -> Seq<ScriptEntrySpec>;

/// A registry that several callers share, each taking the lock for the
/// time of one operation.
pub type SharedScriptRegistry = Arc<Mutex<ScriptRegistry>>;

/// Creates a new shared script registry, empty at first.
pub fn create_shared_registry() -> (shared: SharedScriptRegistry)
    ensures
        made_around(*shared) == Seq::<ScriptEntrySpec>::empty(),
        entries_map(made_around(*shared)) == Map::<Seq<char>, ScriptEntrySpec>::empty(),
{
    let registry = ScriptRegistry::new();
    Arc::new(lock_around(registry))
}

/// `Mutex::new` on a registry: a new lock that guards `registry`. The
/// contract names what the lock was given and claims nothing else of it.
#[verifier::external_body]
fn lock_around(registry: ScriptRegistry) -> (lock: Mutex<ScriptRegistry>)
    ensures
        made_around(lock) == registry.entries(),
{
    Mutex::new(registry)
}

} // verus!
