//! The table of peer modules that a target module may import.
//!
//! Each accepted peer is offered under its bare name and under the name with
//! `.js` appended, so that both spellings of an import reach the same source.

use crate::loader::loader_add;
use crate::loader::loader_new;
use crate::loader::loader_sources;
use crate::loader::resolver_add;
use crate::loader::resolver_new;
use crate::loader::resolver_paths;
use crate::text::str_eq;
use rquickjs::loader::BuiltinLoader;
use rquickjs::loader::BuiltinResolver;
use vstd::prelude::*;
use vstd::string::StringSliceAdditionalSpecFns;
use vstd::utf8::encode_utf8;

verus! {

/// The second key under which a peer is offered.
pub open spec fn alias_of(name: Seq<char>) -> Seq<char> {
    name + ".js"@
}

/// Whether a caller-supplied entry is registered: its name and its source are
/// not empty, and it does not carry the target module's own name.
pub open spec fn accepts_peer(target: Seq<char>, name: Seq<char>, source: Seq<char>) -> bool {
    name.len() > 0 && source.len() > 0 && name != target
}

/// The table after one registration attempt.
pub open spec fn register_spec(
    target: Seq<char>,
    table: Map<Seq<char>, Seq<char>>,
    name: Seq<char>,
    source: Seq<char>,
) -> Map<Seq<char>, Seq<char>> {
    if accepts_peer(target, name, source) {
        table.insert(name, source).insert(alias_of(name), source)
    } else {
        table
    }
}

/// The table that a caller-supplied list of (name, source) pairs gives for
/// a target module: the pairs registered in order, a later one replacing an
/// earlier one under the same key.
pub open spec fn peer_map(target: Seq<char>, entries: Seq<(Seq<char>, Seq<char>)>) -> Map<
    Seq<char>,
    Seq<char>,
>
    decreases entries.len(),
{
    if entries.len() == 0 {
        Map::empty()
    } else {
        register_spec(
            target,
            peer_map(target, entries.drop_last()),
            entries.last().0,
            entries.last().1,
        )
    }
}

/// One key of the table with the source it leads to.
struct PeerSlot {
    key: String,
    source: String,
}

/// The map that a sequence of slots stands for: each slot inserted in order.
spec fn slots_map(slots: Seq<PeerSlot>) -> Map<Seq<char>, Seq<char>>
    decreases slots.len(),
{
    if slots.len() == 0 {
        Map::empty()
    } else {
        slots_map(slots.drop_last()).insert(slots.last().key@, slots.last().source@)
    }
}

/// The peer modules of one invocation, by import name.
pub struct PeerTable {
    target: String,
    slots: Vec<PeerSlot>,
}

impl View for PeerTable {
    type V = Map<Seq<char>, Seq<char>>;

    closed spec fn view(&self) -> Map<Seq<char>, Seq<char>> {
        slots_map(self.slots@)
    }
}

impl PeerTable {
    /// The name of the module that the table serves, which is never
    /// registered as its own peer.
    pub closed spec fn target(&self) -> Seq<char> {
        self.target@
    }

    /// What an import of `name` resolves to.
    pub open spec fn resolve_spec(&self, name: Seq<char>) -> Option<Seq<char>> {
        if self@.contains_key(name) {
            Some(self@[name])
        } else {
            None
        }
    }

    /// An empty table for the module named `target`.
    pub fn new(target: &str) -> (table: PeerTable)
        ensures
            table@ == Map::<Seq<char>, Seq<char>>::empty(),
            table.target() == target@,
    {
        PeerTable { target: String::from_str(target), slots: Vec::new() }
    }

    /// Registers `source` under `name` and under `name` with `.js` appended.
    /// An entry with an empty name, an empty source or the target's own name
    /// is skipped; the result says whether the entry was registered.
    pub fn register(&mut self, name: &str, source: &str) -> (registered: bool)
        ensures
            registered == accepts_peer(old(self).target(), name@, source@),
            final(self)@ == register_spec(old(self).target(), old(self)@, name@, source@),
            final(self).target() == old(self).target(),
    {
        if name.is_empty() || source.is_empty() || str_eq(name, self.target.as_str()) {
            return false;
        }
        let ghost before = self.slots@;
        self.slots.push(PeerSlot { key: String::from_str(name), source: String::from_str(source) });
        proof {
            assert(self.slots@.drop_last() =~= before);
            assert(slots_map(self.slots@) == slots_map(before).insert(name@, source@));
        }
        let ghost middle = self.slots@;
        self.slots.push(
            PeerSlot { key: String::from_str(name).concat(".js"), source: String::from_str(source) },
        );
        proof {
            assert(self.slots@.drop_last() =~= middle);
            assert(slots_map(self.slots@) == slots_map(middle).insert(alias_of(name@), source@));
        }
        true
    }

    /// The table for `target` filled from caller-supplied (name, source)
    /// pairs, in order.
    pub fn from_entries(target: &str, entries: &Vec<(String, String)>) -> (table: PeerTable)
        ensures
            table@ == peer_map(target@, entries.deep_view()),
            table.target() == target@,
    {
        let mut table = PeerTable::new(target);
        let mut i: usize = 0;
        while i < entries.len()
            invariant
                i <= entries.len(),
                table.target() == target@,
                table@ == peer_map(target@, entries.deep_view().take(i as int)),
            decreases entries.len() - i,
        {
            let ghost taken = entries.deep_view().take(i as int);
            table.register(entries[i].0.as_str(), entries[i].1.as_str());
            proof {
                let next = entries.deep_view().take(i + 1);
                assert(next.drop_last() =~= taken);
                assert(next.last() == entries.deep_view()[i as int]);
                assert(entries.deep_view()[i as int] == (entries@[i as int].0@, entries@[i as int].1@));
            }
            i += 1;
        }
        proof {
            assert(entries.deep_view().take(entries.len() as int) =~= entries.deep_view());
        }
        table
    }

    /// The source that an import of `name` resolves to, or `None` where the
    /// table offers no such module.
    pub fn resolve(&self, name: &str) -> (found: Option<&str>)
        ensures
            found matches Some(source) ==> self.resolve_spec(name@) == Some(source@),
            found is None ==> self.resolve_spec(name@) is None,
    {
        let mut i: usize = self.slots.len();
        proof {
            assert(self.slots@.take(i as int) =~= self.slots@);
        }
        while i > 0
            invariant
                i <= self.slots.len(),
                self@.contains_key(name@) == slots_map(self.slots@.take(i as int)).contains_key(
                    name@,
                ),
                self@.contains_key(name@) ==> self@[name@] == slots_map(
                    self.slots@.take(i as int),
                )[name@],
            decreases i,
        {
            proof {
                assert(self.slots@.take(i as int).drop_last() =~= self.slots@.take(i - 1));
            }
            i -= 1;
            if str_eq(self.slots[i].key.as_str(), name) {
                return Some(self.slots[i].source.as_str());
            }
        }
        proof {
            assert(self.slots@.take(self.slots.len() as int) =~= self.slots@);
        }
        None
    }

    /// Whether an import of `name` resolves.
    pub fn offers(&self, name: &str) -> (offered: bool)
        ensures
            offered == self@.contains_key(name@),
    {
        self.resolve(name).is_some()
    }

    /// The interpreter's resolver, knowing exactly the keys of the table.
    pub fn resolver(&self) -> (resolver: BuiltinResolver)
        ensures
            resolver_paths(resolver) == self@.dom(),
    {
        let mut resolver = resolver_new();
        let mut i: usize = 0;
        while i < self.slots.len()
            invariant
                i <= self.slots.len(),
                resolver_paths(resolver) == slots_map(self.slots@.take(i as int)).dom(),
            decreases self.slots.len() - i,
        {
            proof {
                assert(self.slots@.take(i + 1).drop_last() =~= self.slots@.take(i as int));
            }
            resolver_add(&mut resolver, self.slots[i].key.as_str());
            proof {
                assert(resolver_paths(resolver) =~= slots_map(self.slots@.take(i + 1)).dom());
            }
            i += 1;
        }
        proof {
            assert(self.slots@.take(self.slots.len() as int) =~= self.slots@);
        }
        resolver
    }

    /// The interpreter's loader, holding under each key of the table the
    /// bytes of the source that the key resolves to.
    pub fn loader(&self) -> (loader: BuiltinLoader)
        ensures
            loader_sources(loader) == self@.map_values(|s: Seq<char>| encode_utf8(s)),
    {
        let mut loader = loader_new();
        let mut i: usize = 0;
        while i < self.slots.len()
            invariant
                i <= self.slots.len(),
                loader_sources(loader) == slots_map(self.slots@.take(i as int)).map_values(
                    |s: Seq<char>| encode_utf8(s),
                ),
            decreases self.slots.len() - i,
        {
            proof {
                assert(self.slots@.take(i + 1).drop_last() =~= self.slots@.take(i as int));
            }
            loader_add(&mut loader, self.slots[i].key.as_str(), self.slots[i].source.as_str());
            proof {
                assert(loader_sources(loader) =~= slots_map(self.slots@.take(i + 1)).map_values(
                    |s: Seq<char>| encode_utf8(s),
                ));
            }
            i += 1;
        }
        proof {
            assert(self.slots@.take(self.slots.len() as int) =~= self.slots@);
        }
        loader
    }
}

/// Whether entry `i` of a caller-supplied list is registered and offers `key`:
/// as its bare name or as its alias.
pub open spec fn entry_offers(
    target: Seq<char>,
    entries: Seq<(Seq<char>, Seq<char>)>,
    i: int,
    key: Seq<char>,
) -> bool {
    &&& 0 <= i < entries.len()
    &&& accepts_peer(target, entries[i].0, entries[i].1)
    &&& (key == entries[i].0 || key == alias_of(entries[i].0))
}

/// A registered peer is importable under its bare name and under its name
/// with `.js` appended, and both lead to its source.
pub proof fn lemma_peer_importable_both_ways(
    target: Seq<char>,
    table: Map<Seq<char>, Seq<char>>,
    name: Seq<char>,
    source: Seq<char>,
)
    requires
        accepts_peer(target, name, source),
    ensures
        register_spec(target, table, name, source).contains_key(name),
        register_spec(target, table, name, source)[name] == source,
        register_spec(target, table, name, source).contains_key(alias_of(name)),
        register_spec(target, table, name, source)[alias_of(name)] == source,
{
}

/// An entry that carries the target module's own name leaves the table as it
/// was, whatever its source: the module is never registered as its own peer.
pub proof fn lemma_own_name_is_skipped(
    target: Seq<char>,
    table: Map<Seq<char>, Seq<char>>,
    source: Seq<char>,
)
    ensures
        register_spec(target, table, target, source) == table,
{
}

/// The entries of a caller-supplied list that are registered, in order.
pub open spec fn accepted_entries(
    target: Seq<char>,
    entries: Seq<(Seq<char>, Seq<char>)>,
) -> Seq<(Seq<char>, Seq<char>)>
    decreases entries.len(),
{
    if entries.len() == 0 {
        entries
    } else if accepts_peer(target, entries.last().0, entries.last().1) {
        accepted_entries(target, entries.drop_last()).push(entries.last())
    } else {
        accepted_entries(target, entries.drop_last())
    }
}

/// Malformed entries are skipped and leave no trace. The table of a list
/// is the table of its registered entries alone: an entry with an empty
/// name, an empty source or the target's own name changes nothing,
/// wherever in the list it stands; and every entry that is kept is one
/// that is registered.
pub proof fn lemma_bad_entries_are_skipped(target: Seq<char>, entries: Seq<(Seq<char>, Seq<char>)>)
    ensures
        peer_map(target, entries) == peer_map(target, accepted_entries(target, entries)),
        forall|i: int|
            0 <= i < accepted_entries(target, entries).len() ==> accepts_peer(
                target,
                (#[trigger] accepted_entries(target, entries)[i]).0,
                accepted_entries(target, entries)[i].1,
            ),
        accepted_entries(target, entries).len() <= entries.len(),
    decreases entries.len(),
{
    if entries.len() > 0 {
        let rest = entries.drop_last();
        let last = entries.last();
        lemma_bad_entries_are_skipped(target, rest);
        if accepts_peer(target, last.0, last.1) {
            let kept = accepted_entries(target, rest).push(last);
            assert(kept.drop_last() =~= accepted_entries(target, rest));
            assert(kept.last() == last);
        }
    }
}

/// A registration changes the table at no key but the name and its alias.
pub proof fn lemma_register_touches_two_keys(
    target: Seq<char>,
    table: Map<Seq<char>, Seq<char>>,
    name: Seq<char>,
    source: Seq<char>,
    key: Seq<char>,
)
    requires
        key != name,
        key != alias_of(name),
    ensures
        register_spec(target, table, name, source).contains_key(key) == table.contains_key(key),
        table.contains_key(key) ==> register_spec(target, table, name, source)[key] == table[key],
{
}

/// The table offers a key exactly when some registered entry of the list
/// carries it as its name or as its alias.
pub proof fn lemma_offered_keys(target: Seq<char>, entries: Seq<(Seq<char>, Seq<char>)>, key: Seq<char>)
    ensures
        peer_map(target, entries).contains_key(key) <==> exists|i: int|
            entry_offers(target, entries, i, key),
    decreases entries.len(),
{
    if entries.len() == 0 {
    } else {
        let rest = entries.drop_last();
        let last = entries.len() - 1;
        lemma_offered_keys(target, rest, key);
        if peer_map(target, entries).contains_key(key) {
            if entry_offers(target, entries, last, key) {
            } else {
                assert(peer_map(target, rest).contains_key(key));
                let i = choose|i: int| entry_offers(target, rest, i, key);
                assert(entry_offers(target, entries, i, key));
            }
        }
        if exists|i: int| entry_offers(target, entries, i, key) {
            let i = choose|i: int| entry_offers(target, entries, i, key);
            if i == last {
            } else {
                assert(entry_offers(target, rest, i, key));
            }
        }
    }
}

/// A peer of the caller's list is importable both ways. Where entry `i` is
/// registered and no later entry takes over its name or its alias, the
/// table resolves the name and the name with `.js` appended to the source
/// of that entry.
pub proof fn lemma_listed_peer_importable(
    target: Seq<char>,
    entries: Seq<(Seq<char>, Seq<char>)>,
    i: int,
)
    requires
        0 <= i < entries.len(),
        accepts_peer(target, entries[i].0, entries[i].1),
        forall|j: int|
            i < j < entries.len() ==> !entry_offers(target, entries, j, entries[i].0)
                && !entry_offers(target, entries, j, alias_of(entries[i].0)),
    ensures
        peer_map(target, entries).contains_key(entries[i].0),
        peer_map(target, entries)[entries[i].0] == entries[i].1,
        peer_map(target, entries).contains_key(alias_of(entries[i].0)),
        peer_map(target, entries)[alias_of(entries[i].0)] == entries[i].1,
    decreases entries.len(),
{
    let last = entries.len() - 1;
    let rest = entries.drop_last();
    if i == last {
        lemma_peer_importable_both_ways(
            target,
            peer_map(target, rest),
            entries[i].0,
            entries[i].1,
        );
    } else {
        assert(rest[i] == entries[i]);
        assert forall|j: int| i < j < rest.len() implies !entry_offers(
            target,
            rest,
            j,
            rest[i].0,
        ) && !entry_offers(target, rest, j, alias_of(rest[i].0)) by {
            assert(rest[j] == entries[j]);
            assert(!entry_offers(target, entries, j, entries[i].0));
            assert(!entry_offers(target, entries, j, alias_of(entries[i].0)));
        }
        lemma_listed_peer_importable(target, rest, i);
        assert(!entry_offers(target, entries, last, entries[i].0));
        assert(!entry_offers(target, entries, last, alias_of(entries[i].0)));
    }
}

/// Where the names of the caller's list are unique and no alias spells
/// another entry's name, every registered entry is importable both ways
/// and leads to its own source.
pub proof fn lemma_unique_peers_importable(
    target: Seq<char>,
    entries: Seq<(Seq<char>, Seq<char>)>,
    i: int,
)
    requires
        0 <= i < entries.len(),
        accepts_peer(target, entries[i].0, entries[i].1),
        forall|j: int, k: int|
            0 <= j < k < entries.len() ==> entries[j].0 != entries[k].0 && alias_of(entries[j].0)
                != entries[k].0 && entries[j].0 != alias_of(entries[k].0),
    ensures
        peer_map(target, entries)[entries[i].0] == entries[i].1,
        peer_map(target, entries)[alias_of(entries[i].0)] == entries[i].1,
        peer_map(target, entries).contains_key(entries[i].0),
        peer_map(target, entries).contains_key(alias_of(entries[i].0)),
{
    assert forall|j: int| i < j < entries.len() implies !entry_offers(
        target,
        entries,
        j,
        entries[i].0,
    ) && !entry_offers(target, entries, j, alias_of(entries[i].0)) by {
        lemma_alias_is_one_to_one(entries[i].0, entries[j].0);
    }
    lemma_listed_peer_importable(target, entries, i);
}

/// Two names with the same alias are the same name.
pub proof fn lemma_alias_is_one_to_one(a: Seq<char>, b: Seq<char>)
    ensures
        alias_of(a) == alias_of(b) ==> a == b,
{
    if alias_of(a) == alias_of(b) {
        let suffix = ".js"@;
        assert(a.len() == b.len()) by {
            assert(alias_of(a).len() == a.len() + suffix.len());
            assert(alias_of(b).len() == b.len() + suffix.len());
        }
        assert forall|k: int| 0 <= k < a.len() implies a[k] == b[k] by {
            assert(alias_of(a)[k] == a[k]);
            assert(alias_of(b)[k] == b[k]);
        }
        assert(a =~= b);
    }
}

/// The target module's own name is offered only where another registered
/// peer's alias spells it; no entry under that name itself puts it there.
pub proof fn lemma_target_offered_only_by_alias(
    target: Seq<char>,
    entries: Seq<(Seq<char>, Seq<char>)>,
)
    ensures
        peer_map(target, entries).contains_key(target) <==> exists|i: int|
            0 <= i < entries.len() && accepts_peer(target, entries[i].0, entries[i].1)
                && alias_of(#[trigger] entries[i].0) == target,
{
    lemma_offered_keys(target, entries, target);
    if peer_map(target, entries).contains_key(target) {
        let i = choose|i: int| entry_offers(target, entries, i, target);
        assert(alias_of(entries[i].0) == target);
    }
    if exists|i: int|
        0 <= i < entries.len() && accepts_peer(target, entries[i].0, entries[i].1) && alias_of(
            #[trigger] entries[i].0,
        ) == target {
        let i = choose|i: int|
            0 <= i < entries.len() && accepts_peer(target, entries[i].0, entries[i].1) && alias_of(
                #[trigger] entries[i].0,
            ) == target;
        assert(entry_offers(target, entries, i, target));
    }
}

/// Where no entry's alias spells the target module's name, the table never
/// offers the target as an import of itself.
pub proof fn lemma_no_self_import(target: Seq<char>, entries: Seq<(Seq<char>, Seq<char>)>)
    requires
        forall|i: int| 0 <= i < entries.len() ==> alias_of(#[trigger] entries[i].0) != target,
    ensures
        !peer_map(target, entries).contains_key(target),
{
    lemma_target_offered_only_by_alias(target, entries);
}

} // verus!
