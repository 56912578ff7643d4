//! The table from the identifiers of menu entries to action strings.

use vstd::prelude::*;
use crate::action::{shift_action, shifted_action};
use crate::text::{is_prefix_of, same_text, starts_with};

verus! {

/// Whether an action string belongs to a task's own display surface, and so
/// outlives a rebuild of the main menu.
pub open spec fn survives_rebuild(action: Seq<char>) -> bool {
    is_prefix_of("pinned_"@, action) || is_prefix_of("unpin_"@, action)
}

/// The part of a table that outlives a rebuild.
pub open spec fn survivors(table: Map<Seq<char>, Seq<char>>) -> Map<Seq<char>, Seq<char>> {
    Map::new(
        |id: Seq<char>| table.contains_key(id) && survives_rebuild(table[id]),
        |id: Seq<char>| table[id],
    )
}

/// The table once the task at `deleted` is gone: every action string is what
/// `shifted_action` makes of it, and an identifier whose command was on that
/// task is dropped.
pub open spec fn shifted(table: Map<Seq<char>, Seq<char>>, deleted: usize) -> Map<
    Seq<char>,
    Seq<char>,
> {
    Map::new(
        |id: Seq<char>| table.contains_key(id) && shifted_action(table[id], deleted) is Some,
        |id: Seq<char>| shifted_action(table[id], deleted)->Some_0,
    )
}

/// Whether no identifier stands twice among the entries.
pub open spec fn distinct_ids(entries: Seq<(String, String)>) -> bool {
    forall|i: int, j: int|
        0 <= i < entries.len() && 0 <= j < entries.len() && (#[trigger] entries[i]).0@ == (
        #[trigger] entries[j]).0@ ==> i == j
}

/// Whether the identifier stands among the entries.
pub open spec fn has_id(entries: Seq<(String, String)>, id: Seq<char>) -> bool {
    exists|i: int| 0 <= i < entries.len() && (#[trigger] entries[i]).0@ == id
}

/// A place at which the identifier stands among the entries.
pub open spec fn place_of(entries: Seq<(String, String)>, id: Seq<char>) -> int {
    choose|i: int| 0 <= i < entries.len() && (#[trigger] entries[i]).0@ == id
}

/// The table that the entries spell out.
pub open spec fn table_of(entries: Seq<(String, String)>) -> Map<Seq<char>, Seq<char>> {
    Map::new(
        |id: Seq<char>| has_id(entries, id),
        |id: Seq<char>| entries[place_of(entries, id)].1@,
    )
}

/// With distinct identifiers, every entry is what the table holds for its
/// identifier.
pub proof fn lemma_entry_is_in_table(entries: Seq<(String, String)>, i: int)
    requires
        distinct_ids(entries),
        0 <= i < entries.len(),
    ensures
        table_of(entries).contains_key(entries[i].0@),
        table_of(entries)[entries[i].0@] == entries[i].1@,
        place_of(entries, entries[i].0@) == i,
{
    let id = entries[i].0@;
    assert(has_id(entries, id));
    let j = place_of(entries, id);
    assert(0 <= j < entries.len() && entries[j].0@ == id);
}

/// The identifiers of menu entries with the action string of each.
pub struct ActionRouter {
    entries: Vec<(String, String)>,
}

impl View for ActionRouter {
    type V = Map<Seq<char>, Seq<char>>;

    closed spec fn view(&self) -> Map<Seq<char>, Seq<char>> {
        table_of(self.entries@)
    }
}

impl ActionRouter {
    /// No identifier is held twice.
    #[verifier::type_invariant]
    spec fn distinct(self) -> bool {
        distinct_ids(self.entries@)
    }

    /// An empty table.
    pub fn new() -> (r: ActionRouter)
        ensures
            r@ == Map::<Seq<char>, Seq<char>>::empty(),
    {
        let r = ActionRouter { entries: Vec::new() };
        assert(r@ =~= Map::<Seq<char>, Seq<char>>::empty());
        r
    }

    /// The place of the identifier among the entries, if it is held.
    fn find(&self, identifier: &str) -> (r: Option<usize>)
        ensures
            match r {
                Some(i) => i < self.entries@.len() && self.entries@[i as int].0@ == identifier@,
                None => !has_id(self.entries@, identifier@),
            },
    {
        let mut i: usize = 0;
        while i < self.entries.len()
            invariant
                i <= self.entries@.len(),
                forall|j: int| 0 <= j < i ==> (#[trigger] self.entries@[j]).0@ != identifier@,
            decreases self.entries@.len() - i,
        {
            if same_text(self.entries[i].0.as_str(), identifier) {
                return Some(i);
            }
            i += 1;
        }
        None
    }

    /// Holds `action` for `identifier` from now on, in place of what was held
    /// for it before.
    pub fn register(&mut self, identifier: String, action: String)
        ensures
            final(self)@ == old(self)@.insert(identifier@, action@),
    {
        proof {
            use_type_invariant(&*self);
        }
        let ghost before = self.entries@;
        let found = self.find(identifier.as_str());
        let mut entries: Vec<(String, String)> = Vec::new();
        std::mem::swap(&mut self.entries, &mut entries);
        match found {
            Some(i) => {
                entries[i] = (identifier, action);
                proof {
                    let after = entries@;
                    assert forall|a: int, b: int|
                        0 <= a < after.len() && 0 <= b < after.len() && (#[trigger] after[a]).0@ == (
                        #[trigger] after[b]).0@ implies a == b by {
                        assert(before[a].0@ == after[a].0@);
                        assert(before[b].0@ == after[b].0@);
                    }
                    assert forall|id: Seq<char>| has_id(after, id) <==> has_id(before, id) by {
                        if has_id(after, id) {
                            let k = place_of(after, id);
                            assert(before[k].0@ == id);
                        }
                        if has_id(before, id) {
                            let k = place_of(before, id);
                            assert(after[k].0@ == id);
                        }
                    }
                    assert forall|id: Seq<char>| has_id(after, id) implies #[trigger] table_of(
                        after,
                    )[id] == table_of(before).insert(identifier@, action@)[id] by {
                        let k = place_of(after, id);
                        lemma_entry_is_in_table(after, k);
                        if k != i {
                            assert(before[k] == after[k]);
                            lemma_entry_is_in_table(before, k);
                        }
                    }
                    assert(has_id(before, identifier@));
                    assert(table_of(after) =~= table_of(before).insert(identifier@, action@));
                }
            },
            None => {
                entries.push((identifier, action));
                proof {
                    let after = entries@;
                    let last = before.len() as int;
                    assert forall|a: int, b: int|
                        0 <= a < after.len() && 0 <= b < after.len() && (#[trigger] after[a]).0@ == (
                        #[trigger] after[b]).0@ implies a == b by {
                        if a < last {
                            assert(before[a] == after[a]);
                        }
                        if b < last {
                            assert(before[b] == after[b]);
                        }
                    }
                    assert(after[last].0@ == identifier@);
                    assert forall|id: Seq<char>| has_id(after, id) <==> (has_id(before, id) || id
                        == identifier@) by {
                        if has_id(after, id) {
                            let k = place_of(after, id);
                            if k < last {
                                assert(before[k].0@ == id);
                            }
                        }
                        if has_id(before, id) {
                            let k = place_of(before, id);
                            assert(after[k].0@ == id);
                        }
                    }
                    assert forall|id: Seq<char>| has_id(after, id) implies #[trigger] table_of(
                        after,
                    )[id] == table_of(before).insert(identifier@, action@)[id] by {
                        let k = place_of(after, id);
                        lemma_entry_is_in_table(after, k);
                        if k < last {
                            assert(before[k] == after[k]);
                            lemma_entry_is_in_table(before, k);
                        }
                    }
                    assert(table_of(after) =~= table_of(before).insert(identifier@, action@));
                }
            },
        }
        self.entries = entries;
    }

    /// The action string held for the identifier, if any.
    pub fn resolve(&self, identifier: &str) -> (r: Option<String>)
        ensures
            match r {
                Some(action) => self@.contains_key(identifier@) && action@ == self@[identifier@],
                None => !self@.contains_key(identifier@),
            },
    {
        match self.find(identifier) {
            Some(i) => {
                proof {
                    use_type_invariant(self);
                    lemma_entry_is_in_table(self.entries@, i as int);
                }
                Some(self.entries[i].1.clone())
            },
            None => None,
        }
    }

    /// Drops every entry but those of the tasks' own display surfaces, whose
    /// action strings begin with `pinned_` or `unpin_`.
    pub fn rebuild(&mut self)
        ensures
            final(self)@ == survivors(old(self)@),
    {
        proof {
            use_type_invariant(&*self);
        }
        let ghost before = self.entries@;
        let mut kept: Vec<(String, String)> = Vec::new();
        let mut i: usize = 0;
        let ghost mut origin: Seq<int> = Seq::empty();
        while i < self.entries.len()
            invariant
                i <= before.len(),
                self.entries@ == before,
                origin.len() == kept@.len(),
                forall|k: int|
                    0 <= k < kept@.len() ==> 0 <= #[trigger] origin[k] < i && kept@[k].0@
                        == before[origin[k]].0@ && kept@[k].1@ == before[origin[k]].1@
                        && survives_rebuild(before[origin[k]].1@),
                forall|a: int, b: int|
                    0 <= a < b < origin.len() ==> #[trigger] origin[a] < #[trigger] origin[b],
                forall|j: int|
                    0 <= j < i && survives_rebuild((#[trigger] before[j]).1@) ==> exists|k: int|
                        0 <= k < kept@.len() && #[trigger] origin[k] == j,
            decreases before.len() - i,
        {
            let action: &str = self.entries[i].1.as_str();
            if starts_with(action, "pinned_") || starts_with(action, "unpin_") {
                let ghost old_origin = origin;
                let ghost old_kept = kept@;
                kept.push((self.entries[i].0.clone(), self.entries[i].1.clone()));
                proof {
                    origin = origin.push(i as int);
                    assert forall|j: int|
                        0 <= j < i + 1 && survives_rebuild(
                            (#[trigger] before[j]).1@,
                        ) implies exists|k: int|
                        0 <= k < kept@.len() && #[trigger] origin[k] == j by {
                        if j < i {
                            let k = choose|k: int|
                                0 <= k < old_kept.len() && #[trigger] old_origin[k] == j;
                            assert(origin[k] == j);
                        } else {
                            assert(origin[old_kept.len() as int] == j);
                        }
                    }
                }
            }
            i += 1;
        }
        proof {
            let after = kept@;
            assert forall|a: int, b: int|
                0 <= a < after.len() && 0 <= b < after.len() && (#[trigger] after[a]).0@ == (
                #[trigger] after[b]).0@ implies a == b by {
                assert(before[origin[a]].0@ == before[origin[b]].0@);
                assert(origin[a] == origin[b]);
            }
            assert forall|id: Seq<char>|
                has_id(after, id) <==> (has_id(before, id) && survives_rebuild(
                    table_of(before)[id],
                )) by {
                if has_id(after, id) {
                    let k = place_of(after, id);
                    lemma_entry_is_in_table(before, origin[k]);
                }
                if has_id(before, id) && survives_rebuild(table_of(before)[id]) {
                    let j = place_of(before, id);
                    assert(survives_rebuild(before[j].1@));
                    let k = choose|k: int| 0 <= k < after.len() && #[trigger] origin[k] == j;
                    assert(after[k].0@ == id);
                }
            }
            assert forall|id: Seq<char>| has_id(after, id) implies #[trigger] table_of(after)[id]
                == table_of(before)[id] by {
                let k = place_of(after, id);
                lemma_entry_is_in_table(after, k);
                lemma_entry_is_in_table(before, origin[k]);
            }
            assert(table_of(after) =~= survivors(table_of(before)));
        }
        self.entries = kept;
    }

    /// Follows the removal of the task at `deleted`: drops the entries of
    /// commands on that task and lets the commands on later tasks name the
    /// index one below.
    pub fn shift_after_delete(&mut self, deleted: usize)
        ensures
            final(self)@ == shifted(old(self)@, deleted),
    {
        proof {
            use_type_invariant(&*self);
        }
        let ghost before = self.entries@;
        let mut kept: Vec<(String, String)> = Vec::new();
        let mut i: usize = 0;
        let ghost mut origin: Seq<int> = Seq::empty();
        while i < self.entries.len()
            invariant
                i <= before.len(),
                self.entries@ == before,
                origin.len() == kept@.len(),
                forall|k: int|
                    0 <= k < kept@.len() ==> 0 <= #[trigger] origin[k] < i && kept@[k].0@
                        == before[origin[k]].0@ && shifted_action(before[origin[k]].1@, deleted)
                        == Some(kept@[k].1@),
                forall|a: int, b: int|
                    0 <= a < b < origin.len() ==> #[trigger] origin[a] < #[trigger] origin[b],
                forall|j: int|
                    0 <= j < i && shifted_action((#[trigger] before[j]).1@, deleted) is Some
                        ==> exists|k: int| 0 <= k < kept@.len() && #[trigger] origin[k] == j,
            decreases before.len() - i,
        {
            match shift_action(self.entries[i].1.as_str(), deleted) {
                Some(action) => {
                    let ghost old_origin = origin;
                    let ghost old_kept = kept@;
                    kept.push((self.entries[i].0.clone(), action));
                    proof {
                        origin = origin.push(i as int);
                        assert forall|j: int|
                            0 <= j < i + 1 && shifted_action(
                                (#[trigger] before[j]).1@,
                                deleted,
                            ) is Some implies exists|k: int|
                            0 <= k < kept@.len() && #[trigger] origin[k] == j by {
                            if j < i {
                                let k = choose|k: int|
                                    0 <= k < old_kept.len() && #[trigger] old_origin[k] == j;
                                assert(origin[k] == j);
                            } else {
                                assert(origin[old_kept.len() as int] == j);
                            }
                        }
                    }
                },
                None => {},
            }
            i += 1;
        }
        proof {
            let after = kept@;
            assert forall|a: int, b: int|
                0 <= a < after.len() && 0 <= b < after.len() && (#[trigger] after[a]).0@ == (
                #[trigger] after[b]).0@ implies a == b by {
                assert(before[origin[a]].0@ == before[origin[b]].0@);
                assert(origin[a] == origin[b]);
            }
            assert forall|id: Seq<char>|
                has_id(after, id) <==> (has_id(before, id) && shifted_action(
                    table_of(before)[id],
                    deleted,
                ) is Some) by {
                if has_id(after, id) {
                    let k = place_of(after, id);
                    lemma_entry_is_in_table(before, origin[k]);
                }
                if has_id(before, id) && shifted_action(table_of(before)[id], deleted) is Some {
                    let j = place_of(before, id);
                    assert(shifted_action(before[j].1@, deleted) is Some);
                    let k = choose|k: int| 0 <= k < after.len() && #[trigger] origin[k] == j;
                    assert(after[k].0@ == id);
                }
            }
            assert forall|id: Seq<char>| has_id(after, id) implies #[trigger] table_of(after)[id]
                == shifted_action(table_of(before)[id], deleted)->Some_0 by {
                let k = place_of(after, id);
                lemma_entry_is_in_table(after, k);
                lemma_entry_is_in_table(before, origin[k]);
            }
            assert(table_of(after) =~= shifted(table_of(before), deleted));
        }
        self.entries = kept;
    }
}

} // verus!
