//! Display names of known programs, as a value the caller builds and
//! owns.

use vstd::prelude::*;
use crate::pubkey::{
    first_index, is_first_index, lemma_first_index_absent, lemma_first_index_found,
    lemma_first_index_push, Pubkey,
};

verus! {

/// One entry of a registry: a program and its display name.
pub struct ProgramLabel {
    pub program_id: Pubkey,
    pub label: String,
}

/// The programs of a list of entries, in order.
pub open spec fn programs_of(entries: Seq<ProgramLabel>) -> Seq<Pubkey> {
    Seq::new(entries.len(), |i: int| entries[i].program_id)
}

/// The names that a list of entries gives: a program that occurs has the
/// name of its first entry.
pub open spec fn labelled(entries: Seq<ProgramLabel>) -> Map<Pubkey, Seq<char>> {
    Map::new(
        |program_id: Pubkey| first_index(programs_of(entries), program_id) is Some,
        |program_id: Pubkey| entries[first_index(programs_of(entries), program_id).unwrap()].label@,
    )
}

/// A mapping from program address to display name.
pub struct ProgramRegistry {
    entries: Vec<ProgramLabel>,
}

impl View for ProgramRegistry {
    type V = Map<Pubkey, Seq<char>>;

    closed spec fn view(&self) -> Map<Pubkey, Seq<char>> {
        labelled(self.entries@)
    }
}

impl ProgramRegistry {
    /// A registry that knows no program.
    pub fn new() -> (registry: ProgramRegistry)
        ensures
            registry@ == Map::<Pubkey, Seq<char>>::empty(),
    {
        let registry = ProgramRegistry { entries: Vec::new() };
        proof {
            assert forall|program_id: Pubkey| !registry@.contains_key(program_id) by {
                lemma_first_index_absent(programs_of(registry.entries@), program_id);
            }
            assert(registry@ =~= Map::<Pubkey, Seq<char>>::empty());
        }
        registry
    }

    /// Names `program_id`, replacing any name it had; returns whether it
    /// had one.
    pub fn insert(&mut self, program_id: Pubkey, label: String) -> (replaced: bool)
        ensures
            final(self)@ == old(self)@.insert(program_id, label@),
            replaced == old(self)@.contains_key(program_id),
    {
        let ghost entries = self.entries@;
        let ghost programs = programs_of(entries);
        let mut idx: usize = 0;
        while idx < self.entries.len()
            invariant
                idx <= self.entries.len(),
                self.entries@ == entries,
                old(self).entries@ == entries,
                programs == programs_of(entries),
                forall|j: int| 0 <= j < idx ==> programs[j] != program_id,
            decreases self.entries.len() - idx,
        {
            if self.entries[idx].program_id == program_id {
                self.entries[idx] = ProgramLabel { program_id, label };
                proof {
                    lemma_first_index_found(programs, program_id, idx as int);
                    assert(programs_of(self.entries@) =~= programs);
                    assert forall|key: Pubkey| first_index(programs, key) is Some implies (
                    #[trigger] labelled(self.entries@)[key]) == labelled(entries).insert(
                        program_id,
                        label@,
                    )[key] by {
                        if key != program_id {
                            assert(is_first_index(programs, key, first_index(programs, key).unwrap()));
                        }
                    }
                    assert(labelled(self.entries@) =~= labelled(entries).insert(
                        program_id,
                        label@,
                    ));
                }
                return true;
            }
            idx += 1;
        }
        proof {
            lemma_first_index_absent(programs, program_id);
            assert forall|key: Pubkey|
                #[trigger] first_index(programs.push(program_id), key) == if first_index(
                    programs,
                    key,
                ) is Some {
                    first_index(programs, key)
                } else if key == program_id {
                    Some(programs.len() as int)
                } else {
                    None
                } && (first_index(programs, key) is Some ==> 0 <= first_index(
                    programs,
                    key,
                ).unwrap() < programs.len()) by {
                lemma_first_index_push(programs, program_id, key);
                if first_index(programs, key) is Some {
                    assert(is_first_index(programs, key, first_index(programs, key).unwrap()));
                }
            }
        }
        self.entries.push(ProgramLabel { program_id, label });
        proof {
            assert(programs_of(self.entries@) =~= programs.push(program_id));
            assert(labelled(self.entries@) =~= labelled(entries).insert(program_id, label@));
        }
        false
    }

    /// The name of `program_id`, if it has one.
    pub fn label(&self, program_id: Pubkey) -> (label: Option<String>)
        ensures
            match label {
                Some(name) => self@.contains_key(program_id) && name@ == self@[program_id],
                None => !self@.contains_key(program_id),
            },
    {
        let ghost programs = programs_of(self.entries@);
        let mut idx: usize = 0;
        while idx < self.entries.len()
            invariant
                idx <= self.entries.len(),
                programs == programs_of(self.entries@),
                forall|j: int| 0 <= j < idx ==> programs[j] != program_id,
            decreases self.entries.len() - idx,
        {
            if self.entries[idx].program_id == program_id {
                proof {
                    lemma_first_index_found(programs, program_id, idx as int);
                }
                return Some(self.entries[idx].label.clone());
            }
            idx += 1;
        }
        proof {
            lemma_first_index_absent(programs, program_id);
        }
        None
    }
}

} // verus!
