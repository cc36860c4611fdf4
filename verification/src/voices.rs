//! The voice table: which provider speaker stands behind each voice
//! identifier.

use vstd::prelude::*;

verus! {

/// One voice: the identifier users pick, and the provider's name for it.
#[derive(Debug, PartialEq, Eq)]
pub struct VoiceEntry {
    pub id: String,
    pub speaker: String,
}

/// A table of voices in which no identifier occurs twice. It is filled when
/// the program starts and only read afterwards.
pub struct VoiceTable {
    entries: Vec<VoiceEntry>,
}

/// Why a lookup failed.
#[derive(Debug, PartialEq, Eq)]
pub enum LookupError {
    /// The table holds no voice with this identifier.
    UnknownVoice { identifier: String },
}

impl View for VoiceTable {
    type V = Map<Seq<char>, Seq<char>>;

    /// The table as a map from identifier to speaker name.
    open spec fn view(&self) -> Map<Seq<char>, Seq<char>> {
        Map::new(
            |id: Seq<char>| self.ids().contains(id),
            |id: Seq<char>| self.speakers()[self.ids().index_of(id)],
        )
    }
}

impl VoiceTable {
    #[verifier::type_invariant]
    spec fn distinct(self) -> bool {
        forall|i: int, j: int|
            0 <= i < j < self.entries.len() ==> self.entries[i].id@ != self.entries[j].id@
    }

    /// The identifiers, in the order in which they were added.
    pub closed spec fn ids(self) -> Seq<Seq<char>> {
        Seq::new(self.entries.len() as nat, |i: int| self.entries[i].id@)
    }

    /// The speaker names, each at the place of its identifier.
    pub closed spec fn speakers(self) -> Seq<Seq<char>> {
        Seq::new(self.entries.len() as nat, |i: int| self.entries[i].speaker@)
    }

    /// A table without voices.
    pub fn new() -> (table: VoiceTable)
        ensures
            table@ == Map::<Seq<char>, Seq<char>>::empty(),
            table.ids() == Seq::<Seq<char>>::empty(),
    {
        let table = VoiceTable { entries: Vec::new() };
        assert(table@ =~= Map::<Seq<char>, Seq<char>>::empty());
        assert(table.ids() =~= Seq::<Seq<char>>::empty());
        table
    }

    /// Where `id` stands in the table, if it does.
    fn position(&self, id: &String) -> (found: Option<usize>)
        ensures
            match found {
                Some(i) => i < self.entries.len() && self.entries[i as int].id@ == id@,
                None => !self.ids().contains(id@),
            },
    {
        let mut i: usize = 0;
        while i < self.entries.len()
            invariant
                i <= self.entries.len(),
                forall|k: int| 0 <= k < i ==> self.entries[k].id@ != id@,
            decreases self.entries.len() - i,
        {
            if self.entries[i].id == *id {
                return Some(i);
            }
            i += 1;
        }
        None
    }

    /// The speaker name behind `id`. An identifier that the table does not
    /// hold is an error; no other voice is put in its place.
    pub fn lookup(&self, id: &str) -> (found: Result<&str, LookupError>)
        ensures
            match found {
                Ok(speaker) => self@.contains_key(id@) && speaker@ == self@[id@],
                Err(LookupError::UnknownVoice { identifier }) => !self@.contains_key(id@)
                    && identifier@ == id@,
            },
    {
        let wanted = id.to_owned();
        match self.position(&wanted) {
            Some(i) => {
                proof {
                    use_type_invariant(self);
                    assert(self.ids()[i as int] == id@);
                    let k = self.ids().index_of(id@);
                    assert(self.ids()[k] == id@);
                    assert(k == i);
                }
                Ok(self.entries[i].speaker.as_str())
            },
            None => Err(LookupError::UnknownVoice { identifier: wanted }),
        }
    }

    /// Adds a voice unless its identifier is taken, and says whether it did.
    pub fn add(&mut self, id: String, speaker: String) -> (added: bool)
        ensures
            added == !old(self)@.contains_key(id@),
            added ==> final(self)@ == old(self)@.insert(id@, speaker@),
            added ==> final(self).ids() == old(self).ids().push(id@),
            !added ==> final(self)@ == old(self)@ && final(self).ids() == old(self).ids(),
    {
        proof {
            use_type_invariant(&*self);
        }
        match self.position(&id) {
            Some(i) => {
                proof {
                    assert(self.ids()[i as int] == id@);
                }
                false
            },
            None => {
                let ghost before = *self;
                let mut taken = VoiceTable { entries: Vec::new() };
                std::mem::swap(self, &mut taken);
                let VoiceTable { entries: mut entries } = taken;
                entries.push(VoiceEntry { id, speaker });
                proof {
                    assert(entries@ == before.entries@.push(VoiceEntry { id, speaker }));
                    assert forall|i: int, j: int| 0 <= i < j < entries.len() implies entries[i].id@
                        != entries[j].id@ by {
                        if j == entries.len() - 1 {
                            assert(before.ids()[i] == before.entries[i].id@);
                        }
                    }
                }
                *self = VoiceTable { entries };
                proof {
                    assert(self.ids() =~= before.ids().push(id@));
                    assert(self.speakers() =~= before.speakers().push(speaker@));
                    assert forall|k: Seq<char>| #[trigger] self@.contains_key(k) implies self@[k]
                        == before@.insert(id@, speaker@)[k] by {
                        let n = before.ids().len() as int;
                        let j = self.ids().index_of(k);
                        assert(self.ids()[j] == k);
                        if k != id@ {
                            assert(j < n);
                            let j0 = before.ids().index_of(k);
                            assert(before.ids()[j] == k);
                            assert(before.ids()[j0] == k);
                            assert(j0 == j);
                        } else {
                            assert(self.ids()[n] == id@);
                            assert(j == n);
                        }
                    }
                    assert forall|k: Seq<char>|
                        before@.insert(id@, speaker@).contains_key(k) implies self@.contains_key(
                        k,
                    ) by {
                        if k != id@ {
                            let j0 = before.ids().index_of(k);
                            assert(before.ids()[j0] == k);
                            assert(self.ids()[j0] == k);
                        } else {
                            assert(self.ids()[before.ids().len() as int] == id@);
                        }
                    }
                    assert(self@ =~= before@.insert(id@, speaker@));
                }
                true
            },
        }
    }

    /// How many voices the table holds.
    pub fn len(&self) -> (n: usize)
        ensures
            n == self.ids().len(),
    {
        self.entries.len()
    }

    /// The identifiers to offer to the user, in the order of the table.
    pub fn identifiers(&self) -> (names: Vec<String>)
        ensures
            names@.len() == self.ids().len(),
            forall|i: int| 0 <= i < names@.len() ==> names@[i]@ == self.ids()[i],
    {
        let mut names: Vec<String> = Vec::new();
        let mut i: usize = 0;
        while i < self.entries.len()
            invariant
                i <= self.entries.len(),
                names@.len() == i,
                forall|k: int| 0 <= k < i ==> names@[k]@ == self.entries[k].id@,
            decreases self.entries.len() - i,
        {
            names.push(self.entries[i].id.clone());
            i += 1;
        }
        names
    }
}

} // verus!
