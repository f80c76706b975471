//! The family-tree demo data model: people, houses and relationships, with
//! referential validation of relationship definitions.

use vstd::prelude::*;
use vstd::string::StringExecFns;

verus! {

/// The noble houses a person can belong to.
#[derive(Debug, Clone, Copy, PartialEq, Eq, Structural, Hash)]
pub enum House {
    Stark,
    Lannister,
    Targaryen,
    Baratheon,
    Greyjoy,
    Tully,
    Arryn,
    Martell,
    Tyrell,
}

/// One person of the family tree.
#[derive(Debug, Clone)]
pub struct Person {
    /// Stable identifier the relationship definitions refer to.
    pub id: String,
    pub name: String,
    pub house: House,
}

/// Information about a noble house.
#[derive(Debug, Clone)]
pub struct HouseInfo {
    pub name: String,
    pub seat: Option<String>,
    pub words: Option<String>,
}

/// A relationship definition between people, by their identifiers.
#[derive(Debug, Clone)]
pub enum RelationshipDef {
    /// Parent-child relationship (one parent, multiple children).
    ParentOf { from: String, to: Vec<String> },
    /// Spousal relationship (exactly two people).
    SpouseOf { between: Vec<String> },
    /// Sibling relationship (two or more people).
    SiblingOf { between: Vec<String> },
}

/// What can be wrong with a family tree's data.
#[derive(Debug)]
pub enum TreeError {
    /// A relationship refers to a person identifier that does not exist.
    InvalidRelationship(String),
}

/// Statistics from an ingest of the tree into a graph store.
#[derive(Debug, Clone, Copy, PartialEq, Eq, Structural)]
pub struct IngestStats {
    pub nodes_inserted: usize,
    pub edges_inserted: usize,
}

impl Default for IngestStats {
    /// Nothing ingested.
    fn default() -> (r: Self)
        ensures
            r == (IngestStats { nodes_inserted: 0, edges_inserted: 0 }),
    {
        IngestStats { nodes_inserted: 0, edges_inserted: 0 }
    }
}

/// Some person carries the identifier `id`.
pub open spec fn has_person(people: Seq<Person>, id: Seq<char>) -> bool {
    exists|i: int| 0 <= i < people.len() && (#[trigger] people[i]).id@ == id
}

/// Index of the first person with identifier `id`, or -1 when none has it.
pub open spec fn find_person_idx(people: Seq<Person>, id: Seq<char>) -> int
    decreases people.len(),
{
    if people.len() == 0 {
        -1
    } else if people[0].id@ == id {
        0
    } else {
        let r = find_person_idx(people.drop_first(), id);
        if r == -1 {
            -1
        } else {
            r + 1
        }
    }
}

/// What `find_person_idx` returns: -1 and nobody has the identifier, or
/// the first index whose person has it.
pub proof fn lemma_find_person_idx_props(people: Seq<Person>, id: Seq<char>)
    ensures
        find_person_idx(people, id) == -1 ==> !has_person(people, id),
        find_person_idx(people, id) != -1 ==> {
            let r = find_person_idx(people, id);
            &&& 0 <= r < people.len()
            &&& people[r].id@ == id
            &&& forall|i: int| 0 <= i < r ==> (#[trigger] people[i]).id@ != id
        },
    decreases people.len(),
{
    if people.len() > 0 && people[0].id@ != id {
        lemma_find_person_idx_props(people.drop_first(), id);
        assert(forall|i: int|
            1 <= i < people.len() ==> #[trigger] people[i] == people.drop_first()[i - 1]);
        if find_person_idx(people, id) == -1 && has_person(people, id) {
            let w = choose|i: int| 0 <= i < people.len() && (#[trigger] people[i]).id@ == id;
            assert(people.drop_first()[w - 1].id@ == id);
        }
    }
}

/// Every identifier a relationship mentions belongs to a person.
pub open spec fn rel_ok(people: Seq<Person>, r: RelationshipDef) -> bool {
    match r {
        RelationshipDef::ParentOf { from, to } => has_person(people, from@) && (forall|i: int|
            0 <= i < to@.len() ==> has_person(people, (#[trigger] to@[i])@)),
        RelationshipDef::SpouseOf { between } => forall|i: int|
            0 <= i < between@.len() ==> has_person(people, (#[trigger] between@[i])@),
        RelationshipDef::SiblingOf { between } => forall|i: int|
            0 <= i < between@.len() ==> has_person(people, (#[trigger] between@[i])@),
    }
}

/// Every relationship of the tree refers only to existing people.
pub open spec fn spec_tree_valid(people: Seq<Person>, rels: Seq<RelationshipDef>) -> bool {
    forall|i: int| 0 <= i < rels.len() ==> rel_ok(people, #[trigger] rels[i])
}

/// The root structure of the family-tree data.
#[derive(Debug)]
pub struct FamilyTree {
    /// House definitions with metadata.
    pub houses: Vec<HouseInfo>,
    /// All people in the family tree.
    pub people: Vec<Person>,
    /// Relationship definitions.
    pub relationships: Vec<RelationshipDef>,
}

/// The people of `s` belonging to `house`, in order.
pub open spec fn house_members(s: Seq<Person>, house: House) -> Seq<Person>
    decreases s.len(),
{
    if s.len() == 0 {
        Seq::empty()
    } else if s.first().house == house {
        seq![s.first()] + house_members(s.drop_first(), house)
    } else {
        house_members(s.drop_first(), house)
    }
}

impl FamilyTree {
    /// Whether someone with the identifier exists.
    fn contains_person(&self, id: &String) -> (r: bool)
        ensures
            r == has_person(self.people@, id@),
    {
        let n = self.people.len();
        let mut i: usize = 0;
        while i < n
            invariant
                i <= n,
                n == self.people@.len(),
                forall|j: int| 0 <= j < i ==> (#[trigger] self.people@[j]).id@ != id@,
            decreases n - i,
        {
            if self.people[i].id == *id {
                return true;
            }
            i += 1;
        }
        false
    }

    /// Validates the family-tree data: succeeds exactly when every
    /// relationship refers only to identifiers of existing people.
    pub fn validate(&self) -> (r: Result<(), TreeError>)
        ensures
            r is Ok <==> spec_tree_valid(self.people@, self.relationships@),
            r is Err ==> (r matches Err(TreeError::InvalidRelationship(_))),
    {
        let n = self.relationships.len();
        let mut i: usize = 0;
        while i < n
            invariant
                i <= n,
                n == self.relationships@.len(),
                forall|j: int| 0 <= j < i ==> rel_ok(self.people@, #[trigger] self.relationships@[j]),
            decreases n - i,
        {
            match &self.relationships[i] {
                RelationshipDef::ParentOf { from, to } => {
                    if !self.contains_person(from) {
                        proof {
                            assert(!rel_ok(self.people@, self.relationships@[i as int]));
                            assert(!spec_tree_valid(self.people@, self.relationships@));
                        }
                        let mut m = "Unknown person in parent_of.from: ".to_owned();
                        m.append(from.as_str());
                        return Err(TreeError::InvalidRelationship(m));
                    }
                    let cn = to.len();
                    let mut c: usize = 0;
                    while c < cn
                        invariant
                            c <= cn,
                            cn == to@.len(),
                            i < self.relationships@.len(),
                            self.relationships@[i as int] == (RelationshipDef::ParentOf {
                                from: *from,
                                to: *to,
                            }),
                            forall|j: int|
                                0 <= j < c ==> has_person(
                                    self.people@,
                                    (#[trigger] to@[j])@,
                                ),
                        decreases cn - c,
                    {
                        if !self.contains_person(&to[c]) {
                            proof {
                                let ghost rel = self.relationships@[i as int];
                                assert(rel->ParentOf_to == *to);
                                assert(!has_person(self.people@, ((rel->ParentOf_to)@[c as int])@));
                                assert(!rel_ok(self.people@, rel));
                                assert(!spec_tree_valid(self.people@, self.relationships@));
                            }
                            let mut m = "Unknown person in parent_of.to: ".to_owned();
                            m.append(to[c].as_str());
                            return Err(TreeError::InvalidRelationship(m));
                        }
                        c += 1;
                    }
                    proof {
                        assert(rel_ok(self.people@, self.relationships@[i as int]));
                    }
                },
                RelationshipDef::SpouseOf { between } | RelationshipDef::SiblingOf { between } => {
                    let cn = between.len();
                    let mut c: usize = 0;
                    while c < cn
                        invariant
                            c <= cn,
                            cn == between@.len(),
                            i < self.relationships@.len(),
                            self.relationships@[i as int] == (RelationshipDef::SpouseOf {
                                between: *between,
                            }) || self.relationships@[i as int] == (RelationshipDef::SiblingOf {
                                between: *between,
                            }),
                            forall|j: int|
                                0 <= j < c ==> has_person(
                                    self.people@,
                                    (#[trigger] between@[j])@,
                                ),
                        decreases cn - c,
                    {
                        if !self.contains_person(&between[c]) {
                            proof {
                                let ghost rel = self.relationships@[i as int];
                                if rel is SpouseOf {
                                    assert(rel->SpouseOf_between == *between);
                                    assert(!has_person(
                                        self.people@,
                                        ((rel->SpouseOf_between)@[c as int])@,
                                    ));
                                } else {
                                    assert(rel->SiblingOf_between == *between);
                                    assert(!has_person(
                                        self.people@,
                                        ((rel->SiblingOf_between)@[c as int])@,
                                    ));
                                }
                                assert(!rel_ok(self.people@, rel));
                                assert(!spec_tree_valid(self.people@, self.relationships@));
                            }
                            let mut m = "Unknown person in relationship: ".to_owned();
                            m.append(between[c].as_str());
                            return Err(TreeError::InvalidRelationship(m));
                        }
                        c += 1;
                    }
                    proof {
                        assert(rel_ok(self.people@, self.relationships@[i as int]));
                    }
                },
            }
            i += 1;
        }
        proof {
            assert(i == n);
            assert forall|j: int|
                0 <= j < self.relationships@.len() implies rel_ok(
                self.people@,
                #[trigger] self.relationships@[j],
            ) by {}
            assert(spec_tree_valid(self.people@, self.relationships@));
        }
        Ok(())
    }

    /// The first person carrying the identifier, if any.
    pub fn get_person(&self, id: &str) -> (r: Option<&Person>)
        ensures
            match r {
                Some(p) => {
                    let fi = find_person_idx(self.people@, id@);
                    fi >= 0 && *p == self.people@[fi]
                },
                None => !has_person(self.people@, id@),
            },
    {
        let n = self.people.len();
        let mut i: usize = 0;
        while i < n
            invariant
                i <= n,
                n == self.people@.len(),
                forall|j: int| 0 <= j < i ==> (#[trigger] self.people@[j]).id@ != id@,
            decreases n - i,
        {
            if crate::text::str_eq(self.people[i].id.as_str(), id) {
                proof {
                    lemma_find_person_idx_props(self.people@, id@);
                    if find_person_idx(self.people@, id@) == -1 {
                        assert(self.people@[i as int].id@ == id@);
                        assert(has_person(self.people@, id@));
                    }
                    let fi = find_person_idx(self.people@, id@);
                    assert(fi == i as int) by {
                        if fi < i {
                            assert(self.people@[fi].id@ != id@);
                        }
                    }
                }
                return Some(&self.people[i]);
            }
            i += 1;
        }
        proof {
            if has_person(self.people@, id@) {
                let w = choose|j: int|
                    0 <= j < self.people@.len() && (#[trigger] self.people@[j]).id@ == id@;
                assert(self.people@[w].id@ != id@);
            }
        }
        None
    }

    /// All people belonging to the given house, in order.
    pub fn get_house_members(&self, house: House) -> (r: Vec<&Person>)
        ensures
            r@.map_values(|p: &Person| *p) == house_members(self.people@, house),
    {
        let n = self.people.len();
        let mut out: Vec<&Person> = Vec::new();
        let mut i: usize = 0;
        proof {
            assert(self.people@.skip(0) =~= self.people@);
            assert(out@.map_values(|p: &Person| *p) =~= Seq::<Person>::empty());
            assert(out@.map_values(|p: &Person| *p) + house_members(self.people@, house)
                =~= house_members(self.people@, house));
        }
        while i < n
            invariant
                i <= n,
                n == self.people@.len(),
                house_members(self.people@, house) =~= out@.map_values(|p: &Person| *p)
                    + house_members(self.people@.skip(i as int), house),
            decreases n - i,
        {
            let ghost pre = out@.map_values(|p: &Person| *p);
            proof {
                assert(self.people@.skip(i as int).drop_first() =~= self.people@.skip(i + 1));
                assert(self.people@.skip(i as int).first() == self.people@[i as int]);
            }
            if self.people[i].house == house {
                out.push(&self.people[i]);
                proof {
                    assert(out@.map_values(|p: &Person| *p) =~= pre.push(self.people@[i as int]));
                    assert(pre.push(self.people@[i as int]) =~= pre + seq![
                        self.people@[i as int],
                    ]);
                }
            }
            i += 1;
        }
        proof {
            assert(self.people@.skip(n as int) =~= Seq::<Person>::empty());
        }
        out
    }
}

} // verus!
