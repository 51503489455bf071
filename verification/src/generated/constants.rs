//! Named constants for the ids that the game gives to its particles and
//! data components.
//!
//! The data of the game lists each of them by a name in lower case with an
//! id. The code base has a constant for each: the name in upper case with
//! underscores between its words, in the order of the ids.

use heck::ToShoutySnakeCase;
use vstd::prelude::*;
use vstd::string::StringExecFns;

verus! {

/// A name in upper case with underscores between its words, as heck
/// makes it of any text.
pub uninterp spec fn shouty_snake_case(text: Seq<char>) -> Seq<char>;

/// heck's `to_shouty_snake_case`. What it makes of a text depends on the
/// text alone; the contract gives it a name and says no more of it.
#[verifier::external_body]
pub(crate) fn to_shouty_snake_case(text: &str) -> (name: String)
    ensures
        name@ == shouty_snake_case(text@),
{
    text.to_shouty_snake_case()
}

/// A constant of the generated code: its name and the id it stands for.
#[derive(Debug)]
pub struct Constant {
    pub name: String,
    pub id: i64,
}

impl View for Constant {
    type V = (Seq<char>, int);

    open spec fn view(&self) -> (Seq<char>, int) {
        (self.name@, self.id as int)
    }
}

/// The constants of a list, as contracts see them.
pub open spec fn constants_model(constants: Seq<Constant>) -> Seq<(Seq<char>, int)> {
    Seq::new(constants.len(), |i: int| constants[i]@)
}

/// The ids never fall from one constant to the next.
pub open spec fn is_sorted_by_id(constants: Seq<(Seq<char>, int)>) -> bool {
    forall|i: int, j: int| 0 <= i <= j < constants.len() ==> constants[i].1 <= constants[j].1
}

/// The constant for an entry of the game's data, given the name that heck
/// makes of the entry's name: that name behind `prefix`, and the id.
pub open spec fn constant_for(prefix: Seq<char>, shouty: Seq<char>, id: i64) -> (Seq<char>, int) {
    (prefix + shouty, id as int)
}

/// The constants for the first `upto` entries, in the order of the
/// entries.
pub open spec fn constants_for(prefix: Seq<char>, entries: Seq<(String, i64)>, upto: int) -> Seq<
    (Seq<char>, int),
> {
    Seq::new(
        upto as nat,
        |i: int| constant_for(prefix, shouty_snake_case(entries[i].0@), entries[i].1),
    )
}

/// Names the constant for one entry: `shouty` is the entry's name in upper
/// case with underscores.
pub fn name_constant(prefix: &str, shouty: &str, id: i64) -> (constant: Constant)
    ensures
        constant@ == constant_for(prefix@, shouty@, id),
{
    let mut name: String = String::from_str(prefix);
    name.append(shouty);
    Constant { name, id }
}

/// Putting an element into a sequence adds it to what the sequence holds.
proof fn lemma_insert_to_multiset(s: Seq<(Seq<char>, int)>, at: int, x: (Seq<char>, int))
    requires
        0 <= at <= s.len(),
    ensures
        s.insert(at, x).to_multiset() == s.to_multiset().insert(x),
{
    broadcast use vstd::seq_lib::group_to_multiset_ensures;

    let t = s.insert(at, x);
    assert(t.remove(at) =~= s);
    assert(t[at] == x);
    assert(t.remove(at).to_multiset() =~= t.to_multiset().remove(x));
    assert(t.contains(x));
    assert(t.to_multiset().count(x) > 0);
    assert(t.to_multiset() =~= s.to_multiset().insert(x));
}

/// Puts `constant` into a list that is sorted by id, behind every
/// constant whose id is not higher.
fn insert_by_id(constants: &mut Vec<Constant>, constant: Constant)
    requires
        is_sorted_by_id(constants_model(old(constants)@)),
    ensures
        is_sorted_by_id(constants_model(final(constants)@)),
        constants_model(final(constants)@).to_multiset() == constants_model(
            old(constants)@,
        ).to_multiset().insert(constant@),
        final(constants)@.len() == old(constants)@.len() + 1,
{
    let n: usize = constants.len();
    let mut at: usize = 0;
    while at < n && constants[at].id <= constant.id
        invariant
            at <= n,
            n == constants@.len(),
            constants@ == old(constants)@,
            forall|k: int| 0 <= k < at ==> (#[trigger] constants@[k]).id <= constant.id,
        decreases n - at,
    {
        at += 1;
    }
    let ghost before = constants_model(constants@);
    let ghost added = constant@;
    constants.insert(at, constant);
    proof {
        let after = constants_model(constants@);
        assert(after =~= before.insert(at as int, added));
        lemma_insert_to_multiset(before, at as int, added);
        assert forall|i: int, j: int| 0 <= i <= j < after.len() implies after[i].1
            <= after[j].1 by {
            if i < at && j > at {
                assert(before[i] == old(constants)@[i]@);
                assert(before[j - 1].1 >= before[at as int].1);
            } else if i < at && j < at {
                assert(before[i].1 <= before[j].1);
            } else if i > at {
                assert(before[i - 1].1 <= before[j - 1].1);
            } else if i < at && j == at {
                assert(before[i] == old(constants)@[i]@);
            } else if i == at && j > at {
                assert(before[j - 1].1 >= before[at as int].1);
            }
        }
    }
}

/// The constants for the entries of the game's data: one for each entry,
/// named by the entry's name in upper case with underscores behind
/// `prefix`, sorted by id. Entries with the same id stay in the order in
/// which they came.
pub fn constants_by_id(prefix: &str, entries: &Vec<(String, i64)>) -> (constants: Vec<Constant>)
    ensures
        constants@.len() == entries@.len(),
        is_sorted_by_id(constants_model(constants@)),
        constants_model(constants@).to_multiset() == constants_for(
            prefix@,
            entries@,
            entries@.len() as int,
        ).to_multiset(),
{
    let mut constants: Vec<Constant> = Vec::new();
    let n: usize = entries.len();
    let mut i: usize = 0;
    assert(constants_model(constants@) =~= constants_for(prefix@, entries@, 0));
    while i < n
        invariant
            i <= n,
            n == entries@.len(),
            constants@.len() == i,
            is_sorted_by_id(constants_model(constants@)),
            constants_model(constants@).to_multiset() == constants_for(
                prefix@,
                entries@,
                i as int,
            ).to_multiset(),
        decreases n - i,
    {
        let shouty: String = to_shouty_snake_case(entries[i].0.as_str());
        let constant: Constant = name_constant(prefix, shouty.as_str(), entries[i].1);
        proof {
            broadcast use vstd::seq_lib::group_to_multiset_ensures;

            assert(constants_for(prefix@, entries@, i + 1) =~= constants_for(
                prefix@,
                entries@,
                i as int,
            ).push(constant@));
        }
        insert_by_id(&mut constants, constant);
        i += 1;
    }
    constants
}

} // verus!
