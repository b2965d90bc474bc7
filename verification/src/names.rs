use vstd::prelude::*;
use vstd::string::*;
use crate::text::{str_eq, string_views};

verus! {

/// The set of names a vector of strings holds.
pub open spec fn name_set(v: Seq<String>) -> Set<Seq<char>> {
    string_views(v).to_set()
}

/// Taking one more element adds its name to the names taken.
pub proof fn lemma_name_set_take_step(v: Seq<String>, i: int)
    requires
        0 <= i < v.len(),
    ensures
        name_set(v.take(i + 1)) == name_set(v.take(i)).insert(v[i]@),
{
    assert(string_views(v.take(i + 1)) =~= string_views(v.take(i)).push(v[i]@));
    string_views(v.take(i)).lemma_push_to_set_commute(v[i]@);
}

/// Whether `v` holds the name `n`.
pub fn contains_name(v: &Vec<String>, n: &str) -> (r: bool)
    ensures
        r == string_views(v@).contains(n@),
{
    let mut i: usize = 0;
    while i < v.len()
        invariant
            i <= v.len(),
            forall|j: int| 0 <= j < i ==> v@[j]@ != n@,
        decreases v.len() - i,
    {
        if str_eq(v[i].as_str(), n) {
            assert(string_views(v@)[i as int] == n@);
            return true;
        }
        i = i + 1;
    }
    proof {
        if string_views(v@).contains(n@) {
            let k = choose|k: int| 0 <= k < string_views(v@).len() && #[trigger] string_views(v@)[k] == n@;
            assert(v@[k]@ == n@);
        }
    }
    false
}

/// Adds the names of `new` that `names` does not hold yet, keeping every
/// name once.
pub fn add_names(names: &mut Vec<String>, new: Vec<String>)
    requires
        string_views(old(names)@).no_duplicates(),
    ensures
        string_views(final(names)@).no_duplicates(),
        name_set(final(names)@) == name_set(old(names)@).union(name_set(new@)),
{
    let mut i: usize = 0;
    while i < new.len()
        invariant
            i <= new.len(),
            string_views(names@).no_duplicates(),
            name_set(names@) == name_set(old(names)@).union(name_set(new@.take(i as int))),
        decreases new.len() - i,
    {
        let n = &new[i];
        proof {
            lemma_name_set_take_step(new@, i as int);
        }
        if !contains_name(names, n.as_str()) {
            let ghost before = names@;
            names.push(n.clone());
            proof {
                assert(string_views(names@) =~= string_views(before).push(n@));
                string_views(before).lemma_push_to_set_commute(n@);
            }
        } else {
            proof {
                assert(name_set(names@).contains(n@));
            }
        }
        i = i + 1;
    }
    proof {
        assert(new@.take(new.len() as int) == new@);
    }
}

/// The names of `names` without the name `n`.
pub fn without_name(names: Vec<String>, n: &str) -> (r: Vec<String>)
    requires
        string_views(names@).no_duplicates(),
    ensures
        string_views(r@).no_duplicates(),
        name_set(r@) == name_set(names@).remove(n@),
{
    let mut r: Vec<String> = Vec::new();
    let mut i: usize = 0;
    while i < names.len()
        invariant
            i <= names.len(),
            string_views(names@).no_duplicates(),
            string_views(r@).no_duplicates(),
            forall|x: Seq<char>|
                string_views(r@).contains(x) ==> exists|k: int|
                    0 <= k < i && #[trigger] string_views(names@)[k] == x,
            name_set(r@) == name_set(names@.take(i as int)).remove(n@),
        decreases names.len() - i,
    {
        let ghost before = r@;
        proof {
            lemma_name_set_take_step(names@, i as int);
        }
        if !str_eq(names[i].as_str(), n) {
            r.push(names[i].clone());
            proof {
                assert(string_views(r@) =~= string_views(before).push(names@[i as int]@));
                assert forall|a: int, b: int|
                    0 <= a < string_views(r@).len() && 0 <= b < string_views(r@).len() && a != b
                        implies string_views(r@)[a] != string_views(r@)[b] by {
                    if a == before.len() || b == before.len() {
                        let o = if a == before.len() { b } else { a };
                        let x = string_views(before)[o];
                        assert(string_views(before).contains(x));
                        let k = choose|k: int| 0 <= k < i && #[trigger] string_views(names@)[k] == x;
                        assert(string_views(names@)[i as int] == names@[i as int]@);
                    }
                }
                assert forall|x: Seq<char>| string_views(r@).contains(x) implies exists|k: int|
                    0 <= k < i + 1 && #[trigger] string_views(names@)[k] == x by {
                    if x == names@[i as int]@ {
                        assert(string_views(names@)[i as int] == x);
                    } else {
                        let m = choose|m: int| 0 <= m < string_views(r@).len() && #[trigger] string_views(r@)[m] == x;
                        assert(string_views(before)[m] == x);
                        assert(string_views(before).contains(x));
                    }
                }
                string_views(before).lemma_push_to_set_commute(names@[i as int]@);
            }
        } else {
            proof {
                assert(r@ == before);
            }
        }
        i = i + 1;
    }
    proof {
        assert(names@.take(names.len() as int) == names@);
    }
    r
}

} // verus!
