//! Looking a name up in a list of names, by its characters.

use vstd::prelude::*;

verus! {

/// Whether `name` is one of `names`.
pub open spec fn has_name(names: Seq<String>, name: Seq<char>) -> bool {
    exists|i: int| 0 <= i < names.len() && (#[trigger] names[i])@ == name
}

/// Whether no name occurs twice in `names`.
pub open spec fn distinct_names(names: Seq<String>) -> bool {
    forall|i: int, j: int|
        0 <= i < j < names.len() ==> (#[trigger] names[i])@ != (#[trigger] names[j])@
}

/// The first place at which `name` stands in `names`, if it is there.
pub fn find_name(names: &Vec<String>, name: &String) -> (place: Option<usize>)
    ensures
        place is Some <==> has_name(names@, name@),
        place matches Some(i) ==> {
            &&& i < names@.len()
            &&& names@[i as int]@ == name@
            &&& forall|j: int| 0 <= j < i ==> (#[trigger] names@[j])@ != name@
        },
{
    let mut i: usize = 0;
    while i < names.len()
        invariant
            i <= names@.len(),
            forall|j: int| 0 <= j < i ==> (#[trigger] names@[j])@ != name@,
        decreases names@.len() - i,
    {
        if names[i] == *name {
            return Some(i);
        }
        i = i + 1;
    }
    None
}

/// Taking one name out of a list without repetitions removes that name
/// and no other.
pub proof fn lemma_remove_name(names: Seq<String>, at: int)
    requires
        distinct_names(names),
        0 <= at < names.len(),
    ensures
        distinct_names(names.remove(at)),
        forall|name: Seq<char>| #[trigger]
            has_name(names.remove(at), name) <==> has_name(names, name) && name != names[at]@,
{
    let rest = names.remove(at);
    assert forall|name: Seq<char>| #[trigger]
        has_name(rest, name) <==> has_name(names, name) && name != names[at]@ by {
        if has_name(rest, name) {
            let k = choose|k: int| 0 <= k < rest.len() && (#[trigger] rest[k])@ == name;
            if k < at {
                assert(names[k]@ == name);
            } else {
                assert(names[k + 1]@ == name);
            }
        }
        if has_name(names, name) && name != names[at]@ {
            let k = choose|k: int| 0 <= k < names.len() && (#[trigger] names[k])@ == name;
            if k < at {
                assert(rest[k]@ == name);
            } else {
                assert(rest[k - 1]@ == name);
            }
        }
    }
    assert forall|i: int, j: int| 0 <= i < j < rest.len() implies (#[trigger] rest[i])@ != (
    #[trigger] rest[j])@ by {
        let a = if i < at {
            i
        } else {
            i + 1
        };
        let b = if j < at {
            j
        } else {
            j + 1
        };
        assert(rest[i] == names[a]);
        assert(rest[j] == names[b]);
    }
}

/// Adding a name puts that name in and no other; where it was not there
/// before, no repetition comes of it.
pub proof fn lemma_push_name(names: Seq<String>, added: String)
    ensures
        forall|name: Seq<char>| #[trigger]
            has_name(names.push(added), name) <==> has_name(names, name) || name == added@,
        distinct_names(names) && !has_name(names, added@) ==> distinct_names(names.push(added)),
{
    let more = names.push(added);
    assert forall|name: Seq<char>| #[trigger]
        has_name(more, name) <==> has_name(names, name) || name == added@ by {
        if has_name(more, name) {
            let k = choose|k: int| 0 <= k < more.len() && (#[trigger] more[k])@ == name;
            if k < names.len() {
                assert(names[k]@ == name);
            }
        }
        if has_name(names, name) {
            let k = choose|k: int| 0 <= k < names.len() && (#[trigger] names[k])@ == name;
            assert(more[k]@ == name);
        }
        if name == added@ {
            assert(more[names.len() as int]@ == name);
        }
    }
    if distinct_names(names) && !has_name(names, added@) {
        assert forall|i: int, j: int| 0 <= i < j < more.len() implies (#[trigger] more[i])@ != (
        #[trigger] more[j])@ by {
            assert(more[i] == names[i]);
            if j < names.len() {
                assert(more[j] == names[j]);
            }
        }
    }
}

} // verus!
