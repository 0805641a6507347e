//! Lists of named values, such as the cookies of a request or the
//! parameters of the process, and their lookup by name.

use vstd::prelude::*;

verus! {

/// The value of the first pair whose name is `name`, if there is one.
pub open spec fn spec_first_value(pairs: Seq<(String, String)>, name: Seq<char>) -> Option<
    Seq<char>,
>
    decreases pairs.len(),
{
    if pairs.len() == 0 {
        None
    } else if pairs[0].0@ == name {
        Some(pairs[0].1@)
    } else {
        spec_first_value(pairs.drop_first(), name)
    }
}

/// The map from each name that occurs in the list to its value there.
pub open spec fn values_by_name(pairs: Seq<(String, String)>) -> Map<Seq<char>, Seq<char>> {
    Map::new(
        |name: Seq<char>| spec_first_value(pairs, name) is Some,
        |name: Seq<char>| spec_first_value(pairs, name)->0,
    )
}

/// Whether `found` is the optional string `expected`.
pub open spec fn is_value(found: Option<String>, expected: Option<Seq<char>>) -> bool {
    match expected {
        Some(value) => found matches Some(text) && text@ == value,
        None => found is None,
    }
}

/// Looks a name up in a list of named values; the first pair with that name
/// counts.
pub fn first_value(pairs: &Vec<(String, String)>, name: &str) -> (found: Option<String>)
    ensures
        is_value(found, spec_first_value(pairs@, name@)),
{
    let wanted = String::from_str(name);
    let mut index: usize = 0;
    assert(pairs@.skip(0) =~= pairs@);
    while index < pairs.len()
        invariant
            index <= pairs.len(),
            wanted@ == name@,
            spec_first_value(pairs@, name@) == spec_first_value(pairs@.skip(index as int), name@),
        decreases pairs.len() - index,
    {
        proof {
            assert(pairs@.skip(index as int)[0] == pairs@[index as int]);
            assert(pairs@.skip(index as int).drop_first() =~= pairs@.skip(index as int + 1));
        }
        if pairs[index].0 == wanted {
            return Some(pairs[index].1.clone());
        }
        index += 1;
    }
    None
}

} // verus!
