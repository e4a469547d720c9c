//! Selection of a port by its name.

use vstd::prelude::*;
use vstd::string::*;

verus! {

/// Whether the port at position `i` of `names` is called `wanted`. A port
/// whose name could not be read matches nothing.
pub open spec fn is_named(names: Seq<Option<String>>, i: int, wanted: Seq<char>) -> bool {
    names[i] matches Some(name) && name@ == wanted
}

/// Finds the first port whose name is exactly `wanted`. `None` says that no
/// port has that name, in which case the role that the port was wanted for
/// stays unfilled.
pub fn find_port(names: &Vec<Option<String>>, wanted: &String) -> (position: Option<usize>)
    ensures
        position is Some ==> position.unwrap() < names@.len() && is_named(
            names@,
            position.unwrap() as int,
            wanted@,
        ),
        position is Some ==> forall|j: int|
            0 <= j < position.unwrap() ==> !is_named(names@, j, wanted@),
        position is None ==> forall|j: int| 0 <= j < names@.len() ==> !is_named(names@, j, wanted@),
{
    let mut i: usize = 0;
    while i < names.len()
        invariant
            i <= names@.len(),
            forall|j: int| 0 <= j < i ==> !is_named(names@, j, wanted@),
        decreases names@.len() - i,
    {
        if let Some(name) = &names[i] {
            if *name == *wanted {
                return Some(i);
            }
        }
        i += 1;
    }
    None
}

} // verus!
