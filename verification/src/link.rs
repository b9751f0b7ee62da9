//! Choosing the interface to open a link on.

use vstd::prelude::*;

verus! {

/// The place of the interface to use among those that the system lists, by
/// their names: the first whose name is exactly `interface_name`, or `None`
/// where no interface has that name.
pub fn get_interface(names: &Vec<String>, interface_name: &str) -> (index: Option<usize>)
    ensures
        match index {
            Some(i) => {
                &&& i < names@.len()
                &&& names@[i as int]@ == interface_name@
                &&& forall|j: int| 0 <= j < i ==> (#[trigger] names@[j])@ != interface_name@
            },
            None => forall|j: int|
                0 <= j < names@.len() ==> (#[trigger] names@[j])@ != interface_name@,
        },
{
    let wanted: String = interface_name.to_owned();
    let mut i: usize = 0;
    while i < names.len()
        invariant
            i <= names@.len(),
            wanted@ == interface_name@,
            forall|j: int| 0 <= j < i ==> (#[trigger] names@[j])@ != interface_name@,
        decreases names@.len() - i,
    {
        if names[i] == wanted {
            return Some(i);
        }
        i += 1;
    }
    None
}

} // verus!
