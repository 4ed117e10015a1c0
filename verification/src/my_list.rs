//! The viewer's "My List": titles keyed by their id, added and removed by
//! the list buttons of the cards, the spotlight cards and the details modal.

use vstd::prelude::*;
use std::collections::HashMap;

verus! {

broadcast use vstd::std_specs::hash::group_hash_axioms;

/// The list after toggling `id`: removed when present, else added with
/// `entry`.
pub open spec fn toggled<V>(list: Map<u32, V>, id: u32, entry: V) -> Map<u32, V> {
    if list.contains_key(id) {
        list.remove(id)
    } else {
        list.insert(id, entry)
    }
}

/// Toggles `id` in the list (`entry` is what is stored when it is added);
/// returns whether the title is in the list afterwards.
pub fn toggle_in_list<V>(list: &mut HashMap<u32, V>, id: u32, entry: V) -> (now_listed: bool)
    ensures
        final(list)@ == toggled(old(list)@, id, entry),
        now_listed == final(list)@.contains_key(id),
        now_listed == !old(list)@.contains_key(id),
{
    assert(vstd::std_specs::hash::obeys_key_model::<u32>());
    if list.contains_key(&id) {
        list.remove(&id);
        false
    } else {
        list.insert(id, entry);
        true
    }
}

/// Whether the title is in the list.
pub fn is_listed<V>(list: &HashMap<u32, V>, id: u32) -> (b: bool)
    ensures
        b == list@.contains_key(id),
{
    assert(vstd::std_specs::hash::obeys_key_model::<u32>());
    list.contains_key(&id)
}

/// The tooltip of a list button.
pub fn list_button_title(listed: bool) -> (s: &'static str)
    ensures
        s@ == (if listed {
            "Remove from My List"@
        } else {
            "Add to My List"@
        }),
{
    if listed {
        "Remove from My List"
    } else {
        "Add to My List"
    }
}

/// Toggling a title twice leaves the list holding the same titles as before,
/// and toggling one title leaves every other title as it was.
pub proof fn law_toggle_twice<V>(list: Map<u32, V>, id: u32, e1: V, e2: V)
    ensures
        toggled(toggled(list, id, e1), id, e2).dom() == list.dom(),
        !list.contains_key(id) ==> toggled(toggled(list, id, e1), id, e2) == list,
        forall|k: u32| k != id ==> (#[trigger] toggled(list, id, e1).contains_key(k) <==> list.contains_key(k)),
        forall|k: u32|
            k != id && list.contains_key(k) ==> #[trigger] toggled(list, id, e1)[k] == list[k],
{
    assert(toggled(toggled(list, id, e1), id, e2).dom() =~= list.dom());
    if !list.contains_key(id) {
        assert(toggled(toggled(list, id, e1), id, e2) =~= list);
    }
}

} // verus!
