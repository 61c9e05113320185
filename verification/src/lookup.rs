//! Finding a key in a list of distinct keys.

use vstd::prelude::*;

verus! {

/// The characters of each string of a list.
pub open spec fn texts(strings: Seq<String>) -> Seq<Seq<char>> {
    strings.map_values(|s: String| s@)
}

/// The place of `key` among `keys`, if it is there.
pub fn position(keys: &Vec<String>, key: &str) -> (place: Option<usize>)
    ensures
        match place {
            Some(i) => i < keys.len() && keys[i as int]@ == key@ && !texts(keys@).take(
                i as int,
            ).contains(key@),
            None => !texts(keys@).contains(key@),
        },
{
    let wanted = key.to_owned();
    let mut i: usize = 0;
    while i < keys.len()
        invariant
            i <= keys.len(),
            wanted@ == key@,
            !texts(keys@).take(i as int).contains(key@),
        decreases keys.len() - i,
    {
        if keys[i] == wanted {
            return Some(i);
        }
        i += 1;
    }
    assert(texts(keys@).take(i as int) =~= texts(keys@));
    None
}

/// In a list without duplicates, the place where a key stands is the place
/// that `index_of` names.
pub proof fn lemma_place_is_index<K>(keys: Seq<K>, key: K, place: int)
    requires
        keys.no_duplicates(),
        0 <= place < keys.len(),
        keys[place] == key,
    ensures
        keys.contains(key),
        keys.index_of(key) == place,
{
}

} // verus!
