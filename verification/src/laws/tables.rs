//! Tables.

use crate::alike::Alike;
use crate::table::Table;
use vstd::prelude::*;

verus! {

/// A new table holds nothing. What is put in a table is what it gives for that
/// key, and what is taken out is what it gave and is gone. Other keys are not
/// concerned.
pub proof fn law_table_gives_what_was_put_in<K: Alike, V>(
    empty: Table<K, V>,
    filled: &mut Table<K, V>,
    key: K,
    value: V,
    emptied: &mut Table<K, V>,
    gone: &K,
    taken: Option<V>,
    kept: &Table<K, V>,
    looked_for: &K,
    found: Option<&V>,
)
    requires
        call_ensures(Table::<K, V>::new, (), empty),
        call_ensures(Table::<K, V>::insert, (filled, key, value), ()),
        call_ensures(Table::<K, V>::remove, (emptied, gone), taken),
        call_ensures(Table::<K, V>::get, (kept, looked_for), found),
    ensures
        empty@.dom().is_empty(),
        final(filled)@.contains_pair(key.model(), value),
        final(filled)@.remove(key.model()) == old(filled)@.remove(key.model()),
        taken is Some <==> old(emptied)@.contains_key(gone.model()),
        taken is Some ==> taken->Some_0 == old(emptied)@[gone.model()],
        !final(emptied)@.contains_key(gone.model()),
        taken is Some ==> final(emptied)@.insert(gone.model(), taken->Some_0) == old(emptied)@,
        taken is None ==> final(emptied)@ == old(emptied)@,
        found is Some <==> kept@.contains_key(looked_for.model()),
        found is Some ==> *found->Some_0 == kept@[looked_for.model()],
{
    assert(empty@.dom() =~= Set::empty());
    assert(final(filled)@.remove(key.model()) =~= old(filled)@.remove(key.model()));
    if taken is Some {
        assert(final(emptied)@.insert(gone.model(), taken->Some_0) =~= old(emptied)@);
    } else {
        assert(final(emptied)@ =~= old(emptied)@);
    }
}

} // verus!
