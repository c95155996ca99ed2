//! The packet identifiers that a client gives out, one after another.

use crate::machine;
use vstd::prelude::*;

verus! {

/// The identifier that is given out after so many others.
pub open spec fn id_after_many(id: u16, count: nat) -> u16
    decreases count,
{
    if count == 0 {
        id
    } else {
        machine::id_after(id_after_many(id, (count - 1) as nat))
    }
}

/// Identifiers count from 1 to 65535 and around.
pub proof fn law_ids_count_around(id: u16, count: nat)
    requires
        id != 0,
    ensures
        id_after_many(id, count) == (id - 1 + count) % 65535 + 1,
    decreases count,
{
    if count > 0 {
        law_ids_count_around(id, (count - 1) as nat);
    }
}

/// No identifier is zero, and none comes twice among 65535 in a row.
pub proof fn law_ids_are_fresh(id: u16, i: nat, j: nat)
    requires
        id != 0,
        i < j < i + 65535,
    ensures
        id_after_many(id, i) != 0,
        id_after_many(id, i) != id_after_many(id, j),
{
    law_ids_count_around(id, i);
    law_ids_count_around(id, j);
}

/// Identifiers repeat after 65535 of them, and not before each has come once.
pub proof fn law_ids_cycle(id: u16, count: nat, wanted: u16)
    requires
        id != 0,
        wanted != 0,
    ensures
        id_after_many(id, count + 65535) == id_after_many(id, count),
        exists|i: nat| count < i <= count + 65535 && #[trigger] id_after_many(id, i) == wanted,
{
    law_ids_count_around(id, count);
    law_ids_count_around(id, count + 65535);
    let at = id_after_many(id, count);
    let steps: nat = if wanted > at {
        (wanted - at) as nat
    } else {
        (wanted - at + 65535) as nat
    };
    law_ids_count_around(id, count + steps);
    assert(id_after_many(id, count + steps) == wanted);
}


/// So many identifiers in a row, from the one after `id` on.
pub open spec fn given_out(id: u16, count: nat) -> Seq<u16> {
    Seq::new(count, |i: int| id_after_many(id, (i + 1) as nat))
}

/// Of 65535 identifiers in a row no two are the same, they are the numbers from 1
/// to 65535, and the one that follows is the first of them again.
pub proof fn law_ids_full_cycle(id: u16)
    requires
        id != 0,
    ensures
        given_out(id, 65535).no_duplicates(),
        forall|wanted: u16| #[trigger] given_out(id, 65535).contains(wanted) <==> wanted != 0,
        id_after_many(id, 65536) == given_out(id, 65535)[0],
{
    let ids = given_out(id, 65535);
    assert forall|i: int, j: int| 0 <= i < ids.len() && 0 <= j < ids.len() && i != j implies ids[i]
        != ids[j] by {
        if i < j {
            law_ids_are_fresh(id, (i + 1) as nat, (j + 1) as nat);
        } else {
            law_ids_are_fresh(id, (j + 1) as nat, (i + 1) as nat);
        }
    }
    assert forall|wanted: u16| #[trigger] ids.contains(wanted) <==> wanted != 0 by {
        if wanted != 0 {
            law_ids_cycle(id, 0, wanted);
            let i = choose|i: nat|
                0 < i <= 65535 && #[trigger] id_after_many(id, i) == wanted;
            assert(ids[i - 1] == wanted);
        }
        if ids.contains(wanted) {
            let i = choose|i: int| 0 <= i < ids.len() && ids[i] == wanted;
            law_ids_count_around(id, (i + 1) as nat);
        }
    }
    law_ids_cycle(id, 1, 1);
}

} // verus!
