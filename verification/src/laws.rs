//! The laws the persistence layer obeys, stated over the database model
//! and proved from the contracts in [`crate::gtfsdb`].

use vstd::multiset::Multiset;
use vstd::prelude::*;

use crate::agency::Agency;
use crate::gtfsdb::{
    batch_admissible, create_all_effect, declared_pairs, drop_all_effect, insert_effect, Table,
};
use crate::sqlite::rows_of;
use crate::trips::{trip_columns, Trip};
use crate::values::{
    col_pair, has_pk, pk_complete, pk_conflict, pk_matches, row_violates, ColSchema, ValueV,
};

verus! {

/// Mapping a sequence element by element keeps each image's
/// multiplicity: the count of `f(a)` among the images equals the count
/// of `a` in the sequence, as long as `f` maps no two values together.
proof fn lemma_map_count<A, B>(s: Seq<A>, f: spec_fn(A) -> B, a: A)
    requires
        forall|x: A, y: A| #![trigger f(x), f(y)] f(x) == f(y) ==> x == y,
    ensures
        s.map_values(f).to_multiset().count(f(a)) == s.to_multiset().count(a),
    decreases s.len(),
{
    broadcast use vstd::seq_lib::group_to_multiset_ensures;
    broadcast use vstd::multiset::group_multiset_axioms;
    broadcast use vstd::multiset::group_multiset_properties;

    if s.len() == 0 {
        assert(s.map_values(f) =~= Seq::<B>::empty());
        assert(!s.contains(a));
        assert(!s.map_values(f).contains(f(a)));
    } else {
        let s0 = s.drop_last();
        let b = s.last();
        lemma_map_count(s0, f, a);
        assert(s =~= s0.push(b));
        assert(s.map_values(f) =~= s0.map_values(f).push(f(b)));
        assert(s0.push(b).to_multiset() == s0.to_multiset().insert(b));
        assert(s0.map_values(f).push(f(b)).to_multiset() == s0.map_values(f).to_multiset().insert(
            f(b),
        ));
        if b == a {
            assert(f(b) == f(a));
        } else {
            assert(f(b) != f(a));
        }
    }
}

/// Two batches whose encodings carry the same bag of rows are the same
/// bag of records, because no two distinct records share an encoding.
pub proof fn lemma_map_injective_multiset<A, B>(s1: Seq<A>, s2: Seq<A>, f: spec_fn(A) -> B)
    requires
        forall|x: A, y: A| #![trigger f(x), f(y)] f(x) == f(y) ==> x == y,
        s1.map_values(f).to_multiset() == s2.map_values(f).to_multiset(),
    ensures
        s1.to_multiset() == s2.to_multiset(),
{
    assert forall|a: A| s1.to_multiset().count(a) == s2.to_multiset().count(a) by {
        lemma_map_count(s1, f, a);
        lemma_map_count(s2, f, a);
    }
    assert(s1.to_multiset() =~= s2.to_multiset());
}

/// Filtering a single-element sequence keeps or drops that element.
pub proof fn lemma_filter_singleton<A>(a: A, p: spec_fn(A) -> bool)
    ensures
        seq![a].filter(p) == if p(a) {
            seq![a]
        } else {
            Seq::<A>::empty()
        },
{
    reveal_with_fuel(Seq::filter, 2);
    assert(seq![a].drop_last() =~= Seq::<A>::empty());
    assert(seq![a].last() == a);
    if p(a) {
        assert(seq![a].filter(p) =~= seq![a]);
    } else {
        assert(seq![a].filter(p) =~= Seq::<A>::empty());
    }
}

/// Filtering after mapping is mapping after filtering, at the level of
/// bags: selecting the images that satisfy `q` out of all images gives
/// exactly the images of the elements that satisfy `p`, when `p` agrees
/// with `q` on images.
pub proof fn lemma_filter_map_multiset<A, B>(
    s: Seq<A>,
    f: spec_fn(A) -> B,
    p: spec_fn(A) -> bool,
    q: spec_fn(B) -> bool,
)
    requires
        forall|x: A| #[trigger] p(x) == q(f(x)),
    ensures
        s.filter(p).map_values(f).to_multiset() == s.map_values(f).to_multiset().filter(q),
    decreases s.len(),
{
    broadcast use vstd::seq_lib::group_to_multiset_ensures;
    broadcast use vstd::multiset::group_multiset_axioms;
    broadcast use vstd::multiset::group_multiset_properties;

    reveal_with_fuel(Seq::filter, 2);
    if s.len() == 0 {
        assert(s.filter(p) =~= Seq::<A>::empty());
        assert(s.filter(p).map_values(f) =~= Seq::<B>::empty());
        assert(s.map_values(f) =~= Seq::<B>::empty());
        assert forall|b: B|
            s.map_values(f).to_multiset().filter(q).count(b) == 0 by {
            assert(!s.map_values(f).contains(b));
        }
        assert(s.filter(p).map_values(f).to_multiset() =~= s.map_values(f).to_multiset().filter(
            q,
        ));
    } else {
        let s0 = s.drop_last();
        let a = s.last();
        lemma_filter_map_multiset(s0, f, p, q);
        assert(s.filter(p) == if p(a) {
            s0.filter(p).push(a)
        } else {
            s0.filter(p)
        });
        assert(s.map_values(f) =~= s0.map_values(f).push(f(a)));
        assert(s.map_values(f).to_multiset() == s0.map_values(f).to_multiset().insert(f(a)));
        if p(a) {
            assert(s.filter(p).map_values(f) =~= s0.filter(p).map_values(f).push(f(a)));
            assert(s.filter(p).map_values(f).to_multiset() == s0.filter(p).map_values(
                f,
            ).to_multiset().insert(f(a)));
            assert forall|b: B|
                s.map_values(f).to_multiset().filter(q).count(b) == s0.map_values(
                    f,
                ).to_multiset().filter(q).insert(f(a)).count(b) by {}
            assert(s.map_values(f).to_multiset().filter(q) =~= s0.map_values(
                f,
            ).to_multiset().filter(q).insert(f(a)));
        } else {
            assert(s.filter(p).map_values(f).to_multiset() == s0.filter(p).map_values(
                f,
            ).to_multiset());
            assert forall|b: B|
                s.map_values(f).to_multiset().filter(q).count(b) == s0.map_values(
                    f,
                ).to_multiset().filter(q).count(b) by {}
            assert(s.map_values(f).to_multiset().filter(q) =~= s0.map_values(
                f,
            ).to_multiset().filter(q));
        }
    }
}

/// Encoding a record is injective: rows remember their records.
pub proof fn lemma_row_model_injective<T: Table>()
    ensures
        forall|x: T::V, y: T::V|
            #![trigger T::row_model(x), T::row_model(y)]
            T::row_model(x) == T::row_model(y) ==> x == y,
{
    assert forall|x: T::V, y: T::V|
        #[trigger] T::row_model(x) == #[trigger] T::row_model(y) implies x == y by {
        T::lemma_round_trip(x);
        T::lemma_round_trip(y);
    }
}

/// Dropping and recreating every relation is idempotent: doing it a
/// second time right after leaves the database exactly where the first
/// pass left it.
pub proof fn lemma_lifecycle_idempotent(
    s: Map<Seq<char>, Seq<ColSchema>>,
    r: Map<Seq<char>, Multiset<Seq<ValueV>>>,
)
    ensures
        ({
            let once = create_all_effect(drop_all_effect(s, r).0, drop_all_effect(s, r).1);
            create_all_effect(
                drop_all_effect(once.0, once.1).0,
                drop_all_effect(once.0, once.1).1,
            ) == once
        }),
{
    Agency::lemma_wf();
    Trip::lemma_wf();
    let once = create_all_effect(drop_all_effect(s, r).0, drop_all_effect(s, r).1);
    let again = create_all_effect(
        drop_all_effect(once.0, once.1).0,
        drop_all_effect(once.0, once.1).1,
    );
    assert(Agency::spec_table_name() != Trip::spec_table_name()) by {
        reveal_strlit("agency");
        reveal_strlit("trips");
        assert(("agency"@).len() == 6);
        assert(("trips"@).len() == 5);
    }
    assert(again.0 =~= once.0);
    assert(again.1 =~= once.1);
}

/// Recreating relations that already stand is a no-op: `create_all`
/// right after `create_all` changes nothing.
pub proof fn lemma_create_all_idempotent(
    s: Map<Seq<char>, Seq<ColSchema>>,
    r: Map<Seq<char>, Multiset<Seq<ValueV>>>,
)
    ensures
        ({
            let once = create_all_effect(s, r);
            create_all_effect(once.0, once.1) == once
        }),
{
    let once = create_all_effect(s, r);
    let again = create_all_effect(once.0, once.1);
    assert(again.0 =~= once.0);
    assert(again.1 =~= once.1);
}

/// Inserting the empty batch leaves every relation's rows unchanged.
pub proof fn lemma_insert_empty<T: Table>(r: Map<Seq<char>, Multiset<Seq<ValueV>>>)
    ensures
        insert_effect::<T>(r, Seq::<T>::empty()) == r,
{
}

/// A batch written into an empty relation reads back as the same bag of
/// records: what a full scan after the insert returns is, record for
/// record, the inserted batch, in some order.
pub proof fn lemma_insert_select_roundtrip<T: Table>(
    r: Map<Seq<char>, Multiset<Seq<ValueV>>>,
    batch: Seq<T>,
    selected: Seq<T>,
)
    requires
        rows_of(r, T::spec_table_name()).len() == 0,
        batch.len() > 0,
        selected.map_values(|x: T| T::row_model(x@)).to_multiset() == rows_of(
            insert_effect::<T>(r, batch),
            T::spec_table_name(),
        ),
    ensures
        selected.map_values(|x: T| x@).to_multiset() == batch.map_values(|x: T| x@).to_multiset(),
{
    broadcast use vstd::multiset::group_multiset_axioms;

    let enc = |m: T::V| T::row_model(m);
    let vw = |x: T| x@;
    let t = T::spec_table_name();
    assert(rows_of(r, t) =~= Multiset::<Seq<ValueV>>::empty()) by {
        assert forall|row: Seq<ValueV>| rows_of(r, t).count(row) == 0 by {
            if rows_of(r, t).count(row) > 0 {
                assert(rows_of(r, t).len() > 0);
            }
        }
    }
    assert(rows_of(insert_effect::<T>(r, batch), t) == rows_of(r, t).add(
        batch.map_values(|x: T| T::row_model(x@)).to_multiset(),
    ));
    assert(rows_of(r, t).add(batch.map_values(|x: T| T::row_model(x@)).to_multiset()) =~= batch
        .map_values(|x: T| T::row_model(x@)).to_multiset());
    assert(selected.map_values(vw).map_values(enc) =~= selected.map_values(
        |x: T| T::row_model(x@),
    ));
    assert(batch.map_values(vw).map_values(enc) =~= batch.map_values(|x: T| T::row_model(x@)));
    lemma_row_model_injective::<T>();
    lemma_map_injective_multiset::<T::V, Seq<ValueV>>(
        selected.map_values(vw),
        batch.map_values(vw),
        enc,
    );
}


/// The trips relation declares exactly one key column: the trip
/// identifier, third in the layout.
proof fn lemma_trip_key()
    ensures
        declared_pairs::<Trip>().len() == 13,
        forall|i: int|
            0 <= i < 13 ==> ((#[trigger] declared_pairs::<Trip>()[i]).pk != 0 <==> i == 2),
{
    assert forall|i: int| 0 <= i < 13 implies ((#[trigger] declared_pairs::<Trip>()[i]).pk != 0
        <==> i == 2) by {
        assert(declared_pairs::<Trip>()[i] == col_pair(trip_columns()[i]));
    }
}

/// The key facts a trip's row carries: thirteen values, the third of
/// which is the trip identifier's text.
proof fn lemma_trip_row_key(m: crate::trips::TripV)
    ensures
        Trip::row_model(m).len() == 13,
        Trip::row_model(m)[2] == ValueV::Text(m.trip_id),
{
}

/// Two trips with one identifier never stand in one admissible batch:
/// the later one duplicates the earlier one's declared key, whatever
/// else the relation already holds.
pub proof fn lemma_duplicate_trip_id_rejected(
    batch: Seq<Trip>,
    existing: Multiset<Seq<ValueV>>,
    i: int,
    j: int,
)
    requires
        0 <= i < j < batch.len(),
        batch[i]@.trip_id == batch[j]@.trip_id,
    ensures
        !batch_admissible::<Trip>(batch, existing),
{
    broadcast use vstd::seq_lib::group_to_multiset_ensures;
    broadcast use vstd::multiset::group_multiset_axioms;

    lemma_trip_key();
    let cols = declared_pairs::<Trip>();
    let rmi = Trip::row_model(batch[i]@);
    let rmj = Trip::row_model(batch[j]@);
    lemma_trip_row_key(batch[i]@);
    lemma_trip_row_key(batch[j]@);
    let taken = batch.take(j).map_values(|x: Trip| Trip::row_model(x@));
    let pool = existing.add(taken.to_multiset());
    assert(taken[i] == rmi);
    assert(taken.contains(rmi));
    assert(taken.to_multiset().count(rmi) > 0);
    assert(pool.count(rmi) > 0);
    assert(has_pk(cols)) by {
        assert(cols[2].pk != 0);
    }
    assert(pk_complete(rmj, cols)) by {
        assert forall|k: int|
            0 <= k < cols.len() && (#[trigger] cols[k]).pk != 0 implies k < rmj.len() && !(rmj[k]
            is Null) by {
            assert(k == 2);
        }
    }
    assert(pk_matches(rmj, rmi, cols)) by {
        assert forall|k: int|
            0 <= k < cols.len() && (#[trigger] cols[k]).pk != 0 implies k < rmj.len() && k
            < rmi.len() && rmj[k] == rmi[k] by {
            assert(k == 2);
        }
    }
    assert(pk_conflict(rmj, cols, pool));
    assert(!batch_admissible::<Trip>(batch, existing)) by {
        if batch_admissible::<Trip>(batch, existing) {
            assert(!row_violates(Trip::row_model((batch[j])@), cols, pool));
        }
    }
}

/// A trip whose identifier already keys a stored row never stands in an
/// admissible batch.
pub proof fn lemma_stored_trip_id_rejected(
    batch: Seq<Trip>,
    existing: Multiset<Seq<ValueV>>,
    i: int,
    row: Seq<ValueV>,
)
    requires
        0 <= i < batch.len(),
        existing.count(row) > 0,
        2 < row.len(),
        row[2] == ValueV::Text(batch[i]@.trip_id),
    ensures
        !batch_admissible::<Trip>(batch, existing),
{
    broadcast use vstd::seq_lib::group_to_multiset_ensures;
    broadcast use vstd::multiset::group_multiset_axioms;

    lemma_trip_key();
    let cols = declared_pairs::<Trip>();
    let rmi = Trip::row_model(batch[i]@);
    lemma_trip_row_key(batch[i]@);
    let taken = batch.take(i).map_values(|x: Trip| Trip::row_model(x@));
    let pool = existing.add(taken.to_multiset());
    assert(pool.count(row) > 0);
    assert(has_pk(cols)) by {
        assert(cols[2].pk != 0);
    }
    assert(pk_complete(rmi, cols)) by {
        assert forall|k: int|
            0 <= k < cols.len() && (#[trigger] cols[k]).pk != 0 implies k < rmi.len() && !(rmi[k]
            is Null) by {
            assert(k == 2);
        }
    }
    assert(pk_matches(rmi, row, cols)) by {
        assert forall|k: int|
            0 <= k < cols.len() && (#[trigger] cols[k]).pk != 0 implies k < rmi.len() && k
            < row.len() && rmi[k] == row[k] by {
            assert(k == 2);
        }
    }
    assert(pk_conflict(rmi, cols, pool));
    assert(!batch_admissible::<Trip>(batch, existing)) by {
        if batch_admissible::<Trip>(batch, existing) {
            assert(!row_violates(Trip::row_model((batch[i])@), cols, pool));
        }
    }
}

} // verus!
