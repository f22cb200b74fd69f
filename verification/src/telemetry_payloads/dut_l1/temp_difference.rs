use vstd::prelude::*;
use vstd::string::*;

verus! {

/// Joins tri-state conditions: true as soon as one is true, otherwise false as soon as one
/// is false, otherwise unknown.
pub open spec fn any_condition(conds: Seq<Option<bool>>) -> Option<bool> {
    if exists|i: int| 0 <= i < conds.len() && conds[i] == Some(true) {
        Some(true)
    } else if exists|i: int| 0 <= i < conds.len() && conds[i] == Some(false) {
        Some(false)
    } else {
        None
    }
}

/// Joins `conds` from the first to the last, as the L1 rules do.
pub fn combine_conditions(conds: &Vec<Option<bool>>) -> (r: Option<bool>)
    ensures
        r == any_condition(conds@),
{
    let mut acc: Option<bool> = None;
    let mut i: usize = 0;
    while i < conds.len()
        invariant
            i <= conds@.len(),
            acc == any_condition(conds@.take(i as int)),
        decreases conds@.len() - i,
    {
        let next = conds[i];
        let ghost prefix = conds@.take(i as int);
        let ghost ext = conds@.take(i + 1);
        assert(ext =~= prefix.push(next));
        acc = match (acc, next) {
            (Some(true), _) => Some(true),
            (_, Some(true)) => Some(true),
            (Some(false), _) => Some(false),
            (_, Some(false)) => Some(false),
            _ => None,
        };
        proof {
            if exists|j: int| 0 <= j < prefix.len() && prefix[j] == Some(true) {
                let j = choose|j: int| 0 <= j < prefix.len() && prefix[j] == Some(true);
                assert(ext[j] == Some(true));
            }
            if exists|j: int| 0 <= j < prefix.len() && prefix[j] == Some(false) {
                let j = choose|j: int| 0 <= j < prefix.len() && prefix[j] == Some(false);
                assert(ext[j] == Some(false));
            }
            if next == Some(true) {
                assert(ext[i as int] == Some(true));
            }
            if next == Some(false) {
                assert(ext[i as int] == Some(false));
            }
            assert forall|j: int| 0 <= j < ext.len() && j != i implies ext[j] == prefix[j] by {}
        }
        i = i + 1;
    }
    assert(conds@.take(conds@.len() as int) =~= conds@);
    acc
}

/// The join does not depend on the order of the conditions.
pub proof fn lemma_join_order_free(a: Seq<Option<bool>>, b: Seq<Option<bool>>)
    requires
        a.to_multiset() == b.to_multiset(),
    ensures
        any_condition(a) == any_condition(b),
{
    broadcast use vstd::multiset::group_multiset_axioms;
    a.to_multiset_ensures();
    b.to_multiset_ensures();
    if exists|i: int| 0 <= i < a.len() && a[i] == Some(true) {
        let i = choose|i: int| 0 <= i < a.len() && a[i] == Some(true);
        assert(a.to_multiset().count(Some(true)) > 0);
        assert(b.contains(Some(true)));
    }
    if exists|i: int| 0 <= i < b.len() && b[i] == Some(true) {
        let i = choose|i: int| 0 <= i < b.len() && b[i] == Some(true);
        assert(b.to_multiset().count(Some(true)) > 0);
        assert(a.contains(Some(true)));
    }
    if exists|i: int| 0 <= i < a.len() && a[i] == Some(false) {
        let i = choose|i: int| 0 <= i < a.len() && a[i] == Some(false);
        assert(a.to_multiset().count(Some(false)) > 0);
        assert(b.contains(Some(false)));
    }
    if exists|i: int| 0 <= i < b.len() && b[i] == Some(false) {
        let i = choose|i: int| 0 <= i < b.len() && b[i] == Some(false);
        assert(b.to_multiset().count(Some(false)) > 0);
        assert(a.contains(Some(false)));
    }
}

/// Refuses a reading at `ts` that is not later than the last valid one.
pub fn check_time_forward(last_valid_timestamp: Option<i64>, ts: i64) -> (r: Result<(), String>)
    ensures
        (last_valid_timestamp matches Some(last) && ts <= last) ==> (r matches Err(e) && e@
            == "tempo andou para trás"@),
        !(last_valid_timestamp matches Some(last) && ts <= last) ==> r is Ok,
{
    match last_valid_timestamp {
        Some(last) => if ts <= last {
            Err(String::from_str("tempo andou para trás"))
        } else {
            Ok(())
        },
        None => Ok(()),
    }
}

} // verus!
