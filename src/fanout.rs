use vstd::prelude::*;
use crate::bridge::BridgeFailure;

verus! {

/// Whether `k` is the index of the first worker failure among `joined`.
pub open spec fn first_failure<T>(joined: Seq<Result<T, BridgeFailure>>, k: int) -> bool {
    &&& 0 <= k < joined.len()
    &&& joined[k] is Err
    &&& forall|j: int| 0 <= j < k ==> (#[trigger] joined[j]) is Ok
}

/// Collects the per-device outcomes of a fan-out, in the order in which the
/// devices were given. A device's own error stays at its index and does not
/// disturb the others. A worker failure on any task aborts the whole
/// aggregate: the first one, by input order, is returned.
pub fn gather<T>(joined: Vec<Result<T, BridgeFailure>>) -> (r: Result<Vec<T>, BridgeFailure>)
    ensures
        (r is Ok) <==> (forall|i: int| 0 <= i < joined@.len() ==> (#[trigger] joined@[i]) is Ok),
        r matches Ok(v) ==> v@.len() == joined@.len()
            && forall|i: int| 0 <= i < joined@.len() ==> #[trigger] joined@[i] == Ok::<T, BridgeFailure>(v@[i]),
        r matches Err(f) ==> exists|k: int| first_failure(joined@, k) && joined@[k] == Err::<T, BridgeFailure>(f),
        joined@.len() == 0 ==> (r matches Ok(v) && v@.len() == 0),
{
    let ghost all = joined@;
    let mut rest = joined;
    let mut out: Vec<T> = Vec::new();
    while rest.len() > 0
        invariant
            all == joined@,
            out@.len() + rest@.len() == all.len(),
            forall|i: int| 0 <= i < out@.len() ==> #[trigger] all[i] == Ok::<T, BridgeFailure>(out@[i]),
            forall|i: int| 0 <= i < rest@.len() ==> #[trigger] rest@[i] == all[out@.len() + i],
        decreases rest@.len(),
    {
        let ghost done: int = out@.len() as int;
        let ghost before = rest@;
        let item = rest.remove(0);
        assert(item == all[done]) by {
            assert(before[0] == all[done]);
        }
        assert forall|i: int| 0 <= i < rest@.len() implies #[trigger] rest@[i] == all[done + 1 + i] by {
            assert(rest@[i] == before[i + 1]);
            assert(before[i + 1] == all[done + (i + 1)]);
        }
        match item {
            Ok(x) => {
                out.push(x);
                assert(out@[done] == x);
            },
            Err(f) => {
                assert(first_failure(all, done)) by {
                    assert forall|j: int| 0 <= j < done implies (#[trigger] all[j]) is Ok by {
                        assert(all[j] == Ok::<T, BridgeFailure>(out@[j]));
                    }
                }
                assert(all[done] == Err::<T, BridgeFailure>(f));
                assert(!(all[done] is Ok));
                return Err(f);
            },
        }
    }
    assert forall|i: int| 0 <= i < all.len() implies (#[trigger] all[i]) is Ok by {
        assert(all[i] == Ok::<T, BridgeFailure>(out@[i]));
    }
    Ok(out)
}

} // verus!
