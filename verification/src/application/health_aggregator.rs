use vstd::prelude::*;
use crate::domain::health::{HealthSnapshot, ServiceHealth, overall_of};
use crate::keyed::{KeyedVec, insert_all};

verus! {

/// Seconds between two polls of the services' health.
pub const POLL_INTERVAL_SECS: u64 = 5;

/// Records in `snapshot` the health of every service in `results`, in order,
/// each replacing what was known of it; the overall status is derived again
/// when at least one was recorded.
pub fn apply_health_poll(snapshot: &mut HealthSnapshot, results: &KeyedVec<ServiceHealth>)
    ensures
        final(snapshot).services@ == insert_all(old(snapshot).services@, results@),
        results@.len() > 0 ==> final(snapshot).overall_status == overall_of(
            final(snapshot).services@,
        ),
        results@.len() == 0 ==> final(snapshot).overall_status == old(snapshot).overall_status,
{
    let n = results.len();
    let mut i: usize = 0;
    proof {
        assert(results@.take(0) =~= Seq::<(Seq<char>, ServiceHealth)>::empty());
    }
    while i < n
        invariant
            n == results@.len(),
            i <= n,
            snapshot.services@ == insert_all(old(snapshot).services@, results@.take(i as int)),
            i > 0 ==> snapshot.overall_status == overall_of(snapshot.services@),
            i == 0 ==> snapshot.overall_status == old(snapshot).overall_status,
        decreases n - i,
    {
        let id = results.key_at(i).clone();
        let h = results.value_at(i).clone();
        snapshot.update_service(id, h);
        proof {
            assert(results@.take(i + 1).drop_last() =~= results@.take(i as int));
        }
        i = i + 1;
    }
    proof {
        assert(results@.take(n as int) =~= results@);
    }
}

} // verus!
