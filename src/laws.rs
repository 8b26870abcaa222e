use vstd::prelude::*;

use crate::handlers::stake_moved;
use crate::state::{Pool, UserState};

verus! {

/// The sum of the staked amounts of a pool's users.
pub open spec fn total_staked(users: Seq<UserState>) -> int
    decreases users.len(),
{
    if users.len() == 0 {
        0
    } else {
        total_staked(users.drop_last()) + users.last().staked_amount
    }
}

/// Replacing one user's record changes the sum by the difference of the
/// two staked amounts.
pub proof fn total_staked_update(users: Seq<UserState>, i: int, user: UserState)
    requires
        0 <= i < users.len(),
    ensures
        total_staked(users.update(i, user)) == total_staked(users) - users[i].staked_amount + user.staked_amount,
    decreases users.len(),
{
    let updated = users.update(i, user);
    if i == users.len() - 1 {
        assert(updated.drop_last() =~= users.drop_last());
    } else {
        total_staked_update(users.drop_last(), i, user);
        assert(updated.drop_last() =~= users.drop_last().update(i, user));
    }
}

/// One successful deposit or withdrawal by user `i` keeps the pool's total
/// equal to the sum of all users' staked amounts.
pub proof fn staking_step_keeps_total(
    pool0: Pool,
    users: Seq<UserState>,
    i: int,
    pool1: Pool,
    user1: UserState,
    delta: int,
)
    requires
        0 <= i < users.len(),
        pool0.staked_total == total_staked(users),
        stake_moved(pool0, users[i], pool1, user1, delta),
    ensures
        pool1.staked_total == total_staked(users.update(i, user1)),
{
    total_staked_update(users, i, user1);
}

/// `pools[k + 1]` and `users[k + 1]` follow from `pools[k]` and `users[k]`
/// by a successful deposit or withdrawal of one user.
pub open spec fn is_staking_step(pool0: Pool, users0: Seq<UserState>, pool1: Pool, users1: Seq<UserState>) -> bool {
    exists|i: int|
        0 <= i < users0.len() && users1 == users0.update(i, users1[i]) && stake_moved(
            pool0,
            #[trigger] users0[i],
            pool1,
            users1[i],
            pool1.staked_total - pool0.staked_total,
        )
}

/// Along any run of successful deposits and withdrawals by the users of one
/// pool, the pool's total stays equal to the sum of the users' staked
/// amounts, given that it was so at the start.
pub proof fn staking_run_keeps_total(pools: Seq<Pool>, users: Seq<Seq<UserState>>)
    requires
        pools.len() == users.len(),
        pools.len() > 0,
        pools[0].staked_total == total_staked(users[0]),
        forall|k: int| 0 <= k < pools.len() - 1 ==> #[trigger] is_staking_step(pools[k], users[k], pools[k + 1], users[k + 1]),
    ensures
        forall|k: int| 0 <= k < pools.len() ==> #[trigger] pools[k].staked_total == total_staked(users[k]),
    decreases pools.len(),
{
    let n = pools.len() - 1;
    if n > 0 {
        staking_run_keeps_total(pools.drop_last(), users.drop_last());
        assert(pools.drop_last()[n - 1] == pools[n - 1]);
        let last = n - 1;
        assert(is_staking_step(pools[last], users[last], pools[last + 1], users[last + 1]));
        let delta = pools[n].staked_total - pools[n - 1].staked_total;
        let i = choose|i: int|
            0 <= i < users[n - 1].len() && users[n] == users[n - 1].update(i, users[n][i]) && stake_moved(
                pools[n - 1],
                #[trigger] users[n - 1][i],
                pools[n],
                users[n][i],
                delta,
            );
        staking_step_keeps_total(pools[n - 1], users[n - 1], i, pools[n], users[n][i], delta);
        assert forall|k: int| 0 <= k < pools.len() implies #[trigger] pools[k].staked_total == total_staked(users[k]) by {
            if k < n {
                assert(pools.drop_last()[k] == pools[k]);
                assert(users.drop_last()[k] == users[k]);
            }
        }
    }
}

/// A deposit of `amount` followed by a withdrawal of the same amount leaves
/// the pool and the user's record as they were.
pub proof fn enter_then_leave_restores(
    pool0: Pool,
    user0: UserState,
    pool1: Pool,
    user1: UserState,
    pool2: Pool,
    user2: UserState,
    amount: u64,
)
    requires
        stake_moved(pool0, user0, pool1, user1, amount as int),
        stake_moved(pool1, user1, pool2, user2, -(amount as int)),
    ensures
        pool2 == pool0,
        user2 == user0,
{
}

} // verus!
