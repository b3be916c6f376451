//! The ticket lottery that fills the positions of a group.
//!
//! Every membership row holds a number of tickets. Each ticket is one entry
//! in a pool; the draw picks entries at random, and once a user is drawn all
//! of that user's remaining entries leave the pool, so nobody is picked twice.
use std::collections::HashMap;

use rand::Rng;
use vstd::prelude::*;

use crate::date_time::{display_date_time, spec_display_date_time, Timestamp};
use crate::ids::{hyphenated, spec_uuid_v5_oid, uuid_to_string, uuid_v5_oid};
use crate::model::database::{Group, GroupAssignment, ServiceDate};

verus! {

broadcast use vstd::std_specs::hash::group_hash_axioms;

/// One lottery ticket, and the user it selects.
#[derive(Clone, Copy, Debug)]
pub struct Assignment {
    pub group_assignment_id: u128,
    pub user_id: u128,
    pub group_id: u128,
    pub tickets_consumed: i32,
}

/// Outcome of a draw for one group.
pub enum GenerateGroupAssignmentResult<E> {
    Success(Vec<Assignment>),
    NotEnoughUsers,
    UnknownDatabaseError(E),
}

/// The ticket count recorded for each user: a later row for the same user
/// replaces an earlier one.
pub open spec fn tickets_per_user(rows: Seq<GroupAssignment>) -> Map<u128, i32>
    decreases rows.len(),
{
    if rows.len() == 0 {
        Map::empty()
    } else {
        tickets_per_user(rows.drop_last()).insert(rows.last().user_id, rows.last().tickets)
    }
}

/// The tickets a row puts in the pool: one per ticket it holds (none when it
/// holds zero or fewer).
pub open spec fn ticket_copies(row: GroupAssignment, consumed: i32) -> Seq<Assignment> {
    Seq::new(
        if row.tickets > 0 { row.tickets as nat } else { 0 },
        |_i: int|
            Assignment {
                group_assignment_id: row.id,
                user_id: row.user_id,
                group_id: row.group_id,
                tickets_consumed: consumed,
            },
    )
}

/// The tickets of `rows`, row by row, each carrying its user's recorded count.
pub open spec fn pool_of(rows: Seq<GroupAssignment>, per_user: Map<u128, i32>) -> Seq<Assignment>
    decreases rows.len(),
{
    if rows.len() == 0 {
        Seq::empty()
    } else {
        pool_of(rows.drop_last(), per_user) + ticket_copies(
            rows.last(),
            per_user[rows.last().user_id],
        )
    }
}

/// The full ticket pool of a group's membership rows.
pub open spec fn ticket_pool(rows: Seq<GroupAssignment>) -> Seq<Assignment> {
    pool_of(rows, tickets_per_user(rows))
}

/// The users of a sequence of tickets.
pub open spec fn pool_users(pool: Seq<Assignment>) -> Set<u128> {
    pool.map_values(|a: Assignment| a.user_id).to_set()
}

/// The users that hold at least one ticket.
pub open spec fn ticket_holders(rows: Seq<GroupAssignment>) -> Set<u128> {
    Set::new(|u: u128| exists|k: int| 0 <= k < rows.len() && rows[k].user_id == u && rows[k].tickets > 0)
}

/// The tickets left once every ticket of `user` is taken out.
pub open spec fn without_user(pool: Seq<Assignment>, user: u128) -> Seq<Assignment>
    decreases pool.len(),
{
    if pool.len() == 0 {
        pool
    } else {
        let rest = without_user(pool.drop_last(), user);
        if pool.last().user_id == user {
            rest
        } else {
            rest.push(pool.last())
        }
    }
}

/// The tickets left in `pool` once the users of `drawn` have been drawn, in
/// drawing order: each draw takes all tickets of its user out.
#[verifier::opaque]
pub open spec fn pool_after(pool: Seq<Assignment>, drawn: Seq<Assignment>) -> Seq<Assignment>
    decreases drawn.len(),
{
    if drawn.len() == 0 {
        pool
    } else {
        without_user(pool_after(pool, drawn.drop_last()), drawn.last().user_id)
    }
}

/// Whether `ticket` is the ticket at an index that `random_index` handed back
/// for a pool of the length of `pool_left`.
pub open spec fn drawn_at_random_index(pool_left: Seq<Assignment>, ticket: Assignment) -> bool {
    exists|i: usize|
        #![trigger is_random_pick(pool_left.len() as usize, i)]
        is_random_pick(pool_left.len() as usize, i) && i < pool_left.len() && ticket == pool_left[i as int]
}

/// Every drawn ticket is the ticket at the index that `random_index` handed
/// back for the pool as it stood: `pool` less the tickets of the users drawn
/// before it.
pub open spec fn picks_at_random_indices(pool: Seq<Assignment>, chosen: Seq<Assignment>) -> bool {
    forall|n: int| 0 <= n < chosen.len() ==> drawn_at_random_index(pool_after(pool, chosen.take(n)), #[trigger] chosen[n])
}

/// A draw that takes the ticket at a random index of the pool left so far
/// extends a draw made at random indices.
proof fn lemma_pick_extends(pool: Seq<Assignment>, earlier: Seq<Assignment>, drawn: Assignment, index: usize)
    requires
        picks_at_random_indices(pool, earlier),
        is_random_pick(pool_after(pool, earlier).len() as usize, index),
        index < pool_after(pool, earlier).len(),
        drawn == pool_after(pool, earlier)[index as int],
    ensures
        picks_at_random_indices(pool, earlier.push(drawn)),
        pool_after(pool, earlier.push(drawn)) == without_user(pool_after(pool, earlier), drawn.user_id),
{
    let chosen = earlier.push(drawn);
    assert(chosen.drop_last() =~= earlier);
    assert(pool_after(pool, chosen) == without_user(pool_after(pool, earlier), drawn.user_id)) by {
        reveal(pool_after);
    }
    assert forall|m: int| 0 <= m < chosen.len() implies drawn_at_random_index(pool_after(pool, chosen.take(m)), #[trigger] chosen[m]) by {
        if m < earlier.len() {
            assert(chosen.take(m) =~= earlier.take(m));
            assert(chosen[m] == earlier[m]);
        } else {
            assert(chosen.take(m) =~= earlier);
            assert(is_random_pick(pool_after(pool, chosen.take(m)).len() as usize, index));
        }
    }
}

/// The outcomes a draw of `positions` tickets from `rows` can have: as many
/// tickets as positions, all from the pool, no user twice.
pub open spec fn is_lottery_draw(rows: Seq<GroupAssignment>, positions: int, chosen: Seq<Assignment>) -> bool {
    &&& chosen.len() == positions
    &&& forall|i: int, j: int| 0 <= i < j < chosen.len() ==> chosen[i].user_id != chosen[j].user_id
    &&& forall|i: int| 0 <= i < chosen.len() ==> ticket_pool(rows).contains(#[trigger] chosen[i])
}

/// The membership rows of a joined `(group, membership)` query.
pub open spec fn membership_rows(rows: Seq<(Group, GroupAssignment)>) -> Seq<GroupAssignment> {
    rows.map_values(|r: (Group, GroupAssignment)| r.1)
}

proof fn lemma_pool_users_contains(pool: Seq<Assignment>, u: u128)
    ensures
        pool_users(pool).contains(u) <==> exists|j: int| 0 <= j < pool.len() && pool[j].user_id == u,
{
    let users = pool.map_values(|a: Assignment| a.user_id);
    if pool_users(pool).contains(u) {
        assert(users.contains(u));
        let j = choose|j: int| 0 <= j < users.len() && users[j] == u;
        assert(pool[j].user_id == u);
    }
    if exists|j: int| 0 <= j < pool.len() && pool[j].user_id == u {
        let j = choose|j: int| 0 <= j < pool.len() && pool[j].user_id == u;
        assert(users[j] == u);
        assert(users.contains(u));
    }
}

proof fn lemma_pool_users_finite(pool: Seq<Assignment>)
    ensures
        pool_users(pool).finite(),
        pool.len() == 0 ==> pool_users(pool).len() == 0,
{
    let users = pool.map_values(|a: Assignment| a.user_id);
    vstd::seq_lib::seq_to_set_is_finite(users);
    users.lemma_cardinality_of_set();
}

proof fn lemma_tickets_per_user_covers(rows: Seq<GroupAssignment>, k: int)
    requires
        0 <= k < rows.len(),
    ensures
        tickets_per_user(rows).contains_key(rows[k].user_id),
    decreases rows.len(),
{
    if k < rows.len() - 1 {
        lemma_tickets_per_user_covers(rows.drop_last(), k);
    }
}

proof fn lemma_pool_of_contains(rows: Seq<GroupAssignment>, per_user: Map<u128, i32>, a: Assignment)
    ensures
        pool_of(rows, per_user).contains(a) <==> exists|k: int|
            0 <= k < rows.len() && rows[k].tickets > 0 && a == (Assignment {
                group_assignment_id: rows[k].id,
                user_id: rows[k].user_id,
                group_id: rows[k].group_id,
                tickets_consumed: per_user[rows[k].user_id],
            }),
    decreases rows.len(),
{
    if rows.len() > 0 {
        let rest = rows.drop_last();
        let last = rows.last();
        let copies = ticket_copies(last, per_user[last.user_id]);
        lemma_pool_of_contains(rest, per_user, a);
        let whole = pool_of(rows, per_user);
        assert(whole == pool_of(rest, per_user) + copies);
        if whole.contains(a) {
            let j = choose|j: int| 0 <= j < whole.len() && whole[j] == a;
            if j < pool_of(rest, per_user).len() {
                assert(pool_of(rest, per_user)[j] == a);
                assert(pool_of(rest, per_user).contains(a));
                let k = choose|k: int|
                    0 <= k < rest.len() && rest[k].tickets > 0 && a == (Assignment {
                        group_assignment_id: rest[k].id,
                        user_id: rest[k].user_id,
                        group_id: rest[k].group_id,
                        tickets_consumed: per_user[rest[k].user_id],
                    });
                assert(rows[k] == rest[k]);
            } else {
                assert(copies[j - pool_of(rest, per_user).len()] == a);
                assert(rows[rows.len() - 1] == last);
            }
        }
        if exists|k: int|
            0 <= k < rows.len() && rows[k].tickets > 0 && a == (Assignment {
                group_assignment_id: rows[k].id,
                user_id: rows[k].user_id,
                group_id: rows[k].group_id,
                tickets_consumed: per_user[rows[k].user_id],
            }) {
            let k = choose|k: int|
                0 <= k < rows.len() && rows[k].tickets > 0 && a == (Assignment {
                    group_assignment_id: rows[k].id,
                    user_id: rows[k].user_id,
                    group_id: rows[k].group_id,
                    tickets_consumed: per_user[rows[k].user_id],
                });
            if k < rows.len() - 1 {
                assert(rest[k] == rows[k]);
                assert(pool_of(rest, per_user).contains(a));
                let j = choose|j: int| 0 <= j < pool_of(rest, per_user).len() && pool_of(rest, per_user)[j] == a;
                assert(whole[j] == a);
            } else {
                assert(copies[0] == a);
                assert(whole[pool_of(rest, per_user).len() as int] == a);
            }
        }
    }
}

/// The users a draw can pick are exactly the users holding at least one ticket.
pub proof fn lemma_pool_users_are_holders(rows: Seq<GroupAssignment>)
    ensures
        pool_users(ticket_pool(rows)) == ticket_holders(rows),
        ticket_holders(rows).finite(),
{
    let pool = ticket_pool(rows);
    let per_user = tickets_per_user(rows);
    assert forall|u: u128| pool_users(pool).contains(u) <==> ticket_holders(rows).contains(u) by {
        lemma_pool_users_contains(pool, u);
        if pool_users(pool).contains(u) {
            let j = choose|j: int| 0 <= j < pool.len() && pool[j].user_id == u;
            assert(pool.contains(pool[j]));
            lemma_pool_of_contains(rows, per_user, pool[j]);
        }
        if ticket_holders(rows).contains(u) {
            let k = choose|k: int| 0 <= k < rows.len() && rows[k].user_id == u && rows[k].tickets > 0;
            let a = Assignment {
                group_assignment_id: rows[k].id,
                user_id: rows[k].user_id,
                group_id: rows[k].group_id,
                tickets_consumed: per_user[rows[k].user_id],
            };
            lemma_pool_of_contains(rows, per_user, a);
            let j = choose|j: int| 0 <= j < pool.len() && pool[j] == a;
            assert(pool[j].user_id == u);
        }
    }
    assert(pool_users(pool) =~= ticket_holders(rows));
    lemma_pool_users_finite(pool);
}

/// Taking out a user's tickets keeps every ticket of every other user and
/// nothing of that user.
pub proof fn lemma_without_user_contains(pool: Seq<Assignment>, user: u128, a: Assignment)
    ensures
        without_user(pool, user).contains(a) <==> pool.contains(a) && a.user_id != user,
    decreases pool.len(),
{
    if pool.len() > 0 {
        let rest = pool.drop_last();
        lemma_without_user_contains(rest, user, a);
        let out = without_user(pool, user);
        let rest_out = without_user(rest, user);
        if out.contains(a) {
            let j = choose|j: int| 0 <= j < out.len() && out[j] == a;
            if j < rest_out.len() {
                assert(rest_out[j] == a);
                assert(rest_out.contains(a));
                let i = choose|i: int| 0 <= i < rest.len() && rest[i] == a;
                assert(pool[i] == a);
            } else {
                assert(pool[pool.len() - 1] == a);
            }
        }
        if pool.contains(a) && a.user_id != user {
            let i = choose|i: int| 0 <= i < pool.len() && pool[i] == a;
            if i < pool.len() - 1 {
                assert(rest[i] == a);
                assert(rest_out.contains(a));
                let j = choose|j: int| 0 <= j < rest_out.len() && rest_out[j] == a;
                assert(out[j] == a);
            } else {
                assert(out[out.len() - 1] == a);
            }
        }
    }
}

/// Taking out a user's tickets takes exactly that user out of the pool's users.
proof fn lemma_without_user_users(pool: Seq<Assignment>, user: u128)
    ensures
        pool_users(without_user(pool, user)) == pool_users(pool).remove(user),
{
    let out = without_user(pool, user);
    assert forall|u: u128| pool_users(out).contains(u) <==> pool_users(pool).remove(user).contains(u) by {
        lemma_pool_users_contains(out, u);
        lemma_pool_users_contains(pool, u);
        if pool_users(out).contains(u) {
            let j = choose|j: int| 0 <= j < out.len() && out[j].user_id == u;
            assert(out.contains(out[j]));
            lemma_without_user_contains(pool, user, out[j]);
            let i = choose|i: int| 0 <= i < pool.len() && pool[i] == out[j];
            assert(pool[i].user_id == u);
        }
        if pool_users(pool).remove(user).contains(u) {
            let i = choose|i: int| 0 <= i < pool.len() && pool[i].user_id == u;
            assert(pool.contains(pool[i]));
            lemma_without_user_contains(pool, user, pool[i]);
            let j = choose|j: int| 0 <= j < out.len() && out[j] == pool[i];
            assert(out[j].user_id == u);
        }
    }
    assert(pool_users(out) =~= pool_users(pool).remove(user));
}

/// The number of tickets of `rows`: each row counts its tickets, none when
/// it holds zero or fewer.
pub open spec fn total_tickets(rows: Seq<GroupAssignment>) -> nat
    decreases rows.len(),
{
    if rows.len() == 0 {
        0
    } else {
        total_tickets(rows.drop_last()) + if rows.last().tickets > 0 { rows.last().tickets as nat } else { 0nat }
    }
}

proof fn lemma_pool_of_len(rows: Seq<GroupAssignment>, per_user: Map<u128, i32>)
    ensures
        pool_of(rows, per_user).len() == total_tickets(rows),
    decreases rows.len(),
{
    if rows.len() > 0 {
        lemma_pool_of_len(rows.drop_last(), per_user);
    }
}

/// Every ticket a membership row holds is one entry of the pool.
pub proof fn lemma_ticket_pool_size(rows: Seq<GroupAssignment>)
    ensures
        ticket_pool(rows).len() == total_tickets(rows),
{
    lemma_pool_of_len(rows, tickets_per_user(rows));
}

/// Every ticket in the pool belongs to a row holding tickets, and carries its
/// user's recorded ticket count.
pub proof fn lemma_ticket_carries_user_count(rows: Seq<GroupAssignment>, a: Assignment)
    requires
        ticket_pool(rows).contains(a),
    ensures
        tickets_per_user(rows).contains_key(a.user_id),
        a.tickets_consumed == tickets_per_user(rows)[a.user_id],
        exists|k: int|
            0 <= k < rows.len() && rows[k].tickets > 0 && rows[k].id == a.group_assignment_id
                && rows[k].user_id == a.user_id && rows[k].group_id == a.group_id,
{
    lemma_pool_of_contains(rows, tickets_per_user(rows), a);
    let k = choose|k: int|
        0 <= k < rows.len() && rows[k].tickets > 0 && a == (Assignment {
            group_assignment_id: rows[k].id,
            user_id: rows[k].user_id,
            group_id: rows[k].group_id,
            tickets_consumed: tickets_per_user(rows)[rows[k].user_id],
        });
    lemma_tickets_per_user_covers(rows, k);
}

/// A user's recorded ticket count is the count of the last row for that user.
pub proof fn lemma_recorded_count_is_last_row(rows: Seq<GroupAssignment>, k: int)
    requires
        0 <= k < rows.len(),
        forall|j: int| k < j < rows.len() ==> rows[j].user_id != rows[k].user_id,
    ensures
        tickets_per_user(rows)[rows[k].user_id] == rows[k].tickets,
    decreases rows.len(),
{
    if k < rows.len() - 1 {
        lemma_recorded_count_is_last_row(rows.drop_last(), k);
    }
}

/// How many tickets of `user` a pool holds: the user's weight in a draw.
pub open spec fn entries_of(pool: Seq<Assignment>, user: u128) -> nat
    decreases pool.len(),
{
    if pool.len() == 0 {
        0
    } else {
        entries_of(pool.drop_last(), user) + if pool.last().user_id == user { 1nat } else { 0nat }
    }
}

/// The tickets the rows of `user` hold together (rows with zero or fewer
/// tickets hold none).
pub open spec fn tickets_of(rows: Seq<GroupAssignment>, user: u128) -> nat
    decreases rows.len(),
{
    if rows.len() == 0 {
        0
    } else {
        tickets_of(rows.drop_last(), user) + if rows.last().user_id == user && rows.last().tickets > 0 {
            rows.last().tickets as nat
        } else {
            0nat
        }
    }
}

proof fn lemma_entries_of_concat(a: Seq<Assignment>, b: Seq<Assignment>, user: u128)
    ensures
        entries_of(a + b, user) == entries_of(a, user) + entries_of(b, user),
    decreases b.len(),
{
    if b.len() > 0 {
        assert((a + b).drop_last() =~= a + b.drop_last());
        lemma_entries_of_concat(a, b.drop_last(), user);
    } else {
        assert(a + b =~= a);
    }
}

proof fn lemma_entries_of_copies(row: GroupAssignment, consumed: i32, user: u128, k: nat)
    requires
        k <= ticket_copies(row, consumed).len(),
    ensures
        entries_of(ticket_copies(row, consumed).take(k as int), user) == if row.user_id == user { k } else { 0 },
    decreases k,
{
    let copies = ticket_copies(row, consumed);
    if k > 0 {
        assert(copies.take(k as int).drop_last() =~= copies.take(k - 1));
        lemma_entries_of_copies(row, consumed, user, (k - 1) as nat);
    }
}

proof fn lemma_entries_of_pool_of(rows: Seq<GroupAssignment>, per_user: Map<u128, i32>, user: u128)
    ensures
        entries_of(pool_of(rows, per_user), user) == tickets_of(rows, user),
    decreases rows.len(),
{
    if rows.len() > 0 {
        let last = rows.last();
        let copies = ticket_copies(last, per_user[last.user_id]);
        lemma_entries_of_pool_of(rows.drop_last(), per_user, user);
        lemma_entries_of_concat(pool_of(rows.drop_last(), per_user), copies, user);
        lemma_entries_of_copies(last, per_user[last.user_id], user, copies.len());
        assert(copies.take(copies.len() as int) =~= copies);
    }
}

/// The pool holds one entry per ticket: each user appears in it exactly as
/// many times as the user's rows hold tickets, so a draw at a uniform index
/// picks a user with a chance in proportion to the user's tickets.
pub proof fn lemma_pool_weighs_users_by_tickets(rows: Seq<GroupAssignment>, user: u128)
    ensures
        entries_of(ticket_pool(rows), user) == tickets_of(rows, user),
{
    lemma_entries_of_pool_of(rows, tickets_per_user(rows), user);
}

/// Drawing a user takes all of that user's tickets out of the pool and keeps
/// every ticket of every other user, so the users left keep their weights
/// for the next pick.
pub proof fn lemma_draw_keeps_other_weights(pool: Seq<Assignment>, drawn_user: u128, user: u128)
    ensures
        entries_of(without_user(pool, drawn_user), user) == if user == drawn_user { 0 } else { entries_of(pool, user) },
    decreases pool.len(),
{
    if pool.len() > 0 {
        lemma_draw_keeps_other_weights(pool.drop_last(), drawn_user, user);
        let rest = without_user(pool.drop_last(), drawn_user);
        if pool.last().user_id != drawn_user {
            assert(rest.push(pool.last()).drop_last() =~= rest);
        }
    }
}

/// At every pick of a draw, a user not drawn yet is in the pool left as many
/// times as the user's rows hold tickets, and a user drawn before is not in it.
pub proof fn lemma_pool_left_weighs_undrawn_users_by_tickets(rows: Seq<GroupAssignment>, drawn: Seq<Assignment>, user: u128)
    ensures
        entries_of(pool_after(ticket_pool(rows), drawn), user) == if exists|k: int| 0 <= k < drawn.len() && drawn[k].user_id == user {
            0
        } else {
            tickets_of(rows, user)
        },
    decreases drawn.len(),
{
    reveal(pool_after);
    if drawn.len() == 0 {
        lemma_pool_weighs_users_by_tickets(rows, user);
    } else {
        let earlier = drawn.drop_last();
        lemma_pool_left_weighs_undrawn_users_by_tickets(rows, earlier, user);
        lemma_draw_keeps_other_weights(pool_after(ticket_pool(rows), earlier), drawn.last().user_id, user);
        if exists|k: int| 0 <= k < earlier.len() && earlier[k].user_id == user {
            let k = choose|k: int| 0 <= k < earlier.len() && earlier[k].user_id == user;
            assert(drawn[k] == earlier[k]);
        }
        if exists|k: int| 0 <= k < drawn.len() && drawn[k].user_id == user {
            let k = choose|k: int| 0 <= k < drawn.len() && drawn[k].user_id == user;
            if k < earlier.len() {
                assert(earlier[k] == drawn[k]);
            }
        }
    }
}

/// Records each user's ticket count; a later row for a user replaces an earlier one.
fn count_tickets_per_user(rows: &Vec<GroupAssignment>) -> (per_user: HashMap<u128, i32>)
    ensures
        per_user@ == tickets_per_user(rows@),
{
    let mut per_user: HashMap<u128, i32> = HashMap::new();
    let mut i: usize = 0;
    while i < rows.len()
        invariant
            i <= rows.len(),
            per_user@ == tickets_per_user(rows@.take(i as int)),
        decreases rows.len() - i,
    {
        let row = rows[i];
        per_user.insert(row.user_id, row.tickets);
        assert(rows@.take(i + 1).drop_last() =~= rows@.take(i as int));
        i = i + 1;
    }
    assert(rows@.take(rows.len() as int) =~= rows@);
    per_user
}

/// Puts one ticket in the pool for every ticket each row holds.
fn build_ticket_pool(rows: &Vec<GroupAssignment>, per_user: &HashMap<u128, i32>) -> (pool: Vec<Assignment>)
    requires
        per_user@ == tickets_per_user(rows@),
    ensures
        pool@ == ticket_pool(rows@),
{
    let mut pool: Vec<Assignment> = Vec::new();
    let mut i: usize = 0;
    while i < rows.len()
        invariant
            i <= rows.len(),
            per_user@ == tickets_per_user(rows@),
            pool@ == pool_of(rows@.take(i as int), per_user@),
        decreases rows.len() - i,
    {
        let row = rows[i];
        proof {
            lemma_tickets_per_user_covers(rows@, i as int);
        }
        let consumed = *per_user.get(&row.user_id).unwrap();
        assert(consumed == per_user@[row.user_id]);
        let ticket = Assignment {
            group_assignment_id: row.id,
            user_id: row.user_id,
            group_id: row.group_id,
            tickets_consumed: consumed,
        };
        let ghost before = pool@;
        let mut t: i32 = 0;
        while t < row.tickets
            invariant
                0 <= t,
                row.tickets > 0 ==> t <= row.tickets,
                row.tickets <= 0 ==> t == 0,
                pool@ == before + Seq::new(t as nat, |_j: int| ticket),
            decreases row.tickets - t,
        {
            pool.push(ticket);
            t = t + 1;
            assert(pool@ =~= before + Seq::new(t as nat, |_j: int| ticket));
        }
        assert(rows@.take(i + 1).drop_last() =~= rows@.take(i as int));
        assert(Seq::new(t as nat, |_j: int| ticket) =~= ticket_copies(row, per_user@[row.user_id]));
        i = i + 1;
    }
    assert(rows@.take(rows.len() as int) =~= rows@);
    pool
}

/// Draws the ticket at `index` and takes every ticket of its user out of the pool.
pub fn draw_ticket(pool: &mut Vec<Assignment>, index: usize) -> (drawn: Assignment)
    requires
        index < old(pool).len(),
    ensures
        drawn == old(pool)@[index as int],
        final(pool)@ == without_user(old(pool)@, drawn.user_id),
{
    let drawn = pool[index];
    let mut kept: Vec<Assignment> = Vec::new();
    let mut j: usize = 0;
    while j < pool.len()
        invariant
            j <= pool.len(),
            kept@ == without_user(pool@.take(j as int), drawn.user_id),
        decreases pool.len() - j,
    {
        let ticket = pool[j];
        if ticket.user_id != drawn.user_id {
            kept.push(ticket);
        }
        assert(pool@.take(j + 1).drop_last() =~= pool@.take(j as int));
        j = j + 1;
    }
    assert(pool@.take(pool.len() as int) =~= pool@);
    *pool = kept;
    drawn
}

/// Calls `rand::thread_rng().gen_range(0..len)`. Trusted: the index is below
/// `len` (`gen_range` panics on an empty range, hence `len > 0`); which index
/// comes out is left to chance and not stated.
#[verifier::external_body]
fn random_index(len: usize) -> (index: usize)
    requires
        len > 0,
    ensures
        index < len,
{
    rand::thread_rng().gen_range(0..len)
}

/// Whether `index` is an index that a call `random_index(len)` handed back.
/// Nothing else is known of it: only such a call establishes it.
pub closed spec fn is_random_pick(len: usize, index: usize) -> bool {
    call_ensures(random_index, (len,), index)
}

/// Whether `user` occurs in `users`.
fn holds(users: &Vec<u128>, user: u128) -> (found: bool)
    ensures
        found == users@.contains(user),
{
    let mut i: usize = 0;
    while i < users.len()
        invariant
            i <= users.len(),
            forall|j: int| 0 <= j < i ==> users@[j] != user,
        decreases users.len() - i,
    {
        if users[i] == user {
            return true;
        }
        i = i + 1;
    }
    false
}

/// The number of distinct users holding at least one ticket.
pub fn ticket_holder_count(rows: &Vec<GroupAssignment>) -> (count: usize)
    ensures
        count == ticket_holders(rows@).len(),
{
    let mut users: Vec<u128> = Vec::new();
    let mut i: usize = 0;
    while i < rows.len()
        invariant
            i <= rows.len(),
            users@.no_duplicates(),
            users@.to_set() == ticket_holders(rows@.take(i as int)),
            users.len() <= i,
        decreases rows.len() - i,
    {
        let row = rows[i];
        let ghost before = users@;
        if row.tickets > 0 && !holds(&users, row.user_id) {
            users.push(row.user_id);
        }
        proof {
            let prefix = rows@.take(i + 1);
            assert forall|u: u128| users@.to_set().contains(u) <==> ticket_holders(prefix).contains(u) by {
                if users@.to_set().contains(u) {
                    if before.contains(u) {
                        assert(before.to_set().contains(u));
                        let k = choose|k: int| 0 <= k < i && rows@.take(i as int)[k].user_id == u && rows@.take(i as int)[k].tickets > 0;
                        assert(prefix[k] == rows@[k]);
                    } else {
                        assert(users@.last() == u || before.contains(u));
                        assert(prefix[i as int] == row);
                    }
                }
                if ticket_holders(prefix).contains(u) {
                    let k = choose|k: int| 0 <= k < prefix.len() && prefix[k].user_id == u && prefix[k].tickets > 0;
                    if k < i {
                        assert(rows@.take(i as int)[k] == prefix[k]);
                        assert(before.to_set().contains(u));
                        assert(before.contains(u));
                        let j = choose|j: int| 0 <= j < before.len() && before[j] == u;
                        assert(users@[j] == u);
                    } else {
                        assert(prefix[k] == row);
                        if before.contains(u) {
                            let j = choose|j: int| 0 <= j < before.len() && before[j] == u;
                            assert(users@[j] == u);
                        } else {
                            assert(users@.last() == u);
                        }
                    }
                    assert(users@.contains(u));
                }
            }
            assert(users@.to_set() =~= ticket_holders(prefix));
        }
        i = i + 1;
    }
    assert(rows@.take(rows.len() as int) =~= rows@);
    proof {
        users@.unique_seq_to_set();
    }
    users.len()
}

/// The membership rows of a joined `(group, membership)` query, in order.
fn memberships_of_rows(rows: &Vec<(Group, GroupAssignment)>) -> (memberships: Vec<GroupAssignment>)
    ensures
        memberships@ == membership_rows(rows@),
{
    let mut memberships: Vec<GroupAssignment> = Vec::new();
    let mut i: usize = 0;
    while i < rows.len()
        invariant
            i <= rows.len(),
            memberships@ == membership_rows(rows@.take(i as int)),
        decreases rows.len() - i,
    {
        memberships.push(rows[i].1);
        assert(membership_rows(rows@.take(i + 1)) =~= membership_rows(rows@.take(i as int)).push(rows@[i as int].1));
        i = i + 1;
    }
    assert(rows@.take(rows.len() as int) =~= rows@);
    memberships
}

/// The outcomes of a draw on a `(group, membership)` query: a failed query is
/// passed on as a database error; the group's `positions` come from the first
/// row; fewer rows than positions (or negative positions) is not enough users;
/// otherwise the draw succeeds with a lottery draw of `positions` tickets.
pub open spec fn is_draw_outcome<E>(query: Result<Vec<(Group, GroupAssignment)>, E>, result: GenerateGroupAssignmentResult<E>) -> bool {
    match query {
        Err(e) => result == GenerateGroupAssignmentResult::<E>::UnknownDatabaseError(e),
        Ok(rows) => {
            let positions = rows@[0].0.positions;
            if positions < 0 || rows.len() < positions {
                result is NotEnoughUsers
            } else {
                result matches GenerateGroupAssignmentResult::Success(chosen)
                    && is_lottery_draw(membership_rows(rows@), positions as int, chosen@)
                    && picks_at_random_indices(ticket_pool(membership_rows(rows@)), chosen@)
            }
        },
    }
}

/// Whether a draw can run on the rows of a `(group, membership)` query: there
/// is a first row to take the positions from, and as many ticket holders as
/// positions whenever enough rows came back.
pub fn draw_is_possible(rows: &Vec<(Group, GroupAssignment)>) -> (possible: bool)
    ensures
        possible == (rows.len() > 0 && (0 <= rows@[0].0.positions <= rows.len()
            ==> ticket_holders(membership_rows(rows@)).len() >= rows@[0].0.positions)),
{
    if rows.len() == 0 {
        return false;
    }
    let positions = rows[0].0.positions;
    if positions < 0 || rows.len() < positions as usize {
        return true;
    }
    let memberships = memberships_of_rows(&rows);
    ticket_holder_count(&memberships) >= positions as usize
}

/// Runs the lottery for a group on the rows of its `(group, membership)`
/// query, which has already left out memberships without tickets.
/// The group's `positions` come from the first row. When fewer rows than
/// positions came back (or `positions` is negative) there are not enough
/// users; otherwise `positions` tickets are drawn at random, each from the
/// users not drawn before.
pub fn generate_assignments_for_group<E>(query: Result<Vec<(Group, GroupAssignment)>, E>) -> (result: GenerateGroupAssignmentResult<E>)
    requires
        query matches Ok(rows) ==> {
            &&& rows.len() > 0
            &&& 0 <= rows@[0].0.positions <= rows.len() ==> ticket_holders(membership_rows(rows@)).len() >= rows@[0].0.positions
        },
    ensures
        is_draw_outcome(query, result),
{
    let rows = match query {
        Err(e) => return GenerateGroupAssignmentResult::UnknownDatabaseError(e),
        Ok(rows) => rows,
    };
    let positions = rows[0].0.positions;
    let memberships = memberships_of_rows(&rows);
    if positions < 0 || memberships.len() < positions as usize {
        return GenerateGroupAssignmentResult::NotEnoughUsers;
    }
    let per_user = count_tickets_per_user(&memberships);
    let mut pool = build_ticket_pool(&memberships, &per_user);
    let ghost initial = pool@;
    let ghost holders = ticket_holders(memberships@);
    proof {
        reveal(pool_after);
        lemma_pool_users_are_holders(memberships@);
    }
    let mut chosen: Vec<Assignment> = Vec::new();
    let mut n: i32 = 0;
    while n < positions
        invariant
            0 <= n <= positions,
            chosen.len() == n,
            initial == ticket_pool(memberships@),
            holders.finite(),
            holders.len() >= positions,
            pool_users(pool@).len() + n == holders.len(),
            forall|j: int| 0 <= j < pool.len() ==> initial.contains(#[trigger] pool@[j]),
            forall|j: int, c: int| 0 <= j < pool.len() && 0 <= c < chosen.len() ==> #[trigger] pool@[j].user_id != #[trigger] chosen@[c].user_id,
            forall|a: int, b: int| 0 <= a < b < chosen.len() ==> chosen@[a].user_id != chosen@[b].user_id,
            forall|c: int| 0 <= c < chosen.len() ==> initial.contains(#[trigger] chosen@[c]),
            pool@ == pool_after(initial, chosen@),
            picks_at_random_indices(initial, chosen@),
        decreases positions - n,
    {
        proof {
            lemma_pool_users_finite(pool@);
        }
        let ghost before = pool@;
        let index = random_index(pool.len());
        let drawn = draw_ticket(&mut pool, index);
        proof {
            lemma_pool_users_contains(before, drawn.user_id);
            lemma_without_user_users(before, drawn.user_id);
            assert forall|j: int| 0 <= j < pool.len() implies initial.contains(#[trigger] pool@[j]) && pool@[j].user_id != drawn.user_id by {
                assert(pool@.contains(pool@[j]));
                lemma_without_user_contains(before, drawn.user_id, pool@[j]);
                let i = choose|i: int| 0 <= i < before.len() && before[i] == pool@[j];
                assert(initial.contains(before[i]));
            }
            assert forall|j: int, c: int| 0 <= j < pool.len() && 0 <= c < chosen.len() implies #[trigger] pool@[j].user_id != #[trigger] chosen@[c].user_id by {
                assert(pool@.contains(pool@[j]));
                lemma_without_user_contains(before, drawn.user_id, pool@[j]);
                let i = choose|i: int| 0 <= i < before.len() && before[i] == pool@[j];
                assert(before[i].user_id != chosen@[c].user_id);
            }
        }
        let ghost earlier = chosen@;
        chosen.push(drawn);
        proof {
            lemma_pick_extends(initial, earlier, drawn, index);
            assert(chosen@ == earlier.push(drawn));
        }
        n = n + 1;
    }
    GenerateGroupAssignmentResult::Success(chosen)
}

/// The users a draw selected.
pub fn assigned_users(assignments: &Vec<Assignment>) -> (users: Vec<u128>)
    ensures
        users@ == assignments@.map_values(|a: Assignment| a.user_id),
{
    let mut users: Vec<u128> = Vec::new();
    let mut i: usize = 0;
    while i < assignments.len()
        invariant
            i <= assignments.len(),
            users@ == assignments@.take(i as int).map_values(|a: Assignment| a.user_id),
        decreases assignments.len() - i,
    {
        users.push(assignments[i].user_id);
        assert(assignments@.take(i + 1).map_values(|a: Assignment| a.user_id) =~= assignments@.take(i as int).map_values(|a: Assignment| a.user_id).push(assignments@[i as int].user_id));
        i = i + 1;
    }
    assert(assignments@.take(assignments.len() as int) =~= assignments@);
    users
}

/// A membership row after a draw: a drawn user's row holds no tickets, every
/// other row holds one ticket more.
pub open spec fn after_draw(row: GroupAssignment, assigned: Seq<u128>) -> GroupAssignment {
    GroupAssignment {
        tickets: if assigned.contains(row.user_id) { 0 } else { (row.tickets + 1) as i32 },
        ..row
    }
}

/// Whether giving every undrawn row one more ticket would leave the range of `i32`.
pub open spec fn increment_overflows(rows: Seq<GroupAssignment>, assigned: Seq<u128>) -> bool {
    exists|k: int| 0 <= k < rows.len() && !assigned.contains(rows[k].user_id) && rows[k].tickets == i32::MAX
}

/// A membership row once the drawn users are reset: a drawn user's row holds
/// no tickets, every other row is unchanged.
pub open spec fn reset_drawn(row: GroupAssignment, assigned: Seq<u128>) -> GroupAssignment {
    GroupAssignment { tickets: if assigned.contains(row.user_id) { 0 } else { row.tickets }, ..row }
}

/// A membership row once the undrawn users gain a ticket: a drawn user's row
/// is unchanged, every other row holds one ticket more.
pub open spec fn add_ticket(row: GroupAssignment, assigned: Seq<u128>) -> GroupAssignment {
    GroupAssignment {
        tickets: if assigned.contains(row.user_id) { row.tickets } else { (row.tickets + 1) as i32 },
        ..row
    }
}

/// The first update after a draw: the rows of the drawn users drop to zero
/// tickets, all other rows stay as they are.
pub fn reset_drawn_tickets(rows: &Vec<GroupAssignment>, assigned: &Vec<u128>) -> (updated: Vec<GroupAssignment>)
    ensures
        updated@ == rows@.map_values(|row: GroupAssignment| reset_drawn(row, assigned@)),
{
    let mut updated: Vec<GroupAssignment> = Vec::new();
    let mut i: usize = 0;
    while i < rows.len()
        invariant
            i <= rows.len(),
            updated@ == rows@.take(i as int).map_values(|row: GroupAssignment| reset_drawn(row, assigned@)),
        decreases rows.len() - i,
    {
        let row = rows[i];
        let tickets = if holds(assigned, row.user_id) {
            0
        } else {
            row.tickets
        };
        updated.push(GroupAssignment { tickets, ..row });
        assert(rows@.take(i + 1).map_values(|row: GroupAssignment| reset_drawn(row, assigned@)) =~= rows@.take(
            i as int,
        ).map_values(|row: GroupAssignment| reset_drawn(row, assigned@)).push(reset_drawn(row, assigned@)));
        i = i + 1;
    }
    assert(rows@.take(rows.len() as int) =~= rows@);
    updated
}

/// The second update after a draw: every row of a user not drawn gains one
/// ticket. It applies to all rows or to none: `None` when a count would leave
/// the range of `i32` (the database refuses such an update as a whole).
pub fn add_ticket_to_undrawn(rows: &Vec<GroupAssignment>, assigned: &Vec<u128>) -> (updated: Option<Vec<GroupAssignment>>)
    ensures
        updated is None <==> increment_overflows(rows@, assigned@),
        updated matches Some(u) ==> u@ == rows@.map_values(|row: GroupAssignment| add_ticket(row, assigned@)),
{
    let mut updated: Vec<GroupAssignment> = Vec::new();
    let mut i: usize = 0;
    while i < rows.len()
        invariant
            i <= rows.len(),
            updated@ == rows@.take(i as int).map_values(|row: GroupAssignment| add_ticket(row, assigned@)),
            forall|k: int| 0 <= k < i ==> !(!assigned@.contains(rows@[k].user_id) && rows@[k].tickets == i32::MAX),
        decreases rows.len() - i,
    {
        let row = rows[i];
        let tickets = if holds(assigned, row.user_id) {
            row.tickets
        } else if row.tickets == i32::MAX {
            return None;
        } else {
            row.tickets + 1
        };
        updated.push(GroupAssignment { tickets, ..row });
        assert(rows@.take(i + 1).map_values(|row: GroupAssignment| add_ticket(row, assigned@)) =~= rows@.take(
            i as int,
        ).map_values(|row: GroupAssignment| add_ticket(row, assigned@)).push(add_ticket(row, assigned@)));
        i = i + 1;
    }
    assert(rows@.take(rows.len() as int) =~= rows@);
    Some(updated)
}

/// Resetting the drawn users leaves the undrawn rows as they were, so the
/// increment fails on the reset rows exactly when it would on the rows read;
/// when it succeeds, the two updates together give every row its count
/// after the draw.
pub proof fn lemma_reset_then_add_is_after_draw(rows: Seq<GroupAssignment>, assigned: Seq<u128>)
    ensures
        increment_overflows(rows.map_values(|row: GroupAssignment| reset_drawn(row, assigned)), assigned)
            == increment_overflows(rows, assigned),
        !increment_overflows(rows, assigned) ==> rows.map_values(|row: GroupAssignment| reset_drawn(row, assigned)).map_values(
            |row: GroupAssignment| add_ticket(row, assigned),
        ) == rows.map_values(|row: GroupAssignment| after_draw(row, assigned)),
{
    let reset = rows.map_values(|row: GroupAssignment| reset_drawn(row, assigned));
    if increment_overflows(rows, assigned) {
        let k = choose|k: int| 0 <= k < rows.len() && !assigned.contains(rows[k].user_id) && rows[k].tickets == i32::MAX;
        assert(reset[k] == reset_drawn(rows[k], assigned));
    }
    if increment_overflows(reset, assigned) {
        let k = choose|k: int| 0 <= k < reset.len() && !assigned.contains(reset[k].user_id) && reset[k].tickets == i32::MAX;
        assert(reset[k] == reset_drawn(rows[k], assigned));
    }
    assert(reset.map_values(|row: GroupAssignment| add_ticket(row, assigned)) =~= rows.map_values(
        |row: GroupAssignment| after_draw(row, assigned),
    ));
}

/// After a draw the drawn users hold no tickets, so the next draw cannot pick
/// them; every other member with a non-negative count holds a ticket.
pub proof fn lemma_drawn_users_sit_out_the_next_draw(rows: Seq<GroupAssignment>, assigned: Seq<u128>, user: u128)
    requires
        !increment_overflows(rows, assigned),
    ensures
        assigned.contains(user) ==> !ticket_holders(rows.map_values(|row: GroupAssignment| after_draw(row, assigned))).contains(user),
        !assigned.contains(user) && (exists|k: int| 0 <= k < rows.len() && rows[k].user_id == user && rows[k].tickets >= 0)
            ==> ticket_holders(rows.map_values(|row: GroupAssignment| after_draw(row, assigned))).contains(user),
{
    let after = rows.map_values(|row: GroupAssignment| after_draw(row, assigned));
    if !assigned.contains(user) && (exists|k: int| 0 <= k < rows.len() && rows[k].user_id == user && rows[k].tickets >= 0) {
        let k = choose|k: int| 0 <= k < rows.len() && rows[k].user_id == user && rows[k].tickets >= 0;
        assert(after[k].user_id == user && after[k].tickets > 0);
    }
}

/// Turns the outcome of a draw into the answer of the assignment request.
pub fn generate_assignments<E>(outcome: GenerateGroupAssignmentResult<E>) -> (result: Result<Vec<Assignment>, &'static str>)
    ensures
        match outcome {
            GenerateGroupAssignmentResult::Success(chosen) => result == Ok::<Vec<Assignment>, &'static str>(chosen),
            GenerateGroupAssignmentResult::NotEnoughUsers => result == Err::<Vec<Assignment>, &'static str>("Not enough users to generate assignments for group"),
            GenerateGroupAssignmentResult::UnknownDatabaseError(_) => result == Err::<Vec<Assignment>, &'static str>("Unknown database error has occurred"),
        },
{
    match outcome {
        GenerateGroupAssignmentResult::Success(chosen) => Ok(chosen),
        GenerateGroupAssignmentResult::NotEnoughUsers => Err("Not enough users to generate assignments for group"),
        GenerateGroupAssignmentResult::UnknownDatabaseError(_) => Err("Unknown database error has occurred"),
    }
}

/// The identifier of the service-date record of a ticket on a date: the
/// name-based UUID of the ticket's membership id followed by the date-time.
pub open spec fn service_date_id(a: Assignment, date: Timestamp) -> u128 {
    spec_uuid_v5_oid(hyphenated(a.group_assignment_id) + spec_display_date_time(date.secs, date.nanos))
}

/// The service-date record of a ticket on a date.
pub open spec fn service_date_of(a: Assignment, date: Timestamp) -> ServiceDate {
    ServiceDate {
        id: service_date_id(a, date),
        group_assignment_id: a.group_assignment_id,
        tickets_consumed: a.tickets_consumed,
        for_date: date,
    }
}

/// The service-date records of all drawn tickets, date by date.
pub open spec fn service_dates(assignments: Seq<Assignment>, dates: Seq<Timestamp>) -> Seq<ServiceDate>
    decreases dates.len(),
{
    if dates.len() == 0 {
        Seq::empty()
    } else {
        service_dates(assignments, dates.drop_last()) + assignments.map_values(
            |a: Assignment| service_date_of(a, dates.last()),
        )
    }
}

/// One service-date record is built for every pair of a date and a drawn ticket.
pub proof fn lemma_service_dates_len(assignments: Seq<Assignment>, dates: Seq<Timestamp>)
    ensures
        service_dates(assignments, dates).len() == dates.len() * assignments.len(),
    decreases dates.len(),
{
    if dates.len() > 0 {
        lemma_service_dates_len(assignments, dates.drop_last());
        assert((dates.len() - 1) * assignments.len() + assignments.len() == dates.len() * assignments.len()) by (nonlinear_arith);
    }
}

/// Builds one service-date record per drawn ticket and date, date by date.
pub fn generate_assignments_for_dates(assignments: &Vec<Assignment>, dates: &Vec<Timestamp>) -> (records: Vec<ServiceDate>)
    requires
        forall|d: int| 0 <= d < dates.len() ==> (#[trigger] dates@[d]).is_valid(),
    ensures
        records@ == service_dates(assignments@, dates@),
{
    let mut records: Vec<ServiceDate> = Vec::new();
    let mut d: usize = 0;
    while d < dates.len()
        invariant
            d <= dates.len(),
            forall|k: int| 0 <= k < dates.len() ==> (#[trigger] dates@[k]).is_valid(),
            records@ == service_dates(assignments@, dates@.take(d as int)),
        decreases dates.len() - d,
    {
        let date = dates[d];
        let date_text = display_date_time(&date);
        let ghost before = records@;
        let mut k: usize = 0;
        while k < assignments.len()
            invariant
                k <= assignments.len(),
                date_text@ == spec_display_date_time(date.secs, date.nanos),
                records@ == before + assignments@.take(k as int).map_values(|a: Assignment| service_date_of(a, date)),
            decreases assignments.len() - k,
        {
            let a = assignments[k];
            let mut name = uuid_to_string(a.group_assignment_id);
            name.append(date_text.as_str());
            let id = uuid_v5_oid(name.as_str());
            records.push(ServiceDate {
                id,
                group_assignment_id: a.group_assignment_id,
                tickets_consumed: a.tickets_consumed,
                for_date: date,
            });
            assert(assignments@.take(k + 1).map_values(|a: Assignment| service_date_of(a, date)) =~= assignments@.take(k as int).map_values(|a: Assignment| service_date_of(a, date)).push(service_date_of(a, date)));
            k = k + 1;
        }
        assert(assignments@.take(assignments.len() as int) =~= assignments@);
        assert(dates@.take(d + 1).drop_last() =~= dates@.take(d as int));
        d = d + 1;
    }
    assert(dates@.take(dates.len() as int) =~= dates@);
    records
}

/// The service-date records that go with the outcome of a draw: those of the
/// drawn tickets on every date when the draw succeeded, none otherwise.
pub open spec fn dated_records<E>(result: GenerateGroupAssignmentResult<E>, dates: Seq<Timestamp>) -> Seq<ServiceDate> {
    match result {
        GenerateGroupAssignmentResult::Success(chosen) => service_dates(chosen@, dates),
        _ => Seq::empty(),
    }
}

/// Runs one draw for a group and builds its service-date records for all the
/// given dates from that one draw. The outcome is that of
/// `generate_assignments_for_group` whatever the dates; with no dates there
/// are no records.
pub fn draw_for_dates<E>(query: Result<Vec<(Group, GroupAssignment)>, E>, dates: &Vec<Timestamp>) -> (drawn: (
    GenerateGroupAssignmentResult<E>,
    Vec<ServiceDate>,
))
    requires
        query matches Ok(rows) ==> {
            &&& rows.len() > 0
            &&& 0 <= rows@[0].0.positions <= rows.len() ==> ticket_holders(membership_rows(rows@)).len() >= rows@[0].0.positions
        },
        forall|d: int| 0 <= d < dates.len() ==> (#[trigger] dates@[d]).is_valid(),
    ensures
        is_draw_outcome(query, drawn.0),
        drawn.1@ == dated_records(drawn.0, dates@),
{
    let outcome = generate_assignments_for_group(query);
    let records = match &outcome {
        GenerateGroupAssignmentResult::Success(chosen) => generate_assignments_for_dates(chosen, dates),
        _ => Vec::new(),
    };
    (outcome, records)
}

/// Every date repeats the same draw: the records run date by date, and the
/// record of the `k`-th drawn ticket on the `i`-th date is that ticket's
/// record for that date.
pub proof fn lemma_every_date_repeats_the_draw(chosen: Seq<Assignment>, dates: Seq<Timestamp>, i: int, k: int)
    requires
        0 <= i < dates.len(),
        0 <= k < chosen.len(),
    ensures
        service_dates(chosen, dates).len() == dates.len() * chosen.len(),
        service_dates(chosen, dates)[i * chosen.len() + k] == service_date_of(chosen[k], dates[i]),
    decreases dates.len(),
{
    lemma_service_dates_len(chosen, dates);
    let n = chosen.len() as int;
    let rest = dates.drop_last();
    lemma_service_dates_len(chosen, rest);
    if i < dates.len() - 1 {
        lemma_every_date_repeats_the_draw(chosen, rest, i, k);
        assert(i * n + k < rest.len() * n) by (nonlinear_arith)
            requires
                0 <= i < rest.len(),
                0 <= k < n,
        {
            assert(i * n + n <= rest.len() * n);
        }
        assert(rest[i] == dates[i]);
    } else {
        assert(i * n == rest.len() * n);
    }
}

} // verus!
