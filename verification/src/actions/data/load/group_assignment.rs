//! Importing memberships from the users' group lists.
use vstd::prelude::*;

use crate::actions::data::load::user::UserRecords;
use crate::ids::{hyphenated, spec_uuid_v5_oid};
use crate::model::database::{imported_memberships, GroupAssignment};
use crate::model::{excel, json};

verus! {

/// The memberships of every excel user, user by user.
pub open spec fn excel_memberships(items: Seq<excel::User>) -> Seq<GroupAssignment>
    decreases items.len(),
{
    if items.len() == 0 {
        Seq::empty()
    } else {
        excel_memberships(items.drop_last()) + imported_memberships(
            items.last().first_name@,
            items.last().last_name@,
            items.last().groups@.map_values(|g: String| g@),
        )
    }
}

/// The memberships of every JSON user, user by user.
pub open spec fn json_memberships(items: Seq<json::User>) -> Seq<GroupAssignment>
    decreases items.len(),
{
    if items.len() == 0 {
        Seq::empty()
    } else {
        json_memberships(items.drop_last()) + imported_memberships(
            items.last().first_name@,
            items.last().last_name@,
            items.last().groups@.map_values(|g: String| g@),
        )
    }
}

/// How many groups the first `k` json users list together.
pub open spec fn json_groups_listed(items: Seq<json::User>, k: int) -> nat
    decreases k,
{
    if k <= 0 {
        0
    } else {
        json_groups_listed(items, k - 1) + items[k - 1].groups@.len()
    }
}

proof fn lemma_json_groups_listed_prefix(items: Seq<json::User>, k: int)
    requires
        0 <= k < items.len(),
    ensures
        json_groups_listed(items.drop_last(), k) == json_groups_listed(items, k),
    decreases k,
{
    if k > 0 {
        lemma_json_groups_listed_prefix(items, k - 1);
        assert(items.drop_last()[k - 1] == items[k - 1]);
    }
}

proof fn lemma_json_groups_listed_grows(items: Seq<json::User>, k: int, j: int)
    requires
        0 <= k <= j,
    ensures
        json_groups_listed(items, k) <= json_groups_listed(items, j),
    decreases j - k,
{
    if k < j {
        lemma_json_groups_listed_grows(items, k, j - 1);
    }
}

/// Importing json users creates one membership per listed group of every
/// user: as many memberships as the users list groups.
pub proof fn lemma_json_memberships_len(items: Seq<json::User>)
    ensures
        json_memberships(items).len() == json_groups_listed(items, items.len() as int),
    decreases items.len(),
{
    if items.len() > 0 {
        lemma_json_memberships_len(items.drop_last());
        lemma_json_groups_listed_prefix(items, items.len() - 1);
    }
}

/// The membership of the `k`-th json user in the `g`-th group it lists stands
/// after the memberships of the users before it: it joins the user named
/// by the record's first and last name to the group of that name, with one
/// ticket.
pub proof fn lemma_json_memberships_list_every_user_group(items: Seq<json::User>, k: int, g: int)
    requires
        0 <= k < items.len(),
        0 <= g < items[k].groups.len(),
    ensures
        json_groups_listed(items, k) + g < json_memberships(items).len(),
        json_memberships(items)[json_groups_listed(items, k) + g].user_id
            == spec_uuid_v5_oid(items[k].first_name@ + seq![' '] + items[k].last_name@),
        json_memberships(items)[json_groups_listed(items, k) + g].group_id == spec_uuid_v5_oid(items[k].groups[g]@),
        json_memberships(items)[json_groups_listed(items, k) + g].tickets == 1,
        json_memberships(items)[json_groups_listed(items, k) + g].id == spec_uuid_v5_oid(
            hyphenated(json_memberships(items)[json_groups_listed(items, k) + g].user_id)
                + hyphenated(json_memberships(items)[json_groups_listed(items, k) + g].group_id),
        ),
    decreases items.len(),
{
    let rest = items.drop_last();
    lemma_json_memberships_len(items);
    lemma_json_memberships_len(rest);
    lemma_json_groups_listed_prefix(items, items.len() - 1);
    if k == items.len() - 1 {
        assert(items[k].groups@.map_values(|n: String| n@)[g] == items[k].groups[g]@);
    } else {
        lemma_json_memberships_list_every_user_group(rest, k, g);
        lemma_json_groups_listed_prefix(items, k);
        assert(rest[k] == items[k]);
        lemma_json_groups_listed_grows(items, k + 1, items.len() - 1);
    }
}

/// How many groups the first `k` excel users list together.
pub open spec fn excel_groups_listed(items: Seq<excel::User>, k: int) -> nat
    decreases k,
{
    if k <= 0 {
        0
    } else {
        excel_groups_listed(items, k - 1) + items[k - 1].groups@.len()
    }
}

proof fn lemma_excel_groups_listed_prefix(items: Seq<excel::User>, k: int)
    requires
        0 <= k < items.len(),
    ensures
        excel_groups_listed(items.drop_last(), k) == excel_groups_listed(items, k),
    decreases k,
{
    if k > 0 {
        lemma_excel_groups_listed_prefix(items, k - 1);
        assert(items.drop_last()[k - 1] == items[k - 1]);
    }
}

proof fn lemma_excel_groups_listed_grows(items: Seq<excel::User>, k: int, j: int)
    requires
        0 <= k <= j,
    ensures
        excel_groups_listed(items, k) <= excel_groups_listed(items, j),
    decreases j - k,
{
    if k < j {
        lemma_excel_groups_listed_grows(items, k, j - 1);
    }
}

/// Importing excel users creates one membership per listed group of every
/// user: as many memberships as the users list groups.
pub proof fn lemma_excel_memberships_len(items: Seq<excel::User>)
    ensures
        excel_memberships(items).len() == excel_groups_listed(items, items.len() as int),
    decreases items.len(),
{
    if items.len() > 0 {
        lemma_excel_memberships_len(items.drop_last());
        lemma_excel_groups_listed_prefix(items, items.len() - 1);
    }
}

/// The membership of the `k`-th excel user in the `g`-th group it lists stands
/// after the memberships of the users before it: it joins the user named
/// by the record's first and last name to the group of that name, with one
/// ticket.
pub proof fn lemma_excel_memberships_list_every_user_group(items: Seq<excel::User>, k: int, g: int)
    requires
        0 <= k < items.len(),
        0 <= g < items[k].groups.len(),
    ensures
        excel_groups_listed(items, k) + g < excel_memberships(items).len(),
        excel_memberships(items)[excel_groups_listed(items, k) + g].user_id
            == spec_uuid_v5_oid(items[k].first_name@ + seq![' '] + items[k].last_name@),
        excel_memberships(items)[excel_groups_listed(items, k) + g].group_id == spec_uuid_v5_oid(items[k].groups[g]@),
        excel_memberships(items)[excel_groups_listed(items, k) + g].tickets == 1,
        excel_memberships(items)[excel_groups_listed(items, k) + g].id == spec_uuid_v5_oid(
            hyphenated(excel_memberships(items)[excel_groups_listed(items, k) + g].user_id)
                + hyphenated(excel_memberships(items)[excel_groups_listed(items, k) + g].group_id),
        ),
    decreases items.len(),
{
    let rest = items.drop_last();
    lemma_excel_memberships_len(items);
    lemma_excel_memberships_len(rest);
    lemma_excel_groups_listed_prefix(items, items.len() - 1);
    if k == items.len() - 1 {
        assert(items[k].groups@.map_values(|n: String| n@)[g] == items[k].groups[g]@);
    } else {
        lemma_excel_memberships_list_every_user_group(rest, k, g);
        lemma_excel_groups_listed_prefix(items, k);
        assert(rest[k] == items[k]);
        lemma_excel_groups_listed_grows(items, k + 1, items.len() - 1);
    }
}

/// The memberships of all imported users in the groups they list.
pub fn from(records: &UserRecords) -> (memberships: Vec<GroupAssignment>)
    ensures
        match records {
            UserRecords::Excel(items) => memberships@ == excel_memberships(items@),
            UserRecords::Json(items) => memberships@ == json_memberships(items@),
        },
{
    let mut memberships: Vec<GroupAssignment> = Vec::new();
    match records {
        UserRecords::Excel(items) => {
            let mut i: usize = 0;
            while i < items.len()
                invariant
                    i <= items.len(),
                    memberships@ == excel_memberships(items@.take(i as int)),
                decreases items.len() - i,
            {
                let mut more = GroupAssignment::from_excel(&items[i]);
                memberships.append(&mut more);
                assert(items@.take(i + 1).drop_last() =~= items@.take(i as int));
                i = i + 1;
            }
            assert(items@.take(items.len() as int) =~= items@);
        },
        UserRecords::Json(items) => {
            let mut i: usize = 0;
            while i < items.len()
                invariant
                    i <= items.len(),
                    memberships@ == json_memberships(items@.take(i as int)),
                decreases items.len() - i,
            {
                let mut more = GroupAssignment::from_json(&items[i]);
                memberships.append(&mut more);
                assert(items@.take(i + 1).drop_last() =~= items@.take(i as int));
                i = i + 1;
            }
            assert(items@.take(items.len() as int) =~= items@);
        },
    }
    memberships
}

} // verus!
