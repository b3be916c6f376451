use services_grouping::actions::data::ticketing::{
    assigned_users, draw_is_possible, draw_ticket, ticket_holder_count, reset_drawn_tickets, add_ticket_to_undrawn, draw_for_dates, generate_assignments, generate_assignments_for_dates,
    generate_assignments_for_group, Assignment, GenerateGroupAssignmentResult,
};
use services_grouping::date_time::Timestamp;
use services_grouping::model::database::{Group, GroupAssignment};

fn group(positions: i32) -> Group {
    Group {
        id: 7,
        planning_center_id: "g-1".to_string(),
        name: "Worship Team".to_string(),
        positions,
        is_deleted: false,
    }
}

fn row(id: u128, user_id: u128, tickets: i32) -> GroupAssignment {
    GroupAssignment { id, user_id, group_id: 7, tickets }
}

fn rows(positions: i32, memberships: &[GroupAssignment]) -> Vec<(Group, GroupAssignment)> {
    memberships.iter().map(|m| (group(positions), *m)).collect()
}

#[test]
fn draw_fills_every_position_with_distinct_ticket_holders() {
    let memberships = [row(1, 100, 2), row(2, 200, 1), row(3, 300, 3), row(4, 400, 1)];
    for _ in 0..200 {
        let outcome = generate_assignments_for_group::<String>(Ok(rows(3, &memberships)));
        let chosen = match outcome {
            GenerateGroupAssignmentResult::Success(chosen) => chosen,
            _ => panic!("expected a draw"),
        };
        assert_eq!(chosen.len(), 3);
        for i in 0..chosen.len() {
            for j in (i + 1)..chosen.len() {
                assert_ne!(chosen[i].user_id, chosen[j].user_id);
            }
            let m = memberships.iter().find(|m| m.user_id == chosen[i].user_id).unwrap();
            assert_eq!(chosen[i].group_assignment_id, m.id);
            assert_eq!(chosen[i].group_id, 7);
            assert_eq!(chosen[i].tickets_consumed, m.tickets);
        }
    }
}

#[test]
fn draw_reaches_every_ticket_holder() {
    let memberships = [row(1, 100, 1), row(2, 200, 5), row(3, 300, 1)];
    let mut seen = std::collections::HashSet::new();
    for _ in 0..500 {
        if let GenerateGroupAssignmentResult::Success(chosen) =
            generate_assignments_for_group::<String>(Ok(rows(1, &memberships)))
        {
            seen.insert(chosen[0].user_id);
        }
    }
    assert_eq!(seen.len(), 3);
}

#[test]
fn draw_never_picks_a_user_without_tickets() {
    let memberships = [row(1, 100, -2), row(2, 200, 4), row(3, 300, 0), row(4, 400, 2)];
    for _ in 0..100 {
        match generate_assignments_for_group::<String>(Ok(rows(2, &memberships))) {
            GenerateGroupAssignmentResult::Success(chosen) => {
                let mut users: Vec<u128> = chosen.iter().map(|a| a.user_id).collect();
                users.sort();
                assert_eq!(users, vec![200, 400]);
            }
            _ => panic!("expected a draw"),
        }
    }
}

#[test]
fn later_row_of_a_user_sets_the_recorded_count() {
    let memberships = [row(1, 100, 2), row(2, 100, 5)];
    match generate_assignments_for_group::<String>(Ok(rows(1, &memberships))) {
        GenerateGroupAssignmentResult::Success(chosen) => {
            assert_eq!(chosen.len(), 1);
            assert_eq!(chosen[0].user_id, 100);
            assert_eq!(chosen[0].tickets_consumed, 5);
        }
        _ => panic!("expected a draw"),
    }
}

#[test]
fn too_few_rows_is_not_enough_users() {
    let memberships = [row(1, 100, 1), row(2, 200, 1)];
    assert!(matches!(
        generate_assignments_for_group::<String>(Ok(rows(3, &memberships))),
        GenerateGroupAssignmentResult::NotEnoughUsers
    ));
}

#[test]
fn negative_positions_is_not_enough_users() {
    let memberships = [row(1, 100, 1)];
    assert!(matches!(
        generate_assignments_for_group::<String>(Ok(rows(-1, &memberships))),
        GenerateGroupAssignmentResult::NotEnoughUsers
    ));
}

#[test]
fn zero_positions_draws_nobody() {
    let memberships = [row(1, 100, 1)];
    match generate_assignments_for_group::<String>(Ok(rows(0, &memberships))) {
        GenerateGroupAssignmentResult::Success(chosen) => assert!(chosen.is_empty()),
        _ => panic!("expected an empty draw"),
    }
}

#[test]
fn query_error_is_passed_on() {
    match generate_assignments_for_group::<String>(Err("connection lost".to_string())) {
        GenerateGroupAssignmentResult::UnknownDatabaseError(e) => assert_eq!(e, "connection lost"),
        _ => panic!("expected the query error"),
    }
}

#[test]
fn outcomes_map_to_answers() {
    let chosen = vec![Assignment { group_assignment_id: 1, user_id: 2, group_id: 3, tickets_consumed: 4 }];
    let ok = generate_assignments::<String>(GenerateGroupAssignmentResult::Success(chosen));
    assert_eq!(ok.unwrap()[0].user_id, 2);
    assert_eq!(
        generate_assignments::<String>(GenerateGroupAssignmentResult::NotEnoughUsers).unwrap_err(),
        "Not enough users to generate assignments for group"
    );
    assert_eq!(
        generate_assignments::<String>(GenerateGroupAssignmentResult::UnknownDatabaseError("x".to_string())).unwrap_err(),
        "Unknown database error has occurred"
    );
}

#[test]
fn drawing_a_ticket_removes_all_tickets_of_its_user() {
    let t = |user_id: u128| Assignment { group_assignment_id: user_id, user_id, group_id: 1, tickets_consumed: 1 };
    let mut pool = vec![t(1), t(2), t(1), t(3), t(2)];
    let drawn = draw_ticket(&mut pool, 1);
    assert_eq!(drawn.user_id, 2);
    let users: Vec<u128> = pool.iter().map(|a| a.user_id).collect();
    assert_eq!(users, vec![1, 1, 3]);
}

#[test]
fn assigned_users_lists_the_drawn_users() {
    let chosen = vec![
        Assignment { group_assignment_id: 1, user_id: 10, group_id: 3, tickets_consumed: 1 },
        Assignment { group_assignment_id: 2, user_id: 20, group_id: 3, tickets_consumed: 2 },
    ];
    assert_eq!(assigned_users(&chosen), vec![10, 20]);
}

#[test]
fn service_dates_are_built_per_date_and_ticket() {
    let chosen = vec![
        Assignment { group_assignment_id: 1, user_id: 10, group_id: 3, tickets_consumed: 4 },
        Assignment { group_assignment_id: 2, user_id: 20, group_id: 3, tickets_consumed: 6 },
    ];
    let first = Timestamp { secs: 1704621600, nanos: 0 };
    let second = Timestamp { secs: 1705226400, nanos: 0 };
    let records = generate_assignments_for_dates(&chosen, &vec![first, second]);
    assert_eq!(records.len(), 4);
    assert_eq!(records[0].group_assignment_id, 1);
    assert_eq!(records[1].group_assignment_id, 2);
    assert_eq!(records[2].for_date.secs, 1705226400);
    assert_eq!(records[3].tickets_consumed, 6);
    // name-based UUID of "00000000-0000-0000-0000-000000000001" + "2024-01-07 10:00:00"
    assert_eq!(records[0].id, 3307798263078749844423692073294201579);
    assert_ne!(records[0].id, records[2].id);
}

#[test]
fn no_dates_no_service_dates() {
    let chosen = vec![Assignment { group_assignment_id: 1, user_id: 10, group_id: 3, tickets_consumed: 4 }];
    assert!(generate_assignments_for_dates(&chosen, &vec![]).is_empty());
}

#[test]
fn ticket_holders_are_counted_once_each() {
    let memberships = vec![row(1, 100, 2), row(2, 100, 1), row(3, 200, 0), row(4, 300, -1), row(5, 400, 7)];
    assert_eq!(ticket_holder_count(&memberships), 2);
    assert_eq!(ticket_holder_count(&vec![]), 0);
}

#[test]
fn a_draw_needs_rows_and_enough_ticket_holders() {
    assert!(!draw_is_possible(&vec![]));
    let two_holders = [row(1, 100, 2), row(2, 100, 1), row(3, 200, 1)];
    assert!(draw_is_possible(&rows(2, &two_holders)));
    assert!(!draw_is_possible(&rows(3, &[row(1, 100, 2), row(2, 100, 1), row(3, 200, 1)])));
    assert!(draw_is_possible(&rows(4, &two_holders)));
    assert!(draw_is_possible(&rows(-1, &two_holders)));
}

#[test]
fn drawn_users_start_over_and_everyone_else_gains_a_ticket() {
    let members = vec![row(1, 100, 3), row(2, 200, 0), row(3, 300, 5), row(4, 100, 1)];
    let reset = reset_drawn_tickets(&members, &vec![100]);
    let tickets: Vec<i32> = reset.iter().map(|m| m.tickets).collect();
    assert_eq!(tickets, vec![0, 0, 5, 0]);
    let updated = add_ticket_to_undrawn(&reset, &vec![100]).unwrap();
    let tickets: Vec<i32> = updated.iter().map(|m| m.tickets).collect();
    assert_eq!(tickets, vec![0, 1, 6, 0]);
    assert_eq!(updated[2].id, 3);
    assert_eq!(ticket_holder_count(&updated), 2);
}

#[test]
fn ticket_counts_stay_in_range() {
    let members = vec![row(1, 100, i32::MAX), row(2, 200, 1)];
    // the drawn user is reset even though the increment that follows is refused
    let reset = reset_drawn_tickets(&members, &vec![200]);
    assert_eq!(reset[0].tickets, i32::MAX);
    assert_eq!(reset[1].tickets, 0);
    assert!(add_ticket_to_undrawn(&reset, &vec![200]).is_none());
    let reset = reset_drawn_tickets(&members, &vec![100]);
    let updated = add_ticket_to_undrawn(&reset, &vec![100]).unwrap();
    assert_eq!(updated[0].tickets, 0);
    assert_eq!(updated[1].tickets, 2);
}

#[test]
fn one_draw_serves_every_date() {
    let memberships = [row(1, 100, 2), row(2, 200, 1), row(3, 300, 3)];
    let first = Timestamp { secs: 1704621600, nanos: 0 };
    let second = Timestamp { secs: 1705226400, nanos: 0 };
    for _ in 0..50 {
        let (outcome, records) = draw_for_dates::<String>(Ok(rows(2, &memberships)), &vec![first, second]);
        let chosen = match outcome {
            GenerateGroupAssignmentResult::Success(chosen) => chosen,
            _ => panic!("expected a draw"),
        };
        assert_eq!(chosen.len(), 2);
        assert_eq!(records.len(), 4);
        for (i, date) in [first, second].iter().enumerate() {
            for (k, ticket) in chosen.iter().enumerate() {
                let record = &records[i * 2 + k];
                assert_eq!(record.group_assignment_id, ticket.group_assignment_id);
                assert_eq!(record.tickets_consumed, ticket.tickets_consumed);
                assert_eq!(record.for_date.secs, date.secs);
            }
        }
    }
}

#[test]
fn a_draw_without_dates_has_no_records() {
    let memberships = [row(1, 100, 2), row(2, 200, 1)];
    let (outcome, records) = draw_for_dates::<String>(Ok(rows(1, &memberships)), &vec![]);
    assert!(matches!(outcome, GenerateGroupAssignmentResult::Success(ref chosen) if chosen.len() == 1));
    assert!(records.is_empty());
}

#[test]
fn a_failed_draw_has_no_records() {
    let first = Timestamp { secs: 1704621600, nanos: 0 };
    let (outcome, records) = draw_for_dates::<String>(Ok(rows(3, &[row(1, 100, 2)])), &vec![first]);
    assert!(matches!(outcome, GenerateGroupAssignmentResult::NotEnoughUsers));
    assert!(records.is_empty());
    let (outcome, records) = draw_for_dates::<String>(Err("down".to_string()), &vec![first]);
    assert!(matches!(outcome, GenerateGroupAssignmentResult::UnknownDatabaseError(ref e) if e == "down"));
    assert!(records.is_empty());
}
