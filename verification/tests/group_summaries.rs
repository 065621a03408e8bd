use workflow_core::auth::TeamMembership;
use workflow_core::error::EngineError;
use workflow_core::group::convert;
use workflow_core::group::fetch;
use workflow_core::group::convert::{TeamMemberCount, TeamProfile};

fn team(id: u128, name: &str, owner: Option<u128>) -> TeamProfile {
    TeamProfile {
        team_id: id,
        display_name: name.to_string(),
        bio: format!("about {}", name),
        owner_user_id: owner,
    }
}

#[test]
fn convert_summaries_assembles_fields_and_membership() {
    let teams = vec![team(1, "alpha", Some(7)), team(2, "beta", Some(8))];
    let counts = vec![
        TeamMemberCount { team_id: 2, member_count: 5 },
        TeamMemberCount { team_id: 1, member_count: 3 },
    ];
    let user_teams = vec![TeamMembership { team_id: 2 }];
    let out = convert::summaries(Some(99), &vec![1, 2], &user_teams, &teams, &counts).unwrap();
    assert_eq!(out.len(), 2);
    assert_eq!(out[0].group_id, 1);
    assert_eq!(out[0].display_name, "alpha");
    assert_eq!(out[0].bio, "about alpha");
    assert_eq!(out[0].member_count, 3);
    assert_eq!(out[0].owner_user_id, 7);
    assert!(!out[0].is_current_identity_member);
    assert!(out[1].is_current_identity_member);
    assert_eq!(out[1].member_count, 5);
}

#[test]
fn convert_summaries_without_user_marks_no_membership() {
    let teams = vec![team(1, "alpha", Some(7))];
    let counts = vec![TeamMemberCount { team_id: 1, member_count: 3 }];
    let user_teams = vec![TeamMembership { team_id: 1 }];
    let out = convert::summaries(None, &vec![1], &user_teams, &teams, &counts).unwrap();
    assert!(!out[0].is_current_identity_member);
}

#[test]
fn convert_summaries_of_no_groups_is_empty() {
    let out = convert::summaries(Some(99), &Vec::new(), &Vec::new(), &Vec::new(), &Vec::new())
        .unwrap();
    assert!(out.is_empty());
}

#[test]
fn missing_member_count_is_infrastructure_trouble() {
    let teams = vec![team(1, "alpha", Some(7))];
    let out = convert::summaries(Some(99), &vec![1], &Vec::new(), &teams, &Vec::new());
    assert_eq!(
        out.err(),
        Some(EngineError::Infrastructure),
    );
}

#[test]
fn portal_summaries_follow_the_requested_order() {
    let teams = vec![team(2, "beta", Some(8)), team(1, "alpha", Some(7))];
    let counts = vec![
        TeamMemberCount { team_id: 1, member_count: 3 },
        TeamMemberCount { team_id: 2, member_count: 5 },
    ];
    let user_teams = vec![TeamMembership { team_id: 1 }];
    let out =
        workflow_core::group::portal::group_summaries(&vec![1, 2], &user_teams, &teams, &counts)
            .unwrap();
    assert_eq!(out.len(), 2);
    assert_eq!(out[0].group_id, 1);
    assert_eq!(out[0].display_name, "alpha");
    assert!(out[0].is_current_identity_member);
    assert_eq!(out[1].group_id, 2);
    assert_eq!(out[1].member_count, 5);
    assert!(!out[1].is_current_identity_member);
}

#[test]
fn portal_summaries_require_every_requested_team() {
    let teams = vec![team(1, "alpha", Some(7))];
    let counts = vec![TeamMemberCount { team_id: 1, member_count: 3 }];
    let out = workflow_core::group::portal::group_summaries(
        &vec![1, 99],
        &Vec::new(),
        &teams,
        &counts,
    );
    assert_eq!(out.err(), Some(EngineError::Infrastructure));
}

#[test]
fn fetch_summaries_judges_membership_for_the_user() {
    let teams = vec![team(1, "alpha", Some(7))];
    let counts = vec![TeamMemberCount { team_id: 1, member_count: 3 }];
    let user_teams = vec![TeamMembership { team_id: 1 }];
    let out = fetch::summaries(99, &user_teams, &teams, &counts).unwrap();
    assert_eq!(out.len(), 1);
    assert!(out[0].is_current_identity_member);
}
