//! Conversion of fetched team records into group summaries.
use vstd::prelude::*;

use crate::auth::{team_member, TeamMembership};
use crate::error::EngineError;

verus! {

/// A fetched team record: identity, profile text and owner.
pub struct TeamProfile {
    pub team_id: u128,
    pub display_name: String,
    pub bio: String,
    pub owner_user_id: Option<u128>,
}

/// A fetched member count for one team.
#[derive(Clone, Copy, Debug, PartialEq, Eq, Structural)]
pub struct TeamMemberCount {
    pub team_id: u128,
    pub member_count: u32,
}

/// One group summary as handed to callers.
pub struct GroupSummary {
    pub group_id: u128,
    pub display_name: String,
    pub bio: String,
    pub is_current_identity_member: bool,
    pub member_count: u32,
    pub owner_user_id: u128,
}

/// The member count recorded for `id` at or after `i`, if any.
pub open spec fn first_count(counts: Seq<TeamMemberCount>, id: u128, i: int) -> Option<u32>
    decreases counts.len() - i,
{
    if i < 0 || i >= counts.len() {
        None
    } else if counts[i].team_id == id {
        Some(counts[i].member_count)
    } else {
        first_count(counts, id, i + 1)
    }
}

fn find_count(counts: &Vec<TeamMemberCount>, id: u128) -> (r: Option<u32>)
    ensures
        r == first_count(counts@, id, 0),
{
    let n = counts.len();
    let mut i: usize = 0;
    while i < n
        invariant
            n == counts@.len(),
            0 <= i <= n,
            first_count(counts@, id, 0) == first_count(counts@, id, i as int),
        decreases n - i,
    {
        if counts[i].team_id == id {
            return Some(counts[i].member_count);
        }
        i += 1;
    }
    None
}

/// Assemble one summary from a team record and the fetched member counts; a
/// record missing its count or its owner cannot be summarised.
pub fn summary(team: &TeamProfile, counts: &Vec<TeamMemberCount>, is_member: bool) -> (r: Result<
    GroupSummary,
    EngineError,
>)
    ensures
        r is Ok <==> (first_count(counts@, team.team_id, 0) is Some && team.owner_user_id is Some),
        r matches Ok(s) ==> {
            &&& s.group_id == team.team_id
            &&& s.display_name@ == team.display_name@
            &&& s.bio@ == team.bio@
            &&& s.is_current_identity_member == is_member
            &&& Some(s.member_count) == first_count(counts@, team.team_id, 0)
            &&& team.owner_user_id == Some(s.owner_user_id)
        },
        r matches Err(e) ==> e == EngineError::Infrastructure,
{
    let member_count = match find_count(counts, team.team_id) {
        Some(c) => c,
        None => {
            return Err(EngineError::Infrastructure);
        },
    };
    let owner_user_id = match team.owner_user_id {
        Some(id) => id,
        None => {
            return Err(EngineError::Infrastructure);
        },
    };
    Ok(
        GroupSummary {
            group_id: team.team_id,
            display_name: team.display_name.clone(),
            bio: team.bio.clone(),
            is_current_identity_member: is_member,
            member_count,
            owner_user_id,
        },
    )
}

/// Summaries for the fetched teams: membership is judged against the current
/// user's team list, absent when no user is acting; requesting no groups
/// yields no summaries without touching the records.
pub fn summaries(
    current_user_id: Option<u128>,
    group_ids: &Vec<u128>,
    user_teams: &Vec<TeamMembership>,
    teams: &Vec<TeamProfile>,
    member_counts: &Vec<TeamMemberCount>,
) -> (r: Result<Vec<GroupSummary>, EngineError>)
    ensures
        group_ids@.len() == 0 ==> (r matches Ok(v) && v@.len() == 0),
        group_ids@.len() > 0 ==> ((r is Ok) <==> (forall|k: int|
            0 <= k < teams@.len() ==> first_count(
                member_counts@,
                (#[trigger] teams@[k]).team_id,
                0,
            ) is Some && teams@[k].owner_user_id is Some)),
        group_ids@.len() > 0 ==> (r matches Ok(v) ==> v@.len() == teams@.len() && (forall|k: int|
            0 <= k < teams@.len() ==> {
                &&& (#[trigger] v@[k]).group_id == teams@[k].team_id
                &&& v@[k].display_name@ == teams@[k].display_name@
                &&& v@[k].bio@ == teams@[k].bio@
                &&& v@[k].is_current_identity_member == (current_user_id is Some && team_member(
                    user_teams@,
                    teams@[k].team_id,
                ))
                &&& Some(v@[k].member_count) == first_count(
                    member_counts@,
                    teams@[k].team_id,
                    0,
                )
                &&& teams@[k].owner_user_id == Some(v@[k].owner_user_id)
            })),
        r matches Err(e) ==> e == EngineError::Infrastructure,
{
    if group_ids.len() == 0 {
        return Ok(Vec::new());
    }
    let n = teams.len();
    let mut out: Vec<GroupSummary> = Vec::new();
    let mut i: usize = 0;
    while i < n
        invariant
            n == teams@.len(),
            0 <= i <= n,
            out@.len() == i,
            group_ids@.len() > 0,
            forall|k: int|
                0 <= k < i ==> {
                    &&& (#[trigger] out@[k]).group_id == teams@[k].team_id
                    &&& out@[k].display_name@ == teams@[k].display_name@
                    &&& out@[k].bio@ == teams@[k].bio@
                    &&& out@[k].is_current_identity_member == (current_user_id is Some
                        && team_member(user_teams@, teams@[k].team_id))
                    &&& Some(out@[k].member_count) == first_count(
                        member_counts@,
                        teams@[k].team_id,
                        0,
                    )
                    &&& teams@[k].owner_user_id == Some(out@[k].owner_user_id)
                },
        decreases n - i,
    {
        let team = &teams[i];
        let is_member = match current_user_id {
            Some(_) => crate::group::convert::is_member_of(user_teams, team.team_id),
            None => false,
        };
        let one = match summary(team, member_counts, is_member) {
            Ok(s) => s,
            Err(e) => {
                return Err(e);
            },
        };
        out.push(one);
        i += 1;
    }
    proof {
        assert forall|k: int| 0 <= k < teams@.len() implies first_count(
            member_counts@,
            (#[trigger] teams@[k]).team_id,
            0,
        ) is Some && teams@[k].owner_user_id is Some by {
            assert((out@[k]).group_id == teams@[k].team_id);
        }
    }
    Ok(out)
}

/// Whether the user's team list contains the given team.
pub fn is_member_of(teams: &Vec<TeamMembership>, id: u128) -> (r: bool)
    ensures
        r == team_member(teams@, id),
{
    let n = teams.len();
    let mut i: usize = 0;
    while i < n
        invariant
            n == teams@.len(),
            0 <= i <= n,
            forall|j: int| 0 <= j < i ==> (#[trigger] teams@[j]).team_id != id,
        decreases n - i,
    {
        if teams[i].team_id == id {
            return true;
        }
        i += 1;
    }
    false
}

} // verus!
