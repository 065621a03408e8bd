//! Group summaries for a signed-in user's listing, built from the fetched
//! team metadata.
use vstd::prelude::*;

use crate::auth::{team_member, TeamMembership};
use crate::error::EngineError;
use crate::group::convert::{
    first_count, is_member_of, summary, GroupSummary, TeamMemberCount, TeamProfile,
};

verus! {

/// Summaries of the fetched teams for the given user: one per team, with
/// membership judged against the user's own team list. `current_user_id`
/// names the user whose `user_teams` were fetched; the judgement itself
/// reads only that list.
pub fn summaries(
    current_user_id: u128,
    user_teams: &Vec<TeamMembership>,
    teams: &Vec<TeamProfile>,
    member_counts: &Vec<TeamMemberCount>,
) -> (r: Result<Vec<GroupSummary>, EngineError>)
    ensures
        (r is Ok) <==> (forall|k: int|
            0 <= k < teams@.len() ==> first_count(
                member_counts@,
                (#[trigger] teams@[k]).team_id,
                0,
            ) is Some && teams@[k].owner_user_id is Some),
        r matches Ok(v) ==> v@.len() == teams@.len() && (forall|k: int|
            0 <= k < teams@.len() ==> {
                &&& (#[trigger] v@[k]).group_id == teams@[k].team_id
                &&& v@[k].display_name@ == teams@[k].display_name@
                &&& v@[k].bio@ == teams@[k].bio@
                &&& v@[k].is_current_identity_member == team_member(
                    user_teams@,
                    teams@[k].team_id,
                )
                &&& Some(v@[k].member_count) == first_count(member_counts@, teams@[k].team_id, 0)
                &&& teams@[k].owner_user_id == Some(v@[k].owner_user_id)
            }),
        r matches Err(e) ==> e == EngineError::Infrastructure,
{
    let n = teams.len();
    let mut out: Vec<GroupSummary> = Vec::new();
    let mut i: usize = 0;
    while i < n
        invariant
            n == teams@.len(),
            0 <= i <= n,
            out@.len() == i,
            forall|k: int|
                0 <= k < i ==> {
                    &&& (#[trigger] out@[k]).group_id == teams@[k].team_id
                    &&& out@[k].display_name@ == teams@[k].display_name@
                    &&& out@[k].bio@ == teams@[k].bio@
                    &&& out@[k].is_current_identity_member == team_member(
                        user_teams@,
                        teams@[k].team_id,
                    )
                    &&& Some(out@[k].member_count) == first_count(
                        member_counts@,
                        teams@[k].team_id,
                        0,
                    )
                    &&& teams@[k].owner_user_id == Some(out@[k].owner_user_id)
                },
        decreases n - i,
    {
        let team = &teams[i];
        let is_member = is_member_of(user_teams, team.team_id);
        let one = match summary(team, member_counts, is_member) {
            Ok(s) => s,
            Err(e) => {
                return Err(e);
            },
        };
        out.push(one);
        i += 1;
    }
    proof {
        assert forall|k: int| 0 <= k < teams@.len() implies first_count(
            member_counts@,
            (#[trigger] teams@[k]).team_id,
            0,
        ) is Some && teams@[k].owner_user_id is Some by {
            assert((out@[k]).group_id == teams@[k].team_id);
        }
    }
    Ok(out)
}

} // verus!
