//! Group summaries keyed by the requested group ids: each requested id must
//! resolve to a fetched team, and each team to its member count and owner.
use vstd::prelude::*;

use crate::auth::{team_member, TeamMembership};
use crate::error::EngineError;
use crate::group::convert::{
    first_count, is_member_of, summary, GroupSummary, TeamMemberCount, TeamProfile,
};

verus! {

/// The first fetched team carrying `id`, looking from `i` on.
pub open spec fn first_team(teams: Seq<TeamProfile>, id: u128, i: int) -> Option<TeamProfile>
    decreases teams.len() - i,
{
    if i < 0 || i >= teams.len() {
        None
    } else if teams[i].team_id == id {
        Some(teams[i])
    } else {
        first_team(teams, id, i + 1)
    }
}

/// The requested id resolves to a team whose count and owner are known.
pub open spec fn request_resolvable(
    group_ids: Seq<u128>,
    teams: Seq<TeamProfile>,
    member_counts: Seq<TeamMemberCount>,
    k: int,
) -> bool {
    match first_team(teams, group_ids[k], 0) {
        Some(t) => first_count(member_counts, group_ids[k], 0) is Some && t.owner_user_id is Some,
        None => false,
    }
}

/// Row `k` of the result summarises the team of the `k`-th requested id.
pub open spec fn summarises_request(
    out: Seq<GroupSummary>,
    group_ids: Seq<u128>,
    user_teams: Seq<TeamMembership>,
    teams: Seq<TeamProfile>,
    member_counts: Seq<TeamMemberCount>,
    k: int,
) -> bool {
    match first_team(teams, group_ids[k], 0) {
        Some(t) => {
            &&& out[k].group_id == group_ids[k]
            &&& out[k].display_name@ == t.display_name@
            &&& out[k].bio@ == t.bio@
            &&& out[k].is_current_identity_member == team_member(user_teams, group_ids[k])
            &&& Some(out[k].member_count) == first_count(member_counts, group_ids[k], 0)
            &&& t.owner_user_id == Some(out[k].owner_user_id)
        },
        None => false,
    }
}

proof fn lemma_first_team_matches(teams: Seq<TeamProfile>, id: u128, i: int)
    requires
        first_team(teams, id, i) is Some,
    ensures
        (match first_team(teams, id, i) {
            Some(t) => t.team_id == id,
            None => false,
        }),
    decreases teams.len() - i,
{
    if i < 0 || i >= teams.len() {
    } else if teams[i].team_id == id {
    } else {
        lemma_first_team_matches(teams, id, i + 1);
    }
}

fn find_team<'a>(teams: &'a Vec<TeamProfile>, id: u128) -> (r: Option<&'a TeamProfile>)
    ensures
        match r {
            Some(t) => first_team(teams@, id, 0) == Some(*t),
            None => first_team(teams@, id, 0) is None,
        },
{
    let n = teams.len();
    let mut i: usize = 0;
    while i < n
        invariant
            n == teams@.len(),
            0 <= i <= n,
            first_team(teams@, id, 0) == first_team(teams@, id, i as int),
        decreases n - i,
    {
        if teams[i].team_id == id {
            return Some(&teams[i]);
        }
        i += 1;
    }
    None
}

/// One summary per requested group id, in request order: the id's team must
/// be among the fetched teams, with its member count and owner; membership
/// is judged against the requesting user's team list.
pub fn group_summaries(
    group_ids: &Vec<u128>,
    user_teams: &Vec<TeamMembership>,
    teams: &Vec<TeamProfile>,
    member_counts: &Vec<TeamMemberCount>,
) -> (r: Result<Vec<GroupSummary>, EngineError>)
    ensures
        (r is Ok) <==> (forall|k: int|
            0 <= k < group_ids@.len() ==> request_resolvable(
                group_ids@,
                teams@,
                member_counts@,
                k,
            )),
        r matches Ok(v) ==> v@.len() == group_ids@.len() && (forall|k: int|
            0 <= k < group_ids@.len() ==> summarises_request(
                v@,
                group_ids@,
                user_teams@,
                teams@,
                member_counts@,
                k,
            )),
        r matches Err(e) ==> e == EngineError::Infrastructure,
{
    let n = group_ids.len();
    let mut out: Vec<GroupSummary> = Vec::new();
    let mut i: usize = 0;
    while i < n
        invariant
            n == group_ids@.len(),
            0 <= i <= n,
            out@.len() == i,
            forall|k: int|
                0 <= k < i ==> summarises_request(
                    out@,
                    group_ids@,
                    user_teams@,
                    teams@,
                    member_counts@,
                    k,
                ),
        decreases n - i,
    {
        let group_id = group_ids[i];
        let team = match find_team(teams, group_id) {
            Some(t) => t,
            None => {
                proof {
                    assert(!request_resolvable(group_ids@, teams@, member_counts@, i as int));
                }
                return Err(EngineError::Infrastructure);
            },
        };
        proof {
            lemma_first_team_matches(teams@, group_id, 0);
        }
        let is_member = is_member_of(user_teams, group_id);
        let one = match summary(team, member_counts, is_member) {
            Ok(s) => s,
            Err(e) => {
                proof {
                    assert(!request_resolvable(group_ids@, teams@, member_counts@, i as int));
                }
                return Err(e);
            },
        };
        let ghost prev = out@;
        out.push(one);
        proof {
            assert forall|k: int| 0 <= k < i + 1 implies summarises_request(
                out@,
                group_ids@,
                user_teams@,
                teams@,
                member_counts@,
                k,
            ) by {
                if k < i {
                    assert(summarises_request(
                        prev,
                        group_ids@,
                        user_teams@,
                        teams@,
                        member_counts@,
                        k,
                    ));
                    assert(out@[k] == prev[k]);
                } else {
                    assert(out@[k] == one);
                    assert(first_team(teams@, group_ids@[k], 0) == Some(*team));
                }
            }
        }
        i += 1;
    }
    proof {
        assert forall|k: int|
            0 <= k < group_ids@.len() implies request_resolvable(
            group_ids@,
            teams@,
            member_counts@,
            k,
        ) by {
            assert(summarises_request(
                out@,
                group_ids@,
                user_teams@,
                teams@,
                member_counts@,
                k,
            ));
        }
    }
    Ok(out)
}

} // verus!
