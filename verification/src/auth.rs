//! Claims-based authorization: the entitlement model carried by decoded
//! tokens, and the policy deciding who may write to a game environment.
//! Decoding tokens is the authentication collaborator's business; the core
//! receives the decoded claims and decides.
use vstd::prelude::*;

use crate::ctx::Config;
use crate::error::EngineError;
use crate::text::{join_chars, join_strings};

verus! {

/// One entitlement of a decoded token.
#[derive(Clone, Copy, Debug, PartialEq, Eq, Structural)]
pub enum Entitlement {
    User { user_id: u128 },
    GameCloud { game_id: u128 },
    EnvService { env_id: u128 },
    Refresh,
}

/// Decoded token claims: entitlements plus the token's own identity and
/// expiry.
pub struct Claims {
    pub jti: Option<u128>,
    pub exp: Option<i64>,
    pub entitlements: Vec<Entitlement>,
}

/// The user id of the first user entitlement at or after `i`, if any.
pub open spec fn first_user(ents: Seq<Entitlement>, i: int) -> Option<u128>
    decreases ents.len() - i,
{
    if i < 0 || i >= ents.len() {
        None
    } else {
        match ents[i] {
            Entitlement::User { user_id } => Some(user_id),
            _ => first_user(ents, i + 1),
        }
    }
}

/// The game id of the first game-cloud entitlement at or after `i`, if any.
pub open spec fn first_game_cloud(ents: Seq<Entitlement>, i: int) -> Option<u128>
    decreases ents.len() - i,
{
    if i < 0 || i >= ents.len() {
        None
    } else {
        match ents[i] {
            Entitlement::GameCloud { game_id } => Some(game_id),
            _ => first_game_cloud(ents, i + 1),
        }
    }
}

/// The env id of the first env-service entitlement at or after `i`, if any.
pub open spec fn first_env_service(ents: Seq<Entitlement>, i: int) -> Option<u128>
    decreases ents.len() - i,
{
    if i < 0 || i >= ents.len() {
        None
    } else {
        match ents[i] {
            Entitlement::EnvService { env_id } => Some(env_id),
            _ => first_env_service(ents, i + 1),
        }
    }
}

/// Whether a refresh entitlement is present.
pub open spec fn has_refresh(ents: Seq<Entitlement>) -> bool {
    exists|i: int| 0 <= i < ents.len() && (#[trigger] ents[i]) is Refresh
}

impl Claims {
    /// The user this token acts as: the first user entitlement, or an
    /// unauthorized error when the token carries none.
    pub fn as_user(&self) -> (r: Result<u128, EngineError>)
        ensures
            r == (match first_user(self.entitlements@, 0) {
                Some(uid) => Ok::<u128, EngineError>(uid),
                None => Err::<u128, EngineError>(EngineError::Unauthorized),
            }),
    {
        let n = self.entitlements.len();
        let mut i: usize = 0;
        while i < n
            invariant
                n == self.entitlements@.len(),
                0 <= i <= n,
                first_user(self.entitlements@, 0) == first_user(self.entitlements@, i as int),
            decreases n - i,
        {
            if let Entitlement::User { user_id } = self.entitlements[i] {
                return Ok(user_id);
            }
            i += 1;
        }
        Err(EngineError::Unauthorized)
    }

    /// The game this cloud token belongs to, if it is one.
    pub fn as_game_cloud(&self) -> (r: Result<u128, EngineError>)
        ensures
            r == (match first_game_cloud(self.entitlements@, 0) {
                Some(gid) => Ok::<u128, EngineError>(gid),
                None => Err::<u128, EngineError>(EngineError::Unauthorized),
            }),
    {
        let n = self.entitlements.len();
        let mut i: usize = 0;
        while i < n
            invariant
                n == self.entitlements@.len(),
                0 <= i <= n,
                first_game_cloud(self.entitlements@, 0) == first_game_cloud(
                    self.entitlements@,
                    i as int,
                ),
            decreases n - i,
        {
            if let Entitlement::GameCloud { game_id } = self.entitlements[i] {
                return Ok(game_id);
            }
            i += 1;
        }
        Err(EngineError::Unauthorized)
    }

    /// The environment this service token serves, if it is one.
    pub fn as_env_service(&self) -> (r: Result<u128, EngineError>)
        ensures
            r == (match first_env_service(self.entitlements@, 0) {
                Some(eid) => Ok::<u128, EngineError>(eid),
                None => Err::<u128, EngineError>(EngineError::Unauthorized),
            }),
    {
        let n = self.entitlements.len();
        let mut i: usize = 0;
        while i < n
            invariant
                n == self.entitlements@.len(),
                0 <= i <= n,
                first_env_service(self.entitlements@, 0) == first_env_service(
                    self.entitlements@,
                    i as int,
                ),
            decreases n - i,
        {
            if let Entitlement::EnvService { env_id } = self.entitlements[i] {
                return Ok(env_id);
            }
            i += 1;
        }
        Err(EngineError::Unauthorized)
    }

    /// Whether this token may refresh a session.
    pub fn as_refresh(&self) -> (r: Result<(), EngineError>)
        ensures
            r is Ok <==> has_refresh(self.entitlements@),
            r matches Err(e) ==> e == EngineError::Unauthorized,
    {
        let n = self.entitlements.len();
        let mut i: usize = 0;
        while i < n
            invariant
                n == self.entitlements@.len(),
                0 <= i <= n,
                forall|j: int| 0 <= j < i ==> !((#[trigger] self.entitlements@[j]) is Refresh),
            decreases n - i,
        {
            if let Entitlement::Refresh = self.entitlements[i] {
                return Ok(());
            }
            i += 1;
        }
        Err(EngineError::Unauthorized)
    }
}

/// The environment record the policy reads: which game it belongs to.
#[derive(Clone, Copy, Debug, PartialEq, Eq, Structural)]
pub struct EnvRecord {
    pub env_id: u128,
    pub game_id: u128,
}

/// The user record the policy reads.
#[derive(Clone, Copy, Debug, PartialEq, Eq, Structural)]
pub struct UserRecord {
    pub user_id: u128,
    pub is_admin: bool,
    pub delete_complete_ts: Option<i64>,
}

/// One team the acting user belongs to.
#[derive(Clone, Copy, Debug, PartialEq, Eq, Structural)]
pub struct TeamMembership {
    pub team_id: u128,
}

/// The game record the policy reads: who develops it.
#[derive(Clone, Copy, Debug, PartialEq, Eq, Structural)]
pub struct GameRecord {
    pub game_id: u128,
    pub developer_team_id: Option<u128>,
}

/// The developer team record the policy reads.
pub struct TeamRecord {
    pub team_id: u128,
    pub deactivate_reasons: Vec<String>,
}

/// What the surrounding fetches supply to the policy: each lookup's result.
pub struct GameAuthData {
    pub env: Option<EnvRecord>,
    pub user: Option<UserRecord>,
    pub game: Option<GameRecord>,
    pub user_teams: Vec<TeamMembership>,
    pub dev_team: Option<TeamRecord>,
}

/// Whether the user belongs to the team with the given id.
pub open spec fn team_member(teams: Seq<TeamMembership>, id: u128) -> bool {
    exists|i: int| 0 <= i < teams.len() && (#[trigger] teams[i]).team_id == id
}

/// Every way the game write policy can come out.
#[derive(Clone, Copy, Debug, PartialEq, Eq, Structural)]
pub enum CheckGameOutcome {
    /// The caller may write.
    Allow,
    /// No claims were presented.
    MissingClaims,
    /// The environment is unknown or belongs to another game.
    EnvNotFound,
    /// A cloud token for a different game.
    CloudWrongGame,
    /// A service token where service tokens are not accepted.
    ServiceNotAllowed,
    /// A service token for a different environment.
    ServiceWrongEnv,
    /// The acting user is gone or deleted.
    UserRevoked,
    /// The game is unknown.
    ProjectNotFound,
    /// The user is not on the developer team.
    NotMember,
    /// The developer team is deactivated.
    TeamDeactivated,
    /// The token carries no usable entitlement.
    MissingEntitlement,
    /// A fetched record was missing a field the policy needs.
    Internal,
}

/// The game write policy, in entitlement precedence order: a cloud token
/// must own the game; a service token must be allowed here and serve this
/// environment; a user token must belong to a live, undeleted member of the
/// game's active developer team (admins always pass).
pub open spec fn spec_check_game(
    claims: Option<Claims>,
    game_id: u128,
    env_id: u128,
    allow_service: bool,
    data: GameAuthData,
) -> CheckGameOutcome {
    match claims {
        None => CheckGameOutcome::MissingClaims,
        Some(c) => match data.env {
            None => CheckGameOutcome::EnvNotFound,
            Some(env) => if env.game_id != game_id {
                CheckGameOutcome::EnvNotFound
            } else {
                match first_game_cloud(c.entitlements@, 0) {
                    Some(cloud_game) => if cloud_game == game_id {
                        CheckGameOutcome::Allow
                    } else {
                        CheckGameOutcome::CloudWrongGame
                    },
                    None => match first_env_service(c.entitlements@, 0) {
                        Some(service_env) => if !allow_service {
                            CheckGameOutcome::ServiceNotAllowed
                        } else if service_env != env_id {
                            CheckGameOutcome::ServiceWrongEnv
                        } else {
                            CheckGameOutcome::Allow
                        },
                        None => match first_user(c.entitlements@, 0) {
                            Some(_uid) => spec_check_game_user(data),
                            None => CheckGameOutcome::MissingEntitlement,
                        },
                    },
                }
            },
        },
    }
}

/// The user-token leg of the policy.
pub open spec fn spec_check_game_user(data: GameAuthData) -> CheckGameOutcome {
    match data.user {
        None => CheckGameOutcome::UserRevoked,
        Some(user) => match data.game {
            None => CheckGameOutcome::ProjectNotFound,
            Some(game) => match game.developer_team_id {
                None => CheckGameOutcome::Internal,
                Some(dev_team_id) => if user.is_admin {
                    CheckGameOutcome::Allow
                } else if user.delete_complete_ts is Some {
                    CheckGameOutcome::UserRevoked
                } else if !team_member(data.user_teams@, dev_team_id) {
                    CheckGameOutcome::NotMember
                } else {
                    match data.dev_team {
                        None => CheckGameOutcome::Internal,
                        Some(team) => if team.deactivate_reasons@.len() > 0 {
                            CheckGameOutcome::TeamDeactivated
                        } else {
                            CheckGameOutcome::Allow
                        },
                    }
                },
            },
        },
    }
}

fn is_team_member(teams: &Vec<TeamMembership>, id: u128) -> (r: bool)
    ensures
        r == team_member(teams@, id),
{
    let n = teams.len();
    let mut i: usize = 0;
    while i < n
        invariant
            n == teams@.len(),
            0 <= i <= n,
            forall|j: int| 0 <= j < i ==> (#[trigger] teams@[j]).team_id != id,
        decreases n - i,
    {
        if teams[i].team_id == id {
            return true;
        }
        i += 1;
    }
    false
}

/// The authorization state of one request: configuration plus the decoded
/// claims, when a token was presented.
pub struct Auth {
    config: Config,
    claims: Option<Claims>,
}

impl Auth {
    pub closed spec fn spec_config(&self) -> Config {
        self.config
    }

    pub closed spec fn spec_claims(&self) -> Option<Claims> {
        self.claims
    }

    /// Bind decoded claims (or their absence) to this request. Decoding and
    /// rate limiting happen at the edge, before this.
    pub fn new(config: Config, claims: Option<Claims>) -> (r: Auth)
        ensures
            r.spec_config() == config,
            r.spec_claims() == claims,
    {
        Auth { config, claims }
    }

    /// The presented claims; an unauthorized error when no bearer token was
    /// provided.
    pub fn claims(&self) -> (r: Result<&Claims, EngineError>)
        ensures
            match r {
                Ok(c) => self.spec_claims() == Some(*c),
                Err(e) => self.spec_claims() is None && e == EngineError::Unauthorized,
            },
    {
        match &self.claims {
            Some(c) => Ok(c),
            None => Err(EngineError::Unauthorized),
        }
    }

    /// The environment served by this service token.
    pub fn server(&self) -> (r: Result<u128, EngineError>)
        ensures
            match self.spec_claims() {
                None => r == Err::<u128, EngineError>(EngineError::Unauthorized),
                Some(c) => r == (match first_env_service(c.entitlements@, 0) {
                    Some(eid) => Ok::<u128, EngineError>(eid),
                    None => Err::<u128, EngineError>(EngineError::Unauthorized),
                }),
            },
    {
        let claims = match self.claims() {
            Ok(c) => c,
            Err(e) => {
                return Err(e);
            },
        };
        claims.as_env_service()
    }

    /// Decide whether this request may write to the given game environment,
    /// against the fetched records. The outcome follows `spec_check_game`;
    /// deactivation reasons are joined into the error text.
    pub fn check_game(
        &self,
        game_id: u128,
        env_id: u128,
        allow_service: bool,
        data: &GameAuthData,
    ) -> (r: Result<(), EngineError>)
        ensures
            ({
                let outcome = spec_check_game(
                    self.spec_claims(),
                    game_id,
                    env_id,
                    allow_service,
                    *data,
                );
                &&& (r is Ok <==> outcome == CheckGameOutcome::Allow)
                &&& (outcome == CheckGameOutcome::MissingClaims ==> r == Err::<(), EngineError>(
                    EngineError::Unauthorized,
                ))
                &&& (outcome == CheckGameOutcome::EnvNotFound ==> r == Err::<(), EngineError>(
                    EngineError::EnvironmentNotFound,
                ))
                &&& (outcome == CheckGameOutcome::CloudWrongGame ==> (r matches Err(e)
                    && e is Forbidden))
                &&& (outcome == CheckGameOutcome::ServiceNotAllowed ==> (r matches Err(e)
                    && e is Forbidden))
                &&& (outcome == CheckGameOutcome::ServiceWrongEnv ==> (r matches Err(e)
                    && e is Forbidden))
                &&& (outcome == CheckGameOutcome::UserRevoked ==> r == Err::<(), EngineError>(
                    EngineError::TokenRevoked,
                ))
                &&& (outcome == CheckGameOutcome::ProjectNotFound ==> r == Err::<(), EngineError>(
                    EngineError::ProjectNotFound,
                ))
                &&& (outcome == CheckGameOutcome::NotMember ==> r == Err::<(), EngineError>(
                    EngineError::GroupNotMember,
                ))
                &&& (outcome == CheckGameOutcome::TeamDeactivated ==> (r matches Err(e) && (
                e matches EngineError::GroupDeactivated { reasons } && (data.dev_team matches Some(
                    team,
                ) && reasons@ == join_chars(
                    team.deactivate_reasons@.map_values(|s: String| s@),
                    ", "@,
                )))))
                &&& (outcome == CheckGameOutcome::MissingEntitlement ==> r == Err::<
                    (),
                    EngineError,
                >(EngineError::Unauthorized))
                &&& (outcome == CheckGameOutcome::Internal ==> r == Err::<(), EngineError>(
                    EngineError::Infrastructure,
                ))
            }),
    {
        let claims = match self.claims() {
            Ok(c) => c,
            Err(_) => {
                return Err(EngineError::Unauthorized);
            },
        };
        let env = match &data.env {
            Some(e) => e,
            None => {
                return Err(EngineError::EnvironmentNotFound);
            },
        };
        if env.game_id != game_id {
            return Err(EngineError::EnvironmentNotFound);
        }
        if let Ok(cloud_game) = claims.as_game_cloud() {
            if cloud_game == game_id {
                return Ok(());
            }
            return Err(
                EngineError::Forbidden {
                    reason: "cloud token cannot write to this game".to_owned(),
                },
            );
        }
        if let Ok(service_env) = claims.as_env_service() {
            if !allow_service {
                return Err(
                    EngineError::Forbidden {
                        reason: "cannot use a service token for this endpoint".to_owned(),
                    },
                );
            }
            if service_env != env_id {
                return Err(
                    EngineError::Forbidden {
                        reason: "service token cannot write to this game".to_owned(),
                    },
                );
            }
            return Ok(());
        }
        if claims.as_user().is_err() {
            return Err(EngineError::Unauthorized);
        }
        let user = match &data.user {
            Some(u) => u,
            None => {
                return Err(EngineError::TokenRevoked);
            },
        };
        let game = match &data.game {
            Some(g) => g,
            None => {
                return Err(EngineError::ProjectNotFound);
            },
        };
        let dev_team_id = match game.developer_team_id {
            Some(id) => id,
            None => {
                return Err(EngineError::Infrastructure);
            },
        };
        if user.is_admin {
            return Ok(());
        }
        if user.delete_complete_ts.is_some() {
            return Err(EngineError::TokenRevoked);
        }
        if !is_team_member(&data.user_teams, dev_team_id) {
            return Err(EngineError::GroupNotMember);
        }
        let dev_team = match &data.dev_team {
            Some(t) => t,
            None => {
                return Err(EngineError::Infrastructure);
            },
        };
        if dev_team.deactivate_reasons.len() > 0 {
            return Err(
                EngineError::GroupDeactivated {
                    reasons: join_strings(&dev_team.deactivate_reasons, ", "),
                },
            );
        }
        Ok(())
    }
}

} // verus!
