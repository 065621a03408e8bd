use workflow_core::auth::{
    Auth, Claims, EnvRecord, Entitlement, GameAuthData, GameRecord, TeamMembership, TeamRecord,
    UserRecord,
};
use workflow_core::ctx::{AccessKind, Config};
use workflow_core::error::EngineError;

const GAME: u128 = 10;
const ENV: u128 = 20;
const DEV_TEAM: u128 = 30;
const USER: u128 = 40;

fn config() -> Config {
    Config { access_kind: AccessKind::Public }
}

fn claims_with(ents: Vec<Entitlement>) -> Claims {
    Claims { jti: Some(1), exp: Some(9999), entitlements: ents }
}

fn member_data() -> GameAuthData {
    GameAuthData {
        env: Some(EnvRecord { env_id: ENV, game_id: GAME }),
        user: Some(UserRecord { user_id: USER, is_admin: false, delete_complete_ts: None }),
        game: Some(GameRecord { game_id: GAME, developer_team_id: Some(DEV_TEAM) }),
        user_teams: vec![TeamMembership { team_id: DEV_TEAM }],
        dev_team: Some(TeamRecord { team_id: DEV_TEAM, deactivate_reasons: Vec::new() }),
    }
}

#[test]
fn no_bearer_token_is_unauthorized() {
    let auth = Auth::new(config(), None);
    assert!(matches!(auth.claims(), Err(EngineError::Unauthorized)));
    assert_eq!(
        auth.check_game(GAME, ENV, false, &member_data()),
        Err(EngineError::Unauthorized)
    );
}

#[test]
fn server_returns_the_service_environment() {
    let auth = Auth::new(
        config(),
        Some(claims_with(vec![Entitlement::EnvService { env_id: ENV }])),
    );
    assert_eq!(auth.server(), Ok(ENV));
    let no_service = Auth::new(config(), Some(claims_with(vec![Entitlement::Refresh])));
    assert_eq!(no_service.server(), Err(EngineError::Unauthorized));
}

#[test]
fn unknown_environment_is_not_found() {
    let auth = Auth::new(
        config(),
        Some(claims_with(vec![Entitlement::GameCloud { game_id: GAME }])),
    );
    let mut data = member_data();
    data.env = None;
    assert_eq!(
        auth.check_game(GAME, ENV, false, &data),
        Err(EngineError::EnvironmentNotFound)
    );
    // an environment of another game is equally not found
    let mut data = member_data();
    data.env = Some(EnvRecord { env_id: ENV, game_id: GAME + 1 });
    assert_eq!(
        auth.check_game(GAME, ENV, false, &data),
        Err(EngineError::EnvironmentNotFound)
    );
}

#[test]
fn cloud_token_must_own_the_game() {
    let own = Auth::new(
        config(),
        Some(claims_with(vec![Entitlement::GameCloud { game_id: GAME }])),
    );
    assert_eq!(own.check_game(GAME, ENV, false, &member_data()), Ok(()));
    let other = Auth::new(
        config(),
        Some(claims_with(vec![Entitlement::GameCloud { game_id: GAME + 1 }])),
    );
    assert!(matches!(
        other.check_game(GAME, ENV, false, &member_data()),
        Err(EngineError::Forbidden { .. })
    ));
}

#[test]
fn service_token_needs_permission_and_the_right_environment() {
    let auth = Auth::new(
        config(),
        Some(claims_with(vec![Entitlement::EnvService { env_id: ENV }])),
    );
    assert!(matches!(
        auth.check_game(GAME, ENV, false, &member_data()),
        Err(EngineError::Forbidden { .. })
    ));
    assert_eq!(auth.check_game(GAME, ENV, true, &member_data()), Ok(()));
    let wrong_env = Auth::new(
        config(),
        Some(claims_with(vec![Entitlement::EnvService { env_id: ENV + 1 }])),
    );
    assert!(matches!(
        wrong_env.check_game(GAME, ENV, true, &member_data()),
        Err(EngineError::Forbidden { .. })
    ));
}

#[test]
fn team_member_may_write() {
    let auth = Auth::new(
        config(),
        Some(claims_with(vec![Entitlement::User { user_id: USER }])),
    );
    assert_eq!(auth.check_game(GAME, ENV, false, &member_data()), Ok(()));
}

#[test]
fn admin_bypasses_membership() {
    let auth = Auth::new(
        config(),
        Some(claims_with(vec![Entitlement::User { user_id: USER }])),
    );
    let mut data = member_data();
    data.user = Some(UserRecord { user_id: USER, is_admin: true, delete_complete_ts: None });
    data.user_teams = Vec::new();
    assert_eq!(auth.check_game(GAME, ENV, false, &data), Ok(()));
}

#[test]
fn deleted_user_is_revoked() {
    let auth = Auth::new(
        config(),
        Some(claims_with(vec![Entitlement::User { user_id: USER }])),
    );
    let mut data = member_data();
    data.user = Some(UserRecord { user_id: USER, is_admin: false, delete_complete_ts: Some(1) });
    assert_eq!(auth.check_game(GAME, ENV, false, &data), Err(EngineError::TokenRevoked));
    // a vanished user record is treated the same way
    let mut data = member_data();
    data.user = None;
    assert_eq!(auth.check_game(GAME, ENV, false, &data), Err(EngineError::TokenRevoked));
}

#[test]
fn missing_game_is_project_not_found() {
    let auth = Auth::new(
        config(),
        Some(claims_with(vec![Entitlement::User { user_id: USER }])),
    );
    let mut data = member_data();
    data.game = None;
    assert_eq!(auth.check_game(GAME, ENV, false, &data), Err(EngineError::ProjectNotFound));
}

#[test]
fn non_member_is_rejected() {
    let auth = Auth::new(
        config(),
        Some(claims_with(vec![Entitlement::User { user_id: USER }])),
    );
    let mut data = member_data();
    data.user_teams = vec![TeamMembership { team_id: DEV_TEAM + 1 }];
    assert_eq!(auth.check_game(GAME, ENV, false, &data), Err(EngineError::GroupNotMember));
}

#[test]
fn deactivated_team_reports_joined_reasons() {
    let auth = Auth::new(
        config(),
        Some(claims_with(vec![Entitlement::User { user_id: USER }])),
    );
    let mut data = member_data();
    data.dev_team = Some(TeamRecord {
        team_id: DEV_TEAM,
        deactivate_reasons: vec!["NoPaymentMethod".to_string(), "Banned".to_string()],
    });
    match auth.check_game(GAME, ENV, false, &data) {
        Err(EngineError::GroupDeactivated { reasons }) => {
            assert_eq!(reasons, "NoPaymentMethod, Banned");
        }
        other => panic!("expected a deactivated-group error, got {:?}", other),
    }
}

#[test]
fn token_without_usable_entitlement_is_unauthorized() {
    let auth = Auth::new(config(), Some(claims_with(vec![Entitlement::Refresh])));
    assert_eq!(
        auth.check_game(GAME, ENV, false, &member_data()),
        Err(EngineError::Unauthorized)
    );
}

#[test]
fn entitlement_precedence_prefers_cloud_over_user() {
    // a token carrying both cloud and user entitlements is judged as cloud
    let auth = Auth::new(
        config(),
        Some(claims_with(vec![
            Entitlement::User { user_id: USER },
            Entitlement::GameCloud { game_id: GAME + 1 },
        ])),
    );
    assert!(matches!(
        auth.check_game(GAME, ENV, false, &member_data()),
        Err(EngineError::Forbidden { .. })
    ));
}
