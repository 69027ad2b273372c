use daemar::factory::config::{Config, ConfigError, DirectEnv, FromEnv, ReasoningEffort};
use daemar::factory::roster::Role;

fn pairs(vars: &[(&str, &str)]) -> Vec<(String, String)> {
    vars.iter().map(|(k, v)| (k.to_string(), v.to_string())).collect()
}

fn direct() -> DirectEnv {
    DirectEnv { user: None, daemar_home: None, ledgers: None, airframes: None, worktrees: None, cage: None }
}

fn full_env() -> Vec<(String, String)> {
    pairs(&[
        ("DAEMAR_MODEL", "m-default"),
        ("DAEMAR_EFFORT", "high"),
        ("DAEMAR_SCOUT_MODEL", "m-scout"),
        ("DAEMAR_SCOUT_EFFORT", "low"),
        ("DAEMAR_PLAN_MODEL", "m-plan"),
        ("DAEMAR_PLAN_EFFORT", "medium"),
        ("DAEMAR_RESPOND_MODEL", "m-respond"),
        ("DAEMAR_RESPOND_EFFORT", "high"),
        ("DAEMAR_BUILD_MODEL", "m-build"),
        ("DAEMAR_BUILD_EFFORT", "low"),
        ("DAEMAR_BASE_URL", "https://example.test/v1"),
        ("OPENAI_API_KEY", "key"),
    ])
}

#[test]
fn an_environment_holding_everything_needs_no_secrets() {
    match Config::from_env(&full_env(), &direct(), None) {
        FromEnv::Ready(Ok(c)) => {
            assert_eq!(c.model_for(Role::Scout), "m-scout");
            assert_eq!(c.effort_for(Role::Scout), ReasoningEffort::Low);
            assert_eq!(c.model_for(Role::Builder), "m-build");
        }
        other => panic!("expected a ready configuration, got {other:?}"),
    }
}

#[test]
fn a_miss_asks_for_the_secrets_and_they_fill_it() {
    let mut env = full_env();
    env.retain(|(k, _)| k != "DAEMAR_BUILD_MODEL");
    assert!(matches!(Config::from_env(&env, &direct(), None), FromEnv::NeedSecrets));
    let secrets = pairs(&[("DAEMAR_BUILD_MODEL", "m-secret")]);
    match Config::from_env(&env, &direct(), Some(&secrets)) {
        FromEnv::Ready(Ok(c)) => assert_eq!(c.model_for(Role::Builder), "m-secret"),
        other => panic!("expected a ready configuration, got {other:?}"),
    }
    let none = pairs(&[]);
    match Config::from_env(&env, &direct(), Some(&none)) {
        FromEnv::Ready(Ok(c)) => assert_eq!(c.model_for(Role::Builder), "m-default"),
        other => panic!("expected the default model, got {other:?}"),
    }
}

#[test]
fn a_refusal_read_before_any_miss_needs_no_secrets() {
    let env = pairs(&[("DAEMAR_MODEL", "m"), ("DAEMAR_EFFORT", "extreme")]);
    match Config::from_env(&env, &direct(), None) {
        FromEnv::Ready(Err(ConfigError::BadEffort { name, value })) => {
            assert_eq!(name, "DAEMAR_EFFORT");
            assert_eq!(value, "extreme");
        }
        other => panic!("expected a refusal, got {other:?}"),
    }
}

#[test]
fn each_role_falls_back_to_the_global_bindings() {
    let env = pairs(&[
        ("DAEMAR_MODEL", "m-default"),
        ("DAEMAR_EFFORT", "high"),
        ("DAEMAR_BASE_URL", "https://example.test/v1"),
        ("OPENAI_API_KEY", "key"),
    ]);
    let none = pairs(&[]);
    match Config::from_env(&env, &direct(), Some(&none)) {
        FromEnv::Ready(Ok(c)) => {
            for role in Role::all() {
                assert_eq!(c.model_for(role), "m-default");
                assert_eq!(c.effort_for(role), ReasoningEffort::High);
            }
        }
        other => panic!("expected a ready configuration, got {other:?}"),
    }
    let bare = pairs(&[("DAEMAR_MODEL", "m"), ("DAEMAR_EFFORT", ""), ("OPENAI_API_KEY", "k")]);
    match Config::from_env(&bare, &direct(), Some(&none)) {
        FromEnv::Ready(Ok(c)) => assert_eq!(c.effort_for(Role::Planner), ReasoningEffort::Medium),
        other => panic!("expected a ready configuration, got {other:?}"),
    }
}
