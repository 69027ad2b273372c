use daemar::factory::roster::ToolAccess;
use daemar::factory::wall::{Teardown, WallError};
use daemar::walls::{
    check_retired_dial, kvm_preflight, sandbox_name, seat_read_only, send_failure,
    teardown_after_removal, SendFailure,
};

#[test]
fn a_leftover_wall_dial_refuses_instead_of_being_ignored() {
    for stale in ["docker", "microsandbox", "firecracker"] {
        let refused = check_retired_dial(Some(stale)).err().expect("a set DAEMAR_WALL must refuse");
        assert!(refused.contains("retired"), "{refused}");
        assert!(refused.contains(stale), "{refused}");
    }
    assert_eq!(
        check_retired_dial(Some("docker")),
        Err("DAEMAR_WALL='docker' is retired — microsandbox is the only wall; unset it".to_string())
    );
    assert!(check_retired_dial(None).is_ok(), "unset is the only accepted state");
    assert!(check_retired_dial(Some("")).is_ok());
}

#[test]
fn an_absent_kvm_and_a_forbidden_kvm_are_distinct_refusals() {
    assert!(kvm_preflight(true, true).is_ok());
    match kvm_preflight(false, false) {
        Err(WallError::Unavailable { detail }) => assert!(detail.starts_with("/dev/kvm is absent")),
        other => panic!("expected Unavailable, got {other:?}"),
    }
    match kvm_preflight(true, false) {
        Err(WallError::Unavailable { detail }) => {
            assert!(detail.contains("add the user to the kvm group"))
        }
        other => panic!("expected Unavailable, got {other:?}"),
    }
}

#[test]
fn seats_get_the_world_their_access_allows() {
    assert_eq!(seat_read_only(ToolAccess::ReadOnly), Ok(true));
    assert_eq!(seat_read_only(ToolAccess::ReadWrite), Ok(false));
    assert_eq!(
        seat_read_only(ToolAccess::Toolless),
        Err(WallError::Lifecycle { detail: "a toolless seat has no business behind a wall".to_string() })
    );
    assert_eq!(sandbox_name("slip-plan", 314), "daemar-slip-plan-314");
}

#[test]
fn teardown_proves_the_sandbox_gone_or_says_why_not() {
    assert_eq!(teardown_after_removal(&Ok(()), &Err("x".to_string())), Ok(Teardown::Removed));
    assert_eq!(
        teardown_after_removal(&Err("sandbox daemar-x not found".to_string()), &Ok(())),
        Ok(Teardown::AlreadyGone)
    );
    assert_eq!(
        teardown_after_removal(&Err("it does not exist".to_string()), &Ok(())),
        Ok(Teardown::AlreadyGone)
    );
    assert_eq!(
        teardown_after_removal(&Err("busy".to_string()), &Ok(())),
        Err(WallError::Lifecycle { detail: "sandbox remove failed: busy".to_string() })
    );
    assert_eq!(
        teardown_after_removal(&Err("busy".to_string()), &Err("hung".to_string())),
        Err(WallError::Lifecycle {
            detail: "sandbox stop failed (hung) and remove failed: busy".to_string()
        })
    );
}

#[test]
fn failed_sends_say_what_failed() {
    assert_eq!(send_failure(SendFailure::TornDown), "sandbox already torn down");
    assert_eq!(send_failure(SendFailure::Exec("boom".to_string())), "sandbox exec failed: boom");
    assert_eq!(
        send_failure(SendFailure::Stdout("bad utf8".to_string())),
        "sandbox stdout was unreadable: bad utf8"
    );
}
