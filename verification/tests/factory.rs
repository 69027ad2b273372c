use std::sync::{Arc, Mutex};

use daemar::factory::engine::{turn_cap, turn_cap_exhausted_note, TurnLoop};
use daemar::factory::executor::{expected_hash, record_outcome};
use daemar::factory::roster::{Role, ToolAccess};
use daemar::factory::sandbox::{
    container_name, exec_reply, image_verdict, runtime_verdict, teardown_outcome, CmdOut,
    CommandRunner, DockerOpener,
};
use daemar::factory::tools::{
    content_hash, dispatch, edit_args_refusal, edit_target_refusal, edit_text, list_output, render_read, search_hit, search_output,
    specs, truncate_at_boundary, Dispatch, ReadRecord,
    ToolContext, ToolOutcome,
};
use daemar::factory::wall::{StagePolicy, Teardown, WallError};
use daemar::factory::workflows::{
    decode_diff_receipt, decode_park_receipt, diff_receipt, is_full_sha, park_receipt,
    ReceiptFields,
};

const SHA: &str = "0123456789abcdef0123456789abcdef01234567";

/// Scripted docker: each call pops the next result; calls are recorded.
struct FakeRunner {
    script: Mutex<Vec<Result<CmdOut, String>>>,
    calls: Mutex<Vec<Vec<String>>>,
}

impl FakeRunner {
    fn new(script: Vec<Result<CmdOut, String>>) -> Arc<Self> {
        Arc::new(FakeRunner { script: Mutex::new(script), calls: Mutex::new(Vec::new()) })
    }

    fn ok(stdout: &str) -> Result<CmdOut, String> {
        Ok(CmdOut { success: true, stdout: stdout.to_string(), stderr: String::new() })
    }

    fn fail(stderr: &str) -> Result<CmdOut, String> {
        Ok(CmdOut { success: false, stdout: String::new(), stderr: stderr.to_string() })
    }

    fn args(&self, nth: usize) -> String {
        self.calls.lock().unwrap()[nth].join(" ")
    }
}

impl CommandRunner for FakeRunner {
    fn run(&self, _program: &str, args: &Vec<String>, _stdin: Option<&str>) -> Result<CmdOut, String> {
        self.calls.lock().unwrap().push(args.clone());
        self.script.lock().unwrap().remove(0)
    }
}

fn opener(runner: Arc<FakeRunner>) -> DockerOpener<FakeRunner> {
    DockerOpener::new(runner)
}

fn read_only_owner() -> Result<(u32, u32), String> {
    Err("not consulted for a read-only seat".to_string())
}

#[test]
fn turn_caps_are_role_specific() {
    assert_eq!(turn_cap(Role::Scout), 12);
    assert_eq!(turn_cap(Role::Planner), 12);
    assert_eq!(turn_cap(Role::Responder), 12);
    assert_eq!(turn_cap(Role::Builder), 48);
}

#[test]
fn exhaustion_note_records_completed_turns_and_cap() {
    assert_eq!(
        turn_cap_exhausted_note(48, 48),
        "turn cap reached: completed_turns=48 cap=48 without a report"
    );
}

#[test]
fn the_turn_loop_stops_at_the_cap() {
    let mut turns = TurnLoop::new(Role::Scout);
    for expected in 1..=12 {
        assert_eq!(turns.begin_turn(), Some(expected));
    }
    assert_eq!(turns.begin_turn(), None);
    assert_eq!(turns.begin_turn(), None);
    assert_eq!(
        turns.exhausted_note(),
        "turn cap reached: completed_turns=12 cap=12 without a report"
    );
}

#[test]
fn the_pricing_complaint_is_logged_once() {
    let mut turns = TurnLoop::new(Role::Builder);
    assert_eq!(turns.complaint_to_log(None), None);
    assert_eq!(turns.complaint_to_log(Some("unpriced".to_string())), Some("unpriced".to_string()));
    assert_eq!(turns.complaint_to_log(Some("unpriced".to_string())), None);
}

#[test]
fn unread_edits_are_refused_before_crossing_the_wall() {
    let record = ReadRecord::new();
    let out = expected_hash("edit", Some("src/lib.rs"), &record).expect_err("unread edit");
    assert!(out.is_error);
    assert_eq!(out.content, "edit: 'src/lib.rs' has not been read — read it first");
    assert_eq!(expected_hash("read", Some("src/lib.rs"), &record), Ok(None));
}

fn reported(hash: &str) -> ToolOutcome {
    ToolOutcome { content: "ok".to_string(), is_error: false, hash: hash.to_string(), before_hash: None }
}

#[test]
fn successive_edits_use_the_previous_post_image_hash() {
    let mut record = ReadRecord::new();
    let path = "src/lib.rs";
    let mut carried = Vec::new();
    for (name, post) in [("read", "read-hash"), ("edit", "first-post"), ("edit", "second-post")] {
        let expected = expected_hash(name, Some(path), &record).expect("the record allows it");
        carried.push(expected);
        record_outcome(&mut record, name, Some(path.to_string()), &reported(post));
    }
    assert_eq!(carried.len(), 3);
    assert_eq!(carried[0], None);
    assert_eq!(carried[1].as_deref(), Some("read-hash"));
    assert_eq!(carried[2].as_deref(), Some("first-post"));
}

#[test]
fn a_write_seeds_the_record_for_an_immediate_edit() {
    let mut record = ReadRecord::new();
    record_outcome(&mut record, "write", Some("src/new.rs".to_string()), &reported("write-post"));
    let expected = expected_hash("edit", Some("src/new.rs"), &record).expect("seeded by the write");
    assert_eq!(expected.as_deref(), Some("write-post"));
}

#[test]
fn failed_or_unhashed_calls_leave_the_record_alone() {
    let mut record = ReadRecord::new();
    record_outcome(&mut record, "read", Some("a".to_string()), &ToolOutcome::error("nope".to_string()));
    record_outcome(&mut record, "search", Some("a".to_string()), &reported("h"));
    record_outcome(&mut record, "read", Some("a".to_string()), &ToolOutcome::ok("no hash".to_string()));
    assert_eq!(record.get("a"), None);
}

#[test]
fn a_missing_runtime_and_a_missing_image_are_distinct_refusals() {
    let runner = FakeRunner::new(vec![Err("no docker binary".to_string())]);
    assert!(matches!(
        opener(runner).preflight(&StagePolicy::default()),
        Err(WallError::Unavailable { .. })
    ));

    let runner = FakeRunner::new(vec![FakeRunner::ok("27.0"), FakeRunner::fail("No such image")]);
    match opener(runner).preflight(&StagePolicy::default()) {
        Err(WallError::ImageMissing { image, remedy, .. }) => {
            assert_eq!(image, "daemar-cage:latest");
            assert_eq!(remedy, "build it (docker build -f Dockerfile.cage -t daemar-cage:latest .)");
        }
        other => panic!("expected ImageMissing, got {other:?}"),
    }
}

#[test]
fn a_read_only_seat_gets_a_confined_read_only_world() {
    let runner = FakeRunner::new(vec![FakeRunner::ok("abc123\n")]);
    let wall = opener(Arc::clone(&runner))
        .open(&StagePolicy::default(), "/wt", ToolAccess::ReadOnly, "slip-scout", 42, &read_only_owner())
        .expect("opens");
    assert_eq!(wall.id(), "abc123");
    assert_eq!(runner.calls.lock().unwrap().len(), 1, "docker run is asked exactly once");
    let args = runner.args(0);
    assert!(args.contains("--network none"), "{args}");
    assert!(args.contains("--user 65532:65532"), "{args}");
    assert!(args.contains("--cap-drop ALL"), "{args}");
    assert!(args.contains("no-new-privileges"), "{args}");
    assert!(args.contains("/wt:/workspace:ro"), "{args}");
    assert!(args.contains("/cage-executor hold"), "the executor is the only program the guest runs: {args}");
    assert!(!args.contains("-e ") && !args.contains("--env"), "no environment crosses the wall: {args}");
    assert!(args.contains("--name daemar-cage-slip-scout-42"), "{args}");
}

#[test]
fn a_write_seat_gets_a_writable_world_under_the_worktree_owner() {
    let runner = FakeRunner::new(vec![FakeRunner::ok("abc123\n")]);
    let wall = opener(Arc::clone(&runner))
        .open(&StagePolicy::default(), "/work/tree", ToolAccess::ReadWrite, "slip-build", 7, &Ok((1000, 1001)))
        .expect("opens");
    assert_eq!(wall.id(), "abc123");
    let args = runner.args(0);
    assert!(args.contains("/work/tree:/workspace -w"), "the write seat's world is writable: {args}");
    assert!(!args.contains(":/workspace:ro"), "{args}");
    assert!(args.contains("--user 1000:1001"), "the wall wears the worktree owner's identity: {args}");
    assert!(!args.contains("65532"), "not the fixed read-only identity: {args}");
}

#[test]
fn a_root_owned_worktree_is_refused_a_writable_wall() {
    let runner = FakeRunner::new(vec![]);
    assert!(matches!(
        opener(runner).open(&StagePolicy::default(), "/wt", ToolAccess::ReadWrite, "x", 1, &Ok((0, 0))),
        Err(WallError::Lifecycle { detail }) if detail == "worktree is root-owned — refusing a root wall"
    ));
}

#[test]
fn a_failed_send_marks_the_session_dead() {
    let runner = FakeRunner::new(vec![FakeRunner::ok("abc123\n"), FakeRunner::fail("container is not running")]);
    let mut wall = opener(runner)
        .open(&StagePolicy::default(), "/wt", ToolAccess::ReadOnly, "x", 1, &read_only_owner())
        .expect("opens");
    assert_eq!(wall.send("{}"), Err("docker exec failed: container is not running".to_string()));
    assert!(wall.dead(), "a wall that failed a request cannot be trusted");
}

#[test]
fn a_failed_teardown_is_an_error_not_a_shrug() {
    let runner = FakeRunner::new(vec![FakeRunner::ok("abc123\n"), FakeRunner::fail("cannot remove")]);
    let wall = opener(runner)
        .open(&StagePolicy::default(), "/wt", ToolAccess::ReadOnly, "x", 1, &read_only_owner())
        .expect("opens");
    assert!(matches!(wall.terminate(), Err(WallError::Lifecycle { .. })));
}

#[test]
fn an_already_gone_sandbox_satisfies_teardown_as_an_anomaly() {
    let runner = FakeRunner::new(vec![
        FakeRunner::ok("abc123\n"),
        FakeRunner::fail("Error response from daemon: No such container: abc123"),
    ]);
    let wall = opener(runner)
        .open(&StagePolicy::default(), "/wt", ToolAccess::ReadOnly, "x", 1, &read_only_owner())
        .expect("opens");
    assert_eq!(
        wall.terminate().expect("gone is gone"),
        Teardown::AlreadyGone,
        "the goal is the sandbox being gone — however that happened"
    );
}

#[test]
fn a_toolless_seat_is_refused_a_wall() {
    let runner = FakeRunner::new(vec![]);
    assert!(opener(runner)
        .open(&StagePolicy::default(), "/wt", ToolAccess::Toolless, "x", 1, &read_only_owner())
        .is_err());
}

#[test]
fn the_opener_names_itself_for_the_receipt() {
    assert_eq!(opener(FakeRunner::new(vec![])).wall_name(), "docker");
}

#[test]
fn teardown_reads_what_docker_answered() {
    let removed = CmdOut { success: true, stdout: String::new(), stderr: String::new() };
    assert_eq!(teardown_outcome(&removed), Ok(Teardown::Removed));
    let failed = CmdOut { success: false, stdout: String::new(), stderr: "  busy \n".to_string() };
    assert_eq!(
        teardown_outcome(&failed),
        Err(WallError::Lifecycle { detail: "docker rm -f failed: busy".to_string() })
    );
    assert_eq!(container_name("slip-x", 9), "daemar-cage-slip-x-9");
}

fn park_fields(base: &str, worktree: &str, commit: &str, branch: &str, v: u64) -> ReceiptFields {
    ReceiptFields {
        v: Some(v),
        base: Some(base.to_string()),
        worktree: Some(worktree.to_string()),
        commit: Some(commit.to_string()),
        branch: Some(branch.to_string()),
    }
}

#[test]
fn a_receipt_with_the_wrong_version_is_refused() {
    let good = ReceiptFields { v: Some(1), base: Some(SHA.to_string()), worktree: Some("/tmp/wt".to_string()), commit: None, branch: None };
    assert!(decode_diff_receipt(&good).is_some());
    let v2 = ReceiptFields { v: Some(2), ..good.clone() };
    assert!(decode_diff_receipt(&v2).is_none());
    let good = park_fields(SHA, "/tmp/wt", SHA, "daemar/slip-x", 1);
    assert!(decode_park_receipt(&good).is_some());
    let v2 = park_fields(SHA, "/tmp/wt", SHA, "daemar/slip-x", 2);
    assert!(decode_park_receipt(&v2).is_none());
}

#[test]
fn a_park_receipt_is_held_to_the_shape_it_was_written_in() {
    for bad in [
        park_fields("not-a-sha", "/tmp/wt", SHA, "daemar/slip-x", 1),
        park_fields(SHA, "/tmp/wt", "HEAD", "daemar/slip-x", 1),
        park_fields(SHA, "relative/wt", SHA, "daemar/slip-x", 1),
        park_fields(SHA, "/tmp/wt", SHA, "", 1),
    ] {
        assert!(decode_park_receipt(&bad).is_none(), "must refuse: {bad:?}");
    }
}

#[test]
fn receipts_are_written_as_compact_json_in_key_order() {
    assert_eq!(
        diff_receipt(SHA, "/tmp/wt"),
        format!("{{\"base\":\"{SHA}\",\"v\":1,\"worktree\":\"/tmp/wt\"}}")
    );
    assert_eq!(
        park_receipt(SHA, "/tmp/w\"t", SHA, "daemar/slip-x"),
        format!(
            "{{\"base\":\"{SHA}\",\"branch\":\"daemar/slip-x\",\"commit\":\"{SHA}\",\"v\":1,\"worktree\":\"/tmp/w\\\"t\"}}"
        )
    );
    assert!(is_full_sha(SHA));
    assert!(is_full_sha("0123456789ABCDEF0123456789abcdef01234567"));
    assert!(!is_full_sha("0123456789abcdeg0123456789abcdef01234567"));
    assert!(!is_full_sha("abc"));
}

#[test]
fn the_write_surface_is_capability_gated_and_has_no_delete() {
    assert_eq!(dispatch("read", ToolAccess::ReadOnly), Dispatch::Read);
    assert_eq!(dispatch("list_files", ToolAccess::ReadOnly), Dispatch::ListFiles);
    assert_eq!(dispatch("search", ToolAccess::ReadWrite), Dispatch::Search);
    assert_eq!(dispatch("edit", ToolAccess::ReadWrite), Dispatch::Edit);
    assert_eq!(dispatch("write", ToolAccess::ReadWrite), Dispatch::Write);
    match dispatch("edit", ToolAccess::ReadOnly) {
        Dispatch::Refused(out) => {
            assert!(out.is_error);
            assert_eq!(out.content, "forbidden: this seat may not call 'edit'");
        }
        other => panic!("expected a refusal, got {other:?}"),
    }
    match dispatch("delete", ToolAccess::ReadWrite) {
        Dispatch::Refused(out) => assert_eq!(out.content, "unknown tool 'delete'"),
        other => panic!("expected a refusal, got {other:?}"),
    }
    assert!(matches!(dispatch("read", ToolAccess::Toolless), Dispatch::Refused(_)));
}

#[test]
fn content_hashes_are_the_sha256_prefix() {
    assert_eq!(content_hash(&Vec::new()), "e3b0c44298fc1c14");
    assert_eq!(content_hash(&b"abc".to_vec()), "ba7816bf8f01cfea");
}

#[test]
fn read_returns_numbered_lines_and_records_a_hash() {
    let bytes = b"pub fn answer() {}\n".to_vec();
    let out = render_read("src/lib.rs", &bytes, None, None);
    assert!(!out.is_error);
    assert!(out.content.contains("1\tpub fn answer()"), "{}", out.content);
    assert_eq!(out.hash, content_hash(&bytes));
    assert_eq!(out.hash.len(), 16);
    let binary = render_read("a.bin", &vec![1, 0, 2], None, None);
    assert!(binary.is_error);
    assert_eq!(binary.content, "read: 'a.bin' appears to be binary");
}

#[test]
fn edit_refuses_ambiguity_and_absence() {
    assert_eq!(edit_text("f", "one two one", "two", "2").unwrap(), "one 2 one");
    let absent = edit_text("f", "one two", "three", "3").unwrap_err();
    assert_eq!(absent.content, "edit: 'old' does not occur in 'f'");
    let ambiguous = edit_text("f", "one two one", "one", "1").unwrap_err();
    assert_eq!(ambiguous.content, "edit: 'old' occurs 2 times in 'f' — make it unique");
}

#[test]
fn long_multibyte_lines_truncate_without_panicking() {
    let mut text = "ééé".to_string();
    truncate_at_boundary(&mut text, 3);
    assert_eq!(text, "é");
    let mut short = "abc".to_string();
    truncate_at_boundary(&mut short, 10);
    assert_eq!(short, "abc");
}

#[test]
fn paths_read_relative_to_the_territory() {
    let ctx = ToolContext::new("/repo", Ok("/srv/repo".to_string())).expect("resolves");
    assert_eq!(ctx.relative("/srv/repo/src/lib.rs"), "src/lib.rs");
    assert_eq!(ctx.relative("/elsewhere/x"), "/elsewhere/x");
    assert_eq!(ctx.joined("src/lib.rs"), "/srv/repo/src/lib.rs");
    assert_eq!(ctx.confine("../x", Ok("/srv/other".to_string())), Err("'../x' is outside the territory".to_string()));
    let refused = ToolContext::new("/repo", Err("No such file".to_string())).unwrap_err();
    assert_eq!(refused, "territory /repo cannot be resolved: No such file");
}

#[test]
fn docker_answers_are_read_strictly() {
    let ok = |out: &str| CmdOut { success: true, stdout: out.to_string(), stderr: String::new() };
    let failed = |err: &str| CmdOut { success: false, stdout: String::new(), stderr: err.to_string() };
    assert_eq!(runtime_verdict(Ok(ok("27.0"))), Ok(()));
    assert_eq!(
        runtime_verdict(Ok(failed(" Cannot connect to the Docker daemon \n"))),
        Err(WallError::Unavailable { detail: "Cannot connect to the Docker daemon".to_string() })
    );
    assert_eq!(
        runtime_verdict(Err("no docker".to_string())),
        Err(WallError::Unavailable { detail: "no docker".to_string() })
    );
    assert_eq!(image_verdict("img:1", Ok(ok("sha256:x"))), Ok(()));
    assert_eq!(
        image_verdict("img:1", Ok(failed("No such image\n"))),
        Err(WallError::ImageMissing {
            image: "img:1".to_string(),
            remedy: "build it (docker build -f Dockerfile.cage -t img:1 .)".to_string(),
            detail: "No such image".to_string()
        })
    );
    assert_eq!(exec_reply(Ok(ok("{\"content\":\"x\"}\n"))), Ok("{\"content\":\"x\"}\n".to_string()));
    assert_eq!(exec_reply(Ok(failed("gone "))), Err("docker exec failed: gone".to_string()));
}

#[test]
fn write_creates_new_files_only_and_stays_confined() {
    let ctx = ToolContext::new("/repo", Ok("/srv/repo".to_string())).expect("resolves");
    assert_eq!(
        ctx.new_file_parts("src/new_module.rs"),
        Ok(("/srv/repo/src".to_string(), "new_module.rs".to_string()))
    );
    assert_eq!(ctx.new_file_parts("/etc/passwd"), Err("'/etc/passwd' must be relative".to_string()));
    assert_eq!(ctx.new_file_parts("src/.."), Err("'src/..' has no file name".to_string()));
    assert_eq!(
        ctx.confine_new("src/new_module.rs", "new_module.rs", Ok("/srv/repo/src".to_string())),
        Ok("/srv/repo/src/new_module.rs".to_string())
    );
    assert_eq!(
        ctx.confine_new("../x.rs", "x.rs", Ok("/srv".to_string())),
        Err("'../x.rs' is outside the territory".to_string())
    );
    assert_eq!(
        ctx.confine_new("gone/x.rs", "x.rs", Err("No such file or directory".to_string())),
        Err("cannot resolve parent of 'gone/x.rs': No such file or directory".to_string())
    );
}

#[test]
fn listing_honors_the_cap_and_says_what_was_unreadable() {
    assert_eq!(list_output(&Vec::new(), 0), "(empty)");
    assert_eq!(list_output(&vec!["a".to_string(), "b/".to_string()], 0), "a\nb/");
    assert_eq!(list_output(&vec!["a".to_string()], 2), "a\n(2 entries unreadable)");
    let full: Vec<String> = (0..500).map(|i| format!("f{i}")).collect();
    assert!(list_output(&full, 0).ends_with("\n... (truncated at 500 entries)"));
    assert_eq!(
        search_output("needle", &Vec::new(), false, 1),
        "no matches for 'needle'\n(1 entries unreadable)"
    );
    assert_eq!(search_hit("src/lib.rs", 3, "  let needle = 1;  ", "needle"), Some("src/lib.rs:3: let needle = 1;".to_string()));
    assert_eq!(search_hit("src/lib.rs", 3, "nothing here", "needle"), None);
}

fn advertised_names(access: ToolAccess) -> Vec<String> {
    let value: serde_json::Value = serde_json::from_str(&specs(access)).expect("specs are JSON");
    value
        .as_array()
        .expect("an array of specs")
        .iter()
        .map(|spec| spec["name"].as_str().expect("a name").to_string())
        .collect()
}

#[test]
fn advertised_surface_follows_the_seat_and_has_no_delete() {
    let names = advertised_names(ToolAccess::ReadWrite);
    assert_eq!(names, ["read", "list_files", "search", "edit", "write"]);
    assert!(!names.iter().any(|n| n.contains("delete") || n.contains("remove")));
    assert_eq!(advertised_names(ToolAccess::ReadOnly), ["read", "list_files", "search"]);
    for name in advertised_names(ToolAccess::ReadOnly) {
        assert!(!matches!(dispatch(&name, ToolAccess::ReadOnly), Dispatch::Refused(_)), "{name}");
    }
    let value: serde_json::Value = serde_json::from_str(&specs(ToolAccess::ReadWrite)).unwrap();
    let edit = &value[3];
    assert_eq!(edit["type"], "function");
    assert_eq!(edit["strict"], false);
    assert_eq!(edit["parameters"]["required"][1], "old");
    assert!(edit["description"].as_str().unwrap().starts_with("Replace ONE exact occurrence"));
}

#[test]
fn edit_refuses_missing_and_empty_arguments_and_binary_targets() {
    let missing = edit_args_refusal(Some("a.rs"), None, Some("x")).unwrap();
    assert!(missing.is_error);
    assert_eq!(missing.content, "edit: 'path', 'old', and 'new' are all required");
    let empty = edit_args_refusal(Some("a.rs"), Some(""), Some("x")).unwrap();
    assert_eq!(empty.content, "edit: 'old' must not be empty");
    assert!(edit_args_refusal(Some("a.rs"), Some("x"), Some("")).is_none());
    assert_eq!(edit_text("a.rs", "abc", "", "x").unwrap_err().content, "edit: 'old' must not be empty");
    assert_eq!(
        edit_target_refusal("src", true, None).unwrap().content,
        "edit: 'src' is a directory"
    );
    assert_eq!(
        edit_target_refusal("blob", false, Some(&vec![1u8, 0u8, 2u8])).unwrap().content,
        "edit: 'blob' appears to be binary"
    );
    assert!(edit_target_refusal("t.rs", false, Some(&b"text".to_vec())).is_none());
}

#[test]
fn a_failed_call_between_edits_keeps_the_latest_hash() {
    let mut record = ReadRecord::new();
    record_outcome(&mut record, "read", Some("a".to_string()), &reported("read-hash"));
    record_outcome(&mut record, "edit", Some("a".to_string()), &reported("edit-post"));
    record_outcome(&mut record, "edit", Some("a".to_string()), &ToolOutcome::error("stale".to_string()));
    record_outcome(&mut record, "read", Some("b".to_string()), &reported("other"));
    let expected = expected_hash("edit", Some("a"), &record).expect("read before");
    assert_eq!(expected.as_deref(), Some("edit-post"));
}
