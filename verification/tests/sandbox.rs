use daemar::sandbox::changeset::{
    dest_probes, find_wanted, normalize_entry_path, validate_dest_path, validate_symlink_target,
    write_action, Admission, ApplyReport, ArchiveEntry, ArchiveKind, Change, ChangeSet, FirstPass, PassAction, PassEvent, Promotion,
    RejectReason, Removal, UnsupportedKind, WriteAction,
};
use daemar::sandbox::changeset::admission_of;
use daemar::sandbox::driver::{
    driver_script, CHANGES_TAR, CHANGES_TAR_PARTIAL, EXIT_CD, EXIT_CODE_FILE, EXIT_EXPORT,
    EXIT_MKDIR, EXIT_OVERLAY, GUEST_OUT,
};
use daemar::sandbox::error::{DriverStage, Error};
use daemar::sandbox::runner::{
    check_command, classify_exit, container_args, driver_failure, emit_stderr_tail,
    exit_code_from, mount_arg, parse_exit_code, session_layout, session_names, ImageRef, Mount,
    RunSpec, DEFAULT_TIMEOUT_SECS, STDERR_TAIL_LINES,
};
use daemar::sandbox::{CONTAINER_PREFIX, DEFAULT_IMAGE};

fn s(t: &str) -> String {
    t.to_string()
}

#[test]
fn entry_paths_normalize() {
    assert_eq!(normalize_entry_path("./a/b"), Some(s("a/b")));
    assert_eq!(normalize_entry_path("./"), None);
    assert_eq!(normalize_entry_path("."), None);
}

#[test]
fn entry_paths_normalize_keep_roots_and_parents() {
    assert_eq!(normalize_entry_path("/abs//x/./y/"), Some(s("/abs/x/y")));
    assert_eq!(normalize_entry_path("a/../b"), Some(s("a/../b")));
    assert_eq!(normalize_entry_path(""), None);
}

#[test]
fn dest_path_validation_rejects_escapes() {
    let dest = "/tmp";
    let none: Vec<String> = vec![];
    assert!(validate_dest_path(dest, "ok/file.txt", &none).is_ok());
    assert!(matches!(
        validate_dest_path(dest, "../evil", &none),
        Err(RejectReason::ParentEscape)
    ));
    assert!(matches!(
        validate_dest_path(dest, "a/../../evil", &none),
        Err(RejectReason::ParentEscape)
    ));
    assert!(matches!(
        validate_dest_path(dest, "/abs", &none),
        Err(RejectReason::AbsolutePath)
    ));
}

#[test]
fn dest_path_validation_rejects_symlink_components() {
    let base = "/tmp/dmr-sanit";
    let links = vec![s("/tmp/dmr-sanit/link")];
    let err = validate_dest_path(base, "link/etc/passwd", &links).unwrap_err();
    assert_eq!(err, RejectReason::SymlinkComponent(s("/tmp/dmr-sanit/link")));
    // The last component itself may be a symlink: it is replaced, not followed.
    assert!(validate_dest_path(base, "link", &links).is_ok());
}

#[test]
fn dest_probes_follow_the_components() {
    assert_eq!(
        dest_probes("/d", "./a/b"),
        vec![s("/d"), s("/d/a"), s("/d/a/b")]
    );
    assert_eq!(dest_probes("/d/", "x"), vec![s("/d/x")]);
}

#[test]
fn symlink_target_validation() {
    assert!(validate_symlink_target("a/b", "../ok").is_ok());
    assert!(matches!(
        validate_symlink_target("a/b", "../../out"),
        Err(RejectReason::SymlinkTargetEscapes)
    ));
    assert!(matches!(
        validate_symlink_target("a/b", "/etc"),
        Err(RejectReason::SymlinkTargetAbsolute)
    ));
    assert!(validate_symlink_target("top", "sub/ok").is_ok());
    assert!(matches!(
        validate_symlink_target("top", "../out"),
        Err(RejectReason::SymlinkTargetEscapes)
    ));
}

#[test]
fn reject_reason_display_and_sources() {
    let io = || s("denied");
    let with_source = [
        (RejectReason::DeleteFailed(io()), "delete failed"),
        (RejectReason::MkdirFailed(io()), "mkdir failed"),
        (RejectReason::MkdirParentFailed(io()), "mkdir parent failed"),
        (RejectReason::SymlinkFailed(io()), "symlink failed"),
        (RejectReason::WriteFailed(io()), "write failed"),
    ];
    for (reason, want) in &with_source {
        assert_eq!(reason.message(), *want);
        assert!(reason.cause().is_some(), "{want}");
    }
    let without_source = [
        (RejectReason::Unsupported(UnsupportedKind::CharDevice), "char device"),
        (
            RejectReason::Unsupported(UnsupportedKind::SymlinkWithoutTarget),
            "symlink without target",
        ),
        (
            RejectReason::Unsupported(UnsupportedKind::EntryType("Fifo".into())),
            "unsupported entry type Fifo",
        ),
        (RejectReason::AbsolutePath, "absolute path"),
        (RejectReason::ParentEscape, "path contains .."),
        (
            RejectReason::SymlinkComponent(s("/d/link")),
            "path traverses symlink component /d/link",
        ),
        (RejectReason::NonNormalComponent, "non-normal path component"),
        (RejectReason::SymlinkTargetAbsolute, "symlink target is absolute"),
        (
            RejectReason::SymlinkTargetEscapes,
            "symlink target escapes destination",
        ),
        (
            RejectReason::SymlinkTargetNonNormal,
            "symlink target has non-normal component",
        ),
        (RejectReason::DeletionTargetMissing, "deletion target not found"),
    ];
    for (reason, want) in &without_source {
        assert_eq!(reason.message(), *want);
        assert!(reason.cause().is_none(), "{want}");
    }
}

fn entry(path: &str, kind: ArchiveKind) -> ArchiveEntry {
    ArchiveEntry {
        path: s(path),
        kind,
        mode: Some(0o644),
        host_is_dir: false,
        host_is_file: false,
        same_as_host: false,
    }
}

#[test]
fn the_scan_reports_exactly_the_changes() {
    let mut same = entry("./same.txt", ArchiveKind::Regular);
    same.host_is_file = true;
    same.same_as_host = true;
    let mut modified = entry("./mod.txt", ArchiveKind::Regular);
    modified.host_is_file = true;
    let mut parent = entry("./src", ArchiveKind::Directory);
    parent.host_is_dir = true;
    let scanned = vec![
        entry("./", ArchiveKind::Directory),
        parent,
        same,
        modified,
        entry("./new.txt", ArchiveKind::Regular),
        entry("./gone", ArchiveKind::Char { major: Some(0), minor: Some(0) }),
        entry("./dev", ArchiveKind::Char { major: None, minor: None }),
        entry("./dir", ArchiveKind::Directory),
        entry("./l", ArchiveKind::Symlink { target: Some(s("x")) }),
        entry("./l2", ArchiveKind::Symlink { target: None }),
        entry("./fifo", ArchiveKind::Other(s("Fifo"))),
    ];
    let cs = ChangeSet::from_scan(s("/s/out/changes.tar"), &scanned);
    assert_eq!(
        cs.entries(),
        &vec![
            Change::Modified { path: s("mod.txt"), mode: 0o644 },
            Change::Added { path: s("new.txt"), mode: 0o644 },
            Change::Deleted { path: s("gone") },
            Change::DirAdded { path: s("dir") },
            Change::Symlink { path: s("l"), target: s("x") },
        ]
    );
    assert_eq!(
        cs.unsupported(),
        &vec![
            (s("dev"), UnsupportedKind::CharDevice),
            (s("l2"), UnsupportedKind::SymlinkWithoutTarget),
            (s("fifo"), UnsupportedKind::EntryType(s("Fifo"))),
        ]
    );
    assert!(!cs.is_empty());
    assert!(ChangeSet::from_scan(s("t"), &vec![entry(".", ArchiveKind::Directory)]).is_empty());
    let report = cs.begin_report();
    assert_eq!(report.rejected.len(), 3);
    assert_eq!(
        report.rejected[2],
        (s("fifo"), RejectReason::Unsupported(UnsupportedKind::EntryType(s("Fifo"))))
    );
}

#[test]
fn a_missing_mode_falls_back_to_rw_r_r() {
    let mut e = entry("f", ArchiveKind::Regular);
    e.mode = None;
    let cs = ChangeSet::from_scan(s("t"), &vec![e]);
    assert_eq!(cs.entries(), &vec![Change::Added { path: s("f"), mode: 0o644 }]);
}

#[test]
fn admission_refuses_escapes_and_routes_the_rest() {
    let none: Vec<String> = vec![];
    let d = "/dest";
    assert_eq!(
        admission_of(d, &Change::Deleted { path: s("a") }, &none),
        Admission::Delete
    );
    assert_eq!(
        admission_of(d, &Change::DirAdded { path: s("a/b") }, &none),
        Admission::Mkdir
    );
    assert_eq!(
        admission_of(d, &Change::Added { path: s("../x"), mode: 0o644 }, &none),
        Admission::Refuse(RejectReason::ParentEscape)
    );
    assert_eq!(
        admission_of(
            d,
            &Change::Symlink { path: s("a/l"), target: s("../../etc") },
            &none
        ),
        Admission::Refuse(RejectReason::SymlinkTargetEscapes)
    );
    assert_eq!(
        admission_of(d, &Change::Symlink { path: s("a/l"), target: s("../ok") }, &none),
        Admission::Stream
    );
}

#[test]
fn setid_bits_are_stripped_and_reported() {
    assert_eq!(
        write_action(&Change::Added { path: s("f"), mode: 0o4755 }),
        Some(WriteAction::File { mode: 0o755, strip: true })
    );
    assert_eq!(
        write_action(&Change::Modified { path: s("f"), mode: 0o100644 }),
        Some(WriteAction::File { mode: 0o644, strip: false })
    );
    assert_eq!(write_action(&Change::Deleted { path: s("f") }), None);
    assert_eq!(
        write_action(&Change::Symlink { path: s("l"), target: s("t") }),
        Some(WriteAction::Symlink { target: s("t") })
    );
}

#[test]
fn the_last_wanted_change_for_a_path_wins() {
    let want = vec![
        Change::Added { path: s("a"), mode: 1 },
        Change::Added { path: s("b"), mode: 2 },
        Change::Modified { path: s("a"), mode: 3 },
    ];
    assert_eq!(find_wanted(&want, "a"), Some(2));
    assert_eq!(find_wanted(&want, "b"), Some(1));
    assert_eq!(find_wanted(&want, "c"), None);
}

#[test]
fn every_recorded_entry_lands_in_exactly_one_list() {
    let mut r = ApplyReport {
        applied: vec![],
        deleted: vec![],
        rejected: vec![],
        stripped: vec![],
    };
    r.record_removal(s("gone"), Removal::Removed);
    r.record_removal(s("absent"), Removal::Missing);
    r.record_mkdir(s("d"), Ok(()));
    r.record_write(s("suid"), true, Ok(()));
    r.record_write(s("bad"), false, Err(s("disk full")));
    r.record_symlink(s("l"), Err(s("exists")));
    r.record_parent_failure(s("p/f"), s("denied"));
    r.refuse(s("../x"), RejectReason::ParentEscape);
    assert_eq!(r.applied, vec![s("d"), s("suid")]);
    assert_eq!(r.deleted, vec![s("gone")]);
    assert_eq!(r.stripped, vec![s("suid")]);
    assert_eq!(r.rejected.len(), 5);
    assert_eq!(r.rejected[0], (s("absent"), RejectReason::DeletionTargetMissing));
    assert_eq!(r.rejected[1], (s("bad"), RejectReason::WriteFailed(s("disk full"))));
    assert_eq!(r.applied.len() + r.deleted.len() + r.rejected.len(), 8);
}

#[test]
fn script_is_posix_sh_with_expected_stages() {
    let s = driver_script();
    assert!(s.starts_with("#!/bin/sh"));
    assert!(s.contains(r#""$@""#));
    assert!(!s.contains("bash"));
    let code_pos = s.find(EXIT_CODE_FILE).unwrap();
    let tar_pos = s.find(CHANGES_TAR).unwrap();
    assert!(code_pos < tar_pos);
}

#[test]
fn export_writes_partial_name_and_renames_on_success() {
    let s = driver_script();
    assert_ne!(CHANGES_TAR, CHANGES_TAR_PARTIAL);
    let tar_write = format!("-cf {GUEST_OUT}/{CHANGES_TAR_PARTIAL}");
    let rename = format!("mv {GUEST_OUT}/{CHANGES_TAR_PARTIAL} {GUEST_OUT}/{CHANGES_TAR}");
    let tar_pos = s.find(&tar_write).expect("tar writes the partial name");
    let mv_pos = s.find(&rename).expect("mv into place is the success marker");
    assert!(tar_pos < mv_pos);
    assert!(!s.contains(&format!("-cf {GUEST_OUT}/{CHANGES_TAR} ")));
}

#[test]
fn the_script_renders_every_stage_code() {
    let s = driver_script();
    assert!(s.contains("|| fail \"mkdir\" 124\n"));
    assert!(s.contains("|| fail \"overlay mount\" 125\n"));
    assert!(s.contains("|| fail \"cd\" 126\n"));
    assert!(s.ends_with("|| fail \"export\" 127\nexit \"$rc\"\n"));
}

#[test]
fn driver_failure_codes_are_distinct() {
    let codes = [EXIT_MKDIR, EXIT_OVERLAY, EXIT_CD, EXIT_EXPORT];
    let mut dedup = codes.to_vec();
    dedup.dedup();
    assert_eq!(dedup.len(), codes.len());
}

#[test]
fn display_text_is_locked() {
    let io_err = || s("permission denied");
    let cases: Vec<(Error, &str)> = vec![
        (
            Error::BadWorktree { path: s("/w"), source: Some(io_err()) },
            "worktree /w does not exist or is not a directory",
        ),
        (Error::EmptyCommand, "command must not be empty"),
        (
            Error::Session { path: s("/s"), source: io_err() },
            "failed to prepare session directory /s",
        ),
        (
            Error::Spawn(io_err()),
            "failed to spawn `container` (is the container CLI installed and running?)",
        ),
        (Error::Timeout(5), "run exceeded timeout of 5s and was killed"),
        (
            Error::Driver { stage: DriverStage::Mkdir, code: Some(124) },
            "driver failed before the command ran (mkdir); container exit code Some(124)",
        ),
        (
            Error::Driver { stage: DriverStage::OverlayMount, code: Some(125) },
            "driver failed before the command ran (overlay mount); container exit code Some(125)",
        ),
        (
            Error::Driver { stage: DriverStage::Export { workload_exit: 0 }, code: Some(127) },
            "driver failed to export changes after the command ran (workload exit code 0); \
             container exit code Some(127)",
        ),
        (
            Error::Driver { stage: DriverStage::Container, code: Some(1) },
            "container failed (bad image or runtime error); container exit code Some(1)",
        ),
        (Error::Results(io_err()), "failed to read run results from session"),
        (Error::Archive(io_err()), "malformed change archive"),
        (
            Error::ExitCode { raw: "abc\n".into() },
            "unparseable workload exit code \"abc\\n\"",
        ),
        (Error::Io(s("compare"), io_err()), "io error during compare"),
    ];
    for (err, want) in cases {
        assert_eq!(err.message(), want);
    }
    assert_eq!(
        Error::Driver { stage: DriverStage::Cd, code: None }.message(),
        "driver failed before the command ran (cd); container exit code None"
    );
}

#[test]
fn causes_live_in_the_source_chain() {
    let io_err = || s("permission denied");
    let with_cause = [
        Error::Session { path: s("/s"), source: io_err() },
        Error::Spawn(io_err()),
        Error::Results(io_err()),
        Error::Io(s("compare"), io_err()),
        Error::Archive(io_err()),
        Error::BadWorktree { path: s("/w"), source: Some(io_err()) },
    ];
    for err in &with_cause {
        assert!(err.cause().is_some(), "missing source: {}", err.message());
    }
    let without_cause = [
        Error::BadWorktree { path: s("/w"), source: None },
        Error::EmptyCommand,
        Error::Timeout(1),
        Error::Driver { stage: DriverStage::Cd, code: None },
        Error::Driver { stage: DriverStage::Export { workload_exit: 3 }, code: Some(127) },
        Error::ExitCode { raw: String::new() },
    ];
    for err in &without_cause {
        assert!(err.cause().is_none(), "unexpected source: {}", err.message());
    }
}

#[test]
fn mount_args_render() {
    let arg = mount_arg("/x/y", "/daemar/lower", Mount::ReadOnly);
    assert_eq!(arg, "type=bind,source=/x/y,target=/daemar/lower,readonly");
    let rw = mount_arg("/x/out", "/daemar/out", Mount::ReadWrite);
    assert!(!rw.contains("readonly"));
}

#[test]
fn empty_command_is_rejected() {
    let spec = RunSpec::new(vec![], s("/tmp"));
    assert_eq!(check_command(&spec), Err(Error::EmptyCommand));
    let spec = RunSpec::new(vec![s("true")], s("/tmp"));
    assert_eq!(check_command(&spec), Ok(()));
}

#[test]
fn a_new_spec_takes_the_defaults() {
    let spec = RunSpec::new(vec![s("ls")], s("/w"));
    assert_eq!(spec.image.as_str(), DEFAULT_IMAGE);
    assert_eq!(spec.timeout_secs, DEFAULT_TIMEOUT_SECS);
    assert_eq!(ImageRef::new(s("alpine")).as_str(), "alpine");
    assert_eq!(ImageRef::default().as_str(), DEFAULT_IMAGE);
}

#[test]
fn the_container_invocation_is_assembled_in_order() {
    let mut spec = RunSpec::new(vec![s("make"), s("test")], s("/w"));
    spec.image = ImageRef::new(s("img"));
    let args = container_args(&spec, "/real/w", "daemar-sbx-1", "/s/bin", "/s/out");
    let want: Vec<String> = [
        "run",
        "--rm",
        "--progress",
        "none",
        "--network",
        "none",
        "--cap-add",
        "CAP_SYS_ADMIN",
        "--tmpfs",
        "/daemar/ovl",
        "--name",
        "daemar-sbx-1",
        "--mount",
        "type=bind,source=/real/w,target=/daemar/lower,readonly",
        "--mount",
        "type=bind,source=/s/out,target=/daemar/out",
        "--mount",
        "type=bind,source=/s/bin,target=/daemar/bin,readonly",
        "img",
        "sh",
        "/daemar/bin/driver.sh",
        "make",
        "test",
    ]
    .iter()
    .map(|a| a.to_string())
    .collect();
    assert_eq!(args, want);
}

#[test]
fn session_names_and_layout() {
    let names = session_names();
    assert_eq!(names.container, format!("{CONTAINER_PREFIX}{}", names.run_id));
    assert_eq!(names.run_id.len(), 36);
    assert_eq!(names.run_id.chars().nth(14), Some('4'));
    assert!(matches!(names.run_id.chars().nth(19), Some('8' | '9' | 'a' | 'b')));
    let layout = session_layout("/tmp", "abc");
    assert_eq!(layout.session, "/tmp/daemar-sandbox/abc");
    assert_eq!(layout.bin_dir, "/tmp/daemar-sandbox/abc/bin");
    assert_eq!(layout.out_dir, "/tmp/daemar-sandbox/abc/out");
}

#[test]
fn nonzero_statuses_classify_by_the_driver_protocol() {
    let cases: [(i32, Option<i32>, DriverStage); 6] = [
        (EXIT_MKDIR, None, DriverStage::Mkdir),
        (EXIT_OVERLAY, None, DriverStage::OverlayMount),
        (EXIT_CD, None, DriverStage::Cd),
        (EXIT_EXPORT, Some(3), DriverStage::Export { workload_exit: 3 }),
        (EXIT_EXPORT, None, DriverStage::Container),
        (1, Some(1), DriverStage::Container),
    ];
    for (code, workload_exit, want) in cases {
        let (err, line) = driver_failure(Some(code), workload_exit, &b"boom\n".to_vec());
        let Error::Driver { stage, code: got } = err else {
            panic!("expected Driver error, got: {}", err.message());
        };
        assert_eq!(stage, want);
        assert_eq!(got, Some(code));
        assert!(!line.is_empty(), "classification must emit a diagnostic");
    }
    assert_eq!(classify_exit(None, Some(0)), DriverStage::Container);
}

#[test]
fn stderr_tail_is_emitted_and_bounded() {
    let mut stderr = String::new();
    for i in 1..=STDERR_TAIL_LINES * 2 {
        stderr.push_str(&format!("line-{i}\n"));
    }
    let out = emit_stderr_tail(DriverStage::Cd, &stderr.as_bytes().to_vec());
    assert!(out.contains(&format!("line-{}", STDERR_TAIL_LINES * 2)));
    assert!(out.contains(&format!("line-{}", STDERR_TAIL_LINES + 1)));
    assert!(!out.contains("line-1 "));
    assert!(!out.contains(&format!("line-{STDERR_TAIL_LINES} ")));
    let empty = emit_stderr_tail(DriverStage::Cd, &Vec::new());
    assert!(!empty.is_empty());
}

#[test]
fn the_stderr_tail_line_is_exact() {
    let out = emit_stderr_tail(DriverStage::Export { workload_exit: 2 }, &b"a\r\nb\nc".to_vec());
    assert_eq!(out, "daemar-sandbox: driver failed at export: a | b | c\n");
    let bad = emit_stderr_tail(DriverStage::Mkdir, &vec![0x66, 0xff, 0x0a]);
    assert_eq!(bad, "daemar-sandbox: driver failed at mkdir: f\u{fffd}\n");
}

#[test]
fn recorded_exit_codes_parse_like_rust_integers() {
    assert_eq!(parse_exit_code("0\n"), Some(0));
    assert_eq!(parse_exit_code("  -3 "), Some(-3));
    assert_eq!(parse_exit_code("+42"), Some(42));
    assert_eq!(parse_exit_code("2147483647"), Some(i32::MAX));
    assert_eq!(parse_exit_code("-2147483648"), Some(i32::MIN));
    assert_eq!(parse_exit_code("2147483648"), None);
    assert_eq!(parse_exit_code("99999999999999999999"), None);
    assert_eq!(parse_exit_code("-"), None);
    assert_eq!(parse_exit_code("1a"), None);
    assert_eq!(parse_exit_code(""), None);
    assert_eq!(exit_code_from(s("7\n")), Ok(7));
    assert_eq!(exit_code_from(s("abc\n")), Err(Error::ExitCode { raw: s("abc\n") }));
}

#[test]
fn promotion_accounts_for_every_change_once() {
    let cs = ChangeSet::from_scan(
        s("t"),
        &vec![
            entry("f", ArchiveKind::Regular),
            entry("dir", ArchiveKind::Directory),
            entry("fifo", ArchiveKind::Other(s("Fifo"))),
        ],
    );
    let none: Vec<String> = vec![];
    let mut p = Promotion::begin(&cs);
    assert_eq!(p.report.rejected.len(), 1);
    assert!(p.want.is_empty());
    assert_eq!(p.consider("/dest", &Change::Added { path: s("f"), mode: 0o4755 }, &none), Admission::Stream);
    assert_eq!(p.want, vec![Change::Added { path: s("f"), mode: 0o4755 }]);
    assert_eq!(p.consider("/dest", &Change::DirAdded { path: s("dir") }, &none), Admission::Mkdir);
    assert_eq!(p.report.applied.len() + p.report.rejected.len() + p.want.len(), 2);
    p.report.record_mkdir(s("dir"), Ok(()));
    assert_eq!(
        p.consider("/dest", &Change::Added { path: s("../x"), mode: 0o644 }, &none),
        Admission::Refuse(RejectReason::ParentEscape)
    );
    assert_eq!(p.report.rejected.last(), Some(&(s("../x"), RejectReason::ParentEscape)));
    assert_eq!(p.report.applied.len() + p.report.rejected.len() + p.want.len(), 4);
}

#[test]
fn a_symlinked_component_is_refused_by_the_promotion() {
    let cs = ChangeSet::from_scan(s("t"), &vec![]);
    let mut p = Promotion::begin(&cs);
    let links = vec![s("/dest/a")];
    assert_eq!(
        p.consider("/dest", &Change::Added { path: s("a/b"), mode: 0o644 }, &links),
        Admission::Refuse(RejectReason::SymlinkComponent(s("/dest/a")))
    );
    assert!(p.want.is_empty());
    assert_eq!(p.report.rejected.len(), 1);
}

#[test]
fn the_first_pass_accounts_for_every_change_exactly_once() {
    let cs = ChangeSet::from_scan(
        s("t"),
        &vec![
            entry("f", ArchiveKind::Regular),
            entry("d", ArchiveKind::Directory),
            entry("../x", ArchiveKind::Regular),
            entry("fifo", ArchiveKind::Other(s("Fifo"))),
        ],
    );
    let (mut pass, action) = FirstPass::begin(&cs, "/dest");
    assert_eq!(pass.promotion.report.rejected.len(), 1);
    assert_eq!(action, PassAction::Probe(s("f")));
    let action = pass.step(PassEvent::Probed(vec![]));
    assert_eq!(action, PassAction::Probe(s("d")));
    let action = pass.step(PassEvent::Probed(vec![]));
    assert_eq!(action, PassAction::Mkdir(s("d")));
    // an answer to something not asked changes nothing
    assert_eq!(pass.step(PassEvent::Removed(Removal::Removed)), PassAction::Mkdir(s("d")));
    let action = pass.step(PassEvent::Made(Ok(())));
    assert_eq!(action, PassAction::Probe(s("../x")));
    let action = pass.step(PassEvent::Probed(vec![]));
    assert_eq!(action, PassAction::Stream);
    let p = &pass.promotion;
    assert_eq!(p.want, vec![Change::Added { path: s("f"), mode: 0o644 }]);
    assert_eq!(p.report.applied, vec![s("d")]);
    assert_eq!(p.report.rejected.len(), 2);
    assert_eq!(p.report.rejected[1], (s("../x"), RejectReason::ParentEscape));
    assert_eq!(
        p.report.applied.len() + p.report.deleted.len() + p.report.rejected.len() + p.want.len(),
        cs.entries().len() + cs.unsupported().len()
    );
}
