use devloop::Outcome;
use devloop::context::Context;
use devloop::op::{Action, Command, OpEvent, Operation, SetWorkDir};
use devloop::task::Task;

fn cmd(s: &str) -> Operation {
    Operation::Command(Command::from_simple(s).expect("valid command"))
}

#[test]
fn task_fails_fast_on_first_failure() {
    // Operations A, B, C; B fails. The task reports Failure, and C is never
    // looked at: its event is one that would abort the run as a hard error
    // if it were consumed.
    let task = Task {
        name: "build".to_string(),
        operations: vec![cmd("echo a"), cmd("echo b"), cmd("echo c")],
    };
    let mut ctx = Context::new("/base".to_string());
    let events = vec![
        OpEvent::Exited { success: true },
        OpEvent::Exited { success: false },
        OpEvent::SpawnFailed { not_found: true },
    ];
    let r = task.run(&mut ctx, &events).expect("no hard error");
    assert_eq!(r, Outcome::Failure);
    assert_eq!(ctx.workdir(), "/base");
}

#[test]
fn task_succeeds_when_all_operations_succeed() {
    let task = Task {
        name: "ok".to_string(),
        operations: vec![cmd("echo a"), cmd("echo b")],
    };
    let mut ctx = Context::new("/base".to_string());
    let events = vec![
        OpEvent::Exited { success: true },
        OpEvent::Exited { success: true },
    ];
    assert_eq!(task.run(&mut ctx, &events).unwrap(), Outcome::Success);
}

#[test]
fn spawn_error_aborts_with_hint() {
    let task = Task {
        name: "build".to_string(),
        operations: vec![cmd("frobnicate --all")],
    };
    let mut ctx = Context::new("/base".to_string());
    let events = vec![OpEvent::SpawnFailed { not_found: true }];
    let e = task.run(&mut ctx, &events).unwrap_err();
    assert_eq!(e.task, "build");
    assert_eq!(
        e.message(),
        "failed to run operation for task 'build': failed to spawn `frobnicate --all` \
         (you probably don't have the command 'frobnicate' installed)"
    );
}

#[test]
fn spawn_error_without_hint() {
    let task = Task {
        name: "t".to_string(),
        operations: vec![cmd("tool")],
    };
    let mut ctx = Context::new("/base".to_string());
    let events = vec![OpEvent::SpawnFailed { not_found: false }];
    let e = task.run(&mut ctx, &events).unwrap_err();
    assert_eq!(
        e.message(),
        "failed to run operation for task 't': failed to spawn `tool`"
    );
}

#[test]
fn missing_directory_aborts_the_run() {
    let task = Task {
        name: "t".to_string(),
        operations: vec![Operation::SetWorkDir(SetWorkDir("gone".to_string()))],
    };
    let mut ctx = Context::new("/base".to_string());
    let events = vec![OpEvent::DirChecked { is_dir: false }];
    let e = task.run(&mut ctx, &events).unwrap_err();
    assert_eq!(
        e.source.message(),
        "'/base/gone' is not a valid path to a directory (or it is inaccessible)"
    );
    assert_eq!(ctx.workdir(), "/base");
}

#[test]
fn workdir_change_is_visible_to_later_operations() {
    // Within one run, a SetWorkDir changes what a later command resolves;
    // after the run, the context is back to its old state.
    let set = Operation::SetWorkDir(SetWorkDir("sub".to_string()));
    let after = cmd("make");
    let mut ctx = Context::new("/base".to_string());
    ctx.push_frame();
    set.finish(&mut ctx, &OpEvent::DirChecked { is_dir: true })
        .expect("directory exists");
    assert_eq!(ctx.workdir(), "/base/sub");
    match after.start(&ctx) {
        Action::Spawn { program, workdir, .. } => {
            assert_eq!(program, "make");
            assert_eq!(workdir, "/base/sub");
        }
        other => panic!("unexpected action: {:?}", other),
    }
    ctx.pop_frame();
    assert_eq!(ctx.workdir(), "/base");
}

#[test]
fn workdir_change_does_not_leak_into_next_run() {
    let task = Task {
        name: "t".to_string(),
        operations: vec![Operation::SetWorkDir(SetWorkDir("sub".to_string()))],
    };
    let mut ctx = Context::new("/base".to_string());
    let events = vec![OpEvent::DirChecked { is_dir: true }];
    assert_eq!(task.run(&mut ctx, &events).unwrap(), Outcome::Success);
    // A later, independent run starts from a fresh frame.
    assert_eq!(ctx.workdir(), "/base");
    let probe = cmd("pwd");
    match probe.start(&ctx) {
        Action::Spawn { workdir, .. } => assert_eq!(workdir, "/base"),
        other => panic!("unexpected action: {:?}", other),
    }
}

#[test]
fn absolute_setworkdir_replaces_base() {
    let set = Operation::SetWorkDir(SetWorkDir("/opt/app".to_string()));
    let mut ctx = Context::new("/base".to_string());
    ctx.push_frame();
    set.finish(&mut ctx, &OpEvent::DirChecked { is_dir: true })
        .unwrap();
    assert_eq!(ctx.workdir(), "/opt/app");
}

#[test]
fn command_workdir_resolves_relative_to_context() {
    let mut c = Command::from_simple("make").unwrap();
    c.workdir = Some("build".to_string());
    let ctx = Context::new("/proj".to_string());
    match Operation::Command(c).start(&ctx) {
        Action::Spawn { workdir, .. } => assert_eq!(workdir, "/proj/build"),
        other => panic!("unexpected action: {:?}", other),
    }
}

#[test]
fn copy_resolves_both_paths() {
    let op = Operation::Copy(devloop::op::Copy {
        src: "a.txt".to_string(),
        dst: "/tmp/a.txt".to_string(),
    });
    let ctx = Context::new("/proj".to_string());
    match op.start(&ctx) {
        Action::CopyPath { src, dst } => {
            assert_eq!(src, "/proj/a.txt");
            assert_eq!(dst, "/tmp/a.txt");
        }
        other => panic!("unexpected action: {:?}", other),
    }
    let mut ctx = ctx;
    ctx.push_frame();
    let r = op
        .finish(&mut ctx, &OpEvent::CopyDone { success: false })
        .unwrap();
    assert_eq!(r, Outcome::Failure);
}

#[test]
fn operation_keywords() {
    assert_eq!(cmd("x").keyword(), "command");
    assert_eq!(
        Operation::Copy(devloop::op::Copy { src: "a".to_string(), dst: "b".to_string() }).keyword(),
        "copy"
    );
    assert_eq!(
        Operation::SetWorkDir(SetWorkDir(".".to_string())).keyword(),
        "set-workdir"
    );
}

#[test]
fn task_validate_reports_bad_operation() {
    let good = Task {
        name: "g".to_string(),
        operations: vec![cmd("echo hi")],
    };
    assert!(good.validate().is_ok());
    let bad = Task {
        name: "b".to_string(),
        operations: vec![
            cmd("echo hi"),
            Operation::Command(Command {
                run: devloop::program::ProgramSpec {
                    program: " ".to_string(),
                    args: Vec::new(),
                },
                workdir: None,
            }),
        ],
    };
    assert!(bad.validate().is_err());
}

#[test]
fn outcome_failure_check() {
    assert!(Outcome::Failure.is_failure());
    assert!(!Outcome::Success.is_failure());
}
