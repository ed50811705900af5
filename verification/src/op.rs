//! The operations a task is made of, as a closed tagged union.
//!
//! Running an operation is split into a pure part and an effectful part.
//! `start` computes, from the operation and the current context, the
//! [`Action`] the environment has to perform (spawn a process, check a
//! directory, copy a path); the caller performs it and reports what happened
//! as an [`OpEvent`]; `finish` turns that event into the operation's outcome
//! and applies the operation's effect on the context.

use vstd::prelude::*;
use vstd::string::*;
use crate::Outcome;
use crate::context::{Context, join_path};
use crate::program::{
    ProgramSpec, split_ws, split_whitespace_owned, fragment_ok, lemma_split_nonempty,
    lemma_split_tokens_wf, is_ws_char, wf_fragment, rendered,
};

verus! {

/// A configuration error: the operation's specification cannot describe a
/// runnable command.
#[derive(Clone, Copy, Debug, PartialEq, Eq, Structural)]
pub enum ConfigError {
    /// A shell-like command string was empty or all whitespace.
    EmptyCommandString,
    /// An explicit command list held no fragment at all.
    EmptyCommandList,
    /// A fragment of a command specification was empty or all whitespace.
    EmptyFragment,
}

impl ConfigError {
    /// The human-readable description of the error.
    pub fn message(&self) -> (m: &'static str)
        ensures
            m@ == self.spec_message(),
    {
        match self {
            ConfigError::EmptyCommandString => "command string is empty",
            ConfigError::EmptyCommandList => "empty list as command specification",
            ConfigError::EmptyFragment => "empty fragment in command specification",
        }
    }

    pub open spec fn spec_message(self) -> Seq<char> {
        match self {
            ConfigError::EmptyCommandString => "command string is empty"@,
            ConfigError::EmptyCommandList => "empty list as command specification"@,
            ConfigError::EmptyFragment => "empty fragment in command specification"@,
        }
    }
}

/// A hard error while running one operation: the work could not even be
/// attempted, as opposed to running and failing.
#[derive(Debug, Clone)]
pub enum OpError {
    /// The program could not be spawned; `not_found` tells whether the
    /// operating system reported that it does not exist.
    Spawn { command: String, program: String, not_found: bool },
    /// The path handed to a working-directory change does not name a
    /// directory.
    NotADirectory { path: String },
}

/// The description of a spawn error, with a hint when the program is
/// probably not installed.
pub open spec fn spawn_message(command: Seq<char>, program: Seq<char>, not_found: bool) -> Seq<
    char,
> {
    "failed to spawn `"@ + command + "`"@ + if not_found {
        " (you probably don't have the command '"@ + program + "' installed)"@
    } else {
        Seq::empty()
    }
}

pub open spec fn not_a_directory_message(path: Seq<char>) -> Seq<char> {
    "'"@ + path + "' is not a valid path to a directory (or it is inaccessible)"@
}

impl OpError {
    /// The human-readable description of the error.
    pub fn message(&self) -> (m: String)
        ensures
            m@ == self.spec_message(),
    {
        match self {
            OpError::Spawn { command, program, not_found } => {
                let mut m = String::from_str("failed to spawn `");
                m.append(command.as_str());
                m.append("`");
                if *not_found {
                    m.append(" (you probably don't have the command '");
                    m.append(program.as_str());
                    m.append("' installed)");
                }
                proof {
                    assert(m@ =~= self.spec_message());
                }
                m
            },
            OpError::NotADirectory { path } => {
                let mut m = String::from_str("'");
                m.append(path.as_str());
                m.append("' is not a valid path to a directory (or it is inaccessible)");
                proof {
                    assert(m@ =~= self.spec_message());
                }
                m
            },
        }
    }

    pub open spec fn spec_message(self) -> Seq<char> {
        match self {
            OpError::Spawn { command, program, not_found } => spawn_message(
                command@,
                program@,
                not_found,
            ),
            OpError::NotADirectory { path } => not_a_directory_message(path@),
        }
    }
}

/// What the environment has to do for an operation that was started.
#[derive(Debug, Clone)]
pub enum Action {
    /// Spawn `program` with `args`, with `workdir` as current directory.
    Spawn { program: String, args: Vec<String>, workdir: String },
    /// Report whether `path` names an existing directory.
    CheckDir { path: String },
    /// Copy the file tree at `src` to `dst`.
    CopyPath { src: String, dst: String },
}

/// What the environment reports back for one performed action.
#[derive(Clone, Copy, Debug, PartialEq, Eq, Structural)]
pub enum OpEvent {
    /// The spawned process ran and exited; `success` is whether its exit
    /// status was zero.
    Exited { success: bool },
    /// The process could not be spawned at all.
    SpawnFailed { not_found: bool },
    /// The answer to a directory check.
    DirChecked { is_dir: bool },
    /// The copy was attempted; `success` is whether it went through.
    CopyDone { success: bool },
}

/// A subprocess invocation: a validated command plus an optional working
/// directory, resolved against the context when the operation starts.
#[derive(Debug, Clone)]
pub struct Command {
    pub run: ProgramSpec,
    pub workdir: Option<String>,
}

impl Command {
    /// Parse a shell-like command string: tokens are separated by
    /// whitespace, the first is the program, the rest are its arguments.
    /// A string without any token is rejected.
    pub fn from_simple(s: &str) -> (r: Result<Command, ConfigError>)
        ensures
            r is Ok <==> exists|k: int| 0 <= k < s@.len() && !is_ws_char(#[trigger] s@[k]),
            r matches Ok(c) ==> {
                &&& c.run.program@ == split_ws(s@)[0]
                &&& c.run.args.deep_view() == split_ws(s@).skip(1)
                &&& c.workdir is None
                &&& c.run.wf()
            },
            r matches Err(e) ==> e == ConfigError::EmptyCommandString,
    {
        let mut tokens = split_whitespace_owned(s);
        proof {
            lemma_split_nonempty(s@);
            lemma_split_tokens_wf(s@);
        }
        if tokens.len() == 0 {
            return Err(ConfigError::EmptyCommandString);
        }
        let ghost whole = split_ws(s@);
        let program = tokens.remove(0);
        proof {
            assert(program@ == whole[0]);
            assert(tokens.deep_view() =~= whole.skip(1));
            assert forall|i: int| 0 <= i < tokens.deep_view().len() implies wf_fragment(
                #[trigger] tokens.deep_view()[i],
            ) by {
                assert(tokens.deep_view()[i] == whole[i + 1]);
                assert(wf_fragment(whole[i + 1]));
            }
        }
        Ok(Command { run: ProgramSpec { program, args: tokens }, workdir: None })
    }

    /// Take an explicit command list: the first fragment is the program,
    /// the rest are its arguments. An empty list, or any fragment that is
    /// empty or all whitespace, is rejected.
    pub fn from_explicit(v: Vec<String>) -> (r: Result<Command, ConfigError>)
        ensures
            r is Ok <==> (v@.len() > 0 && forall|i: int|
                0 <= i < v.deep_view().len() ==> wf_fragment(#[trigger] v.deep_view()[i])),
            r matches Ok(c) ==> {
                &&& c.run.program@ == v.deep_view()[0]
                &&& c.run.args.deep_view() == v.deep_view().skip(1)
                &&& c.workdir is None
                &&& c.run.wf()
            },
            v@.len() == 0 ==> (r matches Err(e) && e == ConfigError::EmptyCommandList),
            v@.len() > 0 ==> (r matches Err(e) ==> e == ConfigError::EmptyFragment),
    {
        if v.len() == 0 {
            return Err(ConfigError::EmptyCommandList);
        }
        let mut i: usize = 0;
        while i < v.len()
            invariant
                i <= v@.len(),
                forall|k: int| 0 <= k < i ==> wf_fragment(#[trigger] v.deep_view()[k]),
            decreases v@.len() - i,
        {
            if !fragment_ok(v[i].as_str()) {
                proof {
                    assert(v.deep_view()[i as int] == v@[i as int]@);
                }
                return Err(ConfigError::EmptyFragment);
            }
            i = i + 1;
        }
        let mut v = v;
        let ghost whole = v.deep_view();
        let program = v.remove(0);
        proof {
            assert(program@ == whole[0]);
            assert(v.deep_view() =~= whole.skip(1));
            assert forall|k: int| 0 <= k < v.deep_view().len() implies wf_fragment(
                #[trigger] v.deep_view()[k],
            ) by {
                assert(v.deep_view()[k] == whole[k + 1]);
            }
        }
        Ok(Command { run: ProgramSpec { program, args: v }, workdir: None })
    }
}

/// Copying a file tree from `src` to `dst`, both resolved against the
/// current working directory. The copy itself (overwrite and symlink
/// policy) is the environment's concern; its result comes back as an event.
#[derive(Debug, Clone)]
pub struct Copy {
    pub src: String,
    pub dst: String,
}

/// Changing the working directory for the rest of the current scope.
#[derive(Debug, Clone)]
pub struct SetWorkDir(pub String);

/// Every kind of operation a task may hold.
#[derive(Debug, Clone)]
pub enum Operation {
    Command(Command),
    Copy(Copy),
    SetWorkDir(SetWorkDir),
}

/// The working directory a command resolves for its spawn.
pub open spec fn command_workdir(c: Command, ctx: Context) -> Seq<char> {
    match c.workdir {
        Some(w) => join_path(ctx.spec_workdir(), w@),
        None => ctx.spec_workdir(),
    }
}

/// The event `ev` is an answer the environment can give for `op`.
pub open spec fn event_matches(op: Operation, ev: OpEvent) -> bool {
    match op {
        Operation::Command(_) => ev is Exited || ev is SpawnFailed,
        Operation::Copy(_) => ev is CopyDone,
        Operation::SetWorkDir(_) => ev is DirChecked,
    }
}

/// The event makes the operation a hard error (it could not do its work at
/// all), as opposed to a mere `Failure` outcome.
pub open spec fn step_errs(op: Operation, ev: OpEvent) -> bool {
    match (op, ev) {
        (Operation::Command(_), OpEvent::SpawnFailed { .. }) => true,
        (Operation::SetWorkDir(_), OpEvent::DirChecked { is_dir }) => !is_dir,
        _ => false,
    }
}

/// The outcome of the operation when the event is not a hard error.
pub open spec fn step_outcome(op: Operation, ev: OpEvent) -> Outcome {
    match ev {
        OpEvent::Exited { success } => if success {
            Outcome::Success
        } else {
            Outcome::Failure
        },
        OpEvent::CopyDone { success } => if success {
            Outcome::Success
        } else {
            Outcome::Failure
        },
        _ => Outcome::Success,
    }
}

/// The working directory after the operation: only a successful
/// working-directory change moves it.
pub open spec fn step_newdir(op: Operation, ev: OpEvent, cur: Seq<char>) -> Seq<char> {
    match (op, ev) {
        (Operation::SetWorkDir(p), OpEvent::DirChecked { is_dir }) => if is_dir {
            join_path(cur, p.0@)
        } else {
            cur
        },
        _ => cur,
    }
}

/// The error carried out of a hard-erroring step describes that step: the
/// command that would not spawn, or the path that is not a directory.
pub open spec fn op_error_matches(e: OpError, op: Operation, ev: OpEvent, cur: Seq<char>) -> bool {
    match op {
        Operation::Command(c) => {
            &&& e matches OpError::Spawn { command, program, not_found } && command@ == rendered(
                c.run.program@,
                c.run.args.deep_view(),
            ) && program@ == c.run.program@ && (ev matches OpEvent::SpawnFailed { not_found: nf }
                && not_found == nf)
        },
        Operation::SetWorkDir(p) => e matches OpError::NotADirectory { path } && path@ == join_path(
            cur,
            p.0@,
        ),
        Operation::Copy(_) => false,
    }
}

fn clone_string_vec(v: &Vec<String>) -> (r: Vec<String>)
    ensures
        r.deep_view() == v.deep_view(),
{
    let mut r: Vec<String> = Vec::new();
    let mut i: usize = 0;
    while i < v.len()
        invariant
            i <= v@.len(),
            r@.len() == i,
            forall|k: int| 0 <= k < i ==> r@[k] == v@[k],
        decreases v@.len() - i,
    {
        r.push(v[i].clone());
        i = i + 1;
    }
    proof {
        assert(r.deep_view() =~= v.deep_view());
    }
    r
}

impl Operation {
    /// The stable keyword that names this kind of operation in messages.
    pub fn keyword(&self) -> (k: &'static str)
        ensures
            k@ == self.spec_keyword(),
    {
        match self {
            Operation::Command(_) => "command",
            Operation::Copy(_) => "copy",
            Operation::SetWorkDir(_) => "set-workdir",
        }
    }

    pub open spec fn spec_keyword(self) -> Seq<char> {
        match self {
            Operation::Command(_) => "command"@,
            Operation::Copy(_) => "copy"@,
            Operation::SetWorkDir(_) => "set-workdir"@,
        }
    }

    /// The operation's configuration can describe runnable work.
    pub open spec fn wf(self) -> bool {
        match self {
            Operation::Command(c) => c.run.wf(),
            _ => true,
        }
    }

    /// Static checks against the configuration, made once at load time.
    pub fn validate(&self) -> (r: Result<(), ConfigError>)
        ensures
            r is Ok <==> self.wf(),
            r matches Err(e) ==> e == ConfigError::EmptyFragment,
    {
        match self {
            Operation::Command(c) => {
                if !fragment_ok(c.run.program.as_str()) {
                    return Err(ConfigError::EmptyFragment);
                }
                let mut i: usize = 0;
                while i < c.run.args.len()
                    invariant
                        *self == Operation::Command(*c),
                        wf_fragment(c.run.program@),
                        i <= c.run.args@.len(),
                        forall|k: int|
                            0 <= k < i ==> wf_fragment(#[trigger] c.run.args.deep_view()[k]),
                    decreases c.run.args@.len() - i,
                {
                    if !fragment_ok(c.run.args[i].as_str()) {
                        proof {
                            assert(c.run.args.deep_view().len() == c.run.args@.len());
                            assert(c.run.args.deep_view()[i as int] == c.run.args@[i as int]@);
                            assert(!wf_fragment(c.run.args.deep_view()[i as int]));
                            assert(!c.run.wf());
                        }
                        return Err(ConfigError::EmptyFragment);
                    }
                    i = i + 1;
                }
                proof {
                    assert(c.run.args.deep_view().len() == c.run.args@.len());
                    assert(c.run.wf());
                }
                Ok(())
            },
            _ => Ok(()),
        }
    }

    /// The action `start` hands the environment for this operation in this
    /// context.
    pub open spec fn action_matches(self, ctx: Context, a: Action) -> bool {
        match self {
            Operation::Command(c) => a matches Action::Spawn { program, args, workdir } && {
                &&& program@ == c.run.program@
                &&& args.deep_view() == c.run.args.deep_view()
                &&& workdir@ == command_workdir(c, ctx)
            },
            Operation::SetWorkDir(p) => a matches Action::CheckDir { path } && path@ == join_path(
                ctx.spec_workdir(),
                p.0@,
            ),
            Operation::Copy(cp) => a matches Action::CopyPath { src, dst } && src@ == join_path(
                ctx.spec_workdir(),
                cp.src@,
            ) && dst@ == join_path(ctx.spec_workdir(), cp.dst@),
        }
    }

    /// Launch the operation: resolve everything it needs from the context
    /// and say what the environment has to do.
    pub fn start(&self, ctx: &Context) -> (a: Action)
        ensures
            self.action_matches(*ctx, a),
    {
        match self {
            Operation::Command(c) => {
                let workdir = match &c.workdir {
                    Some(w) => ctx.join_workdir(w.as_str()),
                    None => ctx.workdir(),
                };
                Action::Spawn {
                    program: c.run.program.clone(),
                    args: clone_string_vec(&c.run.args),
                    workdir,
                }
            },
            Operation::SetWorkDir(p) => Action::CheckDir { path: ctx.join_workdir(p.0.as_str()) },
            Operation::Copy(cp) => Action::CopyPath {
                src: ctx.join_workdir(cp.src.as_str()),
                dst: ctx.join_workdir(cp.dst.as_str()),
            },
        }
    }

    /// Settle the operation from what the environment reported: its
    /// outcome, or a hard error; a successful working-directory change
    /// writes into the current context frame.
    pub fn finish(&self, ctx: &mut Context, ev: &OpEvent) -> (r: Result<Outcome, OpError>)
        requires
            old(ctx).frames@.len() > 0,
            event_matches(*self, *ev),
        ensures
            final(ctx).base == old(ctx).base,
            final(ctx).frames@.len() == old(ctx).frames@.len(),
            final(ctx).frames@.drop_last() == old(ctx).frames@.drop_last(),
            final(ctx).spec_workdir() == step_newdir(*self, *ev, old(ctx).spec_workdir()),
            r is Err <==> step_errs(*self, *ev),
            r matches Ok(o) ==> o == step_outcome(*self, *ev),
            r matches Err(e) ==> op_error_matches(e, *self, *ev, old(ctx).spec_workdir()),
    {
        match self {
            Operation::Command(c) => match ev {
                OpEvent::Exited { success } => {
                    if *success {
                        Ok(Outcome::Success)
                    } else {
                        Ok(Outcome::Failure)
                    }
                },
                OpEvent::SpawnFailed { not_found } => Err(
                    OpError::Spawn {
                        command: c.run.render(),
                        program: c.run.program.clone(),
                        not_found: *not_found,
                    },
                ),
                _ => vstd::pervasive::unreached(),
            },
            Operation::SetWorkDir(p) => match ev {
                OpEvent::DirChecked { is_dir } => {
                    let path = ctx.join_workdir(p.0.as_str());
                    if *is_dir {
                        ctx.set_workdir(path);
                        proof {
                            assert(final(ctx).frames@.drop_last() == old(
                                ctx,
                            ).frames@.drop_last()) by {
                                assert(final(ctx).frames@.drop_last() =~= old(
                                    ctx,
                                ).frames@.drop_last());
                            }
                        }
                        Ok(Outcome::Success)
                    } else {
                        Err(OpError::NotADirectory { path })
                    }
                },
                _ => vstd::pervasive::unreached(),
            },
            Operation::Copy(_) => match ev {
                OpEvent::CopyDone { success } => {
                    if *success {
                        Ok(Outcome::Success)
                    } else {
                        Ok(Outcome::Failure)
                    }
                },
                _ => vstd::pervasive::unreached(),
            },
        }
    }
}

} // verus!
