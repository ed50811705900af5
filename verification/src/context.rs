//! Scoped execution state for a task run: a stack of frames, each of which
//! may override the working directory. Operations read the innermost value;
//! an operation that sets the working directory writes into the current
//! frame only, so the setting is gone when that frame is popped.

use vstd::prelude::*;
use vstd::string::*;

verus! {

/// A working-directory value, as a POSIX-style path string.
#[derive(Debug, Clone)]
pub struct WorkDir(pub String);

/// One scope frame: the values an operation may have set in this scope.
#[derive(Debug, Clone)]
pub struct Frame {
    pub workdir: Option<WorkDir>,
}

/// The frame stack plus the base working directory that holds when no frame
/// overrides it.
#[derive(Debug, Clone)]
pub struct Context {
    pub base: String,
    pub frames: Vec<Frame>,
}

/// The workdir override of each frame, bottom of the stack first.
pub open spec fn frame_dirs(frames: Seq<Frame>) -> Seq<Option<Seq<char>>> {
    frames.map_values(
        |f: Frame|
            match f.workdir {
                Some(w) => Some(w.0@),
                None => None,
            },
    )
}

/// Innermost-first resolution: the topmost frame that overrides the working
/// directory wins; with no override the base value holds.
pub open spec fn resolved_from(dirs: Seq<Option<Seq<char>>>, base: Seq<char>) -> Seq<char>
    decreases dirs.len(),
{
    if dirs.len() == 0 {
        base
    } else {
        match dirs.last() {
            Some(w) => w,
            None => resolved_from(dirs.drop_last(), base),
        }
    }
}

/// Joining a path onto a base directory: an absolute path replaces the
/// base, a relative one is appended after a separator.
pub open spec fn join_path(base: Seq<char>, p: Seq<char>) -> Seq<char> {
    if p.len() > 0 && p[0] == '/' {
        p
    } else {
        base + "/"@ + p
    }
}

impl Context {
    /// The working directory that the stack currently resolves to.
    pub open spec fn spec_workdir(self) -> Seq<char> {
        resolved_from(frame_dirs(self.frames@), self.base@)
    }

    /// A fresh context over the given base working directory, with no open
    /// frames.
    pub fn new(base: String) -> (r: Context)
        ensures
            r.base == base,
            r.frames@.len() == 0,
            r.spec_workdir() == base@,
    {
        let r = Context { base, frames: Vec::new() };
        proof {
            assert(frame_dirs(r.frames@) =~= Seq::<Option<Seq<char>>>::empty());
        }
        r
    }

    /// Open a scope: push a frame with no overrides. The resolved working
    /// directory is unchanged.
    pub fn push_frame(&mut self)
        ensures
            final(self).base == old(self).base,
            final(self).frames@ == old(self).frames@.push(Frame { workdir: None }),
            final(self).spec_workdir() == old(self).spec_workdir(),
    {
        self.frames.push(Frame { workdir: None });
        proof {
            assert(frame_dirs(self.frames@) =~= frame_dirs(old(self).frames@).push(
                None::<Seq<char>>,
            ));
            lemma_workdir_scoping(frame_dirs(old(self).frames@), self.base@, Seq::empty());
        }
    }

    /// Close the current scope: its overrides are discarded.
    pub fn pop_frame(&mut self)
        requires
            old(self).frames@.len() > 0,
        ensures
            final(self).base == old(self).base,
            final(self).frames@ == old(self).frames@.drop_last(),
    {
        let _ = self.frames.pop();
    }

    /// Write a working-directory value into the current frame. Visible to
    /// everything that runs until that frame is popped, and to nothing
    /// after.
    pub fn set_workdir(&mut self, dir: String)
        requires
            old(self).frames@.len() > 0,
        ensures
            final(self).base == old(self).base,
            final(self).frames@ == old(self).frames@.drop_last().push(
                Frame { workdir: Some(WorkDir(dir)) },
            ),
            final(self).spec_workdir() == dir@,
    {
        let _ = self.frames.pop();
        self.frames.push(Frame { workdir: Some(WorkDir(dir)) });
        proof {
            assert(frame_dirs(self.frames@) =~= frame_dirs(old(self).frames@).drop_last().push(
                Some(dir@),
            ));
            assert(frame_dirs(self.frames@).last() == Some(dir@));
        }
    }

    /// The current working directory as an owned string.
    pub fn workdir(&self) -> (r: String)
        ensures
            r@ == self.spec_workdir(),
    {
        let ghost dirs = frame_dirs(self.frames@);
        proof {
            assert(dirs.subrange(0, dirs.len() as int) =~= dirs);
        }
        let mut k: usize = self.frames.len();
        while k > 0
            invariant
                dirs == frame_dirs(self.frames@),
                k <= self.frames@.len(),
                resolved_from(dirs.subrange(0, k as int), self.base@) == self.spec_workdir(),
            decreases k,
        {
            k = k - 1;
            match &self.frames[k].workdir {
                Some(w) => {
                    proof {
                        assert(dirs.subrange(0, k as int + 1).last() == dirs[k as int]);
                        assert(dirs[k as int] == Some(w.0@));
                    }
                    return w.0.clone();
                },
                None => {
                    proof {
                        assert(dirs.subrange(0, k as int + 1).last() == dirs[k as int]);
                        assert(dirs.subrange(0, k as int + 1).drop_last() =~= dirs.subrange(
                            0,
                            k as int,
                        ));
                    }
                },
            }
        }
        proof {
            assert(dirs.subrange(0, 0) =~= Seq::<Option<Seq<char>>>::empty());
        }
        self.base.clone()
    }

    /// Resolve `p` against the current working directory: an absolute path
    /// stands alone, a relative one is joined after a separator.
    pub fn join_workdir(&self, p: &str) -> (r: String)
        ensures
            r@ == join_path(self.spec_workdir(), p@),
    {
        if p.unicode_len() > 0 && p.get_char(0) == '/' {
            p.to_owned()
        } else {
            let mut r = self.workdir();
            r.append("/");
            r.append(p);
            r
        }
    }
}

/// The scoping law for working-directory overrides: a value written in the
/// current frame is what the stack resolves to for everything later in the
/// same scope, a freshly pushed frame changes nothing, and once the frame
/// is dropped the stack resolves exactly as it did before it was pushed.
pub proof fn lemma_workdir_scoping(dirs: Seq<Option<Seq<char>>>, base: Seq<char>, w: Seq<char>)
    ensures
        resolved_from(dirs.push(Some(w)), base) == w,
        resolved_from(dirs.push(None), base) == resolved_from(dirs, base),
        resolved_from(dirs.push(Some(w)).drop_last(), base) == resolved_from(dirs, base),
{
    assert(dirs.push(Some(w)).last() == Some(w));
    assert(dirs.push(None::<Seq<char>>).last() == None::<Seq<char>>);
    assert(dirs.push(None::<Seq<char>>).drop_last() =~= dirs);
    assert(dirs.push(Some(w)).drop_last() =~= dirs);
}

} // verus!
