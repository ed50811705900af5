//! The command specification: a program name plus an ordered argument list,
//! obtained from either a single shell-like string (split on whitespace) or
//! an explicit list of strings, and renderable back to a string with quoting
//! around fragments that contain whitespace.

use vstd::prelude::*;
use vstd::string::*;

verus! {

/// `c` has the Unicode `White_Space` property, the set of characters that
/// `str::split_whitespace` splits on.
pub open spec fn is_ws_char(c: char) -> bool {
    let u = c as u32;
    ||| u == 0x09
    ||| u == 0x0A
    ||| u == 0x0B
    ||| u == 0x0C
    ||| u == 0x0D
    ||| u == 0x20
    ||| u == 0x85
    ||| u == 0xA0
    ||| u == 0x1680
    ||| (0x2000 <= u && u <= 0x200A)
    ||| u == 0x2028
    ||| u == 0x2029
    ||| u == 0x202F
    ||| u == 0x205F
    ||| u == 0x3000
}

pub open spec fn all_ws(s: Seq<char>) -> bool {
    forall|i: int| 0 <= i < s.len() ==> is_ws_char(#[trigger] s[i])
}

pub open spec fn contains_ws(s: Seq<char>) -> bool {
    exists|i: int| 0 <= i < s.len() && is_ws_char(#[trigger] s[i])
}

/// A fragment may serve as a program name or argument iff it is non-empty
/// and not all whitespace.
pub open spec fn wf_fragment(s: Seq<char>) -> bool {
    s.len() > 0 && !all_ws(s)
}

pub fn is_ws(c: char) -> (b: bool)
    ensures
        b == is_ws_char(c),
{
    let u = c as u32;
    u == 0x09 || u == 0x0A || u == 0x0B || u == 0x0C || u == 0x0D || u == 0x20 || u == 0x85
        || u == 0xA0 || u == 0x1680 || (0x2000 <= u && u <= 0x200A) || u == 0x2028 || u == 0x2029
        || u == 0x202F || u == 0x205F || u == 0x3000
}

/// One pass over `s` from position `i`: `cur` holds the characters of the
/// token read so far, `acc` the tokens already complete.
pub open spec fn split_ws_aux(s: Seq<char>, i: int, cur: Seq<char>, acc: Seq<Seq<char>>) -> Seq<
    Seq<char>,
>
    decreases s.len() - i,
{
    if i >= s.len() {
        if cur.len() > 0 {
            acc.push(cur)
        } else {
            acc
        }
    } else if is_ws_char(s[i]) {
        if cur.len() > 0 {
            split_ws_aux(s, i + 1, Seq::empty(), acc.push(cur))
        } else {
            split_ws_aux(s, i + 1, cur, acc)
        }
    } else {
        split_ws_aux(s, i + 1, cur.push(s[i]), acc)
    }
}

/// The whitespace-separated tokens of `s`, in order.
pub open spec fn split_ws(s: Seq<char>) -> Seq<Seq<char>> {
    split_ws_aux(s, 0, Seq::empty(), Seq::empty())
}

proof fn lemma_aux_run(s: Seq<char>, i: int, j: int, acc: Seq<Seq<char>>)
    requires
        0 <= i <= j <= s.len(),
        forall|k: int| i <= k < j ==> !is_ws_char(#[trigger] s[k]),
    ensures
        split_ws_aux(s, i, Seq::empty(), acc) == split_ws_aux(s, j, s.subrange(i, j), acc),
    decreases j - i,
{
    if i == j {
        assert(s.subrange(i, i) =~= Seq::<char>::empty());
    } else {
        lemma_aux_run(s, i, j - 1, acc);
        assert(s.subrange(i, j - 1).push(s[j - 1]) =~= s.subrange(i, j));
    }
}

proof fn lemma_aux_ge(s: Seq<char>, i: int, cur: Seq<char>, acc: Seq<Seq<char>>)
    ensures
        split_ws_aux(s, i, cur, acc).len() >= acc.len() + if cur.len() > 0 {
            1int
        } else {
            0int
        },
    decreases s.len() - i,
{
    if i < s.len() {
        if is_ws_char(s[i]) {
            if cur.len() > 0 {
                lemma_aux_ge(s, i + 1, Seq::empty(), acc.push(cur));
            } else {
                lemma_aux_ge(s, i + 1, cur, acc);
            }
        } else {
            lemma_aux_ge(s, i + 1, cur.push(s[i]), acc);
        }
    }
}

proof fn lemma_aux_has_token(s: Seq<char>, i: int, cur: Seq<char>, acc: Seq<Seq<char>>)
    requires
        exists|k: int| i <= k < s.len() && !is_ws_char(#[trigger] s[k]),
    ensures
        split_ws_aux(s, i, cur, acc).len() > acc.len(),
    decreases s.len() - i,
{
    if i < s.len() {
        if is_ws_char(s[i]) {
            if cur.len() > 0 {
                lemma_aux_ge(s, i + 1, Seq::empty(), acc.push(cur));
            } else {
                lemma_aux_has_token(s, i + 1, cur, acc);
            }
        } else {
            lemma_aux_ge(s, i + 1, cur.push(s[i]), acc);
        }
    }
}

proof fn lemma_aux_all_ws(s: Seq<char>, i: int, acc: Seq<Seq<char>>)
    requires
        forall|k: int| i <= k < s.len() ==> is_ws_char(#[trigger] s[k]),
    ensures
        split_ws_aux(s, i, Seq::empty(), acc) == acc,
    decreases s.len() - i,
{
    if i < s.len() {
        lemma_aux_all_ws(s, i + 1, acc);
    }
}

/// A token produced by splitting holds at least one character and none of
/// its characters is whitespace.
pub open spec fn token_wf(t: Seq<char>) -> bool {
    t.len() > 0 && forall|k: int| 0 <= k < t.len() ==> !is_ws_char(#[trigger] t[k])
}

proof fn lemma_aux_tokens_wf(s: Seq<char>, i: int, cur: Seq<char>, acc: Seq<Seq<char>>)
    requires
        forall|k: int| 0 <= k < cur.len() ==> !is_ws_char(#[trigger] cur[k]),
        forall|t: int| 0 <= t < acc.len() ==> token_wf(#[trigger] acc[t]),
    ensures
        forall|t: int|
            0 <= t < split_ws_aux(s, i, cur, acc).len() ==> token_wf(
                #[trigger] split_ws_aux(s, i, cur, acc)[t],
            ),
    decreases s.len() - i,
{
    if i >= s.len() {
        if cur.len() > 0 {
            assert(split_ws_aux(s, i, cur, acc) == acc.push(cur));
            assert(token_wf(cur));
            assert forall|t: int| 0 <= t < acc.push(cur).len() implies token_wf(
                #[trigger] acc.push(cur)[t],
            ) by {
                if t < acc.len() {
                    assert(token_wf(acc[t]));
                }
            }
        }
    } else if is_ws_char(s[i]) {
        if cur.len() > 0 {
            assert(token_wf(cur));
            assert forall|t: int| 0 <= t < acc.push(cur).len() implies token_wf(
                #[trigger] acc.push(cur)[t],
            ) by {
                if t < acc.len() {
                    assert(token_wf(acc[t]));
                }
            }
            lemma_aux_tokens_wf(s, i + 1, Seq::empty(), acc.push(cur));
            assert(split_ws_aux(s, i, cur, acc) == split_ws_aux(
                s,
                i + 1,
                Seq::empty(),
                acc.push(cur),
            ));
        } else {
            lemma_aux_tokens_wf(s, i + 1, cur, acc);
            assert(split_ws_aux(s, i, cur, acc) == split_ws_aux(s, i + 1, cur, acc));
        }
    } else {
        assert forall|k: int| 0 <= k < cur.push(s[i]).len() implies !is_ws_char(
            #[trigger] cur.push(s[i])[k],
        ) by {
            if k < cur.len() {
                assert(!is_ws_char(cur[k]));
            }
        }
        lemma_aux_tokens_wf(s, i + 1, cur.push(s[i]), acc);
        assert(split_ws_aux(s, i, cur, acc) == split_ws_aux(s, i + 1, cur.push(s[i]), acc));
    }
}

/// Every token of `split_ws` is non-empty and free of whitespace, hence a
/// well-formed fragment.
pub proof fn lemma_split_tokens_wf(s: Seq<char>)
    ensures
        forall|t: int| 0 <= t < split_ws(s).len() ==> token_wf(#[trigger] split_ws(s)[t]),
        forall|t: int| 0 <= t < split_ws(s).len() ==> wf_fragment(#[trigger] split_ws(s)[t]),
{
    lemma_aux_tokens_wf(s, 0, Seq::empty(), Seq::empty());
    assert forall|t: int| 0 <= t < split_ws(s).len() implies wf_fragment(
        #[trigger] split_ws(s)[t],
    ) by {
        let tok = split_ws(s)[t];
        assert(token_wf(tok));
        assert(!is_ws_char(tok[0]));
    }
}

/// Splitting yields a token exactly when the string holds some
/// non-whitespace character.
pub proof fn lemma_split_nonempty(s: Seq<char>)
    ensures
        split_ws(s).len() > 0 <==> exists|k: int| 0 <= k < s.len() && !is_ws_char(#[trigger] s[k]),
{
    if exists|k: int| 0 <= k < s.len() && !is_ws_char(#[trigger] s[k]) {
        lemma_aux_has_token(s, 0, Seq::empty(), Seq::empty());
    } else {
        lemma_aux_all_ws(s, 0, Seq::empty());
    }
}

/// The first position at or after `i + 1` where the token starting at `i`
/// ends: the next whitespace character, or the end of the string.
fn token_end(s: &str, i: usize, n: usize) -> (j: usize)
    requires
        n == s@.len(),
        i < n,
        !is_ws_char(s@[i as int]),
    ensures
        i < j <= n,
        forall|k: int| i <= k < j ==> !is_ws_char(#[trigger] s@[k]),
        j < n ==> is_ws_char(s@[j as int]),
{
    let mut j: usize = i + 1;
    while j < n
        invariant
            n == s@.len(),
            i < j <= n,
            forall|k: int| i <= k < j ==> !is_ws_char(#[trigger] s@[k]),
        decreases n - j,
    {
        if is_ws(s.get_char(j)) {
            return j;
        }
        j = j + 1;
    }
    j
}

/// The whitespace-separated tokens of `s`, each as an owned string.
pub fn split_whitespace_owned(s: &str) -> (tokens: Vec<String>)
    ensures
        tokens.deep_view() == split_ws(s@),
{
    let n = s.unicode_len();
    let mut tokens: Vec<String> = Vec::new();
    proof {
        assert(tokens.deep_view() =~= Seq::<Seq<char>>::empty());
    }
    let mut i: usize = 0;
    while i < n
        invariant
            n == s@.len(),
            i <= n,
            split_ws(s@) == split_ws_aux(s@, i as int, Seq::empty(), tokens.deep_view()),
        decreases n - i,
    {
        if is_ws(s.get_char(i)) {
            i = i + 1;
        } else {
            let ghost pre = tokens.deep_view();
            let j = token_end(s, i, n);
            let tok = s.substring_char(i, j).to_owned();
            proof {
                lemma_aux_run(s@, i as int, j as int, pre);
            }
            tokens.push(tok);
            proof {
                assert(tokens.deep_view() =~= pre.push(tok@));
                assert(tok@ == s@.subrange(i as int, j as int));
                if j < n {
                    assert(split_ws_aux(s@, j as int, tok@, pre) == split_ws_aux(
                        s@,
                        j as int + 1,
                        Seq::empty(),
                        pre.push(tok@),
                    ));
                    assert(split_ws_aux(s@, j as int, Seq::empty(), pre.push(tok@))
                        == split_ws_aux(s@, j as int + 1, Seq::empty(), pre.push(tok@)));
                }
            }
            i = j;
        }
    }
    proof {
        assert(tokens.deep_view() =~= split_ws(s@));
    }
    tokens
}

/// `s` is a well-formed fragment: non-empty and not all whitespace.
pub fn fragment_ok(s: &str) -> (b: bool)
    ensures
        b == wf_fragment(s@),
{
    let n = s.unicode_len();
    let mut i: usize = 0;
    while i < n
        invariant
            n == s@.len(),
            i <= n,
            forall|k: int| 0 <= k < i ==> is_ws_char(#[trigger] s@[k]),
        decreases n - i,
    {
        if !is_ws(s.get_char(i)) {
            return true;
        }
        i = i + 1;
    }
    false
}

fn str_contains_ws(s: &str) -> (b: bool)
    ensures
        b == contains_ws(s@),
{
    let n = s.unicode_len();
    let mut i: usize = 0;
    while i < n
        invariant
            n == s@.len(),
            i <= n,
            forall|k: int| 0 <= k < i ==> !is_ws_char(#[trigger] s@[k]),
        decreases n - i,
    {
        if is_ws(s.get_char(i)) {
            return true;
        }
        i = i + 1;
    }
    false
}

/// A validated command specification: the program to run and its arguments.
#[derive(Debug, Clone)]
pub struct ProgramSpec {
    pub program: String,
    pub args: Vec<String>,
}

impl ProgramSpec {
    /// Every fragment is non-empty and not all whitespace.
    pub open spec fn wf(self) -> bool {
        wf_fragment(self.program@) && forall|i: int|
            0 <= i < self.args.deep_view().len() ==> wf_fragment(#[trigger] self.args.deep_view()[i])
    }
}

/// A fragment with whitespace is rendered in double quotes, one without
/// is rendered bare.
pub open spec fn quoted(t: Seq<char>) -> Seq<char> {
    if contains_ws(t) {
        "\""@ + t + "\""@
    } else {
        t
    }
}

pub open spec fn rendered_args(args: Seq<Seq<char>>) -> Seq<char>
    decreases args.len(),
{
    if args.len() == 0 {
        Seq::empty()
    } else {
        " "@ + quoted(args[0]) + rendered_args(args.skip(1))
    }
}

/// The display form of a command specification: the program, then each
/// argument, separated by single spaces, each fragment quoted iff it
/// contains whitespace.
pub open spec fn rendered(program: Seq<char>, args: Seq<Seq<char>>) -> Seq<char> {
    quoted(program) + rendered_args(args)
}

proof fn lemma_rendered_args_snoc(args: Seq<Seq<char>>, t: Seq<char>)
    ensures
        rendered_args(args.push(t)) == rendered_args(args) + " "@ + quoted(t),
    decreases args.len(),
{
    let p = args.push(t);
    if args.len() == 0 {
        assert(p[0] == t);
        assert(p.skip(1) =~= Seq::<Seq<char>>::empty());
        assert(rendered_args(p.skip(1)) == Seq::<char>::empty());
        assert(rendered_args(p) == " "@ + quoted(t) + rendered_args(p.skip(1)));
        assert(rendered_args(p) =~= rendered_args(args) + " "@ + quoted(t));
    } else {
        assert(p.skip(1) =~= args.skip(1).push(t));
        assert(p[0] == args[0]);
        lemma_rendered_args_snoc(args.skip(1), t);
        assert(rendered_args(p) == " "@ + quoted(args[0]) + rendered_args(args.skip(1).push(t)));
        assert(rendered_args(args) == " "@ + quoted(args[0]) + rendered_args(args.skip(1)));
        assert(rendered_args(p) =~= rendered_args(args) + " "@ + quoted(t));
    }
}

fn append_quoted(out: &mut String, t: &str)
    ensures
        final(out)@ == old(out)@ + quoted(t@),
{
    if str_contains_ws(t) {
        out.append("\"");
        out.append(t);
        out.append("\"");
        proof {
            assert(out@ =~= old(out)@ + quoted(t@));
        }
    } else {
        out.append(t);
    }
}

impl ProgramSpec {
    /// The display form: fragments separated by spaces, quoted where they
    /// contain whitespace.
    pub fn render(&self) -> (r: String)
        ensures
            r@ == rendered(self.program@, self.args.deep_view()),
    {
        let mut out = String::new();
        append_quoted(&mut out, self.program.as_str());
        let ghost args = self.args.deep_view();
        let mut i: usize = 0;
        while i < self.args.len()
            invariant
                args == self.args.deep_view(),
                args.len() == self.args@.len(),
                i <= args.len(),
                out@ == rendered(self.program@, args.subrange(0, i as int)),
            decreases args.len() - i,
        {
            proof {
                assert(args.subrange(0, i as int).push(args[i as int]) =~= args.subrange(
                    0,
                    i as int + 1,
                ));
                lemma_rendered_args_snoc(args.subrange(0, i as int), args[i as int]);
            }
            out.append(" ");
            append_quoted(&mut out, self.args[i].as_str());
            proof {
                assert(out@ =~= rendered(self.program@, args.subrange(0, i as int + 1)));
            }
            i = i + 1;
        }
        proof {
            assert(args.subrange(0, args.len() as int) =~= args);
        }
        out
    }
}

} // verus!
