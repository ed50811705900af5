//! Rewriting an HTML body so that it carries the reload client script.
//!
//! The script is placed immediately before the first `</body>` tag that does
//! not sit inside an HTML comment (`<!--` ... `-->`); if no such tag exists,
//! the script is appended at the end of the document.

use vstd::prelude::*;

verus! {

/// `</body>` starts at byte position `i` of `s`.
pub open spec fn body_close_at(s: Seq<u8>, i: int) -> bool {
    &&& 0 <= i
    &&& i + 7 <= s.len()
    &&& s[i] == 0x3Cu8
    &&& s[i + 1] == 0x2Fu8
    &&& s[i + 2] == 0x62u8
    &&& s[i + 3] == 0x6Fu8
    &&& s[i + 4] == 0x64u8
    &&& s[i + 5] == 0x79u8
    &&& s[i + 6] == 0x3Eu8
}

/// `<!--` starts at byte position `i` of `s`.
pub open spec fn comment_open_at(s: Seq<u8>, i: int) -> bool {
    &&& 0 <= i
    &&& i + 4 <= s.len()
    &&& s[i] == 0x3Cu8
    &&& s[i + 1] == 0x21u8
    &&& s[i + 2] == 0x2Du8
    &&& s[i + 3] == 0x2Du8
}

/// `-->` starts at byte position `i` of `s`.
pub open spec fn comment_close_at(s: Seq<u8>, i: int) -> bool {
    &&& 0 <= i
    &&& i + 3 <= s.len()
    &&& s[i] == 0x2Du8
    &&& s[i + 1] == 0x2Du8
    &&& s[i + 2] == 0x3Eu8
}

/// One linear pass from position `i` with in-comment state `inside`: the
/// position of the first `</body>` that is met outside a comment, if any.
pub open spec fn scan(s: Seq<u8>, i: int, inside: bool) -> Option<int>
    decreases s.len() - i,
{
    if i >= s.len() {
        None
    } else if !inside && body_close_at(s, i) {
        Some(i)
    } else {
        let next = if !inside && comment_open_at(s, i) {
            true
        } else if inside && comment_close_at(s, i) {
            false
        } else {
            inside
        };
        scan(s, i + 1, next)
    }
}

/// Where the script goes: before the first unguarded `</body>`, or at the
/// very end when there is none.
pub open spec fn injection_point(s: Seq<u8>) -> int {
    match scan(s, 0, false) {
        Some(i) => i,
        None => s.len() as int,
    }
}

/// The in-comment state that the scan carries when it reaches position `i`
/// (`false` at the start of the buffer).
pub open spec fn in_comment_at(s: Seq<u8>, i: int) -> bool
    decreases i,
{
    if i <= 0 {
        false
    } else {
        let prev = in_comment_at(s, i - 1);
        if !prev && comment_open_at(s, i - 1) {
            true
        } else if prev && comment_close_at(s, i - 1) {
            false
        } else {
            prev
        }
    }
}

fn body_close_tag_at(s: &[u8], i: usize) -> (b: bool)
    requires
        i <= s@.len(),
    ensures
        b == body_close_at(s@, i as int),
{
    s.len() - i >= 7 && s[i] == 0x3Cu8 && s[i + 1] == 0x2Fu8 && s[i + 2] == 0x62u8 && s[i + 3] == 0x6Fu8
        && s[i + 4] == 0x64u8 && s[i + 5] == 0x79u8 && s[i + 6] == 0x3Eu8
}

fn comment_open_tag_at(s: &[u8], i: usize) -> (b: bool)
    requires
        i <= s@.len(),
    ensures
        b == comment_open_at(s@, i as int),
{
    s.len() - i >= 4 && s[i] == 0x3Cu8 && s[i + 1] == 0x21u8 && s[i + 2] == 0x2Du8 && s[i + 3] == 0x2Du8
}

fn comment_close_tag_at(s: &[u8], i: usize) -> (b: bool)
    requires
        i <= s@.len(),
    ensures
        b == comment_close_at(s@, i as int),
{
    s.len() - i >= 3 && s[i] == 0x2Du8 && s[i + 1] == 0x2Du8 && s[i + 2] == 0x3Eu8
}

/// The position of the first `</body>` of `input` that stands outside an
/// HTML comment, found in a single pass that tracks the in-comment state.
pub fn find_unguarded_body_close(input: &[u8]) -> (r: Option<usize>)
    ensures
        scan(input@, 0, false) == (match r {
            Some(i) => Some(i as int),
            None => None::<int>,
        }),
{
    let mut i: usize = 0;
    let mut inside: bool = false;
    while i < input.len()
        invariant
            i <= input@.len(),
            scan(input@, 0, false) == scan(input@, i as int, inside),
        decreases input@.len() - i,
    {
        if !inside && body_close_tag_at(input, i) {
            return Some(i);
        }
        if !inside && comment_open_tag_at(input, i) {
            inside = true;
        } else if inside && comment_close_tag_at(input, i) {
            inside = false;
        }
        i = i + 1;
    }
    None
}

/// Rewrite `input` so that `script` stands at the injection point: before
/// the first unguarded `</body>`, or appended at the end when there is none.
/// The output always holds every input byte plus every script byte.
pub fn inject_into(input: &[u8], script: &[u8]) -> (out: Vec<u8>)
    requires
        input@.len() + script@.len() <= usize::MAX,
    ensures
        out@ == input@.subrange(0, injection_point(input@)) + script@ + input@.subrange(
            injection_point(input@),
            input@.len() as int,
        ),
        out@.len() == input@.len() + script@.len(),
{
    let idx: usize = match find_unguarded_body_close(input) {
        Some(i) => i,
        None => input.len(),
    };
    proof {
        lemma_scan_hit_is_close(input@, 0, false);
        assert(idx as int == injection_point(input@));
    }
    let mut out: Vec<u8> = Vec::new();
    let mut k: usize = 0;
    while k < idx
        invariant
            idx <= input@.len(),
            k <= idx,
            out@ == input@.subrange(0, k as int),
        decreases idx - k,
    {
        out.push(input[k]);
        k = k + 1;
    }
    let mut k: usize = 0;
    while k < script.len()
        invariant
            idx <= input@.len(),
            k <= script@.len(),
            out@ == input@.subrange(0, idx as int) + script@.subrange(0, k as int),
        decreases script@.len() - k,
    {
        proof {
            assert(script@.subrange(0, k as int).push(script@[k as int]) =~= script@.subrange(
                0,
                k as int + 1,
            ));
        }
        out.push(script[k]);
        k = k + 1;
    }
    proof {
        assert(script@.subrange(0, script@.len() as int) =~= script@);
    }
    let mut k: usize = idx;
    while k < input.len()
        invariant
            idx <= k <= input@.len(),
            out@ == input@.subrange(0, idx as int) + script@ + input@.subrange(
                idx as int,
                k as int,
            ),
        decreases input@.len() - k,
    {
        proof {
            assert((input@.subrange(0, idx as int) + script@ + input@.subrange(
                idx as int,
                k as int,
            )).push(input@[k as int]) =~= input@.subrange(0, idx as int) + script@
                + input@.subrange(idx as int, k as int + 1));
        }
        out.push(input[k]);
        k = k + 1;
    }
    proof {
        assert(out@ =~= input@.subrange(0, idx as int) + script@ + input@.subrange(
            idx as int,
            input@.len() as int,
        ));
    }
    out
}

/// Rewrite an HTML body with the reload client script for `port`:
/// best-effort, so a body that could not take the script without
/// overflowing an address-space-sized length comes back as `None` and the
/// caller serves the body untouched.
pub fn inject_reload_script(input: &[u8], port: u16) -> (out: Option<Vec<u8>>)
    ensures
        out matches Some(v) ==> v@ == input@.subrange(0, injection_point(input@))
            + vstd::utf8::encode_utf8(crate::script::reload_script_text(port as nat))
            + input@.subrange(injection_point(input@), input@.len() as int),
        out is None <==> input@.len() + vstd::utf8::encode_utf8(
            crate::script::reload_script_text(port as nat),
        ).len() > usize::MAX,
{
    let script = crate::script::reload_script_bytes(port);
    if input.len() <= usize::MAX - script.len() {
        Some(inject_into(input, script.as_slice()))
    } else {
        None
    }
}

/// A successful scan always points at a `</body>` tag.
proof fn lemma_scan_hit_is_close(s: Seq<u8>, i: int, inside: bool)
    ensures
        scan(s, i, inside) matches Some(k) ==> i <= k && body_close_at(s, k),
    decreases s.len() - i,
{
    if i < s.len() && !(!inside && body_close_at(s, i)) {
        let next = if !inside && comment_open_at(s, i) {
            true
        } else if inside && comment_close_at(s, i) {
            false
        } else {
            inside
        };
        lemma_scan_hit_is_close(s, i + 1, next);
    }
}

proof fn lemma_scan_from_state(s: Seq<u8>, i: int)
    requires
        0 <= i <= s.len(),
    ensures
        match scan(s, i, in_comment_at(s, i)) {
            Some(k) => {
                &&& i <= k < s.len()
                &&& body_close_at(s, k)
                &&& !in_comment_at(s, k)
                &&& forall|j: int|
                    i <= j < k && body_close_at(s, j) ==> in_comment_at(s, j)
            },
            None => forall|j: int| i <= j < s.len() && body_close_at(s, j) ==> in_comment_at(s, j),
        },
    decreases s.len() - i,
{
    if i < s.len() {
        if !in_comment_at(s, i) && body_close_at(s, i) {
        } else {
            assert(scan(s, i, in_comment_at(s, i)) == scan(s, i + 1, in_comment_at(s, i + 1)));
            lemma_scan_from_state(s, i + 1);
        }
    }
}

/// The law of the injection scan: the scan finds exactly the first `</body>`
/// that stands outside a comment, and reports none only when every `</body>`
/// of the buffer is commented out.
pub proof fn lemma_first_unguarded(s: Seq<u8>)
    ensures
        match scan(s, 0, false) {
            Some(k) => {
                &&& 0 <= k < s.len()
                &&& body_close_at(s, k)
                &&& !in_comment_at(s, k)
                &&& forall|j: int|
                    0 <= j < k && body_close_at(s, j) ==> in_comment_at(s, j)
            },
            None => forall|j: int| 0 <= j < s.len() && body_close_at(s, j) ==> in_comment_at(s, j),
        },
{
    lemma_scan_from_state(s, 0);
}

/// The fallback law: a buffer with no `</body>` at all is left untouched and
/// the script is appended at its end.
pub proof fn lemma_append_when_no_close(s: Seq<u8>)
    requires
        forall|j: int| 0 <= j < s.len() ==> !body_close_at(s, j),
    ensures
        injection_point(s) == s.len(),
{
    lemma_scan_hit_is_close(s, 0, false);
}

} // verus!
