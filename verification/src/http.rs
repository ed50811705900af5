//! The pure part of the proxy: deciding which responses get the reload
//! script, building the target URI a request is forwarded to, and the body
//! of the error page when the backend cannot be reached. The listener, the
//! forwarding itself and the response plumbing live with the caller.

use vstd::prelude::*;
use vstd::string::*;

verus! {

/// `text/html` as header bytes.
pub open spec fn text_html_prefix() -> Seq<u8> {
    seq![0x74u8, 0x65u8, 0x78u8, 0x74u8, 0x2Fu8, 0x68u8, 0x74u8, 0x6Du8, 0x6Cu8]
}

/// The content type announces HTML: its bytes begin with `text/html`.
pub open spec fn is_html_content_type(ct: Seq<u8>) -> bool {
    ct.len() >= 9 && ct.subrange(0, 9) == text_html_prefix()
}

/// A response body is rewritten iff live reload is on, the response names
/// a content type at all, and that content type begins with `text/html`.
pub fn should_inject(auto_reload: bool, content_type: Option<&[u8]>) -> (b: bool)
    ensures
        b == (auto_reload && (content_type matches Some(ct) && is_html_content_type(ct@))),
{
    if !auto_reload {
        return false;
    }
    match content_type {
        None => false,
        Some(ct) => {
            if ct.len() < 9 {
                return false;
            }
            let b = ct[0] == 0x74u8 && ct[1] == 0x65u8 && ct[2] == 0x78u8 && ct[3] == 0x74u8
                && ct[4] == 0x2Fu8 && ct[5] == 0x68u8 && ct[6] == 0x74u8 && ct[7] == 0x6Du8
                && ct[8] == 0x6Cu8;
            proof {
                if b {
                    assert(ct@.subrange(0, 9) =~= text_html_prefix());
                } else {
                    assert(ct@.subrange(0, 9)[0] == ct@[0]);
                    assert(ct@.subrange(0, 9)[1] == ct@[1]);
                    assert(ct@.subrange(0, 9)[2] == ct@[2]);
                    assert(ct@.subrange(0, 9)[3] == ct@[3]);
                    assert(ct@.subrange(0, 9)[4] == ct@[4]);
                    assert(ct@.subrange(0, 9)[5] == ct@[5]);
                    assert(ct@.subrange(0, 9)[6] == ct@[6]);
                    assert(ct@.subrange(0, 9)[7] == ct@[7]);
                    assert(ct@.subrange(0, 9)[8] == ct@[8]);
                }
            }
            b
        },
    }
}

/// The URI a request is forwarded to: the fixed backend authority with the
/// request's own path and query.
pub fn build_target_uri(authority: &str, path_and_query: &str) -> (r: String)
    ensures
        r@ == "http://"@ + authority@ + path_and_query@,
{
    let mut r = String::from_str("http://");
    r.append(authority);
    r.append(path_and_query);
    r
}

/// The plain-text body of the 502 answer when the backend cannot be
/// reached: the attempted URI and the failure.
pub fn bad_gateway_message(uri: &str, error: &str) -> (r: String)
    ensures
        r@ == "failed to reach "@ + uri@ + "\nError:\n\n"@ + error@,
{
    let mut r = String::from_str("failed to reach ");
    r.append(uri);
    r.append("\nError:\n\n");
    r.append(error);
    r
}

} // verus!
