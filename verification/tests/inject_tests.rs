use devloop::inject::{find_unguarded_body_close, inject_into, inject_reload_script};
use devloop::script::{port_to_string, reload_script};

fn script_text(port: u16) -> String {
    format!(
        "<script>\n(() => {{\n    const socket = new WebSocket(\"ws://\" + location.hostname + \":{}/\");\n    socket.addEventListener(\"close\", () => location.reload());\n}})();\n</script>",
        port
    )
}

#[test]
fn injection_skips_commented_close_tag() {
    // The first `</body>` sits inside a comment; the script must go before
    // the second, real one.
    let input = b"<html><!--</body>--><p>x</p></body></html>";
    assert_eq!(find_unguarded_body_close(input), Some(28));
    let out = inject_into(input, b"[S]");
    assert_eq!(out, b"<html><!--</body>--><p>x</p>[S]</body></html>".to_vec());
}

#[test]
fn injection_before_first_unguarded_close_tag() {
    let input = b"<html><body>hi</body><p></body></html>";
    let out = inject_into(input, b"[S]");
    assert_eq!(out, b"<html><body>hi[S]</body><p></body></html>".to_vec());
}

#[test]
fn injection_appends_when_no_close_tag() {
    let input = b"plain text, no closing tag";
    let script = b"[the script]";
    let out = inject_into(input, script);
    let mut expected = input.to_vec();
    expected.extend_from_slice(script);
    assert_eq!(out, expected);
    assert_eq!(out.len(), input.len() + script.len());
}

#[test]
fn injection_appends_to_empty_buffer() {
    let out = inject_into(b"", b"[S]");
    assert_eq!(out, b"[S]".to_vec());
}

#[test]
fn injection_ignores_unclosed_comment() {
    // A comment that never ends guards everything after it.
    let input = b"<html><!--</body></html>";
    assert_eq!(find_unguarded_body_close(input), None);
}

#[test]
fn injection_comment_reopens() {
    // After `-->` the scan is outside the comment again.
    let input = b"<!--x--></body>";
    assert_eq!(find_unguarded_body_close(input), Some(8));
}

#[test]
fn port_renders_in_decimal() {
    assert_eq!(port_to_string(0), "0");
    assert_eq!(port_to_string(7), "7");
    assert_eq!(port_to_string(8080), "8080");
    assert_eq!(port_to_string(65535), "65535");
}

#[test]
fn reload_script_carries_port() {
    assert_eq!(reload_script(8080), script_text(8080));
    assert_eq!(reload_script(1), script_text(1));
}

#[test]
fn reload_injection_end_to_end() {
    let input = b"<html><body>hello</body></html>";
    let out = inject_reload_script(input, 3001).expect("body fits");
    let mut expected = b"<html><body>hello".to_vec();
    expected.extend_from_slice(script_text(3001).as_bytes());
    expected.extend_from_slice(b"</body></html>");
    assert_eq!(out, expected);
}
