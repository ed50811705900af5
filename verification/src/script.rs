//! The reload client script: a fixed `<script>` block whose payload opens a
//! WebSocket to the reload port and reloads the page when that socket closes
//! unexpectedly.

use vstd::prelude::*;
use vstd::string::*;

verus! {

/// The character for the decimal digit `d`.
pub open spec fn digit_char(d: nat) -> char {
    ((0x30 + d) as u8) as char
}

/// The decimal digits of `n`, most significant first, no leading zeros
/// (`0` is written as one digit).
pub open spec fn dec_chars(n: nat) -> Seq<char>
    decreases n,
{
    if n < 10 {
        seq![digit_char(n)]
    } else {
        dec_chars(n / 10) + seq![digit_char(n % 10)]
    }
}

fn digit_str(d: u8) -> (s: &'static str)
    requires
        d < 10,
    ensures
        s@ == seq![digit_char(d as nat)],
{
    proof {
        reveal_strlit("0");
        reveal_strlit("1");
        reveal_strlit("2");
        reveal_strlit("3");
        reveal_strlit("4");
        reveal_strlit("5");
        reveal_strlit("6");
        reveal_strlit("7");
        reveal_strlit("8");
        reveal_strlit("9");
    }
    match d {
        0 => "0",
        1 => "1",
        2 => "2",
        3 => "3",
        4 => "4",
        5 => "5",
        6 => "6",
        7 => "7",
        8 => "8",
        _ => "9",
    }
}

/// The decimal rendering of a port number.
pub fn port_to_string(n: u16) -> (s: String)
    ensures
        s@ == dec_chars(n as nat),
    decreases n,
{
    if n < 10 {
        String::from_str(digit_str(n as u8))
    } else {
        let mut s = port_to_string(n / 10);
        s.append(digit_str((n % 10) as u8));
        s
    }
}

/// Everything of the script that comes before the port number.
pub open spec fn script_prefix() -> Seq<char> {
    "<script>\n(() => {\n    const socket = new WebSocket(\"ws://\" + location.hostname + \":"@
}

/// Everything of the script that comes after the port number.
pub open spec fn script_suffix() -> Seq<char> {
    "/\");\n    socket.addEventListener(\"close\", () => location.reload());\n})();\n</script>"@
}

/// The full text of the injected block for a given reload port.
pub open spec fn reload_script_text(port: nat) -> Seq<char> {
    script_prefix() + dec_chars(port) + script_suffix()
}

/// Build the `<script>` block that carries the reload client, parameterized
/// with the port the reload channel listens on.
pub fn reload_script(port: u16) -> (s: String)
    ensures
        s@ == reload_script_text(port as nat),
{
    let mut s = String::from_str(
        "<script>\n(() => {\n    const socket = new WebSocket(\"ws://\" + location.hostname + \":",
    );
    let digits = port_to_string(port);
    s.append(digits.as_str());
    s.append(
        "/\");\n    socket.addEventListener(\"close\", () => location.reload());\n})();\n</script>",
    );
    s
}

/// The injected block as bytes, ready to be spliced into an HTML body.
pub fn reload_script_bytes(port: u16) -> (b: Vec<u8>)
    ensures
        b@ == vstd::utf8::encode_utf8(reload_script_text(port as nat)),
{
    let s = reload_script(port);
    s.as_str().as_bytes_vec()
}

} // verus!
