//! The cloud-init document that starts a tunnel server.
use vstd::prelude::*;
use base64::Engine;
use crate::text::{contains, decimal, lemma_contains_middle, lemma_decimal_digits, u64_to_decimal};

verus! {

/// A lower-case hexadecimal digit.
pub open spec fn hex_digit(d: u32) -> char {
    if d < 10 {
        ((d + 0x30) as u8) as char
    } else {
        ((d - 10 + 0x61) as u8) as char
    }
}

/// How JSON writes one character inside a string literal: quote, backslash and
/// control characters escaped, with the short forms where JSON has them.
pub open spec fn json_escape_char(c: char) -> Seq<char> {
    if c == '"' {
        seq!['\\', '"']
    } else if c == '\\' {
        seq!['\\', '\\']
    } else if c == '\x08' {
        seq!['\\', 'b']
    } else if c == '\t' {
        seq!['\\', 't']
    } else if c == '\n' {
        seq!['\\', 'n']
    } else if c == '\x0c' {
        seq!['\\', 'f']
    } else if c == '\r' {
        seq!['\\', 'r']
    } else if (c as u32) < 0x20 {
        seq!['\\', 'u', '0', '0', hex_digit((c as u32) / 16), hex_digit((c as u32) % 16)]
    } else {
        seq![c]
    }
}

/// The body of a JSON string literal for `s`.
pub open spec fn json_escape(s: Seq<char>) -> Seq<char>
    decreases s.len(),
{
    if s.len() == 0 {
        Seq::empty()
    } else {
        json_escape(s.drop_last()) + json_escape_char(s.last())
    }
}

/// The JSON string literal for `s`.
pub open spec fn json_quoted(s: Seq<char>) -> Seq<char> {
    seq!['"'] + json_escape(s) + seq!['"']
}

/// A character that JSON writes as itself.
pub open spec fn json_plain_char(c: char) -> bool {
    c != '"' && c != '\\' && (c as u32) >= 0x20
}

/// Text that JSON writes as itself.
pub open spec fn json_plain(s: Seq<char>) -> bool {
    forall|i: int| 0 <= i < s.len() ==> json_plain_char(#[trigger] s[i])
}

/// Relies on `serde_json::to_string` on a `str`: a JSON string literal, escaped
/// as serde_json's escape table says. Serialising a string cannot fail.
#[verifier::external_body]
fn json_string(s: &str) -> (r: String)
    ensures
        r@ == json_quoted(s@),
{
    serde_json::to_string(s).unwrap_or_default()
}

/// Commands that install and start the tunnel server.
pub const INSTALL_COMMAND: &'static str = "curl https://i.jpillora.com/chisel! | bash";
pub const ENABLE_COMMAND: &'static str = "systemctl enable --now chisel";
/// Where the unit file and the environment file go.
pub const UNIT_PATH: &'static str = "/etc/systemd/system/chisel.service";
pub const ENV_PATH: &'static str = "/etc/sysconfig/chisel";
/// The unit file around its `ExecStart` line.
pub const UNIT_HEAD: &'static str = "\n[Unit]\nDescription=Chisel Tunnel\nWants=network-online.target\nAfter=network-online.target\nStartLimitIntervalSec=0\n\n[Install]\nWantedBy=multi-user.target\n\n[Service]\nRestart=always\nRestartSec=1\nUser=root\n# You can add any additional flags here\n# This example uses port 9090 for the tunnel socket. `--reverse` is required for our use case.\n";
pub const UNIT_TAIL: &'static str = "\n# Additional .env file for auth and secrets\nEnvironmentFile=-/etc/sysconfig/chisel\nPassEnvironment=AUTH\n";
/// The start of the `ExecStart` line, up to the port.
pub const EXEC_START: &'static str = "ExecStart=/usr/local/bin/chisel server ";
pub const PORT_FLAG: &'static str = "--port=";
pub const EXEC_AUTH: &'static str = " --reverse --auth ";

/// The line that starts the server: on `port`, in reverse mode, with the credentials `auth`.
pub open spec fn exec_start_line(auth: Seq<char>, port: u16) -> Seq<char> {
    EXEC_START@ + PORT_FLAG@ + decimal(port as nat) + EXEC_AUTH@ + auth
}

/// The systemd unit of the tunnel server.
pub open spec fn unit_file(auth: Seq<char>, port: u16) -> Seq<char> {
    UNIT_HEAD@ + exec_start_line(auth, port) + UNIT_TAIL@
}

/// The environment file of the tunnel server.
pub open spec fn env_file(auth: Seq<char>) -> Seq<char> {
    "AUTH="@ + auth + "\n"@
}

/// The cloud-init document: `#cloud-config`, then as JSON the commands to run
/// and the two files to write, keys in sorted order.
pub open spec fn cloud_init_doc(auth: Seq<char>, port: u16) -> Seq<char> {
    "#cloud-config\n{\"runcmd\":["@ + json_quoted(INSTALL_COMMAND@) + ","@ + json_quoted(
        ENABLE_COMMAND@,
    ) + "],\"write_files\":[{\"content\":"@ + json_quoted(unit_file(auth, port))
        + ",\"path\":"@ + json_quoted(UNIT_PATH@) + "},{\"content\":"@ + json_quoted(
        env_file(auth),
    ) + ",\"path\":"@ + json_quoted(ENV_PATH@) + "}]}"@
}

/// The cloud-init document that starts a tunnel server on `port` with the
/// credentials `auth_string` (`<user>:<password>`).
pub fn generate_cloud_init_config(auth_string: &str, port: u16) -> (r: String)
    ensures
        r@ == cloud_init_doc(auth_string@, port),
{
    let port_text = u64_to_decimal(port as u64);
    let mut unit = String::from_str(UNIT_HEAD);
    unit.append(EXEC_START);
    unit.append(PORT_FLAG);
    unit.append(port_text.as_str());
    unit.append(EXEC_AUTH);
    unit.append(auth_string);
    unit.append(UNIT_TAIL);
    let mut env = String::from_str("AUTH=");
    env.append(auth_string);
    env.append("\n");
    let mut doc = String::from_str("#cloud-config\n{\"runcmd\":[");
    doc.append(json_string(INSTALL_COMMAND).as_str());
    doc.append(",");
    doc.append(json_string(ENABLE_COMMAND).as_str());
    doc.append("],\"write_files\":[{\"content\":");
    doc.append(json_string(unit.as_str()).as_str());
    doc.append(",\"path\":");
    doc.append(json_string(UNIT_PATH).as_str());
    doc.append("},{\"content\":");
    doc.append(json_string(env.as_str()).as_str());
    doc.append(",\"path\":");
    doc.append(json_string(ENV_PATH).as_str());
    doc.append("}]}");
    assert(unit@ =~= unit_file(auth_string@, port));
    assert(env@ =~= env_file(auth_string@));
    assert(doc@ =~= cloud_init_doc(auth_string@, port));
    doc
}

/// The standard base64 encoding (with padding) of the UTF-8 bytes of a text.
pub uninterp spec fn base64_of(text: Seq<char>) -> Seq<char>;

/// Relies on base64's `STANDARD` engine, `Engine::encode`: the padded standard
/// encoding of the bytes, which is empty for no bytes.
#[verifier::external_body]
fn base64_standard(text: &str) -> (r: String)
    ensures
        r@ == base64_of(text@),
        text@.len() == 0 ==> r@.len() == 0,
{
    base64::engine::general_purpose::STANDARD.encode(text)
}

/// The cloud-init document, base64-encoded as the machine's user data.
pub fn generate_user_data(auth_string: &str, port: u16) -> (r: String)
    ensures
        r@ == base64_of(cloud_init_doc(auth_string@, port)),
{
    let doc = generate_cloud_init_config(auth_string, port);
    base64_standard(doc.as_str())
}

proof fn lemma_json_escape_concat(a: Seq<char>, b: Seq<char>)
    ensures
        json_escape(a + b) == json_escape(a) + json_escape(b),
    decreases b.len(),
{
    if b.len() == 0 {
        assert(a + b =~= a);
        assert(json_escape(b) =~= Seq::empty());
        assert(json_escape(a) + json_escape(b) =~= json_escape(a));
    } else {
        lemma_json_escape_concat(a, b.drop_last());
        assert((a + b).drop_last() =~= a + b.drop_last());
        assert((a + b).last() == b.last());
        assert(json_escape(a) + json_escape(b.drop_last()) + json_escape_char(b.last()) =~= json_escape(a)
            + (json_escape(b.drop_last()) + json_escape_char(b.last())));
    }
}

proof fn lemma_json_escape_plain(s: Seq<char>)
    requires
        json_plain(s),
    ensures
        json_escape(s) == s,
    decreases s.len(),
{
    if s.len() > 0 {
        assert(json_plain(s.drop_last()));
        lemma_json_escape_plain(s.drop_last());
        assert(json_plain_char(s[s.len() - 1]));
        assert(s.drop_last().push(s.last()) =~= s);
    }
}

proof fn lemma_json_plain_concat(a: Seq<char>, b: Seq<char>)
    requires
        json_plain(a),
        json_plain(b),
    ensures
        json_plain(a + b),
{
    assert forall|i: int| 0 <= i < (a + b).len() implies json_plain_char(#[trigger] (a + b)[i]) by {
        if i < a.len() {
            assert((a + b)[i] == a[i]);
        } else {
            assert((a + b)[i] == b[i - a.len()]);
        }
    }
}

proof fn lemma_decimal_plain(n: nat)
    ensures
        json_plain(decimal(n)),
{
    lemma_decimal_digits(n);
}

proof fn lemma_plain_literals()
    ensures
        json_plain("AUTH="@),
        json_plain(EXEC_START@),
        json_plain(PORT_FLAG@),
        json_plain(EXEC_AUTH@),
        json_escape("\n"@) == seq!['\\', 'n'],
{
    reveal_strlit("AUTH=");
    reveal_strlit("\n");
    reveal_strlit("ExecStart=/usr/local/bin/chisel server ");
    reveal_strlit("--port=");
    reveal_strlit(" --reverse --auth ");
    assert("\n"@.drop_last() =~= Seq::<char>::empty());
    assert(json_escape("\n"@) =~= json_escape(Seq::<char>::empty()) + json_escape_char('\n'));
}

proof fn lemma_env_line(auth: Seq<char>, port: u16)
    requires
        json_plain(auth),
    ensures
        contains(cloud_init_doc(auth, port), "AUTH="@ + auth),
{
    let doc = cloud_init_doc(auth, port);
    lemma_plain_literals();
    let line = "AUTH="@ + auth;
    lemma_json_plain_concat("AUTH="@, auth);
    lemma_json_escape_plain(line);
    lemma_json_escape_concat(line, "\n"@);
    assert(env_file(auth) =~= line + "\n"@);
    let pre_env = "#cloud-config\n{\"runcmd\":["@ + json_quoted(INSTALL_COMMAND@) + ","@ + json_quoted(
        ENABLE_COMMAND@,
    ) + "],\"write_files\":[{\"content\":"@ + json_quoted(unit_file(auth, port))
        + ",\"path\":"@ + json_quoted(UNIT_PATH@) + "},{\"content\":"@ + seq!['"'];
    let post_env = seq!['"'] + ",\"path\":"@ + json_quoted(ENV_PATH@) + "}]}"@;
    assert(doc =~= pre_env + line + (json_escape("\n"@) + post_env));
    lemma_contains_middle(pre_env, line, json_escape("\n"@) + post_env);
}

proof fn lemma_exec_line(auth: Seq<char>, port: u16)
    requires
        json_plain(auth),
    ensures
        contains(cloud_init_doc(auth, port), exec_start_line(auth, port)),
        contains(cloud_init_doc(auth, port), PORT_FLAG@ + decimal(port as nat)),
{
    let doc = cloud_init_doc(auth, port);
    lemma_plain_literals();
    let exec = exec_start_line(auth, port);
    lemma_decimal_plain(port as nat);
    lemma_json_plain_concat(EXEC_START@, PORT_FLAG@);
    lemma_json_plain_concat(EXEC_START@ + PORT_FLAG@, decimal(port as nat));
    lemma_json_plain_concat(EXEC_START@ + PORT_FLAG@ + decimal(port as nat), EXEC_AUTH@);
    lemma_json_plain_concat(EXEC_START@ + PORT_FLAG@ + decimal(port as nat) + EXEC_AUTH@, auth);
    lemma_json_escape_plain(exec);
    lemma_json_escape_concat(UNIT_HEAD@, exec);
    lemma_json_escape_concat(UNIT_HEAD@ + exec, UNIT_TAIL@);
    let pre_unit = "#cloud-config\n{\"runcmd\":["@ + json_quoted(INSTALL_COMMAND@) + ","@ + json_quoted(
        ENABLE_COMMAND@,
    ) + "],\"write_files\":[{\"content\":"@ + seq!['"'] + json_escape(UNIT_HEAD@);
    let post_unit = json_escape(UNIT_TAIL@) + seq!['"'] + ",\"path\":"@ + json_quoted(UNIT_PATH@)
        + "},{\"content\":"@ + json_quoted(env_file(auth)) + ",\"path\":"@ + json_quoted(ENV_PATH@)
        + "}]}"@;
    assert(json_escape(unit_file(auth, port)) == json_escape(UNIT_HEAD@) + exec + json_escape(UNIT_TAIL@));
    assert(doc =~= pre_unit + exec + post_unit);
    lemma_contains_middle(pre_unit, exec, post_unit);
    let port_part = PORT_FLAG@ + decimal(port as nat);
    assert(pre_unit + exec + post_unit =~= (pre_unit + EXEC_START@) + port_part + (EXEC_AUTH@ + auth + post_unit));
    lemma_contains_middle(pre_unit + EXEC_START@, port_part, EXEC_AUTH@ + auth + post_unit);
}

/// The document (a function of the credentials and the port alone) holds the
/// environment line `AUTH=<auth>`, the flag `--port=<port>` and the whole
/// `ExecStart` line, whenever the credentials are text that JSON writes as itself.
pub proof fn lemma_cloud_init_contents(auth: Seq<char>, port: u16)
    requires
        json_plain(auth),
    ensures
        contains(cloud_init_doc(auth, port), "AUTH="@ + auth),
        contains(cloud_init_doc(auth, port), PORT_FLAG@ + decimal(port as nat)),
        contains(cloud_init_doc(auth, port), exec_start_line(auth, port)),
{
    lemma_env_line(auth, port);
    lemma_exec_line(auth, port);
}

} // verus!
