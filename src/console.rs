//! Operator console commands.
use vstd::prelude::*;
use vstd::string::StringExecFns;
use crate::text::text_eq;
use crate::registry::SessionRegistry;
use crate::session::Session;
use vstd::string::StringSliceAdditionalSpecFns;

verus! {

/// An operator command.
#[derive(Clone, Debug)]
pub enum Command {
    /// Create an account with a preset of privileges.
    CreateAccount { login: String, password: String, access_level: String },
    /// Give an existing account a preset of privileges.
    SetAccess { login: String, access_level: String },
    /// Delete an account.
    DeleteAccount { login: String },
    /// List all accounts.
    ListAccounts,
    /// Disconnect a user, named by user id or nickname.
    Kick { target: String },
    /// Send a message to every connected user.
    Broadcast { message: String },
    /// List the connected users.
    ListUsers,
    /// Show the help.
    Help,
    /// Stop the server.
    Stop,
}

/// What `str::split_whitespace` makes of a text.
pub uninterp spec fn words_of(s: Seq<char>) -> Seq<Seq<char>>;

/// Relies on `str::split_whitespace`: the words of a text, separated by
/// Unicode white space; the result depends on the text alone.
#[verifier::external_body]
fn split_words(s: &str) -> (r: Vec<String>)
    ensures
        r@.map_values(|w: String| w@) == words_of(s@),
{
    s.split_whitespace().map(|w| w.to_string()).collect()
}

/// Words joined with single spaces.
pub open spec fn joined(ws: Seq<Seq<char>>) -> Seq<char>
    decreases ws.len(),
{
    if ws.len() == 0 {
        Seq::empty()
    } else if ws.len() == 1 {
        ws[0]
    } else {
        joined(ws.drop_last()) + " "@ + ws.last()
    }
}

/// The command that a list of words names, or the message explaining why it
/// names none.
pub open spec fn command_error(w: Seq<Seq<char>>) -> Option<Seq<char>> {
    if w.len() == 0 {
        Some("Empty command"@)
    } else if w[0] == "create-account"@ && w.len() < 3 {
        Some("Usage: create-account <login> <password> [admin|sysop|user|guest]"@)
    } else if w[0] == "set-access"@ && w.len() < 3 {
        Some("Usage: set-access <login> <admin|sysop|user|guest>"@)
    } else if w[0] == "delete-account"@ && w.len() < 2 {
        Some("Usage: delete-account <login>"@)
    } else if w[0] == "kick"@ && w.len() < 2 {
        Some("Usage: kick <user_id|nickname>"@)
    } else if w[0] == "broadcast"@ && w.len() < 2 {
        Some("Usage: broadcast <message>"@)
    } else if w[0] == "create-account"@ || w[0] == "set-access"@ || w[0] == "delete-account"@
        || w[0] == "list-accounts"@ || w[0] == "kick"@ || w[0] == "broadcast"@ || w[0]
        == "list-users"@ || w[0] == "help"@ || w[0] == "stop"@ || w[0] == "shutdown"@ || w[0]
        == "quit"@ || w[0] == "exit"@ {
        None
    } else {
        Some("Unknown command: '"@ + w[0] + "'"@)
    }
}

/// `c` is the command that the words `w` name (which they do).
pub open spec fn names_command(w: Seq<Seq<char>>, c: Command) -> bool {
    let k = w[0];
    match c {
        Command::CreateAccount { login, password, access_level } => k == "create-account"@
            && login@ == w[1] && password@ == w[2] && access_level@ == (if w.len() >= 4 {
            w[3]
        } else {
            "admin"@
        }),
        Command::SetAccess { login, access_level } => k == "set-access"@ && login@ == w[1]
            && access_level@ == w[2],
        Command::DeleteAccount { login } => k == "delete-account"@ && login@ == w[1],
        Command::ListAccounts => k == "list-accounts"@,
        Command::Kick { target } => k == "kick"@ && target@ == w[1],
        Command::Broadcast { message } => k == "broadcast"@ && message@ == joined(w.drop_first()),
        Command::ListUsers => k == "list-users"@,
        Command::Help => k == "help"@,
        Command::Stop => k == "stop"@ || k == "shutdown"@ || k == "quit"@ || k == "exit"@,
    }
}

fn owned(s: &str) -> (r: String)
    ensures
        r@ == s@,
{
    <String as StringExecFns>::from_str(s)
}

impl Command {
    /// The command that a list of words names.
    pub fn from_words(w: &Vec<String>) -> (r: Result<Self, String>)
        ensures
            ({
                let ws = w@.map_values(|x: String| x@);
                &&& command_error(ws) matches Some(e) ==> (r matches Err(m) && m@ == e)
                &&& command_error(ws) is None ==> (r matches Ok(c) && names_command(ws, c))
            }),
    {
        let ghost ws = w@.map_values(|x: String| x@);
        proof {
            reveal_strlit("create-account");
            reveal_strlit("set-access");
            reveal_strlit("delete-account");
            reveal_strlit("list-accounts");
            reveal_strlit("kick");
            reveal_strlit("broadcast");
            reveal_strlit("list-users");
            reveal_strlit("help");
            reveal_strlit("stop");
            reveal_strlit("shutdown");
            reveal_strlit("quit");
            reveal_strlit("exit");
        }
        let n = w.len();
        if n == 0 {
            return Err(owned("Empty command"));
        }
        let k = w[0].as_str();
        assert(ws[0] == k@);
        if text_eq(k, "create-account") {
            if n < 3 {
                return Err(owned("Usage: create-account <login> <password> [admin|sysop|user|guest]"));
            }
            let access_level = if n >= 4 {
                owned(w[3].as_str())
            } else {
                owned("admin")
            };
            assert(ws[1] == w@[1]@ && ws[2] == w@[2]@);
            assert(n >= 4 ==> ws[3] == w@[3]@);
            return Ok(
                Command::CreateAccount {
                    login: owned(w[1].as_str()),
                    password: owned(w[2].as_str()),
                    access_level,
                },
            );
        }
        if text_eq(k, "set-access") {
            if n < 3 {
                return Err(owned("Usage: set-access <login> <admin|sysop|user|guest>"));
            }
            assert(ws[1] == w@[1]@ && ws[2] == w@[2]@);
            return Ok(Command::SetAccess { login: owned(w[1].as_str()), access_level: owned(w[2].as_str()) });
        }
        if text_eq(k, "delete-account") {
            if n < 2 {
                return Err(owned("Usage: delete-account <login>"));
            }
            assert(ws[1] == w@[1]@);
            return Ok(Command::DeleteAccount { login: owned(w[1].as_str()) });
        }
        if text_eq(k, "list-accounts") {
            return Ok(Command::ListAccounts);
        }
        if text_eq(k, "kick") {
            if n < 2 {
                return Err(owned("Usage: kick <user_id|nickname>"));
            }
            assert(ws[1] == w@[1]@);
            return Ok(Command::Kick { target: owned(w[1].as_str()) });
        }
        if text_eq(k, "broadcast") {
            if n < 2 {
                return Err(owned("Usage: broadcast <message>"));
            }
            let mut message = owned(w[1].as_str());
            let mut i: usize = 2;
            assert(ws.drop_first().take(1) =~= seq![ws[1]]);
            assert(ws[1] == w@[1]@);
            while i < n
                invariant
                    2 <= i <= n == w@.len(),
                    ws == w@.map_values(|x: String| x@),
                    message@ == joined(ws.drop_first().take(i - 1)),
                decreases n - i,
            {
                message.append(" ");
                message.append(w[i].as_str());
                let ghost t = ws.drop_first().take(i as int);
                assert(t.drop_last() =~= ws.drop_first().take(i - 1));
                assert(t.last() == w@[i as int]@);
                i += 1;
            }
            assert(ws.drop_first().take(n - 1) =~= ws.drop_first());
            return Ok(Command::Broadcast { message });
        }
        if text_eq(k, "list-users") {
            return Ok(Command::ListUsers);
        }
        if text_eq(k, "help") {
            return Ok(Command::Help);
        }
        if text_eq(k, "stop") || text_eq(k, "shutdown") || text_eq(k, "quit") || text_eq(k, "exit") {
            return Ok(Command::Stop);
        }
        let mut m = owned("Unknown command: '");
        m.append(k);
        m.append("'");
        Err(m)
    }

    /// The command typed on the console.
    pub fn parse(input: &str) -> (r: Result<Self, String>)
        ensures
            command_error(words_of(input@)) matches Some(e) ==> (r matches Err(m) && m@ == e),
            command_error(words_of(input@)) is None ==> (r matches Ok(c) && names_command(words_of(input@), c)),
    {
        let words = split_words(input);
        Self::from_words(&words)
    }
}

/// The value of a run of ASCII decimal digits.
pub open spec fn digits_value(d: Seq<u8>) -> nat
    decreases d.len(),
{
    if d.len() == 0 {
        0
    } else {
        digits_value(d.drop_last()) * 10 + (d.last() - 48) as nat
    }
}

pub open spec fn is_digit(b: u8) -> bool {
    48 <= b <= 57
}

/// What `u16::from_str` accepts: an optional `+`, then one or more ASCII
/// digits whose value fits in 16 bits.
pub open spec fn parsed_u16(b: Seq<u8>) -> Option<u16> {
    let d = unsigned_digits(b);
    if d.len() == 0 || !all_digits(d) || digits_value(d) > 65535 {
        None
    } else {
        Some(digits_value(d) as u16)
    }
}

/// The text after an optional leading `+`.
pub open spec fn unsigned_digits(b: Seq<u8>) -> Seq<u8> {
    if b.len() > 0 && b[0] == 43 {
        b.drop_first()
    } else {
        b
    }
}

pub open spec fn all_digits(d: Seq<u8>) -> bool {
    forall|i: int| 0 <= i < d.len() ==> is_digit(#[trigger] d[i])
}

/// Reads a user id written in decimal.
pub fn parse_user_id(s: &str) -> (r: Option<u16>)
    ensures
        r == parsed_u16(s.spec_bytes()),
{
    let b = s.as_bytes();
    let start: usize = if b.len() > 0 && b[0] == 43 {
        1
    } else {
        0
    };
    let ghost d = unsigned_digits(b@);
    assert(d =~= b@.subrange(start as int, b@.len() as int));
    if start == b.len() {
        return None;
    }
    let mut value: u32 = 0;
    let mut i: usize = start;
    while i < b.len()
        invariant
            start <= i <= b@.len(),
            d == b@.subrange(start as int, b@.len() as int),
            d == unsigned_digits(b@),
            b@ == s.spec_bytes(),
            forall|j: int| start <= j < i ==> is_digit(#[trigger] b@[j]),
            value as nat == digits_value(b@.subrange(start as int, i as int)),
            value <= 65535,
        decreases b@.len() - i,
    {
        let c = b[i];
        if c < 48 || c > 57 {
            assert(!all_digits(d)) by {
                assert(!is_digit(d[i - start]));
            }
            assert(parsed_u16(b@) is None);
            return None;
        }
        let ghost pre = b@.subrange(start as int, i + 1);
        assert(pre.drop_last() =~= b@.subrange(start as int, i as int));
        let next = value * 10 + (c - 48) as u32;
        i += 1;
        if next > 65535 {
            proof {
                if all_digits(d) {
                    lemma_digits_value_grows(d, i - start);
                    assert(d.subrange(0, i - start) =~= pre);
                }
            }
            assert(parsed_u16(b@) is None);
            return None;
        }
        value = next;
    }
    assert(b@.subrange(start as int, b@.len() as int) =~= d);
    assert forall|j: int| 0 <= j < d.len() implies is_digit(#[trigger] d[j]) by {
        assert(d[j] == b@[start + j]);
    }
    Some(value as u16)
}

proof fn lemma_digits_value_grows(d: Seq<u8>, k: int)
    requires
        0 <= k <= d.len(),
        forall|j: int| 0 <= j < d.len() ==> is_digit(#[trigger] d[j]),
    ensures
        digits_value(d) >= digits_value(d.subrange(0, k)),
    decreases d.len(),
{
    if k < d.len() {
        let e = d.drop_last();
        assert forall|j: int| 0 <= j < e.len() implies is_digit(#[trigger] e[j]) by {
            assert(e[j] == d[j]);
        }
        lemma_digits_value_grows(e, k);
        assert(e.subrange(0, k) =~= d.subrange(0, k));
    } else {
        assert(d.subrange(0, k) =~= d);
    }
}

/// A byte in ASCII lower case.
pub open spec fn ascii_lower(b: u8) -> u8 {
    if 65 <= b <= 90 {
        (b + 32) as u8
    } else {
        b
    }
}

/// Equal but for the case of ASCII letters, as `str::eq_ignore_ascii_case`.
pub open spec fn same_ignoring_ascii_case(a: Seq<u8>, b: Seq<u8>) -> bool {
    a.len() == b.len() && forall|i: int| 0 <= i < a.len() ==> ascii_lower(#[trigger] a[i]) == ascii_lower(b[i])
}

fn eq_ignore_case(a: &[u8], b: &[u8]) -> (r: bool)
    ensures
        r == same_ignoring_ascii_case(a@, b@),
{
    if a.len() != b.len() {
        return false;
    }
    let mut i: usize = 0;
    while i < a.len()
        invariant
            a@.len() == b@.len(),
            i <= a@.len(),
            forall|j: int| 0 <= j < i ==> ascii_lower(#[trigger] a@[j]) == ascii_lower(b@[j]),
        decreases a@.len() - i,
    {
        let x = if a[i] >= 65 && a[i] <= 90 {
            a[i] + 32
        } else {
            a[i]
        };
        let y = if b[i] >= 65 && b[i] <= 90 {
            b[i] + 32
        } else {
            b[i]
        };
        if x != y {
            return false;
        }
        i += 1;
    }
    true
}

/// The user id of the first session, in registration order, whose nickname
/// is `target` but for the case of ASCII letters.
pub open spec fn first_with_nickname(s: Seq<Session>, target: Seq<u8>) -> Option<u16>
    decreases s.len(),
{
    if s.len() == 0 {
        None
    } else if same_ignoring_ascii_case(vstd::utf8::encode_utf8(s[0].nickname@), target) {
        Some(s[0].user_id)
    } else {
        first_with_nickname(s.drop_first(), target)
    }
}

/// The user that a kick order names: a decimal user id, or else the nickname
/// of a live session, compared without regard to the case of ASCII letters.
pub fn resolve_kick_target(registry: &SessionRegistry, target: &str) -> (r: Option<u16>)
    requires
        registry.wf(),
    ensures
        parsed_u16(target.spec_bytes()) is Some ==> r == parsed_u16(target.spec_bytes()),
        parsed_u16(target.spec_bytes()) is None ==> r == first_with_nickname(registry.sessions(), target.spec_bytes()),
{
    let parsed = parse_user_id(target);
    if parsed.is_some() {
        return parsed;
    }
    assert(parsed_u16(target.spec_bytes()) is None);
    let ghost all = registry.sessions();
    let n = registry.session_count();
    let mut i: usize = 0;
    assert(all.subrange(0, all.len() as int) =~= all);
    while i < n
        invariant
            all == registry.sessions(),
            n == all.len(),
            i <= n,
            parsed_u16(target.spec_bytes()) is None,
            first_with_nickname(all, target.spec_bytes()) == first_with_nickname(all.subrange(i as int, n as int), target.spec_bytes()),
        decreases n - i,
    {
        let s = registry.session_at(i);
        let ghost rest = all.subrange(i as int, n as int);
        assert(rest[0] == *s);
        if eq_ignore_case(s.nickname.as_str().as_bytes(), target.as_bytes()) {
            return Some(s.user_id);
        }
        assert(rest.drop_first() =~= all.subrange(i + 1, n as int));
        i += 1;
    }
    None
}

} // verus!
