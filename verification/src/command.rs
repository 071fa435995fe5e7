//! The command line of the networker's test modes.

use crate::address::PeerAddr;
use crate::auth::Keys;
use crate::pswd_manager::{derive_key, PswdErrors};
use vstd::prelude::*;

verus! {

/// The port that the server listens on for TCP connections.
pub const SERVER_PORT: u16 = 3232;

/// What the command line asks for.
#[derive(Debug, PartialEq, Eq)]
pub enum Command {
    /// Listen for connections, under keys derived from the password.
    Server { password: String },
    /// Find a server and send it the message, under keys derived from the password.
    Client { message: String, password: String },
    /// Tell the user what was wrong with the arguments.
    Complain(String),
}

/// A [`Command`] with its texts as mathematical sequences.
pub enum CommandView {
    Server { password: Seq<char> },
    Client { message: Seq<char>, password: Seq<char> },
    Complain(Seq<char>),
}

impl View for Command {
    type V = CommandView;

    open spec fn view(&self) -> CommandView {
        match self {
            Command::Server { password } => CommandView::Server { password: password@ },
            Command::Client { message, password } => CommandView::Client {
                message: message@,
                password: password@,
            },
            Command::Complain(text) => CommandView::Complain(text@),
        }
    }
}

/// The usage of both subcommands.
pub open spec fn usage(bin: Seq<char>) -> Seq<char> {
    "\nUsage:\n  "@ + bin + " servertest <password>\n  "@ + bin
        + " clienttest <message> <password>"@
}

/// What a command line means: the program, then a subcommand, then its parameters.
///
/// - `servertest <password>`
/// - `clienttest <message> <password>`
pub open spec fn command_of(args: Seq<String>) -> CommandView {
    let bin = args[0]@;
    if args.len() < 2 {
        CommandView::Complain("No subcommand provided."@ + usage(bin))
    } else if args[1]@ == "servertest"@ {
        if args.len() < 3 {
            CommandView::Complain(
                "Missing argument.\nUsage: "@ + bin + " servertest <password>"@,
            )
        } else {
            CommandView::Server { password: args[2]@ }
        }
    } else if args[1]@ == "clienttest"@ {
        if args.len() < 4 {
            CommandView::Complain(
                "Missing argument.\nUsage: "@ + bin + " clienttest <message> <password>"@,
            )
        } else {
            CommandView::Client { message: args[2]@, password: args[3]@ }
        }
    } else {
        CommandView::Complain("Unknown subcommand: '"@ + args[1]@ + "'."@ + usage(bin))
    }
}

/// Writes the usage of both subcommands.
fn usage_text(bin: &str) -> (text: String)
    ensures
        text@ == usage(bin@),
{
    let mut text = "\nUsage:\n  ".to_owned();
    text.append(bin);
    text.append(" servertest <password>\n  ");
    text.append(bin);
    text.append(" clienttest <message> <password>");
    text
}

/// Reads the command line.
pub fn parse_command(args: &Vec<String>) -> (command: Command)
    requires
        args@.len() >= 1,
    ensures
        command@ == command_of(args@),
{
    let bin = args[0].as_str();
    if args.len() < 2 {
        let mut text = "No subcommand provided.".to_owned();
        text.append(usage_text(bin).as_str());
        return Command::Complain(text);
    }
    if args[1] == "servertest".to_owned() {
        if args.len() < 3 {
            let mut text = "Missing argument.\nUsage: ".to_owned();
            text.append(bin);
            text.append(" servertest <password>");
            return Command::Complain(text);
        }
        return Command::Server { password: args[2].clone() };
    }
    if args[1] == "clienttest".to_owned() {
        if args.len() < 4 {
            let mut text = "Missing argument.\nUsage: ".to_owned();
            text.append(bin);
            text.append(" clienttest <message> <password>");
            return Command::Complain(text);
        }
        return Command::Client { message: args[2].clone(), password: args[3].clone() };
    }
    let mut text = "Unknown subcommand: '".to_owned();
    text.append(args[1].as_str());
    text.append("'.");
    text.append(usage_text(bin).as_str());
    Command::Complain(text)
}

/// The salt that a test mode derives from the password itself: its first 32 bytes, filled up with
/// zeros.
pub open spec fn salt_of(password: Seq<u8>) -> Seq<u8> {
    Seq::new(
        32,
        |i: int|
            if i < password.len() {
                password[i]
            } else {
                0u8
            },
    )
}

/// Derives the salt from the password itself: acceptable for testing only.
pub fn salt_from_password(password: &[u8]) -> (salt: [u8; 32])
    ensures
        salt@ == salt_of(password@),
{
    let mut salt: [u8; 32] = [0u8; 32];
    let mut i: usize = 0;
    while i < 32 && i < password.len()
        invariant
            i <= 32,
            i <= password@.len(),
            forall|j: int| 0 <= j < i ==> salt@[j] == password@[j],
            forall|j: int| i <= j < 32 ==> salt@[j] == 0,
        decreases 32 - i,
    {
        salt[i] = password[i];
        i = i + 1;
    }
    assert(salt@ =~= salt_of(password@));
    salt
}

/// Derives the keys of a test mode: one key for both purposes, under a salt made of the password.
pub fn test_keys(password: &[u8]) -> (r: Result<Keys, PswdErrors>)
    ensures
        match r {
            Ok(keys) => password@.len() <= crate::pswd_manager::MAX_PASSWORD && keys.a_key@
                == crate::pswd_manager::argon2id(password@, salt_of(password@)) && keys.d_key
                == keys.a_key,
            Err(e) => password@.len() > crate::pswd_manager::MAX_PASSWORD && e
                == PswdErrors::FailedToDeriveKey,
        },
{
    match derive_key(password, salt_from_password(password)) {
        Ok(key) => Ok(Keys::new(key, key)),
        Err(e) => Err(e),
    }
}

/// Where to connect to a peer that discovery found: only the IP address comes from it, the server
/// always listens on the same port.
pub fn server_addr(found: &PeerAddr) -> (addr: PeerAddr)
    ensures
        addr.ip() == found.ip(),
        addr.port() == SERVER_PORT,
        match addr {
            PeerAddr::V4 { .. } => true,
            PeerAddr::V6 { flowinfo, scope_id, .. } => flowinfo == 0 && scope_id == 0,
        },
{
    match found {
        PeerAddr::V4 { ip4, .. } => PeerAddr::V4 { ip4: *ip4, port: SERVER_PORT },
        PeerAddr::V6 { ip6, .. } => PeerAddr::V6 {
            ip6: *ip6,
            port: SERVER_PORT,
            flowinfo: 0,
            scope_id: 0,
        },
    }
}

/// What a command line asks for is taken from its own places: a server's password is the third
/// argument, a client's message the third and its password the fourth. Everything else is complained
/// about.
pub proof fn law_commands_are_taken_from_their_places(args: &Vec<String>, command: Command)
    requires
        call_ensures(parse_command, (args,), command),
        args@.len() >= 1,
    ensures
        args@.len() >= 3 && args@[1]@ == "servertest"@ ==> command@ == (CommandView::Server {
            password: args@[2]@,
        }),
        args@.len() >= 4 && args@[1]@ == "clienttest"@ ==> command@ == (CommandView::Client {
            message: args@[2]@,
            password: args@[3]@,
        }),
        command@ is Complain <==> args@.len() < 2 || (args@[1]@ != "servertest"@ && args@[1]@
            != "clienttest"@) || (args@[1]@ == "servertest"@ && args@.len() < 3) || (args@[1]@
            == "clienttest"@ && args@.len() < 4),
{
    reveal_strlit("servertest");
    reveal_strlit("clienttest");
    assert("servertest"@[0] != "clienttest"@[0]);
}

/// The salt of a test mode is the password's own first bytes, and zeros after its end.
pub proof fn law_salt_is_the_password(password: Seq<u8>, i: int)
    requires
        0 <= i < 32,
    ensures
        salt_of(password).len() == 32,
        i < password.len() ==> salt_of(password)[i] == password[i],
        i >= password.len() ==> salt_of(password)[i] == 0,
{
}

/// A complaint says what is missing or unknown, and how the program, under the name that it was
/// called by, is used.
pub proof fn law_complaints_name_the_program(args: &Vec<String>, command: Command)
    requires
        call_ensures(parse_command, (args,), command),
        args@.len() >= 1,
    ensures
        args@.len() == 1 ==> command@ == CommandView::Complain(
            "No subcommand provided."@ + ("\nUsage:\n  "@ + args@[0]@
                + " servertest <password>\n  "@ + args@[0]@ + " clienttest <message> <password>"@),
        ),
        args@.len() == 2 && args@[1]@ == "servertest"@ ==> command@ == CommandView::Complain(
            "Missing argument.\nUsage: "@ + args@[0]@ + " servertest <password>"@,
        ),
        1 < args@.len() < 4 && args@[1]@ == "clienttest"@ ==> command@ == CommandView::Complain(
            "Missing argument.\nUsage: "@ + args@[0]@ + " clienttest <message> <password>"@,
        ),
        args@.len() > 1 && args@[1]@ != "servertest"@ && args@[1]@ != "clienttest"@ ==> command@
            == CommandView::Complain(
            "Unknown subcommand: '"@ + args@[1]@ + "'."@ + ("\nUsage:\n  "@ + args@[0]@
                + " servertest <password>\n  "@ + args@[0]@ + " clienttest <message> <password>"@),
        ),
{
    reveal_strlit("servertest");
    reveal_strlit("clienttest");
    assert("servertest"@[0] != "clienttest"@[0]);
}

/// The keys of a test mode are one key, for both purposes: the one that the password gives under the
/// salt made of it. They are refused exactly where that key is.
pub proof fn law_test_keys_come_from_the_password(
    password: &[u8],
    salt: [u8; 32],
    key: Result<[u8; 32], PswdErrors>,
    keys: Result<Keys, PswdErrors>,
)
    requires
        call_ensures(salt_from_password, (password,), salt),
        call_ensures(derive_key, (password, salt), key),
        call_ensures(test_keys, (password,), keys),
    ensures
        keys is Ok <==> key is Ok,
        keys is Ok ==> keys->Ok_0.a_key@ == key->Ok_0@ && keys->Ok_0.d_key@ == key->Ok_0@,
        keys is Err ==> keys->Err_0 == key->Err_0,
{
}

/// A found peer is connected to at its own IP address, on the server's port, wherever its broadcast
/// came from.
pub proof fn law_server_is_at_the_found_address(found: &PeerAddr, addr: PeerAddr)
    requires
        call_ensures(server_addr, (found,), addr),
    ensures
        match (*found, addr) {
            (PeerAddr::V4 { ip4: a, .. }, PeerAddr::V4 { ip4: b, port }) => a@ == b@ && port
                == 3232,
            (PeerAddr::V6 { ip6: a, .. }, PeerAddr::V6 { ip6: b, port, flowinfo, scope_id }) => a@
                == b@ && port == 3232 && flowinfo == 0 && scope_id == 0,
            _ => false,
        },
{
    assert(found.ip().len() == addr.ip().len());
}

} // verus!
