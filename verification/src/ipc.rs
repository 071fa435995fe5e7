//! The control channel between the daemon and its user interfaces, over a Unix domain socket.
//!
//! Reading the process files, the socket and its permissions is left to the caller, who hands in
//! what was read; the decisions, the message protocol and its effects are here.

use crate::address::PeerAddr;
use crate::auth::{Keys, Salts};
use crate::bytes::{array_at, copied, joined, wipe};
use crate::exchange::{Event, EventView, Turn, TurnView};
use crate::le::{u64_from_le, u64_to_le, usize_to_le};
use crate::secret::Secret;
use crate::text::{chars_of, decimal_text, parse_u32, parse_uid, trim};
use vstd::prelude::*;

verus! {

/// Action types for IPC messages
///
/// Each action type represents a different operation that can be requested
/// through the IPC system. The action type is sent as the first byte of
/// every IPC message; the variants stand in the order of their bytes.
#[derive(Debug, Clone, Copy, PartialEq, Eq, Structural)]
pub enum ActionType {
    /// Default action - no specific operation
    Default,
    /// Request to update the authentication password
    UpdateAuthPassword,
    /// Request to update the data encryption password
    UpdateDataPassword,
    /// Request to add a new trusted device
    AddTrustedDevice,
    /// Request to synchronize data with other devices
    SyncData,
}

impl ActionType {
    /// The byte of an action.
    pub open spec fn byte(self) -> u8 {
        match self {
            ActionType::Default => 0x00,
            ActionType::UpdateAuthPassword => 0x01,
            ActionType::UpdateDataPassword => 0x02,
            ActionType::AddTrustedDevice => 0x03,
            ActionType::SyncData => 0x04,
        }
    }

    /// The action of a byte, where there is one.
    pub open spec fn of_byte(v: u8) -> Option<ActionType> {
        if v == 0x00 {
            Some(ActionType::Default)
        } else if v == 0x01 {
            Some(ActionType::UpdateAuthPassword)
        } else if v == 0x02 {
            Some(ActionType::UpdateDataPassword)
        } else if v == 0x03 {
            Some(ActionType::AddTrustedDevice)
        } else if v == 0x04 {
            Some(ActionType::SyncData)
        } else {
            None
        }
    }

    /// Converts a raw u8 wire byte into an ActionType variant.
    ///
    /// Returns None for unknown values: the caller decides whether to fall back to Default or
    /// reject the packet entirely.
    pub fn from_u8(v: u8) -> (action: Option<Self>)
        ensures
            action == ActionType::of_byte(v),
    {
        match v {
            0x00 => Some(Self::Default),
            0x01 => Some(Self::UpdateAuthPassword),
            0x02 => Some(Self::UpdateDataPassword),
            0x03 => Some(Self::AddTrustedDevice),
            0x04 => Some(Self::SyncData),
            _ => None,
        }
    }

    /// The wire byte of the action.
    pub fn to_u8(self) -> (byte: u8)
        ensures
            byte == self.byte(),
    {
        match self {
            ActionType::Default => 0x00,
            ActionType::UpdateAuthPassword => 0x01,
            ActionType::UpdateDataPassword => 0x02,
            ActionType::AddTrustedDevice => 0x03,
            ActionType::SyncData => 0x04,
        }
    }
}

/// Every action is the action of its byte, and of no other byte.
pub proof fn law_action_round_trip(action: ActionType, v: u8)
    ensures
        ActionType::of_byte(action.byte()) == Some(action),
        ActionType::of_byte(v) == Some(action) ==> v == action.byte(),
        ActionType::of_byte(v) is None <==> v > 4,
{
}

/// Errors that can occur during IPC operations
///
/// This enum covers all possible error conditions that can arise during
/// IPC communication, from system-level failures to protocol violations.
#[derive(Debug, Clone, Copy, PartialEq, Eq, Structural)]
pub enum IpcErrors {
    /// UID not found in /proc/self/status
    UIDNotFound,
    /// Failed to read /proc/self/status
    FailedToRead,
    /// Failed to get UID for socket path
    FailedToGetUID,
    /// Failed to fetch socket path
    FailedToFetchSocketPath,
    /// Failed to read process directory
    FailedToReadprocessDirectory,
    /// Failed to filter map during process enumeration
    FailedToFilterMap,
    /// Failed to fetch processes
    FailedToFechProcesses,
    /// Failed to get name from our own process
    FailedToGetSelfName,
    /// Failed to fetch process name
    FailedToReadProcessName,
    /// Failed to check if process exists
    FailedToCheckIfProcessExists,
    /// Failed to remove file
    FailedToRemoveFile,
    /// Failed to bind socket
    FailedToBindSocket,
    /// Failed to set permissions
    FailedToSetPermissions,
    /// Daemon is already running
    DaemonAlreadyRunning,
    /// Failed to check if daemon is running
    FailedToCheckIfRunning,
    /// Failed to connect to the pipe
    FailedToConnectToPipe,
    /// Failed to check stream state
    FailedToCheckStreamState,
    /// Stream is not writable
    NotWritable,
    /// Failed to write data to stream
    FailedToWriteToStream,
    /// Secure pipe is not created yet
    PipeNotCreated,
    /// Failed to create secure pipe
    FailedToCreateSecurePipe,
    /// Failed to accept ipc connection
    FailedToAcceptConnection,
    /// Failed to read data from ipc stream
    FailedToReadDataFromStream,
    /// Confirmation byte not received
    ConfirmationByteNotReceived,
    /// Failed to get data from client
    FailedToRecvData,
    /// Failed to handle data from ipc client
    FailedToHandleData,
    /// Data from client is too large
    DataTooLarge,
    /// No data received
    NoData,
    /// Daemon is not running yet
    DaemonIsNotRunning,
    /// Failed to get peer credentials
    FailedToGetPeerCred,
    /// Failed to get process pid
    FailedToGetPid,
    /// Failed to get process name
    FailedToGetProcessName,
    /// Failed to get peer name
    FailedToGetPeerName,
    /// Unauthorized peer tried to connect
    UnauthorizedPeer,
    /// Size of data is wrong (fixed data size)
    WrongDataSize,
}

impl IpcErrors {
    /// The text shown to a user.
    pub open spec fn message(self) -> Seq<char> {
        match self {
            IpcErrors::UIDNotFound => "UID not found in /proc/self/status"@,
            IpcErrors::FailedToRead => "failed to read /proc/self/status"@,
            IpcErrors::FailedToGetUID => "failed to get UID for socket path"@,
            IpcErrors::FailedToFetchSocketPath => "failed to fetch socket path"@,
            IpcErrors::FailedToReadprocessDirectory => "failed to read process directory"@,
            IpcErrors::FailedToFilterMap => "failed to filter map"@,
            IpcErrors::FailedToFechProcesses => "failed to fetch processes"@,
            IpcErrors::FailedToGetSelfName => "failed to get name from our own process"@,
            IpcErrors::FailedToReadProcessName => "failed to fetch process name"@,
            IpcErrors::FailedToCheckIfProcessExists => "failed to check if process exists"@,
            IpcErrors::FailedToRemoveFile => "failed to remove file"@,
            IpcErrors::FailedToBindSocket => "failed to bind socket"@,
            IpcErrors::FailedToSetPermissions => "failed to set permissions"@,
            IpcErrors::DaemonAlreadyRunning => "daemon is already running"@,
            IpcErrors::FailedToCheckIfRunning => "failed to check if daemon is running"@,
            IpcErrors::FailedToConnectToPipe => "failed to connect to the pipe"@,
            IpcErrors::FailedToCheckStreamState => "failed to check stream state"@,
            IpcErrors::NotWritable => "stream is not writable"@,
            IpcErrors::FailedToWriteToStream => "failed to write data to stream"@,
            IpcErrors::PipeNotCreated => "secure pipe is not created yet"@,
            IpcErrors::FailedToCreateSecurePipe => "failed to create secure pipe"@,
            IpcErrors::FailedToAcceptConnection => "failed to accept ipc connection"@,
            IpcErrors::FailedToReadDataFromStream => "failed to read data from ipc stream"@,
            IpcErrors::ConfirmationByteNotReceived => "confirmation byte not received"@,
            IpcErrors::FailedToRecvData => "failed to get data from client"@,
            IpcErrors::FailedToHandleData => "failed to handle data from ipc client"@,
            IpcErrors::DataTooLarge => "data from cllient is too large"@,
            IpcErrors::NoData => "there's no data"@,
            IpcErrors::DaemonIsNotRunning => "daemon is not running yet"@,
            IpcErrors::FailedToGetPeerCred => "failed to get peer cred"@,
            IpcErrors::FailedToGetPid => "failed to get process pid"@,
            IpcErrors::FailedToGetProcessName => "failed to get process name"@,
            IpcErrors::FailedToGetPeerName => "failed to get peer name"@,
            IpcErrors::UnauthorizedPeer => "unauthorized peer tired to connect"@,
            IpcErrors::WrongDataSize => "data size is not correct"@,
        }
    }

    /// Renders the error for a user.
    pub fn to_string(&self) -> (text: String)
        ensures
            text@ == self.message(),
    {
        match self {
            IpcErrors::UIDNotFound => "UID not found in /proc/self/status".to_owned(),
            IpcErrors::FailedToRead => "failed to read /proc/self/status".to_owned(),
            IpcErrors::FailedToGetUID => "failed to get UID for socket path".to_owned(),
            IpcErrors::FailedToFetchSocketPath => "failed to fetch socket path".to_owned(),
            IpcErrors::FailedToReadprocessDirectory => {
                "failed to read process directory".to_owned()
            },
            IpcErrors::FailedToFilterMap => "failed to filter map".to_owned(),
            IpcErrors::FailedToFechProcesses => "failed to fetch processes".to_owned(),
            IpcErrors::FailedToGetSelfName => "failed to get name from our own process".to_owned(),
            IpcErrors::FailedToReadProcessName => "failed to fetch process name".to_owned(),
            IpcErrors::FailedToCheckIfProcessExists => {
                "failed to check if process exists".to_owned()
            },
            IpcErrors::FailedToRemoveFile => "failed to remove file".to_owned(),
            IpcErrors::FailedToBindSocket => "failed to bind socket".to_owned(),
            IpcErrors::FailedToSetPermissions => "failed to set permissions".to_owned(),
            IpcErrors::DaemonAlreadyRunning => "daemon is already running".to_owned(),
            IpcErrors::FailedToCheckIfRunning => "failed to check if daemon is running".to_owned(),
            IpcErrors::FailedToConnectToPipe => "failed to connect to the pipe".to_owned(),
            IpcErrors::FailedToCheckStreamState => "failed to check stream state".to_owned(),
            IpcErrors::NotWritable => "stream is not writable".to_owned(),
            IpcErrors::FailedToWriteToStream => "failed to write data to stream".to_owned(),
            IpcErrors::PipeNotCreated => "secure pipe is not created yet".to_owned(),
            IpcErrors::FailedToCreateSecurePipe => "failed to create secure pipe".to_owned(),
            IpcErrors::FailedToAcceptConnection => "failed to accept ipc connection".to_owned(),
            IpcErrors::FailedToReadDataFromStream => {
                "failed to read data from ipc stream".to_owned()
            },
            IpcErrors::ConfirmationByteNotReceived => "confirmation byte not received".to_owned(),
            IpcErrors::FailedToRecvData => "failed to get data from client".to_owned(),
            IpcErrors::FailedToHandleData => "failed to handle data from ipc client".to_owned(),
            IpcErrors::DataTooLarge => "data from cllient is too large".to_owned(),
            IpcErrors::NoData => "there's no data".to_owned(),
            IpcErrors::DaemonIsNotRunning => "daemon is not running yet".to_owned(),
            IpcErrors::FailedToGetPeerCred => "failed to get peer cred".to_owned(),
            IpcErrors::FailedToGetPid => "failed to get process pid".to_owned(),
            IpcErrors::FailedToGetProcessName => "failed to get process name".to_owned(),
            IpcErrors::FailedToGetPeerName => "failed to get peer name".to_owned(),
            IpcErrors::UnauthorizedPeer => "unauthorized peer tired to connect".to_owned(),
            IpcErrors::WrongDataSize => "data size is not correct".to_owned(),
        }
    }
}

/// Every error has something to say.
pub proof fn law_messages_are_not_empty(e: IpcErrors)
    ensures
        e.message().len() > 0,
{
    reveal_strlit("UID not found in /proc/self/status");
    reveal_strlit("failed to read /proc/self/status");
    reveal_strlit("failed to get UID for socket path");
    reveal_strlit("failed to fetch socket path");
    reveal_strlit("failed to read process directory");
    reveal_strlit("failed to filter map");
    reveal_strlit("failed to fetch processes");
    reveal_strlit("failed to get name from our own process");
    reveal_strlit("failed to fetch process name");
    reveal_strlit("failed to check if process exists");
    reveal_strlit("failed to remove file");
    reveal_strlit("failed to bind socket");
    reveal_strlit("failed to set permissions");
    reveal_strlit("daemon is already running");
    reveal_strlit("failed to check if daemon is running");
    reveal_strlit("failed to connect to the pipe");
    reveal_strlit("failed to check stream state");
    reveal_strlit("stream is not writable");
    reveal_strlit("failed to write data to stream");
    reveal_strlit("secure pipe is not created yet");
    reveal_strlit("failed to create secure pipe");
    reveal_strlit("failed to accept ipc connection");
    reveal_strlit("failed to read data from ipc stream");
    reveal_strlit("confirmation byte not received");
    reveal_strlit("failed to get data from client");
    reveal_strlit("failed to handle data from ipc client");
    reveal_strlit("data from cllient is too large");
    reveal_strlit("there's no data");
    reveal_strlit("daemon is not running yet");
    reveal_strlit("failed to get peer cred");
    reveal_strlit("failed to get process pid");
    reveal_strlit("failed to get process name");
    reveal_strlit("failed to get peer name");
    reveal_strlit("unauthorized peer tired to connect");
    reveal_strlit("data size is not correct");
}

/// Gets the current process UID from the text of /proc/self/status, which is absent where the file
/// could not be read.
pub fn getuid(status: Option<String>) -> (r: Result<u32, IpcErrors>)
    ensures
        r == (match status {
            None => Err::<u32, IpcErrors>(IpcErrors::FailedToRead),
            Some(text) => match crate::text::uid_of_status(text@) {
                None => Err(IpcErrors::UIDNotFound),
                Some(uid) => Ok(uid),
            },
        }),
{
    match status {
        None => Err(IpcErrors::FailedToRead),
        Some(text) => match parse_uid(text.as_str()) {
            None => Err(IpcErrors::UIDNotFound),
            Some(uid) => Ok(uid),
        },
    }
}

/// The socket of a user.
pub open spec fn socket_of(uid: u32) -> Seq<char> {
    "/run/user/"@ + crate::text::decimal(uid as nat) + "/cesa_conn.sock"@
}

/// Constructs the socket path for IPC communication
///
/// Returns the path where the Unix domain socket should be created,
/// based on the current user's UID (e.g., "/run/user/1000/cesa_conn.sock").
pub fn socket_path(uid: Result<u32, IpcErrors>) -> (r: Result<String, IpcErrors>)
    ensures
        match (uid, r) {
            (Ok(uid), Ok(path)) => path@ == socket_of(uid),
            (Err(_), Err(e)) => e == IpcErrors::FailedToGetUID,
            _ => false,
        },
{
    match uid {
        Ok(uid) => {
            let mut path = "/run/user/".to_owned();
            path.append(decimal_text(uid).as_str());
            path.append("/cesa_conn.sock");
            Ok(path)
        },
        Err(_) => Err(IpcErrors::FailedToGetUID),
    }
}

/// Gets the name of the current process from the text of /proc/self/comm, trimmed of whitespace;
/// the text is absent where the file could not be read.
pub fn get_self_name(comm: Option<String>) -> (r: Result<String, IpcErrors>)
    ensures
        match (comm, r) {
            (Some(text), Ok(name)) => name@ == crate::text::trimmed(text@),
            (None, Err(e)) => e == IpcErrors::FailedToGetSelfName,
            _ => false,
        },
{
    match comm {
        Some(text) => Ok(trim(text.as_str())),
        None => Err(IpcErrors::FailedToGetSelfName),
    }
}

/// The names in a process directory that are process ids other than our own, in their order.
pub open spec fn other_processes(entries: Seq<String>, own_pid: u32) -> Seq<String>
    decreases entries.len(),
{
    if entries.len() == 0 {
        Seq::empty()
    } else {
        let before = other_processes(entries.drop_last(), own_pid);
        let entry = entries.last();
        if crate::text::parsed_u32(entry@) is Some && entry@ != crate::text::decimal(
            own_pid as nat,
        ) {
            before.push(entry)
        } else {
            before
        }
    }
}

/// Gets a list of all running process PIDs (excluding current process)
///
/// Filters the names in the /proc directory: those that are numbers are processes. The names are
/// absent where the directory could not be read.
pub fn get_processes(entries: Option<Vec<String>>, own_pid: u32) -> (r: Result<
    Vec<String>,
    IpcErrors,
>)
    ensures
        match (entries, r) {
            (Some(entries), Ok(processes)) => processes@ == other_processes(entries@, own_pid),
            (None, Err(e)) => e == IpcErrors::FailedToReadprocessDirectory,
            _ => false,
        },
{
    let entries = match entries {
        Some(entries) => entries,
        None => return Err(IpcErrors::FailedToReadprocessDirectory),
    };
    let own = decimal_text(own_pid);
    let mut processes: Vec<String> = Vec::new();
    let mut i: usize = 0;
    while i < entries.len()
        invariant
            i <= entries@.len(),
            own@ == crate::text::decimal(own_pid as nat),
            processes@ == other_processes(entries@.take(i as int), own_pid),
        decreases entries@.len() - i,
    {
        assert(entries@.take(i + 1).drop_last() =~= entries@.take(i as int));
        assert(entries@.take(i + 1).last() == entries@[i as int]);
        let chars = chars_of(entries[i].as_str());
        if parse_u32(&chars).is_some() && !(entries[i] == own) {
            processes.push(entries[i].clone());
        }
        i = i + 1;
    }
    assert(entries@.take(i as int) =~= entries@);
    Ok(processes)
}

/// The file that holds the name of a process.
pub fn comm_path(pid: &str) -> (path: String)
    ensures
        path@ == "/proc/"@ + pid@ + "/comm"@,
{
    let mut path = "/proc/".to_owned();
    path.append(pid);
    path.append("/comm");
    path
}

/// Gets the name of a process from the text of its `comm` file, trimmed of whitespace; the text is
/// absent where the file could not be read.
pub fn get_process_name(comm: Option<String>) -> (r: Result<String, IpcErrors>)
    ensures
        match (comm, r) {
            (Some(text), Ok(name)) => name@ == crate::text::trimmed(text@),
            (None, Err(e)) => e == IpcErrors::FailedToReadProcessName,
            _ => false,
        },
{
    match comm {
        Some(text) => Ok(trim(text.as_str())),
        None => Err(IpcErrors::FailedToReadProcessName),
    }
}

/// Whether some process has the name.
pub open spec fn any_named(names: Seq<Result<String, IpcErrors>>, name: Seq<char>) -> bool {
    exists|i: int|
        0 <= i < names.len() && match #[trigger] names[i] {
            Ok(n) => n@ == name,
            Err(_) => false,
        }
}

/// Checks if a process with the given name is currently running
///
/// Goes through the names of all running processes and checks if any match the given name. A
/// process whose name could not be read does not match; without the list of processes the check
/// fails.
pub fn process_exists(
    names: Result<Vec<Result<String, IpcErrors>>, IpcErrors>,
    name: String,
) -> (r: Result<bool, IpcErrors>)
    ensures
        r == (match names {
            Ok(names) => Ok::<bool, IpcErrors>(any_named(names@, name@)),
            Err(_) => Err(IpcErrors::FailedToFechProcesses),
        }),
{
    match names {
        Ok(names) => Ok(some_named(&names, &name)),
        Err(_) => Err(IpcErrors::FailedToFechProcesses),
    }
}

/// Whether some process of a list has the name.
fn some_named(names: &[Result<String, IpcErrors>], name: &String) -> (found: bool)
    ensures
        found == any_named(names@, name@),
{
    let mut i: usize = 0;
    while i < names.len()
        invariant
            i <= names@.len(),
            forall|j: int|
                0 <= j < i ==> match #[trigger] names@[j] {
                    Ok(n) => n@ != name@,
                    Err(_) => true,
                },
        decreases names@.len() - i,
    {
        let same = match &names[i] {
            Ok(n) => *n == *name,
            Err(_) => false,
        };
        if same {
            return true;
        }
        i = i + 1;
    }
    false
}

/// The name of the daemon's process.
pub fn daemon_name() -> (name: String)
    ensures
        name@ == "cesa_conn_networker"@,
{
    "cesa_conn_networker".to_owned()
}

/// Checks if the CesaConn daemon is currently running
///
/// Determines if the daemon is running by checking both:
/// 1. If the socket file exists
/// 2. If a process with the daemon's name is running
pub fn is_running(
    path: &Result<String, IpcErrors>,
    process_exists: Result<bool, IpcErrors>,
    socket_exists: bool,
) -> (r: Result<bool, IpcErrors>)
    ensures
        r == (match (*path, process_exists) {
            (Err(_), _) => Err::<bool, IpcErrors>(IpcErrors::FailedToFetchSocketPath),
            (_, Err(_)) => Err(IpcErrors::FailedToCheckIfProcessExists),
            (_, Ok(exists)) => Ok(socket_exists && exists),
        }),
{
    match path {
        Err(_) => Err(IpcErrors::FailedToFetchSocketPath),
        Ok(_) => match process_exists {
            Err(_) => Err(IpcErrors::FailedToCheckIfProcessExists),
            Ok(exists) => Ok(socket_exists && exists),
        },
    }
}

/// The credentials of the process at the other end of a socket.
#[derive(Clone, Copy)]
pub enum PeerCred {
    /// They could not be had.
    Unavailable,
    /// They name no process.
    NoPid,
    /// They name this process.
    Pid(u32),
}

/// Gets the process at the other end of a socket.
pub fn get_peer_pid(cred: PeerCred) -> (r: Result<u32, IpcErrors>)
    ensures
        r == (match cred {
            PeerCred::Unavailable => Err::<u32, IpcErrors>(IpcErrors::FailedToGetPeerCred),
            PeerCred::NoPid => Err(IpcErrors::FailedToGetPid),
            PeerCred::Pid(pid) => Ok(pid),
        }),
{
    match cred {
        PeerCred::Unavailable => Err(IpcErrors::FailedToGetPeerCred),
        PeerCred::NoPid => Err(IpcErrors::FailedToGetPid),
        PeerCred::Pid(pid) => Ok(pid),
    }
}

/// Gets the name of the process at the other end of a socket, from the text of its `comm` file.
pub fn get_peer_name(cred: PeerCred, comm: Option<String>) -> (r: Result<String, IpcErrors>)
    ensures
        match (cred, comm, r) {
            (PeerCred::Unavailable, _, Err(e)) => e == IpcErrors::FailedToGetPeerCred,
            (PeerCred::NoPid, _, Err(e)) => e == IpcErrors::FailedToGetPid,
            (PeerCred::Pid(_), None, Err(e)) => e == IpcErrors::FailedToGetProcessName,
            (PeerCred::Pid(_), Some(text), Ok(name)) => name@ == crate::text::trimmed(text@),
            _ => false,
        },
{
    match get_peer_pid(cred) {
        Err(e) => Err(e),
        Ok(_) => match get_process_name(comm) {
            Ok(name) => Ok(name),
            Err(_) => Err(IpcErrors::FailedToGetProcessName),
        },
    }
}

/// What is to be done to the socket file next.
#[derive(Debug, Clone, Copy, PartialEq, Eq, Structural)]
pub enum PipeAction {
    /// Remove the file that is there.
    RemoveFile,
    /// Bind a listener to the path.
    Bind,
    /// Set the file's permissions to this mode.
    SetPermissions(u32),
    /// The listener is ready.
    Ready,
}

/// The mode of the socket file: the owner reads and writes, nobody else does anything.
pub const SOCKET_MODE: u32 = 0o600;

/// Starts to create the socket, unless a daemon is running: a stale socket file is removed first.
pub fn create_secure_pipe(
    path: &Result<String, IpcErrors>,
    running: Result<bool, IpcErrors>,
    socket_exists: bool,
) -> (r: Result<PipeAction, IpcErrors>)
    ensures
        r == (match (*path, running) {
            (Err(_), _) => Err::<PipeAction, IpcErrors>(IpcErrors::FailedToFetchSocketPath),
            (_, Err(_)) => Err(IpcErrors::FailedToCheckIfRunning),
            (_, Ok(true)) => Err(IpcErrors::DaemonAlreadyRunning),
            (_, Ok(false)) => Ok(
                if socket_exists {
                    PipeAction::RemoveFile
                } else {
                    PipeAction::Bind
                },
            ),
        }),
{
    match path {
        Err(_) => Err(IpcErrors::FailedToFetchSocketPath),
        Ok(_) => match running {
            Err(_) => Err(IpcErrors::FailedToCheckIfRunning),
            Ok(running) => if running {
                Err(IpcErrors::DaemonAlreadyRunning)
            } else if socket_exists {
                Ok(PipeAction::RemoveFile)
            } else {
                Ok(PipeAction::Bind)
            },
        },
    }
}

/// What is to be done after an action: the next one, or the action's own error where it did not
/// succeed.
pub open spec fn pipe_next(done: PipeAction, succeeded: bool) -> Result<PipeAction, IpcErrors> {
    match done {
        PipeAction::RemoveFile => if succeeded {
            Ok(PipeAction::Bind)
        } else {
            Err(IpcErrors::FailedToRemoveFile)
        },
        PipeAction::Bind => if succeeded {
            Ok(PipeAction::SetPermissions(SOCKET_MODE))
        } else {
            Err(IpcErrors::FailedToBindSocket)
        },
        PipeAction::SetPermissions(_) => if succeeded {
            Ok(PipeAction::Ready)
        } else {
            Err(IpcErrors::FailedToSetPermissions)
        },
        PipeAction::Ready => Ok(PipeAction::Ready),
    }
}

/// A listener is ready only after it was bound and its file was closed to everyone but the owner,
/// and no failure leads on.
pub proof fn law_pipe_is_private(done: PipeAction, succeeded: bool)
    ensures
        pipe_next(PipeAction::Bind, true) == Ok::<PipeAction, IpcErrors>(
            PipeAction::SetPermissions(0o600),
        ),
        pipe_next(done, succeeded) == Ok::<PipeAction, IpcErrors>(PipeAction::Ready) ==> done
            == PipeAction::Ready || (done is SetPermissions && succeeded),
        pipe_next(done, succeeded) matches Ok(PipeAction::SetPermissions(mode)) ==> mode == 0o600
            && done == PipeAction::Bind && succeeded,
        !succeeded && done != PipeAction::Ready ==> pipe_next(done, succeeded) is Err,
{
}

/// Goes on to create the socket after an action.
pub fn create_secure_pipe_next(done: PipeAction, succeeded: bool) -> (r: Result<
    PipeAction,
    IpcErrors,
>)
    ensures
        r == pipe_next(done, succeeded),
{
    match done {
        PipeAction::RemoveFile => if succeeded {
            Ok(PipeAction::Bind)
        } else {
            Err(IpcErrors::FailedToRemoveFile)
        },
        PipeAction::Bind => if succeeded {
            Ok(PipeAction::SetPermissions(SOCKET_MODE))
        } else {
            Err(IpcErrors::FailedToBindSocket)
        },
        PipeAction::SetPermissions(_) => if succeeded {
            Ok(PipeAction::Ready)
        } else {
            Err(IpcErrors::FailedToSetPermissions)
        },
        PipeAction::Ready => Ok(PipeAction::Ready),
    }
}

/// Converts a 4-byte slice into an address with port 0.
pub fn get_ip_from_bytes(data: &[u8]) -> (addr: PeerAddr)
    requires
        data@.len() == 4,
    ensures
        addr == crate::address::v4_addr(data@),
        crate::address::is_v4(addr, data@),
{
    let ip4: [u8; 4] = array_at::<4>(data, 0);
    assert(ip4@ =~= data@);
    let addr = PeerAddr::V4 { ip4, port: 0 };
    proof {
        crate::address::lemma_v4_addr(addr, data@);
    }
    addr
}

/// Converts an address to its four IPv4 octets.
///
/// IPv4-mapped IPv6 addresses are canonicalized to their V4 form first.
/// Returns zeros for any non-IPv4 address.
pub fn get_bytes_from_ip(socket_addr: &PeerAddr) -> (octets: [u8; 4])
    ensures
        octets@ == crate::address::ipv4_octets(*socket_addr),
{
    match socket_addr {
        PeerAddr::V4 { ip4, .. } => *ip4,
        PeerAddr::V6 { ip6, .. } => {
            let mut mapped = ip6[10] == 0xff && ip6[11] == 0xff;
            let mut i: usize = 0;
            while i < 10
                invariant
                    i <= 10,
                    mapped == (ip6@[10] == 0xff && ip6@[11] == 0xff && forall|j: int|
                        0 <= j < i ==> ip6@[j] == 0),
                decreases 10 - i,
            {
                if ip6[i] != 0 {
                    mapped = false;
                }
                i = i + 1;
            }
            if mapped {
                array_at::<4>(ip6, 12)
            } else {
                let zeros: [u8; 4] = [0u8; 4];
                assert(zeros@ =~= seq![0u8, 0u8, 0u8, 0u8]);
                zeros
            }
        },
    }
}

/// The state that requests over the control channel read and change.
pub struct DaemonState {
    pub trusted: Seq<PeerAddr>,
    pub a_key: Seq<u8>,
    pub d_key: Seq<u8>,
    pub a_salt: Seq<u8>,
    pub d_salt: Seq<u8>,
}

/// The state that these parts make up.
pub open spec fn state_of(trusted: Seq<PeerAddr>, keys: Keys, salts: Salts) -> DaemonState {
    DaemonState {
        trusted,
        a_key: keys.a_key@,
        d_key: keys.d_key@,
        a_salt: salts.a_salt@,
        d_salt: salts.d_salt@,
    }
}

/// The answer to a synchronization request: the size that is announced, as the bytes of a `usize`,
/// and the packed addresses.
pub struct SyncReply {
    pub size: Vec<u8>,
    pub addresses: Vec<u8>,
}

/// What a handled request comes to.
pub enum Handled {
    /// Nothing is answered.
    Silent,
    /// The size and then the addresses are written back.
    Reply(Seq<u8>, Seq<u8>),
    /// The request was malformed.
    Failed(IpcErrors),
}

/// What [`handle_data_server`] returned, over the views of its parts.
pub open spec fn handled_view(r: Result<Option<SyncReply>, IpcErrors>) -> Handled {
    match r {
        Ok(None) => Handled::Silent,
        Ok(Some(reply)) => Handled::Reply(reply.size@, reply.addresses@),
        Err(e) => Handled::Failed(e),
    }
}

/// The IPv4 octets of the addresses, one after the other.
pub open spec fn packed(trusted: Seq<PeerAddr>) -> Seq<u8>
    decreases trusted.len(),
{
    if trusted.len() == 0 {
        Seq::empty()
    } else {
        packed(trusted.drop_last()) + crate::address::ipv4_octets(trusted.last())
    }
}

/// Packed addresses take four bytes each.
proof fn lemma_packed_len(trusted: Seq<PeerAddr>)
    ensures
        packed(trusted).len() == 4 * trusted.len(),
    decreases trusted.len(),
{
    if trusted.len() > 0 {
        lemma_packed_len(trusted.drop_last());
    }
}

/// Whether a request is long enough for its action: it has an action byte, and one that adds a
/// device has the four octets too.
pub open spec fn is_complete(data: Seq<u8>) -> bool {
    data.len() >= 1 && (ActionType::of_byte(data[0]) == Some(ActionType::AddTrustedDevice)
        ==> data.len() >= 5)
}

/// Whether a request is long enough for its action.
pub fn request_is_complete(data: &[u8]) -> (complete: bool)
    ensures
        complete == is_complete(data@),
{
    if data.len() < 1 {
        return false;
    }
    match ActionType::from_u8(data[0]) {
        Some(ActionType::AddTrustedDevice) => data.len() >= 5,
        _ => true,
    }
}

/// What a request does to the state, and what it is answered.
///
/// - `AddTrustedDevice`: bytes 1-4 are the address that is added.
/// - `SyncData`: the trusted addresses are answered, after their size and 8 as a `usize`.
/// - `UpdateAuthPassword`, `UpdateDataPassword`: bytes 1-32 are the new key, 33-64 the new salt.
/// - `Default` and unknown actions: nothing.
pub open spec fn handled(data: Seq<u8>, state: DaemonState) -> (Handled, DaemonState) {
    match ActionType::of_byte(data[0]) {
        Some(ActionType::AddTrustedDevice) => (
            Handled::Silent,
            DaemonState {
                trusted: state.trusted.push(crate::address::v4_addr(data.subrange(1, 5))),
                ..state
            },
        ),
        Some(ActionType::SyncData) => (
            Handled::Reply(
                crate::le::usize_le_bytes((4 * state.trusted.len() + 8) as usize),
                packed(state.trusted),
            ),
            state,
        ),
        Some(ActionType::UpdateAuthPassword) => if data.len() != 65 {
            (Handled::Failed(IpcErrors::WrongDataSize), state)
        } else {
            (
                Handled::Silent,
                DaemonState {
                    a_key: data.subrange(1, 33),
                    a_salt: data.subrange(33, 65),
                    ..state
                },
            )
        },
        Some(ActionType::UpdateDataPassword) => if data.len() != 65 {
            (Handled::Failed(IpcErrors::WrongDataSize), state)
        } else {
            (
                Handled::Silent,
                DaemonState {
                    d_key: data.subrange(1, 33),
                    d_salt: data.subrange(33, 65),
                    ..state
                },
            )
        },
        Some(ActionType::Default) => (Handled::Silent, state),
        None => (Handled::Silent, state),
    }
}

/// A request touches only what it is about: no request changes both keys, an update of one key
/// leaves the other with its salt and the devices alone, adding a device leaves keys and salts
/// alone, and a request that fails, asks for a synchronization or is of no known action changes
/// nothing.
pub proof fn law_requests_touch_only_their_part(data: Seq<u8>, state: DaemonState)
    ensures
        ({
            let (outcome, after) = handled(data, state);
            match ActionType::of_byte(data[0]) {
                Some(ActionType::UpdateAuthPassword) => after == (DaemonState {
                    a_key: after.a_key,
                    a_salt: after.a_salt,
                    ..state
                }),
                Some(ActionType::UpdateDataPassword) => after == (DaemonState {
                    d_key: after.d_key,
                    d_salt: after.d_salt,
                    ..state
                }),
                Some(ActionType::AddTrustedDevice) => after == (DaemonState {
                    trusted: after.trusted,
                    ..state
                }) && after.trusted.drop_last() == state.trusted,
                _ => after == state,
            }
        }),
        handled(data, state).0 is Failed ==> handled(data, state).1 == state,
{
    assert(state.trusted.push(crate::address::v4_addr(data.subrange(1, 5))).drop_last()
        =~= state.trusted);
}

/// Packs the IPv4 octets of addresses.
fn pack(trusted: &[PeerAddr]) -> (bytes: Vec<u8>)
    ensures
        bytes@ == packed(trusted@),
{
    let mut bytes: Vec<u8> = Vec::new();
    let mut i: usize = 0;
    while i < trusted.len()
        invariant
            i <= trusted@.len(),
            bytes@ == packed(trusted@.take(i as int)),
        decreases trusted@.len() - i,
    {
        assert(trusted@.take(i + 1).drop_last() =~= trusted@.take(i as int));
        assert(trusted@.take(i + 1).last() == trusted@[i as int]);
        let octets = get_bytes_from_ip(&trusted[i]);
        bytes.extend_from_slice(&octets);
        i = i + 1;
    }
    assert(trusted@.take(i as int) =~= trusted@);
    bytes
}

/// Handles incoming IPC data based on the action type, the first byte of the data.
///
/// The data is wiped once it is handled. What is to be written back, if anything, is returned.
pub fn handle_data_server(
    data: Vec<u8>,
    trusted_addrs: &mut Vec<PeerAddr>,
    keys: &mut Keys,
    salts: &mut Salts,
) -> (r: Result<Option<SyncReply>, IpcErrors>)
    requires
        is_complete(data@),
        4 * old(trusted_addrs)@.len() + 8 <= usize::MAX,
    ensures
        (handled_view(r), state_of(final(trusted_addrs)@, *final(keys), *final(salts))) == handled(
            data@,
            state_of(old(trusted_addrs)@, *old(keys), *old(salts)),
        ),
        data@[0] != 0x01 ==> final(keys).a_key@ == old(keys).a_key@,
        data@[0] != 0x01 ==> final(salts).a_salt@ == old(salts).a_salt@,
        data@[0] != 0x02 ==> final(keys).d_key@ == old(keys).d_key@,
        data@[0] != 0x02 ==> final(salts).d_salt@ == old(salts).d_salt@,
        data@[0] != 0x03 ==> final(trusted_addrs)@ == old(trusted_addrs)@,
        data@[0] == 0x01 && data@.len() == 65 ==> forall|i: int|
            0 <= i < 32 ==> #[trigger] final(keys).a_key@[i] == data@[1 + i]
                && final(salts).a_salt@[i] == data@[33 + i],
        data@[0] == 0x02 && data@.len() == 65 ==> forall|i: int|
            0 <= i < 32 ==> #[trigger] final(keys).d_key@[i] == data@[1 + i]
                && final(salts).d_salt@[i] == data@[33 + i],
        data@[0] == 0x03 ==> final(trusted_addrs)@.len() == old(trusted_addrs)@.len() + 1
            && final(trusted_addrs)@.drop_last() == old(trusted_addrs)@,
        data@[0] == 0x03 ==> match final(trusted_addrs)@.last() {
            PeerAddr::V4 { ip4, port } => port == 0 && forall|i: int|
                0 <= i < 4 ==> #[trigger] ip4@[i] == data@[1 + i],
            PeerAddr::V6 { .. } => false,
        },
{
    let mut data = data;
    match ActionType::from_u8(data[0]) {
        Some(ActionType::AddTrustedDevice) => {
            let addr = get_ip_from_bytes(vstd::slice::slice_subrange(&data, 1, 5));
            trusted_addrs.push(addr);
            assert(trusted_addrs@.drop_last() =~= old(trusted_addrs)@);
        },
        Some(ActionType::SyncData) => {
            let addresses = pack(trusted_addrs);
            proof {
                lemma_packed_len(trusted_addrs@);
            }
            let size = usize_to_le(addresses.len() + 8);
            wipe(&mut data);
            return Ok(Some(SyncReply { size, addresses }));
        },
        Some(ActionType::UpdateAuthPassword) => {
            if data.len() != 65 {
                return Err(IpcErrors::WrongDataSize);
            }
            keys.a_key = Secret::new(array_at::<32>(&data, 1));
            salts.a_salt = array_at::<32>(&data, 33);
        },
        Some(ActionType::UpdateDataPassword) => {
            if data.len() != 65 {
                return Err(IpcErrors::WrongDataSize);
            }
            keys.d_key = Secret::new(array_at::<32>(&data, 1));
            salts.d_salt = array_at::<32>(&data, 33);
        },
        Some(ActionType::Default) => {},
        None => {},
    }
    wipe(&mut data);
    Ok(None)
}

/// A list with an address that it did not hold before at its end.
pub open spec fn with_device(trusted: Seq<PeerAddr>, addr: PeerAddr) -> Seq<PeerAddr> {
    if trusted.contains(addr) {
        trusted
    } else {
        trusted.push(addr)
    }
}

/// A list with packed addresses added one after the other, each where it is not there yet.
pub open spec fn with_devices(trusted: Seq<PeerAddr>, addresses: Seq<u8>) -> Seq<PeerAddr>
    decreases addresses.len(),
{
    if addresses.len() < 4 {
        trusted
    } else {
        with_devices(
            with_device(trusted, crate::address::v4_addr(addresses.subrange(0, 4))),
            addresses.subrange(4, addresses.len() as int),
        )
    }
}

/// What a synchronization brings: keys and salts are replaced, the addresses that are new are
/// added. A payload of the wrong size changes nothing.
pub open spec fn synced(data: Seq<u8>, state: DaemonState) -> (
    Result<(), IpcErrors>,
    DaemonState,
) {
    if data.len() < 129 || (data.len() - 129) % 4 != 0 {
        (Err(IpcErrors::WrongDataSize), state)
    } else {
        (
            Ok(()),
            DaemonState {
                trusted: with_devices(state.trusted, data.subrange(129, data.len() as int)),
                a_key: data.subrange(1, 33),
                d_key: data.subrange(33, 65),
                a_salt: data.subrange(65, 97),
                d_salt: data.subrange(97, 129),
            },
        )
    }
}

/// Whether `addr` is the IPv4 address, at port 0, of the four octets that stand at `at`.
pub open spec fn v4_at(addr: PeerAddr, data: Seq<u8>, at: int) -> bool {
    match addr {
        PeerAddr::V4 { ip4, port } => {
            &&& ip4@[0] == data[at]
            &&& ip4@[1] == data[at + 1]
            &&& ip4@[2] == data[at + 2]
            &&& ip4@[3] == data[at + 3]
            &&& port == 0
        },
        PeerAddr::V6 { .. } => false,
    }
}

/// Whether a list holds the IPv4 address, at port 0, of the four octets that stand at `at`.
pub open spec fn holds_v4(trusted: Seq<PeerAddr>, data: Seq<u8>, at: int) -> bool {
    exists|j: int| 0 <= j < trusted.len() && v4_at(#[trigger] trusted[j], data, at)
}

/// Adds an address where it is not on the list yet.
fn add_device(trusted: &mut Vec<PeerAddr>, addr: PeerAddr)
    ensures
        final(trusted)@ == with_device(old(trusted)@, addr),
{
    let mut i: usize = 0;
    while i < trusted.len()
        invariant
            i <= trusted@.len(),
            trusted@ == old(trusted)@,
            forall|j: int| 0 <= j < i ==> trusted@[j] != addr,
        decreases trusted@.len() - i,
    {
        if trusted[i].same(&addr) {
            assert(trusted@.contains(addr));
            return ;
        }
        i = i + 1;
    }
    assert(!trusted@.contains(addr));
    trusted.push(addr);
}

/// Adds packed addresses, each where it is not on the list yet.
fn add_devices(trusted: &mut Vec<PeerAddr>, addresses: &[u8])
    ensures
        final(trusted)@ == with_devices(old(trusted)@, addresses@),
{
    let len: usize = addresses.len();
    let mut i: usize = 0;
    assert(addresses@.subrange(0, len as int) =~= addresses@);
    while 4 <= len - i
        invariant
            i <= len,
            len == addresses@.len(),
            with_devices(old(trusted)@, addresses@) == with_devices(
                trusted@,
                addresses@.subrange(i as int, len as int),
            ),
        decreases len - i,
    {
        let ghost rest = addresses@.subrange(i as int, len as int);
        assert(rest.subrange(0, 4) =~= addresses@.subrange(i as int, i + 4));
        assert(rest.subrange(4, rest.len() as int) =~= addresses@.subrange(i + 4, len as int));
        let addr = get_ip_from_bytes(vstd::slice::slice_subrange(addresses, i, i + 4));
        add_device(trusted, addr);
        i = i + 4;
    }
}

/// Client-side handler that applies an IPC action to local shared state.
///
/// - `SyncData`: bytes 1-128 are key and salt material (64 bytes keys, 64 bytes salts), bytes 129+
///   a packed list of 4-byte IPv4 addresses.
/// - `AddTrustedDevice`: bytes 1-4 contain the IPv4 address; nothing is done with it yet.
/// - `UpdateAuthPassword`, `UpdateDataPassword`, `Default`: not handled here.
pub fn ipc_action(
    action_type: ActionType,
    data: &[u8],
    trusted_addrs: &mut Vec<PeerAddr>,
    keys: &mut Keys,
    salts: &mut Salts,
) -> (r: Result<(), IpcErrors>)
    requires
        action_type == ActionType::AddTrustedDevice ==> data@.len() >= 5,
    ensures
        (r, state_of(final(trusted_addrs)@, *final(keys), *final(salts))) == (if action_type
            == ActionType::SyncData {
            synced(data@, state_of(old(trusted_addrs)@, *old(keys), *old(salts)))
        } else {
            (
                Ok::<(), IpcErrors>(()),
                state_of(old(trusted_addrs)@, *old(keys), *old(salts)),
            )
        }),
        action_type != ActionType::SyncData || r is Err ==> {
            &&& final(trusted_addrs)@ == old(trusted_addrs)@
            &&& final(keys).a_key@ == old(keys).a_key@
            &&& final(keys).d_key@ == old(keys).d_key@
            &&& final(salts).a_salt@ == old(salts).a_salt@
            &&& final(salts).d_salt@ == old(salts).d_salt@
        },
        action_type == ActionType::SyncData && r is Ok ==> {
            &&& forall|i: int|
                0 <= i < 32 ==> #[trigger] final(keys).a_key@[i] == data@[1 + i]
                    && final(keys).d_key@[i] == data@[33 + i] && final(salts).a_salt@[i]
                    == data@[65 + i] && final(salts).d_salt@[i] == data@[97 + i]
            &&& forall|i: int|
                0 <= i && 129 + 4 * i + 4 <= data@.len() ==> #[trigger] holds_v4(
                    final(trusted_addrs)@,
                    data@,
                    129 + 4 * i,
                )
        },
{
    proof {
        law_sync_takes_over(data@, state_of(old(trusted_addrs)@, *old(keys), *old(salts)));
    }
    match action_type {
        ActionType::SyncData => {
            if data.len() < 129 {
                return Err(IpcErrors::WrongDataSize);
            }
            // what follows the fixed block must be a whole number of IPv4 addresses
            if (data.len() - 129) % 4 != 0 {
                return Err(IpcErrors::WrongDataSize);
            }
            let keys_new: Secret<64> = Secret::new(array_at::<64>(data, 1));
            let salts_new: Secret<64> = Secret::new(array_at::<64>(data, 65));
            assert(keys_new@.subrange(0, 32) =~= data@.subrange(1, 33));
            assert(keys_new@.subrange(32, 64) =~= data@.subrange(33, 65));
            assert(salts_new@.subrange(0, 32) =~= data@.subrange(65, 97));
            assert(salts_new@.subrange(32, 64) =~= data@.subrange(97, 129));
            salts.update(Salts::from_ref(&salts_new.bytes));
            keys.update(Keys::from_ref(&keys_new.bytes));
            add_devices(trusted_addrs, vstd::slice::slice_subrange(data, 129, data.len()));
            Ok(())
        },
        _ => Ok(()),
    }
}

/// The list only grows: what was on it stays, in its place.
pub proof fn law_sync_keeps_devices(trusted: Seq<PeerAddr>, addresses: Seq<u8>)
    ensures
        trusted.len() <= with_devices(trusted, addresses).len(),
        with_devices(trusted, addresses).take(trusted.len() as int) == trusted,
    decreases addresses.len(),
{
    if addresses.len() >= 4 {
        let next = with_device(trusted, crate::address::v4_addr(addresses.subrange(0, 4)));
        let rest = addresses.subrange(4, addresses.len() as int);
        law_sync_keeps_devices(next, rest);
        assert(next.take(trusted.len() as int) =~= trusted);
        assert(with_devices(next, rest).take(next.len() as int).take(trusted.len() as int)
            =~= with_devices(next, rest).take(trusted.len() as int));
    } else {
        assert(trusted.take(trusted.len() as int) =~= trusted);
    }
}

/// A list without repetitions stays one.
pub proof fn law_sync_adds_no_duplicate(trusted: Seq<PeerAddr>, addresses: Seq<u8>)
    requires
        trusted.no_duplicates(),
    ensures
        with_devices(trusted, addresses).no_duplicates(),
    decreases addresses.len(),
{
    if addresses.len() >= 4 {
        let next = with_device(trusted, crate::address::v4_addr(addresses.subrange(0, 4)));
        assert(next.no_duplicates());
        law_sync_adds_no_duplicate(next, addresses.subrange(4, addresses.len() as int));
    }
}

/// Every address of the payload is on the list afterwards.
pub proof fn law_sync_adds_every_device(trusted: Seq<PeerAddr>, addresses: Seq<u8>, i: int)
    requires
        0 <= i,
        4 * i + 4 <= addresses.len(),
    ensures
        with_devices(trusted, addresses).contains(
            crate::address::v4_addr(addresses.subrange(4 * i, 4 * i + 4)),
        ),
    decreases addresses.len(),
{
    let addr = crate::address::v4_addr(addresses.subrange(0, 4));
    let next = with_device(trusted, addr);
    let rest = addresses.subrange(4, addresses.len() as int);
    if i == 0 {
        assert(next.contains(addr)) by {
            if !trusted.contains(addr) {
                assert(next.last() == addr);
            }
        }
        law_sync_keeps_devices(next, rest);
        let at = choose|k: int| 0 <= k < next.len() && next[k] == addr;
        assert(with_devices(next, rest)[at] == with_devices(next, rest).take(
            next.len() as int,
        )[at]);
    } else {
        assert(rest.subrange(4 * (i - 1), 4 * (i - 1) + 4) =~= addresses.subrange(
            4 * i,
            4 * i + 4,
        ));
        law_sync_adds_every_device(next, rest, i - 1);
    }
}

/// How the handling of a connection over the control channel ended.
#[derive(Debug, Clone, Copy, PartialEq, Eq)]
pub enum IpcVerdict {
    /// The message went through.
    Done,
    /// It did not.
    Failed(IpcErrors),
}

impl View for IpcVerdict {
    type V = IpcVerdict;

    open spec fn view(&self) -> IpcVerdict {
        *self
    }
}

impl IpcVerdict {
    /// Success, or what went wrong.
    pub fn into_result(self) -> (r: Result<(), IpcErrors>)
        ensures
            r == (match self {
                IpcVerdict::Done => Ok::<(), IpcErrors>(()),
                IpcVerdict::Failed(e) => Err(e),
            }),
    {
        match self {
            IpcVerdict::Done => Ok(()),
            IpcVerdict::Failed(e) => Err(e),
        }
    }
}

/// The largest message that the daemon accepts, in bytes.
pub const MAX_MESSAGE: u64 = 65536;

/// Whether a process of this name may talk to the daemon.
pub open spec fn is_trusted_process(name: Seq<char>) -> bool {
    name == "cesa_conn_tui"@ || name == "cesa_conn_gui"@
}

/// Where the daemon's side of a connection stands.
pub enum IpcRecv {
    /// Waiting for the size of the message.
    Size,
    /// The confirmation byte is on its way out.
    Confirmation { size: usize },
    /// Waiting for the message.
    Message { size: usize },
    /// The size of the answer is on its way out; the addresses come next.
    ReplySize { addresses: Vec<u8> },
    /// The addresses are on their way out.
    ReplyAddresses,
}

/// An [`IpcRecv`] with its bytes as mathematical sequences.
pub enum IpcRecvView {
    Size,
    Confirmation(nat),
    Message(nat),
    ReplySize(Seq<u8>),
    ReplyAddresses,
}

impl View for IpcRecv {
    type V = IpcRecvView;

    open spec fn view(&self) -> IpcRecvView {
        match self {
            IpcRecv::Size => IpcRecvView::Size,
            IpcRecv::Confirmation { size } => IpcRecvView::Confirmation(*size as nat),
            IpcRecv::Message { size } => IpcRecvView::Message(*size as nat),
            IpcRecv::ReplySize { addresses } => IpcRecvView::ReplySize(addresses@),
            IpcRecv::ReplyAddresses => IpcRecvView::ReplyAddresses,
        }
    }
}

impl IpcRecvView {
    /// A message that is waited for has at least one byte, and no more than the daemon accepts.
    pub open spec fn wf(self) -> bool {
        match self {
            IpcRecvView::Confirmation(size) => 1 <= size <= MAX_MESSAGE,
            IpcRecvView::Message(size) => 1 <= size <= MAX_MESSAGE,
            _ => true,
        }
    }
}

/// The end of a connection that broke down.
pub open spec fn ipc_failed<M>(e: IpcErrors) -> TurnView<M, IpcVerdict> {
    TurnView::Finish(IpcVerdict::Failed(e))
}

/// The daemon's side of a connection, one stream operation at a time, with what it does to the
/// state.
pub open spec fn ipc_recv_next(recv: IpcRecvView, event: EventView, state: DaemonState) -> (
    TurnView<IpcRecvView, IpcVerdict>,
    DaemonState,
) {
    match recv {
        IpcRecvView::Size => (
            if !event.is_read_of(8) {
                ipc_failed(IpcErrors::FailedToReadDataFromStream)
            } else {
                let size = crate::le::le_value(event.bytes());
                if size > MAX_MESSAGE {
                    ipc_failed(IpcErrors::DataTooLarge)
                } else if size == 0 {
                    ipc_failed(IpcErrors::NoData)
                } else {
                    TurnView::Write(IpcRecvView::Confirmation(size as nat), seq![1u8])
                }
            },
            state,
        ),
        IpcRecvView::Confirmation(size) => (
            if event != EventView::Written {
                ipc_failed(IpcErrors::FailedToWriteToStream)
            } else {
                TurnView::Read(IpcRecvView::Message(size), size)
            },
            state,
        ),
        IpcRecvView::Message(size) => if !event.is_read_of(size) {
            (ipc_failed(IpcErrors::FailedToReadDataFromStream), state)
        } else {
            let (outcome, after) = handled(event.bytes(), state);
            (
                match outcome {
                    Handled::Silent => TurnView::Finish(IpcVerdict::Done),
                    Handled::Reply(bytes, addresses) => TurnView::Write(
                        IpcRecvView::ReplySize(addresses),
                        bytes,
                    ),
                    Handled::Failed(_) => ipc_failed(IpcErrors::FailedToHandleData),
                },
                after,
            )
        },
        IpcRecvView::ReplySize(addresses) => (
            if event != EventView::Written {
                ipc_failed(IpcErrors::FailedToHandleData)
            } else {
                TurnView::Write(IpcRecvView::ReplyAddresses, addresses)
            },
            state,
        ),
        IpcRecvView::ReplyAddresses => (
            if event != EventView::Written {
                ipc_failed(IpcErrors::FailedToHandleData)
            } else {
                TurnView::Finish(IpcVerdict::Done)
            },
            state,
        ),
    }
}

/// Takes the announced size of a message: one that is empty or too large is refused.
fn recv_size(event: Event) -> (turn: Turn<IpcRecv, IpcVerdict>)
    ensures
        forall|state: DaemonState|
            turn@ == (#[trigger] ipc_recv_next(IpcRecvView::Size, event@, state)).0,
        match turn@ {
            TurnView::Read(then, _) => then.wf(),
            TurnView::Write(then, _) => then.wf(),
            TurnView::Finish(_) => true,
        },
{
    match event.read_of(8) {
        None => Turn::Finish(IpcVerdict::Failed(IpcErrors::FailedToReadDataFromStream)),
        Some(bytes) => {
            let prefix: [u8; 8] = array_at::<8>(&bytes, 0);
            assert(prefix@ =~= bytes@);
            let size: u64 = u64_from_le(&prefix);
            if size > MAX_MESSAGE {
                return Turn::Finish(IpcVerdict::Failed(IpcErrors::DataTooLarge));
            }
            if size == 0 {
                return Turn::Finish(IpcVerdict::Failed(IpcErrors::NoData));
            }
            let byte: [u8; 1] = [1u8];
            assert(byte@ =~= seq![1u8]);
            Turn::Write(IpcRecv::Confirmation { size: size as usize }, copied(&byte))
        },
    }
}

impl IpcRecv {
    /// Opens the daemon's side of a connection: only a trusted process is listened to.
    pub fn begin(peer_name: Result<String, IpcErrors>) -> (turn: Turn<IpcRecv, IpcVerdict>)
        ensures
            turn@ == (match peer_name {
                Err(_) => ipc_failed(IpcErrors::FailedToGetPeerName),
                Ok(name) => if is_trusted_process(name@) {
                    TurnView::Read(IpcRecvView::Size, 8)
                } else {
                    ipc_failed(IpcErrors::UnauthorizedPeer)
                },
            }),
    {
        match peer_name {
            Err(_) => Turn::Finish(IpcVerdict::Failed(IpcErrors::FailedToGetPeerName)),
            Ok(name) => if name == "cesa_conn_tui".to_owned() || name
                == "cesa_conn_gui".to_owned() {
                Turn::Read(IpcRecv::Size, 8)
            } else {
                Turn::Finish(IpcVerdict::Failed(IpcErrors::UnauthorizedPeer))
            },
        }
    }

    /// Goes on after `event`, applying the message once it is there.
    pub fn advance(
        self,
        event: Event,
        trusted_addrs: &mut Vec<PeerAddr>,
        keys: &mut Keys,
        salts: &mut Salts,
    ) -> (turn: Turn<IpcRecv, IpcVerdict>)
        requires
            self@.wf(),
            self@ is Message && event@.is_read_of(self@->Message_0) ==> is_complete(event@.bytes()),
            4 * old(trusted_addrs)@.len() + 8 <= usize::MAX,
        ensures
            (turn@, state_of(final(trusted_addrs)@, *final(keys), *final(salts)))
                == ipc_recv_next(
                self@,
                event@,
                state_of(old(trusted_addrs)@, *old(keys), *old(salts)),
            ),
            match turn@ {
                TurnView::Read(then, _) => then.wf(),
                TurnView::Write(then, _) => then.wf(),
                TurnView::Finish(_) => true,
            },
    {
        match self {
            IpcRecv::Size => recv_size(event),
            IpcRecv::Confirmation { size } => if event.is_written() {
                Turn::Read(IpcRecv::Message { size }, size)
            } else {
                Turn::Finish(IpcVerdict::Failed(IpcErrors::FailedToWriteToStream))
            },
            IpcRecv::Message { size } => match event.read_of(size) {
                None => Turn::Finish(IpcVerdict::Failed(IpcErrors::FailedToReadDataFromStream)),
                Some(data) => match handle_data_server(data, trusted_addrs, keys, salts) {
                    Err(_) => Turn::Finish(IpcVerdict::Failed(IpcErrors::FailedToHandleData)),
                    Ok(None) => Turn::Finish(IpcVerdict::Done),
                    Ok(Some(reply)) => Turn::Write(
                        IpcRecv::ReplySize { addresses: reply.addresses },
                        reply.size,
                    ),
                },
            },
            IpcRecv::ReplySize { addresses } => if event.is_written() {
                Turn::Write(IpcRecv::ReplyAddresses, addresses)
            } else {
                Turn::Finish(IpcVerdict::Failed(IpcErrors::FailedToHandleData))
            },
            IpcRecv::ReplyAddresses => if event.is_written() {
                Turn::Finish(IpcVerdict::Done)
            } else {
                Turn::Finish(IpcVerdict::Failed(IpcErrors::FailedToHandleData))
            },
        }
    }
}

/// Where the sender's side of a connection stands.
pub enum IpcSend {
    /// The size of the message is on its way out.
    Size { message: Vec<u8> },
    /// Waiting for the confirmation byte.
    Confirmation { message: Vec<u8> },
    /// The message is on its way out.
    Message,
}

/// An [`IpcSend`] with its message as a mathematical sequence.
pub enum IpcSendView {
    Size(Seq<u8>),
    Confirmation(Seq<u8>),
    Message,
}

impl View for IpcSend {
    type V = IpcSendView;

    open spec fn view(&self) -> IpcSendView {
        match self {
            IpcSend::Size { message } => IpcSendView::Size(message@),
            IpcSend::Confirmation { message } => IpcSendView::Confirmation(message@),
            IpcSend::Message => IpcSendView::Message,
        }
    }
}

/// A message: the action's byte, then the data.
pub open spec fn message_bytes(action_type: ActionType, data: Seq<u8>) -> Seq<u8> {
    seq![action_type.byte()] + data
}

/// The sender's side of a connection, one stream operation at a time.
pub open spec fn ipc_send_next(send: IpcSendView, event: EventView) -> TurnView<
    IpcSendView,
    IpcVerdict,
> {
    match send {
        IpcSendView::Size(message) => if event != EventView::Written {
            ipc_failed(IpcErrors::FailedToWriteToStream)
        } else {
            TurnView::Read(IpcSendView::Confirmation(message), 1)
        },
        IpcSendView::Confirmation(message) => if !event.is_read_of(1) {
            ipc_failed(IpcErrors::FailedToReadDataFromStream)
        } else if event.bytes()[0] == 0 {
            ipc_failed(IpcErrors::ConfirmationByteNotReceived)
        } else {
            TurnView::Write(IpcSendView::Message, message)
        },
        IpcSendView::Message => if event != EventView::Written {
            ipc_failed(IpcErrors::FailedToWriteToStream)
        } else {
            TurnView::Finish(IpcVerdict::Done)
        },
    }
}

/// Whether a message can be sent at all: there must be a socket, and a daemon that listens on it.
pub fn ipc_send(path: &Result<String, IpcErrors>, running: Result<bool, IpcErrors>) -> (r: Result<
    (),
    IpcErrors,
>)
    ensures
        r == (match (*path, running) {
            (Err(_), _) => Err::<(), IpcErrors>(IpcErrors::FailedToFetchSocketPath),
            (_, Err(_)) => Err(IpcErrors::FailedToCheckIfRunning),
            (_, Ok(false)) => Err(IpcErrors::DaemonIsNotRunning),
            (_, Ok(true)) => Ok(()),
        }),
{
    match path {
        Err(_) => Err(IpcErrors::FailedToFetchSocketPath),
        Ok(_) => match running {
            Err(_) => Err(IpcErrors::FailedToCheckIfRunning),
            Ok(running) => if running {
                Ok(())
            } else {
                Err(IpcErrors::DaemonIsNotRunning)
            },
        },
    }
}

impl IpcSend {
    /// Opens the sender's side, once the connection is there: the size of the message goes out
    /// first.
    pub fn begin(connected: bool, action_type: ActionType, data: &[u8]) -> (turn: Turn<
        IpcSend,
        IpcVerdict,
    >)
        ensures
            turn@ == (if connected {
                let message = message_bytes(action_type, data@);
                TurnView::Write(
                    IpcSendView::Size(message),
                    crate::le::le_bytes(message.len() as u64),
                )
            } else {
                ipc_failed(IpcErrors::FailedToConnectToPipe)
            }),
    {
        if !connected {
            return Turn::Finish(IpcVerdict::Failed(IpcErrors::FailedToConnectToPipe));
        }
        let first: [u8; 1] = [action_type.to_u8()];
        let message = joined(&first, data);
        assert(message@ =~= message_bytes(action_type, data@));
        let size = u64_to_le(message.len() as u64);
        Turn::Write(IpcSend::Size { message }, copied(&size))
    }

    /// Goes on after `event`.
    pub fn advance(self, event: Event) -> (turn: Turn<IpcSend, IpcVerdict>)
        ensures
            turn@ == ipc_send_next(self@, event@),
    {
        match self {
            IpcSend::Size { message } => if event.is_written() {
                Turn::Read(IpcSend::Confirmation { message }, 1)
            } else {
                Turn::Finish(IpcVerdict::Failed(IpcErrors::FailedToWriteToStream))
            },
            IpcSend::Confirmation { message } => match event.read_of(1) {
                None => Turn::Finish(IpcVerdict::Failed(IpcErrors::FailedToReadDataFromStream)),
                Some(byte) => if byte[0] == 0x00 {
                    Turn::Finish(IpcVerdict::Failed(IpcErrors::ConfirmationByteNotReceived))
                } else {
                    Turn::Write(IpcSend::Message, message)
                },
            },
            IpcSend::Message => if event.is_written() {
                Turn::Finish(IpcVerdict::Done)
            } else {
                Turn::Finish(IpcVerdict::Failed(IpcErrors::FailedToWriteToStream))
            },
        }
    }
}

/// The message that a sender sends is the message that the daemon handles: the daemon confirms the
/// size that the sender announces, the sender takes the confirmation and writes the message, and
/// the daemon reads exactly that, with the sender's action in front of the sender's data.
pub proof fn law_ipc_message_arrives(action_type: ActionType, data: Seq<u8>, state: DaemonState)
    requires
        data.len() < MAX_MESSAGE,
    ensures
        ({
            let message = message_bytes(action_type, data);
            let size = crate::le::le_bytes(message.len() as u64);
            let confirmed = ipc_recv_next(IpcRecvView::Size, EventView::Read(size), state);
            let waiting = ipc_recv_next(
                IpcRecvView::Confirmation(message.len()),
                EventView::Written,
                state,
            );
            let sending = ipc_send_next(
                IpcSendView::Confirmation(message),
                EventView::Read(seq![1u8]),
            );
            &&& confirmed == (
                TurnView::<IpcRecvView, IpcVerdict>::Write(
                    IpcRecvView::Confirmation(message.len()),
                    seq![1u8],
                ),
                state,
            )
            &&& waiting == (
                TurnView::<IpcRecvView, IpcVerdict>::Read(
                    IpcRecvView::Message(message.len()),
                    message.len(),
                ),
                state,
            )
            &&& sending == TurnView::<IpcSendView, IpcVerdict>::Write(
                IpcSendView::Message,
                message,
            )
            &&& ActionType::of_byte(message[0]) == Some(action_type)
            &&& message.subrange(1, message.len() as int) == data
        }),
{
    let message = message_bytes(action_type, data);
    crate::le::law_le_round_trip(message.len() as u64);
    assert(message.subrange(1, message.len() as int) =~= data);
}

/// What happened while the daemon waited for a connection.
#[derive(Clone, Copy)]
pub enum DaemonEvent {
    /// The cancellation token fired.
    Cancelled,
    /// A process connected.
    Accepted,
    /// Accepting failed.
    AcceptFailed,
}

/// Whether the daemon can start: it needs its socket.
pub fn ipc_daemon_start(pipe_created: bool) -> (r: Result<(), IpcErrors>)
    ensures
        r == (if pipe_created {
            Ok::<(), IpcErrors>(())
        } else {
            Err(IpcErrors::FailedToCreateSecurePipe)
        }),
{
    if pipe_created {
        Ok(())
    } else {
        Err(IpcErrors::FailedToCreateSecurePipe)
    }
}

/// One round of the daemon: whether it goes on, with a task of its own for the connection. A
/// cancellation stops it cleanly, a failed accept stops it with an error.
pub fn ipc_daemon(event: DaemonEvent) -> (r: Result<bool, IpcErrors>)
    ensures
        r == (match event {
            DaemonEvent::Cancelled => Ok::<bool, IpcErrors>(false),
            DaemonEvent::Accepted => Ok(true),
            DaemonEvent::AcceptFailed => Err(IpcErrors::FailedToAcceptConnection),
        }),
{
    match event {
        DaemonEvent::Cancelled => Ok(false),
        DaemonEvent::Accepted => Ok(true),
        DaemonEvent::AcceptFailed => Err(IpcErrors::FailedToAcceptConnection),
    }
}

/// A synchronization is taken over whole. It succeeds exactly on a payload of 129 bytes and a whole
/// number of addresses; then the keys and salts are those of the payload, byte for byte, and every
/// address of the payload, from its first to its last, is on the list. Any other payload changes
/// nothing.
pub proof fn law_sync_takes_over(data: Seq<u8>, state: DaemonState)
    ensures
        ({
            let (r, after) = synced(data, state);
            &&& r is Ok <==> data.len() >= 129 && (data.len() - 129) % 4 == 0
            &&& r matches Err(e) ==> e == IpcErrors::WrongDataSize && after == state
            &&& r is Ok ==> {
                &&& after.a_key.len() == 32 && after.d_key.len() == 32
                &&& after.a_salt.len() == 32 && after.d_salt.len() == 32
                &&& forall|i: int|
                    0 <= i < 32 ==> #[trigger] after.a_key[i] == data[1 + i] && after.d_key[i]
                        == data[33 + i] && after.a_salt[i] == data[65 + i] && after.d_salt[i]
                        == data[97 + i]
                &&& forall|i: int|
                    0 <= i && 129 + 4 * i + 4 <= data.len() ==> #[trigger] holds_v4(
                        after.trusted,
                        data,
                        129 + 4 * i,
                    )
                &&& after.trusted.len() >= state.trusted.len()
                &&& after.trusted.take(state.trusted.len() as int) == state.trusted
            }
        }),
{
    let (r, after) = synced(data, state);
    if r is Ok {
        let addresses = data.subrange(129, data.len() as int);
        law_sync_keeps_devices(state.trusted, addresses);
        assert forall|i: int| 0 <= i && 129 + 4 * i + 4 <= data.len() implies #[trigger] holds_v4(
            after.trusted,
            data,
            129 + 4 * i,
        ) by {
            let octets = addresses.subrange(4 * i, 4 * i + 4);
            law_sync_adds_every_device(state.trusted, addresses, i);
            crate::address::law_v4_addr_has_the_octets(octets);
            let j = choose|j: int|
                0 <= j < after.trusted.len() && after.trusted[j] == crate::address::v4_addr(octets);
            assert(v4_at(after.trusted[j], data, 129 + 4 * i));
        }
    }
}

/// Only what the payload names is added: every address on the list afterwards was there before or is
/// one of the payload's.
pub proof fn law_sync_adds_nothing_else(trusted: Seq<PeerAddr>, addresses: Seq<u8>, j: int)
    requires
        0 <= j < with_devices(trusted, addresses).len(),
    ensures
        trusted.contains(with_devices(trusted, addresses)[j]) || exists|i: int|
            0 <= i && 4 * i + 4 <= addresses.len() && with_devices(trusted, addresses)[j]
                == crate::address::v4_addr(#[trigger] addresses.subrange(4 * i, 4 * i + 4)),
    decreases addresses.len(),
{
    if addresses.len() >= 4 {
        let addr = crate::address::v4_addr(addresses.subrange(0, 4));
        let next = with_device(trusted, addr);
        let rest = addresses.subrange(4, addresses.len() as int);
        let found = with_devices(next, rest)[j];
        law_sync_adds_nothing_else(next, rest, j);
        if next.contains(found) {
            if !trusted.contains(found) {
                let k = choose|k: int| 0 <= k < next.len() && next[k] == found;
                assert(k < trusted.len() ==> trusted[k] == found);
                assert(found == addr);
                let i: int = 0;
                assert(addresses.subrange(4 * i, 4 * i + 4) == addresses.subrange(0, 4));
            }
        } else {
            let i = choose|i: int|
                0 <= i && 4 * i + 4 <= rest.len() && found == crate::address::v4_addr(
                    #[trigger] rest.subrange(4 * i, 4 * i + 4),
                );
            assert(rest.subrange(4 * i, 4 * i + 4) =~= addresses.subrange(
                4 * (i + 1),
                4 * (i + 1) + 4,
            ));
        }
    }
}

/// One address is added at the end of the list, unless it is there already.
pub proof fn law_sync_adds_a_new_device_at_the_end(trusted: Seq<PeerAddr>, octets: Seq<u8>)
    requires
        octets.len() == 4,
    ensures
        holds_v4(trusted, octets, 0) ==> with_devices(trusted, octets) == trusted,
        !holds_v4(trusted, octets, 0) ==> with_devices(trusted, octets).len() == trusted.len() + 1
            && with_devices(trusted, octets).drop_last() == trusted && v4_at(
            with_devices(trusted, octets).last(),
            octets,
            0,
        ),
{
    reveal_with_fuel(with_devices, 2);
    let addr = crate::address::v4_addr(octets);
    assert(octets.subrange(0, 4) =~= octets);
    crate::address::law_v4_addr_has_the_octets(octets);
    let added = with_devices(trusted, octets);
    if holds_v4(trusted, octets, 0) {
        let j = choose|j: int|
            0 <= j < trusted.len() && v4_at(#[trigger] trusted[j], octets, 0);
        if let PeerAddr::V4 { ip4, .. } = trusted[j] {
            assert(ip4@ =~= octets);
            crate::address::lemma_v4_addr(trusted[j], octets);
        }
        assert(trusted.contains(addr));
    } else {
        if trusted.contains(addr) {
            let j = choose|j: int| 0 <= j < trusted.len() && trusted[j] == addr;
            assert(v4_at(trusted[j], octets, 0));
        }
        assert(added == trusted.push(addr));
        assert(added.drop_last() =~= trusted);
    }
}

/// Addresses are added in the order of the payload: adding two lists of them is adding the first and
/// then the second.
pub proof fn law_sync_adds_in_order(trusted: Seq<PeerAddr>, first: Seq<u8>, second: Seq<u8>)
    requires
        first.len() % 4 == 0,
    ensures
        with_devices(trusted, first + second) == with_devices(
            with_devices(trusted, first),
            second,
        ),
    decreases first.len(),
{
    let all = first + second;
    if first.len() == 0 {
        assert(all =~= second);
    } else {
        let rest = first.subrange(4, first.len() as int);
        assert(all.subrange(0, 4) =~= first.subrange(0, 4));
        assert(all.subrange(4, all.len() as int) =~= rest + second);
        law_sync_adds_in_order(
            with_device(trusted, crate::address::v4_addr(first.subrange(0, 4))),
            rest,
            second,
        );
    }
}

/// A request to add a device puts it at the end of the list, at port 0, with the four octets that
/// follow the action byte, in their order; nothing else changes and nothing is answered.
pub proof fn law_added_device_has_the_octets(data: Seq<u8>, state: DaemonState)
    requires
        data.len() >= 5,
        data[0] == 0x03,
    ensures
        ({
            let (outcome, after) = handled(data, state);
            &&& outcome == Handled::Silent
            &&& after.trusted.len() == state.trusted.len() + 1
            &&& after.trusted.drop_last() == state.trusted
            &&& v4_at(after.trusted.last(), data, 1)
            &&& after.a_key == state.a_key && after.d_key == state.d_key
            &&& after.a_salt == state.a_salt && after.d_salt == state.d_salt
        }),
{
    let octets = data.subrange(1, 5);
    crate::address::law_v4_addr_has_the_octets(octets);
    let after = handled(data, state).1;
    assert(after.trusted.drop_last() =~= state.trusted);
}

/// A request to update a password replaces that password's key with the 32 bytes after the action
/// byte and its salt with the 32 bytes after those. One of another length is refused. The other
/// password and the devices stay as they are.
pub proof fn law_password_update_takes_the_bytes(data: Seq<u8>, state: DaemonState)
    requires
        data.len() >= 1,
        data[0] == 0x01 || data[0] == 0x02,
    ensures
        ({
            let (outcome, after) = handled(data, state);
            &&& after.trusted == state.trusted
            &&& data.len() != 65 ==> outcome == Handled::Failed(IpcErrors::WrongDataSize) && after
                == state
            &&& data.len() == 65 ==> outcome == Handled::Silent
            &&& data.len() == 65 && data[0] == 0x01 ==> {
                &&& after.a_key.len() == 32 && after.a_salt.len() == 32
                &&& forall|i: int|
                    0 <= i < 32 ==> #[trigger] after.a_key[i] == data[1 + i] && after.a_salt[i]
                        == data[33 + i]
                &&& after.d_key == state.d_key && after.d_salt == state.d_salt
            }
            &&& data.len() == 65 && data[0] == 0x02 ==> {
                &&& after.d_key.len() == 32 && after.d_salt.len() == 32
                &&& forall|i: int|
                    0 <= i < 32 ==> #[trigger] after.d_key[i] == data[1 + i] && after.d_salt[i]
                        == data[33 + i]
                &&& after.a_key == state.a_key && after.a_salt == state.a_salt
            }
        }),
{
}

/// The packed addresses hold the four octets of every address, in the order of the list.
pub proof fn law_packed_holds_every_address(trusted: Seq<PeerAddr>, i: int, k: int)
    requires
        0 <= i < trusted.len(),
        0 <= k < 4,
    ensures
        packed(trusted).len() == 4 * trusted.len(),
        packed(trusted)[4 * i + k] == crate::address::ipv4_octets(trusted[i])[k],
    decreases trusted.len(),
{
    lemma_packed_len(trusted);
    lemma_packed_len(trusted.drop_last());
    if i < trusted.len() - 1 {
        law_packed_holds_every_address(trusted.drop_last(), i, k);
    }
}

/// A request for synchronization changes nothing and is answered with every trusted address, in the
/// order of the list, after a number that says how many bytes these are and eight more.
pub proof fn law_sync_request_answers_the_list(data: Seq<u8>, state: DaemonState)
    requires
        data.len() >= 1,
        data[0] == 0x04,
        4 * state.trusted.len() + 8 <= usize::MAX,
    ensures
        handled(data, state).1 == state,
        match handled(data, state).0 {
            Handled::Reply(size, addresses) => {
                &&& addresses.len() == 4 * state.trusted.len()
                &&& forall|i: int, k: int|
                    0 <= i < state.trusted.len() && 0 <= k < 4 ==> addresses[4 * i + k]
                        == #[trigger] crate::address::ipv4_octets(state.trusted[i])[k]
                &&& size.len() * 8 == usize::BITS
                &&& crate::le::le_value(
                    size + Seq::new((8 - size.len()) as nat, |i: int| 0u8),
                ) == addresses.len() + 8
            },
            _ => false,
        },
{
    lemma_packed_len(state.trusted);
    let count = (4 * state.trusted.len() + 8) as usize;
    crate::le::law_usize_bytes_hold_all(count);
    crate::le::law_le_round_trip(count as u64);
    assert forall|i: int, k: int| 0 <= i < state.trusted.len() && 0 <= k < 4 implies packed(
        state.trusted,
    )[4 * i + k] == #[trigger] crate::address::ipv4_octets(state.trusted[i])[k] by {
        law_packed_holds_every_address(state.trusted, i, k);
    }
}

/// What was added is what is answered: after a request to add a device, the answer to a request for
/// synchronization ends with the four octets that the first request held.
pub proof fn law_added_device_is_answered(add: Seq<u8>, sync: Seq<u8>, state: DaemonState)
    requires
        add.len() >= 5,
        add[0] == 0x03,
        sync.len() >= 1,
        sync[0] == 0x04,
    ensures
        match handled(sync, handled(add, state).1).0 {
            Handled::Reply(_, addresses) => addresses.len() >= 4 && addresses.subrange(
                addresses.len() - 4,
                addresses.len() as int,
            ) == add.subrange(1, 5),
            _ => false,
        },
{
    let after = handled(add, state).1;
    let octets = add.subrange(1, 5);
    crate::address::law_v4_addr_has_the_octets(octets);
    lemma_packed_len(after.trusted);
    assert(after.trusted.last() == crate::address::v4_addr(octets));
    let addresses = packed(after.trusted);
    assert(crate::address::ipv4_octets(after.trusted.last()) =~= octets);
    assert(addresses.subrange(addresses.len() - 4, addresses.len() as int) =~= octets);
}

/// A request of no known action, or of the default one, changes nothing and is not answered.
pub proof fn law_other_requests_do_nothing(data: Seq<u8>, state: DaemonState)
    requires
        data.len() >= 1,
        data[0] == 0x00 || data[0] > 0x04,
    ensures
        handled(data, state) == (Handled::Silent, state),
{
}

/// Whether a request is long enough: every request has an action byte, and one to add a device the
/// four octets after it. Nothing more is asked of it.
pub proof fn law_complete_requests(data: Seq<u8>)
    ensures
        is_complete(data) <==> data.len() >= 5 || (data.len() >= 1 && data[0] != 0x03),
{
}

/// The daemon listens to the two user interfaces and to nobody else.
pub proof fn law_daemon_listens_to_the_interfaces_only(
    peer_name: Result<String, IpcErrors>,
    turn: Turn<IpcRecv, IpcVerdict>,
)
    requires
        call_ensures(IpcRecv::begin, (peer_name,), turn),
    ensures
        match peer_name {
            Ok(name) => {
                &&& name@ == "cesa_conn_tui"@ || name@ == "cesa_conn_gui"@ ==> turn@ == TurnView::<
                    IpcRecvView,
                    IpcVerdict,
                >::Read(IpcRecvView::Size, 8)
                &&& name@ != "cesa_conn_tui"@ && name@ != "cesa_conn_gui"@ ==> turn@ == TurnView::<
                    IpcRecvView,
                    IpcVerdict,
                >::Finish(IpcVerdict::Failed(IpcErrors::UnauthorizedPeer))
            },
            Err(_) => turn@ == TurnView::<IpcRecvView, IpcVerdict>::Finish(
                IpcVerdict::Failed(IpcErrors::FailedToGetPeerName),
            ),
        },
{
}

/// The daemon confirms every size from one byte to 65536 bytes, and waits for a message of just that
/// size; it refuses an empty message and a larger one. None of this changes its state.
pub proof fn law_daemon_confirms_sizes_within_the_limit(event: EventView, state: DaemonState)
    ensures
        ({
            let (turn, after) = ipc_recv_next(IpcRecvView::Size, event, state);
            &&& after == state
            &&& match event {
                EventView::Read(bytes) => if bytes.len() != 8 {
                    turn == TurnView::<IpcRecvView, IpcVerdict>::Finish(
                        IpcVerdict::Failed(IpcErrors::FailedToReadDataFromStream),
                    )
                } else {
                    let size = crate::le::le_value(bytes);
                    &&& 1 <= size <= 65536 ==> turn == TurnView::<IpcRecvView, IpcVerdict>::Write(
                        IpcRecvView::Confirmation(size as nat),
                        seq![1u8],
                    )
                    &&& size == 0 ==> turn == TurnView::<IpcRecvView, IpcVerdict>::Finish(
                        IpcVerdict::Failed(IpcErrors::NoData),
                    )
                    &&& size > 65536 ==> turn == TurnView::<IpcRecvView, IpcVerdict>::Finish(
                        IpcVerdict::Failed(IpcErrors::DataTooLarge),
                    )
                },
                _ => turn == TurnView::<IpcRecvView, IpcVerdict>::Finish(
                    IpcVerdict::Failed(IpcErrors::FailedToReadDataFromStream),
                ),
            }
        }),
{
}

/// A message that arrives whole is handled, and nothing else changes the daemon's state. A silent
/// request ends the connection well, an answered one is answered with the size and then with the
/// addresses, and a malformed one is reported.
pub proof fn law_daemon_handles_whole_messages(
    size: nat,
    addresses: Seq<u8>,
    event: EventView,
    state: DaemonState,
)
    ensures
        event == EventView::Written ==> ipc_recv_next(IpcRecvView::Confirmation(size), event, state)
            == (
            TurnView::<IpcRecvView, IpcVerdict>::Read(IpcRecvView::Message(size), size),
            state,
        ),
        event != EventView::Written ==> ipc_recv_next(IpcRecvView::Confirmation(size), event, state)
            == (
            TurnView::<IpcRecvView, IpcVerdict>::Finish(
                IpcVerdict::Failed(IpcErrors::FailedToWriteToStream),
            ),
            state,
        ),
        !event.is_read_of(size) ==> ipc_recv_next(IpcRecvView::Message(size), event, state) == (
            TurnView::<IpcRecvView, IpcVerdict>::Finish(
                IpcVerdict::Failed(IpcErrors::FailedToReadDataFromStream),
            ),
            state,
        ),
        match event {
            EventView::Read(message) => message.len() == size ==> {
                let (turn, after) = ipc_recv_next(IpcRecvView::Message(size), event, state);
                &&& after == handled(message, state).1
                &&& match handled(message, state).0 {
                    Handled::Silent => turn == TurnView::<IpcRecvView, IpcVerdict>::Finish(
                        IpcVerdict::Done,
                    ),
                    Handled::Reply(first, second) => turn == TurnView::<
                        IpcRecvView,
                        IpcVerdict,
                    >::Write(IpcRecvView::ReplySize(second), first),
                    Handled::Failed(_) => turn == TurnView::<IpcRecvView, IpcVerdict>::Finish(
                        IpcVerdict::Failed(IpcErrors::FailedToHandleData),
                    ),
                }
            },
            _ => true,
        },
        ipc_recv_next(IpcRecvView::ReplySize(addresses), event, state) == (
            if event == EventView::Written {
                TurnView::<IpcRecvView, IpcVerdict>::Write(IpcRecvView::ReplyAddresses, addresses)
            } else {
                TurnView::Finish(IpcVerdict::Failed(IpcErrors::FailedToHandleData))
            },
            state,
        ),
        ipc_recv_next(IpcRecvView::ReplyAddresses, event, state) == (
            if event == EventView::Written {
                TurnView::<IpcRecvView, IpcVerdict>::Finish(IpcVerdict::Done)
            } else {
                TurnView::Finish(IpcVerdict::Failed(IpcErrors::FailedToHandleData))
            },
            state,
        ),
{
}

/// A sender announces the size of its message, sends the message once the daemon confirms, with the
/// action's byte in front of the data, and is done when it went out. It gives up where the daemon
/// does not confirm or the stream fails.
pub proof fn law_sender_sends_what_it_was_given(
    action_type: ActionType,
    data: &[u8],
    connected: bool,
    first: Turn<IpcSend, IpcVerdict>,
    state: IpcSend,
    event: Event,
    turn: Turn<IpcSend, IpcVerdict>,
)
    requires
        call_ensures(IpcSend::begin, (connected, action_type, data), first),
        call_ensures(IpcSend::advance, (state, event), turn),
        data@.len() < u64::MAX,
    ensures
        connected ==> match first@ {
            TurnView::Write(IpcSendView::Size(message), size) => {
                &&& size.len() == 8
                &&& crate::le::le_value(size) == message.len()
                &&& message.len() == 1 + data@.len()
                &&& message[0] == action_type.byte()
                &&& forall|i: int| 0 <= i < data@.len() ==> message[1 + i] == #[trigger] data@[i]
            },
            _ => false,
        },
        !connected ==> first@ == TurnView::<IpcSendView, IpcVerdict>::Finish(
            IpcVerdict::Failed(IpcErrors::FailedToConnectToPipe),
        ),
        match (state@, event@) {
            (IpcSendView::Size(message), EventView::Written) => turn@ == TurnView::<
                IpcSendView,
                IpcVerdict,
            >::Read(IpcSendView::Confirmation(message), 1),
            (IpcSendView::Confirmation(message), EventView::Read(byte)) => if byte.len() != 1 {
                turn@ == TurnView::<IpcSendView, IpcVerdict>::Finish(
                    IpcVerdict::Failed(IpcErrors::FailedToReadDataFromStream),
                )
            } else if byte[0] != 0 {
                turn@ == TurnView::<IpcSendView, IpcVerdict>::Write(IpcSendView::Message, message)
            } else {
                turn@ == TurnView::<IpcSendView, IpcVerdict>::Finish(
                    IpcVerdict::Failed(IpcErrors::ConfirmationByteNotReceived),
                )
            },
            (IpcSendView::Confirmation(_), _) => turn@ == TurnView::<
                IpcSendView,
                IpcVerdict,
            >::Finish(IpcVerdict::Failed(IpcErrors::FailedToReadDataFromStream)),
            (IpcSendView::Message, EventView::Written) => turn@ == TurnView::<
                IpcSendView,
                IpcVerdict,
            >::Finish(IpcVerdict::Done),
            (_, _) => turn@ == TurnView::<IpcSendView, IpcVerdict>::Finish(
                IpcVerdict::Failed(IpcErrors::FailedToWriteToStream),
            ),
        },
{
    let message = message_bytes(action_type, data@);
    crate::le::law_le_round_trip(message.len() as u64);
}

/// A device that a user interface adds is trusted by the daemon: the octets that the sender was
/// given are those of the last address on the daemon's list, and the connection ends well.
pub proof fn law_device_of_a_sender_is_trusted(
    data: &[u8],
    first: Turn<IpcSend, IpcVerdict>,
    state: DaemonState,
)
    requires
        data@.len() == 4,
        call_ensures(IpcSend::begin, (true, ActionType::AddTrustedDevice, data), first),
    ensures
        match first@ {
            TurnView::Write(IpcSendView::Size(message), _) => {
                let (turn, after) = ipc_recv_next(
                    IpcRecvView::Message(message.len()),
                    EventView::Read(message),
                    state,
                );
                &&& turn == TurnView::<IpcRecvView, IpcVerdict>::Finish(IpcVerdict::Done)
                &&& after.trusted.len() == state.trusted.len() + 1
                &&& after.trusted.drop_last() == state.trusted
                &&& v4_at(after.trusted.last(), data@, 0)
            },
            _ => false,
        },
{
    let message = message_bytes(ActionType::AddTrustedDevice, data@);
    law_added_device_has_the_octets(message, state);
}

/// A process is found exactly where one of the names that could be read is its name.
pub proof fn law_process_is_found_by_its_name(
    names: Seq<Result<String, IpcErrors>>,
    name: Seq<char>,
)
    ensures
        forall|i: int|
            0 <= i < names.len() && (#[trigger] names[i]) is Ok && names[i]->Ok_0@ == name
                ==> any_named(names, name),
        (forall|i: int|
            0 <= i < names.len() ==> (#[trigger] names[i]) is Err || names[i]->Ok_0@ != name)
            ==> !any_named(names, name),
{
}

/// The list of processes holds every entry that is a number other than our own id, and nothing else.
pub proof fn law_other_processes_are_the_numbers(entries: Seq<String>, own_pid: u32, entry: String)
    ensures
        other_processes(entries, own_pid).contains(entry) <==> entries.contains(entry)
            && crate::text::parsed_u32(entry@) is Some && entry@ != crate::text::decimal(
            own_pid as nat,
        ),
    decreases entries.len(),
{
    if entries.len() > 0 {
        let before = other_processes(entries.drop_last(), own_pid);
        law_other_processes_are_the_numbers(entries.drop_last(), own_pid, entry);
        assert(entries.drop_last().push(entries.last()) =~= entries);
        if entries.contains(entry) {
            let i = choose|i: int| 0 <= i < entries.len() && entries[i] == entry;
            if i < entries.len() - 1 {
                assert(entries.drop_last()[i] == entry);
            }
        }
        if entries.drop_last().contains(entry) {
            let i = choose|i: int| 0 <= i < entries.len() - 1 && entries.drop_last()[i] == entry;
            assert(entries[i] == entry);
        }
        let after = other_processes(entries, own_pid);
        if before.contains(entry) {
            let i = choose|i: int| 0 <= i < before.len() && before[i] == entry;
            assert(after[i] == entry);
        }
        if after.contains(entry) && !before.contains(entry) {
            let i = choose|i: int| 0 <= i < after.len() && after[i] == entry;
            assert(i < before.len() ==> before[i] == entry);
            assert(entries.last() == entry);
        }
        if after != before {
            assert(after[before.len() as int] == entries.last());
        }
    }
}

/// The processes stand in the order of the entries: those of two lists together are those of the
/// first and then those of the second.
pub proof fn law_other_processes_keep_their_order(
    first: Seq<String>,
    second: Seq<String>,
    own_pid: u32,
)
    ensures
        other_processes(first + second, own_pid) == other_processes(first, own_pid)
            + other_processes(second, own_pid),
    decreases second.len(),
{
    if second.len() == 0 {
        assert(first + second =~= first);
        assert(other_processes(first, own_pid) + Seq::<String>::empty() =~= other_processes(
            first,
            own_pid,
        ));
    } else {
        assert((first + second).drop_last() =~= first + second.drop_last());
        law_other_processes_keep_their_order(first, second.drop_last(), own_pid);
        assert(other_processes(first + second, own_pid) =~= other_processes(first, own_pid)
            + other_processes(second, own_pid));
    }
}

/// Every user has a socket of their own, in the directory that the system keeps for them.
pub proof fn law_every_user_has_a_socket(uid: u32, other: u32)
    ensures
        socket_of(uid) == socket_of(other) ==> uid == other,
        crate::text::starts_with(
            socket_of(uid),
            "/run/user/"@ + crate::text::decimal(uid as nat) + "/"@,
        ),
{
    reveal_strlit("/run/user/");
    reveal_strlit("/cesa_conn.sock");
    reveal_strlit("/");
    let digits = crate::text::decimal(uid as nat);
    let others = crate::text::decimal(other as nat);
    let head = "/run/user/"@;
    let tail = "/cesa_conn.sock"@;
    if socket_of(uid) == socket_of(other) {
        assert(socket_of(uid).len() == head.len() + digits.len() + tail.len());
        assert(digits.len() == others.len());
        assert(socket_of(uid).subrange(head.len() as int, (head.len() + digits.len()) as int)
            =~= digits);
        assert(socket_of(other).subrange(head.len() as int, (head.len() + others.len()) as int)
            =~= others);
        crate::text::law_decimal_round_trip(uid);
        crate::text::law_decimal_round_trip(other);
    }
    let prefix = head + digits + "/"@;
    assert(socket_of(uid).subrange(0, prefix.len() as int) =~= prefix);
}

/// The socket is made in order: a file that is in the way is removed, a listener bound, the file
/// closed to everyone but its owner, and then it is ready. Each failure is the action's own.
pub proof fn law_pipe_is_made_in_order(mode: u32)
    ensures
        pipe_next(PipeAction::RemoveFile, true) == Ok::<PipeAction, IpcErrors>(PipeAction::Bind),
        pipe_next(PipeAction::RemoveFile, false) == Err::<PipeAction, IpcErrors>(
            IpcErrors::FailedToRemoveFile,
        ),
        pipe_next(PipeAction::Bind, false) == Err::<PipeAction, IpcErrors>(
            IpcErrors::FailedToBindSocket,
        ),
        pipe_next(PipeAction::SetPermissions(mode), true) == Ok::<PipeAction, IpcErrors>(
            PipeAction::Ready,
        ),
        pipe_next(PipeAction::SetPermissions(mode), false) == Err::<PipeAction, IpcErrors>(
            IpcErrors::FailedToSetPermissions,
        ),
{
}

/// The daemon runs exactly where its socket is there and a process has its name.
pub proof fn law_daemon_runs_with_socket_and_process(
    path: &Result<String, IpcErrors>,
    process: Result<bool, IpcErrors>,
    socket: bool,
    r: Result<bool, IpcErrors>,
)
    requires
        call_ensures(is_running, (path, process, socket), r),
    ensures
        r == Ok::<bool, IpcErrors>(true) <==> *path is Ok && process == Ok::<bool, IpcErrors>(true)
            && socket,
        r is Err <==> *path is Err || process is Err,
        *path is Err ==> r == Err::<bool, IpcErrors>(IpcErrors::FailedToFetchSocketPath),
        *path is Ok && process is Err ==> r == Err::<bool, IpcErrors>(
            IpcErrors::FailedToCheckIfProcessExists,
        ),
{
}

/// There is one daemon at most: a socket is made only where it is known that none runs, and a file
/// that is in the way is removed first.
pub proof fn law_one_daemon_at_most(
    path: &Result<String, IpcErrors>,
    running: Result<bool, IpcErrors>,
    socket: bool,
    r: Result<PipeAction, IpcErrors>,
)
    requires
        call_ensures(create_secure_pipe, (path, running, socket), r),
    ensures
        r is Ok <==> *path is Ok && running == Ok::<bool, IpcErrors>(false),
        r is Ok ==> r->Ok_0 == (if socket {
            PipeAction::RemoveFile
        } else {
            PipeAction::Bind
        }),
        *path is Ok && running == Ok::<bool, IpcErrors>(true) ==> r == Err::<PipeAction, IpcErrors>(
            IpcErrors::DaemonAlreadyRunning,
        ),
        *path is Ok && running is Err ==> r == Err::<PipeAction, IpcErrors>(
            IpcErrors::FailedToCheckIfRunning,
        ),
        *path is Err ==> r == Err::<PipeAction, IpcErrors>(IpcErrors::FailedToFetchSocketPath),
{
}

/// A message is sent only where there is a socket and a daemon that listens on it.
pub proof fn law_messages_need_a_daemon(
    path: &Result<String, IpcErrors>,
    running: Result<bool, IpcErrors>,
    r: Result<(), IpcErrors>,
)
    requires
        call_ensures(ipc_send, (path, running), r),
    ensures
        r is Ok <==> *path is Ok && running == Ok::<bool, IpcErrors>(true),
        *path is Ok && running == Ok::<bool, IpcErrors>(false) ==> r == Err::<(), IpcErrors>(
            IpcErrors::DaemonIsNotRunning,
        ),
        *path is Ok && running is Err ==> r == Err::<(), IpcErrors>(
            IpcErrors::FailedToCheckIfRunning,
        ),
        *path is Err ==> r == Err::<(), IpcErrors>(IpcErrors::FailedToFetchSocketPath),
{
}

/// The name of a process is what its file holds between white space, of our own process as of
/// another, and of the process at the other end of a socket where its credentials name one.
pub proof fn law_process_names_are_trimmed(
    before: Seq<char>,
    core: Seq<char>,
    after: Seq<char>,
    text: String,
    own: Result<String, IpcErrors>,
    named: Result<String, IpcErrors>,
    pid: u32,
    peer: Result<String, IpcErrors>,
)
    requires
        crate::text::all_white(before),
        crate::text::all_white(after),
        core.len() > 0 ==> !crate::text::is_white(core[0]) && !crate::text::is_white(core.last()),
        text@ == before + core + after,
        call_ensures(get_self_name, (Some(text),), own),
        call_ensures(get_process_name, (Some(text),), named),
        call_ensures(get_peer_name, (PeerCred::Pid(pid), Some(text)), peer),
    ensures
        own is Ok && own->Ok_0@ == core,
        named is Ok && named->Ok_0@ == core,
        peer is Ok && peer->Ok_0@ == core,
{
    crate::text::law_trimming_leaves_the_text(before, core, after);
}

/// What cannot be read is reported where it was to be read: our own name, a process's name, a
/// peer's credentials, its process and its name.
pub proof fn law_missing_names_are_reported(
    comm: Option<String>,
    own: Result<String, IpcErrors>,
    named: Result<String, IpcErrors>,
    cred: PeerCred,
    peer: Result<String, IpcErrors>,
    pid: Result<u32, IpcErrors>,
)
    requires
        call_ensures(get_self_name, (comm,), own),
        call_ensures(get_process_name, (comm,), named),
        call_ensures(get_peer_name, (cred, comm), peer),
        call_ensures(get_peer_pid, (cred,), pid),
    ensures
        comm is None ==> own == Err::<String, IpcErrors>(IpcErrors::FailedToGetSelfName) && named
            == Err::<String, IpcErrors>(IpcErrors::FailedToReadProcessName),
        match cred {
            PeerCred::Unavailable => peer == Err::<String, IpcErrors>(
                IpcErrors::FailedToGetPeerCred,
            ) && pid == Err::<u32, IpcErrors>(IpcErrors::FailedToGetPeerCred),
            PeerCred::NoPid => peer == Err::<String, IpcErrors>(IpcErrors::FailedToGetPid) && pid
                == Err::<u32, IpcErrors>(IpcErrors::FailedToGetPid),
            PeerCred::Pid(named_pid) => pid == Ok::<u32, IpcErrors>(named_pid) && (comm is None
                ==> peer == Err::<String, IpcErrors>(IpcErrors::FailedToGetProcessName)),
        },
{
}

/// The user id is the one that the status text gives, and the socket the one of that user.
pub proof fn law_socket_is_the_users(
    uid: u32,
    gap: Seq<char>,
    others: Seq<char>,
    rest: Seq<char>,
    status: String,
    r: Result<u32, IpcErrors>,
    path: Result<String, IpcErrors>,
)
    requires
        gap.len() > 0,
        crate::text::all_white(gap),
        crate::text::is_line(gap),
        crate::text::is_line(others),
        others.len() == 0 || crate::text::is_white(others[0]),
        status@ == "Uid:"@ + gap + crate::text::decimal(uid as nat) + others + seq!['\n'] + rest,
        call_ensures(getuid, (Some(status),), r),
        call_ensures(socket_path, (r,), path),
    ensures
        r == Ok::<u32, IpcErrors>(uid),
        path is Ok && path->Ok_0@ == "/run/user/"@ + crate::text::decimal(uid as nat)
            + "/cesa_conn.sock"@,
{
    reveal_strlit("Uid:");
    let earlier = Seq::<char>::empty();
    assert(!crate::text::starts_with(earlier, "Uid:"@));
    crate::text::law_uid_is_the_first_of_its_line(uid, gap, others, earlier, rest);
}

/// Without a status text, or without a user id in it, there is no user id, and without that no
/// socket.
pub proof fn law_missing_uids_are_reported(
    none: Result<u32, IpcErrors>,
    e: IpcErrors,
    path: Result<String, IpcErrors>,
)
    requires
        call_ensures(getuid, (None::<String>,), none),
        call_ensures(socket_path, (Err::<u32, IpcErrors>(e),), path),
    ensures
        none == Err::<u32, IpcErrors>(IpcErrors::FailedToRead),
        path == Err::<String, IpcErrors>(IpcErrors::FailedToGetUID),
{
}

/// The daemon starts where its socket was made; then it goes on for every connection, stops without
/// an error when it is cancelled, and with one when accepting fails.
pub proof fn law_daemon_goes_on_for_every_connection(
    pipe_created: bool,
    started: Result<(), IpcErrors>,
    event: DaemonEvent,
    r: Result<bool, IpcErrors>,
)
    requires
        call_ensures(ipc_daemon_start, (pipe_created,), started),
        call_ensures(ipc_daemon, (event,), r),
    ensures
        started is Ok <==> pipe_created,
        event is Accepted <==> r == Ok::<bool, IpcErrors>(true),
        event is Cancelled ==> r == Ok::<bool, IpcErrors>(false),
        event is AcceptFailed ==> r == Err::<bool, IpcErrors>(IpcErrors::FailedToAcceptConnection),
{
}

} // verus!
