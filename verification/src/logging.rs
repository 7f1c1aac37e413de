//! The daemon's log.

use vstd::prelude::*;

use crate::ipc;
use crate::paths;
use crate::text;

verus! {

/// The size from which a log is begun anew, in bytes.
pub const MAX_LOG_BYTES: u64 = 1_048_576;

/// The path of the daemon's log, which lies in the directory of the socket.
pub open spec fn log_at(asked: Option<Seq<char>>, data_dir: Seq<char>) -> Seq<char> {
    paths::directory_of(ipc::socket_at(asked, data_dir)) + "daemon.log"@
}

/// The path of the daemon's log, given the socket that was asked for, if one
/// was, and the directory of application data.
pub fn log_path(asked: Option<&str>, data_dir: &str) -> (r: String)
    ensures
        r@ == log_at(text::opt_str(asked), data_dir@),
{
    let socket = ipc::socket_path(asked, data_dir);
    paths::beside(socket.as_str(), "daemon.log")
}

/// The log always lies in the directory of the socket; where no other socket
/// is asked for, that is `macwifi` in the directory of application data.
pub proof fn the_log_lies_beside_the_socket(asked: Option<Seq<char>>, data_dir: Seq<char>)
    ensures
        paths::directory_of(log_at(asked, data_dir)) == paths::directory_of(
            ipc::socket_at(asked, data_dir),
        ),
        log_at(None, data_dir) == paths::joined(
            paths::joined(data_dir, "macwifi"@),
            "daemon.log"@,
        ),
{
    reveal_strlit("daemon.log");
    reveal_strlit("daemon.sock");
    paths::what_lies_beside_shares_the_directory(
        ipc::socket_at(asked, data_dir),
        "daemon.log"@,
    );
    paths::a_joined_file_lies_in_its_directory(
        paths::joined(data_dir, "macwifi"@),
        "daemon.sock"@,
        "daemon.log"@,
    );
}

/// An old log of this size is begun anew.
pub open spec fn begun_anew(size: Option<u64>) -> bool {
    size matches Some(n) && n > MAX_LOG_BYTES
}

/// Whether an old log is begun anew when the daemon starts: only where there is
/// one and it has grown past the limit.
pub fn truncates(size: Option<u64>) -> (r: bool)
    ensures
        r == begun_anew(size),
        r == (size matches Some(n) && n > MAX_LOG_BYTES),
{
    match size {
        Some(n) => n > MAX_LOG_BYTES,
        None => false,
    }
}

/// A line of the log: the seconds since the epoch, and the message.
pub fn line(secs: u64, msg: &str) -> (r: String)
    ensures
        r@ == "["@ + text::decimal(secs as nat) + "] "@ + msg@,
{
    let digits = text::decimal_text(secs as u128);
    text::cat4("[", digits.as_str(), "] ", msg)
}

/// A log is begun anew exactly where it has grown past one mebibyte.
pub proof fn a_log_is_kept_up_to_a_mebibyte(size: u64)
    ensures
        begun_anew(Some(size)) <==> size > 1024 * 1024,
        !begun_anew(None),
{
}

} // verus!
