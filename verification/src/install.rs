//! The launch agent that runs the daemon: its description, and how its
//! installation goes.

use vstd::prelude::*;

use crate::text;
use crate::time::{self, Duration, Instant};

verus! {

pub const LABEL: &'static str = "dev.macwifi.daemon";

pub const APP_PATH: &'static str = "/Applications/macwifi.app";

pub const STDOUT_LOG: &'static str = "/tmp/macwifi-daemon.out.log";

pub const STDERR_LOG: &'static str = "/tmp/macwifi-daemon.err.log";

/// The description of the agent, up to the path of the socket.
pub const PLIST_HEAD: &'static str = "<?xml version=\"1.0\" encoding=\"UTF-8\"?>
<!DOCTYPE plist PUBLIC \"-//Apple//DTD PLIST 1.0//EN\" \"http://www.apple.com/DTDs/PropertyList-1.0.dtd\">
<plist version=\"1.0\">
<dict>
    <key>Label</key>
    <string>dev.macwifi.daemon</string>
    <key>ProgramArguments</key>
    <array>
        <string>/usr/bin/open</string>
        <string>-W</string>
        <string>-a</string>
        <string>/Applications/macwifi.app</string>
        <string>--args</string>
        <string>daemon</string>
    </array>
    <key>RunAtLoad</key>
    <true/>
    <key>KeepAlive</key>
    <true/>
    <key>StandardOutPath</key>
    <string>/tmp/macwifi-daemon.out.log</string>
    <key>StandardErrorPath</key>
    <string>/tmp/macwifi-daemon.err.log</string>
    <key>EnvironmentVariables</key>
    <dict>
        <key>MACWIFI_SOCKET_PATH</key>
        <string>";

/// The description of the agent, from the path of the socket on.
pub const PLIST_TAIL: &'static str = "</string>
    </dict>
</dict>
</plist>
";

/// How long the daemon has to create its socket, in seconds.
pub const SOCKET_WAIT_SECS: u64 = 15;

/// The pause between two looks for the socket, in milliseconds.
pub const SOCKET_POLL_MILLIS: u64 = 250;

/// The description of the agent that is told the path of the socket.
pub open spec fn description(socket: Seq<char>) -> Seq<char> {
    PLIST_HEAD@ + socket + PLIST_TAIL@
}

/// The domain of a user's agents.
pub open spec fn domain_of(uid: u32) -> Seq<char> {
    "gui/"@ + text::decimal(uid as nat)
}

/// The agent within the domain of a user.
pub open spec fn target_of(uid: u32) -> Seq<char> {
    domain_of(uid) + "/"@ + LABEL@
}

/// What becomes of loading the agent.
pub open spec fn loaded(success: bool, code: Option<i32>) -> Result<(), Seq<char>> {
    if success {
        Ok(())
    } else {
        Err(
            "launchctl bootstrap failed (exit "@ + text::signed_decimal(
                match code {
                    Some(c) => c as int,
                    None => -1,
                },
            ) + "); check "@ + STDERR_LOG@ + " for details"@,
        )
    }
}

/// The description of the agent. It runs the program through the system's
/// `open`, starts at login, is kept alive, and is told the path of the socket.
pub fn build_plist(socket: &str) -> (r: String)
    ensures
        r@ == description(socket@),
        r@ == PLIST_HEAD@ + socket@ + PLIST_TAIL@,
{
    text::cat3(PLIST_HEAD, socket, PLIST_TAIL)
}

/// The file name of the description.
pub fn plist_name() -> (r: String)
    ensures
        r@ == LABEL@ + ".plist"@,
{
    text::cat2(LABEL, ".plist")
}

/// The domain of a user's agents.
pub fn domain(uid: u32) -> (r: String)
    ensures
        r@ == domain_of(uid),
        r@ == "gui/"@ + text::decimal(uid as nat),
{
    let digits = text::decimal_text(uid as u128);
    text::cat2("gui/", digits.as_str())
}

/// The agent within the domain of a user.
pub fn label_target(uid: u32) -> (r: String)
    ensures
        r@ == target_of(uid),
        r@ == "gui/"@ + text::decimal(uid as nat) + "/"@ + LABEL@,
{
    let d = domain(uid);
    text::cat3(d.as_str(), "/", LABEL)
}

/// The error where the program is not installed.
pub fn app_missing() -> (r: String)
    ensures
        r@ == APP_PATH@
            + " not found.\nBuild with `scripts/bundle.sh` and then copy:\n  cp -R target/release/macwifi.app /Applications/"@,
{
    text::cat2(
        APP_PATH,
        " not found.\nBuild with `scripts/bundle.sh` and then copy:\n  cp -R target/release/macwifi.app /Applications/",
    )
}

/// The outcome of loading the agent; one that was ended by a signal has no
/// exit code.
pub fn bootstrap_outcome(success: bool, code: Option<i32>) -> (r: Result<(), String>)
    ensures
        match r {
            Ok(_) => loaded(success, code) is Ok,
            Err(e) => loaded(success, code) == Err::<(), _>(e@),
        },
        match r {
            Ok(_) => success,
            Err(e) => !success && e@ == "launchctl bootstrap failed (exit "@
                + text::signed_decimal(
                match code {
                    Some(c) => c as int,
                    None => -1,
                },
            ) + "); check "@ + STDERR_LOG@ + " for details"@,
        },
{
    if success {
        return Ok(());
    }
    let c: i32 = match code {
        Some(c) => c,
        None => -1,
    };
    let digits = text::signed_text(c as i128);
    Err(
        text::cat5(
            "launchctl bootstrap failed (exit ",
            digits.as_str(),
            "); check ",
            STDERR_LOG,
            " for details",
        ),
    )
}

/// What to do while the socket is waited for.
#[derive(Debug)]
pub enum SocketWait {
    /// The daemon is up.
    Up,
    /// Look again after the pause.
    Again,
    /// The time is over.
    Failed(String),
}

/// The time for the daemon to create its socket is over.
pub open spec fn time_is_over(started: Instant, now: Instant) -> bool {
    time::nanos_between(now, started) >= SOCKET_WAIT_SECS * time::NANOS_PER_SEC
}

/// A look for the socket. The time only counts while it is not there.
pub fn await_socket(exists: bool, started: Instant, now: Instant, socket: &str) -> (r: SocketWait)
    ensures
        ({
            let over = time_is_over(started, now);
            match r {
                SocketWait::Up => exists,
                SocketWait::Again => !exists && !over,
                SocketWait::Failed(e) => !exists && over && e@ == "daemon did not create "@
                    + socket@ + " within 15s — check "@ + STDOUT_LOG@ + " / "@ + STDERR_LOG@,
            }
        }),
{
    if exists {
        return SocketWait::Up;
    }
    if now.duration_since(started).nanos < Duration::from_secs(SOCKET_WAIT_SECS).nanos {
        return SocketWait::Again;
    }
    let mut message = text::cat4(
        "daemon did not create ",
        socket,
        " within 15s — check ",
        STDOUT_LOG,
    );
    message.append(" / ");
    message.append(STDERR_LOG);
    SocketWait::Failed(message)
}

/// The daemon has fifteen seconds to create its socket, which is looked for
/// four times a second.
pub proof fn the_socket_is_awaited_for_fifteen_seconds(started: Instant, now: Instant)
    requires
        now.nanos >= started.nanos,
    ensures
        time_is_over(started, now) <==> now.nanos - started.nanos >= 15_000_000_000,
        4 * SOCKET_POLL_MILLIS == 1_000,
{
}

/// Two descriptions are the same only where they name the same socket.
pub proof fn a_description_tells_the_socket(a: Seq<char>, b: Seq<char>)
    requires
        description(a) == description(b),
    ensures
        a == b,
{
    let front = PLIST_HEAD@.len() as int;
    assert(description(a).len() == front + a.len() + PLIST_TAIL@.len());
    assert(description(b).len() == front + b.len() + PLIST_TAIL@.len());
    assert(a =~= description(a).subrange(front, front + a.len()));
    assert(b =~= description(b).subrange(front, front + b.len()));
}

/// The agent is addressed in the domain of its own user, under its label.
pub proof fn an_agent_is_addressed_in_its_domain(uid: u32)
    ensures
        domain_of(uid) == "gui/"@ + text::decimal(uid as nat),
        target_of(uid) == domain_of(uid) + "/dev.macwifi.daemon"@,
{
    reveal_strlit("/");
    reveal_strlit("dev.macwifi.daemon");
    reveal_strlit("/dev.macwifi.daemon");
    assert(target_of(uid) =~= domain_of(uid) + "/dev.macwifi.daemon"@);
}

/// The agent is loaded exactly where the system says so; otherwise the error
/// tells the exit code, or -1 where a signal ended the attempt.
pub proof fn a_failed_load_tells_the_exit_code(code: i32)
    ensures
        loaded(true, Some(code)) is Ok && loaded(true, None) is Ok,
        loaded(false, Some(code)) == Err::<(), _>(
            "launchctl bootstrap failed (exit "@ + text::signed_decimal(code as int) + "); check "@
                + "/tmp/macwifi-daemon.err.log"@ + " for details"@,
        ),
        loaded(false, None) == loaded(false, Some((-1) as i32)),
{
}

} // verus!
