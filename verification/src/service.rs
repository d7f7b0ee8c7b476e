//! The background service: its files, and what the operating system's
//! answers about its process mean. Asking the operating system is the
//! caller's part.

use crate::error::Error;
use crate::paths::extension;
use crate::paths::joined;
use crate::text::ParseFailure;
use crate::text::decimal;
use crate::text::from_chars;
use crate::text::has_prefix;
use crate::text::join_rows;
use crate::text::joined_with;
use crate::text::lines;
use crate::text::parse_failure_text;
use crate::text::parse_number;
use crate::text::parsed_number;
use crate::text::push_decimal;
use crate::text::push_str;
use crate::text::rows;
use crate::text::split_lines;
use crate::text::split_whitespace;
use crate::text::starts_with;
use crate::text::to_chars;
use crate::text::trim;
use crate::text::trimmed;
use crate::text::words;
use vstd::prelude::*;

verus! {

/// Knows where the service keeps its process identifier and its log.
#[derive(Debug, Clone)]
pub struct ServiceManager {
    pub pid_file: String,
    pub log_file: String,
}

/// What is known about the service's process. Times are in whole seconds,
/// sizes in bytes.
#[derive(Debug, Clone)]
pub struct ServiceStatus {
    pub running: bool,
    pub pid: Option<u32>,
    pub uptime: Option<u64>,
    pub memory_usage: Option<u64>,
}

/// The error number that says that no process has the identifier asked
/// about.
pub const NO_SUCH_PROCESS: i32 = 3;

/// How often, at most, the service is asked whether it has stopped.
pub const STOP_CHECKS: u32 = 30;

/// The pause between two such questions, in milliseconds.
pub const STOP_CHECK_INTERVAL: u64 = 100;

/// How long to wait before the start of the service is checked, in
/// milliseconds.
pub const START_GRACE: u64 = 1000;

/// The numeral of an error number.
pub open spec fn signed_decimal(n: int) -> Seq<char> {
    if n < 0 {
        seq!['-'] + decimal((-n) as nat)
    } else {
        decimal(n as nat)
    }
}

/// Appends the numeral of `n` to `out`.
pub fn push_signed(out: &mut Vec<char>, n: i64)
    ensures
        final(out)@ == old(out)@ + signed_decimal(n as int),
{
    if n < 0 {
        out.push('-');
        let magnitude: u128 = (-(n as i128)) as u128;
        push_decimal(out, magnitude);
        assert(out@ =~= old(out)@ + signed_decimal(n as int));
    } else {
        push_decimal(out, n as u128);
    }
}

/// Whether a process is there, judged by what signal 0 gave: success
/// means yes, the error "no such process" means no, and any other error
/// is passed on worded with `what`.
pub open spec fn process_state(kill_result: i32, errno: i32) -> Result<bool, Seq<char>> {
    if kill_result == 0 {
        Ok(true)
    } else if errno == NO_SUCH_PROCESS {
        Ok(false)
    } else {
        Err("Failed to check process: "@ + signed_decimal(errno as int))
    }
}

/// The message of a failed check, or what the check found.
pub fn check_process(kill_result: i32, errno: i32) -> (r: Result<bool, String>)
    ensures
        match r {
            Ok(b) => process_state(kill_result, errno) == Ok::<bool, Seq<char>>(b),
            Err(m) => process_state(kill_result, errno) == Err::<bool, Seq<char>>(m@),
        },
{
    if kill_result == 0 {
        Ok(true)
    } else if errno == NO_SUCH_PROCESS {
        Ok(false)
    } else {
        let mut out: Vec<char> = Vec::new();
        push_str(&mut out, "Failed to check process: ");
        push_signed(&mut out, errno as i64);
        assert(out@ =~= "Failed to check process: "@ + signed_decimal(errno as int));
        Err(from_chars(out.as_slice()))
    }
}

/// The lines of `content` from line `from` on, joined by line feeds.
pub open spec fn tail_text(content: Seq<char>, count: nat) -> Seq<char> {
    let all = lines(content);
    if all.len() > count {
        joined_with(all.skip(all.len() - count), "\n"@)
    } else {
        joined_with(all, "\n"@)
    }
}

/// The number after the name in the first line of `all`, from line `i` on,
/// that begins with `label`, and which failure there is where a line that
/// has a second word does not hold a number there. With `strict`, such a
/// failure ends the search; without, the search goes on.
pub open spec fn labelled_number(
    all: Seq<Seq<char>>,
    label: Seq<char>,
    strict: bool,
    i: int,
) -> Option<Result<nat, ParseFailure>>
    decreases all.len() - i,
{
    if i < 0 || i >= all.len() {
        None
    } else if starts_with(all[i], label) && words(all[i]).len() >= 2 {
        match parsed_number(words(all[i])[1], u64::MAX as nat) {
            Ok(n) => Some(Ok(n)),
            Err(e) => if strict {
                Some(Err(e))
            } else {
                labelled_number(all, label, strict, i + 1)
            },
        }
    } else {
        labelled_number(all, label, strict, i + 1)
    }
}

/// Executable form of [`labelled_number`].
pub fn find_labelled_number(content: &str, label: &str, strict: bool) -> (r: Option<
    Result<u64, ParseFailure>,
>)
    ensures
        match r {
            Some(Ok(n)) => labelled_number(lines(content@), label@, strict, 0) == Some(
                Ok::<nat, ParseFailure>(n as nat),
            ),
            Some(Err(e)) => labelled_number(lines(content@), label@, strict, 0) == Some(
                Err::<nat, ParseFailure>(e),
            ),
            None => labelled_number(lines(content@), label@, strict, 0) is None,
        },
{
    let chars = to_chars(content);
    let all = split_lines(chars.as_slice());
    let wanted = to_chars(label);
    let mut i: usize = 0;
    while i < all.len()
        invariant
            i <= all.len(),
            rows(all@) == lines(content@),
            wanted@ == label@,
            labelled_number(lines(content@), label@, strict, 0) == labelled_number(
                lines(content@),
                label@,
                strict,
                i as int,
            ),
        decreases all.len() - i,
    {
        assert(rows(all@)[i as int] == all@[i as int]@);
        if has_prefix(all[i].as_slice(), wanted.as_slice()) {
            let parts = split_whitespace(all[i].as_slice());
            if parts.len() >= 2 {
                assert(rows(parts@)[1] == parts@[1]@);
                match parse_number(parts[1].as_slice(), u64::MAX) {
                    Ok(n) => {
                        return Some(Ok(n));
                    },
                    Err(e) => {
                        if strict {
                            return Some(Err(e));
                        }
                    },
                }
            }
        }
        i += 1;
    }
    None
}

/// What is written to the PID file is read back as the same process
/// identifier.
pub proof fn lemma_pid_file_round_trip(pid: u32)
    ensures
        parsed_number(trimmed(decimal(pid as nat)), u32::MAX as nat) == Ok::<nat, ParseFailure>(
            pid as nat,
        ),
{
    crate::text::lemma_number_round_trip(pid as nat, u32::MAX as nat);
}

impl ServiceManager {
    /// The manager of a service that keeps its files in `home`.
    pub fn with_home(home: &str) -> (r: Self)
        ensures
            r.pid_file@ == joined(home@, crate::PID_FILE@),
            r.log_file@ == joined(home@, crate::LOG_FILE@),
    {
        ServiceManager {
            pid_file: crate::paths::join(home, crate::PID_FILE),
            log_file: crate::paths::join(home, crate::LOG_FILE),
        }
    }

    /// The manager of the current user's service. Where no home directory
    /// is known, the service keeps its files in `/tmp/.klipdot`.
    pub fn new() -> (r: Self)
        ensures
            exists|home: Seq<char>|
                r.pid_file@ == #[trigger] joined(home, crate::PID_FILE@) && r.log_file@ == joined(
                    home,
                    crate::LOG_FILE@,
                ),
    {
        let home = match crate::get_home_dir() {
            Ok(dir) => dir,
            Err(_) => "/tmp/.klipdot".to_string(),
        };
        let r = Self::with_home(home.as_str());
        assert(r.pid_file@ == joined(home@, crate::PID_FILE@));
        r
    }

    /// The process identifier that the content of the PID file stands for.
    pub fn read_pid_file(&self, content: &str) -> (r: Result<u32, Error>)
        ensures
            match r {
                Ok(pid) => parsed_number(trimmed(content@), u32::MAX as nat) == Ok::<
                    nat,
                    ParseFailure,
                >(pid as nat),
                Err(e) => parsed_number(trimmed(content@), u32::MAX as nat) is Err && (e matches Error::Service(
                    m,
                ) && m@ == "Invalid PID file: "@ + parse_failure_text(
                    parsed_number(trimmed(content@), u32::MAX as nat)->Err_0,
                )),
            },
    {
        let chars = to_chars(content);
        let t = trim(chars.as_slice());
        match parse_number(t.as_slice(), 0xFFFF_FFFF) {
            Ok(n) => Ok(n as u32),
            Err(failure) => {
                let mut out: Vec<char> = Vec::new();
                push_str(&mut out, "Invalid PID file: ");
                push_str(&mut out, crate::text::parse_failure_message(failure));
                Err(Error::Service(from_chars(out.as_slice())))
            },
        }
    }

    /// The content of the PID file for a process.
    pub fn write_pid_file(&self, pid: u32) -> (r: String)
        ensures
            r@ == decimal(pid as nat),
    {
        crate::text::decimal_string(pid as u128)
    }

    /// Whether the process of the service is there, judged by what signal 0
    /// gave.
    pub fn is_process_running(&self, kill_result: i32, errno: i32) -> (r: Result<bool, Error>)
        ensures
            match r {
                Ok(b) => process_state(kill_result, errno) == Ok::<bool, Seq<char>>(b),
                Err(e) => e matches Error::Service(m) && process_state(kill_result, errno) == Err::<
                    bool,
                    Seq<char>,
                >(m@),
            },
    {
        match check_process(kill_result, errno) {
            Ok(b) => Ok(b),
            Err(m) => Err(Error::Service(m)),
        }
    }

    /// Refuses to start a service that runs already.
    pub fn start_daemon(&self, running: bool) -> (r: Result<(), Error>)
        ensures
            match r {
                Ok(_) => !running,
                Err(e) => running && (e matches Error::AlreadyExists(m) && m@
                    == "Service is already running"@),
            },
    {
        if running {
            Err(Error::AlreadyExists("Service is already running".to_string()))
        } else {
            Ok(())
        }
    }

    /// The arguments with which the service is started.
    pub fn daemon_args(config_file: &str) -> (r: Vec<String>)
        ensures
            crate::text::texts(r@) == seq!["start"@, "--config"@, config_file@],
    {
        let mut args: Vec<String> = Vec::new();
        crate::image_preview::push_text(&mut args, "start");
        crate::image_preview::push_text(&mut args, "--config");
        crate::image_preview::push_text(&mut args, config_file);
        assert(crate::text::texts(args@) =~= seq!["start"@, "--config"@, config_file@]);
        args
    }

    /// The result of a start, given the identifier of the new process, if
    /// it has one, and whether the service runs after the grace period.
    pub fn start_result(pid: Option<u32>, running_after: bool) -> (r: Result<u32, Error>)
        ensures
            match r {
                Ok(p) => pid == Some(p) && running_after,
                Err(e) => e matches Error::Service(m) && (if pid is None {
                    m@ == "Failed to get daemon PID"@
                } else {
                    !running_after && m@ == "Daemon failed to start"@
                }),
            },
    {
        match pid {
            None => Err(Error::Service("Failed to get daemon PID".to_string())),
            Some(p) => {
                if running_after {
                    Ok(p)
                } else {
                    Err(Error::Service("Daemon failed to start".to_string()))
                }
            },
        }
    }

    /// Refuses to stop a service that does not run.
    pub fn stop(&self, running: bool) -> (r: Result<(), Error>)
        ensures
            match r {
                Ok(_) => running,
                Err(e) => !running && (e matches Error::NotFound(m) && m@
                    == "Service is not running"@),
            },
    {
        if running {
            Ok(())
        } else {
            Err(Error::NotFound("Service is not running".to_string()))
        }
    }

    /// The result of asking the process to end, given what the signal gave.
    pub fn signal_result(kill_result: i32) -> (r: Result<(), Error>)
        ensures
            match r {
                Ok(_) => kill_result == 0,
                Err(e) => kill_result != 0 && (e matches Error::Service(m) && m@
                    == "Failed to send SIGTERM"@),
            },
    {
        if kill_result != 0 {
            Err(Error::Service("Failed to send SIGTERM".to_string()))
        } else {
            Ok(())
        }
    }

    /// Puts together what is known about the service.
    pub fn status(
        &self,
        running: bool,
        pid: Option<u32>,
        uptime: Option<u64>,
        memory_usage: Option<u64>,
    ) -> (r: ServiceStatus)
        ensures
            r.running == running,
            r.pid == (if running {
                pid
            } else {
                None
            }),
            r.uptime == (if running {
                uptime
            } else {
                None
            }),
            r.memory_usage == (if running {
                memory_usage
            } else {
                None
            }),
    {
        if !running {
            ServiceStatus { running: false, pid: None, uptime: None, memory_usage: None }
        } else {
            ServiceStatus { running: true, pid, uptime, memory_usage }
        }
    }

    /// For how many seconds a process has run: from its start, which the
    /// 22nd word of its `stat` file gives in clock ticks since the system
    /// was started, to `now`.
    pub open spec fn uptime_of(stat: Seq<char>, boot_time: u64, clock_ticks: u64, now: u64) -> Option<
        u64,
    > {
        if words(stat).len() > 21 && clock_ticks > 0 && parsed_number(
            words(stat)[21],
            u64::MAX as nat,
        ) is Ok {
            let started = boot_time + parsed_number(words(stat)[21], u64::MAX as nat)->Ok_0
                / (clock_ticks as nat);
            if started < now {
                Some((now - started) as u64)
            } else {
                None
            }
        } else {
            None
        }
    }

    /// For how many seconds the process with the given `stat` file has run.
    pub fn get_process_uptime(&self, stat: &str, boot_time: u64, clock_ticks: u64, now: u64) -> (r:
        Option<u64>)
        ensures
            r == Self::uptime_of(stat@, boot_time, clock_ticks, now),
    {
        if clock_ticks == 0 {
            return None;
        }
        let chars = to_chars(stat);
        let parts = split_whitespace(chars.as_slice());
        if parts.len() > 21 {
            assert(rows(parts@)[21] == parts@[21]@);
            if let Ok(start_ticks) = parse_number(parts[21].as_slice(), u64::MAX) {
                let started: u128 = boot_time as u128 + (start_ticks / clock_ticks) as u128;
                if started < now as u128 {
                    return Some((now as u128 - started) as u64);
                }
            }
        }
        None
    }

    /// How much memory a process holds, in bytes: 1024 times the number in
    /// the first `VmRSS:` line of its `status` file that holds one.
    pub open spec fn memory_of(status: Seq<char>) -> Option<u64> {
        match labelled_number(lines(status), "VmRSS:"@, false, 0) {
            Some(Ok(kb)) => if kb * 1024 <= u64::MAX {
                Some((kb * 1024) as u64)
            } else {
                None
            },
            _ => None,
        }
    }

    /// How much memory the process with the given `status` file holds.
    pub fn get_process_memory_usage(&self, status: &str) -> (r: Option<u64>)
        ensures
            r == Self::memory_of(status@),
    {
        match find_labelled_number(status, "VmRSS:", false) {
            Some(Ok(kb)) => kb.checked_mul(1024),
            _ => None,
        }
    }

    /// When the system was started, in seconds since 1970: the number in
    /// the first `btime` line of `/proc/stat`.
    pub fn get_boot_time(&self, stat: &str) -> (r: Result<u64, Error>)
        ensures
            match r {
                Ok(t) => labelled_number(lines(stat@), "btime "@, true, 0) == Some(
                    Ok::<nat, ParseFailure>(t as nat),
                ),
                Err(e) => e matches Error::Service(m) && (match labelled_number(
                    lines(stat@),
                    "btime "@,
                    true,
                    0,
                ) {
                    Some(Err(failure)) => m@ == "Invalid boot time: "@ + parse_failure_text(failure),
                    Some(Ok(_)) => false,
                    None => m@ == "Failed to get boot time"@,
                }),
            },
    {
        match find_labelled_number(stat, "btime ", true) {
            Some(Ok(t)) => Ok(t),
            Some(Err(failure)) => {
                let mut out: Vec<char> = Vec::new();
                push_str(&mut out, "Invalid boot time: ");
                push_str(&mut out, crate::text::parse_failure_message(failure));
                Err(Error::Service(from_chars(out.as_slice())))
            },
            None => Err(Error::Service("Failed to get boot time".to_string())),
        }
    }

    /// The number of clock ticks in a second, from what `sysconf` gave.
    pub fn get_clock_ticks(&self, ticks: i64) -> (r: Result<u64, Error>)
        ensures
            match r {
                Ok(t) => ticks > 0 && t == ticks,
                Err(e) => ticks <= 0 && (e matches Error::Service(m) && m@
                    == "Failed to get clock ticks"@),
            },
    {
        if ticks > 0 {
            Ok(ticks as u64)
        } else {
            Err(Error::Service("Failed to get clock ticks".to_string()))
        }
    }

    /// The last `count` lines of the log, or a note that there is no log.
    pub fn get_log_content(&self, content: Option<&str>, count: usize) -> (r: String)
        ensures
            r@ == (match content {
                Some(c) => tail_text(c@, count as nat),
                None => "No log file found"@,
            }),
    {
        match content {
            None => "No log file found".to_string(),
            Some(c) => {
                let chars = to_chars(c);
                let all = split_lines(chars.as_slice());
                let start: usize = if all.len() > count {
                    all.len() - count
                } else {
                    0
                };
                let mut kept: Vec<Vec<char>> = Vec::new();
                let mut i: usize = start;
                while i < all.len()
                    invariant
                        start <= i <= all.len(),
                        rows(kept@) == rows(all@).subrange(start as int, i as int),
                    decreases all.len() - i,
                {
                    let ghost before = rows(kept@);
                    kept.push(all[i].clone());
                    assert(rows(kept@) =~= before.push(all@[i as int]@));
                    i += 1;
                    assert(rows(all@).subrange(start as int, i as int) =~= rows(all@).subrange(
                        start as int,
                        i - 1,
                    ).push(rows(all@)[i - 1]));
                }
                assert(rows(all@).subrange(start as int, all.len() as int) =~= rows(all@).skip(
                    start as int,
                ));
                assert(rows(all@).skip(0) =~= rows(all@));
                let newline = to_chars("\n");
                from_chars(join_rows(kept.as_slice(), newline.as_slice()).as_slice())
            },
        }
    }

    /// The path to which the log is moved when it is rotated: the log's
    /// path with `log.old` in place of its extension.
    pub open spec fn backup_path(log_file: Seq<char>) -> Seq<char> {
        match extension(log_file) {
            Some(ext) => log_file.take(log_file.len() - ext.len()) + "log.old"@,
            None => log_file + ".log.old"@,
        }
    }

    /// The path to which the log is moved when it is rotated.
    pub fn rotate_logs(&self) -> (r: String)
        ensures
            r@ == Self::backup_path(self.log_file@),
    {
        let chars = to_chars(self.log_file.as_str());
        let mut out: Vec<char> = Vec::new();
        match crate::paths::path_extension(chars.as_slice()) {
            Some(ext) => {
                proof {
                    crate::paths::lemma_extension_is_suffix(chars@);
                }
                let keep = crate::text::slice_chars(chars.as_slice(), 0, chars.len() - ext.len());
                assert(keep@ =~= chars@.take(chars@.len() - ext@.len()));
                crate::text::push_chars(&mut out, keep.as_slice());
                push_str(&mut out, "log.old");
            },
            None => {
                crate::text::push_chars(&mut out, chars.as_slice());
                push_str(&mut out, ".log.old");
            },
        }
        from_chars(out.as_slice())
    }
}

} // verus!
