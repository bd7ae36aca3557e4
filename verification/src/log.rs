//! Leveled log buffer.
//!
//! The transformer only enqueues leveled messages; styling and terminal
//! rendering belong to the embedding shell. The buffer and the current
//! level live in an explicit [`Logger`] value that the shell owns.

use vstd::prelude::*;

verus! {

/// One buffered message together with the level it was enqueued at.
pub struct Log {
    pub message: String,
    pub level: LogLevel,
}

/// Severity levels, from quietest to most verbose.
#[derive(Debug, Clone, Copy, PartialEq, Eq, Structural)]
pub enum LogLevel {
    Silent,
    Error,
    Info,
    Verbose,
}

/// Numeric rank of a level: messages at a rank above the configured one
/// are dropped.
pub open spec fn spec_level_value(level: LogLevel) -> u8 {
    match level {
        LogLevel::Silent => 0,
        LogLevel::Error => 1,
        LogLevel::Info => 2,
        LogLevel::Verbose => 3,
    }
}

/// Log buffer plus the currently configured level.
pub struct Logger {
    pub level: LogLevel,
    pub entries: Vec<Log>,
}

impl Logger {
    /// A fresh logger: empty buffer, `Info` level.
    pub fn new() -> (r: Logger)
        ensures
            r.level == LogLevel::Info,
            r.entries@.len() == 0,
    {
        Logger { level: LogLevel::Info, entries: Vec::new() }
    }
}

/// Configure the level below which messages are kept.
pub fn set_log_level(logger: &mut Logger, level: LogLevel)
    ensures
        final(logger).level == level,
        final(logger).entries@ == old(logger).entries@,
{
    logger.level = level;
}

/// Numeric rank of the currently configured level.
pub fn get_log_level(logger: &Logger) -> (r: u8)
    ensures
        r == spec_level_value(logger.level),
{
    match logger.level {
        LogLevel::Silent => 0,
        LogLevel::Error => 1,
        LogLevel::Info => 2,
        LogLevel::Verbose => 3,
    }
}

/// The first `n` entries of `a` carry the same message text and level as
/// those of `b`.
pub open spec fn logs_match_prefix(a: Seq<Log>, b: Seq<Log>, n: int) -> bool {
    forall|j: int|
        0 <= j < n ==> #[trigger] a[j].message@ == b[j].message@ && a[j].level == b[j].level
}

/// Snapshot of the buffered messages, oldest first.
pub fn collect_logs(logger: &Logger) -> (r: Vec<Log>)
    ensures
        r@.len() == logger.entries@.len(),
        logs_match_prefix(r@, logger.entries@, r@.len() as int),
{
    let mut out: Vec<Log> = Vec::new();
    let mut i: usize = 0;
    while i < logger.entries.len()
        invariant
            i <= logger.entries@.len(),
            out@.len() == i,
            logs_match_prefix(out@, logger.entries@, i as int),
        decreases logger.entries@.len() - i,
    {
        let entry = &logger.entries[i];
        let copied = Log { message: entry.message.clone(), level: entry.level };
        let ghost prev = out@;
        out.push(copied);
        proof {
            assert forall|j: int| 0 <= j < i + 1 implies #[trigger] out@[j].message@
                == logger.entries@[j].message@ && out@[j].level == logger.entries@[j].level by {
                if j < i {
                    assert(out@[j] == prev[j]);
                    assert(prev[j].message@ == logger.entries@[j].message@);
                } else {
                    assert(out@[j] == copied);
                }
            }
            assert(logs_match_prefix(out@, logger.entries@, i + 1));
        }
        i = i + 1;
    }
    out
}

/// Enqueue a message if its level is within the configured one; messages
/// above the configured level are dropped unchanged.
pub fn create_log(logger: &mut Logger, message: String, level: LogLevel)
    ensures
        final(logger).level == old(logger).level,
        spec_level_value(level) <= spec_level_value(old(logger).level) ==> {
            &&& final(logger).entries@.len() == old(logger).entries@.len() + 1
            &&& final(logger).entries@.last().message == message
            &&& final(logger).entries@.last().level == level
            &&& final(logger).entries@.take(old(logger).entries@.len() as int) == old(
                logger,
            ).entries@
        },
        spec_level_value(level) > spec_level_value(old(logger).level) ==> final(logger).entries@
            == old(logger).entries@,
{
    let current = get_log_level(logger);
    let rank = match level {
        LogLevel::Silent => 0u8,
        LogLevel::Error => 1,
        LogLevel::Info => 2,
        LogLevel::Verbose => 3,
    };
    if rank <= current {
        logger.entries.push(Log { message, level });
        proof {
            assert(logger.entries@.take(old(logger).entries@.len() as int) =~= old(
                logger,
            ).entries@);
        }
    }
}

} // verus!
