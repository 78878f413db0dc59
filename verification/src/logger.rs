use vstd::prelude::*;

verus! {

/// Severity of one diagnostic record, from most to least severe.
#[derive(Clone, Copy, PartialEq, Eq, Structural, Debug)]
pub enum LogLevel {
    Error,
    Warn,
    Info,
    Debug,
    Trace,
}

/// One buffered diagnostic record.
#[derive(Clone)]
pub struct LogRecord {
    pub level: LogLevel,
    pub message: String,
}

/// A diagnostic sink.  Records are buffered in order; a host is free to drain
/// `records` and forward them anywhere.  `verbosity` bounds which `verbose`
/// calls are kept.
#[derive(Clone)]
pub struct Logger {
    pub verbosity: u8,
    pub prefix: String,
    pub records: Vec<LogRecord>,
}

/// The level that `verbose` assigns to a numeric severity.
pub open spec fn level_of(level: u8) -> LogLevel {
    if level == 0 {
        LogLevel::Error
    } else if level == 1 {
        LogLevel::Warn
    } else if level == 2 {
        LogLevel::Info
    } else if level == 3 {
        LogLevel::Debug
    } else {
        LogLevel::Trace
    }
}

impl Logger {
    pub fn new(prefix: String) -> (r: Logger)
        ensures
            r.verbosity == 3,
            r.prefix == prefix,
            r.records@.len() == 0,
    {
        Logger { verbosity: 3, prefix, records: Vec::new() }
    }

    /// What `records` becomes when a message is kept at a given level.
    pub open spec fn recorded(self, level: LogLevel, message: String) -> Seq<LogRecord> {
        self.records@.push(LogRecord { level, message })
    }

    pub fn error(&mut self, message: String)
        ensures
            final(self).records@ == old(self).recorded(LogLevel::Error, message),
            final(self).verbosity == old(self).verbosity,
            final(self).prefix == old(self).prefix,
    {
        self.records.push(LogRecord { level: LogLevel::Error, message });
    }

    pub fn warn(&mut self, message: String)
        ensures
            final(self).records@ == old(self).recorded(LogLevel::Warn, message),
            final(self).verbosity == old(self).verbosity,
            final(self).prefix == old(self).prefix,
    {
        self.records.push(LogRecord { level: LogLevel::Warn, message });
    }

    pub fn info(&mut self, message: String)
        ensures
            final(self).records@ == old(self).recorded(LogLevel::Info, message),
            final(self).verbosity == old(self).verbosity,
            final(self).prefix == old(self).prefix,
    {
        self.records.push(LogRecord { level: LogLevel::Info, message });
    }

    pub fn debug(&mut self, message: String)
        ensures
            final(self).records@ == old(self).recorded(LogLevel::Debug, message),
            final(self).verbosity == old(self).verbosity,
            final(self).prefix == old(self).prefix,
    {
        self.records.push(LogRecord { level: LogLevel::Debug, message });
    }

    pub fn trace(&mut self, message: String)
        ensures
            final(self).records@ == old(self).recorded(LogLevel::Trace, message),
            final(self).verbosity == old(self).verbosity,
            final(self).prefix == old(self).prefix,
    {
        self.records.push(LogRecord { level: LogLevel::Trace, message });
    }

    /// Keeps the message exactly when `level` does not exceed the configured
    /// verbosity, mapped onto the record level that `level_of` gives.
    pub fn verbose(&mut self, level: u8, message: String)
        ensures
            final(self).verbosity == old(self).verbosity,
            final(self).prefix == old(self).prefix,
            level <= old(self).verbosity ==> final(self).records@ == old(self).recorded(
                level_of(level),
                message,
            ),
            level > old(self).verbosity ==> final(self).records@ == old(self).records@,
    {
        if level <= self.verbosity {
            if level == 0 {
                self.error(message);
            } else if level == 1 {
                self.warn(message);
            } else if level == 2 {
                self.info(message);
            } else if level == 3 {
                self.debug(message);
            } else {
                self.trace(message);
            }
        }
    }
}

} // verus!

verus! {

impl Default for Logger {
    /// The library's stock sink: verbosity 3 under the crate's own prefix.
    fn default() -> (r: Logger)
        ensures
            r.verbosity == 3,
            r.prefix@ == "AsyncFlow"@,
            r.records@.len() == 0,
    {
        Logger::new("AsyncFlow".to_owned())
    }
}

} // verus!
