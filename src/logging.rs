use vstd::prelude::*;

verus! {

/// The most detailed kind of log record that is let through.
#[derive(PartialEq, Eq, Structural, Debug, Clone, Copy)]
pub enum LogLevel {
    Off,
    Error,
    Warn,
    Info,
    Debug,
    Trace,
}

/// The lowercase form of a text, as `str::to_lowercase` gives it.
pub uninterp spec fn lower_of(s: Seq<char>) -> Seq<char>;

/// Relies on `str::to_lowercase`: the lowercase form depends on the
/// characters alone.
#[verifier::external_body]
fn lowercase(s: &str) -> (r: String)
    ensures
        r@ == lower_of(s@),
{
    s.to_lowercase()
}

/// Whether two texts hold the same characters.
fn same_text(a: &str, b: &str) -> (r: bool)
    ensures
        r == (a@ == b@),
{
    let n = a.unicode_len();
    if n != b.unicode_len() {
        return false;
    }
    let mut i: usize = 0;
    while i < n
        invariant
            n == a@.len(),
            n == b@.len(),
            i <= n,
            forall|k: int| 0 <= k < i ==> a@[k] == b@[k],
        decreases n - i,
    {
        if a.get_char(i) != b.get_char(i) {
            return false;
        }
        i = i + 1;
    }
    assert(a@ =~= b@);
    true
}

/// The level that a lowercase name selects: `fatal` and `off` silence the
/// log, `warning` is `warn`, and a name that is not known selects `info`.
pub open spec fn level_named(name: Seq<char>) -> LogLevel {
    if name == "fatal"@ || name == "off"@ {
        LogLevel::Off
    } else if name == "error"@ {
        LogLevel::Error
    } else if name == "warn"@ || name == "warning"@ {
        LogLevel::Warn
    } else if name == "info"@ {
        LogLevel::Info
    } else if name == "debug"@ {
        LogLevel::Debug
    } else if name == "trace"@ {
        LogLevel::Trace
    } else {
        LogLevel::Info
    }
}

/// The level that a name already in lowercase selects.
pub fn level_from_lowercase(name: &str) -> (r: LogLevel)
    ensures
        r == level_named(name@),
{
    if same_text(name, "fatal") || same_text(name, "off") {
        LogLevel::Off
    } else if same_text(name, "error") {
        LogLevel::Error
    } else if same_text(name, "warn") || same_text(name, "warning") {
        LogLevel::Warn
    } else if same_text(name, "info") {
        LogLevel::Info
    } else if same_text(name, "debug") {
        LogLevel::Debug
    } else if same_text(name, "trace") {
        LogLevel::Trace
    } else {
        LogLevel::Info
    }
}

/// The level that a name selects, whatever the case of its letters.
pub fn level_filter_from_str(value: &mut String) -> (r: LogLevel)
    ensures
        r == level_named(lower_of(old(value)@)),
        final(value)@ == old(value)@,
{
    let lower = lowercase(value.as_str());
    level_from_lowercase(lower.as_str())
}

} // verus!
