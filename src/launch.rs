use crate::text::{decimal, decimal_string, join_with, joined_with};
use vstd::prelude::*;
use vstd::string::StringExecFns;

verus! {

/// Why the web server could not launch.
#[derive(Debug, Clone, Copy, PartialEq, Eq, Structural)]
pub enum LaunchFailure {
    /// The address or port could not be bound.
    Bind,
    /// An I/O failure during launch.
    Io,
    /// The configuration is invalid.
    Config,
    /// Two routes or two catchers collide.
    Collisions,
    /// A fairing failed.
    FailedFairings,
    /// A sentinel asked to abort.
    SentinelAborts,
    /// A release profile without a secret key.
    InsecureSecretKey,
    /// Anything else.
    Unknown,
}

/// The message that the process stops with for each failure.
pub open spec fn launch_message(failure: LaunchFailure) -> Seq<char> {
    match failure {
        LaunchFailure::Bind => "Address/Port binding error."@,
        LaunchFailure::Io => "API IO error during launch."@,
        LaunchFailure::Config => "Config is not valid."@,
        LaunchFailure::Collisions => "API Collision error."@,
        LaunchFailure::FailedFairings => "API Fairing error."@,
        LaunchFailure::SentinelAborts => "Sentinels requested abort"@,
        LaunchFailure::InsecureSecretKey => "The configuration profile is not debug but not secret key is configured."@,
        LaunchFailure::Unknown => "API Unknown error."@,
    }
}

/// The report of one collision between two routes or two catchers.
pub open spec fn collision_text(kind: Seq<char>, first: Seq<char>, second: Seq<char>) -> Seq<char> {
    "Collision ("@ + kind + ") between: \n"@ + first + "\nand\n"@ + second + "\n"@
}

/// The report of one sentinel that aborted, with its place in the source.
pub open spec fn sentinel_text(sentinel: Seq<char>, file: Seq<char>, line: u32, column: u32) -> Seq<char> {
    sentinel + " ("@ + file + ":"@ + decimal(line as nat) + ":"@ + decimal(column as nat) + ")"@
}

/// The message that the process stops with.
pub fn launch_failure_message(failure: LaunchFailure) -> (r: &'static str)
    ensures
        r@ == launch_message(failure),
{
    proof {
        reveal_strlit("Address/Port binding error.");
        reveal_strlit("API IO error during launch.");
        reveal_strlit("Config is not valid.");
        reveal_strlit("API Collision error.");
        reveal_strlit("API Fairing error.");
        reveal_strlit("Sentinels requested abort");
        reveal_strlit("The configuration profile is not debug but not secret key is configured.");
        reveal_strlit("API Unknown error.");
    }
    match failure {
        LaunchFailure::Bind => "Address/Port binding error.",
        LaunchFailure::Io => "API IO error during launch.",
        LaunchFailure::Config => "Config is not valid.",
        LaunchFailure::Collisions => "API Collision error.",
        LaunchFailure::FailedFairings => "API Fairing error.",
        LaunchFailure::SentinelAborts => "Sentinels requested abort",
        LaunchFailure::InsecureSecretKey => "The configuration profile is not debug but not secret key is configured.",
        LaunchFailure::Unknown => "API Unknown error.",
    }
}

/// The reports of the given collisions, separated by blank lines.
pub fn collision_messages(kind: &str, firsts: &Vec<String>, seconds: &Vec<String>) -> (r: String)
    requires
        firsts@.len() == seconds@.len(),
    ensures
        r@ == joined_with(
            Seq::new(
                firsts@.len(),
                |i: int| collision_text(kind@, firsts@[i]@, seconds@[i]@),
            ),
            "\n"@,
        ),
{
    let mut lines: Vec<String> = Vec::new();
    let mut i: usize = 0;
    while i < firsts.len()
        invariant
            i <= firsts@.len(),
            firsts@.len() == seconds@.len(),
            lines@.len() == i,
            forall|j: int| 0 <= j < i ==> (#[trigger] lines@[j])@ == collision_text(kind@, firsts@[j]@, seconds@[j]@),
        decreases firsts@.len() - i,
    {
        let mut line = String::from_str("Collision (");
        line.append(kind);
        line.append(") between: \n");
        line.append(firsts[i].as_str());
        line.append("\nand\n");
        line.append(seconds[i].as_str());
        line.append("\n");
        lines.push(line);
        i = i + 1;
    }
    let r = join_with(&lines, "\n");
    assert(lines.deep_view() =~= Seq::new(
        firsts@.len(),
        |i: int| collision_text(kind@, firsts@[i]@, seconds@[i]@),
    ));
    r
}

/// The report of one sentinel that aborted.
pub fn sentinel_message(sentinel: &str, file: &str, line: u32, column: u32) -> (r: String)
    ensures
        r@ == sentinel_text(sentinel@, file@, line, column),
{
    let mut r = String::from_str(sentinel);
    r.append(" (");
    r.append(file);
    r.append(":");
    let l = decimal_string(line as u64);
    r.append(l.as_str());
    r.append(":");
    let c = decimal_string(column as u64);
    r.append(c.as_str());
    r.append(")");
    r
}

} // verus!
