//! The configuration of a run: where the service is, and for how long to ask.

use vstd::prelude::*;

verus! {

/// `parse_duration::parse::Error`: why a text is no duration. Of its inside
/// only the message is used.
#[verifier::external_type_specification]
#[verifier::external_body]
pub struct ExParseError(parse_duration::parse::Error);

/// `parse_duration::parse`, as a function of its input: the duration in
/// nanoseconds, or the message of the error.
pub uninterp spec fn parsed(text: Seq<char>) -> Result<u128, Seq<char>>;

/// The message that a parse error displays.
pub uninterp spec fn message(e: parse_duration::parse::Error) -> Seq<char>;

/// `parse_duration::parse`: the duration that a text stands for, or the
/// parser's error. The parser raises ten to the exponent that it reads in the
/// text, so the call takes the time and the memory that this power takes.
#[verifier::external_body]
fn parse(text: &str) -> (r: Result<u128, parse_duration::parse::Error>)
    ensures
        match r {
            Ok(nanos) => parsed(text@) == Ok::<u128, Seq<char>>(nanos),
            Err(e) => parsed(text@) == Err::<u128, Seq<char>>(message(e)),
        },
{
    parse_duration::parse(text).map(|d| d.as_nanos())
}

/// `ToString::to_string` of a parse error: the message it displays.
#[verifier::external_body]
fn error_text(e: &parse_duration::parse::Error) -> (s: String)
    ensures
        s@ == message(*e),
{
    e.to_string()
}

/// What the command line gave: the address of the service, and perhaps a
/// duration.
#[derive(Debug)]
pub struct CliConfiguration {
    pub url: String,
    pub duration: Option<String>,
}

/// The address of the service and the duration of the run in nanoseconds.
#[derive(Debug)]
pub struct Configuration {
    pub url: String,
    pub duration_nanos: u128,
}

/// The duration that is parsed: the one given, or ten minutes.
pub open spec fn duration_text(duration: Option<String>) -> Seq<char> {
    match duration {
        Some(d) => d@,
        None => "10m"@,
    }
}

/// The error for a text that the parser did not take for a duration.
pub open spec fn refusal(text: Seq<char>, reason: Seq<char>) -> Seq<char> {
    "Couldn't parse duration from \""@ + text + "\"\n\t"@ + reason
}

impl Configuration {
    /// The configuration for an address and a duration that was parsed, or
    /// the error for a text that was not: it names the text and ends in the
    /// parser's message.
    pub fn from_resolved(url: String, text: &str, resolved: Result<u128, String>) -> (r: Result<
        Configuration,
        String,
    >)
        ensures
            match resolved {
                Ok(nanos) => r is Ok && r->Ok_0.url == url && r->Ok_0.duration_nanos == nanos,
                Err(reason) => r is Err && r->Err_0@ == refusal(text@, reason@),
            },
    {
        match resolved {
            Ok(nanos) => Ok(Configuration { url, duration_nanos: nanos }),
            Err(reason) => {
                let mut error = String::new();
                error.append("Couldn't parse duration from \"");
                error.append(text);
                error.append("\"\n\t");
                error.append(reason.as_str());
                assert(error@ =~= refusal(text@, reason@));
                Err(error)
            },
        }
    }

    /// The configuration that a command line stands for. Without a duration
    /// the run takes ten minutes. The result is the parser's: the duration it
    /// reads, or an error that names the text and ends in its message. The
    /// address is taken as it is.
    pub fn try_from(cli: CliConfiguration) -> (r: Result<Configuration, String>)
        ensures
            match parsed(duration_text(cli.duration)) {
                Ok(nanos) => r is Ok && r->Ok_0.url == cli.url && r->Ok_0.duration_nanos == nanos,
                Err(reason) => r is Err && r->Err_0@ == refusal(
                    duration_text(cli.duration),
                    reason,
                ),
            },
    {
        let text = match cli.duration {
            Some(d) => d,
            None => String::from_str("10m"),
        };
        let resolved = match parse(text.as_str()) {
            Ok(nanos) => Ok(nanos),
            Err(e) => Err(error_text(&e)),
        };
        Configuration::from_resolved(cli.url, text.as_str(), resolved)
    }
}

} // verus!
