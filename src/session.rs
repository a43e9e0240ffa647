use vstd::prelude::*;
use vstd::string::StringExecFns;

verus! {

/// Name under which the tool announces itself at the head of a stream.
pub const TOOL_NAME: &'static str = "rtk-rs/rinex2bin";

/// The header fields of the source document that the session reads.
pub struct Header {
    /// Major format revision.
    pub major: u8,
    /// Constellation, as text, when the document is single-constellation.
    pub constellation: Option<String>,
    /// Document type, as text.
    pub rinex_type: String,
}

/// Configuration handed to the message stream before its first pull.
pub struct SessionConfig {
    /// Do not emit the source header.
    pub skip_header: bool,
    /// Provenance announcement emitted first.
    pub custom_announce: Option<String>,
}

/// The character of a decimal digit.
pub open spec fn digit_char(d: nat) -> char {
    if d == 0 { '0' }
    else if d == 1 { '1' }
    else if d == 2 { '2' }
    else if d == 3 { '3' }
    else if d == 4 { '4' }
    else if d == 5 { '5' }
    else if d == 6 { '6' }
    else if d == 7 { '7' }
    else if d == 8 { '8' }
    else { '9' }
}

/// Decimal rendering of a natural number, without leading zeros.
pub open spec fn decimal(n: nat) -> Seq<char>
    decreases n,
{
    if n < 10 {
        seq![digit_char(n)]
    } else {
        decimal(n / 10).push(digit_char(n % 10))
    }
}

/// "<tool> v<version> from V<major> [<constellation>] <type>".
pub open spec fn announcement_of(
    version: Seq<char>,
    major: nat,
    constellation: Option<Seq<char>>,
    rinex_type: Seq<char>,
) -> Seq<char> {
    let head = TOOL_NAME@ + " v"@ + version + " from V"@ + decimal(major) + " "@;
    match constellation {
        Some(c) => head + c + " "@ + rinex_type,
        None => head + rinex_type,
    }
}

/// The view of an optional text.
pub open spec fn opt_view(o: Option<String>) -> Option<Seq<char>> {
    match o {
        Some(s) => Some(s@),
        None => None,
    }
}

fn digit_str(d: u8) -> (r: &'static str)
    requires
        d < 10,
    ensures
        r@ == seq![digit_char(d as nat)],
{
    proof {
        reveal_strlit("0");
        reveal_strlit("1");
        reveal_strlit("2");
        reveal_strlit("3");
        reveal_strlit("4");
        reveal_strlit("5");
        reveal_strlit("6");
        reveal_strlit("7");
        reveal_strlit("8");
        reveal_strlit("9");
    }
    let r = match d {
        0 => "0",
        1 => "1",
        2 => "2",
        3 => "3",
        4 => "4",
        5 => "5",
        6 => "6",
        7 => "7",
        8 => "8",
        _ => "9",
    };
    assert(r@ =~= seq![digit_char(d as nat)]);
    r
}

fn push_decimal(s: &mut String, n: u8)
    ensures
        final(s)@ == old(s)@ + decimal(n as nat),
    decreases n,
{
    if n >= 10 {
        push_decimal(s, n / 10);
    }
    s.append(digit_str(n % 10));
    proof {
        if n >= 10 {
            assert(decimal(n as nat) == decimal((n / 10) as nat).push(digit_char((n % 10) as nat)));
        }
        assert(final(s)@ =~= old(s)@ + decimal(n as nat));
    }
}

/// The provenance announcement of a conversion of a document with `header`,
/// by this tool at `version`.
pub fn announcement(version: &str, header: &Header) -> (r: String)
    ensures
        r@ == announcement_of(
            version@,
            header.major as nat,
            opt_view(header.constellation),
            header.rinex_type@,
        ),
{
    let mut s = String::from_str(TOOL_NAME);
    s.append(" v");
    s.append(version);
    s.append(" from V");
    push_decimal(&mut s, header.major);
    s.append(" ");
    match &header.constellation {
        Some(c) => {
            s.append(c.as_str());
            s.append(" ");
        },
        None => {},
    }
    s.append(header.rinex_type.as_str());
    proof {
        let head = TOOL_NAME@ + " v"@ + version@ + " from V"@ + decimal(header.major as nat) + " "@;
        if header.constellation is Some {
            assert(s@ =~= head + header.constellation->0@ + " "@ + header.rinex_type@);
        } else {
            assert(s@ =~= head + header.rinex_type@);
        }
    }
    s
}

/// The configuration of a session: the announcement is always set, before any pull.
pub fn session_config(version: &str, header: &Header, skip_header: bool) -> (r: SessionConfig)
    ensures
        r.skip_header == skip_header,
        r.custom_announce matches Some(a) && a@ == announcement_of(
            version@,
            header.major as nat,
            opt_view(header.constellation),
            header.rinex_type@,
        ),
{
    SessionConfig { skip_header, custom_announce: Some(announcement(version, header)) }
}

} // verus!
