use vstd::prelude::*;
use vstd::string::StrSliceExecFns;

verus! {

/// Wire-format choices that govern every encoded message.
#[derive(Clone, Copy, Debug, PartialEq, Eq, Structural)]
pub struct Meta {
    /// Reversed framing.
    pub reversed: bool,
    /// Enhanced checksum mode.
    pub enhanced_crc: bool,
    /// Big endian framing (the default).
    pub big_endian: bool,
}

/// Rejection of a set of options.
#[derive(Clone, Copy, Debug, PartialEq, Eq, Structural)]
pub enum CliError {
    /// Both an explicit output file and a streaming interface were given.
    OutputAndStream,
}

/// Whether `path` names compressed input: it ends in `.gz`.
pub open spec fn is_gzip_path(path: Seq<char>) -> bool {
    path.len() >= 3 && path.subrange(path.len() - 3, path.len() as int) == ".gz"@
}

/// Whether the input at `path` is gzip compressed, told by its `.gz` suffix.
pub fn gzip_input(path: &str) -> (r: bool)
    ensures
        r == is_gzip_path(path@),
{
    proof {
        reveal_strlit(".gz");
    }
    let n = path.unicode_len();
    if n < 3 {
        return false;
    }
    let r = path.get_char(n - 3) == '.' && path.get_char(n - 2) == 'g' && path.get_char(n - 1) == 'z';
    proof {
        let tail = path@.subrange(n - 3, n as int);
        if r {
            assert(tail =~= ".gz"@);
        } else {
            assert(tail[0] != '.' || tail[1] != 'g' || tail[2] != 'z');
            assert(tail != ".gz"@);
        }
    }
    r
}

/// The options of one conversion run, as given by the user.
pub struct Cli {
    /// Input RINEX file.
    pub filepath: String,
    /// Little endian framing.
    pub little: bool,
    /// Enhanced checksum mode.
    pub crc: bool,
    /// Reversed framing.
    pub reversed: bool,
    /// Explicit output file name.
    pub output: Option<String>,
    /// Prefer the short (V2) form when the file name is derived.
    pub short: bool,
    /// Writable interface to stream to, instead of a file.
    pub streaming: Option<String>,
    /// Gzip compress the output.
    pub gzip: bool,
}

impl Cli {
    /// At most one destination kind is selected.
    pub open spec fn wf(&self) -> bool {
        !(self.output is Some && self.streaming is Some)
    }

    /// Collects the options of a run; an explicit output file together with a
    /// streaming interface is refused.
    pub fn new(
        filepath: String,
        little: bool,
        crc: bool,
        reversed: bool,
        output: Option<String>,
        short: bool,
        streaming: Option<String>,
        gzip: bool,
    ) -> (r: Result<Cli, CliError>)
        ensures
            r is Ok <==> !(output is Some && streaming is Some),
            r is Err ==> r == Err::<Cli, CliError>(CliError::OutputAndStream),
            r matches Ok(c) ==> {
                &&& c.wf()
                &&& c.filepath == filepath
                &&& c.little == little
                &&& c.crc == crc
                &&& c.reversed == reversed
                &&& c.output == output
                &&& c.short == short
                &&& c.streaming == streaming
                &&& c.gzip == gzip
            },
    {
        if output.is_some() && streaming.is_some() {
            return Err(CliError::OutputAndStream);
        }
        Ok(Cli { filepath, little, crc, reversed, output, short, streaming, gzip })
    }

    /// The input file.
    pub fn input_path(&self) -> (r: String)
        ensures
            r@ == self.filepath@,
    {
        self.filepath.clone()
    }

    /// A custom name prefix; no option sets one.
    pub fn custom_prefix(&self) -> (r: Option<&String>)
        ensures
            r is None,
    {
        None
    }

    /// The explicit output file name, if any.
    pub fn custom_bin_name(&self) -> (r: Option<&String>)
        ensures
            r == match self.output {
                Some(ref s) => Some(s),
                None => None::<&String>,
            },
    {
        match &self.output {
            Some(s) => Some(s),
            None => None,
        }
    }

    /// Whether the short file name form was asked for.
    pub fn short_bin_name(&self) -> (r: bool)
        ensures
            r == self.short,
    {
        self.short
    }

    /// The streaming interface, if any.
    pub fn streaming(&self) -> (r: Option<String>)
        ensures
            r is Some <==> self.streaming is Some,
            r matches Some(s) ==> s@ == self.streaming->0@,
    {
        match &self.streaming {
            Some(s) => Some(s.clone()),
            None => None,
        }
    }

    /// Whether the output is gzip compressed.
    pub fn gzip_output(&self) -> (r: bool)
        ensures
            r == self.gzip,
    {
        self.gzip
    }

    /// The wire format asked for: big endian unless little endian was chosen.
    pub fn binex_meta(&self) -> (r: Meta)
        ensures
            r == (Meta { reversed: self.reversed, enhanced_crc: self.crc, big_endian: !self.little }),
    {
        Meta { reversed: self.reversed, enhanced_crc: self.crc, big_endian: !self.little }
    }
}

} // verus!
