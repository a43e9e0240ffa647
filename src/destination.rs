use vstd::prelude::*;
use vstd::string::StringExecFns;
use crate::cli::Cli;

verus! {

/// Where the stream goes, decided once before streaming.
pub enum Destination {
    /// An existing writable interface, opened in write mode.
    Stream { target: String, gzip: bool },
    /// A file, created or truncated.
    File { path: String, gzip: bool },
}

/// The suffix of a derived file name: `.bin`, then `.gz` when compressed.
pub open spec fn suffix_of(gzip: bool) -> Seq<char> {
    if gzip {
        ".bin.gz"@
    } else {
        ".bin"@
    }
}

/// Whether a derived file name takes the short form: on request, or for a
/// document of a format revision below 3.
pub open spec fn short_form_of(short: bool, major: nat) -> bool {
    short || major < 3
}

/// The destination that the options select, with `derived` the file name
/// derived from the document when neither a file nor an interface is given.
pub open spec fn destination_of(cli: &Cli, derived: Seq<char>, d: Destination) -> bool {
    match d {
        Destination::Stream { target, gzip } => {
            &&& cli.streaming matches Some(t) && target@ == t@
            &&& gzip == cli.gzip
        },
        Destination::File { path, gzip } => {
            &&& cli.streaming is None
            &&& gzip == cli.gzip
            &&& path@ == match cli.output {
                Some(o) => o@,
                None => derived,
            }
        },
    }
}

impl Cli {
    /// Whether the derived file name takes the short form, for a document of
    /// format revision `major`.
    pub fn short_form(&self, major: u8) -> (r: bool)
        ensures
            r == short_form_of(self.short, major as nat),
    {
        self.short || major < 3
    }

    /// The suffix of the derived file name.
    pub fn output_suffix(&self) -> (r: String)
        ensures
            r@ == suffix_of(self.gzip),
    {
        if self.gzip {
            String::from_str(".bin.gz")
        } else {
            String::from_str(".bin")
        }
    }

    /// The destination of the run: the interface when one is given, else the
    /// explicit file, else the derived name; compressed exactly when asked.
    pub fn destination(&self, derived: String) -> (r: Destination)
        requires
            self.wf(),
        ensures
            destination_of(self, derived@, r),
    {
        match &self.streaming {
            Some(t) => Destination::Stream { target: t.clone(), gzip: self.gzip },
            None => match &self.output {
                Some(o) => Destination::File { path: o.clone(), gzip: self.gzip },
                None => Destination::File { path: derived, gzip: self.gzip },
            },
        }
    }
}

/// The request for a derived file name depends only on the document's format
/// revision and on the short and gzip options: equal inputs give an equal
/// request, and so an equal name.
pub proof fn lemma_name_request_deterministic(a: &Cli, b: &Cli, major: nat)
    requires
        a.short == b.short,
        a.gzip == b.gzip,
    ensures
        short_form_of(a.short, major) == short_form_of(b.short, major),
        suffix_of(a.gzip) == suffix_of(b.gzip),
{
}

/// A run selects at most one destination, and it is determined by the options
/// and the derived name alone.
pub proof fn lemma_destination_unique(cli: &Cli, derived: Seq<char>, d1: Destination, d2: Destination)
    requires
        cli.wf(),
        destination_of(cli, derived, d1),
        destination_of(cli, derived, d2),
    ensures
        d1 is Stream <==> d2 is Stream,
        d1 matches Destination::Stream { target: t1, gzip: g1 } ==> (d2 matches Destination::Stream { target: t2, gzip: g2 } && t1@ == t2@ && g1 == g2),
        d1 matches Destination::File { path: p1, gzip: g1 } ==> (d2 matches Destination::File { path: p2, gzip: g2 } && p1@ == p2@ && g1 == g2),
{
}

} // verus!
