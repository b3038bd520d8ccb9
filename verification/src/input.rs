//! Resolution of the positional arguments into the one input of a scan, and
//! of the output flags into an output target.

use vstd::prelude::*;
use vstd::utf8::{decode_utf8, valid_utf8};
use crate::error::{ScanError, ScanErrorView};
use crate::options::Options;
use crate::text::{opt_text, text_is, texts};

verus! {

/// The name under which source text from standard input goes.
#[derive(Debug)]
pub enum SourceName {
    /// A synthetic name.
    Anon,
    /// A name supplied from outside: a path and a line in it.
    DocTest { path: String, line: isize },
}

/// The input of a scan.
#[derive(Debug)]
pub enum Input {
    /// A file, named by its path. Whether it exists is not looked at here.
    File { path: String },
    /// Source text that was read from standard input.
    Str { name: SourceName, input: String },
}

/// Where output goes.
#[derive(Debug)]
pub enum OutFileName {
    Stdout,
    Real { path: String },
}

/// What was read from standard input, and the two overrides that rename it.
#[derive(Debug)]
pub struct StdinRead {
    /// The bytes read, to the end.
    pub bytes: Vec<u8>,
    /// The path that the text is to be named by, if one is set.
    pub test_path: Option<String>,
    /// The line that goes with the path.
    pub test_line: Option<isize>,
}

/// The mathematical value of a [`SourceName`].
pub enum SourceNameView {
    Anon,
    DocTest { path: Seq<char>, line: int },
}

/// The mathematical value of an [`Input`].
pub enum InputView {
    File { path: Seq<char> },
    Str { name: SourceNameView, input: Seq<char> },
}

/// The mathematical value of an [`OutFileName`].
pub enum OutFileNameView {
    Stdout,
    Real { path: Seq<char> },
}

impl View for SourceName {
    type V = SourceNameView;

    open spec fn view(&self) -> SourceNameView {
        match *self {
            SourceName::Anon => SourceNameView::Anon,
            SourceName::DocTest { path, line } => SourceNameView::DocTest {
                path: path@,
                line: line as int,
            },
        }
    }
}

impl View for Input {
    type V = InputView;

    open spec fn view(&self) -> InputView {
        match *self {
            Input::File { path } => InputView::File { path: path@ },
            Input::Str { name, input } => InputView::Str { name: name@, input: input@ },
        }
    }
}

impl View for OutFileName {
    type V = OutFileNameView;

    open spec fn view(&self) -> OutFileNameView {
        match *self {
            OutFileName::Stdout => OutFileNameView::Stdout,
            OutFileName::Real { path } => OutFileNameView::Real { path: path@ },
        }
    }
}

impl StdinRead {
    /// Whether the two overrides are both set or both unset.
    pub open spec fn paired(self) -> bool {
        self.test_path is Some <==> self.test_line is Some
    }

    /// The name that the overrides give to the text.
    pub open spec fn name(self) -> SourceNameView {
        match (self.test_path, self.test_line) {
            (Some(path), Some(line)) => SourceNameView::DocTest { path: path@, line: line as int },
            _ => SourceNameView::Anon,
        }
    }
}

/// Whether the positional arguments ask for standard input: there is one, and
/// it is the lone dash.
pub open spec fn wants_stdin(free: Seq<Seq<char>>) -> bool {
    free.len() == 1 && free[0] == "-"@
}

/// The input that the positional arguments resolve to. None of them is no
/// input and no failure; two or more are a failure that names the first two.
pub open spec fn input_for(free: Seq<Seq<char>>, stdin: StdinRead) -> Result<
    Option<InputView>,
    ScanErrorView,
> {
    if free.len() == 0 {
        Ok(None)
    } else if free.len() >= 2 {
        Err(ScanErrorView::MultipleInput { first: free[0], second: free[1] })
    } else if free[0] == "-"@ {
        if valid_utf8(stdin.bytes@) {
            Ok(Some(InputView::Str { name: stdin.name(), input: decode_utf8(stdin.bytes@) }))
        } else {
            Err(ScanErrorView::StdinEncoding)
        }
    } else {
        Ok(Some(InputView::File { path: free[0] }))
    }
}

/// The mathematical value of the outcome of an input resolution.
pub open spec fn input_outcome_view(r: Result<Option<Input>, ScanError>) -> Result<
    Option<InputView>,
    ScanErrorView,
> {
    match r {
        Ok(Some(input)) => Ok(Some(input@)),
        Ok(None) => Ok(None),
        Err(e) => Err(e@),
    }
}

/// The mathematical value of an optional output target.
pub open spec fn opt_out_view(out: Option<OutFileName>) -> Option<OutFileNameView> {
    match out {
        Some(o) => Some(o@),
        None => None,
    }
}

/// The output target that an output-file value names: the lone dash is
/// standard output, anything else a path.
pub open spec fn out_file_for(value: Option<Seq<char>>) -> Option<OutFileNameView> {
    match value {
        Some(path) => if path == "-"@ {
            Some(OutFileNameView::Stdout)
        } else {
            Some(OutFileNameView::Real { path })
        },
        None => None,
    }
}

/// `String::from_utf8` of std: the text that the bytes encode, or nothing
/// where they are not valid UTF-8.
#[verifier::external_body]
fn decode(bytes: Vec<u8>) -> (text: Option<String>)
    ensures
        text is Some <==> valid_utf8(bytes@),
        text matches Some(s) ==> s@ == decode_utf8(bytes@),
{
    String::from_utf8(bytes).ok()
}

/// Tells whether the positional arguments ask for standard input, so that a
/// caller reads it only then.
pub fn reads_stdin(free: &Vec<String>) -> (wanted: bool)
    ensures
        wanted == wants_stdin(texts(free@)),
{
    free.len() == 1 && text_is(&free[0], "-")
}

/// Resolves the positional arguments into the input of the scan. `stdin` is
/// looked at only where they ask for standard input.
pub fn make_input(free_matches: &Vec<String>, stdin: StdinRead) -> (r: Result<
    Option<Input>,
    ScanError,
>)
    requires
        wants_stdin(texts(free_matches@)) ==> stdin.paired(),
    ensures
        input_outcome_view(r) == input_for(texts(free_matches@), stdin),
{
    if free_matches.len() == 0 {
        Ok(None)
    } else if free_matches.len() >= 2 {
        Err(
            ScanError::MultipleInput {
                first: free_matches[0].clone(),
                second: free_matches[1].clone(),
            },
        )
    } else if text_is(&free_matches[0], "-") {
        let StdinRead { bytes, test_path, test_line } = stdin;
        match decode(bytes) {
            None => Err(ScanError::StdinEncoding),
            Some(input) => {
                let name = match (test_path, test_line) {
                    (Some(path), Some(line)) => SourceName::DocTest { path, line },
                    _ => SourceName::Anon,
                };
                Ok(Some(Input::Str { name, input }))
            },
        }
    } else {
        Ok(Some(Input::File { path: free_matches[0].clone() }))
    }
}

/// The output directory and the output target that the options name.
pub fn make_output(options: &Options) -> (out: (Option<String>, Option<OutFileName>))
    ensures
        opt_text(out.0) == options@.output_dir,
        opt_out_view(out.1) == out_file_for(options@.output_file),
{
    let odir = match &options.output_dir {
        Some(dir) => Some(dir.clone()),
        None => None,
    };
    let ofile = match &options.output_file {
        Some(path) => if text_is(path, "-") {
            Some(OutFileName::Stdout)
        } else {
            Some(OutFileName::Real { path: path.clone() })
        },
        None => None,
    };
    (odir, ofile)
}

} // verus!
