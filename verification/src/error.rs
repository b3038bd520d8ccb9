//! The ways a scan can fail.

use vstd::prelude::*;
use vstd::string::StringExecFns;

verus! {

/// A fatal outcome of a scan. Every variant ends the scan without a report.
#[derive(Debug)]
pub enum ScanError {
    /// An argument was an unknown flag, or a flag lacked its value.
    OptionParse { message: String },
    /// No positional input was given where one was needed.
    NoInput,
    /// More than one positional input was given; holds the first two.
    MultipleInput { first: String, second: String },
    /// Standard input was not valid UTF-8.
    StdinEncoding,
    /// The host front end rejected the source; holds its message verbatim.
    HostParse { message: String },
}

/// The mathematical value of a [`ScanError`].
pub enum ScanErrorView {
    OptionParse { message: Seq<char> },
    NoInput,
    MultipleInput { first: Seq<char>, second: Seq<char> },
    StdinEncoding,
    HostParse { message: Seq<char> },
}

impl View for ScanError {
    type V = ScanErrorView;

    open spec fn view(&self) -> ScanErrorView {
        match *self {
            ScanError::OptionParse { message } => ScanErrorView::OptionParse { message: message@ },
            ScanError::NoInput => ScanErrorView::NoInput,
            ScanError::MultipleInput { first, second } => ScanErrorView::MultipleInput {
                first: first@,
                second: second@,
            },
            ScanError::StdinEncoding => ScanErrorView::StdinEncoding,
            ScanError::HostParse { message } => ScanErrorView::HostParse { message: message@ },
        }
    }
}

impl ScanErrorView {
    /// The diagnostic shown to the user for this failure.
    pub open spec fn message(self) -> Seq<char> {
        match self {
            ScanErrorView::OptionParse { message } => message,
            ScanErrorView::NoInput => "no input filename given"@,
            ScanErrorView::MultipleInput { first, second } =>
                "multiple input filenames provided (first two filenames are `"@ + first
                    + "` and `"@ + second + "`)"@,
            ScanErrorView::StdinEncoding =>
                "couldn't read from stdin, as it did not contain valid UTF-8"@,
            ScanErrorView::HostParse { message } => message,
        }
    }
}

impl ScanError {
    /// The diagnostic shown to the user for this failure.
    pub fn message(&self) -> (text: String)
        ensures
            text@ == self@.message(),
    {
        match self {
            ScanError::OptionParse { message } => message.clone(),
            ScanError::NoInput => String::from_str("no input filename given"),
            ScanError::MultipleInput { first, second } => {
                let mut text = String::from_str(
                    "multiple input filenames provided (first two filenames are `",
                );
                text.append(first.as_str());
                text.append("` and `");
                text.append(second.as_str());
                text.append("`)");
                text
            },
            ScanError::StdinEncoding => String::from_str(
                "couldn't read from stdin, as it did not contain valid UTF-8",
            ),
            ScanError::HostParse { message } => message.clone(),
        }
    }
}

} // verus!
