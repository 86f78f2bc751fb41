//! The errors of printing.
use vstd::prelude::*;

verus! {

/// An error of printing, over a type `S` of text: `String` in executable code and `Seq<char>`
/// in specifications.
#[derive(Debug)]
pub enum PrintErrorOf<S> {
    /// There are no printers to work with.
    NoPrinters,
    /// An input file could not be read; holds the reason.
    FileRead(S),
    /// A string could not be converted to a C string (it holds a NUL byte); holds the reason.
    StringConversion(S),
    /// The printer does not support an option.
    UnsupportedOption { name: S, value: S },
    /// An error reported by the printing backend (CUPS on Unix systems).
    Backend(S),
}

/// An error of printing.
pub type PrintError = PrintErrorOf<String>;

/// The specification model of an error of printing.
pub type PrintErrorView = PrintErrorOf<Seq<char>>;

impl View for PrintErrorOf<String> {
    type V = PrintErrorOf<Seq<char>>;

    open spec fn view(&self) -> PrintErrorOf<Seq<char>> {
        match self {
            PrintErrorOf::NoPrinters => PrintErrorOf::NoPrinters,
            PrintErrorOf::FileRead(s) => PrintErrorOf::FileRead(s@),
            PrintErrorOf::StringConversion(s) => PrintErrorOf::StringConversion(s@),
            PrintErrorOf::UnsupportedOption { name, value } => PrintErrorOf::UnsupportedOption {
                name: name@,
                value: value@,
            },
            PrintErrorOf::Backend(s) => PrintErrorOf::Backend(s@),
        }
    }
}

impl PrintErrorOf<String> {
    /// Returns a copy of this error.
    pub fn duplicate(&self) -> (r: PrintError)
        ensures
            r@ == self@,
    {
        match self {
            PrintErrorOf::NoPrinters => PrintErrorOf::NoPrinters,
            PrintErrorOf::FileRead(s) => PrintErrorOf::FileRead(s.clone()),
            PrintErrorOf::StringConversion(s) => PrintErrorOf::StringConversion(s.clone()),
            PrintErrorOf::UnsupportedOption { name, value } => PrintErrorOf::UnsupportedOption {
                name: name.clone(),
                value: value.clone(),
            },
            PrintErrorOf::Backend(s) => PrintErrorOf::Backend(s.clone()),
        }
    }
}

/// The backend error for the last error message that CUPS reported, if it reported one;
/// an empty message otherwise.
pub open spec fn backend_error_view(last_error: Option<Seq<char>>) -> PrintErrorView {
    match last_error {
        Some(m) => PrintErrorOf::Backend(m),
        None => PrintErrorOf::Backend(Seq::empty()),
    }
}

/// Builds the backend error for the last error message that CUPS reported, if any.
pub fn backend_error(last_error: Option<String>) -> (r: PrintError)
    ensures
        r@ == backend_error_view(
            match last_error {
                Some(m) => Some(m@),
                None => None,
            },
        ),
{
    match last_error {
        Some(message) => PrintErrorOf::Backend(message),
        None => PrintErrorOf::Backend(String::new()),
    }
}

} // verus!
