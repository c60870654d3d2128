//! Parse failures and their span-located diagnostics.
//!
//! A failed compilation yields a [`ParseError`] holding the error kind, the
//! full original format string, and the offending span as a start offset and
//! width, both counted in characters of the original. The diagnostic text
//! underlines that span beneath a copy of the original string.

use vstd::prelude::*;
use vstd::string::StrSliceExecFns;
use vstd::string::StringExecFns;

use crate::strutil::push_char;
use crate::strutil::repeat_char;
use crate::strutil::spec_repeat;

verus! {

/// The ways a format string can fail to compile.
#[derive(Clone, Copy, Debug, PartialEq, Eq, Structural)]
pub enum ParseErrorType {
    /// A `{` opened an expansion that never reaches a closing `}`.
    UnterminatedExpansion,
    /// An unknown metadata key, or a date/time directive cut short by the
    /// end of the string.
    InvalidExpansion,
    /// The scanner stopped in a state it cannot classify.
    Unknown,
}

/// A second name for the same taxonomy, kept for callers that use it.
pub type ErrorKind = ParseErrorType;

/// A compile failure: its kind, the full original format string, and the
/// offending span within it, in character units.
#[derive(Clone, Debug)]
pub struct ParseError {
    pub err_ty: ParseErrorType,
    pub original: String,
    pub start: usize,
    pub width: usize,
}

impl ParseError {
    /// The span lies within the original string.
    pub open spec fn wf(self) -> bool {
        self.start + self.width <= self.original@.len()
    }

    pub fn new(start: usize, width: usize, original: &str, kind: ParseErrorType) -> (r:
        ParseError)
        ensures
            r.err_ty == kind,
            r.original@ == original@,
            r.start == start,
            r.width == width,
    {
        ParseError { err_ty: kind, original: String::from_str(original), start, width }
    }

    pub fn unterminated_expansion(start: usize, width: usize, original: &str) -> (r: ParseError)
        ensures
            r.err_ty == ParseErrorType::UnterminatedExpansion,
            r.original@ == original@,
            r.start == start,
            r.width == width,
    {
        Self::new(start, width, original, ParseErrorType::UnterminatedExpansion)
    }

    pub fn invalid_expansion(start: usize, width: usize, original: &str) -> (r: ParseError)
        ensures
            r.err_ty == ParseErrorType::InvalidExpansion,
            r.original@ == original@,
            r.start == start,
            r.width == width,
    {
        Self::new(start, width, original, ParseErrorType::InvalidExpansion)
    }

    /// The three-line diagnostic around a given first line: the message, the
    /// original string, and an underline of the span.
    pub fn print_error_details(&self, msg: &str) -> (r: String)
        ensures
            r@ == spec_error_details(*self, msg@),
    {
        let mut r = String::from_str(msg);
        r.append("\n> ");
        r.append(self.original.as_str());
        r.append("\n> ");
        let padding = repeat_char(' ', self.start);
        r.append(padding.as_str());
        let line = underline(self.width);
        r.append(line.as_str());
        r.append("\n");
        r
    }

    /// The full diagnostic text, naming the kind and quoting the offending
    /// span.
    pub fn message(&self) -> (r: String)
        requires
            self.wf(),
        ensures
            r@ == spec_message(*self),
    {
        // Learning the exec length bounds `start + width` by the address
        // space, so the sum below cannot overflow.
        let _total = self.original.as_str().unicode_len();
        let mut msg = String::from_str(kind_text(self.err_ty));
        msg.append(": ");
        let span = self.original.as_str().substring_char(self.start, self.start + self.width);
        msg.append(span);
        self.print_error_details(msg.as_str())
    }
}

/// The human-readable name of an error kind.
pub open spec fn spec_kind_text(k: ParseErrorType) -> Seq<char> {
    match k {
        ParseErrorType::UnterminatedExpansion => "unterminated variable expansion"@,
        ParseErrorType::InvalidExpansion => "invalid variable expansion"@,
        ParseErrorType::Unknown => "unknown error"@,
    }
}

fn kind_text(k: ParseErrorType) -> (r: &'static str)
    ensures
        r@ == spec_kind_text(k),
{
    match k {
        ParseErrorType::UnterminatedExpansion => "unterminated variable expansion",
        ParseErrorType::InvalidExpansion => "invalid variable expansion",
        ParseErrorType::Unknown => "unknown error",
    }
}

/// A caret followed by tildes, one column for each character of the span.
pub open spec fn spec_underline(w: nat) -> Seq<char> {
    seq!['^'] + spec_repeat('~', if w == 0 { 0 } else { (w - 1) as nat })
}

fn underline(w: usize) -> (r: String)
    ensures
        r@ == spec_underline(w as nat),
{
    let mut r = String::new();
    push_char(&mut r, '^');
    if w > 1 {
        let tail = repeat_char('~', w - 1);
        r.append(tail.as_str());
    }
    proof {
        assert(r@ =~= spec_underline(w as nat));
    }
    r
}

/// The three-line diagnostic with `msg` as its first line.
pub open spec fn spec_error_details(e: ParseError, msg: Seq<char>) -> Seq<char> {
    msg + "\n> "@ + e.original@ + "\n> "@ + spec_repeat(' ', e.start as nat) + spec_underline(
        e.width as nat,
    ) + "\n"@
}

/// The full diagnostic text of an error: kind name, quoted span, then the
/// original string with the span underlined.
pub open spec fn spec_message(e: ParseError) -> Seq<char> {
    spec_error_details(
        e,
        spec_kind_text(e.err_ty) + ": "@ + e.original@.subrange(
            e.start as int,
            e.start + e.width,
        ),
    )
}

} // verus!
