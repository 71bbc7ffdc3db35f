//! The pipeline's error type and its user-visible messages.
//!
//! Every failure of the pipeline surfaces as one `BrixError` and aborts the
//! run. Each error renders to a single descriptive message; an unknown
//! command kind names the kind and, when one clears the similarity
//! threshold, the suggested correction.

use vstd::prelude::*;

use crate::commands::{ParamField, ValidationError};
use crate::registry::CommandNotFoundError;
use crate::render::TemplateError;

verus! {

/// Any failure the pipeline can surface.
#[derive(Debug)]
pub enum BrixError {
    /// The config document was malformed.
    ConfigParse(String),
    /// A command kind named no known operation.
    CommandNotFound(CommandNotFoundError),
    /// A placeholder failed to render.
    Template(TemplateError),
    /// Required fields were missing.
    Validation(ValidationError),
    /// A filesystem failure during execution, as reported by the caller.
    Io(String),
}

/// One decimal digit as a character; only consulted for values below ten.
pub open spec fn spec_digit(d: nat) -> char {
    if d == 0 {
        '0'
    } else if d == 1 {
        '1'
    } else if d == 2 {
        '2'
    } else if d == 3 {
        '3'
    } else if d == 4 {
        '4'
    } else if d == 5 {
        '5'
    } else if d == 6 {
        '6'
    } else if d == 7 {
        '7'
    } else if d == 8 {
        '8'
    } else {
        '9'
    }
}

/// The decimal spelling of `n`, most significant digit first.
pub open spec fn spec_dec(n: nat) -> Seq<char>
    decreases n,
{
    if n < 10 {
        seq![spec_digit(n)]
    } else {
        spec_dec(n / 10) + seq![spec_digit(n % 10)]
    }
}

/// One decimal digit of `d`.
fn digit_str(d: usize) -> (r: &'static str)
    requires
        d < 10,
    ensures
        r@ == seq![spec_digit(d as nat)],
{
    proof {
        reveal_strlit("0");
        reveal_strlit("1");
        reveal_strlit("2");
        reveal_strlit("3");
        reveal_strlit("4");
        reveal_strlit("5");
        reveal_strlit("6");
        reveal_strlit("7");
        reveal_strlit("8");
        reveal_strlit("9");
    }
    if d == 0 {
        "0"
    } else if d == 1 {
        "1"
    } else if d == 2 {
        "2"
    } else if d == 3 {
        "3"
    } else if d == 4 {
        "4"
    } else if d == 5 {
        "5"
    } else if d == 6 {
        "6"
    } else if d == 7 {
        "7"
    } else if d == 8 {
        "8"
    } else {
        "9"
    }
}

/// The decimal spelling of `n`.
pub fn dec_str(n: usize) -> (r: String)
    ensures
        r@ == spec_dec(n as nat),
    decreases n,
{
    if n < 10 {
        digit_str(n).to_owned()
    } else {
        let mut s = dec_str(n / 10);
        s.append(digit_str(n % 10));
        s
    }
}

/// The name of a required field.
pub open spec fn spec_field_name(f: ParamField) -> Seq<char> {
    match f {
        ParamField::Source => "source"@,
        ParamField::Destination => "destination"@,
        ParamField::Search => "search"@,
        ParamField::Replace => "replace"@,
    }
}

/// The field names joined with a comma and a space.
pub open spec fn spec_field_list(s: Seq<ParamField>) -> Seq<char>
    decreases s.len(),
{
    if s.len() == 0 {
        Seq::empty()
    } else if s.len() == 1 {
        spec_field_name(s[0])
    } else {
        spec_field_list(s.drop_last()) + ", "@ + spec_field_name(s.last())
    }
}

impl ParamField {
    /// The field's name.
    pub fn name(&self) -> (r: String)
        ensures
            r@ == spec_field_name(*self),
    {
        match self {
            ParamField::Source => "source".to_owned(),
            ParamField::Destination => "destination".to_owned(),
            ParamField::Search => "search".to_owned(),
            ParamField::Replace => "replace".to_owned(),
        }
    }
}

impl ValidationError {
    /// One message naming every missing required field.
    pub fn message(&self) -> (r: String)
        ensures
            r@ == "missing required field(s): "@ + spec_field_list(self.missing@),
    {
        let mut out: String = "missing required field(s): ".to_owned();
        let n = self.missing.len();
        let mut i: usize = 0;
        while i < n
            invariant
                0 <= i <= n,
                n == self.missing@.len(),
                out@ == "missing required field(s): "@ + spec_field_list(
                    self.missing@.take(i as int),
                ),
            decreases n - i,
        {
            if i > 0 {
                out.append(", ");
            }
            let name = self.missing[i].name();
            out.append(name.as_str());
            proof {
                assert(self.missing@.take(i as int + 1).drop_last() =~= self.missing@.take(
                    i as int,
                ));
                assert(self.missing@.take(i as int + 1).last() == self.missing@[i as int]);
                if i == 0 {
                    assert(spec_field_list(self.missing@.take(1)) == spec_field_name(
                        self.missing@[0],
                    ));
                }
            }
            i = i + 1;
        }
        proof {
            assert(self.missing@.take(n as int) =~= self.missing@);
        }
        out
    }
}

impl TemplateError {
    /// One message naming the failure.
    pub fn message(&self) -> (r: String)
        ensures
            match self {
                TemplateError::UndefinedVariable(k) => r@ == "undefined variable '"@ + k@ + "'"@,
                TemplateError::UnclosedPlaceholder => r@ == "unclosed placeholder"@,
            },
    {
        match self {
            TemplateError::UndefinedVariable(k) => {
                let mut out: String = "undefined variable '".to_owned();
                out.append(k.as_str());
                out.append("'");
                out
            },
            TemplateError::UnclosedPlaceholder => "unclosed placeholder".to_owned(),
        }
    }
}

impl CommandNotFoundError {
    /// One message naming the unknown kind, with the suggested correction
    /// when there is one.
    pub fn message(&self) -> (r: String)
        ensures
            match self.suggestion {
                Some(s) => r@ == "command '"@ + self.kind@ + "' not found... did you mean '"@ + s@
                    + "'?"@,
                None => r@ == "command '"@ + self.kind@ + "' not found"@,
            },
    {
        let mut out: String = "command '".to_owned();
        out.append(self.kind.as_str());
        match &self.suggestion {
            Some(s) => {
                out.append("' not found... did you mean '");
                out.append(s.as_str());
                out.append("'?");
            },
            None => {
                out.append("' not found");
            },
        }
        out
    }
}

/// The message each failure renders to.
pub open spec fn spec_brix_message(e: BrixError) -> Seq<char> {
    match e {
        BrixError::ConfigParse(s) => "could not parse config: "@ + s@,
        BrixError::CommandNotFound(nf) => (match nf.suggestion {
            Some(s) => "command '"@ + nf.kind@ + "' not found... did you mean '"@ + s@ + "'?"@,
            None => "command '"@ + nf.kind@ + "' not found"@,
        }),
        BrixError::Template(te) => (match te {
            TemplateError::UndefinedVariable(k) => "undefined variable '"@ + k@ + "'"@,
            TemplateError::UnclosedPlaceholder => "unclosed placeholder"@,
        }),
        BrixError::Validation(ve) => "missing required field(s): "@ + spec_field_list(ve.missing@),
        BrixError::Io(s) => s@,
    }
}

impl BrixError {
    /// One descriptive message for the failure.
    pub fn message(&self) -> (r: String)
        ensures
            r@ == spec_brix_message(*self),
    {
        match self {
            BrixError::ConfigParse(s) => {
                let mut out: String = "could not parse config: ".to_owned();
                out.append(s.as_str());
                out
            },
            BrixError::CommandNotFound(e) => e.message(),
            BrixError::Template(e) => e.message(),
            BrixError::Validation(e) => e.message(),
            BrixError::Io(s) => s.clone(),
        }
    }
}

/// A pipeline failure, tied to the command entry it arose on: its 1-based
/// position in the document and its kind as authored.
#[derive(Debug)]
pub struct EntryError {
    pub position: usize,
    pub kind: String,
    pub error: BrixError,
}

impl EntryError {
    /// One descriptive message naming the failing entry by position and
    /// kind, then the specific cause.
    pub fn message(&self) -> (r: String)
        ensures
            r@ == "command entry "@ + spec_dec(self.position as nat) + " ('"@ + self.kind@
                + "'): "@ + spec_brix_message(self.error),
    {
        let mut out: String = "command entry ".to_owned();
        let pos = dec_str(self.position);
        out.append(pos.as_str());
        out.append(" ('");
        out.append(self.kind.as_str());
        out.append("'): ");
        let cause = self.error.message();
        out.append(cause.as_str());
        out
    }
}

} // verus!
