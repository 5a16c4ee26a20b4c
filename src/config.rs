//! The options written on the enum: `#[configure(inherent, inline, from, try_into)]`.
use vstd::prelude::*;
use crate::diagnostic::{Diagnostic, DiagnosticKind, DiagnosticV, diag};
use crate::normalize::text_is;
use crate::syntax::{ArgToken, Attr};

verus! {

/// Which code is generated; every option is off unless named.
#[derive(Clone, Copy, PartialEq, Eq, Structural, Debug)]
pub struct Config {
    /// Inherent methods on the enum rather than an impl of the trait.
    pub inherent: bool,
    /// Conversions from each payload into the enum.
    pub from: bool,
    /// Fallible conversions from the enum into each payload.
    pub try_into: bool,
    /// `#[inline]` on every dispatcher.
    pub inline: bool,
}

pub open spec fn no_options() -> Config {
    Config { inherent: false, from: false, try_into: false, inline: false }
}

impl Config {
    pub fn new() -> (r: Config)
        ensures
            r == no_options(),
    {
        Config { inherent: false, from: false, try_into: false, inline: false }
    }
}

/// `c` with the option `name` switched on, or `None` for a name that is no option.
pub open spec fn with_option(c: Config, name: Seq<char>) -> Option<Config> {
    if name == "inherent"@ {
        Some(Config { inherent: true, ..c })
    } else if name == "from"@ {
        Some(Config { from: true, ..c })
    } else if name == "try_into"@ {
        Some(Config { try_into: true, ..c })
    } else if name == "inline"@ {
        Some(Config { inline: true, ..c })
    } else {
        None
    }
}

/// The options named in `tokens` from position `i` on, added to `c`: a list of
/// identifiers, each followed by an optional comma.
pub open spec fn options_from(tokens: Seq<ArgToken>, i: int, c: Config) -> Result<Config, DiagnosticV>
    decreases tokens.len() - i,
{
    if i < 0 || i >= tokens.len() {
        Ok(c)
    } else {
        match tokens[i] {
            ArgToken::Ident { name, span } => match with_option(c, name@) {
                Some(next) => if i + 1 < tokens.len() && tokens[i + 1] is Comma {
                    options_from(tokens, i + 2, next)
                } else {
                    options_from(tokens, i + 1, next)
                },
                None => Err(diag(DiagnosticKind::UnknownOption, span)),
            },
            ArgToken::Comma { span } => Err(diag(DiagnosticKind::ExpectedIdentifier, span)),
            ArgToken::Other { span } => Err(diag(DiagnosticKind::ExpectedIdentifier, span)),
        }
    }
}

fn set_option(c: Config, name: &String) -> (r: Option<Config>)
    ensures
        r == with_option(c, name@),
{
    if text_is(name, "inherent") {
        Some(Config { inherent: true, ..c })
    } else if text_is(name, "from") {
        Some(Config { from: true, ..c })
    } else if text_is(name, "try_into") {
        Some(Config { try_into: true, ..c })
    } else if text_is(name, "inline") {
        Some(Config { inline: true, ..c })
    } else {
        None
    }
}

/// Reads the option list between the attribute's parentheses.
pub fn parse_config(tokens: &Vec<ArgToken>) -> (r: Result<Config, Diagnostic>)
    ensures
        match r {
            Ok(c) => options_from(tokens@, 0, no_options()) == Ok::<Config, DiagnosticV>(c),
            Err(d) => options_from(tokens@, 0, no_options()) == Err::<Config, DiagnosticV>(d@),
        },
{
    let mut c = Config::new();
    let mut i: usize = 0;
    while i < tokens.len()
        invariant
            i <= tokens.len(),
            options_from(tokens@, 0, no_options()) == options_from(tokens@, i as int, c),
        decreases tokens.len() - i,
    {
        match &tokens[i] {
            ArgToken::Ident { name, span } => match set_option(c, name) {
                Some(next) => {
                    c = next;
                    if i + 1 < tokens.len() && matches!(tokens[i + 1], ArgToken::Comma { .. }) {
                        i += 2;
                    } else {
                        i += 1;
                    }
                },
                None => {
                    return Err(Diagnostic::new(DiagnosticKind::UnknownOption, *span));
                },
            },
            ArgToken::Comma { span } => {
                return Err(Diagnostic::new(DiagnosticKind::ExpectedIdentifier, *span));
            },
            ArgToken::Other { span } => {
                return Err(Diagnostic::new(DiagnosticKind::ExpectedIdentifier, *span));
            },
        }
    }
    Ok(c)
}

/// The options of a `configure` attribute, which must hold a parenthesized list.
pub open spec fn attr_options(a: Attr) -> Result<Config, DiagnosticV> {
    match a.args {
        Some(tokens) => options_from(tokens@, 0, no_options()),
        None => Err(diag(DiagnosticKind::NotAttributeList, a.span)),
    }
}

pub fn config_of(attr: &Attr) -> (r: Result<Config, Diagnostic>)
    ensures
        match r {
            Ok(c) => attr_options(*attr) == Ok::<Config, DiagnosticV>(c),
            Err(d) => attr_options(*attr) == Err::<Config, DiagnosticV>(d@),
        },
{
    match &attr.args {
        Some(tokens) => parse_config(tokens),
        None => Err(Diagnostic::new(DiagnosticKind::NotAttributeList, attr.span)),
    }
}

} // verus!
