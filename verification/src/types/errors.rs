//! Errors of item conversion, and the kinds of server-side failure that a
//! task can end with.
use vstd::prelude::*;

use crate::text::{str_eq, IntErrorKind};

verus! {

/// Why an attribute map is not a valid item.
#[derive(Debug, PartialEq)]
pub enum ItemError {
    /// The map is not shaped as an item; the text says how.
    FormatError(String),
    /// A number attribute does not hold a `u32` in decimal.
    NumParseError(IntErrorKind),
    /// A time attribute is not RFC 3339 text; the text is the parser's message.
    DataParseError(String),
}

/// The content of an [`ItemError`].
pub enum ItemErrorView {
    FormatError(Seq<char>),
    NumParseError(IntErrorKind),
    DataParseError(Seq<char>),
}

impl View for ItemError {
    type V = ItemErrorView;

    open spec fn view(&self) -> ItemErrorView {
        match self {
            ItemError::FormatError(s) => ItemErrorView::FormatError(s@),
            ItemError::NumParseError(k) => ItemErrorView::NumParseError(*k),
            ItemError::DataParseError(s) => ItemErrorView::DataParseError(s@),
        }
    }
}

/// The message for a missing attribute.
pub open spec fn absent_attribute_message(name: Seq<char>) -> Seq<char> {
    "No "@ + name + " attribute in item"@
}

/// The message for an attribute of the wrong kind.
pub open spec fn invalid_attribute_type_message(name: Seq<char>, t: Seq<char>) -> Seq<char> {
    name + " attribute value isn't a "@ + t
}

/// How the standard library words a failed number parse.
pub open spec fn int_error_message(k: IntErrorKind) -> Seq<char> {
    match k {
        IntErrorKind::Empty => "cannot parse integer from empty string"@,
        IntErrorKind::InvalidDigit => "invalid digit found in string"@,
        IntErrorKind::PosOverflow => "number too large to fit in target type"@,
    }
}

/// How an item error reads: a format error after `Invalid Item format: `,
/// the others as their cause words them.
pub open spec fn item_error_text(e: ItemErrorView) -> Seq<char> {
    match e {
        ItemErrorView::FormatError(s) => "Invalid Item format: "@ + s,
        ItemErrorView::NumParseError(k) => int_error_message(k),
        ItemErrorView::DataParseError(s) => s,
    }
}

impl ItemError {
    /// How this error reads.
    pub fn to_display_string(&self) -> (r: String)
        ensures
            r@ == item_error_text(self@),
    {
        match self {
            ItemError::FormatError(s) => {
                let mut r = String::from_str("Invalid Item format: ");
                r.append(s.as_str());
                r
            },
            ItemError::NumParseError(k) => match k {
                IntErrorKind::Empty => String::from_str("cannot parse integer from empty string"),
                IntErrorKind::InvalidDigit => String::from_str("invalid digit found in string"),
                IntErrorKind::PosOverflow => String::from_str("number too large to fit in target type"),
            },
            ItemError::DataParseError(s) => String::from_str(s.as_str()),
        }
    }

    /// The error for an attribute that the item lacks.
    pub fn absent_attribute_error(attribute_name: &str) -> (r: ItemError)
        ensures
            r@ == ItemErrorView::FormatError(absent_attribute_message(attribute_name@)),
    {
        let mut s = String::from_str("No ");
        s.append(attribute_name);
        s.append(" attribute in item");
        ItemError::FormatError(s)
    }

    /// The error for an attribute that holds a value of another kind than `t`.
    pub fn invalid_attribute_type(attribute_name: &str, t: &str) -> (r: ItemError)
        ensures
            r@ == ItemErrorView::FormatError(invalid_attribute_type_message(attribute_name@, t@)),
    {
        let mut s = String::from_str(attribute_name);
        s.append(" attribute value isn't a ");
        s.append(t);
        ItemError::FormatError(s)
    }
}

/// The kind of failure a task ended with.
#[derive(Debug, Clone, Copy, PartialEq, Eq, Structural)]
pub enum ServerError {
    UnsupportedCompilerVersion,
    CompilationError,
    InternalError,
    NothingToCompile,
    VerificationError,
}

/// The name under which a failure kind is stored.
pub open spec fn server_error_name(e: ServerError) -> Seq<char> {
    match e {
        ServerError::UnsupportedCompilerVersion => "UnsupportedCompilerVersion"@,
        ServerError::CompilationError => "CompilationError"@,
        ServerError::InternalError => "InternalError"@,
        ServerError::NothingToCompile => "NothingToCompile"@,
        ServerError::VerificationError => "VerificationError"@,
    }
}

/// The failure kind stored under a name, if the name is one.
pub open spec fn server_error_from_name(s: Seq<char>) -> Option<ServerError> {
    if s == "UnsupportedCompilerVersion"@ {
        Some(ServerError::UnsupportedCompilerVersion)
    } else if s == "CompilationError"@ {
        Some(ServerError::CompilationError)
    } else if s == "InternalError"@ {
        Some(ServerError::InternalError)
    } else if s == "NothingToCompile"@ {
        Some(ServerError::NothingToCompile)
    } else if s == "VerificationError"@ {
        Some(ServerError::VerificationError)
    } else {
        None
    }
}

/// Reading back the name of a failure kind gives the kind.
pub proof fn lemma_server_error_name_roundtrip(e: ServerError)
    ensures
        server_error_from_name(server_error_name(e)) == Some(e),
{
    reveal_strlit("UnsupportedCompilerVersion");
    reveal_strlit("CompilationError");
    reveal_strlit("InternalError");
    reveal_strlit("NothingToCompile");
    reveal_strlit("VerificationError");
    let a = "UnsupportedCompilerVersion"@;
    let b = "CompilationError"@;
    let c = "InternalError"@;
    let d = "NothingToCompile"@;
    let f = "VerificationError"@;
    assert(a.len() != b.len() && a.len() != c.len() && a.len() != d.len() && a.len() != f.len());
    assert(b.len() != c.len() && b.len() != f.len() && c.len() != d.len() && c.len() != f.len());
    assert(d.len() != f.len());
    assert(b[0] != d[0]);
}

impl ServerError {
    /// The name under which this failure kind is stored.
    pub fn as_str(self) -> (r: &'static str)
        ensures
            r@ == server_error_name(self),
    {
        match self {
            ServerError::UnsupportedCompilerVersion => "UnsupportedCompilerVersion",
            ServerError::CompilationError => "CompilationError",
            ServerError::InternalError => "InternalError",
            ServerError::NothingToCompile => "NothingToCompile",
            ServerError::VerificationError => "VerificationError",
        }
    }

    /// The failure kind named `value`; the name itself as the error when it
    /// names none.
    pub fn try_from_str(value: &str) -> (r: Result<ServerError, String>)
        ensures
            match server_error_from_name(value@) {
                Some(e) => r == Ok::<ServerError, String>(e),
                None => r matches Err(s) && s@ == value@,
            },
    {
        if str_eq(value, "UnsupportedCompilerVersion") {
            Ok(ServerError::UnsupportedCompilerVersion)
        } else if str_eq(value, "CompilationError") {
            Ok(ServerError::CompilationError)
        } else if str_eq(value, "InternalError") {
            Ok(ServerError::InternalError)
        } else if str_eq(value, "NothingToCompile") {
            Ok(ServerError::NothingToCompile)
        } else if str_eq(value, "VerificationError") {
            Ok(ServerError::VerificationError)
        } else {
            Err(String::from_str(value))
        }
    }
}

} // verus!
