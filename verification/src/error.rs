//! The errors that the library's operations end in.

use vstd::prelude::*;

verus! {

/// Why an operation could not be carried out.
#[derive(Debug, Clone)]
pub enum MemSparkError {
    Io(String),
    TomlDe(String),
    TomlSer(String),
    Json(String),
    WinApi(String),
    Config(String),
    Unsupported(String),
}

impl MemSparkError {
    /// What the kind of error is called, and the message it carries.
    pub open spec fn parts(self) -> (Seq<char>, Seq<char>) {
        match self {
            MemSparkError::Io(m) => ("I/O error: "@, m@),
            MemSparkError::TomlDe(m) => ("TOML parse error: "@, m@),
            MemSparkError::TomlSer(m) => ("TOML serialize error: "@, m@),
            MemSparkError::Json(m) => ("JSON error: "@, m@),
            MemSparkError::WinApi(m) => ("Windows API error: "@, m@),
            MemSparkError::Config(m) => ("configuration error: "@, m@),
            MemSparkError::Unsupported(m) => ("unsupported on this platform: "@, m@),
        }
    }

    /// The text shown for the error.
    pub open spec fn described(self) -> Seq<char> {
        self.parts().0 + self.parts().1
    }

    /// Writes the text shown for the error.
    pub fn to_text(&self) -> (r: String)
        ensures
            r@ == self.described(),
    {
        let (kind, message): (&str, &String) = match self {
            MemSparkError::Io(m) => ("I/O error: ", m),
            MemSparkError::TomlDe(m) => ("TOML parse error: ", m),
            MemSparkError::TomlSer(m) => ("TOML serialize error: ", m),
            MemSparkError::Json(m) => ("JSON error: ", m),
            MemSparkError::WinApi(m) => ("Windows API error: ", m),
            MemSparkError::Config(m) => ("configuration error: ", m),
            MemSparkError::Unsupported(m) => ("unsupported on this platform: ", m),
        };
        let mut r: String = kind.to_owned();
        r.append(message.as_str());
        r
    }
}

/// An error is told by its kind and its message.
pub proof fn errors_are_told_by_kind(message: String)
    ensures
        MemSparkError::Io(message).described() == "I/O error: "@ + message@,
        MemSparkError::TomlDe(message).described() == "TOML parse error: "@ + message@,
        MemSparkError::TomlSer(message).described() == "TOML serialize error: "@ + message@,
        MemSparkError::Json(message).described() == "JSON error: "@ + message@,
        MemSparkError::WinApi(message).described() == "Windows API error: "@ + message@,
        MemSparkError::Config(message).described() == "configuration error: "@ + message@,
        MemSparkError::Unsupported(message).described() == "unsupported on this platform: "@
            + message@,
{
}

} // verus!
