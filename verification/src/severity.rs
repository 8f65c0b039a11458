//! The closed classification of how serious an error is.

use vstd::prelude::*;

verus! {

/// How serious an error is. The intended order is
/// `Critical > Error > Warning > Info`; only equality is offered.
#[derive(Debug, Clone, Copy, PartialEq, Eq, Structural)]
pub enum Severity {
    Critical,
    Error,
    Warning,
    Info,
}

impl Severity {
    /// The fixed short tag under which a severity appears in rendered text.
    pub open spec fn tag(self) -> Seq<char> {
        match self {
            Severity::Critical => "CRIT"@,
            Severity::Error => "ERR"@,
            Severity::Warning => "WARN"@,
            Severity::Info => "INFO"@,
        }
    }

    /// The variant's name, the token under which a severity appears in
    /// structured output.
    pub open spec fn name(self) -> Seq<char> {
        match self {
            Severity::Critical => "Critical"@,
            Severity::Error => "Error"@,
            Severity::Warning => "Warning"@,
            Severity::Info => "Info"@,
        }
    }

    /// The severity that a structured token names, if it names one.
    pub open spec fn parse(token: Seq<char>) -> Option<Severity> {
        if token == Severity::Critical.name() {
            Some(Severity::Critical)
        } else if token == Severity::Error.name() {
            Some(Severity::Error)
        } else if token == Severity::Warning.name() {
            Some(Severity::Warning)
        } else if token == Severity::Info.name() {
            Some(Severity::Info)
        } else {
            None
        }
    }

    /// The short tag as a string slice.
    pub fn as_str(&self) -> (tag: &'static str)
        ensures
            tag@ == self.tag(),
    {
        match self {
            Severity::Critical => "CRIT",
            Severity::Error => "ERR",
            Severity::Warning => "WARN",
            Severity::Info => "INFO",
        }
    }

    /// The short tag as an owned string: the severity's rendering.
    pub fn to_string(&self) -> (tag: String)
        ensures
            tag@ == self.tag(),
    {
        self.as_str().to_owned()
    }

    /// The variant's name as a string slice.
    pub fn name_str(&self) -> (name: &'static str)
        ensures
            name@ == self.name(),
    {
        match self {
            Severity::Critical => "Critical",
            Severity::Error => "Error",
            Severity::Warning => "Warning",
            Severity::Info => "Info",
        }
    }

    /// Reads a severity back from its structured token. Any other text names
    /// no severity.
    pub fn from_name(token: &str) -> (severity: Option<Severity>)
        ensures
            severity == Severity::parse(token@),
    {
        let token = token.to_owned();
        if token == Severity::Critical.name_str().to_owned() {
            Some(Severity::Critical)
        } else if token == Severity::Error.name_str().to_owned() {
            Some(Severity::Error)
        } else if token == Severity::Warning.name_str().to_owned() {
            Some(Severity::Warning)
        } else if token == Severity::Info.name_str().to_owned() {
            Some(Severity::Info)
        } else {
            None
        }
    }
}

/// Every severity renders to one of the four tags.
pub proof fn lemma_tag_is_one_of_four(s: Severity)
    ensures
        s.tag() == "CRIT"@ || s.tag() == "ERR"@ || s.tag() == "WARN"@ || s.tag() == "INFO"@,
{
}

/// No two severities share a tag.
pub proof fn lemma_tag_injective(a: Severity, b: Severity)
    requires
        a.tag() == b.tag(),
    ensures
        a == b,
{
    reveal_strlit("CRIT");
    reveal_strlit("ERR");
    reveal_strlit("WARN");
    reveal_strlit("INFO");
    assert("CRIT"@[0] == 'C' && "ERR"@[0] == 'E' && "WARN"@[0] == 'W' && "INFO"@[0] == 'I');
    assert(a.tag()[0] == b.tag()[0]);
}

/// No two severities share a name.
pub proof fn lemma_name_injective(a: Severity, b: Severity)
    requires
        a.name() == b.name(),
    ensures
        a == b,
{
    reveal_strlit("Critical");
    reveal_strlit("Error");
    reveal_strlit("Warning");
    reveal_strlit("Info");
    assert("Critical"@[0] == 'C' && "Error"@[0] == 'E' && "Warning"@[0] == 'W' && "Info"@[0] == 'I');
    assert(a.name()[0] == b.name()[0]);
}

/// A severity is read back from its own name.
pub proof fn lemma_parse_name(s: Severity)
    ensures
        Severity::parse(s.name()) == Some(s),
{
    if Severity::parse(s.name()) != Some(s) {
        match Severity::parse(s.name()) {
            Some(t) => {
                lemma_name_injective(s, t);
            },
            None => {},
        }
    }
}

} // verus!
