//! The options of a derive and the errors they can lead to.

use vstd::prelude::*;
use crate::ident::{answer_view, free_of_groups, is_free_of_groups, is_spelled_as, parsed_identifier};

verus! {

/// Why no code is emitted for a definition.
#[derive(Clone, Copy, Debug, PartialEq, Eq, Structural)]
pub enum ConfigurationError {
    /// Two or more of `from_into`, `try_from_into` and `transparent` are set.
    Conflict,
    /// `from_into` or `try_from_into` names something that is not an identifier.
    InvalidTypeName,
    /// The transparent strategy met a type that is not a tuple struct of one field.
    NotSingleField,
}

impl ConfigurationError {
    /// The text of the diagnostic.
    pub open spec fn message_text(self) -> Seq<char> {
        match self {
            ConfigurationError::Conflict =>
                "must be set from_into or try_from_into or transparent at most one"@,
            ConfigurationError::InvalidTypeName =>
                "`from_into` and `try_from_into` must name the base type by one identifier"@,
            ConfigurationError::NotSingleField =>
                "`transparent` can only be used for tuple struct that have only one field"@,
        }
    }

    /// The diagnostic that is reported at the place of the derive.
    pub fn message(&self) -> (text: String)
        ensures
            text@ == self.message_text(),
    {
        match self {
            ConfigurationError::Conflict =>
                "must be set from_into or try_from_into or transparent at most one".to_owned(),
            ConfigurationError::InvalidTypeName =>
                "`from_into` and `try_from_into` must name the base type by one identifier".to_owned(),
            ConfigurationError::NotSingleField =>
                "`transparent` can only be used for tuple struct that have only one field".to_owned(),
        }
    }
}

/// The options that stand on a declaration.
#[derive(Clone, Debug, PartialEq, Eq)]
pub struct Configuration {
    /// `from_into = "Base"`: convert through `Base` in both directions, without failure.
    pub from_into: Option<String>,
    /// `try_from_into = "Base"`: convert to `Base` without failure, from `Base` with.
    pub try_from_into: Option<String>,
    /// `transparent`, written out: convert through the type of the only field.
    pub transparent: bool,
    /// `primary_key`: also emit the construction from an integer key.
    pub primary_key: bool,
    /// `type_name`: report the wrapper's own name as the name of its type.
    pub use_own_type_name: bool,
}

/// The mathematical value of a [`Configuration`].
pub struct ConfigurationView {
    pub from_into: Option<Seq<char>>,
    pub try_from_into: Option<Seq<char>>,
    pub transparent: bool,
    pub primary_key: bool,
    pub use_own_type_name: bool,
}

impl View for Configuration {
    type V = ConfigurationView;

    open spec fn view(&self) -> ConfigurationView {
        ConfigurationView {
            from_into: match self.from_into {
                Some(base) => Some(base@),
                None => None,
            },
            try_from_into: match self.try_from_into {
                Some(base) => Some(base@),
                None => None,
            },
            transparent: self.transparent,
            primary_key: self.primary_key,
            use_own_type_name: self.use_own_type_name,
        }
    }
}

impl ConfigurationView {
    /// How many of the three options that choose a strategy are set.
    pub open spec fn strategies_set(self) -> nat {
        let a: nat = if self.from_into is Some { 1 } else { 0 };
        let b: nat = if self.try_from_into is Some { 1 } else { 0 };
        let c: nat = if self.transparent { 1 } else { 0 };
        a + b + c
    }

    /// At most one of `from_into`, `try_from_into` and `transparent` is set.
    pub open spec fn exclusive(self) -> bool {
        self.strategies_set() <= 1
    }

    /// Neither `from_into` nor `try_from_into` is set.
    pub open spec fn names_nothing(self) -> bool {
        self.from_into is None && self.try_from_into is None
    }

    /// No base type that an option names holds a character that opens a
    /// group of tokens. An identifier holds none.
    pub open spec fn names_free_of_groups(self) -> bool {
        &&& self.from_into matches Some(base) ==> free_of_groups(base)
        &&& self.try_from_into matches Some(base) ==> free_of_groups(base)
    }

    /// Every base type that an option names is accepted, given what the
    /// parser answered for each: the name opens no group of tokens, and the
    /// parser found an identifier that is spelled exactly as the name.
    pub open spec fn names_accepted(
        self,
        from_into_parsed: Option<Seq<char>>,
        try_from_into_parsed: Option<Seq<char>>,
    ) -> bool {
        &&& self.from_into matches Some(base) ==> free_of_groups(base) && from_into_parsed
            == Some(base)
        &&& self.try_from_into matches Some(base) ==> free_of_groups(base)
            && try_from_into_parsed == Some(base)
    }

    /// The verdict on the options, given whether the names they hold are
    /// identifiers: a contradiction is reported before a name.
    pub open spec fn interpreted(self, names_parse: bool) -> Result<(), ConfigurationError> {
        if !self.exclusive() {
            Err(ConfigurationError::Conflict)
        } else if !names_parse {
            Err(ConfigurationError::InvalidTypeName)
        } else {
            Ok(())
        }
    }
}

impl Configuration {
    /// Accepts or refuses the base types that the options name, given what
    /// the parser answered for each.
    pub fn names_accepted(
        &self,
        from_into_parsed: &Option<String>,
        try_from_into_parsed: &Option<String>,
    ) -> (ok: bool)
        ensures
            ok == self@.names_accepted(
                answer_view(*from_into_parsed),
                answer_view(*try_from_into_parsed),
            ),
    {
        let from_ok = match &self.from_into {
            Some(base) => is_free_of_groups(base.as_str()) && is_spelled_as(
                base.as_str(),
                from_into_parsed,
            ),
            None => true,
        };
        let try_from_ok = match &self.try_from_into {
            Some(base) => is_free_of_groups(base.as_str()) && is_spelled_as(
                base.as_str(),
                try_from_into_parsed,
            ),
            None => true,
        };
        from_ok && try_from_ok
    }

    /// Asks the token parser for the identifier in each base type that is
    /// named: first for `from_into`, then for `try_from_into`. An option
    /// that is not set, or whose name opens a group of tokens, has none.
    pub fn parsed_names(&self) -> (parsed: (Option<String>, Option<String>))
        ensures
            self@.from_into is None ==> parsed.0 is None,
            self@.try_from_into is None ==> parsed.1 is None,
            self@.from_into matches Some(base) && !free_of_groups(base) ==> parsed.0 is None,
            self@.try_from_into matches Some(base) && !free_of_groups(base) ==> parsed.1 is None,
    {
        let from_into_parsed = match &self.from_into {
            Some(base) => parsed_identifier(base.as_str()),
            None => None,
        };
        let try_from_into_parsed = match &self.try_from_into {
            Some(base) => parsed_identifier(base.as_str()),
            None => None,
        };
        (from_into_parsed, try_from_into_parsed)
    }

    /// Asks the token parser and accepts or refuses the names by
    /// [`Configuration::names_accepted`]. Where nothing is named there is
    /// nothing to refuse; whatever the parser says, a name that opens a
    /// group of tokens is refused.
    pub fn names_parse(&self) -> (ok: bool)
        ensures
            self@.names_nothing() ==> ok,
            ok ==> self@.names_free_of_groups(),
    {
        let (from_into_parsed, try_from_into_parsed) = self.parsed_names();
        self.names_accepted(&from_into_parsed, &try_from_into_parsed)
    }

    /// Accepts or refuses the options, given whether the names they hold
    /// are identifiers.
    pub fn interpret(&self, names_parse: bool) -> (verdict: Result<(), ConfigurationError>)
        ensures
            verdict == self@.interpreted(names_parse),
            verdict is Ok <==> self@.exclusive() && names_parse,
    {
        let mut set: u8 = 0;
        if self.from_into.is_some() {
            set = set + 1;
        }
        if self.try_from_into.is_some() {
            set = set + 1;
        }
        if self.transparent {
            set = set + 1;
        }
        if set > 1 {
            Err(ConfigurationError::Conflict)
        } else if !names_parse {
            Err(ConfigurationError::InvalidTypeName)
        } else {
            Ok(())
        }
    }

    /// Accepts or refuses the options, with the token parser's verdict on
    /// the names: the outcome is that of [`Configuration::interpret`] for
    /// one of the two verdicts, and for the accepting one where nothing is
    /// named.
    pub fn validate(&self) -> (verdict: Result<(), ConfigurationError>)
        ensures
            verdict == self@.interpreted(true) || verdict == self@.interpreted(false),
            self@.names_nothing() ==> verdict == self@.interpreted(true),
            !self@.exclusive() ==> verdict == Err::<(), ConfigurationError>(
                ConfigurationError::Conflict,
            ),
            self@.exclusive() && !self@.names_free_of_groups() ==> verdict == Err::<
                (),
                ConfigurationError,
            >(ConfigurationError::InvalidTypeName),
    {
        let names_parse = self.names_parse();
        self.interpret(names_parse)
    }
}

} // verus!
