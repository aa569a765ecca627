//! The conversion strategy and the module that is emitted for it.

use vstd::prelude::*;
use crate::config::{Configuration, ConfigurationError, ConfigurationView};
use crate::definition::{RawDefinition, RawDefinitionView, Shape};
use crate::ident::{answer_view, unraw, unraw_text};
use crate::emit::{
    from_newtype_for_value, from_newtype_for_value_text, nullable_for_newtype,
    nullable_for_newtype_text, try_from_u64_for_newtype, try_from_u64_for_newtype_text,
    try_getable_for_newtype, try_getable_for_newtype_text, value_type_for_newtype,
    value_type_for_newtype_text,
};

verus! {

/// How a wrapper is converted to and from the base type it is stored as.
/// Each variant carries the base type.
#[derive(Clone, Debug, PartialEq, Eq)]
pub enum ConvertType {
    /// `From<Base> for Wrapper` and `From<Wrapper> for Base`.
    FromInto(String),
    /// `TryFrom<Base> for Wrapper` and `From<Wrapper> for Base`.
    TryFromInto(String),
    /// The base is the wrapper's only field.
    Transparent(String),
}

/// The mathematical value of a [`ConvertType`].
pub enum ConvertTypeView {
    FromInto(Seq<char>),
    TryFromInto(Seq<char>),
    Transparent(Seq<char>),
}

impl View for ConvertType {
    type V = ConvertTypeView;

    open spec fn view(&self) -> ConvertTypeView {
        match self {
            ConvertType::FromInto(base) => ConvertTypeView::FromInto(base@),
            ConvertType::TryFromInto(base) => ConvertTypeView::TryFromInto(base@),
            ConvertType::Transparent(base) => ConvertTypeView::Transparent(base@),
        }
    }
}

/// How an emitted body turns a wrapper into its base value.
#[derive(Clone, Copy, Debug, PartialEq, Eq, Structural)]
pub enum Outbound {
    /// Through `From<Wrapper> for Base`.
    Into,
    /// By reading the wrapper's only field.
    Field,
}

/// How an emitted body turns a base value into the wrapper.
#[derive(Clone, Copy, Debug, PartialEq, Eq, Structural)]
pub enum Inbound {
    /// Through `From<Base> for Wrapper`, which cannot fail.
    Into,
    /// Through `TryFrom<Base> for Wrapper`, which can fail.
    TryInto,
    /// By the wrapper's tuple constructor.
    Wrap,
}

impl ConvertTypeView {
    /// The base type.
    pub open spec fn ident(self) -> Seq<char> {
        match self {
            ConvertTypeView::FromInto(base) => base,
            ConvertTypeView::TryFromInto(base) => base,
            ConvertTypeView::Transparent(base) => base,
        }
    }

    /// The way from the wrapper to the base. It never fails, whatever the
    /// strategy.
    pub open spec fn outbound(self) -> Outbound {
        match self {
            ConvertTypeView::FromInto(_) => Outbound::Into,
            ConvertTypeView::TryFromInto(_) => Outbound::Into,
            ConvertTypeView::Transparent(_) => Outbound::Field,
        }
    }

    /// The way from a base value that was read or validated to the wrapper.
    pub open spec fn inbound(self) -> Inbound {
        match self {
            ConvertTypeView::FromInto(_) => Inbound::Into,
            ConvertTypeView::TryFromInto(_) => Inbound::TryInto,
            ConvertTypeView::Transparent(_) => Inbound::Wrap,
        }
    }

    /// The way from a base value that was made from an integer key to the
    /// wrapper. The fallible conversion is not applied on this way: its base
    /// value goes through the unconditional conversion, as for `FromInto`.
    pub open spec fn key_inbound(self) -> Inbound {
        match self {
            ConvertTypeView::FromInto(_) => Inbound::Into,
            ConvertTypeView::TryFromInto(_) => Inbound::Into,
            ConvertTypeView::Transparent(_) => Inbound::Wrap,
        }
    }
}

impl ConvertType {
    /// The base type.
    pub fn ident(&self) -> (base: &String)
        ensures
            base@ == self@.ident(),
    {
        match self {
            ConvertType::FromInto(ident) => ident,
            ConvertType::TryFromInto(ident) => ident,
            ConvertType::Transparent(ident) => ident,
        }
    }

    /// The way from the wrapper to the base.
    pub fn outbound(&self) -> (way: Outbound)
        ensures
            way == self@.outbound(),
    {
        match self {
            ConvertType::FromInto(_) => Outbound::Into,
            ConvertType::TryFromInto(_) => Outbound::Into,
            ConvertType::Transparent(_) => Outbound::Field,
        }
    }

    /// The way from a base value that was read or validated to the wrapper.
    pub fn inbound(&self) -> (way: Inbound)
        ensures
            way == self@.inbound(),
    {
        match self {
            ConvertType::FromInto(_) => Inbound::Into,
            ConvertType::TryFromInto(_) => Inbound::TryInto,
            ConvertType::Transparent(_) => Inbound::Wrap,
        }
    }

    /// The way from a base value that was made from an integer key to the
    /// wrapper.
    pub fn key_inbound(&self) -> (way: Inbound)
        ensures
            way == self@.key_inbound(),
    {
        match self {
            ConvertType::FromInto(_) => Inbound::Into,
            ConvertType::TryFromInto(_) => Inbound::Into,
            ConvertType::Transparent(_) => Inbound::Wrap,
        }
    }
}

/// The base type of the transparent strategy: the declared type of the only
/// field of a tuple struct. Any other shape is refused.
pub fn get_and_check_transparent_type(input: &RawDefinition) -> (base: Result<
    String,
    ConfigurationError,
>)
    ensures
        match input@.shape.single_field() {
            Some(ty) => base matches Ok(b) && b@ == ty,
            None => base == Err::<String, ConfigurationError>(ConfigurationError::NotSingleField),
        },
{
    if let Shape::Tuple(types) = &input.shape {
        if types.len() == 1 {
            return Ok(types[0].clone());
        }
    }
    Err(ConfigurationError::NotSingleField)
}

/// The strategy that the options choose for a definition.
///
/// One of `from_into` and `try_from_into`, without `transparent`, chooses
/// itself, with the type it names as the base. With neither, the strategy
/// is the transparent one, whether `transparent` is written out or not, and
/// the definition must be a tuple struct of one field. Every other
/// combination is a contradiction.
pub open spec fn resolved(configuration: ConfigurationView, input: RawDefinitionView) -> Result<
    ConvertTypeView,
    ConfigurationError,
> {
    match (configuration.from_into, configuration.try_from_into) {
        (Some(base), None) => if configuration.transparent {
            Err(ConfigurationError::Conflict)
        } else {
            Ok(ConvertTypeView::FromInto(base))
        },
        (None, Some(base)) => if configuration.transparent {
            Err(ConfigurationError::Conflict)
        } else {
            Ok(ConvertTypeView::TryFromInto(base))
        },
        (None, None) => match input.shape.single_field() {
            Some(ty) => Ok(ConvertTypeView::Transparent(ty)),
            None => Err(ConfigurationError::NotSingleField),
        },
        (Some(_), Some(_)) => Err(ConfigurationError::Conflict),
    }
}

/// Chooses the strategy for a definition, or says why there is none.
pub fn resolve(configuration: &Configuration, input: &RawDefinition) -> (strategy: Result<
    ConvertType,
    ConfigurationError,
>)
    ensures
        match resolved(configuration@, input@) {
            Ok(chosen) => strategy matches Ok(convert_type) && convert_type@ == chosen,
            Err(why) => strategy == Err::<ConvertType, ConfigurationError>(why),
        },
        !configuration@.exclusive() ==> strategy == Err::<ConvertType, ConfigurationError>(
            ConfigurationError::Conflict,
        ),
        configuration@.strategies_set() == 0 || (configuration@.strategies_set() == 1
            && configuration@.transparent) ==> (strategy is Ok <==> input@.shape.single_field()
            is Some),
        strategy matches Ok(ConvertType::Transparent(base)) ==> input@.shape.single_field()
            == Some(base@),
{
    match (&configuration.from_into, &configuration.try_from_into, configuration.transparent) {
        (Some(from_into), None, false) => Ok(ConvertType::FromInto(from_into.clone())),
        (None, Some(try_from_into), false) => Ok(ConvertType::TryFromInto(try_from_into.clone())),
        (None, None, _) => match get_and_check_transparent_type(input) {
            Ok(base) => Ok(ConvertType::Transparent(base)),
            Err(why) => Err(why),
        },
        _ => Err(ConfigurationError::Conflict),
    }
}

/// What is emitted for one wrapper: a module and the impls in it, each as
/// source text.
#[derive(Clone, Debug, PartialEq, Eq)]
pub struct GeneratedModule {
    /// The module's name, made from the wrapper's.
    pub name: String,
    /// `impl From<Wrapper> for Value`.
    pub from_value: String,
    /// `impl TryGetable for Wrapper`.
    pub try_getable: String,
    /// `impl ValueType for Wrapper`.
    pub value_type: String,
    /// `impl Nullable for Wrapper`.
    pub nullable: String,
    /// `impl TryFromU64 for Wrapper`, for a primary key alone.
    pub try_from_u64: Option<String>,
}

/// The mathematical value of a [`GeneratedModule`].
pub struct GeneratedModuleView {
    pub name: Seq<char>,
    pub from_value: Seq<char>,
    pub try_getable: Seq<char>,
    pub value_type: Seq<char>,
    pub nullable: Seq<char>,
    pub try_from_u64: Option<Seq<char>>,
}

impl View for GeneratedModule {
    type V = GeneratedModuleView;

    open spec fn view(&self) -> GeneratedModuleView {
        GeneratedModuleView {
            name: self.name@,
            from_value: self.from_value@,
            try_getable: self.try_getable@,
            value_type: self.value_type@,
            nullable: self.nullable@,
            try_from_u64: match self.try_from_u64 {
                Some(text) => Some(text@),
                None => None,
            },
        }
    }
}

impl GeneratedModuleView {
    /// The module as one piece of source text: the impls in their order,
    /// with the enclosing scope in reach.
    pub open spec fn rendered(self) -> Seq<char> {
        "#[allow(non_snake_case)] mod "@ + self.name + " { use super::*; "@ + self.from_value
            + " "@ + self.try_getable + " "@ + self.value_type + " "@ + self.nullable + " "@
            + (match self.try_from_u64 {
            Some(text) => text,
            None => Seq::<char>::empty(),
        }) + " }"@
    }
}

impl GeneratedModule {
    /// The module as one piece of source text.
    pub fn render(&self) -> (text: String)
        ensures
            text@ == self@.rendered(),
    {
        let mut text = "#[allow(non_snake_case)] mod ".to_owned();
        text.append(self.name.as_str());
        text.append(" { use super::*; ");
        text.append(self.from_value.as_str());
        text.append(" ");
        text.append(self.try_getable.as_str());
        text.append(" ");
        text.append(self.value_type.as_str());
        text.append(" ");
        text.append(self.nullable.as_str());
        text.append(" ");
        if let Some(impl_text) = &self.try_from_u64 {
            text.append(impl_text.as_str());
        }
        text.append(" }");
        text
    }
}

/// The name of the module that holds a wrapper's impls: one identifier,
/// so a raw wrapper name stands in it without its mark.
pub open spec fn module_name_text(name: Seq<char>) -> Seq<char> {
    "__sea_orm_newtype_"@ + unraw_text(name)
}

/// The module that is emitted for a definition under a strategy. The
/// construction from an integer key is in it for a primary key, and for
/// nothing else.
pub open spec fn emitted(
    input: RawDefinitionView,
    convert_type: ConvertTypeView,
    primary_key: bool,
    use_own_type_name: bool,
) -> GeneratedModuleView {
    GeneratedModuleView {
        name: module_name_text(input.name),
        from_value: from_newtype_for_value_text(input.name, convert_type, input.generics),
        try_getable: try_getable_for_newtype_text(input.name, convert_type, input.generics),
        value_type: value_type_for_newtype_text(
            input.name,
            convert_type,
            input.generics,
            use_own_type_name,
        ),
        nullable: nullable_for_newtype_text(input.name, convert_type, input.generics),
        try_from_u64: if primary_key {
            Some(try_from_u64_for_newtype_text(input.name, convert_type, input.generics))
        } else {
            None
        },
    }
}

/// Emits the module for a definition under a strategy.
pub fn emit(
    input: &RawDefinition,
    convert_type: &ConvertType,
    primary_key: bool,
    use_own_type_name: bool,
) -> (module: GeneratedModule)
    ensures
        module@ == emitted(input@, convert_type@, primary_key, use_own_type_name),
        module.try_from_u64 is Some <==> primary_key,
{
    let new_type_name = input.name.as_str();
    let generics = &input.generics;

    let mut mod_name = "__sea_orm_newtype_".to_owned();
    mod_name.append(unraw(new_type_name));

    let impl_from_newtype_for_value = from_newtype_for_value(new_type_name, convert_type, generics);
    let impl_try_getable_for_newtype = try_getable_for_newtype(
        new_type_name,
        convert_type,
        generics,
    );
    let impl_value_type_for_newtype = value_type_for_newtype(
        new_type_name,
        convert_type,
        generics,
        use_own_type_name,
    );
    let impl_nullable_for_newtype = nullable_for_newtype(new_type_name, convert_type, generics);
    let impl_try_from_u64_for_newtype = if primary_key {
        Some(try_from_u64_for_newtype(new_type_name, convert_type, generics))
    } else {
        None
    };

    GeneratedModule {
        name: mod_name,
        from_value: impl_from_newtype_for_value,
        try_getable: impl_try_getable_for_newtype,
        value_type: impl_value_type_for_newtype,
        nullable: impl_nullable_for_newtype,
        try_from_u64: impl_try_from_u64_for_newtype,
    }
}

/// What a derive comes to, given whether the base types that the options
/// name are identifiers: the options are judged first, then the strategy
/// is chosen, and only then is anything emitted.
pub open spec fn derived(
    input: RawDefinitionView,
    configuration: ConfigurationView,
    names_parse: bool,
) -> Result<GeneratedModuleView, ConfigurationError> {
    match configuration.interpreted(names_parse) {
        Err(why) => Err(why),
        Ok(()) => match resolved(configuration, input) {
            Err(why) => Err(why),
            Ok(convert_type) => Ok(
                emitted(
                    input,
                    convert_type,
                    configuration.primary_key,
                    configuration.use_own_type_name,
                ),
            ),
        },
    }
}

/// A derive's outcome by its mathematical value.
pub open spec fn output_view(output: Result<GeneratedModule, ConfigurationError>) -> Result<
    GeneratedModuleView,
    ConfigurationError,
> {
    match output {
        Ok(module) => Ok(module@),
        Err(why) => Err(why),
    }
}

/// The derive on plain values, given what the token parser answered for
/// the base type of `from_into` and for that of `try_from_into`: the names
/// are accepted or refused by [`Configuration::names_accepted`], and the
/// outcome is [`derived`] for that verdict.
pub fn derive_newtype_with(
    input: &RawDefinition,
    configuration: &Configuration,
    from_into_parsed: &Option<String>,
    try_from_into_parsed: &Option<String>,
) -> (output: Result<GeneratedModule, ConfigurationError>)
    ensures
        output_view(output) == derived(
            input@,
            configuration@,
            configuration@.names_accepted(
                answer_view(*from_into_parsed),
                answer_view(*try_from_into_parsed),
            ),
        ),
{
    let names_parse = configuration.names_accepted(from_into_parsed, try_from_into_parsed);
    match configuration.interpret(names_parse) {
        Err(why) => Err(why),
        Ok(()) => match resolve(configuration, input) {
            Err(why) => Err(why),
            Ok(convert_type) => Ok(
                emit(
                    input,
                    &convert_type,
                    configuration.primary_key,
                    configuration.use_own_type_name,
                ),
            ),
        },
    }
}

/// Emits the impls for a definition, or says why none is emitted.
///
/// The token parser is asked whether the base types that the options name
/// are identifiers, and the outcome is that of [`derive_newtype_with`] for
/// its answer. Whatever it answers, contradicting options, a transparent
/// strategy on another shape and a name that opens a group of tokens are
/// refused, and nothing is emitted beside an error.
pub fn derive_newtype_inner(input: &RawDefinition, configuration: &Configuration) -> (output: Result<
    GeneratedModule,
    ConfigurationError,
>)
    ensures
        output_view(output) == derived(input@, configuration@, true) || output_view(output)
            == derived(input@, configuration@, false),
        configuration@.names_nothing() ==> output_view(output) == derived(
            input@,
            configuration@,
            true,
        ),
        !configuration@.exclusive() ==> output == Err::<GeneratedModule, ConfigurationError>(
            ConfigurationError::Conflict,
        ),
        configuration@.exclusive() && !configuration@.names_free_of_groups() ==> output == Err::<
            GeneratedModule,
            ConfigurationError,
        >(ConfigurationError::InvalidTypeName),
        configuration@.names_nothing() && input@.shape.single_field() is None ==> output == Err::<
            GeneratedModule,
            ConfigurationError,
        >(ConfigurationError::NotSingleField),
        output is Ok ==> configuration@.exclusive() && resolved(configuration@, input@) is Ok,
        output matches Ok(generated) ==> (generated.try_from_u64 is Some
            <==> configuration.primary_key),
{
    let (from_into_parsed, try_from_into_parsed) = configuration.parsed_names();
    derive_newtype_with(input, configuration, &from_into_parsed, &try_from_into_parsed)
}

} // verus!
