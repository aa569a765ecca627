//! What holds of every derive, stated over the spec functions that the
//! contracts use.

use vstd::prelude::*;
use crate::config::{ConfigurationError, ConfigurationView};
use crate::definition::RawDefinitionView;
use crate::emit::{base_call_text, type_name_body_text};
use crate::inner::{derived, emitted, resolved, ConvertTypeView, GeneratedModuleView};

verus! {

/// With neither `from_into` nor `try_from_into`, a definition that is not a
/// tuple struct of one field has no strategy and nothing is emitted for it,
/// whether `transparent` is written out or not.
pub proof fn lemma_transparent_needs_a_single_field(
    input: RawDefinitionView,
    configuration: ConfigurationView,
)
    requires
        configuration.from_into is None,
        configuration.try_from_into is None,
        input.shape.single_field() is None,
    ensures
        resolved(configuration, input) == Err::<ConvertTypeView, ConfigurationError>(
            ConfigurationError::NotSingleField,
        ),
        derived(input, configuration, true) == Err::<GeneratedModuleView, ConfigurationError>(
            ConfigurationError::NotSingleField,
        ),
        derived(input, configuration, false) is Err,
{
}

/// With two or more of `from_into`, `try_from_into` and `transparent` set
/// there is no strategy and nothing is emitted, whatever the definition.
pub proof fn lemma_strategies_exclude_each_other(
    input: RawDefinitionView,
    configuration: ConfigurationView,
    names_parse: bool,
)
    requires
        configuration.strategies_set() >= 2,
    ensures
        resolved(configuration, input) == Err::<ConvertTypeView, ConfigurationError>(
            ConfigurationError::Conflict,
        ),
        derived(input, configuration, names_parse) == Err::<
            GeneratedModuleView,
            ConfigurationError,
        >(ConfigurationError::Conflict),
{
}

/// A strategy is chosen exactly where the options do not contradict each
/// other and either name a base type or stand on a tuple struct of one
/// field; the strategy is then the one that the options ask for.
pub proof fn lemma_resolution_is_decided(input: RawDefinitionView, configuration: ConfigurationView)
    ensures
        resolved(configuration, input) is Ok <==> configuration.exclusive() && (
        configuration.from_into is Some || configuration.try_from_into is Some
            || input.shape.single_field() is Some),
        resolved(configuration, input) matches Ok(convert_type) ==> {
            &&& convert_type is FromInto <==> configuration.from_into is Some
            &&& convert_type is TryFromInto <==> configuration.try_from_into is Some
            &&& convert_type is Transparent ==> input.shape.single_field() == Some(
                convert_type.ident(),
            )
        },
{
}

/// The construction from an integer key is emitted for a primary key and
/// for nothing else.
pub proof fn lemma_key_impl_only_for_primary_key(
    input: RawDefinitionView,
    convert_type: ConvertTypeView,
    primary_key: bool,
    use_own_type_name: bool,
)
    ensures
        emitted(input, convert_type, primary_key, use_own_type_name).try_from_u64 is Some
            <==> primary_key,
{
}

/// Unless the wrapper's own name is asked for, the emitted `type_name` is a
/// call of the base type's, under every strategy.
pub proof fn lemma_type_name_delegates(name: Seq<char>, convert_type: ConvertTypeView)
    ensures
        type_name_body_text(name, convert_type, false) == base_call_text(
            convert_type.ident(),
            "ValueType"@,
            "type_name()"@,
        ),
{
}

/// Where the wrapper's own name is asked for, the emitted `type_name` spells
/// the declared name and nothing else: neither the strategy nor the generic
/// parameters have a part in it.
pub proof fn lemma_own_type_name_is_the_declared_name(
    name: Seq<char>,
    convert_type: ConvertTypeView,
    other: ConvertTypeView,
)
    ensures
        type_name_body_text(name, convert_type, true) == "stringify!("@ + name + ").to_owned()"@,
        type_name_body_text(name, convert_type, true) == type_name_body_text(name, other, true),
{
}

/// A derive whose options name a base type comes out as the token parser
/// judges the name, and in no third way; one whose options name none does
/// not depend on the parser.
pub proof fn lemma_derive_depends_on_the_names_alone(
    input: RawDefinitionView,
    configuration: ConfigurationView,
)
    ensures
        derived(input, configuration, false) is Err,
        configuration.exclusive() ==> derived(input, configuration, false) == Err::<
            GeneratedModuleView,
            ConfigurationError,
        >(ConfigurationError::InvalidTypeName),
        derived(input, configuration, true) is Ok <==> resolved(configuration, input) is Ok,
{
}

} // verus!
