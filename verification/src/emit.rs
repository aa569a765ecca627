//! The trait impls of a wrapper, as Rust source text.
//!
//! Every function here has a spec function of the same shape that says what
//! text is emitted; the parts that depend on the strategy are chosen by
//! [`Inbound`] and [`Outbound`] alone.

use vstd::prelude::*;
use crate::definition::{Generics, GenericsView};
use crate::ident::{unraw, unraw_text};
use crate::inner::{ConvertType, ConvertTypeView, Inbound, Outbound};

verus! {

/// The head of an impl of `trait_path` for the wrapper, with the wrapper's
/// generic parameters in all three places.
pub open spec fn impl_header_text(
    trait_path: Seq<char>,
    name: Seq<char>,
    generics: GenericsView,
) -> Seq<char> {
    "impl "@ + generics.impl_generics + " "@ + trait_path + " for "@ + name + " "@
        + generics.ty_generics + " "@ + generics.where_clause
}

/// A call of an associated function of `trait_name`, as the base type
/// implements it.
pub open spec fn base_call_text(
    base: Seq<char>,
    trait_name: Seq<char>,
    call: Seq<char>,
) -> Seq<char> {
    "<"@ + base + " as ::sea_orm_newtype::"@ + trait_name + ">::"@ + call
}

/// The expression that turns the base value `operand` into the wrapper.
pub open spec fn inbound_text(way: Inbound, name: Seq<char>, operand: Seq<char>) -> Seq<char> {
    match way {
        Inbound::Into => "Into::<Self>::into("@ + operand + ")"@,
        Inbound::TryInto => "TryInto::<Self>::try_into("@ + operand + ")"@,
        Inbound::Wrap => name + "("@ + operand + ")"@,
    }
}

/// The body of `From::from`: the wrapper `value` becomes a base value, and
/// that a dynamic value.
pub open spec fn from_body_text(convert_type: ConvertTypeView) -> Seq<char> {
    match convert_type.outbound() {
        Outbound::Into => "Into::<"@ + convert_type.ident() + ">::into(value).into()"@,
        Outbound::Field => "value.0.into()"@,
    }
}

/// The text of `impl From<Wrapper> for Value`.
pub open spec fn from_newtype_for_value_text(
    name: Seq<char>,
    convert_type: ConvertTypeView,
    generics: GenericsView,
) -> Seq<char> {
    "impl "@ + generics.impl_generics + " From<"@ + name + " "@ + generics.ty_generics
        + " > for ::sea_orm_newtype::Value "@ + generics.where_clause + " { fn from(value: "@ + name
        + " "@ + generics.ty_generics + ") -> Self { "@ + from_body_text(convert_type) + " } }"@
}

/// The declaration that makes a fallible conversion whose error cannot be
/// rendered fail to compile where it stands. It is emitted for the fallible
/// strategy alone, and holds no value. Its name is one identifier, so a raw
/// wrapper name stands in it without its mark.
pub open spec fn error_bound_assertion_text(
    name: Seq<char>,
    convert_type: ConvertTypeView,
) -> Seq<char> {
    match convert_type.inbound() {
        Inbound::TryInto => "#[allow(non_camel_case_types)] struct __Assertion"@ + unraw_text(name)
            + "TryFrom where <"@ + name + " as TryFrom<"@ + convert_type.ident()
            + ">>::Error: ::std::error::Error; "@,
        _ => Seq::<char>::empty(),
    }
}

/// The body of `TryGetable::try_get_by`: the base value is read from the
/// column, and a failure of the fallible conversion becomes a custom
/// database error that carries the rendering of the conversion's error.
pub open spec fn try_get_body_text(name: Seq<char>, convert_type: ConvertTypeView) -> Seq<char> {
    let fetched = "res.try_get_by::<"@ + convert_type.ident() + ", I>(index)?"@;
    let made = inbound_text(convert_type.inbound(), name, fetched);
    match convert_type.inbound() {
        Inbound::TryInto => "Ok("@ + made
            + ".map_err(|e| ::sea_orm_newtype::sea_orm::DbErr::Custom(e.to_string()))?,)"@,
        _ => "Ok("@ + made + ")"@,
    }
}

/// The text of `impl TryGetable for Wrapper`, after the assertion on the
/// error type where there is one.
pub open spec fn try_getable_for_newtype_text(
    name: Seq<char>,
    convert_type: ConvertTypeView,
    generics: GenericsView,
) -> Seq<char> {
    error_bound_assertion_text(name, convert_type) + impl_header_text(
        "::sea_orm_newtype::TryGetable"@,
        name,
        generics,
    )
        + " { fn try_get_by<I: ::sea_orm_newtype::sea_orm::ColIdx>(res: &::sea_orm_newtype::sea_orm::QueryResult, index: I,) -> Result<Self, ::sea_orm_newtype::sea_orm::TryGetError> { "@
        + try_get_body_text(name, convert_type) + " } }"@
}

/// The body of `ValueType::try_from`: the base type validates the dynamic
/// value, and a failure of the fallible conversion becomes the one
/// type-mismatch error, without the conversion's error.
pub open spec fn value_try_from_body_text(
    name: Seq<char>,
    convert_type: ConvertTypeView,
) -> Seq<char> {
    let validated = base_call_text(convert_type.ident(), "ValueType"@, "try_from(v)?"@);
    let made = inbound_text(convert_type.inbound(), name, validated);
    match convert_type.inbound() {
        Inbound::TryInto => made + ".map_err(|_| ::sea_orm_newtype::sea_query::ValueTypeErr)"@,
        _ => "Ok("@ + made + ")"@,
    }
}

/// The body of `ValueType::type_name`: the wrapper's own declared name, and
/// nothing of its generic parameters, where `use_type_name` is set, else
/// the name that the base type reports.
pub open spec fn type_name_body_text(
    name: Seq<char>,
    convert_type: ConvertTypeView,
    use_type_name: bool,
) -> Seq<char> {
    if use_type_name {
        "stringify!("@ + name + ").to_owned()"@
    } else {
        base_call_text(convert_type.ident(), "ValueType"@, "type_name()"@)
    }
}

/// The text of `impl ValueType for Wrapper`. The array type and the column
/// type are those of the base type, whatever the strategy.
pub open spec fn value_type_for_newtype_text(
    name: Seq<char>,
    convert_type: ConvertTypeView,
    generics: GenericsView,
    use_type_name: bool,
) -> Seq<char> {
    impl_header_text("::sea_orm_newtype::ValueType"@, name, generics)
        + " { fn try_from(v: ::sea_orm_newtype::Value,) -> Result<Self, ::sea_orm_newtype::sea_query::ValueTypeErr> { "@
        + value_try_from_body_text(name, convert_type) + " } fn type_name() -> String { "@
        + type_name_body_text(name, convert_type, use_type_name)
        + " } fn array_type() -> ::sea_orm_newtype::sea_query::ArrayType { "@ + base_call_text(
        convert_type.ident(),
        "ValueType"@,
        "array_type()"@,
    ) + " } fn column_type() -> ::sea_orm_newtype::sea_query::ColumnType { "@ + base_call_text(
        convert_type.ident(),
        "ValueType"@,
        "column_type()"@,
    ) + " } }"@
}

/// The text of `impl Nullable for Wrapper`: the null of the base type,
/// whatever the strategy.
pub open spec fn nullable_for_newtype_text(
    name: Seq<char>,
    convert_type: ConvertTypeView,
    generics: GenericsView,
) -> Seq<char> {
    impl_header_text("::sea_orm_newtype::Nullable"@, name, generics)
        + " { fn null() -> ::sea_orm_newtype::Value { "@ + base_call_text(
        convert_type.ident(),
        "Nullable"@,
        "null()"@,
    ) + " } }"@
}

/// The text of `impl TryFromU64 for Wrapper`: the base type is made from the
/// integer, on its own terms, and becomes the wrapper by
/// [`ConvertTypeView::key_inbound`].
pub open spec fn try_from_u64_for_newtype_text(
    name: Seq<char>,
    convert_type: ConvertTypeView,
    generics: GenericsView,
) -> Seq<char> {
    impl_header_text("::sea_orm_newtype::TryFromU64"@, name, generics)
        + " { fn try_from_u64(n: u64) -> Result<Self, ::sea_orm_newtype::sea_orm::DbErr> { Ok("@
        + inbound_text(
        convert_type.key_inbound(),
        name,
        base_call_text(convert_type.ident(), "TryFromU64"@, "try_from_u64(n)?"@),
    ) + ") } }"@
}

fn impl_header(trait_path: &str, name: &str, generics: &Generics) -> (text: String)
    ensures
        text@ == impl_header_text(trait_path@, name@, generics@),
{
    let mut text = "impl ".to_owned();
    text.append(generics.impl_generics.as_str());
    text.append(" ");
    text.append(trait_path);
    text.append(" for ");
    text.append(name);
    text.append(" ");
    text.append(generics.ty_generics.as_str());
    text.append(" ");
    text.append(generics.where_clause.as_str());
    text
}

fn base_call(base: &str, trait_name: &str, call: &str) -> (text: String)
    ensures
        text@ == base_call_text(base@, trait_name@, call@),
{
    let mut text = "<".to_owned();
    text.append(base);
    text.append(" as ::sea_orm_newtype::");
    text.append(trait_name);
    text.append(">::");
    text.append(call);
    text
}

fn inbound_expr(way: Inbound, name: &str, operand: &str) -> (text: String)
    ensures
        text@ == inbound_text(way, name@, operand@),
{
    let mut text = match way {
        Inbound::Into => "Into::<Self>::into(".to_owned(),
        Inbound::TryInto => "TryInto::<Self>::try_into(".to_owned(),
        Inbound::Wrap => {
            let mut call = name.to_owned();
            call.append("(");
            call
        },
    };
    text.append(operand);
    text.append(")");
    text
}

/// Emits `impl From<Wrapper> for Value`.
pub fn from_newtype_for_value(
    new_type_name: &str,
    convert_type: &ConvertType,
    generics: &Generics,
) -> (text: String)
    ensures
        text@ == from_newtype_for_value_text(new_type_name@, convert_type@, generics@),
{
    let mut text = "impl ".to_owned();
    text.append(generics.impl_generics.as_str());
    text.append(" From<");
    text.append(new_type_name);
    text.append(" ");
    text.append(generics.ty_generics.as_str());
    text.append(" > for ::sea_orm_newtype::Value ");
    text.append(generics.where_clause.as_str());
    text.append(" { fn from(value: ");
    text.append(new_type_name);
    text.append(" ");
    text.append(generics.ty_generics.as_str());
    text.append(") -> Self { ");
    match convert_type.outbound() {
        Outbound::Into => {
            let mut from_block = "Into::<".to_owned();
            from_block.append(convert_type.ident().as_str());
            from_block.append(">::into(value).into()");
            text.append(from_block.as_str());
        },
        Outbound::Field => {
            text.append("value.0.into()");
        },
    }
    text.append(" } }");
    text
}

/// Emits `impl TryGetable for Wrapper`, and before it, for the fallible
/// strategy, the assertion that the conversion's error can be rendered.
pub fn try_getable_for_newtype(
    new_type_name: &str,
    convert_type: &ConvertType,
    generics: &Generics,
) -> (text: String)
    ensures
        text@ == try_getable_for_newtype_text(new_type_name@, convert_type@, generics@),
{
    let base_type_name = convert_type.ident().as_str();
    let way = convert_type.inbound();

    let mut text = String::new();
    if let Inbound::TryInto = way {
        let mut assertion = "#[allow(non_camel_case_types)] struct __Assertion".to_owned();
        assertion.append(unraw(new_type_name));
        assertion.append("TryFrom where <");
        assertion.append(new_type_name);
        assertion.append(" as TryFrom<");
        assertion.append(base_type_name);
        assertion.append(">>::Error: ::std::error::Error; ");
        text.append(assertion.as_str());
    }

    let mut fetched = "res.try_get_by::<".to_owned();
    fetched.append(base_type_name);
    fetched.append(", I>(index)?");
    let made = inbound_expr(way, new_type_name, fetched.as_str());
    let mut try_get_block = "Ok(".to_owned();
    try_get_block.append(made.as_str());
    if let Inbound::TryInto = way {
        try_get_block.append(
            ".map_err(|e| ::sea_orm_newtype::sea_orm::DbErr::Custom(e.to_string()))?,)",
        );
    } else {
        try_get_block.append(")");
    }

    let header = impl_header("::sea_orm_newtype::TryGetable", new_type_name, generics);
    text.append(header.as_str());
    text.append(
        " { fn try_get_by<I: ::sea_orm_newtype::sea_orm::ColIdx>(res: &::sea_orm_newtype::sea_orm::QueryResult, index: I,) -> Result<Self, ::sea_orm_newtype::sea_orm::TryGetError> { ",
    );
    text.append(try_get_block.as_str());
    text.append(" } }");
    text
}

/// Emits `impl ValueType for Wrapper`.
pub fn value_type_for_newtype(
    new_type_name: &str,
    convert_type: &ConvertType,
    generics: &Generics,
    use_type_name: bool,
) -> (text: String)
    ensures
        text@ == value_type_for_newtype_text(
            new_type_name@,
            convert_type@,
            generics@,
            use_type_name,
        ),
{
    let base_type_name = convert_type.ident().as_str();
    let way = convert_type.inbound();

    let validated = base_call(base_type_name, "ValueType", "try_from(v)?");
    let made = inbound_expr(way, new_type_name, validated.as_str());
    let try_from_block = if let Inbound::TryInto = way {
        let mut block = made;
        block.append(".map_err(|_| ::sea_orm_newtype::sea_query::ValueTypeErr)");
        block
    } else {
        let mut block = "Ok(".to_owned();
        block.append(made.as_str());
        block.append(")");
        block
    };

    let type_name_block = if use_type_name {
        let mut block = "stringify!(".to_owned();
        block.append(new_type_name);
        block.append(").to_owned()");
        block
    } else {
        base_call(base_type_name, "ValueType", "type_name()")
    };

    let array_type_block = base_call(base_type_name, "ValueType", "array_type()");
    let column_type_block = base_call(base_type_name, "ValueType", "column_type()");

    let mut text = impl_header("::sea_orm_newtype::ValueType", new_type_name, generics);
    text.append(
        " { fn try_from(v: ::sea_orm_newtype::Value,) -> Result<Self, ::sea_orm_newtype::sea_query::ValueTypeErr> { ",
    );
    text.append(try_from_block.as_str());
    text.append(" } fn type_name() -> String { ");
    text.append(type_name_block.as_str());
    text.append(" } fn array_type() -> ::sea_orm_newtype::sea_query::ArrayType { ");
    text.append(array_type_block.as_str());
    text.append(" } fn column_type() -> ::sea_orm_newtype::sea_query::ColumnType { ");
    text.append(column_type_block.as_str());
    text.append(" } }");
    text
}

/// Emits `impl Nullable for Wrapper`.
pub fn nullable_for_newtype(
    new_type_name: &str,
    convert_type: &ConvertType,
    generics: &Generics,
) -> (text: String)
    ensures
        text@ == nullable_for_newtype_text(new_type_name@, convert_type@, generics@),
{
    let null_block = base_call(convert_type.ident().as_str(), "Nullable", "null()");
    let mut text = impl_header("::sea_orm_newtype::Nullable", new_type_name, generics);
    text.append(" { fn null() -> ::sea_orm_newtype::Value { ");
    text.append(null_block.as_str());
    text.append(" } }");
    text
}

/// Emits `impl TryFromU64 for Wrapper`.
pub fn try_from_u64_for_newtype(
    new_type_name: &str,
    convert_type: &ConvertType,
    generics: &Generics,
) -> (text: String)
    ensures
        text@ == try_from_u64_for_newtype_text(new_type_name@, convert_type@, generics@),
{
    let from_key = base_call(convert_type.ident().as_str(), "TryFromU64", "try_from_u64(n)?");
    let made = inbound_expr(convert_type.key_inbound(), new_type_name, from_key.as_str());
    let mut text = impl_header("::sea_orm_newtype::TryFromU64", new_type_name, generics);
    text.append(
        " { fn try_from_u64(n: u64) -> Result<Self, ::sea_orm_newtype::sea_orm::DbErr> { Ok(",
    );
    text.append(made.as_str());
    text.append(") } }");
    text
}

} // verus!
