use sea_orm_newtype_derive::emit::{
    from_newtype_for_value, nullable_for_newtype, try_from_u64_for_newtype,
    try_getable_for_newtype, value_type_for_newtype,
};
use sea_orm_newtype_derive::{ConvertType, Generics};

fn plain() -> Generics {
    Generics {
        impl_generics: String::new(),
        ty_generics: String::new(),
        where_clause: String::new(),
    }
}

fn marker() -> Generics {
    Generics {
        impl_generics: "<T: Clone>".to_string(),
        ty_generics: "<T>".to_string(),
        where_clause: "where T: Send".to_string(),
    }
}

fn same_items(emitted: &str, expected: &str) {
    let emitted: syn::File = syn::parse_str(emitted).expect("the emitted text is no Rust source");
    let expected: syn::File = syn::parse_str(expected).expect("the expected text is no Rust source");
    assert_eq!(emitted, expected);
}

#[test]
fn nullable_exact_text() {
    let text = nullable_for_newtype("Integer", &ConvertType::Transparent("i32".to_string()), &plain());
    assert_eq!(
        text,
        "impl  ::sea_orm_newtype::Nullable for Integer   { fn null() -> ::sea_orm_newtype::Value { <i32 as ::sea_orm_newtype::Nullable>::null() } }"
    );
}

#[test]
fn from_value_exact_text() {
    let text = from_newtype_for_value("Id", &ConvertType::FromInto("Uuid".to_string()), &marker());
    assert_eq!(
        text,
        "impl <T: Clone> From<Id <T> > for ::sea_orm_newtype::Value where T: Send { fn from(value: Id <T>) -> Self { Into::<Uuid>::into(value).into() } }"
    );
}

#[test]
fn try_from_u64_exact_text() {
    let text = try_from_u64_for_newtype("Id", &ConvertType::FromInto("Uuid".to_string()), &plain());
    assert_eq!(
        text,
        "impl  ::sea_orm_newtype::TryFromU64 for Id   { fn try_from_u64(n: u64) -> Result<Self, ::sea_orm_newtype::sea_orm::DbErr> { Ok(Into::<Self>::into(<Uuid as ::sea_orm_newtype::TryFromU64>::try_from_u64(n)?)) } }"
    );
}

#[test]
fn from_value_goes_out_through_the_base() {
    for convert_type in [
        ConvertType::FromInto("Uuid".to_string()),
        ConvertType::TryFromInto("Uuid".to_string()),
    ] {
        same_items(
            &from_newtype_for_value("Id", &convert_type, &plain()),
            "impl From<Id> for ::sea_orm_newtype::Value {
                fn from(value: Id) -> Self {
                    Into::<Uuid>::into(value).into()
                }
            }",
        );
    }
}

#[test]
fn from_value_of_transparent_reads_the_field() {
    same_items(
        &from_newtype_for_value("Integer", &ConvertType::Transparent("i32".to_string()), &plain()),
        "impl From<Integer> for ::sea_orm_newtype::Value {
            fn from(value: Integer) -> Self {
                value.0.into()
            }
        }",
    );
}

#[test]
fn try_getable_direct() {
    same_items(
        &try_getable_for_newtype("Id", &ConvertType::FromInto("Uuid".to_string()), &plain()),
        "impl ::sea_orm_newtype::TryGetable for Id {
            fn try_get_by<I: ::sea_orm_newtype::sea_orm::ColIdx>(
                res: &::sea_orm_newtype::sea_orm::QueryResult,
                index: I,
            ) -> Result<Self, ::sea_orm_newtype::sea_orm::TryGetError> {
                Ok(Into::<Self>::into(res.try_get_by::<Uuid, I>(index)?))
            }
        }",
    );
}

#[test]
fn try_getable_fallible_asserts_and_renders_the_error() {
    let text = try_getable_for_newtype(
        "EmailAddress",
        &ConvertType::TryFromInto("String".to_string()),
        &plain(),
    );
    same_items(
        &text,
        "#[allow(non_camel_case_types)]
        struct __AssertionEmailAddressTryFrom
        where
            <EmailAddress as TryFrom<String>>::Error: ::std::error::Error;

        impl ::sea_orm_newtype::TryGetable for EmailAddress {
            fn try_get_by<I: ::sea_orm_newtype::sea_orm::ColIdx>(
                res: &::sea_orm_newtype::sea_orm::QueryResult,
                index: I,
            ) -> Result<Self, ::sea_orm_newtype::sea_orm::TryGetError> {
                Ok(
                    TryInto::<Self>::try_into(res.try_get_by::<String, I>(index)?)
                        .map_err(|e| ::sea_orm_newtype::sea_orm::DbErr::Custom(e.to_string()))?,
                )
            }
        }",
    );
}

#[test]
fn try_getable_transparent_wraps() {
    same_items(
        &try_getable_for_newtype("Integer", &ConvertType::Transparent("i32".to_string()), &plain()),
        "impl ::sea_orm_newtype::TryGetable for Integer {
            fn try_get_by<I: ::sea_orm_newtype::sea_orm::ColIdx>(
                res: &::sea_orm_newtype::sea_orm::QueryResult,
                index: I,
            ) -> Result<Self, ::sea_orm_newtype::sea_orm::TryGetError> {
                Ok(Integer(res.try_get_by::<i32, I>(index)?))
            }
        }",
    );
}

#[test]
fn only_the_fallible_strategy_asserts_the_error_bound() {
    let direct = try_getable_for_newtype("Id", &ConvertType::FromInto("Uuid".to_string()), &plain());
    let transparent =
        try_getable_for_newtype("Id", &ConvertType::Transparent("Uuid".to_string()), &plain());
    let fallible =
        try_getable_for_newtype("Id", &ConvertType::TryFromInto("Uuid".to_string()), &plain());
    assert!(!direct.contains("__Assertion"));
    assert!(!transparent.contains("__Assertion"));
    assert!(fallible.starts_with("#[allow(non_camel_case_types)] struct __AssertionIdTryFrom where"));
    assert_eq!(syn::parse_str::<syn::File>(&direct).unwrap().items.len(), 1);
    assert_eq!(syn::parse_str::<syn::File>(&transparent).unwrap().items.len(), 1);
    assert_eq!(syn::parse_str::<syn::File>(&fallible).unwrap().items.len(), 2);
}

#[test]
fn value_type_direct() {
    same_items(
        &value_type_for_newtype("Id", &ConvertType::FromInto("Uuid".to_string()), &plain(), false),
        "impl ::sea_orm_newtype::ValueType for Id {
            fn try_from(
                v: ::sea_orm_newtype::Value,
            ) -> Result<Self, ::sea_orm_newtype::sea_query::ValueTypeErr> {
                Ok(Into::<Self>::into(<Uuid as ::sea_orm_newtype::ValueType>::try_from(v)?))
            }
            fn type_name() -> String {
                <Uuid as ::sea_orm_newtype::ValueType>::type_name()
            }
            fn array_type() -> ::sea_orm_newtype::sea_query::ArrayType {
                <Uuid as ::sea_orm_newtype::ValueType>::array_type()
            }
            fn column_type() -> ::sea_orm_newtype::sea_query::ColumnType {
                <Uuid as ::sea_orm_newtype::ValueType>::column_type()
            }
        }",
    );
}

#[test]
fn value_type_fallible_collapses_the_error() {
    same_items(
        &value_type_for_newtype(
            "EmailAddress",
            &ConvertType::TryFromInto("String".to_string()),
            &plain(),
            false,
        ),
        "impl ::sea_orm_newtype::ValueType for EmailAddress {
            fn try_from(
                v: ::sea_orm_newtype::Value,
            ) -> Result<Self, ::sea_orm_newtype::sea_query::ValueTypeErr> {
                TryInto::<Self>::try_into(<String as ::sea_orm_newtype::ValueType>::try_from(v)?)
                    .map_err(|_| ::sea_orm_newtype::sea_query::ValueTypeErr)
            }
            fn type_name() -> String {
                <String as ::sea_orm_newtype::ValueType>::type_name()
            }
            fn array_type() -> ::sea_orm_newtype::sea_query::ArrayType {
                <String as ::sea_orm_newtype::ValueType>::array_type()
            }
            fn column_type() -> ::sea_orm_newtype::sea_query::ColumnType {
                <String as ::sea_orm_newtype::ValueType>::column_type()
            }
        }",
    );
}

#[test]
fn value_type_transparent_with_own_name() {
    same_items(
        &value_type_for_newtype("Integer", &ConvertType::Transparent("i32".to_string()), &plain(), true),
        "impl ::sea_orm_newtype::ValueType for Integer {
            fn try_from(
                v: ::sea_orm_newtype::Value,
            ) -> Result<Self, ::sea_orm_newtype::sea_query::ValueTypeErr> {
                Ok(Integer(<i32 as ::sea_orm_newtype::ValueType>::try_from(v)?))
            }
            fn type_name() -> String {
                stringify!(Integer).to_owned()
            }
            fn array_type() -> ::sea_orm_newtype::sea_query::ArrayType {
                <i32 as ::sea_orm_newtype::ValueType>::array_type()
            }
            fn column_type() -> ::sea_orm_newtype::sea_query::ColumnType {
                <i32 as ::sea_orm_newtype::ValueType>::column_type()
            }
        }",
    );
}

#[test]
fn own_type_name_is_the_declared_name_without_generics() {
    let text =
        value_type_for_newtype("Id", &ConvertType::FromInto("Uuid".to_string()), &marker(), true);
    assert!(text.contains("fn type_name() -> String { stringify!(Id).to_owned() }"));
    let plain_text =
        value_type_for_newtype("Id", &ConvertType::FromInto("Uuid".to_string()), &plain(), true);
    assert!(plain_text.contains("fn type_name() -> String { stringify!(Id).to_owned() }"));
    same_items(
        &text,
        "impl<T: Clone> ::sea_orm_newtype::ValueType for Id<T> where T: Send {
            fn try_from(
                v: ::sea_orm_newtype::Value,
            ) -> Result<Self, ::sea_orm_newtype::sea_query::ValueTypeErr> {
                Ok(Into::<Self>::into(<Uuid as ::sea_orm_newtype::ValueType>::try_from(v)?))
            }
            fn type_name() -> String {
                stringify!(Id).to_owned()
            }
            fn array_type() -> ::sea_orm_newtype::sea_query::ArrayType {
                <Uuid as ::sea_orm_newtype::ValueType>::array_type()
            }
            fn column_type() -> ::sea_orm_newtype::sea_query::ColumnType {
                <Uuid as ::sea_orm_newtype::ValueType>::column_type()
            }
        }",
    );
}

#[test]
fn type_name_is_the_base_types_unless_asked() {
    for convert_type in [
        ConvertType::FromInto("Base".to_string()),
        ConvertType::TryFromInto("Base".to_string()),
        ConvertType::Transparent("Base".to_string()),
    ] {
        let delegated = value_type_for_newtype("Wrapper", &convert_type, &plain(), false);
        assert!(delegated.contains(
            "fn type_name() -> String { <Base as ::sea_orm_newtype::ValueType>::type_name() }"
        ));
        assert!(!delegated.contains("stringify!"));
        let own = value_type_for_newtype("Wrapper", &convert_type, &plain(), true);
        assert!(own.contains("fn type_name() -> String { stringify!(Wrapper).to_owned() }"));
        assert!(!own.contains("as ::sea_orm_newtype::ValueType>::type_name()"));
    }
}

#[test]
fn descriptors_are_the_base_types_under_every_strategy() {
    for convert_type in [
        ConvertType::FromInto("Base".to_string()),
        ConvertType::TryFromInto("Base".to_string()),
        ConvertType::Transparent("Base".to_string()),
    ] {
        for use_type_name in [false, true] {
            let text = value_type_for_newtype("Wrapper", &convert_type, &plain(), use_type_name);
            assert!(text.contains("{ <Base as ::sea_orm_newtype::ValueType>::array_type() }"));
            assert!(text.contains("{ <Base as ::sea_orm_newtype::ValueType>::column_type() }"));
        }
        same_items(
            &nullable_for_newtype("Wrapper", &convert_type, &plain()),
            "impl ::sea_orm_newtype::Nullable for Wrapper {
                fn null() -> ::sea_orm_newtype::Value {
                    <Base as ::sea_orm_newtype::Nullable>::null()
                }
            }",
        );
    }
}

#[test]
fn key_construction_never_uses_the_fallible_conversion() {
    for convert_type in [
        ConvertType::FromInto("Base".to_string()),
        ConvertType::TryFromInto("Base".to_string()),
    ] {
        same_items(
            &try_from_u64_for_newtype("Wrapper", &convert_type, &plain()),
            "impl ::sea_orm_newtype::TryFromU64 for Wrapper {
                fn try_from_u64(n: u64) -> Result<Self, ::sea_orm_newtype::sea_orm::DbErr> {
                    Ok(Into::<Self>::into(<Base as ::sea_orm_newtype::TryFromU64>::try_from_u64(n)?))
                }
            }",
        );
    }
    same_items(
        &try_from_u64_for_newtype("Wrapper", &ConvertType::Transparent("Base".to_string()), &plain()),
        "impl ::sea_orm_newtype::TryFromU64 for Wrapper {
            fn try_from_u64(n: u64) -> Result<Self, ::sea_orm_newtype::sea_orm::DbErr> {
                Ok(Wrapper(<Base as ::sea_orm_newtype::TryFromU64>::try_from_u64(n)?))
            }
        }",
    );
}

#[test]
fn generics_stand_in_every_impl() {
    let convert_type = ConvertType::FromInto("Uuid".to_string());
    same_items(
        &from_newtype_for_value("Id", &convert_type, &marker()),
        "impl<T: Clone> From<Id<T>> for ::sea_orm_newtype::Value where T: Send {
            fn from(value: Id<T>) -> Self {
                Into::<Uuid>::into(value).into()
            }
        }",
    );
    for text in [
        try_getable_for_newtype("Id", &convert_type, &marker()),
        value_type_for_newtype("Id", &convert_type, &marker(), false),
        nullable_for_newtype("Id", &convert_type, &marker()),
        try_from_u64_for_newtype("Id", &convert_type, &marker()),
    ] {
        let item: syn::ItemImpl = syn::parse_str(&text).expect("the emitted text is no impl");
        let params: syn::Generics = syn::parse_str("<T: Clone>").unwrap();
        let clause: syn::WhereClause = syn::parse_str("where T: Send").unwrap();
        let self_ty: syn::Type = syn::parse_str("Id<T>").unwrap();
        assert_eq!(item.generics.params, params.params);
        assert_eq!(item.generics.where_clause, Some(clause));
        assert_eq!(*item.self_ty, self_ty);
    }
}
