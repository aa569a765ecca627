//! What the emitted methods compute.
//!
//! The emitted text calls conversions that the wrapper's author and the base
//! type supply. Here those conversions are functions on abstract values, and
//! each emitted method is the function that its body composes from them. The
//! body is chosen by the same [`Inbound`] and [`Outbound`] that choose its
//! text, so a law about these functions is a law about the strategy table.

use vstd::prelude::*;
use crate::definition::RawDefinitionView;
use crate::inner::{ConvertTypeView, Inbound, Outbound};

verus! {

/// The conversions that emitted code calls: `W` is the wrapper, `B` its base
/// type, `V` the dynamic value of a column.
#[verifier::reject_recursive_types(W)]
#[verifier::reject_recursive_types(B)]
#[verifier::reject_recursive_types(V)]
pub struct Conversions<W, B, V> {
    /// `From<W> for B`.
    pub into_base: spec_fn(W) -> B,
    /// `From<B> for W`.
    pub from_base: spec_fn(B) -> W,
    /// `TryFrom<B> for W`; a failure is given by the rendering of its error.
    pub try_from_base: spec_fn(B) -> Result<W, Seq<char>>,
    /// The wrapper's only field.
    pub field: spec_fn(W) -> B,
    /// The wrapper's tuple constructor.
    pub wrap: spec_fn(B) -> W,
    /// `From<B> for Value`.
    pub base_into_value: spec_fn(B) -> V,
    /// `<B as ValueType>::try_from`; `None` is the type-mismatch error.
    pub base_try_from_value: spec_fn(V) -> Option<B>,
    /// `<B as ValueType>::type_name`.
    pub base_type_name: Seq<char>,
    /// `<B as TryFromU64>::try_from_u64`; a failure is given by its error.
    pub base_try_from_u64: spec_fn(u64) -> Result<B, Seq<char>>,
}

/// Why an emitted `try_get_by` failed.
pub enum FetchError<G> {
    /// The base type could not be read from the column.
    Column(G),
    /// The base value was read and the fallible conversion refused it: the
    /// rendering of the conversion's error.
    Custom(Seq<char>),
}

impl<W, B, V> Conversions<W, B, V> {
    /// The base value of a wrapper.
    pub open spec fn outbound(self, way: Outbound, wrapper: W) -> B {
        match way {
            Outbound::Into => (self.into_base)(wrapper),
            Outbound::Field => (self.field)(wrapper),
        }
    }

    /// The wrapper of a base value, or the rendering of the error that
    /// refused it.
    pub open spec fn inbound(self, way: Inbound, base: B) -> Result<W, Seq<char>> {
        match way {
            Inbound::Into => Ok((self.from_base)(base)),
            Inbound::TryInto => (self.try_from_base)(base),
            Inbound::Wrap => Ok((self.wrap)(base)),
        }
    }

    /// What the emitted `From::from` returns for a wrapper.
    pub open spec fn into_value(self, convert_type: ConvertTypeView, wrapper: W) -> V {
        (self.base_into_value)(self.outbound(convert_type.outbound(), wrapper))
    }

    /// What the emitted `ValueType::try_from` returns for a dynamic value;
    /// `None` is the type-mismatch error, which is all that is left of a
    /// failed conversion.
    pub open spec fn value_try_from(self, convert_type: ConvertTypeView, value: V) -> Option<W> {
        match (self.base_try_from_value)(value) {
            None => None,
            Some(base) => match self.inbound(convert_type.inbound(), base) {
                Ok(wrapper) => Some(wrapper),
                Err(_) => None,
            },
        }
    }

    /// What the emitted `TryGetable::try_get_by` returns, given what reading
    /// the base type from the column gave.
    pub open spec fn try_get<G>(self, convert_type: ConvertTypeView, fetched: Result<B, G>) -> Result<
        W,
        FetchError<G>,
    > {
        match fetched {
            Err(why) => Err(FetchError::Column(why)),
            Ok(base) => match self.inbound(convert_type.inbound(), base) {
                Ok(wrapper) => Ok(wrapper),
                Err(rendering) => Err(FetchError::Custom(rendering)),
            },
        }
    }

    /// What the emitted `ValueType::type_name` returns for the wrapper that
    /// `input` declares: its declared name where that is asked for, else
    /// what the base type reports.
    pub open spec fn reported_type_name(
        self,
        use_own_type_name: bool,
        input: RawDefinitionView,
    ) -> Seq<char> {
        if use_own_type_name {
            input.name
        } else {
            self.base_type_name
        }
    }

    /// What the emitted `TryFromU64::try_from_u64` returns for a key.
    pub open spec fn try_from_u64(self, convert_type: ConvertTypeView, key: u64) -> Result<
        W,
        Seq<char>,
    > {
        match (self.base_try_from_u64)(key) {
            Err(why) => Err(why),
            Ok(base) => self.inbound(convert_type.key_inbound(), base),
        }
    }

    /// A wrapper is in the domain of a strategy where its base value
    /// survives the dynamic value, and the strategy's way back from that
    /// base value gives the wrapper again.
    pub open spec fn in_domain(self, convert_type: ConvertTypeView, wrapper: W) -> bool {
        let base = self.outbound(convert_type.outbound(), wrapper);
        &&& (self.base_try_from_value)((self.base_into_value)(base)) == Some(base)
        &&& self.inbound(convert_type.inbound(), base) == Ok::<W, Seq<char>>(wrapper)
    }
}

/// A wrapper that is turned into a dynamic value and validated again is the
/// same wrapper, under every strategy.
pub proof fn lemma_value_round_trip<W, B, V>(
    conversions: Conversions<W, B, V>,
    convert_type: ConvertTypeView,
    wrapper: W,
)
    requires
        conversions.in_domain(convert_type, wrapper),
    ensures
        conversions.value_try_from(convert_type, conversions.into_value(convert_type, wrapper))
            == Some(wrapper),
{
}

/// Under the transparent strategy the round trip asks nothing of the
/// wrapper but that its constructor and its field undo each other: the value
/// of the field comes back as it went, whatever it is.
pub proof fn lemma_transparent_round_trip<W, B, V>(
    conversions: Conversions<W, B, V>,
    base_type: Seq<char>,
    wrapper: W,
)
    requires
        (conversions.wrap)((conversions.field)(wrapper)) == wrapper,
        (conversions.base_try_from_value)(
            (conversions.base_into_value)((conversions.field)(wrapper)),
        ) == Some((conversions.field)(wrapper)),
    ensures
        conversions.value_try_from(
            ConvertTypeView::Transparent(base_type),
            conversions.into_value(ConvertTypeView::Transparent(base_type), wrapper),
        ) == Some(wrapper),
{
}

/// Unless the wrapper's own name is asked for, the name that is reported is
/// the one that the base type reports, under every strategy and for every
/// declaration. Where it is asked for, the name is the declared one,
/// whatever the generic parameters.
pub proof fn lemma_type_name_is_the_base_types<W, B, V>(
    conversions: Conversions<W, B, V>,
    input: RawDefinitionView,
)
    ensures
        conversions.reported_type_name(false, input) == conversions.base_type_name,
        conversions.reported_type_name(true, input) == input.name,
{
}

/// Where the fallible conversion refuses a base value that was read from a
/// column, reading the wrapper fails, with the rendering of the
/// conversion's error; it never gives a wrapper.
pub proof fn lemma_refused_column_is_reported<W, B, V, G>(
    conversions: Conversions<W, B, V>,
    base_type: Seq<char>,
    base: B,
    rendering: Seq<char>,
)
    requires
        (conversions.try_from_base)(base) == Err::<W, Seq<char>>(rendering),
    ensures
        conversions.try_get(ConvertTypeView::TryFromInto(base_type), Ok::<B, G>(base)) == Err::<
            W,
            FetchError<G>,
        >(FetchError::Custom(rendering)),
{
}

/// Where the same refusal meets a dynamic value, all that is reported is a
/// type mismatch.
pub proof fn lemma_refused_value_is_a_mismatch<W, B, V>(
    conversions: Conversions<W, B, V>,
    base_type: Seq<char>,
    value: V,
    base: B,
    rendering: Seq<char>,
)
    requires
        (conversions.base_try_from_value)(value) == Some(base),
        (conversions.try_from_base)(base) == Err::<W, Seq<char>>(rendering),
    ensures
        conversions.value_try_from(ConvertTypeView::TryFromInto(base_type), value) == None::<W>,
{
}

/// A key that the base type accepts gives a wrapper, by the unconditional
/// conversion or by the tuple constructor and never by the fallible
/// conversion; a key that the base type refuses gives the base type's own
/// error.
pub proof fn lemma_key_goes_through_the_base<W, B, V>(
    conversions: Conversions<W, B, V>,
    convert_type: ConvertTypeView,
    key: u64,
)
    ensures
        match (conversions.base_try_from_u64)(key) {
            Ok(base) => conversions.try_from_u64(convert_type, key) == Ok::<W, Seq<char>>(
                if convert_type is Transparent {
                    (conversions.wrap)(base)
                } else {
                    (conversions.from_base)(base)
                },
            ),
            Err(why) => conversions.try_from_u64(convert_type, key) == Err::<W, Seq<char>>(why),
        },
{
}

/// A wrapper made from a key has the base value that the base type made
/// from that key, where the conversions of the strategy undo each other.
pub proof fn lemma_key_round_trip<W, B, V>(
    conversions: Conversions<W, B, V>,
    convert_type: ConvertTypeView,
    key: u64,
    base: B,
)
    requires
        (conversions.base_try_from_u64)(key) == Ok::<B, Seq<char>>(base),
        convert_type is Transparent ==> (conversions.field)((conversions.wrap)(base)) == base,
        !(convert_type is Transparent) ==> (conversions.into_base)((conversions.from_base)(base))
            == base,
    ensures
        conversions.try_from_u64(convert_type, key) matches Ok(wrapper) && conversions.outbound(
            convert_type.outbound(),
            wrapper,
        ) == base,
{
}

} // verus!
