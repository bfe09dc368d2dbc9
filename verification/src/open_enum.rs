//! The open-enum codec: a wire string decodes into a closed set of known
//! symbolic variants, or into a catch-all variant carrying the original
//! unrecognized text, so that new server-side symbols never break decoding.

use vstd::prelude::*;

verus! {

/// A closed vocabulary of wire names for one enumerated domain.
///
/// Each variant has one declared wire name; the names are unique across
/// the vocabulary, an invariant every implementation proves.
pub trait WireEnum: Sized {
    /// The declared wire name of this variant.
    spec fn wire(self) -> Seq<char>;

    /// Declared wire names are unique across the vocabulary.
    proof fn wire_injective(a: Self, b: Self)
        requires
            a.wire() == b.wire(),
        ensures
            a == b,
    ;

    /// Exact, case-sensitive match of a wire string against the vocabulary.
    fn match_wire(s: &str) -> (r: Option<Self>)
        ensures
            match r {
                Some(v) => v.wire() == s@,
                None => forall|v: Self| v.wire() != s@,
            },
    ;

    /// The declared wire name of this variant, as text.
    fn wire_str(&self) -> (r: &'static str)
        ensures
            r@ == self.wire(),
    ;

    /// Executable structural equality.
    fn same(&self, other: &Self) -> (r: bool)
        ensures
            r == (*self == *other),
    ;
}

/// A value from an enumerated wire domain: either one of the statically
/// known variants, or the fallback carrying the unrecognized wire text
/// byte for byte.
#[derive(Debug)]
pub enum OpenEnum<T> {
    Known(T),
    Unrecognized(String),
}

/// Mathematical model of an [`OpenEnum`] value.
pub enum OpenEnumV<T> {
    Known(T),
    Unrecognized(Seq<char>),
}

impl<T> View for OpenEnum<T> {
    type V = OpenEnumV<T>;

    open spec fn view(&self) -> OpenEnumV<T> {
        match self {
            OpenEnum::Known(v) => OpenEnumV::Known(*v),
            OpenEnum::Unrecognized(s) => OpenEnumV::Unrecognized(s@),
        }
    }
}

/// What decoding a wire string `s` may yield: the known variant whose
/// declared name is `s`, or — when no variant's name is `s` — the fallback
/// preserving the text exactly. Together with [`lemma_open_decode_deterministic`]
/// this pins the decoded value down completely.
pub open spec fn decodes_to<T: WireEnum>(s: Seq<char>, r: OpenEnumV<T>) -> bool {
    match r {
        OpenEnumV::Known(v) => v.wire() == s,
        OpenEnumV::Unrecognized(t) => t == s && (forall|v: T| v.wire() != s),
    }
}

/// What encoding yields: a known variant's declared wire name, or the
/// fallback's text verbatim.
pub open spec fn open_encode<T: WireEnum>(v: OpenEnumV<T>) -> Seq<char> {
    match v {
        OpenEnumV::Known(k) => k.wire(),
        OpenEnumV::Unrecognized(s) => s,
    }
}

impl<T: WireEnum> OpenEnum<T> {
    /// Decode a wire string. Total: an unknown symbol yields the fallback,
    /// never an error.
    pub fn decode(s: &str) -> (r: Self)
        ensures
            decodes_to::<T>(s@, r@),
    {
        match T::match_wire(s) {
            Some(v) => OpenEnum::Known(v),
            None => OpenEnum::Unrecognized(s.to_owned()),
        }
    }

    /// Encode back to wire text: the declared name of a known variant,
    /// the preserved text of the fallback.
    pub fn encode(&self) -> (r: String)
        ensures
            r@ == open_encode::<T>(self@),
    {
        match self {
            OpenEnum::Known(v) => v.wire_str().to_owned(),
            OpenEnum::Unrecognized(s) => s.clone(),
        }
    }
}

/// Decoding never fails and is deterministic: any two values decoded from
/// the same wire string are equal. With [`decodes_to`] this makes decoding
/// a total function of the wire text.
pub proof fn lemma_open_decode_deterministic<T: WireEnum>(
    s: Seq<char>,
    r1: OpenEnumV<T>,
    r2: OpenEnumV<T>,
)
    requires
        decodes_to::<T>(s, r1),
        decodes_to::<T>(s, r2),
    ensures
        r1 == r2,
{
    match (r1, r2) {
        (OpenEnumV::Known(a), OpenEnumV::Known(b)) => {
            T::wire_injective(a, b);
        },
        _ => {},
    }
}

/// A string in the vocabulary decodes to its matching known variant.
pub proof fn lemma_open_decode_known<T: WireEnum>(k: T, s: Seq<char>, r: OpenEnumV<T>)
    requires
        k.wire() == s,
        decodes_to::<T>(s, r),
    ensures
        r == OpenEnumV::<T>::Known(k),
{
    lemma_open_decode_deterministic::<T>(s, r, OpenEnumV::Known(k));
}

/// A string outside the vocabulary decodes to the fallback, preserving
/// the original text exactly.
pub proof fn lemma_open_decode_unrecognized<T: WireEnum>(s: Seq<char>, r: OpenEnumV<T>)
    requires
        forall|v: T| v.wire() != s,
        decodes_to::<T>(s, r),
    ensures
        r == OpenEnumV::<T>::Unrecognized(s),
{
}

/// Round trip: every value the decoder can produce — a known variant, or
/// a fallback whose text lies outside the vocabulary — decodes back to
/// itself after encoding.
pub proof fn lemma_open_round_trip<T: WireEnum>(v: OpenEnumV<T>, r: OpenEnumV<T>)
    requires
        v matches OpenEnumV::Unrecognized(s) ==> forall|k: T| k.wire() != s,
        decodes_to::<T>(open_encode::<T>(v), r),
    ensures
        r == v,
{
    match v {
        OpenEnumV::Known(k) => {
            lemma_open_decode_known::<T>(k, k.wire(), r);
        },
        OpenEnumV::Unrecognized(s) => {
            lemma_open_decode_unrecognized::<T>(s, r);
        },
    }
}

impl<T: WireEnum> PartialEq for OpenEnum<T> {
    fn eq(&self, other: &Self) -> (r: bool) {
        match (self, other) {
            (OpenEnum::Known(a), OpenEnum::Known(b)) => a.same(b),
            (OpenEnum::Unrecognized(a), OpenEnum::Unrecognized(b)) => crate::text::str_eq(
                a.as_str(),
                b.as_str(),
            ),
            _ => false,
        }
    }
}

impl<T: WireEnum> vstd::std_specs::cmp::PartialEqSpecImpl for OpenEnum<T> {
    open spec fn obeys_eq_spec() -> bool {
        true
    }

    open spec fn eq_spec(&self, other: &Self) -> bool {
        self@ == other@
    }
}

} // verus!
