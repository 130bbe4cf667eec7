//! Identifier generators: the strategies by which a fresh identifier is made.

use vstd::prelude::*;
use vstd::string::StrSliceExecFns;
use crate::canonical::{
    hyphenated_text, is_canonical_random, is_lower_hex, is_random_version, is_simple_random,
    lemma_hyphenated_is_ascii, lemma_simple_shape, simple_text,
};
use crate::random::{fresh_random_value, hyphenated_string, simple_string};

verus! {

/// A source of identifiers, called once for each request that has none yet.
pub trait IdGenerator {
    /// The identifiers that one call may return.
    spec fn produces(&self, id: Seq<char>) -> bool;

    /// Makes a new identifier.
    fn generate(&self) -> (id: String)
        ensures
            self.produces(id@),
    ;
}

/// The built-in ways of writing a random 128-bit value as an identifier.
#[derive(Clone, Copy, Debug, PartialEq, Eq, Structural)]
pub enum UuidFormat {
    /// The canonical hyphenated form, cut to its first characters when the
    /// given length is below 36 and left whole otherwise.
    Truncated(usize),
    /// The canonical hyphenated form, 36 characters.
    Full,
    /// The 32 hexadecimal digits without separators.
    Simple,
}

/// The identifier that `format` makes of `value`.
pub open spec fn rendering(format: UuidFormat, value: u128) -> Seq<char> {
    match format {
        UuidFormat::Truncated(length) => if length < 36 {
            hyphenated_text(value).take(length as int)
        } else {
            hyphenated_text(value)
        },
        UuidFormat::Full => hyphenated_text(value),
        UuidFormat::Simple => simple_text(value),
    }
}

impl UuidFormat {
    /// Writes `value` in this format.
    pub fn render(&self, value: u128) -> (text: String)
        ensures
            text@ == rendering(*self, value),
    {
        match self {
            UuidFormat::Truncated(length) => {
                let full = hyphenated_string(value);
                proof {
                    lemma_hyphenated_is_ascii(value);
                    vstd::utf8::is_ascii_chars_encode_utf8(full@);
                }
                if *length >= full.as_str().len() {
                    full
                } else {
                    full.as_str().substring_ascii(0, *length).to_string()
                }
            },
            UuidFormat::Full => hyphenated_string(value),
            UuidFormat::Simple => simple_string(value),
        }
    }
}

/// With a configured length from 1 to 35, every identifier has exactly that
/// length and is the beginning of the canonical form of a randomly generated
/// value.
pub proof fn lemma_short_length_gives_prefix(length: usize, id: Seq<char>)
    requires
        1 <= length < 36,
        UuidFormat::Truncated(length).produces(id),
    ensures
        id.len() == length,
        exists|full: Seq<char>|
            is_canonical_random(full) && id == #[trigger] full.take(length as int),
{
    let value = choose|value: u128|
        is_random_version(value) && id == #[trigger] rendering(
            UuidFormat::Truncated(length),
            value,
        );
    let full = hyphenated_text(value);
    assert(is_canonical_random(full));
    assert(id == full.take(length as int));
}

/// With a configured length of 36 or more, every identifier is the whole
/// canonical form of a randomly generated value: 36 characters, never padded.
pub proof fn lemma_long_length_gives_whole(length: usize, id: Seq<char>)
    requires
        length >= 36,
        UuidFormat::Truncated(length).produces(id),
    ensures
        id.len() == 36,
        is_canonical_random(id),
{
    let value = choose|value: u128|
        is_random_version(value) && id == #[trigger] rendering(
            UuidFormat::Truncated(length),
            value,
        );
    assert(id == hyphenated_text(value));
}

/// In the full format every identifier is the canonical form of a randomly
/// generated value, 36 characters long.
pub proof fn lemma_full_gives_canonical(id: Seq<char>)
    requires
        UuidFormat::Full.produces(id),
    ensures
        id.len() == 36,
        is_canonical_random(id),
{
    let value = choose|value: u128|
        is_random_version(value) && id == #[trigger] rendering(UuidFormat::Full, value);
    assert(id == hyphenated_text(value));
}

/// In the simple format every identifier is 32 lower-case hexadecimal digits
/// and holds no separator.
pub proof fn lemma_simple_gives_digits(id: Seq<char>)
    requires
        UuidFormat::Simple.produces(id),
    ensures
        id.len() == 32,
        is_simple_random(id),
        forall|i: int| 0 <= i < 32 ==> is_lower_hex(#[trigger] id[i]),
        forall|i: int| 0 <= i < 32 ==> #[trigger] id[i] != '-',
{
    let value = choose|value: u128|
        is_random_version(value) && id == #[trigger] rendering(UuidFormat::Simple, value);
    assert(id == simple_text(value));
    lemma_simple_shape(value);
}

impl IdGenerator for UuidFormat {
    open spec fn produces(&self, id: Seq<char>) -> bool {
        exists|value: u128| is_random_version(value) && id == #[trigger] rendering(*self, value)
    }

    fn generate(&self) -> (id: String) {
        let fresh = fresh_random_value();
        self.render(fresh)
    }
}

/// A generator that hands a freshly drawn random value to a formatting
/// function and returns what the function writes.
pub struct FormattedUuid<F: Fn(u128) -> String> {
    formatter: F,
}

impl<F: Fn(u128) -> String> FormattedUuid<F> {
    #[verifier::type_invariant]
    spec fn accepts_random_values(self) -> bool {
        forall|value: u128| is_random_version(value) ==> call_requires(self.formatter, (value,))
    }

    /// The formatting function.
    pub closed spec fn formatter(self) -> F {
        self.formatter
    }

    /// Wraps `formatter`, which must be callable on every randomly generated
    /// value.
    pub fn new(formatter: F) -> (generator: Self)
        requires
            forall|value: u128| is_random_version(value) ==> call_requires(formatter, (value,)),
        ensures
            generator.formatter() == formatter,
    {
        FormattedUuid { formatter }
    }

    /// Every identifier of this generator is a text that the formatting
    /// function wrote for some randomly generated value.
    pub proof fn lemma_produces_formatted(self, id: Seq<char>)
        requires
            self.produces(id),
        ensures
            exists|value: u128, text: String|
                is_random_version(value) && #[trigger] call_ensures(
                    self.formatter(),
                    (value,),
                    text,
                ) && text@ == id,
    {
    }

    /// What the formatting function writes for `value`.
    pub fn format(&self, value: u128) -> (text: String)
        requires
            is_random_version(value),
        ensures
            call_ensures(self.formatter(), (value,), text),
    {
        proof {
            use_type_invariant(self);
        }
        (self.formatter)(value)
    }
}

impl<F: Fn(u128) -> String> IdGenerator for FormattedUuid<F> {
    open spec fn produces(&self, id: Seq<char>) -> bool {
        exists|value: u128, text: String|
            is_random_version(value) && #[trigger] call_ensures(
                self.formatter(),
                (value,),
                text,
            ) && text@ == id
    }

    fn generate(&self) -> (id: String) {
        let fresh = fresh_random_value();
        self.format(fresh)
    }
}

/// A generator that is a function of the caller's own: every identifier is
/// whatever the function returns.
pub struct CustomGenerator<F: Fn() -> String> {
    function: F,
}

impl<F: Fn() -> String> CustomGenerator<F> {
    #[verifier::type_invariant]
    spec fn callable(self) -> bool {
        call_requires(self.function, ())
    }

    /// The wrapped function.
    pub closed spec fn function(self) -> F {
        self.function
    }

    /// Wraps `function`, which must be callable without further conditions.
    pub fn new(function: F) -> (generator: Self)
        requires
            call_requires(function, ()),
        ensures
            generator.function() == function,
    {
        CustomGenerator { function }
    }

    /// Every identifier of this generator is a text that the function
    /// returned.
    pub proof fn lemma_produces_returned(self, id: Seq<char>)
        requires
            self.produces(id),
        ensures
            exists|text: String| #[trigger] call_ensures(self.function(), (), text) && text@ == id,
    {
    }
}

impl<F: Fn() -> String> IdGenerator for CustomGenerator<F> {
    open spec fn produces(&self, id: Seq<char>) -> bool {
        exists|text: String| #[trigger] call_ensures(self.function(), (), text) && text@ == id
    }

    fn generate(&self) -> (id: String) {
        proof {
            use_type_invariant(self);
        }
        let id = (self.function)();
        assert(call_ensures(self.function(), (), id));
        id
    }
}

} // verus!
