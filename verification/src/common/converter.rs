//! Conversions of the values that the host hands over.
//!
//! A string of the host arrives as its bytes and a vector of the host as a
//! vector of its elements. A strategy says how one kind of value is converted;
//! a [`Converter`] applies the strategy it was made with.

use crate::common::errors::CxxConvertError;
use std::str::Utf8Error;
use tantivy::DateTime;
use time::format_description::well_known::Rfc3339;
use time::OffsetDateTime;
use vstd::prelude::*;
use vstd::utf8::decode_utf8;
use vstd::utf8::valid_utf8;

verus! {

/// Decodes bytes with `std::str::from_utf8`: succeeds exactly on valid
/// UTF-8, with the text that the bytes encode.
#[verifier::external_body]
fn text_of_bytes(bytes: &Vec<u8>) -> (text: Result<String, Utf8Error>)
    ensures
        text is Ok <==> valid_utf8(bytes@),
        text matches Ok(decoded) ==> decoded@ == decode_utf8(bytes@),
{
    std::str::from_utf8(bytes).map(|text| text.to_string())
}

/// What parsing a text as a date and time in the format of RFC 3339 gives: the
/// instant in nanoseconds since the Unix epoch, or the parser's message.
pub uninterp spec fn rfc3339_instant(text: Seq<char>) -> Result<i64, Seq<char>>;

/// What a parser gave, with the message as its characters.
pub open spec fn parse_view(parsed: Result<i64, String>) -> Result<i64, Seq<char>> {
    match parsed {
        Ok(nanos) => Ok(nanos),
        Err(message) => Err(message@),
    }
}

/// Parses a date and time with `OffsetDateTime::parse` in the format of
/// RFC 3339 and converts it to the instant that `tantivy` stores for it, with
/// `DateTime::from_utc`.
#[verifier::external_body]
fn parse_rfc3339(text: &str) -> (instant: Result<i64, String>)
    ensures
        parse_view(instant) == rfc3339_instant(text@),
{
    match OffsetDateTime::parse(text, &Rfc3339) {
        Ok(parsed) => Ok(DateTime::from_utc(parsed).into_timestamp_nanos()),
        Err(e) => Err(e.to_string()),
    }
}

/// How values of type `T` are converted to values of type `U`.
pub trait ConvertStrategy<T, U> {
    /// Whether `out` is what converting `item` gives.
    spec fn converts(&self, item: &T, out: Result<U, CxxConvertError>) -> bool;

    /// Converts `item`.
    fn convert(&self, item: &T) -> (out: Result<U, CxxConvertError>)
        ensures
            self.converts(item, out),
    ;
}

/// Converts a single element: a value to itself, and the bytes of a string to
/// the text they encode.
pub struct CxxElementStrategy;

impl<T> ConvertStrategy<T, T> for CxxElementStrategy where T: Clone {
    /// A value converts to a clone of itself; this never fails.
    open spec fn converts(&self, item: &T, out: Result<T, CxxConvertError>) -> bool {
        out matches Ok(value) && cloned(*item, value)
    }

    fn convert(&self, item: &T) -> (out: Result<T, CxxConvertError>) {
        Ok(item.clone())
    }
}

/// What decoding the bytes of one string gives: the text, if the bytes are
/// valid UTF-8, and else the error of the decoder.
pub open spec fn decodes(bytes: Seq<u8>, out: Result<String, CxxConvertError>) -> bool {
    if valid_utf8(bytes) {
        out matches Ok(text) && text@ == decode_utf8(bytes)
    } else {
        out matches Err(CxxConvertError::Utf8Error(_))
    }
}

impl ConvertStrategy<Vec<u8>, String> for CxxElementStrategy {
    /// The bytes of a string convert to the text they encode; this fails if
    /// they are not valid UTF-8.
    open spec fn converts(&self, item: &Vec<u8>, out: Result<String, CxxConvertError>) -> bool {
        decodes(item@, out)
    }

    fn convert(&self, item: &Vec<u8>) -> (out: Result<String, CxxConvertError>) {
        match text_of_bytes(item) {
            Ok(text) => Ok(text),
            Err(e) => Err(CxxConvertError::Utf8Error(e)),
        }
    }
}

/// Converts a vector of elements to a vector of the same elements.
pub struct CxxVectorStrategy<T> where T: Clone {
    _marker: std::marker::PhantomData<T>,
}

impl<T> CxxVectorStrategy<T> where T: Clone {
    /// The strategy for vectors of `T`.
    pub fn new() -> (strategy: Self) {
        CxxVectorStrategy { _marker: std::marker::PhantomData }
    }
}

impl<T> ConvertStrategy<Vec<T>, Vec<T>> for CxxVectorStrategy<T> where T: Clone {
    /// A vector converts to a vector of clones of its elements, in order;
    /// this never fails.
    open spec fn converts(&self, items: &Vec<T>, out: Result<Vec<T>, CxxConvertError>) -> bool {
        out matches Ok(values) && values@.len() == items@.len() && forall|i: int|
            0 <= i < items@.len() ==> cloned(items@[i], #[trigger] values@[i])
    }

    fn convert(&self, items: &Vec<T>) -> (out: Result<Vec<T>, CxxConvertError>) {
        let mut values: Vec<T> = Vec::new();
        let mut i: usize = 0;
        while i < items.len()
            invariant
                i <= items.len(),
                values@.len() == i,
                forall|k: int| 0 <= k < i ==> cloned(items@[k], #[trigger] values@[k]),
            decreases items.len() - i,
        {
            values.push(items[i].clone());
            i += 1;
        }
        Ok(values)
    }
}

/// Whether all byte strings before index `n` are valid UTF-8.
pub open spec fn all_valid_utf8(items: Seq<Vec<u8>>, n: int) -> bool {
    forall|i: int| 0 <= i < n ==> valid_utf8((#[trigger] items[i])@)
}

/// Converts a vector of strings, given as their bytes, to a vector of texts.
pub struct CxxVectorStringStrategy;

impl ConvertStrategy<Vec<Vec<u8>>, Vec<String>> for CxxVectorStringStrategy {
    /// The strings convert to the texts they encode, in order; this fails if
    /// any of them is not valid UTF-8.
    open spec fn converts(&self, items: &Vec<Vec<u8>>, out: Result<Vec<String>, CxxConvertError>)
        -> bool {
        if all_valid_utf8(items@, items@.len() as int) {
            out matches Ok(texts) && texts@.len() == items@.len() && forall|i: int|
                0 <= i < items@.len() ==> (#[trigger] texts@[i])@ == decode_utf8(items@[i]@)
        } else {
            out matches Err(CxxConvertError::Utf8Error(_))
        }
    }

    fn convert(&self, items: &Vec<Vec<u8>>) -> (out: Result<Vec<String>, CxxConvertError>) {
        let mut texts: Vec<String> = Vec::new();
        let mut i: usize = 0;
        while i < items.len()
            invariant
                i <= items.len(),
                texts@.len() == i,
                all_valid_utf8(items@, i as int),
                forall|k: int| 0 <= k < i ==> (#[trigger] texts@[k])@ == decode_utf8(items@[k]@),
            decreases items.len() - i,
        {
            match text_of_bytes(&items[i]) {
                Ok(text) => {
                    texts.push(text);
                },
                Err(e) => {
                    return Err(CxxConvertError::Utf8Error(e));
                },
            }
            i += 1;
        }
        Ok(texts)
    }
}

/// Converts a vector of strings to a vector of their bytes.
pub struct CxxVectorStringToBytesStrategy;

impl ConvertStrategy<Vec<Vec<u8>>, Vec<Vec<u8>>> for CxxVectorStringToBytesStrategy {
    /// The strings convert to their bytes, in order; this never fails.
    open spec fn converts(
        &self,
        items: &Vec<Vec<u8>>,
        out: Result<Vec<Vec<u8>>, CxxConvertError>,
    ) -> bool {
        out matches Ok(all_bytes) && all_bytes@.len() == items@.len() && forall|i: int|
            0 <= i < items@.len() ==> (#[trigger] all_bytes@[i])@ == items@[i]@
    }

    fn convert(&self, items: &Vec<Vec<u8>>) -> (out: Result<Vec<Vec<u8>>, CxxConvertError>) {
        let mut all_bytes: Vec<Vec<u8>> = Vec::new();
        let mut i: usize = 0;
        while i < items.len()
            invariant
                i <= items.len(),
                all_bytes@.len() == i,
                forall|k: int| 0 <= k < i ==> (#[trigger] all_bytes@[k])@ == items@[k]@,
            decreases items.len() - i,
        {
            all_bytes.push(items[i].clone());
            i += 1;
        }
        Ok(all_bytes)
    }
}

/// Turns what the parser gave for one string into what the conversion
/// gives: the instant, or the error that carries the parser's message.
pub fn instant_from_parse(parsed: Result<i64, String>) -> (out: Result<i64, CxxConvertError>)
    ensures
        parsed matches Ok(nanos) ==> out == Ok::<i64, CxxConvertError>(nanos),
        parsed matches Err(message) ==> out == Err::<i64, CxxConvertError>(
            CxxConvertError::CxxDateVectorConvertError(message),
        ),
{
    match parsed {
        Ok(nanos) => Ok(nanos),
        Err(message) => Err(CxxConvertError::CxxDateVectorConvertError(message)),
    }
}

/// Converts a vector of strings that hold dates and times in the format of
/// RFC 3339 to the instants they name, in nanoseconds since the Unix epoch.
pub struct CxxVectorStringToDateTimeStrategy;

impl CxxVectorStringToDateTimeStrategy {
    /// Whether the string is valid UTF-8 and names an instant.
    pub open spec fn names_instant(bytes: Seq<u8>) -> bool {
        valid_utf8(bytes) && rfc3339_instant(decode_utf8(bytes)) is Ok
    }
}

impl ConvertStrategy<Vec<Vec<u8>>, Vec<i64>> for CxxVectorStringToDateTimeStrategy {
    /// The strings convert to the instants they name, in order. This fails at
    /// the first string that is not valid UTF-8 or names no instant: with a
    /// vector error for the one, with a date error that carries the parser's
    /// message for the other.
    open spec fn converts(&self, items: &Vec<Vec<u8>>, out: Result<Vec<i64>, CxxConvertError>)
        -> bool {
        if forall|i: int|
            0 <= i < items@.len() ==> Self::names_instant((#[trigger] items@[i])@) {
            out matches Ok(instants) && instants@.len() == items@.len() && forall|i: int|
                0 <= i < items@.len() ==> Ok::<i64, Seq<char>>(#[trigger] instants@[i])
                    == rfc3339_instant(decode_utf8(items@[i]@))
        } else {
            let first = choose|first: int|
                0 <= first < items@.len() && !Self::names_instant((#[trigger] items@[first])@)
                    && forall|i: int|
                    0 <= i < first ==> Self::names_instant((#[trigger] items@[i])@);
            if valid_utf8(items@[first]@) {
                out matches Err(CxxConvertError::CxxDateVectorConvertError(message))
                    && Err::<i64, Seq<char>>(message@) == rfc3339_instant(
                    decode_utf8(items@[first]@),
                )
            } else {
                out matches Err(CxxConvertError::CxxVectorConvertError(_))
            }
        }
    }

    fn convert(&self, items: &Vec<Vec<u8>>) -> (out: Result<Vec<i64>, CxxConvertError>) {
        let mut instants: Vec<i64> = Vec::new();
        let mut i: usize = 0;
        while i < items.len()
            invariant
                i <= items.len(),
                instants@.len() == i,
                forall|k: int| 0 <= k < i ==> Self::names_instant((#[trigger] items@[k])@),
                forall|k: int|
                    0 <= k < i ==> Ok::<i64, Seq<char>>(#[trigger] instants@[k]) == rfc3339_instant(
                        decode_utf8(items@[k]@),
                    ),
            decreases items.len() - i,
        {
            let text = match text_of_bytes(&items[i]) {
                Ok(text) => text,
                Err(e) => {
                    proof {
                        lemma_first_failure(items@, i as int);
                    }
                    return Err(CxxConvertError::CxxVectorConvertError(e.to_string()));
                },
            };
            match instant_from_parse(parse_rfc3339(text.as_str())) {
                Ok(nanos) => {
                    instants.push(nanos);
                },
                Err(e) => {
                    proof {
                        lemma_first_failure(items@, i as int);
                    }
                    return Err(e);
                },
            }
            i += 1;
        }
        Ok(instants)
    }
}

/// The first string that names no instant is the one before which all do.
proof fn lemma_first_failure(items: Seq<Vec<u8>>, at: int)
    requires
        0 <= at < items.len(),
        !CxxVectorStringToDateTimeStrategy::names_instant(items[at]@),
        forall|i: int|
            0 <= i < at ==> CxxVectorStringToDateTimeStrategy::names_instant((#[trigger] items[i])@),
    ensures
        !(forall|i: int|
            0 <= i < items.len() ==> CxxVectorStringToDateTimeStrategy::names_instant(
                (#[trigger] items[i])@,
            )),
        (choose|first: int|
            0 <= first < items.len() && !CxxVectorStringToDateTimeStrategy::names_instant(
                (#[trigger] items[first])@,
            ) && forall|i: int|
                0 <= i < first ==> CxxVectorStringToDateTimeStrategy::names_instant(
                    (#[trigger] items[i])@,
                )) == at,
{
    let first = choose|first: int|
        0 <= first < items.len() && !CxxVectorStringToDateTimeStrategy::names_instant(
            (#[trigger] items[first])@,
        ) && forall|i: int|
            0 <= i < first ==> CxxVectorStringToDateTimeStrategy::names_instant(
                (#[trigger] items[i])@,
            );
    assert(!CxxVectorStringToDateTimeStrategy::names_instant(items[at]@));
    if first < at {
        assert(CxxVectorStringToDateTimeStrategy::names_instant(items[first]@));
    } else if at < first {
        assert(CxxVectorStringToDateTimeStrategy::names_instant(items[at]@));
    }
}

/// Applies the strategy it was made with.
pub struct Converter<T, U, S> where S: ConvertStrategy<T, U> {
    strategy: S,
    _marker_t: std::marker::PhantomData<T>,
    _marker_u: std::marker::PhantomData<U>,
}

impl<T, U, S> Converter<T, U, S> where S: ConvertStrategy<T, U> {
    /// The strategy that the converter applies.
    pub closed spec fn strategy(&self) -> S {
        self.strategy
    }

    /// A converter that applies `strategy`.
    pub fn new(strategy: S) -> (converter: Self)
        ensures
            converter.strategy() == strategy,
    {
        Converter {
            strategy,
            _marker_t: std::marker::PhantomData,
            _marker_u: std::marker::PhantomData,
        }
    }

    /// Converts `item` as the strategy says.
    pub fn convert(&self, item: &T) -> (out: Result<U, CxxConvertError>)
        ensures
            self.strategy().converts(item, out),
    {
        self.strategy.convert(item)
    }
}

} // verus!
