use vstd::prelude::*;
use crate::namespace::namespace::{is_item, Namespace};
use crate::path::error::{Error, ErrorKind, ErrorView};
use crate::pipeline::item::item::ItemCall;
use crate::pipeline::item::validator::{Validity, ValidityView};
use crate::value::value::{Value, ValueView};

verus! {

/// The pattern of an e-mail address.
pub const EMAIL_PATTERN: &'static str = "^\\b[A-Za-z0-9._%+-]+@[A-Za-z0-9.-]+\\.[A-Z|a-z]{2,}\\b$";

/// The pattern of a hex color: six hexadecimal digits.
pub const HEX_COLOR_PATTERN: &'static str = "^[A-Fa-f0-9]{6}$";

/// The pattern of a text that holds an upper-case letter.
pub const UPPER_PATTERN: &'static str = "[A-Z]";

/// The pattern of a text that holds a lower-case letter.
pub const LOWER_PATTERN: &'static str = "[a-z]";

/// The pattern of a text that holds a digit.
pub const DIGIT_PATTERN: &'static str = "\\d";

/// The pattern of a text that holds a special character.
pub const SPECIAL_PATTERN: &'static str = "[!@#$&*`~()\\-_+=\\[\\]{}:;'\",<>.?\\\\|/]";

/// Whether a text matches a pattern; `None` where the pattern is no regular
/// expression.
pub uninterp spec fn regex_match(pattern: Seq<char>, text: Seq<char>) -> Option<bool>;

/// `regex::Regex::new` and `regex::Regex::is_match`: whether the text
/// matches the pattern; `None` where the pattern does not compile.
#[verifier::external_body]
pub(crate) fn regex_is_match(pattern: &str, text: &str) -> (matched: Option<bool>)
    ensures
        matched == regex_match(pattern@, text@),
{
    regex::Regex::new(pattern).ok().map(|regex| regex.is_match(text))
}

/// Whether a character is numeric.
pub uninterp spec fn is_numeric_char(c: char) -> bool;

/// Whether a character is alphabetic.
pub uninterp spec fn is_alphabetic_char(c: char) -> bool;

/// Whether a character is alphabetic or numeric.
pub open spec fn is_alphanumeric_char(c: char) -> bool {
    is_alphabetic_char(c) || is_numeric_char(c)
}

/// `char::is_numeric`: whether the character is numeric.
#[verifier::external_body]
pub(crate) fn char_is_numeric(c: char) -> (numeric: bool)
    ensures
        numeric == is_numeric_char(c),
{
    c.is_numeric()
}

/// `char::is_alphabetic`: whether the character is alphabetic.
#[verifier::external_body]
pub(crate) fn char_is_alphabetic(c: char) -> (alphabetic: bool)
    ensures
        alphabetic == is_alphabetic_char(c),
{
    c.is_alphabetic()
}

/// `char::is_alphanumeric`: whether the character is alphabetic or numeric.
#[verifier::external_body]
pub(crate) fn char_is_alphanumeric(c: char) -> (alphanumeric: bool)
    ensures
        alphanumeric == is_alphanumeric_char(c),
{
    c.is_alphanumeric()
}

/// Whether `text` ends with `suffix`.
pub open spec fn ends_with(text: Seq<char>, suffix: Seq<char>) -> bool {
    suffix.len() <= text.len() && text.subrange(text.len() - suffix.len(), text.len() as int)
        == suffix
}

/// Whether `text` starts with `prefix`.
pub open spec fn starts_with(text: Seq<char>, prefix: Seq<char>) -> bool {
    prefix.len() <= text.len() && text.subrange(0, prefix.len() as int) == prefix
}

/// `str::ends_with`: whether the text ends with the suffix.
#[verifier::external_body]
pub(crate) fn text_ends_with(text: &str, suffix: &str) -> (ends: bool)
    ensures
        ends == ends_with(text@, suffix@),
{
    text.ends_with(suffix)
}

/// `str::starts_with`: whether the text starts with the prefix.
#[verifier::external_body]
pub(crate) fn text_starts_with(text: &str, prefix: &str) -> (starts: bool)
    ensures
        starts == starts_with(text@, prefix@),
{
    text.starts_with(prefix)
}

/// The classes of characters that a text can be checked for.
#[derive(Debug, Copy, Clone, PartialEq, Eq, Structural)]
pub enum CharClass {
    Numeric,
    Alphabetic,
    Alphanumeric,
}

/// Whether a character is of a class.
pub open spec fn in_class(class: CharClass, c: char) -> bool {
    match class {
        CharClass::Numeric => is_numeric_char(c),
        CharClass::Alphabetic => is_alphabetic_char(c),
        CharClass::Alphanumeric => is_alphanumeric_char(c),
    }
}

/// Whether every character of a text is of a class.
pub open spec fn all_in_class(class: CharClass, text: Seq<char>) -> bool {
    forall|i: int| 0 <= i < text.len() ==> in_class(class, #[trigger] text[i])
}

/// Whether every character of a text is of a class.
#[verifier::loop_isolation(false)]
pub fn every_char(class: CharClass, text: &str) -> (all: bool)
    ensures
        all == all_in_class(class, text@),
{
    let length = text.unicode_len();
    let mut i: usize = 0;
    while i < length
        invariant
            i <= length,
            length == text@.len(),
            forall|j: int| 0 <= j < i ==> in_class(class, #[trigger] text@[j]),
        decreases length - i,
    {
        let c = text.get_char(i);
        let of_class = match class {
            CharClass::Numeric => char_is_numeric(c),
            CharClass::Alphabetic => char_is_alphabetic(c),
            CharClass::Alphanumeric => char_is_alphanumeric(c),
        };
        if !of_class {
            assert(!in_class(class, text@[i as int]));
            return false;
        }
        i += 1;
    }
    true
}

/// Whether a text is a secure password: it holds an upper-case letter, a
/// lower-case letter, a digit and a special character. `None` where one of
/// the patterns is no regular expression.
pub open spec fn is_secure(text: Seq<char>) -> Option<bool> {
    match (
        regex_match(UPPER_PATTERN@, text),
        regex_match(LOWER_PATTERN@, text),
        regex_match(DIGIT_PATTERN@, text),
        regex_match(SPECIAL_PATTERN@, text),
    ) {
        (Some(upper), Some(lower), Some(digit), Some(special)) => Some(
            upper && lower && digit && special,
        ),
        _ => None,
    }
}

/// What a validation item finds of a text input, given the text of its
/// argument where it takes one: `Some(true)` for a valid input,
/// `Some(false)` for an invalid one, `None` where a pattern is no regular
/// expression or the argument is missing.
pub open spec fn holds_of(call: ItemCall, input: Seq<char>, argument: Option<Seq<char>>) -> Option<bool> {
    match call {
        ItemCall::IsEmail => regex_match(EMAIL_PATTERN@, input),
        ItemCall::IsHexColor => regex_match(HEX_COLOR_PATTERN@, input),
        ItemCall::IsSecurePassword => is_secure(input),
        ItemCall::IsNumeric => Some(all_in_class(CharClass::Numeric, input)),
        ItemCall::IsAlphabetic => Some(all_in_class(CharClass::Alphabetic, input)),
        ItemCall::IsAlphanumeric => Some(all_in_class(CharClass::Alphanumeric, input)),
        ItemCall::IsSuffixOf => match argument {
            Some(given) => Some(ends_with(given, input)),
            None => None,
        },
        ItemCall::HasSuffix => match argument {
            Some(given) => Some(ends_with(input, given)),
            None => None,
        },
        ItemCall::IsPrefixOf => match argument {
            Some(given) => Some(starts_with(given, input)),
            None => None,
        },
        ItemCall::HasPrefix => match argument {
            Some(given) => Some(starts_with(input, given)),
            None => None,
        },
        ItemCall::RegexMatch => match argument {
            Some(given) => regex_match(given, input),
            None => None,
        },
        _ => None,
    }
}

/// The reason that a validation item gives for an invalid input.
pub open spec fn reason_of(call: ItemCall, argument: Option<Seq<char>>) -> Seq<char> {
    match call {
        ItemCall::IsEmail => "input is not email"@,
        ItemCall::IsHexColor => "input is not hex color"@,
        ItemCall::IsSecurePassword => "input is not secure password"@,
        ItemCall::IsNumeric => "input is not numeric"@,
        ItemCall::IsAlphabetic => "input is not alphabetic"@,
        ItemCall::IsAlphanumeric => "input is not alphanumeric"@,
        ItemCall::IsSuffixOf => "input is not suffix of \""@ + argument->0 + "\""@,
        ItemCall::HasSuffix => "input doesn't have suffix \""@ + argument->0 + "\""@,
        ItemCall::IsPrefixOf => "input is not prefix of \""@ + argument->0 + "\""@,
        ItemCall::HasPrefix => "input doesn't have prefix \""@ + argument->0 + "\""@,
        _ => "input doesn't match regex"@,
    }
}

/// The error of a validation item that cannot judge its input.
pub open spec fn cannot_validate() -> ErrorView {
    ErrorView { kind: ErrorKind::TypeError, message: "validation: invalid input"@, path: None }
}

/// The text of a value that is a string, or the pattern of one that is a
/// regular expression.
pub open spec fn text_of(value: ValueView) -> Option<Seq<char>> {
    match value {
        ValueView::String(text) => Some(text),
        ValueView::Regex(pattern) => Some(pattern),
        _ => None,
    }
}

/// What a validation item finds of an input, given the argument that it
/// was written with where it takes one.
///
/// An input that is no string is refused, and so is an item that cannot
/// judge: one whose argument is missing or no text, one whose pattern is no
/// regular expression, and one that is no validation item. Else the input
/// is valid, or invalid for the reason of the item.
pub fn call_string_validation_item(call: ItemCall, input: &Value, argument: Option<&Value>) -> (result: Result<
    Validity,
    Error,
>)
    ensures
        match input@ {
            ValueView::String(text) => {
                let given = match argument {
                    Some(value) => text_of(value@),
                    None => None,
                };
                match holds_of(call, text, given) {
                    Some(true) => result matches Ok(validity) && validity@ is Valid,
                    Some(false) => result matches Ok(validity) && validity@
                        == ValidityView::Invalid(reason_of(call, given)),
                    None => result matches Err(error) && error@ == cannot_validate(),
                }
            },
            _ => result matches Err(error) && error@ == cannot_validate(),
        },
{
    let text = match input.as_str() {
        Some(text) => text,
        None => {
            return Err(Error::new(ErrorKind::TypeError, "validation: invalid input"));
        },
    };
    let given: Option<&str> = match argument {
        Some(Value::String(given)) => Some(given.as_str()),
        Some(Value::Regex(given)) => Some(given.as_str()),
        _ => None,
    };
    let (found, reason) = match call {
        ItemCall::IsEmail => (regex_is_match(EMAIL_PATTERN, text), "input is not email".to_owned()),
        ItemCall::IsHexColor => (
            regex_is_match(HEX_COLOR_PATTERN, text),
            "input is not hex color".to_owned(),
        ),
        ItemCall::IsSecurePassword => {
            let found = match (
                regex_is_match(UPPER_PATTERN, text),
                regex_is_match(LOWER_PATTERN, text),
                regex_is_match(DIGIT_PATTERN, text),
                regex_is_match(SPECIAL_PATTERN, text),
            ) {
                (Some(upper), Some(lower), Some(digit), Some(special)) => Some(
                    upper && lower && digit && special,
                ),
                _ => None,
            };
            (found, "input is not secure password".to_owned())
        },
        ItemCall::IsNumeric => (
            Some(every_char(CharClass::Numeric, text)),
            "input is not numeric".to_owned(),
        ),
        ItemCall::IsAlphabetic => (
            Some(every_char(CharClass::Alphabetic, text)),
            "input is not alphabetic".to_owned(),
        ),
        ItemCall::IsAlphanumeric => (
            Some(every_char(CharClass::Alphanumeric, text)),
            "input is not alphanumeric".to_owned(),
        ),
        ItemCall::IsSuffixOf => match given {
            Some(given) => (
                Some(text_ends_with(given, text)),
                quoted("input is not suffix of \"", given),
            ),
            None => (None, String::new()),
        },
        ItemCall::HasSuffix => match given {
            Some(given) => (
                Some(text_ends_with(text, given)),
                quoted("input doesn't have suffix \"", given),
            ),
            None => (None, String::new()),
        },
        ItemCall::IsPrefixOf => match given {
            Some(given) => (
                Some(text_starts_with(given, text)),
                quoted("input is not prefix of \"", given),
            ),
            None => (None, String::new()),
        },
        ItemCall::HasPrefix => match given {
            Some(given) => (
                Some(text_starts_with(text, given)),
                quoted("input doesn't have prefix \"", given),
            ),
            None => (None, String::new()),
        },
        ItemCall::RegexMatch => match given {
            Some(given) => (regex_is_match(given, text), "input doesn't match regex".to_owned()),
            None => (None, String::new()),
        },
        _ => (None, String::new()),
    };
    match found {
        Some(true) => Ok(Validity::Valid),
        Some(false) => Ok(Validity::Invalid(reason)),
        None => Err(Error::new(ErrorKind::TypeError, "validation: invalid input")),
    }
}

/// A message that ends with a text in double quotes.
fn quoted(start: &str, text: &str) -> (message: String)
    ensures
        message@ == start@ + text@ + "\""@,
{
    let mut message = start.to_owned();
    message.append(text);
    message.append("\"");
    message
}

/// The number of standard validation items on strings.
pub const STRING_VALIDATION_ITEMS: usize = 11;

/// The standard validation item on strings at a position: its name and
/// what it does.
pub open spec fn standard_string_validation_item(position: usize) -> (Seq<char>, ItemCall) {
    match position {
        0 => ("isEmail"@, ItemCall::IsEmail),
        1 => ("isHexColor"@, ItemCall::IsHexColor),
        2 => ("isSecurePassword"@, ItemCall::IsSecurePassword),
        3 => ("isNumeric"@, ItemCall::IsNumeric),
        4 => ("isAlphanumeric"@, ItemCall::IsAlphanumeric),
        5 => ("isAlphabetic"@, ItemCall::IsAlphabetic),
        6 => ("isSuffixOf"@, ItemCall::IsSuffixOf),
        7 => ("hasSuffix"@, ItemCall::HasSuffix),
        8 => ("isPrefixOf"@, ItemCall::IsPrefixOf),
        9 => ("hasPrefix"@, ItemCall::HasPrefix),
        _ => ("regexMatch"@, ItemCall::RegexMatch),
    }
}

/// The standard validation item on strings at a position.
pub fn string_validation_item(position: usize) -> (item: (&'static str, ItemCall))
    ensures
        item.0@ == standard_string_validation_item(position).0,
        item.1 == standard_string_validation_item(position).1,
{
    match position {
        0 => ("isEmail", ItemCall::IsEmail),
        1 => ("isHexColor", ItemCall::IsHexColor),
        2 => ("isSecurePassword", ItemCall::IsSecurePassword),
        3 => ("isNumeric", ItemCall::IsNumeric),
        4 => ("isAlphanumeric", ItemCall::IsAlphanumeric),
        5 => ("isAlphabetic", ItemCall::IsAlphabetic),
        6 => ("isSuffixOf", ItemCall::IsSuffixOf),
        7 => ("hasSuffix", ItemCall::HasSuffix),
        8 => ("isPrefixOf", ItemCall::IsPrefixOf),
        9 => ("hasPrefix", ItemCall::HasPrefix),
        _ => ("regexMatch", ItemCall::RegexMatch),
    }
}

/// Defines the standard validation items on strings in `namespace`, after
/// the pipeline items that it holds. Nothing else of the namespace changes.
pub fn load_pipeline_string_validation_items(namespace: &mut Namespace)
    ensures
        final(namespace).pipeline_items@.len() == old(namespace).pipeline_items@.len()
            + STRING_VALIDATION_ITEMS,
        forall|i: int|
            0 <= i < old(namespace).pipeline_items@.len() ==> #[trigger] final(namespace).pipeline_items@[i]
                == old(namespace).pipeline_items@[i],
        forall|i: usize|
            i < STRING_VALIDATION_ITEMS ==> is_item(
                #[trigger] final(namespace).pipeline_items@[old(namespace).pipeline_items@.len()
                    + i],
                standard_string_validation_item(i).0,
                standard_string_validation_item(i).1,
            ),
        final(namespace).models == old(namespace).models,
        final(namespace).model_field_decorators == old(namespace).model_field_decorators,
{
    let ghost start = namespace.pipeline_items@;
    let mut i: usize = 0;
    while i < STRING_VALIDATION_ITEMS
        invariant
            i <= STRING_VALIDATION_ITEMS,
            start == old(namespace).pipeline_items@,
            namespace.pipeline_items@.len() == start.len() + i,
            forall|k: int| 0 <= k < start.len() ==> #[trigger] namespace.pipeline_items@[k] == start[k],
            forall|k: usize|
                k < i ==> is_item(
                    #[trigger] namespace.pipeline_items@[start.len() + k],
                    standard_string_validation_item(k).0,
                    standard_string_validation_item(k).1,
                ),
            namespace.models == old(namespace).models,
            namespace.model_field_decorators == old(namespace).model_field_decorators,
        decreases STRING_VALIDATION_ITEMS - i,
    {
        let ghost before = namespace.pipeline_items@;
        let (name, call) = string_validation_item(i);
        namespace.define_pipeline_item(name, call);
        proof {
            let after = namespace.pipeline_items@;
            assert forall|k: int| 0 <= k < before.len() implies #[trigger] after[k]
                == before[k] by {
                assert(after.drop_last()[k] == after[k]);
            }
            assert(after[start.len() + i] == after.last());
        }
        i += 1;
    }
}

} // verus!
