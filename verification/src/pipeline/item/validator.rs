use vstd::prelude::*;
use crate::path::error::{Error, ErrorView};

verus! {

/// What a validator says of a value.
#[derive(Debug, PartialEq, Eq)]
pub enum Validity {
    Valid,
    Invalid(String),
}

/// The mathematical content of a [`Validity`].
pub enum ValidityView {
    Valid,
    Invalid(Seq<char>),
}

impl View for Validity {
    type V = ValidityView;

    open spec fn view(&self) -> ValidityView {
        match self {
            Validity::Valid => ValidityView::Valid,
            Validity::Invalid(reason) => ValidityView::Invalid(reason@),
        }
    }
}

impl Clone for Validity {
    fn clone(&self) -> (copy: Self)
        ensures
            copy@ == self@,
    {
        match self {
            Validity::Valid => Validity::Valid,
            Validity::Invalid(reason) => Validity::Invalid(reason.clone()),
        }
    }
}

impl Validity {
    pub fn is_valid(&self) -> (valid: bool)
        ensures
            valid == (self@ is Valid),
    {
        match self {
            Validity::Valid => true,
            _ => false,
        }
    }

    pub fn invalid_reason(&self) -> (reason: Option<&str>)
        ensures
            match reason {
                Some(r) => self@ == ValidityView::Invalid(r@),
                None => self@ is Valid,
            },
    {
        match self {
            Validity::Invalid(reason) => Some(reason.as_str()),
            _ => None,
        }
    }

    /// Invalid for the given reason.
    pub fn from_reason(reason: &str) -> (validity: Validity)
        ensures
            validity@ == ValidityView::Invalid(reason@),
    {
        Validity::Invalid(reason.to_owned())
    }

    /// Valid for `true`; for `false` invalid with the reason
    /// "value is invalid".
    pub fn from_bool(valid: bool) -> (validity: Validity)
        ensures
            validity@ == if valid {
                ValidityView::Valid
            } else {
                ValidityView::Invalid("value is invalid"@)
            },
    {
        if valid {
            Validity::Valid
        } else {
            Validity::Invalid("value is invalid".to_owned())
        }
    }

    /// Invalid for the reason given, valid where none is given.
    pub fn from_optional_reason(reason: Option<&str>) -> (validity: Validity)
        ensures
            validity@ == match reason {
                Some(r) => ValidityView::Invalid(r@),
                None => ValidityView::Valid,
            },
    {
        match reason {
            Some(r) => Validity::Invalid(r.to_owned()),
            None => Validity::Valid,
        }
    }
}

impl From<String> for Validity {
    fn from(reason: String) -> (validity: Self) {
        Validity::Invalid(reason)
    }
}

impl vstd::std_specs::convert::FromSpecImpl<String> for Validity {
    open spec fn obeys_from_spec() -> bool {
        true
    }

    open spec fn from_spec(reason: String) -> Validity {
        Validity::Invalid(reason)
    }
}

impl From<()> for Validity {
    fn from(unit: ()) -> (validity: Self) {
        Validity::Valid
    }
}

impl vstd::std_specs::convert::FromSpecImpl<()> for Validity {
    open spec fn obeys_from_spec() -> bool {
        true
    }

    open spec fn from_spec(unit: ()) -> Validity {
        Validity::Valid
    }
}

impl From<Option<String>> for Validity {
    fn from(value: Option<String>) -> (validity: Self) {
        match value {
            Some(v) => Validity::Invalid(v),
            None => Validity::Valid,
        }
    }
}

impl vstd::std_specs::convert::FromSpecImpl<Option<String>> for Validity {
    open spec fn obeys_from_spec() -> bool {
        true
    }

    open spec fn from_spec(value: Option<String>) -> Validity {
        match value {
            Some(v) => Validity::Invalid(v),
            None => Validity::Valid,
        }
    }
}

/// What a validating item returns: a verdict, or a verdict or an error.
#[derive(Debug)]
pub enum ValidateResult {
    Validity(Validity),
    Result(Result<Validity, Error>),
}

impl ValidateResult {
    /// The verdict or the error that the result stands for.
    pub open spec fn spec_flatten(self) -> Result<ValidityView, ErrorView> {
        match self {
            ValidateResult::Validity(validity) => Ok(validity@),
            ValidateResult::Result(Ok(validity)) => Ok(validity@),
            ValidateResult::Result(Err(error)) => Err(error@),
        }
    }

    /// The verdict or the error that the result stands for.
    pub fn flatten(self) -> (result: Result<Validity, Error>)
        ensures
            match result {
                Ok(validity) => self.spec_flatten() == Ok::<ValidityView, ErrorView>(validity@),
                Err(error) => self.spec_flatten() == Err::<ValidityView, ErrorView>(error@),
            },
    {
        match self {
            ValidateResult::Validity(validity) => Ok(validity),
            ValidateResult::Result(result) => result,
        }
    }
}

impl From<Validity> for ValidateResult {
    fn from(value: Validity) -> (result: Self) {
        ValidateResult::Validity(value)
    }
}

impl vstd::std_specs::convert::FromSpecImpl<Validity> for ValidateResult {
    open spec fn obeys_from_spec() -> bool {
        true
    }

    open spec fn from_spec(value: Validity) -> ValidateResult {
        ValidateResult::Validity(value)
    }
}

impl From<Result<Validity, Error>> for ValidateResult {
    fn from(value: Result<Validity, Error>) -> (result: Self) {
        match value {
            Ok(t) => ValidateResult::Result(Ok(t)),
            Err(e) => ValidateResult::Result(Err(e)),
        }
    }
}

impl vstd::std_specs::convert::FromSpecImpl<Result<Validity, Error>> for ValidateResult {
    open spec fn obeys_from_spec() -> bool {
        true
    }

    open spec fn from_spec(value: Result<Validity, Error>) -> ValidateResult {
        match value {
            Ok(t) => ValidateResult::Result(Ok(t)),
            Err(e) => ValidateResult::Result(Err(e)),
        }
    }
}

} // verus!
