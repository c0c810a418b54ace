//! What plain values have in common with the instances of structs.

use vstd::prelude::*;
use crate::path::error::{Error, ErrorKind, ErrorView};
use crate::value::value::{Value, ValueView};

verus! {

/// A value that stands for an instance of a struct of the standard
/// library.
pub trait PrimitiveStruct {
    /// The path of the struct that the value is an instance of.
    fn default_struct_path(&self) -> Result<Vec<&'static str>, Error>;
}

/// The name of the standard struct that values of a kind are instances of;
/// `None` for tuples, enum variants and option variants, which are
/// instances of none.
pub open spec fn struct_name(value: ValueView) -> Option<Seq<char>> {
    match value {
        ValueView::Null => Some("Null"@),
        ValueView::Bool(_) => Some("Bool"@),
        ValueView::Int(_) => Some("Int"@),
        ValueView::Int64(_) => Some("Int64"@),
        ValueView::Float32(_) => Some("Float32"@),
        ValueView::Float(_) => Some("Float"@),
        ValueView::Decimal(_) => Some("Decimal"@),
        ValueView::ObjectId(_) => Some("ObjectId"@),
        ValueView::String(_) => Some("String"@),
        ValueView::Date(_) => Some("Date"@),
        ValueView::DateTime(_) => Some("DateTime"@),
        ValueView::Array(_) => Some("Array"@),
        ValueView::Dictionary(_) => Some("Dictionary"@),
        ValueView::Range(_, _, _) => Some("Range"@),
        ValueView::Regex(_) => Some("Regex"@),
        ValueView::File(_) => Some("File"@),
        ValueView::Tuple(_) => None,
        ValueView::EnumVariant(_) => None,
        ValueView::OptionVariant(_) => None,
    }
}

/// The message for a value that is an instance of no standard struct.
pub open spec fn unsupported(value: ValueView) -> Seq<char> {
    match value {
        ValueView::Tuple(_) => "tuple struct is not supported"@,
        ValueView::EnumVariant(_) => "enum variant struct is not supported"@,
        _ => "option variant struct is not supported"@,
    }
}

/// The path of the standard struct that `value` is an instance of: `std`,
/// then the name of the struct.
pub fn default_struct_path(value: &Value) -> (result: Result<Vec<&'static str>, Error>)
    ensures
        match result {
            Ok(path) => struct_name(value@) is Some && path.len() == 2 && path[0]@ == "std"@
                && path[1]@ == struct_name(value@)->0,
            Err(error) => struct_name(value@) is None && error@ == (ErrorView {
                kind: ErrorKind::TypeError,
                message: unsupported(value@),
                path: None,
            }),
        },
{
    let name = match value {
        Value::Null => "Null",
        Value::Bool(_) => "Bool",
        Value::Int(_) => "Int",
        Value::Int64(_) => "Int64",
        Value::Float32(_) => "Float32",
        Value::Float(_) => "Float",
        Value::Decimal(_) => "Decimal",
        Value::ObjectId(_) => "ObjectId",
        Value::String(_) => "String",
        Value::Date(_) => "Date",
        Value::DateTime(_) => "DateTime",
        Value::Array(_) => "Array",
        Value::Dictionary(_) => "Dictionary",
        Value::Range(_, _, _) => "Range",
        Value::Regex(_) => "Regex",
        Value::File(_) => "File",
        Value::Tuple(_) => {
            return Err(Error::new(ErrorKind::TypeError, "tuple struct is not supported"));
        },
        Value::EnumVariant(_) => {
            return Err(Error::new(ErrorKind::TypeError, "enum variant struct is not supported"));
        },
        Value::OptionVariant(_) => {
            return Err(Error::new(ErrorKind::TypeError, "option variant struct is not supported"));
        },
    };
    Ok(vec!["std", name])
}

impl PrimitiveStruct for Value {
    fn default_struct_path(&self) -> (result: Result<Vec<&'static str>, Error>) {
        default_struct_path(self)
    }
}

} // verus!
