use vstd::prelude::*;
use crate::object::{Object, ObjectInner};
use crate::path::error::{Error, ErrorKind, ErrorView};
use crate::value::value::{values_view, Value, ValueView};

verus! {

/// What an identifier of a schema resolves to.
#[derive(Debug)]
pub enum Top {
    Config,
    /// A constant, with the value of its expression.
    ConstantDeclaration(Object),
    Enum,
    /// A model, with its path.
    Model(Vec<String>),
    /// A data set, with its path.
    DataSet(Vec<String>),
    InterfaceDeclaration,
    Namespace,
}

/// The error for an identifier that stands for no value.
pub open spec fn cannot_resolve() -> ErrorView {
    ErrorView { kind: ErrorKind::ValueError, message: "cannot resolve"@, path: None }
}

/// A path as a value: the list of its segments.
pub fn path_value(path: &Vec<String>) -> (value: Value)
    ensures
        value@ == ValueView::Array(
            Seq::new(path.len() as nat, |i: int| ValueView::String(path[i]@)),
        ),
{
    let mut items: Vec<Value> = Vec::new();
    let mut i: usize = 0;
    while i < path.len()
        invariant
            i <= path.len(),
            items.len() == i,
            forall|j: int| 0 <= j < i ==> (#[trigger] items[j])@ == ValueView::String(path[j]@),
        decreases path.len() - i,
    {
        items.push(Value::String(path[i].clone()));
        i += 1;
    }
    assert(values_view(items) =~= Seq::new(
        path.len() as nat,
        |i: int| ValueView::String(path[i]@),
    ));
    Value::Array(items)
}

/// The value that an identifier stands for: the value of a constant, or
/// the path of a model or of a data set. An identifier that resolves to
/// anything else stands for no value.
pub fn fetch_identifier(top: Top) -> (result: Result<Object, Error>)
    ensures
        match top {
            Top::ConstantDeclaration(object) => result == Ok::<Object, Error>(object),
            Top::Model(path) => result matches Ok(object) && (object.inner matches ObjectInner::Teon(
                value,
            ) && value@ == ValueView::Array(
                Seq::new(path.len() as nat, |i: int| ValueView::String(path[i]@)),
            )),
            Top::DataSet(path) => result matches Ok(object) && (
            object.inner matches ObjectInner::Teon(value) && value@ == ValueView::Array(
                Seq::new(path.len() as nat, |i: int| ValueView::String(path[i]@)),
            )),
            _ => result matches Err(error) && error@ == cannot_resolve(),
        },
{
    match top {
        Top::ConstantDeclaration(object) => Ok(object),
        Top::Model(path) => Ok(Object::from_value(path_value(&path))),
        Top::DataSet(path) => Ok(Object::from_value(path_value(&path))),
        _ => Err(Error::new(ErrorKind::ValueError, "cannot resolve")),
    }
}

} // verus!
