//! The value that flows through pipelines and argument lists: a plain value,
//! a record, a struct instance, a pipeline, an interface enum variant or a
//! list of such.

pub mod traits;

use vstd::prelude::*;
use crate::model;
use crate::path::error::{Error, ErrorKind, ErrorView};
use crate::pipeline::pipeline::Pipeline;
use crate::structs;
use crate::value::interface_enum_variant::InterfaceEnumVariant;
use crate::value::value::{Dictionary, Value};

verus! {

#[derive(Debug)]
pub struct Object {
    pub inner: ObjectInner,
}

#[derive(Debug)]
pub enum ObjectInner {
    Teon(Value),
    ModelObject(model::object::object::Object),
    StructObject(structs::object::Object),
    Pipeline(Pipeline),
    InterfaceEnumVariant(InterfaceEnumVariant),
    Array(Vec<Object>),
}

impl Object {
    /// An object that holds a plain value.
    pub fn from_value(value: Value) -> (object: Object)
        ensures
            object.inner == ObjectInner::Teon(value),
    {
        Object { inner: ObjectInner::Teon(value) }
    }

    /// An object that holds a pipeline.
    pub fn from_pipeline(pipeline: Pipeline) -> (object: Object)
        ensures
            object.inner == ObjectInner::Pipeline(pipeline),
    {
        Object { inner: ObjectInner::Pipeline(pipeline) }
    }

    pub fn is_teon(&self) -> (is: bool)
        ensures
            is == (self.inner is Teon),
    {
        self.as_teon().is_some()
    }

    pub fn as_teon(&self) -> (value: Option<&Value>)
        ensures
            match value {
                Some(v) => self.inner == ObjectInner::Teon(*v),
                None => !(self.inner is Teon),
            },
    {
        match &self.inner {
            ObjectInner::Teon(v) => Some(v),
            _ => None,
        }
    }

    pub fn is_model_object(&self) -> (is: bool)
        ensures
            is == (self.inner is ModelObject),
    {
        self.as_model_object().is_some()
    }

    pub fn as_model_object(&self) -> (object: Option<&model::object::object::Object>)
        ensures
            match object {
                Some(v) => self.inner == ObjectInner::ModelObject(*v),
                None => !(self.inner is ModelObject),
            },
    {
        match &self.inner {
            ObjectInner::ModelObject(v) => Some(v),
            _ => None,
        }
    }

    pub fn is_struct_object(&self) -> (is: bool)
        ensures
            is == (self.inner is StructObject),
    {
        self.as_struct_object().is_some()
    }

    pub fn as_struct_object(&self) -> (object: Option<&structs::object::Object>)
        ensures
            match object {
                Some(v) => self.inner == ObjectInner::StructObject(*v),
                None => !(self.inner is StructObject),
            },
    {
        match &self.inner {
            ObjectInner::StructObject(v) => Some(v),
            _ => None,
        }
    }

    pub fn is_pipeline(&self) -> (is: bool)
        ensures
            is == (self.inner is Pipeline),
    {
        self.as_pipeline().is_some()
    }

    pub fn as_pipeline(&self) -> (pipeline: Option<&Pipeline>)
        ensures
            match pipeline {
                Some(p) => self.inner == ObjectInner::Pipeline(*p),
                None => !(self.inner is Pipeline),
            },
    {
        match &self.inner {
            ObjectInner::Pipeline(p) => Some(p),
            _ => None,
        }
    }

    pub fn is_interface_enum_variant(&self) -> (is: bool)
        ensures
            is == (self.inner is InterfaceEnumVariant),
    {
        self.as_interface_enum_variant().is_some()
    }

    pub fn as_interface_enum_variant(&self) -> (variant: Option<&InterfaceEnumVariant>)
        ensures
            match variant {
                Some(n) => self.inner == ObjectInner::InterfaceEnumVariant(*n),
                None => !(self.inner is InterfaceEnumVariant),
            },
    {
        match &self.inner {
            ObjectInner::InterfaceEnumVariant(n) => Some(n),
            _ => None,
        }
    }

    pub fn is_array(&self) -> (is: bool)
        ensures
            is == (self.inner is Array),
    {
        self.as_array().is_some()
    }

    pub fn as_array(&self) -> (items: Option<&Vec<Object>>)
        ensures
            match items {
                Some(a) => self.inner == ObjectInner::Array(*a),
                None => !(self.inner is Array),
            },
    {
        match &self.inner {
            ObjectInner::Array(a) => Some(a),
            _ => None,
        }
    }

    /// Whether the object holds the plain value null.
    pub open spec fn spec_is_null(&self) -> bool {
        self.inner matches ObjectInner::Teon(v) && v@ is Null
    }

    pub fn is_null(&self) -> (is: bool)
        ensures
            is == self.spec_is_null(),
    {
        match self.as_teon() {
            Some(value) => value.is_null(),
            None => false,
        }
    }
}

/// The error for an object that holds no plain value.
pub open spec fn not_teon() -> Seq<char> {
    "object is not teon"@
}

/// The error with a message and no path.
pub open spec fn plain_error(message: Seq<char>) -> ErrorView {
    ErrorView { kind: ErrorKind::TypeError, message, path: None }
}

impl Object {
    /// An object that holds a string.
    pub fn from_string(value: String) -> (object: Object)
        ensures
            object.inner == ObjectInner::Teon(Value::String(value)),
    {
        Object { inner: ObjectInner::Teon(Value::String(value)) }
    }

    /// An object that holds a dictionary.
    pub fn from_dictionary(value: Dictionary) -> (object: Object)
        ensures
            object.inner == ObjectInner::Teon(Value::Dictionary(value)),
    {
        Object { inner: ObjectInner::Teon(Value::Dictionary(value)) }
    }

    /// An object that holds a record.
    pub fn from_model_object(value: model::object::object::Object) -> (object: Object)
        ensures
            object.inner == ObjectInner::ModelObject(value),
    {
        Object { inner: ObjectInner::ModelObject(value) }
    }

    /// The plain value that the object holds; an object that holds none is
    /// refused with `prefix`, a colon and the reason.
    pub fn try_into_err_prefix(self, prefix: &str) -> (result: Result<Value, Error>)
        ensures
            match self.inner {
                ObjectInner::Teon(value) => result == Ok::<Value, Error>(value),
                _ => result matches Err(error) && error@ == plain_error(
                    prefix@ + ": "@ + not_teon(),
                ),
            },
    {
        match self.inner {
            ObjectInner::Teon(value) => Ok(value),
            _ => {
                let mut message = prefix.to_owned();
                message.append(": ");
                message.append("object is not teon");
                Err(Error { kind: ErrorKind::TypeError, message, path: None })
            },
        }
    }

    /// The plain value that the object holds; an object that holds none is
    /// refused with `message`.
    pub fn try_into_err_message(self, message: &str) -> (result: Result<Value, Error>)
        ensures
            match self.inner {
                ObjectInner::Teon(value) => result == Ok::<Value, Error>(value),
                _ => result matches Err(error) && error@ == plain_error(message@),
            },
    {
        match self.inner {
            ObjectInner::Teon(value) => Ok(value),
            _ => Err(Error::new(ErrorKind::TypeError, message)),
        }
    }

    /// The plain value that the object holds; an object that holds none is
    /// refused with `prefix`, a colon and the reason.
    pub fn try_ref_into_err_prefix(&self, prefix: &str) -> (result: Result<&Value, Error>)
        ensures
            match result {
                Ok(value) => self.inner == ObjectInner::Teon(*value),
                Err(error) => !(self.inner is Teon) && error@ == plain_error(
                    prefix@ + ": "@ + not_teon(),
                ),
            },
    {
        match &self.inner {
            ObjectInner::Teon(value) => Ok(value),
            _ => {
                let mut message = prefix.to_owned();
                message.append(": ");
                message.append("object is not teon");
                Err(Error { kind: ErrorKind::TypeError, message, path: None })
            },
        }
    }

    /// The plain value that the object holds; an object that holds none is
    /// refused with `message`.
    pub fn try_ref_into_err_message(&self, message: &str) -> (result: Result<&Value, Error>)
        ensures
            match result {
                Ok(value) => self.inner == ObjectInner::Teon(*value),
                Err(error) => !(self.inner is Teon) && error@ == plain_error(message@),
            },
    {
        match &self.inner {
            ObjectInner::Teon(value) => Ok(value),
            _ => Err(Error::new(ErrorKind::TypeError, message)),
        }
    }

    /// The interface enum variant that the object holds; an object that
    /// holds none is refused.
    pub fn try_into_interface_enum_variant(&self) -> (result: Result<&InterfaceEnumVariant, Error>)
        ensures
            match result {
                Ok(variant) => self.inner == ObjectInner::InterfaceEnumVariant(*variant),
                Err(error) => !(self.inner is InterfaceEnumVariant) && error@ == plain_error(
                    "object is not InterfaceEnumVariant"@,
                ),
            },
    {
        match self.as_interface_enum_variant() {
            Some(variant) => Ok(variant),
            None => Err(Error::new(ErrorKind::TypeError, "object is not InterfaceEnumVariant")),
        }
    }
}

} // verus!
