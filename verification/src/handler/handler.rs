use vstd::prelude::*;

verus! {

/// The HTTP method a handler answers to.
#[derive(Debug, Copy, Clone, Hash, Eq, PartialEq, Structural)]
pub enum Method {
    Get,
    Post,
    Patch,
    Put,
    Delete,
    Options,
}

impl Method {
    /// The upper-case name of the method as it appears on the wire.
    pub open spec fn spec_capitalized_name(self) -> Seq<char> {
        match self {
            Method::Get => "GET"@,
            Method::Post => "POST"@,
            Method::Patch => "PATCH"@,
            Method::Put => "PUT"@,
            Method::Delete => "DELETE"@,
            Method::Options => "OPTIONS"@,
        }
    }

    /// Whether requests of this method carry a body.
    pub open spec fn spec_has_body(self) -> bool {
        !(self == Method::Get || self == Method::Delete)
    }

    pub fn capitalized_name(&self) -> (name: &'static str)
        ensures
            name@ == self.spec_capitalized_name(),
    {
        match self {
            Method::Get => "GET",
            Method::Post => "POST",
            Method::Patch => "PATCH",
            Method::Put => "PUT",
            Method::Delete => "DELETE",
            Method::Options => "OPTIONS",
        }
    }
}

/// How the input of a handler is encoded.
#[derive(Debug, Copy, Clone, PartialEq, Eq, Structural)]
pub enum HandlerInputFormat {
    Json,
    Form,
}

/// A request handler of the schema.
#[derive(Debug)]
pub struct Handler {
    pub path: Vec<String>,
    pub namespace_path: Vec<String>,
    pub input_type: String,
    pub output_type: String,
    pub nonapi: bool,
    pub format: HandlerInputFormat,
    pub method: Method,
    pub url: Option<String>,
    pub interface: Option<String>,
    pub ignore_prefix: bool,
}

/// Whether a URL has a part that stands for an argument: it holds a star
/// or a colon.
pub open spec fn has_argument_mark(url: Seq<char>) -> bool {
    exists|i: int| 0 <= i < url.len() && (#[trigger] url[i] == '*' || url[i] == ':')
}

impl Handler {
    /// Whether the handler has a URL of its own with parts that stand for
    /// arguments.
    #[verifier::loop_isolation(false)]
    pub fn has_custom_url_args(&self) -> (has: bool)
        ensures
            has == match self.url {
                Some(url) => has_argument_mark(url@),
                None => false,
            },
    {
        match &self.url {
            Some(url) => {
                let text = url.as_str();
                let length = text.unicode_len();
                let mut i: usize = 0;
                while i < length
                    invariant
                        i <= length,
                        length == text@.len(),
                        forall|j: int| 0 <= j < i ==> !(#[trigger] text@[j] == '*' || text@[j] == ':'),
                    decreases length - i,
                {
                    let c = text.get_char(i);
                    if c == '*' || c == ':' {
                        assert(text@[i as int] == '*' || text@[i as int] == ':');
                        return true;
                    }
                    i += 1;
                }
                false
            },
            None => false,
        }
    }

    /// Whether requests to the handler carry a body.
    pub fn has_body_input(&self) -> (has: bool)
        ensures
            has == self.method.spec_has_body(),
    {
        !(self.method == Method::Get || self.method == Method::Delete)
    }

    /// The path of the interface that describes the arguments in the URL
    /// of the handler: the path of the handler, then the name of the
    /// interface; `None` where the handler names no interface.
    pub fn custom_url_args_path(&self) -> (path: Option<Vec<String>>)
        ensures
            match path {
                Some(path) => self.interface is Some && crate::collections::names::names_of(path)
                    == crate::collections::names::names_of(self.path).push(self.interface->0@),
                None => self.interface is None,
            },
    {
        match &self.interface {
            Some(interface) => {
                let mut result = crate::collections::names::copy_names(&self.path);
                let ghost before = crate::collections::names::names_of(result);
                result.push(interface.clone());
                assert(crate::collections::names::names_of(result) =~= before.push(interface@));
                Some(result)
            },
            None => None,
        }
    }

    /// The name of the handler: the last segment of its path, if it has
    /// one.
    pub fn name(&self) -> (name: Option<&str>)
        ensures
            match name {
                Some(n) => self.path.len() > 0 && n@ == self.path[self.path.len() - 1]@,
                None => self.path.len() == 0,
            },
    {
        if self.path.len() == 0 {
            None
        } else {
            Some(self.path[self.path.len() - 1].as_str())
        }
    }
}

} // verus!
