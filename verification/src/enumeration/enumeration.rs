use vstd::prelude::*;
use crate::collections::names::names_of;
use crate::comment::comment::Comment;
use crate::enumeration::member::Member;
use crate::value::value::Dictionary;

verus! {

/// An enum of the schema.
#[derive(Debug)]
pub struct Enum {
    pub path: Vec<String>,
    pub comment: Option<Comment>,
    pub option: bool,
    pub interface: bool,
    pub members: Vec<Member>,
    pub data: Dictionary,
    pub cache: Cache,
}

/// What is computed from an enum once its members are complete.
#[derive(Debug)]
pub struct Cache {
    pub member_names: Vec<String>,
}

impl Enum {
    /// The names of the members, in declaration order.
    pub open spec fn spec_member_names(&self) -> Seq<Seq<char>> {
        Seq::new(self.members.len() as nat, |i: int| self.members[i].name@)
    }

    /// An enum without path, members or data.
    pub fn new() -> (e: Self)
        ensures
            e.path@.len() == 0,
            e.comment is None,
            !e.option,
            !e.interface,
            e.members@.len() == 0,
            e.data@.len() == 0,
            e.cache.member_names@.len() == 0,
    {
        Self {
            path: Vec::new(),
            comment: None,
            option: false,
            interface: false,
            members: Vec::new(),
            data: Dictionary::new(),
            cache: Cache { member_names: Vec::new() },
        }
    }

    /// The segments of the enum's path.
    pub fn path(&self) -> (path: Vec<&str>)
        ensures
            path.len() == self.path.len(),
            forall|i: int| 0 <= i < path.len() ==> (#[trigger] path[i])@ == self.path[i]@,
    {
        let mut path: Vec<&str> = Vec::new();
        let mut i: usize = 0;
        while i < self.path.len()
            invariant
                i <= self.path.len(),
                path.len() == i,
                forall|j: int| 0 <= j < i ==> (#[trigger] path[j])@ == self.path[j]@,
            decreases self.path.len() - i,
        {
            path.push(self.path[i].as_str());
            i += 1;
        }
        path
    }

    /// Fills the cache: the member names, in declaration order. Nothing else
    /// changes.
    pub fn finalize(&mut self)
        ensures
            names_of(final(self).cache.member_names) == old(self).spec_member_names(),
            final(self).path == old(self).path,
            final(self).comment == old(self).comment,
            final(self).option == old(self).option,
            final(self).interface == old(self).interface,
            final(self).members == old(self).members,
            final(self).data == old(self).data,
    {
        let mut names: Vec<String> = Vec::new();
        let mut i: usize = 0;
        while i < self.members.len()
            invariant
                i <= self.members.len(),
                names.len() == i,
                forall|j: int| 0 <= j < i ==> (#[trigger] names[j])@ == self.members[j].name@,
                *self == *old(self),
            decreases self.members.len() - i,
        {
            names.push(self.members[i].name.clone());
            i += 1;
        }
        assert(names_of(names) =~= self.spec_member_names());
        self.cache.member_names = names;
    }

    pub fn members(&self) -> (members: &Vec<Member>)
        ensures
            *members == self.members,
    {
        &self.members
    }

    /// The name of the enum: the last segment of its path, if it has one.
    pub fn name(&self) -> (name: Option<&str>)
        ensures
            match name {
                Some(n) => self.path.len() > 0 && n@ == self.path[self.path.len() - 1]@,
                None => self.path.len() == 0,
            },
    {
        if self.path.len() == 0 {
            None
        } else {
            Some(self.path[self.path.len() - 1].as_str())
        }
    }

    pub fn comment(&self) -> (comment: Option<&Comment>)
        ensures
            match comment {
                Some(c) => self.comment == Some(*c),
                None => self.comment is None,
            },
    {
        self.comment.as_ref()
    }

    /// The kind of declaration this is.
    pub fn kind(&self) -> (kind: &'static str)
        ensures
            kind@ == "enum"@,
    {
        "enum"
    }
}

} // verus!
