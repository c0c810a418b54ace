use vstd::prelude::*;
use crate::collections::names::names_of;

verus! {

/// An instance of a struct: the path of its declaration and its fields.
#[derive(Debug)]
pub struct Object {
    struct_path: Vec<String>,
    fields: Vec<(String, crate::object::Object)>,
}

impl Object {
    /// The path of the struct's declaration.
    pub closed spec fn spec_struct_path(&self) -> Seq<Seq<char>> {
        names_of(self.struct_path)
    }

    /// The number of fields the instance holds.
    pub closed spec fn spec_field_count(&self) -> nat {
        self.fields.len() as nat
    }

    pub fn new(struct_path: Vec<String>, fields: Vec<(String, crate::object::Object)>) -> (object: Self)
        ensures
            object.spec_struct_path() == names_of(struct_path),
            object.spec_field_count() == fields.len(),
    {
        Self { struct_path, fields }
    }

    pub fn struct_path(&self) -> (path: Vec<&str>)
        ensures
            path.len() == self.spec_struct_path().len(),
            forall|i: int| 0 <= i < path.len() ==> (#[trigger] path[i])@ == self.spec_struct_path()[i],
    {
        let mut path: Vec<&str> = Vec::new();
        let mut i: usize = 0;
        while i < self.struct_path.len()
            invariant
                i <= self.struct_path.len(),
                path.len() == i,
                forall|j: int| 0 <= j < i ==> (#[trigger] path[j])@ == self.struct_path[j]@,
            decreases self.struct_path.len() - i,
        {
            path.push(self.struct_path[i].as_str());
            i += 1;
        }
        path
    }
}

/// The segments of a path joined by dots.
pub open spec fn dotted(path: Seq<Seq<char>>) -> Seq<char>
    decreases path.len(),
{
    if path.len() == 0 {
        Seq::empty()
    } else if path.len() == 1 {
        path[0]
    } else {
        dotted(path.drop_last()) + "."@ + path.last()
    }
}

impl Object {
    /// The path of the struct, its segments joined by dots.
    pub fn to_string(&self) -> (text: String)
        ensures
            text@ == dotted(self.spec_struct_path()),
    {
        let ghost all = names_of(self.struct_path);
        let mut text = String::new();
        let mut i: usize = 0;
        assert(all.take(0) =~= Seq::<Seq<char>>::empty());
        while i < self.struct_path.len()
            invariant
                i <= self.struct_path.len(),
                all == names_of(self.struct_path),
                text@ == dotted(all.take(i as int)),
            decreases self.struct_path.len() - i,
        {
            assert(all.take(i + 1).drop_last() =~= all.take(i as int));
            assert(all.take(i + 1).last() == self.struct_path[i as int]@);
            if i > 0 {
                text.append(".");
            }
            text.append(self.struct_path[i].as_str());
            proof {
                reveal_strlit(".");
                if i == 0 {
                    assert(text@ =~= self.struct_path[i as int]@);
                } else {
                    assert(text@ =~= dotted(all.take(i as int)) + "."@
                        + self.struct_path[i as int]@);
                }
            }
            i += 1;
        }
        assert(all.take(i as int) =~= all);
        text
    }
}

} // verus!
