use vstd::prelude::*;

verus! {

/// One step of a key path: a name in a map or a position in a list.
#[derive(Debug, PartialEq, Eq)]
pub enum Item {
    Key(String),
    Index(usize),
}

/// The mathematical content of an [`Item`].
pub enum ItemView {
    Key(Seq<char>),
    Index(usize),
}

impl View for Item {
    type V = ItemView;

    open spec fn view(&self) -> ItemView {
        match self {
            Item::Key(name) => ItemView::Key(name@),
            Item::Index(index) => ItemView::Index(*index),
        }
    }
}

impl Clone for Item {
    fn clone(&self) -> (copy: Self)
        ensures
            copy@ == self@,
    {
        match self {
            Item::Key(name) => Item::Key(name.clone()),
            Item::Index(index) => Item::Index(*index),
        }
    }
}

/// The place of a value inside nested input: the names and positions that
/// lead to it from the root.
#[derive(Debug, PartialEq, Eq)]
pub struct KeyPath {
    pub items: Vec<Item>,
}

impl View for KeyPath {
    type V = Seq<ItemView>;

    open spec fn view(&self) -> Seq<ItemView> {
        Seq::new(self.items.len() as nat, |i: int| self.items[i]@)
    }
}

impl KeyPath {
    /// The path of the root.
    pub fn new() -> (path: KeyPath)
        ensures
            path@ == Seq::<ItemView>::empty(),
    {
        let path = KeyPath { items: Vec::new() };
        assert(path@ =~= Seq::<ItemView>::empty());
        path
    }

    /// The number of steps.
    pub fn len(&self) -> (n: usize)
        ensures
            n == self@.len(),
    {
        self.items.len()
    }

    /// This path followed by the name `key`.
    pub fn with_key(&self, key: &str) -> (path: KeyPath)
        ensures
            path@ == self@.push(ItemView::Key(key@)),
    {
        let mut path = self.clone();
        path.items.push(Item::Key(key.to_owned()));
        assert(path@ =~= self@.push(ItemView::Key(key@)));
        path
    }

    /// This path followed by the position `index`.
    pub fn with_index(&self, index: usize) -> (path: KeyPath)
        ensures
            path@ == self@.push(ItemView::Index(index)),
    {
        let mut path = self.clone();
        path.items.push(Item::Index(index));
        assert(path@ =~= self@.push(ItemView::Index(index)));
        path
    }
}

impl Clone for KeyPath {
    fn clone(&self) -> (copy: Self)
        ensures
            copy@ == self@,
    {
        let mut items: Vec<Item> = Vec::new();
        let mut i: usize = 0;
        while i < self.items.len()
            invariant
                i <= self.items.len(),
                items.len() == i,
                forall|j: int| 0 <= j < i ==> (#[trigger] items[j])@ == self.items[j]@,
            decreases self.items.len() - i,
        {
            items.push(self.items[i].clone());
            i += 1;
        }
        let copy = KeyPath { items };
        assert(copy@ =~= self@);
        copy
    }
}

} // verus!
