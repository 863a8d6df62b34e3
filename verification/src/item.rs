//! One unit of work: a name, where it is read from and where it is written to.

use vstd::prelude::*;

verus! {

/// What an [`Item`] holds, as text.
pub struct ItemView {
    pub name: Seq<char>,
    pub input_path: Seq<char>,
    pub output_path: Seq<char>,
}

impl ItemView {
    /// The name and both paths are non-empty.
    pub open spec fn wf(self) -> bool {
        &&& self.name.len() > 0
        &&& self.input_path.len() > 0
        &&& self.output_path.len() > 0
    }
}

/// One discovered file: its logical name, the path it is read from and the
/// path its result is written to. An item never changes once it is made, and
/// none of its three parts is ever empty.
#[derive(Debug, PartialEq, Eq)]
pub struct Item {
    name: String,
    input_path: String,
    output_path: String,
}

impl View for Item {
    type V = ItemView;

    closed spec fn view(&self) -> ItemView {
        ItemView { name: self.name@, input_path: self.input_path@, output_path: self.output_path@ }
    }
}

impl Item {
    #[verifier::type_invariant]
    spec fn inv(self) -> bool {
        self@.wf()
    }

    /// An item of the three parts given, or `None` when one of them is empty.
    pub fn new(name: String, input_path: String, output_path: String) -> (item: Option<Item>)
        ensures
            item is Some <==> (ItemView {
                name: name@,
                input_path: input_path@,
                output_path: output_path@,
            }).wf(),
            item matches Some(it) ==> it@ == (ItemView {
                name: name@,
                input_path: input_path@,
                output_path: output_path@,
            }),
    {
        if name.as_str().unicode_len() == 0 || input_path.as_str().unicode_len() == 0
            || output_path.as_str().unicode_len() == 0 {
            None
        } else {
            Some(Item { name, input_path, output_path })
        }
    }

    /// The logical name: the stem of the file the item was made for.
    pub fn name(&self) -> (r: &String)
        ensures
            r@ == self@.name,
            self@.wf(),
    {
        proof {
            use_type_invariant(self);
        }
        &self.name
    }

    /// The path of the source file.
    pub fn input_path(&self) -> (r: &String)
        ensures
            r@ == self@.input_path,
            self@.wf(),
    {
        proof {
            use_type_invariant(self);
        }
        &self.input_path
    }

    /// The path the result is written to.
    pub fn output_path(&self) -> (r: &String)
        ensures
            r@ == self@.output_path,
            self@.wf(),
    {
        proof {
            use_type_invariant(self);
        }
        &self.output_path
    }
}

impl Clone for Item {
    /// A second item with the same name and paths.
    fn clone(&self) -> (r: Item)
        ensures
            r@ == self@,
    {
        proof {
            use_type_invariant(self);
        }
        Item {
            name: self.name.clone(),
            input_path: self.input_path.clone(),
            output_path: self.output_path.clone(),
        }
    }
}

/// The items of a sequence, each as text.
pub open spec fn views(items: Seq<Item>) -> Seq<ItemView> {
    items.map_values(|it: Item| it@)
}

} // verus!
