//! The configuration of a run and the items it works on.

use vstd::prelude::*;
use crate::discovery::{discovered, unreadable};
use crate::item::{views, Item, ItemView};

verus! {

/// The settings that decide which items a listing yields: where inputs are
/// read and results written, and the extension of each.
pub struct Layout {
    pub input_dir: Seq<char>,
    pub extension: Seq<char>,
    pub output_dir: Seq<char>,
    pub output_extension: Seq<char>,
}

/// What a [`Process`] holds, as text.
pub struct ProcessView {
    pub name: Seq<char>,
    pub input_dir: Seq<char>,
    pub extension: Seq<char>,
    pub output_dir: Seq<char>,
    pub output_extension: Seq<char>,
    pub tmp_dir: Seq<char>,
    pub overwrite: bool,
    pub strict: bool,
    /// The items, in discovery order.
    pub items: Seq<ItemView>,
    /// How many entries of the listing could not be read.
    pub unreadable: nat,
    /// The entries that discovery read the items from, each a file name or
    /// `None` for an entry that could not be read; `None` as long as
    /// discovery has not run.
    pub listing: Option<Seq<Option<Seq<char>>>>,
}

impl ProcessView {
    /// The settings that discovery goes by.
    pub open spec fn layout(self) -> Layout {
        Layout {
            input_dir: self.input_dir,
            extension: self.extension,
            output_dir: self.output_dir,
            output_extension: self.output_extension,
        }
    }

    /// There are no items until discovery has run, and from then on the
    /// items are exactly those of the listing that it read.
    pub open spec fn wf(self) -> bool {
        match self.listing {
            None => self.items.len() == 0 && self.unreadable == 0,
            Some(entries) => {
                &&& self.items == discovered(entries, self.layout())
                &&& self.unreadable == unreadable(entries)
            },
        }
    }
}

/// What discovery found, together with the listing it was found in.
pub(crate) struct Found {
    pub(crate) items: Vec<Item>,
    pub(crate) unreadable: usize,
    pub(crate) listing: Ghost<Option<Seq<Option<Seq<char>>>>>,
}

/// A run over the files of one directory: where they are read, which
/// extension selects them, where results go, and the items found so far.
/// The items are in the order in which discovery met them, and there are
/// none before discovery has run.
pub struct Process {
    pub(crate) name: String,
    pub(crate) input_dir: String,
    pub(crate) extension: String,
    pub(crate) output_dir: String,
    pub(crate) output_extension: String,
    pub(crate) tmp_dir: String,
    pub(crate) overwrite: bool,
    pub(crate) strict: bool,
    pub(crate) found: Found,
}

impl View for Process {
    type V = ProcessView;

    closed spec fn view(&self) -> ProcessView {
        ProcessView {
            name: self.name@,
            input_dir: self.input_dir@,
            extension: self.extension@,
            output_dir: self.output_dir@,
            output_extension: self.output_extension@,
            tmp_dir: self.tmp_dir@,
            overwrite: self.overwrite,
            strict: self.strict,
            items: views(self.found.items@),
            unreadable: self.found.unreadable as nat,
            listing: self.found.listing@,
        }
    }
}

impl Process {
    #[verifier::type_invariant]
    spec fn inv(self) -> bool {
        self@.wf()
    }

    /// The items themselves, in discovery order.
    pub closed spec fn item_seq(&self) -> Seq<Item> {
        self.found.items@
    }

    /// The view, field by field.
    pub(crate) proof fn lemma_view(&self)
        ensures
            self@ == (ProcessView {
                name: self.name@,
                input_dir: self.input_dir@,
                extension: self.extension@,
                output_dir: self.output_dir@,
                output_extension: self.output_extension@,
                tmp_dir: self.tmp_dir@,
                overwrite: self.overwrite,
                strict: self.strict,
                items: views(self.found.items@),
                unreadable: self.found.unreadable as nat,
                listing: self.found.listing@,
            }),
            self.item_seq() == self.found.items@,
    {
    }

    /// Takes over what discovery found in the listing `entries`.
    pub(crate) fn set_found(
        &mut self,
        items: Vec<Item>,
        skipped: usize,
        Ghost(entries): Ghost<Seq<Option<Seq<char>>>>,
    )
        requires
            views(items@) == discovered(entries, old(self)@.layout()),
            skipped == unreadable(entries),
        ensures
            final(self)@ == (ProcessView {
                items: discovered(entries, old(self)@.layout()),
                unreadable: unreadable(entries),
                listing: Some(entries),
                ..old(self)@
            }),
            final(self).item_seq() == items@,
    {
        self.found = Found { items, unreadable: skipped, listing: Ghost(Some(entries)) };
    }

    /// The view lists the items one for one.
    pub proof fn lemma_items_view(&self)
        ensures
            self@.items == views(self.item_seq()),
            self@.items.len() == self.item_seq().len(),
    {
    }

    /// A run with no items yet. Results keep the input extension, and
    /// missing inputs do not end the run, until a builder says otherwise.
    pub fn new(
        name: String,
        input_dir: String,
        extension: String,
        output_dir: String,
        tmp_dir: String,
        overwrite: bool,
    ) -> (p: Process)
        ensures
            p@ == (ProcessView {
                name: name@,
                input_dir: input_dir@,
                extension: extension@,
                output_dir: output_dir@,
                output_extension: extension@,
                tmp_dir: tmp_dir@,
                overwrite,
                strict: false,
                items: Seq::empty(),
                unreadable: 0,
                listing: None,
            }),
    {
        let output_extension = extension.clone();
        let found = Found { items: Vec::new(), unreadable: 0, listing: Ghost(None) };
        assert(views(found.items@) =~= Seq::empty());
        Process {
            name,
            input_dir,
            extension,
            output_dir,
            output_extension,
            tmp_dir,
            overwrite,
            strict: false,
            found,
        }
    }

    /// The same settings, with results written under the extension given.
    /// Items that were discovered are dropped: their output paths were made
    /// for the extension before.
    pub fn with_output_extension(self, output_extension: String) -> (p: Process)
        ensures
            p@ == (ProcessView {
                output_extension: output_extension@,
                items: Seq::empty(),
                unreadable: 0,
                listing: None,
                ..self@
            }),
    {
        let found = Found { items: Vec::new(), unreadable: 0, listing: Ghost(None) };
        assert(views(found.items@) =~= Seq::empty());
        Process {
            name: self.name,
            input_dir: self.input_dir,
            extension: self.extension,
            output_dir: self.output_dir,
            output_extension,
            tmp_dir: self.tmp_dir,
            overwrite: self.overwrite,
            strict: self.strict,
            found,
        }
    }

    /// The same run, in which a missing input ends the run at validation
    /// when `strict` is set, and counts as that item's failure otherwise.
    pub fn with_strict_validation(self, strict: bool) -> (p: Process)
        ensures
            p@ == (ProcessView { strict, ..self@ }),
            p.item_seq() == self.item_seq(),
    {
        proof {
            use_type_invariant(&self);
        }
        Process {
            name: self.name,
            input_dir: self.input_dir,
            extension: self.extension,
            output_dir: self.output_dir,
            output_extension: self.output_extension,
            tmp_dir: self.tmp_dir,
            overwrite: self.overwrite,
            strict,
            found: self.found,
        }
    }

    /// The label of the run.
    pub fn name(&self) -> (r: &String)
        ensures
            r@ == self@.name,
    {
        &self.name
    }

    /// The directory the inputs are read from.
    pub fn input_dir(&self) -> (r: &String)
        ensures
            r@ == self@.input_dir,
    {
        &self.input_dir
    }

    /// The extension that selects the inputs.
    pub fn extension(&self) -> (r: &String)
        ensures
            r@ == self@.extension,
    {
        &self.extension
    }

    /// The directory the results are written to.
    pub fn output_dir(&self) -> (r: &String)
        ensures
            r@ == self@.output_dir,
    {
        &self.output_dir
    }

    /// The extension of the results.
    pub fn output_extension(&self) -> (r: &String)
        ensures
            r@ == self@.output_extension,
    {
        &self.output_extension
    }

    /// The scratch directory, or the word that stands for none.
    pub fn tmp_dir(&self) -> (r: &String)
        ensures
            r@ == self@.tmp_dir,
    {
        &self.tmp_dir
    }

    /// Whether an existing result is written over.
    pub fn overwrite(&self) -> (b: bool)
        ensures
            b == self@.overwrite,
    {
        self.overwrite
    }

    /// Whether a missing input ends the run at validation.
    pub fn strict_validation(&self) -> (b: bool)
        ensures
            b == self@.strict,
    {
        self.strict
    }

    /// The items, in discovery order: none before discovery has run, and
    /// from then on exactly those of the listing that discovery read.
    pub fn items(&self) -> (r: &Vec<Item>)
        ensures
            r@ == self.item_seq(),
            views(r@) == self@.items,
            self@.wf(),
    {
        proof {
            use_type_invariant(self);
        }
        &self.found.items
    }

    /// How many directory entries the last discovery could not read.
    pub fn unreadable_entries(&self) -> (n: usize)
        ensures
            n == self@.unreadable,
            self@.wf(),
    {
        proof {
            use_type_invariant(self);
        }
        self.found.unreadable
    }
}

} // verus!
