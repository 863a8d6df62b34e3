//! Discovery: from the listing of the input directory to the items.

use vstd::prelude::*;
use crate::error::{ProcessError, ProcessErrorView};
use crate::item::{views, Item, ItemView};
use crate::process::{Layout, Process, ProcessView};
use crate::seqs::{
    lemma_filter_empty, lemma_filter_member, lemma_filter_origin, lemma_filter_partition,
    lemma_filter_push,
};
use crate::text::{
    file_name, has_extension, join_path, joined, lemma_file_name_has_extension,
    lemma_joined_ends_with_file, lemma_joined_injective, lemma_stem_injective,
    lemma_stem_rebuilds, stem, stem_of, with_extension,
};

verus! {

/// One entry of a directory as it was listed: its file name, or the fact
/// that the entry could not be read.
#[derive(Debug, PartialEq, Eq)]
pub enum Entry {
    Readable(String),
    Unreadable,
}

impl View for Entry {
    type V = Option<Seq<char>>;

    open spec fn view(&self) -> Option<Seq<char>> {
        match *self {
            Entry::Readable(name) => Some(name@),
            Entry::Unreadable => None,
        }
    }
}

/// What was found at the input path: nothing, something that is no
/// directory, or a directory with its entries in listing order.
#[derive(Debug, PartialEq, Eq)]
pub enum Listing {
    NotFound,
    NotADirectory,
    Directory(Vec<Entry>),
}

/// A [`Listing`] as text.
pub enum ListingView {
    NotFound,
    NotADirectory,
    Directory(Seq<Option<Seq<char>>>),
}

/// The entries of a sequence, each as text.
pub open spec fn entry_views(entries: Seq<Entry>) -> Seq<Option<Seq<char>>> {
    entries.map_values(|e: Entry| e@)
}

impl View for Listing {
    type V = ListingView;

    open spec fn view(&self) -> ListingView {
        match *self {
            Listing::NotFound => ListingView::NotFound,
            Listing::NotADirectory => ListingView::NotADirectory,
            Listing::Directory(entries) => ListingView::Directory(entry_views(entries@)),
        }
    }
}

/// The entry is a readable name with the extension.
pub open spec fn is_match(entry: Option<Seq<char>>, ext: Seq<char>) -> bool {
    entry matches Some(name) && has_extension(name, ext)
}

/// The test that selects the entries with the extension.
pub open spec fn selects(ext: Seq<char>) -> spec_fn(Option<Seq<char>>) -> bool {
    |entry: Option<Seq<char>>| is_match(entry, ext)
}

/// The item made for the file `name` of the input directory: named by the
/// stem, read from the input directory, and written to the output directory
/// under the same stem and the output extension.
pub open spec fn item_for(name: Seq<char>, layout: Layout) -> ItemView {
    ItemView {
        name: stem_of(name, layout.extension),
        input_path: joined(layout.input_dir, name),
        output_path: joined(
            layout.output_dir,
            file_name(stem_of(name, layout.extension), layout.output_extension),
        ),
    }
}

/// The step from a selected entry to its item.
pub open spec fn makes(layout: Layout) -> spec_fn(Option<Seq<char>>) -> ItemView {
    |entry: Option<Seq<char>>| item_for(entry.unwrap(), layout)
}

/// The items of a listing: one for each readable entry with the extension,
/// in listing order.
pub open spec fn discovered(entries: Seq<Option<Seq<char>>>, layout: Layout) -> Seq<ItemView> {
    entries.filter(selects(layout.extension)).map_values(makes(layout))
}

/// How many entries could not be read.
pub open spec fn unreadable(entries: Seq<Option<Seq<char>>>) -> nat {
    entries.filter(|entry: Option<Seq<char>>| entry is None).len()
}

/// No file name occurs twice among the readable entries, as in the listing
/// of a directory.
pub open spec fn names_distinct(entries: Seq<Option<Seq<char>>>) -> bool {
    forall|i: int, j: int|
        0 <= i < j < entries.len() && entries[i] is Some && entries[j] is Some ==> entries[i]
            != entries[j]
}

/// Two items have neither the name nor a path in common.
pub open spec fn differ(a: ItemView, b: ItemView) -> bool {
    &&& a.name != b.name
    &&& a.input_path != b.input_path
    &&& a.output_path != b.output_path
}

/// One more entry adds its item when it is selected, and nothing otherwise.
pub proof fn lemma_discovered_push(
    entries: Seq<Option<Seq<char>>>,
    entry: Option<Seq<char>>,
    layout: Layout,
)
    ensures
        is_match(entry, layout.extension) ==> discovered(entries.push(entry), layout)
            == discovered(entries, layout).push(item_for(entry.unwrap(), layout)),
        !is_match(entry, layout.extension) ==> discovered(entries.push(entry), layout)
            == discovered(entries, layout),
        entry is None ==> unreadable(entries.push(entry)) == unreadable(entries) + 1,
        entry is Some ==> unreadable(entries.push(entry)) == unreadable(entries),
{
    lemma_filter_push(entries, entry, selects(layout.extension));
    lemma_filter_push(entries, entry, |entry: Option<Seq<char>>| entry is None);
    if is_match(entry, layout.extension) {
        assert(discovered(entries.push(entry), layout) =~= discovered(entries, layout).push(
            item_for(entry.unwrap(), layout),
        ));
    }
}

/// Every item that discovery makes has a name and both paths.
pub proof fn lemma_discovered_wf(entries: Seq<Option<Seq<char>>>, layout: Layout, i: int)
    requires
        0 <= i < discovered(entries, layout).len(),
    ensures
        discovered(entries, layout)[i].wf(),
{
    let kept = entries.filter(selects(layout.extension));
    lemma_filter_member(entries, selects(layout.extension), i);
    let name = kept[i].unwrap();
    lemma_item_for_wf(name, layout);
}

/// The item of a name with the extension has a name and both paths.
pub proof fn lemma_item_for_wf(name: Seq<char>, layout: Layout)
    requires
        has_extension(name, layout.extension),
    ensures
        item_for(name, layout).wf(),
{
    lemma_stem_rebuilds(name, layout.extension);
    lemma_joined_ends_with_file(layout.input_dir, name);
    lemma_joined_ends_with_file(
        layout.output_dir,
        file_name(stem_of(name, layout.extension), layout.output_extension),
    );
}

/// A directory with N files that have the extension and M that do not
/// yields exactly N items.
pub proof fn lemma_discovery_count(entries: Seq<Option<Seq<char>>>, layout: Layout)
    ensures
        discovered(entries, layout).len() == entries.filter(selects(layout.extension)).len(),
        discovered(entries, layout).len() + entries.filter(
            |entry: Option<Seq<char>>| !selects(layout.extension)(entry),
        ).len() == entries.len(),
{
    lemma_filter_partition(entries, selects(layout.extension));
}

/// Where no file name is listed twice, no two items have the same name,
/// the same input path or the same output path.
pub proof fn lemma_discovery_names_unique(entries: Seq<Option<Seq<char>>>, layout: Layout)
    requires
        names_distinct(entries),
    ensures
        forall|i: int, j: int|
            0 <= i < j < discovered(entries, layout).len() ==> differ(
                #[trigger] discovered(entries, layout)[i],
                #[trigger] discovered(entries, layout)[j],
            ),
{
    let kept = entries.filter(selects(layout.extension));
    let items = discovered(entries, layout);
    assert forall|i: int, j: int| 0 <= i < j < items.len() implies differ(
        #[trigger] items[i],
        #[trigger] items[j],
    ) by {
        lemma_filter_origin(entries, selects(layout.extension), i, j);
        let (a, b) = choose|a: int, b: int|
            0 <= a < b < entries.len() && entries[a] == kept[i] && entries[b] == kept[j]
                && selects(layout.extension)(entries[a]) && selects(layout.extension)(entries[b]);
        let first = kept[i].unwrap();
        let second = kept[j].unwrap();
        assert(entries[a] != entries[b]);
        let first_stem = stem_of(first, layout.extension);
        let second_stem = stem_of(second, layout.extension);
        lemma_stem_rebuilds(first, layout.extension);
        lemma_stem_rebuilds(second, layout.extension);
        if first_stem == second_stem {
            lemma_stem_injective(first, second, layout.extension);
        }
        if items[i].input_path == items[j].input_path {
            lemma_joined_injective(layout.input_dir, first, second);
        }
        if items[i].output_path == items[j].output_path {
            lemma_joined_injective(
                layout.output_dir,
                file_name(first_stem, layout.output_extension),
                file_name(second_stem, layout.output_extension),
            );
            lemma_file_name_has_extension(first_stem, layout.output_extension);
            lemma_file_name_has_extension(second_stem, layout.output_extension);
        }
    }
}

impl Process {
    /// Makes the items of the run from what was found at the input path.
    ///
    /// A missing input directory and an input path that is no directory are
    /// errors that leave the run as it was. A directory yields one item for
    /// each readable entry with the extension, in listing order; these
    /// replace the items held before, the entries that could not be read
    /// are counted, and the number of items is returned.
    pub fn discover_items(&mut self, listing: &Listing) -> (r: Result<usize, ProcessError>)
        ensures
            listing@ is NotFound ==> (r matches Err(e) && e@ == ProcessErrorView::NotFound(
                old(self)@.input_dir,
            )),
            listing@ is NotADirectory ==> (r matches Err(e) && e@
                == ProcessErrorView::NotADirectory(old(self)@.input_dir)),
            !(listing@ is Directory) ==> *final(self) == *old(self),
            listing@ matches ListingView::Directory(entries) ==> (r matches Ok(n) && n
                == discovered(entries, old(self)@.layout()).len()),
            listing@ matches ListingView::Directory(entries) ==> final(self)@ == (ProcessView {
                items: discovered(entries, old(self)@.layout()),
                unreadable: unreadable(entries),
                listing: Some(entries),
                ..old(self)@
            }),
    {
        proof {
            self.lemma_view();
        }
        match listing {
            Listing::NotFound => Err(ProcessError::NotFound(self.input_dir.clone())),
            Listing::NotADirectory => Err(ProcessError::NotADirectory(self.input_dir.clone())),
            Listing::Directory(entries) => {
                let ghost all = entry_views(entries@);
                let ghost layout = self@.layout();
                let mut items: Vec<Item> = Vec::new();
                let mut skipped: usize = 0;
                let mut i: usize = 0;
                proof {
                    lemma_filter_empty(selects(layout.extension));
                    lemma_filter_empty(|entry: Option<Seq<char>>| entry is None);
                    assert(all.take(0) =~= Seq::empty());
                    assert(views(items@) =~= discovered(all.take(0), layout));
                }
                while i < entries.len()
                    invariant
                        0 <= i <= entries.len(),
                        all == entry_views(entries@),
                        layout == self@.layout(),
                        views(items@) == discovered(all.take(i as int), layout),
                        skipped == unreadable(all.take(i as int)),
                        skipped <= i,
                    decreases entries.len() - i,
                {
                    proof {
                        self.lemma_view();
                        assert(all.take(i + 1) =~= all.take(i as int).push(all[i as int]));
                        lemma_discovered_push(all.take(i as int), all[i as int], layout);
                    }
                    match &entries[i] {
                        Entry::Unreadable => {
                            skipped = skipped + 1;
                        },
                        Entry::Readable(name) => {
                            if let Some(item_name) = stem(name.as_str(), self.extension.as_str()) {
                                let input_path = join_path(self.input_dir.as_str(), name.as_str());
                                let out_name = with_extension(
                                    item_name.as_str(),
                                    self.output_extension.as_str(),
                                );
                                let output_path = join_path(
                                    self.output_dir.as_str(),
                                    out_name.as_str(),
                                );
                                proof {
                                    lemma_item_for_wf(name@, layout);
                                }
                                let item = Item::new(item_name, input_path, output_path).unwrap();
                                let ghost before = items@;
                                items.push(item);
                                assert(views(items@) =~= views(before).push(
                                    item_for(name@, layout),
                                ));
                            }
                        },
                    }
                    i = i + 1;
                }
                assert(all.take(i as int) =~= all);
                let n: usize = items.len();
                self.set_found(items, skipped, Ghost(all));
                Ok(n)
            },
        }
    }
}

} // verus!
