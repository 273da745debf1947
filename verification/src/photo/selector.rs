//! Picking a file at random from a tree of directories.
//!
//! One root is drawn from the list. From there the selection walks down: in
//! each directory it draws one entry, enters it where it is a directory, and
//! takes it where it is a file with one of the wanted extensions. Anything
//! else is a miss, after which the walk starts again from the same root. The
//! fifth miss ends the selection. What is found is always a file, never a
//! directory.
//!
//! The selection never reads a directory itself. Each [`Step`] either asks
//! for the listing of one directory or says how the selection ended; the
//! caller reads the directory and answers with [`Selector::step`].

use crate::photo::extension::{has_extension_in, matches_extension};
use crate::random::random_below;
use vstd::prelude::*;

verus! {

/// The walks that a selection makes before it gives up.
pub const MAX_ATTEMPTS: u32 = 5;

/// The directories below the root that a walk may enter, one inside the
/// other. A directory that lies deeper counts as a miss, so that a walk ends
/// even where a link leads back to a directory above it.
pub const MAX_DEPTH: u32 = 64;

/// One entry of a directory.
#[derive(Debug)]
pub struct DirEntry {
    /// The whole path of the entry.
    pub path: String,
    /// Its last part, which is what the extension is read from.
    pub file_name: String,
    pub is_dir: bool,
}

/// What reading a directory gave.
#[derive(Debug)]
pub enum Listing {
    Entries(Vec<DirEntry>),
    Unreadable,
}

/// A selection under way.
#[derive(Debug)]
pub struct Selector {
    /// The root that was drawn.
    pub root: String,
    /// The walks that have ended in a miss.
    pub misses: u32,
    /// The directories below the root that the present walk has entered: 0
    /// while the listing of the root is awaited.
    pub depth: u32,
}

/// What a selection asks for, or how it ended.
#[derive(Debug)]
pub enum Step {
    /// The listing of `directory` is wanted; `selector` takes the answer.
    List { directory: String, selector: Selector },
    /// A file with a wanted extension.
    Found { entry: DirEntry },
    /// The last walk has missed, or there was no root to start from.
    NotFound,
    /// The root could not be read.
    Unreadable,
}

impl Listing {
    /// The entry is one of the listing.
    pub open spec fn holds(self, entry: DirEntry) -> bool {
        self matches Listing::Entries(entries) && exists|i: int|
            0 <= i < entries@.len() && #[trigger] entries@[i] == entry
    }

    /// The draw chooses this entry: it stands at place `pick` of the
    /// listing.
    pub open spec fn draws(self, pick: int, entry: DirEntry) -> bool {
        self matches Listing::Entries(entries) && 0 <= pick < entries@.len() && entries@[pick]
            == entry
    }

    /// The draw is one that this listing allows: the place of one of its
    /// entries, and 0 where it has none.
    pub open spec fn admits(self, pick: int) -> bool {
        match self {
            Listing::Entries(entries) => if entries@.len() > 0 {
                0 <= pick < entries@.len()
            } else {
                pick == 0
            },
            Listing::Unreadable => pick == 0,
        }
    }
}

impl Selector {
    /// A selection under way has walks left and is no deeper than a walk
    /// may go.
    pub open spec fn well_formed(self) -> bool {
        &&& self.misses < MAX_ATTEMPTS
        &&& self.depth <= MAX_DEPTH
    }

    /// The listings that the selection can still ask for, the awaited one
    /// included: what is left of the present walk, and all of the walks
    /// after it.
    pub open spec fn listings_left(self) -> int {
        (MAX_ATTEMPTS - self.misses) * (MAX_DEPTH + 1) - self.depth
    }

    /// How a selection starts when `pick` is the place of the root drawn.
    pub open spec fn begin(roots: Seq<String>, pick: int) -> Step {
        if roots.len() == 0 {
            Step::NotFound
        } else {
            Step::List {
                directory: roots[pick],
                selector: Selector { root: roots[pick], misses: 0, depth: 0 },
            }
        }
    }

    /// After a miss: the end, if that was the last walk, else a new walk from
    /// the root.
    pub open spec fn missed(self) -> Step {
        if self.misses + 1 >= MAX_ATTEMPTS {
            Step::NotFound
        } else {
            Step::List {
                directory: self.root,
                selector: Selector {
                    root: self.root,
                    misses: (self.misses + 1) as u32,
                    depth: 0,
                },
            }
        }
    }

    /// A file that was drawn: found if its name has a wanted extension, else
    /// a miss.
    pub open spec fn judged(self, entry: DirEntry, extensions: Seq<String>) -> Step {
        if has_extension_in(entry.file_name@, extensions) {
            Step::Found { entry }
        } else {
            self.missed()
        }
    }

    /// The step that follows a listing when `pick` is the place of the entry
    /// drawn.
    ///
    /// A root that cannot be read ends the selection. Below the root, a
    /// directory that cannot be read is a miss, and so are an empty
    /// directory and a directory below the deepest that a walk may enter.
    pub open spec fn next(self, listing: Listing, extensions: Seq<String>, pick: int) -> Step {
        match listing {
            Listing::Unreadable => if self.depth == 0 {
                Step::Unreadable
            } else {
                self.missed()
            },
            Listing::Entries(entries) => if entries@.len() == 0 {
                self.missed()
            } else if !entries@[pick].is_dir {
                self.judged(entries@[pick], extensions)
            } else if self.depth < MAX_DEPTH {
                Step::List {
                    directory: entries@[pick].path,
                    selector: Selector {
                        root: self.root,
                        misses: self.misses,
                        depth: (self.depth + 1) as u32,
                    },
                }
            } else {
                self.missed()
            },
        }
    }

    /// Starts a selection from the root at place `pick`.
    pub fn start_at(roots: &Vec<String>, pick: usize) -> (out: Step)
        requires
            roots@.len() > 0 ==> pick < roots@.len(),
        ensures
            out == Selector::begin(roots@, pick as int),
    {
        if roots.len() == 0 {
            return Step::NotFound;
        }
        let root = roots[pick].clone();
        let directory = roots[pick].clone();
        Step::List { directory, selector: Selector { root, misses: 0, depth: 0 } }
    }

    /// Starts a selection from a root drawn at random. Without roots there
    /// is nothing to find.
    pub fn start(roots: &Vec<String>) -> (out: Step)
        ensures
            roots@.len() == 0 ==> out == Step::NotFound,
            roots@.len() > 0 ==> exists|pick: int|
                0 <= pick < roots@.len() && out == Selector::begin(roots@, pick),
    {
        if roots.len() == 0 {
            return Step::NotFound;
        }
        let pick: usize = random_below(roots.len() as u64) as usize;
        Selector::start_at(roots, pick)
    }

    fn miss(self) -> (out: Step)
        ensures
            out == self.missed(),
    {
        if self.misses >= MAX_ATTEMPTS - 1 {
            Step::NotFound
        } else {
            let directory = self.root.clone();
            Step::List {
                directory,
                selector: Selector { root: self.root, misses: self.misses + 1, depth: 0 },
            }
        }
    }

    fn judge(self, entry: DirEntry, extensions: &Vec<String>) -> (out: Step)
        ensures
            out == self.judged(entry, extensions@),
    {
        if matches_extension(entry.file_name.as_str(), extensions) {
            Step::Found { entry }
        } else {
            self.miss()
        }
    }

    /// Takes the listing of the directory that was asked for, with `pick` as
    /// the place of the entry to draw from it.
    pub fn step_with(self, listing: Listing, extensions: &Vec<String>, pick: usize) -> (out: Step)
        requires
            listing.admits(pick as int),
        ensures
            out == self.next(listing, extensions@, pick as int),
            out matches Step::Found { entry } ==> listing.holds(entry) && !entry.is_dir
                && has_extension_in(entry.file_name@, extensions@),
    {
        match listing {
            Listing::Unreadable => {
                if self.depth == 0 {
                    Step::Unreadable
                } else {
                    self.miss()
                }
            },
            Listing::Entries(entries) => {
                let mut entries = entries;
                if entries.len() == 0 {
                    return self.miss();
                }
                let entry = entries.swap_remove(pick);
                if !entry.is_dir {
                    self.judge(entry, extensions)
                } else if self.depth < MAX_DEPTH {
                    let directory = entry.path.clone();
                    Step::List {
                        directory,
                        selector: Selector {
                            root: self.root,
                            misses: self.misses,
                            depth: self.depth + 1,
                        },
                    }
                } else {
                    self.miss()
                }
            },
        }
    }

    /// Takes the listing of the directory that was asked for and draws one
    /// of its entries at random.
    pub fn step(self, listing: Listing, extensions: &Vec<String>) -> (out: Step)
        ensures
            exists|pick: int|
                listing.admits(pick) && out == self.next(listing, extensions@, pick),
            out matches Step::Found { entry } ==> listing.holds(entry) && !entry.is_dir
                && has_extension_in(entry.file_name@, extensions@),
    {
        let count: usize = match &listing {
            Listing::Entries(entries) => entries.len(),
            Listing::Unreadable => 0,
        };
        let pick: usize = if count > 0 {
            random_below(count as u64) as usize
        } else {
            0
        };
        let out = self.step_with(listing, extensions, pick);
        assert(listing.admits(pick as int) && out == self.next(listing, extensions@, pick as int));
        out
    }
}

/// A selection carried on against a file system: `files` gives the listing
/// of each directory, and `picks` the draws, one for each listing that is
/// asked for. The result is the step that is reached when the selection has
/// ended or the draws are used up.
pub open spec fn run(
    files: spec_fn(String) -> Listing,
    step: Step,
    extensions: Seq<String>,
    picks: Seq<int>,
) -> Step
    decreases picks.len(),
{
    match step {
        Step::List { directory, selector } => if picks.len() == 0 {
            step
        } else {
            run(
                files,
                selector.next(files(directory), extensions, picks[0]),
                extensions,
                picks.skip(1),
            )
        },
        _ => step,
    }
}

/// Each draw is one that the listing it meets allows.
pub open spec fn draws_fit(
    files: spec_fn(String) -> Listing,
    step: Step,
    extensions: Seq<String>,
    picks: Seq<int>,
) -> bool
    decreases picks.len(),
{
    match step {
        Step::List { directory, selector } => picks.len() > 0 ==> files(directory).admits(
            picks[0],
        ) && draws_fit(
            files,
            selector.next(files(directory), extensions, picks[0]),
            extensions,
            picks.skip(1),
        ),
        _ => true,
    }
}

/// `inside` is a set of directories that no walk leaves: every directory
/// listed in one of them is in the set too. `wanted` holds of every file
/// with a wanted extension that is listed in one of them.
pub open spec fn encloses(
    files: spec_fn(String) -> Listing,
    extensions: Seq<String>,
    inside: spec_fn(String) -> bool,
    wanted: spec_fn(DirEntry) -> bool,
) -> bool {
    forall|directory: String, entry: DirEntry|
        inside(directory) && #[trigger] files(directory).holds(entry) ==> {
            &&& entry.is_dir ==> inside(entry.path)
            &&& !entry.is_dir && has_extension_in(entry.file_name@, extensions) ==> wanted(entry)
        }
}

/// One step follows the draw and nothing else. A file is found exactly when
/// the draw chose a file with a wanted extension, and it is that file. The
/// walk goes one directory deeper exactly when the draw chose a directory
/// that the walk may still enter, and it is that directory that is asked
/// for next. Everything else is a miss, or the end at a root that cannot be
/// read.
pub proof fn lemma_step_follows_the_draw(
    selector: Selector,
    listing: Listing,
    extensions: Seq<String>,
    pick: int,
)
    requires
        listing.admits(pick),
        selector.well_formed(),
    ensures
        selector.next(listing, extensions, pick) matches Step::Found { entry } <==> (
        listing matches Listing::Entries(entries) && entries@.len() > 0 && !entries@[pick].is_dir
            && has_extension_in(entries@[pick].file_name@, extensions)),
        selector.next(listing, extensions, pick) matches Step::Found { entry } ==> listing.holds(
            entry,
        ) && listing->Entries_0@[pick] == entry && !entry.is_dir,
        (selector.next(listing, extensions, pick) matches Step::List { selector: after, .. }
            && after.depth == selector.depth + 1) <==> (listing matches Listing::Entries(entries)
            && entries@.len() > 0 && entries@[pick].is_dir && selector.depth < MAX_DEPTH),
        selector.next(listing, extensions, pick) matches Step::List { directory, selector: after }
            ==> (if after.depth == selector.depth + 1 {
            after.misses == selector.misses && listing.holds(listing->Entries_0@[pick])
                && directory == listing->Entries_0@[pick].path
        } else {
            after.misses == selector.misses + 1 && after.depth == 0 && directory == selector.root
        }),
        selector.next(listing, extensions, pick) is Unreadable <==> listing is Unreadable
            && selector.depth == 0,
        selector.next(listing, extensions, pick) matches Step::List { selector: after, .. }
            ==> after.root == selector.root && after.well_formed(),
{
    match listing {
        Listing::Entries(entries) => {
            if entries@.len() > 0 {
                assert(listing.holds(entries@[pick]));
            }
        },
        Listing::Unreadable => {},
    }
}

/// A selection never leaves the tree that it started in, and never finds
/// anything but a file of that tree with a wanted extension. Where the tree
/// holds one such file only, the selection ends with that file or with
/// nothing, whatever is drawn.
pub proof fn lemma_run_stays_inside(
    files: spec_fn(String) -> Listing,
    inside: spec_fn(String) -> bool,
    wanted: spec_fn(DirEntry) -> bool,
    step: Step,
    extensions: Seq<String>,
    picks: Seq<int>,
)
    requires
        encloses(files, extensions, inside, wanted),
        draws_fit(files, step, extensions, picks),
        step matches Step::List { directory, selector } ==> inside(directory) && inside(
            selector.root,
        ) && selector.well_formed() && (selector.depth == 0 ==> directory == selector.root),
        step matches Step::Found { entry } ==> wanted(entry) && !entry.is_dir,
        !(step is Unreadable),
    ensures
        run(files, step, extensions, picks) matches Step::Found { entry } ==> wanted(entry)
            && !entry.is_dir,
        run(files, step, extensions, picks) matches Step::List { directory, selector }
            ==> inside(directory) && inside(selector.root) && selector.well_formed() && (
        selector.depth == 0 ==> directory == selector.root),
        run(files, step, extensions, picks) is Unreadable ==> (step matches Step::List {
            selector,
            ..
        } && files(selector.root) is Unreadable),
    decreases picks.len(),
{
    if let Step::List { directory, selector } = step {
        if picks.len() > 0 {
            let listing = files(directory);
            let after = selector.next(listing, extensions, picks[0]);
            lemma_step_follows_the_draw(selector, listing, extensions, picks[0]);
            if after is Unreadable {
            } else {
                lemma_run_stays_inside(files, inside, wanted, after, extensions, picks.skip(1));
            }
        }
    }
}

/// With as many draws as a selection can have listings, the selection has
/// ended when the draws are used up.
pub proof fn lemma_run_ends(
    files: spec_fn(String) -> Listing,
    step: Step,
    extensions: Seq<String>,
    picks: Seq<int>,
)
    requires
        step matches Step::List { selector, .. } ==> selector.well_formed() && picks.len()
            >= selector.listings_left(),
    ensures
        !(run(files, step, extensions, picks) is List),
    decreases picks.len(),
{
    if let Step::List { directory, selector } = step {
        let after = selector.next(files(directory), extensions, picks[0]);
        lemma_selection_ends(selector, files(directory), extensions, picks[0]);
        lemma_selection_stays_well_formed(
            selector,
            files(directory),
            extensions,
            picks[0],
            Seq::empty(),
        );
        lemma_run_ends(files, after, extensions, picks.skip(1));
    }
}

/// One file or nothing: in a tree whose root can be read and which holds
/// one file only with a wanted extension, a selection that has draws enough
/// ends with that file or with nothing found, whatever is drawn and however
/// many other files and directories the tree holds.
pub proof fn lemma_one_file_or_nothing(
    files: spec_fn(String) -> Listing,
    inside: spec_fn(String) -> bool,
    target: DirEntry,
    roots: Seq<String>,
    root_pick: int,
    extensions: Seq<String>,
    picks: Seq<int>,
)
    requires
        0 <= root_pick < roots.len(),
        inside(roots[root_pick]),
        !(files(roots[root_pick]) is Unreadable),
        encloses(files, extensions, inside, |entry: DirEntry| entry == target),
        draws_fit(files, Selector::begin(roots, root_pick), extensions, picks),
        picks.len() >= MAX_ATTEMPTS * (MAX_DEPTH + 1),
    ensures
        run(files, Selector::begin(roots, root_pick), extensions, picks) == (Step::Found {
            entry: target,
        }) || run(files, Selector::begin(roots, root_pick), extensions, picks) == Step::NotFound,
{
    let first = Selector::begin(roots, root_pick);
    let wanted = |entry: DirEntry| entry == target;
    lemma_run_stays_inside(files, inside, wanted, first, extensions, picks);
    lemma_run_ends(files, first, extensions, picks);
    let end = run(files, first, extensions, picks);
    if let Step::Found { entry } = end {
        assert(wanted(entry));
    }
}

/// Three levels down: where the draws choose, one after the other, three
/// directories that lie one inside the other and then a file with a wanted
/// extension, the selection that starts at the root ends with that file at
/// the fourth listing.
pub proof fn lemma_three_levels_down(
    files: spec_fn(String) -> Listing,
    roots: Seq<String>,
    root_pick: int,
    extensions: Seq<String>,
    picks: Seq<int>,
    first: DirEntry,
    second: DirEntry,
    third: DirEntry,
    target: DirEntry,
)
    requires
        0 <= root_pick < roots.len(),
        picks.len() >= 4,
        files(roots[root_pick]).draws(picks[0], first),
        first.is_dir,
        files(first.path).draws(picks[1], second),
        second.is_dir,
        files(second.path).draws(picks[2], third),
        third.is_dir,
        files(third.path).draws(picks[3], target),
        !target.is_dir,
        has_extension_in(target.file_name@, extensions),
    ensures
        run(files, Selector::begin(roots, root_pick), extensions, picks) == (Step::Found {
            entry: target,
        }),
{
    reveal_with_fuel(run, 6);
    assert(picks.skip(1)[0] == picks[1]);
    assert(picks.skip(1).skip(1)[0] == picks[2]);
    assert(picks.skip(1).skip(1).skip(1)[0] == picks[3]);
}

/// Only files are found: whatever is listed and drawn, what a step finds is
/// an entry of the listing that is no directory and has a wanted extension.
pub proof fn lemma_only_files_are_found(
    selector: Selector,
    listing: Listing,
    extensions: Seq<String>,
    pick: int,
)
    requires
        listing.admits(pick),
    ensures
        selector.next(listing, extensions, pick) matches Step::Found { entry } ==> listing.holds(
            entry,
        ) && !entry.is_dir && has_extension_in(entry.file_name@, extensions),
{
    match listing {
        Listing::Entries(entries) => {
            if entries@.len() > 0 {
                assert(listing.holds(entries@[pick]));
            }
        },
        Listing::Unreadable => {},
    }
}

/// A selection ends: each listing leaves fewer to ask for, and no selection
/// asks for more than [`MAX_ATTEMPTS`] walks of `MAX_DEPTH + 1` listings.
pub proof fn lemma_selection_ends(
    selector: Selector,
    listing: Listing,
    extensions: Seq<String>,
    pick: int,
)
    requires
        selector.well_formed(),
    ensures
        0 < selector.listings_left() <= MAX_ATTEMPTS * (MAX_DEPTH + 1),
        selector.next(listing, extensions, pick) matches Step::List { selector: after, .. }
            ==> after.listings_left() < selector.listings_left(),
{
}

/// A selection starts well formed and stays so: whatever is listed and
/// drawn, it never makes more walks than it may, and never goes deeper.
pub proof fn lemma_selection_stays_well_formed(
    selector: Selector,
    listing: Listing,
    extensions: Seq<String>,
    pick: int,
    roots: Seq<String>,
)
    requires
        selector.well_formed(),
    ensures
        selector.next(listing, extensions, pick) matches Step::List { selector: after, .. }
            ==> after.well_formed() && after.root == selector.root && after.misses
            >= selector.misses,
        Selector::begin(roots, pick) matches Step::List { selector: first, .. }
            ==> first.well_formed(),
{
}

} // verus!
