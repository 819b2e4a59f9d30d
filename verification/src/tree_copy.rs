//! Copying a directory tree into another directory, as `gib install` does
//! with the files a package ships. The walk is depth-first with an explicit
//! stack; the file system work (creating directories, listing them, copying
//! files) is done by the caller, which reports what it found.

use vstd::prelude::*;

verus! {

/// `Path::new(path).components().count()`.
pub uninterp spec fn component_count(path: Seq<char>) -> nat;

/// The path made of the components of `path` after the first `n`:
/// `Path::new(path).components().skip(n).collect::<PathBuf>()`.
pub uninterp spec fn skip_components(path: Seq<char>, n: nat) -> Seq<char>;

/// `Path::new(base).join(rest)`.
pub uninterp spec fn join_path(base: Seq<char>, rest: Seq<char>) -> Seq<char>;

/// `std::path::Path::components` followed by counting them.
///
/// Trusted: the result is the named count for the text.
#[verifier::external_body]
fn path_component_count(path: &str) -> (r: usize)
    ensures
        r as nat == component_count(path@),
{
    std::path::Path::new(path).components().count()
}

/// `std::path::Path::components`, skipping the first `n`, collected into a
/// `PathBuf` (turned into text with `to_string_lossy`).
///
/// Trusted: the result is the named path for the text and `n`.
#[verifier::external_body]
fn path_skip_components(path: &str, n: usize) -> (r: String)
    ensures
        r@ == skip_components(path@, n as nat),
{
    let rest: std::path::PathBuf = std::path::Path::new(path).components().skip(n).collect();
    rest.to_string_lossy().into_owned()
}

/// `std::path::Path::join` (turned into text with `to_string_lossy`).
///
/// Trusted: the result is the named path for the two texts.
#[verifier::external_body]
fn path_join(base: &str, rest: &str) -> (r: String)
    ensures
        r@ == join_path(base@, rest@),
{
    std::path::Path::new(base).join(rest).to_string_lossy().into_owned()
}

/// Where the directory `working` of the tree rooted at a path with
/// `input_root` components goes under `output_root`: the root itself for
/// the tree's root, and otherwise the root joined with the relative path.
pub open spec fn destination(output_root: Seq<char>, input_root: nat, working: Seq<char>) -> Seq<char> {
    let relative = skip_components(working, input_root);
    if component_count(relative) == 0 {
        output_root
    } else {
        join_path(output_root, relative)
    }
}

/// A member of a listed directory.
pub struct ListedEntry {
    pub path: String,
    pub is_dir: bool,
    /// The last component of `path`, where it has one.
    pub file_name: Option<String>,
}

/// A file to copy.
pub struct FileCopy {
    pub from: String,
    pub to: String,
}

/// The walk's state.
pub struct CopyWalk {
    /// Directories still to visit; the last one is visited next.
    pub stack: Vec<String>,
    pub output_root: String,
    /// The number of components of the tree's root.
    pub input_root: usize,
}

/// What the walk asks the caller to do next.
pub enum CopyAction {
    /// Create `dest` (with its parents) where nothing exists there yet, then
    /// list the directory `working`.
    Visit { working: String, dest: String },
    /// Every directory was visited.
    Done,
}

impl CopyWalk {
    /// The stack as texts.
    pub open spec fn pending(&self) -> Seq<Seq<char>> {
        self.stack@.map_values(|s: String| s@)
    }

    /// Starts copying the tree at `from` into `to`.
    pub fn new(from: &str, to: &str) -> (r: CopyWalk)
        ensures
            r.pending() == seq![from@],
            r.output_root@ == to@,
            r.input_root as nat == component_count(from@),
    {
        let mut stack = Vec::new();
        stack.push(String::from_str(from));
        let r = CopyWalk { stack, output_root: String::from_str(to), input_root: path_component_count(from) };
        assert(r.pending() =~= seq![from@]);
        r
    }

    /// Takes the next directory off the stack, and says where it goes.
    pub fn next(&mut self) -> (r: CopyAction)
        ensures
            final(self).output_root == old(self).output_root,
            final(self).input_root == old(self).input_root,
            old(self).stack.len() == 0 ==> r is Done && final(self).pending() == old(self).pending(),
            old(self).stack.len() > 0 ==> {
                &&& final(self).pending() == old(self).pending().drop_last()
                &&& r matches CopyAction::Visit { working, dest }
                &&& working@ == old(self).pending().last()
                &&& dest@ == destination(old(self).output_root@, old(self).input_root as nat, working@)
            },
    {
        match self.stack.pop() {
            None => CopyAction::Done,
            Some(working) => {
                proof {
                    assert(self.pending() =~= old(self).pending().drop_last());
                }
                let relative = path_skip_components(working.as_str(), self.input_root);
                let dest = if path_component_count(relative.as_str()) == 0 {
                    self.output_root.clone()
                } else {
                    path_join(self.output_root.as_str(), relative.as_str())
                };
                CopyAction::Visit { working, dest }
            },
        }
    }

    /// Records the listing of a visited directory whose destination is
    /// `dest`: its subdirectories go on the stack in listing order, and each
    /// file with a name is copied to `dest` joined with that name.
    pub fn visit(&mut self, dest: &str, entries: Vec<ListedEntry>) -> (r: (Vec<FileCopy>, Vec<String>))
        ensures
            final(self).output_root == old(self).output_root,
            final(self).input_root == old(self).input_root,
            final(self).pending() == old(self).pending() + subdirs_of(entries@),
            copies_text(r.0@) == copies_of(dest@, entries@),
            strings_text(r.1@) == skipped_of(entries@),
            copies_text(r.0@) == entries@.filter_map(
                (|e: ListedEntry|
                    if !e.is_dir && e.file_name is Some {
                        Some((e.path@, join_path(dest@, e.file_name.unwrap()@)))
                    } else {
                        None
                    }),
            ),
            forall|i: int|
                0 <= i < entries@.len() && !entries@[i].is_dir && entries@[i].file_name is Some ==> copies_text(
                    r.0@,
                ).contains((entries@[i].path@, join_path(dest@, entries@[i].file_name.unwrap()@))),
            strings_text(r.1@) == entries@.filter_map(
                (|e: ListedEntry| if !e.is_dir && e.file_name is None { Some(e.path@) } else { None }),
            ),
    {
        let mut copies: Vec<FileCopy> = Vec::new();
        let mut skipped: Vec<String> = Vec::new();
        let n = entries.len();
        let mut i: usize = 0;
        while i < n
            invariant
                n == entries@.len(),
                i <= n,
                self.output_root == old(self).output_root,
                self.input_root == old(self).input_root,
                self.pending() == old(self).pending() + subdirs_of(entries@.take(i as int)),
                copies_text(copies@) == copies_of(dest@, entries@.take(i as int)),
                strings_text(skipped@) == skipped_of(entries@.take(i as int)),
            decreases n - i,
        {
            let entry = &entries[i];
            let ghost before = self.pending();
            proof {
                assert(entries@.take(i + 1).drop_last() =~= entries@.take(i as int));
                assert(entries@.take(i + 1).last() == entries@[i as int]);
            }
            if entry.is_dir {
                self.stack.push(entry.path.clone());
                proof {
                    assert(self.pending() =~= before.push(entry.path@));
                    assert(self.pending() =~= old(self).pending() + subdirs_of(entries@.take(i + 1)));
                    assert(copies_text(copies@) =~= copies_of(dest@, entries@.take(i + 1)));
                    assert(strings_text(skipped@) =~= skipped_of(entries@.take(i + 1)));
                }
            } else {
                match &entry.file_name {
                    Some(name) => {
                        let to = path_join(dest, name.as_str());
                        copies.push(FileCopy { from: entry.path.clone(), to });
                    },
                    None => {
                        skipped.push(entry.path.clone());
                    },
                }
                proof {
                    assert(self.pending() =~= old(self).pending() + subdirs_of(entries@.take(i + 1)));
                    assert(copies_text(copies@) =~= copies_of(dest@, entries@.take(i + 1)));
                    assert(strings_text(skipped@) =~= skipped_of(entries@.take(i + 1)));
                }
            }
            i = i + 1;
        }
        proof {
            assert(entries@.take(n as int) =~= entries@);
            law_listing_is_fully_handled(dest@, entries@);
        }
        (copies, skipped)
    }
}

/// The subdirectories of a listing, in order.
pub open spec fn subdirs_of(entries: Seq<ListedEntry>) -> Seq<Seq<char>>
    decreases entries.len(),
{
    if entries.len() == 0 {
        Seq::empty()
    } else {
        let rest = subdirs_of(entries.drop_last());
        if entries.last().is_dir { rest.push(entries.last().path@) } else { rest }
    }
}

/// The file copies a listing asks for, in order: each file with a name
/// goes to `dest` joined with that name.
pub open spec fn copies_of(dest: Seq<char>, entries: Seq<ListedEntry>) -> Seq<(Seq<char>, Seq<char>)>
    decreases entries.len(),
{
    if entries.len() == 0 {
        Seq::empty()
    } else {
        let rest = copies_of(dest, entries.drop_last());
        let e = entries.last();
        if e.is_dir {
            rest
        } else {
            match e.file_name {
                Some(name) => rest.push((e.path@, join_path(dest, name@))),
                None => rest,
            }
        }
    }
}

/// The files of a listing that have no name, in order.
pub open spec fn skipped_of(entries: Seq<ListedEntry>) -> Seq<Seq<char>>
    decreases entries.len(),
{
    if entries.len() == 0 {
        Seq::empty()
    } else {
        let rest = skipped_of(entries.drop_last());
        let e = entries.last();
        if !e.is_dir && e.file_name is None { rest.push(e.path@) } else { rest }
    }
}

/// File copies as texts.
pub open spec fn copies_text(copies: Seq<FileCopy>) -> Seq<(Seq<char>, Seq<char>)> {
    copies.map_values(|c: FileCopy| (c.from@, c.to@))
}

/// Strings as texts.
pub open spec fn strings_text(s: Seq<String>) -> Seq<Seq<char>> {
    s.map_values(|x: String| x@)
}

/// The directories a walk visits, in order, when its stack holds `pending`
/// and the directories it visits list, one after another, as `listings`:
/// each step takes the last pending directory and pushes the
/// subdirectories of its listing. The walk stops when the stack is empty
/// (or the listings run out).
pub open spec fn walk_visits(pending: Seq<Seq<char>>, listings: Seq<Seq<ListedEntry>>) -> Seq<Seq<char>>
    decreases listings.len(),
{
    if listings.len() == 0 || pending.len() == 0 {
        Seq::empty()
    } else {
        seq![pending.last()] + walk_visits(pending.drop_last() + subdirs_of(listings[0]), listings.drop_first())
    }
}

/// What is still on the stack when the walk of `walk_visits` stops.
pub open spec fn walk_left(pending: Seq<Seq<char>>, listings: Seq<Seq<ListedEntry>>) -> Seq<Seq<char>>
    decreases listings.len(),
{
    if listings.len() == 0 || pending.len() == 0 {
        pending
    } else {
        walk_left(pending.drop_last() + subdirs_of(listings[0]), listings.drop_first())
    }
}

/// Every subdirectory the walk of `walk_visits` puts on its stack, in order.
pub open spec fn walk_pushed(pending: Seq<Seq<char>>, listings: Seq<Seq<ListedEntry>>) -> Seq<Seq<char>>
    decreases listings.len(),
{
    if listings.len() == 0 || pending.len() == 0 {
        Seq::empty()
    } else {
        subdirs_of(listings[0]) + walk_pushed(pending.drop_last() + subdirs_of(listings[0]), listings.drop_first())
    }
}

/// Law: the walk loses no directory and visits none twice. Counting with
/// multiplicity, what it visited and what is still pending are exactly what
/// was pending at the start and every subdirectory it was given. So once the
/// stack is empty, every directory it started with or found in a listing has
/// been visited exactly once for each time it was put on the stack.
pub proof fn law_walk_visits_each_directory_once(pending: Seq<Seq<char>>, listings: Seq<Seq<ListedEntry>>)
    ensures
        walk_visits(pending, listings).to_multiset().add(walk_left(pending, listings).to_multiset())
            =~= pending.to_multiset().add(walk_pushed(pending, listings).to_multiset()),
        walk_left(pending, listings).len() == 0 ==> walk_visits(pending, listings).to_multiset()
            =~= pending.to_multiset().add(walk_pushed(pending, listings).to_multiset()),
    decreases listings.len(),
{
    broadcast use vstd::multiset::group_multiset_axioms;

    if listings.len() == 0 || pending.len() == 0 {
    } else {
        let x = pending.last();
        let before = pending.drop_last();
        let subdirs = subdirs_of(listings[0]);
        let next = before + subdirs;
        let rest = listings.drop_first();
        let v = walk_visits(next, rest);
        let l = walk_left(next, rest);
        let p = walk_pushed(next, rest);
        law_walk_visits_each_directory_once(next, rest);
        vstd::seq_lib::lemma_multiset_commutative(seq![x], v);
        vstd::seq_lib::lemma_multiset_commutative(before, subdirs);
        vstd::seq_lib::lemma_multiset_commutative(subdirs, p);
        vstd::seq_lib::lemma_multiset_commutative(before, seq![x]);
        assert(pending =~= before + seq![x]);
        assert(walk_visits(pending, listings) == seq![x] + v);
        assert(walk_left(pending, listings) == l);
        assert(walk_pushed(pending, listings) == subdirs + p);
        assert forall|d: Seq<char>|
            #[trigger] walk_visits(pending, listings).to_multiset().add(walk_left(pending, listings).to_multiset()).count(d)
                == pending.to_multiset().add(walk_pushed(pending, listings).to_multiset()).count(d) by {
            assert(v.to_multiset().add(l.to_multiset()).count(d) == next.to_multiset().add(p.to_multiset()).count(d));
        }
    }
    if walk_left(pending, listings).len() == 0 {
        vstd::seq_lib::to_multiset_len(walk_left(pending, listings));
        assert(walk_left(pending, listings).to_multiset() =~= vstd::multiset::Multiset::empty());
    }
}

/// What the walk does, visit by visit, when its stack holds `pending`, it
/// copies into `output_root` a tree whose root has `input_root` components,
/// and the directories it visits list, one after another, as `listings`:
/// for each visit, the directory, where it goes, and the file copies its
/// listing asks for.
pub open spec fn walk_steps(
    pending: Seq<Seq<char>>,
    output_root: Seq<char>,
    input_root: nat,
    listings: Seq<Seq<ListedEntry>>,
) -> Seq<(Seq<char>, Seq<char>, Seq<(Seq<char>, Seq<char>)>)>
    decreases listings.len(),
{
    if listings.len() == 0 || pending.len() == 0 {
        Seq::empty()
    } else {
        let working = pending.last();
        let dest = destination(output_root, input_root, working);
        seq![(working, dest, copies_of(dest, listings[0]))] + walk_steps(
            pending.drop_last() + subdirs_of(listings[0]),
            output_root,
            input_root,
            listings.drop_first(),
        )
    }
}

/// One visit as the caller sees it through `next` and then `visit`: the walk
/// `w` hands out its last pending directory and where it goes (`step.0` and
/// `step.1`), the directory lists as `entries`, the listing asks for the
/// copies `step.2`, and the walk becomes `w2`.
pub open spec fn walk_step_taken(
    w: CopyWalk,
    entries: Seq<ListedEntry>,
    step: (Seq<char>, Seq<char>, Seq<(Seq<char>, Seq<char>)>),
    w2: CopyWalk,
) -> bool {
    &&& w.pending().len() > 0
    &&& step.0 == w.pending().last()
    &&& step.1 == destination(w.output_root@, w.input_root as nat, step.0)
    &&& step.2 == copies_of(step.1, entries)
    &&& w2.pending() == w.pending().drop_last() + subdirs_of(entries)
    &&& w2.output_root == w.output_root
    &&& w2.input_root == w.input_root
}

/// A walk driven through `listings.len()` visits: `walks[i]` takes visit
/// `steps[i]` with listing `listings[i]` and becomes `walks[i + 1]`.
pub open spec fn copy_walk_run(
    walks: Seq<CopyWalk>,
    listings: Seq<Seq<ListedEntry>>,
    steps: Seq<(Seq<char>, Seq<char>, Seq<(Seq<char>, Seq<char>)>)>,
) -> bool {
    &&& walks.len() == listings.len() + 1
    &&& steps.len() == listings.len()
    &&& forall|i: int| 0 <= i < listings.len() ==> #[trigger] walk_step_taken(walks[i], listings[i], steps[i], walks[i + 1])
}

/// The visit at index `i` of a walk run.
proof fn lemma_walk_run_step(
    walks: Seq<CopyWalk>,
    listings: Seq<Seq<ListedEntry>>,
    steps: Seq<(Seq<char>, Seq<char>, Seq<(Seq<char>, Seq<char>)>)>,
    i: int,
)
    requires
        copy_walk_run(walks, listings, steps),
        0 <= i < listings.len(),
    ensures
        walk_step_taken(walks[i], listings[i], steps[i], walks[i + 1]),
{
}

/// Law: a walk is determined by where it starts and what its directories
/// list. Every run is `walk_steps` of its start and listings, and what it
/// leaves pending is `walk_left`.
pub proof fn law_copy_walk_is_determined(
    walks: Seq<CopyWalk>,
    listings: Seq<Seq<ListedEntry>>,
    steps: Seq<(Seq<char>, Seq<char>, Seq<(Seq<char>, Seq<char>)>)>,
)
    requires
        copy_walk_run(walks, listings, steps),
    ensures
        steps == walk_steps(walks[0].pending(), walks[0].output_root@, walks[0].input_root as nat, listings),
        walks[listings.len() as int].pending() == walk_left(walks[0].pending(), listings),
        walks[listings.len() as int].output_root == walks[0].output_root,
        walks[listings.len() as int].input_root == walks[0].input_root,
    decreases listings.len(),
{
    if listings.len() > 0 {
        lemma_walk_run_step(walks, listings, steps, 0);
        let sub_walks = walks.drop_first();
        let sub_listings = listings.drop_first();
        let sub_steps = steps.drop_first();
        assert forall|i: int| 0 <= i < sub_listings.len() implies #[trigger] walk_step_taken(
            sub_walks[i],
            sub_listings[i],
            sub_steps[i],
            sub_walks[i + 1],
        ) by {
            lemma_walk_run_step(walks, listings, steps, i + 1);
            assert(sub_walks[i] == walks[i + 1]);
            assert(sub_walks[i + 1] == walks[i + 2]);
        }
        law_copy_walk_is_determined(sub_walks, sub_listings, sub_steps);
        assert(sub_walks[0] == walks[1]);
        assert(sub_walks[sub_listings.len() as int] == walks[listings.len() as int]);
        assert(steps =~= seq![steps[0]] + sub_steps);
    }
}

/// Law: copying the same tree to the same place again asks for the same
/// work. Two walks that start alike (as two `CopyWalk::new` with the same
/// `from` and `to` do) and whose visited directories list alike visit the
/// same directories, send them to the same places, ask for the same file
/// copies, and are left with the same stack.
pub proof fn law_copy_walk_repeats(
    walks: Seq<CopyWalk>,
    steps: Seq<(Seq<char>, Seq<char>, Seq<(Seq<char>, Seq<char>)>)>,
    walks2: Seq<CopyWalk>,
    steps2: Seq<(Seq<char>, Seq<char>, Seq<(Seq<char>, Seq<char>)>)>,
    listings: Seq<Seq<ListedEntry>>,
)
    requires
        copy_walk_run(walks, listings, steps),
        copy_walk_run(walks2, listings, steps2),
        walks[0].pending() == walks2[0].pending(),
        walks[0].output_root@ == walks2[0].output_root@,
        walks[0].input_root == walks2[0].input_root,
    ensures
        steps == steps2,
        walks[listings.len() as int].pending() == walks2[listings.len() as int].pending(),
{
    law_copy_walk_is_determined(walks, listings, steps);
    law_copy_walk_is_determined(walks2, listings, steps2);
}

/// Law: a listing is handled entry by entry, nothing dropped. The copies
/// are exactly the files of the listing that have a name, in listing order,
/// each going from its path to `dest` joined with its name; the
/// subdirectories are exactly the directories, in order; and the files
/// reported as skipped are exactly those without a name. In particular
/// every named file of the listing, dotfiles included, is copied.
pub proof fn law_listing_is_fully_handled(dest: Seq<char>, entries: Seq<ListedEntry>)
    ensures
        copies_of(dest, entries) == entries.filter_map(
            (|e: ListedEntry|
                if !e.is_dir && e.file_name is Some {
                    Some((e.path@, join_path(dest, e.file_name.unwrap()@)))
                } else {
                    None
                }),
        ),
        subdirs_of(entries) == entries.filter_map(
            (|e: ListedEntry| if e.is_dir { Some(e.path@) } else { None }),
        ),
        skipped_of(entries) == entries.filter_map(
            (|e: ListedEntry| if !e.is_dir && e.file_name is None { Some(e.path@) } else { None }),
        ),
        forall|i: int|
            0 <= i < entries.len() && !entries[i].is_dir && entries[i].file_name is Some ==> copies_of(
                dest,
                entries,
            ).contains((entries[i].path@, join_path(dest, entries[i].file_name.unwrap()@))),
    decreases entries.len(),
{
    if entries.len() > 0 {
        let rest = entries.drop_last();
        law_listing_is_fully_handled(dest, rest);
        let e = entries.last();
        let c = copies_of(dest, rest);
        if !e.is_dir && e.file_name is Some {
            let pair = (e.path@, join_path(dest, e.file_name.unwrap()@));
            assert(copies_of(dest, entries) == c.push(pair));
            assert(c.push(pair)[c.len() as int] == pair);
        }
        assert forall|i: int|
            0 <= i < entries.len() && !entries[i].is_dir && entries[i].file_name is Some implies copies_of(
                dest,
                entries,
            ).contains((entries[i].path@, join_path(dest, entries[i].file_name.unwrap()@))) by {
            if i < rest.len() {
                assert(rest[i] == entries[i]);
                let pair = (entries[i].path@, join_path(dest, entries[i].file_name.unwrap()@));
                assert(c.contains(pair));
                let j = choose|j: int| 0 <= j < c.len() && c[j] == pair;
                if !e.is_dir && e.file_name is Some {
                    let pe = (e.path@, join_path(dest, e.file_name.unwrap()@));
                    assert(c.push(pe)[j] == pair);
                }
            } else {
                let pair = (e.path@, join_path(dest, e.file_name.unwrap()@));
                assert(c.push(pair)[c.len() as int] == pair);
            }
        }
        assert(copies_of(dest, entries) =~= entries.filter_map(
            (|e: ListedEntry|
                if !e.is_dir && e.file_name is Some {
                    Some((e.path@, join_path(dest, e.file_name.unwrap()@)))
                } else {
                    None
                }),
        ));
        assert(subdirs_of(entries) =~= entries.filter_map(
            (|e: ListedEntry| if e.is_dir { Some(e.path@) } else { None }),
        ));
        assert(skipped_of(entries) =~= entries.filter_map(
            (|e: ListedEntry| if !e.is_dir && e.file_name is None { Some(e.path@) } else { None }),
        ));
    } else {
        assert(copies_of(dest, entries) =~= entries.filter_map(
            (|e: ListedEntry|
                if !e.is_dir && e.file_name is Some {
                    Some((e.path@, join_path(dest, e.file_name.unwrap()@)))
                } else {
                    None
                }),
        ));
    }
}

} // verus!
