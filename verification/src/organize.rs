//! The organizer's core: route each file of one directory listing either to
//! the `duplicates` folder (when its content digest was already seen this
//! pass) or to its extension's category under a date subfolder, and compute
//! the destination paths the mover uses.

use vstd::prelude::*;
use vstd::string::*;
use crate::category::Category;
use crate::category::category_of;
use crate::category::spec_category_of;
use crate::category::folder_name;
use crate::category::spec_folder_name;
use crate::date::Date;
use crate::date::date_string;
use crate::date::spec_date_str;
use crate::filename::extension_of;
use crate::filename::spec_extension_of;

verus! {

/// The content digests seen so far in one organize pass. Scoped to a single
/// pass: a fresh set is made at the start of every pass. A digest is
/// recorded at most once, when its first carrier is routed as an original.
pub struct SeenDigests {
    items: Vec<String>,
}

impl View for SeenDigests {
    type V = Set<Seq<char>>;

    closed spec fn view(&self) -> Set<Seq<char>> {
        Set::new(
            |d: Seq<char>|
                exists|i: int| 0 <= i < self.items@.len() && self.items@[i]@ == d,
        )
    }
}

impl SeenDigests {
    /// An empty set, for the start of a pass.
    pub fn new() -> (s: SeenDigests)
        ensures
            s@ == Set::<Seq<char>>::empty(),
    {
        let s = SeenDigests { items: Vec::new() };
        proof {
            assert(s@ =~= Set::<Seq<char>>::empty());
        }
        s
    }

    /// Whether a digest was already recorded this pass.
    pub fn contains(&self, d: &String) -> (r: bool)
        ensures
            r == self@.contains(d@),
    {
        let mut j: usize = 0;
        while j < self.items.len()
            invariant
                j <= self.items@.len(),
                forall|k: int| 0 <= k < j ==> self.items@[k]@ != d@,
            decreases self.items@.len() - j,
        {
            let it = &self.items[j];
            if it.eq(d) {
                proof {
                    assert(self.items@[j as int]@ == d@);
                }
                return true;
            }
            j = j + 1;
        }
        false
    }

    /// Records a digest.
    pub fn insert(&mut self, d: String)
        requires
            !old(self)@.contains(d@),
        ensures
            final(self)@ == old(self)@.insert(d@),
    {
        let ghost dv = d@;
        self.items.push(d);
        proof {
            assert forall|x: Seq<char>|
                self@.contains(x) <==> old(self)@.insert(dv).contains(x) by {
                if self@.contains(x) {
                    let i = choose|i: int|
                        0 <= i < self.items@.len() && self.items@[i]@ == x;
                    if i < self.items@.len() - 1 {
                        assert(old(self).items@[i]@ == x);
                    } else {
                        assert(x == dv);
                    }
                }
                if old(self)@.insert(dv).contains(x) {
                    if old(self)@.contains(x) {
                        let i = choose|i: int|
                            0 <= i < old(self).items@.len() && old(self).items@[i]@ == x;
                        assert(self.items@[i]@ == x);
                    } else {
                        assert(self.items@[self.items@.len() - 1]@ == x);
                    }
                }
            }
            assert(self@ =~= old(self)@.insert(dv));
        }
    }
}

/// Where one file of the listing is sent: the flat `duplicates` folder, or
/// its category under a date subfolder.
#[derive(Clone, Copy, Debug, PartialEq, Eq, Structural)]
pub enum Destination {
    Duplicates,
    Classified(Category, Date),
}

/// A destination whose date part, if any, is a valid calendar date.
pub open spec fn dest_well_formed(dest: Destination) -> bool {
    match dest {
        Destination::Duplicates => true,
        Destination::Classified(_, d) => d.well_formed(),
    }
}

/// Where a file goes, given the digests seen before it this pass: a file
/// whose digest was already seen is a duplicate, never classified by
/// extension; otherwise its extension's category and its date decide.
pub open spec fn spec_route(
    seen: Set<Seq<char>>,
    name: Seq<char>,
    digest: Seq<char>,
    modified: Date,
) -> Destination {
    if seen.contains(digest) {
        Destination::Duplicates
    } else {
        Destination::Classified(spec_category_of(spec_extension_of(name)), modified)
    }
}

/// Routes one file: the duplicate check precedes classification, and only a
/// first-seen digest is recorded.
pub fn route_file(seen: &mut SeenDigests, name: &str, digest: String, modified: Date) -> (dest:
    Destination)
    ensures
        final(seen)@ == old(seen)@.insert(digest@),
        dest == spec_route(old(seen)@, name@, digest@, modified),
{
    if seen.contains(&digest) {
        proof {
            assert(seen@.insert(digest@) =~= seen@);
        }
        Destination::Duplicates
    } else {
        let cat = category_of(extension_of(name));
        seen.insert(digest);
        Destination::Classified(cat, modified)
    }
}

/// What the organizer reads of one directory entry: its file name, the hex
/// digest of its content, and its last-modified date.
pub struct FileMeta {
    pub name: String,
    pub digest: String,
    pub modified: Date,
}

/// Whether the file at index `i` repeats the content of an earlier file.
pub open spec fn dup_at(files: Seq<FileMeta>, i: int) -> bool {
    exists|j: int| 0 <= j < i && files[j].digest@ == files[i].digest@
}

/// The digests of the first `n` files of the listing.
pub open spec fn digests_upto(files: Seq<FileMeta>, n: int) -> Set<Seq<char>> {
    Set::new(|d: Seq<char>| exists|j: int| 0 <= j < n && files[j].digest@ == d)
}

/// Where the pass sends the file at index `i` of the listing.
pub open spec fn spec_destination(files: Seq<FileMeta>, i: int) -> Destination {
    if dup_at(files, i) {
        Destination::Duplicates
    } else {
        Destination::Classified(
            spec_category_of(spec_extension_of(files[i].name@)),
            files[i].modified,
        )
    }
}

/// One planned relocation: which file, and where it is sent.
pub struct PlannedMove {
    pub name: String,
    pub dest: Destination,
}

proof fn lemma_digests_upto_step(files: Seq<FileMeta>, i: int)
    requires
        0 <= i < files.len(),
    ensures
        digests_upto(files, i).insert(files[i].digest@) == digests_upto(files, i + 1),
{
    assert forall|x: Seq<char>|
        digests_upto(files, i).insert(files[i].digest@).contains(x) <==> digests_upto(
            files,
            i + 1,
        ).contains(x) by {
        if digests_upto(files, i + 1).contains(x) {
            let j = choose|j: int| 0 <= j < i + 1 && files[j].digest@ == x;
            if j < i {
                assert(digests_upto(files, i).contains(x));
            }
        }
    }
    assert(digests_upto(files, i).insert(files[i].digest@) =~= digests_upto(files, i + 1));
}

/// Plans one full organize pass over a snapshot of the directory's files:
/// one planned move per file, in listing order — the first carrier of each
/// content wins its classified place, every later carrier goes to
/// `duplicates`.
pub fn plan_pass(files: &Vec<FileMeta>) -> (plan: Vec<PlannedMove>)
    ensures
        plan@.len() == files@.len(),
        forall|i: int|
            0 <= i < files@.len() ==> (#[trigger] plan@[i]).name == files@[i].name
                && plan@[i].dest == spec_destination(files@, i),
{
    let mut seen = SeenDigests::new();
    let mut plan: Vec<PlannedMove> = Vec::new();
    let mut i: usize = 0;
    proof {
        assert(seen@ =~= digests_upto(files@, 0));
    }
    while i < files.len()
        invariant
            i <= files@.len(),
            plan@.len() == i,
            seen@ == digests_upto(files@, i as int),
            forall|k: int|
                0 <= k < i ==> (#[trigger] plan@[k]).name == files@[k].name
                    && plan@[k].dest == spec_destination(files@, k),
        decreases files@.len() - i,
    {
        let f = &files[i];
        let dest = route_file(&mut seen, f.name.as_str(), f.digest.clone(), f.modified);
        proof {
            lemma_digests_upto_step(files@, i as int);
            assert(digests_upto(files@, i as int).contains(files@[i as int].digest@) == dup_at(
                files@,
                i as int,
            ));
        }
        plan.push(PlannedMove { name: f.name.clone(), dest });
        i = i + 1;
    }
    plan
}

/// Exactly one file per content escapes `duplicates`: a file is planned
/// outside `duplicates` precisely when no earlier file of the listing
/// carries the same digest — whatever its name or extension.
pub proof fn lemma_one_original_per_content(files: Seq<FileMeta>, i: int)
    requires
        0 <= i < files.len(),
    ensures
        spec_destination(files, i) != Destination::Duplicates <==> (forall|j: int|
            0 <= j < i ==> files[j].digest@ != files[i].digest@),
{
}

/// Every later carrier of an already-seen content is sent to `duplicates`.
pub proof fn lemma_later_copies_are_duplicates(files: Seq<FileMeta>, i: int, k: int)
    requires
        0 <= i < k < files.len(),
        files[i].digest@ == files[k].digest@,
    ensures
        spec_destination(files, k) == Destination::Duplicates,
{
    assert(dup_at(files, k));
}

/// A file whose content no other file of the listing shares is routed by
/// its extension alone, under its last-modified date.
pub proof fn lemma_distinct_content_classified(files: Seq<FileMeta>, i: int)
    requires
        0 <= i < files.len(),
        forall|j: int| 0 <= j < files.len() && j != i ==> files[j].digest@ != files[i].digest@,
    ensures
        spec_destination(files, i) == Destination::Classified(
            spec_category_of(spec_extension_of(files[i].name@)),
            files[i].modified,
        ),
{
    assert(!dup_at(files, i));
}

/// A pass plans exactly one move per listed file, so a pass over a
/// directory whose top level holds no files — as after a completed pass —
/// plans nothing: the second run has nothing to do.
pub proof fn lemma_second_pass_has_nothing_to_do(files: Seq<FileMeta>, plan: Seq<PlannedMove>)
    requires
        plan.len() == files.len(),
        files.len() == 0,
    ensures
        plan.len() == 0,
{
}

/// The mover's conflict rule: a file is relocated only when the destination
/// holds no file of that name; otherwise the source is left untouched in
/// place — no overwrite, no error.
pub fn move_decision(dest_exists: bool) -> (mv: bool)
    ensures
        mv <==> !dest_exists,
{
    !dest_exists
}

/// The destination folder, relative to the base directory: `duplicates` is
/// flat, a classified file goes under its category and date.
pub open spec fn spec_rel_dest(dest: Destination) -> Seq<char> {
    match dest {
        Destination::Duplicates => "duplicates"@,
        Destination::Classified(c, d) => spec_folder_name(c) + "/"@ + spec_date_str(d),
    }
}

/// The destination directory: the base directory joined with the relative
/// destination folder.
pub open spec fn spec_dest_dir(base: Seq<char>, dest: Destination) -> Seq<char> {
    base + "/"@ + spec_rel_dest(dest)
}

/// The full destination path: the destination directory joined with the
/// file's unchanged name.
pub open spec fn spec_dest_path(base: Seq<char>, dest: Destination, name: Seq<char>) -> Seq<char> {
    spec_dest_dir(base, dest) + "/"@ + name
}

/// Renders the destination folder relative to the base directory.
pub fn rel_dest(dest: &Destination) -> (r: String)
    requires
        dest_well_formed(*dest),
    ensures
        r@ == spec_rel_dest(*dest),
{
    match dest {
        Destination::Duplicates => String::from_str("duplicates"),
        Destination::Classified(c, d) => {
            let mut r = String::from_str(folder_name(*c));
            r.append("/");
            let ds = date_string(d);
            r.append(ds.as_str());
            proof {
                assert(r@ =~= spec_rel_dest(*dest));
            }
            r
        },
    }
}

/// Renders the destination directory that must exist before the move.
pub fn dest_dir(base: &str, dest: &Destination) -> (r: String)
    requires
        dest_well_formed(*dest),
    ensures
        r@ == spec_dest_dir(base@, *dest),
{
    let mut r = String::from_str(base);
    r.append("/");
    let rel = rel_dest(dest);
    r.append(rel.as_str());
    proof {
        assert(r@ =~= spec_dest_dir(base@, *dest));
    }
    r
}

/// Renders the full destination path of a file.
pub fn dest_path(base: &str, dest: &Destination, name: &str) -> (r: String)
    requires
        dest_well_formed(*dest),
    ensures
        r@ == spec_dest_path(base@, *dest, name@),
{
    let mut r = dest_dir(base, dest);
    r.append("/");
    r.append(name);
    proof {
        assert(r@ =~= spec_dest_path(base@, *dest, name@));
    }
    r
}

} // verus!
