//! Searching a directory tree for a launcher or an app bundle.
//!
//! Listing a directory is the caller's part: [`Search::next_directory`] says
//! which one to list, and [`Search::visit`] takes the listing.

use vstd::prelude::*;
use crate::platform::{join_path, joined, Os};
use crate::text::{characters, optional_text, owned, same_text};

verus! {

broadcast use vstd::string::group_string_axioms;

/// What is searched for.
pub enum Wanted {
    /// A file, not a directory, of this name.
    FileNamed(String),
    /// Anything with the extension `.app`.
    AppBundle,
}

pub enum WantedView {
    FileNamed(Seq<char>),
    AppBundle,
}

impl View for Wanted {
    type V = WantedView;

    open spec fn view(&self) -> WantedView {
        match self {
            Wanted::FileNamed(name) => WantedView::FileNamed(name@),
            Wanted::AppBundle => WantedView::AppBundle,
        }
    }
}

/// An entry of a directory.
pub struct Entry {
    pub name: String,
    pub is_dir: bool,
}

pub struct EntryView {
    pub name: Seq<char>,
    pub is_dir: bool,
}

impl View for Entry {
    type V = EntryView;

    open spec fn view(&self) -> EntryView {
        EntryView { name: self.name@, is_dir: self.is_dir }
    }
}

/// The entries of a directory, as texts.
pub open spec fn entry_views(entries: Seq<Entry>) -> Seq<EntryView> {
    entries.map_values(|e: Entry| e@)
}

/// The name has the extension `.app`, and something before it.
pub open spec fn is_app_name(name: Seq<char>) -> bool {
    name.len() > 4 && name.skip(name.len() - 4) == ".app"@
}

/// The entry is what is searched for.
pub open spec fn is_hit(wanted: WantedView, e: EntryView) -> bool {
    match wanted {
        WantedView::FileNamed(name) => !e.is_dir && e.name == name,
        WantedView::AppBundle => is_app_name(e.name),
    }
}

/// The first entry that is searched for.
pub open spec fn first_hit(wanted: WantedView, entries: Seq<EntryView>) -> Option<EntryView>
    decreases entries.len(),
{
    if entries.len() == 0 {
        None
    } else if is_hit(wanted, entries[0]) {
        Some(entries[0])
    } else {
        first_hit(wanted, entries.skip(1))
    }
}

/// The paths of the directories among the entries of `dir`, in order.
pub open spec fn subdirectories(os: Os, dir: Seq<char>, entries: Seq<EntryView>) -> Seq<Seq<char>>
    decreases entries.len(),
{
    if entries.len() == 0 {
        Seq::<Seq<char>>::empty()
    } else {
        let before = subdirectories(os, dir, entries.drop_last());
        if entries.last().is_dir {
            before.push(joined(os, dir, entries.last().name))
        } else {
            before
        }
    }
}

/// What becomes of a search when the directory that is due is listed: the
/// directories that are still to be listed, the one that is due at the end,
/// and the path that was found. A directory that cannot be listed is passed
/// over. The entries of a directory come before those of the directories in
/// it, and these come before whatever else was still to be listed.
pub open spec fn visited(
    os: Os,
    wanted: WantedView,
    pending: Seq<Seq<char>>,
    listing: Option<Seq<EntryView>>,
) -> (Seq<Seq<char>>, Option<Seq<char>>) {
    let dir = pending.last();
    let rest = pending.drop_last();
    match listing {
        None => (rest, None),
        Some(entries) => match first_hit(wanted, entries) {
            Some(e) => (rest, Some(joined(os, dir, e.name))),
            None => (rest + subdirectories(os, dir, entries).reverse(), None),
        },
    }
}

/// Whether the name has the extension `.app`, and something before it.
pub fn has_app_extension(name: &str) -> (r: bool)
    ensures
        r == is_app_name(name@),
{
    let cs = characters(name);
    let n: usize = cs.len();
    proof {
        reveal_strlit(".app");
    }
    if n > 4 && cs[n - 4] == '.' && cs[n - 3] == 'a' && cs[n - 2] == 'p' && cs[n - 1] == 'p' {
        assert(name@.skip(n - 4) =~= ".app"@);
        true
    } else {
        proof {
            if is_app_name(name@) {
                let tail = name@.skip(n - 4);
                assert(tail[0] == '.' && tail[1] == 'a' && tail[2] == 'p' && tail[3] == 'p');
            }
        }
        false
    }
}

/// A search under way.
pub struct Search {
    os: Os,
    wanted: Wanted,
    pending: Vec<String>,
}

impl Search {
    /// The system that the paths are of.
    pub closed spec fn on(&self) -> Os {
        self.os
    }

    /// What is searched for.
    pub closed spec fn wants(&self) -> WantedView {
        self.wanted@
    }

    /// The directories that are still to be listed, the one that is due at the
    /// end.
    pub closed spec fn to_list(&self) -> Seq<Seq<char>> {
        crate::text::texts(self.pending@)
    }

    /// Searches `root` and everything under it.
    pub fn new(os: Os, wanted: Wanted, root: &str) -> (r: Search)
        ensures
            r.on() == os,
            r.wants() == wanted@,
            r.to_list() == seq![root@],
    {
        let mut pending: Vec<String> = Vec::new();
        pending.push(owned(root));
        let r = Search { os, wanted, pending };
        assert(r.to_list() =~= seq![root@]);
        r
    }

    /// The directory to list next; `None` when there is none left, and so
    /// nothing to be found.
    pub fn next_directory(&self) -> (r: Option<&str>)
        ensures
            match r {
                Some(dir) => self.to_list().len() > 0 && dir@ == self.to_list().last(),
                None => self.to_list().len() == 0,
            },
    {
        let n: usize = self.pending.len();
        if n == 0 {
            None
        } else {
            Some(self.pending[n - 1].as_str())
        }
    }

    fn hits(&self, e: &Entry) -> (r: bool)
        ensures
            r == is_hit(self.wants(), e@),
    {
        match &self.wanted {
            Wanted::FileNamed(name) => !e.is_dir && same_text(e.name.as_str(), name.as_str()),
            Wanted::AppBundle => has_app_extension(e.name.as_str()),
        }
    }

    /// Takes the listing of the directory that is due, in the order in which
    /// its entries were read; `None` if it could not be listed. Returns the path
    /// of the first entry that is searched for, if there is one among them.
    pub fn visit(&mut self, listing: Option<Vec<Entry>>) -> (r: Option<String>)
        requires
            old(self).to_list().len() > 0,
        ensures
            final(self).on() == old(self).on(),
            final(self).wants() == old(self).wants(),
            (final(self).to_list(), optional_text(r)) == visited(
                old(self).on(),
                old(self).wants(),
                old(self).to_list(),
                match listing {
                    Some(entries) => Some(entry_views(entries@)),
                    None => None,
                },
            ),
    {
        let ghost before = self.to_list();
        let dir = match self.pending.pop() {
            Some(dir) => dir,
            None => {
                return None;
            },
        };
        assert(self.to_list() =~= before.drop_last());
        let entries = match listing {
            Some(entries) => entries,
            None => {
                return None;
            },
        };
        let ghost all = entry_views(entries@);
        let mut i: usize = 0;
        assert(all.skip(0) =~= all);
        while i < entries.len()
            invariant
                i <= entries@.len(),
                listing == Some(entries),
                all == entry_views(entries@),
                self.on() == old(self).on(),
                self.wants() == old(self).wants(),
                self.to_list() == before.drop_last(),
                before == old(self).to_list(),
                dir@ == before.last(),
                first_hit(self.wants(), all) == first_hit(self.wants(), all.skip(i as int)),
            decreases entries@.len() - i,
        {
            assert(all.skip(i as int)[0] == entries@[i as int]@);
            assert(all.skip(i as int).skip(1) =~= all.skip(i + 1));
            if self.hits(&entries[i]) {
                return Some(join_path(self.os, dir.as_str(), entries[i].name.as_str()));
            }
            i = i + 1;
        }
        assert(first_hit(self.wants(), all) is None);
        let ghost rest = self.to_list();
        let ghost subs = subdirectories(self.on(), dir@, all);
        let mut k: usize = entries.len();
        assert(all.take(k as int) =~= all);
        assert(self.to_list() + subs.reverse() =~= rest + subs.reverse());
        while k > 0
            invariant
                k <= entries@.len(),
                all == entry_views(entries@),
                self.on() == old(self).on(),
                self.wants() == old(self).wants(),
                subs == subdirectories(self.on(), dir@, all),
                self.to_list() + subdirectories(self.on(), dir@, all.take(k as int)).reverse()
                    == rest + subs.reverse(),
            decreases k,
        {
            let ghost here = self.to_list();
            let ghost part = all.take(k as int);
            k = k - 1;
            proof {
                assert(part.drop_last() =~= all.take(k as int));
                assert(part.last() == entries@[k as int]@);
            }
            if entries[k].is_dir {
                let path = join_path(self.os, dir.as_str(), entries[k].name.as_str());
                self.pending.push(path);
                proof {
                    let inner = subdirectories(self.on(), dir@, all.take(k as int));
                    assert(self.to_list() =~= here.push(path@));
                    assert(here + inner.push(path@).reverse() =~= here.push(path@)
                        + inner.reverse());
                }
            }
        }
        proof {
            assert(all.take(0) =~= Seq::<EntryView>::empty());
            let none = Seq::<Seq<char>>::empty();
            assert(self.to_list() + none.reverse() =~= self.to_list());
        }
        None
    }
}

// ---------------------------------------------------------------------
// What a whole search finds
// ---------------------------------------------------------------------

/// A directory with everything under it.
pub struct Tree {
    /// Whether the directory can be listed.
    pub readable: bool,
    /// Its entries, in the order in which they are read.
    pub nodes: Seq<Node>,
}

/// An entry of a directory, with everything under it.
pub enum Node {
    Leaf(Seq<char>),
    Sub(Seq<char>, Tree),
}

/// The entry as it appears in a listing.
pub open spec fn node_entry(n: Node) -> EntryView {
    match n {
        Node::Leaf(name) => EntryView { name, is_dir: false },
        Node::Sub(name, _) => EntryView { name, is_dir: true },
    }
}

/// The entries as they appear in a listing.
pub open spec fn node_entries(nodes: Seq<Node>) -> Seq<EntryView> {
    nodes.map_values(|n: Node| node_entry(n))
}

/// What listing a directory gives.
pub open spec fn listing_of(tree: Tree) -> Option<Seq<EntryView>> {
    if tree.readable {
        Some(node_entries(tree.nodes))
    } else {
        None
    }
}

/// Something that is searched for is in the tree, in a place that can be
/// listed.
pub open spec fn holds(wanted: WantedView, tree: Tree) -> bool
    decreases tree,
{
    tree.readable && exists|i: int|
        0 <= i < tree.nodes.len() && (is_hit(wanted, node_entry(#[trigger] tree.nodes[i])) || (
        match tree.nodes[i] {
            Node::Sub(_, sub) => holds(wanted, sub),
            Node::Leaf(_) => false,
        }))
}

/// The path that a depth-first search of the tree finds: an entry of the
/// directory itself, or else one under the first of its directories that has
/// one.
pub open spec fn found_under(os: Os, wanted: WantedView, path: Seq<char>, tree: Tree) -> Option<
    Seq<char>,
>
    decreases tree, tree.nodes.len() + 1,
{
    if !tree.readable {
        None
    } else {
        match first_hit(wanted, node_entries(tree.nodes)) {
            Some(e) => Some(joined(os, path, e.name)),
            None => found_behind(os, wanted, path, tree, 0),
        }
    }
}

/// The path that a depth-first search finds under the directories of the tree
/// from entry `i` on.
pub open spec fn found_behind(
    os: Os,
    wanted: WantedView,
    path: Seq<char>,
    tree: Tree,
    i: int,
) -> Option<Seq<char>>
    decreases tree, tree.nodes.len() - i,
{
    if i < 0 || i >= tree.nodes.len() {
        None
    } else {
        match tree.nodes[i] {
            Node::Sub(name, sub) => match found_under(os, wanted, joined(os, path, name), sub) {
                Some(p) => Some(p),
                None => found_behind(os, wanted, path, tree, i + 1),
            },
            Node::Leaf(_) => found_behind(os, wanted, path, tree, i + 1),
        }
    }
}

/// The directories among some entries, with their paths.
pub open spec fn subtrees(os: Os, path: Seq<char>, nodes: Seq<Node>) -> Seq<(Seq<char>, Tree)>
    decreases nodes.len(),
{
    if nodes.len() == 0 {
        Seq::<(Seq<char>, Tree)>::empty()
    } else {
        match nodes[0] {
            Node::Sub(name, sub) => seq![(joined(os, path, name), sub)] + subtrees(
                os,
                path,
                nodes.skip(1),
            ),
            Node::Leaf(_) => subtrees(os, path, nodes.skip(1)),
        }
    }
}

/// The paths of some directories.
pub open spec fn paths_of(dirs: Seq<(Seq<char>, Tree)>) -> Seq<Seq<char>> {
    dirs.map_values(|d: (Seq<char>, Tree)| d.0)
}

/// The directories that are still to be listed after the due one was, if
/// nothing was found in it.
pub open spec fn left_to_list(os: Os, dirs: Seq<(Seq<char>, Tree)>) -> Seq<(Seq<char>, Tree)> {
    let (path, tree) = dirs.last();
    if tree.readable {
        dirs.drop_last() + subtrees(os, path, tree.nodes).reverse()
    } else {
        dirs.drop_last()
    }
}

/// Where a search stands after at most `n` listings: the directories that are
/// still to be listed, and what was found.
pub open spec fn after_listings(
    os: Os,
    wanted: WantedView,
    dirs: Seq<(Seq<char>, Tree)>,
    n: nat,
) -> (Seq<(Seq<char>, Tree)>, Option<Seq<char>>)
    decreases n,
{
    if n == 0 || dirs.len() == 0 {
        (dirs, None)
    } else {
        let found = visited(os, wanted, paths_of(dirs), listing_of(dirs.last().1)).1;
        match found {
            Some(p) => (dirs.drop_last(), Some(p)),
            None => after_listings(os, wanted, left_to_list(os, dirs), (n - 1) as nat),
        }
    }
}

proof fn subdirectories_from_front(os: Os, dir: Seq<char>, e: EntryView, rest: Seq<EntryView>)
    ensures
        subdirectories(os, dir, seq![e] + rest) == (if e.is_dir {
            seq![joined(os, dir, e.name)]
        } else {
            Seq::<Seq<char>>::empty()
        }) + subdirectories(os, dir, rest),
    decreases rest.len(),
{
    let all = seq![e] + rest;
    let first = if e.is_dir {
        seq![joined(os, dir, e.name)]
    } else {
        Seq::<Seq<char>>::empty()
    };
    if rest.len() == 0 {
        assert(all.drop_last() =~= Seq::<EntryView>::empty());
        assert(all.last() == e);
        assert(subdirectories(os, dir, all.drop_last()) =~= Seq::<Seq<char>>::empty());
        assert(subdirectories(os, dir, all) =~= first + subdirectories(os, dir, rest));
    } else {
        subdirectories_from_front(os, dir, e, rest.drop_last());
        assert(all.drop_last() =~= seq![e] + rest.drop_last());
        assert(all.last() == rest.last());
        assert(subdirectories(os, dir, all) =~= first + subdirectories(os, dir, rest));
    }
}

proof fn subtrees_are_subdirectories(os: Os, path: Seq<char>, nodes: Seq<Node>)
    ensures
        paths_of(subtrees(os, path, nodes)) == subdirectories(os, path, node_entries(nodes)),
    decreases nodes.len(),
{
    if nodes.len() == 0 {
        assert(paths_of(subtrees(os, path, nodes)) =~= subdirectories(
            os,
            path,
            node_entries(nodes),
        ));
    } else {
        let rest = nodes.skip(1);
        subtrees_are_subdirectories(os, path, rest);
        subdirectories_from_front(os, path, node_entry(nodes[0]), node_entries(rest));
        assert(node_entries(nodes) =~= seq![node_entry(nodes[0])] + node_entries(rest));
        assert(paths_of(subtrees(os, path, nodes)) =~= subdirectories(
            os,
            path,
            node_entries(nodes),
        ));
    }
}

/// The directories that [`left_to_list`] gives are the ones that a visit
/// leaves.
pub proof fn left_to_list_is_visited(os: Os, wanted: WantedView, dirs: Seq<(Seq<char>, Tree)>)
    requires
        dirs.len() > 0,
        visited(os, wanted, paths_of(dirs), listing_of(dirs.last().1)).1 is None,
    ensures
        paths_of(left_to_list(os, dirs)) == visited(
            os,
            wanted,
            paths_of(dirs),
            listing_of(dirs.last().1),
        ).0,
{
    let (path, tree) = dirs.last();
    subtrees_are_subdirectories(os, path, tree.nodes);
    assert(paths_of(dirs).last() == path);
    assert(paths_of(dirs).drop_last() =~= paths_of(dirs.drop_last()));
    let subs = subtrees(os, path, tree.nodes);
    assert(paths_of(dirs.drop_last() + subs.reverse()) =~= paths_of(dirs.drop_last()) + paths_of(
        subs,
    ).reverse());
}

/// Listing a tree that is due, and all that comes from it, ends: with what the
/// depth-first search finds, or, where it finds nothing, with the directories
/// that were to be listed besides.
proof fn tree_is_searched(
    os: Os,
    wanted: WantedView,
    dirs: Seq<(Seq<char>, Tree)>,
    path: Seq<char>,
    tree: Tree,
) -> (n: nat)
    ensures
        match found_under(os, wanted, path, tree) {
            Some(p) => forall|m: nat|
                (#[trigger] after_listings(os, wanted, dirs.push((path, tree)), n + m)).1 == Some(
                    p,
                ),
            None => forall|m: nat|
                #[trigger] after_listings(os, wanted, dirs.push((path, tree)), n + m)
                    == after_listings(os, wanted, dirs, m),
        },
    decreases tree, tree.nodes.len() + 1,
{
    let all = dirs.push((path, tree));
    assert(all.drop_last() =~= dirs);
    assert(paths_of(all).last() == path);
    if !tree.readable {
        1
    } else if first_hit(wanted, node_entries(tree.nodes)) is Some {
        1
    } else {
        let k = rest_is_searched(os, wanted, dirs, path, tree, 0);
        assert(tree.nodes.skip(0) =~= tree.nodes);
        let left = dirs + subtrees(os, path, tree.nodes).reverse();
        assert(left_to_list(os, all) == left);
        assert forall|m: nat| #[trigger]
            after_listings(os, wanted, all, (k + 1) as nat + m) == after_listings(
                os,
                wanted,
                left,
                k + m,
            ) by {
            assert(((k + 1) as nat + m - 1) as nat == k + m);
        }
        (k + 1) as nat
    }
}

/// The same for the directories of a tree from entry `i` on, once they are due.
proof fn rest_is_searched(
    os: Os,
    wanted: WantedView,
    dirs: Seq<(Seq<char>, Tree)>,
    path: Seq<char>,
    tree: Tree,
    i: int,
) -> (n: nat)
    requires
        0 <= i <= tree.nodes.len(),
    ensures
        ({
            let due = dirs + subtrees(os, path, tree.nodes.skip(i)).reverse();
            match found_behind(os, wanted, path, tree, i) {
                Some(p) => forall|m: nat|
                    (#[trigger] after_listings(os, wanted, due, n + m)).1 == Some(p),
                None => forall|m: nat|
                    #[trigger] after_listings(os, wanted, due, n + m) == after_listings(
                        os,
                        wanted,
                        dirs,
                        m,
                    ),
            }
        }),
    decreases tree, tree.nodes.len() - i,
{
    let nodes = tree.nodes.skip(i);
    let due = dirs + subtrees(os, path, nodes).reverse();
    if i == tree.nodes.len() {
        assert(due =~= dirs);
        0
    } else {
        assert(nodes.skip(1) =~= tree.nodes.skip(i + 1));
        assert(nodes[0] == tree.nodes[i]);
        let later = dirs + subtrees(os, path, tree.nodes.skip(i + 1)).reverse();
        let k = rest_is_searched(os, wanted, dirs, path, tree, i + 1);
        match tree.nodes[i] {
            Node::Leaf(_) => {
                assert(due == later);
                k
            },
            Node::Sub(name, sub) => {
                let here = joined(os, path, name);
                assert(due =~= later.push((here, sub)));
                let j = tree_is_searched(os, wanted, later, here, sub);
                if found_under(os, wanted, here, sub) is Some {
                    j
                } else {
                    assert forall|m: nat| #[trigger]
                        after_listings(os, wanted, due, j + k + m) == after_listings(
                            os,
                            wanted,
                            later,
                            k + m,
                        ) by {
                        assert(j + k + m == j + (k + m));
                    }
                    j + k
                }
            },
        }
    }
}

/// A search of a directory and everything under it ends, and finds what the
/// depth-first search of the tree finds.
pub proof fn search_is_depth_first(os: Os, wanted: WantedView, root: Seq<char>, tree: Tree)
    ensures
        exists|n: nat|
            {
                let end = #[trigger] after_listings(os, wanted, seq![(root, tree)], n);
                &&& end.1 == found_under(os, wanted, root, tree)
                &&& end.1 is None ==> end.0.len() == 0
            },
{
    let none = Seq::<(Seq<char>, Tree)>::empty();
    assert(none.push((root, tree)) =~= seq![(root, tree)]);
    let n = tree_is_searched(os, wanted, none, root, tree);
    let m: nat = 0;
    let end = after_listings(os, wanted, none.push((root, tree)), n + m);
    assert(after_listings(os, wanted, none, m) == (none, None::<Seq<char>>));
    assert(end.1 == found_under(os, wanted, root, tree));
    assert(n + m == n);
    assert(after_listings(os, wanted, seq![(root, tree)], n) == end);
}

proof fn first_hit_is_some(wanted: WantedView, entries: Seq<EntryView>)
    ensures
        first_hit(wanted, entries) is Some <==> exists|i: int|
            0 <= i < entries.len() && is_hit(wanted, #[trigger] entries[i]),
    decreases entries.len(),
{
    if entries.len() > 0 {
        let rest = entries.skip(1);
        first_hit_is_some(wanted, rest);
        if first_hit(wanted, rest) is Some {
            let i = choose|i: int| 0 <= i < rest.len() && is_hit(wanted, #[trigger] rest[i]);
            assert(entries[i + 1] == rest[i]);
        }
        if !is_hit(wanted, entries[0]) {
            assert forall|i: int|
                0 <= i < entries.len() && is_hit(wanted, #[trigger] entries[i]) implies first_hit(
                wanted,
                rest,
            ) is Some by {
                assert(rest[i - 1] == entries[i]);
            }
        }
    }
}

proof fn behind_is_some(os: Os, wanted: WantedView, path: Seq<char>, tree: Tree, i: int)
    requires
        0 <= i <= tree.nodes.len(),
    ensures
        found_behind(os, wanted, path, tree, i) is Some <==> exists|j: int|
            i <= j < tree.nodes.len() && (match #[trigger] tree.nodes[j] {
                Node::Sub(_, sub) => holds(wanted, sub),
                Node::Leaf(_) => false,
            }),
    decreases tree, tree.nodes.len() - i,
{
    if i < tree.nodes.len() {
        behind_is_some(os, wanted, path, tree, i + 1);
        if let Node::Sub(name, sub) = tree.nodes[i] {
            search_finds_what_is_there(os, wanted, joined(os, path, name), sub);
        }
    }
}

/// A search finds something if and only if it is there, in a place that can be
/// listed.
pub proof fn search_finds_what_is_there(os: Os, wanted: WantedView, root: Seq<char>, tree: Tree)
    ensures
        found_under(os, wanted, root, tree) is Some <==> holds(wanted, tree),
    decreases tree, tree.nodes.len() + 1,
{
    let entries = node_entries(tree.nodes);
    first_hit_is_some(wanted, entries);
    behind_is_some(os, wanted, root, tree, 0);
    if tree.readable {
        if first_hit(wanted, entries) is Some {
            let i = choose|i: int| 0 <= i < entries.len() && is_hit(wanted, #[trigger] entries[i]);
            assert(is_hit(wanted, node_entry(tree.nodes[i])));
        } else {
            assert forall|i: int| 0 <= i < tree.nodes.len() implies !is_hit(
                wanted,
                node_entry(#[trigger] tree.nodes[i]),
            ) by {
                assert(entries[i] == node_entry(tree.nodes[i]));
            }
        }
    }
}

// ---------------------------------------------------------------------
// What is found is what was searched for
// ---------------------------------------------------------------------

/// The names of directories lead from a tree down to one in it, through
/// directories that can be listed.
pub open spec fn leads_to(tree: Tree, names: Seq<Seq<char>>, sub: Tree) -> bool
    decreases names.len(),
{
    &&& tree.readable
    &&& if names.len() == 0 {
        sub == tree
    } else {
        exists|i: int|
            0 <= i < tree.nodes.len() && ((#[trigger] tree.nodes[i]) matches Node::Sub(name, inner)
                && name == names[0] && leads_to(inner, names.skip(1), sub))
    }
}

/// The path of the directory that the names lead down to.
pub open spec fn path_down(os: Os, root: Seq<char>, names: Seq<Seq<char>>) -> Seq<char>
    decreases names.len(),
{
    if names.len() == 0 {
        root
    } else {
        path_down(os, joined(os, root, names[0]), names.skip(1))
    }
}

/// The name of an entry.
pub open spec fn name_of(n: Node) -> Seq<char> {
    match n {
        Node::Leaf(name) => name,
        Node::Sub(name, _) => name,
    }
}

/// The entry at `k` of the directory `sub`, to which `names` lead down, stands at
/// the path `p`.
pub open spec fn stands_in(
    os: Os,
    root: Seq<char>,
    tree: Tree,
    p: Seq<char>,
    names: Seq<Seq<char>>,
    sub: Tree,
    k: int,
) -> bool {
    &&& leads_to(tree, names, sub)
    &&& 0 <= k < sub.nodes.len()
    &&& p == joined(os, path_down(os, root, names), name_of(sub.nodes[k]))
}

proof fn first_hit_is_first(wanted: WantedView, entries: Seq<EntryView>) -> (k: int)
    requires
        first_hit(wanted, entries) is Some,
    ensures
        0 <= k < entries.len(),
        first_hit(wanted, entries) == Some(entries[k]),
        is_hit(wanted, entries[k]),
        forall|j: int| 0 <= j < k ==> !is_hit(wanted, #[trigger] entries[j]),
    decreases entries.len(),
{
    if is_hit(wanted, entries[0]) {
        0
    } else {
        let later = entries.skip(1);
        let k = first_hit_is_first(wanted, later);
        assert forall|j: int| 0 <= j < k + 1 implies !is_hit(wanted, #[trigger] entries[j]) by {
            if j > 0 {
                assert(later[j - 1] == entries[j]);
            }
        }
        k + 1
    }
}

proof fn hit_comes_first(wanted: WantedView, entries: Seq<EntryView>, k: int)
    requires
        0 <= k < entries.len(),
        is_hit(wanted, entries[k]),
        forall|j: int| 0 <= j < k ==> !is_hit(wanted, #[trigger] entries[j]),
    ensures
        first_hit(wanted, entries) == Some(entries[k]),
    decreases k,
{
    if k > 0 {
        let later = entries.skip(1);
        assert(later[k - 1] == entries[k]);
        assert(!is_hit(wanted, entries[0]));
        assert forall|j: int| 0 <= j < k - 1 implies !is_hit(wanted, #[trigger] later[j]) by {
            assert(later[j] == entries[j + 1]);
        }
        hit_comes_first(wanted, later, k - 1);
    }
}

/// Where the path that a search finds stands.
proof fn found_stands_somewhere(os: Os, wanted: WantedView, root: Seq<char>, tree: Tree) -> (r: (
    Seq<Seq<char>>,
    Tree,
    int,
))
    requires
        found_under(os, wanted, root, tree) is Some,
    ensures
        stands_in(os, root, tree, found_under(os, wanted, root, tree)->0, r.0, r.1, r.2),
        is_hit(wanted, node_entry(r.1.nodes[r.2])),
        forall|j: int| 0 <= j < r.2 ==> !is_hit(wanted, node_entry(#[trigger] r.1.nodes[j])),
    decreases tree, tree.nodes.len() + 1,
{
    let entries = node_entries(tree.nodes);
    if first_hit(wanted, entries) is Some {
        let k = first_hit_is_first(wanted, entries);
        assert(entries[k] == node_entry(tree.nodes[k]));
        assert forall|j: int| 0 <= j < k implies !is_hit(
            wanted,
            node_entry(#[trigger] tree.nodes[j]),
        ) by {
            assert(entries[j] == node_entry(tree.nodes[j]));
        }
        (Seq::<Seq<char>>::empty(), tree, k)
    } else {
        found_behind_stands_somewhere(os, wanted, root, tree, 0)
    }
}

proof fn found_behind_stands_somewhere(
    os: Os,
    wanted: WantedView,
    root: Seq<char>,
    tree: Tree,
    i: int,
) -> (r: (Seq<Seq<char>>, Tree, int))
    requires
        tree.readable,
        0 <= i,
        found_behind(os, wanted, root, tree, i) is Some,
    ensures
        stands_in(os, root, tree, found_behind(os, wanted, root, tree, i)->0, r.0, r.1, r.2),
        is_hit(wanted, node_entry(r.1.nodes[r.2])),
        forall|j: int| 0 <= j < r.2 ==> !is_hit(wanted, node_entry(#[trigger] r.1.nodes[j])),
    decreases tree, tree.nodes.len() - i,
{
    match tree.nodes[i] {
        Node::Sub(name, sub) => {
            let here = joined(os, root, name);
            if found_under(os, wanted, here, sub) is Some {
                let (names, dir, k) = found_stands_somewhere(os, wanted, here, sub);
                let longer = seq![name] + names;
                assert(longer.skip(1) =~= names);
                assert(longer[0] == name);
                assert(leads_to(tree, longer, dir));
                assert(path_down(os, root, longer) == path_down(os, here, names));
                (longer, dir, k)
            } else {
                found_behind_stands_somewhere(os, wanted, root, tree, i + 1)
            }
        },
        Node::Leaf(_) => found_behind_stands_somewhere(os, wanted, root, tree, i + 1),
    }
}

/// What a search for a file finds is a file, no directory, of exactly the name
/// that was searched for, in some directory of the tree: the path is that of the
/// directory with just this name behind it.
pub proof fn found_file_has_the_name_searched_for(
    os: Os,
    name: Seq<char>,
    root: Seq<char>,
    tree: Tree,
    p: Seq<char>,
)
    requires
        found_under(os, WantedView::FileNamed(name), root, tree) == Some(p),
    ensures
        exists|names: Seq<Seq<char>>, sub: Tree|
            {
                &&& #[trigger] leads_to(tree, names, sub)
                &&& sub.nodes.contains(Node::Leaf(name))
                &&& p == joined(os, path_down(os, root, names), name)
            },
        p.len() >= name.len(),
        p.skip(p.len() - name.len()) == name,
{
    let (names, sub, k) = found_stands_somewhere(os, WantedView::FileNamed(name), root, tree);
    assert(sub.nodes[k] == Node::Leaf(name));
    assert(leads_to(tree, names, sub));
    let dir = path_down(os, root, names);
    assert(p.skip(p.len() - name.len()) =~= name);
}

/// Where a file of the name that is searched for stands in a directory that can
/// be reached, the search finds one.
pub proof fn every_file_can_be_found(
    os: Os,
    name: Seq<char>,
    root: Seq<char>,
    tree: Tree,
    names: Seq<Seq<char>>,
    sub: Tree,
)
    requires
        leads_to(tree, names, sub),
        sub.nodes.contains(Node::Leaf(name)),
    ensures
        found_under(os, WantedView::FileNamed(name), root, tree) is Some,
{
    let k = choose|k: int| 0 <= k < sub.nodes.len() && sub.nodes[k] == Node::Leaf(name);
    assert(is_hit(WantedView::FileNamed(name), node_entry(sub.nodes[k])));
    what_is_reached_is_held(WantedView::FileNamed(name), tree, names, sub, k);
    search_finds_what_is_there(os, WantedView::FileNamed(name), root, tree);
}

proof fn what_is_reached_is_held(
    wanted: WantedView,
    tree: Tree,
    names: Seq<Seq<char>>,
    sub: Tree,
    k: int,
)
    requires
        leads_to(tree, names, sub),
        0 <= k < sub.nodes.len(),
        is_hit(wanted, node_entry(sub.nodes[k])),
    ensures
        holds(wanted, tree),
    decreases names.len(),
{
    if names.len() > 0 {
        let i = choose|i: int|
            0 <= i < tree.nodes.len() && ((#[trigger] tree.nodes[i]) matches Node::Sub(name, inner)
                && name == names[0] && leads_to(inner, names.skip(1), sub));
        if let Node::Sub(_, inner) = tree.nodes[i] {
            what_is_reached_is_held(wanted, inner, names.skip(1), sub, k);
        }
    }
}

/// A name is that of an app bundle if and only if it ends in `.app`, with
/// something before that.
pub proof fn bundles_are_told_by_their_extension(name: Seq<char>)
    ensures
        is_app_name(name) <==> exists|stem: Seq<char>|
            stem.len() > 0 && name == #[trigger] (stem + ".app"@),
{
    reveal_strlit(".app");
    if is_app_name(name) {
        let stem = name.take(name.len() - 4);
        assert(name =~= stem + ".app"@);
    }
    assert forall|stem: Seq<char>| stem.len() > 0 && name == #[trigger] (stem
        + ".app"@) implies is_app_name(name) by {
        assert(name.skip(name.len() - 4) =~= ".app"@);
    }
}

/// What a search for an app bundle finds is an entry of some directory of the
/// tree, whose name ends in `.app`, with something before that.
pub proof fn found_bundle_ends_in_app(
    os: Os,
    root: Seq<char>,
    tree: Tree,
    p: Seq<char>,
)
    requires
        found_under(os, WantedView::AppBundle, root, tree) == Some(p),
    ensures
        exists|names: Seq<Seq<char>>, sub: Tree, k: int, stem: Seq<char>|
            {
                &&& #[trigger] leads_to(tree, names, sub)
                &&& 0 <= k < sub.nodes.len()
                &&& name_of(#[trigger] sub.nodes[k]) == #[trigger] (stem + ".app"@)
                &&& stem.len() > 0
                &&& p == joined(os, path_down(os, root, names), stem + ".app"@)
            },
{
    let (names, sub, k) = found_stands_somewhere(os, WantedView::AppBundle, root, tree);
    let name = name_of(sub.nodes[k]);
    bundles_are_told_by_their_extension(name);
    let stem = choose|stem: Seq<char>| stem.len() > 0 && name == #[trigger] (stem + ".app"@);
    assert(leads_to(tree, names, sub));
    assert(name_of(sub.nodes[k]) == stem + ".app"@);
}

/// A file of the name that is searched for, in the directory itself, goes before
/// all that lies deeper.
pub proof fn files_near_the_root_come_first(
    os: Os,
    name: Seq<char>,
    root: Seq<char>,
    tree: Tree,
)
    requires
        tree.readable,
        tree.nodes.contains(Node::Leaf(name)),
    ensures
        found_under(os, WantedView::FileNamed(name), root, tree) == Some(joined(os, root, name)),
{
    let wanted = WantedView::FileNamed(name);
    let entries = node_entries(tree.nodes);
    let i = choose|i: int| 0 <= i < tree.nodes.len() && tree.nodes[i] == Node::Leaf(name);
    assert(is_hit(wanted, entries[i]));
    first_hit_is_some(wanted, entries);
    let k = first_hit_is_first(wanted, entries);
    assert(entries[k].name == name);
}

/// The first entry of the directory itself that ends in `.app` goes before its
/// other entries and before all that lies deeper.
pub proof fn bundles_near_the_root_come_first(
    os: Os,
    root: Seq<char>,
    tree: Tree,
    k: int,
    stem: Seq<char>,
)
    requires
        tree.readable,
        0 <= k < tree.nodes.len(),
        stem.len() > 0,
        name_of(tree.nodes[k]) == stem + ".app"@,
        forall|j: int, other: Seq<char>|
            0 <= j < k && other.len() > 0 ==> name_of(#[trigger] tree.nodes[j])
                != #[trigger] (other + ".app"@),
    ensures
        found_under(os, WantedView::AppBundle, root, tree) == Some(
            joined(os, root, stem + ".app"@),
        ),
{
    let wanted = WantedView::AppBundle;
    let entries = node_entries(tree.nodes);
    assert(entries[k] == node_entry(tree.nodes[k]));
    bundles_are_told_by_their_extension(entries[k].name);
    assert forall|j: int| 0 <= j < k implies !is_hit(wanted, #[trigger] entries[j]) by {
        assert(entries[j] == node_entry(tree.nodes[j]));
        bundles_are_told_by_their_extension(entries[j].name);
    }
    hit_comes_first(wanted, entries, k);
}

/// Where the directory itself has nothing that is searched for, what lies under
/// the first of its directories that has something is found.
pub proof fn earlier_directories_come_first(
    os: Os,
    wanted: WantedView,
    root: Seq<char>,
    tree: Tree,
    k: int,
    name: Seq<char>,
    sub: Tree,
)
    requires
        tree.readable,
        first_hit(wanted, node_entries(tree.nodes)) is None,
        0 <= k < tree.nodes.len(),
        tree.nodes[k] == Node::Sub(name, sub),
        holds(wanted, sub),
        forall|j: int|
            0 <= j < k ==> (match #[trigger] tree.nodes[j] {
                Node::Sub(_, less) => !holds(wanted, less),
                Node::Leaf(_) => true,
            }),
    ensures
        found_under(os, wanted, root, tree) == found_under(
            os,
            wanted,
            joined(os, root, name),
            sub,
        ),
{
    search_finds_what_is_there(os, wanted, joined(os, root, name), sub);
    goes_on_to(os, wanted, root, tree, 0, k);
}

proof fn goes_on_to(os: Os, wanted: WantedView, root: Seq<char>, tree: Tree, i: int, k: int)
    requires
        0 <= i <= k < tree.nodes.len(),
        forall|j: int|
            0 <= j < k ==> (match #[trigger] tree.nodes[j] {
                Node::Sub(_, less) => !holds(wanted, less),
                Node::Leaf(_) => true,
            }),
    ensures
        found_behind(os, wanted, root, tree, i) == found_behind(os, wanted, root, tree, k),
    decreases k - i,
{
    if i < k {
        goes_on_to(os, wanted, root, tree, i + 1, k);
        if let Node::Sub(name, sub) = tree.nodes[i] {
            search_finds_what_is_there(os, wanted, joined(os, root, name), sub);
        }
    }
}

/// Listing one directory: the path that is found in it, if any, is that of the
/// directory with the name of one of its entries behind it, and nothing is found
/// where none of them is searched for. What is left to list then are the
/// directories among the entries, before all that was left to list before; the
/// first of them is due next.
pub proof fn listing_goes_through_every_directory(
    os: Os,
    wanted: WantedView,
    pending: Seq<Seq<char>>,
    entries: Seq<EntryView>,
)
    requires
        pending.len() > 0,
    ensures
        ({
            let (left, found) = visited(os, wanted, pending, Some(entries));
            &&& found matches Some(p) ==> left == pending.drop_last() && exists|k: int|
                {
                    &&& 0 <= k < entries.len()
                    &&& p == joined(os, pending.last(), (#[trigger] entries[k]).name)
                }
            &&& found is None ==> left.len() >= pending.len() - 1 && left.take(pending.len() - 1)
                == pending.drop_last() && forall|i: int|
                0 <= i < entries.len() && (#[trigger] entries[i]).is_dir ==> left.skip(
                    pending.len() - 1,
                ).contains(joined(os, pending.last(), entries[i].name))
        }),
        visited(os, wanted, pending, None) == (pending.drop_last(), None::<Seq<char>>),
{
    if first_hit(wanted, entries) is Some {
        let k = first_hit_is_first(wanted, entries);
        assert(visited(os, wanted, pending, Some(entries)).1 == Some(
            joined(os, pending.last(), entries[k].name),
        ));
    } else {
        let subs = subdirectories(os, pending.last(), entries);
        let left = pending.drop_last() + subs.reverse();
        assert(left.take(pending.len() - 1) =~= pending.drop_last());
        assert(left.skip(pending.len() - 1) =~= subs.reverse());
        assert forall|i: int| 0 <= i < entries.len() && (#[trigger] entries[i]).is_dir implies
            subs.reverse().contains(joined(os, pending.last(), entries[i].name)) by {
            directory_is_kept(os, pending.last(), entries, i);
            let path = joined(os, pending.last(), entries[i].name);
            let j = choose|j: int| 0 <= j < subs.len() && subs[j] == path;
            assert(subs.reverse()[subs.len() - 1 - j] == path);
        }
    }
}

proof fn directory_is_kept(os: Os, dir: Seq<char>, entries: Seq<EntryView>, i: int)
    requires
        0 <= i < entries.len(),
        entries[i].is_dir,
    ensures
        subdirectories(os, dir, entries).contains(joined(os, dir, entries[i].name)),
    decreases entries.len(),
{
    let before = subdirectories(os, dir, entries.drop_last());
    let all = subdirectories(os, dir, entries);
    let path = joined(os, dir, entries[i].name);
    if i == entries.len() - 1 {
        assert(all[before.len() as int] == path);
    } else {
        directory_is_kept(os, dir, entries.drop_last(), i);
        let j = choose|j: int| 0 <= j < before.len() && before[j] == path;
        assert(all[j] == path);
    }
}

} // verus!
