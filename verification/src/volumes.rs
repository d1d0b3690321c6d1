//! Disk image volumes: which ones are stale, and where an image was mounted.

use vstd::prelude::*;
use crate::plist::{
    every_mount_point_is_found, is_mount_entry, mount_points, mount_points_from_plist,
    no_more_mount_points_than_keys, plist_text, MountEntry,
};
use crate::text::{
    beginning_is_what_stands_first, begins_with, cat2, characters, is_white_space, occurs, owned,
    same_text, starts_with, text_between, texts, trim, trimmed, trimming_leaves_what_is_between,
};

verus! {

broadcast use vstd::string::group_string_axioms;

/// An ASCII digit.
pub open spec fn is_digit(c: char) -> bool {
    '0' <= c <= '9'
}

/// The name is "Tor Browser", or that with a space and a number behind it.
pub open spec fn is_stale_name(name: Seq<char>) -> bool {
    ||| name == "Tor Browser"@
    ||| {
        let prefix = "Tor Browser "@;
        &&& begins_with(name, prefix)
        &&& name.len() > prefix.len()
        &&& forall|i: int| prefix.len() <= i < name.len() ==> is_digit(#[trigger] name[i])
    }
}

/// Whether a volume of this name was left mounted by an earlier attach: macOS
/// auto-suffixes a number onto the volume name to avoid a collision, which is
/// where "Tor Browser 1", "Tor Browser 2", ... come from.
pub fn is_tor_browser_volume(name: &str) -> (r: bool)
    ensures
        r == is_stale_name(name@),
{
    if same_text(name, "Tor Browser") {
        return true;
    }
    proof {
        reveal_strlit("Tor Browser ");
    }
    if !starts_with(name, "Tor Browser ") {
        return false;
    }
    let cs = characters(name);
    if cs.len() == 12 {
        return false;
    }
    let mut i: usize = 12;
    while i < cs.len()
        invariant
            12 <= i <= cs@.len(),
            cs@ == name@,
            name@ != "Tor Browser"@,
            "Tor Browser "@.len() == 12,
            forall|j: int| 12 <= j < i ==> is_digit(#[trigger] name@[j]),
        decreases cs@.len() - i,
    {
        if !('0' <= cs[i] && cs[i] <= '9') {
            assert(!is_digit(name@[i as int]));
            return false;
        }
        i = i + 1;
    }
    true
}

/// The names of a list that belong to volumes left mounted, in their order.
pub open spec fn stale_among(names: Seq<Seq<char>>) -> Seq<Seq<char>> {
    names.filter(|name: Seq<char>| is_stale_name(name))
}

/// The names of a list that belong to volumes left mounted by earlier attach
/// attempts, so that repeated failed installs don't pile up duplicate mounts.
pub fn stale_volumes(names: &Vec<String>) -> (r: Vec<String>)
    ensures
        texts(r@) == stale_among(texts(names@)),
{
    let mut r: Vec<String> = Vec::new();
    let mut i: usize = 0;
    let ghost all = texts(names@);
    proof {
        reveal(Seq::filter);
        assert(texts(r@) =~= stale_among(all.take(0)));
    }
    while i < names.len()
        invariant
            i <= names@.len(),
            all == texts(names@),
            texts(r@) == stale_among(all.take(i as int)),
        decreases names@.len() - i,
    {
        let ghost before = r@;
        proof {
            reveal(Seq::filter);
            assert(all.take(i + 1).drop_last() =~= all.take(i as int));
            assert(all.take(i + 1).last() == names@[i as int]@);
        }
        if is_tor_browser_volume(names[i].as_str()) {
            r.push(owned(names[i].as_str()));
            assert(texts(r@) =~= texts(before).push(names@[i as int]@));
        }
        i = i + 1;
    }
    assert(all.take(i as int) =~= all);
    r
}

// ---------------------------------------------------------------------
// The mount point of an attached image
// ---------------------------------------------------------------------

/// The path is that of a volume.
pub open spec fn is_volume_path(path: Seq<char>) -> bool {
    begins_with(path, "/Volumes/"@)
}

/// The first volume path of a list.
pub open spec fn first_volume(paths: Seq<Seq<char>>) -> Option<Seq<char>>
    decreases paths.len(),
{
    if paths.len() == 0 {
        None
    } else if is_volume_path(paths[0]) {
        Some(paths[0])
    } else {
        first_volume(paths.skip(1))
    }
}

/// How far the first line of a text goes.
pub open spec fn line_end(s: Seq<char>) -> int
    decreases s.len(),
{
    if s.len() == 0 || s[0] == '\n' {
        0
    } else {
        1 + line_end(s.skip(1))
    }
}

/// What stands behind the last tab of a line.
pub open spec fn last_column(line: Seq<char>) -> Seq<char>
    decreases line.len(),
{
    if line.len() == 0 || line.last() == '\t' {
        Seq::<char>::empty()
    } else {
        last_column(line.drop_last()).push(line.last())
    }
}

/// The last columns of the lines of a text, without the white space around
/// them.
pub open spec fn last_columns(s: Seq<char>) -> Seq<Seq<char>>
    decreases s.len(),
{
    let end = line_end(s);
    let here = seq![trimmed(last_column(s.take(end)))];
    if 0 <= end < s.len() {
        here + last_columns(s.skip(end + 1))
    } else {
        here
    }
}

/// Where the output of `hdiutil attach` says that the image was mounted: the
/// first volume of the property list, or, where that has none, the first one
/// in the last column of a line.
pub open spec fn reported_mount_point(stdout: Seq<char>) -> Option<Seq<char>> {
    match first_volume(mount_points(stdout)) {
        Some(path) => Some(path),
        None => first_volume(last_columns(stdout)),
    }
}

proof fn line_end_bounds(s: Seq<char>)
    ensures
        0 <= line_end(s) <= s.len(),
        line_end(s) < s.len() ==> s[line_end(s)] == '\n',
    decreases s.len(),
{
    if s.len() > 0 && s[0] != '\n' {
        line_end_bounds(s.skip(1));
    }
}

/// The characters of `cs` from `from` up to the next line end.
fn end_of_line(cs: &Vec<char>, from: usize) -> (r: usize)
    requires
        from <= cs@.len(),
    ensures
        r == from + line_end(cs@.skip(from as int)),
        from <= r <= cs@.len(),
{
    let mut i: usize = from;
    while i < cs.len() && cs[i] != '\n'
        invariant
            from <= i <= cs@.len(),
            from + line_end(cs@.skip(from as int)) == i + line_end(cs@.skip(i as int)),
        decreases cs@.len() - i,
    {
        assert(cs@.skip(i as int).skip(1) =~= cs@.skip(i + 1));
        i = i + 1;
    }
    i
}

/// What stands behind the last tab of the line from `from` up to `to`.
fn column_of(cs: &Vec<char>, from: usize, to: usize) -> (r: String)
    requires
        from <= to <= cs@.len(),
    ensures
        r@ == last_column(cs@.subrange(from as int, to as int)),
{
    let mut at: usize = to;
    let ghost line = cs@.subrange(from as int, to as int);
    assert(cs@.subrange(at as int, to as int) =~= Seq::<char>::empty());
    assert(last_column(line) =~= last_column(line) + cs@.subrange(at as int, to as int));
    while at > from && cs[at - 1] != '\t'
        invariant
            from <= at <= to <= cs@.len(),
            line == cs@.subrange(from as int, to as int),
            last_column(line) == last_column(cs@.subrange(from as int, at as int)) + cs@.subrange(
                at as int,
                to as int,
            ),
        decreases at - from,
    {
        proof {
            let part = cs@.subrange(from as int, at as int);
            assert(part.drop_last() =~= cs@.subrange(from as int, at - 1));
            assert(last_column(part) + cs@.subrange(at as int, to as int) =~= last_column(
                part.drop_last(),
            ) + cs@.subrange(at - 1, to as int));
        }
        at = at - 1;
    }
    proof {
        assert(last_column(cs@.subrange(from as int, at as int)) =~= Seq::<char>::empty());
        assert(last_column(line) =~= cs@.subrange(at as int, to as int));
    }
    text_between(cs, at, to)
}

/// The first volume in the last column of a line.
fn volume_in_columns(stdout: &str) -> (r: Option<String>)
    ensures
        crate::text::optional_text(r) == first_volume(last_columns(stdout@)),
{
    let cs = characters(stdout);
    let mut from: usize = 0;
    assert(cs@.skip(0) =~= cs@);
    loop
        invariant
            cs@ == stdout@,
            from <= cs@.len(),
            first_volume(last_columns(stdout@)) == first_volume(
                last_columns(cs@.skip(from as int)),
            ),
        decreases cs@.len() - from,
    {
        let ghost rest = cs@.skip(from as int);
        let to = end_of_line(&cs, from);
        let raw = column_of(&cs, from, to);
        let column = trim(raw.as_str());
        proof {
            line_end_bounds(rest);
            assert(cs@.subrange(from as int, to as int) =~= rest.take(line_end(rest)));
            let cols = last_columns(rest);
            assert(cols[0] == column@);
            if to < cs@.len() {
                assert(rest.skip(line_end(rest) + 1) =~= cs@.skip(to + 1));
                assert(cols.skip(1) =~= last_columns(cs@.skip(to + 1)));
            } else {
                assert(cols.skip(1) =~= Seq::<Seq<char>>::empty());
                assert(first_volume(cols.skip(1)) is None);
            }
        }
        if starts_with(column.as_str(), "/Volumes/") {
            return Some(column);
        }
        if to == cs.len() {
            return None;
        }
        from = to + 1;
    }
}

/// Where the output of `hdiutil attach` says that the image was mounted.
///
/// The property list is the form that is documented as stable. The column
/// layout of the plain-text table has shifted across macOS versions, so it is
/// read only where the property list gives no volume.
pub fn mount_point_from_output(stdout: &str) -> (r: Option<String>)
    ensures
        crate::text::optional_text(r) == reported_mount_point(stdout@),
{
    let listed = mount_points_from_plist(stdout);
    let mut i: usize = 0;
    assert(texts(listed@).skip(0) =~= texts(listed@));
    while i < listed.len()
        invariant
            i <= listed@.len(),
            first_volume(texts(listed@)) == first_volume(texts(listed@).skip(i as int)),
            texts(listed@) == mount_points(stdout@),
        decreases listed@.len() - i,
    {
        assert(texts(listed@).skip(i as int)[0] == listed@[i as int]@);
        assert(texts(listed@).skip(i as int).skip(1) =~= texts(listed@).skip(i + 1));
        if starts_with(listed[i].as_str(), "/Volumes/") {
            return Some(owned(listed[i].as_str()));
        }
        i = i + 1;
    }
    volume_in_columns(stdout)
}

/// The first volume that is there now and was not before.
pub open spec fn first_new(before: Seq<Seq<char>>, after: Seq<Seq<char>>) -> Option<Seq<char>>
    decreases after.len(),
{
    if after.len() == 0 {
        None
    } else if !before.contains(after[0]) {
        Some(after[0])
    } else {
        first_new(before, after.skip(1))
    }
}

fn is_listed(names: &Vec<String>, name: &str) -> (r: bool)
    ensures
        r == texts(names@).contains(name@),
{
    let mut i: usize = 0;
    while i < names.len()
        invariant
            i <= names@.len(),
            forall|j: int| 0 <= j < i ==> #[trigger] texts(names@)[j] != name@,
        decreases names@.len() - i,
    {
        if same_text(names[i].as_str(), name) {
            assert(texts(names@)[i as int] == name@);
            return true;
        }
        assert(texts(names@)[i as int] != name@);
        i = i + 1;
    }
    false
}

/// The path of the volume that appeared under `/Volumes` while an image was
/// attached. `hdiutil` can report success with empty output while still
/// mounting the volume; the names before and after then tell where.
pub fn new_volume(before: &Vec<String>, after: &Vec<String>) -> (r: Option<String>)
    ensures
        crate::text::optional_text(r) == (match first_new(texts(before@), texts(after@)) {
            Some(name) => Some("/Volumes/"@ + name),
            None => None,
        }),
{
    let mut i: usize = 0;
    assert(texts(after@).skip(0) =~= texts(after@));
    while i < after.len()
        invariant
            i <= after@.len(),
            first_new(texts(before@), texts(after@)) == first_new(
                texts(before@),
                texts(after@).skip(i as int),
            ),
        decreases after@.len() - i,
    {
        assert(texts(after@).skip(i as int)[0] == after@[i as int]@);
        assert(texts(after@).skip(i as int).skip(1) =~= texts(after@).skip(i + 1));
        if !is_listed(before, after[i].as_str()) {
            return Some(cat2("/Volumes/", after[i].as_str()));
        }
        i = i + 1;
    }
    None
}

// ---------------------------------------------------------------------
// Laws
// ---------------------------------------------------------------------

/// The first path of a list that begins with `/Volumes/` is the one that is
/// taken.
proof fn first_volume_at(paths: Seq<Seq<char>>, k: int, rest: Seq<char>)
    requires
        0 <= k < paths.len(),
        paths[k] == "/Volumes/"@ + rest,
        forall|j: int, other: Seq<char>|
            0 <= j < k ==> #[trigger] paths[j] != #[trigger] ("/Volumes/"@ + other),
    ensures
        first_volume(paths) == Some("/Volumes/"@ + rest),
    decreases k,
{
    beginning_is_what_stands_first(paths[0], "/Volumes/"@);
    if k > 0 {
        let later = paths.skip(1);
        assert(later[k - 1] == paths[k]);
        assert forall|j: int, other: Seq<char>| 0 <= j < k - 1 implies #[trigger] later[j]
            != #[trigger] ("/Volumes/"@ + other) by {
            assert(later[j] == paths[j + 1]);
        }
        first_volume_at(later, k - 1, rest);
    }
}

proof fn no_volume_at_all(paths: Seq<Seq<char>>)
    requires
        forall|j: int, other: Seq<char>|
            0 <= j < paths.len() ==> #[trigger] paths[j] != #[trigger] ("/Volumes/"@ + other),
    ensures
        first_volume(paths) is None,
    decreases paths.len(),
{
    if paths.len() > 0 {
        beginning_is_what_stands_first(paths[0], "/Volumes/"@);
        let later = paths.skip(1);
        assert forall|j: int, other: Seq<char>| 0 <= j < later.len() implies #[trigger] later[j]
            != #[trigger] ("/Volumes/"@ + other) by {
            assert(later[j] == paths[j + 1]);
        }
        no_volume_at_all(later);
    }
}

/// The image is mounted where the first entry of the property list that lies
/// under `/Volumes/` says, character for character, whatever characters the name
/// of the volume has: spaces, quotes, `&`.
pub proof fn first_listed_volume_is_reported_whole(
    entries: Seq<MountEntry>,
    end: Seq<char>,
    k: int,
    name: Seq<char>,
)
    requires
        forall|i: int| 0 <= i < entries.len() ==> is_mount_entry(#[trigger] entries[i]),
        !occurs(end, "<key>mount-point</key>"@),
        0 <= k < entries.len(),
        entries[k].path == "/Volumes/"@ + name,
        forall|j: int, other: Seq<char>|
            0 <= j < k ==> (#[trigger] entries[j]).path != #[trigger] ("/Volumes/"@ + other),
    ensures
        reported_mount_point(plist_text(entries, end)) == Some("/Volumes/"@ + name),
{
    every_mount_point_is_found(entries, end);
    let paths = entries.map_values(|e: MountEntry| e.path);
    assert(paths[k] == entries[k].path);
    assert forall|j: int, other: Seq<char>| 0 <= j < k implies #[trigger] paths[j]
        != #[trigger] ("/Volumes/"@ + other) by {
        assert(paths[j] == entries[j].path);
    }
    first_volume_at(paths, k, name);
}

/// A property list decides alone where it lists a volume: nothing that stands
/// elsewhere in the output, such as a table, changes what is reported.
pub proof fn listed_volumes_go_before_columns(stdout: Seq<char>, k: int, name: Seq<char>)
    requires
        0 <= k < mount_points(stdout).len(),
        mount_points(stdout)[k] == "/Volumes/"@ + name,
        forall|j: int, other: Seq<char>|
            0 <= j < k ==> #[trigger] mount_points(stdout)[j] != #[trigger] ("/Volumes/"@ + other),
    ensures
        reported_mount_point(stdout) == Some("/Volumes/"@ + name),
{
    first_volume_at(mount_points(stdout), k, name);
}

/// Whatever `hdiutil` prints, what is reported lies under `/Volumes/`.
pub proof fn what_is_reported_is_a_volume(stdout: Seq<char>)
    ensures
        reported_mount_point(stdout) matches Some(path) ==> exists|name: Seq<char>|
            path == #[trigger] ("/Volumes/"@ + name),
{
    if let Some(path) = reported_mount_point(stdout) {
        first_volume_is_one(mount_points(stdout));
        first_volume_is_one(last_columns(stdout));
        beginning_is_what_stands_first(path, "/Volumes/"@);
    }
}

proof fn first_volume_is_one(paths: Seq<Seq<char>>)
    ensures
        first_volume(paths) matches Some(path) ==> begins_with(path, "/Volumes/"@),
    decreases paths.len(),
{
    if paths.len() > 0 {
        first_volume_is_one(paths.skip(1));
    }
}

/// A line of the table that `hdiutil attach` prints: what stands before the last
/// column, the blanks around that column, and the column itself.
pub struct TableRow {
    pub before: Seq<char>,
    pub left: Seq<char>,
    pub column: Seq<char>,
    pub right: Seq<char>,
}

/// The line is one that can be printed: it has no line end in it, the column has
/// no tab, and only blanks stand around the column.
pub open spec fn is_table_row(row: TableRow) -> bool {
    &&& forall|i: int| 0 <= i < row.before.len() ==> row.before[i] != '\n'
    &&& forall|i: int|
        0 <= i < row.left.len() ==> (#[trigger] row.left[i]) != '\n' && row.left[i] != '\t'
            && is_white_space(row.left[i])
    &&& forall|i: int|
        0 <= i < row.right.len() ==> (#[trigger] row.right[i]) != '\n' && row.right[i] != '\t'
            && is_white_space(row.right[i])
    &&& forall|i: int|
        0 <= i < row.column.len() ==> (#[trigger] row.column[i]) != '\n' && row.column[i] != '\t'
    &&& row.column.len() > 0 ==> !is_white_space(row.column[0]) && !is_white_space(
        row.column.last(),
    )
}

/// The lines of a table, each with a line end behind it.
pub open spec fn table_text(rows: Seq<TableRow>) -> Seq<char>
    decreases rows.len(),
{
    if rows.len() == 0 {
        Seq::<char>::empty()
    } else {
        let row = rows[0];
        row.before + seq!['\t'] + (row.left + row.column + row.right) + seq!['\n'] + table_text(
            rows.skip(1),
        )
    }
}

proof fn line_ends_there(line: Seq<char>, rest: Seq<char>)
    requires
        forall|i: int| 0 <= i < line.len() ==> line[i] != '\n',
    ensures
        line_end(line + seq!['\n'] + rest) == line.len(),
    decreases line.len(),
{
    let s = line + seq!['\n'] + rest;
    if line.len() > 0 {
        assert(s[0] == line[0]);
        assert(s.skip(1) =~= line.skip(1) + seq!['\n'] + rest);
        line_ends_there(line.skip(1), rest);
    }
}

proof fn column_stands_last(before: Seq<char>, column: Seq<char>)
    requires
        forall|i: int| 0 <= i < column.len() ==> column[i] != '\t',
    ensures
        last_column(before + seq!['\t'] + column) == column,
    decreases column.len(),
{
    let line = before + seq!['\t'] + column;
    if column.len() == 0 {
        assert(last_column(line) =~= column);
    } else {
        assert(line.drop_last() =~= before + seq!['\t'] + column.drop_last());
        column_stands_last(before, column.drop_last());
        assert(last_column(line) =~= column);
    }
}

/// Behind the last column of a table comes one more line, which is empty.
proof fn columns_of_a_table(rows: Seq<TableRow>)
    requires
        forall|i: int| 0 <= i < rows.len() ==> is_table_row(#[trigger] rows[i]),
    ensures
        last_columns(table_text(rows)) == rows.map_values(|r: TableRow| r.column).push(
            Seq::<char>::empty(),
        ),
    decreases rows.len(),
{
    let text = table_text(rows);
    let none = Seq::<char>::empty();
    let columns = rows.map_values(|r: TableRow| r.column);
    if rows.len() == 0 {
        trimming_leaves_what_is_between(none, none, none);
        assert(none + none + none =~= none);
        assert(text.take(0) =~= none);
        assert(last_column(none) =~= none);
        assert(last_columns(text) =~= columns.push(none));
    } else {
        let row = rows[0];
        let cell = row.left + row.column + row.right;
        let line = row.before + seq!['\t'] + cell;
        let rest = table_text(rows.skip(1));
        columns_of_a_table(rows.skip(1));
        assert(text =~= line + seq!['\n'] + rest);
        line_ends_there(line, rest);
        assert(text.take(line.len() as int) =~= line);
        column_stands_last(row.before, cell);
        trimming_leaves_what_is_between(row.left, row.column, row.right);
        assert(text.skip(line.len() as int + 1) =~= rest);
        assert(seq![row.column] + rows.skip(1).map_values(|r: TableRow| r.column) =~= columns);
        assert(last_columns(text) =~= columns.push(none));
    }
}

/// Where the output is a table, the image is mounted where the first line says
/// whose last column lies under `/Volumes/`: the whole column, without the blanks
/// around it.
pub proof fn first_volume_of_a_table_is_reported_whole(
    rows: Seq<TableRow>,
    k: int,
    name: Seq<char>,
)
    requires
        forall|i: int| 0 <= i < rows.len() ==> is_table_row(#[trigger] rows[i]),
        !occurs(table_text(rows), "<key>mount-point</key>"@),
        0 <= k < rows.len(),
        rows[k].column == "/Volumes/"@ + name,
        forall|j: int, other: Seq<char>|
            0 <= j < k ==> (#[trigger] rows[j]).column != #[trigger] ("/Volumes/"@ + other),
    ensures
        reported_mount_point(table_text(rows)) == Some("/Volumes/"@ + name),
{
    no_more_mount_points_than_keys(table_text(rows));
    columns_of_a_table(rows);
    let columns = last_columns(table_text(rows));
    assert(columns[k] == rows[k].column);
    assert forall|j: int, other: Seq<char>| 0 <= j < k implies #[trigger] columns[j]
        != #[trigger] ("/Volumes/"@ + other) by {
        assert(columns[j] == rows[j].column);
    }
    first_volume_at(columns, k, name);
}

/// A table without a volume in its last column reports nothing.
pub proof fn table_without_volume_reports_nothing(rows: Seq<TableRow>)
    requires
        forall|i: int| 0 <= i < rows.len() ==> is_table_row(#[trigger] rows[i]),
        !occurs(table_text(rows), "<key>mount-point</key>"@),
        forall|j: int, other: Seq<char>|
            0 <= j < rows.len() ==> (#[trigger] rows[j]).column != #[trigger] ("/Volumes/"@
                + other),
    ensures
        reported_mount_point(table_text(rows)) is None,
{
    no_more_mount_points_than_keys(table_text(rows));
    columns_of_a_table(rows);
    let columns = last_columns(table_text(rows));
    reveal_strlit("/Volumes/");
    assert forall|j: int, other: Seq<char>| 0 <= j < columns.len() implies #[trigger] columns[j]
        != #[trigger] ("/Volumes/"@ + other) by {
        if j < rows.len() {
            assert(columns[j] == rows[j].column);
        } else {
            assert(columns[j].len() == 0);
        }
    }
    no_volume_at_all(columns);
}

/// A volume was left behind by an earlier attach if and only if it is called
/// "Tor Browser", or that with a space and a number.
pub proof fn stale_names_are_numbered(name: Seq<char>)
    ensures
        is_stale_name(name) <==> name == "Tor Browser"@ || exists|number: Seq<char>|
            {
                &&& name == #[trigger] ("Tor Browser "@ + number)
                &&& number.len() > 0
                &&& forall|i: int| 0 <= i < number.len() ==> '0' <= #[trigger] number[i] <= '9'
            },
{
    let prefix = "Tor Browser "@;
    if is_stale_name(name) && name != "Tor Browser"@ {
        let number = name.skip(prefix.len() as int);
        assert(name =~= prefix + number);
        assert forall|i: int| 0 <= i < number.len() implies '0' <= #[trigger] number[i]
            <= '9' by {
            assert(is_digit(name[prefix.len() + i]));
        }
    }
    assert forall|number: Seq<char>|
        {
            &&& name == #[trigger] (prefix + number)
            &&& number.len() > 0
            &&& forall|i: int| 0 <= i < number.len() ==> '0' <= #[trigger] number[i] <= '9'
        } implies is_stale_name(name) by {
        assert(name.subrange(0, prefix.len() as int) =~= prefix);
        assert forall|i: int| prefix.len() <= i < name.len() implies is_digit(
            #[trigger] name[i],
        ) by {
            assert(name[i] == number[i - prefix.len()]);
        }
    }
}

/// Of a list of volumes, one more name is detached too if it was left behind, and
/// makes no difference otherwise: each such name is kept, whole, in its place.
pub proof fn every_stale_volume_is_kept(names: Seq<Seq<char>>, name: Seq<char>)
    ensures
        stale_among(Seq::<Seq<char>>::empty()) == Seq::<Seq<char>>::empty(),
        stale_among(names.push(name)) == (if is_stale_name(name) {
            stale_among(names).push(name)
        } else {
            stale_among(names)
        }),
{
    reveal(Seq::filter);
    assert(names.push(name).drop_last() =~= names);
    assert(stale_among(Seq::<Seq<char>>::empty()) =~= Seq::<Seq<char>>::empty());
}

/// The volume that an attach has mounted is the first one that is there now and
/// was not there before; where all were there before, there is none.
pub proof fn new_volume_was_not_there_before(before: Seq<Seq<char>>, after: Seq<Seq<char>>)
    ensures
        match first_new(before, after) {
            Some(name) => exists|k: int|
                {
                    &&& 0 <= k < after.len()
                    &&& #[trigger] after[k] == name
                    &&& !before.contains(name)
                    &&& forall|j: int| 0 <= j < k ==> before.contains(#[trigger] after[j])
                },
            None => forall|j: int| 0 <= j < after.len() ==> before.contains(#[trigger] after[j]),
        },
    decreases after.len(),
{
    if after.len() > 0 {
        let later = after.skip(1);
        new_volume_was_not_there_before(before, later);
        if !before.contains(after[0]) {
            assert(after[0] == first_new(before, after)->0);
        } else if let Some(name) = first_new(before, later) {
            let k = choose|k: int|
                {
                    &&& 0 <= k < later.len()
                    &&& #[trigger] later[k] == name
                    &&& !before.contains(name)
                    &&& forall|j: int| 0 <= j < k ==> before.contains(#[trigger] later[j])
                };
            assert(after[k + 1] == name);
            assert forall|j: int| 0 <= j < k + 1 implies before.contains(#[trigger] after[j]) by {
                if j > 0 {
                    assert(later[j - 1] == after[j]);
                }
            }
        } else {
            assert forall|j: int| 0 <= j < after.len() implies before.contains(
                #[trigger] after[j],
            ) by {
                if j > 0 {
                    assert(later[j - 1] == after[j]);
                }
            }
        }
    }
}

/// A text is read line by line. The last column of a line is what stands behind
/// its last tab, and the whole line where it has no tab; blanks around it do not
/// count.
pub proof fn columns_are_read_line_by_line(
    line: Seq<char>,
    before: Seq<char>,
    column: Seq<char>,
    rest: Seq<char>,
)
    requires
        forall|i: int| 0 <= i < line.len() ==> line[i] != '\n',
        forall|i: int| 0 <= i < column.len() ==> column[i] != '\t',
    ensures
        last_columns(line + seq!['\n'] + rest) == seq![trimmed(last_column(line))] + last_columns(
            rest,
        ),
        last_columns(line) == seq![trimmed(last_column(line))],
        last_column(before + seq!['\t'] + column) == column,
        last_column(column) == column,
{
    let text = line + seq!['\n'] + rest;
    line_ends_there(line, rest);
    assert(text.take(line.len() as int) =~= line);
    assert(text.skip(line.len() as int + 1) =~= rest);
    column_stands_last(before, column);
    line_is_a_column(column);
    line_without_end(line);
    assert(line.take(line.len() as int) =~= line);
}

proof fn line_is_a_column(line: Seq<char>)
    requires
        forall|i: int| 0 <= i < line.len() ==> line[i] != '\t',
    ensures
        last_column(line) == line,
    decreases line.len(),
{
    if line.len() > 0 {
        line_is_a_column(line.drop_last());
        assert(last_column(line) =~= line);
    } else {
        assert(last_column(line) =~= line);
    }
}

proof fn line_without_end(line: Seq<char>)
    requires
        forall|i: int| 0 <= i < line.len() ==> line[i] != '\n',
    ensures
        line_end(line) == line.len(),
    decreases line.len(),
{
    if line.len() > 0 {
        line_without_end(line.skip(1));
    }
}

} // verus!
