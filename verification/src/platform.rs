//! What differs from one operating system to the next: names, release files,
//! install locations, and where an earlier install is looked for.

use vstd::prelude::*;
use crate::text::{begins_with, cat2, cat3, characters, owned, same_text};

verus! {

broadcast use vstd::string::group_string_axioms;

/// The operating system that the program is built for.
#[derive(Debug, Clone, Copy, PartialEq, Eq, Structural)]
pub enum Os {
    MacOs,
    Windows,
    Linux,
    Other,
}

/// The processor that the program is built for.
#[derive(Debug, Clone, Copy, PartialEq, Eq, Structural)]
pub enum Arch {
    X86_64,
    Other,
}

/// A build target. One binary is compiled per target, and every rule of this
/// library that depends on it takes it as a value.
#[derive(Debug, Clone, Copy, PartialEq, Eq, Structural)]
pub struct Target {
    pub os: Os,
    pub arch: Arch,
}

/// The name of the operating system for people to read.
pub open spec fn label_of(os: Os) -> Seq<char> {
    match os {
        Os::MacOs => "macOS"@,
        Os::Windows => "Windows"@,
        Os::Linux => "Linux"@,
        Os::Other => "this platform"@,
    }
}

/// Human-readable label of the platform.
pub fn platform_label(target: Target) -> (r: &'static str)
    ensures
        r@ == label_of(target.os),
{
    match target.os {
        Os::MacOs => "macOS",
        Os::Windows => "Windows",
        Os::Linux => "Linux",
        Os::Other => "this platform",
    }
}

/// The file of the release index that describes the release for a target.
pub open spec fn release_file_of(target: Target) -> Seq<char> {
    match (target.os, target.arch) {
        (Os::MacOs, _) => "download-macos.json"@,
        (Os::Windows, Arch::X86_64) => "download-windows-x86_64.json"@,
        (Os::Windows, Arch::Other) => "download-windows-i686.json"@,
        (Os::Linux, Arch::X86_64) => "download-linux-x86_64.json"@,
        (Os::Linux, Arch::Other) => "download-linux-i686.json"@,
        (Os::Other, _) => "download-linux-i686.json"@,
    }
}

/// The release JSON filename for this platform/architecture, matching the
/// files listed at aus1.torproject.org/torbrowser/update_3/release/.
pub fn release_json_filename(target: Target) -> (r: &'static str)
    ensures
        r@ == release_file_of(target),
{
    match target.os {
        Os::MacOs => "download-macos.json",
        Os::Windows => match target.arch {
            Arch::X86_64 => "download-windows-x86_64.json",
            Arch::Other => "download-windows-i686.json",
        },
        Os::Linux => match target.arch {
            Arch::X86_64 => "download-linux-x86_64.json",
            Arch::Other => "download-linux-i686.json",
        },
        Os::Other => "download-linux-i686.json",
    }
}

/// The extension of a release archive.
pub open spec fn extension_of(os: Os) -> Seq<char> {
    match os {
        Os::MacOs => "dmg"@,
        Os::Windows => "exe"@,
        _ => "tar.xz"@,
    }
}

/// File extension for the downloaded release archive on this platform.
pub fn archive_extension(target: Target) -> (r: &'static str)
    ensures
        r@ == extension_of(target.os),
{
    match target.os {
        Os::MacOs => "dmg",
        Os::Windows => "exe",
        Os::Linux => "tar.xz",
        Os::Other => "tar.xz",
    }
}

// ---------------------------------------------------------------------
// Paths
// ---------------------------------------------------------------------

/// The character that separates the parts of a path.
pub open spec fn separator(os: Os) -> char {
    if os == Os::Windows {
        '\\'
    } else {
        '/'
    }
}

/// The path is a bare drive such as `C:`.
pub open spec fn is_bare_drive(path: Seq<char>) -> bool {
    path.len() == 2 && path[1] == ':' && ('a' <= path[0] <= 'z' || 'A' <= path[0] <= 'Z')
}

/// The character separates the parts of a path.
pub open spec fn is_separator(os: Os, c: char) -> bool {
    c == '/' || os == Os::Windows && c == '\\'
}

/// What a path begins with, before its root.
#[derive(Debug, Clone, Copy, PartialEq, Eq, Structural)]
pub enum PrefixKind {
    Nothing,
    /// A drive such as `C:`.
    Drive,
    /// A network share such as `\\server\share`, or a device such as `\\.\COM1`.
    Place,
    /// A prefix behind `\\?\`. In such a path only `\` separates, and a part
    /// `.` is a name like any other.
    Verbatim,
}

/// The character separates the parts of a path with this kind of prefix.
pub open spec fn divides(os: Os, kind: PrefixKind, c: char) -> bool {
    if kind == PrefixKind::Verbatim {
        c == '\\'
    } else {
        is_separator(os, c)
    }
}

/// The path begins with this text, with `/` or `\` wherever the text has `\`.
pub open spec fn begins_like(path: Seq<char>, text: Seq<char>) -> bool {
    &&& text.len() <= path.len()
    &&& forall|i: int|
        0 <= i < text.len() ==> #[trigger] path[i] == text[i] || text[i] == '\\' && path[i] == '/'
}

/// Where the part of a path on Windows that begins at `from` ends.
pub open spec fn part_end(kind: PrefixKind, path: Seq<char>, from: int) -> int
    decreases path.len() - from,
{
    if from >= path.len() || divides(Os::Windows, kind, path[from]) {
        from
    } else {
        part_end(kind, path, from + 1)
    }
}

/// Where the name of a network share ends, whose server begins at `from`: behind
/// the server where no share is named.
pub open spec fn share_end(kind: PrefixKind, path: Seq<char>, from: int) -> int {
    let server = part_end(kind, path, from);
    if server < path.len() && part_end(kind, path, server + 1) > server + 1 {
        part_end(kind, path, server + 1)
    } else {
        server
    }
}

/// A drive such as `C:` stands at `i`.
pub open spec fn is_drive_at(path: Seq<char>, i: int) -> bool {
    i + 1 < path.len() && path[i + 1] == ':' && ('a' <= path[i] <= 'z' || 'A' <= path[i] <= 'Z')
}

/// Where the prefix of a path ends, and what it is. Only on Windows has a path
/// one.
pub open spec fn prefix_of(os: Os, path: Seq<char>) -> (int, PrefixKind) {
    if os != Os::Windows {
        (0, PrefixKind::Nothing)
    } else if !begins_like(path, "\\\\"@) {
        if is_drive_at(path, 0) {
            (2, PrefixKind::Drive)
        } else {
            (0, PrefixKind::Nothing)
        }
    } else if begins_with(path, "\\\\?\\"@) {
        if begins_like(path, "\\\\?\\UNC\\"@) {
            (share_end(PrefixKind::Verbatim, path, 8), PrefixKind::Verbatim)
        } else if is_drive_at(path, 4) && (path.len() == 6 || is_separator(os, path[6])) {
            (6, PrefixKind::Verbatim)
        } else {
            (part_end(PrefixKind::Verbatim, path, 4), PrefixKind::Verbatim)
        }
    } else if begins_like(path, "\\\\.\\"@) {
        (part_end(PrefixKind::Place, path, 4), PrefixKind::Place)
    } else {
        let server = part_end(PrefixKind::Place, path, 2);
        let share = share_end(PrefixKind::Place, path, 2);
        if 2 < server < share {
            (share, PrefixKind::Place)
        } else {
            (0, PrefixKind::Nothing)
        }
    }
}

/// Something can follow the path without a separator in between: the path is
/// empty, ends in a separator, or is a bare drive on Windows.
pub open spec fn is_open_ended(os: Os, path: Seq<char>) -> bool {
    ||| path.len() == 0
    ||| divides(os, prefix_of(os, path).1, path.last())
    ||| os == Os::Windows && is_bare_drive(path)
}

/// The path of `name` in the directory `base`.
pub open spec fn joined(os: Os, base: Seq<char>, name: Seq<char>) -> Seq<char> {
    if is_open_ended(os, base) {
        base + name
    } else {
        base.push(separator(os)) + name
    }
}

/// The path of `name`, a relative path, in the directory `base`.
pub fn join_path(os: Os, base: &str, name: &str) -> (r: String)
    ensures
        r@ == joined(os, base@, name@),
{
    let cs = characters(base);
    let n: usize = cs.len();
    let (_, kind) = read_prefix(os, &cs);
    if n == 0 || is_divider(os, kind, cs[n - 1]) {
        return cat2(base, name);
    }
    if os == Os::Windows {
        if n == 2 && drive_at(&cs, 0) {
            return cat2(base, name);
        }
        proof {
            reveal_strlit("\\");
            assert(base@ + "\\"@ =~= base@.push('\\'));
        }
        return cat3(base, "\\", name);
    }
    proof {
        reveal_strlit("/");
        assert(base@ + "/"@ =~= base@.push('/'));
    }
    cat3(base, "/", name)
}

/// Where the last part of a path begins: behind its last separator `/`.
pub open spec fn last_part_at(path: Seq<char>) -> int
    decreases path.len(),
{
    if path.len() == 0 || path.last() == '/' {
        path.len() as int
    } else {
        last_part_at(path.drop_last())
    }
}

/// The last part of a path: what stands behind its last `/`.
pub open spec fn last_part(path: Seq<char>) -> Seq<char> {
    path.skip(last_part_at(path))
}

/// The last part of a path: what stands behind its last `/`.
pub(crate) fn file_name(path: &str) -> (r: String)
    ensures
        r@ == last_part(path@),
{
    let cs = characters(path);
    let mut at: usize = cs.len();
    assert(cs@.take(cs@.len() as int) =~= cs@);
    while at > 0 && cs[at - 1] != '/'
        invariant
            at <= cs@.len(),
            cs@ == path@,
            last_part_at(path@) == last_part_at(cs@.take(at as int)),
        decreases at,
    {
        assert(cs@.take(at as int).drop_last() =~= cs@.take(at - 1));
        at = at - 1;
    }
    assert(last_part_at(cs@.take(at as int)) == at);
    assert(cs@.subrange(at as int, cs@.len() as int) =~= cs@.skip(at as int));
    crate::text::text_between(&cs, at, cs.len())
}

fn separates(os: Os, c: char) -> (r: bool)
    ensures
        r == is_separator(os, c),
{
    c == '/' || (os == Os::Windows && c == '\\')
}

fn is_divider(os: Os, kind: PrefixKind, c: char) -> (r: bool)
    ensures
        r == divides(os, kind, c),
{
    if kind == PrefixKind::Verbatim {
        c == '\\'
    } else {
        separates(os, c)
    }
}

fn looks_like(cs: &Vec<char>, text: &str) -> (r: bool)
    ensures
        r == begins_like(cs@, text@),
{
    let ts = characters(text);
    if ts.len() > cs.len() {
        return false;
    }
    let mut i: usize = 0;
    while i < ts.len()
        invariant
            i <= ts@.len() <= cs@.len(),
            ts@ == text@,
            forall|k: int|
                0 <= k < i ==> #[trigger] cs@[k] == text@[k] || text@[k] == '\\' && cs@[k] == '/',
        decreases ts@.len() - i,
    {
        if cs[i] != ts[i] && !(ts[i] == '\\' && cs[i] == '/') {
            return false;
        }
        i = i + 1;
    }
    true
}

fn end_of_part(kind: PrefixKind, cs: &Vec<char>, from: usize) -> (r: usize)
    requires
        from <= cs@.len(),
    ensures
        r == part_end(kind, cs@, from as int),
        from <= r <= cs@.len(),
{
    let mut at: usize = from;
    while at < cs.len() && !is_divider(Os::Windows, kind, cs[at])
        invariant
            from <= at <= cs@.len(),
            part_end(kind, cs@, at as int) == part_end(kind, cs@, from as int),
        decreases cs@.len() - at,
    {
        at = at + 1;
    }
    at
}

fn end_of_share(kind: PrefixKind, cs: &Vec<char>, from: usize) -> (r: usize)
    requires
        from <= cs@.len(),
    ensures
        r == share_end(kind, cs@, from as int),
        from <= r <= cs@.len(),
{
    let server: usize = end_of_part(kind, cs, from);
    if server < cs.len() {
        let share: usize = end_of_part(kind, cs, server + 1);
        if share > server + 1 {
            return share;
        }
    }
    server
}

fn drive_at(cs: &Vec<char>, i: usize) -> (r: bool)
    requires
        i <= 4,
    ensures
        r == is_drive_at(cs@, i as int),
{
    i + 1 < cs.len() && cs[i + 1] == ':' && (('a' <= cs[i] && cs[i] <= 'z') || ('A' <= cs[i]
        && cs[i] <= 'Z'))
}

/// The prefix of a path, and where it ends.
fn read_prefix(os: Os, cs: &Vec<char>) -> (r: (usize, PrefixKind))
    ensures
        (r.0 as int, r.1) == prefix_of(os, cs@),
        r.0 <= cs@.len(),
{
    if os != Os::Windows {
        return (0, PrefixKind::Nothing);
    }
    if !looks_like(cs, "\\\\") {
        return if drive_at(cs, 0) {
            (2, PrefixKind::Drive)
        } else {
            (0, PrefixKind::Nothing)
        };
    }
    proof {
        reveal_strlit("\\\\");
        reveal_strlit("\\\\?\\");
        reveal_strlit("\\\\?\\UNC\\");
        reveal_strlit("\\\\.\\");
    }
    let verbatim = characters("\\\\?\\");
    if crate::text::stands_at(cs, &verbatim, 0) {
        if looks_like(cs, "\\\\?\\UNC\\") {
            return (end_of_share(PrefixKind::Verbatim, cs, 8), PrefixKind::Verbatim);
        }
        if drive_at(cs, 4) && (cs.len() == 6 || separates(os, cs[6])) {
            return (6, PrefixKind::Verbatim);
        }
        return (end_of_part(PrefixKind::Verbatim, cs, 4), PrefixKind::Verbatim);
    }
    if looks_like(cs, "\\\\.\\") {
        return (end_of_part(PrefixKind::Place, cs, 4), PrefixKind::Place);
    }
    let server: usize = end_of_part(PrefixKind::Place, cs, 2);
    let share: usize = end_of_share(PrefixKind::Place, cs, 2);
    if 2 < server && server < share {
        (share, PrefixKind::Place)
    } else {
        (0, PrefixKind::Nothing)
    }
}

/// The path begins with a part `.`, behind nothing but a drive.
pub open spec fn begins_here(os: Os, path: Seq<char>) -> bool {
    let (n, kind) = prefix_of(os, path);
    &&& kind == PrefixKind::Nothing || kind == PrefixKind::Drive
    &&& n < path.len() && path[n] == '.'
    &&& n + 1 == path.len() || is_separator(os, path[n + 1])
}

/// Where the parts of a path begin: behind its prefix, its root and a first `.`.
pub open spec fn parts_start(os: Os, path: Seq<char>) -> int {
    let n = prefix_of(os, path).0;
    if n < path.len() && is_separator(os, path[n]) || begins_here(os, path) {
        n + 1
    } else {
        n
    }
}

/// The path, whose parts begin at `start`, without separators and parts `.` at
/// its end.
pub open spec fn tidied(os: Os, kind: PrefixKind, path: Seq<char>, start: int) -> Seq<char>
    decreases path.len(),
{
    if path.len() > 0 && path.len() > start && (divides(os, kind, path.last()) || kind
        != PrefixKind::Verbatim && path.last() == '.' && (path.len() - 1 == start || divides(
        os,
        kind,
        path[path.len() - 2],
    ))) {
        tidied(os, kind, path.drop_last(), start)
    } else {
        path
    }
}

/// The path without its last part, up to and with the separator before it.
pub open spec fn without_last_part(
    os: Os,
    kind: PrefixKind,
    path: Seq<char>,
    start: int,
) -> Seq<char>
    decreases path.len(),
{
    if path.len() == 0 || path.len() <= start || divides(os, kind, path.last()) {
        path
    } else {
        without_last_part(os, kind, path.drop_last(), start)
    }
}

/// The folder in which the last part of a path stands, as a path that ends in no
/// superfluous separator and no `.`. A first `.` is a part that stands in the
/// empty path. There is no folder where the path ends in a root or a prefix, or
/// is empty.
pub open spec fn folder_of(os: Os, path: Seq<char>) -> Option<Seq<char>> {
    let kind = prefix_of(os, path).1;
    let start = parts_start(os, path);
    let body = tidied(os, kind, path, start);
    if body.len() > start {
        Some(tidied(os, kind, without_last_part(os, kind, body, start), start))
    } else if kind == PrefixKind::Nothing && begins_here(os, path) {
        Some(Seq::empty())
    } else {
        None
    }
}

/// Where the path that ends at `end` ends when it is tidied.
fn tidy_end(os: Os, kind: PrefixKind, cs: &Vec<char>, start: usize, end: usize) -> (r: usize)
    requires
        start <= end <= cs@.len(),
    ensures
        start <= r <= end,
        cs@.take(r as int) == tidied(os, kind, cs@.take(end as int), start as int),
{
    let mut at: usize = end;
    while at > start && (is_divider(os, kind, cs[at - 1]) || (kind != PrefixKind::Verbatim && cs[at
        - 1] == '.' && (at - 1 == start || is_divider(os, kind, cs[at - 2]))))
        invariant
            start <= at <= end <= cs@.len(),
            tidied(os, kind, cs@.take(at as int), start as int) == tidied(
                os,
                kind,
                cs@.take(end as int),
                start as int,
            ),
        decreases at,
    {
        assert(cs@.take(at as int).drop_last() =~= cs@.take(at - 1));
        at = at - 1;
    }
    at
}

/// The folder that holds what `path` names, such as the one in which Tor Browser
/// is installed.
pub fn parent_folder(os: Os, path: &str) -> (r: Option<String>)
    ensures
        crate::text::optional_text(r) == folder_of(os, path@),
{
    let cs = characters(path);
    let (n, kind) = read_prefix(os, &cs);
    let here = (kind == PrefixKind::Nothing || kind == PrefixKind::Drive) && n < cs.len() && cs[n]
        == '.' && (n + 1 == cs.len() || separates(os, cs[n + 1]));
    let start: usize = if (n < cs.len() && separates(os, cs[n])) || here {
        n + 1
    } else {
        n
    };
    assert(cs@.take(cs@.len() as int) =~= cs@);
    let end: usize = tidy_end(os, kind, &cs, start, cs.len());
    if end <= start {
        if here && kind == PrefixKind::Nothing {
            let r = String::new();
            assert(r@ =~= Seq::<char>::empty());
            return Some(r);
        }
        return None;
    }
    let mut at: usize = end;
    while at > start && !is_divider(os, kind, cs[at - 1])
        invariant
            start <= at <= end <= cs@.len(),
            without_last_part(os, kind, cs@.take(at as int), start as int) == without_last_part(
                os,
                kind,
                cs@.take(end as int),
                start as int,
            ),
        decreases at,
    {
        assert(cs@.take(at as int).drop_last() =~= cs@.take(at - 1));
        at = at - 1;
    }
    let last: usize = tidy_end(os, kind, &cs, start, at);
    assert(cs@.subrange(0, last as int) =~= cs@.take(last as int));
    Some(crate::text::text_between(&cs, 0, last))
}

/// What has been put into a folder stands in it: for a folder with nothing
/// superfluous at its end, and a name that is one part. On Windows the folder
/// has to be more than the beginning of a prefix or a prefix without a root, such
/// as `\\server\share`: what is put there changes what the path begins with.
pub proof fn folder_of_joined(os: Os, base: Seq<char>, name: Seq<char>)
    requires
        base.len() > 0,
        ({
            let kind = prefix_of(os, base).1;
            &&& base == tidied(os, kind, base, parts_start(os, base))
            &&& name.len() > 0
            &&& forall|i: int| 0 <= i < name.len() ==> !divides(os, kind, #[trigger] name[i])
            &&& kind == PrefixKind::Verbatim || name != seq!['.']
        }),
        os == Os::Windows ==> {
            &&& prefix_of(os, joined(os, base, name)).1 == prefix_of(os, base).1
            &&& parts_start(os, joined(os, base, name)) == parts_start(os, base)
        },
    ensures
        folder_of(os, joined(os, base, name)) == Some(base),
{
    let path = joined(os, base, name);
    let kind = prefix_of(os, base).1;
    let start = parts_start(os, base);
    let split = path.len() - name.len();
    assert(path.skip(split) =~= name);
    assert(forall|i: int| 0 <= i < base.len() ==> path[i] == base[i]);
    assert(forall|i: int| 0 <= i < name.len() ==> path[split + i] == name[i]);
    prefix_is_inside(os, base);
    assert(parts_start(os, path) == start);
    tidied_is_shorter(os, kind, base.drop_last(), start);
    assert(tidied(os, kind, path, start) == path) by {
        assert(path.last() == name.last());
        if name.len() == 1 {
            assert(name =~= seq![name.last()]);
        } else {
            assert(path[path.len() - 2] == name[name.len() - 2]);
        }
    }
    assert forall|i: int| split <= i < path.len() implies !divides(
        os,
        kind,
        #[trigger] path[i],
    ) by {
        assert(path[i] == name[i - split]);
    }
    name_is_last_part(os, kind, path, split, start);
    if split == base.len() {
        assert(path.take(split) =~= base);
        if is_bare_drive(base) {
            reveal_strlit("\\\\");
        }
    } else {
        assert(path.take(split) =~= base.push(separator(os)));
        assert(base.push(separator(os)).drop_last() =~= base);
    }
    assert(without_last_part(os, kind, path.take(split), start) == path.take(split));
    assert(tidied(os, kind, path.take(split), start) == base);
}

proof fn part_end_is_inside(kind: PrefixKind, path: Seq<char>, from: int)
    requires
        from <= path.len(),
    ensures
        from <= part_end(kind, path, from) <= path.len(),
    decreases path.len() - from,
{
    if !(from >= path.len() || divides(Os::Windows, kind, path[from])) {
        part_end_is_inside(kind, path, from + 1);
    }
}

proof fn prefix_is_inside(os: Os, path: Seq<char>)
    ensures
        0 <= prefix_of(os, path).0 <= path.len(),
        0 <= parts_start(os, path) <= path.len(),
{
    reveal_strlit("\\\\");
    reveal_strlit("\\\\?\\");
    reveal_strlit("\\\\?\\UNC\\");
    reveal_strlit("\\\\.\\");
    assert forall|kind: PrefixKind, from: int|
        from <= path.len() implies from <= #[trigger] part_end(kind, path, from)
        <= path.len() by {
        part_end_is_inside(kind, path, from);
    }
}

proof fn tidied_is_shorter(os: Os, kind: PrefixKind, path: Seq<char>, start: int)
    ensures
        tidied(os, kind, path, start).len() <= path.len(),
    decreases path.len(),
{
    if path.len() > 0 {
        tidied_is_shorter(os, kind, path.drop_last(), start);
    }
}

proof fn name_is_last_part(os: Os, kind: PrefixKind, path: Seq<char>, split: int, start: int)
    requires
        0 <= start <= split <= path.len(),
        forall|i: int| split <= i < path.len() ==> !divides(os, kind, #[trigger] path[i]),
    ensures
        without_last_part(os, kind, path, start) == without_last_part(
            os,
            kind,
            path.take(split),
            start,
        ),
    decreases path.len(),
{
    if path.len() == split {
        assert(path.take(split) =~= path);
    } else {
        assert(path.drop_last().take(split) =~= path.take(split));
        name_is_last_part(os, kind, path.drop_last(), split, start);
    }
}

// ---------------------------------------------------------------------
// Install locations
// ---------------------------------------------------------------------

/// The install location for the current account: `/Applications` on macOS,
/// else a directory of the account's own; where the account has no home
/// directory, a directory of the machine's.
pub open spec fn default_location(
    os: Os,
    home: Option<Seq<char>>,
    local_app_data: Option<Seq<char>>,
) -> Seq<char> {
    match (os, home) {
        (Os::MacOs, _) => "/Applications"@,
        (Os::Windows, Some(h)) => joined(
            os,
            match local_app_data {
                Some(d) => d,
                None => h,
            },
            "Tor Browser"@,
        ),
        (Os::Windows, None) => "C:\\Tor Browser"@,
        (_, Some(h)) => joined(
            os,
            joined(os, joined(os, h, ".local"@), "share"@),
            "tor-browser"@,
        ),
        (_, None) => "/opt/tor-browser"@,
    }
}

/// The text of a string slice that may be absent.
pub open spec fn optional_slice(s: Option<&str>) -> Option<Seq<char>> {
    match s {
        Some(t) => Some(t@),
        None => None,
    }
}

/// Default install location, matching each OS's own conventions.
///
/// `home` is the home directory of the account, where it has one, and
/// `local_app_data` the value of `LOCALAPPDATA`, where it is set.
///
/// On macOS this is the system-wide `/Applications` folder, the same place
/// Finder puts an app when you drag it out of a mounted `.dmg`.
pub fn default_install_path(os: Os, home: Option<&str>, local_app_data: Option<&str>) -> (r: String)
    ensures
        r@ == default_location(os, optional_slice(home), optional_slice(local_app_data)),
{
    if os == Os::MacOs {
        return owned("/Applications");
    }
    match home {
        Some(home) => {
            if os == Os::Windows {
                // Best-effort: fall back to the home dir if LOCALAPPDATA isn't set.
                let base = match local_app_data {
                    Some(d) => d,
                    None => home,
                };
                join_path(os, base, "Tor Browser")
            } else {
                let local = join_path(os, home, ".local");
                let share = join_path(os, local.as_str(), "share");
                join_path(os, share.as_str(), "tor-browser")
            }
        },
        None => {
            if os == Os::Windows {
                owned("C:\\Tor Browser")
            } else {
                owned("/opt/tor-browser")
            }
        },
    }
}

/// Whether the install targets just the current account or the whole
/// machine. A "global" install writes into a system-owned location
/// (`/Applications` on macOS, `/opt` on Linux) that regular users can't
/// write to, so it needs an administrator/root password up front rather
/// than discovering the permission failure partway through the copy.
#[derive(Debug, Clone, Copy, PartialEq, Eq, Structural)]
pub enum InstallScope {
    /// Installs into a location the current user already owns. No
    /// elevated privileges are needed.
    User,
    /// Installs system-wide so every account on the machine can use it.
    /// On macOS and Linux this is done with `sudo -s`, authenticated with
    /// the password the person enters in the UI.
    Global,
}

/// The scopes other than the current account are offered on this system.
pub open spec fn offers_global(os: Os) -> bool {
    os == Os::MacOs || os == Os::Linux
}

/// The conventional install directory for a scope.
pub open spec fn scope_location(
    scope: InstallScope,
    os: Os,
    home: Option<Seq<char>>,
    local_app_data: Option<Seq<char>>,
) -> Seq<char> {
    match (scope, os) {
        (InstallScope::Global, Os::MacOs) => "/Applications"@,
        (InstallScope::Global, Os::Linux) => "/opt/tor-browser"@,
        _ => default_location(os, home, local_app_data),
    }
}

/// A password is asked for up front.
pub open spec fn wants_password(scope: InstallScope, os: Os) -> bool {
    scope == InstallScope::Global && offers_global(os)
}

impl InstallScope {
    /// The conventional install directory for this scope, matching each
    /// OS's own layout for a per-user vs. system-wide install.
    pub fn default_path(
        self,
        os: Os,
        home: Option<&str>,
        local_app_data: Option<&str>,
    ) -> (r: String)
        ensures
            r@ == scope_location(self, os, optional_slice(home), optional_slice(local_app_data)),
    {
        match self {
            InstallScope::User => default_install_path(os, home, local_app_data),
            InstallScope::Global => match os {
                // /Applications is already system-owned; User scope on macOS
                // points here too. Global just means the sudo password is
                // collected up front instead of only after a plain copy fails.
                Os::MacOs => owned("/Applications"),
                Os::Linux => owned("/opt/tor-browser"),
                Os::Windows => default_install_path(os, home, local_app_data),
                Os::Other => default_install_path(os, home, local_app_data),
            },
        }
    }

    /// Whether this scope needs a sudo password on this platform. Only
    /// macOS and Linux support the sudo-based privileged install; Windows
    /// uses its own installer-driven elevation (UAC), so Global isn't
    /// offered there.
    pub fn needs_password(self, os: Os) -> (r: bool)
        ensures
            r == wants_password(self, os),
    {
        self == InstallScope::Global && (os == Os::MacOs || os == Os::Linux)
    }
}

// ---------------------------------------------------------------------
// Earlier installs
// ---------------------------------------------------------------------

/// One place where an earlier install is looked for.
pub enum Probe {
    /// The app bundle at this path, if something exists there.
    Bundle(String),
    /// A file of this name anywhere under this directory.
    Launcher { root: String, name: String },
}

/// The place that a probe looks at.
pub enum ProbeView {
    Bundle(Seq<char>),
    Launcher { root: Seq<char>, name: Seq<char> },
}

impl View for Probe {
    type V = ProbeView;

    open spec fn view(&self) -> ProbeView {
        match self {
            Probe::Bundle(path) => ProbeView::Bundle(path@),
            Probe::Launcher { root, name } => ProbeView::Launcher { root: root@, name: name@ },
        }
    }
}

/// The places where an earlier install is looked for, the first one first.
pub open spec fn probes(
    os: Os,
    home: Option<Seq<char>>,
    local_app_data: Option<Seq<char>>,
) -> Seq<ProbeView> {
    let base = default_location(os, home, local_app_data);
    match os {
        Os::MacOs => {
            let current = ProbeView::Bundle(joined(os, base, "Tor Browser.app"@));
            match home {
                Some(h) => seq![
                    current,
                    ProbeView::Bundle(
                        joined(
                            os,
                            joined(os, joined(os, h, "Applications"@), "Tor Browser"@),
                            "Tor Browser.app"@,
                        ),
                    ),
                ],
                None => seq![current],
            }
        },
        Os::Linux => {
            let name = "start-tor-browser"@;
            let global = scope_location(InstallScope::Global, os, home, local_app_data);
            let current = ProbeView::Launcher { root: base, name };
            if global != base {
                seq![current, ProbeView::Launcher { root: global, name }]
            } else {
                seq![current]
            }
        },
        Os::Windows => seq![
            ProbeView::Launcher { root: base, name: "firefox.exe"@ },
            ProbeView::Launcher { root: base, name: "Tor Browser.exe"@ },
        ],
        Os::Other => Seq::<ProbeView>::empty(),
    }
}

/// The next place to look for an existing Tor Browser installation after the
/// first `misses` places had none; `None` when there is no further place, and
/// so no installation.
///
/// On macOS the current system-wide default comes first, then the place where
/// earlier versions used to install (a per-user `~/Applications/Tor Browser/`
/// subfolder), so an existing install isn't "lost" just because the default
/// changed. On Linux the system-wide location is checked too, so a previous
/// "all users" install is found.
pub fn find_existing_install(
    os: Os,
    home: Option<&str>,
    local_app_data: Option<&str>,
    misses: usize,
) -> (r: Option<Probe>)
    ensures
        ({
            let places = probes(os, optional_slice(home), optional_slice(local_app_data));
            match r {
                Some(p) => misses < places.len() && p@ == places[misses as int],
                None => misses >= places.len(),
            }
        }),
{
    let base = default_install_path(os, home, local_app_data);
    match os {
        Os::MacOs => {
            if misses == 0 {
                return Some(Probe::Bundle(join_path(os, base.as_str(), "Tor Browser.app")));
            }
            match home {
                Some(home) => {
                    if misses == 1 {
                        let apps = join_path(os, home, "Applications");
                        let dir = join_path(os, apps.as_str(), "Tor Browser");
                        Some(Probe::Bundle(join_path(os, dir.as_str(), "Tor Browser.app")))
                    } else {
                        None
                    }
                },
                None => None,
            }
        },
        Os::Linux => {
            if misses == 0 {
                return Some(Probe::Launcher { root: base, name: owned("start-tor-browser") });
            }
            let global = InstallScope::Global.default_path(os, home, local_app_data);
            if misses == 1 && !same_text(global.as_str(), base.as_str()) {
                Some(Probe::Launcher { root: global, name: owned("start-tor-browser") })
            } else {
                None
            }
        },
        Os::Windows => {
            if misses == 0 {
                Some(Probe::Launcher { root: base, name: owned("firefox.exe") })
            } else if misses == 1 {
                Some(Probe::Launcher { root: base, name: owned("Tor Browser.exe") })
            } else {
                None
            }
        },
        Os::Other => None,
    }
}

/// An install that was made at the conventional location of its scope is looked
/// for when the program starts again.
pub proof fn default_installs_are_looked_for(
    scope: InstallScope,
    os: Os,
    home: Option<Seq<char>>,
    local_app_data: Option<Seq<char>>,
)
    requires
        os != Os::Other,
    ensures
        ({
            let root = scope_location(scope, os, home, local_app_data);
            let places = probes(os, home, local_app_data);
            match os {
                Os::MacOs => places.contains(
                    ProbeView::Bundle(joined(os, root, "Tor Browser.app"@)),
                ),
                Os::Linux => places.contains(
                    ProbeView::Launcher { root, name: "start-tor-browser"@ },
                ),
                _ => places.contains(ProbeView::Launcher { root, name: "firefox.exe"@ })
                    && places.contains(ProbeView::Launcher { root, name: "Tor Browser.exe"@ }),
            }
        }),
{
    let root = scope_location(scope, os, home, local_app_data);
    let base = default_location(os, home, local_app_data);
    let places = probes(os, home, local_app_data);
    match os {
        Os::MacOs => {
            assert(places[0] == ProbeView::Bundle(joined(os, root, "Tor Browser.app"@)));
        },
        Os::Linux => {
            let name = "start-tor-browser"@;
            if root == base {
                assert(places[0] == ProbeView::Launcher { root, name });
            } else {
                assert(places[1] == ProbeView::Launcher { root, name });
            }
        },
        _ => {
            assert(places[0] == ProbeView::Launcher { root, name: "firefox.exe"@ });
            assert(places[1] == ProbeView::Launcher { root, name: "Tor Browser.exe"@ });
        },
    }
}

/// On macOS both scopes install to the same place: they differ in when the
/// password is asked for.
pub proof fn scopes_share_a_location_on_macos(
    home: Option<Seq<char>>,
    local_app_data: Option<Seq<char>>,
)
    ensures
        scope_location(InstallScope::User, Os::MacOs, home, local_app_data) == scope_location(
            InstallScope::Global,
            Os::MacOs,
            home,
            local_app_data,
        ),
        wants_password(InstallScope::Global, Os::MacOs),
        !wants_password(InstallScope::User, Os::MacOs),
{
}

// ---------------------------------------------------------------------
// What paths and places are
// ---------------------------------------------------------------------

/// A name is put behind a directory, both whole and unchanged, with at most one
/// separator between them. On systems other than Windows that is a `/`, and it
/// is left out only where the directory is the empty path or ends in one.
pub proof fn names_are_put_behind_directories(os: Os, base: Seq<char>, name: Seq<char>)
    requires
        os != Os::Windows,
    ensures
        base.len() > 0 && base.last() != '/' ==> joined(os, base, name) == base + "/"@ + name,
        base.len() == 0 || base.last() == '/' ==> joined(os, base, name) == base + name,
{
    reveal_strlit("/");
    assert(base.push('/') =~= base + "/"@);
}

/// The same on Windows, where the separator is a `\`. It is left out too where
/// the directory is a bare drive, and, unless the path is a verbatim one, where
/// it ends in a `/`.
pub proof fn names_are_put_behind_directories_on_windows(base: Seq<char>, name: Seq<char>)
    ensures
        ({
            let path = joined(Os::Windows, base, name);
            let verbatim = base.len() >= 4 && base.take(4) == "\\\\?\\"@;
            let drive = base.len() == 2 && base[1] == ':' && ('a' <= base[0] <= 'z' || 'A'
                <= base[0] <= 'Z');
            if base.len() == 0 || base.last() == '\\' || drive || !verbatim && base.last() == '/' {
                path == base + name
            } else {
                path == base + "\\"@ + name
            }
        }),
{
    reveal_strlit("\\");
    reveal_strlit("\\\\");
    reveal_strlit("\\\\?\\");
    assert(base.push('\\') =~= base + "\\"@);
    if base.len() >= 4 {
        assert(base.take(4) =~= base.subrange(0, 4));
    }
    if begins_with(base, "\\\\?\\"@) {
        assert forall|i: int| 0 <= i < 2 implies #[trigger] base[i] == "\\\\"@[i] by {
            assert(base.subrange(0, 4)[i] == base[i]);
        }
        assert(begins_like(base, "\\\\"@));
    }
}

/// The last part of a path is all that stands behind its last `/`.
pub proof fn last_part_stands_behind_the_last_separator(before: Seq<char>, name: Seq<char>)
    requires
        forall|i: int| 0 <= i < name.len() ==> name[i] != '/',
    ensures
        last_part(before + "/"@ + name) == name,
        last_part(name) == name,
{
    reveal_strlit("/");
    last_part_begins(before + "/"@, name);
    last_part_begins(Seq::<char>::empty(), name);
    assert(Seq::<char>::empty() + name =~= name);
    assert((before + "/"@ + name).skip((before + "/"@).len() as int) =~= name);
    assert(name.skip(0) =~= name);
}

proof fn last_part_begins(before: Seq<char>, name: Seq<char>)
    requires
        forall|i: int| 0 <= i < name.len() ==> name[i] != '/',
        before.len() > 0 ==> before.last() == '/',
    ensures
        last_part_at(before + name) == before.len(),
    decreases name.len(),
{
    if name.len() == 0 {
        assert(before + name =~= before);
    } else {
        assert((before + name).drop_last() =~= before + name.drop_last());
        assert((before + name).last() == name.last());
        last_part_begins(before, name.drop_last());
    }
}

/// Where an account has a home, Linux installs into its data directory; without
/// one, into `/opt`.
pub proof fn linux_installs_into_the_home(home: Seq<char>, local_app_data: Option<Seq<char>>)
    requires
        home.len() > 0,
        home.last() != '/',
    ensures
        default_location(Os::Linux, Some(home), local_app_data) == home
            + "/.local/share/tor-browser"@,
        default_location(Os::Linux, None, local_app_data) == "/opt/tor-browser"@,
        default_location(Os::Other, Some(home), local_app_data) == home
            + "/.local/share/tor-browser"@,
        default_location(Os::Other, None, local_app_data) == "/opt/tor-browser"@,
{
    reveal_strlit("/");
    reveal_strlit(".local");
    reveal_strlit("share");
    reveal_strlit("tor-browser");
    reveal_strlit("/.local/share/tor-browser");
    let rest = "/"@ + ".local"@ + "/"@ + "share"@ + "/"@ + "tor-browser"@;
    assert("/.local/share/tor-browser"@ =~= rest);
    assert forall|os: Os| os != Os::Windows implies #[trigger] joined(
        os,
        joined(os, joined(os, home, ".local"@), "share"@),
        "tor-browser"@,
    ) == home + rest by {
        names_are_put_behind_directories(os, home, ".local"@);
        let local = home + "/"@ + ".local"@;
        names_are_put_behind_directories(os, local, "share"@);
        let share = local + "/"@ + "share"@;
        names_are_put_behind_directories(os, share, "tor-browser"@);
        assert(share + "/"@ + "tor-browser"@ =~= home + rest);
    }
}

/// Windows installs into a directory of the account's local data, or of its home
/// where there is none; without a home, to the root of the drive. What is
/// joined is not changed.
pub proof fn windows_installs_into_local_data(home: Seq<char>, local_app_data: Seq<char>)
    ensures
        default_location(Os::Windows, Some(home), Some(local_app_data)) == joined(
            Os::Windows,
            local_app_data,
            "Tor Browser"@,
        ),
        default_location(Os::Windows, Some(home), None) == joined(
            Os::Windows,
            home,
            "Tor Browser"@,
        ),
        default_location(Os::Windows, None, Some(local_app_data)) == "C:\\Tor Browser"@,
        default_location(Os::Windows, None, None) == "C:\\Tor Browser"@,
{
}

/// macOS installs where Finder puts an app, whoever is logged in and whatever the
/// scope; an install for all users on Linux goes to `/opt`. All others go to the
/// place of the account.
pub proof fn scopes_have_their_places(
    os: Os,
    home: Option<Seq<char>>,
    local_app_data: Option<Seq<char>>,
)
    ensures
        default_location(Os::MacOs, home, local_app_data) == "/Applications"@,
        scope_location(InstallScope::Global, Os::MacOs, home, local_app_data) == "/Applications"@,
        scope_location(InstallScope::Global, Os::Linux, home, local_app_data)
            == "/opt/tor-browser"@,
        scope_location(InstallScope::User, os, home, local_app_data) == default_location(
            os,
            home,
            local_app_data,
        ),
        os != Os::MacOs && os != Os::Linux ==> scope_location(
            InstallScope::Global,
            os,
            home,
            local_app_data,
        ) == default_location(os, home, local_app_data),
{
}

/// A password is asked for up front if and only if the install is for all users,
/// on a system where that is offered: macOS and Linux.
pub proof fn only_installs_for_all_users_want_a_password(scope: InstallScope, os: Os)
    ensures
        wants_password(scope, os) <==> scope == InstallScope::Global && (os == Os::MacOs || os
            == Os::Linux),
        offers_global(os) <==> os == Os::MacOs || os == Os::Linux,
{
}

/// An earlier install is looked for in these places, in this order, and in no
/// others.
pub proof fn earlier_installs_are_looked_for_in_order(
    home: Seq<char>,
    local_app_data: Option<Seq<char>>,
)
    requires
        home.len() > 0,
        home.last() != '/',
    ensures
        probes(Os::MacOs, Some(home), local_app_data) == seq![
            ProbeView::Bundle("/Applications/Tor Browser.app"@),
            ProbeView::Bundle(home + "/Applications/Tor Browser/Tor Browser.app"@),
        ],
        probes(Os::MacOs, None, local_app_data) == seq![
            ProbeView::Bundle("/Applications/Tor Browser.app"@),
        ],
        probes(Os::Linux, None, local_app_data) == seq![
            ProbeView::Launcher { root: "/opt/tor-browser"@, name: "start-tor-browser"@ },
        ],
        ({
            let own = home + "/.local/share/tor-browser"@;
            let first = ProbeView::Launcher { root: own, name: "start-tor-browser"@ };
            let second = ProbeView::Launcher {
                root: "/opt/tor-browser"@,
                name: "start-tor-browser"@,
            };
            own != "/opt/tor-browser"@ ==> probes(Os::Linux, Some(home), local_app_data) == seq![
                first,
                second,
            ]
        }),
        probes(Os::Other, Some(home), local_app_data).len() == 0,
{
    reveal_strlit("/Applications");
    reveal_strlit("Applications");
    reveal_strlit("Tor Browser");
    reveal_strlit("Tor Browser.app");
    reveal_strlit("/");
    reveal_strlit("/Applications/Tor Browser.app");
    reveal_strlit("/Applications/Tor Browser/Tor Browser.app");
    names_are_put_behind_directories(Os::MacOs, "/Applications"@, "Tor Browser.app"@);
    assert("/Applications"@ + "/"@ + "Tor Browser.app"@ =~= "/Applications/Tor Browser.app"@);
    names_are_put_behind_directories(Os::MacOs, home, "Applications"@);
    let apps = home + "/"@ + "Applications"@;
    names_are_put_behind_directories(Os::MacOs, apps, "Tor Browser"@);
    let dir = apps + "/"@ + "Tor Browser"@;
    names_are_put_behind_directories(Os::MacOs, dir, "Tor Browser.app"@);
    assert(dir + "/"@ + "Tor Browser.app"@ =~= home
        + "/Applications/Tor Browser/Tor Browser.app"@);
    linux_installs_into_the_home(home, local_app_data);
}

/// On Windows the same directory is searched for both names of the program.
pub proof fn windows_is_searched_for_both_names(
    home: Option<Seq<char>>,
    local_app_data: Option<Seq<char>>,
)
    ensures
        ({
            let root = default_location(Os::Windows, home, local_app_data);
            probes(Os::Windows, home, local_app_data) == seq![
                ProbeView::Launcher { root, name: "firefox.exe"@ },
                ProbeView::Launcher { root, name: "Tor Browser.exe"@ },
            ]
        }),
{
}

/// What is fetched, and what it is called, goes by the target that the program
/// was built for, and by nothing else.
pub proof fn releases_fit_their_target(target: Target)
    ensures
        release_file_of(target) == (match target.os {
            Os::MacOs => "download-macos.json"@,
            Os::Windows => if target.arch == Arch::X86_64 {
                "download-windows-x86_64.json"@
            } else {
                "download-windows-i686.json"@
            },
            Os::Linux => if target.arch == Arch::X86_64 {
                "download-linux-x86_64.json"@
            } else {
                "download-linux-i686.json"@
            },
            Os::Other => "download-linux-i686.json"@,
        }),
        extension_of(target.os) == (match target.os {
            Os::MacOs => "dmg"@,
            Os::Windows => "exe"@,
            Os::Linux | Os::Other => "tar.xz"@,
        }),
        label_of(target.os) == (match target.os {
            Os::MacOs => "macOS"@,
            Os::Windows => "Windows"@,
            Os::Linux => "Linux"@,
            Os::Other => "this platform"@,
        }),
{
}

/// Whatever the home is, the directories below it are joined to it one after the
/// other.
pub proof fn places_below_the_home(home: Seq<char>, local_app_data: Option<Seq<char>>)
    ensures
        default_location(Os::Linux, Some(home), local_app_data) == joined(
            Os::Linux,
            joined(Os::Linux, joined(Os::Linux, home, ".local"@), "share"@),
            "tor-browser"@,
        ),
        probes(Os::MacOs, Some(home), local_app_data) == seq![
            ProbeView::Bundle(joined(Os::MacOs, "/Applications"@, "Tor Browser.app"@)),
            ProbeView::Bundle(
                joined(
                    Os::MacOs,
                    joined(Os::MacOs, joined(Os::MacOs, home, "Applications"@), "Tor Browser"@),
                    "Tor Browser.app"@,
                ),
            ),
        ],
        probes(Os::Linux, Some(home), local_app_data)[0] == (ProbeView::Launcher {
            root: default_location(Os::Linux, Some(home), local_app_data),
            name: "start-tor-browser"@,
        }),
{
}

/// A separator at the end of a path makes no difference to the folder in which it
/// stands.
pub proof fn last_separators_do_not_count(os: Os, path: Seq<char>)
    requires
        os != Os::Windows,
        path.len() > 0,
    ensures
        folder_of(os, path.push('/')) == folder_of(os, path),
{
    let more = path.push('/');
    let start = parts_start(os, path);
    assert(more[0] == path[0]);
    assert(path.len() > 1 ==> more[1] == path[1]);
    assert(parts_start(os, more) == start);
    assert(more.drop_last() =~= path);
    assert(tidied(os, PrefixKind::Nothing, more, start) == tidied(
        os,
        PrefixKind::Nothing,
        path,
        start,
    ));
}

/// The folder in which something stands is the beginning of its path.
pub proof fn folder_is_where_the_path_begins(os: Os, path: Seq<char>)
    ensures
        folder_of(os, path) matches Some(folder) ==> folder.len() < path.len() && folder
            == path.take(folder.len() as int),
{
    prefix_is_inside(os, path);
    let kind = prefix_of(os, path).1;
    let start = parts_start(os, path);
    let body = tidied(os, kind, path, start);
    tidied_is_a_beginning(os, kind, path, start);
    if body.len() > start {
        let parent = without_last_part(os, kind, body, start);
        without_last_part_is_a_beginning(os, kind, body, start);
        tidied_is_a_beginning(os, kind, parent, start);
        tidied_is_tidy(os, kind, path, start);
        let folder = tidied(os, kind, parent, start);
        assert(parent.len() < body.len());
        assert(folder =~= path.take(folder.len() as int));
    } else if kind == PrefixKind::Nothing && begins_here(os, path) {
        assert(Seq::<char>::empty() =~= path.take(0));
    }
}

proof fn tidied_is_a_beginning(os: Os, kind: PrefixKind, path: Seq<char>, start: int)
    ensures
        ({
            let r = tidied(os, kind, path, start);
            r.len() <= path.len() && r == path.take(r.len() as int)
        }),
    decreases path.len(),
{
    let r = tidied(os, kind, path, start);
    if r == path {
        assert(path =~= path.take(path.len() as int));
    } else {
        tidied_is_a_beginning(os, kind, path.drop_last(), start);
        assert(r =~= path.take(r.len() as int));
    }
}

proof fn tidied_is_tidy(os: Os, kind: PrefixKind, path: Seq<char>, start: int)
    ensures
        ({
            let r = tidied(os, kind, path, start);
            r.len() > 0 && r.len() > start ==> !divides(os, kind, r.last())
        }),
    decreases path.len(),
{
    if path.len() > 0 {
        tidied_is_tidy(os, kind, path.drop_last(), start);
    }
}

proof fn without_last_part_is_a_beginning(os: Os, kind: PrefixKind, path: Seq<char>, start: int)
    ensures
        ({
            let r = without_last_part(os, kind, path, start);
            &&& r.len() <= path.len() && r == path.take(r.len() as int)
            &&& path.len() > 0 && path.len() > start && !divides(os, kind, path.last()) ==> r.len()
                < path.len()
        }),
    decreases path.len(),
{
    let r = without_last_part(os, kind, path, start);
    if path.len() == 0 || path.len() <= start || divides(os, kind, path.last()) {
        assert(path =~= path.take(path.len() as int));
    } else {
        without_last_part_is_a_beginning(os, kind, path.drop_last(), start);
        assert(r =~= path.take(r.len() as int));
    }
}

/// What stands in a directory has that directory as its folder: on systems other
/// than Windows, for the root, and for every directory whose path does not end in
/// a `/` or in a part `.`.
pub proof fn what_stands_in_a_directory_has_it_as_folder(
    os: Os,
    base: Seq<char>,
    name: Seq<char>,
)
    requires
        os != Os::Windows,
        base == seq!['/'] || base.len() > 0 && base.last() != '/' && (base.last() == '.'
            ==> base.len() > 1 && base[base.len() - 2] != '/'),
        name.len() > 0,
        forall|i: int| 0 <= i < name.len() ==> #[trigger] name[i] != '/',
        name != seq!['.'],
    ensures
        base.last() == '/' ==> folder_of(os, base + name) == Some(base),
        base.last() != '/' ==> folder_of(os, base + "/"@ + name) == Some(base),
{
    names_are_put_behind_directories(os, base, name);
    folder_of_joined(os, base, name);
}

/// On Windows, for a directory on a drive: the root of the drive, and every
/// directory whose path does not end in a separator or in a part `.`.
pub proof fn what_stands_on_a_drive_has_its_directory_as_folder(
    drive: char,
    dirs: Seq<char>,
    name: Seq<char>,
)
    requires
        'a' <= drive <= 'z' || 'A' <= drive <= 'Z',
        dirs.len() > 0 ==> dirs.last() != '/' && dirs.last() != '\\' && dirs.last() != '.',
        name.len() > 0,
        forall|i: int| 0 <= i < name.len() ==> #[trigger] name[i] != '/' && name[i] != '\\',
        name != seq!['.'],
    ensures
        ({
            let root = seq![drive, ':', '\\'];
            &&& folder_of(Os::Windows, root + name) == Some(root)
            &&& dirs.len() > 0 ==> folder_of(Os::Windows, root + dirs + "\\"@ + name) == Some(
                root + dirs,
            )
            &&& folder_of(Os::Windows, root) is None
        }),
{
    let os = Os::Windows;
    let root = seq![drive, ':', '\\'];
    reveal_strlit("\\");
    assert forall|path: Seq<char>|
        path.len() >= 3 && path[0] == drive && path[1] == ':' && path[2] == '\\' implies prefix_of(
        os,
        path,
    ) == (2int, PrefixKind::Drive) && #[trigger] parts_start(os, path) == 3 by {
        on_a_drive(path);
    }
    assert(parts_start(os, root) == 3);
    assert(parts_start(os, root + name) == 3);
    assert(joined(os, root, name) =~= root + name);
    folder_of_joined(os, root, name);
    if dirs.len() > 0 {
        let base = root + dirs;
        let path = base + "\\"@ + name;
        assert(base.last() == dirs.last());
        assert(parts_start(os, base) == 3);
        assert(parts_start(os, path) == 3);
        assert(joined(os, base, name) =~= path);
        folder_of_joined(os, base, name);
    }
}

proof fn on_a_drive(path: Seq<char>)
    requires
        path.len() >= 3,
        'a' <= path[0] <= 'z' || 'A' <= path[0] <= 'Z',
        path[1] == ':',
        path[2] == '\\',
    ensures
        prefix_of(Os::Windows, path) == (2int, PrefixKind::Drive),
        parts_start(Os::Windows, path) == 3,
{
    reveal_strlit("\\\\");
    assert(!begins_like(path, "\\\\"@)) by {
        if begins_like(path, "\\\\"@) {
            assert(path[0] == "\\\\"@[0] || path[0] == '/');
        }
    }
}

proof fn part_ends_there(before: Seq<char>, part: Seq<char>, rest: Seq<char>)
    requires
        forall|i: int| 0 <= i < part.len() ==> #[trigger] part[i] != '/' && part[i] != '\\',
        rest.len() > 0 ==> rest[0] == '\\',
    ensures
        part_end(PrefixKind::Place, before + part + rest, before.len() as int) == before.len()
            + part.len(),
    decreases part.len(),
{
    let path = before + part + rest;
    if part.len() > 0 {
        assert(path[before.len() as int] == part[0]);
        let longer = before.push(part[0]);
        let less = part.skip(1);
        assert(longer + less + rest =~= path);
        assert forall|i: int| 0 <= i < less.len() implies #[trigger] less[i] != '/' && less[i]
            != '\\' by {
            assert(less[i] == part[i + 1]);
        }
        part_ends_there(longer, less, rest);
    } else if rest.len() > 0 {
        assert(path[before.len() as int] == rest[0]);
    }
}

/// On Windows a network share is no directory in another one: it has no folder,
/// whatever the server and the share are called, and what stands in it has the
/// root of the share as its folder.
pub proof fn network_shares_are_roots(server: Seq<char>, share: Seq<char>, name: Seq<char>)
    requires
        server.len() > 0,
        share.len() > 0,
        name.len() > 0,
        server != seq!['?'],
        server != seq!['.'],
        name != seq!['.'],
        forall|i: int| 0 <= i < server.len() ==> #[trigger] server[i] != '/' && server[i] != '\\',
        forall|i: int| 0 <= i < share.len() ==> #[trigger] share[i] != '/' && share[i] != '\\',
        forall|i: int| 0 <= i < name.len() ==> #[trigger] name[i] != '/' && name[i] != '\\',
    ensures
        ({
            let root = seq!['\\', '\\'] + server + seq!['\\'] + share;
            &&& folder_of(Os::Windows, root) is None
            &&& folder_of(Os::Windows, root + seq!['\\']) is None
            &&& folder_of(Os::Windows, root + seq!['\\'] + name) == Some(root + seq!['\\'])
        }),
{
    let os = Os::Windows;
    let root = seq!['\\', '\\'] + server + seq!['\\'] + share;
    let none = Seq::<char>::empty();
    let end = seq!['\\'];
    share_is_a_prefix(server, share, none);
    share_is_a_prefix(server, share, end);
    share_is_a_prefix(server, share, end + name);
    assert(root + none =~= root);
    assert(root + (end + name) =~= root + end + name);
    assert(tidied(os, PrefixKind::Place, root, root.len() as int) == root);
    let base = root + end;
    assert(base[root.len() as int] == '\\');
    assert((base + name)[root.len() as int] == '\\');
    assert(parts_start(os, base) == base.len());
    assert(parts_start(os, base + name) == base.len());
    assert(joined(os, base, name) =~= base + name);
    folder_of_joined(os, base, name);
}

proof fn share_is_a_prefix(server: Seq<char>, share: Seq<char>, rest: Seq<char>)
    requires
        server.len() > 0,
        share.len() > 0,
        server != seq!['?'],
        server != seq!['.'],
        forall|i: int| 0 <= i < server.len() ==> #[trigger] server[i] != '/' && server[i] != '\\',
        forall|i: int| 0 <= i < share.len() ==> #[trigger] share[i] != '/' && share[i] != '\\',
        rest.len() > 0 ==> rest[0] == '\\',
    ensures
        ({
            let root = seq!['\\', '\\'] + server + seq!['\\'] + share;
            prefix_of(Os::Windows, root + rest) == (root.len() as int, PrefixKind::Place)
        }),
{
    reveal_strlit("\\\\");
    reveal_strlit("\\\\?\\");
    reveal_strlit("\\\\?\\UNC\\");
    reveal_strlit("\\\\.\\");
    let start = seq!['\\', '\\'];
    let head = start + server + seq!['\\'];
    let root = head + share;
    let path = root + rest;
    let behind = seq!['\\'] + share + rest;
    assert(path =~= start + server + behind);
    part_ends_there(start, server, behind);
    assert(path =~= head + share + rest);
    part_ends_there(head, share, rest);
    assert(path[0] == '\\' && path[1] == '\\');
    assert(begins_like(path, "\\\\"@));
    assert(path[2] == server[0]);
    if server.len() > 1 {
        assert(path[3] == server[1]);
    } else {
        assert(server =~= seq![server[0]]);
        assert(path[3] == '\\');
    }
    assert(!begins_with(path, "\\\\?\\"@)) by {
        if begins_with(path, "\\\\?\\"@) {
            assert(path.subrange(0, 4)[2] == path[2] && path.subrange(0, 4)[3] == path[3]);
        }
    }
    assert(!begins_like(path, "\\\\.\\"@)) by {
        if begins_like(path, "\\\\.\\"@) {
            assert(path[2] == "\\\\.\\"@[2]);
            assert(path[3] == "\\\\.\\"@[3] || path[3] == '/');
        }
    }
}

} // verus!
