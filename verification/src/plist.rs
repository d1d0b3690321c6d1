//! Mount points in the property list that `hdiutil attach -plist` prints.

use vstd::prelude::*;
use crate::text::{
    characters, find_from, find_from_is_first_match, matches_at, occurs, position_from, stands_at,
    text_between, texts,
};

verus! {

// ---------------------------------------------------------------------
// XML entities
// ---------------------------------------------------------------------

/// The five characters that XML has entities for.
pub open spec fn entity_char(k: int) -> char {
    if k == 0 {
        '&'
    } else if k == 1 {
        '<'
    } else if k == 2 {
        '>'
    } else if k == 3 {
        '"'
    } else {
        '\''
    }
}

/// The entity that stands for `entity_char(k)`.
pub open spec fn entity(k: int) -> Seq<char> {
    if k == 0 {
        "&amp;"@
    } else if k == 1 {
        "&lt;"@
    } else if k == 2 {
        "&gt;"@
    } else if k == 3 {
        "&quot;"@
    } else {
        "&apos;"@
    }
}

/// The number of the entity that a text begins with, if it begins with one.
pub open spec fn leading_entity(s: Seq<char>) -> Option<int> {
    if matches_at(s, entity(0), 0) {
        Some(0)
    } else if matches_at(s, entity(1), 0) {
        Some(1)
    } else if matches_at(s, entity(2), 0) {
        Some(2)
    } else if matches_at(s, entity(3), 0) {
        Some(3)
    } else if matches_at(s, entity(4), 0) {
        Some(4)
    } else {
        None
    }
}

/// `s` with each of the five entities in it put back, once.
pub open spec fn xml_unescaped(s: Seq<char>) -> Seq<char>
    decreases s.len(),
    via xml_unescaped_ends
{
    if s.len() == 0 {
        s
    } else {
        match leading_entity(s) {
            Some(k) => seq![entity_char(k)] + xml_unescaped(s.skip(entity(k).len() as int)),
            None => seq![s[0]] + xml_unescaped(s.skip(1)),
        }
    }
}

#[via_fn]
proof fn xml_unescaped_ends(s: Seq<char>) {
    reveal_entities();
}

proof fn reveal_entities()
    ensures
        entity(0) == seq!['&', 'a', 'm', 'p', ';'],
        entity(1) == seq!['&', 'l', 't', ';'],
        entity(2) == seq!['&', 'g', 't', ';'],
        entity(3) == seq!['&', 'q', 'u', 'o', 't', ';'],
        entity(4) == seq!['&', 'a', 'p', 'o', 's', ';'],
{
    reveal_strlit("&amp;");
    reveal_strlit("&lt;");
    reveal_strlit("&gt;");
    reveal_strlit("&quot;");
    reveal_strlit("&apos;");
    assert(entity(0) =~= seq!['&', 'a', 'm', 'p', ';']);
    assert(entity(1) =~= seq!['&', 'l', 't', ';']);
    assert(entity(2) =~= seq!['&', 'g', 't', ';']);
    assert(entity(3) =~= seq!['&', 'q', 'u', 'o', 't', ';']);
    assert(entity(4) =~= seq!['&', 'a', 'p', 'o', 's', ';']);
}

/// Whether an entity stands at position `at`.
fn entity_stands_at(cs: &Vec<char>, name: &str, at: usize) -> (r: bool)
    requires
        at <= cs@.len(),
    ensures
        r == matches_at(cs@.skip(at as int), name@, 0),
{
    let needle = characters(name);
    proof {
        let rest = cs@.skip(at as int);
        if name@.len() <= rest.len() {
            assert(rest.subrange(0, name@.len() as int) =~= cs@.subrange(
                at as int,
                at + name@.len(),
            ));
        }
    }
    stands_at(cs, &needle, at)
}

/// The character that the entity at position `at` stands for, and how long the
/// entity is.
fn entity_at(cs: &Vec<char>, at: usize) -> (r: Option<(char, usize)>)
    requires
        at <= cs@.len(),
    ensures
        match leading_entity(cs@.skip(at as int)) {
            Some(k) => r matches Some((c, n)) && c == entity_char(k) && n == entity(k).len() && 0
                < n <= cs@.len() - at,
            None => r is None,
        },
{
    proof {
        reveal_entities();
    }
    if entity_stands_at(cs, "&amp;", at) {
        Some(('&', 5))
    } else if entity_stands_at(cs, "&lt;", at) {
        Some(('<', 4))
    } else if entity_stands_at(cs, "&gt;", at) {
        Some(('>', 4))
    } else if entity_stands_at(cs, "&quot;", at) {
        Some(('"', 6))
    } else if entity_stands_at(cs, "&apos;", at) {
        Some(('\'', 6))
    } else {
        None
    }
}

/// Unescapes the handful of XML entities that a mount-point path can contain
/// (e.g. `&amp;` in "Tor Browser &amp; Friends"), each once.
pub fn unescape_xml(s: &str) -> (r: String)
    ensures
        r@ == xml_unescaped(s@),
{
    let cs = characters(s);
    let mut r = String::new();
    let mut at: usize = 0;
    assert(cs@.skip(0) =~= cs@);
    assert(r@ + xml_unescaped(cs@.skip(0)) =~= xml_unescaped(s@));
    while at < cs.len()
        invariant
            at <= cs@.len(),
            cs@ == s@,
            r@ + xml_unescaped(cs@.skip(at as int)) == xml_unescaped(s@),
        decreases cs@.len() - at,
    {
        let ghost done = r@;
        let ghost rest = cs@.skip(at as int);
        match entity_at(&cs, at) {
            Some((c, n)) => {
                r.push(c);
                proof {
                    assert(rest.skip(n as int) =~= cs@.skip(at + n));
                    assert(done + (seq![c] + xml_unescaped(rest.skip(n as int))) =~= done.push(c)
                        + xml_unescaped(rest.skip(n as int)));
                }
                at = at + n;
            },
            None => {
                r.push(cs[at]);
                proof {
                    let c = cs@[at as int];
                    assert(rest.skip(1) =~= cs@.skip(at + 1));
                    assert(done + (seq![c] + xml_unescaped(rest.skip(1))) =~= done.push(c)
                        + xml_unescaped(rest.skip(1)));
                }
                at = at + 1;
            },
        }
    }
    proof {
        assert(cs@.skip(at as int) =~= Seq::<char>::empty());
        assert(r@ + xml_unescaped(cs@.skip(at as int)) =~= r@);
    }
    r
}

/// How a character is written as XML character data.
pub open spec fn char_escaped(c: char) -> Seq<char> {
    if c == '&' {
        entity(0)
    } else if c == '<' {
        entity(1)
    } else if c == '>' {
        entity(2)
    } else if c == '"' {
        entity(3)
    } else if c == '\'' {
        entity(4)
    } else {
        seq![c]
    }
}

/// `s` as XML character data: each of the five characters as its entity.
pub open spec fn xml_escaped(s: Seq<char>) -> Seq<char>
    decreases s.len(),
{
    if s.len() == 0 {
        s
    } else {
        char_escaped(s[0]) + xml_escaped(s.skip(1))
    }
}

/// A text that begins with an entity begins with no other.
proof fn entity_leads(k: int, rest: Seq<char>)
    requires
        0 <= k < 5,
    ensures
        leading_entity(entity(k) + rest) == Some(k),
{
    reveal_entities();
    let s = entity(k) + rest;
    assert(s.subrange(0, entity(k).len() as int) =~= entity(k));
    assert forall|j: int| 0 <= j < k implies !matches_at(s, #[trigger] entity(j), 0) by {
        if matches_at(s, entity(j), 0) {
            let head = s.subrange(0, entity(j).len() as int);
            assert(head[1] == entity(j)[1] && head[2] == entity(j)[2]);
            assert(s[1] == entity(k)[1] && s[2] == entity(k)[2]);
        }
    }
    assert(k > 0 ==> !matches_at(s, entity(0), 0));
    assert(k > 1 ==> !matches_at(s, entity(1), 0));
    assert(k > 2 ==> !matches_at(s, entity(2), 0));
    assert(k > 3 ==> !matches_at(s, entity(3), 0));
}

/// A text that does not begin with `&` begins with no entity.
proof fn no_entity_leads(s: Seq<char>)
    requires
        s.len() > 0,
        s[0] != '&',
    ensures
        leading_entity(s) is None,
{
    reveal_entities();
    assert forall|j: int| 0 <= j < 5 implies !matches_at(s, #[trigger] entity(j), 0) by {
        if matches_at(s, entity(j), 0) {
            assert(s.subrange(0, entity(j).len() as int)[0] == entity(j)[0]);
        }
    }
    assert(!matches_at(s, entity(0), 0) && !matches_at(s, entity(1), 0));
    assert(!matches_at(s, entity(2), 0) && !matches_at(s, entity(3), 0));
    assert(!matches_at(s, entity(4), 0));
}

/// Unescaping gives back what was escaped, whatever it is.
pub proof fn unescape_undoes_escape(s: Seq<char>)
    ensures
        xml_unescaped(xml_escaped(s)) == s,
    decreases s.len(),
{
    if s.len() > 0 {
        reveal_entities();
        let c = s[0];
        let rest = xml_escaped(s.skip(1));
        let e = xml_escaped(s);
        unescape_undoes_escape(s.skip(1));
        assert(seq![c] + s.skip(1) =~= s);
        if c == '&' || c == '<' || c == '>' || c == '"' || c == '\'' {
            let k: int = if c == '&' {
                0
            } else if c == '<' {
                1
            } else if c == '>' {
                2
            } else if c == '"' {
                3
            } else {
                4
            };
            assert(e == entity(k) + rest);
            entity_leads(k, rest);
            assert(e.skip(entity(k).len() as int) =~= rest);
        } else {
            assert(e == seq![c] + rest);
            no_entity_leads(e);
            assert(e.skip(1) =~= rest);
        }
    }
}

// ---------------------------------------------------------------------
// Mount points
// ---------------------------------------------------------------------

/// The key under which the property list gives a mount point.
pub open spec fn mount_point_key() -> Seq<char> {
    "<key>mount-point</key>"@
}

/// The value of the first string element behind position `at`, as the only
/// element of a list; an empty list where no string element begins and ends
/// there.
pub open spec fn value_behind(xml: Seq<char>, at: int) -> Seq<Seq<char>> {
    match find_from(xml, "<string>"@, at) {
        None => Seq::<Seq<char>>::empty(),
        Some(open) => {
            let from = open + "<string>"@.len();
            match find_from(xml, "</string>"@, from) {
                None => Seq::<Seq<char>>::empty(),
                Some(close) => seq![xml_unescaped(xml.subrange(from, close))],
            }
        },
    }
}

/// The mount points that the property list gives behind position `at`: one for
/// each key, in order.
pub open spec fn mount_points_behind(xml: Seq<char>, at: int) -> Seq<Seq<char>>
    decreases xml.len() - at,
    when 0 <= at
    via mount_points_behind_ends
{
    match find_from(xml, mount_point_key(), at) {
        None => Seq::<Seq<char>>::empty(),
        Some(key) => {
            let behind = key + mount_point_key().len();
            value_behind(xml, behind) + mount_points_behind(xml, behind)
        },
    }
}

#[via_fn]
proof fn mount_points_behind_ends(xml: Seq<char>, at: int) {
    reveal_strlit("<key>mount-point</key>");
    if 0 <= at {
        find_from_is_first_match(xml, mount_point_key(), at);
    }
}

/// Every mount point that the property list gives, in order.
pub open spec fn mount_points(xml: Seq<char>) -> Seq<Seq<char>> {
    mount_points_behind(xml, 0)
}

/// Extracts every `mount-point` string value from an `hdiutil attach -plist`
/// XML property list. The plist is a flat, predictable
/// `<key>...</key><string>...</string>` structure for the fields that matter
/// here, so a small scan is enough.
pub fn mount_points_from_plist(xml: &str) -> (r: Vec<String>)
    ensures
        texts(r@) == mount_points(xml@),
{
    let cs = characters(xml);
    let key = characters("<key>mount-point</key>");
    let open_tag = characters("<string>");
    let close_tag = characters("</string>");
    let mut found: Vec<String> = Vec::new();
    let mut at: usize = 0;
    proof {
        reveal_strlit("<key>mount-point</key>");
        reveal_strlit("<string>");
    }
    assert(texts(found@) + mount_points_behind(xml@, 0) =~= mount_points(xml@));
    loop
        invariant
            cs@ == xml@,
            key@ == mount_point_key(),
            key@.len() > 0,
            open_tag@ == "<string>"@,
            close_tag@ == "</string>"@,
            at <= cs@.len(),
            texts(found@) + mount_points_behind(xml@, at as int) == mount_points(xml@),
        ensures
            texts(found@) == mount_points(xml@),
        decreases cs@.len() - at,
    {
        let ghost before = texts(found@);
        let behind: usize = match position_from(&cs, &key, at) {
            None => {
                assert(before + mount_points_behind(xml@, at as int) =~= before);
                break;
            },
            Some(k) => k + key.len(),
        };
        if let Some(open) = position_from(&cs, &open_tag, behind) {
            let from: usize = open + open_tag.len();
            if let Some(close) = position_from(&cs, &close_tag, from) {
                let raw = text_between(&cs, from, close);
                found.push(unescape_xml(raw.as_str()));
            }
        }
        assert(texts(found@) =~= before + value_behind(xml@, behind as int));
        assert(before + (value_behind(xml@, behind as int) + mount_points_behind(
            xml@,
            behind as int,
        )) =~= texts(found@) + mount_points_behind(xml@, behind as int));
        at = behind;
    }
    found
}

// ---------------------------------------------------------------------
// What is found in a whole property list
// ---------------------------------------------------------------------

/// One mount point of a property list: what stands before its key, what stands
/// between the key and its string element, and the path itself.
pub struct MountEntry {
    pub before: Seq<char>,
    pub blank: Seq<char>,
    pub path: Seq<char>,
}

/// The entry is one that `hdiutil` can print: no further mount-point key
/// stands before its own, and its string element is the next element behind the
/// key.
pub open spec fn is_mount_entry(e: MountEntry) -> bool {
    &&& !occurs(e.before, mount_point_key())
    &&& forall|i: int| 0 <= i < e.blank.len() ==> e.blank[i] != '<'
}

/// The string element of a path and what stands between it and its key.
pub open spec fn element_text(e: MountEntry) -> Seq<char> {
    e.blank + "<string>"@ + xml_escaped(e.path) + "</string>"@
}

/// A property list with these entries, and `end` behind the last of them.
pub open spec fn plist_text(entries: Seq<MountEntry>, end: Seq<char>) -> Seq<char>
    decreases entries.len(),
{
    if entries.len() == 0 {
        end
    } else {
        entries[0].before + mount_point_key() + (element_text(entries[0]) + plist_text(
            entries.skip(1),
            end,
        ))
    }
}

/// A search goes over a stretch without a match.
proof fn find_skips(hay: Seq<char>, needle: Seq<char>, from: int, to: int)
    requires
        0 <= from <= to <= hay.len(),
        forall|i: int| from <= i < to ==> !matches_at(hay, needle, i),
    ensures
        find_from(hay, needle, from) == find_from(hay, needle, to),
    decreases to - from,
{
    if from < to {
        assert(!matches_at(hay, needle, from));
        find_skips(hay, needle, from + 1, to);
    }
}

/// Text put before the searched one shifts what is found.
proof fn find_shifts(p: Seq<char>, hay: Seq<char>, needle: Seq<char>, from: int)
    requires
        0 <= from,
    ensures
        find_from(p + hay, needle, p.len() + from) == (match find_from(hay, needle, from) {
            Some(i) => Some(p.len() + i),
            None => None,
        }),
    decreases hay.len() + 1 - from,
{
    if from + needle.len() <= hay.len() {
        assert((p + hay).subrange(p.len() + from, p.len() + from + needle.len()) =~= hay.subrange(
            from,
            from + needle.len(),
        ));
        if !matches_at(hay, needle, from) {
            find_shifts(p, hay, needle, from + 1);
        }
    }
}

proof fn value_shifts(p: Seq<char>, xml: Seq<char>, at: int)
    requires
        0 <= at,
    ensures
        value_behind(p + xml, p.len() + at) == value_behind(xml, at),
{
    find_shifts(p, xml, "<string>"@, at);
    if let Some(open) = find_from(xml, "<string>"@, at) {
        find_from_is_first_match(xml, "<string>"@, at);
        let from = open + "<string>"@.len();
        find_shifts(p, xml, "</string>"@, from);
        find_from_is_first_match(xml, "</string>"@, from);
        if let Some(close) = find_from(xml, "</string>"@, from) {
            assert((p + xml).subrange(p.len() + from, p.len() + close) =~= xml.subrange(
                from,
                close,
            ));
        }
    }
}

proof fn mount_points_shift(p: Seq<char>, xml: Seq<char>, at: int)
    requires
        0 <= at,
    ensures
        mount_points_behind(p + xml, p.len() + at) == mount_points_behind(xml, at),
    decreases xml.len() - at,
{
    reveal_strlit("<key>mount-point</key>");
    find_shifts(p, xml, mount_point_key(), at);
    find_from_is_first_match(xml, mount_point_key(), at);
    if let Some(key) = find_from(xml, mount_point_key(), at) {
        let behind = key + mount_point_key().len();
        value_shifts(p, xml, behind);
        mount_points_shift(p, xml, behind);
    }
}

proof fn escaped_has_no_tag(s: Seq<char>, i: int)
    requires
        0 <= i < xml_escaped(s).len(),
    ensures
        xml_escaped(s)[i] != '<',
    decreases s.len(),
{
    reveal_entities();
    if s.len() > 0 {
        let head = char_escaped(s[0]);
        if i >= head.len() {
            escaped_has_no_tag(s.skip(1), i - head.len());
        }
    }
}

/// The key of an entry is the first one: it does not begin inside what stands
/// before it.
proof fn key_is_found(before: Seq<char>, rest: Seq<char>)
    requires
        !occurs(before, mount_point_key()),
    ensures
        find_from(before + mount_point_key() + rest, mount_point_key(), 0) == Some(
            before.len() as int,
        ),
{
    reveal_strlit("<key>mount-point</key>");
    let key = mount_point_key();
    let hay = before + key + rest;
    assert forall|i: int| 0 <= i < before.len() implies !matches_at(hay, key, i) by {
        if matches_at(hay, key, i) {
            let window = hay.subrange(i, i + key.len());
            if i + key.len() <= before.len() {
                assert(before.subrange(i, i + key.len()) =~= window);
                assert(matches_at(before, key, i));
            } else {
                let m = before.len() - i;
                assert(window[m] == hay[before.len() as int]);
                assert(hay[before.len() as int] == key[0]);
                assert(key[m] == '<');
                assert(m == 16);
                assert(window[17] == hay[before.len() as int + 1]);
                assert(hay[before.len() as int + 1] == key[1]);
            }
        }
    }
    find_skips(hay, key, 0, before.len() as int);
    assert(hay.subrange(before.len() as int, before.len() as int + key.len()) =~= key);
}

/// A string element gives its text, unescaped, and holds no key.
proof fn raw_element_is_read(blank: Seq<char>, raw: Seq<char>, rest: Seq<char>)
    requires
        forall|i: int| 0 <= i < blank.len() ==> blank[i] != '<',
        forall|i: int| 0 <= i < raw.len() ==> raw[i] != '<',
    ensures
        ({
            let element = blank + "<string>"@ + raw + "</string>"@;
            &&& value_behind(element + rest, 0) == seq![xml_unescaped(raw)]
            &&& mount_points(element + rest) == mount_points(rest)
        }),
{
    reveal_strlit("<key>mount-point</key>");
    reveal_strlit("<string>");
    reveal_strlit("</string>");
    let element = blank + "<string>"@ + raw + "</string>"@;
    let xml = element + rest;
    let open = blank.len() as int;
    let from = open + "<string>"@.len();
    let close = from + raw.len();
    assert forall|i: int| 0 <= i < open implies !matches_at(xml, "<string>"@, i) by {
        if matches_at(xml, "<string>"@, i) {
            assert(xml.subrange(i, i + "<string>"@.len())[0] == xml[i]);
            assert(xml[i] == blank[i]);
        }
    }
    find_skips(xml, "<string>"@, 0, open);
    assert(xml.subrange(open, from) =~= "<string>"@);
    assert forall|i: int| from <= i < close implies xml[i] != '<' by {
        assert(xml[i] == raw[i - from]);
    }
    assert forall|i: int| from <= i < close implies !matches_at(xml, "</string>"@, i) by {
        if matches_at(xml, "</string>"@, i) {
            assert(xml.subrange(i, i + "</string>"@.len())[0] == xml[i]);
        }
    }
    find_skips(xml, "</string>"@, from, close);
    assert(xml.subrange(close, close + "</string>"@.len()) =~= "</string>"@);
    assert(xml.subrange(from, close) =~= raw);
    assert(value_behind(xml, 0) =~= seq![xml_unescaped(raw)]);
    let key = mount_point_key();
    let end = element.len() as int;
    assert(end == close + "</string>"@.len());
    assert forall|i: int| 0 <= i < end implies !matches_at(xml, key, i) by {
        if matches_at(xml, key, i) {
            let window = xml.subrange(i, i + key.len());
            assert(window[0] == xml[i]);
            assert(window[1] == xml[i + 1]);
            if i < open {
                assert(xml[i] == blank[i]);
            } else if i < from {
                assert(xml[i] == "<string>"@[i - open]);
                assert(i == open);
                assert(xml[i + 1] == "<string>"@[1]);
            } else if close <= i {
                assert(xml[i] == "</string>"@[i - close]);
                assert(i == close);
                assert(xml[i + 1] == "</string>"@[1]);
            }
        }
    }
    find_skips(xml, key, 0, end);
    mount_points_shift(element, rest, 0);
}

/// The string element of an entry gives its path, and holds no key.
proof fn element_is_read(e: MountEntry, rest: Seq<char>)
    requires
        is_mount_entry(e),
    ensures
        value_behind(element_text(e) + rest, 0) == seq![e.path],
        mount_points(element_text(e) + rest) == mount_points(rest),
{
    let raw = xml_escaped(e.path);
    assert forall|i: int| 0 <= i < raw.len() implies raw[i] != '<' by {
        escaped_has_no_tag(e.path, i);
    }
    raw_element_is_read(e.blank, raw, rest);
    unescape_undoes_escape(e.path);
}

/// Every mount point of a property list is found, not just the first, and they
/// are found in order.
pub proof fn every_mount_point_is_found(entries: Seq<MountEntry>, end: Seq<char>)
    requires
        forall|i: int| 0 <= i < entries.len() ==> is_mount_entry(#[trigger] entries[i]),
        !occurs(end, mount_point_key()),
    ensures
        mount_points(plist_text(entries, end)) == entries.map_values(|e: MountEntry| e.path),
    decreases entries.len(),
{
    let paths = entries.map_values(|e: MountEntry| e.path);
    if entries.len() == 0 {
        find_from_is_first_match(end, mount_point_key(), 0);
        assert(mount_points(end) =~= paths);
    } else {
        let e = entries[0];
        let rest = plist_text(entries.skip(1), end);
        let head = e.before + mount_point_key();
        let xml = plist_text(entries, end);
        every_mount_point_is_found(entries.skip(1), end);
        key_is_found(e.before, element_text(e) + rest);
        element_is_read(e, rest);
        value_shifts(head, element_text(e) + rest, 0);
        mount_points_shift(head, element_text(e) + rest, 0);
        assert(mount_points(xml) == seq![e.path] + mount_points(rest));
        assert(seq![e.path] + entries.skip(1).map_values(|e: MountEntry| e.path) =~= paths);
    }
}

// ---------------------------------------------------------------------
// Joined property lists
// ---------------------------------------------------------------------

/// Each mount-point key of a text has its string element behind it, still
/// within the text.
pub open spec fn is_complete(xml: Seq<char>) -> bool {
    forall|i: int| #[trigger]
        matches_at(xml, mount_point_key(), i) ==> value_behind(
            xml,
            i + mount_point_key().len(),
        ).len() > 0
}

/// No mount-point key begins in the first text and ends in the second.
pub open spec fn is_clean_join(a: Seq<char>, b: Seq<char>) -> bool {
    forall|i: int|
        i < a.len() < i + mount_point_key().len() ==> !#[trigger] matches_at(
            a + b,
            mount_point_key(),
            i,
        )
}

/// How often `needle` occurs in `hay` from position `from` on.
pub open spec fn occurrences(hay: Seq<char>, needle: Seq<char>, from: int) -> nat
    decreases hay.len() + 1 - from,
{
    if from + needle.len() > hay.len() {
        0
    } else {
        (if matches_at(hay, needle, from) {
            1nat
        } else {
            0nat
        }) + occurrences(hay, needle, from + 1)
    }
}

/// Text put behind the searched one does not change what is found in it.
proof fn find_stays(hay: Seq<char>, more: Seq<char>, needle: Seq<char>, from: int)
    requires
        0 <= from,
        find_from(hay, needle, from) is Some,
    ensures
        find_from(hay + more, needle, from) == find_from(hay, needle, from),
    decreases hay.len() + 1 - from,
{
    assert((hay + more).subrange(from, from + needle.len()) =~= hay.subrange(
        from,
        from + needle.len(),
    ));
    if !matches_at(hay, needle, from) {
        find_stays(hay, more, needle, from + 1);
    }
}

proof fn value_stays(xml: Seq<char>, more: Seq<char>, at: int)
    requires
        0 <= at,
        value_behind(xml, at).len() > 0,
    ensures
        value_behind(xml + more, at) == value_behind(xml, at),
{
    find_stays(xml, more, "<string>"@, at);
    find_from_is_first_match(xml, "<string>"@, at);
    let from = find_from(xml, "<string>"@, at)->0 + "<string>"@.len();
    find_stays(xml, more, "</string>"@, from);
    find_from_is_first_match(xml, "</string>"@, from);
    let close = find_from(xml, "</string>"@, from)->0;
    assert((xml + more).subrange(from, close) =~= xml.subrange(from, close));
}

proof fn mount_points_join(a: Seq<char>, b: Seq<char>, at: int)
    requires
        0 <= at <= a.len(),
        is_complete(a),
        is_clean_join(a, b),
    ensures
        mount_points_behind(a + b, at) == mount_points_behind(a, at) + mount_points(b),
    decreases a.len() - at,
{
    reveal_strlit("<key>mount-point</key>");
    let key = mount_point_key();
    let all = a + b;
    find_from_is_first_match(a, key, at);
    match find_from(a, key, at) {
        Some(k) => {
            let behind = k + key.len();
            find_stays(a, b, key, at);
            assert(matches_at(a, key, k));
            value_stays(a, b, behind);
            mount_points_join(a, b, behind);
            assert(value_behind(a, behind) + (mount_points_behind(a, behind) + mount_points(b))
                =~= mount_points_behind(a, at) + mount_points(b));
        },
        None => {
            assert forall|i: int| at <= i < a.len() implies !matches_at(all, key, i) by {
                if i + key.len() <= a.len() {
                    assert(all.subrange(i, i + key.len()) =~= a.subrange(i, i + key.len()));
                    assert(!matches_at(a, key, i));
                }
            }
            find_skips(all, key, at, a.len() as int);
            mount_points_shift(a, b, 0);
            assert(mount_points_behind(all, at) == mount_points_behind(all, a.len() as int));
            assert(mount_points_behind(a, at) + mount_points(b) =~= mount_points(b));
        },
    }
}

/// The mount points of two property lists, one behind the other, are those of
/// the first and then those of the second, where the first is complete and the
/// join cuts no key.
pub proof fn mount_points_of_joined_lists(a: Seq<char>, b: Seq<char>)
    requires
        is_complete(a),
        is_clean_join(a, b),
    ensures
        mount_points(a + b) == mount_points(a) + mount_points(b),
{
    mount_points_join(a, b, 0);
}

proof fn occurrences_from_later(hay: Seq<char>, needle: Seq<char>, from: int, to: int)
    requires
        from <= to,
    ensures
        occurrences(hay, needle, to) <= occurrences(hay, needle, from),
    decreases to - from,
{
    if from < to {
        occurrences_from_later(hay, needle, from + 1, to);
    }
}

proof fn no_more_mount_points_than_keys_behind(xml: Seq<char>, at: int)
    requires
        0 <= at,
    ensures
        mount_points_behind(xml, at).len() <= occurrences(xml, mount_point_key(), at),
    decreases xml.len() - at,
{
    reveal_strlit("<key>mount-point</key>");
    let key = mount_point_key();
    find_from_is_first_match(xml, key, at);
    if let Some(k) = find_from(xml, key, at) {
        let behind = k + key.len();
        no_more_mount_points_than_keys_behind(xml, behind);
        occurrences_from_later(xml, key, k + 1, behind);
        occurrences_from_later(xml, key, at, k);
        assert(value_behind(xml, behind).len() <= 1);
    }
}

/// There are no more mount points than mount-point keys, and none in a text
/// without that key.
pub proof fn no_more_mount_points_than_keys(xml: Seq<char>)
    ensures
        mount_points(xml).len() <= occurrences(xml, mount_point_key(), 0),
        !occurs(xml, mount_point_key()) ==> mount_points(xml) == Seq::<Seq<char>>::empty(),
{
    no_more_mount_points_than_keys_behind(xml, 0);
    find_from_is_first_match(xml, mount_point_key(), 0);
}

// ---------------------------------------------------------------------
// How entities are read
// ---------------------------------------------------------------------

/// Unescaping goes through a text from left to right: each of the five entities
/// is one character, and every other character, also a `&` that begins none of
/// them, stands for itself.
pub proof fn entities_are_read_from_left_to_right(rest: Seq<char>, c: char)
    ensures
        xml_unescaped(Seq::<char>::empty()) == Seq::<char>::empty(),
        xml_unescaped("&amp;"@ + rest) == seq!['&'] + xml_unescaped(rest),
        xml_unescaped("&lt;"@ + rest) == seq!['<'] + xml_unescaped(rest),
        xml_unescaped("&gt;"@ + rest) == seq!['>'] + xml_unescaped(rest),
        xml_unescaped("&quot;"@ + rest) == seq!['"'] + xml_unescaped(rest),
        xml_unescaped("&apos;"@ + rest) == seq!['\''] + xml_unescaped(rest),
        c != '&' ==> xml_unescaped(seq![c] + rest) == seq![c] + xml_unescaped(rest),
        ({
            let s = seq!['&'] + rest;
            !matches_at(s, "&amp;"@, 0) && !matches_at(s, "&lt;"@, 0) && !matches_at(s, "&gt;"@, 0)
                && !matches_at(s, "&quot;"@, 0) && !matches_at(s, "&apos;"@, 0) ==> xml_unescaped(s)
                == seq!['&'] + xml_unescaped(rest)
        }),
{
    reveal_entities();
    entity_is_read(0, rest);
    entity_is_read(1, rest);
    entity_is_read(2, rest);
    entity_is_read(3, rest);
    entity_is_read(4, rest);
    let s = seq![c] + rest;
    assert(s.skip(1) =~= rest);
    assert((seq!['&'] + rest).skip(1) =~= rest);
    if c != '&' {
        no_entity_leads(s);
    }
}

proof fn entity_is_read(k: int, rest: Seq<char>)
    requires
        0 <= k < 5,
    ensures
        xml_unescaped(entity(k) + rest) == seq![entity_char(k)] + xml_unescaped(rest),
{
    reveal_entities();
    entity_leads(k, rest);
    assert((entity(k) + rest).skip(entity(k).len() as int) =~= rest);
}

/// A property list is read by its words: whatever stands before a mount-point key
/// and between it and the next string element, the text of that element is the
/// mount point, however it is written; then the list is read on behind it.
pub proof fn mount_point_is_the_next_string(
    before: Seq<char>,
    blank: Seq<char>,
    raw: Seq<char>,
    rest: Seq<char>,
)
    requires
        !occurs(before, "<key>mount-point</key>"@),
        forall|i: int| 0 <= i < blank.len() ==> blank[i] != '<',
        forall|i: int| 0 <= i < raw.len() ==> raw[i] != '<',
    ensures
        mount_points(
            before + "<key>mount-point</key>"@ + (blank + "<string>"@ + raw + "</string>"@ + rest),
        ) == seq![xml_unescaped(raw)] + mount_points(rest),
{
    let head = before + mount_point_key();
    let behind = blank + "<string>"@ + raw + "</string>"@ + rest;
    raw_element_is_read(blank, raw, rest);
    key_is_found(before, behind);
    value_shifts(head, behind, 0);
    mount_points_shift(head, behind, 0);
}

/// A key without a whole string element behind it gives nothing.
pub proof fn key_without_a_string_gives_nothing(before: Seq<char>, rest: Seq<char>)
    requires
        !occurs(before, "<key>mount-point</key>"@),
        !occurs(rest, "<key>mount-point</key>"@),
        !occurs(rest, "<string>"@) || !occurs(rest, "</string>"@),
    ensures
        mount_points(before + "<key>mount-point</key>"@ + rest) == Seq::<Seq<char>>::empty(),
{
    let head = before + mount_point_key();
    key_is_found(before, rest);
    value_shifts(head, rest, 0);
    mount_points_shift(head, rest, 0);
    no_more_mount_points_than_keys(rest);
    find_from_is_first_match(rest, "<string>"@, 0);
    if let Some(open) = find_from(rest, "<string>"@, 0) {
        assert(matches_at(rest, "<string>"@, open));
        find_from_is_first_match(rest, "</string>"@, open + "<string>"@.len());
    }
    assert(mount_points(head + rest) =~= Seq::<Seq<char>>::empty());
}

} // verus!
