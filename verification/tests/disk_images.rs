use tor_browser_builder::plist::{mount_points_from_plist, unescape_xml};
use tor_browser_builder::volumes::{
    is_tor_browser_volume, mount_point_from_output, new_volume, stale_volumes,
};

fn names(list: &[&str]) -> Vec<String> {
    list.iter().map(|s| s.to_string()).collect()
}

#[test]
fn unescaped_entities() {
    assert_eq!(unescape_xml("Tor Browser &amp; Friends"), "Tor Browser & Friends");
    assert_eq!(unescape_xml("&lt;&gt;&quot;&apos;"), "<>\"'");
    assert_eq!(unescape_xml("&amp;lt;"), "&lt;");
    assert_eq!(unescape_xml("&amp;amp;amp;"), "&amp;amp;");
    assert_eq!(unescape_xml("&amp;&amp;lt;&lt;"), "&&lt;<");
    assert_eq!(unescape_xml("& &a &amp &;&lt"), "& &a &amp &;&lt");
    assert_eq!(unescape_xml("&&amp;"), "&&");
    assert_eq!(unescape_xml("plain"), "plain");
    assert_eq!(unescape_xml(""), "");
}

#[test]
fn unescape_undoes_escape_on_given_values() {
    for text in ["a & b < c > d \" e ' f", "&lt;", "&amp;lt;", "&&amp;;", "", "Tor & \u{fc}"] {
        let escaped = text
            .replace('&', "&amp;")
            .replace('<', "&lt;")
            .replace('>', "&gt;")
            .replace('"', "&quot;")
            .replace('\'', "&apos;");
        assert_eq!(unescape_xml(&escaped), text);
    }
}

#[test]
fn mount_points_of_lists_one_behind_the_other() {
    let a = "<dict><key>mount-point</key><string>/Volumes/A</string></dict>";
    let b = "<dict><key>dev-entry</key><string>/dev/disk4</string></dict>";
    let c = "<dict><key>mount-point</key> <string>/Volumes/&amp;lt;</string></dict>";
    for (x, y) in [(a, b), (a, c), (c, a), (b, c), (c, c)] {
        let mut both = mount_points_from_plist(x);
        both.extend(mount_points_from_plist(y));
        assert_eq!(mount_points_from_plist(&format!("{x}{y}")), both);
    }
    assert_eq!(mount_points_from_plist(c), vec!["/Volumes/&lt;"]);
    assert!(mount_points_from_plist(b).is_empty());
}

#[test]
fn every_mount_point_has_a_key_of_its_own() {
    let xml = "<string>/Volumes/A</string><key>mount-point</key><key>mount-point</key>\
               <string>/Volumes/B</string><string>/Volumes/C</string>";
    let keys = xml.matches("<key>mount-point</key>").count();
    assert!(mount_points_from_plist(xml).len() <= keys);
    assert!(mount_points_from_plist("<string>/Volumes/A</string>").is_empty());
}

#[test]
fn mount_points_of_a_property_list() {
    let xml = "<dict><key>dev-entry</key><string>/dev/disk4</string></dict>\
        <dict><key>mount-point</key>\n\t<string>/Volumes/Tor Browser &amp; Co</string></dict>\
        <dict><key>mount-point</key><string>/Volumes/B</string></dict>";
    assert_eq!(
        mount_points_from_plist(xml),
        vec!["/Volumes/Tor Browser & Co", "/Volumes/B"]
    );
    assert!(mount_points_from_plist("").is_empty());
    assert!(mount_points_from_plist("<key>mount-point</key>").is_empty());
    assert!(mount_points_from_plist("<key>mount-point</key><string>/Volumes/x").is_empty());
}

#[test]
fn reported_mount_points() {
    let plist = "<key>mount-point</key><string>/private/x</string>\
                 <key>mount-point</key><string>/Volumes/T</string>";
    assert_eq!(mount_point_from_output(plist).as_deref(), Some("/Volumes/T"));
    let table = "/dev/disk4\tGUID\t\n/dev/disk4s1\tApple_HFS\t /Volumes/Tor Browser \n";
    assert_eq!(mount_point_from_output(table).as_deref(), Some("/Volumes/Tor Browser"));
    assert_eq!(
        mount_point_from_output("/dev/disk4s1\tApple_HFS\t/Volumes/T\r\n").as_deref(),
        Some("/Volumes/T")
    );
    assert_eq!(mount_point_from_output("/Volumes/T\tx"), None);
    assert_eq!(mount_point_from_output(""), None);
}

#[test]
fn stale_names() {
    assert!(is_tor_browser_volume("Tor Browser"));
    assert!(is_tor_browser_volume("Tor Browser 1"));
    assert!(is_tor_browser_volume("Tor Browser 23"));
    assert!(!is_tor_browser_volume("Tor Browser "));
    assert!(!is_tor_browser_volume("Tor Browser x"));
    assert!(!is_tor_browser_volume("Tor Browser 1a"));
    assert!(!is_tor_browser_volume("My Tor Browser"));
    assert_eq!(
        stale_volumes(&names(&["Tor Browser 2", "Macintosh HD", "Tor Browser"])),
        vec!["Tor Browser 2", "Tor Browser"]
    );
}

#[test]
fn volumes_that_appeared() {
    let before = names(&["Macintosh HD"]);
    assert_eq!(
        new_volume(&before, &names(&["Macintosh HD", "Tor Browser"])).as_deref(),
        Some("/Volumes/Tor Browser")
    );
    assert_eq!(new_volume(&before, &before), None);
    assert_eq!(new_volume(&names(&[]), &names(&["A", "B"])).as_deref(), Some("/Volumes/A"));
    assert_eq!(new_volume(&before, &names(&[])), None);
}
