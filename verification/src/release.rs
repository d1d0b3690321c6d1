//! The release index of the Tor Project: where it is, and what is read from it.

use vstd::prelude::*;
use crate::platform::{label_of, platform_label, release_file_of, release_json_filename, Os, Target};
use crate::text::{cat2, cat3, optional_text, owned};

verus! {

broadcast use vstd::string::group_string_axioms;

// ---------------------------------------------------------------------
// Requests
// ---------------------------------------------------------------------

/// Seconds that the request for the release index may take.
pub const RELEASE_TIMEOUT_SECS: u64 = 20;

/// Seconds that the download of the archive may take.
pub const DOWNLOAD_TIMEOUT_SECS: u64 = 600;

/// Seconds that the download of the signature, and that of the key, may take.
pub const SIGNATURE_TIMEOUT_SECS: u64 = 30;

/// This app's own version, shown in the About screen and sent as part of
/// the HTTP User-Agent when talking to the Tor Project's release API.
pub fn app_version() -> (r: &'static str)
    ensures
        r@ == "0.07"@,
{
    "0.07"
}

/// The HTTP User-Agent of every request.
pub fn user_agent() -> (r: String)
    ensures
        r@ == "tor-browser-builder/"@ + "0.07"@,
{
    cat2("tor-browser-builder/", app_version())
}

/// Where the description of the release for a target is fetched from.
pub fn release_url(target: Target) -> (r: String)
    ensures
        r@ == "https://aus1.torproject.org/torbrowser/update_3/release/"@ + release_file_of(target),
{
    cat2("https://aus1.torproject.org/torbrowser/update_3/release/", release_json_filename(target))
}

// ---------------------------------------------------------------------
// JSON documents
// ---------------------------------------------------------------------

#[verifier::external_type_specification]
#[verifier::external_body]
pub struct ExValue(serde_json::Value);

#[verifier::external_type_specification]
#[verifier::external_body]
pub struct ExError(serde_json::Error);

/// The strings of a JSON document, each under the member names that lead to it
/// through nested objects. The empty path leads to the document itself.
pub type JsonStrings = Map<Seq<Seq<char>>, Seq<char>>;

/// The strings that a `serde_json::Value` holds, by the member names that lead
/// to them.
pub uninterp spec fn json_strings(document: serde_json::Value) -> Map<Seq<Seq<char>>, Seq<char>>;

/// The strings of the JSON document that a body is, as `serde_json` reads it;
/// `None` where it does not take the body for a document.
pub uninterp spec fn json_document(body: Seq<u8>) -> Option<Map<Seq<Seq<char>>, Seq<char>>>;

/// `part` is what `whole` holds under `path`.
pub open spec fn is_part(whole: JsonStrings, path: Seq<Seq<char>>, part: JsonStrings) -> bool {
    forall|p: Seq<Seq<char>>|
        {
            &&& #[trigger] part.contains_key(p) <==> whole.contains_key(path + p)
            &&& part.contains_key(p) ==> part[p] == whole[path + p]
        }
}

/// `whole` holds nothing under `path`.
pub open spec fn has_no_part(whole: JsonStrings, path: Seq<Seq<char>>) -> bool {
    forall|p: Seq<Seq<char>>| !#[trigger] whole.contains_key(path + p)
}

/// A member name that a JSON pointer holds as it is, and that is no array
/// index.
pub open spec fn is_plain_name(name: Seq<char>) -> bool {
    &&& name.len() > 0
    &&& !('0' <= name[0] <= '9')
    &&& forall|i: int| 0 <= i < name.len() ==> name[i] != '/' && name[i] != '~'
}

/// The JSON pointer of a path of plain names.
pub open spec fn pointer_text(path: Seq<Seq<char>>) -> Seq<char>
    decreases path.len(),
{
    if path.len() == 0 {
        Seq::<char>::empty()
    } else {
        pointer_text(path.drop_last()) + "/"@ + path.last()
    }
}

/// `serde_json::from_slice`, for a value of any kind: whether the body is a
/// JSON document, and the strings of that document, depend on the body alone
/// and are called `json_document` in contracts.
#[verifier::external_body]
fn parse_json(body: &[u8]) -> (r: Result<serde_json::Value, serde_json::Error>)
    ensures
        match r {
            Ok(document) => json_document(body@) == Some(json_strings(document)),
            Err(_) => json_document(body@) is None,
        },
{
    serde_json::from_slice(body)
}

/// `serde_json::Value::get` with a member name: the member of that name, where
/// the value is an object that has one.
#[verifier::external_body]
fn member<'a>(document: &'a serde_json::Value, name: &str) -> (r: Option<&'a serde_json::Value>)
    ensures
        match r {
            Some(v) => is_part(json_strings(*document), seq![name@], json_strings(*v)),
            None => has_no_part(json_strings(*document), seq![name@]),
        },
{
    document.get(name)
}

/// `serde_json::Value::pointer`: with the pointer of a path of plain names, the
/// value that the path leads to, where there is one.
pub assume_specification<'a>[ serde_json::Value::pointer ](
    document: &'a serde_json::Value,
    pointer: &str,
) -> (r: Option<&'a serde_json::Value>)
    ensures
        forall|path: Seq<Seq<char>>|
            pointer@ == #[trigger] pointer_text(path) && (forall|i: int|
                0 <= i < path.len() ==> is_plain_name(#[trigger] path[i])) ==> match r {
                Some(v) => is_part(json_strings(*document), path, json_strings(*v)),
                None => has_no_part(json_strings(*document), path),
            },
;

/// `serde_json::Value::as_str`: the text of the value, where it is a string.
pub assume_specification[ serde_json::Value::as_str ](document: &serde_json::Value) -> (r: Option<
    &str,
>)
    ensures
        match r {
            Some(s) => json_strings(*document).contains_key(Seq::<Seq<char>>::empty())
                && json_strings(*document)[Seq::<Seq<char>>::empty()] == s@,
            None => !json_strings(*document).contains_key(Seq::<Seq<char>>::empty()),
        },
;

// ---------------------------------------------------------------------
// Release descriptions
// ---------------------------------------------------------------------

/// What is known of a release.
pub struct ReleaseInfo {
    pub version: String,
    pub binary_url: String,
    pub sha256: Option<String>,
    pub sig_url: Option<String>,
}

/// What is known of a release, as texts.
pub struct ReleaseView {
    pub version: Seq<char>,
    pub binary_url: Seq<char>,
    pub sha256: Option<Seq<char>>,
    pub sig_url: Option<Seq<char>>,
}

impl View for ReleaseInfo {
    type V = ReleaseView;

    open spec fn view(&self) -> ReleaseView {
        ReleaseView {
            version: self.version@,
            binary_url: self.binary_url@,
            sha256: optional_text(self.sha256),
            sig_url: optional_text(self.sig_url),
        }
    }
}

/// The strings of a release description that are looked at, each absent where
/// the description has no string in that place.
pub struct ReleaseFields {
    pub version: Option<String>,
    pub binary: Option<String>,
    pub url: Option<String>,
    /// The binary among the downloads for the platform.
    pub platform_binary: Option<String>,
    pub sha256: Option<String>,
    /// The checksum among the downloads for the platform.
    pub platform_sha256: Option<String>,
    pub sig: Option<String>,
}

/// The strings of a release description that are looked at, as texts.
pub struct FieldsView {
    pub version: Option<Seq<char>>,
    pub binary: Option<Seq<char>>,
    pub url: Option<Seq<char>>,
    pub platform_binary: Option<Seq<char>>,
    pub sha256: Option<Seq<char>>,
    pub platform_sha256: Option<Seq<char>>,
    pub sig: Option<Seq<char>>,
}

impl View for ReleaseFields {
    type V = FieldsView;

    open spec fn view(&self) -> FieldsView {
        FieldsView {
            version: optional_text(self.version),
            binary: optional_text(self.binary),
            url: optional_text(self.url),
            platform_binary: optional_text(self.platform_binary),
            sha256: optional_text(self.sha256),
            platform_sha256: optional_text(self.platform_sha256),
            sig: optional_text(self.sig),
        }
    }
}

/// The first of two that is present.
pub open spec fn first_of(a: Option<Seq<char>>, b: Option<Seq<char>>) -> Option<Seq<char>> {
    match a {
        Some(_) => a,
        None => b,
    }
}

/// The release that a description with these strings is of, or why it is of
/// none. The binary is looked for at the top level first, then among the
/// downloads for the platform; without one there is no release. A missing
/// version is called unknown, a missing signature is taken to lie beside the
/// binary, and a checksum may be missing.
pub open spec fn release_of(os: Os, f: FieldsView) -> Result<ReleaseView, Seq<char>> {
    match first_of(first_of(f.binary, f.url), f.platform_binary) {
        None => Err(
            "could not find a "@ + label_of(os) + " download URL in the release response"@,
        ),
        Some(binary_url) => Ok(
            ReleaseView {
                version: match f.version {
                    Some(v) => v,
                    None => "unknown"@,
                },
                binary_url,
                sha256: first_of(f.sha256, f.platform_sha256),
                sig_url: Some(
                    match f.sig {
                        Some(s) => s,
                        None => binary_url + ".asc"@,
                    },
                ),
            },
        ),
    }
}

/// The result of reading a description, as texts.
pub open spec fn release_result(r: Result<ReleaseInfo, String>) -> Result<ReleaseView, Seq<char>> {
    match r {
        Ok(release) => Ok(release@),
        Err(e) => Err(e@),
    }
}

/// The release that a description with these strings is of, or why it is of
/// none.
pub fn release_from_fields(target: Target, fields: ReleaseFields) -> (r: Result<
    ReleaseInfo,
    String,
>)
    ensures
        release_result(r) == release_of(target.os, fields@),
{
    let version = match fields.version {
        Some(v) => v,
        None => owned("unknown"),
    };
    let binary_url = match fields.binary {
        Some(b) => b,
        None => match fields.url {
            Some(u) => u,
            None => match fields.platform_binary {
                Some(p) => p,
                None => {
                    return Err(
                        cat3(
                            "could not find a ",
                            platform_label(target),
                            " download URL in the release response",
                        ),
                    );
                },
            },
        },
    };
    // Not all responses include a checksum; when there is none, that step is
    // skipped.
    let sha256 = match fields.sha256 {
        Some(s) => Some(s),
        None => fields.platform_sha256,
    };
    // The detached signature lies alongside the release binary.
    let sig_url = match fields.sig {
        Some(s) => s,
        None => cat2(binary_url.as_str(), ".asc"),
    };
    Ok(ReleaseInfo { version, binary_url, sha256, sig_url: Some(sig_url) })
}

/// The name under which a description lists the downloads for a platform.
pub open spec fn platform_name(os: Os) -> Seq<char> {
    match os {
        Os::Windows => "win64"@,
        Os::Linux => "linux64"@,
        _ => "osx64"@,
    }
}

/// Where a description gives a property of the download for a platform.
pub open spec fn platform_path(os: Os, property: Seq<char>) -> Seq<Seq<char>> {
    seq!["downloads"@, platform_name(os), "en-US"@, property]
}

/// The string at a place of a document.
pub open spec fn string_at(document: JsonStrings, path: Seq<Seq<char>>) -> Option<Seq<char>> {
    if document.contains_key(path) {
        Some(document[path])
    } else {
        None
    }
}

/// The strings of a description that are looked at, by their places in the
/// document.
pub open spec fn fields_of(os: Os, document: JsonStrings) -> FieldsView {
    FieldsView {
        version: string_at(document, seq!["version"@]),
        binary: string_at(document, seq!["binary"@]),
        url: string_at(document, seq!["url"@]),
        platform_binary: string_at(document, platform_path(os, "binary"@)),
        sha256: string_at(document, seq!["sha256"@]),
        platform_sha256: string_at(document, platform_path(os, "sha256"@)),
        sig: string_at(document, seq!["sig"@]),
    }
}

fn string_member(document: &serde_json::Value, name: &str) -> (r: Option<String>)
    ensures
        optional_text(r) == string_at(json_strings(*document), seq![name@]),
{
    let ghost here = Seq::<Seq<char>>::empty();
    assert(seq![name@] + here =~= seq![name@]);
    match member(document, name) {
        Some(v) => match v.as_str() {
            Some(s) => Some(owned(s)),
            None => None,
        },
        None => {
            assert(!json_strings(*document).contains_key(seq![name@] + here));
            None
        },
    }
}

/// The pointer of a property of the download for a platform.
fn platform_pointer(os: Os, property: &str) -> (r: String)
    ensures
        r@ == pointer_text(platform_path(os, property@)),
{
    let name = match os {
        Os::Windows => "win64",
        Os::Linux => "linux64",
        Os::MacOs => "osx64",
        Os::Other => "osx64",
    };
    let mut r = owned("/downloads/");
    r.append(name);
    r.append("/en-US/");
    r.append(property);
    proof {
        reveal_with_fuel(pointer_text, 5);
        reveal_strlit("/downloads/");
        reveal_strlit("/en-US/");
        reveal_strlit("/");
        reveal_strlit("downloads");
        reveal_strlit("en-US");
        let path = platform_path(os, property@);
        assert(path.drop_last() =~= seq!["downloads"@, platform_name(os), "en-US"@]);
        assert(path.drop_last().drop_last() =~= seq!["downloads"@, platform_name(os)]);
        assert(path.drop_last().drop_last().drop_last() =~= seq!["downloads"@]);
        assert(seq!["downloads"@].drop_last() =~= Seq::<Seq<char>>::empty());
        assert(pointer_text(seq!["downloads"@]) =~= "/"@ + "downloads"@);
        assert("/downloads/"@ =~= "/"@ + "downloads"@ + "/"@);
        assert("/en-US/"@ =~= "/"@ + "en-US"@ + "/"@);
        assert(r@ =~= pointer_text(path));
    }
    r
}

fn string_for_platform(document: &serde_json::Value, os: Os, property: &str) -> (r: Option<String>)
    requires
        is_plain_name(property@),
    ensures
        optional_text(r) == string_at(json_strings(*document), platform_path(os, property@)),
{
    let pointer = platform_pointer(os, property);
    let ghost path = platform_path(os, property@);
    let ghost here = Seq::<Seq<char>>::empty();
    proof {
        reveal_strlit("downloads");
        reveal_strlit("en-US");
        reveal_strlit("win64");
        reveal_strlit("linux64");
        reveal_strlit("osx64");
        assert forall|i: int| 0 <= i < path.len() implies is_plain_name(#[trigger] path[i]) by {}
        assert(path + here =~= path);
    }
    match document.pointer(pointer.as_str()) {
        Some(v) => match v.as_str() {
            Some(s) => Some(owned(s)),
            None => None,
        },
        None => {
            assert(!json_strings(*document).contains_key(path + here));
            None
        },
    }
}

/// Reads a release description, the body of the answer to the request for
/// [`release_url`], for the platform of `target`.
///
/// The field names are a best-effort guess at the `download-<platform>.json`
/// schema, so a few plausible places are tried for both the binary URL and the
/// checksum, per platform.
pub fn fetch_release_info(target: Target, body: &[u8]) -> (r: Result<ReleaseInfo, String>)
    ensures
        release_result(r) == (match json_document(body@) {
            Some(document) => release_of(target.os, fields_of(target.os, document)),
            None => Err("error decoding response body"@),
        }),
{
    let document = match parse_json(body) {
        Ok(d) => d,
        Err(_) => {
            return Err(owned("error decoding response body"));
        },
    };
    proof {
        reveal_strlit("binary");
        reveal_strlit("sha256");
    }
    let fields = ReleaseFields {
        version: string_member(&document, "version"),
        binary: string_member(&document, "binary"),
        url: string_member(&document, "url"),
        platform_binary: string_for_platform(&document, target.os, "binary"),
        sha256: string_member(&document, "sha256"),
        platform_sha256: string_for_platform(&document, target.os, "sha256"),
        sig: string_member(&document, "sig"),
    };
    release_from_fields(target, fields)
}

// ---------------------------------------------------------------------
// Laws
// ---------------------------------------------------------------------

/// Every release that is read from a description says where its signature is.
pub proof fn every_release_has_a_signature(os: Os, fields: FieldsView)
    ensures
        release_of(os, fields) matches Ok(release) ==> release.sig_url is Some,
{
}

/// The name of the platform in the list of downloads.
proof fn platform_places(os: Os)
    ensures
        ({
            let name = if os == Os::Windows {
                "win64"@
            } else if os == Os::Linux {
                "linux64"@
            } else {
                "osx64"@
            };
            &&& platform_path(os, "binary"@) == seq!["downloads"@, name, "en-US"@, "binary"@]
            &&& platform_path(os, "sha256"@) == seq!["downloads"@, name, "en-US"@, "sha256"@]
        }),
{
}

/// A description gives a release if and only if it says where the download is:
/// under `binary`, under `url`, or among the downloads for the platform. They are
/// taken in this order, and as they are.
pub proof fn download_is_where_the_description_says(os: Os, document: JsonStrings)
    ensures
        ({
            let r = release_of(os, fields_of(os, document));
            let name = if os == Os::Windows {
                "win64"@
            } else if os == Os::Linux {
                "linux64"@
            } else {
                "osx64"@
            };
            let listed = seq!["downloads"@, name, "en-US"@, "binary"@];
            if document.contains_key(seq!["binary"@]) {
                r matches Ok(release) && release.binary_url == document[seq!["binary"@]]
            } else if document.contains_key(seq!["url"@]) {
                r matches Ok(release) && release.binary_url == document[seq!["url"@]]
            } else if document.contains_key(listed) {
                r matches Ok(release) && release.binary_url == document[listed]
            } else {
                r is Err
            }
        }),
{
    platform_places(os);
}

/// Where a description has a string under `sha256`, the release carries just that
/// string as its checksum, whatever else the description has or lacks; else the
/// one among the downloads for the platform. A release is without a checksum only
/// where the description has none in either place.
pub proof fn checksum_is_what_the_description_says(os: Os, document: JsonStrings)
    ensures
        release_of(os, fields_of(os, document)) matches Ok(release) ==> {
            let name = if os == Os::Windows {
                "win64"@
            } else if os == Os::Linux {
                "linux64"@
            } else {
                "osx64"@
            };
            let listed = seq!["downloads"@, name, "en-US"@, "sha256"@];
            if document.contains_key(seq!["sha256"@]) {
                release.sha256 == Some(document[seq!["sha256"@]])
            } else if document.contains_key(listed) {
                release.sha256 == Some(document[listed])
            } else {
                release.sha256 is None
            }
        },
{
    platform_places(os);
}

/// The signature is fetched from where the description says, under `sig`, and
/// otherwise from beside the download, which it is named after.
pub proof fn signature_lies_where_the_description_says(os: Os, document: JsonStrings)
    ensures
        release_of(os, fields_of(os, document)) matches Ok(release) ==> release.sig_url == Some(
            if document.contains_key(seq!["sig"@]) {
                document[seq!["sig"@]]
            } else {
                release.binary_url + ".asc"@
            },
        ),
{
}

/// The version is the one that the description gives, under `version`; where it
/// gives none, it is not known.
pub proof fn version_is_what_the_description_says(os: Os, document: JsonStrings)
    ensures
        release_of(os, fields_of(os, document)) matches Ok(release) ==> release.version == (
        if document.contains_key(seq!["version"@]) {
            document[seq!["version"@]]
        } else {
            "unknown"@
        }),
{
}

/// Of the strings of a description, each part of the release depends on its own
/// alone: the checksum on the two checksums, and so on.
pub proof fn parts_of_a_release_are_independent(os: Os, f: FieldsView, g: FieldsView)
    requires
        release_of(os, f) is Ok,
        release_of(os, g) is Ok,
    ensures
        f.version == g.version ==> release_of(os, f)->Ok_0.version == release_of(
            os,
            g,
        )->Ok_0.version,
        f.binary == g.binary && f.url == g.url && f.platform_binary == g.platform_binary
            ==> release_of(os, f)->Ok_0.binary_url == release_of(os, g)->Ok_0.binary_url,
        f.sha256 == g.sha256 && f.platform_sha256 == g.platform_sha256 ==> release_of(
            os,
            f,
        )->Ok_0.sha256 == release_of(os, g)->Ok_0.sha256,
        f.sig == g.sig && f.sig is Some ==> release_of(os, f)->Ok_0.sig_url == release_of(
            os,
            g,
        )->Ok_0.sig_url,
{
}

/// A release from strings that are at hand: each string that is there is carried
/// over unchanged, and one at the top goes before one that is listed for the
/// platform.
pub proof fn strings_are_carried_over(os: Os, f: FieldsView)
    ensures
        release_of(os, f) is Ok <==> f.binary is Some || f.url is Some || f.platform_binary is Some,
        release_of(os, f) matches Ok(release) ==> {
            &&& f.binary is Some ==> release.binary_url == f.binary->0
            &&& f.binary is None && f.url is Some ==> release.binary_url == f.url->0
            &&& f.binary is None && f.url is None ==> f.platform_binary == Some(release.binary_url)
            &&& f.sha256 is Some ==> release.sha256 == f.sha256
            &&& f.sha256 is None ==> release.sha256 == f.platform_sha256
            &&& f.sig is Some ==> release.sig_url == f.sig
            &&& f.sig is None ==> release.sig_url == Some(release.binary_url + ".asc"@)
            &&& f.version is Some ==> release.version == f.version->0
            &&& f.version is None ==> release.version == "unknown"@
        },
{
}

/// A description that names no download is refused, with the platform for which
/// one was looked for.
pub proof fn missing_download_is_named(os: Os, f: FieldsView)
    requires
        f.binary is None,
        f.url is None,
        f.platform_binary is None,
    ensures
        release_of(os, f) == Err::<ReleaseView, Seq<char>>(
            "could not find a "@ + (match os {
                Os::MacOs => "macOS"@,
                Os::Windows => "Windows"@,
                Os::Linux => "Linux"@,
                Os::Other => "this platform"@,
            }) + " download URL in the release response"@,
        ),
{
}

/// How long a request may take: the archive is large, the rest is not.
pub proof fn requests_have_their_time()
    ensures
        RELEASE_TIMEOUT_SECS == 20,
        SIGNATURE_TIMEOUT_SECS == 30,
        DOWNLOAD_TIMEOUT_SECS == 600,
{
}

} // verus!
