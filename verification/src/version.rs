use vstd::prelude::*;

use crate::errors::PipelineError;

verus! {

// ---------------------------------------------------------------------------
// The filename grammar of the managed binary.
//
// A locally installed downloader binary is named `downloader-<version>`,
// where `<version>` is a non-empty run of digits and dots. The name is a
// pure function of the version, and the version can be read back off the
// name; everything the version manager decides goes through this grammar.
// ---------------------------------------------------------------------------

/// The fixed prefix of every managed binary filename.
pub open spec fn binary_prefix() -> Seq<char> {
    "downloader-"@
}

/// Characters allowed in a version tag as it appears in a filename:
/// a digit or a dot.
pub open spec fn is_version_char(c: char) -> bool {
    c as u32 == 46 || (48 <= c as u32 && c as u32 <= 57)
}

/// A version as embedded in a filename: non-empty, digits and dots only.
pub open spec fn is_version_seq(v: Seq<char>) -> bool {
    v.len() > 0 && forall|i: int| 0 <= i < v.len() ==> is_version_char(v[i])
}

/// The filename derived from a version tag.
pub open spec fn spec_filename(v: Seq<char>) -> Seq<char> {
    binary_prefix() + v
}

/// The version embedded in a filename, if the name follows the binary
/// naming pattern: the fixed prefix followed by a non-empty version.
pub open spec fn parse_binary_name(name: Seq<char>) -> Option<Seq<char>> {
    if name.len() > binary_prefix().len() && name.subrange(0, binary_prefix().len() as int)
        == binary_prefix() && is_version_seq(name.skip(binary_prefix().len() as int)) {
        Some(name.skip(binary_prefix().len() as int))
    } else {
        None
    }
}

/// Relies on `String::push_str`: appends the slice's characters to the
/// end of the string.
#[verifier::external_body]
fn append_str(s: &mut String, suffix: &str)
    ensures
        final(s)@ == old(s)@ + suffix@,
{
    s.push_str(suffix);
}

/// Derives the local filename for a binary of the given version.
pub fn generate_filename(version: &str) -> (r: String)
    ensures
        r@ == spec_filename(version@),
{
    let mut s: String = "downloader-".to_owned();
    append_str(&mut s, version);
    s
}

/// The filename under which a binary of the given version is installed
/// locally; the same derivation as [`generate_filename`].
pub fn get_local_filename(version: &str) -> (r: String)
    ensures
        r@ == spec_filename(version@),
{
    generate_filename(version)
}

/// Law: deriving a filename from a version is a pure and injective
/// encoding — two versions yield the same filename exactly when the
/// versions are equal.
pub proof fn lemma_filename_injective(v1: Seq<char>, v2: Seq<char>)
    ensures
        (spec_filename(v1) == spec_filename(v2)) <==> (v1 == v2),
{
    if spec_filename(v1) == spec_filename(v2) {
        assert(spec_filename(v1).len() == binary_prefix().len() + v1.len());
        assert(spec_filename(v2).len() == binary_prefix().len() + v2.len());
        assert forall|i: int| 0 <= i < v1.len() implies v1[i] == v2[i] by {
            assert(spec_filename(v1)[binary_prefix().len() + i] == v1[i]);
            assert(spec_filename(v2)[binary_prefix().len() + i] == v2[i]);
        }
        assert(v1 =~= v2);
    }
}

/// Law: the version written into a filename is read back unchanged; a
/// derived name parses exactly when the version fits the grammar.
pub proof fn lemma_filename_roundtrip(v: Seq<char>)
    ensures
        parse_binary_name(spec_filename(v)) == if is_version_seq(v) {
            Some(v)
        } else {
            None::<Seq<char>>
        },
{
    let name = spec_filename(v);
    assert(name.len() == binary_prefix().len() + v.len());
    if v.len() > 0 {
        assert(name.subrange(0, binary_prefix().len() as int) =~= binary_prefix());
        assert(name.skip(binary_prefix().len() as int) =~= v);
    }
}

/// Reads the version out of a filename that follows the binary naming
/// pattern; `None` for any other name.
pub fn parse_binary_filename(name: &str) -> (r: Option<String>)
    ensures
        match r {
            Some(v) => parse_binary_name(name@) == Some(v@),
            None => parse_binary_name(name@) is None,
        },
{
    let prefix: &str = "downloader-";
    let plen: usize = prefix.unicode_len();
    let nlen: usize = name.unicode_len();
    if nlen <= plen {
        return None;
    }
    let mut i: usize = 0;
    while i < plen
        invariant
            0 <= i <= plen,
            plen == binary_prefix().len(),
            nlen == name@.len(),
            plen < nlen,
            prefix@ == binary_prefix(),
            forall|j: int| 0 <= j < i ==> name@[j] == binary_prefix()[j],
        decreases plen - i,
    {
        if name.get_char(i) != prefix.get_char(i) {
            proof {
                let sub = name@.subrange(0, plen as int);
                assert(sub[i as int] == name@[i as int]);
            }
            return None;
        }
        i += 1;
    }
    proof {
        assert(name@.subrange(0, plen as int) =~= binary_prefix());
    }
    let mut k: usize = plen;
    while k < nlen
        invariant
            plen <= k <= nlen,
            plen == binary_prefix().len(),
            nlen == name@.len(),
            plen < nlen,
            name@.subrange(0, plen as int) == binary_prefix(),
            forall|j: int| plen <= j < k ==> is_version_char(name@[j]),
        decreases nlen - k,
    {
        let u: u32 = name.get_char(k) as u32;
        if !(u == 46 || (48 <= u && u <= 57)) {
            proof {
                let tail = name@.skip(plen as int);
                assert(tail[k - plen] == name@[k as int]);
            }
            return None;
        }
        k += 1;
    }
    let version = name.substring_char(plen, nlen).to_owned();
    proof {
        let tail = name@.skip(plen as int);
        assert(version@ =~= tail);
        assert forall|j: int| 0 <= j < tail.len() implies is_version_char(tail[j]) by {
            assert(tail[j] == name@[j + plen]);
        }
    }
    Some(version)
}

/// Whether a filename follows the binary naming pattern.
pub fn is_binary_filename(name: &str) -> (r: bool)
    ensures
        r == (parse_binary_name(name@) is Some),
{
    parse_binary_filename(name).is_some()
}

// ---------------------------------------------------------------------------
// Local version discovery over a directory listing.
// ---------------------------------------------------------------------------

/// The locally installed version: the version embedded in the first listed
/// filename that follows the binary naming pattern.
pub open spec fn spec_find_version(files: Seq<Seq<char>>) -> Option<Seq<char>>
    decreases files.len(),
{
    if files.len() == 0 {
        None
    } else {
        match parse_binary_name(files[0]) {
            Some(v) => Some(v),
            None => spec_find_version(files.drop_first()),
        }
    }
}

/// Scans a directory listing for an installed binary and extracts its
/// embedded version; `None` when no filename matches the pattern.
pub fn find_local_version(files: &Vec<String>) -> (r: Option<String>)
    ensures
        match r {
            Some(v) => spec_find_version(files.deep_view()) == Some(v@),
            None => spec_find_version(files.deep_view()) is None,
        },
{
    let ghost dv = files.deep_view();
    proof {
        assert(dv.skip(0) =~= dv);
    }
    let mut i: usize = 0;
    while i < files.len()
        invariant
            0 <= i <= files.len(),
            dv == files.deep_view(),
            dv.len() == files@.len(),
            spec_find_version(dv) == spec_find_version(dv.skip(i as int)),
        decreases files.len() - i,
    {
        let candidate = parse_binary_filename(files[i].as_str());
        proof {
            assert(dv.skip(i as int)[0] == dv[i as int]);
        }
        if let Some(v) = candidate {
            return Some(v);
        }
        proof {
            assert(dv.skip(i as int).drop_first() =~= dv.skip(i as int + 1));
        }
        i += 1;
    }
    proof {
        assert(dv.skip(i as int).len() == 0);
    }
    None
}

// ---------------------------------------------------------------------------
// Stale binary selection after a confirmed download.
// ---------------------------------------------------------------------------

/// The listed filenames that follow the binary naming pattern but are not
/// the file to keep, in listing order: exactly the binaries superseded by
/// a freshly confirmed download.
pub open spec fn spec_stale(files: Seq<Seq<char>>, keep: Seq<char>) -> Seq<Seq<char>>
    decreases files.len(),
{
    if files.len() == 0 {
        Seq::empty()
    } else {
        spec_stale(files.drop_last(), keep) + if parse_binary_name(files.last()) is Some
            && files.last() != keep {
            seq![files.last()]
        } else {
            Seq::empty()
        }
    }
}

/// Selects the superseded binaries out of a directory listing: every file
/// matching the binary naming pattern except the one to keep.
pub fn select_stale_binaries(files: &Vec<String>, keep: &String) -> (r: Vec<String>)
    ensures
        r.deep_view() == spec_stale(files.deep_view(), keep@),
{
    let ghost dv = files.deep_view();
    let mut out: Vec<String> = Vec::new();
    let mut i: usize = 0;
    while i < files.len()
        invariant
            0 <= i <= files.len(),
            dv == files.deep_view(),
            dv.len() == files@.len(),
            out.deep_view() == spec_stale(dv.take(i as int), keep@),
        decreases files.len() - i,
    {
        proof {
            assert(dv.take(i as int + 1).drop_last() =~= dv.take(i as int));
            assert(dv.take(i as int + 1).last() == dv[i as int]);
        }
        let name = &files[i];
        proof {
            assert(dv[i as int] == name@);
        }
        if is_binary_filename(name.as_str()) && !(*name == *keep) {
            let ghost pre = out.deep_view();
            out.push(name.clone());
            proof {
                assert(out.deep_view() =~= pre.push(dv[i as int]));
                assert(spec_stale(dv.take(i as int + 1), keep@) =~= pre.push(dv[i as int]));
            }
        } else {
            proof {
                assert(spec_stale(dv.take(i as int + 1), keep@) =~= out.deep_view());
            }
        }
        i += 1;
    }
    proof {
        assert(dv.take(i as int) =~= dv);
    }
    out
}

/// Law: a filename is selected as stale exactly when it is listed, follows
/// the binary naming pattern, and is not the file to keep — so after the
/// selected files are removed, the kept binary is the only one left.
pub proof fn lemma_stale_selects(files: Seq<Seq<char>>, keep: Seq<char>)
    ensures
        forall|f: Seq<char>|
            #![trigger spec_stale(files, keep).contains(f)]
            #![trigger files.contains(f)]
            spec_stale(files, keep).contains(f) <==> (files.contains(f) && parse_binary_name(f)
                is Some && f != keep),
    decreases files.len(),
{
    if files.len() > 0 {
        let dl = files.drop_last();
        let last = files.last();
        lemma_stale_selects(dl, keep);
        let tail: Seq<Seq<char>> = if parse_binary_name(last) is Some && last != keep {
            seq![last]
        } else {
            Seq::empty()
        };
        assert(spec_stale(files, keep) == spec_stale(dl, keep) + tail);
        assert forall|f: Seq<char>| spec_stale(files, keep).contains(f) implies (files.contains(f)
            && parse_binary_name(f) is Some && f != keep) by {
            let j = choose|j: int|
                0 <= j < spec_stale(files, keep).len() && spec_stale(files, keep)[j] == f;
            if j < spec_stale(dl, keep).len() {
                assert(spec_stale(dl, keep)[j] == f);
                assert(spec_stale(dl, keep).contains(f));
                let m = choose|m: int| 0 <= m < dl.len() && dl[m] == f;
                assert(files[m] == f);
                assert(files.contains(f));
            } else {
                assert(tail[j - spec_stale(dl, keep).len()] == f);
                assert(f == last);
                assert(files[files.len() - 1] == f);
                assert(files.contains(f));
            }
        }
        assert forall|f: Seq<char>| (files.contains(f) && parse_binary_name(f) is Some && f != keep)
            implies spec_stale(files, keep).contains(f) by {
            let m = choose|m: int| 0 <= m < files.len() && files[m] == f;
            if m < files.len() - 1 {
                assert(dl[m] == f);
                assert(dl.contains(f));
                let j = choose|j: int|
                    0 <= j < spec_stale(dl, keep).len() && spec_stale(dl, keep)[j] == f;
                assert(spec_stale(files, keep)[j] == f);
            } else {
                assert(f == last);
                assert(spec_stale(files, keep)[spec_stale(dl, keep).len() as int] == f);
            }
            assert(spec_stale(files, keep).contains(f));
        }
    }
}

// ---------------------------------------------------------------------------
// Remote version extraction from the release feed body.
// ---------------------------------------------------------------------------

/// Whether a text is a well-formed JSON document.
pub uninterp spec fn json_parses(s: Seq<char>) -> bool;

/// The string value a JSON document holds under a top-level key, if any.
pub uninterp spec fn json_string_field_of(s: Seq<char>, key: Seq<char>) -> Option<Seq<char>>;

/// Relies on `serde_json::from_str::<Value>`, `Value::get` and
/// `Value::as_str`: whether a text parses as JSON, and which string its
/// top-level object holds under a key, are functions of the text and the
/// key alone. The outer `Option` is the parse outcome, the inner one the
/// field lookup.
#[verifier::external_body]
fn json_string_field(body: &str, key: &str) -> (r: Option<Option<String>>)
    ensures
        (r is Some) == json_parses(body@),
        match r {
            Some(Some(v)) => json_string_field_of(body@, key@) == Some(v@),
            Some(None) => json_string_field_of(body@, key@) is None,
            None => true,
        },
{
    match serde_json::from_str::<serde_json::Value>(body) {
        Ok(doc) => Some(doc.get(key).and_then(|t| t.as_str()).map(|s| s.to_string())),
        Err(_) => None,
    }
}

/// The version tag a release feed body announces: its `tag_name` string
/// field; none when the body is not well-formed JSON or the document holds
/// no string under that key.
pub open spec fn spec_remote_tag(body: Seq<char>) -> Option<Seq<char>> {
    if json_parses(body) {
        json_string_field_of(body, "tag_name"@)
    } else {
        None
    }
}

/// Extracts the latest version tag from the body of the release feed.
/// A body that is not well-formed JSON, or a document without a string
/// `tag_name`, is a check failure.
pub fn get_remote_version(body: &str) -> (r: Result<String, PipelineError>)
    ensures
        (r is Ok) == (spec_remote_tag(body@) is Some),
        match r {
            Ok(v) => spec_remote_tag(body@) == Some(v@),
            Err(e) => e == PipelineError::UpdateCheck,
        },
{
    match json_string_field(body, "tag_name") {
        Some(Some(v)) => Ok(v),
        Some(None) => Err(PipelineError::UpdateCheck),
        None => Err(PipelineError::UpdateCheck),
    }
}

} // verus!
