//! Validation of the built APK before success is reported: the file exists,
//! is a sound ZIP archive, holds `AndroidManifest.xml` and a `classes*.dex`,
//! and carries a native library for every requested ABI. It never relies on
//! `aapt2`, whose own version and architecture have been a separate source
//! of failures; an APK is a plain ZIP archive and is read as one.

use crate::text::{
    copy_range, ends_with, first_index_of, first_where, from_chars, has_prefix, has_suffix, index_of,
    lemma_first_where, starts_with, str_eq, to_chars, vec_has,
};
use crate::zip_archive::{
    archive_entry_name, archive_len, open_archive, zip_entry_at, zip_entry_count, zip_open_error,
};
use vstd::prelude::*;
use vstd::string::StringExecFns;

verus! {

/// Why an APK is not accepted.
#[derive(Debug)]
pub enum ValidationError {
    NotFound { path: String },
    Empty { path: String },
    NotAZip { path: String, reason: String },
    MissingEntry { entry: String },
    MissingAbi { abi: String },
}

/// The message an error displays.
pub open spec fn validation_message(e: ValidationError) -> Seq<char> {
    match e {
        ValidationError::NotFound { path } => "APK not found at "@ + path@,
        ValidationError::Empty { path } => "APK at "@ + path@ + " is empty (0 bytes)"@,
        ValidationError::NotAZip { path, reason } => "could not open "@ + path@ + " as a ZIP archive: "@
            + reason@,
        ValidationError::MissingEntry { entry } => "APK is missing required entry: "@ + entry@,
        ValidationError::MissingAbi { abi } => "APK is missing native library for ABI '"@ + abi@
            + "' (expected under lib/"@ + abi@ + "/)"@,
    }
}

impl ValidationError {
    /// The message this error displays.
    pub fn message(&self) -> (r: String)
        ensures
            r@ == validation_message(*self),
    {
        match self {
            ValidationError::NotFound { path } => {
                let mut m = "APK not found at ".to_owned();
                m.append(path.as_str());
                m
            },
            ValidationError::Empty { path } => {
                let mut m = "APK at ".to_owned();
                m.append(path.as_str());
                m.append(" is empty (0 bytes)");
                m
            },
            ValidationError::NotAZip { path, reason } => {
                let mut m = "could not open ".to_owned();
                m.append(path.as_str());
                m.append(" as a ZIP archive: ");
                m.append(reason.as_str());
                m
            },
            ValidationError::MissingEntry { entry } => {
                let mut m = "APK is missing required entry: ".to_owned();
                m.append(entry.as_str());
                m
            },
            ValidationError::MissingAbi { abi } => {
                let mut m = "APK is missing native library for ABI '".to_owned();
                m.append(abi.as_str());
                m.append("' (expected under lib/");
                m.append(abi.as_str());
                m.append("/)");
                m
            },
        }
    }
}

/// What was read from one APK.
#[derive(Debug, Clone)]
pub struct ApkReport {
    pub path: String,
    pub size_bytes: u64,
    pub has_manifest: bool,
    pub has_dex: bool,
    pub abis_present: Vec<String>,
    pub entry_count: usize,
}

/// The names of the first `n` entries, or the first entry error among them.
pub open spec fn entry_names_upto(bytes: Seq<u8>, n: nat) -> Result<Seq<Seq<char>>, Seq<char>>
    decreases n,
{
    if n == 0 {
        Ok(Seq::empty())
    } else {
        match entry_names_upto(bytes, (n - 1) as nat) {
            Err(e) => Err(e),
            Ok(names) => match zip_entry_at(bytes, n - 1) {
                Ok(name) => Ok(names.push(name)),
                Err(e) => Err(e),
            },
        }
    }
}

/// An archive's entry names in central-directory order, or why the archive
/// or one of its entries cannot be read.
pub open spec fn zip_listing(bytes: Seq<u8>) -> Result<Seq<Seq<char>>, Seq<char>> {
    match zip_open_error(bytes) {
        Some(e) => Err(e),
        None => entry_names_upto(bytes, zip_entry_count(bytes)),
    }
}

/// Lists an archive held in memory.
pub fn zip_entry_names(bytes: Vec<u8>) -> (r: Result<Vec<String>, String>)
    ensures
        match r {
            Ok(names) => zip_listing(bytes@) == Ok::<Seq<Seq<char>>, Seq<char>>(names.deep_view()),
            Err(reason) => zip_listing(bytes@) == Err::<Seq<Seq<char>>, Seq<char>>(reason@),
        },
{
    let ghost b = bytes@;
    let mut archive = match open_archive(bytes) {
        Ok(a) => a,
        Err(reason) => return Err(reason),
    };
    let n = archive_len(&archive);
    let mut names: Vec<String> = Vec::new();
    assert(names.deep_view() =~= Seq::<Seq<char>>::empty());
    let mut i: usize = 0;
    while i < n
        invariant
            i <= n,
            archive.source() == b,
            b == bytes@,
            n == zip_entry_count(b),
            zip_open_error(b) is None,
            entry_names_upto(b, i as nat) == Ok::<Seq<Seq<char>>, Seq<char>>(names.deep_view()),
        decreases n - i,
    {
        match archive_entry_name(&mut archive, i) {
            Ok(name) => {
                let ghost before = names.deep_view();
                names.push(name);
                assert(names.deep_view() =~= before.push(zip_entry_at(b, i as int)->Ok_0));
            },
            Err(reason) => {
                assert(entry_names_upto(b, (i + 1) as nat) == Err::<Seq<Seq<char>>, Seq<char>>(
                    reason@,
                ));
                proof {
                    lemma_entry_error_persists(b, (i + 1) as nat, n as nat);
                }
                assert(zip_listing(b) == Err::<Seq<Seq<char>>, Seq<char>>(reason@));
                return Err(reason);
            },
        }
        i = i + 1;
    }
    Ok(names)
}

/// Once an entry fails, every longer listing fails with the same error.
pub proof fn lemma_entry_error_persists(bytes: Seq<u8>, k: nat, n: nat)
    requires
        k <= n,
        entry_names_upto(bytes, k) is Err,
    ensures
        entry_names_upto(bytes, n) == entry_names_upto(bytes, k),
    decreases n - k,
{
    if k < n {
        lemma_entry_error_persists(bytes, k, (n - 1) as nat);
    }
}

/// Whether an entry is a DEX file: `classes.dex`, `classes2.dex`, ...
pub open spec fn is_dex_name(n: Seq<char>) -> bool {
    n == "classes.dex"@ || (starts_with(n, "classes"@) && ends_with(n, ".dex"@))
}

/// The ABI an entry's native library belongs to: an entry
/// `lib/<abi>/<name>.so` is a native library of the folder right under
/// `lib/`; any other entry belongs to no ABI.
pub open spec fn spec_abi_of(n: Seq<char>) -> Option<Seq<char>> {
    if starts_with(n, "lib/"@) && ends_with(n, ".so"@) {
        let rest = n.skip(4);
        let j = first_index_of(rest, '/');
        if j >= 0 {
            Some(rest.take(j))
        } else {
            None
        }
    } else {
        None
    }
}

/// The ABIs with native libraries among the entries, each once, in order
/// of first appearance.
pub open spec fn spec_abis_in(names: Seq<Seq<char>>) -> Seq<Seq<char>>
    decreases names.len(),
{
    if names.len() == 0 {
        Seq::empty()
    } else {
        let a = spec_abis_in(names.drop_last());
        match spec_abi_of(names.last()) {
            Some(x) => if a.contains(x) {
                a
            } else {
                a.push(x)
            },
            None => a,
        }
    }
}

/// ABIs missing from `present`.
pub open spec fn missing_from(present: Seq<Seq<char>>) -> spec_fn(Seq<char>) -> bool {
    |a: Seq<char>| !present.contains(a)
}

/// Whether `r` is the verdict on an archive's entries: the manifest first,
/// then a DEX file, then the first requested ABI without a native library,
/// else a report of what was found.
pub open spec fn is_entries_verdict(
    r: Result<ApkReport, ValidationError>,
    path: Seq<char>,
    size: u64,
    names: Seq<Seq<char>>,
    expected: Seq<Seq<char>>,
) -> bool {
    let present = spec_abis_in(names);
    if !names.contains("AndroidManifest.xml"@) {
        r matches Err(ValidationError::MissingEntry { entry }) && entry@ == "AndroidManifest.xml"@
    } else if !(exists|i: int| 0 <= i < names.len() && is_dex_name(#[trigger] names[i])) {
        r matches Err(ValidationError::MissingEntry { entry }) && entry@ == "classes.dex"@
    } else {
        match first_where(expected, missing_from(present)) {
            Some(a) => r matches Err(ValidationError::MissingAbi { abi }) && abi@ == a,
            None => r matches Ok(rep) && rep.path@ == path && rep.size_bytes == size
                && rep.has_manifest && rep.has_dex && rep.abis_present.deep_view() == present
                && rep.entry_count == names.len(),
        }
    }
}

/// The ABI folder of an entry name, if it is a native library (`.so`).
pub fn abi_of(name: &str) -> (r: Option<String>)
    ensures
        r.deep_view() == spec_abi_of(name@),
{
    let chars = to_chars(name);
    let prefix = to_chars("lib/");
    let suffix = to_chars(".so");
    if !has_prefix(chars.as_slice(), prefix.as_slice()) || !has_suffix(
        chars.as_slice(),
        suffix.as_slice(),
    ) {
        return None;
    }
    proof {
        reveal_strlit("lib/");
    }
    let rest = copy_range(chars.as_slice(), 4, chars.len());
    assert(rest@ =~= name@.skip(4));
    match index_of(rest.as_slice(), '/') {
        Some(j) => {
            let abi = copy_range(rest.as_slice(), 0, j);
            assert(abi@ =~= rest@.take(j as int));
            Some(from_chars(abi.as_slice()))
        },
        None => None,
    }
}

/// Whether an entry name is a DEX file.
pub fn is_dex(name: &str) -> (r: bool)
    ensures
        r == is_dex_name(name@),
{
    if str_eq(name, "classes.dex") {
        return true;
    }
    let chars = to_chars(name);
    let p = to_chars("classes");
    let s = to_chars(".dex");
    has_prefix(chars.as_slice(), p.as_slice()) && has_suffix(chars.as_slice(), s.as_slice())
}

/// The verdict on an archive's entry names.
pub fn check_apk_entries(path: &str, size: u64, names: &Vec<String>, expected_abis: &[&str]) -> (r:
    Result<ApkReport, ValidationError>)
    ensures
        is_entries_verdict(r, path@, size, names.deep_view(), expected_abis.deep_view()),
        r matches Ok(rep) ==> forall|i: int|
            0 <= i < expected_abis@.len() ==> rep.abis_present.deep_view().contains(
                #[trigger] expected_abis.deep_view()[i],
            ),
{
    let ghost ns = names.deep_view();
    let mut has_manifest = false;
    let mut has_dex = false;
    let mut abis_present: Vec<String> = Vec::new();
    let mut i: usize = 0;
    while i < names.len()
        invariant
            i <= names@.len(),
            ns == names.deep_view(),
            has_manifest == ns.take(i as int).contains("AndroidManifest.xml"@),
            has_dex == exists|k: int| 0 <= k < i && is_dex_name(#[trigger] ns[k]),
            abis_present.deep_view() == spec_abis_in(ns.take(i as int)),
        decreases names.len() - i,
    {
        let name = names[i].as_str();
        assert(ns[i as int] == name@);
        let ghost pre = ns.take(i as int);
        assert(ns.take(i + 1) =~= pre.push(name@));
        assert(ns.take(i + 1).drop_last() =~= pre);
        if str_eq(name, "AndroidManifest.xml") {
            has_manifest = true;
            assert(ns.take(i + 1)[i as int] == "AndroidManifest.xml"@);
        } else {
            assert(ns.take(i + 1).contains("AndroidManifest.xml"@) ==> pre.contains(
                "AndroidManifest.xml"@,
            )) by {
                if ns.take(i + 1).contains("AndroidManifest.xml"@) {
                    let t = ns.take(i + 1);
                    let k = choose|k: int| 0 <= k < t.len() && #[trigger] t[k] == "AndroidManifest.xml"@;
                    assert(k < i);
                    assert(pre[k] == "AndroidManifest.xml"@);
                }
            }
            assert(pre.contains("AndroidManifest.xml"@) ==> ns.take(i + 1).contains(
                "AndroidManifest.xml"@,
            )) by {
                if pre.contains("AndroidManifest.xml"@) {
                    let k = choose|k: int| 0 <= k < pre.len() && #[trigger] pre[k] == "AndroidManifest.xml"@;
                    assert(ns.take(i + 1)[k] == "AndroidManifest.xml"@);
                }
            }
        }
        if is_dex(name) {
            has_dex = true;
        }
        match abi_of(name) {
            Some(abi) => {
                if !vec_has(&abis_present, &abi) {
                    let ghost before = abis_present.deep_view();
                    abis_present.push(abi);
                    assert(abis_present.deep_view() =~= before.push(spec_abi_of(name@)->0));
                }
            },
            None => {},
        }
        i = i + 1;
    }
    assert(ns.take(i as int) =~= ns);
    if !has_manifest {
        return Err(ValidationError::MissingEntry { entry: "AndroidManifest.xml".to_owned() });
    }
    if !has_dex {
        return Err(ValidationError::MissingEntry { entry: "classes.dex".to_owned() });
    }
    let ghost present = abis_present.deep_view();
    let ghost exp = expected_abis.deep_view();
    let mut j: usize = 0;
    while j < expected_abis.len()
        invariant
            j <= expected_abis@.len(),
            present == abis_present.deep_view(),
            exp == expected_abis.deep_view(),
            ns == names.deep_view(),
            present == spec_abis_in(ns),
            ns.contains("AndroidManifest.xml"@),
            exists|k: int| 0 <= k < ns.len() && is_dex_name(#[trigger] ns[k]),
            forall|k: int| 0 <= k < j ==> !missing_from(present)(exp[k]),
        decreases expected_abis.len() - j,
    {
        let abi = expected_abis[j].to_owned();
        assert(exp[j as int] == abi@);
        if !vec_has(&abis_present, &abi) {
            proof {
                lemma_first_where(exp, missing_from(present), j as int);
            }
            return Err(ValidationError::MissingAbi { abi });
        }
        j = j + 1;
    }
    proof {
        lemma_first_where(exp, missing_from(present), j as int);
    }
    Ok(
        ApkReport {
            path: path.to_owned(),
            size_bytes: size,
            has_manifest: true,
            has_dex: true,
            abis_present,
            entry_count: names.len(),
        },
    )
}

/// Validates an APK from what reading it gave: its size (`None` when it
/// does not exist) and its bytes (or the error opening it). An empty
/// `expected_abis` skips the ABI check, as for a project without native
/// code.
pub fn validate_apk_contents(
    path: &str,
    size: Option<u64>,
    data: Result<Vec<u8>, String>,
    expected_abis: &[&str],
) -> (r: Result<ApkReport, ValidationError>)
    ensures
        match size {
            None => r matches Err(ValidationError::NotFound { path: p }) && p@ == path@,
            Some(n) => if n == 0 {
                r matches Err(ValidationError::Empty { path: p }) && p@ == path@
            } else {
                match data {
                    Err(reason) => r matches Err(ValidationError::NotAZip { path: p, reason: why })
                        && p@ == path@ && why@ == reason@,
                    Ok(bytes) => match zip_listing(bytes@) {
                        Err(reason) => r matches Err(ValidationError::NotAZip { path: p, reason: why })
                            && p@ == path@ && why@ == reason,
                        Ok(names) => is_entries_verdict(r, path@, n, names, expected_abis.deep_view()),
                    },
                }
            },
        },
{
    let n = match size {
        None => return Err(ValidationError::NotFound { path: path.to_owned() }),
        Some(n) => n,
    };
    if n == 0 {
        return Err(ValidationError::Empty { path: path.to_owned() });
    }
    let bytes = match data {
        Err(reason) => return Err(ValidationError::NotAZip { path: path.to_owned(), reason }),
        Ok(b) => b,
    };
    match zip_entry_names(bytes) {
        Err(reason) => Err(ValidationError::NotAZip { path: path.to_owned(), reason }),
        Ok(names) => check_apk_entries(path, n, &names, expected_abis),
    }
}

/// With no ABI requested the ABI check is skipped: an archive with a
/// manifest and a DEX file is accepted, as for a project without native
/// code. With ABIs requested, acceptance means each of them has a native
/// library.
pub proof fn law_abi_check_only_when_requested(
    r: Result<ApkReport, ValidationError>,
    path: Seq<char>,
    size: u64,
    names: Seq<Seq<char>>,
    expected: Seq<Seq<char>>,
)
    requires
        is_entries_verdict(r, path, size, names, expected),
    ensures
        expected.len() == 0 && names.contains("AndroidManifest.xml"@) && (exists|i: int|
            0 <= i < names.len() && is_dex_name(#[trigger] names[i])) ==> r is Ok,
        r matches Ok(rep) ==> forall|i: int|
            0 <= i < expected.len() ==> rep.abis_present.deep_view().contains(#[trigger] expected[i]),
{
    let present = spec_abis_in(names);
    if r is Ok {
        if names.contains("AndroidManifest.xml"@) && (exists|i: int|
            0 <= i < names.len() && is_dex_name(#[trigger] names[i])) {
            assert forall|i: int| 0 <= i < expected.len() implies present.contains(
                #[trigger] expected[i],
            ) by {
                if !present.contains(expected[i]) {
                    lemma_first_where_some(expected, missing_from(present), i);
                }
            }
        }
    }
}

/// When some element satisfies `p`, `first_where` finds one.
pub proof fn lemma_first_where_some<A>(s: Seq<A>, p: spec_fn(A) -> bool, i: int)
    requires
        0 <= i < s.len(),
        p(s[i]),
    ensures
        first_where(s, p) is Some,
    decreases s.len(),
{
    if !p(s[0]) {
        assert(s.drop_first()[i - 1] == s[i]);
        lemma_first_where_some(s.drop_first(), p, i - 1);
    }
}

} // verus!
