//! The AAPT2 architecture-mismatch patch: `android.aapt2FromMavenOverride`
//! in the project's `gradle.properties`. Despite its name the key takes a
//! direct file path, which is how ARM Termux/proot users point Gradle at a
//! native `aapt2`.

use crate::env_scanner::aapt2::{
    detect_aapt2, is_aapt2_candidate, spec_expected_machine, spec_mismatch_reason,
};
use crate::env_scanner::command::CommandRunner;
use crate::env_scanner::host::EnvProbe;
use crate::text::{
    chars_eq, first_index_of, has_prefix, is_ws, join, join_path, lemma_first_index_of,
    lemma_split_none, lemma_split_step, lines, lines_of, split_char, starts_with, strip_cr,
    to_chars, trim, trim_chars, trim_end, trim_start, trim_start_chars, views,
};
use crate::types::{Aapt2Info, HostArch, HostKind, ToolStatus};
use vstd::prelude::*;
use vstd::string::StringExecFns;

verus! {

/// What `ensure_aapt2_override` did.
#[derive(Debug, Clone, Copy, PartialEq, Eq, Structural)]
pub enum Aapt2PatchOutcome {
    /// The override already named this exact path; nothing was written.
    AlreadyCorrect,
    /// `gradle.properties` was written or updated.
    Patched,
}

/// Why the override could not be ensured.
#[derive(Debug)]
pub enum Aapt2PatchError {
    NoNativeAapt2Available { reason: String },
    WriteFailed { reason: String },
}

/// The message an error displays.
pub open spec fn aapt2_patch_message(e: Aapt2PatchError) -> Seq<char> {
    match e {
        Aapt2PatchError::NoNativeAapt2Available { reason } =>
            "no working native-architecture aapt2 binary found on this host: "@ + reason@,
        Aapt2PatchError::WriteFailed { reason } => "could not write gradle.properties: "@ + reason@,
    }
}

impl Aapt2PatchError {
    /// The message this error displays.
    pub fn message(&self) -> (r: String)
        ensures
            r@ == aapt2_patch_message(*self),
    {
        match self {
            Aapt2PatchError::NoNativeAapt2Available { reason } => {
                let mut m = "no working native-architecture aapt2 binary found on this host: ".to_owned();
                m.append(reason.as_str());
                m
            },
            Aapt2PatchError::WriteFailed { reason } => {
                let mut m = "could not write gradle.properties: ".to_owned();
                m.append(reason.as_str());
                m
            },
        }
    }
}

/// Reads and writes `gradle.properties`, so that the patch can run without
/// a real file. Nothing is assumed of what an implementation does.
pub trait PropertiesWriter: Send + Sync {
    fn read(&self, path: &str) -> Option<String>;

    fn write(&self, path: &str, content: &str) -> Result<(), String>;
}

/// The property key of the override.
pub open spec fn override_key() -> Seq<char> {
    "android.aapt2FromMavenOverride="@
}

/// The property line that points Gradle at `path`.
pub open spec fn desired_line(path: Seq<char>) -> Seq<char> {
    override_key() + path
}

/// Lines that set the override, whatever path they name.
pub open spec fn is_override_line() -> spec_fn(Seq<char>) -> bool {
    |l: Seq<char>| starts_with(trim_start(l), override_key())
}

/// Whether the override is already set to exactly the desired line: the
/// properties hold it (compared trimmed) and no other override line.
pub open spec fn spec_already_correct(existing: Seq<char>, desired: Seq<char>) -> bool {
    &&& exists|i: int| 0 <= i < lines(existing).len() && trim(#[trigger] lines(existing)[i]) == trim(desired)
    &&& forall|i: int|
        0 <= i < lines(existing).len() && is_override_line()(#[trigger] lines(existing)[i]) ==> trim(
            lines(existing)[i],
        ) == trim(desired)
}

/// The lines that do not set the override, in order.
pub open spec fn drop_overrides(ls: Seq<Seq<char>>) -> Seq<Seq<char>>
    decreases ls.len(),
{
    if ls.len() == 0 {
        ls
    } else if is_override_line()(ls.last()) {
        drop_overrides(ls.drop_last())
    } else {
        drop_overrides(ls.drop_last()).push(ls.last())
    }
}

/// Lines joined with `\n` between them.
pub open spec fn join_lines(ls: Seq<Seq<char>>) -> Seq<char>
    decreases ls.len(),
{
    if ls.len() == 0 {
        Seq::empty()
    } else if ls.len() == 1 {
        ls[0]
    } else {
        join_lines(ls.drop_last()) + seq!['\n'] + ls.last()
    }
}

/// The patched properties: every old override line removed, the other
/// lines joined back, a newline added when the text does not end in one,
/// then the desired line and a final newline.
pub open spec fn spec_patched(existing: Seq<char>, desired: Seq<char>) -> Seq<char> {
    let joined = join_lines(drop_overrides(lines(existing)));
    let base = if joined.len() > 0 && joined.last() != '\n' {
        joined.push('\n')
    } else {
        joined
    };
    base + desired + seq!['\n']
}

/// Whether `c` does not occur in `s`.
pub open spec fn free_of(s: Seq<char>, c: char) -> bool {
    forall|k: int| 0 <= k < s.len() ==> s[k] != c
}

/// Splitting around one separator splits the two sides separately.
pub proof fn lemma_split_around(a: Seq<char>, b: Seq<char>, c: char)
    ensures
        split_char(a + seq![c] + b, c) == split_char(a, c) + split_char(b, c),
    decreases a.len(),
{
    let s = a + seq![c] + b;
    lemma_first_index_of(a, c);
    let j = first_index_of(a, c);
    if j < 0 {
        assert forall|k: int| 0 <= k < a.len() implies s[k] != c by {
            assert(s[k] == a[k]);
        }
        assert(s[a.len() as int] == c);
        lemma_split_step(s, c, a.len() as int);
        assert(s.take(a.len() as int) =~= a);
        assert(s.skip(a.len() as int + 1) =~= b);
        lemma_split_none(a, c);
    } else {
        assert forall|k: int| 0 <= k < j implies s[k] != c by {
            assert(s[k] == a[k]);
        }
        assert(s[j] == a[j]);
        lemma_split_step(s, c, j);
        lemma_split_step(a, c, j);
        assert(s.take(j) =~= a.take(j));
        assert(s.skip(j + 1) =~= a.skip(j + 1) + seq![c] + b);
        lemma_split_around(a.skip(j + 1), b, c);
        assert(split_char(s, c) =~= split_char(a, c) + split_char(b, c));
    }
}

/// No piece of a split holds the separator.
pub proof fn lemma_split_pieces_free(s: Seq<char>, c: char)
    ensures
        forall|i: int| 0 <= i < split_char(s, c).len() ==> free_of(#[trigger] split_char(s, c)[i], c),
    decreases s.len(),
{
    lemma_first_index_of(s, c);
    let j = first_index_of(s, c);
    if j >= 0 {
        lemma_split_pieces_free(s.skip(j + 1), c);
        let rest = split_char(s.skip(j + 1), c);
        assert forall|i: int| 0 <= i < split_char(s, c).len() implies free_of(
            #[trigger] split_char(s, c)[i],
            c,
        ) by {
            if i > 0 {
                assert(split_char(s, c)[i] == rest[i - 1]);
            }
        }
    }
}

/// No line holds a newline.
pub proof fn lemma_lines_free(s: Seq<char>)
    ensures
        forall|i: int| 0 <= i < lines(s).len() ==> free_of(#[trigger] lines(s)[i], '\n'),
{
    lemma_split_pieces_free(s, '\n');
    let p = split_char(s, '\n');
    assert forall|i: int| 0 <= i < lines(s).len() implies free_of(#[trigger] lines(s)[i], '\n') by {
        assert(free_of(p[i], '\n'));
        assert(lines(s)[i] == strip_cr(p[i]));
    }
}

/// The kept lines are lines of the input that do not set the override.
pub proof fn lemma_drop_overrides(ls: Seq<Seq<char>>)
    ensures
        forall|i: int| 0 <= i < drop_overrides(ls).len() ==> !is_override_line()(
            #[trigger] drop_overrides(ls)[i],
        ),
        forall|i: int|
            0 <= i < drop_overrides(ls).len() ==> exists|k: int|
                0 <= k < ls.len() && ls[k] == #[trigger] drop_overrides(ls)[i],
    decreases ls.len(),
{
    if ls.len() > 0 {
        lemma_drop_overrides(ls.drop_last());
        let d = drop_overrides(ls.drop_last());
        assert forall|i: int| 0 <= i < drop_overrides(ls).len() implies exists|k: int|
            0 <= k < ls.len() && ls[k] == #[trigger] drop_overrides(ls)[i] by {
            if i < d.len() {
                let k = choose|k: int| 0 <= k < ls.drop_last().len() && ls.drop_last()[k] == d[i];
                assert(ls[k] == drop_overrides(ls)[i]);
            } else {
                assert(ls[ls.len() - 1] == drop_overrides(ls)[i]);
            }
        }
    }
}

/// Splitting joined newline-free lines gives the lines back.
pub proof fn lemma_split_join_lines(ls: Seq<Seq<char>>)
    requires
        ls.len() > 0,
        forall|i: int| 0 <= i < ls.len() ==> free_of(#[trigger] ls[i], '\n'),
    ensures
        split_char(join_lines(ls), '\n') == ls,
    decreases ls.len(),
{
    if ls.len() == 1 {
        assert(free_of(ls[0], '\n'));
        lemma_split_none(ls[0], '\n');
        assert(ls =~= seq![ls[0]]);
    } else {
        let init = ls.drop_last();
        assert forall|i: int| 0 <= i < init.len() implies free_of(#[trigger] init[i], '\n') by {
            assert(init[i] == ls[i]);
        }
        lemma_split_join_lines(init);
        assert(free_of(ls[ls.len() - 1], '\n'));
        lemma_split_none(ls.last(), '\n');
        lemma_split_around(join_lines(init), ls.last(), '\n');
        assert(ls =~= init + seq![ls.last()]);
    }
}

/// The patched text splits into some kept lines, the desired line and a
/// final empty piece.
pub proof fn lemma_patched_pieces(existing: Seq<char>, desired: Seq<char>) -> (kept: Seq<Seq<char>>)
    requires
        free_of(desired, '\n'),
    ensures
        split_char(spec_patched(existing, desired), '\n') == kept + seq![desired, Seq::<char>::empty()],
        forall|i: int| 0 <= i < kept.len() ==> !is_override_line()(#[trigger] kept[i]),
{
    let ls = lines(existing);
    let k = drop_overrides(ls);
    lemma_lines_free(existing);
    lemma_drop_overrides(ls);
    assert forall|i: int| 0 <= i < k.len() implies free_of(#[trigger] k[i], '\n') by {
        let j = choose|j: int| 0 <= j < ls.len() && ls[j] == k[i];
        assert(free_of(ls[j], '\n'));
    }
    let empty = Seq::<char>::empty();
    lemma_split_none(desired, '\n');
    lemma_split_none(empty, '\n');
    lemma_split_around(desired, empty, '\n');
    assert(desired + seq!['\n'] =~= desired + seq!['\n'] + empty);
    let tail = split_char(desired + seq!['\n'], '\n');
    assert(tail =~= seq![desired, empty]);
    let joined = join_lines(k);
    let p = spec_patched(existing, desired);
    if k.len() == 0 {
        assert(joined.len() == 0);
        assert(p =~= desired + seq!['\n']);
        assert(Seq::<Seq<char>>::empty() + tail =~= tail);
        Seq::empty()
    } else {
        lemma_split_join_lines(k);
        if joined.len() > 0 && joined.last() != '\n' {
            assert(p =~= joined + seq!['\n'] + (desired + seq!['\n']));
            lemma_split_around(joined, desired + seq!['\n'], '\n');
            k
        } else if joined.len() == 0 {
            assert(p =~= desired + seq!['\n']);
            assert(Seq::<Seq<char>>::empty() + tail =~= tail);
            Seq::empty()
        } else {
            // The joined text ends in a newline only when the last kept
            // line is empty and another precedes it.
            if k.len() == 1 {
                assert(joined == k[0]);
                assert(free_of(k[0], '\n'));
                assert(joined[joined.len() - 1] == '\n');
                assert(false);
            }
            let init = k.drop_last();
            assert(joined == join_lines(init) + seq!['\n'] + k.last());
            if k.last().len() > 0 {
                assert(free_of(k[k.len() - 1], '\n'));
                assert(joined.last() == k.last().last());
                assert(false);
            }
            assert(joined =~= join_lines(init) + seq!['\n']);
            assert forall|i: int| 0 <= i < init.len() implies free_of(#[trigger] init[i], '\n') by {
                assert(init[i] == k[i]);
            }
            lemma_split_join_lines(init);
            assert(p =~= join_lines(init) + seq!['\n'] + (desired + seq!['\n']));
            lemma_split_around(join_lines(init), desired + seq!['\n'], '\n');
            assert forall|i: int| 0 <= i < init.len() implies !is_override_line()(#[trigger] init[i]) by {
                assert(init[i] == k[i]);
            }
            init
        }
    }
}

/// `trim_start` reaches the first non-whitespace character.
pub proof fn lemma_trim_start_push(s: Seq<char>, ch: char)
    requires
        exists|k: int| 0 <= k < s.len() && !is_ws(s[k]),
    ensures
        trim_start(s.push(ch)) == trim_start(s).push(ch),
    decreases s.len(),
{
    if is_ws(s[0]) {
        let k = choose|k: int| 0 <= k < s.len() && !is_ws(s[k]);
        assert(s.drop_first()[k - 1] == s[k]);
        assert(s.push(ch).drop_first() =~= s.drop_first().push(ch));
        lemma_trim_start_push(s.drop_first(), ch);
    } else {
        assert(s.push(ch)[0] == s[0]);
    }
}

/// Dropping a trailing carriage return never turns a line into an override.
pub proof fn lemma_strip_cr_keeps_non_override(l: Seq<char>)
    requires
        !is_override_line()(l),
    ensures
        !is_override_line()(strip_cr(l)),
{
    reveal_strlit("android.aapt2FromMavenOverride=");
    if l.len() > 0 && l.last() == '\r' {
        let m = l.drop_last();
        assert(l =~= m.push('\r'));
        assert(strip_cr(l) == m);
        if exists|k: int| 0 <= k < m.len() && !is_ws(m[k]) {
            lemma_trim_start_push(m, '\r');
            let t = trim_start(m);
            if starts_with(t, override_key()) {
                assert(t.push('\r').take(override_key().len() as int) =~= t.take(
                    override_key().len() as int,
                ));
            }
        } else {
            lemma_trim_start_all_ws(m);
        }
    }
}

/// A text of whitespace only trims to nothing.
pub proof fn lemma_trim_start_all_ws(s: Seq<char>)
    requires
        forall|k: int| 0 <= k < s.len() ==> is_ws(s[k]),
    ensures
        trim_start(s).len() == 0,
    decreases s.len(),
{
    if s.len() > 0 {
        assert forall|k: int| 0 <= k < s.drop_first().len() implies is_ws(s.drop_first()[k]) by {
            assert(s.drop_first()[k] == s[k + 1]);
        }
        lemma_trim_start_all_ws(s.drop_first());
    }
}

/// The lines of the patched text: the kept lines, then the desired line.
pub proof fn lemma_patched_lines(existing: Seq<char>, desired: Seq<char>) -> (kept: Seq<Seq<char>>)
    requires
        free_of(desired, '\n'),
    ensures
        lines(spec_patched(existing, desired)) == (kept + seq![desired]).map_values(
            |l: Seq<char>| strip_cr(l),
        ),
        forall|i: int| 0 <= i < kept.len() ==> !is_override_line()(#[trigger] kept[i]),
{
    let kept = lemma_patched_pieces(existing, desired);
    let p = split_char(spec_patched(existing, desired), '\n');
    assert(p.last().len() == 0);
    assert(p.drop_last() =~= kept + seq![desired]);
    kept
}

/// Trimming ignores a trailing carriage return after a non-blank start.
pub proof fn lemma_trim_strip_cr(d: Seq<char>)
    requires
        d.len() > 0,
        !is_ws(d[0]),
    ensures
        trim(strip_cr(d)) == trim(d),
{
    if d.last() == '\r' {
        let m = d.drop_last();
        if m.len() > 0 {
            assert(m[0] == d[0]);
        }
        assert(trim_start(d) == d);
        if m.len() > 0 {
            assert(trim_start(m) == m);
        }
        assert(is_ws('\r'));
        assert(trim_end(d) == trim_end(d.drop_last()));
    }
}

/// Patching is idempotent: right after patching, the properties already
/// hold the desired line, so a second run writes nothing. Holds whenever
/// the path has no newline in it.
pub proof fn law_patch_is_idempotent(existing: Seq<char>, path: Seq<char>)
    requires
        free_of(path, '\n'),
    ensures
        spec_already_correct(spec_patched(existing, desired_line(path)), desired_line(path)),
{
    let d = desired_line(path);
    assert(free_of(d, '\n')) by {
        reveal_strlit("android.aapt2FromMavenOverride=");
        assert forall|k: int| 0 <= k < d.len() implies d[k] != '\n' by {
            if k >= override_key().len() {
                assert(d[k] == path[k - override_key().len()]);
            }
        }
    }
    let kept = lemma_patched_lines(existing, d);
    let ls = lines(spec_patched(existing, d));
    let i = kept.len() as int;
    assert(ls[i] == strip_cr(d));
    reveal_strlit("android.aapt2FromMavenOverride=");
    assert(d[0] == 'a');
    assert(!is_ws('a'));
    lemma_trim_strip_cr(d);
    law_patch_leaves_one_override(existing, path);
    assert forall|k: int| 0 <= k < ls.len() && is_override_line()(#[trigger] ls[k]) implies trim(ls[k])
        == trim(d) by {
        if k < ls.len() - 1 {
            assert(!is_override_line()(ls[k]));
        }
    }
}

/// Patching leaves exactly one override line, the desired one: a stale
/// override is replaced, never duplicated. Holds whenever the path has no
/// newline in it.
pub proof fn law_patch_leaves_one_override(existing: Seq<char>, path: Seq<char>)
    requires
        free_of(path, '\n'),
    ensures
        ({
            let ls = lines(spec_patched(existing, desired_line(path)));
            &&& ls.len() > 0
            &&& ls.last() == strip_cr(desired_line(path))
            &&& is_override_line()(ls.last())
            &&& forall|i: int| 0 <= i < ls.len() - 1 ==> !is_override_line()(#[trigger] ls[i])
        }),
{
    let d = desired_line(path);
    reveal_strlit("android.aapt2FromMavenOverride=");
    assert(free_of(d, '\n')) by {
        assert forall|k: int| 0 <= k < d.len() implies d[k] != '\n' by {
            if k >= override_key().len() {
                assert(d[k] == path[k - override_key().len()]);
            }
        }
    }
    let kept = lemma_patched_lines(existing, d);
    let ls = lines(spec_patched(existing, d));
    assert forall|i: int| 0 <= i < ls.len() - 1 implies !is_override_line()(#[trigger] ls[i]) by {
        assert(ls[i] == strip_cr(kept[i]));
        lemma_strip_cr_keeps_non_override(kept[i]);
    }
    let s = strip_cr(d);
    assert(ls.len() == kept.len() + 1);
    assert(ls[kept.len() as int] == s);
    assert(!is_ws(d[0]));
    assert(trim_start(d) == d);
    let n = override_key().len() as int;
    assert(d.take(n) =~= override_key());
    if d.len() > 0 && d.last() == '\r' {
        assert(s == d.drop_last());
        if s.len() > 0 {
            assert(s[0] == d[0]);
        }
        assert(trim_start(s) == s);
        assert(s.take(n) =~= d.take(n));
    }
}

/// The override line for an `aapt2` path.
pub fn override_line(aapt2_path: &str) -> (r: String)
    ensures
        r@ == desired_line(aapt2_path@),
{
    let mut r = "android.aapt2FromMavenOverride=".to_owned();
    r.append(aapt2_path);
    r
}

/// Whether the override is already set to exactly the desired line.
pub fn is_already_correct(existing: &str, desired: &str) -> (r: bool)
    ensures
        r == spec_already_correct(existing@, desired@),
{
    let chars = to_chars(existing);
    let ls = lines_of(chars.as_slice());
    let dchars = to_chars(desired);
    let want = trim_chars(dchars.as_slice());
    let key = to_chars("android.aapt2FromMavenOverride=");
    let mut found = false;
    let mut i: usize = 0;
    while i < ls.len()
        invariant
            i <= ls@.len(),
            views(ls@) == lines(existing@),
            want@ == trim(desired@),
            key@ == override_key(),
            found == exists|k: int| 0 <= k < i && trim(#[trigger] lines(existing@)[k]) == trim(desired@),
            forall|k: int|
                0 <= k < i && is_override_line()(#[trigger] lines(existing@)[k]) ==> trim(
                    lines(existing@)[k],
                ) == trim(desired@),
        decreases ls.len() - i,
    {
        assert(views(ls@)[i as int] == ls@[i as int]@);
        let t = trim_chars(ls[i].as_slice());
        if chars_eq(t.as_slice(), want.as_slice()) {
            assert(trim(lines(existing@)[i as int]) == trim(desired@));
            found = true;
        } else {
            let ts = trim_start_chars(ls[i].as_slice());
            if has_prefix(ts.as_slice(), key.as_slice()) {
                assert(is_override_line()(lines(existing@)[i as int]));
                return false;
            }
        }
        i = i + 1;
    }
    found
}

/// The properties text with every old override line removed and the
/// desired line appended.
pub fn patched_properties(existing: &str, desired: &str) -> (r: String)
    ensures
        r@ == spec_patched(existing@, desired@),
{
    let chars = to_chars(existing);
    let ls = lines_of(chars.as_slice());
    let key = to_chars("android.aapt2FromMavenOverride=");
    let mut kept: Vec<Vec<char>> = Vec::new();
    let mut i: usize = 0;
    while i < ls.len()
        invariant
            i <= ls@.len(),
            views(ls@) == lines(existing@),
            key@ == override_key(),
            views(kept@) == drop_overrides(views(ls@).take(i as int)),
        decreases ls.len() - i,
    {
        let ghost before = views(ls@).take(i as int);
        assert(views(ls@).take(i + 1).drop_last() =~= before);
        assert(views(ls@).take(i + 1).last() == ls@[i as int]@);
        let t = trim_start_chars(ls[i].as_slice());
        if !has_prefix(t.as_slice(), key.as_slice()) {
            let ghost old_kept = views(kept@);
            kept.push(ls[i].clone());
            assert(views(kept@) =~= old_kept.push(ls@[i as int]@));
        }
        i = i + 1;
    }
    assert(views(ls@).take(i as int) =~= views(ls@));
    let mut out: Vec<char> = Vec::new();
    let mut j: usize = 0;
    while j < kept.len()
        invariant
            j <= kept@.len(),
            out@ == join_lines(views(kept@).take(j as int)),
        decreases kept.len() - j,
    {
        let ghost before = views(kept@).take(j as int);
        let ghost after = views(kept@).take(j + 1);
        assert(after.drop_last() =~= before);
        assert(after.last() == kept@[j as int]@);
        if j > 0 {
            out.push('\n');
        }
        let line = &kept[j];
        let mut k: usize = 0;
        let ghost start = out@;
        while k < line.len()
            invariant
                k <= line@.len(),
                out@ == start + line@.take(k as int),
            decreases line.len() - k,
        {
            out.push(line[k]);
            assert(line@.take(k + 1) =~= line@.take(k as int).push(line@[k as int]));
            k = k + 1;
        }
        assert(line@.take(k as int) =~= line@);
        if j == 0 {
            assert(after =~= seq![kept@[0]@]);
            assert(start.len() == 0);
            assert(out@ =~= join_lines(after));
        } else {
            assert(out@ =~= join_lines(after));
        }
        j = j + 1;
    }
    assert(views(kept@).take(j as int) =~= views(kept@));
    if out.len() > 0 && out[out.len() - 1] != '\n' {
        out.push('\n');
    }
    let dchars = to_chars(desired);
    let mut k: usize = 0;
    let ghost base = out@;
    while k < dchars.len()
        invariant
            k <= dchars@.len(),
            out@ == base + dchars@.take(k as int),
        decreases dchars.len() - k,
    {
        out.push(dchars[k]);
        assert(dchars@.take(k + 1) =~= dchars@.take(k as int).push(dchars@[k as int]));
        k = k + 1;
    }
    assert(dchars@.take(k as int) =~= dchars@);
    out.push('\n');
    assert(out@ =~= spec_patched(existing@, desired@));
    crate::text::from_chars(out.as_slice())
}

/// The `aapt2` path to point Gradle at, from its detection status: a found
/// binary's path; otherwise no native binary is available, with the
/// detection's reason or a not-found note.
pub open spec fn spec_override_target(status: ToolStatus<Aapt2Info>) -> Result<Seq<char>, Seq<char>> {
    match status {
        ToolStatus::Found { path, .. } => Ok(path@),
        ToolStatus::FoundButIncompatible { reason, .. } => Err(reason@),
        _ => Err("aapt2 not found anywhere on this host"@),
    }
}

/// The `aapt2` path from its detection status, or the error to report.
pub fn override_target(status: ToolStatus<Aapt2Info>) -> (r: Result<String, Aapt2PatchError>)
    ensures
        match spec_override_target(status) {
            Ok(p) => r matches Ok(q) && q@ == p,
            Err(why) => r matches Err(Aapt2PatchError::NoNativeAapt2Available { reason }) && reason@
                == why,
        },
{
    match status {
        ToolStatus::Found { path, .. } => Ok(path),
        ToolStatus::FoundButIncompatible { reason, .. } => Err(
            Aapt2PatchError::NoNativeAapt2Available { reason },
        ),
        _ => Err(
            Aapt2PatchError::NoNativeAapt2Available {
                reason: "aapt2 not found anywhere on this host".to_owned(),
            },
        ),
    }
}

/// What the override step writes for an `aapt2` path, given the current
/// properties text: nothing when it already holds the desired line,
/// otherwise the patched text.
pub open spec fn spec_override_plan(existing: Seq<char>, path: Seq<char>) -> Option<Seq<char>> {
    if spec_already_correct(existing, desired_line(path)) {
        None
    } else {
        Some(spec_patched(existing, desired_line(path)))
    }
}

/// `props` answered `content` when asked to read `path`.
pub open spec fn props_read<W: PropertiesWriter>(props: &W, path: Seq<char>, content: Option<Seq<char>>) -> bool {
    exists|p: &str, o: Option<String>|
        p@ == path && o.deep_view() == content && #[trigger] call_ensures(W::read, (props, p), o)
}

/// `props` answered `w` when asked to write `content` to `path`.
pub open spec fn props_wrote<W: PropertiesWriter>(
    props: &W,
    path: Seq<char>,
    content: Seq<char>,
    w: Result<(), String>,
) -> bool {
    exists|p: &str, c: &str|
        p@ == path && c@ == content && #[trigger] call_ensures(W::write, (props, p, c), w)
}

/// The override step for a found `aapt2` path: `gradle.properties` under
/// `root` was read (a missing file reads as empty); when the plan writes
/// nothing the outcome is `AlreadyCorrect`, otherwise the planned text was
/// written and the outcome follows the write's answer.
pub open spec fn override_applied<W: PropertiesWriter>(
    props: &W,
    root: Seq<char>,
    path: Seq<char>,
    r: Result<Aapt2PatchOutcome, Aapt2PatchError>,
) -> bool {
    exists|existing: Option<Seq<char>>|
        #[trigger] props_read(props, join(root, "gradle.properties"@), existing) && {
            let text = match existing {
                Some(t) => t,
                None => Seq::<char>::empty(),
            };
            match spec_override_plan(text, path) {
                None => r == Ok::<Aapt2PatchOutcome, Aapt2PatchError>(
                    Aapt2PatchOutcome::AlreadyCorrect,
                ),
                Some(content) => write_outcome(props, root, content, r),
            }
        }
}

/// `content` was written to `gradle.properties` under `root`, and the
/// outcome follows the write's answer.
pub open spec fn write_outcome<W: PropertiesWriter>(
    props: &W,
    root: Seq<char>,
    content: Seq<char>,
    r: Result<Aapt2PatchOutcome, Aapt2PatchError>,
) -> bool {
    exists|w: Result<(), String>|
        #[trigger] props_wrote(props, join(root, "gradle.properties"@), content, w) && match w {
            Ok(_) => r == Ok::<Aapt2PatchOutcome, Aapt2PatchError>(Aapt2PatchOutcome::Patched),
            Err(e) => r matches Err(Aapt2PatchError::WriteFailed { reason }) && reason@ == e@,
        }
}

/// Idempotently makes `gradle.properties` point at a valid `aapt2` of the
/// host's architecture. Without such a binary anywhere on the host it
/// fails clearly and never writes an invalid or guessed path.
pub fn ensure_aapt2_override<P: EnvProbe, R: CommandRunner, W: PropertiesWriter>(
    probe: &P,
    runner: &R,
    props: &W,
    host_kind: &HostKind,
    host_arch: &HostArch,
    gradle_project_root: &str,
) -> (r: Result<Aapt2PatchOutcome, Aapt2PatchError>)
    ensures
        exists|status: ToolStatus<Aapt2Info>|
            #[trigger] call_ensures(
                detect_aapt2::<P, R>,
                (probe, runner, host_kind, host_arch),
                status,
            ) && match spec_override_target(status) {
                Err(why) => r matches Err(Aapt2PatchError::NoNativeAapt2Available { reason })
                    && reason@ == why,
                Ok(path) => is_aapt2_candidate(path) && override_applied(
                    props,
                    gradle_project_root@,
                    path,
                    r,
                ),
            },
        r matches Err(Aapt2PatchError::NoNativeAapt2Available { reason }) ==> (reason@
            == "aapt2 not found anywhere on this host"@ || exists|m: u16|
            Some(m) != spec_expected_machine(*host_arch) && reason@ == #[trigger] spec_mismatch_reason(
                m,
                spec_expected_machine(*host_arch),
            )),
{
    let status = detect_aapt2(probe, runner, host_kind, host_arch);
    let ghost st = status;
    assert(call_ensures(detect_aapt2::<P, R>, (probe, runner, host_kind, host_arch), st));
    let aapt2_path = match override_target(status) {
        Ok(p) => p,
        Err(e) => return Err(e),
    };
    assert(is_aapt2_candidate(aapt2_path@));
    let ghost ap = aapt2_path@;
    let props_path = join_path(gradle_project_root, "gradle.properties");
    let pp = props_path.as_str();
    let desired = override_line(aapt2_path.as_str());
    let read = props.read(pp);
    assert(call_ensures(W::read, (props, pp), read));
    let ghost rd = read.deep_view();
    assert(props_read(props, join(gradle_project_root@, "gradle.properties"@), rd));
    let existing = match read {
        Some(c) => c,
        None => String::new(),
    };
    let ghost text = existing@;
    if is_already_correct(existing.as_str(), desired.as_str()) {
        let r = Ok(Aapt2PatchOutcome::AlreadyCorrect);
        assert(override_applied(props, gradle_project_root@, ap, r));
        return r;
    }
    assert(spec_override_plan(text, ap) == Some(spec_patched(text, desired_line(ap))));
    let new_content = patched_properties(existing.as_str(), desired.as_str());
    let nc = new_content.as_str();
    let w = props.write(pp, nc);
    assert(call_ensures(W::write, (props, pp, nc), w));
    assert(props_wrote(props, join(gradle_project_root@, "gradle.properties"@), spec_patched(text, desired_line(ap)), w));
    let r = match w {
        Ok(()) => Ok(Aapt2PatchOutcome::Patched),
        Err(reason) => Err(Aapt2PatchError::WriteFailed { reason }),
    };
    assert(write_outcome(props, gradle_project_root@, spec_patched(text, desired_line(ap)), r));
    assert(override_applied(props, gradle_project_root@, ap, r));
    r
}

/// Running the override step again right after it patched changes nothing:
/// once the patched text is what the properties hold, the plan for the same
/// path writes nothing, so the override is written at most once. Holds
/// whenever the path has no newline in it.
pub proof fn law_rerun_after_patch_writes_nothing(existing: Seq<char>, path: Seq<char>)
    requires
        free_of(path, '\n'),
    ensures
        spec_override_plan(existing, path) matches Some(content) ==> spec_override_plan(
            content,
            path,
        ) is None,
{
    law_patch_is_idempotent(existing, path);
}

} // verus!
