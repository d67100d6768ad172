//! Pasted paths, network-share volumes and the folder picker's answer.

use vstd::prelude::*;

use crate::config::{opt_chars, texts};
use crate::text::{
    before_first, chars_of, contains, contains_exec, find_char_from, find_exec, first_match,
    is_space, lemma_first_match, push_all, push_str_chars, slice_chars, spells, starts_with,
    starts_with_exec, string_from_chars, trim, trim_exec,
};

verus! {

/// `s` without an enclosing `open` ... `close` pair, trimmed again; `s`
/// itself where it is not so enclosed.
pub open spec fn strip_enclosing(s: Seq<char>, open: char, close: char) -> Seq<char> {
    if s.len() > 0 && s[0] == open && s.last() == close {
        trim(s.subrange(1, s.len() - 1))
    } else {
        s
    }
}

/// Stripping `open` ... `close` from `s` is defined: `s` is not the single
/// character that both opens and closes (whose inner slice would be reversed).
pub open spec fn strip_defined(s: Seq<char>, open: char, close: char) -> bool {
    !(s.len() == 1 && s[0] == open && s[0] == close)
}

/// `s` with each escaped space `\ ` replaced by a space, left to right.
pub open spec fn unescape_spaces(s: Seq<char>) -> Seq<char>
    decreases s.len(),
{
    if s.len() == 0 {
        s
    } else if s.len() >= 2 && s[0] == '\\' && s[1] == ' ' {
        seq![' '] + unescape_spaces(s.skip(2))
    } else {
        seq![s[0]] + unescape_spaces(s.drop_first())
    }
}

/// The pasted path after trimming and removing enclosing brackets.
pub open spec fn unbracketed(raw: Seq<char>) -> Seq<char> {
    strip_enclosing(trim(raw), '[', ']')
}

/// ... and enclosing double quotes.
pub open spec fn unquoted(raw: Seq<char>) -> Seq<char> {
    strip_enclosing(unbracketed(raw), '"', '"')
}

/// ... and enclosing single quotes.
pub open spec fn unapostrophed(raw: Seq<char>) -> Seq<char> {
    strip_enclosing(unquoted(raw), '\'', '\'')
}

/// A pasted path, cleaned: trimmed, with enclosing brackets, double quotes and
/// single quotes removed in that order (each followed by another trim), and
/// escaped spaces unescaped.
pub open spec fn normalized_path(raw: Seq<char>) -> Seq<char> {
    unescape_spaces(unapostrophed(raw))
}

/// `raw` can be cleaned: no stage leaves a lone `"` or `'` to strip.
pub open spec fn normalize_path_defined(raw: Seq<char>) -> bool {
    strip_defined(unbracketed(raw), '"', '"') && strip_defined(unquoted(raw), '\'', '\'')
}

/// `v` without an enclosing `open` ... `close` pair, trimmed again.
fn strip_enclosing_exec(v: Vec<char>, open: char, close: char) -> (r: Vec<char>)
    requires
        strip_defined(v@, open, close),
    ensures
        r@ == strip_enclosing(v@, open, close),
{
    let n = v.len();
    if n > 0 && v[0] == open && v[n - 1] == close {
        let inner = slice_chars(&v, 1, n - 1);
        trim_exec(&inner)
    } else {
        v
    }
}

/// `v` with each escaped space `\ ` replaced by a space.
fn unescape_spaces_exec(v: &Vec<char>) -> (r: Vec<char>)
    ensures
        r@ == unescape_spaces(v@),
{
    let mut out: Vec<char> = Vec::new();
    let mut i: usize = 0;
    assert(v@.skip(0) =~= v@);
    while i < v.len()
        invariant
            i <= v.len(),
            out@ + unescape_spaces(v@.skip(i as int)) == unescape_spaces(v@),
        decreases v.len() - i,
    {
        let ghost t = v@.skip(i as int);
        if i + 1 < v.len() && v[i] == '\\' && v[i + 1] == ' ' {
            out.push(' ');
            assert(t.skip(2) =~= v@.skip(i + 2));
            assert(out@ + unescape_spaces(v@.skip(i + 2)) =~= (out@.drop_last() + seq![' '])
                + unescape_spaces(t.skip(2)));
            i = i + 2;
        } else {
            out.push(v[i]);
            assert(t.drop_first() =~= v@.skip(i + 1));
            assert(out@ + unescape_spaces(v@.skip(i + 1)) =~= (out@.drop_last() + seq![t[0]])
                + unescape_spaces(t.drop_first()));
            i = i + 1;
        }
    }
    assert(v@.skip(i as int) =~= Seq::<char>::empty());
    assert(out@ + Seq::<char>::empty() =~= out@);
    out
}

/// Whether `raw` can be cleaned by `normalize_path` (it panics otherwise).
pub fn can_normalize_path(raw: &str) -> (r: bool)
    ensures
        r == normalize_path_defined(raw@),
{
    let t = trim_exec(&chars_of(raw));
    if t.len() == 1 && t[0] == '"' {
        return false;
    }
    let s1 = strip_enclosing_exec(t, '[', ']');
    if s1.len() == 1 && s1[0] == '"' {
        return false;
    }
    let s2 = strip_enclosing_exec(s1, '"', '"');
    !(s2.len() == 1 && s2[0] == '\'')
}

/// Cleans a pasted directory path: trims it, removes enclosing brackets,
/// double quotes and single quotes (trimming after each), and unescapes
/// escaped spaces.
pub fn normalize_path(raw: &str) -> (r: String)
    requires
        normalize_path_defined(raw@),
    ensures
        r@ == normalized_path(raw@),
{
    let t = trim_exec(&chars_of(raw));
    let s1 = strip_enclosing_exec(t, '[', ']');
    let s2 = strip_enclosing_exec(s1, '"', '"');
    let s3 = strip_enclosing_exec(s2, '\'', '\'');
    string_from_chars(&unescape_spaces_exec(&s3))
}

} // verus!

verus! {

/// Unescaping changes nothing in a text without an escaped space.
proof fn lemma_unescape_identity(s: Seq<char>)
    requires
        !contains(s, seq!['\\', ' ']),
    ensures
        unescape_spaces(s) == s,
    decreases s.len(),
{
    if s.len() > 0 {
        if s.len() >= 2 && s[0] == '\\' && s[1] == ' ' {
            assert(s.subrange(0, 2) =~= seq!['\\', ' ']);
            assert(crate::text::matches_at(s, seq!['\\', ' '], 0));
        }
        let t = s.drop_first();
        assert forall|i: int| !crate::text::matches_at(t, seq!['\\', ' '], i) by {
            if crate::text::matches_at(t, seq!['\\', ' '], i) {
                assert(s.subrange(i + 1, i + 3) =~= t.subrange(i, i + 2));
                assert(crate::text::matches_at(s, seq!['\\', ' '], i + 1));
            }
        }
        lemma_unescape_identity(t);
        assert(seq![s[0]] + t =~= s);
    }
}

/// A pasted path that needs no cleaning is left as it is: one that neither
/// begins nor ends with white space, does not begin with a bracket or a
/// quote, and holds no escaped space.
pub proof fn normalize_path_keeps_clean_paths(raw: Seq<char>)
    requires
        raw.len() > 0 ==> !is_space(raw[0]) && !is_space(raw.last()) && raw[0] != '['
            && raw[0] != '"' && raw[0] != '\'',
        !contains(raw, seq!['\\', ' ']),
    ensures
        normalize_path_defined(raw),
        normalized_path(raw) == raw,
{
    assert(crate::text::trim_start(raw) == raw);
    assert(crate::text::trim_end(raw) == raw);
    lemma_unescape_identity(raw);
}

} // verus!

verus! {

/// A segment between slashes, kept unless it is empty or `.`.
pub open spec fn kept_segment(seg: Seq<char>) -> Seq<Seq<char>> {
    if seg.len() > 0 && seg != seq!['.'] {
        seq![seg]
    } else {
        seq![]
    }
}

/// The segments of `s` after the pending characters `cur`, split at `/`,
/// empty segments and `.` left out.
pub open spec fn segments_after(s: Seq<char>, cur: Seq<char>) -> Seq<Seq<char>>
    decreases s.len(),
{
    if s.len() == 0 {
        kept_segment(cur)
    } else if s[0] == '/' {
        kept_segment(cur) + segments_after(s.drop_first(), seq![])
    } else {
        segments_after(s.drop_first(), cur.push(s[0]))
    }
}

/// The component that a path begins with before its segments: the root `/`
/// for an absolute path, `.` for one that begins with `./` or is `.`.
pub open spec fn leading_component(p: Seq<char>) -> Seq<Seq<char>> {
    if p.len() > 0 && p[0] == '/' {
        seq![seq!['/']]
    } else if p.len() > 0 && p[0] == '.' && (p.len() == 1 || p[1] == '/') {
        seq![seq!['.']]
    } else {
        seq![]
    }
}

/// The components of a Unix path as `std::path::Path::components` yields
/// them, each by its text: the root `/` or a leading `.`, then the segments
/// between slashes, repeated slashes, a trailing slash and inner `.`
/// segments left out (`..` is kept).
pub open spec fn path_components(p: Seq<char>) -> Seq<Seq<char>> {
    leading_component(p) + segments_after(p, seq![])
}

/// A segment, unless it is empty or `.`.
fn kept_segment_exec(seg: &Vec<char>) -> (keep: bool)
    ensures
        keep == (kept_segment(seg@).len() == 1),
{
    if seg.len() == 0 {
        return false;
    }
    if seg.len() == 1 && seg[0] == '.' {
        assert(seg@ =~= seq!['.']);
        return false;
    }
    if seg.len() == 1 {
        assert(seg@ != seq!['.']) by {
            assert(seg@[0] != seq!['.'][0]);
        }
    }
    true
}

/// The components of the Unix path `p`, each as text.
pub fn components_of(p: &str) -> (r: Vec<String>)
    ensures
        texts(r@) == path_components(p@),
{
    let v = chars_of(p);
    let mut out: Vec<String> = Vec::new();
    if v.len() > 0 && v[0] == '/' {
        let mut root: Vec<char> = Vec::new();
        root.push('/');
        assert(root@ =~= seq!['/']);
        out.push(string_from_chars(&root));
    } else if v.len() > 0 && v[0] == '.' && (v.len() == 1 || v[1] == '/') {
        let mut dot: Vec<char> = Vec::new();
        dot.push('.');
        assert(dot@ =~= seq!['.']);
        out.push(string_from_chars(&dot));
    }
    assert(texts(out@) =~= leading_component(v@));
    let mut cur: Vec<char> = Vec::new();
    let mut i: usize = 0;
    assert(v@.skip(0) =~= v@);
    assert(cur@ =~= Seq::<char>::empty());
    while i < v.len()
        invariant
            i <= v.len(),
            v@ == p@,
            path_components(p@) == texts(out@) + segments_after(v@.skip(i as int), cur@),
        decreases v.len() - i,
    {
        let ghost t = v@.skip(i as int);
        assert(t.drop_first() =~= v@.skip(i + 1));
        let c = v[i];
        if c == '/' {
            let ghost before = texts(out@);
            let ghost seg = cur@;
            if kept_segment_exec(&cur) {
                out.push(string_from_chars(&cur));
                assert(texts(out@) =~= before + kept_segment(seg));
            } else {
                assert(kept_segment(seg) =~= Seq::<Seq<char>>::empty());
                assert(texts(out@) =~= before + kept_segment(seg));
            }
            cur = Vec::new();
            assert(cur@ =~= Seq::<char>::empty());
            assert(segments_after(t, seg) == kept_segment(seg) + segments_after(t.drop_first(), seq![]));
            assert(path_components(p@) == texts(out@) + segments_after(v@.skip(i + 1), cur@)) by {
                assert(before + (kept_segment(seg) + segments_after(t.drop_first(), seq![]))
                    =~= (before + kept_segment(seg)) + segments_after(t.drop_first(), seq![]));
            }
        } else {
            cur.push(c);
        }
        i = i + 1;
    }
    assert(v@.skip(i as int) =~= Seq::<char>::empty());
    let ghost before = texts(out@);
    let ghost seg = cur@;
    if kept_segment_exec(&cur) {
        out.push(string_from_chars(&cur));
        assert(texts(out@) =~= before + kept_segment(seg));
    } else {
        assert(kept_segment(seg) =~= Seq::<Seq<char>>::empty());
        assert(texts(out@) =~= before + kept_segment(seg));
    }
    out
}

/// The volume of a path under `/Volumes`: its third component where the
/// second is `Volumes`.
pub open spec fn share_volume(components: Seq<Seq<char>>) -> Option<Seq<char>> {
    if components.len() >= 3 && components[1] == "Volumes"@ {
        Some(components[2])
    } else {
        None
    }
}

/// The volume named by the path `components`, where its second component is
/// `Volumes`.
pub fn share_volume_of(components: &Vec<String>) -> (r: Option<String>)
    ensures
        opt_chars(r) == share_volume(texts(components@)),
{
    if components.len() >= 3 && spells(&chars_of(components[1].as_str()), "Volumes") {
        Some(components[2].clone())
    } else {
        None
    }
}

/// The volume of the directory `path`, where it lies under `/Volumes`.
pub fn share_volume_name(path: &str) -> (r: Option<String>)
    ensures
        opt_chars(r) == share_volume(path_components(path@)),
{
    let components = components_of(path);
    share_volume_of(&components)
}

/// `l` without one trailing carriage return.
pub open spec fn drop_cr(l: Seq<char>) -> Seq<char> {
    if l.len() > 0 && l.last() == '\r' {
        l.drop_last()
    } else {
        l
    }
}

/// The lines of `s` as `str::lines` yields them: split at each `\n`, a `\r`
/// just before it dropped, no empty line after a final `\n`.
pub open spec fn text_lines(s: Seq<char>) -> Seq<Seq<char>>
    decreases s.len(),
{
    if s.len() == 0 {
        seq![]
    } else {
        let e = first_match(s, seq!['\n']);
        if e < s.len() {
            proof {
                lemma_first_match(s, seq!['\n']);
            }
            seq![drop_cr(s.take(e))] + text_lines(s.skip(e + 1))
        } else {
            seq![s]
        }
    }
}

/// What `mount` prints after the source of a share mounted at `/Volumes/<volume>`.
pub open spec fn mount_pattern(volume: Seq<char>) -> Seq<char> {
    "on /Volumes/"@ + volume
}

/// The mounted source named by a line of `mount`'s output: what precedes the
/// first ` on `, trimmed.
pub open spec fn mount_source(line: Seq<char>) -> Seq<char> {
    trim(before_first(line, " on "@))
}

/// The SMB URL of the first line that mentions `pattern` and whose source is
/// a network share (`//host/share`): `smb:` followed by that source.
pub open spec fn share_url_in(lines: Seq<Seq<char>>, pattern: Seq<char>) -> Option<Seq<char>>
    decreases lines.len(),
{
    if lines.len() == 0 {
        None
    } else if contains(lines[0], pattern) && starts_with(mount_source(lines[0]), "//"@) {
        Some("smb:"@ + mount_source(lines[0]))
    } else {
        share_url_in(lines.drop_first(), pattern)
    }
}

/// The URL of the network share mounted at `/Volumes/<volume>`, read from the
/// output of `mount`.
pub open spec fn share_url(mount_table: Seq<char>, volume: Seq<char>) -> Option<Seq<char>> {
    share_url_in(text_lines(mount_table), mount_pattern(volume))
}

/// The SMB URL that a line of `mount`'s output gives, where it mentions
/// `pattern` and names a network share.
fn share_url_of_line(line: &Vec<char>, pattern: &Vec<char>) -> (r: Option<String>)
    ensures
        opt_chars(r) == (if contains(line@, pattern@) && starts_with(
            mount_source(line@),
            "//"@,
        ) {
            Some("smb:"@ + mount_source(line@))
        } else {
            None::<Seq<char>>
        }),
{
    if !contains_exec(line, pattern) {
        return None;
    }
    let sep = chars_of(" on ");
    let k = find_exec(line, &sep);
    proof {
        lemma_first_match(line@, sep@);
    }
    let source = trim_exec(&slice_chars(line, 0, k));
    assert(line@.subrange(0, k as int) == line@.take(k as int));
    if starts_with_exec(&source, &chars_of("//")) {
        let mut url = chars_of("smb:");
        push_all(&mut url, &source);
        Some(string_from_chars(&url))
    } else {
        None
    }
}

/// The URL of the network share mounted at `/Volumes/<volume>`, from the
/// output of `mount`: `smb:` followed by the source of the first line that
/// mentions `on /Volumes/<volume>` and names a share `//host/share`.
pub fn share_url_from_mount_table(mount_table: &str, volume: &str) -> (r: Option<String>)
    ensures
        opt_chars(r) == share_url(mount_table@, volume@),
{
    let v = chars_of(mount_table);
    let mut pattern = chars_of("on /Volumes/");
    push_str_chars(&mut pattern, volume);
    let n = v.len();
    let mut pos: usize = 0;
    assert(v@.skip(0) =~= v@);
    while pos < n
        invariant
            n == v.len(),
            pos <= n,
            pattern@ == mount_pattern(volume@),
            share_url(mount_table@, volume@) == share_url_in(
                text_lines(v@.skip(pos as int)),
                pattern@,
            ),
        decreases n - pos,
    {
        let ghost t = v@.skip(pos as int);
        let e = find_char_from(&v, '\n', pos);
        proof {
            lemma_first_match(t, seq!['\n']);
        }
        let line = if e < n && e > pos && v[e - 1] == '\r' {
            slice_chars(&v, pos, e - 1)
        } else {
            slice_chars(&v, pos, e)
        };
        assert(t.take(e - pos) =~= v@.subrange(pos as int, e as int));
        assert(line@ == (if e < n {
            drop_cr(t.take(e - pos))
        } else {
            t
        })) by {
            if e < n && e > pos && v[e - 1] == '\r' {
                assert(v@.subrange(pos as int, e - 1) =~= v@.subrange(
                    pos as int,
                    e as int,
                ).drop_last());
            }
            if e >= n {
                assert(t =~= v@.subrange(pos as int, e as int));
            }
        }
        match share_url_of_line(&line, &pattern) {
            Some(url) => {
                return Some(url);
            },
            None => {},
        }
        if e >= n {
            assert(t.len() > 0);
            assert(first_match(t, seq!['\n']) == t.len());
            assert(text_lines(t) == seq![t]);
            assert(text_lines(t)[0] == line@);
            assert(text_lines(t).drop_first() =~= Seq::<Seq<char>>::empty());
            assert(share_url_in(text_lines(t), pattern@) == share_url_in(
                text_lines(t).drop_first(),
                pattern@,
            ));
            return None;
        }
        assert(t.skip(e - pos + 1) =~= v@.skip(e + 1));
        assert(text_lines(t).drop_first() == text_lines(v@.skip(e + 1)));
        pos = e + 1;
    }
    assert(v@.skip(pos as int) =~= Seq::<char>::empty());
    None
}

/// The folder that the Finder picker returned: its trimmed output, where the
/// picker succeeded and printed something.
pub open spec fn picked_folder(success: bool, stdout: Seq<char>) -> Option<Seq<char>> {
    if success && trim(stdout).len() > 0 {
        Some(trim(stdout))
    } else {
        None
    }
}

/// The folder chosen in the Finder picker, from whether `osascript`
/// succeeded and what it printed.
pub fn folder_from_picker_output(success: bool, stdout: &str) -> (r: Option<String>)
    ensures
        opt_chars(r) == picked_folder(success, stdout@),
{
    if !success {
        return None;
    }
    let path = trim_exec(&chars_of(stdout));
    if path.len() > 0 {
        Some(string_from_chars(&path))
    } else {
        None
    }
}

/// Whether the picker's error output says that the user cancelled.
pub fn picker_was_cancelled(stderr: &str) -> (r: bool)
    ensures
        r == contains(stderr@, "User canceled"@),
{
    contains_exec(&chars_of(stderr), &chars_of("User canceled"))
}

} // verus!

verus! {

proof fn lemma_share_url_in(lines: Seq<Seq<char>>, pattern: Seq<char>)
    ensures
        share_url_in(lines, pattern) matches Some(u) ==> exists|src: Seq<char>|
            starts_with(src, "//"@) && u == "smb:"@ + src,
    decreases lines.len(),
{
    if lines.len() > 0 {
        lemma_share_url_in(lines.drop_first(), pattern);
        if contains(lines[0], pattern) && starts_with(mount_source(lines[0]), "//"@) {
            let src = mount_source(lines[0]);
            assert(starts_with(src, "//"@) && share_url_in(lines, pattern)->0 == "smb:"@ + src);
        }
    }
}

/// A discovered network share is always reported as an SMB URL: it begins
/// with `smb://`, the mount source's leading `//` kept after `smb:`.
pub proof fn discovered_shares_are_smb_urls(mount_table: Seq<char>, volume: Seq<char>)
    ensures
        share_url(mount_table, volume) matches Some(u) ==> starts_with(u, "smb://"@),
{
    lemma_share_url_in(text_lines(mount_table), mount_pattern(volume));
    if share_url(mount_table, volume) is Some {
        let u = share_url(mount_table, volume)->0;
        let src = choose|src: Seq<char>| starts_with(src, "//"@) && u == "smb:"@ + src;
        reveal_strlit("smb:");
        reveal_strlit("//");
        reveal_strlit("smb://");
        assert(src.take(2)[0] == src[0] && src.take(2)[1] == src[1]);
        assert(src[0] == '/' && src[1] == '/');
        assert(u[4] == src[0] && u[5] == src[1]);
        assert(u.take(6) =~= "smb://"@);
    }
}

} // verus!

verus! {

proof fn lemma_segments_slash(s: Seq<char>, cur: Seq<char>)
    ensures
        segments_after(seq!['/'] + s, cur) == kept_segment(cur) + segments_after(s, seq![]),
{
    assert((seq!['/'] + s).drop_first() =~= s);
}

proof fn lemma_segments_word(w: Seq<char>, s: Seq<char>, cur: Seq<char>)
    requires
        forall|i: int| 0 <= i < w.len() ==> w[i] != '/',
    ensures
        segments_after(w + s, cur) == segments_after(s, cur + w),
    decreases w.len(),
{
    if w.len() == 0 {
        assert(w + s =~= s);
        assert(cur + w =~= cur);
    } else {
        assert((w + s)[0] == w[0]);
        assert((w + s).drop_first() =~= w.drop_first() + s);
        lemma_segments_word(w.drop_first(), s, cur.push(w[0]));
        assert(cur.push(w[0]) + w.drop_first() =~= cur + w);
    }
}

/// A directory under `/Volumes` names its volume: for a volume name `v`
/// (not empty, not `.`, without `/`), the path `/Volumes/<v>` followed by
/// nothing or by `/...` lies on the volume `v`.
pub proof fn volumes_path_names_its_volume(v: Seq<char>, rest: Seq<char>)
    requires
        v.len() > 0,
        v != seq!['.'],
        forall|i: int| 0 <= i < v.len() ==> v[i] != '/',
        rest.len() == 0 || rest[0] == '/',
    ensures
        share_volume(path_components("/Volumes/"@ + v + rest)) == Some(v),
{
    reveal_strlit("/Volumes/");
    reveal_strlit("Volumes");
    let vol = seq!['V', 'o', 'l', 'u', 'm', 'e', 's'];
    assert("Volumes"@ =~= vol);
    let p = "/Volumes/"@ + v + rest;
    assert(p =~= seq!['/'] + (vol + (seq!['/'] + (v + rest))));
    lemma_segments_slash(vol + (seq!['/'] + (v + rest)), seq![]);
    assert(kept_segment(seq![]) =~= Seq::<Seq<char>>::empty());
    lemma_segments_word(vol, seq!['/'] + (v + rest), seq![]);
    assert(Seq::<char>::empty() + vol =~= vol);
    lemma_segments_slash(v + rest, vol);
    assert(vol != seq!['.']) by {
        assert(vol.len() != seq!['.'].len());
    }
    assert(kept_segment(vol) == seq![vol]);
    lemma_segments_word(v, rest, seq![]);
    assert(Seq::<char>::empty() + v =~= v);
    assert(kept_segment(v) == seq![v]);
    if rest.len() == 0 {
        assert(segments_after(rest, v) == kept_segment(v));
    } else {
        assert(rest =~= seq!['/'] + rest.drop_first());
        lemma_segments_slash(rest.drop_first(), v);
    }
    let tail = segments_after(rest, v);
    assert(tail.len() >= 1 && tail[0] == v);
    let comps = path_components(p);
    assert(leading_component(p) == seq![seq!['/']]);
    assert(comps == seq![seq!['/']] + (Seq::<Seq<char>>::empty() + (seq![vol] + segments_after(v + rest, seq![]))));
    assert(comps[1] == vol);
    assert(comps[2] == v);
}

} // verus!

verus! {

/// A path that needs no cleaning, pasted between brackets, between double
/// quotes or between single quotes, comes back as the path itself.
pub proof fn normalize_path_unwraps_paths(p: Seq<char>)
    requires
        p.len() > 0 ==> !is_space(p[0]) && !is_space(p.last()) && p[0] != '['
            && p[0] != '"' && p[0] != '\'',
        !contains(p, seq!['\\', ' ']),
    ensures
        normalize_path_defined(seq!['['] + p + seq![']']),
        normalized_path(seq!['['] + p + seq![']']) == p,
        normalize_path_defined(seq!['"'] + p + seq!['"']),
        normalized_path(seq!['"'] + p + seq!['"']) == p,
        normalize_path_defined(seq!['\''] + p + seq!['\'']),
        normalized_path(seq!['\''] + p + seq!['\'']) == p,
{
    normalize_path_keeps_clean_paths(p);
    assert(crate::text::trim_start(p) == p);
    assert(crate::text::trim_end(p) == p);
    let b = seq!['['] + p + seq![']'];
    let q = seq!['"'] + p + seq!['"'];
    let a = seq!['\''] + p + seq!['\''];
    assert(!is_space('[') && !is_space(']') && !is_space('"') && !is_space('\''));
    assert(b[0] == '[' && b.last() == ']' && b.subrange(1, b.len() - 1) =~= p);
    assert(q[0] == '"' && q.last() == '"' && q.subrange(1, q.len() - 1) =~= p);
    assert(a[0] == '\'' && a.last() == '\'' && a.subrange(1, a.len() - 1) =~= p);
    assert(crate::text::trim_start(b) == b);
    assert(crate::text::trim_end(b) == b);
    assert(crate::text::trim_start(q) == q);
    assert(crate::text::trim_end(q) == q);
    assert(crate::text::trim_start(a) == a);
    assert(crate::text::trim_end(a) == a);
}

} // verus!
