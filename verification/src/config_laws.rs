//! Laws of the configuration format: comments do not count, a later line
//! overrides an earlier one, and a written configuration file reads back as
//! the settings it was written from.
use vstd::prelude::*;

use crate::config::{
    bool_digit, clean_line, config_file_lines, config_file_text, config_key_of,
    default_config_file_text, default_patch_config, is_section_header, spec_parse_bool, ConfigKey, ConfigNoticeKind,
    ConfigNoticeView, PatchConfig,
    setting_line, spec_apply_line, spec_apply_setting, spec_lines, spec_parse_config,
    spec_read_lines, ConfigState,
};
use crate::text::{
    decimal_digits, is_ascii_digit, is_white_space, join_lines, lemma_decimal_roundtrip,
    lemma_u64_decimal_parse_roundtrip, lower, prefix_before, spec_parse_u64, trim, trim_end,
    trim_start,
};

verus! {

// ---------------------------------------------------------------------------
// Characters and lines
// ---------------------------------------------------------------------------

/// `c` does not occur in `s`.
pub open spec fn lacks(s: Seq<char>, c: char) -> bool {
    forall|i: int| 0 <= i < s.len() ==> s[i] != c
}

pub proof fn lemma_prefix_before_props(s: Seq<char>, c: char)
    ensures
        prefix_before(s, c).len() <= s.len(),
        prefix_before(s, c) == s.take(prefix_before(s, c).len() as int),
        forall|i: int| 0 <= i < prefix_before(s, c).len() ==> s[i] != c,
        prefix_before(s, c).len() < s.len() ==> s[prefix_before(s, c).len() as int] == c,
    decreases s.len(),
{
    if s.len() == 0 {
        assert(s.take(0) =~= s);
    } else if s[0] == c {
        assert(s.take(0) =~= Seq::<char>::empty());
    } else {
        let t = s.drop_first();
        lemma_prefix_before_props(t, c);
        let p = prefix_before(s, c);
        assert(p == seq![s[0]] + prefix_before(t, c));
        assert(p =~= s.take(p.len() as int));
        assert forall|i: int| 0 <= i < p.len() implies s[i] != c by {
            if i > 0 {
                assert(s[i] == t[i - 1]);
            }
        }
        if p.len() < s.len() {
            assert(s[p.len() as int] == t[p.len() - 1]);
        }
    }
}

/// A text without `c` is its own part before the first `c`.
pub proof fn lemma_prefix_before_lacking(s: Seq<char>, c: char)
    requires
        lacks(s, c),
    ensures
        prefix_before(s, c) == s,
{
    crate::text::lemma_prefix_before(s, c, s.len() as int);
    assert(s.take(s.len() as int) =~= s);
}

/// A line that ends at a newline is the first line of the text.
pub proof fn lemma_lines_cons(a: Seq<char>, rest: Seq<char>)
    requires
        lacks(a, '\n'),
    ensures
        spec_lines(a + seq!['\n'] + rest) == seq![a] + spec_lines(rest),
{
    let s = a + seq!['\n'] + rest;
    assert forall|i: int| 0 <= i < a.len() implies s[i] != '\n' by {
        assert(s[i] == a[i]);
    }
    assert(s[a.len() as int] == '\n');
    crate::text::lemma_prefix_before(s, '\n', a.len() as int);
    assert(s.take(a.len() as int) =~= a);
    assert(s.skip(a.len() as int + 1) =~= rest);
}

/// Lines without newlines, joined, split back into the same lines.
pub proof fn lemma_lines_of_join(lines: Seq<Seq<char>>)
    requires
        forall|i: int| 0 <= i < lines.len() ==> lacks(#[trigger] lines[i], '\n'),
    ensures
        spec_lines(join_lines(lines)) == lines,
    decreases lines.len(),
{
    if lines.len() == 0 {
        assert(spec_lines(Seq::<char>::empty()) == Seq::<Seq<char>>::empty());
    } else {
        let rest = lines.drop_first();
        assert forall|i: int| 0 <= i < rest.len() implies lacks(#[trigger] rest[i], '\n') by {
            assert(rest[i] == lines[i + 1]);
        }
        lemma_lines_of_join(rest);
        assert(lines[0] == lines[0]);
        lemma_lines_cons(lines[0], join_lines(rest));
        assert(seq![lines[0]] + rest =~= lines);
    }
}

/// Whether a text is empty or ends with a newline: whatever follows starts a
/// line of its own.
pub open spec fn ends_a_line(t: Seq<char>) -> bool {
    t.len() == 0 || t.last() == '\n'
}

/// The lines of two texts, the first ending a line, are the lines of each.
pub proof fn lemma_lines_append(t: Seq<char>, u: Seq<char>)
    requires
        ends_a_line(t),
    ensures
        spec_lines(t + u) == spec_lines(t) + spec_lines(u),
    decreases t.len(),
{
    if t.len() == 0 {
        assert(t + u =~= u);
        assert(spec_lines(t) =~= Seq::<Seq<char>>::empty());
        assert(spec_lines(t) + spec_lines(u) =~= spec_lines(u));
    } else {
        lemma_prefix_before_props(t, '\n');
        let a = prefix_before(t, '\n');
        if a.len() == t.len() {
            assert(t[t.len() - 1] != '\n');
        }
        assert(a.len() < t.len());
        let t2 = t.skip(a.len() as int + 1);
        assert(t =~= a + seq!['\n'] + t2);
        assert(lacks(a, '\n'));
        if t2.len() > 0 {
            assert(t2.last() == t.last());
        }
        lemma_lines_append(t2, u);
        lemma_lines_cons(a, t2);
        lemma_lines_cons(a, t2 + u);
        assert(t + u =~= a + seq!['\n'] + (t2 + u));
        assert(seq![a] + (spec_lines(t2) + spec_lines(u)) =~= (seq![a] + spec_lines(t2))
            + spec_lines(u));
    }
}

// ---------------------------------------------------------------------------
// Reading in pieces
// ---------------------------------------------------------------------------

/// The state after further lines, numbered on from `n`.
pub open spec fn spec_read_from(st: ConfigState, n: nat, lines: Seq<Seq<char>>) -> ConfigState
    decreases lines.len(),
{
    if lines.len() == 0 {
        st
    } else {
        spec_apply_line(
            spec_read_from(st, n, lines.drop_last()),
            (n + lines.len()) as usize,
            lines.last(),
        )
    }
}

/// Reading two runs of lines is reading the second from where the first left
/// off.
pub proof fn lemma_read_append(a: Seq<Seq<char>>, b: Seq<Seq<char>>)
    ensures
        spec_read_lines(a + b) == spec_read_from(spec_read_lines(a), a.len(), b),
    decreases b.len(),
{
    if b.len() == 0 {
        assert(a + b =~= a);
    } else {
        lemma_read_append(a, b.drop_last());
        assert((a + b).drop_last() =~= a + b.drop_last());
        assert((a + b).last() == b.last());
    }
}

// ---------------------------------------------------------------------------
// Single lines
// ---------------------------------------------------------------------------

/// A text that starts and ends with something other than white space is its
/// own trimmed form.
pub proof fn lemma_trim_noop(s: Seq<char>)
    requires
        s.len() > 0,
        !is_white_space(s[0]),
        !is_white_space(s.last()),
    ensures
        trim(s) == s,
{
    assert(trim_start(s) == s);
    assert(trim_end(s) == s);
}

/// A line without comment characters, trimmed at both ends, is its own
/// cleaned form.
pub proof fn lemma_clean_plain(raw: Seq<char>)
    requires
        lacks(raw, ';'),
        lacks(raw, '#'),
        raw.len() > 0,
        !is_white_space(raw[0]),
        !is_white_space(raw.last()),
    ensures
        clean_line(raw) == raw,
{
    lemma_prefix_before_lacking(raw, ';');
    lemma_prefix_before_lacking(raw, '#');
    lemma_trim_noop(raw);
}

/// An empty line changes nothing.
pub proof fn lemma_empty_line(st: ConfigState, n: usize)
    ensures
        spec_apply_line(st, n, Seq::empty()) == st,
{
    let e = Seq::<char>::empty();
    assert(prefix_before(e, ';') == e);
    assert(prefix_before(e, '#') == e);
    assert(trim_start(e) == e);
    assert(trim_end(e) == e);
}

/// `[name]` opens the section `name`, lower-cased.
pub proof fn lemma_section_line(st: ConfigState, n: usize, name: Seq<char>)
    requires
        lacks(name, ';'),
        lacks(name, '#'),
    ensures
        spec_apply_line(st, n, seq!['['] + name + seq![']']) == (st.0, lower(trim(name)), st.2),
{
    let raw = seq!['['] + name + seq![']'];
    assert forall|i: int| 0 <= i < raw.len() implies raw[i] != ';' && raw[i] != '#' by {
        if 0 < i < raw.len() - 1 {
            assert(raw[i] == name[i - 1]);
        }
    }
    lemma_clean_plain(raw);
    assert(is_section_header(raw));
    assert(raw.subrange(1, raw.len() - 1) =~= name);
}

/// A value that reads back as itself: no line break or comment in it, and no
/// white space at its ends.
pub open spec fn plain_value(v: Seq<char>) -> bool {
    &&& lacks(v, '\n')
    &&& lacks(v, ';')
    &&& lacks(v, '#')
    &&& v.len() > 0 ==> !is_white_space(v[0]) && !is_white_space(v.last())
}

/// A key that names a setting as written: no line break, comment, `=` or
/// white space at its ends, not opening with `[`.
pub open spec fn plain_key(k: Seq<char>) -> bool {
    &&& k.len() > 0
    &&& lacks(k, '\n')
    &&& lacks(k, ';')
    &&& lacks(k, '#')
    &&& lacks(k, '=')
    &&& k[0] != '['
    &&& !is_white_space(k[0])
    &&& !is_white_space(k.last())
}

/// `key = value` sets the setting that the lower-cased key names in the
/// current section to the value.
pub proof fn lemma_setting_line(st: ConfigState, n: usize, key: Seq<char>, value: Seq<char>)
    requires
        plain_key(key),
        plain_value(value),
    ensures
        spec_apply_line(st, n, setting_line(key, value)) == spec_apply_setting(
            st,
            n,
            lower(key),
            value,
        ),
{
    reveal_strlit(" = ");
    let raw = setting_line(key, value);
    let sep = seq![' ', '=', ' '];
    assert(" = "@ =~= sep);
    assert(raw =~= key + sep + value);
    assert forall|i: int| 0 <= i < raw.len() implies raw[i] != ';' && raw[i] != '#' by {
        if i < key.len() {
            assert(raw[i] == key[i]);
        } else if i >= key.len() + 3 {
            assert(raw[i] == value[i - key.len() - 3]);
        }
    }
    lemma_prefix_before_lacking(raw, ';');
    lemma_prefix_before_lacking(raw, '#');
    // The cleaned line: the value, or the key and `=` when the value is empty.
    let l = if value.len() > 0 {
        raw
    } else {
        key + seq![' ', '=']
    };
    if value.len() > 0 {
        assert(raw[0] == key[0]);
        assert(raw.last() == value.last());
        lemma_trim_noop(raw);
    } else {
        assert(raw =~= key + seq![' ', '='] + seq![' ']);
        assert(trim_start(raw) == raw) by {
            assert(raw[0] == key[0]);
        }
        assert(raw.drop_last() =~= l);
        assert(trim_end(raw) == trim_end(l));
        assert(l.last() == '=');
        assert(trim_end(l) == l);
    }
    assert(clean_line(raw) == l);
    assert(l[0] == key[0]);
    assert(!is_section_header(l));
    assert forall|i: int| 0 <= i < key.len() + 1 implies l[i] != '=' by {
        if i < key.len() {
            assert(l[i] == key[i]);
        }
    }
    assert(l[key.len() as int + 1] == '=');
    crate::text::lemma_prefix_before(l, '=', key.len() as int + 1);
    let kp = l.take(key.len() as int + 1);
    assert(kp =~= key + seq![' ']);
    // The key trimmed.
    assert(trim_start(kp) == kp) by {
        assert(kp[0] == key[0]);
    }
    assert(kp.drop_last() =~= key);
    assert(trim_end(kp) == trim_end(key));
    assert(trim_end(key) == key);
    assert(trim(kp) == key);
    // The value trimmed.
    let vp = l.skip(key.len() as int + 2);
    if value.len() > 0 {
        assert(vp =~= seq![' '] + value);
        assert(vp.drop_first() =~= value);
        assert(trim_start(vp) == trim_start(value));
        lemma_trim_noop(value);
        assert(trim_start(value) == value);
        assert(trim(vp) == value);
    } else {
        assert(vp =~= Seq::<char>::empty());
        assert(trim_start(vp) == vp);
        assert(trim_end(vp) == vp);
        assert(trim(vp) =~= value);
    }
}

/// A newline added to a text that does not end a line only closes its last
/// line.
pub proof fn lemma_lines_close_last(c: Seq<char>)
    requires
        !ends_a_line(c),
    ensures
        spec_lines(c + seq!['\n']) == spec_lines(c),
    decreases c.len(),
{
    let s = c + seq!['\n'];
    lemma_prefix_before_props(c, '\n');
    lemma_prefix_before_concat(c, seq!['\n'], '\n');
    let l = prefix_before(c, '\n');
    if lacks(c, '\n') {
        lemma_prefix_before_lacking(c, '\n');
        assert(prefix_before(seq!['\n'], '\n') == Seq::<char>::empty());
        assert(c + Seq::<char>::empty() =~= c);
        assert(prefix_before(s, '\n') == c);
        assert(s.skip(c.len() as int + 1) =~= Seq::<char>::empty());
        assert(spec_lines(s) == seq![c] + spec_lines(Seq::<char>::empty()));
        assert(spec_lines(s) =~= seq![c]);
    } else {
        assert(l.len() < c.len()) by {
            if l.len() >= c.len() {
                assert forall|i: int| 0 <= i < c.len() implies c[i] != '\n' by {}
            }
        }
        assert(prefix_before(s, '\n') == l);
        let rest = c.skip(l.len() as int + 1);
        assert(l.len() + 1 < c.len()) by {
            if l.len() + 1 == c.len() {
                assert(c.last() == c[l.len() as int]);
            }
        }
        assert(rest.last() == c.last());
        assert(s.skip(l.len() as int + 1) =~= rest + seq!['\n']);
        lemma_lines_close_last(rest);
    }
}

/// A newline appended to any text changes nothing that reading it gives but
/// the number of lines.
pub proof fn lemma_read_newline(c: Seq<char>)
    ensures
        spec_read_lines(spec_lines(c + seq!['\n'])) == spec_read_lines(spec_lines(c)),
{
    if ends_a_line(c) {
        lemma_lines_append(c, seq!['\n']);
        lemma_lines_cons(Seq::<char>::empty(), Seq::<char>::empty());
        assert(Seq::<char>::empty() + seq!['\n'] + Seq::<char>::empty() =~= seq!['\n']);
        assert(spec_lines(Seq::<char>::empty()) =~= Seq::<Seq<char>>::empty());
        let lines = spec_lines(c);
        let more = lines + seq![Seq::<char>::empty()];
        assert(spec_lines(c + seq!['\n']) == more);
        assert(more.drop_last() =~= lines);
        lemma_empty_line(spec_read_lines(lines), more.len() as usize);
    } else {
        lemma_lines_close_last(c);
    }
}

// ---------------------------------------------------------------------------
// Comments
// ---------------------------------------------------------------------------

/// The part before the first `c` of two texts joined.
pub proof fn lemma_prefix_before_concat(a: Seq<char>, b: Seq<char>, c: char)
    ensures
        prefix_before(a + b, c) == (if lacks(a, c) {
            a + prefix_before(b, c)
        } else {
            prefix_before(a, c)
        }),
    decreases a.len(),
{
    if a.len() == 0 {
        assert(a + b =~= b);
        assert(a + prefix_before(b, c) =~= prefix_before(b, c));
    } else {
        let t = a.drop_first();
        lemma_prefix_before_concat(t, b, c);
        assert((a + b).drop_first() =~= t + b);
        assert((a + b)[0] == a[0]);
        if a[0] != c {
            if lacks(a, c) {
                assert(lacks(t, c)) by {
                    assert forall|i: int| 0 <= i < t.len() implies t[i] != c by {
                        assert(t[i] == a[i + 1]);
                    }
                }
                assert(seq![a[0]] + (t + prefix_before(b, c)) =~= a + prefix_before(b, c));
            } else {
                assert(!lacks(t, c)) by {
                    let i = choose|i: int| 0 <= i < a.len() && a[i] == c;
                    assert(i > 0);
                    assert(t[i - 1] == c);
                }
            }
        }
    }
}

/// A `;` or `#` comment at the end of a line does not change what the line
/// does, whatever the comment says.
pub proof fn lemma_comment_ignored(
    st: ConfigState,
    n: usize,
    raw: Seq<char>,
    c: char,
    comment: Seq<char>,
)
    requires
        c == ';' || c == '#',
    ensures
        spec_apply_line(st, n, raw + seq![c] + comment) == spec_apply_line(st, n, raw),
{
    let x = seq![c] + comment;
    assert(raw + seq![c] + comment =~= raw + x);
    assert(!lacks(x, c)) by {
        assert(x[0] == c);
    }
    assert(prefix_before(x, c) == Seq::<char>::empty()) by {
        assert(x[0] == c);
    }
    lemma_prefix_before_concat(raw, x, c);
    if c == ';' {
        assert(prefix_before(raw + x, ';') == prefix_before(raw, ';')) by {
            if lacks(raw, ';') {
                lemma_prefix_before_lacking(raw, ';');
                assert(raw + Seq::<char>::empty() =~= raw);
            }
        }
    } else {
        lemma_prefix_before_concat(raw, x, ';');
        if lacks(raw, ';') {
            lemma_prefix_before_lacking(raw, ';');
            let y = prefix_before(x, ';');
            assert(y.len() > 0 && y[0] == '#') by {
                assert(x[0] == '#');
            }
            assert(!lacks(y, '#'));
            assert(prefix_before(y, '#') == Seq::<char>::empty()) by {
                assert(y[0] == '#');
            }
            lemma_prefix_before_concat(raw, y, '#');
            if lacks(raw, '#') {
                lemma_prefix_before_lacking(raw, '#');
                assert(raw + Seq::<char>::empty() =~= raw);
            }
        }
    }
    assert(clean_line(raw + x) == clean_line(raw));
}

// ---------------------------------------------------------------------------
// A later line wins
// ---------------------------------------------------------------------------

/// Appending `[section]` and `key = value` to a configuration text gives the
/// setting that the section and key name the value, whatever the text said
/// before: the earlier settings are overridden.
pub proof fn lemma_appended_setting_overrides(
    t: Seq<char>,
    section: Seq<char>,
    key: Seq<char>,
    value: Seq<char>,
)
    requires
        ends_a_line(t),
        lacks(section, '\n'),
        lacks(section, ';'),
        lacks(section, '#'),
        lower(trim(section)).len() > 0,
        plain_key(key),
        plain_value(value),
    ensures
        ({
            let before = spec_read_lines(spec_lines(t));
            let full = lower(trim(section)) + seq!['.'] + lower(key);
            let after = spec_parse_config(
                t + join_lines(seq![seq!['['] + section + seq![']'], setting_line(key, value)]),
            );
            let line = (spec_lines(t).len() + 2) as usize;
            match config_key_of(full) {
                None => after == (before.0, before.2),
                Some(k) => {
                    let (c, notes) = crate::config::spec_assign(before.0, k, value, line);
                    after == (c, before.2 + notes)
                },
            }
        }),
{
    let header = seq!['['] + section + seq![']'];
    let setting = setting_line(key, value);
    let tail = seq![header, setting];
    assert(lacks(header, '\n')) by {
        assert forall|i: int| 0 <= i < header.len() implies header[i] != '\n' by {
            if 0 < i < header.len() - 1 {
                assert(header[i] == section[i - 1]);
            }
        }
    }
    assert(lacks(setting, '\n')) by {
        reveal_strlit(" = ");
        assert forall|i: int| 0 <= i < setting.len() implies setting[i] != '\n' by {
            if i < key.len() {
                assert(setting[i] == key[i]);
            } else if i >= key.len() + 3 {
                assert(setting[i] == value[i - key.len() - 3]);
            }
        }
    }
    assert forall|i: int| 0 <= i < tail.len() implies lacks(#[trigger] tail[i], '\n') by {}
    lemma_lines_of_join(tail);
    lemma_lines_append(t, join_lines(tail));
    let lt = spec_lines(t);
    lemma_read_append(lt, tail);
    let st0 = spec_read_lines(lt);
    assert(tail.drop_last() =~= seq![header]);
    assert(seq![header].drop_last() =~= Seq::<Seq<char>>::empty());
    lemma_section_line(st0, (lt.len() + 1) as usize, section);
    let st1 = (st0.0, lower(trim(section)), st0.2);
    assert(spec_read_from(st0, lt.len(), Seq::<Seq<char>>::empty()) == st0);
    assert(seq![header].last() == header);
    assert(spec_read_from(st0, lt.len(), seq![header]) == st1);
    assert(tail.last() == setting);
    lemma_setting_line(st1, (lt.len() + 2) as usize, key, value);
    assert(spec_read_from(st0, lt.len(), tail) == spec_apply_setting(
        st1,
        (lt.len() + 2) as usize,
        lower(key),
        value,
    ));
}

// ---------------------------------------------------------------------------
// The written file reads back
// ---------------------------------------------------------------------------

proof fn lemma_file_key_anti_tamper_enabled()
    ensures
        config_key_of(lower(trim("Patch"@)) + seq!['.'] + lower("AntiTamperEnabled"@)) == Some(ConfigKey::AntiTamperEnabled),
        plain_key("AntiTamperEnabled"@),
{
    reveal_strlit("Patch");
    reveal_strlit("AntiTamperEnabled");
    reveal_strlit("patch.antitamperenabled");
    reveal_strlit("antitamperenabled");
    lemma_trim_noop("Patch"@);
    assert(lower(trim("Patch"@)) + seq!['.'] + lower("AntiTamperEnabled"@) =~= "patch.antitamperenabled"@);
}

proof fn lemma_file_key_dlc_car_dealer_fix_enabled()
    ensures
        config_key_of(lower(trim("Patch"@)) + seq!['.'] + lower("DlcCarDealerFixEnabled"@)) == Some(ConfigKey::DlcCarDealerFixEnabled),
        plain_key("DlcCarDealerFixEnabled"@),
{
    reveal_strlit("Patch");
    reveal_strlit("DlcCarDealerFixEnabled");
    reveal_strlit("patch.antitamperenabled");
    reveal_strlit("antitamperenabled");
    reveal_strlit("patch.camerafixenabled");
    reveal_strlit("camerafixenabled");
    reveal_strlit("patch.camerashakefixenabled");
    reveal_strlit("camerashakefixenabled");
    reveal_strlit("patch.dlccardealerfixenabled");
    reveal_strlit("dlccardealerfixenabled");
    lemma_trim_noop("Patch"@);
    assert(lower(trim("Patch"@)) + seq!['.'] + lower("DlcCarDealerFixEnabled"@) =~= "patch.dlccardealerfixenabled"@);
}

proof fn lemma_file_key_camera_fix_enabled()
    ensures
        config_key_of(lower(trim("Patch"@)) + seq!['.'] + lower("CameraFixEnabled"@)) == Some(ConfigKey::CameraFixEnabled),
        plain_key("CameraFixEnabled"@),
{
    reveal_strlit("Patch");
    reveal_strlit("CameraFixEnabled");
    reveal_strlit("patch.antitamperenabled");
    reveal_strlit("antitamperenabled");
    reveal_strlit("patch.camerafixenabled");
    reveal_strlit("camerafixenabled");
    lemma_trim_noop("Patch"@);
    assert(lower(trim("Patch"@)) + seq!['.'] + lower("CameraFixEnabled"@) =~= "patch.camerafixenabled"@);
}

proof fn lemma_file_key_camera_shake_fix_enabled()
    ensures
        config_key_of(lower(trim("Patch"@)) + seq!['.'] + lower("CameraShakeFixEnabled"@)) == Some(ConfigKey::CameraShakeFixEnabled),
        plain_key("CameraShakeFixEnabled"@),
{
    reveal_strlit("Patch");
    reveal_strlit("CameraShakeFixEnabled");
    reveal_strlit("patch.antitamperenabled");
    reveal_strlit("antitamperenabled");
    reveal_strlit("patch.camerafixenabled");
    reveal_strlit("camerafixenabled");
    reveal_strlit("patch.camerashakefixenabled");
    reveal_strlit("camerashakefixenabled");
    lemma_trim_noop("Patch"@);
    assert(lower(trim("Patch"@)) + seq!['.'] + lower("CameraShakeFixEnabled"@) =~= "patch.camerashakefixenabled"@);
}

proof fn lemma_file_key_startup_delay_seconds()
    ensures
        config_key_of(lower(trim("Patch"@)) + seq!['.'] + lower("StartupDelaySeconds"@)) == Some(ConfigKey::StartupDelaySeconds),
        plain_key("StartupDelaySeconds"@),
{
    reveal_strlit("Patch");
    reveal_strlit("StartupDelaySeconds");
    reveal_strlit("patch.antitamperenabled");
    reveal_strlit("antitamperenabled");
    reveal_strlit("patch.camerafixenabled");
    reveal_strlit("camerafixenabled");
    reveal_strlit("patch.camerashakefixenabled");
    reveal_strlit("camerashakefixenabled");
    reveal_strlit("patch.dlccardealerfixenabled");
    reveal_strlit("dlccardealerfixenabled");
    reveal_strlit("patch.startupdelayseconds");
    reveal_strlit("startupdelayseconds");
    lemma_trim_noop("Patch"@);
    assert(lower(trim("Patch"@)) + seq!['.'] + lower("StartupDelaySeconds"@) =~= "patch.startupdelayseconds"@);
}

proof fn lemma_file_key_enabled()
    ensures
        config_key_of(lower(trim("FOV"@)) + seq!['.'] + lower("Enabled"@)) == Some(ConfigKey::FovEnabled),
        plain_key("Enabled"@),
{
    reveal_strlit("FOV");
    reveal_strlit("Enabled");
    reveal_strlit("patch.antitamperenabled");
    reveal_strlit("antitamperenabled");
    reveal_strlit("patch.camerafixenabled");
    reveal_strlit("camerafixenabled");
    reveal_strlit("patch.camerashakefixenabled");
    reveal_strlit("camerashakefixenabled");
    reveal_strlit("patch.dlccardealerfixenabled");
    reveal_strlit("dlccardealerfixenabled");
    reveal_strlit("patch.startupdelayseconds");
    reveal_strlit("startupdelayseconds");
    reveal_strlit("fov.multiplier");
    reveal_strlit("fov.mult");
    reveal_strlit("fovmultiplier");
    reveal_strlit("patch.fovmultiplier");
    reveal_strlit("fov.enabled");
    reveal_strlit("fovenabled");
    reveal_strlit("patch.fovenabled");
    lemma_trim_noop("FOV"@);
    assert(lower(trim("FOV"@)) + seq!['.'] + lower("Enabled"@) =~= "fov.enabled"@);
}

proof fn lemma_file_key_multiplier()
    ensures
        config_key_of(lower(trim("FOV"@)) + seq!['.'] + lower("Multiplier"@)) == Some(ConfigKey::FovMultiplier),
        plain_key("Multiplier"@),
{
    reveal_strlit("FOV");
    reveal_strlit("Multiplier");
    reveal_strlit("patch.antitamperenabled");
    reveal_strlit("antitamperenabled");
    reveal_strlit("patch.camerafixenabled");
    reveal_strlit("camerafixenabled");
    reveal_strlit("patch.camerashakefixenabled");
    reveal_strlit("camerashakefixenabled");
    reveal_strlit("patch.dlccardealerfixenabled");
    reveal_strlit("dlccardealerfixenabled");
    reveal_strlit("patch.startupdelayseconds");
    reveal_strlit("startupdelayseconds");
    reveal_strlit("fov.multiplier");
    reveal_strlit("fov.mult");
    reveal_strlit("fovmultiplier");
    reveal_strlit("patch.fovmultiplier");
    lemma_trim_noop("FOV"@);
    assert(lower(trim("FOV"@)) + seq!['.'] + lower("Multiplier"@) =~= "fov.multiplier"@);
}

proof fn lemma_file_key_d3_d9_overlay_enabled()
    ensures
        config_key_of(lower(trim("Overlay"@)) + seq!['.'] + lower("D3D9OverlayEnabled"@)) == Some(ConfigKey::D3d9OverlayEnabled),
        plain_key("D3D9OverlayEnabled"@),
{
    reveal_strlit("Overlay");
    reveal_strlit("D3D9OverlayEnabled");
    reveal_strlit("patch.antitamperenabled");
    reveal_strlit("antitamperenabled");
    reveal_strlit("patch.camerafixenabled");
    reveal_strlit("camerafixenabled");
    reveal_strlit("patch.camerashakefixenabled");
    reveal_strlit("camerashakefixenabled");
    reveal_strlit("patch.dlccardealerfixenabled");
    reveal_strlit("dlccardealerfixenabled");
    reveal_strlit("patch.startupdelayseconds");
    reveal_strlit("startupdelayseconds");
    reveal_strlit("fov.multiplier");
    reveal_strlit("fov.mult");
    reveal_strlit("fovmultiplier");
    reveal_strlit("patch.fovmultiplier");
    reveal_strlit("fov.enabled");
    reveal_strlit("fovenabled");
    reveal_strlit("patch.fovenabled");
    reveal_strlit("overlay.d3d9overlayenabled");
    reveal_strlit("d3d9overlayenabled");
    lemma_trim_noop("Overlay"@);
    assert(lower(trim("Overlay"@)) + seq!['.'] + lower("D3D9OverlayEnabled"@) =~= "overlay.d3d9overlayenabled"@);
}

proof fn lemma_file_section(name: &str)
    requires
        name@.len() > 0,
        lacks(name@, '\n'),
        lacks(name@, ';'),
        lacks(name@, '#'),
        !is_white_space(name@[0]),
        !is_white_space(name@.last()),
    ensures
        lower(trim(name@)).len() > 0,
{
    lemma_trim_noop(name@);
}

proof fn lemma_file_sections()
    ensures
        lacks("Patch"@, '\n') && lacks("Patch"@, ';') && lacks("Patch"@, '#'),
        lacks("FOV"@, '\n') && lacks("FOV"@, ';') && lacks("FOV"@, '#'),
        lacks("Overlay"@, '\n') && lacks("Overlay"@, ';') && lacks("Overlay"@, '#'),
        lower(trim("Patch"@)).len() > 0,
        lower(trim("FOV"@)).len() > 0,
        lower(trim("Overlay"@)).len() > 0,
{
    reveal_strlit("Patch");
    reveal_strlit("FOV");
    reveal_strlit("Overlay");
    lemma_file_section("Patch");
    lemma_file_section("FOV");
    lemma_file_section("Overlay");
}


proof fn lemma_bool_digit_value(b: bool)
    ensures
        plain_value(bool_digit(b)),
        spec_parse_bool(bool_digit(b)) == Some(b),
{
    reveal_strlit("1");
    reveal_strlit("0");
    reveal_strlit("true");
    reveal_strlit("yes");
    reveal_strlit("on");
    let d = bool_digit(b);
    lemma_trim_noop(d);
    assert(lower(d) =~= d);
}

proof fn lemma_digits_value(n: u64)
    ensures
        plain_value(decimal_digits(n as nat)),
        spec_parse_u64(decimal_digits(n as nat)) == Some(n),
{
    let d = decimal_digits(n as nat);
    lemma_decimal_roundtrip(n as nat);
    lemma_u64_decimal_parse_roundtrip(n);
    assert(is_ascii_digit(d[0]));
    assert(is_ascii_digit(d[d.len() - 1]));
}

/// Reading one more line of a run of lines.
proof fn lemma_read_step(lines: Seq<Seq<char>>, k: int)
    requires
        0 <= k < lines.len(),
    ensures
        spec_read_lines(lines.take(k + 1)) == spec_apply_line(
            spec_read_lines(lines.take(k)),
            (k + 1) as usize,
            lines[k],
        ),
{
    assert(lines.take(k + 1).drop_last() =~= lines.take(k));
    assert(lines.take(k + 1).last() == lines[k]);
}

proof fn lemma_file_lines_lack_newline(c: PatchConfig, m: Seq<char>)
    requires
        plain_value(m),
    ensures
        forall|i: int|
            0 <= i < config_file_lines(c, m).len() ==> lacks(
                #[trigger] config_file_lines(c, m)[i],
                '\n',
            ),
{
    let lines = config_file_lines(c, m);
    lemma_bool_digit_value(c.anti_tamper_enabled);
    lemma_bool_digit_value(c.dlc_car_dealer_fix_enabled);
    lemma_bool_digit_value(c.camera_fix_enabled);
    lemma_bool_digit_value(c.camera_shake_fix_enabled);
    lemma_bool_digit_value(c.fov_enabled);
    lemma_bool_digit_value(c.d3d9_overlay_enabled);
    lemma_digits_value(c.startup_delay_seconds);
    lemma_file_key_anti_tamper_enabled();
    lemma_file_key_dlc_car_dealer_fix_enabled();
    lemma_file_key_camera_fix_enabled();
    lemma_file_key_camera_shake_fix_enabled();
    lemma_file_key_startup_delay_seconds();
    lemma_file_key_enabled();
    lemma_file_key_multiplier();
    lemma_file_key_d3_d9_overlay_enabled();
    assert forall|i: int| 0 <= i < lines.len() implies lacks(#[trigger] lines[i], '\n') by {
        if 1 <= i <= 5 || i == 8 || i == 9 || i == 12 {
            let (k, v) = if i == 1 {
                ("AntiTamperEnabled"@, bool_digit(c.anti_tamper_enabled))
            } else if i == 2 {
                ("DlcCarDealerFixEnabled"@, bool_digit(c.dlc_car_dealer_fix_enabled))
            } else if i == 3 {
                ("CameraFixEnabled"@, bool_digit(c.camera_fix_enabled))
            } else if i == 4 {
                ("CameraShakeFixEnabled"@, bool_digit(c.camera_shake_fix_enabled))
            } else if i == 5 {
                ("StartupDelaySeconds"@, decimal_digits(c.startup_delay_seconds as nat))
            } else if i == 8 {
                ("Enabled"@, bool_digit(c.fov_enabled))
            } else if i == 9 {
                ("Multiplier"@, m)
            } else {
                ("D3D9OverlayEnabled"@, bool_digit(c.d3d9_overlay_enabled))
            };
            assert(lines[i] == setting_line(k, v));
            lemma_setting_line_lacks(k, v, '\n');
        } else if i == 0 {
            reveal_strlit("[Patch]");
        } else if i == 7 {
            reveal_strlit("[FOV]");
        } else if i == 11 {
            reveal_strlit("[Overlay]");
        } else {
            assert(lines[i] == Seq::<char>::empty());
        }
    }
}

proof fn lemma_setting_line_lacks(k: Seq<char>, v: Seq<char>, c: char)
    requires
        lacks(k, c),
        lacks(v, c),
        c != ' ' && c != '=',
    ensures
        lacks(setting_line(k, v), c),
{
    reveal_strlit(" = ");
    let l = setting_line(k, v);
    assert forall|j: int| 0 <= j < l.len() implies l[j] != c by {
        if j < k.len() {
            assert(l[j] == k[j]);
        } else if j >= k.len() + 3 {
            assert(l[j] == v[j - k.len() - 3]);
        }
    }
}

/// A section line of the file.
proof fn lemma_file_section_step(
    lines: Seq<Seq<char>>,
    k: int,
    name: Seq<char>,
    st: ConfigState,
)
    requires
        0 <= k < lines.len(),
        lines[k] == seq!['['] + name + seq![']'],
        lacks(name, ';'),
        lacks(name, '#'),
        spec_read_lines(lines.take(k)) == st,
    ensures
        spec_read_lines(lines.take(k + 1)) == (st.0, lower(trim(name)), st.2),
{
    lemma_read_step(lines, k);
    lemma_section_line(st, (k + 1) as usize, name);
}

/// A setting line of the file.
proof fn lemma_file_setting_step(
    lines: Seq<Seq<char>>,
    k: int,
    key: Seq<char>,
    value: Seq<char>,
    st: ConfigState,
)
    requires
        0 <= k < lines.len(),
        lines[k] == setting_line(key, value),
        plain_key(key),
        plain_value(value),
        spec_read_lines(lines.take(k)) == st,
    ensures
        spec_read_lines(lines.take(k + 1)) == spec_apply_setting(
            st,
            (k + 1) as usize,
            lower(key),
            value,
        ),
{
    lemma_read_step(lines, k);
    lemma_setting_line(st, (k + 1) as usize, key, value);
}

/// A bool setting line of the file.
proof fn lemma_file_bool_step(
    lines: Seq<Seq<char>>,
    k: int,
    key: Seq<char>,
    b: bool,
    st: ConfigState,
    which: ConfigKey,
)
    requires
        0 <= k < lines.len(),
        lines[k] == setting_line(key, bool_digit(b)),
        plain_key(key),
        spec_read_lines(lines.take(k)) == st,
        st.1.len() > 0,
        config_key_of(st.1 + seq!['.'] + lower(key)) == Some(which),
        which != ConfigKey::AntiTamperEnabled,
        which != ConfigKey::StartupDelaySeconds,
        which != ConfigKey::FovMultiplier,
    ensures
        spec_read_lines(lines.take(k + 1)) == (crate::config::with_bool(st.0, which, b), st.1, st.2),
{
    lemma_bool_digit_value(b);
    lemma_file_setting_step(lines, k, key, bool_digit(b), st);
    assert(st.2 + Seq::<ConfigNoticeView>::empty() =~= st.2);
}

/// The `[Patch]` section of the file.
proof fn lemma_file_patch_section(c: PatchConfig, m: Seq<char>)
    requires
        c.anti_tamper_enabled,
        plain_value(m),
    ensures
        spec_read_lines(config_file_lines(c, m).take(6)) == (
            PatchConfig {
                dlc_car_dealer_fix_enabled: c.dlc_car_dealer_fix_enabled,
                camera_fix_enabled: c.camera_fix_enabled,
                camera_shake_fix_enabled: c.camera_shake_fix_enabled,
                startup_delay_seconds: c.startup_delay_seconds,
                ..default_patch_config()
            },
            lower(trim("Patch"@)),
            Seq::<ConfigNoticeView>::empty(),
        ),
{
    let lines = config_file_lines(c, m);
    let d = default_patch_config();
    let none = Seq::<ConfigNoticeView>::empty();
    lemma_file_sections();
    assert(lines.take(0) =~= Seq::<Seq<char>>::empty());
    let s0 = (d, Seq::<char>::empty(), none);
    assert(spec_read_lines(lines.take(0)) == s0);
    reveal_strlit("[Patch]");
    reveal_strlit("Patch");
    assert("[Patch]"@ =~= seq!['['] + "Patch"@ + seq![']']);
    lemma_file_section_step(lines, 0, "Patch"@, s0);
    let patch = lower(trim("Patch"@));
    let s1 = (d, patch, none);
    lemma_file_key_anti_tamper_enabled();
    lemma_bool_digit_value(c.anti_tamper_enabled);
    lemma_file_setting_step(lines, 1, "AntiTamperEnabled"@, bool_digit(true), s1);
    assert(none + none =~= none);
    lemma_file_key_dlc_car_dealer_fix_enabled();
    lemma_file_bool_step(
        lines,
        2,
        "DlcCarDealerFixEnabled"@,
        c.dlc_car_dealer_fix_enabled,
        s1,
        ConfigKey::DlcCarDealerFixEnabled,
    );
    let c3 = PatchConfig { dlc_car_dealer_fix_enabled: c.dlc_car_dealer_fix_enabled, ..d };
    lemma_file_key_camera_fix_enabled();
    lemma_file_bool_step(
        lines,
        3,
        "CameraFixEnabled"@,
        c.camera_fix_enabled,
        (c3, patch, none),
        ConfigKey::CameraFixEnabled,
    );
    let c4 = PatchConfig { camera_fix_enabled: c.camera_fix_enabled, ..c3 };
    lemma_file_key_camera_shake_fix_enabled();
    lemma_file_bool_step(
        lines,
        4,
        "CameraShakeFixEnabled"@,
        c.camera_shake_fix_enabled,
        (c4, patch, none),
        ConfigKey::CameraShakeFixEnabled,
    );
    let c5 = PatchConfig { camera_shake_fix_enabled: c.camera_shake_fix_enabled, ..c4 };
    lemma_file_key_startup_delay_seconds();
    lemma_digits_value(c.startup_delay_seconds);
    lemma_file_setting_step(
        lines,
        5,
        "StartupDelaySeconds"@,
        decimal_digits(c.startup_delay_seconds as nat),
        (c5, patch, none),
    );
}

/// A configuration file written from settings reads back as those settings,
/// with the FOV multiplier's text handed back on line 10. (Written with the
/// anti-tamper patches off it would not: reading keeps them on.)
pub proof fn lemma_config_file_reads_back(c: PatchConfig, m: Seq<char>)
    requires
        c.anti_tamper_enabled,
        plain_value(m),
    ensures
        spec_parse_config(config_file_text(c, m)) == (
            c,
            seq![(10usize, ConfigKey::FovMultiplier, ConfigNoticeKind::FovMultiplierValue, m)],
        ),
{
    let lines = config_file_lines(c, m);
    let none = Seq::<ConfigNoticeView>::empty();
    lemma_file_lines_lack_newline(c, m);
    lemma_lines_of_join(lines);
    lemma_file_patch_section(c, m);
    lemma_file_sections();
    let c6 = PatchConfig {
        dlc_car_dealer_fix_enabled: c.dlc_car_dealer_fix_enabled,
        camera_fix_enabled: c.camera_fix_enabled,
        camera_shake_fix_enabled: c.camera_shake_fix_enabled,
        startup_delay_seconds: c.startup_delay_seconds,
        ..default_patch_config()
    };
    let patch = lower(trim("Patch"@));
    let s6 = (c6, patch, none);
    lemma_read_step(lines, 6);
    lemma_empty_line(s6, 7);
    reveal_strlit("[FOV]");
    reveal_strlit("FOV");
    assert("[FOV]"@ =~= seq!['['] + "FOV"@ + seq![']']);
    lemma_file_section_step(lines, 7, "FOV"@, s6);
    let fov = lower(trim("FOV"@));
    lemma_file_key_enabled();
    lemma_file_bool_step(lines, 8, "Enabled"@, c.fov_enabled, (c6, fov, none), ConfigKey::FovEnabled);
    let c9 = PatchConfig { fov_enabled: c.fov_enabled, ..c6 };
    lemma_file_key_multiplier();
    lemma_file_setting_step(lines, 9, "Multiplier"@, m, (c9, fov, none));
    let note = seq![(10usize, ConfigKey::FovMultiplier, ConfigNoticeKind::FovMultiplierValue, m)];
    assert(none + note =~= note);
    let s10 = (c9, fov, note);
    assert(spec_read_lines(lines.take(10)) == s10);
    lemma_read_step(lines, 10);
    lemma_empty_line(s10, 11);
    reveal_strlit("[Overlay]");
    reveal_strlit("Overlay");
    assert("[Overlay]"@ =~= seq!['['] + "Overlay"@ + seq![']']);
    lemma_file_section_step(lines, 11, "Overlay"@, s10);
    let overlay = lower(trim("Overlay"@));
    lemma_file_key_d3_d9_overlay_enabled();
    lemma_file_bool_step(
        lines,
        12,
        "D3D9OverlayEnabled"@,
        c.d3d9_overlay_enabled,
        (c9, overlay, note),
        ConfigKey::D3d9OverlayEnabled,
    );
    assert(lines.take(13) =~= lines);
}

/// The lines of the default configuration file.
spec fn default_file_lines() -> Seq<Seq<char>> {
    seq![
        "[Patch]"@,
        setting_line("AntiTamperEnabled"@, bool_digit(true)),
        setting_line("CameraFixEnabled"@, bool_digit(true)),
        setting_line("StartupDelaySeconds"@, decimal_digits(3)),
        Seq::empty(),
        "[FOV]"@,
        setting_line("Enabled"@, bool_digit(true)),
        setting_line("Multiplier"@, "1.2"@),
    ]
}

proof fn lemma_default_file_text_lines()
    ensures
        default_config_file_text() == join_lines(default_file_lines()),
        forall|i: int|
            0 <= i < default_file_lines().len() ==> lacks(#[trigger] default_file_lines()[i], '\n'),
        plain_value("1.2"@),
        decimal_digits(3) == "3"@,
{
    reveal_strlit("[Patch]\nAntiTamperEnabled = 1\nCameraFixEnabled = 1\nStartupDelaySeconds = 3\n\n[FOV]\nEnabled = 1\nMultiplier = 1.2\n");
    reveal_strlit("[Patch]");
    reveal_strlit("AntiTamperEnabled");
    reveal_strlit("CameraFixEnabled");
    reveal_strlit("StartupDelaySeconds");
    reveal_strlit("[FOV]");
    reveal_strlit("Enabled");
    reveal_strlit("Multiplier");
    reveal_strlit("1.2");
    reveal_strlit("1");
    reveal_strlit("3");
    reveal_strlit(" = ");
    assert(decimal_digits(3) =~= "3"@);
    let lines = default_file_lines();
    assert forall|i: int| 0 <= i < lines.len() implies lacks(#[trigger] lines[i], '\n') by {
        assert forall|j: int| 0 <= j < lines[i].len() implies lines[i][j] != '\n' by {}
    }
    reveal_with_fuel(join_lines, 9);
    assert(default_config_file_text() =~= join_lines(lines));
}

/// The configuration file written when there is none reads back as the
/// default settings, with `1.2` handed back as the FOV multiplier on line 8.
pub proof fn lemma_default_config_file_reads_back()
    ensures
        spec_parse_config(default_config_file_text()) == (
            default_patch_config(),
            seq![(8usize, ConfigKey::FovMultiplier, ConfigNoticeKind::FovMultiplierValue, "1.2"@)],
        ),
{
    let lines = default_file_lines();
    let d = default_patch_config();
    let none = Seq::<ConfigNoticeView>::empty();
    lemma_default_file_text_lines();
    lemma_lines_of_join(lines);
    lemma_file_sections();
    assert(lines.take(0) =~= Seq::<Seq<char>>::empty());
    let s0 = (d, Seq::<char>::empty(), none);
    reveal_strlit("[Patch]");
    reveal_strlit("Patch");
    assert("[Patch]"@ =~= seq!['['] + "Patch"@ + seq![']']);
    lemma_file_section_step(lines, 0, "Patch"@, s0);
    let patch = lower(trim("Patch"@));
    let s1 = (d, patch, none);
    lemma_file_key_anti_tamper_enabled();
    lemma_bool_digit_value(true);
    lemma_file_setting_step(lines, 1, "AntiTamperEnabled"@, bool_digit(true), s1);
    assert(none + none =~= none);
    lemma_file_key_camera_fix_enabled();
    lemma_file_bool_step(lines, 2, "CameraFixEnabled"@, true, s1, ConfigKey::CameraFixEnabled);
    assert(crate::config::with_bool(d, ConfigKey::CameraFixEnabled, true) == d);
    lemma_file_key_startup_delay_seconds();
    lemma_digits_value(3);
    lemma_file_setting_step(lines, 3, "StartupDelaySeconds"@, decimal_digits(3), s1);
    assert(spec_read_lines(lines.take(4)) == s1);
    lemma_read_step(lines, 4);
    lemma_empty_line(s1, 5);
    reveal_strlit("[FOV]");
    reveal_strlit("FOV");
    assert("[FOV]"@ =~= seq!['['] + "FOV"@ + seq![']']);
    lemma_file_section_step(lines, 5, "FOV"@, s1);
    let fov = lower(trim("FOV"@));
    lemma_file_key_enabled();
    lemma_file_bool_step(lines, 6, "Enabled"@, true, (d, fov, none), ConfigKey::FovEnabled);
    assert(crate::config::with_bool(d, ConfigKey::FovEnabled, true) == d);
    lemma_file_key_multiplier();
    lemma_file_setting_step(lines, 7, "Multiplier"@, "1.2"@, (d, fov, none));
    let note = seq![(8usize, ConfigKey::FovMultiplier, ConfigNoticeKind::FovMultiplierValue, "1.2"@)];
    assert(none + note =~= note);
    assert(lines.take(8) =~= lines);
}

/// A later line wins, for any text: appending a newline, `[section]` and
/// `key = value` sets the setting that the section and key name to the
/// value, and keeps every other setting the text gave.
pub proof fn lemma_later_setting_wins(
    c: Seq<char>,
    section: Seq<char>,
    key: Seq<char>,
    value: Seq<char>,
)
    requires
        lacks(section, '\n'),
        lacks(section, ';'),
        lacks(section, '#'),
        lower(trim(section)).len() > 0,
        plain_key(key),
        plain_value(value),
    ensures
        ({
            let before = spec_parse_config(c);
            let full = lower(trim(section)) + seq!['.'] + lower(key);
            let after = spec_parse_config(
                c + seq!['\n'] + join_lines(seq![seq!['['] + section + seq![']'], setting_line(key, value)]),
            );
            let line = (spec_lines(c + seq!['\n']).len() + 2) as usize;
            match config_key_of(full) {
                None => after == before,
                Some(k) => {
                    let (cfg, notes) = crate::config::spec_assign(before.0, k, value, line);
                    after == (cfg, before.1 + notes)
                },
            }
        }),
{
    let t = c + seq!['\n'];
    let tail = join_lines(seq![seq!['['] + section + seq![']'], setting_line(key, value)]);
    assert(c + seq!['\n'] + tail =~= t + tail);
    assert(ends_a_line(t));
    lemma_read_newline(c);
    lemma_appended_setting_overrides(t, section, key, value);
}

} // verus!
