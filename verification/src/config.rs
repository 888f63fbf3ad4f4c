//! The `tdu2-runtime-patch.ini` configuration: an INI dialect with `;` and
//! `#` comments, `[section]` headers and `key = value` lines.
use vstd::prelude::*;
use vstd::string::*;

use crate::text::{
    chars_eq_str, decimal_digits, find_char, join_line_chars, join_lines, lines_view, lower,
    lower_range, parse_u64_range, prefix_before, push_decimal, push_str, spec_parse_u64,
    str_to_chars, string_from_chars, trim, trim_range,
};

verus! {

/// Seconds the patch thread waits before touching the game by default.
pub const DEFAULT_STARTUP_DELAY_SECONDS: u64 = 3;

/// The settings read from the configuration file. The FOV multiplier, a
/// floating-point value, is not held here: every `Multiplier` line is handed
/// back as a [`ConfigNotice`] of kind [`ConfigNoticeKind::FovMultiplierValue`].
#[derive(Clone, Copy, Debug, PartialEq, Eq, Structural)]
pub struct PatchConfig {
    pub anti_tamper_enabled: bool,
    pub camera_fix_enabled: bool,
    pub camera_shake_fix_enabled: bool,
    pub dlc_car_dealer_fix_enabled: bool,
    pub startup_delay_seconds: u64,
    pub fov_enabled: bool,
    pub d3d9_overlay_enabled: bool,
}

pub open spec fn default_patch_config() -> PatchConfig {
    PatchConfig {
        anti_tamper_enabled: true,
        camera_fix_enabled: true,
        camera_shake_fix_enabled: true,
        dlc_car_dealer_fix_enabled: true,
        startup_delay_seconds: DEFAULT_STARTUP_DELAY_SECONDS,
        fov_enabled: true,
        d3d9_overlay_enabled: false,
    }
}

impl Default for PatchConfig {
    fn default() -> (c: PatchConfig)
        ensures
            c == default_patch_config(),
    {
        PatchConfig {
            anti_tamper_enabled: true,
            camera_fix_enabled: true,
            camera_shake_fix_enabled: true,
            dlc_car_dealer_fix_enabled: true,
            startup_delay_seconds: DEFAULT_STARTUP_DELAY_SECONDS,
            fov_enabled: true,
            d3d9_overlay_enabled: false,
        }
    }
}

/// The settings that the configuration file can name.
#[derive(Clone, Copy, Debug, PartialEq, Eq, Structural)]
pub enum ConfigKey {
    AntiTamperEnabled,
    CameraFixEnabled,
    CameraShakeFixEnabled,
    DlcCarDealerFixEnabled,
    StartupDelaySeconds,
    FovEnabled,
    FovMultiplier,
    D3d9OverlayEnabled,
}

/// How messages about a setting name it.
pub open spec fn spec_config_key_name(k: ConfigKey) -> Seq<char> {
    match k {
        ConfigKey::AntiTamperEnabled => "AntiTamperEnabled"@,
        ConfigKey::CameraFixEnabled => "CameraFixEnabled"@,
        ConfigKey::CameraShakeFixEnabled => "CameraShakeFixEnabled"@,
        ConfigKey::DlcCarDealerFixEnabled => "DlcCarDealerFixEnabled"@,
        ConfigKey::StartupDelaySeconds => "StartupDelaySeconds"@,
        ConfigKey::FovEnabled => "FOV enabled"@,
        ConfigKey::FovMultiplier => "FOV multiplier"@,
        ConfigKey::D3d9OverlayEnabled => "D3D9OverlayEnabled"@,
    }
}

/// The name of a setting in messages about it.
pub fn config_key_name(k: ConfigKey) -> (r: &'static str)
    ensures
        r@ == spec_config_key_name(k),
{
    match k {
        ConfigKey::AntiTamperEnabled => "AntiTamperEnabled",
        ConfigKey::CameraFixEnabled => "CameraFixEnabled",
        ConfigKey::CameraShakeFixEnabled => "CameraShakeFixEnabled",
        ConfigKey::DlcCarDealerFixEnabled => "DlcCarDealerFixEnabled",
        ConfigKey::StartupDelaySeconds => "StartupDelaySeconds",
        ConfigKey::FovEnabled => "FOV enabled",
        ConfigKey::FovMultiplier => "FOV multiplier",
        ConfigKey::D3d9OverlayEnabled => "D3D9OverlayEnabled",
    }
}

/// What a recognised line left for the caller to report or finish.
#[derive(Clone, Copy, Debug, PartialEq, Eq, Structural)]
pub enum ConfigNoticeKind {
    /// The value is not one of the accepted boolean words.
    InvalidBool,
    /// The value is not a decimal `u64`.
    InvalidInteger,
    /// `AntiTamperEnabled` was set to false; the setting stays on.
    AntiTamperForced,
    /// The raw text of an FOV multiplier, for the caller to parse as a float.
    FovMultiplierValue,
}

/// A line of the file that the caller has to act on, by its 1-based number.
#[derive(Debug)]
pub struct ConfigNotice {
    pub line: usize,
    pub key: ConfigKey,
    pub kind: ConfigNoticeKind,
    pub value: String,
}

pub type ConfigNoticeView = (usize, ConfigKey, ConfigNoticeKind, Seq<char>);

impl View for ConfigNotice {
    type V = ConfigNoticeView;

    open spec fn view(&self) -> ConfigNoticeView {
        (self.line, self.key, self.kind, self.value@)
    }
}

/// The result of reading a configuration file.
#[derive(Debug)]
pub struct ParsedConfig {
    pub config: PatchConfig,
    pub notices: Vec<ConfigNotice>,
}

pub open spec fn notices_view(notices: Seq<ConfigNotice>) -> Seq<ConfigNoticeView> {
    notices.map_values(|n: ConfigNotice| n@)
}

// ---------------------------------------------------------------------------
// The format
// ---------------------------------------------------------------------------

/// The boolean words, compared after trimming and ASCII lower-casing:
/// `1/true/yes/on` and `0/false/no/off`.
pub open spec fn spec_parse_bool(raw: Seq<char>) -> Option<bool> {
    let t = lower(trim(raw));
    if t == "1"@ || t == "true"@ || t == "yes"@ || t == "on"@ {
        Some(true)
    } else if t == "0"@ || t == "false"@ || t == "no"@ || t == "off"@ {
        Some(false)
    } else {
        None
    }
}

/// The setting that a lower-cased key, prefixed by its section and a dot when
/// it stands in one, names.
pub open spec fn config_key_of(full: Seq<char>) -> Option<ConfigKey> {
    if full == "patch.antitamperenabled"@ || full == "antitamperenabled"@ {
        Some(ConfigKey::AntiTamperEnabled)
    } else if full == "patch.camerafixenabled"@ || full == "camerafixenabled"@ {
        Some(ConfigKey::CameraFixEnabled)
    } else if full == "patch.camerashakefixenabled"@ || full == "camerashakefixenabled"@ {
        Some(ConfigKey::CameraShakeFixEnabled)
    } else if full == "patch.dlccardealerfixenabled"@ || full == "dlccardealerfixenabled"@ {
        Some(ConfigKey::DlcCarDealerFixEnabled)
    } else if full == "patch.startupdelayseconds"@ || full == "startupdelayseconds"@ {
        Some(ConfigKey::StartupDelaySeconds)
    } else if full == "fov.multiplier"@ || full == "fov.mult"@ || full == "fovmultiplier"@ || full
        == "patch.fovmultiplier"@ {
        Some(ConfigKey::FovMultiplier)
    } else if full == "fov.enabled"@ || full == "fovenabled"@ || full == "patch.fovenabled"@ {
        Some(ConfigKey::FovEnabled)
    } else if full == "overlay.d3d9overlayenabled"@ || full == "d3d9overlayenabled"@ {
        Some(ConfigKey::D3d9OverlayEnabled)
    } else {
        None
    }
}

/// The lines of a text: the runs of characters between `\n` separators, a
/// final `\n` closing the last line rather than opening an empty one.
pub open spec fn spec_lines(s: Seq<char>) -> Seq<Seq<char>>
    decreases s.len(),
{
    if s.len() == 0 {
        Seq::empty()
    } else {
        let l = prefix_before(s, '\n');
        if l.len() >= s.len() {
            seq![l]
        } else {
            seq![l] + spec_lines(s.skip(l.len() as int + 1))
        }
    }
}

/// A line without its `;` comment, then its `#` comment, then trimmed.
pub open spec fn clean_line(raw: Seq<char>) -> Seq<char> {
    trim(prefix_before(prefix_before(raw, ';'), '#'))
}

pub open spec fn is_section_header(line: Seq<char>) -> bool {
    line.len() > 0 && line[0] == '[' && line.last() == ']'
}

/// A bool setting with `b` stored in it.
pub open spec fn with_bool(c: PatchConfig, k: ConfigKey, b: bool) -> PatchConfig {
    match k {
        ConfigKey::CameraFixEnabled => PatchConfig { camera_fix_enabled: b, ..c },
        ConfigKey::CameraShakeFixEnabled => PatchConfig { camera_shake_fix_enabled: b, ..c },
        ConfigKey::DlcCarDealerFixEnabled => PatchConfig { dlc_car_dealer_fix_enabled: b, ..c },
        ConfigKey::FovEnabled => PatchConfig { fov_enabled: b, ..c },
        ConfigKey::D3d9OverlayEnabled => PatchConfig { d3d9_overlay_enabled: b, ..c },
        _ => c,
    }
}

/// The effect of `key = value` on line `line` of the file.
pub open spec fn spec_assign(c: PatchConfig, k: ConfigKey, value: Seq<char>, line: usize) -> (
    PatchConfig,
    Seq<ConfigNoticeView>,
) {
    match k {
        ConfigKey::StartupDelaySeconds => match spec_parse_u64(value) {
            Some(n) => (PatchConfig { startup_delay_seconds: n, ..c }, Seq::empty()),
            None => (c, seq![(line, k, ConfigNoticeKind::InvalidInteger, value)]),
        },
        ConfigKey::FovMultiplier => (
            c,
            seq![(line, k, ConfigNoticeKind::FovMultiplierValue, value)],
        ),
        ConfigKey::AntiTamperEnabled => match spec_parse_bool(value) {
            Some(true) => (c, Seq::empty()),
            Some(false) => (c, seq![(line, k, ConfigNoticeKind::AntiTamperForced, value)]),
            None => (c, seq![(line, k, ConfigNoticeKind::InvalidBool, value)]),
        },
        _ => match spec_parse_bool(value) {
            Some(b) => (with_bool(c, k, b), Seq::empty()),
            None => (c, seq![(line, k, ConfigNoticeKind::InvalidBool, value)]),
        },
    }
}

/// The reader's state: the settings so far, the current section and the
/// notices so far.
pub type ConfigState = (PatchConfig, Seq<char>, Seq<ConfigNoticeView>);

/// The effect of `key = value` (the key lower-cased) in the current section.
pub open spec fn spec_apply_setting(st: ConfigState, line: usize, key: Seq<char>, value: Seq<char>) -> ConfigState {
    let full = if st.1.len() == 0 {
        key
    } else {
        st.1 + seq!['.'] + key
    };
    match config_key_of(full) {
        None => st,
        Some(k) => {
            let (c, n) = spec_assign(st.0, k, value, line);
            (c, st.1, st.2 + n)
        },
    }
}

/// The effect of one raw line, numbered `line` from 1.
pub open spec fn spec_apply_line(st: ConfigState, line: usize, raw: Seq<char>) -> ConfigState {
    let l = clean_line(raw);
    if l.len() == 0 {
        st
    } else if is_section_header(l) {
        (st.0, lower(trim(l.subrange(1, l.len() - 1))), st.2)
    } else {
        let key_part = prefix_before(l, '=');
        if key_part.len() >= l.len() {
            st
        } else {
            spec_apply_setting(
                st,
                line,
                lower(trim(key_part)),
                trim(l.skip(key_part.len() as int + 1)),
            )
        }
    }
}

/// The state after the given lines, from the defaults and no section.
pub open spec fn spec_read_lines(lines: Seq<Seq<char>>) -> ConfigState
    decreases lines.len(),
{
    if lines.len() == 0 {
        (default_patch_config(), Seq::empty(), Seq::empty())
    } else {
        spec_apply_line(
            spec_read_lines(lines.drop_last()),
            lines.len() as usize,
            lines.last(),
        )
    }
}

/// The settings and notices that a configuration text gives.
pub open spec fn spec_parse_config(content: Seq<char>) -> (PatchConfig, Seq<ConfigNoticeView>) {
    let st = spec_read_lines(spec_lines(content));
    (st.0, st.2)
}

// ---------------------------------------------------------------------------
// Reading
// ---------------------------------------------------------------------------

/// Parses a boolean word, ignoring surrounding white space and ASCII case.
pub fn parse_bool(raw: &str) -> (r: Option<bool>)
    ensures
        r == spec_parse_bool(raw@),
{
    let v = str_to_chars(raw);
    let r = parse_bool_range(&v, 0, v.len());
    assert(v@.subrange(0, v@.len() as int) =~= raw@);
    r
}

fn parse_bool_range(v: &Vec<char>, start: usize, end: usize) -> (r: Option<bool>)
    requires
        start <= end <= v.len(),
    ensures
        r == spec_parse_bool(v@.subrange(start as int, end as int)),
{
    let (a, b) = trim_range(v, start, end);
    let t = lower_range(v, a, b);
    if chars_eq_str(&t, "1") || chars_eq_str(&t, "true") || chars_eq_str(&t, "yes")
        || chars_eq_str(&t, "on") {
        Some(true)
    } else if chars_eq_str(&t, "0") || chars_eq_str(&t, "false") || chars_eq_str(&t, "no")
        || chars_eq_str(&t, "off") {
        Some(false)
    } else {
        None
    }
}

/// The setting that a full, lower-cased key names.
pub fn classify_config_key(full: &Vec<char>) -> (k: Option<ConfigKey>)
    ensures
        k == config_key_of(full@),
{
    if chars_eq_str(full, "patch.antitamperenabled") || chars_eq_str(full, "antitamperenabled") {
        Some(ConfigKey::AntiTamperEnabled)
    } else if chars_eq_str(full, "patch.camerafixenabled") || chars_eq_str(
        full,
        "camerafixenabled",
    ) {
        Some(ConfigKey::CameraFixEnabled)
    } else if chars_eq_str(full, "patch.camerashakefixenabled") || chars_eq_str(
        full,
        "camerashakefixenabled",
    ) {
        Some(ConfigKey::CameraShakeFixEnabled)
    } else if chars_eq_str(full, "patch.dlccardealerfixenabled") || chars_eq_str(
        full,
        "dlccardealerfixenabled",
    ) {
        Some(ConfigKey::DlcCarDealerFixEnabled)
    } else if chars_eq_str(full, "patch.startupdelayseconds") || chars_eq_str(
        full,
        "startupdelayseconds",
    ) {
        Some(ConfigKey::StartupDelaySeconds)
    } else if chars_eq_str(full, "fov.multiplier") || chars_eq_str(full, "fov.mult")
        || chars_eq_str(full, "fovmultiplier") || chars_eq_str(full, "patch.fovmultiplier") {
        Some(ConfigKey::FovMultiplier)
    } else if chars_eq_str(full, "fov.enabled") || chars_eq_str(full, "fovenabled")
        || chars_eq_str(full, "patch.fovenabled") {
        Some(ConfigKey::FovEnabled)
    } else if chars_eq_str(full, "overlay.d3d9overlayenabled") || chars_eq_str(
        full,
        "d3d9overlayenabled",
    ) {
        Some(ConfigKey::D3d9OverlayEnabled)
    } else {
        None
    }
}

struct Reader {
    config: PatchConfig,
    section: Vec<char>,
    notices: Vec<ConfigNotice>,
}

impl Reader {
    spec fn state(&self) -> ConfigState {
        (self.config, self.section@, notices_view(self.notices@))
    }
}

/// `section.key`, or `key` outside any section.
fn full_key(section: &Vec<char>, key: &Vec<char>) -> (r: Vec<char>)
    ensures
        r@ == (if section@.len() == 0 {
            key@
        } else {
            section@ + seq!['.'] + key@
        }),
{
    let mut r: Vec<char> = Vec::new();
    if section.len() > 0 {
        let mut i: usize = 0;
        while i < section.len()
            invariant
                i <= section.len(),
                r@ == section@.take(i as int),
            decreases section.len() - i,
        {
            r.push(section[i]);
            assert(section@.take(i + 1) =~= section@.take(i as int).push(section@[i as int]));
            i = i + 1;
        }
        r.push('.');
    }
    let ghost base = r@;
    let mut j: usize = 0;
    while j < key.len()
        invariant
            j <= key.len(),
            r@ == base + key@.take(j as int),
        decreases key.len() - j,
    {
        r.push(key[j]);
        assert(key@.take(j + 1) =~= key@.take(j as int).push(key@[j as int]));
        j = j + 1;
    }
    assert(key@.take(j as int) =~= key@);
    if section.len() > 0 {
        assert(section@.take(section@.len() as int) =~= section@);
    } else {
        assert(base =~= Seq::<char>::empty());
    }
    assert(r@ =~= (if section@.len() == 0 {
        key@
    } else {
        section@ + seq!['.'] + key@
    }));
    r
}

fn push_notice(
    notices: &mut Vec<ConfigNotice>,
    line: usize,
    key: ConfigKey,
    kind: ConfigNoticeKind,
    content: &str,
    v: &Vec<char>,
    va: usize,
    vb: usize,
)
    requires
        v@ == content@,
        va <= vb <= v.len(),
    ensures
        notices_view(final(notices)@) == notices_view(old(notices)@).push(
            (line, key, kind, v@.subrange(va as int, vb as int)),
        ),
{
    let value = content.substring_char(va, vb).to_owned();
    notices.push(ConfigNotice { line, key, kind, value });
    assert(notices_view(final(notices)@) =~= notices_view(old(notices)@).push(
        (line, key, kind, v@.subrange(va as int, vb as int)),
    ));
}

impl Reader {
    fn assign(
        &mut self,
        k: ConfigKey,
        content: &str,
        v: &Vec<char>,
        va: usize,
        vb: usize,
        line: usize,
    )
        requires
            v@ == content@,
            va <= vb <= v.len(),
        ensures
            ({
                let (c, n) = spec_assign(
                    old(self).config,
                    k,
                    v@.subrange(va as int, vb as int),
                    line,
                );
                final(self).state() == (c, old(self).section@, notices_view(old(self).notices@)
                    + n)
            }),
    {
        let ghost value = v@.subrange(va as int, vb as int);
        let ghost before = notices_view(self.notices@);
        match k {
            ConfigKey::StartupDelaySeconds => {
                match parse_u64_range(v, va, vb) {
                    Some(n) => {
                        self.config.startup_delay_seconds = n;
                        assert(before + Seq::<ConfigNoticeView>::empty() =~= before);
                    },
                    None => {
                        push_notice(
                            &mut self.notices,
                            line,
                            k,
                            ConfigNoticeKind::InvalidInteger,
                            content,
                            v,
                            va,
                            vb,
                        );
                        assert(before.push((line, k, ConfigNoticeKind::InvalidInteger, value))
                            =~= before + seq![(line, k, ConfigNoticeKind::InvalidInteger, value)]);
                    },
                }
            },
            ConfigKey::FovMultiplier => {
                push_notice(
                    &mut self.notices,
                    line,
                    k,
                    ConfigNoticeKind::FovMultiplierValue,
                    content,
                    v,
                    va,
                    vb,
                );
                assert(before.push((line, k, ConfigNoticeKind::FovMultiplierValue, value)) =~= before
                    + seq![(line, k, ConfigNoticeKind::FovMultiplierValue, value)]);
            },
            ConfigKey::AntiTamperEnabled => {
                match parse_bool_range(v, va, vb) {
                    Some(true) => {
                        assert(before + Seq::<ConfigNoticeView>::empty() =~= before);
                    },
                    Some(false) => {
                        push_notice(
                            &mut self.notices,
                            line,
                            k,
                            ConfigNoticeKind::AntiTamperForced,
                            content,
                            v,
                            va,
                            vb,
                        );
                        assert(before.push((line, k, ConfigNoticeKind::AntiTamperForced, value))
                            =~= before + seq![
                            (line, k, ConfigNoticeKind::AntiTamperForced, value),
                        ]);
                    },
                    None => {
                        push_notice(
                            &mut self.notices,
                            line,
                            k,
                            ConfigNoticeKind::InvalidBool,
                            content,
                            v,
                            va,
                            vb,
                        );
                        assert(before.push((line, k, ConfigNoticeKind::InvalidBool, value))
                            =~= before + seq![(line, k, ConfigNoticeKind::InvalidBool, value)]);
                    },
                }
            },
            _ => {
                match parse_bool_range(v, va, vb) {
                    Some(b) => {
                        match k {
                            ConfigKey::CameraFixEnabled => {
                                self.config.camera_fix_enabled = b;
                            },
                            ConfigKey::CameraShakeFixEnabled => {
                                self.config.camera_shake_fix_enabled = b;
                            },
                            ConfigKey::DlcCarDealerFixEnabled => {
                                self.config.dlc_car_dealer_fix_enabled = b;
                            },
                            ConfigKey::FovEnabled => {
                                self.config.fov_enabled = b;
                            },
                            _ => {
                                self.config.d3d9_overlay_enabled = b;
                            },
                        }
                        assert(before + Seq::<ConfigNoticeView>::empty() =~= before);
                    },
                    None => {
                        push_notice(
                            &mut self.notices,
                            line,
                            k,
                            ConfigNoticeKind::InvalidBool,
                            content,
                            v,
                            va,
                            vb,
                        );
                        assert(before.push((line, k, ConfigNoticeKind::InvalidBool, value))
                            =~= before + seq![(line, k, ConfigNoticeKind::InvalidBool, value)]);
                    },
                }
            },
        }
    }

    /// Applies the raw line `v[start..end]`, numbered `line`.
    fn apply_line(
        &mut self,
        content: &str,
        v: &Vec<char>,
        start: usize,
        end: usize,
        line: usize,
    )
        requires
            v@ == content@,
            start <= end <= v.len(),
        ensures
            final(self).state() == spec_apply_line(
                old(self).state(),
                line,
                v@.subrange(start as int, end as int),
            ),
    {
        let ghost raw = v@.subrange(start as int, end as int);
        let semi = find_char(v, start, end, ';');
        let hash = find_char(v, start, semi, '#');
        let (a, b) = trim_range(v, start, hash);
        let ghost l = v@.subrange(a as int, b as int);
        assert(clean_line(raw) == l);
        if a == b {
            return;
        }
        if v[a] == '[' && v[b - 1] == ']' {
            assert(is_section_header(l));
            let (sa, sb) = trim_range(v, a + 1, b - 1);
            assert(l.subrange(1, l.len() - 1) =~= v@.subrange(a + 1, b - 1));
            self.section = lower_range(v, sa, sb);
            return;
        }
        assert(!is_section_header(l));
        let eq = find_char(v, a, b, '=');
        if eq == b {
            return;
        }
        let (ka, kb) = trim_range(v, a, eq);
        let key = lower_range(v, ka, kb);
        let (va, vb) = trim_range(v, eq + 1, b);
        assert(l.skip(eq - a + 1) =~= v@.subrange(eq + 1, b as int));
        let full = full_key(&self.section, &key);
        match classify_config_key(&full) {
            None => {},
            Some(k) => {
                self.assign(k, content, v, va, vb, line);
            },
        }
    }
}

/// Reads a configuration text: the settings, starting from the defaults, and
/// in file order the lines that need reporting or a float parse.
/// `AntiTamperEnabled` stays on whatever the text says.
pub fn parse_patch_config(content: &str) -> (r: ParsedConfig)
    ensures
        (r.config, notices_view(r.notices@)) == spec_parse_config(content@),
        r.config.anti_tamper_enabled,
{
    let v = str_to_chars(content);
    let mut reader = Reader {
        config: PatchConfig::default(),
        section: Vec::new(),
        notices: Vec::new(),
    };
    let ghost mut done: Seq<Seq<char>> = Seq::empty();
    let mut pos: usize = 0;
    let mut line_no: usize = 0;
    assert(v@.skip(0) =~= v@);
    assert(notices_view(reader.notices@) =~= Seq::<ConfigNoticeView>::empty());
    while pos < v.len()
        invariant
            v@ == content@,
            pos <= v.len(),
            line_no <= pos,
            line_no == done.len(),
            spec_lines(v@) == done + spec_lines(v@.skip(pos as int)),
            reader.state() == spec_read_lines(done),
        decreases v.len() - pos,
    {
        let e = find_char(&v, pos, v.len(), '\n');
        let ghost s = v@.skip(pos as int);
        assert(s =~= v@.subrange(pos as int, v.len() as int));
        let ghost l = v@.subrange(pos as int, e as int);
        assert(prefix_before(s, '\n') == l);
        line_no = line_no + 1;
        reader.apply_line(content, &v, pos, e, line_no);
        proof {
            let next = done.push(l);
            assert(next.drop_last() =~= done);
            done = next;
        }
        if e < v.len() {
            assert(s.skip(l.len() as int + 1) =~= v@.skip(e + 1));
            assert(spec_lines(s) == seq![l] + spec_lines(v@.skip(e + 1)));
            pos = e + 1;
        } else {
            assert(spec_lines(s) == seq![l]);
            assert(v@.skip(v.len() as int) =~= Seq::<char>::empty());
            pos = v.len();
        }
        assert(spec_lines(v@) =~= done + spec_lines(v@.skip(pos as int)));
    }
    assert(v@.skip(pos as int) =~= Seq::<char>::empty());
    assert(spec_lines(v@) =~= done);
    proof {
        lemma_read_keeps_anti_tamper(done);
    }
    ParsedConfig { config: reader.config, notices: reader.notices }
}

/// No line of any text turns the anti-tamper patches off.
pub proof fn lemma_read_keeps_anti_tamper(lines: Seq<Seq<char>>)
    ensures
        spec_read_lines(lines).0.anti_tamper_enabled,
    decreases lines.len(),
{
    if lines.len() > 0 {
        lemma_read_keeps_anti_tamper(lines.drop_last());
    }
}

// ---------------------------------------------------------------------------
// Writing
// ---------------------------------------------------------------------------

/// `1` or `0`.
pub open spec fn bool_digit(b: bool) -> Seq<char> {
    if b {
        "1"@
    } else {
        "0"@
    }
}

/// A `key = value` line.
pub open spec fn setting_line(key: Seq<char>, value: Seq<char>) -> Seq<char> {
    key + " = "@ + value
}

/// The lines of the configuration file that holds `c`, with `multiplier` as
/// the text of the FOV multiplier.
pub open spec fn config_file_lines(c: PatchConfig, multiplier: Seq<char>) -> Seq<Seq<char>> {
    seq![
        "[Patch]"@,
        setting_line("AntiTamperEnabled"@, bool_digit(c.anti_tamper_enabled)),
        setting_line("DlcCarDealerFixEnabled"@, bool_digit(c.dlc_car_dealer_fix_enabled)),
        setting_line("CameraFixEnabled"@, bool_digit(c.camera_fix_enabled)),
        setting_line("CameraShakeFixEnabled"@, bool_digit(c.camera_shake_fix_enabled)),
        setting_line("StartupDelaySeconds"@, decimal_digits(c.startup_delay_seconds as nat)),
        Seq::empty(),
        "[FOV]"@,
        setting_line("Enabled"@, bool_digit(c.fov_enabled)),
        setting_line("Multiplier"@, multiplier),
        Seq::empty(),
        "[Overlay]"@,
        setting_line("D3D9OverlayEnabled"@, bool_digit(c.d3d9_overlay_enabled)),
    ]
}

/// The text of that file: each line followed by a newline.
pub open spec fn config_file_text(c: PatchConfig, multiplier: Seq<char>) -> Seq<char> {
    join_lines(config_file_lines(c, multiplier))
}

/// The text of the configuration file written when there is none: the
/// `[Patch]` and `[FOV]` settings at their defaults, the multiplier as `1.2`.
pub open spec fn default_config_file_text() -> Seq<char> {
    "[Patch]\nAntiTamperEnabled = 1\nCameraFixEnabled = 1\nStartupDelaySeconds = 3\n\n[FOV]\nEnabled = 1\nMultiplier = 1.2\n"@
}

/// The text of the configuration file written when there is none.
pub fn default_config_file() -> (r: String)
    ensures
        r@ == default_config_file_text(),
{
    "[Patch]\nAntiTamperEnabled = 1\nCameraFixEnabled = 1\nStartupDelaySeconds = 3\n\n[FOV]\nEnabled = 1\nMultiplier = 1.2\n".to_owned()
}

fn push_bool_digit(b: bool, out: &mut Vec<char>)
    ensures
        final(out)@ == old(out)@ + bool_digit(b),
{
    if b {
        push_str("1", out);
    } else {
        push_str("0", out);
    }
}

fn setting_line_chars(key: &str, value: Vec<char>) -> (r: Vec<char>)
    ensures
        r@ == setting_line(key@, value@),
{
    let mut out: Vec<char> = Vec::new();
    push_str(key, &mut out);
    push_str(" = ", &mut out);
    let mut i: usize = 0;
    while i < value.len()
        invariant
            i <= value.len(),
            out@ == key@ + " = "@ + value@.take(i as int),
        decreases value.len() - i,
    {
        out.push(value[i]);
        assert(value@.take(i + 1) =~= value@.take(i as int).push(value@[i as int]));
        i = i + 1;
    }
    assert(value@.take(i as int) =~= value@);
    out
}

fn bool_digit_chars(b: bool) -> (r: Vec<char>)
    ensures
        r@ == bool_digit(b),
{
    let mut out: Vec<char> = Vec::new();
    push_bool_digit(b, &mut out);
    assert(out@ =~= bool_digit(b));
    out
}

fn line_chars(s: &str) -> (r: Vec<char>)
    ensures
        r@ == s@,
{
    str_to_chars(s)
}

/// The text of a configuration file holding `config`; `multiplier` is the
/// FOV multiplier as it is to appear (the default file writes `1.2`).
pub fn render_config_file(config: &PatchConfig, multiplier: &str) -> (r: String)
    ensures
        r@ == config_file_text(*config, multiplier@),
{
    let mut digits: Vec<char> = Vec::new();
    push_decimal(config.startup_delay_seconds, &mut digits);
    assert(digits@ =~= decimal_digits(config.startup_delay_seconds as nat));
    let mut lines: Vec<Vec<char>> = Vec::new();
    lines.push(line_chars("[Patch]"));
    lines.push(setting_line_chars("AntiTamperEnabled", bool_digit_chars(config.anti_tamper_enabled)));
    lines.push(
        setting_line_chars(
            "DlcCarDealerFixEnabled",
            bool_digit_chars(config.dlc_car_dealer_fix_enabled),
        ),
    );
    lines.push(setting_line_chars("CameraFixEnabled", bool_digit_chars(config.camera_fix_enabled)));
    lines.push(
        setting_line_chars(
            "CameraShakeFixEnabled",
            bool_digit_chars(config.camera_shake_fix_enabled),
        ),
    );
    lines.push(setting_line_chars("StartupDelaySeconds", digits));
    lines.push(Vec::new());
    lines.push(line_chars("[FOV]"));
    lines.push(setting_line_chars("Enabled", bool_digit_chars(config.fov_enabled)));
    lines.push(setting_line_chars("Multiplier", str_to_chars(multiplier)));
    lines.push(Vec::new());
    lines.push(line_chars("[Overlay]"));
    lines.push(
        setting_line_chars("D3D9OverlayEnabled", bool_digit_chars(config.d3d9_overlay_enabled)),
    );
    assert(lines_view(lines@) =~= config_file_lines(*config, multiplier@));
    let out = join_line_chars(&lines);
    string_from_chars(&out)
}

} // verus!
