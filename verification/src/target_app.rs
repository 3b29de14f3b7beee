//! Focused-window classification: decides whether text goes into a terminal
//! (which needs the terminal paste shortcut) or into an ordinary application.

use vstd::prelude::*;

use crate::text::{
    ascii_lower, chars_eq_ignore_ascii_case, chars_eq_str, chars_of, is_ascii_alnum,
    is_ascii_alphanumeric, string_from_chars, to_ascii_lower, trim_bounds, trim_seq,
};

verus! {

/// Snapshot of the currently focused top-level window, as reported by a desktop
/// integration such as KWin.
#[derive(Clone, Debug, Default, PartialEq, Eq)]
pub struct ActiveWindowInfo {
    pub caption: String,
    pub resource_class: String,
    pub resource_name: String,
    pub desktop_file: String,
    pub role: String,
    pub pid: u32,
}

/// Effective paste target for shortcut selection.
#[derive(Clone, Copy, Debug, PartialEq, Eq)]
pub enum PasteTarget {
    Standard,
    Terminal,
}

/// The paste-mode name of a target.
pub open spec fn paste_mode_name(t: PasteTarget) -> Seq<char> {
    match t {
        PasteTarget::Standard => "standard"@,
        PasteTarget::Terminal => "terminal"@,
    }
}

impl PasteTarget {
    /// The paste mode that this target calls for.
    pub fn paste_mode(self) -> (r: &'static str)
        ensures
            r@ == paste_mode_name(self),
    {
        match self {
            PasteTarget::Standard => "standard",
            PasteTarget::Terminal => "terminal",
        }
    }
}

/// `s` with every trailing occurrence of ".desktop" removed.
pub open spec fn strip_desktop_suffixes(s: Seq<char>) -> Seq<char>
    decreases s.len(),
{
    if s.len() >= 8 && s.subrange(s.len() - 8, s.len() as int) == ".desktop"@ {
        strip_desktop_suffixes(s.subrange(0, s.len() - 8))
    } else {
        s
    }
}

/// The ASCII letters and digits of `s`, in order, folded to lower case.
pub open spec fn alnum_lower(s: Seq<char>) -> Seq<char>
    decreases s.len(),
{
    if s.len() == 0 {
        s
    } else if is_ascii_alnum(s.last()) {
        alnum_lower(s.drop_last()).push(ascii_lower(s.last()))
    } else {
        alnum_lower(s.drop_last())
    }
}

/// The comparable form of a window identifier: trimmed, without ".desktop"
/// suffixes, reduced to lower-case ASCII letters and digits.
pub open spec fn normalized_identifier(s: Seq<char>) -> Seq<char> {
    alnum_lower(strip_desktop_suffixes(trim_seq(s)))
}

/// Whether `v[..end]` ends with the characters of `lit`.
fn ends_with_at(v: &Vec<char>, end: usize, lit: &str) -> (b: bool)
    requires
        end <= v.len(),
    ensures
        b == (end >= lit@.len() && v@.subrange(end - lit@.len(), end as int) == lit@),
{
    let n = lit.unicode_len();
    if end < n {
        return false;
    }
    let start = end - n;
    let mut i: usize = 0;
    while i < n
        invariant
            i <= n,
            n == lit@.len(),
            start + n == end <= v.len(),
            forall|j: int| 0 <= j < i ==> v@[start + j] == lit@[j],
        decreases n - i,
    {
        if v[start + i] != lit.get_char(i) {
            assert(v@.subrange(start as int, end as int)[i as int] != lit@[i as int]);
            return false;
        }
        i = i + 1;
    }
    assert(v@.subrange(start as int, end as int) == lit@);
    true
}

/// The characters of `value` in normalized identifier form.
fn normalized_chars(value: &str) -> (r: Vec<char>)
    ensures
        r@ == normalized_identifier(value@),
{
    let v = chars_of(value);
    let (a, b) = trim_bounds(&v);
    let mut end = b;
    let ghost trimmed = v@.subrange(a as int, b as int);
    proof {
        reveal_strlit(".desktop");
    }
    assert(v@.subrange(a as int, end as int) == trimmed);
    while end - a >= 8 && ends_with_at(&v, end, ".desktop")
        invariant
            a <= end <= b <= v.len(),
            strip_desktop_suffixes(trimmed) == strip_desktop_suffixes(
                v@.subrange(a as int, end as int),
            ),
        decreases end,
    {
        let ghost cur = v@.subrange(a as int, end as int);
        assert(cur.subrange(cur.len() - 8, cur.len() as int) == v@.subrange(end - 8, end as int));
        assert(cur.subrange(0, cur.len() - 8) == v@.subrange(a as int, end - 8));
        proof {
            reveal_strlit(".desktop");
        }
        assert(cur.len() >= 8);
        assert(cur.subrange(cur.len() - 8, cur.len() as int) == ".desktop"@);
        assert(strip_desktop_suffixes(cur) == strip_desktop_suffixes(
            cur.subrange(0, cur.len() - 8),
        ));
        end = end - 8;
    }
    let ghost stripped = v@.subrange(a as int, end as int);
    assert(strip_desktop_suffixes(stripped) == stripped) by {
        if stripped.len() >= 8 {
            assert(stripped.subrange(stripped.len() - 8, stripped.len() as int) == v@.subrange(
                end - 8,
                end as int,
            ));
        }
    }
    let mut out: Vec<char> = Vec::new();
    let mut i = a;
    assert(stripped.take(0) == Seq::<char>::empty());
    while i < end
        invariant
            a <= i <= end <= v.len(),
            stripped == v@.subrange(a as int, end as int),
            out@ == alnum_lower(stripped.take(i - a)),
        decreases end - i,
    {
        let c = v[i];
        assert(stripped.take(i - a + 1).drop_last() == stripped.take(i - a));
        assert(stripped.take(i - a + 1).last() == c);
        if is_ascii_alphanumeric(c) {
            out.push(to_ascii_lower(c));
        }
        i = i + 1;
    }
    assert(stripped.take(end - a) == stripped);
    out
}

/// The normalized form of a window identifier.
pub fn normalize_identifier(value: &str) -> (r: String)
    ensures
        r@ == normalized_identifier(value@),
{
    let v = normalized_chars(value);
    string_from_chars(&v, 0, v.len())
}

/// Normalized identifiers of the known terminal emulators.
pub open spec fn is_known_terminal(n: Seq<char>) -> bool {
    ||| n == "alacritty"@
    ||| n == "clankergrid"@
    ||| n == "comgithubamezinddterm"@
    ||| n == "commitchellhghostty"@
    ||| n == "contour"@
    ||| n == "coolretroterm"@
    ||| n == "foot"@
    ||| n == "gnometerminal"@
    ||| n == "gnometerminalserver"@
    ||| n == "guake"@
    ||| n == "ioelementaryterminal"@
    ||| n == "kgx"@
    ||| n == "kitty"@
    ||| n == "konsole"@
    ||| n == "lxterminal"@
    ||| n == "mateterminal"@
    ||| n == "orggnomeconsole"@
    ||| n == "orggnometerminal"@
    ||| n == "orgkdekonsole"@
    ||| n == "orgwezfurlongwezterm"@
    ||| n == "qterminal"@
    ||| n == "st"@
    ||| n == "tabby"@
    ||| n == "terminator"@
    ||| n == "terminology"@
    ||| n == "tilix"@
    ||| n == "uxterm"@
    ||| n == "wezterm"@
    ||| n == "xfce4terminal"@
    ||| n == "xterm"@
    ||| n == "yakuake"@
}

/// Whether an identifier names a terminal emulator.
pub open spec fn terminal_identifier(value: Seq<char>) -> bool {
    let n = normalized_identifier(value);
    n.len() > 0 && is_known_terminal(n)
}

/// Whether `value` identifies a known terminal emulator.
pub fn is_terminal_identifier(value: &str) -> (b: bool)
    ensures
        b == terminal_identifier(value@),
{
    let n = normalized_chars(value);
    if n.len() == 0 {
        return false;
    }
    chars_eq_str(&n, "alacritty") || chars_eq_str(&n, "clankergrid") || chars_eq_str(
        &n,
        "comgithubamezinddterm",
    ) || chars_eq_str(&n, "commitchellhghostty") || chars_eq_str(&n, "contour") || chars_eq_str(
        &n,
        "coolretroterm",
    ) || chars_eq_str(&n, "foot") || chars_eq_str(&n, "gnometerminal") || chars_eq_str(
        &n,
        "gnometerminalserver",
    ) || chars_eq_str(&n, "guake") || chars_eq_str(&n, "ioelementaryterminal") || chars_eq_str(
        &n,
        "kgx",
    ) || chars_eq_str(&n, "kitty") || chars_eq_str(&n, "konsole") || chars_eq_str(
        &n,
        "lxterminal",
    ) || chars_eq_str(&n, "mateterminal") || chars_eq_str(&n, "orggnomeconsole")
        || chars_eq_str(&n, "orggnometerminal") || chars_eq_str(&n, "orgkdekonsole")
        || chars_eq_str(&n, "orgwezfurlongwezterm") || chars_eq_str(&n, "qterminal")
        || chars_eq_str(&n, "st") || chars_eq_str(&n, "tabby") || chars_eq_str(&n, "terminator")
        || chars_eq_str(&n, "terminology") || chars_eq_str(&n, "tilix") || chars_eq_str(
        &n,
        "uxterm",
    ) || chars_eq_str(&n, "wezterm") || chars_eq_str(&n, "xfce4terminal") || chars_eq_str(
        &n,
        "xterm",
    ) || chars_eq_str(&n, "yakuake")
}

/// The paste target of a focused window: terminal when any of its class,
/// name, desktop file or role identifies a terminal emulator.
pub open spec fn classify_spec(info: Option<ActiveWindowInfo>) -> PasteTarget {
    match info {
        None => PasteTarget::Standard,
        Some(w) => if terminal_identifier(w.resource_class@) || terminal_identifier(
            w.resource_name@,
        ) || terminal_identifier(w.desktop_file@) || terminal_identifier(w.role@) {
            PasteTarget::Terminal
        } else {
            PasteTarget::Standard
        },
    }
}

/// Classifies a focused window into the shortcut family it expects.
pub fn classify(info: Option<&ActiveWindowInfo>) -> (t: PasteTarget)
    ensures
        t == classify_spec(
            match info {
                Some(w) => Some(*w),
                None => None,
            },
        ),
{
    match info {
        None => PasteTarget::Standard,
        Some(w) => {
            if is_terminal_identifier(w.resource_class.as_str()) || is_terminal_identifier(
                w.resource_name.as_str(),
            ) || is_terminal_identifier(w.desktop_file.as_str()) || is_terminal_identifier(
                w.role.as_str(),
            ) {
                PasteTarget::Terminal
            } else {
                PasteTarget::Standard
            }
        },
    }
}

/// Every terminal emulator of the list is recognised: an identifier whose
/// normalized form is one of alacritty, clankergrid, comgithubamezinddterm,
/// commitchellhghostty, contour, coolretroterm, foot, gnometerminal,
/// gnometerminalserver, guake, ioelementaryterminal, kgx, kitty, konsole,
/// lxterminal, mateterminal, orggnomeconsole, orggnometerminal, orgkdekonsole,
/// orgwezfurlongwezterm, qterminal, st, tabby, terminator, terminology, tilix,
/// uxterm, wezterm, xfce4terminal, xterm or yakuake names a terminal, and each
/// of these names, as it stands, is such an identifier.
pub proof fn lemma_listed_terminals_recognised()
    ensures
        forall|v: Seq<char>| #[trigger] normalized_identifier(v) == "alacritty"@ ==> terminal_identifier(v),
        forall|v: Seq<char>| #[trigger] normalized_identifier(v) == "clankergrid"@ ==> terminal_identifier(v),
        forall|v: Seq<char>| #[trigger] normalized_identifier(v) == "comgithubamezinddterm"@ ==> terminal_identifier(v),
        forall|v: Seq<char>| #[trigger] normalized_identifier(v) == "commitchellhghostty"@ ==> terminal_identifier(v),
        forall|v: Seq<char>| #[trigger] normalized_identifier(v) == "contour"@ ==> terminal_identifier(v),
        forall|v: Seq<char>| #[trigger] normalized_identifier(v) == "coolretroterm"@ ==> terminal_identifier(v),
        forall|v: Seq<char>| #[trigger] normalized_identifier(v) == "foot"@ ==> terminal_identifier(v),
        forall|v: Seq<char>| #[trigger] normalized_identifier(v) == "gnometerminal"@ ==> terminal_identifier(v),
        forall|v: Seq<char>| #[trigger] normalized_identifier(v) == "gnometerminalserver"@ ==> terminal_identifier(v),
        forall|v: Seq<char>| #[trigger] normalized_identifier(v) == "guake"@ ==> terminal_identifier(v),
        forall|v: Seq<char>| #[trigger] normalized_identifier(v) == "ioelementaryterminal"@ ==> terminal_identifier(v),
        forall|v: Seq<char>| #[trigger] normalized_identifier(v) == "kgx"@ ==> terminal_identifier(v),
        forall|v: Seq<char>| #[trigger] normalized_identifier(v) == "kitty"@ ==> terminal_identifier(v),
        forall|v: Seq<char>| #[trigger] normalized_identifier(v) == "konsole"@ ==> terminal_identifier(v),
        forall|v: Seq<char>| #[trigger] normalized_identifier(v) == "lxterminal"@ ==> terminal_identifier(v),
        forall|v: Seq<char>| #[trigger] normalized_identifier(v) == "mateterminal"@ ==> terminal_identifier(v),
        forall|v: Seq<char>| #[trigger] normalized_identifier(v) == "orggnomeconsole"@ ==> terminal_identifier(v),
        forall|v: Seq<char>| #[trigger] normalized_identifier(v) == "orggnometerminal"@ ==> terminal_identifier(v),
        forall|v: Seq<char>| #[trigger] normalized_identifier(v) == "orgkdekonsole"@ ==> terminal_identifier(v),
        forall|v: Seq<char>| #[trigger] normalized_identifier(v) == "orgwezfurlongwezterm"@ ==> terminal_identifier(v),
        forall|v: Seq<char>| #[trigger] normalized_identifier(v) == "qterminal"@ ==> terminal_identifier(v),
        forall|v: Seq<char>| #[trigger] normalized_identifier(v) == "st"@ ==> terminal_identifier(v),
        forall|v: Seq<char>| #[trigger] normalized_identifier(v) == "tabby"@ ==> terminal_identifier(v),
        forall|v: Seq<char>| #[trigger] normalized_identifier(v) == "terminator"@ ==> terminal_identifier(v),
        forall|v: Seq<char>| #[trigger] normalized_identifier(v) == "terminology"@ ==> terminal_identifier(v),
        forall|v: Seq<char>| #[trigger] normalized_identifier(v) == "tilix"@ ==> terminal_identifier(v),
        forall|v: Seq<char>| #[trigger] normalized_identifier(v) == "uxterm"@ ==> terminal_identifier(v),
        forall|v: Seq<char>| #[trigger] normalized_identifier(v) == "wezterm"@ ==> terminal_identifier(v),
        forall|v: Seq<char>| #[trigger] normalized_identifier(v) == "xfce4terminal"@ ==> terminal_identifier(v),
        forall|v: Seq<char>| #[trigger] normalized_identifier(v) == "xterm"@ ==> terminal_identifier(v),
        forall|v: Seq<char>| #[trigger] normalized_identifier(v) == "yakuake"@ ==> terminal_identifier(v),
        terminal_identifier("alacritty"@),
        terminal_identifier("clankergrid"@),
        terminal_identifier("comgithubamezinddterm"@),
        terminal_identifier("commitchellhghostty"@),
        terminal_identifier("contour"@),
        terminal_identifier("coolretroterm"@),
        terminal_identifier("foot"@),
        terminal_identifier("gnometerminal"@),
        terminal_identifier("gnometerminalserver"@),
        terminal_identifier("guake"@),
        terminal_identifier("ioelementaryterminal"@),
        terminal_identifier("kgx"@),
        terminal_identifier("kitty"@),
        terminal_identifier("konsole"@),
        terminal_identifier("lxterminal"@),
        terminal_identifier("mateterminal"@),
        terminal_identifier("orggnomeconsole"@),
        terminal_identifier("orggnometerminal"@),
        terminal_identifier("orgkdekonsole"@),
        terminal_identifier("orgwezfurlongwezterm"@),
        terminal_identifier("qterminal"@),
        terminal_identifier("st"@),
        terminal_identifier("tabby"@),
        terminal_identifier("terminator"@),
        terminal_identifier("terminology"@),
        terminal_identifier("tilix"@),
        terminal_identifier("uxterm"@),
        terminal_identifier("wezterm"@),
        terminal_identifier("xfce4terminal"@),
        terminal_identifier("xterm"@),
        terminal_identifier("yakuake"@),
{
    reveal_strlit("alacritty");
    reveal_strlit("clankergrid");
    reveal_strlit("comgithubamezinddterm");
    reveal_strlit("commitchellhghostty");
    reveal_strlit("contour");
    reveal_strlit("coolretroterm");
    reveal_strlit("foot");
    reveal_strlit("gnometerminal");
    reveal_strlit("gnometerminalserver");
    reveal_strlit("guake");
    reveal_strlit("ioelementaryterminal");
    reveal_strlit("kgx");
    reveal_strlit("kitty");
    reveal_strlit("konsole");
    reveal_strlit("lxterminal");
    reveal_strlit("mateterminal");
    reveal_strlit("orggnomeconsole");
    reveal_strlit("orggnometerminal");
    reveal_strlit("orgkdekonsole");
    reveal_strlit("orgwezfurlongwezterm");
    reveal_strlit("qterminal");
    reveal_strlit("st");
    reveal_strlit("tabby");
    reveal_strlit("terminator");
    reveal_strlit("terminology");
    reveal_strlit("tilix");
    reveal_strlit("uxterm");
    reveal_strlit("wezterm");
    reveal_strlit("xfce4terminal");
    reveal_strlit("xterm");
    reveal_strlit("yakuake");
    assert(all_lower_alnum("alacritty"@));
    lemma_lower_alnum_normalized("alacritty"@);
    assert(all_lower_alnum("clankergrid"@));
    lemma_lower_alnum_normalized("clankergrid"@);
    assert(all_lower_alnum("comgithubamezinddterm"@));
    lemma_lower_alnum_normalized("comgithubamezinddterm"@);
    assert(all_lower_alnum("commitchellhghostty"@));
    lemma_lower_alnum_normalized("commitchellhghostty"@);
    assert(all_lower_alnum("contour"@));
    lemma_lower_alnum_normalized("contour"@);
    assert(all_lower_alnum("coolretroterm"@));
    lemma_lower_alnum_normalized("coolretroterm"@);
    assert(all_lower_alnum("foot"@));
    lemma_lower_alnum_normalized("foot"@);
    assert(all_lower_alnum("gnometerminal"@));
    lemma_lower_alnum_normalized("gnometerminal"@);
    assert(all_lower_alnum("gnometerminalserver"@));
    lemma_lower_alnum_normalized("gnometerminalserver"@);
    assert(all_lower_alnum("guake"@));
    lemma_lower_alnum_normalized("guake"@);
    assert(all_lower_alnum("ioelementaryterminal"@));
    lemma_lower_alnum_normalized("ioelementaryterminal"@);
    assert(all_lower_alnum("kgx"@));
    lemma_lower_alnum_normalized("kgx"@);
    assert(all_lower_alnum("kitty"@));
    lemma_lower_alnum_normalized("kitty"@);
    assert(all_lower_alnum("konsole"@));
    lemma_lower_alnum_normalized("konsole"@);
    assert(all_lower_alnum("lxterminal"@));
    lemma_lower_alnum_normalized("lxterminal"@);
    assert(all_lower_alnum("mateterminal"@));
    lemma_lower_alnum_normalized("mateterminal"@);
    assert(all_lower_alnum("orggnomeconsole"@));
    lemma_lower_alnum_normalized("orggnomeconsole"@);
    assert(all_lower_alnum("orggnometerminal"@));
    lemma_lower_alnum_normalized("orggnometerminal"@);
    assert(all_lower_alnum("orgkdekonsole"@));
    lemma_lower_alnum_normalized("orgkdekonsole"@);
    assert(all_lower_alnum("orgwezfurlongwezterm"@));
    lemma_lower_alnum_normalized("orgwezfurlongwezterm"@);
    assert(all_lower_alnum("qterminal"@));
    lemma_lower_alnum_normalized("qterminal"@);
    assert(all_lower_alnum("st"@));
    lemma_lower_alnum_normalized("st"@);
    assert(all_lower_alnum("tabby"@));
    lemma_lower_alnum_normalized("tabby"@);
    assert(all_lower_alnum("terminator"@));
    lemma_lower_alnum_normalized("terminator"@);
    assert(all_lower_alnum("terminology"@));
    lemma_lower_alnum_normalized("terminology"@);
    assert(all_lower_alnum("tilix"@));
    lemma_lower_alnum_normalized("tilix"@);
    assert(all_lower_alnum("uxterm"@));
    lemma_lower_alnum_normalized("uxterm"@);
    assert(all_lower_alnum("wezterm"@));
    lemma_lower_alnum_normalized("wezterm"@);
    assert(all_lower_alnum("xfce4terminal"@));
    lemma_lower_alnum_normalized("xfce4terminal"@);
    assert(all_lower_alnum("xterm"@));
    lemma_lower_alnum_normalized("xterm"@);
    assert(all_lower_alnum("yakuake"@));
    lemma_lower_alnum_normalized("yakuake"@);
}

/// A window any of whose identifiers names a terminal is pasted into as a
/// terminal, and "auto" then resolves to the terminal paste mode; a window
/// none of whose identifiers does is pasted into as a standard application.
/// A paste mode other than "auto" is used as configured, and with no window
/// known "auto" resolves to the standard paste mode.
pub proof fn lemma_terminal_windows_use_terminal_paste(w: ActiveWindowInfo, mode: Seq<char>)
    ensures
        mode != "auto"@ ==> effective_paste_mode_spec(mode, Some(w), Some(w)) == mode,
        effective_paste_mode_spec("auto"@, None, None) == "standard"@,
        (terminal_identifier(w.resource_class@) || terminal_identifier(w.resource_name@)
            || terminal_identifier(w.desktop_file@) || terminal_identifier(w.role@)) ==> (
        classify_spec(Some(w)) == PasteTarget::Terminal && effective_paste_mode_spec(
            "auto"@,
            Some(w),
            None,
        ) == "terminal"@),
        !(terminal_identifier(w.resource_class@) || terminal_identifier(w.resource_name@)
            || terminal_identifier(w.desktop_file@) || terminal_identifier(w.role@)) ==> (
        classify_spec(Some(w)) == PasteTarget::Standard && effective_paste_mode_spec(
            "auto"@,
            Some(w),
            None,
        ) == "standard"@),
{
}

/// The paste mode actually used: the configured one, except that "auto" is
/// resolved by classifying the remembered paste-target window, or else the
/// currently active window.
pub open spec fn effective_paste_mode_spec(
    paste_mode: Seq<char>,
    paste_target_window: Option<ActiveWindowInfo>,
    active_window: Option<ActiveWindowInfo>,
) -> Seq<char> {
    if paste_mode == "auto"@ {
        let w = match paste_target_window {
            Some(w) => Some(w),
            None => active_window,
        };
        paste_mode_name(classify_spec(w))
    } else {
        paste_mode
    }
}

/// Resolves the configured paste mode against the focused windows.
pub fn effective_paste_mode(
    paste_mode: &str,
    paste_target_window: Option<&ActiveWindowInfo>,
    active_window: Option<&ActiveWindowInfo>,
) -> (r: String)
    ensures
        r@ == effective_paste_mode_spec(
            paste_mode@,
            match paste_target_window {
                Some(w) => Some(*w),
                None => None,
            },
            match active_window {
                Some(w) => Some(*w),
                None => None,
            },
        ),
{
    let mode = chars_of(paste_mode);
    if chars_eq_str(&mode, "auto") {
        let w = match paste_target_window {
            Some(w) => Some(w),
            None => active_window,
        };
        String::from_str(classify(w).paste_mode())
    } else {
        String::from_str(paste_mode)
    }
}

/// The window record built from a focus report; a negative process id is
/// recorded as 0.
pub fn active_window_from_report(
    caption: &str,
    resource_class: &str,
    resource_name: &str,
    desktop_file: &str,
    role: &str,
    pid: i32,
) -> (w: ActiveWindowInfo)
    ensures
        w.caption@ == caption@,
        w.resource_class@ == resource_class@,
        w.resource_name@ == resource_name@,
        w.desktop_file@ == desktop_file@,
        w.role@ == role@,
        w.pid == (if pid < 0 {
            0
        } else {
            pid as u32
        }),
{
    ActiveWindowInfo {
        caption: String::from_str(caption),
        resource_class: String::from_str(resource_class),
        resource_name: String::from_str(resource_name),
        desktop_file: String::from_str(desktop_file),
        role: String::from_str(role),
        pid: if pid < 0 {
            0
        } else {
            pid as u32
        },
    }
}

/// Whether `s` contains "kde", ignoring ASCII case.
pub open spec fn contains_kde_ignore_case(s: Seq<char>) -> bool {
    exists|i: int|
        0 <= i && i + 3 <= s.len() && ascii_lower(#[trigger] s[i]) == 'k' && ascii_lower(s[i + 1])
            == 'd' && ascii_lower(s[i + 2]) == 'e'
}

/// A KDE session: `XDG_CURRENT_DESKTOP` mentions KDE, or `KDE_FULL_SESSION`
/// is "true" (any ASCII case) or "1".
pub open spec fn kde_session_spec(
    current_desktop: Option<Seq<char>>,
    full_session: Option<Seq<char>>,
) -> bool {
    ||| (current_desktop matches Some(d) && contains_kde_ignore_case(d))
    ||| (full_session matches Some(f) && (eq_ignore_ascii_case_lit(f, "true"@) || f == "1"@))
}

/// ASCII case-insensitive equality.
pub open spec fn eq_ignore_ascii_case_lit(a: Seq<char>, b: Seq<char>) -> bool {
    crate::text::eq_ignore_ascii_case_seq(a, b)
}

/// Whether `v` contains "kde", ignoring ASCII case.
fn contains_kde(v: &Vec<char>) -> (b: bool)
    ensures
        b == contains_kde_ignore_case(v@),
{
    let mut i: usize = 0;
    while i < v.len()
        invariant
            i <= v.len(),
            forall|j: int|
                0 <= j < i && j + 3 <= v.len() ==> !(ascii_lower(#[trigger] v@[j]) == 'k'
                    && ascii_lower(v@[j + 1]) == 'd' && ascii_lower(v@[j + 2]) == 'e'),
        decreases v.len() - i,
    {
        if v.len() - i >= 3 && to_ascii_lower(v[i]) == 'k' && to_ascii_lower(v[i + 1]) == 'd'
            && to_ascii_lower(v[i + 2]) == 'e' {
            return true;
        }
        i = i + 1;
    }
    false
}

/// Decides from the two session environment variables whether the desktop is KDE.
pub fn is_kde_session(current_desktop: Option<&str>, full_session: Option<&str>) -> (b: bool)
    ensures
        b == kde_session_spec(
            match current_desktop {
                Some(d) => Some(d@),
                None => None,
            },
            match full_session {
                Some(f) => Some(f@),
                None => None,
            },
        ),
{
    let desktop_kde = match current_desktop {
        Some(d) => contains_kde(&chars_of(d)),
        None => false,
    };
    if desktop_kde {
        return true;
    }
    match full_session {
        Some(f) => {
            let v = chars_of(f);
            chars_eq_ignore_ascii_case(&v, "true") || chars_eq_str(&v, "1")
        },
        None => false,
    }
}

} // verus!

verus! {

/// Every character is a lower-case ASCII letter or a digit.
pub open spec fn all_lower_alnum(s: Seq<char>) -> bool {
    forall|i: int| 0 <= i < s.len() ==> ('a' <= #[trigger] s[i] <= 'z') || ('0' <= s[i] <= '9')
}

proof fn lemma_alnum_lower_is_lower_alnum(s: Seq<char>)
    ensures
        all_lower_alnum(alnum_lower(s)),
    decreases s.len(),
{
    if s.len() > 0 {
        lemma_alnum_lower_is_lower_alnum(s.drop_last());
    }
}

proof fn lemma_alnum_lower_fixed(s: Seq<char>)
    requires
        all_lower_alnum(s),
    ensures
        alnum_lower(s) == s,
    decreases s.len(),
{
    if s.len() > 0 {
        assert(all_lower_alnum(s.drop_last()));
        lemma_alnum_lower_fixed(s.drop_last());
        assert(s.drop_last().push(s.last()) =~= s);
    }
}

proof fn lemma_lower_alnum_normalized(s: Seq<char>)
    requires
        all_lower_alnum(s),
    ensures
        normalized_identifier(s) == s,
{
    assert(s.len() > 0 ==> !crate::text::is_unicode_whitespace(s[0]));
    assert(crate::text::trim_start_seq(s) == s);
    assert(crate::text::trim_end_seq(s) == s);
    assert(trim_seq(s) == s);
    reveal_strlit(".desktop");
    if s.len() >= 8 && s.subrange(s.len() - 8, s.len() as int) == ".desktop"@ {
        assert(s.subrange(s.len() - 8, s.len() as int)[0] == '.');
        assert(s[s.len() - 8] == '.');
    }
    assert(strip_desktop_suffixes(s) == s);
    lemma_alnum_lower_fixed(s);
}

/// Normalizing an identifier twice gives the same as once, so classifying the
/// normalized form gives the same answer as classifying the raw identifier.
pub proof fn lemma_normalize_identifier_idempotent(value: Seq<char>)
    ensures
        normalized_identifier(normalized_identifier(value)) == normalized_identifier(value),
        terminal_identifier(normalized_identifier(value)) == terminal_identifier(value),
{
    let n = normalized_identifier(value);
    lemma_alnum_lower_is_lower_alnum(strip_desktop_suffixes(trim_seq(value)));
    lemma_lower_alnum_normalized(n);
}

} // verus!
