//! The tray icon: its menu, its labels, and what each menu entry does.
use vstd::prelude::*;
use crate::dto::{DaemonHealthSnapshot, DashboardSnapshotDto, LaunchBehavior};
use crate::text::{
    ascii_lower, char_is_alnum, chars_of, has_prefix, is_alnum, lower_chars, owned,
    starts_with, string_of, text_is, views,
};

verus! {

/// Whether the main window hides to the tray when it is closed.
pub struct TrayState {
    minimize_to_tray_enabled: bool,
}

impl View for TrayState {
    type V = bool;

    closed spec fn view(&self) -> bool {
        self.minimize_to_tray_enabled
    }
}

impl TrayState {
    /// Closing the window hides it to the tray until the user says otherwise.
    pub fn new() -> (r: Self)
        ensures
            r@,
    {
        TrayState { minimize_to_tray_enabled: true }
    }

    /// Whether closing the window hides it to the tray.
    pub fn minimize_to_tray_enabled(&self) -> (r: bool)
        ensures
            r == self@,
    {
        self.minimize_to_tray_enabled
    }

    /// Flips the setting and gives its new value.
    pub fn toggle_minimize_to_tray(&mut self) -> (r: bool)
        ensures
            r == !old(self)@,
            final(self)@ == r,
    {
        let next = !self.minimize_to_tray_enabled;
        self.minimize_to_tray_enabled = next;
        next
    }
}

impl Default for TrayState {
    /// Closing the window hides it to the tray until the user says otherwise.
    fn default() -> (r: Self)
        ensures
            r@,
    {
        TrayState::new()
    }
}

/// Toggling twice gives back the setting one started from.
pub proof fn lemma_toggle_twice(start: bool, once: bool, twice: bool)
    requires
        once == !start,
        twice == !once,
    ensures
        twice == start,
{
}

/// A character that belongs to a menu option's name.
pub open spec fn option_char(c: char) -> bool {
    is_alnum(c) || c == '-'
}

/// Scanning left to right: the runs closed so far, and the run being read.
pub open spec fn scan_runs(s: Seq<char>) -> (Seq<Seq<char>>, Seq<char>)
    decreases s.len(),
{
    if s.len() == 0 {
        (Seq::empty(), Seq::empty())
    } else {
        let (done, cur) = scan_runs(s.drop_last());
        let c = s.last();
        if option_char(c) {
            (done, cur.push(c))
        } else if cur.len() > 0 {
            (done.push(cur), Seq::empty())
        } else {
            (done, Seq::empty())
        }
    }
}

/// The maximal runs of option characters in `s`, in order.
pub open spec fn option_tokens(s: Seq<char>) -> Seq<Seq<char>> {
    let (done, cur) = scan_runs(s);
    if cur.len() > 0 {
        done.push(cur)
    } else {
        done
    }
}

/// Character order.
pub open spec fn char_lt(a: char, b: char) -> bool {
    a < b
}

/// Lexicographic order of texts, a proper prefix coming first.
pub open spec fn lex_lt(a: Seq<char>, b: Seq<char>) -> bool
    decreases a.len(),
{
    if a.len() == 0 {
        b.len() > 0
    } else if b.len() == 0 {
        false
    } else if char_lt(a[0], b[0]) {
        true
    } else if a[0] == b[0] {
        lex_lt(a.drop_first(), b.drop_first())
    } else {
        false
    }
}

/// Each text comes before every later one: sorted, with no text twice.
pub open spec fn strictly_sorted(v: Seq<Seq<char>>) -> bool {
    forall|i: int, j: int| 0 <= i < j < v.len() ==> lex_lt(#[trigger] v[i], #[trigger] v[j])
}

/// No text comes before itself.
pub proof fn lemma_lex_irreflexive(a: Seq<char>)
    ensures
        !lex_lt(a, a),
    decreases a.len(),
{
    if a.len() > 0 {
        lemma_lex_irreflexive(a.drop_first());
    }
}

/// Of two different texts, one comes before the other.
pub proof fn lemma_lex_total(a: Seq<char>, b: Seq<char>)
    ensures
        a == b || lex_lt(a, b) || lex_lt(b, a),
    decreases a.len(),
{
    if a.len() == 0 || b.len() == 0 {
        if a.len() == 0 && b.len() == 0 {
            assert(a =~= b);
        }
    } else if a[0] == b[0] {
        lemma_lex_total(a.drop_first(), b.drop_first());
        if a.drop_first() == b.drop_first() {
            assert(a =~= seq![a[0]] + a.drop_first());
            assert(b =~= seq![b[0]] + b.drop_first());
        }
    } else {
        assert(a[0] < b[0] || b[0] < a[0]);
    }
}

/// The order is transitive.
pub proof fn lemma_lex_transitive(a: Seq<char>, b: Seq<char>, c: Seq<char>)
    requires
        lex_lt(a, b),
        lex_lt(b, c),
    ensures
        lex_lt(a, c),
    decreases a.len(),
{
    if a.len() > 0 && b.len() > 0 && c.len() > 0 && a[0] == b[0] && b[0] == c[0] {
        lemma_lex_transitive(a.drop_first(), b.drop_first(), c.drop_first());
    }
}

/// Whether `a` comes before `b`.
pub fn lex_less(a: &Vec<char>, b: &Vec<char>) -> (r: bool)
    ensures
        r == lex_lt(a@, b@),
{
    let mut i: usize = 0;
    assert(a@.skip(0) =~= a@);
    assert(b@.skip(0) =~= b@);
    loop
        invariant
            i <= a@.len(),
            i <= b@.len(),
            lex_lt(a@, b@) == lex_lt(a@.skip(i as int), b@.skip(i as int)),
        decreases a@.len() - i,
    {
        if i == a.len() {
            return i < b.len();
        }
        if i == b.len() {
            return false;
        }
        let x = a[i];
        let y = b[i];
        assert(a@.skip(i as int)[0] == x);
        assert(b@.skip(i as int)[0] == y);
        if x < y {
            return true;
        }
        if x != y {
            return false;
        }
        assert(a@.skip(i as int).drop_first() =~= a@.skip(i + 1));
        assert(b@.skip(i as int).drop_first() =~= b@.skip(i + 1));
        i = i + 1;
    }
}

/// Whether `a` and `b` hold the same characters.
pub fn same_chars(a: &Vec<char>, b: &Vec<char>) -> (r: bool)
    ensures
        r == (a@ == b@),
{
    if a.len() != b.len() {
        return false;
    }
    let mut i: usize = 0;
    while i < a.len()
        invariant
            a@.len() == b@.len(),
            i <= a@.len(),
            forall|k: int| 0 <= k < i ==> a@[k] == b@[k],
        decreases a@.len() - i,
    {
        if a[i] != b[i] {
            return false;
        }
        i = i + 1;
    }
    assert(a@ =~= b@);
    true
}

/// The runs of option characters in `s`.
fn tokens_of(s: &Vec<char>) -> (r: Vec<Vec<char>>)
    ensures
        r@.map_values(|t: Vec<char>| t@) == option_tokens(s@),
{
    let mut done: Vec<Vec<char>> = Vec::new();
    let mut cur: Vec<char> = Vec::new();
    let mut i: usize = 0;
    assert(s@.take(0) =~= Seq::<char>::empty());
    while i < s.len()
        invariant
            i <= s@.len(),
            (done@.map_values(|t: Vec<char>| t@), cur@) == scan_runs(s@.take(i as int)),
        decreases s@.len() - i,
    {
        let c = s[i];
        assert(s@.take(i + 1).drop_last() =~= s@.take(i as int));
        assert(s@.take(i + 1).last() == c);
        if char_is_alnum(c) || c == '-' {
            cur.push(c);
        } else if cur.len() > 0 {
            let ghost before = done@;
            let closed = cur;
            done.push(closed);
            cur = Vec::new();
            assert(done@.map_values(|t: Vec<char>| t@) =~= before.map_values(|t: Vec<char>| t@).push(
                closed@,
            ));
            assert(cur@ =~= Seq::<char>::empty());
        } else {
            assert(cur@ =~= Seq::<char>::empty());
        }
        i = i + 1;
    }
    assert(s@.take(s@.len() as int) =~= s@);
    if cur.len() > 0 {
        let ghost before = done@;
        let closed = cur;
        done.push(closed);
        assert(done@.map_values(|t: Vec<char>| t@) =~= before.map_values(|t: Vec<char>| t@).push(
            closed@,
        ));
    }
    done
}

/// Adds `t` to a sorted list without repetition, keeping it so.
fn insert_sorted(list: &mut Vec<Vec<char>>, t: Vec<char>)
    requires
        strictly_sorted(old(list)@.map_values(|x: Vec<char>| x@)),
    ensures
        strictly_sorted(final(list)@.map_values(|x: Vec<char>| x@)),
        final(list)@.map_values(|x: Vec<char>| x@).to_set() == old(list)@.map_values(
            |x: Vec<char>| x@,
        ).to_set().insert(t@),
{
    let ghost v0 = list@.map_values(|x: Vec<char>| x@);
    let mut p: usize = 0;
    while p < list.len() && lex_less(&list[p], &t)
        invariant
            list@.map_values(|x: Vec<char>| x@) == v0,
            p <= list@.len(),
            forall|k: int| 0 <= k < p ==> lex_lt(#[trigger] v0[k], t@),
        decreases list@.len() - p,
    {
        p = p + 1;
    }
    if p < list.len() && same_chars(&list[p], &t) {
        assert(v0[p as int] == t@);
        assert(v0.to_set().insert(t@) =~= v0.to_set());
        return;
    }
    proof {
        if p < v0.len() {
            lemma_lex_total(v0[p as int], t@);
        }
        assert forall|k: int| p <= k < v0.len() implies lex_lt(t@, #[trigger] v0[k]) by {
            if k > p {
                lemma_lex_transitive(t@, v0[p as int], v0[k]);
            }
        }
    }
    let ghost tv = t@;
    list.insert(p, t);
    let ghost v1 = list@.map_values(|x: Vec<char>| x@);
    assert(v1 =~= v0.insert(p as int, tv));
    assert forall|i: int, j: int| 0 <= i < j < v1.len() implies lex_lt(
        #[trigger] v1[i],
        #[trigger] v1[j],
    ) by {
        if j < p {
        } else if j == p {
        } else if i < p {
            lemma_lex_transitive(v1[i], tv, v1[j]);
        } else if i == p {
        } else {
        }
    }
    assert(v1.to_set() =~= v0.to_set().insert(tv)) by {
        assert forall|x: Seq<char>| v1.to_set().contains(x) implies v0.to_set().insert(
            tv,
        ).contains(x) by {
            let k = choose|k: int| 0 <= k < v1.len() && v1[k] == x;
            if k < p {
                assert(v0[k] == x);
            } else if k > p {
                assert(v0[k - 1] == x);
            }
        }
        assert forall|x: Seq<char>| v0.to_set().insert(tv).contains(x) implies v1.to_set().contains(
            x,
        ) by {
            if x == tv {
                assert(v1[p as int] == x);
            } else {
                let k = choose|k: int| 0 <= k < v0.len() && v0[k] == x;
                if k < p {
                    assert(v1[k] == x);
                } else {
                    assert(v1[k + 1] == x);
                }
            }
        }
    }
}

/// The texts given, sorted and each once.
pub fn sort_unique(items: &Vec<Vec<char>>) -> (r: Vec<String>)
    ensures
        strictly_sorted(views(r@)),
        views(r@).to_set() == items@.map_values(|t: Vec<char>| t@).to_set(),
{
    let ghost tv = items@.map_values(|t: Vec<char>| t@);
    let mut sorted: Vec<Vec<char>> = Vec::new();
    let mut i: usize = 0;
    assert(sorted@.map_values(|x: Vec<char>| x@).to_set() =~= tv.take(0).to_set());
    while i < items.len()
        invariant
            i <= items@.len(),
            tv == items@.map_values(|t: Vec<char>| t@),
            strictly_sorted(sorted@.map_values(|x: Vec<char>| x@)),
            sorted@.map_values(|x: Vec<char>| x@).to_set() == tv.take(i as int).to_set(),
        decreases items@.len() - i,
    {
        let t = items[i].clone();
        assert(t@ == tv[i as int]);
        insert_sorted(&mut sorted, t);
        assert(tv.take(i + 1) =~= tv.take(i as int).push(tv[i as int]));
        proof {
            crate::text::lemma_push_to_set(tv.take(i as int), tv[i as int]);
        }
        i = i + 1;
    }
    assert(tv.take(items@.len() as int) =~= tv);
    let mut out: Vec<String> = Vec::new();
    let mut k: usize = 0;
    while k < sorted.len()
        invariant
            k <= sorted@.len(),
            views(out@) == sorted@.map_values(|x: Vec<char>| x@).take(k as int),
        decreases sorted@.len() - k,
    {
        let s = string_of(&sorted[k]);
        let ghost before = out@;
        out.push(s);
        k = k + 1;
        assert(views(out@) =~= sorted@.map_values(|x: Vec<char>| x@).take(k as int)) by {
            assert(views(out@) =~= views(before).push(s@));
        }
    }
    assert(sorted@.map_values(|x: Vec<char>| x@).take(sorted@.len() as int)
        =~= sorted@.map_values(|x: Vec<char>| x@));
    out
}

/// The texts of a list of string slices.
pub open spec fn str_views(v: Seq<&str>) -> Seq<Seq<char>> {
    v.map_values(|s: &str| s@)
}

/// The options a submenu offers: the option names found in `raw`, sorted and
/// each once; the fallback names when `raw` is absent or holds none.
pub open spec fn menu_options(raw: Option<Seq<char>>, fallback: Seq<Seq<char>>, r: Seq<Seq<char>>) -> bool {
    match raw {
        Some(text) if option_tokens(text).len() > 0 => {
            &&& r.to_set() == option_tokens(text).to_set()
            &&& strictly_sorted(r)
        },
        _ => r == fallback,
    }
}

/// The options a submenu offers, read from the daemon's list of choices.
pub fn extract_options(raw: Option<&str>, fallback: &[&str]) -> (r: Vec<String>)
    ensures
        menu_options(
            match raw {
                Some(t) => Some(t@),
                None => None,
            },
            str_views(fallback@),
            views(r@),
        ),
{
    if let Some(text) = raw {
        let toks = tokens_of(&chars_of(text));
        let ghost tv = toks@.map_values(|t: Vec<char>| t@);
        let out = sort_unique(&toks);
        if out.len() > 0 {
            assert(tv.len() > 0) by {
                let ov = views(out@);
                assert(ov.to_set().contains(ov[0]));
                assert(tv.to_set().contains(ov[0]));
            }
            return out;
        }
        assert(tv.to_set() =~= Set::<Seq<char>>::empty());
        assert(tv.len() == 0) by {
            if tv.len() > 0 {
                assert(tv.to_set().contains(tv[0]));
            }
        }
    }
    let mut out: Vec<String> = Vec::new();
    let mut k: usize = 0;
    while k < fallback.len()
        invariant
            k <= fallback@.len(),
            views(out@) == str_views(fallback@).take(k as int),
        decreases fallback@.len() - k,
    {
        let s = owned(fallback[k]);
        let ghost before = out@;
        out.push(s);
        k = k + 1;
        assert(views(out@) =~= str_views(fallback@).take(k as int)) by {
            assert(views(out@) =~= views(before).push(s@));
        }
    }
    assert(str_views(fallback@).take(fallback@.len() as int) =~= str_views(fallback@));
    out
}

/// The text of an optional reading, "unknown" when there is none.
pub open spec fn or_unknown(o: Option<String>) -> Seq<char> {
    match o {
        Some(s) => s@,
        None => "unknown"@,
    }
}

/// How a daemon's state is shown: "ok" when it answers, "down" otherwise.
pub open spec fn up_text(value: bool) -> Seq<char> {
    if value {
        "ok"@
    } else {
        "down"@
    }
}

/// The tray's status line: the GPU mode, the power profile and the platform profile.
pub open spec fn status_text(s: DashboardSnapshotDto) -> Seq<char> {
    "GPU: "@ + or_unknown(s.gpu.mode) + " | Power: "@ + or_unknown(s.power.active_profile)
        + " | Platform: "@ + or_unknown(s.platform.platform_profile)
}

/// The tray's daemon line: whether each daemon answers.
pub open spec fn daemon_text(h: DaemonHealthSnapshot) -> Seq<char> {
    "asusd:"@ + up_text(h.asusd_available) + " supergfxd:"@ + up_text(h.supergfxd_available)
        + " ppd:"@ + up_text(h.ppd_available)
}

/// The tray icon's tooltip.
pub open spec fn tooltip_text(s: DashboardSnapshotDto) -> Seq<char> {
    "AsusTone\n"@ + status_text(s) + "\n"@ + daemon_text(s.health)
}

/// How a daemon's state is shown.
pub fn yes_no(value: bool) -> (r: &'static str)
    ensures
        r@ == up_text(value),
{
    if value {
        "ok"
    } else {
        "down"
    }
}

fn append_or_unknown(out: &mut String, o: &Option<String>)
    ensures
        final(out)@ == old(out)@ + or_unknown(*o),
{
    match o {
        Some(s) => out.append(s.as_str()),
        None => out.append("unknown"),
    }
}

/// The tray's status line.
pub fn status_line(snapshot: &DashboardSnapshotDto) -> (r: String)
    ensures
        r@ == status_text(*snapshot),
{
    let mut r = owned("GPU: ");
    append_or_unknown(&mut r, &snapshot.gpu.mode);
    r.append(" | Power: ");
    append_or_unknown(&mut r, &snapshot.power.active_profile);
    r.append(" | Platform: ");
    append_or_unknown(&mut r, &snapshot.platform.platform_profile);
    r
}

/// The tray's daemon line.
pub fn daemon_health_line(snapshot: &DashboardSnapshotDto) -> (r: String)
    ensures
        r@ == daemon_text(snapshot.health),
{
    let mut r = owned("asusd:");
    r.append(yes_no(snapshot.health.asusd_available));
    r.append(" supergfxd:");
    r.append(yes_no(snapshot.health.supergfxd_available));
    r.append(" ppd:");
    r.append(yes_no(snapshot.health.ppd_available));
    r
}

/// The tray icon's tooltip.
pub fn tooltip_for_snapshot(snapshot: &DashboardSnapshotDto) -> (r: String)
    ensures
        r@ == tooltip_text(*snapshot),
{
    let mut r = owned("AsusTone\n");
    r.append(status_line(snapshot).as_str());
    r.append("\n");
    r.append(daemon_health_line(snapshot).as_str());
    r
}

/// One checkable entry of a submenu.
pub struct MenuChoice {
    pub id: String,
    pub label: String,
    pub checked: bool,
}

/// A submenu listing the profiles or modes one can switch to.
pub struct ProfileSubmenu {
    pub title: String,
    pub choices: Vec<MenuChoice>,
}

/// The labels of a submenu's entries.
pub open spec fn choice_labels(cs: Seq<MenuChoice>) -> Seq<Seq<char>> {
    cs.map_values(|c: MenuChoice| c.label@)
}

/// A submenu titled `title` with one entry per option, in order: its label
/// the option, its id the option after `prefix`, checked when the option
/// equals the current value, ignoring ASCII case.
pub open spec fn submenu_shows(
    m: ProfileSubmenu,
    title: Seq<char>,
    prefix: Seq<char>,
    current: Option<Seq<char>>,
    options: Seq<Seq<char>>,
) -> bool {
    &&& m.title@ == title
    &&& choice_labels(m.choices@) == options
    &&& forall|i: int|
        0 <= i < m.choices@.len() ==> {
            &&& (#[trigger] m.choices@[i]).id@ == prefix + options[i]
            &&& m.choices@[i].checked == (current matches Some(c) && ascii_lower(c)
                == ascii_lower(options[i]))
        }
}

/// The submenu for a list of options.
pub fn build_profile_submenu(
    title: &str,
    prefix: &str,
    current: Option<&str>,
    options: Vec<String>,
) -> (r: ProfileSubmenu)
    ensures
        submenu_shows(
            r,
            title@,
            prefix@,
            match current {
                Some(c) => Some(c@),
                None => None,
            },
            views(options@),
        ),
{
    let current_lower: Option<Vec<char>> = match current {
        Some(c) => Some(lower_chars(&chars_of(c))),
        None => None,
    };
    let mut choices: Vec<MenuChoice> = Vec::new();
    let mut i: usize = 0;
    while i < options.len()
        invariant
            i <= options@.len(),
            choices@.len() == i,
            current_lower matches Some(l) ==> current matches Some(c) && l@ == ascii_lower(c@),
            current_lower is None ==> current is None,
            forall|k: int|
                0 <= k < i ==> {
                    &&& (#[trigger] choices@[k]).label@ == options@[k]@
                    &&& choices@[k].id@ == prefix@ + options@[k]@
                    &&& choices@[k].checked == (current matches Some(c) && ascii_lower(c@)
                        == ascii_lower(options@[k]@))
                },
        decreases options@.len() - i,
    {
        let option = &options[i];
        let checked = match &current_lower {
            Some(l) => {
                let o = lower_chars(&chars_of(option.as_str()));
                crate::tray::same_chars(l, &o)
            },
            None => false,
        };
        let mut id = owned(prefix);
        id.append(option.as_str());
        choices.push(MenuChoice { id, label: option.clone(), checked });
        i = i + 1;
    }
    let r = ProfileSubmenu { title: owned(title), choices };
    assert(choice_labels(r.choices@) =~= views(options@));
    r
}

/// One entry of the tray menu.
pub enum MenuEntry {
    /// A plain entry: its id, its label, and whether it can be clicked.
    Item { id: String, label: String, enabled: bool },
    /// A checkable entry: its id, its label, whether it can be clicked, and
    /// whether it is checked.
    Check { id: String, label: String, enabled: bool, checked: bool },
    /// A line between groups of entries.
    Separator,
    /// A submenu of profiles or modes to switch to.
    Submenu(ProfileSubmenu),
}

/// The tray menu, as plain values: its entries, top to bottom.
pub struct TrayMenuModel {
    pub entries: Vec<MenuEntry>,
}

/// A plain entry with this id, label and clickability.
pub open spec fn plain_entry(e: MenuEntry, id: Seq<char>, label: Seq<char>, enabled: bool) -> bool {
    e matches MenuEntry::Item { id: i, label: l, enabled: en } && i@ == id && l@ == label && en
        == enabled
}

/// A clickable checkable entry with this id and label, checked as given.
pub open spec fn check_entry(e: MenuEntry, id: Seq<char>, label: Seq<char>, checked: bool) -> bool {
    e matches MenuEntry::Check { id: i, label: l, enabled: en, checked: c } && i@ == id && l@
        == label && en && c == checked
}

/// A submenu titled `title` whose ids start with `prefix`, offering the
/// options read from `listed` (or the `fallback` names) and checking `current`.
pub open spec fn profile_entry(
    e: MenuEntry,
    title: Seq<char>,
    prefix: Seq<char>,
    current: Option<Seq<char>>,
    listed: Option<Seq<char>>,
    fallback: Seq<Seq<char>>,
) -> bool {
    e matches MenuEntry::Submenu(m) && menu_options(listed, fallback, choice_labels(m.choices@))
        && submenu_shows(m, title, prefix, current, choice_labels(m.choices@))
}

/// The text of an optional string.
pub open spec fn opt_text(o: Option<String>) -> Option<Seq<char>> {
    match o {
        Some(s) => Some(s@),
        None => None,
    }
}

/// The names offered when supergfxd does not list the modes it supports.
pub open spec fn gpu_fallback() -> Seq<Seq<char>> {
    seq!["Hybrid"@, "Integrated"@, "NvidiaNoModeset"@, "Vfio"@, "AsusEgpu"@, "AsusMuxDgpu"@]
}

/// The names offered when power-profiles-daemon does not list its profiles.
pub open spec fn power_fallback() -> Seq<Seq<char>> {
    seq!["power-saver"@, "balanced"@, "performance"@]
}

/// The names offered when asusd does not list its platform profiles.
pub open spec fn platform_fallback() -> Seq<Seq<char>> {
    seq!["balanced"@, "performance"@, "quiet"@, "low-power"@, "custom"@]
}

/// The tray menu for a dashboard snapshot, thirteen entries in this order:
/// the status line and the daemon line, neither clickable; a separator; the
/// GPU mode, power profile and platform profile submenus, each offering the
/// choices the daemon lists (or the fallback names) and checking the current
/// one; Refresh Status; Start on boot and Minimize to tray on close, checked
/// as given; Show Window; Hide Window; a separator; and Quit.
pub open spec fn menu_shows(
    m: TrayMenuModel,
    s: DashboardSnapshotDto,
    autostart_enabled: bool,
    minimize_to_tray_enabled: bool,
) -> bool {
    let e = m.entries@;
    &&& e.len() == 13
    &&& plain_entry(e[0], "tray:status"@, status_text(s), false)
    &&& plain_entry(e[1], "tray:daemon-status"@, daemon_text(s.health), false)
    &&& e[2] is Separator
    &&& profile_entry(
        e[3],
        "GPU mode"@,
        "tray:gpu:"@,
        opt_text(s.gpu.mode),
        opt_text(s.gpu.supported_modes),
        gpu_fallback(),
    )
    &&& profile_entry(
        e[4],
        "Power profile"@,
        "tray:power:"@,
        opt_text(s.power.active_profile),
        opt_text(s.power.profiles),
        power_fallback(),
    )
    &&& profile_entry(
        e[5],
        "Platform profile"@,
        "tray:platform:"@,
        opt_text(s.platform.platform_profile),
        opt_text(s.platform.platform_profile_choices),
        platform_fallback(),
    )
    &&& plain_entry(e[6], "tray:refresh"@, "Refresh Status"@, true)
    &&& check_entry(e[7], "tray:autostart-toggle"@, "Start on boot"@, autostart_enabled)
    &&& check_entry(
        e[8],
        "tray:minimize-to-tray-toggle"@,
        "Minimize to tray on close"@,
        minimize_to_tray_enabled,
    )
    &&& plain_entry(e[9], "tray:show-window"@, "Show Window"@, true)
    &&& plain_entry(e[10], "tray:hide-window"@, "Hide Window"@, true)
    &&& e[11] is Separator
    &&& plain_entry(e[12], "tray:quit"@, "Quit"@, true)
}

fn item(id: &str, label: &str, enabled: bool) -> (r: MenuEntry)
    ensures
        plain_entry(r, id@, label@, enabled),
{
    MenuEntry::Item { id: owned(id), label: owned(label), enabled }
}

fn check(id: &str, label: &str, checked: bool) -> (r: MenuEntry)
    ensures
        check_entry(r, id@, label@, checked),
{
    MenuEntry::Check { id: owned(id), label: owned(label), enabled: true, checked }
}

fn opt_str(o: &Option<String>) -> (r: Option<&str>)
    ensures
        match r {
            Some(t) => *o matches Some(s) && t@ == s@,
            None => *o is None,
        },
{
    match o {
        Some(s) => Some(s.as_str()),
        None => None,
    }
}

/// The tray menu for a dashboard snapshot.
pub fn build_menu(
    snapshot: &DashboardSnapshotDto,
    autostart_enabled: bool,
    minimize_to_tray_enabled: bool,
) -> (r: TrayMenuModel)
    ensures
        menu_shows(r, *snapshot, autostart_enabled, minimize_to_tray_enabled),
{
    let gpu_fallback_names: [&str; 6] = [
        "Hybrid",
        "Integrated",
        "NvidiaNoModeset",
        "Vfio",
        "AsusEgpu",
        "AsusMuxDgpu",
    ];
    let power_fallback_names: [&str; 3] = ["power-saver", "balanced", "performance"];
    let platform_fallback_names: [&str; 5] = [
        "balanced",
        "performance",
        "quiet",
        "low-power",
        "custom",
    ];
    assert(str_views(gpu_fallback_names@) =~= gpu_fallback());
    assert(str_views(power_fallback_names@) =~= power_fallback());
    assert(str_views(platform_fallback_names@) =~= platform_fallback());
    let gpu_options = extract_options(
        opt_str(&snapshot.gpu.supported_modes),
        gpu_fallback_names.as_slice(),
    );
    let gpu = build_profile_submenu(
        "GPU mode",
        "tray:gpu:",
        opt_str(&snapshot.gpu.mode),
        gpu_options,
    );
    let power_options = extract_options(
        opt_str(&snapshot.power.profiles),
        power_fallback_names.as_slice(),
    );
    let power = build_profile_submenu(
        "Power profile",
        "tray:power:",
        opt_str(&snapshot.power.active_profile),
        power_options,
    );
    let platform_options = extract_options(
        opt_str(&snapshot.platform.platform_profile_choices),
        platform_fallback_names.as_slice(),
    );
    let platform = build_profile_submenu(
        "Platform profile",
        "tray:platform:",
        opt_str(&snapshot.platform.platform_profile),
        platform_options,
    );
    let mut entries: Vec<MenuEntry> = Vec::new();
    entries.push(MenuEntry::Item {
        id: owned("tray:status"),
        label: status_line(snapshot),
        enabled: false,
    });
    entries.push(MenuEntry::Item {
        id: owned("tray:daemon-status"),
        label: daemon_health_line(snapshot),
        enabled: false,
    });
    entries.push(MenuEntry::Separator);
    entries.push(MenuEntry::Submenu(gpu));
    entries.push(MenuEntry::Submenu(power));
    entries.push(MenuEntry::Submenu(platform));
    entries.push(item("tray:refresh", "Refresh Status", true));
    entries.push(check("tray:autostart-toggle", "Start on boot", autostart_enabled));
    entries.push(check("tray:minimize-to-tray-toggle", "Minimize to tray on close", minimize_to_tray_enabled));
    entries.push(item("tray:show-window", "Show Window", true));
    entries.push(item("tray:hide-window", "Hide Window", true));
    entries.push(MenuEntry::Separator);
    entries.push(item("tray:quit", "Quit", true));
    TrayMenuModel { entries }
}

/// What a tray menu entry asks for.
pub enum TrayAction {
    Refresh,
    ShowWindow,
    HideWindow,
    ToggleAutostart,
    ToggleMinimize,
    Quit,
    SetGpuMode(String),
    SetPowerProfile(String),
    SetPlatformProfile(String),
    /// An entry that does nothing (the status lines).
    Nothing,
}

/// `s` with every leading repetition of `prefix` removed; an empty `prefix`
/// removes nothing.
pub open spec fn strip_prefix_repeatedly(s: Seq<char>, prefix: Seq<char>) -> Seq<char>
    decreases s.len(),
{
    if prefix.len() > 0 && prefix.len() <= s.len() && s.take(prefix.len() as int) == prefix {
        strip_prefix_repeatedly(s.skip(prefix.len() as int), prefix)
    } else {
        s
    }
}

/// What the menu entry with id `id` asks for. The fixed entries are matched
/// exactly; a GPU, power or platform entry is recognised by its prefix and
/// carries the id with that prefix removed (as often as it repeats).
pub open spec fn menu_action_of(id: Seq<char>) -> TrayAction {
    if id == "tray:refresh"@ {
        TrayAction::Refresh
    } else if id == "tray:show-window"@ {
        TrayAction::ShowWindow
    } else if id == "tray:hide-window"@ {
        TrayAction::HideWindow
    } else if id == "tray:autostart-toggle"@ {
        TrayAction::ToggleAutostart
    } else if id == "tray:minimize-to-tray-toggle"@ {
        TrayAction::ToggleMinimize
    } else if id == "tray:quit"@ {
        TrayAction::Quit
    } else if starts_with(id, "tray:gpu:"@) {
        TrayAction::SetGpuMode(arbitrary())
    } else if starts_with(id, "tray:power:"@) {
        TrayAction::SetPowerProfile(arbitrary())
    } else if starts_with(id, "tray:platform:"@) {
        TrayAction::SetPlatformProfile(arbitrary())
    } else {
        TrayAction::Nothing
    }
}

/// The action asked for, compared variant by variant, with the text an entry
/// carries compared by its characters.
pub open spec fn action_matches(a: TrayAction, id: Seq<char>) -> bool {
    match (a, menu_action_of(id)) {
        (TrayAction::Refresh, TrayAction::Refresh) => true,
        (TrayAction::ShowWindow, TrayAction::ShowWindow) => true,
        (TrayAction::HideWindow, TrayAction::HideWindow) => true,
        (TrayAction::ToggleAutostart, TrayAction::ToggleAutostart) => true,
        (TrayAction::ToggleMinimize, TrayAction::ToggleMinimize) => true,
        (TrayAction::Quit, TrayAction::Quit) => true,
        (TrayAction::SetGpuMode(m), TrayAction::SetGpuMode(_)) => m@ == strip_prefix_repeatedly(
            id,
            "tray:gpu:"@,
        ),
        (TrayAction::SetPowerProfile(p), TrayAction::SetPowerProfile(_)) => p@
            == strip_prefix_repeatedly(id, "tray:power:"@),
        (TrayAction::SetPlatformProfile(p), TrayAction::SetPlatformProfile(_)) => p@
            == strip_prefix_repeatedly(id, "tray:platform:"@),
        (TrayAction::Nothing, TrayAction::Nothing) => true,
        _ => false,
    }
}

/// `s` with every leading repetition of `prefix` removed.
pub fn trim_start_matches(s: &str, prefix: &str) -> (r: String)
    ensures
        r@ == strip_prefix_repeatedly(s@, prefix@),
{
    let v = chars_of(s);
    let p = chars_of(prefix);
    let n = v.len();
    let m = p.len();
    if m == 0 {
        return owned(s);
    }
    let mut start: usize = 0;
    assert(v@.skip(0) =~= v@);
    loop
        invariant
            v@ == s@,
            p@ == prefix@,
            n == v@.len(),
            m == p@.len(),
            m > 0,
            start <= n,
            strip_prefix_repeatedly(s@, prefix@) == strip_prefix_repeatedly(
                v@.skip(start as int),
                p@,
            ),
        ensures
            start <= n,
            strip_prefix_repeatedly(s@, prefix@) == v@.skip(start as int),
        decreases n - start,
    {
        if m > n - start {
            assert(strip_prefix_repeatedly(v@.skip(start as int), p@) == v@.skip(start as int));
            break;
        }
        let mut i: usize = 0;
        let mut same = true;
        while i < m
            invariant
                start + m <= n,
                n == v@.len(),
                m == p@.len(),
                i <= m,
                same == (forall|k: int| 0 <= k < i ==> v@[start + k] == p@[k]),
            decreases m - i,
        {
            if v[start + i] != p[i] {
                same = false;
            }
            i = i + 1;
        }
        let ghost rest = v@.skip(start as int);
        if !same {
            assert(rest.take(m as int) != p@) by {
                let k = choose|k: int| 0 <= k < m && v@[start + k] != p@[k];
                assert(rest.take(m as int)[k] == v@[start + k]);
            }
            assert(strip_prefix_repeatedly(rest, p@) == rest);
            break;
        }
        assert(rest.take(m as int) =~= p@);
        assert(rest.skip(m as int) =~= v@.skip(start + m));
        start = start + m;
    }
    string_of_range_of(&v, start)
}

fn string_of_range_of(v: &Vec<char>, start: usize) -> (r: String)
    requires
        start <= v@.len(),
    ensures
        r@ == v@.skip(start as int),
{
    let r = crate::text::string_of_range(v.as_slice(), start, v.len());
    assert(v@.subrange(start as int, v@.len() as int) =~= v@.skip(start as int));
    r
}

/// What the menu entry with id `id` asks for.
pub fn classify_menu_event(id: &str) -> (r: TrayAction)
    ensures
        action_matches(r, id@),
{
    let v = chars_of(id);
    if text_is(&v, "tray:refresh") {
        TrayAction::Refresh
    } else if text_is(&v, "tray:show-window") {
        TrayAction::ShowWindow
    } else if text_is(&v, "tray:hide-window") {
        TrayAction::HideWindow
    } else if text_is(&v, "tray:autostart-toggle") {
        TrayAction::ToggleAutostart
    } else if text_is(&v, "tray:minimize-to-tray-toggle") {
        TrayAction::ToggleMinimize
    } else if text_is(&v, "tray:quit") {
        TrayAction::Quit
    } else if has_prefix(&v, &chars_of("tray:gpu:")) {
        proof {
            reveal_strlit("tray:gpu:");
        }
        TrayAction::SetGpuMode(trim_start_matches(id, "tray:gpu:"))
    } else if has_prefix(&v, &chars_of("tray:power:")) {
        proof {
            reveal_strlit("tray:power:");
        }
        TrayAction::SetPowerProfile(trim_start_matches(id, "tray:power:"))
    } else if has_prefix(&v, &chars_of("tray:platform:")) {
        proof {
            reveal_strlit("tray:platform:");
        }
        TrayAction::SetPlatformProfile(trim_start_matches(id, "tray:platform:"))
    } else {
        TrayAction::Nothing
    }
}

/// What the user is told after a GPU, power or platform entry: on success,
/// and (before the error) on failure.
pub open spec fn control_messages(a: TrayAction) -> Option<(Seq<char>, Seq<char>)> {
    match a {
        TrayAction::SetGpuMode(m) => Some(
            ("GPU mode set to "@ + m@, "Failed to set GPU mode to "@ + m@),
        ),
        TrayAction::SetPowerProfile(p) => Some(
            ("Power profile set to "@ + p@, "Failed to set power profile to "@ + p@),
        ),
        TrayAction::SetPlatformProfile(p) => Some(
            ("Platform profile set to "@ + p@, "Failed to set platform profile to "@ + p@),
        ),
        _ => None,
    }
}

/// The success and failure messages of a GPU, power or platform entry.
pub fn control_action_messages(action: &TrayAction) -> (r: Option<(String, String)>)
    ensures
        match (r, control_messages(*action)) {
            (Some((s, f)), Some((ss, ff))) => s@ == ss && f@ == ff,
            (None, None) => true,
            _ => false,
        },
{
    match action {
        TrayAction::SetGpuMode(m) => {
            let mut s = owned("GPU mode set to ");
            s.append(m.as_str());
            let mut f = owned("Failed to set GPU mode to ");
            f.append(m.as_str());
            Some((s, f))
        },
        TrayAction::SetPowerProfile(p) => {
            let mut s = owned("Power profile set to ");
            s.append(p.as_str());
            let mut f = owned("Failed to set power profile to ");
            f.append(p.as_str());
            Some((s, f))
        },
        TrayAction::SetPlatformProfile(p) => {
            let mut s = owned("Platform profile set to ");
            s.append(p.as_str());
            let mut f = owned("Failed to set platform profile to ");
            f.append(p.as_str());
            Some((s, f))
        },
        _ => None,
    }
}

/// The notice shown when an action fails: its failure message, a colon, and
/// the error.
pub fn failure_notice(failure_message: &str, error: &str) -> (r: String)
    ensures
        r@ == failure_message@ + ": "@ + error@,
{
    let mut r = owned(failure_message);
    r.append(": ");
    r.append(error);
    r
}

/// The notice shown after toggling minimise-to-tray.
pub fn minimize_notice(enabled: bool) -> (r: &'static str)
    ensures
        r@ == if enabled {
            "Minimize-to-tray enabled."@
        } else {
            "Minimize-to-tray disabled."@
        },
{
    if enabled {
        "Minimize-to-tray enabled."
    } else {
        "Minimize-to-tray disabled."
    }
}

/// The notice shown after toggling start-on-boot.
pub fn autostart_notice(enabled: bool) -> (r: &'static str)
    ensures
        r@ == if enabled {
            "Start-on-boot enabled."@
        } else {
            "Start-on-boot disabled."@
        },
{
    if enabled {
        "Start-on-boot enabled."
    } else {
        "Start-on-boot disabled."
    }
}

/// Whether closing a window only hides it: a close request on the main
/// window while minimising to the tray is on.
pub fn hides_on_close(close_requested: bool, window_label: &str, minimize_to_tray: bool) -> (r: bool)
    ensures
        r == (close_requested && window_label@ == "main"@ && minimize_to_tray),
{
    close_requested && text_is(&chars_of(window_label), "main") && minimize_to_tray
}

/// Whether the main window is hidden at start: when the app is to start
/// silently in the tray.
pub fn starts_hidden(launch_behavior: LaunchBehavior) -> (r: bool)
    ensures
        r == (launch_behavior == LaunchBehavior::Silent),
{
    match launch_behavior {
        LaunchBehavior::Silent => true,
        LaunchBehavior::Normal => false,
    }
}

/// Every character of the text may belong to an option's name.
pub open spec fn all_option_chars(t: Seq<char>) -> bool {
    forall|k: int| 0 <= k < t.len() ==> option_char(#[trigger] t[k])
}

proof fn lemma_scan_runs_chars(s: Seq<char>)
    ensures
        forall|i: int|
            0 <= i < scan_runs(s).0.len() ==> all_option_chars(#[trigger] scan_runs(s).0[i]),
        all_option_chars(scan_runs(s).1),
    decreases s.len(),
{
    if s.len() > 0 {
        lemma_scan_runs_chars(s.drop_last());
        let (done, cur) = scan_runs(s.drop_last());
        let c = s.last();
        if option_char(c) {
            assert forall|k: int| 0 <= k < cur.push(c).len() implies option_char(
                #[trigger] cur.push(c)[k],
            ) by {
                if k < cur.len() {
                    assert(cur.push(c)[k] == cur[k]);
                }
            }
        } else if cur.len() > 0 {
            assert forall|i: int| 0 <= i < done.push(cur).len() implies all_option_chars(
                #[trigger] done.push(cur)[i],
            ) by {
                if i < done.len() {
                    assert(done.push(cur)[i] == done[i]);
                }
            }
        }
    }
}

/// The names found in a list of choices are made of option characters only.
proof fn lemma_tokens_option_chars(s: Seq<char>)
    ensures
        forall|i: int|
            0 <= i < option_tokens(s).len() ==> all_option_chars(#[trigger] option_tokens(s)[i]),
{
    lemma_scan_runs_chars(s);
    let (done, cur) = scan_runs(s);
    if cur.len() > 0 {
        assert forall|i: int| 0 <= i < done.push(cur).len() implies all_option_chars(
            #[trigger] done.push(cur)[i],
        ) by {
            if i < done.len() {
                assert(done.push(cur)[i] == done[i]);
            }
        }
    }
}

/// The id of a submenu entry, its prefix followed by an option without a
/// colon, is recognised by that prefix, and carries the option back.
proof fn lemma_entry_id(prefix: Seq<char>, option: Seq<char>)
    requires
        prefix.len() > 4,
        prefix[4] == ':',
        !option.contains(':'),
    ensures
        starts_with(prefix + option, prefix),
        strip_prefix_repeatedly(prefix + option, prefix) == option,
{
    let id = prefix + option;
    assert(id.take(prefix.len() as int) =~= prefix);
    assert(id.skip(prefix.len() as int) =~= option);
    if prefix.len() <= option.len() && option.take(prefix.len() as int) == prefix {
        assert(option[4] == option.take(prefix.len() as int)[4]);
        assert(option.contains(':'));
    }
    assert(strip_prefix_repeatedly(option, prefix) == option);
    assert(strip_prefix_repeatedly(id, prefix) == strip_prefix_repeatedly(
        id.skip(prefix.len() as int),
        prefix,
    ));
}

/// What clicking the entry with id `id` does: switch, under the entry's
/// prefix, to the option `option`.
pub open spec fn entry_switches_to(id: Seq<char>, prefix: Seq<char>, option: Seq<char>) -> bool {
    &&& (if prefix == "tray:gpu:"@ {
        menu_action_of(id) is SetGpuMode
    } else if prefix == "tray:power:"@ {
        menu_action_of(id) is SetPowerProfile
    } else {
        menu_action_of(id) is SetPlatformProfile
    })
    &&& strip_prefix_repeatedly(id, prefix) == option
}

proof fn lemma_prefixed_id_action(prefix: Seq<char>, option: Seq<char>)
    requires
        prefix == "tray:gpu:"@ || prefix == "tray:power:"@ || prefix == "tray:platform:"@,
        !option.contains(':'),
    ensures
        entry_switches_to(prefix + option, prefix, option),
{
    reveal_strlit("tray:gpu:");
    reveal_strlit("tray:power:");
    reveal_strlit("tray:platform:");
    reveal_strlit("tray:refresh");
    reveal_strlit("tray:show-window");
    reveal_strlit("tray:hide-window");
    reveal_strlit("tray:autostart-toggle");
    reveal_strlit("tray:minimize-to-tray-toggle");
    reveal_strlit("tray:quit");
    lemma_entry_id(prefix, option);
    let id = prefix + option;
    assert(id[5] == prefix[5]);
    assert(id[6] == prefix[6]);
    assert(id != "tray:refresh"@) by {
        assert("tray:refresh"@[5] == 'r');
    }
    assert(id != "tray:show-window"@) by {
        assert("tray:show-window"@[5] == 's');
    }
    assert(id != "tray:hide-window"@) by {
        assert("tray:hide-window"@[5] == 'h');
    }
    assert(id != "tray:autostart-toggle"@) by {
        assert("tray:autostart-toggle"@[5] == 'a');
    }
    assert(id != "tray:minimize-to-tray-toggle"@) by {
        assert("tray:minimize-to-tray-toggle"@[5] == 'm');
    }
    assert(id != "tray:quit"@) by {
        assert("tray:quit"@[5] == 'q');
    }
    if prefix != "tray:gpu:"@ {
        assert(!starts_with(id, "tray:gpu:"@)) by {
            assert(id.take(9)[5] == id[5]);
        }
    }
    if prefix == "tray:platform:"@ {
        assert(!starts_with(id, "tray:power:"@)) by {
            assert(id.take(11)[6] == id[6]);
        }
    }
}

/// Whether a text holds no colon.
proof fn lemma_no_colon(t: Seq<char>)
    requires
        all_option_chars(t),
    ensures
        !t.contains(':'),
{
    if t.contains(':') {
        let k = choose|k: int| 0 <= k < t.len() && t[k] == ':';
        assert(option_char(t[k]));
    }
}

/// The options of a submenu hold no colon, whether they were read from the
/// daemon's list or are the fallback names.
proof fn lemma_options_no_colon(raw: Option<Seq<char>>, fallback: Seq<Seq<char>>, r: Seq<Seq<char>>)
    requires
        menu_options(raw, fallback, r),
        forall|j: int| 0 <= j < fallback.len() ==> !(#[trigger] fallback[j]).contains(':'),
    ensures
        forall|j: int| 0 <= j < r.len() ==> !(#[trigger] r[j]).contains(':'),
{
    assert forall|j: int| 0 <= j < r.len() implies !(#[trigger] r[j]).contains(':') by {
        match raw {
            Some(text) => {
                if option_tokens(text).len() > 0 {
                    lemma_tokens_option_chars(text);
                    assert(r.to_set().contains(r[j]));
                    assert(option_tokens(text).to_set().contains(r[j]));
                    let k = choose|k: int|
                        0 <= k < option_tokens(text).len() && option_tokens(text)[k] == r[j];
                    lemma_no_colon(option_tokens(text)[k]);
                } else {
                    assert(r[j] == fallback[j]);
                }
            },
            None => {
                assert(r[j] == fallback[j]);
            },
        }
    }
}

proof fn lemma_fallbacks_no_colon()
    ensures
        forall|j: int| 0 <= j < gpu_fallback().len() ==> !(#[trigger] gpu_fallback()[j]).contains(':'),
        forall|j: int|
            0 <= j < power_fallback().len() ==> !(#[trigger] power_fallback()[j]).contains(':'),
        forall|j: int|
            0 <= j < platform_fallback().len() ==> !(#[trigger] platform_fallback()[j]).contains(
                ':',
            ),
{
    reveal_strlit("Hybrid");
    reveal_strlit("Integrated");
    reveal_strlit("NvidiaNoModeset");
    reveal_strlit("Vfio");
    reveal_strlit("AsusEgpu");
    reveal_strlit("AsusMuxDgpu");
    reveal_strlit("power-saver");
    reveal_strlit("balanced");
    reveal_strlit("performance");
    reveal_strlit("quiet");
    reveal_strlit("low-power");
    reveal_strlit("custom");
    assert forall|j: int| 0 <= j < gpu_fallback().len() implies all_option_chars(
        #[trigger] gpu_fallback()[j],
    ) by {}
    assert forall|j: int| 0 <= j < power_fallback().len() implies all_option_chars(
        #[trigger] power_fallback()[j],
    ) by {}
    assert forall|j: int| 0 <= j < platform_fallback().len() implies all_option_chars(
        #[trigger] platform_fallback()[j],
    ) by {}
    assert forall|j: int| 0 <= j < gpu_fallback().len() implies !(
    #[trigger] gpu_fallback()[j]).contains(':') by {
        lemma_no_colon(gpu_fallback()[j]);
    }
    assert forall|j: int| 0 <= j < power_fallback().len() implies !(
    #[trigger] power_fallback()[j]).contains(':') by {
        lemma_no_colon(power_fallback()[j]);
    }
    assert forall|j: int| 0 <= j < platform_fallback().len() implies !(
    #[trigger] platform_fallback()[j]).contains(':') by {
        lemma_no_colon(platform_fallback()[j]);
    }
}

/// Every choice of a submenu entry asks, when clicked, to switch under
/// `prefix` to the option it shows.
pub open spec fn submenu_switches(e: MenuEntry, prefix: Seq<char>) -> bool {
    e matches MenuEntry::Submenu(g) && forall|i: int|
        0 <= i < g.choices@.len() ==> entry_switches_to(
            (#[trigger] g.choices@[i]).id@,
            prefix,
            g.choices@[i].label@,
        )
}

/// What clicking a plain or checkable entry asks for.
pub open spec fn entry_action(e: MenuEntry) -> TrayAction {
    match e {
        MenuEntry::Item { id, .. } => menu_action_of(id@),
        MenuEntry::Check { id, .. } => menu_action_of(id@),
        _ => TrayAction::Nothing,
    }
}

proof fn lemma_submenu_switches(
    e: MenuEntry,
    title: Seq<char>,
    prefix: Seq<char>,
    current: Option<Seq<char>>,
    listed: Option<Seq<char>>,
    fallback: Seq<Seq<char>>,
)
    requires
        profile_entry(e, title, prefix, current, listed, fallback),
        prefix == "tray:gpu:"@ || prefix == "tray:power:"@ || prefix == "tray:platform:"@,
        forall|j: int| 0 <= j < fallback.len() ==> !(#[trigger] fallback[j]).contains(':'),
    ensures
        submenu_switches(e, prefix),
{
    match e {
        MenuEntry::Submenu(g) => {
            lemma_options_no_colon(listed, fallback, choice_labels(g.choices@));
            assert forall|i: int| 0 <= i < g.choices@.len() implies entry_switches_to(
                (#[trigger] g.choices@[i]).id@,
                prefix,
                g.choices@[i].label@,
            ) by {
                assert(choice_labels(g.choices@)[i] == g.choices@[i].label@);
                lemma_prefixed_id_action(prefix, g.choices@[i].label@);
            }
        },
        _ => {},
    }
}

/// Clicking an entry of the tray menu does what the entry says: each choice
/// of the GPU mode, power profile and platform profile submenus asks to switch
/// to the option it shows; Refresh Status, Start on boot, Minimize to tray on
/// close, Show Window, Hide Window and Quit ask for their own actions; the two
/// status lines ask for nothing.
pub proof fn lemma_menu_entries_switch_to_their_option(
    m: TrayMenuModel,
    s: DashboardSnapshotDto,
    autostart_enabled: bool,
    minimize_to_tray_enabled: bool,
)
    requires
        menu_shows(m, s, autostart_enabled, minimize_to_tray_enabled),
    ensures
        submenu_switches(m.entries@[3], "tray:gpu:"@),
        submenu_switches(m.entries@[4], "tray:power:"@),
        submenu_switches(m.entries@[5], "tray:platform:"@),
        entry_action(m.entries@[0]) is Nothing,
        entry_action(m.entries@[1]) is Nothing,
        entry_action(m.entries@[6]) is Refresh,
        entry_action(m.entries@[7]) is ToggleAutostart,
        entry_action(m.entries@[8]) is ToggleMinimize,
        entry_action(m.entries@[9]) is ShowWindow,
        entry_action(m.entries@[10]) is HideWindow,
        entry_action(m.entries@[12]) is Quit,
{
    let e = m.entries@;
    lemma_fallbacks_no_colon();
    lemma_submenu_switches(
        e[3],
        "GPU mode"@,
        "tray:gpu:"@,
        opt_text(s.gpu.mode),
        opt_text(s.gpu.supported_modes),
        gpu_fallback(),
    );
    lemma_submenu_switches(
        e[4],
        "Power profile"@,
        "tray:power:"@,
        opt_text(s.power.active_profile),
        opt_text(s.power.profiles),
        power_fallback(),
    );
    lemma_submenu_switches(
        e[5],
        "Platform profile"@,
        "tray:platform:"@,
        opt_text(s.platform.platform_profile),
        opt_text(s.platform.platform_profile_choices),
        platform_fallback(),
    );
    lemma_status_ids_do_nothing();
    lemma_toggle_ids_act();
}

proof fn lemma_toggle_ids_act()
    ensures
        menu_action_of("tray:refresh"@) is Refresh,
        menu_action_of("tray:show-window"@) is ShowWindow,
        menu_action_of("tray:hide-window"@) is HideWindow,
        menu_action_of("tray:autostart-toggle"@) is ToggleAutostart,
        menu_action_of("tray:minimize-to-tray-toggle"@) is ToggleMinimize,
        menu_action_of("tray:quit"@) is Quit,
{
    reveal_strlit("tray:refresh");
    reveal_strlit("tray:show-window");
    reveal_strlit("tray:hide-window");
    reveal_strlit("tray:autostart-toggle");
    reveal_strlit("tray:minimize-to-tray-toggle");
    reveal_strlit("tray:quit");
    let r = "tray:refresh"@;
    let sw = "tray:show-window"@;
    let hw = "tray:hide-window"@;
    let a = "tray:autostart-toggle"@;
    let m = "tray:minimize-to-tray-toggle"@;
    let q = "tray:quit"@;
    assert(sw[5] != r[5]);
    assert(hw[5] != r[5] && hw[5] != sw[5]);
    assert(a[5] != r[5] && a[5] != sw[5] && a[5] != hw[5]);
    assert(m[5] != r[5] && m[5] != sw[5] && m[5] != hw[5] && m[5] != a[5]);
    assert(q[5] != r[5] && q[5] != sw[5] && q[5] != hw[5] && q[5] != a[5] && q[5] != m[5]);
}

proof fn lemma_status_ids_do_nothing()
    ensures
        menu_action_of("tray:status"@) is Nothing,
        menu_action_of("tray:daemon-status"@) is Nothing,
{
    reveal_strlit("tray:status");
    reveal_strlit("tray:daemon-status");
    reveal_strlit("tray:gpu:");
    reveal_strlit("tray:power:");
    reveal_strlit("tray:platform:");
    reveal_strlit("tray:refresh");
    reveal_strlit("tray:show-window");
    reveal_strlit("tray:hide-window");
    reveal_strlit("tray:autostart-toggle");
    reveal_strlit("tray:minimize-to-tray-toggle");
    reveal_strlit("tray:quit");
    let st = "tray:status"@;
    let ds = "tray:daemon-status"@;
    assert(st != "tray:refresh"@ && st != "tray:show-window"@ && st != "tray:hide-window"@
        && st != "tray:autostart-toggle"@ && st != "tray:minimize-to-tray-toggle"@
        && st != "tray:quit"@) by {
        assert(st[6] != "tray:show-window"@[6]);
        assert(st[5] != "tray:refresh"@[5]);
        assert(st[5] != "tray:hide-window"@[5]);
        assert(st[5] != "tray:autostart-toggle"@[5]);
        assert(st[5] != "tray:minimize-to-tray-toggle"@[5]);
        assert(st[5] != "tray:quit"@[5]);
    }
    assert(!starts_with(st, "tray:gpu:"@)) by {
        assert(st.take(9)[5] == st[5]);
    }
    assert(!starts_with(st, "tray:power:"@)) by {
        assert(st.take(11)[5] == st[5]);
    }
    assert(!starts_with(st, "tray:platform:"@));
    assert(ds != "tray:refresh"@ && ds != "tray:show-window"@ && ds != "tray:hide-window"@
        && ds != "tray:autostart-toggle"@ && ds != "tray:minimize-to-tray-toggle"@
        && ds != "tray:quit"@) by {
        assert(ds[5] != "tray:refresh"@[5]);
        assert(ds[5] != "tray:show-window"@[5]);
        assert(ds[5] != "tray:hide-window"@[5]);
        assert(ds[5] != "tray:autostart-toggle"@[5]);
        assert(ds[5] != "tray:minimize-to-tray-toggle"@[5]);
        assert(ds[5] != "tray:quit"@[5]);
    }
    assert(!starts_with(ds, "tray:gpu:"@)) by {
        assert(ds.take(9)[5] == ds[5]);
    }
    assert(!starts_with(ds, "tray:power:"@)) by {
        assert(ds.take(11)[5] == ds[5]);
    }
    assert(!starts_with(ds, "tray:platform:"@)) by {
        assert(ds.take(14)[5] == ds[5]);
    }
}

} // verus!
