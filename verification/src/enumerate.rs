//! Enumeration of candidate top-level windows.
//!
//! The shell walks the operating system's top-level windows and reports,
//! for each, a handle, its visibility, the result of reading its title and
//! the raw results of the icon queries. This module decides which windows
//! make the list: invisible windows, windows without a readable or
//! non-empty title and windows bearing an excluded title are skipped; for
//! the rest an icon is resolved through an ordered fallback chain; and a
//! window whose icon fast paths all failed replaces an earlier entry with
//! the same title, since packaged applications can surface twice — once as
//! the application's own window and once as its frame host.

use vstd::prelude::*;
use vstd::string::*;

verus! {

/// The raw icon query results for one window, as the shell obtained them
/// from the operating system. A zero value means that query yielded no
/// icon.
#[derive(Clone, Copy, PartialEq, Eq, Structural, Debug)]
pub struct IconSources {
    /// The window's own answer to the small-icon query.
    pub window_icon: u64,
    /// The small-icon slot of the window's class.
    pub class_small: u64,
    /// The large-icon slot of the window's class.
    pub class_large: u64,
    /// An icon synthesized from the window's application package, when the
    /// shell attempted that lookup.
    pub packaged: u64,
}

/// One top-level window as the shell found it: its handle, whether it is
/// visible, its title (`None` when the title could not be read) and its
/// icon query results.
#[derive(Clone, Debug)]
pub struct Candidate {
    pub handle: u64,
    pub visible: bool,
    pub title: Option<String>,
    pub icons: IconSources,
}

/// One entry of the resulting window list.
#[derive(Clone, Debug)]
pub struct WindowEntry {
    pub handle: u64,
    pub title: String,
    pub icon: Option<u64>,
}

/// Mathematical model of a candidate: the title as a character sequence.
pub ghost struct CandidateView {
    pub handle: u64,
    pub visible: bool,
    pub title: Option<Seq<char>>,
    pub icons: IconSources,
}

/// Mathematical model of a list entry.
pub ghost struct EntryView {
    pub handle: u64,
    pub title: Seq<char>,
    pub icon: Option<u64>,
}

impl View for Candidate {
    type V = CandidateView;

    open spec fn view(&self) -> CandidateView {
        CandidateView {
            handle: self.handle,
            visible: self.visible,
            title: match self.title {
                Some(t) => Some(t@),
                None => None,
            },
            icons: self.icons,
        }
    }
}

impl View for WindowEntry {
    type V = EntryView;

    open spec fn view(&self) -> EntryView {
        EntryView { handle: self.handle, title: self.title@, icon: self.icon }
    }
}

/// The views of a list of titles.
pub open spec fn title_views(ss: Seq<String>) -> Seq<Seq<char>> {
    ss.map_values(|s: String| s@)
}

/// The views of a list of candidates.
pub open spec fn candidate_views(cs: Seq<Candidate>) -> Seq<CandidateView> {
    cs.map_values(|c: Candidate| c@)
}

/// The views of a list of entries.
pub open spec fn entry_views(es: Seq<WindowEntry>) -> Seq<EntryView> {
    es.map_values(|e: WindowEntry| e@)
}

/// The icon the fallback chain yields: the window's own small icon, else
/// the class's small icon, else the class's large icon, else the packaged
/// application's icon, else none.
pub open spec fn resolved_icon(s: IconSources) -> Option<u64> {
    if s.window_icon != 0 {
        Some(s.window_icon)
    } else if s.class_small != 0 {
        Some(s.class_small)
    } else if s.class_large != 0 {
        Some(s.class_large)
    } else if s.packaged != 0 {
        Some(s.packaged)
    } else {
        None
    }
}

/// The three fast icon paths (window query and the two class slots) all
/// failed; only the packaged-application lookup can still supply an icon.
pub open spec fn fast_paths_failed(s: IconSources) -> bool {
    s.window_icon == 0 && s.class_small == 0 && s.class_large == 0
}

/// A title earns a place in the list when it is non-empty and not in the
/// exclusion set.
pub open spec fn title_admitted(t: Seq<char>, excluded: Seq<Seq<char>>) -> bool {
    t.len() > 0 && !excluded.contains(t)
}

/// A candidate passes the filter when it is visible, its title was read,
/// and that title is admitted.
pub open spec fn passes_filter(c: CandidateView, excluded: Seq<Seq<char>>) -> bool {
    &&& c.visible
    &&& c.title matches Some(t) && title_admitted(t, excluded)
}

/// The entry a passing candidate contributes.
pub open spec fn entry_for(c: CandidateView, use_icons: bool) -> EntryView
    recommends
        c.title is Some,
{
    EntryView {
        handle: c.handle,
        title: c.title->0,
        icon: if use_icons {
            resolved_icon(c.icons)
        } else {
            None
        },
    }
}

/// How many entries bear the title `t`.
pub open spec fn count_title(entries: Seq<EntryView>, t: Seq<char>) -> nat
    decreases entries.len(),
{
    if entries.len() == 0 {
        0
    } else {
        (if entries[0].title == t {
            1nat
        } else {
            0nat
        }) + count_title(entries.drop_first(), t)
    }
}

/// Some entry bears the title `t`.
pub open spec fn has_title(entries: Seq<EntryView>, t: Seq<char>) -> bool {
    exists|k: int| 0 <= k < entries.len() && entries[k].title == t
}

/// The list with the first entry bearing title `t` removed; the list
/// unchanged when no entry bears it.
pub open spec fn remove_first_title(entries: Seq<EntryView>, t: Seq<char>) -> Seq<EntryView>
    decreases entries.len(),
{
    if entries.len() == 0 {
        entries
    } else if entries[0].title == t {
        entries.drop_first()
    } else {
        seq![entries[0]] + remove_first_title(entries.drop_first(), t)
    }
}

/// The effect of one candidate on the accumulated list: skipped when it
/// fails the filter; otherwise, when icons are in use, its fast paths all
/// failed and an earlier entry bears the same title, that earlier entry is
/// removed; then the candidate's entry is appended.
pub open spec fn enumerate_step(
    acc: Seq<EntryView>,
    c: CandidateView,
    excluded: Seq<Seq<char>>,
    use_icons: bool,
) -> Seq<EntryView> {
    if !passes_filter(c, excluded) {
        acc
    } else {
        let t = c.title->0;
        let trimmed = if use_icons && fast_paths_failed(c.icons) && has_title(acc, t) {
            remove_first_title(acc, t)
        } else {
            acc
        };
        trimmed.push(entry_for(c, use_icons))
    }
}

/// The list the enumeration yields for a sequence of candidates, in the
/// order the operating system reported them.
pub open spec fn enumerate_spec(
    cs: Seq<CandidateView>,
    excluded: Seq<Seq<char>>,
    use_icons: bool,
) -> Seq<EntryView>
    decreases cs.len(),
{
    if cs.len() == 0 {
        Seq::empty()
    } else {
        enumerate_step(
            enumerate_spec(cs.drop_last(), excluded, use_icons),
            cs.last(),
            excluded,
            use_icons,
        )
    }
}

/// Resolves a window's icon through the ordered fallback chain: the
/// window's own small icon, the class's small-icon slot, the class's
/// large-icon slot, then the packaged-application icon. Total: a window
/// with no resolvable icon yields `None`, never an error.
pub fn resolve_icon(sources: &IconSources) -> (r: Option<u64>)
    ensures
        r == resolved_icon(*sources),
        r is None <==> *sources == (IconSources {
            window_icon: 0,
            class_small: 0,
            class_large: 0,
            packaged: 0,
        }),
{
    if sources.window_icon != 0 {
        Some(sources.window_icon)
    } else if sources.class_small != 0 {
        Some(sources.class_small)
    } else if sources.class_large != 0 {
        Some(sources.class_large)
    } else if sources.packaged != 0 {
        Some(sources.packaged)
    } else {
        None
    }
}

/// The titles hidden from the list: shell pseudo-windows that are top-level
/// and visible but are no application of the user's.
pub fn default_excluded_titles() -> (ex: Vec<String>)
    ensures
        title_views(ex@) =~= seq![
            "Program Manager"@,
            "Windows Input Experience"@,
            "PopupHost"@,
            "System tray overflow window."@,
        ],
{
    let mut ex: Vec<String> = Vec::new();
    ex.push(String::from_str("Program Manager"));
    ex.push(String::from_str("Windows Input Experience"));
    ex.push(String::from_str("PopupHost"));
    ex.push(String::from_str("System tray overflow window."));
    ex
}

/// Whether `title` is a member of the exclusion list.
fn title_excluded(title: &String, excluded: &Vec<String>) -> (b: bool)
    ensures
        b == title_views(excluded@).contains(title@),
{
    let mut k: usize = 0;
    while k < excluded.len()
        invariant
            k <= excluded.len(),
            forall|j: int| 0 <= j < k ==> title_views(excluded@)[j] != title@,
        decreases excluded.len() - k,
    {
        if excluded[k].eq(title) {
            proof {
                assert(title_views(excluded@)[k as int] == title@);
            }
            return true;
        }
        k += 1;
    }
    false
}

/// The position of the first entry bearing `title`, if any.
fn find_entry_with_title(entries: &Vec<WindowEntry>, title: &String) -> (r: Option<usize>)
    ensures
        r matches Some(k) ==> {
            &&& (k as int) < entries@.len()
            &&& entry_views(entries@)[k as int].title == title@
            &&& forall|j: int| 0 <= j < k ==> entry_views(entries@)[j].title != title@
        },
        r is None ==> forall|j: int|
            0 <= j < entries@.len() ==> entry_views(entries@)[j].title != title@,
{
    let mut k: usize = 0;
    while k < entries.len()
        invariant
            k <= entries.len(),
            forall|j: int| 0 <= j < k ==> entry_views(entries@)[j].title != title@,
        decreases entries.len() - k,
    {
        if entries[k].title.eq(title) {
            proof {
                assert(entry_views(entries@)[k as int].title == title@);
            }
            return Some(k);
        }
        k += 1;
    }
    None
}

/// Builds the window list from the candidates, in order: filters out
/// invisible, titleless and excluded windows, resolves an icon for the rest
/// when icons are in use, and lets a window whose icon fast paths failed
/// replace an earlier entry with the same title.
pub fn enumerate(candidates: &Vec<Candidate>, excluded: &Vec<String>, use_icons: bool) -> (out:
    Vec<WindowEntry>)
    ensures
        entry_views(out@) == enumerate_spec(
            candidate_views(candidates@),
            title_views(excluded@),
            use_icons,
        ),
{
    let ghost cviews = candidate_views(candidates@);
    let ghost ex = title_views(excluded@);
    let mut out: Vec<WindowEntry> = Vec::new();
    let mut idx: usize = 0;
    proof {
        assert(cviews.subrange(0, 0) =~= Seq::<CandidateView>::empty());
        assert(entry_views(out@) =~= Seq::<EntryView>::empty());
    }
    while idx < candidates.len()
        invariant
            idx <= candidates.len(),
            cviews == candidate_views(candidates@),
            ex == title_views(excluded@),
            entry_views(out@) == enumerate_spec(cviews.subrange(0, idx as int), ex, use_icons),
        decreases candidates.len() - idx,
    {
        let ghost prefix = cviews.subrange(0, idx as int);
        let ghost acc = entry_views(out@);
        let c = &candidates[idx];
        proof {
            assert(cviews.subrange(0, idx + 1).drop_last() =~= prefix);
            assert(cviews.subrange(0, idx + 1).last() == c@);
        }
        let mut handled = false;
        if c.visible {
            if let Some(title) = &c.title {
                if title.as_str().unicode_len() > 0 {
                    if !title_excluded(title, excluded) {
                        proof {
                            assert(passes_filter(c@, ex));
                            assert(c@.title->0 == title@);
                        }
                        handled = true;
                        let icon = if use_icons {
                            resolve_icon(&c.icons)
                        } else {
                            None
                        };
                        if use_icons && c.icons.window_icon == 0 && c.icons.class_small == 0
                            && c.icons.class_large == 0 {
                            if let Some(pos) = find_entry_with_title(&out, title) {
                                proof {
                                    assert(has_title(acc, title@));
                                    lemma_remove_first_title_at(acc, title@, pos as int);
                                }
                                out.remove(pos);
                                proof {
                                    assert(entry_views(out@) =~= remove_first_title(acc, title@));
                                }
                            } else {
                                proof {
                                    assert(!has_title(acc, title@));
                                }
                            }
                        }
                        let entry = WindowEntry { handle: c.handle, title: title.clone(), icon };
                        proof {
                            assert(entry@ == entry_for(c@, use_icons));
                        }
                        let ghost trimmed = entry_views(out@);
                        out.push(entry);
                        proof {
                            assert(entry_views(out@) =~= trimmed.push(entry@));
                            assert(entry_views(out@) =~= enumerate_step(acc, c@, ex, use_icons));
                        }
                    }
                }
            }
        }
        if !handled {
            proof {
                assert(!passes_filter(c@, ex));
                assert(enumerate_step(acc, c@, ex, use_icons) == acc);
            }
        }
        idx += 1;
    }
    proof {
        assert(cviews.subrange(0, candidates@.len() as int) =~= cviews);
    }
    out
}

/// Removing one titled entry keeps every remaining title admitted.
proof fn lemma_remove_preserves_admitted(s: Seq<EntryView>, excluded: Seq<Seq<char>>, t: Seq<char>)
    requires
        forall|i: int| 0 <= i < s.len() ==> title_admitted(#[trigger] s[i].title, excluded),
    ensures
        forall|i: int|
            0 <= i < remove_first_title(s, t).len() ==> title_admitted(
                #[trigger] remove_first_title(s, t)[i].title,
                excluded,
            ),
    decreases s.len(),
{
    if s.len() == 0 {
    } else if s[0].title == t {
    } else {
        assert(forall|i: int|
            0 <= i < s.drop_first().len() ==> title_admitted(
                #[trigger] s.drop_first()[i].title,
                excluded,
            ));
        lemma_remove_preserves_admitted(s.drop_first(), excluded, t);
    }
}

/// Every entry the enumeration yields bears a title that is non-empty and
/// not a member of the exclusion set.
pub proof fn lemma_enumerate_titles_admitted(
    cs: Seq<CandidateView>,
    excluded: Seq<Seq<char>>,
    use_icons: bool,
)
    ensures
        forall|i: int|
            0 <= i < enumerate_spec(cs, excluded, use_icons).len() ==> title_admitted(
                #[trigger] enumerate_spec(cs, excluded, use_icons)[i].title,
                excluded,
            ),
    decreases cs.len(),
{
    if cs.len() == 0 {
    } else {
        lemma_enumerate_titles_admitted(cs.drop_last(), excluded, use_icons);
        let acc = enumerate_spec(cs.drop_last(), excluded, use_icons);
        let c = cs.last();
        if passes_filter(c, excluded) {
            let t = c.title->0;
            if use_icons && fast_paths_failed(c.icons) && has_title(acc, t) {
                lemma_remove_preserves_admitted(acc, excluded, t);
            }
            assert(entry_for(c, use_icons).title == t);
        }
    }
}

/// Enumerating twice in succession over an unchanged set of candidate
/// windows yields the same list, titles included: the enumeration is a
/// function of the candidates alone.
pub proof fn lemma_enumerate_stable(
    cs1: Seq<CandidateView>,
    cs2: Seq<CandidateView>,
    excluded: Seq<Seq<char>>,
    use_icons: bool,
)
    requires
        cs1 == cs2,
    ensures
        enumerate_spec(cs1, excluded, use_icons) == enumerate_spec(cs2, excluded, use_icons),
{
}

/// Appending an entry raises the count of its own title by one and leaves
/// every other count unchanged.
proof fn lemma_count_push(s: Seq<EntryView>, e: EntryView, t: Seq<char>)
    ensures
        count_title(s.push(e), t) == count_title(s, t) + (if e.title == t {
            1nat
        } else {
            0nat
        }),
    decreases s.len(),
{
    if s.len() == 0 {
        assert(s.push(e)[0] == e);
        assert(s.push(e).drop_first() =~= s);
    } else {
        assert(s.push(e)[0] == s[0]);
        assert(s.push(e).drop_first() =~= s.drop_first().push(e));
        lemma_count_push(s.drop_first(), e, t);
    }
}

/// A title is present exactly when its count is at least one.
proof fn lemma_has_title_count(s: Seq<EntryView>, t: Seq<char>)
    ensures
        has_title(s, t) <==> count_title(s, t) >= 1,
    decreases s.len(),
{
    if s.len() == 0 {
    } else {
        lemma_has_title_count(s.drop_first(), t);
        if s[0].title == t {
            assert(has_title(s, t));
        } else {
            if has_title(s, t) {
                let k = choose|k: int| 0 <= k < s.len() && s[k].title == t;
                assert(s.drop_first()[k - 1] == s[k]);
                assert(has_title(s.drop_first(), t));
            }
            if has_title(s.drop_first(), t) {
                let k = choose|k: int|
                    0 <= k < s.drop_first().len() && s.drop_first()[k].title == t;
                assert(s[k + 1] == s.drop_first()[k]);
                assert(has_title(s, t));
            }
        }
    }
}

/// Removing the first entry with title `t` lowers the count of `t` by one.
proof fn lemma_count_remove_same(s: Seq<EntryView>, t: Seq<char>)
    requires
        has_title(s, t),
    ensures
        count_title(remove_first_title(s, t), t) == count_title(s, t) - 1,
    decreases s.len(),
{
    lemma_has_title_count(s, t);
    if s[0].title == t {
    } else {
        let k = choose|k: int| 0 <= k < s.len() && s[k].title == t;
        assert(s.drop_first()[k - 1] == s[k]);
        assert(has_title(s.drop_first(), t));
        lemma_count_remove_same(s.drop_first(), t);
        let r = seq![s[0]] + remove_first_title(s.drop_first(), t);
        assert(r[0] == s[0]);
        assert(r.drop_first() =~= remove_first_title(s.drop_first(), t));
    }
}

/// Removing the first entry with some other title `u` leaves the count of
/// `t` unchanged.
proof fn lemma_count_remove_other(s: Seq<EntryView>, t: Seq<char>, u: Seq<char>)
    requires
        t != u,
    ensures
        count_title(remove_first_title(s, u), t) == count_title(s, t),
    decreases s.len(),
{
    if s.len() == 0 {
    } else if s[0].title == u {
    } else {
        lemma_count_remove_other(s.drop_first(), t, u);
        let r = seq![s[0]] + remove_first_title(s.drop_first(), u);
        assert(r[0] == s[0]);
        assert(r.drop_first() =~= remove_first_title(s.drop_first(), u));
    }
}

/// The icon fast-path flags of the admitted candidates that bear title
/// `t`, in enumeration order: one flag per such candidate, `true` when its
/// fast paths all failed.
pub open spec fn dup_flags(cs: Seq<CandidateView>, excluded: Seq<Seq<char>>, t: Seq<char>) -> Seq<
    bool,
>
    decreases cs.len(),
{
    if cs.len() == 0 {
        Seq::empty()
    } else {
        let rest = dup_flags(cs.drop_last(), excluded, t);
        let c = cs.last();
        if passes_filter(c, excluded) && c.title == Some(t) {
            rest.push(fast_paths_failed(c.icons))
        } else {
            rest
        }
    }
}

/// How the count of title `t` follows the admitted `t`-titled candidates:
/// none yields none, one yields one, and two of which the second lost its
/// fast paths yield exactly one.
proof fn lemma_dedup_counts(cs: Seq<CandidateView>, excluded: Seq<Seq<char>>, t: Seq<char>)
    ensures
        ({
            let flags = dup_flags(cs, excluded, t);
            let n = count_title(enumerate_spec(cs, excluded, true), t);
            &&& (flags.len() == 0 ==> n == 0)
            &&& (flags.len() == 1 ==> n == 1)
            &&& (flags.len() == 2 && flags[1] ==> n == 1)
        }),
    decreases cs.len(),
{
    if cs.len() == 0 {
    } else {
        lemma_dedup_counts(cs.drop_last(), excluded, t);
        let acc = enumerate_spec(cs.drop_last(), excluded, true);
        let c = cs.last();
        let prior = dup_flags(cs.drop_last(), excluded, t);
        if passes_filter(c, excluded) {
            let ct = c.title->0;
            let failed = fast_paths_failed(c.icons);
            let trimmed = if failed && has_title(acc, ct) {
                remove_first_title(acc, ct)
            } else {
                acc
            };
            lemma_has_title_count(acc, ct);
            assert(entry_for(c, true).title == ct);
            if c.title == Some(t) {
                assert(ct == t);
                if failed && has_title(acc, t) {
                    lemma_count_remove_same(acc, t);
                }
                lemma_count_push(trimmed, entry_for(c, true), t);
                assert(dup_flags(cs, excluded, t) == prior.push(failed));
            } else {
                assert(ct != t);
                if failed && has_title(acc, ct) {
                    lemma_count_remove_other(acc, t, ct);
                }
                lemma_count_push(trimmed, entry_for(c, true), t);
                assert(dup_flags(cs, excluded, t) == prior);
            }
        }
    }
}

/// When exactly two admitted candidates bear the title `t` and the icon
/// fast paths fail for the second of them, the enumeration yields exactly
/// one entry with that title: the later-discovered window replaces the
/// earlier one.
pub proof fn lemma_enumerate_dedup(cs: Seq<CandidateView>, excluded: Seq<Seq<char>>, t: Seq<char>)
    requires
        dup_flags(cs, excluded, t).len() == 2,
        dup_flags(cs, excluded, t)[1],
    ensures
        count_title(enumerate_spec(cs, excluded, true), t) == 1,
{
    lemma_dedup_counts(cs, excluded, t);
}

/// The list with the first `t`-titled entry removed is the original list
/// with position `k` removed, when position `k` holds the first entry
/// bearing `t`.
proof fn lemma_remove_first_title_at(s: Seq<EntryView>, t: Seq<char>, k: int)
    requires
        0 <= k < s.len(),
        s[k].title == t,
        forall|j: int| 0 <= j < k ==> s[j].title != t,
    ensures
        remove_first_title(s, t) =~= s.remove(k),
    decreases k,
{
    if k == 0 {
        assert(s.drop_first() =~= s.remove(0));
    } else {
        lemma_remove_first_title_at(s.drop_first(), t, k - 1);
        assert(seq![s[0]] + s.drop_first().remove(k - 1) =~= s.remove(k));
    }
}

} // verus!
