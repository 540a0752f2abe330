//! Listing the top-level windows.
//!
//! The caller walks the live windows and records for each what the window
//! manager answered ([`WindowProbe`]). [`get_top_level_windows`] decides
//! which of them are listed and what is shown of each.

use crate::error::Error;
use vstd::prelude::*;
use vstd::slice::slice_subrange;

verus! {

/// Most UTF-16 units of a title that are read; a longer title is cut here.
pub const MAX_TITLE_UNITS: usize = 127;

/// One listed window.
///
/// A record describes the window at the moment it was probed. Nothing
/// identifies it later but the pair of process id and handle, and `hidden`
/// in particular is stale as soon as a request has touched the window.
#[derive(Debug)]
pub struct WindowInfo {
    pub hwnd: u32,
    pub title: String,
    pub pid: u32,
    pub hidden: bool,
}

/// A listed window as specifications see it.
pub ghost struct WindowRecord {
    pub hwnd: u32,
    pub title: Seq<char>,
    pub pid: u32,
    pub hidden: bool,
}

impl View for WindowInfo {
    type V = WindowRecord;

    open spec fn view(&self) -> WindowRecord {
        WindowRecord { hwnd: self.hwnd, title: self.title@, pid: self.pid, hidden: self.hidden }
    }
}

/// What the window manager answered about one window.
///
/// `None` in a field means that the query for it failed.
#[derive(Debug)]
pub struct WindowProbe {
    pub hwnd: u32,
    /// Whether the window is currently visible.
    pub visible: bool,
    /// The UTF-16 units of the title that were read; empty where the window
    /// has no title or the title could not be read.
    pub title: Vec<u16>,
    /// The compositor's cloak attribute; non-zero for a window that exists
    /// without being rendered.
    pub cloaked: Option<u32>,
    /// The display affinity; non-zero for a window that captures leave out.
    pub affinity: Option<u32>,
    /// The id of the process that owns the window.
    pub owner: Option<u32>,
}

pub open spec fn is_high_surrogate(unit: u16) -> bool {
    0xD800 <= unit <= 0xDBFF
}

pub open spec fn is_low_surrogate(unit: u16) -> bool {
    0xDC00 <= unit <= 0xDFFF
}

/// The character that a surrogate pair encodes.
pub open spec fn supplementary(high: u16, low: u16) -> char {
    (0x1_0000 + (high - 0xD800) * 0x400 + (low - 0xDC00)) as char
}

/// The text that UTF-16 units encode, with U+FFFD in place of each unit that
/// is half of a surrogate pair without its other half.
pub open spec fn utf16_lossy(units: Seq<u16>) -> Seq<char>
    decreases units.len(),
{
    if units.len() == 0 {
        Seq::empty()
    } else if !is_high_surrogate(units[0]) && !is_low_surrogate(units[0]) {
        seq![units[0] as char] + utf16_lossy(units.skip(1))
    } else if is_high_surrogate(units[0]) && units.len() >= 2 && is_low_surrogate(units[1]) {
        seq![supplementary(units[0], units[1])] + utf16_lossy(units.skip(2))
    } else {
        seq!['\u{FFFD}'] + utf16_lossy(units.skip(1))
    }
}

/// The part of a title that is read: its first [`MAX_TITLE_UNITS`] units.
pub open spec fn title_units(units: Seq<u16>) -> Seq<u16> {
    if units.len() > MAX_TITLE_UNITS {
        units.take(MAX_TITLE_UNITS as int)
    } else {
        units
    }
}

/// Whether a window is listed, and as what.
///
/// `Ok(None)` is a window that the rules leave out: it is not visible, has no
/// title, or is cloaked. `Err` is a window of which an attribute could not be
/// read. The checks are made in this order, and the first that applies
/// decides.
pub open spec fn classify(probe: WindowProbe) -> Result<Option<WindowRecord>, Error> {
    if !probe.visible {
        Ok(None)
    } else if probe.title@.len() == 0 {
        Ok(None)
    } else if probe.cloaked is None {
        Err(Error::AttributeQueryFailed)
    } else if probe.cloaked != Some(0u32) {
        Ok(None)
    } else if probe.affinity is None {
        Err(Error::AttributeQueryFailed)
    } else if probe.owner is None {
        Err(Error::AttributeQueryFailed)
    } else {
        Ok(
            Some(
                WindowRecord {
                    hwnd: probe.hwnd,
                    title: utf16_lossy(title_units(probe.title@)),
                    pid: probe.owner->0,
                    hidden: probe.affinity->0 != 0,
                },
            ),
        )
    }
}

/// The records listed for a run of probes: one for each probe that
/// [`classify`] accepts, in the order of the probes.
pub open spec fn enumerate(probes: Seq<WindowProbe>) -> Seq<WindowRecord>
    decreases probes.len(),
{
    if probes.len() == 0 {
        Seq::empty()
    } else {
        let before = enumerate(probes.drop_last());
        match classify(probes.last()) {
            Ok(Some(record)) => before.push(record),
            _ => before,
        }
    }
}

/// The records of a list of windows.
pub open spec fn records(windows: Seq<WindowInfo>) -> Seq<WindowRecord> {
    windows.map_values(|w: WindowInfo| w@)
}

/// Decodes UTF-16 with `String::from_utf16_lossy` of the standard library,
/// which replaces each unpaired surrogate with U+FFFD and decodes every other
/// unit or pair to the character it encodes.
#[verifier::external_body]
fn decode_utf16(units: &[u16]) -> (text: String)
    ensures
        text@ == utf16_lossy(units@),
{
    String::from_utf16_lossy(units)
}

/// Decodes the title of a window from the units that were read of it.
pub fn window_title(units: &Vec<u16>) -> (title: String)
    ensures
        title@ == utf16_lossy(title_units(units@)),
{
    let kept: usize = if units.len() > MAX_TITLE_UNITS {
        MAX_TITLE_UNITS
    } else {
        units.len()
    };
    let head = slice_subrange(units.as_slice(), 0, kept);
    assert(head@ == title_units(units@));
    decode_utf16(head)
}

/// Decides whether one probed window is listed.
pub fn classify_window(probe: &WindowProbe) -> (verdict: Result<Option<WindowInfo>, Error>)
    ensures
        match verdict {
            Ok(Some(info)) => classify(*probe) == Ok::<Option<WindowRecord>, Error>(Some(info@)),
            Ok(None) => classify(*probe) == Ok::<Option<WindowRecord>, Error>(None),
            Err(error) => classify(*probe) == Err::<Option<WindowRecord>, Error>(error),
        },
{
    if !probe.visible {
        return Ok(None);
    }
    if probe.title.len() == 0 {
        return Ok(None);
    }
    let cloaked: u32 = match probe.cloaked {
        Some(value) => value,
        None => {
            return Err(Error::AttributeQueryFailed);
        },
    };
    if cloaked != 0 {
        return Ok(None);
    }
    let affinity: u32 = match probe.affinity {
        Some(value) => value,
        None => {
            return Err(Error::AttributeQueryFailed);
        },
    };
    let pid: u32 = match probe.owner {
        Some(value) => value,
        None => {
            return Err(Error::AttributeQueryFailed);
        },
    };
    Ok(
        Some(
            WindowInfo {
                hwnd: probe.hwnd,
                title: window_title(&probe.title),
                pid,
                hidden: affinity != 0,
            },
        ),
    )
}

/// Lists the windows among `probes` that are visible, titled and not
/// cloaked, in the order in which they were probed. A window of which an
/// attribute could not be read is left out, and the listing goes on.
pub fn get_top_level_windows(probes: &Vec<WindowProbe>) -> (windows: Vec<WindowInfo>)
    ensures
        records(windows@) == enumerate(probes@),
{
    let mut windows: Vec<WindowInfo> = Vec::new();
    let mut i: usize = 0;
    while i < probes.len()
        invariant
            i <= probes.len(),
            records(windows@) == enumerate(probes@.take(i as int)),
        decreases probes.len() - i,
    {
        let ghost before = windows@;
        let verdict = classify_window(&probes[i]);
        proof {
            assert(probes@.take(i + 1).drop_last() == probes@.take(i as int));
            assert(probes@.take(i + 1).last() == probes@[i as int]);
        }
        match verdict {
            Ok(Some(info)) => {
                windows.push(info);
                assert(records(windows@) == records(before).push(info@));
            },
            _ => {},
        }
        i += 1;
    }
    assert(probes@.take(i as int) == probes@);
    windows
}

/// The handles among `listed` that belong to process `pid`, in order.
pub open spec fn handles_of(listed: Seq<WindowRecord>, pid: u32) -> Seq<u32>
    decreases listed.len(),
{
    if listed.len() == 0 {
        Seq::empty()
    } else {
        let before = handles_of(listed.drop_last(), pid);
        if listed.last().pid == pid {
            before.push(listed.last().hwnd)
        } else {
            before
        }
    }
}

/// Listing a run of probes in two parts gives the two listings one after the
/// other: what is listed of a window does not depend on the windows around
/// it.
pub proof fn lemma_enumerate_concat(first: Seq<WindowProbe>, second: Seq<WindowProbe>)
    ensures
        enumerate(first + second) == enumerate(first) + enumerate(second),
    decreases second.len(),
{
    if second.len() == 0 {
        assert(first + second == first);
        assert(enumerate(first) + enumerate(second) == enumerate(first));
    } else {
        let whole = first + second;
        assert(whole.drop_last() == first + second.drop_last());
        assert(whole.last() == second.last());
        lemma_enumerate_concat(first, second.drop_last());
        match classify(second.last()) {
            Ok(Some(record)) => {
                assert((enumerate(first) + enumerate(second.drop_last())).push(record)
                    == enumerate(first) + enumerate(second.drop_last()).push(record));
            },
            _ => {},
        }
    }
}

/// Every listed record is what [`classify`] made of one of the probes.
pub proof fn lemma_listed_window_was_probed(probes: Seq<WindowProbe>, k: int) -> (i: int)
    requires
        0 <= k < enumerate(probes).len(),
    ensures
        0 <= i < probes.len(),
        classify(probes[i]) == Ok::<Option<WindowRecord>, Error>(Some(enumerate(probes)[k])),
    decreases probes.len(),
{
    let before = enumerate(probes.drop_last());
    if k < before.len() {
        let i = lemma_listed_window_was_probed(probes.drop_last(), k);
        assert(probes.drop_last()[i] == probes[i]);
        i
    } else {
        probes.len() - 1
    }
}

/// A window without a title is never listed, nor is a cloaked one, nor one
/// that is not visible: where every probe of handle `hwnd` is of such a
/// window, no listed record bears that handle.
pub proof fn law_filtered_windows_are_not_listed(probes: Seq<WindowProbe>, hwnd: u32)
    requires
        forall|i: int|
            0 <= i < probes.len() && (#[trigger] probes[i]).hwnd == hwnd ==> probes[i].title@.len()
                == 0 || !probes[i].visible || (probes[i].cloaked matches Some(flag) && flag != 0),
    ensures
        forall|k: int|
            0 <= k < enumerate(probes).len() ==> (#[trigger] enumerate(probes)[k]).hwnd != hwnd,
{
    assert forall|k: int| 0 <= k < enumerate(probes).len() implies (#[trigger] enumerate(
        probes,
    )[k]).hwnd != hwnd by {
        let i = lemma_listed_window_was_probed(probes, k);
        assert(probes[i].hwnd == enumerate(probes)[k].hwnd);
    }
}

/// Where every probe is of a window that passes the rules, every window is
/// listed, each at the place of its probe.
pub proof fn lemma_well_formed_windows_are_all_listed(probes: Seq<WindowProbe>)
    requires
        forall|i: int| 0 <= i < probes.len() ==> (#[trigger] classify(probes[i])) matches Ok(Some(_)),
    ensures
        enumerate(probes).len() == probes.len(),
        forall|i: int|
            0 <= i < probes.len() ==> #[trigger] classify(probes[i]) == Ok::<
                Option<WindowRecord>,
                Error,
            >(Some(enumerate(probes)[i])),
    decreases probes.len(),
{
    if probes.len() > 0 {
        let front = probes.drop_last();
        assert forall|i: int| 0 <= i < front.len() implies (#[trigger] classify(front[i])) matches Ok(
            Some(_),
        ) by {
            assert(front[i] == probes[i]);
        }
        lemma_well_formed_windows_are_all_listed(front);
        assert(classify(probes.last()) matches Ok(Some(_)));
        assert forall|i: int| 0 <= i < probes.len() implies #[trigger] classify(probes[i]) == Ok::<
            Option<WindowRecord>,
            Error,
        >(Some(enumerate(probes)[i])) by {
            if i < front.len() {
                assert(front[i] == probes[i]);
                assert(classify(front[i]) == Ok::<Option<WindowRecord>, Error>(
                    Some(enumerate(front)[i]),
                ));
            }
        }
    }
}

/// A failed query costs one window and no more: where the attribute query of
/// window `bad` fails, the listing is what it would be without that window,
/// and where the other windows all pass the rules, each of them is listed.
pub proof fn law_failed_query_spares_other_windows(probes: Seq<WindowProbe>, bad: int)
    requires
        0 <= bad < probes.len(),
        classify(probes[bad]) is Err,
    ensures
        enumerate(probes) == enumerate(probes.remove(bad)),
        (forall|i: int|
            0 <= i < probes.len() && i != bad ==> (#[trigger] classify(probes[i])) matches Ok(
                Some(_),
            )) ==> {
            &&& enumerate(probes).len() == probes.len() - 1
            &&& forall|i: int|
                0 <= i < bad ==> #[trigger] classify(probes[i]) == Ok::<Option<WindowRecord>, Error>(
                    Some(enumerate(probes)[i]),
                )
            &&& forall|i: int|
                bad < i < probes.len() ==> #[trigger] classify(probes[i]) == Ok::<
                    Option<WindowRecord>,
                    Error,
                >(Some(enumerate(probes)[i - 1]))
        },
{
    let head = probes.take(bad);
    let failed = seq![probes[bad]];
    let rest = probes.skip(bad + 1);
    let others = probes.remove(bad);
    assert(probes == head + failed + rest);
    assert(others == head + rest);
    lemma_enumerate_concat(head + failed, rest);
    lemma_enumerate_concat(head, failed);
    lemma_enumerate_concat(head, rest);
    assert(enumerate(failed) == Seq::<WindowRecord>::empty()) by {
        assert(failed.drop_last() == Seq::<WindowProbe>::empty());
        assert(failed.last() == probes[bad]);
        reveal_with_fuel(enumerate, 2);
    }
    assert(enumerate(head) + Seq::<WindowRecord>::empty() == enumerate(head));
    if forall|i: int|
        0 <= i < probes.len() && i != bad ==> (#[trigger] classify(probes[i])) matches Ok(Some(_)) {
        assert forall|j: int| 0 <= j < others.len() implies (#[trigger] classify(
            others[j],
        )) matches Ok(Some(_)) by {
            if j < bad {
                assert(others[j] == probes[j]);
            } else {
                assert(others[j] == probes[j + 1]);
            }
        }
        lemma_well_formed_windows_are_all_listed(others);
        assert forall|i: int| 0 <= i < bad implies #[trigger] classify(probes[i]) == Ok::<
            Option<WindowRecord>,
            Error,
        >(Some(enumerate(probes)[i])) by {
            assert(others[i] == probes[i]);
        }
        assert forall|i: int| bad < i < probes.len() implies #[trigger] classify(probes[i]) == Ok::<
            Option<WindowRecord>,
            Error,
        >(Some(enumerate(probes)[i - 1])) by {
            assert(others[i - 1] == probes[i]);
        }
    }
}

/// A question about one window. The caller puts it to the window manager
/// and answers with an [`Answer`].
#[derive(Clone, Copy, Debug, PartialEq, Eq, Structural)]
pub enum Query {
    /// Is the window visible? Answered with [`Answer::Visible`].
    Visibility,
    /// What is its title? Answered with [`Answer::Title`]: the units that
    /// were read, none where the window has no title.
    Title,
    /// Is it cloaked? Answered with [`Answer::Attribute`].
    Cloak,
    /// What is its display affinity? Answered with [`Answer::Attribute`].
    Affinity,
    /// Which process owns it? Answered with [`Answer::Attribute`].
    Owner,
    /// Nothing is left to ask.
    Finished,
}

/// The answer to a question.
#[derive(Debug)]
pub enum Answer {
    Visible(bool),
    Title(Vec<u16>),
    /// The value of an attribute; `None` where the query failed.
    Attribute(Option<u32>),
}

/// What is known of a window before the first question.
pub open spec fn blank(hwnd: u32, title: Vec<u16>) -> WindowProbe {
    WindowProbe { hwnd, visible: false, title, cloaked: None, affinity: None, owner: None }
}

/// What is known after an answer, and the question that follows. Questions
/// stop as soon as an answer rules the window out. An answer of the wrong
/// kind teaches nothing and ends the questions.
pub open spec fn next_query(known: WindowProbe, query: Query, answer: Answer) -> (
    WindowProbe,
    Query,
) {
    match (query, answer) {
        (Query::Visibility, Answer::Visible(visible)) => (
            WindowProbe { visible, ..known },
            if visible {
                Query::Title
            } else {
                Query::Finished
            },
        ),
        (Query::Title, Answer::Title(title)) => (
            WindowProbe { title, ..known },
            if title@.len() > 0 {
                Query::Cloak
            } else {
                Query::Finished
            },
        ),
        (Query::Cloak, Answer::Attribute(cloaked)) => (
            WindowProbe { cloaked, ..known },
            if cloaked == Some(0u32) {
                Query::Affinity
            } else {
                Query::Finished
            },
        ),
        (Query::Affinity, Answer::Attribute(affinity)) => (
            WindowProbe { affinity, ..known },
            if affinity is Some {
                Query::Owner
            } else {
                Query::Finished
            },
        ),
        (Query::Owner, Answer::Attribute(owner)) => (WindowProbe { owner, ..known }, Query::Finished),
        _ => (known, Query::Finished),
    }
}

/// Most questions that are still to come.
pub open spec fn queries_left(query: Query) -> nat {
    match query {
        Query::Visibility => 5,
        Query::Title => 4,
        Query::Cloak => 3,
        Query::Affinity => 2,
        Query::Owner => 1,
        Query::Finished => 0,
    }
}

/// The questions about one window, asked one at a time and no further than
/// it takes to decide whether the window is listed.
pub struct WindowScan {
    known: WindowProbe,
    query: Query,
}

impl WindowScan {
    /// What the answers so far have told.
    pub closed spec fn known(&self) -> WindowProbe {
        self.known
    }

    /// The question that is to be asked next.
    pub closed spec fn pending(&self) -> Query {
        self.query
    }

    /// Starts on a window: nothing is known, and the first question is
    /// whether it is visible.
    pub fn new(hwnd: u32) -> (scan: WindowScan)
        ensures
            scan.known() == blank(hwnd, scan.known().title),
            scan.known().title@.len() == 0,
            scan.pending() == Query::Visibility,
    {
        WindowScan {
            known: WindowProbe {
                hwnd,
                visible: false,
                title: Vec::new(),
                cloaked: None,
                affinity: None,
                owner: None,
            },
            query: Query::Visibility,
        }
    }

    /// Returns the question to ask next.
    pub fn query(&self) -> (query: Query)
        ensures
            query == self.pending(),
    {
        self.query
    }

    /// Takes the answer to the pending question.
    pub fn answer(self, answer: Answer) -> (next: WindowScan)
        ensures
            (next.known(), next.pending()) == next_query(self.known(), self.pending(), answer),
    {
        let WindowScan { known, query } = self;
        let WindowProbe { hwnd, visible, title, cloaked, affinity, owner } = known;
        match (query, answer) {
            (Query::Visibility, Answer::Visible(seen)) => WindowScan {
                known: WindowProbe { hwnd, visible: seen, title, cloaked, affinity, owner },
                query: if seen {
                    Query::Title
                } else {
                    Query::Finished
                },
            },
            (Query::Title, Answer::Title(units)) => {
                let next = if units.len() > 0 {
                    Query::Cloak
                } else {
                    Query::Finished
                };
                WindowScan {
                    known: WindowProbe { hwnd, visible, title: units, cloaked, affinity, owner },
                    query: next,
                }
            },
            (Query::Cloak, Answer::Attribute(value)) => {
                let next = match value {
                    Some(0) => Query::Affinity,
                    _ => Query::Finished,
                };
                WindowScan {
                    known: WindowProbe { hwnd, visible, title, cloaked: value, affinity, owner },
                    query: next,
                }
            },
            (Query::Affinity, Answer::Attribute(value)) => {
                let next = match value {
                    Some(_) => Query::Owner,
                    None => Query::Finished,
                };
                WindowScan {
                    known: WindowProbe { hwnd, visible, title, cloaked, affinity: value, owner },
                    query: next,
                }
            },
            (Query::Owner, Answer::Attribute(value)) => WindowScan {
                known: WindowProbe { hwnd, visible, title, cloaked, affinity, owner: value },
                query: Query::Finished,
            },
            _ => WindowScan {
                known: WindowProbe { hwnd, visible, title, cloaked, affinity, owner },
                query: Query::Finished,
            },
        }
    }

    /// Hands out what the answers have told of the window.
    pub fn into_probe(self) -> (probe: WindowProbe)
        ensures
            probe == self.known(),
    {
        self.known
    }
}

/// How a window of which everything is known answers a question.
pub open spec fn answer_of(window: WindowProbe, query: Query) -> Answer {
    match query {
        Query::Visibility => Answer::Visible(window.visible),
        Query::Title => Answer::Title(window.title),
        Query::Cloak => Answer::Attribute(window.cloaked),
        Query::Affinity => Answer::Attribute(window.affinity),
        _ => Answer::Attribute(window.owner),
    }
}

/// What is known of `window` when the questions from `query` on have been
/// asked of it.
pub open spec fn scanned(known: WindowProbe, query: Query, window: WindowProbe) -> WindowProbe
    decreases queries_left(query),
{
    if query == Query::Finished {
        known
    } else {
        let (learned, next) = next_query(known, query, answer_of(window, query));
        scanned(learned, next, window)
    }
}

/// Asking no further than needed decides every window as knowing all of it
/// would: what the questions have told of a window is listed, left out or
/// failed exactly as the window itself.
pub proof fn law_scan_decides_as_full_probe(window: WindowProbe, untitled: Vec<u16>)
    requires
        untitled@.len() == 0,
    ensures
        classify(scanned(blank(window.hwnd, untitled), Query::Visibility, window)) == classify(
            window,
        ),
{
    reveal_with_fuel(scanned, 6);
}

/// Every answer brings the questions nearer to their end.
pub proof fn law_queries_run_out(known: WindowProbe, query: Query, answer: Answer)
    ensures
        query != Query::Finished ==> queries_left(next_query(known, query, answer).1)
            < queries_left(query),
        query == Query::Finished ==> next_query(known, query, answer) == (known, query),
{
}

} // verus!
