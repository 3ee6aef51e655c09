//! The transcription history: the most recent entries, oldest first,
//! bounded to [`MAX_ENTRIES`].  The file holds one JSON object per line;
//! reading and writing it, and the JSON of each entry, belong to the
//! application around this library.
use vstd::prelude::*;
use std::collections::VecDeque;
use std::collections::vec_deque::Iter;
use vstd::std_specs::iter::IteratorSpec;
use crate::calendar::{civil_date, civil_date_of_day, lemma_civil_date_valid};
use crate::number::{all_digits, decimal, digits_value, format_u64_padded, lemma_four_digits, lemma_two_digits, zero_pad};
use crate::text::{chars_eq, chars_of, extend_chars, lines, lines_of, str_get, str_get_exec, string_from, views};

verus! {

/// How many entries the history keeps.
pub const MAX_ENTRIES: usize = 50;

/// One transcription.
#[derive(Debug, Clone)]
pub struct HistoryEntry {
    pub text: String,
    /// RFC 3339 time stamp.
    pub timestamp: String,
    pub model: String,
    pub language: String,
}

/// The last `MAX_ENTRIES` entries of `s`.
pub open spec fn newest(s: Seq<HistoryEntry>) -> Seq<HistoryEntry> {
    if s.len() > MAX_ENTRIES {
        s.subrange(s.len() - MAX_ENTRIES, s.len() as int)
    } else {
        s
    }
}

/// `s` after appending `e`, dropping the oldest entry when the history is
/// full.
pub open spec fn bounded_push(s: Seq<HistoryEntry>, e: HistoryEntry) -> Seq<HistoryEntry> {
    if s.len() >= MAX_ENTRIES {
        s.drop_first().push(e)
    } else {
        s.push(e)
    }
}

/// The entries of `s` whose time stamp is not `ts`, in order.
pub open spec fn without_timestamp(s: Seq<HistoryEntry>, ts: Seq<char>) -> Seq<HistoryEntry>
    decreases s.len(),
{
    if s.len() == 0 {
        seq![]
    } else {
        let rest = without_timestamp(s.drop_last(), ts);
        if s.last().timestamp@ == ts {
            rest
        } else {
            rest.push(s.last())
        }
    }
}

/// The transcription history and the file it is kept in.
pub struct History {
    entries: VecDeque<HistoryEntry>,
    path: String,
}

impl View for History {
    type V = Seq<HistoryEntry>;

    closed spec fn view(&self) -> Seq<HistoryEntry> {
        self.entries@
    }
}

impl History {
    /// At most [`MAX_ENTRIES`] entries.
    pub closed spec fn wf(&self) -> bool {
        self.entries@.len() <= MAX_ENTRIES
    }

    /// A well-formed history holds at most [`MAX_ENTRIES`] entries.
    pub proof fn lemma_wf_bound(&self)
        requires
            self.wf(),
        ensures
            self@.len() <= MAX_ENTRIES,
    {
    }

    pub closed spec fn path_view(&self) -> Seq<char> {
        self.path@
    }

    /// The history kept in the file at `path`, given the entries read from
    /// it in file order: the newest [`MAX_ENTRIES`] of them stay.
    pub fn load(path: String, read: Vec<HistoryEntry>) -> (h: History)
        ensures
            h.wf(),
            h@.len() <= MAX_ENTRIES,
            h@ == newest(read@),
            h.path_view() == path@,
    {
        let mut keep = read;
        if keep.len() > MAX_ENTRIES {
            keep = keep.split_off(keep.len() - MAX_ENTRIES);
        }
        let ghost kept = keep@;
        assert(kept == newest(read@));
        let mut entries: VecDeque<HistoryEntry> = VecDeque::new();
        assert(keep@ + entries@ =~= kept);
        while keep.len() > 0
            invariant
                keep@ + entries@ == kept,
            decreases keep@.len(),
        {
            let ghost before = keep@;
            let ghost later = entries@;
            let e = keep.pop().unwrap();
            entries.push_front(e);
            assert(keep@ + entries@ =~= before + later);
        }
        History { entries, path }
    }

    /// The file the history is kept in.
    pub fn path(&self) -> (p: &str)
        ensures
            p@ == self.path_view(),
    {
        self.path.as_str()
    }

    /// Appends `entry` as the newest one; when the history is full the
    /// oldest entry leaves.
    pub fn push(&mut self, entry: HistoryEntry)
        requires
            old(self).wf(),
        ensures
            final(self).wf(),
            final(self)@.len() <= MAX_ENTRIES,
            final(self)@ == bounded_push(old(self)@, entry),
            final(self).path_view() == old(self).path_view(),
    {
        if self.entries.len() >= MAX_ENTRIES {
            let ghost before = self.entries@;
            let _ = self.entries.pop_front();
            assert(self.entries@ =~= before.drop_first());
        }
        self.entries.push_back(entry);
    }

    /// Removes every entry with time stamp `timestamp`; the others keep
    /// their order.
    pub fn remove_by_timestamp(&mut self, timestamp: &str)
        requires
            old(self).wf(),
        ensures
            final(self).wf(),
            final(self)@.len() <= MAX_ENTRIES,
            final(self)@ == without_timestamp(old(self)@, timestamp@),
            final(self).path_view() == old(self).path_view(),
    {
        let ts = chars_of(timestamp);
        let ghost all = self.entries@;
        let mut kept: VecDeque<HistoryEntry> = VecDeque::new();
        let mut rest: VecDeque<HistoryEntry> = VecDeque::new();
        std::mem::swap(&mut rest, &mut self.entries);
        assert(all.subrange(0, all.len() as int) =~= all);
        assert(all.subrange(0, 0) =~= Seq::<HistoryEntry>::empty());
        while rest.len() > 0
            invariant
                rest@.len() <= all.len(),
                rest@ == all.subrange(all.len() - rest@.len(), all.len() as int),
                kept@ == without_timestamp(all.subrange(0, all.len() - rest@.len()), ts@),
                kept@.len() <= all.len() - rest@.len(),
                ts@ == timestamp@,
            decreases rest@.len(),
        {
            let ghost n = all.len() - rest@.len();
            let ghost before = rest@;
            let e = rest.pop_front().unwrap();
            assert(e == all[n]);
            assert(rest@ =~= all.subrange(n + 1, all.len() as int));
            let ghost pre = all.subrange(0, n + 1);
            assert(pre.drop_last() =~= all.subrange(0, n));
            assert(pre.last() == e);
            let t = chars_of(e.timestamp.as_str());
            if !chars_eq(t.as_slice(), ts.as_slice()) {
                kept.push_back(e);
            }
        }
        self.entries = kept;
    }

    /// The entries, oldest first.
    pub fn entries(&self) -> (r: Iter<'_, HistoryEntry>)
        ensures
            r.remaining() == self@.as_ref(),
    {
        self.entries.iter()
    }

    /// The number of entries.
    pub fn len(&self) -> (n: usize)
        ensures
            n == self@.len(),
    {
        self.entries.len()
    }
}

/// `s` after pushing the entries `es` one by one.
pub open spec fn push_all(s: Seq<HistoryEntry>, es: Seq<HistoryEntry>) -> Seq<HistoryEntry>
    decreases es.len(),
{
    if es.len() == 0 {
        s
    } else {
        push_all(bounded_push(s, es[0]), es.drop_first())
    }
}

/// Law: a push keeps the newest entries: the new entry comes last, the
/// history grows by one until it holds `MAX_ENTRIES`, and the result is the
/// newest `MAX_ENTRIES` of the old entries followed by the new one.
pub proof fn lemma_push_keeps_newest(s: Seq<HistoryEntry>, e: HistoryEntry)
    requires
        s.len() <= MAX_ENTRIES,
    ensures
        bounded_push(s, e) == newest(s.push(e)),
        bounded_push(s, e).last() == e,
        bounded_push(s, e).len() == if s.len() < MAX_ENTRIES {
            s.len() + 1
        } else {
            MAX_ENTRIES as nat
        },
{
    if s.len() >= MAX_ENTRIES {
        assert(s.push(e).subrange(1, s.len() + 1 as int) =~= s.drop_first().push(e));
    }
}

/// Law: a history of at most `MAX_ENTRIES` entries is its own newest part,
/// so reading back a file the history wrote gives the same history.
pub proof fn lemma_newest_of_short_history(s: Seq<HistoryEntry>)
    requires
        s.len() <= MAX_ENTRIES,
    ensures
        newest(s) == s,
{
}

/// Law: pushing entries onto a history is the same as keeping the newest
/// `MAX_ENTRIES` of the old entries and the new ones together.
pub proof fn lemma_push_all_is_newest(s: Seq<HistoryEntry>, es: Seq<HistoryEntry>)
    requires
        s.len() <= MAX_ENTRIES,
    ensures
        push_all(s, es) == newest(s + es),
    decreases es.len(),
{
    if es.len() == 0 {
        assert(s + es =~= s);
    } else {
        lemma_push_keeps_newest(s, es[0]);
        let t = bounded_push(s, es[0]);
        lemma_push_all_is_newest(t, es.drop_first());
        // newest(newest(s.push(e)) + rest) == newest(s.push(e) + rest)
        lemma_newest_of_concat(s.push(es[0]), es.drop_first());
        assert(s.push(es[0]) + es.drop_first() =~= s + es);
    }
}

/// Law: entries pushed one by one onto an empty history, no more than
/// [`MAX_ENTRIES`] of them, are shown in the order they were pushed, the
/// oldest first.
pub proof fn lemma_pushes_on_empty_keep_order(es: Seq<HistoryEntry>)
    requires
        es.len() <= MAX_ENTRIES,
    ensures
        push_all(Seq::empty(), es) == es,
{
    lemma_push_all_is_newest(Seq::empty(), es);
    assert(Seq::<HistoryEntry>::empty() + es =~= es);
    lemma_newest_of_short_history(es);
}

/// Keeping the newest entries before appending more changes nothing about
/// the newest entries afterwards.
pub proof fn lemma_newest_of_concat(a: Seq<HistoryEntry>, b: Seq<HistoryEntry>)
    ensures
        newest(newest(a) + b) == newest(a + b),
{
    let m = MAX_ENTRIES as int;
    if a.len() > m {
        let na = newest(a);
        assert(na.len() == m);
        let x = na + b;
        let y = a + b;
        if x.len() > m {
            assert(x.subrange(x.len() - m, x.len() as int) =~= y.subrange(y.len() - m, y.len() as int));
        }
    }
}

/// Law: what the history shows after pushes is what reading its file back
/// would give: the file is the entries read plus those pushed, and a read
/// keeps the newest `MAX_ENTRIES`.
pub proof fn lemma_reload_after_pushes(file: Seq<HistoryEntry>, pushed: Seq<HistoryEntry>)
    ensures
        push_all(newest(file), pushed) == newest(file + pushed),
{
    lemma_push_all_is_newest(newest(file), pushed);
    lemma_newest_of_concat(file, pushed);
}

/// Law: after removing a time stamp no entry carries it, removing it again
/// changes nothing, and every entry with another time stamp stays.
pub proof fn lemma_remove_by_timestamp(s: Seq<HistoryEntry>, ts: Seq<char>)
    ensures
        forall|i: int|
            0 <= i < without_timestamp(s, ts).len() ==> (#[trigger] without_timestamp(s, ts)[i]).timestamp@
                != ts,
        without_timestamp(without_timestamp(s, ts), ts) == without_timestamp(s, ts),
        forall|i: int|
            0 <= i < s.len() && (#[trigger] s[i]).timestamp@ != ts ==> without_timestamp(s, ts).contains(s[i]),
        without_timestamp(s, ts).len() <= s.len(),
    decreases s.len(),
{
    if s.len() > 0 {
        lemma_remove_by_timestamp(s.drop_last(), ts);
        let rest = without_timestamp(s.drop_last(), ts);
        if s.last().timestamp@ != ts {
            let r2 = rest.push(s.last());
            assert(r2.drop_last() =~= rest);
            assert(without_timestamp(r2, ts) == without_timestamp(rest, ts).push(s.last()));
            assert forall|i: int| 0 <= i < s.len() && (#[trigger] s[i]).timestamp@ != ts implies r2.contains(
                s[i],
            ) by {
                if i < s.len() - 1 {
                    assert(s.drop_last()[i] == s[i]);
                    let j = choose|j: int| 0 <= j < rest.len() && rest[j] == s[i];
                    assert(r2[j] == s[i]);
                } else {
                    assert(r2[rest.len() as int] == s[i]);
                }
            }
        } else {
            assert forall|i: int| 0 <= i < s.len() && (#[trigger] s[i]).timestamp@ != ts implies rest.contains(
                s[i],
            ) by {
                assert(i < s.len() - 1);
                assert(s.drop_last()[i] == s[i]);
            }
        }
    }
}

/// The records of a history file: its lines, as `str::lines` splits them.
pub fn history_records(text: &str) -> (out: Vec<String>)
    ensures
        out@.len() == lines(text@).len(),
        forall|i: int| 0 <= i < out@.len() ==> (#[trigger] out@[i])@ == lines(text@)[i],
{
    let chars = chars_of(text);
    let ls = lines_of(chars.as_slice());
    let mut out: Vec<String> = Vec::new();
    let mut i: usize = 0;
    while i < ls.len()
        invariant
            i <= ls@.len(),
            views(ls@) == lines(text@),
            out@.len() == i,
            forall|j: int| 0 <= j < i ==> (#[trigger] out@[j])@ == lines(text@)[j],
        decreases ls@.len() - i,
    {
        assert(views(ls@)[i as int] == ls@[i as int]@);
        out.push(string_from(ls[i].as_slice()));
        i = i + 1;
    }
    out
}

// ───────────────────────────── history window ─────────────────────────────

/// The time an entry shows in the history window: the characters at byte
/// offsets 11 to 16 of its time stamp (`HH:MM` of an RFC 3339 stamp), or
/// the whole stamp when that range does not fall on character boundaries.
pub fn entry_time_label(timestamp: &str) -> (out: String)
    ensures
        out@ == match str_get(timestamp@, 11, 16) {
            Some(t) => t,
            None => timestamp@,
        },
{
    let c = chars_of(timestamp);
    match str_get_exec(c.as_slice(), 11, 16) {
        Some(t) => string_from(t.as_slice()),
        None => string_from(c.as_slice()),
    }
}

/// What the history window shows when there is no entry.
pub fn empty_history_text() -> (s: &'static str)
    ensures
        s@ == "Verlauf ist leer."@,
{
    "Verlauf ist leer."
}

// ───────────────────────────── time stamps ─────────────────────────────

/// Hours, minutes and seconds of the day, in UTC.
pub open spec fn time_of_day_spec(total: nat) -> (nat, nat, nat) {
    ((total / 3600) % 24, (total / 60) % 60, total % 60)
}

/// The time stamp `YYYY-MM-DDTHH:MM:SSZ` for `total` seconds since the
/// Unix epoch, in UTC with the Gregorian date.
pub open spec fn rfc3339_spec(total: nat) -> Seq<char> {
    let (y, mo, d) = civil_date(total / 86400);
    let (h, mi, s) = time_of_day_spec(total);
    zero_pad(decimal(y), 4) + seq!['-'] + zero_pad(decimal(mo), 2) + seq!['-'] + zero_pad(
        decimal(d),
        2,
    ) + seq!['T'] + zero_pad(decimal(h), 2) + seq![':'] + zero_pad(decimal(mi), 2) + seq![':']
        + zero_pad(decimal(s), 2) + seq!['Z']
}

fn time_of_day(total_seconds: u64) -> (r: (u64, u64, u64))
    ensures
        (r.0 as nat, r.1 as nat, r.2 as nat) == time_of_day_spec(total_seconds as nat),
{
    let s = total_seconds % 60;
    let m = (total_seconds / 60) % 60;
    let h = (total_seconds / 3600) % 24;
    (h, m, s)
}

/// The time stamp for `total_seconds` seconds since the Unix epoch.
pub fn format_timestamp(total_seconds: u64) -> (out: String)
    ensures
        out@ == rfc3339_spec(total_seconds as nat),
{
    let (year, month, day) = civil_date_of_day(total_seconds / 86400);
    let (h, m, s) = time_of_day(total_seconds);
    let mut v = format_u64_padded(year, 4);
    v.push('-');
    extend_chars(&mut v, format_u64_padded(month, 2).as_slice());
    v.push('-');
    extend_chars(&mut v, format_u64_padded(day, 2).as_slice());
    v.push('T');
    extend_chars(&mut v, format_u64_padded(h, 2).as_slice());
    v.push(':');
    extend_chars(&mut v, format_u64_padded(m, 2).as_slice());
    v.push(':');
    extend_chars(&mut v, format_u64_padded(s, 2).as_slice());
    v.push('Z');
    assert(v@ =~= rfc3339_spec(total_seconds as nat));
    string_from(v.as_slice())
}

/// `std::time::SystemTime`, the wall clock.
#[verifier::external_type_specification]
#[verifier::external_body]
pub struct ExSystemTime(std::time::SystemTime);

/// `SystemTime::now`: the current time; nothing is claimed of it.
#[verifier::external_body]
fn system_time_now() -> std::time::SystemTime {
    std::time::SystemTime::now()
}

/// `SystemTime::duration_since(UNIX_EPOCH)`, `None` for a time before the
/// epoch; nothing is claimed of the duration.
#[verifier::external_body]
fn duration_since_unix_epoch(t: &std::time::SystemTime) -> Option<core::time::Duration> {
    t.duration_since(std::time::UNIX_EPOCH).ok()
}

/// `Duration::as_secs`: the whole seconds of `d`; nothing is claimed of
/// them.
#[verifier::external_body]
fn duration_as_secs(d: &core::time::Duration) -> u64 {
    d.as_secs()
}

/// Whole seconds since the Unix epoch, 0 when the clock is set before it.
fn seconds_since_unix_epoch() -> u64 {
    let now = system_time_now();
    match duration_since_unix_epoch(&now) {
        Some(d) => duration_as_secs(&d),
        None => 0,
    }
}

/// The time stamp of the current time.
pub fn now_rfc3339() -> (out: String)
    ensures
        exists|secs: u64| out@ == rfc3339_spec(secs as nat),
{
    let secs = seconds_since_unix_epoch();
    format_timestamp(secs)
}

/// Law: a time stamp of a year from 1970 to 9999 has the layout
/// `YYYY-MM-DDTHH:MM:SSZ`: twenty characters, each field's digits worth
/// the Gregorian year, month and day of the day and the hour, minute and
/// second of the time of day in UTC.
pub proof fn lemma_timestamp_fields(total: nat)
    requires
        civil_date(total / 86400).0 < 10000,
    ensures
        ({
            let t = rfc3339_spec(total);
            let (y, mo, d) = civil_date(total / 86400);
            &&& t.len() == 20
            &&& t[4] == '-' && t[7] == '-' && t[10] == 'T' && t[13] == ':' && t[16] == ':' && t[19] == 'Z'
            &&& all_digits(t.take(4)) && digits_value(t.take(4)) == y
            &&& all_digits(t.subrange(5, 7)) && digits_value(t.subrange(5, 7)) == mo
            &&& all_digits(t.subrange(8, 10)) && digits_value(t.subrange(8, 10)) == d
            &&& all_digits(t.subrange(11, 13)) && digits_value(t.subrange(11, 13)) == (total / 3600) % 24
            &&& all_digits(t.subrange(14, 16)) && digits_value(t.subrange(14, 16)) == (total / 60) % 60
            &&& all_digits(t.subrange(17, 19)) && digits_value(t.subrange(17, 19)) == total % 60
        }),
{
    let (y, mo, d) = civil_date(total / 86400);
    lemma_civil_date_valid(total / 86400);
    lemma_four_digits(y);
    lemma_two_digits(mo);
    lemma_two_digits(d);
    lemma_two_digits((total / 3600) % 24);
    lemma_two_digits((total / 60) % 60);
    lemma_two_digits(total % 60);
    let t = rfc3339_spec(total);
    assert(t.take(4) =~= zero_pad(decimal(y), 4));
    assert(t.subrange(5, 7) =~= zero_pad(decimal(mo), 2));
    assert(t.subrange(8, 10) =~= zero_pad(decimal(d), 2));
    assert(t.subrange(11, 13) =~= zero_pad(decimal((total / 3600) % 24), 2));
    assert(t.subrange(14, 16) =~= zero_pad(decimal((total / 60) % 60), 2));
    assert(t.subrange(17, 19) =~= zero_pad(decimal(total % 60), 2));
}

} // verus!
