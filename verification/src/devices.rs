//! Audio input devices: which ALSA/PipeWire devices the settings offer,
//! the names shown for them, and their order.  The application asks the
//! audio host for the devices and reads `/proc/asound/cards`.
use vstd::prelude::*;
use crate::keyed::TextMap;
use crate::text::{
    chars_of, copy_range, extend_chars, find_sub, find_sub_exec, is_literal, lines, lines_of,
    rfind_sub, rfind_sub_exec, split, split_chars, starts_with, starts_with_exec, string_from,
    trim, trim_chars, views,
};

verus! {

/// An input device: the ALSA name kept in the configuration, the label
/// shown for it, and the audio host's handle.
pub struct DeviceInfo<D> {
    pub name: String,
    pub display: String,
    pub device: D,
}

/// The devices worth offering: one entry per sound card plus PulseAudio,
/// PipeWire and the ALSA default, as desktop sound settings show them.
pub open spec fn useful_device_spec(name: Seq<char>) -> bool {
    name == "pulse"@ || name == "pipewire"@ || name == "default"@ || starts_with(
        name,
        "sysdefault:CARD="@,
    )
}

/// Whether the device `name` is offered.
pub fn is_useful_input_device(name: &str) -> (r: bool)
    ensures
        r == useful_device_spec(name@),
{
    let c = chars_of(name);
    is_literal(c.as_slice(), "pulse") || is_literal(c.as_slice(), "pipewire") || is_literal(
        c.as_slice(),
        "default",
    ) || starts_with_exec(c.as_slice(), chars_of("sysdefault:CARD=").as_slice())
}

/// Whether the device `name` is left out.
pub fn should_skip_device(name: &str) -> (r: bool)
    ensures
        r == !useful_device_spec(name@),
{
    !is_useful_input_device(name)
}

/// A line of `/proc/asound/cards` that `parse_alsa_card_line` can take: a
/// `]` that comes before the first `[` would cut the short name backwards.
pub open spec fn card_line_ok(line: Seq<char>) -> bool {
    find_sub(line, seq!['[']) >= 0 && find_sub(line, seq![']']) >= 0 ==> find_sub(line, seq!['['])
        < find_sub(line, seq![']'])
}

/// Short and full name of a sound card from a line such as
/// `0 [J380           ]: USB-Audio - Jabra Link 380`.
pub open spec fn card_line_spec(line: Seq<char>) -> Option<(Seq<char>, Seq<char>)> {
    let open = find_sub(line, seq!['[']);
    let close = find_sub(line, seq![']']);
    let dash = rfind_sub(line, " - "@);
    if open < 0 || close < 0 || dash < 0 {
        None
    } else {
        Some((trim(line.subrange(open + 1, close)), trim(line.subrange(dash + 3, line.len() as int))))
    }
}

/// The short and full name of the sound card a line describes.
pub fn parse_alsa_card_line(line: &str) -> (r: Option<(String, String)>)
    requires
        card_line_ok(line@),
    ensures
        match card_line_spec(line@) {
            Some((short, full)) => r matches Some((s, f)) && s@ == short && f@ == full,
            None => r is None,
        },
{
    let c = chars_of(line);
    proof {
        reveal_strlit("[");
        reveal_strlit("]");
        reveal_strlit(" - ");
        assert("["@ =~= seq!['[']);
        assert("]"@ =~= seq![']']);
    }
    let open = match find_sub_exec(c.as_slice(), chars_of("[").as_slice()) {
        Some(i) => i,
        None => return None,
    };
    let close = match find_sub_exec(c.as_slice(), chars_of("]").as_slice()) {
        Some(i) => i,
        None => return None,
    };
    let short = trim_chars(copy_range(c.as_slice(), open + 1, close).as_slice());
    let dash = match rfind_sub_exec(c.as_slice(), chars_of(" - ").as_slice()) {
        Some(i) => i,
        None => return None,
    };
    assert(dash + 3 <= c@.len());
    assert(c@.len() == c.len());
    let full = trim_chars(copy_range(c.as_slice(), dash + 3, c.len()).as_slice());
    Some((string_from(short.as_slice()), string_from(full.as_slice())))
}

/// The names of the sound cards that `/proc/asound/cards` lists, later
/// lines overriding earlier ones with the same short name.
pub open spec fn card_names_spec(ls: Seq<Seq<char>>) -> Map<Seq<char>, Seq<char>>
    decreases ls.len(),
{
    if ls.len() == 0 {
        Map::empty()
    } else {
        let m = card_names_spec(ls.drop_last());
        match card_line_spec(trim(ls.last())) {
            Some((short, full)) => m.insert(short, full),
            None => m,
        }
    }
}

/// Every line of the text can be read as a card line.
pub open spec fn cards_text_ok(text: Seq<char>) -> bool {
    forall|i: int| 0 <= i < lines(text).len() ==> card_line_ok(trim(#[trigger] lines(text)[i]))
}

/// The card short name → full name map of the content of
/// `/proc/asound/cards`.
pub fn card_names_from(content: &str) -> (m: TextMap<String>)
    requires
        cards_text_ok(content@),
    ensures
        m.wf(),
        m.map().dom() == card_names_spec(lines(content@)).dom(),
        forall|k: Seq<char>| #[trigger] m.map().contains_key(k) ==> m.map()[k]@ == card_names_spec(
            lines(content@),
        )[k],
{
    let c = chars_of(content);
    let ls = lines_of(c.as_slice());
    let mut m: TextMap<String> = TextMap::new();
    let mut i: usize = 0;
    while i < ls.len()
        invariant
            i <= ls@.len(),
            views(ls@) == lines(content@),
            cards_text_ok(content@),
            m.wf(),
            m.map().dom() == card_names_spec(views(ls@).take(i as int)).dom(),
            forall|k: Seq<char>| #[trigger] m.map().contains_key(k) ==> m.map()[k]@
                == card_names_spec(views(ls@).take(i as int))[k],
        decreases ls@.len() - i,
    {
        let ghost t = views(ls@).take(i + 1);
        assert(t.drop_last() =~= views(ls@).take(i as int));
        assert(t.last() == ls@[i as int]@);
        assert(card_line_ok(trim(lines(content@)[i as int])));
        let line = string_from(trim_chars(ls[i].as_slice()).as_slice());
        let ghost before = m.map();
        match parse_alsa_card_line(line.as_str()) {
            Some((short, full)) => {
                let ghost sv = short@;
                let ghost fv = full@;
                m.insert(short, full);
                assert(m.map().dom() =~= card_names_spec(t).dom());
                assert forall|k: Seq<char>| #[trigger] m.map().contains_key(k) implies m.map()[k]@
                    == card_names_spec(t)[k] by {
                    if k != sv {
                        assert(before.contains_key(k));
                    }
                }
            },
            None => {},
        }
        i = i + 1;
    }
    assert(views(ls@).take(i as int) =~= views(ls@));
    m
}

/// The piece of `s` before the first `sep`, or all of `s`.
fn before_char_exec(s: &[char], sep: char) -> (out: Vec<char>)
    ensures
        out@ == split(s@, sep)[0],
{
    let pieces = split_chars(s, sep);
    proof {
        crate::text::lemma_split_from_nonempty(s@, sep, seq![]);
        assert(views(pieces@)[0] == pieces@[0]@);
    }
    let mut first = Vec::new();
    extend_chars(&mut first, pieces[0].as_slice());
    assert(first@ =~= pieces@[0]@);
    first
}

/// The card part of an ALSA device name: the text after the first
/// `CARD=` up to the next one (`name.split("CARD=").nth(1)`).
pub open spec fn card_part_spec(name: Seq<char>) -> Option<Seq<char>> {
    let i = find_sub(name, "CARD="@);
    if i < 0 {
        None
    } else {
        let rest = name.subrange(i + 5, name.len() as int);
        let j = find_sub(rest, "CARD="@);
        if j < 0 {
            Some(rest)
        } else {
            Some(rest.subrange(0, j))
        }
    }
}

/// The label of an ALSA device such as `sysdefault:CARD=J380`: the card's
/// full name (its short name when the card is not listed) and the device
/// type, as `Jabra Link 380 (sysdefault)`; a name without `CARD=` stays
/// as it is.
pub open spec fn alsa_display_spec(name: Seq<char>, cards: Map<Seq<char>, Seq<char>>) -> Seq<char> {
    match card_part_spec(name) {
        None => name,
        Some(part) => {
            let short = split(part, ',')[0];
            let device_type = split(name, ':')[0];
            let full = if cards.contains_key(short) {
                cards[short]
            } else {
                short
            };
            full + " ("@ + device_type + ")"@
        },
    }
}

/// The values of a map of strings, as text.
pub open spec fn text_values(m: Map<Seq<char>, String>) -> Map<Seq<char>, Seq<char>> {
    Map::new(|k: Seq<char>| m.contains_key(k), |k: Seq<char>| m[k]@)
}

/// The label of an ALSA device.
pub fn make_display_name_for_alsa_device(name: &str, cards: &TextMap<String>) -> (out: String)
    requires
        cards.wf(),
    ensures
        out@ == alsa_display_spec(name@, text_values(cards.map())),
{
    let c = chars_of(name);
    let pat = chars_of("CARD=");
    proof {
        reveal_strlit("CARD=");
    }
    assert(pat@.len() == 5);
    let i = match find_sub_exec(c.as_slice(), pat.as_slice()) {
        Some(i) => i,
        None => return string_from(c.as_slice()),
    };
    assert(i + 5 <= c@.len());
    assert(c@.len() == c.len());
    let rest = copy_range(c.as_slice(), i + 5, c.len());
    let part = match find_sub_exec(rest.as_slice(), pat.as_slice()) {
        Some(j) => copy_range(rest.as_slice(), 0, j),
        None => rest,
    };
    let short = before_char_exec(part.as_slice(), ',');
    let device_type = before_char_exec(c.as_slice(), ':');
    let short_s = string_from(short.as_slice());
    let mut v = match cards.get(short_s.as_str()) {
        Some(full) => chars_of(full.as_str()),
        None => short,
    };
    extend_chars(&mut v, chars_of(" (").as_slice());
    extend_chars(&mut v, device_type.as_slice());
    extend_chars(&mut v, chars_of(")").as_slice());
    string_from(v.as_slice())
}

/// The label shown for an input device.
pub open spec fn display_name_spec(name: Seq<char>, cards: Map<Seq<char>, Seq<char>>) -> Seq<char> {
    if name == "default"@ {
        "Standard (ALSA)"@
    } else if name == "pulse"@ {
        "PulseAudio / PipeWire (folgt Systemeinstellung)"@
    } else if name == "pipewire"@ {
        "PipeWire"@
    } else {
        alsa_display_spec(name, cards)
    }
}

/// The label shown for an input device.
pub fn make_display_name(name: &str, cards: &TextMap<String>) -> (out: String)
    requires
        cards.wf(),
    ensures
        out@ == display_name_spec(name@, text_values(cards.map())),
{
    let c = chars_of(name);
    if is_literal(c.as_slice(), "default") {
        string_from(chars_of("Standard (ALSA)").as_slice())
    } else if is_literal(c.as_slice(), "pulse") {
        string_from(chars_of("PulseAudio / PipeWire (folgt Systemeinstellung)").as_slice())
    } else if is_literal(c.as_slice(), "pipewire") {
        string_from(chars_of("PipeWire").as_slice())
    } else {
        make_display_name_for_alsa_device(name, cards)
    }
}

/// Where a device comes in the list: PulseAudio first, then the ALSA
/// default, then the rest.
pub open spec fn preference_rank(name: Seq<char>) -> int {
    if name == "pulse"@ {
        0
    } else if name == "default"@ {
        1
    } else {
        2
    }
}

fn preference_rank_exec(name: &str) -> (r: u8)
    ensures
        r == preference_rank(name@),
{
    let c = chars_of(name);
    if is_literal(c.as_slice(), "pulse") {
        0
    } else if is_literal(c.as_slice(), "default") {
        1
    } else {
        2
    }
}

/// The devices of `s` with rank `r`, in order.
pub open spec fn with_rank<D>(s: Seq<DeviceInfo<D>>, r: int) -> Seq<DeviceInfo<D>>
    decreases s.len(),
{
    if s.len() == 0 {
        seq![]
    } else {
        let rest = with_rank(s.drop_last(), r);
        if preference_rank(s.last().name@) == r {
            rest.push(s.last())
        } else {
            rest
        }
    }
}

/// The devices ordered by rank; devices of equal rank keep their order
/// (a stable sort by rank).
pub open spec fn by_preference<D>(s: Seq<DeviceInfo<D>>) -> Seq<DeviceInfo<D>> {
    with_rank(s, 0) + with_rank(s, 1) + with_rank(s, 2)
}

/// Orders the devices: PulseAudio first, then the ALSA default, then the
/// rest, each group in its former order.
pub fn sort_devices_by_preference<D>(devices: &mut Vec<DeviceInfo<D>>)
    ensures
        final(devices)@ == by_preference(old(devices)@),
{
    let ghost all = devices@;
    let mut rest: Vec<DeviceInfo<D>> = Vec::new();
    std::mem::swap(&mut rest, devices);
    let mut first: Vec<DeviceInfo<D>> = Vec::new();
    let mut second: Vec<DeviceInfo<D>> = Vec::new();
    let mut third: Vec<DeviceInfo<D>> = Vec::new();
    assert(all.subrange(0, all.len() as int) =~= all);
    while rest.len() > 0
        invariant
            rest@.len() <= all.len(),
            rest@ == all.subrange(all.len() - rest@.len(), all.len() as int),
            first@ == with_rank(all.subrange(0, all.len() - rest@.len()), 0),
            second@ == with_rank(all.subrange(0, all.len() - rest@.len()), 1),
            third@ == with_rank(all.subrange(0, all.len() - rest@.len()), 2),
        decreases rest@.len(),
    {
        let ghost n = all.len() - rest@.len();
        let d = rest.remove(0);
        assert(d == all[n]);
        assert(rest@ =~= all.subrange(n + 1, all.len() as int));
        let ghost pre = all.subrange(0, n + 1);
        assert(pre.drop_last() =~= all.subrange(0, n));
        assert(pre.last() == d);
        let rank = preference_rank_exec(d.name.as_str());
        if rank == 0 {
            first.push(d);
        } else if rank == 1 {
            second.push(d);
        } else {
            third.push(d);
        }
    }
    assert(all.subrange(0, all.len() as int) =~= all);
    first.append(&mut second);
    first.append(&mut third);
    *devices = first;
}

/// The devices worth offering among those the audio host found: the name
/// and handle of each, in the order found.
pub open spec fn offered_entries<D>(found: Seq<(String, D)>) -> Seq<(Seq<char>, D)>
    decreases found.len(),
{
    if found.len() == 0 {
        seq![]
    } else {
        let rest = offered_entries(found.drop_last());
        if useful_device_spec(found.last().0@) {
            rest.push((found.last().0@, found.last().1))
        } else {
            rest
        }
    }
}

/// The offered devices among those the audio host found, labelled and
/// ordered by preference.
pub fn list_input_devices<D>(found: Vec<(String, D)>, cards: &TextMap<String>) -> (out: Vec<
    DeviceInfo<D>,
>)
    requires
        cards.wf(),
    ensures
        out@.map_values(|d: DeviceInfo<D>| (d.name@, d.device)) == by_preference_entries(offered_entries(found@)),
        forall|i: int| 0 <= i < out@.len() ==> (#[trigger] out@[i]).display@ == display_name_spec(
            out@[i].name@,
            text_values(cards.map()),
        ),
{
    let ghost all = found@;
    let mut rest = found;
    let mut kept: Vec<DeviceInfo<D>> = Vec::new();
    assert(all.subrange(0, all.len() as int) =~= all);
    while rest.len() > 0
        invariant
            cards.wf(),
            rest@.len() <= all.len(),
            rest@ == all.subrange(all.len() - rest@.len(), all.len() as int),
            kept@.map_values(|d: DeviceInfo<D>| (d.name@, d.device)) == offered_entries(
                all.subrange(0, all.len() - rest@.len()),
            ),
            forall|i: int| 0 <= i < kept@.len() ==> (#[trigger] kept@[i]).display@
                == display_name_spec(kept@[i].name@, text_values(cards.map())),
        decreases rest@.len(),
    {
        let ghost n = all.len() - rest@.len();
        let (name, device) = rest.remove(0);
        assert(rest@ =~= all.subrange(n + 1, all.len() as int));
        let ghost pre = all.subrange(0, n + 1);
        assert(pre.drop_last() =~= all.subrange(0, n));
        assert(pre.last().0@ == name@);
        assert(pre.last().1 == device);
        if !should_skip_device(name.as_str()) {
            let display = make_display_name(name.as_str(), cards);
            let ghost before = kept@;
            kept.push(DeviceInfo { name, display, device });
            assert(kept@.map_values(|d: DeviceInfo<D>| (d.name@, d.device)) =~= before.map_values(
                |d: DeviceInfo<D>| (d.name@, d.device),
            ).push((kept@.last().name@, kept@.last().device)));
        }
    }
    assert(all.subrange(0, all.len() as int) =~= all);
    let ghost unsorted = kept@;
    sort_devices_by_preference(&mut kept);
    proof {
        lemma_by_preference_entries(unsorted);
        lemma_by_preference_members(unsorted);
    }
    kept
}

/// The entries (name and handle) of rank `r`, in order.
pub open spec fn entries_with_rank<D>(s: Seq<(Seq<char>, D)>, r: int) -> Seq<(Seq<char>, D)>
    decreases s.len(),
{
    if s.len() == 0 {
        seq![]
    } else {
        let rest = entries_with_rank(s.drop_last(), r);
        if preference_rank(s.last().0) == r {
            rest.push(s.last())
        } else {
            rest
        }
    }
}

/// The entries ordered by the rank of their names, each rank in its former
/// order.
pub open spec fn by_preference_entries<D>(s: Seq<(Seq<char>, D)>) -> Seq<(Seq<char>, D)> {
    entries_with_rank(s, 0) + entries_with_rank(s, 1) + entries_with_rank(s, 2)
}

proof fn lemma_with_rank_entries<D>(s: Seq<DeviceInfo<D>>, r: int)
    ensures
        with_rank(s, r).map_values(|d: DeviceInfo<D>| (d.name@, d.device)) == entries_with_rank(
            s.map_values(|d: DeviceInfo<D>| (d.name@, d.device)),
            r,
        ),
    decreases s.len(),
{
    if s.len() > 0 {
        lemma_with_rank_entries(s.drop_last(), r);
        assert(s.drop_last().map_values(|d: DeviceInfo<D>| (d.name@, d.device)) =~= s.map_values(
            |d: DeviceInfo<D>| (d.name@, d.device),
        ).drop_last());
        let rest = with_rank(s.drop_last(), r);
        if preference_rank(s.last().name@) == r {
            assert(rest.push(s.last()).map_values(|d: DeviceInfo<D>| (d.name@, d.device)) =~= rest.map_values(
                |d: DeviceInfo<D>| (d.name@, d.device),
            ).push((s.last().name@, s.last().device)));
        }
    }
}

proof fn lemma_by_preference_entries<D>(s: Seq<DeviceInfo<D>>)
    ensures
        by_preference(s).map_values(|d: DeviceInfo<D>| (d.name@, d.device)) == by_preference_entries(
            s.map_values(|d: DeviceInfo<D>| (d.name@, d.device)),
        ),
{
    lemma_with_rank_entries(s, 0);
    lemma_with_rank_entries(s, 1);
    lemma_with_rank_entries(s, 2);
    let f = |d: DeviceInfo<D>| (d.name@, d.device);
    assert((with_rank(s, 0) + with_rank(s, 1) + with_rank(s, 2)).map_values(f) =~= with_rank(
        s,
        0,
    ).map_values(f) + with_rank(s, 1).map_values(f) + with_rank(s, 2).map_values(f));
}

proof fn lemma_with_rank_members<D>(s: Seq<DeviceInfo<D>>, r: int)
    ensures
        forall|i: int| 0 <= i < with_rank(s, r).len() ==> s.contains(#[trigger] with_rank(s, r)[i]),
    decreases s.len(),
{
    if s.len() > 0 {
        lemma_with_rank_members(s.drop_last(), r);
        let rest = with_rank(s.drop_last(), r);
        assert forall|i: int| 0 <= i < with_rank(s, r).len() implies s.contains(
            #[trigger] with_rank(s, r)[i],
        ) by {
            if i < rest.len() {
                assert(with_rank(s, r)[i] == rest[i]);
                let j = choose|j: int| 0 <= j < s.drop_last().len() && s.drop_last()[j] == rest[i];
                assert(s[j] == rest[i]);
            } else {
                assert(s[s.len() - 1] == s.last());
            }
        }
    }
}

proof fn lemma_by_preference_members<D>(s: Seq<DeviceInfo<D>>)
    ensures
        forall|i: int| 0 <= i < by_preference(s).len() ==> s.contains(#[trigger] by_preference(s)[i]),
{
    lemma_with_rank_members(s, 0);
    lemma_with_rank_members(s, 1);
    lemma_with_rank_members(s, 2);
    let a = with_rank(s, 0);
    let b = with_rank(s, 1);
    let c = with_rank(s, 2);
    assert forall|i: int| 0 <= i < by_preference(s).len() implies s.contains(
        #[trigger] by_preference(s)[i],
    ) by {
        if i < a.len() {
            assert(by_preference(s)[i] == a[i]);
        } else if i < a.len() + b.len() {
            assert(by_preference(s)[i] == b[i - a.len()]);
        } else {
            assert(by_preference(s)[i] == c[i - a.len() - b.len()]);
        }
    }
}

proof fn lemma_with_rank_ranks<D>(s: Seq<DeviceInfo<D>>, r: int)
    ensures
        forall|i: int| 0 <= i < with_rank(s, r).len() ==> preference_rank(
            (#[trigger] with_rank(s, r)[i]).name@,
        ) == r,
    decreases s.len(),
{
    if s.len() > 0 {
        lemma_with_rank_ranks(s.drop_last(), r);
        let rest = with_rank(s.drop_last(), r);
        assert forall|i: int| 0 <= i < with_rank(s, r).len() implies preference_rank(
            (#[trigger] with_rank(s, r)[i]).name@,
        ) == r by {
            if i < rest.len() {
                assert(with_rank(s, r)[i] == rest[i]);
            }
        }
    }
}

proof fn lemma_ranks_multiset<D>(s: Seq<DeviceInfo<D>>)
    ensures
        by_preference(s).to_multiset() =~= s.to_multiset(),
    decreases s.len(),
{
    broadcast use vstd::multiset::group_multiset_axioms;
    broadcast use vstd::seq_lib::lemma_multiset_commutative;
    broadcast use vstd::seq_lib::to_multiset_build;

    if s.len() == 0 {
        assert(with_rank(s, 0) =~= Seq::<DeviceInfo<D>>::empty());
        assert(with_rank(s, 1) =~= Seq::<DeviceInfo<D>>::empty());
        assert(with_rank(s, 2) =~= Seq::<DeviceInfo<D>>::empty());
        assert(by_preference(s) =~= s);
    } else {
        let t = s.drop_last();
        let x = s.last();
        lemma_ranks_multiset(t);
        assert(s =~= t.push(x));
        let a = with_rank(s, 0);
        let b = with_rank(s, 1);
        let c = with_rank(s, 2);
        let a1 = with_rank(t, 0);
        let b1 = with_rank(t, 1);
        let c1 = with_rank(t, 2);
        assert((a + b + c).to_multiset() =~= a.to_multiset().add(b.to_multiset()).add(c.to_multiset()));
        assert((a1 + b1 + c1).to_multiset() =~= a1.to_multiset().add(b1.to_multiset()).add(c1.to_multiset()));
        assert(s.to_multiset() =~= t.to_multiset().insert(x));
        let k = preference_rank(x.name@);
        if k == 0 {
            assert(a.to_multiset() =~= a1.to_multiset().insert(x));
        } else if k == 1 {
            assert(b.to_multiset() =~= b1.to_multiset().insert(x));
        } else {
            assert(c.to_multiset() =~= c1.to_multiset().insert(x));
        }
    }
}

/// Law: ordering the devices by preference is a stable sort: the same
/// devices (as a multiset), their ranks ascending.
pub proof fn lemma_sort_by_preference_is_sorted_permutation<D>(s: Seq<DeviceInfo<D>>)
    ensures
        by_preference(s).len() == s.len(),
        by_preference(s).to_multiset() == s.to_multiset(),
        forall|i: int, j: int| 0 <= i <= j < by_preference(s).len() ==> preference_rank(
            (#[trigger] by_preference(s)[i]).name@,
        ) <= preference_rank((#[trigger] by_preference(s)[j]).name@),
{
    lemma_ranks_multiset(s);
    s.to_multiset_ensures();
    by_preference(s).to_multiset_ensures();
    lemma_with_rank_ranks(s, 0);
    lemma_with_rank_ranks(s, 1);
    lemma_with_rank_ranks(s, 2);
    let a = with_rank(s, 0);
    let b = with_rank(s, 1);
    let c = with_rank(s, 2);
    let r = by_preference(s);
    assert forall|i: int| 0 <= i < r.len() implies preference_rank((#[trigger] r[i]).name@) == (if i < a.len() {
        0int
    } else if i < a.len() + b.len() {
        1int
    } else {
        2int
    }) by {
        if i < a.len() {
            assert(r[i] == a[i]);
        } else if i < a.len() + b.len() {
            assert(r[i] == b[i - a.len()]);
        } else {
            assert(r[i] == c[i - a.len() - b.len()]);
        }
    }
}

/// The handle of the offered device named `name`, if there is one.
pub fn find_device_by_name<D>(devices: Vec<DeviceInfo<D>>, name: &str) -> (r: Option<D>)
    ensures
        match r {
            Some(d) => exists|i: int|
                0 <= i < devices@.len() && (#[trigger] devices@[i]).name@ == name@ && devices@[i].device
                    == d && forall|j: int| 0 <= j < i ==> devices@[j].name@ != name@,
            None => forall|i: int| 0 <= i < devices@.len() ==> (#[trigger] devices@[i]).name@ != name@,
        },
{
    let ghost all = devices@;
    let target = chars_of(name);
    let mut rest = devices;
    assert(all.subrange(0, all.len() as int) =~= all);
    while rest.len() > 0
        invariant
            rest@.len() <= all.len(),
            rest@ == all.subrange(all.len() - rest@.len(), all.len() as int),
            target@ == name@,
            all == devices@,
            forall|j: int| 0 <= j < all.len() - rest@.len() ==> all[j].name@ != name@,
        decreases rest@.len(),
    {
        let ghost n = all.len() - rest@.len();
        let d = rest.remove(0);
        assert(d == all[n]);
        assert(rest@ =~= all.subrange(n + 1, all.len() as int));
        let dn = chars_of(d.name.as_str());
        if crate::text::chars_eq(dn.as_slice(), target.as_slice()) {
            assert(0 <= n < all.len() && all[n].name@ == name@ && all[n].device == d.device
                && forall|j: int| 0 <= j < n ==> all[j].name@ != name@);
            assert(all == devices@);
            return Some(d.device);
        }
    }
    None
}

/// The device the settings select among the offered device names: the
/// configured one, else PulseAudio when it is offered, else the first.
pub open spec fn effective_device_spec(names: Seq<Seq<char>>, configured: Option<Seq<char>>) -> Option<
    Seq<char>,
> {
    match configured {
        Some(c) => Some(c),
        None => if names.contains("pulse"@) {
            Some("pulse"@)
        } else if names.len() > 0 {
            Some(names[0])
        } else {
            None
        },
    }
}

/// Law: a configured microphone is always kept; without one, PulseAudio is
/// chosen whenever it is offered, else the first device offered, and
/// nothing only when no device is offered.
pub proof fn lemma_effective_device(names: Seq<Seq<char>>, configured: Option<Seq<char>>)
    ensures
        configured is Some ==> effective_device_spec(names, configured) == configured,
        configured is None && names.contains("pulse"@) ==> effective_device_spec(names, configured)
            == Some("pulse"@),
        configured is None && !names.contains("pulse"@) && names.len() > 0 ==> effective_device_spec(
            names,
            configured,
        ) == Some(names[0]),
        configured is None && names.len() == 0 ==> effective_device_spec(names, configured) is None,
        effective_device_spec(names, configured) is None <==> configured is None && names.len() == 0,
{
}

/// The device the settings select: the configured one, else PulseAudio
/// when it is offered, else the first device offered.
pub fn determine_effective_device<D>(devices: &[DeviceInfo<D>], configured: &Option<String>) -> (r:
    Option<String>)
    ensures
        (match r {
            Some(s) => Some(s@),
            None => None,
        }) == effective_device_spec(
            devices@.map_values(|d: DeviceInfo<D>| d.name@),
            match configured {
                Some(c) => Some(c@),
                None => None,
            },
        ),
        match configured {
            Some(c) => r matches Some(s) && s@ == c@,
            None => if exists|i: int| 0 <= i < devices@.len() && (#[trigger] devices@[i]).name@
                == "pulse"@ {
                r matches Some(s) && s@ == "pulse"@
            } else if devices@.len() > 0 {
                r matches Some(s) && s@ == devices@[0].name@
            } else {
                r is None
            },
        },
{
    match configured {
        Some(c) => Some(string_from(chars_of(c.as_str()).as_slice())),
        None => {
            let mut i: usize = 0;
            while i < devices.len()
                invariant
                    i <= devices@.len(),
                    configured is None,
                    forall|j: int| 0 <= j < i ==> devices@[j].name@ != "pulse"@,
                decreases devices@.len() - i,
            {
                let n = chars_of(devices[i].name.as_str());
                if is_literal(n.as_slice(), "pulse") {
                    proof {
                        let names = devices@.map_values(|d: DeviceInfo<D>| d.name@);
                        assert(names[i as int] == "pulse"@);
                        assert(names.contains("pulse"@));
                    }
                    return Some(string_from(chars_of("pulse").as_slice()));
                }
                i = i + 1;
            }
            proof {
                let names = devices@.map_values(|d: DeviceInfo<D>| d.name@);
                if names.contains("pulse"@) {
                    let j = choose|j: int| 0 <= j < names.len() && names[j] == "pulse"@;
                    assert(devices@[j].name@ == "pulse"@);
                }
                if devices@.len() > 0 {
                    assert(names[0] == devices@[0].name@);
                }
            }
            if devices.len() > 0 {
                Some(string_from(chars_of(devices[0].name.as_str()).as_slice()))
            } else {
                None
            }
        },
    }
}

/// Law: the PulseAudio device comes first, the ALSA default second, every
/// other device after them.
pub proof fn lemma_device_preference(name: Seq<char>)
    ensures
        preference_rank("pulse"@) < preference_rank("default"@),
        name != "pulse"@ && name != "default"@ ==> preference_rank("default"@) < preference_rank(
            name,
        ),
        name != "pulse"@ ==> preference_rank("pulse"@) < preference_rank(name),
{
    reveal_strlit("pulse");
    reveal_strlit("default");
    reveal_strlit("pipewire");
    reveal_strlit("Standard (ALSA)");
    reveal_strlit("PulseAudio / PipeWire (folgt Systemeinstellung)");
    reveal_strlit("PipeWire");
    assert("default"@.len() != "pulse"@.len());
    assert("pipewire"@.len() != "pulse"@.len());
    assert("pipewire"@.len() != "default"@.len());
}

/// Law: the devices offered are PulseAudio, PipeWire, the ALSA default and
/// the `sysdefault` device of each card, and no other.
pub proof fn lemma_offered_devices(name: Seq<char>)
    ensures
        useful_device_spec(name) <==> name == "pulse"@ || name == "pipewire"@ || name == "default"@
            || starts_with(name, "sysdefault:CARD="@),
{
}

/// Law: the labels of the three sound servers: `default` is shown as
/// "Standard (ALSA)", `pulse` as "PulseAudio / PipeWire (folgt
/// Systemeinstellung)", `pipewire` as "PipeWire", whatever the cards are.
pub proof fn lemma_device_labels(cards: Map<Seq<char>, Seq<char>>)
    ensures
        display_name_spec("default"@, cards) == "Standard (ALSA)"@,
        display_name_spec("pulse"@, cards) == "PulseAudio / PipeWire (folgt Systemeinstellung)"@,
        display_name_spec("pipewire"@, cards) == "PipeWire"@,
{
    reveal_strlit("pulse");
    reveal_strlit("default");
    reveal_strlit("pipewire");
    reveal_strlit("Standard (ALSA)");
    reveal_strlit("PulseAudio / PipeWire (folgt Systemeinstellung)");
    reveal_strlit("PipeWire");
    assert("default"@.len() != "pulse"@.len());
    assert("pipewire"@.len() != "pulse"@.len());
    assert("pipewire"@.len() != "default"@.len());
}

} // verus!
