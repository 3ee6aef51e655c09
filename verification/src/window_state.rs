//! Remembered panel position per monitor, in physical X11 pixels.
use vstd::prelude::*;
use crate::keyed::TextMap;
use crate::number::{format_i64, signed_decimal};
use crate::text::{chars_of, extend_chars, string_from};
use crate::x11::Geometry;

verus! {

/// A window position.
pub type WindowPosition = (i32, i32);

/// The remembered position of the panel on each monitor.
pub struct WindowState {
    pub positions: TextMap<WindowPosition>,
}

impl WindowState {
    /// No monitor is listed twice.
    pub open spec fn wf(&self) -> bool {
        self.positions.wf()
    }

    /// The remembered positions.
    pub open spec fn view_positions(&self) -> Map<Seq<char>, WindowPosition> {
        self.positions.map()
    }

    /// No position remembered.
    pub fn new() -> (s: Self)
        ensures
            s.wf(),
            s.view_positions() == Map::<Seq<char>, WindowPosition>::empty(),
            s.view_positions().dom().finite(),
            s.view_positions().len() == 0,
    {
        WindowState { positions: TextMap::new() }
    }

    /// Remembers `pos` for the monitor `key`.
    pub fn set(&mut self, key: String, pos: WindowPosition)
        requires
            old(self).wf(),
        ensures
            final(self).wf(),
            final(self).view_positions() == old(self).view_positions().insert(key@, pos),
            final(self).view_positions().dom().finite(),
            final(self).view_positions().len() == old(self).view_positions().len() + (if old(
                self,
            ).view_positions().contains_key(key@) {
                0int
            } else {
                1int
            }),
    {
        proof {
            self.positions.lemma_finite();
        }
        self.positions.insert(key, pos);
        proof {
            vstd::set::axiom_set_insert_len(old(self).view_positions().dom(), key@);
            assert(self.view_positions().dom() =~= old(self).view_positions().dom().insert(key@));
        }
    }

    /// The position remembered for the monitor `key`.
    pub fn get(&self, key: &str) -> (r: Option<WindowPosition>)
        requires
            self.wf(),
        ensures
            match r {
                Some(p) => self.view_positions().contains_key(key@) && p == self.view_positions()[key@],
                None => !self.view_positions().contains_key(key@),
            },
    {
        match self.positions.get(key) {
            Some(p) => Some(*p),
            None => None,
        }
    }
}

/// Law: the position read back for a monitor is the one last set for it,
/// and setting one monitor's position leaves the others as they were.
pub proof fn lemma_position_read_after_set(
    positions: Map<Seq<char>, WindowPosition>,
    key: Seq<char>,
    pos: WindowPosition,
    other: Seq<char>,
)
    ensures
        positions.insert(key, pos).contains_key(key),
        positions.insert(key, pos)[key] == pos,
        other != key ==> positions.insert(key, pos).contains_key(other) == positions.contains_key(
            other,
        ),
        other != key && positions.contains_key(other) ==> positions.insert(key, pos)[other]
            == positions[other],
{
}

/// The key of a monitor made from its geometry: `WxH+X+Y`.
pub open spec fn geometry_key_spec(g: Geometry) -> Seq<char> {
    signed_decimal(g.width as int) + seq!['x'] + signed_decimal(g.height as int) + seq!['+']
        + signed_decimal(g.x as int) + seq!['+'] + signed_decimal(g.y as int)
}

/// A stable key for a monitor: its connector name when it has a non-empty
/// one, else its geometry.
pub open spec fn monitor_key_spec(connector: Option<Seq<char>>, g: Geometry) -> Seq<char> {
    match connector {
        Some(c) => if c.len() > 0 {
            c
        } else {
            geometry_key_spec(g)
        },
        None => geometry_key_spec(g),
    }
}

fn monitor_geometry_as_key(g: &Geometry) -> (out: Vec<char>)
    ensures
        out@ == geometry_key_spec(*g),
{
    let mut v = format_i64(g.width as i64);
    v.push('x');
    extend_chars(&mut v, format_i64(g.height as i64).as_slice());
    v.push('+');
    extend_chars(&mut v, format_i64(g.x as i64).as_slice());
    v.push('+');
    extend_chars(&mut v, format_i64(g.y as i64).as_slice());
    assert(v@ =~= geometry_key_spec(*g));
    v
}

/// The key under which a monitor's panel position is remembered, from its
/// connector name (if GDK knows one) and its geometry.
pub fn monitor_key(connector: Option<&str>, geometry: &Geometry) -> (out: String)
    ensures
        out@ == monitor_key_spec(
            match connector {
                Some(c) => Some(c@),
                None => None,
            },
            *geometry,
        ),
{
    match connector {
        Some(c) => {
            let cc = chars_of(c);
            if cc.len() > 0 {
                return string_from(cc.as_slice());
            }
        },
        None => {},
    }
    string_from(monitor_geometry_as_key(geometry).as_slice())
}

} // verus!
