//! Window-manager atoms and the properties that make the window fullscreen.
use vstd::prelude::*;
use crate::text::{ascii_bytes, ascii_bytes_of};
use crate::xconst::PROP_MODE_REPLACE;

verus! {

/// The atoms the program interns by name.
#[derive(Clone, Copy, Debug, PartialEq, Eq, Structural)]
pub enum WmAtom {
    NetWmState,
    NetWmStateFullscreen,
    NetWmAllowedActions,
    NetWmActionFullscreen,
    Atom,
}

impl WmAtom {
    /// The name the atom is interned under.
    pub open spec fn atom_name(self) -> Seq<char> {
        match self {
            WmAtom::NetWmState => "_NET_WM_STATE"@,
            WmAtom::NetWmStateFullscreen => "_NET_WM_STATE_FULLSCREEN"@,
            WmAtom::NetWmAllowedActions => "_NET_WM_ALLOWED_ACTIONS"@,
            WmAtom::NetWmActionFullscreen => "_NET_WM_ACTION_FULLSCREEN"@,
            WmAtom::Atom => "ATOM"@,
        }
    }

    /// The bytes of the atom's name, one per (ASCII) character.
    pub open spec fn name_bytes(self) -> Seq<u8> {
        ascii_bytes_of(self.atom_name())
    }

    /// The NUL-terminated string handed to `XInternAtom`.
    pub open spec fn c_name_bytes(self) -> Seq<u8> {
        self.name_bytes().push(0u8)
    }

    /// The atom's name.
    pub fn name(&self) -> (s: &'static str)
        ensures
            s@ == self.atom_name(),
    {
        match self {
            WmAtom::NetWmState => "_NET_WM_STATE",
            WmAtom::NetWmStateFullscreen => "_NET_WM_STATE_FULLSCREEN",
            WmAtom::NetWmAllowedActions => "_NET_WM_ALLOWED_ACTIONS",
            WmAtom::NetWmActionFullscreen => "_NET_WM_ACTION_FULLSCREEN",
            WmAtom::Atom => "ATOM",
        }
    }

    /// Every name is plain ASCII with no NUL character in it.
    pub proof fn lemma_name_plain_ascii(self)
        ensures
            forall|i: int|
                0 <= i < self.atom_name().len() ==> '\u{1}' <= #[trigger] self.atom_name()[i]
                    <= '\u{7f}',
    {
        reveal_strlit("_NET_WM_STATE");
        reveal_strlit("_NET_WM_STATE_FULLSCREEN");
        reveal_strlit("_NET_WM_ALLOWED_ACTIONS");
        reveal_strlit("_NET_WM_ACTION_FULLSCREEN");
        reveal_strlit("ATOM");
    }

    /// The NUL-terminated name for `XInternAtom`: the name's bytes followed by
    /// one NUL, the only NUL in it.
    pub fn c_name(&self) -> (r: Vec<u8>)
        ensures
            r@ == self.c_name_bytes(),
            r@.len() == self.atom_name().len() + 1,
            r@.last() == 0u8,
            forall|i: int| 0 <= i < r@.len() - 1 ==> r@[i] != 0u8,
    {
        let s = self.name();
        proof {
            self.lemma_name_plain_ascii();
        }
        let mut r = ascii_bytes(s);
        r.push(0u8);
        proof {
            assert forall|i: int| 0 <= i < r@.len() - 1 implies r@[i] != 0u8 by {
                assert(r@[i] == self.atom_name()[i] as u8);
                assert('\u{1}' <= self.atom_name()[i] <= '\u{7f}');
            }
        }
        r
    }
}

/// One `XChangeProperty` call whose data is a single atom.
#[derive(Clone, Copy, Debug, PartialEq, Eq, Structural)]
pub struct PropertyChange {
    /// The property that changes.
    pub property: WmAtom,
    /// The type of the property's data.
    pub data_type: WmAtom,
    /// Bits per data item.
    pub format: i32,
    /// How the data combines with what the property held.
    pub mode: i32,
    /// The one atom the data consists of.
    pub value: WmAtom,
    /// Number of data items.
    pub count: i32,
}

/// Replace `property` by the single atom `value`.
pub open spec fn replace_with_atom(property: WmAtom, value: WmAtom) -> PropertyChange {
    PropertyChange {
        property,
        data_type: WmAtom::Atom,
        format: 32,
        mode: PROP_MODE_REPLACE,
        value,
        count: 1,
    }
}

/// The property changes that ask the window manager for fullscreen, in the
/// order they are made.
pub open spec fn spec_fullscreen_properties() -> Seq<PropertyChange> {
    seq![
        replace_with_atom(WmAtom::NetWmAllowedActions, WmAtom::NetWmActionFullscreen),
        replace_with_atom(WmAtom::NetWmState, WmAtom::NetWmStateFullscreen),
    ]
}

/// The property changes that make the window fullscreen: first the
/// fullscreen action is announced as allowed, then the window's state is set
/// to fullscreen. Each replaces its property by one 32-bit `ATOM`.
pub fn fullscreen_properties() -> (r: Vec<PropertyChange>)
    ensures
        r@ == spec_fullscreen_properties(),
        forall|i: int|
            0 <= i < r@.len() ==> {
                &&& #[trigger] r@[i].data_type == WmAtom::Atom
                &&& r@[i].format == 32
                &&& r@[i].mode == PROP_MODE_REPLACE
                &&& r@[i].count == 1
            },
        exists|i: int|
            0 <= i < r@.len() && #[trigger] r@[i].property == WmAtom::NetWmState && r@[i].value
                == WmAtom::NetWmStateFullscreen,
{
    let r: Vec<PropertyChange> = vec![
        PropertyChange {
            property: WmAtom::NetWmAllowedActions,
            data_type: WmAtom::Atom,
            format: 32,
            mode: PROP_MODE_REPLACE,
            value: WmAtom::NetWmActionFullscreen,
            count: 1,
        },
        PropertyChange {
            property: WmAtom::NetWmState,
            data_type: WmAtom::Atom,
            format: 32,
            mode: PROP_MODE_REPLACE,
            value: WmAtom::NetWmStateFullscreen,
            count: 1,
        },
    ];
    assert(r@ =~= spec_fullscreen_properties());
    assert(r@[1].property == WmAtom::NetWmState);
    r
}

} // verus!
