use fourkay::atoms::{fullscreen_properties, PropertyChange, WmAtom};
use fourkay::xconst::PROP_MODE_REPLACE;

#[test]
fn atom_names() {
    assert_eq!(WmAtom::NetWmState.name(), "_NET_WM_STATE");
    assert_eq!(WmAtom::NetWmStateFullscreen.name(), "_NET_WM_STATE_FULLSCREEN");
    assert_eq!(WmAtom::NetWmAllowedActions.name(), "_NET_WM_ALLOWED_ACTIONS");
    assert_eq!(WmAtom::NetWmActionFullscreen.name(), "_NET_WM_ACTION_FULLSCREEN");
    assert_eq!(WmAtom::Atom.name(), "ATOM");
}

#[test]
fn c_name_is_nul_terminated_name() {
    assert_eq!(WmAtom::Atom.c_name(), vec![b'A', b'T', b'O', b'M', 0]);
    assert_eq!(WmAtom::NetWmState.c_name(), b"_NET_WM_STATE\0".to_vec());
    for a in [
        WmAtom::NetWmState,
        WmAtom::NetWmStateFullscreen,
        WmAtom::NetWmAllowedActions,
        WmAtom::NetWmActionFullscreen,
        WmAtom::Atom,
    ] {
        let c = a.c_name();
        assert_eq!(c.len(), a.name().len() + 1);
        assert_eq!(&c[..c.len() - 1], a.name().as_bytes());
        assert_eq!(c.iter().filter(|&&b| b == 0).count(), 1);
        assert_eq!(*c.last().unwrap(), 0);
    }
}

#[test]
fn fullscreen_properties_in_order() {
    let p = fullscreen_properties();
    assert_eq!(
        p,
        vec![
            PropertyChange {
                property: WmAtom::NetWmAllowedActions,
                data_type: WmAtom::Atom,
                format: 32,
                mode: PROP_MODE_REPLACE,
                value: WmAtom::NetWmActionFullscreen,
                count: 1,
            },
            PropertyChange {
                property: WmAtom::NetWmState,
                data_type: WmAtom::Atom,
                format: 32,
                mode: PROP_MODE_REPLACE,
                value: WmAtom::NetWmStateFullscreen,
                count: 1,
            },
        ]
    );
}
