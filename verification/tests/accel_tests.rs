use tao::accel::{
    convert_modifiers, hotkey_registrations, register_global_accelerators, HotKey,
    ModifiersState, Registration,
};

fn mods(shift: bool, control: bool, alt: bool, super_key: bool) -> ModifiersState {
    ModifiersState { shift, control, alt, super_key }
}

#[test]
fn modifier_mask_encoding() {
    assert_eq!(convert_modifiers(&mods(false, false, false, false)), 0);
    assert_eq!(convert_modifiers(&mods(true, false, false, false)), 512);
    assert_eq!(convert_modifiers(&mods(false, false, false, true)), 256);
    assert_eq!(convert_modifiers(&mods(false, false, true, false)), 2048);
    assert_eq!(convert_modifiers(&mods(false, true, false, false)), 4096);
    assert_eq!(
        convert_modifiers(&mods(true, true, true, true)),
        512 + 256 + 2048 + 4096
    );
    assert_eq!(convert_modifiers(&mods(true, true, false, false)), 4608);
}

#[test]
fn one_hotkey_expands_per_scan_code() {
    let hotkey = HotKey {
        id: 1,
        mods: mods(true, false, false, true),
        scan_codes: vec![10, 11],
    };
    assert_eq!(
        hotkey_registrations(&hotkey),
        vec![
            Registration { id: 1, modifiers: 768, scan_code: 10 },
            Registration { id: 1, modifiers: 768, scan_code: 11 },
        ]
    );
}

#[test]
fn registration_order_follows_the_hotkey_list() {
    let hotkeys = vec![
        HotKey { id: 1, mods: mods(true, false, false, false), scan_codes: vec![4] },
        HotKey { id: 2, mods: mods(false, true, false, false), scan_codes: vec![5, 6] },
        HotKey { id: 3, mods: mods(false, false, false, false), scan_codes: vec![] },
    ];
    assert_eq!(
        register_global_accelerators(hotkeys),
        vec![
            Registration { id: 1, modifiers: 512, scan_code: 4 },
            Registration { id: 2, modifiers: 4096, scan_code: 5 },
            Registration { id: 2, modifiers: 4096, scan_code: 6 },
        ]
    );
}

#[test]
fn no_hotkeys_no_registrations() {
    assert_eq!(register_global_accelerators(vec![]), vec![]);
}
