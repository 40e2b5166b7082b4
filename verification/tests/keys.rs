use rovella::Key;
use x11::keysym;

#[test]
fn x11_keysyms_map_to_their_keys() {
    assert_eq!(Key::from(keysym::XK_BackSpace), Key::Backspace);
    assert_eq!(Key::from(keysym::XK_Return), Key::Enter);
    assert_eq!(Key::from(keysym::XK_Tab), Key::Tab);
    assert_eq!(Key::from(keysym::XK_Pause), Key::Pause);
    assert_eq!(Key::from(keysym::XK_Caps_Lock), Key::Capital);
    assert_eq!(Key::from(keysym::XK_Escape), Key::Escape);
    assert_eq!(Key::from(keysym::XK_Mode_switch), Key::ModeChange);
    assert_eq!(Key::from(keysym::XK_space), Key::Space);
    assert_eq!(Key::from(keysym::XK_Prior), Key::Prior);
    assert_eq!(Key::from(keysym::XK_Next), Key::Next);
    assert_eq!(Key::from(keysym::XK_End), Key::End);
    assert_eq!(Key::from(keysym::XK_Home), Key::Home);
    assert_eq!(Key::from(keysym::XK_Left), Key::Left);
    assert_eq!(Key::from(keysym::XK_Up), Key::Up);
    assert_eq!(Key::from(keysym::XK_Right), Key::Right);
    assert_eq!(Key::from(keysym::XK_Down), Key::Down);
    assert_eq!(Key::from(keysym::XK_Select), Key::Select);
    assert_eq!(Key::from(keysym::XK_Print), Key::Print);
    assert_eq!(Key::from(keysym::XK_Execute), Key::Execute);
    assert_eq!(Key::from(keysym::XK_Insert), Key::Insert);
    assert_eq!(Key::from(keysym::XK_Delete), Key::Delete);
    assert_eq!(Key::from(keysym::XK_Help), Key::Help);
    assert_eq!(Key::from(keysym::XK_Meta_L), Key::Lwin);
    assert_eq!(Key::from(keysym::XK_Meta_R), Key::Rwin);
    assert_eq!(Key::from(keysym::XK_KP_0), Key::Numpad0);
    assert_eq!(Key::from(keysym::XK_KP_1), Key::Numpad1);
    assert_eq!(Key::from(keysym::XK_KP_2), Key::Numpad2);
    assert_eq!(Key::from(keysym::XK_KP_3), Key::Numpad3);
    assert_eq!(Key::from(keysym::XK_KP_4), Key::Numpad4);
    assert_eq!(Key::from(keysym::XK_KP_5), Key::Numpad5);
    assert_eq!(Key::from(keysym::XK_KP_6), Key::Numpad6);
    assert_eq!(Key::from(keysym::XK_KP_7), Key::Numpad7);
    assert_eq!(Key::from(keysym::XK_KP_8), Key::Numpad8);
    assert_eq!(Key::from(keysym::XK_KP_9), Key::Numpad9);
    assert_eq!(Key::from(keysym::XK_multiply), Key::Multiply);
    assert_eq!(Key::from(keysym::XK_KP_Add), Key::Add);
    assert_eq!(Key::from(keysym::XK_KP_Separator), Key::Separator);
    assert_eq!(Key::from(keysym::XK_KP_Subtract), Key::Subtract);
    assert_eq!(Key::from(keysym::XK_KP_Decimal), Key::Decimal);
    assert_eq!(Key::from(keysym::XK_KP_Divide), Key::Divide);
    assert_eq!(Key::from(keysym::XK_F1), Key::F1);
    assert_eq!(Key::from(keysym::XK_F2), Key::F2);
    assert_eq!(Key::from(keysym::XK_F3), Key::F3);
    assert_eq!(Key::from(keysym::XK_F4), Key::F4);
    assert_eq!(Key::from(keysym::XK_F5), Key::F5);
    assert_eq!(Key::from(keysym::XK_F6), Key::F6);
    assert_eq!(Key::from(keysym::XK_F7), Key::F7);
    assert_eq!(Key::from(keysym::XK_F8), Key::F8);
    assert_eq!(Key::from(keysym::XK_F9), Key::F9);
    assert_eq!(Key::from(keysym::XK_F10), Key::F10);
    assert_eq!(Key::from(keysym::XK_F11), Key::F11);
    assert_eq!(Key::from(keysym::XK_F12), Key::F12);
    assert_eq!(Key::from(keysym::XK_F13), Key::F13);
    assert_eq!(Key::from(keysym::XK_F14), Key::F14);
    assert_eq!(Key::from(keysym::XK_F15), Key::F15);
    assert_eq!(Key::from(keysym::XK_F16), Key::F16);
    assert_eq!(Key::from(keysym::XK_F17), Key::F17);
    assert_eq!(Key::from(keysym::XK_F18), Key::F18);
    assert_eq!(Key::from(keysym::XK_F19), Key::F19);
    assert_eq!(Key::from(keysym::XK_F20), Key::F20);
    assert_eq!(Key::from(keysym::XK_F21), Key::F21);
    assert_eq!(Key::from(keysym::XK_F22), Key::F22);
    assert_eq!(Key::from(keysym::XK_F23), Key::F23);
    assert_eq!(Key::from(keysym::XK_F24), Key::F24);
    assert_eq!(Key::from(keysym::XK_Num_Lock), Key::Numlock);
    assert_eq!(Key::from(keysym::XK_Scroll_Lock), Key::ScrollLock);
    assert_eq!(Key::from(keysym::XK_KP_Equal), Key::NumpadEqual);
    assert_eq!(Key::from(keysym::XK_Shift_L), Key::LShift);
    assert_eq!(Key::from(keysym::XK_Shift_R), Key::RShift);
    assert_eq!(Key::from(keysym::XK_Control_L), Key::LControl);
    assert_eq!(Key::from(keysym::XK_Control_R), Key::RControl);
    assert_eq!(Key::from(keysym::XK_Alt_L), Key::LAlt);
    assert_eq!(Key::from(keysym::XK_Alt_R), Key::RAlt);
    assert_eq!(Key::from(keysym::XK_semicolon), Key::Semicolon);
    assert_eq!(Key::from(keysym::XK_plus), Key::Plus);
    assert_eq!(Key::from(keysym::XK_comma), Key::Comma);
    assert_eq!(Key::from(keysym::XK_minus), Key::Minus);
    assert_eq!(Key::from(keysym::XK_period), Key::Period);
    assert_eq!(Key::from(keysym::XK_slash), Key::Slash);
    assert_eq!(Key::from(keysym::XK_grave), Key::Grave);
    assert_eq!(Key::from(keysym::XK_a), Key::A);
    assert_eq!(Key::from(keysym::XK_A), Key::A);
    assert_eq!(Key::from(keysym::XK_b), Key::B);
    assert_eq!(Key::from(keysym::XK_B), Key::B);
    assert_eq!(Key::from(keysym::XK_c), Key::C);
    assert_eq!(Key::from(keysym::XK_C), Key::C);
    assert_eq!(Key::from(keysym::XK_d), Key::D);
    assert_eq!(Key::from(keysym::XK_D), Key::D);
    assert_eq!(Key::from(keysym::XK_e), Key::E);
    assert_eq!(Key::from(keysym::XK_E), Key::E);
    assert_eq!(Key::from(keysym::XK_f), Key::F);
    assert_eq!(Key::from(keysym::XK_F), Key::F);
    assert_eq!(Key::from(keysym::XK_g), Key::G);
    assert_eq!(Key::from(keysym::XK_G), Key::G);
    assert_eq!(Key::from(keysym::XK_h), Key::H);
    assert_eq!(Key::from(keysym::XK_H), Key::H);
    assert_eq!(Key::from(keysym::XK_i), Key::I);
    assert_eq!(Key::from(keysym::XK_I), Key::I);
    assert_eq!(Key::from(keysym::XK_j), Key::J);
    assert_eq!(Key::from(keysym::XK_J), Key::J);
    assert_eq!(Key::from(keysym::XK_k), Key::K);
    assert_eq!(Key::from(keysym::XK_K), Key::K);
    assert_eq!(Key::from(keysym::XK_l), Key::L);
    assert_eq!(Key::from(keysym::XK_L), Key::L);
    assert_eq!(Key::from(keysym::XK_m), Key::M);
    assert_eq!(Key::from(keysym::XK_M), Key::M);
    assert_eq!(Key::from(keysym::XK_n), Key::N);
    assert_eq!(Key::from(keysym::XK_N), Key::N);
    assert_eq!(Key::from(keysym::XK_o), Key::O);
    assert_eq!(Key::from(keysym::XK_O), Key::O);
    assert_eq!(Key::from(keysym::XK_p), Key::P);
    assert_eq!(Key::from(keysym::XK_P), Key::P);
    assert_eq!(Key::from(keysym::XK_q), Key::Q);
    assert_eq!(Key::from(keysym::XK_Q), Key::Q);
    assert_eq!(Key::from(keysym::XK_r), Key::R);
    assert_eq!(Key::from(keysym::XK_R), Key::R);
    assert_eq!(Key::from(keysym::XK_s), Key::S);
    assert_eq!(Key::from(keysym::XK_S), Key::S);
    assert_eq!(Key::from(keysym::XK_t), Key::T);
    assert_eq!(Key::from(keysym::XK_T), Key::T);
    assert_eq!(Key::from(keysym::XK_u), Key::U);
    assert_eq!(Key::from(keysym::XK_U), Key::U);
    assert_eq!(Key::from(keysym::XK_v), Key::V);
    assert_eq!(Key::from(keysym::XK_V), Key::V);
    assert_eq!(Key::from(keysym::XK_w), Key::W);
    assert_eq!(Key::from(keysym::XK_W), Key::W);
    assert_eq!(Key::from(keysym::XK_x), Key::X);
    assert_eq!(Key::from(keysym::XK_X), Key::X);
    assert_eq!(Key::from(keysym::XK_y), Key::Y);
    assert_eq!(Key::from(keysym::XK_Y), Key::Y);
    assert_eq!(Key::from(keysym::XK_z), Key::Z);
    assert_eq!(Key::from(keysym::XK_Z), Key::Z);
}

#[test]
fn x11_unknown_keysyms_map_to_no_key() {
    assert_eq!(Key::from(keysym::XK_0), Key::NoKey);
    assert_eq!(Key::from(keysym::XK_KP_Enter), Key::NoKey);
    assert_eq!(Key::from(0u32), Key::NoKey);
    assert_eq!(Key::from(u32::MAX), Key::NoKey);
}

#[test]
fn x11_letters_ignore_case() {
    for i in 0..26u32 {
        assert_eq!(Key::from(keysym::XK_a + i), Key::from(keysym::XK_A + i));
        assert_ne!(Key::from(keysym::XK_A + i), Key::NoKey);
    }
    assert_eq!(Key::from(keysym::XK_q), Key::Q);
}

#[test]
fn virtual_keys_map_to_their_keys() {
    assert_eq!(Key::from_virtual_key(0x08), Key::Backspace);
    assert_eq!(Key::from_virtual_key(0x0D), Key::Enter);
    assert_eq!(Key::from_virtual_key(0x09), Key::Tab);
    assert_eq!(Key::from_virtual_key(0x10), Key::Shift);
    assert_eq!(Key::from_virtual_key(0x11), Key::Control);
    assert_eq!(Key::from_virtual_key(0x13), Key::Pause);
    assert_eq!(Key::from_virtual_key(0x14), Key::Capital);
    assert_eq!(Key::from_virtual_key(0x1B), Key::Escape);
    assert_eq!(Key::from_virtual_key(0x1C), Key::Convert);
    assert_eq!(Key::from_virtual_key(0x1D), Key::NonConvert);
    assert_eq!(Key::from_virtual_key(0x1E), Key::Accept);
    assert_eq!(Key::from_virtual_key(0x1F), Key::ModeChange);
    assert_eq!(Key::from_virtual_key(0x20), Key::Space);
    assert_eq!(Key::from_virtual_key(0x21), Key::Prior);
    assert_eq!(Key::from_virtual_key(0x22), Key::Next);
    assert_eq!(Key::from_virtual_key(0x23), Key::End);
    assert_eq!(Key::from_virtual_key(0x24), Key::Home);
    assert_eq!(Key::from_virtual_key(0x25), Key::Left);
    assert_eq!(Key::from_virtual_key(0x26), Key::Up);
    assert_eq!(Key::from_virtual_key(0x27), Key::Right);
    assert_eq!(Key::from_virtual_key(0x28), Key::Down);
    assert_eq!(Key::from_virtual_key(0x29), Key::Select);
    assert_eq!(Key::from_virtual_key(0x2A), Key::Print);
    assert_eq!(Key::from_virtual_key(0x2B), Key::Execute);
    assert_eq!(Key::from_virtual_key(0x2C), Key::Snapshot);
    assert_eq!(Key::from_virtual_key(0x2D), Key::Insert);
    assert_eq!(Key::from_virtual_key(0x2E), Key::Delete);
    assert_eq!(Key::from_virtual_key(0x2F), Key::Help);
    assert_eq!(Key::from_virtual_key(0x41), Key::A);
    assert_eq!(Key::from_virtual_key(0x42), Key::B);
    assert_eq!(Key::from_virtual_key(0x43), Key::C);
    assert_eq!(Key::from_virtual_key(0x44), Key::D);
    assert_eq!(Key::from_virtual_key(0x45), Key::E);
    assert_eq!(Key::from_virtual_key(0x46), Key::F);
    assert_eq!(Key::from_virtual_key(0x47), Key::G);
    assert_eq!(Key::from_virtual_key(0x48), Key::H);
    assert_eq!(Key::from_virtual_key(0x49), Key::I);
    assert_eq!(Key::from_virtual_key(0x4A), Key::J);
    assert_eq!(Key::from_virtual_key(0x4B), Key::K);
    assert_eq!(Key::from_virtual_key(0x4C), Key::L);
    assert_eq!(Key::from_virtual_key(0x4D), Key::M);
    assert_eq!(Key::from_virtual_key(0x4E), Key::N);
    assert_eq!(Key::from_virtual_key(0x4F), Key::O);
    assert_eq!(Key::from_virtual_key(0x50), Key::P);
    assert_eq!(Key::from_virtual_key(0x51), Key::Q);
    assert_eq!(Key::from_virtual_key(0x52), Key::R);
    assert_eq!(Key::from_virtual_key(0x53), Key::S);
    assert_eq!(Key::from_virtual_key(0x54), Key::T);
    assert_eq!(Key::from_virtual_key(0x55), Key::U);
    assert_eq!(Key::from_virtual_key(0x56), Key::V);
    assert_eq!(Key::from_virtual_key(0x57), Key::W);
    assert_eq!(Key::from_virtual_key(0x58), Key::X);
    assert_eq!(Key::from_virtual_key(0x59), Key::Y);
    assert_eq!(Key::from_virtual_key(0x5A), Key::Z);
    assert_eq!(Key::from_virtual_key(0x30), Key::N0);
    assert_eq!(Key::from_virtual_key(0x31), Key::N1);
    assert_eq!(Key::from_virtual_key(0x32), Key::N2);
    assert_eq!(Key::from_virtual_key(0x33), Key::N3);
    assert_eq!(Key::from_virtual_key(0x34), Key::N4);
    assert_eq!(Key::from_virtual_key(0x35), Key::N5);
    assert_eq!(Key::from_virtual_key(0x36), Key::N6);
    assert_eq!(Key::from_virtual_key(0x37), Key::N7);
    assert_eq!(Key::from_virtual_key(0x38), Key::N8);
    assert_eq!(Key::from_virtual_key(0x39), Key::N9);
    assert_eq!(Key::from_virtual_key(0x5B), Key::Lwin);
    assert_eq!(Key::from_virtual_key(0x5C), Key::Rwin);
    assert_eq!(Key::from_virtual_key(0x5D), Key::Apps);
    assert_eq!(Key::from_virtual_key(0x5F), Key::Sleep);
    assert_eq!(Key::from_virtual_key(0x60), Key::Numpad0);
    assert_eq!(Key::from_virtual_key(0x61), Key::Numpad1);
    assert_eq!(Key::from_virtual_key(0x62), Key::Numpad2);
    assert_eq!(Key::from_virtual_key(0x63), Key::Numpad3);
    assert_eq!(Key::from_virtual_key(0x64), Key::Numpad4);
    assert_eq!(Key::from_virtual_key(0x65), Key::Numpad5);
    assert_eq!(Key::from_virtual_key(0x66), Key::Numpad6);
    assert_eq!(Key::from_virtual_key(0x67), Key::Numpad7);
    assert_eq!(Key::from_virtual_key(0x68), Key::Numpad8);
    assert_eq!(Key::from_virtual_key(0x69), Key::Numpad9);
    assert_eq!(Key::from_virtual_key(0x6A), Key::Multiply);
    assert_eq!(Key::from_virtual_key(0x6B), Key::Add);
    assert_eq!(Key::from_virtual_key(0x6C), Key::Separator);
    assert_eq!(Key::from_virtual_key(0x6D), Key::Subtract);
    assert_eq!(Key::from_virtual_key(0x6E), Key::Decimal);
    assert_eq!(Key::from_virtual_key(0x6F), Key::Divide);
    assert_eq!(Key::from_virtual_key(0x70), Key::F1);
    assert_eq!(Key::from_virtual_key(0x71), Key::F2);
    assert_eq!(Key::from_virtual_key(0x72), Key::F3);
    assert_eq!(Key::from_virtual_key(0x73), Key::F4);
    assert_eq!(Key::from_virtual_key(0x74), Key::F5);
    assert_eq!(Key::from_virtual_key(0x75), Key::F6);
    assert_eq!(Key::from_virtual_key(0x76), Key::F7);
    assert_eq!(Key::from_virtual_key(0x77), Key::F8);
    assert_eq!(Key::from_virtual_key(0x78), Key::F9);
    assert_eq!(Key::from_virtual_key(0x79), Key::F10);
    assert_eq!(Key::from_virtual_key(0x7A), Key::F11);
    assert_eq!(Key::from_virtual_key(0x7B), Key::F12);
    assert_eq!(Key::from_virtual_key(0x7C), Key::F13);
    assert_eq!(Key::from_virtual_key(0x7D), Key::F14);
    assert_eq!(Key::from_virtual_key(0x7E), Key::F15);
    assert_eq!(Key::from_virtual_key(0x7F), Key::F16);
    assert_eq!(Key::from_virtual_key(0x80), Key::F17);
    assert_eq!(Key::from_virtual_key(0x81), Key::F18);
    assert_eq!(Key::from_virtual_key(0x82), Key::F19);
    assert_eq!(Key::from_virtual_key(0x83), Key::F20);
    assert_eq!(Key::from_virtual_key(0x84), Key::F21);
    assert_eq!(Key::from_virtual_key(0x85), Key::F22);
    assert_eq!(Key::from_virtual_key(0x86), Key::F23);
    assert_eq!(Key::from_virtual_key(0x87), Key::F24);
    assert_eq!(Key::from_virtual_key(0x90), Key::Numlock);
    assert_eq!(Key::from_virtual_key(0x91), Key::ScrollLock);
    assert_eq!(Key::from_virtual_key(0x92), Key::NumpadEqual);
    assert_eq!(Key::from_virtual_key(0xA0), Key::LShift);
    assert_eq!(Key::from_virtual_key(0xA1), Key::RShift);
    assert_eq!(Key::from_virtual_key(0xA2), Key::LControl);
    assert_eq!(Key::from_virtual_key(0xA3), Key::RControl);
    assert_eq!(Key::from_virtual_key(0xA4), Key::LAlt);
    assert_eq!(Key::from_virtual_key(0xA5), Key::RAlt);
    assert_eq!(Key::from_virtual_key(0xBA), Key::Semicolon);
    assert_eq!(Key::from_virtual_key(0xBB), Key::Plus);
    assert_eq!(Key::from_virtual_key(0xBC), Key::Comma);
    assert_eq!(Key::from_virtual_key(0xBD), Key::Minus);
    assert_eq!(Key::from_virtual_key(0xBE), Key::Period);
    assert_eq!(Key::from_virtual_key(0xBF), Key::Slash);
    assert_eq!(Key::from_virtual_key(0xC0), Key::Grave);
}

#[test]
fn virtual_key_reads_only_the_low_sixteen_bits() {
    assert_eq!(Key::from_virtual_key(0x0001_0041), Key::A);
    assert_eq!(Key::from_virtual_key(0xFFFF_001B), Key::Escape);
    assert_eq!(Key::from_virtual_key(0x0002_0000), Key::NoKey);
}

#[test]
fn unknown_virtual_keys_map_to_no_key() {
    assert_eq!(Key::from_virtual_key(0x00), Key::NoKey);
    assert_eq!(Key::from_virtual_key(0x5E), Key::NoKey);
    assert_eq!(Key::from_virtual_key(0xFF), Key::NoKey);
}

#[test]
fn platform_tables_agree_on_letters_function_keys_and_numpad() {
    for i in 0..26u32 {
        assert_eq!(Key::from_virtual_key(0x41 + i), Key::from(keysym::XK_A + i));
    }
    for i in 0..24u32 {
        assert_eq!(Key::from_virtual_key(0x70 + i), Key::from(keysym::XK_F1 + i));
    }
    for i in 0..10u32 {
        assert_eq!(Key::from_virtual_key(0x60 + i), Key::from(keysym::XK_KP_0 + i));
    }
}

#[test]
fn virtual_key_upper_bits_never_matter() {
    for code in [0x08u32, 0x1B, 0x41, 0x70, 0xC0, 0xFF] {
        for high in [0u32, 1, 0x8000, 0xFFFF] {
            assert_eq!(Key::from_virtual_key((high << 16) | code), Key::from_virtual_key(code));
        }
    }
}
