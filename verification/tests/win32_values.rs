use triangle_from_scratch::cursor::EIDCursor;
use triangle_from_scratch::win32::{
    SysColor, CREATESTRUCTW, CS_HREDRAW, CS_OWNDC, CS_VREDRAW, CW_USEDEFAULT, GWLP_USERDATA,
    IDC_ARROW, MAKEINTRESOURCE, MSG, PAINTSTRUCT, POINT, RECT, WM_CLOSE, WM_CREATE, WM_DESTROY,
    WM_NCCREATE, WM_PAINT, WM_QUIT, WNDCLASSW, WS_CAPTION, WS_BORDER, WS_DLGFRAME,
    WS_OVERLAPPEDWINDOW, WS_POPUPWINDOW, WS_TILEDWINDOW,
};

const COLORS: [(SysColor, u32); 30] = [
    (SysColor::_3D_DARK_SHADOW, 21),
    (SysColor::_3D_LIGHT, 22),
    (SysColor::ACTIVE_BORDER, 10),
    (SysColor::ACTIVE_CAPTION, 2),
    (SysColor::APP_WORKSPACE, 12),
    (SysColor::BUTTON_FACE, 15),
    (SysColor::BUTTON_HIGHLIGHT, 20),
    (SysColor::BUTTON_SHADOW, 16),
    (SysColor::BUTTON_TEXT, 18),
    (SysColor::CAPTION_TEXT, 9),
    (SysColor::DESKTOP, 1),
    (SysColor::GRADIENT_ACTIVE_CAPTION, 27),
    (SysColor::GRADIENT_INACTIVE_CAPTION, 28),
    (SysColor::GRAY_TEXT, 17),
    (SysColor::HIGHLIGHT, 13),
    (SysColor::HIGHLIGHT_TEXT, 14),
    (SysColor::HOT_LIGHT, 26),
    (SysColor::INACTIVE_BORDER, 11),
    (SysColor::INACTIVE_CAPTION, 3),
    (SysColor::INACTIVE_CAPTION_TEXT, 19),
    (SysColor::INFO_BACKGROUND, 24),
    (SysColor::INFO_TEXT, 23),
    (SysColor::MENU, 4),
    (SysColor::MENU_HIGHLIGHT, 29),
    (SysColor::MENU_BAR, 30),
    (SysColor::MENU_TEXT, 7),
    (SysColor::SCROLL_BAR, 0),
    (SysColor::WINDOW, 5),
    (SysColor::WINDOW_FRAME, 6),
    (SysColor::WINDOW_TEXT, 8),
];

const CURSORS: [(EIDCursor, u16); 14] = [
    (EIDCursor::AppStarting, 32650),
    (EIDCursor::Arrow, 32512),
    (EIDCursor::Cross, 32515),
    (EIDCursor::Hand, 32649),
    (EIDCursor::Help, 32651),
    (EIDCursor::IBeam, 32513),
    (EIDCursor::No, 32648),
    (EIDCursor::SizeAll, 32646),
    (EIDCursor::SizeNeSw, 32643),
    (EIDCursor::SizeNS, 32645),
    (EIDCursor::SizeNwSe, 32642),
    (EIDCursor::SizeWE, 32644),
    (EIDCursor::UpArrow, 32516),
    (EIDCursor::Wait, 32514),
];

#[test]
fn make_int_resource_keeps_the_number() {
    assert_eq!(MAKEINTRESOURCE(32512), 32512usize);
    assert_eq!(MAKEINTRESOURCE(0), 0usize);
    assert_eq!(MAKEINTRESOURCE(u16::MAX), 65535usize);
    assert_eq!(MAKEINTRESOURCE(32512), IDC_ARROW);
}

#[test]
fn every_system_colour_has_its_index() {
    for (color, index) in COLORS {
        assert_eq!(color.index(), index);
    }
}

#[test]
fn the_brush_of_a_colour_is_its_index_plus_one() {
    assert_eq!(SysColor::WINDOW.brush(), 6);
    assert_eq!(SysColor::SCROLL_BAR.brush(), 1);
    for (color, index) in COLORS {
        assert_eq!(color.brush(), index as usize + 1);
    }
}

#[test]
fn no_two_colours_share_an_index() {
    for (i, (a, _)) in COLORS.iter().enumerate() {
        for (j, (b, _)) in COLORS.iter().enumerate() {
            assert_eq!(a.index() == b.index(), i == j);
            assert_eq!(a == b, i == j);
        }
    }
}

#[test]
fn every_cursor_has_its_identifier() {
    for (cursor, id) in CURSORS {
        assert_eq!(cursor.id(), id);
        assert_eq!(cursor.resource(), id as usize);
    }
    assert_eq!(EIDCursor::Arrow.resource(), IDC_ARROW);
}

#[test]
fn no_two_cursors_share_an_identifier() {
    for (i, (a, _)) in CURSORS.iter().enumerate() {
        for (j, (b, _)) in CURSORS.iter().enumerate() {
            assert_eq!(a.id() == b.id(), i == j);
        }
    }
}

#[test]
fn the_handled_messages_have_their_numbers() {
    assert_eq!(WM_NCCREATE, 0x81);
    assert_eq!(WM_CREATE, 1);
    assert_eq!(WM_DESTROY, 2);
    assert_eq!(WM_PAINT, 15);
    assert_eq!(WM_CLOSE, 16);
    assert_eq!(WM_QUIT, 18);
}

#[test]
fn the_composed_styles_have_their_bits() {
    assert_eq!(WS_CAPTION, WS_BORDER | WS_DLGFRAME);
    assert_eq!(WS_OVERLAPPEDWINDOW, 0x00CF0000);
    assert_eq!(WS_TILEDWINDOW, 0x00CF0000);
    assert_eq!(WS_POPUPWINDOW, 0x80880000);
    assert_eq!(CS_OWNDC | CS_HREDRAW | CS_VREDRAW, 0x23);
}

#[test]
fn use_default_is_the_top_bit_alone() {
    assert_eq!(CW_USEDEFAULT, 0x80000000_u32 as i32);
    assert_eq!(GWLP_USERDATA, -21);
}

#[test]
fn default_point_and_rectangle_are_zero() {
    assert_eq!(POINT::default(), POINT { x: 0, y: 0 });
    assert_eq!(RECT::default(), RECT { left: 0, top: 0, right: 0, bottom: 0 });
}

#[test]
fn default_message_is_zero() {
    let m = MSG::default();
    assert_eq!((m.hwnd, m.message, m.wParam, m.lParam), (0, 0, 0, 0));
    assert_eq!((m.time, m.pt, m.lPrivate), (0, POINT { x: 0, y: 0 }, 0));
}

#[test]
fn default_paint_state_is_zero() {
    let p = PAINTSTRUCT::default();
    assert_eq!((p.hdc, p.fErase, p.fRestore, p.fIncUpdate), (0, 0, 0, 0));
    assert_eq!(p.rcPaint, RECT::default());
    assert_eq!(p.rgbReserved, [0u8; 32]);
}

#[test]
fn default_window_class_is_zero() {
    let c = WNDCLASSW::default();
    assert_eq!((c.style, c.lpfnWndProc, c.cbClsExtra, c.cbWndExtra), (0, 0, 0, 0));
    assert_eq!((c.hInstance, c.hIcon, c.hCursor, c.hbrBackground), (0, 0, 0, 0));
    assert_eq!((c.lpszMenuName, c.lpszClassName), (0, 0));
}

#[test]
fn default_creation_parameters_are_zero() {
    let c = CREATESTRUCTW::default();
    assert_eq!((c.lpCreateParams, c.hInstance, c.hMenu, c.hwndParent), (0, 0, 0, 0));
    assert_eq!((c.cy, c.cx, c.y, c.x, c.style), (0, 0, 0, 0, 0));
    assert_eq!((c.lpszName, c.lpszClass, c.dwExStyle), (0, 0, 0));
}
