//! The Win32 windowing vocabulary as plain values: the integer types, the
//! constants and the structures that the windowing calls exchange.
//!
//! Handles and pointers are held as their addresses, so every value here can be
//! built, compared and reasoned about without touching the operating system.

use crate::utf16::{encode, encode_utf16, lemma_encode_keeps_nul_out};
use vstd::prelude::*;

verus! {

pub type HANDLE = usize;

pub type HINSTANCE = HANDLE;

pub type HICON = HANDLE;

pub type HCURSOR = HANDLE;

pub type HBRUSH = HANDLE;

pub type HWND = HANDLE;

pub type HMODULE = HINSTANCE;

pub type HMENU = HANDLE;

pub type HLOCAL = HANDLE;

/// A handle to the device context.
pub type HDC = HANDLE;

/// The address of a NUL-terminated wide string.
pub type LPCWSTR = usize;

/// The address of a wide string that may be written to.
pub type LPWSTR = usize;

/// The address of untyped data.
pub type LPVOID = usize;

/// The address of a window procedure, zero where there is none.
pub type WNDPROC = usize;

/// Wide char, 2 bytes.
pub type WCHAR = u16;

pub type UINT = u32;

pub type UINT_PTR = usize;

pub type LONG_PTR = UINT_PTR;

pub type ULONG_PTR = usize;

pub type WPARAM = UINT_PTR;

pub type LPARAM = LONG_PTR;

pub type LRESULT = LONG_PTR;

pub type LONG = i32;

pub type DWORD = u32;

pub type WORD = u16;

pub type ATOM = WORD;

pub type BYTE = u8;

pub type BOOL = i32;

/// Window Messages
pub const WM_NULL: u32 = 0x0000;

pub const WM_NCCREATE: u32 = 0x0081;

pub const WM_CREATE: u32 = 0x0001;

pub const WM_DESTROY: u32 = 0x0002;

pub const WM_MOVE: u32 = 0x0003;

pub const WM_SIZE: u32 = 0x0005;

pub const WM_ACTIVATE: u32 = 0x0006;

pub const WM_SETFOCUS: u32 = 0x0007;

pub const WM_KILLFOCUS: u32 = 0x0008;

pub const WM_ENABLE: u32 = 0x000A;

pub const WM_SETREDRAW: u32 = 0x000B;

pub const WM_SETTEXT: u32 = 0x000C;

pub const WM_GETTEXT: u32 = 0x000D;

pub const WM_GETTEXTLENGTH: u32 = 0x000E;

pub const WM_PAINT: u32 = 0x000F;

pub const WM_CLOSE: u32 = 0x0010;

pub const WM_QUIT: u32 = 0x0012;

pub const WM_ERASEBKGND: u32 = 0x0014;

pub const WM_SYSCOLORCHANGE: u32 = 0x0015;

pub const WM_SHOWWINDOW: u32 = 0x0018;

pub const WM_WININICHANGE: u32 = 0x001A;

pub const WM_DEVMODECHANGE: u32 = 0x001B;

pub const WM_ACTIVATEAPP: u32 = 0x001C;

pub const WM_FONTCHANGE: u32 = 0x001D;

pub const WM_TIMECHANGE: u32 = 0x001E;

pub const WM_CANCELMODE: u32 = 0x001F;

pub const WM_SETCURSOR: u32 = 0x0020;

pub const WM_MOUSEACTIVATE: u32 = 0x0021;

pub const WM_CHILDACTIVATE: u32 = 0x0022;

pub const WM_QUEUESYNC: u32 = 0x0023;

pub const WM_GETMINMAXINFO: u32 = 0x0024;

/// Window Styles
pub const WS_OVERLAPPED: u32 = 0x00000000;

pub const WS_POPUP: u32 = 0x80000000;

pub const WS_CHILD: u32 = 0x40000000;

pub const WS_MINIMIZE: u32 = 0x20000000;

pub const WS_VISIBLE: u32 = 0x10000000;

pub const WS_DISABLED: u32 = 0x08000000;

pub const WS_CLIPSIBLINGS: u32 = 0x04000000;

pub const WS_CLIPCHILDREN: u32 = 0x02000000;

pub const WS_MAXIMIZE: u32 = 0x01000000;

/// `WS_BORDER | WS_DLGFRAME`
pub const WS_CAPTION: u32 = 0x00C00000;

pub const WS_BORDER: u32 = 0x00800000;

pub const WS_DLGFRAME: u32 = 0x00400000;

pub const WS_VSCROLL: u32 = 0x00200000;

pub const WS_HSCROLL: u32 = 0x00100000;

pub const WS_SYSMENU: u32 = 0x00080000;

pub const WS_THICKFRAME: u32 = 0x00040000;

pub const WS_GROUP: u32 = 0x00020000;

pub const WS_TABSTOP: u32 = 0x00010000;

pub const WS_MINIMIZEBOX: u32 = 0x00020000;

pub const WS_MAXIMIZEBOX: u32 = 0x00010000;

pub const WS_TILED: u32 = WS_OVERLAPPED;

pub const WS_ICONIC: u32 = WS_MINIMIZE;

pub const WS_SIZEBOX: u32 = WS_THICKFRAME;

pub const WS_TILEDWINDOW: u32 = WS_OVERLAPPEDWINDOW;

/// Common Window Styles
pub const WS_OVERLAPPEDWINDOW: u32 = WS_OVERLAPPED | WS_CAPTION | WS_SYSMENU | WS_THICKFRAME
    | WS_MINIMIZEBOX | WS_MAXIMIZEBOX;

pub const WS_POPUPWINDOW: u32 = WS_POPUP | WS_BORDER | WS_SYSMENU;

pub const WS_CHILDWINDOW: u32 = WS_CHILD;

/// The position or size that leaves the choice to the system: the bit pattern
/// `0x80000000` read as a signed number.
pub const CW_USEDEFAULT: i32 = i32::MIN;

pub const SW_SHOW: i32 = 5;

/// The resource identifier of the standard arrow cursor.
pub const IDC_ARROW: LPCWSTR = 32512;

pub const MB_OKCANCEL: u32 = 0x00000001;

pub const IDOK: i32 = 1;

pub const GWLP_USERDATA: i32 = -21;

pub const FORMAT_MESSAGE_ALLOCATE_BUFFER: u32 = 0x00000100;

pub const FORMAT_MESSAGE_FROM_SYSTEM: u32 = 0x00001000;

pub const FORMAT_MESSAGE_IGNORE_INSERTS: u32 = 0x00000200;

/// Redraws the entire window if a movement or size adjustment changes the height of the client area.
pub const CS_VREDRAW: u32 = 0x0001;

/// Redraws the entire window if a movement or size adjustment changes the width of the client area.
pub const CS_HREDRAW: u32 = 0x0002;

/// Sends a double-click message to the window procedure when the user double-clicks the mouse while
/// the cursor is within a window belonging to the class.
pub const CS_DBLCLKS: u32 = 0x0008;

/// Allocates a unique device context for each window in the class.
pub const CS_OWNDC: u32 = 0x0020;

/// Allocates one device context to be shared by all windows in the class.
pub const CS_CLASSDC: u32 = 0x0040;

/// Sets the clipping rectangle of the child window to that of the parent window so that the child
/// can draw on the parent.
pub const CS_PARENTDC: u32 = 0x0080;

/// Disables Close on the window menu.
pub const CS_NOCLOSE: u32 = 0x0200;

/// Saves, as a bitmap, the portion of the screen image obscured by a window of this class.
pub const CS_SAVEBITS: u32 = 0x0800;

/// Aligns the window's client area on a byte boundary (in the x direction).
pub const CS_BYTEALIGNCLIENT: u32 = 0x1000;

/// Aligns the window on a byte boundary (in the x direction).
pub const CS_BYTEALIGNWINDOW: u32 = 0x2000;

/// Indicates that the window class is an application global class.
pub const CS_GLOBALCLASS: u32 = 0x4000;

/// The composed window styles, bit by bit.
pub proof fn lemma_composed_styles()
    ensures
        WS_CAPTION == WS_BORDER | WS_DLGFRAME,
        WS_OVERLAPPEDWINDOW == 0x00CF0000,
        WS_TILEDWINDOW == 0x00CF0000,
        WS_POPUPWINDOW == 0x80880000,
{
    assert(0x00C00000u32 == 0x00800000u32 | 0x00400000u32) by (bit_vector);
    assert(0x00000000u32 | 0x00C00000u32 | 0x00080000u32 | 0x00040000u32 | 0x00020000u32
        | 0x00010000u32 == 0x00CF0000u32) by (bit_vector);
    assert(0x80000000u32 | 0x00800000u32 | 0x00080000u32 == 0x80880000u32) by (bit_vector);
}

/// The system colours, each with the index by which the system knows it.
#[derive(Debug, Clone, Copy, PartialEq, Eq)]
pub enum SysColor {
    _3D_DARK_SHADOW,
    _3D_LIGHT,
    ACTIVE_BORDER,
    ACTIVE_CAPTION,
    APP_WORKSPACE,
    /// Button face, also "3D face" color.
    BUTTON_FACE,
    /// Button highlight, also "3D highlight" color.
    BUTTON_HIGHLIGHT,
    /// Button shadow, also "3D shadow" color.
    BUTTON_SHADOW,
    BUTTON_TEXT,
    CAPTION_TEXT,
    /// Desktop background color
    DESKTOP,
    GRADIENT_ACTIVE_CAPTION,
    GRADIENT_INACTIVE_CAPTION,
    GRAY_TEXT,
    HIGHLIGHT,
    HIGHLIGHT_TEXT,
    HOT_LIGHT,
    INACTIVE_BORDER,
    INACTIVE_CAPTION,
    INACTIVE_CAPTION_TEXT,
    INFO_BACKGROUND,
    INFO_TEXT,
    MENU,
    MENU_HIGHLIGHT,
    MENU_BAR,
    MENU_TEXT,
    SCROLL_BAR,
    WINDOW,
    WINDOW_FRAME,
    WINDOW_TEXT,
}

impl SysColor {
    /// The index of the colour in the system's table.
    pub open spec fn spec_index(self) -> u32 {
        match self {
            SysColor::SCROLL_BAR => 0,
            SysColor::DESKTOP => 1,
            SysColor::ACTIVE_CAPTION => 2,
            SysColor::INACTIVE_CAPTION => 3,
            SysColor::MENU => 4,
            SysColor::WINDOW => 5,
            SysColor::WINDOW_FRAME => 6,
            SysColor::MENU_TEXT => 7,
            SysColor::WINDOW_TEXT => 8,
            SysColor::CAPTION_TEXT => 9,
            SysColor::ACTIVE_BORDER => 10,
            SysColor::INACTIVE_BORDER => 11,
            SysColor::APP_WORKSPACE => 12,
            SysColor::HIGHLIGHT => 13,
            SysColor::HIGHLIGHT_TEXT => 14,
            SysColor::BUTTON_FACE => 15,
            SysColor::BUTTON_SHADOW => 16,
            SysColor::GRAY_TEXT => 17,
            SysColor::BUTTON_TEXT => 18,
            SysColor::INACTIVE_CAPTION_TEXT => 19,
            SysColor::BUTTON_HIGHLIGHT => 20,
            SysColor::_3D_DARK_SHADOW => 21,
            SysColor::_3D_LIGHT => 22,
            SysColor::INFO_TEXT => 23,
            SysColor::INFO_BACKGROUND => 24,
            SysColor::HOT_LIGHT => 26,
            SysColor::GRADIENT_ACTIVE_CAPTION => 27,
            SysColor::GRADIENT_INACTIVE_CAPTION => 28,
            SysColor::MENU_HIGHLIGHT => 29,
            SysColor::MENU_BAR => 30,
        }
    }

    /// The index of the colour in the system's table.
    #[verifier::when_used_as_spec(spec_index)]
    pub fn index(self) -> (r: u32)
        ensures
            r == self.spec_index(),
    {
        match self {
            SysColor::SCROLL_BAR => 0,
            SysColor::DESKTOP => 1,
            SysColor::ACTIVE_CAPTION => 2,
            SysColor::INACTIVE_CAPTION => 3,
            SysColor::MENU => 4,
            SysColor::WINDOW => 5,
            SysColor::WINDOW_FRAME => 6,
            SysColor::MENU_TEXT => 7,
            SysColor::WINDOW_TEXT => 8,
            SysColor::CAPTION_TEXT => 9,
            SysColor::ACTIVE_BORDER => 10,
            SysColor::INACTIVE_BORDER => 11,
            SysColor::APP_WORKSPACE => 12,
            SysColor::HIGHLIGHT => 13,
            SysColor::HIGHLIGHT_TEXT => 14,
            SysColor::BUTTON_FACE => 15,
            SysColor::BUTTON_SHADOW => 16,
            SysColor::GRAY_TEXT => 17,
            SysColor::BUTTON_TEXT => 18,
            SysColor::INACTIVE_CAPTION_TEXT => 19,
            SysColor::BUTTON_HIGHLIGHT => 20,
            SysColor::_3D_DARK_SHADOW => 21,
            SysColor::_3D_LIGHT => 22,
            SysColor::INFO_TEXT => 23,
            SysColor::INFO_BACKGROUND => 24,
            SysColor::HOT_LIGHT => 26,
            SysColor::GRADIENT_ACTIVE_CAPTION => 27,
            SysColor::GRADIENT_INACTIVE_CAPTION => 28,
            SysColor::MENU_HIGHLIGHT => 29,
            SysColor::MENU_BAR => 30,
        }
    }

    /// The brush that paints with this colour: a system colour serves as a
    /// brush under its index plus one, so that no colour is the null brush.
    pub open spec fn spec_brush(self) -> HBRUSH {
        (self.spec_index() + 1) as usize
    }

    /// The brush that paints with this colour.
    #[verifier::when_used_as_spec(spec_brush)]
    pub fn brush(self) -> (r: HBRUSH)
        ensures
            r == self.spec_brush(),
            r != 0,
    {
        (self.index() + 1) as usize
    }

    /// No two colours share an index, and with it no two share a brush.
    pub proof fn lemma_index_is_injective(self, other: SysColor)
        ensures
            self.spec_index() == other.spec_index() ==> self == other,
            self.spec_brush() == other.spec_brush() ==> self == other,
            self.spec_index() <= 30,
    {
    }
}

/// A point, in the coordinates of the screen or of a window.
#[derive(Debug, Clone, Copy, PartialEq, Eq)]
pub struct POINT {
    pub x: LONG,
    pub y: LONG,
}

impl Default for POINT {
    /// The point with every field zero.
    fn default() -> (r: Self)
        ensures
            r == (POINT { x: 0, y: 0 }),
    {
        POINT { x: 0, y: 0 }
    }
}

/// A message as it is taken from the queue of a thread.
#[derive(Debug, Clone, Copy, PartialEq, Eq)]
pub struct MSG {
    pub hwnd: HWND,
    pub message: UINT,
    pub wParam: WPARAM,
    pub lParam: LPARAM,
    pub time: DWORD,
    pub pt: POINT,
    pub lPrivate: DWORD,
}

impl Default for MSG {
    /// The message with every field zero.
    fn default() -> (r: Self)
        ensures
            r == (MSG {
                hwnd: 0,
                message: 0,
                wParam: 0,
                lParam: 0,
                time: 0,
                pt: POINT { x: 0, y: 0 },
                lPrivate: 0,
            }),
    {
        MSG {
            hwnd: 0,
            message: 0,
            wParam: 0,
            lParam: 0,
            time: 0,
            pt: POINT { x: 0, y: 0 },
            lPrivate: 0,
        }
    }
}

/// The logical coordinates of a rectangle.
#[derive(Debug, Clone, Copy, PartialEq, Eq)]
pub struct RECT {
    pub left: LONG,
    pub top: LONG,
    pub right: LONG,
    pub bottom: LONG,
}

impl Default for RECT {
    /// The rectangle with every field zero.
    fn default() -> (r: Self)
        ensures
            r == (RECT { left: 0, top: 0, right: 0, bottom: 0 }),
    {
        RECT { left: 0, top: 0, right: 0, bottom: 0 }
    }
}

/// What the system hands out when painting begins.
#[derive(Debug, Clone, Copy, PartialEq, Eq)]
pub struct PAINTSTRUCT {
    pub hdc: HDC,
    /// Indicates whether the background must be erased.
    ///
    /// This value is nonzero if the application should erase the background.
    /// The application is responsible for erasing the background if a window
    /// class is created without a background brush.
    pub fErase: BOOL,
    pub rcPaint: RECT,
    pub fRestore: BOOL,
    pub fIncUpdate: BOOL,
    pub rgbReserved: [BYTE; 32],
}

impl PAINTSTRUCT {
    /// Whether every field is zero.
    pub open spec fn is_zeroed(self) -> bool {
        &&& self.hdc == 0
        &&& self.fErase == 0
        &&& self.rcPaint == (RECT { left: 0, top: 0, right: 0, bottom: 0 })
        &&& self.fRestore == 0
        &&& self.fIncUpdate == 0
        &&& forall|i: int| 0 <= i < 32 ==> self.rgbReserved[i] == 0
    }
}

impl Default for PAINTSTRUCT {
    /// The paint state with every field zero.
    fn default() -> (r: Self)
        ensures
            r.is_zeroed(),
    {
        PAINTSTRUCT {
            hdc: 0,
            fErase: 0,
            rcPaint: RECT { left: 0, top: 0, right: 0, bottom: 0 },
            fRestore: 0,
            fIncUpdate: 0,
            rgbReserved: [0u8;32],
        }
    }
}

/// The description of a window class.
#[derive(Debug, Clone, Copy, PartialEq, Eq)]
pub struct WNDCLASSW {
    /// The class style(s). This member can be any combination of the class styles.
    pub style: UINT,
    pub lpfnWndProc: WNDPROC,
    pub cbClsExtra: i32,
    pub cbWndExtra: i32,
    pub hInstance: HINSTANCE,
    pub hIcon: HICON,
    pub hCursor: HCURSOR,
    pub hbrBackground: HBRUSH,
    pub lpszMenuName: LPCWSTR,
    pub lpszClassName: LPCWSTR,
}

impl Default for WNDCLASSW {
    /// The class description with every field zero.
    fn default() -> (r: Self)
        ensures
            r == (WNDCLASSW {
                style: 0,
                lpfnWndProc: 0,
                cbClsExtra: 0,
                cbWndExtra: 0,
                hInstance: 0,
                hIcon: 0,
                hCursor: 0,
                hbrBackground: 0,
                lpszMenuName: 0,
                lpszClassName: 0,
            }),
    {
        WNDCLASSW {
            style: 0,
            lpfnWndProc: 0,
            cbClsExtra: 0,
            cbWndExtra: 0,
            hInstance: 0,
            hIcon: 0,
            hCursor: 0,
            hbrBackground: 0,
            lpszMenuName: 0,
            lpszClassName: 0,
        }
    }
}

/// The parameters with which a window is being created, as its procedure
/// receives them.
#[derive(Debug, Clone, Copy, PartialEq, Eq)]
pub struct CREATESTRUCTW {
    pub lpCreateParams: LPVOID,
    pub hInstance: HINSTANCE,
    pub hMenu: HMENU,
    pub hwndParent: HWND,
    pub cy: i32,
    pub cx: i32,
    pub y: i32,
    pub x: i32,
    pub style: LONG,
    pub lpszName: LPCWSTR,
    pub lpszClass: LPCWSTR,
    pub dwExStyle: DWORD,
}

impl Default for CREATESTRUCTW {
    /// The creation parameters with every field zero.
    fn default() -> (r: Self)
        ensures
            r == (CREATESTRUCTW {
                lpCreateParams: 0,
                hInstance: 0,
                hMenu: 0,
                hwndParent: 0,
                cy: 0,
                cx: 0,
                y: 0,
                x: 0,
                style: 0,
                lpszName: 0,
                lpszClass: 0,
                dwExStyle: 0,
            }),
    {
        CREATESTRUCTW {
            lpCreateParams: 0,
            hInstance: 0,
            hMenu: 0,
            hwndParent: 0,
            cy: 0,
            cx: 0,
            y: 0,
            x: 0,
            style: 0,
            lpszName: 0,
            lpszClass: 0,
            dwExStyle: 0,
        }
    }
}

/// The resource identifier that stands for the integer `i`: the integer itself,
/// widened to the width of a pointer.
pub open spec fn make_int_resource(i: WORD) -> LPCWSTR {
    i as usize
}

/// Turns an integer resource identifier into the pointer-sized value that the
/// resource-loading calls take in place of a name.
#[verifier::when_used_as_spec(make_int_resource)]
pub fn MAKEINTRESOURCE(i: WORD) -> (r: LPCWSTR)
    ensures
        r == make_int_resource(i),
        r == i,
{
    i as usize
}

/// A text as a wide string: its UTF-16 code units, closed by one NUL.
pub open spec fn wide(text: Seq<char>) -> Seq<u16> {
    encode(text).push(0)
}

/// A wide string ends at its own NUL: where the text holds no NUL character,
/// the only zero among the code units is the last one, and whoever reads up to
/// the first zero reads the whole text.
pub proof fn lemma_wide_ends_at_its_nul(text: Seq<char>)
    requires
        forall|i: int| 0 <= i < text.len() ==> text[i] != '\0',
    ensures
        wide(text).len() == encode(text).len() + 1,
        wide(text).last() == 0,
        forall|j: int| 0 <= j < wide(text).len() - 1 ==> wide(text)[j] != 0,
{
    lemma_encode_keeps_nul_out(text);
}

/// Turns a Rust string slice into a null-terminated utf-16 vector.
pub fn wide_null(s: &str) -> (r: Vec<u16>)
    ensures
        r@ == wide(s@),
        r@.len() == encode(s@).len() + 1,
        r@.last() == 0,
{
    let mut units = encode_utf16(s);
    units.push(0);
    units
}

} // verus!
