//! The settings of the in-application API, by name.
//!
//! RenderDoc numbers its capture options, its input buttons and the parts
//! of its overlay. Here each has a name, and the number that the API knows
//! it by.

use vstd::prelude::*;

verus! {

/// A capture option as the API numbers it.
#[allow(non_camel_case_types)]
#[derive(Clone, Copy, Debug, PartialEq, Eq, Hash, Structural)]
pub struct RENDERDOC_CaptureOption(pub u32);

/// An input button as the API numbers it.
#[allow(non_camel_case_types)]
#[derive(Clone, Copy, Debug, PartialEq, Eq, Hash, Structural)]
pub struct RENDERDOC_InputButton(pub u32);

#[allow(non_snake_case)]
impl RENDERDOC_CaptureOption {
    pub fn eRENDERDOC_Option_AllowVSync() -> (out: Self)
        ensures
            out == RENDERDOC_CaptureOption(0),
    {
        RENDERDOC_CaptureOption(0)
    }

    pub fn eRENDERDOC_Option_AllowFullscreen() -> (out: Self)
        ensures
            out == RENDERDOC_CaptureOption(1),
    {
        RENDERDOC_CaptureOption(1)
    }

    pub fn eRENDERDOC_Option_APIValidation() -> (out: Self)
        ensures
            out == RENDERDOC_CaptureOption(2),
    {
        RENDERDOC_CaptureOption(2)
    }

    pub fn eRENDERDOC_Option_CaptureCallstacks() -> (out: Self)
        ensures
            out == RENDERDOC_CaptureOption(3),
    {
        RENDERDOC_CaptureOption(3)
    }

    pub fn eRENDERDOC_Option_CaptureCallstacksOnlyDraws() -> (out: Self)
        ensures
            out == RENDERDOC_CaptureOption(4),
    {
        RENDERDOC_CaptureOption(4)
    }

    pub fn eRENDERDOC_Option_DelayForDebugger() -> (out: Self)
        ensures
            out == RENDERDOC_CaptureOption(5),
    {
        RENDERDOC_CaptureOption(5)
    }

    pub fn eRENDERDOC_Option_VerifyBufferAccess() -> (out: Self)
        ensures
            out == RENDERDOC_CaptureOption(6),
    {
        RENDERDOC_CaptureOption(6)
    }

    pub fn eRENDERDOC_Option_HookIntoChildren() -> (out: Self)
        ensures
            out == RENDERDOC_CaptureOption(7),
    {
        RENDERDOC_CaptureOption(7)
    }

    pub fn eRENDERDOC_Option_RefAllResources() -> (out: Self)
        ensures
            out == RENDERDOC_CaptureOption(8),
    {
        RENDERDOC_CaptureOption(8)
    }

    pub fn eRENDERDOC_Option_SaveAllInitials() -> (out: Self)
        ensures
            out == RENDERDOC_CaptureOption(9),
    {
        RENDERDOC_CaptureOption(9)
    }

    pub fn eRENDERDOC_Option_CaptureAllCmdLists() -> (out: Self)
        ensures
            out == RENDERDOC_CaptureOption(10),
    {
        RENDERDOC_CaptureOption(10)
    }

    pub fn eRENDERDOC_Option_DebugOutputMute() -> (out: Self)
        ensures
            out == RENDERDOC_CaptureOption(11),
    {
        RENDERDOC_CaptureOption(11)
    }

    pub fn eRENDERDOC_Option_AllowUnsupportedVendorExtensions() -> (out: Self)
        ensures
            out == RENDERDOC_CaptureOption(12),
    {
        RENDERDOC_CaptureOption(12)
    }

    pub fn eRENDERDOC_Option_SoftMemoryLimit() -> (out: Self)
        ensures
            out == RENDERDOC_CaptureOption(13),
    {
        RENDERDOC_CaptureOption(13)
    }
}

#[allow(non_snake_case)]
impl RENDERDOC_InputButton {
    pub fn eRENDERDOC_Key_0() -> (out: Self)
        ensures
            out == RENDERDOC_InputButton(0x30),
    {
        RENDERDOC_InputButton(0x30)
    }

    pub fn eRENDERDOC_Key_1() -> (out: Self)
        ensures
            out == RENDERDOC_InputButton(0x31),
    {
        RENDERDOC_InputButton(0x31)
    }

    pub fn eRENDERDOC_Key_2() -> (out: Self)
        ensures
            out == RENDERDOC_InputButton(0x32),
    {
        RENDERDOC_InputButton(0x32)
    }

    pub fn eRENDERDOC_Key_3() -> (out: Self)
        ensures
            out == RENDERDOC_InputButton(0x33),
    {
        RENDERDOC_InputButton(0x33)
    }

    pub fn eRENDERDOC_Key_4() -> (out: Self)
        ensures
            out == RENDERDOC_InputButton(0x34),
    {
        RENDERDOC_InputButton(0x34)
    }

    pub fn eRENDERDOC_Key_5() -> (out: Self)
        ensures
            out == RENDERDOC_InputButton(0x35),
    {
        RENDERDOC_InputButton(0x35)
    }

    pub fn eRENDERDOC_Key_6() -> (out: Self)
        ensures
            out == RENDERDOC_InputButton(0x36),
    {
        RENDERDOC_InputButton(0x36)
    }

    pub fn eRENDERDOC_Key_7() -> (out: Self)
        ensures
            out == RENDERDOC_InputButton(0x37),
    {
        RENDERDOC_InputButton(0x37)
    }

    pub fn eRENDERDOC_Key_8() -> (out: Self)
        ensures
            out == RENDERDOC_InputButton(0x38),
    {
        RENDERDOC_InputButton(0x38)
    }

    pub fn eRENDERDOC_Key_9() -> (out: Self)
        ensures
            out == RENDERDOC_InputButton(0x39),
    {
        RENDERDOC_InputButton(0x39)
    }

    pub fn eRENDERDOC_Key_A() -> (out: Self)
        ensures
            out == RENDERDOC_InputButton(0x41),
    {
        RENDERDOC_InputButton(0x41)
    }

    pub fn eRENDERDOC_Key_B() -> (out: Self)
        ensures
            out == RENDERDOC_InputButton(0x42),
    {
        RENDERDOC_InputButton(0x42)
    }

    pub fn eRENDERDOC_Key_C() -> (out: Self)
        ensures
            out == RENDERDOC_InputButton(0x43),
    {
        RENDERDOC_InputButton(0x43)
    }

    pub fn eRENDERDOC_Key_D() -> (out: Self)
        ensures
            out == RENDERDOC_InputButton(0x44),
    {
        RENDERDOC_InputButton(0x44)
    }

    pub fn eRENDERDOC_Key_E() -> (out: Self)
        ensures
            out == RENDERDOC_InputButton(0x45),
    {
        RENDERDOC_InputButton(0x45)
    }

    pub fn eRENDERDOC_Key_F() -> (out: Self)
        ensures
            out == RENDERDOC_InputButton(0x46),
    {
        RENDERDOC_InputButton(0x46)
    }

    pub fn eRENDERDOC_Key_G() -> (out: Self)
        ensures
            out == RENDERDOC_InputButton(0x47),
    {
        RENDERDOC_InputButton(0x47)
    }

    pub fn eRENDERDOC_Key_H() -> (out: Self)
        ensures
            out == RENDERDOC_InputButton(0x48),
    {
        RENDERDOC_InputButton(0x48)
    }

    pub fn eRENDERDOC_Key_I() -> (out: Self)
        ensures
            out == RENDERDOC_InputButton(0x49),
    {
        RENDERDOC_InputButton(0x49)
    }

    pub fn eRENDERDOC_Key_J() -> (out: Self)
        ensures
            out == RENDERDOC_InputButton(0x4a),
    {
        RENDERDOC_InputButton(0x4a)
    }

    pub fn eRENDERDOC_Key_K() -> (out: Self)
        ensures
            out == RENDERDOC_InputButton(0x4b),
    {
        RENDERDOC_InputButton(0x4b)
    }

    pub fn eRENDERDOC_Key_L() -> (out: Self)
        ensures
            out == RENDERDOC_InputButton(0x4c),
    {
        RENDERDOC_InputButton(0x4c)
    }

    pub fn eRENDERDOC_Key_M() -> (out: Self)
        ensures
            out == RENDERDOC_InputButton(0x4d),
    {
        RENDERDOC_InputButton(0x4d)
    }

    pub fn eRENDERDOC_Key_N() -> (out: Self)
        ensures
            out == RENDERDOC_InputButton(0x4e),
    {
        RENDERDOC_InputButton(0x4e)
    }

    pub fn eRENDERDOC_Key_O() -> (out: Self)
        ensures
            out == RENDERDOC_InputButton(0x4f),
    {
        RENDERDOC_InputButton(0x4f)
    }

    pub fn eRENDERDOC_Key_P() -> (out: Self)
        ensures
            out == RENDERDOC_InputButton(0x50),
    {
        RENDERDOC_InputButton(0x50)
    }

    pub fn eRENDERDOC_Key_Q() -> (out: Self)
        ensures
            out == RENDERDOC_InputButton(0x51),
    {
        RENDERDOC_InputButton(0x51)
    }

    pub fn eRENDERDOC_Key_R() -> (out: Self)
        ensures
            out == RENDERDOC_InputButton(0x52),
    {
        RENDERDOC_InputButton(0x52)
    }

    pub fn eRENDERDOC_Key_S() -> (out: Self)
        ensures
            out == RENDERDOC_InputButton(0x53),
    {
        RENDERDOC_InputButton(0x53)
    }

    pub fn eRENDERDOC_Key_T() -> (out: Self)
        ensures
            out == RENDERDOC_InputButton(0x54),
    {
        RENDERDOC_InputButton(0x54)
    }

    pub fn eRENDERDOC_Key_U() -> (out: Self)
        ensures
            out == RENDERDOC_InputButton(0x55),
    {
        RENDERDOC_InputButton(0x55)
    }

    pub fn eRENDERDOC_Key_V() -> (out: Self)
        ensures
            out == RENDERDOC_InputButton(0x56),
    {
        RENDERDOC_InputButton(0x56)
    }

    pub fn eRENDERDOC_Key_W() -> (out: Self)
        ensures
            out == RENDERDOC_InputButton(0x57),
    {
        RENDERDOC_InputButton(0x57)
    }

    pub fn eRENDERDOC_Key_X() -> (out: Self)
        ensures
            out == RENDERDOC_InputButton(0x58),
    {
        RENDERDOC_InputButton(0x58)
    }

    pub fn eRENDERDOC_Key_Y() -> (out: Self)
        ensures
            out == RENDERDOC_InputButton(0x59),
    {
        RENDERDOC_InputButton(0x59)
    }

    pub fn eRENDERDOC_Key_Z() -> (out: Self)
        ensures
            out == RENDERDOC_InputButton(0x5a),
    {
        RENDERDOC_InputButton(0x5a)
    }

    pub fn eRENDERDOC_Key_Divide() -> (out: Self)
        ensures
            out == RENDERDOC_InputButton(0x101),
    {
        RENDERDOC_InputButton(0x101)
    }

    pub fn eRENDERDOC_Key_Multiply() -> (out: Self)
        ensures
            out == RENDERDOC_InputButton(0x102),
    {
        RENDERDOC_InputButton(0x102)
    }

    pub fn eRENDERDOC_Key_Subtract() -> (out: Self)
        ensures
            out == RENDERDOC_InputButton(0x103),
    {
        RENDERDOC_InputButton(0x103)
    }

    pub fn eRENDERDOC_Key_Plus() -> (out: Self)
        ensures
            out == RENDERDOC_InputButton(0x104),
    {
        RENDERDOC_InputButton(0x104)
    }

    pub fn eRENDERDOC_Key_F1() -> (out: Self)
        ensures
            out == RENDERDOC_InputButton(0x105),
    {
        RENDERDOC_InputButton(0x105)
    }

    pub fn eRENDERDOC_Key_F2() -> (out: Self)
        ensures
            out == RENDERDOC_InputButton(0x106),
    {
        RENDERDOC_InputButton(0x106)
    }

    pub fn eRENDERDOC_Key_F3() -> (out: Self)
        ensures
            out == RENDERDOC_InputButton(0x107),
    {
        RENDERDOC_InputButton(0x107)
    }

    pub fn eRENDERDOC_Key_F4() -> (out: Self)
        ensures
            out == RENDERDOC_InputButton(0x108),
    {
        RENDERDOC_InputButton(0x108)
    }

    pub fn eRENDERDOC_Key_F5() -> (out: Self)
        ensures
            out == RENDERDOC_InputButton(0x109),
    {
        RENDERDOC_InputButton(0x109)
    }

    pub fn eRENDERDOC_Key_F6() -> (out: Self)
        ensures
            out == RENDERDOC_InputButton(0x10a),
    {
        RENDERDOC_InputButton(0x10a)
    }

    pub fn eRENDERDOC_Key_F7() -> (out: Self)
        ensures
            out == RENDERDOC_InputButton(0x10b),
    {
        RENDERDOC_InputButton(0x10b)
    }

    pub fn eRENDERDOC_Key_F8() -> (out: Self)
        ensures
            out == RENDERDOC_InputButton(0x10c),
    {
        RENDERDOC_InputButton(0x10c)
    }

    pub fn eRENDERDOC_Key_F9() -> (out: Self)
        ensures
            out == RENDERDOC_InputButton(0x10d),
    {
        RENDERDOC_InputButton(0x10d)
    }

    pub fn eRENDERDOC_Key_F10() -> (out: Self)
        ensures
            out == RENDERDOC_InputButton(0x10e),
    {
        RENDERDOC_InputButton(0x10e)
    }

    pub fn eRENDERDOC_Key_F11() -> (out: Self)
        ensures
            out == RENDERDOC_InputButton(0x10f),
    {
        RENDERDOC_InputButton(0x10f)
    }

    pub fn eRENDERDOC_Key_F12() -> (out: Self)
        ensures
            out == RENDERDOC_InputButton(0x110),
    {
        RENDERDOC_InputButton(0x110)
    }

    pub fn eRENDERDOC_Key_Home() -> (out: Self)
        ensures
            out == RENDERDOC_InputButton(0x111),
    {
        RENDERDOC_InputButton(0x111)
    }

    pub fn eRENDERDOC_Key_End() -> (out: Self)
        ensures
            out == RENDERDOC_InputButton(0x112),
    {
        RENDERDOC_InputButton(0x112)
    }

    pub fn eRENDERDOC_Key_Insert() -> (out: Self)
        ensures
            out == RENDERDOC_InputButton(0x113),
    {
        RENDERDOC_InputButton(0x113)
    }

    pub fn eRENDERDOC_Key_Delete() -> (out: Self)
        ensures
            out == RENDERDOC_InputButton(0x114),
    {
        RENDERDOC_InputButton(0x114)
    }

    pub fn eRENDERDOC_Key_PageUp() -> (out: Self)
        ensures
            out == RENDERDOC_InputButton(0x115),
    {
        RENDERDOC_InputButton(0x115)
    }

    pub fn eRENDERDOC_Key_PageDn() -> (out: Self)
        ensures
            out == RENDERDOC_InputButton(0x116),
    {
        RENDERDOC_InputButton(0x116)
    }

    pub fn eRENDERDOC_Key_Backspace() -> (out: Self)
        ensures
            out == RENDERDOC_InputButton(0x117),
    {
        RENDERDOC_InputButton(0x117)
    }

    pub fn eRENDERDOC_Key_Tab() -> (out: Self)
        ensures
            out == RENDERDOC_InputButton(0x118),
    {
        RENDERDOC_InputButton(0x118)
    }

    pub fn eRENDERDOC_Key_PrtScrn() -> (out: Self)
        ensures
            out == RENDERDOC_InputButton(0x119),
    {
        RENDERDOC_InputButton(0x119)
    }

    pub fn eRENDERDOC_Key_Pause() -> (out: Self)
        ensures
            out == RENDERDOC_InputButton(0x11a),
    {
        RENDERDOC_InputButton(0x11a)
    }

    pub fn eRENDERDOC_Key_Max() -> (out: Self)
        ensures
            out == RENDERDOC_InputButton(0x11b),
    {
        RENDERDOC_InputButton(0x11b)
    }
}

/// RenderDoc capture options (strongly typed wrapper).
#[derive(Clone, Copy, Debug, PartialEq, Eq, Hash, Structural)]
pub enum CaptureOption {
    /// Lets the application present with vertical sync.
    AllowVSync,
    /// Lets the application go fullscreen.
    AllowFullscreen,
    /// Records the API validation messages.
    ApiValidation,
    /// Records a call stack for every API call.
    CaptureCallstacks,
    /// Records call stacks for draw calls only.
    CaptureCallstacksOnlyDraws,
    /// Seconds to wait after launch so that a debugger can attach.
    DelayForDebugger,
    /// Checks buffer accesses for overruns.
    VerifyBufferAccess,
    /// Hooks the processes that the application starts.
    HookIntoChildren,
    /// Keeps every live resource in a capture, used or not.
    RefAllResources,
    /// Saves the initial contents of every resource.
    SaveAllInitials,
    /// Records every command list from the start.
    CaptureAllCmdLists,
    /// Keeps debug output away from the application.
    DebugOutputMute,
    /// Lets vendor extensions through that RenderDoc does not know.
    AllowUnsupportedVendorExtensions,
    /// A soft limit on memory use, in megabytes.
    SoftMemoryLimit,
}

/// The number of a capture option.
pub open spec fn capture_option_code(option: CaptureOption) -> u32 {
    match option {
        CaptureOption::AllowVSync => 0,
        CaptureOption::AllowFullscreen => 1,
        CaptureOption::ApiValidation => 2,
        CaptureOption::CaptureCallstacks => 3,
        CaptureOption::CaptureCallstacksOnlyDraws => 4,
        CaptureOption::DelayForDebugger => 5,
        CaptureOption::VerifyBufferAccess => 6,
        CaptureOption::HookIntoChildren => 7,
        CaptureOption::RefAllResources => 8,
        CaptureOption::SaveAllInitials => 9,
        CaptureOption::CaptureAllCmdLists => 10,
        CaptureOption::DebugOutputMute => 11,
        CaptureOption::AllowUnsupportedVendorExtensions => 12,
        CaptureOption::SoftMemoryLimit => 13,
    }
}

impl From<CaptureOption> for RENDERDOC_CaptureOption {
    fn from(value: CaptureOption) -> (out: Self) {
        match value {
            CaptureOption::AllowVSync => RENDERDOC_CaptureOption::eRENDERDOC_Option_AllowVSync(),
            CaptureOption::AllowFullscreen => RENDERDOC_CaptureOption::eRENDERDOC_Option_AllowFullscreen(),
            CaptureOption::ApiValidation => RENDERDOC_CaptureOption::eRENDERDOC_Option_APIValidation(),
            CaptureOption::CaptureCallstacks => RENDERDOC_CaptureOption::eRENDERDOC_Option_CaptureCallstacks(),
            CaptureOption::CaptureCallstacksOnlyDraws => RENDERDOC_CaptureOption::eRENDERDOC_Option_CaptureCallstacksOnlyDraws(),
            CaptureOption::DelayForDebugger => RENDERDOC_CaptureOption::eRENDERDOC_Option_DelayForDebugger(),
            CaptureOption::VerifyBufferAccess => RENDERDOC_CaptureOption::eRENDERDOC_Option_VerifyBufferAccess(),
            CaptureOption::HookIntoChildren => RENDERDOC_CaptureOption::eRENDERDOC_Option_HookIntoChildren(),
            CaptureOption::RefAllResources => RENDERDOC_CaptureOption::eRENDERDOC_Option_RefAllResources(),
            CaptureOption::SaveAllInitials => RENDERDOC_CaptureOption::eRENDERDOC_Option_SaveAllInitials(),
            CaptureOption::CaptureAllCmdLists => RENDERDOC_CaptureOption::eRENDERDOC_Option_CaptureAllCmdLists(),
            CaptureOption::DebugOutputMute => RENDERDOC_CaptureOption::eRENDERDOC_Option_DebugOutputMute(),
            CaptureOption::AllowUnsupportedVendorExtensions => RENDERDOC_CaptureOption::eRENDERDOC_Option_AllowUnsupportedVendorExtensions(),
            CaptureOption::SoftMemoryLimit => RENDERDOC_CaptureOption::eRENDERDOC_Option_SoftMemoryLimit(),
        }
    }
}

impl vstd::std_specs::convert::FromSpecImpl<CaptureOption> for RENDERDOC_CaptureOption {
    open spec fn obeys_from_spec() -> bool {
        true
    }

    open spec fn from_spec(value: CaptureOption) -> Self {
        RENDERDOC_CaptureOption(capture_option_code(value))
    }
}

/// RenderDoc input buttons (strongly typed wrapper).
#[derive(Clone, Copy, Debug, PartialEq, Eq, Hash, Structural)]
pub enum InputButton {
    Key0,
    Key1,
    Key2,
    Key3,
    Key4,
    Key5,
    Key6,
    Key7,
    Key8,
    Key9,
    A,
    B,
    C,
    D,
    E,
    F,
    G,
    H,
    I,
    J,
    K,
    L,
    M,
    N,
    O,
    P,
    Q,
    R,
    S,
    T,
    U,
    V,
    W,
    X,
    Y,
    Z,
    Divide,
    Multiply,
    Subtract,
    Plus,
    F1,
    F2,
    F3,
    F4,
    F5,
    F6,
    F7,
    F8,
    F9,
    F10,
    F11,
    F12,
    Home,
    End,
    Insert,
    Delete,
    PageUp,
    PageDn,
    Backspace,
    Tab,
    PrtScrn,
    Pause,
    Max,
}

/// The number of an input button. The digits and the letters have the
/// numbers of their characters; the other keys follow from `0x101` on.
pub open spec fn input_button_code(button: InputButton) -> u32 {
    match button {
        InputButton::Key0 => 0x30,
        InputButton::Key1 => 0x31,
        InputButton::Key2 => 0x32,
        InputButton::Key3 => 0x33,
        InputButton::Key4 => 0x34,
        InputButton::Key5 => 0x35,
        InputButton::Key6 => 0x36,
        InputButton::Key7 => 0x37,
        InputButton::Key8 => 0x38,
        InputButton::Key9 => 0x39,
        InputButton::A => 0x41,
        InputButton::B => 0x42,
        InputButton::C => 0x43,
        InputButton::D => 0x44,
        InputButton::E => 0x45,
        InputButton::F => 0x46,
        InputButton::G => 0x47,
        InputButton::H => 0x48,
        InputButton::I => 0x49,
        InputButton::J => 0x4a,
        InputButton::K => 0x4b,
        InputButton::L => 0x4c,
        InputButton::M => 0x4d,
        InputButton::N => 0x4e,
        InputButton::O => 0x4f,
        InputButton::P => 0x50,
        InputButton::Q => 0x51,
        InputButton::R => 0x52,
        InputButton::S => 0x53,
        InputButton::T => 0x54,
        InputButton::U => 0x55,
        InputButton::V => 0x56,
        InputButton::W => 0x57,
        InputButton::X => 0x58,
        InputButton::Y => 0x59,
        InputButton::Z => 0x5a,
        InputButton::Divide => 0x101,
        InputButton::Multiply => 0x102,
        InputButton::Subtract => 0x103,
        InputButton::Plus => 0x104,
        InputButton::F1 => 0x105,
        InputButton::F2 => 0x106,
        InputButton::F3 => 0x107,
        InputButton::F4 => 0x108,
        InputButton::F5 => 0x109,
        InputButton::F6 => 0x10a,
        InputButton::F7 => 0x10b,
        InputButton::F8 => 0x10c,
        InputButton::F9 => 0x10d,
        InputButton::F10 => 0x10e,
        InputButton::F11 => 0x10f,
        InputButton::F12 => 0x110,
        InputButton::Home => 0x111,
        InputButton::End => 0x112,
        InputButton::Insert => 0x113,
        InputButton::Delete => 0x114,
        InputButton::PageUp => 0x115,
        InputButton::PageDn => 0x116,
        InputButton::Backspace => 0x117,
        InputButton::Tab => 0x118,
        InputButton::PrtScrn => 0x119,
        InputButton::Pause => 0x11a,
        InputButton::Max => 0x11b,
    }
}

impl From<InputButton> for RENDERDOC_InputButton {
    fn from(value: InputButton) -> (out: Self) {
        match value {
            InputButton::Key0 => RENDERDOC_InputButton::eRENDERDOC_Key_0(),
            InputButton::Key1 => RENDERDOC_InputButton::eRENDERDOC_Key_1(),
            InputButton::Key2 => RENDERDOC_InputButton::eRENDERDOC_Key_2(),
            InputButton::Key3 => RENDERDOC_InputButton::eRENDERDOC_Key_3(),
            InputButton::Key4 => RENDERDOC_InputButton::eRENDERDOC_Key_4(),
            InputButton::Key5 => RENDERDOC_InputButton::eRENDERDOC_Key_5(),
            InputButton::Key6 => RENDERDOC_InputButton::eRENDERDOC_Key_6(),
            InputButton::Key7 => RENDERDOC_InputButton::eRENDERDOC_Key_7(),
            InputButton::Key8 => RENDERDOC_InputButton::eRENDERDOC_Key_8(),
            InputButton::Key9 => RENDERDOC_InputButton::eRENDERDOC_Key_9(),
            InputButton::A => RENDERDOC_InputButton::eRENDERDOC_Key_A(),
            InputButton::B => RENDERDOC_InputButton::eRENDERDOC_Key_B(),
            InputButton::C => RENDERDOC_InputButton::eRENDERDOC_Key_C(),
            InputButton::D => RENDERDOC_InputButton::eRENDERDOC_Key_D(),
            InputButton::E => RENDERDOC_InputButton::eRENDERDOC_Key_E(),
            InputButton::F => RENDERDOC_InputButton::eRENDERDOC_Key_F(),
            InputButton::G => RENDERDOC_InputButton::eRENDERDOC_Key_G(),
            InputButton::H => RENDERDOC_InputButton::eRENDERDOC_Key_H(),
            InputButton::I => RENDERDOC_InputButton::eRENDERDOC_Key_I(),
            InputButton::J => RENDERDOC_InputButton::eRENDERDOC_Key_J(),
            InputButton::K => RENDERDOC_InputButton::eRENDERDOC_Key_K(),
            InputButton::L => RENDERDOC_InputButton::eRENDERDOC_Key_L(),
            InputButton::M => RENDERDOC_InputButton::eRENDERDOC_Key_M(),
            InputButton::N => RENDERDOC_InputButton::eRENDERDOC_Key_N(),
            InputButton::O => RENDERDOC_InputButton::eRENDERDOC_Key_O(),
            InputButton::P => RENDERDOC_InputButton::eRENDERDOC_Key_P(),
            InputButton::Q => RENDERDOC_InputButton::eRENDERDOC_Key_Q(),
            InputButton::R => RENDERDOC_InputButton::eRENDERDOC_Key_R(),
            InputButton::S => RENDERDOC_InputButton::eRENDERDOC_Key_S(),
            InputButton::T => RENDERDOC_InputButton::eRENDERDOC_Key_T(),
            InputButton::U => RENDERDOC_InputButton::eRENDERDOC_Key_U(),
            InputButton::V => RENDERDOC_InputButton::eRENDERDOC_Key_V(),
            InputButton::W => RENDERDOC_InputButton::eRENDERDOC_Key_W(),
            InputButton::X => RENDERDOC_InputButton::eRENDERDOC_Key_X(),
            InputButton::Y => RENDERDOC_InputButton::eRENDERDOC_Key_Y(),
            InputButton::Z => RENDERDOC_InputButton::eRENDERDOC_Key_Z(),
            InputButton::Divide => RENDERDOC_InputButton::eRENDERDOC_Key_Divide(),
            InputButton::Multiply => RENDERDOC_InputButton::eRENDERDOC_Key_Multiply(),
            InputButton::Subtract => RENDERDOC_InputButton::eRENDERDOC_Key_Subtract(),
            InputButton::Plus => RENDERDOC_InputButton::eRENDERDOC_Key_Plus(),
            InputButton::F1 => RENDERDOC_InputButton::eRENDERDOC_Key_F1(),
            InputButton::F2 => RENDERDOC_InputButton::eRENDERDOC_Key_F2(),
            InputButton::F3 => RENDERDOC_InputButton::eRENDERDOC_Key_F3(),
            InputButton::F4 => RENDERDOC_InputButton::eRENDERDOC_Key_F4(),
            InputButton::F5 => RENDERDOC_InputButton::eRENDERDOC_Key_F5(),
            InputButton::F6 => RENDERDOC_InputButton::eRENDERDOC_Key_F6(),
            InputButton::F7 => RENDERDOC_InputButton::eRENDERDOC_Key_F7(),
            InputButton::F8 => RENDERDOC_InputButton::eRENDERDOC_Key_F8(),
            InputButton::F9 => RENDERDOC_InputButton::eRENDERDOC_Key_F9(),
            InputButton::F10 => RENDERDOC_InputButton::eRENDERDOC_Key_F10(),
            InputButton::F11 => RENDERDOC_InputButton::eRENDERDOC_Key_F11(),
            InputButton::F12 => RENDERDOC_InputButton::eRENDERDOC_Key_F12(),
            InputButton::Home => RENDERDOC_InputButton::eRENDERDOC_Key_Home(),
            InputButton::End => RENDERDOC_InputButton::eRENDERDOC_Key_End(),
            InputButton::Insert => RENDERDOC_InputButton::eRENDERDOC_Key_Insert(),
            InputButton::Delete => RENDERDOC_InputButton::eRENDERDOC_Key_Delete(),
            InputButton::PageUp => RENDERDOC_InputButton::eRENDERDOC_Key_PageUp(),
            InputButton::PageDn => RENDERDOC_InputButton::eRENDERDOC_Key_PageDn(),
            InputButton::Backspace => RENDERDOC_InputButton::eRENDERDOC_Key_Backspace(),
            InputButton::Tab => RENDERDOC_InputButton::eRENDERDOC_Key_Tab(),
            InputButton::PrtScrn => RENDERDOC_InputButton::eRENDERDOC_Key_PrtScrn(),
            InputButton::Pause => RENDERDOC_InputButton::eRENDERDOC_Key_Pause(),
            InputButton::Max => RENDERDOC_InputButton::eRENDERDOC_Key_Max(),
        }
    }
}

impl vstd::std_specs::convert::FromSpecImpl<InputButton> for RENDERDOC_InputButton {
    open spec fn obeys_from_spec() -> bool {
        true
    }

    open spec fn from_spec(value: InputButton) -> Self {
        RENDERDOC_InputButton(input_button_code(value))
    }
}

/// No two capture options share a number.
pub proof fn lemma_capture_option_codes_differ(a: CaptureOption, b: CaptureOption)
    requires
        capture_option_code(a) == capture_option_code(b),
    ensures
        a == b,
{
}

/// The capture options are numbered from 0 to 13 without a gap.
pub proof fn lemma_capture_option_codes_are_dense(code: u32)
    requires
        code <= 13,
    ensures
        exists|option: CaptureOption| capture_option_code(option) == code,
{

    assert(capture_option_code(CaptureOption::AllowVSync) == 0);
    assert(capture_option_code(CaptureOption::AllowFullscreen) == 1);
    assert(capture_option_code(CaptureOption::ApiValidation) == 2);
    assert(capture_option_code(CaptureOption::CaptureCallstacks) == 3);
    assert(capture_option_code(CaptureOption::CaptureCallstacksOnlyDraws) == 4);
    assert(capture_option_code(CaptureOption::DelayForDebugger) == 5);
    assert(capture_option_code(CaptureOption::VerifyBufferAccess) == 6);
    assert(capture_option_code(CaptureOption::HookIntoChildren) == 7);
    assert(capture_option_code(CaptureOption::RefAllResources) == 8);
    assert(capture_option_code(CaptureOption::SaveAllInitials) == 9);
    assert(capture_option_code(CaptureOption::CaptureAllCmdLists) == 10);
    assert(capture_option_code(CaptureOption::DebugOutputMute) == 11);
    assert(capture_option_code(CaptureOption::AllowUnsupportedVendorExtensions) == 12);
    assert(capture_option_code(CaptureOption::SoftMemoryLimit) == 13);
}

/// No two input buttons share a number.
pub proof fn lemma_input_button_codes_differ(a: InputButton, b: InputButton)
    requires
        input_button_code(a) == input_button_code(b),
    ensures
        a == b,
{
}

/// The parts of the overlay, as a set of bits.
#[derive(Clone, Copy, Debug, PartialEq, Eq, Hash, Structural)]
pub struct OverlayBits {
    bits: u32,
}

impl OverlayBits {
    /// The bit of the overlay as a whole.
    pub const ENABLED_BITS: u32 = 0x1;

    /// The bit of the frame rate.
    pub const FRAME_RATE_BITS: u32 = 0x2;

    /// The bit of the frame number.
    pub const FRAME_NUMBER_BITS: u32 = 0x4;

    /// The bit of the list of captures.
    pub const CAPTURE_LIST_BITS: u32 = 0x8;

    /// The bits that are set when nothing was chosen.
    pub const DEFAULT_BITS: u32 = 0xf;

    /// Every bit.
    pub const ALL_BITS: u32 = 0xffff_ffff;

    /// The bits of this set.
    pub closed spec fn value(self) -> u32 {
        self.bits
    }

    /// The overlay as a whole.
    #[allow(non_snake_case)]
    pub fn ENABLED() -> (out: Self)
        ensures
            out.value() == Self::ENABLED_BITS,
    {
        OverlayBits { bits: Self::ENABLED_BITS }
    }

    /// The frame rate.
    #[allow(non_snake_case)]
    pub fn FRAME_RATE() -> (out: Self)
        ensures
            out.value() == Self::FRAME_RATE_BITS,
    {
        OverlayBits { bits: Self::FRAME_RATE_BITS }
    }

    /// The frame number.
    #[allow(non_snake_case)]
    pub fn FRAME_NUMBER() -> (out: Self)
        ensures
            out.value() == Self::FRAME_NUMBER_BITS,
    {
        OverlayBits { bits: Self::FRAME_NUMBER_BITS }
    }

    /// The list of captures.
    #[allow(non_snake_case)]
    pub fn CAPTURE_LIST() -> (out: Self)
        ensures
            out.value() == Self::CAPTURE_LIST_BITS,
    {
        OverlayBits { bits: Self::CAPTURE_LIST_BITS }
    }

    /// What is shown when nothing was chosen: all four parts.
    #[allow(non_snake_case)]
    pub fn DEFAULT() -> (out: Self)
        ensures
            out.value() == Self::DEFAULT_BITS,
    {
        OverlayBits { bits: Self::DEFAULT_BITS }
    }

    /// Every bit.
    #[allow(non_snake_case)]
    pub fn ALL() -> (out: Self)
        ensures
            out.value() == Self::ALL_BITS,
    {
        OverlayBits { bits: Self::ALL_BITS }
    }

    /// The empty set.
    pub fn empty() -> (out: Self)
        ensures
            out.value() == 0,
    {
        OverlayBits { bits: 0 }
    }

    /// The set of all bits.
    pub fn all() -> (out: Self)
        ensures
            out.value() == Self::ALL_BITS,
    {
        OverlayBits { bits: Self::ALL_BITS }
    }

    /// The bits of this set.
    pub fn bits(&self) -> (out: u32)
        ensures
            out == self.value(),
    {
        self.bits
    }

    /// The set with exactly these bits, if every one of them is a known
    /// bit. Every bit is known, so the answer is never `None`.
    pub fn from_bits(bits: u32) -> (out: Option<Self>)
        ensures
            out is Some,
            out->0.value() == bits,
    {
        Some(OverlayBits { bits })
    }

    /// The set with these bits, the unknown ones dropped. Every bit is
    /// known, so none is dropped.
    pub fn from_bits_truncate(bits: u32) -> (out: Self)
        ensures
            out.value() == bits,
    {
        assert(bits & 0xffff_ffff == bits) by (bit_vector);
        OverlayBits { bits: bits & 0xffff_ffff }
    }

    /// Whether no bit is set.
    pub fn is_empty(&self) -> (out: bool)
        ensures
            out == (self.value() == 0),
    {
        self.bits == 0
    }

    /// Whether every bit of `other` is set in this set.
    pub fn contains(&self, other: OverlayBits) -> (out: bool)
        ensures
            out == (self.value() & other.value() == other.value()),
    {
        self.bits & other.bits == other.bits
    }

    /// The bits that are in this set or in `other`.
    pub fn union(self, other: OverlayBits) -> (out: Self)
        ensures
            out.value() == self.value() | other.value(),
    {
        OverlayBits { bits: self.bits | other.bits }
    }

    /// The bits that are in this set and in `other`.
    pub fn intersection(self, other: OverlayBits) -> (out: Self)
        ensures
            out.value() == self.value() & other.value(),
    {
        OverlayBits { bits: self.bits & other.bits }
    }
}

/// The default overlay is its four parts together, and nothing else.
pub proof fn lemma_default_overlay_is_the_four_parts()
    ensures
        OverlayBits::DEFAULT_BITS == OverlayBits::ENABLED_BITS | OverlayBits::FRAME_RATE_BITS
            | OverlayBits::FRAME_NUMBER_BITS | OverlayBits::CAPTURE_LIST_BITS,
{
    assert(0xfu32 == 0x1u32 | 0x2u32 | 0x4u32 | 0x8u32) by (bit_vector);
}

} // verus!
