use renderdog::settings::{
    CaptureOption, InputButton, OverlayBits, RENDERDOC_CaptureOption, RENDERDOC_InputButton,
};

#[test]
fn capture_option_maps_to_sys() {
    let sys_opt: RENDERDOC_CaptureOption = CaptureOption::DelayForDebugger.into();
    assert_eq!(
        sys_opt,
        RENDERDOC_CaptureOption::eRENDERDOC_Option_DelayForDebugger()
    );
}

#[test]
fn input_button_maps_to_sys() {
    let sys_btn: RENDERDOC_InputButton = InputButton::F12.into();
    assert_eq!(sys_btn, RENDERDOC_InputButton::eRENDERDOC_Key_F12());
}

#[test]
fn capture_option_numbers() {
    assert_eq!(RENDERDOC_CaptureOption::from(CaptureOption::AllowVSync).0, 0);
    assert_eq!(RENDERDOC_CaptureOption::from(CaptureOption::ApiValidation).0, 2);
    assert_eq!(RENDERDOC_CaptureOption::from(CaptureOption::DelayForDebugger).0, 5);
    assert_eq!(RENDERDOC_CaptureOption::from(CaptureOption::SoftMemoryLimit).0, 13);
}

#[test]
fn input_button_numbers() {
    assert_eq!(RENDERDOC_InputButton::from(InputButton::Key0).0, '0' as u32);
    assert_eq!(RENDERDOC_InputButton::from(InputButton::Key9).0, '9' as u32);
    assert_eq!(RENDERDOC_InputButton::from(InputButton::A).0, 'A' as u32);
    assert_eq!(RENDERDOC_InputButton::from(InputButton::Z).0, 'Z' as u32);
    assert_eq!(RENDERDOC_InputButton::from(InputButton::Divide).0, 0x101);
    assert_eq!(RENDERDOC_InputButton::from(InputButton::F1).0, 0x105);
    assert_eq!(RENDERDOC_InputButton::from(InputButton::F12).0, 0x110);
    assert_eq!(RENDERDOC_InputButton::from(InputButton::Pause).0, 0x11a);
    assert_eq!(RENDERDOC_InputButton::from(InputButton::Max).0, 0x11b);
}

#[test]
fn overlay_bits_are_sets() {
    assert_eq!(OverlayBits::DEFAULT().bits(), 0xf);
    assert_eq!(
        OverlayBits::ENABLED()
            .union(OverlayBits::FRAME_RATE())
            .union(OverlayBits::FRAME_NUMBER())
            .union(OverlayBits::CAPTURE_LIST()),
        OverlayBits::DEFAULT()
    );
    assert!(OverlayBits::DEFAULT().contains(OverlayBits::FRAME_RATE()));
    assert!(!OverlayBits::ENABLED().contains(OverlayBits::FRAME_RATE()));
    assert!(OverlayBits::empty().is_empty());
    assert_eq!(OverlayBits::from_bits_truncate(0x8000_0001).bits(), 0x8000_0001);
    assert_eq!(OverlayBits::from_bits(0x30).map(|b| b.bits()), Some(0x30));
    assert_eq!(
        OverlayBits::ALL().intersection(OverlayBits::CAPTURE_LIST()),
        OverlayBits::CAPTURE_LIST()
    );
    assert_eq!(OverlayBits::all().bits(), u32::MAX);
}
