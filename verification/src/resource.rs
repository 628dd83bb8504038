use vstd::prelude::*;

verus! {

// Resource identifiers of the IME module (kept in step with res/resource.h).
pub const IDM_MANIFEST: u16 = 1;
pub const IDS_TEXT_SERVICE_DISPLAY_NAME: u16 = 101;
pub const IDI_MAINICON: u16 = 102;
pub const IDI_MODE_ALPHA: u16 = 103;
pub const IDI_MODE_ALPHA_W: u16 = 104;
pub const IDI_MODE_CONTINUOUS: u16 = 105;
pub const IDI_MODE_CONTINUOUS_W: u16 = 106;
pub const IDI_MODE_PRO: u16 = 107;
pub const IDI_MODE_PRO_W: u16 = 108;
pub const IDI_MODE_BASIC: u16 = 109;
pub const IDI_MODE_BASIC_W: u16 = 110;
pub const IDI_SETTINGS: u16 = 111;
pub const IDI_SETTINGS_W: u16 = 112;
pub const IDR_POPUP_MENU: u16 = 113;
pub const IDS_CONTINUOUS_MODE: u16 = 1000;
pub const IDS_BASIC_MODE: u16 = 1001;
pub const IDS_MANUAL_MODE: u16 = 1002;
pub const IDS_DIRECT_MODE: u16 = 1003;
pub const IDS_OPEN_SETTINGS: u16 = 1004;

} // verus!
