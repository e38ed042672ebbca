use libremarkable::mxcfb::{
    DRAWING_QUANT_BIT, EPDC_FLAG_USE_ALT_BUFFER, MXCFB_DISABLE_EPDC_ACCESS, MXCFB_ENABLE_EPDC_ACCESS,
    MXCFB_SET_UPDATE_SCHEME, FBIOGET_VSCREENINFO, MXCFB_SEND_UPDATE,
    MXCFB_SET_AUTO_UPDATE_MODE, MXCFB_WAIT_FOR_UPDATE_COMPLETE,
};
use libremarkable::{
    auto_update_mode, display_temp, dither_mode, mxcfb_ioctl, update_mode, update_scheme,
    waveform_mode,
};

#[test]
fn ioctl_numbers() {
    assert_eq!(MXCFB_SEND_UPDATE, 0x4048462e);
    assert_eq!(MXCFB_SET_AUTO_UPDATE_MODE, 0x4004462d);
    assert_eq!(MXCFB_WAIT_FOR_UPDATE_COMPLETE, 0xc008462f);
    assert_eq!(FBIOGET_VSCREENINFO, 0x4600);
    assert_eq!(EPDC_FLAG_USE_ALT_BUFFER, 0x0100);
    assert_eq!(DRAWING_QUANT_BIT, 0x7614_3b24);
}

#[test]
fn mode_codes() {
    assert_eq!(mxcfb_ioctl::MXCFB_NONE.code(), 0);
    assert_eq!(mxcfb_ioctl::MXCFB_SEND_UPDATE.code(), 0x2E);
    assert_eq!(mxcfb_ioctl::MXCFB_GET_WORK_BUFFER.code(), 0x34);
    assert_eq!(mxcfb_ioctl::MXCFB_ENABLE_EPDC_ACCESS.code(), 0x36);
    assert_eq!(auto_update_mode::AUTO_UPDATE_MODE_AUTOMATIC_MODE.code(), 1);
    assert_eq!(update_scheme::UPDATE_SCHEME_QUEUE_AND_MERGE.code(), 2);
    assert_eq!(update_mode::UPDATE_MODE_FULL.code(), 1);
    assert_eq!(dither_mode::EPDC_FLAG_USE_REMARKABLE_DITHER.code(), 0x30_0f30);
    assert_eq!(dither_mode::EPDC_FLAG_EXP8.code(), 0x7ed3_d2c0);
    assert_eq!(waveform_mode::WAVEFORM_MODE_AUTO.code(), 257);
    assert_eq!(waveform_mode::WAVEFORM_MODE_DU.code(), 1);
    assert_eq!(display_temp::TEMP_USE_MAX.code(), 0xFFFF);
    assert_eq!(display_temp::TEMP_USE_REMARKABLE_DRAW.code(), 0x18);
}

#[test]
fn request_numbers_follow_ioc_layout() {
    let ioc = |dir: u64, nr: u32, size: u64| (dir << 30) | (size << 16) | (0x46 << 8) | nr as u64;
    assert_eq!(MXCFB_SET_AUTO_UPDATE_MODE, ioc(1, mxcfb_ioctl::MXCFB_SET_AUTO_UPDATE_MODE.code(), 4));
    assert_eq!(MXCFB_SET_UPDATE_SCHEME, ioc(1, mxcfb_ioctl::MXCFB_SET_UPDATE_SCHEME.code(), 4));
    assert_eq!(MXCFB_SEND_UPDATE, ioc(1, mxcfb_ioctl::MXCFB_SEND_UPDATE.code(), 72));
    assert_eq!(MXCFB_WAIT_FOR_UPDATE_COMPLETE, ioc(3, mxcfb_ioctl::MXCFB_WAIT_FOR_UPDATE_COMPLETE.code(), 8));
    assert_eq!(MXCFB_DISABLE_EPDC_ACCESS, ioc(0, mxcfb_ioctl::MXCFB_DISABLE_EPDC_ACCESS.code(), 0));
    assert_eq!(MXCFB_ENABLE_EPDC_ACCESS, ioc(0, mxcfb_ioctl::MXCFB_ENABLE_EPDC_ACCESS.code(), 0));
}
