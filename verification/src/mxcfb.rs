//! The vocabulary of the i.MX EPDC framebuffer driver: ioctl request numbers,
//! update flags and the modes an update can be sent with.
use vstd::prelude::*;

verus! {

/// The integer type of an ioctl request number on a 64-bit target.
pub type NativeWidthType = u64;

/// `_IOW('F', 0x2D, u32)`.
pub const MXCFB_SET_AUTO_UPDATE_MODE: NativeWidthType = 0x4004_462D;

/// `_IOW('F', 0x32, u32)`.
pub const MXCFB_SET_UPDATE_SCHEME: NativeWidthType = 0x4004_4632;

/// `_IOW('F', 0x2E, struct mxcfb_update_data)`, the 72-byte layout of this
/// panel; not the value that most other software uses.
pub const MXCFB_SEND_UPDATE: NativeWidthType = 0x4048_462E;

/// `_IOWR('F', 0x2F, struct mxcfb_update_marker_data)`.
pub const MXCFB_WAIT_FOR_UPDATE_COMPLETE: NativeWidthType = 0xC008_462F;

/// `_IO('F', 0x35)`.
pub const MXCFB_DISABLE_EPDC_ACCESS: NativeWidthType = 0x4635;

/// `_IO('F', 0x36)`.
pub const MXCFB_ENABLE_EPDC_ACCESS: NativeWidthType = 0x4636;

pub const FBIOPUT_VSCREENINFO: NativeWidthType = 0x4601;

pub const FBIOGET_VSCREENINFO: NativeWidthType = 0x4600;

pub const FBIOGET_FSCREENINFO: NativeWidthType = 0x4602;

pub const FBIOGETCMAP: NativeWidthType = 0x4604;

pub const FBIOPUTCMAP: NativeWidthType = 0x4605;

pub const FBIOPAN_DISPLAY: NativeWidthType = 0x4606;

pub const FBIO_CURSOR: NativeWidthType = 0x4608;

/// If no processing is required, update processing is skipped. No processing
/// means: framebuffer unrotated, 8-bit grayscale pixels and no look-up
/// transformation (inversion, posterization, ...).
///
/// Enables the PXP_LUT_INVERT transform on the buffer.
pub const EPDC_FLAG_ENABLE_INVERSION: u32 = 0x0001;

/// Enables the PXP_LUT_BLACK_WHITE transform on the buffer.
pub const EPDC_FLAG_FORCE_MONOCHROME: u32 = 0x0002;

/// Enables the PXP_USE_CMAP transform on the buffer.
pub const EPDC_FLAG_USE_CMAP: u32 = 0x0004;

/// Double buffering: the driver is handed the bitmap to update and swaps it
/// in. The bitmap must lie within the framebuffer memory.
pub const EPDC_FLAG_USE_ALT_BUFFER: u32 = 0x0100;

/// Upon a collision, an update is not merged if either update has this flag
/// set, unless both cover the same region.
pub const EPDC_FLAG_TEST_COLLISION: u32 = 0x0200;

pub const EPDC_FLAG_GROUP_UPDATE: u32 = 0x0400;

/// Quantization values the stock drawing application uses; there are more.
pub const DRAWING_QUANT_BIT: i32 = 0x7614_3b24;

pub const DRAWING_QUANT_BIT_2: i32 = 0x75e7_bb24;

pub const DRAWING_QUANT_BIT_3: i32 = 0x5_3ed4;

/// The driver's ioctl commands, by their number within the `'F'` group.
///
/// The variants carry no discriminants: take a command's number from
/// `code()`, not from an `as` cast, which gives the variant's position.
#[derive(Clone, Copy, Debug, PartialEq, Eq, Structural)]
pub enum mxcfb_ioctl {
    MXCFB_NONE,
    /// Takes a `struct mxcfb_waveform_modes`.
    MXCFB_SET_WAVEFORM_MODES,
    /// Takes an `int32_t`.
    MXCFB_SET_TEMPERATURE,
    /// Takes a `__u32`.
    MXCFB_SET_AUTO_UPDATE_MODE,
    /// Takes a `struct mxcfb_update_data`.
    MXCFB_SEND_UPDATE,
    /// Takes a `struct mxcfb_update_marker_data`.
    MXCFB_WAIT_FOR_UPDATE_COMPLETE,
    /// Takes an `int32_t`.
    MXCFB_SET_PWRDOWN_DELAY,
    /// Takes an `int32_t`.
    MXCFB_GET_PWRDOWN_DELAY,
    /// Takes a `__u32`.
    MXCFB_SET_UPDATE_SCHEME,
    /// Takes an `unsigned long`.
    MXCFB_GET_WORK_BUFFER,
    MXCFB_DISABLE_EPDC_ACCESS,
    MXCFB_ENABLE_EPDC_ACCESS,
}

impl mxcfb_ioctl {
    /// The command number the driver knows this command by.
    pub open spec fn number(self) -> u32 {
        match self {
            mxcfb_ioctl::MXCFB_NONE => 0x00,
            mxcfb_ioctl::MXCFB_SET_WAVEFORM_MODES => 0x2B,
            mxcfb_ioctl::MXCFB_SET_TEMPERATURE => 0x2C,
            mxcfb_ioctl::MXCFB_SET_AUTO_UPDATE_MODE => 0x2D,
            mxcfb_ioctl::MXCFB_SEND_UPDATE => 0x2E,
            mxcfb_ioctl::MXCFB_WAIT_FOR_UPDATE_COMPLETE => 0x2F,
            mxcfb_ioctl::MXCFB_SET_PWRDOWN_DELAY => 0x30,
            mxcfb_ioctl::MXCFB_GET_PWRDOWN_DELAY => 0x31,
            mxcfb_ioctl::MXCFB_SET_UPDATE_SCHEME => 0x32,
            mxcfb_ioctl::MXCFB_GET_WORK_BUFFER => 0x34,
            mxcfb_ioctl::MXCFB_DISABLE_EPDC_ACCESS => 0x35,
            mxcfb_ioctl::MXCFB_ENABLE_EPDC_ACCESS => 0x36,
        }
    }

    /// The command number, as the driver expects it.
    pub fn code(self) -> (c: u32)
        ensures
            c == self.number(),
    {
        match self {
            mxcfb_ioctl::MXCFB_NONE => 0x00,
            mxcfb_ioctl::MXCFB_SET_WAVEFORM_MODES => 0x2B,
            mxcfb_ioctl::MXCFB_SET_TEMPERATURE => 0x2C,
            mxcfb_ioctl::MXCFB_SET_AUTO_UPDATE_MODE => 0x2D,
            mxcfb_ioctl::MXCFB_SEND_UPDATE => 0x2E,
            mxcfb_ioctl::MXCFB_WAIT_FOR_UPDATE_COMPLETE => 0x2F,
            mxcfb_ioctl::MXCFB_SET_PWRDOWN_DELAY => 0x30,
            mxcfb_ioctl::MXCFB_GET_PWRDOWN_DELAY => 0x31,
            mxcfb_ioctl::MXCFB_SET_UPDATE_SCHEME => 0x32,
            mxcfb_ioctl::MXCFB_GET_WORK_BUFFER => 0x34,
            mxcfb_ioctl::MXCFB_DISABLE_EPDC_ACCESS => 0x35,
            mxcfb_ioctl::MXCFB_ENABLE_EPDC_ACCESS => 0x36,
        }
    }
}

/// Whether the driver refreshes the screen by itself.
///
/// The variants carry no discriminants: take the driver's value from
/// `code()`, not from an `as` cast, which gives the variant's position.
#[derive(Clone, Copy, Debug, PartialEq, Eq, Structural)]
pub enum auto_update_mode {
    AUTO_UPDATE_MODE_REGION_MODE,
    AUTO_UPDATE_MODE_AUTOMATIC_MODE,
}

impl auto_update_mode {
    /// The value the driver knows this mode by.
    pub open spec fn number(self) -> u32 {
        match self {
            auto_update_mode::AUTO_UPDATE_MODE_REGION_MODE => 0,
            auto_update_mode::AUTO_UPDATE_MODE_AUTOMATIC_MODE => 1,
        }
    }

    /// The value of the mode, as the driver expects it.
    pub fn code(self) -> (c: u32)
        ensures
            c == self.number(),
    {
        match self {
            auto_update_mode::AUTO_UPDATE_MODE_REGION_MODE => 0,
            auto_update_mode::AUTO_UPDATE_MODE_AUTOMATIC_MODE => 1,
        }
    }
}

/// How the driver schedules the updates it is sent.
///
/// The variants carry no discriminants: take the driver's value from
/// `code()`, not from an `as` cast, which gives the variant's position.
#[derive(Clone, Copy, Debug)]
pub enum update_scheme {
    UPDATE_SCHEME_SNAPSHOT,
    UPDATE_SCHEME_QUEUE,
    UPDATE_SCHEME_QUEUE_AND_MERGE,
}

impl update_scheme {
    /// The value the driver knows this scheme by.
    pub open spec fn number(self) -> u32 {
        match self {
            update_scheme::UPDATE_SCHEME_SNAPSHOT => 0,
            update_scheme::UPDATE_SCHEME_QUEUE => 1,
            update_scheme::UPDATE_SCHEME_QUEUE_AND_MERGE => 2,
        }
    }

    /// The value of the scheme, as the driver expects it.
    pub fn code(self) -> (c: u32)
        ensures
            c == self.number(),
    {
        match self {
            update_scheme::UPDATE_SCHEME_SNAPSHOT => 0,
            update_scheme::UPDATE_SCHEME_QUEUE => 1,
            update_scheme::UPDATE_SCHEME_QUEUE_AND_MERGE => 2,
        }
    }
}

/// Whether an update waits for the updates before it.
///
/// The variants carry no discriminants: take the driver's value from
/// `code()`, not from an `as` cast, which gives the variant's position.
#[derive(Clone, Copy, Debug)]
pub enum update_mode {
    /// Returns a marker, with no locking and no waiting for the update
    /// region to be clean.
    UPDATE_MODE_PARTIAL,
    /// Waits for all other updates in the region and runs after them, in
    /// order.
    UPDATE_MODE_FULL,
}

impl update_mode {
    /// The value the driver knows this mode by.
    pub open spec fn number(self) -> u32 {
        match self {
            update_mode::UPDATE_MODE_PARTIAL => 0,
            update_mode::UPDATE_MODE_FULL => 1,
        }
    }

    /// The value of the mode, as the driver expects it.
    pub fn code(self) -> (c: u32)
        ensures
            c == self.number(),
    {
        match self {
            update_mode::UPDATE_MODE_PARTIAL => 0,
            update_mode::UPDATE_MODE_FULL => 1,
        }
    }
}

/// The dithering an update is processed with.
///
/// The variants carry no discriminants: take the driver's value from
/// `code()`, not from an `as` cast, which gives the variant's position.
#[derive(Clone, Copy, Debug)]
pub enum dither_mode {
    EPDC_FLAG_USE_DITHERING_PASSTHROUGH,
    EPDC_FLAG_USE_DITHERING_DRAWING,
    /// Dithering processing (version 1.0, for i.MX508 and i.MX6SL).
    EPDC_FLAG_USE_DITHERING_Y1,
    EPDC_FLAG_USE_REMARKABLE_DITHER,
    EPDC_FLAG_USE_DITHERING_Y4,
    EPDC_FLAG_USE_DITHERING_ALPHA,
    EPDC_FLAG_USE_DITHERING_BETA,
    EPDC_FLAG_EXP1,
    EPDC_FLAG_EXP2,
    EPDC_FLAG_EXP3,
    EPDC_FLAG_EXP4,
    EPDC_FLAG_EXP5,
    EPDC_FLAG_EXP6,
    EPDC_FLAG_EXP7,
    EPDC_FLAG_EXP8,
}

impl dither_mode {
    /// The flag word the driver knows this dithering by.
    pub open spec fn number(self) -> i32 {
        match self {
            dither_mode::EPDC_FLAG_USE_DITHERING_PASSTHROUGH => 0x0,
            dither_mode::EPDC_FLAG_USE_DITHERING_DRAWING => 0x1,
            dither_mode::EPDC_FLAG_USE_DITHERING_Y1 => 0x00_2000,
            dither_mode::EPDC_FLAG_USE_REMARKABLE_DITHER => 0x30_0f30,
            dither_mode::EPDC_FLAG_USE_DITHERING_Y4 => 0x00_4000,
            dither_mode::EPDC_FLAG_USE_DITHERING_ALPHA => 0x3ff0_0000,
            dither_mode::EPDC_FLAG_USE_DITHERING_BETA => 0x7546_1440,
            dither_mode::EPDC_FLAG_EXP1 => 0x270_ce20,
            dither_mode::EPDC_FLAG_EXP2 => 0x270_db98,
            dither_mode::EPDC_FLAG_EXP3 => 0x274_45a0,
            dither_mode::EPDC_FLAG_EXP4 => 0x274_6f68,
            dither_mode::EPDC_FLAG_EXP5 => 0x274_aa58,
            dither_mode::EPDC_FLAG_EXP6 => 0x274_bd40,
            dither_mode::EPDC_FLAG_EXP7 => 0x7ecf_22c0,
            dither_mode::EPDC_FLAG_EXP8 => 0x7ed3_d2c0,
        }
    }

    /// The flag word of the dithering, as the driver expects it.
    pub fn code(self) -> (c: i32)
        ensures
            c == self.number(),
    {
        match self {
            dither_mode::EPDC_FLAG_USE_DITHERING_PASSTHROUGH => 0x0,
            dither_mode::EPDC_FLAG_USE_DITHERING_DRAWING => 0x1,
            dither_mode::EPDC_FLAG_USE_DITHERING_Y1 => 0x00_2000,
            dither_mode::EPDC_FLAG_USE_REMARKABLE_DITHER => 0x30_0f30,
            dither_mode::EPDC_FLAG_USE_DITHERING_Y4 => 0x00_4000,
            dither_mode::EPDC_FLAG_USE_DITHERING_ALPHA => 0x3ff0_0000,
            dither_mode::EPDC_FLAG_USE_DITHERING_BETA => 0x7546_1440,
            dither_mode::EPDC_FLAG_EXP1 => 0x270_ce20,
            dither_mode::EPDC_FLAG_EXP2 => 0x270_db98,
            dither_mode::EPDC_FLAG_EXP3 => 0x274_45a0,
            dither_mode::EPDC_FLAG_EXP4 => 0x274_6f68,
            dither_mode::EPDC_FLAG_EXP5 => 0x274_aa58,
            dither_mode::EPDC_FLAG_EXP6 => 0x274_bd40,
            dither_mode::EPDC_FLAG_EXP7 => 0x7ecf_22c0,
            dither_mode::EPDC_FLAG_EXP8 => 0x7ed3_d2c0,
        }
    }
}

/// The waveform an update drives the panel with.
///
/// The variants carry no discriminants: take the driver's value from
/// `code()`, not from an `as` cast, which gives the variant's position.
#[derive(Clone, Copy, Debug)]
pub enum waveform_mode {
    /// (Recommended) The screen goes to white; flashes black and white once
    /// to clear ghosting when used with `UPDATE_MODE_FULL`.
    WAVEFORM_MODE_INIT,
    /// (Recommended) Much like A2: a partial refresh works here and is good
    /// for quick black to white transitions, with some leftovers behind.
    WAVEFORM_MODE_GLR16,
    /// (Further exploration needed) Enables Regal D processing.
    WAVEFORM_MODE_GLD16,
    /// (Recommended) "Direct update", grey to white or grey to black; used
    /// for drawing. It cannot draw an RGB pixel: use the GC16 modes for
    /// coloured updates.
    WAVEFORM_MODE_DU,
    /// (Recommended) High fidelity; flashes black and white when used with
    /// `UPDATE_MODE_FULL`. Also called GC4.
    WAVEFORM_MODE_GC16,
    /// (Recommended) Medium fidelity, used for the user interface.
    WAVEFORM_MODE_GC16_FAST,
    /// (Further exploration needed) Medium fidelity from a white transition.
    WAVEFORM_MODE_GL16_FAST,
    /// (Further exploration needed) Medium fidelity, four grey levels,
    /// direct update.
    WAVEFORM_MODE_DU4,
    /// (Further exploration needed) Ghost compensation.
    WAVEFORM_MODE_REAGL,
    /// (Further exploration needed) Ghost compensation with dithering.
    WAVEFORM_MODE_REAGLD,
    /// (Further exploration needed) Two bits from a white transition, with an
    /// odd fade-out that settles at semi-sketched.
    WAVEFORM_MODE_GL4,
    /// (Further exploration needed) High fidelity for a black transition,
    /// much like GL4.
    WAVEFORM_MODE_GL16_INV,
    /// (Recommended) The driver picks the waveform.
    WAVEFORM_MODE_AUTO,
}

impl waveform_mode {
    /// The value the driver knows this waveform by.
    pub open spec fn number(self) -> u32 {
        match self {
            waveform_mode::WAVEFORM_MODE_INIT => 0x0,
            waveform_mode::WAVEFORM_MODE_GLR16 => 0x4,
            waveform_mode::WAVEFORM_MODE_GLD16 => 0x5,
            waveform_mode::WAVEFORM_MODE_DU => 0x1,
            waveform_mode::WAVEFORM_MODE_GC16 => 0x2,
            waveform_mode::WAVEFORM_MODE_GC16_FAST => 0x3,
            waveform_mode::WAVEFORM_MODE_GL16_FAST => 0x6,
            waveform_mode::WAVEFORM_MODE_DU4 => 0x7,
            waveform_mode::WAVEFORM_MODE_REAGL => 0x8,
            waveform_mode::WAVEFORM_MODE_REAGLD => 0x9,
            waveform_mode::WAVEFORM_MODE_GL4 => 0xA,
            waveform_mode::WAVEFORM_MODE_GL16_INV => 0xB,
            waveform_mode::WAVEFORM_MODE_AUTO => 257,
        }
    }

    /// The value of the waveform, as the driver expects it.
    pub fn code(self) -> (c: u32)
        ensures
            c == self.number(),
    {
        match self {
            waveform_mode::WAVEFORM_MODE_INIT => 0x0,
            waveform_mode::WAVEFORM_MODE_GLR16 => 0x4,
            waveform_mode::WAVEFORM_MODE_GLD16 => 0x5,
            waveform_mode::WAVEFORM_MODE_DU => 0x1,
            waveform_mode::WAVEFORM_MODE_GC16 => 0x2,
            waveform_mode::WAVEFORM_MODE_GC16_FAST => 0x3,
            waveform_mode::WAVEFORM_MODE_GL16_FAST => 0x6,
            waveform_mode::WAVEFORM_MODE_DU4 => 0x7,
            waveform_mode::WAVEFORM_MODE_REAGL => 0x8,
            waveform_mode::WAVEFORM_MODE_REAGLD => 0x9,
            waveform_mode::WAVEFORM_MODE_GL4 => 0xA,
            waveform_mode::WAVEFORM_MODE_GL16_INV => 0xB,
            waveform_mode::WAVEFORM_MODE_AUTO => 257,
        }
    }
}

/// The temperature setting an update is sent with.
///
/// The variants carry no discriminants: take the driver's value from
/// `code()`, not from an `as` cast, which gives the variant's position.
#[derive(Clone, Copy, Debug)]
pub enum display_temp {
    /// Seems to give the lowest draw latency (the lower, the faster); the
    /// stock drawing application uses it.
    TEMP_USE_REMARKABLE_DRAW,
    /// Gives a higher draw latency, for some reason.
    TEMP_USE_AMBIENT,
    /// Also gives a high draw latency.
    TEMP_USE_PAPYRUS,
    /// High draw latency again.
    TEMP_USE_MAX,
}

impl display_temp {
    /// The temperature value the driver knows this setting by.
    pub open spec fn number(self) -> i32 {
        match self {
            display_temp::TEMP_USE_REMARKABLE_DRAW => 0x0018,
            display_temp::TEMP_USE_AMBIENT => 0x1000,
            display_temp::TEMP_USE_PAPYRUS => 0x1001,
            display_temp::TEMP_USE_MAX => 0xFFFF,
        }
    }

    /// The temperature value of the setting, as the driver expects it.
    pub fn code(self) -> (c: i32)
        ensures
            c == self.number(),
    {
        match self {
            display_temp::TEMP_USE_REMARKABLE_DRAW => 0x0018,
            display_temp::TEMP_USE_AMBIENT => 0x1000,
            display_temp::TEMP_USE_PAPYRUS => 0x1001,
            display_temp::TEMP_USE_MAX => 0xFFFF,
        }
    }
}

/// The group letter `'F'` of the framebuffer's ioctl requests.
pub open spec fn framebuffer_group() -> int {
    0x46
}

/// The request number of an ioctl, laid out as Linux's `_IOC` does: the
/// direction in bits 30 and 31, the size of the argument in bits 16 to 29,
/// the group in bits 8 to 15 and the command number in bits 0 to 7.
pub open spec fn ioctl_request(dir: int, group: int, nr: int, size: int) -> int {
    dir * 0x4000_0000 + size * 0x1_0000 + group * 0x100 + nr
}

/// `_IO(group, nr)`: a request without an argument.
pub open spec fn ioctl_none(group: int, nr: int) -> int {
    ioctl_request(0, group, nr, 0)
}

/// `_IOW(group, nr, size)`: a request whose argument is written to the driver.
pub open spec fn ioctl_write(group: int, nr: int, size: int) -> int {
    ioctl_request(1, group, nr, size)
}

/// `_IOWR(group, nr, size)`: a request whose argument is written and read back.
pub open spec fn ioctl_write_read(group: int, nr: int, size: int) -> int {
    ioctl_request(3, group, nr, size)
}

/// The driver's request numbers are the `_IOC` encodings of their commands:
/// a `u32` argument takes 4 bytes, `struct mxcfb_update_data` 72 and
/// `struct mxcfb_update_marker_data` 8.
pub proof fn lemma_request_numbers_encode_commands()
    ensures
        MXCFB_SET_AUTO_UPDATE_MODE == ioctl_write(
            framebuffer_group(),
            mxcfb_ioctl::MXCFB_SET_AUTO_UPDATE_MODE.number() as int,
            4,
        ),
        MXCFB_SET_UPDATE_SCHEME == ioctl_write(
            framebuffer_group(),
            mxcfb_ioctl::MXCFB_SET_UPDATE_SCHEME.number() as int,
            4,
        ),
        MXCFB_SEND_UPDATE == ioctl_write(
            framebuffer_group(),
            mxcfb_ioctl::MXCFB_SEND_UPDATE.number() as int,
            72,
        ),
        MXCFB_WAIT_FOR_UPDATE_COMPLETE == ioctl_write_read(
            framebuffer_group(),
            mxcfb_ioctl::MXCFB_WAIT_FOR_UPDATE_COMPLETE.number() as int,
            8,
        ),
        MXCFB_DISABLE_EPDC_ACCESS == ioctl_none(
            framebuffer_group(),
            mxcfb_ioctl::MXCFB_DISABLE_EPDC_ACCESS.number() as int,
        ),
        MXCFB_ENABLE_EPDC_ACCESS == ioctl_none(
            framebuffer_group(),
            mxcfb_ioctl::MXCFB_ENABLE_EPDC_ACCESS.number() as int,
        ),
{
}

/// The command numbers of the driver's `'F'` ioctl group: each value `code()` gives is the driver's own, and no two
/// variants share one.
pub proof fn lemma_mxcfb_ioctl_codes(a: mxcfb_ioctl, b: mxcfb_ioctl)
    ensures
        mxcfb_ioctl::MXCFB_NONE.number() == 0x00,
        mxcfb_ioctl::MXCFB_SET_WAVEFORM_MODES.number() == 0x2B,
        mxcfb_ioctl::MXCFB_SET_TEMPERATURE.number() == 0x2C,
        mxcfb_ioctl::MXCFB_SET_AUTO_UPDATE_MODE.number() == 0x2D,
        mxcfb_ioctl::MXCFB_SEND_UPDATE.number() == 0x2E,
        mxcfb_ioctl::MXCFB_WAIT_FOR_UPDATE_COMPLETE.number() == 0x2F,
        mxcfb_ioctl::MXCFB_SET_PWRDOWN_DELAY.number() == 0x30,
        mxcfb_ioctl::MXCFB_GET_PWRDOWN_DELAY.number() == 0x31,
        mxcfb_ioctl::MXCFB_SET_UPDATE_SCHEME.number() == 0x32,
        mxcfb_ioctl::MXCFB_GET_WORK_BUFFER.number() == 0x34,
        mxcfb_ioctl::MXCFB_DISABLE_EPDC_ACCESS.number() == 0x35,
        mxcfb_ioctl::MXCFB_ENABLE_EPDC_ACCESS.number() == 0x36,
        a.number() == b.number() ==> a == b,
{
}

/// The auto-update modes of the driver: each value `code()` gives is the driver's own, and no two
/// variants share one.
pub proof fn lemma_auto_update_mode_codes(a: auto_update_mode, b: auto_update_mode)
    ensures
        auto_update_mode::AUTO_UPDATE_MODE_REGION_MODE.number() == 0,
        auto_update_mode::AUTO_UPDATE_MODE_AUTOMATIC_MODE.number() == 1,
        a.number() == b.number() ==> a == b,
{
}

/// The update schemes of the driver: each value `code()` gives is the driver's own, and no two
/// variants share one.
pub proof fn lemma_update_scheme_codes(a: update_scheme, b: update_scheme)
    ensures
        update_scheme::UPDATE_SCHEME_SNAPSHOT.number() == 0,
        update_scheme::UPDATE_SCHEME_QUEUE.number() == 1,
        update_scheme::UPDATE_SCHEME_QUEUE_AND_MERGE.number() == 2,
        a.number() == b.number() ==> a == b,
{
}

/// The update modes of the driver: each value `code()` gives is the driver's own, and no two
/// variants share one.
pub proof fn lemma_update_mode_codes(a: update_mode, b: update_mode)
    ensures
        update_mode::UPDATE_MODE_PARTIAL.number() == 0,
        update_mode::UPDATE_MODE_FULL.number() == 1,
        a.number() == b.number() ==> a == b,
{
}

/// The dithering flags of the driver: each value `code()` gives is the driver's own, and no two
/// variants share one.
pub proof fn lemma_dither_mode_codes(a: dither_mode, b: dither_mode)
    ensures
        dither_mode::EPDC_FLAG_USE_DITHERING_PASSTHROUGH.number() == 0x0,
        dither_mode::EPDC_FLAG_USE_DITHERING_DRAWING.number() == 0x1,
        dither_mode::EPDC_FLAG_USE_DITHERING_Y1.number() == 0x00_2000,
        dither_mode::EPDC_FLAG_USE_REMARKABLE_DITHER.number() == 0x30_0f30,
        dither_mode::EPDC_FLAG_USE_DITHERING_Y4.number() == 0x00_4000,
        dither_mode::EPDC_FLAG_USE_DITHERING_ALPHA.number() == 0x3ff0_0000,
        dither_mode::EPDC_FLAG_USE_DITHERING_BETA.number() == 0x7546_1440,
        dither_mode::EPDC_FLAG_EXP1.number() == 0x270_ce20,
        dither_mode::EPDC_FLAG_EXP2.number() == 0x270_db98,
        dither_mode::EPDC_FLAG_EXP3.number() == 0x274_45a0,
        dither_mode::EPDC_FLAG_EXP4.number() == 0x274_6f68,
        dither_mode::EPDC_FLAG_EXP5.number() == 0x274_aa58,
        dither_mode::EPDC_FLAG_EXP6.number() == 0x274_bd40,
        dither_mode::EPDC_FLAG_EXP7.number() == 0x7ecf_22c0,
        dither_mode::EPDC_FLAG_EXP8.number() == 0x7ed3_d2c0,
        a.number() == b.number() ==> a == b,
{
}

/// The waveforms of the driver: each value `code()` gives is the driver's own, and no two
/// variants share one.
pub proof fn lemma_waveform_mode_codes(a: waveform_mode, b: waveform_mode)
    ensures
        waveform_mode::WAVEFORM_MODE_INIT.number() == 0x0,
        waveform_mode::WAVEFORM_MODE_GLR16.number() == 0x4,
        waveform_mode::WAVEFORM_MODE_GLD16.number() == 0x5,
        waveform_mode::WAVEFORM_MODE_DU.number() == 0x1,
        waveform_mode::WAVEFORM_MODE_GC16.number() == 0x2,
        waveform_mode::WAVEFORM_MODE_GC16_FAST.number() == 0x3,
        waveform_mode::WAVEFORM_MODE_GL16_FAST.number() == 0x6,
        waveform_mode::WAVEFORM_MODE_DU4.number() == 0x7,
        waveform_mode::WAVEFORM_MODE_REAGL.number() == 0x8,
        waveform_mode::WAVEFORM_MODE_REAGLD.number() == 0x9,
        waveform_mode::WAVEFORM_MODE_GL4.number() == 0xA,
        waveform_mode::WAVEFORM_MODE_GL16_INV.number() == 0xB,
        waveform_mode::WAVEFORM_MODE_AUTO.number() == 257,
        a.number() == b.number() ==> a == b,
{
}

/// The temperature settings of the driver: each value `code()` gives is the driver's own, and no two
/// variants share one.
pub proof fn lemma_display_temp_codes(a: display_temp, b: display_temp)
    ensures
        display_temp::TEMP_USE_REMARKABLE_DRAW.number() == 0x0018,
        display_temp::TEMP_USE_AMBIENT.number() == 0x1000,
        display_temp::TEMP_USE_PAPYRUS.number() == 0x1001,
        display_temp::TEMP_USE_MAX.number() == 0xFFFF,
        a.number() == b.number() ==> a == b,
{
}

} // verus!
