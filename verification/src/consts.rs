//! Names and values that CUPS uses for job options and for the statuses of its calls.
use vstd::prelude::*;

verus! {

/// Encodes a boolean the way CUPS does: `1` for true, `0` for false.
pub fn bool(value: bool) -> (r: i32)
    ensures
        r == (if value { 1i32 } else { 0i32 }),
{
    if value {
        1
    } else {
        0
    }
}

/// `IPP_STATUS_OK`: the status of a successful IPP operation.
pub const IPP_STATUS_OK: i32 = 0;

/// `HTTP_STATUS_CONTINUE`: the status of a successful step of a document transfer.
pub const HTTP_STATUS_CONTINUE: i32 = 100;

/// The document format that lets the printer detect the format itself.
pub const CUPS_FORMAT_AUTO: &'static str = "application/octet-stream";

// Option names.
pub const CUPS_COPIES: &'static str = "copies";
pub const CUPS_FINISHINGS: &'static str = "finishings";
pub const CUPS_MEDIA: &'static str = "media";
pub const CUPS_MEDIA_SOURCE: &'static str = "media-source";
pub const CUPS_MEDIA_TYPE: &'static str = "media-type";
pub const CUPS_NUMBER_UP: &'static str = "number-up";
pub const CUPS_ORIENTATION: &'static str = "orientation-requested";
pub const CUPS_PRINT_COLOR_MODE: &'static str = "print-color-mode";
pub const CUPS_PRINT_QUALITY: &'static str = "print-quality";
pub const CUPS_SIDES: &'static str = "sides";

// Finishings.
pub const CUPS_FINISHINGS_BIND: &'static str = "7";
pub const CUPS_FINISHINGS_COVER: &'static str = "6";
pub const CUPS_FINISHINGS_FOLD: &'static str = "10";
pub const CUPS_FINISHINGS_NONE: &'static str = "3";
pub const CUPS_FINISHINGS_PUNCH: &'static str = "5";
pub const CUPS_FINISHINGS_STAPLE: &'static str = "4";
pub const CUPS_FINISHINGS_TRIM: &'static str = "11";

// Media sizes.
pub const CUPS_MEDIA_3X5: &'static str = "na_index-3x5_3x5in";
pub const CUPS_MEDIA_4X6: &'static str = "na_index-4x6_4x6in";
pub const CUPS_MEDIA_5X7: &'static str = "na_5x7_5x7in";
pub const CUPS_MEDIA_8X10: &'static str = "na_govt-letter_8x10in";
pub const CUPS_MEDIA_A3: &'static str = "iso_a3_297x420mm";
pub const CUPS_MEDIA_A4: &'static str = "iso_a4_210x297mm";
pub const CUPS_MEDIA_A5: &'static str = "iso_a5_148x210mm";
pub const CUPS_MEDIA_A6: &'static str = "iso_a6_105x148mm";
pub const CUPS_MEDIA_ENV10: &'static str = "na_number-10_4.125x9.5in";
pub const CUPS_MEDIA_ENVDL: &'static str = "iso_dl_110x220mm";
pub const CUPS_MEDIA_LEGAL: &'static str = "na_legal_8.5x14in";
pub const CUPS_MEDIA_LETTER: &'static str = "na_letter_8.5x11in";
pub const CUPS_MEDIA_PHOTO_L: &'static str = "oe_photo-l_3.5x5in";
pub const CUPS_MEDIA_SUPERBA3: &'static str = "na_super-b_13x19in";
pub const CUPS_MEDIA_TABLOID: &'static str = "na_ledger_11x17in";

// Media sources.
pub const CUPS_MEDIA_SOURCE_AUTO: &'static str = "auto";
pub const CUPS_MEDIA_SOURCE_MANUAL: &'static str = "manual";

// Media types.
pub const CUPS_MEDIA_TYPE_AUTO: &'static str = "auto";
pub const CUPS_MEDIA_TYPE_ENVELOPE: &'static str = "envelope";
pub const CUPS_MEDIA_TYPE_LABELS: &'static str = "labels";
pub const CUPS_MEDIA_TYPE_LETTERHEAD: &'static str = "stationery-letterhead";
pub const CUPS_MEDIA_TYPE_PHOTO: &'static str = "photographic";
pub const CUPS_MEDIA_TYPE_PHOTO_GLOSSY: &'static str = "photographic-glossy";
pub const CUPS_MEDIA_TYPE_PHOTO_MATTE: &'static str = "photographic-matte";
pub const CUPS_MEDIA_TYPE_PLAIN: &'static str = "stationery";
pub const CUPS_MEDIA_TYPE_TRANSPARENCY: &'static str = "transparency";

// Orientations.
pub const CUPS_ORIENTATION_PORTRAIT: &'static str = "3";
pub const CUPS_ORIENTATION_LANDSCAPE: &'static str = "4";

// Color modes.
pub const CUPS_PRINT_COLOR_MODE_AUTO: &'static str = "auto";
pub const CUPS_PRINT_COLOR_MODE_MONOCHROME: &'static str = "monochrome";
pub const CUPS_PRINT_COLOR_MODE_COLOR: &'static str = "color";

// Qualities.
pub const CUPS_PRINT_QUALITY_DRAFT: &'static str = "3";
pub const CUPS_PRINT_QUALITY_NORMAL: &'static str = "4";
pub const CUPS_PRINT_QUALITY_HIGH: &'static str = "5";

// Sides.
pub const CUPS_SIDES_ONE_SIDED: &'static str = "one-sided";
pub const CUPS_SIDES_TWO_SIDED_PORTRAIT: &'static str = "two-sided-long-edge";
pub const CUPS_SIDES_TWO_SIDED_LANDSCAPE: &'static str = "two-sided-short-edge";

} // verus!
