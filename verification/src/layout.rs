use vstd::prelude::*;

verus! {

/// The size classes the host renders a widget at.
#[derive(Clone, Copy, Debug, PartialEq, Eq, Structural)]
pub enum SizeVariant {
    Small,
    Medium,
    Large,
    Full,
}

/// Font sizes and spacing of the rectangular layout, in whole pixels, and
/// whether the previous cycle's totals are shown under this cycle's.
#[derive(Clone, Copy, Debug, PartialEq, Eq, Structural)]
pub struct SizeParams {
    pub header_font: u32,
    pub icon_px: u32,
    pub power_font: u32,
    pub label_font: u32,
    pub value_font: u32,
    pub sub_font: u32,
    pub padding: u32,
    pub gap: u32,
    pub show_sub: bool,
}

/// The layout table: larger sizes get larger type and spacing; only the
/// small size leaves out last month's and last year's totals.
pub open spec fn size_table(variant: SizeVariant) -> SizeParams {
    match variant {
        SizeVariant::Small => SizeParams {
            header_font: 16,
            icon_px: 18,
            power_font: 40,
            label_font: 13,
            value_font: 18,
            sub_font: 11,
            padding: 12,
            gap: 6,
            show_sub: false,
        },
        SizeVariant::Medium => SizeParams {
            header_font: 18,
            icon_px: 20,
            power_font: 56,
            label_font: 14,
            value_font: 22,
            sub_font: 12,
            padding: 14,
            gap: 8,
            show_sub: true,
        },
        SizeVariant::Large => SizeParams {
            header_font: 20,
            icon_px: 22,
            power_font: 72,
            label_font: 16,
            value_font: 26,
            sub_font: 13,
            padding: 16,
            gap: 10,
            show_sub: true,
        },
        SizeVariant::Full => SizeParams {
            header_font: 24,
            icon_px: 28,
            power_font: 96,
            label_font: 20,
            value_font: 34,
            sub_font: 16,
            padding: 24,
            gap: 14,
            show_sub: true,
        },
    }
}

/// The rectangular layout's sizes for `variant`.
pub fn size_params(variant: SizeVariant) -> (sp: SizeParams)
    ensures
        sp == size_table(variant),
{
    match variant {
        SizeVariant::Small => SizeParams {
            header_font: 16,
            icon_px: 18,
            power_font: 40,
            label_font: 13,
            value_font: 18,
            sub_font: 11,
            padding: 12,
            gap: 6,
            show_sub: false,
        },
        SizeVariant::Medium => SizeParams {
            header_font: 18,
            icon_px: 20,
            power_font: 56,
            label_font: 14,
            value_font: 22,
            sub_font: 12,
            padding: 14,
            gap: 8,
            show_sub: true,
        },
        SizeVariant::Large => SizeParams {
            header_font: 20,
            icon_px: 22,
            power_font: 72,
            label_font: 16,
            value_font: 26,
            sub_font: 13,
            padding: 16,
            gap: 10,
            show_sub: true,
        },
        SizeVariant::Full => SizeParams {
            header_font: 24,
            icon_px: 28,
            power_font: 96,
            label_font: 20,
            value_font: 34,
            sub_font: 16,
            padding: 24,
            gap: 14,
            show_sub: true,
        },
    }
}

/// The order of the size classes, smallest first.
pub open spec fn size_rank(variant: SizeVariant) -> int {
    match variant {
        SizeVariant::Small => 0,
        SizeVariant::Medium => 1,
        SizeVariant::Large => 2,
        SizeVariant::Full => 3,
    }
}

/// A larger size class never gets smaller type or spacing.
pub proof fn lemma_sizes_grow(a: SizeVariant, b: SizeVariant)
    requires
        size_rank(a) <= size_rank(b),
    ensures
        size_table(a).header_font <= size_table(b).header_font,
        size_table(a).icon_px <= size_table(b).icon_px,
        size_table(a).power_font <= size_table(b).power_font,
        size_table(a).label_font <= size_table(b).label_font,
        size_table(a).value_font <= size_table(b).value_font,
        size_table(a).sub_font <= size_table(b).sub_font,
        size_table(a).padding <= size_table(b).padding,
        size_table(a).gap <= size_table(b).gap,
        size_table(a).show_sub ==> size_table(b).show_sub,
{
}

} // verus!
