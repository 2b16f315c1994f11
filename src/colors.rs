//! The components of the named colors.
use vstd::prelude::*;

use crate::keywords::ColorLiteral;
use crate::text::Number;
use crate::values::Color;

verus! {

fn number(digits: &[u8]) -> (r: Number)
    ensures
        r.text@ == digits@,
{
    Number { text: vstd::slice::slice_to_vec(digits) }
}

impl ColorLiteral {
    /// Red, green, blue and alpha of the color.
    pub open spec fn spec_rgba(&self) -> (u8, u8, u8, u8) {
        match self {
            ColorLiteral::Maroon => (128, 0, 0, 255),
            ColorLiteral::DarkRed => (139, 0, 0, 255),
            ColorLiteral::Brown => (165, 42, 42, 255),
            ColorLiteral::FireBrick => (178, 34, 34, 255),
            ColorLiteral::Crimson => (220, 20, 60, 255),
            ColorLiteral::Red => (255, 0, 0, 255),
            ColorLiteral::IndianRed => (205, 92, 92, 255),
            ColorLiteral::SaddleBrown => (139, 69, 19, 255),
            ColorLiteral::Sienna => (160, 82, 45, 255),
            ColorLiteral::RosyBrown => (188, 143, 143, 255),
            ColorLiteral::Chocolate => (210, 105, 30, 255),
            ColorLiteral::Peru => (205, 133, 63, 255),
            ColorLiteral::DarkGoldenRod => (184, 134, 11, 255),
            ColorLiteral::DarkSalmon => (233, 150, 122, 255),
            ColorLiteral::LightCoral => (240, 128, 128, 255),
            ColorLiteral::GoldenRod => (218, 165, 32, 255),
            ColorLiteral::Tan => (210, 180, 140, 255),
            ColorLiteral::DarkKhaki => (189, 183, 107, 255),
            ColorLiteral::BurlyWood => (222, 184, 135, 255),
            ColorLiteral::PaleGoldenRod => (238, 232, 170, 255),
            ColorLiteral::SandyBrown => (244, 164, 96, 255),
            ColorLiteral::Salmon => (250, 128, 114, 255),
            ColorLiteral::OrangeRed => (255, 69, 0, 255),
            ColorLiteral::Tomato => (255, 99, 71, 255),
            ColorLiteral::Coral => (255, 127, 80, 255),
            ColorLiteral::DarkOrange => (255, 140, 0, 255),
            ColorLiteral::LightSalmon => (255, 160, 122, 255),
            ColorLiteral::Orange => (255, 165, 0, 255),
            ColorLiteral::Gold => (255, 215, 0, 255),
            ColorLiteral::Yellow => (255, 255, 0, 255),
            ColorLiteral::Khaki => (240, 230, 140, 255),
            ColorLiteral::Wheat => (245, 222, 179, 255),
            ColorLiteral::Beige => (245, 245, 220, 255),
            ColorLiteral::AntiqueWhite => (250, 235, 215, 255),
            ColorLiteral::Linen => (250, 240, 230, 255),
            ColorLiteral::LightGoldenRodYellow => (250, 250, 210, 255),
            ColorLiteral::OldLace => (253, 245, 230, 255),
            ColorLiteral::PeachPuff => (255, 218, 185, 255),
            ColorLiteral::NavajoWhite => (255, 222, 173, 255),
            ColorLiteral::Moccasin => (255, 228, 181, 255),
            ColorLiteral::Bisque => (255, 228, 196, 255),
            ColorLiteral::BlanchedAlmond => (255, 235, 205, 255),
            ColorLiteral::PapayaWhip => (255, 239, 213, 255),
            ColorLiteral::LemonChiffon => (255, 250, 205, 255),
            ColorLiteral::LightYellow => (255, 255, 224, 255),
            ColorLiteral::Cornsilk => (255, 248, 220, 255),
            ColorLiteral::MistyRose => (255, 228, 225, 255),
            ColorLiteral::FloralWhite => (255, 250, 240, 255),
            ColorLiteral::SeaShell => (255, 245, 238, 255),
            ColorLiteral::Snow => (255, 250, 250, 255),
            ColorLiteral::Ivory => (255, 255, 240, 255),
            ColorLiteral::White => (255, 255, 255, 255),
            ColorLiteral::Black => (0, 0, 0, 255),
            ColorLiteral::DimGray => (105, 105, 105, 255),
            ColorLiteral::DarkGray => (169, 169, 169, 255),
            ColorLiteral::Gray => (128, 128, 128, 255),
            ColorLiteral::Silver => (192, 192, 192, 255),
            ColorLiteral::LightGray => (211, 211, 211, 255),
            ColorLiteral::Gainsboro => (220, 220, 220, 255),
            ColorLiteral::WhiteSmoke => (245, 245, 245, 255),
            ColorLiteral::DarkSlateGray => (47, 79, 79, 255),
            ColorLiteral::SlateGray => (112, 128, 144, 255),
            ColorLiteral::LightSlateGray => (119, 136, 153, 255),
            ColorLiteral::DarkGreen => (0, 100, 0, 255),
            ColorLiteral::Green => (0, 128, 0, 255),
            ColorLiteral::ForestGreen => (34, 139, 34, 255),
            ColorLiteral::DarkSeaGreen => (143, 188, 143, 255),
            ColorLiteral::SeaGreen => (46, 139, 87, 255),
            ColorLiteral::MediumSeaGreen => (60, 179, 113, 255),
            ColorLiteral::LightSeaGreen => (32, 178, 170, 255),
            ColorLiteral::LimeGreen => (50, 205, 50, 255),
            ColorLiteral::Lime => (0, 255, 0, 255),
            ColorLiteral::Chartreuse => (127, 255, 0, 255),
            ColorLiteral::LawnGreen => (124, 252, 0, 255),
            ColorLiteral::SpringGreen => (0, 255, 127, 255),
            ColorLiteral::MediumSpringGreen => (0, 250, 154, 255),
            ColorLiteral::DarkOliveGreen => (85, 107, 47, 255),
            ColorLiteral::OliveDrab => (107, 142, 35, 255),
            ColorLiteral::Olive => (128, 128, 0, 255),
            ColorLiteral::YellowGreen => (154, 205, 50, 255),
            ColorLiteral::GreenYellow => (173, 255, 47, 255),
            ColorLiteral::PaleGreen => (152, 251, 152, 255),
            ColorLiteral::LightGreen => (144, 238, 144, 255),
            ColorLiteral::HoneyDew => (240, 255, 240, 255),
            ColorLiteral::Teal => (0, 128, 128, 255),
            ColorLiteral::DarkCyan => (0, 139, 139, 255),
            ColorLiteral::CadetBlue => (95, 158, 160, 255),
            ColorLiteral::DarkTurquoise => (0, 206, 209, 255),
            ColorLiteral::Turquoise => (64, 224, 208, 255),
            ColorLiteral::MediumTurquoise => (72, 209, 204, 255),
            ColorLiteral::MediumAquaMarine => (102, 205, 170, 255),
            ColorLiteral::Aquamarine => (127, 255, 212, 255),
            ColorLiteral::MidnightBlue => (25, 25, 112, 255),
            ColorLiteral::Navy => (0, 0, 128, 255),
            ColorLiteral::DarkBlue => (0, 0, 139, 255),
            ColorLiteral::MediumBlue => (0, 0, 205, 255),
            ColorLiteral::RoyalBlue => (65, 105, 225, 255),
            ColorLiteral::CornflowerBlue => (100, 149, 237, 255),
            ColorLiteral::SteelBlue => (70, 130, 180, 255),
            ColorLiteral::Blue => (0, 0, 255, 255),
            ColorLiteral::DodgerBlue => (30, 144, 255, 255),
            ColorLiteral::PaleTurquoise => (175, 238, 238, 255),
            ColorLiteral::LightSteelBlue => (176, 196, 222, 255),
            ColorLiteral::PowderBlue => (176, 224, 230, 255),
            ColorLiteral::DeepSkyBlue => (0, 191, 255, 255),
            ColorLiteral::SkyBlue => (135, 206, 235, 255),
            ColorLiteral::LightSkyBlue => (135, 206, 250, 255),
            ColorLiteral::LightBlue => (173, 216, 230, 255),
            ColorLiteral::Aqua => (0, 255, 255, 255),
            ColorLiteral::Cyan => (0, 255, 255, 255),
            ColorLiteral::LightCyan => (224, 255, 255, 255),
            ColorLiteral::Azure => (240, 255, 255, 255),
            ColorLiteral::AliceBlue => (240, 248, 255, 255),
            ColorLiteral::MintCream => (245, 255, 250, 255),
            ColorLiteral::GhostWhite => (248, 248, 255, 255),
        }
    }

    pub fn to_rgba(&self) -> (r: Color)
        ensures
            r == Color::Rgba(self.spec_rgba().0, self.spec_rgba().1, self.spec_rgba().2, self.spec_rgba().3),
    {
        match self {
            ColorLiteral::Maroon => Color::Rgba(128, 0, 0, 255),
            ColorLiteral::DarkRed => Color::Rgba(139, 0, 0, 255),
            ColorLiteral::Brown => Color::Rgba(165, 42, 42, 255),
            ColorLiteral::FireBrick => Color::Rgba(178, 34, 34, 255),
            ColorLiteral::Crimson => Color::Rgba(220, 20, 60, 255),
            ColorLiteral::Red => Color::Rgba(255, 0, 0, 255),
            ColorLiteral::IndianRed => Color::Rgba(205, 92, 92, 255),
            ColorLiteral::SaddleBrown => Color::Rgba(139, 69, 19, 255),
            ColorLiteral::Sienna => Color::Rgba(160, 82, 45, 255),
            ColorLiteral::RosyBrown => Color::Rgba(188, 143, 143, 255),
            ColorLiteral::Chocolate => Color::Rgba(210, 105, 30, 255),
            ColorLiteral::Peru => Color::Rgba(205, 133, 63, 255),
            ColorLiteral::DarkGoldenRod => Color::Rgba(184, 134, 11, 255),
            ColorLiteral::DarkSalmon => Color::Rgba(233, 150, 122, 255),
            ColorLiteral::LightCoral => Color::Rgba(240, 128, 128, 255),
            ColorLiteral::GoldenRod => Color::Rgba(218, 165, 32, 255),
            ColorLiteral::Tan => Color::Rgba(210, 180, 140, 255),
            ColorLiteral::DarkKhaki => Color::Rgba(189, 183, 107, 255),
            ColorLiteral::BurlyWood => Color::Rgba(222, 184, 135, 255),
            ColorLiteral::PaleGoldenRod => Color::Rgba(238, 232, 170, 255),
            ColorLiteral::SandyBrown => Color::Rgba(244, 164, 96, 255),
            ColorLiteral::Salmon => Color::Rgba(250, 128, 114, 255),
            ColorLiteral::OrangeRed => Color::Rgba(255, 69, 0, 255),
            ColorLiteral::Tomato => Color::Rgba(255, 99, 71, 255),
            ColorLiteral::Coral => Color::Rgba(255, 127, 80, 255),
            ColorLiteral::DarkOrange => Color::Rgba(255, 140, 0, 255),
            ColorLiteral::LightSalmon => Color::Rgba(255, 160, 122, 255),
            ColorLiteral::Orange => Color::Rgba(255, 165, 0, 255),
            ColorLiteral::Gold => Color::Rgba(255, 215, 0, 255),
            ColorLiteral::Yellow => Color::Rgba(255, 255, 0, 255),
            ColorLiteral::Khaki => Color::Rgba(240, 230, 140, 255),
            ColorLiteral::Wheat => Color::Rgba(245, 222, 179, 255),
            ColorLiteral::Beige => Color::Rgba(245, 245, 220, 255),
            ColorLiteral::AntiqueWhite => Color::Rgba(250, 235, 215, 255),
            ColorLiteral::Linen => Color::Rgba(250, 240, 230, 255),
            ColorLiteral::LightGoldenRodYellow => Color::Rgba(250, 250, 210, 255),
            ColorLiteral::OldLace => Color::Rgba(253, 245, 230, 255),
            ColorLiteral::PeachPuff => Color::Rgba(255, 218, 185, 255),
            ColorLiteral::NavajoWhite => Color::Rgba(255, 222, 173, 255),
            ColorLiteral::Moccasin => Color::Rgba(255, 228, 181, 255),
            ColorLiteral::Bisque => Color::Rgba(255, 228, 196, 255),
            ColorLiteral::BlanchedAlmond => Color::Rgba(255, 235, 205, 255),
            ColorLiteral::PapayaWhip => Color::Rgba(255, 239, 213, 255),
            ColorLiteral::LemonChiffon => Color::Rgba(255, 250, 205, 255),
            ColorLiteral::LightYellow => Color::Rgba(255, 255, 224, 255),
            ColorLiteral::Cornsilk => Color::Rgba(255, 248, 220, 255),
            ColorLiteral::MistyRose => Color::Rgba(255, 228, 225, 255),
            ColorLiteral::FloralWhite => Color::Rgba(255, 250, 240, 255),
            ColorLiteral::SeaShell => Color::Rgba(255, 245, 238, 255),
            ColorLiteral::Snow => Color::Rgba(255, 250, 250, 255),
            ColorLiteral::Ivory => Color::Rgba(255, 255, 240, 255),
            ColorLiteral::White => Color::Rgba(255, 255, 255, 255),
            ColorLiteral::Black => Color::Rgba(0, 0, 0, 255),
            ColorLiteral::DimGray => Color::Rgba(105, 105, 105, 255),
            ColorLiteral::DarkGray => Color::Rgba(169, 169, 169, 255),
            ColorLiteral::Gray => Color::Rgba(128, 128, 128, 255),
            ColorLiteral::Silver => Color::Rgba(192, 192, 192, 255),
            ColorLiteral::LightGray => Color::Rgba(211, 211, 211, 255),
            ColorLiteral::Gainsboro => Color::Rgba(220, 220, 220, 255),
            ColorLiteral::WhiteSmoke => Color::Rgba(245, 245, 245, 255),
            ColorLiteral::DarkSlateGray => Color::Rgba(47, 79, 79, 255),
            ColorLiteral::SlateGray => Color::Rgba(112, 128, 144, 255),
            ColorLiteral::LightSlateGray => Color::Rgba(119, 136, 153, 255),
            ColorLiteral::DarkGreen => Color::Rgba(0, 100, 0, 255),
            ColorLiteral::Green => Color::Rgba(0, 128, 0, 255),
            ColorLiteral::ForestGreen => Color::Rgba(34, 139, 34, 255),
            ColorLiteral::DarkSeaGreen => Color::Rgba(143, 188, 143, 255),
            ColorLiteral::SeaGreen => Color::Rgba(46, 139, 87, 255),
            ColorLiteral::MediumSeaGreen => Color::Rgba(60, 179, 113, 255),
            ColorLiteral::LightSeaGreen => Color::Rgba(32, 178, 170, 255),
            ColorLiteral::LimeGreen => Color::Rgba(50, 205, 50, 255),
            ColorLiteral::Lime => Color::Rgba(0, 255, 0, 255),
            ColorLiteral::Chartreuse => Color::Rgba(127, 255, 0, 255),
            ColorLiteral::LawnGreen => Color::Rgba(124, 252, 0, 255),
            ColorLiteral::SpringGreen => Color::Rgba(0, 255, 127, 255),
            ColorLiteral::MediumSpringGreen => Color::Rgba(0, 250, 154, 255),
            ColorLiteral::DarkOliveGreen => Color::Rgba(85, 107, 47, 255),
            ColorLiteral::OliveDrab => Color::Rgba(107, 142, 35, 255),
            ColorLiteral::Olive => Color::Rgba(128, 128, 0, 255),
            ColorLiteral::YellowGreen => Color::Rgba(154, 205, 50, 255),
            ColorLiteral::GreenYellow => Color::Rgba(173, 255, 47, 255),
            ColorLiteral::PaleGreen => Color::Rgba(152, 251, 152, 255),
            ColorLiteral::LightGreen => Color::Rgba(144, 238, 144, 255),
            ColorLiteral::HoneyDew => Color::Rgba(240, 255, 240, 255),
            ColorLiteral::Teal => Color::Rgba(0, 128, 128, 255),
            ColorLiteral::DarkCyan => Color::Rgba(0, 139, 139, 255),
            ColorLiteral::CadetBlue => Color::Rgba(95, 158, 160, 255),
            ColorLiteral::DarkTurquoise => Color::Rgba(0, 206, 209, 255),
            ColorLiteral::Turquoise => Color::Rgba(64, 224, 208, 255),
            ColorLiteral::MediumTurquoise => Color::Rgba(72, 209, 204, 255),
            ColorLiteral::MediumAquaMarine => Color::Rgba(102, 205, 170, 255),
            ColorLiteral::Aquamarine => Color::Rgba(127, 255, 212, 255),
            ColorLiteral::MidnightBlue => Color::Rgba(25, 25, 112, 255),
            ColorLiteral::Navy => Color::Rgba(0, 0, 128, 255),
            ColorLiteral::DarkBlue => Color::Rgba(0, 0, 139, 255),
            ColorLiteral::MediumBlue => Color::Rgba(0, 0, 205, 255),
            ColorLiteral::RoyalBlue => Color::Rgba(65, 105, 225, 255),
            ColorLiteral::CornflowerBlue => Color::Rgba(100, 149, 237, 255),
            ColorLiteral::SteelBlue => Color::Rgba(70, 130, 180, 255),
            ColorLiteral::Blue => Color::Rgba(0, 0, 255, 255),
            ColorLiteral::DodgerBlue => Color::Rgba(30, 144, 255, 255),
            ColorLiteral::PaleTurquoise => Color::Rgba(175, 238, 238, 255),
            ColorLiteral::LightSteelBlue => Color::Rgba(176, 196, 222, 255),
            ColorLiteral::PowderBlue => Color::Rgba(176, 224, 230, 255),
            ColorLiteral::DeepSkyBlue => Color::Rgba(0, 191, 255, 255),
            ColorLiteral::SkyBlue => Color::Rgba(135, 206, 235, 255),
            ColorLiteral::LightSkyBlue => Color::Rgba(135, 206, 250, 255),
            ColorLiteral::LightBlue => Color::Rgba(173, 216, 230, 255),
            ColorLiteral::Aqua => Color::Rgba(0, 255, 255, 255),
            ColorLiteral::Cyan => Color::Rgba(0, 255, 255, 255),
            ColorLiteral::LightCyan => Color::Rgba(224, 255, 255, 255),
            ColorLiteral::Azure => Color::Rgba(240, 255, 255, 255),
            ColorLiteral::AliceBlue => Color::Rgba(240, 248, 255, 255),
            ColorLiteral::MintCream => Color::Rgba(245, 255, 250, 255),
            ColorLiteral::GhostWhite => Color::Rgba(248, 248, 255, 255),
        }
    }

    /// The six hex digits of the color.
    pub open spec fn spec_hex(&self) -> Seq<u8> {
        match self {
            ColorLiteral::Maroon => seq![56u8, 48u8, 48u8, 48u8, 48u8, 48u8],
            ColorLiteral::DarkRed => seq![56u8, 98u8, 48u8, 48u8, 48u8, 48u8],
            ColorLiteral::Brown => seq![97u8, 53u8, 50u8, 97u8, 50u8, 97u8],
            ColorLiteral::FireBrick => seq![98u8, 50u8, 50u8, 50u8, 50u8, 50u8],
            ColorLiteral::Crimson => seq![100u8, 99u8, 49u8, 52u8, 51u8, 99u8],
            ColorLiteral::Red => seq![102u8, 102u8, 48u8, 48u8, 48u8, 48u8],
            ColorLiteral::IndianRed => seq![99u8, 100u8, 53u8, 99u8, 53u8, 99u8],
            ColorLiteral::SaddleBrown => seq![56u8, 98u8, 52u8, 53u8, 49u8, 51u8],
            ColorLiteral::Sienna => seq![97u8, 48u8, 53u8, 50u8, 50u8, 100u8],
            ColorLiteral::RosyBrown => seq![98u8, 99u8, 56u8, 102u8, 56u8, 102u8],
            ColorLiteral::Chocolate => seq![100u8, 50u8, 54u8, 57u8, 49u8, 101u8],
            ColorLiteral::Peru => seq![99u8, 100u8, 56u8, 53u8, 51u8, 102u8],
            ColorLiteral::DarkGoldenRod => seq![98u8, 56u8, 56u8, 54u8, 48u8, 98u8],
            ColorLiteral::DarkSalmon => seq![101u8, 57u8, 57u8, 54u8, 55u8, 97u8],
            ColorLiteral::LightCoral => seq![102u8, 48u8, 56u8, 48u8, 56u8, 48u8],
            ColorLiteral::GoldenRod => seq![100u8, 97u8, 97u8, 53u8, 50u8, 48u8],
            ColorLiteral::Tan => seq![100u8, 50u8, 98u8, 52u8, 56u8, 99u8],
            ColorLiteral::DarkKhaki => seq![98u8, 100u8, 98u8, 55u8, 54u8, 98u8],
            ColorLiteral::BurlyWood => seq![100u8, 101u8, 98u8, 56u8, 56u8, 55u8],
            ColorLiteral::PaleGoldenRod => seq![101u8, 101u8, 101u8, 56u8, 97u8, 97u8],
            ColorLiteral::SandyBrown => seq![102u8, 52u8, 97u8, 52u8, 54u8, 48u8],
            ColorLiteral::Salmon => seq![102u8, 97u8, 56u8, 48u8, 55u8, 50u8],
            ColorLiteral::OrangeRed => seq![102u8, 102u8, 52u8, 53u8, 48u8, 48u8],
            ColorLiteral::Tomato => seq![102u8, 102u8, 54u8, 51u8, 52u8, 55u8],
            ColorLiteral::Coral => seq![102u8, 102u8, 55u8, 102u8, 53u8, 48u8],
            ColorLiteral::DarkOrange => seq![102u8, 102u8, 56u8, 99u8, 48u8, 48u8],
            ColorLiteral::LightSalmon => seq![102u8, 102u8, 97u8, 48u8, 55u8, 97u8],
            ColorLiteral::Orange => seq![102u8, 102u8, 97u8, 53u8, 48u8, 48u8],
            ColorLiteral::Gold => seq![102u8, 102u8, 100u8, 55u8, 48u8, 48u8],
            ColorLiteral::Yellow => seq![102u8, 102u8, 102u8, 102u8, 48u8, 48u8],
            ColorLiteral::Khaki => seq![102u8, 48u8, 101u8, 54u8, 56u8, 99u8],
            ColorLiteral::Wheat => seq![102u8, 53u8, 100u8, 101u8, 98u8, 51u8],
            ColorLiteral::Beige => seq![102u8, 53u8, 102u8, 53u8, 100u8, 99u8],
            ColorLiteral::AntiqueWhite => seq![102u8, 97u8, 101u8, 98u8, 100u8, 55u8],
            ColorLiteral::Linen => seq![102u8, 97u8, 102u8, 48u8, 101u8, 54u8],
            ColorLiteral::LightGoldenRodYellow => seq![102u8, 97u8, 102u8, 97u8, 100u8, 50u8],
            ColorLiteral::OldLace => seq![102u8, 100u8, 102u8, 53u8, 101u8, 54u8],
            ColorLiteral::PeachPuff => seq![102u8, 102u8, 100u8, 97u8, 98u8, 57u8],
            ColorLiteral::NavajoWhite => seq![102u8, 102u8, 100u8, 101u8, 97u8, 100u8],
            ColorLiteral::Moccasin => seq![102u8, 102u8, 101u8, 52u8, 98u8, 53u8],
            ColorLiteral::Bisque => seq![102u8, 102u8, 101u8, 52u8, 99u8, 52u8],
            ColorLiteral::BlanchedAlmond => seq![102u8, 102u8, 101u8, 98u8, 99u8, 100u8],
            ColorLiteral::PapayaWhip => seq![102u8, 102u8, 101u8, 102u8, 100u8, 53u8],
            ColorLiteral::LemonChiffon => seq![102u8, 102u8, 102u8, 97u8, 99u8, 100u8],
            ColorLiteral::LightYellow => seq![102u8, 102u8, 102u8, 102u8, 101u8, 48u8],
            ColorLiteral::Cornsilk => seq![102u8, 102u8, 102u8, 56u8, 100u8, 99u8],
            ColorLiteral::MistyRose => seq![102u8, 102u8, 101u8, 52u8, 101u8, 49u8],
            ColorLiteral::FloralWhite => seq![102u8, 102u8, 102u8, 97u8, 102u8, 48u8],
            ColorLiteral::SeaShell => seq![102u8, 102u8, 102u8, 53u8, 101u8, 101u8],
            ColorLiteral::Snow => seq![102u8, 102u8, 102u8, 97u8, 102u8, 97u8],
            ColorLiteral::Ivory => seq![102u8, 102u8, 102u8, 102u8, 102u8, 48u8],
            ColorLiteral::White => seq![102u8, 102u8, 102u8, 102u8, 102u8, 102u8],
            ColorLiteral::Black => seq![48u8, 48u8, 48u8, 48u8, 48u8, 48u8],
            ColorLiteral::DimGray => seq![54u8, 57u8, 54u8, 57u8, 54u8, 57u8],
            ColorLiteral::DarkGray => seq![97u8, 57u8, 97u8, 57u8, 97u8, 57u8],
            ColorLiteral::Gray => seq![56u8, 48u8, 56u8, 48u8, 56u8, 48u8],
            ColorLiteral::Silver => seq![99u8, 48u8, 99u8, 48u8, 99u8, 48u8],
            ColorLiteral::LightGray => seq![100u8, 51u8, 100u8, 51u8, 100u8, 51u8],
            ColorLiteral::Gainsboro => seq![100u8, 99u8, 100u8, 99u8, 100u8, 99u8],
            ColorLiteral::WhiteSmoke => seq![102u8, 53u8, 102u8, 53u8, 102u8, 53u8],
            ColorLiteral::DarkSlateGray => seq![50u8, 102u8, 52u8, 102u8, 52u8, 102u8],
            ColorLiteral::SlateGray => seq![55u8, 48u8, 56u8, 48u8, 57u8, 48u8],
            ColorLiteral::LightSlateGray => seq![55u8, 55u8, 56u8, 56u8, 57u8, 57u8],
            ColorLiteral::DarkGreen => seq![48u8, 48u8, 54u8, 52u8, 48u8, 48u8],
            ColorLiteral::Green => seq![48u8, 48u8, 56u8, 48u8, 48u8, 48u8],
            ColorLiteral::ForestGreen => seq![50u8, 50u8, 56u8, 98u8, 50u8, 50u8],
            ColorLiteral::DarkSeaGreen => seq![56u8, 102u8, 98u8, 99u8, 56u8, 102u8],
            ColorLiteral::SeaGreen => seq![50u8, 101u8, 56u8, 98u8, 53u8, 55u8],
            ColorLiteral::MediumSeaGreen => seq![51u8, 99u8, 98u8, 51u8, 55u8, 49u8],
            ColorLiteral::LightSeaGreen => seq![50u8, 48u8, 98u8, 50u8, 97u8, 97u8],
            ColorLiteral::LimeGreen => seq![51u8, 50u8, 99u8, 100u8, 51u8, 50u8],
            ColorLiteral::Lime => seq![48u8, 48u8, 102u8, 102u8, 48u8, 48u8],
            ColorLiteral::Chartreuse => seq![55u8, 102u8, 102u8, 102u8, 48u8, 48u8],
            ColorLiteral::LawnGreen => seq![55u8, 99u8, 102u8, 99u8, 48u8, 48u8],
            ColorLiteral::SpringGreen => seq![48u8, 48u8, 102u8, 102u8, 55u8, 102u8],
            ColorLiteral::MediumSpringGreen => seq![48u8, 48u8, 102u8, 97u8, 57u8, 97u8],
            ColorLiteral::DarkOliveGreen => seq![53u8, 53u8, 54u8, 98u8, 50u8, 102u8],
            ColorLiteral::OliveDrab => seq![54u8, 98u8, 56u8, 101u8, 50u8, 51u8],
            ColorLiteral::Olive => seq![56u8, 48u8, 56u8, 48u8, 48u8, 48u8],
            ColorLiteral::YellowGreen => seq![57u8, 97u8, 99u8, 100u8, 51u8, 50u8],
            ColorLiteral::GreenYellow => seq![97u8, 100u8, 102u8, 102u8, 50u8, 102u8],
            ColorLiteral::PaleGreen => seq![57u8, 56u8, 102u8, 98u8, 57u8, 56u8],
            ColorLiteral::LightGreen => seq![57u8, 48u8, 101u8, 101u8, 57u8, 48u8],
            ColorLiteral::HoneyDew => seq![102u8, 48u8, 102u8, 102u8, 102u8, 48u8],
            ColorLiteral::Teal => seq![48u8, 48u8, 56u8, 48u8, 56u8, 48u8],
            ColorLiteral::DarkCyan => seq![48u8, 48u8, 56u8, 98u8, 56u8, 98u8],
            ColorLiteral::CadetBlue => seq![53u8, 102u8, 57u8, 101u8, 97u8, 48u8],
            ColorLiteral::DarkTurquoise => seq![48u8, 48u8, 99u8, 101u8, 100u8, 49u8],
            ColorLiteral::Turquoise => seq![52u8, 48u8, 101u8, 48u8, 100u8, 48u8],
            ColorLiteral::MediumTurquoise => seq![52u8, 56u8, 100u8, 49u8, 99u8, 99u8],
            ColorLiteral::MediumAquaMarine => seq![54u8, 54u8, 99u8, 100u8, 97u8, 97u8],
            ColorLiteral::Aquamarine => seq![55u8, 102u8, 102u8, 102u8, 100u8, 52u8],
            ColorLiteral::MidnightBlue => seq![49u8, 57u8, 49u8, 57u8, 55u8, 48u8],
            ColorLiteral::Navy => seq![48u8, 48u8, 48u8, 48u8, 56u8, 48u8],
            ColorLiteral::DarkBlue => seq![48u8, 48u8, 48u8, 48u8, 56u8, 98u8],
            ColorLiteral::MediumBlue => seq![48u8, 48u8, 48u8, 48u8, 99u8, 100u8],
            ColorLiteral::RoyalBlue => seq![52u8, 49u8, 54u8, 57u8, 101u8, 49u8],
            ColorLiteral::CornflowerBlue => seq![54u8, 52u8, 57u8, 53u8, 101u8, 100u8],
            ColorLiteral::SteelBlue => seq![52u8, 54u8, 56u8, 50u8, 98u8, 52u8],
            ColorLiteral::Blue => seq![48u8, 48u8, 48u8, 48u8, 102u8, 102u8],
            ColorLiteral::DodgerBlue => seq![49u8, 101u8, 57u8, 48u8, 102u8, 102u8],
            ColorLiteral::PaleTurquoise => seq![97u8, 102u8, 101u8, 101u8, 101u8, 101u8],
            ColorLiteral::LightSteelBlue => seq![98u8, 48u8, 99u8, 52u8, 100u8, 101u8],
            ColorLiteral::PowderBlue => seq![98u8, 48u8, 101u8, 48u8, 101u8, 54u8],
            ColorLiteral::DeepSkyBlue => seq![48u8, 48u8, 98u8, 102u8, 102u8, 102u8],
            ColorLiteral::SkyBlue => seq![56u8, 55u8, 99u8, 101u8, 101u8, 98u8],
            ColorLiteral::LightSkyBlue => seq![56u8, 55u8, 99u8, 101u8, 102u8, 97u8],
            ColorLiteral::LightBlue => seq![97u8, 100u8, 100u8, 56u8, 101u8, 54u8],
            ColorLiteral::Aqua => seq![48u8, 48u8, 102u8, 102u8, 102u8, 102u8],
            ColorLiteral::Cyan => seq![48u8, 48u8, 102u8, 102u8, 102u8, 102u8],
            ColorLiteral::LightCyan => seq![101u8, 48u8, 102u8, 102u8, 102u8, 102u8],
            ColorLiteral::Azure => seq![102u8, 48u8, 102u8, 102u8, 102u8, 102u8],
            ColorLiteral::AliceBlue => seq![102u8, 48u8, 102u8, 56u8, 102u8, 102u8],
            ColorLiteral::MintCream => seq![102u8, 53u8, 102u8, 102u8, 102u8, 97u8],
            ColorLiteral::GhostWhite => seq![102u8, 56u8, 102u8, 56u8, 102u8, 102u8],
        }
    }

    pub fn to_hex(&self) -> (r: Color)
        ensures
            r matches Color::Hex(h) && h@ == self.spec_hex(),
    {
        let digits: &[u8] = match self {
            ColorLiteral::Maroon => &[56u8, 48u8, 48u8, 48u8, 48u8, 48u8],
            ColorLiteral::DarkRed => &[56u8, 98u8, 48u8, 48u8, 48u8, 48u8],
            ColorLiteral::Brown => &[97u8, 53u8, 50u8, 97u8, 50u8, 97u8],
            ColorLiteral::FireBrick => &[98u8, 50u8, 50u8, 50u8, 50u8, 50u8],
            ColorLiteral::Crimson => &[100u8, 99u8, 49u8, 52u8, 51u8, 99u8],
            ColorLiteral::Red => &[102u8, 102u8, 48u8, 48u8, 48u8, 48u8],
            ColorLiteral::IndianRed => &[99u8, 100u8, 53u8, 99u8, 53u8, 99u8],
            ColorLiteral::SaddleBrown => &[56u8, 98u8, 52u8, 53u8, 49u8, 51u8],
            ColorLiteral::Sienna => &[97u8, 48u8, 53u8, 50u8, 50u8, 100u8],
            ColorLiteral::RosyBrown => &[98u8, 99u8, 56u8, 102u8, 56u8, 102u8],
            ColorLiteral::Chocolate => &[100u8, 50u8, 54u8, 57u8, 49u8, 101u8],
            ColorLiteral::Peru => &[99u8, 100u8, 56u8, 53u8, 51u8, 102u8],
            ColorLiteral::DarkGoldenRod => &[98u8, 56u8, 56u8, 54u8, 48u8, 98u8],
            ColorLiteral::DarkSalmon => &[101u8, 57u8, 57u8, 54u8, 55u8, 97u8],
            ColorLiteral::LightCoral => &[102u8, 48u8, 56u8, 48u8, 56u8, 48u8],
            ColorLiteral::GoldenRod => &[100u8, 97u8, 97u8, 53u8, 50u8, 48u8],
            ColorLiteral::Tan => &[100u8, 50u8, 98u8, 52u8, 56u8, 99u8],
            ColorLiteral::DarkKhaki => &[98u8, 100u8, 98u8, 55u8, 54u8, 98u8],
            ColorLiteral::BurlyWood => &[100u8, 101u8, 98u8, 56u8, 56u8, 55u8],
            ColorLiteral::PaleGoldenRod => &[101u8, 101u8, 101u8, 56u8, 97u8, 97u8],
            ColorLiteral::SandyBrown => &[102u8, 52u8, 97u8, 52u8, 54u8, 48u8],
            ColorLiteral::Salmon => &[102u8, 97u8, 56u8, 48u8, 55u8, 50u8],
            ColorLiteral::OrangeRed => &[102u8, 102u8, 52u8, 53u8, 48u8, 48u8],
            ColorLiteral::Tomato => &[102u8, 102u8, 54u8, 51u8, 52u8, 55u8],
            ColorLiteral::Coral => &[102u8, 102u8, 55u8, 102u8, 53u8, 48u8],
            ColorLiteral::DarkOrange => &[102u8, 102u8, 56u8, 99u8, 48u8, 48u8],
            ColorLiteral::LightSalmon => &[102u8, 102u8, 97u8, 48u8, 55u8, 97u8],
            ColorLiteral::Orange => &[102u8, 102u8, 97u8, 53u8, 48u8, 48u8],
            ColorLiteral::Gold => &[102u8, 102u8, 100u8, 55u8, 48u8, 48u8],
            ColorLiteral::Yellow => &[102u8, 102u8, 102u8, 102u8, 48u8, 48u8],
            ColorLiteral::Khaki => &[102u8, 48u8, 101u8, 54u8, 56u8, 99u8],
            ColorLiteral::Wheat => &[102u8, 53u8, 100u8, 101u8, 98u8, 51u8],
            ColorLiteral::Beige => &[102u8, 53u8, 102u8, 53u8, 100u8, 99u8],
            ColorLiteral::AntiqueWhite => &[102u8, 97u8, 101u8, 98u8, 100u8, 55u8],
            ColorLiteral::Linen => &[102u8, 97u8, 102u8, 48u8, 101u8, 54u8],
            ColorLiteral::LightGoldenRodYellow => &[102u8, 97u8, 102u8, 97u8, 100u8, 50u8],
            ColorLiteral::OldLace => &[102u8, 100u8, 102u8, 53u8, 101u8, 54u8],
            ColorLiteral::PeachPuff => &[102u8, 102u8, 100u8, 97u8, 98u8, 57u8],
            ColorLiteral::NavajoWhite => &[102u8, 102u8, 100u8, 101u8, 97u8, 100u8],
            ColorLiteral::Moccasin => &[102u8, 102u8, 101u8, 52u8, 98u8, 53u8],
            ColorLiteral::Bisque => &[102u8, 102u8, 101u8, 52u8, 99u8, 52u8],
            ColorLiteral::BlanchedAlmond => &[102u8, 102u8, 101u8, 98u8, 99u8, 100u8],
            ColorLiteral::PapayaWhip => &[102u8, 102u8, 101u8, 102u8, 100u8, 53u8],
            ColorLiteral::LemonChiffon => &[102u8, 102u8, 102u8, 97u8, 99u8, 100u8],
            ColorLiteral::LightYellow => &[102u8, 102u8, 102u8, 102u8, 101u8, 48u8],
            ColorLiteral::Cornsilk => &[102u8, 102u8, 102u8, 56u8, 100u8, 99u8],
            ColorLiteral::MistyRose => &[102u8, 102u8, 101u8, 52u8, 101u8, 49u8],
            ColorLiteral::FloralWhite => &[102u8, 102u8, 102u8, 97u8, 102u8, 48u8],
            ColorLiteral::SeaShell => &[102u8, 102u8, 102u8, 53u8, 101u8, 101u8],
            ColorLiteral::Snow => &[102u8, 102u8, 102u8, 97u8, 102u8, 97u8],
            ColorLiteral::Ivory => &[102u8, 102u8, 102u8, 102u8, 102u8, 48u8],
            ColorLiteral::White => &[102u8, 102u8, 102u8, 102u8, 102u8, 102u8],
            ColorLiteral::Black => &[48u8, 48u8, 48u8, 48u8, 48u8, 48u8],
            ColorLiteral::DimGray => &[54u8, 57u8, 54u8, 57u8, 54u8, 57u8],
            ColorLiteral::DarkGray => &[97u8, 57u8, 97u8, 57u8, 97u8, 57u8],
            ColorLiteral::Gray => &[56u8, 48u8, 56u8, 48u8, 56u8, 48u8],
            ColorLiteral::Silver => &[99u8, 48u8, 99u8, 48u8, 99u8, 48u8],
            ColorLiteral::LightGray => &[100u8, 51u8, 100u8, 51u8, 100u8, 51u8],
            ColorLiteral::Gainsboro => &[100u8, 99u8, 100u8, 99u8, 100u8, 99u8],
            ColorLiteral::WhiteSmoke => &[102u8, 53u8, 102u8, 53u8, 102u8, 53u8],
            ColorLiteral::DarkSlateGray => &[50u8, 102u8, 52u8, 102u8, 52u8, 102u8],
            ColorLiteral::SlateGray => &[55u8, 48u8, 56u8, 48u8, 57u8, 48u8],
            ColorLiteral::LightSlateGray => &[55u8, 55u8, 56u8, 56u8, 57u8, 57u8],
            ColorLiteral::DarkGreen => &[48u8, 48u8, 54u8, 52u8, 48u8, 48u8],
            ColorLiteral::Green => &[48u8, 48u8, 56u8, 48u8, 48u8, 48u8],
            ColorLiteral::ForestGreen => &[50u8, 50u8, 56u8, 98u8, 50u8, 50u8],
            ColorLiteral::DarkSeaGreen => &[56u8, 102u8, 98u8, 99u8, 56u8, 102u8],
            ColorLiteral::SeaGreen => &[50u8, 101u8, 56u8, 98u8, 53u8, 55u8],
            ColorLiteral::MediumSeaGreen => &[51u8, 99u8, 98u8, 51u8, 55u8, 49u8],
            ColorLiteral::LightSeaGreen => &[50u8, 48u8, 98u8, 50u8, 97u8, 97u8],
            ColorLiteral::LimeGreen => &[51u8, 50u8, 99u8, 100u8, 51u8, 50u8],
            ColorLiteral::Lime => &[48u8, 48u8, 102u8, 102u8, 48u8, 48u8],
            ColorLiteral::Chartreuse => &[55u8, 102u8, 102u8, 102u8, 48u8, 48u8],
            ColorLiteral::LawnGreen => &[55u8, 99u8, 102u8, 99u8, 48u8, 48u8],
            ColorLiteral::SpringGreen => &[48u8, 48u8, 102u8, 102u8, 55u8, 102u8],
            ColorLiteral::MediumSpringGreen => &[48u8, 48u8, 102u8, 97u8, 57u8, 97u8],
            ColorLiteral::DarkOliveGreen => &[53u8, 53u8, 54u8, 98u8, 50u8, 102u8],
            ColorLiteral::OliveDrab => &[54u8, 98u8, 56u8, 101u8, 50u8, 51u8],
            ColorLiteral::Olive => &[56u8, 48u8, 56u8, 48u8, 48u8, 48u8],
            ColorLiteral::YellowGreen => &[57u8, 97u8, 99u8, 100u8, 51u8, 50u8],
            ColorLiteral::GreenYellow => &[97u8, 100u8, 102u8, 102u8, 50u8, 102u8],
            ColorLiteral::PaleGreen => &[57u8, 56u8, 102u8, 98u8, 57u8, 56u8],
            ColorLiteral::LightGreen => &[57u8, 48u8, 101u8, 101u8, 57u8, 48u8],
            ColorLiteral::HoneyDew => &[102u8, 48u8, 102u8, 102u8, 102u8, 48u8],
            ColorLiteral::Teal => &[48u8, 48u8, 56u8, 48u8, 56u8, 48u8],
            ColorLiteral::DarkCyan => &[48u8, 48u8, 56u8, 98u8, 56u8, 98u8],
            ColorLiteral::CadetBlue => &[53u8, 102u8, 57u8, 101u8, 97u8, 48u8],
            ColorLiteral::DarkTurquoise => &[48u8, 48u8, 99u8, 101u8, 100u8, 49u8],
            ColorLiteral::Turquoise => &[52u8, 48u8, 101u8, 48u8, 100u8, 48u8],
            ColorLiteral::MediumTurquoise => &[52u8, 56u8, 100u8, 49u8, 99u8, 99u8],
            ColorLiteral::MediumAquaMarine => &[54u8, 54u8, 99u8, 100u8, 97u8, 97u8],
            ColorLiteral::Aquamarine => &[55u8, 102u8, 102u8, 102u8, 100u8, 52u8],
            ColorLiteral::MidnightBlue => &[49u8, 57u8, 49u8, 57u8, 55u8, 48u8],
            ColorLiteral::Navy => &[48u8, 48u8, 48u8, 48u8, 56u8, 48u8],
            ColorLiteral::DarkBlue => &[48u8, 48u8, 48u8, 48u8, 56u8, 98u8],
            ColorLiteral::MediumBlue => &[48u8, 48u8, 48u8, 48u8, 99u8, 100u8],
            ColorLiteral::RoyalBlue => &[52u8, 49u8, 54u8, 57u8, 101u8, 49u8],
            ColorLiteral::CornflowerBlue => &[54u8, 52u8, 57u8, 53u8, 101u8, 100u8],
            ColorLiteral::SteelBlue => &[52u8, 54u8, 56u8, 50u8, 98u8, 52u8],
            ColorLiteral::Blue => &[48u8, 48u8, 48u8, 48u8, 102u8, 102u8],
            ColorLiteral::DodgerBlue => &[49u8, 101u8, 57u8, 48u8, 102u8, 102u8],
            ColorLiteral::PaleTurquoise => &[97u8, 102u8, 101u8, 101u8, 101u8, 101u8],
            ColorLiteral::LightSteelBlue => &[98u8, 48u8, 99u8, 52u8, 100u8, 101u8],
            ColorLiteral::PowderBlue => &[98u8, 48u8, 101u8, 48u8, 101u8, 54u8],
            ColorLiteral::DeepSkyBlue => &[48u8, 48u8, 98u8, 102u8, 102u8, 102u8],
            ColorLiteral::SkyBlue => &[56u8, 55u8, 99u8, 101u8, 101u8, 98u8],
            ColorLiteral::LightSkyBlue => &[56u8, 55u8, 99u8, 101u8, 102u8, 97u8],
            ColorLiteral::LightBlue => &[97u8, 100u8, 100u8, 56u8, 101u8, 54u8],
            ColorLiteral::Aqua => &[48u8, 48u8, 102u8, 102u8, 102u8, 102u8],
            ColorLiteral::Cyan => &[48u8, 48u8, 102u8, 102u8, 102u8, 102u8],
            ColorLiteral::LightCyan => &[101u8, 48u8, 102u8, 102u8, 102u8, 102u8],
            ColorLiteral::Azure => &[102u8, 48u8, 102u8, 102u8, 102u8, 102u8],
            ColorLiteral::AliceBlue => &[102u8, 48u8, 102u8, 56u8, 102u8, 102u8],
            ColorLiteral::MintCream => &[102u8, 53u8, 102u8, 102u8, 102u8, 97u8],
            ColorLiteral::GhostWhite => &[102u8, 56u8, 102u8, 56u8, 102u8, 102u8],
        };
        proof {
            assert(digits@ == self.spec_hex());
        }
        Color::Hex(vstd::slice::slice_to_vec(digits))
    }

    /// Hue, saturation and lightness of the color, as decimal texts.
    pub open spec fn spec_hsl(&self) -> (Seq<u8>, Seq<u8>, Seq<u8>) {
        match self {
            ColorLiteral::Maroon => (seq![48u8, 46u8, 48u8], seq![49u8, 48u8, 48u8, 46u8, 48u8], seq![50u8, 53u8, 46u8, 48u8]),
            ColorLiteral::DarkRed => (seq![48u8, 46u8, 48u8], seq![49u8, 48u8, 48u8, 46u8, 48u8], seq![50u8, 55u8, 46u8, 48u8]),
            ColorLiteral::Brown => (seq![48u8, 46u8, 48u8], seq![53u8, 57u8, 46u8, 48u8], seq![52u8, 48u8, 46u8, 48u8]),
            ColorLiteral::FireBrick => (seq![48u8, 46u8, 48u8], seq![54u8, 55u8, 46u8, 48u8], seq![52u8, 49u8, 46u8, 48u8]),
            ColorLiteral::Crimson => (seq![51u8, 52u8, 56u8, 46u8, 48u8], seq![56u8, 51u8, 46u8, 48u8], seq![52u8, 55u8, 46u8, 48u8]),
            ColorLiteral::Red => (seq![48u8, 46u8, 48u8], seq![49u8, 48u8, 48u8, 46u8, 48u8], seq![53u8, 48u8, 46u8, 48u8]),
            ColorLiteral::IndianRed => (seq![48u8, 46u8, 48u8], seq![53u8, 51u8, 46u8, 48u8], seq![53u8, 56u8, 46u8, 48u8]),
            ColorLiteral::SaddleBrown => (seq![50u8, 52u8, 46u8, 48u8], seq![55u8, 53u8, 46u8, 48u8], seq![51u8, 48u8, 46u8, 48u8]),
            ColorLiteral::Sienna => (seq![49u8, 57u8, 46u8, 48u8], seq![53u8, 54u8, 46u8, 48u8], seq![52u8, 48u8, 46u8, 48u8]),
            ColorLiteral::RosyBrown => (seq![48u8, 46u8, 48u8], seq![50u8, 53u8, 46u8, 48u8], seq![54u8, 52u8, 46u8, 48u8]),
            ColorLiteral::Chocolate => (seq![50u8, 52u8, 46u8, 48u8], seq![55u8, 52u8, 46u8, 48u8], seq![52u8, 55u8, 46u8, 48u8]),
            ColorLiteral::Peru => (seq![50u8, 57u8, 46u8, 48u8], seq![53u8, 56u8, 46u8, 48u8], seq![53u8, 50u8, 46u8, 48u8]),
            ColorLiteral::DarkGoldenRod => (seq![52u8, 50u8, 46u8, 48u8], seq![56u8, 56u8, 46u8, 48u8], seq![51u8, 56u8, 46u8, 48u8]),
            ColorLiteral::DarkSalmon => (seq![49u8, 53u8, 46u8, 48u8], seq![55u8, 49u8, 46u8, 48u8], seq![54u8, 57u8, 46u8, 48u8]),
            ColorLiteral::LightCoral => (seq![48u8, 46u8, 48u8], seq![55u8, 56u8, 46u8, 48u8], seq![55u8, 50u8, 46u8, 48u8]),
            ColorLiteral::GoldenRod => (seq![52u8, 50u8, 46u8, 48u8], seq![56u8, 56u8, 46u8, 48u8], seq![51u8, 56u8, 46u8, 48u8]),
            ColorLiteral::Tan => (seq![51u8, 52u8, 46u8, 48u8], seq![52u8, 51u8, 46u8, 48u8], seq![54u8, 56u8, 46u8, 48u8]),
            ColorLiteral::DarkKhaki => (seq![53u8, 53u8, 46u8, 48u8], seq![51u8, 56u8, 46u8, 48u8], seq![53u8, 56u8, 46u8, 48u8]),
            ColorLiteral::BurlyWood => (seq![51u8, 51u8, 46u8, 48u8], seq![53u8, 54u8, 46u8, 48u8], seq![55u8, 48u8, 46u8, 48u8]),
            ColorLiteral::PaleGoldenRod => (seq![53u8, 52u8, 46u8, 48u8], seq![54u8, 54u8, 46u8, 48u8], seq![56u8, 48u8, 46u8, 48u8]),
            ColorLiteral::SandyBrown => (seq![50u8, 55u8, 46u8, 48u8], seq![56u8, 55u8, 46u8, 48u8], seq![54u8, 54u8, 46u8, 48u8]),
            ColorLiteral::Salmon => (seq![54u8, 46u8, 48u8], seq![57u8, 51u8, 46u8, 48u8], seq![55u8, 49u8, 46u8, 48u8]),
            ColorLiteral::OrangeRed => (seq![49u8, 54u8, 46u8, 48u8], seq![49u8, 48u8, 48u8, 46u8, 48u8], seq![53u8, 48u8, 46u8, 48u8]),
            ColorLiteral::Tomato => (seq![57u8, 46u8, 48u8], seq![49u8, 48u8, 48u8, 46u8, 48u8], seq![54u8, 51u8, 46u8, 48u8]),
            ColorLiteral::Coral => (seq![49u8, 54u8, 46u8, 48u8], seq![49u8, 48u8, 48u8, 46u8, 48u8], seq![54u8, 53u8, 46u8, 48u8]),
            ColorLiteral::DarkOrange => (seq![51u8, 50u8, 46u8, 48u8], seq![49u8, 48u8, 48u8, 46u8, 48u8], seq![53u8, 48u8, 46u8, 48u8]),
            ColorLiteral::LightSalmon => (seq![49u8, 55u8, 46u8, 48u8], seq![49u8, 48u8, 48u8, 46u8, 48u8], seq![55u8, 51u8, 46u8, 48u8]),
            ColorLiteral::Orange => (seq![51u8, 56u8, 46u8, 48u8], seq![49u8, 48u8, 48u8, 46u8, 48u8], seq![53u8, 48u8, 46u8, 48u8]),
            ColorLiteral::Gold => (seq![53u8, 48u8, 46u8, 48u8], seq![49u8, 48u8, 48u8, 46u8, 48u8], seq![53u8, 48u8, 46u8, 48u8]),
            ColorLiteral::Yellow => (seq![54u8, 48u8, 46u8, 48u8], seq![49u8, 48u8, 48u8, 46u8, 48u8], seq![53u8, 48u8, 46u8, 48u8]),
            ColorLiteral::Khaki => (seq![53u8, 52u8, 46u8, 48u8], seq![55u8, 54u8, 46u8, 48u8], seq![55u8, 52u8, 46u8, 48u8]),
            ColorLiteral::Wheat => (seq![51u8, 57u8, 46u8, 48u8], seq![55u8, 54u8, 46u8, 48u8], seq![56u8, 51u8, 46u8, 48u8]),
            ColorLiteral::Beige => (seq![54u8, 48u8, 46u8, 48u8], seq![53u8, 53u8, 46u8, 48u8], seq![57u8, 49u8, 46u8, 48u8]),
            ColorLiteral::AntiqueWhite => (seq![51u8, 52u8, 46u8, 48u8], seq![55u8, 55u8, 46u8, 48u8], seq![57u8, 49u8, 46u8, 48u8]),
            ColorLiteral::Linen => (seq![51u8, 48u8, 46u8, 48u8], seq![54u8, 54u8, 46u8, 48u8], seq![57u8, 52u8, 46u8, 48u8]),
            ColorLiteral::LightGoldenRodYellow => (seq![54u8, 48u8, 46u8, 48u8], seq![56u8, 48u8, 46u8, 48u8], seq![57u8, 48u8, 46u8, 48u8]),
            ColorLiteral::OldLace => (seq![51u8, 57u8, 46u8, 48u8], seq![56u8, 53u8, 46u8, 48u8], seq![57u8, 52u8, 46u8, 48u8]),
            ColorLiteral::PeachPuff => (seq![50u8, 56u8, 46u8, 48u8], seq![49u8, 48u8, 48u8, 46u8, 48u8], seq![56u8, 54u8, 46u8, 48u8]),
            ColorLiteral::NavajoWhite => (seq![51u8, 53u8, 46u8, 48u8], seq![49u8, 48u8, 48u8, 46u8, 48u8], seq![56u8, 51u8, 46u8, 48u8]),
            ColorLiteral::Moccasin => (seq![51u8, 56u8, 46u8, 48u8], seq![49u8, 48u8, 48u8, 46u8, 48u8], seq![56u8, 53u8, 46u8, 48u8]),
            ColorLiteral::Bisque => (seq![51u8, 50u8, 46u8, 48u8], seq![49u8, 48u8, 48u8, 46u8, 48u8], seq![56u8, 56u8, 46u8, 48u8]),
            ColorLiteral::BlanchedAlmond => (seq![51u8, 53u8, 46u8, 48u8], seq![49u8, 48u8, 48u8, 46u8, 48u8], seq![57u8, 48u8, 46u8, 48u8]),
            ColorLiteral::PapayaWhip => (seq![51u8, 55u8, 46u8, 48u8], seq![49u8, 48u8, 48u8, 46u8, 48u8], seq![57u8, 49u8, 46u8, 48u8]),
            ColorLiteral::LemonChiffon => (seq![53u8, 51u8, 46u8, 48u8], seq![49u8, 48u8, 48u8, 46u8, 48u8], seq![57u8, 48u8, 46u8, 48u8]),
            ColorLiteral::LightYellow => (seq![54u8, 48u8, 46u8, 48u8], seq![49u8, 48u8, 48u8, 46u8, 48u8], seq![57u8, 51u8, 46u8, 48u8]),
            ColorLiteral::Cornsilk => (seq![52u8, 55u8, 46u8, 48u8], seq![49u8, 48u8, 48u8, 46u8, 48u8], seq![57u8, 51u8, 46u8, 48u8]),
            ColorLiteral::MistyRose => (seq![54u8, 46u8, 48u8], seq![49u8, 48u8, 48u8, 46u8, 48u8], seq![57u8, 52u8, 46u8, 48u8]),
            ColorLiteral::FloralWhite => (seq![51u8, 57u8, 46u8, 48u8], seq![49u8, 48u8, 48u8, 46u8, 48u8], seq![57u8, 55u8, 46u8, 48u8]),
            ColorLiteral::SeaShell => (seq![50u8, 52u8, 46u8, 48u8], seq![49u8, 48u8, 48u8, 46u8, 48u8], seq![57u8, 54u8, 46u8, 48u8]),
            ColorLiteral::Snow => (seq![48u8, 46u8, 48u8], seq![49u8, 48u8, 48u8, 46u8, 48u8], seq![57u8, 57u8, 46u8, 48u8]),
            ColorLiteral::Ivory => (seq![54u8, 48u8, 46u8, 48u8], seq![49u8, 48u8, 48u8, 46u8, 48u8], seq![57u8, 55u8, 46u8, 48u8]),
            ColorLiteral::White => (seq![48u8, 46u8, 48u8], seq![48u8, 46u8, 48u8], seq![49u8, 48u8, 48u8, 46u8, 48u8]),
            ColorLiteral::Black => (seq![48u8, 46u8, 48u8], seq![48u8, 46u8, 48u8], seq![48u8, 46u8, 48u8]),
            ColorLiteral::DimGray => (seq![48u8, 46u8, 48u8], seq![48u8, 46u8, 48u8], seq![52u8, 49u8, 46u8, 48u8]),
            ColorLiteral::DarkGray => (seq![48u8, 46u8, 48u8], seq![48u8, 46u8, 48u8], seq![54u8, 54u8, 46u8, 48u8]),
            ColorLiteral::Gray => (seq![48u8, 46u8, 48u8], seq![48u8, 46u8, 48u8], seq![53u8, 48u8, 46u8, 48u8]),
            ColorLiteral::Silver => (seq![48u8, 46u8, 48u8], seq![48u8, 46u8, 48u8], seq![55u8, 53u8, 46u8, 48u8]),
            ColorLiteral::LightGray => (seq![48u8, 46u8, 48u8], seq![48u8, 46u8, 48u8], seq![56u8, 50u8, 46u8, 48u8]),
            ColorLiteral::Gainsboro => (seq![48u8, 46u8, 48u8], seq![48u8, 46u8, 48u8], seq![56u8, 54u8, 46u8, 48u8]),
            ColorLiteral::WhiteSmoke => (seq![48u8, 46u8, 48u8], seq![48u8, 46u8, 48u8], seq![57u8, 54u8, 46u8, 48u8]),
            ColorLiteral::DarkSlateGray => (seq![49u8, 56u8, 48u8, 46u8, 48u8], seq![50u8, 53u8, 46u8, 48u8], seq![50u8, 52u8, 46u8, 48u8]),
            ColorLiteral::SlateGray => (seq![50u8, 49u8, 48u8, 46u8, 48u8], seq![49u8, 50u8, 46u8, 48u8], seq![53u8, 48u8, 46u8, 48u8]),
            ColorLiteral::LightSlateGray => (seq![50u8, 49u8, 48u8, 46u8, 48u8], seq![49u8, 52u8, 46u8, 48u8], seq![53u8, 51u8, 46u8, 48u8]),
            ColorLiteral::DarkGreen => (seq![49u8, 50u8, 48u8, 46u8, 48u8], seq![49u8, 48u8, 48u8, 46u8, 48u8], seq![49u8, 57u8, 46u8, 48u8]),
            ColorLiteral::Green => (seq![49u8, 50u8, 48u8, 46u8, 48u8], seq![49u8, 48u8, 48u8, 46u8, 48u8], seq![50u8, 53u8, 46u8, 48u8]),
            ColorLiteral::ForestGreen => (seq![49u8, 50u8, 48u8, 46u8, 48u8], seq![54u8, 48u8, 46u8, 48u8], seq![51u8, 51u8, 46u8, 48u8]),
            ColorLiteral::DarkSeaGreen => (seq![49u8, 50u8, 48u8, 46u8, 48u8], seq![50u8, 53u8, 46u8, 48u8], seq![54u8, 52u8, 46u8, 48u8]),
            ColorLiteral::SeaGreen => (seq![49u8, 52u8, 54u8, 46u8, 48u8], seq![53u8, 48u8, 46u8, 48u8], seq![51u8, 54u8, 46u8, 48u8]),
            ColorLiteral::MediumSeaGreen => (seq![49u8, 52u8, 54u8, 46u8, 48u8], seq![52u8, 57u8, 46u8, 48u8], seq![52u8, 54u8, 46u8, 48u8]),
            ColorLiteral::LightSeaGreen => (seq![49u8, 55u8, 54u8, 46u8, 48u8], seq![54u8, 57u8, 46u8, 48u8], seq![52u8, 49u8, 46u8, 48u8]),
            ColorLiteral::LimeGreen => (seq![49u8, 50u8, 48u8, 46u8, 48u8], seq![54u8, 48u8, 46u8, 48u8], seq![53u8, 48u8, 46u8, 48u8]),
            ColorLiteral::Lime => (seq![49u8, 50u8, 48u8, 46u8, 48u8], seq![49u8, 48u8, 48u8, 46u8, 48u8], seq![53u8, 48u8, 46u8, 48u8]),
            ColorLiteral::Chartreuse => (seq![57u8, 48u8, 46u8, 48u8], seq![49u8, 48u8, 48u8, 46u8, 48u8], seq![53u8, 48u8, 46u8, 48u8]),
            ColorLiteral::LawnGreen => (seq![57u8, 48u8, 46u8, 48u8], seq![49u8, 48u8, 48u8, 46u8, 48u8], seq![52u8, 57u8, 46u8, 48u8]),
            ColorLiteral::SpringGreen => (seq![49u8, 52u8, 57u8, 46u8, 48u8], seq![49u8, 48u8, 48u8, 46u8, 48u8], seq![53u8, 48u8, 46u8, 48u8]),
            ColorLiteral::MediumSpringGreen => (seq![49u8, 53u8, 54u8, 46u8, 48u8], seq![49u8, 48u8, 48u8, 46u8, 48u8], seq![52u8, 57u8, 46u8, 48u8]),
            ColorLiteral::DarkOliveGreen => (seq![56u8, 50u8, 46u8, 48u8], seq![51u8, 56u8, 46u8, 48u8], seq![51u8, 48u8, 46u8, 48u8]),
            ColorLiteral::OliveDrab => (seq![55u8, 57u8, 46u8, 48u8], seq![54u8, 48u8, 46u8, 48u8], seq![51u8, 52u8, 46u8, 48u8]),
            ColorLiteral::Olive => (seq![54u8, 48u8, 46u8, 48u8], seq![49u8, 48u8, 48u8, 46u8, 48u8], seq![50u8, 53u8, 46u8, 48u8]),
            ColorLiteral::YellowGreen => (seq![56u8, 51u8, 46u8, 48u8], seq![49u8, 48u8, 48u8, 46u8, 48u8], seq![53u8, 57u8, 46u8, 48u8]),
            ColorLiteral::GreenYellow => (seq![55u8, 57u8, 46u8, 48u8], seq![54u8, 48u8, 46u8, 48u8], seq![53u8, 48u8, 46u8, 48u8]),
            ColorLiteral::PaleGreen => (seq![49u8, 50u8, 48u8, 46u8, 48u8], seq![57u8, 50u8, 46u8, 48u8], seq![55u8, 57u8, 46u8, 48u8]),
            ColorLiteral::LightGreen => (seq![49u8, 50u8, 48u8, 46u8, 48u8], seq![55u8, 51u8, 46u8, 48u8], seq![55u8, 52u8, 46u8, 48u8]),
            ColorLiteral::HoneyDew => (seq![49u8, 50u8, 48u8, 46u8, 48u8], seq![49u8, 48u8, 48u8, 46u8, 48u8], seq![57u8, 55u8, 46u8, 48u8]),
            ColorLiteral::Teal => (seq![49u8, 56u8, 48u8, 46u8, 48u8], seq![49u8, 48u8, 48u8, 46u8, 48u8], seq![50u8, 53u8, 46u8, 48u8]),
            ColorLiteral::DarkCyan => (seq![49u8, 56u8, 48u8, 46u8, 48u8], seq![49u8, 48u8, 48u8, 46u8, 48u8], seq![50u8, 55u8, 46u8, 48u8]),
            ColorLiteral::CadetBlue => (seq![49u8, 56u8, 49u8, 46u8, 48u8], seq![50u8, 53u8, 46u8, 48u8], seq![53u8, 48u8, 46u8, 48u8]),
            ColorLiteral::DarkTurquoise => (seq![49u8, 55u8, 52u8, 46u8, 48u8], seq![55u8, 50u8, 46u8, 48u8], seq![53u8, 54u8, 46u8, 48u8]),
            ColorLiteral::Turquoise => (seq![49u8, 55u8, 55u8, 46u8, 48u8], seq![53u8, 57u8, 46u8, 48u8], seq![53u8, 53u8, 46u8, 48u8]),
            ColorLiteral::MediumTurquoise => (seq![49u8, 53u8, 57u8, 46u8, 48u8], seq![53u8, 48u8, 46u8, 48u8], seq![54u8, 48u8, 46u8, 48u8]),
            ColorLiteral::MediumAquaMarine => (seq![49u8, 53u8, 57u8, 46u8, 48u8], seq![53u8, 48u8, 46u8, 48u8], seq![54u8, 48u8, 46u8, 48u8]),
            ColorLiteral::Aquamarine => (seq![49u8, 53u8, 57u8, 46u8, 48u8], seq![53u8, 48u8, 46u8, 48u8], seq![54u8, 48u8, 46u8, 48u8]),
            ColorLiteral::MidnightBlue => (seq![50u8, 52u8, 48u8, 46u8, 48u8], seq![54u8, 51u8, 46u8, 48u8], seq![50u8, 54u8, 46u8, 48u8]),
            ColorLiteral::Navy => (seq![50u8, 52u8, 48u8, 46u8, 48u8], seq![49u8, 48u8, 48u8, 46u8, 48u8], seq![50u8, 53u8, 46u8, 48u8]),
            ColorLiteral::DarkBlue => (seq![50u8, 52u8, 48u8, 46u8, 48u8], seq![49u8, 48u8, 48u8, 46u8, 48u8], seq![50u8, 55u8, 46u8, 48u8]),
            ColorLiteral::MediumBlue => (seq![50u8, 52u8, 48u8, 46u8, 48u8], seq![49u8, 48u8, 48u8, 46u8, 48u8], seq![52u8, 48u8, 46u8, 48u8]),
            ColorLiteral::RoyalBlue => (seq![50u8, 50u8, 53u8, 46u8, 48u8], seq![55u8, 50u8, 46u8, 48u8], seq![53u8, 54u8, 46u8, 48u8]),
            ColorLiteral::CornflowerBlue => (seq![50u8, 49u8, 56u8, 46u8, 48u8], seq![55u8, 57u8, 46u8, 48u8], seq![54u8, 54u8, 46u8, 48u8]),
            ColorLiteral::SteelBlue => (seq![50u8, 48u8, 55u8, 46u8, 48u8], seq![52u8, 52u8, 46u8, 48u8], seq![52u8, 57u8, 46u8, 48u8]),
            ColorLiteral::Blue => (seq![50u8, 52u8, 48u8, 46u8, 48u8], seq![49u8, 48u8, 48u8, 46u8, 48u8], seq![53u8, 48u8, 46u8, 48u8]),
            ColorLiteral::DodgerBlue => (seq![50u8, 48u8, 57u8, 46u8, 48u8], seq![49u8, 48u8, 48u8, 46u8, 48u8], seq![53u8, 53u8, 46u8, 48u8]),
            ColorLiteral::PaleTurquoise => (seq![49u8, 56u8, 48u8, 46u8, 48u8], seq![54u8, 52u8, 46u8, 48u8], seq![56u8, 48u8, 46u8, 48u8]),
            ColorLiteral::LightSteelBlue => (seq![50u8, 49u8, 51u8, 46u8, 48u8], seq![52u8, 49u8, 46u8, 48u8], seq![55u8, 56u8, 46u8, 48u8]),
            ColorLiteral::PowderBlue => (seq![49u8, 56u8, 54u8, 46u8, 48u8], seq![53u8, 49u8, 46u8, 48u8], seq![55u8, 57u8, 46u8, 48u8]),
            ColorLiteral::DeepSkyBlue => (seq![49u8, 57u8, 53u8, 46u8, 48u8], seq![49u8, 48u8, 48u8, 46u8, 48u8], seq![53u8, 48u8, 46u8, 48u8]),
            ColorLiteral::SkyBlue => (seq![49u8, 57u8, 55u8, 46u8, 48u8], seq![55u8, 49u8, 46u8, 48u8], seq![55u8, 50u8, 46u8, 48u8]),
            ColorLiteral::LightSkyBlue => (seq![50u8, 48u8, 50u8, 46u8, 48u8], seq![57u8, 50u8, 46u8, 48u8], seq![55u8, 53u8, 46u8, 48u8]),
            ColorLiteral::LightBlue => (seq![49u8, 57u8, 52u8, 46u8, 48u8], seq![53u8, 51u8, 46u8, 48u8], seq![55u8, 57u8, 46u8, 48u8]),
            ColorLiteral::Aqua => (seq![49u8, 56u8, 48u8, 46u8, 48u8], seq![49u8, 48u8, 48u8, 46u8, 48u8], seq![53u8, 48u8, 46u8, 48u8]),
            ColorLiteral::Cyan => (seq![49u8, 56u8, 48u8, 46u8, 48u8], seq![49u8, 48u8, 48u8, 46u8, 48u8], seq![53u8, 48u8, 46u8, 48u8]),
            ColorLiteral::LightCyan => (seq![49u8, 56u8, 48u8, 46u8, 48u8], seq![49u8, 48u8, 48u8, 46u8, 48u8], seq![57u8, 51u8, 46u8, 48u8]),
            ColorLiteral::Azure => (seq![49u8, 56u8, 48u8, 46u8, 48u8], seq![49u8, 48u8, 48u8, 46u8, 48u8], seq![51u8, 48u8, 46u8, 48u8]),
            ColorLiteral::AliceBlue => (seq![50u8, 48u8, 56u8, 46u8, 48u8], seq![49u8, 48u8, 48u8, 46u8, 48u8], seq![57u8, 55u8, 46u8, 48u8]),
            ColorLiteral::MintCream => (seq![49u8, 52u8, 57u8, 46u8, 48u8], seq![49u8, 48u8, 48u8, 46u8, 48u8], seq![57u8, 56u8, 46u8, 48u8]),
            ColorLiteral::GhostWhite => (seq![50u8, 52u8, 48u8, 46u8, 48u8], seq![49u8, 48u8, 48u8, 46u8, 48u8], seq![57u8, 56u8, 46u8, 48u8]),
        }
    }

    pub fn to_hsl(&self) -> (r: Color)
        ensures
            r matches Color::Hsl(h, s, l) && h.text@ == self.spec_hsl().0 && s.text@ == self.spec_hsl().1
                && l.text@ == self.spec_hsl().2,
    {
        let (h, s, l): (&[u8], &[u8], &[u8]) = match self {
            ColorLiteral::Maroon => (&[48u8, 46u8, 48u8], &[49u8, 48u8, 48u8, 46u8, 48u8], &[50u8, 53u8, 46u8, 48u8]),
            ColorLiteral::DarkRed => (&[48u8, 46u8, 48u8], &[49u8, 48u8, 48u8, 46u8, 48u8], &[50u8, 55u8, 46u8, 48u8]),
            ColorLiteral::Brown => (&[48u8, 46u8, 48u8], &[53u8, 57u8, 46u8, 48u8], &[52u8, 48u8, 46u8, 48u8]),
            ColorLiteral::FireBrick => (&[48u8, 46u8, 48u8], &[54u8, 55u8, 46u8, 48u8], &[52u8, 49u8, 46u8, 48u8]),
            ColorLiteral::Crimson => (&[51u8, 52u8, 56u8, 46u8, 48u8], &[56u8, 51u8, 46u8, 48u8], &[52u8, 55u8, 46u8, 48u8]),
            ColorLiteral::Red => (&[48u8, 46u8, 48u8], &[49u8, 48u8, 48u8, 46u8, 48u8], &[53u8, 48u8, 46u8, 48u8]),
            ColorLiteral::IndianRed => (&[48u8, 46u8, 48u8], &[53u8, 51u8, 46u8, 48u8], &[53u8, 56u8, 46u8, 48u8]),
            ColorLiteral::SaddleBrown => (&[50u8, 52u8, 46u8, 48u8], &[55u8, 53u8, 46u8, 48u8], &[51u8, 48u8, 46u8, 48u8]),
            ColorLiteral::Sienna => (&[49u8, 57u8, 46u8, 48u8], &[53u8, 54u8, 46u8, 48u8], &[52u8, 48u8, 46u8, 48u8]),
            ColorLiteral::RosyBrown => (&[48u8, 46u8, 48u8], &[50u8, 53u8, 46u8, 48u8], &[54u8, 52u8, 46u8, 48u8]),
            ColorLiteral::Chocolate => (&[50u8, 52u8, 46u8, 48u8], &[55u8, 52u8, 46u8, 48u8], &[52u8, 55u8, 46u8, 48u8]),
            ColorLiteral::Peru => (&[50u8, 57u8, 46u8, 48u8], &[53u8, 56u8, 46u8, 48u8], &[53u8, 50u8, 46u8, 48u8]),
            ColorLiteral::DarkGoldenRod => (&[52u8, 50u8, 46u8, 48u8], &[56u8, 56u8, 46u8, 48u8], &[51u8, 56u8, 46u8, 48u8]),
            ColorLiteral::DarkSalmon => (&[49u8, 53u8, 46u8, 48u8], &[55u8, 49u8, 46u8, 48u8], &[54u8, 57u8, 46u8, 48u8]),
            ColorLiteral::LightCoral => (&[48u8, 46u8, 48u8], &[55u8, 56u8, 46u8, 48u8], &[55u8, 50u8, 46u8, 48u8]),
            ColorLiteral::GoldenRod => (&[52u8, 50u8, 46u8, 48u8], &[56u8, 56u8, 46u8, 48u8], &[51u8, 56u8, 46u8, 48u8]),
            ColorLiteral::Tan => (&[51u8, 52u8, 46u8, 48u8], &[52u8, 51u8, 46u8, 48u8], &[54u8, 56u8, 46u8, 48u8]),
            ColorLiteral::DarkKhaki => (&[53u8, 53u8, 46u8, 48u8], &[51u8, 56u8, 46u8, 48u8], &[53u8, 56u8, 46u8, 48u8]),
            ColorLiteral::BurlyWood => (&[51u8, 51u8, 46u8, 48u8], &[53u8, 54u8, 46u8, 48u8], &[55u8, 48u8, 46u8, 48u8]),
            ColorLiteral::PaleGoldenRod => (&[53u8, 52u8, 46u8, 48u8], &[54u8, 54u8, 46u8, 48u8], &[56u8, 48u8, 46u8, 48u8]),
            ColorLiteral::SandyBrown => (&[50u8, 55u8, 46u8, 48u8], &[56u8, 55u8, 46u8, 48u8], &[54u8, 54u8, 46u8, 48u8]),
            ColorLiteral::Salmon => (&[54u8, 46u8, 48u8], &[57u8, 51u8, 46u8, 48u8], &[55u8, 49u8, 46u8, 48u8]),
            ColorLiteral::OrangeRed => (&[49u8, 54u8, 46u8, 48u8], &[49u8, 48u8, 48u8, 46u8, 48u8], &[53u8, 48u8, 46u8, 48u8]),
            ColorLiteral::Tomato => (&[57u8, 46u8, 48u8], &[49u8, 48u8, 48u8, 46u8, 48u8], &[54u8, 51u8, 46u8, 48u8]),
            ColorLiteral::Coral => (&[49u8, 54u8, 46u8, 48u8], &[49u8, 48u8, 48u8, 46u8, 48u8], &[54u8, 53u8, 46u8, 48u8]),
            ColorLiteral::DarkOrange => (&[51u8, 50u8, 46u8, 48u8], &[49u8, 48u8, 48u8, 46u8, 48u8], &[53u8, 48u8, 46u8, 48u8]),
            ColorLiteral::LightSalmon => (&[49u8, 55u8, 46u8, 48u8], &[49u8, 48u8, 48u8, 46u8, 48u8], &[55u8, 51u8, 46u8, 48u8]),
            ColorLiteral::Orange => (&[51u8, 56u8, 46u8, 48u8], &[49u8, 48u8, 48u8, 46u8, 48u8], &[53u8, 48u8, 46u8, 48u8]),
            ColorLiteral::Gold => (&[53u8, 48u8, 46u8, 48u8], &[49u8, 48u8, 48u8, 46u8, 48u8], &[53u8, 48u8, 46u8, 48u8]),
            ColorLiteral::Yellow => (&[54u8, 48u8, 46u8, 48u8], &[49u8, 48u8, 48u8, 46u8, 48u8], &[53u8, 48u8, 46u8, 48u8]),
            ColorLiteral::Khaki => (&[53u8, 52u8, 46u8, 48u8], &[55u8, 54u8, 46u8, 48u8], &[55u8, 52u8, 46u8, 48u8]),
            ColorLiteral::Wheat => (&[51u8, 57u8, 46u8, 48u8], &[55u8, 54u8, 46u8, 48u8], &[56u8, 51u8, 46u8, 48u8]),
            ColorLiteral::Beige => (&[54u8, 48u8, 46u8, 48u8], &[53u8, 53u8, 46u8, 48u8], &[57u8, 49u8, 46u8, 48u8]),
            ColorLiteral::AntiqueWhite => (&[51u8, 52u8, 46u8, 48u8], &[55u8, 55u8, 46u8, 48u8], &[57u8, 49u8, 46u8, 48u8]),
            ColorLiteral::Linen => (&[51u8, 48u8, 46u8, 48u8], &[54u8, 54u8, 46u8, 48u8], &[57u8, 52u8, 46u8, 48u8]),
            ColorLiteral::LightGoldenRodYellow => (&[54u8, 48u8, 46u8, 48u8], &[56u8, 48u8, 46u8, 48u8], &[57u8, 48u8, 46u8, 48u8]),
            ColorLiteral::OldLace => (&[51u8, 57u8, 46u8, 48u8], &[56u8, 53u8, 46u8, 48u8], &[57u8, 52u8, 46u8, 48u8]),
            ColorLiteral::PeachPuff => (&[50u8, 56u8, 46u8, 48u8], &[49u8, 48u8, 48u8, 46u8, 48u8], &[56u8, 54u8, 46u8, 48u8]),
            ColorLiteral::NavajoWhite => (&[51u8, 53u8, 46u8, 48u8], &[49u8, 48u8, 48u8, 46u8, 48u8], &[56u8, 51u8, 46u8, 48u8]),
            ColorLiteral::Moccasin => (&[51u8, 56u8, 46u8, 48u8], &[49u8, 48u8, 48u8, 46u8, 48u8], &[56u8, 53u8, 46u8, 48u8]),
            ColorLiteral::Bisque => (&[51u8, 50u8, 46u8, 48u8], &[49u8, 48u8, 48u8, 46u8, 48u8], &[56u8, 56u8, 46u8, 48u8]),
            ColorLiteral::BlanchedAlmond => (&[51u8, 53u8, 46u8, 48u8], &[49u8, 48u8, 48u8, 46u8, 48u8], &[57u8, 48u8, 46u8, 48u8]),
            ColorLiteral::PapayaWhip => (&[51u8, 55u8, 46u8, 48u8], &[49u8, 48u8, 48u8, 46u8, 48u8], &[57u8, 49u8, 46u8, 48u8]),
            ColorLiteral::LemonChiffon => (&[53u8, 51u8, 46u8, 48u8], &[49u8, 48u8, 48u8, 46u8, 48u8], &[57u8, 48u8, 46u8, 48u8]),
            ColorLiteral::LightYellow => (&[54u8, 48u8, 46u8, 48u8], &[49u8, 48u8, 48u8, 46u8, 48u8], &[57u8, 51u8, 46u8, 48u8]),
            ColorLiteral::Cornsilk => (&[52u8, 55u8, 46u8, 48u8], &[49u8, 48u8, 48u8, 46u8, 48u8], &[57u8, 51u8, 46u8, 48u8]),
            ColorLiteral::MistyRose => (&[54u8, 46u8, 48u8], &[49u8, 48u8, 48u8, 46u8, 48u8], &[57u8, 52u8, 46u8, 48u8]),
            ColorLiteral::FloralWhite => (&[51u8, 57u8, 46u8, 48u8], &[49u8, 48u8, 48u8, 46u8, 48u8], &[57u8, 55u8, 46u8, 48u8]),
            ColorLiteral::SeaShell => (&[50u8, 52u8, 46u8, 48u8], &[49u8, 48u8, 48u8, 46u8, 48u8], &[57u8, 54u8, 46u8, 48u8]),
            ColorLiteral::Snow => (&[48u8, 46u8, 48u8], &[49u8, 48u8, 48u8, 46u8, 48u8], &[57u8, 57u8, 46u8, 48u8]),
            ColorLiteral::Ivory => (&[54u8, 48u8, 46u8, 48u8], &[49u8, 48u8, 48u8, 46u8, 48u8], &[57u8, 55u8, 46u8, 48u8]),
            ColorLiteral::White => (&[48u8, 46u8, 48u8], &[48u8, 46u8, 48u8], &[49u8, 48u8, 48u8, 46u8, 48u8]),
            ColorLiteral::Black => (&[48u8, 46u8, 48u8], &[48u8, 46u8, 48u8], &[48u8, 46u8, 48u8]),
            ColorLiteral::DimGray => (&[48u8, 46u8, 48u8], &[48u8, 46u8, 48u8], &[52u8, 49u8, 46u8, 48u8]),
            ColorLiteral::DarkGray => (&[48u8, 46u8, 48u8], &[48u8, 46u8, 48u8], &[54u8, 54u8, 46u8, 48u8]),
            ColorLiteral::Gray => (&[48u8, 46u8, 48u8], &[48u8, 46u8, 48u8], &[53u8, 48u8, 46u8, 48u8]),
            ColorLiteral::Silver => (&[48u8, 46u8, 48u8], &[48u8, 46u8, 48u8], &[55u8, 53u8, 46u8, 48u8]),
            ColorLiteral::LightGray => (&[48u8, 46u8, 48u8], &[48u8, 46u8, 48u8], &[56u8, 50u8, 46u8, 48u8]),
            ColorLiteral::Gainsboro => (&[48u8, 46u8, 48u8], &[48u8, 46u8, 48u8], &[56u8, 54u8, 46u8, 48u8]),
            ColorLiteral::WhiteSmoke => (&[48u8, 46u8, 48u8], &[48u8, 46u8, 48u8], &[57u8, 54u8, 46u8, 48u8]),
            ColorLiteral::DarkSlateGray => (&[49u8, 56u8, 48u8, 46u8, 48u8], &[50u8, 53u8, 46u8, 48u8], &[50u8, 52u8, 46u8, 48u8]),
            ColorLiteral::SlateGray => (&[50u8, 49u8, 48u8, 46u8, 48u8], &[49u8, 50u8, 46u8, 48u8], &[53u8, 48u8, 46u8, 48u8]),
            ColorLiteral::LightSlateGray => (&[50u8, 49u8, 48u8, 46u8, 48u8], &[49u8, 52u8, 46u8, 48u8], &[53u8, 51u8, 46u8, 48u8]),
            ColorLiteral::DarkGreen => (&[49u8, 50u8, 48u8, 46u8, 48u8], &[49u8, 48u8, 48u8, 46u8, 48u8], &[49u8, 57u8, 46u8, 48u8]),
            ColorLiteral::Green => (&[49u8, 50u8, 48u8, 46u8, 48u8], &[49u8, 48u8, 48u8, 46u8, 48u8], &[50u8, 53u8, 46u8, 48u8]),
            ColorLiteral::ForestGreen => (&[49u8, 50u8, 48u8, 46u8, 48u8], &[54u8, 48u8, 46u8, 48u8], &[51u8, 51u8, 46u8, 48u8]),
            ColorLiteral::DarkSeaGreen => (&[49u8, 50u8, 48u8, 46u8, 48u8], &[50u8, 53u8, 46u8, 48u8], &[54u8, 52u8, 46u8, 48u8]),
            ColorLiteral::SeaGreen => (&[49u8, 52u8, 54u8, 46u8, 48u8], &[53u8, 48u8, 46u8, 48u8], &[51u8, 54u8, 46u8, 48u8]),
            ColorLiteral::MediumSeaGreen => (&[49u8, 52u8, 54u8, 46u8, 48u8], &[52u8, 57u8, 46u8, 48u8], &[52u8, 54u8, 46u8, 48u8]),
            ColorLiteral::LightSeaGreen => (&[49u8, 55u8, 54u8, 46u8, 48u8], &[54u8, 57u8, 46u8, 48u8], &[52u8, 49u8, 46u8, 48u8]),
            ColorLiteral::LimeGreen => (&[49u8, 50u8, 48u8, 46u8, 48u8], &[54u8, 48u8, 46u8, 48u8], &[53u8, 48u8, 46u8, 48u8]),
            ColorLiteral::Lime => (&[49u8, 50u8, 48u8, 46u8, 48u8], &[49u8, 48u8, 48u8, 46u8, 48u8], &[53u8, 48u8, 46u8, 48u8]),
            ColorLiteral::Chartreuse => (&[57u8, 48u8, 46u8, 48u8], &[49u8, 48u8, 48u8, 46u8, 48u8], &[53u8, 48u8, 46u8, 48u8]),
            ColorLiteral::LawnGreen => (&[57u8, 48u8, 46u8, 48u8], &[49u8, 48u8, 48u8, 46u8, 48u8], &[52u8, 57u8, 46u8, 48u8]),
            ColorLiteral::SpringGreen => (&[49u8, 52u8, 57u8, 46u8, 48u8], &[49u8, 48u8, 48u8, 46u8, 48u8], &[53u8, 48u8, 46u8, 48u8]),
            ColorLiteral::MediumSpringGreen => (&[49u8, 53u8, 54u8, 46u8, 48u8], &[49u8, 48u8, 48u8, 46u8, 48u8], &[52u8, 57u8, 46u8, 48u8]),
            ColorLiteral::DarkOliveGreen => (&[56u8, 50u8, 46u8, 48u8], &[51u8, 56u8, 46u8, 48u8], &[51u8, 48u8, 46u8, 48u8]),
            ColorLiteral::OliveDrab => (&[55u8, 57u8, 46u8, 48u8], &[54u8, 48u8, 46u8, 48u8], &[51u8, 52u8, 46u8, 48u8]),
            ColorLiteral::Olive => (&[54u8, 48u8, 46u8, 48u8], &[49u8, 48u8, 48u8, 46u8, 48u8], &[50u8, 53u8, 46u8, 48u8]),
            ColorLiteral::YellowGreen => (&[56u8, 51u8, 46u8, 48u8], &[49u8, 48u8, 48u8, 46u8, 48u8], &[53u8, 57u8, 46u8, 48u8]),
            ColorLiteral::GreenYellow => (&[55u8, 57u8, 46u8, 48u8], &[54u8, 48u8, 46u8, 48u8], &[53u8, 48u8, 46u8, 48u8]),
            ColorLiteral::PaleGreen => (&[49u8, 50u8, 48u8, 46u8, 48u8], &[57u8, 50u8, 46u8, 48u8], &[55u8, 57u8, 46u8, 48u8]),
            ColorLiteral::LightGreen => (&[49u8, 50u8, 48u8, 46u8, 48u8], &[55u8, 51u8, 46u8, 48u8], &[55u8, 52u8, 46u8, 48u8]),
            ColorLiteral::HoneyDew => (&[49u8, 50u8, 48u8, 46u8, 48u8], &[49u8, 48u8, 48u8, 46u8, 48u8], &[57u8, 55u8, 46u8, 48u8]),
            ColorLiteral::Teal => (&[49u8, 56u8, 48u8, 46u8, 48u8], &[49u8, 48u8, 48u8, 46u8, 48u8], &[50u8, 53u8, 46u8, 48u8]),
            ColorLiteral::DarkCyan => (&[49u8, 56u8, 48u8, 46u8, 48u8], &[49u8, 48u8, 48u8, 46u8, 48u8], &[50u8, 55u8, 46u8, 48u8]),
            ColorLiteral::CadetBlue => (&[49u8, 56u8, 49u8, 46u8, 48u8], &[50u8, 53u8, 46u8, 48u8], &[53u8, 48u8, 46u8, 48u8]),
            ColorLiteral::DarkTurquoise => (&[49u8, 55u8, 52u8, 46u8, 48u8], &[55u8, 50u8, 46u8, 48u8], &[53u8, 54u8, 46u8, 48u8]),
            ColorLiteral::Turquoise => (&[49u8, 55u8, 55u8, 46u8, 48u8], &[53u8, 57u8, 46u8, 48u8], &[53u8, 53u8, 46u8, 48u8]),
            ColorLiteral::MediumTurquoise => (&[49u8, 53u8, 57u8, 46u8, 48u8], &[53u8, 48u8, 46u8, 48u8], &[54u8, 48u8, 46u8, 48u8]),
            ColorLiteral::MediumAquaMarine => (&[49u8, 53u8, 57u8, 46u8, 48u8], &[53u8, 48u8, 46u8, 48u8], &[54u8, 48u8, 46u8, 48u8]),
            ColorLiteral::Aquamarine => (&[49u8, 53u8, 57u8, 46u8, 48u8], &[53u8, 48u8, 46u8, 48u8], &[54u8, 48u8, 46u8, 48u8]),
            ColorLiteral::MidnightBlue => (&[50u8, 52u8, 48u8, 46u8, 48u8], &[54u8, 51u8, 46u8, 48u8], &[50u8, 54u8, 46u8, 48u8]),
            ColorLiteral::Navy => (&[50u8, 52u8, 48u8, 46u8, 48u8], &[49u8, 48u8, 48u8, 46u8, 48u8], &[50u8, 53u8, 46u8, 48u8]),
            ColorLiteral::DarkBlue => (&[50u8, 52u8, 48u8, 46u8, 48u8], &[49u8, 48u8, 48u8, 46u8, 48u8], &[50u8, 55u8, 46u8, 48u8]),
            ColorLiteral::MediumBlue => (&[50u8, 52u8, 48u8, 46u8, 48u8], &[49u8, 48u8, 48u8, 46u8, 48u8], &[52u8, 48u8, 46u8, 48u8]),
            ColorLiteral::RoyalBlue => (&[50u8, 50u8, 53u8, 46u8, 48u8], &[55u8, 50u8, 46u8, 48u8], &[53u8, 54u8, 46u8, 48u8]),
            ColorLiteral::CornflowerBlue => (&[50u8, 49u8, 56u8, 46u8, 48u8], &[55u8, 57u8, 46u8, 48u8], &[54u8, 54u8, 46u8, 48u8]),
            ColorLiteral::SteelBlue => (&[50u8, 48u8, 55u8, 46u8, 48u8], &[52u8, 52u8, 46u8, 48u8], &[52u8, 57u8, 46u8, 48u8]),
            ColorLiteral::Blue => (&[50u8, 52u8, 48u8, 46u8, 48u8], &[49u8, 48u8, 48u8, 46u8, 48u8], &[53u8, 48u8, 46u8, 48u8]),
            ColorLiteral::DodgerBlue => (&[50u8, 48u8, 57u8, 46u8, 48u8], &[49u8, 48u8, 48u8, 46u8, 48u8], &[53u8, 53u8, 46u8, 48u8]),
            ColorLiteral::PaleTurquoise => (&[49u8, 56u8, 48u8, 46u8, 48u8], &[54u8, 52u8, 46u8, 48u8], &[56u8, 48u8, 46u8, 48u8]),
            ColorLiteral::LightSteelBlue => (&[50u8, 49u8, 51u8, 46u8, 48u8], &[52u8, 49u8, 46u8, 48u8], &[55u8, 56u8, 46u8, 48u8]),
            ColorLiteral::PowderBlue => (&[49u8, 56u8, 54u8, 46u8, 48u8], &[53u8, 49u8, 46u8, 48u8], &[55u8, 57u8, 46u8, 48u8]),
            ColorLiteral::DeepSkyBlue => (&[49u8, 57u8, 53u8, 46u8, 48u8], &[49u8, 48u8, 48u8, 46u8, 48u8], &[53u8, 48u8, 46u8, 48u8]),
            ColorLiteral::SkyBlue => (&[49u8, 57u8, 55u8, 46u8, 48u8], &[55u8, 49u8, 46u8, 48u8], &[55u8, 50u8, 46u8, 48u8]),
            ColorLiteral::LightSkyBlue => (&[50u8, 48u8, 50u8, 46u8, 48u8], &[57u8, 50u8, 46u8, 48u8], &[55u8, 53u8, 46u8, 48u8]),
            ColorLiteral::LightBlue => (&[49u8, 57u8, 52u8, 46u8, 48u8], &[53u8, 51u8, 46u8, 48u8], &[55u8, 57u8, 46u8, 48u8]),
            ColorLiteral::Aqua => (&[49u8, 56u8, 48u8, 46u8, 48u8], &[49u8, 48u8, 48u8, 46u8, 48u8], &[53u8, 48u8, 46u8, 48u8]),
            ColorLiteral::Cyan => (&[49u8, 56u8, 48u8, 46u8, 48u8], &[49u8, 48u8, 48u8, 46u8, 48u8], &[53u8, 48u8, 46u8, 48u8]),
            ColorLiteral::LightCyan => (&[49u8, 56u8, 48u8, 46u8, 48u8], &[49u8, 48u8, 48u8, 46u8, 48u8], &[57u8, 51u8, 46u8, 48u8]),
            ColorLiteral::Azure => (&[49u8, 56u8, 48u8, 46u8, 48u8], &[49u8, 48u8, 48u8, 46u8, 48u8], &[51u8, 48u8, 46u8, 48u8]),
            ColorLiteral::AliceBlue => (&[50u8, 48u8, 56u8, 46u8, 48u8], &[49u8, 48u8, 48u8, 46u8, 48u8], &[57u8, 55u8, 46u8, 48u8]),
            ColorLiteral::MintCream => (&[49u8, 52u8, 57u8, 46u8, 48u8], &[49u8, 48u8, 48u8, 46u8, 48u8], &[57u8, 56u8, 46u8, 48u8]),
            ColorLiteral::GhostWhite => (&[50u8, 52u8, 48u8, 46u8, 48u8], &[49u8, 48u8, 48u8, 46u8, 48u8], &[57u8, 56u8, 46u8, 48u8]),
        };
        proof {
            assert(h@ == self.spec_hsl().0);
            assert(s@ == self.spec_hsl().1);
            assert(l@ == self.spec_hsl().2);
        }
        Color::Hsl(number(h), number(s), number(l))
    }
}

} // verus!
