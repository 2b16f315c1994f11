//! Keyword value grammars: each accepts exactly its keywords.
use vstd::prelude::*;

use crate::bytes::{append_bytes, bytes_eq};
use crate::text::Grammar;

verus! {

/// The `AlignmentBaseline` keywords.
#[derive(Clone, Copy, Debug, PartialEq, Eq, Structural)]
pub enum AlignmentBaseline {
    Auto,
    Baseline,
    BeforeEdge,
    TextBeforeEdge,
    Middle,
    Central,
    AfterEdge,
    TextAfterEdge,
    Ideographic,
    Alphabetic,
    Hanging,
    Mathematical,
    Top,
    Center,
    Bottom,
}

impl AlignmentBaseline {
    pub open spec fn spec_str(&self) -> Seq<char> {
        match self {
            AlignmentBaseline::Auto => "auto"@,
            AlignmentBaseline::Baseline => "baseline"@,
            AlignmentBaseline::BeforeEdge => "before-edge"@,
            AlignmentBaseline::TextBeforeEdge => "text-before-edge"@,
            AlignmentBaseline::Middle => "middle"@,
            AlignmentBaseline::Central => "central"@,
            AlignmentBaseline::AfterEdge => "after-edge"@,
            AlignmentBaseline::TextAfterEdge => "text-after-edge"@,
            AlignmentBaseline::Ideographic => "ideographic"@,
            AlignmentBaseline::Alphabetic => "alphabetic"@,
            AlignmentBaseline::Hanging => "hanging"@,
            AlignmentBaseline::Mathematical => "mathematical"@,
            AlignmentBaseline::Top => "top"@,
            AlignmentBaseline::Center => "center"@,
            AlignmentBaseline::Bottom => "bottom"@,
        }
    }

    pub fn as_str(&self) -> (r: &'static str)
        ensures
            r@ == self.spec_str(),
    {
        match self {
            AlignmentBaseline::Auto => "auto",
            AlignmentBaseline::Baseline => "baseline",
            AlignmentBaseline::BeforeEdge => "before-edge",
            AlignmentBaseline::TextBeforeEdge => "text-before-edge",
            AlignmentBaseline::Middle => "middle",
            AlignmentBaseline::Central => "central",
            AlignmentBaseline::AfterEdge => "after-edge",
            AlignmentBaseline::TextAfterEdge => "text-after-edge",
            AlignmentBaseline::Ideographic => "ideographic",
            AlignmentBaseline::Alphabetic => "alphabetic",
            AlignmentBaseline::Hanging => "hanging",
            AlignmentBaseline::Mathematical => "mathematical",
            AlignmentBaseline::Top => "top",
            AlignmentBaseline::Center => "center",
            AlignmentBaseline::Bottom => "bottom",
        }
    }

    /// The keyword reads back as itself.
    pub proof fn lemma_format_round_trip(&self)
        ensures
            Self::spec_canonical(self.spec_format()) == Some(self.spec_format()),
    {
    }
}

impl Grammar for AlignmentBaseline {
    open spec fn spec_wf(&self) -> bool {
        true
    }

    open spec fn spec_format(&self) -> Seq<u8> {
        match self {
            AlignmentBaseline::Auto => seq![97u8, 117u8, 116u8, 111u8],
            AlignmentBaseline::Baseline => seq![98u8, 97u8, 115u8, 101u8, 108u8, 105u8, 110u8, 101u8],
            AlignmentBaseline::BeforeEdge => seq![98u8, 101u8, 102u8, 111u8, 114u8, 101u8, 45u8, 101u8, 100u8, 103u8, 101u8],
            AlignmentBaseline::TextBeforeEdge => seq![116u8, 101u8, 120u8, 116u8, 45u8, 98u8, 101u8, 102u8, 111u8, 114u8, 101u8, 45u8, 101u8, 100u8, 103u8, 101u8],
            AlignmentBaseline::Middle => seq![109u8, 105u8, 100u8, 100u8, 108u8, 101u8],
            AlignmentBaseline::Central => seq![99u8, 101u8, 110u8, 116u8, 114u8, 97u8, 108u8],
            AlignmentBaseline::AfterEdge => seq![97u8, 102u8, 116u8, 101u8, 114u8, 45u8, 101u8, 100u8, 103u8, 101u8],
            AlignmentBaseline::TextAfterEdge => seq![116u8, 101u8, 120u8, 116u8, 45u8, 97u8, 102u8, 116u8, 101u8, 114u8, 45u8, 101u8, 100u8, 103u8, 101u8],
            AlignmentBaseline::Ideographic => seq![105u8, 100u8, 101u8, 111u8, 103u8, 114u8, 97u8, 112u8, 104u8, 105u8, 99u8],
            AlignmentBaseline::Alphabetic => seq![97u8, 108u8, 112u8, 104u8, 97u8, 98u8, 101u8, 116u8, 105u8, 99u8],
            AlignmentBaseline::Hanging => seq![104u8, 97u8, 110u8, 103u8, 105u8, 110u8, 103u8],
            AlignmentBaseline::Mathematical => seq![109u8, 97u8, 116u8, 104u8, 101u8, 109u8, 97u8, 116u8, 105u8, 99u8, 97u8, 108u8],
            AlignmentBaseline::Top => seq![116u8, 111u8, 112u8],
            AlignmentBaseline::Center => seq![99u8, 101u8, 110u8, 116u8, 101u8, 114u8],
            AlignmentBaseline::Bottom => seq![98u8, 111u8, 116u8, 116u8, 111u8, 109u8],
        }
    }

    open spec fn spec_canonical(s: Seq<u8>) -> Option<Seq<u8>> {
        if s == seq![97u8, 117u8, 116u8, 111u8] {
            Some(s)
        } else if s == seq![98u8, 97u8, 115u8, 101u8, 108u8, 105u8, 110u8, 101u8] {
            Some(s)
        } else if s == seq![98u8, 101u8, 102u8, 111u8, 114u8, 101u8, 45u8, 101u8, 100u8, 103u8, 101u8] {
            Some(s)
        } else if s == seq![116u8, 101u8, 120u8, 116u8, 45u8, 98u8, 101u8, 102u8, 111u8, 114u8, 101u8, 45u8, 101u8, 100u8, 103u8, 101u8] {
            Some(s)
        } else if s == seq![109u8, 105u8, 100u8, 100u8, 108u8, 101u8] {
            Some(s)
        } else if s == seq![99u8, 101u8, 110u8, 116u8, 114u8, 97u8, 108u8] {
            Some(s)
        } else if s == seq![97u8, 102u8, 116u8, 101u8, 114u8, 45u8, 101u8, 100u8, 103u8, 101u8] {
            Some(s)
        } else if s == seq![116u8, 101u8, 120u8, 116u8, 45u8, 97u8, 102u8, 116u8, 101u8, 114u8, 45u8, 101u8, 100u8, 103u8, 101u8] {
            Some(s)
        } else if s == seq![105u8, 100u8, 101u8, 111u8, 103u8, 114u8, 97u8, 112u8, 104u8, 105u8, 99u8] {
            Some(s)
        } else if s == seq![97u8, 108u8, 112u8, 104u8, 97u8, 98u8, 101u8, 116u8, 105u8, 99u8] {
            Some(s)
        } else if s == seq![104u8, 97u8, 110u8, 103u8, 105u8, 110u8, 103u8] {
            Some(s)
        } else if s == seq![109u8, 97u8, 116u8, 104u8, 101u8, 109u8, 97u8, 116u8, 105u8, 99u8, 97u8, 108u8] {
            Some(s)
        } else if s == seq![116u8, 111u8, 112u8] {
            Some(s)
        } else if s == seq![99u8, 101u8, 110u8, 116u8, 101u8, 114u8] {
            Some(s)
        } else if s == seq![98u8, 111u8, 116u8, 116u8, 111u8, 109u8] {
            Some(s)
        } else {
            None
        }
    }

    fn parse(s: &[u8]) -> (r: Option<AlignmentBaseline>) {
        if bytes_eq(s, &[97u8, 117u8, 116u8, 111u8]) {
            return Some(AlignmentBaseline::Auto);
        }
        if bytes_eq(s, &[98u8, 97u8, 115u8, 101u8, 108u8, 105u8, 110u8, 101u8]) {
            return Some(AlignmentBaseline::Baseline);
        }
        if bytes_eq(s, &[98u8, 101u8, 102u8, 111u8, 114u8, 101u8, 45u8, 101u8, 100u8, 103u8, 101u8]) {
            return Some(AlignmentBaseline::BeforeEdge);
        }
        if bytes_eq(s, &[116u8, 101u8, 120u8, 116u8, 45u8, 98u8, 101u8, 102u8, 111u8, 114u8, 101u8, 45u8, 101u8, 100u8, 103u8, 101u8]) {
            return Some(AlignmentBaseline::TextBeforeEdge);
        }
        if bytes_eq(s, &[109u8, 105u8, 100u8, 100u8, 108u8, 101u8]) {
            return Some(AlignmentBaseline::Middle);
        }
        if bytes_eq(s, &[99u8, 101u8, 110u8, 116u8, 114u8, 97u8, 108u8]) {
            return Some(AlignmentBaseline::Central);
        }
        if bytes_eq(s, &[97u8, 102u8, 116u8, 101u8, 114u8, 45u8, 101u8, 100u8, 103u8, 101u8]) {
            return Some(AlignmentBaseline::AfterEdge);
        }
        if bytes_eq(s, &[116u8, 101u8, 120u8, 116u8, 45u8, 97u8, 102u8, 116u8, 101u8, 114u8, 45u8, 101u8, 100u8, 103u8, 101u8]) {
            return Some(AlignmentBaseline::TextAfterEdge);
        }
        if bytes_eq(s, &[105u8, 100u8, 101u8, 111u8, 103u8, 114u8, 97u8, 112u8, 104u8, 105u8, 99u8]) {
            return Some(AlignmentBaseline::Ideographic);
        }
        if bytes_eq(s, &[97u8, 108u8, 112u8, 104u8, 97u8, 98u8, 101u8, 116u8, 105u8, 99u8]) {
            return Some(AlignmentBaseline::Alphabetic);
        }
        if bytes_eq(s, &[104u8, 97u8, 110u8, 103u8, 105u8, 110u8, 103u8]) {
            return Some(AlignmentBaseline::Hanging);
        }
        if bytes_eq(s, &[109u8, 97u8, 116u8, 104u8, 101u8, 109u8, 97u8, 116u8, 105u8, 99u8, 97u8, 108u8]) {
            return Some(AlignmentBaseline::Mathematical);
        }
        if bytes_eq(s, &[116u8, 111u8, 112u8]) {
            return Some(AlignmentBaseline::Top);
        }
        if bytes_eq(s, &[99u8, 101u8, 110u8, 116u8, 101u8, 114u8]) {
            return Some(AlignmentBaseline::Center);
        }
        if bytes_eq(s, &[98u8, 111u8, 116u8, 116u8, 111u8, 109u8]) {
            return Some(AlignmentBaseline::Bottom);
        }
        None
    }

    fn write_to(&self, out: &mut Vec<u8>) {
        match self {
            AlignmentBaseline::Auto => append_bytes(out, &[97u8, 117u8, 116u8, 111u8]),
            AlignmentBaseline::Baseline => append_bytes(out, &[98u8, 97u8, 115u8, 101u8, 108u8, 105u8, 110u8, 101u8]),
            AlignmentBaseline::BeforeEdge => append_bytes(out, &[98u8, 101u8, 102u8, 111u8, 114u8, 101u8, 45u8, 101u8, 100u8, 103u8, 101u8]),
            AlignmentBaseline::TextBeforeEdge => append_bytes(out, &[116u8, 101u8, 120u8, 116u8, 45u8, 98u8, 101u8, 102u8, 111u8, 114u8, 101u8, 45u8, 101u8, 100u8, 103u8, 101u8]),
            AlignmentBaseline::Middle => append_bytes(out, &[109u8, 105u8, 100u8, 100u8, 108u8, 101u8]),
            AlignmentBaseline::Central => append_bytes(out, &[99u8, 101u8, 110u8, 116u8, 114u8, 97u8, 108u8]),
            AlignmentBaseline::AfterEdge => append_bytes(out, &[97u8, 102u8, 116u8, 101u8, 114u8, 45u8, 101u8, 100u8, 103u8, 101u8]),
            AlignmentBaseline::TextAfterEdge => append_bytes(out, &[116u8, 101u8, 120u8, 116u8, 45u8, 97u8, 102u8, 116u8, 101u8, 114u8, 45u8, 101u8, 100u8, 103u8, 101u8]),
            AlignmentBaseline::Ideographic => append_bytes(out, &[105u8, 100u8, 101u8, 111u8, 103u8, 114u8, 97u8, 112u8, 104u8, 105u8, 99u8]),
            AlignmentBaseline::Alphabetic => append_bytes(out, &[97u8, 108u8, 112u8, 104u8, 97u8, 98u8, 101u8, 116u8, 105u8, 99u8]),
            AlignmentBaseline::Hanging => append_bytes(out, &[104u8, 97u8, 110u8, 103u8, 105u8, 110u8, 103u8]),
            AlignmentBaseline::Mathematical => append_bytes(out, &[109u8, 97u8, 116u8, 104u8, 101u8, 109u8, 97u8, 116u8, 105u8, 99u8, 97u8, 108u8]),
            AlignmentBaseline::Top => append_bytes(out, &[116u8, 111u8, 112u8]),
            AlignmentBaseline::Center => append_bytes(out, &[99u8, 101u8, 110u8, 116u8, 101u8, 114u8]),
            AlignmentBaseline::Bottom => append_bytes(out, &[98u8, 111u8, 116u8, 116u8, 111u8, 109u8]),
        }
    }
}

/// The `ClipRule` keywords.
#[derive(Clone, Copy, Debug, PartialEq, Eq, Structural)]
pub enum ClipRule {
    NonZero,
    EvenOdd,
    Inherit,
}

impl ClipRule {
    pub open spec fn spec_str(&self) -> Seq<char> {
        match self {
            ClipRule::NonZero => "nonzero"@,
            ClipRule::EvenOdd => "evenodd"@,
            ClipRule::Inherit => "inherit"@,
        }
    }

    pub fn as_str(&self) -> (r: &'static str)
        ensures
            r@ == self.spec_str(),
    {
        match self {
            ClipRule::NonZero => "nonzero",
            ClipRule::EvenOdd => "evenodd",
            ClipRule::Inherit => "inherit",
        }
    }

    /// The keyword reads back as itself.
    pub proof fn lemma_format_round_trip(&self)
        ensures
            Self::spec_canonical(self.spec_format()) == Some(self.spec_format()),
    {
    }
}

impl Grammar for ClipRule {
    open spec fn spec_wf(&self) -> bool {
        true
    }

    open spec fn spec_format(&self) -> Seq<u8> {
        match self {
            ClipRule::NonZero => seq![110u8, 111u8, 110u8, 122u8, 101u8, 114u8, 111u8],
            ClipRule::EvenOdd => seq![101u8, 118u8, 101u8, 110u8, 111u8, 100u8, 100u8],
            ClipRule::Inherit => seq![105u8, 110u8, 104u8, 101u8, 114u8, 105u8, 116u8],
        }
    }

    open spec fn spec_canonical(s: Seq<u8>) -> Option<Seq<u8>> {
        if s == seq![110u8, 111u8, 110u8, 122u8, 101u8, 114u8, 111u8] {
            Some(s)
        } else if s == seq![101u8, 118u8, 101u8, 110u8, 111u8, 100u8, 100u8] {
            Some(s)
        } else if s == seq![105u8, 110u8, 104u8, 101u8, 114u8, 105u8, 116u8] {
            Some(s)
        } else {
            None
        }
    }

    fn parse(s: &[u8]) -> (r: Option<ClipRule>) {
        if bytes_eq(s, &[110u8, 111u8, 110u8, 122u8, 101u8, 114u8, 111u8]) {
            return Some(ClipRule::NonZero);
        }
        if bytes_eq(s, &[101u8, 118u8, 101u8, 110u8, 111u8, 100u8, 100u8]) {
            return Some(ClipRule::EvenOdd);
        }
        if bytes_eq(s, &[105u8, 110u8, 104u8, 101u8, 114u8, 105u8, 116u8]) {
            return Some(ClipRule::Inherit);
        }
        None
    }

    fn write_to(&self, out: &mut Vec<u8>) {
        match self {
            ClipRule::NonZero => append_bytes(out, &[110u8, 111u8, 110u8, 122u8, 101u8, 114u8, 111u8]),
            ClipRule::EvenOdd => append_bytes(out, &[101u8, 118u8, 101u8, 110u8, 111u8, 100u8, 100u8]),
            ClipRule::Inherit => append_bytes(out, &[105u8, 110u8, 104u8, 101u8, 114u8, 105u8, 116u8]),
        }
    }
}

/// The `ColorInterpolation` keywords.
#[derive(Clone, Copy, Debug, PartialEq, Eq, Structural)]
pub enum ColorInterpolation {
    Auto,
    SRGB,
    LinearRGB,
}

impl ColorInterpolation {
    pub open spec fn spec_str(&self) -> Seq<char> {
        match self {
            ColorInterpolation::Auto => "auto"@,
            ColorInterpolation::SRGB => "sRGB"@,
            ColorInterpolation::LinearRGB => "linearRGB"@,
        }
    }

    pub fn as_str(&self) -> (r: &'static str)
        ensures
            r@ == self.spec_str(),
    {
        match self {
            ColorInterpolation::Auto => "auto",
            ColorInterpolation::SRGB => "sRGB",
            ColorInterpolation::LinearRGB => "linearRGB",
        }
    }

    /// The keyword reads back as itself.
    pub proof fn lemma_format_round_trip(&self)
        ensures
            Self::spec_canonical(self.spec_format()) == Some(self.spec_format()),
    {
    }
}

impl Grammar for ColorInterpolation {
    open spec fn spec_wf(&self) -> bool {
        true
    }

    open spec fn spec_format(&self) -> Seq<u8> {
        match self {
            ColorInterpolation::Auto => seq![97u8, 117u8, 116u8, 111u8],
            ColorInterpolation::SRGB => seq![115u8, 82u8, 71u8, 66u8],
            ColorInterpolation::LinearRGB => seq![108u8, 105u8, 110u8, 101u8, 97u8, 114u8, 82u8, 71u8, 66u8],
        }
    }

    open spec fn spec_canonical(s: Seq<u8>) -> Option<Seq<u8>> {
        if s == seq![97u8, 117u8, 116u8, 111u8] {
            Some(s)
        } else if s == seq![115u8, 82u8, 71u8, 66u8] {
            Some(s)
        } else if s == seq![108u8, 105u8, 110u8, 101u8, 97u8, 114u8, 82u8, 71u8, 66u8] {
            Some(s)
        } else {
            None
        }
    }

    fn parse(s: &[u8]) -> (r: Option<ColorInterpolation>) {
        if bytes_eq(s, &[97u8, 117u8, 116u8, 111u8]) {
            return Some(ColorInterpolation::Auto);
        }
        if bytes_eq(s, &[115u8, 82u8, 71u8, 66u8]) {
            return Some(ColorInterpolation::SRGB);
        }
        if bytes_eq(s, &[108u8, 105u8, 110u8, 101u8, 97u8, 114u8, 82u8, 71u8, 66u8]) {
            return Some(ColorInterpolation::LinearRGB);
        }
        None
    }

    fn write_to(&self, out: &mut Vec<u8>) {
        match self {
            ColorInterpolation::Auto => append_bytes(out, &[97u8, 117u8, 116u8, 111u8]),
            ColorInterpolation::SRGB => append_bytes(out, &[115u8, 82u8, 71u8, 66u8]),
            ColorInterpolation::LinearRGB => append_bytes(out, &[108u8, 105u8, 110u8, 101u8, 97u8, 114u8, 82u8, 71u8, 66u8]),
        }
    }
}

/// The `ColorInterpolationFilter` keywords.
#[derive(Clone, Copy, Debug, PartialEq, Eq, Structural)]
pub enum ColorInterpolationFilter {
    Auto,
    SRGB,
    LinearRGB,
}

impl ColorInterpolationFilter {
    pub open spec fn spec_str(&self) -> Seq<char> {
        match self {
            ColorInterpolationFilter::Auto => "auto"@,
            ColorInterpolationFilter::SRGB => "sRGB"@,
            ColorInterpolationFilter::LinearRGB => "linearRGB"@,
        }
    }

    pub fn as_str(&self) -> (r: &'static str)
        ensures
            r@ == self.spec_str(),
    {
        match self {
            ColorInterpolationFilter::Auto => "auto",
            ColorInterpolationFilter::SRGB => "sRGB",
            ColorInterpolationFilter::LinearRGB => "linearRGB",
        }
    }

    /// The keyword reads back as itself.
    pub proof fn lemma_format_round_trip(&self)
        ensures
            Self::spec_canonical(self.spec_format()) == Some(self.spec_format()),
    {
    }
}

impl Grammar for ColorInterpolationFilter {
    open spec fn spec_wf(&self) -> bool {
        true
    }

    open spec fn spec_format(&self) -> Seq<u8> {
        match self {
            ColorInterpolationFilter::Auto => seq![97u8, 117u8, 116u8, 111u8],
            ColorInterpolationFilter::SRGB => seq![115u8, 82u8, 71u8, 66u8],
            ColorInterpolationFilter::LinearRGB => seq![108u8, 105u8, 110u8, 101u8, 97u8, 114u8, 82u8, 71u8, 66u8],
        }
    }

    open spec fn spec_canonical(s: Seq<u8>) -> Option<Seq<u8>> {
        if s == seq![97u8, 117u8, 116u8, 111u8] {
            Some(s)
        } else if s == seq![115u8, 82u8, 71u8, 66u8] {
            Some(s)
        } else if s == seq![108u8, 105u8, 110u8, 101u8, 97u8, 114u8, 82u8, 71u8, 66u8] {
            Some(s)
        } else {
            None
        }
    }

    fn parse(s: &[u8]) -> (r: Option<ColorInterpolationFilter>) {
        if bytes_eq(s, &[97u8, 117u8, 116u8, 111u8]) {
            return Some(ColorInterpolationFilter::Auto);
        }
        if bytes_eq(s, &[115u8, 82u8, 71u8, 66u8]) {
            return Some(ColorInterpolationFilter::SRGB);
        }
        if bytes_eq(s, &[108u8, 105u8, 110u8, 101u8, 97u8, 114u8, 82u8, 71u8, 66u8]) {
            return Some(ColorInterpolationFilter::LinearRGB);
        }
        None
    }

    fn write_to(&self, out: &mut Vec<u8>) {
        match self {
            ColorInterpolationFilter::Auto => append_bytes(out, &[97u8, 117u8, 116u8, 111u8]),
            ColorInterpolationFilter::SRGB => append_bytes(out, &[115u8, 82u8, 71u8, 66u8]),
            ColorInterpolationFilter::LinearRGB => append_bytes(out, &[108u8, 105u8, 110u8, 101u8, 97u8, 114u8, 82u8, 71u8, 66u8]),
        }
    }
}

/// The `Cursor` keywords.
#[derive(Clone, Copy, Debug, PartialEq, Eq, Structural)]
pub enum Cursor {
    Auto,
    Crosshair,
    Default,
    Pointer,
    Move,
    EResize,
    NEResize,
    NWResize,
    NResize,
    SEResize,
    SWResize,
    SResize,
    WResize,
    Text,
    Wait,
    Help,
    Inherit,
}

impl Cursor {
    pub open spec fn spec_str(&self) -> Seq<char> {
        match self {
            Cursor::Auto => "auto"@,
            Cursor::Crosshair => "crosshair"@,
            Cursor::Default => "default"@,
            Cursor::Pointer => "pointer"@,
            Cursor::Move => "move"@,
            Cursor::EResize => "e-resize"@,
            Cursor::NEResize => "ne-resize"@,
            Cursor::NWResize => "nw-resize"@,
            Cursor::NResize => "n-resize"@,
            Cursor::SEResize => "se-resize"@,
            Cursor::SWResize => "sw-resize"@,
            Cursor::SResize => "s-resize"@,
            Cursor::WResize => "w-resize"@,
            Cursor::Text => "text"@,
            Cursor::Wait => "wait"@,
            Cursor::Help => "help"@,
            Cursor::Inherit => "inherit"@,
        }
    }

    pub fn as_str(&self) -> (r: &'static str)
        ensures
            r@ == self.spec_str(),
    {
        match self {
            Cursor::Auto => "auto",
            Cursor::Crosshair => "crosshair",
            Cursor::Default => "default",
            Cursor::Pointer => "pointer",
            Cursor::Move => "move",
            Cursor::EResize => "e-resize",
            Cursor::NEResize => "ne-resize",
            Cursor::NWResize => "nw-resize",
            Cursor::NResize => "n-resize",
            Cursor::SEResize => "se-resize",
            Cursor::SWResize => "sw-resize",
            Cursor::SResize => "s-resize",
            Cursor::WResize => "w-resize",
            Cursor::Text => "text",
            Cursor::Wait => "wait",
            Cursor::Help => "help",
            Cursor::Inherit => "inherit",
        }
    }

    /// The keyword reads back as itself.
    pub proof fn lemma_format_round_trip(&self)
        ensures
            Self::spec_canonical(self.spec_format()) == Some(self.spec_format()),
    {
    }
}

impl Grammar for Cursor {
    open spec fn spec_wf(&self) -> bool {
        true
    }

    open spec fn spec_format(&self) -> Seq<u8> {
        match self {
            Cursor::Auto => seq![97u8, 117u8, 116u8, 111u8],
            Cursor::Crosshair => seq![99u8, 114u8, 111u8, 115u8, 115u8, 104u8, 97u8, 105u8, 114u8],
            Cursor::Default => seq![100u8, 101u8, 102u8, 97u8, 117u8, 108u8, 116u8],
            Cursor::Pointer => seq![112u8, 111u8, 105u8, 110u8, 116u8, 101u8, 114u8],
            Cursor::Move => seq![109u8, 111u8, 118u8, 101u8],
            Cursor::EResize => seq![101u8, 45u8, 114u8, 101u8, 115u8, 105u8, 122u8, 101u8],
            Cursor::NEResize => seq![110u8, 101u8, 45u8, 114u8, 101u8, 115u8, 105u8, 122u8, 101u8],
            Cursor::NWResize => seq![110u8, 119u8, 45u8, 114u8, 101u8, 115u8, 105u8, 122u8, 101u8],
            Cursor::NResize => seq![110u8, 45u8, 114u8, 101u8, 115u8, 105u8, 122u8, 101u8],
            Cursor::SEResize => seq![115u8, 101u8, 45u8, 114u8, 101u8, 115u8, 105u8, 122u8, 101u8],
            Cursor::SWResize => seq![115u8, 119u8, 45u8, 114u8, 101u8, 115u8, 105u8, 122u8, 101u8],
            Cursor::SResize => seq![115u8, 45u8, 114u8, 101u8, 115u8, 105u8, 122u8, 101u8],
            Cursor::WResize => seq![119u8, 45u8, 114u8, 101u8, 115u8, 105u8, 122u8, 101u8],
            Cursor::Text => seq![116u8, 101u8, 120u8, 116u8],
            Cursor::Wait => seq![119u8, 97u8, 105u8, 116u8],
            Cursor::Help => seq![104u8, 101u8, 108u8, 112u8],
            Cursor::Inherit => seq![105u8, 110u8, 104u8, 101u8, 114u8, 105u8, 116u8],
        }
    }

    open spec fn spec_canonical(s: Seq<u8>) -> Option<Seq<u8>> {
        if s == seq![97u8, 117u8, 116u8, 111u8] {
            Some(s)
        } else if s == seq![99u8, 114u8, 111u8, 115u8, 115u8, 104u8, 97u8, 105u8, 114u8] {
            Some(s)
        } else if s == seq![100u8, 101u8, 102u8, 97u8, 117u8, 108u8, 116u8] {
            Some(s)
        } else if s == seq![112u8, 111u8, 105u8, 110u8, 116u8, 101u8, 114u8] {
            Some(s)
        } else if s == seq![109u8, 111u8, 118u8, 101u8] {
            Some(s)
        } else if s == seq![101u8, 45u8, 114u8, 101u8, 115u8, 105u8, 122u8, 101u8] {
            Some(s)
        } else if s == seq![110u8, 101u8, 45u8, 114u8, 101u8, 115u8, 105u8, 122u8, 101u8] {
            Some(s)
        } else if s == seq![110u8, 119u8, 45u8, 114u8, 101u8, 115u8, 105u8, 122u8, 101u8] {
            Some(s)
        } else if s == seq![110u8, 45u8, 114u8, 101u8, 115u8, 105u8, 122u8, 101u8] {
            Some(s)
        } else if s == seq![115u8, 101u8, 45u8, 114u8, 101u8, 115u8, 105u8, 122u8, 101u8] {
            Some(s)
        } else if s == seq![115u8, 119u8, 45u8, 114u8, 101u8, 115u8, 105u8, 122u8, 101u8] {
            Some(s)
        } else if s == seq![115u8, 45u8, 114u8, 101u8, 115u8, 105u8, 122u8, 101u8] {
            Some(s)
        } else if s == seq![119u8, 45u8, 114u8, 101u8, 115u8, 105u8, 122u8, 101u8] {
            Some(s)
        } else if s == seq![116u8, 101u8, 120u8, 116u8] {
            Some(s)
        } else if s == seq![119u8, 97u8, 105u8, 116u8] {
            Some(s)
        } else if s == seq![104u8, 101u8, 108u8, 112u8] {
            Some(s)
        } else if s == seq![105u8, 110u8, 104u8, 101u8, 114u8, 105u8, 116u8] {
            Some(s)
        } else {
            None
        }
    }

    fn parse(s: &[u8]) -> (r: Option<Cursor>) {
        if bytes_eq(s, &[97u8, 117u8, 116u8, 111u8]) {
            return Some(Cursor::Auto);
        }
        if bytes_eq(s, &[99u8, 114u8, 111u8, 115u8, 115u8, 104u8, 97u8, 105u8, 114u8]) {
            return Some(Cursor::Crosshair);
        }
        if bytes_eq(s, &[100u8, 101u8, 102u8, 97u8, 117u8, 108u8, 116u8]) {
            return Some(Cursor::Default);
        }
        if bytes_eq(s, &[112u8, 111u8, 105u8, 110u8, 116u8, 101u8, 114u8]) {
            return Some(Cursor::Pointer);
        }
        if bytes_eq(s, &[109u8, 111u8, 118u8, 101u8]) {
            return Some(Cursor::Move);
        }
        if bytes_eq(s, &[101u8, 45u8, 114u8, 101u8, 115u8, 105u8, 122u8, 101u8]) {
            return Some(Cursor::EResize);
        }
        if bytes_eq(s, &[110u8, 101u8, 45u8, 114u8, 101u8, 115u8, 105u8, 122u8, 101u8]) {
            return Some(Cursor::NEResize);
        }
        if bytes_eq(s, &[110u8, 119u8, 45u8, 114u8, 101u8, 115u8, 105u8, 122u8, 101u8]) {
            return Some(Cursor::NWResize);
        }
        if bytes_eq(s, &[110u8, 45u8, 114u8, 101u8, 115u8, 105u8, 122u8, 101u8]) {
            return Some(Cursor::NResize);
        }
        if bytes_eq(s, &[115u8, 101u8, 45u8, 114u8, 101u8, 115u8, 105u8, 122u8, 101u8]) {
            return Some(Cursor::SEResize);
        }
        if bytes_eq(s, &[115u8, 119u8, 45u8, 114u8, 101u8, 115u8, 105u8, 122u8, 101u8]) {
            return Some(Cursor::SWResize);
        }
        if bytes_eq(s, &[115u8, 45u8, 114u8, 101u8, 115u8, 105u8, 122u8, 101u8]) {
            return Some(Cursor::SResize);
        }
        if bytes_eq(s, &[119u8, 45u8, 114u8, 101u8, 115u8, 105u8, 122u8, 101u8]) {
            return Some(Cursor::WResize);
        }
        if bytes_eq(s, &[116u8, 101u8, 120u8, 116u8]) {
            return Some(Cursor::Text);
        }
        if bytes_eq(s, &[119u8, 97u8, 105u8, 116u8]) {
            return Some(Cursor::Wait);
        }
        if bytes_eq(s, &[104u8, 101u8, 108u8, 112u8]) {
            return Some(Cursor::Help);
        }
        if bytes_eq(s, &[105u8, 110u8, 104u8, 101u8, 114u8, 105u8, 116u8]) {
            return Some(Cursor::Inherit);
        }
        None
    }

    fn write_to(&self, out: &mut Vec<u8>) {
        match self {
            Cursor::Auto => append_bytes(out, &[97u8, 117u8, 116u8, 111u8]),
            Cursor::Crosshair => append_bytes(out, &[99u8, 114u8, 111u8, 115u8, 115u8, 104u8, 97u8, 105u8, 114u8]),
            Cursor::Default => append_bytes(out, &[100u8, 101u8, 102u8, 97u8, 117u8, 108u8, 116u8]),
            Cursor::Pointer => append_bytes(out, &[112u8, 111u8, 105u8, 110u8, 116u8, 101u8, 114u8]),
            Cursor::Move => append_bytes(out, &[109u8, 111u8, 118u8, 101u8]),
            Cursor::EResize => append_bytes(out, &[101u8, 45u8, 114u8, 101u8, 115u8, 105u8, 122u8, 101u8]),
            Cursor::NEResize => append_bytes(out, &[110u8, 101u8, 45u8, 114u8, 101u8, 115u8, 105u8, 122u8, 101u8]),
            Cursor::NWResize => append_bytes(out, &[110u8, 119u8, 45u8, 114u8, 101u8, 115u8, 105u8, 122u8, 101u8]),
            Cursor::NResize => append_bytes(out, &[110u8, 45u8, 114u8, 101u8, 115u8, 105u8, 122u8, 101u8]),
            Cursor::SEResize => append_bytes(out, &[115u8, 101u8, 45u8, 114u8, 101u8, 115u8, 105u8, 122u8, 101u8]),
            Cursor::SWResize => append_bytes(out, &[115u8, 119u8, 45u8, 114u8, 101u8, 115u8, 105u8, 122u8, 101u8]),
            Cursor::SResize => append_bytes(out, &[115u8, 45u8, 114u8, 101u8, 115u8, 105u8, 122u8, 101u8]),
            Cursor::WResize => append_bytes(out, &[119u8, 45u8, 114u8, 101u8, 115u8, 105u8, 122u8, 101u8]),
            Cursor::Text => append_bytes(out, &[116u8, 101u8, 120u8, 116u8]),
            Cursor::Wait => append_bytes(out, &[119u8, 97u8, 105u8, 116u8]),
            Cursor::Help => append_bytes(out, &[104u8, 101u8, 108u8, 112u8]),
            Cursor::Inherit => append_bytes(out, &[105u8, 110u8, 104u8, 101u8, 114u8, 105u8, 116u8]),
        }
    }
}

/// The `TextDirection` keywords.
#[derive(Clone, Copy, Debug, PartialEq, Eq, Structural)]
pub enum TextDirection {
    Ltr,
    Rtl,
}

impl TextDirection {
    pub open spec fn spec_str(&self) -> Seq<char> {
        match self {
            TextDirection::Ltr => "ltr"@,
            TextDirection::Rtl => "rtl"@,
        }
    }

    pub fn as_str(&self) -> (r: &'static str)
        ensures
            r@ == self.spec_str(),
    {
        match self {
            TextDirection::Ltr => "ltr",
            TextDirection::Rtl => "rtl",
        }
    }

    /// The keyword reads back as itself.
    pub proof fn lemma_format_round_trip(&self)
        ensures
            Self::spec_canonical(self.spec_format()) == Some(self.spec_format()),
    {
    }
}

impl Grammar for TextDirection {
    open spec fn spec_wf(&self) -> bool {
        true
    }

    open spec fn spec_format(&self) -> Seq<u8> {
        match self {
            TextDirection::Ltr => seq![108u8, 116u8, 114u8],
            TextDirection::Rtl => seq![114u8, 116u8, 108u8],
        }
    }

    open spec fn spec_canonical(s: Seq<u8>) -> Option<Seq<u8>> {
        if s == seq![108u8, 116u8, 114u8] {
            Some(s)
        } else if s == seq![114u8, 116u8, 108u8] {
            Some(s)
        } else {
            None
        }
    }

    fn parse(s: &[u8]) -> (r: Option<TextDirection>) {
        if bytes_eq(s, &[108u8, 116u8, 114u8]) {
            return Some(TextDirection::Ltr);
        }
        if bytes_eq(s, &[114u8, 116u8, 108u8]) {
            return Some(TextDirection::Rtl);
        }
        None
    }

    fn write_to(&self, out: &mut Vec<u8>) {
        match self {
            TextDirection::Ltr => append_bytes(out, &[108u8, 116u8, 114u8]),
            TextDirection::Rtl => append_bytes(out, &[114u8, 116u8, 108u8]),
        }
    }
}

/// The `Display` keywords.
#[derive(Clone, Copy, Debug, PartialEq, Eq, Structural)]
pub enum Display {
    Inline,
    Block,
    RunIn,
    Flow,
    FlowRoot,
    Table,
    Flex,
    Grid,
    Ruby,
    ListItem,
    TableRowGroup,
    TableHeaderGroup,
    TableFooterGroup,
    TableRow,
    TableCell,
    TableColumnGroup,
    TableColumn,
    TableCaption,
    RubyBase,
    RubyText,
    RubyBaseContainer,
    RubyTextContainer,
    Contents,
    NoneValue,
    InlineBlock,
    InlineTable,
    InlineFlex,
    InlineGrid,
}

impl Display {
    pub open spec fn spec_str(&self) -> Seq<char> {
        match self {
            Display::Inline => "inline"@,
            Display::Block => "block"@,
            Display::RunIn => "run-in"@,
            Display::Flow => "flow"@,
            Display::FlowRoot => "flow-root"@,
            Display::Table => "table"@,
            Display::Flex => "flex"@,
            Display::Grid => "grid"@,
            Display::Ruby => "ruby"@,
            Display::ListItem => "list-item"@,
            Display::TableRowGroup => "table-row-group"@,
            Display::TableHeaderGroup => "table-header-group"@,
            Display::TableFooterGroup => "table-footer-group"@,
            Display::TableRow => "table-row"@,
            Display::TableCell => "table-cell"@,
            Display::TableColumnGroup => "table-column-group"@,
            Display::TableColumn => "table-column"@,
            Display::TableCaption => "table-caption"@,
            Display::RubyBase => "ruby-base"@,
            Display::RubyText => "ruby-text"@,
            Display::RubyBaseContainer => "ruby-base-container"@,
            Display::RubyTextContainer => "ruby-text-container"@,
            Display::Contents => "contents"@,
            Display::NoneValue => "none"@,
            Display::InlineBlock => "inline-block"@,
            Display::InlineTable => "inline-table"@,
            Display::InlineFlex => "inline-flex"@,
            Display::InlineGrid => "inline-grid"@,
        }
    }

    pub fn as_str(&self) -> (r: &'static str)
        ensures
            r@ == self.spec_str(),
    {
        match self {
            Display::Inline => "inline",
            Display::Block => "block",
            Display::RunIn => "run-in",
            Display::Flow => "flow",
            Display::FlowRoot => "flow-root",
            Display::Table => "table",
            Display::Flex => "flex",
            Display::Grid => "grid",
            Display::Ruby => "ruby",
            Display::ListItem => "list-item",
            Display::TableRowGroup => "table-row-group",
            Display::TableHeaderGroup => "table-header-group",
            Display::TableFooterGroup => "table-footer-group",
            Display::TableRow => "table-row",
            Display::TableCell => "table-cell",
            Display::TableColumnGroup => "table-column-group",
            Display::TableColumn => "table-column",
            Display::TableCaption => "table-caption",
            Display::RubyBase => "ruby-base",
            Display::RubyText => "ruby-text",
            Display::RubyBaseContainer => "ruby-base-container",
            Display::RubyTextContainer => "ruby-text-container",
            Display::Contents => "contents",
            Display::NoneValue => "none",
            Display::InlineBlock => "inline-block",
            Display::InlineTable => "inline-table",
            Display::InlineFlex => "inline-flex",
            Display::InlineGrid => "inline-grid",
        }
    }

    /// The keyword reads back as itself.
    pub proof fn lemma_format_round_trip(&self)
        ensures
            Self::spec_canonical(self.spec_format()) == Some(self.spec_format()),
    {
    }
}

impl Grammar for Display {
    open spec fn spec_wf(&self) -> bool {
        true
    }

    open spec fn spec_format(&self) -> Seq<u8> {
        match self {
            Display::Inline => seq![105u8, 110u8, 108u8, 105u8, 110u8, 101u8],
            Display::Block => seq![98u8, 108u8, 111u8, 99u8, 107u8],
            Display::RunIn => seq![114u8, 117u8, 110u8, 45u8, 105u8, 110u8],
            Display::Flow => seq![102u8, 108u8, 111u8, 119u8],
            Display::FlowRoot => seq![102u8, 108u8, 111u8, 119u8, 45u8, 114u8, 111u8, 111u8, 116u8],
            Display::Table => seq![116u8, 97u8, 98u8, 108u8, 101u8],
            Display::Flex => seq![102u8, 108u8, 101u8, 120u8],
            Display::Grid => seq![103u8, 114u8, 105u8, 100u8],
            Display::Ruby => seq![114u8, 117u8, 98u8, 121u8],
            Display::ListItem => seq![108u8, 105u8, 115u8, 116u8, 45u8, 105u8, 116u8, 101u8, 109u8],
            Display::TableRowGroup => seq![116u8, 97u8, 98u8, 108u8, 101u8, 45u8, 114u8, 111u8, 119u8, 45u8, 103u8, 114u8, 111u8, 117u8, 112u8],
            Display::TableHeaderGroup => seq![116u8, 97u8, 98u8, 108u8, 101u8, 45u8, 104u8, 101u8, 97u8, 100u8, 101u8, 114u8, 45u8, 103u8, 114u8, 111u8, 117u8, 112u8],
            Display::TableFooterGroup => seq![116u8, 97u8, 98u8, 108u8, 101u8, 45u8, 102u8, 111u8, 111u8, 116u8, 101u8, 114u8, 45u8, 103u8, 114u8, 111u8, 117u8, 112u8],
            Display::TableRow => seq![116u8, 97u8, 98u8, 108u8, 101u8, 45u8, 114u8, 111u8, 119u8],
            Display::TableCell => seq![116u8, 97u8, 98u8, 108u8, 101u8, 45u8, 99u8, 101u8, 108u8, 108u8],
            Display::TableColumnGroup => seq![116u8, 97u8, 98u8, 108u8, 101u8, 45u8, 99u8, 111u8, 108u8, 117u8, 109u8, 110u8, 45u8, 103u8, 114u8, 111u8, 117u8, 112u8],
            Display::TableColumn => seq![116u8, 97u8, 98u8, 108u8, 101u8, 45u8, 99u8, 111u8, 108u8, 117u8, 109u8, 110u8],
            Display::TableCaption => seq![116u8, 97u8, 98u8, 108u8, 101u8, 45u8, 99u8, 97u8, 112u8, 116u8, 105u8, 111u8, 110u8],
            Display::RubyBase => seq![114u8, 117u8, 98u8, 121u8, 45u8, 98u8, 97u8, 115u8, 101u8],
            Display::RubyText => seq![114u8, 117u8, 98u8, 121u8, 45u8, 116u8, 101u8, 120u8, 116u8],
            Display::RubyBaseContainer => seq![114u8, 117u8, 98u8, 121u8, 45u8, 98u8, 97u8, 115u8, 101u8, 45u8, 99u8, 111u8, 110u8, 116u8, 97u8, 105u8, 110u8, 101u8, 114u8],
            Display::RubyTextContainer => seq![114u8, 117u8, 98u8, 121u8, 45u8, 116u8, 101u8, 120u8, 116u8, 45u8, 99u8, 111u8, 110u8, 116u8, 97u8, 105u8, 110u8, 101u8, 114u8],
            Display::Contents => seq![99u8, 111u8, 110u8, 116u8, 101u8, 110u8, 116u8, 115u8],
            Display::NoneValue => seq![110u8, 111u8, 110u8, 101u8],
            Display::InlineBlock => seq![105u8, 110u8, 108u8, 105u8, 110u8, 101u8, 45u8, 98u8, 108u8, 111u8, 99u8, 107u8],
            Display::InlineTable => seq![105u8, 110u8, 108u8, 105u8, 110u8, 101u8, 45u8, 116u8, 97u8, 98u8, 108u8, 101u8],
            Display::InlineFlex => seq![105u8, 110u8, 108u8, 105u8, 110u8, 101u8, 45u8, 102u8, 108u8, 101u8, 120u8],
            Display::InlineGrid => seq![105u8, 110u8, 108u8, 105u8, 110u8, 101u8, 45u8, 103u8, 114u8, 105u8, 100u8],
        }
    }

    open spec fn spec_canonical(s: Seq<u8>) -> Option<Seq<u8>> {
        if s == seq![105u8, 110u8, 108u8, 105u8, 110u8, 101u8] {
            Some(s)
        } else if s == seq![98u8, 108u8, 111u8, 99u8, 107u8] {
            Some(s)
        } else if s == seq![114u8, 117u8, 110u8, 45u8, 105u8, 110u8] {
            Some(s)
        } else if s == seq![102u8, 108u8, 111u8, 119u8] {
            Some(s)
        } else if s == seq![102u8, 108u8, 111u8, 119u8, 45u8, 114u8, 111u8, 111u8, 116u8] {
            Some(s)
        } else if s == seq![116u8, 97u8, 98u8, 108u8, 101u8] {
            Some(s)
        } else if s == seq![102u8, 108u8, 101u8, 120u8] {
            Some(s)
        } else if s == seq![103u8, 114u8, 105u8, 100u8] {
            Some(s)
        } else if s == seq![114u8, 117u8, 98u8, 121u8] {
            Some(s)
        } else if s == seq![108u8, 105u8, 115u8, 116u8, 45u8, 105u8, 116u8, 101u8, 109u8] {
            Some(s)
        } else if s == seq![116u8, 97u8, 98u8, 108u8, 101u8, 45u8, 114u8, 111u8, 119u8, 45u8, 103u8, 114u8, 111u8, 117u8, 112u8] {
            Some(s)
        } else if s == seq![116u8, 97u8, 98u8, 108u8, 101u8, 45u8, 104u8, 101u8, 97u8, 100u8, 101u8, 114u8, 45u8, 103u8, 114u8, 111u8, 117u8, 112u8] {
            Some(s)
        } else if s == seq![116u8, 97u8, 98u8, 108u8, 101u8, 45u8, 102u8, 111u8, 111u8, 116u8, 101u8, 114u8, 45u8, 103u8, 114u8, 111u8, 117u8, 112u8] {
            Some(s)
        } else if s == seq![116u8, 97u8, 98u8, 108u8, 101u8, 45u8, 114u8, 111u8, 119u8] {
            Some(s)
        } else if s == seq![116u8, 97u8, 98u8, 108u8, 101u8, 45u8, 99u8, 101u8, 108u8, 108u8] {
            Some(s)
        } else if s == seq![116u8, 97u8, 98u8, 108u8, 101u8, 45u8, 99u8, 111u8, 108u8, 117u8, 109u8, 110u8, 45u8, 103u8, 114u8, 111u8, 117u8, 112u8] {
            Some(s)
        } else if s == seq![116u8, 97u8, 98u8, 108u8, 101u8, 45u8, 99u8, 111u8, 108u8, 117u8, 109u8, 110u8] {
            Some(s)
        } else if s == seq![116u8, 97u8, 98u8, 108u8, 101u8, 45u8, 99u8, 97u8, 112u8, 116u8, 105u8, 111u8, 110u8] {
            Some(s)
        } else if s == seq![114u8, 117u8, 98u8, 121u8, 45u8, 98u8, 97u8, 115u8, 101u8] {
            Some(s)
        } else if s == seq![114u8, 117u8, 98u8, 121u8, 45u8, 116u8, 101u8, 120u8, 116u8] {
            Some(s)
        } else if s == seq![114u8, 117u8, 98u8, 121u8, 45u8, 98u8, 97u8, 115u8, 101u8, 45u8, 99u8, 111u8, 110u8, 116u8, 97u8, 105u8, 110u8, 101u8, 114u8] {
            Some(s)
        } else if s == seq![114u8, 117u8, 98u8, 121u8, 45u8, 116u8, 101u8, 120u8, 116u8, 45u8, 99u8, 111u8, 110u8, 116u8, 97u8, 105u8, 110u8, 101u8, 114u8] {
            Some(s)
        } else if s == seq![99u8, 111u8, 110u8, 116u8, 101u8, 110u8, 116u8, 115u8] {
            Some(s)
        } else if s == seq![110u8, 111u8, 110u8, 101u8] {
            Some(s)
        } else if s == seq![105u8, 110u8, 108u8, 105u8, 110u8, 101u8, 45u8, 98u8, 108u8, 111u8, 99u8, 107u8] {
            Some(s)
        } else if s == seq![105u8, 110u8, 108u8, 105u8, 110u8, 101u8, 45u8, 116u8, 97u8, 98u8, 108u8, 101u8] {
            Some(s)
        } else if s == seq![105u8, 110u8, 108u8, 105u8, 110u8, 101u8, 45u8, 102u8, 108u8, 101u8, 120u8] {
            Some(s)
        } else if s == seq![105u8, 110u8, 108u8, 105u8, 110u8, 101u8, 45u8, 103u8, 114u8, 105u8, 100u8] {
            Some(s)
        } else {
            None
        }
    }

    #[verifier::rlimit(100)]
    fn parse(s: &[u8]) -> (r: Option<Display>) {
        if bytes_eq(s, &[105u8, 110u8, 108u8, 105u8, 110u8, 101u8]) {
            return Some(Display::Inline);
        }
        if bytes_eq(s, &[98u8, 108u8, 111u8, 99u8, 107u8]) {
            return Some(Display::Block);
        }
        if bytes_eq(s, &[114u8, 117u8, 110u8, 45u8, 105u8, 110u8]) {
            return Some(Display::RunIn);
        }
        if bytes_eq(s, &[102u8, 108u8, 111u8, 119u8]) {
            return Some(Display::Flow);
        }
        if bytes_eq(s, &[102u8, 108u8, 111u8, 119u8, 45u8, 114u8, 111u8, 111u8, 116u8]) {
            return Some(Display::FlowRoot);
        }
        if bytes_eq(s, &[116u8, 97u8, 98u8, 108u8, 101u8]) {
            return Some(Display::Table);
        }
        if bytes_eq(s, &[102u8, 108u8, 101u8, 120u8]) {
            return Some(Display::Flex);
        }
        if bytes_eq(s, &[103u8, 114u8, 105u8, 100u8]) {
            return Some(Display::Grid);
        }
        if bytes_eq(s, &[114u8, 117u8, 98u8, 121u8]) {
            return Some(Display::Ruby);
        }
        if bytes_eq(s, &[108u8, 105u8, 115u8, 116u8, 45u8, 105u8, 116u8, 101u8, 109u8]) {
            return Some(Display::ListItem);
        }
        if bytes_eq(s, &[116u8, 97u8, 98u8, 108u8, 101u8, 45u8, 114u8, 111u8, 119u8, 45u8, 103u8, 114u8, 111u8, 117u8, 112u8]) {
            return Some(Display::TableRowGroup);
        }
        if bytes_eq(s, &[116u8, 97u8, 98u8, 108u8, 101u8, 45u8, 104u8, 101u8, 97u8, 100u8, 101u8, 114u8, 45u8, 103u8, 114u8, 111u8, 117u8, 112u8]) {
            return Some(Display::TableHeaderGroup);
        }
        if bytes_eq(s, &[116u8, 97u8, 98u8, 108u8, 101u8, 45u8, 102u8, 111u8, 111u8, 116u8, 101u8, 114u8, 45u8, 103u8, 114u8, 111u8, 117u8, 112u8]) {
            return Some(Display::TableFooterGroup);
        }
        if bytes_eq(s, &[116u8, 97u8, 98u8, 108u8, 101u8, 45u8, 114u8, 111u8, 119u8]) {
            return Some(Display::TableRow);
        }
        if bytes_eq(s, &[116u8, 97u8, 98u8, 108u8, 101u8, 45u8, 99u8, 101u8, 108u8, 108u8]) {
            return Some(Display::TableCell);
        }
        if bytes_eq(s, &[116u8, 97u8, 98u8, 108u8, 101u8, 45u8, 99u8, 111u8, 108u8, 117u8, 109u8, 110u8, 45u8, 103u8, 114u8, 111u8, 117u8, 112u8]) {
            return Some(Display::TableColumnGroup);
        }
        if bytes_eq(s, &[116u8, 97u8, 98u8, 108u8, 101u8, 45u8, 99u8, 111u8, 108u8, 117u8, 109u8, 110u8]) {
            return Some(Display::TableColumn);
        }
        if bytes_eq(s, &[116u8, 97u8, 98u8, 108u8, 101u8, 45u8, 99u8, 97u8, 112u8, 116u8, 105u8, 111u8, 110u8]) {
            return Some(Display::TableCaption);
        }
        if bytes_eq(s, &[114u8, 117u8, 98u8, 121u8, 45u8, 98u8, 97u8, 115u8, 101u8]) {
            return Some(Display::RubyBase);
        }
        if bytes_eq(s, &[114u8, 117u8, 98u8, 121u8, 45u8, 116u8, 101u8, 120u8, 116u8]) {
            return Some(Display::RubyText);
        }
        if bytes_eq(s, &[114u8, 117u8, 98u8, 121u8, 45u8, 98u8, 97u8, 115u8, 101u8, 45u8, 99u8, 111u8, 110u8, 116u8, 97u8, 105u8, 110u8, 101u8, 114u8]) {
            return Some(Display::RubyBaseContainer);
        }
        if bytes_eq(s, &[114u8, 117u8, 98u8, 121u8, 45u8, 116u8, 101u8, 120u8, 116u8, 45u8, 99u8, 111u8, 110u8, 116u8, 97u8, 105u8, 110u8, 101u8, 114u8]) {
            return Some(Display::RubyTextContainer);
        }
        if bytes_eq(s, &[99u8, 111u8, 110u8, 116u8, 101u8, 110u8, 116u8, 115u8]) {
            return Some(Display::Contents);
        }
        if bytes_eq(s, &[110u8, 111u8, 110u8, 101u8]) {
            return Some(Display::NoneValue);
        }
        if bytes_eq(s, &[105u8, 110u8, 108u8, 105u8, 110u8, 101u8, 45u8, 98u8, 108u8, 111u8, 99u8, 107u8]) {
            return Some(Display::InlineBlock);
        }
        if bytes_eq(s, &[105u8, 110u8, 108u8, 105u8, 110u8, 101u8, 45u8, 116u8, 97u8, 98u8, 108u8, 101u8]) {
            return Some(Display::InlineTable);
        }
        if bytes_eq(s, &[105u8, 110u8, 108u8, 105u8, 110u8, 101u8, 45u8, 102u8, 108u8, 101u8, 120u8]) {
            return Some(Display::InlineFlex);
        }
        if bytes_eq(s, &[105u8, 110u8, 108u8, 105u8, 110u8, 101u8, 45u8, 103u8, 114u8, 105u8, 100u8]) {
            return Some(Display::InlineGrid);
        }
        None
    }

    fn write_to(&self, out: &mut Vec<u8>) {
        match self {
            Display::Inline => append_bytes(out, &[105u8, 110u8, 108u8, 105u8, 110u8, 101u8]),
            Display::Block => append_bytes(out, &[98u8, 108u8, 111u8, 99u8, 107u8]),
            Display::RunIn => append_bytes(out, &[114u8, 117u8, 110u8, 45u8, 105u8, 110u8]),
            Display::Flow => append_bytes(out, &[102u8, 108u8, 111u8, 119u8]),
            Display::FlowRoot => append_bytes(out, &[102u8, 108u8, 111u8, 119u8, 45u8, 114u8, 111u8, 111u8, 116u8]),
            Display::Table => append_bytes(out, &[116u8, 97u8, 98u8, 108u8, 101u8]),
            Display::Flex => append_bytes(out, &[102u8, 108u8, 101u8, 120u8]),
            Display::Grid => append_bytes(out, &[103u8, 114u8, 105u8, 100u8]),
            Display::Ruby => append_bytes(out, &[114u8, 117u8, 98u8, 121u8]),
            Display::ListItem => append_bytes(out, &[108u8, 105u8, 115u8, 116u8, 45u8, 105u8, 116u8, 101u8, 109u8]),
            Display::TableRowGroup => append_bytes(out, &[116u8, 97u8, 98u8, 108u8, 101u8, 45u8, 114u8, 111u8, 119u8, 45u8, 103u8, 114u8, 111u8, 117u8, 112u8]),
            Display::TableHeaderGroup => append_bytes(out, &[116u8, 97u8, 98u8, 108u8, 101u8, 45u8, 104u8, 101u8, 97u8, 100u8, 101u8, 114u8, 45u8, 103u8, 114u8, 111u8, 117u8, 112u8]),
            Display::TableFooterGroup => append_bytes(out, &[116u8, 97u8, 98u8, 108u8, 101u8, 45u8, 102u8, 111u8, 111u8, 116u8, 101u8, 114u8, 45u8, 103u8, 114u8, 111u8, 117u8, 112u8]),
            Display::TableRow => append_bytes(out, &[116u8, 97u8, 98u8, 108u8, 101u8, 45u8, 114u8, 111u8, 119u8]),
            Display::TableCell => append_bytes(out, &[116u8, 97u8, 98u8, 108u8, 101u8, 45u8, 99u8, 101u8, 108u8, 108u8]),
            Display::TableColumnGroup => append_bytes(out, &[116u8, 97u8, 98u8, 108u8, 101u8, 45u8, 99u8, 111u8, 108u8, 117u8, 109u8, 110u8, 45u8, 103u8, 114u8, 111u8, 117u8, 112u8]),
            Display::TableColumn => append_bytes(out, &[116u8, 97u8, 98u8, 108u8, 101u8, 45u8, 99u8, 111u8, 108u8, 117u8, 109u8, 110u8]),
            Display::TableCaption => append_bytes(out, &[116u8, 97u8, 98u8, 108u8, 101u8, 45u8, 99u8, 97u8, 112u8, 116u8, 105u8, 111u8, 110u8]),
            Display::RubyBase => append_bytes(out, &[114u8, 117u8, 98u8, 121u8, 45u8, 98u8, 97u8, 115u8, 101u8]),
            Display::RubyText => append_bytes(out, &[114u8, 117u8, 98u8, 121u8, 45u8, 116u8, 101u8, 120u8, 116u8]),
            Display::RubyBaseContainer => append_bytes(out, &[114u8, 117u8, 98u8, 121u8, 45u8, 98u8, 97u8, 115u8, 101u8, 45u8, 99u8, 111u8, 110u8, 116u8, 97u8, 105u8, 110u8, 101u8, 114u8]),
            Display::RubyTextContainer => append_bytes(out, &[114u8, 117u8, 98u8, 121u8, 45u8, 116u8, 101u8, 120u8, 116u8, 45u8, 99u8, 111u8, 110u8, 116u8, 97u8, 105u8, 110u8, 101u8, 114u8]),
            Display::Contents => append_bytes(out, &[99u8, 111u8, 110u8, 116u8, 101u8, 110u8, 116u8, 115u8]),
            Display::NoneValue => append_bytes(out, &[110u8, 111u8, 110u8, 101u8]),
            Display::InlineBlock => append_bytes(out, &[105u8, 110u8, 108u8, 105u8, 110u8, 101u8, 45u8, 98u8, 108u8, 111u8, 99u8, 107u8]),
            Display::InlineTable => append_bytes(out, &[105u8, 110u8, 108u8, 105u8, 110u8, 101u8, 45u8, 116u8, 97u8, 98u8, 108u8, 101u8]),
            Display::InlineFlex => append_bytes(out, &[105u8, 110u8, 108u8, 105u8, 110u8, 101u8, 45u8, 102u8, 108u8, 101u8, 120u8]),
            Display::InlineGrid => append_bytes(out, &[105u8, 110u8, 108u8, 105u8, 110u8, 101u8, 45u8, 103u8, 114u8, 105u8, 100u8]),
        }
    }
}

/// The `DominantBaseline` keywords.
#[derive(Clone, Copy, Debug, PartialEq, Eq, Structural)]
pub enum DominantBaseline {
    Auto,
    TextBottom,
    Alphabetic,
    Ideographic,
    Middle,
    Central,
    Mathematical,
    Hanging,
    TextTop,
}

impl DominantBaseline {
    pub open spec fn spec_str(&self) -> Seq<char> {
        match self {
            DominantBaseline::Auto => "auto"@,
            DominantBaseline::TextBottom => "text-bottom"@,
            DominantBaseline::Alphabetic => "alphabetic"@,
            DominantBaseline::Ideographic => "ideographic"@,
            DominantBaseline::Middle => "middle"@,
            DominantBaseline::Central => "central"@,
            DominantBaseline::Mathematical => "mathematical"@,
            DominantBaseline::Hanging => "hanging"@,
            DominantBaseline::TextTop => "text-top"@,
        }
    }

    pub fn as_str(&self) -> (r: &'static str)
        ensures
            r@ == self.spec_str(),
    {
        match self {
            DominantBaseline::Auto => "auto",
            DominantBaseline::TextBottom => "text-bottom",
            DominantBaseline::Alphabetic => "alphabetic",
            DominantBaseline::Ideographic => "ideographic",
            DominantBaseline::Middle => "middle",
            DominantBaseline::Central => "central",
            DominantBaseline::Mathematical => "mathematical",
            DominantBaseline::Hanging => "hanging",
            DominantBaseline::TextTop => "text-top",
        }
    }

    /// The keyword reads back as itself.
    pub proof fn lemma_format_round_trip(&self)
        ensures
            Self::spec_canonical(self.spec_format()) == Some(self.spec_format()),
    {
    }
}

impl Grammar for DominantBaseline {
    open spec fn spec_wf(&self) -> bool {
        true
    }

    open spec fn spec_format(&self) -> Seq<u8> {
        match self {
            DominantBaseline::Auto => seq![97u8, 117u8, 116u8, 111u8],
            DominantBaseline::TextBottom => seq![116u8, 101u8, 120u8, 116u8, 45u8, 98u8, 111u8, 116u8, 116u8, 111u8, 109u8],
            DominantBaseline::Alphabetic => seq![97u8, 108u8, 112u8, 104u8, 97u8, 98u8, 101u8, 116u8, 105u8, 99u8],
            DominantBaseline::Ideographic => seq![105u8, 100u8, 101u8, 111u8, 103u8, 114u8, 97u8, 112u8, 104u8, 105u8, 99u8],
            DominantBaseline::Middle => seq![109u8, 105u8, 100u8, 100u8, 108u8, 101u8],
            DominantBaseline::Central => seq![99u8, 101u8, 110u8, 116u8, 114u8, 97u8, 108u8],
            DominantBaseline::Mathematical => seq![109u8, 97u8, 116u8, 104u8, 101u8, 109u8, 97u8, 116u8, 105u8, 99u8, 97u8, 108u8],
            DominantBaseline::Hanging => seq![104u8, 97u8, 110u8, 103u8, 105u8, 110u8, 103u8],
            DominantBaseline::TextTop => seq![116u8, 101u8, 120u8, 116u8, 45u8, 116u8, 111u8, 112u8],
        }
    }

    open spec fn spec_canonical(s: Seq<u8>) -> Option<Seq<u8>> {
        if s == seq![97u8, 117u8, 116u8, 111u8] {
            Some(s)
        } else if s == seq![116u8, 101u8, 120u8, 116u8, 45u8, 98u8, 111u8, 116u8, 116u8, 111u8, 109u8] {
            Some(s)
        } else if s == seq![97u8, 108u8, 112u8, 104u8, 97u8, 98u8, 101u8, 116u8, 105u8, 99u8] {
            Some(s)
        } else if s == seq![105u8, 100u8, 101u8, 111u8, 103u8, 114u8, 97u8, 112u8, 104u8, 105u8, 99u8] {
            Some(s)
        } else if s == seq![109u8, 105u8, 100u8, 100u8, 108u8, 101u8] {
            Some(s)
        } else if s == seq![99u8, 101u8, 110u8, 116u8, 114u8, 97u8, 108u8] {
            Some(s)
        } else if s == seq![109u8, 97u8, 116u8, 104u8, 101u8, 109u8, 97u8, 116u8, 105u8, 99u8, 97u8, 108u8] {
            Some(s)
        } else if s == seq![104u8, 97u8, 110u8, 103u8, 105u8, 110u8, 103u8] {
            Some(s)
        } else if s == seq![116u8, 101u8, 120u8, 116u8, 45u8, 116u8, 111u8, 112u8] {
            Some(s)
        } else {
            None
        }
    }

    fn parse(s: &[u8]) -> (r: Option<DominantBaseline>) {
        if bytes_eq(s, &[97u8, 117u8, 116u8, 111u8]) {
            return Some(DominantBaseline::Auto);
        }
        if bytes_eq(s, &[116u8, 101u8, 120u8, 116u8, 45u8, 98u8, 111u8, 116u8, 116u8, 111u8, 109u8]) {
            return Some(DominantBaseline::TextBottom);
        }
        if bytes_eq(s, &[97u8, 108u8, 112u8, 104u8, 97u8, 98u8, 101u8, 116u8, 105u8, 99u8]) {
            return Some(DominantBaseline::Alphabetic);
        }
        if bytes_eq(s, &[105u8, 100u8, 101u8, 111u8, 103u8, 114u8, 97u8, 112u8, 104u8, 105u8, 99u8]) {
            return Some(DominantBaseline::Ideographic);
        }
        if bytes_eq(s, &[109u8, 105u8, 100u8, 100u8, 108u8, 101u8]) {
            return Some(DominantBaseline::Middle);
        }
        if bytes_eq(s, &[99u8, 101u8, 110u8, 116u8, 114u8, 97u8, 108u8]) {
            return Some(DominantBaseline::Central);
        }
        if bytes_eq(s, &[109u8, 97u8, 116u8, 104u8, 101u8, 109u8, 97u8, 116u8, 105u8, 99u8, 97u8, 108u8]) {
            return Some(DominantBaseline::Mathematical);
        }
        if bytes_eq(s, &[104u8, 97u8, 110u8, 103u8, 105u8, 110u8, 103u8]) {
            return Some(DominantBaseline::Hanging);
        }
        if bytes_eq(s, &[116u8, 101u8, 120u8, 116u8, 45u8, 116u8, 111u8, 112u8]) {
            return Some(DominantBaseline::TextTop);
        }
        None
    }

    fn write_to(&self, out: &mut Vec<u8>) {
        match self {
            DominantBaseline::Auto => append_bytes(out, &[97u8, 117u8, 116u8, 111u8]),
            DominantBaseline::TextBottom => append_bytes(out, &[116u8, 101u8, 120u8, 116u8, 45u8, 98u8, 111u8, 116u8, 116u8, 111u8, 109u8]),
            DominantBaseline::Alphabetic => append_bytes(out, &[97u8, 108u8, 112u8, 104u8, 97u8, 98u8, 101u8, 116u8, 105u8, 99u8]),
            DominantBaseline::Ideographic => append_bytes(out, &[105u8, 100u8, 101u8, 111u8, 103u8, 114u8, 97u8, 112u8, 104u8, 105u8, 99u8]),
            DominantBaseline::Middle => append_bytes(out, &[109u8, 105u8, 100u8, 100u8, 108u8, 101u8]),
            DominantBaseline::Central => append_bytes(out, &[99u8, 101u8, 110u8, 116u8, 114u8, 97u8, 108u8]),
            DominantBaseline::Mathematical => append_bytes(out, &[109u8, 97u8, 116u8, 104u8, 101u8, 109u8, 97u8, 116u8, 105u8, 99u8, 97u8, 108u8]),
            DominantBaseline::Hanging => append_bytes(out, &[104u8, 97u8, 110u8, 103u8, 105u8, 110u8, 103u8]),
            DominantBaseline::TextTop => append_bytes(out, &[116u8, 101u8, 120u8, 116u8, 45u8, 116u8, 111u8, 112u8]),
        }
    }
}

/// The `FillRule` keywords.
#[derive(Clone, Copy, Debug, PartialEq, Eq, Structural)]
pub enum FillRule {
    NonZero,
    EvenOdd,
}

impl FillRule {
    pub open spec fn spec_str(&self) -> Seq<char> {
        match self {
            FillRule::NonZero => "nonzero"@,
            FillRule::EvenOdd => "evenodd"@,
        }
    }

    pub fn as_str(&self) -> (r: &'static str)
        ensures
            r@ == self.spec_str(),
    {
        match self {
            FillRule::NonZero => "nonzero",
            FillRule::EvenOdd => "evenodd",
        }
    }

    /// The keyword reads back as itself.
    pub proof fn lemma_format_round_trip(&self)
        ensures
            Self::spec_canonical(self.spec_format()) == Some(self.spec_format()),
    {
    }
}

impl Grammar for FillRule {
    open spec fn spec_wf(&self) -> bool {
        true
    }

    open spec fn spec_format(&self) -> Seq<u8> {
        match self {
            FillRule::NonZero => seq![110u8, 111u8, 110u8, 122u8, 101u8, 114u8, 111u8],
            FillRule::EvenOdd => seq![101u8, 118u8, 101u8, 110u8, 111u8, 100u8, 100u8],
        }
    }

    open spec fn spec_canonical(s: Seq<u8>) -> Option<Seq<u8>> {
        if s == seq![110u8, 111u8, 110u8, 122u8, 101u8, 114u8, 111u8] {
            Some(s)
        } else if s == seq![101u8, 118u8, 101u8, 110u8, 111u8, 100u8, 100u8] {
            Some(s)
        } else {
            None
        }
    }

    fn parse(s: &[u8]) -> (r: Option<FillRule>) {
        if bytes_eq(s, &[110u8, 111u8, 110u8, 122u8, 101u8, 114u8, 111u8]) {
            return Some(FillRule::NonZero);
        }
        if bytes_eq(s, &[101u8, 118u8, 101u8, 110u8, 111u8, 100u8, 100u8]) {
            return Some(FillRule::EvenOdd);
        }
        None
    }

    fn write_to(&self, out: &mut Vec<u8>) {
        match self {
            FillRule::NonZero => append_bytes(out, &[110u8, 111u8, 110u8, 122u8, 101u8, 114u8, 111u8]),
            FillRule::EvenOdd => append_bytes(out, &[101u8, 118u8, 101u8, 110u8, 111u8, 100u8, 100u8]),
        }
    }
}

/// The `FontStyle` keywords.
#[derive(Clone, Copy, Debug, PartialEq, Eq, Structural)]
pub enum FontStyle {
    Normal,
    Italic,
    Oblique,
}

impl FontStyle {
    pub open spec fn spec_str(&self) -> Seq<char> {
        match self {
            FontStyle::Normal => "normal"@,
            FontStyle::Italic => "italic"@,
            FontStyle::Oblique => "oblique"@,
        }
    }

    pub fn as_str(&self) -> (r: &'static str)
        ensures
            r@ == self.spec_str(),
    {
        match self {
            FontStyle::Normal => "normal",
            FontStyle::Italic => "italic",
            FontStyle::Oblique => "oblique",
        }
    }

    /// The keyword reads back as itself.
    pub proof fn lemma_format_round_trip(&self)
        ensures
            Self::spec_canonical(self.spec_format()) == Some(self.spec_format()),
    {
    }
}

impl Grammar for FontStyle {
    open spec fn spec_wf(&self) -> bool {
        true
    }

    open spec fn spec_format(&self) -> Seq<u8> {
        match self {
            FontStyle::Normal => seq![110u8, 111u8, 114u8, 109u8, 97u8, 108u8],
            FontStyle::Italic => seq![105u8, 116u8, 97u8, 108u8, 105u8, 99u8],
            FontStyle::Oblique => seq![111u8, 98u8, 108u8, 105u8, 113u8, 117u8, 101u8],
        }
    }

    open spec fn spec_canonical(s: Seq<u8>) -> Option<Seq<u8>> {
        if s == seq![110u8, 111u8, 114u8, 109u8, 97u8, 108u8] {
            Some(s)
        } else if s == seq![105u8, 116u8, 97u8, 108u8, 105u8, 99u8] {
            Some(s)
        } else if s == seq![111u8, 98u8, 108u8, 105u8, 113u8, 117u8, 101u8] {
            Some(s)
        } else {
            None
        }
    }

    fn parse(s: &[u8]) -> (r: Option<FontStyle>) {
        if bytes_eq(s, &[110u8, 111u8, 114u8, 109u8, 97u8, 108u8]) {
            return Some(FontStyle::Normal);
        }
        if bytes_eq(s, &[105u8, 116u8, 97u8, 108u8, 105u8, 99u8]) {
            return Some(FontStyle::Italic);
        }
        if bytes_eq(s, &[111u8, 98u8, 108u8, 105u8, 113u8, 117u8, 101u8]) {
            return Some(FontStyle::Oblique);
        }
        None
    }

    fn write_to(&self, out: &mut Vec<u8>) {
        match self {
            FontStyle::Normal => append_bytes(out, &[110u8, 111u8, 114u8, 109u8, 97u8, 108u8]),
            FontStyle::Italic => append_bytes(out, &[105u8, 116u8, 97u8, 108u8, 105u8, 99u8]),
            FontStyle::Oblique => append_bytes(out, &[111u8, 98u8, 108u8, 105u8, 113u8, 117u8, 101u8]),
        }
    }
}

/// The `ImageRendering` keywords.
#[derive(Clone, Copy, Debug, PartialEq, Eq, Structural)]
pub enum ImageRendering {
    Auto,
    OptimizeSpeed,
    OptimizeQuality,
}

impl ImageRendering {
    pub open spec fn spec_str(&self) -> Seq<char> {
        match self {
            ImageRendering::Auto => "auto"@,
            ImageRendering::OptimizeSpeed => "optimizeSpeed"@,
            ImageRendering::OptimizeQuality => "optimizeQuality"@,
        }
    }

    pub fn as_str(&self) -> (r: &'static str)
        ensures
            r@ == self.spec_str(),
    {
        match self {
            ImageRendering::Auto => "auto",
            ImageRendering::OptimizeSpeed => "optimizeSpeed",
            ImageRendering::OptimizeQuality => "optimizeQuality",
        }
    }

    /// The keyword reads back as itself.
    pub proof fn lemma_format_round_trip(&self)
        ensures
            Self::spec_canonical(self.spec_format()) == Some(self.spec_format()),
    {
    }
}

impl Grammar for ImageRendering {
    open spec fn spec_wf(&self) -> bool {
        true
    }

    open spec fn spec_format(&self) -> Seq<u8> {
        match self {
            ImageRendering::Auto => seq![97u8, 117u8, 116u8, 111u8],
            ImageRendering::OptimizeSpeed => seq![111u8, 112u8, 116u8, 105u8, 109u8, 105u8, 122u8, 101u8, 83u8, 112u8, 101u8, 101u8, 100u8],
            ImageRendering::OptimizeQuality => seq![111u8, 112u8, 116u8, 105u8, 109u8, 105u8, 122u8, 101u8, 81u8, 117u8, 97u8, 108u8, 105u8, 116u8, 121u8],
        }
    }

    open spec fn spec_canonical(s: Seq<u8>) -> Option<Seq<u8>> {
        if s == seq![97u8, 117u8, 116u8, 111u8] {
            Some(s)
        } else if s == seq![111u8, 112u8, 116u8, 105u8, 109u8, 105u8, 122u8, 101u8, 83u8, 112u8, 101u8, 101u8, 100u8] {
            Some(s)
        } else if s == seq![111u8, 112u8, 116u8, 105u8, 109u8, 105u8, 122u8, 101u8, 81u8, 117u8, 97u8, 108u8, 105u8, 116u8, 121u8] {
            Some(s)
        } else {
            None
        }
    }

    fn parse(s: &[u8]) -> (r: Option<ImageRendering>) {
        if bytes_eq(s, &[97u8, 117u8, 116u8, 111u8]) {
            return Some(ImageRendering::Auto);
        }
        if bytes_eq(s, &[111u8, 112u8, 116u8, 105u8, 109u8, 105u8, 122u8, 101u8, 83u8, 112u8, 101u8, 101u8, 100u8]) {
            return Some(ImageRendering::OptimizeSpeed);
        }
        if bytes_eq(s, &[111u8, 112u8, 116u8, 105u8, 109u8, 105u8, 122u8, 101u8, 81u8, 117u8, 97u8, 108u8, 105u8, 116u8, 121u8]) {
            return Some(ImageRendering::OptimizeQuality);
        }
        None
    }

    fn write_to(&self, out: &mut Vec<u8>) {
        match self {
            ImageRendering::Auto => append_bytes(out, &[97u8, 117u8, 116u8, 111u8]),
            ImageRendering::OptimizeSpeed => append_bytes(out, &[111u8, 112u8, 116u8, 105u8, 109u8, 105u8, 122u8, 101u8, 83u8, 112u8, 101u8, 101u8, 100u8]),
            ImageRendering::OptimizeQuality => append_bytes(out, &[111u8, 112u8, 116u8, 105u8, 109u8, 105u8, 122u8, 101u8, 81u8, 117u8, 97u8, 108u8, 105u8, 116u8, 121u8]),
        }
    }
}

/// The `MaskType` keywords.
#[derive(Clone, Copy, Debug, PartialEq, Eq, Structural)]
pub enum MaskType {
    Alpha,
    Luminance,
}

impl MaskType {
    pub open spec fn spec_str(&self) -> Seq<char> {
        match self {
            MaskType::Alpha => "alpha"@,
            MaskType::Luminance => "luminance"@,
        }
    }

    pub fn as_str(&self) -> (r: &'static str)
        ensures
            r@ == self.spec_str(),
    {
        match self {
            MaskType::Alpha => "alpha",
            MaskType::Luminance => "luminance",
        }
    }

    /// The keyword reads back as itself.
    pub proof fn lemma_format_round_trip(&self)
        ensures
            Self::spec_canonical(self.spec_format()) == Some(self.spec_format()),
    {
    }
}

impl Grammar for MaskType {
    open spec fn spec_wf(&self) -> bool {
        true
    }

    open spec fn spec_format(&self) -> Seq<u8> {
        match self {
            MaskType::Alpha => seq![97u8, 108u8, 112u8, 104u8, 97u8],
            MaskType::Luminance => seq![108u8, 117u8, 109u8, 105u8, 110u8, 97u8, 110u8, 99u8, 101u8],
        }
    }

    open spec fn spec_canonical(s: Seq<u8>) -> Option<Seq<u8>> {
        if s == seq![97u8, 108u8, 112u8, 104u8, 97u8] {
            Some(s)
        } else if s == seq![108u8, 117u8, 109u8, 105u8, 110u8, 97u8, 110u8, 99u8, 101u8] {
            Some(s)
        } else {
            None
        }
    }

    fn parse(s: &[u8]) -> (r: Option<MaskType>) {
        if bytes_eq(s, &[97u8, 108u8, 112u8, 104u8, 97u8]) {
            return Some(MaskType::Alpha);
        }
        if bytes_eq(s, &[108u8, 117u8, 109u8, 105u8, 110u8, 97u8, 110u8, 99u8, 101u8]) {
            return Some(MaskType::Luminance);
        }
        None
    }

    fn write_to(&self, out: &mut Vec<u8>) {
        match self {
            MaskType::Alpha => append_bytes(out, &[97u8, 108u8, 112u8, 104u8, 97u8]),
            MaskType::Luminance => append_bytes(out, &[108u8, 117u8, 109u8, 105u8, 110u8, 97u8, 110u8, 99u8, 101u8]),
        }
    }
}

/// The `Overflow` keywords.
#[derive(Clone, Copy, Debug, PartialEq, Eq, Structural)]
pub enum Overflow {
    Visible,
    Hidden,
    Scroll,
    Auto,
}

impl Overflow {
    pub open spec fn spec_str(&self) -> Seq<char> {
        match self {
            Overflow::Visible => "visible"@,
            Overflow::Hidden => "hidden"@,
            Overflow::Scroll => "scroll"@,
            Overflow::Auto => "auto"@,
        }
    }

    pub fn as_str(&self) -> (r: &'static str)
        ensures
            r@ == self.spec_str(),
    {
        match self {
            Overflow::Visible => "visible",
            Overflow::Hidden => "hidden",
            Overflow::Scroll => "scroll",
            Overflow::Auto => "auto",
        }
    }

    /// The keyword reads back as itself.
    pub proof fn lemma_format_round_trip(&self)
        ensures
            Self::spec_canonical(self.spec_format()) == Some(self.spec_format()),
    {
    }
}

impl Grammar for Overflow {
    open spec fn spec_wf(&self) -> bool {
        true
    }

    open spec fn spec_format(&self) -> Seq<u8> {
        match self {
            Overflow::Visible => seq![118u8, 105u8, 115u8, 105u8, 98u8, 108u8, 101u8],
            Overflow::Hidden => seq![104u8, 105u8, 100u8, 100u8, 101u8, 110u8],
            Overflow::Scroll => seq![115u8, 99u8, 114u8, 111u8, 108u8, 108u8],
            Overflow::Auto => seq![97u8, 117u8, 116u8, 111u8],
        }
    }

    open spec fn spec_canonical(s: Seq<u8>) -> Option<Seq<u8>> {
        if s == seq![118u8, 105u8, 115u8, 105u8, 98u8, 108u8, 101u8] {
            Some(s)
        } else if s == seq![104u8, 105u8, 100u8, 100u8, 101u8, 110u8] {
            Some(s)
        } else if s == seq![115u8, 99u8, 114u8, 111u8, 108u8, 108u8] {
            Some(s)
        } else if s == seq![97u8, 117u8, 116u8, 111u8] {
            Some(s)
        } else {
            None
        }
    }

    fn parse(s: &[u8]) -> (r: Option<Overflow>) {
        if bytes_eq(s, &[118u8, 105u8, 115u8, 105u8, 98u8, 108u8, 101u8]) {
            return Some(Overflow::Visible);
        }
        if bytes_eq(s, &[104u8, 105u8, 100u8, 100u8, 101u8, 110u8]) {
            return Some(Overflow::Hidden);
        }
        if bytes_eq(s, &[115u8, 99u8, 114u8, 111u8, 108u8, 108u8]) {
            return Some(Overflow::Scroll);
        }
        if bytes_eq(s, &[97u8, 117u8, 116u8, 111u8]) {
            return Some(Overflow::Auto);
        }
        None
    }

    fn write_to(&self, out: &mut Vec<u8>) {
        match self {
            Overflow::Visible => append_bytes(out, &[118u8, 105u8, 115u8, 105u8, 98u8, 108u8, 101u8]),
            Overflow::Hidden => append_bytes(out, &[104u8, 105u8, 100u8, 100u8, 101u8, 110u8]),
            Overflow::Scroll => append_bytes(out, &[115u8, 99u8, 114u8, 111u8, 108u8, 108u8]),
            Overflow::Auto => append_bytes(out, &[97u8, 117u8, 116u8, 111u8]),
        }
    }
}

/// The `PointerEvents` keywords.
#[derive(Clone, Copy, Debug, PartialEq, Eq, Structural)]
pub enum PointerEvents {
    BoundingBox,
    VisiblePainted,
    VisibleFill,
    VisibleStroke,
    Visible,
    Painted,
    Fill,
    Stroke,
    All,
    NoneValue,
}

impl PointerEvents {
    pub open spec fn spec_str(&self) -> Seq<char> {
        match self {
            PointerEvents::BoundingBox => "bounding-box"@,
            PointerEvents::VisiblePainted => "visiblePainted"@,
            PointerEvents::VisibleFill => "visibleFill"@,
            PointerEvents::VisibleStroke => "visibleStroke"@,
            PointerEvents::Visible => "visible"@,
            PointerEvents::Painted => "painted"@,
            PointerEvents::Fill => "fill"@,
            PointerEvents::Stroke => "stroke"@,
            PointerEvents::All => "all"@,
            PointerEvents::NoneValue => "none"@,
        }
    }

    pub fn as_str(&self) -> (r: &'static str)
        ensures
            r@ == self.spec_str(),
    {
        match self {
            PointerEvents::BoundingBox => "bounding-box",
            PointerEvents::VisiblePainted => "visiblePainted",
            PointerEvents::VisibleFill => "visibleFill",
            PointerEvents::VisibleStroke => "visibleStroke",
            PointerEvents::Visible => "visible",
            PointerEvents::Painted => "painted",
            PointerEvents::Fill => "fill",
            PointerEvents::Stroke => "stroke",
            PointerEvents::All => "all",
            PointerEvents::NoneValue => "none",
        }
    }

    /// The keyword reads back as itself.
    pub proof fn lemma_format_round_trip(&self)
        ensures
            Self::spec_canonical(self.spec_format()) == Some(self.spec_format()),
    {
    }
}

impl Grammar for PointerEvents {
    open spec fn spec_wf(&self) -> bool {
        true
    }

    open spec fn spec_format(&self) -> Seq<u8> {
        match self {
            PointerEvents::BoundingBox => seq![98u8, 111u8, 117u8, 110u8, 100u8, 105u8, 110u8, 103u8, 45u8, 98u8, 111u8, 120u8],
            PointerEvents::VisiblePainted => seq![118u8, 105u8, 115u8, 105u8, 98u8, 108u8, 101u8, 80u8, 97u8, 105u8, 110u8, 116u8, 101u8, 100u8],
            PointerEvents::VisibleFill => seq![118u8, 105u8, 115u8, 105u8, 98u8, 108u8, 101u8, 70u8, 105u8, 108u8, 108u8],
            PointerEvents::VisibleStroke => seq![118u8, 105u8, 115u8, 105u8, 98u8, 108u8, 101u8, 83u8, 116u8, 114u8, 111u8, 107u8, 101u8],
            PointerEvents::Visible => seq![118u8, 105u8, 115u8, 105u8, 98u8, 108u8, 101u8],
            PointerEvents::Painted => seq![112u8, 97u8, 105u8, 110u8, 116u8, 101u8, 100u8],
            PointerEvents::Fill => seq![102u8, 105u8, 108u8, 108u8],
            PointerEvents::Stroke => seq![115u8, 116u8, 114u8, 111u8, 107u8, 101u8],
            PointerEvents::All => seq![97u8, 108u8, 108u8],
            PointerEvents::NoneValue => seq![110u8, 111u8, 110u8, 101u8],
        }
    }

    open spec fn spec_canonical(s: Seq<u8>) -> Option<Seq<u8>> {
        if s == seq![98u8, 111u8, 117u8, 110u8, 100u8, 105u8, 110u8, 103u8, 45u8, 98u8, 111u8, 120u8] {
            Some(s)
        } else if s == seq![118u8, 105u8, 115u8, 105u8, 98u8, 108u8, 101u8, 80u8, 97u8, 105u8, 110u8, 116u8, 101u8, 100u8] {
            Some(s)
        } else if s == seq![118u8, 105u8, 115u8, 105u8, 98u8, 108u8, 101u8, 70u8, 105u8, 108u8, 108u8] {
            Some(s)
        } else if s == seq![118u8, 105u8, 115u8, 105u8, 98u8, 108u8, 101u8, 83u8, 116u8, 114u8, 111u8, 107u8, 101u8] {
            Some(s)
        } else if s == seq![118u8, 105u8, 115u8, 105u8, 98u8, 108u8, 101u8] {
            Some(s)
        } else if s == seq![112u8, 97u8, 105u8, 110u8, 116u8, 101u8, 100u8] {
            Some(s)
        } else if s == seq![102u8, 105u8, 108u8, 108u8] {
            Some(s)
        } else if s == seq![115u8, 116u8, 114u8, 111u8, 107u8, 101u8] {
            Some(s)
        } else if s == seq![97u8, 108u8, 108u8] {
            Some(s)
        } else if s == seq![110u8, 111u8, 110u8, 101u8] {
            Some(s)
        } else {
            None
        }
    }

    fn parse(s: &[u8]) -> (r: Option<PointerEvents>) {
        if bytes_eq(s, &[98u8, 111u8, 117u8, 110u8, 100u8, 105u8, 110u8, 103u8, 45u8, 98u8, 111u8, 120u8]) {
            return Some(PointerEvents::BoundingBox);
        }
        if bytes_eq(s, &[118u8, 105u8, 115u8, 105u8, 98u8, 108u8, 101u8, 80u8, 97u8, 105u8, 110u8, 116u8, 101u8, 100u8]) {
            return Some(PointerEvents::VisiblePainted);
        }
        if bytes_eq(s, &[118u8, 105u8, 115u8, 105u8, 98u8, 108u8, 101u8, 70u8, 105u8, 108u8, 108u8]) {
            return Some(PointerEvents::VisibleFill);
        }
        if bytes_eq(s, &[118u8, 105u8, 115u8, 105u8, 98u8, 108u8, 101u8, 83u8, 116u8, 114u8, 111u8, 107u8, 101u8]) {
            return Some(PointerEvents::VisibleStroke);
        }
        if bytes_eq(s, &[118u8, 105u8, 115u8, 105u8, 98u8, 108u8, 101u8]) {
            return Some(PointerEvents::Visible);
        }
        if bytes_eq(s, &[112u8, 97u8, 105u8, 110u8, 116u8, 101u8, 100u8]) {
            return Some(PointerEvents::Painted);
        }
        if bytes_eq(s, &[102u8, 105u8, 108u8, 108u8]) {
            return Some(PointerEvents::Fill);
        }
        if bytes_eq(s, &[115u8, 116u8, 114u8, 111u8, 107u8, 101u8]) {
            return Some(PointerEvents::Stroke);
        }
        if bytes_eq(s, &[97u8, 108u8, 108u8]) {
            return Some(PointerEvents::All);
        }
        if bytes_eq(s, &[110u8, 111u8, 110u8, 101u8]) {
            return Some(PointerEvents::NoneValue);
        }
        None
    }

    fn write_to(&self, out: &mut Vec<u8>) {
        match self {
            PointerEvents::BoundingBox => append_bytes(out, &[98u8, 111u8, 117u8, 110u8, 100u8, 105u8, 110u8, 103u8, 45u8, 98u8, 111u8, 120u8]),
            PointerEvents::VisiblePainted => append_bytes(out, &[118u8, 105u8, 115u8, 105u8, 98u8, 108u8, 101u8, 80u8, 97u8, 105u8, 110u8, 116u8, 101u8, 100u8]),
            PointerEvents::VisibleFill => append_bytes(out, &[118u8, 105u8, 115u8, 105u8, 98u8, 108u8, 101u8, 70u8, 105u8, 108u8, 108u8]),
            PointerEvents::VisibleStroke => append_bytes(out, &[118u8, 105u8, 115u8, 105u8, 98u8, 108u8, 101u8, 83u8, 116u8, 114u8, 111u8, 107u8, 101u8]),
            PointerEvents::Visible => append_bytes(out, &[118u8, 105u8, 115u8, 105u8, 98u8, 108u8, 101u8]),
            PointerEvents::Painted => append_bytes(out, &[112u8, 97u8, 105u8, 110u8, 116u8, 101u8, 100u8]),
            PointerEvents::Fill => append_bytes(out, &[102u8, 105u8, 108u8, 108u8]),
            PointerEvents::Stroke => append_bytes(out, &[115u8, 116u8, 114u8, 111u8, 107u8, 101u8]),
            PointerEvents::All => append_bytes(out, &[97u8, 108u8, 108u8]),
            PointerEvents::NoneValue => append_bytes(out, &[110u8, 111u8, 110u8, 101u8]),
        }
    }
}

/// The `ShapeRendering` keywords.
#[derive(Clone, Copy, Debug, PartialEq, Eq, Structural)]
pub enum ShapeRendering {
    Auto,
    OptimizeSpeed,
    CrispEdges,
    GeometricPrecision,
}

impl ShapeRendering {
    pub open spec fn spec_str(&self) -> Seq<char> {
        match self {
            ShapeRendering::Auto => "auto"@,
            ShapeRendering::OptimizeSpeed => "optimizeSpeed"@,
            ShapeRendering::CrispEdges => "crispEdges"@,
            ShapeRendering::GeometricPrecision => "geometricPrecision"@,
        }
    }

    pub fn as_str(&self) -> (r: &'static str)
        ensures
            r@ == self.spec_str(),
    {
        match self {
            ShapeRendering::Auto => "auto",
            ShapeRendering::OptimizeSpeed => "optimizeSpeed",
            ShapeRendering::CrispEdges => "crispEdges",
            ShapeRendering::GeometricPrecision => "geometricPrecision",
        }
    }

    /// The keyword reads back as itself.
    pub proof fn lemma_format_round_trip(&self)
        ensures
            Self::spec_canonical(self.spec_format()) == Some(self.spec_format()),
    {
    }
}

impl Grammar for ShapeRendering {
    open spec fn spec_wf(&self) -> bool {
        true
    }

    open spec fn spec_format(&self) -> Seq<u8> {
        match self {
            ShapeRendering::Auto => seq![97u8, 117u8, 116u8, 111u8],
            ShapeRendering::OptimizeSpeed => seq![111u8, 112u8, 116u8, 105u8, 109u8, 105u8, 122u8, 101u8, 83u8, 112u8, 101u8, 101u8, 100u8],
            ShapeRendering::CrispEdges => seq![99u8, 114u8, 105u8, 115u8, 112u8, 69u8, 100u8, 103u8, 101u8, 115u8],
            ShapeRendering::GeometricPrecision => seq![103u8, 101u8, 111u8, 109u8, 101u8, 116u8, 114u8, 105u8, 99u8, 80u8, 114u8, 101u8, 99u8, 105u8, 115u8, 105u8, 111u8, 110u8],
        }
    }

    open spec fn spec_canonical(s: Seq<u8>) -> Option<Seq<u8>> {
        if s == seq![97u8, 117u8, 116u8, 111u8] {
            Some(s)
        } else if s == seq![111u8, 112u8, 116u8, 105u8, 109u8, 105u8, 122u8, 101u8, 83u8, 112u8, 101u8, 101u8, 100u8] {
            Some(s)
        } else if s == seq![99u8, 114u8, 105u8, 115u8, 112u8, 69u8, 100u8, 103u8, 101u8, 115u8] {
            Some(s)
        } else if s == seq![103u8, 101u8, 111u8, 109u8, 101u8, 116u8, 114u8, 105u8, 99u8, 80u8, 114u8, 101u8, 99u8, 105u8, 115u8, 105u8, 111u8, 110u8] {
            Some(s)
        } else {
            None
        }
    }

    fn parse(s: &[u8]) -> (r: Option<ShapeRendering>) {
        if bytes_eq(s, &[97u8, 117u8, 116u8, 111u8]) {
            return Some(ShapeRendering::Auto);
        }
        if bytes_eq(s, &[111u8, 112u8, 116u8, 105u8, 109u8, 105u8, 122u8, 101u8, 83u8, 112u8, 101u8, 101u8, 100u8]) {
            return Some(ShapeRendering::OptimizeSpeed);
        }
        if bytes_eq(s, &[99u8, 114u8, 105u8, 115u8, 112u8, 69u8, 100u8, 103u8, 101u8, 115u8]) {
            return Some(ShapeRendering::CrispEdges);
        }
        if bytes_eq(s, &[103u8, 101u8, 111u8, 109u8, 101u8, 116u8, 114u8, 105u8, 99u8, 80u8, 114u8, 101u8, 99u8, 105u8, 115u8, 105u8, 111u8, 110u8]) {
            return Some(ShapeRendering::GeometricPrecision);
        }
        None
    }

    fn write_to(&self, out: &mut Vec<u8>) {
        match self {
            ShapeRendering::Auto => append_bytes(out, &[97u8, 117u8, 116u8, 111u8]),
            ShapeRendering::OptimizeSpeed => append_bytes(out, &[111u8, 112u8, 116u8, 105u8, 109u8, 105u8, 122u8, 101u8, 83u8, 112u8, 101u8, 101u8, 100u8]),
            ShapeRendering::CrispEdges => append_bytes(out, &[99u8, 114u8, 105u8, 115u8, 112u8, 69u8, 100u8, 103u8, 101u8, 115u8]),
            ShapeRendering::GeometricPrecision => append_bytes(out, &[103u8, 101u8, 111u8, 109u8, 101u8, 116u8, 114u8, 105u8, 99u8, 80u8, 114u8, 101u8, 99u8, 105u8, 115u8, 105u8, 111u8, 110u8]),
        }
    }
}

/// The `StrokeLinecap` keywords.
#[derive(Clone, Copy, Debug, PartialEq, Eq, Structural)]
pub enum StrokeLinecap {
    Butt,
    Round,
    Square,
}

impl StrokeLinecap {
    pub open spec fn spec_str(&self) -> Seq<char> {
        match self {
            StrokeLinecap::Butt => "butt"@,
            StrokeLinecap::Round => "round"@,
            StrokeLinecap::Square => "square"@,
        }
    }

    pub fn as_str(&self) -> (r: &'static str)
        ensures
            r@ == self.spec_str(),
    {
        match self {
            StrokeLinecap::Butt => "butt",
            StrokeLinecap::Round => "round",
            StrokeLinecap::Square => "square",
        }
    }

    /// The keyword reads back as itself.
    pub proof fn lemma_format_round_trip(&self)
        ensures
            Self::spec_canonical(self.spec_format()) == Some(self.spec_format()),
    {
    }
}

impl Grammar for StrokeLinecap {
    open spec fn spec_wf(&self) -> bool {
        true
    }

    open spec fn spec_format(&self) -> Seq<u8> {
        match self {
            StrokeLinecap::Butt => seq![98u8, 117u8, 116u8, 116u8],
            StrokeLinecap::Round => seq![114u8, 111u8, 117u8, 110u8, 100u8],
            StrokeLinecap::Square => seq![115u8, 113u8, 117u8, 97u8, 114u8, 101u8],
        }
    }

    open spec fn spec_canonical(s: Seq<u8>) -> Option<Seq<u8>> {
        if s == seq![98u8, 117u8, 116u8, 116u8] {
            Some(s)
        } else if s == seq![114u8, 111u8, 117u8, 110u8, 100u8] {
            Some(s)
        } else if s == seq![115u8, 113u8, 117u8, 97u8, 114u8, 101u8] {
            Some(s)
        } else {
            None
        }
    }

    fn parse(s: &[u8]) -> (r: Option<StrokeLinecap>) {
        if bytes_eq(s, &[98u8, 117u8, 116u8, 116u8]) {
            return Some(StrokeLinecap::Butt);
        }
        if bytes_eq(s, &[114u8, 111u8, 117u8, 110u8, 100u8]) {
            return Some(StrokeLinecap::Round);
        }
        if bytes_eq(s, &[115u8, 113u8, 117u8, 97u8, 114u8, 101u8]) {
            return Some(StrokeLinecap::Square);
        }
        None
    }

    fn write_to(&self, out: &mut Vec<u8>) {
        match self {
            StrokeLinecap::Butt => append_bytes(out, &[98u8, 117u8, 116u8, 116u8]),
            StrokeLinecap::Round => append_bytes(out, &[114u8, 111u8, 117u8, 110u8, 100u8]),
            StrokeLinecap::Square => append_bytes(out, &[115u8, 113u8, 117u8, 97u8, 114u8, 101u8]),
        }
    }
}

/// The `StrokeLinejoin` keywords.
#[derive(Clone, Copy, Debug, PartialEq, Eq, Structural)]
pub enum StrokeLinejoin {
    Arcs,
    Bevel,
    Miter,
    MiterClip,
    Round,
}

impl StrokeLinejoin {
    pub open spec fn spec_str(&self) -> Seq<char> {
        match self {
            StrokeLinejoin::Arcs => "arcs"@,
            StrokeLinejoin::Bevel => "bevel"@,
            StrokeLinejoin::Miter => "miter"@,
            StrokeLinejoin::MiterClip => "miter-clip"@,
            StrokeLinejoin::Round => "round"@,
        }
    }

    pub fn as_str(&self) -> (r: &'static str)
        ensures
            r@ == self.spec_str(),
    {
        match self {
            StrokeLinejoin::Arcs => "arcs",
            StrokeLinejoin::Bevel => "bevel",
            StrokeLinejoin::Miter => "miter",
            StrokeLinejoin::MiterClip => "miter-clip",
            StrokeLinejoin::Round => "round",
        }
    }

    /// The keyword reads back as itself.
    pub proof fn lemma_format_round_trip(&self)
        ensures
            Self::spec_canonical(self.spec_format()) == Some(self.spec_format()),
    {
    }
}

impl Grammar for StrokeLinejoin {
    open spec fn spec_wf(&self) -> bool {
        true
    }

    open spec fn spec_format(&self) -> Seq<u8> {
        match self {
            StrokeLinejoin::Arcs => seq![97u8, 114u8, 99u8, 115u8],
            StrokeLinejoin::Bevel => seq![98u8, 101u8, 118u8, 101u8, 108u8],
            StrokeLinejoin::Miter => seq![109u8, 105u8, 116u8, 101u8, 114u8],
            StrokeLinejoin::MiterClip => seq![109u8, 105u8, 116u8, 101u8, 114u8, 45u8, 99u8, 108u8, 105u8, 112u8],
            StrokeLinejoin::Round => seq![114u8, 111u8, 117u8, 110u8, 100u8],
        }
    }

    open spec fn spec_canonical(s: Seq<u8>) -> Option<Seq<u8>> {
        if s == seq![97u8, 114u8, 99u8, 115u8] {
            Some(s)
        } else if s == seq![98u8, 101u8, 118u8, 101u8, 108u8] {
            Some(s)
        } else if s == seq![109u8, 105u8, 116u8, 101u8, 114u8] {
            Some(s)
        } else if s == seq![109u8, 105u8, 116u8, 101u8, 114u8, 45u8, 99u8, 108u8, 105u8, 112u8] {
            Some(s)
        } else if s == seq![114u8, 111u8, 117u8, 110u8, 100u8] {
            Some(s)
        } else {
            None
        }
    }

    fn parse(s: &[u8]) -> (r: Option<StrokeLinejoin>) {
        if bytes_eq(s, &[97u8, 114u8, 99u8, 115u8]) {
            return Some(StrokeLinejoin::Arcs);
        }
        if bytes_eq(s, &[98u8, 101u8, 118u8, 101u8, 108u8]) {
            return Some(StrokeLinejoin::Bevel);
        }
        if bytes_eq(s, &[109u8, 105u8, 116u8, 101u8, 114u8]) {
            return Some(StrokeLinejoin::Miter);
        }
        if bytes_eq(s, &[109u8, 105u8, 116u8, 101u8, 114u8, 45u8, 99u8, 108u8, 105u8, 112u8]) {
            return Some(StrokeLinejoin::MiterClip);
        }
        if bytes_eq(s, &[114u8, 111u8, 117u8, 110u8, 100u8]) {
            return Some(StrokeLinejoin::Round);
        }
        None
    }

    fn write_to(&self, out: &mut Vec<u8>) {
        match self {
            StrokeLinejoin::Arcs => append_bytes(out, &[97u8, 114u8, 99u8, 115u8]),
            StrokeLinejoin::Bevel => append_bytes(out, &[98u8, 101u8, 118u8, 101u8, 108u8]),
            StrokeLinejoin::Miter => append_bytes(out, &[109u8, 105u8, 116u8, 101u8, 114u8]),
            StrokeLinejoin::MiterClip => append_bytes(out, &[109u8, 105u8, 116u8, 101u8, 114u8, 45u8, 99u8, 108u8, 105u8, 112u8]),
            StrokeLinejoin::Round => append_bytes(out, &[114u8, 111u8, 117u8, 110u8, 100u8]),
        }
    }
}

/// The `VectorEffect` keywords.
#[derive(Clone, Copy, Debug, PartialEq, Eq, Structural)]
pub enum VectorEffect {
    NoneValue,
    NonScalingStroke,
    NonScalingSize,
    NonRotation,
    FixedPosition,
}

impl VectorEffect {
    pub open spec fn spec_str(&self) -> Seq<char> {
        match self {
            VectorEffect::NoneValue => "none"@,
            VectorEffect::NonScalingStroke => "non-scaling-stroke"@,
            VectorEffect::NonScalingSize => "non-scaling-size"@,
            VectorEffect::NonRotation => "non-rotation"@,
            VectorEffect::FixedPosition => "fixeed-position"@,
        }
    }

    pub fn as_str(&self) -> (r: &'static str)
        ensures
            r@ == self.spec_str(),
    {
        match self {
            VectorEffect::NoneValue => "none",
            VectorEffect::NonScalingStroke => "non-scaling-stroke",
            VectorEffect::NonScalingSize => "non-scaling-size",
            VectorEffect::NonRotation => "non-rotation",
            VectorEffect::FixedPosition => "fixeed-position",
        }
    }

    /// The keyword reads back as itself.
    pub proof fn lemma_format_round_trip(&self)
        ensures
            Self::spec_canonical(self.spec_format()) == Some(self.spec_format()),
    {
    }
}

impl Grammar for VectorEffect {
    open spec fn spec_wf(&self) -> bool {
        true
    }

    open spec fn spec_format(&self) -> Seq<u8> {
        match self {
            VectorEffect::NoneValue => seq![110u8, 111u8, 110u8, 101u8],
            VectorEffect::NonScalingStroke => seq![110u8, 111u8, 110u8, 45u8, 115u8, 99u8, 97u8, 108u8, 105u8, 110u8, 103u8, 45u8, 115u8, 116u8, 114u8, 111u8, 107u8, 101u8],
            VectorEffect::NonScalingSize => seq![110u8, 111u8, 110u8, 45u8, 115u8, 99u8, 97u8, 108u8, 105u8, 110u8, 103u8, 45u8, 115u8, 105u8, 122u8, 101u8],
            VectorEffect::NonRotation => seq![110u8, 111u8, 110u8, 45u8, 114u8, 111u8, 116u8, 97u8, 116u8, 105u8, 111u8, 110u8],
            VectorEffect::FixedPosition => seq![102u8, 105u8, 120u8, 101u8, 101u8, 100u8, 45u8, 112u8, 111u8, 115u8, 105u8, 116u8, 105u8, 111u8, 110u8],
        }
    }

    open spec fn spec_canonical(s: Seq<u8>) -> Option<Seq<u8>> {
        if s == seq![110u8, 111u8, 110u8, 101u8] {
            Some(s)
        } else if s == seq![110u8, 111u8, 110u8, 45u8, 115u8, 99u8, 97u8, 108u8, 105u8, 110u8, 103u8, 45u8, 115u8, 116u8, 114u8, 111u8, 107u8, 101u8] {
            Some(s)
        } else if s == seq![110u8, 111u8, 110u8, 45u8, 115u8, 99u8, 97u8, 108u8, 105u8, 110u8, 103u8, 45u8, 115u8, 105u8, 122u8, 101u8] {
            Some(s)
        } else if s == seq![110u8, 111u8, 110u8, 45u8, 114u8, 111u8, 116u8, 97u8, 116u8, 105u8, 111u8, 110u8] {
            Some(s)
        } else if s == seq![102u8, 105u8, 120u8, 101u8, 101u8, 100u8, 45u8, 112u8, 111u8, 115u8, 105u8, 116u8, 105u8, 111u8, 110u8] {
            Some(s)
        } else {
            None
        }
    }

    fn parse(s: &[u8]) -> (r: Option<VectorEffect>) {
        if bytes_eq(s, &[110u8, 111u8, 110u8, 101u8]) {
            return Some(VectorEffect::NoneValue);
        }
        if bytes_eq(s, &[110u8, 111u8, 110u8, 45u8, 115u8, 99u8, 97u8, 108u8, 105u8, 110u8, 103u8, 45u8, 115u8, 116u8, 114u8, 111u8, 107u8, 101u8]) {
            return Some(VectorEffect::NonScalingStroke);
        }
        if bytes_eq(s, &[110u8, 111u8, 110u8, 45u8, 115u8, 99u8, 97u8, 108u8, 105u8, 110u8, 103u8, 45u8, 115u8, 105u8, 122u8, 101u8]) {
            return Some(VectorEffect::NonScalingSize);
        }
        if bytes_eq(s, &[110u8, 111u8, 110u8, 45u8, 114u8, 111u8, 116u8, 97u8, 116u8, 105u8, 111u8, 110u8]) {
            return Some(VectorEffect::NonRotation);
        }
        if bytes_eq(s, &[102u8, 105u8, 120u8, 101u8, 101u8, 100u8, 45u8, 112u8, 111u8, 115u8, 105u8, 116u8, 105u8, 111u8, 110u8]) {
            return Some(VectorEffect::FixedPosition);
        }
        None
    }

    fn write_to(&self, out: &mut Vec<u8>) {
        match self {
            VectorEffect::NoneValue => append_bytes(out, &[110u8, 111u8, 110u8, 101u8]),
            VectorEffect::NonScalingStroke => append_bytes(out, &[110u8, 111u8, 110u8, 45u8, 115u8, 99u8, 97u8, 108u8, 105u8, 110u8, 103u8, 45u8, 115u8, 116u8, 114u8, 111u8, 107u8, 101u8]),
            VectorEffect::NonScalingSize => append_bytes(out, &[110u8, 111u8, 110u8, 45u8, 115u8, 99u8, 97u8, 108u8, 105u8, 110u8, 103u8, 45u8, 115u8, 105u8, 122u8, 101u8]),
            VectorEffect::NonRotation => append_bytes(out, &[110u8, 111u8, 110u8, 45u8, 114u8, 111u8, 116u8, 97u8, 116u8, 105u8, 111u8, 110u8]),
            VectorEffect::FixedPosition => append_bytes(out, &[102u8, 105u8, 120u8, 101u8, 101u8, 100u8, 45u8, 112u8, 111u8, 115u8, 105u8, 116u8, 105u8, 111u8, 110u8]),
        }
    }
}

/// The `TextAnchor` keywords.
#[derive(Clone, Copy, Debug, PartialEq, Eq, Structural)]
pub enum TextAnchor {
    Start,
    Middle,
    End,
}

impl TextAnchor {
    pub open spec fn spec_str(&self) -> Seq<char> {
        match self {
            TextAnchor::Start => "start"@,
            TextAnchor::Middle => "middle"@,
            TextAnchor::End => "end"@,
        }
    }

    pub fn as_str(&self) -> (r: &'static str)
        ensures
            r@ == self.spec_str(),
    {
        match self {
            TextAnchor::Start => "start",
            TextAnchor::Middle => "middle",
            TextAnchor::End => "end",
        }
    }

    /// The keyword reads back as itself.
    pub proof fn lemma_format_round_trip(&self)
        ensures
            Self::spec_canonical(self.spec_format()) == Some(self.spec_format()),
    {
    }
}

impl Grammar for TextAnchor {
    open spec fn spec_wf(&self) -> bool {
        true
    }

    open spec fn spec_format(&self) -> Seq<u8> {
        match self {
            TextAnchor::Start => seq![115u8, 116u8, 97u8, 114u8, 116u8],
            TextAnchor::Middle => seq![109u8, 105u8, 100u8, 100u8, 108u8, 101u8],
            TextAnchor::End => seq![101u8, 110u8, 100u8],
        }
    }

    open spec fn spec_canonical(s: Seq<u8>) -> Option<Seq<u8>> {
        if s == seq![115u8, 116u8, 97u8, 114u8, 116u8] {
            Some(s)
        } else if s == seq![109u8, 105u8, 100u8, 100u8, 108u8, 101u8] {
            Some(s)
        } else if s == seq![101u8, 110u8, 100u8] {
            Some(s)
        } else {
            None
        }
    }

    fn parse(s: &[u8]) -> (r: Option<TextAnchor>) {
        if bytes_eq(s, &[115u8, 116u8, 97u8, 114u8, 116u8]) {
            return Some(TextAnchor::Start);
        }
        if bytes_eq(s, &[109u8, 105u8, 100u8, 100u8, 108u8, 101u8]) {
            return Some(TextAnchor::Middle);
        }
        if bytes_eq(s, &[101u8, 110u8, 100u8]) {
            return Some(TextAnchor::End);
        }
        None
    }

    fn write_to(&self, out: &mut Vec<u8>) {
        match self {
            TextAnchor::Start => append_bytes(out, &[115u8, 116u8, 97u8, 114u8, 116u8]),
            TextAnchor::Middle => append_bytes(out, &[109u8, 105u8, 100u8, 100u8, 108u8, 101u8]),
            TextAnchor::End => append_bytes(out, &[101u8, 110u8, 100u8]),
        }
    }
}

/// The `TextOverflow` keywords.
#[derive(Clone, Copy, Debug, PartialEq, Eq, Structural)]
pub enum TextOverflow {
    Clip,
    Ellipsis,
}

impl TextOverflow {
    pub open spec fn spec_str(&self) -> Seq<char> {
        match self {
            TextOverflow::Clip => "clip"@,
            TextOverflow::Ellipsis => "ellipsis"@,
        }
    }

    pub fn as_str(&self) -> (r: &'static str)
        ensures
            r@ == self.spec_str(),
    {
        match self {
            TextOverflow::Clip => "clip",
            TextOverflow::Ellipsis => "ellipsis",
        }
    }

    /// The keyword reads back as itself.
    pub proof fn lemma_format_round_trip(&self)
        ensures
            Self::spec_canonical(self.spec_format()) == Some(self.spec_format()),
    {
    }
}

impl Grammar for TextOverflow {
    open spec fn spec_wf(&self) -> bool {
        true
    }

    open spec fn spec_format(&self) -> Seq<u8> {
        match self {
            TextOverflow::Clip => seq![99u8, 108u8, 105u8, 112u8],
            TextOverflow::Ellipsis => seq![101u8, 108u8, 108u8, 105u8, 112u8, 115u8, 105u8, 115u8],
        }
    }

    open spec fn spec_canonical(s: Seq<u8>) -> Option<Seq<u8>> {
        if s == seq![99u8, 108u8, 105u8, 112u8] {
            Some(s)
        } else if s == seq![101u8, 108u8, 108u8, 105u8, 112u8, 115u8, 105u8, 115u8] {
            Some(s)
        } else {
            None
        }
    }

    fn parse(s: &[u8]) -> (r: Option<TextOverflow>) {
        if bytes_eq(s, &[99u8, 108u8, 105u8, 112u8]) {
            return Some(TextOverflow::Clip);
        }
        if bytes_eq(s, &[101u8, 108u8, 108u8, 105u8, 112u8, 115u8, 105u8, 115u8]) {
            return Some(TextOverflow::Ellipsis);
        }
        None
    }

    fn write_to(&self, out: &mut Vec<u8>) {
        match self {
            TextOverflow::Clip => append_bytes(out, &[99u8, 108u8, 105u8, 112u8]),
            TextOverflow::Ellipsis => append_bytes(out, &[101u8, 108u8, 108u8, 105u8, 112u8, 115u8, 105u8, 115u8]),
        }
    }
}

/// The `TextRendering` keywords.
#[derive(Clone, Copy, Debug, PartialEq, Eq, Structural)]
pub enum TextRendering {
    Auto,
    OptimizeSpeed,
    OptimizeLegibility,
    GeometricPrecision,
}

impl TextRendering {
    pub open spec fn spec_str(&self) -> Seq<char> {
        match self {
            TextRendering::Auto => "auto"@,
            TextRendering::OptimizeSpeed => "optimizeSpeed"@,
            TextRendering::OptimizeLegibility => "optimizeLegibility"@,
            TextRendering::GeometricPrecision => "geometricPrecision"@,
        }
    }

    pub fn as_str(&self) -> (r: &'static str)
        ensures
            r@ == self.spec_str(),
    {
        match self {
            TextRendering::Auto => "auto",
            TextRendering::OptimizeSpeed => "optimizeSpeed",
            TextRendering::OptimizeLegibility => "optimizeLegibility",
            TextRendering::GeometricPrecision => "geometricPrecision",
        }
    }

    /// The keyword reads back as itself.
    pub proof fn lemma_format_round_trip(&self)
        ensures
            Self::spec_canonical(self.spec_format()) == Some(self.spec_format()),
    {
    }
}

impl Grammar for TextRendering {
    open spec fn spec_wf(&self) -> bool {
        true
    }

    open spec fn spec_format(&self) -> Seq<u8> {
        match self {
            TextRendering::Auto => seq![97u8, 117u8, 116u8, 111u8],
            TextRendering::OptimizeSpeed => seq![111u8, 112u8, 116u8, 105u8, 109u8, 105u8, 122u8, 101u8, 83u8, 112u8, 101u8, 101u8, 100u8],
            TextRendering::OptimizeLegibility => seq![111u8, 112u8, 116u8, 105u8, 109u8, 105u8, 122u8, 101u8, 76u8, 101u8, 103u8, 105u8, 98u8, 105u8, 108u8, 105u8, 116u8, 121u8],
            TextRendering::GeometricPrecision => seq![103u8, 101u8, 111u8, 109u8, 101u8, 116u8, 114u8, 105u8, 99u8, 80u8, 114u8, 101u8, 99u8, 105u8, 115u8, 105u8, 111u8, 110u8],
        }
    }

    open spec fn spec_canonical(s: Seq<u8>) -> Option<Seq<u8>> {
        if s == seq![97u8, 117u8, 116u8, 111u8] {
            Some(s)
        } else if s == seq![111u8, 112u8, 116u8, 105u8, 109u8, 105u8, 122u8, 101u8, 83u8, 112u8, 101u8, 101u8, 100u8] {
            Some(s)
        } else if s == seq![111u8, 112u8, 116u8, 105u8, 109u8, 105u8, 122u8, 101u8, 76u8, 101u8, 103u8, 105u8, 98u8, 105u8, 108u8, 105u8, 116u8, 121u8] {
            Some(s)
        } else if s == seq![103u8, 101u8, 111u8, 109u8, 101u8, 116u8, 114u8, 105u8, 99u8, 80u8, 114u8, 101u8, 99u8, 105u8, 115u8, 105u8, 111u8, 110u8] {
            Some(s)
        } else {
            None
        }
    }

    fn parse(s: &[u8]) -> (r: Option<TextRendering>) {
        if bytes_eq(s, &[97u8, 117u8, 116u8, 111u8]) {
            return Some(TextRendering::Auto);
        }
        if bytes_eq(s, &[111u8, 112u8, 116u8, 105u8, 109u8, 105u8, 122u8, 101u8, 83u8, 112u8, 101u8, 101u8, 100u8]) {
            return Some(TextRendering::OptimizeSpeed);
        }
        if bytes_eq(s, &[111u8, 112u8, 116u8, 105u8, 109u8, 105u8, 122u8, 101u8, 76u8, 101u8, 103u8, 105u8, 98u8, 105u8, 108u8, 105u8, 116u8, 121u8]) {
            return Some(TextRendering::OptimizeLegibility);
        }
        if bytes_eq(s, &[103u8, 101u8, 111u8, 109u8, 101u8, 116u8, 114u8, 105u8, 99u8, 80u8, 114u8, 101u8, 99u8, 105u8, 115u8, 105u8, 111u8, 110u8]) {
            return Some(TextRendering::GeometricPrecision);
        }
        None
    }

    fn write_to(&self, out: &mut Vec<u8>) {
        match self {
            TextRendering::Auto => append_bytes(out, &[97u8, 117u8, 116u8, 111u8]),
            TextRendering::OptimizeSpeed => append_bytes(out, &[111u8, 112u8, 116u8, 105u8, 109u8, 105u8, 122u8, 101u8, 83u8, 112u8, 101u8, 101u8, 100u8]),
            TextRendering::OptimizeLegibility => append_bytes(out, &[111u8, 112u8, 116u8, 105u8, 109u8, 105u8, 122u8, 101u8, 76u8, 101u8, 103u8, 105u8, 98u8, 105u8, 108u8, 105u8, 116u8, 121u8]),
            TextRendering::GeometricPrecision => append_bytes(out, &[103u8, 101u8, 111u8, 109u8, 101u8, 116u8, 114u8, 105u8, 99u8, 80u8, 114u8, 101u8, 99u8, 105u8, 115u8, 105u8, 111u8, 110u8]),
        }
    }
}

/// The `UnicodeBidi` keywords.
#[derive(Clone, Copy, Debug, PartialEq, Eq, Structural)]
pub enum UnicodeBidi {
    Normal,
    Embed,
    Isolate,
    BidiOverride,
    IsolateOverride,
    Plaintext,
}

impl UnicodeBidi {
    pub open spec fn spec_str(&self) -> Seq<char> {
        match self {
            UnicodeBidi::Normal => "normal"@,
            UnicodeBidi::Embed => "embed"@,
            UnicodeBidi::Isolate => "isolate"@,
            UnicodeBidi::BidiOverride => "bidi-override"@,
            UnicodeBidi::IsolateOverride => "isolate-override"@,
            UnicodeBidi::Plaintext => "plaintext"@,
        }
    }

    pub fn as_str(&self) -> (r: &'static str)
        ensures
            r@ == self.spec_str(),
    {
        match self {
            UnicodeBidi::Normal => "normal",
            UnicodeBidi::Embed => "embed",
            UnicodeBidi::Isolate => "isolate",
            UnicodeBidi::BidiOverride => "bidi-override",
            UnicodeBidi::IsolateOverride => "isolate-override",
            UnicodeBidi::Plaintext => "plaintext",
        }
    }

    /// The keyword reads back as itself.
    pub proof fn lemma_format_round_trip(&self)
        ensures
            Self::spec_canonical(self.spec_format()) == Some(self.spec_format()),
    {
    }
}

impl Grammar for UnicodeBidi {
    open spec fn spec_wf(&self) -> bool {
        true
    }

    open spec fn spec_format(&self) -> Seq<u8> {
        match self {
            UnicodeBidi::Normal => seq![110u8, 111u8, 114u8, 109u8, 97u8, 108u8],
            UnicodeBidi::Embed => seq![101u8, 109u8, 98u8, 101u8, 100u8],
            UnicodeBidi::Isolate => seq![105u8, 115u8, 111u8, 108u8, 97u8, 116u8, 101u8],
            UnicodeBidi::BidiOverride => seq![98u8, 105u8, 100u8, 105u8, 45u8, 111u8, 118u8, 101u8, 114u8, 114u8, 105u8, 100u8, 101u8],
            UnicodeBidi::IsolateOverride => seq![105u8, 115u8, 111u8, 108u8, 97u8, 116u8, 101u8, 45u8, 111u8, 118u8, 101u8, 114u8, 114u8, 105u8, 100u8, 101u8],
            UnicodeBidi::Plaintext => seq![112u8, 108u8, 97u8, 105u8, 110u8, 116u8, 101u8, 120u8, 116u8],
        }
    }

    open spec fn spec_canonical(s: Seq<u8>) -> Option<Seq<u8>> {
        if s == seq![110u8, 111u8, 114u8, 109u8, 97u8, 108u8] {
            Some(s)
        } else if s == seq![101u8, 109u8, 98u8, 101u8, 100u8] {
            Some(s)
        } else if s == seq![105u8, 115u8, 111u8, 108u8, 97u8, 116u8, 101u8] {
            Some(s)
        } else if s == seq![98u8, 105u8, 100u8, 105u8, 45u8, 111u8, 118u8, 101u8, 114u8, 114u8, 105u8, 100u8, 101u8] {
            Some(s)
        } else if s == seq![105u8, 115u8, 111u8, 108u8, 97u8, 116u8, 101u8, 45u8, 111u8, 118u8, 101u8, 114u8, 114u8, 105u8, 100u8, 101u8] {
            Some(s)
        } else if s == seq![112u8, 108u8, 97u8, 105u8, 110u8, 116u8, 101u8, 120u8, 116u8] {
            Some(s)
        } else {
            None
        }
    }

    fn parse(s: &[u8]) -> (r: Option<UnicodeBidi>) {
        if bytes_eq(s, &[110u8, 111u8, 114u8, 109u8, 97u8, 108u8]) {
            return Some(UnicodeBidi::Normal);
        }
        if bytes_eq(s, &[101u8, 109u8, 98u8, 101u8, 100u8]) {
            return Some(UnicodeBidi::Embed);
        }
        if bytes_eq(s, &[105u8, 115u8, 111u8, 108u8, 97u8, 116u8, 101u8]) {
            return Some(UnicodeBidi::Isolate);
        }
        if bytes_eq(s, &[98u8, 105u8, 100u8, 105u8, 45u8, 111u8, 118u8, 101u8, 114u8, 114u8, 105u8, 100u8, 101u8]) {
            return Some(UnicodeBidi::BidiOverride);
        }
        if bytes_eq(s, &[105u8, 115u8, 111u8, 108u8, 97u8, 116u8, 101u8, 45u8, 111u8, 118u8, 101u8, 114u8, 114u8, 105u8, 100u8, 101u8]) {
            return Some(UnicodeBidi::IsolateOverride);
        }
        if bytes_eq(s, &[112u8, 108u8, 97u8, 105u8, 110u8, 116u8, 101u8, 120u8, 116u8]) {
            return Some(UnicodeBidi::Plaintext);
        }
        None
    }

    fn write_to(&self, out: &mut Vec<u8>) {
        match self {
            UnicodeBidi::Normal => append_bytes(out, &[110u8, 111u8, 114u8, 109u8, 97u8, 108u8]),
            UnicodeBidi::Embed => append_bytes(out, &[101u8, 109u8, 98u8, 101u8, 100u8]),
            UnicodeBidi::Isolate => append_bytes(out, &[105u8, 115u8, 111u8, 108u8, 97u8, 116u8, 101u8]),
            UnicodeBidi::BidiOverride => append_bytes(out, &[98u8, 105u8, 100u8, 105u8, 45u8, 111u8, 118u8, 101u8, 114u8, 114u8, 105u8, 100u8, 101u8]),
            UnicodeBidi::IsolateOverride => append_bytes(out, &[105u8, 115u8, 111u8, 108u8, 97u8, 116u8, 101u8, 45u8, 111u8, 118u8, 101u8, 114u8, 114u8, 105u8, 100u8, 101u8]),
            UnicodeBidi::Plaintext => append_bytes(out, &[112u8, 108u8, 97u8, 105u8, 110u8, 116u8, 101u8, 120u8, 116u8]),
        }
    }
}

/// The `Visibility` keywords.
#[derive(Clone, Copy, Debug, PartialEq, Eq, Structural)]
pub enum Visibility {
    Visible,
    Hidden,
    Collapse,
}

impl Visibility {
    pub open spec fn spec_str(&self) -> Seq<char> {
        match self {
            Visibility::Visible => "visible"@,
            Visibility::Hidden => "hidden"@,
            Visibility::Collapse => "collapse"@,
        }
    }

    pub fn as_str(&self) -> (r: &'static str)
        ensures
            r@ == self.spec_str(),
    {
        match self {
            Visibility::Visible => "visible",
            Visibility::Hidden => "hidden",
            Visibility::Collapse => "collapse",
        }
    }

    /// The keyword reads back as itself.
    pub proof fn lemma_format_round_trip(&self)
        ensures
            Self::spec_canonical(self.spec_format()) == Some(self.spec_format()),
    {
    }
}

impl Grammar for Visibility {
    open spec fn spec_wf(&self) -> bool {
        true
    }

    open spec fn spec_format(&self) -> Seq<u8> {
        match self {
            Visibility::Visible => seq![118u8, 105u8, 115u8, 105u8, 98u8, 108u8, 101u8],
            Visibility::Hidden => seq![104u8, 105u8, 100u8, 100u8, 101u8, 110u8],
            Visibility::Collapse => seq![99u8, 111u8, 108u8, 108u8, 97u8, 112u8, 115u8, 101u8],
        }
    }

    open spec fn spec_canonical(s: Seq<u8>) -> Option<Seq<u8>> {
        if s == seq![118u8, 105u8, 115u8, 105u8, 98u8, 108u8, 101u8] {
            Some(s)
        } else if s == seq![104u8, 105u8, 100u8, 100u8, 101u8, 110u8] {
            Some(s)
        } else if s == seq![99u8, 111u8, 108u8, 108u8, 97u8, 112u8, 115u8, 101u8] {
            Some(s)
        } else {
            None
        }
    }

    fn parse(s: &[u8]) -> (r: Option<Visibility>) {
        if bytes_eq(s, &[118u8, 105u8, 115u8, 105u8, 98u8, 108u8, 101u8]) {
            return Some(Visibility::Visible);
        }
        if bytes_eq(s, &[104u8, 105u8, 100u8, 100u8, 101u8, 110u8]) {
            return Some(Visibility::Hidden);
        }
        if bytes_eq(s, &[99u8, 111u8, 108u8, 108u8, 97u8, 112u8, 115u8, 101u8]) {
            return Some(Visibility::Collapse);
        }
        None
    }

    fn write_to(&self, out: &mut Vec<u8>) {
        match self {
            Visibility::Visible => append_bytes(out, &[118u8, 105u8, 115u8, 105u8, 98u8, 108u8, 101u8]),
            Visibility::Hidden => append_bytes(out, &[104u8, 105u8, 100u8, 100u8, 101u8, 110u8]),
            Visibility::Collapse => append_bytes(out, &[99u8, 111u8, 108u8, 108u8, 97u8, 112u8, 115u8, 101u8]),
        }
    }
}

/// The `WhiteSpace` keywords.
#[derive(Clone, Copy, Debug, PartialEq, Eq, Structural)]
pub enum WhiteSpace {
    Normal,
    Pre,
    Nowrap,
    PreWrap,
    BreakSpace,
    PreLine,
}

impl WhiteSpace {
    pub open spec fn spec_str(&self) -> Seq<char> {
        match self {
            WhiteSpace::Normal => "normal"@,
            WhiteSpace::Pre => "pre"@,
            WhiteSpace::Nowrap => "nowrap"@,
            WhiteSpace::PreWrap => "pre-wrap"@,
            WhiteSpace::BreakSpace => "break-space"@,
            WhiteSpace::PreLine => "pre-line"@,
        }
    }

    pub fn as_str(&self) -> (r: &'static str)
        ensures
            r@ == self.spec_str(),
    {
        match self {
            WhiteSpace::Normal => "normal",
            WhiteSpace::Pre => "pre",
            WhiteSpace::Nowrap => "nowrap",
            WhiteSpace::PreWrap => "pre-wrap",
            WhiteSpace::BreakSpace => "break-space",
            WhiteSpace::PreLine => "pre-line",
        }
    }

    /// The keyword reads back as itself.
    pub proof fn lemma_format_round_trip(&self)
        ensures
            Self::spec_canonical(self.spec_format()) == Some(self.spec_format()),
    {
    }
}

impl Grammar for WhiteSpace {
    open spec fn spec_wf(&self) -> bool {
        true
    }

    open spec fn spec_format(&self) -> Seq<u8> {
        match self {
            WhiteSpace::Normal => seq![110u8, 111u8, 114u8, 109u8, 97u8, 108u8],
            WhiteSpace::Pre => seq![112u8, 114u8, 101u8],
            WhiteSpace::Nowrap => seq![110u8, 111u8, 119u8, 114u8, 97u8, 112u8],
            WhiteSpace::PreWrap => seq![112u8, 114u8, 101u8, 45u8, 119u8, 114u8, 97u8, 112u8],
            WhiteSpace::BreakSpace => seq![98u8, 114u8, 101u8, 97u8, 107u8, 45u8, 115u8, 112u8, 97u8, 99u8, 101u8],
            WhiteSpace::PreLine => seq![112u8, 114u8, 101u8, 45u8, 108u8, 105u8, 110u8, 101u8],
        }
    }

    open spec fn spec_canonical(s: Seq<u8>) -> Option<Seq<u8>> {
        if s == seq![110u8, 111u8, 114u8, 109u8, 97u8, 108u8] {
            Some(s)
        } else if s == seq![112u8, 114u8, 101u8] {
            Some(s)
        } else if s == seq![110u8, 111u8, 119u8, 114u8, 97u8, 112u8] {
            Some(s)
        } else if s == seq![112u8, 114u8, 101u8, 45u8, 119u8, 114u8, 97u8, 112u8] {
            Some(s)
        } else if s == seq![98u8, 114u8, 101u8, 97u8, 107u8, 45u8, 115u8, 112u8, 97u8, 99u8, 101u8] {
            Some(s)
        } else if s == seq![112u8, 114u8, 101u8, 45u8, 108u8, 105u8, 110u8, 101u8] {
            Some(s)
        } else {
            None
        }
    }

    fn parse(s: &[u8]) -> (r: Option<WhiteSpace>) {
        if bytes_eq(s, &[110u8, 111u8, 114u8, 109u8, 97u8, 108u8]) {
            return Some(WhiteSpace::Normal);
        }
        if bytes_eq(s, &[112u8, 114u8, 101u8]) {
            return Some(WhiteSpace::Pre);
        }
        if bytes_eq(s, &[110u8, 111u8, 119u8, 114u8, 97u8, 112u8]) {
            return Some(WhiteSpace::Nowrap);
        }
        if bytes_eq(s, &[112u8, 114u8, 101u8, 45u8, 119u8, 114u8, 97u8, 112u8]) {
            return Some(WhiteSpace::PreWrap);
        }
        if bytes_eq(s, &[98u8, 114u8, 101u8, 97u8, 107u8, 45u8, 115u8, 112u8, 97u8, 99u8, 101u8]) {
            return Some(WhiteSpace::BreakSpace);
        }
        if bytes_eq(s, &[112u8, 114u8, 101u8, 45u8, 108u8, 105u8, 110u8, 101u8]) {
            return Some(WhiteSpace::PreLine);
        }
        None
    }

    fn write_to(&self, out: &mut Vec<u8>) {
        match self {
            WhiteSpace::Normal => append_bytes(out, &[110u8, 111u8, 114u8, 109u8, 97u8, 108u8]),
            WhiteSpace::Pre => append_bytes(out, &[112u8, 114u8, 101u8]),
            WhiteSpace::Nowrap => append_bytes(out, &[110u8, 111u8, 119u8, 114u8, 97u8, 112u8]),
            WhiteSpace::PreWrap => append_bytes(out, &[112u8, 114u8, 101u8, 45u8, 119u8, 114u8, 97u8, 112u8]),
            WhiteSpace::BreakSpace => append_bytes(out, &[98u8, 114u8, 101u8, 97u8, 107u8, 45u8, 115u8, 112u8, 97u8, 99u8, 101u8]),
            WhiteSpace::PreLine => append_bytes(out, &[112u8, 114u8, 101u8, 45u8, 108u8, 105u8, 110u8, 101u8]),
        }
    }
}

/// The `WritingMode` keywords.
#[derive(Clone, Copy, Debug, PartialEq, Eq, Structural)]
pub enum WritingMode {
    HorizontalTb,
    VerticalRl,
    VerticalLr,
}

impl WritingMode {
    pub open spec fn spec_str(&self) -> Seq<char> {
        match self {
            WritingMode::HorizontalTb => "horizontal-tb"@,
            WritingMode::VerticalRl => "vertical-rl"@,
            WritingMode::VerticalLr => "vertical-lr"@,
        }
    }

    pub fn as_str(&self) -> (r: &'static str)
        ensures
            r@ == self.spec_str(),
    {
        match self {
            WritingMode::HorizontalTb => "horizontal-tb",
            WritingMode::VerticalRl => "vertical-rl",
            WritingMode::VerticalLr => "vertical-lr",
        }
    }

    /// The keyword reads back as itself.
    pub proof fn lemma_format_round_trip(&self)
        ensures
            Self::spec_canonical(self.spec_format()) == Some(self.spec_format()),
    {
    }
}

impl Grammar for WritingMode {
    open spec fn spec_wf(&self) -> bool {
        true
    }

    open spec fn spec_format(&self) -> Seq<u8> {
        match self {
            WritingMode::HorizontalTb => seq![104u8, 111u8, 114u8, 105u8, 122u8, 111u8, 110u8, 116u8, 97u8, 108u8, 45u8, 116u8, 98u8],
            WritingMode::VerticalRl => seq![118u8, 101u8, 114u8, 116u8, 105u8, 99u8, 97u8, 108u8, 45u8, 114u8, 108u8],
            WritingMode::VerticalLr => seq![118u8, 101u8, 114u8, 116u8, 105u8, 99u8, 97u8, 108u8, 45u8, 108u8, 114u8],
        }
    }

    open spec fn spec_canonical(s: Seq<u8>) -> Option<Seq<u8>> {
        if s == seq![104u8, 111u8, 114u8, 105u8, 122u8, 111u8, 110u8, 116u8, 97u8, 108u8, 45u8, 116u8, 98u8] {
            Some(s)
        } else if s == seq![118u8, 101u8, 114u8, 116u8, 105u8, 99u8, 97u8, 108u8, 45u8, 114u8, 108u8] {
            Some(s)
        } else if s == seq![118u8, 101u8, 114u8, 116u8, 105u8, 99u8, 97u8, 108u8, 45u8, 108u8, 114u8] {
            Some(s)
        } else {
            None
        }
    }

    fn parse(s: &[u8]) -> (r: Option<WritingMode>) {
        if bytes_eq(s, &[104u8, 111u8, 114u8, 105u8, 122u8, 111u8, 110u8, 116u8, 97u8, 108u8, 45u8, 116u8, 98u8]) {
            return Some(WritingMode::HorizontalTb);
        }
        if bytes_eq(s, &[118u8, 101u8, 114u8, 116u8, 105u8, 99u8, 97u8, 108u8, 45u8, 114u8, 108u8]) {
            return Some(WritingMode::VerticalRl);
        }
        if bytes_eq(s, &[118u8, 101u8, 114u8, 116u8, 105u8, 99u8, 97u8, 108u8, 45u8, 108u8, 114u8]) {
            return Some(WritingMode::VerticalLr);
        }
        None
    }

    fn write_to(&self, out: &mut Vec<u8>) {
        match self {
            WritingMode::HorizontalTb => append_bytes(out, &[104u8, 111u8, 114u8, 105u8, 122u8, 111u8, 110u8, 116u8, 97u8, 108u8, 45u8, 116u8, 98u8]),
            WritingMode::VerticalRl => append_bytes(out, &[118u8, 101u8, 114u8, 116u8, 105u8, 99u8, 97u8, 108u8, 45u8, 114u8, 108u8]),
            WritingMode::VerticalLr => append_bytes(out, &[118u8, 101u8, 114u8, 116u8, 105u8, 99u8, 97u8, 108u8, 45u8, 108u8, 114u8]),
        }
    }
}

/// The `ReferrerPolicy` keywords.
#[derive(Clone, Copy, Debug, PartialEq, Eq, Structural)]
pub enum ReferrerPolicy {
    NoReferrer,
    NoReferrerWhenDowngrade,
    SameOrigin,
    Origin,
    StrictOrigin,
    OriginWhenCrossOrigin,
    StrictOriginWhenCrossOrigin,
    UnsafeUrl,
}

impl ReferrerPolicy {
    pub open spec fn spec_str(&self) -> Seq<char> {
        match self {
            ReferrerPolicy::NoReferrer => "no-referrer"@,
            ReferrerPolicy::NoReferrerWhenDowngrade => "no-referrer-when-downgrade"@,
            ReferrerPolicy::SameOrigin => "same-origin"@,
            ReferrerPolicy::Origin => "origin"@,
            ReferrerPolicy::StrictOrigin => "strict-origin"@,
            ReferrerPolicy::OriginWhenCrossOrigin => "origin-when-cross-origin"@,
            ReferrerPolicy::StrictOriginWhenCrossOrigin => "strict-origin-when-cross-origin"@,
            ReferrerPolicy::UnsafeUrl => "unsafe-url"@,
        }
    }

    pub fn as_str(&self) -> (r: &'static str)
        ensures
            r@ == self.spec_str(),
    {
        match self {
            ReferrerPolicy::NoReferrer => "no-referrer",
            ReferrerPolicy::NoReferrerWhenDowngrade => "no-referrer-when-downgrade",
            ReferrerPolicy::SameOrigin => "same-origin",
            ReferrerPolicy::Origin => "origin",
            ReferrerPolicy::StrictOrigin => "strict-origin",
            ReferrerPolicy::OriginWhenCrossOrigin => "origin-when-cross-origin",
            ReferrerPolicy::StrictOriginWhenCrossOrigin => "strict-origin-when-cross-origin",
            ReferrerPolicy::UnsafeUrl => "unsafe-url",
        }
    }

    /// The keyword reads back as itself.
    pub proof fn lemma_format_round_trip(&self)
        ensures
            Self::spec_canonical(self.spec_format()) == Some(self.spec_format()),
    {
    }
}

impl Grammar for ReferrerPolicy {
    open spec fn spec_wf(&self) -> bool {
        true
    }

    open spec fn spec_format(&self) -> Seq<u8> {
        match self {
            ReferrerPolicy::NoReferrer => seq![110u8, 111u8, 45u8, 114u8, 101u8, 102u8, 101u8, 114u8, 114u8, 101u8, 114u8],
            ReferrerPolicy::NoReferrerWhenDowngrade => seq![110u8, 111u8, 45u8, 114u8, 101u8, 102u8, 101u8, 114u8, 114u8, 101u8, 114u8, 45u8, 119u8, 104u8, 101u8, 110u8, 45u8, 100u8, 111u8, 119u8, 110u8, 103u8, 114u8, 97u8, 100u8, 101u8],
            ReferrerPolicy::SameOrigin => seq![115u8, 97u8, 109u8, 101u8, 45u8, 111u8, 114u8, 105u8, 103u8, 105u8, 110u8],
            ReferrerPolicy::Origin => seq![111u8, 114u8, 105u8, 103u8, 105u8, 110u8],
            ReferrerPolicy::StrictOrigin => seq![115u8, 116u8, 114u8, 105u8, 99u8, 116u8, 45u8, 111u8, 114u8, 105u8, 103u8, 105u8, 110u8],
            ReferrerPolicy::OriginWhenCrossOrigin => seq![111u8, 114u8, 105u8, 103u8, 105u8, 110u8, 45u8, 119u8, 104u8, 101u8, 110u8, 45u8, 99u8, 114u8, 111u8, 115u8, 115u8, 45u8, 111u8, 114u8, 105u8, 103u8, 105u8, 110u8],
            ReferrerPolicy::StrictOriginWhenCrossOrigin => seq![115u8, 116u8, 114u8, 105u8, 99u8, 116u8, 45u8, 111u8, 114u8, 105u8, 103u8, 105u8, 110u8, 45u8, 119u8, 104u8, 101u8, 110u8, 45u8, 99u8, 114u8, 111u8, 115u8, 115u8, 45u8, 111u8, 114u8, 105u8, 103u8, 105u8, 110u8],
            ReferrerPolicy::UnsafeUrl => seq![117u8, 110u8, 115u8, 97u8, 102u8, 101u8, 45u8, 117u8, 114u8, 108u8],
        }
    }

    open spec fn spec_canonical(s: Seq<u8>) -> Option<Seq<u8>> {
        if s == seq![110u8, 111u8, 45u8, 114u8, 101u8, 102u8, 101u8, 114u8, 114u8, 101u8, 114u8] {
            Some(s)
        } else if s == seq![110u8, 111u8, 45u8, 114u8, 101u8, 102u8, 101u8, 114u8, 114u8, 101u8, 114u8, 45u8, 119u8, 104u8, 101u8, 110u8, 45u8, 100u8, 111u8, 119u8, 110u8, 103u8, 114u8, 97u8, 100u8, 101u8] {
            Some(s)
        } else if s == seq![115u8, 97u8, 109u8, 101u8, 45u8, 111u8, 114u8, 105u8, 103u8, 105u8, 110u8] {
            Some(s)
        } else if s == seq![111u8, 114u8, 105u8, 103u8, 105u8, 110u8] {
            Some(s)
        } else if s == seq![115u8, 116u8, 114u8, 105u8, 99u8, 116u8, 45u8, 111u8, 114u8, 105u8, 103u8, 105u8, 110u8] {
            Some(s)
        } else if s == seq![111u8, 114u8, 105u8, 103u8, 105u8, 110u8, 45u8, 119u8, 104u8, 101u8, 110u8, 45u8, 99u8, 114u8, 111u8, 115u8, 115u8, 45u8, 111u8, 114u8, 105u8, 103u8, 105u8, 110u8] {
            Some(s)
        } else if s == seq![115u8, 116u8, 114u8, 105u8, 99u8, 116u8, 45u8, 111u8, 114u8, 105u8, 103u8, 105u8, 110u8, 45u8, 119u8, 104u8, 101u8, 110u8, 45u8, 99u8, 114u8, 111u8, 115u8, 115u8, 45u8, 111u8, 114u8, 105u8, 103u8, 105u8, 110u8] {
            Some(s)
        } else if s == seq![117u8, 110u8, 115u8, 97u8, 102u8, 101u8, 45u8, 117u8, 114u8, 108u8] {
            Some(s)
        } else {
            None
        }
    }

    fn parse(s: &[u8]) -> (r: Option<ReferrerPolicy>) {
        if bytes_eq(s, &[110u8, 111u8, 45u8, 114u8, 101u8, 102u8, 101u8, 114u8, 114u8, 101u8, 114u8]) {
            return Some(ReferrerPolicy::NoReferrer);
        }
        if bytes_eq(s, &[110u8, 111u8, 45u8, 114u8, 101u8, 102u8, 101u8, 114u8, 114u8, 101u8, 114u8, 45u8, 119u8, 104u8, 101u8, 110u8, 45u8, 100u8, 111u8, 119u8, 110u8, 103u8, 114u8, 97u8, 100u8, 101u8]) {
            return Some(ReferrerPolicy::NoReferrerWhenDowngrade);
        }
        if bytes_eq(s, &[115u8, 97u8, 109u8, 101u8, 45u8, 111u8, 114u8, 105u8, 103u8, 105u8, 110u8]) {
            return Some(ReferrerPolicy::SameOrigin);
        }
        if bytes_eq(s, &[111u8, 114u8, 105u8, 103u8, 105u8, 110u8]) {
            return Some(ReferrerPolicy::Origin);
        }
        if bytes_eq(s, &[115u8, 116u8, 114u8, 105u8, 99u8, 116u8, 45u8, 111u8, 114u8, 105u8, 103u8, 105u8, 110u8]) {
            return Some(ReferrerPolicy::StrictOrigin);
        }
        if bytes_eq(s, &[111u8, 114u8, 105u8, 103u8, 105u8, 110u8, 45u8, 119u8, 104u8, 101u8, 110u8, 45u8, 99u8, 114u8, 111u8, 115u8, 115u8, 45u8, 111u8, 114u8, 105u8, 103u8, 105u8, 110u8]) {
            return Some(ReferrerPolicy::OriginWhenCrossOrigin);
        }
        if bytes_eq(s, &[115u8, 116u8, 114u8, 105u8, 99u8, 116u8, 45u8, 111u8, 114u8, 105u8, 103u8, 105u8, 110u8, 45u8, 119u8, 104u8, 101u8, 110u8, 45u8, 99u8, 114u8, 111u8, 115u8, 115u8, 45u8, 111u8, 114u8, 105u8, 103u8, 105u8, 110u8]) {
            return Some(ReferrerPolicy::StrictOriginWhenCrossOrigin);
        }
        if bytes_eq(s, &[117u8, 110u8, 115u8, 97u8, 102u8, 101u8, 45u8, 117u8, 114u8, 108u8]) {
            return Some(ReferrerPolicy::UnsafeUrl);
        }
        None
    }

    fn write_to(&self, out: &mut Vec<u8>) {
        match self {
            ReferrerPolicy::NoReferrer => append_bytes(out, &[110u8, 111u8, 45u8, 114u8, 101u8, 102u8, 101u8, 114u8, 114u8, 101u8, 114u8]),
            ReferrerPolicy::NoReferrerWhenDowngrade => append_bytes(out, &[110u8, 111u8, 45u8, 114u8, 101u8, 102u8, 101u8, 114u8, 114u8, 101u8, 114u8, 45u8, 119u8, 104u8, 101u8, 110u8, 45u8, 100u8, 111u8, 119u8, 110u8, 103u8, 114u8, 97u8, 100u8, 101u8]),
            ReferrerPolicy::SameOrigin => append_bytes(out, &[115u8, 97u8, 109u8, 101u8, 45u8, 111u8, 114u8, 105u8, 103u8, 105u8, 110u8]),
            ReferrerPolicy::Origin => append_bytes(out, &[111u8, 114u8, 105u8, 103u8, 105u8, 110u8]),
            ReferrerPolicy::StrictOrigin => append_bytes(out, &[115u8, 116u8, 114u8, 105u8, 99u8, 116u8, 45u8, 111u8, 114u8, 105u8, 103u8, 105u8, 110u8]),
            ReferrerPolicy::OriginWhenCrossOrigin => append_bytes(out, &[111u8, 114u8, 105u8, 103u8, 105u8, 110u8, 45u8, 119u8, 104u8, 101u8, 110u8, 45u8, 99u8, 114u8, 111u8, 115u8, 115u8, 45u8, 111u8, 114u8, 105u8, 103u8, 105u8, 110u8]),
            ReferrerPolicy::StrictOriginWhenCrossOrigin => append_bytes(out, &[115u8, 116u8, 114u8, 105u8, 99u8, 116u8, 45u8, 111u8, 114u8, 105u8, 103u8, 105u8, 110u8, 45u8, 119u8, 104u8, 101u8, 110u8, 45u8, 99u8, 114u8, 111u8, 115u8, 115u8, 45u8, 111u8, 114u8, 105u8, 103u8, 105u8, 110u8]),
            ReferrerPolicy::UnsafeUrl => append_bytes(out, &[117u8, 110u8, 115u8, 97u8, 102u8, 101u8, 45u8, 117u8, 114u8, 108u8]),
        }
    }
}

/// The `RelType` keywords.
#[derive(Clone, Copy, Debug, PartialEq, Eq, Structural)]
pub enum RelType {
    Alternate,
    Author,
    Bookmark,
    Canonical,
    CompressionDictionary,
    DnsPrefetch,
    External,
    Expect,
    Help,
    Icon,
    License,
    Manifest,
    Me,
    ModulePreload,
    Next,
    NoFollow,
    NoOpener,
    NoReferrer,
    Opener,
    PingBack,
    PreConnect,
    Prefetch,
    Preload,
    Prev,
    PrivacyPolicy,
    Search,
    StyleSheet,
    Tag,
    TermsOfService,
}

impl RelType {
    pub open spec fn spec_str(&self) -> Seq<char> {
        match self {
            RelType::Alternate => "alternate"@,
            RelType::Author => "author"@,
            RelType::Bookmark => "bookmark"@,
            RelType::Canonical => "canonical"@,
            RelType::CompressionDictionary => "compression-dictionary"@,
            RelType::DnsPrefetch => "dns-prefetch"@,
            RelType::External => "external"@,
            RelType::Expect => "expect"@,
            RelType::Help => "help"@,
            RelType::Icon => "icon"@,
            RelType::License => "license"@,
            RelType::Manifest => "manifest"@,
            RelType::Me => "me"@,
            RelType::ModulePreload => "module-preload"@,
            RelType::Next => "next"@,
            RelType::NoFollow => "nofollow"@,
            RelType::NoOpener => "noopener"@,
            RelType::NoReferrer => "noreferrer"@,
            RelType::Opener => "opener"@,
            RelType::PingBack => "pingback"@,
            RelType::PreConnect => "preconnect"@,
            RelType::Prefetch => "prefetch"@,
            RelType::Preload => "preload"@,
            RelType::Prev => "prev"@,
            RelType::PrivacyPolicy => "privacy-policy"@,
            RelType::Search => "search"@,
            RelType::StyleSheet => "stylesheet"@,
            RelType::Tag => "tag"@,
            RelType::TermsOfService => "terms-of-service"@,
        }
    }

    pub fn as_str(&self) -> (r: &'static str)
        ensures
            r@ == self.spec_str(),
    {
        match self {
            RelType::Alternate => "alternate",
            RelType::Author => "author",
            RelType::Bookmark => "bookmark",
            RelType::Canonical => "canonical",
            RelType::CompressionDictionary => "compression-dictionary",
            RelType::DnsPrefetch => "dns-prefetch",
            RelType::External => "external",
            RelType::Expect => "expect",
            RelType::Help => "help",
            RelType::Icon => "icon",
            RelType::License => "license",
            RelType::Manifest => "manifest",
            RelType::Me => "me",
            RelType::ModulePreload => "module-preload",
            RelType::Next => "next",
            RelType::NoFollow => "nofollow",
            RelType::NoOpener => "noopener",
            RelType::NoReferrer => "noreferrer",
            RelType::Opener => "opener",
            RelType::PingBack => "pingback",
            RelType::PreConnect => "preconnect",
            RelType::Prefetch => "prefetch",
            RelType::Preload => "preload",
            RelType::Prev => "prev",
            RelType::PrivacyPolicy => "privacy-policy",
            RelType::Search => "search",
            RelType::StyleSheet => "stylesheet",
            RelType::Tag => "tag",
            RelType::TermsOfService => "terms-of-service",
        }
    }

    /// The keyword reads back as itself.
    pub proof fn lemma_format_round_trip(&self)
        ensures
            Self::spec_canonical(self.spec_format()) == Some(self.spec_format()),
    {
    }
}

impl Grammar for RelType {
    open spec fn spec_wf(&self) -> bool {
        true
    }

    open spec fn spec_format(&self) -> Seq<u8> {
        match self {
            RelType::Alternate => seq![97u8, 108u8, 116u8, 101u8, 114u8, 110u8, 97u8, 116u8, 101u8],
            RelType::Author => seq![97u8, 117u8, 116u8, 104u8, 111u8, 114u8],
            RelType::Bookmark => seq![98u8, 111u8, 111u8, 107u8, 109u8, 97u8, 114u8, 107u8],
            RelType::Canonical => seq![99u8, 97u8, 110u8, 111u8, 110u8, 105u8, 99u8, 97u8, 108u8],
            RelType::CompressionDictionary => seq![99u8, 111u8, 109u8, 112u8, 114u8, 101u8, 115u8, 115u8, 105u8, 111u8, 110u8, 45u8, 100u8, 105u8, 99u8, 116u8, 105u8, 111u8, 110u8, 97u8, 114u8, 121u8],
            RelType::DnsPrefetch => seq![100u8, 110u8, 115u8, 45u8, 112u8, 114u8, 101u8, 102u8, 101u8, 116u8, 99u8, 104u8],
            RelType::External => seq![101u8, 120u8, 116u8, 101u8, 114u8, 110u8, 97u8, 108u8],
            RelType::Expect => seq![101u8, 120u8, 112u8, 101u8, 99u8, 116u8],
            RelType::Help => seq![104u8, 101u8, 108u8, 112u8],
            RelType::Icon => seq![105u8, 99u8, 111u8, 110u8],
            RelType::License => seq![108u8, 105u8, 99u8, 101u8, 110u8, 115u8, 101u8],
            RelType::Manifest => seq![109u8, 97u8, 110u8, 105u8, 102u8, 101u8, 115u8, 116u8],
            RelType::Me => seq![109u8, 101u8],
            RelType::ModulePreload => seq![109u8, 111u8, 100u8, 117u8, 108u8, 101u8, 45u8, 112u8, 114u8, 101u8, 108u8, 111u8, 97u8, 100u8],
            RelType::Next => seq![110u8, 101u8, 120u8, 116u8],
            RelType::NoFollow => seq![110u8, 111u8, 102u8, 111u8, 108u8, 108u8, 111u8, 119u8],
            RelType::NoOpener => seq![110u8, 111u8, 111u8, 112u8, 101u8, 110u8, 101u8, 114u8],
            RelType::NoReferrer => seq![110u8, 111u8, 114u8, 101u8, 102u8, 101u8, 114u8, 114u8, 101u8, 114u8],
            RelType::Opener => seq![111u8, 112u8, 101u8, 110u8, 101u8, 114u8],
            RelType::PingBack => seq![112u8, 105u8, 110u8, 103u8, 98u8, 97u8, 99u8, 107u8],
            RelType::PreConnect => seq![112u8, 114u8, 101u8, 99u8, 111u8, 110u8, 110u8, 101u8, 99u8, 116u8],
            RelType::Prefetch => seq![112u8, 114u8, 101u8, 102u8, 101u8, 116u8, 99u8, 104u8],
            RelType::Preload => seq![112u8, 114u8, 101u8, 108u8, 111u8, 97u8, 100u8],
            RelType::Prev => seq![112u8, 114u8, 101u8, 118u8],
            RelType::PrivacyPolicy => seq![112u8, 114u8, 105u8, 118u8, 97u8, 99u8, 121u8, 45u8, 112u8, 111u8, 108u8, 105u8, 99u8, 121u8],
            RelType::Search => seq![115u8, 101u8, 97u8, 114u8, 99u8, 104u8],
            RelType::StyleSheet => seq![115u8, 116u8, 121u8, 108u8, 101u8, 115u8, 104u8, 101u8, 101u8, 116u8],
            RelType::Tag => seq![116u8, 97u8, 103u8],
            RelType::TermsOfService => seq![116u8, 101u8, 114u8, 109u8, 115u8, 45u8, 111u8, 102u8, 45u8, 115u8, 101u8, 114u8, 118u8, 105u8, 99u8, 101u8],
        }
    }

    open spec fn spec_canonical(s: Seq<u8>) -> Option<Seq<u8>> {
        if s == seq![97u8, 108u8, 116u8, 101u8, 114u8, 110u8, 97u8, 116u8, 101u8] {
            Some(s)
        } else if s == seq![97u8, 117u8, 116u8, 104u8, 111u8, 114u8] {
            Some(s)
        } else if s == seq![98u8, 111u8, 111u8, 107u8, 109u8, 97u8, 114u8, 107u8] {
            Some(s)
        } else if s == seq![99u8, 97u8, 110u8, 111u8, 110u8, 105u8, 99u8, 97u8, 108u8] {
            Some(s)
        } else if s == seq![99u8, 111u8, 109u8, 112u8, 114u8, 101u8, 115u8, 115u8, 105u8, 111u8, 110u8, 45u8, 100u8, 105u8, 99u8, 116u8, 105u8, 111u8, 110u8, 97u8, 114u8, 121u8] {
            Some(s)
        } else if s == seq![100u8, 110u8, 115u8, 45u8, 112u8, 114u8, 101u8, 102u8, 101u8, 116u8, 99u8, 104u8] {
            Some(s)
        } else if s == seq![101u8, 120u8, 116u8, 101u8, 114u8, 110u8, 97u8, 108u8] {
            Some(s)
        } else if s == seq![101u8, 120u8, 112u8, 101u8, 99u8, 116u8] {
            Some(s)
        } else if s == seq![104u8, 101u8, 108u8, 112u8] {
            Some(s)
        } else if s == seq![105u8, 99u8, 111u8, 110u8] {
            Some(s)
        } else if s == seq![108u8, 105u8, 99u8, 101u8, 110u8, 115u8, 101u8] {
            Some(s)
        } else if s == seq![109u8, 97u8, 110u8, 105u8, 102u8, 101u8, 115u8, 116u8] {
            Some(s)
        } else if s == seq![109u8, 101u8] {
            Some(s)
        } else if s == seq![109u8, 111u8, 100u8, 117u8, 108u8, 101u8, 45u8, 112u8, 114u8, 101u8, 108u8, 111u8, 97u8, 100u8] {
            Some(s)
        } else if s == seq![110u8, 101u8, 120u8, 116u8] {
            Some(s)
        } else if s == seq![110u8, 111u8, 102u8, 111u8, 108u8, 108u8, 111u8, 119u8] {
            Some(s)
        } else if s == seq![110u8, 111u8, 111u8, 112u8, 101u8, 110u8, 101u8, 114u8] {
            Some(s)
        } else if s == seq![110u8, 111u8, 114u8, 101u8, 102u8, 101u8, 114u8, 114u8, 101u8, 114u8] {
            Some(s)
        } else if s == seq![111u8, 112u8, 101u8, 110u8, 101u8, 114u8] {
            Some(s)
        } else if s == seq![112u8, 105u8, 110u8, 103u8, 98u8, 97u8, 99u8, 107u8] {
            Some(s)
        } else if s == seq![112u8, 114u8, 101u8, 99u8, 111u8, 110u8, 110u8, 101u8, 99u8, 116u8] {
            Some(s)
        } else if s == seq![112u8, 114u8, 101u8, 102u8, 101u8, 116u8, 99u8, 104u8] {
            Some(s)
        } else if s == seq![112u8, 114u8, 101u8, 108u8, 111u8, 97u8, 100u8] {
            Some(s)
        } else if s == seq![112u8, 114u8, 101u8, 118u8] {
            Some(s)
        } else if s == seq![112u8, 114u8, 105u8, 118u8, 97u8, 99u8, 121u8, 45u8, 112u8, 111u8, 108u8, 105u8, 99u8, 121u8] {
            Some(s)
        } else if s == seq![115u8, 101u8, 97u8, 114u8, 99u8, 104u8] {
            Some(s)
        } else if s == seq![115u8, 116u8, 121u8, 108u8, 101u8, 115u8, 104u8, 101u8, 101u8, 116u8] {
            Some(s)
        } else if s == seq![116u8, 97u8, 103u8] {
            Some(s)
        } else if s == seq![116u8, 101u8, 114u8, 109u8, 115u8, 45u8, 111u8, 102u8, 45u8, 115u8, 101u8, 114u8, 118u8, 105u8, 99u8, 101u8] {
            Some(s)
        } else {
            None
        }
    }

    #[verifier::rlimit(100)]
    fn parse(s: &[u8]) -> (r: Option<RelType>) {
        if bytes_eq(s, &[97u8, 108u8, 116u8, 101u8, 114u8, 110u8, 97u8, 116u8, 101u8]) {
            return Some(RelType::Alternate);
        }
        if bytes_eq(s, &[97u8, 117u8, 116u8, 104u8, 111u8, 114u8]) {
            return Some(RelType::Author);
        }
        if bytes_eq(s, &[98u8, 111u8, 111u8, 107u8, 109u8, 97u8, 114u8, 107u8]) {
            return Some(RelType::Bookmark);
        }
        if bytes_eq(s, &[99u8, 97u8, 110u8, 111u8, 110u8, 105u8, 99u8, 97u8, 108u8]) {
            return Some(RelType::Canonical);
        }
        if bytes_eq(s, &[99u8, 111u8, 109u8, 112u8, 114u8, 101u8, 115u8, 115u8, 105u8, 111u8, 110u8, 45u8, 100u8, 105u8, 99u8, 116u8, 105u8, 111u8, 110u8, 97u8, 114u8, 121u8]) {
            return Some(RelType::CompressionDictionary);
        }
        if bytes_eq(s, &[100u8, 110u8, 115u8, 45u8, 112u8, 114u8, 101u8, 102u8, 101u8, 116u8, 99u8, 104u8]) {
            return Some(RelType::DnsPrefetch);
        }
        if bytes_eq(s, &[101u8, 120u8, 116u8, 101u8, 114u8, 110u8, 97u8, 108u8]) {
            return Some(RelType::External);
        }
        if bytes_eq(s, &[101u8, 120u8, 112u8, 101u8, 99u8, 116u8]) {
            return Some(RelType::Expect);
        }
        if bytes_eq(s, &[104u8, 101u8, 108u8, 112u8]) {
            return Some(RelType::Help);
        }
        if bytes_eq(s, &[105u8, 99u8, 111u8, 110u8]) {
            return Some(RelType::Icon);
        }
        if bytes_eq(s, &[108u8, 105u8, 99u8, 101u8, 110u8, 115u8, 101u8]) {
            return Some(RelType::License);
        }
        if bytes_eq(s, &[109u8, 97u8, 110u8, 105u8, 102u8, 101u8, 115u8, 116u8]) {
            return Some(RelType::Manifest);
        }
        if bytes_eq(s, &[109u8, 101u8]) {
            return Some(RelType::Me);
        }
        if bytes_eq(s, &[109u8, 111u8, 100u8, 117u8, 108u8, 101u8, 45u8, 112u8, 114u8, 101u8, 108u8, 111u8, 97u8, 100u8]) {
            return Some(RelType::ModulePreload);
        }
        if bytes_eq(s, &[110u8, 101u8, 120u8, 116u8]) {
            return Some(RelType::Next);
        }
        if bytes_eq(s, &[110u8, 111u8, 102u8, 111u8, 108u8, 108u8, 111u8, 119u8]) {
            return Some(RelType::NoFollow);
        }
        if bytes_eq(s, &[110u8, 111u8, 111u8, 112u8, 101u8, 110u8, 101u8, 114u8]) {
            return Some(RelType::NoOpener);
        }
        if bytes_eq(s, &[110u8, 111u8, 114u8, 101u8, 102u8, 101u8, 114u8, 114u8, 101u8, 114u8]) {
            return Some(RelType::NoReferrer);
        }
        if bytes_eq(s, &[111u8, 112u8, 101u8, 110u8, 101u8, 114u8]) {
            return Some(RelType::Opener);
        }
        if bytes_eq(s, &[112u8, 105u8, 110u8, 103u8, 98u8, 97u8, 99u8, 107u8]) {
            return Some(RelType::PingBack);
        }
        if bytes_eq(s, &[112u8, 114u8, 101u8, 99u8, 111u8, 110u8, 110u8, 101u8, 99u8, 116u8]) {
            return Some(RelType::PreConnect);
        }
        if bytes_eq(s, &[112u8, 114u8, 101u8, 102u8, 101u8, 116u8, 99u8, 104u8]) {
            return Some(RelType::Prefetch);
        }
        if bytes_eq(s, &[112u8, 114u8, 101u8, 108u8, 111u8, 97u8, 100u8]) {
            return Some(RelType::Preload);
        }
        if bytes_eq(s, &[112u8, 114u8, 101u8, 118u8]) {
            return Some(RelType::Prev);
        }
        if bytes_eq(s, &[112u8, 114u8, 105u8, 118u8, 97u8, 99u8, 121u8, 45u8, 112u8, 111u8, 108u8, 105u8, 99u8, 121u8]) {
            return Some(RelType::PrivacyPolicy);
        }
        if bytes_eq(s, &[115u8, 101u8, 97u8, 114u8, 99u8, 104u8]) {
            return Some(RelType::Search);
        }
        if bytes_eq(s, &[115u8, 116u8, 121u8, 108u8, 101u8, 115u8, 104u8, 101u8, 101u8, 116u8]) {
            return Some(RelType::StyleSheet);
        }
        if bytes_eq(s, &[116u8, 97u8, 103u8]) {
            return Some(RelType::Tag);
        }
        if bytes_eq(s, &[116u8, 101u8, 114u8, 109u8, 115u8, 45u8, 111u8, 102u8, 45u8, 115u8, 101u8, 114u8, 118u8, 105u8, 99u8, 101u8]) {
            return Some(RelType::TermsOfService);
        }
        None
    }

    fn write_to(&self, out: &mut Vec<u8>) {
        match self {
            RelType::Alternate => append_bytes(out, &[97u8, 108u8, 116u8, 101u8, 114u8, 110u8, 97u8, 116u8, 101u8]),
            RelType::Author => append_bytes(out, &[97u8, 117u8, 116u8, 104u8, 111u8, 114u8]),
            RelType::Bookmark => append_bytes(out, &[98u8, 111u8, 111u8, 107u8, 109u8, 97u8, 114u8, 107u8]),
            RelType::Canonical => append_bytes(out, &[99u8, 97u8, 110u8, 111u8, 110u8, 105u8, 99u8, 97u8, 108u8]),
            RelType::CompressionDictionary => append_bytes(out, &[99u8, 111u8, 109u8, 112u8, 114u8, 101u8, 115u8, 115u8, 105u8, 111u8, 110u8, 45u8, 100u8, 105u8, 99u8, 116u8, 105u8, 111u8, 110u8, 97u8, 114u8, 121u8]),
            RelType::DnsPrefetch => append_bytes(out, &[100u8, 110u8, 115u8, 45u8, 112u8, 114u8, 101u8, 102u8, 101u8, 116u8, 99u8, 104u8]),
            RelType::External => append_bytes(out, &[101u8, 120u8, 116u8, 101u8, 114u8, 110u8, 97u8, 108u8]),
            RelType::Expect => append_bytes(out, &[101u8, 120u8, 112u8, 101u8, 99u8, 116u8]),
            RelType::Help => append_bytes(out, &[104u8, 101u8, 108u8, 112u8]),
            RelType::Icon => append_bytes(out, &[105u8, 99u8, 111u8, 110u8]),
            RelType::License => append_bytes(out, &[108u8, 105u8, 99u8, 101u8, 110u8, 115u8, 101u8]),
            RelType::Manifest => append_bytes(out, &[109u8, 97u8, 110u8, 105u8, 102u8, 101u8, 115u8, 116u8]),
            RelType::Me => append_bytes(out, &[109u8, 101u8]),
            RelType::ModulePreload => append_bytes(out, &[109u8, 111u8, 100u8, 117u8, 108u8, 101u8, 45u8, 112u8, 114u8, 101u8, 108u8, 111u8, 97u8, 100u8]),
            RelType::Next => append_bytes(out, &[110u8, 101u8, 120u8, 116u8]),
            RelType::NoFollow => append_bytes(out, &[110u8, 111u8, 102u8, 111u8, 108u8, 108u8, 111u8, 119u8]),
            RelType::NoOpener => append_bytes(out, &[110u8, 111u8, 111u8, 112u8, 101u8, 110u8, 101u8, 114u8]),
            RelType::NoReferrer => append_bytes(out, &[110u8, 111u8, 114u8, 101u8, 102u8, 101u8, 114u8, 114u8, 101u8, 114u8]),
            RelType::Opener => append_bytes(out, &[111u8, 112u8, 101u8, 110u8, 101u8, 114u8]),
            RelType::PingBack => append_bytes(out, &[112u8, 105u8, 110u8, 103u8, 98u8, 97u8, 99u8, 107u8]),
            RelType::PreConnect => append_bytes(out, &[112u8, 114u8, 101u8, 99u8, 111u8, 110u8, 110u8, 101u8, 99u8, 116u8]),
            RelType::Prefetch => append_bytes(out, &[112u8, 114u8, 101u8, 102u8, 101u8, 116u8, 99u8, 104u8]),
            RelType::Preload => append_bytes(out, &[112u8, 114u8, 101u8, 108u8, 111u8, 97u8, 100u8]),
            RelType::Prev => append_bytes(out, &[112u8, 114u8, 101u8, 118u8]),
            RelType::PrivacyPolicy => append_bytes(out, &[112u8, 114u8, 105u8, 118u8, 97u8, 99u8, 121u8, 45u8, 112u8, 111u8, 108u8, 105u8, 99u8, 121u8]),
            RelType::Search => append_bytes(out, &[115u8, 101u8, 97u8, 114u8, 99u8, 104u8]),
            RelType::StyleSheet => append_bytes(out, &[115u8, 116u8, 121u8, 108u8, 101u8, 115u8, 104u8, 101u8, 101u8, 116u8]),
            RelType::Tag => append_bytes(out, &[116u8, 97u8, 103u8]),
            RelType::TermsOfService => append_bytes(out, &[116u8, 101u8, 114u8, 109u8, 115u8, 45u8, 111u8, 102u8, 45u8, 115u8, 101u8, 114u8, 118u8, 105u8, 99u8, 101u8]),
        }
    }
}

/// The `Target` keywords.
#[derive(Clone, Copy, Debug, PartialEq, Eq, Structural)]
pub enum Target {
    Self_,
    Parent,
    Top,
    Blank,
}

impl Target {
    pub open spec fn spec_str(&self) -> Seq<char> {
        match self {
            Target::Self_ => "_self"@,
            Target::Parent => "parent"@,
            Target::Top => "top"@,
            Target::Blank => "blank"@,
        }
    }

    pub fn as_str(&self) -> (r: &'static str)
        ensures
            r@ == self.spec_str(),
    {
        match self {
            Target::Self_ => "_self",
            Target::Parent => "parent",
            Target::Top => "top",
            Target::Blank => "blank",
        }
    }

    /// The keyword reads back as itself.
    pub proof fn lemma_format_round_trip(&self)
        ensures
            Self::spec_canonical(self.spec_format()) == Some(self.spec_format()),
    {
    }
}

impl Grammar for Target {
    open spec fn spec_wf(&self) -> bool {
        true
    }

    open spec fn spec_format(&self) -> Seq<u8> {
        match self {
            Target::Self_ => seq![95u8, 115u8, 101u8, 108u8, 102u8],
            Target::Parent => seq![112u8, 97u8, 114u8, 101u8, 110u8, 116u8],
            Target::Top => seq![116u8, 111u8, 112u8],
            Target::Blank => seq![98u8, 108u8, 97u8, 110u8, 107u8],
        }
    }

    open spec fn spec_canonical(s: Seq<u8>) -> Option<Seq<u8>> {
        if s == seq![95u8, 115u8, 101u8, 108u8, 102u8] {
            Some(s)
        } else if s == seq![112u8, 97u8, 114u8, 101u8, 110u8, 116u8] {
            Some(s)
        } else if s == seq![116u8, 111u8, 112u8] {
            Some(s)
        } else if s == seq![98u8, 108u8, 97u8, 110u8, 107u8] {
            Some(s)
        } else {
            None
        }
    }

    fn parse(s: &[u8]) -> (r: Option<Target>) {
        if bytes_eq(s, &[95u8, 115u8, 101u8, 108u8, 102u8]) {
            return Some(Target::Self_);
        }
        if bytes_eq(s, &[112u8, 97u8, 114u8, 101u8, 110u8, 116u8]) {
            return Some(Target::Parent);
        }
        if bytes_eq(s, &[116u8, 111u8, 112u8]) {
            return Some(Target::Top);
        }
        if bytes_eq(s, &[98u8, 108u8, 97u8, 110u8, 107u8]) {
            return Some(Target::Blank);
        }
        None
    }

    fn write_to(&self, out: &mut Vec<u8>) {
        match self {
            Target::Self_ => append_bytes(out, &[95u8, 115u8, 101u8, 108u8, 102u8]),
            Target::Parent => append_bytes(out, &[112u8, 97u8, 114u8, 101u8, 110u8, 116u8]),
            Target::Top => append_bytes(out, &[116u8, 111u8, 112u8]),
            Target::Blank => append_bytes(out, &[98u8, 108u8, 97u8, 110u8, 107u8]),
        }
    }
}

/// The `MarkerUnits` keywords.
#[derive(Clone, Copy, Debug, PartialEq, Eq, Structural)]
pub enum MarkerUnits {
    UserSpaceOnUse,
    StrokeWidth,
}

impl MarkerUnits {
    pub open spec fn spec_str(&self) -> Seq<char> {
        match self {
            MarkerUnits::UserSpaceOnUse => "userSpaceOnUse"@,
            MarkerUnits::StrokeWidth => "strokeWidth"@,
        }
    }

    pub fn as_str(&self) -> (r: &'static str)
        ensures
            r@ == self.spec_str(),
    {
        match self {
            MarkerUnits::UserSpaceOnUse => "userSpaceOnUse",
            MarkerUnits::StrokeWidth => "strokeWidth",
        }
    }

    /// The keyword reads back as itself.
    pub proof fn lemma_format_round_trip(&self)
        ensures
            Self::spec_canonical(self.spec_format()) == Some(self.spec_format()),
    {
    }
}

impl Grammar for MarkerUnits {
    open spec fn spec_wf(&self) -> bool {
        true
    }

    open spec fn spec_format(&self) -> Seq<u8> {
        match self {
            MarkerUnits::UserSpaceOnUse => seq![117u8, 115u8, 101u8, 114u8, 83u8, 112u8, 97u8, 99u8, 101u8, 79u8, 110u8, 85u8, 115u8, 101u8],
            MarkerUnits::StrokeWidth => seq![115u8, 116u8, 114u8, 111u8, 107u8, 101u8, 87u8, 105u8, 100u8, 116u8, 104u8],
        }
    }

    open spec fn spec_canonical(s: Seq<u8>) -> Option<Seq<u8>> {
        if s == seq![117u8, 115u8, 101u8, 114u8, 83u8, 112u8, 97u8, 99u8, 101u8, 79u8, 110u8, 85u8, 115u8, 101u8] {
            Some(s)
        } else if s == seq![115u8, 116u8, 114u8, 111u8, 107u8, 101u8, 87u8, 105u8, 100u8, 116u8, 104u8] {
            Some(s)
        } else {
            None
        }
    }

    fn parse(s: &[u8]) -> (r: Option<MarkerUnits>) {
        if bytes_eq(s, &[117u8, 115u8, 101u8, 114u8, 83u8, 112u8, 97u8, 99u8, 101u8, 79u8, 110u8, 85u8, 115u8, 101u8]) {
            return Some(MarkerUnits::UserSpaceOnUse);
        }
        if bytes_eq(s, &[115u8, 116u8, 114u8, 111u8, 107u8, 101u8, 87u8, 105u8, 100u8, 116u8, 104u8]) {
            return Some(MarkerUnits::StrokeWidth);
        }
        None
    }

    fn write_to(&self, out: &mut Vec<u8>) {
        match self {
            MarkerUnits::UserSpaceOnUse => append_bytes(out, &[117u8, 115u8, 101u8, 114u8, 83u8, 112u8, 97u8, 99u8, 101u8, 79u8, 110u8, 85u8, 115u8, 101u8]),
            MarkerUnits::StrokeWidth => append_bytes(out, &[115u8, 116u8, 114u8, 111u8, 107u8, 101u8, 87u8, 105u8, 100u8, 116u8, 104u8]),
        }
    }
}

/// The `PreserveAspectRatio` keywords.
#[derive(Clone, Copy, Debug, PartialEq, Eq, Structural)]
pub enum PreserveAspectRatio {
    NoneValue,
    XMinYMinMeet,
    XMidYMinMeet,
    XMaxYMinMeet,
    XMinYMidMeet,
    XMidYMidMeet,
    XMaxYMidMeet,
    XMinYMaxMeet,
    XMidYMaxMeet,
    XMaxYMaxMeet,
    XMinYMinSlice,
    XMidYMinSlice,
    XMaxYMinSlice,
    XMinYMidSlice,
    XMidYMidSlice,
    XMaxYMidSlice,
    XMinYMaxSlice,
    XMidYMaxSlice,
    XMaxYMaxSlice,
}

impl PreserveAspectRatio {
    pub open spec fn spec_str(&self) -> Seq<char> {
        match self {
            PreserveAspectRatio::NoneValue => "none"@,
            PreserveAspectRatio::XMinYMinMeet => "xMinYMin meet"@,
            PreserveAspectRatio::XMidYMinMeet => "xMidYMin meet"@,
            PreserveAspectRatio::XMaxYMinMeet => "xMaxYMin meet"@,
            PreserveAspectRatio::XMinYMidMeet => "xMinYMid meet"@,
            PreserveAspectRatio::XMidYMidMeet => "xMidYMid meet"@,
            PreserveAspectRatio::XMaxYMidMeet => "xMaxYMid meet"@,
            PreserveAspectRatio::XMinYMaxMeet => "xMinYMax meet"@,
            PreserveAspectRatio::XMidYMaxMeet => "xMidYMax meet"@,
            PreserveAspectRatio::XMaxYMaxMeet => "xMaxYMax meet"@,
            PreserveAspectRatio::XMinYMinSlice => "xMinYMin slice"@,
            PreserveAspectRatio::XMidYMinSlice => "xMidYMin slice"@,
            PreserveAspectRatio::XMaxYMinSlice => "xMaxYMin slice"@,
            PreserveAspectRatio::XMinYMidSlice => "xMinYMid slice"@,
            PreserveAspectRatio::XMidYMidSlice => "xMidYMid slice"@,
            PreserveAspectRatio::XMaxYMidSlice => "xMaxYMid slice"@,
            PreserveAspectRatio::XMinYMaxSlice => "xMinYMax slice"@,
            PreserveAspectRatio::XMidYMaxSlice => "xMidYMax slice"@,
            PreserveAspectRatio::XMaxYMaxSlice => "xMaxYMax slice"@,
        }
    }

    pub fn as_str(&self) -> (r: &'static str)
        ensures
            r@ == self.spec_str(),
    {
        match self {
            PreserveAspectRatio::NoneValue => "none",
            PreserveAspectRatio::XMinYMinMeet => "xMinYMin meet",
            PreserveAspectRatio::XMidYMinMeet => "xMidYMin meet",
            PreserveAspectRatio::XMaxYMinMeet => "xMaxYMin meet",
            PreserveAspectRatio::XMinYMidMeet => "xMinYMid meet",
            PreserveAspectRatio::XMidYMidMeet => "xMidYMid meet",
            PreserveAspectRatio::XMaxYMidMeet => "xMaxYMid meet",
            PreserveAspectRatio::XMinYMaxMeet => "xMinYMax meet",
            PreserveAspectRatio::XMidYMaxMeet => "xMidYMax meet",
            PreserveAspectRatio::XMaxYMaxMeet => "xMaxYMax meet",
            PreserveAspectRatio::XMinYMinSlice => "xMinYMin slice",
            PreserveAspectRatio::XMidYMinSlice => "xMidYMin slice",
            PreserveAspectRatio::XMaxYMinSlice => "xMaxYMin slice",
            PreserveAspectRatio::XMinYMidSlice => "xMinYMid slice",
            PreserveAspectRatio::XMidYMidSlice => "xMidYMid slice",
            PreserveAspectRatio::XMaxYMidSlice => "xMaxYMid slice",
            PreserveAspectRatio::XMinYMaxSlice => "xMinYMax slice",
            PreserveAspectRatio::XMidYMaxSlice => "xMidYMax slice",
            PreserveAspectRatio::XMaxYMaxSlice => "xMaxYMax slice",
        }
    }

    /// The keyword reads back as itself.
    pub proof fn lemma_format_round_trip(&self)
        ensures
            Self::spec_canonical(self.spec_format()) == Some(self.spec_format()),
    {
    }
}

impl Grammar for PreserveAspectRatio {
    open spec fn spec_wf(&self) -> bool {
        true
    }

    open spec fn spec_format(&self) -> Seq<u8> {
        match self {
            PreserveAspectRatio::NoneValue => seq![110u8, 111u8, 110u8, 101u8],
            PreserveAspectRatio::XMinYMinMeet => seq![120u8, 77u8, 105u8, 110u8, 89u8, 77u8, 105u8, 110u8, 32u8, 109u8, 101u8, 101u8, 116u8],
            PreserveAspectRatio::XMidYMinMeet => seq![120u8, 77u8, 105u8, 100u8, 89u8, 77u8, 105u8, 110u8, 32u8, 109u8, 101u8, 101u8, 116u8],
            PreserveAspectRatio::XMaxYMinMeet => seq![120u8, 77u8, 97u8, 120u8, 89u8, 77u8, 105u8, 110u8, 32u8, 109u8, 101u8, 101u8, 116u8],
            PreserveAspectRatio::XMinYMidMeet => seq![120u8, 77u8, 105u8, 110u8, 89u8, 77u8, 105u8, 100u8, 32u8, 109u8, 101u8, 101u8, 116u8],
            PreserveAspectRatio::XMidYMidMeet => seq![120u8, 77u8, 105u8, 100u8, 89u8, 77u8, 105u8, 100u8, 32u8, 109u8, 101u8, 101u8, 116u8],
            PreserveAspectRatio::XMaxYMidMeet => seq![120u8, 77u8, 97u8, 120u8, 89u8, 77u8, 105u8, 100u8, 32u8, 109u8, 101u8, 101u8, 116u8],
            PreserveAspectRatio::XMinYMaxMeet => seq![120u8, 77u8, 105u8, 110u8, 89u8, 77u8, 97u8, 120u8, 32u8, 109u8, 101u8, 101u8, 116u8],
            PreserveAspectRatio::XMidYMaxMeet => seq![120u8, 77u8, 105u8, 100u8, 89u8, 77u8, 97u8, 120u8, 32u8, 109u8, 101u8, 101u8, 116u8],
            PreserveAspectRatio::XMaxYMaxMeet => seq![120u8, 77u8, 97u8, 120u8, 89u8, 77u8, 97u8, 120u8, 32u8, 109u8, 101u8, 101u8, 116u8],
            PreserveAspectRatio::XMinYMinSlice => seq![120u8, 77u8, 105u8, 110u8, 89u8, 77u8, 105u8, 110u8, 32u8, 115u8, 108u8, 105u8, 99u8, 101u8],
            PreserveAspectRatio::XMidYMinSlice => seq![120u8, 77u8, 105u8, 100u8, 89u8, 77u8, 105u8, 110u8, 32u8, 115u8, 108u8, 105u8, 99u8, 101u8],
            PreserveAspectRatio::XMaxYMinSlice => seq![120u8, 77u8, 97u8, 120u8, 89u8, 77u8, 105u8, 110u8, 32u8, 115u8, 108u8, 105u8, 99u8, 101u8],
            PreserveAspectRatio::XMinYMidSlice => seq![120u8, 77u8, 105u8, 110u8, 89u8, 77u8, 105u8, 100u8, 32u8, 115u8, 108u8, 105u8, 99u8, 101u8],
            PreserveAspectRatio::XMidYMidSlice => seq![120u8, 77u8, 105u8, 100u8, 89u8, 77u8, 105u8, 100u8, 32u8, 115u8, 108u8, 105u8, 99u8, 101u8],
            PreserveAspectRatio::XMaxYMidSlice => seq![120u8, 77u8, 97u8, 120u8, 89u8, 77u8, 105u8, 100u8, 32u8, 115u8, 108u8, 105u8, 99u8, 101u8],
            PreserveAspectRatio::XMinYMaxSlice => seq![120u8, 77u8, 105u8, 110u8, 89u8, 77u8, 97u8, 120u8, 32u8, 115u8, 108u8, 105u8, 99u8, 101u8],
            PreserveAspectRatio::XMidYMaxSlice => seq![120u8, 77u8, 105u8, 100u8, 89u8, 77u8, 97u8, 120u8, 32u8, 115u8, 108u8, 105u8, 99u8, 101u8],
            PreserveAspectRatio::XMaxYMaxSlice => seq![120u8, 77u8, 97u8, 120u8, 89u8, 77u8, 97u8, 120u8, 32u8, 115u8, 108u8, 105u8, 99u8, 101u8],
        }
    }

    open spec fn spec_canonical(s: Seq<u8>) -> Option<Seq<u8>> {
        if s == seq![110u8, 111u8, 110u8, 101u8] {
            Some(s)
        } else if s == seq![120u8, 77u8, 105u8, 110u8, 89u8, 77u8, 105u8, 110u8, 32u8, 109u8, 101u8, 101u8, 116u8] {
            Some(s)
        } else if s == seq![120u8, 77u8, 105u8, 100u8, 89u8, 77u8, 105u8, 110u8, 32u8, 109u8, 101u8, 101u8, 116u8] {
            Some(s)
        } else if s == seq![120u8, 77u8, 97u8, 120u8, 89u8, 77u8, 105u8, 110u8, 32u8, 109u8, 101u8, 101u8, 116u8] {
            Some(s)
        } else if s == seq![120u8, 77u8, 105u8, 110u8, 89u8, 77u8, 105u8, 100u8, 32u8, 109u8, 101u8, 101u8, 116u8] {
            Some(s)
        } else if s == seq![120u8, 77u8, 105u8, 100u8, 89u8, 77u8, 105u8, 100u8, 32u8, 109u8, 101u8, 101u8, 116u8] {
            Some(s)
        } else if s == seq![120u8, 77u8, 97u8, 120u8, 89u8, 77u8, 105u8, 100u8, 32u8, 109u8, 101u8, 101u8, 116u8] {
            Some(s)
        } else if s == seq![120u8, 77u8, 105u8, 110u8, 89u8, 77u8, 97u8, 120u8, 32u8, 109u8, 101u8, 101u8, 116u8] {
            Some(s)
        } else if s == seq![120u8, 77u8, 105u8, 100u8, 89u8, 77u8, 97u8, 120u8, 32u8, 109u8, 101u8, 101u8, 116u8] {
            Some(s)
        } else if s == seq![120u8, 77u8, 97u8, 120u8, 89u8, 77u8, 97u8, 120u8, 32u8, 109u8, 101u8, 101u8, 116u8] {
            Some(s)
        } else if s == seq![120u8, 77u8, 105u8, 110u8, 89u8, 77u8, 105u8, 110u8, 32u8, 115u8, 108u8, 105u8, 99u8, 101u8] {
            Some(s)
        } else if s == seq![120u8, 77u8, 105u8, 100u8, 89u8, 77u8, 105u8, 110u8, 32u8, 115u8, 108u8, 105u8, 99u8, 101u8] {
            Some(s)
        } else if s == seq![120u8, 77u8, 97u8, 120u8, 89u8, 77u8, 105u8, 110u8, 32u8, 115u8, 108u8, 105u8, 99u8, 101u8] {
            Some(s)
        } else if s == seq![120u8, 77u8, 105u8, 110u8, 89u8, 77u8, 105u8, 100u8, 32u8, 115u8, 108u8, 105u8, 99u8, 101u8] {
            Some(s)
        } else if s == seq![120u8, 77u8, 105u8, 100u8, 89u8, 77u8, 105u8, 100u8, 32u8, 115u8, 108u8, 105u8, 99u8, 101u8] {
            Some(s)
        } else if s == seq![120u8, 77u8, 97u8, 120u8, 89u8, 77u8, 105u8, 100u8, 32u8, 115u8, 108u8, 105u8, 99u8, 101u8] {
            Some(s)
        } else if s == seq![120u8, 77u8, 105u8, 110u8, 89u8, 77u8, 97u8, 120u8, 32u8, 115u8, 108u8, 105u8, 99u8, 101u8] {
            Some(s)
        } else if s == seq![120u8, 77u8, 105u8, 100u8, 89u8, 77u8, 97u8, 120u8, 32u8, 115u8, 108u8, 105u8, 99u8, 101u8] {
            Some(s)
        } else if s == seq![120u8, 77u8, 97u8, 120u8, 89u8, 77u8, 97u8, 120u8, 32u8, 115u8, 108u8, 105u8, 99u8, 101u8] {
            Some(s)
        } else {
            None
        }
    }

    fn parse(s: &[u8]) -> (r: Option<PreserveAspectRatio>) {
        if bytes_eq(s, &[110u8, 111u8, 110u8, 101u8]) {
            return Some(PreserveAspectRatio::NoneValue);
        }
        if bytes_eq(s, &[120u8, 77u8, 105u8, 110u8, 89u8, 77u8, 105u8, 110u8, 32u8, 109u8, 101u8, 101u8, 116u8]) {
            return Some(PreserveAspectRatio::XMinYMinMeet);
        }
        if bytes_eq(s, &[120u8, 77u8, 105u8, 100u8, 89u8, 77u8, 105u8, 110u8, 32u8, 109u8, 101u8, 101u8, 116u8]) {
            return Some(PreserveAspectRatio::XMidYMinMeet);
        }
        if bytes_eq(s, &[120u8, 77u8, 97u8, 120u8, 89u8, 77u8, 105u8, 110u8, 32u8, 109u8, 101u8, 101u8, 116u8]) {
            return Some(PreserveAspectRatio::XMaxYMinMeet);
        }
        if bytes_eq(s, &[120u8, 77u8, 105u8, 110u8, 89u8, 77u8, 105u8, 100u8, 32u8, 109u8, 101u8, 101u8, 116u8]) {
            return Some(PreserveAspectRatio::XMinYMidMeet);
        }
        if bytes_eq(s, &[120u8, 77u8, 105u8, 100u8, 89u8, 77u8, 105u8, 100u8, 32u8, 109u8, 101u8, 101u8, 116u8]) {
            return Some(PreserveAspectRatio::XMidYMidMeet);
        }
        if bytes_eq(s, &[120u8, 77u8, 97u8, 120u8, 89u8, 77u8, 105u8, 100u8, 32u8, 109u8, 101u8, 101u8, 116u8]) {
            return Some(PreserveAspectRatio::XMaxYMidMeet);
        }
        if bytes_eq(s, &[120u8, 77u8, 105u8, 110u8, 89u8, 77u8, 97u8, 120u8, 32u8, 109u8, 101u8, 101u8, 116u8]) {
            return Some(PreserveAspectRatio::XMinYMaxMeet);
        }
        if bytes_eq(s, &[120u8, 77u8, 105u8, 100u8, 89u8, 77u8, 97u8, 120u8, 32u8, 109u8, 101u8, 101u8, 116u8]) {
            return Some(PreserveAspectRatio::XMidYMaxMeet);
        }
        if bytes_eq(s, &[120u8, 77u8, 97u8, 120u8, 89u8, 77u8, 97u8, 120u8, 32u8, 109u8, 101u8, 101u8, 116u8]) {
            return Some(PreserveAspectRatio::XMaxYMaxMeet);
        }
        if bytes_eq(s, &[120u8, 77u8, 105u8, 110u8, 89u8, 77u8, 105u8, 110u8, 32u8, 115u8, 108u8, 105u8, 99u8, 101u8]) {
            return Some(PreserveAspectRatio::XMinYMinSlice);
        }
        if bytes_eq(s, &[120u8, 77u8, 105u8, 100u8, 89u8, 77u8, 105u8, 110u8, 32u8, 115u8, 108u8, 105u8, 99u8, 101u8]) {
            return Some(PreserveAspectRatio::XMidYMinSlice);
        }
        if bytes_eq(s, &[120u8, 77u8, 97u8, 120u8, 89u8, 77u8, 105u8, 110u8, 32u8, 115u8, 108u8, 105u8, 99u8, 101u8]) {
            return Some(PreserveAspectRatio::XMaxYMinSlice);
        }
        if bytes_eq(s, &[120u8, 77u8, 105u8, 110u8, 89u8, 77u8, 105u8, 100u8, 32u8, 115u8, 108u8, 105u8, 99u8, 101u8]) {
            return Some(PreserveAspectRatio::XMinYMidSlice);
        }
        if bytes_eq(s, &[120u8, 77u8, 105u8, 100u8, 89u8, 77u8, 105u8, 100u8, 32u8, 115u8, 108u8, 105u8, 99u8, 101u8]) {
            return Some(PreserveAspectRatio::XMidYMidSlice);
        }
        if bytes_eq(s, &[120u8, 77u8, 97u8, 120u8, 89u8, 77u8, 105u8, 100u8, 32u8, 115u8, 108u8, 105u8, 99u8, 101u8]) {
            return Some(PreserveAspectRatio::XMaxYMidSlice);
        }
        if bytes_eq(s, &[120u8, 77u8, 105u8, 110u8, 89u8, 77u8, 97u8, 120u8, 32u8, 115u8, 108u8, 105u8, 99u8, 101u8]) {
            return Some(PreserveAspectRatio::XMinYMaxSlice);
        }
        if bytes_eq(s, &[120u8, 77u8, 105u8, 100u8, 89u8, 77u8, 97u8, 120u8, 32u8, 115u8, 108u8, 105u8, 99u8, 101u8]) {
            return Some(PreserveAspectRatio::XMidYMaxSlice);
        }
        if bytes_eq(s, &[120u8, 77u8, 97u8, 120u8, 89u8, 77u8, 97u8, 120u8, 32u8, 115u8, 108u8, 105u8, 99u8, 101u8]) {
            return Some(PreserveAspectRatio::XMaxYMaxSlice);
        }
        None
    }

    fn write_to(&self, out: &mut Vec<u8>) {
        match self {
            PreserveAspectRatio::NoneValue => append_bytes(out, &[110u8, 111u8, 110u8, 101u8]),
            PreserveAspectRatio::XMinYMinMeet => append_bytes(out, &[120u8, 77u8, 105u8, 110u8, 89u8, 77u8, 105u8, 110u8, 32u8, 109u8, 101u8, 101u8, 116u8]),
            PreserveAspectRatio::XMidYMinMeet => append_bytes(out, &[120u8, 77u8, 105u8, 100u8, 89u8, 77u8, 105u8, 110u8, 32u8, 109u8, 101u8, 101u8, 116u8]),
            PreserveAspectRatio::XMaxYMinMeet => append_bytes(out, &[120u8, 77u8, 97u8, 120u8, 89u8, 77u8, 105u8, 110u8, 32u8, 109u8, 101u8, 101u8, 116u8]),
            PreserveAspectRatio::XMinYMidMeet => append_bytes(out, &[120u8, 77u8, 105u8, 110u8, 89u8, 77u8, 105u8, 100u8, 32u8, 109u8, 101u8, 101u8, 116u8]),
            PreserveAspectRatio::XMidYMidMeet => append_bytes(out, &[120u8, 77u8, 105u8, 100u8, 89u8, 77u8, 105u8, 100u8, 32u8, 109u8, 101u8, 101u8, 116u8]),
            PreserveAspectRatio::XMaxYMidMeet => append_bytes(out, &[120u8, 77u8, 97u8, 120u8, 89u8, 77u8, 105u8, 100u8, 32u8, 109u8, 101u8, 101u8, 116u8]),
            PreserveAspectRatio::XMinYMaxMeet => append_bytes(out, &[120u8, 77u8, 105u8, 110u8, 89u8, 77u8, 97u8, 120u8, 32u8, 109u8, 101u8, 101u8, 116u8]),
            PreserveAspectRatio::XMidYMaxMeet => append_bytes(out, &[120u8, 77u8, 105u8, 100u8, 89u8, 77u8, 97u8, 120u8, 32u8, 109u8, 101u8, 101u8, 116u8]),
            PreserveAspectRatio::XMaxYMaxMeet => append_bytes(out, &[120u8, 77u8, 97u8, 120u8, 89u8, 77u8, 97u8, 120u8, 32u8, 109u8, 101u8, 101u8, 116u8]),
            PreserveAspectRatio::XMinYMinSlice => append_bytes(out, &[120u8, 77u8, 105u8, 110u8, 89u8, 77u8, 105u8, 110u8, 32u8, 115u8, 108u8, 105u8, 99u8, 101u8]),
            PreserveAspectRatio::XMidYMinSlice => append_bytes(out, &[120u8, 77u8, 105u8, 100u8, 89u8, 77u8, 105u8, 110u8, 32u8, 115u8, 108u8, 105u8, 99u8, 101u8]),
            PreserveAspectRatio::XMaxYMinSlice => append_bytes(out, &[120u8, 77u8, 97u8, 120u8, 89u8, 77u8, 105u8, 110u8, 32u8, 115u8, 108u8, 105u8, 99u8, 101u8]),
            PreserveAspectRatio::XMinYMidSlice => append_bytes(out, &[120u8, 77u8, 105u8, 110u8, 89u8, 77u8, 105u8, 100u8, 32u8, 115u8, 108u8, 105u8, 99u8, 101u8]),
            PreserveAspectRatio::XMidYMidSlice => append_bytes(out, &[120u8, 77u8, 105u8, 100u8, 89u8, 77u8, 105u8, 100u8, 32u8, 115u8, 108u8, 105u8, 99u8, 101u8]),
            PreserveAspectRatio::XMaxYMidSlice => append_bytes(out, &[120u8, 77u8, 97u8, 120u8, 89u8, 77u8, 105u8, 100u8, 32u8, 115u8, 108u8, 105u8, 99u8, 101u8]),
            PreserveAspectRatio::XMinYMaxSlice => append_bytes(out, &[120u8, 77u8, 105u8, 110u8, 89u8, 77u8, 97u8, 120u8, 32u8, 115u8, 108u8, 105u8, 99u8, 101u8]),
            PreserveAspectRatio::XMidYMaxSlice => append_bytes(out, &[120u8, 77u8, 105u8, 100u8, 89u8, 77u8, 97u8, 120u8, 32u8, 115u8, 108u8, 105u8, 99u8, 101u8]),
            PreserveAspectRatio::XMaxYMaxSlice => append_bytes(out, &[120u8, 77u8, 97u8, 120u8, 89u8, 77u8, 97u8, 120u8, 32u8, 115u8, 108u8, 105u8, 99u8, 101u8]),
        }
    }
}

/// The `MaskContentUnits` keywords.
#[derive(Clone, Copy, Debug, PartialEq, Eq, Structural)]
pub enum MaskContentUnits {
    UserSpaceOnUse,
    ObjectBoundingBox,
}

impl MaskContentUnits {
    pub open spec fn spec_str(&self) -> Seq<char> {
        match self {
            MaskContentUnits::UserSpaceOnUse => "userSpaceOnUse"@,
            MaskContentUnits::ObjectBoundingBox => "objectBoundingBox"@,
        }
    }

    pub fn as_str(&self) -> (r: &'static str)
        ensures
            r@ == self.spec_str(),
    {
        match self {
            MaskContentUnits::UserSpaceOnUse => "userSpaceOnUse",
            MaskContentUnits::ObjectBoundingBox => "objectBoundingBox",
        }
    }

    /// The keyword reads back as itself.
    pub proof fn lemma_format_round_trip(&self)
        ensures
            Self::spec_canonical(self.spec_format()) == Some(self.spec_format()),
    {
    }
}

impl Grammar for MaskContentUnits {
    open spec fn spec_wf(&self) -> bool {
        true
    }

    open spec fn spec_format(&self) -> Seq<u8> {
        match self {
            MaskContentUnits::UserSpaceOnUse => seq![117u8, 115u8, 101u8, 114u8, 83u8, 112u8, 97u8, 99u8, 101u8, 79u8, 110u8, 85u8, 115u8, 101u8],
            MaskContentUnits::ObjectBoundingBox => seq![111u8, 98u8, 106u8, 101u8, 99u8, 116u8, 66u8, 111u8, 117u8, 110u8, 100u8, 105u8, 110u8, 103u8, 66u8, 111u8, 120u8],
        }
    }

    open spec fn spec_canonical(s: Seq<u8>) -> Option<Seq<u8>> {
        if s == seq![117u8, 115u8, 101u8, 114u8, 83u8, 112u8, 97u8, 99u8, 101u8, 79u8, 110u8, 85u8, 115u8, 101u8] {
            Some(s)
        } else if s == seq![111u8, 98u8, 106u8, 101u8, 99u8, 116u8, 66u8, 111u8, 117u8, 110u8, 100u8, 105u8, 110u8, 103u8, 66u8, 111u8, 120u8] {
            Some(s)
        } else {
            None
        }
    }

    fn parse(s: &[u8]) -> (r: Option<MaskContentUnits>) {
        if bytes_eq(s, &[117u8, 115u8, 101u8, 114u8, 83u8, 112u8, 97u8, 99u8, 101u8, 79u8, 110u8, 85u8, 115u8, 101u8]) {
            return Some(MaskContentUnits::UserSpaceOnUse);
        }
        if bytes_eq(s, &[111u8, 98u8, 106u8, 101u8, 99u8, 116u8, 66u8, 111u8, 117u8, 110u8, 100u8, 105u8, 110u8, 103u8, 66u8, 111u8, 120u8]) {
            return Some(MaskContentUnits::ObjectBoundingBox);
        }
        None
    }

    fn write_to(&self, out: &mut Vec<u8>) {
        match self {
            MaskContentUnits::UserSpaceOnUse => append_bytes(out, &[117u8, 115u8, 101u8, 114u8, 83u8, 112u8, 97u8, 99u8, 101u8, 79u8, 110u8, 85u8, 115u8, 101u8]),
            MaskContentUnits::ObjectBoundingBox => append_bytes(out, &[111u8, 98u8, 106u8, 101u8, 99u8, 116u8, 66u8, 111u8, 117u8, 110u8, 100u8, 105u8, 110u8, 103u8, 66u8, 111u8, 120u8]),
        }
    }
}

/// The `MaskUnits` keywords.
#[derive(Clone, Copy, Debug, PartialEq, Eq, Structural)]
pub enum MaskUnits {
    UserSpaceOnUse,
    ObjectBoundingBox,
}

impl MaskUnits {
    pub open spec fn spec_str(&self) -> Seq<char> {
        match self {
            MaskUnits::UserSpaceOnUse => "userSpaceOnUse"@,
            MaskUnits::ObjectBoundingBox => "objectBoundingBox"@,
        }
    }

    pub fn as_str(&self) -> (r: &'static str)
        ensures
            r@ == self.spec_str(),
    {
        match self {
            MaskUnits::UserSpaceOnUse => "userSpaceOnUse",
            MaskUnits::ObjectBoundingBox => "objectBoundingBox",
        }
    }

    /// The keyword reads back as itself.
    pub proof fn lemma_format_round_trip(&self)
        ensures
            Self::spec_canonical(self.spec_format()) == Some(self.spec_format()),
    {
    }
}

impl Grammar for MaskUnits {
    open spec fn spec_wf(&self) -> bool {
        true
    }

    open spec fn spec_format(&self) -> Seq<u8> {
        match self {
            MaskUnits::UserSpaceOnUse => seq![117u8, 115u8, 101u8, 114u8, 83u8, 112u8, 97u8, 99u8, 101u8, 79u8, 110u8, 85u8, 115u8, 101u8],
            MaskUnits::ObjectBoundingBox => seq![111u8, 98u8, 106u8, 101u8, 99u8, 116u8, 66u8, 111u8, 117u8, 110u8, 100u8, 105u8, 110u8, 103u8, 66u8, 111u8, 120u8],
        }
    }

    open spec fn spec_canonical(s: Seq<u8>) -> Option<Seq<u8>> {
        if s == seq![117u8, 115u8, 101u8, 114u8, 83u8, 112u8, 97u8, 99u8, 101u8, 79u8, 110u8, 85u8, 115u8, 101u8] {
            Some(s)
        } else if s == seq![111u8, 98u8, 106u8, 101u8, 99u8, 116u8, 66u8, 111u8, 117u8, 110u8, 100u8, 105u8, 110u8, 103u8, 66u8, 111u8, 120u8] {
            Some(s)
        } else {
            None
        }
    }

    fn parse(s: &[u8]) -> (r: Option<MaskUnits>) {
        if bytes_eq(s, &[117u8, 115u8, 101u8, 114u8, 83u8, 112u8, 97u8, 99u8, 101u8, 79u8, 110u8, 85u8, 115u8, 101u8]) {
            return Some(MaskUnits::UserSpaceOnUse);
        }
        if bytes_eq(s, &[111u8, 98u8, 106u8, 101u8, 99u8, 116u8, 66u8, 111u8, 117u8, 110u8, 100u8, 105u8, 110u8, 103u8, 66u8, 111u8, 120u8]) {
            return Some(MaskUnits::ObjectBoundingBox);
        }
        None
    }

    fn write_to(&self, out: &mut Vec<u8>) {
        match self {
            MaskUnits::UserSpaceOnUse => append_bytes(out, &[117u8, 115u8, 101u8, 114u8, 83u8, 112u8, 97u8, 99u8, 101u8, 79u8, 110u8, 85u8, 115u8, 101u8]),
            MaskUnits::ObjectBoundingBox => append_bytes(out, &[111u8, 98u8, 106u8, 101u8, 99u8, 116u8, 66u8, 111u8, 117u8, 110u8, 100u8, 105u8, 110u8, 103u8, 66u8, 111u8, 120u8]),
        }
    }
}

/// The `PatternContentUnits` keywords.
#[derive(Clone, Copy, Debug, PartialEq, Eq, Structural)]
pub enum PatternContentUnits {
    UserSpaceOnUse,
    ObjectBoundingBox,
}

impl PatternContentUnits {
    pub open spec fn spec_str(&self) -> Seq<char> {
        match self {
            PatternContentUnits::UserSpaceOnUse => "userSpaceOnUse"@,
            PatternContentUnits::ObjectBoundingBox => "objectBoundingBox"@,
        }
    }

    pub fn as_str(&self) -> (r: &'static str)
        ensures
            r@ == self.spec_str(),
    {
        match self {
            PatternContentUnits::UserSpaceOnUse => "userSpaceOnUse",
            PatternContentUnits::ObjectBoundingBox => "objectBoundingBox",
        }
    }

    /// The keyword reads back as itself.
    pub proof fn lemma_format_round_trip(&self)
        ensures
            Self::spec_canonical(self.spec_format()) == Some(self.spec_format()),
    {
    }
}

impl Grammar for PatternContentUnits {
    open spec fn spec_wf(&self) -> bool {
        true
    }

    open spec fn spec_format(&self) -> Seq<u8> {
        match self {
            PatternContentUnits::UserSpaceOnUse => seq![117u8, 115u8, 101u8, 114u8, 83u8, 112u8, 97u8, 99u8, 101u8, 79u8, 110u8, 85u8, 115u8, 101u8],
            PatternContentUnits::ObjectBoundingBox => seq![111u8, 98u8, 106u8, 101u8, 99u8, 116u8, 66u8, 111u8, 117u8, 110u8, 100u8, 105u8, 110u8, 103u8, 66u8, 111u8, 120u8],
        }
    }

    open spec fn spec_canonical(s: Seq<u8>) -> Option<Seq<u8>> {
        if s == seq![117u8, 115u8, 101u8, 114u8, 83u8, 112u8, 97u8, 99u8, 101u8, 79u8, 110u8, 85u8, 115u8, 101u8] {
            Some(s)
        } else if s == seq![111u8, 98u8, 106u8, 101u8, 99u8, 116u8, 66u8, 111u8, 117u8, 110u8, 100u8, 105u8, 110u8, 103u8, 66u8, 111u8, 120u8] {
            Some(s)
        } else {
            None
        }
    }

    fn parse(s: &[u8]) -> (r: Option<PatternContentUnits>) {
        if bytes_eq(s, &[117u8, 115u8, 101u8, 114u8, 83u8, 112u8, 97u8, 99u8, 101u8, 79u8, 110u8, 85u8, 115u8, 101u8]) {
            return Some(PatternContentUnits::UserSpaceOnUse);
        }
        if bytes_eq(s, &[111u8, 98u8, 106u8, 101u8, 99u8, 116u8, 66u8, 111u8, 117u8, 110u8, 100u8, 105u8, 110u8, 103u8, 66u8, 111u8, 120u8]) {
            return Some(PatternContentUnits::ObjectBoundingBox);
        }
        None
    }

    fn write_to(&self, out: &mut Vec<u8>) {
        match self {
            PatternContentUnits::UserSpaceOnUse => append_bytes(out, &[117u8, 115u8, 101u8, 114u8, 83u8, 112u8, 97u8, 99u8, 101u8, 79u8, 110u8, 85u8, 115u8, 101u8]),
            PatternContentUnits::ObjectBoundingBox => append_bytes(out, &[111u8, 98u8, 106u8, 101u8, 99u8, 116u8, 66u8, 111u8, 117u8, 110u8, 100u8, 105u8, 110u8, 103u8, 66u8, 111u8, 120u8]),
        }
    }
}

/// The `PatternUnits` keywords.
#[derive(Clone, Copy, Debug, PartialEq, Eq, Structural)]
pub enum PatternUnits {
    UserSpaceOnUse,
    ObjectBoundingBox,
}

impl PatternUnits {
    pub open spec fn spec_str(&self) -> Seq<char> {
        match self {
            PatternUnits::UserSpaceOnUse => "userSpaceOnUse"@,
            PatternUnits::ObjectBoundingBox => "objectBoundingBox"@,
        }
    }

    pub fn as_str(&self) -> (r: &'static str)
        ensures
            r@ == self.spec_str(),
    {
        match self {
            PatternUnits::UserSpaceOnUse => "userSpaceOnUse",
            PatternUnits::ObjectBoundingBox => "objectBoundingBox",
        }
    }

    /// The keyword reads back as itself.
    pub proof fn lemma_format_round_trip(&self)
        ensures
            Self::spec_canonical(self.spec_format()) == Some(self.spec_format()),
    {
    }
}

impl Grammar for PatternUnits {
    open spec fn spec_wf(&self) -> bool {
        true
    }

    open spec fn spec_format(&self) -> Seq<u8> {
        match self {
            PatternUnits::UserSpaceOnUse => seq![117u8, 115u8, 101u8, 114u8, 83u8, 112u8, 97u8, 99u8, 101u8, 79u8, 110u8, 85u8, 115u8, 101u8],
            PatternUnits::ObjectBoundingBox => seq![111u8, 98u8, 106u8, 101u8, 99u8, 116u8, 66u8, 111u8, 117u8, 110u8, 100u8, 105u8, 110u8, 103u8, 66u8, 111u8, 120u8],
        }
    }

    open spec fn spec_canonical(s: Seq<u8>) -> Option<Seq<u8>> {
        if s == seq![117u8, 115u8, 101u8, 114u8, 83u8, 112u8, 97u8, 99u8, 101u8, 79u8, 110u8, 85u8, 115u8, 101u8] {
            Some(s)
        } else if s == seq![111u8, 98u8, 106u8, 101u8, 99u8, 116u8, 66u8, 111u8, 117u8, 110u8, 100u8, 105u8, 110u8, 103u8, 66u8, 111u8, 120u8] {
            Some(s)
        } else {
            None
        }
    }

    fn parse(s: &[u8]) -> (r: Option<PatternUnits>) {
        if bytes_eq(s, &[117u8, 115u8, 101u8, 114u8, 83u8, 112u8, 97u8, 99u8, 101u8, 79u8, 110u8, 85u8, 115u8, 101u8]) {
            return Some(PatternUnits::UserSpaceOnUse);
        }
        if bytes_eq(s, &[111u8, 98u8, 106u8, 101u8, 99u8, 116u8, 66u8, 111u8, 117u8, 110u8, 100u8, 105u8, 110u8, 103u8, 66u8, 111u8, 120u8]) {
            return Some(PatternUnits::ObjectBoundingBox);
        }
        None
    }

    fn write_to(&self, out: &mut Vec<u8>) {
        match self {
            PatternUnits::UserSpaceOnUse => append_bytes(out, &[117u8, 115u8, 101u8, 114u8, 83u8, 112u8, 97u8, 99u8, 101u8, 79u8, 110u8, 85u8, 115u8, 101u8]),
            PatternUnits::ObjectBoundingBox => append_bytes(out, &[111u8, 98u8, 106u8, 101u8, 99u8, 116u8, 66u8, 111u8, 117u8, 110u8, 100u8, 105u8, 110u8, 103u8, 66u8, 111u8, 120u8]),
        }
    }
}

/// The `BlendMode` keywords.
#[derive(Clone, Copy, Debug, PartialEq, Eq, Structural)]
pub enum BlendMode {
    Normal,
    Multiply,
    Screen,
    Overlay,
    Darken,
    Lighten,
    ColorDodge,
    ColorBurn,
    HardLight,
    SoftLight,
    Difference,
    Exclusion,
    Hue,
    Saturation,
    Color,
    Luminosity,
}

impl BlendMode {
    pub open spec fn spec_str(&self) -> Seq<char> {
        match self {
            BlendMode::Normal => "normal"@,
            BlendMode::Multiply => "multiply"@,
            BlendMode::Screen => "screen"@,
            BlendMode::Overlay => "overlay"@,
            BlendMode::Darken => "darken"@,
            BlendMode::Lighten => "lighten"@,
            BlendMode::ColorDodge => "color-dodge"@,
            BlendMode::ColorBurn => "color-burn"@,
            BlendMode::HardLight => "hard-light"@,
            BlendMode::SoftLight => "soft-light"@,
            BlendMode::Difference => "difference"@,
            BlendMode::Exclusion => "exclusion"@,
            BlendMode::Hue => "hue"@,
            BlendMode::Saturation => "saturation"@,
            BlendMode::Color => "color"@,
            BlendMode::Luminosity => "luminosity"@,
        }
    }

    pub fn as_str(&self) -> (r: &'static str)
        ensures
            r@ == self.spec_str(),
    {
        match self {
            BlendMode::Normal => "normal",
            BlendMode::Multiply => "multiply",
            BlendMode::Screen => "screen",
            BlendMode::Overlay => "overlay",
            BlendMode::Darken => "darken",
            BlendMode::Lighten => "lighten",
            BlendMode::ColorDodge => "color-dodge",
            BlendMode::ColorBurn => "color-burn",
            BlendMode::HardLight => "hard-light",
            BlendMode::SoftLight => "soft-light",
            BlendMode::Difference => "difference",
            BlendMode::Exclusion => "exclusion",
            BlendMode::Hue => "hue",
            BlendMode::Saturation => "saturation",
            BlendMode::Color => "color",
            BlendMode::Luminosity => "luminosity",
        }
    }

    /// The keyword reads back as itself.
    pub proof fn lemma_format_round_trip(&self)
        ensures
            Self::spec_canonical(self.spec_format()) == Some(self.spec_format()),
    {
    }
}

impl Grammar for BlendMode {
    open spec fn spec_wf(&self) -> bool {
        true
    }

    open spec fn spec_format(&self) -> Seq<u8> {
        match self {
            BlendMode::Normal => seq![110u8, 111u8, 114u8, 109u8, 97u8, 108u8],
            BlendMode::Multiply => seq![109u8, 117u8, 108u8, 116u8, 105u8, 112u8, 108u8, 121u8],
            BlendMode::Screen => seq![115u8, 99u8, 114u8, 101u8, 101u8, 110u8],
            BlendMode::Overlay => seq![111u8, 118u8, 101u8, 114u8, 108u8, 97u8, 121u8],
            BlendMode::Darken => seq![100u8, 97u8, 114u8, 107u8, 101u8, 110u8],
            BlendMode::Lighten => seq![108u8, 105u8, 103u8, 104u8, 116u8, 101u8, 110u8],
            BlendMode::ColorDodge => seq![99u8, 111u8, 108u8, 111u8, 114u8, 45u8, 100u8, 111u8, 100u8, 103u8, 101u8],
            BlendMode::ColorBurn => seq![99u8, 111u8, 108u8, 111u8, 114u8, 45u8, 98u8, 117u8, 114u8, 110u8],
            BlendMode::HardLight => seq![104u8, 97u8, 114u8, 100u8, 45u8, 108u8, 105u8, 103u8, 104u8, 116u8],
            BlendMode::SoftLight => seq![115u8, 111u8, 102u8, 116u8, 45u8, 108u8, 105u8, 103u8, 104u8, 116u8],
            BlendMode::Difference => seq![100u8, 105u8, 102u8, 102u8, 101u8, 114u8, 101u8, 110u8, 99u8, 101u8],
            BlendMode::Exclusion => seq![101u8, 120u8, 99u8, 108u8, 117u8, 115u8, 105u8, 111u8, 110u8],
            BlendMode::Hue => seq![104u8, 117u8, 101u8],
            BlendMode::Saturation => seq![115u8, 97u8, 116u8, 117u8, 114u8, 97u8, 116u8, 105u8, 111u8, 110u8],
            BlendMode::Color => seq![99u8, 111u8, 108u8, 111u8, 114u8],
            BlendMode::Luminosity => seq![108u8, 117u8, 109u8, 105u8, 110u8, 111u8, 115u8, 105u8, 116u8, 121u8],
        }
    }

    open spec fn spec_canonical(s: Seq<u8>) -> Option<Seq<u8>> {
        if s == seq![110u8, 111u8, 114u8, 109u8, 97u8, 108u8] {
            Some(s)
        } else if s == seq![109u8, 117u8, 108u8, 116u8, 105u8, 112u8, 108u8, 121u8] {
            Some(s)
        } else if s == seq![115u8, 99u8, 114u8, 101u8, 101u8, 110u8] {
            Some(s)
        } else if s == seq![111u8, 118u8, 101u8, 114u8, 108u8, 97u8, 121u8] {
            Some(s)
        } else if s == seq![100u8, 97u8, 114u8, 107u8, 101u8, 110u8] {
            Some(s)
        } else if s == seq![108u8, 105u8, 103u8, 104u8, 116u8, 101u8, 110u8] {
            Some(s)
        } else if s == seq![99u8, 111u8, 108u8, 111u8, 114u8, 45u8, 100u8, 111u8, 100u8, 103u8, 101u8] {
            Some(s)
        } else if s == seq![99u8, 111u8, 108u8, 111u8, 114u8, 45u8, 98u8, 117u8, 114u8, 110u8] {
            Some(s)
        } else if s == seq![104u8, 97u8, 114u8, 100u8, 45u8, 108u8, 105u8, 103u8, 104u8, 116u8] {
            Some(s)
        } else if s == seq![115u8, 111u8, 102u8, 116u8, 45u8, 108u8, 105u8, 103u8, 104u8, 116u8] {
            Some(s)
        } else if s == seq![100u8, 105u8, 102u8, 102u8, 101u8, 114u8, 101u8, 110u8, 99u8, 101u8] {
            Some(s)
        } else if s == seq![101u8, 120u8, 99u8, 108u8, 117u8, 115u8, 105u8, 111u8, 110u8] {
            Some(s)
        } else if s == seq![104u8, 117u8, 101u8] {
            Some(s)
        } else if s == seq![115u8, 97u8, 116u8, 117u8, 114u8, 97u8, 116u8, 105u8, 111u8, 110u8] {
            Some(s)
        } else if s == seq![99u8, 111u8, 108u8, 111u8, 114u8] {
            Some(s)
        } else if s == seq![108u8, 117u8, 109u8, 105u8, 110u8, 111u8, 115u8, 105u8, 116u8, 121u8] {
            Some(s)
        } else {
            None
        }
    }

    fn parse(s: &[u8]) -> (r: Option<BlendMode>) {
        if bytes_eq(s, &[110u8, 111u8, 114u8, 109u8, 97u8, 108u8]) {
            return Some(BlendMode::Normal);
        }
        if bytes_eq(s, &[109u8, 117u8, 108u8, 116u8, 105u8, 112u8, 108u8, 121u8]) {
            return Some(BlendMode::Multiply);
        }
        if bytes_eq(s, &[115u8, 99u8, 114u8, 101u8, 101u8, 110u8]) {
            return Some(BlendMode::Screen);
        }
        if bytes_eq(s, &[111u8, 118u8, 101u8, 114u8, 108u8, 97u8, 121u8]) {
            return Some(BlendMode::Overlay);
        }
        if bytes_eq(s, &[100u8, 97u8, 114u8, 107u8, 101u8, 110u8]) {
            return Some(BlendMode::Darken);
        }
        if bytes_eq(s, &[108u8, 105u8, 103u8, 104u8, 116u8, 101u8, 110u8]) {
            return Some(BlendMode::Lighten);
        }
        if bytes_eq(s, &[99u8, 111u8, 108u8, 111u8, 114u8, 45u8, 100u8, 111u8, 100u8, 103u8, 101u8]) {
            return Some(BlendMode::ColorDodge);
        }
        if bytes_eq(s, &[99u8, 111u8, 108u8, 111u8, 114u8, 45u8, 98u8, 117u8, 114u8, 110u8]) {
            return Some(BlendMode::ColorBurn);
        }
        if bytes_eq(s, &[104u8, 97u8, 114u8, 100u8, 45u8, 108u8, 105u8, 103u8, 104u8, 116u8]) {
            return Some(BlendMode::HardLight);
        }
        if bytes_eq(s, &[115u8, 111u8, 102u8, 116u8, 45u8, 108u8, 105u8, 103u8, 104u8, 116u8]) {
            return Some(BlendMode::SoftLight);
        }
        if bytes_eq(s, &[100u8, 105u8, 102u8, 102u8, 101u8, 114u8, 101u8, 110u8, 99u8, 101u8]) {
            return Some(BlendMode::Difference);
        }
        if bytes_eq(s, &[101u8, 120u8, 99u8, 108u8, 117u8, 115u8, 105u8, 111u8, 110u8]) {
            return Some(BlendMode::Exclusion);
        }
        if bytes_eq(s, &[104u8, 117u8, 101u8]) {
            return Some(BlendMode::Hue);
        }
        if bytes_eq(s, &[115u8, 97u8, 116u8, 117u8, 114u8, 97u8, 116u8, 105u8, 111u8, 110u8]) {
            return Some(BlendMode::Saturation);
        }
        if bytes_eq(s, &[99u8, 111u8, 108u8, 111u8, 114u8]) {
            return Some(BlendMode::Color);
        }
        if bytes_eq(s, &[108u8, 117u8, 109u8, 105u8, 110u8, 111u8, 115u8, 105u8, 116u8, 121u8]) {
            return Some(BlendMode::Luminosity);
        }
        None
    }

    fn write_to(&self, out: &mut Vec<u8>) {
        match self {
            BlendMode::Normal => append_bytes(out, &[110u8, 111u8, 114u8, 109u8, 97u8, 108u8]),
            BlendMode::Multiply => append_bytes(out, &[109u8, 117u8, 108u8, 116u8, 105u8, 112u8, 108u8, 121u8]),
            BlendMode::Screen => append_bytes(out, &[115u8, 99u8, 114u8, 101u8, 101u8, 110u8]),
            BlendMode::Overlay => append_bytes(out, &[111u8, 118u8, 101u8, 114u8, 108u8, 97u8, 121u8]),
            BlendMode::Darken => append_bytes(out, &[100u8, 97u8, 114u8, 107u8, 101u8, 110u8]),
            BlendMode::Lighten => append_bytes(out, &[108u8, 105u8, 103u8, 104u8, 116u8, 101u8, 110u8]),
            BlendMode::ColorDodge => append_bytes(out, &[99u8, 111u8, 108u8, 111u8, 114u8, 45u8, 100u8, 111u8, 100u8, 103u8, 101u8]),
            BlendMode::ColorBurn => append_bytes(out, &[99u8, 111u8, 108u8, 111u8, 114u8, 45u8, 98u8, 117u8, 114u8, 110u8]),
            BlendMode::HardLight => append_bytes(out, &[104u8, 97u8, 114u8, 100u8, 45u8, 108u8, 105u8, 103u8, 104u8, 116u8]),
            BlendMode::SoftLight => append_bytes(out, &[115u8, 111u8, 102u8, 116u8, 45u8, 108u8, 105u8, 103u8, 104u8, 116u8]),
            BlendMode::Difference => append_bytes(out, &[100u8, 105u8, 102u8, 102u8, 101u8, 114u8, 101u8, 110u8, 99u8, 101u8]),
            BlendMode::Exclusion => append_bytes(out, &[101u8, 120u8, 99u8, 108u8, 117u8, 115u8, 105u8, 111u8, 110u8]),
            BlendMode::Hue => append_bytes(out, &[104u8, 117u8, 101u8]),
            BlendMode::Saturation => append_bytes(out, &[115u8, 97u8, 116u8, 117u8, 114u8, 97u8, 116u8, 105u8, 111u8, 110u8]),
            BlendMode::Color => append_bytes(out, &[99u8, 111u8, 108u8, 111u8, 114u8]),
            BlendMode::Luminosity => append_bytes(out, &[108u8, 117u8, 109u8, 105u8, 110u8, 111u8, 115u8, 105u8, 116u8, 121u8]),
        }
    }
}

/// The `Operator` keywords.
#[derive(Clone, Copy, Debug, PartialEq, Eq, Structural)]
pub enum Operator {
    Over,
    In,
    Out,
    Atop,
    Xor,
    Lighter,
    Arithmetic,
}

impl Operator {
    pub open spec fn spec_str(&self) -> Seq<char> {
        match self {
            Operator::Over => "over"@,
            Operator::In => "in"@,
            Operator::Out => "out"@,
            Operator::Atop => "atop"@,
            Operator::Xor => "xor"@,
            Operator::Lighter => "lighter"@,
            Operator::Arithmetic => "arithmetic"@,
        }
    }

    pub fn as_str(&self) -> (r: &'static str)
        ensures
            r@ == self.spec_str(),
    {
        match self {
            Operator::Over => "over",
            Operator::In => "in",
            Operator::Out => "out",
            Operator::Atop => "atop",
            Operator::Xor => "xor",
            Operator::Lighter => "lighter",
            Operator::Arithmetic => "arithmetic",
        }
    }

    /// The keyword reads back as itself.
    pub proof fn lemma_format_round_trip(&self)
        ensures
            Self::spec_canonical(self.spec_format()) == Some(self.spec_format()),
    {
    }
}

impl Grammar for Operator {
    open spec fn spec_wf(&self) -> bool {
        true
    }

    open spec fn spec_format(&self) -> Seq<u8> {
        match self {
            Operator::Over => seq![111u8, 118u8, 101u8, 114u8],
            Operator::In => seq![105u8, 110u8],
            Operator::Out => seq![111u8, 117u8, 116u8],
            Operator::Atop => seq![97u8, 116u8, 111u8, 112u8],
            Operator::Xor => seq![120u8, 111u8, 114u8],
            Operator::Lighter => seq![108u8, 105u8, 103u8, 104u8, 116u8, 101u8, 114u8],
            Operator::Arithmetic => seq![97u8, 114u8, 105u8, 116u8, 104u8, 109u8, 101u8, 116u8, 105u8, 99u8],
        }
    }

    open spec fn spec_canonical(s: Seq<u8>) -> Option<Seq<u8>> {
        if s == seq![111u8, 118u8, 101u8, 114u8] {
            Some(s)
        } else if s == seq![105u8, 110u8] {
            Some(s)
        } else if s == seq![111u8, 117u8, 116u8] {
            Some(s)
        } else if s == seq![97u8, 116u8, 111u8, 112u8] {
            Some(s)
        } else if s == seq![120u8, 111u8, 114u8] {
            Some(s)
        } else if s == seq![108u8, 105u8, 103u8, 104u8, 116u8, 101u8, 114u8] {
            Some(s)
        } else if s == seq![97u8, 114u8, 105u8, 116u8, 104u8, 109u8, 101u8, 116u8, 105u8, 99u8] {
            Some(s)
        } else {
            None
        }
    }

    fn parse(s: &[u8]) -> (r: Option<Operator>) {
        if bytes_eq(s, &[111u8, 118u8, 101u8, 114u8]) {
            return Some(Operator::Over);
        }
        if bytes_eq(s, &[105u8, 110u8]) {
            return Some(Operator::In);
        }
        if bytes_eq(s, &[111u8, 117u8, 116u8]) {
            return Some(Operator::Out);
        }
        if bytes_eq(s, &[97u8, 116u8, 111u8, 112u8]) {
            return Some(Operator::Atop);
        }
        if bytes_eq(s, &[120u8, 111u8, 114u8]) {
            return Some(Operator::Xor);
        }
        if bytes_eq(s, &[108u8, 105u8, 103u8, 104u8, 116u8, 101u8, 114u8]) {
            return Some(Operator::Lighter);
        }
        if bytes_eq(s, &[97u8, 114u8, 105u8, 116u8, 104u8, 109u8, 101u8, 116u8, 105u8, 99u8]) {
            return Some(Operator::Arithmetic);
        }
        None
    }

    fn write_to(&self, out: &mut Vec<u8>) {
        match self {
            Operator::Over => append_bytes(out, &[111u8, 118u8, 101u8, 114u8]),
            Operator::In => append_bytes(out, &[105u8, 110u8]),
            Operator::Out => append_bytes(out, &[111u8, 117u8, 116u8]),
            Operator::Atop => append_bytes(out, &[97u8, 116u8, 111u8, 112u8]),
            Operator::Xor => append_bytes(out, &[120u8, 111u8, 114u8]),
            Operator::Lighter => append_bytes(out, &[108u8, 105u8, 103u8, 104u8, 116u8, 101u8, 114u8]),
            Operator::Arithmetic => append_bytes(out, &[97u8, 114u8, 105u8, 116u8, 104u8, 109u8, 101u8, 116u8, 105u8, 99u8]),
        }
    }
}

/// The `EdgeMode` keywords.
#[derive(Clone, Copy, Debug, PartialEq, Eq, Structural)]
pub enum EdgeMode {
    Duplicate,
    Wrap,
    NoneValue,
}

impl EdgeMode {
    pub open spec fn spec_str(&self) -> Seq<char> {
        match self {
            EdgeMode::Duplicate => "duplicate"@,
            EdgeMode::Wrap => "wrap"@,
            EdgeMode::NoneValue => "none"@,
        }
    }

    pub fn as_str(&self) -> (r: &'static str)
        ensures
            r@ == self.spec_str(),
    {
        match self {
            EdgeMode::Duplicate => "duplicate",
            EdgeMode::Wrap => "wrap",
            EdgeMode::NoneValue => "none",
        }
    }

    /// The keyword reads back as itself.
    pub proof fn lemma_format_round_trip(&self)
        ensures
            Self::spec_canonical(self.spec_format()) == Some(self.spec_format()),
    {
    }
}

impl Grammar for EdgeMode {
    open spec fn spec_wf(&self) -> bool {
        true
    }

    open spec fn spec_format(&self) -> Seq<u8> {
        match self {
            EdgeMode::Duplicate => seq![100u8, 117u8, 112u8, 108u8, 105u8, 99u8, 97u8, 116u8, 101u8],
            EdgeMode::Wrap => seq![119u8, 114u8, 97u8, 112u8],
            EdgeMode::NoneValue => seq![110u8, 111u8, 110u8, 101u8],
        }
    }

    open spec fn spec_canonical(s: Seq<u8>) -> Option<Seq<u8>> {
        if s == seq![100u8, 117u8, 112u8, 108u8, 105u8, 99u8, 97u8, 116u8, 101u8] {
            Some(s)
        } else if s == seq![119u8, 114u8, 97u8, 112u8] {
            Some(s)
        } else if s == seq![110u8, 111u8, 110u8, 101u8] {
            Some(s)
        } else {
            None
        }
    }

    fn parse(s: &[u8]) -> (r: Option<EdgeMode>) {
        if bytes_eq(s, &[100u8, 117u8, 112u8, 108u8, 105u8, 99u8, 97u8, 116u8, 101u8]) {
            return Some(EdgeMode::Duplicate);
        }
        if bytes_eq(s, &[119u8, 114u8, 97u8, 112u8]) {
            return Some(EdgeMode::Wrap);
        }
        if bytes_eq(s, &[110u8, 111u8, 110u8, 101u8]) {
            return Some(EdgeMode::NoneValue);
        }
        None
    }

    fn write_to(&self, out: &mut Vec<u8>) {
        match self {
            EdgeMode::Duplicate => append_bytes(out, &[100u8, 117u8, 112u8, 108u8, 105u8, 99u8, 97u8, 116u8, 101u8]),
            EdgeMode::Wrap => append_bytes(out, &[119u8, 114u8, 97u8, 112u8]),
            EdgeMode::NoneValue => append_bytes(out, &[110u8, 111u8, 110u8, 101u8]),
        }
    }
}

/// The `ChannelSelector` keywords.
#[derive(Clone, Copy, Debug, PartialEq, Eq, Structural)]
pub enum ChannelSelector {
    R,
    G,
    B,
    A,
}

impl ChannelSelector {
    pub open spec fn spec_str(&self) -> Seq<char> {
        match self {
            ChannelSelector::R => "R"@,
            ChannelSelector::G => "G"@,
            ChannelSelector::B => "B"@,
            ChannelSelector::A => "A"@,
        }
    }

    pub fn as_str(&self) -> (r: &'static str)
        ensures
            r@ == self.spec_str(),
    {
        match self {
            ChannelSelector::R => "R",
            ChannelSelector::G => "G",
            ChannelSelector::B => "B",
            ChannelSelector::A => "A",
        }
    }

    /// The keyword reads back as itself.
    pub proof fn lemma_format_round_trip(&self)
        ensures
            Self::spec_canonical(self.spec_format()) == Some(self.spec_format()),
    {
    }
}

impl Grammar for ChannelSelector {
    open spec fn spec_wf(&self) -> bool {
        true
    }

    open spec fn spec_format(&self) -> Seq<u8> {
        match self {
            ChannelSelector::R => seq![82u8],
            ChannelSelector::G => seq![71u8],
            ChannelSelector::B => seq![66u8],
            ChannelSelector::A => seq![65u8],
        }
    }

    open spec fn spec_canonical(s: Seq<u8>) -> Option<Seq<u8>> {
        if s == seq![82u8] {
            Some(s)
        } else if s == seq![71u8] {
            Some(s)
        } else if s == seq![66u8] {
            Some(s)
        } else if s == seq![65u8] {
            Some(s)
        } else {
            None
        }
    }

    fn parse(s: &[u8]) -> (r: Option<ChannelSelector>) {
        if s.len() == 1 && s[0] == 82u8 {
            assert(s@ =~= seq![82u8]);
            return Some(ChannelSelector::R);
        }
        if s.len() == 1 && s[0] == 71u8 {
            assert(s@ =~= seq![71u8]);
            return Some(ChannelSelector::G);
        }
        if s.len() == 1 && s[0] == 66u8 {
            assert(s@ =~= seq![66u8]);
            return Some(ChannelSelector::B);
        }
        if s.len() == 1 && s[0] == 65u8 {
            assert(s@ =~= seq![65u8]);
            return Some(ChannelSelector::A);
        }
        None
    }

    fn write_to(&self, out: &mut Vec<u8>) {
        match self {
            ChannelSelector::R => out.push(82u8),
            ChannelSelector::G => out.push(71u8),
            ChannelSelector::B => out.push(66u8),
            ChannelSelector::A => out.push(65u8),
        }
    }
}

/// The `CrossOrigin` keywords.
#[derive(Clone, Copy, Debug, PartialEq, Eq, Structural)]
pub enum CrossOrigin {
    Anonymous,
    UseCredentials,
    Empty,
}

impl CrossOrigin {
    pub open spec fn spec_str(&self) -> Seq<char> {
        match self {
            CrossOrigin::Anonymous => "anonymous"@,
            CrossOrigin::UseCredentials => "use-credentials"@,
            CrossOrigin::Empty => ""@,
        }
    }

    pub fn as_str(&self) -> (r: &'static str)
        ensures
            r@ == self.spec_str(),
    {
        match self {
            CrossOrigin::Anonymous => "anonymous",
            CrossOrigin::UseCredentials => "use-credentials",
            CrossOrigin::Empty => "",
        }
    }

    /// The keyword reads back as itself.
    pub proof fn lemma_format_round_trip(&self)
        ensures
            Self::spec_canonical(self.spec_format()) == Some(self.spec_format()),
    {
    }
}

impl Grammar for CrossOrigin {
    open spec fn spec_wf(&self) -> bool {
        true
    }

    open spec fn spec_format(&self) -> Seq<u8> {
        match self {
            CrossOrigin::Anonymous => seq![97u8, 110u8, 111u8, 110u8, 121u8, 109u8, 111u8, 117u8, 115u8],
            CrossOrigin::UseCredentials => seq![117u8, 115u8, 101u8, 45u8, 99u8, 114u8, 101u8, 100u8, 101u8, 110u8, 116u8, 105u8, 97u8, 108u8, 115u8],
            CrossOrigin::Empty => Seq::<u8>::empty(),
        }
    }

    open spec fn spec_canonical(s: Seq<u8>) -> Option<Seq<u8>> {
        if s == seq![97u8, 110u8, 111u8, 110u8, 121u8, 109u8, 111u8, 117u8, 115u8] {
            Some(s)
        } else if s == seq![117u8, 115u8, 101u8, 45u8, 99u8, 114u8, 101u8, 100u8, 101u8, 110u8, 116u8, 105u8, 97u8, 108u8, 115u8] {
            Some(s)
        } else if s == Seq::<u8>::empty() {
            Some(s)
        } else {
            None
        }
    }

    fn parse(s: &[u8]) -> (r: Option<CrossOrigin>) {
        if bytes_eq(s, &[97u8, 110u8, 111u8, 110u8, 121u8, 109u8, 111u8, 117u8, 115u8]) {
            return Some(CrossOrigin::Anonymous);
        }
        if bytes_eq(s, &[117u8, 115u8, 101u8, 45u8, 99u8, 114u8, 101u8, 100u8, 101u8, 110u8, 116u8, 105u8, 97u8, 108u8, 115u8]) {
            return Some(CrossOrigin::UseCredentials);
        }
        if s.len() == 0 {
            assert(s@ =~= Seq::<u8>::empty());
            return Some(CrossOrigin::Empty);
        }
        None
    }

    fn write_to(&self, out: &mut Vec<u8>) {
        match self {
            CrossOrigin::Anonymous => append_bytes(out, &[97u8, 110u8, 111u8, 110u8, 121u8, 109u8, 111u8, 117u8, 115u8]),
            CrossOrigin::UseCredentials => append_bytes(out, &[117u8, 115u8, 101u8, 45u8, 99u8, 114u8, 101u8, 100u8, 101u8, 110u8, 116u8, 105u8, 97u8, 108u8, 115u8]),
            CrossOrigin::Empty => {
                assert(old(out)@ + Seq::<u8>::empty() =~= old(out)@);
            },
        }
    }
}

/// The `StitchTiles` keywords.
#[derive(Clone, Copy, Debug, PartialEq, Eq, Structural)]
pub enum StitchTiles {
    NoStitch,
    Stitch,
}

impl StitchTiles {
    pub open spec fn spec_str(&self) -> Seq<char> {
        match self {
            StitchTiles::NoStitch => "noStitch"@,
            StitchTiles::Stitch => "stitch"@,
        }
    }

    pub fn as_str(&self) -> (r: &'static str)
        ensures
            r@ == self.spec_str(),
    {
        match self {
            StitchTiles::NoStitch => "noStitch",
            StitchTiles::Stitch => "stitch",
        }
    }

    /// The keyword reads back as itself.
    pub proof fn lemma_format_round_trip(&self)
        ensures
            Self::spec_canonical(self.spec_format()) == Some(self.spec_format()),
    {
    }
}

impl Grammar for StitchTiles {
    open spec fn spec_wf(&self) -> bool {
        true
    }

    open spec fn spec_format(&self) -> Seq<u8> {
        match self {
            StitchTiles::NoStitch => seq![110u8, 111u8, 83u8, 116u8, 105u8, 116u8, 99u8, 104u8],
            StitchTiles::Stitch => seq![115u8, 116u8, 105u8, 116u8, 99u8, 104u8],
        }
    }

    open spec fn spec_canonical(s: Seq<u8>) -> Option<Seq<u8>> {
        if s == seq![110u8, 111u8, 83u8, 116u8, 105u8, 116u8, 99u8, 104u8] {
            Some(s)
        } else if s == seq![115u8, 116u8, 105u8, 116u8, 99u8, 104u8] {
            Some(s)
        } else {
            None
        }
    }

    fn parse(s: &[u8]) -> (r: Option<StitchTiles>) {
        if bytes_eq(s, &[110u8, 111u8, 83u8, 116u8, 105u8, 116u8, 99u8, 104u8]) {
            return Some(StitchTiles::NoStitch);
        }
        if bytes_eq(s, &[115u8, 116u8, 105u8, 116u8, 99u8, 104u8]) {
            return Some(StitchTiles::Stitch);
        }
        None
    }

    fn write_to(&self, out: &mut Vec<u8>) {
        match self {
            StitchTiles::NoStitch => append_bytes(out, &[110u8, 111u8, 83u8, 116u8, 105u8, 116u8, 99u8, 104u8]),
            StitchTiles::Stitch => append_bytes(out, &[115u8, 116u8, 105u8, 116u8, 99u8, 104u8]),
        }
    }
}

/// The `GradientUnits` keywords.
#[derive(Clone, Copy, Debug, PartialEq, Eq, Structural)]
pub enum GradientUnits {
    UserSpaceOnUse,
    ObjectBoundingBox,
}

impl GradientUnits {
    pub open spec fn spec_str(&self) -> Seq<char> {
        match self {
            GradientUnits::UserSpaceOnUse => "userSpaceOnUse"@,
            GradientUnits::ObjectBoundingBox => "objectBoundingBox"@,
        }
    }

    pub fn as_str(&self) -> (r: &'static str)
        ensures
            r@ == self.spec_str(),
    {
        match self {
            GradientUnits::UserSpaceOnUse => "userSpaceOnUse",
            GradientUnits::ObjectBoundingBox => "objectBoundingBox",
        }
    }

    /// The keyword reads back as itself.
    pub proof fn lemma_format_round_trip(&self)
        ensures
            Self::spec_canonical(self.spec_format()) == Some(self.spec_format()),
    {
    }
}

impl Grammar for GradientUnits {
    open spec fn spec_wf(&self) -> bool {
        true
    }

    open spec fn spec_format(&self) -> Seq<u8> {
        match self {
            GradientUnits::UserSpaceOnUse => seq![117u8, 115u8, 101u8, 114u8, 83u8, 112u8, 97u8, 99u8, 101u8, 79u8, 110u8, 85u8, 115u8, 101u8],
            GradientUnits::ObjectBoundingBox => seq![111u8, 98u8, 106u8, 101u8, 99u8, 116u8, 66u8, 111u8, 117u8, 110u8, 100u8, 105u8, 110u8, 103u8, 66u8, 111u8, 120u8],
        }
    }

    open spec fn spec_canonical(s: Seq<u8>) -> Option<Seq<u8>> {
        if s == seq![117u8, 115u8, 101u8, 114u8, 83u8, 112u8, 97u8, 99u8, 101u8, 79u8, 110u8, 85u8, 115u8, 101u8] {
            Some(s)
        } else if s == seq![111u8, 98u8, 106u8, 101u8, 99u8, 116u8, 66u8, 111u8, 117u8, 110u8, 100u8, 105u8, 110u8, 103u8, 66u8, 111u8, 120u8] {
            Some(s)
        } else {
            None
        }
    }

    fn parse(s: &[u8]) -> (r: Option<GradientUnits>) {
        if bytes_eq(s, &[117u8, 115u8, 101u8, 114u8, 83u8, 112u8, 97u8, 99u8, 101u8, 79u8, 110u8, 85u8, 115u8, 101u8]) {
            return Some(GradientUnits::UserSpaceOnUse);
        }
        if bytes_eq(s, &[111u8, 98u8, 106u8, 101u8, 99u8, 116u8, 66u8, 111u8, 117u8, 110u8, 100u8, 105u8, 110u8, 103u8, 66u8, 111u8, 120u8]) {
            return Some(GradientUnits::ObjectBoundingBox);
        }
        None
    }

    fn write_to(&self, out: &mut Vec<u8>) {
        match self {
            GradientUnits::UserSpaceOnUse => append_bytes(out, &[117u8, 115u8, 101u8, 114u8, 83u8, 112u8, 97u8, 99u8, 101u8, 79u8, 110u8, 85u8, 115u8, 101u8]),
            GradientUnits::ObjectBoundingBox => append_bytes(out, &[111u8, 98u8, 106u8, 101u8, 99u8, 116u8, 66u8, 111u8, 117u8, 110u8, 100u8, 105u8, 110u8, 103u8, 66u8, 111u8, 120u8]),
        }
    }
}

/// The `SpreadMethod` keywords.
#[derive(Clone, Copy, Debug, PartialEq, Eq, Structural)]
pub enum SpreadMethod {
    Pad,
    Reflect,
    Repeat,
}

impl SpreadMethod {
    pub open spec fn spec_str(&self) -> Seq<char> {
        match self {
            SpreadMethod::Pad => "pad"@,
            SpreadMethod::Reflect => "reflect"@,
            SpreadMethod::Repeat => "repeat"@,
        }
    }

    pub fn as_str(&self) -> (r: &'static str)
        ensures
            r@ == self.spec_str(),
    {
        match self {
            SpreadMethod::Pad => "pad",
            SpreadMethod::Reflect => "reflect",
            SpreadMethod::Repeat => "repeat",
        }
    }

    /// The keyword reads back as itself.
    pub proof fn lemma_format_round_trip(&self)
        ensures
            Self::spec_canonical(self.spec_format()) == Some(self.spec_format()),
    {
    }
}

impl Grammar for SpreadMethod {
    open spec fn spec_wf(&self) -> bool {
        true
    }

    open spec fn spec_format(&self) -> Seq<u8> {
        match self {
            SpreadMethod::Pad => seq![112u8, 97u8, 100u8],
            SpreadMethod::Reflect => seq![114u8, 101u8, 102u8, 108u8, 101u8, 99u8, 116u8],
            SpreadMethod::Repeat => seq![114u8, 101u8, 112u8, 101u8, 97u8, 116u8],
        }
    }

    open spec fn spec_canonical(s: Seq<u8>) -> Option<Seq<u8>> {
        if s == seq![112u8, 97u8, 100u8] {
            Some(s)
        } else if s == seq![114u8, 101u8, 102u8, 108u8, 101u8, 99u8, 116u8] {
            Some(s)
        } else if s == seq![114u8, 101u8, 112u8, 101u8, 97u8, 116u8] {
            Some(s)
        } else {
            None
        }
    }

    fn parse(s: &[u8]) -> (r: Option<SpreadMethod>) {
        if bytes_eq(s, &[112u8, 97u8, 100u8]) {
            return Some(SpreadMethod::Pad);
        }
        if bytes_eq(s, &[114u8, 101u8, 102u8, 108u8, 101u8, 99u8, 116u8]) {
            return Some(SpreadMethod::Reflect);
        }
        if bytes_eq(s, &[114u8, 101u8, 112u8, 101u8, 97u8, 116u8]) {
            return Some(SpreadMethod::Repeat);
        }
        None
    }

    fn write_to(&self, out: &mut Vec<u8>) {
        match self {
            SpreadMethod::Pad => append_bytes(out, &[112u8, 97u8, 100u8]),
            SpreadMethod::Reflect => append_bytes(out, &[114u8, 101u8, 102u8, 108u8, 101u8, 99u8, 116u8]),
            SpreadMethod::Repeat => append_bytes(out, &[114u8, 101u8, 112u8, 101u8, 97u8, 116u8]),
        }
    }
}

/// The `Decoding` keywords.
#[derive(Clone, Copy, Debug, PartialEq, Eq, Structural)]
pub enum Decoding {
    Auto,
    Synchronous,
    Asynchronous,
}

impl Decoding {
    pub open spec fn spec_str(&self) -> Seq<char> {
        match self {
            Decoding::Auto => "auto"@,
            Decoding::Synchronous => "sync"@,
            Decoding::Asynchronous => "async"@,
        }
    }

    pub fn as_str(&self) -> (r: &'static str)
        ensures
            r@ == self.spec_str(),
    {
        match self {
            Decoding::Auto => "auto",
            Decoding::Synchronous => "sync",
            Decoding::Asynchronous => "async",
        }
    }

    /// The keyword reads back as itself.
    pub proof fn lemma_format_round_trip(&self)
        ensures
            Self::spec_canonical(self.spec_format()) == Some(self.spec_format()),
    {
    }
}

impl Grammar for Decoding {
    open spec fn spec_wf(&self) -> bool {
        true
    }

    open spec fn spec_format(&self) -> Seq<u8> {
        match self {
            Decoding::Auto => seq![97u8, 117u8, 116u8, 111u8],
            Decoding::Synchronous => seq![115u8, 121u8, 110u8, 99u8],
            Decoding::Asynchronous => seq![97u8, 115u8, 121u8, 110u8, 99u8],
        }
    }

    open spec fn spec_canonical(s: Seq<u8>) -> Option<Seq<u8>> {
        if s == seq![97u8, 117u8, 116u8, 111u8] {
            Some(s)
        } else if s == seq![115u8, 121u8, 110u8, 99u8] {
            Some(s)
        } else if s == seq![97u8, 115u8, 121u8, 110u8, 99u8] {
            Some(s)
        } else {
            None
        }
    }

    fn parse(s: &[u8]) -> (r: Option<Decoding>) {
        if bytes_eq(s, &[97u8, 117u8, 116u8, 111u8]) {
            return Some(Decoding::Auto);
        }
        if bytes_eq(s, &[115u8, 121u8, 110u8, 99u8]) {
            return Some(Decoding::Synchronous);
        }
        if bytes_eq(s, &[97u8, 115u8, 121u8, 110u8, 99u8]) {
            return Some(Decoding::Asynchronous);
        }
        None
    }

    fn write_to(&self, out: &mut Vec<u8>) {
        match self {
            Decoding::Auto => append_bytes(out, &[97u8, 117u8, 116u8, 111u8]),
            Decoding::Synchronous => append_bytes(out, &[115u8, 121u8, 110u8, 99u8]),
            Decoding::Asynchronous => append_bytes(out, &[97u8, 115u8, 121u8, 110u8, 99u8]),
        }
    }
}

/// The `FetchPriority` keywords.
#[derive(Clone, Copy, Debug, PartialEq, Eq, Structural)]
pub enum FetchPriority {
    Auto,
    High,
    Low,
}

impl FetchPriority {
    pub open spec fn spec_str(&self) -> Seq<char> {
        match self {
            FetchPriority::Auto => "auto"@,
            FetchPriority::High => "high"@,
            FetchPriority::Low => "low"@,
        }
    }

    pub fn as_str(&self) -> (r: &'static str)
        ensures
            r@ == self.spec_str(),
    {
        match self {
            FetchPriority::Auto => "auto",
            FetchPriority::High => "high",
            FetchPriority::Low => "low",
        }
    }

    /// The keyword reads back as itself.
    pub proof fn lemma_format_round_trip(&self)
        ensures
            Self::spec_canonical(self.spec_format()) == Some(self.spec_format()),
    {
    }
}

impl Grammar for FetchPriority {
    open spec fn spec_wf(&self) -> bool {
        true
    }

    open spec fn spec_format(&self) -> Seq<u8> {
        match self {
            FetchPriority::Auto => seq![97u8, 117u8, 116u8, 111u8],
            FetchPriority::High => seq![104u8, 105u8, 103u8, 104u8],
            FetchPriority::Low => seq![108u8, 111u8, 119u8],
        }
    }

    open spec fn spec_canonical(s: Seq<u8>) -> Option<Seq<u8>> {
        if s == seq![97u8, 117u8, 116u8, 111u8] {
            Some(s)
        } else if s == seq![104u8, 105u8, 103u8, 104u8] {
            Some(s)
        } else if s == seq![108u8, 111u8, 119u8] {
            Some(s)
        } else {
            None
        }
    }

    fn parse(s: &[u8]) -> (r: Option<FetchPriority>) {
        if bytes_eq(s, &[97u8, 117u8, 116u8, 111u8]) {
            return Some(FetchPriority::Auto);
        }
        if bytes_eq(s, &[104u8, 105u8, 103u8, 104u8]) {
            return Some(FetchPriority::High);
        }
        if bytes_eq(s, &[108u8, 111u8, 119u8]) {
            return Some(FetchPriority::Low);
        }
        None
    }

    fn write_to(&self, out: &mut Vec<u8>) {
        match self {
            FetchPriority::Auto => append_bytes(out, &[97u8, 117u8, 116u8, 111u8]),
            FetchPriority::High => append_bytes(out, &[104u8, 105u8, 103u8, 104u8]),
            FetchPriority::Low => append_bytes(out, &[108u8, 111u8, 119u8]),
        }
    }
}

/// The `LengthAdjust` keywords.
#[derive(Clone, Copy, Debug, PartialEq, Eq, Structural)]
pub enum LengthAdjust {
    Spacing,
    SpacingAndGlyphs,
}

impl LengthAdjust {
    pub open spec fn spec_str(&self) -> Seq<char> {
        match self {
            LengthAdjust::Spacing => "spacing"@,
            LengthAdjust::SpacingAndGlyphs => "spacingAndGlyphs"@,
        }
    }

    pub fn as_str(&self) -> (r: &'static str)
        ensures
            r@ == self.spec_str(),
    {
        match self {
            LengthAdjust::Spacing => "spacing",
            LengthAdjust::SpacingAndGlyphs => "spacingAndGlyphs",
        }
    }

    /// The keyword reads back as itself.
    pub proof fn lemma_format_round_trip(&self)
        ensures
            Self::spec_canonical(self.spec_format()) == Some(self.spec_format()),
    {
    }
}

impl Grammar for LengthAdjust {
    open spec fn spec_wf(&self) -> bool {
        true
    }

    open spec fn spec_format(&self) -> Seq<u8> {
        match self {
            LengthAdjust::Spacing => seq![115u8, 112u8, 97u8, 99u8, 105u8, 110u8, 103u8],
            LengthAdjust::SpacingAndGlyphs => seq![115u8, 112u8, 97u8, 99u8, 105u8, 110u8, 103u8, 65u8, 110u8, 100u8, 71u8, 108u8, 121u8, 112u8, 104u8, 115u8],
        }
    }

    open spec fn spec_canonical(s: Seq<u8>) -> Option<Seq<u8>> {
        if s == seq![115u8, 112u8, 97u8, 99u8, 105u8, 110u8, 103u8] {
            Some(s)
        } else if s == seq![115u8, 112u8, 97u8, 99u8, 105u8, 110u8, 103u8, 65u8, 110u8, 100u8, 71u8, 108u8, 121u8, 112u8, 104u8, 115u8] {
            Some(s)
        } else {
            None
        }
    }

    fn parse(s: &[u8]) -> (r: Option<LengthAdjust>) {
        if bytes_eq(s, &[115u8, 112u8, 97u8, 99u8, 105u8, 110u8, 103u8]) {
            return Some(LengthAdjust::Spacing);
        }
        if bytes_eq(s, &[115u8, 112u8, 97u8, 99u8, 105u8, 110u8, 103u8, 65u8, 110u8, 100u8, 71u8, 108u8, 121u8, 112u8, 104u8, 115u8]) {
            return Some(LengthAdjust::SpacingAndGlyphs);
        }
        None
    }

    fn write_to(&self, out: &mut Vec<u8>) {
        match self {
            LengthAdjust::Spacing => append_bytes(out, &[115u8, 112u8, 97u8, 99u8, 105u8, 110u8, 103u8]),
            LengthAdjust::SpacingAndGlyphs => append_bytes(out, &[115u8, 112u8, 97u8, 99u8, 105u8, 110u8, 103u8, 65u8, 110u8, 100u8, 71u8, 108u8, 121u8, 112u8, 104u8, 115u8]),
        }
    }
}

/// The `ClipPathUnits` keywords.
#[derive(Clone, Copy, Debug, PartialEq, Eq, Structural)]
pub enum ClipPathUnits {
    UserSpaceOnUse,
    ObjectBoundingBox,
}

impl ClipPathUnits {
    pub open spec fn spec_str(&self) -> Seq<char> {
        match self {
            ClipPathUnits::UserSpaceOnUse => "userSpaceOnUse"@,
            ClipPathUnits::ObjectBoundingBox => "objectBoundingBox"@,
        }
    }

    pub fn as_str(&self) -> (r: &'static str)
        ensures
            r@ == self.spec_str(),
    {
        match self {
            ClipPathUnits::UserSpaceOnUse => "userSpaceOnUse",
            ClipPathUnits::ObjectBoundingBox => "objectBoundingBox",
        }
    }

    /// The keyword reads back as itself.
    pub proof fn lemma_format_round_trip(&self)
        ensures
            Self::spec_canonical(self.spec_format()) == Some(self.spec_format()),
    {
    }
}

impl Grammar for ClipPathUnits {
    open spec fn spec_wf(&self) -> bool {
        true
    }

    open spec fn spec_format(&self) -> Seq<u8> {
        match self {
            ClipPathUnits::UserSpaceOnUse => seq![117u8, 115u8, 101u8, 114u8, 83u8, 112u8, 97u8, 99u8, 101u8, 79u8, 110u8, 85u8, 115u8, 101u8],
            ClipPathUnits::ObjectBoundingBox => seq![111u8, 98u8, 106u8, 101u8, 99u8, 116u8, 66u8, 111u8, 117u8, 110u8, 100u8, 105u8, 110u8, 103u8, 66u8, 111u8, 120u8],
        }
    }

    open spec fn spec_canonical(s: Seq<u8>) -> Option<Seq<u8>> {
        if s == seq![117u8, 115u8, 101u8, 114u8, 83u8, 112u8, 97u8, 99u8, 101u8, 79u8, 110u8, 85u8, 115u8, 101u8] {
            Some(s)
        } else if s == seq![111u8, 98u8, 106u8, 101u8, 99u8, 116u8, 66u8, 111u8, 117u8, 110u8, 100u8, 105u8, 110u8, 103u8, 66u8, 111u8, 120u8] {
            Some(s)
        } else {
            None
        }
    }

    fn parse(s: &[u8]) -> (r: Option<ClipPathUnits>) {
        if bytes_eq(s, &[117u8, 115u8, 101u8, 114u8, 83u8, 112u8, 97u8, 99u8, 101u8, 79u8, 110u8, 85u8, 115u8, 101u8]) {
            return Some(ClipPathUnits::UserSpaceOnUse);
        }
        if bytes_eq(s, &[111u8, 98u8, 106u8, 101u8, 99u8, 116u8, 66u8, 111u8, 117u8, 110u8, 100u8, 105u8, 110u8, 103u8, 66u8, 111u8, 120u8]) {
            return Some(ClipPathUnits::ObjectBoundingBox);
        }
        None
    }

    fn write_to(&self, out: &mut Vec<u8>) {
        match self {
            ClipPathUnits::UserSpaceOnUse => append_bytes(out, &[117u8, 115u8, 101u8, 114u8, 83u8, 112u8, 97u8, 99u8, 101u8, 79u8, 110u8, 85u8, 115u8, 101u8]),
            ClipPathUnits::ObjectBoundingBox => append_bytes(out, &[111u8, 98u8, 106u8, 101u8, 99u8, 116u8, 66u8, 111u8, 117u8, 110u8, 100u8, 105u8, 110u8, 103u8, 66u8, 111u8, 120u8]),
        }
    }
}

/// The `Method` keywords.
#[derive(Clone, Copy, Debug, PartialEq, Eq, Structural)]
pub enum Method {
    Align,
    Stretch,
}

impl Method {
    pub open spec fn spec_str(&self) -> Seq<char> {
        match self {
            Method::Align => "align"@,
            Method::Stretch => "stretch"@,
        }
    }

    pub fn as_str(&self) -> (r: &'static str)
        ensures
            r@ == self.spec_str(),
    {
        match self {
            Method::Align => "align",
            Method::Stretch => "stretch",
        }
    }

    /// The keyword reads back as itself.
    pub proof fn lemma_format_round_trip(&self)
        ensures
            Self::spec_canonical(self.spec_format()) == Some(self.spec_format()),
    {
    }
}

impl Grammar for Method {
    open spec fn spec_wf(&self) -> bool {
        true
    }

    open spec fn spec_format(&self) -> Seq<u8> {
        match self {
            Method::Align => seq![97u8, 108u8, 105u8, 103u8, 110u8],
            Method::Stretch => seq![115u8, 116u8, 114u8, 101u8, 116u8, 99u8, 104u8],
        }
    }

    open spec fn spec_canonical(s: Seq<u8>) -> Option<Seq<u8>> {
        if s == seq![97u8, 108u8, 105u8, 103u8, 110u8] {
            Some(s)
        } else if s == seq![115u8, 116u8, 114u8, 101u8, 116u8, 99u8, 104u8] {
            Some(s)
        } else {
            None
        }
    }

    fn parse(s: &[u8]) -> (r: Option<Method>) {
        if bytes_eq(s, &[97u8, 108u8, 105u8, 103u8, 110u8]) {
            return Some(Method::Align);
        }
        if bytes_eq(s, &[115u8, 116u8, 114u8, 101u8, 116u8, 99u8, 104u8]) {
            return Some(Method::Stretch);
        }
        None
    }

    fn write_to(&self, out: &mut Vec<u8>) {
        match self {
            Method::Align => append_bytes(out, &[97u8, 108u8, 105u8, 103u8, 110u8]),
            Method::Stretch => append_bytes(out, &[115u8, 116u8, 114u8, 101u8, 116u8, 99u8, 104u8]),
        }
    }
}

/// The `Side` keywords.
#[derive(Clone, Copy, Debug, PartialEq, Eq, Structural)]
pub enum Side {
    Left,
    Right,
}

impl Side {
    pub open spec fn spec_str(&self) -> Seq<char> {
        match self {
            Side::Left => "left"@,
            Side::Right => "right"@,
        }
    }

    pub fn as_str(&self) -> (r: &'static str)
        ensures
            r@ == self.spec_str(),
    {
        match self {
            Side::Left => "left",
            Side::Right => "right",
        }
    }

    /// The keyword reads back as itself.
    pub proof fn lemma_format_round_trip(&self)
        ensures
            Self::spec_canonical(self.spec_format()) == Some(self.spec_format()),
    {
    }
}

impl Grammar for Side {
    open spec fn spec_wf(&self) -> bool {
        true
    }

    open spec fn spec_format(&self) -> Seq<u8> {
        match self {
            Side::Left => seq![108u8, 101u8, 102u8, 116u8],
            Side::Right => seq![114u8, 105u8, 103u8, 104u8, 116u8],
        }
    }

    open spec fn spec_canonical(s: Seq<u8>) -> Option<Seq<u8>> {
        if s == seq![108u8, 101u8, 102u8, 116u8] {
            Some(s)
        } else if s == seq![114u8, 105u8, 103u8, 104u8, 116u8] {
            Some(s)
        } else {
            None
        }
    }

    fn parse(s: &[u8]) -> (r: Option<Side>) {
        if bytes_eq(s, &[108u8, 101u8, 102u8, 116u8]) {
            return Some(Side::Left);
        }
        if bytes_eq(s, &[114u8, 105u8, 103u8, 104u8, 116u8]) {
            return Some(Side::Right);
        }
        None
    }

    fn write_to(&self, out: &mut Vec<u8>) {
        match self {
            Side::Left => append_bytes(out, &[108u8, 101u8, 102u8, 116u8]),
            Side::Right => append_bytes(out, &[114u8, 105u8, 103u8, 104u8, 116u8]),
        }
    }
}

/// The `Spacing` keywords.
#[derive(Clone, Copy, Debug, PartialEq, Eq, Structural)]
pub enum Spacing {
    Exact,
    Auto,
}

impl Spacing {
    pub open spec fn spec_str(&self) -> Seq<char> {
        match self {
            Spacing::Exact => "exact"@,
            Spacing::Auto => "auto"@,
        }
    }

    pub fn as_str(&self) -> (r: &'static str)
        ensures
            r@ == self.spec_str(),
    {
        match self {
            Spacing::Exact => "exact",
            Spacing::Auto => "auto",
        }
    }

    /// The keyword reads back as itself.
    pub proof fn lemma_format_round_trip(&self)
        ensures
            Self::spec_canonical(self.spec_format()) == Some(self.spec_format()),
    {
    }
}

impl Grammar for Spacing {
    open spec fn spec_wf(&self) -> bool {
        true
    }

    open spec fn spec_format(&self) -> Seq<u8> {
        match self {
            Spacing::Exact => seq![101u8, 120u8, 97u8, 99u8, 116u8],
            Spacing::Auto => seq![97u8, 117u8, 116u8, 111u8],
        }
    }

    open spec fn spec_canonical(s: Seq<u8>) -> Option<Seq<u8>> {
        if s == seq![101u8, 120u8, 97u8, 99u8, 116u8] {
            Some(s)
        } else if s == seq![97u8, 117u8, 116u8, 111u8] {
            Some(s)
        } else {
            None
        }
    }

    fn parse(s: &[u8]) -> (r: Option<Spacing>) {
        if bytes_eq(s, &[101u8, 120u8, 97u8, 99u8, 116u8]) {
            return Some(Spacing::Exact);
        }
        if bytes_eq(s, &[97u8, 117u8, 116u8, 111u8]) {
            return Some(Spacing::Auto);
        }
        None
    }

    fn write_to(&self, out: &mut Vec<u8>) {
        match self {
            Spacing::Exact => append_bytes(out, &[101u8, 120u8, 97u8, 99u8, 116u8]),
            Spacing::Auto => append_bytes(out, &[97u8, 117u8, 116u8, 111u8]),
        }
    }
}

/// The `FilterUnits` keywords.
#[derive(Clone, Copy, Debug, PartialEq, Eq, Structural)]
pub enum FilterUnits {
    UserSpaceOnUse,
    ObjectBoundingBox,
}

impl FilterUnits {
    pub open spec fn spec_str(&self) -> Seq<char> {
        match self {
            FilterUnits::UserSpaceOnUse => "userSpaceOnUse"@,
            FilterUnits::ObjectBoundingBox => "objectBoundingBox"@,
        }
    }

    pub fn as_str(&self) -> (r: &'static str)
        ensures
            r@ == self.spec_str(),
    {
        match self {
            FilterUnits::UserSpaceOnUse => "userSpaceOnUse",
            FilterUnits::ObjectBoundingBox => "objectBoundingBox",
        }
    }

    /// The keyword reads back as itself.
    pub proof fn lemma_format_round_trip(&self)
        ensures
            Self::spec_canonical(self.spec_format()) == Some(self.spec_format()),
    {
    }
}

impl Grammar for FilterUnits {
    open spec fn spec_wf(&self) -> bool {
        true
    }

    open spec fn spec_format(&self) -> Seq<u8> {
        match self {
            FilterUnits::UserSpaceOnUse => seq![117u8, 115u8, 101u8, 114u8, 83u8, 112u8, 97u8, 99u8, 101u8, 79u8, 110u8, 85u8, 115u8, 101u8],
            FilterUnits::ObjectBoundingBox => seq![111u8, 98u8, 106u8, 101u8, 99u8, 116u8, 66u8, 111u8, 117u8, 110u8, 100u8, 105u8, 110u8, 103u8, 66u8, 111u8, 120u8],
        }
    }

    open spec fn spec_canonical(s: Seq<u8>) -> Option<Seq<u8>> {
        if s == seq![117u8, 115u8, 101u8, 114u8, 83u8, 112u8, 97u8, 99u8, 101u8, 79u8, 110u8, 85u8, 115u8, 101u8] {
            Some(s)
        } else if s == seq![111u8, 98u8, 106u8, 101u8, 99u8, 116u8, 66u8, 111u8, 117u8, 110u8, 100u8, 105u8, 110u8, 103u8, 66u8, 111u8, 120u8] {
            Some(s)
        } else {
            None
        }
    }

    fn parse(s: &[u8]) -> (r: Option<FilterUnits>) {
        if bytes_eq(s, &[117u8, 115u8, 101u8, 114u8, 83u8, 112u8, 97u8, 99u8, 101u8, 79u8, 110u8, 85u8, 115u8, 101u8]) {
            return Some(FilterUnits::UserSpaceOnUse);
        }
        if bytes_eq(s, &[111u8, 98u8, 106u8, 101u8, 99u8, 116u8, 66u8, 111u8, 117u8, 110u8, 100u8, 105u8, 110u8, 103u8, 66u8, 111u8, 120u8]) {
            return Some(FilterUnits::ObjectBoundingBox);
        }
        None
    }

    fn write_to(&self, out: &mut Vec<u8>) {
        match self {
            FilterUnits::UserSpaceOnUse => append_bytes(out, &[117u8, 115u8, 101u8, 114u8, 83u8, 112u8, 97u8, 99u8, 101u8, 79u8, 110u8, 85u8, 115u8, 101u8]),
            FilterUnits::ObjectBoundingBox => append_bytes(out, &[111u8, 98u8, 106u8, 101u8, 99u8, 116u8, 66u8, 111u8, 117u8, 110u8, 100u8, 105u8, 110u8, 103u8, 66u8, 111u8, 120u8]),
        }
    }
}

/// The `PrimitiveUnits` keywords.
#[derive(Clone, Copy, Debug, PartialEq, Eq, Structural)]
pub enum PrimitiveUnits {
    UserSpaceOnUse,
    ObjectBoundingBox,
}

impl PrimitiveUnits {
    pub open spec fn spec_str(&self) -> Seq<char> {
        match self {
            PrimitiveUnits::UserSpaceOnUse => "userSpaceOnUse"@,
            PrimitiveUnits::ObjectBoundingBox => "objectBoundingBox"@,
        }
    }

    pub fn as_str(&self) -> (r: &'static str)
        ensures
            r@ == self.spec_str(),
    {
        match self {
            PrimitiveUnits::UserSpaceOnUse => "userSpaceOnUse",
            PrimitiveUnits::ObjectBoundingBox => "objectBoundingBox",
        }
    }

    /// The keyword reads back as itself.
    pub proof fn lemma_format_round_trip(&self)
        ensures
            Self::spec_canonical(self.spec_format()) == Some(self.spec_format()),
    {
    }
}

impl Grammar for PrimitiveUnits {
    open spec fn spec_wf(&self) -> bool {
        true
    }

    open spec fn spec_format(&self) -> Seq<u8> {
        match self {
            PrimitiveUnits::UserSpaceOnUse => seq![117u8, 115u8, 101u8, 114u8, 83u8, 112u8, 97u8, 99u8, 101u8, 79u8, 110u8, 85u8, 115u8, 101u8],
            PrimitiveUnits::ObjectBoundingBox => seq![111u8, 98u8, 106u8, 101u8, 99u8, 116u8, 66u8, 111u8, 117u8, 110u8, 100u8, 105u8, 110u8, 103u8, 66u8, 111u8, 120u8],
        }
    }

    open spec fn spec_canonical(s: Seq<u8>) -> Option<Seq<u8>> {
        if s == seq![117u8, 115u8, 101u8, 114u8, 83u8, 112u8, 97u8, 99u8, 101u8, 79u8, 110u8, 85u8, 115u8, 101u8] {
            Some(s)
        } else if s == seq![111u8, 98u8, 106u8, 101u8, 99u8, 116u8, 66u8, 111u8, 117u8, 110u8, 100u8, 105u8, 110u8, 103u8, 66u8, 111u8, 120u8] {
            Some(s)
        } else {
            None
        }
    }

    fn parse(s: &[u8]) -> (r: Option<PrimitiveUnits>) {
        if bytes_eq(s, &[117u8, 115u8, 101u8, 114u8, 83u8, 112u8, 97u8, 99u8, 101u8, 79u8, 110u8, 85u8, 115u8, 101u8]) {
            return Some(PrimitiveUnits::UserSpaceOnUse);
        }
        if bytes_eq(s, &[111u8, 98u8, 106u8, 101u8, 99u8, 116u8, 66u8, 111u8, 117u8, 110u8, 100u8, 105u8, 110u8, 103u8, 66u8, 111u8, 120u8]) {
            return Some(PrimitiveUnits::ObjectBoundingBox);
        }
        None
    }

    fn write_to(&self, out: &mut Vec<u8>) {
        match self {
            PrimitiveUnits::UserSpaceOnUse => append_bytes(out, &[117u8, 115u8, 101u8, 114u8, 83u8, 112u8, 97u8, 99u8, 101u8, 79u8, 110u8, 85u8, 115u8, 101u8]),
            PrimitiveUnits::ObjectBoundingBox => append_bytes(out, &[111u8, 98u8, 106u8, 101u8, 99u8, 116u8, 66u8, 111u8, 117u8, 110u8, 100u8, 105u8, 110u8, 103u8, 66u8, 111u8, 120u8]),
        }
    }
}

/// The `ColorLiteral` keywords.
#[derive(Clone, Copy, Debug, PartialEq, Eq, Structural)]
pub enum ColorLiteral {
    Maroon,
    DarkRed,
    Brown,
    FireBrick,
    Crimson,
    Red,
    IndianRed,
    SaddleBrown,
    Sienna,
    RosyBrown,
    Chocolate,
    Peru,
    DarkGoldenRod,
    DarkSalmon,
    LightCoral,
    GoldenRod,
    Tan,
    DarkKhaki,
    BurlyWood,
    PaleGoldenRod,
    SandyBrown,
    Salmon,
    OrangeRed,
    Tomato,
    Coral,
    DarkOrange,
    LightSalmon,
    Orange,
    Gold,
    Yellow,
    Khaki,
    Wheat,
    Beige,
    AntiqueWhite,
    Linen,
    LightGoldenRodYellow,
    OldLace,
    PeachPuff,
    NavajoWhite,
    Moccasin,
    Bisque,
    BlanchedAlmond,
    PapayaWhip,
    LemonChiffon,
    LightYellow,
    Cornsilk,
    MistyRose,
    FloralWhite,
    SeaShell,
    Snow,
    Ivory,
    White,
    Black,
    DimGray,
    DarkGray,
    Gray,
    Silver,
    LightGray,
    Gainsboro,
    WhiteSmoke,
    DarkSlateGray,
    SlateGray,
    LightSlateGray,
    DarkGreen,
    Green,
    ForestGreen,
    DarkSeaGreen,
    SeaGreen,
    MediumSeaGreen,
    LightSeaGreen,
    LimeGreen,
    Lime,
    Chartreuse,
    LawnGreen,
    SpringGreen,
    MediumSpringGreen,
    DarkOliveGreen,
    OliveDrab,
    Olive,
    YellowGreen,
    GreenYellow,
    PaleGreen,
    LightGreen,
    HoneyDew,
    Teal,
    DarkCyan,
    CadetBlue,
    DarkTurquoise,
    Turquoise,
    MediumTurquoise,
    MediumAquaMarine,
    Aquamarine,
    MidnightBlue,
    Navy,
    DarkBlue,
    MediumBlue,
    RoyalBlue,
    CornflowerBlue,
    SteelBlue,
    Blue,
    DodgerBlue,
    PaleTurquoise,
    LightSteelBlue,
    PowderBlue,
    DeepSkyBlue,
    SkyBlue,
    LightSkyBlue,
    LightBlue,
    Aqua,
    Cyan,
    LightCyan,
    Azure,
    AliceBlue,
    MintCream,
    GhostWhite,
}

impl ColorLiteral {
    pub open spec fn spec_str(&self) -> Seq<char> {
        match self {
            ColorLiteral::Maroon => "maroon"@,
            ColorLiteral::DarkRed => "darkred"@,
            ColorLiteral::Brown => "brown"@,
            ColorLiteral::FireBrick => "firebrick"@,
            ColorLiteral::Crimson => "crimson"@,
            ColorLiteral::Red => "red"@,
            ColorLiteral::IndianRed => "indianred"@,
            ColorLiteral::SaddleBrown => "saddlebrown"@,
            ColorLiteral::Sienna => "sienna"@,
            ColorLiteral::RosyBrown => "rosybrown"@,
            ColorLiteral::Chocolate => "chocolate"@,
            ColorLiteral::Peru => "peru"@,
            ColorLiteral::DarkGoldenRod => "darkgoldenrod"@,
            ColorLiteral::DarkSalmon => "darksalmon"@,
            ColorLiteral::LightCoral => "lightcoral"@,
            ColorLiteral::GoldenRod => "goldenrod"@,
            ColorLiteral::Tan => "tan"@,
            ColorLiteral::DarkKhaki => "darkkhaki"@,
            ColorLiteral::BurlyWood => "burlywood"@,
            ColorLiteral::PaleGoldenRod => "palegoldenrod"@,
            ColorLiteral::SandyBrown => "sandybrown"@,
            ColorLiteral::Salmon => "salmon"@,
            ColorLiteral::OrangeRed => "orangered"@,
            ColorLiteral::Tomato => "tomato"@,
            ColorLiteral::Coral => "coral"@,
            ColorLiteral::DarkOrange => "darkorange"@,
            ColorLiteral::LightSalmon => "lightsalmon"@,
            ColorLiteral::Orange => "orange"@,
            ColorLiteral::Gold => "gold"@,
            ColorLiteral::Yellow => "yellow"@,
            ColorLiteral::Khaki => "khaki"@,
            ColorLiteral::Wheat => "wheat"@,
            ColorLiteral::Beige => "beige"@,
            ColorLiteral::AntiqueWhite => "antiquewhite"@,
            ColorLiteral::Linen => "linen"@,
            ColorLiteral::LightGoldenRodYellow => "lightgoldenrodyellow"@,
            ColorLiteral::OldLace => "oldlace"@,
            ColorLiteral::PeachPuff => "peachpuff"@,
            ColorLiteral::NavajoWhite => "navajowhite"@,
            ColorLiteral::Moccasin => "moccasin"@,
            ColorLiteral::Bisque => "bisque"@,
            ColorLiteral::BlanchedAlmond => "blanchedalmond"@,
            ColorLiteral::PapayaWhip => "papayawhip"@,
            ColorLiteral::LemonChiffon => "lemonchiffon"@,
            ColorLiteral::LightYellow => "lightyellow"@,
            ColorLiteral::Cornsilk => "cornsilk"@,
            ColorLiteral::MistyRose => "mistyrose"@,
            ColorLiteral::FloralWhite => "floralwhite"@,
            ColorLiteral::SeaShell => "seashell"@,
            ColorLiteral::Snow => "snow"@,
            ColorLiteral::Ivory => "ivory"@,
            ColorLiteral::White => "white"@,
            ColorLiteral::Black => "black"@,
            ColorLiteral::DimGray => "dimgray"@,
            ColorLiteral::DarkGray => "darkgray"@,
            ColorLiteral::Gray => "gray"@,
            ColorLiteral::Silver => "silver"@,
            ColorLiteral::LightGray => "lightgray"@,
            ColorLiteral::Gainsboro => "gainsboro"@,
            ColorLiteral::WhiteSmoke => "whitesmoke"@,
            ColorLiteral::DarkSlateGray => "darkslategray"@,
            ColorLiteral::SlateGray => "slategray"@,
            ColorLiteral::LightSlateGray => "lightslategray"@,
            ColorLiteral::DarkGreen => "darkgreen"@,
            ColorLiteral::Green => "green"@,
            ColorLiteral::ForestGreen => "forestgreen"@,
            ColorLiteral::DarkSeaGreen => "darkseagreen"@,
            ColorLiteral::SeaGreen => "seagreen"@,
            ColorLiteral::MediumSeaGreen => "mediumseagreen"@,
            ColorLiteral::LightSeaGreen => "lightseagreen"@,
            ColorLiteral::LimeGreen => "limegreen"@,
            ColorLiteral::Lime => "lime"@,
            ColorLiteral::Chartreuse => "chartreuse"@,
            ColorLiteral::LawnGreen => "lawngreen"@,
            ColorLiteral::SpringGreen => "springgreen"@,
            ColorLiteral::MediumSpringGreen => "mediumspringgreen"@,
            ColorLiteral::DarkOliveGreen => "darkolivegreen"@,
            ColorLiteral::OliveDrab => "olivedrab"@,
            ColorLiteral::Olive => "olive"@,
            ColorLiteral::YellowGreen => "yellowgreen"@,
            ColorLiteral::GreenYellow => "greenyellow"@,
            ColorLiteral::PaleGreen => "palegreen"@,
            ColorLiteral::LightGreen => "lightgreen"@,
            ColorLiteral::HoneyDew => "honeydew"@,
            ColorLiteral::Teal => "teal"@,
            ColorLiteral::DarkCyan => "darkcyan"@,
            ColorLiteral::CadetBlue => "cadetblue"@,
            ColorLiteral::DarkTurquoise => "darkturquoise"@,
            ColorLiteral::Turquoise => "turquoise"@,
            ColorLiteral::MediumTurquoise => "mediumturquoise"@,
            ColorLiteral::MediumAquaMarine => "mediumaquamarine"@,
            ColorLiteral::Aquamarine => "aquamarine"@,
            ColorLiteral::MidnightBlue => "midnightblue"@,
            ColorLiteral::Navy => "navy"@,
            ColorLiteral::DarkBlue => "darkblue"@,
            ColorLiteral::MediumBlue => "mediumblue"@,
            ColorLiteral::RoyalBlue => "royalblue"@,
            ColorLiteral::CornflowerBlue => "cornflowerblue"@,
            ColorLiteral::SteelBlue => "steelblue"@,
            ColorLiteral::Blue => "blue"@,
            ColorLiteral::DodgerBlue => "dodgerblue"@,
            ColorLiteral::PaleTurquoise => "paleturquoise"@,
            ColorLiteral::LightSteelBlue => "lightsteelblue"@,
            ColorLiteral::PowderBlue => "powderblue"@,
            ColorLiteral::DeepSkyBlue => "deepskyblue"@,
            ColorLiteral::SkyBlue => "skyblue"@,
            ColorLiteral::LightSkyBlue => "lightskyblue"@,
            ColorLiteral::LightBlue => "lightblue"@,
            ColorLiteral::Aqua => "aqua"@,
            ColorLiteral::Cyan => "cyan"@,
            ColorLiteral::LightCyan => "lightcyan"@,
            ColorLiteral::Azure => "azure"@,
            ColorLiteral::AliceBlue => "aliceblue"@,
            ColorLiteral::MintCream => "mintcream"@,
            ColorLiteral::GhostWhite => "ghostwhite"@,
        }
    }

    pub fn as_str(&self) -> (r: &'static str)
        ensures
            r@ == self.spec_str(),
    {
        match self {
            ColorLiteral::Maroon => "maroon",
            ColorLiteral::DarkRed => "darkred",
            ColorLiteral::Brown => "brown",
            ColorLiteral::FireBrick => "firebrick",
            ColorLiteral::Crimson => "crimson",
            ColorLiteral::Red => "red",
            ColorLiteral::IndianRed => "indianred",
            ColorLiteral::SaddleBrown => "saddlebrown",
            ColorLiteral::Sienna => "sienna",
            ColorLiteral::RosyBrown => "rosybrown",
            ColorLiteral::Chocolate => "chocolate",
            ColorLiteral::Peru => "peru",
            ColorLiteral::DarkGoldenRod => "darkgoldenrod",
            ColorLiteral::DarkSalmon => "darksalmon",
            ColorLiteral::LightCoral => "lightcoral",
            ColorLiteral::GoldenRod => "goldenrod",
            ColorLiteral::Tan => "tan",
            ColorLiteral::DarkKhaki => "darkkhaki",
            ColorLiteral::BurlyWood => "burlywood",
            ColorLiteral::PaleGoldenRod => "palegoldenrod",
            ColorLiteral::SandyBrown => "sandybrown",
            ColorLiteral::Salmon => "salmon",
            ColorLiteral::OrangeRed => "orangered",
            ColorLiteral::Tomato => "tomato",
            ColorLiteral::Coral => "coral",
            ColorLiteral::DarkOrange => "darkorange",
            ColorLiteral::LightSalmon => "lightsalmon",
            ColorLiteral::Orange => "orange",
            ColorLiteral::Gold => "gold",
            ColorLiteral::Yellow => "yellow",
            ColorLiteral::Khaki => "khaki",
            ColorLiteral::Wheat => "wheat",
            ColorLiteral::Beige => "beige",
            ColorLiteral::AntiqueWhite => "antiquewhite",
            ColorLiteral::Linen => "linen",
            ColorLiteral::LightGoldenRodYellow => "lightgoldenrodyellow",
            ColorLiteral::OldLace => "oldlace",
            ColorLiteral::PeachPuff => "peachpuff",
            ColorLiteral::NavajoWhite => "navajowhite",
            ColorLiteral::Moccasin => "moccasin",
            ColorLiteral::Bisque => "bisque",
            ColorLiteral::BlanchedAlmond => "blanchedalmond",
            ColorLiteral::PapayaWhip => "papayawhip",
            ColorLiteral::LemonChiffon => "lemonchiffon",
            ColorLiteral::LightYellow => "lightyellow",
            ColorLiteral::Cornsilk => "cornsilk",
            ColorLiteral::MistyRose => "mistyrose",
            ColorLiteral::FloralWhite => "floralwhite",
            ColorLiteral::SeaShell => "seashell",
            ColorLiteral::Snow => "snow",
            ColorLiteral::Ivory => "ivory",
            ColorLiteral::White => "white",
            ColorLiteral::Black => "black",
            ColorLiteral::DimGray => "dimgray",
            ColorLiteral::DarkGray => "darkgray",
            ColorLiteral::Gray => "gray",
            ColorLiteral::Silver => "silver",
            ColorLiteral::LightGray => "lightgray",
            ColorLiteral::Gainsboro => "gainsboro",
            ColorLiteral::WhiteSmoke => "whitesmoke",
            ColorLiteral::DarkSlateGray => "darkslategray",
            ColorLiteral::SlateGray => "slategray",
            ColorLiteral::LightSlateGray => "lightslategray",
            ColorLiteral::DarkGreen => "darkgreen",
            ColorLiteral::Green => "green",
            ColorLiteral::ForestGreen => "forestgreen",
            ColorLiteral::DarkSeaGreen => "darkseagreen",
            ColorLiteral::SeaGreen => "seagreen",
            ColorLiteral::MediumSeaGreen => "mediumseagreen",
            ColorLiteral::LightSeaGreen => "lightseagreen",
            ColorLiteral::LimeGreen => "limegreen",
            ColorLiteral::Lime => "lime",
            ColorLiteral::Chartreuse => "chartreuse",
            ColorLiteral::LawnGreen => "lawngreen",
            ColorLiteral::SpringGreen => "springgreen",
            ColorLiteral::MediumSpringGreen => "mediumspringgreen",
            ColorLiteral::DarkOliveGreen => "darkolivegreen",
            ColorLiteral::OliveDrab => "olivedrab",
            ColorLiteral::Olive => "olive",
            ColorLiteral::YellowGreen => "yellowgreen",
            ColorLiteral::GreenYellow => "greenyellow",
            ColorLiteral::PaleGreen => "palegreen",
            ColorLiteral::LightGreen => "lightgreen",
            ColorLiteral::HoneyDew => "honeydew",
            ColorLiteral::Teal => "teal",
            ColorLiteral::DarkCyan => "darkcyan",
            ColorLiteral::CadetBlue => "cadetblue",
            ColorLiteral::DarkTurquoise => "darkturquoise",
            ColorLiteral::Turquoise => "turquoise",
            ColorLiteral::MediumTurquoise => "mediumturquoise",
            ColorLiteral::MediumAquaMarine => "mediumaquamarine",
            ColorLiteral::Aquamarine => "aquamarine",
            ColorLiteral::MidnightBlue => "midnightblue",
            ColorLiteral::Navy => "navy",
            ColorLiteral::DarkBlue => "darkblue",
            ColorLiteral::MediumBlue => "mediumblue",
            ColorLiteral::RoyalBlue => "royalblue",
            ColorLiteral::CornflowerBlue => "cornflowerblue",
            ColorLiteral::SteelBlue => "steelblue",
            ColorLiteral::Blue => "blue",
            ColorLiteral::DodgerBlue => "dodgerblue",
            ColorLiteral::PaleTurquoise => "paleturquoise",
            ColorLiteral::LightSteelBlue => "lightsteelblue",
            ColorLiteral::PowderBlue => "powderblue",
            ColorLiteral::DeepSkyBlue => "deepskyblue",
            ColorLiteral::SkyBlue => "skyblue",
            ColorLiteral::LightSkyBlue => "lightskyblue",
            ColorLiteral::LightBlue => "lightblue",
            ColorLiteral::Aqua => "aqua",
            ColorLiteral::Cyan => "cyan",
            ColorLiteral::LightCyan => "lightcyan",
            ColorLiteral::Azure => "azure",
            ColorLiteral::AliceBlue => "aliceblue",
            ColorLiteral::MintCream => "mintcream",
            ColorLiteral::GhostWhite => "ghostwhite",
        }
    }

    /// The keyword reads back as itself.
    pub proof fn lemma_format_round_trip(&self)
        ensures
            Self::spec_canonical(self.spec_format()) == Some(self.spec_format()),
    {
    }
}

impl Grammar for ColorLiteral {
    open spec fn spec_wf(&self) -> bool {
        true
    }

    open spec fn spec_format(&self) -> Seq<u8> {
        match self {
            ColorLiteral::Maroon => seq![109u8, 97u8, 114u8, 111u8, 111u8, 110u8],
            ColorLiteral::DarkRed => seq![100u8, 97u8, 114u8, 107u8, 114u8, 101u8, 100u8],
            ColorLiteral::Brown => seq![98u8, 114u8, 111u8, 119u8, 110u8],
            ColorLiteral::FireBrick => seq![102u8, 105u8, 114u8, 101u8, 98u8, 114u8, 105u8, 99u8, 107u8],
            ColorLiteral::Crimson => seq![99u8, 114u8, 105u8, 109u8, 115u8, 111u8, 110u8],
            ColorLiteral::Red => seq![114u8, 101u8, 100u8],
            ColorLiteral::IndianRed => seq![105u8, 110u8, 100u8, 105u8, 97u8, 110u8, 114u8, 101u8, 100u8],
            ColorLiteral::SaddleBrown => seq![115u8, 97u8, 100u8, 100u8, 108u8, 101u8, 98u8, 114u8, 111u8, 119u8, 110u8],
            ColorLiteral::Sienna => seq![115u8, 105u8, 101u8, 110u8, 110u8, 97u8],
            ColorLiteral::RosyBrown => seq![114u8, 111u8, 115u8, 121u8, 98u8, 114u8, 111u8, 119u8, 110u8],
            ColorLiteral::Chocolate => seq![99u8, 104u8, 111u8, 99u8, 111u8, 108u8, 97u8, 116u8, 101u8],
            ColorLiteral::Peru => seq![112u8, 101u8, 114u8, 117u8],
            ColorLiteral::DarkGoldenRod => seq![100u8, 97u8, 114u8, 107u8, 103u8, 111u8, 108u8, 100u8, 101u8, 110u8, 114u8, 111u8, 100u8],
            ColorLiteral::DarkSalmon => seq![100u8, 97u8, 114u8, 107u8, 115u8, 97u8, 108u8, 109u8, 111u8, 110u8],
            ColorLiteral::LightCoral => seq![108u8, 105u8, 103u8, 104u8, 116u8, 99u8, 111u8, 114u8, 97u8, 108u8],
            ColorLiteral::GoldenRod => seq![103u8, 111u8, 108u8, 100u8, 101u8, 110u8, 114u8, 111u8, 100u8],
            ColorLiteral::Tan => seq![116u8, 97u8, 110u8],
            ColorLiteral::DarkKhaki => seq![100u8, 97u8, 114u8, 107u8, 107u8, 104u8, 97u8, 107u8, 105u8],
            ColorLiteral::BurlyWood => seq![98u8, 117u8, 114u8, 108u8, 121u8, 119u8, 111u8, 111u8, 100u8],
            ColorLiteral::PaleGoldenRod => seq![112u8, 97u8, 108u8, 101u8, 103u8, 111u8, 108u8, 100u8, 101u8, 110u8, 114u8, 111u8, 100u8],
            ColorLiteral::SandyBrown => seq![115u8, 97u8, 110u8, 100u8, 121u8, 98u8, 114u8, 111u8, 119u8, 110u8],
            ColorLiteral::Salmon => seq![115u8, 97u8, 108u8, 109u8, 111u8, 110u8],
            ColorLiteral::OrangeRed => seq![111u8, 114u8, 97u8, 110u8, 103u8, 101u8, 114u8, 101u8, 100u8],
            ColorLiteral::Tomato => seq![116u8, 111u8, 109u8, 97u8, 116u8, 111u8],
            ColorLiteral::Coral => seq![99u8, 111u8, 114u8, 97u8, 108u8],
            ColorLiteral::DarkOrange => seq![100u8, 97u8, 114u8, 107u8, 111u8, 114u8, 97u8, 110u8, 103u8, 101u8],
            ColorLiteral::LightSalmon => seq![108u8, 105u8, 103u8, 104u8, 116u8, 115u8, 97u8, 108u8, 109u8, 111u8, 110u8],
            ColorLiteral::Orange => seq![111u8, 114u8, 97u8, 110u8, 103u8, 101u8],
            ColorLiteral::Gold => seq![103u8, 111u8, 108u8, 100u8],
            ColorLiteral::Yellow => seq![121u8, 101u8, 108u8, 108u8, 111u8, 119u8],
            ColorLiteral::Khaki => seq![107u8, 104u8, 97u8, 107u8, 105u8],
            ColorLiteral::Wheat => seq![119u8, 104u8, 101u8, 97u8, 116u8],
            ColorLiteral::Beige => seq![98u8, 101u8, 105u8, 103u8, 101u8],
            ColorLiteral::AntiqueWhite => seq![97u8, 110u8, 116u8, 105u8, 113u8, 117u8, 101u8, 119u8, 104u8, 105u8, 116u8, 101u8],
            ColorLiteral::Linen => seq![108u8, 105u8, 110u8, 101u8, 110u8],
            ColorLiteral::LightGoldenRodYellow => seq![108u8, 105u8, 103u8, 104u8, 116u8, 103u8, 111u8, 108u8, 100u8, 101u8, 110u8, 114u8, 111u8, 100u8, 121u8, 101u8, 108u8, 108u8, 111u8, 119u8],
            ColorLiteral::OldLace => seq![111u8, 108u8, 100u8, 108u8, 97u8, 99u8, 101u8],
            ColorLiteral::PeachPuff => seq![112u8, 101u8, 97u8, 99u8, 104u8, 112u8, 117u8, 102u8, 102u8],
            ColorLiteral::NavajoWhite => seq![110u8, 97u8, 118u8, 97u8, 106u8, 111u8, 119u8, 104u8, 105u8, 116u8, 101u8],
            ColorLiteral::Moccasin => seq![109u8, 111u8, 99u8, 99u8, 97u8, 115u8, 105u8, 110u8],
            ColorLiteral::Bisque => seq![98u8, 105u8, 115u8, 113u8, 117u8, 101u8],
            ColorLiteral::BlanchedAlmond => seq![98u8, 108u8, 97u8, 110u8, 99u8, 104u8, 101u8, 100u8, 97u8, 108u8, 109u8, 111u8, 110u8, 100u8],
            ColorLiteral::PapayaWhip => seq![112u8, 97u8, 112u8, 97u8, 121u8, 97u8, 119u8, 104u8, 105u8, 112u8],
            ColorLiteral::LemonChiffon => seq![108u8, 101u8, 109u8, 111u8, 110u8, 99u8, 104u8, 105u8, 102u8, 102u8, 111u8, 110u8],
            ColorLiteral::LightYellow => seq![108u8, 105u8, 103u8, 104u8, 116u8, 121u8, 101u8, 108u8, 108u8, 111u8, 119u8],
            ColorLiteral::Cornsilk => seq![99u8, 111u8, 114u8, 110u8, 115u8, 105u8, 108u8, 107u8],
            ColorLiteral::MistyRose => seq![109u8, 105u8, 115u8, 116u8, 121u8, 114u8, 111u8, 115u8, 101u8],
            ColorLiteral::FloralWhite => seq![102u8, 108u8, 111u8, 114u8, 97u8, 108u8, 119u8, 104u8, 105u8, 116u8, 101u8],
            ColorLiteral::SeaShell => seq![115u8, 101u8, 97u8, 115u8, 104u8, 101u8, 108u8, 108u8],
            ColorLiteral::Snow => seq![115u8, 110u8, 111u8, 119u8],
            ColorLiteral::Ivory => seq![105u8, 118u8, 111u8, 114u8, 121u8],
            ColorLiteral::White => seq![119u8, 104u8, 105u8, 116u8, 101u8],
            ColorLiteral::Black => seq![98u8, 108u8, 97u8, 99u8, 107u8],
            ColorLiteral::DimGray => seq![100u8, 105u8, 109u8, 103u8, 114u8, 97u8, 121u8],
            ColorLiteral::DarkGray => seq![100u8, 97u8, 114u8, 107u8, 103u8, 114u8, 97u8, 121u8],
            ColorLiteral::Gray => seq![103u8, 114u8, 97u8, 121u8],
            ColorLiteral::Silver => seq![115u8, 105u8, 108u8, 118u8, 101u8, 114u8],
            ColorLiteral::LightGray => seq![108u8, 105u8, 103u8, 104u8, 116u8, 103u8, 114u8, 97u8, 121u8],
            ColorLiteral::Gainsboro => seq![103u8, 97u8, 105u8, 110u8, 115u8, 98u8, 111u8, 114u8, 111u8],
            ColorLiteral::WhiteSmoke => seq![119u8, 104u8, 105u8, 116u8, 101u8, 115u8, 109u8, 111u8, 107u8, 101u8],
            ColorLiteral::DarkSlateGray => seq![100u8, 97u8, 114u8, 107u8, 115u8, 108u8, 97u8, 116u8, 101u8, 103u8, 114u8, 97u8, 121u8],
            ColorLiteral::SlateGray => seq![115u8, 108u8, 97u8, 116u8, 101u8, 103u8, 114u8, 97u8, 121u8],
            ColorLiteral::LightSlateGray => seq![108u8, 105u8, 103u8, 104u8, 116u8, 115u8, 108u8, 97u8, 116u8, 101u8, 103u8, 114u8, 97u8, 121u8],
            ColorLiteral::DarkGreen => seq![100u8, 97u8, 114u8, 107u8, 103u8, 114u8, 101u8, 101u8, 110u8],
            ColorLiteral::Green => seq![103u8, 114u8, 101u8, 101u8, 110u8],
            ColorLiteral::ForestGreen => seq![102u8, 111u8, 114u8, 101u8, 115u8, 116u8, 103u8, 114u8, 101u8, 101u8, 110u8],
            ColorLiteral::DarkSeaGreen => seq![100u8, 97u8, 114u8, 107u8, 115u8, 101u8, 97u8, 103u8, 114u8, 101u8, 101u8, 110u8],
            ColorLiteral::SeaGreen => seq![115u8, 101u8, 97u8, 103u8, 114u8, 101u8, 101u8, 110u8],
            ColorLiteral::MediumSeaGreen => seq![109u8, 101u8, 100u8, 105u8, 117u8, 109u8, 115u8, 101u8, 97u8, 103u8, 114u8, 101u8, 101u8, 110u8],
            ColorLiteral::LightSeaGreen => seq![108u8, 105u8, 103u8, 104u8, 116u8, 115u8, 101u8, 97u8, 103u8, 114u8, 101u8, 101u8, 110u8],
            ColorLiteral::LimeGreen => seq![108u8, 105u8, 109u8, 101u8, 103u8, 114u8, 101u8, 101u8, 110u8],
            ColorLiteral::Lime => seq![108u8, 105u8, 109u8, 101u8],
            ColorLiteral::Chartreuse => seq![99u8, 104u8, 97u8, 114u8, 116u8, 114u8, 101u8, 117u8, 115u8, 101u8],
            ColorLiteral::LawnGreen => seq![108u8, 97u8, 119u8, 110u8, 103u8, 114u8, 101u8, 101u8, 110u8],
            ColorLiteral::SpringGreen => seq![115u8, 112u8, 114u8, 105u8, 110u8, 103u8, 103u8, 114u8, 101u8, 101u8, 110u8],
            ColorLiteral::MediumSpringGreen => seq![109u8, 101u8, 100u8, 105u8, 117u8, 109u8, 115u8, 112u8, 114u8, 105u8, 110u8, 103u8, 103u8, 114u8, 101u8, 101u8, 110u8],
            ColorLiteral::DarkOliveGreen => seq![100u8, 97u8, 114u8, 107u8, 111u8, 108u8, 105u8, 118u8, 101u8, 103u8, 114u8, 101u8, 101u8, 110u8],
            ColorLiteral::OliveDrab => seq![111u8, 108u8, 105u8, 118u8, 101u8, 100u8, 114u8, 97u8, 98u8],
            ColorLiteral::Olive => seq![111u8, 108u8, 105u8, 118u8, 101u8],
            ColorLiteral::YellowGreen => seq![121u8, 101u8, 108u8, 108u8, 111u8, 119u8, 103u8, 114u8, 101u8, 101u8, 110u8],
            ColorLiteral::GreenYellow => seq![103u8, 114u8, 101u8, 101u8, 110u8, 121u8, 101u8, 108u8, 108u8, 111u8, 119u8],
            ColorLiteral::PaleGreen => seq![112u8, 97u8, 108u8, 101u8, 103u8, 114u8, 101u8, 101u8, 110u8],
            ColorLiteral::LightGreen => seq![108u8, 105u8, 103u8, 104u8, 116u8, 103u8, 114u8, 101u8, 101u8, 110u8],
            ColorLiteral::HoneyDew => seq![104u8, 111u8, 110u8, 101u8, 121u8, 100u8, 101u8, 119u8],
            ColorLiteral::Teal => seq![116u8, 101u8, 97u8, 108u8],
            ColorLiteral::DarkCyan => seq![100u8, 97u8, 114u8, 107u8, 99u8, 121u8, 97u8, 110u8],
            ColorLiteral::CadetBlue => seq![99u8, 97u8, 100u8, 101u8, 116u8, 98u8, 108u8, 117u8, 101u8],
            ColorLiteral::DarkTurquoise => seq![100u8, 97u8, 114u8, 107u8, 116u8, 117u8, 114u8, 113u8, 117u8, 111u8, 105u8, 115u8, 101u8],
            ColorLiteral::Turquoise => seq![116u8, 117u8, 114u8, 113u8, 117u8, 111u8, 105u8, 115u8, 101u8],
            ColorLiteral::MediumTurquoise => seq![109u8, 101u8, 100u8, 105u8, 117u8, 109u8, 116u8, 117u8, 114u8, 113u8, 117u8, 111u8, 105u8, 115u8, 101u8],
            ColorLiteral::MediumAquaMarine => seq![109u8, 101u8, 100u8, 105u8, 117u8, 109u8, 97u8, 113u8, 117u8, 97u8, 109u8, 97u8, 114u8, 105u8, 110u8, 101u8],
            ColorLiteral::Aquamarine => seq![97u8, 113u8, 117u8, 97u8, 109u8, 97u8, 114u8, 105u8, 110u8, 101u8],
            ColorLiteral::MidnightBlue => seq![109u8, 105u8, 100u8, 110u8, 105u8, 103u8, 104u8, 116u8, 98u8, 108u8, 117u8, 101u8],
            ColorLiteral::Navy => seq![110u8, 97u8, 118u8, 121u8],
            ColorLiteral::DarkBlue => seq![100u8, 97u8, 114u8, 107u8, 98u8, 108u8, 117u8, 101u8],
            ColorLiteral::MediumBlue => seq![109u8, 101u8, 100u8, 105u8, 117u8, 109u8, 98u8, 108u8, 117u8, 101u8],
            ColorLiteral::RoyalBlue => seq![114u8, 111u8, 121u8, 97u8, 108u8, 98u8, 108u8, 117u8, 101u8],
            ColorLiteral::CornflowerBlue => seq![99u8, 111u8, 114u8, 110u8, 102u8, 108u8, 111u8, 119u8, 101u8, 114u8, 98u8, 108u8, 117u8, 101u8],
            ColorLiteral::SteelBlue => seq![115u8, 116u8, 101u8, 101u8, 108u8, 98u8, 108u8, 117u8, 101u8],
            ColorLiteral::Blue => seq![98u8, 108u8, 117u8, 101u8],
            ColorLiteral::DodgerBlue => seq![100u8, 111u8, 100u8, 103u8, 101u8, 114u8, 98u8, 108u8, 117u8, 101u8],
            ColorLiteral::PaleTurquoise => seq![112u8, 97u8, 108u8, 101u8, 116u8, 117u8, 114u8, 113u8, 117u8, 111u8, 105u8, 115u8, 101u8],
            ColorLiteral::LightSteelBlue => seq![108u8, 105u8, 103u8, 104u8, 116u8, 115u8, 116u8, 101u8, 101u8, 108u8, 98u8, 108u8, 117u8, 101u8],
            ColorLiteral::PowderBlue => seq![112u8, 111u8, 119u8, 100u8, 101u8, 114u8, 98u8, 108u8, 117u8, 101u8],
            ColorLiteral::DeepSkyBlue => seq![100u8, 101u8, 101u8, 112u8, 115u8, 107u8, 121u8, 98u8, 108u8, 117u8, 101u8],
            ColorLiteral::SkyBlue => seq![115u8, 107u8, 121u8, 98u8, 108u8, 117u8, 101u8],
            ColorLiteral::LightSkyBlue => seq![108u8, 105u8, 103u8, 104u8, 116u8, 115u8, 107u8, 121u8, 98u8, 108u8, 117u8, 101u8],
            ColorLiteral::LightBlue => seq![108u8, 105u8, 103u8, 104u8, 116u8, 98u8, 108u8, 117u8, 101u8],
            ColorLiteral::Aqua => seq![97u8, 113u8, 117u8, 97u8],
            ColorLiteral::Cyan => seq![99u8, 121u8, 97u8, 110u8],
            ColorLiteral::LightCyan => seq![108u8, 105u8, 103u8, 104u8, 116u8, 99u8, 121u8, 97u8, 110u8],
            ColorLiteral::Azure => seq![97u8, 122u8, 117u8, 114u8, 101u8],
            ColorLiteral::AliceBlue => seq![97u8, 108u8, 105u8, 99u8, 101u8, 98u8, 108u8, 117u8, 101u8],
            ColorLiteral::MintCream => seq![109u8, 105u8, 110u8, 116u8, 99u8, 114u8, 101u8, 97u8, 109u8],
            ColorLiteral::GhostWhite => seq![103u8, 104u8, 111u8, 115u8, 116u8, 119u8, 104u8, 105u8, 116u8, 101u8],
        }
    }

    open spec fn spec_canonical(s: Seq<u8>) -> Option<Seq<u8>> {
        if s == seq![109u8, 97u8, 114u8, 111u8, 111u8, 110u8] {
            Some(s)
        } else if s == seq![100u8, 97u8, 114u8, 107u8, 114u8, 101u8, 100u8] {
            Some(s)
        } else if s == seq![98u8, 114u8, 111u8, 119u8, 110u8] {
            Some(s)
        } else if s == seq![102u8, 105u8, 114u8, 101u8, 98u8, 114u8, 105u8, 99u8, 107u8] {
            Some(s)
        } else if s == seq![99u8, 114u8, 105u8, 109u8, 115u8, 111u8, 110u8] {
            Some(s)
        } else if s == seq![114u8, 101u8, 100u8] {
            Some(s)
        } else if s == seq![105u8, 110u8, 100u8, 105u8, 97u8, 110u8, 114u8, 101u8, 100u8] {
            Some(s)
        } else if s == seq![115u8, 97u8, 100u8, 100u8, 108u8, 101u8, 98u8, 114u8, 111u8, 119u8, 110u8] {
            Some(s)
        } else if s == seq![115u8, 105u8, 101u8, 110u8, 110u8, 97u8] {
            Some(s)
        } else if s == seq![114u8, 111u8, 115u8, 121u8, 98u8, 114u8, 111u8, 119u8, 110u8] {
            Some(s)
        } else if s == seq![99u8, 104u8, 111u8, 99u8, 111u8, 108u8, 97u8, 116u8, 101u8] {
            Some(s)
        } else if s == seq![112u8, 101u8, 114u8, 117u8] {
            Some(s)
        } else if s == seq![100u8, 97u8, 114u8, 107u8, 103u8, 111u8, 108u8, 100u8, 101u8, 110u8, 114u8, 111u8, 100u8] {
            Some(s)
        } else if s == seq![100u8, 97u8, 114u8, 107u8, 115u8, 97u8, 108u8, 109u8, 111u8, 110u8] {
            Some(s)
        } else if s == seq![108u8, 105u8, 103u8, 104u8, 116u8, 99u8, 111u8, 114u8, 97u8, 108u8] {
            Some(s)
        } else if s == seq![103u8, 111u8, 108u8, 100u8, 101u8, 110u8, 114u8, 111u8, 100u8] {
            Some(s)
        } else if s == seq![116u8, 97u8, 110u8] {
            Some(s)
        } else if s == seq![100u8, 97u8, 114u8, 107u8, 107u8, 104u8, 97u8, 107u8, 105u8] {
            Some(s)
        } else if s == seq![98u8, 117u8, 114u8, 108u8, 121u8, 119u8, 111u8, 111u8, 100u8] {
            Some(s)
        } else if s == seq![112u8, 97u8, 108u8, 101u8, 103u8, 111u8, 108u8, 100u8, 101u8, 110u8, 114u8, 111u8, 100u8] {
            Some(s)
        } else if s == seq![115u8, 97u8, 110u8, 100u8, 121u8, 98u8, 114u8, 111u8, 119u8, 110u8] {
            Some(s)
        } else if s == seq![115u8, 97u8, 108u8, 109u8, 111u8, 110u8] {
            Some(s)
        } else if s == seq![111u8, 114u8, 97u8, 110u8, 103u8, 101u8, 114u8, 101u8, 100u8] {
            Some(s)
        } else if s == seq![116u8, 111u8, 109u8, 97u8, 116u8, 111u8] {
            Some(s)
        } else if s == seq![99u8, 111u8, 114u8, 97u8, 108u8] {
            Some(s)
        } else if s == seq![100u8, 97u8, 114u8, 107u8, 111u8, 114u8, 97u8, 110u8, 103u8, 101u8] {
            Some(s)
        } else if s == seq![108u8, 105u8, 103u8, 104u8, 116u8, 115u8, 97u8, 108u8, 109u8, 111u8, 110u8] {
            Some(s)
        } else if s == seq![111u8, 114u8, 97u8, 110u8, 103u8, 101u8] {
            Some(s)
        } else if s == seq![103u8, 111u8, 108u8, 100u8] {
            Some(s)
        } else if s == seq![121u8, 101u8, 108u8, 108u8, 111u8, 119u8] {
            Some(s)
        } else if s == seq![107u8, 104u8, 97u8, 107u8, 105u8] {
            Some(s)
        } else if s == seq![119u8, 104u8, 101u8, 97u8, 116u8] {
            Some(s)
        } else if s == seq![98u8, 101u8, 105u8, 103u8, 101u8] {
            Some(s)
        } else if s == seq![97u8, 110u8, 116u8, 105u8, 113u8, 117u8, 101u8, 119u8, 104u8, 105u8, 116u8, 101u8] {
            Some(s)
        } else if s == seq![108u8, 105u8, 110u8, 101u8, 110u8] {
            Some(s)
        } else if s == seq![108u8, 105u8, 103u8, 104u8, 116u8, 103u8, 111u8, 108u8, 100u8, 101u8, 110u8, 114u8, 111u8, 100u8, 121u8, 101u8, 108u8, 108u8, 111u8, 119u8] {
            Some(s)
        } else if s == seq![111u8, 108u8, 100u8, 108u8, 97u8, 99u8, 101u8] {
            Some(s)
        } else if s == seq![112u8, 101u8, 97u8, 99u8, 104u8, 112u8, 117u8, 102u8, 102u8] {
            Some(s)
        } else if s == seq![110u8, 97u8, 118u8, 97u8, 106u8, 111u8, 119u8, 104u8, 105u8, 116u8, 101u8] {
            Some(s)
        } else if s == seq![109u8, 111u8, 99u8, 99u8, 97u8, 115u8, 105u8, 110u8] {
            Some(s)
        } else if s == seq![98u8, 105u8, 115u8, 113u8, 117u8, 101u8] {
            Some(s)
        } else if s == seq![98u8, 108u8, 97u8, 110u8, 99u8, 104u8, 101u8, 100u8, 97u8, 108u8, 109u8, 111u8, 110u8, 100u8] {
            Some(s)
        } else if s == seq![112u8, 97u8, 112u8, 97u8, 121u8, 97u8, 119u8, 104u8, 105u8, 112u8] {
            Some(s)
        } else if s == seq![108u8, 101u8, 109u8, 111u8, 110u8, 99u8, 104u8, 105u8, 102u8, 102u8, 111u8, 110u8] {
            Some(s)
        } else if s == seq![108u8, 105u8, 103u8, 104u8, 116u8, 121u8, 101u8, 108u8, 108u8, 111u8, 119u8] {
            Some(s)
        } else if s == seq![99u8, 111u8, 114u8, 110u8, 115u8, 105u8, 108u8, 107u8] {
            Some(s)
        } else if s == seq![109u8, 105u8, 115u8, 116u8, 121u8, 114u8, 111u8, 115u8, 101u8] {
            Some(s)
        } else if s == seq![102u8, 108u8, 111u8, 114u8, 97u8, 108u8, 119u8, 104u8, 105u8, 116u8, 101u8] {
            Some(s)
        } else if s == seq![115u8, 101u8, 97u8, 115u8, 104u8, 101u8, 108u8, 108u8] {
            Some(s)
        } else if s == seq![115u8, 110u8, 111u8, 119u8] {
            Some(s)
        } else if s == seq![105u8, 118u8, 111u8, 114u8, 121u8] {
            Some(s)
        } else if s == seq![119u8, 104u8, 105u8, 116u8, 101u8] {
            Some(s)
        } else if s == seq![98u8, 108u8, 97u8, 99u8, 107u8] {
            Some(s)
        } else if s == seq![100u8, 105u8, 109u8, 103u8, 114u8, 97u8, 121u8] {
            Some(s)
        } else if s == seq![100u8, 97u8, 114u8, 107u8, 103u8, 114u8, 97u8, 121u8] {
            Some(s)
        } else if s == seq![103u8, 114u8, 97u8, 121u8] {
            Some(s)
        } else if s == seq![115u8, 105u8, 108u8, 118u8, 101u8, 114u8] {
            Some(s)
        } else if s == seq![108u8, 105u8, 103u8, 104u8, 116u8, 103u8, 114u8, 97u8, 121u8] {
            Some(s)
        } else if s == seq![103u8, 97u8, 105u8, 110u8, 115u8, 98u8, 111u8, 114u8, 111u8] {
            Some(s)
        } else if s == seq![119u8, 104u8, 105u8, 116u8, 101u8, 115u8, 109u8, 111u8, 107u8, 101u8] {
            Some(s)
        } else if s == seq![100u8, 97u8, 114u8, 107u8, 115u8, 108u8, 97u8, 116u8, 101u8, 103u8, 114u8, 97u8, 121u8] {
            Some(s)
        } else if s == seq![115u8, 108u8, 97u8, 116u8, 101u8, 103u8, 114u8, 97u8, 121u8] {
            Some(s)
        } else if s == seq![108u8, 105u8, 103u8, 104u8, 116u8, 115u8, 108u8, 97u8, 116u8, 101u8, 103u8, 114u8, 97u8, 121u8] {
            Some(s)
        } else if s == seq![100u8, 97u8, 114u8, 107u8, 103u8, 114u8, 101u8, 101u8, 110u8] {
            Some(s)
        } else if s == seq![103u8, 114u8, 101u8, 101u8, 110u8] {
            Some(s)
        } else if s == seq![102u8, 111u8, 114u8, 101u8, 115u8, 116u8, 103u8, 114u8, 101u8, 101u8, 110u8] {
            Some(s)
        } else if s == seq![100u8, 97u8, 114u8, 107u8, 115u8, 101u8, 97u8, 103u8, 114u8, 101u8, 101u8, 110u8] {
            Some(s)
        } else if s == seq![115u8, 101u8, 97u8, 103u8, 114u8, 101u8, 101u8, 110u8] {
            Some(s)
        } else if s == seq![109u8, 101u8, 100u8, 105u8, 117u8, 109u8, 115u8, 101u8, 97u8, 103u8, 114u8, 101u8, 101u8, 110u8] {
            Some(s)
        } else if s == seq![108u8, 105u8, 103u8, 104u8, 116u8, 115u8, 101u8, 97u8, 103u8, 114u8, 101u8, 101u8, 110u8] {
            Some(s)
        } else if s == seq![108u8, 105u8, 109u8, 101u8, 103u8, 114u8, 101u8, 101u8, 110u8] {
            Some(s)
        } else if s == seq![108u8, 105u8, 109u8, 101u8] {
            Some(s)
        } else if s == seq![99u8, 104u8, 97u8, 114u8, 116u8, 114u8, 101u8, 117u8, 115u8, 101u8] {
            Some(s)
        } else if s == seq![108u8, 97u8, 119u8, 110u8, 103u8, 114u8, 101u8, 101u8, 110u8] {
            Some(s)
        } else if s == seq![115u8, 112u8, 114u8, 105u8, 110u8, 103u8, 103u8, 114u8, 101u8, 101u8, 110u8] {
            Some(s)
        } else if s == seq![109u8, 101u8, 100u8, 105u8, 117u8, 109u8, 115u8, 112u8, 114u8, 105u8, 110u8, 103u8, 103u8, 114u8, 101u8, 101u8, 110u8] {
            Some(s)
        } else if s == seq![100u8, 97u8, 114u8, 107u8, 111u8, 108u8, 105u8, 118u8, 101u8, 103u8, 114u8, 101u8, 101u8, 110u8] {
            Some(s)
        } else if s == seq![111u8, 108u8, 105u8, 118u8, 101u8, 100u8, 114u8, 97u8, 98u8] {
            Some(s)
        } else if s == seq![111u8, 108u8, 105u8, 118u8, 101u8] {
            Some(s)
        } else if s == seq![121u8, 101u8, 108u8, 108u8, 111u8, 119u8, 103u8, 114u8, 101u8, 101u8, 110u8] {
            Some(s)
        } else if s == seq![103u8, 114u8, 101u8, 101u8, 110u8, 121u8, 101u8, 108u8, 108u8, 111u8, 119u8] {
            Some(s)
        } else if s == seq![112u8, 97u8, 108u8, 101u8, 103u8, 114u8, 101u8, 101u8, 110u8] {
            Some(s)
        } else if s == seq![108u8, 105u8, 103u8, 104u8, 116u8, 103u8, 114u8, 101u8, 101u8, 110u8] {
            Some(s)
        } else if s == seq![104u8, 111u8, 110u8, 101u8, 121u8, 100u8, 101u8, 119u8] {
            Some(s)
        } else if s == seq![116u8, 101u8, 97u8, 108u8] {
            Some(s)
        } else if s == seq![100u8, 97u8, 114u8, 107u8, 99u8, 121u8, 97u8, 110u8] {
            Some(s)
        } else if s == seq![99u8, 97u8, 100u8, 101u8, 116u8, 98u8, 108u8, 117u8, 101u8] {
            Some(s)
        } else if s == seq![100u8, 97u8, 114u8, 107u8, 116u8, 117u8, 114u8, 113u8, 117u8, 111u8, 105u8, 115u8, 101u8] {
            Some(s)
        } else if s == seq![116u8, 117u8, 114u8, 113u8, 117u8, 111u8, 105u8, 115u8, 101u8] {
            Some(s)
        } else if s == seq![109u8, 101u8, 100u8, 105u8, 117u8, 109u8, 116u8, 117u8, 114u8, 113u8, 117u8, 111u8, 105u8, 115u8, 101u8] {
            Some(s)
        } else if s == seq![109u8, 101u8, 100u8, 105u8, 117u8, 109u8, 97u8, 113u8, 117u8, 97u8, 109u8, 97u8, 114u8, 105u8, 110u8, 101u8] {
            Some(s)
        } else if s == seq![97u8, 113u8, 117u8, 97u8, 109u8, 97u8, 114u8, 105u8, 110u8, 101u8] {
            Some(s)
        } else if s == seq![109u8, 105u8, 100u8, 110u8, 105u8, 103u8, 104u8, 116u8, 98u8, 108u8, 117u8, 101u8] {
            Some(s)
        } else if s == seq![110u8, 97u8, 118u8, 121u8] {
            Some(s)
        } else if s == seq![100u8, 97u8, 114u8, 107u8, 98u8, 108u8, 117u8, 101u8] {
            Some(s)
        } else if s == seq![109u8, 101u8, 100u8, 105u8, 117u8, 109u8, 98u8, 108u8, 117u8, 101u8] {
            Some(s)
        } else if s == seq![114u8, 111u8, 121u8, 97u8, 108u8, 98u8, 108u8, 117u8, 101u8] {
            Some(s)
        } else if s == seq![99u8, 111u8, 114u8, 110u8, 102u8, 108u8, 111u8, 119u8, 101u8, 114u8, 98u8, 108u8, 117u8, 101u8] {
            Some(s)
        } else if s == seq![115u8, 116u8, 101u8, 101u8, 108u8, 98u8, 108u8, 117u8, 101u8] {
            Some(s)
        } else if s == seq![98u8, 108u8, 117u8, 101u8] {
            Some(s)
        } else if s == seq![100u8, 111u8, 100u8, 103u8, 101u8, 114u8, 98u8, 108u8, 117u8, 101u8] {
            Some(s)
        } else if s == seq![112u8, 97u8, 108u8, 101u8, 116u8, 117u8, 114u8, 113u8, 117u8, 111u8, 105u8, 115u8, 101u8] {
            Some(s)
        } else if s == seq![108u8, 105u8, 103u8, 104u8, 116u8, 115u8, 116u8, 101u8, 101u8, 108u8, 98u8, 108u8, 117u8, 101u8] {
            Some(s)
        } else if s == seq![112u8, 111u8, 119u8, 100u8, 101u8, 114u8, 98u8, 108u8, 117u8, 101u8] {
            Some(s)
        } else if s == seq![100u8, 101u8, 101u8, 112u8, 115u8, 107u8, 121u8, 98u8, 108u8, 117u8, 101u8] {
            Some(s)
        } else if s == seq![115u8, 107u8, 121u8, 98u8, 108u8, 117u8, 101u8] {
            Some(s)
        } else if s == seq![108u8, 105u8, 103u8, 104u8, 116u8, 115u8, 107u8, 121u8, 98u8, 108u8, 117u8, 101u8] {
            Some(s)
        } else if s == seq![108u8, 105u8, 103u8, 104u8, 116u8, 98u8, 108u8, 117u8, 101u8] {
            Some(s)
        } else if s == seq![97u8, 113u8, 117u8, 97u8] {
            Some(s)
        } else if s == seq![99u8, 121u8, 97u8, 110u8] {
            Some(s)
        } else if s == seq![108u8, 105u8, 103u8, 104u8, 116u8, 99u8, 121u8, 97u8, 110u8] {
            Some(s)
        } else if s == seq![97u8, 122u8, 117u8, 114u8, 101u8] {
            Some(s)
        } else if s == seq![97u8, 108u8, 105u8, 99u8, 101u8, 98u8, 108u8, 117u8, 101u8] {
            Some(s)
        } else if s == seq![109u8, 105u8, 110u8, 116u8, 99u8, 114u8, 101u8, 97u8, 109u8] {
            Some(s)
        } else if s == seq![103u8, 104u8, 111u8, 115u8, 116u8, 119u8, 104u8, 105u8, 116u8, 101u8] {
            Some(s)
        } else {
            None
        }
    }

    #[verifier::rlimit(100)]
    fn parse(s: &[u8]) -> (r: Option<ColorLiteral>) {
        if bytes_eq(s, &[109u8, 97u8, 114u8, 111u8, 111u8, 110u8]) {
            return Some(ColorLiteral::Maroon);
        }
        if bytes_eq(s, &[100u8, 97u8, 114u8, 107u8, 114u8, 101u8, 100u8]) {
            return Some(ColorLiteral::DarkRed);
        }
        if bytes_eq(s, &[98u8, 114u8, 111u8, 119u8, 110u8]) {
            return Some(ColorLiteral::Brown);
        }
        if bytes_eq(s, &[102u8, 105u8, 114u8, 101u8, 98u8, 114u8, 105u8, 99u8, 107u8]) {
            return Some(ColorLiteral::FireBrick);
        }
        if bytes_eq(s, &[99u8, 114u8, 105u8, 109u8, 115u8, 111u8, 110u8]) {
            return Some(ColorLiteral::Crimson);
        }
        if bytes_eq(s, &[114u8, 101u8, 100u8]) {
            return Some(ColorLiteral::Red);
        }
        if bytes_eq(s, &[105u8, 110u8, 100u8, 105u8, 97u8, 110u8, 114u8, 101u8, 100u8]) {
            return Some(ColorLiteral::IndianRed);
        }
        if bytes_eq(s, &[115u8, 97u8, 100u8, 100u8, 108u8, 101u8, 98u8, 114u8, 111u8, 119u8, 110u8]) {
            return Some(ColorLiteral::SaddleBrown);
        }
        if bytes_eq(s, &[115u8, 105u8, 101u8, 110u8, 110u8, 97u8]) {
            return Some(ColorLiteral::Sienna);
        }
        if bytes_eq(s, &[114u8, 111u8, 115u8, 121u8, 98u8, 114u8, 111u8, 119u8, 110u8]) {
            return Some(ColorLiteral::RosyBrown);
        }
        if bytes_eq(s, &[99u8, 104u8, 111u8, 99u8, 111u8, 108u8, 97u8, 116u8, 101u8]) {
            return Some(ColorLiteral::Chocolate);
        }
        if bytes_eq(s, &[112u8, 101u8, 114u8, 117u8]) {
            return Some(ColorLiteral::Peru);
        }
        if bytes_eq(s, &[100u8, 97u8, 114u8, 107u8, 103u8, 111u8, 108u8, 100u8, 101u8, 110u8, 114u8, 111u8, 100u8]) {
            return Some(ColorLiteral::DarkGoldenRod);
        }
        if bytes_eq(s, &[100u8, 97u8, 114u8, 107u8, 115u8, 97u8, 108u8, 109u8, 111u8, 110u8]) {
            return Some(ColorLiteral::DarkSalmon);
        }
        if bytes_eq(s, &[108u8, 105u8, 103u8, 104u8, 116u8, 99u8, 111u8, 114u8, 97u8, 108u8]) {
            return Some(ColorLiteral::LightCoral);
        }
        if bytes_eq(s, &[103u8, 111u8, 108u8, 100u8, 101u8, 110u8, 114u8, 111u8, 100u8]) {
            return Some(ColorLiteral::GoldenRod);
        }
        if bytes_eq(s, &[116u8, 97u8, 110u8]) {
            return Some(ColorLiteral::Tan);
        }
        if bytes_eq(s, &[100u8, 97u8, 114u8, 107u8, 107u8, 104u8, 97u8, 107u8, 105u8]) {
            return Some(ColorLiteral::DarkKhaki);
        }
        if bytes_eq(s, &[98u8, 117u8, 114u8, 108u8, 121u8, 119u8, 111u8, 111u8, 100u8]) {
            return Some(ColorLiteral::BurlyWood);
        }
        if bytes_eq(s, &[112u8, 97u8, 108u8, 101u8, 103u8, 111u8, 108u8, 100u8, 101u8, 110u8, 114u8, 111u8, 100u8]) {
            return Some(ColorLiteral::PaleGoldenRod);
        }
        if bytes_eq(s, &[115u8, 97u8, 110u8, 100u8, 121u8, 98u8, 114u8, 111u8, 119u8, 110u8]) {
            return Some(ColorLiteral::SandyBrown);
        }
        if bytes_eq(s, &[115u8, 97u8, 108u8, 109u8, 111u8, 110u8]) {
            return Some(ColorLiteral::Salmon);
        }
        if bytes_eq(s, &[111u8, 114u8, 97u8, 110u8, 103u8, 101u8, 114u8, 101u8, 100u8]) {
            return Some(ColorLiteral::OrangeRed);
        }
        if bytes_eq(s, &[116u8, 111u8, 109u8, 97u8, 116u8, 111u8]) {
            return Some(ColorLiteral::Tomato);
        }
        if bytes_eq(s, &[99u8, 111u8, 114u8, 97u8, 108u8]) {
            return Some(ColorLiteral::Coral);
        }
        if bytes_eq(s, &[100u8, 97u8, 114u8, 107u8, 111u8, 114u8, 97u8, 110u8, 103u8, 101u8]) {
            return Some(ColorLiteral::DarkOrange);
        }
        if bytes_eq(s, &[108u8, 105u8, 103u8, 104u8, 116u8, 115u8, 97u8, 108u8, 109u8, 111u8, 110u8]) {
            return Some(ColorLiteral::LightSalmon);
        }
        if bytes_eq(s, &[111u8, 114u8, 97u8, 110u8, 103u8, 101u8]) {
            return Some(ColorLiteral::Orange);
        }
        if bytes_eq(s, &[103u8, 111u8, 108u8, 100u8]) {
            return Some(ColorLiteral::Gold);
        }
        if bytes_eq(s, &[121u8, 101u8, 108u8, 108u8, 111u8, 119u8]) {
            return Some(ColorLiteral::Yellow);
        }
        if bytes_eq(s, &[107u8, 104u8, 97u8, 107u8, 105u8]) {
            return Some(ColorLiteral::Khaki);
        }
        if bytes_eq(s, &[119u8, 104u8, 101u8, 97u8, 116u8]) {
            return Some(ColorLiteral::Wheat);
        }
        if bytes_eq(s, &[98u8, 101u8, 105u8, 103u8, 101u8]) {
            return Some(ColorLiteral::Beige);
        }
        if bytes_eq(s, &[97u8, 110u8, 116u8, 105u8, 113u8, 117u8, 101u8, 119u8, 104u8, 105u8, 116u8, 101u8]) {
            return Some(ColorLiteral::AntiqueWhite);
        }
        if bytes_eq(s, &[108u8, 105u8, 110u8, 101u8, 110u8]) {
            return Some(ColorLiteral::Linen);
        }
        if bytes_eq(s, &[108u8, 105u8, 103u8, 104u8, 116u8, 103u8, 111u8, 108u8, 100u8, 101u8, 110u8, 114u8, 111u8, 100u8, 121u8, 101u8, 108u8, 108u8, 111u8, 119u8]) {
            return Some(ColorLiteral::LightGoldenRodYellow);
        }
        if bytes_eq(s, &[111u8, 108u8, 100u8, 108u8, 97u8, 99u8, 101u8]) {
            return Some(ColorLiteral::OldLace);
        }
        if bytes_eq(s, &[112u8, 101u8, 97u8, 99u8, 104u8, 112u8, 117u8, 102u8, 102u8]) {
            return Some(ColorLiteral::PeachPuff);
        }
        if bytes_eq(s, &[110u8, 97u8, 118u8, 97u8, 106u8, 111u8, 119u8, 104u8, 105u8, 116u8, 101u8]) {
            return Some(ColorLiteral::NavajoWhite);
        }
        if bytes_eq(s, &[109u8, 111u8, 99u8, 99u8, 97u8, 115u8, 105u8, 110u8]) {
            return Some(ColorLiteral::Moccasin);
        }
        if bytes_eq(s, &[98u8, 105u8, 115u8, 113u8, 117u8, 101u8]) {
            return Some(ColorLiteral::Bisque);
        }
        if bytes_eq(s, &[98u8, 108u8, 97u8, 110u8, 99u8, 104u8, 101u8, 100u8, 97u8, 108u8, 109u8, 111u8, 110u8, 100u8]) {
            return Some(ColorLiteral::BlanchedAlmond);
        }
        if bytes_eq(s, &[112u8, 97u8, 112u8, 97u8, 121u8, 97u8, 119u8, 104u8, 105u8, 112u8]) {
            return Some(ColorLiteral::PapayaWhip);
        }
        if bytes_eq(s, &[108u8, 101u8, 109u8, 111u8, 110u8, 99u8, 104u8, 105u8, 102u8, 102u8, 111u8, 110u8]) {
            return Some(ColorLiteral::LemonChiffon);
        }
        if bytes_eq(s, &[108u8, 105u8, 103u8, 104u8, 116u8, 121u8, 101u8, 108u8, 108u8, 111u8, 119u8]) {
            return Some(ColorLiteral::LightYellow);
        }
        if bytes_eq(s, &[99u8, 111u8, 114u8, 110u8, 115u8, 105u8, 108u8, 107u8]) {
            return Some(ColorLiteral::Cornsilk);
        }
        if bytes_eq(s, &[109u8, 105u8, 115u8, 116u8, 121u8, 114u8, 111u8, 115u8, 101u8]) {
            return Some(ColorLiteral::MistyRose);
        }
        if bytes_eq(s, &[102u8, 108u8, 111u8, 114u8, 97u8, 108u8, 119u8, 104u8, 105u8, 116u8, 101u8]) {
            return Some(ColorLiteral::FloralWhite);
        }
        if bytes_eq(s, &[115u8, 101u8, 97u8, 115u8, 104u8, 101u8, 108u8, 108u8]) {
            return Some(ColorLiteral::SeaShell);
        }
        if bytes_eq(s, &[115u8, 110u8, 111u8, 119u8]) {
            return Some(ColorLiteral::Snow);
        }
        if bytes_eq(s, &[105u8, 118u8, 111u8, 114u8, 121u8]) {
            return Some(ColorLiteral::Ivory);
        }
        if bytes_eq(s, &[119u8, 104u8, 105u8, 116u8, 101u8]) {
            return Some(ColorLiteral::White);
        }
        if bytes_eq(s, &[98u8, 108u8, 97u8, 99u8, 107u8]) {
            return Some(ColorLiteral::Black);
        }
        if bytes_eq(s, &[100u8, 105u8, 109u8, 103u8, 114u8, 97u8, 121u8]) {
            return Some(ColorLiteral::DimGray);
        }
        if bytes_eq(s, &[100u8, 97u8, 114u8, 107u8, 103u8, 114u8, 97u8, 121u8]) {
            return Some(ColorLiteral::DarkGray);
        }
        if bytes_eq(s, &[103u8, 114u8, 97u8, 121u8]) {
            return Some(ColorLiteral::Gray);
        }
        if bytes_eq(s, &[115u8, 105u8, 108u8, 118u8, 101u8, 114u8]) {
            return Some(ColorLiteral::Silver);
        }
        if bytes_eq(s, &[108u8, 105u8, 103u8, 104u8, 116u8, 103u8, 114u8, 97u8, 121u8]) {
            return Some(ColorLiteral::LightGray);
        }
        if bytes_eq(s, &[103u8, 97u8, 105u8, 110u8, 115u8, 98u8, 111u8, 114u8, 111u8]) {
            return Some(ColorLiteral::Gainsboro);
        }
        if bytes_eq(s, &[119u8, 104u8, 105u8, 116u8, 101u8, 115u8, 109u8, 111u8, 107u8, 101u8]) {
            return Some(ColorLiteral::WhiteSmoke);
        }
        if bytes_eq(s, &[100u8, 97u8, 114u8, 107u8, 115u8, 108u8, 97u8, 116u8, 101u8, 103u8, 114u8, 97u8, 121u8]) {
            return Some(ColorLiteral::DarkSlateGray);
        }
        if bytes_eq(s, &[115u8, 108u8, 97u8, 116u8, 101u8, 103u8, 114u8, 97u8, 121u8]) {
            return Some(ColorLiteral::SlateGray);
        }
        if bytes_eq(s, &[108u8, 105u8, 103u8, 104u8, 116u8, 115u8, 108u8, 97u8, 116u8, 101u8, 103u8, 114u8, 97u8, 121u8]) {
            return Some(ColorLiteral::LightSlateGray);
        }
        if bytes_eq(s, &[100u8, 97u8, 114u8, 107u8, 103u8, 114u8, 101u8, 101u8, 110u8]) {
            return Some(ColorLiteral::DarkGreen);
        }
        if bytes_eq(s, &[103u8, 114u8, 101u8, 101u8, 110u8]) {
            return Some(ColorLiteral::Green);
        }
        if bytes_eq(s, &[102u8, 111u8, 114u8, 101u8, 115u8, 116u8, 103u8, 114u8, 101u8, 101u8, 110u8]) {
            return Some(ColorLiteral::ForestGreen);
        }
        if bytes_eq(s, &[100u8, 97u8, 114u8, 107u8, 115u8, 101u8, 97u8, 103u8, 114u8, 101u8, 101u8, 110u8]) {
            return Some(ColorLiteral::DarkSeaGreen);
        }
        if bytes_eq(s, &[115u8, 101u8, 97u8, 103u8, 114u8, 101u8, 101u8, 110u8]) {
            return Some(ColorLiteral::SeaGreen);
        }
        if bytes_eq(s, &[109u8, 101u8, 100u8, 105u8, 117u8, 109u8, 115u8, 101u8, 97u8, 103u8, 114u8, 101u8, 101u8, 110u8]) {
            return Some(ColorLiteral::MediumSeaGreen);
        }
        if bytes_eq(s, &[108u8, 105u8, 103u8, 104u8, 116u8, 115u8, 101u8, 97u8, 103u8, 114u8, 101u8, 101u8, 110u8]) {
            return Some(ColorLiteral::LightSeaGreen);
        }
        if bytes_eq(s, &[108u8, 105u8, 109u8, 101u8, 103u8, 114u8, 101u8, 101u8, 110u8]) {
            return Some(ColorLiteral::LimeGreen);
        }
        if bytes_eq(s, &[108u8, 105u8, 109u8, 101u8]) {
            return Some(ColorLiteral::Lime);
        }
        if bytes_eq(s, &[99u8, 104u8, 97u8, 114u8, 116u8, 114u8, 101u8, 117u8, 115u8, 101u8]) {
            return Some(ColorLiteral::Chartreuse);
        }
        if bytes_eq(s, &[108u8, 97u8, 119u8, 110u8, 103u8, 114u8, 101u8, 101u8, 110u8]) {
            return Some(ColorLiteral::LawnGreen);
        }
        if bytes_eq(s, &[115u8, 112u8, 114u8, 105u8, 110u8, 103u8, 103u8, 114u8, 101u8, 101u8, 110u8]) {
            return Some(ColorLiteral::SpringGreen);
        }
        if bytes_eq(s, &[109u8, 101u8, 100u8, 105u8, 117u8, 109u8, 115u8, 112u8, 114u8, 105u8, 110u8, 103u8, 103u8, 114u8, 101u8, 101u8, 110u8]) {
            return Some(ColorLiteral::MediumSpringGreen);
        }
        if bytes_eq(s, &[100u8, 97u8, 114u8, 107u8, 111u8, 108u8, 105u8, 118u8, 101u8, 103u8, 114u8, 101u8, 101u8, 110u8]) {
            return Some(ColorLiteral::DarkOliveGreen);
        }
        if bytes_eq(s, &[111u8, 108u8, 105u8, 118u8, 101u8, 100u8, 114u8, 97u8, 98u8]) {
            return Some(ColorLiteral::OliveDrab);
        }
        if bytes_eq(s, &[111u8, 108u8, 105u8, 118u8, 101u8]) {
            return Some(ColorLiteral::Olive);
        }
        if bytes_eq(s, &[121u8, 101u8, 108u8, 108u8, 111u8, 119u8, 103u8, 114u8, 101u8, 101u8, 110u8]) {
            return Some(ColorLiteral::YellowGreen);
        }
        if bytes_eq(s, &[103u8, 114u8, 101u8, 101u8, 110u8, 121u8, 101u8, 108u8, 108u8, 111u8, 119u8]) {
            return Some(ColorLiteral::GreenYellow);
        }
        if bytes_eq(s, &[112u8, 97u8, 108u8, 101u8, 103u8, 114u8, 101u8, 101u8, 110u8]) {
            return Some(ColorLiteral::PaleGreen);
        }
        if bytes_eq(s, &[108u8, 105u8, 103u8, 104u8, 116u8, 103u8, 114u8, 101u8, 101u8, 110u8]) {
            return Some(ColorLiteral::LightGreen);
        }
        if bytes_eq(s, &[104u8, 111u8, 110u8, 101u8, 121u8, 100u8, 101u8, 119u8]) {
            return Some(ColorLiteral::HoneyDew);
        }
        if bytes_eq(s, &[116u8, 101u8, 97u8, 108u8]) {
            return Some(ColorLiteral::Teal);
        }
        if bytes_eq(s, &[100u8, 97u8, 114u8, 107u8, 99u8, 121u8, 97u8, 110u8]) {
            return Some(ColorLiteral::DarkCyan);
        }
        if bytes_eq(s, &[99u8, 97u8, 100u8, 101u8, 116u8, 98u8, 108u8, 117u8, 101u8]) {
            return Some(ColorLiteral::CadetBlue);
        }
        if bytes_eq(s, &[100u8, 97u8, 114u8, 107u8, 116u8, 117u8, 114u8, 113u8, 117u8, 111u8, 105u8, 115u8, 101u8]) {
            return Some(ColorLiteral::DarkTurquoise);
        }
        if bytes_eq(s, &[116u8, 117u8, 114u8, 113u8, 117u8, 111u8, 105u8, 115u8, 101u8]) {
            return Some(ColorLiteral::Turquoise);
        }
        if bytes_eq(s, &[109u8, 101u8, 100u8, 105u8, 117u8, 109u8, 116u8, 117u8, 114u8, 113u8, 117u8, 111u8, 105u8, 115u8, 101u8]) {
            return Some(ColorLiteral::MediumTurquoise);
        }
        if bytes_eq(s, &[109u8, 101u8, 100u8, 105u8, 117u8, 109u8, 97u8, 113u8, 117u8, 97u8, 109u8, 97u8, 114u8, 105u8, 110u8, 101u8]) {
            return Some(ColorLiteral::MediumAquaMarine);
        }
        if bytes_eq(s, &[97u8, 113u8, 117u8, 97u8, 109u8, 97u8, 114u8, 105u8, 110u8, 101u8]) {
            return Some(ColorLiteral::Aquamarine);
        }
        if bytes_eq(s, &[109u8, 105u8, 100u8, 110u8, 105u8, 103u8, 104u8, 116u8, 98u8, 108u8, 117u8, 101u8]) {
            return Some(ColorLiteral::MidnightBlue);
        }
        if bytes_eq(s, &[110u8, 97u8, 118u8, 121u8]) {
            return Some(ColorLiteral::Navy);
        }
        if bytes_eq(s, &[100u8, 97u8, 114u8, 107u8, 98u8, 108u8, 117u8, 101u8]) {
            return Some(ColorLiteral::DarkBlue);
        }
        if bytes_eq(s, &[109u8, 101u8, 100u8, 105u8, 117u8, 109u8, 98u8, 108u8, 117u8, 101u8]) {
            return Some(ColorLiteral::MediumBlue);
        }
        if bytes_eq(s, &[114u8, 111u8, 121u8, 97u8, 108u8, 98u8, 108u8, 117u8, 101u8]) {
            return Some(ColorLiteral::RoyalBlue);
        }
        if bytes_eq(s, &[99u8, 111u8, 114u8, 110u8, 102u8, 108u8, 111u8, 119u8, 101u8, 114u8, 98u8, 108u8, 117u8, 101u8]) {
            return Some(ColorLiteral::CornflowerBlue);
        }
        if bytes_eq(s, &[115u8, 116u8, 101u8, 101u8, 108u8, 98u8, 108u8, 117u8, 101u8]) {
            return Some(ColorLiteral::SteelBlue);
        }
        if bytes_eq(s, &[98u8, 108u8, 117u8, 101u8]) {
            return Some(ColorLiteral::Blue);
        }
        if bytes_eq(s, &[100u8, 111u8, 100u8, 103u8, 101u8, 114u8, 98u8, 108u8, 117u8, 101u8]) {
            return Some(ColorLiteral::DodgerBlue);
        }
        if bytes_eq(s, &[112u8, 97u8, 108u8, 101u8, 116u8, 117u8, 114u8, 113u8, 117u8, 111u8, 105u8, 115u8, 101u8]) {
            return Some(ColorLiteral::PaleTurquoise);
        }
        if bytes_eq(s, &[108u8, 105u8, 103u8, 104u8, 116u8, 115u8, 116u8, 101u8, 101u8, 108u8, 98u8, 108u8, 117u8, 101u8]) {
            return Some(ColorLiteral::LightSteelBlue);
        }
        if bytes_eq(s, &[112u8, 111u8, 119u8, 100u8, 101u8, 114u8, 98u8, 108u8, 117u8, 101u8]) {
            return Some(ColorLiteral::PowderBlue);
        }
        if bytes_eq(s, &[100u8, 101u8, 101u8, 112u8, 115u8, 107u8, 121u8, 98u8, 108u8, 117u8, 101u8]) {
            return Some(ColorLiteral::DeepSkyBlue);
        }
        if bytes_eq(s, &[115u8, 107u8, 121u8, 98u8, 108u8, 117u8, 101u8]) {
            return Some(ColorLiteral::SkyBlue);
        }
        if bytes_eq(s, &[108u8, 105u8, 103u8, 104u8, 116u8, 115u8, 107u8, 121u8, 98u8, 108u8, 117u8, 101u8]) {
            return Some(ColorLiteral::LightSkyBlue);
        }
        if bytes_eq(s, &[108u8, 105u8, 103u8, 104u8, 116u8, 98u8, 108u8, 117u8, 101u8]) {
            return Some(ColorLiteral::LightBlue);
        }
        if bytes_eq(s, &[97u8, 113u8, 117u8, 97u8]) {
            return Some(ColorLiteral::Aqua);
        }
        if bytes_eq(s, &[99u8, 121u8, 97u8, 110u8]) {
            return Some(ColorLiteral::Cyan);
        }
        if bytes_eq(s, &[108u8, 105u8, 103u8, 104u8, 116u8, 99u8, 121u8, 97u8, 110u8]) {
            return Some(ColorLiteral::LightCyan);
        }
        if bytes_eq(s, &[97u8, 122u8, 117u8, 114u8, 101u8]) {
            return Some(ColorLiteral::Azure);
        }
        if bytes_eq(s, &[97u8, 108u8, 105u8, 99u8, 101u8, 98u8, 108u8, 117u8, 101u8]) {
            return Some(ColorLiteral::AliceBlue);
        }
        if bytes_eq(s, &[109u8, 105u8, 110u8, 116u8, 99u8, 114u8, 101u8, 97u8, 109u8]) {
            return Some(ColorLiteral::MintCream);
        }
        if bytes_eq(s, &[103u8, 104u8, 111u8, 115u8, 116u8, 119u8, 104u8, 105u8, 116u8, 101u8]) {
            return Some(ColorLiteral::GhostWhite);
        }
        None
    }

    fn write_to(&self, out: &mut Vec<u8>) {
        match self {
            ColorLiteral::Maroon => append_bytes(out, &[109u8, 97u8, 114u8, 111u8, 111u8, 110u8]),
            ColorLiteral::DarkRed => append_bytes(out, &[100u8, 97u8, 114u8, 107u8, 114u8, 101u8, 100u8]),
            ColorLiteral::Brown => append_bytes(out, &[98u8, 114u8, 111u8, 119u8, 110u8]),
            ColorLiteral::FireBrick => append_bytes(out, &[102u8, 105u8, 114u8, 101u8, 98u8, 114u8, 105u8, 99u8, 107u8]),
            ColorLiteral::Crimson => append_bytes(out, &[99u8, 114u8, 105u8, 109u8, 115u8, 111u8, 110u8]),
            ColorLiteral::Red => append_bytes(out, &[114u8, 101u8, 100u8]),
            ColorLiteral::IndianRed => append_bytes(out, &[105u8, 110u8, 100u8, 105u8, 97u8, 110u8, 114u8, 101u8, 100u8]),
            ColorLiteral::SaddleBrown => append_bytes(out, &[115u8, 97u8, 100u8, 100u8, 108u8, 101u8, 98u8, 114u8, 111u8, 119u8, 110u8]),
            ColorLiteral::Sienna => append_bytes(out, &[115u8, 105u8, 101u8, 110u8, 110u8, 97u8]),
            ColorLiteral::RosyBrown => append_bytes(out, &[114u8, 111u8, 115u8, 121u8, 98u8, 114u8, 111u8, 119u8, 110u8]),
            ColorLiteral::Chocolate => append_bytes(out, &[99u8, 104u8, 111u8, 99u8, 111u8, 108u8, 97u8, 116u8, 101u8]),
            ColorLiteral::Peru => append_bytes(out, &[112u8, 101u8, 114u8, 117u8]),
            ColorLiteral::DarkGoldenRod => append_bytes(out, &[100u8, 97u8, 114u8, 107u8, 103u8, 111u8, 108u8, 100u8, 101u8, 110u8, 114u8, 111u8, 100u8]),
            ColorLiteral::DarkSalmon => append_bytes(out, &[100u8, 97u8, 114u8, 107u8, 115u8, 97u8, 108u8, 109u8, 111u8, 110u8]),
            ColorLiteral::LightCoral => append_bytes(out, &[108u8, 105u8, 103u8, 104u8, 116u8, 99u8, 111u8, 114u8, 97u8, 108u8]),
            ColorLiteral::GoldenRod => append_bytes(out, &[103u8, 111u8, 108u8, 100u8, 101u8, 110u8, 114u8, 111u8, 100u8]),
            ColorLiteral::Tan => append_bytes(out, &[116u8, 97u8, 110u8]),
            ColorLiteral::DarkKhaki => append_bytes(out, &[100u8, 97u8, 114u8, 107u8, 107u8, 104u8, 97u8, 107u8, 105u8]),
            ColorLiteral::BurlyWood => append_bytes(out, &[98u8, 117u8, 114u8, 108u8, 121u8, 119u8, 111u8, 111u8, 100u8]),
            ColorLiteral::PaleGoldenRod => append_bytes(out, &[112u8, 97u8, 108u8, 101u8, 103u8, 111u8, 108u8, 100u8, 101u8, 110u8, 114u8, 111u8, 100u8]),
            ColorLiteral::SandyBrown => append_bytes(out, &[115u8, 97u8, 110u8, 100u8, 121u8, 98u8, 114u8, 111u8, 119u8, 110u8]),
            ColorLiteral::Salmon => append_bytes(out, &[115u8, 97u8, 108u8, 109u8, 111u8, 110u8]),
            ColorLiteral::OrangeRed => append_bytes(out, &[111u8, 114u8, 97u8, 110u8, 103u8, 101u8, 114u8, 101u8, 100u8]),
            ColorLiteral::Tomato => append_bytes(out, &[116u8, 111u8, 109u8, 97u8, 116u8, 111u8]),
            ColorLiteral::Coral => append_bytes(out, &[99u8, 111u8, 114u8, 97u8, 108u8]),
            ColorLiteral::DarkOrange => append_bytes(out, &[100u8, 97u8, 114u8, 107u8, 111u8, 114u8, 97u8, 110u8, 103u8, 101u8]),
            ColorLiteral::LightSalmon => append_bytes(out, &[108u8, 105u8, 103u8, 104u8, 116u8, 115u8, 97u8, 108u8, 109u8, 111u8, 110u8]),
            ColorLiteral::Orange => append_bytes(out, &[111u8, 114u8, 97u8, 110u8, 103u8, 101u8]),
            ColorLiteral::Gold => append_bytes(out, &[103u8, 111u8, 108u8, 100u8]),
            ColorLiteral::Yellow => append_bytes(out, &[121u8, 101u8, 108u8, 108u8, 111u8, 119u8]),
            ColorLiteral::Khaki => append_bytes(out, &[107u8, 104u8, 97u8, 107u8, 105u8]),
            ColorLiteral::Wheat => append_bytes(out, &[119u8, 104u8, 101u8, 97u8, 116u8]),
            ColorLiteral::Beige => append_bytes(out, &[98u8, 101u8, 105u8, 103u8, 101u8]),
            ColorLiteral::AntiqueWhite => append_bytes(out, &[97u8, 110u8, 116u8, 105u8, 113u8, 117u8, 101u8, 119u8, 104u8, 105u8, 116u8, 101u8]),
            ColorLiteral::Linen => append_bytes(out, &[108u8, 105u8, 110u8, 101u8, 110u8]),
            ColorLiteral::LightGoldenRodYellow => append_bytes(out, &[108u8, 105u8, 103u8, 104u8, 116u8, 103u8, 111u8, 108u8, 100u8, 101u8, 110u8, 114u8, 111u8, 100u8, 121u8, 101u8, 108u8, 108u8, 111u8, 119u8]),
            ColorLiteral::OldLace => append_bytes(out, &[111u8, 108u8, 100u8, 108u8, 97u8, 99u8, 101u8]),
            ColorLiteral::PeachPuff => append_bytes(out, &[112u8, 101u8, 97u8, 99u8, 104u8, 112u8, 117u8, 102u8, 102u8]),
            ColorLiteral::NavajoWhite => append_bytes(out, &[110u8, 97u8, 118u8, 97u8, 106u8, 111u8, 119u8, 104u8, 105u8, 116u8, 101u8]),
            ColorLiteral::Moccasin => append_bytes(out, &[109u8, 111u8, 99u8, 99u8, 97u8, 115u8, 105u8, 110u8]),
            ColorLiteral::Bisque => append_bytes(out, &[98u8, 105u8, 115u8, 113u8, 117u8, 101u8]),
            ColorLiteral::BlanchedAlmond => append_bytes(out, &[98u8, 108u8, 97u8, 110u8, 99u8, 104u8, 101u8, 100u8, 97u8, 108u8, 109u8, 111u8, 110u8, 100u8]),
            ColorLiteral::PapayaWhip => append_bytes(out, &[112u8, 97u8, 112u8, 97u8, 121u8, 97u8, 119u8, 104u8, 105u8, 112u8]),
            ColorLiteral::LemonChiffon => append_bytes(out, &[108u8, 101u8, 109u8, 111u8, 110u8, 99u8, 104u8, 105u8, 102u8, 102u8, 111u8, 110u8]),
            ColorLiteral::LightYellow => append_bytes(out, &[108u8, 105u8, 103u8, 104u8, 116u8, 121u8, 101u8, 108u8, 108u8, 111u8, 119u8]),
            ColorLiteral::Cornsilk => append_bytes(out, &[99u8, 111u8, 114u8, 110u8, 115u8, 105u8, 108u8, 107u8]),
            ColorLiteral::MistyRose => append_bytes(out, &[109u8, 105u8, 115u8, 116u8, 121u8, 114u8, 111u8, 115u8, 101u8]),
            ColorLiteral::FloralWhite => append_bytes(out, &[102u8, 108u8, 111u8, 114u8, 97u8, 108u8, 119u8, 104u8, 105u8, 116u8, 101u8]),
            ColorLiteral::SeaShell => append_bytes(out, &[115u8, 101u8, 97u8, 115u8, 104u8, 101u8, 108u8, 108u8]),
            ColorLiteral::Snow => append_bytes(out, &[115u8, 110u8, 111u8, 119u8]),
            ColorLiteral::Ivory => append_bytes(out, &[105u8, 118u8, 111u8, 114u8, 121u8]),
            ColorLiteral::White => append_bytes(out, &[119u8, 104u8, 105u8, 116u8, 101u8]),
            ColorLiteral::Black => append_bytes(out, &[98u8, 108u8, 97u8, 99u8, 107u8]),
            ColorLiteral::DimGray => append_bytes(out, &[100u8, 105u8, 109u8, 103u8, 114u8, 97u8, 121u8]),
            ColorLiteral::DarkGray => append_bytes(out, &[100u8, 97u8, 114u8, 107u8, 103u8, 114u8, 97u8, 121u8]),
            ColorLiteral::Gray => append_bytes(out, &[103u8, 114u8, 97u8, 121u8]),
            ColorLiteral::Silver => append_bytes(out, &[115u8, 105u8, 108u8, 118u8, 101u8, 114u8]),
            ColorLiteral::LightGray => append_bytes(out, &[108u8, 105u8, 103u8, 104u8, 116u8, 103u8, 114u8, 97u8, 121u8]),
            ColorLiteral::Gainsboro => append_bytes(out, &[103u8, 97u8, 105u8, 110u8, 115u8, 98u8, 111u8, 114u8, 111u8]),
            ColorLiteral::WhiteSmoke => append_bytes(out, &[119u8, 104u8, 105u8, 116u8, 101u8, 115u8, 109u8, 111u8, 107u8, 101u8]),
            ColorLiteral::DarkSlateGray => append_bytes(out, &[100u8, 97u8, 114u8, 107u8, 115u8, 108u8, 97u8, 116u8, 101u8, 103u8, 114u8, 97u8, 121u8]),
            ColorLiteral::SlateGray => append_bytes(out, &[115u8, 108u8, 97u8, 116u8, 101u8, 103u8, 114u8, 97u8, 121u8]),
            ColorLiteral::LightSlateGray => append_bytes(out, &[108u8, 105u8, 103u8, 104u8, 116u8, 115u8, 108u8, 97u8, 116u8, 101u8, 103u8, 114u8, 97u8, 121u8]),
            ColorLiteral::DarkGreen => append_bytes(out, &[100u8, 97u8, 114u8, 107u8, 103u8, 114u8, 101u8, 101u8, 110u8]),
            ColorLiteral::Green => append_bytes(out, &[103u8, 114u8, 101u8, 101u8, 110u8]),
            ColorLiteral::ForestGreen => append_bytes(out, &[102u8, 111u8, 114u8, 101u8, 115u8, 116u8, 103u8, 114u8, 101u8, 101u8, 110u8]),
            ColorLiteral::DarkSeaGreen => append_bytes(out, &[100u8, 97u8, 114u8, 107u8, 115u8, 101u8, 97u8, 103u8, 114u8, 101u8, 101u8, 110u8]),
            ColorLiteral::SeaGreen => append_bytes(out, &[115u8, 101u8, 97u8, 103u8, 114u8, 101u8, 101u8, 110u8]),
            ColorLiteral::MediumSeaGreen => append_bytes(out, &[109u8, 101u8, 100u8, 105u8, 117u8, 109u8, 115u8, 101u8, 97u8, 103u8, 114u8, 101u8, 101u8, 110u8]),
            ColorLiteral::LightSeaGreen => append_bytes(out, &[108u8, 105u8, 103u8, 104u8, 116u8, 115u8, 101u8, 97u8, 103u8, 114u8, 101u8, 101u8, 110u8]),
            ColorLiteral::LimeGreen => append_bytes(out, &[108u8, 105u8, 109u8, 101u8, 103u8, 114u8, 101u8, 101u8, 110u8]),
            ColorLiteral::Lime => append_bytes(out, &[108u8, 105u8, 109u8, 101u8]),
            ColorLiteral::Chartreuse => append_bytes(out, &[99u8, 104u8, 97u8, 114u8, 116u8, 114u8, 101u8, 117u8, 115u8, 101u8]),
            ColorLiteral::LawnGreen => append_bytes(out, &[108u8, 97u8, 119u8, 110u8, 103u8, 114u8, 101u8, 101u8, 110u8]),
            ColorLiteral::SpringGreen => append_bytes(out, &[115u8, 112u8, 114u8, 105u8, 110u8, 103u8, 103u8, 114u8, 101u8, 101u8, 110u8]),
            ColorLiteral::MediumSpringGreen => append_bytes(out, &[109u8, 101u8, 100u8, 105u8, 117u8, 109u8, 115u8, 112u8, 114u8, 105u8, 110u8, 103u8, 103u8, 114u8, 101u8, 101u8, 110u8]),
            ColorLiteral::DarkOliveGreen => append_bytes(out, &[100u8, 97u8, 114u8, 107u8, 111u8, 108u8, 105u8, 118u8, 101u8, 103u8, 114u8, 101u8, 101u8, 110u8]),
            ColorLiteral::OliveDrab => append_bytes(out, &[111u8, 108u8, 105u8, 118u8, 101u8, 100u8, 114u8, 97u8, 98u8]),
            ColorLiteral::Olive => append_bytes(out, &[111u8, 108u8, 105u8, 118u8, 101u8]),
            ColorLiteral::YellowGreen => append_bytes(out, &[121u8, 101u8, 108u8, 108u8, 111u8, 119u8, 103u8, 114u8, 101u8, 101u8, 110u8]),
            ColorLiteral::GreenYellow => append_bytes(out, &[103u8, 114u8, 101u8, 101u8, 110u8, 121u8, 101u8, 108u8, 108u8, 111u8, 119u8]),
            ColorLiteral::PaleGreen => append_bytes(out, &[112u8, 97u8, 108u8, 101u8, 103u8, 114u8, 101u8, 101u8, 110u8]),
            ColorLiteral::LightGreen => append_bytes(out, &[108u8, 105u8, 103u8, 104u8, 116u8, 103u8, 114u8, 101u8, 101u8, 110u8]),
            ColorLiteral::HoneyDew => append_bytes(out, &[104u8, 111u8, 110u8, 101u8, 121u8, 100u8, 101u8, 119u8]),
            ColorLiteral::Teal => append_bytes(out, &[116u8, 101u8, 97u8, 108u8]),
            ColorLiteral::DarkCyan => append_bytes(out, &[100u8, 97u8, 114u8, 107u8, 99u8, 121u8, 97u8, 110u8]),
            ColorLiteral::CadetBlue => append_bytes(out, &[99u8, 97u8, 100u8, 101u8, 116u8, 98u8, 108u8, 117u8, 101u8]),
            ColorLiteral::DarkTurquoise => append_bytes(out, &[100u8, 97u8, 114u8, 107u8, 116u8, 117u8, 114u8, 113u8, 117u8, 111u8, 105u8, 115u8, 101u8]),
            ColorLiteral::Turquoise => append_bytes(out, &[116u8, 117u8, 114u8, 113u8, 117u8, 111u8, 105u8, 115u8, 101u8]),
            ColorLiteral::MediumTurquoise => append_bytes(out, &[109u8, 101u8, 100u8, 105u8, 117u8, 109u8, 116u8, 117u8, 114u8, 113u8, 117u8, 111u8, 105u8, 115u8, 101u8]),
            ColorLiteral::MediumAquaMarine => append_bytes(out, &[109u8, 101u8, 100u8, 105u8, 117u8, 109u8, 97u8, 113u8, 117u8, 97u8, 109u8, 97u8, 114u8, 105u8, 110u8, 101u8]),
            ColorLiteral::Aquamarine => append_bytes(out, &[97u8, 113u8, 117u8, 97u8, 109u8, 97u8, 114u8, 105u8, 110u8, 101u8]),
            ColorLiteral::MidnightBlue => append_bytes(out, &[109u8, 105u8, 100u8, 110u8, 105u8, 103u8, 104u8, 116u8, 98u8, 108u8, 117u8, 101u8]),
            ColorLiteral::Navy => append_bytes(out, &[110u8, 97u8, 118u8, 121u8]),
            ColorLiteral::DarkBlue => append_bytes(out, &[100u8, 97u8, 114u8, 107u8, 98u8, 108u8, 117u8, 101u8]),
            ColorLiteral::MediumBlue => append_bytes(out, &[109u8, 101u8, 100u8, 105u8, 117u8, 109u8, 98u8, 108u8, 117u8, 101u8]),
            ColorLiteral::RoyalBlue => append_bytes(out, &[114u8, 111u8, 121u8, 97u8, 108u8, 98u8, 108u8, 117u8, 101u8]),
            ColorLiteral::CornflowerBlue => append_bytes(out, &[99u8, 111u8, 114u8, 110u8, 102u8, 108u8, 111u8, 119u8, 101u8, 114u8, 98u8, 108u8, 117u8, 101u8]),
            ColorLiteral::SteelBlue => append_bytes(out, &[115u8, 116u8, 101u8, 101u8, 108u8, 98u8, 108u8, 117u8, 101u8]),
            ColorLiteral::Blue => append_bytes(out, &[98u8, 108u8, 117u8, 101u8]),
            ColorLiteral::DodgerBlue => append_bytes(out, &[100u8, 111u8, 100u8, 103u8, 101u8, 114u8, 98u8, 108u8, 117u8, 101u8]),
            ColorLiteral::PaleTurquoise => append_bytes(out, &[112u8, 97u8, 108u8, 101u8, 116u8, 117u8, 114u8, 113u8, 117u8, 111u8, 105u8, 115u8, 101u8]),
            ColorLiteral::LightSteelBlue => append_bytes(out, &[108u8, 105u8, 103u8, 104u8, 116u8, 115u8, 116u8, 101u8, 101u8, 108u8, 98u8, 108u8, 117u8, 101u8]),
            ColorLiteral::PowderBlue => append_bytes(out, &[112u8, 111u8, 119u8, 100u8, 101u8, 114u8, 98u8, 108u8, 117u8, 101u8]),
            ColorLiteral::DeepSkyBlue => append_bytes(out, &[100u8, 101u8, 101u8, 112u8, 115u8, 107u8, 121u8, 98u8, 108u8, 117u8, 101u8]),
            ColorLiteral::SkyBlue => append_bytes(out, &[115u8, 107u8, 121u8, 98u8, 108u8, 117u8, 101u8]),
            ColorLiteral::LightSkyBlue => append_bytes(out, &[108u8, 105u8, 103u8, 104u8, 116u8, 115u8, 107u8, 121u8, 98u8, 108u8, 117u8, 101u8]),
            ColorLiteral::LightBlue => append_bytes(out, &[108u8, 105u8, 103u8, 104u8, 116u8, 98u8, 108u8, 117u8, 101u8]),
            ColorLiteral::Aqua => append_bytes(out, &[97u8, 113u8, 117u8, 97u8]),
            ColorLiteral::Cyan => append_bytes(out, &[99u8, 121u8, 97u8, 110u8]),
            ColorLiteral::LightCyan => append_bytes(out, &[108u8, 105u8, 103u8, 104u8, 116u8, 99u8, 121u8, 97u8, 110u8]),
            ColorLiteral::Azure => append_bytes(out, &[97u8, 122u8, 117u8, 114u8, 101u8]),
            ColorLiteral::AliceBlue => append_bytes(out, &[97u8, 108u8, 105u8, 99u8, 101u8, 98u8, 108u8, 117u8, 101u8]),
            ColorLiteral::MintCream => append_bytes(out, &[109u8, 105u8, 110u8, 116u8, 99u8, 114u8, 101u8, 97u8, 109u8]),
            ColorLiteral::GhostWhite => append_bytes(out, &[103u8, 104u8, 111u8, 115u8, 116u8, 119u8, 104u8, 105u8, 116u8, 101u8]),
        }
    }
}

/// The `AbsoluteSize` keywords.
#[derive(Clone, Copy, Debug, PartialEq, Eq, Structural)]
pub enum AbsoluteSize {
    XXSmall,
    XSmall,
    Small,
    Medium,
    Large,
    XLarge,
    XXLarge,
    XXXLarge,
}

impl AbsoluteSize {
    pub open spec fn spec_str(&self) -> Seq<char> {
        match self {
            AbsoluteSize::XXSmall => "xx-small"@,
            AbsoluteSize::XSmall => "x-small"@,
            AbsoluteSize::Small => "small"@,
            AbsoluteSize::Medium => "medium"@,
            AbsoluteSize::Large => "large"@,
            AbsoluteSize::XLarge => "x-large"@,
            AbsoluteSize::XXLarge => "xx-large"@,
            AbsoluteSize::XXXLarge => "xxx-large"@,
        }
    }

    pub fn as_str(&self) -> (r: &'static str)
        ensures
            r@ == self.spec_str(),
    {
        match self {
            AbsoluteSize::XXSmall => "xx-small",
            AbsoluteSize::XSmall => "x-small",
            AbsoluteSize::Small => "small",
            AbsoluteSize::Medium => "medium",
            AbsoluteSize::Large => "large",
            AbsoluteSize::XLarge => "x-large",
            AbsoluteSize::XXLarge => "xx-large",
            AbsoluteSize::XXXLarge => "xxx-large",
        }
    }

    /// The keyword reads back as itself.
    pub proof fn lemma_format_round_trip(&self)
        ensures
            Self::spec_canonical(self.spec_format()) == Some(self.spec_format()),
    {
    }
}

impl Grammar for AbsoluteSize {
    open spec fn spec_wf(&self) -> bool {
        true
    }

    open spec fn spec_format(&self) -> Seq<u8> {
        match self {
            AbsoluteSize::XXSmall => seq![120u8, 120u8, 45u8, 115u8, 109u8, 97u8, 108u8, 108u8],
            AbsoluteSize::XSmall => seq![120u8, 45u8, 115u8, 109u8, 97u8, 108u8, 108u8],
            AbsoluteSize::Small => seq![115u8, 109u8, 97u8, 108u8, 108u8],
            AbsoluteSize::Medium => seq![109u8, 101u8, 100u8, 105u8, 117u8, 109u8],
            AbsoluteSize::Large => seq![108u8, 97u8, 114u8, 103u8, 101u8],
            AbsoluteSize::XLarge => seq![120u8, 45u8, 108u8, 97u8, 114u8, 103u8, 101u8],
            AbsoluteSize::XXLarge => seq![120u8, 120u8, 45u8, 108u8, 97u8, 114u8, 103u8, 101u8],
            AbsoluteSize::XXXLarge => seq![120u8, 120u8, 120u8, 45u8, 108u8, 97u8, 114u8, 103u8, 101u8],
        }
    }

    open spec fn spec_canonical(s: Seq<u8>) -> Option<Seq<u8>> {
        if s == seq![120u8, 120u8, 45u8, 115u8, 109u8, 97u8, 108u8, 108u8] {
            Some(s)
        } else if s == seq![120u8, 45u8, 115u8, 109u8, 97u8, 108u8, 108u8] {
            Some(s)
        } else if s == seq![115u8, 109u8, 97u8, 108u8, 108u8] {
            Some(s)
        } else if s == seq![109u8, 101u8, 100u8, 105u8, 117u8, 109u8] {
            Some(s)
        } else if s == seq![108u8, 97u8, 114u8, 103u8, 101u8] {
            Some(s)
        } else if s == seq![120u8, 45u8, 108u8, 97u8, 114u8, 103u8, 101u8] {
            Some(s)
        } else if s == seq![120u8, 120u8, 45u8, 108u8, 97u8, 114u8, 103u8, 101u8] {
            Some(s)
        } else if s == seq![120u8, 120u8, 120u8, 45u8, 108u8, 97u8, 114u8, 103u8, 101u8] {
            Some(s)
        } else {
            None
        }
    }

    fn parse(s: &[u8]) -> (r: Option<AbsoluteSize>) {
        if bytes_eq(s, &[120u8, 120u8, 45u8, 115u8, 109u8, 97u8, 108u8, 108u8]) {
            return Some(AbsoluteSize::XXSmall);
        }
        if bytes_eq(s, &[120u8, 45u8, 115u8, 109u8, 97u8, 108u8, 108u8]) {
            return Some(AbsoluteSize::XSmall);
        }
        if bytes_eq(s, &[115u8, 109u8, 97u8, 108u8, 108u8]) {
            return Some(AbsoluteSize::Small);
        }
        if bytes_eq(s, &[109u8, 101u8, 100u8, 105u8, 117u8, 109u8]) {
            return Some(AbsoluteSize::Medium);
        }
        if bytes_eq(s, &[108u8, 97u8, 114u8, 103u8, 101u8]) {
            return Some(AbsoluteSize::Large);
        }
        if bytes_eq(s, &[120u8, 45u8, 108u8, 97u8, 114u8, 103u8, 101u8]) {
            return Some(AbsoluteSize::XLarge);
        }
        if bytes_eq(s, &[120u8, 120u8, 45u8, 108u8, 97u8, 114u8, 103u8, 101u8]) {
            return Some(AbsoluteSize::XXLarge);
        }
        if bytes_eq(s, &[120u8, 120u8, 120u8, 45u8, 108u8, 97u8, 114u8, 103u8, 101u8]) {
            return Some(AbsoluteSize::XXXLarge);
        }
        None
    }

    fn write_to(&self, out: &mut Vec<u8>) {
        match self {
            AbsoluteSize::XXSmall => append_bytes(out, &[120u8, 120u8, 45u8, 115u8, 109u8, 97u8, 108u8, 108u8]),
            AbsoluteSize::XSmall => append_bytes(out, &[120u8, 45u8, 115u8, 109u8, 97u8, 108u8, 108u8]),
            AbsoluteSize::Small => append_bytes(out, &[115u8, 109u8, 97u8, 108u8, 108u8]),
            AbsoluteSize::Medium => append_bytes(out, &[109u8, 101u8, 100u8, 105u8, 117u8, 109u8]),
            AbsoluteSize::Large => append_bytes(out, &[108u8, 97u8, 114u8, 103u8, 101u8]),
            AbsoluteSize::XLarge => append_bytes(out, &[120u8, 45u8, 108u8, 97u8, 114u8, 103u8, 101u8]),
            AbsoluteSize::XXLarge => append_bytes(out, &[120u8, 120u8, 45u8, 108u8, 97u8, 114u8, 103u8, 101u8]),
            AbsoluteSize::XXXLarge => append_bytes(out, &[120u8, 120u8, 120u8, 45u8, 108u8, 97u8, 114u8, 103u8, 101u8]),
        }
    }
}

/// The `RelativeSize` keywords.
#[derive(Clone, Copy, Debug, PartialEq, Eq, Structural)]
pub enum RelativeSize {
    Larger,
    Smaller,
}

impl RelativeSize {
    pub open spec fn spec_str(&self) -> Seq<char> {
        match self {
            RelativeSize::Larger => "larger"@,
            RelativeSize::Smaller => "smaller"@,
        }
    }

    pub fn as_str(&self) -> (r: &'static str)
        ensures
            r@ == self.spec_str(),
    {
        match self {
            RelativeSize::Larger => "larger",
            RelativeSize::Smaller => "smaller",
        }
    }

    /// The keyword reads back as itself.
    pub proof fn lemma_format_round_trip(&self)
        ensures
            Self::spec_canonical(self.spec_format()) == Some(self.spec_format()),
    {
    }
}

impl Grammar for RelativeSize {
    open spec fn spec_wf(&self) -> bool {
        true
    }

    open spec fn spec_format(&self) -> Seq<u8> {
        match self {
            RelativeSize::Larger => seq![108u8, 97u8, 114u8, 103u8, 101u8, 114u8],
            RelativeSize::Smaller => seq![115u8, 109u8, 97u8, 108u8, 108u8, 101u8, 114u8],
        }
    }

    open spec fn spec_canonical(s: Seq<u8>) -> Option<Seq<u8>> {
        if s == seq![108u8, 97u8, 114u8, 103u8, 101u8, 114u8] {
            Some(s)
        } else if s == seq![115u8, 109u8, 97u8, 108u8, 108u8, 101u8, 114u8] {
            Some(s)
        } else {
            None
        }
    }

    fn parse(s: &[u8]) -> (r: Option<RelativeSize>) {
        if bytes_eq(s, &[108u8, 97u8, 114u8, 103u8, 101u8, 114u8]) {
            return Some(RelativeSize::Larger);
        }
        if bytes_eq(s, &[115u8, 109u8, 97u8, 108u8, 108u8, 101u8, 114u8]) {
            return Some(RelativeSize::Smaller);
        }
        None
    }

    fn write_to(&self, out: &mut Vec<u8>) {
        match self {
            RelativeSize::Larger => append_bytes(out, &[108u8, 97u8, 114u8, 103u8, 101u8, 114u8]),
            RelativeSize::Smaller => append_bytes(out, &[115u8, 109u8, 97u8, 108u8, 108u8, 101u8, 114u8]),
        }
    }
}

} // verus!
