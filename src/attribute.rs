//! Attributes: the closed set of attribute kinds with their typed values,
//! their categories, and which of them each element kind accepts.
use vstd::prelude::*;

use crate::bytes::{append_bytes, bytes_eq};
use crate::element::ElementType;
use crate::keywords::{AlignmentBaseline, BlendMode, ChannelSelector, ClipPathUnits, ClipRule, ColorInterpolation, ColorInterpolationFilter, CrossOrigin, Cursor, Decoding, Display, DominantBaseline, EdgeMode, FetchPriority, FillRule, FilterUnits, FontStyle, GradientUnits, ImageRendering, LengthAdjust, MarkerUnits, MaskContentUnits, MaskType, MaskUnits, Method, Operator, Overflow, PatternContentUnits, PatternUnits, PointerEvents, PreserveAspectRatio, PrimitiveUnits, ReferrerPolicy, RelType, ShapeRendering, Side, Spacing, SpreadMethod, StitchTiles, StrokeLinecap, StrokeLinejoin, Target, TextAnchor, TextDirection, TextOverflow, TextRendering, UnicodeBidi, VectorEffect, Visibility, WhiteSpace, WritingMode};
use crate::path::PathData;
use crate::text::{Grammar, Number};
use crate::units::{BaselineShift, EllipsisRadius, Fill, FontSize, FontSizeAdjust, FontWeight, In, LengthOrPercentageOrNumber, LetterSpacing, Marker, Orient, RefX, RefY, Rotate, StrokeOpacity, WordSpacing};
use crate::values::{
    list_canonical, list_format, list_wf, parse_list, write_list, Color, LengthOrPercentage,
    LightingColor, NumberOptionalNumber, Opacity, Paint, Percentage, Point, StopColor, Url, ViewBox,
};

verus! {

/// An attribute with its typed value.
#[derive(Clone, Debug, PartialEq, Eq)]
pub enum Attribute {
    Xmlns(Vec<u8>),
    Autofocus(bool),
    Id(Vec<u8>),
    Class(Vec<Vec<u8>>),
    Style(Vec<u8>),
    Lang(Vec<u8>),
    Tabindex(i64),
    RequiredExtensions(Vec<Vec<u8>>),
    SystemLanguage(Vec<u8>),
    AlignmentBaseline(AlignmentBaseline),
    BaselineShift(BaselineShift),
    ClipPath(Vec<u8>),
    ClipRule(ClipRule),
    Color(Color),
    ColorInterpolation(ColorInterpolation),
    ColorInterpolationFilters(ColorInterpolationFilter),
    Cursor(Cursor),
    Cx(LengthOrPercentage),
    Cy(LengthOrPercentage),
    D(PathData),
    Direction(TextDirection),
    Display(Display),
    DominantBaseline(DominantBaseline),
    Fill(Fill),
    FillOpacity(Percentage),
    FillRule(FillRule),
    Filter(Vec<u8>),
    FloodColor(Color),
    FloodOpacity(Number),
    FontFamily(Vec<u8>),
    FontSize(FontSize),
    FontSizeAdjust(FontSizeAdjust),
    FontStyle(FontStyle),
    FontVariant(Vec<u8>),
    FontWeight(FontWeight),
    Height(LengthOrPercentage),
    ImageRendering(ImageRendering),
    LetterSpacing(LetterSpacing),
    LightingColor(LightingColor),
    MarkerEnd(Marker),
    MarkerMid(Marker),
    MarkerStart(Marker),
    Mask(Vec<u8>),
    MaskType(MaskType),
    Opacity(Opacity),
    Overflow(Overflow),
    PointerEvents(PointerEvents),
    R(LengthOrPercentage),
    Rx(EllipsisRadius),
    Ry(EllipsisRadius),
    ShapeRendering(ShapeRendering),
    StopColor(StopColor),
    StopOpacity(Opacity),
    Stroke(Paint),
    StrokeDasharray(Vec<i64>),
    StrokeDashoffset(LengthOrPercentage),
    StrokeLinecap(StrokeLinecap),
    StrokeLinejoin(StrokeLinejoin),
    StrokeMiterlimit(Number),
    StrokeOpacity(StrokeOpacity),
    StrokeWidth(LengthOrPercentage),
    TextAnchor(TextAnchor),
    TextDecoration(Vec<u8>),
    TextOverflow(TextOverflow),
    TextRendering(TextRendering),
    Transform(Vec<u8>),
    TransformOrigin(Vec<u8>),
    UnicodeBidi(UnicodeBidi),
    VectorEffect(VectorEffect),
    Visibility(Visibility),
    Width(LengthOrPercentage),
    WhiteSpace(WhiteSpace),
    WordSpacing(WordSpacing),
    WritingMode(WritingMode),
    X(LengthOrPercentage),
    Y(LengthOrPercentage),
    Type,
    TableValues,
    Slope,
    Intercept,
    Amplitude,
    Exponent,
    Offset,
    Href(Vec<u8>),
    AttributeType,
    AttributeName,
    Begin,
    Dur,
    End,
    Min,
    Max,
    Restart,
    RepeatCount,
    RepeatDur,
    Additive,
    Accumulate,
    OnAfterPrint(Vec<u8>),
    OnBeforePrint(Vec<u8>),
    OnBeforeUnload(Vec<u8>),
    OnError(Vec<u8>),
    OnHashChange(Vec<u8>),
    OnLoad(Vec<u8>),
    OnMessage(Vec<u8>),
    OnOffline(Vec<u8>),
    OnOnline(Vec<u8>),
    OnPageHide(Vec<u8>),
    OnPageShow(Vec<u8>),
    OnPopState(Vec<u8>),
    OnResize(Vec<u8>),
    OnStorage(Vec<u8>),
    OnUnload(Vec<u8>),
    OnBlur(Vec<u8>),
    OnChange(Vec<u8>),
    OnContextMenu(Vec<u8>),
    OnFocus(Vec<u8>),
    OnInput(Vec<u8>),
    OnInvalid(Vec<u8>),
    OnReset(Vec<u8>),
    OnSearch(Vec<u8>),
    OnSelect(Vec<u8>),
    OnSubmit(Vec<u8>),
    OnKeyDown(Vec<u8>),
    OnKeyPress(Vec<u8>),
    OnKeyUp(Vec<u8>),
    OnClick(Vec<u8>),
    OnDoubleClick(Vec<u8>),
    OnMouseDown(Vec<u8>),
    OnMouseMove(Vec<u8>),
    OnMouseOut(Vec<u8>),
    OnMouseOver(Vec<u8>),
    OnMouseUp(Vec<u8>),
    OnWheel(Vec<u8>),
    OnDrag(Vec<u8>),
    OnDragEnd(Vec<u8>),
    OnDragEnter(Vec<u8>),
    OnDragLeave(Vec<u8>),
    OnDragOver(Vec<u8>),
    OnDragStart(Vec<u8>),
    OnDrop(Vec<u8>),
    OnScroll(Vec<u8>),
    OnCopy(Vec<u8>),
    OnCut(Vec<u8>),
    OnPaste(Vec<u8>),
    OnAbort(Vec<u8>),
    OnCanPlay(Vec<u8>),
    OnCanPlayThrough(Vec<u8>),
    OnCueChange(Vec<u8>),
    OnDurationChange(Vec<u8>),
    OnEmptied(Vec<u8>),
    OnEnded(Vec<u8>),
    OnLoadedData(Vec<u8>),
    OnLoadedMetadata(Vec<u8>),
    OnLoadStart(Vec<u8>),
    OnPause(Vec<u8>),
    OnPlay(Vec<u8>),
    OnPlaying(Vec<u8>),
    OnProgress(Vec<u8>),
    OnRateChange(Vec<u8>),
    OnSeeked(Vec<u8>),
    OnSeeking(Vec<u8>),
    OnStalled(Vec<u8>),
    OnSuspend(Vec<u8>),
    OnTimeUpdate(Vec<u8>),
    OnVolumeChange(Vec<u8>),
    OnWaiting(Vec<u8>),
    OnToggle(Vec<u8>),
    KeyPoints(Vec<u8>),
    Path(PathData),
    Rotate(Rotate),
    CalcMode,
    Values,
    KeyTimes,
    KeySplines,
    From,
    To,
    By,
    PathLength(Number),
    X1(LengthOrPercentageOrNumber),
    Y1(LengthOrPercentageOrNumber),
    X2(LengthOrPercentageOrNumber),
    Y2(LengthOrPercentageOrNumber),
    Points(Vec<Point>),
    Download(Vec<u8>),
    HrefLang(Vec<u8>),
    InterestFor(Vec<u8>),
    Ping(Vec<Url>),
    ReferrerPolicy(ReferrerPolicy),
    Rel(Vec<RelType>),
    Target(Target),
    MarkerHeight(LengthOrPercentage),
    MarkerUnits(MarkerUnits),
    MarkerWidth(LengthOrPercentage),
    Orient(Orient),
    PreserveAspectRatio(PreserveAspectRatio),
    RefX(RefX),
    RefY(RefY),
    ViewBox(ViewBox),
    MaskContentUnits(MaskContentUnits),
    MaskUnits(MaskUnits),
    PatternContentUnits(PatternContentUnits),
    PatternUnits(PatternUnits),
    PatternTransform(Vec<u8>),
    Result(Vec<u8>),
    In(In),
    In2(In),
    Mode(BlendMode),
    Operator(Operator),
    K1(Number),
    K2(Number),
    K3(Number),
    K4(Number),
    Order(u64),
    KernelMatrix(Vec<Number>),
    Divisor(Number),
    Bias(Number),
    TargetX(i64),
    TargetY(i64),
    EdgeMode(EdgeMode),
    KernelUnitLength(NumberOptionalNumber),
    PreserveAlpha(bool),
    SurfaceScale(Number),
    DiffuseConstant(Number),
    Scale(Number),
    XChannelSelector(ChannelSelector),
    YChannelSelector(ChannelSelector),
    Dx(Number),
    Dy(Number),
    StdDeviation(NumberOptionalNumber),
    CrossOrigin(CrossOrigin),
    Radius(NumberOptionalNumber),
    SpecularConstant(Number),
    SpecularExponent(Number),
    BaseFrequency(NumberOptionalNumber),
    NumOctaves(u64),
    Seed(Number),
    StitchTiles(StitchTiles),
    GradientUnits(GradientUnits),
    GradientTransform(Vec<u8>),
    SpreadMethod(SpreadMethod),
    Fx(LengthOrPercentage),
    Fy(LengthOrPercentage),
    Fr(LengthOrPercentage),
    Decoding(Decoding),
    FetchPriority(FetchPriority),
    LengthAdjust(LengthAdjust),
    TextLength(LengthOrPercentage),
    ClipPathUnits(ClipPathUnits),
    Method(Method),
    Side(Side),
    Spacing(Spacing),
    StartOffset(LengthOrPercentageOrNumber),
    FilterUnits(FilterUnits),
    PrimitiveUnits(PrimitiveUnits),
}

pub open spec fn kw_autofocus() -> Seq<u8> {
    seq![97u8, 117u8, 116u8, 111u8, 102u8, 111u8, 99u8, 117u8, 115u8]
}

pub open spec fn kw_true() -> Seq<u8> {
    seq![116u8, 114u8, 117u8, 101u8]
}

pub open spec fn kw_false() -> Seq<u8> {
    seq![102u8, 97u8, 108u8, 115u8, 101u8]
}

impl Attribute {
    /// The attribute name.
    pub open spec fn spec_name(&self) -> Seq<u8> {
        match self {
            Attribute::Xmlns(_) => seq![120u8, 109u8, 108u8, 110u8, 115u8],
            Attribute::Autofocus(_) => seq![97u8, 117u8, 116u8, 111u8, 102u8, 111u8, 99u8, 117u8, 115u8],
            Attribute::Id(_) => seq![105u8, 100u8],
            Attribute::Class(_) => seq![99u8, 108u8, 97u8, 115u8, 115u8],
            Attribute::Style(_) => seq![115u8, 116u8, 121u8, 108u8, 101u8],
            Attribute::Lang(_) => seq![108u8, 97u8, 110u8, 103u8],
            Attribute::Tabindex(_) => seq![116u8, 97u8, 98u8, 105u8, 110u8, 100u8, 101u8, 120u8],
            Attribute::RequiredExtensions(_) => seq![114u8, 101u8, 113u8, 117u8, 105u8, 114u8, 101u8, 100u8, 69u8, 120u8, 116u8, 101u8, 110u8, 115u8, 105u8, 111u8, 110u8, 115u8],
            Attribute::SystemLanguage(_) => seq![115u8, 121u8, 115u8, 116u8, 101u8, 109u8, 76u8, 97u8, 110u8, 103u8, 117u8, 97u8, 103u8, 101u8],
            Attribute::AlignmentBaseline(_) => seq![97u8, 108u8, 105u8, 103u8, 110u8, 109u8, 101u8, 110u8, 116u8, 45u8, 98u8, 97u8, 115u8, 101u8, 108u8, 105u8, 110u8, 101u8],
            Attribute::BaselineShift(_) => seq![98u8, 97u8, 115u8, 101u8, 108u8, 105u8, 110u8, 101u8, 45u8, 115u8, 104u8, 105u8, 102u8, 116u8],
            Attribute::ClipPath(_) => seq![99u8, 108u8, 105u8, 112u8, 45u8, 112u8, 97u8, 116u8, 104u8],
            Attribute::ClipRule(_) => seq![99u8, 108u8, 105u8, 112u8, 45u8, 114u8, 117u8, 108u8, 101u8],
            Attribute::Color(_) => seq![99u8, 111u8, 108u8, 111u8, 114u8],
            Attribute::ColorInterpolation(_) => seq![99u8, 111u8, 108u8, 111u8, 114u8, 45u8, 105u8, 110u8, 116u8, 101u8, 114u8, 112u8, 111u8, 108u8, 97u8, 116u8, 105u8, 111u8, 110u8],
            Attribute::ColorInterpolationFilters(_) => seq![99u8, 111u8, 108u8, 111u8, 114u8, 45u8, 105u8, 110u8, 116u8, 101u8, 114u8, 112u8, 111u8, 108u8, 97u8, 116u8, 105u8, 111u8, 110u8, 45u8, 102u8, 105u8, 108u8, 116u8, 101u8, 114u8, 115u8],
            Attribute::Cursor(_) => seq![99u8, 117u8, 114u8, 115u8, 111u8, 114u8],
            Attribute::Cx(_) => seq![99u8, 120u8],
            Attribute::Cy(_) => seq![99u8, 121u8],
            Attribute::D(_) => seq![100u8],
            Attribute::Direction(_) => seq![100u8, 105u8, 114u8, 101u8, 99u8, 116u8, 105u8, 111u8, 110u8],
            Attribute::Display(_) => seq![100u8, 105u8, 115u8, 112u8, 108u8, 97u8, 121u8],
            Attribute::DominantBaseline(_) => seq![100u8, 111u8, 109u8, 105u8, 110u8, 97u8, 110u8, 116u8, 45u8, 98u8, 97u8, 115u8, 101u8, 108u8, 105u8, 110u8, 101u8],
            Attribute::Fill(_) => seq![102u8, 105u8, 108u8, 108u8],
            Attribute::FillOpacity(_) => seq![102u8, 105u8, 108u8, 108u8, 45u8, 111u8, 112u8, 97u8, 99u8, 105u8, 116u8, 121u8],
            Attribute::FillRule(_) => seq![102u8, 105u8, 108u8, 108u8, 45u8, 114u8, 117u8, 108u8, 101u8],
            Attribute::Filter(_) => seq![102u8, 105u8, 108u8, 116u8, 101u8, 114u8],
            Attribute::FloodColor(_) => seq![102u8, 108u8, 111u8, 111u8, 100u8, 45u8, 99u8, 111u8, 108u8, 111u8, 114u8],
            Attribute::FloodOpacity(_) => seq![102u8, 108u8, 111u8, 111u8, 100u8, 45u8, 111u8, 112u8, 97u8, 99u8, 105u8, 116u8, 121u8],
            Attribute::FontFamily(_) => seq![102u8, 111u8, 110u8, 116u8, 45u8, 102u8, 97u8, 109u8, 105u8, 108u8, 121u8],
            Attribute::FontSize(_) => seq![102u8, 111u8, 110u8, 116u8, 45u8, 115u8, 105u8, 122u8, 101u8],
            Attribute::FontSizeAdjust(_) => seq![102u8, 111u8, 110u8, 116u8, 45u8, 115u8, 105u8, 122u8, 101u8, 45u8, 97u8, 100u8, 106u8, 117u8, 115u8, 116u8],
            Attribute::FontStyle(_) => seq![102u8, 111u8, 110u8, 116u8, 45u8, 115u8, 116u8, 121u8, 108u8, 101u8],
            Attribute::FontVariant(_) => seq![102u8, 111u8, 110u8, 116u8, 45u8, 118u8, 97u8, 114u8, 105u8, 97u8, 110u8, 116u8],
            Attribute::FontWeight(_) => seq![102u8, 111u8, 110u8, 116u8, 45u8, 119u8, 101u8, 105u8, 103u8, 104u8, 116u8],
            Attribute::Height(_) => seq![104u8, 101u8, 105u8, 103u8, 104u8, 116u8],
            Attribute::ImageRendering(_) => seq![105u8, 109u8, 97u8, 103u8, 101u8, 45u8, 114u8, 101u8, 110u8, 100u8, 101u8, 114u8, 105u8, 110u8, 103u8],
            Attribute::LetterSpacing(_) => seq![108u8, 101u8, 116u8, 116u8, 101u8, 114u8, 45u8, 115u8, 112u8, 97u8, 99u8, 105u8, 110u8, 103u8],
            Attribute::LightingColor(_) => seq![108u8, 105u8, 103u8, 104u8, 116u8, 105u8, 110u8, 103u8, 45u8, 99u8, 111u8, 108u8, 111u8, 114u8],
            Attribute::MarkerEnd(_) => seq![109u8, 97u8, 114u8, 107u8, 101u8, 114u8, 45u8, 101u8, 110u8, 100u8],
            Attribute::MarkerMid(_) => seq![109u8, 97u8, 114u8, 107u8, 101u8, 114u8, 45u8, 109u8, 105u8, 100u8],
            Attribute::MarkerStart(_) => seq![109u8, 97u8, 114u8, 107u8, 101u8, 114u8, 45u8, 115u8, 116u8, 97u8, 114u8, 116u8],
            Attribute::Mask(_) => seq![109u8, 97u8, 115u8, 107u8],
            Attribute::MaskType(_) => seq![109u8, 97u8, 115u8, 107u8, 45u8, 116u8, 121u8, 112u8, 101u8],
            Attribute::Opacity(_) => seq![111u8, 112u8, 97u8, 99u8, 105u8, 116u8, 121u8],
            Attribute::Overflow(_) => seq![111u8, 118u8, 101u8, 114u8, 102u8, 108u8, 111u8, 119u8],
            Attribute::PointerEvents(_) => seq![112u8, 111u8, 105u8, 110u8, 116u8, 101u8, 114u8, 45u8, 101u8, 118u8, 101u8, 110u8, 116u8, 115u8],
            Attribute::R(_) => seq![114u8],
            Attribute::Rx(_) => seq![114u8, 120u8],
            Attribute::Ry(_) => seq![114u8, 121u8],
            Attribute::ShapeRendering(_) => seq![115u8, 104u8, 97u8, 112u8, 101u8, 45u8, 114u8, 101u8, 110u8, 100u8, 101u8, 114u8, 105u8, 110u8, 103u8],
            Attribute::StopColor(_) => seq![115u8, 116u8, 111u8, 112u8, 45u8, 99u8, 111u8, 108u8, 111u8, 114u8],
            Attribute::StopOpacity(_) => seq![115u8, 116u8, 111u8, 112u8, 45u8, 111u8, 112u8, 97u8, 99u8, 105u8, 116u8, 121u8],
            Attribute::Stroke(_) => seq![115u8, 116u8, 114u8, 111u8, 107u8, 101u8],
            Attribute::StrokeDasharray(_) => seq![115u8, 116u8, 114u8, 111u8, 107u8, 101u8, 45u8, 100u8, 97u8, 115u8, 104u8, 97u8, 114u8, 114u8, 97u8, 121u8],
            Attribute::StrokeDashoffset(_) => seq![115u8, 116u8, 114u8, 111u8, 107u8, 101u8, 45u8, 100u8, 97u8, 115u8, 104u8, 111u8, 102u8, 102u8, 115u8, 101u8, 116u8],
            Attribute::StrokeLinecap(_) => seq![115u8, 116u8, 114u8, 111u8, 107u8, 101u8, 45u8, 108u8, 105u8, 110u8, 101u8, 99u8, 97u8, 112u8],
            Attribute::StrokeLinejoin(_) => seq![115u8, 116u8, 114u8, 111u8, 107u8, 101u8, 45u8, 108u8, 105u8, 110u8, 101u8, 106u8, 111u8, 105u8, 110u8],
            Attribute::StrokeMiterlimit(_) => seq![115u8, 116u8, 114u8, 111u8, 107u8, 101u8, 45u8, 109u8, 105u8, 116u8, 101u8, 114u8, 108u8, 105u8, 109u8, 105u8, 116u8],
            Attribute::StrokeOpacity(_) => seq![115u8, 116u8, 114u8, 111u8, 107u8, 101u8, 45u8, 111u8, 112u8, 97u8, 99u8, 105u8, 116u8, 121u8],
            Attribute::StrokeWidth(_) => seq![115u8, 116u8, 114u8, 111u8, 107u8, 101u8, 45u8, 119u8, 105u8, 100u8, 116u8, 104u8],
            Attribute::TextAnchor(_) => seq![116u8, 101u8, 120u8, 116u8, 45u8, 97u8, 110u8, 99u8, 104u8, 111u8, 114u8],
            Attribute::TextDecoration(_) => seq![116u8, 101u8, 120u8, 116u8, 45u8, 100u8, 101u8, 99u8, 111u8, 114u8, 97u8, 116u8, 105u8, 111u8, 110u8],
            Attribute::TextOverflow(_) => seq![116u8, 101u8, 120u8, 116u8, 45u8, 111u8, 118u8, 101u8, 114u8, 102u8, 108u8, 111u8, 119u8],
            Attribute::TextRendering(_) => seq![116u8, 101u8, 120u8, 116u8, 45u8, 114u8, 101u8, 110u8, 100u8, 101u8, 114u8, 105u8, 110u8, 103u8],
            Attribute::Transform(_) => seq![116u8, 114u8, 97u8, 110u8, 115u8, 102u8, 111u8, 114u8, 109u8],
            Attribute::TransformOrigin(_) => seq![116u8, 114u8, 97u8, 110u8, 115u8, 102u8, 111u8, 114u8, 109u8, 45u8, 111u8, 114u8, 105u8, 103u8, 105u8, 110u8],
            Attribute::UnicodeBidi(_) => seq![117u8, 110u8, 105u8, 99u8, 111u8, 100u8, 101u8, 45u8, 98u8, 105u8, 100u8, 105u8],
            Attribute::VectorEffect(_) => seq![118u8, 101u8, 99u8, 116u8, 111u8, 114u8, 45u8, 101u8, 102u8, 102u8, 101u8, 99u8, 116u8],
            Attribute::Visibility(_) => seq![118u8, 105u8, 115u8, 105u8, 98u8, 105u8, 108u8, 105u8, 116u8, 121u8],
            Attribute::Width(_) => seq![119u8, 105u8, 100u8, 116u8, 104u8],
            Attribute::WhiteSpace(_) => seq![119u8, 104u8, 105u8, 116u8, 101u8, 45u8, 115u8, 112u8, 97u8, 99u8, 101u8],
            Attribute::WordSpacing(_) => seq![119u8, 111u8, 114u8, 100u8, 45u8, 115u8, 112u8, 97u8, 99u8, 105u8, 110u8, 103u8],
            Attribute::WritingMode(_) => seq![119u8, 114u8, 105u8, 116u8, 105u8, 110u8, 103u8, 45u8, 109u8, 111u8, 100u8, 101u8],
            Attribute::X(_) => seq![120u8],
            Attribute::Y(_) => seq![121u8],
            Attribute::Type => seq![116u8, 121u8, 112u8, 101u8],
            Attribute::TableValues => seq![116u8, 97u8, 98u8, 108u8, 101u8, 86u8, 97u8, 108u8, 117u8, 101u8, 115u8],
            Attribute::Slope => seq![115u8, 108u8, 111u8, 112u8, 101u8],
            Attribute::Intercept => seq![105u8, 110u8, 116u8, 101u8, 114u8, 99u8, 101u8, 112u8, 116u8],
            Attribute::Amplitude => seq![97u8, 109u8, 112u8, 108u8, 105u8, 116u8, 117u8, 100u8, 101u8],
            Attribute::Exponent => seq![101u8, 120u8, 112u8, 111u8, 110u8, 101u8, 110u8, 116u8],
            Attribute::Offset => seq![111u8, 102u8, 102u8, 115u8, 101u8, 116u8],
            Attribute::Href(_) => seq![104u8, 114u8, 101u8, 102u8],
            Attribute::AttributeType => seq![97u8, 116u8, 116u8, 114u8, 105u8, 98u8, 117u8, 116u8, 101u8, 84u8, 121u8, 112u8, 101u8],
            Attribute::AttributeName => seq![97u8, 116u8, 116u8, 114u8, 105u8, 98u8, 117u8, 116u8, 101u8, 78u8, 97u8, 109u8, 101u8],
            Attribute::Begin => seq![98u8, 101u8, 103u8, 105u8, 110u8],
            Attribute::Dur => seq![100u8, 117u8, 114u8],
            Attribute::End => seq![101u8, 110u8, 100u8],
            Attribute::Min => seq![109u8, 105u8, 110u8],
            Attribute::Max => seq![109u8, 97u8, 120u8],
            Attribute::Restart => seq![114u8, 101u8, 115u8, 116u8, 97u8, 114u8, 116u8],
            Attribute::RepeatCount => seq![114u8, 101u8, 112u8, 101u8, 97u8, 116u8, 67u8, 111u8, 117u8, 110u8, 116u8],
            Attribute::RepeatDur => seq![114u8, 101u8, 112u8, 101u8, 97u8, 116u8, 68u8, 117u8, 114u8],
            Attribute::Additive => seq![97u8, 100u8, 100u8, 105u8, 116u8, 105u8, 118u8, 101u8],
            Attribute::Accumulate => seq![97u8, 99u8, 99u8, 117u8, 109u8, 117u8, 108u8, 97u8, 116u8, 101u8],
            Attribute::OnAfterPrint(_) => seq![111u8, 110u8, 65u8, 102u8, 116u8, 101u8, 114u8, 80u8, 114u8, 105u8, 110u8, 116u8],
            Attribute::OnBeforePrint(_) => seq![111u8, 110u8, 66u8, 101u8, 102u8, 111u8, 114u8, 101u8, 80u8, 114u8, 105u8, 110u8, 116u8],
            Attribute::OnBeforeUnload(_) => seq![111u8, 110u8, 66u8, 101u8, 102u8, 111u8, 114u8, 101u8, 85u8, 110u8, 108u8, 111u8, 97u8, 100u8],
            Attribute::OnError(_) => seq![111u8, 110u8, 69u8, 114u8, 114u8, 111u8, 114u8],
            Attribute::OnHashChange(_) => seq![111u8, 110u8, 72u8, 97u8, 115u8, 104u8, 67u8, 104u8, 97u8, 110u8, 103u8, 101u8],
            Attribute::OnLoad(_) => seq![111u8, 110u8, 76u8, 111u8, 97u8, 100u8],
            Attribute::OnMessage(_) => seq![111u8, 110u8, 77u8, 101u8, 115u8, 115u8, 97u8, 103u8, 101u8],
            Attribute::OnOffline(_) => seq![111u8, 110u8, 79u8, 102u8, 102u8, 108u8, 105u8, 110u8, 101u8],
            Attribute::OnOnline(_) => seq![111u8, 110u8, 79u8, 110u8, 108u8, 105u8, 110u8, 101u8],
            Attribute::OnPageHide(_) => seq![111u8, 110u8, 80u8, 97u8, 103u8, 101u8, 72u8, 105u8, 100u8, 101u8],
            Attribute::OnPageShow(_) => seq![111u8, 110u8, 80u8, 97u8, 103u8, 101u8, 83u8, 104u8, 111u8, 119u8],
            Attribute::OnPopState(_) => seq![111u8, 110u8, 80u8, 111u8, 112u8, 83u8, 116u8, 97u8, 116u8, 101u8],
            Attribute::OnResize(_) => seq![111u8, 110u8, 82u8, 101u8, 115u8, 105u8, 122u8, 101u8],
            Attribute::OnStorage(_) => seq![111u8, 110u8, 83u8, 116u8, 111u8, 114u8, 97u8, 103u8, 101u8],
            Attribute::OnUnload(_) => seq![111u8, 110u8, 85u8, 110u8, 108u8, 111u8, 97u8, 100u8],
            Attribute::OnBlur(_) => seq![111u8, 110u8, 66u8, 108u8, 117u8, 114u8],
            Attribute::OnChange(_) => seq![111u8, 110u8, 67u8, 104u8, 97u8, 110u8, 103u8, 101u8],
            Attribute::OnContextMenu(_) => seq![111u8, 110u8, 67u8, 111u8, 110u8, 116u8, 101u8, 120u8, 116u8, 77u8, 101u8, 110u8, 117u8],
            Attribute::OnFocus(_) => seq![111u8, 110u8, 70u8, 111u8, 99u8, 117u8, 115u8],
            Attribute::OnInput(_) => seq![111u8, 110u8, 73u8, 110u8, 112u8, 117u8, 116u8],
            Attribute::OnInvalid(_) => seq![111u8, 110u8, 73u8, 110u8, 118u8, 97u8, 108u8, 105u8, 100u8],
            Attribute::OnReset(_) => seq![111u8, 110u8, 82u8, 101u8, 115u8, 101u8, 116u8],
            Attribute::OnSearch(_) => seq![111u8, 110u8, 83u8, 101u8, 97u8, 114u8, 99u8, 104u8],
            Attribute::OnSelect(_) => seq![111u8, 110u8, 83u8, 101u8, 108u8, 101u8, 99u8, 116u8],
            Attribute::OnSubmit(_) => seq![111u8, 110u8, 83u8, 117u8, 98u8, 109u8, 105u8, 116u8],
            Attribute::OnKeyDown(_) => seq![111u8, 110u8, 75u8, 101u8, 121u8, 68u8, 111u8, 119u8, 110u8],
            Attribute::OnKeyPress(_) => seq![111u8, 110u8, 75u8, 101u8, 121u8, 80u8, 114u8, 101u8, 115u8, 115u8],
            Attribute::OnKeyUp(_) => seq![111u8, 110u8, 75u8, 101u8, 121u8, 85u8, 112u8],
            Attribute::OnClick(_) => seq![111u8, 110u8, 67u8, 108u8, 105u8, 99u8, 107u8],
            Attribute::OnDoubleClick(_) => seq![111u8, 110u8, 68u8, 111u8, 117u8, 98u8, 108u8, 101u8, 67u8, 108u8, 105u8, 99u8, 107u8],
            Attribute::OnMouseDown(_) => seq![111u8, 110u8, 77u8, 111u8, 117u8, 115u8, 101u8, 68u8, 111u8, 119u8, 110u8],
            Attribute::OnMouseMove(_) => seq![111u8, 110u8, 77u8, 111u8, 117u8, 115u8, 101u8, 77u8, 111u8, 118u8, 101u8],
            Attribute::OnMouseOut(_) => seq![111u8, 110u8, 77u8, 111u8, 117u8, 115u8, 101u8, 79u8, 117u8, 116u8],
            Attribute::OnMouseOver(_) => seq![111u8, 110u8, 77u8, 111u8, 117u8, 115u8, 101u8, 79u8, 118u8, 101u8, 114u8],
            Attribute::OnMouseUp(_) => seq![111u8, 110u8, 77u8, 111u8, 117u8, 115u8, 101u8, 85u8, 112u8],
            Attribute::OnWheel(_) => seq![111u8, 110u8, 87u8, 104u8, 101u8, 101u8, 108u8],
            Attribute::OnDrag(_) => seq![111u8, 110u8, 68u8, 114u8, 97u8, 103u8],
            Attribute::OnDragEnd(_) => seq![111u8, 110u8, 68u8, 114u8, 97u8, 103u8, 69u8, 110u8, 100u8],
            Attribute::OnDragEnter(_) => seq![111u8, 110u8, 68u8, 114u8, 97u8, 103u8, 69u8, 110u8, 116u8, 101u8, 114u8],
            Attribute::OnDragLeave(_) => seq![111u8, 110u8, 68u8, 114u8, 97u8, 103u8, 76u8, 101u8, 97u8, 118u8, 101u8],
            Attribute::OnDragOver(_) => seq![111u8, 110u8, 68u8, 114u8, 97u8, 103u8, 79u8, 118u8, 101u8, 114u8],
            Attribute::OnDragStart(_) => seq![111u8, 110u8, 68u8, 114u8, 97u8, 103u8, 83u8, 116u8, 97u8, 114u8, 116u8],
            Attribute::OnDrop(_) => seq![111u8, 110u8, 68u8, 114u8, 111u8, 112u8],
            Attribute::OnScroll(_) => seq![111u8, 110u8, 83u8, 99u8, 114u8, 111u8, 108u8, 108u8],
            Attribute::OnCopy(_) => seq![111u8, 110u8, 67u8, 111u8, 112u8, 121u8],
            Attribute::OnCut(_) => seq![111u8, 110u8, 67u8, 117u8, 116u8],
            Attribute::OnPaste(_) => seq![111u8, 110u8, 80u8, 97u8, 115u8, 116u8, 101u8],
            Attribute::OnAbort(_) => seq![111u8, 110u8, 65u8, 98u8, 111u8, 114u8, 116u8],
            Attribute::OnCanPlay(_) => seq![111u8, 110u8, 67u8, 97u8, 110u8, 80u8, 108u8, 97u8, 121u8],
            Attribute::OnCanPlayThrough(_) => seq![111u8, 110u8, 67u8, 97u8, 110u8, 80u8, 108u8, 97u8, 121u8, 84u8, 104u8, 114u8, 111u8, 117u8, 103u8, 104u8],
            Attribute::OnCueChange(_) => seq![111u8, 110u8, 67u8, 117u8, 101u8, 67u8, 104u8, 97u8, 110u8, 103u8, 101u8],
            Attribute::OnDurationChange(_) => seq![111u8, 110u8, 68u8, 117u8, 114u8, 97u8, 116u8, 105u8, 111u8, 110u8, 67u8, 104u8, 97u8, 110u8, 103u8, 101u8],
            Attribute::OnEmptied(_) => seq![111u8, 110u8, 69u8, 109u8, 112u8, 116u8, 105u8, 101u8, 100u8],
            Attribute::OnEnded(_) => seq![111u8, 110u8, 69u8, 110u8, 100u8, 101u8, 100u8],
            Attribute::OnLoadedData(_) => seq![111u8, 110u8, 76u8, 111u8, 97u8, 100u8, 101u8, 100u8, 68u8, 97u8, 116u8, 97u8],
            Attribute::OnLoadedMetadata(_) => seq![111u8, 110u8, 76u8, 111u8, 97u8, 100u8, 101u8, 100u8, 77u8, 101u8, 116u8, 97u8, 100u8, 97u8, 116u8, 97u8],
            Attribute::OnLoadStart(_) => seq![111u8, 110u8, 76u8, 111u8, 97u8, 100u8, 83u8, 116u8, 97u8, 114u8, 116u8],
            Attribute::OnPause(_) => seq![111u8, 110u8, 80u8, 97u8, 117u8, 115u8, 101u8],
            Attribute::OnPlay(_) => seq![111u8, 110u8, 80u8, 108u8, 97u8, 121u8],
            Attribute::OnPlaying(_) => seq![111u8, 110u8, 80u8, 108u8, 97u8, 121u8, 105u8, 110u8, 103u8],
            Attribute::OnProgress(_) => seq![111u8, 110u8, 80u8, 114u8, 111u8, 103u8, 114u8, 101u8, 115u8, 115u8],
            Attribute::OnRateChange(_) => seq![111u8, 110u8, 82u8, 97u8, 116u8, 101u8, 67u8, 104u8, 97u8, 110u8, 103u8, 101u8],
            Attribute::OnSeeked(_) => seq![111u8, 110u8, 83u8, 101u8, 101u8, 107u8, 101u8, 100u8],
            Attribute::OnSeeking(_) => seq![111u8, 110u8, 83u8, 101u8, 101u8, 107u8, 105u8, 110u8, 103u8],
            Attribute::OnStalled(_) => seq![111u8, 110u8, 83u8, 116u8, 97u8, 108u8, 108u8, 101u8, 100u8],
            Attribute::OnSuspend(_) => seq![111u8, 110u8, 83u8, 117u8, 115u8, 112u8, 101u8, 110u8, 100u8],
            Attribute::OnTimeUpdate(_) => seq![111u8, 110u8, 84u8, 105u8, 109u8, 101u8, 85u8, 112u8, 100u8, 97u8, 116u8, 101u8],
            Attribute::OnVolumeChange(_) => seq![111u8, 110u8, 86u8, 111u8, 108u8, 117u8, 109u8, 101u8, 67u8, 104u8, 97u8, 110u8, 103u8, 101u8],
            Attribute::OnWaiting(_) => seq![111u8, 110u8, 87u8, 97u8, 105u8, 116u8, 105u8, 110u8, 103u8],
            Attribute::OnToggle(_) => seq![111u8, 110u8, 84u8, 111u8, 103u8, 103u8, 108u8, 101u8],
            Attribute::KeyPoints(_) => seq![107u8, 101u8, 121u8, 80u8, 111u8, 105u8, 110u8, 116u8, 115u8],
            Attribute::Path(_) => seq![112u8, 97u8, 116u8, 104u8],
            Attribute::Rotate(_) => seq![114u8, 111u8, 116u8, 97u8, 116u8, 101u8],
            Attribute::CalcMode => seq![99u8, 97u8, 108u8, 99u8, 77u8, 111u8, 100u8, 101u8],
            Attribute::Values => seq![118u8, 97u8, 108u8, 117u8, 101u8, 115u8],
            Attribute::KeyTimes => seq![107u8, 101u8, 121u8, 84u8, 105u8, 109u8, 101u8, 115u8],
            Attribute::KeySplines => seq![107u8, 101u8, 121u8, 83u8, 112u8, 108u8, 105u8, 110u8, 101u8, 115u8],
            Attribute::From => seq![102u8, 114u8, 111u8, 109u8],
            Attribute::To => seq![116u8, 111u8],
            Attribute::By => seq![98u8, 121u8],
            Attribute::PathLength(_) => seq![112u8, 97u8, 116u8, 104u8, 76u8, 101u8, 110u8, 103u8, 116u8, 104u8],
            Attribute::X1(_) => seq![120u8, 49u8],
            Attribute::Y1(_) => seq![121u8, 49u8],
            Attribute::X2(_) => seq![120u8, 50u8],
            Attribute::Y2(_) => seq![121u8, 50u8],
            Attribute::Points(_) => seq![112u8, 111u8, 105u8, 110u8, 116u8, 115u8],
            Attribute::Download(_) => seq![100u8, 111u8, 119u8, 110u8, 108u8, 111u8, 97u8, 100u8],
            Attribute::HrefLang(_) => seq![104u8, 114u8, 101u8, 102u8, 76u8, 97u8, 110u8, 103u8],
            Attribute::InterestFor(_) => seq![105u8, 110u8, 116u8, 101u8, 114u8, 101u8, 115u8, 116u8, 70u8, 111u8, 114u8],
            Attribute::Ping(_) => seq![112u8, 105u8, 110u8, 103u8],
            Attribute::ReferrerPolicy(_) => seq![114u8, 101u8, 102u8, 101u8, 114u8, 114u8, 101u8, 114u8, 80u8, 111u8, 108u8, 105u8, 99u8, 121u8],
            Attribute::Rel(_) => seq![114u8, 101u8, 108u8],
            Attribute::Target(_) => seq![116u8, 97u8, 114u8, 103u8, 101u8, 116u8],
            Attribute::MarkerHeight(_) => seq![109u8, 97u8, 114u8, 107u8, 101u8, 114u8, 72u8, 101u8, 105u8, 103u8, 104u8, 116u8],
            Attribute::MarkerUnits(_) => seq![109u8, 97u8, 114u8, 107u8, 101u8, 114u8, 85u8, 110u8, 105u8, 116u8, 115u8],
            Attribute::MarkerWidth(_) => seq![109u8, 97u8, 114u8, 107u8, 101u8, 114u8, 87u8, 105u8, 100u8, 116u8, 104u8],
            Attribute::Orient(_) => seq![111u8, 114u8, 105u8, 101u8, 110u8, 116u8],
            Attribute::PreserveAspectRatio(_) => seq![112u8, 114u8, 101u8, 115u8, 101u8, 114u8, 118u8, 101u8, 65u8, 115u8, 112u8, 101u8, 99u8, 116u8, 82u8, 97u8, 116u8, 105u8, 111u8],
            Attribute::RefX(_) => seq![114u8, 101u8, 102u8, 88u8],
            Attribute::RefY(_) => seq![114u8, 101u8, 102u8, 89u8],
            Attribute::ViewBox(_) => seq![118u8, 105u8, 101u8, 119u8, 66u8, 111u8, 120u8],
            Attribute::MaskContentUnits(_) => seq![109u8, 97u8, 115u8, 107u8, 67u8, 111u8, 110u8, 116u8, 101u8, 110u8, 116u8, 85u8, 110u8, 105u8, 116u8, 115u8],
            Attribute::MaskUnits(_) => seq![109u8, 97u8, 115u8, 107u8, 85u8, 110u8, 105u8, 116u8, 115u8],
            Attribute::PatternContentUnits(_) => seq![112u8, 97u8, 116u8, 116u8, 101u8, 114u8, 110u8, 67u8, 111u8, 110u8, 116u8, 101u8, 110u8, 116u8, 85u8, 110u8, 105u8, 116u8, 115u8],
            Attribute::PatternUnits(_) => seq![112u8, 97u8, 116u8, 116u8, 101u8, 114u8, 110u8, 85u8, 110u8, 105u8, 116u8, 115u8],
            Attribute::PatternTransform(_) => seq![112u8, 97u8, 116u8, 116u8, 101u8, 114u8, 110u8, 84u8, 114u8, 97u8, 110u8, 115u8, 102u8, 111u8, 114u8, 109u8],
            Attribute::Result(_) => seq![114u8, 101u8, 115u8, 117u8, 108u8, 116u8],
            Attribute::In(_) => seq![105u8, 110u8],
            Attribute::In2(_) => seq![105u8, 110u8, 50u8],
            Attribute::Mode(_) => seq![109u8, 111u8, 100u8, 101u8],
            Attribute::Operator(_) => seq![111u8, 112u8, 101u8, 114u8, 97u8, 116u8, 111u8, 114u8],
            Attribute::K1(_) => seq![107u8, 49u8],
            Attribute::K2(_) => seq![107u8, 50u8],
            Attribute::K3(_) => seq![107u8, 51u8],
            Attribute::K4(_) => seq![107u8, 52u8],
            Attribute::Order(_) => seq![111u8, 114u8, 100u8, 101u8, 114u8],
            Attribute::KernelMatrix(_) => seq![107u8, 101u8, 114u8, 110u8, 101u8, 108u8, 77u8, 97u8, 116u8, 114u8, 105u8, 120u8],
            Attribute::Divisor(_) => seq![100u8, 105u8, 118u8, 105u8, 115u8, 111u8, 114u8],
            Attribute::Bias(_) => seq![98u8, 105u8, 97u8, 115u8],
            Attribute::TargetX(_) => seq![116u8, 97u8, 114u8, 103u8, 101u8, 116u8, 88u8],
            Attribute::TargetY(_) => seq![116u8, 97u8, 114u8, 103u8, 101u8, 116u8, 89u8],
            Attribute::EdgeMode(_) => seq![101u8, 100u8, 103u8, 101u8, 77u8, 111u8, 100u8, 101u8],
            Attribute::KernelUnitLength(_) => seq![107u8, 101u8, 114u8, 110u8, 101u8, 108u8, 85u8, 110u8, 105u8, 116u8, 76u8, 101u8, 110u8, 103u8, 116u8, 104u8],
            Attribute::PreserveAlpha(_) => seq![112u8, 114u8, 101u8, 115u8, 101u8, 114u8, 118u8, 101u8, 65u8, 108u8, 112u8, 104u8, 97u8],
            Attribute::SurfaceScale(_) => seq![115u8, 117u8, 114u8, 102u8, 97u8, 99u8, 101u8, 83u8, 99u8, 97u8, 108u8, 101u8],
            Attribute::DiffuseConstant(_) => seq![100u8, 105u8, 102u8, 102u8, 117u8, 115u8, 101u8, 67u8, 111u8, 110u8, 115u8, 116u8, 97u8, 110u8, 116u8],
            Attribute::Scale(_) => seq![115u8, 99u8, 97u8, 108u8, 101u8],
            Attribute::XChannelSelector(_) => seq![120u8, 67u8, 104u8, 97u8, 110u8, 110u8, 101u8, 108u8, 83u8, 101u8, 108u8, 101u8, 99u8, 116u8, 111u8, 114u8],
            Attribute::YChannelSelector(_) => seq![121u8, 67u8, 104u8, 97u8, 110u8, 110u8, 101u8, 108u8, 83u8, 101u8, 108u8, 101u8, 99u8, 116u8, 111u8, 114u8],
            Attribute::Dx(_) => seq![100u8, 120u8],
            Attribute::Dy(_) => seq![100u8, 121u8],
            Attribute::StdDeviation(_) => seq![115u8, 116u8, 100u8, 68u8, 101u8, 118u8, 105u8, 97u8, 116u8, 105u8, 111u8, 110u8],
            Attribute::CrossOrigin(_) => seq![99u8, 114u8, 111u8, 115u8, 115u8, 79u8, 114u8, 105u8, 103u8, 105u8, 110u8],
            Attribute::Radius(_) => seq![114u8, 97u8, 100u8, 105u8, 117u8, 115u8],
            Attribute::SpecularConstant(_) => seq![115u8, 112u8, 101u8, 99u8, 117u8, 108u8, 97u8, 114u8, 67u8, 111u8, 110u8, 115u8, 116u8, 97u8, 110u8, 116u8],
            Attribute::SpecularExponent(_) => seq![115u8, 112u8, 101u8, 99u8, 117u8, 108u8, 97u8, 114u8, 69u8, 120u8, 112u8, 111u8, 110u8, 101u8, 110u8, 116u8],
            Attribute::BaseFrequency(_) => seq![98u8, 97u8, 115u8, 101u8, 70u8, 114u8, 101u8, 113u8, 117u8, 101u8, 110u8, 99u8, 121u8],
            Attribute::NumOctaves(_) => seq![110u8, 117u8, 109u8, 79u8, 99u8, 116u8, 97u8, 118u8, 101u8, 115u8],
            Attribute::Seed(_) => seq![115u8, 101u8, 101u8, 100u8],
            Attribute::StitchTiles(_) => seq![115u8, 116u8, 105u8, 116u8, 99u8, 104u8, 84u8, 105u8, 108u8, 101u8, 115u8],
            Attribute::GradientUnits(_) => seq![103u8, 114u8, 97u8, 100u8, 105u8, 101u8, 110u8, 116u8, 85u8, 110u8, 105u8, 116u8, 115u8],
            Attribute::GradientTransform(_) => seq![103u8, 114u8, 97u8, 100u8, 105u8, 101u8, 110u8, 116u8, 84u8, 114u8, 97u8, 110u8, 115u8, 102u8, 111u8, 114u8, 109u8],
            Attribute::SpreadMethod(_) => seq![115u8, 112u8, 114u8, 101u8, 97u8, 100u8, 77u8, 101u8, 116u8, 104u8, 111u8, 100u8],
            Attribute::Fx(_) => seq![102u8, 120u8],
            Attribute::Fy(_) => seq![102u8, 121u8],
            Attribute::Fr(_) => seq![102u8, 114u8],
            Attribute::Decoding(_) => seq![100u8, 101u8, 99u8, 111u8, 100u8, 105u8, 110u8, 103u8],
            Attribute::FetchPriority(_) => seq![102u8, 101u8, 116u8, 99u8, 104u8, 80u8, 114u8, 105u8, 111u8, 114u8, 105u8, 116u8, 121u8],
            Attribute::LengthAdjust(_) => seq![108u8, 101u8, 110u8, 103u8, 116u8, 104u8, 65u8, 100u8, 106u8, 117u8, 115u8, 116u8],
            Attribute::TextLength(_) => seq![116u8, 101u8, 120u8, 116u8, 76u8, 101u8, 110u8, 103u8, 116u8, 104u8],
            Attribute::ClipPathUnits(_) => seq![99u8, 108u8, 105u8, 112u8, 80u8, 97u8, 116u8, 104u8, 85u8, 110u8, 105u8, 116u8, 115u8],
            Attribute::Method(_) => seq![109u8, 101u8, 116u8, 104u8, 111u8, 100u8],
            Attribute::Side(_) => seq![115u8, 105u8, 100u8, 101u8],
            Attribute::Spacing(_) => seq![115u8, 112u8, 97u8, 99u8, 105u8, 110u8, 103u8],
            Attribute::StartOffset(_) => seq![115u8, 116u8, 97u8, 114u8, 116u8, 79u8, 102u8, 102u8, 115u8, 101u8, 116u8],
            Attribute::FilterUnits(_) => seq![102u8, 105u8, 108u8, 116u8, 101u8, 114u8, 85u8, 110u8, 105u8, 116u8, 115u8],
            Attribute::PrimitiveUnits(_) => seq![112u8, 114u8, 105u8, 109u8, 105u8, 116u8, 105u8, 118u8, 101u8, 85u8, 110u8, 105u8, 116u8, 115u8],
        }
    }

    pub fn name(&self) -> (r: &'static [u8])
        ensures
            r@ == self.spec_name(),
    {
        match self {
            Attribute::Xmlns(_) => &[120u8, 109u8, 108u8, 110u8, 115u8],
            Attribute::Autofocus(_) => &[97u8, 117u8, 116u8, 111u8, 102u8, 111u8, 99u8, 117u8, 115u8],
            Attribute::Id(_) => &[105u8, 100u8],
            Attribute::Class(_) => &[99u8, 108u8, 97u8, 115u8, 115u8],
            Attribute::Style(_) => &[115u8, 116u8, 121u8, 108u8, 101u8],
            Attribute::Lang(_) => &[108u8, 97u8, 110u8, 103u8],
            Attribute::Tabindex(_) => &[116u8, 97u8, 98u8, 105u8, 110u8, 100u8, 101u8, 120u8],
            Attribute::RequiredExtensions(_) => &[114u8, 101u8, 113u8, 117u8, 105u8, 114u8, 101u8, 100u8, 69u8, 120u8, 116u8, 101u8, 110u8, 115u8, 105u8, 111u8, 110u8, 115u8],
            Attribute::SystemLanguage(_) => &[115u8, 121u8, 115u8, 116u8, 101u8, 109u8, 76u8, 97u8, 110u8, 103u8, 117u8, 97u8, 103u8, 101u8],
            Attribute::AlignmentBaseline(_) => &[97u8, 108u8, 105u8, 103u8, 110u8, 109u8, 101u8, 110u8, 116u8, 45u8, 98u8, 97u8, 115u8, 101u8, 108u8, 105u8, 110u8, 101u8],
            Attribute::BaselineShift(_) => &[98u8, 97u8, 115u8, 101u8, 108u8, 105u8, 110u8, 101u8, 45u8, 115u8, 104u8, 105u8, 102u8, 116u8],
            Attribute::ClipPath(_) => &[99u8, 108u8, 105u8, 112u8, 45u8, 112u8, 97u8, 116u8, 104u8],
            Attribute::ClipRule(_) => &[99u8, 108u8, 105u8, 112u8, 45u8, 114u8, 117u8, 108u8, 101u8],
            Attribute::Color(_) => &[99u8, 111u8, 108u8, 111u8, 114u8],
            Attribute::ColorInterpolation(_) => &[99u8, 111u8, 108u8, 111u8, 114u8, 45u8, 105u8, 110u8, 116u8, 101u8, 114u8, 112u8, 111u8, 108u8, 97u8, 116u8, 105u8, 111u8, 110u8],
            Attribute::ColorInterpolationFilters(_) => &[99u8, 111u8, 108u8, 111u8, 114u8, 45u8, 105u8, 110u8, 116u8, 101u8, 114u8, 112u8, 111u8, 108u8, 97u8, 116u8, 105u8, 111u8, 110u8, 45u8, 102u8, 105u8, 108u8, 116u8, 101u8, 114u8, 115u8],
            Attribute::Cursor(_) => &[99u8, 117u8, 114u8, 115u8, 111u8, 114u8],
            Attribute::Cx(_) => &[99u8, 120u8],
            Attribute::Cy(_) => &[99u8, 121u8],
            Attribute::D(_) => {
                let b: &'static [u8] = &[100u8, 0u8];
                let r = &b[0..1];
                assert(r@ =~= seq![100u8]);
                r
            },
            Attribute::Direction(_) => &[100u8, 105u8, 114u8, 101u8, 99u8, 116u8, 105u8, 111u8, 110u8],
            Attribute::Display(_) => &[100u8, 105u8, 115u8, 112u8, 108u8, 97u8, 121u8],
            Attribute::DominantBaseline(_) => &[100u8, 111u8, 109u8, 105u8, 110u8, 97u8, 110u8, 116u8, 45u8, 98u8, 97u8, 115u8, 101u8, 108u8, 105u8, 110u8, 101u8],
            Attribute::Fill(_) => &[102u8, 105u8, 108u8, 108u8],
            Attribute::FillOpacity(_) => &[102u8, 105u8, 108u8, 108u8, 45u8, 111u8, 112u8, 97u8, 99u8, 105u8, 116u8, 121u8],
            Attribute::FillRule(_) => &[102u8, 105u8, 108u8, 108u8, 45u8, 114u8, 117u8, 108u8, 101u8],
            Attribute::Filter(_) => &[102u8, 105u8, 108u8, 116u8, 101u8, 114u8],
            Attribute::FloodColor(_) => &[102u8, 108u8, 111u8, 111u8, 100u8, 45u8, 99u8, 111u8, 108u8, 111u8, 114u8],
            Attribute::FloodOpacity(_) => &[102u8, 108u8, 111u8, 111u8, 100u8, 45u8, 111u8, 112u8, 97u8, 99u8, 105u8, 116u8, 121u8],
            Attribute::FontFamily(_) => &[102u8, 111u8, 110u8, 116u8, 45u8, 102u8, 97u8, 109u8, 105u8, 108u8, 121u8],
            Attribute::FontSize(_) => &[102u8, 111u8, 110u8, 116u8, 45u8, 115u8, 105u8, 122u8, 101u8],
            Attribute::FontSizeAdjust(_) => &[102u8, 111u8, 110u8, 116u8, 45u8, 115u8, 105u8, 122u8, 101u8, 45u8, 97u8, 100u8, 106u8, 117u8, 115u8, 116u8],
            Attribute::FontStyle(_) => &[102u8, 111u8, 110u8, 116u8, 45u8, 115u8, 116u8, 121u8, 108u8, 101u8],
            Attribute::FontVariant(_) => &[102u8, 111u8, 110u8, 116u8, 45u8, 118u8, 97u8, 114u8, 105u8, 97u8, 110u8, 116u8],
            Attribute::FontWeight(_) => &[102u8, 111u8, 110u8, 116u8, 45u8, 119u8, 101u8, 105u8, 103u8, 104u8, 116u8],
            Attribute::Height(_) => &[104u8, 101u8, 105u8, 103u8, 104u8, 116u8],
            Attribute::ImageRendering(_) => &[105u8, 109u8, 97u8, 103u8, 101u8, 45u8, 114u8, 101u8, 110u8, 100u8, 101u8, 114u8, 105u8, 110u8, 103u8],
            Attribute::LetterSpacing(_) => &[108u8, 101u8, 116u8, 116u8, 101u8, 114u8, 45u8, 115u8, 112u8, 97u8, 99u8, 105u8, 110u8, 103u8],
            Attribute::LightingColor(_) => &[108u8, 105u8, 103u8, 104u8, 116u8, 105u8, 110u8, 103u8, 45u8, 99u8, 111u8, 108u8, 111u8, 114u8],
            Attribute::MarkerEnd(_) => &[109u8, 97u8, 114u8, 107u8, 101u8, 114u8, 45u8, 101u8, 110u8, 100u8],
            Attribute::MarkerMid(_) => &[109u8, 97u8, 114u8, 107u8, 101u8, 114u8, 45u8, 109u8, 105u8, 100u8],
            Attribute::MarkerStart(_) => &[109u8, 97u8, 114u8, 107u8, 101u8, 114u8, 45u8, 115u8, 116u8, 97u8, 114u8, 116u8],
            Attribute::Mask(_) => &[109u8, 97u8, 115u8, 107u8],
            Attribute::MaskType(_) => &[109u8, 97u8, 115u8, 107u8, 45u8, 116u8, 121u8, 112u8, 101u8],
            Attribute::Opacity(_) => &[111u8, 112u8, 97u8, 99u8, 105u8, 116u8, 121u8],
            Attribute::Overflow(_) => &[111u8, 118u8, 101u8, 114u8, 102u8, 108u8, 111u8, 119u8],
            Attribute::PointerEvents(_) => &[112u8, 111u8, 105u8, 110u8, 116u8, 101u8, 114u8, 45u8, 101u8, 118u8, 101u8, 110u8, 116u8, 115u8],
            Attribute::R(_) => {
                let b: &'static [u8] = &[114u8, 0u8];
                let r = &b[0..1];
                assert(r@ =~= seq![114u8]);
                r
            },
            Attribute::Rx(_) => &[114u8, 120u8],
            Attribute::Ry(_) => &[114u8, 121u8],
            Attribute::ShapeRendering(_) => &[115u8, 104u8, 97u8, 112u8, 101u8, 45u8, 114u8, 101u8, 110u8, 100u8, 101u8, 114u8, 105u8, 110u8, 103u8],
            Attribute::StopColor(_) => &[115u8, 116u8, 111u8, 112u8, 45u8, 99u8, 111u8, 108u8, 111u8, 114u8],
            Attribute::StopOpacity(_) => &[115u8, 116u8, 111u8, 112u8, 45u8, 111u8, 112u8, 97u8, 99u8, 105u8, 116u8, 121u8],
            Attribute::Stroke(_) => &[115u8, 116u8, 114u8, 111u8, 107u8, 101u8],
            Attribute::StrokeDasharray(_) => &[115u8, 116u8, 114u8, 111u8, 107u8, 101u8, 45u8, 100u8, 97u8, 115u8, 104u8, 97u8, 114u8, 114u8, 97u8, 121u8],
            Attribute::StrokeDashoffset(_) => &[115u8, 116u8, 114u8, 111u8, 107u8, 101u8, 45u8, 100u8, 97u8, 115u8, 104u8, 111u8, 102u8, 102u8, 115u8, 101u8, 116u8],
            Attribute::StrokeLinecap(_) => &[115u8, 116u8, 114u8, 111u8, 107u8, 101u8, 45u8, 108u8, 105u8, 110u8, 101u8, 99u8, 97u8, 112u8],
            Attribute::StrokeLinejoin(_) => &[115u8, 116u8, 114u8, 111u8, 107u8, 101u8, 45u8, 108u8, 105u8, 110u8, 101u8, 106u8, 111u8, 105u8, 110u8],
            Attribute::StrokeMiterlimit(_) => &[115u8, 116u8, 114u8, 111u8, 107u8, 101u8, 45u8, 109u8, 105u8, 116u8, 101u8, 114u8, 108u8, 105u8, 109u8, 105u8, 116u8],
            Attribute::StrokeOpacity(_) => &[115u8, 116u8, 114u8, 111u8, 107u8, 101u8, 45u8, 111u8, 112u8, 97u8, 99u8, 105u8, 116u8, 121u8],
            Attribute::StrokeWidth(_) => &[115u8, 116u8, 114u8, 111u8, 107u8, 101u8, 45u8, 119u8, 105u8, 100u8, 116u8, 104u8],
            Attribute::TextAnchor(_) => &[116u8, 101u8, 120u8, 116u8, 45u8, 97u8, 110u8, 99u8, 104u8, 111u8, 114u8],
            Attribute::TextDecoration(_) => &[116u8, 101u8, 120u8, 116u8, 45u8, 100u8, 101u8, 99u8, 111u8, 114u8, 97u8, 116u8, 105u8, 111u8, 110u8],
            Attribute::TextOverflow(_) => &[116u8, 101u8, 120u8, 116u8, 45u8, 111u8, 118u8, 101u8, 114u8, 102u8, 108u8, 111u8, 119u8],
            Attribute::TextRendering(_) => &[116u8, 101u8, 120u8, 116u8, 45u8, 114u8, 101u8, 110u8, 100u8, 101u8, 114u8, 105u8, 110u8, 103u8],
            Attribute::Transform(_) => &[116u8, 114u8, 97u8, 110u8, 115u8, 102u8, 111u8, 114u8, 109u8],
            Attribute::TransformOrigin(_) => &[116u8, 114u8, 97u8, 110u8, 115u8, 102u8, 111u8, 114u8, 109u8, 45u8, 111u8, 114u8, 105u8, 103u8, 105u8, 110u8],
            Attribute::UnicodeBidi(_) => &[117u8, 110u8, 105u8, 99u8, 111u8, 100u8, 101u8, 45u8, 98u8, 105u8, 100u8, 105u8],
            Attribute::VectorEffect(_) => &[118u8, 101u8, 99u8, 116u8, 111u8, 114u8, 45u8, 101u8, 102u8, 102u8, 101u8, 99u8, 116u8],
            Attribute::Visibility(_) => &[118u8, 105u8, 115u8, 105u8, 98u8, 105u8, 108u8, 105u8, 116u8, 121u8],
            Attribute::Width(_) => &[119u8, 105u8, 100u8, 116u8, 104u8],
            Attribute::WhiteSpace(_) => &[119u8, 104u8, 105u8, 116u8, 101u8, 45u8, 115u8, 112u8, 97u8, 99u8, 101u8],
            Attribute::WordSpacing(_) => &[119u8, 111u8, 114u8, 100u8, 45u8, 115u8, 112u8, 97u8, 99u8, 105u8, 110u8, 103u8],
            Attribute::WritingMode(_) => &[119u8, 114u8, 105u8, 116u8, 105u8, 110u8, 103u8, 45u8, 109u8, 111u8, 100u8, 101u8],
            Attribute::X(_) => {
                let b: &'static [u8] = &[120u8, 0u8];
                let r = &b[0..1];
                assert(r@ =~= seq![120u8]);
                r
            },
            Attribute::Y(_) => {
                let b: &'static [u8] = &[121u8, 0u8];
                let r = &b[0..1];
                assert(r@ =~= seq![121u8]);
                r
            },
            Attribute::Type => &[116u8, 121u8, 112u8, 101u8],
            Attribute::TableValues => &[116u8, 97u8, 98u8, 108u8, 101u8, 86u8, 97u8, 108u8, 117u8, 101u8, 115u8],
            Attribute::Slope => &[115u8, 108u8, 111u8, 112u8, 101u8],
            Attribute::Intercept => &[105u8, 110u8, 116u8, 101u8, 114u8, 99u8, 101u8, 112u8, 116u8],
            Attribute::Amplitude => &[97u8, 109u8, 112u8, 108u8, 105u8, 116u8, 117u8, 100u8, 101u8],
            Attribute::Exponent => &[101u8, 120u8, 112u8, 111u8, 110u8, 101u8, 110u8, 116u8],
            Attribute::Offset => &[111u8, 102u8, 102u8, 115u8, 101u8, 116u8],
            Attribute::Href(_) => &[104u8, 114u8, 101u8, 102u8],
            Attribute::AttributeType => &[97u8, 116u8, 116u8, 114u8, 105u8, 98u8, 117u8, 116u8, 101u8, 84u8, 121u8, 112u8, 101u8],
            Attribute::AttributeName => &[97u8, 116u8, 116u8, 114u8, 105u8, 98u8, 117u8, 116u8, 101u8, 78u8, 97u8, 109u8, 101u8],
            Attribute::Begin => &[98u8, 101u8, 103u8, 105u8, 110u8],
            Attribute::Dur => &[100u8, 117u8, 114u8],
            Attribute::End => &[101u8, 110u8, 100u8],
            Attribute::Min => &[109u8, 105u8, 110u8],
            Attribute::Max => &[109u8, 97u8, 120u8],
            Attribute::Restart => &[114u8, 101u8, 115u8, 116u8, 97u8, 114u8, 116u8],
            Attribute::RepeatCount => &[114u8, 101u8, 112u8, 101u8, 97u8, 116u8, 67u8, 111u8, 117u8, 110u8, 116u8],
            Attribute::RepeatDur => &[114u8, 101u8, 112u8, 101u8, 97u8, 116u8, 68u8, 117u8, 114u8],
            Attribute::Additive => &[97u8, 100u8, 100u8, 105u8, 116u8, 105u8, 118u8, 101u8],
            Attribute::Accumulate => &[97u8, 99u8, 99u8, 117u8, 109u8, 117u8, 108u8, 97u8, 116u8, 101u8],
            Attribute::OnAfterPrint(_) => &[111u8, 110u8, 65u8, 102u8, 116u8, 101u8, 114u8, 80u8, 114u8, 105u8, 110u8, 116u8],
            Attribute::OnBeforePrint(_) => &[111u8, 110u8, 66u8, 101u8, 102u8, 111u8, 114u8, 101u8, 80u8, 114u8, 105u8, 110u8, 116u8],
            Attribute::OnBeforeUnload(_) => &[111u8, 110u8, 66u8, 101u8, 102u8, 111u8, 114u8, 101u8, 85u8, 110u8, 108u8, 111u8, 97u8, 100u8],
            Attribute::OnError(_) => &[111u8, 110u8, 69u8, 114u8, 114u8, 111u8, 114u8],
            Attribute::OnHashChange(_) => &[111u8, 110u8, 72u8, 97u8, 115u8, 104u8, 67u8, 104u8, 97u8, 110u8, 103u8, 101u8],
            Attribute::OnLoad(_) => &[111u8, 110u8, 76u8, 111u8, 97u8, 100u8],
            Attribute::OnMessage(_) => &[111u8, 110u8, 77u8, 101u8, 115u8, 115u8, 97u8, 103u8, 101u8],
            Attribute::OnOffline(_) => &[111u8, 110u8, 79u8, 102u8, 102u8, 108u8, 105u8, 110u8, 101u8],
            Attribute::OnOnline(_) => &[111u8, 110u8, 79u8, 110u8, 108u8, 105u8, 110u8, 101u8],
            Attribute::OnPageHide(_) => &[111u8, 110u8, 80u8, 97u8, 103u8, 101u8, 72u8, 105u8, 100u8, 101u8],
            Attribute::OnPageShow(_) => &[111u8, 110u8, 80u8, 97u8, 103u8, 101u8, 83u8, 104u8, 111u8, 119u8],
            Attribute::OnPopState(_) => &[111u8, 110u8, 80u8, 111u8, 112u8, 83u8, 116u8, 97u8, 116u8, 101u8],
            Attribute::OnResize(_) => &[111u8, 110u8, 82u8, 101u8, 115u8, 105u8, 122u8, 101u8],
            Attribute::OnStorage(_) => &[111u8, 110u8, 83u8, 116u8, 111u8, 114u8, 97u8, 103u8, 101u8],
            Attribute::OnUnload(_) => &[111u8, 110u8, 85u8, 110u8, 108u8, 111u8, 97u8, 100u8],
            Attribute::OnBlur(_) => &[111u8, 110u8, 66u8, 108u8, 117u8, 114u8],
            Attribute::OnChange(_) => &[111u8, 110u8, 67u8, 104u8, 97u8, 110u8, 103u8, 101u8],
            Attribute::OnContextMenu(_) => &[111u8, 110u8, 67u8, 111u8, 110u8, 116u8, 101u8, 120u8, 116u8, 77u8, 101u8, 110u8, 117u8],
            Attribute::OnFocus(_) => &[111u8, 110u8, 70u8, 111u8, 99u8, 117u8, 115u8],
            Attribute::OnInput(_) => &[111u8, 110u8, 73u8, 110u8, 112u8, 117u8, 116u8],
            Attribute::OnInvalid(_) => &[111u8, 110u8, 73u8, 110u8, 118u8, 97u8, 108u8, 105u8, 100u8],
            Attribute::OnReset(_) => &[111u8, 110u8, 82u8, 101u8, 115u8, 101u8, 116u8],
            Attribute::OnSearch(_) => &[111u8, 110u8, 83u8, 101u8, 97u8, 114u8, 99u8, 104u8],
            Attribute::OnSelect(_) => &[111u8, 110u8, 83u8, 101u8, 108u8, 101u8, 99u8, 116u8],
            Attribute::OnSubmit(_) => &[111u8, 110u8, 83u8, 117u8, 98u8, 109u8, 105u8, 116u8],
            Attribute::OnKeyDown(_) => &[111u8, 110u8, 75u8, 101u8, 121u8, 68u8, 111u8, 119u8, 110u8],
            Attribute::OnKeyPress(_) => &[111u8, 110u8, 75u8, 101u8, 121u8, 80u8, 114u8, 101u8, 115u8, 115u8],
            Attribute::OnKeyUp(_) => &[111u8, 110u8, 75u8, 101u8, 121u8, 85u8, 112u8],
            Attribute::OnClick(_) => &[111u8, 110u8, 67u8, 108u8, 105u8, 99u8, 107u8],
            Attribute::OnDoubleClick(_) => &[111u8, 110u8, 68u8, 111u8, 117u8, 98u8, 108u8, 101u8, 67u8, 108u8, 105u8, 99u8, 107u8],
            Attribute::OnMouseDown(_) => &[111u8, 110u8, 77u8, 111u8, 117u8, 115u8, 101u8, 68u8, 111u8, 119u8, 110u8],
            Attribute::OnMouseMove(_) => &[111u8, 110u8, 77u8, 111u8, 117u8, 115u8, 101u8, 77u8, 111u8, 118u8, 101u8],
            Attribute::OnMouseOut(_) => &[111u8, 110u8, 77u8, 111u8, 117u8, 115u8, 101u8, 79u8, 117u8, 116u8],
            Attribute::OnMouseOver(_) => &[111u8, 110u8, 77u8, 111u8, 117u8, 115u8, 101u8, 79u8, 118u8, 101u8, 114u8],
            Attribute::OnMouseUp(_) => &[111u8, 110u8, 77u8, 111u8, 117u8, 115u8, 101u8, 85u8, 112u8],
            Attribute::OnWheel(_) => &[111u8, 110u8, 87u8, 104u8, 101u8, 101u8, 108u8],
            Attribute::OnDrag(_) => &[111u8, 110u8, 68u8, 114u8, 97u8, 103u8],
            Attribute::OnDragEnd(_) => &[111u8, 110u8, 68u8, 114u8, 97u8, 103u8, 69u8, 110u8, 100u8],
            Attribute::OnDragEnter(_) => &[111u8, 110u8, 68u8, 114u8, 97u8, 103u8, 69u8, 110u8, 116u8, 101u8, 114u8],
            Attribute::OnDragLeave(_) => &[111u8, 110u8, 68u8, 114u8, 97u8, 103u8, 76u8, 101u8, 97u8, 118u8, 101u8],
            Attribute::OnDragOver(_) => &[111u8, 110u8, 68u8, 114u8, 97u8, 103u8, 79u8, 118u8, 101u8, 114u8],
            Attribute::OnDragStart(_) => &[111u8, 110u8, 68u8, 114u8, 97u8, 103u8, 83u8, 116u8, 97u8, 114u8, 116u8],
            Attribute::OnDrop(_) => &[111u8, 110u8, 68u8, 114u8, 111u8, 112u8],
            Attribute::OnScroll(_) => &[111u8, 110u8, 83u8, 99u8, 114u8, 111u8, 108u8, 108u8],
            Attribute::OnCopy(_) => &[111u8, 110u8, 67u8, 111u8, 112u8, 121u8],
            Attribute::OnCut(_) => &[111u8, 110u8, 67u8, 117u8, 116u8],
            Attribute::OnPaste(_) => &[111u8, 110u8, 80u8, 97u8, 115u8, 116u8, 101u8],
            Attribute::OnAbort(_) => &[111u8, 110u8, 65u8, 98u8, 111u8, 114u8, 116u8],
            Attribute::OnCanPlay(_) => &[111u8, 110u8, 67u8, 97u8, 110u8, 80u8, 108u8, 97u8, 121u8],
            Attribute::OnCanPlayThrough(_) => &[111u8, 110u8, 67u8, 97u8, 110u8, 80u8, 108u8, 97u8, 121u8, 84u8, 104u8, 114u8, 111u8, 117u8, 103u8, 104u8],
            Attribute::OnCueChange(_) => &[111u8, 110u8, 67u8, 117u8, 101u8, 67u8, 104u8, 97u8, 110u8, 103u8, 101u8],
            Attribute::OnDurationChange(_) => &[111u8, 110u8, 68u8, 117u8, 114u8, 97u8, 116u8, 105u8, 111u8, 110u8, 67u8, 104u8, 97u8, 110u8, 103u8, 101u8],
            Attribute::OnEmptied(_) => &[111u8, 110u8, 69u8, 109u8, 112u8, 116u8, 105u8, 101u8, 100u8],
            Attribute::OnEnded(_) => &[111u8, 110u8, 69u8, 110u8, 100u8, 101u8, 100u8],
            Attribute::OnLoadedData(_) => &[111u8, 110u8, 76u8, 111u8, 97u8, 100u8, 101u8, 100u8, 68u8, 97u8, 116u8, 97u8],
            Attribute::OnLoadedMetadata(_) => &[111u8, 110u8, 76u8, 111u8, 97u8, 100u8, 101u8, 100u8, 77u8, 101u8, 116u8, 97u8, 100u8, 97u8, 116u8, 97u8],
            Attribute::OnLoadStart(_) => &[111u8, 110u8, 76u8, 111u8, 97u8, 100u8, 83u8, 116u8, 97u8, 114u8, 116u8],
            Attribute::OnPause(_) => &[111u8, 110u8, 80u8, 97u8, 117u8, 115u8, 101u8],
            Attribute::OnPlay(_) => &[111u8, 110u8, 80u8, 108u8, 97u8, 121u8],
            Attribute::OnPlaying(_) => &[111u8, 110u8, 80u8, 108u8, 97u8, 121u8, 105u8, 110u8, 103u8],
            Attribute::OnProgress(_) => &[111u8, 110u8, 80u8, 114u8, 111u8, 103u8, 114u8, 101u8, 115u8, 115u8],
            Attribute::OnRateChange(_) => &[111u8, 110u8, 82u8, 97u8, 116u8, 101u8, 67u8, 104u8, 97u8, 110u8, 103u8, 101u8],
            Attribute::OnSeeked(_) => &[111u8, 110u8, 83u8, 101u8, 101u8, 107u8, 101u8, 100u8],
            Attribute::OnSeeking(_) => &[111u8, 110u8, 83u8, 101u8, 101u8, 107u8, 105u8, 110u8, 103u8],
            Attribute::OnStalled(_) => &[111u8, 110u8, 83u8, 116u8, 97u8, 108u8, 108u8, 101u8, 100u8],
            Attribute::OnSuspend(_) => &[111u8, 110u8, 83u8, 117u8, 115u8, 112u8, 101u8, 110u8, 100u8],
            Attribute::OnTimeUpdate(_) => &[111u8, 110u8, 84u8, 105u8, 109u8, 101u8, 85u8, 112u8, 100u8, 97u8, 116u8, 101u8],
            Attribute::OnVolumeChange(_) => &[111u8, 110u8, 86u8, 111u8, 108u8, 117u8, 109u8, 101u8, 67u8, 104u8, 97u8, 110u8, 103u8, 101u8],
            Attribute::OnWaiting(_) => &[111u8, 110u8, 87u8, 97u8, 105u8, 116u8, 105u8, 110u8, 103u8],
            Attribute::OnToggle(_) => &[111u8, 110u8, 84u8, 111u8, 103u8, 103u8, 108u8, 101u8],
            Attribute::KeyPoints(_) => &[107u8, 101u8, 121u8, 80u8, 111u8, 105u8, 110u8, 116u8, 115u8],
            Attribute::Path(_) => &[112u8, 97u8, 116u8, 104u8],
            Attribute::Rotate(_) => &[114u8, 111u8, 116u8, 97u8, 116u8, 101u8],
            Attribute::CalcMode => &[99u8, 97u8, 108u8, 99u8, 77u8, 111u8, 100u8, 101u8],
            Attribute::Values => &[118u8, 97u8, 108u8, 117u8, 101u8, 115u8],
            Attribute::KeyTimes => &[107u8, 101u8, 121u8, 84u8, 105u8, 109u8, 101u8, 115u8],
            Attribute::KeySplines => &[107u8, 101u8, 121u8, 83u8, 112u8, 108u8, 105u8, 110u8, 101u8, 115u8],
            Attribute::From => &[102u8, 114u8, 111u8, 109u8],
            Attribute::To => &[116u8, 111u8],
            Attribute::By => &[98u8, 121u8],
            Attribute::PathLength(_) => &[112u8, 97u8, 116u8, 104u8, 76u8, 101u8, 110u8, 103u8, 116u8, 104u8],
            Attribute::X1(_) => &[120u8, 49u8],
            Attribute::Y1(_) => &[121u8, 49u8],
            Attribute::X2(_) => &[120u8, 50u8],
            Attribute::Y2(_) => &[121u8, 50u8],
            Attribute::Points(_) => &[112u8, 111u8, 105u8, 110u8, 116u8, 115u8],
            Attribute::Download(_) => &[100u8, 111u8, 119u8, 110u8, 108u8, 111u8, 97u8, 100u8],
            Attribute::HrefLang(_) => &[104u8, 114u8, 101u8, 102u8, 76u8, 97u8, 110u8, 103u8],
            Attribute::InterestFor(_) => &[105u8, 110u8, 116u8, 101u8, 114u8, 101u8, 115u8, 116u8, 70u8, 111u8, 114u8],
            Attribute::Ping(_) => &[112u8, 105u8, 110u8, 103u8],
            Attribute::ReferrerPolicy(_) => &[114u8, 101u8, 102u8, 101u8, 114u8, 114u8, 101u8, 114u8, 80u8, 111u8, 108u8, 105u8, 99u8, 121u8],
            Attribute::Rel(_) => &[114u8, 101u8, 108u8],
            Attribute::Target(_) => &[116u8, 97u8, 114u8, 103u8, 101u8, 116u8],
            Attribute::MarkerHeight(_) => &[109u8, 97u8, 114u8, 107u8, 101u8, 114u8, 72u8, 101u8, 105u8, 103u8, 104u8, 116u8],
            Attribute::MarkerUnits(_) => &[109u8, 97u8, 114u8, 107u8, 101u8, 114u8, 85u8, 110u8, 105u8, 116u8, 115u8],
            Attribute::MarkerWidth(_) => &[109u8, 97u8, 114u8, 107u8, 101u8, 114u8, 87u8, 105u8, 100u8, 116u8, 104u8],
            Attribute::Orient(_) => &[111u8, 114u8, 105u8, 101u8, 110u8, 116u8],
            Attribute::PreserveAspectRatio(_) => &[112u8, 114u8, 101u8, 115u8, 101u8, 114u8, 118u8, 101u8, 65u8, 115u8, 112u8, 101u8, 99u8, 116u8, 82u8, 97u8, 116u8, 105u8, 111u8],
            Attribute::RefX(_) => &[114u8, 101u8, 102u8, 88u8],
            Attribute::RefY(_) => &[114u8, 101u8, 102u8, 89u8],
            Attribute::ViewBox(_) => &[118u8, 105u8, 101u8, 119u8, 66u8, 111u8, 120u8],
            Attribute::MaskContentUnits(_) => &[109u8, 97u8, 115u8, 107u8, 67u8, 111u8, 110u8, 116u8, 101u8, 110u8, 116u8, 85u8, 110u8, 105u8, 116u8, 115u8],
            Attribute::MaskUnits(_) => &[109u8, 97u8, 115u8, 107u8, 85u8, 110u8, 105u8, 116u8, 115u8],
            Attribute::PatternContentUnits(_) => &[112u8, 97u8, 116u8, 116u8, 101u8, 114u8, 110u8, 67u8, 111u8, 110u8, 116u8, 101u8, 110u8, 116u8, 85u8, 110u8, 105u8, 116u8, 115u8],
            Attribute::PatternUnits(_) => &[112u8, 97u8, 116u8, 116u8, 101u8, 114u8, 110u8, 85u8, 110u8, 105u8, 116u8, 115u8],
            Attribute::PatternTransform(_) => &[112u8, 97u8, 116u8, 116u8, 101u8, 114u8, 110u8, 84u8, 114u8, 97u8, 110u8, 115u8, 102u8, 111u8, 114u8, 109u8],
            Attribute::Result(_) => &[114u8, 101u8, 115u8, 117u8, 108u8, 116u8],
            Attribute::In(_) => &[105u8, 110u8],
            Attribute::In2(_) => &[105u8, 110u8, 50u8],
            Attribute::Mode(_) => &[109u8, 111u8, 100u8, 101u8],
            Attribute::Operator(_) => &[111u8, 112u8, 101u8, 114u8, 97u8, 116u8, 111u8, 114u8],
            Attribute::K1(_) => &[107u8, 49u8],
            Attribute::K2(_) => &[107u8, 50u8],
            Attribute::K3(_) => &[107u8, 51u8],
            Attribute::K4(_) => &[107u8, 52u8],
            Attribute::Order(_) => &[111u8, 114u8, 100u8, 101u8, 114u8],
            Attribute::KernelMatrix(_) => &[107u8, 101u8, 114u8, 110u8, 101u8, 108u8, 77u8, 97u8, 116u8, 114u8, 105u8, 120u8],
            Attribute::Divisor(_) => &[100u8, 105u8, 118u8, 105u8, 115u8, 111u8, 114u8],
            Attribute::Bias(_) => &[98u8, 105u8, 97u8, 115u8],
            Attribute::TargetX(_) => &[116u8, 97u8, 114u8, 103u8, 101u8, 116u8, 88u8],
            Attribute::TargetY(_) => &[116u8, 97u8, 114u8, 103u8, 101u8, 116u8, 89u8],
            Attribute::EdgeMode(_) => &[101u8, 100u8, 103u8, 101u8, 77u8, 111u8, 100u8, 101u8],
            Attribute::KernelUnitLength(_) => &[107u8, 101u8, 114u8, 110u8, 101u8, 108u8, 85u8, 110u8, 105u8, 116u8, 76u8, 101u8, 110u8, 103u8, 116u8, 104u8],
            Attribute::PreserveAlpha(_) => &[112u8, 114u8, 101u8, 115u8, 101u8, 114u8, 118u8, 101u8, 65u8, 108u8, 112u8, 104u8, 97u8],
            Attribute::SurfaceScale(_) => &[115u8, 117u8, 114u8, 102u8, 97u8, 99u8, 101u8, 83u8, 99u8, 97u8, 108u8, 101u8],
            Attribute::DiffuseConstant(_) => &[100u8, 105u8, 102u8, 102u8, 117u8, 115u8, 101u8, 67u8, 111u8, 110u8, 115u8, 116u8, 97u8, 110u8, 116u8],
            Attribute::Scale(_) => &[115u8, 99u8, 97u8, 108u8, 101u8],
            Attribute::XChannelSelector(_) => &[120u8, 67u8, 104u8, 97u8, 110u8, 110u8, 101u8, 108u8, 83u8, 101u8, 108u8, 101u8, 99u8, 116u8, 111u8, 114u8],
            Attribute::YChannelSelector(_) => &[121u8, 67u8, 104u8, 97u8, 110u8, 110u8, 101u8, 108u8, 83u8, 101u8, 108u8, 101u8, 99u8, 116u8, 111u8, 114u8],
            Attribute::Dx(_) => &[100u8, 120u8],
            Attribute::Dy(_) => &[100u8, 121u8],
            Attribute::StdDeviation(_) => &[115u8, 116u8, 100u8, 68u8, 101u8, 118u8, 105u8, 97u8, 116u8, 105u8, 111u8, 110u8],
            Attribute::CrossOrigin(_) => &[99u8, 114u8, 111u8, 115u8, 115u8, 79u8, 114u8, 105u8, 103u8, 105u8, 110u8],
            Attribute::Radius(_) => &[114u8, 97u8, 100u8, 105u8, 117u8, 115u8],
            Attribute::SpecularConstant(_) => &[115u8, 112u8, 101u8, 99u8, 117u8, 108u8, 97u8, 114u8, 67u8, 111u8, 110u8, 115u8, 116u8, 97u8, 110u8, 116u8],
            Attribute::SpecularExponent(_) => &[115u8, 112u8, 101u8, 99u8, 117u8, 108u8, 97u8, 114u8, 69u8, 120u8, 112u8, 111u8, 110u8, 101u8, 110u8, 116u8],
            Attribute::BaseFrequency(_) => &[98u8, 97u8, 115u8, 101u8, 70u8, 114u8, 101u8, 113u8, 117u8, 101u8, 110u8, 99u8, 121u8],
            Attribute::NumOctaves(_) => &[110u8, 117u8, 109u8, 79u8, 99u8, 116u8, 97u8, 118u8, 101u8, 115u8],
            Attribute::Seed(_) => &[115u8, 101u8, 101u8, 100u8],
            Attribute::StitchTiles(_) => &[115u8, 116u8, 105u8, 116u8, 99u8, 104u8, 84u8, 105u8, 108u8, 101u8, 115u8],
            Attribute::GradientUnits(_) => &[103u8, 114u8, 97u8, 100u8, 105u8, 101u8, 110u8, 116u8, 85u8, 110u8, 105u8, 116u8, 115u8],
            Attribute::GradientTransform(_) => &[103u8, 114u8, 97u8, 100u8, 105u8, 101u8, 110u8, 116u8, 84u8, 114u8, 97u8, 110u8, 115u8, 102u8, 111u8, 114u8, 109u8],
            Attribute::SpreadMethod(_) => &[115u8, 112u8, 114u8, 101u8, 97u8, 100u8, 77u8, 101u8, 116u8, 104u8, 111u8, 100u8],
            Attribute::Fx(_) => &[102u8, 120u8],
            Attribute::Fy(_) => &[102u8, 121u8],
            Attribute::Fr(_) => &[102u8, 114u8],
            Attribute::Decoding(_) => &[100u8, 101u8, 99u8, 111u8, 100u8, 105u8, 110u8, 103u8],
            Attribute::FetchPriority(_) => &[102u8, 101u8, 116u8, 99u8, 104u8, 80u8, 114u8, 105u8, 111u8, 114u8, 105u8, 116u8, 121u8],
            Attribute::LengthAdjust(_) => &[108u8, 101u8, 110u8, 103u8, 116u8, 104u8, 65u8, 100u8, 106u8, 117u8, 115u8, 116u8],
            Attribute::TextLength(_) => &[116u8, 101u8, 120u8, 116u8, 76u8, 101u8, 110u8, 103u8, 116u8, 104u8],
            Attribute::ClipPathUnits(_) => &[99u8, 108u8, 105u8, 112u8, 80u8, 97u8, 116u8, 104u8, 85u8, 110u8, 105u8, 116u8, 115u8],
            Attribute::Method(_) => &[109u8, 101u8, 116u8, 104u8, 111u8, 100u8],
            Attribute::Side(_) => &[115u8, 105u8, 100u8, 101u8],
            Attribute::Spacing(_) => &[115u8, 112u8, 97u8, 99u8, 105u8, 110u8, 103u8],
            Attribute::StartOffset(_) => &[115u8, 116u8, 97u8, 114u8, 116u8, 79u8, 102u8, 102u8, 115u8, 101u8, 116u8],
            Attribute::FilterUnits(_) => &[102u8, 105u8, 108u8, 116u8, 101u8, 114u8, 85u8, 110u8, 105u8, 116u8, 115u8],
            Attribute::PrimitiveUnits(_) => &[112u8, 114u8, 105u8, 109u8, 105u8, 116u8, 105u8, 118u8, 101u8, 85u8, 110u8, 105u8, 116u8, 115u8],
        }
    }

    pub open spec fn spec_wf(&self) -> bool {
        match self {
            Attribute::Xmlns(x) => x.spec_wf(),
            Attribute::Id(x) => x.spec_wf(),
            Attribute::Class(x) => list_wf(x@),
            Attribute::Style(x) => x.spec_wf(),
            Attribute::Lang(x) => x.spec_wf(),
            Attribute::Tabindex(x) => x.spec_wf(),
            Attribute::RequiredExtensions(x) => list_wf(x@),
            Attribute::SystemLanguage(x) => x.spec_wf(),
            Attribute::AlignmentBaseline(x) => x.spec_wf(),
            Attribute::BaselineShift(x) => x.spec_wf(),
            Attribute::ClipPath(x) => x.spec_wf(),
            Attribute::ClipRule(x) => x.spec_wf(),
            Attribute::Color(x) => x.spec_wf(),
            Attribute::ColorInterpolation(x) => x.spec_wf(),
            Attribute::ColorInterpolationFilters(x) => x.spec_wf(),
            Attribute::Cursor(x) => x.spec_wf(),
            Attribute::Cx(x) => x.spec_wf(),
            Attribute::Cy(x) => x.spec_wf(),
            Attribute::D(x) => x.spec_wf(),
            Attribute::Direction(x) => x.spec_wf(),
            Attribute::Display(x) => x.spec_wf(),
            Attribute::DominantBaseline(x) => x.spec_wf(),
            Attribute::Fill(x) => x.spec_wf(),
            Attribute::FillOpacity(x) => x.spec_wf(),
            Attribute::FillRule(x) => x.spec_wf(),
            Attribute::Filter(x) => x.spec_wf(),
            Attribute::FloodColor(x) => x.spec_wf(),
            Attribute::FloodOpacity(x) => x.spec_wf(),
            Attribute::FontFamily(x) => x.spec_wf(),
            Attribute::FontSize(x) => x.spec_wf(),
            Attribute::FontSizeAdjust(x) => x.spec_wf(),
            Attribute::FontStyle(x) => x.spec_wf(),
            Attribute::FontVariant(x) => x.spec_wf(),
            Attribute::FontWeight(x) => x.spec_wf(),
            Attribute::Height(x) => x.spec_wf(),
            Attribute::ImageRendering(x) => x.spec_wf(),
            Attribute::LetterSpacing(x) => x.spec_wf(),
            Attribute::LightingColor(x) => x.spec_wf(),
            Attribute::MarkerEnd(x) => x.spec_wf(),
            Attribute::MarkerMid(x) => x.spec_wf(),
            Attribute::MarkerStart(x) => x.spec_wf(),
            Attribute::Mask(x) => x.spec_wf(),
            Attribute::MaskType(x) => x.spec_wf(),
            Attribute::Opacity(x) => x.spec_wf(),
            Attribute::Overflow(x) => x.spec_wf(),
            Attribute::PointerEvents(x) => x.spec_wf(),
            Attribute::R(x) => x.spec_wf(),
            Attribute::Rx(x) => x.spec_wf(),
            Attribute::Ry(x) => x.spec_wf(),
            Attribute::ShapeRendering(x) => x.spec_wf(),
            Attribute::StopColor(x) => x.spec_wf(),
            Attribute::StopOpacity(x) => x.spec_wf(),
            Attribute::Stroke(x) => x.spec_wf(),
            Attribute::StrokeDasharray(x) => list_wf(x@),
            Attribute::StrokeDashoffset(x) => x.spec_wf(),
            Attribute::StrokeLinecap(x) => x.spec_wf(),
            Attribute::StrokeLinejoin(x) => x.spec_wf(),
            Attribute::StrokeMiterlimit(x) => x.spec_wf(),
            Attribute::StrokeOpacity(x) => x.spec_wf(),
            Attribute::StrokeWidth(x) => x.spec_wf(),
            Attribute::TextAnchor(x) => x.spec_wf(),
            Attribute::TextDecoration(x) => x.spec_wf(),
            Attribute::TextOverflow(x) => x.spec_wf(),
            Attribute::TextRendering(x) => x.spec_wf(),
            Attribute::Transform(x) => x.spec_wf(),
            Attribute::TransformOrigin(x) => x.spec_wf(),
            Attribute::UnicodeBidi(x) => x.spec_wf(),
            Attribute::VectorEffect(x) => x.spec_wf(),
            Attribute::Visibility(x) => x.spec_wf(),
            Attribute::Width(x) => x.spec_wf(),
            Attribute::WhiteSpace(x) => x.spec_wf(),
            Attribute::WordSpacing(x) => x.spec_wf(),
            Attribute::WritingMode(x) => x.spec_wf(),
            Attribute::X(x) => x.spec_wf(),
            Attribute::Y(x) => x.spec_wf(),
            Attribute::Href(x) => x.spec_wf(),
            Attribute::OnAfterPrint(x) => x.spec_wf(),
            Attribute::OnBeforePrint(x) => x.spec_wf(),
            Attribute::OnBeforeUnload(x) => x.spec_wf(),
            Attribute::OnError(x) => x.spec_wf(),
            Attribute::OnHashChange(x) => x.spec_wf(),
            Attribute::OnLoad(x) => x.spec_wf(),
            Attribute::OnMessage(x) => x.spec_wf(),
            Attribute::OnOffline(x) => x.spec_wf(),
            Attribute::OnOnline(x) => x.spec_wf(),
            Attribute::OnPageHide(x) => x.spec_wf(),
            Attribute::OnPageShow(x) => x.spec_wf(),
            Attribute::OnPopState(x) => x.spec_wf(),
            Attribute::OnResize(x) => x.spec_wf(),
            Attribute::OnStorage(x) => x.spec_wf(),
            Attribute::OnUnload(x) => x.spec_wf(),
            Attribute::OnBlur(x) => x.spec_wf(),
            Attribute::OnChange(x) => x.spec_wf(),
            Attribute::OnContextMenu(x) => x.spec_wf(),
            Attribute::OnFocus(x) => x.spec_wf(),
            Attribute::OnInput(x) => x.spec_wf(),
            Attribute::OnInvalid(x) => x.spec_wf(),
            Attribute::OnReset(x) => x.spec_wf(),
            Attribute::OnSearch(x) => x.spec_wf(),
            Attribute::OnSelect(x) => x.spec_wf(),
            Attribute::OnSubmit(x) => x.spec_wf(),
            Attribute::OnKeyDown(x) => x.spec_wf(),
            Attribute::OnKeyPress(x) => x.spec_wf(),
            Attribute::OnKeyUp(x) => x.spec_wf(),
            Attribute::OnClick(x) => x.spec_wf(),
            Attribute::OnDoubleClick(x) => x.spec_wf(),
            Attribute::OnMouseDown(x) => x.spec_wf(),
            Attribute::OnMouseMove(x) => x.spec_wf(),
            Attribute::OnMouseOut(x) => x.spec_wf(),
            Attribute::OnMouseOver(x) => x.spec_wf(),
            Attribute::OnMouseUp(x) => x.spec_wf(),
            Attribute::OnWheel(x) => x.spec_wf(),
            Attribute::OnDrag(x) => x.spec_wf(),
            Attribute::OnDragEnd(x) => x.spec_wf(),
            Attribute::OnDragEnter(x) => x.spec_wf(),
            Attribute::OnDragLeave(x) => x.spec_wf(),
            Attribute::OnDragOver(x) => x.spec_wf(),
            Attribute::OnDragStart(x) => x.spec_wf(),
            Attribute::OnDrop(x) => x.spec_wf(),
            Attribute::OnScroll(x) => x.spec_wf(),
            Attribute::OnCopy(x) => x.spec_wf(),
            Attribute::OnCut(x) => x.spec_wf(),
            Attribute::OnPaste(x) => x.spec_wf(),
            Attribute::OnAbort(x) => x.spec_wf(),
            Attribute::OnCanPlay(x) => x.spec_wf(),
            Attribute::OnCanPlayThrough(x) => x.spec_wf(),
            Attribute::OnCueChange(x) => x.spec_wf(),
            Attribute::OnDurationChange(x) => x.spec_wf(),
            Attribute::OnEmptied(x) => x.spec_wf(),
            Attribute::OnEnded(x) => x.spec_wf(),
            Attribute::OnLoadedData(x) => x.spec_wf(),
            Attribute::OnLoadedMetadata(x) => x.spec_wf(),
            Attribute::OnLoadStart(x) => x.spec_wf(),
            Attribute::OnPause(x) => x.spec_wf(),
            Attribute::OnPlay(x) => x.spec_wf(),
            Attribute::OnPlaying(x) => x.spec_wf(),
            Attribute::OnProgress(x) => x.spec_wf(),
            Attribute::OnRateChange(x) => x.spec_wf(),
            Attribute::OnSeeked(x) => x.spec_wf(),
            Attribute::OnSeeking(x) => x.spec_wf(),
            Attribute::OnStalled(x) => x.spec_wf(),
            Attribute::OnSuspend(x) => x.spec_wf(),
            Attribute::OnTimeUpdate(x) => x.spec_wf(),
            Attribute::OnVolumeChange(x) => x.spec_wf(),
            Attribute::OnWaiting(x) => x.spec_wf(),
            Attribute::OnToggle(x) => x.spec_wf(),
            Attribute::KeyPoints(x) => x.spec_wf(),
            Attribute::Path(x) => x.spec_wf(),
            Attribute::Rotate(x) => x.spec_wf(),
            Attribute::PathLength(x) => x.spec_wf(),
            Attribute::X1(x) => x.spec_wf(),
            Attribute::Y1(x) => x.spec_wf(),
            Attribute::X2(x) => x.spec_wf(),
            Attribute::Y2(x) => x.spec_wf(),
            Attribute::Points(x) => list_wf(x@),
            Attribute::Download(x) => x.spec_wf(),
            Attribute::HrefLang(x) => x.spec_wf(),
            Attribute::InterestFor(x) => x.spec_wf(),
            Attribute::Ping(x) => list_wf(x@),
            Attribute::ReferrerPolicy(x) => x.spec_wf(),
            Attribute::Rel(x) => list_wf(x@),
            Attribute::Target(x) => x.spec_wf(),
            Attribute::MarkerHeight(x) => x.spec_wf(),
            Attribute::MarkerUnits(x) => x.spec_wf(),
            Attribute::MarkerWidth(x) => x.spec_wf(),
            Attribute::Orient(x) => x.spec_wf(),
            Attribute::PreserveAspectRatio(x) => x.spec_wf(),
            Attribute::RefX(x) => x.spec_wf(),
            Attribute::RefY(x) => x.spec_wf(),
            Attribute::ViewBox(x) => x.spec_wf(),
            Attribute::MaskContentUnits(x) => x.spec_wf(),
            Attribute::MaskUnits(x) => x.spec_wf(),
            Attribute::PatternContentUnits(x) => x.spec_wf(),
            Attribute::PatternUnits(x) => x.spec_wf(),
            Attribute::PatternTransform(x) => x.spec_wf(),
            Attribute::Result(x) => x.spec_wf(),
            Attribute::In(x) => x.spec_wf(),
            Attribute::In2(x) => x.spec_wf(),
            Attribute::Mode(x) => x.spec_wf(),
            Attribute::Operator(x) => x.spec_wf(),
            Attribute::K1(x) => x.spec_wf(),
            Attribute::K2(x) => x.spec_wf(),
            Attribute::K3(x) => x.spec_wf(),
            Attribute::K4(x) => x.spec_wf(),
            Attribute::Order(x) => x.spec_wf(),
            Attribute::KernelMatrix(x) => list_wf(x@),
            Attribute::Divisor(x) => x.spec_wf(),
            Attribute::Bias(x) => x.spec_wf(),
            Attribute::TargetX(x) => x.spec_wf(),
            Attribute::TargetY(x) => x.spec_wf(),
            Attribute::EdgeMode(x) => x.spec_wf(),
            Attribute::KernelUnitLength(x) => x.spec_wf(),
            Attribute::SurfaceScale(x) => x.spec_wf(),
            Attribute::DiffuseConstant(x) => x.spec_wf(),
            Attribute::Scale(x) => x.spec_wf(),
            Attribute::XChannelSelector(x) => x.spec_wf(),
            Attribute::YChannelSelector(x) => x.spec_wf(),
            Attribute::Dx(x) => x.spec_wf(),
            Attribute::Dy(x) => x.spec_wf(),
            Attribute::StdDeviation(x) => x.spec_wf(),
            Attribute::CrossOrigin(x) => x.spec_wf(),
            Attribute::Radius(x) => x.spec_wf(),
            Attribute::SpecularConstant(x) => x.spec_wf(),
            Attribute::SpecularExponent(x) => x.spec_wf(),
            Attribute::BaseFrequency(x) => x.spec_wf(),
            Attribute::NumOctaves(x) => x.spec_wf(),
            Attribute::Seed(x) => x.spec_wf(),
            Attribute::StitchTiles(x) => x.spec_wf(),
            Attribute::GradientUnits(x) => x.spec_wf(),
            Attribute::GradientTransform(x) => x.spec_wf(),
            Attribute::SpreadMethod(x) => x.spec_wf(),
            Attribute::Fx(x) => x.spec_wf(),
            Attribute::Fy(x) => x.spec_wf(),
            Attribute::Fr(x) => x.spec_wf(),
            Attribute::Decoding(x) => x.spec_wf(),
            Attribute::FetchPriority(x) => x.spec_wf(),
            Attribute::LengthAdjust(x) => x.spec_wf(),
            Attribute::TextLength(x) => x.spec_wf(),
            Attribute::ClipPathUnits(x) => x.spec_wf(),
            Attribute::Method(x) => x.spec_wf(),
            Attribute::Side(x) => x.spec_wf(),
            Attribute::Spacing(x) => x.spec_wf(),
            Attribute::StartOffset(x) => x.spec_wf(),
            Attribute::FilterUnits(x) => x.spec_wf(),
            Attribute::PrimitiveUnits(x) => x.spec_wf(),
            _ => true,
        }
    }

    /// The text of the value, as the serializer writes it.
    pub open spec fn spec_value(&self) -> Seq<u8> {
        match self {
            Attribute::Xmlns(x) => x.spec_format(),
            Attribute::Autofocus(x) => if *x {
                kw_autofocus()
            } else {
                kw_false()
            },
            Attribute::Id(x) => x.spec_format(),
            Attribute::Class(x) => list_format(x@),
            Attribute::Style(x) => x.spec_format(),
            Attribute::Lang(x) => x.spec_format(),
            Attribute::Tabindex(x) => x.spec_format(),
            Attribute::RequiredExtensions(x) => list_format(x@),
            Attribute::SystemLanguage(x) => x.spec_format(),
            Attribute::AlignmentBaseline(x) => x.spec_format(),
            Attribute::BaselineShift(x) => x.spec_format(),
            Attribute::ClipPath(x) => x.spec_format(),
            Attribute::ClipRule(x) => x.spec_format(),
            Attribute::Color(x) => x.spec_format(),
            Attribute::ColorInterpolation(x) => x.spec_format(),
            Attribute::ColorInterpolationFilters(x) => x.spec_format(),
            Attribute::Cursor(x) => x.spec_format(),
            Attribute::Cx(x) => x.spec_format(),
            Attribute::Cy(x) => x.spec_format(),
            Attribute::D(x) => x.spec_format(),
            Attribute::Direction(x) => x.spec_format(),
            Attribute::Display(x) => x.spec_format(),
            Attribute::DominantBaseline(x) => x.spec_format(),
            Attribute::Fill(x) => x.spec_format(),
            Attribute::FillOpacity(x) => x.spec_format(),
            Attribute::FillRule(x) => x.spec_format(),
            Attribute::Filter(x) => x.spec_format(),
            Attribute::FloodColor(x) => x.spec_format(),
            Attribute::FloodOpacity(x) => x.spec_format(),
            Attribute::FontFamily(x) => x.spec_format(),
            Attribute::FontSize(x) => x.spec_format(),
            Attribute::FontSizeAdjust(x) => x.spec_format(),
            Attribute::FontStyle(x) => x.spec_format(),
            Attribute::FontVariant(x) => x.spec_format(),
            Attribute::FontWeight(x) => x.spec_format(),
            Attribute::Height(x) => x.spec_format(),
            Attribute::ImageRendering(x) => x.spec_format(),
            Attribute::LetterSpacing(x) => x.spec_format(),
            Attribute::LightingColor(x) => x.spec_format(),
            Attribute::MarkerEnd(x) => x.spec_format(),
            Attribute::MarkerMid(x) => x.spec_format(),
            Attribute::MarkerStart(x) => x.spec_format(),
            Attribute::Mask(x) => x.spec_format(),
            Attribute::MaskType(x) => x.spec_format(),
            Attribute::Opacity(x) => x.spec_format(),
            Attribute::Overflow(x) => x.spec_format(),
            Attribute::PointerEvents(x) => x.spec_format(),
            Attribute::R(x) => x.spec_format(),
            Attribute::Rx(x) => x.spec_format(),
            Attribute::Ry(x) => x.spec_format(),
            Attribute::ShapeRendering(x) => x.spec_format(),
            Attribute::StopColor(x) => x.spec_format(),
            Attribute::StopOpacity(x) => x.spec_format(),
            Attribute::Stroke(x) => x.spec_format(),
            Attribute::StrokeDasharray(x) => list_format(x@),
            Attribute::StrokeDashoffset(x) => x.spec_format(),
            Attribute::StrokeLinecap(x) => x.spec_format(),
            Attribute::StrokeLinejoin(x) => x.spec_format(),
            Attribute::StrokeMiterlimit(x) => x.spec_format(),
            Attribute::StrokeOpacity(x) => x.spec_format(),
            Attribute::StrokeWidth(x) => x.spec_format(),
            Attribute::TextAnchor(x) => x.spec_format(),
            Attribute::TextDecoration(x) => x.spec_format(),
            Attribute::TextOverflow(x) => x.spec_format(),
            Attribute::TextRendering(x) => x.spec_format(),
            Attribute::Transform(x) => x.spec_format(),
            Attribute::TransformOrigin(x) => x.spec_format(),
            Attribute::UnicodeBidi(x) => x.spec_format(),
            Attribute::VectorEffect(x) => x.spec_format(),
            Attribute::Visibility(x) => x.spec_format(),
            Attribute::Width(x) => x.spec_format(),
            Attribute::WhiteSpace(x) => x.spec_format(),
            Attribute::WordSpacing(x) => x.spec_format(),
            Attribute::WritingMode(x) => x.spec_format(),
            Attribute::X(x) => x.spec_format(),
            Attribute::Y(x) => x.spec_format(),
            Attribute::Type => Seq::empty(),
            Attribute::TableValues => Seq::empty(),
            Attribute::Slope => Seq::empty(),
            Attribute::Intercept => Seq::empty(),
            Attribute::Amplitude => Seq::empty(),
            Attribute::Exponent => Seq::empty(),
            Attribute::Offset => Seq::empty(),
            Attribute::Href(x) => x.spec_format(),
            Attribute::AttributeType => Seq::empty(),
            Attribute::AttributeName => Seq::empty(),
            Attribute::Begin => Seq::empty(),
            Attribute::Dur => Seq::empty(),
            Attribute::End => Seq::empty(),
            Attribute::Min => Seq::empty(),
            Attribute::Max => Seq::empty(),
            Attribute::Restart => Seq::empty(),
            Attribute::RepeatCount => Seq::empty(),
            Attribute::RepeatDur => Seq::empty(),
            Attribute::Additive => Seq::empty(),
            Attribute::Accumulate => Seq::empty(),
            Attribute::OnAfterPrint(x) => x.spec_format(),
            Attribute::OnBeforePrint(x) => x.spec_format(),
            Attribute::OnBeforeUnload(x) => x.spec_format(),
            Attribute::OnError(x) => x.spec_format(),
            Attribute::OnHashChange(x) => x.spec_format(),
            Attribute::OnLoad(x) => x.spec_format(),
            Attribute::OnMessage(x) => x.spec_format(),
            Attribute::OnOffline(x) => x.spec_format(),
            Attribute::OnOnline(x) => x.spec_format(),
            Attribute::OnPageHide(x) => x.spec_format(),
            Attribute::OnPageShow(x) => x.spec_format(),
            Attribute::OnPopState(x) => x.spec_format(),
            Attribute::OnResize(x) => x.spec_format(),
            Attribute::OnStorage(x) => x.spec_format(),
            Attribute::OnUnload(x) => x.spec_format(),
            Attribute::OnBlur(x) => x.spec_format(),
            Attribute::OnChange(x) => x.spec_format(),
            Attribute::OnContextMenu(x) => x.spec_format(),
            Attribute::OnFocus(x) => x.spec_format(),
            Attribute::OnInput(x) => x.spec_format(),
            Attribute::OnInvalid(x) => x.spec_format(),
            Attribute::OnReset(x) => x.spec_format(),
            Attribute::OnSearch(x) => x.spec_format(),
            Attribute::OnSelect(x) => x.spec_format(),
            Attribute::OnSubmit(x) => x.spec_format(),
            Attribute::OnKeyDown(x) => x.spec_format(),
            Attribute::OnKeyPress(x) => x.spec_format(),
            Attribute::OnKeyUp(x) => x.spec_format(),
            Attribute::OnClick(x) => x.spec_format(),
            Attribute::OnDoubleClick(x) => x.spec_format(),
            Attribute::OnMouseDown(x) => x.spec_format(),
            Attribute::OnMouseMove(x) => x.spec_format(),
            Attribute::OnMouseOut(x) => x.spec_format(),
            Attribute::OnMouseOver(x) => x.spec_format(),
            Attribute::OnMouseUp(x) => x.spec_format(),
            Attribute::OnWheel(x) => x.spec_format(),
            Attribute::OnDrag(x) => x.spec_format(),
            Attribute::OnDragEnd(x) => x.spec_format(),
            Attribute::OnDragEnter(x) => x.spec_format(),
            Attribute::OnDragLeave(x) => x.spec_format(),
            Attribute::OnDragOver(x) => x.spec_format(),
            Attribute::OnDragStart(x) => x.spec_format(),
            Attribute::OnDrop(x) => x.spec_format(),
            Attribute::OnScroll(x) => x.spec_format(),
            Attribute::OnCopy(x) => x.spec_format(),
            Attribute::OnCut(x) => x.spec_format(),
            Attribute::OnPaste(x) => x.spec_format(),
            Attribute::OnAbort(x) => x.spec_format(),
            Attribute::OnCanPlay(x) => x.spec_format(),
            Attribute::OnCanPlayThrough(x) => x.spec_format(),
            Attribute::OnCueChange(x) => x.spec_format(),
            Attribute::OnDurationChange(x) => x.spec_format(),
            Attribute::OnEmptied(x) => x.spec_format(),
            Attribute::OnEnded(x) => x.spec_format(),
            Attribute::OnLoadedData(x) => x.spec_format(),
            Attribute::OnLoadedMetadata(x) => x.spec_format(),
            Attribute::OnLoadStart(x) => x.spec_format(),
            Attribute::OnPause(x) => x.spec_format(),
            Attribute::OnPlay(x) => x.spec_format(),
            Attribute::OnPlaying(x) => x.spec_format(),
            Attribute::OnProgress(x) => x.spec_format(),
            Attribute::OnRateChange(x) => x.spec_format(),
            Attribute::OnSeeked(x) => x.spec_format(),
            Attribute::OnSeeking(x) => x.spec_format(),
            Attribute::OnStalled(x) => x.spec_format(),
            Attribute::OnSuspend(x) => x.spec_format(),
            Attribute::OnTimeUpdate(x) => x.spec_format(),
            Attribute::OnVolumeChange(x) => x.spec_format(),
            Attribute::OnWaiting(x) => x.spec_format(),
            Attribute::OnToggle(x) => x.spec_format(),
            Attribute::KeyPoints(x) => x.spec_format(),
            Attribute::Path(x) => x.spec_format(),
            Attribute::Rotate(x) => x.spec_format(),
            Attribute::CalcMode => Seq::empty(),
            Attribute::Values => Seq::empty(),
            Attribute::KeyTimes => Seq::empty(),
            Attribute::KeySplines => Seq::empty(),
            Attribute::From => Seq::empty(),
            Attribute::To => Seq::empty(),
            Attribute::By => Seq::empty(),
            Attribute::PathLength(x) => x.spec_format(),
            Attribute::X1(x) => x.spec_format(),
            Attribute::Y1(x) => x.spec_format(),
            Attribute::X2(x) => x.spec_format(),
            Attribute::Y2(x) => x.spec_format(),
            Attribute::Points(x) => list_format(x@),
            Attribute::Download(x) => x.spec_format(),
            Attribute::HrefLang(x) => x.spec_format(),
            Attribute::InterestFor(x) => x.spec_format(),
            Attribute::Ping(x) => list_format(x@),
            Attribute::ReferrerPolicy(x) => x.spec_format(),
            Attribute::Rel(x) => list_format(x@),
            Attribute::Target(x) => x.spec_format(),
            Attribute::MarkerHeight(x) => x.spec_format(),
            Attribute::MarkerUnits(x) => x.spec_format(),
            Attribute::MarkerWidth(x) => x.spec_format(),
            Attribute::Orient(x) => x.spec_format(),
            Attribute::PreserveAspectRatio(x) => x.spec_format(),
            Attribute::RefX(x) => x.spec_format(),
            Attribute::RefY(x) => x.spec_format(),
            Attribute::ViewBox(x) => x.spec_format(),
            Attribute::MaskContentUnits(x) => x.spec_format(),
            Attribute::MaskUnits(x) => x.spec_format(),
            Attribute::PatternContentUnits(x) => x.spec_format(),
            Attribute::PatternUnits(x) => x.spec_format(),
            Attribute::PatternTransform(x) => x.spec_format(),
            Attribute::Result(x) => x.spec_format(),
            Attribute::In(x) => x.spec_format(),
            Attribute::In2(x) => x.spec_format(),
            Attribute::Mode(x) => x.spec_format(),
            Attribute::Operator(x) => x.spec_format(),
            Attribute::K1(x) => x.spec_format(),
            Attribute::K2(x) => x.spec_format(),
            Attribute::K3(x) => x.spec_format(),
            Attribute::K4(x) => x.spec_format(),
            Attribute::Order(x) => x.spec_format(),
            Attribute::KernelMatrix(x) => list_format(x@),
            Attribute::Divisor(x) => x.spec_format(),
            Attribute::Bias(x) => x.spec_format(),
            Attribute::TargetX(x) => x.spec_format(),
            Attribute::TargetY(x) => x.spec_format(),
            Attribute::EdgeMode(x) => x.spec_format(),
            Attribute::KernelUnitLength(x) => x.spec_format(),
            Attribute::PreserveAlpha(x) => if *x {
                kw_true()
            } else {
                kw_false()
            },
            Attribute::SurfaceScale(x) => x.spec_format(),
            Attribute::DiffuseConstant(x) => x.spec_format(),
            Attribute::Scale(x) => x.spec_format(),
            Attribute::XChannelSelector(x) => x.spec_format(),
            Attribute::YChannelSelector(x) => x.spec_format(),
            Attribute::Dx(x) => x.spec_format(),
            Attribute::Dy(x) => x.spec_format(),
            Attribute::StdDeviation(x) => x.spec_format(),
            Attribute::CrossOrigin(x) => x.spec_format(),
            Attribute::Radius(x) => x.spec_format(),
            Attribute::SpecularConstant(x) => x.spec_format(),
            Attribute::SpecularExponent(x) => x.spec_format(),
            Attribute::BaseFrequency(x) => x.spec_format(),
            Attribute::NumOctaves(x) => x.spec_format(),
            Attribute::Seed(x) => x.spec_format(),
            Attribute::StitchTiles(x) => x.spec_format(),
            Attribute::GradientUnits(x) => x.spec_format(),
            Attribute::GradientTransform(x) => x.spec_format(),
            Attribute::SpreadMethod(x) => x.spec_format(),
            Attribute::Fx(x) => x.spec_format(),
            Attribute::Fy(x) => x.spec_format(),
            Attribute::Fr(x) => x.spec_format(),
            Attribute::Decoding(x) => x.spec_format(),
            Attribute::FetchPriority(x) => x.spec_format(),
            Attribute::LengthAdjust(x) => x.spec_format(),
            Attribute::TextLength(x) => x.spec_format(),
            Attribute::ClipPathUnits(x) => x.spec_format(),
            Attribute::Method(x) => x.spec_format(),
            Attribute::Side(x) => x.spec_format(),
            Attribute::Spacing(x) => x.spec_format(),
            Attribute::StartOffset(x) => x.spec_format(),
            Attribute::FilterUnits(x) => x.spec_format(),
            Attribute::PrimitiveUnits(x) => x.spec_format(),
        }
    }

    /// Does the attribute stand without a value?
    pub open spec fn spec_is_marker(&self) -> bool {
        self is Type || self is TableValues || self is Slope || self is Intercept || self is Amplitude || self is Exponent || self is Offset || self is AttributeType || self is AttributeName || self is Begin || self is Dur || self is End || self is Min || self is Max || self is Restart || self is RepeatCount || self is RepeatDur || self is Additive || self is Accumulate || self is CalcMode || self is Values || self is KeyTimes || self is KeySplines || self is From || self is To || self is By
    }

    pub fn is_marker(&self) -> (r: bool)
        ensures
            r == self.spec_is_marker(),
    {
        matches!(self, Attribute::Type | Attribute::TableValues | Attribute::Slope | Attribute::Intercept | Attribute::Amplitude | Attribute::Exponent | Attribute::Offset | Attribute::AttributeType | Attribute::AttributeName | Attribute::Begin | Attribute::Dur | Attribute::End | Attribute::Min | Attribute::Max | Attribute::Restart | Attribute::RepeatCount | Attribute::RepeatDur | Attribute::Additive | Attribute::Accumulate | Attribute::CalcMode | Attribute::Values | Attribute::KeyTimes | Attribute::KeySplines | Attribute::From | Attribute::To | Attribute::By)
    }

    /// Writes the text of the value.
    pub fn write_value(&self, out: &mut Vec<u8>)
        ensures
            final(out)@ == old(out)@ + self.spec_value(),
    {
        match self {
            Attribute::Xmlns(x) => x.write_to(out),
            Attribute::Autofocus(x) => {
                if *x {
                    let b: &[u8] = &[97u8, 117u8, 116u8, 111u8, 102u8, 111u8, 99u8, 117u8, 115u8];
                    assert(b@ == seq![97u8, 117u8, 116u8, 111u8, 102u8, 111u8, 99u8, 117u8, 115u8]);
                    append_bytes(out, b);
                } else {
                    let b: &[u8] = &[102u8, 97u8, 108u8, 115u8, 101u8];
                    assert(b@ == kw_false());
                    append_bytes(out, b);
                }
            },
            Attribute::Id(x) => x.write_to(out),
            Attribute::Class(x) => write_list(x, out),
            Attribute::Style(x) => x.write_to(out),
            Attribute::Lang(x) => x.write_to(out),
            Attribute::Tabindex(x) => x.write_to(out),
            Attribute::RequiredExtensions(x) => write_list(x, out),
            Attribute::SystemLanguage(x) => x.write_to(out),
            Attribute::AlignmentBaseline(x) => x.write_to(out),
            Attribute::BaselineShift(x) => x.write_to(out),
            Attribute::ClipPath(x) => x.write_to(out),
            Attribute::ClipRule(x) => x.write_to(out),
            Attribute::Color(x) => x.write_to(out),
            Attribute::ColorInterpolation(x) => x.write_to(out),
            Attribute::ColorInterpolationFilters(x) => x.write_to(out),
            Attribute::Cursor(x) => x.write_to(out),
            Attribute::Cx(x) => x.write_to(out),
            Attribute::Cy(x) => x.write_to(out),
            Attribute::D(x) => x.write_to(out),
            Attribute::Direction(x) => x.write_to(out),
            Attribute::Display(x) => x.write_to(out),
            Attribute::DominantBaseline(x) => x.write_to(out),
            Attribute::Fill(x) => x.write_to(out),
            Attribute::FillOpacity(x) => x.write_to(out),
            Attribute::FillRule(x) => x.write_to(out),
            Attribute::Filter(x) => x.write_to(out),
            Attribute::FloodColor(x) => x.write_to(out),
            Attribute::FloodOpacity(x) => x.write_to(out),
            Attribute::FontFamily(x) => x.write_to(out),
            Attribute::FontSize(x) => x.write_to(out),
            Attribute::FontSizeAdjust(x) => x.write_to(out),
            Attribute::FontStyle(x) => x.write_to(out),
            Attribute::FontVariant(x) => x.write_to(out),
            Attribute::FontWeight(x) => x.write_to(out),
            Attribute::Height(x) => x.write_to(out),
            Attribute::ImageRendering(x) => x.write_to(out),
            Attribute::LetterSpacing(x) => x.write_to(out),
            Attribute::LightingColor(x) => x.write_to(out),
            Attribute::MarkerEnd(x) => x.write_to(out),
            Attribute::MarkerMid(x) => x.write_to(out),
            Attribute::MarkerStart(x) => x.write_to(out),
            Attribute::Mask(x) => x.write_to(out),
            Attribute::MaskType(x) => x.write_to(out),
            Attribute::Opacity(x) => x.write_to(out),
            Attribute::Overflow(x) => x.write_to(out),
            Attribute::PointerEvents(x) => x.write_to(out),
            Attribute::R(x) => x.write_to(out),
            Attribute::Rx(x) => x.write_to(out),
            Attribute::Ry(x) => x.write_to(out),
            Attribute::ShapeRendering(x) => x.write_to(out),
            Attribute::StopColor(x) => x.write_to(out),
            Attribute::StopOpacity(x) => x.write_to(out),
            Attribute::Stroke(x) => x.write_to(out),
            Attribute::StrokeDasharray(x) => write_list(x, out),
            Attribute::StrokeDashoffset(x) => x.write_to(out),
            Attribute::StrokeLinecap(x) => x.write_to(out),
            Attribute::StrokeLinejoin(x) => x.write_to(out),
            Attribute::StrokeMiterlimit(x) => x.write_to(out),
            Attribute::StrokeOpacity(x) => x.write_to(out),
            Attribute::StrokeWidth(x) => x.write_to(out),
            Attribute::TextAnchor(x) => x.write_to(out),
            Attribute::TextDecoration(x) => x.write_to(out),
            Attribute::TextOverflow(x) => x.write_to(out),
            Attribute::TextRendering(x) => x.write_to(out),
            Attribute::Transform(x) => x.write_to(out),
            Attribute::TransformOrigin(x) => x.write_to(out),
            Attribute::UnicodeBidi(x) => x.write_to(out),
            Attribute::VectorEffect(x) => x.write_to(out),
            Attribute::Visibility(x) => x.write_to(out),
            Attribute::Width(x) => x.write_to(out),
            Attribute::WhiteSpace(x) => x.write_to(out),
            Attribute::WordSpacing(x) => x.write_to(out),
            Attribute::WritingMode(x) => x.write_to(out),
            Attribute::X(x) => x.write_to(out),
            Attribute::Y(x) => x.write_to(out),
            Attribute::Type => {
                assert(old(out)@ + Seq::<u8>::empty() =~= old(out)@);
            },
            Attribute::TableValues => {
                assert(old(out)@ + Seq::<u8>::empty() =~= old(out)@);
            },
            Attribute::Slope => {
                assert(old(out)@ + Seq::<u8>::empty() =~= old(out)@);
            },
            Attribute::Intercept => {
                assert(old(out)@ + Seq::<u8>::empty() =~= old(out)@);
            },
            Attribute::Amplitude => {
                assert(old(out)@ + Seq::<u8>::empty() =~= old(out)@);
            },
            Attribute::Exponent => {
                assert(old(out)@ + Seq::<u8>::empty() =~= old(out)@);
            },
            Attribute::Offset => {
                assert(old(out)@ + Seq::<u8>::empty() =~= old(out)@);
            },
            Attribute::Href(x) => x.write_to(out),
            Attribute::AttributeType => {
                assert(old(out)@ + Seq::<u8>::empty() =~= old(out)@);
            },
            Attribute::AttributeName => {
                assert(old(out)@ + Seq::<u8>::empty() =~= old(out)@);
            },
            Attribute::Begin => {
                assert(old(out)@ + Seq::<u8>::empty() =~= old(out)@);
            },
            Attribute::Dur => {
                assert(old(out)@ + Seq::<u8>::empty() =~= old(out)@);
            },
            Attribute::End => {
                assert(old(out)@ + Seq::<u8>::empty() =~= old(out)@);
            },
            Attribute::Min => {
                assert(old(out)@ + Seq::<u8>::empty() =~= old(out)@);
            },
            Attribute::Max => {
                assert(old(out)@ + Seq::<u8>::empty() =~= old(out)@);
            },
            Attribute::Restart => {
                assert(old(out)@ + Seq::<u8>::empty() =~= old(out)@);
            },
            Attribute::RepeatCount => {
                assert(old(out)@ + Seq::<u8>::empty() =~= old(out)@);
            },
            Attribute::RepeatDur => {
                assert(old(out)@ + Seq::<u8>::empty() =~= old(out)@);
            },
            Attribute::Additive => {
                assert(old(out)@ + Seq::<u8>::empty() =~= old(out)@);
            },
            Attribute::Accumulate => {
                assert(old(out)@ + Seq::<u8>::empty() =~= old(out)@);
            },
            Attribute::OnAfterPrint(x) => x.write_to(out),
            Attribute::OnBeforePrint(x) => x.write_to(out),
            Attribute::OnBeforeUnload(x) => x.write_to(out),
            Attribute::OnError(x) => x.write_to(out),
            Attribute::OnHashChange(x) => x.write_to(out),
            Attribute::OnLoad(x) => x.write_to(out),
            Attribute::OnMessage(x) => x.write_to(out),
            Attribute::OnOffline(x) => x.write_to(out),
            Attribute::OnOnline(x) => x.write_to(out),
            Attribute::OnPageHide(x) => x.write_to(out),
            Attribute::OnPageShow(x) => x.write_to(out),
            Attribute::OnPopState(x) => x.write_to(out),
            Attribute::OnResize(x) => x.write_to(out),
            Attribute::OnStorage(x) => x.write_to(out),
            Attribute::OnUnload(x) => x.write_to(out),
            Attribute::OnBlur(x) => x.write_to(out),
            Attribute::OnChange(x) => x.write_to(out),
            Attribute::OnContextMenu(x) => x.write_to(out),
            Attribute::OnFocus(x) => x.write_to(out),
            Attribute::OnInput(x) => x.write_to(out),
            Attribute::OnInvalid(x) => x.write_to(out),
            Attribute::OnReset(x) => x.write_to(out),
            Attribute::OnSearch(x) => x.write_to(out),
            Attribute::OnSelect(x) => x.write_to(out),
            Attribute::OnSubmit(x) => x.write_to(out),
            Attribute::OnKeyDown(x) => x.write_to(out),
            Attribute::OnKeyPress(x) => x.write_to(out),
            Attribute::OnKeyUp(x) => x.write_to(out),
            Attribute::OnClick(x) => x.write_to(out),
            Attribute::OnDoubleClick(x) => x.write_to(out),
            Attribute::OnMouseDown(x) => x.write_to(out),
            Attribute::OnMouseMove(x) => x.write_to(out),
            Attribute::OnMouseOut(x) => x.write_to(out),
            Attribute::OnMouseOver(x) => x.write_to(out),
            Attribute::OnMouseUp(x) => x.write_to(out),
            Attribute::OnWheel(x) => x.write_to(out),
            Attribute::OnDrag(x) => x.write_to(out),
            Attribute::OnDragEnd(x) => x.write_to(out),
            Attribute::OnDragEnter(x) => x.write_to(out),
            Attribute::OnDragLeave(x) => x.write_to(out),
            Attribute::OnDragOver(x) => x.write_to(out),
            Attribute::OnDragStart(x) => x.write_to(out),
            Attribute::OnDrop(x) => x.write_to(out),
            Attribute::OnScroll(x) => x.write_to(out),
            Attribute::OnCopy(x) => x.write_to(out),
            Attribute::OnCut(x) => x.write_to(out),
            Attribute::OnPaste(x) => x.write_to(out),
            Attribute::OnAbort(x) => x.write_to(out),
            Attribute::OnCanPlay(x) => x.write_to(out),
            Attribute::OnCanPlayThrough(x) => x.write_to(out),
            Attribute::OnCueChange(x) => x.write_to(out),
            Attribute::OnDurationChange(x) => x.write_to(out),
            Attribute::OnEmptied(x) => x.write_to(out),
            Attribute::OnEnded(x) => x.write_to(out),
            Attribute::OnLoadedData(x) => x.write_to(out),
            Attribute::OnLoadedMetadata(x) => x.write_to(out),
            Attribute::OnLoadStart(x) => x.write_to(out),
            Attribute::OnPause(x) => x.write_to(out),
            Attribute::OnPlay(x) => x.write_to(out),
            Attribute::OnPlaying(x) => x.write_to(out),
            Attribute::OnProgress(x) => x.write_to(out),
            Attribute::OnRateChange(x) => x.write_to(out),
            Attribute::OnSeeked(x) => x.write_to(out),
            Attribute::OnSeeking(x) => x.write_to(out),
            Attribute::OnStalled(x) => x.write_to(out),
            Attribute::OnSuspend(x) => x.write_to(out),
            Attribute::OnTimeUpdate(x) => x.write_to(out),
            Attribute::OnVolumeChange(x) => x.write_to(out),
            Attribute::OnWaiting(x) => x.write_to(out),
            Attribute::OnToggle(x) => x.write_to(out),
            Attribute::KeyPoints(x) => x.write_to(out),
            Attribute::Path(x) => x.write_to(out),
            Attribute::Rotate(x) => x.write_to(out),
            Attribute::CalcMode => {
                assert(old(out)@ + Seq::<u8>::empty() =~= old(out)@);
            },
            Attribute::Values => {
                assert(old(out)@ + Seq::<u8>::empty() =~= old(out)@);
            },
            Attribute::KeyTimes => {
                assert(old(out)@ + Seq::<u8>::empty() =~= old(out)@);
            },
            Attribute::KeySplines => {
                assert(old(out)@ + Seq::<u8>::empty() =~= old(out)@);
            },
            Attribute::From => {
                assert(old(out)@ + Seq::<u8>::empty() =~= old(out)@);
            },
            Attribute::To => {
                assert(old(out)@ + Seq::<u8>::empty() =~= old(out)@);
            },
            Attribute::By => {
                assert(old(out)@ + Seq::<u8>::empty() =~= old(out)@);
            },
            Attribute::PathLength(x) => x.write_to(out),
            Attribute::X1(x) => x.write_to(out),
            Attribute::Y1(x) => x.write_to(out),
            Attribute::X2(x) => x.write_to(out),
            Attribute::Y2(x) => x.write_to(out),
            Attribute::Points(x) => write_list(x, out),
            Attribute::Download(x) => x.write_to(out),
            Attribute::HrefLang(x) => x.write_to(out),
            Attribute::InterestFor(x) => x.write_to(out),
            Attribute::Ping(x) => write_list(x, out),
            Attribute::ReferrerPolicy(x) => x.write_to(out),
            Attribute::Rel(x) => write_list(x, out),
            Attribute::Target(x) => x.write_to(out),
            Attribute::MarkerHeight(x) => x.write_to(out),
            Attribute::MarkerUnits(x) => x.write_to(out),
            Attribute::MarkerWidth(x) => x.write_to(out),
            Attribute::Orient(x) => x.write_to(out),
            Attribute::PreserveAspectRatio(x) => x.write_to(out),
            Attribute::RefX(x) => x.write_to(out),
            Attribute::RefY(x) => x.write_to(out),
            Attribute::ViewBox(x) => x.write_to(out),
            Attribute::MaskContentUnits(x) => x.write_to(out),
            Attribute::MaskUnits(x) => x.write_to(out),
            Attribute::PatternContentUnits(x) => x.write_to(out),
            Attribute::PatternUnits(x) => x.write_to(out),
            Attribute::PatternTransform(x) => x.write_to(out),
            Attribute::Result(x) => x.write_to(out),
            Attribute::In(x) => x.write_to(out),
            Attribute::In2(x) => x.write_to(out),
            Attribute::Mode(x) => x.write_to(out),
            Attribute::Operator(x) => x.write_to(out),
            Attribute::K1(x) => x.write_to(out),
            Attribute::K2(x) => x.write_to(out),
            Attribute::K3(x) => x.write_to(out),
            Attribute::K4(x) => x.write_to(out),
            Attribute::Order(x) => x.write_to(out),
            Attribute::KernelMatrix(x) => write_list(x, out),
            Attribute::Divisor(x) => x.write_to(out),
            Attribute::Bias(x) => x.write_to(out),
            Attribute::TargetX(x) => x.write_to(out),
            Attribute::TargetY(x) => x.write_to(out),
            Attribute::EdgeMode(x) => x.write_to(out),
            Attribute::KernelUnitLength(x) => x.write_to(out),
            Attribute::PreserveAlpha(x) => {
                if *x {
                    let b: &[u8] = &[116u8, 114u8, 117u8, 101u8];
                    assert(b@ == seq![116u8, 114u8, 117u8, 101u8]);
                    append_bytes(out, b);
                } else {
                    let b: &[u8] = &[102u8, 97u8, 108u8, 115u8, 101u8];
                    assert(b@ == kw_false());
                    append_bytes(out, b);
                }
            },
            Attribute::SurfaceScale(x) => x.write_to(out),
            Attribute::DiffuseConstant(x) => x.write_to(out),
            Attribute::Scale(x) => x.write_to(out),
            Attribute::XChannelSelector(x) => x.write_to(out),
            Attribute::YChannelSelector(x) => x.write_to(out),
            Attribute::Dx(x) => x.write_to(out),
            Attribute::Dy(x) => x.write_to(out),
            Attribute::StdDeviation(x) => x.write_to(out),
            Attribute::CrossOrigin(x) => x.write_to(out),
            Attribute::Radius(x) => x.write_to(out),
            Attribute::SpecularConstant(x) => x.write_to(out),
            Attribute::SpecularExponent(x) => x.write_to(out),
            Attribute::BaseFrequency(x) => x.write_to(out),
            Attribute::NumOctaves(x) => x.write_to(out),
            Attribute::Seed(x) => x.write_to(out),
            Attribute::StitchTiles(x) => x.write_to(out),
            Attribute::GradientUnits(x) => x.write_to(out),
            Attribute::GradientTransform(x) => x.write_to(out),
            Attribute::SpreadMethod(x) => x.write_to(out),
            Attribute::Fx(x) => x.write_to(out),
            Attribute::Fy(x) => x.write_to(out),
            Attribute::Fr(x) => x.write_to(out),
            Attribute::Decoding(x) => x.write_to(out),
            Attribute::FetchPriority(x) => x.write_to(out),
            Attribute::LengthAdjust(x) => x.write_to(out),
            Attribute::TextLength(x) => x.write_to(out),
            Attribute::ClipPathUnits(x) => x.write_to(out),
            Attribute::Method(x) => x.write_to(out),
            Attribute::Side(x) => x.write_to(out),
            Attribute::Spacing(x) => x.write_to(out),
            Attribute::StartOffset(x) => x.write_to(out),
            Attribute::FilterUnits(x) => x.write_to(out),
            Attribute::PrimitiveUnits(x) => x.write_to(out),
        }
    }

    /// The text of the value.
    pub fn value_as_string(&self) -> (r: Vec<u8>)
        ensures
            r@ == self.spec_value(),
    {
        let mut out: Vec<u8> = Vec::new();
        self.write_value(&mut out);
        assert(Seq::<u8>::empty() + self.spec_value() =~= self.spec_value());
        out
    }

    /// Core attributes, accepted on every element.
    pub open spec fn spec_is_global(&self) -> bool {
        self is Autofocus || self is Id || self is Class || self is Style || self is Lang || self is Tabindex
    }

    pub fn is_global(&self) -> (r: bool)
        ensures
            r == self.spec_is_global(),
    {
        matches!(self, Attribute::Autofocus(_) | Attribute::Id(_) | Attribute::Class(_) | Attribute::Style(_) | Attribute::Lang(_) | Attribute::Tabindex(_))
    }

    /// Conditional processing attributes.
    pub open spec fn spec_is_conditional_processing(&self) -> bool {
        self is RequiredExtensions || self is SystemLanguage
    }

    pub fn is_conditional_processing(&self) -> (r: bool)
        ensures
            r == self.spec_is_conditional_processing(),
    {
        matches!(self, Attribute::RequiredExtensions(_) | Attribute::SystemLanguage(_))
    }

    /// Presentation attributes.
    pub open spec fn spec_is_presentation(&self) -> bool {
        self is AlignmentBaseline || self is BaselineShift || self is ClipPath || self is ClipRule || self is Color || self is ColorInterpolation || self is ColorInterpolationFilters || self is Cursor || self is Cx || self is Cy || self is D || self is Direction || self is Display || self is DominantBaseline || self is Fill || self is FillOpacity || self is FillRule || self is Filter || self is FloodColor || self is FloodOpacity || self is FontFamily || self is FontSize || self is FontSizeAdjust || self is FontStyle || self is FontVariant || self is FontWeight || self is Height || self is ImageRendering || self is LetterSpacing || self is LightingColor || self is MarkerEnd || self is MarkerMid || self is MarkerStart || self is Mask || self is MaskType || self is Opacity || self is Overflow || self is PointerEvents || self is R || self is Rx || self is Ry || self is ShapeRendering || self is StopColor || self is StopOpacity || self is Stroke || self is StrokeDasharray || self is StrokeDashoffset || self is StrokeLinecap || self is StrokeLinejoin || self is StrokeMiterlimit || self is StrokeOpacity || self is StrokeWidth || self is TextAnchor || self is TextDecoration || self is TextOverflow || self is TextRendering || self is Transform || self is TransformOrigin || self is UnicodeBidi || self is VectorEffect || self is Visibility || self is Width || self is WhiteSpace || self is WordSpacing || self is WritingMode || self is X || self is Y
    }

    pub fn is_presentation(&self) -> (r: bool)
        ensures
            r == self.spec_is_presentation(),
    {
        matches!(self, Attribute::AlignmentBaseline(_) | Attribute::BaselineShift(_) | Attribute::ClipPath(_) | Attribute::ClipRule(_) | Attribute::Color(_) | Attribute::ColorInterpolation(_) | Attribute::ColorInterpolationFilters(_) | Attribute::Cursor(_) | Attribute::Cx(_) | Attribute::Cy(_) | Attribute::D(_) | Attribute::Direction(_) | Attribute::Display(_) | Attribute::DominantBaseline(_) | Attribute::Fill(_) | Attribute::FillOpacity(_) | Attribute::FillRule(_) | Attribute::Filter(_) | Attribute::FloodColor(_) | Attribute::FloodOpacity(_) | Attribute::FontFamily(_) | Attribute::FontSize(_) | Attribute::FontSizeAdjust(_) | Attribute::FontStyle(_) | Attribute::FontVariant(_) | Attribute::FontWeight(_) | Attribute::Height(_) | Attribute::ImageRendering(_) | Attribute::LetterSpacing(_) | Attribute::LightingColor(_) | Attribute::MarkerEnd(_) | Attribute::MarkerMid(_) | Attribute::MarkerStart(_) | Attribute::Mask(_) | Attribute::MaskType(_) | Attribute::Opacity(_) | Attribute::Overflow(_) | Attribute::PointerEvents(_) | Attribute::R(_) | Attribute::Rx(_) | Attribute::Ry(_) | Attribute::ShapeRendering(_) | Attribute::StopColor(_) | Attribute::StopOpacity(_) | Attribute::Stroke(_) | Attribute::StrokeDasharray(_) | Attribute::StrokeDashoffset(_) | Attribute::StrokeLinecap(_) | Attribute::StrokeLinejoin(_) | Attribute::StrokeMiterlimit(_) | Attribute::StrokeOpacity(_) | Attribute::StrokeWidth(_) | Attribute::TextAnchor(_) | Attribute::TextDecoration(_) | Attribute::TextOverflow(_) | Attribute::TextRendering(_) | Attribute::Transform(_) | Attribute::TransformOrigin(_) | Attribute::UnicodeBidi(_) | Attribute::VectorEffect(_) | Attribute::Visibility(_) | Attribute::Width(_) | Attribute::WhiteSpace(_) | Attribute::WordSpacing(_) | Attribute::WritingMode(_) | Attribute::X(_) | Attribute::Y(_))
    }

    /// Animation timing attributes.
    pub open spec fn spec_is_animation_timing(&self) -> bool {
        self is Begin || self is Dur || self is End || self is Min || self is Max || self is Restart || self is RepeatCount || self is RepeatDur || self is Fill
    }

    pub fn is_animation_timing(&self) -> (r: bool)
        ensures
            r == self.spec_is_animation_timing(),
    {
        matches!(self, Attribute::Begin | Attribute::Dur | Attribute::End | Attribute::Min | Attribute::Max | Attribute::Restart | Attribute::RepeatCount | Attribute::RepeatDur | Attribute::Fill(_))
    }

    /// Animation value attributes.
    pub open spec fn spec_is_animation_value(&self) -> bool {
        self is CalcMode || self is Values || self is KeyTimes || self is KeySplines || self is From || self is To || self is By
    }

    pub fn is_animation_value(&self) -> (r: bool)
        ensures
            r == self.spec_is_animation_value(),
    {
        matches!(self, Attribute::CalcMode | Attribute::Values | Attribute::KeyTimes | Attribute::KeySplines | Attribute::From | Attribute::To | Attribute::By)
    }

    /// Animation addition attributes.
    pub open spec fn spec_is_animation_addition(&self) -> bool {
        self is Accumulate || self is Additive
    }

    pub fn is_animation_addition(&self) -> (r: bool)
        ensures
            r == self.spec_is_animation_addition(),
    {
        matches!(self, Attribute::Accumulate | Attribute::Additive)
    }

    /// Fill properties.
    pub open spec fn spec_is_fill(&self) -> bool {
        self is Fill || self is FillOpacity || self is FillRule
    }

    pub fn is_fill(&self) -> (r: bool)
        ensures
            r == self.spec_is_fill(),
    {
        matches!(self, Attribute::Fill(_) | Attribute::FillOpacity(_) | Attribute::FillRule(_))
    }

    /// Stroke properties.
    pub open spec fn spec_is_stroke(&self) -> bool {
        self is Stroke || self is StrokeDasharray || self is StrokeDashoffset || self is StrokeLinecap || self is StrokeLinejoin || self is StrokeMiterlimit || self is StrokeOpacity || self is StrokeWidth
    }

    pub fn is_stroke(&self) -> (r: bool)
        ensures
            r == self.spec_is_stroke(),
    {
        matches!(self, Attribute::Stroke(_) | Attribute::StrokeDasharray(_) | Attribute::StrokeDashoffset(_) | Attribute::StrokeLinecap(_) | Attribute::StrokeLinejoin(_) | Attribute::StrokeMiterlimit(_) | Attribute::StrokeOpacity(_) | Attribute::StrokeWidth(_))
    }

    /// Attributes common to filter primitives.
    pub open spec fn spec_is_filter_primitive(&self) -> bool {
        self is Height || self is Result || self is Width || self is X || self is Y
    }

    pub fn is_filter_primitive(&self) -> (r: bool)
        ensures
            r == self.spec_is_filter_primitive(),
    {
        matches!(self, Attribute::Height(_) | Attribute::Result(_) | Attribute::Width(_) | Attribute::X(_) | Attribute::Y(_))
    }

    /// The same as `is_global`.
    pub fn is_core(&self) -> (r: bool)
        ensures
            r == self.spec_is_global(),
    {
        self.is_global()
    }

    /// Fill and stroke properties, which shapes accept.
    pub open spec fn spec_applies_to_shape(&self) -> bool {
        self.spec_is_fill() || self.spec_is_stroke()
    }

    pub fn applies_to_shape(&self) -> (r: bool)
        ensures
            r == self.spec_applies_to_shape(),
    {
        self.is_fill() || self.is_stroke()
    }

    /// Does an element of `kind` accept this attribute?
    pub open spec fn spec_allowed_in(&self, kind: ElementType) -> bool {
        match kind {
            ElementType::Animate => self.spec_is_global(),
            ElementType::AnimateMotion => {
                self.spec_is_global()
                    || self.spec_is_animation_timing()
                    || self.spec_is_animation_value()
                    || self.spec_is_animation_addition()
                    || (self is KeyPoints || self is Path || self is Rotate || self is AttributeName)
            }
            ElementType::AnimateTransform => {
                self.spec_is_global()
                    || (self is By || self is From || self is To || self is Type)
            }
            ElementType::MPath => self.spec_is_global() || (self is Href),
            ElementType::SetTag => (self is To),
            ElementType::Circle => {
                self.spec_is_global()
                    || self.spec_applies_to_shape()
                    || (self is Cx || self is Cy || self is R || self is PathLength)
            }
            ElementType::Ellipse => {
                self.spec_applies_to_shape()
                    || (self is Cx || self is Cy || self is Rx || self is Ry || self is PathLength)
            }
            ElementType::Line => {
                self.spec_is_global()
                    || self.spec_applies_to_shape()
                    || (self is X1 || self is Y1 || self is X2 || self is Y2)
            }
            ElementType::Polygon => {
                self.spec_is_global()
                    || self.spec_applies_to_shape()
                    || (self is Points || self is PathLength)
            }
            ElementType::PolyLine => {
                self.spec_is_global()
                    || self.spec_applies_to_shape()
                    || (self is Points || self is PathLength)
            }
            ElementType::Rect => {
                self.spec_is_global()
                    || self.spec_applies_to_shape()
                    || (self is X || self is Y || self is Width || self is Height || self is Rx || self is Ry || self is PathLength)
            }
            ElementType::A => {
                self.spec_is_global()
                    || (self is Href || self is Download || self is HrefLang || self is InterestFor || self is Ping || self is ReferrerPolicy || self is Rel || self is Target || self is Type)
            }
            ElementType::Defs => self.spec_is_global(),
            ElementType::G => self.spec_is_global(),
            ElementType::Marker => {
                self.spec_is_global()
                    || (self is MarkerHeight || self is MarkerUnits || self is MarkerWidth || self is Orient || self is PreserveAspectRatio || self is RefX || self is RefY || self is ViewBox)
            }
            ElementType::Mask => {
                self.spec_is_global()
                    || (self is Height || self is MaskUnits || self is MaskContentUnits || self is X || self is Y || self is Width)
            }
            ElementType::Pattern => {
                self.spec_is_global()
                    || (self is Height || self is Href || self is PatternContentUnits || self is PatternUnits || self is PatternTransform || self is PreserveAspectRatio || self is ViewBox || self is Width || self is X || self is Y)
            }
            ElementType::Svg => {
                self.spec_is_global()
                    || (self is Height || self is PreserveAspectRatio || self is ViewBox || self is Width || self is X || self is Y || self is Xmlns)
            }
            ElementType::Switch => {
                self.spec_is_global()
                    || (self is Height || self is RequiredExtensions || self is SystemLanguage)
            }
            ElementType::Symbol => {
                self.spec_is_global()
                    || (self is Height || self is PreserveAspectRatio || self is RefX || self is RefY || self is ViewBox || self is Width || self is X || self is Y)
            }
            ElementType::Desc => self.spec_is_global(),
            ElementType::Metadata => self.spec_is_global(),
            ElementType::Title => self.spec_is_global(),
            ElementType::FeBlend => {
                self.spec_is_global()
                    || self.spec_is_filter_primitive()
                    || (self is In || self is In2 || self is Mode)
            }
            ElementType::FeColorMatrix => {
                self.spec_is_global()
                    || self.spec_is_filter_primitive()
                    || (self is In || self is Type || self is Values)
            }
            ElementType::FeComponentTransfer => {
                self.spec_is_global() || self.spec_is_filter_primitive() || (self is In)
            }
            ElementType::FeComposite => {
                self.spec_is_global()
                    || self.spec_is_filter_primitive()
                    || (self is In || self is In2 || self is Operator || self is K1 || self is K2 || self is K3 || self is K4)
            }
            ElementType::FeConvolveMatrix => {
                self.spec_is_global()
                    || self.spec_is_filter_primitive()
                    || (self is In || self is Order || self is KernelMatrix || self is Divisor || self is Bias || self is TargetX || self is TargetY || self is EdgeMode || self is KernelUnitLength || self is PreserveAlpha)
            }
            ElementType::FeDiffuseLightning => {
                self.spec_is_global()
                    || self.spec_is_filter_primitive()
                    || (self is In || self is SurfaceScale || self is DiffuseConstant || self is KernelUnitLength)
            }
            ElementType::FeDisplacementMap => {
                self.spec_is_global()
                    || self.spec_is_filter_primitive()
                    || (self is In || self is In2 || self is Scale || self is XChannelSelector || self is YChannelSelector)
            }
            ElementType::FeDropShadow => {
                self.spec_is_global()
                    || self.spec_is_filter_primitive()
                    || (self is In || self is Dx || self is Dy || self is StdDeviation)
            }
            ElementType::FeFlood => {
                self.spec_is_global()
                    || self.spec_is_filter_primitive()
                    || (self is FloodColor || self is FloodOpacity)
            }
            ElementType::FeFuncA => self.spec_is_global(),
            ElementType::FeFuncB => self.spec_is_global(),
            ElementType::FeFuncG => self.spec_is_global(),
            ElementType::FeFuncR => self.spec_is_global(),
            ElementType::FeGaussianBlur => {
                self.spec_is_global()
                    || self.spec_is_filter_primitive()
                    || (self is In || self is StdDeviation || self is EdgeMode)
            }
            ElementType::FeImage => {
                self.spec_is_global()
                    || self.spec_is_filter_primitive()
                    || (self is CrossOrigin || self is PreserveAspectRatio || self is Href)
            }
            ElementType::FeMerge => self.spec_is_global() || self.spec_is_filter_primitive(),
            ElementType::FeMergeNode => self.spec_is_global() || (self is In),
            ElementType::FeMorphology => {
                self.spec_is_global()
                    || self.spec_is_filter_primitive()
                    || (self is In || self is Operator || self is Radius)
            }
            ElementType::FeOffset => {
                self.spec_is_global()
                    || self.spec_is_filter_primitive()
                    || (self is In || self is Dx || self is Dy)
            }
            ElementType::FeSpecularLighting => {
                self.spec_is_global()
                    || self.spec_is_filter_primitive()
                    || (self is In || self is SurfaceScale || self is SpecularConstant || self is SpecularExponent || self is KernelUnitLength)
            }
            ElementType::FeTile => {
                self.spec_is_global() || self.spec_is_filter_primitive() || (self is In)
            }
            ElementType::FeTurbulence => {
                self.spec_is_global()
                    || self.spec_is_filter_primitive()
                    || (self is BaseFrequency || self is NumOctaves || self is Seed || self is StitchTiles || self is Type)
            }
            ElementType::LinearGradient => {
                self.spec_is_global()
                    || (self is GradientUnits || self is GradientTransform || self is Href || self is SpreadMethod || self is X1 || self is Y1 || self is X2 || self is Y2)
            }
            ElementType::RadialGradient => {
                self.spec_is_global()
                    || (self is Cx || self is Cy || self is Fr || self is Fx || self is Fy || self is GradientUnits || self is GradientTransform || self is Href || self is R || self is SpreadMethod)
            }
            ElementType::Stop => {
                self.spec_is_global()
                    || (self is Offset || self is StopColor || self is StopOpacity)
            }
            ElementType::Image => {
                self.spec_is_global()
                    || (self is X || self is Y || self is Width || self is Height || self is Href || self is PreserveAspectRatio || self is CrossOrigin || self is Decoding || self is FetchPriority)
            }
            ElementType::Path => {
                self.spec_is_global()
                    || self.spec_applies_to_shape()
                    || (self is D || self is PathLength)
            }
            ElementType::Text => {
                self.spec_is_global()
                    || self.spec_applies_to_shape()
                    || (self is X || self is Y || self is Dx || self is Dy || self is Rotate || self is LengthAdjust || self is TextLength)
            }
            ElementType::Use => {
                self.spec_is_global()
                    || (self is Href || self is X || self is Y || self is Width || self is Height)
            }
            ElementType::FeDistantLight => self.spec_is_global(),
            ElementType::FePointLight => self.spec_is_global(),
            ElementType::FeSpotLight => self.spec_is_global(),
            ElementType::ClipPath => {
                self.spec_is_global() || (self is ClipPathUnits)
            }
            ElementType::Script => self.spec_is_global(),
            ElementType::Style => self.spec_is_global(),
            ElementType::TextPath => {
                self.spec_is_global()
                    || (self is Href || self is LengthAdjust || self is Method || self is Path || self is Side || self is Spacing || self is StartOffset || self is TextLength)
            }
            ElementType::TSpan => {
                self.spec_is_global()
                    || (self is X || self is Y || self is Dx || self is Dy || self is Rotate || self is LengthAdjust || self is TextLength)
            }
            ElementType::Filter => {
                self.spec_is_global()
                    || (self is X || self is Y || self is Width || self is Height || self is FilterUnits || self is PrimitiveUnits)
            }
            ElementType::ForeignObject => self.spec_is_global(),
            ElementType::View => self.spec_is_global(),
        }
    }

    pub fn allowed_in_element(&self, kind: ElementType) -> (r: bool)
        ensures
            r == self.spec_allowed_in(kind),
    {
        match kind {
            ElementType::Animate => self.is_global(),
            ElementType::AnimateMotion => {
                self.is_global()
                    || self.is_animation_timing()
                    || self.is_animation_value()
                    || self.is_animation_addition()
                    || matches!(
                        self,
                        Attribute::KeyPoints(_)
                            | Attribute::Path(_)
                            | Attribute::Rotate(_)
                            | Attribute::AttributeName 
                    )
            }
            ElementType::AnimateTransform => {
                self.is_global()
                    || matches!(
                        self,
                        Attribute::By | Attribute::From | Attribute::To | Attribute::Type
                    )
            }
            ElementType::MPath => self.is_global() || matches!(self, Attribute::Href(_)),
            ElementType::SetTag => matches!(self, Attribute::To),
            ElementType::Circle => {
                self.is_global()
                    || self.applies_to_shape()
                    || matches!(
                        self,
                        Attribute::Cx(_)
                            | Attribute::Cy(_)
                            | Attribute::R(_)
                            | Attribute::PathLength(_)
                    )
            }
            ElementType::Ellipse => {
                self.applies_to_shape()
                    || matches!(
                        self,
                        Attribute::Cx(_)
                            | Attribute::Cy(_)
                            | Attribute::Rx(_)
                            | Attribute::Ry(_)
                            | Attribute::PathLength(_)
                    )
            }
            ElementType::Line => {
                self.is_global()
                    || self.applies_to_shape()
                    || matches!(
                        self,
                        Attribute::X1(_) | Attribute::Y1(_) | Attribute::X2(_) | Attribute::Y2(_)
                    )
            }
            ElementType::Polygon => {
                self.is_global()
                    || self.applies_to_shape()
                    || matches!(self, Attribute::Points(_) | Attribute::PathLength(_))
            }
            ElementType::PolyLine => {
                self.is_global()
                    || self.applies_to_shape()
                    || matches!(self, Attribute::Points(_) | Attribute::PathLength(_))
            }
            ElementType::Rect => {
                self.is_global()
                    || self.applies_to_shape()
                    || matches!(
                        self,
                        Attribute::X(_)
                            | Attribute::Y(_)
                            | Attribute::Width(_)
                            | Attribute::Height(_)
                            | Attribute::Rx(_)
                            | Attribute::Ry(_)
                            | Attribute::PathLength(_)
                    )
            }
            ElementType::A => {
                self.is_global()
                    || matches!(
                        self,
                        Attribute::Href(_)
                            | Attribute::Download(_)
                            | Attribute::HrefLang(_)
                            | Attribute::InterestFor(_)
                            | Attribute::Ping(_)
                            | Attribute::ReferrerPolicy(_)
                            | Attribute::Rel(_)
                            | Attribute::Target(_)
                            | Attribute::Type
                    )
            }
            ElementType::Defs => self.is_global(),
            ElementType::G => self.is_global(),
            ElementType::Marker => {
                self.is_global()
                    || matches!(
                        self,
                        Attribute::MarkerHeight(_)
                            | Attribute::MarkerUnits(_)
                            | Attribute::MarkerWidth(_)
                            | Attribute::Orient(_)
                            | Attribute::PreserveAspectRatio(_)
                            | Attribute::RefX(_)
                            | Attribute::RefY(_)
                            | Attribute::ViewBox(_)
                    )
            }
            ElementType::Mask => {
                self.is_global()
                    || matches!(
                        self,
                        Attribute::Height(_)
                            | Attribute::MaskUnits(_)
                            | Attribute::MaskContentUnits(_)
                            | Attribute::X(_)
                            | Attribute::Y(_)
                            | Attribute::Width(_)
                    )
            }
            ElementType::Pattern => {
                self.is_global()
                    || matches!(
                        self,
                        Attribute::Height(_)
                            | Attribute::Href(_)
                            | Attribute::PatternContentUnits(_)
                            | Attribute::PatternUnits(_)
                            | Attribute::PatternTransform(_)
                            | Attribute::PreserveAspectRatio(_)
                            | Attribute::ViewBox(_)
                            | Attribute::Width(_)
                            | Attribute::X(_)
                            | Attribute::Y(_)
                    )
            }
            ElementType::Svg => {
                self.is_global()
                    || matches!(
                        self,
                        Attribute::Height(_)
                            | Attribute::PreserveAspectRatio(_)
                            | Attribute::ViewBox(_)
                            | Attribute::Width(_)
                            | Attribute::X(_)
                            | Attribute::Y(_)
                            | Attribute::Xmlns(_)
                    )
            }
            ElementType::Switch => {
                self.is_global()
                    || matches!(
                        self,
                        Attribute::Height(_)
                            | Attribute::RequiredExtensions(_)
                            | Attribute::SystemLanguage(_)
                    )
            }
            ElementType::Symbol => {
                self.is_global()
                    || matches!(
                        self,
                        Attribute::Height(_)
                            | Attribute::PreserveAspectRatio(_)
                            | Attribute::RefX(_)
                            | Attribute::RefY(_)
                            | Attribute::ViewBox(_)
                            | Attribute::Width(_)
                            | Attribute::X(_)
                            | Attribute::Y(_)
                    )
            }
            ElementType::Desc => self.is_global(),
            ElementType::Metadata => self.is_global(),
            ElementType::Title => self.is_global(),
            ElementType::FeBlend => {
                self.is_global()
                    || self.is_filter_primitive()
                    || matches!(
                        self,
                        Attribute::In(_) | Attribute::In2(_) | Attribute::Mode(_)
                    )
            }
            ElementType::FeColorMatrix => {
                self.is_global()
                    || self.is_filter_primitive()
                    || matches!(self, Attribute::In(_) | Attribute::Type | Attribute::Values)
            }
            ElementType::FeComponentTransfer => {
                self.is_global() || self.is_filter_primitive() || matches!(self, Attribute::In(_))
            }
            ElementType::FeComposite => {
                self.is_global()
                    || self.is_filter_primitive()
                    || matches!(
                        self,
                        Attribute::In(_)
                            | Attribute::In2(_)
                            | Attribute::Operator(_)
                            | Attribute::K1(_)
                            | Attribute::K2(_)
                            | Attribute::K3(_)
                            | Attribute::K4(_)
                    )
            }
            ElementType::FeConvolveMatrix => {
                self.is_global()
                    || self.is_filter_primitive()
                    || matches!(
                        self,
                        Attribute::In(_)
                            | Attribute::Order(_)
                            | Attribute::KernelMatrix(_)
                            | Attribute::Divisor(_)
                            | Attribute::Bias(_)
                            | Attribute::TargetX(_)
                            | Attribute::TargetY(_)
                            | Attribute::EdgeMode(_)
                            | Attribute::KernelUnitLength(_)
                            | Attribute::PreserveAlpha(_)
                    )
            }
            ElementType::FeDiffuseLightning => {
                self.is_global()
                    || self.is_filter_primitive()
                    || matches!(
                        self,
                        Attribute::In(_)
                            | Attribute::SurfaceScale(_)
                            | Attribute::DiffuseConstant(_)
                            | Attribute::KernelUnitLength(_)
                    )
            }
            ElementType::FeDisplacementMap => {
                self.is_global()
                    || self.is_filter_primitive()
                    || matches!(
                        self,
                        Attribute::In(_)
                            | Attribute::In2(_)
                            | Attribute::Scale(_)
                            | Attribute::XChannelSelector(_)
                            | Attribute::YChannelSelector(_)
                    )
            }
            ElementType::FeDropShadow => {
                self.is_global()
                    || self.is_filter_primitive()
                    || matches!(
                        self,
                        Attribute::In(_)
                            | Attribute::Dx(_)
                            | Attribute::Dy(_)
                            | Attribute::StdDeviation(_)
                    )
            }
            ElementType::FeFlood => {
                self.is_global()
                    || self.is_filter_primitive()
                    || matches!(self, Attribute::FloodColor(_) | Attribute::FloodOpacity(_))
            }
            ElementType::FeFuncA => self.is_global(),
            ElementType::FeFuncB => self.is_global(),
            ElementType::FeFuncG => self.is_global(),
            ElementType::FeFuncR => self.is_global(),
            ElementType::FeGaussianBlur => {
                self.is_global()
                    || self.is_filter_primitive()
                    || matches!(
                        self,
                        Attribute::In(_) | Attribute::StdDeviation(_) | Attribute::EdgeMode(_)
                    )
            }
            ElementType::FeImage => {
                self.is_global()
                    || self.is_filter_primitive()
                    || matches!(
                        self,
                        Attribute::CrossOrigin(_)
                            | Attribute::PreserveAspectRatio(_)
                            | Attribute::Href(_)
                    )
            }
            ElementType::FeMerge => self.is_global() || self.is_filter_primitive(),
            ElementType::FeMergeNode => self.is_global() || matches!(self, Attribute::In(_)),
            ElementType::FeMorphology => {
                self.is_global()
                    || self.is_filter_primitive()
                    || matches!(
                        self,
                        Attribute::In(_) | Attribute::Operator(_) | Attribute::Radius(_)
                    )
            }
            ElementType::FeOffset => {
                self.is_global()
                    || self.is_filter_primitive()
                    || matches!(self, Attribute::In(_) | Attribute::Dx(_) | Attribute::Dy(_))
            }
            ElementType::FeSpecularLighting => {
                self.is_global()
                    || self.is_filter_primitive()
                    || matches!(
                        self,
                        Attribute::In(_)
                            | Attribute::SurfaceScale(_)
                            | Attribute::SpecularConstant(_)
                            | Attribute::SpecularExponent(_)
                            | Attribute::KernelUnitLength(_)
                    )
            }
            ElementType::FeTile => {
                self.is_global() || self.is_filter_primitive() || matches!(self, Attribute::In(_))
            }
            ElementType::FeTurbulence => {
                self.is_global()
                    || self.is_filter_primitive()
                    || matches!(
                        self,
                        Attribute::BaseFrequency(_)
                            | Attribute::NumOctaves(_)
                            | Attribute::Seed(_)
                            | Attribute::StitchTiles(_)
                            | Attribute::Type
                    )
            }
            ElementType::LinearGradient => {
                self.is_global()
                    || matches!(
                        self,
                        Attribute::GradientUnits(_)
                            | Attribute::GradientTransform(_)
                            | Attribute::Href(_)
                            | Attribute::SpreadMethod(_)
                            | Attribute::X1(_)
                            | Attribute::Y1(_)
                            | Attribute::X2(_)
                            | Attribute::Y2(_)
                    )
            }
            ElementType::RadialGradient => {
                self.is_global()
                    || matches!(
                        self,
                        Attribute::Cx(_)
                            | Attribute::Cy(_)
                            | Attribute::Fr(_)
                            | Attribute::Fx(_)
                            | Attribute::Fy(_)
                            | Attribute::GradientUnits(_)
                            | Attribute::GradientTransform(_)
                            | Attribute::Href(_)
                            | Attribute::R(_)
                            | Attribute::SpreadMethod(_)
                    )
            }
            ElementType::Stop => {
                self.is_global()
                    || matches!(
                        self,
                        Attribute::Offset | Attribute::StopColor(_) | Attribute::StopOpacity(_)
                    )
            }
            ElementType::Image => {
                self.is_global()
                    || matches!(
                        self,
                        Attribute::X(_)
                            | Attribute::Y(_)
                            | Attribute::Width(_)
                            | Attribute::Height(_)
                            | Attribute::Href(_)
                            | Attribute::PreserveAspectRatio(_)
                            | Attribute::CrossOrigin(_)
                            | Attribute::Decoding(_)
                            | Attribute::FetchPriority(_)
                    )
            }
            ElementType::Path => {
                self.is_global()
                    || self.applies_to_shape()
                    || matches!(self, Attribute::D(_) | Attribute::PathLength(_))
            }
            ElementType::Text => {
                self.is_global()
                    || self.applies_to_shape()
                    || matches!(
                        self,
                        Attribute::X(_)
                            | Attribute::Y(_)
                            | Attribute::Dx(_)
                            | Attribute::Dy(_)
                            | Attribute::Rotate(_)
                            | Attribute::LengthAdjust(_)
                            | Attribute::TextLength(_)
                    )
            }
            ElementType::Use => {
                self.is_global()
                    || matches!(
                        self,
                        Attribute::Href(_)
                            | Attribute::X(_)
                            | Attribute::Y(_)
                            | Attribute::Width(_)
                            | Attribute::Height(_)
                    )
            }
            ElementType::FeDistantLight => self.is_global(),
            ElementType::FePointLight => self.is_global(),
            ElementType::FeSpotLight => self.is_global(),
            ElementType::ClipPath => {
                self.is_global() || matches!(self, Attribute::ClipPathUnits(_))
            }
            ElementType::Script => self.is_global(),
            ElementType::Style => self.is_global(),
            ElementType::TextPath => {
                self.is_global()
                    || matches!(
                        self,
                        Attribute::Href(_)
                            | Attribute::LengthAdjust(_)
                            | Attribute::Method(_)
                            | Attribute::Path(_)
                            | Attribute::Side(_)
                            | Attribute::Spacing(_)
                            | Attribute::StartOffset(_)
                            | Attribute::TextLength(_)
                    )
            }
            ElementType::TSpan => {
                self.is_global()
                    || matches!(
                        self,
                        Attribute::X(_)
                            | Attribute::Y(_)
                            | Attribute::Dx(_)
                            | Attribute::Dy(_)
                            | Attribute::Rotate(_)
                            | Attribute::LengthAdjust(_)
                            | Attribute::TextLength(_)
                    )
            }
            ElementType::Filter => {
                self.is_global()
                    || matches!(
                        self,
                        Attribute::X(_)
                            | Attribute::Y(_)
                            | Attribute::Width(_)
                            | Attribute::Height(_)
                            | Attribute::FilterUnits(_)
                            | Attribute::PrimitiveUnits(_)
                    )
            }
            ElementType::ForeignObject => self.is_global(),
            ElementType::View => self.is_global(),
        }
    }

    /// The attribute as it is written in a tag: `name="value"`, or the bare
    /// name for an attribute without a value.
    pub fn to_svg(&self) -> (r: Vec<u8>)
        ensures
            r@ == attribute_text(self),
    {
        let mut out: Vec<u8> = Vec::new();
        self.write_to(&mut out);
        assert(Seq::<u8>::empty() + attribute_text(self) =~= attribute_text(self));
        out
    }

    pub fn write_to(&self, out: &mut Vec<u8>)
        ensures
            final(out)@ == old(out)@ + attribute_text(self),
    {
        append_bytes(out, self.name());
        if !self.is_marker() {
            out.push(61u8);
            out.push(34u8);
            self.write_value(out);
            out.push(34u8);
            assert(final(out)@ =~= old(out)@ + attribute_text(self));
        }
    }

}

/// How an attribute is written in a tag.
pub open spec fn attribute_text(a: &Attribute) -> Seq<u8> {
    if a.spec_is_marker() {
        a.spec_name()
    } else {
        a.spec_name() + seq![61u8, 34u8] + a.spec_value() + seq![34u8]
    }
}

pub open spec fn attribute_known_0(name: Seq<u8>) -> bool {
    name == seq![120u8, 109u8, 108u8, 110u8, 115u8]
    || name == seq![97u8, 117u8, 116u8, 111u8, 102u8, 111u8, 99u8, 117u8, 115u8]
    || name == seq![105u8, 100u8]
    || name == seq![99u8, 108u8, 97u8, 115u8, 115u8]
    || name == seq![115u8, 116u8, 121u8, 108u8, 101u8]
    || name == seq![108u8, 97u8, 110u8, 103u8]
    || name == seq![116u8, 97u8, 98u8, 105u8, 110u8, 100u8, 101u8, 120u8]
    || name == seq![114u8, 101u8, 113u8, 117u8, 105u8, 114u8, 101u8, 100u8, 69u8, 120u8, 116u8, 101u8, 110u8, 115u8, 105u8, 111u8, 110u8, 115u8]
    || name == seq![115u8, 121u8, 115u8, 116u8, 101u8, 109u8, 76u8, 97u8, 110u8, 103u8, 117u8, 97u8, 103u8, 101u8]
    || name == seq![97u8, 108u8, 105u8, 103u8, 110u8, 109u8, 101u8, 110u8, 116u8, 45u8, 98u8, 97u8, 115u8, 101u8, 108u8, 105u8, 110u8, 101u8]
    || name == seq![98u8, 97u8, 115u8, 101u8, 108u8, 105u8, 110u8, 101u8, 45u8, 115u8, 104u8, 105u8, 102u8, 116u8]
    || name == seq![99u8, 108u8, 105u8, 112u8, 45u8, 112u8, 97u8, 116u8, 104u8]
}

pub open spec fn attribute_canonical_0(name: Seq<u8>, value: Seq<u8>) -> Option<Seq<u8>> {
    if name == seq![120u8, 109u8, 108u8, 110u8, 115u8] {
        <Vec<u8> as Grammar>::spec_canonical(value)
    } else if name == seq![97u8, 117u8, 116u8, 111u8, 102u8, 111u8, 99u8, 117u8, 115u8] {
        if value.len() == 0 || value == kw_autofocus() {
            Some(kw_autofocus())
        } else {
            Some(kw_false())
        }
    } else if name == seq![105u8, 100u8] {
        <Vec<u8> as Grammar>::spec_canonical(value)
    } else if name == seq![99u8, 108u8, 97u8, 115u8, 115u8] {
        list_canonical::<Vec<u8>>(value)
    } else if name == seq![115u8, 116u8, 121u8, 108u8, 101u8] {
        <Vec<u8> as Grammar>::spec_canonical(value)
    } else if name == seq![108u8, 97u8, 110u8, 103u8] {
        <Vec<u8> as Grammar>::spec_canonical(value)
    } else if name == seq![116u8, 97u8, 98u8, 105u8, 110u8, 100u8, 101u8, 120u8] {
        <i64 as Grammar>::spec_canonical(value)
    } else if name == seq![114u8, 101u8, 113u8, 117u8, 105u8, 114u8, 101u8, 100u8, 69u8, 120u8, 116u8, 101u8, 110u8, 115u8, 105u8, 111u8, 110u8, 115u8] {
        list_canonical::<Vec<u8>>(value)
    } else if name == seq![115u8, 121u8, 115u8, 116u8, 101u8, 109u8, 76u8, 97u8, 110u8, 103u8, 117u8, 97u8, 103u8, 101u8] {
        <Vec<u8> as Grammar>::spec_canonical(value)
    } else if name == seq![97u8, 108u8, 105u8, 103u8, 110u8, 109u8, 101u8, 110u8, 116u8, 45u8, 98u8, 97u8, 115u8, 101u8, 108u8, 105u8, 110u8, 101u8] {
        <AlignmentBaseline as Grammar>::spec_canonical(value)
    } else if name == seq![98u8, 97u8, 115u8, 101u8, 108u8, 105u8, 110u8, 101u8, 45u8, 115u8, 104u8, 105u8, 102u8, 116u8] {
        <BaselineShift as Grammar>::spec_canonical(value)
    } else if name == seq![99u8, 108u8, 105u8, 112u8, 45u8, 112u8, 97u8, 116u8, 104u8] {
        <Vec<u8> as Grammar>::spec_canonical(value)
    } else {
        None
    }
}

pub open spec fn attribute_known_1(name: Seq<u8>) -> bool {
    name == seq![99u8, 108u8, 105u8, 112u8, 45u8, 114u8, 117u8, 108u8, 101u8]
    || name == seq![99u8, 111u8, 108u8, 111u8, 114u8]
    || name == seq![99u8, 111u8, 108u8, 111u8, 114u8, 45u8, 105u8, 110u8, 116u8, 101u8, 114u8, 112u8, 111u8, 108u8, 97u8, 116u8, 105u8, 111u8, 110u8]
    || name == seq![99u8, 111u8, 108u8, 111u8, 114u8, 45u8, 105u8, 110u8, 116u8, 101u8, 114u8, 112u8, 111u8, 108u8, 97u8, 116u8, 105u8, 111u8, 110u8, 45u8, 102u8, 105u8, 108u8, 116u8, 101u8, 114u8, 115u8]
    || name == seq![99u8, 117u8, 114u8, 115u8, 111u8, 114u8]
    || name == seq![99u8, 120u8]
    || name == seq![99u8, 121u8]
    || name == seq![100u8]
    || name == seq![100u8, 105u8, 114u8, 101u8, 99u8, 116u8, 105u8, 111u8, 110u8]
    || name == seq![100u8, 105u8, 115u8, 112u8, 108u8, 97u8, 121u8]
    || name == seq![100u8, 111u8, 109u8, 105u8, 110u8, 97u8, 110u8, 116u8, 45u8, 98u8, 97u8, 115u8, 101u8, 108u8, 105u8, 110u8, 101u8]
    || name == seq![102u8, 105u8, 108u8, 108u8]
}

pub open spec fn attribute_canonical_1(name: Seq<u8>, value: Seq<u8>) -> Option<Seq<u8>> {
    if name == seq![99u8, 108u8, 105u8, 112u8, 45u8, 114u8, 117u8, 108u8, 101u8] {
        <ClipRule as Grammar>::spec_canonical(value)
    } else if name == seq![99u8, 111u8, 108u8, 111u8, 114u8] {
        <Color as Grammar>::spec_canonical(value)
    } else if name == seq![99u8, 111u8, 108u8, 111u8, 114u8, 45u8, 105u8, 110u8, 116u8, 101u8, 114u8, 112u8, 111u8, 108u8, 97u8, 116u8, 105u8, 111u8, 110u8] {
        <ColorInterpolation as Grammar>::spec_canonical(value)
    } else if name == seq![99u8, 111u8, 108u8, 111u8, 114u8, 45u8, 105u8, 110u8, 116u8, 101u8, 114u8, 112u8, 111u8, 108u8, 97u8, 116u8, 105u8, 111u8, 110u8, 45u8, 102u8, 105u8, 108u8, 116u8, 101u8, 114u8, 115u8] {
        <ColorInterpolationFilter as Grammar>::spec_canonical(value)
    } else if name == seq![99u8, 117u8, 114u8, 115u8, 111u8, 114u8] {
        <Cursor as Grammar>::spec_canonical(value)
    } else if name == seq![99u8, 120u8] {
        <LengthOrPercentage as Grammar>::spec_canonical(value)
    } else if name == seq![99u8, 121u8] {
        <LengthOrPercentage as Grammar>::spec_canonical(value)
    } else if name == seq![100u8] {
        <PathData as Grammar>::spec_canonical(value)
    } else if name == seq![100u8, 105u8, 114u8, 101u8, 99u8, 116u8, 105u8, 111u8, 110u8] {
        <TextDirection as Grammar>::spec_canonical(value)
    } else if name == seq![100u8, 105u8, 115u8, 112u8, 108u8, 97u8, 121u8] {
        <Display as Grammar>::spec_canonical(value)
    } else if name == seq![100u8, 111u8, 109u8, 105u8, 110u8, 97u8, 110u8, 116u8, 45u8, 98u8, 97u8, 115u8, 101u8, 108u8, 105u8, 110u8, 101u8] {
        <DominantBaseline as Grammar>::spec_canonical(value)
    } else if name == seq![102u8, 105u8, 108u8, 108u8] {
        <Fill as Grammar>::spec_canonical(value)
    } else {
        None
    }
}

pub open spec fn attribute_known_2(name: Seq<u8>) -> bool {
    name == seq![102u8, 105u8, 108u8, 108u8, 45u8, 111u8, 112u8, 97u8, 99u8, 105u8, 116u8, 121u8]
    || name == seq![102u8, 105u8, 108u8, 108u8, 45u8, 114u8, 117u8, 108u8, 101u8]
    || name == seq![102u8, 105u8, 108u8, 116u8, 101u8, 114u8]
    || name == seq![102u8, 108u8, 111u8, 111u8, 100u8, 45u8, 99u8, 111u8, 108u8, 111u8, 114u8]
    || name == seq![102u8, 108u8, 111u8, 111u8, 100u8, 45u8, 111u8, 112u8, 97u8, 99u8, 105u8, 116u8, 121u8]
    || name == seq![102u8, 111u8, 110u8, 116u8, 45u8, 102u8, 97u8, 109u8, 105u8, 108u8, 121u8]
    || name == seq![102u8, 111u8, 110u8, 116u8, 45u8, 115u8, 105u8, 122u8, 101u8]
    || name == seq![102u8, 111u8, 110u8, 116u8, 45u8, 115u8, 105u8, 122u8, 101u8, 45u8, 97u8, 100u8, 106u8, 117u8, 115u8, 116u8]
    || name == seq![102u8, 111u8, 110u8, 116u8, 45u8, 115u8, 116u8, 121u8, 108u8, 101u8]
    || name == seq![102u8, 111u8, 110u8, 116u8, 45u8, 118u8, 97u8, 114u8, 105u8, 97u8, 110u8, 116u8]
    || name == seq![102u8, 111u8, 110u8, 116u8, 45u8, 119u8, 101u8, 105u8, 103u8, 104u8, 116u8]
    || name == seq![104u8, 101u8, 105u8, 103u8, 104u8, 116u8]
}

pub open spec fn attribute_canonical_2(name: Seq<u8>, value: Seq<u8>) -> Option<Seq<u8>> {
    if name == seq![102u8, 105u8, 108u8, 108u8, 45u8, 111u8, 112u8, 97u8, 99u8, 105u8, 116u8, 121u8] {
        <Percentage as Grammar>::spec_canonical(value)
    } else if name == seq![102u8, 105u8, 108u8, 108u8, 45u8, 114u8, 117u8, 108u8, 101u8] {
        <FillRule as Grammar>::spec_canonical(value)
    } else if name == seq![102u8, 105u8, 108u8, 116u8, 101u8, 114u8] {
        <Vec<u8> as Grammar>::spec_canonical(value)
    } else if name == seq![102u8, 108u8, 111u8, 111u8, 100u8, 45u8, 99u8, 111u8, 108u8, 111u8, 114u8] {
        <Color as Grammar>::spec_canonical(value)
    } else if name == seq![102u8, 108u8, 111u8, 111u8, 100u8, 45u8, 111u8, 112u8, 97u8, 99u8, 105u8, 116u8, 121u8] {
        <Number as Grammar>::spec_canonical(value)
    } else if name == seq![102u8, 111u8, 110u8, 116u8, 45u8, 102u8, 97u8, 109u8, 105u8, 108u8, 121u8] {
        <Vec<u8> as Grammar>::spec_canonical(value)
    } else if name == seq![102u8, 111u8, 110u8, 116u8, 45u8, 115u8, 105u8, 122u8, 101u8] {
        <FontSize as Grammar>::spec_canonical(value)
    } else if name == seq![102u8, 111u8, 110u8, 116u8, 45u8, 115u8, 105u8, 122u8, 101u8, 45u8, 97u8, 100u8, 106u8, 117u8, 115u8, 116u8] {
        <FontSizeAdjust as Grammar>::spec_canonical(value)
    } else if name == seq![102u8, 111u8, 110u8, 116u8, 45u8, 115u8, 116u8, 121u8, 108u8, 101u8] {
        <FontStyle as Grammar>::spec_canonical(value)
    } else if name == seq![102u8, 111u8, 110u8, 116u8, 45u8, 118u8, 97u8, 114u8, 105u8, 97u8, 110u8, 116u8] {
        <Vec<u8> as Grammar>::spec_canonical(value)
    } else if name == seq![102u8, 111u8, 110u8, 116u8, 45u8, 119u8, 101u8, 105u8, 103u8, 104u8, 116u8] {
        <FontWeight as Grammar>::spec_canonical(value)
    } else if name == seq![104u8, 101u8, 105u8, 103u8, 104u8, 116u8] {
        <LengthOrPercentage as Grammar>::spec_canonical(value)
    } else {
        None
    }
}

pub open spec fn attribute_known_3(name: Seq<u8>) -> bool {
    name == seq![105u8, 109u8, 97u8, 103u8, 101u8, 45u8, 114u8, 101u8, 110u8, 100u8, 101u8, 114u8, 105u8, 110u8, 103u8]
    || name == seq![108u8, 101u8, 116u8, 116u8, 101u8, 114u8, 45u8, 115u8, 112u8, 97u8, 99u8, 105u8, 110u8, 103u8]
    || name == seq![108u8, 105u8, 103u8, 104u8, 116u8, 105u8, 110u8, 103u8, 45u8, 99u8, 111u8, 108u8, 111u8, 114u8]
    || name == seq![109u8, 97u8, 114u8, 107u8, 101u8, 114u8, 45u8, 101u8, 110u8, 100u8]
    || name == seq![109u8, 97u8, 114u8, 107u8, 101u8, 114u8, 45u8, 109u8, 105u8, 100u8]
    || name == seq![109u8, 97u8, 114u8, 107u8, 101u8, 114u8, 45u8, 115u8, 116u8, 97u8, 114u8, 116u8]
    || name == seq![109u8, 97u8, 115u8, 107u8]
    || name == seq![109u8, 97u8, 115u8, 107u8, 45u8, 116u8, 121u8, 112u8, 101u8]
    || name == seq![111u8, 112u8, 97u8, 99u8, 105u8, 116u8, 121u8]
    || name == seq![111u8, 118u8, 101u8, 114u8, 102u8, 108u8, 111u8, 119u8]
    || name == seq![112u8, 111u8, 105u8, 110u8, 116u8, 101u8, 114u8, 45u8, 101u8, 118u8, 101u8, 110u8, 116u8, 115u8]
    || name == seq![114u8]
}

pub open spec fn attribute_canonical_3(name: Seq<u8>, value: Seq<u8>) -> Option<Seq<u8>> {
    if name == seq![105u8, 109u8, 97u8, 103u8, 101u8, 45u8, 114u8, 101u8, 110u8, 100u8, 101u8, 114u8, 105u8, 110u8, 103u8] {
        <ImageRendering as Grammar>::spec_canonical(value)
    } else if name == seq![108u8, 101u8, 116u8, 116u8, 101u8, 114u8, 45u8, 115u8, 112u8, 97u8, 99u8, 105u8, 110u8, 103u8] {
        <LetterSpacing as Grammar>::spec_canonical(value)
    } else if name == seq![108u8, 105u8, 103u8, 104u8, 116u8, 105u8, 110u8, 103u8, 45u8, 99u8, 111u8, 108u8, 111u8, 114u8] {
        <LightingColor as Grammar>::spec_canonical(value)
    } else if name == seq![109u8, 97u8, 114u8, 107u8, 101u8, 114u8, 45u8, 101u8, 110u8, 100u8] {
        <Marker as Grammar>::spec_canonical(value)
    } else if name == seq![109u8, 97u8, 114u8, 107u8, 101u8, 114u8, 45u8, 109u8, 105u8, 100u8] {
        <Marker as Grammar>::spec_canonical(value)
    } else if name == seq![109u8, 97u8, 114u8, 107u8, 101u8, 114u8, 45u8, 115u8, 116u8, 97u8, 114u8, 116u8] {
        <Marker as Grammar>::spec_canonical(value)
    } else if name == seq![109u8, 97u8, 115u8, 107u8] {
        <Vec<u8> as Grammar>::spec_canonical(value)
    } else if name == seq![109u8, 97u8, 115u8, 107u8, 45u8, 116u8, 121u8, 112u8, 101u8] {
        <MaskType as Grammar>::spec_canonical(value)
    } else if name == seq![111u8, 112u8, 97u8, 99u8, 105u8, 116u8, 121u8] {
        <Opacity as Grammar>::spec_canonical(value)
    } else if name == seq![111u8, 118u8, 101u8, 114u8, 102u8, 108u8, 111u8, 119u8] {
        <Overflow as Grammar>::spec_canonical(value)
    } else if name == seq![112u8, 111u8, 105u8, 110u8, 116u8, 101u8, 114u8, 45u8, 101u8, 118u8, 101u8, 110u8, 116u8, 115u8] {
        <PointerEvents as Grammar>::spec_canonical(value)
    } else if name == seq![114u8] {
        <LengthOrPercentage as Grammar>::spec_canonical(value)
    } else {
        None
    }
}

pub open spec fn attribute_known_4(name: Seq<u8>) -> bool {
    name == seq![114u8, 120u8]
    || name == seq![114u8, 121u8]
    || name == seq![115u8, 104u8, 97u8, 112u8, 101u8, 45u8, 114u8, 101u8, 110u8, 100u8, 101u8, 114u8, 105u8, 110u8, 103u8]
    || name == seq![115u8, 116u8, 111u8, 112u8, 45u8, 99u8, 111u8, 108u8, 111u8, 114u8]
    || name == seq![115u8, 116u8, 111u8, 112u8, 45u8, 111u8, 112u8, 97u8, 99u8, 105u8, 116u8, 121u8]
    || name == seq![115u8, 116u8, 114u8, 111u8, 107u8, 101u8]
    || name == seq![115u8, 116u8, 114u8, 111u8, 107u8, 101u8, 45u8, 100u8, 97u8, 115u8, 104u8, 97u8, 114u8, 114u8, 97u8, 121u8]
    || name == seq![115u8, 116u8, 114u8, 111u8, 107u8, 101u8, 45u8, 100u8, 97u8, 115u8, 104u8, 111u8, 102u8, 102u8, 115u8, 101u8, 116u8]
    || name == seq![115u8, 116u8, 114u8, 111u8, 107u8, 101u8, 45u8, 108u8, 105u8, 110u8, 101u8, 99u8, 97u8, 112u8]
    || name == seq![115u8, 116u8, 114u8, 111u8, 107u8, 101u8, 45u8, 108u8, 105u8, 110u8, 101u8, 106u8, 111u8, 105u8, 110u8]
    || name == seq![115u8, 116u8, 114u8, 111u8, 107u8, 101u8, 45u8, 109u8, 105u8, 116u8, 101u8, 114u8, 108u8, 105u8, 109u8, 105u8, 116u8]
    || name == seq![115u8, 116u8, 114u8, 111u8, 107u8, 101u8, 45u8, 111u8, 112u8, 97u8, 99u8, 105u8, 116u8, 121u8]
}

pub open spec fn attribute_canonical_4(name: Seq<u8>, value: Seq<u8>) -> Option<Seq<u8>> {
    if name == seq![114u8, 120u8] {
        <EllipsisRadius as Grammar>::spec_canonical(value)
    } else if name == seq![114u8, 121u8] {
        <EllipsisRadius as Grammar>::spec_canonical(value)
    } else if name == seq![115u8, 104u8, 97u8, 112u8, 101u8, 45u8, 114u8, 101u8, 110u8, 100u8, 101u8, 114u8, 105u8, 110u8, 103u8] {
        <ShapeRendering as Grammar>::spec_canonical(value)
    } else if name == seq![115u8, 116u8, 111u8, 112u8, 45u8, 99u8, 111u8, 108u8, 111u8, 114u8] {
        <StopColor as Grammar>::spec_canonical(value)
    } else if name == seq![115u8, 116u8, 111u8, 112u8, 45u8, 111u8, 112u8, 97u8, 99u8, 105u8, 116u8, 121u8] {
        <Opacity as Grammar>::spec_canonical(value)
    } else if name == seq![115u8, 116u8, 114u8, 111u8, 107u8, 101u8] {
        <Paint as Grammar>::spec_canonical(value)
    } else if name == seq![115u8, 116u8, 114u8, 111u8, 107u8, 101u8, 45u8, 100u8, 97u8, 115u8, 104u8, 97u8, 114u8, 114u8, 97u8, 121u8] {
        list_canonical::<i64>(value)
    } else if name == seq![115u8, 116u8, 114u8, 111u8, 107u8, 101u8, 45u8, 100u8, 97u8, 115u8, 104u8, 111u8, 102u8, 102u8, 115u8, 101u8, 116u8] {
        <LengthOrPercentage as Grammar>::spec_canonical(value)
    } else if name == seq![115u8, 116u8, 114u8, 111u8, 107u8, 101u8, 45u8, 108u8, 105u8, 110u8, 101u8, 99u8, 97u8, 112u8] {
        <StrokeLinecap as Grammar>::spec_canonical(value)
    } else if name == seq![115u8, 116u8, 114u8, 111u8, 107u8, 101u8, 45u8, 108u8, 105u8, 110u8, 101u8, 106u8, 111u8, 105u8, 110u8] {
        <StrokeLinejoin as Grammar>::spec_canonical(value)
    } else if name == seq![115u8, 116u8, 114u8, 111u8, 107u8, 101u8, 45u8, 109u8, 105u8, 116u8, 101u8, 114u8, 108u8, 105u8, 109u8, 105u8, 116u8] {
        <Number as Grammar>::spec_canonical(value)
    } else if name == seq![115u8, 116u8, 114u8, 111u8, 107u8, 101u8, 45u8, 111u8, 112u8, 97u8, 99u8, 105u8, 116u8, 121u8] {
        <StrokeOpacity as Grammar>::spec_canonical(value)
    } else {
        None
    }
}

pub open spec fn attribute_known_5(name: Seq<u8>) -> bool {
    name == seq![115u8, 116u8, 114u8, 111u8, 107u8, 101u8, 45u8, 119u8, 105u8, 100u8, 116u8, 104u8]
    || name == seq![116u8, 101u8, 120u8, 116u8, 45u8, 97u8, 110u8, 99u8, 104u8, 111u8, 114u8]
    || name == seq![116u8, 101u8, 120u8, 116u8, 45u8, 100u8, 101u8, 99u8, 111u8, 114u8, 97u8, 116u8, 105u8, 111u8, 110u8]
    || name == seq![116u8, 101u8, 120u8, 116u8, 45u8, 111u8, 118u8, 101u8, 114u8, 102u8, 108u8, 111u8, 119u8]
    || name == seq![116u8, 101u8, 120u8, 116u8, 45u8, 114u8, 101u8, 110u8, 100u8, 101u8, 114u8, 105u8, 110u8, 103u8]
    || name == seq![116u8, 114u8, 97u8, 110u8, 115u8, 102u8, 111u8, 114u8, 109u8]
    || name == seq![116u8, 114u8, 97u8, 110u8, 115u8, 102u8, 111u8, 114u8, 109u8, 45u8, 111u8, 114u8, 105u8, 103u8, 105u8, 110u8]
    || name == seq![117u8, 110u8, 105u8, 99u8, 111u8, 100u8, 101u8, 45u8, 98u8, 105u8, 100u8, 105u8]
    || name == seq![118u8, 101u8, 99u8, 116u8, 111u8, 114u8, 45u8, 101u8, 102u8, 102u8, 101u8, 99u8, 116u8]
    || name == seq![118u8, 105u8, 115u8, 105u8, 98u8, 105u8, 108u8, 105u8, 116u8, 121u8]
    || name == seq![119u8, 105u8, 100u8, 116u8, 104u8]
    || name == seq![119u8, 104u8, 105u8, 116u8, 101u8, 45u8, 115u8, 112u8, 97u8, 99u8, 101u8]
}

pub open spec fn attribute_canonical_5(name: Seq<u8>, value: Seq<u8>) -> Option<Seq<u8>> {
    if name == seq![115u8, 116u8, 114u8, 111u8, 107u8, 101u8, 45u8, 119u8, 105u8, 100u8, 116u8, 104u8] {
        <LengthOrPercentage as Grammar>::spec_canonical(value)
    } else if name == seq![116u8, 101u8, 120u8, 116u8, 45u8, 97u8, 110u8, 99u8, 104u8, 111u8, 114u8] {
        <TextAnchor as Grammar>::spec_canonical(value)
    } else if name == seq![116u8, 101u8, 120u8, 116u8, 45u8, 100u8, 101u8, 99u8, 111u8, 114u8, 97u8, 116u8, 105u8, 111u8, 110u8] {
        <Vec<u8> as Grammar>::spec_canonical(value)
    } else if name == seq![116u8, 101u8, 120u8, 116u8, 45u8, 111u8, 118u8, 101u8, 114u8, 102u8, 108u8, 111u8, 119u8] {
        <TextOverflow as Grammar>::spec_canonical(value)
    } else if name == seq![116u8, 101u8, 120u8, 116u8, 45u8, 114u8, 101u8, 110u8, 100u8, 101u8, 114u8, 105u8, 110u8, 103u8] {
        <TextRendering as Grammar>::spec_canonical(value)
    } else if name == seq![116u8, 114u8, 97u8, 110u8, 115u8, 102u8, 111u8, 114u8, 109u8] {
        <Vec<u8> as Grammar>::spec_canonical(value)
    } else if name == seq![116u8, 114u8, 97u8, 110u8, 115u8, 102u8, 111u8, 114u8, 109u8, 45u8, 111u8, 114u8, 105u8, 103u8, 105u8, 110u8] {
        <Vec<u8> as Grammar>::spec_canonical(value)
    } else if name == seq![117u8, 110u8, 105u8, 99u8, 111u8, 100u8, 101u8, 45u8, 98u8, 105u8, 100u8, 105u8] {
        <UnicodeBidi as Grammar>::spec_canonical(value)
    } else if name == seq![118u8, 101u8, 99u8, 116u8, 111u8, 114u8, 45u8, 101u8, 102u8, 102u8, 101u8, 99u8, 116u8] {
        <VectorEffect as Grammar>::spec_canonical(value)
    } else if name == seq![118u8, 105u8, 115u8, 105u8, 98u8, 105u8, 108u8, 105u8, 116u8, 121u8] {
        <Visibility as Grammar>::spec_canonical(value)
    } else if name == seq![119u8, 105u8, 100u8, 116u8, 104u8] {
        <LengthOrPercentage as Grammar>::spec_canonical(value)
    } else if name == seq![119u8, 104u8, 105u8, 116u8, 101u8, 45u8, 115u8, 112u8, 97u8, 99u8, 101u8] {
        <WhiteSpace as Grammar>::spec_canonical(value)
    } else {
        None
    }
}

pub open spec fn attribute_known_6(name: Seq<u8>) -> bool {
    name == seq![119u8, 111u8, 114u8, 100u8, 45u8, 115u8, 112u8, 97u8, 99u8, 105u8, 110u8, 103u8]
    || name == seq![119u8, 114u8, 105u8, 116u8, 105u8, 110u8, 103u8, 45u8, 109u8, 111u8, 100u8, 101u8]
    || name == seq![120u8]
    || name == seq![121u8]
    || name == seq![116u8, 121u8, 112u8, 101u8]
    || name == seq![116u8, 97u8, 98u8, 108u8, 101u8, 86u8, 97u8, 108u8, 117u8, 101u8, 115u8]
    || name == seq![115u8, 108u8, 111u8, 112u8, 101u8]
    || name == seq![105u8, 110u8, 116u8, 101u8, 114u8, 99u8, 101u8, 112u8, 116u8]
    || name == seq![97u8, 109u8, 112u8, 108u8, 105u8, 116u8, 117u8, 100u8, 101u8]
    || name == seq![101u8, 120u8, 112u8, 111u8, 110u8, 101u8, 110u8, 116u8]
    || name == seq![111u8, 102u8, 102u8, 115u8, 101u8, 116u8]
    || name == seq![104u8, 114u8, 101u8, 102u8]
}

pub open spec fn attribute_canonical_6(name: Seq<u8>, value: Seq<u8>) -> Option<Seq<u8>> {
    if name == seq![119u8, 111u8, 114u8, 100u8, 45u8, 115u8, 112u8, 97u8, 99u8, 105u8, 110u8, 103u8] {
        <WordSpacing as Grammar>::spec_canonical(value)
    } else if name == seq![119u8, 114u8, 105u8, 116u8, 105u8, 110u8, 103u8, 45u8, 109u8, 111u8, 100u8, 101u8] {
        <WritingMode as Grammar>::spec_canonical(value)
    } else if name == seq![120u8] {
        <LengthOrPercentage as Grammar>::spec_canonical(value)
    } else if name == seq![121u8] {
        <LengthOrPercentage as Grammar>::spec_canonical(value)
    } else if name == seq![116u8, 121u8, 112u8, 101u8] {
        Some(Seq::empty())
    } else if name == seq![116u8, 97u8, 98u8, 108u8, 101u8, 86u8, 97u8, 108u8, 117u8, 101u8, 115u8] {
        Some(Seq::empty())
    } else if name == seq![115u8, 108u8, 111u8, 112u8, 101u8] {
        Some(Seq::empty())
    } else if name == seq![105u8, 110u8, 116u8, 101u8, 114u8, 99u8, 101u8, 112u8, 116u8] {
        Some(Seq::empty())
    } else if name == seq![97u8, 109u8, 112u8, 108u8, 105u8, 116u8, 117u8, 100u8, 101u8] {
        Some(Seq::empty())
    } else if name == seq![101u8, 120u8, 112u8, 111u8, 110u8, 101u8, 110u8, 116u8] {
        Some(Seq::empty())
    } else if name == seq![111u8, 102u8, 102u8, 115u8, 101u8, 116u8] {
        Some(Seq::empty())
    } else if name == seq![104u8, 114u8, 101u8, 102u8] {
        <Vec<u8> as Grammar>::spec_canonical(value)
    } else {
        None
    }
}

pub open spec fn attribute_known_7(name: Seq<u8>) -> bool {
    name == seq![97u8, 116u8, 116u8, 114u8, 105u8, 98u8, 117u8, 116u8, 101u8, 84u8, 121u8, 112u8, 101u8]
    || name == seq![97u8, 116u8, 116u8, 114u8, 105u8, 98u8, 117u8, 116u8, 101u8, 78u8, 97u8, 109u8, 101u8]
    || name == seq![98u8, 101u8, 103u8, 105u8, 110u8]
    || name == seq![100u8, 117u8, 114u8]
    || name == seq![101u8, 110u8, 100u8]
    || name == seq![109u8, 105u8, 110u8]
    || name == seq![109u8, 97u8, 120u8]
    || name == seq![114u8, 101u8, 115u8, 116u8, 97u8, 114u8, 116u8]
    || name == seq![114u8, 101u8, 112u8, 101u8, 97u8, 116u8, 67u8, 111u8, 117u8, 110u8, 116u8]
    || name == seq![114u8, 101u8, 112u8, 101u8, 97u8, 116u8, 68u8, 117u8, 114u8]
    || name == seq![97u8, 100u8, 100u8, 105u8, 116u8, 105u8, 118u8, 101u8]
    || name == seq![97u8, 99u8, 99u8, 117u8, 109u8, 117u8, 108u8, 97u8, 116u8, 101u8]
}

pub open spec fn attribute_canonical_7(name: Seq<u8>, value: Seq<u8>) -> Option<Seq<u8>> {
    if name == seq![97u8, 116u8, 116u8, 114u8, 105u8, 98u8, 117u8, 116u8, 101u8, 84u8, 121u8, 112u8, 101u8] {
        Some(Seq::empty())
    } else if name == seq![97u8, 116u8, 116u8, 114u8, 105u8, 98u8, 117u8, 116u8, 101u8, 78u8, 97u8, 109u8, 101u8] {
        Some(Seq::empty())
    } else if name == seq![98u8, 101u8, 103u8, 105u8, 110u8] {
        Some(Seq::empty())
    } else if name == seq![100u8, 117u8, 114u8] {
        Some(Seq::empty())
    } else if name == seq![101u8, 110u8, 100u8] {
        Some(Seq::empty())
    } else if name == seq![109u8, 105u8, 110u8] {
        Some(Seq::empty())
    } else if name == seq![109u8, 97u8, 120u8] {
        Some(Seq::empty())
    } else if name == seq![114u8, 101u8, 115u8, 116u8, 97u8, 114u8, 116u8] {
        Some(Seq::empty())
    } else if name == seq![114u8, 101u8, 112u8, 101u8, 97u8, 116u8, 67u8, 111u8, 117u8, 110u8, 116u8] {
        Some(Seq::empty())
    } else if name == seq![114u8, 101u8, 112u8, 101u8, 97u8, 116u8, 68u8, 117u8, 114u8] {
        Some(Seq::empty())
    } else if name == seq![97u8, 100u8, 100u8, 105u8, 116u8, 105u8, 118u8, 101u8] {
        Some(Seq::empty())
    } else if name == seq![97u8, 99u8, 99u8, 117u8, 109u8, 117u8, 108u8, 97u8, 116u8, 101u8] {
        Some(Seq::empty())
    } else {
        None
    }
}

pub open spec fn attribute_known_8(name: Seq<u8>) -> bool {
    name == seq![111u8, 110u8, 65u8, 102u8, 116u8, 101u8, 114u8, 80u8, 114u8, 105u8, 110u8, 116u8]
    || name == seq![111u8, 110u8, 66u8, 101u8, 102u8, 111u8, 114u8, 101u8, 80u8, 114u8, 105u8, 110u8, 116u8]
    || name == seq![111u8, 110u8, 66u8, 101u8, 102u8, 111u8, 114u8, 101u8, 85u8, 110u8, 108u8, 111u8, 97u8, 100u8]
    || name == seq![111u8, 110u8, 69u8, 114u8, 114u8, 111u8, 114u8]
    || name == seq![111u8, 110u8, 72u8, 97u8, 115u8, 104u8, 67u8, 104u8, 97u8, 110u8, 103u8, 101u8]
    || name == seq![111u8, 110u8, 76u8, 111u8, 97u8, 100u8]
    || name == seq![111u8, 110u8, 77u8, 101u8, 115u8, 115u8, 97u8, 103u8, 101u8]
    || name == seq![111u8, 110u8, 79u8, 102u8, 102u8, 108u8, 105u8, 110u8, 101u8]
    || name == seq![111u8, 110u8, 79u8, 110u8, 108u8, 105u8, 110u8, 101u8]
    || name == seq![111u8, 110u8, 80u8, 97u8, 103u8, 101u8, 72u8, 105u8, 100u8, 101u8]
    || name == seq![111u8, 110u8, 80u8, 97u8, 103u8, 101u8, 83u8, 104u8, 111u8, 119u8]
    || name == seq![111u8, 110u8, 80u8, 111u8, 112u8, 83u8, 116u8, 97u8, 116u8, 101u8]
}

pub open spec fn attribute_canonical_8(name: Seq<u8>, value: Seq<u8>) -> Option<Seq<u8>> {
    if name == seq![111u8, 110u8, 65u8, 102u8, 116u8, 101u8, 114u8, 80u8, 114u8, 105u8, 110u8, 116u8] {
        <Vec<u8> as Grammar>::spec_canonical(value)
    } else if name == seq![111u8, 110u8, 66u8, 101u8, 102u8, 111u8, 114u8, 101u8, 80u8, 114u8, 105u8, 110u8, 116u8] {
        <Vec<u8> as Grammar>::spec_canonical(value)
    } else if name == seq![111u8, 110u8, 66u8, 101u8, 102u8, 111u8, 114u8, 101u8, 85u8, 110u8, 108u8, 111u8, 97u8, 100u8] {
        <Vec<u8> as Grammar>::spec_canonical(value)
    } else if name == seq![111u8, 110u8, 69u8, 114u8, 114u8, 111u8, 114u8] {
        <Vec<u8> as Grammar>::spec_canonical(value)
    } else if name == seq![111u8, 110u8, 72u8, 97u8, 115u8, 104u8, 67u8, 104u8, 97u8, 110u8, 103u8, 101u8] {
        <Vec<u8> as Grammar>::spec_canonical(value)
    } else if name == seq![111u8, 110u8, 76u8, 111u8, 97u8, 100u8] {
        <Vec<u8> as Grammar>::spec_canonical(value)
    } else if name == seq![111u8, 110u8, 77u8, 101u8, 115u8, 115u8, 97u8, 103u8, 101u8] {
        <Vec<u8> as Grammar>::spec_canonical(value)
    } else if name == seq![111u8, 110u8, 79u8, 102u8, 102u8, 108u8, 105u8, 110u8, 101u8] {
        <Vec<u8> as Grammar>::spec_canonical(value)
    } else if name == seq![111u8, 110u8, 79u8, 110u8, 108u8, 105u8, 110u8, 101u8] {
        <Vec<u8> as Grammar>::spec_canonical(value)
    } else if name == seq![111u8, 110u8, 80u8, 97u8, 103u8, 101u8, 72u8, 105u8, 100u8, 101u8] {
        <Vec<u8> as Grammar>::spec_canonical(value)
    } else if name == seq![111u8, 110u8, 80u8, 97u8, 103u8, 101u8, 83u8, 104u8, 111u8, 119u8] {
        <Vec<u8> as Grammar>::spec_canonical(value)
    } else if name == seq![111u8, 110u8, 80u8, 111u8, 112u8, 83u8, 116u8, 97u8, 116u8, 101u8] {
        <Vec<u8> as Grammar>::spec_canonical(value)
    } else {
        None
    }
}

pub open spec fn attribute_known_9(name: Seq<u8>) -> bool {
    name == seq![111u8, 110u8, 82u8, 101u8, 115u8, 105u8, 122u8, 101u8]
    || name == seq![111u8, 110u8, 83u8, 116u8, 111u8, 114u8, 97u8, 103u8, 101u8]
    || name == seq![111u8, 110u8, 85u8, 110u8, 108u8, 111u8, 97u8, 100u8]
    || name == seq![111u8, 110u8, 66u8, 108u8, 117u8, 114u8]
    || name == seq![111u8, 110u8, 67u8, 104u8, 97u8, 110u8, 103u8, 101u8]
    || name == seq![111u8, 110u8, 67u8, 111u8, 110u8, 116u8, 101u8, 120u8, 116u8, 77u8, 101u8, 110u8, 117u8]
    || name == seq![111u8, 110u8, 70u8, 111u8, 99u8, 117u8, 115u8]
    || name == seq![111u8, 110u8, 73u8, 110u8, 112u8, 117u8, 116u8]
    || name == seq![111u8, 110u8, 73u8, 110u8, 118u8, 97u8, 108u8, 105u8, 100u8]
    || name == seq![111u8, 110u8, 82u8, 101u8, 115u8, 101u8, 116u8]
    || name == seq![111u8, 110u8, 83u8, 101u8, 97u8, 114u8, 99u8, 104u8]
    || name == seq![111u8, 110u8, 83u8, 101u8, 108u8, 101u8, 99u8, 116u8]
}

pub open spec fn attribute_canonical_9(name: Seq<u8>, value: Seq<u8>) -> Option<Seq<u8>> {
    if name == seq![111u8, 110u8, 82u8, 101u8, 115u8, 105u8, 122u8, 101u8] {
        <Vec<u8> as Grammar>::spec_canonical(value)
    } else if name == seq![111u8, 110u8, 83u8, 116u8, 111u8, 114u8, 97u8, 103u8, 101u8] {
        <Vec<u8> as Grammar>::spec_canonical(value)
    } else if name == seq![111u8, 110u8, 85u8, 110u8, 108u8, 111u8, 97u8, 100u8] {
        <Vec<u8> as Grammar>::spec_canonical(value)
    } else if name == seq![111u8, 110u8, 66u8, 108u8, 117u8, 114u8] {
        <Vec<u8> as Grammar>::spec_canonical(value)
    } else if name == seq![111u8, 110u8, 67u8, 104u8, 97u8, 110u8, 103u8, 101u8] {
        <Vec<u8> as Grammar>::spec_canonical(value)
    } else if name == seq![111u8, 110u8, 67u8, 111u8, 110u8, 116u8, 101u8, 120u8, 116u8, 77u8, 101u8, 110u8, 117u8] {
        <Vec<u8> as Grammar>::spec_canonical(value)
    } else if name == seq![111u8, 110u8, 70u8, 111u8, 99u8, 117u8, 115u8] {
        <Vec<u8> as Grammar>::spec_canonical(value)
    } else if name == seq![111u8, 110u8, 73u8, 110u8, 112u8, 117u8, 116u8] {
        <Vec<u8> as Grammar>::spec_canonical(value)
    } else if name == seq![111u8, 110u8, 73u8, 110u8, 118u8, 97u8, 108u8, 105u8, 100u8] {
        <Vec<u8> as Grammar>::spec_canonical(value)
    } else if name == seq![111u8, 110u8, 82u8, 101u8, 115u8, 101u8, 116u8] {
        <Vec<u8> as Grammar>::spec_canonical(value)
    } else if name == seq![111u8, 110u8, 83u8, 101u8, 97u8, 114u8, 99u8, 104u8] {
        <Vec<u8> as Grammar>::spec_canonical(value)
    } else if name == seq![111u8, 110u8, 83u8, 101u8, 108u8, 101u8, 99u8, 116u8] {
        <Vec<u8> as Grammar>::spec_canonical(value)
    } else {
        None
    }
}

pub open spec fn attribute_known_10(name: Seq<u8>) -> bool {
    name == seq![111u8, 110u8, 83u8, 117u8, 98u8, 109u8, 105u8, 116u8]
    || name == seq![111u8, 110u8, 75u8, 101u8, 121u8, 68u8, 111u8, 119u8, 110u8]
    || name == seq![111u8, 110u8, 75u8, 101u8, 121u8, 80u8, 114u8, 101u8, 115u8, 115u8]
    || name == seq![111u8, 110u8, 75u8, 101u8, 121u8, 85u8, 112u8]
    || name == seq![111u8, 110u8, 67u8, 108u8, 105u8, 99u8, 107u8]
    || name == seq![111u8, 110u8, 68u8, 111u8, 117u8, 98u8, 108u8, 101u8, 67u8, 108u8, 105u8, 99u8, 107u8]
    || name == seq![111u8, 110u8, 77u8, 111u8, 117u8, 115u8, 101u8, 68u8, 111u8, 119u8, 110u8]
    || name == seq![111u8, 110u8, 77u8, 111u8, 117u8, 115u8, 101u8, 77u8, 111u8, 118u8, 101u8]
    || name == seq![111u8, 110u8, 77u8, 111u8, 117u8, 115u8, 101u8, 79u8, 117u8, 116u8]
    || name == seq![111u8, 110u8, 77u8, 111u8, 117u8, 115u8, 101u8, 79u8, 118u8, 101u8, 114u8]
    || name == seq![111u8, 110u8, 77u8, 111u8, 117u8, 115u8, 101u8, 85u8, 112u8]
    || name == seq![111u8, 110u8, 87u8, 104u8, 101u8, 101u8, 108u8]
}

pub open spec fn attribute_canonical_10(name: Seq<u8>, value: Seq<u8>) -> Option<Seq<u8>> {
    if name == seq![111u8, 110u8, 83u8, 117u8, 98u8, 109u8, 105u8, 116u8] {
        <Vec<u8> as Grammar>::spec_canonical(value)
    } else if name == seq![111u8, 110u8, 75u8, 101u8, 121u8, 68u8, 111u8, 119u8, 110u8] {
        <Vec<u8> as Grammar>::spec_canonical(value)
    } else if name == seq![111u8, 110u8, 75u8, 101u8, 121u8, 80u8, 114u8, 101u8, 115u8, 115u8] {
        <Vec<u8> as Grammar>::spec_canonical(value)
    } else if name == seq![111u8, 110u8, 75u8, 101u8, 121u8, 85u8, 112u8] {
        <Vec<u8> as Grammar>::spec_canonical(value)
    } else if name == seq![111u8, 110u8, 67u8, 108u8, 105u8, 99u8, 107u8] {
        <Vec<u8> as Grammar>::spec_canonical(value)
    } else if name == seq![111u8, 110u8, 68u8, 111u8, 117u8, 98u8, 108u8, 101u8, 67u8, 108u8, 105u8, 99u8, 107u8] {
        <Vec<u8> as Grammar>::spec_canonical(value)
    } else if name == seq![111u8, 110u8, 77u8, 111u8, 117u8, 115u8, 101u8, 68u8, 111u8, 119u8, 110u8] {
        <Vec<u8> as Grammar>::spec_canonical(value)
    } else if name == seq![111u8, 110u8, 77u8, 111u8, 117u8, 115u8, 101u8, 77u8, 111u8, 118u8, 101u8] {
        <Vec<u8> as Grammar>::spec_canonical(value)
    } else if name == seq![111u8, 110u8, 77u8, 111u8, 117u8, 115u8, 101u8, 79u8, 117u8, 116u8] {
        <Vec<u8> as Grammar>::spec_canonical(value)
    } else if name == seq![111u8, 110u8, 77u8, 111u8, 117u8, 115u8, 101u8, 79u8, 118u8, 101u8, 114u8] {
        <Vec<u8> as Grammar>::spec_canonical(value)
    } else if name == seq![111u8, 110u8, 77u8, 111u8, 117u8, 115u8, 101u8, 85u8, 112u8] {
        <Vec<u8> as Grammar>::spec_canonical(value)
    } else if name == seq![111u8, 110u8, 87u8, 104u8, 101u8, 101u8, 108u8] {
        <Vec<u8> as Grammar>::spec_canonical(value)
    } else {
        None
    }
}

pub open spec fn attribute_known_11(name: Seq<u8>) -> bool {
    name == seq![111u8, 110u8, 68u8, 114u8, 97u8, 103u8]
    || name == seq![111u8, 110u8, 68u8, 114u8, 97u8, 103u8, 69u8, 110u8, 100u8]
    || name == seq![111u8, 110u8, 68u8, 114u8, 97u8, 103u8, 69u8, 110u8, 116u8, 101u8, 114u8]
    || name == seq![111u8, 110u8, 68u8, 114u8, 97u8, 103u8, 76u8, 101u8, 97u8, 118u8, 101u8]
    || name == seq![111u8, 110u8, 68u8, 114u8, 97u8, 103u8, 79u8, 118u8, 101u8, 114u8]
    || name == seq![111u8, 110u8, 68u8, 114u8, 97u8, 103u8, 83u8, 116u8, 97u8, 114u8, 116u8]
    || name == seq![111u8, 110u8, 68u8, 114u8, 111u8, 112u8]
    || name == seq![111u8, 110u8, 83u8, 99u8, 114u8, 111u8, 108u8, 108u8]
    || name == seq![111u8, 110u8, 67u8, 111u8, 112u8, 121u8]
    || name == seq![111u8, 110u8, 67u8, 117u8, 116u8]
    || name == seq![111u8, 110u8, 80u8, 97u8, 115u8, 116u8, 101u8]
    || name == seq![111u8, 110u8, 65u8, 98u8, 111u8, 114u8, 116u8]
}

pub open spec fn attribute_canonical_11(name: Seq<u8>, value: Seq<u8>) -> Option<Seq<u8>> {
    if name == seq![111u8, 110u8, 68u8, 114u8, 97u8, 103u8] {
        <Vec<u8> as Grammar>::spec_canonical(value)
    } else if name == seq![111u8, 110u8, 68u8, 114u8, 97u8, 103u8, 69u8, 110u8, 100u8] {
        <Vec<u8> as Grammar>::spec_canonical(value)
    } else if name == seq![111u8, 110u8, 68u8, 114u8, 97u8, 103u8, 69u8, 110u8, 116u8, 101u8, 114u8] {
        <Vec<u8> as Grammar>::spec_canonical(value)
    } else if name == seq![111u8, 110u8, 68u8, 114u8, 97u8, 103u8, 76u8, 101u8, 97u8, 118u8, 101u8] {
        <Vec<u8> as Grammar>::spec_canonical(value)
    } else if name == seq![111u8, 110u8, 68u8, 114u8, 97u8, 103u8, 79u8, 118u8, 101u8, 114u8] {
        <Vec<u8> as Grammar>::spec_canonical(value)
    } else if name == seq![111u8, 110u8, 68u8, 114u8, 97u8, 103u8, 83u8, 116u8, 97u8, 114u8, 116u8] {
        <Vec<u8> as Grammar>::spec_canonical(value)
    } else if name == seq![111u8, 110u8, 68u8, 114u8, 111u8, 112u8] {
        <Vec<u8> as Grammar>::spec_canonical(value)
    } else if name == seq![111u8, 110u8, 83u8, 99u8, 114u8, 111u8, 108u8, 108u8] {
        <Vec<u8> as Grammar>::spec_canonical(value)
    } else if name == seq![111u8, 110u8, 67u8, 111u8, 112u8, 121u8] {
        <Vec<u8> as Grammar>::spec_canonical(value)
    } else if name == seq![111u8, 110u8, 67u8, 117u8, 116u8] {
        <Vec<u8> as Grammar>::spec_canonical(value)
    } else if name == seq![111u8, 110u8, 80u8, 97u8, 115u8, 116u8, 101u8] {
        <Vec<u8> as Grammar>::spec_canonical(value)
    } else if name == seq![111u8, 110u8, 65u8, 98u8, 111u8, 114u8, 116u8] {
        <Vec<u8> as Grammar>::spec_canonical(value)
    } else {
        None
    }
}

pub open spec fn attribute_known_12(name: Seq<u8>) -> bool {
    name == seq![111u8, 110u8, 67u8, 97u8, 110u8, 80u8, 108u8, 97u8, 121u8]
    || name == seq![111u8, 110u8, 67u8, 97u8, 110u8, 80u8, 108u8, 97u8, 121u8, 84u8, 104u8, 114u8, 111u8, 117u8, 103u8, 104u8]
    || name == seq![111u8, 110u8, 67u8, 117u8, 101u8, 67u8, 104u8, 97u8, 110u8, 103u8, 101u8]
    || name == seq![111u8, 110u8, 68u8, 117u8, 114u8, 97u8, 116u8, 105u8, 111u8, 110u8, 67u8, 104u8, 97u8, 110u8, 103u8, 101u8]
    || name == seq![111u8, 110u8, 69u8, 109u8, 112u8, 116u8, 105u8, 101u8, 100u8]
    || name == seq![111u8, 110u8, 69u8, 110u8, 100u8, 101u8, 100u8]
    || name == seq![111u8, 110u8, 76u8, 111u8, 97u8, 100u8, 101u8, 100u8, 68u8, 97u8, 116u8, 97u8]
    || name == seq![111u8, 110u8, 76u8, 111u8, 97u8, 100u8, 101u8, 100u8, 77u8, 101u8, 116u8, 97u8, 100u8, 97u8, 116u8, 97u8]
    || name == seq![111u8, 110u8, 76u8, 111u8, 97u8, 100u8, 83u8, 116u8, 97u8, 114u8, 116u8]
    || name == seq![111u8, 110u8, 80u8, 97u8, 117u8, 115u8, 101u8]
    || name == seq![111u8, 110u8, 80u8, 108u8, 97u8, 121u8]
    || name == seq![111u8, 110u8, 80u8, 108u8, 97u8, 121u8, 105u8, 110u8, 103u8]
}

pub open spec fn attribute_canonical_12(name: Seq<u8>, value: Seq<u8>) -> Option<Seq<u8>> {
    if name == seq![111u8, 110u8, 67u8, 97u8, 110u8, 80u8, 108u8, 97u8, 121u8] {
        <Vec<u8> as Grammar>::spec_canonical(value)
    } else if name == seq![111u8, 110u8, 67u8, 97u8, 110u8, 80u8, 108u8, 97u8, 121u8, 84u8, 104u8, 114u8, 111u8, 117u8, 103u8, 104u8] {
        <Vec<u8> as Grammar>::spec_canonical(value)
    } else if name == seq![111u8, 110u8, 67u8, 117u8, 101u8, 67u8, 104u8, 97u8, 110u8, 103u8, 101u8] {
        <Vec<u8> as Grammar>::spec_canonical(value)
    } else if name == seq![111u8, 110u8, 68u8, 117u8, 114u8, 97u8, 116u8, 105u8, 111u8, 110u8, 67u8, 104u8, 97u8, 110u8, 103u8, 101u8] {
        <Vec<u8> as Grammar>::spec_canonical(value)
    } else if name == seq![111u8, 110u8, 69u8, 109u8, 112u8, 116u8, 105u8, 101u8, 100u8] {
        <Vec<u8> as Grammar>::spec_canonical(value)
    } else if name == seq![111u8, 110u8, 69u8, 110u8, 100u8, 101u8, 100u8] {
        <Vec<u8> as Grammar>::spec_canonical(value)
    } else if name == seq![111u8, 110u8, 76u8, 111u8, 97u8, 100u8, 101u8, 100u8, 68u8, 97u8, 116u8, 97u8] {
        <Vec<u8> as Grammar>::spec_canonical(value)
    } else if name == seq![111u8, 110u8, 76u8, 111u8, 97u8, 100u8, 101u8, 100u8, 77u8, 101u8, 116u8, 97u8, 100u8, 97u8, 116u8, 97u8] {
        <Vec<u8> as Grammar>::spec_canonical(value)
    } else if name == seq![111u8, 110u8, 76u8, 111u8, 97u8, 100u8, 83u8, 116u8, 97u8, 114u8, 116u8] {
        <Vec<u8> as Grammar>::spec_canonical(value)
    } else if name == seq![111u8, 110u8, 80u8, 97u8, 117u8, 115u8, 101u8] {
        <Vec<u8> as Grammar>::spec_canonical(value)
    } else if name == seq![111u8, 110u8, 80u8, 108u8, 97u8, 121u8] {
        <Vec<u8> as Grammar>::spec_canonical(value)
    } else if name == seq![111u8, 110u8, 80u8, 108u8, 97u8, 121u8, 105u8, 110u8, 103u8] {
        <Vec<u8> as Grammar>::spec_canonical(value)
    } else {
        None
    }
}

pub open spec fn attribute_known_13(name: Seq<u8>) -> bool {
    name == seq![111u8, 110u8, 80u8, 114u8, 111u8, 103u8, 114u8, 101u8, 115u8, 115u8]
    || name == seq![111u8, 110u8, 82u8, 97u8, 116u8, 101u8, 67u8, 104u8, 97u8, 110u8, 103u8, 101u8]
    || name == seq![111u8, 110u8, 83u8, 101u8, 101u8, 107u8, 101u8, 100u8]
    || name == seq![111u8, 110u8, 83u8, 101u8, 101u8, 107u8, 105u8, 110u8, 103u8]
    || name == seq![111u8, 110u8, 83u8, 116u8, 97u8, 108u8, 108u8, 101u8, 100u8]
    || name == seq![111u8, 110u8, 83u8, 117u8, 115u8, 112u8, 101u8, 110u8, 100u8]
    || name == seq![111u8, 110u8, 84u8, 105u8, 109u8, 101u8, 85u8, 112u8, 100u8, 97u8, 116u8, 101u8]
    || name == seq![111u8, 110u8, 86u8, 111u8, 108u8, 117u8, 109u8, 101u8, 67u8, 104u8, 97u8, 110u8, 103u8, 101u8]
    || name == seq![111u8, 110u8, 87u8, 97u8, 105u8, 116u8, 105u8, 110u8, 103u8]
    || name == seq![111u8, 110u8, 84u8, 111u8, 103u8, 103u8, 108u8, 101u8]
    || name == seq![107u8, 101u8, 121u8, 80u8, 111u8, 105u8, 110u8, 116u8, 115u8]
    || name == seq![112u8, 97u8, 116u8, 104u8]
}

pub open spec fn attribute_canonical_13(name: Seq<u8>, value: Seq<u8>) -> Option<Seq<u8>> {
    if name == seq![111u8, 110u8, 80u8, 114u8, 111u8, 103u8, 114u8, 101u8, 115u8, 115u8] {
        <Vec<u8> as Grammar>::spec_canonical(value)
    } else if name == seq![111u8, 110u8, 82u8, 97u8, 116u8, 101u8, 67u8, 104u8, 97u8, 110u8, 103u8, 101u8] {
        <Vec<u8> as Grammar>::spec_canonical(value)
    } else if name == seq![111u8, 110u8, 83u8, 101u8, 101u8, 107u8, 101u8, 100u8] {
        <Vec<u8> as Grammar>::spec_canonical(value)
    } else if name == seq![111u8, 110u8, 83u8, 101u8, 101u8, 107u8, 105u8, 110u8, 103u8] {
        <Vec<u8> as Grammar>::spec_canonical(value)
    } else if name == seq![111u8, 110u8, 83u8, 116u8, 97u8, 108u8, 108u8, 101u8, 100u8] {
        <Vec<u8> as Grammar>::spec_canonical(value)
    } else if name == seq![111u8, 110u8, 83u8, 117u8, 115u8, 112u8, 101u8, 110u8, 100u8] {
        <Vec<u8> as Grammar>::spec_canonical(value)
    } else if name == seq![111u8, 110u8, 84u8, 105u8, 109u8, 101u8, 85u8, 112u8, 100u8, 97u8, 116u8, 101u8] {
        <Vec<u8> as Grammar>::spec_canonical(value)
    } else if name == seq![111u8, 110u8, 86u8, 111u8, 108u8, 117u8, 109u8, 101u8, 67u8, 104u8, 97u8, 110u8, 103u8, 101u8] {
        <Vec<u8> as Grammar>::spec_canonical(value)
    } else if name == seq![111u8, 110u8, 87u8, 97u8, 105u8, 116u8, 105u8, 110u8, 103u8] {
        <Vec<u8> as Grammar>::spec_canonical(value)
    } else if name == seq![111u8, 110u8, 84u8, 111u8, 103u8, 103u8, 108u8, 101u8] {
        <Vec<u8> as Grammar>::spec_canonical(value)
    } else if name == seq![107u8, 101u8, 121u8, 80u8, 111u8, 105u8, 110u8, 116u8, 115u8] {
        <Vec<u8> as Grammar>::spec_canonical(value)
    } else if name == seq![112u8, 97u8, 116u8, 104u8] {
        <PathData as Grammar>::spec_canonical(value)
    } else {
        None
    }
}

pub open spec fn attribute_known_14(name: Seq<u8>) -> bool {
    name == seq![114u8, 111u8, 116u8, 97u8, 116u8, 101u8]
    || name == seq![99u8, 97u8, 108u8, 99u8, 77u8, 111u8, 100u8, 101u8]
    || name == seq![118u8, 97u8, 108u8, 117u8, 101u8, 115u8]
    || name == seq![107u8, 101u8, 121u8, 84u8, 105u8, 109u8, 101u8, 115u8]
    || name == seq![107u8, 101u8, 121u8, 83u8, 112u8, 108u8, 105u8, 110u8, 101u8, 115u8]
    || name == seq![102u8, 114u8, 111u8, 109u8]
    || name == seq![116u8, 111u8]
    || name == seq![98u8, 121u8]
    || name == seq![112u8, 97u8, 116u8, 104u8, 76u8, 101u8, 110u8, 103u8, 116u8, 104u8]
    || name == seq![120u8, 49u8]
    || name == seq![121u8, 49u8]
    || name == seq![120u8, 50u8]
}

pub open spec fn attribute_canonical_14(name: Seq<u8>, value: Seq<u8>) -> Option<Seq<u8>> {
    if name == seq![114u8, 111u8, 116u8, 97u8, 116u8, 101u8] {
        <Rotate as Grammar>::spec_canonical(value)
    } else if name == seq![99u8, 97u8, 108u8, 99u8, 77u8, 111u8, 100u8, 101u8] {
        Some(Seq::empty())
    } else if name == seq![118u8, 97u8, 108u8, 117u8, 101u8, 115u8] {
        Some(Seq::empty())
    } else if name == seq![107u8, 101u8, 121u8, 84u8, 105u8, 109u8, 101u8, 115u8] {
        Some(Seq::empty())
    } else if name == seq![107u8, 101u8, 121u8, 83u8, 112u8, 108u8, 105u8, 110u8, 101u8, 115u8] {
        Some(Seq::empty())
    } else if name == seq![102u8, 114u8, 111u8, 109u8] {
        Some(Seq::empty())
    } else if name == seq![116u8, 111u8] {
        Some(Seq::empty())
    } else if name == seq![98u8, 121u8] {
        Some(Seq::empty())
    } else if name == seq![112u8, 97u8, 116u8, 104u8, 76u8, 101u8, 110u8, 103u8, 116u8, 104u8] {
        <Number as Grammar>::spec_canonical(value)
    } else if name == seq![120u8, 49u8] {
        <LengthOrPercentageOrNumber as Grammar>::spec_canonical(value)
    } else if name == seq![121u8, 49u8] {
        <LengthOrPercentageOrNumber as Grammar>::spec_canonical(value)
    } else if name == seq![120u8, 50u8] {
        <LengthOrPercentageOrNumber as Grammar>::spec_canonical(value)
    } else {
        None
    }
}

pub open spec fn attribute_known_15(name: Seq<u8>) -> bool {
    name == seq![121u8, 50u8]
    || name == seq![112u8, 111u8, 105u8, 110u8, 116u8, 115u8]
    || name == seq![100u8, 111u8, 119u8, 110u8, 108u8, 111u8, 97u8, 100u8]
    || name == seq![104u8, 114u8, 101u8, 102u8, 76u8, 97u8, 110u8, 103u8]
    || name == seq![105u8, 110u8, 116u8, 101u8, 114u8, 101u8, 115u8, 116u8, 70u8, 111u8, 114u8]
    || name == seq![112u8, 105u8, 110u8, 103u8]
    || name == seq![114u8, 101u8, 102u8, 101u8, 114u8, 114u8, 101u8, 114u8, 80u8, 111u8, 108u8, 105u8, 99u8, 121u8]
    || name == seq![114u8, 101u8, 108u8]
    || name == seq![116u8, 97u8, 114u8, 103u8, 101u8, 116u8]
    || name == seq![109u8, 97u8, 114u8, 107u8, 101u8, 114u8, 72u8, 101u8, 105u8, 103u8, 104u8, 116u8]
    || name == seq![109u8, 97u8, 114u8, 107u8, 101u8, 114u8, 85u8, 110u8, 105u8, 116u8, 115u8]
    || name == seq![109u8, 97u8, 114u8, 107u8, 101u8, 114u8, 87u8, 105u8, 100u8, 116u8, 104u8]
}

pub open spec fn attribute_canonical_15(name: Seq<u8>, value: Seq<u8>) -> Option<Seq<u8>> {
    if name == seq![121u8, 50u8] {
        <LengthOrPercentageOrNumber as Grammar>::spec_canonical(value)
    } else if name == seq![112u8, 111u8, 105u8, 110u8, 116u8, 115u8] {
        list_canonical::<Point>(value)
    } else if name == seq![100u8, 111u8, 119u8, 110u8, 108u8, 111u8, 97u8, 100u8] {
        <Vec<u8> as Grammar>::spec_canonical(value)
    } else if name == seq![104u8, 114u8, 101u8, 102u8, 76u8, 97u8, 110u8, 103u8] {
        <Vec<u8> as Grammar>::spec_canonical(value)
    } else if name == seq![105u8, 110u8, 116u8, 101u8, 114u8, 101u8, 115u8, 116u8, 70u8, 111u8, 114u8] {
        <Vec<u8> as Grammar>::spec_canonical(value)
    } else if name == seq![112u8, 105u8, 110u8, 103u8] {
        list_canonical::<Url>(value)
    } else if name == seq![114u8, 101u8, 102u8, 101u8, 114u8, 114u8, 101u8, 114u8, 80u8, 111u8, 108u8, 105u8, 99u8, 121u8] {
        <ReferrerPolicy as Grammar>::spec_canonical(value)
    } else if name == seq![114u8, 101u8, 108u8] {
        list_canonical::<RelType>(value)
    } else if name == seq![116u8, 97u8, 114u8, 103u8, 101u8, 116u8] {
        <Target as Grammar>::spec_canonical(value)
    } else if name == seq![109u8, 97u8, 114u8, 107u8, 101u8, 114u8, 72u8, 101u8, 105u8, 103u8, 104u8, 116u8] {
        <LengthOrPercentage as Grammar>::spec_canonical(value)
    } else if name == seq![109u8, 97u8, 114u8, 107u8, 101u8, 114u8, 85u8, 110u8, 105u8, 116u8, 115u8] {
        <MarkerUnits as Grammar>::spec_canonical(value)
    } else if name == seq![109u8, 97u8, 114u8, 107u8, 101u8, 114u8, 87u8, 105u8, 100u8, 116u8, 104u8] {
        <LengthOrPercentage as Grammar>::spec_canonical(value)
    } else {
        None
    }
}

pub open spec fn attribute_known_16(name: Seq<u8>) -> bool {
    name == seq![111u8, 114u8, 105u8, 101u8, 110u8, 116u8]
    || name == seq![112u8, 114u8, 101u8, 115u8, 101u8, 114u8, 118u8, 101u8, 65u8, 115u8, 112u8, 101u8, 99u8, 116u8, 82u8, 97u8, 116u8, 105u8, 111u8]
    || name == seq![114u8, 101u8, 102u8, 88u8]
    || name == seq![114u8, 101u8, 102u8, 89u8]
    || name == seq![118u8, 105u8, 101u8, 119u8, 66u8, 111u8, 120u8]
    || name == seq![109u8, 97u8, 115u8, 107u8, 67u8, 111u8, 110u8, 116u8, 101u8, 110u8, 116u8, 85u8, 110u8, 105u8, 116u8, 115u8]
    || name == seq![109u8, 97u8, 115u8, 107u8, 85u8, 110u8, 105u8, 116u8, 115u8]
    || name == seq![112u8, 97u8, 116u8, 116u8, 101u8, 114u8, 110u8, 67u8, 111u8, 110u8, 116u8, 101u8, 110u8, 116u8, 85u8, 110u8, 105u8, 116u8, 115u8]
    || name == seq![112u8, 97u8, 116u8, 116u8, 101u8, 114u8, 110u8, 85u8, 110u8, 105u8, 116u8, 115u8]
    || name == seq![112u8, 97u8, 116u8, 116u8, 101u8, 114u8, 110u8, 84u8, 114u8, 97u8, 110u8, 115u8, 102u8, 111u8, 114u8, 109u8]
    || name == seq![114u8, 101u8, 115u8, 117u8, 108u8, 116u8]
    || name == seq![105u8, 110u8]
}

pub open spec fn attribute_canonical_16(name: Seq<u8>, value: Seq<u8>) -> Option<Seq<u8>> {
    if name == seq![111u8, 114u8, 105u8, 101u8, 110u8, 116u8] {
        <Orient as Grammar>::spec_canonical(value)
    } else if name == seq![112u8, 114u8, 101u8, 115u8, 101u8, 114u8, 118u8, 101u8, 65u8, 115u8, 112u8, 101u8, 99u8, 116u8, 82u8, 97u8, 116u8, 105u8, 111u8] {
        <PreserveAspectRatio as Grammar>::spec_canonical(value)
    } else if name == seq![114u8, 101u8, 102u8, 88u8] {
        <RefX as Grammar>::spec_canonical(value)
    } else if name == seq![114u8, 101u8, 102u8, 89u8] {
        <RefY as Grammar>::spec_canonical(value)
    } else if name == seq![118u8, 105u8, 101u8, 119u8, 66u8, 111u8, 120u8] {
        <ViewBox as Grammar>::spec_canonical(value)
    } else if name == seq![109u8, 97u8, 115u8, 107u8, 67u8, 111u8, 110u8, 116u8, 101u8, 110u8, 116u8, 85u8, 110u8, 105u8, 116u8, 115u8] {
        <MaskContentUnits as Grammar>::spec_canonical(value)
    } else if name == seq![109u8, 97u8, 115u8, 107u8, 85u8, 110u8, 105u8, 116u8, 115u8] {
        <MaskUnits as Grammar>::spec_canonical(value)
    } else if name == seq![112u8, 97u8, 116u8, 116u8, 101u8, 114u8, 110u8, 67u8, 111u8, 110u8, 116u8, 101u8, 110u8, 116u8, 85u8, 110u8, 105u8, 116u8, 115u8] {
        <PatternContentUnits as Grammar>::spec_canonical(value)
    } else if name == seq![112u8, 97u8, 116u8, 116u8, 101u8, 114u8, 110u8, 85u8, 110u8, 105u8, 116u8, 115u8] {
        <PatternUnits as Grammar>::spec_canonical(value)
    } else if name == seq![112u8, 97u8, 116u8, 116u8, 101u8, 114u8, 110u8, 84u8, 114u8, 97u8, 110u8, 115u8, 102u8, 111u8, 114u8, 109u8] {
        <Vec<u8> as Grammar>::spec_canonical(value)
    } else if name == seq![114u8, 101u8, 115u8, 117u8, 108u8, 116u8] {
        <Vec<u8> as Grammar>::spec_canonical(value)
    } else if name == seq![105u8, 110u8] {
        <In as Grammar>::spec_canonical(value)
    } else {
        None
    }
}

pub open spec fn attribute_known_17(name: Seq<u8>) -> bool {
    name == seq![105u8, 110u8, 50u8]
    || name == seq![109u8, 111u8, 100u8, 101u8]
    || name == seq![111u8, 112u8, 101u8, 114u8, 97u8, 116u8, 111u8, 114u8]
    || name == seq![107u8, 49u8]
    || name == seq![107u8, 50u8]
    || name == seq![107u8, 51u8]
    || name == seq![107u8, 52u8]
    || name == seq![111u8, 114u8, 100u8, 101u8, 114u8]
    || name == seq![107u8, 101u8, 114u8, 110u8, 101u8, 108u8, 77u8, 97u8, 116u8, 114u8, 105u8, 120u8]
    || name == seq![100u8, 105u8, 118u8, 105u8, 115u8, 111u8, 114u8]
    || name == seq![98u8, 105u8, 97u8, 115u8]
    || name == seq![116u8, 97u8, 114u8, 103u8, 101u8, 116u8, 88u8]
}

pub open spec fn attribute_canonical_17(name: Seq<u8>, value: Seq<u8>) -> Option<Seq<u8>> {
    if name == seq![105u8, 110u8, 50u8] {
        <In as Grammar>::spec_canonical(value)
    } else if name == seq![109u8, 111u8, 100u8, 101u8] {
        <BlendMode as Grammar>::spec_canonical(value)
    } else if name == seq![111u8, 112u8, 101u8, 114u8, 97u8, 116u8, 111u8, 114u8] {
        <Operator as Grammar>::spec_canonical(value)
    } else if name == seq![107u8, 49u8] {
        <Number as Grammar>::spec_canonical(value)
    } else if name == seq![107u8, 50u8] {
        <Number as Grammar>::spec_canonical(value)
    } else if name == seq![107u8, 51u8] {
        <Number as Grammar>::spec_canonical(value)
    } else if name == seq![107u8, 52u8] {
        <Number as Grammar>::spec_canonical(value)
    } else if name == seq![111u8, 114u8, 100u8, 101u8, 114u8] {
        <u64 as Grammar>::spec_canonical(value)
    } else if name == seq![107u8, 101u8, 114u8, 110u8, 101u8, 108u8, 77u8, 97u8, 116u8, 114u8, 105u8, 120u8] {
        list_canonical::<Number>(value)
    } else if name == seq![100u8, 105u8, 118u8, 105u8, 115u8, 111u8, 114u8] {
        <Number as Grammar>::spec_canonical(value)
    } else if name == seq![98u8, 105u8, 97u8, 115u8] {
        <Number as Grammar>::spec_canonical(value)
    } else if name == seq![116u8, 97u8, 114u8, 103u8, 101u8, 116u8, 88u8] {
        <i64 as Grammar>::spec_canonical(value)
    } else {
        None
    }
}

pub open spec fn attribute_known_18(name: Seq<u8>) -> bool {
    name == seq![116u8, 97u8, 114u8, 103u8, 101u8, 116u8, 89u8]
    || name == seq![101u8, 100u8, 103u8, 101u8, 77u8, 111u8, 100u8, 101u8]
    || name == seq![107u8, 101u8, 114u8, 110u8, 101u8, 108u8, 85u8, 110u8, 105u8, 116u8, 76u8, 101u8, 110u8, 103u8, 116u8, 104u8]
    || name == seq![112u8, 114u8, 101u8, 115u8, 101u8, 114u8, 118u8, 101u8, 65u8, 108u8, 112u8, 104u8, 97u8]
    || name == seq![115u8, 117u8, 114u8, 102u8, 97u8, 99u8, 101u8, 83u8, 99u8, 97u8, 108u8, 101u8]
    || name == seq![100u8, 105u8, 102u8, 102u8, 117u8, 115u8, 101u8, 67u8, 111u8, 110u8, 115u8, 116u8, 97u8, 110u8, 116u8]
    || name == seq![115u8, 99u8, 97u8, 108u8, 101u8]
    || name == seq![120u8, 67u8, 104u8, 97u8, 110u8, 110u8, 101u8, 108u8, 83u8, 101u8, 108u8, 101u8, 99u8, 116u8, 111u8, 114u8]
    || name == seq![121u8, 67u8, 104u8, 97u8, 110u8, 110u8, 101u8, 108u8, 83u8, 101u8, 108u8, 101u8, 99u8, 116u8, 111u8, 114u8]
    || name == seq![100u8, 120u8]
    || name == seq![100u8, 121u8]
    || name == seq![115u8, 116u8, 100u8, 68u8, 101u8, 118u8, 105u8, 97u8, 116u8, 105u8, 111u8, 110u8]
}

pub open spec fn attribute_canonical_18(name: Seq<u8>, value: Seq<u8>) -> Option<Seq<u8>> {
    if name == seq![116u8, 97u8, 114u8, 103u8, 101u8, 116u8, 89u8] {
        <i64 as Grammar>::spec_canonical(value)
    } else if name == seq![101u8, 100u8, 103u8, 101u8, 77u8, 111u8, 100u8, 101u8] {
        <EdgeMode as Grammar>::spec_canonical(value)
    } else if name == seq![107u8, 101u8, 114u8, 110u8, 101u8, 108u8, 85u8, 110u8, 105u8, 116u8, 76u8, 101u8, 110u8, 103u8, 116u8, 104u8] {
        <NumberOptionalNumber as Grammar>::spec_canonical(value)
    } else if name == seq![112u8, 114u8, 101u8, 115u8, 101u8, 114u8, 118u8, 101u8, 65u8, 108u8, 112u8, 104u8, 97u8] {
        if value == kw_true() {
            Some(kw_true())
        } else {
            Some(kw_false())
        }
    } else if name == seq![115u8, 117u8, 114u8, 102u8, 97u8, 99u8, 101u8, 83u8, 99u8, 97u8, 108u8, 101u8] {
        <Number as Grammar>::spec_canonical(value)
    } else if name == seq![100u8, 105u8, 102u8, 102u8, 117u8, 115u8, 101u8, 67u8, 111u8, 110u8, 115u8, 116u8, 97u8, 110u8, 116u8] {
        <Number as Grammar>::spec_canonical(value)
    } else if name == seq![115u8, 99u8, 97u8, 108u8, 101u8] {
        <Number as Grammar>::spec_canonical(value)
    } else if name == seq![120u8, 67u8, 104u8, 97u8, 110u8, 110u8, 101u8, 108u8, 83u8, 101u8, 108u8, 101u8, 99u8, 116u8, 111u8, 114u8] {
        <ChannelSelector as Grammar>::spec_canonical(value)
    } else if name == seq![121u8, 67u8, 104u8, 97u8, 110u8, 110u8, 101u8, 108u8, 83u8, 101u8, 108u8, 101u8, 99u8, 116u8, 111u8, 114u8] {
        <ChannelSelector as Grammar>::spec_canonical(value)
    } else if name == seq![100u8, 120u8] {
        <Number as Grammar>::spec_canonical(value)
    } else if name == seq![100u8, 121u8] {
        <Number as Grammar>::spec_canonical(value)
    } else if name == seq![115u8, 116u8, 100u8, 68u8, 101u8, 118u8, 105u8, 97u8, 116u8, 105u8, 111u8, 110u8] {
        <NumberOptionalNumber as Grammar>::spec_canonical(value)
    } else {
        None
    }
}

pub open spec fn attribute_known_19(name: Seq<u8>) -> bool {
    name == seq![99u8, 114u8, 111u8, 115u8, 115u8, 79u8, 114u8, 105u8, 103u8, 105u8, 110u8]
    || name == seq![114u8, 97u8, 100u8, 105u8, 117u8, 115u8]
    || name == seq![115u8, 112u8, 101u8, 99u8, 117u8, 108u8, 97u8, 114u8, 67u8, 111u8, 110u8, 115u8, 116u8, 97u8, 110u8, 116u8]
    || name == seq![115u8, 112u8, 101u8, 99u8, 117u8, 108u8, 97u8, 114u8, 69u8, 120u8, 112u8, 111u8, 110u8, 101u8, 110u8, 116u8]
    || name == seq![98u8, 97u8, 115u8, 101u8, 70u8, 114u8, 101u8, 113u8, 117u8, 101u8, 110u8, 99u8, 121u8]
    || name == seq![110u8, 117u8, 109u8, 79u8, 99u8, 116u8, 97u8, 118u8, 101u8, 115u8]
    || name == seq![115u8, 101u8, 101u8, 100u8]
    || name == seq![115u8, 116u8, 105u8, 116u8, 99u8, 104u8, 84u8, 105u8, 108u8, 101u8, 115u8]
    || name == seq![103u8, 114u8, 97u8, 100u8, 105u8, 101u8, 110u8, 116u8, 85u8, 110u8, 105u8, 116u8, 115u8]
    || name == seq![103u8, 114u8, 97u8, 100u8, 105u8, 101u8, 110u8, 116u8, 84u8, 114u8, 97u8, 110u8, 115u8, 102u8, 111u8, 114u8, 109u8]
    || name == seq![115u8, 112u8, 114u8, 101u8, 97u8, 100u8, 77u8, 101u8, 116u8, 104u8, 111u8, 100u8]
    || name == seq![102u8, 120u8]
}

pub open spec fn attribute_canonical_19(name: Seq<u8>, value: Seq<u8>) -> Option<Seq<u8>> {
    if name == seq![99u8, 114u8, 111u8, 115u8, 115u8, 79u8, 114u8, 105u8, 103u8, 105u8, 110u8] {
        <CrossOrigin as Grammar>::spec_canonical(value)
    } else if name == seq![114u8, 97u8, 100u8, 105u8, 117u8, 115u8] {
        <NumberOptionalNumber as Grammar>::spec_canonical(value)
    } else if name == seq![115u8, 112u8, 101u8, 99u8, 117u8, 108u8, 97u8, 114u8, 67u8, 111u8, 110u8, 115u8, 116u8, 97u8, 110u8, 116u8] {
        <Number as Grammar>::spec_canonical(value)
    } else if name == seq![115u8, 112u8, 101u8, 99u8, 117u8, 108u8, 97u8, 114u8, 69u8, 120u8, 112u8, 111u8, 110u8, 101u8, 110u8, 116u8] {
        <Number as Grammar>::spec_canonical(value)
    } else if name == seq![98u8, 97u8, 115u8, 101u8, 70u8, 114u8, 101u8, 113u8, 117u8, 101u8, 110u8, 99u8, 121u8] {
        <NumberOptionalNumber as Grammar>::spec_canonical(value)
    } else if name == seq![110u8, 117u8, 109u8, 79u8, 99u8, 116u8, 97u8, 118u8, 101u8, 115u8] {
        <u64 as Grammar>::spec_canonical(value)
    } else if name == seq![115u8, 101u8, 101u8, 100u8] {
        <Number as Grammar>::spec_canonical(value)
    } else if name == seq![115u8, 116u8, 105u8, 116u8, 99u8, 104u8, 84u8, 105u8, 108u8, 101u8, 115u8] {
        <StitchTiles as Grammar>::spec_canonical(value)
    } else if name == seq![103u8, 114u8, 97u8, 100u8, 105u8, 101u8, 110u8, 116u8, 85u8, 110u8, 105u8, 116u8, 115u8] {
        <GradientUnits as Grammar>::spec_canonical(value)
    } else if name == seq![103u8, 114u8, 97u8, 100u8, 105u8, 101u8, 110u8, 116u8, 84u8, 114u8, 97u8, 110u8, 115u8, 102u8, 111u8, 114u8, 109u8] {
        <Vec<u8> as Grammar>::spec_canonical(value)
    } else if name == seq![115u8, 112u8, 114u8, 101u8, 97u8, 100u8, 77u8, 101u8, 116u8, 104u8, 111u8, 100u8] {
        <SpreadMethod as Grammar>::spec_canonical(value)
    } else if name == seq![102u8, 120u8] {
        <LengthOrPercentage as Grammar>::spec_canonical(value)
    } else {
        None
    }
}

pub open spec fn attribute_known_20(name: Seq<u8>) -> bool {
    name == seq![102u8, 121u8]
    || name == seq![102u8, 114u8]
    || name == seq![100u8, 101u8, 99u8, 111u8, 100u8, 105u8, 110u8, 103u8]
    || name == seq![102u8, 101u8, 116u8, 99u8, 104u8, 80u8, 114u8, 105u8, 111u8, 114u8, 105u8, 116u8, 121u8]
    || name == seq![108u8, 101u8, 110u8, 103u8, 116u8, 104u8, 65u8, 100u8, 106u8, 117u8, 115u8, 116u8]
    || name == seq![116u8, 101u8, 120u8, 116u8, 76u8, 101u8, 110u8, 103u8, 116u8, 104u8]
    || name == seq![99u8, 108u8, 105u8, 112u8, 80u8, 97u8, 116u8, 104u8, 85u8, 110u8, 105u8, 116u8, 115u8]
    || name == seq![109u8, 101u8, 116u8, 104u8, 111u8, 100u8]
    || name == seq![115u8, 105u8, 100u8, 101u8]
    || name == seq![115u8, 112u8, 97u8, 99u8, 105u8, 110u8, 103u8]
    || name == seq![115u8, 116u8, 97u8, 114u8, 116u8, 79u8, 102u8, 102u8, 115u8, 101u8, 116u8]
    || name == seq![102u8, 105u8, 108u8, 116u8, 101u8, 114u8, 85u8, 110u8, 105u8, 116u8, 115u8]
}

pub open spec fn attribute_canonical_20(name: Seq<u8>, value: Seq<u8>) -> Option<Seq<u8>> {
    if name == seq![102u8, 121u8] {
        <LengthOrPercentage as Grammar>::spec_canonical(value)
    } else if name == seq![102u8, 114u8] {
        <LengthOrPercentage as Grammar>::spec_canonical(value)
    } else if name == seq![100u8, 101u8, 99u8, 111u8, 100u8, 105u8, 110u8, 103u8] {
        <Decoding as Grammar>::spec_canonical(value)
    } else if name == seq![102u8, 101u8, 116u8, 99u8, 104u8, 80u8, 114u8, 105u8, 111u8, 114u8, 105u8, 116u8, 121u8] {
        <FetchPriority as Grammar>::spec_canonical(value)
    } else if name == seq![108u8, 101u8, 110u8, 103u8, 116u8, 104u8, 65u8, 100u8, 106u8, 117u8, 115u8, 116u8] {
        <LengthAdjust as Grammar>::spec_canonical(value)
    } else if name == seq![116u8, 101u8, 120u8, 116u8, 76u8, 101u8, 110u8, 103u8, 116u8, 104u8] {
        <LengthOrPercentage as Grammar>::spec_canonical(value)
    } else if name == seq![99u8, 108u8, 105u8, 112u8, 80u8, 97u8, 116u8, 104u8, 85u8, 110u8, 105u8, 116u8, 115u8] {
        <ClipPathUnits as Grammar>::spec_canonical(value)
    } else if name == seq![109u8, 101u8, 116u8, 104u8, 111u8, 100u8] {
        <Method as Grammar>::spec_canonical(value)
    } else if name == seq![115u8, 105u8, 100u8, 101u8] {
        <Side as Grammar>::spec_canonical(value)
    } else if name == seq![115u8, 112u8, 97u8, 99u8, 105u8, 110u8, 103u8] {
        <Spacing as Grammar>::spec_canonical(value)
    } else if name == seq![115u8, 116u8, 97u8, 114u8, 116u8, 79u8, 102u8, 102u8, 115u8, 101u8, 116u8] {
        <LengthOrPercentageOrNumber as Grammar>::spec_canonical(value)
    } else if name == seq![102u8, 105u8, 108u8, 116u8, 101u8, 114u8, 85u8, 110u8, 105u8, 116u8, 115u8] {
        <FilterUnits as Grammar>::spec_canonical(value)
    } else {
        None
    }
}

pub open spec fn attribute_known_21(name: Seq<u8>) -> bool {
    name == seq![112u8, 114u8, 105u8, 109u8, 105u8, 116u8, 105u8, 118u8, 101u8, 85u8, 110u8, 105u8, 116u8, 115u8]
}

pub open spec fn attribute_canonical_21(name: Seq<u8>, value: Seq<u8>) -> Option<Seq<u8>> {
    if name == seq![112u8, 114u8, 105u8, 109u8, 105u8, 116u8, 105u8, 118u8, 101u8, 85u8, 110u8, 105u8, 116u8, 115u8] {
        <PrimitiveUnits as Grammar>::spec_canonical(value)
    } else {
        None
    }
}

/// Is `name` the name of an attribute kind?
pub open spec fn attribute_known(name: Seq<u8>) -> bool {
    attribute_known_0(name)
    || attribute_known_1(name)
    || attribute_known_2(name)
    || attribute_known_3(name)
    || attribute_known_4(name)
    || attribute_known_5(name)
    || attribute_known_6(name)
    || attribute_known_7(name)
    || attribute_known_8(name)
    || attribute_known_9(name)
    || attribute_known_10(name)
    || attribute_known_11(name)
    || attribute_known_12(name)
    || attribute_known_13(name)
    || attribute_known_14(name)
    || attribute_known_15(name)
    || attribute_known_16(name)
    || attribute_known_17(name)
    || attribute_known_18(name)
    || attribute_known_19(name)
    || attribute_known_20(name)
    || attribute_known_21(name)
}

/// The text that the value of attribute `name` parsed from `value` is
/// written back as, or `None` when `value` is not in its grammar.
pub open spec fn attribute_canonical(name: Seq<u8>, value: Seq<u8>) -> Option<Seq<u8>> {
    if attribute_known_0(name) {
        attribute_canonical_0(name, value)
    } else if attribute_known_1(name) {
        attribute_canonical_1(name, value)
    } else if attribute_known_2(name) {
        attribute_canonical_2(name, value)
    } else if attribute_known_3(name) {
        attribute_canonical_3(name, value)
    } else if attribute_known_4(name) {
        attribute_canonical_4(name, value)
    } else if attribute_known_5(name) {
        attribute_canonical_5(name, value)
    } else if attribute_known_6(name) {
        attribute_canonical_6(name, value)
    } else if attribute_known_7(name) {
        attribute_canonical_7(name, value)
    } else if attribute_known_8(name) {
        attribute_canonical_8(name, value)
    } else if attribute_known_9(name) {
        attribute_canonical_9(name, value)
    } else if attribute_known_10(name) {
        attribute_canonical_10(name, value)
    } else if attribute_known_11(name) {
        attribute_canonical_11(name, value)
    } else if attribute_known_12(name) {
        attribute_canonical_12(name, value)
    } else if attribute_known_13(name) {
        attribute_canonical_13(name, value)
    } else if attribute_known_14(name) {
        attribute_canonical_14(name, value)
    } else if attribute_known_15(name) {
        attribute_canonical_15(name, value)
    } else if attribute_known_16(name) {
        attribute_canonical_16(name, value)
    } else if attribute_known_17(name) {
        attribute_canonical_17(name, value)
    } else if attribute_known_18(name) {
        attribute_canonical_18(name, value)
    } else if attribute_known_19(name) {
        attribute_canonical_19(name, value)
    } else if attribute_known_20(name) {
        attribute_canonical_20(name, value)
    } else if attribute_known_21(name) {
        attribute_canonical_21(name, value)
    } else {
        None
    }
}

/// A value that its attribute's grammar rejects.
#[derive(Clone, Copy, Debug, PartialEq, Eq, Structural)]
pub struct InvalidValue;

#[verifier::rlimit(100)]
fn parse_attribute_0(name: &[u8], value: &[u8]) -> (r: Result<Option<Attribute>, InvalidValue>)
    ensures
        match r {
            Ok(None) => !attribute_known_0(name@),
            Ok(Some(a)) => attribute_known_0(name@) && a.spec_name() == name@ && a.spec_wf()
                && attribute_canonical_0(name@, value@) == Some(a.spec_value()),
            Err(_) => attribute_known_0(name@) && attribute_canonical_0(name@, value@) is None,
        },
{
    if bytes_eq(name, &[120u8, 109u8, 108u8, 110u8, 115u8]) {
        return match <Vec<u8> as Grammar>::parse(value) {
            Some(x) => Ok(Some(Attribute::Xmlns(x))),
            None => Err(InvalidValue),
        };
    }
    if bytes_eq(name, &[97u8, 117u8, 116u8, 111u8, 102u8, 111u8, 99u8, 117u8, 115u8]) {
        let on = value.len() == 0 || bytes_eq(value, &[97u8, 117u8, 116u8, 111u8, 102u8, 111u8, 99u8, 117u8, 115u8]);
        assert(seq![97u8, 117u8, 116u8, 111u8, 102u8, 111u8, 99u8, 117u8, 115u8] == kw_autofocus());
        return Ok(Some(Attribute::Autofocus(on)));
    }
    if bytes_eq(name, &[105u8, 100u8]) {
        return match <Vec<u8> as Grammar>::parse(value) {
            Some(x) => Ok(Some(Attribute::Id(x))),
            None => Err(InvalidValue),
        };
    }
    if bytes_eq(name, &[99u8, 108u8, 97u8, 115u8, 115u8]) {
        return match parse_list::<Vec<u8>>(value) {
            Some(x) => Ok(Some(Attribute::Class(x))),
            None => Err(InvalidValue),
        };
    }
    if bytes_eq(name, &[115u8, 116u8, 121u8, 108u8, 101u8]) {
        return match <Vec<u8> as Grammar>::parse(value) {
            Some(x) => Ok(Some(Attribute::Style(x))),
            None => Err(InvalidValue),
        };
    }
    if bytes_eq(name, &[108u8, 97u8, 110u8, 103u8]) {
        return match <Vec<u8> as Grammar>::parse(value) {
            Some(x) => Ok(Some(Attribute::Lang(x))),
            None => Err(InvalidValue),
        };
    }
    if bytes_eq(name, &[116u8, 97u8, 98u8, 105u8, 110u8, 100u8, 101u8, 120u8]) {
        return match <i64 as Grammar>::parse(value) {
            Some(x) => Ok(Some(Attribute::Tabindex(x))),
            None => Err(InvalidValue),
        };
    }
    if bytes_eq(name, &[114u8, 101u8, 113u8, 117u8, 105u8, 114u8, 101u8, 100u8, 69u8, 120u8, 116u8, 101u8, 110u8, 115u8, 105u8, 111u8, 110u8, 115u8]) {
        return match parse_list::<Vec<u8>>(value) {
            Some(x) => Ok(Some(Attribute::RequiredExtensions(x))),
            None => Err(InvalidValue),
        };
    }
    if bytes_eq(name, &[115u8, 121u8, 115u8, 116u8, 101u8, 109u8, 76u8, 97u8, 110u8, 103u8, 117u8, 97u8, 103u8, 101u8]) {
        return match <Vec<u8> as Grammar>::parse(value) {
            Some(x) => Ok(Some(Attribute::SystemLanguage(x))),
            None => Err(InvalidValue),
        };
    }
    if bytes_eq(name, &[97u8, 108u8, 105u8, 103u8, 110u8, 109u8, 101u8, 110u8, 116u8, 45u8, 98u8, 97u8, 115u8, 101u8, 108u8, 105u8, 110u8, 101u8]) {
        return match <AlignmentBaseline as Grammar>::parse(value) {
            Some(x) => Ok(Some(Attribute::AlignmentBaseline(x))),
            None => Err(InvalidValue),
        };
    }
    if bytes_eq(name, &[98u8, 97u8, 115u8, 101u8, 108u8, 105u8, 110u8, 101u8, 45u8, 115u8, 104u8, 105u8, 102u8, 116u8]) {
        return match <BaselineShift as Grammar>::parse(value) {
            Some(x) => Ok(Some(Attribute::BaselineShift(x))),
            None => Err(InvalidValue),
        };
    }
    if bytes_eq(name, &[99u8, 108u8, 105u8, 112u8, 45u8, 112u8, 97u8, 116u8, 104u8]) {
        return match <Vec<u8> as Grammar>::parse(value) {
            Some(x) => Ok(Some(Attribute::ClipPath(x))),
            None => Err(InvalidValue),
        };
    }
    Ok(None)
}

#[verifier::rlimit(100)]
fn parse_attribute_1(name: &[u8], value: &[u8]) -> (r: Result<Option<Attribute>, InvalidValue>)
    ensures
        match r {
            Ok(None) => !attribute_known_1(name@),
            Ok(Some(a)) => attribute_known_1(name@) && a.spec_name() == name@ && a.spec_wf()
                && attribute_canonical_1(name@, value@) == Some(a.spec_value()),
            Err(_) => attribute_known_1(name@) && attribute_canonical_1(name@, value@) is None,
        },
{
    if bytes_eq(name, &[99u8, 108u8, 105u8, 112u8, 45u8, 114u8, 117u8, 108u8, 101u8]) {
        return match <ClipRule as Grammar>::parse(value) {
            Some(x) => Ok(Some(Attribute::ClipRule(x))),
            None => Err(InvalidValue),
        };
    }
    if bytes_eq(name, &[99u8, 111u8, 108u8, 111u8, 114u8]) {
        return match <Color as Grammar>::parse(value) {
            Some(x) => Ok(Some(Attribute::Color(x))),
            None => Err(InvalidValue),
        };
    }
    if bytes_eq(name, &[99u8, 111u8, 108u8, 111u8, 114u8, 45u8, 105u8, 110u8, 116u8, 101u8, 114u8, 112u8, 111u8, 108u8, 97u8, 116u8, 105u8, 111u8, 110u8]) {
        return match <ColorInterpolation as Grammar>::parse(value) {
            Some(x) => Ok(Some(Attribute::ColorInterpolation(x))),
            None => Err(InvalidValue),
        };
    }
    if bytes_eq(name, &[99u8, 111u8, 108u8, 111u8, 114u8, 45u8, 105u8, 110u8, 116u8, 101u8, 114u8, 112u8, 111u8, 108u8, 97u8, 116u8, 105u8, 111u8, 110u8, 45u8, 102u8, 105u8, 108u8, 116u8, 101u8, 114u8, 115u8]) {
        return match <ColorInterpolationFilter as Grammar>::parse(value) {
            Some(x) => Ok(Some(Attribute::ColorInterpolationFilters(x))),
            None => Err(InvalidValue),
        };
    }
    if bytes_eq(name, &[99u8, 117u8, 114u8, 115u8, 111u8, 114u8]) {
        return match <Cursor as Grammar>::parse(value) {
            Some(x) => Ok(Some(Attribute::Cursor(x))),
            None => Err(InvalidValue),
        };
    }
    if bytes_eq(name, &[99u8, 120u8]) {
        return match <LengthOrPercentage as Grammar>::parse(value) {
            Some(x) => Ok(Some(Attribute::Cx(x))),
            None => Err(InvalidValue),
        };
    }
    if bytes_eq(name, &[99u8, 121u8]) {
        return match <LengthOrPercentage as Grammar>::parse(value) {
            Some(x) => Ok(Some(Attribute::Cy(x))),
            None => Err(InvalidValue),
        };
    }
    if name.len() == 1 && name[0] == 100u8 {
        assert(name@ =~= seq![100u8]);
        return match <PathData as Grammar>::parse(value) {
            Some(x) => Ok(Some(Attribute::D(x))),
            None => Err(InvalidValue),
        };
    }
    if bytes_eq(name, &[100u8, 105u8, 114u8, 101u8, 99u8, 116u8, 105u8, 111u8, 110u8]) {
        return match <TextDirection as Grammar>::parse(value) {
            Some(x) => Ok(Some(Attribute::Direction(x))),
            None => Err(InvalidValue),
        };
    }
    if bytes_eq(name, &[100u8, 105u8, 115u8, 112u8, 108u8, 97u8, 121u8]) {
        return match <Display as Grammar>::parse(value) {
            Some(x) => Ok(Some(Attribute::Display(x))),
            None => Err(InvalidValue),
        };
    }
    if bytes_eq(name, &[100u8, 111u8, 109u8, 105u8, 110u8, 97u8, 110u8, 116u8, 45u8, 98u8, 97u8, 115u8, 101u8, 108u8, 105u8, 110u8, 101u8]) {
        return match <DominantBaseline as Grammar>::parse(value) {
            Some(x) => Ok(Some(Attribute::DominantBaseline(x))),
            None => Err(InvalidValue),
        };
    }
    if bytes_eq(name, &[102u8, 105u8, 108u8, 108u8]) {
        return match <Fill as Grammar>::parse(value) {
            Some(x) => Ok(Some(Attribute::Fill(x))),
            None => Err(InvalidValue),
        };
    }
    Ok(None)
}

#[verifier::rlimit(100)]
fn parse_attribute_2(name: &[u8], value: &[u8]) -> (r: Result<Option<Attribute>, InvalidValue>)
    ensures
        match r {
            Ok(None) => !attribute_known_2(name@),
            Ok(Some(a)) => attribute_known_2(name@) && a.spec_name() == name@ && a.spec_wf()
                && attribute_canonical_2(name@, value@) == Some(a.spec_value()),
            Err(_) => attribute_known_2(name@) && attribute_canonical_2(name@, value@) is None,
        },
{
    if bytes_eq(name, &[102u8, 105u8, 108u8, 108u8, 45u8, 111u8, 112u8, 97u8, 99u8, 105u8, 116u8, 121u8]) {
        return match <Percentage as Grammar>::parse(value) {
            Some(x) => Ok(Some(Attribute::FillOpacity(x))),
            None => Err(InvalidValue),
        };
    }
    if bytes_eq(name, &[102u8, 105u8, 108u8, 108u8, 45u8, 114u8, 117u8, 108u8, 101u8]) {
        return match <FillRule as Grammar>::parse(value) {
            Some(x) => Ok(Some(Attribute::FillRule(x))),
            None => Err(InvalidValue),
        };
    }
    if bytes_eq(name, &[102u8, 105u8, 108u8, 116u8, 101u8, 114u8]) {
        return match <Vec<u8> as Grammar>::parse(value) {
            Some(x) => Ok(Some(Attribute::Filter(x))),
            None => Err(InvalidValue),
        };
    }
    if bytes_eq(name, &[102u8, 108u8, 111u8, 111u8, 100u8, 45u8, 99u8, 111u8, 108u8, 111u8, 114u8]) {
        return match <Color as Grammar>::parse(value) {
            Some(x) => Ok(Some(Attribute::FloodColor(x))),
            None => Err(InvalidValue),
        };
    }
    if bytes_eq(name, &[102u8, 108u8, 111u8, 111u8, 100u8, 45u8, 111u8, 112u8, 97u8, 99u8, 105u8, 116u8, 121u8]) {
        return match <Number as Grammar>::parse(value) {
            Some(x) => Ok(Some(Attribute::FloodOpacity(x))),
            None => Err(InvalidValue),
        };
    }
    if bytes_eq(name, &[102u8, 111u8, 110u8, 116u8, 45u8, 102u8, 97u8, 109u8, 105u8, 108u8, 121u8]) {
        return match <Vec<u8> as Grammar>::parse(value) {
            Some(x) => Ok(Some(Attribute::FontFamily(x))),
            None => Err(InvalidValue),
        };
    }
    if bytes_eq(name, &[102u8, 111u8, 110u8, 116u8, 45u8, 115u8, 105u8, 122u8, 101u8]) {
        return match <FontSize as Grammar>::parse(value) {
            Some(x) => Ok(Some(Attribute::FontSize(x))),
            None => Err(InvalidValue),
        };
    }
    if bytes_eq(name, &[102u8, 111u8, 110u8, 116u8, 45u8, 115u8, 105u8, 122u8, 101u8, 45u8, 97u8, 100u8, 106u8, 117u8, 115u8, 116u8]) {
        return match <FontSizeAdjust as Grammar>::parse(value) {
            Some(x) => Ok(Some(Attribute::FontSizeAdjust(x))),
            None => Err(InvalidValue),
        };
    }
    if bytes_eq(name, &[102u8, 111u8, 110u8, 116u8, 45u8, 115u8, 116u8, 121u8, 108u8, 101u8]) {
        return match <FontStyle as Grammar>::parse(value) {
            Some(x) => Ok(Some(Attribute::FontStyle(x))),
            None => Err(InvalidValue),
        };
    }
    if bytes_eq(name, &[102u8, 111u8, 110u8, 116u8, 45u8, 118u8, 97u8, 114u8, 105u8, 97u8, 110u8, 116u8]) {
        return match <Vec<u8> as Grammar>::parse(value) {
            Some(x) => Ok(Some(Attribute::FontVariant(x))),
            None => Err(InvalidValue),
        };
    }
    if bytes_eq(name, &[102u8, 111u8, 110u8, 116u8, 45u8, 119u8, 101u8, 105u8, 103u8, 104u8, 116u8]) {
        return match <FontWeight as Grammar>::parse(value) {
            Some(x) => Ok(Some(Attribute::FontWeight(x))),
            None => Err(InvalidValue),
        };
    }
    if bytes_eq(name, &[104u8, 101u8, 105u8, 103u8, 104u8, 116u8]) {
        return match <LengthOrPercentage as Grammar>::parse(value) {
            Some(x) => Ok(Some(Attribute::Height(x))),
            None => Err(InvalidValue),
        };
    }
    Ok(None)
}

#[verifier::rlimit(100)]
fn parse_attribute_3(name: &[u8], value: &[u8]) -> (r: Result<Option<Attribute>, InvalidValue>)
    ensures
        match r {
            Ok(None) => !attribute_known_3(name@),
            Ok(Some(a)) => attribute_known_3(name@) && a.spec_name() == name@ && a.spec_wf()
                && attribute_canonical_3(name@, value@) == Some(a.spec_value()),
            Err(_) => attribute_known_3(name@) && attribute_canonical_3(name@, value@) is None,
        },
{
    if bytes_eq(name, &[105u8, 109u8, 97u8, 103u8, 101u8, 45u8, 114u8, 101u8, 110u8, 100u8, 101u8, 114u8, 105u8, 110u8, 103u8]) {
        return match <ImageRendering as Grammar>::parse(value) {
            Some(x) => Ok(Some(Attribute::ImageRendering(x))),
            None => Err(InvalidValue),
        };
    }
    if bytes_eq(name, &[108u8, 101u8, 116u8, 116u8, 101u8, 114u8, 45u8, 115u8, 112u8, 97u8, 99u8, 105u8, 110u8, 103u8]) {
        return match <LetterSpacing as Grammar>::parse(value) {
            Some(x) => Ok(Some(Attribute::LetterSpacing(x))),
            None => Err(InvalidValue),
        };
    }
    if bytes_eq(name, &[108u8, 105u8, 103u8, 104u8, 116u8, 105u8, 110u8, 103u8, 45u8, 99u8, 111u8, 108u8, 111u8, 114u8]) {
        return match <LightingColor as Grammar>::parse(value) {
            Some(x) => Ok(Some(Attribute::LightingColor(x))),
            None => Err(InvalidValue),
        };
    }
    if bytes_eq(name, &[109u8, 97u8, 114u8, 107u8, 101u8, 114u8, 45u8, 101u8, 110u8, 100u8]) {
        return match <Marker as Grammar>::parse(value) {
            Some(x) => Ok(Some(Attribute::MarkerEnd(x))),
            None => Err(InvalidValue),
        };
    }
    if bytes_eq(name, &[109u8, 97u8, 114u8, 107u8, 101u8, 114u8, 45u8, 109u8, 105u8, 100u8]) {
        return match <Marker as Grammar>::parse(value) {
            Some(x) => Ok(Some(Attribute::MarkerMid(x))),
            None => Err(InvalidValue),
        };
    }
    if bytes_eq(name, &[109u8, 97u8, 114u8, 107u8, 101u8, 114u8, 45u8, 115u8, 116u8, 97u8, 114u8, 116u8]) {
        return match <Marker as Grammar>::parse(value) {
            Some(x) => Ok(Some(Attribute::MarkerStart(x))),
            None => Err(InvalidValue),
        };
    }
    if bytes_eq(name, &[109u8, 97u8, 115u8, 107u8]) {
        return match <Vec<u8> as Grammar>::parse(value) {
            Some(x) => Ok(Some(Attribute::Mask(x))),
            None => Err(InvalidValue),
        };
    }
    if bytes_eq(name, &[109u8, 97u8, 115u8, 107u8, 45u8, 116u8, 121u8, 112u8, 101u8]) {
        return match <MaskType as Grammar>::parse(value) {
            Some(x) => Ok(Some(Attribute::MaskType(x))),
            None => Err(InvalidValue),
        };
    }
    if bytes_eq(name, &[111u8, 112u8, 97u8, 99u8, 105u8, 116u8, 121u8]) {
        return match <Opacity as Grammar>::parse(value) {
            Some(x) => Ok(Some(Attribute::Opacity(x))),
            None => Err(InvalidValue),
        };
    }
    if bytes_eq(name, &[111u8, 118u8, 101u8, 114u8, 102u8, 108u8, 111u8, 119u8]) {
        return match <Overflow as Grammar>::parse(value) {
            Some(x) => Ok(Some(Attribute::Overflow(x))),
            None => Err(InvalidValue),
        };
    }
    if bytes_eq(name, &[112u8, 111u8, 105u8, 110u8, 116u8, 101u8, 114u8, 45u8, 101u8, 118u8, 101u8, 110u8, 116u8, 115u8]) {
        return match <PointerEvents as Grammar>::parse(value) {
            Some(x) => Ok(Some(Attribute::PointerEvents(x))),
            None => Err(InvalidValue),
        };
    }
    if name.len() == 1 && name[0] == 114u8 {
        assert(name@ =~= seq![114u8]);
        return match <LengthOrPercentage as Grammar>::parse(value) {
            Some(x) => Ok(Some(Attribute::R(x))),
            None => Err(InvalidValue),
        };
    }
    Ok(None)
}

#[verifier::rlimit(100)]
fn parse_attribute_4(name: &[u8], value: &[u8]) -> (r: Result<Option<Attribute>, InvalidValue>)
    ensures
        match r {
            Ok(None) => !attribute_known_4(name@),
            Ok(Some(a)) => attribute_known_4(name@) && a.spec_name() == name@ && a.spec_wf()
                && attribute_canonical_4(name@, value@) == Some(a.spec_value()),
            Err(_) => attribute_known_4(name@) && attribute_canonical_4(name@, value@) is None,
        },
{
    if bytes_eq(name, &[114u8, 120u8]) {
        return match <EllipsisRadius as Grammar>::parse(value) {
            Some(x) => Ok(Some(Attribute::Rx(x))),
            None => Err(InvalidValue),
        };
    }
    if bytes_eq(name, &[114u8, 121u8]) {
        return match <EllipsisRadius as Grammar>::parse(value) {
            Some(x) => Ok(Some(Attribute::Ry(x))),
            None => Err(InvalidValue),
        };
    }
    if bytes_eq(name, &[115u8, 104u8, 97u8, 112u8, 101u8, 45u8, 114u8, 101u8, 110u8, 100u8, 101u8, 114u8, 105u8, 110u8, 103u8]) {
        return match <ShapeRendering as Grammar>::parse(value) {
            Some(x) => Ok(Some(Attribute::ShapeRendering(x))),
            None => Err(InvalidValue),
        };
    }
    if bytes_eq(name, &[115u8, 116u8, 111u8, 112u8, 45u8, 99u8, 111u8, 108u8, 111u8, 114u8]) {
        return match <StopColor as Grammar>::parse(value) {
            Some(x) => Ok(Some(Attribute::StopColor(x))),
            None => Err(InvalidValue),
        };
    }
    if bytes_eq(name, &[115u8, 116u8, 111u8, 112u8, 45u8, 111u8, 112u8, 97u8, 99u8, 105u8, 116u8, 121u8]) {
        return match <Opacity as Grammar>::parse(value) {
            Some(x) => Ok(Some(Attribute::StopOpacity(x))),
            None => Err(InvalidValue),
        };
    }
    if bytes_eq(name, &[115u8, 116u8, 114u8, 111u8, 107u8, 101u8]) {
        return match <Paint as Grammar>::parse(value) {
            Some(x) => Ok(Some(Attribute::Stroke(x))),
            None => Err(InvalidValue),
        };
    }
    if bytes_eq(name, &[115u8, 116u8, 114u8, 111u8, 107u8, 101u8, 45u8, 100u8, 97u8, 115u8, 104u8, 97u8, 114u8, 114u8, 97u8, 121u8]) {
        return match parse_list::<i64>(value) {
            Some(x) => Ok(Some(Attribute::StrokeDasharray(x))),
            None => Err(InvalidValue),
        };
    }
    if bytes_eq(name, &[115u8, 116u8, 114u8, 111u8, 107u8, 101u8, 45u8, 100u8, 97u8, 115u8, 104u8, 111u8, 102u8, 102u8, 115u8, 101u8, 116u8]) {
        return match <LengthOrPercentage as Grammar>::parse(value) {
            Some(x) => Ok(Some(Attribute::StrokeDashoffset(x))),
            None => Err(InvalidValue),
        };
    }
    if bytes_eq(name, &[115u8, 116u8, 114u8, 111u8, 107u8, 101u8, 45u8, 108u8, 105u8, 110u8, 101u8, 99u8, 97u8, 112u8]) {
        return match <StrokeLinecap as Grammar>::parse(value) {
            Some(x) => Ok(Some(Attribute::StrokeLinecap(x))),
            None => Err(InvalidValue),
        };
    }
    if bytes_eq(name, &[115u8, 116u8, 114u8, 111u8, 107u8, 101u8, 45u8, 108u8, 105u8, 110u8, 101u8, 106u8, 111u8, 105u8, 110u8]) {
        return match <StrokeLinejoin as Grammar>::parse(value) {
            Some(x) => Ok(Some(Attribute::StrokeLinejoin(x))),
            None => Err(InvalidValue),
        };
    }
    if bytes_eq(name, &[115u8, 116u8, 114u8, 111u8, 107u8, 101u8, 45u8, 109u8, 105u8, 116u8, 101u8, 114u8, 108u8, 105u8, 109u8, 105u8, 116u8]) {
        return match <Number as Grammar>::parse(value) {
            Some(x) => Ok(Some(Attribute::StrokeMiterlimit(x))),
            None => Err(InvalidValue),
        };
    }
    if bytes_eq(name, &[115u8, 116u8, 114u8, 111u8, 107u8, 101u8, 45u8, 111u8, 112u8, 97u8, 99u8, 105u8, 116u8, 121u8]) {
        return match <StrokeOpacity as Grammar>::parse(value) {
            Some(x) => Ok(Some(Attribute::StrokeOpacity(x))),
            None => Err(InvalidValue),
        };
    }
    Ok(None)
}

#[verifier::rlimit(100)]
fn parse_attribute_5(name: &[u8], value: &[u8]) -> (r: Result<Option<Attribute>, InvalidValue>)
    ensures
        match r {
            Ok(None) => !attribute_known_5(name@),
            Ok(Some(a)) => attribute_known_5(name@) && a.spec_name() == name@ && a.spec_wf()
                && attribute_canonical_5(name@, value@) == Some(a.spec_value()),
            Err(_) => attribute_known_5(name@) && attribute_canonical_5(name@, value@) is None,
        },
{
    if bytes_eq(name, &[115u8, 116u8, 114u8, 111u8, 107u8, 101u8, 45u8, 119u8, 105u8, 100u8, 116u8, 104u8]) {
        return match <LengthOrPercentage as Grammar>::parse(value) {
            Some(x) => Ok(Some(Attribute::StrokeWidth(x))),
            None => Err(InvalidValue),
        };
    }
    if bytes_eq(name, &[116u8, 101u8, 120u8, 116u8, 45u8, 97u8, 110u8, 99u8, 104u8, 111u8, 114u8]) {
        return match <TextAnchor as Grammar>::parse(value) {
            Some(x) => Ok(Some(Attribute::TextAnchor(x))),
            None => Err(InvalidValue),
        };
    }
    if bytes_eq(name, &[116u8, 101u8, 120u8, 116u8, 45u8, 100u8, 101u8, 99u8, 111u8, 114u8, 97u8, 116u8, 105u8, 111u8, 110u8]) {
        return match <Vec<u8> as Grammar>::parse(value) {
            Some(x) => Ok(Some(Attribute::TextDecoration(x))),
            None => Err(InvalidValue),
        };
    }
    if bytes_eq(name, &[116u8, 101u8, 120u8, 116u8, 45u8, 111u8, 118u8, 101u8, 114u8, 102u8, 108u8, 111u8, 119u8]) {
        return match <TextOverflow as Grammar>::parse(value) {
            Some(x) => Ok(Some(Attribute::TextOverflow(x))),
            None => Err(InvalidValue),
        };
    }
    if bytes_eq(name, &[116u8, 101u8, 120u8, 116u8, 45u8, 114u8, 101u8, 110u8, 100u8, 101u8, 114u8, 105u8, 110u8, 103u8]) {
        return match <TextRendering as Grammar>::parse(value) {
            Some(x) => Ok(Some(Attribute::TextRendering(x))),
            None => Err(InvalidValue),
        };
    }
    if bytes_eq(name, &[116u8, 114u8, 97u8, 110u8, 115u8, 102u8, 111u8, 114u8, 109u8]) {
        return match <Vec<u8> as Grammar>::parse(value) {
            Some(x) => Ok(Some(Attribute::Transform(x))),
            None => Err(InvalidValue),
        };
    }
    if bytes_eq(name, &[116u8, 114u8, 97u8, 110u8, 115u8, 102u8, 111u8, 114u8, 109u8, 45u8, 111u8, 114u8, 105u8, 103u8, 105u8, 110u8]) {
        return match <Vec<u8> as Grammar>::parse(value) {
            Some(x) => Ok(Some(Attribute::TransformOrigin(x))),
            None => Err(InvalidValue),
        };
    }
    if bytes_eq(name, &[117u8, 110u8, 105u8, 99u8, 111u8, 100u8, 101u8, 45u8, 98u8, 105u8, 100u8, 105u8]) {
        return match <UnicodeBidi as Grammar>::parse(value) {
            Some(x) => Ok(Some(Attribute::UnicodeBidi(x))),
            None => Err(InvalidValue),
        };
    }
    if bytes_eq(name, &[118u8, 101u8, 99u8, 116u8, 111u8, 114u8, 45u8, 101u8, 102u8, 102u8, 101u8, 99u8, 116u8]) {
        return match <VectorEffect as Grammar>::parse(value) {
            Some(x) => Ok(Some(Attribute::VectorEffect(x))),
            None => Err(InvalidValue),
        };
    }
    if bytes_eq(name, &[118u8, 105u8, 115u8, 105u8, 98u8, 105u8, 108u8, 105u8, 116u8, 121u8]) {
        return match <Visibility as Grammar>::parse(value) {
            Some(x) => Ok(Some(Attribute::Visibility(x))),
            None => Err(InvalidValue),
        };
    }
    if bytes_eq(name, &[119u8, 105u8, 100u8, 116u8, 104u8]) {
        return match <LengthOrPercentage as Grammar>::parse(value) {
            Some(x) => Ok(Some(Attribute::Width(x))),
            None => Err(InvalidValue),
        };
    }
    if bytes_eq(name, &[119u8, 104u8, 105u8, 116u8, 101u8, 45u8, 115u8, 112u8, 97u8, 99u8, 101u8]) {
        return match <WhiteSpace as Grammar>::parse(value) {
            Some(x) => Ok(Some(Attribute::WhiteSpace(x))),
            None => Err(InvalidValue),
        };
    }
    Ok(None)
}

#[verifier::rlimit(100)]
fn parse_attribute_6(name: &[u8], value: &[u8]) -> (r: Result<Option<Attribute>, InvalidValue>)
    ensures
        match r {
            Ok(None) => !attribute_known_6(name@),
            Ok(Some(a)) => attribute_known_6(name@) && a.spec_name() == name@ && a.spec_wf()
                && attribute_canonical_6(name@, value@) == Some(a.spec_value()),
            Err(_) => attribute_known_6(name@) && attribute_canonical_6(name@, value@) is None,
        },
{
    if bytes_eq(name, &[119u8, 111u8, 114u8, 100u8, 45u8, 115u8, 112u8, 97u8, 99u8, 105u8, 110u8, 103u8]) {
        return match <WordSpacing as Grammar>::parse(value) {
            Some(x) => Ok(Some(Attribute::WordSpacing(x))),
            None => Err(InvalidValue),
        };
    }
    if bytes_eq(name, &[119u8, 114u8, 105u8, 116u8, 105u8, 110u8, 103u8, 45u8, 109u8, 111u8, 100u8, 101u8]) {
        return match <WritingMode as Grammar>::parse(value) {
            Some(x) => Ok(Some(Attribute::WritingMode(x))),
            None => Err(InvalidValue),
        };
    }
    if name.len() == 1 && name[0] == 120u8 {
        assert(name@ =~= seq![120u8]);
        return match <LengthOrPercentage as Grammar>::parse(value) {
            Some(x) => Ok(Some(Attribute::X(x))),
            None => Err(InvalidValue),
        };
    }
    if name.len() == 1 && name[0] == 121u8 {
        assert(name@ =~= seq![121u8]);
        return match <LengthOrPercentage as Grammar>::parse(value) {
            Some(x) => Ok(Some(Attribute::Y(x))),
            None => Err(InvalidValue),
        };
    }
    if bytes_eq(name, &[116u8, 121u8, 112u8, 101u8]) {
        return Ok(Some(Attribute::Type));
    }
    if bytes_eq(name, &[116u8, 97u8, 98u8, 108u8, 101u8, 86u8, 97u8, 108u8, 117u8, 101u8, 115u8]) {
        return Ok(Some(Attribute::TableValues));
    }
    if bytes_eq(name, &[115u8, 108u8, 111u8, 112u8, 101u8]) {
        return Ok(Some(Attribute::Slope));
    }
    if bytes_eq(name, &[105u8, 110u8, 116u8, 101u8, 114u8, 99u8, 101u8, 112u8, 116u8]) {
        return Ok(Some(Attribute::Intercept));
    }
    if bytes_eq(name, &[97u8, 109u8, 112u8, 108u8, 105u8, 116u8, 117u8, 100u8, 101u8]) {
        return Ok(Some(Attribute::Amplitude));
    }
    if bytes_eq(name, &[101u8, 120u8, 112u8, 111u8, 110u8, 101u8, 110u8, 116u8]) {
        return Ok(Some(Attribute::Exponent));
    }
    if bytes_eq(name, &[111u8, 102u8, 102u8, 115u8, 101u8, 116u8]) {
        return Ok(Some(Attribute::Offset));
    }
    if bytes_eq(name, &[104u8, 114u8, 101u8, 102u8]) {
        return match <Vec<u8> as Grammar>::parse(value) {
            Some(x) => Ok(Some(Attribute::Href(x))),
            None => Err(InvalidValue),
        };
    }
    Ok(None)
}

#[verifier::rlimit(100)]
fn parse_attribute_7(name: &[u8], value: &[u8]) -> (r: Result<Option<Attribute>, InvalidValue>)
    ensures
        match r {
            Ok(None) => !attribute_known_7(name@),
            Ok(Some(a)) => attribute_known_7(name@) && a.spec_name() == name@ && a.spec_wf()
                && attribute_canonical_7(name@, value@) == Some(a.spec_value()),
            Err(_) => attribute_known_7(name@) && attribute_canonical_7(name@, value@) is None,
        },
{
    if bytes_eq(name, &[97u8, 116u8, 116u8, 114u8, 105u8, 98u8, 117u8, 116u8, 101u8, 84u8, 121u8, 112u8, 101u8]) {
        return Ok(Some(Attribute::AttributeType));
    }
    if bytes_eq(name, &[97u8, 116u8, 116u8, 114u8, 105u8, 98u8, 117u8, 116u8, 101u8, 78u8, 97u8, 109u8, 101u8]) {
        return Ok(Some(Attribute::AttributeName));
    }
    if bytes_eq(name, &[98u8, 101u8, 103u8, 105u8, 110u8]) {
        return Ok(Some(Attribute::Begin));
    }
    if bytes_eq(name, &[100u8, 117u8, 114u8]) {
        return Ok(Some(Attribute::Dur));
    }
    if bytes_eq(name, &[101u8, 110u8, 100u8]) {
        return Ok(Some(Attribute::End));
    }
    if bytes_eq(name, &[109u8, 105u8, 110u8]) {
        return Ok(Some(Attribute::Min));
    }
    if bytes_eq(name, &[109u8, 97u8, 120u8]) {
        return Ok(Some(Attribute::Max));
    }
    if bytes_eq(name, &[114u8, 101u8, 115u8, 116u8, 97u8, 114u8, 116u8]) {
        return Ok(Some(Attribute::Restart));
    }
    if bytes_eq(name, &[114u8, 101u8, 112u8, 101u8, 97u8, 116u8, 67u8, 111u8, 117u8, 110u8, 116u8]) {
        return Ok(Some(Attribute::RepeatCount));
    }
    if bytes_eq(name, &[114u8, 101u8, 112u8, 101u8, 97u8, 116u8, 68u8, 117u8, 114u8]) {
        return Ok(Some(Attribute::RepeatDur));
    }
    if bytes_eq(name, &[97u8, 100u8, 100u8, 105u8, 116u8, 105u8, 118u8, 101u8]) {
        return Ok(Some(Attribute::Additive));
    }
    if bytes_eq(name, &[97u8, 99u8, 99u8, 117u8, 109u8, 117u8, 108u8, 97u8, 116u8, 101u8]) {
        return Ok(Some(Attribute::Accumulate));
    }
    Ok(None)
}

#[verifier::rlimit(100)]
fn parse_attribute_8(name: &[u8], value: &[u8]) -> (r: Result<Option<Attribute>, InvalidValue>)
    ensures
        match r {
            Ok(None) => !attribute_known_8(name@),
            Ok(Some(a)) => attribute_known_8(name@) && a.spec_name() == name@ && a.spec_wf()
                && attribute_canonical_8(name@, value@) == Some(a.spec_value()),
            Err(_) => attribute_known_8(name@) && attribute_canonical_8(name@, value@) is None,
        },
{
    if bytes_eq(name, &[111u8, 110u8, 65u8, 102u8, 116u8, 101u8, 114u8, 80u8, 114u8, 105u8, 110u8, 116u8]) {
        return match <Vec<u8> as Grammar>::parse(value) {
            Some(x) => Ok(Some(Attribute::OnAfterPrint(x))),
            None => Err(InvalidValue),
        };
    }
    if bytes_eq(name, &[111u8, 110u8, 66u8, 101u8, 102u8, 111u8, 114u8, 101u8, 80u8, 114u8, 105u8, 110u8, 116u8]) {
        return match <Vec<u8> as Grammar>::parse(value) {
            Some(x) => Ok(Some(Attribute::OnBeforePrint(x))),
            None => Err(InvalidValue),
        };
    }
    if bytes_eq(name, &[111u8, 110u8, 66u8, 101u8, 102u8, 111u8, 114u8, 101u8, 85u8, 110u8, 108u8, 111u8, 97u8, 100u8]) {
        return match <Vec<u8> as Grammar>::parse(value) {
            Some(x) => Ok(Some(Attribute::OnBeforeUnload(x))),
            None => Err(InvalidValue),
        };
    }
    if bytes_eq(name, &[111u8, 110u8, 69u8, 114u8, 114u8, 111u8, 114u8]) {
        return match <Vec<u8> as Grammar>::parse(value) {
            Some(x) => Ok(Some(Attribute::OnError(x))),
            None => Err(InvalidValue),
        };
    }
    if bytes_eq(name, &[111u8, 110u8, 72u8, 97u8, 115u8, 104u8, 67u8, 104u8, 97u8, 110u8, 103u8, 101u8]) {
        return match <Vec<u8> as Grammar>::parse(value) {
            Some(x) => Ok(Some(Attribute::OnHashChange(x))),
            None => Err(InvalidValue),
        };
    }
    if bytes_eq(name, &[111u8, 110u8, 76u8, 111u8, 97u8, 100u8]) {
        return match <Vec<u8> as Grammar>::parse(value) {
            Some(x) => Ok(Some(Attribute::OnLoad(x))),
            None => Err(InvalidValue),
        };
    }
    if bytes_eq(name, &[111u8, 110u8, 77u8, 101u8, 115u8, 115u8, 97u8, 103u8, 101u8]) {
        return match <Vec<u8> as Grammar>::parse(value) {
            Some(x) => Ok(Some(Attribute::OnMessage(x))),
            None => Err(InvalidValue),
        };
    }
    if bytes_eq(name, &[111u8, 110u8, 79u8, 102u8, 102u8, 108u8, 105u8, 110u8, 101u8]) {
        return match <Vec<u8> as Grammar>::parse(value) {
            Some(x) => Ok(Some(Attribute::OnOffline(x))),
            None => Err(InvalidValue),
        };
    }
    if bytes_eq(name, &[111u8, 110u8, 79u8, 110u8, 108u8, 105u8, 110u8, 101u8]) {
        return match <Vec<u8> as Grammar>::parse(value) {
            Some(x) => Ok(Some(Attribute::OnOnline(x))),
            None => Err(InvalidValue),
        };
    }
    if bytes_eq(name, &[111u8, 110u8, 80u8, 97u8, 103u8, 101u8, 72u8, 105u8, 100u8, 101u8]) {
        return match <Vec<u8> as Grammar>::parse(value) {
            Some(x) => Ok(Some(Attribute::OnPageHide(x))),
            None => Err(InvalidValue),
        };
    }
    if bytes_eq(name, &[111u8, 110u8, 80u8, 97u8, 103u8, 101u8, 83u8, 104u8, 111u8, 119u8]) {
        return match <Vec<u8> as Grammar>::parse(value) {
            Some(x) => Ok(Some(Attribute::OnPageShow(x))),
            None => Err(InvalidValue),
        };
    }
    if bytes_eq(name, &[111u8, 110u8, 80u8, 111u8, 112u8, 83u8, 116u8, 97u8, 116u8, 101u8]) {
        return match <Vec<u8> as Grammar>::parse(value) {
            Some(x) => Ok(Some(Attribute::OnPopState(x))),
            None => Err(InvalidValue),
        };
    }
    Ok(None)
}

#[verifier::rlimit(100)]
fn parse_attribute_9(name: &[u8], value: &[u8]) -> (r: Result<Option<Attribute>, InvalidValue>)
    ensures
        match r {
            Ok(None) => !attribute_known_9(name@),
            Ok(Some(a)) => attribute_known_9(name@) && a.spec_name() == name@ && a.spec_wf()
                && attribute_canonical_9(name@, value@) == Some(a.spec_value()),
            Err(_) => attribute_known_9(name@) && attribute_canonical_9(name@, value@) is None,
        },
{
    if bytes_eq(name, &[111u8, 110u8, 82u8, 101u8, 115u8, 105u8, 122u8, 101u8]) {
        return match <Vec<u8> as Grammar>::parse(value) {
            Some(x) => Ok(Some(Attribute::OnResize(x))),
            None => Err(InvalidValue),
        };
    }
    if bytes_eq(name, &[111u8, 110u8, 83u8, 116u8, 111u8, 114u8, 97u8, 103u8, 101u8]) {
        return match <Vec<u8> as Grammar>::parse(value) {
            Some(x) => Ok(Some(Attribute::OnStorage(x))),
            None => Err(InvalidValue),
        };
    }
    if bytes_eq(name, &[111u8, 110u8, 85u8, 110u8, 108u8, 111u8, 97u8, 100u8]) {
        return match <Vec<u8> as Grammar>::parse(value) {
            Some(x) => Ok(Some(Attribute::OnUnload(x))),
            None => Err(InvalidValue),
        };
    }
    if bytes_eq(name, &[111u8, 110u8, 66u8, 108u8, 117u8, 114u8]) {
        return match <Vec<u8> as Grammar>::parse(value) {
            Some(x) => Ok(Some(Attribute::OnBlur(x))),
            None => Err(InvalidValue),
        };
    }
    if bytes_eq(name, &[111u8, 110u8, 67u8, 104u8, 97u8, 110u8, 103u8, 101u8]) {
        return match <Vec<u8> as Grammar>::parse(value) {
            Some(x) => Ok(Some(Attribute::OnChange(x))),
            None => Err(InvalidValue),
        };
    }
    if bytes_eq(name, &[111u8, 110u8, 67u8, 111u8, 110u8, 116u8, 101u8, 120u8, 116u8, 77u8, 101u8, 110u8, 117u8]) {
        return match <Vec<u8> as Grammar>::parse(value) {
            Some(x) => Ok(Some(Attribute::OnContextMenu(x))),
            None => Err(InvalidValue),
        };
    }
    if bytes_eq(name, &[111u8, 110u8, 70u8, 111u8, 99u8, 117u8, 115u8]) {
        return match <Vec<u8> as Grammar>::parse(value) {
            Some(x) => Ok(Some(Attribute::OnFocus(x))),
            None => Err(InvalidValue),
        };
    }
    if bytes_eq(name, &[111u8, 110u8, 73u8, 110u8, 112u8, 117u8, 116u8]) {
        return match <Vec<u8> as Grammar>::parse(value) {
            Some(x) => Ok(Some(Attribute::OnInput(x))),
            None => Err(InvalidValue),
        };
    }
    if bytes_eq(name, &[111u8, 110u8, 73u8, 110u8, 118u8, 97u8, 108u8, 105u8, 100u8]) {
        return match <Vec<u8> as Grammar>::parse(value) {
            Some(x) => Ok(Some(Attribute::OnInvalid(x))),
            None => Err(InvalidValue),
        };
    }
    if bytes_eq(name, &[111u8, 110u8, 82u8, 101u8, 115u8, 101u8, 116u8]) {
        return match <Vec<u8> as Grammar>::parse(value) {
            Some(x) => Ok(Some(Attribute::OnReset(x))),
            None => Err(InvalidValue),
        };
    }
    if bytes_eq(name, &[111u8, 110u8, 83u8, 101u8, 97u8, 114u8, 99u8, 104u8]) {
        return match <Vec<u8> as Grammar>::parse(value) {
            Some(x) => Ok(Some(Attribute::OnSearch(x))),
            None => Err(InvalidValue),
        };
    }
    if bytes_eq(name, &[111u8, 110u8, 83u8, 101u8, 108u8, 101u8, 99u8, 116u8]) {
        return match <Vec<u8> as Grammar>::parse(value) {
            Some(x) => Ok(Some(Attribute::OnSelect(x))),
            None => Err(InvalidValue),
        };
    }
    Ok(None)
}

#[verifier::rlimit(100)]
fn parse_attribute_10(name: &[u8], value: &[u8]) -> (r: Result<Option<Attribute>, InvalidValue>)
    ensures
        match r {
            Ok(None) => !attribute_known_10(name@),
            Ok(Some(a)) => attribute_known_10(name@) && a.spec_name() == name@ && a.spec_wf()
                && attribute_canonical_10(name@, value@) == Some(a.spec_value()),
            Err(_) => attribute_known_10(name@) && attribute_canonical_10(name@, value@) is None,
        },
{
    if bytes_eq(name, &[111u8, 110u8, 83u8, 117u8, 98u8, 109u8, 105u8, 116u8]) {
        return match <Vec<u8> as Grammar>::parse(value) {
            Some(x) => Ok(Some(Attribute::OnSubmit(x))),
            None => Err(InvalidValue),
        };
    }
    if bytes_eq(name, &[111u8, 110u8, 75u8, 101u8, 121u8, 68u8, 111u8, 119u8, 110u8]) {
        return match <Vec<u8> as Grammar>::parse(value) {
            Some(x) => Ok(Some(Attribute::OnKeyDown(x))),
            None => Err(InvalidValue),
        };
    }
    if bytes_eq(name, &[111u8, 110u8, 75u8, 101u8, 121u8, 80u8, 114u8, 101u8, 115u8, 115u8]) {
        return match <Vec<u8> as Grammar>::parse(value) {
            Some(x) => Ok(Some(Attribute::OnKeyPress(x))),
            None => Err(InvalidValue),
        };
    }
    if bytes_eq(name, &[111u8, 110u8, 75u8, 101u8, 121u8, 85u8, 112u8]) {
        return match <Vec<u8> as Grammar>::parse(value) {
            Some(x) => Ok(Some(Attribute::OnKeyUp(x))),
            None => Err(InvalidValue),
        };
    }
    if bytes_eq(name, &[111u8, 110u8, 67u8, 108u8, 105u8, 99u8, 107u8]) {
        return match <Vec<u8> as Grammar>::parse(value) {
            Some(x) => Ok(Some(Attribute::OnClick(x))),
            None => Err(InvalidValue),
        };
    }
    if bytes_eq(name, &[111u8, 110u8, 68u8, 111u8, 117u8, 98u8, 108u8, 101u8, 67u8, 108u8, 105u8, 99u8, 107u8]) {
        return match <Vec<u8> as Grammar>::parse(value) {
            Some(x) => Ok(Some(Attribute::OnDoubleClick(x))),
            None => Err(InvalidValue),
        };
    }
    if bytes_eq(name, &[111u8, 110u8, 77u8, 111u8, 117u8, 115u8, 101u8, 68u8, 111u8, 119u8, 110u8]) {
        return match <Vec<u8> as Grammar>::parse(value) {
            Some(x) => Ok(Some(Attribute::OnMouseDown(x))),
            None => Err(InvalidValue),
        };
    }
    if bytes_eq(name, &[111u8, 110u8, 77u8, 111u8, 117u8, 115u8, 101u8, 77u8, 111u8, 118u8, 101u8]) {
        return match <Vec<u8> as Grammar>::parse(value) {
            Some(x) => Ok(Some(Attribute::OnMouseMove(x))),
            None => Err(InvalidValue),
        };
    }
    if bytes_eq(name, &[111u8, 110u8, 77u8, 111u8, 117u8, 115u8, 101u8, 79u8, 117u8, 116u8]) {
        return match <Vec<u8> as Grammar>::parse(value) {
            Some(x) => Ok(Some(Attribute::OnMouseOut(x))),
            None => Err(InvalidValue),
        };
    }
    if bytes_eq(name, &[111u8, 110u8, 77u8, 111u8, 117u8, 115u8, 101u8, 79u8, 118u8, 101u8, 114u8]) {
        return match <Vec<u8> as Grammar>::parse(value) {
            Some(x) => Ok(Some(Attribute::OnMouseOver(x))),
            None => Err(InvalidValue),
        };
    }
    if bytes_eq(name, &[111u8, 110u8, 77u8, 111u8, 117u8, 115u8, 101u8, 85u8, 112u8]) {
        return match <Vec<u8> as Grammar>::parse(value) {
            Some(x) => Ok(Some(Attribute::OnMouseUp(x))),
            None => Err(InvalidValue),
        };
    }
    if bytes_eq(name, &[111u8, 110u8, 87u8, 104u8, 101u8, 101u8, 108u8]) {
        return match <Vec<u8> as Grammar>::parse(value) {
            Some(x) => Ok(Some(Attribute::OnWheel(x))),
            None => Err(InvalidValue),
        };
    }
    Ok(None)
}

#[verifier::rlimit(100)]
fn parse_attribute_11(name: &[u8], value: &[u8]) -> (r: Result<Option<Attribute>, InvalidValue>)
    ensures
        match r {
            Ok(None) => !attribute_known_11(name@),
            Ok(Some(a)) => attribute_known_11(name@) && a.spec_name() == name@ && a.spec_wf()
                && attribute_canonical_11(name@, value@) == Some(a.spec_value()),
            Err(_) => attribute_known_11(name@) && attribute_canonical_11(name@, value@) is None,
        },
{
    if bytes_eq(name, &[111u8, 110u8, 68u8, 114u8, 97u8, 103u8]) {
        return match <Vec<u8> as Grammar>::parse(value) {
            Some(x) => Ok(Some(Attribute::OnDrag(x))),
            None => Err(InvalidValue),
        };
    }
    if bytes_eq(name, &[111u8, 110u8, 68u8, 114u8, 97u8, 103u8, 69u8, 110u8, 100u8]) {
        return match <Vec<u8> as Grammar>::parse(value) {
            Some(x) => Ok(Some(Attribute::OnDragEnd(x))),
            None => Err(InvalidValue),
        };
    }
    if bytes_eq(name, &[111u8, 110u8, 68u8, 114u8, 97u8, 103u8, 69u8, 110u8, 116u8, 101u8, 114u8]) {
        return match <Vec<u8> as Grammar>::parse(value) {
            Some(x) => Ok(Some(Attribute::OnDragEnter(x))),
            None => Err(InvalidValue),
        };
    }
    if bytes_eq(name, &[111u8, 110u8, 68u8, 114u8, 97u8, 103u8, 76u8, 101u8, 97u8, 118u8, 101u8]) {
        return match <Vec<u8> as Grammar>::parse(value) {
            Some(x) => Ok(Some(Attribute::OnDragLeave(x))),
            None => Err(InvalidValue),
        };
    }
    if bytes_eq(name, &[111u8, 110u8, 68u8, 114u8, 97u8, 103u8, 79u8, 118u8, 101u8, 114u8]) {
        return match <Vec<u8> as Grammar>::parse(value) {
            Some(x) => Ok(Some(Attribute::OnDragOver(x))),
            None => Err(InvalidValue),
        };
    }
    if bytes_eq(name, &[111u8, 110u8, 68u8, 114u8, 97u8, 103u8, 83u8, 116u8, 97u8, 114u8, 116u8]) {
        return match <Vec<u8> as Grammar>::parse(value) {
            Some(x) => Ok(Some(Attribute::OnDragStart(x))),
            None => Err(InvalidValue),
        };
    }
    if bytes_eq(name, &[111u8, 110u8, 68u8, 114u8, 111u8, 112u8]) {
        return match <Vec<u8> as Grammar>::parse(value) {
            Some(x) => Ok(Some(Attribute::OnDrop(x))),
            None => Err(InvalidValue),
        };
    }
    if bytes_eq(name, &[111u8, 110u8, 83u8, 99u8, 114u8, 111u8, 108u8, 108u8]) {
        return match <Vec<u8> as Grammar>::parse(value) {
            Some(x) => Ok(Some(Attribute::OnScroll(x))),
            None => Err(InvalidValue),
        };
    }
    if bytes_eq(name, &[111u8, 110u8, 67u8, 111u8, 112u8, 121u8]) {
        return match <Vec<u8> as Grammar>::parse(value) {
            Some(x) => Ok(Some(Attribute::OnCopy(x))),
            None => Err(InvalidValue),
        };
    }
    if bytes_eq(name, &[111u8, 110u8, 67u8, 117u8, 116u8]) {
        return match <Vec<u8> as Grammar>::parse(value) {
            Some(x) => Ok(Some(Attribute::OnCut(x))),
            None => Err(InvalidValue),
        };
    }
    if bytes_eq(name, &[111u8, 110u8, 80u8, 97u8, 115u8, 116u8, 101u8]) {
        return match <Vec<u8> as Grammar>::parse(value) {
            Some(x) => Ok(Some(Attribute::OnPaste(x))),
            None => Err(InvalidValue),
        };
    }
    if bytes_eq(name, &[111u8, 110u8, 65u8, 98u8, 111u8, 114u8, 116u8]) {
        return match <Vec<u8> as Grammar>::parse(value) {
            Some(x) => Ok(Some(Attribute::OnAbort(x))),
            None => Err(InvalidValue),
        };
    }
    Ok(None)
}

#[verifier::rlimit(100)]
fn parse_attribute_12(name: &[u8], value: &[u8]) -> (r: Result<Option<Attribute>, InvalidValue>)
    ensures
        match r {
            Ok(None) => !attribute_known_12(name@),
            Ok(Some(a)) => attribute_known_12(name@) && a.spec_name() == name@ && a.spec_wf()
                && attribute_canonical_12(name@, value@) == Some(a.spec_value()),
            Err(_) => attribute_known_12(name@) && attribute_canonical_12(name@, value@) is None,
        },
{
    if bytes_eq(name, &[111u8, 110u8, 67u8, 97u8, 110u8, 80u8, 108u8, 97u8, 121u8]) {
        return match <Vec<u8> as Grammar>::parse(value) {
            Some(x) => Ok(Some(Attribute::OnCanPlay(x))),
            None => Err(InvalidValue),
        };
    }
    if bytes_eq(name, &[111u8, 110u8, 67u8, 97u8, 110u8, 80u8, 108u8, 97u8, 121u8, 84u8, 104u8, 114u8, 111u8, 117u8, 103u8, 104u8]) {
        return match <Vec<u8> as Grammar>::parse(value) {
            Some(x) => Ok(Some(Attribute::OnCanPlayThrough(x))),
            None => Err(InvalidValue),
        };
    }
    if bytes_eq(name, &[111u8, 110u8, 67u8, 117u8, 101u8, 67u8, 104u8, 97u8, 110u8, 103u8, 101u8]) {
        return match <Vec<u8> as Grammar>::parse(value) {
            Some(x) => Ok(Some(Attribute::OnCueChange(x))),
            None => Err(InvalidValue),
        };
    }
    if bytes_eq(name, &[111u8, 110u8, 68u8, 117u8, 114u8, 97u8, 116u8, 105u8, 111u8, 110u8, 67u8, 104u8, 97u8, 110u8, 103u8, 101u8]) {
        return match <Vec<u8> as Grammar>::parse(value) {
            Some(x) => Ok(Some(Attribute::OnDurationChange(x))),
            None => Err(InvalidValue),
        };
    }
    if bytes_eq(name, &[111u8, 110u8, 69u8, 109u8, 112u8, 116u8, 105u8, 101u8, 100u8]) {
        return match <Vec<u8> as Grammar>::parse(value) {
            Some(x) => Ok(Some(Attribute::OnEmptied(x))),
            None => Err(InvalidValue),
        };
    }
    if bytes_eq(name, &[111u8, 110u8, 69u8, 110u8, 100u8, 101u8, 100u8]) {
        return match <Vec<u8> as Grammar>::parse(value) {
            Some(x) => Ok(Some(Attribute::OnEnded(x))),
            None => Err(InvalidValue),
        };
    }
    if bytes_eq(name, &[111u8, 110u8, 76u8, 111u8, 97u8, 100u8, 101u8, 100u8, 68u8, 97u8, 116u8, 97u8]) {
        return match <Vec<u8> as Grammar>::parse(value) {
            Some(x) => Ok(Some(Attribute::OnLoadedData(x))),
            None => Err(InvalidValue),
        };
    }
    if bytes_eq(name, &[111u8, 110u8, 76u8, 111u8, 97u8, 100u8, 101u8, 100u8, 77u8, 101u8, 116u8, 97u8, 100u8, 97u8, 116u8, 97u8]) {
        return match <Vec<u8> as Grammar>::parse(value) {
            Some(x) => Ok(Some(Attribute::OnLoadedMetadata(x))),
            None => Err(InvalidValue),
        };
    }
    if bytes_eq(name, &[111u8, 110u8, 76u8, 111u8, 97u8, 100u8, 83u8, 116u8, 97u8, 114u8, 116u8]) {
        return match <Vec<u8> as Grammar>::parse(value) {
            Some(x) => Ok(Some(Attribute::OnLoadStart(x))),
            None => Err(InvalidValue),
        };
    }
    if bytes_eq(name, &[111u8, 110u8, 80u8, 97u8, 117u8, 115u8, 101u8]) {
        return match <Vec<u8> as Grammar>::parse(value) {
            Some(x) => Ok(Some(Attribute::OnPause(x))),
            None => Err(InvalidValue),
        };
    }
    if bytes_eq(name, &[111u8, 110u8, 80u8, 108u8, 97u8, 121u8]) {
        return match <Vec<u8> as Grammar>::parse(value) {
            Some(x) => Ok(Some(Attribute::OnPlay(x))),
            None => Err(InvalidValue),
        };
    }
    if bytes_eq(name, &[111u8, 110u8, 80u8, 108u8, 97u8, 121u8, 105u8, 110u8, 103u8]) {
        return match <Vec<u8> as Grammar>::parse(value) {
            Some(x) => Ok(Some(Attribute::OnPlaying(x))),
            None => Err(InvalidValue),
        };
    }
    Ok(None)
}

#[verifier::rlimit(100)]
fn parse_attribute_13(name: &[u8], value: &[u8]) -> (r: Result<Option<Attribute>, InvalidValue>)
    ensures
        match r {
            Ok(None) => !attribute_known_13(name@),
            Ok(Some(a)) => attribute_known_13(name@) && a.spec_name() == name@ && a.spec_wf()
                && attribute_canonical_13(name@, value@) == Some(a.spec_value()),
            Err(_) => attribute_known_13(name@) && attribute_canonical_13(name@, value@) is None,
        },
{
    if bytes_eq(name, &[111u8, 110u8, 80u8, 114u8, 111u8, 103u8, 114u8, 101u8, 115u8, 115u8]) {
        return match <Vec<u8> as Grammar>::parse(value) {
            Some(x) => Ok(Some(Attribute::OnProgress(x))),
            None => Err(InvalidValue),
        };
    }
    if bytes_eq(name, &[111u8, 110u8, 82u8, 97u8, 116u8, 101u8, 67u8, 104u8, 97u8, 110u8, 103u8, 101u8]) {
        return match <Vec<u8> as Grammar>::parse(value) {
            Some(x) => Ok(Some(Attribute::OnRateChange(x))),
            None => Err(InvalidValue),
        };
    }
    if bytes_eq(name, &[111u8, 110u8, 83u8, 101u8, 101u8, 107u8, 101u8, 100u8]) {
        return match <Vec<u8> as Grammar>::parse(value) {
            Some(x) => Ok(Some(Attribute::OnSeeked(x))),
            None => Err(InvalidValue),
        };
    }
    if bytes_eq(name, &[111u8, 110u8, 83u8, 101u8, 101u8, 107u8, 105u8, 110u8, 103u8]) {
        return match <Vec<u8> as Grammar>::parse(value) {
            Some(x) => Ok(Some(Attribute::OnSeeking(x))),
            None => Err(InvalidValue),
        };
    }
    if bytes_eq(name, &[111u8, 110u8, 83u8, 116u8, 97u8, 108u8, 108u8, 101u8, 100u8]) {
        return match <Vec<u8> as Grammar>::parse(value) {
            Some(x) => Ok(Some(Attribute::OnStalled(x))),
            None => Err(InvalidValue),
        };
    }
    if bytes_eq(name, &[111u8, 110u8, 83u8, 117u8, 115u8, 112u8, 101u8, 110u8, 100u8]) {
        return match <Vec<u8> as Grammar>::parse(value) {
            Some(x) => Ok(Some(Attribute::OnSuspend(x))),
            None => Err(InvalidValue),
        };
    }
    if bytes_eq(name, &[111u8, 110u8, 84u8, 105u8, 109u8, 101u8, 85u8, 112u8, 100u8, 97u8, 116u8, 101u8]) {
        return match <Vec<u8> as Grammar>::parse(value) {
            Some(x) => Ok(Some(Attribute::OnTimeUpdate(x))),
            None => Err(InvalidValue),
        };
    }
    if bytes_eq(name, &[111u8, 110u8, 86u8, 111u8, 108u8, 117u8, 109u8, 101u8, 67u8, 104u8, 97u8, 110u8, 103u8, 101u8]) {
        return match <Vec<u8> as Grammar>::parse(value) {
            Some(x) => Ok(Some(Attribute::OnVolumeChange(x))),
            None => Err(InvalidValue),
        };
    }
    if bytes_eq(name, &[111u8, 110u8, 87u8, 97u8, 105u8, 116u8, 105u8, 110u8, 103u8]) {
        return match <Vec<u8> as Grammar>::parse(value) {
            Some(x) => Ok(Some(Attribute::OnWaiting(x))),
            None => Err(InvalidValue),
        };
    }
    if bytes_eq(name, &[111u8, 110u8, 84u8, 111u8, 103u8, 103u8, 108u8, 101u8]) {
        return match <Vec<u8> as Grammar>::parse(value) {
            Some(x) => Ok(Some(Attribute::OnToggle(x))),
            None => Err(InvalidValue),
        };
    }
    if bytes_eq(name, &[107u8, 101u8, 121u8, 80u8, 111u8, 105u8, 110u8, 116u8, 115u8]) {
        return match <Vec<u8> as Grammar>::parse(value) {
            Some(x) => Ok(Some(Attribute::KeyPoints(x))),
            None => Err(InvalidValue),
        };
    }
    if bytes_eq(name, &[112u8, 97u8, 116u8, 104u8]) {
        return match <PathData as Grammar>::parse(value) {
            Some(x) => Ok(Some(Attribute::Path(x))),
            None => Err(InvalidValue),
        };
    }
    Ok(None)
}

#[verifier::rlimit(100)]
fn parse_attribute_14(name: &[u8], value: &[u8]) -> (r: Result<Option<Attribute>, InvalidValue>)
    ensures
        match r {
            Ok(None) => !attribute_known_14(name@),
            Ok(Some(a)) => attribute_known_14(name@) && a.spec_name() == name@ && a.spec_wf()
                && attribute_canonical_14(name@, value@) == Some(a.spec_value()),
            Err(_) => attribute_known_14(name@) && attribute_canonical_14(name@, value@) is None,
        },
{
    if bytes_eq(name, &[114u8, 111u8, 116u8, 97u8, 116u8, 101u8]) {
        return match <Rotate as Grammar>::parse(value) {
            Some(x) => Ok(Some(Attribute::Rotate(x))),
            None => Err(InvalidValue),
        };
    }
    if bytes_eq(name, &[99u8, 97u8, 108u8, 99u8, 77u8, 111u8, 100u8, 101u8]) {
        return Ok(Some(Attribute::CalcMode));
    }
    if bytes_eq(name, &[118u8, 97u8, 108u8, 117u8, 101u8, 115u8]) {
        return Ok(Some(Attribute::Values));
    }
    if bytes_eq(name, &[107u8, 101u8, 121u8, 84u8, 105u8, 109u8, 101u8, 115u8]) {
        return Ok(Some(Attribute::KeyTimes));
    }
    if bytes_eq(name, &[107u8, 101u8, 121u8, 83u8, 112u8, 108u8, 105u8, 110u8, 101u8, 115u8]) {
        return Ok(Some(Attribute::KeySplines));
    }
    if bytes_eq(name, &[102u8, 114u8, 111u8, 109u8]) {
        return Ok(Some(Attribute::From));
    }
    if bytes_eq(name, &[116u8, 111u8]) {
        return Ok(Some(Attribute::To));
    }
    if bytes_eq(name, &[98u8, 121u8]) {
        return Ok(Some(Attribute::By));
    }
    if bytes_eq(name, &[112u8, 97u8, 116u8, 104u8, 76u8, 101u8, 110u8, 103u8, 116u8, 104u8]) {
        return match <Number as Grammar>::parse(value) {
            Some(x) => Ok(Some(Attribute::PathLength(x))),
            None => Err(InvalidValue),
        };
    }
    if bytes_eq(name, &[120u8, 49u8]) {
        return match <LengthOrPercentageOrNumber as Grammar>::parse(value) {
            Some(x) => Ok(Some(Attribute::X1(x))),
            None => Err(InvalidValue),
        };
    }
    if bytes_eq(name, &[121u8, 49u8]) {
        return match <LengthOrPercentageOrNumber as Grammar>::parse(value) {
            Some(x) => Ok(Some(Attribute::Y1(x))),
            None => Err(InvalidValue),
        };
    }
    if bytes_eq(name, &[120u8, 50u8]) {
        return match <LengthOrPercentageOrNumber as Grammar>::parse(value) {
            Some(x) => Ok(Some(Attribute::X2(x))),
            None => Err(InvalidValue),
        };
    }
    Ok(None)
}

#[verifier::rlimit(100)]
fn parse_attribute_15(name: &[u8], value: &[u8]) -> (r: Result<Option<Attribute>, InvalidValue>)
    ensures
        match r {
            Ok(None) => !attribute_known_15(name@),
            Ok(Some(a)) => attribute_known_15(name@) && a.spec_name() == name@ && a.spec_wf()
                && attribute_canonical_15(name@, value@) == Some(a.spec_value()),
            Err(_) => attribute_known_15(name@) && attribute_canonical_15(name@, value@) is None,
        },
{
    if bytes_eq(name, &[121u8, 50u8]) {
        return match <LengthOrPercentageOrNumber as Grammar>::parse(value) {
            Some(x) => Ok(Some(Attribute::Y2(x))),
            None => Err(InvalidValue),
        };
    }
    if bytes_eq(name, &[112u8, 111u8, 105u8, 110u8, 116u8, 115u8]) {
        return match parse_list::<Point>(value) {
            Some(x) => Ok(Some(Attribute::Points(x))),
            None => Err(InvalidValue),
        };
    }
    if bytes_eq(name, &[100u8, 111u8, 119u8, 110u8, 108u8, 111u8, 97u8, 100u8]) {
        return match <Vec<u8> as Grammar>::parse(value) {
            Some(x) => Ok(Some(Attribute::Download(x))),
            None => Err(InvalidValue),
        };
    }
    if bytes_eq(name, &[104u8, 114u8, 101u8, 102u8, 76u8, 97u8, 110u8, 103u8]) {
        return match <Vec<u8> as Grammar>::parse(value) {
            Some(x) => Ok(Some(Attribute::HrefLang(x))),
            None => Err(InvalidValue),
        };
    }
    if bytes_eq(name, &[105u8, 110u8, 116u8, 101u8, 114u8, 101u8, 115u8, 116u8, 70u8, 111u8, 114u8]) {
        return match <Vec<u8> as Grammar>::parse(value) {
            Some(x) => Ok(Some(Attribute::InterestFor(x))),
            None => Err(InvalidValue),
        };
    }
    if bytes_eq(name, &[112u8, 105u8, 110u8, 103u8]) {
        return match parse_list::<Url>(value) {
            Some(x) => Ok(Some(Attribute::Ping(x))),
            None => Err(InvalidValue),
        };
    }
    if bytes_eq(name, &[114u8, 101u8, 102u8, 101u8, 114u8, 114u8, 101u8, 114u8, 80u8, 111u8, 108u8, 105u8, 99u8, 121u8]) {
        return match <ReferrerPolicy as Grammar>::parse(value) {
            Some(x) => Ok(Some(Attribute::ReferrerPolicy(x))),
            None => Err(InvalidValue),
        };
    }
    if bytes_eq(name, &[114u8, 101u8, 108u8]) {
        return match parse_list::<RelType>(value) {
            Some(x) => Ok(Some(Attribute::Rel(x))),
            None => Err(InvalidValue),
        };
    }
    if bytes_eq(name, &[116u8, 97u8, 114u8, 103u8, 101u8, 116u8]) {
        return match <Target as Grammar>::parse(value) {
            Some(x) => Ok(Some(Attribute::Target(x))),
            None => Err(InvalidValue),
        };
    }
    if bytes_eq(name, &[109u8, 97u8, 114u8, 107u8, 101u8, 114u8, 72u8, 101u8, 105u8, 103u8, 104u8, 116u8]) {
        return match <LengthOrPercentage as Grammar>::parse(value) {
            Some(x) => Ok(Some(Attribute::MarkerHeight(x))),
            None => Err(InvalidValue),
        };
    }
    if bytes_eq(name, &[109u8, 97u8, 114u8, 107u8, 101u8, 114u8, 85u8, 110u8, 105u8, 116u8, 115u8]) {
        return match <MarkerUnits as Grammar>::parse(value) {
            Some(x) => Ok(Some(Attribute::MarkerUnits(x))),
            None => Err(InvalidValue),
        };
    }
    if bytes_eq(name, &[109u8, 97u8, 114u8, 107u8, 101u8, 114u8, 87u8, 105u8, 100u8, 116u8, 104u8]) {
        return match <LengthOrPercentage as Grammar>::parse(value) {
            Some(x) => Ok(Some(Attribute::MarkerWidth(x))),
            None => Err(InvalidValue),
        };
    }
    Ok(None)
}

#[verifier::rlimit(100)]
fn parse_attribute_16(name: &[u8], value: &[u8]) -> (r: Result<Option<Attribute>, InvalidValue>)
    ensures
        match r {
            Ok(None) => !attribute_known_16(name@),
            Ok(Some(a)) => attribute_known_16(name@) && a.spec_name() == name@ && a.spec_wf()
                && attribute_canonical_16(name@, value@) == Some(a.spec_value()),
            Err(_) => attribute_known_16(name@) && attribute_canonical_16(name@, value@) is None,
        },
{
    if bytes_eq(name, &[111u8, 114u8, 105u8, 101u8, 110u8, 116u8]) {
        return match <Orient as Grammar>::parse(value) {
            Some(x) => Ok(Some(Attribute::Orient(x))),
            None => Err(InvalidValue),
        };
    }
    if bytes_eq(name, &[112u8, 114u8, 101u8, 115u8, 101u8, 114u8, 118u8, 101u8, 65u8, 115u8, 112u8, 101u8, 99u8, 116u8, 82u8, 97u8, 116u8, 105u8, 111u8]) {
        return match <PreserveAspectRatio as Grammar>::parse(value) {
            Some(x) => Ok(Some(Attribute::PreserveAspectRatio(x))),
            None => Err(InvalidValue),
        };
    }
    if bytes_eq(name, &[114u8, 101u8, 102u8, 88u8]) {
        return match <RefX as Grammar>::parse(value) {
            Some(x) => Ok(Some(Attribute::RefX(x))),
            None => Err(InvalidValue),
        };
    }
    if bytes_eq(name, &[114u8, 101u8, 102u8, 89u8]) {
        return match <RefY as Grammar>::parse(value) {
            Some(x) => Ok(Some(Attribute::RefY(x))),
            None => Err(InvalidValue),
        };
    }
    if bytes_eq(name, &[118u8, 105u8, 101u8, 119u8, 66u8, 111u8, 120u8]) {
        return match <ViewBox as Grammar>::parse(value) {
            Some(x) => Ok(Some(Attribute::ViewBox(x))),
            None => Err(InvalidValue),
        };
    }
    if bytes_eq(name, &[109u8, 97u8, 115u8, 107u8, 67u8, 111u8, 110u8, 116u8, 101u8, 110u8, 116u8, 85u8, 110u8, 105u8, 116u8, 115u8]) {
        return match <MaskContentUnits as Grammar>::parse(value) {
            Some(x) => Ok(Some(Attribute::MaskContentUnits(x))),
            None => Err(InvalidValue),
        };
    }
    if bytes_eq(name, &[109u8, 97u8, 115u8, 107u8, 85u8, 110u8, 105u8, 116u8, 115u8]) {
        return match <MaskUnits as Grammar>::parse(value) {
            Some(x) => Ok(Some(Attribute::MaskUnits(x))),
            None => Err(InvalidValue),
        };
    }
    if bytes_eq(name, &[112u8, 97u8, 116u8, 116u8, 101u8, 114u8, 110u8, 67u8, 111u8, 110u8, 116u8, 101u8, 110u8, 116u8, 85u8, 110u8, 105u8, 116u8, 115u8]) {
        return match <PatternContentUnits as Grammar>::parse(value) {
            Some(x) => Ok(Some(Attribute::PatternContentUnits(x))),
            None => Err(InvalidValue),
        };
    }
    if bytes_eq(name, &[112u8, 97u8, 116u8, 116u8, 101u8, 114u8, 110u8, 85u8, 110u8, 105u8, 116u8, 115u8]) {
        return match <PatternUnits as Grammar>::parse(value) {
            Some(x) => Ok(Some(Attribute::PatternUnits(x))),
            None => Err(InvalidValue),
        };
    }
    if bytes_eq(name, &[112u8, 97u8, 116u8, 116u8, 101u8, 114u8, 110u8, 84u8, 114u8, 97u8, 110u8, 115u8, 102u8, 111u8, 114u8, 109u8]) {
        return match <Vec<u8> as Grammar>::parse(value) {
            Some(x) => Ok(Some(Attribute::PatternTransform(x))),
            None => Err(InvalidValue),
        };
    }
    if bytes_eq(name, &[114u8, 101u8, 115u8, 117u8, 108u8, 116u8]) {
        return match <Vec<u8> as Grammar>::parse(value) {
            Some(x) => Ok(Some(Attribute::Result(x))),
            None => Err(InvalidValue),
        };
    }
    if bytes_eq(name, &[105u8, 110u8]) {
        return match <In as Grammar>::parse(value) {
            Some(x) => Ok(Some(Attribute::In(x))),
            None => Err(InvalidValue),
        };
    }
    Ok(None)
}

#[verifier::rlimit(100)]
fn parse_attribute_17(name: &[u8], value: &[u8]) -> (r: Result<Option<Attribute>, InvalidValue>)
    ensures
        match r {
            Ok(None) => !attribute_known_17(name@),
            Ok(Some(a)) => attribute_known_17(name@) && a.spec_name() == name@ && a.spec_wf()
                && attribute_canonical_17(name@, value@) == Some(a.spec_value()),
            Err(_) => attribute_known_17(name@) && attribute_canonical_17(name@, value@) is None,
        },
{
    if bytes_eq(name, &[105u8, 110u8, 50u8]) {
        return match <In as Grammar>::parse(value) {
            Some(x) => Ok(Some(Attribute::In2(x))),
            None => Err(InvalidValue),
        };
    }
    if bytes_eq(name, &[109u8, 111u8, 100u8, 101u8]) {
        return match <BlendMode as Grammar>::parse(value) {
            Some(x) => Ok(Some(Attribute::Mode(x))),
            None => Err(InvalidValue),
        };
    }
    if bytes_eq(name, &[111u8, 112u8, 101u8, 114u8, 97u8, 116u8, 111u8, 114u8]) {
        return match <Operator as Grammar>::parse(value) {
            Some(x) => Ok(Some(Attribute::Operator(x))),
            None => Err(InvalidValue),
        };
    }
    if bytes_eq(name, &[107u8, 49u8]) {
        return match <Number as Grammar>::parse(value) {
            Some(x) => Ok(Some(Attribute::K1(x))),
            None => Err(InvalidValue),
        };
    }
    if bytes_eq(name, &[107u8, 50u8]) {
        return match <Number as Grammar>::parse(value) {
            Some(x) => Ok(Some(Attribute::K2(x))),
            None => Err(InvalidValue),
        };
    }
    if bytes_eq(name, &[107u8, 51u8]) {
        return match <Number as Grammar>::parse(value) {
            Some(x) => Ok(Some(Attribute::K3(x))),
            None => Err(InvalidValue),
        };
    }
    if bytes_eq(name, &[107u8, 52u8]) {
        return match <Number as Grammar>::parse(value) {
            Some(x) => Ok(Some(Attribute::K4(x))),
            None => Err(InvalidValue),
        };
    }
    if bytes_eq(name, &[111u8, 114u8, 100u8, 101u8, 114u8]) {
        return match <u64 as Grammar>::parse(value) {
            Some(x) => Ok(Some(Attribute::Order(x))),
            None => Err(InvalidValue),
        };
    }
    if bytes_eq(name, &[107u8, 101u8, 114u8, 110u8, 101u8, 108u8, 77u8, 97u8, 116u8, 114u8, 105u8, 120u8]) {
        return match parse_list::<Number>(value) {
            Some(x) => Ok(Some(Attribute::KernelMatrix(x))),
            None => Err(InvalidValue),
        };
    }
    if bytes_eq(name, &[100u8, 105u8, 118u8, 105u8, 115u8, 111u8, 114u8]) {
        return match <Number as Grammar>::parse(value) {
            Some(x) => Ok(Some(Attribute::Divisor(x))),
            None => Err(InvalidValue),
        };
    }
    if bytes_eq(name, &[98u8, 105u8, 97u8, 115u8]) {
        return match <Number as Grammar>::parse(value) {
            Some(x) => Ok(Some(Attribute::Bias(x))),
            None => Err(InvalidValue),
        };
    }
    if bytes_eq(name, &[116u8, 97u8, 114u8, 103u8, 101u8, 116u8, 88u8]) {
        return match <i64 as Grammar>::parse(value) {
            Some(x) => Ok(Some(Attribute::TargetX(x))),
            None => Err(InvalidValue),
        };
    }
    Ok(None)
}

#[verifier::rlimit(100)]
fn parse_attribute_18(name: &[u8], value: &[u8]) -> (r: Result<Option<Attribute>, InvalidValue>)
    ensures
        match r {
            Ok(None) => !attribute_known_18(name@),
            Ok(Some(a)) => attribute_known_18(name@) && a.spec_name() == name@ && a.spec_wf()
                && attribute_canonical_18(name@, value@) == Some(a.spec_value()),
            Err(_) => attribute_known_18(name@) && attribute_canonical_18(name@, value@) is None,
        },
{
    if bytes_eq(name, &[116u8, 97u8, 114u8, 103u8, 101u8, 116u8, 89u8]) {
        return match <i64 as Grammar>::parse(value) {
            Some(x) => Ok(Some(Attribute::TargetY(x))),
            None => Err(InvalidValue),
        };
    }
    if bytes_eq(name, &[101u8, 100u8, 103u8, 101u8, 77u8, 111u8, 100u8, 101u8]) {
        return match <EdgeMode as Grammar>::parse(value) {
            Some(x) => Ok(Some(Attribute::EdgeMode(x))),
            None => Err(InvalidValue),
        };
    }
    if bytes_eq(name, &[107u8, 101u8, 114u8, 110u8, 101u8, 108u8, 85u8, 110u8, 105u8, 116u8, 76u8, 101u8, 110u8, 103u8, 116u8, 104u8]) {
        return match <NumberOptionalNumber as Grammar>::parse(value) {
            Some(x) => Ok(Some(Attribute::KernelUnitLength(x))),
            None => Err(InvalidValue),
        };
    }
    if bytes_eq(name, &[112u8, 114u8, 101u8, 115u8, 101u8, 114u8, 118u8, 101u8, 65u8, 108u8, 112u8, 104u8, 97u8]) {
        let on = bytes_eq(value, &[116u8, 114u8, 117u8, 101u8]);
        assert(seq![116u8, 114u8, 117u8, 101u8] == kw_true());
        return Ok(Some(Attribute::PreserveAlpha(on)));
    }
    if bytes_eq(name, &[115u8, 117u8, 114u8, 102u8, 97u8, 99u8, 101u8, 83u8, 99u8, 97u8, 108u8, 101u8]) {
        return match <Number as Grammar>::parse(value) {
            Some(x) => Ok(Some(Attribute::SurfaceScale(x))),
            None => Err(InvalidValue),
        };
    }
    if bytes_eq(name, &[100u8, 105u8, 102u8, 102u8, 117u8, 115u8, 101u8, 67u8, 111u8, 110u8, 115u8, 116u8, 97u8, 110u8, 116u8]) {
        return match <Number as Grammar>::parse(value) {
            Some(x) => Ok(Some(Attribute::DiffuseConstant(x))),
            None => Err(InvalidValue),
        };
    }
    if bytes_eq(name, &[115u8, 99u8, 97u8, 108u8, 101u8]) {
        return match <Number as Grammar>::parse(value) {
            Some(x) => Ok(Some(Attribute::Scale(x))),
            None => Err(InvalidValue),
        };
    }
    if bytes_eq(name, &[120u8, 67u8, 104u8, 97u8, 110u8, 110u8, 101u8, 108u8, 83u8, 101u8, 108u8, 101u8, 99u8, 116u8, 111u8, 114u8]) {
        return match <ChannelSelector as Grammar>::parse(value) {
            Some(x) => Ok(Some(Attribute::XChannelSelector(x))),
            None => Err(InvalidValue),
        };
    }
    if bytes_eq(name, &[121u8, 67u8, 104u8, 97u8, 110u8, 110u8, 101u8, 108u8, 83u8, 101u8, 108u8, 101u8, 99u8, 116u8, 111u8, 114u8]) {
        return match <ChannelSelector as Grammar>::parse(value) {
            Some(x) => Ok(Some(Attribute::YChannelSelector(x))),
            None => Err(InvalidValue),
        };
    }
    if bytes_eq(name, &[100u8, 120u8]) {
        return match <Number as Grammar>::parse(value) {
            Some(x) => Ok(Some(Attribute::Dx(x))),
            None => Err(InvalidValue),
        };
    }
    if bytes_eq(name, &[100u8, 121u8]) {
        return match <Number as Grammar>::parse(value) {
            Some(x) => Ok(Some(Attribute::Dy(x))),
            None => Err(InvalidValue),
        };
    }
    if bytes_eq(name, &[115u8, 116u8, 100u8, 68u8, 101u8, 118u8, 105u8, 97u8, 116u8, 105u8, 111u8, 110u8]) {
        return match <NumberOptionalNumber as Grammar>::parse(value) {
            Some(x) => Ok(Some(Attribute::StdDeviation(x))),
            None => Err(InvalidValue),
        };
    }
    Ok(None)
}

#[verifier::rlimit(100)]
fn parse_attribute_19(name: &[u8], value: &[u8]) -> (r: Result<Option<Attribute>, InvalidValue>)
    ensures
        match r {
            Ok(None) => !attribute_known_19(name@),
            Ok(Some(a)) => attribute_known_19(name@) && a.spec_name() == name@ && a.spec_wf()
                && attribute_canonical_19(name@, value@) == Some(a.spec_value()),
            Err(_) => attribute_known_19(name@) && attribute_canonical_19(name@, value@) is None,
        },
{
    if bytes_eq(name, &[99u8, 114u8, 111u8, 115u8, 115u8, 79u8, 114u8, 105u8, 103u8, 105u8, 110u8]) {
        return match <CrossOrigin as Grammar>::parse(value) {
            Some(x) => Ok(Some(Attribute::CrossOrigin(x))),
            None => Err(InvalidValue),
        };
    }
    if bytes_eq(name, &[114u8, 97u8, 100u8, 105u8, 117u8, 115u8]) {
        return match <NumberOptionalNumber as Grammar>::parse(value) {
            Some(x) => Ok(Some(Attribute::Radius(x))),
            None => Err(InvalidValue),
        };
    }
    if bytes_eq(name, &[115u8, 112u8, 101u8, 99u8, 117u8, 108u8, 97u8, 114u8, 67u8, 111u8, 110u8, 115u8, 116u8, 97u8, 110u8, 116u8]) {
        return match <Number as Grammar>::parse(value) {
            Some(x) => Ok(Some(Attribute::SpecularConstant(x))),
            None => Err(InvalidValue),
        };
    }
    if bytes_eq(name, &[115u8, 112u8, 101u8, 99u8, 117u8, 108u8, 97u8, 114u8, 69u8, 120u8, 112u8, 111u8, 110u8, 101u8, 110u8, 116u8]) {
        return match <Number as Grammar>::parse(value) {
            Some(x) => Ok(Some(Attribute::SpecularExponent(x))),
            None => Err(InvalidValue),
        };
    }
    if bytes_eq(name, &[98u8, 97u8, 115u8, 101u8, 70u8, 114u8, 101u8, 113u8, 117u8, 101u8, 110u8, 99u8, 121u8]) {
        return match <NumberOptionalNumber as Grammar>::parse(value) {
            Some(x) => Ok(Some(Attribute::BaseFrequency(x))),
            None => Err(InvalidValue),
        };
    }
    if bytes_eq(name, &[110u8, 117u8, 109u8, 79u8, 99u8, 116u8, 97u8, 118u8, 101u8, 115u8]) {
        return match <u64 as Grammar>::parse(value) {
            Some(x) => Ok(Some(Attribute::NumOctaves(x))),
            None => Err(InvalidValue),
        };
    }
    if bytes_eq(name, &[115u8, 101u8, 101u8, 100u8]) {
        return match <Number as Grammar>::parse(value) {
            Some(x) => Ok(Some(Attribute::Seed(x))),
            None => Err(InvalidValue),
        };
    }
    if bytes_eq(name, &[115u8, 116u8, 105u8, 116u8, 99u8, 104u8, 84u8, 105u8, 108u8, 101u8, 115u8]) {
        return match <StitchTiles as Grammar>::parse(value) {
            Some(x) => Ok(Some(Attribute::StitchTiles(x))),
            None => Err(InvalidValue),
        };
    }
    if bytes_eq(name, &[103u8, 114u8, 97u8, 100u8, 105u8, 101u8, 110u8, 116u8, 85u8, 110u8, 105u8, 116u8, 115u8]) {
        return match <GradientUnits as Grammar>::parse(value) {
            Some(x) => Ok(Some(Attribute::GradientUnits(x))),
            None => Err(InvalidValue),
        };
    }
    if bytes_eq(name, &[103u8, 114u8, 97u8, 100u8, 105u8, 101u8, 110u8, 116u8, 84u8, 114u8, 97u8, 110u8, 115u8, 102u8, 111u8, 114u8, 109u8]) {
        return match <Vec<u8> as Grammar>::parse(value) {
            Some(x) => Ok(Some(Attribute::GradientTransform(x))),
            None => Err(InvalidValue),
        };
    }
    if bytes_eq(name, &[115u8, 112u8, 114u8, 101u8, 97u8, 100u8, 77u8, 101u8, 116u8, 104u8, 111u8, 100u8]) {
        return match <SpreadMethod as Grammar>::parse(value) {
            Some(x) => Ok(Some(Attribute::SpreadMethod(x))),
            None => Err(InvalidValue),
        };
    }
    if bytes_eq(name, &[102u8, 120u8]) {
        return match <LengthOrPercentage as Grammar>::parse(value) {
            Some(x) => Ok(Some(Attribute::Fx(x))),
            None => Err(InvalidValue),
        };
    }
    Ok(None)
}

#[verifier::rlimit(100)]
fn parse_attribute_20(name: &[u8], value: &[u8]) -> (r: Result<Option<Attribute>, InvalidValue>)
    ensures
        match r {
            Ok(None) => !attribute_known_20(name@),
            Ok(Some(a)) => attribute_known_20(name@) && a.spec_name() == name@ && a.spec_wf()
                && attribute_canonical_20(name@, value@) == Some(a.spec_value()),
            Err(_) => attribute_known_20(name@) && attribute_canonical_20(name@, value@) is None,
        },
{
    if bytes_eq(name, &[102u8, 121u8]) {
        return match <LengthOrPercentage as Grammar>::parse(value) {
            Some(x) => Ok(Some(Attribute::Fy(x))),
            None => Err(InvalidValue),
        };
    }
    if bytes_eq(name, &[102u8, 114u8]) {
        return match <LengthOrPercentage as Grammar>::parse(value) {
            Some(x) => Ok(Some(Attribute::Fr(x))),
            None => Err(InvalidValue),
        };
    }
    if bytes_eq(name, &[100u8, 101u8, 99u8, 111u8, 100u8, 105u8, 110u8, 103u8]) {
        return match <Decoding as Grammar>::parse(value) {
            Some(x) => Ok(Some(Attribute::Decoding(x))),
            None => Err(InvalidValue),
        };
    }
    if bytes_eq(name, &[102u8, 101u8, 116u8, 99u8, 104u8, 80u8, 114u8, 105u8, 111u8, 114u8, 105u8, 116u8, 121u8]) {
        return match <FetchPriority as Grammar>::parse(value) {
            Some(x) => Ok(Some(Attribute::FetchPriority(x))),
            None => Err(InvalidValue),
        };
    }
    if bytes_eq(name, &[108u8, 101u8, 110u8, 103u8, 116u8, 104u8, 65u8, 100u8, 106u8, 117u8, 115u8, 116u8]) {
        return match <LengthAdjust as Grammar>::parse(value) {
            Some(x) => Ok(Some(Attribute::LengthAdjust(x))),
            None => Err(InvalidValue),
        };
    }
    if bytes_eq(name, &[116u8, 101u8, 120u8, 116u8, 76u8, 101u8, 110u8, 103u8, 116u8, 104u8]) {
        return match <LengthOrPercentage as Grammar>::parse(value) {
            Some(x) => Ok(Some(Attribute::TextLength(x))),
            None => Err(InvalidValue),
        };
    }
    if bytes_eq(name, &[99u8, 108u8, 105u8, 112u8, 80u8, 97u8, 116u8, 104u8, 85u8, 110u8, 105u8, 116u8, 115u8]) {
        return match <ClipPathUnits as Grammar>::parse(value) {
            Some(x) => Ok(Some(Attribute::ClipPathUnits(x))),
            None => Err(InvalidValue),
        };
    }
    if bytes_eq(name, &[109u8, 101u8, 116u8, 104u8, 111u8, 100u8]) {
        return match <Method as Grammar>::parse(value) {
            Some(x) => Ok(Some(Attribute::Method(x))),
            None => Err(InvalidValue),
        };
    }
    if bytes_eq(name, &[115u8, 105u8, 100u8, 101u8]) {
        return match <Side as Grammar>::parse(value) {
            Some(x) => Ok(Some(Attribute::Side(x))),
            None => Err(InvalidValue),
        };
    }
    if bytes_eq(name, &[115u8, 112u8, 97u8, 99u8, 105u8, 110u8, 103u8]) {
        return match <Spacing as Grammar>::parse(value) {
            Some(x) => Ok(Some(Attribute::Spacing(x))),
            None => Err(InvalidValue),
        };
    }
    if bytes_eq(name, &[115u8, 116u8, 97u8, 114u8, 116u8, 79u8, 102u8, 102u8, 115u8, 101u8, 116u8]) {
        return match <LengthOrPercentageOrNumber as Grammar>::parse(value) {
            Some(x) => Ok(Some(Attribute::StartOffset(x))),
            None => Err(InvalidValue),
        };
    }
    if bytes_eq(name, &[102u8, 105u8, 108u8, 116u8, 101u8, 114u8, 85u8, 110u8, 105u8, 116u8, 115u8]) {
        return match <FilterUnits as Grammar>::parse(value) {
            Some(x) => Ok(Some(Attribute::FilterUnits(x))),
            None => Err(InvalidValue),
        };
    }
    Ok(None)
}

#[verifier::rlimit(100)]
fn parse_attribute_21(name: &[u8], value: &[u8]) -> (r: Result<Option<Attribute>, InvalidValue>)
    ensures
        match r {
            Ok(None) => !attribute_known_21(name@),
            Ok(Some(a)) => attribute_known_21(name@) && a.spec_name() == name@ && a.spec_wf()
                && attribute_canonical_21(name@, value@) == Some(a.spec_value()),
            Err(_) => attribute_known_21(name@) && attribute_canonical_21(name@, value@) is None,
        },
{
    if bytes_eq(name, &[112u8, 114u8, 105u8, 109u8, 105u8, 116u8, 105u8, 118u8, 101u8, 85u8, 110u8, 105u8, 116u8, 115u8]) {
        return match <PrimitiveUnits as Grammar>::parse(value) {
            Some(x) => Ok(Some(Attribute::PrimitiveUnits(x))),
            None => Err(InvalidValue),
        };
    }
    Ok(None)
}

/// Parses the value of attribute `name`. `Ok(None)` for a name that is no
/// attribute kind, which the caller drops; an error when the value is not in
/// the attribute's grammar.
pub fn parse_attribute(name: &[u8], value: &[u8]) -> (r: Result<Option<Attribute>, InvalidValue>)
    ensures
        match r {
            Ok(None) => !attribute_known(name@),
            Ok(Some(a)) => attribute_known(name@) && a.spec_name() == name@ && a.spec_wf()
                && attribute_canonical(name@, value@) == Some(a.spec_value()),
            Err(_) => attribute_known(name@) && attribute_canonical(name@, value@) is None,
        },
{
    match parse_attribute_0(name, value) {
        Ok(None) => {},
        other => {
            return other;
        },
    }
    match parse_attribute_1(name, value) {
        Ok(None) => {},
        other => {
            return other;
        },
    }
    match parse_attribute_2(name, value) {
        Ok(None) => {},
        other => {
            return other;
        },
    }
    match parse_attribute_3(name, value) {
        Ok(None) => {},
        other => {
            return other;
        },
    }
    match parse_attribute_4(name, value) {
        Ok(None) => {},
        other => {
            return other;
        },
    }
    match parse_attribute_5(name, value) {
        Ok(None) => {},
        other => {
            return other;
        },
    }
    match parse_attribute_6(name, value) {
        Ok(None) => {},
        other => {
            return other;
        },
    }
    match parse_attribute_7(name, value) {
        Ok(None) => {},
        other => {
            return other;
        },
    }
    match parse_attribute_8(name, value) {
        Ok(None) => {},
        other => {
            return other;
        },
    }
    match parse_attribute_9(name, value) {
        Ok(None) => {},
        other => {
            return other;
        },
    }
    match parse_attribute_10(name, value) {
        Ok(None) => {},
        other => {
            return other;
        },
    }
    match parse_attribute_11(name, value) {
        Ok(None) => {},
        other => {
            return other;
        },
    }
    match parse_attribute_12(name, value) {
        Ok(None) => {},
        other => {
            return other;
        },
    }
    match parse_attribute_13(name, value) {
        Ok(None) => {},
        other => {
            return other;
        },
    }
    match parse_attribute_14(name, value) {
        Ok(None) => {},
        other => {
            return other;
        },
    }
    match parse_attribute_15(name, value) {
        Ok(None) => {},
        other => {
            return other;
        },
    }
    match parse_attribute_16(name, value) {
        Ok(None) => {},
        other => {
            return other;
        },
    }
    match parse_attribute_17(name, value) {
        Ok(None) => {},
        other => {
            return other;
        },
    }
    match parse_attribute_18(name, value) {
        Ok(None) => {},
        other => {
            return other;
        },
    }
    match parse_attribute_19(name, value) {
        Ok(None) => {},
        other => {
            return other;
        },
    }
    match parse_attribute_20(name, value) {
        Ok(None) => {},
        other => {
            return other;
        },
    }
    match parse_attribute_21(name, value) {
        Ok(None) => {},
        other => {
            return other;
        },
    }
    Ok(None)
}

} // verus!
