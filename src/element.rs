//! The closed set of element kinds, their categories, and which kinds may
//! nest inside which.
use vstd::prelude::*;

use crate::bytes::bytes_eq;

verus! {

#[derive(Clone, Copy, Debug, PartialEq, Eq, Structural)]
pub enum ElementType {
    Animate,
    AnimateMotion,
    AnimateTransform,
    MPath,
    SetTag,
    Circle,
    Ellipse,
    Line,
    Polygon,
    PolyLine,
    Rect,
    A,
    Defs,
    G,
    Marker,
    Mask,
    Pattern,
    Svg,
    Switch,
    Symbol,
    Desc,
    Metadata,
    Title,
    FeBlend,
    FeColorMatrix,
    FeComponentTransfer,
    FeComposite,
    FeConvolveMatrix,
    FeDiffuseLightning,
    FeDisplacementMap,
    FeDropShadow,
    FeFlood,
    FeFuncA,
    FeFuncB,
    FeFuncG,
    FeFuncR,
    FeGaussianBlur,
    FeImage,
    FeMerge,
    FeMergeNode,
    FeMorphology,
    FeOffset,
    FeSpecularLighting,
    FeTile,
    FeTurbulence,
    LinearGradient,
    RadialGradient,
    Stop,
    Image,
    Path,
    Text,
    Use,
    FeDistantLight,
    FePointLight,
    FeSpotLight,
    ClipPath,
    Script,
    Style,
    TextPath,
    TSpan,
    Filter,
    ForeignObject,
    View,
}

impl ElementType {
    /// Animation elements.
    pub open spec fn spec_is_animation(&self) -> bool {
        matches!(*self, ElementType::Animate | ElementType::AnimateMotion | ElementType::AnimateTransform | ElementType::MPath | ElementType::SetTag )
    }

    pub fn is_animation(&self) -> (r: bool)
        ensures
            r == self.spec_is_animation(),
    {
        matches!(*self, ElementType::Animate | ElementType::AnimateMotion | ElementType::AnimateTransform | ElementType::MPath | ElementType::SetTag )
    }

    /// Descriptive elements.
    pub open spec fn spec_is_descriptive(&self) -> bool {
        matches!(*self, ElementType::Desc | ElementType::Metadata | ElementType::Title )
    }

    pub fn is_descriptive(&self) -> (r: bool)
        ensures
            r == self.spec_is_descriptive(),
    {
        matches!(*self, ElementType::Desc | ElementType::Metadata | ElementType::Title )
    }

    /// Basic shapes and paths.
    pub open spec fn spec_is_shape(&self) -> bool {
        matches!(*self, ElementType::Circle | ElementType::Ellipse | ElementType::Line | ElementType::Path | ElementType::Polygon | ElementType::PolyLine | ElementType::Rect )
    }

    pub fn is_shape(&self) -> (r: bool)
        ensures
            r == self.spec_is_shape(),
    {
        matches!(*self, ElementType::Circle | ElementType::Ellipse | ElementType::Line | ElementType::Path | ElementType::Polygon | ElementType::PolyLine | ElementType::Rect )
    }

    /// Structural elements.
    pub open spec fn spec_is_structural(&self) -> bool {
        matches!(*self, ElementType::Defs | ElementType::G | ElementType::Svg | ElementType::Symbol | ElementType::Use )
    }

    pub fn is_structural(&self) -> (r: bool)
        ensures
            r == self.spec_is_structural(),
    {
        matches!(*self, ElementType::Defs | ElementType::G | ElementType::Svg | ElementType::Symbol | ElementType::Use )
    }

    /// Gradient elements and their stops.
    pub open spec fn spec_is_gradient(&self) -> bool {
        matches!(*self, ElementType::LinearGradient | ElementType::RadialGradient | ElementType::Stop )
    }

    pub fn is_gradient(&self) -> (r: bool)
        ensures
            r == self.spec_is_gradient(),
    {
        matches!(*self, ElementType::LinearGradient | ElementType::RadialGradient | ElementType::Stop )
    }

    /// Light sources of the lighting filters.
    pub open spec fn spec_is_light_source(&self) -> bool {
        matches!(*self, ElementType::FeDistantLight | ElementType::FePointLight | ElementType::FeSpotLight )
    }

    pub fn is_light_source(&self) -> (r: bool)
        ensures
            r == self.spec_is_light_source(),
    {
        matches!(*self, ElementType::FeDistantLight | ElementType::FePointLight | ElementType::FeSpotLight )
    }

    /// Text content that may sit inside text.
    pub open spec fn spec_is_text_content_child(&self) -> bool {
        matches!(*self, ElementType::TextPath | ElementType::TSpan)
    }

    pub fn is_text_content_child(&self) -> (r: bool)
        ensures
            r == self.spec_is_text_content_child(),
    {
        matches!(*self, ElementType::TextPath | ElementType::TSpan)
    }

    /// Filter primitives.
    pub open spec fn spec_is_filter_primitive(&self) -> bool {
        matches!(*self, ElementType::FeBlend | ElementType::FeColorMatrix | ElementType::FeComponentTransfer | ElementType::FeComposite | ElementType::FeConvolveMatrix | ElementType::FeDiffuseLightning | ElementType::FeDisplacementMap | ElementType::FeDropShadow | ElementType::FeFlood | ElementType::FeFuncA | ElementType::FeFuncB | ElementType::FeFuncG | ElementType::FeFuncR | ElementType::FeGaussianBlur | ElementType::FeImage | ElementType::FeMerge | ElementType::FeMergeNode | ElementType::FeMorphology | ElementType::FeOffset | ElementType::FeSpecularLighting | ElementType::FeTile | ElementType::FeTurbulence )
    }

    pub fn is_filter_primitive(&self) -> (r: bool)
        ensures
            r == self.spec_is_filter_primitive(),
    {
        matches!(*self, ElementType::FeBlend | ElementType::FeColorMatrix | ElementType::FeComponentTransfer | ElementType::FeComposite | ElementType::FeConvolveMatrix | ElementType::FeDiffuseLightning | ElementType::FeDisplacementMap | ElementType::FeDropShadow | ElementType::FeFlood | ElementType::FeFuncA | ElementType::FeFuncB | ElementType::FeFuncG | ElementType::FeFuncR | ElementType::FeGaussianBlur | ElementType::FeImage | ElementType::FeMerge | ElementType::FeMergeNode | ElementType::FeMorphology | ElementType::FeOffset | ElementType::FeSpecularLighting | ElementType::FeTile | ElementType::FeTurbulence )
    }

    /// May an element of kind `child` appear directly inside one of this kind?
    pub open spec fn spec_allows_child(&self, child: ElementType) -> bool {
        match self {
            ElementType::Animate => child.spec_is_descriptive(),
            ElementType::AnimateMotion => {
                child.spec_is_descriptive() || matches!(child, ElementType::MPath)
            }
            ElementType::AnimateTransform => child.spec_is_descriptive(),
            ElementType::MPath => child.spec_is_descriptive(),
            ElementType::SetTag => child.spec_is_descriptive(),
            ElementType::Circle => child.spec_is_animation() || child.spec_is_descriptive(),
            ElementType::Ellipse => child.spec_is_animation() || child.spec_is_descriptive(),
            ElementType::Line => child.spec_is_animation() || child.spec_is_descriptive(),
            ElementType::Polygon => child.spec_is_animation() || child.spec_is_descriptive(),
            ElementType::PolyLine => child.spec_is_animation() || child.spec_is_descriptive(),
            ElementType::Rect => child.spec_is_animation() || child.spec_is_descriptive(),
            ElementType::A => {
                child.spec_is_animation()
                    || child.spec_is_descriptive()
                    || child.spec_is_shape()
                    || child.spec_is_structural()
                    || child.spec_is_gradient()
                    || matches!(child,
                        ElementType::A
                            | ElementType::ClipPath
                            | ElementType::Filter
                            | ElementType::ForeignObject
                            | ElementType::Image
                            | ElementType::Marker
                            | ElementType::Mask
                            | ElementType::Pattern
                            | ElementType::Script
                            | ElementType::Style
                            | ElementType::Switch
                            | ElementType::Text
                            | ElementType::View
                    )
            }
            ElementType::Defs => {
                child.spec_is_animation()
                    || child.spec_is_descriptive()
                    || child.spec_is_shape()
                    || child.spec_is_structural()
                    || child.spec_is_gradient()
                    || matches!(child,
                        ElementType::A
                            | ElementType::ClipPath
                            | ElementType::Filter
                            | ElementType::ForeignObject
                            | ElementType::Image
                            | ElementType::Marker
                            | ElementType::Mask
                            | ElementType::Pattern
                            | ElementType::Script
                            | ElementType::Style
                            | ElementType::Switch
                            | ElementType::Text
                            | ElementType::View
                    )
            }
            ElementType::G => {
                child.spec_is_animation()
                    || child.spec_is_descriptive()
                    || child.spec_is_shape()
                    || child.spec_is_structural()
                    || child.spec_is_gradient()
                    || matches!(child,
                        ElementType::A
                            | ElementType::ClipPath
                            | ElementType::Filter
                            | ElementType::ForeignObject
                            | ElementType::Image
                            | ElementType::Marker
                            | ElementType::Mask
                            | ElementType::Pattern
                            | ElementType::Script
                            | ElementType::Style
                            | ElementType::Switch
                            | ElementType::Text
                            | ElementType::View
                    )
            }
            ElementType::Marker => {
                child.spec_is_animation()
                    || child.spec_is_descriptive()
                    || child.spec_is_shape()
                    || child.spec_is_structural()
                    || child.spec_is_gradient()
                    || matches!(child,
                        ElementType::A
                            | ElementType::ClipPath
                            | ElementType::Filter
                            | ElementType::ForeignObject
                            | ElementType::Image
                            | ElementType::Marker
                            | ElementType::Mask
                            | ElementType::Pattern
                            | ElementType::Script
                            | ElementType::Style
                            | ElementType::Switch
                            | ElementType::Text
                            | ElementType::View
                    )
            }
            ElementType::Mask => {
                child.spec_is_animation()
                    || child.spec_is_descriptive()
                    || child.spec_is_shape()
                    || child.spec_is_structural()
                    || child.spec_is_gradient()
                    || matches!(child,
                        ElementType::A
                            | ElementType::ClipPath
                            | ElementType::Filter
                            | ElementType::ForeignObject
                            | ElementType::Image
                            | ElementType::Marker
                            | ElementType::Mask
                            | ElementType::Pattern
                            | ElementType::Script
                            | ElementType::Style
                            | ElementType::Switch
                            | ElementType::Text
                            | ElementType::View
                    )
            }
            ElementType::Pattern => {
                child.spec_is_animation()
                    || child.spec_is_descriptive()
                    || child.spec_is_shape()
                    || child.spec_is_structural()
                    || child.spec_is_gradient()
                    || matches!(child,
                        ElementType::A
                            | ElementType::ClipPath
                            | ElementType::Filter
                            | ElementType::ForeignObject
                            | ElementType::Image
                            | ElementType::Marker
                            | ElementType::Mask
                            | ElementType::Pattern
                            | ElementType::Script
                            | ElementType::Style
                            | ElementType::Switch
                            | ElementType::Text
                            | ElementType::View
                    )
            }
            ElementType::Svg => {
                child.spec_is_animation()
                    || child.spec_is_descriptive()
                    || child.spec_is_shape()
                    || child.spec_is_structural()
                    || child.spec_is_gradient()
                    || matches!(child,
                        ElementType::A
                            | ElementType::ClipPath
                            | ElementType::Filter
                            | ElementType::ForeignObject
                            | ElementType::Image
                            | ElementType::Marker
                            | ElementType::Mask
                            | ElementType::Pattern
                            | ElementType::Script
                            | ElementType::Style
                            | ElementType::Switch
                            | ElementType::Text
                            | ElementType::View
                    )
            }
            ElementType::Switch => {
                child.spec_is_animation()
                    || child.spec_is_descriptive()
                    || child.spec_is_shape()
                    || matches!(child,
                        ElementType::A
                            | ElementType::ForeignObject
                            | ElementType::G
                            | ElementType::Image
                            | ElementType::Svg
                            | ElementType::Switch
                            | ElementType::Text
                            | ElementType::Use
                    )
            }
            ElementType::Symbol => {
                child.spec_is_animation()
                    || child.spec_is_descriptive()
                    || child.spec_is_shape()
                    || child.spec_is_structural()
                    || child.spec_is_gradient()
                    || matches!(child,
                        ElementType::A
                            | ElementType::ClipPath
                            | ElementType::Filter
                            | ElementType::ForeignObject
                            | ElementType::Image
                            | ElementType::Marker
                            | ElementType::Mask
                            | ElementType::Pattern
                            | ElementType::Script
                            | ElementType::Style
                            | ElementType::Switch
                            | ElementType::Text
                            | ElementType::View
                    )
            }
            ElementType::Desc => true,
            ElementType::Metadata => true,
            ElementType::Title => true,
            ElementType::FeBlend => {
                
                matches!(child, ElementType::Animate | ElementType::SetTag)
            }
            ElementType::FeColorMatrix => {
                matches!(child, ElementType::Animate | ElementType::SetTag)
            }
            ElementType::FeComponentTransfer => {
                matches!(child,
                    ElementType::FeFuncA
                        | ElementType::FeFuncB
                        | ElementType::FeFuncG
                        | ElementType::FeFuncR
                )
            }
            ElementType::FeComposite => {
                matches!(child, ElementType::Animate | ElementType::SetTag)
            }
            ElementType::FeConvolveMatrix => {
                matches!(child, ElementType::Animate | ElementType::SetTag)
            }
            ElementType::FeDiffuseLightning => {
                
                child.spec_is_descriptive() || child.spec_is_light_source()
            }
            ElementType::FeDisplacementMap => {
                matches!(child, ElementType::Animate | ElementType::SetTag)
            }
            ElementType::FeDropShadow => {
                matches!(child,
                    ElementType::Animate | ElementType::SetTag | ElementType::Script
                )
            }
            ElementType::FeFlood => {
                matches!(child, ElementType::Animate | ElementType::SetTag)
            }
            ElementType::FeFuncA => {
                matches!(child, ElementType::Animate | ElementType::SetTag)
            }
            ElementType::FeFuncB => {
                matches!(child, ElementType::Animate | ElementType::SetTag)
            }
            ElementType::FeFuncG => {
                matches!(child, ElementType::Animate | ElementType::SetTag)
            }
            ElementType::FeFuncR => {
                matches!(child, ElementType::Animate | ElementType::SetTag)
            }
            ElementType::FeGaussianBlur => {
                matches!(child, ElementType::Animate | ElementType::SetTag)
            }
            ElementType::FeImage => {
                matches!(child,
                    ElementType::Animate | ElementType::AnimateTransform | ElementType::SetTag
                )
            }
            ElementType::FeMerge => {
                matches!(child, ElementType::FeMergeNode)
            }
            ElementType::FeMergeNode => {
                matches!(child, ElementType::Animate | ElementType::SetTag)
            }
            ElementType::FeMorphology => {
                matches!(child, ElementType::Animate | ElementType::SetTag)
            }
            ElementType::FeOffset => {
                matches!(child, ElementType::Animate | ElementType::SetTag)
            }
            ElementType::FeSpecularLighting => {
                
                child.spec_is_light_source() || child.spec_is_descriptive()
            }
            ElementType::FeTile => {
                matches!(child, ElementType::Animate | ElementType::SetTag)
            }
            ElementType::FeTurbulence => {
                matches!(child, ElementType::Animate | ElementType::SetTag)
            }
            ElementType::LinearGradient => {
                child.spec_is_descriptive()
                    || matches!(child,
                        ElementType::Animate
                            | ElementType::AnimateTransform
                            | ElementType::Script
                            | ElementType::SetTag
                            | ElementType::Stop
                            | ElementType::Style
                    )
            }
            ElementType::RadialGradient => {
                child.spec_is_descriptive()
                    || matches!(child,
                        ElementType::Animate
                            | ElementType::AnimateTransform
                            | ElementType::Script
                            | ElementType::SetTag
                            | ElementType::Stop
                            | ElementType::Style
                    )
            }
            ElementType::Stop => {
                matches!(child,
                    ElementType::Animate
                        | ElementType::Script
                        | ElementType::SetTag
                        | ElementType::Style
                )
            }
            ElementType::Image => {
                child.spec_is_animation()
                    || child.spec_is_descriptive()
                    || matches!(child,
                        ElementType::Animate
                            | ElementType::AnimateMotion
                            | ElementType::AnimateTransform
                            | ElementType::Script
                            | ElementType::Style
                    )
            }
            ElementType::Path => child.spec_is_animation() || child.spec_is_descriptive(),
            ElementType::Text => {
                child.spec_is_animation() || child.spec_is_descriptive()
                    || child.spec_is_text_content_child()
                    || matches!(child, ElementType::A)
            }
            ElementType::Use => child.spec_is_animation() || child.spec_is_descriptive(),
            ElementType::FeDistantLight => {
                matches!(child, ElementType::Animate | ElementType::SetTag)
            }
            ElementType::FePointLight => {
                matches!(child, ElementType::Animate | ElementType::SetTag)
            }
            ElementType::FeSpotLight => {
                matches!(child, ElementType::Animate | ElementType::SetTag)
            }
            ElementType::ClipPath => {
                child.spec_is_animation()
                    || child.spec_is_descriptive()
                    || child.spec_is_shape()
                    || matches!(child, ElementType::Text | ElementType::Use)
            }
            ElementType::Script => true,
            ElementType::Style => true,
            ElementType::TextPath => {
                child.spec_is_descriptive()
                    || matches!(child,
                        ElementType::A
                            | ElementType::Animate
                            | ElementType::SetTag
                            | ElementType::TSpan
                    )
            }
            ElementType::TSpan => {
                child.spec_is_descriptive()
                    || matches!(child,
                        ElementType::A
                            | ElementType::Animate
                            | ElementType::SetTag
                            | ElementType::TSpan
                    )
            }
            ElementType::Filter => {
                child.spec_is_descriptive()
                    || child.spec_is_filter_primitive()
                    || matches!(child, ElementType::Animate | ElementType::SetTag)
            }
            ElementType::ForeignObject => true,
            ElementType::View => child.spec_is_descriptive(),
        }
    }

    pub fn is_allowed_as_child(&self, child: &ElementType) -> (r: bool)
        ensures
            r == self.spec_allows_child(*child),
    {
        match self {
            ElementType::Animate => child.is_descriptive(),
            ElementType::AnimateMotion => {
                child.is_descriptive() || matches!(*child, ElementType::MPath)
            }
            ElementType::AnimateTransform => child.is_descriptive(),
            ElementType::MPath => child.is_descriptive(),
            ElementType::SetTag => child.is_descriptive(),
            ElementType::Circle => child.is_animation() || child.is_descriptive(),
            ElementType::Ellipse => child.is_animation() || child.is_descriptive(),
            ElementType::Line => child.is_animation() || child.is_descriptive(),
            ElementType::Polygon => child.is_animation() || child.is_descriptive(),
            ElementType::PolyLine => child.is_animation() || child.is_descriptive(),
            ElementType::Rect => child.is_animation() || child.is_descriptive(),
            ElementType::A => {
                child.is_animation()
                    || child.is_descriptive()
                    || child.is_shape()
                    || child.is_structural()
                    || child.is_gradient()
                    || matches!(child,
                        ElementType::A
                            | ElementType::ClipPath
                            | ElementType::Filter
                            | ElementType::ForeignObject
                            | ElementType::Image
                            | ElementType::Marker
                            | ElementType::Mask
                            | ElementType::Pattern
                            | ElementType::Script
                            | ElementType::Style
                            | ElementType::Switch
                            | ElementType::Text
                            | ElementType::View
                    )
            }
            ElementType::Defs => {
                child.is_animation()
                    || child.is_descriptive()
                    || child.is_shape()
                    || child.is_structural()
                    || child.is_gradient()
                    || matches!(child,
                        ElementType::A
                            | ElementType::ClipPath
                            | ElementType::Filter
                            | ElementType::ForeignObject
                            | ElementType::Image
                            | ElementType::Marker
                            | ElementType::Mask
                            | ElementType::Pattern
                            | ElementType::Script
                            | ElementType::Style
                            | ElementType::Switch
                            | ElementType::Text
                            | ElementType::View
                    )
            }
            ElementType::G => {
                child.is_animation()
                    || child.is_descriptive()
                    || child.is_shape()
                    || child.is_structural()
                    || child.is_gradient()
                    || matches!(child,
                        ElementType::A
                            | ElementType::ClipPath
                            | ElementType::Filter
                            | ElementType::ForeignObject
                            | ElementType::Image
                            | ElementType::Marker
                            | ElementType::Mask
                            | ElementType::Pattern
                            | ElementType::Script
                            | ElementType::Style
                            | ElementType::Switch
                            | ElementType::Text
                            | ElementType::View
                    )
            }
            ElementType::Marker => {
                child.is_animation()
                    || child.is_descriptive()
                    || child.is_shape()
                    || child.is_structural()
                    || child.is_gradient()
                    || matches!(child,
                        ElementType::A
                            | ElementType::ClipPath
                            | ElementType::Filter
                            | ElementType::ForeignObject
                            | ElementType::Image
                            | ElementType::Marker
                            | ElementType::Mask
                            | ElementType::Pattern
                            | ElementType::Script
                            | ElementType::Style
                            | ElementType::Switch
                            | ElementType::Text
                            | ElementType::View
                    )
            }
            ElementType::Mask => {
                child.is_animation()
                    || child.is_descriptive()
                    || child.is_shape()
                    || child.is_structural()
                    || child.is_gradient()
                    || matches!(child,
                        ElementType::A
                            | ElementType::ClipPath
                            | ElementType::Filter
                            | ElementType::ForeignObject
                            | ElementType::Image
                            | ElementType::Marker
                            | ElementType::Mask
                            | ElementType::Pattern
                            | ElementType::Script
                            | ElementType::Style
                            | ElementType::Switch
                            | ElementType::Text
                            | ElementType::View
                    )
            }
            ElementType::Pattern => {
                child.is_animation()
                    || child.is_descriptive()
                    || child.is_shape()
                    || child.is_structural()
                    || child.is_gradient()
                    || matches!(child,
                        ElementType::A
                            | ElementType::ClipPath
                            | ElementType::Filter
                            | ElementType::ForeignObject
                            | ElementType::Image
                            | ElementType::Marker
                            | ElementType::Mask
                            | ElementType::Pattern
                            | ElementType::Script
                            | ElementType::Style
                            | ElementType::Switch
                            | ElementType::Text
                            | ElementType::View
                    )
            }
            ElementType::Svg => {
                child.is_animation()
                    || child.is_descriptive()
                    || child.is_shape()
                    || child.is_structural()
                    || child.is_gradient()
                    || matches!(child,
                        ElementType::A
                            | ElementType::ClipPath
                            | ElementType::Filter
                            | ElementType::ForeignObject
                            | ElementType::Image
                            | ElementType::Marker
                            | ElementType::Mask
                            | ElementType::Pattern
                            | ElementType::Script
                            | ElementType::Style
                            | ElementType::Switch
                            | ElementType::Text
                            | ElementType::View
                    )
            }
            ElementType::Switch => {
                child.is_animation()
                    || child.is_descriptive()
                    || child.is_shape()
                    || matches!(child,
                        ElementType::A
                            | ElementType::ForeignObject
                            | ElementType::G
                            | ElementType::Image
                            | ElementType::Svg
                            | ElementType::Switch
                            | ElementType::Text
                            | ElementType::Use
                    )
            }
            ElementType::Symbol => {
                child.is_animation()
                    || child.is_descriptive()
                    || child.is_shape()
                    || child.is_structural()
                    || child.is_gradient()
                    || matches!(child,
                        ElementType::A
                            | ElementType::ClipPath
                            | ElementType::Filter
                            | ElementType::ForeignObject
                            | ElementType::Image
                            | ElementType::Marker
                            | ElementType::Mask
                            | ElementType::Pattern
                            | ElementType::Script
                            | ElementType::Style
                            | ElementType::Switch
                            | ElementType::Text
                            | ElementType::View
                    )
            }
            ElementType::Desc => true,
            ElementType::Metadata => true,
            ElementType::Title => true,
            ElementType::FeBlend => {
                
                matches!(*child, ElementType::Animate | ElementType::SetTag)
            }
            ElementType::FeColorMatrix => {
                matches!(*child, ElementType::Animate | ElementType::SetTag)
            }
            ElementType::FeComponentTransfer => {
                matches!(child,
                    ElementType::FeFuncA
                        | ElementType::FeFuncB
                        | ElementType::FeFuncG
                        | ElementType::FeFuncR
                )
            }
            ElementType::FeComposite => {
                matches!(*child, ElementType::Animate | ElementType::SetTag)
            }
            ElementType::FeConvolveMatrix => {
                matches!(*child, ElementType::Animate | ElementType::SetTag)
            }
            ElementType::FeDiffuseLightning => {
                
                child.is_descriptive() || child.is_light_source()
            }
            ElementType::FeDisplacementMap => {
                matches!(*child, ElementType::Animate | ElementType::SetTag)
            }
            ElementType::FeDropShadow => {
                matches!(child,
                    ElementType::Animate | ElementType::SetTag | ElementType::Script
                )
            }
            ElementType::FeFlood => {
                matches!(*child, ElementType::Animate | ElementType::SetTag)
            }
            ElementType::FeFuncA => {
                matches!(*child, ElementType::Animate | ElementType::SetTag)
            }
            ElementType::FeFuncB => {
                matches!(*child, ElementType::Animate | ElementType::SetTag)
            }
            ElementType::FeFuncG => {
                matches!(*child, ElementType::Animate | ElementType::SetTag)
            }
            ElementType::FeFuncR => {
                matches!(*child, ElementType::Animate | ElementType::SetTag)
            }
            ElementType::FeGaussianBlur => {
                matches!(*child, ElementType::Animate | ElementType::SetTag)
            }
            ElementType::FeImage => {
                matches!(child,
                    ElementType::Animate | ElementType::AnimateTransform | ElementType::SetTag
                )
            }
            ElementType::FeMerge => {
                matches!(*child, ElementType::FeMergeNode)
            }
            ElementType::FeMergeNode => {
                matches!(*child, ElementType::Animate | ElementType::SetTag)
            }
            ElementType::FeMorphology => {
                matches!(*child, ElementType::Animate | ElementType::SetTag)
            }
            ElementType::FeOffset => {
                matches!(*child, ElementType::Animate | ElementType::SetTag)
            }
            ElementType::FeSpecularLighting => {
                
                child.is_light_source() || child.is_descriptive()
            }
            ElementType::FeTile => {
                matches!(*child, ElementType::Animate | ElementType::SetTag)
            }
            ElementType::FeTurbulence => {
                matches!(*child, ElementType::Animate | ElementType::SetTag)
            }
            ElementType::LinearGradient => {
                child.is_descriptive()
                    || matches!(child,
                        ElementType::Animate
                            | ElementType::AnimateTransform
                            | ElementType::Script
                            | ElementType::SetTag
                            | ElementType::Stop
                            | ElementType::Style
                    )
            }
            ElementType::RadialGradient => {
                child.is_descriptive()
                    || matches!(child,
                        ElementType::Animate
                            | ElementType::AnimateTransform
                            | ElementType::Script
                            | ElementType::SetTag
                            | ElementType::Stop
                            | ElementType::Style
                    )
            }
            ElementType::Stop => {
                matches!(child,
                    ElementType::Animate
                        | ElementType::Script
                        | ElementType::SetTag
                        | ElementType::Style
                )
            }
            ElementType::Image => {
                child.is_animation()
                    || child.is_descriptive()
                    || matches!(child,
                        ElementType::Animate
                            | ElementType::AnimateMotion
                            | ElementType::AnimateTransform
                            | ElementType::Script
                            | ElementType::Style
                    )
            }
            ElementType::Path => child.is_animation() || child.is_descriptive(),
            ElementType::Text => {
                child.is_animation() || child.is_descriptive()
                    || child.is_text_content_child()
                    || matches!(*child, ElementType::A)
            }
            ElementType::Use => child.is_animation() || child.is_descriptive(),
            ElementType::FeDistantLight => {
                matches!(*child, ElementType::Animate | ElementType::SetTag)
            }
            ElementType::FePointLight => {
                matches!(*child, ElementType::Animate | ElementType::SetTag)
            }
            ElementType::FeSpotLight => {
                matches!(*child, ElementType::Animate | ElementType::SetTag)
            }
            ElementType::ClipPath => {
                child.is_animation()
                    || child.is_descriptive()
                    || child.is_shape()
                    || matches!(*child, ElementType::Text | ElementType::Use)
            }
            ElementType::Script => true,
            ElementType::Style => true,
            ElementType::TextPath => {
                child.is_descriptive()
                    || matches!(child,
                        ElementType::A
                            | ElementType::Animate
                            | ElementType::SetTag
                            | ElementType::TSpan
                    )
            }
            ElementType::TSpan => {
                child.is_descriptive()
                    || matches!(child,
                        ElementType::A
                            | ElementType::Animate
                            | ElementType::SetTag
                            | ElementType::TSpan
                    )
            }
            ElementType::Filter => {
                child.is_descriptive()
                    || child.is_filter_primitive()
                    || matches!(*child, ElementType::Animate | ElementType::SetTag)
            }
            ElementType::ForeignObject => true,
            ElementType::View => child.is_descriptive(),
        }
    }

    /// The tag name, as bytes.
    pub open spec fn spec_name(&self) -> Seq<u8> {
        match self {
            ElementType::Animate => seq![97u8, 110u8, 105u8, 109u8, 97u8, 116u8, 101u8],
            ElementType::AnimateMotion => seq![97u8, 110u8, 105u8, 109u8, 97u8, 116u8, 101u8, 109u8, 111u8, 116u8, 105u8, 111u8, 110u8],
            ElementType::AnimateTransform => seq![97u8, 110u8, 105u8, 109u8, 97u8, 116u8, 101u8, 116u8, 114u8, 97u8, 110u8, 115u8, 102u8, 111u8, 114u8, 109u8],
            ElementType::MPath => seq![109u8, 112u8, 97u8, 116u8, 104u8],
            ElementType::SetTag => seq![115u8, 101u8, 116u8],
            ElementType::Circle => seq![99u8, 105u8, 114u8, 99u8, 108u8, 101u8],
            ElementType::Ellipse => seq![101u8, 108u8, 108u8, 105u8, 112u8, 115u8, 101u8],
            ElementType::Line => seq![108u8, 105u8, 110u8, 101u8],
            ElementType::Polygon => seq![112u8, 111u8, 108u8, 121u8, 103u8, 111u8, 110u8],
            ElementType::PolyLine => seq![112u8, 111u8, 108u8, 121u8, 108u8, 105u8, 110u8, 101u8],
            ElementType::Rect => seq![114u8, 101u8, 99u8, 116u8],
            ElementType::A => seq![97u8],
            ElementType::Defs => seq![100u8, 101u8, 102u8, 115u8],
            ElementType::G => seq![103u8],
            ElementType::Marker => seq![109u8, 97u8, 114u8, 107u8, 101u8, 114u8],
            ElementType::Mask => seq![109u8, 97u8, 115u8, 107u8],
            ElementType::Pattern => seq![112u8, 97u8, 116u8, 116u8, 101u8, 114u8, 110u8],
            ElementType::Svg => seq![115u8, 118u8, 103u8],
            ElementType::Switch => seq![115u8, 119u8, 105u8, 116u8, 99u8, 104u8],
            ElementType::Symbol => seq![115u8, 121u8, 109u8, 98u8, 111u8, 108u8],
            ElementType::Desc => seq![100u8, 101u8, 115u8, 99u8],
            ElementType::Metadata => seq![109u8, 101u8, 116u8, 97u8, 100u8, 97u8, 116u8, 97u8],
            ElementType::Title => seq![116u8, 105u8, 116u8, 108u8, 101u8],
            ElementType::FeBlend => seq![102u8, 101u8, 66u8, 108u8, 101u8, 110u8, 100u8],
            ElementType::FeColorMatrix => seq![102u8, 101u8, 67u8, 111u8, 108u8, 111u8, 114u8, 77u8, 97u8, 116u8, 114u8, 105u8, 120u8],
            ElementType::FeComponentTransfer => seq![102u8, 101u8, 67u8, 111u8, 109u8, 112u8, 111u8, 110u8, 101u8, 110u8, 116u8, 84u8, 114u8, 97u8, 110u8, 115u8, 102u8, 101u8, 114u8],
            ElementType::FeComposite => seq![102u8, 101u8, 67u8, 111u8, 109u8, 112u8, 111u8, 115u8, 105u8, 116u8, 101u8],
            ElementType::FeConvolveMatrix => seq![102u8, 101u8, 67u8, 111u8, 110u8, 118u8, 111u8, 108u8, 118u8, 101u8, 77u8, 97u8, 116u8, 114u8, 105u8, 120u8],
            ElementType::FeDiffuseLightning => seq![102u8, 101u8, 68u8, 105u8, 102u8, 102u8, 117u8, 115u8, 101u8, 76u8, 105u8, 103u8, 104u8, 116u8, 110u8, 105u8, 110u8, 103u8],
            ElementType::FeDisplacementMap => seq![102u8, 101u8, 68u8, 105u8, 115u8, 112u8, 108u8, 97u8, 99u8, 101u8, 109u8, 101u8, 110u8, 116u8, 77u8, 97u8, 112u8],
            ElementType::FeDropShadow => seq![102u8, 101u8, 68u8, 114u8, 111u8, 112u8, 83u8, 104u8, 97u8, 100u8, 111u8, 119u8],
            ElementType::FeFlood => seq![102u8, 101u8, 70u8, 108u8, 111u8, 111u8, 100u8],
            ElementType::FeFuncA => seq![102u8, 101u8, 70u8, 117u8, 110u8, 99u8, 65u8],
            ElementType::FeFuncB => seq![102u8, 101u8, 70u8, 117u8, 110u8, 99u8, 66u8],
            ElementType::FeFuncG => seq![102u8, 101u8, 70u8, 117u8, 110u8, 99u8, 71u8],
            ElementType::FeFuncR => seq![102u8, 101u8, 70u8, 117u8, 110u8, 99u8, 82u8],
            ElementType::FeGaussianBlur => seq![102u8, 101u8, 71u8, 97u8, 117u8, 115u8, 115u8, 105u8, 97u8, 110u8, 66u8, 108u8, 117u8, 114u8],
            ElementType::FeImage => seq![102u8, 101u8, 73u8, 109u8, 97u8, 103u8, 101u8],
            ElementType::FeMerge => seq![102u8, 101u8, 77u8, 101u8, 114u8, 103u8, 101u8],
            ElementType::FeMergeNode => seq![102u8, 101u8, 77u8, 101u8, 114u8, 103u8, 101u8, 78u8, 111u8, 100u8, 101u8],
            ElementType::FeMorphology => seq![102u8, 101u8, 77u8, 111u8, 114u8, 112u8, 104u8, 111u8, 108u8, 111u8, 103u8, 121u8],
            ElementType::FeOffset => seq![102u8, 101u8, 79u8, 102u8, 102u8, 115u8, 101u8, 116u8],
            ElementType::FeSpecularLighting => seq![102u8, 101u8, 83u8, 112u8, 101u8, 99u8, 117u8, 108u8, 97u8, 114u8, 76u8, 105u8, 103u8, 104u8, 116u8, 105u8, 110u8, 103u8],
            ElementType::FeTile => seq![102u8, 101u8, 84u8, 105u8, 108u8, 101u8],
            ElementType::FeTurbulence => seq![102u8, 101u8, 84u8, 117u8, 114u8, 98u8, 117u8, 108u8, 101u8, 110u8, 99u8, 101u8],
            ElementType::LinearGradient => seq![108u8, 105u8, 110u8, 101u8, 97u8, 114u8, 71u8, 114u8, 97u8, 100u8, 105u8, 101u8, 110u8, 116u8],
            ElementType::RadialGradient => seq![114u8, 97u8, 100u8, 105u8, 97u8, 108u8, 71u8, 114u8, 97u8, 100u8, 105u8, 101u8, 110u8, 116u8],
            ElementType::Stop => seq![115u8, 116u8, 111u8, 112u8],
            ElementType::Image => seq![105u8, 109u8, 97u8, 103u8, 101u8],
            ElementType::Path => seq![112u8, 97u8, 116u8, 104u8],
            ElementType::Text => seq![116u8, 101u8, 120u8, 116u8],
            ElementType::Use => seq![117u8, 115u8, 101u8],
            ElementType::FeDistantLight => seq![102u8, 101u8, 68u8, 105u8, 115u8, 116u8, 97u8, 110u8, 116u8, 76u8, 105u8, 103u8, 104u8, 116u8],
            ElementType::FePointLight => seq![102u8, 101u8, 80u8, 111u8, 105u8, 110u8, 116u8, 76u8, 105u8, 103u8, 104u8, 116u8],
            ElementType::FeSpotLight => seq![102u8, 101u8, 83u8, 112u8, 111u8, 116u8, 76u8, 105u8, 103u8, 104u8, 116u8],
            ElementType::ClipPath => seq![99u8, 108u8, 105u8, 112u8, 80u8, 97u8, 116u8, 104u8],
            ElementType::Script => seq![115u8, 99u8, 114u8, 105u8, 112u8, 116u8],
            ElementType::Style => seq![115u8, 116u8, 121u8, 108u8, 101u8],
            ElementType::TextPath => seq![116u8, 101u8, 120u8, 116u8, 80u8, 97u8, 116u8, 104u8],
            ElementType::TSpan => seq![116u8, 115u8, 112u8, 97u8, 110u8],
            ElementType::Filter => seq![102u8, 105u8, 108u8, 116u8, 101u8, 114u8],
            ElementType::ForeignObject => seq![102u8, 111u8, 114u8, 101u8, 105u8, 103u8, 110u8, 79u8, 98u8, 106u8, 101u8, 99u8, 116u8],
            ElementType::View => seq![118u8, 105u8, 101u8, 119u8],
        }
    }

    pub fn name(&self) -> (r: &'static [u8])
        ensures
            r@ == self.spec_name(),
    {
        match self {
            ElementType::Animate => &[97u8, 110u8, 105u8, 109u8, 97u8, 116u8, 101u8],
            ElementType::AnimateMotion => &[97u8, 110u8, 105u8, 109u8, 97u8, 116u8, 101u8, 109u8, 111u8, 116u8, 105u8, 111u8, 110u8],
            ElementType::AnimateTransform => &[97u8, 110u8, 105u8, 109u8, 97u8, 116u8, 101u8, 116u8, 114u8, 97u8, 110u8, 115u8, 102u8, 111u8, 114u8, 109u8],
            ElementType::MPath => &[109u8, 112u8, 97u8, 116u8, 104u8],
            ElementType::SetTag => &[115u8, 101u8, 116u8],
            ElementType::Circle => &[99u8, 105u8, 114u8, 99u8, 108u8, 101u8],
            ElementType::Ellipse => &[101u8, 108u8, 108u8, 105u8, 112u8, 115u8, 101u8],
            ElementType::Line => &[108u8, 105u8, 110u8, 101u8],
            ElementType::Polygon => &[112u8, 111u8, 108u8, 121u8, 103u8, 111u8, 110u8],
            ElementType::PolyLine => &[112u8, 111u8, 108u8, 121u8, 108u8, 105u8, 110u8, 101u8],
            ElementType::Rect => &[114u8, 101u8, 99u8, 116u8],
            ElementType::A => &[97u8],
            ElementType::Defs => &[100u8, 101u8, 102u8, 115u8],
            ElementType::G => &[103u8],
            ElementType::Marker => &[109u8, 97u8, 114u8, 107u8, 101u8, 114u8],
            ElementType::Mask => &[109u8, 97u8, 115u8, 107u8],
            ElementType::Pattern => &[112u8, 97u8, 116u8, 116u8, 101u8, 114u8, 110u8],
            ElementType::Svg => &[115u8, 118u8, 103u8],
            ElementType::Switch => &[115u8, 119u8, 105u8, 116u8, 99u8, 104u8],
            ElementType::Symbol => &[115u8, 121u8, 109u8, 98u8, 111u8, 108u8],
            ElementType::Desc => &[100u8, 101u8, 115u8, 99u8],
            ElementType::Metadata => &[109u8, 101u8, 116u8, 97u8, 100u8, 97u8, 116u8, 97u8],
            ElementType::Title => &[116u8, 105u8, 116u8, 108u8, 101u8],
            ElementType::FeBlend => &[102u8, 101u8, 66u8, 108u8, 101u8, 110u8, 100u8],
            ElementType::FeColorMatrix => &[102u8, 101u8, 67u8, 111u8, 108u8, 111u8, 114u8, 77u8, 97u8, 116u8, 114u8, 105u8, 120u8],
            ElementType::FeComponentTransfer => &[102u8, 101u8, 67u8, 111u8, 109u8, 112u8, 111u8, 110u8, 101u8, 110u8, 116u8, 84u8, 114u8, 97u8, 110u8, 115u8, 102u8, 101u8, 114u8],
            ElementType::FeComposite => &[102u8, 101u8, 67u8, 111u8, 109u8, 112u8, 111u8, 115u8, 105u8, 116u8, 101u8],
            ElementType::FeConvolveMatrix => &[102u8, 101u8, 67u8, 111u8, 110u8, 118u8, 111u8, 108u8, 118u8, 101u8, 77u8, 97u8, 116u8, 114u8, 105u8, 120u8],
            ElementType::FeDiffuseLightning => &[102u8, 101u8, 68u8, 105u8, 102u8, 102u8, 117u8, 115u8, 101u8, 76u8, 105u8, 103u8, 104u8, 116u8, 110u8, 105u8, 110u8, 103u8],
            ElementType::FeDisplacementMap => &[102u8, 101u8, 68u8, 105u8, 115u8, 112u8, 108u8, 97u8, 99u8, 101u8, 109u8, 101u8, 110u8, 116u8, 77u8, 97u8, 112u8],
            ElementType::FeDropShadow => &[102u8, 101u8, 68u8, 114u8, 111u8, 112u8, 83u8, 104u8, 97u8, 100u8, 111u8, 119u8],
            ElementType::FeFlood => &[102u8, 101u8, 70u8, 108u8, 111u8, 111u8, 100u8],
            ElementType::FeFuncA => &[102u8, 101u8, 70u8, 117u8, 110u8, 99u8, 65u8],
            ElementType::FeFuncB => &[102u8, 101u8, 70u8, 117u8, 110u8, 99u8, 66u8],
            ElementType::FeFuncG => &[102u8, 101u8, 70u8, 117u8, 110u8, 99u8, 71u8],
            ElementType::FeFuncR => &[102u8, 101u8, 70u8, 117u8, 110u8, 99u8, 82u8],
            ElementType::FeGaussianBlur => &[102u8, 101u8, 71u8, 97u8, 117u8, 115u8, 115u8, 105u8, 97u8, 110u8, 66u8, 108u8, 117u8, 114u8],
            ElementType::FeImage => &[102u8, 101u8, 73u8, 109u8, 97u8, 103u8, 101u8],
            ElementType::FeMerge => &[102u8, 101u8, 77u8, 101u8, 114u8, 103u8, 101u8],
            ElementType::FeMergeNode => &[102u8, 101u8, 77u8, 101u8, 114u8, 103u8, 101u8, 78u8, 111u8, 100u8, 101u8],
            ElementType::FeMorphology => &[102u8, 101u8, 77u8, 111u8, 114u8, 112u8, 104u8, 111u8, 108u8, 111u8, 103u8, 121u8],
            ElementType::FeOffset => &[102u8, 101u8, 79u8, 102u8, 102u8, 115u8, 101u8, 116u8],
            ElementType::FeSpecularLighting => &[102u8, 101u8, 83u8, 112u8, 101u8, 99u8, 117u8, 108u8, 97u8, 114u8, 76u8, 105u8, 103u8, 104u8, 116u8, 105u8, 110u8, 103u8],
            ElementType::FeTile => &[102u8, 101u8, 84u8, 105u8, 108u8, 101u8],
            ElementType::FeTurbulence => &[102u8, 101u8, 84u8, 117u8, 114u8, 98u8, 117u8, 108u8, 101u8, 110u8, 99u8, 101u8],
            ElementType::LinearGradient => &[108u8, 105u8, 110u8, 101u8, 97u8, 114u8, 71u8, 114u8, 97u8, 100u8, 105u8, 101u8, 110u8, 116u8],
            ElementType::RadialGradient => &[114u8, 97u8, 100u8, 105u8, 97u8, 108u8, 71u8, 114u8, 97u8, 100u8, 105u8, 101u8, 110u8, 116u8],
            ElementType::Stop => &[115u8, 116u8, 111u8, 112u8],
            ElementType::Image => &[105u8, 109u8, 97u8, 103u8, 101u8],
            ElementType::Path => &[112u8, 97u8, 116u8, 104u8],
            ElementType::Text => &[116u8, 101u8, 120u8, 116u8],
            ElementType::Use => &[117u8, 115u8, 101u8],
            ElementType::FeDistantLight => &[102u8, 101u8, 68u8, 105u8, 115u8, 116u8, 97u8, 110u8, 116u8, 76u8, 105u8, 103u8, 104u8, 116u8],
            ElementType::FePointLight => &[102u8, 101u8, 80u8, 111u8, 105u8, 110u8, 116u8, 76u8, 105u8, 103u8, 104u8, 116u8],
            ElementType::FeSpotLight => &[102u8, 101u8, 83u8, 112u8, 111u8, 116u8, 76u8, 105u8, 103u8, 104u8, 116u8],
            ElementType::ClipPath => &[99u8, 108u8, 105u8, 112u8, 80u8, 97u8, 116u8, 104u8],
            ElementType::Script => &[115u8, 99u8, 114u8, 105u8, 112u8, 116u8],
            ElementType::Style => &[115u8, 116u8, 121u8, 108u8, 101u8],
            ElementType::TextPath => &[116u8, 101u8, 120u8, 116u8, 80u8, 97u8, 116u8, 104u8],
            ElementType::TSpan => &[116u8, 115u8, 112u8, 97u8, 110u8],
            ElementType::Filter => &[102u8, 105u8, 108u8, 116u8, 101u8, 114u8],
            ElementType::ForeignObject => &[102u8, 111u8, 114u8, 101u8, 105u8, 103u8, 110u8, 79u8, 98u8, 106u8, 101u8, 99u8, 116u8],
            ElementType::View => &[118u8, 105u8, 101u8, 119u8],
        }
    }

    pub open spec fn spec_str(&self) -> Seq<char> {
        match self {
            ElementType::Animate => "animate"@,
            ElementType::AnimateMotion => "animatemotion"@,
            ElementType::AnimateTransform => "animatetransform"@,
            ElementType::MPath => "mpath"@,
            ElementType::SetTag => "set"@,
            ElementType::Circle => "circle"@,
            ElementType::Ellipse => "ellipse"@,
            ElementType::Line => "line"@,
            ElementType::Polygon => "polygon"@,
            ElementType::PolyLine => "polyline"@,
            ElementType::Rect => "rect"@,
            ElementType::A => "a"@,
            ElementType::Defs => "defs"@,
            ElementType::G => "g"@,
            ElementType::Marker => "marker"@,
            ElementType::Mask => "mask"@,
            ElementType::Pattern => "pattern"@,
            ElementType::Svg => "svg"@,
            ElementType::Switch => "switch"@,
            ElementType::Symbol => "symbol"@,
            ElementType::Desc => "desc"@,
            ElementType::Metadata => "metadata"@,
            ElementType::Title => "title"@,
            ElementType::FeBlend => "feBlend"@,
            ElementType::FeColorMatrix => "feColorMatrix"@,
            ElementType::FeComponentTransfer => "feComponentTransfer"@,
            ElementType::FeComposite => "feComposite"@,
            ElementType::FeConvolveMatrix => "feConvolveMatrix"@,
            ElementType::FeDiffuseLightning => "feDiffuseLightning"@,
            ElementType::FeDisplacementMap => "feDisplacementMap"@,
            ElementType::FeDropShadow => "feDropShadow"@,
            ElementType::FeFlood => "feFlood"@,
            ElementType::FeFuncA => "feFuncA"@,
            ElementType::FeFuncB => "feFuncB"@,
            ElementType::FeFuncG => "feFuncG"@,
            ElementType::FeFuncR => "feFuncR"@,
            ElementType::FeGaussianBlur => "feGaussianBlur"@,
            ElementType::FeImage => "feImage"@,
            ElementType::FeMerge => "feMerge"@,
            ElementType::FeMergeNode => "feMergeNode"@,
            ElementType::FeMorphology => "feMorphology"@,
            ElementType::FeOffset => "feOffset"@,
            ElementType::FeSpecularLighting => "feSpecularLighting"@,
            ElementType::FeTile => "feTile"@,
            ElementType::FeTurbulence => "feTurbulence"@,
            ElementType::LinearGradient => "linearGradient"@,
            ElementType::RadialGradient => "radialGradient"@,
            ElementType::Stop => "stop"@,
            ElementType::Image => "image"@,
            ElementType::Path => "path"@,
            ElementType::Text => "text"@,
            ElementType::Use => "use"@,
            ElementType::FeDistantLight => "feDistantLight"@,
            ElementType::FePointLight => "fePointLight"@,
            ElementType::FeSpotLight => "feSpotLight"@,
            ElementType::ClipPath => "clipPath"@,
            ElementType::Script => "script"@,
            ElementType::Style => "style"@,
            ElementType::TextPath => "textPath"@,
            ElementType::TSpan => "tspan"@,
            ElementType::Filter => "filter"@,
            ElementType::ForeignObject => "foreignObject"@,
            ElementType::View => "view"@,
        }
    }

    pub fn as_str(&self) -> (r: &'static str)
        ensures
            r@ == self.spec_str(),
    {
        match self {
            ElementType::Animate => "animate",
            ElementType::AnimateMotion => "animatemotion",
            ElementType::AnimateTransform => "animatetransform",
            ElementType::MPath => "mpath",
            ElementType::SetTag => "set",
            ElementType::Circle => "circle",
            ElementType::Ellipse => "ellipse",
            ElementType::Line => "line",
            ElementType::Polygon => "polygon",
            ElementType::PolyLine => "polyline",
            ElementType::Rect => "rect",
            ElementType::A => "a",
            ElementType::Defs => "defs",
            ElementType::G => "g",
            ElementType::Marker => "marker",
            ElementType::Mask => "mask",
            ElementType::Pattern => "pattern",
            ElementType::Svg => "svg",
            ElementType::Switch => "switch",
            ElementType::Symbol => "symbol",
            ElementType::Desc => "desc",
            ElementType::Metadata => "metadata",
            ElementType::Title => "title",
            ElementType::FeBlend => "feBlend",
            ElementType::FeColorMatrix => "feColorMatrix",
            ElementType::FeComponentTransfer => "feComponentTransfer",
            ElementType::FeComposite => "feComposite",
            ElementType::FeConvolveMatrix => "feConvolveMatrix",
            ElementType::FeDiffuseLightning => "feDiffuseLightning",
            ElementType::FeDisplacementMap => "feDisplacementMap",
            ElementType::FeDropShadow => "feDropShadow",
            ElementType::FeFlood => "feFlood",
            ElementType::FeFuncA => "feFuncA",
            ElementType::FeFuncB => "feFuncB",
            ElementType::FeFuncG => "feFuncG",
            ElementType::FeFuncR => "feFuncR",
            ElementType::FeGaussianBlur => "feGaussianBlur",
            ElementType::FeImage => "feImage",
            ElementType::FeMerge => "feMerge",
            ElementType::FeMergeNode => "feMergeNode",
            ElementType::FeMorphology => "feMorphology",
            ElementType::FeOffset => "feOffset",
            ElementType::FeSpecularLighting => "feSpecularLighting",
            ElementType::FeTile => "feTile",
            ElementType::FeTurbulence => "feTurbulence",
            ElementType::LinearGradient => "linearGradient",
            ElementType::RadialGradient => "radialGradient",
            ElementType::Stop => "stop",
            ElementType::Image => "image",
            ElementType::Path => "path",
            ElementType::Text => "text",
            ElementType::Use => "use",
            ElementType::FeDistantLight => "feDistantLight",
            ElementType::FePointLight => "fePointLight",
            ElementType::FeSpotLight => "feSpotLight",
            ElementType::ClipPath => "clipPath",
            ElementType::Script => "script",
            ElementType::Style => "style",
            ElementType::TextPath => "textPath",
            ElementType::TSpan => "tspan",
            ElementType::Filter => "filter",
            ElementType::ForeignObject => "foreignObject",
            ElementType::View => "view",
        }
    }

    /// The kind whose tag name is exactly `name`, if any.
    pub open spec fn spec_from_name(name: Seq<u8>) -> Option<ElementType> {
        if name == ElementType::Animate.spec_name() {
            Some(ElementType::Animate)
        } else if name == ElementType::AnimateMotion.spec_name() {
            Some(ElementType::AnimateMotion)
        } else if name == ElementType::AnimateTransform.spec_name() {
            Some(ElementType::AnimateTransform)
        } else if name == ElementType::MPath.spec_name() {
            Some(ElementType::MPath)
        } else if name == ElementType::SetTag.spec_name() {
            Some(ElementType::SetTag)
        } else if name == ElementType::Circle.spec_name() {
            Some(ElementType::Circle)
        } else if name == ElementType::Ellipse.spec_name() {
            Some(ElementType::Ellipse)
        } else if name == ElementType::Line.spec_name() {
            Some(ElementType::Line)
        } else if name == ElementType::Polygon.spec_name() {
            Some(ElementType::Polygon)
        } else if name == ElementType::PolyLine.spec_name() {
            Some(ElementType::PolyLine)
        } else if name == ElementType::Rect.spec_name() {
            Some(ElementType::Rect)
        } else if name == ElementType::A.spec_name() {
            Some(ElementType::A)
        } else if name == ElementType::Defs.spec_name() {
            Some(ElementType::Defs)
        } else if name == ElementType::G.spec_name() {
            Some(ElementType::G)
        } else if name == ElementType::Marker.spec_name() {
            Some(ElementType::Marker)
        } else if name == ElementType::Mask.spec_name() {
            Some(ElementType::Mask)
        } else if name == ElementType::Pattern.spec_name() {
            Some(ElementType::Pattern)
        } else if name == ElementType::Svg.spec_name() {
            Some(ElementType::Svg)
        } else if name == ElementType::Switch.spec_name() {
            Some(ElementType::Switch)
        } else if name == ElementType::Symbol.spec_name() {
            Some(ElementType::Symbol)
        } else if name == ElementType::Desc.spec_name() {
            Some(ElementType::Desc)
        } else if name == ElementType::Metadata.spec_name() {
            Some(ElementType::Metadata)
        } else if name == ElementType::Title.spec_name() {
            Some(ElementType::Title)
        } else if name == ElementType::FeBlend.spec_name() {
            Some(ElementType::FeBlend)
        } else if name == ElementType::FeColorMatrix.spec_name() {
            Some(ElementType::FeColorMatrix)
        } else if name == ElementType::FeComponentTransfer.spec_name() {
            Some(ElementType::FeComponentTransfer)
        } else if name == ElementType::FeComposite.spec_name() {
            Some(ElementType::FeComposite)
        } else if name == ElementType::FeConvolveMatrix.spec_name() {
            Some(ElementType::FeConvolveMatrix)
        } else if name == ElementType::FeDiffuseLightning.spec_name() {
            Some(ElementType::FeDiffuseLightning)
        } else if name == ElementType::FeDisplacementMap.spec_name() {
            Some(ElementType::FeDisplacementMap)
        } else if name == ElementType::FeDropShadow.spec_name() {
            Some(ElementType::FeDropShadow)
        } else if name == ElementType::FeFlood.spec_name() {
            Some(ElementType::FeFlood)
        } else if name == ElementType::FeFuncA.spec_name() {
            Some(ElementType::FeFuncA)
        } else if name == ElementType::FeFuncB.spec_name() {
            Some(ElementType::FeFuncB)
        } else if name == ElementType::FeFuncG.spec_name() {
            Some(ElementType::FeFuncG)
        } else if name == ElementType::FeFuncR.spec_name() {
            Some(ElementType::FeFuncR)
        } else if name == ElementType::FeGaussianBlur.spec_name() {
            Some(ElementType::FeGaussianBlur)
        } else if name == ElementType::FeImage.spec_name() {
            Some(ElementType::FeImage)
        } else if name == ElementType::FeMerge.spec_name() {
            Some(ElementType::FeMerge)
        } else if name == ElementType::FeMergeNode.spec_name() {
            Some(ElementType::FeMergeNode)
        } else if name == ElementType::FeMorphology.spec_name() {
            Some(ElementType::FeMorphology)
        } else if name == ElementType::FeOffset.spec_name() {
            Some(ElementType::FeOffset)
        } else if name == ElementType::FeSpecularLighting.spec_name() {
            Some(ElementType::FeSpecularLighting)
        } else if name == ElementType::FeTile.spec_name() {
            Some(ElementType::FeTile)
        } else if name == ElementType::FeTurbulence.spec_name() {
            Some(ElementType::FeTurbulence)
        } else if name == ElementType::LinearGradient.spec_name() {
            Some(ElementType::LinearGradient)
        } else if name == ElementType::RadialGradient.spec_name() {
            Some(ElementType::RadialGradient)
        } else if name == ElementType::Stop.spec_name() {
            Some(ElementType::Stop)
        } else if name == ElementType::Image.spec_name() {
            Some(ElementType::Image)
        } else if name == ElementType::Path.spec_name() {
            Some(ElementType::Path)
        } else if name == ElementType::Text.spec_name() {
            Some(ElementType::Text)
        } else if name == ElementType::Use.spec_name() {
            Some(ElementType::Use)
        } else if name == ElementType::FeDistantLight.spec_name() {
            Some(ElementType::FeDistantLight)
        } else if name == ElementType::FePointLight.spec_name() {
            Some(ElementType::FePointLight)
        } else if name == ElementType::FeSpotLight.spec_name() {
            Some(ElementType::FeSpotLight)
        } else if name == ElementType::ClipPath.spec_name() {
            Some(ElementType::ClipPath)
        } else if name == ElementType::Script.spec_name() {
            Some(ElementType::Script)
        } else if name == ElementType::Style.spec_name() {
            Some(ElementType::Style)
        } else if name == ElementType::TextPath.spec_name() {
            Some(ElementType::TextPath)
        } else if name == ElementType::TSpan.spec_name() {
            Some(ElementType::TSpan)
        } else if name == ElementType::Filter.spec_name() {
            Some(ElementType::Filter)
        } else if name == ElementType::ForeignObject.spec_name() {
            Some(ElementType::ForeignObject)
        } else if name == ElementType::View.spec_name() {
            Some(ElementType::View)
        } else {
            None
        }
    }

    pub fn from_name(name: &[u8]) -> (r: Option<ElementType>)
        ensures
            r == ElementType::spec_from_name(name@),
    {
        if bytes_eq(name, ElementType::Animate.name()) {
            return Some(ElementType::Animate);
        }
        if bytes_eq(name, ElementType::AnimateMotion.name()) {
            return Some(ElementType::AnimateMotion);
        }
        if bytes_eq(name, ElementType::AnimateTransform.name()) {
            return Some(ElementType::AnimateTransform);
        }
        if bytes_eq(name, ElementType::MPath.name()) {
            return Some(ElementType::MPath);
        }
        if bytes_eq(name, ElementType::SetTag.name()) {
            return Some(ElementType::SetTag);
        }
        if bytes_eq(name, ElementType::Circle.name()) {
            return Some(ElementType::Circle);
        }
        if bytes_eq(name, ElementType::Ellipse.name()) {
            return Some(ElementType::Ellipse);
        }
        if bytes_eq(name, ElementType::Line.name()) {
            return Some(ElementType::Line);
        }
        if bytes_eq(name, ElementType::Polygon.name()) {
            return Some(ElementType::Polygon);
        }
        if bytes_eq(name, ElementType::PolyLine.name()) {
            return Some(ElementType::PolyLine);
        }
        if bytes_eq(name, ElementType::Rect.name()) {
            return Some(ElementType::Rect);
        }
        if bytes_eq(name, ElementType::A.name()) {
            return Some(ElementType::A);
        }
        if bytes_eq(name, ElementType::Defs.name()) {
            return Some(ElementType::Defs);
        }
        if bytes_eq(name, ElementType::G.name()) {
            return Some(ElementType::G);
        }
        if bytes_eq(name, ElementType::Marker.name()) {
            return Some(ElementType::Marker);
        }
        if bytes_eq(name, ElementType::Mask.name()) {
            return Some(ElementType::Mask);
        }
        if bytes_eq(name, ElementType::Pattern.name()) {
            return Some(ElementType::Pattern);
        }
        if bytes_eq(name, ElementType::Svg.name()) {
            return Some(ElementType::Svg);
        }
        if bytes_eq(name, ElementType::Switch.name()) {
            return Some(ElementType::Switch);
        }
        if bytes_eq(name, ElementType::Symbol.name()) {
            return Some(ElementType::Symbol);
        }
        if bytes_eq(name, ElementType::Desc.name()) {
            return Some(ElementType::Desc);
        }
        if bytes_eq(name, ElementType::Metadata.name()) {
            return Some(ElementType::Metadata);
        }
        if bytes_eq(name, ElementType::Title.name()) {
            return Some(ElementType::Title);
        }
        if bytes_eq(name, ElementType::FeBlend.name()) {
            return Some(ElementType::FeBlend);
        }
        if bytes_eq(name, ElementType::FeColorMatrix.name()) {
            return Some(ElementType::FeColorMatrix);
        }
        if bytes_eq(name, ElementType::FeComponentTransfer.name()) {
            return Some(ElementType::FeComponentTransfer);
        }
        if bytes_eq(name, ElementType::FeComposite.name()) {
            return Some(ElementType::FeComposite);
        }
        if bytes_eq(name, ElementType::FeConvolveMatrix.name()) {
            return Some(ElementType::FeConvolveMatrix);
        }
        if bytes_eq(name, ElementType::FeDiffuseLightning.name()) {
            return Some(ElementType::FeDiffuseLightning);
        }
        if bytes_eq(name, ElementType::FeDisplacementMap.name()) {
            return Some(ElementType::FeDisplacementMap);
        }
        if bytes_eq(name, ElementType::FeDropShadow.name()) {
            return Some(ElementType::FeDropShadow);
        }
        if bytes_eq(name, ElementType::FeFlood.name()) {
            return Some(ElementType::FeFlood);
        }
        if bytes_eq(name, ElementType::FeFuncA.name()) {
            return Some(ElementType::FeFuncA);
        }
        if bytes_eq(name, ElementType::FeFuncB.name()) {
            return Some(ElementType::FeFuncB);
        }
        if bytes_eq(name, ElementType::FeFuncG.name()) {
            return Some(ElementType::FeFuncG);
        }
        if bytes_eq(name, ElementType::FeFuncR.name()) {
            return Some(ElementType::FeFuncR);
        }
        if bytes_eq(name, ElementType::FeGaussianBlur.name()) {
            return Some(ElementType::FeGaussianBlur);
        }
        if bytes_eq(name, ElementType::FeImage.name()) {
            return Some(ElementType::FeImage);
        }
        if bytes_eq(name, ElementType::FeMerge.name()) {
            return Some(ElementType::FeMerge);
        }
        if bytes_eq(name, ElementType::FeMergeNode.name()) {
            return Some(ElementType::FeMergeNode);
        }
        if bytes_eq(name, ElementType::FeMorphology.name()) {
            return Some(ElementType::FeMorphology);
        }
        if bytes_eq(name, ElementType::FeOffset.name()) {
            return Some(ElementType::FeOffset);
        }
        if bytes_eq(name, ElementType::FeSpecularLighting.name()) {
            return Some(ElementType::FeSpecularLighting);
        }
        if bytes_eq(name, ElementType::FeTile.name()) {
            return Some(ElementType::FeTile);
        }
        if bytes_eq(name, ElementType::FeTurbulence.name()) {
            return Some(ElementType::FeTurbulence);
        }
        if bytes_eq(name, ElementType::LinearGradient.name()) {
            return Some(ElementType::LinearGradient);
        }
        if bytes_eq(name, ElementType::RadialGradient.name()) {
            return Some(ElementType::RadialGradient);
        }
        if bytes_eq(name, ElementType::Stop.name()) {
            return Some(ElementType::Stop);
        }
        if bytes_eq(name, ElementType::Image.name()) {
            return Some(ElementType::Image);
        }
        if bytes_eq(name, ElementType::Path.name()) {
            return Some(ElementType::Path);
        }
        if bytes_eq(name, ElementType::Text.name()) {
            return Some(ElementType::Text);
        }
        if bytes_eq(name, ElementType::Use.name()) {
            return Some(ElementType::Use);
        }
        if bytes_eq(name, ElementType::FeDistantLight.name()) {
            return Some(ElementType::FeDistantLight);
        }
        if bytes_eq(name, ElementType::FePointLight.name()) {
            return Some(ElementType::FePointLight);
        }
        if bytes_eq(name, ElementType::FeSpotLight.name()) {
            return Some(ElementType::FeSpotLight);
        }
        if bytes_eq(name, ElementType::ClipPath.name()) {
            return Some(ElementType::ClipPath);
        }
        if bytes_eq(name, ElementType::Script.name()) {
            return Some(ElementType::Script);
        }
        if bytes_eq(name, ElementType::Style.name()) {
            return Some(ElementType::Style);
        }
        if bytes_eq(name, ElementType::TextPath.name()) {
            return Some(ElementType::TextPath);
        }
        if bytes_eq(name, ElementType::TSpan.name()) {
            return Some(ElementType::TSpan);
        }
        if bytes_eq(name, ElementType::Filter.name()) {
            return Some(ElementType::Filter);
        }
        if bytes_eq(name, ElementType::ForeignObject.name()) {
            return Some(ElementType::ForeignObject);
        }
        if bytes_eq(name, ElementType::View.name()) {
            return Some(ElementType::View);
        }
        None
    }
}

} // verus!
