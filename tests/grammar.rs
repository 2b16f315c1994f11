use svgdoc::attribute::{parse_attribute, Attribute, InvalidValue};
use svgdoc::element::ElementType;
use svgdoc::keywords::{ColorLiteral, FillRule, RelType, StrokeLinecap};
use svgdoc::lexer::{Input, LexError, Lexer, LexerMode};
use svgdoc::path::{PathCommand, PathData};
use svgdoc::text::{split_words, Grammar, Number};
use svgdoc::token::TokenKind;
use svgdoc::units::{AbsoluteLength, Length, RelativeLength, RelativeLengthBasedOnRoot, RelativeLengths};
use svgdoc::values::{parse_list, Color, LengthOrPercentage, Paint, Point, Url, ViewBox};

fn formatted<T: Grammar>(v: &T) -> String {
    let mut out = Vec::new();
    v.write_to(&mut out);
    String::from_utf8(out).unwrap()
}

#[test]
fn numbers() {
    assert!(Number::parse(b"12").is_some());
    assert!(Number::parse(b"-1.5").is_some());
    assert!(Number::parse(b".5").is_some());
    assert!(Number::parse(b"5.").is_some());
    assert!(Number::parse(b"+").is_none());
    assert!(Number::parse(b".").is_none());
    assert!(Number::parse(b"1e3").is_none());
    assert!(Number::parse(b"").is_none());
}

#[test]
fn integers_format_canonically() {
    assert_eq!(<i64 as Grammar>::parse(b"+007"), Some(7));
    assert_eq!(<i64 as Grammar>::parse(b"-42"), Some(-42));
    assert_eq!(<i64 as Grammar>::parse(b"-9223372036854775808"), Some(i64::MIN));
    assert_eq!(<i64 as Grammar>::parse(b"9223372036854775808"), None);
    assert_eq!(<u64 as Grammar>::parse(b"18446744073709551615"), Some(u64::MAX));
    assert_eq!(<u64 as Grammar>::parse(b"-1"), None);
    assert_eq!(formatted(&-42i64), "-42");
    assert_eq!(formatted(&i64::MIN), "-9223372036854775808");
    assert_eq!(formatted(&0u64), "0");
}

#[test]
fn lengths_by_unit() {
    let n = Number { text: b"2".to_vec() };
    assert_eq!(Length::parse(b"2cm"), Some(Length::Absolute(AbsoluteLength::Cm(n.clone()))));
    assert_eq!(
        Length::parse(b"2em"),
        Some(Length::Relative(RelativeLengths::RelativeLength(RelativeLength::Em(n.clone()))))
    );
    assert_eq!(
        Length::parse(b"2rem"),
        Some(Length::Relative(RelativeLengths::RelativeLengthBasedOnRoot(
            RelativeLengthBasedOnRoot::Rem(n.clone())
        )))
    );
    assert_eq!(Length::parse(b"2"), None);
    assert_eq!(Length::parse(b"cm"), None);
    assert_eq!(formatted(&Length::Absolute(AbsoluteLength::Q(n))), "2q");
}

#[test]
fn length_or_percentage_order() {
    let p = LengthOrPercentage::parse(b"50%").unwrap();
    assert_eq!(formatted(&p), "50%");
    let l = LengthOrPercentage::parse(b"50").unwrap();
    assert_eq!(formatted(&l), "50px");
    assert!(LengthOrPercentage::parse(b"px").is_none());
}

#[test]
fn keywords_parse_and_format() {
    assert_eq!(FillRule::parse(b"evenodd"), Some(FillRule::EvenOdd));
    assert_eq!(FillRule::parse(b"EvenOdd"), None);
    assert_eq!(StrokeLinecap::parse(b"round").map(|k| k.as_str()), Some("round"));
    assert_eq!(formatted(&ColorLiteral::Red), "red");
}

#[test]
fn colors_paints_urls() {
    assert_eq!(Color::parse(b"#fff"), Some(Color::Hex(b"fff".to_vec())));
    assert_eq!(Color::parse(b"red"), Some(Color::Literal(ColorLiteral::Red)));
    assert_eq!(Color::parse(b"reddish"), None);
    assert_eq!(Paint::parse(b"none"), Some(Paint::NoneValue));
    assert_eq!(Paint::parse(b"url(#g)"), Some(Paint::Url(Url::Url(b"#g".to_vec()))));
    assert_eq!(Url::parse(b"#a"), Some(Url::Id(b"a".to_vec())));
    assert_eq!(Url::parse(b"a"), Some(Url::Id(b"a".to_vec())));
    assert_eq!(formatted(&Url::Id(b"a".to_vec())), "#a");
}

#[test]
fn lists_fail_as_a_whole() {
    assert_eq!(parse_list::<i64>(b" 1  2 3 "), Some(vec![1, 2, 3]));
    assert_eq!(parse_list::<i64>(b"1 x 3"), None);
    assert_eq!(parse_list::<i64>(b""), Some(vec![]));
    assert_eq!(parse_list::<RelType>(b"tag"), Some(vec![RelType::Tag]));
    assert!(ViewBox::parse(b"0 0 10 10").is_some());
    assert!(ViewBox::parse(b"0 0 10").is_none());
    assert_eq!(formatted(&ViewBox::parse(b" 0  0 10 10").unwrap()), "0 0 10 10");
    assert!(Point::parse(b"1,2").is_some());
    assert!(Point::parse(b"1 2").is_none());
}

#[test]
fn path_data() {
    let p = PathData::parse(b"M 1 2 C 1 2 3 4 5 6 z").unwrap();
    assert_eq!(p.0.len(), 3);
    assert_eq!(p.0[1].command, PathCommand::CubicBezierAbsolute);
    assert_eq!(p.0[2].command, PathCommand::ClosePathRelative);
    assert_eq!(formatted(&p), "M 1 2 C 1 2 3 4 5 6 z");
    assert!(PathData::parse(b"M 1").is_none());
    assert!(PathData::parse(b"X 1 2").is_none());
    assert!(PathData::parse(b"M 1 2 3").is_none());
    assert!(PathData::parse(b"").is_some());
}

#[test]
fn attribute_parsing() {
    assert_eq!(parse_attribute(b"foo", b"bar"), Ok(None));
    assert_eq!(parse_attribute(b"tabindex", b"x"), Err(InvalidValue));
    assert_eq!(parse_attribute(b"tabindex", b"3"), Ok(Some(Attribute::Tabindex(3))));
    assert_eq!(parse_attribute(b"type", b"anything"), Ok(Some(Attribute::Type)));
    let a = parse_attribute(b"class", b"a b").unwrap().unwrap();
    assert_eq!(a, Attribute::Class(vec![b"a".to_vec(), b"b".to_vec()]));
    assert_eq!(a.to_svg(), b"class=\"a b\"".to_vec());
    assert_eq!(Attribute::Type.to_svg(), b"type".to_vec());
    assert_eq!(a.name(), b"class");
    assert_eq!(a.value_as_string(), b"a b".to_vec());
}

#[test]
fn attribute_categories() {
    let id = Attribute::Id(b"x".to_vec());
    assert!(id.is_global());
    assert!(id.is_core());
    assert!(!id.is_presentation());
    let fill = Attribute::FillRule(FillRule::EvenOdd);
    assert!(fill.is_fill());
    assert!(fill.applies_to_shape());
    assert!(fill.allowed_in_element(ElementType::Rect));
    assert!(!fill.allowed_in_element(ElementType::G));
    assert!(Attribute::Rel(vec![]).allowed_in_element(ElementType::A));
    assert!(!Attribute::Rel(vec![]).allowed_in_element(ElementType::Circle));
}

#[test]
fn element_schema() {
    assert_eq!(ElementType::from_name(b"linearGradient"), Some(ElementType::LinearGradient));
    assert_eq!(ElementType::from_name(b"lineargradient"), None);
    assert_eq!(ElementType::FeGaussianBlur.as_str(), "feGaussianBlur");
    assert!(ElementType::Circle.is_shape());
    assert!(ElementType::SetTag.is_animation());
    assert!(ElementType::Circle.is_allowed_as_child(&ElementType::Animate));
    assert!(!ElementType::Circle.is_allowed_as_child(&ElementType::Rect));
    assert!(ElementType::FeMerge.is_allowed_as_child(&ElementType::FeMergeNode));
    assert!(ElementType::Desc.is_allowed_as_child(&ElementType::Svg));
}

#[test]
fn lexer_tokens() {
    let text = b"<a href=\"x\\\"y\">t</a>";
    let mut lexer = Lexer::new(Input::new(text));
    let mut kinds = Vec::new();
    let mut values = Vec::new();
    while let Some(t) = lexer.advance().unwrap() {
        kinds.push(t.kind);
        values.push(String::from_utf8(t.value).unwrap());
    }
    assert_eq!(
        kinds,
        vec![
            TokenKind::LessThan,
            TokenKind::Identifier,
            TokenKind::Identifier,
            TokenKind::Equals,
            TokenKind::Quote,
            TokenKind::Literal,
            TokenKind::Quote,
            TokenKind::GreaterThan,
            TokenKind::Text,
            TokenKind::LessThanSlash,
            TokenKind::Identifier,
            TokenKind::GreaterThan,
        ]
    );
    assert_eq!(values[5], "x\\\"y");
    assert_eq!(lexer.mode, LexerMode::Text);
}

#[test]
fn lexer_errors() {
    let mut lexer = Lexer::new(Input::new(b"<a /"));
    assert!(lexer.advance().unwrap().is_some());
    assert!(lexer.advance().unwrap().is_some());
    assert_eq!(lexer.advance().err(), Some(LexError::UnterminatedSelfClose));
}

#[test]
fn input_cursor() {
    let mut input = Input::new(b"  abc");
    input.consume_whitespace();
    assert_eq!(input.offset, 2);
    assert!(input.is_at(b"ABC", true));
    assert!(!input.is_at(b"ABC", false));
    assert_eq!(input.consume(2), b"ab");
    input.next();
    assert!(input.has_reached_eof());
    input.skip(10);
    assert_eq!(input.offset, 5);
    let mut other = Input::new(b"x-->y");
    assert_eq!(other.consume_until(b"-->"), b"x");
    assert_eq!(other.consume_remaining(), b"-->y");
}

#[test]
fn words_split_on_whitespace() {
    assert_eq!(split_words(b" a\tb\n c "), vec![b"a".to_vec(), b"b".to_vec(), b"c".to_vec()]);
    assert!(split_words(b"   ").is_empty());
}

#[test]
fn named_color_components() {
    assert_eq!(ColorLiteral::Red.to_rgba(), Color::Rgba(255, 0, 0, 255));
    assert_eq!(ColorLiteral::Maroon.to_hex(), Color::Hex(b"800000".to_vec()));
    assert_eq!(
        ColorLiteral::Crimson.to_hsl(),
        Color::Hsl(
            Number { text: b"348.0".to_vec() },
            Number { text: b"83.0".to_vec() },
            Number { text: b"47.0".to_vec() }
        )
    );
}

#[test]
fn functional_colors() {
    assert_eq!(Color::parse(b"rgb(1,2,3)"), Some(Color::Rgb(1, 2, 3)));
    assert_eq!(Color::parse(b"rgba(1,2,3,004)"), Some(Color::Rgba(1, 2, 3, 4)));
    assert_eq!(Color::parse(b"rgb(1,2,256)"), None);
    assert_eq!(Color::parse(b"rgb(1,2)"), None);
    assert_eq!(Color::parse(b"rgb(1,2,3"), None);
    assert_eq!(formatted(&Color::Rgba(1, 2, 3, 4)), "rgba(1,2,3,4)");
    let hsl = Color::parse(b"hsla(10,50%,1,0.5)");
    assert_eq!(hsl, None);
    let hsl = Color::parse(b"hsl(10,50,1.5)").unwrap();
    assert_eq!(formatted(&hsl), "hsl(10,50,1.5)");
}

#[test]
fn formatted_values_read_back() {
    for text in ["50%", "2em", "url(#a)", "#fff", "rgb(1,2,3)", "M 1 2 L 3 4"] {
        let once = match text.as_bytes()[0] {
            b'M' => formatted(&PathData::parse(text.as_bytes()).unwrap()),
            b'u' => formatted(&Url::parse(text.as_bytes()).unwrap()),
            b'#' | b'r' => formatted(&Color::parse(text.as_bytes()).unwrap()),
            _ => formatted(&LengthOrPercentage::parse(text.as_bytes()).unwrap()),
        };
        assert_eq!(once, text);
    }
}
