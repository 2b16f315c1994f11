use svgdoc::attribute::Attribute;
use svgdoc::document::{parse_document, Document, Parser, ParseError};
use svgdoc::element::ElementType;
use svgdoc::lexer::{Input, LexError, Lexer};
use svgdoc::parser::{SyntaxError, TreeError};
use svgdoc::text::Number;
use svgdoc::units::{AbsoluteLength, Length};
use svgdoc::values::{LengthOrPercentage, Percentage};

fn num(s: &str) -> Number {
    Number { text: s.as_bytes().to_vec() }
}

fn parse(s: &str) -> Result<Document, ParseError> {
    parse_document(s.as_bytes())
}

#[test]
fn self_closing_equals_explicit_close() {
    let a = parse("<circle r=\"5\"/>").unwrap();
    let b = parse("<circle r=\"5\"></circle>").unwrap();
    assert_eq!(a.len(), 1);
    assert_eq!(b.len(), 1);
    assert_eq!(a.node(0).element_type, b.node(0).element_type);
    assert_eq!(a.node(0).attributes, b.node(0).attributes);
    assert_eq!(a.node(0).children, b.node(0).children);
    assert_eq!(a.node(0).attributes, vec![Attribute::R(LengthOrPercentage::Length(
        Length::Absolute(AbsoluteLength::Px(num("5")))
    ))]);
}

#[test]
fn boolean_attribute_without_value() {
    let d = parse("<svg autofocus></svg>").unwrap();
    assert_eq!(d.node(0).attributes, vec![Attribute::Autofocus(true)]);
}

#[test]
fn boolean_attribute_with_its_own_name() {
    let d = parse("<svg autofocus=\"autofocus\"></svg>").unwrap();
    assert_eq!(d.node(0).attributes, vec![Attribute::Autofocus(true)]);
}

#[test]
fn boolean_attribute_is_case_sensitive() {
    let d = parse("<svg autofocus=\"AUTOFOCUS\"></svg>").unwrap();
    assert_eq!(d.node(0).attributes, vec![Attribute::Autofocus(false)]);
}

#[test]
fn boolean_attribute_with_other_value() {
    let d = parse("<svg autofocus=\"no\"></svg>").unwrap();
    assert_eq!(d.node(0).attributes, vec![Attribute::Autofocus(false)]);
}

#[test]
fn unknown_attribute_is_dropped() {
    let d = parse("<circle foo=\"bar\" r=\"5\"/>").unwrap();
    assert_eq!(d.node(0).attributes.len(), 1);
    assert!(matches!(d.node(0).attributes[0], Attribute::R(_)));
}

#[test]
fn attribute_not_allowed_is_fatal() {
    let r = parse("<circle rel=\"tag\"/>");
    assert!(matches!(r, Err(ParseError::AttributeNotAllowed(_, ElementType::Circle))));
}

#[test]
fn child_not_allowed_is_fatal() {
    let r = parse("<circle><rect/></circle>");
    assert_eq!(r.err(), Some(ParseError::ChildNotAllowed(ElementType::Circle, ElementType::Rect)));
}

#[test]
fn mismatched_closing_tag_is_fatal() {
    let r = parse("<rect></circle>");
    assert_eq!(r.err(), Some(ParseError::Tree(TreeError::Syntax(SyntaxError::MismatchedClosingTag))));
}

#[test]
fn unclosed_tag_is_fatal() {
    let r = parse("<svg><rect/>");
    assert_eq!(r.err(), Some(ParseError::Tree(TreeError::UnclosedTag)));
}

#[test]
fn percentage_is_tried_before_length() {
    let d = parse("<svg width=\"50%\"></svg>").unwrap();
    assert_eq!(
        d.node(0).attributes,
        vec![Attribute::Width(LengthOrPercentage::Percentage(Percentage(num("50"))))]
    );
}

#[test]
fn bare_number_is_a_length_in_pixels() {
    let d = parse("<svg width=\"50\"></svg>").unwrap();
    assert_eq!(
        d.node(0).attributes,
        vec![Attribute::Width(LengthOrPercentage::Length(Length::Absolute(AbsoluteLength::Px(num("50")))))]
    );
}

#[test]
fn path_data_with_missing_operand_is_fatal() {
    let r = parse("<path d=\"M 10 10 L 20\"/>");
    assert!(matches!(r, Err(ParseError::InvalidAttributeValue(_, _))));
}

#[test]
fn path_data_with_full_operands_parses() {
    let d = parse("<path d=\"M 10 10 L 20 20 Z\"/>").unwrap();
    match &d.node(0).attributes[0] {
        Attribute::D(p) => {
            assert_eq!(p.0.len(), 3);
            assert_eq!(p.0[1].operands, vec![num("20"), num("20")]);
        }
        _ => panic!("expected path data"),
    }
}

#[test]
fn unknown_element_is_fatal() {
    let r = parse("<blink/>");
    assert_eq!(r.err(), Some(ParseError::UnknownElement(b"blink".to_vec())));
}

#[test]
fn invalid_value_is_fatal() {
    let r = parse("<circle r=\"five\"/>");
    assert_eq!(r.err(), Some(ParseError::InvalidAttributeValue(b"r".to_vec(), b"five".to_vec())));
}

#[test]
fn last_duplicate_attribute_wins() {
    let d = parse("<circle r=\"1\" r=\"2\"/>").unwrap();
    assert_eq!(d.node(0).attributes, vec![Attribute::R(LengthOrPercentage::Length(
        Length::Absolute(AbsoluteLength::Px(num("2")))
    ))]);
}

#[test]
fn nested_tree_and_roots() {
    let d = parse("<svg><g><rect/><circle/></g><rect/></svg>").unwrap();
    assert_eq!(d.children, vec![0]);
    assert_eq!(d.node(0).children, vec![1, 4]);
    assert_eq!(d.node(1).children, vec![2, 3]);
    assert_eq!(d.node(3).element_type, ElementType::Circle);
}

#[test]
fn comments_and_text_are_skipped() {
    let d = parse("<svg><!-- a <b> comment -->some text<rect/></svg>").unwrap();
    assert_eq!(d.len(), 2);
}

#[test]
fn unterminated_comment_is_fatal() {
    let r = parse("<svg><!-- open");
    assert_eq!(r.err(), Some(ParseError::Tree(TreeError::Lex(LexError::UnterminatedComment))));
}

#[test]
fn unterminated_quote_is_fatal() {
    let r = parse("<svg id=\"open></svg>");
    assert_eq!(r.err(), Some(ParseError::Tree(TreeError::Lex(LexError::UnterminatedQuote))));
}

#[test]
fn closing_tag_without_open_is_fatal() {
    let r = parse("</svg>");
    assert_eq!(r.err(), Some(ParseError::Tree(TreeError::Syntax(SyntaxError::UnopenedClosingTag))));
}

#[test]
fn empty_document_has_no_elements() {
    let d = parse("").unwrap();
    assert_eq!(d.len(), 0);
    assert!(d.to_svg().is_empty());
}

#[test]
fn serializes_with_indentation() {
    let d = parse("<svg width=\"10\"><rect x=\"1\"/></svg>").unwrap();
    let out = String::from_utf8(d.to_svg()).unwrap();
    assert_eq!(out, "<svg width=\"10px\">\n  <rect x=\"1px\"/>\n</svg>\n");
}

#[test]
fn round_trip_keeps_the_tree() {
    let src = "<svg viewBox=\"0 0 10 10\" class=\"a  b\"><g id=\"x\"><circle cx=\"5\" cy=\"5%\" r=\"2em\" fill=\"red\"/></g><path d=\"M 0 0 L 1 1\"/></svg>";
    let d = parse(src).unwrap();
    let text = d.to_svg();
    let e = parse_document(&text).unwrap();
    assert_eq!(d.len(), e.len());
    assert_eq!(d.children, e.children);
    for i in 0..d.len() {
        assert_eq!(d.node(i).element_type, e.node(i).element_type);
        assert_eq!(d.node(i).attributes, e.node(i).attributes);
        assert_eq!(d.node(i).children, e.node(i).children);
    }
}

#[test]
fn serialization_is_idempotent() {
    let src = "<svg autofocus><rect width=\"3\" stroke-dasharray=\"1 +2 3\"/></svg>";
    let d = parse(src).unwrap();
    let once = d.to_svg();
    let twice = parse_document(&once).unwrap().to_svg();
    assert_eq!(once, twice);
}

#[test]
fn parser_reads_from_a_lexer() {
    let text = b"<svg></svg>";
    let p = Parser::new(Lexer::new(Input::new(text)));
    let d = p.parse().unwrap();
    assert_eq!(d.node(0).element_type, ElementType::Svg);
    assert_eq!(d.node_to_svg(0), b"<svg/>\n".to_vec());
}
