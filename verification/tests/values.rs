use tmx::color::Color;
use tmx::decimal::Decimal;
use tmx::error::Error;
use tmx::model::corners::Corners;
use tmx::number::read_bool;
use tmx::number::read_i32;
use tmx::number::read_u32;
use tmx::point::Point;
use tmx::text::same_text;
use tmx::text::split;
use tmx::text::to_chars;
use tmx::vocabulary::Axis;
use tmx::vocabulary::DrawOrder;
use tmx::vocabulary::Index;
use tmx::vocabulary::Orientation;
use tmx::vocabulary::PropertyType;
use tmx::vocabulary::RenderOrder;

#[test]
fn chars_of_a_text_come_in_order() {
    assert_eq!(vec!['a', 'é', 'z'], to_chars("aéz"));
    assert_eq!(Vec::<char>::new(), to_chars(""));
}

#[test]
fn texts_are_the_same_only_when_equal() {
    assert!(same_text("width", "width"));
    assert!(!same_text("width", "widt"));
    assert!(!same_text("width", "Width"));
    assert!(same_text("", ""));
}

#[test]
fn split_keeps_empty_pieces() {
    assert_eq!(vec!["1", "2"], split("1,2", ','));
    assert_eq!(vec![""], split("", ','));
    assert_eq!(vec!["", "a", "", ""], split(",a,,", ','));
    assert_eq!(vec!["no separator"], split("no separator", ','));
}

#[test]
fn unsigned_numbers_are_read_exactly() {
    assert_eq!(Ok(0), read_u32("0"));
    assert_eq!(Ok(200), read_u32("200"));
    assert_eq!(Ok(7), read_u32("+7"));
    assert_eq!(Ok(7), read_u32("007"));
    assert_eq!(Ok(4294967295), read_u32("4294967295"));
}

#[test]
fn unsigned_numbers_out_of_range_or_malformed_are_refused() {
    assert_eq!(Err(Error::InvalidNumber("4294967296".to_string())), read_u32("4294967296"));
    assert_eq!(
        Err(Error::InvalidNumber("99999999999999999999999999".to_string())),
        read_u32("99999999999999999999999999")
    );
    assert_eq!(Err(Error::InvalidNumber("".to_string())), read_u32(""));
    assert_eq!(Err(Error::InvalidNumber("+".to_string())), read_u32("+"));
    assert_eq!(Err(Error::InvalidNumber("-1".to_string())), read_u32("-1"));
    assert_eq!(Err(Error::InvalidNumber("-0".to_string())), read_u32("-0"));
    assert_eq!(Err(Error::InvalidNumber("12a".to_string())), read_u32("12a"));
    assert_eq!(Err(Error::InvalidNumber(" 1".to_string())), read_u32(" 1"));
    assert_eq!(Err(Error::InvalidNumber("1.0".to_string())), read_u32("1.0"));
}

#[test]
fn signed_numbers_are_read_exactly() {
    assert_eq!(Ok(0), read_i32("0"));
    assert_eq!(Ok(0), read_i32("-0"));
    assert_eq!(Ok(-12), read_i32("-12"));
    assert_eq!(Ok(12), read_i32("+12"));
    assert_eq!(Ok(2147483647), read_i32("2147483647"));
    assert_eq!(Ok(-2147483648), read_i32("-2147483648"));
}

#[test]
fn signed_numbers_out_of_range_or_malformed_are_refused() {
    assert_eq!(Err(Error::InvalidNumber("2147483648".to_string())), read_i32("2147483648"));
    assert_eq!(Err(Error::InvalidNumber("-2147483649".to_string())), read_i32("-2147483649"));
    assert_eq!(Err(Error::InvalidNumber("-".to_string())), read_i32("-"));
    assert_eq!(Err(Error::InvalidNumber("+-1".to_string())), read_i32("+-1"));
    assert_eq!(Err(Error::InvalidNumber("a".to_string())), read_i32("a"));
    assert_eq!(Err(Error::InvalidNumber("".to_string())), read_i32(""));
}

#[test]
fn flags_are_zero_or_one() {
    assert_eq!(Ok(false), read_bool("0"));
    assert_eq!(Ok(true), read_bool("1"));
    assert_eq!(Err(Error::InvalidNumber("2".to_string())), read_bool("2"));
    assert_eq!(Err(Error::InvalidNumber("true".to_string())), read_bool("true"));
    assert_eq!(Err(Error::InvalidNumber("".to_string())), read_bool(""));
}

#[test]
fn decimal_literals_are_kept_as_written() {
    for text in ["0", "1", "0.5", "1.", ".5", "-3.25", "+7", "1e3", "1E-3", "2.5e+10"] {
        let decimal = Decimal::parse(text).unwrap();
        assert_eq!(text, decimal.as_str());
        assert!(decimal.as_str().parse::<f64>().is_ok());
    }
    assert_eq!(0.5, Decimal::parse("0.5").unwrap().as_str().parse::<f64>().unwrap());
    assert_eq!("0", Decimal::zero().as_str());
    assert_eq!("1", Decimal::one().as_str());
    assert_eq!(Decimal::one(), Decimal::one().clone());
}

#[test]
fn texts_that_are_no_decimal_literal_are_refused() {
    for text in ["", ".", "+", "-", "e5", "1e", "1e+", "1.2.3", "abc", "1 ", "0x10", "1,5", "nan", "inf"] {
        assert_eq!(Err(Error::InvalidNumber(text.to_string())), Decimal::parse(text));
    }
}

#[test]
fn color_with_eight_digits_has_alpha_first() {
    let color = Color::parse("#80a0b0c0").unwrap();
    assert_eq!((128, 160, 176, 192), (color.alpha(), color.red(), color.green(), color.blue()));
    assert_eq!(Color { alpha: 128, red: 160, green: 176, blue: 192 }, color);
}

#[test]
fn color_with_six_digits_is_opaque() {
    assert_eq!(Ok(Color { alpha: 255, red: 255, green: 0, blue: 171 }), Color::parse("ff00AB"));
    assert_eq!(Ok(Color { alpha: 255, red: 1, green: 2, blue: 3 }), Color::parse("#010203"));
    assert_eq!(Ok(Color { alpha: 0, red: 0, green: 0, blue: 0 }), Color::parse("00000000"));
}

#[test]
fn invalid_colors_are_refused() {
    for text in ["", "#", "fff", "#12345", "#1234567", "#123456789", "gg0000", "#ff00zz", "##ff0000", "ff 000"] {
        assert_eq!(Err(Error::InvalidColor(text.to_string())), Color::parse(text));
    }
}

#[test]
fn point_has_exactly_two_components() {
    assert_eq!(Ok(Point { x: 1, y: 2 }), Point::parse("1,2"));
    assert_eq!(Ok(Point { x: -10, y: 20 }), Point::parse("-10,+20"));
    assert_eq!(Err(Error::InvalidPoint("".to_string())), Point::parse(""));
    assert_eq!(Err(Error::InvalidNumber("a".to_string())), Point::parse("a,2"));
    assert_eq!(Err(Error::InvalidNumber("b".to_string())), Point::parse("1,b"));
    assert_eq!(Err(Error::InvalidNumber("".to_string())), Point::parse("1,"));
    assert_eq!(Err(Error::InvalidPoint("1,2,3".to_string())), Point::parse("1,2,3"));
    assert_eq!(Err(Error::InvalidPoint("12".to_string())), Point::parse("12"));
    let point = Point::parse("3,4").unwrap();
    assert_eq!((3, 4), (point.x(), point.y()));
}

#[test]
fn points_of_a_list_come_in_written_order() {
    assert_eq!(
        Ok(vec![Point { x: 0, y: 0 }, Point { x: 10, y: -5 }, Point { x: 3, y: 4 }]),
        Point::parse_list("0,0 10,-5 3,4")
    );
    assert_eq!(Ok(vec![Point { x: 1, y: 2 }]), Point::parse_list("  1,2  "));
    assert_eq!(Ok(vec![]), Point::parse_list(""));
    assert_eq!(Err(Error::InvalidPoint("3".to_string())), Point::parse_list("1,2 3 4,5"));
    assert_eq!(Err(Error::InvalidNumber("x".to_string())), Point::parse_list("1,2 x,3"));
}

#[test]
fn corners_have_four_components() {
    assert_eq!(
        Ok(Corners { top_left: Some(0), top_right: Some(1), bottom_left: Some(2), bottom_right: Some(3) }),
        Corners::parse("0,1,2,3")
    );
    assert_eq!(
        Ok(Corners { top_left: None, top_right: Some(1), bottom_left: None, bottom_right: None }),
        Corners::parse(",1,,")
    );
    assert_eq!(Err(Error::InvalidNumber("0,1,2".to_string())), Corners::parse("0,1,2"));
    assert_eq!(Err(Error::InvalidNumber("".to_string())), Corners::parse(""));
    assert_eq!(Err(Error::InvalidNumber("x".to_string())), Corners::parse("0,x,2,3"));
}

#[test]
fn orientation_words_are_matched_exactly() {
    assert_eq!(Ok(Orientation::Orthogonal), Orientation::parse("orthogonal"));
    assert_eq!(Ok(Orientation::Isometric), Orientation::parse("isometric"));
    assert_eq!(Ok(Orientation::Staggered), Orientation::parse("staggered"));
    assert_eq!(Ok(Orientation::Hexagonal), Orientation::parse("hexagonal"));
    assert_eq!(Err(Error::BadOrientation("Orthogonal".to_string())), Orientation::parse("Orthogonal"));
    assert_eq!(Err(Error::BadOrientation("".to_string())), Orientation::parse(""));
}

#[test]
fn render_order_words_are_matched_exactly() {
    assert_eq!(Ok(RenderOrder::RightDown), RenderOrder::parse("right-down"));
    assert_eq!(Ok(RenderOrder::RightUp), RenderOrder::parse("right-up"));
    assert_eq!(Ok(RenderOrder::LeftDown), RenderOrder::parse("left-down"));
    assert_eq!(Ok(RenderOrder::LeftUp), RenderOrder::parse("left-up"));
    assert_eq!(Err(Error::BadRenderOrder("down".to_string())), RenderOrder::parse("down"));
}

#[test]
fn stagger_words_are_matched_exactly() {
    assert_eq!(Ok(Axis::X), Axis::parse("x"));
    assert_eq!(Ok(Axis::Y), Axis::parse("y"));
    assert_eq!(Err(Error::BadAxis("z".to_string())), Axis::parse("z"));
    assert_eq!(Ok(Index::Even), Index::parse("even"));
    assert_eq!(Ok(Index::Odd), Index::parse("odd"));
    assert_eq!(Err(Error::BadIndex("0".to_string())), Index::parse("0"));
}

#[test]
fn draw_order_and_property_type_fall_back_to_their_default() {
    assert_eq!(DrawOrder::Index, DrawOrder::parse("index"));
    assert_eq!(DrawOrder::TopDown, DrawOrder::parse("topdown"));
    assert_eq!(DrawOrder::TopDown, DrawOrder::parse("sideways"));
    assert_eq!(PropertyType::String, PropertyType::parse("string"));
    assert_eq!(PropertyType::Int, PropertyType::parse("int"));
    assert_eq!(PropertyType::Float, PropertyType::parse("float"));
    assert_eq!(PropertyType::Bool, PropertyType::parse("bool"));
    assert_eq!(PropertyType::String, PropertyType::parse("color"));
}
