use nutrition_tool::categories::{ActivityLevel, MeasureSystem, SexAtBirth};
use nutrition_tool::macros::Macros;
use nutrition_tool::fields::{parse_thousandths, parse_whole};
use nutrition_tool::form::{App, Message};

fn filled(name: &str, age: &str, weight: &str, height: &str) -> App {
    let mut app = App::default();
    app.update(Message::NameChange(String::from(name)));
    app.update(Message::AgeChange(String::from(age)));
    app.update(Message::WeightChange(String::from(weight)));
    app.update(Message::HeightChange(String::from(height)));
    app
}

#[test]
fn whole_numbers() {
    assert_eq!(parse_whole("0", 255), Some(0));
    assert_eq!(parse_whole("30", 255), Some(30));
    assert_eq!(parse_whole("255", 255), Some(255));
    assert_eq!(parse_whole("0007", 255), Some(7));
    assert_eq!(parse_whole("256", 255), None);
    assert_eq!(parse_whole("99999999999999999999", 255), None);
    assert_eq!(parse_whole("", 255), None);
    assert_eq!(parse_whole("3a", 255), None);
    assert_eq!(parse_whole("-3", 255), None);
    assert_eq!(parse_whole("+30", 255), Some(30));
    assert_eq!(parse_whole("+", 255), None);
    assert_eq!(parse_whole("++3", 255), None);
    assert_eq!(parse_whole("-0", 255), None);
    assert_eq!(parse_whole(" 3", 255), None);
    assert_eq!(parse_whole("4294967295", u32::MAX), Some(u32::MAX));
}

#[test]
fn decimals_in_thousandths() {
    assert_eq!(parse_thousandths("150"), Some(150_000));
    assert_eq!(parse_thousandths("150.5"), Some(150_500));
    assert_eq!(parse_thousandths("150.25"), Some(150_250));
    assert_eq!(parse_thousandths("0.125"), Some(125));
    assert_eq!(parse_thousandths("1.23456"), Some(1_234));
    assert_eq!(parse_thousandths(".5"), Some(500));
    assert_eq!(parse_thousandths("7."), Some(7_000));
    assert_eq!(parse_thousandths("0"), Some(0));
    assert_eq!(parse_thousandths("+5"), Some(5_000));
    assert_eq!(parse_thousandths("+.5"), Some(500));
    assert_eq!(parse_thousandths("+150.25"), Some(150_250));
    assert_eq!(parse_thousandths("4294967.296"), Some(4_294_967_296));
    assert_eq!(parse_thousandths("9223372036854775.807"), Some(i64::MAX));
    assert_eq!(parse_thousandths("-9223372036854775.807"), Some(-i64::MAX));
    assert_eq!(parse_thousandths("9223372036854775.808"), None);
    assert_eq!(parse_thousandths("9223372036854776"), None);
}

#[test]
fn decimals_with_sign() {
    assert_eq!(parse_thousandths("-5"), Some(-5_000));
    assert_eq!(parse_thousandths("-0"), Some(0));
    assert_eq!(parse_thousandths("-.5"), Some(-500));
    assert_eq!(parse_thousandths("-150.2567"), Some(-150_256));
    assert_eq!(parse_thousandths("-0.0009"), Some(0));
}

#[test]
fn decimals_with_exponent() {
    assert_eq!(parse_thousandths("1e3"), Some(1_000_000));
    assert_eq!(parse_thousandths("1e2"), Some(100_000));
    assert_eq!(parse_thousandths("1E2"), Some(100_000));
    assert_eq!(parse_thousandths("1e+2"), Some(100_000));
    assert_eq!(parse_thousandths("2.5e-1"), Some(250));
    assert_eq!(parse_thousandths("1.5e-3"), Some(1));
    assert_eq!(parse_thousandths("1e-4"), Some(0));
    assert_eq!(parse_thousandths("-1.234567e2"), Some(-123_456));
    assert_eq!(parse_thousandths(".5e1"), Some(5_000));
    assert_eq!(parse_thousandths("5.e0"), Some(5_000));
    assert_eq!(parse_thousandths("0e999999"), Some(0));
    assert_eq!(parse_thousandths("1e-999999"), Some(0));
    assert_eq!(parse_thousandths("1e999999"), None);
    assert_eq!(parse_thousandths("1e16"), None);
    assert_eq!(parse_thousandths("9e15"), Some(9_000_000_000_000_000_000));
    assert_eq!(parse_thousandths("1e0000000000000000002"), Some(100_000));
    assert_eq!(parse_thousandths("123456789012345678901234567890e-27"), Some(123_456));
}

#[test]
fn decimals_rejected() {
    for text in ["", ".", "+", "-", "+.", "++5", "+-5", "abc", "1.2.3", "e5", ".e5", "1e", "1e+", "1e-", "1e2.5", "1e2e3", "1e1000001", "inf", "-inf", "NaN", "12 ", "1,5", "1.x"] {
        assert_eq!(parse_thousandths(text), None, "{}", text);
    }
}

#[test]
fn form_starts_empty() {
    let app = App::default();
    assert_eq!(app.name, "");
    assert_eq!(app.age, "");
    assert!(!app.calculated);
    assert!(!app.try_calculated);
    assert_eq!(app.measure_system, MeasureSystem::Imperial);
    assert_eq!(app.macros, Macros::default());
    assert_eq!(app.person.weight_milli_kg, 0);
    assert_eq!(app.person.activity_lvl, ActivityLevel::Active);
}

#[test]
fn form_accepts_signed_plus_entries() {
    let mut app = filled("Flo", "+30", "+0", "+0");
    app.update(Message::Submit);
    assert!(app.calculated);
    assert_eq!(app.person.age, 30);
    assert_eq!(app.person.weight_milli_kg, 0);
    assert_eq!(app.person.height_milli_cm, 0);
}

#[test]
fn form_text_changes() {
    let app = filled("Dee", "30", "154.324", "68.898");
    assert_eq!(app.name, "Dee");
    assert_eq!(app.age, "30");
    assert_eq!(app.weight, "154.324");
    assert_eq!(app.height, "68.898");
    assert!(!app.try_calculated);
}

#[test]
fn form_valid_submission() {
    let mut app = filled("Dee", "30", "154.324", "68.898");
    app.update(Message::Submit);
    assert!(app.try_calculated);
    assert!(app.calculated);
    assert_eq!(app.person.name, "Dee");
    assert_eq!(app.person.age, 30);
    assert_eq!(app.person.weight_milli_kg, 70_000);
    assert_eq!(app.person.height_milli_cm, 175_000);
    assert_eq!(app.person.activity_lvl, ActivityLevel::Active);
    assert_eq!(app.person.sex_assigned_at_birth, SexAtBirth::Male);
}

#[test]
fn form_invalid_submission_keeps_profile() {
    let mut app = filled("Dee", "30", "150", "70");
    app.update(Message::Submit);
    assert!(app.calculated);
    let kept = app.person.weight_milli_kg;
    app.update(Message::AgeChange(String::from("300")));
    app.update(Message::WeightChange(String::from("10")));
    app.update(Message::Submit);
    assert!(app.try_calculated);
    assert!(!app.calculated);
    assert_eq!(app.person.weight_milli_kg, kept);
    assert_eq!(app.person.age, 30);
}

#[test]
fn form_accepts_negative_and_exponent_entries() {
    let mut app = filled("Gus", "30", "-5", "1e2");
    app.update(Message::Submit);
    assert!(app.try_calculated);
    assert!(app.calculated);
    assert_eq!(app.person.weight_milli_kg, -2_267);
    assert_eq!(app.person.height_milli_cm, 254_000);
}

#[test]
fn form_rejects_bad_weight_and_height() {
    let mut app = filled("Eve", "40", "heavy", "70");
    assert!(!app.parse_entries());
    app.update(Message::WeightChange(String::from("120")));
    app.update(Message::HeightChange(String::from("")));
    assert!(!app.parse_entries());
    app.update(Message::HeightChange(String::from("64.5")));
    assert!(app.parse_entries());
    assert_eq!(app.person.height_milli_cm, 163_830);
}
