use rust_basics::calendar::{Day, Direction};
use rust_basics::numbers::{get_data_for_testing, is_even, is_it_fifty, parity_table};
use rust_basics::people::{check, get_occupation, Person};
use rust_basics::shapes::{color_text, Color, MyBox, MyObject, Rectangle, TupleColor};
use rust_basics::text::{decimal_string, same_text};

#[test]
fn echo_returns_its_input() {
    for d in [0u32, 1, 2, 3, 50, 4_000_000_000, u32::MAX] {
        assert_eq!(get_data_for_testing(d), d);
    }
}

#[test]
fn square_iff_sides_equal() {
    for (w, h) in [(0u32, 0u32), (10, 10), (50, 25), (25, 50), (u32::MAX, u32::MAX), (0, 1)] {
        assert_eq!(Rectangle { width: w, height: h }.is_square(), w == h);
        assert_eq!(MyBox { width: w, height: h }.is_square(), w == h);
    }
}

#[test]
fn decimal_text_of_numbers() {
    assert_eq!(decimal_string(0), "0");
    assert_eq!(decimal_string(7), "7");
    assert_eq!(decimal_string(10), "10");
    assert_eq!(decimal_string(255), "255");
    assert_eq!(decimal_string(1009), "1009");
    assert_eq!(decimal_string(u64::MAX), "18446744073709551615");
}

#[test]
fn text_comparison() {
    assert!(same_text("", ""));
    assert!(same_text("linus", "linus"));
    assert!(!same_text("linus", "linux"));
    assert!(!same_text("lin", "linus"));
    assert!(same_text("αβγ", "αβγ"));
}

#[test]
fn occupations_on_record() {
    assert_eq!(get_occupation("giridhar"), Some("software developer"));
    assert_eq!(get_occupation("linus"), Some("linux kernel developer"));
    assert_eq!(get_occupation("bhujanga"), None);
    assert_eq!(get_occupation(""), None);
}

#[test]
fn remarks_on_names() {
    assert_eq!(check("linus"), "he created linux !");
    assert_eq!(check("giridhar"), "he is getting better at RUST language");
    assert_eq!(check("clinton"), "they were US presidents !");
    assert_eq!(check("bush"), "they were US presidents !");
    assert_eq!(check("abc"), "oops : does not match anything");
}

#[test]
fn person_texts() {
    let person = Person {
        name: String::from("Giridhar"),
        age: 42,
    };
    assert_eq!(person.to_string(), "My Name Is Giridhar, & I am 42");
    assert_eq!(person.speak(), "Hello, my name is Giridhar and my age is 42");
    assert!(person.can_speak());
}

#[test]
fn speaking_starts_after_two() {
    let young = Person {
        name: String::from("Giri1"),
        age: 1,
    };
    let edge = Person {
        name: String::from("Giri2"),
        age: 2,
    };
    let older = Person {
        name: String::from("Giri3"),
        age: 3,
    };
    assert!(!young.can_speak());
    assert!(!edge.can_speak());
    assert!(older.can_speak());
    assert_eq!(young.speak(), "Hello, my name is Giri1 and my age is 1");
}

#[test]
fn parity_of_numbers() {
    assert_eq!(is_even(0), (0, true));
    assert_eq!(is_even(7), (7, false));
    assert_eq!(is_even(u32::MAX), (u32::MAX, false));
    let table = parity_table(10, 14);
    assert_eq!(table, vec![(10, true), (11, false), (12, true), (13, false)]);
    assert_eq!(parity_table(10, 21).len(), 11);
    assert!(parity_table(5, 5).is_empty());
    assert!(parity_table(9, 3).is_empty());
    assert_eq!(parity_table(u32::MAX - 1, u32::MAX), vec![(u32::MAX - 1, true)]);
}

#[test]
fn fifty_or_error() {
    assert_eq!(is_it_fifty(50), Ok(50));
    assert_eq!(is_it_fifty(51), Err("oops it did not work !"));
    assert_eq!(is_it_fifty(-50), Err("oops it did not work !"));
}

#[test]
fn object_area_and_summary() {
    let obj = MyObject::new_object(35, 45);
    assert_eq!(obj.width, 35);
    assert_eq!(obj.height, 45);
    assert_eq!(obj.calculate_area(), 1575);
    assert_eq!(
        obj.show(),
        "Area of the specified object with dimensions 35 x 45 => 1575"
    );
    assert_eq!(MyObject::new_object(15, 20).calculate_area(), 300);
    assert_eq!(MyObject::new_object(0, 9).calculate_area(), 0);
}

#[test]
fn rectangle_and_colour_texts() {
    let r = Rectangle {
        width: 10,
        height: 10,
    };
    assert_eq!(r.description(), "Rectangle : 10 x 10");
    let c = Color {
        red: 255,
        green: 70,
        blue: 15,
    };
    assert_eq!(color_text(&c), "color values are : 255, 70, 15");
    let red = TupleColor(255, 0, 0);
    assert_eq!((red.0, red.1, red.2), (255, 0, 0));
}

#[test]
fn weekdays_and_headings() {
    assert!(Day::Monday.is_weekday());
    assert!(Day::Tuesday.is_weekday());
    assert!(Day::Friday.is_weekday());
    assert!(!Day::Saturday.is_weekday());
    assert!(!Day::Sunday.is_weekday());
    assert_eq!(Direction::Up.heading(), "we are heading up !");
    assert_eq!(Direction::Down.heading(), "we are heading down !");
    assert_eq!(Direction::Left.heading(), "we are heading left !");
    assert_eq!(Direction::Right.heading(), "we are heading right !");
}
