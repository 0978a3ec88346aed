use ccc_lib::ccc03s3::get_question;
use ccc_lib::question::{Question, QuestionType};

fn new_default_question() -> Question {
    Question::new(2015, QuestionType::default(), 3, "HelloWorld".to_string())
}

#[test]
fn question_new_default() {
    let q = new_default_question();
    assert_eq!(q.year, 2015);
    assert_eq!(q.level, QuestionType::Senior);
    assert_eq!(q.num, 3);
    assert_eq!(q.title, "HelloWorld");
}

#[test]
fn question_display() {
    let q = new_default_question();
    assert_eq!(q.to_string(), "Q[2015-Senior-#3]: HelloWorld");
}

#[test]
fn question_define() {
    let mut q = new_default_question();
    q.define("This world is so beautiful.");
    assert_eq!(q.description, "This world is so beautiful.");
    assert_eq!(
        q.to_string(),
        "Q[2015-Senior-#3]: HelloWorld\nThis world is so beautiful."
    );
}

#[test]
fn question_type_display() {
    let qt = QuestionType::Junior;
    assert_eq!(qt.to_string(), "Junior");
    let qt = QuestionType::Senior;
    assert_eq!(qt.to_string(), "Senior");
}

#[test]
fn question_type_in_question() {
    let q = new_default_question();
    match q.level {
        QuestionType::Junior => assert!(false),
        _ => assert!(true),
    }
}

#[test]
fn main_import_ccc_lib() {
    let q = Question::new(2000, QuestionType::default(), 3, "HelloWorld".to_string());
    assert_eq!(q.level, QuestionType::Senior);
}

#[test]
fn question_define_appends() {
    let mut q = new_default_question();
    q.define("one");
    q.define(" two");
    assert_eq!(q.description, "one two");
    assert_eq!(q.year, 2015);
    assert_eq!(q.title, "HelloWorld");
}

#[test]
fn question_numbers_in_decimal() {
    let q = Question::new(0, QuestionType::Junior, 0, String::new());
    assert_eq!(q.to_string(), "Q[0-Junior-#0]: ");
    let q = Question::new(65535, QuestionType::Junior, 255, "t".to_string());
    assert_eq!(q.to_string(), "Q[65535-Junior-#255]: t");
    let q = Question::new(1009, QuestionType::Senior, 10, "t".to_string());
    assert_eq!(q.to_string(), "Q[1009-Senior-#10]: t");
}

#[test]
fn floor_plan_question() {
    let q = get_question();
    assert_eq!(q.year, 2003);
    assert_eq!(q.level, QuestionType::Senior);
    assert_eq!(q.num, 3);
    assert_eq!(q.title, "Floor Plan");
    assert!(q.description.starts_with(" The floor plan of a house"));
    assert!(q.description.ends_with("characters of grid data."));
    assert!(q.to_string().starts_with("Q[2003-Senior-#3]: Floor Plan\n The floor plan"));
}
