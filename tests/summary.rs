use tg_bot::courses::Program;
use tg_bot::summary::create_program_summary;
use tg_bot::text::decimal_text;

fn program(info: Option<&str>, courses: usize) -> Program {
    Program {
        url: "https://abit.itmo.ru/program/master/ai".to_string(),
        courses: (0..courses).map(|i| format!("c{}", i)).collect(),
        info: info.map(|s| s.to_string()),
    }
}

#[test]
fn summary_without_record() {
    assert_eq!(
        create_program_summary(&program(None, 2), "AI"),
        "AI: Информация недоступна. Количество курсов: 2. URL: https://abit.itmo.ru/program/master/ai"
    );
    assert_eq!(
        create_program_summary(&program(Some("not json"), 0), "AI"),
        "AI: Информация недоступна. Количество курсов: 0. URL: https://abit.itmo.ru/program/master/ai"
    );
}

#[test]
fn summary_with_record() {
    let info = "{\"description\":\"D\",\"cost\":\"C\",\"budget_places\":51,\"study_form\":\"F\"}";
    assert_eq!(
        create_program_summary(&program(Some(info), 12), "AI Product"),
        "AI Product: Описание: D. Стоимость: C. Места: 51 бюджетных. Форма: F.. Количество курсов: 12. URL: https://abit.itmo.ru/program/master/ai"
    );
}

#[test]
fn summary_with_missing_fields() {
    let info = "{\"budget_places\":-1,\"cost\":7}";
    assert_eq!(
        create_program_summary(&program(Some(info), 1), "AI"),
        "AI: Описание: Нет описания. Стоимость: Не указана. Места: Не указано бюджетных. Форма: Не указана.. Количество курсов: 1. URL: https://abit.itmo.ru/program/master/ai"
    );
}

#[test]
fn decimal_writing() {
    assert_eq!(decimal_text(0), "0");
    assert_eq!(decimal_text(7), "7");
    assert_eq!(decimal_text(120), "120");
    assert_eq!(decimal_text(u64::MAX), "18446744073709551615");
}
