use tg_bot::courses::{
    asks_about_ai, asks_about_ai_product, get_relevant_courses, score_course, topic_of, Program,
    Topic,
};

fn program(courses: &[&str]) -> Program {
    Program {
        url: "https://abit.itmo.ru/program/master/ai".to_string(),
        courses: courses.iter().map(|s| s.to_string()).collect(),
        info: None,
    }
}

#[test]
fn scores_keywords_named_in_both() {
    assert_eq!(score_course("Расскажи про Python", "Python для анализа"), 2);
    assert_eq!(score_course("python и данные", "Python: данные"), 4);
    assert_eq!(score_course("история", "Философия"), 0);
    assert_eq!(score_course("web", "web"), 2 + 22);
}

#[test]
fn relevant_courses_ranked_and_cut() {
    let p = program(&["История", "Машинное обучение", "Python", "Глубокое обучение и python"]);
    let r = get_relevant_courses(&p, "python, машинное обучение", 3);
    assert_eq!(r, vec!["Машинное обучение", "Python", "Глубокое обучение и python"]);
    let r = get_relevant_courses(&p, "python", 10);
    assert_eq!(r, vec!["Python", "Глубокое обучение и python", "История", "Машинное обучение"]);
    assert!(get_relevant_courses(&p, "python", 0).is_empty());
}

#[test]
fn topic_detection() {
    assert!(asks_about_ai_product("Что такое AI Product?"));
    assert!(asks_about_ai("Что такое AI Product?"));
    assert!(matches!(topic_of("Что такое AI Product?"), Topic::Both));
    assert!(matches!(topic_of("Расскажи про продукт"), Topic::AiProduct));
    assert!(matches!(topic_of("Нейронные сети будут?"), Topic::Ai));
    assert!(matches!(topic_of("Привет"), Topic::Both));
}

#[test]
fn fallback_answers() {
    let ai = program(&["Python", "История"]);
    let product = program(&["Продуктовая аналитика"]);
    assert_eq!(
        tg_bot::courses::fallback_answer("нейронные сети и python", &ai, &product),
        Some("AI программа. Релевантные курсы: Python, История".to_string())
    );
    assert_eq!(
        tg_bot::courses::fallback_answer("продукт", &ai, &program(&[])),
        Some("AI Product программа. Релевантные курсы: программирование, ML, продуктовая разработка".to_string())
    );
    assert_eq!(tg_bot::courses::fallback_answer("привет", &ai, &product), None);
}
