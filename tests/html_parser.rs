use tg_bot::extract::{compile_selector, description_from, parse_master_program_html};

fn page(body: &str) -> String {
    format!("<!DOCTYPE html><html><head></head><body>{}</body></html>", body)
}

#[test]
fn test_parse_ai_product_html() {
    let html = page(
        "<h1 class=\"Information_information__header__fab3I\"> Управление ИИ-продуктами/AI Product </h1>",
    );
    let program = parse_master_program_html(&html).ok().unwrap();
    assert_eq!(program.title, "Управление ИИ-продуктами/AI Product");
}

#[test]
fn end_to_end_cards_and_manager() {
    let html = page(&[
        "<div class=\"Information_card__text__txwcx\">очная</div>",
        "<div class=\"Information_card__text__txwcx\">2 года</div>",
        "<div class=\"Information_card__text__txwcx\">русский</div>",
        "<div class=\"Information_card__text__txwcx\">500000 руб</div>",
        "<div class=\"Information_manager__block\">",
        "<a href=\"mailto:m@x.com\">m@x.com</a>",
        "<a href=\"tel:+7123\">+7123</a>",
        "</div>",
    ].concat());
    let p = parse_master_program_html(&html).ok().unwrap();
    assert_eq!(p.study_form, "очная");
    assert_eq!(p.duration, "2 года");
    assert_eq!(p.language, "русский");
    assert_eq!(p.cost, "500000 руб");
    assert_eq!(p.manager.name, "");
    assert_eq!(p.manager.email, "m@x.com");
    assert_eq!(p.manager.phone, "+7123");
    assert!(!p.dormitory);
    assert!(p.special_programs.is_empty());
}

#[test]
fn empty_document_gives_defaults() {
    let p = parse_master_program_html("").ok().unwrap();
    assert_eq!(p.title, "");
    assert_eq!(p.description, "");
    assert_eq!(p.institute, "");
    assert_eq!(p.study_form, "");
    assert!(!p.dormitory && !p.military_center && !p.accreditation);
    assert_eq!(p.budget_places, 0);
    assert_eq!(p.target_places, 0);
    assert_eq!(p.contract_places, 0);
    assert!(p.special_programs.is_empty());
    assert!(p.social_links.is_empty());
    assert!(p.exam_dates.is_empty());
    assert!(p.admission_methods.is_empty());
    assert!(p.team.is_empty());
    assert!(p.scholarships.is_empty());
    assert!(p.faq.is_empty());
    assert_eq!(p.career_opportunities, "");
    assert_eq!(p.average_salary, "");
    assert_eq!(p.partners, vec!["Альфа-Банк".to_string(), "AlfaFuture".to_string()]);
    assert_eq!(p.international_opportunities.len(), 5);
    assert_eq!(p.international_opportunities[3], "Buddy System");
}

#[test]
fn same_text_parsed_twice_gives_same_fields() {
    let html = page(
        "<div class=\"Information_card__text__txwcx\">заочная</div><h1 class=\"Information_information__header__fab3I\">T</h1>",
    );
    let a = parse_master_program_html(&html).ok().unwrap();
    let b = parse_master_program_html(&html).ok().unwrap();
    assert_eq!(a.title, b.title);
    assert_eq!(a.study_form, b.study_form);
    assert_eq!(a.description, b.description);
}

#[test]
fn flags_places_and_special_programs() {
    let html = page(&[
        "<div class=\"Information_card__text__txwcx\">a</div>",
        "<div class=\"Information_card__text__txwcx\">b</div>",
        "<div class=\"Information_card__text__txwcx\">c</div>",
        "<div class=\"Information_card__text__txwcx\">d</div>",
        "<div class=\"Information_card__text__txwcx\">Да</div>",
        "<div class=\"Information_card__text__txwcx\">Нет</div>",
        "<div class=\"Information_card__text__txwcx\">есть, да</div>",
        "<div class=\"Information_card__text__txwcx\">IT, Бизнес ,  Дизайн</div>",
        "<div class=\"Directions_table__places__RWYBT\"><span>120</span><span>abc</span><span> 15 </span></div>",
    ].concat());
    let p = parse_master_program_html(&html).ok().unwrap();
    assert!(p.dormitory);
    assert!(!p.military_center);
    assert!(p.accreditation);
    assert_eq!(p.special_programs, vec!["IT".to_string(), "Бизнес".to_string(), "Дизайн".to_string()]);
    assert_eq!(p.budget_places, 120);
    assert_eq!(p.target_places, 0);
    assert_eq!(p.contract_places, 15);
}

#[test]
fn accordion_split_between_admission_and_faq() {
    let mut body = String::new();
    for i in 0..9 {
        body.push_str(&format!(
            "<div class=\"Accordion_accordion__title__tSP_0\"><h5>t{}</h5></div><div class=\"Accordion_accordion__info__wkCQC\"><div>d{}</div></div>",
            i, i
        ));
    }
    let p = parse_master_program_html(&page(&body)).ok().unwrap();
    assert_eq!(p.admission_methods.len(), 7);
    assert_eq!(p.admission_methods[0].name, "t0");
    assert_eq!(p.admission_methods[6].description, "d6");
    assert_eq!(p.faq.len(), 2);
    assert_eq!(p.faq[0].question, "t7");
    assert_eq!(p.faq[0].answer, "d7");
    assert_eq!(p.faq[1].question, "t8");
    assert_eq!(p.faq[1].answer, "d8");
}

#[test]
fn socials_team_scholarships_and_career() {
    let html = page(&[
        "<a class=\"Information_socials__link___eN3E\" href=\"https://vk.com/x\">VK<img src=\"i.png\"></a>",
        "<a class=\"Information_socials__link___eN3E\" href=\"https://t.me/x\"><img src=\"i.png\"></a>",
        "<a class=\"Information_socials__link___eN3E\">TG</a>",
        "<div class=\"Team_team__name__q2R7T\"> Иван Петров <span>x</span></div>",
        "<div class=\"Team_team__name__q2R7T\">Анна</div>",
        "<div class=\"Team_team__position__xB_og\"> Доцент </div>",
        "<div class=\"Scholarship_item__cowlU\"><h5>Повышенная</h5><h4>10000</h4></div>",
        "<div class=\"Scholarship_item__cowlU\"><h5>Именная</h5></div>",
        "<div class=\"Career_career__container___st5X\"><h5>Зарплата от 150 до 400+ тысяч<br>в месяц</h5></div>",
        "<div class=\"Information_entry__container__WYx9j\"><h6> 1 июля </h6><h6>2 июля</h6></div>",
    ].concat());
    let p = parse_master_program_html(&html).ok().unwrap();
    assert_eq!(p.social_links.len(), 1);
    assert_eq!(p.social_links[0].platform, "VK");
    assert_eq!(p.social_links[0].url, "https://vk.com/x");
    assert_eq!(p.team.len(), 2);
    assert_eq!(p.team[0].name, "Иван Петров");
    assert_eq!(p.team[0].position, "Доцент");
    assert_eq!(p.team[1].name, "Анна");
    assert_eq!(p.team[1].position, "");
    assert!(p.team[1].degree.is_none());
    assert_eq!(p.scholarships.len(), 1);
    assert_eq!(p.scholarships[0].name, "Повышенная");
    assert_eq!(p.scholarships[0].amount, "10000");
    assert_eq!(p.career_opportunities, "Зарплата от 150 до 400+ тысяч\nв месяц");
    assert_eq!(
        p.average_salary,
        "от 150 до 400+ тысяч рублей в месяц через 1–3 года после окончания"
    );
    assert_eq!(p.exam_dates, vec!["1 июля".to_string(), "2 июля".to_string()]);
}

#[test]
fn description_from_embedded_payload() {
    let html = page(&[
        "<script id=\"__NEXT_DATA__\" type=\"application/json\">",
        "{\"props\":{\"pageProps\":{\"jsonProgram\":{\"about\":{\"lead\":\"L\",\"desc\":\"a\\\\u003cbr\\\\u003eb\"}}}}}",
        "</script>",
    ].concat());
    let p = parse_master_program_html(&html).ok().unwrap();
    assert_eq!(p.description, "L\n\na\nb");
}

#[test]
fn description_payload_missing_parts() {
    assert_eq!(description_from(""), "");
    assert_eq!(description_from("not json"), "");
    assert_eq!(description_from("{\"props\":{}}"), "");
    assert_eq!(
        description_from("{\"props\":{\"pageProps\":{\"jsonProgram\":{\"about\":{\"desc\":\"D\"}}}}}"),
        "D"
    );
    assert_eq!(
        description_from("{\"props\":{\"pageProps\":{\"jsonProgram\":{\"about\":{\"lead\":\"L\",\"desc\":5}}}}}"),
        "L"
    );
    assert_eq!(
        description_from("{\"props\":{\"pageProps\":{\"jsonProgram\":{\"about\":{\"lead\":\"\",\"desc\":\"a<br>b\\\\u003cbr\\\\u003ec\"}}}}}"),
        "a\nb\nc"
    );
}

#[test]
fn invalid_selector_is_reported() {
    match compile_selector("h1[") {
        Ok(_) => panic!("accepted an unfinished selector"),
        Err(e) => assert_eq!(e.selector, "h1["),
    }
    assert!(compile_selector("div.a > p").is_ok());
}
