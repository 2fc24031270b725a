use vstd::prelude::*;

use crate::coerce::{
    alternate_pairs, composed, compose_description, BLANK_LINE, count_at, count_entry, entry_or_empty,
    first_or_empty, flag_at, flag_or_false, list_at, list_entry, members, pair_admission_methods,
    pair_faq, pair_scholarships, pair_team, prefix, suffix, text_at, trim_each, trimmed_all,
    zipped,
};
use crate::payload::{leaf_or_empty, parse_json, text_at_path, text_leaves};
use crate::query::{
    compile_query, matched_attribute, matched_markup, option_view, parse_page, select_attribute,
    select_markup, selector_accepted, Page, Query,
};
use crate::record::{MasterProgram, ProgramManager, ProgramView, SocialLink, TextPair};
use crate::text::{contains_str, contains_text, replace_text, replaced, split_on, split_text, texts, trim_text, trimmed};

verus! {

pub const TITLE_SELECTOR: &'static str = "h1.Information_information__header__fab3I";
pub const SCRIPT_SELECTOR: &'static str = "script#__NEXT_DATA__";
pub const INSTITUTE_SELECTOR: &'static str = "a[href*='viewfaculty'] span";
pub const CARD_SELECTOR: &'static str = ".Information_card__text__txwcx";
pub const DIRECTION_NAME_SELECTOR: &'static str = ".Directions_table__name__CklG5";
pub const DIRECTION_CODE_SELECTOR: &'static str = ".Directions_table__header__qV8_J p";
pub const PLACES_SELECTOR: &'static str = ".Directions_table__places__RWYBT span";
pub const MANAGER_NAME_SELECTOR: &'static str = ".Information_manager__name__ecPmn div:nth-child(2)";
pub const MANAGER_EMAIL_SELECTOR: &'static str = "a[href^='mailto:']";
pub const MANAGER_PHONE_SELECTOR: &'static str = "a[href^='tel:']";
pub const SOCIAL_SELECTOR: &'static str = ".Information_socials__link___eN3E";
pub const EXAM_DATES_SELECTOR: &'static str = ".Information_entry__container__WYx9j h6";
pub const ACCORDION_TITLE_SELECTOR: &'static str = ".Accordion_accordion__title__tSP_0 h5";
pub const ACCORDION_INFO_SELECTOR: &'static str = ".Accordion_accordion__info__wkCQC div";
pub const CAREER_SELECTOR: &'static str = ".Career_career__container___st5X h5";
pub const TEAM_NAME_SELECTOR: &'static str = ".Team_team__name__q2R7T";
pub const TEAM_POSITION_SELECTOR: &'static str = ".Team_team__position__xB_og";
pub const SCHOLARSHIP_SELECTOR: &'static str =
    ".Scholarship_item__cowlU h5, .Scholarship_item__cowlU h4";

/// How many accordion entries at the top of the page are admission methods;
/// the entries after them are questions and answers.
pub const ADMISSION_METHOD_COUNT: usize = 7;

pub const PROPS_KEY: &'static str = "props";
pub const PAGE_PROPS_KEY: &'static str = "pageProps";
pub const PROGRAM_KEY: &'static str = "jsonProgram";
pub const ABOUT_KEY: &'static str = "about";
pub const LEAD_KEY: &'static str = "lead";
pub const DESC_KEY: &'static str = "desc";

pub const HREF: &'static str = "href";
pub const TAG_OPEN: &'static str = "<";
pub const LINE_BREAK_TAG: &'static str = "<br>";
pub const DOUBLE_LINE_BREAK_TAG: &'static str = "<br><br>";
pub const ESCAPED_LINE_BREAK_TAG: &'static str = "\\u003cbr\\u003e";
pub const NEWLINE: &'static str = "\n";

pub const SALARY_MARK: &'static str = "от 150 до 400+";
pub const SALARY_TEXT: &'static str =
    "от 150 до 400+ тысяч рублей в месяц через 1–3 года после окончания";

pub const PARTNER_BANK: &'static str = "Альфа-Банк";
pub const PARTNER_FUTURE: &'static str = "AlfaFuture";

pub const ABROAD_EVENTS: &'static str = "Образовательные мероприятия и стажировки для студентов";
pub const ABROAD_STUDY: &'static str = "Обучение за границей для студентов ИТМО";
pub const ABROAD_AT_HOME: &'static str = "Study Abroad at Home";
pub const ABROAD_BUDDY: &'static str = "Buddy System";
pub const ABROAD_GRANT: &'static str = "Конкурс стипендий Президента РФ для обучения за рубежом";

/// A selector of the rule set that scraper does not accept.
pub struct SelectorSyntaxError {
    pub selector: String,
}

/// Scraper accepts every selector of the rule set.
pub open spec fn rules_accepted() -> bool {
    &&& selector_accepted(TITLE_SELECTOR@)
    &&& selector_accepted(SCRIPT_SELECTOR@)
    &&& selector_accepted(INSTITUTE_SELECTOR@)
    &&& selector_accepted(CARD_SELECTOR@)
    &&& selector_accepted(DIRECTION_NAME_SELECTOR@)
    &&& selector_accepted(DIRECTION_CODE_SELECTOR@)
    &&& selector_accepted(PLACES_SELECTOR@)
    &&& selector_accepted(MANAGER_NAME_SELECTOR@)
    &&& selector_accepted(MANAGER_EMAIL_SELECTOR@)
    &&& selector_accepted(MANAGER_PHONE_SELECTOR@)
    &&& selector_accepted(SOCIAL_SELECTOR@)
    &&& selector_accepted(EXAM_DATES_SELECTOR@)
    &&& selector_accepted(ACCORDION_TITLE_SELECTOR@)
    &&& selector_accepted(ACCORDION_INFO_SELECTOR@)
    &&& selector_accepted(CAREER_SELECTOR@)
    &&& selector_accepted(TEAM_NAME_SELECTOR@)
    &&& selector_accepted(TEAM_POSITION_SELECTOR@)
    &&& selector_accepted(SCHOLARSHIP_SELECTOR@)
}

/// `s` is one of the selectors of the rule set.
pub open spec fn is_rule_selector(s: Seq<char>) -> bool {
    ||| s == TITLE_SELECTOR@
    ||| s == SCRIPT_SELECTOR@
    ||| s == INSTITUTE_SELECTOR@
    ||| s == CARD_SELECTOR@
    ||| s == DIRECTION_NAME_SELECTOR@
    ||| s == DIRECTION_CODE_SELECTOR@
    ||| s == PLACES_SELECTOR@
    ||| s == MANAGER_NAME_SELECTOR@
    ||| s == MANAGER_EMAIL_SELECTOR@
    ||| s == MANAGER_PHONE_SELECTOR@
    ||| s == SOCIAL_SELECTOR@
    ||| s == EXAM_DATES_SELECTOR@
    ||| s == ACCORDION_TITLE_SELECTOR@
    ||| s == ACCORDION_INFO_SELECTOR@
    ||| s == CAREER_SELECTOR@
    ||| s == TEAM_NAME_SELECTOR@
    ||| s == TEAM_POSITION_SELECTOR@
    ||| s == SCHOLARSHIP_SELECTOR@
}

/// The trimmed inner markup of every match of `sel` in `src`.
pub open spec fn match_texts(src: Seq<char>, sel: Seq<char>) -> Seq<Seq<char>> {
    trimmed_all(matched_markup(src, sel))
}

/// The trimmed inner markup of the first match of `sel` in `src`, or the empty string.
pub open spec fn first_match_text(src: Seq<char>, sel: Seq<char>) -> Seq<char> {
    first_or_empty(match_texts(src, sel))
}

/// The path from the root of the embedded payload to the leaf `leaf` of the
/// program's "about" section.
pub open spec fn about_path(leaf: Seq<char>) -> Seq<Seq<char>> {
    seq![PROPS_KEY@, PAGE_PROPS_KEY@, PROGRAM_KEY@, ABOUT_KEY@, leaf]
}

/// The string leaves of the embedded payload; none where it is empty or no JSON.
pub open spec fn payload_leaves(script: Seq<char>) -> Map<Seq<Seq<char>>, Seq<char>> {
    if script.len() == 0 {
        Map::empty()
    } else {
        match text_leaves(script) {
            Some(m) => m.0,
            None => Map::empty(),
        }
    }
}

/// Both spellings of a line-break tag turned into a newline.
pub open spec fn breaks_normalized(d: Seq<char>) -> Seq<char> {
    replaced(replaced(d, LINE_BREAK_TAG@, NEWLINE@), ESCAPED_LINE_BREAK_TAG@, NEWLINE@)
}

/// The description read from the embedded payload whose text is `script`.
pub open spec fn description_of(script: Seq<char>) -> Seq<char> {
    let m = payload_leaves(script);
    composed(
        leaf_or_empty(m, about_path(LEAD_KEY@)),
        breaks_normalized(leaf_or_empty(m, about_path(DESC_KEY@))),
    )
}

/// The trimmed text before the first tag in `m`.
pub open spec fn before_tag(m: Seq<char>) -> Seq<char> {
    trimmed(split_on(m, TAG_OPEN@)[0])
}

/// The link read from one element: where it has a target and a non-empty
/// platform name, that pair; else nothing.
pub open spec fn social_entry(m: Seq<char>, href: Option<Seq<char>>) -> Seq<TextPair> {
    match href {
        Some(u) => if before_tag(m).len() > 0 {
            seq![(before_tag(m), u)]
        } else {
            Seq::empty()
        },
        None => Seq::empty(),
    }
}

/// The links read from the first `n` elements.
pub open spec fn social_links_upto(ms: Seq<Seq<char>>, hs: Seq<Option<Seq<char>>>, n: nat) -> Seq<
    TextPair,
>
    decreases n,
{
    if n == 0 {
        Seq::empty()
    } else {
        social_links_upto(ms, hs, (n - 1) as nat) + social_entry(ms[n - 1], hs[n - 1])
    }
}

/// The links read from the elements with markup `ms` and targets `hs`.
pub open spec fn social_links_of(ms: Seq<Seq<char>>, hs: Seq<Option<Seq<char>>>) -> Seq<TextPair> {
    social_links_upto(ms, hs, ms.len())
}

/// The career text: the first match, trimmed, with line-break tags turned into newlines.
pub open spec fn career_of(ms: Seq<Seq<char>>) -> Seq<char> {
    if ms.len() > 0 {
        replaced(
            replaced(trimmed(ms[0]), LINE_BREAK_TAG@, NEWLINE@),
            DOUBLE_LINE_BREAK_TAG@,
            BLANK_LINE@,
        )
    } else {
        Seq::empty()
    }
}

/// The salary line: the known figure where the career text names it, else empty.
pub open spec fn salary_of(career: Seq<char>) -> Seq<char> {
    if contains_text(career, SALARY_MARK@) {
        SALARY_TEXT@
    } else {
        Seq::empty()
    }
}

pub open spec fn partners_list() -> Seq<Seq<char>> {
    seq![PARTNER_BANK@, PARTNER_FUTURE@]
}

pub open spec fn international_list() -> Seq<Seq<char>> {
    seq![ABROAD_EVENTS@, ABROAD_STUDY@, ABROAD_AT_HOME@, ABROAD_BUDDY@, ABROAD_GRANT@]
}

/// The record that the page with text `src` yields.
pub open spec fn program_model(src: Seq<char>) -> ProgramView {
    let cards = match_texts(src, CARD_SELECTOR@);
    let places = match_texts(src, PLACES_SELECTOR@);
    let titles = match_texts(src, ACCORDION_TITLE_SELECTOR@);
    let infos = match_texts(src, ACCORDION_INFO_SELECTOR@);
    let career = career_of(matched_markup(src, CAREER_SELECTOR@));
    let skip = ADMISSION_METHOD_COUNT as int;
    ProgramView {
        title: first_match_text(src, TITLE_SELECTOR@),
        description: description_of(first_or_empty(matched_markup(src, SCRIPT_SELECTOR@))),
        institute: first_match_text(src, INSTITUTE_SELECTOR@),
        study_form: entry_or_empty(cards, 0),
        duration: entry_or_empty(cards, 1),
        language: entry_or_empty(cards, 2),
        cost: entry_or_empty(cards, 3),
        dormitory: flag_or_false(cards, 4),
        military_center: flag_or_false(cards, 5),
        accreditation: flag_or_false(cards, 6),
        special_programs: list_entry(cards, 7),
        direction_code: first_match_text(src, DIRECTION_CODE_SELECTOR@),
        direction_name: first_match_text(src, DIRECTION_NAME_SELECTOR@),
        budget_places: count_entry(places, 0),
        target_places: count_entry(places, 1),
        contract_places: count_entry(places, 2),
        manager: (
            first_match_text(src, MANAGER_NAME_SELECTOR@),
            first_match_text(src, MANAGER_EMAIL_SELECTOR@),
            first_match_text(src, MANAGER_PHONE_SELECTOR@),
        ),
        social_links: social_links_of(
            matched_markup(src, SOCIAL_SELECTOR@),
            matched_attribute(src, SOCIAL_SELECTOR@, HREF@),
        ),
        exam_dates: match_texts(src, EXAM_DATES_SELECTOR@),
        admission_methods: zipped(prefix(titles, skip), prefix(infos, skip)),
        career_opportunities: career,
        average_salary: salary_of(career),
        team: members(
            matched_markup(src, TEAM_NAME_SELECTOR@).map_values(|m: Seq<char>| before_tag(m)),
            match_texts(src, TEAM_POSITION_SELECTOR@),
        ),
        partners: partners_list(),
        scholarships: alternate_pairs(match_texts(src, SCHOLARSHIP_SELECTOR@)),
        international_opportunities: international_list(),
        faq: zipped(suffix(titles, skip), suffix(infos, skip)),
    }
}

/// The compiled selectors of every field.
pub struct ExtractionRules {
    title: Query,
    script: Query,
    institute: Query,
    card: Query,
    direction_name: Query,
    direction_code: Query,
    places: Query,
    manager_name: Query,
    manager_email: Query,
    manager_phone: Query,
    social: Query,
    exam_dates: Query,
    accordion_title: Query,
    accordion_info: Query,
    career: Query,
    team_name: Query,
    team_position: Query,
    scholarship: Query,
}

/// Compiles one selector group; the error names it where scraper rejects it.
pub fn compile_selector(text: &str) -> (r: Result<Query, SelectorSyntaxError>)
    ensures
        r matches Ok(q) ==> q.text() == text@ && selector_accepted(text@),
        r matches Err(e) ==> e.selector@ == text@ && !selector_accepted(text@),
{
    match compile_query(text) {
        Some(q) => Ok(q),
        None => Err(SelectorSyntaxError { selector: text.to_owned() }),
    }
}

fn first_text(page: &Page, q: &Query) -> (r: String)
    ensures
        r@ == first_match_text(page.source(), q.text()),
{
    let ms = select_markup(page, q);
    if ms.len() > 0 {
        trim_text(ms[0].as_str())
    } else {
        String::new()
    }
}

fn all_texts(page: &Page, q: &Query) -> (r: Vec<String>)
    ensures
        texts(r@) == match_texts(page.source(), q.text()),
{
    let ms = select_markup(page, q);
    trim_each(&ms)
}

fn text_before_tag(m: &str) -> (r: String)
    ensures
        r@ == before_tag(m@),
{
    proof {
        reveal_strlit("<");
    }
    let pieces = split_text(m, TAG_OPEN);
    trim_text(pieces[0].as_str())
}

/// The description read from the text of the embedded payload.
pub fn description_from(script: &str) -> (r: String)
    ensures
        r@ == description_of(script@),
{
    let mut lead_path: Vec<&str> = Vec::new();
    lead_path.push(PROPS_KEY);
    lead_path.push(PAGE_PROPS_KEY);
    lead_path.push(PROGRAM_KEY);
    lead_path.push(ABOUT_KEY);
    let mut desc_path = lead_path.clone();
    lead_path.push(LEAD_KEY);
    desc_path.push(DESC_KEY);
    assert(lead_path@.map_values(|k: &str| k@) =~= about_path(LEAD_KEY@));
    assert(desc_path@.map_values(|k: &str| k@) =~= about_path(DESC_KEY@));
    let mut lead = String::new();
    let mut raw = String::new();
    if !script.is_empty() {
        match parse_json(script) {
            Some(v) => {
                lead = text_at_path(&v, &lead_path);
                raw = text_at_path(&v, &desc_path);
            },
            None => {},
        }
    }
    proof {
        reveal_strlit("<br>");
        reveal_strlit("\\u003cbr\\u003e");
    }
    let once = replace_text(raw.as_str(), LINE_BREAK_TAG, NEWLINE);
    let body = replace_text(once.as_str(), ESCAPED_LINE_BREAK_TAG, NEWLINE);
    compose_description(lead.as_str(), body.as_str())
}

/// The career text read from the matches of its selector.
pub fn career_from(markups: &Vec<String>) -> (r: String)
    ensures
        r@ == career_of(texts(markups@)),
{
    if markups.len() > 0 {
        proof {
            reveal_strlit("<br>");
            reveal_strlit("<br><br>");
        }
        let t = trim_text(markups[0].as_str());
        let once = replace_text(t.as_str(), LINE_BREAK_TAG, NEWLINE);
        replace_text(once.as_str(), DOUBLE_LINE_BREAK_TAG, BLANK_LINE)
    } else {
        String::new()
    }
}

/// The salary line for a career text.
pub fn salary_from(career: &str) -> (r: String)
    ensures
        r@ == salary_of(career@),
{
    if contains_str(career, SALARY_MARK) {
        SALARY_TEXT.to_owned()
    } else {
        String::new()
    }
}

/// The links read from elements with markup `markups` and targets `targets`.
pub fn social_links_from(markups: &Vec<String>, targets: &Vec<Option<String>>) -> (r: Vec<SocialLink>)
    requires
        markups@.len() == targets@.len(),
    ensures
        r@.map_values(|l: SocialLink| l@) == social_links_of(
            texts(markups@),
            targets@.map_values(|a: Option<String>| option_view(a)),
        ),
{
    let ghost ms = texts(markups@);
    let ghost hs = targets@.map_values(|a: Option<String>| option_view(a));
    let mut out: Vec<SocialLink> = Vec::new();
    let mut i: usize = 0;
    while i < markups.len()
        invariant
            i <= markups@.len(),
            markups@.len() == targets@.len(),
            ms == texts(markups@),
            hs == targets@.map_values(|a: Option<String>| option_view(a)),
            out@.map_values(|l: SocialLink| l@) == social_links_upto(ms, hs, i as nat),
        decreases markups.len() - i,
    {
        let ghost before = out@.map_values(|l: SocialLink| l@);
        let platform = text_before_tag(markups[i].as_str());
        match &targets[i] {
            Some(u) => {
                if !platform.as_str().is_empty() {
                    let link = SocialLink { platform, url: u.clone() };
                    let ghost added = link@;
                    out.push(link);
                    assert(out@.map_values(|l: SocialLink| l@) =~= before.push(added));
                    assert(seq![added] =~= social_entry(ms[i as int], hs[i as int]));
                } else {
                    assert(social_entry(ms[i as int], hs[i as int]) =~= Seq::<TextPair>::empty());
                }
            },
            None => {
                assert(social_entry(ms[i as int], hs[i as int]) =~= Seq::<TextPair>::empty());
            },
        }
        assert(social_links_upto(ms, hs, (i + 1) as nat) == social_links_upto(ms, hs, i as nat)
            + social_entry(ms[i as int], hs[i as int]));
        assert(out@.map_values(|l: SocialLink| l@) =~= social_links_upto(ms, hs, (i + 1) as nat));
        i += 1;
    }
    out
}

/// The names of the team, each the trimmed text before its first tag.
pub fn team_names_from(markups: &Vec<String>) -> (r: Vec<String>)
    ensures
        texts(r@) == texts(markups@).map_values(|m: Seq<char>| before_tag(m)),
{
    let mut out: Vec<String> = Vec::new();
    let mut k: usize = 0;
    while k < markups.len()
        invariant
            k <= markups@.len(),
            texts(out@) == texts(markups@).map_values(|m: Seq<char>| before_tag(m)).subrange(
                0,
                k as int,
            ),
        decreases markups.len() - k,
    {
        let name = text_before_tag(markups[k].as_str());
        let ghost before = texts(out@);
        let ghost added = name@;
        out.push(name);
        assert(texts(out@) =~= before.push(added));
        assert(texts(out@) =~= texts(markups@).map_values(|m: Seq<char>| before_tag(m)).subrange(
            0,
            k + 1,
        ));
        k += 1;
    }
    assert(texts(markups@).map_values(|m: Seq<char>| before_tag(m)).subrange(
        0,
        markups@.len() as int,
    ) =~= texts(markups@).map_values(|m: Seq<char>| before_tag(m)));
    out
}

fn fixed_list_partners() -> (r: Vec<String>)
    ensures
        texts(r@) == partners_list(),
{
    let mut v: Vec<String> = Vec::new();
    v.push(PARTNER_BANK.to_owned());
    v.push(PARTNER_FUTURE.to_owned());
    assert(texts(v@) =~= partners_list());
    v
}

fn fixed_list_international() -> (r: Vec<String>)
    ensures
        texts(r@) == international_list(),
{
    let mut v: Vec<String> = Vec::new();
    v.push(ABROAD_EVENTS.to_owned());
    v.push(ABROAD_STUDY.to_owned());
    v.push(ABROAD_AT_HOME.to_owned());
    v.push(ABROAD_BUDDY.to_owned());
    v.push(ABROAD_GRANT.to_owned());
    assert(texts(v@) =~= international_list());
    v
}

impl ExtractionRules {
    /// Each query holds the selector of its field.
    pub closed spec fn wf(&self) -> bool {
        &&& self.title.text() == TITLE_SELECTOR@
        &&& self.script.text() == SCRIPT_SELECTOR@
        &&& self.institute.text() == INSTITUTE_SELECTOR@
        &&& self.card.text() == CARD_SELECTOR@
        &&& self.direction_name.text() == DIRECTION_NAME_SELECTOR@
        &&& self.direction_code.text() == DIRECTION_CODE_SELECTOR@
        &&& self.places.text() == PLACES_SELECTOR@
        &&& self.manager_name.text() == MANAGER_NAME_SELECTOR@
        &&& self.manager_email.text() == MANAGER_EMAIL_SELECTOR@
        &&& self.manager_phone.text() == MANAGER_PHONE_SELECTOR@
        &&& self.social.text() == SOCIAL_SELECTOR@
        &&& self.exam_dates.text() == EXAM_DATES_SELECTOR@
        &&& self.accordion_title.text() == ACCORDION_TITLE_SELECTOR@
        &&& self.accordion_info.text() == ACCORDION_INFO_SELECTOR@
        &&& self.career.text() == CAREER_SELECTOR@
        &&& self.team_name.text() == TEAM_NAME_SELECTOR@
        &&& self.team_position.text() == TEAM_POSITION_SELECTOR@
        &&& self.scholarship.text() == SCHOLARSHIP_SELECTOR@
    }

    /// Compiles every selector of the rule set; fails on the first one that
    /// scraper does not accept.
    pub fn compile() -> (r: Result<ExtractionRules, SelectorSyntaxError>)
        ensures
            r is Ok <==> rules_accepted(),
            r matches Ok(rules) ==> rules.wf(),
            r matches Err(e) ==> is_rule_selector(e.selector@) && !selector_accepted(e.selector@),
    {
        let title = match compile_selector(TITLE_SELECTOR) { Ok(q) => q, Err(e) => return Err(e) };
        let script = match compile_selector(SCRIPT_SELECTOR) { Ok(q) => q, Err(e) => return Err(e) };
        let institute = match compile_selector(INSTITUTE_SELECTOR) { Ok(q) => q, Err(e) => return Err(e) };
        let card = match compile_selector(CARD_SELECTOR) { Ok(q) => q, Err(e) => return Err(e) };
        let direction_name = match compile_selector(DIRECTION_NAME_SELECTOR) { Ok(q) => q, Err(e) => return Err(e) };
        let direction_code = match compile_selector(DIRECTION_CODE_SELECTOR) { Ok(q) => q, Err(e) => return Err(e) };
        let places = match compile_selector(PLACES_SELECTOR) { Ok(q) => q, Err(e) => return Err(e) };
        let manager_name = match compile_selector(MANAGER_NAME_SELECTOR) { Ok(q) => q, Err(e) => return Err(e) };
        let manager_email = match compile_selector(MANAGER_EMAIL_SELECTOR) { Ok(q) => q, Err(e) => return Err(e) };
        let manager_phone = match compile_selector(MANAGER_PHONE_SELECTOR) { Ok(q) => q, Err(e) => return Err(e) };
        let social = match compile_selector(SOCIAL_SELECTOR) { Ok(q) => q, Err(e) => return Err(e) };
        let exam_dates = match compile_selector(EXAM_DATES_SELECTOR) { Ok(q) => q, Err(e) => return Err(e) };
        let accordion_title = match compile_selector(ACCORDION_TITLE_SELECTOR) { Ok(q) => q, Err(e) => return Err(e) };
        let accordion_info = match compile_selector(ACCORDION_INFO_SELECTOR) { Ok(q) => q, Err(e) => return Err(e) };
        let career = match compile_selector(CAREER_SELECTOR) { Ok(q) => q, Err(e) => return Err(e) };
        let team_name = match compile_selector(TEAM_NAME_SELECTOR) { Ok(q) => q, Err(e) => return Err(e) };
        let team_position = match compile_selector(TEAM_POSITION_SELECTOR) { Ok(q) => q, Err(e) => return Err(e) };
        let scholarship = match compile_selector(SCHOLARSHIP_SELECTOR) { Ok(q) => q, Err(e) => return Err(e) };
        Ok(ExtractionRules {
            title,
            script,
            institute,
            card,
            direction_name,
            direction_code,
            places,
            manager_name,
            manager_email,
            manager_phone,
            social,
            exam_dates,
            accordion_title,
            accordion_info,
            career,
            team_name,
            team_position,
            scholarship,
        })
    }

    /// Reads every field of the record from the page.
    pub fn extract(&self, page: &Page) -> (r: MasterProgram)
        requires
            self.wf(),
        ensures
            r@ == program_model(page.source()),
    {
        let title = first_text(page, &self.title);
        let scripts = select_markup(page, &self.script);
        proof {
            reveal_strlit("");
        }
        let description = if scripts.len() > 0 {
            description_from(scripts[0].as_str())
        } else {
            description_from("")
        };
        let institute = first_text(page, &self.institute);
        let cards = all_texts(page, &self.card);
        let places = all_texts(page, &self.places);
        let manager = ProgramManager {
            name: first_text(page, &self.manager_name),
            email: first_text(page, &self.manager_email),
            phone: first_text(page, &self.manager_phone),
        };
        let social_markup = select_markup(page, &self.social);
        let social_targets = select_attribute(page, &self.social, HREF);
        let social_links = social_links_from(&social_markup, &social_targets);
        let exam_dates = all_texts(page, &self.exam_dates);
        let titles = all_texts(page, &self.accordion_title);
        let infos = all_texts(page, &self.accordion_info);
        let career_markup = select_markup(page, &self.career);
        let career_opportunities = career_from(&career_markup);
        let average_salary = salary_from(career_opportunities.as_str());
        let name_markup = select_markup(page, &self.team_name);
        let names = team_names_from(&name_markup);
        let positions = all_texts(page, &self.team_position);
        let team = pair_team(&names, &positions);
        let scholarship_texts = all_texts(page, &self.scholarship);
        MasterProgram {
            title,
            description,
            institute,
            study_form: text_at(&cards, 0),
            duration: text_at(&cards, 1),
            language: text_at(&cards, 2),
            cost: text_at(&cards, 3),
            dormitory: flag_at(&cards, 4),
            military_center: flag_at(&cards, 5),
            accreditation: flag_at(&cards, 6),
            special_programs: list_at(&cards, 7),
            direction_code: first_text(page, &self.direction_code),
            direction_name: first_text(page, &self.direction_name),
            budget_places: count_at(&places, 0),
            target_places: count_at(&places, 1),
            contract_places: count_at(&places, 2),
            manager,
            social_links,
            exam_dates,
            admission_methods: pair_admission_methods(&titles, &infos, ADMISSION_METHOD_COUNT),
            career_opportunities,
            average_salary,
            team,
            partners: fixed_list_partners(),
            scholarships: pair_scholarships(&scholarship_texts),
            international_opportunities: fixed_list_international(),
            faq: pair_faq(&titles, &infos, ADMISSION_METHOD_COUNT),
        }
    }
}

/// Reads the record of a master's program from the text of its HTML page.
/// Fails only where scraper rejects a selector of the rule set.
pub fn parse_master_program_html(html_content: &str) -> (r: Result<MasterProgram, SelectorSyntaxError>)
    ensures
        r is Ok <==> rules_accepted(),
        r matches Ok(p) ==> p@ == program_model(html_content@),
        r matches Err(e) ==> is_rule_selector(e.selector@) && !selector_accepted(e.selector@),
{
    let rules = match ExtractionRules::compile() {
        Ok(rules) => rules,
        Err(e) => return Err(e),
    };
    let page = parse_page(html_content);
    Ok(rules.extract(&page))
}

} // verus!
