use vstd::prelude::*;

use crate::coerce::prefix;
use crate::text::{concat_text, contains_str, contains_text, join_texts, joined, lower_of, lower_text, texts};

verus! {

/// The highest score a course can get: two points for each keyword.
pub const MAX_SCORE: u32 = 46;

/// A master's program as the assistant knows it: its page, its courses and,
/// once read, its record as JSON text.
pub struct Program {
    pub url: String,
    pub courses: Vec<String>,
    pub info: Option<String>,
}

/// The subject keywords that make a course relevant to a question.
pub open spec fn keyword_list() -> Seq<Seq<char>> {
    seq![
        "машинное обучение"@,
        "ml"@,
        "deep learning"@,
        "глубокое обучение"@,
        "python"@,
        "данные"@,
        "data"@,
        "нейронные сети"@,
        "neural"@,
        "ai"@,
        "ии"@,
        "статистика"@,
        "математика"@,
        "алгоритм"@,
        "веб"@,
        "web"@,
        "база данных"@,
        "database"@,
        "визуализация"@,
        "nlp"@,
        "обработка текста"@,
        "изображения"@,
        "gpu"@,
    ]
}

/// The points one keyword gives a course (both texts in lower case): two
/// where both name the keyword, else one where either text holds the other,
/// else none.
pub open spec fn keyword_points(user: Seq<char>, course: Seq<char>, kw: Seq<char>) -> nat {
    if contains_text(user, kw) && contains_text(course, kw) {
        2
    } else if contains_text(course, user) || contains_text(user, course) {
        1
    } else {
        0
    }
}

/// The points of the first `n` keywords.
pub open spec fn points_upto(user: Seq<char>, course: Seq<char>, n: nat) -> nat
    decreases n,
{
    if n == 0 {
        0
    } else {
        points_upto(user, course, (n - 1) as nat) + keyword_points(
            user,
            course,
            keyword_list()[n - 1],
        )
    }
}

/// The relevance of a course to a question, compared in lower case.
pub open spec fn course_score(user: Seq<char>, course: Seq<char>) -> nat {
    points_upto(lower_of(user), lower_of(course), keyword_list().len())
}

/// The first `n` courses whose score is `k`, in their order.
pub open spec fn scored_upto(cs: Seq<Seq<char>>, user: Seq<char>, k: nat, n: nat) -> Seq<Seq<char>>
    decreases n,
{
    if n == 0 {
        Seq::empty()
    } else {
        let sub = scored_upto(cs, user, k, (n - 1) as nat);
        if course_score(user, cs[n - 1]) == k {
            sub.push(cs[n - 1])
        } else {
            sub
        }
    }
}

/// The courses with score `k`, in their order.
pub open spec fn scored(cs: Seq<Seq<char>>, user: Seq<char>, k: nat) -> Seq<Seq<char>> {
    scored_upto(cs, user, k, cs.len())
}

/// The courses with score `k` or lower, highest scores first, each score's
/// courses in their order.
pub open spec fn ranked_from(cs: Seq<Seq<char>>, user: Seq<char>, k: int) -> Seq<Seq<char>>
    decreases k + 1,
{
    if k < 0 {
        Seq::empty()
    } else {
        scored(cs, user, k as nat) + ranked_from(cs, user, k - 1)
    }
}

/// The courses ordered by score, highest first; equal scores keep their order.
pub open spec fn ranked(cs: Seq<Seq<char>>, user: Seq<char>) -> Seq<Seq<char>> {
    ranked_from(cs, user, MAX_SCORE as int)
}

fn course_keywords() -> (r: Vec<&'static str>)
    ensures
        r@.map_values(|k: &str| k@) == keyword_list(),
{
    let mut v: Vec<&'static str> = Vec::new();
    v.push("машинное обучение");
    v.push("ml");
    v.push("deep learning");
    v.push("глубокое обучение");
    v.push("python");
    v.push("данные");
    v.push("data");
    v.push("нейронные сети");
    v.push("neural");
    v.push("ai");
    v.push("ии");
    v.push("статистика");
    v.push("математика");
    v.push("алгоритм");
    v.push("веб");
    v.push("web");
    v.push("база данных");
    v.push("database");
    v.push("визуализация");
    v.push("nlp");
    v.push("обработка текста");
    v.push("изображения");
    v.push("gpu");
    assert(v@.map_values(|k: &str| k@) =~= keyword_list());
    v
}

/// The relevance of a course to a question.
pub fn score_course(user_text: &str, course: &str) -> (r: u32)
    ensures
        r as nat == course_score(user_text@, course@),
        r <= MAX_SCORE,
{
    let user = lower_text(user_text);
    let name = lower_text(course);
    let kws = course_keywords();
    let ghost u = user@;
    let ghost c = name@;
    assert(kws@.map_values(|k: &str| k@).len() == 23);
    let mut score: u32 = 0;
    let mut j: usize = 0;
    while j < kws.len()
        invariant
            j <= kws@.len(),
            kws@.len() == 23,
            kws@.map_values(|k: &str| k@) == keyword_list(),
            u == user@,
            c == name@,
            score as nat == points_upto(u, c, j as nat),
            score <= 2 * j,
        decreases kws.len() - j,
    {
        let kw = kws[j];
        assert(kw@ == keyword_list()[j as int]);
        if contains_str(user.as_str(), kw) && contains_str(name.as_str(), kw) {
            score = score + 2;
        } else if contains_str(name.as_str(), user.as_str()) || contains_str(
            user.as_str(),
            name.as_str(),
        ) {
            score = score + 1;
        }
        j += 1;
    }
    score
}

/// Up to `max_courses` of the program's courses, most relevant to the
/// question first; courses of equal relevance keep their order.
pub fn get_relevant_courses(program: &Program, user_text: &str, max_courses: usize) -> (r: Vec<
    String,
>)
    ensures
        texts(r@) == prefix(ranked(texts(program.courses@), user_text@), max_courses as int),
{
    let courses = &program.courses;
    let ghost cs = texts(courses@);
    let ghost u = user_text@;
    let n = courses.len();
    let mut scores: Vec<u32> = Vec::new();
    let mut i: usize = 0;
    while i < n
        invariant
            i <= n,
            n == courses@.len(),
            cs == texts(courses@),
            u == user_text@,
            scores@.len() == i,
            forall|m: int| 0 <= m < i ==> #[trigger] scores@[m] as nat == course_score(u, cs[m]),
        decreases n - i,
    {
        let s = score_course(user_text, courses[i].as_str());
        scores.push(s);
        i += 1;
    }
    let mut order: Vec<String> = Vec::new();
    let mut k: u32 = MAX_SCORE + 1;
    while k > 0
        invariant
            k <= MAX_SCORE + 1,
            n == courses@.len(),
            cs == texts(courses@),
            u == user_text@,
            scores@.len() == n,
            forall|m: int| 0 <= m < n ==> #[trigger] scores@[m] as nat == course_score(u, cs[m]),
            texts(order@) + ranked_from(cs, u, k - 1) == ranked(cs, u),
        decreases k,
    {
        let ghost before = texts(order@);
        let mut i: usize = 0;
        while i < n
            invariant
                i <= n,
                0 < k <= MAX_SCORE + 1,
                n == courses@.len(),
                cs == texts(courses@),
                scores@.len() == n,
                forall|m: int| 0 <= m < n ==> #[trigger] scores@[m] as nat == course_score(u, cs[m]),
                texts(order@) == before + scored_upto(cs, u, (k - 1) as nat, i as nat),
            decreases n - i,
        {
            if scores[i] == k - 1 {
                let ghost prev = texts(order@);
                let c = courses[i].clone();
                let ghost added = c@;
                order.push(c);
                assert(texts(order@) =~= prev.push(added));
                assert(scored_upto(cs, u, (k - 1) as nat, (i + 1) as nat) == scored_upto(
                    cs,
                    u,
                    (k - 1) as nat,
                    i as nat,
                ).push(cs[i as int]));
                assert(texts(order@) =~= before + scored_upto(cs, u, (k - 1) as nat, (i + 1) as nat));
            }
            i += 1;
        }
        assert(ranked_from(cs, u, k - 1) == scored(cs, u, (k - 1) as nat) + ranked_from(
            cs,
            u,
            k - 2,
        ));
        assert(before + (scored(cs, u, (k - 1) as nat) + ranked_from(cs, u, k - 2)) =~= texts(order@)
            + ranked_from(cs, u, k - 2));
        k -= 1;
    }
    assert(texts(order@) =~= ranked(cs, u));
    let mut out: Vec<String> = Vec::new();
    let mut t: usize = 0;
    while t < order.len() && t < max_courses
        invariant
            t <= order@.len(),
            t <= max_courses,
            texts(out@) == texts(order@).subrange(0, t as int),
        decreases order.len() - t,
    {
        let ghost prev = texts(out@);
        let c = order[t].clone();
        let ghost added = c@;
        out.push(c);
        assert(texts(out@) =~= prev.push(added));
        assert(texts(out@) =~= texts(order@).subrange(0, t + 1));
        t += 1;
    }
    assert(texts(out@) =~= prefix(texts(order@), max_courses as int));
    out
}

/// Words in a question that point to the AI Product program.
pub open spec fn product_markers() -> Seq<Seq<char>> {
    seq!["ai product"@, "ai-продукт"@, "ai product"@, "продукт"@, "Управление"@]
}

/// Words in a question that point to the AI program.
pub open spec fn ai_markers() -> Seq<Seq<char>> {
    seq![
        "ai"@,
        "искусственный интеллект"@,
        "машинное обучение"@,
        "глубокое обучение"@,
        "нейронные сети"@,
    ]
}

/// The text holds one of the markers.
pub open spec fn mentions_any(text: Seq<char>, markers: Seq<Seq<char>>) -> bool {
    exists|i: int| 0 <= i < markers.len() && contains_text(text, #[trigger] markers[i])
}

fn mentions(text: &str, markers: &Vec<&'static str>) -> (r: bool)
    ensures
        r == mentions_any(text@, markers@.map_values(|k: &str| k@)),
{
    let ghost ms = markers@.map_values(|k: &str| k@);
    let mut i: usize = 0;
    while i < markers.len()
        invariant
            i <= markers@.len(),
            ms == markers@.map_values(|k: &str| k@),
            forall|j: int| 0 <= j < i ==> !contains_text(text@, #[trigger] ms[j]),
        decreases markers.len() - i,
    {
        if contains_str(text, markers[i]) {
            assert(contains_text(text@, ms[i as int]));
            return true;
        }
        i += 1;
    }
    false
}

/// Whether the question, in lower case, points to the AI Product program.
pub fn asks_about_ai_product(user_text: &str) -> (r: bool)
    ensures
        r == mentions_any(lower_of(user_text@), product_markers()),
{
    let lower = lower_text(user_text);
    let mut markers: Vec<&'static str> = Vec::new();
    markers.push("ai product");
    markers.push("ai-продукт");
    markers.push("ai product");
    markers.push("продукт");
    markers.push("Управление");
    assert(markers@.map_values(|k: &str| k@) =~= product_markers());
    mentions(lower.as_str(), &markers)
}

/// Whether the question, in lower case, points to the AI program.
pub fn asks_about_ai(user_text: &str) -> (r: bool)
    ensures
        r == mentions_any(lower_of(user_text@), ai_markers()),
{
    let lower = lower_text(user_text);
    let mut markers: Vec<&'static str> = Vec::new();
    markers.push("ai");
    markers.push("искусственный интеллект");
    markers.push("машинное обучение");
    markers.push("глубокое обучение");
    markers.push("нейронные сети");
    assert(markers@.map_values(|k: &str| k@) =~= ai_markers());
    mentions(lower.as_str(), &markers)
}

/// Which program a question is about.
pub enum Topic {
    /// Both programs, or neither: the answer speaks of both.
    Both,
    AiProduct,
    Ai,
}

/// The topic of a question: one program where exactly one is pointed to,
/// else both.
pub fn topic_of(user_text: &str) -> (r: Topic)
    ensures
        ({
            let p = mentions_any(lower_of(user_text@), product_markers());
            let a = mentions_any(lower_of(user_text@), ai_markers());
            &&& (r is Both <==> p == a)
            &&& (r is AiProduct <==> p && !a)
            &&& (r is Ai <==> a && !p)
        }),
{
    let p = asks_about_ai_product(user_text);
    let a = asks_about_ai(user_text);
    if p == a {
        Topic::Both
    } else if p {
        Topic::AiProduct
    } else {
        Topic::Ai
    }
}

/// How many courses a fallback answer names at most.
pub const FALLBACK_COURSES: usize = 3;

pub const PRODUCT_FALLBACK_HEAD: &'static str = "AI Product программа. Релевантные курсы: ";
pub const PRODUCT_FALLBACK_COURSES: &'static str = "программирование, ML, продуктовая разработка";
pub const AI_FALLBACK_HEAD: &'static str = "AI программа. Релевантные курсы: ";
pub const AI_FALLBACK_COURSES: &'static str = "машинное обучение, глубокое обучение, Python";
pub const COURSE_SEPARATOR: &'static str = ", ";

/// The courses named, or the stock list where there are none.
pub open spec fn course_line(courses: Seq<Seq<char>>, stock: Seq<char>) -> Seq<char> {
    if courses.len() == 0 {
        stock
    } else {
        joined(courses, COURSE_SEPARATOR@)
    }
}

/// The answer for a question about `program` when the chat service cannot give one.
pub open spec fn fallback_of(program: Seq<Seq<char>>, user: Seq<char>, head: Seq<char>, stock: Seq<
    char,
>) -> Seq<char> {
    head + course_line(prefix(ranked(program, user), FALLBACK_COURSES as int), stock)
}

fn fallback_for(program: &Program, user_text: &str, head: &str, stock: &str) -> (r: String)
    ensures
        r@ == fallback_of(texts(program.courses@), user_text@, head@, stock@),
{
    let courses = get_relevant_courses(program, user_text, FALLBACK_COURSES);
    let line = if courses.len() == 0 {
        stock.to_owned()
    } else {
        join_texts(&courses, COURSE_SEPARATOR)
    };
    concat_text(head, line.as_str())
}

/// The answer given when the chat service fails: the courses of the program
/// the question points to (AI Product before AI) most relevant to it, or
/// `None` where it points to neither.
pub fn fallback_answer(user_text: &str, ai: &Program, ai_product: &Program) -> (r: Option<String>)
    ensures
        ({
            let u = user_text@;
            let p = mentions_any(lower_of(u), product_markers());
            let a = mentions_any(lower_of(u), ai_markers());
            &&& (p ==> (r matches Some(t) && t@ == fallback_of(
                texts(ai_product.courses@),
                u,
                PRODUCT_FALLBACK_HEAD@,
                PRODUCT_FALLBACK_COURSES@,
            )))
            &&& (!p && a ==> (r matches Some(t) && t@ == fallback_of(
                texts(ai.courses@),
                u,
                AI_FALLBACK_HEAD@,
                AI_FALLBACK_COURSES@,
            )))
            &&& (!p && !a ==> r is None)
        }),
{
    if asks_about_ai_product(user_text) {
        Some(fallback_for(ai_product, user_text, PRODUCT_FALLBACK_HEAD, PRODUCT_FALLBACK_COURSES))
    } else if asks_about_ai(user_text) {
        Some(fallback_for(ai, user_text, AI_FALLBACK_HEAD, AI_FALLBACK_COURSES))
    } else {
        None
    }
}

} // verus!
