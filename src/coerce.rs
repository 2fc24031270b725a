use vstd::prelude::*;

use crate::record::{AdmissionMethod, FaqItem, MemberView, Scholarship, TeamMember, TextPair};
use crate::text::{
    concat_text, contains_str, contains_text, count_or_zero, lower_of, lower_text, parse_count,
    split_on, split_text, texts, trim_text, trimmed,
};

verus! {

/// The word that marks a "yes" in the page's language.
pub const AFFIRMATIVE: &'static str = "да";

/// What separates the items of a list written in one cell.
pub const LIST_DELIMITER: &'static str = ", ";

/// What goes between a lead paragraph and the text that follows it.
pub const BLANK_LINE: &'static str = "\n\n";

/// Each string trimmed.
pub open spec fn trimmed_all(ms: Seq<Seq<char>>) -> Seq<Seq<char>> {
    ms.map_values(|m: Seq<char>| trimmed(m))
}

/// The first string, or the empty string where there is none.
pub open spec fn first_or_empty(ts: Seq<Seq<char>>) -> Seq<char> {
    if ts.len() > 0 {
        ts[0]
    } else {
        Seq::empty()
    }
}

/// The string at position `i`, or the empty string where there is none.
pub open spec fn entry_or_empty(ts: Seq<Seq<char>>, i: int) -> Seq<char> {
    if 0 <= i < ts.len() {
        ts[i]
    } else {
        Seq::empty()
    }
}

/// The text holds the affirmative word, in any letter case.
pub open spec fn is_affirmative(t: Seq<char>) -> bool {
    contains_text(lower_of(t), AFFIRMATIVE@)
}

/// There is a string at position `i` and it is affirmative.
pub open spec fn flag_or_false(ts: Seq<Seq<char>>, i: int) -> bool {
    0 <= i < ts.len() && is_affirmative(ts[i])
}

/// The count written at position `i`, or zero.
pub open spec fn count_entry(ts: Seq<Seq<char>>, i: int) -> u32 {
    if 0 <= i < ts.len() {
        count_or_zero(ts[i])
    } else {
        0
    }
}

/// The trimmed items of a list written in one cell.
pub open spec fn list_items(t: Seq<char>) -> Seq<Seq<char>> {
    trimmed_all(split_on(t, LIST_DELIMITER@))
}

/// The items of the list at position `i`, or no items.
pub open spec fn list_entry(ts: Seq<Seq<char>>, i: int) -> Seq<Seq<char>> {
    if 0 <= i < ts.len() {
        list_items(ts[i])
    } else {
        Seq::empty()
    }
}

/// The first `n` elements, or all of them where there are fewer.
pub open spec fn prefix<A>(a: Seq<A>, n: int) -> Seq<A> {
    if 0 <= n < a.len() {
        a.subrange(0, n)
    } else {
        a
    }
}

/// The elements after the first `n`, or none where there are no more.
pub open spec fn suffix<A>(a: Seq<A>, n: int) -> Seq<A> {
    if 0 <= n < a.len() {
        a.subrange(n, a.len() as int)
    } else {
        Seq::empty()
    }
}

/// Element `i` of `a` with element `i` of `b`, over the length of the shorter.
pub open spec fn zipped(a: Seq<Seq<char>>, b: Seq<Seq<char>>) -> Seq<TextPair> {
    Seq::new(
        if a.len() < b.len() {
            a.len()
        } else {
            b.len()
        },
        |i: int| (a[i], b[i]),
    )
}

/// Elements `2i` and `2i + 1` as the `i`-th pair; an unpaired last element is left out.
pub open spec fn alternate_pairs(a: Seq<Seq<char>>) -> Seq<TextPair> {
    Seq::new(a.len() / 2, |i: int| (a[2 * i], a[2 * i + 1]))
}

/// Each name with the position at the same index, or an empty position; no degree.
pub open spec fn members(names: Seq<Seq<char>>, positions: Seq<Seq<char>>) -> Seq<MemberView> {
    Seq::new(names.len(), |i: int| (names[i], entry_or_empty(positions, i), None))
}

/// A lead and a body: both, with a blank line between them, where both are
/// non-empty; else whichever there is.
pub open spec fn composed(lead: Seq<char>, body: Seq<char>) -> Seq<char> {
    if lead.len() > 0 && body.len() > 0 {
        lead + BLANK_LINE@ + body
    } else {
        lead + body
    }
}

/// Whether the text, trimmed, holds the affirmative word in any letter case.
pub fn text_flag(text: &str) -> (r: bool)
    ensures
        r == is_affirmative(trimmed(text@)),
{
    let t = trim_text(text);
    let lower = lower_text(t.as_str());
    contains_str(lower.as_str(), AFFIRMATIVE)
}

/// The text, trimmed, read as an unsigned decimal; zero where it is not one.
pub fn text_count(text: &str) -> (r: u32)
    ensures
        r == count_or_zero(trimmed(text@)),
{
    let t = trim_text(text);
    match parse_count(t.as_str()) {
        Some(v) => v,
        None => 0,
    }
}

/// The text at position `i`, or the empty string where there is none.
pub fn text_at(items: &Vec<String>, i: usize) -> (r: String)
    ensures
        r@ == entry_or_empty(texts(items@), i as int),
{
    if i < items.len() {
        items[i].clone()
    } else {
        String::new()
    }
}

/// Whether there is a text at position `i` and it is affirmative.
pub fn flag_at(items: &Vec<String>, i: usize) -> (r: bool)
    ensures
        r == flag_or_false(texts(items@), i as int),
{
    if i < items.len() {
        let lower = lower_text(items[i].as_str());
        contains_str(lower.as_str(), AFFIRMATIVE)
    } else {
        false
    }
}

/// The count written at position `i`, or zero where there is none or it is no count.
pub fn count_at(items: &Vec<String>, i: usize) -> (r: u32)
    ensures
        r == count_entry(texts(items@), i as int),
{
    if i < items.len() {
        match parse_count(items[i].as_str()) {
            Some(v) => v,
            None => 0,
        }
    } else {
        0
    }
}

/// The trimmed items of the list written at position `i`, or no items.
pub fn list_at(items: &Vec<String>, i: usize) -> (r: Vec<String>)
    ensures
        texts(r@) == list_entry(texts(items@), i as int),
{
    let mut out: Vec<String> = Vec::new();
    if i < items.len() {
        proof {
            reveal_strlit(", ");
        }
        let parts = split_text(items[i].as_str(), LIST_DELIMITER);
        let ghost pv = texts(parts@);
        let mut k: usize = 0;
        while k < parts.len()
            invariant
                k <= parts@.len(),
                pv == texts(parts@),
                texts(out@) == trimmed_all(pv.subrange(0, k as int)),
            decreases parts.len() - k,
        {
            let piece = trim_text(parts[k].as_str());
            let ghost before = texts(out@);
            let ghost added = piece@;
            out.push(piece);
            assert(texts(out@) =~= before.push(added));
            assert(texts(out@) =~= trimmed_all(pv.subrange(0, k + 1)));
            k += 1;
        }
        assert(pv.subrange(0, pv.len() as int) =~= pv);
    } else {
        assert(texts(out@) =~= Seq::<Seq<char>>::empty());
    }
    out
}

/// Each text trimmed.
pub fn trim_each(items: &Vec<String>) -> (r: Vec<String>)
    ensures
        texts(r@) == trimmed_all(texts(items@)),
{
    let mut out: Vec<String> = Vec::new();
    let mut k: usize = 0;
    while k < items.len()
        invariant
            k <= items@.len(),
            texts(out@) == trimmed_all(texts(items@).subrange(0, k as int)),
        decreases items.len() - k,
    {
        let piece = trim_text(items[k].as_str());
        let ghost before = texts(out@);
        let ghost added = piece@;
        out.push(piece);
        assert(texts(out@) =~= before.push(added));
        assert(texts(out@) =~= trimmed_all(texts(items@).subrange(0, k + 1)));
        k += 1;
    }
    assert(texts(items@).subrange(0, items@.len() as int) =~= texts(items@));
    out
}

/// The lead, then a blank line, then the body where both are non-empty; else
/// whichever of the two there is.
pub fn compose_description(lead: &str, body: &str) -> (r: String)
    ensures
        r@ == composed(lead@, body@),
{
    if !lead.is_empty() && !body.is_empty() {
        let head = concat_text(lead, BLANK_LINE);
        concat_text(head.as_str(), body)
    } else {
        concat_text(lead, body)
    }
}

/// Title `i` paired with description `i`, for the first `count` positions
/// that both lists have.
pub fn pair_admission_methods(titles: &Vec<String>, descriptions: &Vec<String>, count: usize) -> (r:
    Vec<AdmissionMethod>)
    ensures
        r@.map_values(|m: AdmissionMethod| m@) == zipped(
            prefix(texts(titles@), count as int),
            prefix(texts(descriptions@), count as int),
        ),
{
    let mut n = titles.len();
    if descriptions.len() < n {
        n = descriptions.len();
    }
    if count < n {
        n = count;
    }
    let ghost want = zipped(prefix(texts(titles@), count as int), prefix(texts(descriptions@), count as int));
    let mut out: Vec<AdmissionMethod> = Vec::new();
    let mut i: usize = 0;
    while i < n
        invariant
            i <= n,
            n <= titles@.len(),
            n <= descriptions@.len(),
            out@.len() == i,
            forall|j: int| 0 <= j < i ==> (#[trigger] out@[j])@ == (titles@[j]@, descriptions@[j]@),
        decreases n - i,
    {
        out.push(AdmissionMethod { name: titles[i].clone(), description: descriptions[i].clone() });
        i += 1;
    }
    assert(out@.map_values(|m: AdmissionMethod| m@) =~= want);
    out
}

/// Question `skip + i` paired with answer `skip + i`, for every position past
/// the first `skip` that both lists have.
pub fn pair_faq(questions: &Vec<String>, answers: &Vec<String>, skip: usize) -> (r: Vec<FaqItem>)
    ensures
        r@.map_values(|f: FaqItem| f@) == zipped(
            suffix(texts(questions@), skip as int),
            suffix(texts(answers@), skip as int),
        ),
{
    let mut n = questions.len();
    if answers.len() < n {
        n = answers.len();
    }
    let ghost want = zipped(suffix(texts(questions@), skip as int), suffix(texts(answers@), skip as int));
    let mut out: Vec<FaqItem> = Vec::new();
    if skip < n {
        let mut i: usize = skip;
        while i < n
            invariant
                skip <= i <= n,
                n <= questions@.len(),
                n <= answers@.len(),
                out@.len() == i - skip,
                forall|j: int| 0 <= j < i - skip ==> (#[trigger] out@[j])@ == (
                    questions@[skip + j]@,
                    answers@[skip + j]@,
                ),
            decreases n - i,
        {
            out.push(FaqItem { question: questions[i].clone(), answer: answers[i].clone() });
            i += 1;
        }
    }
    assert(out@.map_values(|f: FaqItem| f@) =~= want);
    out
}

/// Texts `2i` and `2i + 1` as the name and amount of the `i`-th scholarship;
/// an unpaired last text is left out.
pub fn pair_scholarships(items: &Vec<String>) -> (r: Vec<Scholarship>)
    ensures
        r@.map_values(|s: Scholarship| s@) == alternate_pairs(texts(items@)),
{
    let len = items.len();
    let n = len / 2;
    assert(2 * n <= items@.len()) by (nonlinear_arith)
        requires
            n == items@.len() / 2,
    ;
    let mut out: Vec<Scholarship> = Vec::new();
    let mut i: usize = 0;
    while i < n
        invariant
            i <= n,
            n == items@.len() / 2,
            2 * n <= items@.len(),
            len == items@.len(),
            out@.len() == i,
            forall|j: int| 0 <= j < i ==> (#[trigger] out@[j])@ == (
                items@[2 * j]@,
                items@[2 * j + 1]@,
            ),
        decreases n - i,
    {
        out.push(Scholarship { name: items[2 * i].clone(), amount: items[2 * i + 1].clone() });
        i += 1;
    }
    assert(out@.map_values(|s: Scholarship| s@) =~= alternate_pairs(texts(items@)));
    out
}

/// Each name with the position at the same index, or an empty position; the
/// degree is left unknown.
pub fn pair_team(names: &Vec<String>, positions: &Vec<String>) -> (r: Vec<TeamMember>)
    ensures
        r@.map_values(|m: TeamMember| m@) == members(texts(names@), texts(positions@)),
{
    let mut out: Vec<TeamMember> = Vec::new();
    let mut i: usize = 0;
    while i < names.len()
        invariant
            i <= names@.len(),
            out@.len() == i,
            forall|j: int| 0 <= j < i ==> (#[trigger] out@[j])@ == (
                names@[j]@,
                entry_or_empty(texts(positions@), j),
                None::<Seq<char>>,
            ),
        decreases names.len() - i,
    {
        let position = text_at(positions, i);
        out.push(TeamMember { name: names[i].clone(), position, degree: None });
        i += 1;
    }
    assert(out@.map_values(|m: TeamMember| m@) =~= members(texts(names@), texts(positions@)));
    out
}

} // verus!
