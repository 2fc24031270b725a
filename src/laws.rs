use vstd::prelude::*;

use crate::coerce::{alternate_pairs, prefix, suffix, zipped};
use crate::extract::{
    is_rule_selector, program_model, ESCAPED_LINE_BREAK_TAG, LINE_BREAK_TAG, SALARY_MARK,
    international_list, partners_list,
};
use crate::query::matched_markup;
use crate::record::{MasterProgram, ProgramView};
use crate::text::{split_on, contains_text, occurs_at};

verus! {

/// The record of a page on which no selector matches anything.
pub open spec fn default_model() -> ProgramView {
    ProgramView {
        title: Seq::empty(),
        description: Seq::empty(),
        institute: Seq::empty(),
        study_form: Seq::empty(),
        duration: Seq::empty(),
        language: Seq::empty(),
        cost: Seq::empty(),
        dormitory: false,
        military_center: false,
        accreditation: false,
        special_programs: Seq::empty(),
        direction_code: Seq::empty(),
        direction_name: Seq::empty(),
        budget_places: 0,
        target_places: 0,
        contract_places: 0,
        manager: (Seq::empty(), Seq::empty(), Seq::empty()),
        social_links: Seq::empty(),
        exam_dates: Seq::empty(),
        admission_methods: Seq::empty(),
        career_opportunities: Seq::empty(),
        average_salary: Seq::empty(),
        team: Seq::empty(),
        partners: partners_list(),
        scholarships: Seq::empty(),
        international_opportunities: international_list(),
        faq: Seq::empty(),
    }
}

/// Two records read from the same page text are the same record.
pub proof fn law_same_text_same_record(a: MasterProgram, b: MasterProgram, src: Seq<char>)
    requires
        a@ == program_model(src),
        b@ == program_model(src),
    ensures
        a@ == b@,
{
}

proof fn lemma_split_empty(d: Seq<char>)
    requires
        d.len() > 0,
    ensures
        split_on(Seq::empty(), d) == seq![Seq::<char>::empty()],
{
    assert(Seq::<char>::empty().subrange(0, 0) =~= Seq::<char>::empty());
}

/// A page on which no selector of the rule set matches anything yields the
/// record of defaults: empty texts and lists, false flags, zero counts, and
/// the two fixed lists.
pub proof fn law_unmatched_page_gives_defaults(src: Seq<char>)
    requires
        forall|sel: Seq<char>| is_rule_selector(sel) ==> #[trigger] matched_markup(src, sel).len() == 0,
    ensures
        program_model(src) == default_model(),
{
    reveal_strlit("<br>");
    reveal_strlit("\\u003cbr\\u003e");
    reveal_strlit("от 150 до 400+");
    assert(LINE_BREAK_TAG@.len() > 0);
    assert(ESCAPED_LINE_BREAK_TAG@.len() > 0);
    lemma_split_empty(LINE_BREAK_TAG@);
    lemma_split_empty(ESCAPED_LINE_BREAK_TAG@);
    assert(!contains_text(Seq::empty(), SALARY_MARK@)) by {
        assert forall|i: int| !occurs_at(Seq::empty(), SALARY_MARK@, i) by {}
    }
    let m = program_model(src);
    let d = default_model();
    assert(m.title =~= d.title);
    assert(m.description =~= d.description);
    assert(m.institute =~= d.institute);
    assert(m.special_programs =~= d.special_programs);
    assert(m.direction_code =~= d.direction_code);
    assert(m.direction_name =~= d.direction_name);
    assert(m.manager.0 =~= d.manager.0);
    assert(m.manager.1 =~= d.manager.1);
    assert(m.manager.2 =~= d.manager.2);
    assert(m.social_links =~= d.social_links);
    assert(m.exam_dates =~= d.exam_dates);
    assert(m.admission_methods =~= d.admission_methods);
    assert(m.career_opportunities =~= d.career_opportunities);
    assert(m.average_salary =~= d.average_salary);
    assert(m.team =~= d.team);
    assert(m.scholarships =~= d.scholarships);
    assert(m.faq =~= d.faq);
}

/// With an offset `n`, the leading pairs are those at positions `0..n` of the
/// two lists paired in full, and the trailing pairs are those from position
/// `n` on: together they are the whole pairing, in order.
pub proof fn law_offset_pairing(titles: Seq<Seq<char>>, infos: Seq<Seq<char>>, n: int)
    requires
        titles.len() == infos.len(),
        0 <= n <= titles.len(),
    ensures
        zipped(prefix(titles, n), prefix(infos, n)) == zipped(titles, infos).subrange(0, n),
        zipped(suffix(titles, n), suffix(infos, n)) == zipped(titles, infos).subrange(
            n,
            titles.len() as int,
        ),
{
    assert(zipped(prefix(titles, n), prefix(infos, n)) =~= zipped(titles, infos).subrange(0, n));
    assert(zipped(suffix(titles, n), suffix(infos, n)) =~= zipped(titles, infos).subrange(
        n,
        titles.len() as int,
    ));
}

/// A text left without a partner at the end of an even-length list changes
/// nothing: the pairs are those of the list without it.
pub proof fn law_unpaired_text_dropped(items: Seq<Seq<char>>, extra: Seq<char>)
    requires
        items.len() % 2 == 0,
    ensures
        alternate_pairs(items.push(extra)) == alternate_pairs(items),
{
    assert(items.push(extra).len() / 2 == items.len() / 2);
    assert(alternate_pairs(items.push(extra)) =~= alternate_pairs(items));
}

} // verus!
