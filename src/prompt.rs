use vstd::prelude::*;

use crate::text::concat_text;

verus! {

pub const PROGRAM_PROMPT_HEAD: &'static str = "Ты консультант по магистратуре ";
pub const PROGRAM_PROMPT_MIDDLE: &'static str = " в ITMO. Программа:\n";
pub const BOTH_PROMPT_HEAD: &'static str =
    "Ты консультант по магистратурам ITMO. У нас есть 2 программы:\n";
pub const LINE_BREAK: &'static str = "\n";
pub const INFO_LABEL: &'static str = "\nИнформация релевантная вопросу:\n";
pub const PROMPT_TAIL: &'static str =
    "\nОтвечай кратко и по существу. Если вопрос не по теме, скажи что не можешь ответить.";

/// The system prompt for a question about one program.
pub open spec fn program_prompt_of(
    name: Seq<char>,
    summary: Seq<char>,
    courses: Seq<char>,
    info: Seq<char>,
) -> Seq<char> {
    PROGRAM_PROMPT_HEAD@ + name + PROGRAM_PROMPT_MIDDLE@ + summary + LINE_BREAK@ + courses
        + INFO_LABEL@ + info + PROMPT_TAIL@
}

/// The system prompt for a question about both programs.
pub open spec fn both_prompt_of(ai: Seq<char>, product: Seq<char>, info: Seq<char>) -> Seq<char> {
    BOTH_PROMPT_HEAD@ + ai + LINE_BREAK@ + product + INFO_LABEL@ + info + PROMPT_TAIL@
}

/// The system prompt for a question about one program: its name, its
/// summary, its relevant courses and what its record says to the question.
pub fn program_prompt(name: &str, summary: &str, courses: &str, info: &str) -> (r: String)
    ensures
        r@ == program_prompt_of(name@, summary@, courses@, info@),
{
    let s = concat_text(PROGRAM_PROMPT_HEAD, name);
    let s = concat_text(s.as_str(), PROGRAM_PROMPT_MIDDLE);
    let s = concat_text(s.as_str(), summary);
    let s = concat_text(s.as_str(), LINE_BREAK);
    let s = concat_text(s.as_str(), courses);
    let s = concat_text(s.as_str(), INFO_LABEL);
    let s = concat_text(s.as_str(), info);
    concat_text(s.as_str(), PROMPT_TAIL)
}

/// The system prompt for a question about both programs: both summaries and
/// what the records say to the question.
pub fn both_prompt(ai_summary: &str, product_summary: &str, info: &str) -> (r: String)
    ensures
        r@ == both_prompt_of(ai_summary@, product_summary@, info@),
{
    let s = concat_text(BOTH_PROMPT_HEAD, ai_summary);
    let s = concat_text(s.as_str(), LINE_BREAK);
    let s = concat_text(s.as_str(), product_summary);
    let s = concat_text(s.as_str(), INFO_LABEL);
    let s = concat_text(s.as_str(), info);
    concat_text(s.as_str(), PROMPT_TAIL)
}

} // verus!
