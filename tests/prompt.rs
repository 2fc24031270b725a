use tg_bot::prompt::{both_prompt, program_prompt};

#[test]
fn prompt_for_one_program() {
    assert_eq!(
        program_prompt("AI", "S", "C", "I"),
        "Ты консультант по магистратуре AI в ITMO. Программа:\nS\nC\nИнформация релевантная вопросу:\nI\nОтвечай кратко и по существу. Если вопрос не по теме, скажи что не можешь ответить."
    );
}

#[test]
fn prompt_for_both_programs() {
    assert_eq!(
        both_prompt("A", "B", "I"),
        "Ты консультант по магистратурам ITMO. У нас есть 2 программы:\nA\nB\nИнформация релевантная вопросу:\nI\nОтвечай кратко и по существу. Если вопрос не по теме, скажи что не можешь ответить."
    );
}
