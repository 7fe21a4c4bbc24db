//! The prompt builder: a fixed instruction block that constrains the model
//! to the JSON action schema, with the current calendar date appended.
//!
//! The date is appended, never interpolated mid-template, so the instruction
//! text is stable and only its suffix changes from call to call.

use vstd::prelude::*;
use crate::text::{dec_rep, decimal_string};

verus! {

/// A civil calendar date.
#[derive(Debug, Clone, Copy, PartialEq, Eq, Structural)]
pub struct Date {
    pub year: i32,
    pub month: u32,
    pub day: u32,
}

impl Date {
    /// Calendar-valid month and day ranges.
    pub open spec fn wf(self) -> bool {
        1 <= self.month <= 12 && 1 <= self.day <= 31
    }
}

/// `s` left-padded with zeroes to at least `w` characters.
pub open spec fn zero_pad(s: Seq<char>, w: nat) -> Seq<char>
    decreases w - s.len(),
{
    if s.len() >= w {
        s
    } else {
        zero_pad(seq!['0'] + s, w)
    }
}

/// A year as `%Y` renders it: at least four digits, sign first if negative.
pub open spec fn year_text(y: int) -> Seq<char> {
    if y >= 0 {
        zero_pad(dec_rep(y as nat), 4)
    } else {
        seq!['-'] + zero_pad(dec_rep((-y) as nat), 4)
    }
}

/// A month or day as `%m`/`%d` render it: two digits.
pub open spec fn two_digit_text(n: nat) -> Seq<char> {
    zero_pad(dec_rep(n), 2)
}

/// A date in `YYYY-MM-DD` form.
pub open spec fn date_text(d: Date) -> Seq<char> {
    year_text(d.year as int) + seq!['-'] + two_digit_text(d.month as nat) + seq!['-']
        + two_digit_text(d.day as nat)
}

/// Left-pad a decimal rendering with zeroes to at least `w` characters.
fn pad_zeroes(digits: String, w: usize) -> (r: String)
    ensures
        r@ == zero_pad(digits@, w as nat),
    decreases w,
{
    proof {
        reveal_strlit("0");
    }
    let mut s = digits;
    while s.unicode_len() < w
        invariant
            zero_pad(s@, w as nat) == zero_pad(digits@, w as nat),
        decreases w - s@.len(),
    {
        let mut p = "0".to_owned();
        proof {
            reveal_strlit("0");
            assert("0"@ =~= seq!['0']);
        }
        p.append(s.as_str());
        s = p;
    }
    s
}

/// Render a date in `YYYY-MM-DD` form, as `%Y-%m-%d` does.
pub fn format_date(d: &Date) -> (r: String)
    ensures
        r@ == date_text(*d),
{
    proof {
        reveal_strlit("-");
    }
    let mut s: String;
    if d.year >= 0 {
        s = pad_zeroes(decimal_string(d.year as u64), 4);
    } else {
        let magnitude = (-(d.year as i64)) as u64;
        s = "-".to_owned();
        proof {
            assert("-"@ =~= seq!['-']);
        }
        let padded = pad_zeroes(decimal_string(magnitude), 4);
        s.append(padded.as_str());
    }
    s.append("-");
    let month = pad_zeroes(decimal_string(d.month as u64), 2);
    s.append(month.as_str());
    s.append("-");
    let day = pad_zeroes(decimal_string(d.day as u64), 2);
    s.append(day.as_str());
    s
}

/// The fixed instruction block: the reply format, the catalogue of
/// recognized action kinds with their payload shapes, and the lead-in for
/// the current date.
pub open spec fn prompt_template() -> Seq<char> {
    "Ты Blueprint — персональный ассистент для управления клиентами, сервисами и заметками. \n\nКогда пользователь просит что-то сделать, ответь ТОЛЬКО JSON-объектом (без markdown, без пояснений):\n{\n  \"actions\": [\n    { \"action\": \"<действие>\", \"data\": { ... } }\n  ],\n  \"message\": \"<дружелюбное подтверждение на русском>\"\n}\n\nЕсли нужно создать несколько сущностей — включи несколько объектов в массив actions.\nНапример, \"создай 3 клиента\" → массив из 3 объектов add_client.\n\nДоступные действия:\n- \"add_client\": data: { name, contact?, payment_type(\"monthly\"|\"onetime\"), amount?, currency?(\"RUB\"), notes?, payment_date?(YYYY-MM-DD для разового) }\n- \"add_service\": data: { project_name, service_name, login?, url?, expires_at?(YYYY-MM-DD), cost?, currency?(\"USD\"), notes?, category? }\n- \"add_note\": data: { title, content?, category? } или data: { items: [{ title, content?, category? }, ...] } или data: { by_category: { \"<категория>\": [\"заметка 1\", \"заметка 2\"] } }\n- \"complete_note\": data: { title_query }\n- \"mark_payment\": data: { client_name, period(YYYY-MM), paid(true|false) }\n- \"none\": просто общение, data: {}\n\nЕсли пользователь просто общается или задаёт вопрос — используй один action \"none\".\nЕсли пользователь дал список заметок, создавай отдельную заметку на каждый пункт.\nЕсли пользователь просит разные категории для разных заметок, передавай category для каждого пункта.\nТекущая дата: "@
}

/// What the prompt builder yields for a given date: the fixed template with
/// the date as its suffix.
pub open spec fn system_prompt_text(d: Date) -> Seq<char> {
    prompt_template() + date_text(d)
}

/// Build the system instruction for one call; deterministic in the date.
pub fn build_system_prompt(d: &Date) -> (r: String)
    ensures
        r@ == system_prompt_text(*d),
{
    let mut s =
        "Ты Blueprint — персональный ассистент для управления клиентами, сервисами и заметками. \n\nКогда пользователь просит что-то сделать, ответь ТОЛЬКО JSON-объектом (без markdown, без пояснений):\n{\n  \"actions\": [\n    { \"action\": \"<действие>\", \"data\": { ... } }\n  ],\n  \"message\": \"<дружелюбное подтверждение на русском>\"\n}\n\nЕсли нужно создать несколько сущностей — включи несколько объектов в массив actions.\nНапример, \"создай 3 клиента\" → массив из 3 объектов add_client.\n\nДоступные действия:\n- \"add_client\": data: { name, contact?, payment_type(\"monthly\"|\"onetime\"), amount?, currency?(\"RUB\"), notes?, payment_date?(YYYY-MM-DD для разового) }\n- \"add_service\": data: { project_name, service_name, login?, url?, expires_at?(YYYY-MM-DD), cost?, currency?(\"USD\"), notes?, category? }\n- \"add_note\": data: { title, content?, category? } или data: { items: [{ title, content?, category? }, ...] } или data: { by_category: { \"<категория>\": [\"заметка 1\", \"заметка 2\"] } }\n- \"complete_note\": data: { title_query }\n- \"mark_payment\": data: { client_name, period(YYYY-MM), paid(true|false) }\n- \"none\": просто общение, data: {}\n\nЕсли пользователь просто общается или задаёт вопрос — используй один action \"none\".\nЕсли пользователь дал список заметок, создавай отдельную заметку на каждый пункт.\nЕсли пользователь просит разные категории для разных заметок, передавай category для каждого пункта.\nТекущая дата: ".to_owned();
    let date = format_date(d);
    s.append(date.as_str());
    s
}

/// Relies on `chrono::Utc::now` and `chrono::NaiveDate`: the current civil
/// date in UTC. chrono only yields calendar-valid dates, so the month and
/// day are in range whatever the clock says.
#[verifier::external_body]
pub(crate) fn today_utc() -> (d: Date)
    ensures
        d.wf(),
{
    let now = chrono::Utc::now().date_naive();
    Date {
        year: chrono::Datelike::year(&now),
        month: chrono::Datelike::month(&now),
        day: chrono::Datelike::day(&now),
    }
}

} // verus!
