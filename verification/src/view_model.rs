//! The rows the interface renders, built from the catalog.
//!
//! The interface owns layout and color; everything it *says* is built here, so a label
//! only exists once and every id an interface callback hands back is an id the domain
//! already knows how to parse.

use vstd::prelude::*;

use crate::catalog::{
    Choice, OnboardingStep, PulseEntry, PulseTone, choice_views, pulse_timeline,
    pulse_timeline_spec, welcome_highlights, welcome_highlights_spec,
};
use crate::credential::ApiKeyStatus;
use crate::model::Note;
use crate::text::{decimal, decimal_string, join2, join3};

verus! {

/// The copy of one onboarding question.
#[derive(Clone, Copy, Debug, PartialEq, Eq)]
pub struct OnboardingPage {
    pub rail_label: &'static str,
    pub headline: &'static str,
    pub body: &'static str,
    pub caption: &'static str,
    pub primary_label: &'static str,
}

/// Whether `page` carries exactly the copy of `step`.
pub open spec fn is_page_of(page: OnboardingPage, step: OnboardingStep) -> bool {
    &&& page.rail_label@ == step.rail_label_spec()
    &&& page.headline@ == step.headline_spec()
    &&& page.body@ == step.body_spec()
    &&& page.caption@ == step.orb_caption_spec()
    &&& page.primary_label@ == step.primary_label_spec()
}

/// The copy for each onboarding question, in the order they are asked.
#[must_use]
pub fn onboarding_pages() -> (pages: Vec<OnboardingPage>)
    ensures
        pages@.len() == OnboardingStep::all_spec().len(),
        forall|i: int|
            0 <= i < pages@.len() ==> is_page_of(#[trigger] pages@[i], OnboardingStep::all_spec()[i]),
{
    let mut pages: Vec<OnboardingPage> = Vec::new();
    let mut i: usize = 0;
    while i < 5
        invariant
            i <= 5,
            pages@.len() == i,
            forall|j: int|
                0 <= j < i ==> is_page_of(#[trigger] pages@[j], OnboardingStep::all_spec()[j]),
        decreases 5 - i,
    {
        let step = OnboardingStep::from_index(i).unwrap();
        pages.push(
            OnboardingPage {
                rail_label: step.rail_label(),
                headline: step.headline(),
                body: step.body(),
                caption: step.orb_caption(),
                primary_label: step.primary_label(),
            },
        );
        i = i + 1;
    }
    pages
}

/// One row of the key manager.
#[derive(Clone, Copy, Debug, PartialEq, Eq)]
pub struct ApiKeyRow {
    pub provider_id: &'static str,
    pub label: &'static str,
    pub detail: &'static str,
    pub stored: bool,
}

/// Whether `row` shows `status`: the provider's id and copy, and whether it holds a key.
pub open spec fn is_row_of(row: ApiKeyRow, status: ApiKeyStatus) -> bool {
    &&& row.provider_id@ == status.provider.id_spec()
    &&& row.label@ == status.provider.label_spec()
    &&& row.detail@ == status.provider.detail_spec()
    &&& row.stored == status.stored
}

/// One row of the key manager per provider in `inventory`, in its order. No row is special.
#[must_use]
pub fn api_key_rows(inventory: &[ApiKeyStatus]) -> (rows: Vec<ApiKeyRow>)
    ensures
        rows@.len() == inventory@.len(),
        forall|i: int| 0 <= i < rows@.len() ==> is_row_of(#[trigger] rows@[i], inventory@[i]),
{
    let mut rows: Vec<ApiKeyRow> = Vec::new();
    let mut i: usize = 0;
    while i < inventory.len()
        invariant
            i <= inventory@.len(),
            rows@.len() == i,
            forall|j: int| 0 <= j < i ==> is_row_of(#[trigger] rows@[j], inventory@[j]),
        decreases inventory@.len() - i,
    {
        let status = inventory[i];
        rows.push(
            ApiKeyRow {
                provider_id: status.provider.stable_id(),
                label: status.provider.label(),
                detail: status.provider.detail(),
                stored: status.stored,
            },
        );
        i = i + 1;
    }
    rows
}

/// One selectable option as the interface lists it.
#[derive(Clone, Copy, Debug, PartialEq, Eq)]
pub struct ChoiceRow {
    pub id: &'static str,
    pub label: &'static str,
    pub detail: &'static str,
}

/// One row per choice, carrying the id the interface hands back when it is picked.
#[must_use]
pub fn choice_rows(choices: &[Choice]) -> (rows: Vec<ChoiceRow>)
    ensures
        rows@.len() == choices@.len(),
        forall|i: int|
            0 <= i < rows@.len() ==> {
                &&& (#[trigger] rows@[i]).id@ == choices@[i].id@
                &&& rows@[i].label@ == choices@[i].label@
                &&& rows@[i].detail@ == choices@[i].detail@
            },
{
    let mut rows: Vec<ChoiceRow> = Vec::new();
    let mut i: usize = 0;
    while i < choices.len()
        invariant
            i <= choices@.len(),
            rows@.len() == i,
            forall|j: int|
                0 <= j < i ==> {
                    &&& (#[trigger] rows@[j]).id@ == choices@[j].id@
                    &&& rows@[j].label@ == choices@[j].label@
                    &&& rows@[j].detail@ == choices@[j].detail@
                },
        decreases choices@.len() - i,
    {
        let choice = choices[i];
        rows.push(ChoiceRow { id: choice.id, label: choice.label, detail: choice.detail });
        i = i + 1;
    }
    rows
}

/// The options a single onboarding question offers.
#[must_use]
pub fn step_choices(step: OnboardingStep) -> (rows: Vec<ChoiceRow>)
    ensures
        rows@.len() == step.choices_spec().len(),
        forall|i: int|
            0 <= i < rows@.len() ==> {
                &&& (#[trigger] rows@[i]).id@ == step.choices_spec()[i].id
                &&& rows@[i].label@ == step.choices_spec()[i].label
                &&& rows@[i].detail@ == step.choices_spec()[i].detail
            },
{
    let choices = step.choices();
    let rows = choice_rows(choices.as_slice());
    assert forall|i: int| 0 <= i < rows@.len() implies {
        &&& (#[trigger] rows@[i]).id@ == step.choices_spec()[i].id
        &&& rows@[i].label@ == step.choices_spec()[i].label
        &&& rows@[i].detail@ == step.choices_spec()[i].detail
    } by {
        assert(choice_views(choices@)[i] == choices@[i]@);
    }
    rows
}

/// `n` in decimal, padded with zeros to at least two digits.
pub open spec fn two_digits(n: nat) -> Seq<char> {
    if n < 10 {
        seq!['0'] + decimal(n)
    } else {
        decimal(n)
    }
}

/// The line that shows `text` as item number `n`.
pub open spec fn numbered_line(n: nat, text: Seq<char>) -> Seq<char> {
    two_digits(n) + "   "@ + text
}

fn two_digit_string(n: u32) -> (s: String)
    ensures
        s@ == two_digits(n as nat),
{
    let digits = decimal_string(n);
    if n < 10 {
        proof {
            reveal_strlit("0");
        }
        join2("0", digits.as_str())
    } else {
        digits
    }
}

/// The promises listed on the welcome step, numbered from one as they are shown.
#[must_use]
pub fn welcome_highlight_rows() -> (rows: Vec<String>)
    ensures
        rows@.len() == welcome_highlights_spec().len(),
        forall|i: int|
            0 <= i < rows@.len() ==> (#[trigger] rows@[i])@ == numbered_line(
                (i + 1) as nat,
                welcome_highlights_spec()[i],
            ),
{
    let highlights = welcome_highlights();
    let mut rows: Vec<String> = Vec::new();
    let mut i: usize = 0;
    while i < 4
        invariant
            i <= 4,
            highlights@.map_values(|highlight: &'static str| highlight@)
                == welcome_highlights_spec(),
            rows@.len() == i,
            forall|j: int|
                0 <= j < i ==> (#[trigger] rows@[j])@ == numbered_line(
                    (j + 1) as nat,
                    welcome_highlights_spec()[j],
                ),
        decreases 4 - i,
    {
        let number = two_digit_string((i + 1) as u32);
        let line = join3(number.as_str(), "   ", highlights[i]);
        proof {
            assert(highlights@.map_values(|highlight: &'static str| highlight@)[i as int]
                == highlights@[i as int]@);
        }
        rows.push(line);
        i = i + 1;
    }
    rows
}

/// One rung of the pulse ladder as the interface renders it.
#[derive(Clone, Copy, Debug, PartialEq, Eq)]
pub struct PulseRow {
    pub stage: &'static str,
    pub title: &'static str,
    pub detail: &'static str,
    pub time: &'static str,
    pub tone_id: &'static str,
}

/// Whether `row` renders the pulse entry `entry` and names its tone.
pub open spec fn is_pulse_row_of(
    row: PulseRow,
    tone: PulseTone,
    title: Seq<char>,
    detail: Seq<char>,
    time: Seq<char>,
) -> bool {
    &&& row.stage@ == tone.stage_label_spec()
    &&& row.tone_id@ == tone.id_spec()
    &&& row.title@ == title
    &&& row.detail@ == detail
    &&& row.time@ == time
}

fn pulse_row(entry: PulseEntry) -> (row: PulseRow)
    ensures
        is_pulse_row_of(row, entry.tone, entry.title@, entry.detail@, entry.time@),
{
    PulseRow {
        stage: entry.tone.stage_label(),
        title: entry.title,
        detail: entry.detail,
        time: entry.time,
        tone_id: entry.tone.stable_id(),
    }
}

/// The observed / inferred / proposed ladder, shared by Today and Routines.
#[must_use]
pub fn pulse_rows() -> (rows: Vec<PulseRow>)
    ensures
        rows@.len() == pulse_timeline_spec().len(),
        forall|i: int|
            0 <= i < rows@.len() ==> is_pulse_row_of(
                #[trigger] rows@[i],
                pulse_timeline_spec()[i].tone,
                pulse_timeline_spec()[i].title,
                pulse_timeline_spec()[i].detail,
                pulse_timeline_spec()[i].time,
            ),
{
    let timeline = pulse_timeline();
    let mut rows: Vec<PulseRow> = Vec::new();
    let mut i: usize = 0;
    while i < 3
        invariant
            i <= 3,
            timeline@.map_values(|entry: PulseEntry| entry@) == pulse_timeline_spec(),
            rows@.len() == i,
            forall|j: int|
                0 <= j < i ==> is_pulse_row_of(
                    #[trigger] rows@[j],
                    pulse_timeline_spec()[j].tone,
                    pulse_timeline_spec()[j].title,
                    pulse_timeline_spec()[j].detail,
                    pulse_timeline_spec()[j].time,
                ),
        decreases 3 - i,
    {
        proof {
            assert(timeline@.map_values(|entry: PulseEntry| entry@)[i as int]
                == timeline@[i as int]@);
        }
        rows.push(pulse_row(timeline[i]));
        i = i + 1;
    }
    rows
}

/// One routine suggestion as the Routines page lists it: what it would do and why.
#[derive(Clone, Copy, Debug, PartialEq, Eq)]
pub struct RoutineRow {
    pub title: &'static str,
    pub explanation: &'static str,
    pub action: &'static str,
}

/// The suggestion the Routines page starts with, before any routine was learned.
#[must_use]
pub fn initial_routines() -> (routines: Vec<RoutineRow>)
    ensures
        routines@.len() == 1,
        routines@[0].title@ == "Preparar tu regreso al proyecto"@,
        routines@[0].explanation@
            == "Sueles abrir el editor y las notas del proyecto juntos al comenzar."@,
        routines@[0].action@ == "Abrir workspace + mostrar ultima memoria"@,
{
    let mut routines: Vec<RoutineRow> = Vec::new();
    routines.push(
        RoutineRow {
            title: "Preparar tu regreso al proyecto",
            explanation: "Sueles abrir el editor y las notas del proyecto juntos al comenzar.",
            action: "Abrir workspace + mostrar ultima memoria",
        },
    );
    routines
}

/// Drops the row at `index` once it was accepted or dismissed. An index the list does not
/// have, negative or past the end, leaves the list as it was.
pub fn remove_model_row<T>(rows: &mut Vec<T>, index: i32)
    ensures
        0 <= index < old(rows)@.len() ==> final(rows)@ == old(rows)@.remove(index as int),
        !(0 <= index < old(rows)@.len()) ==> final(rows)@ == old(rows)@,
{
    if 0 <= index && (index as usize) < rows.len() {
        rows.remove(index as usize);
    }
}

/// One remembered note as the Memory page lists it.
#[derive(Clone, Debug, PartialEq, Eq)]
pub struct MemoryRow {
    pub title: String,
    pub preview: String,
    pub meta: &'static str,
}

/// One row per note, in the order given: its title, its body as the preview, and where it
/// is kept.
#[must_use]
pub fn memory_rows(notes: &[Note]) -> (rows: Vec<MemoryRow>)
    ensures
        rows@.len() == notes@.len(),
        forall|i: int|
            0 <= i < rows@.len() ==> {
                &&& (#[trigger] rows@[i]).title@ == notes@[i].title@
                &&& rows@[i].preview@ == notes@[i].body@
                &&& rows@[i].meta@ == "memoria local"@
            },
{
    let mut rows: Vec<MemoryRow> = Vec::new();
    let mut i: usize = 0;
    while i < notes.len()
        invariant
            i <= notes@.len(),
            rows@.len() == i,
            forall|j: int|
                0 <= j < i ==> {
                    &&& (#[trigger] rows@[j]).title@ == notes@[j].title@
                    &&& rows@[j].preview@ == notes@[j].body@
                    &&& rows@[j].meta@ == "memoria local"@
                },
        decreases notes@.len() - i,
    {
        let note = &notes[i];
        rows.push(
            MemoryRow {
                title: note.title.as_str().to_owned(),
                preview: note.body.as_str().to_owned(),
                meta: "memoria local",
            },
        );
        i = i + 1;
    }
    rows
}

} // verus!
