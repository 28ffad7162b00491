//! The report: one line for each search, with the classification of the
//! change, the name of the search and both counts.
//!
//! ```text
//! [Larger] Columbia - Current prod has 16237145, future prod has 16270999
//! ```
//!
//! A run has a report only if every fetch gave a count. A single failure is
//! fatal to the run: it leaves no report, and the failure is what the run
//! returns.

use crate::comparison::{classify, tag_text, RecordCountComparison};
use crate::fetch::FetchError;
use crate::search::{Search, SearchView};
use vstd::prelude::*;
use vstd::string::StringExecFns;

verus! {

/// The character of a decimal digit.
pub open spec fn digit(value: nat) -> char
    recommends
        value < 10,
{
    ('0' as nat + value) as char
}

/// A number in decimal notation, without leading zeros.
pub open spec fn decimal(number: nat) -> Seq<char>
    decreases number,
{
    if number < 10 {
        seq![digit(number)]
    } else {
        decimal(number / 10).push(digit(number % 10))
    }
}

/// The number that a sequence of decimal digits denotes.
pub open spec fn decimal_value(digits: Seq<char>) -> nat
    decreases digits.len(),
{
    if digits.len() == 0 {
        0
    } else {
        (10 * decimal_value(digits.drop_last()) + (digits.last() as nat - '0' as nat)) as nat
    }
}

/// The report line of a search called `name` whose count went from
/// `old_count` to `new_count`.
pub open spec fn line_text(name: Seq<char>, old_count: nat, new_count: nat) -> Seq<char> {
    line_head(name, old_count, new_count) + " - Current prod has "@ + decimal(old_count)
        + ", future prod has "@ + decimal(new_count)
}

/// How a report line begins: the classification in square brackets, a
/// space, and the name of the search.
pub open spec fn line_head(name: Seq<char>, old_count: nat, new_count: nat) -> Seq<char> {
    "["@ + tag_text(classify(old_count as int, new_count as int)) + "] "@ + name
}

fn digit_text(value: u32) -> (text: &'static str)
    requires
        value < 10,
    ensures
        text@ == seq![digit(value as nat)],
{
    proof {
        reveal_strlit("0");
        reveal_strlit("1");
        reveal_strlit("2");
        reveal_strlit("3");
        reveal_strlit("4");
        reveal_strlit("5");
        reveal_strlit("6");
        reveal_strlit("7");
        reveal_strlit("8");
        reveal_strlit("9");
    }
    let text = match value {
        0 => "0",
        1 => "1",
        2 => "2",
        3 => "3",
        4 => "4",
        5 => "5",
        6 => "6",
        7 => "7",
        8 => "8",
        _ => "9",
    };
    assert(text@ =~= seq![digit(value as nat)]);
    text
}

/// Writes a count in decimal notation.
pub fn decimal_string(number: u32) -> (text: String)
    ensures
        text@ == decimal(number as nat),
    decreases number,
{
    if number < 10 {
        String::from_str(digit_text(number))
    } else {
        let text = decimal_string(number / 10).concat(digit_text(number % 10));
        assert(text@ =~= decimal(number as nat));
        text
    }
}

/// The report line of `search`, whose count went from `old_count` to
/// `new_count`.
pub fn report_line(search: &Search, old_count: u32, new_count: u32) -> (line: String)
    ensures
        line@ == line_text(search@.name, old_count as nat, new_count as nat),
{
    let comparison = RecordCountComparison::compare(old_count, new_count);
    let mut line = String::from_str("[");
    line.append(comparison.tag());
    line.append("] ");
    line.append(search.name());
    line.append(" - Current prod has ");
    line.append(decimal_string(old_count).as_str());
    line.append(", future prod has ");
    line.append(decimal_string(new_count).as_str());
    line
}

/// The counts of one search, old and new, or the failure of the first of
/// its two fetches that failed.
pub type Outcome = Result<(u32, u32), FetchError>;

/// Whether `error` is the first failure among `outcomes`, at place `place`.
pub open spec fn is_first_failure(outcomes: Seq<Outcome>, place: int, error: FetchError) -> bool {
    &&& 0 <= place < outcomes.len()
    &&& outcomes[place] == Err::<(u32, u32), FetchError>(error)
    &&& forall|earlier: int| 0 <= earlier < place ==> (#[trigger] outcomes[earlier]) is Ok
}

/// Whether every fetch of a run gave a count.
pub open spec fn all_fetched(outcomes: Seq<Outcome>) -> bool {
    forall|place: int| 0 <= place < outcomes.len() ==> (#[trigger] outcomes[place]) is Ok
}

/// The report of a run. `outcomes` holds the outcome of each search, in the
/// order of the searches.
///
/// Where every fetch gave a count, the report has the line of each search,
/// in that order. Where any fetch failed there is no report at all, only the
/// first failure: a run never shows a line for a count that it does not
/// have.
pub fn report(searches: &[Search], outcomes: &[Outcome]) -> (result: Result<
    Vec<String>,
    FetchError,
>)
    requires
        searches@.len() == outcomes@.len(),
    ensures
        result is Ok <==> all_fetched(outcomes@),
        match result {
            Ok(lines) => {
                &&& lines@.len() == searches@.len()
                &&& forall|i: int|
                    0 <= i < lines@.len() ==> (#[trigger] lines@[i])@ == line_text(
                        searches@[i]@.name,
                        outcomes@[i]->Ok_0.0 as nat,
                        outcomes@[i]->Ok_0.1 as nat,
                    )
            },
            Err(error) => exists|place: int| is_first_failure(outcomes@, place, error),
        },
{
    let mut lines: Vec<String> = Vec::new();
    let mut done: usize = 0;
    while done < searches.len()
        invariant
            searches@.len() == outcomes@.len(),
            done <= searches@.len(),
            lines@.len() == done,
            forall|i: int| 0 <= i < done ==> (#[trigger] outcomes@[i]) is Ok,
            forall|i: int|
                0 <= i < done ==> (#[trigger] lines@[i])@ == line_text(
                    searches@[i]@.name,
                    outcomes@[i]->Ok_0.0 as nat,
                    outcomes@[i]->Ok_0.1 as nat,
                ),
        decreases searches@.len() - done,
    {
        match outcomes[done] {
            Ok((old_count, new_count)) => {
                lines.push(report_line(&searches[done], old_count, new_count));
            },
            Err(error) => {
                assert(is_first_failure(outcomes@, done as int, error));
                assert(!(outcomes@[done as int] is Ok));
                return Err(error);
            },
        }
        done += 1;
    }
    Ok(lines)
}

/// A report line shows its search and one of the five classifications: it
/// begins with an opening bracket, the name of the classification, a closing
/// bracket, a space and the name of the search.
pub proof fn lemma_line_begins_with_head(name: Seq<char>, old_count: nat, new_count: nat)
    ensures
        line_head(name, old_count, new_count).len() <= line_text(name, old_count, new_count).len(),
        line_text(name, old_count, new_count).subrange(
            0,
            line_head(name, old_count, new_count).len() as int,
        ) == line_head(name, old_count, new_count),
        exists|comparison: RecordCountComparison|
            line_head(name, old_count, new_count) == "["@ + #[trigger] tag_text(comparison) + "] "@
                + name,
{
    let head = line_head(name, old_count, new_count);
    let line = line_text(name, old_count, new_count);
    assert(line.subrange(0, head.len() as int) =~= head);
    assert(head == "["@ + tag_text(classify(old_count as int, new_count as int)) + "] "@ + name);
}

/// A run whose fetches all gave counts reports every search once: as many
/// lines as searches, and the line at each place shows the name of the
/// search at that place, so the names in the report are the names of the
/// searches.
pub proof fn lemma_report_shows_every_search(
    searches: Seq<SearchView>,
    outcomes: Seq<Outcome>,
    lines: Seq<Seq<char>>,
)
    requires
        searches.len() == outcomes.len(),
        all_fetched(outcomes),
        lines.len() == searches.len(),
        forall|i: int|
            0 <= i < lines.len() ==> #[trigger] lines[i] == line_text(
                searches[i].name,
                outcomes[i]->Ok_0.0 as nat,
                outcomes[i]->Ok_0.1 as nat,
            ),
    ensures
        forall|i: int|
            0 <= i < lines.len() ==> (#[trigger] lines[i]).subrange(
                0,
                line_head(
                    searches[i].name,
                    outcomes[i]->Ok_0.0 as nat,
                    outcomes[i]->Ok_0.1 as nat,
                ).len() as int,
            ) == line_head(
                searches[i].name,
                outcomes[i]->Ok_0.0 as nat,
                outcomes[i]->Ok_0.1 as nat,
            ),
{
    assert forall|i: int| 0 <= i < lines.len() implies (#[trigger] lines[i]).subrange(
        0,
        line_head(
            searches[i].name,
            outcomes[i]->Ok_0.0 as nat,
            outcomes[i]->Ok_0.1 as nat,
        ).len() as int,
    ) == line_head(
        searches[i].name,
        outcomes[i]->Ok_0.0 as nat,
        outcomes[i]->Ok_0.1 as nat,
    ) by {
        lemma_line_begins_with_head(
            searches[i].name,
            outcomes[i]->Ok_0.0 as nat,
            outcomes[i]->Ok_0.1 as nat,
        );
    }
}

/// One failed fetch is enough to leave a run without a report, whichever
/// search it belongs to and whatever the other fetches gave.
pub proof fn lemma_one_failure_leaves_no_report(outcomes: Seq<Outcome>, place: int)
    requires
        0 <= place < outcomes.len(),
        outcomes[place] is Err,
    ensures
        !all_fetched(outcomes),
        exists|first: int, error: FetchError| #[trigger] is_first_failure(outcomes, first, error),
{
    lemma_first_failure_exists(outcomes, place);
}

proof fn lemma_first_failure_exists(outcomes: Seq<Outcome>, place: int)
    requires
        0 <= place < outcomes.len(),
        outcomes[place] is Err,
    ensures
        exists|first: int, error: FetchError| #[trigger] is_first_failure(outcomes, first, error),
    decreases place,
{
    if exists|earlier: int| 0 <= earlier < place && (#[trigger] outcomes[earlier]) is Err {
        let earlier = choose|earlier: int|
            0 <= earlier < place && (#[trigger] outcomes[earlier]) is Err;
        lemma_first_failure_exists(outcomes, earlier);
    } else {
        assert(is_first_failure(outcomes, place, outcomes[place]->Err_0));
    }
}

/// Decimal notation loses nothing: the digits of a number denote it.
pub proof fn lemma_decimal_denotes_number(number: nat)
    ensures
        decimal_value(decimal(number)) == number,
        decimal(number).len() >= 1,
        forall|i: int|
            0 <= i < decimal(number).len() ==> '0' <= #[trigger] decimal(number)[i] <= '9',
    decreases number,
{
    if number < 10 {
        let digits = decimal(number);
        assert(digits.drop_last() =~= Seq::<char>::empty());
        assert(decimal_value(digits.drop_last()) == 0);
    } else {
        lemma_decimal_denotes_number(number / 10);
        let digits = decimal(number);
        assert(digits.drop_last() =~= decimal(number / 10));
        assert(digits.last() == digit(number % 10));
    }
}

} // verus!
