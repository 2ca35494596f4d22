//! One row of the history list: what it says of an entry.

use vstd::prelude::*;
use vstd::string::StringExecFns;
use crate::history::{HistoryItem, ItemView, Progress, PROGRESS_MAX};

verus! {

/// The ten digits.
pub open spec fn digits() -> Seq<char> {
    seq!['0', '1', '2', '3', '4', '5', '6', '7', '8', '9']
}

/// A number in decimal, without leading zeros.
pub open spec fn decimal(n: nat) -> Seq<char>
    decreases n,
{
    if n < 10 {
        seq![digits()[n as int]]
    } else {
        decimal(n / 10).push(digits()[(n % 10) as int])
    }
}

/// A progress as a percentage with two decimals: 1234 hundredths read
/// `12.34%`.
pub open spec fn progress_text(hundredths: nat) -> Seq<char> {
    decimal(hundredths / 100) + seq![
        '.',
        digits()[(hundredths / 10 % 10) as int],
        digits()[(hundredths % 10) as int],
        '%',
    ]
}

/// The words that stand for a local file.
pub open spec fn local_label() -> Seq<char> {
    "本地小说"@
}

/// The words that stand before the name of a book source.
pub open spec fn source_prefix() -> Seq<char> {
    "书源："@
}

/// Where an entry comes from, in words.
pub open spec fn origin_text(item: ItemView) -> Seq<char> {
    match item.book_source {
        None => local_label(),
        Some(name) => source_prefix() + name,
    }
}

/// One digit as text.
fn digit(d: u16) -> (text: &'static str)
    requires
        d < 10,
    ensures
        text@ == seq![digits()[d as int]],
{
    proof {
        reveal_strlit("0");
        reveal_strlit("1");
        reveal_strlit("2");
        reveal_strlit("3");
        reveal_strlit("4");
        reveal_strlit("5");
        reveal_strlit("6");
        reveal_strlit("7");
        reveal_strlit("8");
        reveal_strlit("9");
    }
    let text = match d {
        0 => "0",
        1 => "1",
        2 => "2",
        3 => "3",
        4 => "4",
        5 => "5",
        6 => "6",
        7 => "7",
        8 => "8",
        _ => "9",
    };
    assert(text@ =~= seq![digits()[d as int]]);
    text
}

impl Progress {
    /// The progress as a percentage with two decimals.
    pub fn text(&self) -> (text: String)
        ensures
            text@ == progress_text(self@),
    {
        let hundredths = self.hundredths();
        let whole = hundredths / 100;
        let mut text = String::new();
        if whole >= 100 {
            text.append(digit(whole / 100));
        }
        if whole >= 10 {
            text.append(digit(whole / 10 % 10));
        }
        text.append(digit(whole % 10));
        proof {
            let n = whole as nat;
            reveal_with_fuel(decimal, 3);
            assert(text@ =~= decimal(n));
        }
        text.append(".");
        text.append(digit(hundredths / 10 % 10));
        text.append(digit(hundredths % 10));
        text.append("%");
        proof {
            reveal_strlit(".");
            reveal_strlit("%");
            assert(text@ =~= progress_text(hundredths as nat));
        }
        text
    }
}

/// A row of the history list.
#[derive(Debug)]
pub struct ListItem {
    pub history: HistoryItem,
    /// The cursor is on this row.
    pub selected: bool,
}

/// What a row says: the title over the chapter, and below them where the
/// entry comes from and how far it was read. A selected row is set off by
/// its border.
#[derive(Debug, PartialEq, Eq)]
pub struct Row {
    pub title: String,
    pub chapter: String,
    pub origin: String,
    pub progress: String,
    pub highlighted: bool,
}

impl ListItem {
    /// The texts of the row.
    pub fn render(&self) -> (row: Row)
        ensures
            row.title@ == self.history@.title,
            row.chapter@ == self.history@.current_chapter,
            row.origin@ == origin_text(self.history@),
            row.progress@ == progress_text(self.history@.percent),
            row.highlighted == self.selected,
    {
        match &self.history {
            HistoryItem::Local(item) => Row {
                title: item.title.clone(),
                chapter: item.current_chapter.clone(),
                origin: "本地小说".to_owned(),
                progress: item.percent.text(),
                highlighted: self.selected,
            },
            HistoryItem::Network(item) => Row {
                title: item.title.clone(),
                chapter: item.current_chapter.clone(),
                origin: "书源：".to_owned().concat(item.book_source.as_str()),
                progress: item.percent.text(),
                highlighted: self.selected,
            },
        }
    }
}

/// A progress always reads as one to three digits, a point, two digits and
/// a percent sign.
pub proof fn lemma_progress_text_shape(hundredths: nat)
    requires
        hundredths <= PROGRESS_MAX,
    ensures
        4 < progress_text(hundredths).len() <= 7,
        progress_text(hundredths).last() == '%',
        progress_text(hundredths)[progress_text(hundredths).len() - 4] == '.',
{
    reveal_with_fuel(decimal, 3);
}

} // verus!
