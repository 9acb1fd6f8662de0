//! The layout of a bank's statement, and the names on its lines.

use std::collections::HashMap;
use vstd::prelude::*;
use crate::reader::fields_view;

verus! {

broadcast use vstd::std_specs::hash::group_hash_axioms;

/// What a column of a bank's statement holds.
#[derive(Clone, Copy, Debug, PartialEq, Eq, Hash, Structural)]
pub enum Column {
    Name,
    Date,
    In,
    Out,
    Net,
}

impl Column {
    /// The number that stands for the column where columns are keys.
    pub open spec fn code(self) -> u8 {
        match self {
            Column::Name => 0,
            Column::Date => 1,
            Column::In => 2,
            Column::Out => 3,
            Column::Net => 4,
        }
    }

    fn key(self) -> (key: u8)
        ensures
            key == self.code(),
    {
        match self {
            Column::Name => 0,
            Column::Date => 1,
            Column::In => 2,
            Column::Out => 3,
            Column::Net => 4,
        }
    }
}

/// The banks whose statements are known.
#[allow(non_camel_case_types)]
#[derive(Clone, Copy, Debug)]
pub enum BankType {
    LLOYDS,
}

/// How a bank lays out its statements: the position of each column, counted
/// from zero, and the character between two columns.
pub struct Config {
    file_structure: HashMap<u8, usize>,
    separator: char,
}

impl Config {
    /// The position of `column`, where the layout has that column.
    pub closed spec fn position(&self, column: Column) -> Option<usize> {
        if self.file_structure@.contains_key(column.code()) {
            Some(self.file_structure@[column.code()])
        } else {
            None
        }
    }

    /// The character between two columns.
    pub closed spec fn separator(&self) -> char {
        self.separator
    }

    /// The position of the name column, or the first column where the layout
    /// has no name column.
    pub open spec fn name_position(&self) -> usize {
        match self.position(Column::Name) {
            Some(position) => position,
            None => 0,
        }
    }

    /// The layout of the statements of `bank_type`.
    pub fn new(bank_type: BankType) -> (config: Config)
        ensures
            config.separator() == ',',
            bank_type is LLOYDS ==> {
                &&& config.position(Column::Name) == Some(5usize)
                &&& config.position(Column::Date) == Some(1usize)
                &&& config.position(Column::In) == Some(7usize)
                &&& config.position(Column::Out) == Some(6usize)
                &&& config.position(Column::Net) == Some(8usize)
            },
    {
        let mut file_structure: HashMap<u8, usize> = HashMap::new();
        match bank_type {
            BankType::LLOYDS => {
                file_structure.insert(Column::Name.key(), 5);
                file_structure.insert(Column::Date.key(), 1);
                file_structure.insert(Column::In.key(), 7);
                file_structure.insert(Column::Out.key(), 6);
                file_structure.insert(Column::Net.key(), 8);
            },
        }
        Self { file_structure, separator: ',' }
    }

    /// The position of `column`, where the layout has that column.
    pub fn column(&self, column: Column) -> (position: Option<usize>)
        ensures
            position == self.position(column),
    {
        match self.file_structure.get(&column.key()) {
            Some(position) => Some(*position),
            None => None,
        }
    }

    /// The character between two columns.
    pub fn separator_char(&self) -> (separator: char)
        ensures
            separator == self.separator(),
    {
        self.separator
    }
}

/// The pieces of `text` between the occurrences of `separator`: one piece
/// more than there are separators, an empty piece where two separators meet
/// or the text begins or ends with one.
pub open spec fn split(text: Seq<char>, separator: char) -> Seq<Seq<char>>
    decreases text.len(),
{
    if text.len() == 0 {
        seq![Seq::empty()]
    } else {
        let pieces = split(text.drop_last(), separator);
        if text.last() == separator {
            pieces.push(Seq::empty())
        } else {
            pieces.update(pieces.len() - 1, pieces.last().push(text.last()))
        }
    }
}

/// Splits `line` at each `separator`.
pub fn split_line(line: &str, separator: char) -> (pieces: Vec<String>)
    ensures
        fields_view(pieces) == split(line@, separator),
{
    let length = line.unicode_len();
    let mut pieces: Vec<String> = Vec::new();
    let mut start: usize = 0;
    let mut index: usize = 0;
    proof {
        assert(line@.take(0) =~= Seq::empty());
        assert(fields_view(pieces).push(line@.subrange(0, 0)) =~= seq![Seq::<char>::empty()]);
    }
    while index < length
        invariant
            length == line@.len(),
            start <= index <= length,
            split(line@.take(index as int), separator) == fields_view(pieces).push(
                line@.subrange(start as int, index as int),
            ),
        decreases length - index,
    {
        let ghost before = fields_view(pieces);
        let ghost seen = line@.take(index + 1);
        proof {
            assert(seen.drop_last() == line@.take(index as int));
            assert(seen.last() == line@[index as int]);
        }
        if line.get_char(index) == separator {
            let ghost piece = line@.subrange(start as int, index as int);
            pieces.push(String::from_str(line.substring_char(start, index)));
            start = index + 1;
            proof {
                assert(fields_view(pieces) =~= before.push(piece));
                assert(line@.subrange(start as int, index + 1) =~= Seq::empty());
            }
        } else {
            proof {
                let piece = line@.subrange(start as int, index as int);
                assert(piece.push(line@[index as int]) =~= line@.subrange(
                    start as int,
                    index + 1,
                ));
                assert(before.push(piece).update(before.len() as int, piece.push(line@[index as int]))
                    =~= before.push(line@.subrange(start as int, index + 1)));
            }
        }
        index += 1;
    }
    proof {
        assert(line@.take(length as int) == line@);
    }
    let ghost before = fields_view(pieces);
    pieces.push(String::from_str(line.substring_char(start, length)));
    assert(fields_view(pieces) =~= before.push(line@.subrange(start as int, length as int)));
    pieces
}

/// `c` is white space: one of the characters to which Unicode gives the
/// property White_Space.
pub open spec fn white_space(c: char) -> bool {
    let code = c as u32;
    ||| 0x09 <= code <= 0x0D
    ||| code == 0x20
    ||| code == 0x85
    ||| code == 0xA0
    ||| code == 0x1680
    ||| 0x2000 <= code <= 0x200A
    ||| code == 0x2028
    ||| code == 0x2029
    ||| code == 0x202F
    ||| code == 0x205F
    ||| code == 0x3000
}

/// `text` without the white space at its start.
pub open spec fn trimmed_start(text: Seq<char>) -> Seq<char>
    decreases text.len(),
{
    if text.len() > 0 && white_space(text.first()) {
        trimmed_start(text.drop_first())
    } else {
        text
    }
}

/// `text` without the white space at its end.
pub open spec fn trimmed_end(text: Seq<char>) -> Seq<char>
    decreases text.len(),
{
    if text.len() > 0 && white_space(text.last()) {
        trimmed_end(text.drop_last())
    } else {
        text
    }
}

/// `text` without the white space at its two ends.
pub open spec fn trimmed(text: Seq<char>) -> Seq<char> {
    trimmed_end(trimmed_start(text))
}

/// `text` without the white space at its two ends, by `str::trim` of the
/// standard library, which takes for white space what Unicode gives the
/// property White_Space.
#[verifier::external_body]
fn trim<'a>(text: &'a str) -> (inner: &'a str)
    ensures
        inner@ == trimmed(text@),
{
    text.trim()
}

/// `text` holds nothing but white space.
pub open spec fn blank(text: Seq<char>) -> bool {
    forall|i: int| 0 <= i < text.len() ==> white_space(#[trigger] text[i])
}

/// Without the white space at its start, a text is empty exactly where it is
/// blank, and else begins with a character that is no white space.
proof fn lemma_trimmed_start(text: Seq<char>)
    ensures
        trimmed_start(text).len() == 0 <==> blank(text),
        trimmed_start(text).len() > 0 ==> !white_space(trimmed_start(text).first()),
    decreases text.len(),
{
    if text.len() > 0 && white_space(text.first()) {
        let rest = text.drop_first();
        lemma_trimmed_start(rest);
        if blank(rest) {
            assert forall|i: int| 0 <= i < text.len() implies white_space(#[trigger] text[i]) by {
                if i > 0 {
                    assert(text[i] == rest[i - 1]);
                }
            }
        }
        if blank(text) {
            assert forall|i: int| 0 <= i < rest.len() implies white_space(#[trigger] rest[i]) by {
                assert(rest[i] == text[i + 1]);
            }
        }
    } else if text.len() > 0 {
        assert(!white_space(text[0]));
    }
}

/// Without the white space at its end, a text is empty exactly where it is
/// blank.
proof fn lemma_trimmed_end(text: Seq<char>)
    ensures
        trimmed_end(text).len() == 0 <==> blank(text),
    decreases text.len(),
{
    if text.len() > 0 && white_space(text.last()) {
        let rest = text.drop_last();
        lemma_trimmed_end(rest);
        if blank(rest) {
            assert forall|i: int| 0 <= i < text.len() implies white_space(#[trigger] text[i]) by {
                if i < rest.len() {
                    assert(text[i] == rest[i]);
                }
            }
        }
        if blank(text) {
            assert forall|i: int| 0 <= i < rest.len() implies white_space(#[trigger] rest[i]) by {
                assert(rest[i] == text[i]);
            }
        }
    } else if text.len() > 0 {
        assert(!white_space(text[text.len() - 1]));
    }
}

/// Nothing is left of a text without the white space at its two ends
/// exactly where the text is blank.
pub proof fn lemma_trimmed_is_empty_where_blank(text: Seq<char>)
    ensures
        trimmed(text).len() == 0 <==> blank(text),
{
    let inner = trimmed_start(text);
    lemma_trimmed_start(text);
    lemma_trimmed_end(inner);
    if inner.len() > 0 {
        assert(!white_space(inner[0]));
    }
}

/// The name column of `line` under `config`, where the line is that long.
pub open spec fn name_on(config: &Config, line: Seq<char>) -> Option<Seq<char>> {
    let pieces = split(line, config.separator());
    if config.name_position() < pieces.len() {
        Some(pieces[config.name_position() as int])
    } else {
        None
    }
}

/// The names that `lines` show under `config`, in the order of the lines:
/// of each line its name column, but for the lines where that is blank or
/// that are too short to have one.
pub open spec fn names(config: &Config, lines: Seq<Seq<char>>) -> Seq<Seq<char>>
    decreases lines.len(),
{
    if lines.len() == 0 {
        Seq::empty()
    } else {
        let earlier = names(config, lines.drop_last());
        match name_on(config, lines.last()) {
            Some(name) => if blank(name) {
                earlier
            } else {
                earlier.push(name)
            },
            None => earlier,
        }
    }
}

/// The name column of `line` under `config`, or `None` where the line is too
/// short to have one.
pub fn name_column(line: &str, config: &Config) -> (name: Option<String>)
    ensures
        name_on(config, line@) == match name {
            Some(text) => Some(text@),
            None => None,
        },
{
    let split_lines = split_line(line, config.separator_char());
    let position = match config.column(Column::Name) {
        Some(position) => position,
        None => 0,
    };
    if position < split_lines.len() {
        Some(split_lines[position].clone())
    } else {
        None
    }
}

/// The names on the lines of a statement, in the order of the lines, without
/// the blank ones. A line too short to have a name column shows none.
pub fn process_csv(lines: &Vec<String>, config: &Config) -> (shown: Vec<String>)
    ensures
        fields_view(shown) == names(config, fields_view(*lines)),
{
    let ghost all = fields_view(*lines);
    let mut shown: Vec<String> = Vec::new();
    let mut index: usize = 0;
    proof {
        assert(all.take(0) =~= Seq::empty());
        assert(fields_view(shown) =~= Seq::empty());
    }
    while index < lines.len()
        invariant
            index <= lines.len(),
            all == fields_view(*lines),
            fields_view(shown) == names(config, all.take(index as int)),
        decreases lines.len() - index,
    {
        proof {
            let seen = all.take(index + 1);
            assert(seen.drop_last() == all.take(index as int));
            assert(seen.last() == lines[index as int]@);
        }
        match name_column(lines[index].as_str(), config) {
            Some(res) => {
                proof {
                    lemma_trimmed_is_empty_where_blank(res@);
                }
                if !trim(res.as_str()).is_empty() {
                    let ghost earlier = fields_view(shown);
                    shown.push(res);
                    assert(fields_view(shown) =~= earlier.push(res@));
                }
            },
            None => {},
        }
        index += 1;
    }
    proof {
        assert(all.take(index as int) == all);
    }
    shown
}

} // verus!
