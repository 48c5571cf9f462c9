//! The markets that the system knows: the exchanges, and the symbols of
//! each.
//!
//! The exchanges come from the configuration as they stand; the symbols
//! of an exchange come from a table in text, one symbol a line after a
//! header line, each line an id and a name with a comma between them.

use vstd::prelude::*;
use vstd::slice::{slice_subrange, slice_to_vec};
use vstd::utf8::{decode_utf8, encode_utf8, valid_utf8};
use crate::common::text::{str_equal, string_from_utf8};

verus! {

/// One exchange of the configuration.
#[derive(Debug)]
pub struct ExchangeConfig {
    pub id: u32,
    pub name: String,
    pub exchange_type: String,
    pub description: String,
    /// The name of the file with the symbols of the exchange.
    pub symbols_file: String,
}

/// One symbol of an exchange.
#[derive(Debug)]
pub struct SymbolConfig {
    pub id: u32,
    pub symbol: String,
    pub exchange_id: u32,
}

/// Why a configuration could not be taken.
#[derive(Debug, Clone, Copy, PartialEq, Eq, Structural)]
pub enum ConfigError {
    /// A line of a symbol table has an id that is no number, or none that
    /// fits 32 bits.
    InvalidSymbolId,
    /// A line of a symbol table has a name that is no text.
    InvalidSymbolName,
    /// There are not as many symbol tables as exchanges.
    TableCountMismatch,
}

/// A blank: a space, a tab, a line feed, a vertical tab, a form feed or a
/// carriage return.
pub open spec fn is_blank(b: u8) -> bool {
    b == 32 || (9 <= b <= 13)
}

/// The place of the first `b` in `s` from `from` up to `to`; `to` where
/// there is none.
pub open spec fn first_at(s: Seq<u8>, from: int, to: int, b: u8) -> int
    decreases to - from,
{
    if from >= to {
        to
    } else if s[from] == b {
        from
    } else {
        first_at(s, from + 1, to, b)
    }
}

/// The place of the first byte that is no blank, from `from` up to `to`;
/// `to` where all are blanks.
pub open spec fn skip_blanks(s: Seq<u8>, from: int, to: int) -> int
    decreases to - from,
{
    if from >= to {
        to
    } else if !is_blank(s[from]) {
        from
    } else {
        skip_blanks(s, from + 1, to)
    }
}

/// The place behind the last byte that is no blank, from `from` up to
/// `to`; `from` where all are blanks.
pub open spec fn drop_blanks(s: Seq<u8>, from: int, to: int) -> int
    decreases to - from,
{
    if to <= from {
        from
    } else if !is_blank(s[to - 1]) {
        to
    } else {
        drop_blanks(s, from, to - 1)
    }
}

/// The number that the digits from `from` up to `to` stand for; none
/// where one of the bytes is no digit.
pub open spec fn number(s: Seq<u8>, from: int, to: int) -> Option<int>
    decreases to - from,
{
    if to <= from {
        Some(0)
    } else if !(48 <= s[to - 1] <= 57) {
        None
    } else {
        match number(s, from, to - 1) {
            Some(v) => Some(v * 10 + (s[to - 1] - 48)),
            None => None,
        }
    }
}

/// The 32-bit number that the bytes from `from` up to `to` stand for: at
/// least one digit, after a plus sign or without one.
pub open spec fn parsed_id(s: Seq<u8>, from: int, to: int) -> Option<u32> {
    let start = if from < to && s[from] == 43 {
        from + 1
    } else {
        from
    };
    if start >= to {
        None
    } else {
        match number(s, start, to) {
            Some(v) => if v <= u32::MAX {
                Some(v as u32)
            } else {
                None
            },
            None => None,
        }
    }
}

/// What a line of a symbol table holds.
pub enum Row {
    /// Nothing: the line is blank, or has no comma.
    Nothing,
    /// An id, and a name that stands from `name_from` up to `name_to`.
    Symbol { id: u32, name_from: int, name_to: int },
    /// An id that cannot be read.
    BadId,
}

/// What the line from `from` up to `to` holds. The id is what stands
/// before the first comma, the name what stands between the first comma
/// and the second or the end of the line, both without the blanks around
/// them.
pub open spec fn row_at(s: Seq<u8>, from: int, to: int) -> Row {
    let comma = first_at(s, from, to, 44);
    if skip_blanks(s, from, to) >= to || comma >= to {
        Row::Nothing
    } else {
        let id_from = skip_blanks(s, from, comma);
        let id_to = drop_blanks(s, id_from, comma);
        let name_end = first_at(s, comma + 1, to, 44);
        let name_from = skip_blanks(s, comma + 1, name_end);
        let name_to = drop_blanks(s, name_from, name_end);
        match parsed_id(s, id_from, id_to) {
            Some(id) => Row::Symbol { id, name_from, name_to },
            None => Row::BadId,
        }
    }
}

/// A symbol as a line of a table gives it.
pub struct SymbolView {
    pub id: u32,
    pub symbol: Seq<char>,
    pub exchange_id: u32,
}

impl View for SymbolConfig {
    type V = SymbolView;

    open spec fn view(&self) -> SymbolView {
        SymbolView { id: self.id, symbol: self.symbol@, exchange_id: self.exchange_id }
    }
}

/// Where the line that starts at `from` ends: at the next line feed, or
/// at the end of the table.
pub open spec fn line_end(s: Seq<u8>, from: int) -> int {
    let end = first_at(s, from, s.len() as int, 10);
    if end < from {
        from
    } else if end > s.len() {
        s.len() as int
    } else {
        end
    }
}

/// The symbols of the lines from `from` on, in the order of the lines; an
/// error where one of the lines has an id or a name that cannot be read.
pub open spec fn symbols_from(s: Seq<u8>, from: int, exchange_id: u32) -> Result<Seq<SymbolView>, ConfigError>
    decreases s.len() - from + 1,
{
    if from < 0 || from >= s.len() {
        Ok(Seq::empty())
    } else {
        let end = line_end(s, from);
        match row_at(s, from, end) {
            Row::BadId => Err(ConfigError::InvalidSymbolId),
            Row::Nothing => symbols_from(s, end + 1, exchange_id),
            Row::Symbol { id, name_from, name_to } => if !valid_utf8(s.subrange(name_from, name_to)) {
                Err(ConfigError::InvalidSymbolName)
            } else {
                match symbols_from(s, end + 1, exchange_id) {
                    Ok(rest) => Ok(
                        seq![
                            SymbolView {
                                id,
                                symbol: decode_utf8(s.subrange(name_from, name_to)),
                                exchange_id,
                            },
                        ] + rest,
                    ),
                    Err(e) => Err(e),
                }
            },
        }
    }
}

/// The symbols of a table: those of its lines after the first, which is
/// the header.
pub open spec fn symbols_of(table: Seq<u8>, exchange_id: u32) -> Result<Seq<SymbolView>, ConfigError> {
    symbols_from(table, line_end(table, 0) + 1, exchange_id)
}

/// The symbols as their views.
pub open spec fn symbol_views(symbols: Seq<SymbolConfig>) -> Seq<SymbolView> {
    Seq::new(symbols.len(), |i: int| symbols[i]@)
}

pub proof fn lemma_first_at(s: Seq<u8>, from: int, to: int, b: u8)
    requires
        0 <= from <= to <= s.len(),
    ensures
        from <= first_at(s, from, to, b) <= to,
        first_at(s, from, to, b) < to ==> s[first_at(s, from, to, b)] == b,
    decreases to - from,
{
    if from < to && s[from] != b {
        lemma_first_at(s, from + 1, to, b);
    }
}

pub proof fn lemma_skip_blanks(s: Seq<u8>, from: int, to: int)
    requires
        0 <= from <= to <= s.len(),
    ensures
        from <= skip_blanks(s, from, to) <= to,
    decreases to - from,
{
    if from < to && is_blank(s[from]) {
        lemma_skip_blanks(s, from + 1, to);
    }
}

pub proof fn lemma_drop_blanks(s: Seq<u8>, from: int, to: int)
    requires
        0 <= from <= to <= s.len(),
    ensures
        from <= drop_blanks(s, from, to) <= to,
    decreases to - from,
{
    if from < to && is_blank(s[to - 1]) {
        lemma_drop_blanks(s, from, to - 1);
    }
}

/// More digits never make a number smaller.
pub proof fn lemma_number_grows(s: Seq<u8>, from: int, mid: int, to: int)
    requires
        from <= mid <= to,
        number(s, from, to) is Some,
    ensures
        number(s, from, mid) matches Some(v) && 0 <= v <= number(s, from, to)->0,
    decreases to - mid,
{
    lemma_number_nonnegative(s, from, to);
    if mid < to {
        lemma_number_nonnegative(s, from, to - 1);
        lemma_number_grows(s, from, mid, to - 1);
    }
}

pub proof fn lemma_number_nonnegative(s: Seq<u8>, from: int, to: int)
    ensures
        number(s, from, to) matches Some(v) ==> v >= 0,
    decreases to - from,
{
    if to > from {
        lemma_number_nonnegative(s, from, to - 1);
    }
}

/// Where some of the digits are no number, neither are more of them.
pub proof fn lemma_number_fails_on(s: Seq<u8>, from: int, mid: int, to: int)
    requires
        from <= mid <= to,
        number(s, from, mid) is None,
    ensures
        number(s, from, to) is None,
    decreases to - mid,
{
    if mid < to {
        lemma_number_fails_on(s, from, mid, to - 1);
    }
}

/// The place of the first `b` in `s` from `from` up to `to`.
pub fn find_byte(s: &[u8], from: usize, to: usize, b: u8) -> (r: usize)
    requires
        from <= to <= s@.len(),
    ensures
        r == first_at(s@, from as int, to as int, b),
        from <= r <= to,
{
    let mut i = from;
    while i < to && s[i] != b
        invariant
            from <= i <= to,
            to <= s@.len(),
            first_at(s@, from as int, to as int, b) == first_at(s@, i as int, to as int, b),
        decreases to - i,
    {
        i += 1;
    }
    i
}

/// Whether the byte is a blank.
pub fn blank(b: u8) -> (r: bool)
    ensures
        r == is_blank(b),
{
    b == 32 || (9 <= b && b <= 13)
}

/// The bounds of what stands from `from` up to `to`, without the blanks
/// around it.
pub fn trim(s: &[u8], from: usize, to: usize) -> (r: (usize, usize))
    requires
        from <= to <= s@.len(),
    ensures
        r.0 == skip_blanks(s@, from as int, to as int),
        r.1 == drop_blanks(s@, r.0 as int, to as int),
        from <= r.0 <= r.1 <= to,
{
    let mut start = from;
    while start < to && blank(s[start])
        invariant
            from <= start <= to,
            to <= s@.len(),
            skip_blanks(s@, from as int, to as int) == skip_blanks(s@, start as int, to as int),
        decreases to - start,
    {
        start += 1;
    }
    let mut end = to;
    while end > start && blank(s[end - 1])
        invariant
            start <= end <= to,
            to <= s@.len(),
            drop_blanks(s@, start as int, to as int) == drop_blanks(s@, start as int, end as int),
        decreases end - start,
    {
        end -= 1;
    }
    (start, end)
}

/// The 32-bit number that the bytes from `from` up to `to` stand for.
pub fn parse_id(s: &[u8], from: usize, to: usize) -> (r: Option<u32>)
    requires
        from <= to <= s@.len(),
    ensures
        r == parsed_id(s@, from as int, to as int),
{
    let start = if from < to && s[from] == 43 {
        from + 1
    } else {
        from
    };
    if start >= to {
        return None;
    }
    let mut value: u64 = 0;
    let mut i = start;
    while i < to
        invariant
            from <= start <= i <= to,
            start < to,
            to <= s@.len(),
            start == if from < to && s@[from as int] == 43 {
                from + 1
            } else {
                from as int
            },
            number(s@, start as int, i as int) == Some(value as int),
            value <= u32::MAX,
        decreases to - i,
    {
        let b = s[i];
        if !(48 <= b && b <= 57) {
            proof {
                assert(number(s@, start as int, i as int + 1) is None);
                lemma_number_fails_on(s@, start as int, i as int + 1, to as int);
            }
            return None;
        }
        let next: u64 = value * 10 + (b - 48) as u64;
        proof {
            assert(number(s@, start as int, i as int + 1) == Some(next as int));
        }
        if next > u32::MAX as u64 {
            proof {
                if number(s@, start as int, to as int) is Some {
                    lemma_number_grows(s@, start as int, i as int + 1, to as int);
                }
            }
            return None;
        }
        value = next;
        i += 1;
    }
    Some(value as u32)
}

/// Reads a symbol table: the symbols of its lines after the header, each
/// for the given exchange.
pub fn parse_symbols_csv(content: &str, exchange_id: u32) -> (r: Result<Vec<SymbolConfig>, ConfigError>)
    ensures
        match r {
            Ok(symbols) => symbols_of(encode_utf8(content@), exchange_id) == Ok::<
                Seq<SymbolView>,
                ConfigError,
            >(symbol_views(symbols@)),
            Err(e) => symbols_of(encode_utf8(content@), exchange_id) == Err::<
                Seq<SymbolView>,
                ConfigError,
            >(e),
        },
{
    let s = content.as_bytes();
    let n = s.len();
    let header_end = find_byte(s, 0, n, 10);
    let mut symbols: Vec<SymbolConfig> = Vec::new();
    let mut pos: usize = if header_end < n {
        header_end + 1
    } else {
        n
    };
    let ghost start = line_end(s@, 0) + 1;
    proof {
        assert(symbol_views(symbols@) =~= Seq::<SymbolView>::empty());
        assert(line_end(s@, 0) == header_end);
        assert(symbols_from(s@, start, exchange_id) == symbols_from(s@, pos as int, exchange_id));
        match symbols_from(s@, pos as int, exchange_id) {
            Ok(rest) => {
                assert(symbol_views(symbols@) + rest =~= rest);
            },
            Err(_) => {},
        }
    }
    while pos < n
        invariant
            pos <= n,
            n == s@.len(),
            s@ == encode_utf8(content@),
            start == line_end(s@, 0) + 1,
            symbols_from(s@, start, exchange_id) == (match symbols_from(s@, pos as int, exchange_id) {
                Ok(rest) => Ok::<Seq<SymbolView>, ConfigError>(symbol_views(symbols@) + rest),
                Err(e) => Err::<Seq<SymbolView>, ConfigError>(e),
            }),
        decreases n - pos,
    {
        let end = find_byte(s, pos, n, 10);
        let ghost before = symbol_views(symbols@);
        let ghost row = row_at(s@, pos as int, end as int);
        let ghost following = symbols_from(s@, end as int + 1, exchange_id);
        proof {
            assert(line_end(s@, pos as int) == end);
        }
        let (line_start, _) = trim(s, pos, end);
        let comma = find_byte(s, pos, end, 44);
        if !(line_start >= end || comma >= end) {
            let (id_from, id_to) = trim(s, pos, comma);
            let name_end = find_byte(s, comma + 1, end, 44);
            let (name_from, name_to) = trim(s, comma + 1, name_end);
            let id = match parse_id(s, id_from, id_to) {
                Some(id) => id,
                None => {
                    proof {
                        assert(row is BadId);
                    }
                    return Err(ConfigError::InvalidSymbolId);
                },
            };
            proof {
                assert(row == Row::Symbol { id, name_from: name_from as int, name_to: name_to as int });
            }
            let symbol = match string_from_utf8(slice_to_vec(slice_subrange(s, name_from, name_to))) {
                Some(t) => t,
                None => {
                    return Err(ConfigError::InvalidSymbolName);
                },
            };
            symbols.push(SymbolConfig { id, symbol, exchange_id });
            proof {
                let added = SymbolView {
                    id,
                    symbol: decode_utf8(s@.subrange(name_from as int, name_to as int)),
                    exchange_id,
                };
                assert(symbol_views(symbols@) =~= before.push(added));
                match following {
                    Ok(rest) => {
                        assert(before + (seq![added] + rest) =~= before.push(added) + rest);
                    },
                    Err(_) => {},
                }
            }
        } else {
            proof {
                assert(row is Nothing);
            }
        }
        proof {
            if end == n {
                assert(following == symbols_from(s@, n as int, exchange_id));
            }
        }
        pos = if end < n {
            end + 1
        } else {
            n
        };
    }
    proof {
        assert(symbol_views(symbols@) + Seq::<SymbolView>::empty() =~= symbol_views(symbols@));
    }
    Ok(symbols)
}

/// The markets that the system knows. The symbols of the exchange at a
/// place of `exchanges` stand at the same place of `symbols`, where the
/// exchange has a symbol table.
#[derive(Debug)]
pub struct MarketConfig {
    exchanges: Vec<ExchangeConfig>,
    symbols: Vec<Option<Vec<SymbolConfig>>>,
    /// The exchange that counts for each id: the id, and the place of the
    /// last exchange of the list that has it. No id stands here twice.
    by_id: Vec<(u32, usize)>,
}

/// The place of the last of the first `upto` exchanges that meets the
/// condition, or -1: where two exchanges share an id or a name, the later
/// one counts.
pub open spec fn last_place(upto: int, wanted: spec_fn(int) -> bool) -> int
    decreases upto,
{
    if upto <= 0 {
        -1
    } else if wanted(upto - 1) {
        upto - 1
    } else {
        last_place(upto - 1, wanted)
    }
}

/// The place of the first of the symbols from `from` on that has the
/// given name, or -1.
pub open spec fn first_named(symbols: Seq<SymbolConfig>, name: Seq<char>, from: int) -> int
    decreases symbols.len() - from,
{
    if from < 0 || from >= symbols.len() {
        -1
    } else if symbols[from].symbol@ == name {
        from
    } else {
        first_named(symbols, name, from + 1)
    }
}

/// The place of the last of the first `upto` symbols that has the given
/// id, or -1.
pub open spec fn last_with_id(symbols: Seq<SymbolConfig>, id: u32, upto: int) -> int
    decreases upto,
{
    if upto <= 0 {
        -1
    } else if symbols[upto - 1].id == id {
        upto - 1
    } else {
        last_with_id(symbols, id, upto - 1)
    }
}

/// The last place below `upto` that is wanted lies below `upto`, is wanted
/// where there is one, and no later place below `upto` is wanted.
pub proof fn lemma_last_place(upto: int, wanted: spec_fn(int) -> bool)
    requires
        0 <= upto,
    ensures
        -1 <= last_place(upto, wanted) < upto,
        last_place(upto, wanted) >= 0 ==> wanted(last_place(upto, wanted)),
        forall|j: int| last_place(upto, wanted) < j < upto ==> !#[trigger] wanted(j),
    decreases upto,
{
    if upto > 0 && !wanted(upto - 1) {
        lemma_last_place(upto - 1, wanted);
    }
}

/// Two conditions that agree below `upto` have the same last place
/// below `upto`.
pub proof fn lemma_same_place(upto: int, one: spec_fn(int) -> bool, other: spec_fn(int) -> bool)
    requires
        forall|j: int| 0 <= j < upto ==> #[trigger] one(j) == other(j),
    ensures
        last_place(upto, one) == last_place(upto, other),
    decreases upto,
{
    if upto > 0 {
        lemma_same_place(upto - 1, one, other);
    }
}

/// The place of the last of the first `upto` exchanges that has the given
/// id, or -1.
pub open spec fn last_with_exchange_id(exchanges: Seq<ExchangeConfig>, id: u32, upto: int) -> int {
    last_place(upto, |i: int| exchanges[i].id == id)
}

/// The index holds each id of the first `upto` exchanges once, with the
/// place of the last of them that has it.
pub open spec fn indexes(index: Seq<(u32, usize)>, exchanges: Seq<ExchangeConfig>, upto: int) -> bool {
    &&& forall|a: int, b: int|
        0 <= a < b < index.len() ==> (#[trigger] index[a]).0 != (#[trigger] index[b]).0
    &&& forall|a: int|
        0 <= a < index.len() ==> (#[trigger] index[a]).1 as int == last_with_exchange_id(
            exchanges,
            index[a].0,
            upto,
        ) && index[a].1 < upto
    &&& forall|i: int| 0 <= i < upto ==> names(index, (#[trigger] exchanges[i]).id)
}

/// The index names the id.
pub open spec fn names(index: Seq<(u32, usize)>, id: u32) -> bool {
    exists|a: int| 0 <= a < index.len() && (#[trigger] index[a]).0 == id
}

/// The index of the exchanges by id: the later of two exchanges of one id
/// takes the place of the earlier.
fn index_by_id(exchanges: &Vec<ExchangeConfig>) -> (r: Vec<(u32, usize)>)
    ensures
        indexes(r@, exchanges@, exchanges@.len() as int),
{
    let mut index: Vec<(u32, usize)> = Vec::new();
    let mut i: usize = 0;
    while i < exchanges.len()
        invariant
            i <= exchanges@.len(),
            indexes(index@, exchanges@, i as int),
        decreases exchanges@.len() - i,
    {
        let id = exchanges[i].id;
        let ghost before = index@;
        let mut k: usize = 0;
        let mut found = false;
        while k < index.len() && !found
            invariant
                k <= index@.len(),
                index@ == before,
                !found ==> forall|a: int| 0 <= a < k ==> (#[trigger] index@[a]).0 != id,
                found ==> k < index@.len() && index@[k as int].0 == id,
            decreases index@.len() - k + (if found { 0int } else { 1int }),
        {
            if index[k].0 == id {
                found = true;
            } else {
                k += 1;
            }
        }
        if found {
            index.set(k, (id, i));
        } else {
            index.push((id, i));
        }
        proof {
            let after = index@;
            assert forall|a: int| 0 <= a < after.len() implies (#[trigger] after[a]).1 as int
                == last_with_exchange_id(exchanges@, after[a].0, i + 1) && after[a].1 < i + 1 by {
                if after[a].0 != id {
                    assert(after[a] == before[a]);
                }
            }
            assert forall|a: int, b: int| 0 <= a < b < after.len() implies (#[trigger] after[a]).0 != (
            #[trigger] after[b]).0 by {
                if found {
                    if a != k {
                        assert(after[a] == before[a]);
                    }
                    if b != k {
                        assert(after[b] == before[b]);
                    }
                } else {
                    if b < before.len() {
                        assert(after[a] == before[a] && after[b] == before[b]);
                    } else {
                        assert(after[a] == before[a]);
                    }
                }
            }
            assert forall|j: int| 0 <= j < i + 1 implies names(after, (#[trigger] exchanges@[j]).id) by {
                if exchanges@[j].id == id {
                    let a = if found {
                        k as int
                    } else {
                        before.len() as int
                    };
                    assert(after[a].0 == id);
                } else {
                    assert(names(before, exchanges@[j].id));
                    let a = choose|a: int| 0 <= a < before.len() && (#[trigger] before[a]).0 == exchanges@[j].id;
                    assert(after[a] == before[a]);
                }
            }
        }
        i += 1;
    }
    index
}

impl MarketConfig {
    /// The index by id: each id of the list once, with the place of the
    /// exchange that counts for it.
    pub closed spec fn index_spec(self) -> Seq<(u32, usize)> {
        self.by_id@
    }

    /// No two exchanges of the list have the same id.
    pub open spec fn ids_distinct(self) -> bool {
        forall|i: int, j: int|
            0 <= i < j < self.exchanges_spec().len() ==> (#[trigger] self.exchanges_spec()[i]).id != (
            #[trigger] self.exchanges_spec()[j]).id
    }

    /// Where no two exchanges have the same id, every exchange of the
    /// list is the one that is found under its id.
    pub proof fn lemma_listed_is_found(self, i: int)
        requires
            self.ids_distinct(),
            0 <= i < self.exchanges_spec().len(),
        ensures
            self.place_of_id(self.exchanges_spec()[i].id) == i,
    {
        let id = self.exchanges_spec()[i].id;
        let wanted = |j: int| self.exchanges_spec()[j].id == id;
        lemma_last_place(self.exchanges_spec().len() as int, wanted);
        let found = last_place(self.exchanges_spec().len() as int, wanted);
        assert(wanted(i));
        if found > i {
            assert(wanted(found));
        }
        if found >= 0 && found < i {
            assert(wanted(found));
        }
    }

    /// Whether no two exchanges of the list have the same id.
    pub fn has_distinct_ids(&self) -> (r: bool)
        ensures
            r == self.ids_distinct(),
    {
        let mut j: usize = 0;
        while j < self.exchanges.len()
            invariant
                j <= self.exchanges@.len(),
                forall|a: int, b: int|
                    0 <= a < b < j ==> (#[trigger] self.exchanges@[a]).id != (#[trigger] self.exchanges@[b]).id,
            decreases self.exchanges@.len() - j,
        {
            let mut i: usize = 0;
            while i < j
                invariant
                    i <= j,
                    j < self.exchanges@.len(),
                    forall|a: int| 0 <= a < i ==> (#[trigger] self.exchanges@[a]).id != self.exchanges@[j as int].id,
                decreases j - i,
            {
                if self.exchanges[i].id == self.exchanges[j].id {
                    proof {
                        assert(self.exchanges_spec()[i as int].id == self.exchanges_spec()[j as int].id);
                    }
                    return false;
                }
                i += 1;
            }
            j += 1;
        }
        true
    }

    /// The exchanges, in the order of the configuration.
    pub closed spec fn exchanges_spec(self) -> Seq<ExchangeConfig> {
        self.exchanges@
    }

    /// The symbols of each exchange, at the place of the exchange.
    pub closed spec fn symbols_spec(self) -> Seq<Option<Vec<SymbolConfig>>> {
        self.symbols@
    }

    /// There are as many places for symbols as exchanges, and the index
    /// by id holds each id of the list once, with the place of the last
    /// exchange that has it.
    pub closed spec fn wf(self) -> bool {
        &&& self.exchanges@.len() == self.symbols@.len()
        &&& indexes(self.by_id@, self.exchanges@, self.exchanges@.len() as int)
    }

    /// The index by id names no id twice, and names for every id of the
    /// list the exchange that is found under it.
    pub proof fn lemma_index(self)
        requires
            self.wf(),
        ensures
            forall|a: int, b: int|
                0 <= a < b < self.index_spec().len() ==> (#[trigger] self.index_spec()[a]).0 != (
                #[trigger] self.index_spec()[b]).0,
            forall|a: int|
                0 <= a < self.index_spec().len() ==> (#[trigger] self.index_spec()[a]).1 as int
                    == self.place_of_id(self.index_spec()[a].0),
            forall|i: int|
                0 <= i < self.exchanges_spec().len() ==> names(
                    self.index_spec(),
                    (#[trigger] self.exchanges_spec()[i]).id,
                ),
    {
    }

    /// The place of the exchange with the given id.
    pub open spec fn place_of_id(self, id: u32) -> int {
        last_place(
            self.exchanges_spec().len() as int,
            |i: int| self.exchanges_spec()[i].id == id,
        )
    }

    /// The place of the exchange with the given name.
    pub open spec fn place_of_name(self, name: Seq<char>) -> int {
        last_place(
            self.exchanges_spec().len() as int,
            |i: int| self.exchanges_spec()[i].name@ == name,
        )
    }

    /// The place of the exchange with the given id that has symbols.
    pub open spec fn place_with_symbols(self, id: u32) -> int {
        last_place(
            self.exchanges_spec().len() as int,
            |i: int| self.exchanges_spec()[i].id == id && self.symbols_spec()[i] is Some,
        )
    }

    /// The symbols of the exchange with the given id, if it has any.
    pub open spec fn symbols_of_exchange(self, id: u32) -> Option<Seq<SymbolConfig>> {
        if self.place_with_symbols(id) >= 0 {
            match self.symbols_spec()[self.place_with_symbols(id)] {
                Some(list) => Some(list@),
                None => None,
            }
        } else {
            None
        }
    }

    /// Takes the exchanges of a configuration and the symbol tables of
    /// those that have one, table by table in the order of the exchanges.
    pub fn from_parts(exchanges: Vec<ExchangeConfig>, tables: Vec<Option<String>>) -> (r: Result<
        MarketConfig,
        ConfigError,
    >)
        ensures
            match r {
                Ok(config) => {
                    &&& config.wf()
                    &&& tables@.len() == exchanges@.len()
                    &&& config.exchanges_spec() == exchanges@
                    &&& config.symbols_spec().len() == tables@.len()
                    &&& forall|i: int|
                        0 <= i < tables@.len() ==> match #[trigger] tables@[i] {
                            Some(t) => config.symbols_spec()[i] matches Some(symbols) && symbols_of(
                                encode_utf8(t@),
                                exchanges@[i].id,
                            ) == Ok::<Seq<SymbolView>, ConfigError>(symbol_views(symbols@)),
                            None => config.symbols_spec()[i] is None,
                        }
                },
                Err(e) => if tables@.len() != exchanges@.len() {
                    e == ConfigError::TableCountMismatch
                } else {
                    exists|i: int|
                        0 <= i < tables@.len() && (#[trigger] tables@[i]) is Some && symbols_of(
                            encode_utf8(tables@[i]->0@),
                            exchanges@[i].id,
                        ) == Err::<Seq<SymbolView>, ConfigError>(e)
                },
            },
    {
        if tables.len() != exchanges.len() {
            return Err(ConfigError::TableCountMismatch);
        }
        let mut symbols: Vec<Option<Vec<SymbolConfig>>> = Vec::new();
        let mut i: usize = 0;
        while i < tables.len()
            invariant
                i <= tables@.len(),
                tables@.len() == exchanges@.len(),
                symbols@.len() == i,
                forall|j: int|
                    0 <= j < i ==> match #[trigger] tables@[j] {
                        Some(t) => symbols@[j] matches Some(list) && symbols_of(
                            encode_utf8(t@),
                            exchanges@[j].id,
                        ) == Ok::<Seq<SymbolView>, ConfigError>(symbol_views(list@)),
                        None => symbols@[j] is None,
                    },
            decreases tables@.len() - i,
        {
            match &tables[i] {
                Some(t) => {
                    let list = parse_symbols_csv(t.as_str(), exchanges[i].id)?;
                    symbols.push(Some(list));
                },
                None => {
                    symbols.push(None);
                },
            }
            i += 1;
        }
        let by_id = index_by_id(&exchanges);
        Ok(MarketConfig { exchanges, symbols, by_id })
    }

    /// The place of the last exchange that meets the condition `by_id` or
    /// `by_name` asks for, and has symbols where `with_symbols` is set.
    fn find_exchange(&self, id: u32, with_symbols: bool) -> (r: Option<usize>)
        requires
            self.wf(),
        ensures
            match r {
                Some(i) => i < self.exchanges_spec().len() && i == (if with_symbols {
                    self.place_with_symbols(id)
                } else {
                    self.place_of_id(id)
                }) && self.exchanges_spec()[i as int].id == id && (with_symbols
                    ==> self.symbols_spec()[i as int] is Some),
                None => (if with_symbols {
                    self.place_with_symbols(id)
                } else {
                    self.place_of_id(id)
                }) == -1,
            },
    {
        let mut i = self.exchanges.len();
        let ghost by_id = |j: int| self.exchanges_spec()[j].id == id;
        let ghost by_both = |j: int| self.exchanges_spec()[j].id == id && self.symbols_spec()[j] is Some;
        while i > 0
            invariant
                i <= self.exchanges@.len(),
                self.exchanges@.len() == self.symbols@.len(),
                by_id == (|j: int| self.exchanges_spec()[j].id == id),
                by_both == (|j: int| self.exchanges_spec()[j].id == id && self.symbols_spec()[j] is Some),
                last_place(self.exchanges@.len() as int, by_id) == last_place(i as int, by_id)
                    || last_place(self.exchanges@.len() as int, by_id) >= i,
                last_place(self.exchanges@.len() as int, by_both) == last_place(i as int, by_both)
                    || last_place(self.exchanges@.len() as int, by_both) >= i,
                !with_symbols ==> last_place(self.exchanges@.len() as int, by_id) == last_place(
                    i as int,
                    by_id,
                ),
                with_symbols ==> last_place(self.exchanges@.len() as int, by_both) == last_place(
                    i as int,
                    by_both,
                ),
            decreases i,
        {
            i -= 1;
            if self.exchanges[i].id == id && (!with_symbols || self.symbols[i].is_some()) {
                return Some(i);
            }
        }
        None
    }

    /// The exchange with the given id.
    pub fn get_exchange(&self, exchange_id: u32) -> (r: Option<&ExchangeConfig>)
        requires
            self.wf(),
        ensures
            match r {
                Some(e) => self.place_of_id(exchange_id) >= 0 && *e == self.exchanges_spec()[
                self.place_of_id(exchange_id)],
                None => self.place_of_id(exchange_id) == -1,
            },
    {
        match self.indexed_place(exchange_id) {
            Some(i) => Some(&self.exchanges[i]),
            None => None,
        }
    }

    /// The place of the exchange that counts for the given id, by the
    /// index.
    fn indexed_place(&self, id: u32) -> (r: Option<usize>)
        requires
            self.wf(),
        ensures
            match r {
                Some(i) => i < self.exchanges_spec().len() && i == self.place_of_id(id)
                    && self.exchanges_spec()[i as int].id == id,
                None => self.place_of_id(id) == -1,
            },
    {
        let mut a: usize = 0;
        while a < self.by_id.len()
            invariant
                a <= self.by_id@.len(),
                self.wf(),
                forall|b: int| 0 <= b < a ==> (#[trigger] self.by_id@[b]).0 != id,
            decreases self.by_id@.len() - a,
        {
            if self.by_id[a].0 == id {
                proof {
                    assert(self.by_id@[a as int].1 as int == last_with_exchange_id(
                        self.exchanges@,
                        id,
                        self.exchanges@.len() as int,
                    ));
                    lemma_same_place(
                        self.exchanges@.len() as int,
                        |i: int| self.exchanges@[i].id == id,
                        |i: int| self.exchanges_spec()[i].id == id,
                    );
                    lemma_last_place(
                        self.exchanges_spec().len() as int,
                        |i: int| self.exchanges_spec()[i].id == id,
                    );
                }
                return Some(self.by_id[a].1);
            }
            a += 1;
        }
        proof {
            lemma_last_place(
                self.exchanges_spec().len() as int,
                |i: int| self.exchanges_spec()[i].id == id,
            );
            let place = self.place_of_id(id);
            if place >= 0 {
                assert(names(self.by_id@, self.exchanges@[place].id));
            }
        }
        None
    }

    /// The id of the exchange with the given name.
    pub fn get_exchange_id(&self, name: &str) -> (r: Option<u32>)
        requires
            self.wf(),
        ensures
            match r {
                Some(id) => self.place_of_name(name@) >= 0 && id == self.exchanges_spec()[
                self.place_of_name(name@)].id,
                None => self.place_of_name(name@) == -1,
            },
    {
        let mut i = self.exchanges.len();
        let ghost by_name = |j: int| self.exchanges_spec()[j].name@ == name@;
        while i > 0
            invariant
                i <= self.exchanges@.len(),
                by_name == (|j: int| self.exchanges_spec()[j].name@ == name@),
                last_place(self.exchanges@.len() as int, by_name) == last_place(i as int, by_name),
            decreases i,
        {
            i -= 1;
            if str_equal(self.exchanges[i].name.as_str(), name) {
                return Some(self.exchanges[i].id);
            }
        }
        None
    }

    /// The name of the exchange with the given id.
    pub fn get_exchange_name(&self, exchange_id: u32) -> (r: Option<String>)
        requires
            self.wf(),
        ensures
            match r {
                Some(name) => self.place_of_id(exchange_id) >= 0 && name == self.exchanges_spec()[
                self.place_of_id(exchange_id)].name,
                None => self.place_of_id(exchange_id) == -1,
            },
    {
        match self.find_exchange(exchange_id, false) {
            Some(i) => Some(self.exchanges[i].name.clone()),
            None => None,
        }
    }

    /// The symbols of the exchange with the given id.
    pub fn get_symbols(&self, exchange_id: u32) -> (r: Option<&Vec<SymbolConfig>>)
        requires
            self.wf(),
        ensures
            match r {
                Some(list) => self.place_with_symbols(exchange_id) >= 0 && Some(*list)
                    == self.symbols_spec()[self.place_with_symbols(exchange_id)]
                    && self.symbols_of_exchange(exchange_id) == Some(list@),
                None => self.place_with_symbols(exchange_id) == -1 && self.symbols_of_exchange(
                    exchange_id,
                ) is None,
            },
    {
        match self.find_exchange(exchange_id, true) {
            Some(i) => self.symbols[i].as_ref(),
            None => None,
        }
    }

    /// The symbol with the given id of the exchange with the given id;
    /// where the table names an id twice, the later line counts.
    pub fn get_symbol(&self, exchange_id: u32, symbol_id: u32) -> (r: Option<&SymbolConfig>)
        requires
            self.wf(),
        ensures
            match (r, self.symbols_of_exchange(exchange_id)) {
                (Some(symbol), Some(list)) => symbol.id == symbol_id && last_with_id(
                    list,
                    symbol_id,
                    list.len() as int,
                ) >= 0 && *symbol == list[last_with_id(list, symbol_id, list.len() as int)],
                (None, Some(list)) => last_with_id(list, symbol_id, list.len() as int) == -1,
                (None, None) => true,
                (Some(_), None) => false,
            },
    {
        let list = match self.get_symbols(exchange_id) {
            Some(list) => list,
            None => {
                return None;
            },
        };
        let mut i = list.len();
        while i > 0
            invariant
                i <= list@.len(),
                self.symbols_of_exchange(exchange_id) == Some(list@),
                last_with_id(list@, symbol_id, list@.len() as int) == last_with_id(
                    list@,
                    symbol_id,
                    i as int,
                ),
            decreases i,
        {
            i -= 1;
            if list[i].id == symbol_id {
                return Some(&list[i]);
            }
        }
        None
    }

    /// The id of the first symbol with the given name of the exchange with
    /// the given id.
    pub fn find_symbol_id(&self, exchange_id: u32, symbol_name: &str) -> (r: Option<u32>)
        requires
            self.wf(),
        ensures
            match (r, self.symbols_of_exchange(exchange_id)) {
                (Some(id), Some(list)) => first_named(list, symbol_name@, 0) >= 0 && id == list[
                first_named(list, symbol_name@, 0)].id,
                (None, Some(list)) => first_named(list, symbol_name@, 0) == -1,
                (None, None) => true,
                (Some(_), None) => false,
            },
    {
        let list = match self.get_symbols(exchange_id) {
            Some(list) => list,
            None => {
                return None;
            },
        };
        let mut i: usize = 0;
        while i < list.len()
            invariant
                i <= list@.len(),
                self.symbols_of_exchange(exchange_id) == Some(list@),
                first_named(list@, symbol_name@, 0) == first_named(list@, symbol_name@, i as int),
            decreases list@.len() - i,
        {
            if str_equal(list[i].symbol.as_str(), symbol_name) {
                return Some(list[i].id);
            }
            i += 1;
        }
        None
    }

    /// The exchanges, in the order of the configuration.
    pub fn get_exchanges(&self) -> (r: &Vec<ExchangeConfig>)
        ensures
            r@ == self.exchanges_spec(),
    {
        &self.exchanges
    }
}

} // verus!
