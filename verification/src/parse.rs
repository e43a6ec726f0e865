use vstd::prelude::*;
use vstd::string::StringSliceAdditionalSpecFns;
use crate::tilemap::MAP_CELLS;

verus! {

/// Why a layer could not be read from the text of a map.
#[derive(Clone, Copy, Debug, PartialEq, Eq, Structural)]
pub enum LayerFault {
    /// The text names no such layer.
    MissingLayer,
    /// No data block opens after the layer's name.
    MissingData,
    /// The data block of the layer is not closed.
    UnclosedData,
    /// A cell is not a non-negative whole number that fits the machine.
    BadCell,
    /// The layer does not hold one value for each cell of the map.
    WrongLength,
}

/// `needle` stands in `hay` at position `at`.
pub open spec fn is_match(hay: Seq<u8>, needle: Seq<u8>, at: int) -> bool {
    &&& 0 <= at
    &&& at + needle.len() <= hay.len()
    &&& forall|k: int| 0 <= k < needle.len() ==> hay[at + k] == #[trigger] needle[k]
}

/// `at` is the first position at or after `from` where `needle` stands in
/// `hay`.
pub open spec fn first_match_from(hay: Seq<u8>, needle: Seq<u8>, from: int, at: int) -> bool {
    &&& from <= at
    &&& is_match(hay, needle, at)
    &&& forall|j: int| from <= j < at ==> !is_match(hay, needle, j)
}

/// The first position at or after `from` where `needle` stands in `hay`.
pub open spec fn find_from(hay: Seq<u8>, needle: Seq<u8>, from: int) -> Option<int> {
    if exists|at: int| first_match_from(hay, needle, from, at) {
        Some(choose|at: int| first_match_from(hay, needle, from, at))
    } else {
        None
    }
}

/// There is one first match at most.
pub proof fn lemma_first_match_unique(hay: Seq<u8>, needle: Seq<u8>, from: int, a: int, b: int)
    requires
        first_match_from(hay, needle, from, a),
        first_match_from(hay, needle, from, b),
    ensures
        a == b,
{
}

/// Where `needle` first stands in `hay` at or after `from`.
pub fn find(hay: &[u8], needle: &[u8], from: usize) -> (found: Option<usize>)
    ensures
        match found {
            Some(at) => {
                &&& find_from(hay@, needle@, from as int) == Some(at as int)
                &&& from <= at
                &&& at + needle.len() <= hay.len()
            },
            None => find_from(hay@, needle@, from as int) is None,
        },
{
    let n = needle.len();
    if from > hay.len() || n > hay.len() - from {
        assert forall|at: int| !first_match_from(hay@, needle@, from as int, at) by {}
        return None;
    }
    let limit: usize = hay.len() - n;
    let mut at: usize = from;
    while at <= limit
        invariant
            from <= at,
            at <= limit + 1,
            n == needle.len(),
            limit == hay.len() - n,
            forall|j: int| from <= j < at ==> !is_match(hay@, needle@, j),
        decreases limit + 1 - at,
    {
        let mut k: usize = 0;
        while k < n && hay[at + k] == needle[k]
            invariant
                k <= n,
                n == needle.len(),
                at + n <= hay.len(),
                forall|q: int| 0 <= q < k ==> hay@[at + q] == #[trigger] needle@[q],
            decreases n - k,
        {
            k += 1;
        }
        if k == n {
            proof {
                assert(first_match_from(hay@, needle@, from as int, at as int));
                let c = choose|c: int| first_match_from(hay@, needle@, from as int, c);
                lemma_first_match_unique(hay@, needle@, from as int, c, at as int);
            }
            return Some(at);
        }
        assert(!is_match(hay@, needle@, at as int)) by {
            assert(hay@[at + k] != needle@[k as int]);
        }
        if at == limit {
            assert forall|c: int| !first_match_from(hay@, needle@, from as int, c) by {}
            return None;
        }
        at += 1;
    }
    assert forall|c: int| !first_match_from(hay@, needle@, from as int, c) by {}
    None
}

/// The byte that parts two cells.
pub const COMMA: u8 = 44;

/// The sign that may stand before a number.
pub const PLUS: u8 = 43;

/// The digit zero.
pub const DIGIT_ZERO: u8 = 48;

/// The digit nine.
pub const DIGIT_NINE: u8 = 57;

/// Blank, tab, line feed, vertical tab, form feed or carriage return.
pub open spec fn is_space(b: u8) -> bool {
    b == 32 || (9 <= b <= 13)
}

/// One of the ten digits.
pub open spec fn is_digit(b: u8) -> bool {
    DIGIT_ZERO <= b <= DIGIT_NINE
}

/// `s` without the space at its two ends.
pub open spec fn trimmed(s: Seq<u8>) -> Seq<u8>
    decreases s.len(),
{
    if s.len() > 0 && is_space(s[0]) {
        trimmed(s.drop_first())
    } else if s.len() > 0 && is_space(s.last()) {
        trimmed(s.drop_last())
    } else {
        s
    }
}

/// The number that a row of digits writes in base ten.
pub open spec fn digits_value(s: Seq<u8>) -> nat
    decreases s.len(),
{
    if s.len() == 0 {
        0
    } else {
        digits_value(s.drop_last()) * 10 + (s.last() - DIGIT_ZERO) as nat
    }
}

/// `s` without the plus sign that may stand at its front.
pub open spec fn unsigned(s: Seq<u8>) -> Seq<u8> {
    if s.len() > 0 && s[0] == PLUS {
        s.drop_first()
    } else {
        s
    }
}

/// Every byte of `s` is a digit.
pub open spec fn all_digits(s: Seq<u8>) -> bool {
    forall|i: int| 0 <= i < s.len() ==> is_digit(#[trigger] s[i])
}

/// The number that `s` writes: digits, at least one, after at most one plus
/// sign, and not more than the machine can hold.
pub open spec fn number(s: Seq<u8>) -> Option<usize> {
    let digits = unsigned(s);
    if digits.len() > 0 && all_digits(digits) && digits_value(digits) <= usize::MAX {
        Some(digits_value(digits) as usize)
    } else {
        None
    }
}

/// The value of one cell: the number that is left when the space around
/// it is taken away.
pub open spec fn cell_value(cell: Seq<u8>) -> Option<usize> {
    number(trimmed(cell))
}

/// The cells of a data block: the stretches between its commas, so one more
/// than there are commas.
pub open spec fn split_cells(s: Seq<u8>) -> Seq<Seq<u8>>
    decreases s.len(),
{
    if s.len() == 0 {
        seq![Seq::<u8>::empty()]
    } else {
        let before = split_cells(s.drop_last());
        if s.last() == COMMA {
            before.push(Seq::<u8>::empty())
        } else {
            before.update(before.len() - 1, before.last().push(s.last()))
        }
    }
}

/// The values of the cells of a data block, if every cell has one.
pub open spec fn cell_values(s: Seq<u8>) -> Option<Seq<usize>> {
    let cells = split_cells(s);
    if forall|i: int| 0 <= i < cells.len() ==> (#[trigger] cell_value(cells[i])) is Some {
        Some(Seq::new(cells.len(), |i: int| cell_value(cells[i]).unwrap()))
    } else {
        None
    }
}

/// Space at the front does not change what is left after trimming.
proof fn lemma_trim_front(s: Seq<u8>, from: int, a: int, to: int)
    requires
        0 <= from <= a <= to <= s.len(),
        forall|i: int| from <= i < a ==> is_space(s[i]),
    ensures
        trimmed(s.subrange(from, to)) == trimmed(s.subrange(a, to)),
    decreases a - from,
{
    if from < a {
        let whole = s.subrange(from, to);
        assert(whole[0] == s[from]);
        assert(whole.drop_first() =~= s.subrange(from + 1, to));
        lemma_trim_front(s, from + 1, a, to);
    }
}

/// Space at the back, behind a front that is not space, does not change
/// what is left after trimming.
proof fn lemma_trim_back(s: Seq<u8>, a: int, b: int, to: int)
    requires
        0 <= a <= b <= to <= s.len(),
        a < to ==> !is_space(s[a]),
        forall|i: int| b <= i < to ==> is_space(s[i]),
        a < b ==> !is_space(s[b - 1]),
    ensures
        trimmed(s.subrange(a, to)) == s.subrange(a, b),
    decreases to - b,
{
    let whole = s.subrange(a, to);
    if b < to {
        // the first byte is not space and the last one is, so they are two
        assert(whole[0] == s[a]);
        assert(whole.last() == s[to - 1]);
        assert(a < to - 1);
        assert(whole.drop_last() =~= s.subrange(a, to - 1));
        lemma_trim_back(s, a, b, to - 1);
    } else if a < b {
        assert(whole[0] == s[a]);
        assert(whole.last() == s[b - 1]);
    }
}

/// The number that the bytes of `s` from `from` up to `to` write, space
/// around it left aside.
fn parse_cell(s: &[u8], from: usize, to: usize) -> (value: Option<usize>)
    requires
        from <= to <= s.len(),
    ensures
        value == cell_value(s@.subrange(from as int, to as int)),
{
    let mut a: usize = from;
    while a < to && (s[a] == 32 || (9 <= s[a] && s[a] <= 13))
        invariant
            from <= a <= to <= s.len(),
            forall|i: int| from <= i < a ==> is_space(s@[i]),
        decreases to - a,
    {
        a += 1;
    }
    let mut b: usize = to;
    while b > a && (s[b - 1] == 32 || (9 <= s[b - 1] && s[b - 1] <= 13))
        invariant
            a <= b <= to <= s.len(),
            forall|i: int| b <= i < to ==> is_space(s@[i]),
        decreases b - a,
    {
        b -= 1;
    }
    proof {
        lemma_trim_front(s@, from as int, a as int, to as int);
        lemma_trim_back(s@, a as int, b as int, to as int);
    }
    let ghost text = s@.subrange(a as int, b as int);
    assert(trimmed(s@.subrange(from as int, to as int)) == text);
    let start: usize = if a < b && s[a] == PLUS {
        a + 1
    } else {
        a
    };
    let ghost digits = s@.subrange(start as int, b as int);
    assert(digits =~= unsigned(text));
    if start == b {
        return None;
    }
    let mut i: usize = start;
    let mut value: usize = 0;
    let mut fits = true;
    let mut numeric = true;
    while i < b
        invariant
            start <= i <= b <= s.len(),
            digits == s@.subrange(start as int, b as int),
            numeric <==> all_digits(digits.take(i - start)),
            numeric && fits ==> value == digits_value(digits.take(i - start)),
            numeric && !fits ==> digits_value(digits.take(i - start)) > usize::MAX,
        decreases b - i,
    {
        let c = s[i];
        proof {
            assert(digits[i - start] == c);
            assert(digits.take(i - start + 1).drop_last() =~= digits.take(i - start));
            assert(digits.take(i - start + 1).last() == c);
            if all_digits(digits.take(i - start + 1)) {
                assert forall|j: int| 0 <= j < i - start implies is_digit(
                    #[trigger] digits.take(i - start)[j],
                ) by {
                    assert(digits.take(i - start)[j] == digits.take(i - start + 1)[j]);
                }
                assert(is_digit(digits.take(i - start + 1)[i - start]));
            }
            if all_digits(digits.take(i - start)) && is_digit(c) {
                assert forall|j: int| 0 <= j < i - start + 1 implies is_digit(
                    #[trigger] digits.take(i - start + 1)[j],
                ) by {
                    if j < i - start {
                        assert(digits.take(i - start)[j] == digits.take(i - start + 1)[j]);
                    }
                }
            }
        }
        if c < DIGIT_ZERO || c > DIGIT_NINE {
            numeric = false;
        } else if fits {
            let d: usize = (c - DIGIT_ZERO) as usize;
            match value.checked_mul(10) {
                Some(tens) => match tens.checked_add(d) {
                    Some(sum) => {
                        value = sum;
                    },
                    None => {
                        fits = false;
                    },
                },
                None => {
                    fits = false;
                },
            }
        }
        i += 1;
    }
    assert(digits.take(b - start) =~= digits);
    if numeric && fits {
        Some(value)
    } else {
        None
    }
}

/// The values of the cells of a data block.
fn parse_cells(s: &[u8]) -> (values: Option<Vec<usize>>)
    ensures
        match values {
            Some(v) => cell_values(s@) == Some(v@),
            None => cell_values(s@) is None,
        },
{
    let mut values: Vec<usize> = Vec::new();
    let mut good = true;
    let mut start: usize = 0;
    let mut i: usize = 0;
    while i < s.len()
        invariant
            start <= i <= s.len(),
            split_cells(s@.take(i as int)).len() == values.len() + 1,
            split_cells(s@.take(i as int)).last() == s@.subrange(start as int, i as int),
            good <==> forall|k: int|
                0 <= k < values.len() ==> (#[trigger] cell_value(
                    split_cells(s@.take(i as int))[k],
                )) is Some,
            good ==> forall|k: int|
                0 <= k < values.len() ==> #[trigger] cell_value(split_cells(s@.take(i as int))[k])
                    == Some(values[k]),
        decreases s.len() - i,
    {
        let ghost before = split_cells(s@.take(i as int));
        let ghost after = split_cells(s@.take(i + 1));
        proof {
            assert(s@.take(i + 1).drop_last() =~= s@.take(i as int));
            assert(s@.take(i + 1).last() == s@[i as int]);
        }
        if s[i] == COMMA {
            proof {
                assert(after == before.push(Seq::<u8>::empty()));
                assert(s@.subrange(i + 1, i + 1) =~= Seq::<u8>::empty());
                assert forall|k: int| 0 <= k < before.len() implies after[k] == before[k] by {}
            }
            match parse_cell(s, start, i) {
                Some(v) => {
                    values.push(v);
                },
                None => {
                    good = false;
                    values.push(0);
                },
            }
            start = i + 1;
        } else {
            proof {
                assert(after == before.update(before.len() - 1, before.last().push(s@[i as int])));
                assert(s@.subrange(start as int, i as int).push(s@[i as int]) =~= s@.subrange(
                    start as int,
                    i + 1,
                ));
                assert forall|k: int| 0 <= k < before.len() - 1 implies after[k] == before[k] by {}
            }
        }
        i += 1;
    }
    let ghost cells = split_cells(s@);
    assert(s@.take(s.len() as int) =~= s@);
    match parse_cell(s, start, s.len()) {
        Some(v) => {
            values.push(v);
        },
        None => {
            good = false;
            values.push(0);
        },
    }
    if good {
        proof {
            assert forall|k: int| 0 <= k < cells.len() implies (#[trigger] cell_value(
                cells[k],
            )) is Some by {}
            assert(values@ =~= Seq::new(cells.len(), |k: int| cell_value(cells[k]).unwrap()));
        }
        Some(values)
    } else {
        None
    }
}

/// What stands before the name of a layer in the text of a map.
pub open spec fn name_open() -> Seq<u8> {
    "name=\"".spec_bytes()
}

/// What stands behind the name of a layer.
pub open spec fn name_close() -> Seq<u8> {
    "\" ".spec_bytes()
}

/// What opens the data block of a layer.
pub open spec fn data_open() -> Seq<u8> {
    "<data encoding=\"csv\">".spec_bytes()
}

/// What closes a data block.
pub open spec fn data_close() -> Seq<u8> {
    "</data>".spec_bytes()
}

/// Where the data block of the layer called `name` begins and ends in
/// `text`: behind the first data opening that follows the first mention of
/// the layer, and before the first closing that follows that.
pub open spec fn data_span(text: Seq<u8>, name: Seq<u8>) -> Result<(int, int), LayerFault> {
    let tag = name_open() + name + name_close();
    match find_from(text, tag, 0) {
        None => Err(LayerFault::MissingLayer),
        Some(named) => match find_from(text, data_open(), named + tag.len()) {
            None => Err(LayerFault::MissingData),
            Some(opened) => match find_from(text, data_close(), opened + data_open().len()) {
                None => Err(LayerFault::UnclosedData),
                Some(closed) => Ok((opened + data_open().len(), closed)),
            },
        },
    }
}

/// The cells of the layer called `name` in the text of a map.
pub open spec fn parsed_layer(text: Seq<u8>, name: Seq<u8>) -> Result<Seq<usize>, LayerFault> {
    match data_span(text, name) {
        Err(fault) => Err(fault),
        Ok((from, to)) => match cell_values(text.subrange(from, to)) {
            None => Err(LayerFault::BadCell),
            Some(values) => if values.len() == MAP_CELLS {
                Ok(values)
            } else {
                Err(LayerFault::WrongLength)
            },
        },
    }
}

/// Adds the bytes of `tail` to `bytes`.
fn append(bytes: &mut Vec<u8>, tail: &[u8])
    ensures
        final(bytes)@ == old(bytes)@ + tail@,
{
    let ghost head = bytes@;
    let mut i: usize = 0;
    while i < tail.len()
        invariant
            i <= tail.len(),
            bytes@ == head + tail@.take(i as int),
        decreases tail.len() - i,
    {
        bytes.push(tail[i]);
        proof {
            assert(tail@.take(i + 1) =~= tail@.take(i as int).push(tail@[i as int]));
            assert(bytes@ =~= head + tail@.take(i + 1));
        }
        i += 1;
    }
    assert(tail@.take(tail.len() as int) =~= tail@);
}

/// Reads the cells of the layer called `layer_name` from the text of a
/// map. The layer must be named in the text, its data block must open and
/// close, and the block must hold one number for each cell of a map.
pub fn parse_tilemap_layer(xml: &str, layer_name: &str) -> (layer: Result<Vec<usize>, LayerFault>)
    ensures
        match layer {
            Ok(tiles) => parsed_layer(xml.spec_bytes(), layer_name.spec_bytes()) == Ok::<
                Seq<usize>,
                LayerFault,
            >(tiles@),
            Err(fault) => parsed_layer(xml.spec_bytes(), layer_name.spec_bytes()) == Err::<
                Seq<usize>,
                LayerFault,
            >(fault),
        },
{
    let text = xml.as_bytes();
    let mut tag: Vec<u8> = Vec::new();
    append(&mut tag, "name=\"".as_bytes());
    append(&mut tag, layer_name.as_bytes());
    append(&mut tag, "\" ".as_bytes());
    assert(tag@ =~= name_open() + layer_name.spec_bytes() + name_close());
    let opening = "<data encoding=\"csv\">".as_bytes();
    let closing = "</data>".as_bytes();
    let named = match find(text, tag.as_slice(), 0) {
        Some(at) => at,
        None => {
            return Err(LayerFault::MissingLayer);
        },
    };
    let opened = match find(text, opening, named + tag.len()) {
        Some(at) => at,
        None => {
            return Err(LayerFault::MissingData);
        },
    };
    let from: usize = opened + opening.len();
    let to = match find(text, closing, from) {
        Some(at) => at,
        None => {
            return Err(LayerFault::UnclosedData);
        },
    };
    let values = match parse_cells(vstd::slice::slice_subrange(text, from, to)) {
        Some(values) => values,
        None => {
            return Err(LayerFault::BadCell);
        },
    };
    if values.len() == MAP_CELLS {
        Ok(values)
    } else {
        Err(LayerFault::WrongLength)
    }
}

} // verus!
