//! The table that relates a core logic rate and a display rate selected by
//! the frontend to the number of logic ticks per displayed frame.

use vstd::prelude::*;
use vstd::string::*;

verus! {

/// The fixed rate of the simulation, in logic ticks per second.
#[derive(Clone, Copy, Debug, PartialEq, Eq, Structural)]
pub enum CoreLogicRate {
    LogicRate60,
    LogicRate120,
    LogicRate720,
}

impl CoreLogicRate {
    /// The rate in ticks per second.
    pub open spec fn nominal(self) -> nat {
        match self {
            CoreLogicRate::LogicRate60 => 60,
            CoreLogicRate::LogicRate120 => 120,
            CoreLogicRate::LogicRate720 => 720,
        }
    }

    /// The rate in ticks per second.
    pub fn hertz(self) -> (hz: u32)
        ensures
            hz == self.nominal(),
    {
        match self {
            CoreLogicRate::LogicRate60 => 60,
            CoreLogicRate::LogicRate120 => 120,
            CoreLogicRate::LogicRate720 => 720,
        }
    }
}

/// The table of a profile: each display rate that the profile supports,
/// written as the frontend writes it, with its multiplier.
pub open spec fn rate_entries(rate: CoreLogicRate) -> Seq<(Seq<char>, u32)> {
    match rate {
        CoreLogicRate::LogicRate60 => seq![("30"@, 2u32), ("60"@, 1u32)],
        CoreLogicRate::LogicRate120 => seq![("30"@, 4u32), ("60"@, 2u32), ("120"@, 1u32)],
        CoreLogicRate::LogicRate720 => seq![
            ("24"@, 30u32),
            ("30"@, 24u32),
            ("48"@, 15u32),
            ("51.4"@, 14u32),
            ("60"@, 12u32),
            ("72"@, 10u32),
            ("80"@, 9u32),
            ("90"@, 8u32),
            ("102.9"@, 7u32),
            ("120"@, 6u32),
            ("144"@, 5u32),
            ("180"@, 4u32),
            ("240"@, 3u32),
        ],
    }
}

/// Whether the entry at a place of a profile's table is the one for a
/// display rate.
pub open spec fn is_entry_for(rate: CoreLogicRate, display_rate: Seq<char>, place: int) -> bool {
    0 <= place < rate_entries(rate).len() && rate_entries(rate)[place].0 == display_rate
}

/// The multiplier that the table of a profile holds for a display rate;
/// `None` where the table has no entry for the rate.
pub open spec fn table_entry(rate: CoreLogicRate, display_rate: Seq<char>) -> Option<u32> {
    if exists|place: int| is_entry_for(rate, display_rate, place) {
        Some(rate_entries(rate)[choose|place: int| is_entry_for(rate, display_rate, place)].1)
    } else {
        None
    }
}

/// The display rates that a profile offers to the frontend, in the order in
/// which they are offered; the first is the default.
pub open spec fn advertised_rates(rate: CoreLogicRate) -> Seq<Seq<char>> {
    match rate {
        CoreLogicRate::LogicRate60 => seq!["60"@, "30"@],
        CoreLogicRate::LogicRate120 => seq!["60"@, "120"@, "30"@],
        CoreLogicRate::LogicRate720 => seq![
            "60"@,
            "72"@,
            "80"@,
            "90"@,
            "102.9"@,
            "120"@,
            "144"@,
            "180"@,
            "240"@,
            "24"@,
            "30"@,
            "48"@,
            "51.4"@,
        ],
    }
}

/// Whether a character is a decimal digit.
pub open spec fn is_digit(c: char) -> bool {
    '0' as u32 <= c as u32 && c as u32 <= '9' as u32
}

/// The number that a decimal digit stands for.
pub open spec fn digit_value(c: char) -> nat {
    (c as u32 - '0' as u32) as nat
}

/// Whether a text is a whole number in decimal notation.
pub open spec fn is_whole(text: Seq<char>) -> bool {
    text.len() > 0 && forall|i: int| 0 <= i < text.len() ==> is_digit(#[trigger] text[i])
}

/// The number that a text of decimal digits stands for.
pub open spec fn whole_value(text: Seq<char>) -> nat
    decreases text.len(),
{
    if text.len() == 0 {
        0
    } else {
        10 * whole_value(text.drop_last()) + digit_value(text.last())
    }
}

/// Whether a text is a decimal number with exactly one digit behind the point.
pub open spec fn has_one_decimal(text: Seq<char>) -> bool {
    &&& text.len() >= 3
    &&& text[text.len() - 2] == '.'
    &&& is_digit(text.last())
    &&& is_whole(text.take(text.len() - 2))
}

/// A display rate in tenths of a hertz, for a text that is a whole number or
/// has one decimal.
pub open spec fn rate_in_tenths(text: Seq<char>) -> nat {
    if is_whole(text) {
        10 * whole_value(text)
    } else {
        10 * whole_value(text.take(text.len() - 2)) + digit_value(text.last())
    }
}

proof fn lemma_two_digits(text: Seq<char>, a: char, b: char)
    requires
        text =~= seq![a, b],
        is_digit(a),
        is_digit(b),
    ensures
        is_whole(text),
        whole_value(text) == 10 * digit_value(a) + digit_value(b),
{
    reveal_with_fuel(whole_value, 3);
    assert(text.drop_last() =~= seq![a]);
    assert(seq![a].drop_last() =~= Seq::<char>::empty());
}

proof fn lemma_three_digits(text: Seq<char>, a: char, b: char, c: char)
    requires
        text =~= seq![a, b, c],
        is_digit(a),
        is_digit(b),
        is_digit(c),
    ensures
        is_whole(text),
        whole_value(text) == 100 * digit_value(a) + 10 * digit_value(b) + digit_value(c),
{
    assert(text.drop_last() =~= seq![a, b]);
    lemma_two_digits(seq![a, b], a, b);
}

proof fn lemma_two_digits_one_decimal(text: Seq<char>, a: char, b: char, d: char)
    requires
        text =~= seq![a, b, '.', d],
        is_digit(a),
        is_digit(b),
        is_digit(d),
    ensures
        !is_whole(text),
        has_one_decimal(text),
        rate_in_tenths(text) == 100 * digit_value(a) + 10 * digit_value(b) + digit_value(d),
{
    assert(text[2] == '.');
    assert(!is_digit(text[2]));
    assert(text.take(text.len() - 2) =~= seq![a, b]);
    lemma_two_digits(seq![a, b], a, b);
}

proof fn lemma_three_digits_one_decimal(text: Seq<char>, a: char, b: char, c: char, d: char)
    requires
        text =~= seq![a, b, c, '.', d],
        is_digit(a),
        is_digit(b),
        is_digit(c),
        is_digit(d),
    ensures
        !is_whole(text),
        has_one_decimal(text),
        rate_in_tenths(text) == 1000 * digit_value(a) + 100 * digit_value(b) + 10 * digit_value(c)
            + digit_value(d),
{
    assert(text[3] == '.');
    assert(!is_digit(text[3]));
    assert(text.take(text.len() - 2) =~= seq![a, b, c]);
    lemma_three_digits(seq![a, b, c], a, b, c);
}

/// What the texts of the table stand for: each is a whole number, or has one
/// decimal, and this is its value in tenths of a hertz.
proof fn lemma_table_texts()
    ensures
        is_whole("24"@) && whole_value("24"@) == 24,
        is_whole("30"@) && whole_value("30"@) == 30,
        is_whole("48"@) && whole_value("48"@) == 48,
        is_whole("60"@) && whole_value("60"@) == 60,
        is_whole("72"@) && whole_value("72"@) == 72,
        is_whole("80"@) && whole_value("80"@) == 80,
        is_whole("90"@) && whole_value("90"@) == 90,
        is_whole("120"@) && whole_value("120"@) == 120,
        is_whole("144"@) && whole_value("144"@) == 144,
        is_whole("180"@) && whole_value("180"@) == 180,
        is_whole("240"@) && whole_value("240"@) == 240,
        !is_whole("51.4"@) && has_one_decimal("51.4"@) && rate_in_tenths("51.4"@) == 514,
        !is_whole("102.9"@) && has_one_decimal("102.9"@) && rate_in_tenths("102.9"@) == 1029,
{
    reveal_strlit("24");
    reveal_strlit("30");
    reveal_strlit("48");
    reveal_strlit("60");
    reveal_strlit("72");
    reveal_strlit("80");
    reveal_strlit("90");
    reveal_strlit("120");
    reveal_strlit("144");
    reveal_strlit("180");
    reveal_strlit("240");
    reveal_strlit("51.4");
    reveal_strlit("102.9");
    lemma_two_digits("24"@, '2', '4');
    lemma_two_digits("30"@, '3', '0');
    lemma_two_digits("48"@, '4', '8');
    lemma_two_digits("60"@, '6', '0');
    lemma_two_digits("72"@, '7', '2');
    lemma_two_digits("80"@, '8', '0');
    lemma_two_digits("90"@, '9', '0');
    lemma_three_digits("120"@, '1', '2', '0');
    lemma_three_digits("144"@, '1', '4', '4');
    lemma_three_digits("180"@, '1', '8', '0');
    lemma_three_digits("240"@, '2', '4', '0');
    lemma_two_digits_one_decimal("51.4"@, '5', '1', '4');
    lemma_three_digits_one_decimal("102.9"@, '1', '0', '2', '9');
}

/// No display rate has two entries in a table: the entry at any place is the
/// only one for its display rate, and the multiplier that the table holds
/// for that display rate is the one of this entry.
pub proof fn lemma_entries_are_distinct(rate: CoreLogicRate, place: int)
    requires
        0 <= place < rate_entries(rate).len(),
    ensures
        forall|other: int|
            is_entry_for(rate, rate_entries(rate)[place].0, other) ==> other == place,
        table_entry(rate, rate_entries(rate)[place].0) == Some(rate_entries(rate)[place].1),
{
    lemma_table_texts();
    assert(is_entry_for(rate, rate_entries(rate)[place].0, place));
}

/// Whether a multiplier is the positive integer nearest to a logic rate
/// divided by a display rate, the display rate given in tenths of a hertz.
pub open spec fn is_nearest_multiplier(multiplier: int, logic_rate: int, tenths: int) -> bool {
    &&& multiplier > 0
    &&& tenths > 0
    &&& -tenths <= 2 * (multiplier * tenths - 10 * logic_rate) <= tenths
}

proof fn lemma_entry_fits(rate: CoreLogicRate, place: int)
    requires
        0 <= place < rate_entries(rate).len(),
    ensures
        ({
            let text = rate_entries(rate)[place].0;
            let multiplier = rate_entries(rate)[place].1 as int;
            &&& is_whole(text) || has_one_decimal(text)
            &&& is_whole(text) ==> multiplier * whole_value(text) == rate.nominal()
                && whole_value(text) > 0
            &&& is_nearest_multiplier(multiplier, rate.nominal() as int, rate_in_tenths(text) as int)
        }),
{
    lemma_table_texts();
    let text = rate_entries(rate)[place].0;
    let multiplier = rate_entries(rate)[place].1 as int;
    let tenths = rate_in_tenths(text) as int;
    let logic_rate = rate.nominal() as int;
    match rate {
        CoreLogicRate::LogicRate60 => {
            if place == 0 {
                assert(multiplier == 2 && tenths == 300);
            } else {
                assert(multiplier == 1 && tenths == 600);
            }
        },
        CoreLogicRate::LogicRate120 => {
            if place == 0 {
                assert(multiplier == 4 && tenths == 300);
            } else if place == 1 {
                assert(multiplier == 2 && tenths == 600);
            } else {
                assert(multiplier == 1 && tenths == 1200);
            }
        },
        CoreLogicRate::LogicRate720 => {
            if place == 0 {
                assert(multiplier == 30 && tenths == 240);
            } else if place == 1 {
                assert(multiplier == 24 && tenths == 300);
            } else if place == 2 {
                assert(multiplier == 15 && tenths == 480);
            } else if place == 3 {
                assert(multiplier == 14 && tenths == 514);
            } else if place == 4 {
                assert(multiplier == 12 && tenths == 600);
            } else if place == 5 {
                assert(multiplier == 10 && tenths == 720);
            } else if place == 6 {
                assert(multiplier == 9 && tenths == 800);
            } else if place == 7 {
                assert(multiplier == 8 && tenths == 900);
            } else if place == 8 {
                assert(multiplier == 7 && tenths == 1029);
            } else if place == 9 {
                assert(multiplier == 6 && tenths == 1200);
            } else if place == 10 {
                assert(multiplier == 5 && tenths == 1440);
            } else if place == 11 {
                assert(multiplier == 4 && tenths == 1800);
            } else {
                assert(multiplier == 3 && tenths == 2400);
            }
        },
    }
}

/// The entries of the three tables.
pub proof fn lemma_table_entries()
    ensures
        table_entry(CoreLogicRate::LogicRate60, "30"@) == Some(2u32),
        table_entry(CoreLogicRate::LogicRate60, "60"@) == Some(1u32),
        table_entry(CoreLogicRate::LogicRate120, "30"@) == Some(4u32),
        table_entry(CoreLogicRate::LogicRate120, "60"@) == Some(2u32),
        table_entry(CoreLogicRate::LogicRate120, "120"@) == Some(1u32),
        table_entry(CoreLogicRate::LogicRate720, "24"@) == Some(30u32),
        table_entry(CoreLogicRate::LogicRate720, "30"@) == Some(24u32),
        table_entry(CoreLogicRate::LogicRate720, "48"@) == Some(15u32),
        table_entry(CoreLogicRate::LogicRate720, "51.4"@) == Some(14u32),
        table_entry(CoreLogicRate::LogicRate720, "60"@) == Some(12u32),
        table_entry(CoreLogicRate::LogicRate720, "72"@) == Some(10u32),
        table_entry(CoreLogicRate::LogicRate720, "80"@) == Some(9u32),
        table_entry(CoreLogicRate::LogicRate720, "90"@) == Some(8u32),
        table_entry(CoreLogicRate::LogicRate720, "102.9"@) == Some(7u32),
        table_entry(CoreLogicRate::LogicRate720, "120"@) == Some(6u32),
        table_entry(CoreLogicRate::LogicRate720, "144"@) == Some(5u32),
        table_entry(CoreLogicRate::LogicRate720, "180"@) == Some(4u32),
        table_entry(CoreLogicRate::LogicRate720, "240"@) == Some(3u32),
{
    lemma_entries_are_distinct(CoreLogicRate::LogicRate60, 0);
    lemma_entries_are_distinct(CoreLogicRate::LogicRate60, 1);
    lemma_entries_are_distinct(CoreLogicRate::LogicRate120, 0);
    lemma_entries_are_distinct(CoreLogicRate::LogicRate120, 1);
    lemma_entries_are_distinct(CoreLogicRate::LogicRate120, 2);
    lemma_entries_are_distinct(CoreLogicRate::LogicRate720, 0);
    lemma_entries_are_distinct(CoreLogicRate::LogicRate720, 1);
    lemma_entries_are_distinct(CoreLogicRate::LogicRate720, 2);
    lemma_entries_are_distinct(CoreLogicRate::LogicRate720, 3);
    lemma_entries_are_distinct(CoreLogicRate::LogicRate720, 4);
    lemma_entries_are_distinct(CoreLogicRate::LogicRate720, 5);
    lemma_entries_are_distinct(CoreLogicRate::LogicRate720, 6);
    lemma_entries_are_distinct(CoreLogicRate::LogicRate720, 7);
    lemma_entries_are_distinct(CoreLogicRate::LogicRate720, 8);
    lemma_entries_are_distinct(CoreLogicRate::LogicRate720, 9);
    lemma_entries_are_distinct(CoreLogicRate::LogicRate720, 10);
    lemma_entries_are_distinct(CoreLogicRate::LogicRate720, 11);
    lemma_entries_are_distinct(CoreLogicRate::LogicRate720, 12);
}

/// For every display rate of a profile's table that is a whole number of
/// hertz, the multiplier is a positive integer and the logic rate is exactly
/// the multiplier times the display rate.
pub proof fn lemma_multiplier_divides_logic_rate(rate: CoreLogicRate, display_rate: Seq<char>)
    requires
        table_entry(rate, display_rate) is Some,
        is_whole(display_rate),
    ensures
        table_entry(rate, display_rate)->0 > 0,
        whole_value(display_rate) > 0,
        table_entry(rate, display_rate)->0 * whole_value(display_rate) == rate.nominal(),
        table_entry(rate, display_rate)->0 == rate.nominal() / whole_value(display_rate),
{
    let place = choose|place: int| is_entry_for(rate, display_rate, place);
    lemma_entries_are_distinct(rate, place);
    lemma_entry_fits(rate, place);
    let m = table_entry(rate, display_rate)->0 as int;
    let d = whole_value(display_rate) as int;
    vstd::arithmetic::div_mod::lemma_div_by_multiple(m, d);
}

/// For every display rate of a profile's table, whole or not, the multiplier
/// is the positive integer nearest to the logic rate divided by the display
/// rate.
pub proof fn lemma_multiplier_is_nearest(rate: CoreLogicRate, display_rate: Seq<char>)
    requires
        table_entry(rate, display_rate) is Some,
    ensures
        is_whole(display_rate) || has_one_decimal(display_rate),
        is_nearest_multiplier(
            table_entry(rate, display_rate)->0 as int,
            rate.nominal() as int,
            rate_in_tenths(display_rate) as int,
        ),
{
    let place = choose|place: int| is_entry_for(rate, display_rate, place);
    lemma_entries_are_distinct(rate, place);
    lemma_entry_fits(rate, place);
}

/// A profile supports exactly the display rates that it offers to the
/// frontend: each of them has a multiplier, and no other text has one.
pub proof fn lemma_table_matches_advertised(rate: CoreLogicRate, display_rate: Seq<char>)
    ensures
        table_entry(rate, display_rate) is Some <==> advertised_rates(rate).contains(display_rate),
{
    let offered = advertised_rates(rate);
    let table = rate_entries(rate);
    if table_entry(rate, display_rate) is Some {
        match rate {
            CoreLogicRate::LogicRate60 => {
                assert(offered[0] == table[1].0 && offered[1] == table[0].0);
            },
            CoreLogicRate::LogicRate120 => {
                assert(offered[0] == table[1].0 && offered[1] == table[2].0);
                assert(offered[2] == table[0].0);
            },
            CoreLogicRate::LogicRate720 => {
                assert(offered[0] == table[4].0 && offered[1] == table[5].0);
                assert(offered[2] == table[6].0 && offered[3] == table[7].0);
                assert(offered[4] == table[8].0 && offered[5] == table[9].0);
                assert(offered[6] == table[10].0 && offered[7] == table[11].0);
                assert(offered[8] == table[12].0 && offered[9] == table[0].0);
                assert(offered[10] == table[1].0 && offered[11] == table[2].0);
                assert(offered[12] == table[3].0);
            },
        }
        assert(exists|i: int| 0 <= i < offered.len() && offered[i] == display_rate);
    }
    if offered.contains(display_rate) {
        match rate {
            CoreLogicRate::LogicRate60 => {
                assert(is_entry_for(rate, offered[0], 1) && is_entry_for(rate, offered[1], 0));
            },
            CoreLogicRate::LogicRate120 => {
                assert(is_entry_for(rate, offered[0], 1) && is_entry_for(rate, offered[1], 2));
                assert(is_entry_for(rate, offered[2], 0));
            },
            CoreLogicRate::LogicRate720 => {
                assert(is_entry_for(rate, offered[0], 4) && is_entry_for(rate, offered[1], 5));
                assert(is_entry_for(rate, offered[2], 6) && is_entry_for(rate, offered[3], 7));
                assert(is_entry_for(rate, offered[4], 8) && is_entry_for(rate, offered[5], 9));
                assert(is_entry_for(rate, offered[6], 10) && is_entry_for(rate, offered[7], 11));
                assert(is_entry_for(rate, offered[8], 12) && is_entry_for(rate, offered[9], 0));
                assert(is_entry_for(rate, offered[10], 1) && is_entry_for(rate, offered[11], 2));
                assert(is_entry_for(rate, offered[12], 3));
            },
        }
    }
}

/// Whether two strings hold the same characters.
pub fn same_text(a: &str, b: &str) -> (same: bool)
    ensures
        same == (a@ == b@),
{
    let n = a.unicode_len();
    if n != b.unicode_len() {
        return false;
    }
    let mut i: usize = 0;
    while i < n
        invariant
            i <= n,
            n == a@.len(),
            n == b@.len(),
            forall|j: int| 0 <= j < i ==> a@[j] == b@[j],
        decreases n - i,
    {
        if a.get_char(i) != b.get_char(i) {
            return false;
        }
        i += 1;
    }
    assert(a@ =~= b@);
    true
}

/// The lookup from a display rate to the tick multiplier of one profile.
#[derive(Clone, Copy, Debug)]
pub struct RateTable {
    pub rate: CoreLogicRate,
}

impl RateTable {
    /// The table of a profile.
    pub fn new(rate: CoreLogicRate) -> (table: RateTable)
        ensures
            table.rate == rate,
    {
        RateTable { rate }
    }

    /// The display rates that the profile offers to the frontend, in the
    /// order in which they are offered; the first is the default.
    pub fn options(&self) -> (rates: Vec<&'static str>)
        ensures
            rates@.len() == advertised_rates(self.rate).len(),
            forall|i: int| 0 <= i < rates@.len() ==> rates[i]@ == advertised_rates(self.rate)[i],
    {
        let mut rates: Vec<&'static str> = Vec::new();
        match self.rate {
            CoreLogicRate::LogicRate60 => {
                rates.push("60");
                rates.push("30");
            },
            CoreLogicRate::LogicRate120 => {
                rates.push("60");
                rates.push("120");
                rates.push("30");
            },
            CoreLogicRate::LogicRate720 => {
                rates.push("60");
                rates.push("72");
                rates.push("80");
                rates.push("90");
                rates.push("102.9");
                rates.push("120");
                rates.push("144");
                rates.push("180");
                rates.push("240");
                rates.push("24");
                rates.push("30");
                rates.push("48");
                rates.push("51.4");
            },
        }
        rates
    }

    /// The number of logic ticks per displayed frame for the display rate
    /// that the frontend selected, or `None` for a rate that the profile
    /// does not support.
    pub fn lookup(&self, display_rate: &str) -> (multiplier: Option<u32>)
        ensures
            multiplier == table_entry(self.rate, display_rate@),
    {
        proof {
            lemma_table_entries();
        }
        let found = match self.rate {
            CoreLogicRate::LogicRate60 => {
                if same_text(display_rate, "30") {
                    Some(2)
                } else if same_text(display_rate, "60") {
                    Some(1)
                } else {
                    None
                }
            },
            CoreLogicRate::LogicRate120 => {
                if same_text(display_rate, "30") {
                    Some(4)
                } else if same_text(display_rate, "60") {
                    Some(2)
                } else if same_text(display_rate, "120") {
                    Some(1)
                } else {
                    None
                }
            },
            CoreLogicRate::LogicRate720 => {
                if same_text(display_rate, "24") {
                    Some(30)
                } else if same_text(display_rate, "30") {
                    Some(24)
                } else if same_text(display_rate, "48") {
                    Some(15)
                } else if same_text(display_rate, "51.4") {
                    Some(14)
                } else if same_text(display_rate, "60") {
                    Some(12)
                } else if same_text(display_rate, "72") {
                    Some(10)
                } else if same_text(display_rate, "80") {
                    Some(9)
                } else if same_text(display_rate, "90") {
                    Some(8)
                } else if same_text(display_rate, "102.9") {
                    Some(7)
                } else if same_text(display_rate, "120") {
                    Some(6)
                } else if same_text(display_rate, "144") {
                    Some(5)
                } else if same_text(display_rate, "180") {
                    Some(4)
                } else if same_text(display_rate, "240") {
                    Some(3)
                } else {
                    None
                }
            },
        };
        proof {
            if found is None {
                assert forall|place: int| !is_entry_for(self.rate, display_rate@, place) by {
                    let table = rate_entries(self.rate);
                    if 0 <= place < table.len() {
                        assert(table[place].0 != display_rate@);
                    }
                }
            }
        }
        found
    }
}

} // verus!
