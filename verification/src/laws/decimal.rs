//! Laws of decimal notation and of the texts that it stands in.

use vstd::prelude::*;

use crate::decimal::decimal;
use crate::ref_test::ref_config_text;
use crate::tab::numbered_title;
use crate::trusted::term_size_text;

verus! {

/// The number that a sequence of decimal digits reads as.
pub open spec fn number_read(digits: Seq<char>) -> int
    decreases digits.len(),
{
    if digits.len() == 0 {
        0
    } else {
        10 * number_read(digits.drop_last()) + (digits.last() as int - '0' as int)
    }
}

/// `text` writes the number `n`: in decimal digits, without leading zeros.
pub open spec fn writes_number(text: Seq<char>, n: int) -> bool {
    &&& text.len() > 0
    &&& forall|i: int| 0 <= i < text.len() ==> '0' <= #[trigger] text[i] <= '9'
    &&& text.len() > 1 ==> text[0] != '0'
    &&& number_read(text) == n
}

/// The decimal notation of a number reads as that number.
pub proof fn law_decimal_reads_back(n: nat)
    ensures
        writes_number(decimal(n), n as int),
        n > 0 ==> decimal(n)[0] != '0',
    decreases n,
{
    let d = decimal(n);
    if n < 10 {
        assert(d.drop_last() =~= Seq::<char>::empty());
        assert(number_read(d.drop_last()) == 0);
    } else {
        law_decimal_reads_back(n / 10);
        assert(d.drop_last() =~= decimal(n / 10));
        assert(d[0] == decimal(n / 10)[0]);
    }
}

/// A numbered title is the word "Terminal", a space and the number.
pub proof fn law_numbered_title(n: nat)
    ensures
        numbered_title(n).len() > 9,
        numbered_title(n).take(9) == seq!['T', 'e', 'r', 'm', 'i', 'n', 'a', 'l', ' '],
        writes_number(numbered_title(n).skip(9), n as int),
{
    reveal_strlit("Terminal ");
    law_decimal_reads_back(n);
    assert(numbered_title(n).take(9) =~= "Terminal "@);
    assert("Terminal "@ =~= seq!['T', 'e', 'r', 'm', 'i', 'n', 'a', 'l', ' ']);
    assert(numbered_title(n).skip(9) =~= decimal(n));
}

/// The recorded size is a JSON object with the numbers of columns and of lines, and the recorded
/// configuration one with the number of lines in the history.
pub proof fn law_recorded_numbers(columns: nat, screen_lines: nat, history_size: nat)
    ensures
        exists|c: Seq<char>, l: Seq<char>|
            {
                &&& #[trigger] writes_number(c, columns as int)
                &&& #[trigger] writes_number(l, screen_lines as int)
                &&& term_size_text(columns, screen_lines) == "{\"columns\":"@ + c
                    + ",\"screen_lines\":"@ + l + "}"@
            },
        exists|h: Seq<char>|
            {
                &&& #[trigger] writes_number(h, history_size as int)
                &&& ref_config_text(history_size) == "{\"history_size\":"@ + h + "}"@
            },
{
    law_decimal_reads_back(columns);
    law_decimal_reads_back(screen_lines);
    law_decimal_reads_back(history_size);
}

} // verus!
