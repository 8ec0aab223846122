//! Codes of stocks and indices.
//!
//! A code is written with the market in front: `sh` for Shanghai, `sz` for Shenzhen, `bj` for
//! Beijing. Users leave the market out as often as not, so it is filled in from the first digit.
use crate::text::{
    ascii_lower, ascii_lower_char, first_char, joined, law_trim_takes_off_white_space,
    lemma_ascii_lower_idempotent, lemma_trimmed_ends, lemma_trimmed_keeps, lower_case, skip_chars,
    starts_with, trim, trimmed, white_space,
};
use vstd::prelude::*;
use vstd::utf8::is_ascii_chars;

verus! {

/// Whether a code has its market in front.
pub open spec fn has_market(code: Seq<char>) -> bool {
    ||| "sh"@.is_prefix_of(code)
    ||| "sz"@.is_prefix_of(code)
    ||| "bj"@.is_prefix_of(code)
}

/// Whether a code has its market in front.
fn starts_with_market(code: &str) -> (r: bool)
    ensures
        r == has_market(code@),
{
    starts_with(code, "sh") || starts_with(code, "sz") || starts_with(code, "bj")
}

/// The market of a stock whose code does not say it: by the first digit, and Shenzhen for any other
/// first character.
pub open spec fn stock_market(code: Seq<char>) -> Seq<char> {
    if code.len() > 0 && code[0] == '6' {
        "sh"@
    } else if code.len() > 0 && (code[0] == '8' || code[0] == '4' || code[0] == '9') {
        "bj"@
    } else {
        "sz"@
    }
}

/// The full code of a stock: trimmed, in lower case, with the market in front.
pub open spec fn stock_code(code: Seq<char>) -> Seq<char> {
    let plain = lower_case(trimmed(code));
    if has_market(plain) {
        plain
    } else {
        stock_market(plain) + plain
    }
}

/// The full code of a stock: trimmed, in lower case, with the market in front.
pub fn normalize_stock_code(code: &str) -> (r: String)
    ensures
        r@ == stock_code(code@),
{
    let bare = trim(code);
    let plain = bare.to_lowercase();
    if starts_with_market(&plain) {
        return plain;
    }
    match first_char(&plain) {
        Some('6') => joined("sh", &plain),
        Some('8') | Some('4') | Some('9') => joined("bj", &plain),
        _ => joined("sz", &plain),
    }
}

/// The market of an index whose code does not say it: Shenzhen for the digits 0 to 3, Shanghai for
/// any other first character.
pub open spec fn index_market(code: Seq<char>) -> Seq<char> {
    if code.len() > 0 && '0' <= code[0] && code[0] <= '3' {
        "sz"@
    } else {
        "sh"@
    }
}

/// The full code of an index: in lower case, with the market in front. The market is looked for in
/// the code as it was given.
pub open spec fn index_code(code: Seq<char>) -> Seq<char> {
    if has_market(code) {
        lower_case(code)
    } else {
        index_market(code) + lower_case(code)
    }
}

/// The full code of an index: in lower case, with the market in front.
pub fn normalize_index_code(code: &str) -> (r: String)
    ensures
        r@ == index_code(code@),
{
    let lower = code.to_lowercase();
    if starts_with_market(code) {
        return lower;
    }
    match first_char(code) {
        Some('0') | Some('1') | Some('2') | Some('3') => joined("sz", &lower),
        _ => joined("sh", &lower),
    }
}

/// The identifier by which East Money knows a code: `1.` for Shanghai and `0.` for every other
/// market, and the code without its market.
pub open spec fn security_id(code: Seq<char>) -> Seq<char> {
    if "sh"@.is_prefix_of(code) {
        "1."@ + code.skip(2)
    } else if has_market(code) {
        "0."@ + code.skip(2)
    } else {
        "0."@ + code
    }
}

/// The identifier by which East Money knows a code.
pub fn secid(code: &str) -> (r: String)
    ensures
        r@ == security_id(code@),
{
    proof {
        reveal_strlit("sh");
        reveal_strlit("sz");
        reveal_strlit("bj");
    }
    if starts_with(code, "sh") {
        let rest = skip_chars(code, 2);
        joined("1.", &rest)
    } else if starts_with_market(code) {
        let rest = skip_chars(code, 2);
        joined("0.", &rest)
    } else {
        joined("0.", code)
    }
}

// ---------------------------------------------------------------------------------------------
// Laws
// ---------------------------------------------------------------------------------------------

/// A full stock code always has its market in front, so what follows the market can always be taken.
pub proof fn law_stock_code_has_market(code: Seq<char>)
    ensures
        has_market(stock_code(code)),
        stock_code(code).len() >= 2,
{
    reveal_strlit("sh");
    reveal_strlit("sz");
    reveal_strlit("bj");
    let plain = lower_case(trimmed(code));
    assert("sh"@.is_prefix_of("sh"@ + plain));
    assert("sz"@.is_prefix_of("sz"@ + plain));
    assert("bj"@.is_prefix_of("bj"@ + plain));
}

/// Whether a code is the full code of a stock: it can be handed in again, by a user or from a saved
/// list, and names the same stock.
pub open spec fn is_full(code: Seq<char>) -> bool {
    stock_code(code) == code
}

/// The full code of any text is its own full code, if trimming and lower-casing it again leave it as
/// it is.
pub proof fn law_unchanged_stock_code_is_settled(code: Seq<char>)
    requires
        lower_case(trimmed(stock_code(code))) == stock_code(code),
    ensures
        is_full(stock_code(code)),
{
    law_stock_code_has_market(code);
}

/// The full code of a text in ASCII, as the codes of the exchanges are, is its own full code.
pub proof fn law_stock_code_is_settled(code: Seq<char>)
    requires
        is_ascii_chars(code),
    ensures
        is_full(stock_code(code)),
{
    reveal_strlit("sh");
    reveal_strlit("sz");
    reveal_strlit("bj");
    let bare = trimmed(code);
    lemma_trimmed_ends(code);
    let (i, j) = choose|i: int, j: int|
        0 <= i <= j <= code.len() && bare == #[trigger] code.subrange(i, j);
    let plain = ascii_lower(bare);
    assert(is_ascii_chars(bare));
    lemma_ascii_lower_idempotent(bare);
    let full = stock_code(code);
    law_stock_code_has_market(code);
    assert(is_ascii_chars(full));
    assert(ascii_lower(full) == full) by {
        assert(forall|k: int| 0 <= k < plain.len() ==> ascii_lower_char(#[trigger] plain[k]) == plain[k]);
    }
    assert(full.last() == plain.last() || full == stock_market(plain));
    lemma_trimmed_keeps(full);
    law_unchanged_stock_code_is_settled(code);
}

/// Whether a code is the full code of an index: it can be handed in again and names the same index.
pub open spec fn is_full_index(code: Seq<char>) -> bool {
    index_code(code) == code
}

/// The full code of any text is its own full code, if it has its market in front and lower-casing it
/// again leaves it as it is.
pub proof fn law_unchanged_index_code_is_settled(code: Seq<char>)
    requires
        has_market(index_code(code)),
        lower_case(index_code(code)) == index_code(code),
    ensures
        is_full_index(index_code(code)),
{
}

/// The full code of a text in ASCII has its market in front and is its own full code.
pub proof fn law_index_code_is_settled(code: Seq<char>)
    requires
        is_ascii_chars(code),
    ensures
        has_market(index_code(code)),
        is_full_index(index_code(code)),
{
    reveal_strlit("sh");
    reveal_strlit("sz");
    reveal_strlit("bj");
    let lower = ascii_lower(code);
    lemma_ascii_lower_idempotent(code);
    let full = index_code(code);
    assert(is_ascii_chars(full));
    assert(ascii_lower(full) == full) by {
        assert(forall|k: int| 0 <= k < lower.len() ==> ascii_lower_char(#[trigger] lower[k]) == lower[k]);
    }
    if has_market(code) {
        let market = code.subrange(0, 2);
        assert(market[0] == code[0] && market[1] == code[1]);
        assert(full[0] == code[0] && full[1] == code[1]);
        assert(full.subrange(0, 2) == code.subrange(0, 2));
    } else {
        assert(full.subrange(0, 2) == index_market(code));
    }
}

/// Every full stock code is known to East Money by its number alone, with the mark of its market.
pub proof fn law_security_id_of_stock(code: Seq<char>)
    ensures
        security_id(stock_code(code)) == (if "sh"@.is_prefix_of(stock_code(code)) {
            "1."@
        } else {
            "0."@
        }) + stock_code(code).skip(2),
{
    law_stock_code_has_market(code);
}

/// Whether a text is one that neither trimming nor lower-casing changes: in ASCII, without white space
/// at its ends and without capital letters.
pub open spec fn is_plain(code: Seq<char>) -> bool {
    &&& forall|i: int|
        0 <= i < code.len() ==> '\0' <= #[trigger] code[i] <= '\u{7f}' && !('A' <= code[i] <= 'Z')
    &&& code.len() > 0 ==> !white_space(code[0]) && !white_space(code.last())
}

proof fn lemma_plain(code: Seq<char>)
    requires
        is_plain(code),
    ensures
        trimmed(code) == code,
        lower_case(code) == code,
{
    lemma_trimmed_keeps(code);
    assert(is_ascii_chars(code));
    assert(ascii_lower(code) =~= code);
}

/// The market of a stock whose code does not say it goes by the first character: Shanghai for 6,
/// Beijing for 8, 4 and 9, and Shenzhen for 0, 3 and any other; the rest of the code does not matter,
/// and follows as it was given. A code that says its market is left as it is.
pub proof fn law_stock_market_by_first_character(code: Seq<char>)
    requires
        is_plain(code),
    ensures
        "sh"@.is_prefix_of(code) || "sz"@.is_prefix_of(code) || "bj"@.is_prefix_of(code)
            ==> stock_code(code) == code,
        !"sh"@.is_prefix_of(code) && !"sz"@.is_prefix_of(code) && !"bj"@.is_prefix_of(code) ==> {
            &&& code.len() > 0 && code[0] == '6' ==> stock_code(code) == "sh"@ + code
            &&& code.len() > 0 && (code[0] == '0' || code[0] == '3') ==> stock_code(code) == "sz"@
                + code
            &&& code.len() > 0 && (code[0] == '8' || code[0] == '4' || code[0] == '9')
                ==> stock_code(code) == "bj"@ + code
            &&& code.len() == 0 || (code[0] != '6' && code[0] != '8' && code[0] != '4' && code[0]
                != '9') ==> stock_code(code) == "sz"@ + code
        },
{
    lemma_plain(code);
}

/// A stock is found by its code in any mix of capital and small letters, and with any white space
/// around it.
pub proof fn law_stock_code_ignores_case_and_blanks(
    before: Seq<char>,
    code: Seq<char>,
    small: Seq<char>,
    after: Seq<char>,
)
    requires
        is_plain(small),
        code.len() == small.len(),
        forall|i: int|
            0 <= i < code.len() ==> (#[trigger] code[i] == small[i] || ('a' <= small[i] <= 'z'
                && code[i] as int + 32 == small[i] as int)),
        forall|i: int| 0 <= i < before.len() ==> white_space(#[trigger] before[i]),
        forall|i: int| 0 <= i < after.len() ==> white_space(#[trigger] after[i]),
    ensures
        stock_code(before + code + after) == stock_code(small),
{
    lemma_plain(small);
    assert(forall|i: int| 0 <= i < small.len() ==> ascii_lower_char(#[trigger] code[i]) == small[i]);
    assert(is_ascii_chars(code)) by {
        assert forall|i: int| 0 <= i < code.len() implies '\0' <= #[trigger] code[i] <= '\u{7f}' by {
            assert('\0' <= small[i] <= '\u{7f}');
        }
    }
    assert(ascii_lower(code) =~= small);
    if code.len() > 0 {
        assert(code[0] == small[0] || code[0] as int + 32 == small[0] as int);
        assert(code[code.len() - 1] == small[code.len() - 1] || code[code.len() - 1] as int + 32
            == small[code.len() - 1] as int);
    }
    law_trim_takes_off_white_space(before, code, after);
}

/// The market of an index whose code does not say it goes by the first character: Shenzhen for 0, 1,
/// 2 and 3, and Shanghai for any other. A code that says its market is left as it is.
pub proof fn law_index_market_by_first_character(code: Seq<char>)
    requires
        is_plain(code),
    ensures
        "sh"@.is_prefix_of(code) || "sz"@.is_prefix_of(code) || "bj"@.is_prefix_of(code)
            ==> index_code(code) == code,
        !"sh"@.is_prefix_of(code) && !"sz"@.is_prefix_of(code) && !"bj"@.is_prefix_of(code) ==> {
            &&& code.len() > 0 && (code[0] == '0' || code[0] == '1' || code[0] == '2' || code[0]
                == '3') ==> index_code(code) == "sz"@ + code
            &&& code.len() == 0 || (code[0] != '0' && code[0] != '1' && code[0] != '2' && code[0]
                != '3') ==> index_code(code) == "sh"@ + code
        },
{
    lemma_plain(code);
}

/// East Money knows a stock of Shanghai by a one before its number, and one of Shenzhen or Beijing by
/// a zero.
pub proof fn law_east_money_identifier(number: Seq<char>)
    ensures
        security_id("sh"@ + number) == "1."@ + number,
        security_id("sz"@ + number) == "0."@ + number,
        security_id("bj"@ + number) == "0."@ + number,
{
    reveal_strlit("sh");
    reveal_strlit("sz");
    reveal_strlit("bj");
    let (sh, sz, bj) = ("sh"@ + number, "sz"@ + number, "bj"@ + number);
    assert(sh.subrange(0, 2) =~= "sh"@);
    assert(sz.subrange(0, 2) =~= "sz"@);
    assert(bj.subrange(0, 2) =~= "bj"@);
    assert(sz.subrange(0, 2)[1] == 'z');
    assert(bj.subrange(0, 2)[0] == 'b');
    assert(sh.skip(2) =~= number);
    assert(sz.skip(2) =~= number);
    assert(bj.skip(2) =~= number);
}

/// The code of an index is taken in small letters, but its market is looked for as it was given.
pub proof fn law_index_code_in_small_letters(code: Seq<char>, small: Seq<char>)
    requires
        code.len() == small.len(),
        forall|i: int|
            0 <= i < code.len() ==> '\0' <= #[trigger] code[i] <= '\u{7f}' && (if 'A' <= code[i] <= 'Z' {
                code[i] as int + 32 == small[i] as int
            } else {
                code[i] == small[i]
            }),
    ensures
        "sh"@.is_prefix_of(code) || "sz"@.is_prefix_of(code) || "bj"@.is_prefix_of(code)
            ==> index_code(code) == small,
        !"sh"@.is_prefix_of(code) && !"sz"@.is_prefix_of(code) && !"bj"@.is_prefix_of(code) ==> {
            &&& code.len() > 0 && '0' <= code[0] <= '3' ==> index_code(code) == "sz"@ + small
            &&& code.len() == 0 || !('0' <= code[0] <= '3') ==> index_code(code) == "sh"@ + small
        },
{
    assert(is_ascii_chars(code));
    assert forall|i: int| 0 <= i < code.len() implies ascii_lower_char(#[trigger] code[i]) == small[i] by {
    }
    assert(ascii_lower(code) =~= small);
}

} // verus!
