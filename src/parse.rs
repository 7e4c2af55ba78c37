//! Reading rendered text as ledger values: flags, accounts and amounts.
use crate::model::{Account, AccountType, AccountView, Amount, AmountView, Flag, FlagView,
    TransactionError, result_view};
use crate::outside::{parse_decimal, parsed_decimal};
use crate::text::{
    find_char, find_from, lemma_find_from_bounds, replace_char, replace_str, split_on, split_str,
    str_eq,
};
use vstd::prelude::*;
use vstd::string::*;

verus! {

/// The flag that a marker text stands for.
pub open spec fn flag_of(s: Seq<char>) -> FlagView {
    if s.len() == 1 && s[0] == '*' {
        FlagView::Okay
    } else if s.len() == 1 && s[0] == '!' {
        FlagView::Warning
    } else {
        FlagView::Other(s)
    }
}

/// The account type that a root keyword names, case included.
pub open spec fn account_type_of(s: Seq<char>) -> Option<AccountType> {
    if s == seq!['A', 's', 's', 'e', 't', 's'] {
        Some(AccountType::Assets)
    } else if s == seq!['L', 'i', 'a', 'b', 'i', 'l', 'i', 't', 'i', 'e', 's'] {
        Some(AccountType::Liabilities)
    } else if s == seq!['E', 'q', 'u', 'i', 't', 'y'] {
        Some(AccountType::Equity)
    } else if s == seq!['I', 'n', 'c', 'o', 'm', 'e'] {
        Some(AccountType::Income)
    } else if s == seq!['E', 'x', 'p', 'e', 'n', 's', 'e', 's'] {
        Some(AccountType::Expenses)
    } else {
        None
    }
}

/// The account that `Root:Part:Part` text denotes.
pub open spec fn account_of(s: Seq<char>) -> Result<AccountView, TransactionError> {
    let pieces = split_on(s, ':');
    match account_type_of(pieces[0]) {
        Some(ty) => Ok(AccountView { ty, parts: pieces.drop_first() }),
        None => Err(TransactionError::InvalidAccount),
    }
}

/// The number text of an amount: what comes before its first space, with
/// a decimal comma read as a point.
pub open spec fn number_text(s: Seq<char>) -> Seq<char> {
    replace_char(s.subrange(0, find_from(s, 0, ' ')), ',', '.')
}

/// The currency text of an amount: all that comes after its first space,
/// as it is; `None` where there is no space.
pub open spec fn currency_text(s: Seq<char>) -> Option<Seq<char>> {
    let space = find_from(s, 0, ' ');
    if space < s.len() {
        Some(s.subrange(space + 1, s.len() as int))
    } else {
        None
    }
}

/// The amount made of a parsed number and a currency text: both must be
/// there.
pub open spec fn amount_with(decimal: Option<(int, int)>, currency: Option<Seq<char>>) -> Result<
    AmountView,
    TransactionError,
> {
    match (decimal, currency) {
        (Some(d), Some(c)) => Ok(AmountView { mantissa: d.0, scale: d.1, currency: c }),
        _ => Err(TransactionError::InvalidAmount),
    }
}

/// The amount that `<number> <currency>` text denotes.
pub open spec fn amount_of(s: Seq<char>) -> Result<AmountView, TransactionError> {
    amount_with(parsed_decimal(number_text(s)), currency_text(s))
}

/// The flag for a marker text: `*` is cleared, `!` needs attention, any
/// other text is kept as it is.
pub fn flag_from(s: String) -> (r: Flag)
    ensures
        r@ == flag_of(s@),
{
    proof {
        reveal_strlit("*");
        reveal_strlit("!");
        assert("*"@ =~= seq!['*']);
        assert("!"@ =~= seq!['!']);
        if s@.len() == 1 {
            assert(s@[0] == '*' ==> s@ =~= seq!['*']);
            assert(s@[0] == '!' ==> s@ =~= seq!['!']);
        }
    }
    if str_eq(s.as_str(), "*") {
        Flag::Okay
    } else if str_eq(s.as_str(), "!") {
        Flag::Warning
    } else {
        Flag::Other(s)
    }
}

/// The account type that a root keyword names.
fn account_type_from(s: &str) -> (r: Option<AccountType>)
    ensures
        r == account_type_of(s@),
{
    proof {
        reveal_strlit("Assets");
        reveal_strlit("Liabilities");
        reveal_strlit("Equity");
        reveal_strlit("Income");
        reveal_strlit("Expenses");
        assert("Assets"@ =~= seq!['A', 's', 's', 'e', 't', 's']);
        assert("Liabilities"@ =~= seq!['L', 'i', 'a', 'b', 'i', 'l', 'i', 't', 'i', 'e', 's']);
        assert("Equity"@ =~= seq!['E', 'q', 'u', 'i', 't', 'y']);
        assert("Income"@ =~= seq!['I', 'n', 'c', 'o', 'm', 'e']);
        assert("Expenses"@ =~= seq!['E', 'x', 'p', 'e', 'n', 's', 'e', 's']);
    }
    if str_eq(s, "Assets") {
        Some(AccountType::Assets)
    } else if str_eq(s, "Liabilities") {
        Some(AccountType::Liabilities)
    } else if str_eq(s, "Equity") {
        Some(AccountType::Equity)
    } else if str_eq(s, "Income") {
        Some(AccountType::Income)
    } else if str_eq(s, "Expenses") {
        Some(AccountType::Expenses)
    } else {
        None
    }
}

/// Reads `Root:Part:Part` as an account; the root must be one of `Assets`,
/// `Liabilities`, `Equity`, `Income` or `Expenses`, else `InvalidAccount`.
pub fn account_from_string(s: String) -> (r: Result<Account, TransactionError>)
    ensures
        result_view(r) == account_of(s@),
{
    let mut pieces = split_str(s.as_str(), ':');
    proof {
        crate::text::lemma_split_from_head(s@, 0, ':');
    }
    match account_type_from(pieces[0].as_str()) {
        Some(ty) => {
            pieces.remove(0);
            assert(pieces.deep_view() =~= split_on(s@, ':').drop_first());
            Ok(Account { ty, parts: pieces })
        },
        None => Err(TransactionError::InvalidAccount),
    }
}

/// The amount made of a parsed number (mantissa, scale) and a currency;
/// `InvalidAmount` where either is missing.
pub fn amount_from_parts(decimal: Option<(i128, u32)>, currency: Option<String>) -> (r: Result<
    Amount,
    TransactionError,
>)
    ensures
        result_view(r) == amount_with(
            match decimal {
                Some(d) => Some((d.0 as int, d.1 as int)),
                None => None,
            },
            match currency {
                Some(c) => Some(c@),
                None => None,
            },
        ),
{
    match (decimal, currency) {
        (Some(d), Some(c)) => Ok(Amount { mantissa: d.0, scale: d.1, currency: c }),
        _ => Err(TransactionError::InvalidAmount),
    }
}

/// Reads `<number> <currency>` as an amount, split at the first space: the
/// number may use a comma as its decimal separator, and the rest is the
/// currency as written; `InvalidAmount` where the number does not parse or
/// there is no space.
pub fn incomplete_amount_from_string(s: String) -> (r: Result<Amount, TransactionError>)
    ensures
        result_view(r) == amount_of(s@),
{
    let len = s.as_str().unicode_len();
    let space = find_char(s.as_str(), len, 0, ' ');
    proof {
        lemma_find_from_bounds(s@, 0, ' ');
        reveal_strlit(".");
    }
    assert("."@ =~= seq!['.']);
    let number = replace_str(s.as_str().substring_char(0, space), ',', ".");
    let decimal = match parse_decimal(number.as_str()) {
        Ok(d) => Some(d),
        Err(_) => None,
    };
    let currency = if space < len {
        Some(String::from_str(s.as_str().substring_char(space + 1, len)))
    } else {
        None
    };
    amount_from_parts(decimal, currency)
}

} // verus!
