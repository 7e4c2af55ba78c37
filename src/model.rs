//! The ledger values that one row turns into, their mathematical views, and
//! the errors of a conversion.
use vstd::prelude::*;

verus! {

/// The root of an account path.
#[derive(Clone, Copy, Debug, PartialEq, Eq, Structural)]
pub enum AccountType {
    Assets,
    Liabilities,
    Equity,
    Income,
    Expenses,
}

/// A status marker of a transaction or a posting.
#[derive(Clone, Debug, PartialEq, Eq)]
pub enum Flag {
    /// `*`: a cleared entry.
    Okay,
    /// `!`: an entry that needs attention.
    Warning,
    /// Any other marker, kept as written.
    Other(String),
}

pub enum FlagView {
    Okay,
    Warning,
    Other(Seq<char>),
}

impl View for Flag {
    type V = FlagView;

    open spec fn view(&self) -> FlagView {
        match self {
            Flag::Okay => FlagView::Okay,
            Flag::Warning => FlagView::Warning,
            Flag::Other(s) => FlagView::Other(s@),
        }
    }
}

/// An account: a root type and the path below it (`Assets:Bank:Checking`
/// has root `Assets` and parts `Bank`, `Checking`).
#[derive(Clone, Debug, PartialEq, Eq)]
pub struct Account {
    pub ty: AccountType,
    pub parts: Vec<String>,
}

pub struct AccountView {
    pub ty: AccountType,
    pub parts: Seq<Seq<char>>,
}

impl View for Account {
    type V = AccountView;

    open spec fn view(&self) -> AccountView {
        AccountView { ty: self.ty, parts: self.parts.deep_view() }
    }
}

/// A decimal number `mantissa / 10^scale` in a currency.
#[derive(Clone, Debug, PartialEq, Eq)]
pub struct Amount {
    pub mantissa: i128,
    pub scale: u32,
    pub currency: String,
}

pub struct AmountView {
    pub mantissa: int,
    pub scale: int,
    pub currency: Seq<char>,
}

impl View for Amount {
    type V = AmountView;

    open spec fn view(&self) -> AmountView {
        AmountView {
            mantissa: self.mantissa as int,
            scale: self.scale as int,
            currency: self.currency@,
        }
    }
}

/// A calendar date.
#[derive(Clone, Copy, Debug, PartialEq, Eq, Structural)]
pub struct Date {
    pub year: i32,
    pub month: u32,
    pub day: u32,
}

/// One leg of a transaction. Units that are `None` are incomplete: left for
/// a later balancing step to fill in.
#[derive(Clone, Debug, PartialEq, Eq)]
pub struct Posting {
    pub account: Account,
    pub flag: Option<Flag>,
    pub units: Option<Amount>,
    pub price: Option<Amount>,
}

pub struct PostingView {
    pub account: AccountView,
    pub flag: Option<FlagView>,
    pub units: Option<AmountView>,
    pub price: Option<AmountView>,
}

/// The view of an optional value.
pub open spec fn opt_view<T: View>(o: Option<T>) -> Option<T::V> {
    match o {
        Some(t) => Some(t@),
        None => None,
    }
}

/// The view of a result whose error is a plain value.
pub open spec fn result_view<T: View, E>(r: Result<T, E>) -> Result<T::V, E> {
    match r {
        Ok(t) => Ok(t@),
        Err(e) => Err(e),
    }
}

impl View for Posting {
    type V = PostingView;

    open spec fn view(&self) -> PostingView {
        PostingView {
            account: self.account@,
            flag: opt_view(self.flag),
            units: opt_view(self.units),
            price: opt_view(self.price),
        }
    }
}

/// One dated ledger entry with its postings in the order they were declared.
#[derive(Clone, Debug, PartialEq, Eq)]
pub struct Transaction {
    pub date: Date,
    pub flag: Flag,
    pub payee: Option<String>,
    pub narration: String,
    pub postings: Vec<Posting>,
}

pub struct TransactionView {
    pub date: Date,
    pub flag: FlagView,
    pub payee: Option<Seq<char>>,
    pub narration: Seq<char>,
    pub postings: Seq<PostingView>,
}

impl View for Transaction {
    type V = TransactionView;

    open spec fn view(&self) -> TransactionView {
        TransactionView {
            date: self.date,
            flag: self.flag@,
            payee: match self.payee {
                Some(p) => Some(p@),
                None => None,
            },
            narration: self.narration@,
            postings: self.postings@.map_values(|p: Posting| p@),
        }
    }
}

/// The template that failed to render.
#[derive(Clone, Copy, Debug, PartialEq, Eq, Structural)]
pub enum TemplateField {
    Date,
    Flag,
    Payee,
    Narration,
    Account,
    Amount,
    PostingFlag,
    Price,
}

/// Why a row could not become a transaction.
#[derive(Clone, Copy, Debug, PartialEq, Eq, Structural)]
pub enum TransactionError {
    /// An account's root is none of the five account types.
    InvalidAccount,
    /// A template could not be rendered against the row.
    Template(TemplateField),
    /// An amount is not a decimal number followed by a currency.
    InvalidAmount,
    /// The rendered date does not match the date format.
    DateParse,
}

/// Why a run stopped.
#[derive(Clone, Copy, Debug, PartialEq, Eq, Structural)]
pub enum RunError {
    /// The row could not become a transaction.
    Transaction(TransactionError),
    /// The row has no column at this index, which an input name refers to.
    MissingColumn(usize),
}

} // verus!
