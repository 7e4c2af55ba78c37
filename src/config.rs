//! The configuration of a run: which column holds which named value, how
//! the CSV is read, and the templates of one transaction.
use vstd::prelude::*;
use vstd::string::*;

verus! {

/// The delimiter of the CSV when none is configured.
pub fn default_delimiter() -> (r: char)
    ensures
        r == ',',
{
    ','
}

/// The quote character of the CSV when none is configured.
pub fn default_quote() -> (r: char)
    ensures
        r == '\'',
{
    '\''
}

/// The transaction flag template when none is configured: `!`, an entry
/// that needs attention.
pub fn default_transaction_flag() -> (r: String)
    ensures
        r@ == seq!['!'],
{
    proof {
        reveal_strlit("!");
    }
    let r = String::from_str("!");
    assert(r@ =~= seq!['!']);
    r
}

/// How the CSV is read.
#[derive(Clone, Debug)]
pub struct Settings {
    pub delimiter: char,
    pub quote: char,
    /// The number of leading rows that are not converted at all.
    pub skip: usize,
    /// The strftime-style format of the rendered date.
    pub date_format: String,
}

/// The templates of one posting.
#[derive(Clone, Debug)]
pub struct PostingTemplate {
    pub flag: Option<String>,
    pub account: String,
    pub amount: Option<String>,
    /// Accepted in a configuration but not used: a posting carries no cost.
    pub cost: Option<String>,
    pub price: Option<String>,
}

pub struct PostingTemplateView {
    pub flag: Option<Seq<char>>,
    pub account: Seq<char>,
    pub amount: Option<Seq<char>>,
    pub price: Option<Seq<char>>,
}

impl View for PostingTemplate {
    type V = PostingTemplateView;

    open spec fn view(&self) -> PostingTemplateView {
        PostingTemplateView {
            flag: self.flag.deep_view(),
            account: self.account@,
            amount: self.amount.deep_view(),
            price: self.price.deep_view(),
        }
    }
}

/// The templates of one transaction.
#[derive(Clone, Debug)]
pub struct TransactionTemplate {
    pub date: String,
    pub flag: String,
    pub payee: Option<String>,
    pub narration: String,
    pub postings: Vec<PostingTemplate>,
}

/// A whole configuration.
#[derive(Clone, Debug)]
pub struct Configuration {
    /// Each name a template may use, with the index of the column that
    /// holds its value.
    pub input: Vec<(String, usize)>,
    pub settings: Settings,
    pub output: TransactionTemplate,
}

/// What of a configuration the conversion of rows reads.
pub struct ConfigView {
    pub input: Seq<(Seq<char>, usize)>,
    pub skip: int,
    pub date_format: Seq<char>,
    pub date: Seq<char>,
    pub flag: Seq<char>,
    pub payee: Option<Seq<char>>,
    pub narration: Seq<char>,
    pub postings: Seq<PostingTemplateView>,
}

impl View for Configuration {
    type V = ConfigView;

    open spec fn view(&self) -> ConfigView {
        ConfigView {
            input: self.input.deep_view(),
            skip: self.settings.skip as int,
            date_format: self.settings.date_format@,
            date: self.output.date@,
            flag: self.output.flag@,
            payee: self.output.payee.deep_view(),
            narration: self.output.narration@,
            postings: self.output.postings@.map_values(|p: PostingTemplate| p@),
        }
    }
}

} // verus!
