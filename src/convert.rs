//! One row and a configuration in, one transaction out; and a run over
//! many rows that stops at the first error.
use crate::config::{ConfigView, Configuration, PostingTemplate, PostingTemplateView};
use crate::model::{
    AmountView, Date, Flag, FlagView, Posting, PostingView, RunError, TemplateField, Transaction,
    TransactionError, TransactionView, result_view,
};
use crate::outside::{context_map, parse_date, parsed_date, rendered, TemplateEngine};
use crate::parse::{
    account_from_string, account_of, amount_of, flag_from, flag_of, incomplete_amount_from_string,
};
use crate::text::has_partial_call;
use vstd::prelude::*;

verus! {

/// The named values of a row: for each input name, the column it refers
/// to; or the first column index (in input order) that the row lacks.
pub open spec fn context_of(record: Seq<Seq<char>>, input: Seq<(Seq<char>, usize)>) -> Result<
    Seq<(Seq<char>, Seq<char>)>,
    usize,
>
    decreases input.len(),
{
    if input.len() == 0 {
        Ok(seq![])
    } else {
        match context_of(record, input.drop_last()) {
            Err(i) => Err(i),
            Ok(c) => if input.last().1 < record.len() {
                Ok(c.push((input.last().0, record[input.last().1 as int])))
            } else {
                Err(input.last().1)
            },
        }
    }
}

/// A rendered template, or the template error; a template that calls a
/// partial is refused.
pub open spec fn render_of(
    template: Seq<char>,
    context: Map<Seq<char>, Seq<char>>,
    field: TemplateField,
) -> Result<
    Seq<char>,
    TransactionError,
> {
    if has_partial_call(template) {
        Err(TransactionError::Template(field))
    } else {
        match rendered(template, context) {
            Some(s) => Ok(s),
            None => Err(TransactionError::Template(field)),
        }
    }
}

/// An optional amount template rendered and read; `None` where there is
/// no template.
pub open spec fn units_of(
    template: Option<Seq<char>>,
    context: Map<Seq<char>, Seq<char>>,
    field: TemplateField,
) -> Result<
    Option<AmountView>,
    TransactionError,
> {
    match template {
        None => Ok(None),
        Some(t) => match render_of(t, context, field) {
            Err(e) => Err(e),
            Ok(s) => match amount_of(s) {
                Err(e) => Err(e),
                Ok(a) => Ok(Some(a)),
            },
        },
    }
}

/// An optional flag template rendered and read; `None` where there is no
/// template.
pub open spec fn posting_flag_of(
    template: Option<Seq<char>>,
    context: Map<Seq<char>, Seq<char>>,
) -> Result<Option<FlagView>, TransactionError> {
    match template {
        None => Ok(None),
        Some(t) => match render_of(t, context, TemplateField::PostingFlag) {
            Err(e) => Err(e),
            Ok(s) => Ok(Some(flag_of(s))),
        },
    }
}

/// The posting that a posting template gives for a row: account, then
/// units, then flag, then price; the first failure is the result.
pub open spec fn posting_of(p: PostingTemplateView, context: Map<Seq<char>, Seq<char>>) -> Result<
    PostingView,
    TransactionError,
> {
    match render_of(p.account, context, TemplateField::Account) {
        Err(e) => Err(e),
        Ok(a) => match account_of(a) {
            Err(e) => Err(e),
            Ok(account) => match units_of(p.amount, context, TemplateField::Amount) {
                Err(e) => Err(e),
                Ok(units) => match posting_flag_of(p.flag, context) {
                    Err(e) => Err(e),
                    Ok(flag) => match units_of(p.price, context, TemplateField::Price) {
                        Err(e) => Err(e),
                        Ok(price) => Ok(PostingView { account, flag, units, price }),
                    },
                },
            },
        },
    }
}

/// The postings of all templates in order, or the first failure.
pub open spec fn postings_of(
    ps: Seq<PostingTemplateView>,
    context: Map<Seq<char>, Seq<char>>,
) -> Result<Seq<PostingView>, TransactionError>
    decreases ps.len(),
{
    if ps.len() == 0 {
        Ok(seq![])
    } else {
        match postings_of(ps.drop_last(), context) {
            Err(e) => Err(e),
            Ok(done) => match posting_of(ps.last(), context) {
                Err(e) => Err(e),
                Ok(p) => Ok(done.push(p)),
            },
        }
    }
}

/// The named values of a row, as `build_transaction` hands them to every
/// template; `MissingColumn` where the row lacks a column.
pub fn row_context(record: &Vec<String>, input: &Vec<(String, usize)>) -> (r: Result<
    Vec<(String, String)>,
    RunError,
>)
    ensures
        match context_of(record.deep_view(), input.deep_view()) {
            Ok(c) => r is Ok && r->Ok_0.deep_view() == c,
            Err(i) => r == Err::<Vec<(String, String)>, RunError>(RunError::MissingColumn(i)),
        },
{
    let mut context: Vec<(String, String)> = Vec::new();
    let mut i: usize = 0;
    assert(input.deep_view().take(0) =~= seq![]);
    assert(context.deep_view() =~= seq![]);
    while i < input.len()
        invariant
            i <= input.len(),
            context_of(record.deep_view(), input.deep_view().take(i as int)) == Ok::<
                Seq<(Seq<char>, Seq<char>)>,
                usize,
            >(context.deep_view()),
        decreases input.len() - i,
    {
        let column = input[i].1;
        assert(input.deep_view().take(i + 1).drop_last() =~= input.deep_view().take(i as int));
        if column >= record.len() {
            assert(input.deep_view() =~= input.deep_view().take(input@.len() as int));
            proof {
                lemma_context_error_stays(record.deep_view(), input.deep_view(), i as int + 1);
            }
            return Err(RunError::MissingColumn(column));
        }
        let ghost before = context.deep_view();
        context.push((input[i].0.clone(), record[column].clone()));
        assert(context.deep_view() =~= before.push(
            (input.deep_view()[i as int].0, record.deep_view()[column as int]),
        ));
        i = i + 1;
    }
    assert(input.deep_view() =~= input.deep_view().take(input@.len() as int));
    Ok(context)
}

/// Once a prefix of the input names fails, every longer prefix fails with
/// the same column.
proof fn lemma_context_error_stays(record: Seq<Seq<char>>, input: Seq<(Seq<char>, usize)>, k: int)
    requires
        0 <= k <= input.len(),
        context_of(record, input.take(k)) is Err,
    ensures
        context_of(record, input) == context_of(record, input.take(k)),
    decreases input.len() - k,
{
    if k < input.len() {
        assert(input.take(k + 1).drop_last() =~= input.take(k));
        lemma_context_error_stays(record, input, k + 1);
    } else {
        assert(input.take(k) =~= input);
    }
}

/// Renders one template against the row's named values.
fn render_field(
    engine: &TemplateEngine,
    template: &String,
    context: &Vec<(String, String)>,
    field: TemplateField,
) -> (r: Result<String, TransactionError>)
    ensures
        result_view(r) == render_of(template@, context_map(context.deep_view()), field),
        crate::outside::is_plain_text(template@) ==> r is Ok && r->Ok_0@ == template@,
{
    match engine.render(template.as_str(), context) {
        Some(s) => Ok(s),
        None => Err(TransactionError::Template(field)),
    }
}

/// Renders and reads an optional amount template.
fn build_units(
    engine: &TemplateEngine,
    template: &Option<String>,
    context: &Vec<(String, String)>,
    field: TemplateField,
) -> (r: Result<
    Option<crate::model::Amount>,
    TransactionError,
>)
    ensures
        match r {
            Ok(a) => units_of(template.deep_view(), context_map(context.deep_view()), field) == Ok::<
                Option<AmountView>,
                TransactionError,
            >(crate::model::opt_view(a)),
            Err(e) => units_of(template.deep_view(), context_map(context.deep_view()), field) == Err::<
                Option<AmountView>,
                TransactionError,
            >(e),
        },
{
    match template {
        None => Ok(None),
        Some(t) => {
            let s = render_field(engine, t, context, field)?;
            let a = incomplete_amount_from_string(s)?;
            Ok(Some(a))
        },
    }
}

/// Builds one posting of a row: the account is required; units and price
/// are read where their templates are given, and units without a template
/// are left incomplete.
pub fn build_posting(
    posting_template: &PostingTemplate,
    engine: &TemplateEngine,
    context: &Vec<(String, String)>,
) -> (r: Result<Posting, TransactionError>)
    ensures
        result_view(r) == posting_of(posting_template@, context_map(context.deep_view())),
        posting_template.amount is None && r is Ok ==> r->Ok_0.units is None,
{
    let rendered_account = render_field(engine, &posting_template.account, context, TemplateField::Account)?;
    let account = account_from_string(rendered_account)?;
    let units = build_units(engine, &posting_template.amount, context, TemplateField::Amount)?;
    let flag = match &posting_template.flag {
        None => None,
        Some(t) => Some(flag_from(render_field(engine, t, context, TemplateField::PostingFlag)?)),
    };
    let price = build_units(engine, &posting_template.price, context, TemplateField::Price)?;
    Ok(Posting { account, flag, units, price })
}

/// The payee of a transaction: absent without a template, and absent
/// where the template renders to nothing.
pub open spec fn payee_of(template: Option<Seq<char>>, context: Map<Seq<char>, Seq<char>>) -> Result<
    Option<Seq<char>>,
    TransactionError,
> {
    match template {
        None => Ok(None),
        Some(t) => match render_of(t, context, TemplateField::Payee) {
            Err(e) => Err(e),
            Ok(s) => if s.len() == 0 {
                Ok(None)
            } else {
                Ok(Some(s))
            },
        },
    }
}

/// The date that a rendered date text denotes under the configured format.
pub open spec fn date_of(text: Seq<char>, format: Seq<char>) -> Result<Date, TransactionError> {
    match parsed_date(text, format) {
        None => Err(TransactionError::DateParse),
        Some(d) => Ok(Date { year: d.0 as i32, month: d.1 as u32, day: d.2 as u32 }),
    }
}

/// The transaction built from the named values of a row: date, flag,
/// payee, narration, then the postings; the first failure is the result.
pub open spec fn transaction_in(config: ConfigView, context: Map<Seq<char>, Seq<char>>) -> Result<
    TransactionView,
    TransactionError,
> {
    match render_of(config.date, context, TemplateField::Date) {
        Err(e) => Err(e),
        Ok(d) => match date_of(d, config.date_format) {
            Err(e) => Err(e),
            Ok(date) => match render_of(config.flag, context, TemplateField::Flag) {
                Err(e) => Err(e),
                Ok(f) => match payee_of(config.payee, context) {
                    Err(e) => Err(e),
                    Ok(payee) => match render_of(config.narration, context, TemplateField::Narration) {
                        Err(e) => Err(e),
                        Ok(narration) => match postings_of(config.postings, context) {
                            Err(e) => Err(e),
                            Ok(postings) => Ok(
                                TransactionView {
                                    date,
                                    flag: flag_of(f),
                                    payee,
                                    narration,
                                    postings,
                                },
                            ),
                        },
                    },
                },
            },
        },
    }
}

/// The transaction that one row gives under a configuration.
pub open spec fn transaction_of(record: Seq<Seq<char>>, config: ConfigView) -> Result<
    TransactionView,
    RunError,
> {
    match context_of(record, config.input) {
        Err(i) => Err(RunError::MissingColumn(i)),
        Ok(pairs) => match transaction_in(config, context_map(pairs)) {
            Err(e) => Err(RunError::Transaction(e)),
            Ok(t) => Ok(t),
        },
    }
}

/// Renders the payee template, if any; an empty payee counts as none.
fn build_payee(engine: &TemplateEngine, template: &Option<String>, context: &Vec<(String, String)>) -> (r: Result<
    Option<String>,
    TransactionError,
>)
    ensures
        match r {
            Ok(p) => payee_of(template.deep_view(), context_map(context.deep_view())) == Ok::<
                Option<Seq<char>>,
                TransactionError,
            >(p.deep_view()),
            Err(e) => payee_of(template.deep_view(), context_map(context.deep_view())) == Err::<
                Option<Seq<char>>,
                TransactionError,
            >(e),
        },
{
    match template {
        None => Ok(None),
        Some(t) => {
            let s = render_field(engine, t, context, TemplateField::Payee)?;
            if s.as_str().unicode_len() == 0 {
                Ok(None)
            } else {
                Ok(Some(s))
            }
        },
    }
}

/// Builds the postings of all templates, in their order.
fn build_postings(
    templates: &Vec<PostingTemplate>,
    engine: &TemplateEngine,
    context: &Vec<(String, String)>,
) -> (r: Result<Vec<Posting>, TransactionError>)
    ensures
        match r {
            Ok(ps) => postings_of(
                templates@.map_values(|p: PostingTemplate| p@),
                context_map(context.deep_view()),
            ) == Ok::<Seq<PostingView>, TransactionError>(ps@.map_values(|p: Posting| p@)),
            Err(e) => postings_of(
                templates@.map_values(|p: PostingTemplate| p@),
                context_map(context.deep_view()),
            ) == Err::<Seq<PostingView>, TransactionError>(e),
        },
{
    let ghost all = templates@.map_values(|p: PostingTemplate| p@);
    let ghost ctx = context_map(context.deep_view());
    let mut postings: Vec<Posting> = Vec::new();
    let mut i: usize = 0;
    assert(all.take(0) =~= seq![]);
    assert(postings@.map_values(|p: Posting| p@) =~= seq![]);
    while i < templates.len()
        invariant
            i <= templates.len(),
            all == templates@.map_values(|p: PostingTemplate| p@),
            ctx == context_map(context.deep_view()),
            postings_of(all.take(i as int), ctx) == Ok::<Seq<PostingView>, TransactionError>(
                postings@.map_values(|p: Posting| p@),
            ),
        decreases templates.len() - i,
    {
        assert(all.take(i + 1).drop_last() =~= all.take(i as int));
        assert(all.take(i + 1).last() == templates@[i as int]@);
        match build_posting(&templates[i], engine, context) {
            Err(e) => {
                proof {
                    lemma_postings_error_stays(all, ctx, i as int + 1);
                }
                assert(all.take(all.len() as int) =~= all);
                return Err(e);
            },
            Ok(p) => {
                let ghost before = postings@.map_values(|p: Posting| p@);
                postings.push(p);
                assert(postings@.map_values(|p: Posting| p@) =~= before.push(p@));
            },
        }
        i = i + 1;
    }
    assert(all.take(all.len() as int) =~= all);
    Ok(postings)
}

/// Once a prefix of the posting templates fails, every longer prefix fails
/// the same way.
proof fn lemma_postings_error_stays(
    ps: Seq<PostingTemplateView>,
    context: Map<Seq<char>, Seq<char>>,
    k: int,
)
    requires
        0 <= k <= ps.len(),
        postings_of(ps.take(k), context) is Err,
    ensures
        postings_of(ps, context) == postings_of(ps.take(k), context),
    decreases ps.len() - k,
{
    if k < ps.len() {
        assert(ps.take(k + 1).drop_last() =~= ps.take(k));
        lemma_postings_error_stays(ps, context, k + 1);
    } else {
        assert(ps.take(k) =~= ps);
    }
}

/// Builds the transaction of one row. The flag template `!` gives the flag
/// `Warning`; a payee that renders to nothing is left out.
pub fn build_transaction(
    record: &Vec<String>,
    config: &Configuration,
    engine: &TemplateEngine,
) -> (r: Result<Transaction, RunError>)
    ensures
        result_view(r) == transaction_of(record.deep_view(), config@),
        config.output.flag@ == seq!['!'] && r is Ok ==> r->Ok_0.flag == Flag::Warning,
        r is Ok && r->Ok_0.payee is Some ==> r->Ok_0.payee->Some_0@.len() > 0,
{
    let context = row_context(record, &config.input)?;
    let out = &config.output;
    let date = match render_field(engine, &out.date, &context, TemplateField::Date) {
        Err(e) => return Err(RunError::Transaction(e)),
        Ok(d) => match parse_date(d.as_str(), config.settings.date_format.as_str()) {
            Err(_) => return Err(RunError::Transaction(TransactionError::DateParse)),
            Ok(ymd) => Date { year: ymd.0, month: ymd.1, day: ymd.2 },
        },
    };
    proof {
        if out.flag@ == seq!['!'] {
            assert(out.flag@.len() == 1 && out.flag@[0] == '!');
            assert(crate::outside::is_plain_text(out.flag@));
        }
    }
    let flag = match render_field(engine, &out.flag, &context, TemplateField::Flag) {
        Err(e) => return Err(RunError::Transaction(e)),
        Ok(f) => flag_from(f),
    };
    let payee = match build_payee(engine, &out.payee, &context) {
        Err(e) => return Err(RunError::Transaction(e)),
        Ok(p) => p,
    };
    let narration = match render_field(engine, &out.narration, &context, TemplateField::Narration) {
        Err(e) => return Err(RunError::Transaction(e)),
        Ok(n) => n,
    };
    let postings = match build_postings(&out.postings, engine, &context) {
        Err(e) => return Err(RunError::Transaction(e)),
        Ok(ps) => ps,
    };
    assert(out.flag@ == seq!['!'] ==> flag@ == FlagView::Warning);
    let t = Transaction { date, flag, payee, narration, postings };
    assert(t@.payee == payee.deep_view());
    Ok(t)
}

/// What the row at `index` of a run gives: nothing for the rows that
/// `skip` leaves out, else its transaction or the error that stops the run.
pub open spec fn row_outcome(index: int, record: Seq<Seq<char>>, config: ConfigView) -> Result<
    Option<TransactionView>,
    RunError,
> {
    if index < config.skip {
        Ok(None)
    } else {
        match transaction_of(record, config) {
            Ok(t) => Ok(Some(t)),
            Err(e) => Err(e),
        }
    }
}

/// A run over `rows` in order: the transactions built before the first
/// error, and that error; rows after it are not looked at.
pub open spec fn run_of(rows: Seq<Seq<Seq<char>>>, config: ConfigView) -> (
    Seq<TransactionView>,
    Option<RunError>,
)
    decreases rows.len(),
{
    if rows.len() == 0 {
        (seq![], None)
    } else {
        let before = run_of(rows.drop_last(), config);
        if before.1 is Some {
            before
        } else {
            match row_outcome(rows.len() - 1, rows.last(), config) {
                Ok(None) => before,
                Ok(Some(t)) => (before.0.push(t), None),
                Err(e) => (before.0, Some(e)),
            }
        }
    }
}

/// Handles the row at `index` (counted from the first row of the CSV): a
/// row that `skip` leaves out gives `None` and is not read at all.
pub fn process_record(
    index: usize,
    record: &Vec<String>,
    config: &Configuration,
    engine: &TemplateEngine,
) -> (r: Result<Option<Transaction>, RunError>)
    ensures
        match r {
            Ok(Some(t)) => row_outcome(index as int, record.deep_view(), config@) == Ok::<
                Option<TransactionView>,
                RunError,
            >(Some(t@)),
            Ok(None) => row_outcome(index as int, record.deep_view(), config@) == Ok::<
                Option<TransactionView>,
                RunError,
            >(None),
            Err(e) => row_outcome(index as int, record.deep_view(), config@) == Err::<
                Option<TransactionView>,
                RunError,
            >(e),
        },
        index < config.settings.skip ==> r is Ok && r->Ok_0 is None,
{
    if index < config.settings.skip {
        return Ok(None);
    }
    let t = build_transaction(record, config, engine)?;
    Ok(Some(t))
}

/// Converts the rows of a CSV in order, skipping the configured number of
/// leading rows: the transactions of the rows before the first error, and
/// that error, if any.
pub fn convert_rows(rows: &Vec<Vec<String>>, config: &Configuration, engine: &TemplateEngine) -> (r: (
    Vec<Transaction>,
    Option<RunError>,
))
    ensures
        r.0@.map_values(|t: Transaction| t@) == run_of(rows.deep_view(), config@).0,
        r.1 == run_of(rows.deep_view(), config@).1,
{
    let ghost all = rows.deep_view();
    let mut done: Vec<Transaction> = Vec::new();
    let mut i: usize = 0;
    assert(all.take(0) =~= seq![]);
    assert(done@.map_values(|t: Transaction| t@) =~= seq![]);
    while i < rows.len()
        invariant
            i <= rows.len(),
            all == rows.deep_view(),
            run_of(all.take(i as int), config@).0 == done@.map_values(|t: Transaction| t@),
            run_of(all.take(i as int), config@).1 is None,
        decreases rows.len() - i,
    {
        assert(all.take(i + 1).drop_last() =~= all.take(i as int));
        assert(all.take(i + 1).last() == rows[i as int].deep_view());
        let ghost before = done@.map_values(|t: Transaction| t@);
        match process_record(i, &rows[i], config, engine) {
            Err(e) => {
                proof {
                    lemma_run_error_stays(all, config@, i as int + 1);
                }
                assert(all.take(all.len() as int) =~= all);
                return (done, Some(e));
            },
            Ok(None) => {},
            Ok(Some(t)) => {
                done.push(t);
                assert(done@.map_values(|t: Transaction| t@) =~= before.push(t@));
            },
        }
        i = i + 1;
    }
    assert(all.take(all.len() as int) =~= all);
    (done, None)
}

/// Once a run has stopped on an error, later rows change nothing.
pub proof fn lemma_run_error_stays(rows: Seq<Seq<Seq<char>>>, config: ConfigView, k: int)
    requires
        0 <= k <= rows.len(),
        run_of(rows.take(k), config).1 is Some,
    ensures
        run_of(rows, config) == run_of(rows.take(k), config),
    decreases rows.len() - k,
{
    if k < rows.len() {
        assert(rows.take(k + 1).drop_last() =~= rows.take(k));
        lemma_run_error_stays(rows, config, k + 1);
    } else {
        assert(rows.take(k) =~= rows);
    }
}

} // verus!
