//! Properties of converting rows that relate several rows, several calls
//! or every input.
use crate::config::{ConfigView, Configuration, PostingTemplateView};
use crate::convert::{context_of, posting_of, run_of, transaction_of};
use crate::model::{RunError, TransactionView};
use crate::outside::{context_map, rendered};
use vstd::prelude::*;

verus! {

/// Building is deterministic: the same row under the same configuration
/// always gives the same transaction, or the same error.
pub proof fn lemma_build_deterministic(
    record1: Vec<String>,
    record2: Vec<String>,
    config1: Configuration,
    config2: Configuration,
)
    requires
        record1.deep_view() == record2.deep_view(),
        config1@ == config2@,
    ensures
        transaction_of(record1.deep_view(), config1@) == transaction_of(
            record2.deep_view(),
            config2@,
        ),
{
}

/// A built transaction never has an empty payee: a payee template that
/// renders to nothing leaves the payee absent.
pub proof fn lemma_empty_payee_is_absent(record: Seq<Seq<char>>, config: ConfigView)
    ensures
        transaction_of(record, config) is Ok && transaction_of(record, config)->Ok_0.payee is Some
            ==> transaction_of(record, config)->Ok_0.payee->Some_0.len() > 0,
        config.payee is Some && context_of(record, config.input) is Ok && rendered(
            config.payee->Some_0,
            context_map(context_of(record, config.input)->Ok_0),
        ) == Some(Seq::<char>::empty()) && transaction_of(record, config) is Ok
            ==> transaction_of(record, config)->Ok_0.payee is None,
{
}

/// A posting template without an amount gives incomplete units, never a
/// default amount.
pub proof fn lemma_missing_amount_is_incomplete(
    p: PostingTemplateView,
    context: Map<Seq<char>, Seq<char>>,
)
    requires
        p.amount is None,
    ensures
        posting_of(p, context) is Ok ==> posting_of(p, context)->Ok_0.units is None,
{
}

/// A row that lacks a column some input name refers to makes the lookup
/// of its named values fail.
pub proof fn lemma_short_row_has_no_context(
    record: Seq<Seq<char>>,
    input: Seq<(Seq<char>, usize)>,
    j: int,
)
    requires
        0 <= j < input.len(),
        input[j].1 >= record.len(),
    ensures
        context_of(record, input) is Err,
    decreases input.len(),
{
    if j < input.len() - 1 {
        lemma_short_row_has_no_context(record, input.drop_last(), j);
    }
}

/// A converted row that lacks a referenced column stops the run with
/// `MissingColumn`: no transaction comes from it or from any later row.
pub proof fn lemma_short_row_stops_run(
    rows: Seq<Seq<Seq<char>>>,
    config: ConfigView,
    k: int,
    j: int,
)
    requires
        0 <= config.skip <= k < rows.len(),
        0 <= j < config.input.len(),
        config.input[j].1 >= rows[k].len(),
        run_of(rows.take(k), config).1 is None,
    ensures
        run_of(rows, config).1 matches Some(RunError::MissingColumn(_)),
        run_of(rows, config).0 == run_of(rows.take(k), config).0,
{
    lemma_short_row_has_no_context(rows[k], config.input, j);
    assert(rows.take(k + 1).drop_last() =~= rows.take(k));
    assert(rows.take(k + 1).last() == rows[k]);
    crate::convert::lemma_run_error_stays(rows, config, k + 1);
}

/// The rows that `skip` leaves out are not processed at all: whatever they
/// hold, the run is the same.
pub proof fn lemma_skipped_rows_unread(
    rows1: Seq<Seq<Seq<char>>>,
    rows2: Seq<Seq<Seq<char>>>,
    config: ConfigView,
)
    requires
        0 <= config.skip,
        rows1.len() == rows2.len(),
        forall|i: int| config.skip <= i < rows1.len() ==> rows1[i] == rows2[i],
    ensures
        run_of(rows1, config) == run_of(rows2, config),
    decreases rows1.len(),
{
    if rows1.len() > 0 {
        let shorter1 = rows1.drop_last();
        let shorter2 = rows2.drop_last();
        assert forall|i: int| config.skip <= i < shorter1.len() implies shorter1[i] == shorter2[i] by {
            assert(shorter1[i] == rows1[i] && shorter2[i] == rows2[i]);
        }
        lemma_skipped_rows_unread(shorter1, shorter2, config);
    }
}

/// A run without error converts exactly the rows after the skipped ones,
/// in order: its `k`-th transaction is what `build_transaction` gives for
/// row `skip + k`, and rows before `skip` are never built.
pub proof fn lemma_run_builds_rows_after_skip(rows: Seq<Seq<Seq<char>>>, config: ConfigView)
    requires
        0 <= config.skip,
        run_of(rows, config).1 is None,
    ensures
        run_of(rows, config).0.len() == if rows.len() > config.skip {
            rows.len() - config.skip
        } else {
            0
        },
        forall|k: int|
            0 <= k < run_of(rows, config).0.len() ==> #[trigger] transaction_of(
                rows[config.skip + k],
                config,
            ) == Ok::<TransactionView, RunError>(run_of(rows, config).0[k]),
    decreases rows.len(),
{
    if rows.len() > 0 {
        let shorter = rows.drop_last();
        lemma_run_builds_rows_after_skip(shorter, config);
        assert forall|k: int| 0 <= k < run_of(shorter, config).0.len() implies transaction_of(
            #[trigger] rows[config.skip + k],
            config,
        ) == Ok::<TransactionView, RunError>(run_of(rows, config).0[k]) by {
            assert(shorter[config.skip + k] == rows[config.skip + k]);
        }
        if rows.len() - 1 >= config.skip {
            assert(rows[config.skip + (rows.len() - 1 - config.skip)] == rows.last());
        }
    }
}

} // verus!
