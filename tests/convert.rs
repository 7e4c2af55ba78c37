use beanrow::config::{
    default_delimiter, default_quote, default_transaction_flag, Configuration, PostingTemplate,
    Settings, TransactionTemplate,
};
use beanrow::convert::{build_posting, build_transaction, convert_rows, process_record, row_context};
use beanrow::model::{AccountType, Date, Flag, RunError, TemplateField, TransactionError};
use beanrow::outside::TemplateEngine;
use beanrow::parse::{
    account_from_string, amount_from_parts, flag_from, incomplete_amount_from_string,
};
use beanrow::text::{replace_str, split_str, str_eq, template_has_partial_call};

fn s(x: &str) -> String {
    x.to_string()
}

fn posting(account: &str, amount: Option<&str>) -> PostingTemplate {
    PostingTemplate {
        flag: None,
        account: s(account),
        amount: amount.map(s),
        cost: None,
        price: None,
    }
}

fn coffee_config() -> Configuration {
    Configuration {
        input: vec![(s("date_col"), 0), (s("desc"), 1), (s("amt"), 2)],
        settings: Settings {
            delimiter: default_delimiter(),
            quote: default_quote(),
            skip: 0,
            date_format: s("%Y-%m-%d"),
        },
        output: TransactionTemplate {
            date: s("{{date_col}}"),
            flag: default_transaction_flag(),
            payee: None,
            narration: s("{{desc}}"),
            postings: vec![
                posting("Assets:Bank", Some("{{amt}} USD")),
                posting("Expenses:Misc", None),
            ],
        },
    }
}

fn row(cells: &[&str]) -> Vec<String> {
    cells.iter().map(|c| s(c)).collect()
}

#[test]
fn amount_with_decimal_comma() {
    let a = incomplete_amount_from_string(s("12,50 EUR")).unwrap();
    assert_eq!((a.mantissa, a.scale), (1250, 2));
    assert_eq!(a.currency, "EUR");
}

#[test]
fn amount_with_decimal_point_is_the_same() {
    let a = incomplete_amount_from_string(s("12.50 EUR")).unwrap();
    let b = incomplete_amount_from_string(s("12,50 EUR")).unwrap();
    assert_eq!(a, b);
}

#[test]
fn amount_without_space_is_invalid() {
    assert_eq!(incomplete_amount_from_string(s("abc")), Err(TransactionError::InvalidAmount));
}

#[test]
fn amount_without_currency_is_invalid() {
    assert_eq!(incomplete_amount_from_string(s("12.50")), Err(TransactionError::InvalidAmount));
}

#[test]
fn amount_with_bad_number_is_invalid() {
    assert_eq!(incomplete_amount_from_string(s("twelve EUR")), Err(TransactionError::InvalidAmount));
}

#[test]
fn amount_currency_is_everything_after_first_space() {
    let a = incomplete_amount_from_string(s("-3 CHF extra")).unwrap();
    assert_eq!((a.mantissa, a.scale), (-3, 0));
    assert_eq!(a.currency, "CHF extra");
    let b = incomplete_amount_from_string(s("12.50 EUR X")).unwrap();
    assert_eq!((b.mantissa, b.scale), (1250, 2));
    assert_eq!(b.currency, "EUR X");
    let c = incomplete_amount_from_string(s("1 ")).unwrap();
    assert_eq!(c.currency, "");
}

#[test]
fn flag_is_rendered_before_payee() {
    let engine = TemplateEngine::new();
    let mut config = coffee_config();
    config.output.flag = s("{{no_flag}}");
    config.output.payee = Some(s("{{no_payee}}"));
    assert_eq!(
        build_transaction(&row(&["2023-01-15", "Coffee", "4.50"]), &config, &engine),
        Err(RunError::Transaction(TransactionError::Template(TemplateField::Flag)))
    );
    config.output.flag = default_transaction_flag();
    assert_eq!(
        build_transaction(&row(&["2023-01-15", "Coffee", "4.50"]), &config, &engine),
        Err(RunError::Transaction(TransactionError::Template(TemplateField::Payee)))
    );
}

#[test]
fn amount_from_parts_needs_both() {
    assert_eq!(amount_from_parts(None, Some(s("EUR"))), Err(TransactionError::InvalidAmount));
    assert_eq!(amount_from_parts(Some((5, 1)), None), Err(TransactionError::InvalidAmount));
    let a = amount_from_parts(Some((5, 1)), Some(s("EUR"))).unwrap();
    assert_eq!((a.mantissa, a.scale, a.currency.as_str()), (5, 1, "EUR"));
}

#[test]
fn account_with_path() {
    let a = account_from_string(s("Assets:Bank:Checking")).unwrap();
    assert_eq!(a.ty, AccountType::Assets);
    assert_eq!(a.parts, vec![s("Bank"), s("Checking")]);
}

#[test]
fn account_roots() {
    assert_eq!(account_from_string(s("Liabilities")).unwrap().ty, AccountType::Liabilities);
    assert_eq!(account_from_string(s("Equity:X")).unwrap().ty, AccountType::Equity);
    assert_eq!(account_from_string(s("Income:Y")).unwrap().ty, AccountType::Income);
    assert_eq!(account_from_string(s("Expenses:Z")).unwrap().ty, AccountType::Expenses);
    assert!(account_from_string(s("Liabilities")).unwrap().parts.is_empty());
}

#[test]
fn account_with_unknown_root_is_invalid() {
    assert_eq!(account_from_string(s("Foo:Bar")), Err(TransactionError::InvalidAccount));
    assert_eq!(account_from_string(s("assets:Bar")), Err(TransactionError::InvalidAccount));
}

#[test]
fn empty_account_is_invalid() {
    assert_eq!(account_from_string(s("")), Err(TransactionError::InvalidAccount));
}

#[test]
fn flags_from_markers() {
    assert_eq!(flag_from(s("*")), Flag::Okay);
    assert_eq!(flag_from(s("!")), Flag::Warning);
    assert_eq!(flag_from(s("P")), Flag::Other(s("P")));
}

#[test]
fn text_helpers() {
    assert_eq!(split_str("a::b", ':'), vec![s("a"), s(""), s("b")]);
    assert_eq!(split_str("", ':'), vec![s("")]);
    assert_eq!(replace_str("1,2,3", ',', "."), "1.2.3");
    assert!(str_eq("abc", "abc"));
    assert!(!str_eq("abc", "abd"));
    assert!(!str_eq("abc", "ab"));
}

#[test]
fn defaults() {
    assert_eq!(default_delimiter(), ',');
    assert_eq!(default_quote(), '\'');
    assert_eq!(default_transaction_flag(), "!");
}

#[test]
fn end_to_end_coffee() {
    let engine = TemplateEngine::new();
    let config = coffee_config();
    let t = build_transaction(&row(&["2023-01-15", "Coffee", "4.50"]), &config, &engine).unwrap();
    assert_eq!(t.date, Date { year: 2023, month: 1, day: 15 });
    assert_eq!(t.narration, "Coffee");
    assert_eq!(t.flag, Flag::Warning);
    assert_eq!(t.payee, None);
    assert_eq!(t.postings.len(), 2);
    let first = &t.postings[0];
    assert_eq!(first.account.ty, AccountType::Assets);
    assert_eq!(first.account.parts, vec![s("Bank")]);
    let units = first.units.as_ref().unwrap();
    assert_eq!((units.mantissa, units.scale, units.currency.as_str()), (450, 2, "USD"));
    let second = &t.postings[1];
    assert_eq!(second.account.ty, AccountType::Expenses);
    assert_eq!(second.account.parts, vec![s("Misc")]);
    assert_eq!(second.units, None);
    assert_eq!(second.flag, None);
    assert_eq!(second.price, None);
}

#[test]
fn building_twice_gives_the_same_transaction() {
    let engine = TemplateEngine::new();
    let config = coffee_config();
    let r = row(&["2023-01-15", "Coffee", "4.50"]);
    assert_eq!(
        build_transaction(&r, &config, &engine),
        build_transaction(&r.clone(), &config, &TemplateEngine::new())
    );
}

#[test]
fn empty_payee_is_absent() {
    let engine = TemplateEngine::new();
    let mut config = coffee_config();
    config.input.push((s("who"), 3));
    config.output.payee = Some(s("{{who}}"));
    let t = build_transaction(&row(&["2023-01-15", "Coffee", "4.50", ""]), &config, &engine)
        .unwrap();
    assert_eq!(t.payee, None);
    let t = build_transaction(&row(&["2023-01-15", "Coffee", "4.50", "Cafe"]), &config, &engine)
        .unwrap();
    assert_eq!(t.payee, Some(s("Cafe")));
}

#[test]
fn missing_amount_leaves_units_incomplete() {
    let engine = TemplateEngine::new();
    let context = vec![(s("x"), s("1 EUR"))];
    let p = build_posting(&posting("Assets:Cash", None), &engine, &context).unwrap();
    assert_eq!(p.units, None);
    let p = build_posting(&posting("Assets:Cash", Some("{{x}}")), &engine, &context).unwrap();
    let units = p.units.unwrap();
    assert_eq!((units.mantissa, units.scale, units.currency.as_str()), (1, 0, "EUR"));
}

#[test]
fn posting_flag_and_price() {
    let engine = TemplateEngine::new();
    let context = vec![(s("rate"), s("1,10 USD")), (s("mark"), s("*"))];
    let mut p = posting("Assets:Cash", Some("5 EUR"));
    p.flag = Some(s("{{mark}}"));
    p.price = Some(s("{{rate}}"));
    p.cost = Some(s("ignored"));
    let built = build_posting(&p, &engine, &context).unwrap();
    assert_eq!(built.flag, Some(Flag::Okay));
    let price = built.price.unwrap();
    assert_eq!((price.mantissa, price.scale, price.currency.as_str()), (110, 2, "USD"));
}

#[test]
fn posting_errors() {
    let engine = TemplateEngine::new();
    let context = vec![(s("x"), s("oops"))];
    assert_eq!(
        build_posting(&posting("Foo:Bar", None), &engine, &context),
        Err(TransactionError::InvalidAccount)
    );
    assert_eq!(
        build_posting(&posting("Assets:Cash", Some("{{x}}")), &engine, &context),
        Err(TransactionError::InvalidAmount)
    );
    let mut priced = posting("Assets:Cash", None);
    priced.price = Some(s("{{missing}}"));
    assert_eq!(
        build_posting(&priced, &engine, &context),
        Err(TransactionError::Template(TemplateField::Price))
    );
    assert_eq!(
        build_posting(&posting("{{nobody}}", None), &engine, &context),
        Err(TransactionError::Template(TemplateField::Account))
    );
}

#[test]
fn default_flag_is_warning() {
    let engine = TemplateEngine::new();
    let mut config = coffee_config();
    config.output.flag = default_transaction_flag();
    let t = build_transaction(&row(&["2023-01-15", "Coffee", "4.50"]), &config, &engine).unwrap();
    assert_eq!(t.flag, Flag::Warning);
    config.output.flag = s("*");
    let t = build_transaction(&row(&["2023-01-15", "Coffee", "4.50"]), &config, &engine).unwrap();
    assert_eq!(t.flag, Flag::Okay);
}

#[test]
fn unknown_name_is_a_template_error() {
    let engine = TemplateEngine::new();
    let mut config = coffee_config();
    config.output.narration = s("{{nothing}}");
    assert_eq!(
        build_transaction(&row(&["2023-01-15", "Coffee", "4.50"]), &config, &engine),
        Err(RunError::Transaction(TransactionError::Template(TemplateField::Narration)))
    );
}

#[test]
fn bad_date_is_a_date_error() {
    let engine = TemplateEngine::new();
    let config = coffee_config();
    assert_eq!(
        build_transaction(&row(&["15.01.2023", "Coffee", "4.50"]), &config, &engine),
        Err(RunError::Transaction(TransactionError::DateParse))
    );
    assert_eq!(
        build_transaction(&row(&["2023-02-30", "Coffee", "4.50"]), &config, &engine),
        Err(RunError::Transaction(TransactionError::DateParse))
    );
}

#[test]
fn values_are_not_escaped() {
    let engine = TemplateEngine::new();
    let config = coffee_config();
    let t = build_transaction(&row(&["2023-01-15", "Tea & <cake>", "1 USD"]), &config, &engine);
    assert_eq!(t.unwrap().narration, "Tea & <cake>");
}

#[test]
fn short_row_is_a_missing_column() {
    let engine = TemplateEngine::new();
    let config = coffee_config();
    assert_eq!(
        build_transaction(&row(&["2023-01-15", "Coffee"]), &config, &engine),
        Err(RunError::MissingColumn(2))
    );
    assert_eq!(
        row_context(&row(&["a"]), &vec![(s("x"), 0), (s("y"), 1)]),
        Err(RunError::MissingColumn(1))
    );
    assert_eq!(
        row_context(&row(&["a", "b"]), &vec![(s("x"), 1)]),
        Ok(vec![(s("x"), s("b"))])
    );
}

#[test]
fn short_row_stops_the_run() {
    let engine = TemplateEngine::new();
    let config = coffee_config();
    let rows = vec![
        row(&["2023-01-15", "Coffee", "4.50"]),
        row(&["2023-01-16", "Tea"]),
        row(&["2023-01-17", "Cake", "3.00"]),
    ];
    let (done, error) = convert_rows(&rows, &config, &engine);
    assert_eq!(done.len(), 1);
    assert_eq!(done[0].narration, "Coffee");
    assert_eq!(error, Some(RunError::MissingColumn(2)));
}

#[test]
fn skipped_rows_are_not_processed() {
    let engine = TemplateEngine::new();
    let mut config = coffee_config();
    config.settings.skip = 2;
    let rows = vec![
        row(&["date", "text"]),
        row(&["not a date", "x", "y"]),
        row(&["2023-01-17", "Cake", "3.00"]),
    ];
    let (done, error) = convert_rows(&rows, &config, &engine);
    assert_eq!(error, None);
    assert_eq!(done.len(), 1);
    assert_eq!(done[0].narration, "Cake");
    assert_eq!(process_record(1, &rows[1], &config, &engine), Ok(None));
    assert!(matches!(process_record(2, &rows[2], &config, &engine), Ok(Some(_))));
}

#[test]
fn empty_run() {
    let engine = TemplateEngine::new();
    let (done, error) = convert_rows(&vec![], &coffee_config(), &engine);
    assert!(done.is_empty());
    assert_eq!(error, None);
}

#[test]
fn partial_calls_are_detected() {
    assert!(template_has_partial_call("{{> a}}"));
    assert!(template_has_partial_call("x {{~ > a}}"));
    assert!(template_has_partial_call("{{#> layout}}body{{/layout}}"));
    assert!(template_has_partial_call("{{#*inline \"a\"}}{{> a}}{{/inline}}{{> a}}"));
    assert!(!template_has_partial_call("{{date_col}}"));
    assert!(!template_has_partial_call("a > b {{x}}"));
    assert!(!template_has_partial_call(""));
}

#[test]
fn self_calling_partial_is_refused() {
    let engine = TemplateEngine::new();
    let context = vec![(s("x"), s("1"))];
    assert_eq!(engine.render("{{#*inline \"a\"}}{{> a}}{{/inline}}{{> a}}", &context), None);
    assert_eq!(engine.render("{{#> a}}{{> @partial-block}}{{/a}}", &context), None);
    assert_eq!(engine.render("<{{x}}>", &context), Some(s("<1>")));
    let mut config = coffee_config();
    config.output.narration = s("{{#*inline \"a\"}}{{> a}}{{/inline}}{{> a}}");
    assert_eq!(
        build_transaction(&row(&["2023-01-15", "Coffee", "4.50"]), &config, &engine),
        Err(RunError::Transaction(TransactionError::Template(TemplateField::Narration)))
    );
}
