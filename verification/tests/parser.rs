use beancount_parser::{parse, Amount, DirectiveContent, Posting, PostingPrice, Transaction};

fn single_transaction(input: &str) -> (beancount_parser::Directive, Transaction) {
    let file = parse(input).expect("parse failed");
    assert_eq!(file.directives.len(), 1, "expected one directive");
    let d = file.directives.into_iter().next().unwrap();
    let t = match &d.content {
        DirectiveContent::Transaction(t) => t.clone(),
        other => panic!("expected a transaction, got {other:?}"),
    };
    (d, t)
}

fn amount_is(a: &Amount, value: &str, currency: &str) {
    assert_eq!(a.value, value);
    assert_eq!(a.currency, currency);
}

#[test]
fn empty_input_yields_empty_document() {
    let file = parse("").expect("parse failed");
    assert!(file.directives.is_empty());
}

#[test]
fn blank_and_comment_lines_yield_empty_document() {
    let input = "\n   \n; a comment\n  ; indented comment\n\t\n";
    let file = parse(input).expect("parse failed");
    assert!(file.directives.is_empty());
}

#[test]
fn comment_without_trailing_newline_yields_empty_document() {
    let file = parse("; only a comment").expect("parse failed");
    assert!(file.directives.is_empty());
}

#[test]
fn unknown_keyword_line_is_skipped() {
    let input = "2022-01-01 balance Assets:Cash 1 USD\n";
    let file = parse(input).expect("parse failed");
    assert!(file.directives.is_empty());
}

#[test]
fn duplicate_tags_collapse() {
    let (_, t) = single_transaction("2022-05-22 * \"shopping\" #food #food\n");
    assert_eq!(t.tags.len(), 1);
    assert_eq!(t.tags[0].as_str(), "food");
}

#[test]
fn duplicate_links_collapse() {
    let (_, t) = single_transaction("2022-05-22 * \"x\" ^a ^b ^a\n");
    assert_eq!(t.links.len(), 2);
    assert_eq!(t.links[0].as_str(), "a");
    assert_eq!(t.links[1].as_str(), "b");
}

#[test]
fn posting_order_is_preserved() {
    let input = "2022-05-22 * \"shopping\"\n  Assets:Cash  -10 CHF\n  Expenses:Groceries\n";
    let (_, t) = single_transaction(input);
    assert_eq!(t.postings.len(), 2);
    assert_eq!(t.postings[0].account.as_str(), "Assets:Cash");
    assert_eq!(t.postings[1].account.as_str(), "Expenses:Groceries");
}

fn first_posting(input: &str) -> Posting {
    let (_, t) = single_transaction(input);
    assert!(!t.postings.is_empty());
    t.postings.into_iter().next().unwrap()
}

#[test]
fn cost_amount_then_date() {
    let p = first_posting("2023-02-01 *\n  Assets:Stash 1 AAA {2 PLN, 2023-01-01}\n");
    let cost = p.cost.expect("no cost");
    amount_is(cost.amount.as_ref().expect("no cost amount"), "2", "PLN");
    let d = cost.date.expect("no cost date");
    assert_eq!((d.year, d.month, d.day), (2023, 1, 1));
}

#[test]
fn cost_date_then_amount_is_equivalent() {
    let p = first_posting("2023-02-01 *\n  Assets:Stash 1 AAA {2023-01-01, 2 PLN}\n");
    let cost = p.cost.expect("no cost");
    amount_is(cost.amount.as_ref().expect("no cost amount"), "2", "PLN");
    let d = cost.date.expect("no cost date");
    assert_eq!((d.year, d.month, d.day), (2023, 1, 1));
}

#[test]
fn cost_amount_only() {
    let p = first_posting("2023-02-01 *\n  Assets:Stash 1 AAA {2 PLN}\n");
    let cost = p.cost.expect("no cost");
    amount_is(cost.amount.as_ref().expect("no cost amount"), "2", "PLN");
    assert!(cost.date.is_none());
}

#[test]
fn cost_date_only() {
    let p = first_posting("2023-02-01 *\n  Assets:Stash 1 AAA {2023-01-01}\n");
    let cost = p.cost.expect("no cost");
    assert!(cost.amount.is_none());
    let d = cost.date.expect("no cost date");
    assert_eq!((d.year, d.month, d.day), (2023, 1, 1));
}

#[test]
fn empty_cost_parses_to_empty_cost() {
    let p = first_posting("2023-02-01 *\n  Assets:Stash 1 AAA {}\n");
    let cost = p.cost.expect("no cost");
    assert!(cost.amount.is_none());
    assert!(cost.date.is_none());
}

#[test]
fn empty_cost_with_spaces_parses_too() {
    let p = first_posting("2023-02-01 *\n  Assets:Stash 1 AAA {   }\n");
    let cost = p.cost.expect("no cost");
    assert!(cost.amount.is_none());
    assert!(cost.date.is_none());
}

#[test]
fn total_price_is_not_misparsed_as_unit() {
    let p = first_posting("2022-05-22 *\n  Assets:Cash -10 CHF @@ 12 USD\n");
    amount_is(p.amount.as_ref().expect("no amount"), "-10", "CHF");
    match p.price.expect("no price") {
        PostingPrice::Total(a) => amount_is(&a, "12", "USD"),
        PostingPrice::Unit(a) => panic!("parsed as unit price {a:?}"),
    }
}

#[test]
fn unit_price() {
    let p = first_posting("2022-05-22 *\n  Assets:Cash 1 CHF {2 PLN} @ 3 EUR\n");
    amount_is(p.amount.as_ref().expect("no amount"), "1", "CHF");
    match p.price.expect("no price") {
        PostingPrice::Unit(a) => amount_is(&a, "3", "EUR"),
        PostingPrice::Total(a) => panic!("parsed as total price {a:?}"),
    }
}

#[test]
fn grocery_transaction_scenario() {
    let input = "2022-05-22 * \"Grocery store\" \"Grocery shopping\" #food\n  Assets:Cash           -10 CHF\n  Expenses:Groceries\n";
    let (d, t) = single_transaction(input);
    assert_eq!((d.date.year, d.date.month, d.date.day), (2022, 5, 22));
    assert_eq!(t.flag, Some('*'));
    assert_eq!(t.payee.as_deref(), Some("Grocery store"));
    assert_eq!(t.narration.as_deref(), Some("Grocery shopping"));
    assert_eq!(t.tags.len(), 1);
    assert_eq!(t.tags[0].as_str(), "food");
    assert_eq!(t.postings.len(), 2);
}

#[test]
fn account_only_posting() {
    let input = "2022-05-22 *\n  Expenses:Groceries\n";
    let p = first_posting(input);
    assert_eq!(p.account.as_str(), "Expenses:Groceries");
    assert!(p.amount.is_none());
    assert!(p.cost.is_none());
    assert!(p.price.is_none());
    assert!(p.flag.is_none());
}

#[test]
fn posting_with_flag() {
    let input = "2022-05-22 *\n  ! Assets:Cash 1 CHF\n";
    let p = first_posting(input);
    assert_eq!(p.flag, Some('!'));
    assert_eq!(p.account.as_str(), "Assets:Cash");
    amount_is(p.amount.as_ref().expect("no amount"), "1", "CHF");
}

#[test]
fn single_string_is_narration_only() {
    let (_, t) = single_transaction("2022-05-22 * \"Grocery shopping\"\n");
    assert!(t.payee.is_none());
    assert_eq!(t.narration.as_deref(), Some("Grocery shopping"));
}

#[test]
fn txn_keyword_yields_no_flag() {
    let (_, t) = single_transaction("2022-05-22 txn \"something\"\n");
    assert!(t.flag.is_none());
    assert_eq!(t.narration.as_deref(), Some("something"));
}

#[test]
fn bang_flag_is_kept() {
    let (_, t) = single_transaction("2022-05-22 ! \"oops\"\n");
    assert_eq!(t.flag, Some('!'));
}

#[test]
fn malformed_committed_body_is_a_positioned_error() {
    // The flag commits the directive; the unclosed quote leaves the header
    // line unable to end, so the error points at the quote character.
    let input = "2022-05-22 * \"unclosed\n";
    let e = parse(input).expect_err("parse should fail");
    assert_eq!(e.offset, 13);
    assert_eq!(e.line, 1);
    assert_eq!(e.column, 14);
}

#[test]
fn committed_open_with_bad_account_reports_line_and_column() {
    let input = "\n\n2022-01-01 open bad\n";
    let e = parse(input).expect_err("parse should fail");
    assert_eq!(e.offset, 18);
    assert_eq!(e.line, 3);
    assert_eq!(e.column, 17);
}

#[test]
fn open_directive_with_currencies() {
    let input = "2014-05-01 open Assets:Checking USD,CHF\n";
    let file = parse(input).expect("parse failed");
    assert_eq!(file.directives.len(), 1);
    let d = &file.directives[0];
    assert_eq!((d.date.year, d.date.month, d.date.day), (2014, 5, 1));
    match &d.content {
        DirectiveContent::Open(o) => {
            assert_eq!(o.account.as_str(), "Assets:Checking");
            assert_eq!(o.currencies, vec!["USD".to_string(), "CHF".to_string()]);
        },
        other => panic!("expected an open directive, got {other:?}"),
    }
}

#[test]
fn open_directive_without_currencies() {
    let input = "2014-05-01 open Equity:Opening-Balances ; note\n";
    let file = parse(input).expect("parse failed");
    match &file.directives[0].content {
        DirectiveContent::Open(o) => {
            assert_eq!(o.account.as_str(), "Equity:Opening-Balances");
            assert!(o.currencies.is_empty());
        },
        other => panic!("expected an open directive, got {other:?}"),
    }
}

#[test]
fn transaction_metadata_attaches_to_directive() {
    let input = "2022-05-22 * \"x\"\n  title: hello world\n  Assets:Cash 1 CHF\n";
    let (d, t) = single_transaction(input);
    assert_eq!(d.metadata.len(), 1);
    assert_eq!(d.metadata[0].0, "title");
    assert_eq!(d.metadata[0].1, "hello world");
    assert_eq!(t.postings.len(), 1);
}

#[test]
fn posting_metadata_attaches_to_posting() {
    let input = "2022-05-22 * \"x\"\n  Assets:Cash 1 CHF\n    note: kept\n";
    let p = first_posting(input);
    assert_eq!(p.metadata.len(), 1);
    assert_eq!(p.metadata[0].0, "note");
    assert_eq!(p.metadata[0].1, "kept");
}

#[test]
fn blank_lines_between_postings_are_tolerated() {
    let input = "2022-05-22 * \"x\"\n  Assets:Cash -1 CHF\n\n  ; comment between\n  Expenses:Things\n";
    let (_, t) = single_transaction(input);
    assert_eq!(t.postings.len(), 2);
    assert_eq!(t.postings[1].account.as_str(), "Expenses:Things");
}

#[test]
fn two_directives_with_junk_between() {
    let input = "garbage here\n2022-01-01 open Assets:Cash\nmore garbage\n2022-01-02 * \"x\"\n  Assets:Cash 1 CHF\n";
    let file = parse(input).expect("parse failed");
    assert_eq!(file.directives.len(), 2);
    assert!(matches!(file.directives[0].content, DirectiveContent::Open(_)));
    assert!(matches!(
        file.directives[1].content,
        DirectiveContent::Transaction(_)
    ));
}

#[test]
fn decimal_and_signed_values_keep_their_text() {
    let input = "2014-02-05 * \"Invoice\" ^invoice-pepe-studios-jan14\n   Income:Clients:PepeStudios           -8450.00 USD\n   Assets:AccountsReceivable\n";
    let (_, t) = single_transaction(input);
    assert_eq!(t.links.len(), 1);
    assert_eq!(t.links[0].as_str(), "invoice-pepe-studios-jan14");
    amount_is(
        t.postings[0].amount.as_ref().expect("no amount"),
        "-8450.00",
        "USD",
    );
}

#[test]
fn malformed_posting_line_ends_the_run() {
    // "10" lacks a currency, so the third line is not a posting; the
    // posting run stops before it and the file loop skips the line.
    let input = "2022-05-22 * \"x\"\n  Assets:Cash 1 CHF\n  Expenses:Things 10\n";
    let (_, t) = single_transaction(input);
    assert_eq!(t.postings.len(), 1);
    assert_eq!(t.postings[0].account.as_str(), "Assets:Cash");
}

#[test]
fn price_sigil_needs_following_whitespace() {
    // Without a space after `@@` the tail carries no price, the line cannot
    // end, and the whole line is not a posting.
    let input = "2022-05-22 * \"x\"\n  Assets:Cash 1 CHF @@12 USD\n";
    let (_, t) = single_transaction(input);
    assert!(t.postings.is_empty());
}

#[test]
fn crlf_line_endings_are_accepted() {
    let input = "2022-05-22 * \"x\"\r\n  Assets:Cash 1 CHF\r\n";
    let (_, t) = single_transaction(input);
    assert_eq!(t.postings.len(), 1);
}
