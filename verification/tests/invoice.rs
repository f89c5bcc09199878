use meter::invoice::{
    aggregate, billed_entries, calculate_due_date, due_date, filter_entries_by_month, find_rate,
    format_invoice_title, invoice_file_path, invoice_record, payment_days, prepare_invoice,
    project_names, rates_from_projects, InvoiceError, InvoiceParams, ProjectRate,
    UNITS_PER_CURRENCY,
};
use meter::models::{Client, Entry, InvoiceSettings, Project};
use meter::time::Timestamp;

const T0: i64 = 1_700_000_000;

fn at(secs: i64) -> Timestamp {
    Timestamp::new(secs, 0).unwrap()
}

fn entry(id: i64, project: &str, start: i64, seconds: i64) -> Entry {
    Entry {
        id,
        project: project.to_string(),
        description: "Work session".to_string(),
        start: at(start),
        end: Some(at(start + seconds)),
        billed: true,
    }
}

fn rate(project: &str, cents: u64) -> ProjectRate {
    ProjectRate { project: project.to_string(), rate: cents, currency: "$".to_string() }
}

fn money(units: u128) -> f64 {
    units as f64 / UNITS_PER_CURRENCY as f64
}

#[test]
fn hours_are_seconds_over_3600_exactly() {
    let entries = vec![entry(1, "Acme", T0, 90 * 60)];
    let totals = aggregate(&entries, &vec![], 0).unwrap();
    assert_eq!(totals.lines.len(), 1);
    assert_eq!(totals.lines[0].seconds, 5400);
    assert_eq!(totals.lines[0].seconds as f64 / 3600.0, 1.5);
}

#[test]
fn projects_are_grouped_and_priced() {
    let entries = vec![
        entry(1, "ProjA", T0, 2 * 3600),
        entry(2, "ProjB", T0 + 10_000, 3 * 3600),
        entry(3, "ProjA", T0 + 30_000, 3600),
    ];
    let rates = vec![rate("ProjA", 100_00)];
    let totals = aggregate(&entries, &rates, 10_00).unwrap();

    assert_eq!(totals.subtotal, 300 * UNITS_PER_CURRENCY);
    assert_eq!(totals.tax_amount, 30 * UNITS_PER_CURRENCY);
    assert_eq!(totals.total, 330 * UNITS_PER_CURRENCY);
    assert_eq!(money(totals.subtotal), 300.0);
    assert_eq!(money(totals.tax_amount), 30.0);
    assert_eq!(money(totals.total), 330.0);

    assert_eq!(totals.lines.len(), 2);
    let a = totals.lines.iter().find(|l| l.project == "ProjA").unwrap();
    assert_eq!(a.seconds, 3 * 3600);
    assert_eq!(a.cost, Some(300 * UNITS_PER_CURRENCY));
    assert_eq!(a.rate.as_ref().unwrap().rate, 100_00);
    let b = totals.lines.iter().find(|l| l.project == "ProjB").unwrap();
    assert_eq!(b.seconds, 3 * 3600);
    assert_eq!(format!("{:.2}", b.seconds as f64 / 3600.0), "3.00");
    assert!(b.cost.is_none());
    assert!(b.rate.is_none());
    assert!(totals.has_rates());
    assert_eq!(totals.total_seconds(), Some(6 * 3600));
}

#[test]
fn lines_come_in_order_of_first_occurrence() {
    let entries =
        vec![entry(1, "B", T0, 60), entry(2, "A", T0, 60), entry(3, "B", T0, 60), entry(4, "C", T0, 60)];
    assert_eq!(project_names(&entries), vec!["B", "A", "C"]);
    let totals = aggregate(&entries, &vec![], 0).unwrap();
    let names: Vec<&str> = totals.lines.iter().map(|l| l.project.as_str()).collect();
    assert_eq!(names, vec!["B", "A", "C"]);
    assert_eq!(totals.lines[0].seconds, 120);
}

#[test]
fn empty_invoice_has_no_lines_and_zero_totals() {
    let totals = aggregate(&vec![], &vec![rate("A", 100)], 8_25).unwrap();
    assert!(totals.lines.is_empty());
    assert_eq!(totals.subtotal, 0);
    assert_eq!(totals.tax_amount, 0);
    assert_eq!(totals.total, 0);
    assert!(!totals.has_rates());
}

#[test]
fn rate_of_zero_still_prices_the_line() {
    let entries = vec![entry(1, "Free", T0, 3600)];
    let totals = aggregate(&entries, &vec![rate("Free", 0)], 10_00).unwrap();
    assert_eq!(totals.lines[0].cost, Some(0));
    assert!(totals.has_rates());
    assert_eq!(totals.total, 0);

    let unpriced = aggregate(&entries, &vec![], 10_00).unwrap();
    assert_eq!(unpriced.lines[0].cost, None);
    assert!(!unpriced.has_rates());
}

#[test]
fn tax_of_zero_is_still_reported() {
    let entries = vec![entry(1, "A", T0, 1800)];
    let totals = aggregate(&entries, &vec![rate("A", 80_00)], 0).unwrap();
    assert_eq!(money(totals.subtotal), 40.0);
    assert_eq!(totals.tax_amount, 0);
    assert_eq!(totals.total, totals.subtotal);
}

#[test]
fn fractional_amounts_are_exact() {
    let entries = vec![entry(1, "A", T0, 1)];
    let totals = aggregate(&entries, &vec![rate("A", 1)], 1).unwrap();
    assert_eq!(totals.subtotal, 10_000);
    assert_eq!(totals.tax_amount, 1);
    assert_eq!(totals.total, 10_001);
}

#[test]
fn running_entries_give_a_line_but_no_time() {
    let mut running = entry(1, "A", T0, 60);
    running.end = None;
    let totals = aggregate(&vec![running], &vec![rate("A", 100_00)], 0).unwrap();
    assert_eq!(totals.lines.len(), 1);
    assert_eq!(totals.lines[0].seconds, 0);
    assert_eq!(totals.subtotal, 0);
}

#[test]
fn entry_that_ends_before_it_starts_is_refused() {
    let entries = vec![entry(1, "A", T0, 60), entry(7, "A", T0, -60), entry(9, "B", T0, -1)];
    match aggregate(&entries, &vec![], 0) {
        Err(e) => {
            assert_eq!(e, InvoiceError::EndsBeforeStart(7));
            assert_eq!(e.message(), "an entry ends before it starts");
        }
        Ok(_) => panic!("an invalid entry was accepted"),
    }
}

#[test]
fn total_that_does_not_fit_is_refused() {
    let entries = vec![entry(1, "A", 0, 8_000_000_000_000)];
    let rates = vec![rate("A", u64::MAX)];
    assert!(aggregate(&entries, &rates, 0).is_ok());
    match aggregate(&entries, &rates, u32::MAX) {
        Err(e) => {
            assert_eq!(e, InvoiceError::Overflow);
            assert_eq!(e.message(), "the invoice total is too large");
        }
        Ok(_) => panic!("an overflowing total was accepted"),
    }
}

#[test]
fn last_row_of_the_rate_table_decides() {
    let rates = vec![rate("A", 1), rate("B", 2), rate("A", 3)];
    assert_eq!(find_rate(&rates, &"A".to_string()).unwrap().rate, 3);
    assert_eq!(find_rate(&rates, &"B".to_string()).unwrap().rate, 2);
    assert!(find_rate(&rates, &"C".to_string()).is_none());
}

#[test]
fn rate_table_lists_projects_with_a_rate() {
    let projects = vec![
        Project { id: 1, name: "A".to_string(), rate: Some(150_00), currency: Some("€".to_string()) },
        Project { id: 2, name: "B".to_string(), rate: None, currency: Some("$".to_string()) },
        Project { id: 3, name: "C".to_string(), rate: Some(0), currency: None },
    ];
    let table = rates_from_projects(&projects);
    assert_eq!(table.len(), 2);
    assert_eq!((table[0].project.as_str(), table[0].rate, table[0].currency.as_str()), ("A", 150_00, "€"));
    assert_eq!((table[1].project.as_str(), table[1].rate, table[1].currency.as_str()), ("C", 0, "$"));
}

#[test]
fn payment_terms_give_the_days_until_due() {
    assert_eq!(payment_days("Net 30"), 30);
    assert_eq!(payment_days("net 15"), 15);
    assert_eq!(payment_days("NET 60 DAYS"), 60);
    assert_eq!(payment_days("Terms: net 30, else net 15"), 30);
    assert_eq!(payment_days("Due on receipt"), 0);
    assert_eq!(payment_days(""), 0);
    assert_eq!(payment_days("Net30"), 0);
}

#[test]
fn due_date_follows_the_payment_terms() {
    let issued = at(T0);
    assert_eq!(due_date(&issued, "Net 30").secs(), T0 + 30 * 86_400);
    assert_eq!(due_date(&issued, "Due on receipt"), issued);
    assert_eq!(calculate_due_date(&issued, "Net 30"), "2023-12-14");
    assert_eq!(calculate_due_date(&issued, "nEt 15"), "2023-11-29");
    assert_eq!(calculate_due_date(&issued, "net 60"), "2024-01-13");
    assert_eq!(calculate_due_date(&issued, "Due on receipt"), "2023-11-14");
}

#[test]
fn due_date_stays_where_the_calendar_ends() {
    let last = Timestamp::new(meter::time::MAX_SECS, 0).unwrap();
    assert_eq!(due_date(&last, "Net 30"), last);
}

#[test]
fn invoice_files_are_numbered_with_four_digits() {
    assert_eq!(invoice_file_path("/home/me/meter/invoices", 7), "/home/me/meter/invoices/invoice_0007.pdf");
    assert_eq!(invoice_file_path("d", 12345), "d/invoice_12345.pdf");
    assert_eq!(format_invoice_title(42), "Invoice #0042");
}

#[test]
fn prepared_invoice_carries_dates_path_and_totals() {
    let entries = vec![entry(1, "A", T0, 3600)];
    let rates = vec![rate("A", 120_00)];
    let mut settings = InvoiceSettings::default();
    settings.default_payment_terms = "Net 15".to_string();
    let client = Client::default();
    let params = InvoiceParams {
        entries: &entries,
        project_rates: &rates,
        year: 2023,
        month: 11,
        invoice_number: 3,
        settings: &settings,
        client: Some(&client),
        tax_rate: 5_00,
    };
    let doc = prepare_invoice(&params, "out", &at(T0)).unwrap();
    assert_eq!(doc.result.file_path, "out/invoice_0003.pdf");
    assert_eq!(doc.result.date_issued, "2023-11-14");
    assert_eq!(doc.result.due_date, "2023-11-29");
    assert_eq!(money(doc.result.subtotal), 120.0);
    assert_eq!(money(doc.result.tax_amount), 6.0);
    assert_eq!(money(doc.result.total), 126.0);
    assert_eq!(doc.lines.len(), 1);

    let record = invoice_record(&doc.result, 3, Some(9), 5_00);
    assert_eq!(record.id, 0);
    assert_eq!(record.invoice_number, 3);
    assert_eq!(record.client_id, Some(9));
    assert_eq!(record.total, doc.result.total);
    assert_eq!(record.due_date, "2023-11-29");
    assert_eq!(record.file_path, "out/invoice_0003.pdf");
}

#[test]
fn entries_are_filtered_by_the_month_in_which_they_ended() {
    let mut running = entry(4, "A", T0, 0);
    running.end = None;
    let entries = vec![
        entry(1, "A", T0, 60),
        entry(2, "A", T0 + 17 * 86_400, 60),
        entry(3, "A", T0 - 14 * 86_400, 60),
        running,
        entry(5, "A", T0 - 365 * 86_400, 60),
    ];
    let november: Vec<i64> = filter_entries_by_month(&entries, 2023, 11).iter().map(|e| e.id).collect();
    assert_eq!(november, vec![1]);
    let december: Vec<i64> = filter_entries_by_month(&entries, 2023, 12).iter().map(|e| e.id).collect();
    assert_eq!(december, vec![2]);
    assert!(filter_entries_by_month(&entries, 2021, 1).is_empty());
}

#[test]
fn no_entry_ends_in_a_month_that_the_calendar_lacks() {
    let entries = vec![entry(1, "A", T0, 60), entry(2, "B", 0, 60)];
    assert!(filter_entries_by_month(&entries, 2023, 0).is_empty());
    assert!(filter_entries_by_month(&entries, 2023, 13).is_empty());
    assert!(filter_entries_by_month(&entries, 1970, u32::MAX).is_empty());
    assert_eq!(filter_entries_by_month(&entries, 2023, 11).len(), 1);
    assert_eq!(filter_entries_by_month(&entries, 1970, 1).len(), 1);
}

#[test]
fn billed_entries_keep_their_order() {
    let mut entries = vec![entry(1, "A", T0, 60), entry(2, "B", T0, 60), entry(3, "C", T0, 60)];
    entries[0].billed = true;
    entries[1].billed = false;
    entries[2].billed = true;
    let billed = billed_entries(&entries);
    assert_eq!(billed.iter().map(|e| e.id).collect::<Vec<_>>(), vec![1, 3]);
    assert!(billed_entries(&Vec::new()).is_empty());
}
