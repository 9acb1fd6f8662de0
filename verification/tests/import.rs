use transactions::import::{AccountType, Columns, Config, RawColumns, Service};
use transactions::models::transaction::Amount;

fn test_account() -> AccountType {
    AccountType::Test(Config { name: "Test".to_string(), date: 2, amount: 3 })
}

fn numbered(raw: RawColumns) -> Columns {
    Columns {
        date: raw.date,
        amount: raw.amount.map(|text| {
            text.parse::<f64>()
                .map(|value| Amount::from_bits(value.to_bits()))
                .map_err(|error| error.to_string())
        }),
    }
}

fn statement_rows(account: &AccountType, data: &str) -> Vec<Result<Columns, String>> {
    Service::new().columns(account, data).into_iter().map(|row| row.map(numbered)).collect()
}

#[test]
fn account_type_gives_its_columns() {
    let lloyds = AccountType::Lloyds(Config { name: "Lloyds".to_string(), date: 1, amount: 7 });
    assert_eq!(lloyds.config().name, "Lloyds");
    assert_eq!(lloyds.config().date, 1);
    assert_eq!(lloyds.config().amount, 7);
    assert_eq!(test_account().config().date, 2);
}

#[test]
fn statement_is_parsed_row_by_row_after_its_header() {
    let account = test_account();
    let data = "a,b,date,amount\nx,y,01/02/2024,12.5\nx,y,02/02/2024,-3\n";
    let rows = statement_rows(&account, data);
    assert_eq!(rows.len(), 2);
    let parsed = Service::new().parse(account, rows).unwrap();
    assert_eq!(parsed.len(), 2);
    assert_eq!(parsed[0].accounttype, "Test");
    assert_eq!(parsed[0].date, "01/02/2024");
    assert_eq!(f64::from_bits(parsed[0].amount.to_bits()), 12.5);
    assert_eq!(parsed[1].date, "02/02/2024");
    assert_eq!(f64::from_bits(parsed[1].amount.to_bits()), -3.0);
}

#[test]
fn statement_without_rows_gives_no_transactions() {
    let account = test_account();
    assert!(statement_rows(&account, "").is_empty());
    assert!(statement_rows(&account, "a,b,date,amount\n").is_empty());
    assert!(Service::new().parse(account, Vec::new()).unwrap().is_empty());
}

#[test]
fn missing_columns_are_named() {
    let account = test_account();
    let rows = statement_rows(&account, "a,b\nx,y\n");
    assert_eq!(rows.len(), 1);
    assert_eq!(
        Service::new().parse(account, rows).unwrap_err(),
        "Could not find date"
    );
    let account = test_account();
    let rows = statement_rows(&account, "a,b,c\nx,y,01/02/2024\n");
    assert_eq!(
        Service::new().parse(account, rows).unwrap_err(),
        "Could not find amount"
    );
}

#[test]
fn first_bad_row_ends_the_parse() {
    let account = test_account();
    let data = "a,b,date,amount\nx,y,d1,1\nx,y,d2,two\nx,y,d3\n";
    let rows = statement_rows(&account, data);
    assert_eq!(rows.len(), 3);
    assert!(rows[2].is_err());
    assert_eq!(
        Service::new().parse(account, rows).unwrap_err(),
        "invalid float literal"
    );
    let account = test_account();
    let rows = statement_rows(&account, "a,b,date,amount\nx,y,d3\nx,y,d1,1\n");
    let complaint = Service::new().parse(account, rows).unwrap_err();
    assert!(complaint.contains("found record with 3 fields"));
}
