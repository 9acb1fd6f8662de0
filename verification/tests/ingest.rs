use transactions::database::base::{
    DatabaseError, DatabaseInit, TransactionRead, TransactionStore, TransactionWrite,
};
use transactions::database::memory::Memory;
use transactions::models::transaction::{Amount, CreateTransaction, Date, Timestamp, Transaction};
use transactions::service::parse::{
    failure_class, read_records, string_or_empty, transaction_of, Config, FailureClass,
    ParseError, RawRecord, Record, Service,
};
use transactions::service::transaction::TransactionService;

fn iso_config(skip_header: bool) -> Config {
    Config {
        name: "Amex".to_string(),
        description_position: 2,
        date_position: 0,
        amount_position: 1,
        skip_header,
        date_format: "%Y-%m-%d".to_string(),
    }
}

fn with_amount(raw: RawRecord) -> Record {
    Record {
        date: raw.date,
        amount: raw
            .amount
            .parse::<f64>()
            .map(|value| Amount::from_bits(value.to_bits()))
            .map_err(|error| error.to_string()),
        description: raw.description,
    }
}

fn rows_of(config: &Config, data: &str) -> Vec<Result<Record, String>> {
    read_records(config, data)
        .into_iter()
        .map(|row| row.map(with_amount))
        .collect()
}

fn ingest(service: &mut Service<Memory>, config: Config, data: &str) -> Result<(), ParseError> {
    let rows = rows_of(&config, data);
    service.parse_data(config, rows)
}

fn new_service() -> Service<Memory> {
    Service::new(TransactionService::new(Memory::new()))
}

fn stored(service: &mut Service<Memory>) -> Vec<Transaction> {
    service.transaction_service.find_transactions().unwrap()
}

fn midnight(year: i32, month: u32, day: u32) -> Timestamp {
    Timestamp { date: Date { year, month, day }, hour: 0, minute: 0, second: 0, nanosecond: 0 }
}

fn value_of(amount: Amount) -> f64 {
    f64::from_bits(amount.to_bits())
}

const TWO_ROWS: &str = "2024-01-01,12.34,coffee\n2024-01-02,-5.00,refund\n";

#[test]
fn two_rows_become_two_transactions() {
    let mut service = new_service();
    assert!(ingest(&mut service, iso_config(false), TWO_ROWS).is_ok());
    let all = stored(&mut service);
    assert_eq!(all.len(), 2);
    assert_eq!(all[0].account_type, "Amex");
    assert_eq!(all[0].payment_date, midnight(2024, 1, 1));
    assert_eq!(value_of(all[0].amount), 12.34);
    assert_eq!(all[0].description, "coffee");
    assert_eq!(all[1].account_type, "Amex");
    assert_eq!(all[1].payment_date, midnight(2024, 1, 2));
    assert_eq!(value_of(all[1].amount), -5.00);
    assert_eq!(all[1].description, "refund");
}

#[test]
fn two_rows_ask_for_two_requests() {
    let config = iso_config(false);
    let rows = rows_of(&config, TWO_ROWS);
    assert_eq!(rows.len(), 2);
    let first: CreateTransaction = transaction_of(&config, &rows[0]).unwrap();
    assert_eq!(first.account_type, "Amex");
    assert_eq!(first.payment_date, midnight(2024, 1, 1));
    assert_eq!(value_of(first.amount), 12.34);
    assert_eq!(first.description, "coffee");
    let second: CreateTransaction = transaction_of(&config, &rows[1]).unwrap();
    assert_eq!(second.payment_date, midnight(2024, 1, 2));
    assert_eq!(value_of(second.amount), -5.0);
    assert_eq!(second.description, "refund");
}

#[test]
fn empty_input_stores_nothing_and_succeeds() {
    let mut service = new_service();
    assert!(ingest(&mut service, iso_config(false), "").is_ok());
    assert!(stored(&mut service).is_empty());
    assert!(read_records(&iso_config(false), "").is_empty());
}

#[test]
fn header_alone_stores_nothing_and_succeeds() {
    let mut service = new_service();
    assert!(ingest(&mut service, iso_config(true), "date,amount,description\n").is_ok());
    assert!(stored(&mut service).is_empty());
    assert!(ingest(&mut service, iso_config(true), "").is_ok());
    assert!(stored(&mut service).is_empty());
}

#[test]
fn header_is_skipped_only_where_configured() {
    let data = "date,amount,description\n2024-03-05,1.5,tea\n";
    let mut service = new_service();
    assert!(ingest(&mut service, iso_config(true), data).is_ok());
    let all = stored(&mut service);
    assert_eq!(all.len(), 1);
    assert_eq!(all[0].description, "tea");
    assert_eq!(value_of(all[0].amount), 1.5);

    let mut other = new_service();
    let result = ingest(&mut other, iso_config(false), data);
    assert!(matches!(result, Err(ParseError::AmountConversionError(_))));
    assert!(stored(&mut other).is_empty());
}

#[test]
fn amount_that_is_no_number_stops_the_ingestion() {
    let mut service = new_service();
    let result = ingest(&mut service, iso_config(false), "2024-01-01,abc,coffee\n2024-01-02,1,tea\n");
    match result {
        Err(ParseError::AmountConversionError(message)) => {
            assert_eq!(message, "invalid float literal");
        }
        _ => panic!("an amount-conversion error is expected"),
    }
    assert!(stored(&mut service).is_empty());
}

#[test]
fn rows_before_the_failing_row_stay_stored() {
    let data = "2024-01-01,1,a\n2024-01-02,2,b\n2024-01-03,x,c\n2024-01-04,4,d\n";
    let mut service = new_service();
    let result = ingest(&mut service, iso_config(false), data);
    assert!(matches!(result, Err(ParseError::AmountConversionError(_))));
    let all = stored(&mut service);
    assert_eq!(all.len(), 2);
    assert_eq!(all[0].description, "a");
    assert_eq!(all[1].description, "b");
}

#[test]
fn rows_are_stored_in_the_order_of_the_text() {
    let mut data = String::new();
    for day in 1..=9 {
        data.push_str(&format!("2024-02-0{},{}.25,row {}\n", day, day, day));
    }
    let mut service = new_service();
    assert!(ingest(&mut service, iso_config(false), &data).is_ok());
    let all = stored(&mut service);
    assert_eq!(all.len(), 9);
    for (index, record) in all.iter().enumerate() {
        let day = index as u32 + 1;
        assert_eq!(record.payment_date, midnight(2024, 2, day));
        assert_eq!(value_of(record.amount), day as f64 + 0.25);
        assert_eq!(record.description, format!("row {}", day));
    }
}

#[test]
fn date_of_another_format_is_a_date_conversion_error() {
    let mut service = new_service();
    let result = ingest(&mut service, iso_config(false), "2024-01-01,1,a\n01/02/2024,2,b\n");
    assert!(matches!(result, Err(ParseError::DateConversionError(_))));
    assert_eq!(stored(&mut service).len(), 1);
}

#[test]
fn date_that_the_calendar_lacks_is_a_date_conversion_error() {
    let mut service = new_service();
    let result = ingest(&mut service, iso_config(false), "2024-02-30,1,a\n");
    assert!(matches!(result, Err(ParseError::DateConversionError(_))));
    assert!(stored(&mut service).is_empty());
}

#[test]
fn day_month_year_dates_are_read_by_their_format() {
    let config = Config {
        name: "Amex".to_string(),
        description_position: 1,
        date_position: 0,
        amount_position: 4,
        skip_header: true,
        date_format: "%d/%m/%Y".to_string(),
    };
    let data = "Date,Description,Card Member,Account #,Amount\n\
                25/12/2023,GROCER,J SMITH,-12345,45.10\n";
    let mut service = new_service();
    assert!(ingest(&mut service, config, data).is_ok());
    let all = stored(&mut service);
    assert_eq!(all.len(), 1);
    assert_eq!(all[0].payment_date, midnight(2023, 12, 25));
    assert_eq!(value_of(all[0].amount), 45.10);
    assert_eq!(all[0].description, "GROCER");
}

#[test]
fn amount_error_comes_before_date_error() {
    let config = iso_config(false);
    let rows = rows_of(&config, "not a date,not a number,x\n");
    assert!(matches!(
        transaction_of(&config, &rows[0]),
        Err(ParseError::AmountConversionError(_))
    ));
}

#[test]
fn short_rows_give_empty_columns() {
    let config = Config {
        name: "Amex".to_string(),
        description_position: 7,
        date_position: 0,
        amount_position: 1,
        skip_header: false,
        date_format: "%Y-%m-%d".to_string(),
    };
    let rows = read_records(&config, "2024-01-01,3\n2024-01-02,4\n");
    assert_eq!(rows.len(), 2);
    let first = rows[0].as_ref().unwrap();
    assert_eq!(first.date, "2024-01-01");
    assert_eq!(first.amount, "3");
    assert_eq!(first.description, "");
    let mut service = new_service();
    assert!(ingest(&mut service, config, "2024-01-01,3\n2024-01-02,4\n").is_ok());
    let all = stored(&mut service);
    assert_eq!(all.len(), 2);
    assert_eq!(all[0].description, "");
}

#[test]
fn empty_amount_column_is_an_amount_conversion_error() {
    let config = Config {
        name: "Amex".to_string(),
        description_position: 1,
        date_position: 0,
        amount_position: 5,
        skip_header: false,
        date_format: "%Y-%m-%d".to_string(),
    };
    let mut service = new_service();
    let result = ingest(&mut service, config, "2024-01-01,tea\n");
    match result {
        Err(ParseError::AmountConversionError(message)) => {
            assert_eq!(message, "cannot parse float from empty string");
        }
        _ => panic!("an amount-conversion error is expected"),
    }
}

#[test]
fn record_of_another_length_is_a_record_error() {
    let data = "2024-01-01,1,a\n2024-01-02,2\n2024-01-03,3,c\n";
    let config = iso_config(false);
    let rows = read_records(&config, data);
    assert_eq!(rows.len(), 3);
    assert!(rows[0].is_ok());
    assert!(rows[1].is_err());
    assert!(rows[2].is_ok());
    let mut service = new_service();
    let result = ingest(&mut service, config, data);
    match result {
        Err(ParseError::RecordError(message)) => {
            assert!(message.contains("found record with 2 fields"));
        }
        _ => panic!("a record error is expected"),
    }
    assert_eq!(stored(&mut service).len(), 1);
}

#[test]
fn quoted_fields_keep_their_commas() {
    let config = iso_config(false);
    let rows = read_records(&config, "2024-01-01,2.5,\"tea, green\"\n");
    assert_eq!(rows.len(), 1);
    assert_eq!(rows[0].as_ref().unwrap().description, "tea, green");
}

#[test]
fn string_or_empty_gives_the_text_or_nothing() {
    assert_eq!(string_or_empty(Some("abc")), "abc");
    assert_eq!(string_or_empty(Some("")), "");
    assert_eq!(string_or_empty(None), "");
}

#[test]
fn parse_errors_render_their_kind_and_message() {
    assert_eq!(ParseError::RecordError("r".to_string()).to_string(), "RecordError: r");
    assert_eq!(
        ParseError::AmountConversionError("a".to_string()).to_string(),
        "AmountConversionError: a"
    );
    assert_eq!(
        ParseError::DateConversionError("d".to_string()).to_string(),
        "DateConversionError: d"
    );
    assert_eq!(ParseError::SaveError("s".to_string()).to_string(), "SaveError: s");
}

struct Full {
    room: usize,
    seen: Vec<String>,
}

impl TransactionStore for Full {}

impl DatabaseInit for Full {
    fn connect(&mut self) -> Result<(), DatabaseError> {
        Ok(())
    }

    fn disconnect(&mut self) -> Result<(), DatabaseError> {
        Ok(())
    }
}

impl TransactionWrite for Full {
    fn create_transaction(&mut self, c: CreateTransaction) -> Result<String, DatabaseError> {
        if self.room == 0 {
            return Err(DatabaseError::SaveError("no room".to_string()));
        }
        self.room -= 1;
        self.seen.push(c.description);
        Ok(self.seen.len().to_string())
    }

    fn delete_transaction(&mut self, _id: &str) -> Result<(), DatabaseError> {
        Err(DatabaseError::DeleteError("kept for good".to_string()))
    }
}

impl TransactionRead for Full {
    fn get_transaction(&mut self, _id: &str) -> Result<Option<Transaction>, DatabaseError> {
        Err(DatabaseError::ConnectionError("down".to_string()))
    }

    fn get_transactions(&mut self) -> Result<Vec<Transaction>, DatabaseError> {
        Err(DatabaseError::ConnectionError("down".to_string()))
    }
}

#[test]
fn backend_that_cannot_store_is_a_save_error() {
    let backend = Full { room: 1, seen: Vec::new() };
    let mut service = Service::new(TransactionService::new(backend));
    let config = iso_config(false);
    let rows = rows_of(&config, TWO_ROWS);
    let result = service.parse_data(config, rows);
    match result {
        Err(error) => {
            assert_eq!(
                error.to_string(),
                "SaveError: TransactionError -> SaveError, DatabaseError -> SaveError, no room"
            );
        }
        Ok(()) => panic!("a save error is expected"),
    }
}

#[test]
fn malformed_rows_are_the_clients_and_failed_stores_the_servers() {
    assert_eq!(failure_class(&ParseError::RecordError("r".to_string())), FailureClass::Client);
    assert_eq!(
        failure_class(&ParseError::AmountConversionError("a".to_string())),
        FailureClass::Client
    );
    assert_eq!(
        failure_class(&ParseError::DateConversionError("d".to_string())),
        FailureClass::Client
    );
    assert_eq!(failure_class(&ParseError::SaveError("s".to_string())), FailureClass::Server);
}

#[test]
fn first_row_that_asks_for_nothing_is_the_error_whatever_the_backend() {
    let backend = Full { room: 0, seen: Vec::new() };
    let mut service = Service::new(TransactionService::new(backend));
    let config = iso_config(false);
    let rows = rows_of(&config, "2024-01-01,abc,coffee\n2024-01-02,1,tea\n");
    assert!(matches!(
        service.parse_data(config, rows),
        Err(ParseError::AmountConversionError(_))
    ));
    let backend = Full { room: 0, seen: Vec::new() };
    let mut service = Service::new(TransactionService::new(backend));
    let config = iso_config(false);
    let rows = rows_of(&config, "2024-01-01,1,coffee\n2024-01-02,abc,tea\n");
    assert!(matches!(service.parse_data(config, rows), Err(ParseError::SaveError(_))));
}
