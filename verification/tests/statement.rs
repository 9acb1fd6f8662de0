use transactions::statement::{name_column, process_csv, split_line, BankType, Column, Config};

#[test]
fn lloyds_statement_has_its_columns() {
    let config = Config::new(BankType::LLOYDS);
    assert_eq!(config.column(Column::Name), Some(5));
    assert_eq!(config.column(Column::Date), Some(1));
    assert_eq!(config.column(Column::In), Some(7));
    assert_eq!(config.column(Column::Out), Some(6));
    assert_eq!(config.column(Column::Net), Some(8));
    assert_eq!(config.separator_char(), ',');
}

#[test]
fn lines_split_at_each_separator() {
    assert_eq!(split_line("a,b,c", ','), vec!["a", "b", "c"]);
    assert_eq!(split_line("", ','), vec![""]);
    assert_eq!(split_line(",", ','), vec!["", ""]);
    assert_eq!(split_line("a,,b,", ','), vec!["a", "", "b", ""]);
    assert_eq!(split_line("no separator", ','), vec!["no separator"]);
    assert_eq!(split_line("é;ü;", ';'), vec!["é", "ü", ""]);
    let line = "x,y,,z,";
    let expected: Vec<String> = line.split(',').map(|piece| piece.to_string()).collect();
    assert_eq!(split_line(line, ','), expected);
}

#[test]
fn name_column_is_the_sixth_of_a_lloyds_line() {
    let config = Config::new(BankType::LLOYDS);
    let line = "DEB,01/02/2024,30-00-00,12345678,x,TESCO STORES,12.50,,100.00";
    assert_eq!(name_column(line, &config), Some("TESCO STORES".to_string()));
    assert_eq!(name_column("a,b,c,d,e,", &config), Some(String::new()));
    assert_eq!(name_column("a,b,c,d,e", &config), None);
    assert_eq!(name_column("", &config), None);
}

#[test]
fn blank_names_are_not_shown() {
    let config = Config::new(BankType::LLOYDS);
    let lines = vec![
        "0,1,2,3,4,TESCO,6".to_string(),
        "0,1,2,3,4,   ,6".to_string(),
        "0,1,2,3,4,,6".to_string(),
        "0,1,2,3,4, RENT ,6".to_string(),
        "0,1,2,3,4,\t,6".to_string(),
    ];
    assert_eq!(process_csv(&lines, &config), vec!["TESCO", " RENT "]);
    assert!(process_csv(&Vec::new(), &config).is_empty());
}

fn has_white_space_property(c: char) -> bool {
    matches!(
        c as u32,
        0x09..=0x0D
            | 0x20
            | 0x85
            | 0xA0
            | 0x1680
            | 0x2000..=0x200A
            | 0x2028
            | 0x2029
            | 0x202F
            | 0x205F
            | 0x3000
    )
}

#[test]
fn names_of_white_space_alone_are_blank() {
    let config = Config::new(BankType::LLOYDS);
    let mut lines = Vec::new();
    let mut expected = Vec::new();
    for code in 0..=0x10FFFFu32 {
        let c = match char::from_u32(code) {
            Some(c) => c,
            None => continue,
        };
        if c == ',' {
            continue;
        }
        lines.push(format!("0,1,2,3,4,{},6", c));
        if !has_white_space_property(c) {
            expected.push(c.to_string());
        }
    }
    assert_eq!(process_csv(&lines, &config), expected);
}

#[test]
fn white_space_is_taken_from_both_ends_only() {
    let config = Config::new(BankType::LLOYDS);
    let lines = vec![
        "0,1,2,3,4,\u{3000}\u{a0} \t\n,6".to_string(),
        "0,1,2,3,4, a ,6".to_string(),
        "0,1,2,3,4,\u{200b},6".to_string(),
        "0,1,2,3,4,\u{2003}x\u{2003},6".to_string(),
    ];
    assert_eq!(process_csv(&lines, &config), vec![" a ", "\u{200b}", "\u{2003}x\u{2003}"]);
}

#[test]
fn lines_too_short_for_a_name_show_none() {
    let config = Config::new(BankType::LLOYDS);
    let lines = vec![
        "0,1,2,3,4,TESCO,6".to_string(),
        "0,1,2".to_string(),
        String::new(),
        "0,1,2,3,4,RENT".to_string(),
    ];
    assert_eq!(process_csv(&lines, &config), vec!["TESCO", "RENT"]);
}
