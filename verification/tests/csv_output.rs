use transibase::converter::TransibaseConverter;
use transibase::order::ExtractedData;

fn row(fields: [&str; 7]) -> ExtractedData {
    ExtractedData {
        reference: fields[0].to_string(),
        email: fields[1].to_string(),
        prenom: fields[2].to_string(),
        nom: fields[3].to_string(),
        date_naissance: fields[4].to_string(),
        donation_amount: fields[5].to_string(),
        transaction_date: fields[6].to_string(),
    }
}

fn csv(rows: &[ExtractedData]) -> String {
    String::from_utf8(TransibaseConverter::new(None).convert_to_csv(rows)).unwrap()
}

#[test]
fn every_field_is_quoted() {
    let r = row(["R1", "a@b.com", "Jean", "Dupont", "1990-01-01", "50", "2023-05-10"]);
    assert_eq!(
        r.to_csv_record(),
        b"\"R1\",\"a@b.com\",\"Jean\",\"Dupont\",\"1990-01-01\",\"50\",\"2023-05-10\"\n".to_vec()
    );
}

#[test]
fn empty_fields_are_quoted_too() {
    let r = row(["", "", "", "", "", "", ""]);
    assert_eq!(r.to_csv_record(), b"\"\",\"\",\"\",\"\",\"\",\"\",\"\"\n".to_vec());
}

#[test]
fn numbers_keep_their_leading_zeros() {
    let r = row(["007", "", "", "", "", "0050", ""]);
    assert_eq!(r.to_csv_record(), b"\"007\",\"\",\"\",\"\",\"\",\"0050\",\"\"\n".to_vec());
}

#[test]
fn quotes_inside_a_field_are_doubled() {
    let r = row(["a\"b", "\"", "\"\"", "x", "", "", "fin\""]);
    assert_eq!(
        r.to_csv_record(),
        b"\"a\"\"b\",\"\"\"\",\"\"\"\"\"\",\"x\",\"\",\"\",\"fin\"\"\"\n".to_vec()
    );
}

#[test]
fn commas_and_line_breaks_stay_inside_their_field() {
    let r = row(["a,b", "l1\nl2", "c\r\nd", " ", "\t", ";", "#"]);
    assert_eq!(
        r.to_csv_record(),
        b"\"a,b\",\"l1\nl2\",\"c\r\nd\",\" \",\"\t\",\";\",\"#\"\n".to_vec()
    );
}

#[test]
fn text_outside_ascii_is_written_in_utf8() {
    let r = row(["é", "ü@ö.de", "Zoë", "Ðumas", "日本", "€50", "2023"]);
    assert_eq!(
        r.to_csv_record(),
        "\"é\",\"ü@ö.de\",\"Zoë\",\"Ðumas\",\"日本\",\"€50\",\"2023\"\n".as_bytes().to_vec()
    );
}

#[test]
fn columns_come_in_their_fixed_order() {
    let r = row(["ref", "mail", "prenom", "nom", "naissance", "montant", "date"]);
    assert_eq!(r.columns(), vec!["ref", "mail", "prenom", "nom", "naissance", "montant", "date"]);
}

#[test]
fn no_rows_give_an_empty_document() {
    assert_eq!(TransibaseConverter::new(None).convert_to_csv(&[]), Vec::<u8>::new());
}

#[test]
fn document_has_one_record_for_each_row_and_no_header() {
    let rows = [
        row(["R1", "a@b.com", "Jean", "Dupont", "1990-01-01", "50", "2023-05-10"]),
        row(["R2", "", "", "", "", "", ""]),
        row(["R3", "c@d.fr", "Anne \"Nanou\"", "Le Goff, veuve", "", "12,50", "hier"]),
    ];
    assert_eq!(
        csv(&rows),
        "\"R1\",\"a@b.com\",\"Jean\",\"Dupont\",\"1990-01-01\",\"50\",\"2023-05-10\"\n\
         \"R2\",\"\",\"\",\"\",\"\",\"\",\"\"\n\
         \"R3\",\"c@d.fr\",\"Anne \"\"Nanou\"\"\",\"Le Goff, veuve\",\"\",\"12,50\",\"hier\"\n"
    );
}

#[test]
fn document_is_the_records_one_after_the_other() {
    let rows = [
        row(["1", "2", "3", "4", "5", "6", "7"]),
        row(["a", "b", "c", "d", "e", "f", "g"]),
    ];
    let mut expected = rows[0].to_csv_record();
    expected.extend(rows[1].to_csv_record());
    assert_eq!(TransibaseConverter::new(None).convert_to_csv(&rows), expected);
}

#[test]
fn long_fields_are_written_whole() {
    let long = "x\"".repeat(20000);
    let r = row([&long, "", "", "", "", "", ""]);
    let written = r.to_csv_record();
    let mut expected = Vec::new();
    expected.push(b'"');
    for _ in 0..20000 {
        expected.extend_from_slice(b"x\"\"");
    }
    expected.extend_from_slice(b"\",\"\",\"\",\"\",\"\",\"\",\"\"\n");
    assert_eq!(written, expected);
}

#[test]
fn filter_does_not_touch_the_rows_that_are_written() {
    let rows = [row(["R1", "", "", "", "", "", "1999-01-01"])];
    assert_eq!(
        TransibaseConverter::new(Some("2023".to_string())).convert_to_csv(&rows),
        b"\"R1\",\"\",\"\",\"\",\"\",\"\",\"1999-01-01\"\n".to_vec()
    );
}
