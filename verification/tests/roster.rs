use aspen_client::classes::{
    extract_classes, extract_records, record_from, records_from, to_json, Class,
};
use aspen_client::error::{AspenError, ProjError};
use aspen_client::json::{write_array, write_object};

const ROW: &str = "<td nowrap>Smith, Jane</td><td nowrap>204</td><td nowrap>Algebra  II</td>";

fn groups(list: &[Option<&str>]) -> Vec<Option<String>> {
    list.iter().map(|g| g.map(|s| s.to_string())).collect()
}

fn entry(teacher: &str, room: usize, class: &str) -> Class {
    Class { teacher: teacher.to_string(), room, class: class.to_string() }
}

fn parse_back(json: &str) -> Vec<Class> {
    let value: serde_json::Value = serde_json::from_str(json).unwrap();
    value
        .as_array()
        .unwrap()
        .iter()
        .map(|o| {
            assert_eq!(o.as_object().unwrap().len(), 3);
            Class {
                teacher: o["teacher"].as_str().unwrap().to_string(),
                room: o["room"].as_u64().unwrap() as usize,
                class: o["class"].as_str().unwrap().to_string(),
            }
        })
        .collect()
}

fn same(a: &[Class], b: &[Class]) -> bool {
    a.len() == b.len()
        && a.iter()
            .zip(b.iter())
            .all(|(x, y)| x.teacher == y.teacher && x.room == y.room && x.class == y.class)
}

#[test]
fn page_without_rows_gives_empty_roster() {
    assert!(extract_records("<html><body>No classes</body></html>").unwrap().is_empty());
    assert!(extract_records("").unwrap().is_empty());
    assert_eq!(extract_classes("<html><body>No classes</body></html>".to_string()).unwrap(), "[]");
    assert_eq!(extract_classes(String::new()).unwrap(), "[]");
}

#[test]
fn two_rows_in_document_order() {
    let page = format!("<table><tr>{}</tr>\n<tr>{}</tr></table>", ROW, ROW);
    let records = extract_records(&page).unwrap();
    assert_eq!(records.len(), 2);
    for r in &records {
        assert_eq!(r.teacher, "Smith, Jane");
        assert_eq!(r.room, 204);
        assert_eq!(r.class, "AlgebraII");
    }
    assert_eq!(
        extract_classes(page).unwrap(),
        "[{\"teacher\":\"Smith, Jane\",\"room\":204,\"class\":\"AlgebraII\"},{\"teacher\":\"Smith, Jane\",\"room\":204,\"class\":\"AlgebraII\"}]"
    );
}

#[test]
fn rows_keep_their_order_and_repeats() {
    let page = "<td nowrap>Stone, Al</td><td nowrap>9</td><td nowrap>Art</td>\
                <p>between</p>\
                <td nowrap>\n  Avery-Lee, Bo\n</td>\n<td nowrap>\n 12 \n</td>\n<td nowrap>\n  World History: Part A\n  </td>\
                <td nowrap>Stone, Al</td><td nowrap>9</td><td nowrap>Art</td>";
    let records = extract_records(page).unwrap();
    assert_eq!(records.len(), 3);
    assert_eq!(records[0].teacher, "Stone, Al");
    assert_eq!(records[0].room, 9);
    assert_eq!(records[0].class, "Art");
    assert_eq!(records[1].teacher, "Avery-Lee, Bo");
    assert_eq!(records[1].room, 12);
    assert_eq!(records[1].class, "World History: Part A");
    assert_eq!(records[2].teacher, "Stone, Al");
    assert_eq!(records[2].room, 9);
    assert_eq!(records[2].class, "Art");
}

#[test]
fn room_that_is_no_number_fails_the_extraction() {
    let page = format!(
        "{}<td nowrap>Doe, Jo</td><td nowrap>99999999999999999999999999</td><td nowrap>Art</td>{}",
        ROW, ROW
    );
    assert_eq!(extract_records(&page).unwrap_err(), AspenError::MalformedRecord);
    assert!(matches!(
        extract_classes(page),
        Err(ProjError::Aspen(AspenError::MalformedRecord))
    ));
    let page = "<td nowrap>Doe, Jo</td><td nowrap>\u{0663}</td><td nowrap>Art</td>";
    assert_eq!(extract_records(page).unwrap_err(), AspenError::MalformedRecord);
}

#[test]
fn one_match_is_one_record() {
    let c = record_from(&groups(&[Some("all"), Some("Smith, Jane"), Some("204"), Some("Algebra  II")]))
        .unwrap();
    assert_eq!(c.teacher, "Smith, Jane");
    assert_eq!(c.room, 204);
    assert_eq!(c.class, "AlgebraII");
}

#[test]
fn whitespace_policy_differs_by_field() {
    let c = record_from(&groups(&[
        Some("all"),
        Some("Smith,\tJane  A\nB"),
        Some("+17"),
        Some("Intro\tto\n Art   and  Craft"),
    ]))
    .unwrap();
    assert_eq!(c.teacher, "Smith, Jane  A B");
    assert_eq!(c.room, 17);
    assert_eq!(c.class, "Intro toArt andCraft");
}

#[test]
fn match_without_all_three_fields_is_no_record() {
    assert!(record_from(&groups(&[])).is_none());
    assert!(record_from(&groups(&[Some("all"), Some("Smith, Jane"), Some("204")])).is_none());
    assert!(record_from(&groups(&[Some("all"), None, Some("204"), Some("Art")])).is_none());
    assert!(record_from(&groups(&[Some("all"), Some("Smith, Jane"), None, Some("Art")])).is_none());
    assert!(record_from(&groups(&[Some("all"), Some("Smith, Jane"), Some("204"), None])).is_none());
    assert!(record_from(&groups(&[Some("all"), Some("Smith, Jane"), Some("2 4"), Some("Art")]))
        .is_none());
    assert!(record_from(&groups(&[Some("all"), Some("Smith, Jane"), Some("2\n"), Some("Art")]))
        .is_none());
}

#[test]
fn first_bad_match_fails_the_reading() {
    let good = groups(&[Some("all"), Some("Smith, Jane"), Some("204"), Some("Art")]);
    let bad = groups(&[Some("all"), Some("Smith, Jane"), Some("x"), Some("Art")]);
    assert!(records_from(&vec![]).unwrap().is_empty());
    assert_eq!(records_from(&vec![good.clone(), good.clone()]).unwrap().len(), 2);
    assert_eq!(
        records_from(&vec![good.clone(), bad, good]).unwrap_err(),
        AspenError::MalformedRecord
    );
}

#[test]
fn object_and_array_are_framed_exactly() {
    assert_eq!(
        write_object("\"Smith, Jane\"", 204, "\"AlgebraII\""),
        "{\"teacher\":\"Smith, Jane\",\"room\":204,\"class\":\"AlgebraII\"}"
    );
    assert_eq!(write_object("\"\"", 0, "\"\""), "{\"teacher\":\"\",\"room\":0,\"class\":\"\"}");
    assert_eq!(
        write_object("\"a\"", usize::MAX, "\"b\""),
        format!("{{\"teacher\":\"a\",\"room\":{},\"class\":\"b\"}}", usize::MAX)
    );
    assert_eq!(write_array(&vec![]), "[]");
    assert_eq!(write_array(&vec!["1".to_string()]), "[1]");
    assert_eq!(
        write_array(&vec!["1".to_string(), "{}".to_string(), "3".to_string()]),
        "[1,{},3]"
    );
}

#[test]
fn strings_are_quoted_by_the_json_writer() {
    let json = to_json(&vec![entry("O\"Neil, \\Pat", 7, "tab\there\nnew")]).unwrap();
    assert_eq!(
        json,
        "[{\"teacher\":\"O\\\"Neil, \\\\Pat\",\"room\":7,\"class\":\"tab\\there\\nnew\"}]"
    );
}

#[test]
fn every_escape_of_the_json_writer() {
    let json = to_json(&vec![entry("\u{0}\u{1}\u{8}\t\n\u{b}\u{c}\r\u{e}\u{1f} \u{7f}", 1, "\"\\/é\u{2028}")])
        .unwrap();
    assert_eq!(
        json,
        "[{\"teacher\":\"\\u0000\\u0001\\b\\t\\n\\u000b\\f\\r\\u000e\\u001f \u{7f}\",\"room\":1,\"class\":\"\\\"\\\\/é\u{2028}\"}]"
    );
}

#[test]
fn roster_round_trips_through_json() {
    let none: Vec<Class> = vec![];
    assert_eq!(to_json(&none).unwrap(), "[]");
    assert!(same(&parse_back(&to_json(&none).unwrap()), &none));

    let one = vec![entry("Smith, Jane", 204, "AlgebraII")];
    assert!(same(&parse_back(&to_json(&one).unwrap()), &one));

    let many = vec![
        entry("Smith, Jane", 204, "AlgebraII"),
        entry("Avery-Lee, Bo", 0, "World History: Part A"),
        entry("Ünal, \"Zoë\"", usize::MAX, "line\nbreak \\ slash / \u{1F600}"),
        entry("Smith, Jane", 204, "AlgebraII"),
        entry("", 10, ""),
    ];
    assert!(same(&parse_back(&to_json(&many).unwrap()), &many));
}

#[test]
fn extracted_records_round_trip_through_json() {
    for n in [0usize, 1, 2, 25] {
        let page = ROW.repeat(n);
        let records = extract_records(&page).unwrap();
        assert_eq!(records.len(), n);
        let back = parse_back(&extract_classes(page).unwrap());
        assert!(same(&back, &records));
    }
}
