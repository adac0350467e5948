use graph_oauth::download::parse_content_disposition;

#[test]
fn plain_filename_is_taken_from_the_last_piece() {
    let name = parse_content_disposition("attachment;filename=\"report.pdf\"");
    assert_eq!(name, Some("report.pdf".to_string()));
}

#[test]
fn encoded_filename_wins_and_is_decoded() {
    let name = parse_content_disposition("attachment;filename*=utf-8''na%C3%AFve%20file.txt");
    assert_eq!(name, Some("naïve file.txt".to_string()));
}

#[test]
fn header_without_a_name_yields_nothing() {
    assert_eq!(parse_content_disposition("attachment; size=42"), None);
    assert_eq!(parse_content_disposition(""), None);
}
