use mail_relay::apidoc::generate_api_doc;

#[test]
fn placeholder_is_filled_with_the_description() {
    assert_eq!(
        generate_api_doc("info:\n  description: '%%%API_DOC_INFO%%%'\n", Some("Our relay")),
        "info:\n  description: 'Our relay'\n"
    );
}

#[test]
fn default_description() {
    assert_eq!(
        generate_api_doc("<%%%API_DOC_INFO%%%>", None),
        "<Send mails via REST API>"
    );
}

#[test]
fn single_quotes_of_the_description_become_double_quotes() {
    assert_eq!(
        generate_api_doc("d: '%%%API_DOC_INFO%%%'", Some("it's 'quoted'")),
        "d: 'it\"s \"quoted\"'"
    );
}

#[test]
fn every_placeholder_is_filled() {
    assert_eq!(
        generate_api_doc("%%%API_DOC_INFO%%%%%%API_DOC_INFO%%% %%%API_DOC_INFO%%%", Some("x")),
        "xx x"
    );
}

#[test]
fn document_without_placeholder_is_unchanged() {
    assert_eq!(generate_api_doc("openapi: 3.0.0\n'quoted'", Some("x")), "openapi: 3.0.0\n'quoted'");
    assert_eq!(generate_api_doc("", Some("x")), "");
}

#[test]
fn filling_agrees_with_the_standard_library() {
    let documents = [
        "",
        "%",
        "%%%",
        "%%%API_DOC_INFO%%",
        "%%%API_DOC_INFO%%%",
        "%%%%API_DOC_INFO%%%%",
        "%%%API_DOC_INFO%%%API_DOC_INFO%%%",
        "%%%%%%API_DOC_INFO%%%%%%API_DOC_INFO%%%",
        "a%%%API_DOC_INFO%%%b%%%API_DOC_INFO%%%c",
        "é%%%API_DOC_INFO%%%ü",
        "%%%api_doc_info%%%",
    ];
    let infos = [None, Some(""), Some("'"), Some("a'b''c"), Some("%%%API_DOC_INFO%%%"), Some("ü'é")];
    for document in documents.iter() {
        for info in infos.iter() {
            let expected = document.replace(
                "%%%API_DOC_INFO%%%",
                &info.unwrap_or("Send mails via REST API").replace("'", "\""),
            );
            assert_eq!(generate_api_doc(document, *info), expected);
        }
    }
}
