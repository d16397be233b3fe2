use mail_relay::addresses::{copy_list, extract_addrs};

fn list(items: &[&str]) -> Vec<String> {
    items.iter().map(|s| s.to_string()).collect()
}

#[test]
fn comma_joined_element_is_split() {
    assert_eq!(
        extract_addrs(&list(&["a@x.com,b@x.com"])),
        list(&["a@x.com", "b@x.com"])
    );
}

#[test]
fn comma_joined_element_equals_the_proper_list() {
    assert_eq!(
        extract_addrs(&list(&["a@x.com,b@x.com"])),
        extract_addrs(&list(&["a@x.com", "b@x.com"]))
    );
}

#[test]
fn two_elements_are_left_alone_even_with_a_comma() {
    let input = list(&["a@x.com,c@x.com", "b@x.com"]);
    assert_eq!(extract_addrs(&input), input);
}

#[test]
fn single_element_without_comma_is_left_alone() {
    let input = list(&["  a@x.com  "]);
    assert_eq!(extract_addrs(&input), input);
}

#[test]
fn empty_list_stays_empty() {
    assert_eq!(extract_addrs(&Vec::new()), Vec::<String>::new());
}

#[test]
fn pieces_are_trimmed() {
    assert_eq!(
        extract_addrs(&list(&[" a@x.com ,\tb@x.com\n, c@x.com"])),
        list(&["a@x.com", "b@x.com", "c@x.com"])
    );
}

#[test]
fn unicode_blanks_are_trimmed() {
    assert_eq!(
        extract_addrs(&list(&["\u{00A0}a@x.com\u{3000},\u{2003}b@x.com"])),
        list(&["a@x.com", "b@x.com"])
    );
}

#[test]
fn empty_pieces_are_dropped() {
    assert_eq!(
        extract_addrs(&list(&[",a@x.com,, ,b@x.com,"])),
        list(&["a@x.com", "b@x.com"])
    );
}

#[test]
fn a_lone_comma_gives_no_address() {
    assert_eq!(extract_addrs(&list(&[","])), Vec::<String>::new());
    assert_eq!(extract_addrs(&list(&[" , ,, "])), Vec::<String>::new());
}

#[test]
fn trailing_comma_gives_one_address() {
    assert_eq!(extract_addrs(&list(&["a@x.com,"])), list(&["a@x.com"]));
}

#[test]
fn order_and_duplicates_are_kept() {
    assert_eq!(
        extract_addrs(&list(&["c@x.com,a@x.com,c@x.com,b@x.com"])),
        list(&["c@x.com", "a@x.com", "c@x.com", "b@x.com"])
    );
}

#[test]
fn inner_blanks_are_kept() {
    assert_eq!(
        extract_addrs(&list(&["Jane Doe <j@x.com>, b@x.com"])),
        list(&["Jane Doe <j@x.com>", "b@x.com"])
    );
}

#[test]
fn splitting_twice_changes_nothing() {
    let inputs = [
        list(&["a@x.com,b@x.com"]),
        list(&["a@x.com,"]),
        list(&[","]),
        list(&["a@x.com"]),
        list(&["a,b", "c"]),
        list(&[" a , b , c "]),
        Vec::new(),
    ];
    for input in inputs.iter() {
        let once = extract_addrs(input);
        assert_eq!(extract_addrs(&once), once);
    }
}

#[test]
fn splitting_agrees_with_the_standard_library() {
    let samples = [
        "a,b",
        " a , b ",
        ",,",
        "a,",
        ",a",
        "a,,b",
        "x y,\tz\u{2028},\u{85}q\u{85}",
        "\u{1680}a\u{1680},b",
        "é,ü , ß",
    ];
    for sample in samples.iter() {
        let expected: Vec<String> = sample
            .split(",")
            .map(|part| part.trim().to_string())
            .filter(|part| !part.is_empty())
            .collect();
        assert_eq!(extract_addrs(&list(&[sample])), expected);
    }
}

#[test]
fn copy_list_copies() {
    let input = list(&["a", "", "b,c"]);
    assert_eq!(copy_list(&input), input);
}
