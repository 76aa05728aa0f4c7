use op_signature::{stringify_token, text_eq, text_order, Placement};

fn texts(parts: &[&str]) -> Vec<String> {
    parts.iter().map(|p| p.to_string()).collect()
}

#[test]
fn stringify_joins_tokens_without_separators() {
    assert_eq!(stringify_token(&texts(&["package", ":", ":", "Type"])), "package::Type");
    assert_eq!(stringify_token(&texts(&["&", "mut", "OpState"])), "&mutOpState");
}

#[test]
fn stringify_of_nothing_is_empty() {
    assert_eq!(stringify_token(&texts(&[])), "");
    assert_eq!(stringify_token(&texts(&["", ""])), "");
}

#[test]
fn stringify_tidies_commas_inside_groups() {
    assert_eq!(stringify_token(&texts(&["(A , B)"])), "(A, B)");
    assert_eq!(stringify_token(&texts(&["(A , B , C)"])), "(A, B, C)");
}

#[test]
fn stringify_tidies_commas_across_tokens() {
    assert_eq!(stringify_token(&texts(&["a ", ",", " b"])), "a, b");
}

#[test]
fn stringify_reads_commas_from_the_left() {
    // The space after one comma is not the space before the next.
    assert_eq!(stringify_token(&texts(&[" , , "])), ", , ");
    assert_eq!(stringify_token(&texts(&[" , , , "])), ", ,, ");
    assert_eq!(stringify_token(&texts(&[" ,  , "])), ", , ");
}

#[test]
fn stringify_keeps_other_commas() {
    assert_eq!(stringify_token(&texts(&["a,b"])), "a,b");
    assert_eq!(stringify_token(&texts(&["a, b"])), "a, b");
    assert_eq!(stringify_token(&texts(&["a ,b"])), "a ,b");
    assert_eq!(stringify_token(&texts(&[" ,"])), " ,");
}

#[test]
fn stringify_keeps_characters_outside_ascii() {
    assert_eq!(stringify_token(&texts(&["é , ü", "→"])), "é, ü→");
}

#[test]
fn text_eq_compares_characters() {
    assert!(text_eq("", ""));
    assert!(text_eq("u32", "u32"));
    assert!(!text_eq("u32", "u64"));
    assert!(!text_eq("u3", "u32"));
    assert!(!text_eq("u32", "u3"));
    assert!(text_eq("é", "é"));
    assert!(!text_eq("é", "e"));
}

#[test]
fn text_order_follows_the_dictionary() {
    assert_eq!(text_order("a", "b"), Placement::Before);
    assert_eq!(text_order("b", "a"), Placement::After);
    assert_eq!(text_order("abc", "abc"), Placement::Same);
    assert_eq!(text_order("", ""), Placement::Same);
    assert_eq!(text_order("", "a"), Placement::Before);
    assert_eq!(text_order("ab", "abc"), Placement::Before);
    assert_eq!(text_order("abc", "ab"), Placement::After);
    assert_eq!(text_order("B", "a"), Placement::Before);
}

#[test]
fn text_order_agrees_with_the_order_of_str() {
    let samples = ["", "A", "AB", "B", "Z", "a", "ab", "b", "é", "z", "→"];
    for a in samples {
        for b in samples {
            let expected = match a.cmp(b) {
                std::cmp::Ordering::Less => Placement::Before,
                std::cmp::Ordering::Equal => Placement::Same,
                std::cmp::Ordering::Greater => Placement::After,
            };
            assert_eq!(text_order(a, b), expected);
        }
    }
}
