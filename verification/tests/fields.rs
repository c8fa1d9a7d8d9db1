use rust_parser::fields::{characters, find_first, sole_separator};

fn chars(text: &str) -> Vec<char> {
    text.chars().collect()
}

#[test]
fn characters_in_order() {
    assert_eq!(characters(""), Vec::<char>::new());
    assert_eq!(characters("a=b"), vec!['a', '=', 'b']);
    assert_eq!(characters("é=ü"), vec!['é', '=', 'ü']);
    assert_eq!(characters("threads=4").len(), 9);
}

#[test]
fn first_separator() {
    assert_eq!(find_first(&chars("a=b=c"), 0, '='), 1);
    assert_eq!(find_first(&chars("a=b=c"), 1, '='), 1);
    assert_eq!(find_first(&chars("a=b=c"), 2, '='), 3);
    assert_eq!(find_first(&chars("a=b=c"), 4, '='), 5);
    assert_eq!(find_first(&chars("a=b=c"), 5, '='), 5);
    assert_eq!(find_first(&chars("=ab"), 0, '='), 0);
    assert_eq!(find_first(&chars("ab="), 0, '='), 2);
}

#[test]
fn no_separator_gives_the_length() {
    assert_eq!(find_first(&chars(""), 0, '='), 0);
    assert_eq!(find_first(&chars("abc"), 0, '='), 3);
    assert_eq!(find_first(&chars("abc"), 3, '='), 3);
    assert_eq!(find_first(&chars("a=c"), 0, ':'), 3);
}

#[test]
fn exactly_two_fields() {
    assert_eq!(sole_separator(&chars("a=b"), '='), Some(1));
    assert_eq!(sole_separator(&chars("threads=4"), '='), Some(7));
    assert_eq!(sole_separator(&chars("="), '='), Some(0));
    assert_eq!(sole_separator(&chars("a="), '='), Some(1));
    assert_eq!(sole_separator(&chars("=a"), '='), Some(0));
    assert_eq!(sole_separator(&chars("é=ü"), '='), Some(1));
}

#[test]
fn one_field_or_more_than_two() {
    assert_eq!(sole_separator(&chars(""), '='), None);
    assert_eq!(sole_separator(&chars("abc"), '='), None);
    assert_eq!(sole_separator(&chars("a=b=c"), '='), None);
    assert_eq!(sole_separator(&chars("=="), '='), None);
    assert_eq!(sole_separator(&chars("a=="), '='), None);
    assert_eq!(sole_separator(&chars("==a"), '='), None);
    assert_eq!(sole_separator(&chars("a=b=c=d"), '='), None);
}

#[test]
fn field_count_agrees_with_the_standard_split() {
    let texts = ["", "=", "==", "===", "a", "ab", "a=", "=a", "a=b", "a==b", "a=b=", "=a=b", "a=b=c"];
    for text in texts {
        let parts: Vec<&str> = text.split('=').collect();
        let found = sole_separator(&chars(text), '=');
        assert_eq!(found.is_some(), parts.len() == 2, "text {:?}", text);
        if let Some(at) = found {
            let all = chars(text);
            assert_eq!(all[..at].iter().collect::<String>(), parts[0]);
            assert_eq!(all[at + 1..].iter().collect::<String>(), parts[1]);
        }
    }
}
