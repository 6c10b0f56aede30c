use blahaj_site::text::{
    contains_chars, from_chars, has_substring, matches_at, push_all, replace, replace_chars,
    same_text, to_chars,
};

fn chars(s: &str) -> Vec<char> {
    s.chars().collect()
}

#[test]
fn to_chars_and_back() {
    let s = "Blåhaj 🦈 ${img}";
    let v = to_chars(s);
    assert_eq!(v, chars(s));
    assert_eq!(from_chars(&v), s.to_string());
    assert_eq!(to_chars(""), Vec::<char>::new());
    assert_eq!(from_chars(&Vec::new()), String::new());
}

#[test]
fn matches_at_positions() {
    let s = chars("ab${x}cd");
    let pat = chars("${x}");
    assert!(matches_at(&s, &pat, 2));
    assert!(!matches_at(&s, &pat, 0));
    assert!(!matches_at(&s, &pat, 3));
    assert!(!matches_at(&s, &pat, 5));
    assert!(!matches_at(&s, &pat, 8));
    assert!(!matches_at(&s, &pat, 9));
    assert!(!matches_at(&s, &pat, usize::MAX));
}

#[test]
fn matches_at_empty_pattern() {
    let s = chars("ab");
    let empty = Vec::new();
    assert!(matches_at(&s, &empty, 0));
    assert!(matches_at(&s, &empty, 2));
    assert!(!matches_at(&s, &empty, 3));
}

#[test]
fn push_all_appends() {
    let mut out = chars("ab");
    push_all(&mut out, &chars("cd"));
    assert_eq!(out, chars("abcd"));
    push_all(&mut out, &Vec::new());
    assert_eq!(out, chars("abcd"));
}

#[test]
fn replace_single_occurrence() {
    assert_eq!(replace("<h1>${title}</h1>", "${title}", "Sharks"), "<h1>Sharks</h1>");
}

#[test]
fn replace_every_occurrence() {
    assert_eq!(replace("a-b-c", "-", "+"), "a+b+c");
    assert_eq!(replace("${x}${x}", "${x}", "y"), "yy");
}

#[test]
fn replace_without_occurrence_keeps_text() {
    assert_eq!(replace("plain text", "${img}", "/img/a.jpg"), "plain text");
    assert_eq!(replace("", "${img}", "/img/a.jpg"), "");
    assert_eq!(replace("ab", "abc", "x"), "ab");
}

#[test]
fn replace_with_empty_text_deletes() {
    assert_eq!(replace("<head>${extra_meta}</head>", "${extra_meta}", ""), "<head></head>");
}

#[test]
fn replace_does_not_overlap() {
    assert_eq!(replace("aaa", "aa", "b"), "ba");
    assert_eq!(replace("aaaa", "aa", "b"), "bb");
    assert_eq!(replace("aabb", "ab", ""), "ab");
}

#[test]
fn replace_does_not_rescan_what_it_wrote() {
    assert_eq!(replace("a", "a", "aa"), "aa");
    assert_eq!(replace("${a}", "${a}", "${a}${a}"), "${a}${a}");
}

#[test]
fn replace_empty_pattern() {
    assert_eq!(replace("abc", "", "-"), "-a-b-c-");
    assert_eq!(replace("", "", "-"), "-");
}

#[test]
fn replace_agrees_with_std() {
    let texts = ["", "a", "aaa", "abcabc", "${img}${img", "x${title}y${title}", "ååå", "a$a${a"];
    let patterns = ["", "a", "aa", "abc", "${img}", "${title}", "å", "$", "${"];
    let replacements = ["", "b", "a", "${img}", "/img/å.jpg"];
    for text in texts.iter() {
        for pat in patterns.iter() {
            for to in replacements.iter() {
                assert_eq!(replace(text, pat, to), text.replace(pat, to));
            }
        }
    }
}

#[test]
fn replace_chars_on_vectors() {
    let out = replace_chars(&chars("x${img}y"), &chars("${img}"), &chars("/img/a.jpg"));
    assert_eq!(out, chars("x/img/a.jpgy"));
}

#[test]
fn contains_finds_patterns() {
    assert!(has_substring("<img src=\"${img}\">", "${"));
    assert!(has_substring("${", "${"));
    assert!(has_substring("abc${", "${"));
    assert!(!has_substring("<img src=\"/img/a.jpg\">", "${"));
    assert!(!has_substring("$ {", "${"));
    assert!(!has_substring("$", "${"));
    assert!(!has_substring("", "${"));
    assert!(has_substring("", ""));
    assert!(has_substring("abc", ""));
    assert!(contains_chars(&chars("abc"), &chars("bc")));
    assert!(!contains_chars(&chars("abc"), &chars("cb")));
}

#[test]
fn same_text_compares_characters() {
    assert!(same_text("images", "images"));
    assert!(same_text("", ""));
    assert!(!same_text("images", "image"));
    assert!(!same_text("image", "images"));
    assert!(!same_text("js", "JS"));
    assert!(!same_text("", "a"));
}
