use card_game::text::{chars_less, from_chars, lines_of, replace_all_chars, split_chars, to_chars, trim_chars};

fn chars(s: &str) -> Vec<char> {
    s.chars().collect()
}

fn strings(v: Vec<Vec<char>>) -> Vec<String> {
    v.into_iter().map(|x| x.into_iter().collect()).collect()
}

#[test]
fn trim_matches_std() {
    for s in ["  a b \t", "", "   ", "\u{a0}x\u{2003}", "\nq\r"] {
        assert_eq!(from_chars(&trim_chars(&chars(s))), s.trim());
    }
}

#[test]
fn lines_match_std() {
    for s in ["a\nb", "a\r\nb\r\n", "", "\n", "a\n\nb\n", "x\r", "a\rb\n"] {
        let ours = strings(lines_of(&chars(s)));
        let std: Vec<String> = s.lines().map(|l| l.to_string()).collect();
        assert_eq!(ours, std, "{:?}", s);
    }
}

#[test]
fn split_matches_std() {
    for s in ["a,b", ",", "", "a,,b,"] {
        let ours = strings(split_chars(&chars(s), ','));
        let std: Vec<String> = s.split(',').map(|l| l.to_string()).collect();
        assert_eq!(ours, std);
    }
}

#[test]
fn replace_matches_std() {
    for (s, p, r) in [("aaa", "aa", "b"), ("xyx", "x", "zz"), ("abc", "d", "e"), ("¤me ¤me", "¤me", "this card")] {
        let ours: String = replace_all_chars(&chars(s), &chars(p), &chars(r)).into_iter().collect();
        assert_eq!(ours, s.replacen(p, r, usize::MAX));
    }
}

#[test]
fn order_matches_std() {
    let words = ["", "a", "b", "ab", "Ä", "Z", "aa"];
    for x in words {
        for y in words {
            assert_eq!(chars_less(&chars(x), &chars(y)), x < y);
        }
    }
    assert_eq!(to_chars("é"), vec!['é']);
}
