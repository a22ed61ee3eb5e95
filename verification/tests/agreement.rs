use auth_backend::config::{get_range, parse_i64, parse_u16};
use auth_backend::models::{PageRequest, SortingOrder};
use auth_backend::utils::{find_char, i64_to_string, str_equal, u64_to_string};

struct Source(u64);

impl Source {
    fn next(&mut self) -> u64 {
        self.0 ^= self.0 << 13;
        self.0 ^= self.0 >> 7;
        self.0 ^= self.0 << 17;
        self.0
    }

    fn text(&mut self, alphabet: &[char], longest: u64) -> String {
        let length = self.next() % (longest + 1);
        (0..length).map(|_| alphabet[(self.next() % alphabet.len() as u64) as usize]).collect()
    }
}

#[test]
fn numerals_agree_with_the_standard_formatting() {
    let mut source = Source(0x9e37_79b9_7f4a_7c15);
    for _ in 0..2000 {
        let value = source.next() >> (source.next() % 64);
        assert_eq!(u64_to_string(value), value.to_string());
        let signed = value as i64;
        assert_eq!(i64_to_string(signed), signed.to_string());
        assert_eq!(i64_to_string(signed.wrapping_neg()), signed.wrapping_neg().to_string());
    }
}

#[test]
fn numbers_are_read_as_the_standard_parsing_reads_them() {
    let alphabet: Vec<char> = "0123456789+- _".chars().collect();
    let mut source = Source(0x1234_5678_9abc_def1);
    for _ in 0..5000 {
        let text = source.text(&alphabet[..12], 21);
        assert_eq!(parse_i64(&text), text.parse::<i64>().ok(), "{:?}", text);
        assert_eq!(parse_u16(&text), text.parse::<u16>().ok(), "{:?}", text);
        let odd = source.text(&alphabet, 6);
        assert_eq!(parse_i64(&odd), odd.parse::<i64>().ok(), "{:?}", odd);
        assert_eq!(parse_u16(&odd), odd.parse::<u16>().ok(), "{:?}", odd);
    }
}

#[test]
fn ranges_are_split_at_the_first_pair_of_dots() {
    let alphabet: Vec<char> = "0123456789..+".chars().collect();
    let mut source = Source(0x0f0f_1234_aaaa_5555);
    for _ in 0..5000 {
        let text = source.text(&alphabet, 12);
        let expected = text.split_once("..").and_then(|(start, end)| {
            Some((start.parse::<u16>().ok()?, end.parse::<u16>().ok()?))
        });
        assert_eq!(get_range(&text), expected, "{:?}", text);
    }
}

#[test]
fn texts_are_compared_and_searched_as_the_standard_library_does() {
    let alphabet: Vec<char> = "ab,é€😀 ".chars().collect();
    let mut source = Source(0xdead_beef_cafe_f00d);
    for _ in 0..3000 {
        let left = source.text(&alphabet, 4);
        let right = source.text(&alphabet, 4);
        assert_eq!(str_equal(&left, &right), left == right);
        assert!(str_equal(&left, &left.clone()));
        assert_eq!(
            find_char(&left, ','),
            left.chars().position(|c| c == ','),
            "{:?}",
            left
        );
    }
}

fn expected_order(value: &str) -> Option<String> {
    let (key, order) = value.split_once(",")?;
    let key = key.trim().to_string();
    let order = order.to_lowercase();
    match order.trim() {
        "asc" | "ascending" => Some(format!("{key} ASC")),
        "desc" | "dsc" | "descending" => Some(format!("{key} DESC")),
        _ => None,
    }
}

#[test]
fn orders_are_read_by_splitting_trimming_and_lowering() {
    let words = [
        "asc", "ASC", " Asc ", "ascending", "desc", "DSC", "dsc", "Descending", "up", "", ",",
        "id", " id ", "e\u{a0}mail", "ＡＳＣ", "asc,", " ", "\tdesc\n", "İd", "ǅ",
    ];
    let mut source = Source(0x5555_aaaa_1357_2468);
    for _ in 0..4000 {
        let pieces = 1 + source.next() % 3;
        let mut value = String::new();
        for piece in 0..pieces {
            if piece > 0 {
                value.push(',');
            }
            value.push_str(words[(source.next() % words.len() as u64) as usize]);
        }
        let read = SortingOrder::from(&value).to_sql_string();
        assert_eq!(read, expected_order(&value), "{:?}", value);
        let request = PageRequest { take: 3, skip: 4, sort: vec![value.clone(), "k,asc".to_string()] };
        let mut expected = String::from("Q");
        let orders: Vec<String> =
            request.sort.iter().filter_map(|order| expected_order(order)).collect();
        expected.push_str(&format!("ORDER BY {}\n", orders.join(", ")));
        expected.push_str("LIMIT 3 OFFSET 4");
        assert_eq!(request.to_sql_string("Q"), expected);
    }
}
