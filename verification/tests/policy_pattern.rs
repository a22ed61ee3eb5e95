use auth_backend::validators::is_password_valid;

const PATTERN: &str =
    r"^(?=.*[a-z])(?=.*[A-Z])(?=.*\d)(?=.*[@$!%*?&])[A-Za-z\d@$!%*?&]{8,12}$";

fn agrees(pattern: &fancy_regex::Regex, password: &str) {
    let matched = pattern.is_match(password).unwrap();
    assert_eq!(is_password_valid(password).is_none(), matched, "{:?}", password);
}

#[test]
fn the_policy_is_the_language_of_its_pattern_on_chosen_texts() {
    let pattern = fancy_regex::Regex::new(PATTERN).unwrap();
    for password in [
        "", "Abcdef1!", "Abcdef1!\n", "\nAbcdef1!", "Abcdef1!\r\n", "Abcde1!", "Abcdefghij1!",
        "Abcdefghij1!x", "abcdefg1!", "ABCDEFG1!", "Abcdefgh!", "Abcdefg12", "Abcdefg١!",
        "Abcdefg९!", "Abcdefg９!", "Abcdefgⅷ!", "Abcdefg½!", "Abcdef1!é", "Abcdef1! ",
        "Abcdef1!#", "Abcd\tef1!", "Abc.ef1!", "Abc^ef1!", "Abc-ef1!", "Abc]ef1!", "Abc\\ef1!",
        "Abcdef1٣", "ÀBcdef1!", "aB3$aB3$", "aB3@aB3@aB3@", "aB3@aB3@aB3@a", "aB3&&&&&", "aB3*****",
        "aB3?????", "aB3%%%%%", "aB3!!!!!", "aB3$$$$$", "aB3@\u{0}aaaa", "aB3@aa\u{7f}a",
        "aB3@aa\u{80}a", "aB3@aa\u{ff10}", "𝟙Bcdefg!a", "𝟙Bcdefg!", "aB𝟙@𝟙𝟙𝟙𝟙", "Abcdef1!Abcdef1!",
    ] {
        agrees(&pattern, password);
    }
}

#[test]
fn the_policy_is_the_language_of_its_pattern_on_many_texts() {
    let pattern = fancy_regex::Regex::new(PATTERN).unwrap();
    let alphabet: Vec<char> =
        "aZ0@$!%*?&bY9 _#\n-.Ωé١९\u{ff11}ⅷ".chars().collect();
    let mut state: u64 = 0x2545_f491_4f6c_dd1d;
    for _ in 0..4000 {
        state ^= state << 13;
        state ^= state >> 7;
        state ^= state << 17;
        let length = 6 + (state % 9) as usize;
        let mut password = String::new();
        let mut bits = state;
        for _ in 0..length {
            bits ^= bits << 13;
            bits ^= bits >> 7;
            bits ^= bits << 17;
            let pick = (bits % 100) as usize;
            let index = if pick < 80 { pick % 10 } else { pick % alphabet.len() };
            password.push(alphabet[index]);
        }
        agrees(&pattern, &password);
    }
}
