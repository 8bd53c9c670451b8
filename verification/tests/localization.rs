use stblib::localization::{colorize, fill_params, Localization};
use stblib::strings::Strings;

const DOCUMENT: &str = "
en:
  greeting: Hello
  colored: '{red}Stop{reset} and {green}go{creset}'
  welcome: 'Welcome %s, you are number %d'
  count: 7
de:
  greeting: Hallo
";

fn params(items: &[&str]) -> Vec<String> {
    items.iter().map(|s| s.to_string()).collect()
}

#[test]
fn get_looks_up_by_language_and_key() {
    let en = Localization::new("en", DOCUMENT, false).unwrap();
    assert_eq!(en.language, "en");
    assert!(!en.color_placeholders);
    assert_eq!(en.get("greeting"), Some("Hello".to_string()));
    assert_eq!(en.get("colored"), Some("{red}Stop{reset} and {green}go{creset}".to_string()));
    assert_eq!(en.get("missing"), None);
    assert_eq!(en.get("count"), None);
    let de = Localization::new("de", DOCUMENT, false).unwrap();
    assert_eq!(de.get("greeting"), Some("Hallo".to_string()));
    assert_eq!(de.get("welcome"), None);
    let fr = Localization::new("fr", DOCUMENT, true).unwrap();
    assert_eq!(fr.get("greeting"), None);
}

#[test]
fn broken_document_gives_no_localization() {
    assert!(Localization::new("en", "a: [1, 2", false).is_none());
    assert!(Strings::new("en", "a: [1, 2").is_none());
    assert!(Localization::from_document("en", None, true).is_none());
}

#[test]
fn placeholders_become_colors() {
    let en = Localization::new("en", DOCUMENT, true).unwrap();
    assert!(en.color_placeholders);
    assert_eq!(
        en.get("colored"),
        Some("\x1b[31mStop\x1b[39m and \x1b[32mgo\x1b[0m".to_string())
    );
    assert_eq!(en.get("greeting"), Some("Hello".to_string()));
    assert_eq!(
        colorize("{red}{green}{yellow}{blue}{magenta}{cyan}{white}{reset}{creset}{bold}{underline}{pink}"),
        "\x1b[31m\x1b[32m\x1b[33m\x1b[34m\x1b[35m\x1b[36m\x1b[37m\x1b[39m\x1b[0m\x1b[1m\x1b[4m{pink}"
    );
}

#[test]
fn params_fill_placeholders_in_turn() {
    assert_eq!(fill_params("Hi %s and %s", &params(&["a", "b"])), "Hi a and b");
    assert_eq!(fill_params("Hi %s and %s", &params(&["a"])), "Hi a and %s");
    assert_eq!(fill_params("Hi %s", &params(&["a", "b"])), "Hi a");
    assert_eq!(fill_params("n = %d", &params(&["+007"])), "n = 7");
    assert_eq!(fill_params("n = %d", &params(&["-12"])), "n = -12");
    assert_eq!(fill_params("n = %d", &params(&["twelve"])), "n = %d");
    assert_eq!(fill_params("n = %d", &params(&["twelve", "12"])), "n = 12");
    assert_eq!(fill_params("%d then %s", &params(&["x", "5"])), "5 then x");
    assert_eq!(fill_params("%s", &params(&["%s", "again"])), "again");
    assert_eq!(fill_params("plain", &params(&["a"])), "plain");
    assert_eq!(fill_params("ä%sö", &params(&["ü"])), "äüö");
    assert_eq!(fill_params("", &params(&[])), "");
}

#[test]
fn get_with_params_fills_the_found_text() {
    let en = Localization::new("en", DOCUMENT, false).unwrap();
    assert_eq!(
        en.get_with_params("welcome", &params(&["Alice", "3"])),
        Some("Welcome Alice, you are number 3".to_string())
    );
    assert_eq!(en.get_with_params("missing", &params(&["Alice"])), None);
}

#[test]
fn strings_loader() {
    let plain = Strings::new("en", DOCUMENT).unwrap();
    assert!(!plain.replace_placeholders);
    assert_eq!(plain.load("greeting"), Some("Hello".to_string()));
    assert_eq!(plain.load("colored"), Some("{red}Stop{reset} and {green}go{creset}".to_string()));
    assert_eq!(plain.load("nothing"), None);
    let colored = Strings::new_with_placeholders("en", DOCUMENT).unwrap();
    assert!(colored.replace_placeholders);
    assert_eq!(colored.language, "en");
    assert_eq!(
        colored.load("colored"),
        Some("\x1b[31mStop\x1b[39m and \x1b[32mgo\x1b[0m".to_string())
    );
    assert_eq!(
        colored.load_with_params("welcome", &params(&["Bob", "x"])),
        Some("Welcome Bob, you are number %d".to_string())
    );
}
