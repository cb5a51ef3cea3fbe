use crossbundle::text::{
    chars_of, concat2, concat3, copy_strings, replace, same_text, u32_to_decimal,
};

#[test]
fn decimal_numerals() {
    assert_eq!(u32_to_decimal(0), "0");
    assert_eq!(u32_to_decimal(7), "7");
    assert_eq!(u32_to_decimal(9), "9");
    assert_eq!(u32_to_decimal(10), "10");
    assert_eq!(u32_to_decimal(23), "23");
    assert_eq!(u32_to_decimal(30), "30");
    assert_eq!(u32_to_decimal(100), "100");
    assert_eq!(u32_to_decimal(1234567890), "1234567890");
    assert_eq!(u32_to_decimal(4294967295), "4294967295");
    for n in [0u32, 1, 9, 10, 11, 99, 100, 101, 65535, 65536, 4294967294] {
        assert_eq!(u32_to_decimal(n), n.to_string());
    }
}

#[test]
fn replace_every_occurrence() {
    assert_eq!(replace("my-game-lib", '-', "_"), "my_game_lib");
    assert_eq!(replace("", '-', "_"), "");
    assert_eq!(replace("---", '-', "_"), "___");
    assert_eq!(replace("abc", '-', "_"), "abc");
    assert_eq!(replace("a-b", '-', ""), "ab");
    assert_eq!(replace("a-b", '-', "<->"), "a<->b");
    assert_eq!(replace("C:\\ndk\\r21", '\\', "/"), "C:/ndk/r21");
    assert_eq!(replace("grüße-ß", '-', "_"), "grüße_ß");
    assert_eq!(replace("grüße", 'ü', "ue"), "grueße");
}

#[test]
fn concatenation_and_comparison() {
    assert_eq!(concat2("lib", "game"), "libgame");
    assert_eq!(concat2("", ""), "");
    assert_eq!(concat3("lib", "game", ".so"), "libgame.so");
    assert!(same_text("a", "a"));
    assert!(same_text("", ""));
    assert!(!same_text("a", "A"));
    assert!(!same_text("a", "ab"));
}

#[test]
fn characters_and_copies() {
    assert_eq!(chars_of("aß→"), vec!['a', 'ß', '→']);
    assert_eq!(chars_of(""), Vec::<char>::new());
    let items = vec!["x".to_string(), "".to_string(), "yz".to_string()];
    assert_eq!(copy_strings(&items), items);
    assert_eq!(copy_strings(&[]), Vec::<String>::new());
}
