use csmcl_qkitty_backend::{fill, Binding};

fn bind(token: &str, value: &str) -> Binding {
    Binding { token: token.to_string(), value: value.to_string() }
}

#[test]
fn fill_replaces_every_token() {
    let bindings = vec![bind("{a}", "1"), bind("{b}", "2")];
    assert_eq!(fill("{a}+{b}={a}{b}", &bindings), "1+2=12");
}

#[test]
fn fill_leaves_plain_text_alone() {
    let bindings = vec![bind("{a}", "1")];
    assert_eq!(fill("nothing to see", &bindings), "nothing to see");
    assert_eq!(fill("", &bindings), "");
    assert_eq!(fill("{b} {a", &bindings), "{b} {a");
}

#[test]
fn fill_without_bindings_copies() {
    assert_eq!(fill("{a} and {b}", &Vec::new()), "{a} and {b}");
}

#[test]
fn fill_does_not_read_a_value_again() {
    let bindings = vec![
        bind("{quantum}", "Q"),
        bind("{zen}", "{kitty}"),
        bind("{name}", "you"),
        bind("{kitty}", "{zen}"),
    ];
    assert_eq!(
        fill("{zen}{zen} {ze{zen}n} {{kitty}} {name", &bindings),
        "{kitty}{kitty} {ze{kitty}n} {{zen}} {name"
    );
}

#[test]
fn fill_takes_matches_from_the_left_without_overlap() {
    assert_eq!(fill("aaa", &vec![bind("aa", "b")]), "ba");
    assert_eq!(fill("x{}y{}", &vec![bind("{}", "{}{}")]), "x{}{}y{}{}");
}

#[test]
fn fill_lets_the_first_binding_win() {
    assert_eq!(fill("abab", &vec![bind("ab", "1"), bind("a", "2")]), "11");
    assert_eq!(fill("abab", &vec![bind("a", "2"), bind("ab", "1")]), "2b2b");
}

#[test]
fn fill_passes_over_an_empty_token() {
    assert_eq!(fill("abc", &vec![bind("", "X"), bind("b", "Y")]), "aYc");
    assert_eq!(fill("abc", &vec![bind("", "X")]), "abc");
}

#[test]
fn fill_counts_characters_not_bytes() {
    assert_eq!(fill("héllo {k} wörld", &vec![bind("{k}", "ñ")]), "héllo ñ wörld");
    assert_eq!(fill("猫{k}猫", &vec![bind("{k}", "🐱")]), "猫🐱猫");
    assert_eq!(fill("é", &vec![bind("e", "x")]), "é");
}

#[test]
fn fill_takes_a_token_at_either_end() {
    let bindings = vec![bind("{x}", "-")];
    assert_eq!(fill("{x}", &bindings), "-");
    assert_eq!(fill("{x}a", &bindings), "-a");
    assert_eq!(fill("a{x}", &bindings), "a-");
    assert_eq!(fill("{x}{x}", &bindings), "--");
    assert_eq!(fill("{x", &bindings), "{x");
}

#[test]
fn fill_can_remove_a_token() {
    assert_eq!(fill("a{x}b", &vec![bind("{x}", "")]), "ab");
    assert_eq!(fill("{qu{zen}antum}", &vec![bind("{quantum}", "Q"), bind("{zen}", "")]), "{quantum}");
}
