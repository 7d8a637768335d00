use rust_cad::Hashable;

#[test]
fn fingerprint_of_the_empty_text_is_zero() {
    assert_eq!("".hash(), 0);
    assert_eq!("".hashShader(), 0);
}

#[test]
fn fingerprint_of_one_character_is_its_code_unit() {
    assert_eq!("a".hash(), 97);
    assert_eq!("\u{e9}".hash(), 233);
}

#[test]
fn fingerprint_follows_the_recurrence() {
    // ((97 * 65599) + 98) * 65599 + 99, modulo 2^32
    assert_eq!("abc".hash(), 807794786);
    assert_eq!("hello world".hash(), 430867652);
    assert_eq!("void main() {}".hash(), 1074250364);
}

#[test]
fn fingerprint_wraps_on_long_texts() {
    let text = "x".repeat(100);
    assert_eq!(text.as_str().hash(), 1217321984);
}

#[test]
fn fingerprint_reads_surrogate_pairs() {
    assert_eq!("\u{1F600}".hash(), 3631420675);
    assert_eq!("a\u{1F600}b".hash(), 4201268350);
    assert_eq!("a\u{1F600}b".hashShader(), 4201268350);
}

#[test]
fn fingerprint_is_deterministic() {
    let first = String::from("#version 330 core");
    let second = String::from("#version 330 core");
    assert_eq!(first.as_str().hash(), first.as_str().hash());
    assert_eq!(first.as_str().hash(), second.as_str().hash());
    assert_eq!(first.as_str().hash(), 1352544506);
    assert_eq!(first.as_str().hashShader(), second.as_str().hashShader());
}

#[test]
fn fingerprint_reads_the_hash_mark() {
    assert_eq!("#".hash(), 35);
    assert_eq!("abc#xyz".hash(), 2141799224);
    assert_eq!("abc#qqq".hash(), 2083443888);
    assert_ne!("abc#xyz".hash(), "abc#qqq".hash());
}

#[test]
fn stable_fingerprint_stops_at_the_hash_mark() {
    assert_eq!("abc#xyz".hashShader(), "abc#qqq".hashShader());
    assert_eq!("abc#xyz".hashShader(), "abc".hash());
    assert_eq!("abc#xyz".hashShader(), 807794786);
}

#[test]
fn stable_fingerprint_of_a_leading_hash_mark_is_zero() {
    assert_eq!("#".hashShader(), 0);
    assert_eq!("#version 330 core".hashShader(), 0);
}

#[test]
fn stable_fingerprint_stops_at_the_first_of_several_marks() {
    assert_eq!("ab#".hashShader(), 6363201);
    assert_eq!("ab#cd#ef".hashShader(), "ab".hash());
}

#[test]
fn stable_fingerprint_without_a_mark_is_the_fingerprint() {
    assert_eq!("hello world".hashShader(), "hello world".hash());
    assert_eq!("hello world".hashShader(), 430867652);
}
