use axolotl_types::grammar::{render, same_text, split, split_points};
use axolotl_types::{
    BadNamespacedKeyError, NameSpaceKey, NameSpaceRef, NamespacedKey, OwnedNameSpaceKey,
};
use std::collections::hash_map::DefaultHasher;
use std::collections::HashSet;
use std::hash::{Hash, Hasher};
use std::str::FromStr;

fn hash_of<T: Hash>(value: &T) -> u64 {
    let mut hasher = DefaultHasher::new();
    value.hash(&mut hasher);
    hasher.finish()
}

fn owned(namespace: &str, key: &str) -> OwnedNameSpaceKey {
    OwnedNameSpaceKey::new(namespace.to_string(), key.to_string())
}

#[test]
fn parse_reads_namespace_and_key() {
    let key = OwnedNameSpaceKey::from_str("minecraft:stone").unwrap();
    assert_eq!(key.get_namespace(), "minecraft");
    assert_eq!(key.get_key(), "stone");
    assert_eq!(key.as_tuple(), ("minecraft", "stone"));
}

#[test]
fn parse_then_render_gives_the_text_back() {
    for text in ["minecraft:stone", "a:b", "plugin_one:some/path.json", "n:k"] {
        let key = OwnedNameSpaceKey::from_str(text).unwrap();
        assert_eq!(key.to_string(), text);
    }
}

#[test]
fn render_then_parse_gives_the_pair_back() {
    for (namespace, key) in [("minecraft", "stone"), ("a", "b"), ("", ""), ("", "k"), ("n", "")] {
        let made = owned(namespace, key);
        let read = OwnedNameSpaceKey::from_str(&made.to_string()).unwrap();
        assert_eq!(read, made);
        assert_eq!(read.as_tuple(), (namespace, key));
    }
}

#[test]
fn parse_of_a_lone_colon_gives_two_empty_segments() {
    let key = OwnedNameSpaceKey::from_str(":").unwrap();
    assert_eq!(key.as_tuple(), ("", ""));
    assert_eq!(key, owned("", ""));
}

#[test]
fn parse_without_a_colon_fails() {
    let read = OwnedNameSpaceKey::from_str("onlynamespace");
    assert!(matches!(read, Err(BadNamespacedKeyError)));
}

#[test]
fn parse_of_the_empty_text_fails() {
    assert!(OwnedNameSpaceKey::from_str("").is_err());
}

#[test]
fn parse_drops_what_follows_a_second_colon() {
    let key = OwnedNameSpaceKey::from_str("a:b:c").unwrap();
    assert_eq!(key.as_tuple(), ("a", "b"));
    assert_eq!(key, owned("a", "b"));
    assert_eq!(key.to_string(), "a:b");
    let more = OwnedNameSpaceKey::from_str("a:b:c:d:e").unwrap();
    assert_eq!(more.as_tuple(), ("a", "b"));
    let hollow = OwnedNameSpaceKey::from_str("a::c").unwrap();
    assert_eq!(hollow.as_tuple(), ("a", ""));
    let all = OwnedNameSpaceKey::from_str(":::").unwrap();
    assert_eq!(all.as_tuple(), ("", ""));
}

#[test]
fn parse_accepts_an_empty_namespace_or_key() {
    assert_eq!(OwnedNameSpaceKey::from_str(":foo").unwrap().as_tuple(), ("", "foo"));
    assert_eq!(OwnedNameSpaceKey::from_str("foo:").unwrap().as_tuple(), ("foo", ""));
}

#[test]
fn parse_neither_trims_nor_folds_case() {
    let key = OwnedNameSpaceKey::from_str(" Mine Craft :\tStone \n").unwrap();
    assert_eq!(key.as_tuple(), (" Mine Craft ", "\tStone \n"));
    assert_ne!(key, owned("mine craft", "stone"));
}

#[test]
fn parse_counts_characters_not_bytes() {
    let key = OwnedNameSpaceKey::from_str("n\u{e4}me\u{1f600}:sch\u{fc}ssel\u{4e2d}:rest").unwrap();
    assert_eq!(key.as_tuple(), ("n\u{e4}me\u{1f600}", "sch\u{fc}ssel\u{4e2d}"));
    assert_eq!(key.to_string(), "n\u{e4}me\u{1f600}:sch\u{fc}ssel\u{4e2d}");
}

#[test]
fn str_parse_goes_through_from_str() {
    let key: OwnedNameSpaceKey = "mod:item".parse().unwrap();
    assert_eq!(key, owned("mod", "item"));
    let bad: Result<OwnedNameSpaceKey, BadNamespacedKeyError> = "moditem".parse();
    assert!(bad.is_err());
}

#[test]
fn try_from_an_owned_text_reads_it_alike() {
    let key = OwnedNameSpaceKey::try_from(String::from("x:y:z")).unwrap();
    assert_eq!(key.as_tuple(), ("x", "y"));
    assert!(OwnedNameSpaceKey::try_from(String::from("xyz")).is_err());
}

#[test]
fn the_error_has_a_fixed_message() {
    let error = OwnedNameSpaceKey::from_str("nothing").unwrap_err();
    assert_eq!(error.to_string(), "Bad Namespaced Key");
    assert_eq!(BadNamespacedKeyError.to_string(), "Bad Namespaced Key");
}

#[test]
fn new_keeps_both_segments_as_given() {
    let namespace = String::from("plugin");
    let key = String::from("thing");
    let made = OwnedNameSpaceKey::new(namespace.clone(), key.clone());
    assert_eq!(made.as_tuple(), (namespace.as_str(), key.as_str()));
    assert_eq!(made.get_namespace(), "plugin");
    assert_eq!(made.get_key(), "thing");
    let odd = OwnedNameSpaceKey::new(String::from("a:b"), String::from("c:d"));
    assert_eq!(odd.as_tuple(), ("a:b", "c:d"));
    assert_eq!(odd.to_string(), "a:b:c:d");
}

#[test]
fn a_segment_with_a_colon_does_not_come_back() {
    let odd = OwnedNameSpaceKey::new(String::from("a"), String::from("b:c"));
    let read = OwnedNameSpaceKey::from_str(&odd.to_string()).unwrap();
    assert_eq!(read.as_tuple(), ("a", "b"));
    assert_ne!(read, odd);
}

#[test]
fn equality_goes_by_the_pair_alone() {
    assert_eq!(owned("a", "b"), owned("a", "b"));
    assert_ne!(owned("a", "b"), owned("b", "a"));
    assert_ne!(owned("a", "b"), owned("a", "c"));
    assert_ne!(owned("a", "b"), owned("c", "b"));
    assert_ne!(owned("ab", ""), owned("a", "b"));
    assert_ne!(owned("", "ab"), owned("a", "b"));
    let parsed = OwnedNameSpaceKey::from_str("a:b").unwrap();
    assert_eq!(parsed, owned("a", "b"));
    assert_eq!(parsed.clone(), parsed);
}

#[test]
fn hashing_goes_by_the_pair_alone() {
    let made = owned("a", "b");
    let parsed = OwnedNameSpaceKey::from_str("a:b:c").unwrap();
    assert_eq!(hash_of(&made), hash_of(&parsed));
    let borrowed = NameSpaceRef::new("a", "b");
    assert_eq!(hash_of(&made), hash_of(&borrowed));
    assert_eq!(hash_of(&NameSpaceKey::Owned(made.clone())), hash_of(&made));
    assert_eq!(hash_of(&NameSpaceKey::RefOwned(&made)), hash_of(&made));
    assert_eq!(hash_of(&NameSpaceKey::Ref(borrowed.clone())), hash_of(&made));
    assert_eq!(hash_of(&(&made)), hash_of(&made));
    let mut seen = HashSet::new();
    assert!(seen.insert(NameSpaceKey::Owned(owned("n", "k"))));
    assert!(!seen.insert(NameSpaceKey::Ref(NameSpaceRef::new("n", "k"))));
    assert!(seen.insert(NameSpaceKey::Ref(NameSpaceRef::new("k", "n"))));
    assert!(seen.contains(&NameSpaceKey::RefOwned(&owned("k", "n"))));
}

#[test]
fn borrowed_key_reads_like_an_owned_one() {
    let text = String::from("space:name");
    let borrowed = NameSpaceRef::new(&text[0..5], &text[6..]);
    assert_eq!(borrowed.get_namespace(), "space");
    assert_eq!(borrowed.get_key(), "name");
    assert_eq!(borrowed.as_tuple(), ("space", "name"));
    assert_eq!(borrowed.to_string(), "space:name");
    assert_eq!(borrowed, NameSpaceRef::new("space", "name"));
    assert_ne!(borrowed, NameSpaceRef::new("space", "nam"));
    assert_ne!(borrowed, NameSpaceRef::new("spac", "name"));
    let both: (String, String) = borrowed.into();
    assert_eq!(both, (String::from("space"), String::from("name")));
}

#[test]
fn reference_to_an_owned_key_reads_like_the_key() {
    let made = owned("space", "name");
    let shared = &made;
    assert_eq!(NamespacedKey::get_namespace(&shared), "space");
    assert_eq!(NamespacedKey::get_key(&shared), "name");
    assert_eq!(NamespacedKey::as_tuple(&shared), ("space", "name"));
    assert_eq!(NamespacedKey::to_string(&shared), "space:name");
    let both: (String, String) = shared.into();
    assert_eq!(both, (String::from("space"), String::from("name")));
    assert_eq!(made.as_tuple(), ("space", "name"));
}

#[test]
fn into_hands_out_both_segments() {
    let both: (String, String) = owned("left", "right").into();
    assert_eq!(both, (String::from("left"), String::from("right")));
    let made = owned("l", "r");
    let from_union: (String, String) = NameSpaceKey::RefOwned(&made).into();
    assert_eq!(from_union, (String::from("l"), String::from("r")));
    let from_owned: (String, String) = NameSpaceKey::Owned(owned("o", "w")).into();
    assert_eq!(from_owned, (String::from("o"), String::from("w")));
    let from_ref: (String, String) = NameSpaceKey::Ref(NameSpaceRef::new("r", "f")).into();
    assert_eq!(from_ref, (String::from("r"), String::from("f")));
}

#[test]
fn every_representation_reads_and_renders_alike() {
    let made = owned("mod", "block");
    let keys = [
        NameSpaceKey::Owned(made.clone()),
        NameSpaceKey::RefOwned(&made),
        NameSpaceKey::Ref(NameSpaceRef::new("mod", "block")),
    ];
    for key in keys.iter() {
        assert_eq!(key.get_namespace(), "mod");
        assert_eq!(key.get_key(), "block");
        assert_eq!(key.as_tuple(), ("mod", "block"));
        assert_eq!(key.as_tuple(), (key.get_namespace(), key.get_key()));
        assert_eq!(key.to_string(), "mod:block");
        for other in keys.iter() {
            assert_eq!(key, other);
        }
        assert_ne!(*key, NameSpaceKey::Ref(NameSpaceRef::new("mod", "item")));
    }
}

#[test]
fn union_read_from_text_owns_its_segments() {
    let key = {
        let text = String::from("a:b:c");
        NameSpaceKey::from_text(&text).unwrap()
    };
    assert!(matches!(key, NameSpaceKey::Owned(_)));
    assert_eq!(key.as_tuple(), ("a", "b"));
    assert!(matches!(NameSpaceKey::from_text("ab"), Err(BadNamespacedKeyError)));
}

#[test]
fn text_of_a_key_read_back_gives_an_equal_key() {
    for (namespace, key) in [("minecraft", "dirt"), ("", ""), ("x", ""), ("", "y")] {
        let made = owned(namespace, key);
        let text = NameSpaceKey::RefOwned(&made).to_string();
        let read = NameSpaceKey::from_text(&text).unwrap();
        assert_eq!(read, NameSpaceKey::Owned(made.clone()));
        assert_eq!(read, NameSpaceKey::Ref(NameSpaceRef::new(namespace, key)));
    }
}

#[test]
fn split_points_are_character_positions() {
    assert_eq!(split_points("a:b:c"), Some((1, 3)));
    assert_eq!(split_points("ab:cd"), Some((2, 5)));
    assert_eq!(split_points(":"), Some((0, 1)));
    assert_eq!(split_points("::"), Some((0, 1)));
    assert_eq!(split_points("abc"), None);
    assert_eq!(split_points(""), None);
    assert_eq!(split_points("\u{e4}\u{1f600}:\u{4e2d}:x"), Some((2, 4)));
}

#[test]
fn split_borrows_both_segments() {
    assert_eq!(split("left:right"), Some(("left", "right")));
    assert_eq!(split("left:right:more"), Some(("left", "right")));
    assert_eq!(split(":"), Some(("", "")));
    assert_eq!(split("none"), None);
}

#[test]
fn render_puts_one_colon_between() {
    assert_eq!(render("a", "b"), "a:b");
    assert_eq!(render("", ""), ":");
    assert_eq!(render("a:b", "c"), "a:b:c");
}

#[test]
fn same_text_compares_characters() {
    assert!(same_text("", ""));
    assert!(same_text("abc", "abc"));
    assert!(!same_text("abc", "abd"));
    assert!(!same_text("abc", "ab"));
    assert!(!same_text("ab", "abc"));
    assert!(!same_text("\u{e4}", "ae"));
    assert!(same_text("\u{1f600}x", "\u{1f600}x"));
}
