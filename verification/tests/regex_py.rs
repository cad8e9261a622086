use chainner_ext::regex_py::position::{to_byte_pos, PosTranslator};
use chainner_ext::regex_py::{split_with_captures, Regex, RegexMatch};

#[test]
fn lib_regex_props() {
    assert_eq!(Regex::new(r"foo").unwrap().pattern(), "foo");
    assert_eq!(Regex::new(r"foo").unwrap().groups(), 0);
    assert_eq!(Regex::new(r"(foo)").unwrap().pattern(), "(foo)");
    assert_eq!(Regex::new(r"(foo)").unwrap().groups(), 1);
}

#[test]
fn lib_regex_search() {
    let re = Regex::new(r"\b(fo+)").unwrap();

    let m: RegexMatch = re.search("foo", 0).unwrap();
    assert_eq!(m.start(), 0);
    assert_eq!(m.end(), 3);
    assert_eq!(m.get(0), Some(0..3));
}

#[test]
fn lib_regex_search_unicode() {
    let re = Regex::new(r"\B.").unwrap();

    let m: RegexMatch = re.search("äöü", 0).unwrap();
    assert_eq!(m.start(), 1);
    assert_eq!(m.end(), 2);
    assert_eq!(m.get(0), Some(1..2));
}

#[test]
fn regex_regex_props() {
    assert_eq!(Regex::new(r"foo").unwrap().pattern(), "foo");
    assert_eq!(Regex::new(r"foo").unwrap().groups(), 0);
    assert_eq!(Regex::new(r"(foo)").unwrap().pattern(), "(foo)");
    assert_eq!(Regex::new(r"(foo)").unwrap().groups(), 1);
}

#[test]
fn regex_regex_search() {
    let re = Regex::new(r"\b(fo+)").unwrap();

    let m: RegexMatch = re.search("foo", 0).unwrap();
    assert_eq!(m.start(), 0);
    assert_eq!(m.end(), 3);
    assert_eq!(m.end() - m.start(), 3);
    assert_eq!(m.get(0), Some(0..3));
}

#[test]
fn regex_regex_search_unicode() {
    let re = Regex::new(r"\B.").unwrap();

    let m: RegexMatch = re.search("äöü", 0).unwrap();
    assert_eq!(m.start(), 1);
    assert_eq!(m.end(), 2);
    assert_eq!(m.end() - m.start(), 1);
    assert_eq!(m.get(0), Some(1..2));
}

#[test]
fn invalid_pattern_message() {
    let e = Regex::new(r"foo(bar").err().unwrap();
    assert!(e.message.starts_with("Invalid regex: "));
    assert!(e.message.len() > "Invalid regex: ".len());
}

#[test]
fn search_from_position_and_groups() {
    let re = Regex::new(r"(?<word>[a-z]+)(\d)?").unwrap();
    assert_eq!(re.groups(), 2);
    let m = re.search("ab1 cd", 2).unwrap();
    assert_eq!((m.start(), m.end()), (4, 6));
    assert_eq!(m.get(1), Some(4..6));
    assert_eq!(m.get(2), None);
    assert_eq!(m.get(3), None);
    assert_eq!(m.get_by_name("word"), Some(4..6));
    assert_eq!(m.get_by_name("nope"), None);
    assert!(re.search("123", 0).is_none());
}

#[test]
fn search_counts_characters_not_bytes() {
    let re = Regex::new(r"ü").unwrap();
    // position 1 is the second character, which starts at byte 2
    let m = re.search("äü", 1).unwrap();
    assert_eq!((m.start(), m.end()), (1, 2));
}

#[test]
fn groupindex_maps_names_to_indices() {
    let re = Regex::new(r"(?<a>x)(y)(?<c>z)").unwrap();
    let map = re.groupindex();
    assert_eq!(map.len(), 2);
    assert_eq!(map.get("a"), Some(&1));
    assert_eq!(map.get("c"), Some(&3));
    let pairs = re.group_index_pairs();
    assert_eq!(pairs, vec![("a".to_string(), 1), ("c".to_string(), 3)]);
}

#[test]
fn findall_translates_every_match() {
    let re = Regex::new(r"\w").unwrap();
    let all = re.findall("ä b");
    assert_eq!(all.len(), 2);
    assert_eq!((all[0].start(), all[0].end()), (0, 1));
    assert_eq!((all[1].start(), all[1].end()), (2, 3));
}

#[test]
fn split_keeps_captured_groups() {
    let re = Regex::new(r"(,)|;").unwrap();
    assert_eq!(re.split("a,b;c"), vec!["a", ",", "b", "c"]);
    assert_eq!(re.split(",a,"), vec![",", "a", ","]);
    assert_eq!(re.split(""), Vec::<String>::new());
}

#[test]
fn split_without_captures_drops_separators() {
    let re = Regex::new(r"(,)|;").unwrap();
    assert_eq!(re.split_without_captures("a,b;c"), vec!["a", "b", "c"]);
    let spaces = Regex::new(r" ").unwrap();
    assert_eq!(spaces.split_without_captures("  a"), vec!["", "", "a"]);
}

#[test]
fn split_with_captures_on_given_spans() {
    let text = "xaäyb";
    // one match "aä" at bytes 1..4 with group 1 at 2..4, one match "b" at bytes 5..6
    let caps = vec![
        vec![Some((1, 4)), Some((2, 4)), None],
        vec![Some((5, 6)), None, None],
    ];
    assert_eq!(split_with_captures(text, &caps), vec!["x", "ä", "y"]);
}

#[test]
fn to_byte_pos_cases() {
    assert_eq!(to_byte_pos("äöü", 0), 0);
    assert_eq!(to_byte_pos("äöü", 1), 2);
    assert_eq!(to_byte_pos("äöü", 2), 4);
    // at the character count: char_pos + chars - bytes
    assert_eq!(to_byte_pos("äöü", 3), 0);
    assert_eq!(to_byte_pos("äöü", 5), 2);
    // beyond the byte length: unchanged
    assert_eq!(to_byte_pos("äöü", 7), 7);
    assert_eq!(to_byte_pos("abc", 3), 3);
}

#[test]
fn pos_translator_counts_characters() {
    let mut t = PosTranslator::new("aäb€c");
    assert_eq!(t.get_char_pos(3), 2);
    assert_eq!(t.get_char_pos(0), 0);
    assert_eq!(t.get_char_pos(7), 4);
    assert_eq!(t.get_char_pos(3), 2);
    assert_eq!(t.get_char_pos(1), 1);
    assert_eq!(t.get_char_pos(8), 5);
}

#[test]
fn split_without_groups_is_the_plain_split_without_empty_pieces() {
    let re = Regex::new(r" ").unwrap();
    let plain = re.split_without_captures("    a  b c");
    assert_eq!(plain, vec!["", "", "", "", "a", "", "b", "c"]);
    let kept: Vec<String> = plain.into_iter().filter(|p| !p.is_empty()).collect();
    assert_eq!(re.split("    a  b c"), kept);

    let empty = Regex::new(r"").unwrap();
    assert_eq!(empty.split_without_captures("rust"), vec!["", "r", "u", "s", "t", ""]);
    assert_eq!(empty.split("rust"), vec!["r", "u", "s", "t"]);
}

#[test]
fn get_by_name_is_get_of_groupindex() {
    let re = Regex::new(r"(?<a>x)(y)?(?<c>z)").unwrap();
    let m = re.search("xz", 0).unwrap();
    let map = re.groupindex();
    for name in ["a", "c"] {
        let i = *map.get(name).unwrap();
        assert_eq!(m.get_by_name(name), m.get(i));
    }
    assert_eq!(m.get_by_name("a"), Some(0..1));
    assert_eq!(m.get_by_name("c"), Some(1..2));
    assert_eq!(m.get_by_name("b"), None);
    assert!(Regex::new(r"(?<a>x)(?<a>y)").is_err());
}

#[test]
fn get_by_name_is_get_of_group_index_pairs() {
    let re = Regex::new(r"(?<first>a)(b)?(?<third>c)?").unwrap();
    let m = re.search("ac", 0).unwrap();
    for (name, i) in re.group_index_pairs() {
        assert_eq!(m.get_by_name(&name), m.get(i));
    }
    assert_eq!(m.get_by_name("second"), None);
}

#[test]
fn split_of_comma_drops_empty_pieces() {
    let re = Regex::new(",").unwrap();
    assert_eq!(re.split("a,,b"), vec!["a", "b"]);
    assert_eq!(re.split_without_captures("a,,b"), vec!["a", "", "b"]);
}
